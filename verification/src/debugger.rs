pub mod disassemble;

use crate::state::memory::{read_ok, read_post};
use crate::state::{Condition, MachineView, State};
use crate::text::{bin_chars, dec_chars, hex_chars, push_bin, push_dec, push_hex, str_eq};
use disassemble::{disassemble, disassemble_chars};
use vstd::prelude::*;
use vstd::string::StrSliceExecFns;
use vstd::string::StringExecFns;

verus! {

broadcast use vstd::seq_lib::group_seq_lib_default;

/// The debugger's own state: whether execution is running on without
/// pausing, and the one optional breakpoint address.
pub struct Debugger {
    debug_continue: bool,
    break_address: Option<u16>,
}

/// The mathematical content of the debugger's state.
pub ghost struct DebuggerView {
    pub debug_continue: bool,
    pub break_address: Option<u16>,
}

impl View for Debugger {
    type V = DebuggerView;

    closed spec fn view(&self) -> DebuggerView {
        DebuggerView { debug_continue: self.debug_continue, break_address: self.break_address }
    }
}

/// One debugger command, as parsed from a request line.
#[derive(Debug, PartialEq, Eq)]
pub enum Command {
    Continue,
    Registers,
    Flags,
    Disassemble,
    Read(u16),
    BreakAddress(u16),
    Help,
    Exit,
    Unknown(String),
    Error(String),
}

/// The value of a hexadecimal digit character, or sixteen for any other
/// character.
pub open spec fn hex_digit_val(c: char) -> nat {
    if c == '0' {
        0
    } else if c == '1' {
        1
    } else if c == '2' {
        2
    } else if c == '3' {
        3
    } else if c == '4' {
        4
    } else if c == '5' {
        5
    } else if c == '6' {
        6
    } else if c == '7' {
        7
    } else if c == '8' {
        8
    } else if c == '9' {
        9
    } else if c == 'a' || c == 'A' {
        10
    } else if c == 'b' || c == 'B' {
        11
    } else if c == 'c' || c == 'C' {
        12
    } else if c == 'd' || c == 'D' {
        13
    } else if c == 'e' || c == 'E' {
        14
    } else if c == 'f' || c == 'F' {
        15
    } else {
        16
    }
}

/// The value a sequence of hexadecimal digit characters spells.
pub open spec fn hex_value(s: Seq<char>) -> nat
    decreases s.len(),
{
    if s.len() == 0 {
        0
    } else {
        16 * hex_value(s.drop_last()) + hex_digit_val(s.last())
    }
}

/// A line of the form `<pattern><one to four hex digits>` names the digits'
/// value; any other line names nothing.
pub open spec fn spec_parse_hex_after_pattern(pattern: Seq<char>, line: Seq<char>) -> Option<u16> {
    let digits = line.subrange(pattern.len() as int, line.len() as int);
    if line.len() > pattern.len() && line.len() <= pattern.len() + 4 && line.subrange(
        0,
        pattern.len() as int,
    ) == pattern && (forall|i: int| 0 <= i < digits.len() ==> hex_digit_val(#[trigger] digits[i]) < 16) {
        Some((hex_value(digits) as u16))
    } else {
        None
    }
}

/// The value of one hexadecimal digit character, or sixteen for any other.
fn hex_digit(c: char) -> (d: u16)
    ensures
        d as nat == hex_digit_val(c),
{
    if c == '0' {
        0
    } else if c == '1' {
        1
    } else if c == '2' {
        2
    } else if c == '3' {
        3
    } else if c == '4' {
        4
    } else if c == '5' {
        5
    } else if c == '6' {
        6
    } else if c == '7' {
        7
    } else if c == '8' {
        8
    } else if c == '9' {
        9
    } else if c == 'a' || c == 'A' {
        10
    } else if c == 'b' || c == 'B' {
        11
    } else if c == 'c' || c == 'C' {
        12
    } else if c == 'd' || c == 'D' {
        13
    } else if c == 'e' || c == 'E' {
        14
    } else if c == 'f' || c == 'F' {
        15
    } else {
        16
    }
}

/// Parse the address of a command of the form `<pattern><one to four hex
/// digits>`, such as `read 0x3000`.
pub fn parse_hex_after_pattern(pattern: &str, line: &str) -> (r: Option<u16>)
    ensures
        r == spec_parse_hex_after_pattern(pattern@, line@),
{
    let plen = pattern.unicode_len();
    let llen = line.unicode_len();
    if llen <= plen {
        return None;
    }
    if llen - plen > 4 {
        return None;
    }

    let mut i: usize = 0;
    while i < plen
        invariant
            i <= plen,
            plen == pattern@.len(),
            llen == line@.len(),
            plen < llen <= plen + 4,
            forall|j: int| 0 <= j < i ==> line@[j] == pattern@[j],
        decreases plen - i,
    {
        if line.get_char(i) != pattern.get_char(i) {
            proof {
                assert(line@.subrange(0, plen as int)[i as int] != pattern@[i as int]);
            }
            return None;
        }
        i = i + 1;
    }
    proof {
        assert(line@.subrange(0, plen as int) =~= pattern@);
    }

    let ghost digits = line@.subrange(plen as int, llen as int);
    let mut value: u16 = 0;
    let mut k: usize = plen;
    while k < llen
        invariant
            plen <= k <= llen,
            plen == pattern@.len(),
            llen == line@.len(),
            plen < llen <= plen + 4,
            line@.subrange(0, plen as int) == pattern@,
            digits == line@.subrange(plen as int, llen as int),
            forall|j: int| plen <= j < k ==> hex_digit_val(#[trigger] line@[j]) < 16,
            value as nat == hex_value(line@.subrange(plen as int, k as int)),
            k - plen == 0 ==> value == 0,
            k - plen == 1 ==> value < 16,
            k - plen == 2 ==> value < 256,
            k - plen == 3 ==> value < 4096,
        decreases llen - k,
    {
        let c = line.get_char(k);
        let d = hex_digit(c);
        if d == 16 {
            proof {
                assert(hex_digit_val(digits[k - plen]) >= 16);
            }
            return None;
        }
        proof {
            assert(line@.subrange(plen as int, k + 1 as int).drop_last() =~= line@.subrange(
                plen as int,
                k as int,
            ));
            assert(line@.subrange(plen as int, k + 1 as int).last() == line@[k as int]);
        }
        value = value * 16 + d;
        k = k + 1;
    }

    proof {
        assert(digits =~= line@.subrange(plen as int, llen as int));
        assert(forall|i: int| 0 <= i < digits.len() ==> hex_digit_val(#[trigger] digits[i]) < 16);
    }
    Some(value)
}

/// Parse one request line into a command. The whole line must match; the
/// read and break-address commands carry a one-to-four-digit hexadecimal
/// address after their fixed prefix; every other line is unknown.
pub fn parse(line: &str) -> (r: Command)
    ensures
        ({
            let s = line@;
            match r {
                Command::Continue => s == "c"@ || s == "continue"@,
                Command::Flags => s == "f"@ || s == "flags"@,
                Command::Registers => s == "r"@ || s == "registers"@,
                Command::Disassemble => s == "d"@ || s == "disassemble"@,
                Command::Help => s == "h"@ || s == "help"@,
                Command::Exit => s == "exit"@,
                Command::Read(address) => spec_parse_hex_after_pattern("read 0x"@, s) == Some(
                    address,
                ),
                Command::BreakAddress(address) => spec_parse_hex_after_pattern(
                    "break-address 0x"@,
                    s,
                ) == Some(address),
                Command::Unknown(text) => {
                    &&& text@ == s
                    &&& s != "c"@ && s != "continue"@ && s != "f"@ && s != "flags"@
                    &&& s != "r"@ && s != "registers"@ && s != "d"@ && s != "disassemble"@
                    &&& s != "h"@ && s != "help"@ && s != "exit"@
                    &&& spec_parse_hex_after_pattern("read 0x"@, s) is None
                    &&& spec_parse_hex_after_pattern("break-address 0x"@, s) is None
                },
                Command::Error(_) => false,
            }
        }),
{
    if str_eq(line, "c") || str_eq(line, "continue") {
        Command::Continue
    } else if str_eq(line, "f") || str_eq(line, "flags") {
        Command::Flags
    } else if str_eq(line, "r") || str_eq(line, "registers") {
        Command::Registers
    } else if str_eq(line, "d") || str_eq(line, "disassemble") {
        Command::Disassemble
    } else if str_eq(line, "h") || str_eq(line, "help") {
        Command::Help
    } else if str_eq(line, "exit") {
        Command::Exit
    } else {
        match parse_hex_after_pattern("read 0x", line) {
            Some(address) => {
                return Command::Read(address);
            },
            None => (),
        }
        match parse_hex_after_pattern("break-address 0x", line) {
            Some(address) => {
                return Command::BreakAddress(address);
            },
            None => (),
        }

        Command::Unknown(line.to_owned())
    }
}

/// The condition code as the flags command prints it.
pub open spec fn condition_chars(c: Condition) -> Seq<char> {
    match c {
        Condition::P => "P"@,
        Condition::Z => "Z"@,
        Condition::N => "N"@,
    }
}

/// One line of the registers listing: the register's name and its value,
/// followed by a newline everywhere but on the last line.
pub open spec fn register_line(regs: Seq<u16>, i: int) -> Seq<char> {
    "R"@ + dec_chars(i as nat, 1) + ": 0x"@ + hex_chars(regs[i] as nat, 2) + (if i < 7 {
        "\n"@
    } else {
        Seq::<char>::empty()
    })
}

/// The first `n` lines of the registers listing.
pub open spec fn register_lines(regs: Seq<u16>, n: nat) -> Seq<char>
    decreases n,
{
    if n == 0 {
        Seq::empty()
    } else {
        register_lines(regs, (n - 1) as nat) + register_line(regs, n - 1)
    }
}

/// The response to the disassemble command: the fields of the fetched word's
/// operation, then the word itself split into two binary bytes.
pub open spec fn disassemble_response(w: u16) -> Seq<char> {
    disassemble_chars(w) + ", "@ + bin_chars(((w >> 8) & 0xff) as nat, 8) + "_"@ + bin_chars(
        (w & 0xff) as nat,
        8,
    )
}

/// The response to the read command: the word at the address, in hexadecimal
/// and in binary.
pub open spec fn read_response(v: u16) -> Seq<char> {
    "0x"@ + hex_chars(v as nat, 2) + ", 0b"@ + bin_chars(v as nat, 14)
}

/// What handling one command does: how the debugger's state, the machine,
/// and the response line relate to the command. A disassemble or read goes
/// through the real memory-read path, device side effects included, so those
/// arms name the word some read returned.
pub open spec fn handle_ensures(
    cmd: Command,
    d0: DebuggerView,
    d1: DebuggerView,
    s0: MachineView,
    s1: MachineView,
    resp: Seq<char>,
) -> bool {
    match cmd {
        Command::Continue => {
            &&& d1 == DebuggerView { debug_continue: true, break_address: d0.break_address }
            &&& s1 == s0
            &&& resp == "PC 0x"@ + hex_chars(s0.pc as nat, 2)
        },
        Command::Flags => d1 == d0 && s1 == s0 && resp == condition_chars(s0.condition),
        Command::Registers => d1 == d0 && s1 == s0 && resp == register_lines(s0.regs, 8),
        Command::Disassemble => {
            &&& d1 == d0
            &&& exists|w: u16|
                {
                    &&& #[trigger] read_ok(s0.mem, s0.pc, w)
                    &&& s1 == MachineView { mem: read_post(s0.mem, s0.pc, w), ..s0 }
                    &&& resp == disassemble_response(w)
                }
        },
        Command::Read(address) => {
            &&& d1 == d0
            &&& exists|v: u16|
                {
                    &&& #[trigger] read_ok(s0.mem, address, v)
                    &&& s1 == MachineView { mem: read_post(s0.mem, address, v), ..s0 }
                    &&& resp == read_response(v)
                }
        },
        Command::BreakAddress(address) => {
            &&& d1 == DebuggerView {
                debug_continue: d0.debug_continue,
                break_address: Some(address),
            }
            &&& s1 == s0
            &&& resp == "Break address set to 0x"@ + hex_chars(address as nat, 2)
        },
        Command::Help => d1 == d0 && s1 == s0 && resp
            == "c, continue               Continue execution.\nr, registers              Print registers.\nf, flags                  Print flags.\nd, disassemble            Disassemble current instruction.\n   read <addr>            Read and display memory address. e.g. read 0x3000\n   break-address <addr>   Break at address. e.g. break-address 0x3000"@,
        Command::Exit => {
            &&& d1 == d0
            &&& s1 == MachineView { running: false, ..s0 }
            &&& resp == "Exiting..."@
        },
        Command::Unknown(text) => d1 == d0 && s1 == s0 && resp == "Unknown command \""@ + text@
            + "\""@,
        Command::Error(message) => d1 == d0 && s1 == s0 && resp == message@,
    }
}

impl Debugger {
    /// A fresh debugger: pausing at every instruction, no breakpoint set.
    pub fn new() -> (r: Self)
        ensures
            !r@.debug_continue,
            r@.break_address is None,
    {
        Debugger { debug_continue: false, break_address: None }
    }

    /// Whether execution is running on to the next breakpoint without
    /// pausing.
    pub fn debug_continue(&self) -> (r: bool)
        ensures
            r == self@.debug_continue,
    {
        self.debug_continue
    }

    /// Pause again from the next fetch on; the breakpoint stays as it is.
    pub fn clear_continue(&mut self)
        ensures
            final(self)@ == (DebuggerView {
                debug_continue: false,
                break_address: old(self)@.break_address,
            }),
    {
        self.debug_continue = false;
    }

    /// Whether execution should pause at this PC: always, when no breakpoint
    /// is set; exactly at the breakpoint, which is then cleared, when one is.
    pub fn should_break(&mut self, pc: u16) -> (r: bool)
        ensures
            final(self)@.debug_continue == old(self)@.debug_continue,
            match old(self)@.break_address {
                Some(break_address) => (if break_address == pc {
                    r && final(self)@.break_address is None
                } else {
                    !r && final(self)@.break_address == old(self)@.break_address
                }),
                None => r && final(self)@.break_address is None,
            },
    {
        match self.break_address {
            Some(break_address) => {
                if break_address == pc {
                    self.break_address = None;
                    true
                } else {
                    false
                }
            },
            None => true,
        }
    }

    /// Carry out one command against the machine and give back the response
    /// line. Reads go through the same memory path the executor uses, so
    /// reading a keyboard register here has the identical side effects.
    pub fn handle_command(&mut self, state: &mut State, command: Command) -> (r: String)
        ensures
            handle_ensures(command, old(self)@, final(self)@, old(state)@, final(state)@, r@),
    {
        match command {
            Command::Continue => {
                self.debug_continue = true;
                let mut s = String::new();
                s.append("PC 0x");
                push_hex(&mut s, state.pc, 2);
                s
            },
            Command::Flags => {
                let mut s = String::new();
                match state.condition {
                    Condition::P => s.append("P"),
                    Condition::Z => s.append("Z"),
                    Condition::N => s.append("N"),
                }
                s
            },
            Command::Registers => {
                let ghost regs = state@.regs;
                let file = state.registers();
                let mut s = String::new();
                let mut i: usize = 0;
                while i < 8
                    invariant
                        i <= 8,
                        file@ == regs,
                        s@ == register_lines(regs, i as nat),
                    decreases 8 - i,
                {
                    s.append("R");
                    push_dec(&mut s, i as u16, 1);
                    s.append(": 0x");
                    push_hex(&mut s, file[i], 2);
                    if i < 7 {
                        s.append("\n");
                    }
                    proof {
                        assert(s@ =~= register_lines(regs, (i + 1) as nat));
                    }
                    i = i + 1;
                }
                s
            },
            Command::Disassemble => {
                let instruction = state.memory.read(state.pc);
                let mut s = disassemble(instruction);
                s.append(", ");
                push_bin(&mut s, (instruction >> 8) & 0xff, 8);
                s.append("_");
                push_bin(&mut s, instruction & 0xff, 8);
                proof {
                    assert(final(state)@ == MachineView {
                        mem: read_post(old(state)@.mem, old(state)@.pc, instruction),
                        ..old(state)@
                    });
                    assert(s@ =~= disassemble_response(instruction));
                }
                s
            },
            Command::Read(address) => {
                let value = state.memory.read(address);
                let mut s = String::new();
                s.append("0x");
                push_hex(&mut s, value, 2);
                s.append(", 0b");
                push_bin(&mut s, value, 14);
                proof {
                    assert(final(state)@ == MachineView {
                        mem: read_post(old(state)@.mem, address, value),
                        ..old(state)@
                    });
                    assert(s@ =~= read_response(value));
                }
                s
            },
            Command::BreakAddress(address) => {
                self.break_address = Some(address);
                let mut s = String::new();
                s.append("Break address set to 0x");
                push_hex(&mut s, address, 2);
                s
            },
            Command::Help => {
                let mut s = String::new();
                s.append(
                    "c, continue               Continue execution.\nr, registers              Print registers.\nf, flags                  Print flags.\nd, disassemble            Disassemble current instruction.\n   read <addr>            Read and display memory address. e.g. read 0x3000\n   break-address <addr>   Break at address. e.g. break-address 0x3000",
                );
                s
            },
            Command::Exit => {
                state.running = false;
                let mut s = String::new();
                s.append("Exiting...");
                proof {
                    assert(final(state)@ == MachineView { running: false, ..old(state)@ });
                }
                s
            },
            Command::Unknown(text) => {
                let mut s = String::new();
                s.append("Unknown command \"");
                s.append(text.as_str());
                s.append("\"");
                s
            },
            Command::Error(message) => message,
        }
    }
}

} // verus!
