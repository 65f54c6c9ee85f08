use nix::sys::select::{select, FdSet};
use nix::sys::time::{TimeVal, TimeValLike};
use std::io::{Read, Write};
use vstd::prelude::*;

verus! {

broadcast use vstd::array::group_array_axioms;

/// Keyboard status register. The ready bit (bit 15) reports whether the
/// keyboard has received a new character.
pub const KBSR: u16 = 0xfe00;

/// Keyboard data register. Bits 7..0 hold the last character typed.
pub const KBDR: u16 = 0xfe02;

/// Display status register. The ready bit (bit 15) reports whether the
/// display can take another character; this display always can.
pub const DSR: u16 = 0xfe04;

/// Display data register. A word written here has its low byte displayed.
pub const DDR: u16 = 0xfe06;

/// Machine control register. Bit 15 is the clock enable bit; clearing it
/// stops instruction processing.
pub const MCR: u16 = 0xfffe;

/// The number of memory cells: one per 16-bit address.
pub const MEM_SIZE: usize = 0x10000;

/// Memory as first initialized: all zero, except that the display status
/// and machine control registers start with their ready/enable bit set.
pub open spec fn init_memory() -> Seq<u16> {
    Seq::new(MEM_SIZE as nat, |i: int| (if i == DSR as int || i == MCR as int {
        0x8000u16
    } else {
        0u16
    }))
}

/// What a memory read may return, given the memory it started from. Reads of
/// the keyboard registers depend on the outside world, so only the possible
/// outcomes are stated; every other address reads as the stored word.
pub open spec fn read_ok(mem: Seq<u16>, address: u16, r: u16) -> bool
    recommends
        mem.len() == MEM_SIZE,
{
    if address == KBSR {
        r == 0x8000 || r == 0
    } else if address == KBDR {
        if (mem[KBSR as int] >> 15) & 0x1 == 1 {
            r < 256
        } else {
            r == 0
        }
    } else if address == DSR {
        r == 0x8000
    } else if address == DDR {
        r == 0
    } else {
        r == mem[address as int]
    }
}

/// The memory a read leaves behind: a read of the keyboard status register
/// latches the polled status into that cell; every other read leaves memory
/// unchanged.
pub open spec fn read_post(mem: Seq<u16>, address: u16, r: u16) -> Seq<u16> {
    if address == KBSR {
        mem.update(KBSR as int, r)
    } else {
        mem
    }
}

/// A read of the keyboard status register may latch device state into
/// memory; a read at any other address leaves every cell as it was.
pub proof fn lemma_read_purity(mem: Seq<u16>, address: u16, r: u16)
    ensures
        address != KBSR ==> read_post(mem, address, r) == mem,
{
}

/// The 65536 16-bit memory cells, together with the memory-mapped device
/// registers that live among them.
pub struct Memory {
    memory: [u16; 65536],
}

impl View for Memory {
    type V = Seq<u16>;

    closed spec fn view(&self) -> Seq<u16> {
        self.memory@
    }
}

/// Every memory value holds one cell per 16-bit address.
pub broadcast proof fn lemma_memory_size(m: &Memory)
    ensures
        (#[trigger] m@).len() == MEM_SIZE,
{
}

impl Memory {
    /// Fresh memory: zeroed, with the display-ready and clock-enable bits set.
    pub fn new() -> (r: Self)
        ensures
            r@ == init_memory(),
    {
        let mut memory = [0u16; 65536];
        memory[DSR as usize] = 0x8000;
        memory[MCR as usize] = 0x8000;

        let r = Self { memory };
        proof {
            assert(r@ =~= init_memory());
        }
        r
    }

    /// Read one word. Reads of the keyboard status register poll the
    /// keyboard and latch the outcome; reads of the keyboard data register
    /// consume the pending character exactly when the latched status shows
    /// one ready; the display status register always reads as ready.
    pub fn read(&mut self, address: u16) -> (r: u16)
        ensures
            read_ok(old(self)@, address, r),
            final(self)@ == read_post(old(self)@, address, r),
    {
        if address == KBSR {
            let value: u16 = if check_key() {
                0x8000
            } else {
                0
            };
            self.memory[KBSR as usize] = value;
            value
        } else if address == KBDR {
            let kbsr = self.memory[KBSR as usize];
            if ((kbsr >> 15) & 0x1) == 1 {
                get_char()
            } else {
                0
            }
        } else if address == DSR {
            0x8000
        } else if address == DDR {
            0
        } else {
            self.memory[address as usize]
        }
    }

    /// Read one word with no device semantics: the raw cell, side-effect
    /// free. The string-printing traps walk memory this way.
    pub(crate) fn get(&self, address: u16) -> (r: u16)
        ensures
            r == self@[address as int],
    {
        self.memory[address as usize]
    }

    /// Store one word. The cell takes the value at every address; a store to
    /// the display data register additionally puts its low byte on the
    /// display.
    pub fn write(&mut self, address: u16, value: u16)
        ensures
            final(self)@ == old(self)@.update(address as int, value),
    {
        if address == DDR {
            put_byte((value % 256) as u8);
        }
        self.memory[address as usize] = value;
    }
}

/// Relies on nix::sys::select with a zero timeout on the standard input
/// descriptor: reports whether a byte is ready there, without blocking.
/// The answer depends on the outside world, so nothing is promised of it.
#[verifier::external_body]
fn check_key() -> bool {
    let mut readfds = FdSet::new();
    readfds.insert(0);

    match select(None, &mut readfds, None, None, &mut TimeVal::zero()) {
        Ok(value) => value == 1,
        Err(_) => false,
    }
}

/// Relies on std::io::Read::read_exact on standard input: blocks until one
/// byte arrives and returns it zero-extended, so the result is below 256.
/// The process exits if standard input fails.
#[verifier::external_body]
pub(crate) fn get_char() -> (r: u16)
    ensures
        r < 256,
{
    let mut buffer = [0; 1];
    std::io::stdin().read_exact(&mut buffer).expect("unable to read from STDIN");

    u16::from(buffer[0])
}

/// Relies on std::io::Write::write_all on standard output: writes the one
/// byte given. Output is not modeled, so nothing is promised of it.
#[verifier::external_body]
pub(crate) fn put_byte(b: u8) {
    let _ = std::io::stdout().write_all(&[b]);
}

/// Relies on std::io::Write::flush on standard output: makes buffered output
/// visible. Output is not modeled, so nothing is promised of it.
#[verifier::external_body]
pub(crate) fn flush_stdout() {
    let _ = std::io::stdout().flush();
}

} // verus!
