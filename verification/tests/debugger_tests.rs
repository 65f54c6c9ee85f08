use lc3::debugger::disassemble::disassemble;
use lc3::debugger::{parse, parse_hex_after_pattern, Command, Debugger};
use lc3::state::State;

fn new_state() -> State {
    let mut state = State::new();
    state.pc = 0x3000;
    state
}

#[test]
fn test_parse_hex_after_pattern() {
    for command in vec!["read", "read 0x", "read 0x12345", "read 0x1z", "a read 0x1"] {
        assert_eq!(parse_hex_after_pattern("read 0x", command), None);
    }

    assert_eq!(parse_hex_after_pattern("read 0x", "read 0x1"), Some(1));
    assert_eq!(
        parse_hex_after_pattern("read 0x", "read 0x1234"),
        Some(4660)
    );
}

#[test]
fn parse_whole_line_commands() {
    assert_eq!(parse("c"), Command::Continue);
    assert_eq!(parse("continue"), Command::Continue);
    assert_eq!(parse("f"), Command::Flags);
    assert_eq!(parse("flags"), Command::Flags);
    assert_eq!(parse("r"), Command::Registers);
    assert_eq!(parse("registers"), Command::Registers);
    assert_eq!(parse("d"), Command::Disassemble);
    assert_eq!(parse("disassemble"), Command::Disassemble);
    assert_eq!(parse("h"), Command::Help);
    assert_eq!(parse("help"), Command::Help);
    assert_eq!(parse("exit"), Command::Exit);
    assert_eq!(parse("read 0x3000"), Command::Read(0x3000));
    assert_eq!(parse("break-address 0x3002"), Command::BreakAddress(0x3002));
    assert_eq!(
        parse("bogus"),
        Command::Unknown(String::from("bogus"))
    );
    assert_eq!(
        parse("read 0x12345"),
        Command::Unknown(String::from("read 0x12345"))
    );
}

#[test]
fn handle_continue_reports_pc() {
    let mut debugger = Debugger::new();
    let mut state = new_state();

    let response = debugger.handle_command(&mut state, Command::Continue);

    assert_eq!(response, "PC 0x3000");
    assert!(debugger.debug_continue());
}

#[test]
fn handle_flags_prints_condition() {
    let mut debugger = Debugger::new();
    let mut state = new_state();

    let response = debugger.handle_command(&mut state, Command::Flags);

    assert_eq!(response, "P");
}

#[test]
fn handle_registers_lists_all_eight() {
    let mut debugger = Debugger::new();
    let mut state = new_state();
    state.registers.write(lc3::instruction::Register::R1, 0xabc);

    let response = debugger.handle_command(&mut state, Command::Registers);

    assert_eq!(
        response,
        "R0: 0x00\nR1: 0xabc\nR2: 0x00\nR3: 0x00\nR4: 0x00\nR5: 0x00\nR6: 0x00\nR7: 0x00"
    );
}

#[test]
fn handle_read_prints_hex_and_binary() {
    let mut debugger = Debugger::new();
    let mut state = new_state();
    state.memory.write(0x3000, 42);

    let response = debugger.handle_command(&mut state, Command::Read(0x3000));

    assert_eq!(response, "0x2a, 0b00000000101010");
}

#[test]
fn handle_disassemble_shows_fields_and_binary_split() {
    let mut debugger = Debugger::new();
    let mut state = new_state();
    state.memory.write(0x3000, 0b0001_010_001_1_00001);

    let response = debugger.handle_command(&mut state, Command::Disassemble);

    assert_eq!(
        response,
        "r0: 2, r1: 1, immediate_flag: true, 00010100_01100001"
    );
}

#[test]
fn handle_exit_stops_the_machine() {
    let mut debugger = Debugger::new();
    let mut state = new_state();

    let response = debugger.handle_command(&mut state, Command::Exit);

    assert_eq!(response, "Exiting...");
    assert_eq!(state.running, false);
}

#[test]
fn handle_unknown_echoes_the_line() {
    let mut debugger = Debugger::new();
    let mut state = new_state();

    let response =
        debugger.handle_command(&mut state, Command::Unknown(String::from("bogus")));

    assert_eq!(response, "Unknown command \"bogus\"");
}

#[test]
fn disassemble_names_traps_and_illegal_slots() {
    assert_eq!(disassemble(0xf025), "trap_vector: HALT");
    assert_eq!(disassemble(0xf026), "Unknown trap vector");
    assert_eq!(disassemble(0x8000), "unused");
    assert_eq!(disassemble(0xd000), "reserved");
    assert_eq!(disassemble(0b1100_000_010_000000), "r0: 2");
}

#[test]
fn should_break_without_breakpoint() {
    let mut debugger = Debugger::new();
    assert!(debugger.should_break(0x3000));
    assert!(debugger.should_break(0x3001));
}

#[test]
fn debugger_pauses_exactly_at_break_address() {
    // Set a breakpoint at 0x3002, continue, and run: the debugger must not
    // pause before 0x3002, pause exactly there (clearing the breakpoint),
    // and accept commands again afterwards.
    let mut debugger = Debugger::new();
    let mut state = new_state();
    // Three harmless ADDIMM R1 <- R1 + 1 instructions.
    state.memory.write(0x3000, 0b0001_001_001_1_00001);
    state.memory.write(0x3001, 0b0001_001_001_1_00001);
    state.memory.write(0x3002, 0b0001_001_001_1_00001);

    let response = debugger.handle_command(&mut state, Command::BreakAddress(0x3002));
    assert_eq!(response, "Break address set to 0x3002");

    let response = debugger.handle_command(&mut state, Command::Continue);
    assert_eq!(response, "PC 0x3000");
    assert!(debugger.debug_continue());

    let mut paused_at = None;
    while state.running && paused_at.is_none() {
        while state.running && !debugger.debug_continue() && debugger.should_break(state.pc) {
            paused_at = Some(state.pc);
            break;
        }
        if paused_at.is_none() {
            debugger.clear_continue();
            state = state.step().unwrap();
        }
    }

    // Paused exactly at the breakpoint, which is now cleared, so the
    // debugger pauses again at the very next check.
    assert_eq!(paused_at, Some(0x3002));
    assert!(debugger.should_break(0x3002));
    assert!(debugger.should_break(0x3003));
}

#[test]
fn disassemble_str_uses_hexadecimal_fields() {
    assert_eq!(
        disassemble(0b0111_001_010_000011),
        "sr: 0x01, base_r: 0x02, offset: 0x03"
    );
}

#[test]
fn handle_break_address_and_help() {
    let mut debugger = Debugger::new();
    let mut state = new_state();

    let response = debugger.handle_command(&mut state, Command::BreakAddress(0x2a));
    assert_eq!(response, "Break address set to 0x2a");

    let response = debugger.handle_command(&mut state, Command::Help);
    assert!(response.starts_with("c, continue"));
    assert!(response.ends_with("break-address <addr>   Break at address. e.g. break-address 0x3000"));
}
