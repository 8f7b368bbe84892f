use chip8_runloop::cli::{
    parse_hex_u16, resolve_disasm_offset, validate_args, StartAddrError, UsageError,
    BASE_LOAD_ADDRESS,
};

fn args(list: &[&str]) -> Vec<String> {
    list.iter().map(|s| s.to_string()).collect()
}

#[test]
fn zero_positional_arguments_is_a_usage_error() {
    assert_eq!(
        validate_args(&args(&["prog"])),
        Err(UsageError::NoMode { found: 1 })
    );
    assert_eq!(
        validate_args(&args(&[])),
        Err(UsageError::NoMode { found: 0 })
    );
}

#[test]
fn disassembly_mode_with_missing_arguments_is_a_usage_error() {
    assert_eq!(
        validate_args(&args(&["prog", "D", "game.ch8"])),
        Err(UsageError::DisassembleArgCount { found: 3 })
    );
    assert_eq!(
        validate_args(&args(&["prog", "D"])),
        Err(UsageError::DisassembleArgCount { found: 2 })
    );
    assert_eq!(validate_args(&args(&["prog", "D", "game.ch8", "0200"])), Ok(()));
}

#[test]
fn debug_mode_argument_counts() {
    assert_eq!(
        validate_args(&args(&["prog", "DBG"])),
        Err(UsageError::DebugArgCount { found: 2 })
    );
    assert_eq!(validate_args(&args(&["prog", "DBG", "game.ch8"])), Ok(()));
    assert_eq!(
        validate_args(&args(&["prog", "DBG", "game.ch8", "extra"])),
        Err(UsageError::DebugArgCount { found: 4 })
    );
}

#[test]
fn run_mode_argument_counts() {
    assert_eq!(validate_args(&args(&["prog", "game.ch8"])), Ok(()));
    assert_eq!(
        validate_args(&args(&["prog", "game.ch8", "extra"])),
        Err(UsageError::RunArgCount { found: 3 })
    );
}

#[test]
fn hex_parsing_accepts_16_bit_values() {
    assert_eq!(parse_hex_u16(b"0200"), Some(0x200));
    assert_eq!(parse_hex_u16(b"ff"), Some(0xFF));
    assert_eq!(parse_hex_u16(b"FFFF"), Some(0xFFFF));
    assert_eq!(parse_hex_u16(b"0"), Some(0));
    assert_eq!(parse_hex_u16(b"00FFFF"), Some(0xFFFF));
}

#[test]
fn hex_parsing_rejects_malformed_input() {
    assert_eq!(parse_hex_u16(b""), None);
    assert_eq!(parse_hex_u16(b"10000"), None);
    assert_eq!(parse_hex_u16(b"20g"), None);
    assert_eq!(parse_hex_u16(b"-1"), None);
    assert_eq!(parse_hex_u16(b"0x200"), None);
}

#[test]
fn start_address_resolves_to_offset_above_base() {
    assert_eq!(resolve_disasm_offset(b"0200"), Ok(0));
    assert_eq!(resolve_disasm_offset(b"345"), Ok(0x145));
    assert_eq!(resolve_disasm_offset(b"FFFF"), Ok(0xFFFF - 0x200));
}

#[test]
fn start_address_below_base_is_rejected() {
    assert_eq!(
        resolve_disasm_offset(b"1FF"),
        Err(StartAddrError::BelowBase { addr: 0x1FF })
    );
    assert_eq!(
        resolve_disasm_offset(b"0"),
        Err(StartAddrError::BelowBase { addr: 0 })
    );
    assert_eq!(BASE_LOAD_ADDRESS, 0x200);
}

#[test]
fn non_hexadecimal_start_address_is_rejected() {
    assert_eq!(resolve_disasm_offset(b"zz"), Err(StartAddrError::NotHex));
    assert_eq!(resolve_disasm_offset(b""), Err(StartAddrError::NotHex));
    assert_eq!(resolve_disasm_offset(b"12345"), Err(StartAddrError::NotHex));
}
