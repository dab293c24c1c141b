use dmg_core::bus::boot_rom;
use dmg_core::debug::{disassemble, imm16_text, imm8_text};
use dmg_core::EmuError;

#[test]
fn immediate_text_is_lower_case_hex() {
    assert_eq!(imm8_text(0xAB).as_str(), "$ab");
    assert_eq!(imm8_text(0x05).as_str(), "$05");
    assert_eq!(imm16_text(0x34, 0x12).as_str(), "$1234");
    assert_eq!(imm16_text(0xFE, 0xFF).as_str(), "$fffe");
}

#[test]
fn boot_program_listing() {
    let rom = boot_rom();
    let lines = disassemble(&rom).unwrap();
    let expected = vec![
        "LD SP,$fffe",
        "XOR A",
        "LD HL,$9fff",
        "LD (HL-),A",
        "BIT 7,H",
        "JR $NZ,$fb",
        "LD HL,$ff26",
        "LD C,$11",
        "LD A,$80",
        "LD (HL-),A",
        "LD ($FF00+C),A",
        "INC C",
        "LD A,$f3",
        "LD ($FF00+C),A",
        "LD (HL-),A",
        "LD A,$77",
        "LD (HL),A",
        "LD A,$fc",
        "LD ($FF00+$47),A",
        "LD DE,$0104",
        "LD HL,$8010",
        "LD A,(DE)",
        "CALL $0095",
        "CALL $0096",
        "INC DE",
        "LD A,E",
    ];
    let got: Vec<&str> = lines.iter().map(|l| l.as_str()).collect();
    assert_eq!(got, expected);
}

#[test]
fn listing_stops_at_truncated_instruction() {
    let stream = vec![0xAF, 0x21, 0xFF]; // XOR A, then a load cut short
    let lines = disassemble(&stream).unwrap();
    assert_eq!(lines.len(), 1);
    assert_eq!(lines[0].as_str(), "XOR A");
}

#[test]
fn listing_of_empty_stream_is_empty() {
    let stream: Vec<u8> = vec![];
    let lines = disassemble(&stream).unwrap();
    assert!(lines.is_empty());
}

#[test]
fn listing_stops_at_truncated_prefix() {
    let stream = vec![0xCB]; // the prefix byte alone
    let lines = disassemble(&stream).unwrap();
    assert!(lines.is_empty());
}

#[test]
fn listing_fails_on_unknown_byte() {
    let stream = vec![0xAF, 0x00];
    assert_eq!(
        disassemble(&stream),
        Err(EmuError::UnimplementedOpcode(0x00))
    );
}

#[test]
fn listing_fails_on_unknown_extended_byte() {
    let stream = vec![0xCB, 0x11]; // a known byte, but not in the extended space
    assert_eq!(
        disassemble(&stream),
        Err(EmuError::UnimplementedOpcode(0x11))
    );
}

#[test]
fn listing_fails_on_bare_bit_test_byte() {
    let stream = vec![0x7C]; // only printable behind the prefix
    assert_eq!(
        disassemble(&stream),
        Err(EmuError::UnimplementedOpcode(0x7C))
    );
}
