use tools_programmer_homework::disassembler::bin6502::{create_instruction_map, decode, disassemble_with};
use tools_programmer_homework::disassembler::opcode::{
    count_placeholder, substitute_placeholder, InstructionArgumentLength, OpCode, HIGH, LOW,
};
use tools_programmer_homework::disassembler::table::{parse_key, OpcodeTable, TableError};
use tools_programmer_homework::hex::{push_hex2, push_hex4_upper, push_hex_min2};

fn refusal(text: &str) -> TableError {
    match OpcodeTable::from_json(text) {
        Ok(_) => panic!("the description was accepted"),
        Err(e) => e,
    }
}

#[test]
fn table_built_twice_gives_the_same_lookups() {
    let a = create_instruction_map().unwrap();
    let b = create_instruction_map().unwrap();
    let mut known = 0;
    for byte in 0..=255u8 {
        let x = a.lookup(byte).map(|op| (op.instructions.clone(), op.is_relative));
        let y = b.lookup(byte).map(|op| (op.instructions.clone(), op.is_relative));
        assert_eq!(x, y);
        if x.is_some() {
            known += 1;
        }
    }
    assert_eq!(known, 151);
}

#[test]
fn builtin_table_entries() {
    let t = create_instruction_map().unwrap();
    assert_eq!(t.lookup(0xa9).unwrap().instructions, "LDA #$hh");
    assert_eq!(t.lookup(0xf0).unwrap().is_relative, Some(true));
    assert_eq!(t.lookup(0x20).unwrap().is_relative, None);
    assert!(t.lookup(0xff).is_none());
}

#[test]
fn custom_table_with_numeric_relative_flag() {
    let text = r#"{ "F0": { "ins": "beq $hh", "rel": 1 }, "01": { "ins": "nop", "rel": 0 }, "02": { "ins": "x $hh", "rel": null } }"#;
    let t = OpcodeTable::from_json(text).unwrap();
    assert_eq!(t.lookup(0xf0).unwrap().is_relative, Some(true));
    assert_eq!(t.lookup(0x01).unwrap().is_relative, Some(false));
    assert_eq!(t.lookup(0x02).unwrap().is_relative, None);
    let lines = disassemble_with(&t, &[0x01, 0xf0, 0xfd, 0x02, 0x80], None, None).unwrap();
    assert_eq!(lines, vec!["0x0000 01 nop", "0x0001 f0 fd beq $00", "0x0003 02 80 x $80"]);
}

#[test]
fn malformed_description_is_refused() {
    assert!(matches!(refusal("[1, 2]"), TableError::Malformed));
    assert!(matches!(refusal("{ \"00\": 3 }"), TableError::Malformed));
    assert!(matches!(refusal("not json"), TableError::Malformed));
}

#[test]
fn bad_key_is_refused() {
    match refusal(r#"{ "0g": { "ins": "brk" } }"#) {
        TableError::BadKey(k) => assert_eq!(k, "0g"),
        e => panic!("unexpected {:?}", e),
    }
    assert!(matches!(refusal(r#"{ "100": { "ins": "brk" } }"#), TableError::BadKey(_)));
}

#[test]
fn missing_template_is_refused() {
    assert!(matches!(refusal(r#"{ "00": { "rel": true } }"#), TableError::MissingTemplate(_)));
    assert!(matches!(refusal(r#"{ "00": { "ins": 5 } }"#), TableError::MissingTemplate(_)));
}

#[test]
fn bad_relative_flag_is_refused() {
    assert!(matches!(refusal(r#"{ "00": { "ins": "brk", "rel": "yes" } }"#), TableError::BadRelative(_)));
    assert!(matches!(refusal(r#"{ "00": { "ins": "brk", "rel": -1 } }"#), TableError::BadRelative(_)));
}

#[test]
fn bad_template_is_refused() {
    assert!(matches!(refusal(r#"{ "00": { "ins": "x $hhhh" } }"#), TableError::BadTemplate(_)));
    assert!(matches!(refusal(r#"{ "00": { "ins": "x $ll" } }"#), TableError::BadTemplate(_)));
    assert!(matches!(refusal(r#"{ "00": { "ins": "x $hhllll" } }"#), TableError::BadTemplate(_)));
}

#[test]
fn duplicate_byte_is_refused() {
    match refusal(r#"{ "A9": { "ins": "lda" }, "a9": { "ins": "lda" } }"#) {
        TableError::Duplicate(k) => assert_eq!(k, "a9"),
        e => panic!("unexpected {:?}", e),
    }
}

#[test]
fn refusal_messages() {
    assert_eq!(TableError::Malformed.message(), "Opcode table is not a JSON object of records");
    assert_eq!(
        TableError::Duplicate("a9".to_string()).message(),
        "Opcode table names a byte twice: a9"
    );
    assert_eq!(
        TableError::BadKey("zz".to_string()).message(),
        "Opcode table key is not a two-digit hex byte: zz"
    );
}

#[test]
fn keys_are_two_hex_digits() {
    assert_eq!(parse_key("a9"), Some(0xa9));
    assert_eq!(parse_key("A9"), Some(0xa9));
    assert_eq!(parse_key("0f"), Some(0x0f));
    assert_eq!(parse_key("9"), None);
    assert_eq!(parse_key("+9"), None);
    assert_eq!(parse_key("a9 "), None);
}

#[test]
fn placeholders_are_counted_and_substituted() {
    assert_eq!(count_placeholder("lda $hhll,x", HIGH), 1);
    assert_eq!(count_placeholder("lda $hhll,x", LOW), 1);
    assert_eq!(count_placeholder("hhh", HIGH), 2);
    assert_eq!(count_placeholder("brk", HIGH), 0);
    assert_eq!(substitute_placeholder("hhh", HIGH, "12"), "12h");
    assert_eq!(substitute_placeholder("a hh b hh", HIGH, "x"), "a x b x");
}

#[test]
fn opcode_formats_and_lengths() {
    let abs = OpCode { instructions: "JMP ($hhll)".to_string(), is_relative: None };
    assert_eq!(abs.format_instruction_low_and_high_byte(0x34, 0x12), "JMP ($1234)");
    assert_eq!(abs.get_intruction_byte_length(), InstructionArgumentLength::TwoBytes);
    let zp = OpCode { instructions: "LDA $hh,x".to_string(), is_relative: None };
    assert_eq!(zp.format_instruction_high_byte(0x0a), "LDA $0a,x");
    assert_eq!(zp.get_intruction_byte_length(), InstructionArgumentLength::OneByte);
    let imp = OpCode { instructions: "RTS".to_string(), is_relative: None };
    assert_eq!(imp.get_intruction_byte_length(), InstructionArgumentLength::Zero);
}

#[test]
fn hex_renderings() {
    let mut s = String::new();
    push_hex2(&mut s, 0x0b);
    push_hex4_upper(&mut s, 0xbeef);
    push_hex_min2(&mut s, 0x5);
    push_hex_min2(&mut s, 0xabc);
    push_hex_min2(&mut s, 0xffbc);
    assert_eq!(s, "0bBEEF05abcffbc");
}

#[test]
fn decode_stops_at_an_overrun() {
    let t = create_instruction_map().unwrap();
    assert_eq!(decode(&t, &[0xea, 0xad, 0x00, 0x10], 0, 3).err(), Some(1));
}
