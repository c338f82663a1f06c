use tools_programmer_homework::disassembler::bin6502::{
    create_instruction_map, decode, disassemble, disassemble_with,
};
use tools_programmer_homework::disassembler::{self as api, BinaryKind};

#[test]
fn zero_byte_is_a_one_byte_instruction() {
    let table = create_instruction_map().unwrap();
    let items = decode(&table, &[0x00], 0, 1).unwrap();
    assert_eq!(items.len(), 1);
    assert_eq!(items[0].bytes_used, vec![0x00]);
    assert_eq!(items[0].instructions, "BRK");
    assert_eq!(disassemble(&[0x00], None, None).unwrap(), vec!["0x0000 00 BRK"]);
}

#[test]
fn spec_example_listing() {
    let data = [0xa9, 0xbd, 0xa0, 0xbd, 0x20, 0x28, 0xba];
    let lines = disassemble(&data, Some(0), Some(7)).unwrap();
    assert_eq!(
        lines,
        vec!["0x0000 a9 bd LDA #$bd", "0x0002 a0 bd LDY #$bd", "0x0004 20 28 ba JSR $ba28"]
    );
}

#[test]
fn forward_branch_target() {
    let data = [0x4e, 0x56, 0xff, 0xf0, 0x48];
    let lines = disassemble(&data, None, None).unwrap();
    assert_eq!(lines, vec!["0x0000 4e 56 ff LSR $ff56", "0x0003 f0 48 BEQ $4d"]);
}

#[test]
fn backward_branch_wraps_below_zero() {
    let data = [0xf0, 0x9a];
    assert_eq!(disassemble(&data, None, None).unwrap(), vec!["0x0000 f0 9a BEQ $ff9c"]);
}

#[test]
fn branch_wraps_above_the_top_of_memory() {
    let mut data = vec![0xea; 65536];
    data[0xfffd] = 0xd0;
    data[0xfffe] = 0x7f;
    let lines = disassemble(&data, Some(0xfffd), None).unwrap();
    assert_eq!(lines, vec!["0xFFFD d0 7f BNE $7e", "0xFFFF ea NOP"]);
}

#[test]
fn branch_target_with_three_digits() {
    let mut data = vec![0xea; 0x200];
    data[0x100] = 0x30;
    data[0x101] = 0x10;
    let lines = disassemble(&data, Some(0x100), Some(0x102)).unwrap();
    assert_eq!(lines, vec!["0x0100 30 10 BMI $112"]);
}

#[test]
fn unknown_byte_is_one_byte_of_question_marks() {
    let table = create_instruction_map().unwrap();
    let items = decode(&table, &[0x02, 0xea], 0, 2).unwrap();
    assert_eq!(items.len(), 2);
    assert_eq!(items[0].bytes_used.len(), 1);
    assert_eq!(items[0].instructions, "???");
    assert_eq!(items[1].start_address, 1);
    assert_eq!(items[0].to_string(), "0x0000 02 ???");
}

#[test]
fn operand_beyond_the_data_is_a_bounds_error() {
    let data = [0xea, 0x20, 0x28];
    let err = disassemble(&data, None, None).unwrap_err();
    assert_eq!(err, "Instruction at 0x0001 reads past the end address");
}

#[test]
fn one_operand_beyond_the_end_is_a_bounds_error() {
    let data = [0xa9];
    let err = disassemble(&data, None, None).unwrap_err();
    assert_eq!(err, "Instruction at 0x0000 reads past the end address");
}

#[test]
fn end_beyond_the_data_is_a_bounds_error() {
    let data = [0xea, 0xea];
    let err = disassemble(&data, None, Some(3)).unwrap_err();
    assert_eq!(err, "End address is out of bounds");
}

#[test]
fn data_beyond_the_address_space_is_refused() {
    let data = vec![0xea; 65537];
    let err = disassemble(&data, None, None).unwrap_err();
    assert_eq!(err, "Data is larger than the 16-bit address space");
}

#[test]
fn empty_range_gives_empty_listing() {
    let data = [0xea, 0xea];
    assert_eq!(disassemble(&data, Some(1), Some(1)).unwrap(), Vec::<String>::new());
    assert_eq!(disassemble(&[], None, None).unwrap(), Vec::<String>::new());
}

#[test]
fn listing_is_non_empty_and_ends_within_the_range() {
    let table = create_instruction_map().unwrap();
    let data = [0x20, 0x28, 0xba, 0xea, 0x00, 0xa9, 0x01];
    let items = decode(&table, &data, 1, 5).unwrap();
    assert!(!items.is_empty());
    let last = items.last().unwrap();
    assert!(last.start_address as usize + last.bytes_used.len() <= 5);
    assert_eq!(items[0].start_address, 1);
}

#[test]
fn decoding_twice_gives_the_same_listing() {
    let data = [0x48, 0xe7, 0x20, 0x20, 0x70, 0x21, 0x61];
    let table = create_instruction_map().unwrap();
    let a = disassemble_with(&table, &data, Some(0), None);
    let b = disassemble_with(&table, &data, Some(0), None);
    assert_eq!(a, b);
    assert_eq!(
        a.unwrap(),
        vec!["0x0000 48 PHA", "0x0001 e7 ???", "0x0002 20 20 70 JSR $7020", "0x0005 21 61 AND ($61,x)"]
    );
}

#[test]
fn start_defaults_to_zero_and_end_to_the_length() {
    let data = [0xea, 0x0a, 0x6c, 0x34, 0x12];
    let lines = api::disassemble(&data, None, None, BinaryKind::Bin6502).unwrap().disassembly;
    assert_eq!(lines, vec!["0x0000 ea NOP", "0x0001 0a ASL a", "0x0002 6c 34 12 JMP ($1234)"]);
}

#[test]
fn start_in_the_middle_of_an_instruction_decodes_from_there() {
    let data = [0x20, 0xea, 0x60];
    let lines = disassemble(&data, Some(1), None).unwrap();
    assert_eq!(lines, vec!["0x0001 ea NOP", "0x0002 60 RTS"]);
}
