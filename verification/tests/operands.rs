use wordvm::fault::Fault;
use wordvm::operand::{literal_or_register, register, REGISTER_BASE, REGISTER_COUNT};

#[test]
fn literals_resolve_to_themselves() {
    let registers = [11, 12, 13, 14, 15, 16, 17, 18];
    for word in 0..=32767u16 {
        assert_eq!(literal_or_register(word, &registers), Ok(word));
    }
}

#[test]
fn register_addresses_resolve_to_register_contents() {
    let registers = [11, 12, 13, 14, 15, 16, 17, 40000];
    for i in 0..8u16 {
        assert_eq!(literal_or_register(32768 + i, &registers), Ok(registers[i as usize]));
    }
    assert_eq!(literal_or_register(32768, &registers), Ok(11));
    assert_eq!(literal_or_register(32775, &registers), Ok(40000));
}

#[test]
fn words_beyond_the_registers_are_no_operands() {
    let registers = [0; 8];
    for word in 32776..=65535u16 {
        assert_eq!(literal_or_register(word, &registers), Err(Fault::InvalidOperand));
    }
}

#[test]
fn writing_a_register_changes_what_it_resolves_to() {
    let mut registers = [0u16; 8];
    assert_eq!(literal_or_register(32771, &registers), Ok(0));
    *register(32771, &mut registers).unwrap() = 1234;
    assert_eq!(literal_or_register(32771, &registers), Ok(1234));
    assert_eq!(registers, [0, 0, 0, 1234, 0, 0, 0, 0]);
    *register(32771, &mut registers).unwrap() = 7;
    assert_eq!(literal_or_register(32771, &registers), Ok(7));
    assert_eq!(literal_or_register(32770, &registers), Ok(0));
}

#[test]
fn register_gives_the_current_content() {
    let mut registers = [5, 6, 7, 8, 9, 10, 11, 12];
    for i in 0..8u16 {
        let expected = 5 + i;
        assert_eq!(*register(32768 + i, &mut registers).unwrap(), expected);
    }
    assert_eq!(registers, [5, 6, 7, 8, 9, 10, 11, 12]);
}

#[test]
fn a_literal_is_no_destination() {
    let mut registers = [1u16; 8];
    for word in [0u16, 1, 7, 8, 32767] {
        assert_eq!(register(word, &mut registers).err(), Some(Fault::InvalidDestination));
    }
    assert_eq!(registers, [1; 8]);
}

#[test]
fn a_word_beyond_the_registers_is_no_destination() {
    let mut registers = [1u16; 8];
    for word in [32776u16, 32777, 40000, 65535] {
        assert_eq!(register(word, &mut registers).err(), Some(Fault::InvalidOperand));
    }
    assert_eq!(registers, [1; 8]);
}

#[test]
fn register_range_constants() {
    assert_eq!(REGISTER_BASE, 32768);
    assert_eq!(REGISTER_COUNT, 8);
}
