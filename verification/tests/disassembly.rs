use wordvm::disasm::{dissasemble, escape};
use wordvm::opcode::Opcode;

#[test]
fn opcodes_give_their_names() {
    let names = [
        "halt", "set", "push", "pop", "eq", "gt", "jmp", "jt", "jf", "add", "mult", "mod", "and",
        "or", "not", "rmem", "wmem", "call", "ret", "out", "in", "noop",
    ];
    for (word, name) in names.iter().enumerate() {
        assert_eq!(dissasemble(word as u16), *name);
    }
}

#[test]
fn jumps_input_and_noop_are_named_as_in_the_table() {
    assert_eq!(dissasemble(7), "jt");
    assert_eq!(dissasemble(8), "jf");
    assert_eq!(dissasemble(20), "in");
    assert_eq!(dissasemble(21), "noop");
}

#[test]
fn the_decoder_and_the_table_agree_on_every_opcode() {
    for word in 0..=21u16 {
        let op = Opcode::from_word(word).unwrap();
        assert_eq!(dissasemble(word), op.mnemonic());
    }
}

#[test]
fn register_addresses_give_register_labels() {
    assert_eq!(dissasemble(32768), "Register 0");
    assert_eq!(dissasemble(32769), "Register 1");
    assert_eq!(dissasemble(32770), "Register 2");
    assert_eq!(dissasemble(32771), "Register 3");
    assert_eq!(dissasemble(32772), "Register 4");
    assert_eq!(dissasemble(32773), "Register 5");
    assert_eq!(dissasemble(32774), "Register 6");
    assert_eq!(dissasemble(32775), "Register 7");
}

#[test]
fn small_words_are_annotated_as_characters() {
    assert_eq!(dissasemble(97), "printable 97 (a)");
    assert_eq!(dissasemble(65), "printable 65 (A)");
    assert_eq!(dissasemble(32), "printable 32 ( )");
    assert_eq!(dissasemble(48), "printable 48 (0)");
    assert_eq!(dissasemble(126), "printable 126 (~)");
    assert_eq!(dissasemble(100), "printable 100 (d)");
}

#[test]
fn quotes_and_backslash_are_escaped() {
    assert_eq!(dissasemble(34), "printable 34 (\\\")");
    assert_eq!(dissasemble(39), "printable 39 (\\')");
    assert_eq!(dissasemble(92), "printable 92 (\\\\)");
}

#[test]
fn control_characters_are_escaped_by_code() {
    assert_eq!(dissasemble(22), "printable 22 (\\u{16})");
    assert_eq!(dissasemble(26), "printable 26 (\\u{1a})");
    assert_eq!(dissasemble(27), "printable 27 (\\u{1b})");
    assert_eq!(dissasemble(31), "printable 31 (\\u{1f})");
    assert_eq!(dissasemble(127), "printable 127 (\\u{7f})");
}

#[test]
fn other_words_are_literals() {
    assert_eq!(dissasemble(128), "literal 128");
    assert_eq!(dissasemble(1000), "literal 1000");
    assert_eq!(dissasemble(10000), "literal 10000");
    assert_eq!(dissasemble(32767), "literal 32767");
    assert_eq!(dissasemble(32776), "literal 32776");
    assert_eq!(dissasemble(65535), "literal 65535");
}

#[test]
fn every_word_beyond_the_opcodes_matches_the_standard_formatting() {
    for word in 22..=65535u16 {
        let expected = if (32768..=32775).contains(&word) {
            format!("Register {}", word - 32768)
        } else if word < 128 {
            format!("printable {} ({})", word, (word as u8 as char).escape_default())
        } else {
            format!("literal {}", word)
        };
        assert_eq!(dissasemble(word), expected);
    }
}

#[test]
fn escape_matches_the_standard_escape() {
    for code in 0..=255u8 {
        let expected: String = (code as char).escape_default().collect();
        assert_eq!(escape(code), expected);
    }
}

#[test]
fn escape_of_chosen_characters() {
    assert_eq!(escape(9), "\\t");
    assert_eq!(escape(10), "\\n");
    assert_eq!(escape(13), "\\r");
    assert_eq!(escape(0), "\\u{0}");
    assert_eq!(escape(11), "\\u{b}");
    assert_eq!(escape(b'a'), "a");
    assert_eq!(escape(b' '), " ");
    assert_eq!(escape(b'"'), "\\\"");
    assert_eq!(escape(b'\''), "\\'");
    assert_eq!(escape(b'\\'), "\\\\");
    assert_eq!(escape(128), "\\u{80}");
    assert_eq!(escape(255), "\\u{ff}");
}
