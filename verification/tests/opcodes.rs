use wordvm::opcode::Opcode;

const TABLE: [(u16, Opcode, u16, &str); 22] = [
    (0, Opcode::Halt, 0, "halt"),
    (1, Opcode::Assign, 2, "set"),
    (2, Opcode::Push, 1, "push"),
    (3, Opcode::Pop, 1, "pop"),
    (4, Opcode::Eq, 3, "eq"),
    (5, Opcode::Gt, 3, "gt"),
    (6, Opcode::Jmp, 1, "jmp"),
    (7, Opcode::Jt, 2, "jt"),
    (8, Opcode::Jf, 2, "jf"),
    (9, Opcode::Add, 3, "add"),
    (10, Opcode::Mult, 3, "mult"),
    (11, Opcode::Mod, 3, "mod"),
    (12, Opcode::And, 3, "and"),
    (13, Opcode::Or, 3, "or"),
    (14, Opcode::Not, 2, "not"),
    (15, Opcode::Rmem, 2, "rmem"),
    (16, Opcode::Wmem, 2, "wmem"),
    (17, Opcode::Call, 1, "call"),
    (18, Opcode::Ret, 0, "ret"),
    (19, Opcode::Out, 1, "out"),
    (20, Opcode::In, 1, "in"),
    (21, Opcode::Noop, 0, "noop"),
];

#[test]
fn every_opcode_decodes_from_its_code() {
    for (code, op, _, _) in TABLE {
        assert_eq!(Opcode::from_word(code), Some(op));
        assert_eq!(op.code(), code);
    }
}

#[test]
fn no_other_word_is_an_opcode() {
    for word in 22..=65535u16 {
        assert_eq!(Opcode::from_word(word), None);
    }
}

#[test]
fn operand_counts() {
    for (_, op, operands, _) in TABLE {
        assert_eq!(op.operands(), operands);
    }
}

#[test]
fn mnemonics() {
    for (_, op, _, name) in TABLE {
        assert_eq!(op.mnemonic(), name);
    }
}
