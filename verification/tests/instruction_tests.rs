use regvm::arith::{
    divide, split, to_unsigned, wrapping_difference, wrapping_product, wrapping_sum,
};
use regvm::instructions::Opcode;

const ALL: [(Opcode, u8, &str, usize); 15] = [
    (Opcode::LOAD, 0, "load", 3),
    (Opcode::HLT, 1, "hlt", 0),
    (Opcode::ADD, 2, "add", 3),
    (Opcode::SUB, 3, "sub", 3),
    (Opcode::MUL, 4, "mul", 3),
    (Opcode::DIV, 5, "div", 3),
    (Opcode::JMP, 6, "jmp", 1),
    (Opcode::JMPF, 7, "jmpf", 1),
    (Opcode::JMPB, 8, "jmpb", 1),
    (Opcode::EQ, 9, "eq", 3),
    (Opcode::JEQ, 10, "jeq", 1),
    (Opcode::JNEQ, 11, "jneq", 1),
    (Opcode::ALOC, 12, "aloc", 1),
    (Opcode::INC, 13, "inc", 1),
    (Opcode::DEC, 14, "dec", 1),
];

#[test]
fn each_opcode_has_its_byte() {
    for (op, byte, _, _) in ALL {
        assert_eq!(op.to_byte(), Some(byte));
        assert_eq!(Opcode::from(byte), op);
    }
    assert_eq!(Opcode::IGL.to_byte(), None);
}

#[test]
fn decode_is_total() {
    for byte in 0..=255u8 {
        let op = Opcode::from(byte);
        if byte >= 15 {
            assert_eq!(op, Opcode::IGL);
        } else {
            assert_ne!(op, Opcode::IGL);
            assert_eq!(op.to_byte(), Some(byte));
        }
    }
}

#[test]
fn each_opcode_has_its_name() {
    for (op, _, name, _) in ALL {
        assert_eq!(Opcode::from_mnemonic(name.as_bytes()), Some(op));
    }
}

#[test]
fn other_names_select_nothing() {
    for name in ["", "l", "loa", "loadx", "LOAD", "Load", "igl", "halt", "jmpx", "e", "eqq", " load", "load "] {
        assert_eq!(Opcode::from_mnemonic(name.as_bytes()), None);
    }
}

#[test]
fn each_opcode_has_its_width() {
    for (op, _, _, width) in ALL {
        assert_eq!(op.width(), width);
    }
    assert_eq!(Opcode::IGL.width(), 0);
}

#[test]
fn unsigned_reading_of_a_register() {
    assert_eq!(to_unsigned(0), 0);
    assert_eq!(to_unsigned(7), 7);
    assert_eq!(to_unsigned(i32::MAX), 2147483647);
    assert_eq!(to_unsigned(-1), 4294967295);
    assert_eq!(to_unsigned(-2), 4294967294);
    assert_eq!(to_unsigned(i32::MIN), 2147483648);
}

#[test]
fn wrapping_arithmetic() {
    assert_eq!(wrapping_sum(10, 3), 13);
    assert_eq!(wrapping_sum(i32::MAX, 1), i32::MIN);
    assert_eq!(wrapping_sum(i32::MIN, -1), i32::MAX);
    assert_eq!(wrapping_difference(10, 3), 7);
    assert_eq!(wrapping_difference(i32::MIN, 1), i32::MAX);
    assert_eq!(wrapping_difference(i32::MAX, -1), i32::MIN);
    assert_eq!(wrapping_product(10, 3), 30);
    assert_eq!(wrapping_product(65536, 65536), 0);
    assert_eq!(wrapping_product(i32::MAX, 2), -2);
    assert_eq!(wrapping_product(i32::MIN, -1), i32::MIN);
    assert_eq!(wrapping_product(-7, 6), -42);
}

#[test]
fn division_rounds_toward_zero() {
    assert_eq!(divide(7, 2), Some((3, 1)));
    assert_eq!(divide(-7, 2), Some((-3, -1)));
    assert_eq!(divide(7, -2), Some((-3, 1)));
    assert_eq!(divide(-7, -2), Some((3, -1)));
    assert_eq!(divide(0, 5), Some((0, 0)));
    assert_eq!(divide(6, 3), Some((2, 0)));
    assert_eq!(divide(i32::MIN, 1), Some((i32::MIN, 0)));
    assert_eq!(divide(i32::MIN, 2), Some((-1073741824, 0)));
    assert_eq!(divide(i32::MIN, i32::MIN), Some((1, 0)));
    assert_eq!(divide(i32::MAX, i32::MIN), Some((0, i32::MAX)));
    assert_eq!(divide(i32::MAX, -1), Some((-i32::MAX, 0)));
}

#[test]
fn division_without_a_result() {
    assert_eq!(divide(1, 0), None);
    assert_eq!(divide(0, 0), None);
    assert_eq!(divide(i32::MIN, 0), None);
    assert_eq!(divide(i32::MIN, -1), None);
}

#[test]
fn low_sixteen_bits_high_byte_first() {
    assert_eq!(split(0), (0, 0));
    assert_eq!(split(100), (0, 100));
    assert_eq!(split(500), (1, 244));
    assert_eq!(split(65535), (255, 255));
    assert_eq!(split(65536), (0, 0));
    assert_eq!(split(70000), (17, 112));
    assert_eq!(split(-1), (255, 255));
    assert_eq!(split(-2), (255, 254));
    assert_eq!(split(-256), (255, 0));
    assert_eq!(split(i32::MAX), (255, 255));
    assert_eq!(split(i32::MIN), (0, 0));
}
