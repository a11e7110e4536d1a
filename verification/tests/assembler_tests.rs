use regvm::assembler::instruction_parsers::{
    instruction_from, instruction_one, AssemblerInstruction, EncodeError,
};
use regvm::assembler::opcode_parsers::{opcode, opcode_from};
use regvm::assembler::operand_parsers::{integer_from, integer_operand};
use regvm::assembler::register_parsers::{register, register_from};
use regvm::assembler::scan::{belongs, skip, Class};
use regvm::assembler::{ParseError, Token};
use regvm::instructions::Opcode;
use regvm::vm::{Step, Stop, VM};

fn form_one(code: Opcode, reg_num: u8, value: i32) -> AssemblerInstruction {
    AssemblerInstruction {
        opcode: Token::Op { code },
        operand1: Some(Token::Register { reg_num }),
        operand2: Some(Token::IntegerOperand { value }),
        operand3: None,
    }
}

#[test]
fn test_parse_instruction_form_one() {
    let result = instruction_one("load $0 #100\n".as_bytes());
    assert_eq!(
        result,
        Ok((
            "".as_bytes(),
            AssemblerInstruction {
                opcode: Token::Op { code: Opcode::LOAD },
                operand1: Some(Token::Register { reg_num: 0 }),
                operand2: Some(Token::IntegerOperand { value: 100 }),
                operand3: None
            }
        ))
    )
}

#[test]
fn line_leaves_the_following_text() {
    assert_eq!(
        instruction_one("load $1 #2\nload $2 #3\n".as_bytes()),
        Ok(("load $2 #3\n".as_bytes(), form_one(Opcode::LOAD, 1, 2)))
    );
    assert_eq!(
        instruction_from("load $1 #2\nload $2 #3\n".as_bytes(), 11),
        Ok((22, form_one(Opcode::LOAD, 2, 3)))
    );
    assert_eq!(
        instruction_from("load $1 #2\nload $2 #3\n".as_bytes(), 0),
        Ok((11, form_one(Opcode::LOAD, 1, 2)))
    );
    assert_eq!(
        instruction_from("load $1 #2\n".as_bytes(), 11),
        Err(ParseError::ExpectedOpcode)
    );
    assert_eq!(
        instruction_from("load $1 #2\n".as_bytes(), 12),
        Err(ParseError::ExpectedOpcode)
    );
}

#[test]
fn line_may_name_any_operation() {
    assert_eq!(
        instruction_one("add $31 #65535\n".as_bytes()),
        Ok(("".as_bytes(), form_one(Opcode::ADD, 31, 65535)))
    );
    assert_eq!(
        instruction_one("jneq $7 #0\n".as_bytes()),
        Ok(("".as_bytes(), form_one(Opcode::JNEQ, 7, 0)))
    );
}

#[test]
fn line_takes_a_negative_integer() {
    assert_eq!(
        instruction_one("load $1 #-2\n".as_bytes()),
        Ok(("".as_bytes(), form_one(Opcode::LOAD, 1, -2)))
    );
    assert_eq!(
        instruction_one("load $1 #-2147483648\n".as_bytes()),
        Ok(("".as_bytes(), form_one(Opcode::LOAD, 1, i32::MIN)))
    );
    assert_eq!(
        instruction_one("load $1 #-0\n".as_bytes()),
        Ok(("".as_bytes(), form_one(Opcode::LOAD, 1, 0)))
    );
}

#[test]
fn line_takes_blanks_between_its_parts() {
    assert_eq!(
        instruction_one("  load\t$3  \t#7 \r\nrest".as_bytes()),
        Ok(("rest".as_bytes(), form_one(Opcode::LOAD, 3, 7)))
    );
    assert_eq!(
        instruction_one("load$3#7\n".as_bytes()),
        Ok(("".as_bytes(), form_one(Opcode::LOAD, 3, 7)))
    );
}

#[test]
fn line_without_an_operation() {
    for text in ["", "\n", "$0 #1\n", "LOAD $0 #1\n", "loadx $0 #1\n", "lod $0 #1\n", "igl $0 #1\n", "\nload $0 #1\n"] {
        assert_eq!(instruction_one(text.as_bytes()), Err(ParseError::ExpectedOpcode));
    }
}

#[test]
fn line_without_a_register() {
    for text in ["load", "load #1\n", "load 0 #1\n", "load $ #1\n", "load $x #1\n", "load $32 #1\n", "load $256 #1\n", "load $-1 #1\n", "load $99999999999999999999999 #1\n", "load\n$0 #1\n"] {
        assert_eq!(instruction_one(text.as_bytes()), Err(ParseError::ExpectedRegister));
    }
}

#[test]
fn line_without_an_integer() {
    for text in ["load $0", "load $0\n", "load $0 1\n", "load $0 #\n", "load $0 #-\n", "load $0 #x\n", "load $0 #+1\n", "load $0 # 1\n", "load $0 #- 1\n", "load $0 #2147483648\n", "load $0 #-2147483649\n", "load $0 #99999999999999999999999\n", "load $0 $1\n"] {
        assert_eq!(instruction_one(text.as_bytes()), Err(ParseError::ExpectedInteger));
    }
}

#[test]
fn line_without_its_end() {
    for text in ["load $0 #1", "load $0 #1 ", "load $0 #1 x\n", "load $0 #1 #2\n", "load $0 #1-\n", "load $0 #1\r"] {
        assert_eq!(instruction_one(text.as_bytes()), Err(ParseError::ExpectedLineEnd));
    }
}

#[test]
fn numbers_may_have_leading_zeros() {
    assert_eq!(
        instruction_one("load $0000000000000000000000031 #0000000000000000000000000500\n".as_bytes()),
        Ok(("".as_bytes(), form_one(Opcode::LOAD, 31, 500)))
    );
    assert_eq!(
        instruction_one("load $0 #2147483647\n".as_bytes()),
        Ok(("".as_bytes(), form_one(Opcode::LOAD, 0, i32::MAX)))
    );
}

#[test]
fn opcode_parser_reads_a_name() {
    assert_eq!(opcode("load $0".as_bytes()), Ok((" $0".as_bytes(), Token::Op { code: Opcode::LOAD })));
    assert_eq!(opcode(" \thlt".as_bytes()), Ok(("".as_bytes(), Token::Op { code: Opcode::HLT })));
    assert_eq!(opcode("jmpf1".as_bytes()), Ok(("1".as_bytes(), Token::Op { code: Opcode::JMPF })));
    assert_eq!(opcode("jmpfx".as_bytes()), Err(ParseError::ExpectedOpcode));
    assert_eq!(opcode("".as_bytes()), Err(ParseError::ExpectedOpcode));
    assert_eq!(opcode("Load".as_bytes()), Err(ParseError::ExpectedOpcode));
    assert_eq!(opcode_from("xx dec".as_bytes(), 2), Some((6, Token::Op { code: Opcode::DEC })));
    assert_eq!(opcode_from("xx dec".as_bytes(), 0), None);
    assert_eq!(opcode_from("dec".as_bytes(), 3), None);
    assert_eq!(opcode_from("dec".as_bytes(), 4), None);
}

#[test]
fn register_parser_reads_a_register() {
    assert_eq!(register("$0".as_bytes()), Ok(("".as_bytes(), Token::Register { reg_num: 0 })));
    assert_eq!(register(" $17 #1".as_bytes()), Ok((" #1".as_bytes(), Token::Register { reg_num: 17 })));
    assert_eq!(register("$31x".as_bytes()), Ok(("x".as_bytes(), Token::Register { reg_num: 31 })));
    assert_eq!(register("$32".as_bytes()), Err(ParseError::ExpectedRegister));
    assert_eq!(register("$".as_bytes()), Err(ParseError::ExpectedRegister));
    assert_eq!(register("0".as_bytes()), Err(ParseError::ExpectedRegister));
    assert_eq!(register("#0".as_bytes()), Err(ParseError::ExpectedRegister));
    assert_eq!(register("$ 0".as_bytes()), Err(ParseError::ExpectedRegister));
    assert_eq!(register("".as_bytes()), Err(ParseError::ExpectedRegister));
    assert_eq!(register_from("load $9".as_bytes(), 4), Some((7, Token::Register { reg_num: 9 })));
    assert_eq!(register_from("load $9".as_bytes(), 0), None);
    assert_eq!(register_from("$9".as_bytes(), 2), None);
    assert_eq!(register_from("$9".as_bytes(), 3), None);
}

#[test]
fn integer_parser_reads_an_integer() {
    assert_eq!(integer_operand("#100".as_bytes()), Ok(("".as_bytes(), Token::IntegerOperand { value: 100 })));
    assert_eq!(integer_operand(" #-100\n".as_bytes()), Ok(("\n".as_bytes(), Token::IntegerOperand { value: -100 })));
    assert_eq!(integer_operand("#12a".as_bytes()), Ok(("a".as_bytes(), Token::IntegerOperand { value: 12 })));
    assert_eq!(integer_operand("#2147483647".as_bytes()), Ok(("".as_bytes(), Token::IntegerOperand { value: i32::MAX })));
    assert_eq!(integer_operand("#-2147483648".as_bytes()), Ok(("".as_bytes(), Token::IntegerOperand { value: i32::MIN })));
    assert_eq!(integer_operand("#2147483648".as_bytes()), Err(ParseError::ExpectedInteger));
    assert_eq!(integer_operand("#-2147483649".as_bytes()), Err(ParseError::ExpectedInteger));
    assert_eq!(integer_operand("#".as_bytes()), Err(ParseError::ExpectedInteger));
    assert_eq!(integer_operand("#-".as_bytes()), Err(ParseError::ExpectedInteger));
    assert_eq!(integer_operand("#--1".as_bytes()), Err(ParseError::ExpectedInteger));
    assert_eq!(integer_operand("100".as_bytes()), Err(ParseError::ExpectedInteger));
    assert_eq!(integer_operand("$1".as_bytes()), Err(ParseError::ExpectedInteger));
    assert_eq!(integer_operand("".as_bytes()), Err(ParseError::ExpectedInteger));
    assert_eq!(integer_from("$1 #-5".as_bytes(), 2), Some((6, Token::IntegerOperand { value: -5 })));
    assert_eq!(integer_from("$1 #-5".as_bytes(), 0), None);
    assert_eq!(integer_from("#5".as_bytes(), 3), None);
}

#[test]
fn scanning_runs_of_a_class() {
    let text = " \t\r abc123\n".as_bytes();
    assert_eq!(skip(text, 0, Class::Blank), 4);
    assert_eq!(skip(text, 0, Class::Letter), 0);
    assert_eq!(skip(text, 4, Class::Letter), 7);
    assert_eq!(skip(text, 7, Class::Digit), 10);
    assert_eq!(skip(text, 10, Class::Blank), 10);
    assert_eq!(skip(text, 11, Class::Blank), 11);
    assert_eq!(skip(text, 12, Class::Blank), 12);
    assert!(belongs(Class::Blank, b' '));
    assert!(!belongs(Class::Blank, b'\n'));
    assert!(belongs(Class::Digit, b'0') && belongs(Class::Digit, b'9'));
    assert!(!belongs(Class::Digit, b'/') && !belongs(Class::Digit, b':'));
    assert!(belongs(Class::Letter, b'a') && belongs(Class::Letter, b'z'));
    assert!(!belongs(Class::Letter, b'`') && !belongs(Class::Letter, b'{') && !belongs(Class::Letter, b'A'));
}

#[test]
fn bytes_of_a_load() {
    assert_eq!(form_one(Opcode::LOAD, 0, 100).to_bytes(), Ok(vec![0, 0, 0, 100]));
    assert_eq!(form_one(Opcode::LOAD, 31, 500).to_bytes(), Ok(vec![0, 31, 1, 244]));
}

#[test]
fn integer_is_cut_to_sixteen_bits() {
    assert_eq!(form_one(Opcode::LOAD, 1, 65535).to_bytes(), Ok(vec![0, 1, 255, 255]));
    assert_eq!(form_one(Opcode::LOAD, 1, 65536).to_bytes(), Ok(vec![0, 1, 0, 0]));
    assert_eq!(form_one(Opcode::LOAD, 1, 70000).to_bytes(), Ok(vec![0, 1, 17, 112]));
    assert_eq!(form_one(Opcode::LOAD, 1, -2).to_bytes(), Ok(vec![0, 1, 255, 254]));
    assert_eq!(form_one(Opcode::LOAD, 1, i32::MIN).to_bytes(), Ok(vec![0, 1, 0, 0]));
}

#[test]
fn absent_operands_give_no_bytes() {
    let halt = AssemblerInstruction {
        opcode: Token::Op { code: Opcode::HLT },
        operand1: None,
        operand2: None,
        operand3: None,
    };
    assert_eq!(halt.to_bytes(), Ok(vec![1]));
    let gap = AssemblerInstruction {
        opcode: Token::Op { code: Opcode::INC },
        operand1: None,
        operand2: None,
        operand3: Some(Token::Register { reg_num: 4 }),
    };
    assert_eq!(gap.to_bytes(), Ok(vec![13, 4]));
}

#[test]
fn operands_come_in_order() {
    let add = AssemblerInstruction {
        opcode: Token::Op { code: Opcode::ADD },
        operand1: Some(Token::Register { reg_num: 1 }),
        operand2: Some(Token::Register { reg_num: 2 }),
        operand3: Some(Token::Register { reg_num: 3 }),
    };
    assert_eq!(add.to_bytes(), Ok(vec![2, 1, 2, 3]));
    let wide = AssemblerInstruction {
        opcode: Token::Op { code: Opcode::DEC },
        operand1: Some(Token::IntegerOperand { value: 258 }),
        operand2: Some(Token::Register { reg_num: 9 }),
        operand3: Some(Token::IntegerOperand { value: 3 }),
    };
    assert_eq!(wide.to_bytes(), Ok(vec![14, 1, 2, 9, 0, 3]));
}

#[test]
fn opcode_field_must_hold_an_operation() {
    let mut instruction = form_one(Opcode::LOAD, 0, 1);
    instruction.opcode = Token::Register { reg_num: 0 };
    assert_eq!(instruction.to_bytes(), Err(EncodeError::NotAnOpcode));
    instruction.opcode = Token::IntegerOperand { value: 0 };
    assert_eq!(instruction.to_bytes(), Err(EncodeError::NotAnOpcode));
}

#[test]
fn illegal_opcode_has_no_bytes() {
    assert_eq!(form_one(Opcode::IGL, 0, 1).to_bytes(), Err(EncodeError::IllegalOpcode));
}

#[test]
fn operand_field_must_not_hold_an_operation() {
    let mut instruction = form_one(Opcode::LOAD, 0, 1);
    instruction.operand3 = Some(Token::Op { code: Opcode::HLT });
    assert_eq!(instruction.to_bytes(), Err(EncodeError::OpcodeAsOperand));
    let mut instruction = form_one(Opcode::LOAD, 0, 1);
    instruction.operand1 = Some(Token::Op { code: Opcode::LOAD });
    assert_eq!(instruction.to_bytes(), Err(EncodeError::OpcodeAsOperand));
}

#[test]
fn register_operand_must_name_a_register() {
    assert_eq!(form_one(Opcode::LOAD, 32, 1).to_bytes(), Err(EncodeError::RegisterOutOfRange));
    assert_eq!(form_one(Opcode::LOAD, 255, 1).to_bytes(), Err(EncodeError::RegisterOutOfRange));
    assert_eq!(form_one(Opcode::LOAD, 31, 1).to_bytes(), Ok(vec![0, 31, 0, 1]));
}

#[test]
fn first_field_in_error_decides() {
    let instruction = AssemblerInstruction {
        opcode: Token::Register { reg_num: 0 },
        operand1: Some(Token::Register { reg_num: 40 }),
        operand2: Some(Token::Op { code: Opcode::HLT }),
        operand3: None,
    };
    assert_eq!(instruction.to_bytes(), Err(EncodeError::NotAnOpcode));
    let instruction = AssemblerInstruction {
        opcode: Token::Op { code: Opcode::ADD },
        operand1: Some(Token::Register { reg_num: 40 }),
        operand2: Some(Token::Op { code: Opcode::HLT }),
        operand3: None,
    };
    assert_eq!(instruction.to_bytes(), Err(EncodeError::RegisterOutOfRange));
    let instruction = AssemblerInstruction {
        opcode: Token::Op { code: Opcode::ADD },
        operand1: Some(Token::Register { reg_num: 4 }),
        operand2: Some(Token::Op { code: Opcode::HLT }),
        operand3: Some(Token::Register { reg_num: 40 }),
    };
    assert_eq!(instruction.to_bytes(), Err(EncodeError::OpcodeAsOperand));
}

#[test]
fn bytes_decode_to_what_the_line_says() {
    let names = [
        ("load", Opcode::LOAD),
        ("hlt", Opcode::HLT),
        ("add", Opcode::ADD),
        ("sub", Opcode::SUB),
        ("mul", Opcode::MUL),
        ("div", Opcode::DIV),
        ("jmp", Opcode::JMP),
        ("jmpf", Opcode::JMPF),
        ("jmpb", Opcode::JMPB),
        ("eq", Opcode::EQ),
        ("jeq", Opcode::JEQ),
        ("jneq", Opcode::JNEQ),
        ("aloc", Opcode::ALOC),
        ("inc", Opcode::INC),
        ("dec", Opcode::DEC),
    ];
    let values: [(i64, u16); 7] = [
        (0, 0),
        (100, 100),
        (500, 500),
        (65535, 65535),
        (65536, 0),
        (-1, 65535),
        (-2147483648, 0),
    ];
    for (name, op) in names {
        for reg in [0u8, 1, 17, 31] {
            for (value, low) in values {
                let text = format!("{} ${} #{}\n", name, reg, value);
                let (rest, instruction) = instruction_one(text.as_bytes()).unwrap();
                assert!(rest.is_empty());
                let bytes = instruction.to_bytes().unwrap();
                assert_eq!(bytes.len(), 4);
                assert_eq!(Opcode::from(bytes[0]), op);
                assert_eq!(bytes[1], reg);
                assert_eq!(u16::from(bytes[2]) * 256 + u16::from(bytes[3]), low);
            }
        }
    }
}

#[test]
fn machine_runs_an_assembled_load() {
    let (_, instruction) = instruction_one("load $3 #500\n".as_bytes()).unwrap();
    let mut vm = VM::new();
    for byte in instruction.to_bytes().unwrap() {
        vm.add_byte(byte);
    }
    assert_eq!(vm.run_once(), Step::Continue);
    assert_eq!(vm.registers[3], 500);
    assert_eq!(vm.pc, 4);
    assert_eq!(vm.run(), Some(Stop::EndOfProgram));

    let (_, instruction) = instruction_one("load $4 #-1\n".as_bytes()).unwrap();
    let mut vm = VM::new();
    vm.program = instruction.to_bytes().unwrap();
    assert_eq!(vm.run(), Some(Stop::EndOfProgram));
    assert_eq!(vm.registers[4], 65535);
}
