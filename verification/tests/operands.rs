use lc2k::ast::is_label;
use lc2k::decode::decode_instruction;
use lc2k::parse_line;
use lc2k::Address;
use lc2k::ErrorKind;
use lc2k::Instruction;
use lc2k::OperandKind;
use lc2k::Register;
use lc2k::RegisterError;
use lc2k::NUM_REG;

#[test]
fn register_accepts_each_index() {
    for i in 0..NUM_REG {
        let s = format!("{}", i);
        let r = Register::from_str(&s).unwrap();
        assert_eq!(r.value(), i);
    }
}

#[test]
fn register_rejects_eight() {
    assert_eq!(Register::from_str("8").unwrap_err(), RegisterError::OutOfRange);
}

#[test]
fn register_rejects_huge() {
    assert_eq!(
        Register::from_str("99999999999999999999999").unwrap_err(),
        RegisterError::OutOfRange
    );
}

#[test]
fn register_rejects_text() {
    assert_eq!(Register::from_str("abc").unwrap_err(), RegisterError::NotNumeric);
    assert_eq!(Register::from_str("").unwrap_err(), RegisterError::NotNumeric);
    assert_eq!(Register::from_str("-1").unwrap_err(), RegisterError::NotNumeric);
    assert_eq!(Register::from_str("+1").unwrap_err(), RegisterError::NotNumeric);
    assert_eq!(Register::from_str("1a").unwrap_err(), RegisterError::NotNumeric);
}

#[test]
fn register_leading_zeroes() {
    assert_eq!(Register::from_str("007").unwrap().value(), 7);
}

#[test]
fn address_literals() {
    assert_eq!(Address::from_str("5").unwrap(), Address::Literal(5));
    assert_eq!(Address::from_str("-12").unwrap(), Address::Literal(-12));
    assert_eq!(Address::from_str("+9").unwrap(), Address::Literal(9));
    assert_eq!(Address::from_str("007").unwrap(), Address::Literal(7));
}

#[test]
fn address_symbols() {
    assert_eq!(Address::from_str("loop").unwrap(), Address::Symbol("loop".to_string()));
    assert_eq!(Address::from_str("x9").unwrap(), Address::Symbol("x9".to_string()));
    assert_eq!(Address::from_str("Zebra").unwrap(), Address::Symbol("Zebra".to_string()));
}

#[test]
fn address_rejections() {
    assert!(Address::from_str("_").is_none());
    assert!(Address::from_str("").is_none());
    assert!(Address::from_str("9loop").is_none());
    assert!(Address::from_str("12.5").is_none());
    assert!(Address::from_str("+").is_none());
    assert!(Address::from_str("-").is_none());
}

#[test]
fn address_32_bit_bounds() {
    assert_eq!(Address::from_str("2147483647").unwrap(), Address::Literal(i32::MAX));
    assert!(Address::from_str("2147483648").is_none());
    assert_eq!(Address::from_str("-2147483648").unwrap(), Address::Literal(i32::MIN));
    assert!(Address::from_str("-2147483649").is_none());
}

#[test]
fn label_first_character_classes() {
    assert!(is_label("main"));
    assert!(is_label("Zebra"));
    assert!(is_label("a1_b"));
    assert!(!is_label("_x"));
    assert!(!is_label("9a"));
    assert!(!is_label(""));
    assert!(!is_label("-a"));
}

#[test]
fn fill_takes_literal_not_address() {
    assert_eq!(parse_line("_ fill 12").unwrap().instruction, Instruction::Fill(12));
    assert_eq!(parse_line("_ fill loop").unwrap_err(), ErrorKind::InvalidFillValue(1));
}

#[test]
fn fill_missing_operand() {
    assert_eq!(
        parse_line("_ fill").unwrap_err(),
        ErrorKind::MissingOperand(OperandKind::Literal, 1)
    );
}

#[test]
fn fill_value_bounds() {
    assert_eq!(
        parse_line("_ fill -2147483648").unwrap().instruction,
        Instruction::Fill(i32::MIN)
    );
    assert_eq!(parse_line("_ fill 2147483648").unwrap_err(), ErrorKind::InvalidFillValue(1));
}

#[test]
fn missing_operand_positions() {
    assert_eq!(
        parse_line("_ add").unwrap_err(),
        ErrorKind::MissingOperand(OperandKind::Register, 1)
    );
    assert_eq!(
        parse_line("_ add 1").unwrap_err(),
        ErrorKind::MissingOperand(OperandKind::Register, 2)
    );
    assert_eq!(
        parse_line("_ add 1 2").unwrap_err(),
        ErrorKind::MissingOperand(OperandKind::Register, 3)
    );
    assert_eq!(
        parse_line("_ jalr 1").unwrap_err(),
        ErrorKind::MissingOperand(OperandKind::Register, 2)
    );
    assert_eq!(
        parse_line("_ lw 1 2").unwrap_err(),
        ErrorKind::MissingOperand(OperandKind::Address, 3)
    );
}

#[test]
fn invalid_register_cause_and_position() {
    assert_eq!(
        parse_line("_ add 1 x 2").unwrap_err(),
        ErrorKind::InvalidRegister(RegisterError::NotNumeric, 2)
    );
    assert_eq!(
        parse_line("_ nor 1 2 8").unwrap_err(),
        ErrorKind::InvalidRegister(RegisterError::OutOfRange, 3)
    );
}

#[test]
fn dot_prefixed_fill_spelling_rejected() {
    assert_eq!(
        parse_line("_ .fill 5").unwrap_err(),
        ErrorKind::UnknownOpcode(".fill".to_string())
    );
}

#[test]
fn memory_forms_take_label_addresses() {
    assert_eq!(
        parse_line("_ lw 1 2 data").unwrap().instruction,
        Instruction::Lw(
            Register::from_str("1").unwrap(),
            Register::from_str("2").unwrap(),
            Address::Symbol("data".to_string())
        )
    );
}

#[test]
fn decode_empty_statement() {
    let toks: Vec<String> = Vec::new();
    assert_eq!(
        decode_instruction(&toks).unwrap_err(),
        ErrorKind::MissingOperand(OperandKind::Opcode, 0)
    );
}

#[test]
fn decode_sees_opcode_first() {
    let toks = vec!["beq".to_string(), "1".to_string(), "2".to_string(), "done".to_string()];
    let got = decode_instruction(&toks).unwrap();
    assert_eq!(
        got,
        Instruction::Beq(
            Register::from_str("1").unwrap(),
            Register::from_str("2").unwrap(),
            Address::Symbol("done".to_string())
        )
    );
}
