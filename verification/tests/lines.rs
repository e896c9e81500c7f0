use lc2k::parse;
use lc2k::parse_line;
use lc2k::Address;
use lc2k::ErrorKind;
use lc2k::Instruction;
use lc2k::OperandKind;
use lc2k::ProgramLine;
use lc2k::Register;
use lc2k::RegisterError;

fn reg(s: &str) -> Register {
    Register::from_str(s).unwrap()
}

#[test]
fn p() {
    let i = parse("label lw 0 1 5\n");
    println!("{:?}", i);
}

#[test]
fn labelled_lw_line() {
    let got = parse_line("main lw 1 2 5").unwrap();
    let want = ProgramLine {
        label: Some("main".to_string()),
        instruction: Instruction::Lw(reg("1"), reg("2"), Address::Literal(5)),
    };
    assert_eq!(got, want);
}

#[test]
fn branch_to_label() {
    let got = parse_line("loop beq 0 1 loop").unwrap();
    let want = ProgramLine {
        label: Some("loop".to_string()),
        instruction: Instruction::Beq(reg("0"), reg("1"), Address::Symbol("loop".to_string())),
    };
    assert_eq!(got, want);
}

#[test]
fn placeholder_no_label() {
    let got = parse_line("_ halt").unwrap();
    let want = ProgramLine { label: None, instruction: Instruction::Halt };
    assert_eq!(got, want);
}

#[test]
fn out_of_range_register() {
    let got = parse_line("_ add 9 1 2").unwrap_err();
    assert_eq!(got, ErrorKind::InvalidRegister(RegisterError::OutOfRange, 1));
}

#[test]
fn sw_keeps_its_tag() {
    let got = parse_line("_ sw 0 1 5").unwrap();
    assert!(matches!(got.instruction, Instruction::Sw(..)));
    let want = ProgramLine {
        label: None,
        instruction: Instruction::Sw(reg("0"), reg("1"), Address::Literal(5)),
    };
    assert_eq!(got, want);
}

#[test]
fn second_line_diagnosed() {
    let errs = parse("_ add 1 2 3\n_ jump 1 2").unwrap_err();
    assert_eq!(errs.len(), 1);
    assert_eq!(errs[0].line_number, 2);
    assert_eq!(errs[0].line, "_ jump 1 2".to_string());
    assert_eq!(errs[0].kind, ErrorKind::UnknownOpcode("jump".to_string()));
}

#[test]
fn whole_program_in_order() {
    let prog = parse(
        "start add 1 2 3\n_ nor 4 5 6\n_ beq 0 1 start\n_ jalr 6 7\n_ noop\nend halt\ndata fill -7",
    )
    .unwrap();
    assert_eq!(prog.len(), 7);
    assert_eq!(prog[0].label, Some("start".to_string()));
    assert_eq!(prog[0].instruction, Instruction::Add(reg("1"), reg("2"), reg("3")));
    assert_eq!(prog[1].instruction, Instruction::Nor(reg("4"), reg("5"), reg("6")));
    assert_eq!(
        prog[2].instruction,
        Instruction::Beq(reg("0"), reg("1"), Address::Symbol("start".to_string()))
    );
    assert_eq!(prog[3].instruction, Instruction::Jalr(reg("6"), reg("7")));
    assert_eq!(prog[4].instruction, Instruction::Noop);
    assert_eq!(
        prog[5],
        ProgramLine { label: Some("end".to_string()), instruction: Instruction::Halt }
    );
    assert_eq!(
        prog[6],
        ProgramLine { label: Some("data".to_string()), instruction: Instruction::Fill(-7) }
    );
}

#[test]
fn empty_source_is_empty_program() {
    assert_eq!(parse("").unwrap().len(), 0);
}

#[test]
fn blank_line_rejected() {
    let errs = parse("_ halt\n   \n_ noop").unwrap_err();
    assert_eq!(errs.len(), 1);
    assert_eq!(errs[0].line_number, 2);
    assert_eq!(errs[0].kind, ErrorKind::EmptyLine);
}

#[test]
fn trailing_newline_opens_no_line() {
    assert_eq!(parse("_ halt\n").unwrap().len(), 1);
}

#[test]
fn crlf_line_endings() {
    let prog = parse("_ halt\r\n_ noop").unwrap();
    assert_eq!(prog.len(), 2);
    assert_eq!(prog[0].instruction, Instruction::Halt);
    assert_eq!(prog[1].instruction, Instruction::Noop);
}

#[test]
fn every_malformed_line_reported() {
    let errs = parse("_ add 1 2\n_ halt\n_ frobnicate\n_ lw 1 2 1x").unwrap_err();
    assert_eq!(errs.len(), 3);
    assert_eq!(errs[0].line_number, 1);
    assert_eq!(errs[0].kind, ErrorKind::MissingOperand(OperandKind::Register, 3));
    assert_eq!(errs[1].line_number, 3);
    assert_eq!(errs[1].kind, ErrorKind::UnknownOpcode("frobnicate".to_string()));
    assert_eq!(errs[2].line_number, 4);
    assert_eq!(errs[2].kind, ErrorKind::InvalidAddress(3));
}

#[test]
fn tabs_separate_fields() {
    let got = parse_line("_\tadd\t1\t2\t3").unwrap();
    assert_eq!(got.instruction, Instruction::Add(reg("1"), reg("2"), reg("3")));
}

#[test]
fn only_label_slot_missing_opcode() {
    let got = parse_line("_").unwrap_err();
    assert_eq!(got, ErrorKind::MissingOperand(OperandKind::Opcode, 0));
}

#[test]
fn trailing_commentary_ignored() {
    let got = parse_line("_ halt and stop here").unwrap();
    assert_eq!(got.instruction, Instruction::Halt);
}
