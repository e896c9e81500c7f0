//! The instruction decoder: dispatches on the opcode keyword and consumes
//! exactly the operand tokens that keyword requires, in order.
//!
//! The decoder sees the statement tokens: the opcode keyword at position 0
//! and its operands after it.  Operand positions in diagnostics are 1-based.
//! Tokens beyond the operands a keyword requires are ignored, as the
//! fixed-column source format treats trailing text on a line as commentary.

use vstd::prelude::*;

use crate::ast::spec_address;
use crate::ast::Address;
use crate::ast::AddressModel;
use crate::ast::Instruction;
use crate::ast::InstructionModel;
use crate::ast::Register;
use crate::errors::ErrorKind;
use crate::errors::ErrorModel;
use crate::errors::OperandKind;
use crate::num::parse_i32_token;
use crate::num::spec_i32_token;
use crate::num::spec_reg_index;

verus! {

pub open spec fn kw_add() -> Seq<char> {
    seq!['a', 'd', 'd']
}

pub open spec fn kw_nor() -> Seq<char> {
    seq!['n', 'o', 'r']
}

pub open spec fn kw_lw() -> Seq<char> {
    seq!['l', 'w']
}

pub open spec fn kw_sw() -> Seq<char> {
    seq!['s', 'w']
}

pub open spec fn kw_beq() -> Seq<char> {
    seq!['b', 'e', 'q']
}

pub open spec fn kw_jalr() -> Seq<char> {
    seq!['j', 'a', 'l', 'r']
}

pub open spec fn kw_halt() -> Seq<char> {
    seq!['h', 'a', 'l', 't']
}

pub open spec fn kw_noop() -> Seq<char> {
    seq!['n', 'o', 'o', 'p']
}

pub open spec fn kw_fill() -> Seq<char> {
    seq!['f', 'i', 'l', 'l']
}

/// The register operand at 1-based position `pos` among `args`.
pub open spec fn spec_reg_operand(args: Seq<Seq<char>>, pos: usize) -> Result<int, ErrorModel> {
    if args.len() < pos {
        Err(ErrorModel::MissingOperand(OperandKind::Register, pos))
    } else {
        match spec_reg_index(args[pos as int - 1]) {
            Ok(v) => Ok(v),
            Err(e) => Err(ErrorModel::InvalidRegister(e, pos)),
        }
    }
}

/// The address operand at 1-based position `pos` among `args`.
pub open spec fn spec_addr_operand(args: Seq<Seq<char>>, pos: usize) -> Result<
    AddressModel,
    ErrorModel,
> {
    if args.len() < pos {
        Err(ErrorModel::MissingOperand(OperandKind::Address, pos))
    } else {
        match spec_address(args[pos as int - 1]) {
            Some(a) => Ok(a),
            None => Err(ErrorModel::InvalidAddress(pos)),
        }
    }
}

/// The bare-literal operand of the raw-data directive, at position 1.
pub open spec fn spec_fill_operand(args: Seq<Seq<char>>) -> Result<int, ErrorModel> {
    if args.len() < 1 {
        Err(ErrorModel::MissingOperand(OperandKind::Literal, 1))
    } else {
        match spec_i32_token(args[0]) {
            Some(v) => Ok(v),
            None => Err(ErrorModel::InvalidFillValue(1)),
        }
    }
}

/// Three register operands, consumed in order; the first failure wins.
pub open spec fn spec_three_regs(args: Seq<Seq<char>>) -> Result<(int, int, int), ErrorModel> {
    match spec_reg_operand(args, 1) {
        Err(e) => Err(e),
        Ok(a) => match spec_reg_operand(args, 2) {
            Err(e) => Err(e),
            Ok(b) => match spec_reg_operand(args, 3) {
                Err(e) => Err(e),
                Ok(c) => Ok((a, b, c)),
            },
        },
    }
}

/// Two register operands, consumed in order; the first failure wins.
pub open spec fn spec_two_regs(args: Seq<Seq<char>>) -> Result<(int, int), ErrorModel> {
    match spec_reg_operand(args, 1) {
        Err(e) => Err(e),
        Ok(a) => match spec_reg_operand(args, 2) {
            Err(e) => Err(e),
            Ok(b) => Ok((a, b)),
        },
    }
}

/// Two register operands followed by one address operand.
pub open spec fn spec_regs_addr(args: Seq<Seq<char>>) -> Result<
    (int, int, AddressModel),
    ErrorModel,
> {
    match spec_two_regs(args) {
        Err(e) => Err(e),
        Ok((a, b)) => match spec_addr_operand(args, 3) {
            Err(e) => Err(e),
            Ok(t) => Ok((a, b, t)),
        },
    }
}

/// What the statement tokens decode to.  `toks[0]` is the opcode slot; the
/// tagged variant always matches the keyword that was found there.
pub open spec fn spec_decode(toks: Seq<Seq<char>>) -> Result<InstructionModel, ErrorModel> {
    if toks.len() == 0 {
        Err(ErrorModel::MissingOperand(OperandKind::Opcode, 0))
    } else {
        let op = toks[0];
        let args = toks.skip(1);
        if op == kw_add() {
            match spec_three_regs(args) {
                Ok((a, b, c)) => Ok(InstructionModel::Add(a, b, c)),
                Err(e) => Err(e),
            }
        } else if op == kw_nor() {
            match spec_three_regs(args) {
                Ok((a, b, c)) => Ok(InstructionModel::Nor(a, b, c)),
                Err(e) => Err(e),
            }
        } else if op == kw_lw() {
            match spec_regs_addr(args) {
                Ok((a, b, t)) => Ok(InstructionModel::Lw(a, b, t)),
                Err(e) => Err(e),
            }
        } else if op == kw_sw() {
            match spec_regs_addr(args) {
                Ok((a, b, t)) => Ok(InstructionModel::Sw(a, b, t)),
                Err(e) => Err(e),
            }
        } else if op == kw_beq() {
            match spec_regs_addr(args) {
                Ok((a, b, t)) => Ok(InstructionModel::Beq(a, b, t)),
                Err(e) => Err(e),
            }
        } else if op == kw_jalr() {
            match spec_two_regs(args) {
                Ok((a, b)) => Ok(InstructionModel::Jalr(a, b)),
                Err(e) => Err(e),
            }
        } else if op == kw_halt() {
            Ok(InstructionModel::Halt)
        } else if op == kw_noop() {
            Ok(InstructionModel::Noop)
        } else if op == kw_fill() {
            match spec_fill_operand(args) {
                Ok(v) => Ok(InstructionModel::Fill(v)),
                Err(e) => Err(e),
            }
        } else {
            Err(ErrorModel::UnknownOpcode(op))
        }
    }
}

/// Mathematical image of a decode result.
pub open spec fn instr_result_model(r: Result<Instruction, ErrorKind>) -> Result<
    InstructionModel,
    ErrorModel,
> {
    match r {
        Ok(i) => Ok(i@),
        Err(e) => Err(e@),
    }
}

/// Character-by-character string comparison.
fn str_eq(a: &str, b: &str) -> (r: bool)
    ensures
        r == (a@ == b@),
{
    let na = a.unicode_len();
    let nb = b.unicode_len();
    if na != nb {
        return false;
    }
    let mut i: usize = 0;
    while i < na
        invariant
            0 <= i <= na,
            na == a@.len(),
            na == b@.len(),
            forall|k: int| 0 <= k < i ==> a@[k] == b@[k],
        decreases na - i,
    {
        if a.get_char(i) != b.get_char(i) {
            return false;
        }
        i = i + 1;
    }
    proof {
        assert(a@ =~= b@);
    }
    true
}

/// Consumes the register operand at 1-based position `pos`.
fn reg_operand(toks: &Vec<String>, pos: usize) -> (r: Result<Register, ErrorKind>)
    requires
        1 <= pos <= 3,
        toks@.len() >= 1,
    ensures
        match r {
            Ok(reg) => spec_reg_operand(toks.deep_view().skip(1), pos) == Ok::<int, ErrorModel>(
                reg@,
            ),
            Err(e) => spec_reg_operand(toks.deep_view().skip(1), pos) == Err::<int, ErrorModel>(
                e@,
            ),
        },
{
    let ghost args = toks.deep_view().skip(1);
    if toks.len() < pos + 1 {
        Err(ErrorKind::MissingOperand(OperandKind::Register, pos))
    } else {
        proof {
            assert(args[pos as int - 1] == toks.deep_view()[pos as int]);
        }
        match Register::from_str(toks[pos].as_str()) {
            Ok(reg) => Ok(reg),
            Err(e) => Err(ErrorKind::InvalidRegister(e, pos)),
        }
    }
}

/// Consumes the address operand at 1-based position `pos`.
fn addr_operand(toks: &Vec<String>, pos: usize) -> (r: Result<Address, ErrorKind>)
    requires
        1 <= pos <= 3,
        toks@.len() >= 1,
    ensures
        match r {
            Ok(a) => spec_addr_operand(toks.deep_view().skip(1), pos) == Ok::<
                AddressModel,
                ErrorModel,
            >(a@),
            Err(e) => spec_addr_operand(toks.deep_view().skip(1), pos) == Err::<
                AddressModel,
                ErrorModel,
            >(e@),
        },
{
    let ghost args = toks.deep_view().skip(1);
    if toks.len() < pos + 1 {
        Err(ErrorKind::MissingOperand(OperandKind::Address, pos))
    } else {
        proof {
            assert(args[pos as int - 1] == toks.deep_view()[pos as int]);
        }
        match Address::from_str(toks[pos].as_str()) {
            Some(a) => Ok(a),
            None => Err(ErrorKind::InvalidAddress(pos)),
        }
    }
}

/// Consumes the bare-literal operand of the raw-data directive.
fn fill_operand(toks: &Vec<String>) -> (r: Result<i32, ErrorKind>)
    requires
        toks@.len() >= 1,
    ensures
        match r {
            Ok(v) => spec_fill_operand(toks.deep_view().skip(1)) == Ok::<int, ErrorModel>(
                v as int,
            ),
            Err(e) => spec_fill_operand(toks.deep_view().skip(1)) == Err::<int, ErrorModel>(e@),
        },
{
    let ghost args = toks.deep_view().skip(1);
    if toks.len() < 2 {
        Err(ErrorKind::MissingOperand(OperandKind::Literal, 1))
    } else {
        proof {
            assert(args[0] == toks.deep_view()[1]);
        }
        match parse_i32_token(toks[1].as_str()) {
            Some(v) => Ok(v),
            None => Err(ErrorKind::InvalidFillValue(1)),
        }
    }
}

/// Decodes one statement: the opcode keyword at `toks[0]` followed by the
/// operand tokens it requires.  The result mirrors [`spec_decode`] exactly;
/// in particular the variant tag always matches the keyword found, and a
/// missing or malformed operand is reported with its kind and position.
pub fn decode_instruction(toks: &Vec<String>) -> (r: Result<Instruction, ErrorKind>)
    ensures
        instr_result_model(r) == spec_decode(toks.deep_view()),
{
    if toks.len() == 0 {
        proof {
            assert(toks.deep_view().len() == 0);
        }
        return Err(ErrorKind::MissingOperand(OperandKind::Opcode, 0));
    }
    let op = &toks[0];
    proof {
        assert(op@ == toks.deep_view()[0]);
        reveal_strlit("add");
        reveal_strlit("nor");
        reveal_strlit("lw");
        reveal_strlit("sw");
        reveal_strlit("beq");
        reveal_strlit("jalr");
        reveal_strlit("halt");
        reveal_strlit("noop");
        reveal_strlit("fill");
        assert("add"@ =~= kw_add());
        assert("nor"@ =~= kw_nor());
        assert("lw"@ =~= kw_lw());
        assert("sw"@ =~= kw_sw());
        assert("beq"@ =~= kw_beq());
        assert("jalr"@ =~= kw_jalr());
        assert("halt"@ =~= kw_halt());
        assert("noop"@ =~= kw_noop());
        assert("fill"@ =~= kw_fill());
    }
    if str_eq(op.as_str(), "add") {
        let a = match reg_operand(toks, 1) {
            Ok(r) => r,
            Err(e) => return Err(e),
        };
        let b = match reg_operand(toks, 2) {
            Ok(r) => r,
            Err(e) => return Err(e),
        };
        let c = match reg_operand(toks, 3) {
            Ok(r) => r,
            Err(e) => return Err(e),
        };
        Ok(Instruction::Add(a, b, c))
    } else if str_eq(op.as_str(), "nor") {
        let a = match reg_operand(toks, 1) {
            Ok(r) => r,
            Err(e) => return Err(e),
        };
        let b = match reg_operand(toks, 2) {
            Ok(r) => r,
            Err(e) => return Err(e),
        };
        let c = match reg_operand(toks, 3) {
            Ok(r) => r,
            Err(e) => return Err(e),
        };
        Ok(Instruction::Nor(a, b, c))
    } else if str_eq(op.as_str(), "lw") {
        let a = match reg_operand(toks, 1) {
            Ok(r) => r,
            Err(e) => return Err(e),
        };
        let b = match reg_operand(toks, 2) {
            Ok(r) => r,
            Err(e) => return Err(e),
        };
        let t = match addr_operand(toks, 3) {
            Ok(r) => r,
            Err(e) => return Err(e),
        };
        Ok(Instruction::Lw(a, b, t))
    } else if str_eq(op.as_str(), "sw") {
        let a = match reg_operand(toks, 1) {
            Ok(r) => r,
            Err(e) => return Err(e),
        };
        let b = match reg_operand(toks, 2) {
            Ok(r) => r,
            Err(e) => return Err(e),
        };
        let t = match addr_operand(toks, 3) {
            Ok(r) => r,
            Err(e) => return Err(e),
        };
        Ok(Instruction::Sw(a, b, t))
    } else if str_eq(op.as_str(), "beq") {
        let a = match reg_operand(toks, 1) {
            Ok(r) => r,
            Err(e) => return Err(e),
        };
        let b = match reg_operand(toks, 2) {
            Ok(r) => r,
            Err(e) => return Err(e),
        };
        let t = match addr_operand(toks, 3) {
            Ok(r) => r,
            Err(e) => return Err(e),
        };
        Ok(Instruction::Beq(a, b, t))
    } else if str_eq(op.as_str(), "jalr") {
        let a = match reg_operand(toks, 1) {
            Ok(r) => r,
            Err(e) => return Err(e),
        };
        let b = match reg_operand(toks, 2) {
            Ok(r) => r,
            Err(e) => return Err(e),
        };
        Ok(Instruction::Jalr(a, b))
    } else if str_eq(op.as_str(), "halt") {
        Ok(Instruction::Halt)
    } else if str_eq(op.as_str(), "noop") {
        Ok(Instruction::Noop)
    } else if str_eq(op.as_str(), "fill") {
        match fill_operand(toks) {
            Ok(v) => Ok(Instruction::Fill(v)),
            Err(e) => Err(e),
        }
    } else {
        Err(ErrorKind::UnknownOpcode(op.clone()))
    }
}

} // verus!
