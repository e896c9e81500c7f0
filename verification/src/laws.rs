//! The library's general laws, stated over the specification functions that
//! the executable contracts mirror, and proved once for all inputs.

use vstd::prelude::*;

use crate::ast::is_label_token;
use crate::ast::spec_address;
use crate::ast::AddressModel;
use crate::ast::InstructionModel;
use crate::ast::LineModel;
use crate::chars::is_alpha;
use crate::decode::kw_add;
use crate::decode::kw_beq;
use crate::decode::kw_fill;
use crate::decode::kw_halt;
use crate::decode::kw_jalr;
use crate::decode::kw_lw;
use crate::decode::kw_noop;
use crate::decode::kw_nor;
use crate::decode::kw_sw;
use crate::decode::spec_addr_operand;
use crate::decode::spec_decode;
use crate::decode::spec_fill_operand;
use crate::decode::spec_reg_operand;
use crate::errors::ErrorModel;
use crate::num::lemma_digits_val_nonneg;
use crate::num::spec_i32_token;
use crate::num::spec_reg_index;
use crate::parse::errs_upto;
use crate::parse::oks_upto;
use crate::parse::spec_parse_line;
use crate::parse::spec_parse_program;
use crate::split::lines_of;
use crate::split::tokens_of;

verus! {

/// Range invariant: a successful register parse never yields an index at or
/// above the register count; no token parses to eight or more.
pub proof fn lemma_register_range(t: Seq<char>)
    ensures
        spec_reg_index(t) matches Ok(v) ==> 0 <= v < 8,
{
    if spec_reg_index(t) is Ok {
        lemma_digits_val_nonneg(t);
    }
}

/// Label invariant: every label attached to a successfully parsed line
/// opens with an alphabetic character.
pub proof fn lemma_label_alphabetic(line: Seq<char>)
    ensures
        spec_parse_line(line) matches Ok(l) ==> (l.label matches Some(name) ==> name.len() > 0
            && is_alpha(name[0])),
{
}

/// Disambiguation: a token becomes a label reference exactly when its first
/// character is alphabetic; any other token must spell a signed 32-bit
/// literal, and is rejected when it does not.
pub proof fn lemma_address_disambiguation(t: Seq<char>)
    ensures
        is_label_token(t) ==> spec_address(t) == Some(AddressModel::Symbol(t)),
        !is_label_token(t) ==> (spec_i32_token(t) matches Some(v) ==> spec_address(t) == Some(
            AddressModel::Literal(v),
        )),
        (!is_label_token(t) && spec_i32_token(t) is None) ==> spec_address(t) is None,
        spec_address(t) matches Some(AddressModel::Symbol(name)) ==> (is_label_token(t) && name
            == t),
{
}

/// How many operand tokens each instruction form requires.
pub open spec fn operand_arity(i: InstructionModel) -> int {
    match i {
        InstructionModel::Add(_, _, _) => 3,
        InstructionModel::Nor(_, _, _) => 3,
        InstructionModel::Lw(_, _, _) => 3,
        InstructionModel::Sw(_, _, _) => 3,
        InstructionModel::Beq(_, _, _) => 3,
        InstructionModel::Jalr(_, _) => 2,
        InstructionModel::Halt => 0,
        InstructionModel::Noop => 0,
        InstructionModel::Fill(_) => 1,
    }
}

/// The keyword that names each instruction form.
pub open spec fn opcode_of(i: InstructionModel) -> Seq<char> {
    match i {
        InstructionModel::Add(_, _, _) => kw_add(),
        InstructionModel::Nor(_, _, _) => kw_nor(),
        InstructionModel::Lw(_, _, _) => kw_lw(),
        InstructionModel::Sw(_, _, _) => kw_sw(),
        InstructionModel::Beq(_, _, _) => kw_beq(),
        InstructionModel::Jalr(_, _) => kw_jalr(),
        InstructionModel::Halt => kw_halt(),
        InstructionModel::Noop => kw_noop(),
        InstructionModel::Fill(_) => kw_fill(),
    }
}

/// Each operand of the decoded instruction came from the token at its own
/// position, accepted by that operand kind's validator.
pub open spec fn decode_faithful(i: InstructionModel, toks: Seq<Seq<char>>) -> bool {
    let args = toks.skip(1);
    match i {
        InstructionModel::Add(a, b, c) => spec_reg_operand(args, 1) == Ok::<int, ErrorModel>(a)
            && spec_reg_operand(args, 2) == Ok::<int, ErrorModel>(b) && spec_reg_operand(args, 3)
            == Ok::<int, ErrorModel>(c),
        InstructionModel::Nor(a, b, c) => spec_reg_operand(args, 1) == Ok::<int, ErrorModel>(a)
            && spec_reg_operand(args, 2) == Ok::<int, ErrorModel>(b) && spec_reg_operand(args, 3)
            == Ok::<int, ErrorModel>(c),
        InstructionModel::Lw(a, b, t) => spec_reg_operand(args, 1) == Ok::<int, ErrorModel>(a)
            && spec_reg_operand(args, 2) == Ok::<int, ErrorModel>(b) && spec_addr_operand(args, 3)
            == Ok::<AddressModel, ErrorModel>(t),
        InstructionModel::Sw(a, b, t) => spec_reg_operand(args, 1) == Ok::<int, ErrorModel>(a)
            && spec_reg_operand(args, 2) == Ok::<int, ErrorModel>(b) && spec_addr_operand(args, 3)
            == Ok::<AddressModel, ErrorModel>(t),
        InstructionModel::Beq(a, b, t) => spec_reg_operand(args, 1) == Ok::<int, ErrorModel>(a)
            && spec_reg_operand(args, 2) == Ok::<int, ErrorModel>(b) && spec_addr_operand(args, 3)
            == Ok::<AddressModel, ErrorModel>(t),
        InstructionModel::Jalr(a, b) => spec_reg_operand(args, 1) == Ok::<int, ErrorModel>(a)
            && spec_reg_operand(args, 2) == Ok::<int, ErrorModel>(b),
        InstructionModel::Halt => true,
        InstructionModel::Noop => true,
        InstructionModel::Fill(v) => spec_fill_operand(args) == Ok::<int, ErrorModel>(v),
    }
}

/// Shape invariant: a successful decode found at least the operand tokens
/// its keyword requires — count and kinds per the instruction table — filled
/// each operand from the token at its position, and tagged the variant with
/// the very keyword that stood in the opcode slot.
pub proof fn lemma_decode_shape(toks: Seq<Seq<char>>)
    ensures
        spec_decode(toks) matches Ok(i) ==> {
            &&& toks.len() >= 1 + operand_arity(i)
            &&& toks[0] == opcode_of(i)
            &&& decode_faithful(i, toks)
        },
{
}

/// Shape invariant at the line level: the instruction of every successfully
/// parsed line decodes faithfully from the line's statement tokens — the
/// tokens after the label slot.
pub proof fn lemma_line_instruction_shape(line: Seq<char>)
    ensures
        spec_parse_line(line) matches Ok(l) ==> {
            let stmt = tokens_of(line).skip(1);
            &&& spec_decode(stmt) == Ok::<InstructionModel, ErrorModel>(l.instruction)
            &&& stmt.len() >= 1 + operand_arity(l.instruction)
            &&& stmt[0] == opcode_of(l.instruction)
            &&& decode_faithful(l.instruction, stmt)
        },
{
    lemma_decode_shape(tokens_of(line).skip(1));
}

/// How many of the first `n` lines are malformed.
pub open spec fn malformed_upto(ls: Seq<Seq<char>>, n: int) -> int
    decreases n,
{
    if n <= 0 {
        0
    } else {
        malformed_upto(ls, n - 1) + if spec_parse_line(ls[n - 1]) is Err {
            1int
        } else {
            0int
        }
    }
}

proof fn lemma_split_counts(ls: Seq<Seq<char>>, n: int)
    requires
        0 <= n <= ls.len(),
    ensures
        errs_upto(ls, n).len() == malformed_upto(ls, n),
        oks_upto(ls, n).len() == n - malformed_upto(ls, n),
        forall|j: int|
            0 <= j < errs_upto(ls, n).len() ==> {
                let e = #[trigger] errs_upto(ls, n)[j];
                &&& 1 <= e.line_number <= n
                &&& e.line == ls[e.line_number - 1]
                &&& spec_parse_line(ls[e.line_number - 1]) == Err::<LineModel, ErrorModel>(e.kind)
            },
        forall|j1: int, j2: int|
            0 <= j1 < j2 < errs_upto(ls, n).len() ==> errs_upto(ls, n)[j1].line_number < errs_upto(
                ls,
                n,
            )[j2].line_number,
    decreases n,
{
    if n > 0 {
        lemma_split_counts(ls, n - 1);
    }
}

/// Aggregation: on source whose lines include exactly `k` malformed ones,
/// the parse reports exactly `k` diagnostics — each tagged with its correct
/// 1-based line number, that line's raw text and its failure, in increasing
/// line order — and none is fatal to the rest; with `k == 0` it returns the
/// whole program, one entry per line.
pub proof fn lemma_aggregation(src: Seq<char>)
    ensures
        ({
            let ls = lines_of(src);
            let n = ls.len() as int;
            let k = malformed_upto(ls, n);
            match spec_parse_program(src) {
                Ok(prog) => k == 0 && prog.len() == n,
                Err(es) => {
                    &&& es.len() == k
                    &&& k > 0
                    &&& forall|j: int|
                        0 <= j < es.len() ==> {
                            let e = #[trigger] es[j];
                            &&& 1 <= e.line_number <= n
                            &&& e.line == ls[e.line_number - 1]
                            &&& spec_parse_line(ls[e.line_number - 1]) == Err::<
                                LineModel,
                                ErrorModel,
                            >(e.kind)
                        }
                    &&& forall|j1: int, j2: int|
                        0 <= j1 < j2 < es.len() ==> es[j1].line_number < es[j2].line_number
                },
            }
        }),
{
    let ls = lines_of(src);
    lemma_split_counts(ls, ls.len() as int);
}

} // verus!
