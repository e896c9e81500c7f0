//! The line parser and the program parser.
//!
//! A line is split into whitespace-separated tokens; its first token is
//! always the label slot.  A token there that names a label (first character
//! alphabetic) becomes the line's declared label; any other first token is a
//! placeholder and the line carries no label.  Either way the tokens after
//! the slot — opcode first — go to the instruction decoder.  This mirrors the
//! fixed-column source convention in which every line carries a first field,
//! so an unlabelled line must spell a placeholder (such as `_`) there.
//!
//! The program parser applies the line parser to every line, in order, and
//! collects every per-line diagnostic instead of stopping at the first one:
//! an assembler front end is more useful reporting all malformed lines in a
//! single pass.  Only if no line fails does it return the program, whose
//! positions are the lines' implicit memory addresses.

use vstd::prelude::*;

use crate::ast::is_label;
use crate::ast::is_label_token;
use crate::ast::LineModel;
use crate::ast::ProgramLine;
use crate::decode::decode_instruction;
use crate::decode::spec_decode;
use crate::errors::ErrorKind;
use crate::errors::ErrorModel;
use crate::errors::LineError;
use crate::errors::LineErrorModel;
use crate::split::lines_of;
use crate::split::split_lines;
use crate::split::tokenize;
use crate::split::tokens_of;

verus! {

/// What one source line parses to: its optional label and its instruction,
/// or the diagnostic it raises.  A line with no tokens at all is not a valid
/// instruction line.
pub open spec fn spec_parse_line(line: Seq<char>) -> Result<LineModel, ErrorModel> {
    let toks = tokens_of(line);
    if toks.len() == 0 {
        Err(ErrorModel::EmptyLine)
    } else {
        let label = if is_label_token(toks[0]) {
            Some(toks[0])
        } else {
            None
        };
        match spec_decode(toks.skip(1)) {
            Ok(i) => Ok(LineModel { label, instruction: i }),
            Err(e) => Err(e),
        }
    }
}

/// Mathematical image of a line-parse result.
pub open spec fn line_result_model(r: Result<ProgramLine, ErrorKind>) -> Result<
    LineModel,
    ErrorModel,
> {
    match r {
        Ok(p) => Ok(p@),
        Err(e) => Err(e@),
    }
}

/// Parses one line of source text.  The result mirrors [`spec_parse_line`]
/// exactly.
pub fn parse_line(line: &str) -> (r: Result<ProgramLine, ErrorKind>)
    ensures
        line_result_model(r) == spec_parse_line(line@),
{
    let toks = tokenize(line);
    if toks.len() == 0 {
        proof {
            assert(toks.deep_view().len() == 0);
        }
        return Err(ErrorKind::EmptyLine);
    }
    proof {
        assert(toks.deep_view()[0] == toks@[0]@);
    }
    let label = if is_label(toks[0].as_str()) {
        Some(toks[0].clone())
    } else {
        None
    };
    let mut rest: Vec<String> = Vec::new();
    let mut i: usize = 1;
    proof {
        assert(rest.deep_view() =~= toks.deep_view().subrange(1, 1));
    }
    while i < toks.len()
        invariant
            1 <= i <= toks@.len(),
            rest.deep_view() == toks.deep_view().subrange(1, i as int),
        decreases toks@.len() - i,
    {
        let ghost pre = rest.deep_view();
        let t = toks[i].clone();
        rest.push(t);
        proof {
            assert(rest.deep_view() =~= pre.push(toks.deep_view()[i as int]));
            assert(pre.push(toks.deep_view()[i as int]) =~= toks.deep_view().subrange(
                1,
                i as int + 1,
            ));
        }
        i = i + 1;
    }
    proof {
        assert(toks.deep_view().subrange(1, toks@.len() as int) =~= toks.deep_view().skip(1));
    }
    match decode_instruction(&rest) {
        Ok(instr) => Ok(ProgramLine { label, instruction: instr }),
        Err(e) => Err(e),
    }
}

/// The program lines among the first `n` lines that parse, in source order.
pub open spec fn oks_upto(ls: Seq<Seq<char>>, n: int) -> Seq<LineModel>
    decreases n,
{
    if n <= 0 {
        Seq::empty()
    } else {
        let prev = oks_upto(ls, n - 1);
        match spec_parse_line(ls[n - 1]) {
            Ok(l) => prev.push(l),
            Err(_) => prev,
        }
    }
}

/// The diagnostics raised by the first `n` lines, in source order, each
/// tagged with its 1-based line number and the raw line text.
pub open spec fn errs_upto(ls: Seq<Seq<char>>, n: int) -> Seq<LineErrorModel>
    decreases n,
{
    if n <= 0 {
        Seq::empty()
    } else {
        let prev = errs_upto(ls, n - 1);
        match spec_parse_line(ls[n - 1]) {
            Ok(_) => prev,
            Err(k) => prev.push(LineErrorModel { line_number: n, line: ls[n - 1], kind: k }),
        }
    }
}

/// What the whole source text parses to: the ordered program if every line
/// parses, otherwise every line diagnostic, in source order.
pub open spec fn spec_parse_program(src: Seq<char>) -> Result<Seq<LineModel>, Seq<LineErrorModel>> {
    let ls = lines_of(src);
    let errs = errs_upto(ls, ls.len() as int);
    if errs.len() == 0 {
        Ok(oks_upto(ls, ls.len() as int))
    } else {
        Err(errs)
    }
}

/// Mathematical image of a program-parse result.
pub open spec fn program_result_model(r: Result<Vec<ProgramLine>, Vec<LineError>>) -> Result<
    Seq<LineModel>,
    Seq<LineErrorModel>,
> {
    match r {
        Ok(v) => Ok(v.deep_view()),
        Err(e) => Err(e.deep_view()),
    }
}

/// Parses the whole source text, line by line and in order.  The result
/// mirrors [`spec_parse_program`] exactly: all diagnostics are collected —
/// none is fatal to the rest of the pass — and the program comes back only
/// when every line parsed.
pub fn parse(src: &str) -> (r: Result<Vec<ProgramLine>, Vec<LineError>>)
    ensures
        program_result_model(r) == spec_parse_program(src@),
{
    let lines = split_lines(src);
    let ghost ls = lines_of(src@);
    let mut oks: Vec<ProgramLine> = Vec::new();
    let mut errs: Vec<LineError> = Vec::new();
    let mut idx: usize = 0;
    proof {
        assert(oks.deep_view() =~= oks_upto(ls, 0));
        assert(errs.deep_view() =~= errs_upto(ls, 0));
    }
    while idx < lines.len()
        invariant
            0 <= idx <= lines@.len(),
            lines.deep_view() == lines_of(src@),
            ls == lines_of(src@),
            oks.deep_view() == oks_upto(ls, idx as int),
            errs.deep_view() == errs_upto(ls, idx as int),
        decreases lines@.len() - idx,
    {
        proof {
            assert(lines@[idx as int]@ == ls[idx as int]);
        }
        match parse_line(lines[idx].as_str()) {
            Ok(pl) => {
                let ghost pre = oks.deep_view();
                oks.push(pl);
                proof {
                    assert(oks.deep_view() =~= pre.push(pl@));
                }
            },
            Err(k) => {
                let ghost pre = errs.deep_view();
                let raw = lines[idx].clone();
                let err = LineError { line_number: idx + 1, line: raw, kind: k };
                errs.push(err);
                proof {
                    assert(errs.deep_view() =~= pre.push(
                        LineErrorModel {
                            line_number: idx as int + 1,
                            line: ls[idx as int],
                            kind: k@,
                        },
                    ));
                }
            },
        }
        idx = idx + 1;
    }
    if errs.len() == 0 {
        proof {
            assert(errs.deep_view().len() == 0);
        }
        Ok(oks)
    } else {
        proof {
            assert(errs.deep_view().len() > 0);
        }
        Err(errs)
    }
}

} // verus!
