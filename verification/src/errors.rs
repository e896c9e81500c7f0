//! Diagnostics reported for malformed source text.
//!
//! Every failure is line-scoped and recoverable: a validator failure becomes
//! an [`ErrorKind`] carrying the operand position it concerns, and the program
//! parser wraps it into a [`LineError`] carrying the 1-based line number and
//! the raw line text, so a caller can report a precise diagnostic.

use vstd::prelude::*;

verus! {

/// Why a token was rejected as a register operand.
#[derive(Debug, Clone, Copy, PartialEq, Eq)]
pub enum RegisterError {
    /// The token is not a string of decimal digits.
    NotNumeric,
    /// The token is a number, but not a valid register index.
    OutOfRange,
}

/// The kind of field the instruction decoder expected to find.
#[derive(Debug, Clone, Copy, PartialEq, Eq)]
pub enum OperandKind {
    /// The instruction keyword itself (position 0 of a statement).
    Opcode,
    /// A register index operand.
    Register,
    /// An address operand: a numeric literal or a label reference.
    Address,
    /// A bare signed numeric literal (the raw-data directive's operand).
    Literal,
}

/// A line-scoped parse failure.  Operand positions are 1-based, counted from
/// the first token after the opcode; position 0 names the opcode slot.
#[derive(Debug, PartialEq, Eq)]
pub enum ErrorKind {
    /// The line holds no tokens at all.
    EmptyLine,
    /// The opcode slot holds a keyword outside the instruction repertoire.
    UnknownOpcode(String),
    /// The line ended before the operand at this position was found.
    MissingOperand(OperandKind, usize),
    /// The operand at this position failed register validation.
    InvalidRegister(RegisterError, usize),
    /// The operand at this position is neither a label nor a 32-bit literal.
    InvalidAddress(usize),
    /// The raw-data operand is not a signed 32-bit literal.
    InvalidFillValue(usize),
}

/// Mathematical image of an [`ErrorKind`]: token text becomes a `Seq<char>`.
pub enum ErrorModel {
    EmptyLine,
    UnknownOpcode(Seq<char>),
    MissingOperand(OperandKind, usize),
    InvalidRegister(RegisterError, usize),
    InvalidAddress(usize),
    InvalidFillValue(usize),
}

impl View for ErrorKind {
    type V = ErrorModel;

    open spec fn view(&self) -> ErrorModel {
        match self {
            ErrorKind::EmptyLine => ErrorModel::EmptyLine,
            ErrorKind::UnknownOpcode(s) => ErrorModel::UnknownOpcode(s@),
            ErrorKind::MissingOperand(k, p) => ErrorModel::MissingOperand(*k, *p),
            ErrorKind::InvalidRegister(c, p) => ErrorModel::InvalidRegister(*c, *p),
            ErrorKind::InvalidAddress(p) => ErrorModel::InvalidAddress(*p),
            ErrorKind::InvalidFillValue(p) => ErrorModel::InvalidFillValue(*p),
        }
    }
}

impl DeepView for ErrorKind {
    type V = ErrorModel;

    open spec fn deep_view(&self) -> ErrorModel {
        self.view()
    }
}

/// A diagnostic for one malformed source line.
#[derive(Debug, PartialEq, Eq)]
pub struct LineError {
    /// 1-based number of the offending line.
    pub line_number: usize,
    /// The raw text of the offending line.
    pub line: String,
    /// What went wrong on it.
    pub kind: ErrorKind,
}

/// Mathematical image of a [`LineError`].
pub struct LineErrorModel {
    pub line_number: int,
    pub line: Seq<char>,
    pub kind: ErrorModel,
}

impl View for LineError {
    type V = LineErrorModel;

    open spec fn view(&self) -> LineErrorModel {
        LineErrorModel {
            line_number: self.line_number as int,
            line: self.line@,
            kind: self.kind@,
        }
    }
}

impl DeepView for LineError {
    type V = LineErrorModel;

    open spec fn deep_view(&self) -> LineErrorModel {
        self.view()
    }
}

} // verus!
