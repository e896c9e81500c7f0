//! The data model: registers, addresses, instructions, and program lines.
//!
//! All entities are immutable value records once constructed.  Construction
//! is fallible: malformed assembly is expected user input, so every validator
//! reports a diagnostic instead of panicking.

use vstd::prelude::*;

use crate::chars::alpha_char;
use crate::chars::is_alpha;
use crate::errors::RegisterError;
use crate::num::parse_i32_token;
use crate::num::parse_reg_index;
use crate::num::spec_i32_token;
use crate::num::spec_reg_index;

verus! {

/// How many general-purpose registers the machine has.
pub const NUM_REG: usize = 8;

/// A validated register index, always in `[0, NUM_REG)`.
#[derive(Debug, Clone, Copy, PartialEq, Eq)]
pub struct Register(usize);

impl View for Register {
    type V = int;

    closed spec fn view(&self) -> int {
        self.0 as int
    }
}

impl Register {
    /// The index is in range by construction.
    #[verifier::type_invariant]
    pub closed spec fn wf(self) -> bool {
        self.0 < NUM_REG
    }

    /// Reads a register operand: a string of decimal digits whose value is
    /// below [`NUM_REG`].  Returns exactly what [`spec_reg_index`] assigns to
    /// the token: the index, or the reason the token is rejected.
    pub fn from_str(src: &str) -> (r: Result<Register, RegisterError>)
        ensures
            match r {
                Ok(reg) => spec_reg_index(src@) == Ok::<int, RegisterError>(reg@),
                Err(e) => spec_reg_index(src@) == Err::<int, RegisterError>(e),
            },
            r matches Ok(reg) ==> 0 <= reg@ < 8,
    {
        match parse_reg_index(src) {
            Ok(u) => Ok(Register(u)),
            Err(e) => Err(e),
        }
    }

    /// The index this register names.
    pub fn value(&self) -> (v: usize)
        ensures
            v == self@,
            0 <= self@ < 8,
    {
        proof {
            use_type_invariant(self);
        }
        self.0
    }
}

/// A token names a label iff it opens with an alphabetic character.
pub open spec fn is_label_token(s: Seq<char>) -> bool {
    s.len() > 0 && is_alpha(s[0])
}

/// The label recognizer: classifies a token, with no third outcome.  Every
/// token either names a label or does not; the empty token does not.
pub fn is_label(s: &str) -> (r: bool)
    ensures
        r == is_label_token(s@),
{
    let n = s.unicode_len();
    if n == 0 {
        false
    } else {
        alpha_char(s.get_char(0))
    }
}

/// An address operand: either a signed 32-bit literal, or a reference to a
/// label declared somewhere in the program.
#[derive(Debug, PartialEq, Eq)]
pub enum Address {
    Literal(i32),
    Symbol(String),
}

/// Mathematical image of an [`Address`].
pub enum AddressModel {
    Literal(int),
    Symbol(Seq<char>),
}

impl View for Address {
    type V = AddressModel;

    open spec fn view(&self) -> AddressModel {
        match self {
            Address::Literal(v) => AddressModel::Literal(*v as int),
            Address::Symbol(s) => AddressModel::Symbol(s@),
        }
    }
}

/// What an address token denotes: a label reference if the token opens with
/// an alphabetic character, otherwise the signed 32-bit literal it spells,
/// otherwise nothing.
pub open spec fn spec_address(s: Seq<char>) -> Option<AddressModel> {
    if is_label_token(s) {
        Some(AddressModel::Symbol(s))
    } else {
        match spec_i32_token(s) {
            Some(v) => Some(AddressModel::Literal(v)),
            None => None,
        }
    }
}

impl Address {
    /// The address disambiguator: a token whose first character is alphabetic
    /// becomes a label reference; any other token must spell a signed 32-bit
    /// literal.  Returns exactly what [`spec_address`] assigns to the token;
    /// `None` stands for an invalid-address diagnostic.
    pub fn from_str(src: &str) -> (r: Option<Address>)
        ensures
            match r {
                Some(a) => spec_address(src@) == Some(a@),
                None => spec_address(src@) is None,
            },
    {
        if is_label(src) {
            Some(Address::Symbol(src.to_owned()))
        } else {
            match parse_i32_token(src) {
                Some(v) => Some(Address::Literal(v)),
                None => None,
            }
        }
    }
}

/// One decoded instruction.  The operand shape of each variant is fixed:
/// three registers for the arithmetic forms, two registers and an address
/// for the memory and branch forms, two registers for the indirect jump,
/// nothing for halt and no-op, and one bare literal for the raw-data
/// directive (which emits a word, not a relocatable reference).
#[derive(Debug, PartialEq, Eq)]
pub enum Instruction {
    Add(Register, Register, Register),
    Nor(Register, Register, Register),
    Lw(Register, Register, Address),
    Sw(Register, Register, Address),
    Beq(Register, Register, Address),
    Jalr(Register, Register),
    Halt,
    Noop,
    Fill(i32),
}

/// Mathematical image of an [`Instruction`].
pub enum InstructionModel {
    Add(int, int, int),
    Nor(int, int, int),
    Lw(int, int, AddressModel),
    Sw(int, int, AddressModel),
    Beq(int, int, AddressModel),
    Jalr(int, int),
    Halt,
    Noop,
    Fill(int),
}

impl View for Instruction {
    type V = InstructionModel;

    open spec fn view(&self) -> InstructionModel {
        match self {
            Instruction::Add(a, b, c) => InstructionModel::Add(a@, b@, c@),
            Instruction::Nor(a, b, c) => InstructionModel::Nor(a@, b@, c@),
            Instruction::Lw(a, b, t) => InstructionModel::Lw(a@, b@, t@),
            Instruction::Sw(a, b, t) => InstructionModel::Sw(a@, b@, t@),
            Instruction::Beq(a, b, t) => InstructionModel::Beq(a@, b@, t@),
            Instruction::Jalr(a, b) => InstructionModel::Jalr(a@, b@),
            Instruction::Halt => InstructionModel::Halt,
            Instruction::Noop => InstructionModel::Noop,
            Instruction::Fill(v) => InstructionModel::Fill(*v as int),
        }
    }
}

/// One parsed source line: its declared label, if any, and its instruction.
#[derive(Debug, PartialEq, Eq)]
pub struct ProgramLine {
    /// The symbol declared on this line, usable elsewhere as a branch or
    /// memory target.
    pub label: Option<String>,
    /// The instruction the line encodes.
    pub instruction: Instruction,
}

/// Mathematical image of a [`ProgramLine`].
pub struct LineModel {
    pub label: Option<Seq<char>>,
    pub instruction: InstructionModel,
}

impl View for ProgramLine {
    type V = LineModel;

    open spec fn view(&self) -> LineModel {
        LineModel { label: self.label.deep_view(), instruction: self.instruction@ }
    }
}

impl DeepView for ProgramLine {
    type V = LineModel;

    open spec fn deep_view(&self) -> LineModel {
        self.view()
    }
}

} // verus!
