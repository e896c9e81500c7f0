//! Front end of an assembler for a small teaching instruction set: eight
//! general-purpose registers, a word-addressed memory, and a fixed repertoire
//! of arithmetic, memory, branch, jump, halt, no-op and raw-data forms.
//!
//! The crate turns line-oriented source text into a validated, ordered
//! sequence of instruction records, each optionally tagged with a symbolic
//! label.  Every line is checked independently; diagnostics for all malformed
//! lines are collected in one pass rather than stopping at the first failure.
//! Resolving label references to numeric offsets and encoding instructions to
//! machine words are left to downstream consumers of the parsed program.

pub mod ast;
pub mod chars;
pub mod decode;
pub mod errors;
pub mod laws;
pub mod num;
pub mod parse;
pub mod split;

pub use ast::Address;
pub use ast::AddressModel;
pub use ast::Instruction;
pub use ast::InstructionModel;
pub use ast::LineModel;
pub use ast::ProgramLine;
pub use ast::Register;
pub use ast::NUM_REG;
pub use errors::ErrorKind;
pub use errors::ErrorModel;
pub use errors::LineError;
pub use errors::LineErrorModel;
pub use errors::OperandKind;
pub use errors::RegisterError;
pub use parse::parse;
pub use parse::parse_line;
