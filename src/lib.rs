//! Construction and rendering of C type declarators.
//!
//! A [`types::Type`] is a base type, its qualifiers and a stack of pointer,
//! array and function modifiers. The staged builders in [`builder`] produce
//! such values, and [`types::Type::render`] turns one into C text, placing
//! the grouping parentheses that pointer-to-array and pointer-to-function
//! declarators need. Array sizes, bit-field widths and enumerator values are
//! [`expression::Expression`]s over [`literal::Literal`]s; [`declaration`] and
//! [`file`] put declarations together into headers and source files.
pub mod builder;
pub mod declaration;
pub mod error;
pub mod expression;
pub mod file;
pub mod identifier;
pub mod lemmas;
pub mod literal;
pub mod text;
pub mod types;

pub use error::Error;
pub use identifier::Identifier;
