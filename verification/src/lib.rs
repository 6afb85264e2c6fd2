//! The expression tree of PromQL and the checks that a tree must pass before
//! it is handed to an evaluator.
//!
//! A grammar driver builds the tree bottom-up through the constructors of
//! [`parser::Expr`]; each constructor refuses an ill-formed composition with a
//! diagnostic. Once the tree is complete, [`parser::check_ast`] validates the
//! root against the typing rules of the language.

pub mod label;
pub mod parser;
pub mod util;
