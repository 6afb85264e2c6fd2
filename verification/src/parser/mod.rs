//! The expression tree, its constructors and its checks.

pub mod ast;
pub mod at;
pub mod builder;
pub mod check;
pub mod copy;
pub mod diag;
pub mod function;
pub mod token;
pub mod valid;
pub mod value;

pub use ast::AggregateExpr;
pub use ast::AtModifier;
pub use ast::BinModifier;
pub use ast::BinaryExpr;
pub use ast::Call;
pub use ast::EvalStmt;
pub use ast::Expr;
pub use ast::Extension;
pub use ast::LabelModifier;
pub use ast::MatrixSelector;
pub use ast::NumberLiteral;
pub use ast::Offset;
pub use ast::ParenExpr;
pub use ast::StringLiteral;
pub use ast::SubqueryExpr;
pub use ast::UnaryExpr;
pub use ast::VectorMatchCardinality;
pub use ast::VectorSelector;
pub use function::Function;
pub use function::FunctionArgs;
pub use token::Token;
pub use token::TokenId;
pub use token::TokenType;
pub use value::ValueType;
pub use check::check_ast;
