//! An expression intermediate representation for filters, projections and
//! computed columns over tabular data: operator vocabulary, a recursive
//! expression tree, construction helpers, traversal, column-reference
//! analysis and textual rendering.

pub mod column_names;
pub mod expression;
pub mod join;
pub mod operators;
pub mod render;
pub mod scalars;

pub use column_names::ColumnName;
pub use expression::Expression;
pub use expression::ExpressionRef;
pub use scalars::DataType;
pub use scalars::Scalar;
pub use operators::BinaryOperator;
pub use operators::UnaryOperator;
pub use operators::VariadicOperator;
