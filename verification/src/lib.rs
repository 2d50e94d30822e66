//! A row-transformation engine for delimited tabular data.
//!
//! Each output column is bound to an ordered chain of expressions. For every
//! input row the chain is folded left to right, threading an optional text
//! value; the final value (empty text when absent) becomes that column's
//! output field. Rows are independent: the transformer and the variable set
//! are built once and never change afterwards.

pub mod expression;
pub mod row;
pub mod transformer;
