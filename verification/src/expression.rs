//! The expression vocabulary and its evaluation contract.

use vstd::prelude::*;

use crate::row::{lookup_spec, Row, Variables};

verus! {

/// One stage of a column's chain.
///
/// An expression consumes the value accumulated so far (`None` before the
/// first stage runs), together with read-only access to the current row and
/// the variable set, and produces a new optional value. Producers ignore the
/// accumulated value; consumers extend it. A `None` result is legitimate
/// ("value absent, suppress") and is handed to the next stage unchanged in
/// meaning: each stage decides for itself how to react to a missing upstream
/// value.
#[derive(Debug)]
pub enum Expression {
    /// Produces this fixed text, ignoring the accumulated value and the row.
    Literal(String),
    /// Produces the row field at this position, or `None` when the row is too
    /// short. The position is resolved from a field name once, at build time.
    FieldRef(usize),
    /// Produces the value of this variable, or `None` when it is undefined.
    VarRef(String),
    /// Appends the row field at this position to the accumulated value.
    /// Yields `None` when there is no accumulated value yet or the row is too
    /// short: a missing upstream value stays missing.
    ConcatField(usize),
}

/// What one expression yields from an accumulated value, a row and the
/// variable set. Pure: a function of these three inputs alone.
pub open spec fn apply_spec(
    e: Expression,
    acc: Option<Seq<char>>,
    row: Seq<Seq<char>>,
    vars: Seq<(Seq<char>, Seq<char>)>,
) -> Option<Seq<char>> {
    match e {
        Expression::Literal(text) => Some(text@),
        Expression::FieldRef(i) => if i < row.len() {
            Some(row[i as int])
        } else {
            None
        },
        Expression::VarRef(name) => lookup_spec(vars, name@),
        Expression::ConcatField(i) => match acc {
            Some(prev) => if i < row.len() {
                Some(prev + row[i as int])
            } else {
                None
            },
            None => None,
        },
    }
}

impl Expression {
    /// Evaluates one stage: exactly `apply_spec`, with no effect on the row
    /// or the variables.
    pub fn apply(&self, acc: Option<String>, row: &Row, vars: &Variables) -> (r: Option<String>)
        ensures
            r.deep_view() == apply_spec(*self, acc.deep_view(), row@, vars@),
    {
        match self {
            Expression::Literal(text) => Some(text.clone()),
            Expression::FieldRef(i) => match row.get(*i) {
                Some(field) => Some(field.clone()),
                None => None,
            },
            Expression::VarRef(name) => vars.get(name),
            Expression::ConcatField(i) => match acc {
                Some(prev) => match row.get(*i) {
                    Some(field) => Some(prev.concat(field.as_str())),
                    None => None,
                },
                None => None,
            },
        }
    }
}

/// A variable read observes the same value at every chain position, under
/// every accumulated value and every row: evaluation never changes the
/// variable set, so independent chains that read one variable agree on it.
pub proof fn lemma_variable_read_constant(
    name: String,
    acc1: Option<Seq<char>>,
    acc2: Option<Seq<char>>,
    row1: Seq<Seq<char>>,
    row2: Seq<Seq<char>>,
    vars: Seq<(Seq<char>, Seq<char>)>,
)
    ensures
        apply_spec(Expression::VarRef(name), acc1, row1, vars) == lookup_spec(vars, name@),
        apply_spec(Expression::VarRef(name), acc1, row1, vars) == apply_spec(
            Expression::VarRef(name),
            acc2,
            row2,
            vars,
        ),
{
}

} // verus!
