//! Output columns, their expression chains, and the per-row evaluation.

use vstd::prelude::*;

use crate::expression::{apply_spec, Expression};
use crate::row::{Row, Variables};

verus! {

/// One output column: a name for the header plus the ordered, non-empty
/// chain of expressions that computes its value for each row.
#[derive(Debug)]
pub struct Column {
    pub name: String,
    pub chain: Vec<Expression>,
}

/// The left-to-right fold of a chain: starting from `acc`, each expression
/// in list order receives the previous stage's output and yields the next
/// value. Order is significant; stages may depend on their predecessor.
pub open spec fn eval_chain_spec(
    chain: Seq<Expression>,
    acc: Option<Seq<char>>,
    row: Seq<Seq<char>>,
    vars: Seq<(Seq<char>, Seq<char>)>,
) -> Option<Seq<char>>
    decreases chain.len(),
{
    if chain.len() == 0 {
        acc
    } else {
        apply_spec(chain.last(), eval_chain_spec(chain.drop_last(), acc, row, vars), row, vars)
    }
}

/// A column's output field for one row: the chain folded from no value,
/// with an absent final value rendered as empty text.
pub open spec fn column_output_spec(
    chain: Seq<Expression>,
    row: Seq<Seq<char>>,
    vars: Seq<(Seq<char>, Seq<char>)>,
) -> Seq<char> {
    match eval_chain_spec(chain, None, row, vars) {
        Some(value) => value,
        None => Seq::<char>::empty(),
    }
}

/// The whole output row for one input row: one field per column, in column
/// order, each the fold of that column's chain.
pub open spec fn transform_spec(
    columns: Seq<Column>,
    row: Seq<Seq<char>>,
    vars: Seq<(Seq<char>, Seq<char>)>,
) -> Seq<Seq<char>> {
    Seq::new(columns.len(), |i: int| column_output_spec(columns[i].chain@, row, vars))
}

/// Folds `column`'s chain over `row`, threading the optional value left to
/// right, and renders the result as text (empty when the chain yields no
/// value).
pub fn apply_column(column: &Vec<Expression>, row: &Row, vars: &Variables) -> (out: String)
    ensures
        out@ == column_output_spec(column@, row@, vars@),
{
    let mut value: Option<String> = None;
    let mut k: usize = 0;
    while k < column.len()
        invariant
            k <= column.len(),
            value.deep_view() == eval_chain_spec(column@.take(k as int), None, row@, vars@),
        decreases column.len() - k,
    {
        proof {
            assert(column@.take(k + 1).drop_last() =~= column@.take(k as int));
            assert(column@.take(k + 1).last() == column@[k as int]);
        }
        value = column[k].apply(value, row, vars);
        k = k + 1;
    }
    proof {
        assert(column@.take(column.len() as int) =~= column@);
    }
    match value {
        Some(content) => content,
        None => String::new(),
    }
}

/// Every column's chain has at least one expression.
pub open spec fn all_chains_nonempty(columns: Seq<Column>) -> bool {
    forall|i: int| 0 <= i < columns.len() ==> columns[i].chain@.len() > 0
}

/// A configuration rejected at build time, before any row is read.
#[derive(Clone, Copy, Debug, PartialEq, Eq, Structural)]
pub enum ConfigError {
    /// The column at this position has an empty expression chain.
    EmptyChain(usize),
}

/// The immutable, pre-built transformation: the ordered output columns and
/// the materialized output header. Built once, then only read.
#[derive(Debug)]
pub struct Transformer {
    pub columns: Vec<Column>,
    pub headers: Vec<String>,
}

impl Transformer {
    /// The header lists exactly the column names, in column order, and every
    /// chain is non-empty. Construction establishes this; nothing after
    /// construction changes a transformer.
    pub open spec fn wf(self) -> bool {
        &&& self.headers@.len() == self.columns@.len()
        &&& forall|i: int|
            0 <= i < self.columns@.len() ==> self.headers@[i]@ == self.columns@[i].name@
        &&& all_chains_nonempty(self.columns@)
    }

    /// Builds a transformer from the configured columns, materializing the
    /// output header from the column names. Fails, naming the first
    /// offending column, when a chain is empty; succeeds otherwise.
    pub fn new(columns: Vec<Column>) -> (r: Result<Transformer, ConfigError>)
        ensures
            r is Ok <==> all_chains_nonempty(columns@),
            r matches Ok(t) ==> t.wf() && t.columns == columns,
            r matches Err(e) ==> ({
                &&& e matches ConfigError::EmptyChain(k)
                &&& k < columns@.len()
                &&& columns@[k as int].chain@.len() == 0
                &&& forall|j: int| 0 <= j < k ==> columns@[j].chain@.len() > 0
            }),
    {
        let mut k: usize = 0;
        while k < columns.len()
            invariant
                k <= columns.len(),
                forall|j: int| 0 <= j < k ==> columns@[j].chain@.len() > 0,
            decreases columns.len() - k,
        {
            if columns[k].chain.is_empty() {
                return Err(ConfigError::EmptyChain(k));
            }
            k = k + 1;
        }
        let mut headers: Vec<String> = Vec::new();
        let mut j: usize = 0;
        while j < columns.len()
            invariant
                j <= columns.len(),
                headers@.len() == j,
                forall|i: int| 0 <= i < j ==> headers@[i]@ == columns@[i].name@,
            decreases columns.len() - j,
        {
            headers.push(columns[j].name.clone());
            j = j + 1;
        }
        Ok(Transformer { columns, headers })
    }
}

/// Evaluates every column's chain against `row` and assembles the output
/// row: exactly one field per column, in column order, each field the fold
/// of its column's chain over `row` and `vars`.
pub fn transform(row: &Row, transformer: &Transformer, vars: &Variables) -> (out: Row)
    ensures
        out@ == transform_spec(transformer.columns@, row@, vars@),
        out@.len() == transformer.columns@.len(),
        forall|i: int|
            0 <= i < out@.len() ==> out@[i] == column_output_spec(
                transformer.columns@[i].chain@,
                row@,
                vars@,
            ),
{
    let mut fields: Vec<String> = Vec::new();
    let mut k: usize = 0;
    while k < transformer.columns.len()
        invariant
            k <= transformer.columns.len(),
            fields@.len() == k,
            forall|i: int|
                0 <= i < k ==> fields.deep_view()[i] == column_output_spec(
                    transformer.columns@[i].chain@,
                    row@,
                    vars@,
                ),
        decreases transformer.columns.len() - k,
    {
        let field = apply_column(&transformer.columns[k].chain, row, vars);
        let ghost prev = fields.deep_view();
        fields.push(field);
        proof {
            assert(fields.deep_view() =~= prev.push(field@));
        }
        k = k + 1;
    }
    let out = Row::new(fields);
    proof {
        assert(out@ =~= transform_spec(transformer.columns@, row@, vars@));
    }
    out
}

/// A chain of a single literal expression yields that literal for every row
/// and every variable set, regardless of row content.
pub proof fn lemma_literal_chain(
    text: String,
    row: Seq<Seq<char>>,
    vars: Seq<(Seq<char>, Seq<char>)>,
)
    ensures
        column_output_spec(seq![Expression::Literal(text)], row, vars) == text@,
{
    let chain = seq![Expression::Literal(text)];
    assert(chain.drop_last() =~= Seq::<Expression>::empty());
    assert(chain.last() == Expression::Literal(text));
}

/// An expression that only consumes the accumulated value: it yields `None`
/// whenever it receives `None`.
pub open spec fn consumes_previous(e: Expression) -> bool {
    e matches Expression::ConcatField(_)
}

/// A chain that opens with a reference to a field the row does not have
/// yields no value — the absence propagates through any tail of
/// value-consuming expressions rather than crashing — and the column's
/// output field is then empty text.
pub proof fn lemma_absent_field_suppresses(
    chain: Seq<Expression>,
    i: usize,
    row: Seq<Seq<char>>,
    vars: Seq<(Seq<char>, Seq<char>)>,
)
    requires
        chain.len() > 0,
        chain[0] == Expression::FieldRef(i),
        row.len() <= i,
        forall|j: int| 1 <= j < chain.len() ==> consumes_previous(chain[j]),
    ensures
        eval_chain_spec(chain, None, row, vars) is None,
        column_output_spec(chain, row, vars) == Seq::<char>::empty(),
    decreases chain.len(),
{
    if chain.len() == 1 {
        assert(chain.drop_last() =~= Seq::<Expression>::empty());
        assert(chain.last() == chain[0]);
    } else {
        lemma_absent_field_suppresses(chain.drop_last(), i, row, vars);
    }
}

/// Running the same transformer over the same row twice yields identical
/// output: the output row is a function of the columns, the row and the
/// variables alone, with no hidden per-row state and no change to the
/// variables.
pub proof fn lemma_transform_repeatable(
    columns: Seq<Column>,
    row: Seq<Seq<char>>,
    vars: Seq<(Seq<char>, Seq<char>)>,
    first: Seq<Seq<char>>,
    second: Seq<Seq<char>>,
)
    requires
        first == transform_spec(columns, row, vars),
        second == transform_spec(columns, row, vars),
    ensures
        first == second,
{
}

/// Reordering the configured columns reorders the output fields in exactly
/// the same way, with no change to any field's value: each output field
/// depends only on its own column's chain, the row and the variables, never
/// on the other columns or on the input field order.
pub proof fn lemma_column_reorder(
    before: Seq<Column>,
    after: Seq<Column>,
    pos: Seq<int>,
    row: Seq<Seq<char>>,
    vars: Seq<(Seq<char>, Seq<char>)>,
)
    requires
        after.len() == pos.len(),
        forall|j: int| 0 <= j < pos.len() ==> 0 <= #[trigger] pos[j] < before.len(),
        forall|j: int| 0 <= j < pos.len() ==> #[trigger] after[j] == before[pos[j]],
    ensures
        transform_spec(after, row, vars).len() == after.len(),
        forall|j: int|
            0 <= j < after.len() ==> transform_spec(after, row, vars)[j] == transform_spec(
                before,
                row,
                vars,
            )[pos[j]],
{
}

} // verus!
