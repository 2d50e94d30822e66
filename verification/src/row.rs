//! Input records and the process-wide variable set.

use vstd::prelude::*;

verus! {

/// One record of ordered text fields, as split out of the input stream.
///
/// A row is immutable while it is being evaluated. Its field count is not
/// checked against any schema: ragged input is accepted, and an out-of-range
/// field access is answered with `None` by the accessors, never a panic.
pub struct Row {
    pub fields: Vec<String>,
}

impl View for Row {
    type V = Seq<Seq<char>>;

    open spec fn view(&self) -> Seq<Seq<char>> {
        self.fields.deep_view()
    }
}

impl Row {
    /// Wraps an already-split list of fields as a row.
    pub fn new(fields: Vec<String>) -> (r: Row)
        ensures
            r@ == fields.deep_view(),
    {
        Row { fields }
    }

    /// The number of fields in this row.
    pub fn len(&self) -> (n: usize)
        ensures
            n == self@.len(),
    {
        self.fields.len()
    }

    /// The field at `index`, or `None` when the row is too short.
    pub fn get(&self, index: usize) -> (r: Option<&String>)
        ensures
            match r {
                Some(f) => index < self@.len() && f@ == self@[index as int],
                None => index >= self@.len(),
            },
    {
        if index < self.fields.len() {
            Some(&self.fields[index])
        } else {
            None
        }
    }
}

/// The value bound to `name` in `pairs`, with the latest binding winning.
pub open spec fn lookup_spec(pairs: Seq<(Seq<char>, Seq<char>)>, name: Seq<char>) -> Option<
    Seq<char>,
>
    decreases pairs.len(),
{
    if pairs.len() == 0 {
        None
    } else if pairs.last().0 == name {
        Some(pairs.last().1)
    } else {
        lookup_spec(pairs.drop_last(), name)
    }
}

/// The process-scoped mapping from variable name to text value.
///
/// It is filled once at startup and only read afterwards; evaluation never
/// changes it. Defining a name again overrides the earlier binding.
pub struct Variables {
    pub pairs: Vec<(String, String)>,
}

impl View for Variables {
    type V = Seq<(Seq<char>, Seq<char>)>;

    open spec fn view(&self) -> Seq<(Seq<char>, Seq<char>)> {
        self.pairs.deep_view()
    }
}

impl Variables {
    /// An empty variable set.
    pub fn new() -> (r: Variables)
        ensures
            r@ == Seq::<(Seq<char>, Seq<char>)>::empty(),
    {
        Variables { pairs: Vec::new() }
    }

    /// Binds `name` to `value`, overriding any earlier binding of `name`.
    pub fn define(&mut self, name: String, value: String)
        ensures
            final(self)@ == old(self)@.push((name@, value@)),
    {
        self.pairs.push((name, value));
    }

    /// The value bound to `name`, or `None` when `name` was never defined.
    pub fn get(&self, name: &String) -> (r: Option<String>)
        ensures
            r.deep_view() == lookup_spec(self@, name@),
    {
        let mut found: Option<String> = None;
        let mut k: usize = 0;
        while k < self.pairs.len()
            invariant
                k <= self.pairs.len(),
                found.deep_view() == lookup_spec(self@.take(k as int), name@),
            decreases self.pairs.len() - k,
        {
            proof {
                assert(self@.take(k + 1).drop_last() =~= self@.take(k as int));
                assert(self@.take(k + 1).last() == self@[k as int]);
            }
            if self.pairs[k].0 == *name {
                found = Some(self.pairs[k].1.clone());
            }
            k = k + 1;
        }
        proof {
            assert(self@.take(self.pairs.len() as int) =~= self@);
        }
        found
    }
}

/// The position of `name` in the header row `header`: the first index whose
/// field equals `name`, or `None` when no field does. Resolving names once,
/// against the header, turns unknown-field mistakes into build-time errors.
pub fn resolve_field(header: &Row, name: &String) -> (r: Option<usize>)
    ensures
        match r {
            Some(i) => i < header@.len() && header@[i as int] == name@ && (forall|j: int|
                0 <= j < i ==> header@[j] != name@),
            None => forall|j: int| 0 <= j < header@.len() ==> header@[j] != name@,
        },
{
    let mut k: usize = 0;
    while k < header.fields.len()
        invariant
            k <= header.fields.len(),
            forall|j: int| 0 <= j < k ==> header@[j] != name@,
        decreases header.fields.len() - k,
    {
        if header.fields[k] == *name {
            return Some(k);
        }
        k = k + 1;
    }
    None
}

} // verus!
