use rowpipe::expression::Expression;
use rowpipe::row::{resolve_field, Row, Variables};
use rowpipe::transformer::{apply_column, transform, Column, ConfigError, Transformer};

fn s(text: &str) -> String {
    text.to_string()
}

fn row(fields: &[&str]) -> Row {
    Row::new(fields.iter().map(|f| s(f)).collect())
}

fn fields_of(r: &Row) -> Vec<String> {
    r.fields.clone()
}

#[test]
fn literal_chain_ignores_row() {
    let chain = vec![Expression::Literal(s("fixed"))];
    let vars = Variables::new();
    assert_eq!(apply_column(&chain, &row(&["a", "b"]), &vars), "fixed");
    assert_eq!(apply_column(&chain, &row(&[]), &vars), "fixed");
    assert_eq!(apply_column(&chain, &row(&["x", "y", "z"]), &vars), "fixed");
}

#[test]
fn absent_field_yields_empty() {
    let chain = vec![Expression::FieldRef(5)];
    let vars = Variables::new();
    assert_eq!(apply_column(&chain, &row(&["only", "two"]), &vars), "");
}

#[test]
fn absent_field_suppresses_through_tail() {
    let chain = vec![Expression::FieldRef(5), Expression::ConcatField(0)];
    let vars = Variables::new();
    assert_eq!(apply_column(&chain, &row(&["present"]), &vars), "");
}

#[test]
fn concat_without_previous_value_yields_empty() {
    let chain = vec![Expression::ConcatField(0)];
    let vars = Variables::new();
    assert_eq!(apply_column(&chain, &row(&["present"]), &vars), "");
}

#[test]
fn field_ref_copies_field() {
    let chain = vec![Expression::FieldRef(1)];
    let vars = Variables::new();
    assert_eq!(apply_column(&chain, &row(&["a", "b", "c"]), &vars), "b");
}

#[test]
fn variable_chain_reads_variable() {
    let mut vars = Variables::new();
    vars.define(s("city"), s("Lisbon"));
    let chain = vec![Expression::VarRef(s("city"))];
    assert_eq!(apply_column(&chain, &row(&[]), &vars), "Lisbon");
}

#[test]
fn undefined_variable_yields_empty() {
    let vars = Variables::new();
    let chain = vec![Expression::VarRef(s("missing"))];
    assert_eq!(apply_column(&chain, &row(&["a"]), &vars), "");
}

#[test]
fn later_definition_overrides() {
    let mut vars = Variables::new();
    vars.define(s("k"), s("first"));
    vars.define(s("k"), s("second"));
    assert_eq!(vars.get(&s("k")), Some(s("second")));
    assert_eq!(vars.get(&s("absent")), None);
}

#[test]
fn two_chains_observe_same_variable() {
    let mut vars = Variables::new();
    vars.define(s("shared"), s("stable"));
    let first = vec![Expression::VarRef(s("shared"))];
    let second = vec![
        Expression::Literal(s("pre ")),
        Expression::ConcatField(0),
    ];
    let r = row(&["x"]);
    let a = apply_column(&first, &r, &vars);
    let _ = apply_column(&second, &r, &vars);
    let b = apply_column(&first, &r, &vars);
    assert_eq!(a, "stable");
    assert_eq!(b, "stable");
}

#[test]
fn transform_twice_yields_identical_rows() {
    let mut vars = Variables::new();
    vars.define(s("v"), s("val"));
    let columns = vec![
        Column { name: s("a"), chain: vec![Expression::FieldRef(0)] },
        Column { name: s("b"), chain: vec![Expression::VarRef(s("v"))] },
    ];
    let t = Transformer::new(columns).unwrap();
    let r = row(&["data", "more"]);
    let once = transform(&r, &t, &vars);
    let twice = transform(&r, &t, &vars);
    assert_eq!(fields_of(&once), fields_of(&twice));
    assert_eq!(fields_of(&once), vec![s("data"), s("val")]);
}

#[test]
fn output_fields_follow_column_order() {
    let vars = Variables::new();
    let columns = vec![
        Column { name: s("second_field"), chain: vec![Expression::FieldRef(1)] },
        Column { name: s("first_field"), chain: vec![Expression::FieldRef(0)] },
        Column { name: s("fixed"), chain: vec![Expression::Literal(s("k"))] },
    ];
    let t = Transformer::new(columns).unwrap();
    let out = transform(&row(&["one", "two"]), &t, &vars);
    assert_eq!(fields_of(&out), vec![s("two"), s("one"), s("k")]);
}

#[test]
fn greeting_end_to_end() {
    let header = row(&["name", "age"]);
    let name_pos = resolve_field(&header, &s("name")).unwrap();
    let columns = vec![Column {
        name: s("greeting"),
        chain: vec![
            Expression::Literal(s("Hello ")),
            Expression::ConcatField(name_pos),
        ],
    }];
    let t = Transformer::new(columns).unwrap();
    assert_eq!(t.headers, vec![s("greeting")]);
    let vars = Variables::new();
    let out = transform(&row(&["Alice", "30"]), &t, &vars);
    assert_eq!(fields_of(&out), vec![s("Hello Alice")]);
}

#[test]
fn ragged_row_keeps_running() {
    let header = row(&["name", "age"]);
    let age_pos = resolve_field(&header, &s("age")).unwrap();
    let columns = vec![
        Column { name: s("age"), chain: vec![Expression::FieldRef(age_pos)] },
        Column { name: s("tag"), chain: vec![Expression::Literal(s("ok"))] },
    ];
    let t = Transformer::new(columns).unwrap();
    let vars = Variables::new();
    let out = transform(&row(&["Alice"]), &t, &vars);
    assert_eq!(fields_of(&out), vec![s(""), s("ok")]);
}

#[test]
fn reordered_columns_reorder_output() {
    let vars = Variables::new();
    let make = |names_first: bool| {
        let name_col = Column { name: s("n"), chain: vec![Expression::FieldRef(0)] };
        let age_col = Column { name: s("a"), chain: vec![Expression::FieldRef(1)] };
        let columns = if names_first {
            vec![name_col, age_col]
        } else {
            vec![age_col, name_col]
        };
        Transformer::new(columns).unwrap()
    };
    let r = row(&["Alice", "30"]);
    let forward = transform(&r, &make(true), &vars);
    let backward = transform(&r, &make(false), &vars);
    assert_eq!(fields_of(&forward), vec![s("Alice"), s("30")]);
    assert_eq!(fields_of(&backward), vec![s("30"), s("Alice")]);
}

#[test]
fn empty_chain_is_rejected() {
    let columns = vec![
        Column { name: s("ok"), chain: vec![Expression::Literal(s("x"))] },
        Column { name: s("bad"), chain: vec![] },
    ];
    assert_eq!(Transformer::new(columns).unwrap_err(), ConfigError::EmptyChain(1));
}

#[test]
fn headers_match_column_names() {
    let columns = vec![
        Column { name: s("alpha"), chain: vec![Expression::Literal(s("1"))] },
        Column { name: s("beta"), chain: vec![Expression::Literal(s("2"))] },
    ];
    let t = Transformer::new(columns).unwrap();
    assert_eq!(t.headers, vec![s("alpha"), s("beta")]);
}

#[test]
fn resolve_field_takes_first_match() {
    let header = row(&["dup", "other", "dup"]);
    assert_eq!(resolve_field(&header, &s("dup")), Some(0));
    assert_eq!(resolve_field(&header, &s("other")), Some(1));
    assert_eq!(resolve_field(&header, &s("nowhere")), None);
}

#[test]
fn row_accessors() {
    let r = row(&["a", "b"]);
    assert_eq!(r.len(), 2);
    assert_eq!(r.get(1), Some(&s("b")));
    assert_eq!(r.get(2), None);
}
