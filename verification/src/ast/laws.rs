//! What holds of equality and rendering for every tree.

use vstd::prelude::*;
use vstd::std_specs::cmp::PartialEqSpec;
use super::structs::{
    array_same, array_value_same, inline_table_same, key_val_same, table_key_val_same, value_same,
    Array, ArrayValue, Expression, StrType, InlineTable, KeyVal, NLExpression, Table, TableKeyVal, TableType,
    Toml, Value, CommentOrNewLines, WSKeySep,
};
use super::render::{
    array_rendered, array_value_rendered, array_values_rendered, comment_nls_rendered,
    inline_table_rendered, key_val_rendered, quotes, table_key_val_rendered, table_key_vals_rendered,
    value_rendered,
};
use crate::types::DateTime;

verus! {

/// What an `Rc` holds.
pub open spec fn unrc<T>(x: std::rc::Rc<T>) -> T {
    *x
}

/// What a `Box` holds.
pub open spec fn unbox<T>(x: Box<T>) -> T {
    *x
}

/// Equality of values is an equivalence: every value equals itself, equality
/// goes both ways, and two values equal to a third are equal.
pub proof fn value_eq_is_equivalence<'a>(a: Value<'a>, b: Value<'a>, c: Value<'a>)
    ensures
        value_same(a, a),
        value_same(a, b) ==> value_same(b, a),
        value_same(a, b) && value_same(b, c) ==> value_same(a, c),
    decreases a,
{
    match (a, b) {
        (Value::Array(x), Value::Array(y)) => {
            let z = match c {
                Value::Array(z) => unrc(z),
                _ => unrc(y),
            };
            array_eq_is_equivalence(unrc(x), unrc(y), z);
        },
        (Value::Array(x), _) => {
            array_eq_is_equivalence(unrc(x), unrc(x), unrc(x));
        },
        (Value::InlineTable(x), Value::InlineTable(y)) => {
            let z = match c {
                Value::InlineTable(z) => unbox(z),
                _ => unbox(y),
            };
            inline_table_eq_is_equivalence(unbox(x), unbox(y), z);
        },
        (Value::InlineTable(x), _) => {
            inline_table_eq_is_equivalence(unbox(x), unbox(x), unbox(x));
        },
        _ => {},
    }
}

/// Equality of arrays is an equivalence.
pub proof fn array_eq_is_equivalence<'a>(a: Array<'a>, b: Array<'a>, c: Array<'a>)
    ensures
        array_same(a, a),
        array_same(a, b) ==> array_same(b, a),
        array_same(a, b) && array_same(b, c) ==> array_same(a, c),
    decreases a,
{
    assert forall|i: int| 0 <= i < a.values@.len() implies {
        &&& array_value_same(a.values@[i], a.values@[i])
        &&& array_value_same(a.values@[i], b.values@[i]) ==> array_value_same(b.values@[i], a.values@[i])
        &&& array_value_same(a.values@[i], b.values@[i]) && array_value_same(b.values@[i], c.values@[i])
            ==> array_value_same(a.values@[i], c.values@[i])
    } by {
        assert(decreases_to!(a => a.values));
        assert(decreases_to!(a.values => a.values@));
        array_value_eq_is_equivalence(a.values@[i], b.values@[i], c.values@[i]);
    }
}

/// Equality of array values is an equivalence.
pub proof fn array_value_eq_is_equivalence<'a>(a: ArrayValue<'a>, b: ArrayValue<'a>, c: ArrayValue<'a>)
    ensures
        array_value_same(a, a),
        array_value_same(a, b) ==> array_value_same(b, a),
        array_value_same(a, b) && array_value_same(b, c) ==> array_value_same(a, c),
    decreases a,
{
    value_eq_is_equivalence(unrc(a.val), unrc(b.val), unrc(c.val));
}

/// Equality of inline tables is an equivalence.
pub proof fn inline_table_eq_is_equivalence<'a>(a: InlineTable<'a>, b: InlineTable<'a>, c: InlineTable<'a>)
    ensures
        inline_table_same(a, a),
        inline_table_same(a, b) ==> inline_table_same(b, a),
        inline_table_same(a, b) && inline_table_same(b, c) ==> inline_table_same(a, c),
    decreases a,
{
    match a.keyvals {
        Some(x) => {
            let y = match b.keyvals { Some(y) => y, None => x };
            let z = match c.keyvals { Some(z) => z, None => x };
            assert forall|i: int| 0 <= i < x@.len() implies {
                &&& table_key_val_same(x@[i], x@[i])
                &&& table_key_val_same(x@[i], y@[i]) ==> table_key_val_same(y@[i], x@[i])
                &&& table_key_val_same(x@[i], y@[i]) && table_key_val_same(y@[i], z@[i])
                    ==> table_key_val_same(x@[i], z@[i])
            } by {
                assert(decreases_to!(a => a.keyvals));
                assert(decreases_to!(a.keyvals => x));
                assert(decreases_to!(x => x@));
                table_key_val_eq_is_equivalence(x@[i], y@[i], z@[i]);
            }
        },
        None => {},
    }
}

/// Equality of inline table entries is an equivalence.
pub proof fn table_key_val_eq_is_equivalence<'a>(a: TableKeyVal<'a>, b: TableKeyVal<'a>, c: TableKeyVal<'a>)
    ensures
        table_key_val_same(a, a),
        table_key_val_same(a, b) ==> table_key_val_same(b, a),
        table_key_val_same(a, b) && table_key_val_same(b, c) ==> table_key_val_same(a, c),
    decreases a,
{
    key_val_eq_is_equivalence(a.keyval, b.keyval, c.keyval);
}

/// Equality of key/value pairs is an equivalence.
pub proof fn key_val_eq_is_equivalence<'a>(a: KeyVal<'a>, b: KeyVal<'a>, c: KeyVal<'a>)
    ensures
        key_val_same(a, a),
        key_val_same(a, b) ==> key_val_same(b, a),
        key_val_same(a, b) && key_val_same(b, c) ==> key_val_same(a, c),
    decreases a,
{
    value_eq_is_equivalence(a.val, b.val, c.val);
}

/// Equality of table headers is an equivalence.
pub proof fn table_type_eq_is_equivalence<'a>(a: TableType<'a>, b: TableType<'a>, c: TableType<'a>)
    ensures
        a.eq_spec(&a),
        a.eq_spec(&b) ==> b.eq_spec(&a),
        a.eq_spec(&b) && b.eq_spec(&c) ==> a.eq_spec(&c),
{
    let (x, y, z) = match (a, b, c) {
        (TableType::Standard(x), TableType::Standard(y), TableType::Standard(z)) => (x, y, z),
        (TableType::Array(x), TableType::Array(y), TableType::Array(z)) => (x, y, z),
        (TableType::Standard(x), TableType::Standard(y), TableType::Array(z)) => (x, y, z),
        (TableType::Array(x), TableType::Array(y), TableType::Standard(z)) => (x, y, z),
        (TableType::Standard(x), TableType::Array(y), _) => (x, x, x),
        (TableType::Array(x), TableType::Standard(y), _) => (x, x, x),
    };
    table_eq_is_equivalence(x, y, z);
}

/// Equality of table names is an equivalence.
pub proof fn table_eq_is_equivalence<'a>(a: Table<'a>, b: Table<'a>, c: Table<'a>)
    ensures
        a.eq_spec(&a),
        a.eq_spec(&b) ==> b.eq_spec(&a),
        a.eq_spec(&b) && b.eq_spec(&c) ==> a.eq_spec(&c),
{
    if a.eq_spec(&b) {
        assert(b.subkeys.eq_spec(&a.subkeys));
    }
    if a.eq_spec(&b) && b.eq_spec(&c) {
        assert forall|i: int| 0 <= i < a.subkeys@.len() implies a.subkeys@[i].eq_spec(&c.subkeys@[i]) by {
            assert(a.subkeys@[i].eq_spec(&b.subkeys@[i]));
            assert(b.subkeys@[i].eq_spec(&c.subkeys@[i]));
        }
    }
}

/// Equality of expressions is an equivalence.
pub proof fn expression_eq_is_equivalence<'a>(a: Expression<'a>, b: Expression<'a>, c: Expression<'a>)
    ensures
        a.eq_spec(&a),
        a.eq_spec(&b) ==> b.eq_spec(&a),
        a.eq_spec(&b) && b.eq_spec(&c) ==> a.eq_spec(&c),
{
    match a.keyval {
        Some(x) => {
            let y = match b.keyval { Some(y) => y, None => x };
            let z = match c.keyval { Some(z) => z, None => x };
            key_val_eq_is_equivalence(x, y, z);
        },
        None => {},
    }
    match a.table {
        Some(x) => {
            let y = match b.table { Some(y) => y, None => x };
            let z = match c.table { Some(z) => z, None => x };
            table_type_eq_is_equivalence(x, y, z);
        },
        None => {},
    }
}

/// Equality of documents is an equivalence.
pub proof fn toml_eq_is_equivalence<'a>(a: Toml<'a>, b: Toml<'a>, c: Toml<'a>)
    ensures
        a.eq_spec(&a),
        a.eq_spec(&b) ==> b.eq_spec(&a),
        a.eq_spec(&b) && b.eq_spec(&c) ==> a.eq_spec(&c),
{
    assert forall|i: int| 0 <= i < a.exprs@.len() implies {
        &&& a.exprs@[i].eq_spec(&a.exprs@[i])
        &&& a.exprs@[i].eq_spec(&b.exprs@[i]) ==> b.exprs@[i].eq_spec(&a.exprs@[i])
        &&& a.exprs@[i].eq_spec(&b.exprs@[i]) && b.exprs@[i].eq_spec(&c.exprs@[i])
            ==> a.exprs@[i].eq_spec(&c.exprs@[i])
    } by {
        expression_eq_is_equivalence(a.exprs@[i].expr, b.exprs@[i].expr, c.exprs@[i].expr);
    }
    if a.eq_spec(&b) {
        assert forall|i: int| 0 <= i < b.exprs@.len() implies b.exprs@[i].eq_spec(&a.exprs@[i]) by {
            assert(a.exprs@[i].eq_spec(&b.exprs@[i]));
        }
    }
    if a.eq_spec(&b) && b.eq_spec(&c) {
        assert forall|i: int| 0 <= i < a.exprs@.len() implies a.exprs@[i].eq_spec(&c.exprs@[i]) by {
            assert(a.exprs@[i].eq_spec(&b.exprs@[i]));
            assert(b.exprs@[i].eq_spec(&c.exprs@[i]));
        }
    }
}

/// Two strings are equal when their texts are, whatever quotes they were
/// written with.
pub proof fn string_eq_ignores_quotes<'a>(s: &'a str, t: &'a str, q: StrType, r: StrType)
    ensures
        value_same(Value::String(s, q), Value::String(t, r)) == (s@ == t@),
{
}

// Equal trees render alike.

/// Wherever `a` and `b` both hold a string at the same place, the two
/// strings were written with the same quotes.
pub open spec fn value_quotes_agree<'a>(a: Value<'a>, b: Value<'a>) -> bool
    decreases a,
{
    match (a, b) {
        (Value::String(_, q), Value::String(_, r)) => q == r,
        (Value::Array(x), Value::Array(y)) => array_quotes_agree(*x, *y),
        (Value::InlineTable(x), Value::InlineTable(y)) => inline_table_quotes_agree(*x, *y),
        _ => true,
    }
}

/// The values at the same places of two arrays have their quotes in common.
pub open spec fn array_quotes_agree<'a>(a: Array<'a>, b: Array<'a>) -> bool
    decreases a,
{
    forall|i: int|
        0 <= i < a.values@.len() ==> array_value_quotes_agree(#[trigger] a.values@[i], b.values@[i])
}

/// The values of two array values have their quotes in common.
pub open spec fn array_value_quotes_agree<'a>(a: ArrayValue<'a>, b: ArrayValue<'a>) -> bool
    decreases a,
{
    value_quotes_agree(*a.val, *b.val)
}

/// The values at the same places of two inline tables have their quotes in
/// common.
pub open spec fn inline_table_quotes_agree<'a>(a: InlineTable<'a>, b: InlineTable<'a>) -> bool
    decreases a,
{
    match (a.keyvals, b.keyvals) {
        (Some(x), Some(y)) => forall|i: int|
            0 <= i < x@.len() ==> key_val_quotes_agree(#[trigger] x@[i].keyval, y@[i].keyval),
        _ => true,
    }
}

/// The values of two pairs have their quotes in common.
pub open spec fn key_val_quotes_agree<'a>(a: KeyVal<'a>, b: KeyVal<'a>) -> bool
    decreases a,
{
    value_quotes_agree(a.val, b.val)
}

/// Equal runs of comments and newlines render alike.
pub proof fn comment_nls_eq_renders_alike<'a>(s: Vec<CommentOrNewLines<'a>>, t: Vec<CommentOrNewLines<'a>>)
    requires
        s.eq_spec(&t),
    ensures
        comment_nls_rendered(s@) == comment_nls_rendered(t@),
{
    let f = |c: CommentOrNewLines<'a>| c.rendered();
    assert forall|i: int| 0 <= i < s@.len() implies #[trigger] s@[i].rendered() == t@[i].rendered() by {
        assert(s[i].eq_spec(&t[i]));
    }
    assert(s@.map_values(f) =~= t@.map_values(f));
}

/// Equal values render alike, where their strings have the same quotes.
/// (Strings with different quotes are equal, yet render differently.)
pub proof fn value_eq_renders_alike<'a>(a: Value<'a>, b: Value<'a>)
    requires
        value_same(a, b),
        value_quotes_agree(a, b),
    ensures
        value_rendered(a) == value_rendered(b),
    decreases a,
{
    match (a, b) {
        (Value::Array(x), Value::Array(y)) => {
            array_eq_renders_alike(unrc(x), unrc(y));
        },
        (Value::InlineTable(x), Value::InlineTable(y)) => {
            inline_table_eq_renders_alike(unbox(x), unbox(y));
        },
        (Value::DateTime(x), Value::DateTime(y)) => {
            date_time_eq_renders_alike(x, y);
        },
        _ => {},
    }
}

/// Equal arrays render alike, where their strings have the same quotes.
pub proof fn array_eq_renders_alike<'a>(a: Array<'a>, b: Array<'a>)
    requires
        array_same(a, b),
        array_quotes_agree(a, b),
    ensures
        array_rendered(a) == array_rendered(b),
    decreases a,
{
    comment_nls_eq_renders_alike(a.comment_nls1, b.comment_nls1);
    comment_nls_eq_renders_alike(a.comment_nls2, b.comment_nls2);
    assert(decreases_to!(a => a.values));
    assert(decreases_to!(a.values => a.values@));
    array_values_eq_render_alike(a.values@, b.values@);
}

/// Pairwise equal array values render alike, where their strings have the
/// same quotes.
pub proof fn array_values_eq_render_alike<'a>(s: Seq<ArrayValue<'a>>, t: Seq<ArrayValue<'a>>)
    requires
        s.len() == t.len(),
        forall|i: int| 0 <= i < s.len() ==> array_value_same(#[trigger] s[i], t[i]),
        forall|i: int| 0 <= i < s.len() ==> array_value_quotes_agree(#[trigger] s[i], t[i]),
    ensures
        array_values_rendered(s) == array_values_rendered(t),
    decreases s,
{
    if s.len() > 0 {
        let n = s.len() - 1;
        assert(array_value_same(s[n], t[n]));
        assert(array_value_quotes_agree(s[n], t[n]));
        array_value_eq_renders_alike(s[n], t[n]);
        assert(s.drop_last().len() == t.drop_last().len());
        array_values_eq_render_alike(s.drop_last(), t.drop_last());
    }
}

/// Equal array values render alike, where their strings have the same
/// quotes.
pub proof fn array_value_eq_renders_alike<'a>(a: ArrayValue<'a>, b: ArrayValue<'a>)
    requires
        array_value_same(a, b),
        array_value_quotes_agree(a, b),
    ensures
        array_value_rendered(a) == array_value_rendered(b),
    decreases a,
{
    value_eq_renders_alike(unrc(a.val), unrc(b.val));
    comment_nls_eq_renders_alike(a.comment_nls, b.comment_nls);
}

/// Equal inline tables render alike, where their strings have the same
/// quotes.
pub proof fn inline_table_eq_renders_alike<'a>(a: InlineTable<'a>, b: InlineTable<'a>)
    requires
        inline_table_same(a, b),
        inline_table_quotes_agree(a, b),
    ensures
        inline_table_rendered(a) == inline_table_rendered(b),
    decreases a,
{
    match (a.keyvals, b.keyvals) {
        (Some(x), Some(y)) => {
            assert(decreases_to!(a => a.keyvals));
            assert(decreases_to!(a.keyvals => x));
            assert(decreases_to!(x => x@));
            table_key_vals_eq_render_alike(x@, y@);
        },
        _ => {},
    }
}

/// Pairwise equal inline table entries render alike, where their strings
/// have the same quotes.
pub proof fn table_key_vals_eq_render_alike<'a>(s: Seq<TableKeyVal<'a>>, t: Seq<TableKeyVal<'a>>)
    requires
        s.len() == t.len(),
        forall|i: int| 0 <= i < s.len() ==> table_key_val_same(#[trigger] s[i], t[i]),
        forall|i: int| 0 <= i < s.len() ==> key_val_quotes_agree(#[trigger] s[i].keyval, t[i].keyval),
    ensures
        table_key_vals_rendered(s) == table_key_vals_rendered(t),
    decreases s,
{
    if s.len() > 0 {
        let n = s.len() - 1;
        assert(table_key_val_same(s[n], t[n]));
        assert(key_val_quotes_agree(s[n].keyval, t[n].keyval));
        key_val_eq_renders_alike(s[n].keyval, t[n].keyval);
        assert(table_key_val_rendered(s[n]) == table_key_val_rendered(t[n]));
        assert(s.drop_last().len() == t.drop_last().len());
        assert forall|i: int| 0 <= i < s.drop_last().len() implies key_val_quotes_agree(
            #[trigger] s.drop_last()[i].keyval,
            t.drop_last()[i].keyval,
        ) by {
            assert(key_val_quotes_agree(s[i].keyval, t[i].keyval));
        }
        table_key_vals_eq_render_alike(s.drop_last(), t.drop_last());
    }
}

/// Equal pairs render alike, where their strings have the same quotes.
pub proof fn key_val_eq_renders_alike<'a>(a: KeyVal<'a>, b: KeyVal<'a>)
    requires
        key_val_same(a, b),
        key_val_quotes_agree(a, b),
    ensures
        key_val_rendered(a) == key_val_rendered(b),
    decreases a,
{
    value_eq_renders_alike(a.val, b.val);
}

/// Equal date-times render alike.
pub proof fn date_time_eq_renders_alike<'a>(a: DateTime<'a>, b: DateTime<'a>)
    requires
        a.eq_spec(&b),
    ensures
        a.rendered() == b.rendered(),
{
}

/// Equal table headers render alike.
pub proof fn table_type_eq_renders_alike<'a>(a: TableType<'a>, b: TableType<'a>)
    requires
        a.eq_spec(&b),
    ensures
        a.rendered() == b.rendered(),
{
    let (x, y) = match (a, b) {
        (TableType::Standard(x), TableType::Standard(y)) => (x, y),
        (TableType::Array(x), TableType::Array(y)) => (x, y),
        (TableType::Standard(x), _) => (x, x),
        (TableType::Array(x), _) => (x, x),
    };
    let f = |k: WSKeySep<'a>| k.rendered();
    assert forall|i: int| 0 <= i < x.subkeys@.len() implies #[trigger] x.subkeys@[i].rendered()
        == y.subkeys@[i].rendered() by {
        assert(x.subkeys[i].eq_spec(&y.subkeys[i]));
    }
    assert(x.subkeys@.map_values(f) =~= y.subkeys@.map_values(f));
}

/// The pairs of two expressions, where both have one, have their quotes in
/// common.
pub open spec fn expression_quotes_agree<'a>(a: Expression<'a>, b: Expression<'a>) -> bool {
    match (a.keyval, b.keyval) {
        (Some(x), Some(y)) => key_val_quotes_agree(x, y),
        _ => true,
    }
}

/// The lines at the same places of two documents have their quotes in
/// common.
pub open spec fn toml_quotes_agree<'a>(a: Toml<'a>, b: Toml<'a>) -> bool {
    forall|i: int|
        0 <= i < a.exprs@.len() ==> expression_quotes_agree(#[trigger] a.exprs@[i].expr, b.exprs@[i].expr)
}

/// Equal expressions render alike, where their strings have the same quotes.
pub proof fn expression_eq_renders_alike<'a>(a: Expression<'a>, b: Expression<'a>)
    requires
        a.eq_spec(&b),
        expression_quotes_agree(a, b),
    ensures
        a.rendered() == b.rendered(),
{
    match (a.keyval, b.keyval) {
        (Some(x), Some(y)) => key_val_eq_renders_alike(x, y),
        _ => {},
    }
    match (a.table, b.table) {
        (Some(x), Some(y)) => table_type_eq_renders_alike(x, y),
        _ => {},
    }
}

/// Equal documents render alike, where their strings have the same quotes.
pub proof fn toml_eq_renders_alike<'a>(a: Toml<'a>, b: Toml<'a>)
    requires
        a.eq_spec(&b),
        toml_quotes_agree(a, b),
    ensures
        a.rendered() == b.rendered(),
{
    let f = |e: NLExpression<'a>| e.rendered();
    assert forall|i: int| 0 <= i < a.exprs@.len() implies #[trigger] a.exprs@[i].rendered()
        == b.exprs@[i].rendered() by {
        assert(a.exprs[i].eq_spec(&b.exprs[i]));
        assert(expression_quotes_agree(a.exprs@[i].expr, b.exprs@[i].expr));
        expression_eq_renders_alike(a.exprs@[i].expr, b.exprs@[i].expr);
    }
    assert(a.exprs@.map_values(f) =~= b.exprs@.map_values(f));
}

/// Two strings with the same text and different quotes are equal, yet they
/// render differently: this is where equal trees do not render alike.
pub proof fn quotes_change_text_not_equality<'a>(s: &'a str, q: StrType, r: StrType)
    requires
        q != r,
    ensures
        value_same(Value::String(s, q), Value::String(s, r)),
        value_rendered(Value::String(s, q)) != value_rendered(Value::String(s, r)),
{
    let x = value_rendered(Value::String(s, q));
    let y = value_rendered(Value::String(s, r));
    if x.len() == y.len() {
        assert(x[0] == quotes(q)[0]);
        assert(y[0] == quotes(r)[0]);
        assert(x[0] != y[0]);
    }
}

} // verus!
