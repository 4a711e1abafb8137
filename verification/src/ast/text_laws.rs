//! What the text of each node is made of, stated over its parts, and which
//! trees can be rendered.

use vstd::prelude::*;
use vstd::std_specs::cmp::PartialEqSpec;
use super::render::{
    array_can_render, array_rendered, array_value_can_render, array_value_rendered,
    array_values_rendered, comment_nls_rendered, concat, inline_table_can_render,
    inline_table_rendered, key_val_can_render, key_val_rendered, table_key_val_rendered,
    table_key_vals_rendered, value_can_render, value_rendered,
};
use super::structs::{
    Array, ArrayValue, Comment, CommentNewLines, CommentOrNewLines, Expression, FullDate,
    InlineTable, KeyVal, NLExpression, StrType, Table, TableKeyVal, TableType, Time, Toml, Value,
    WSKeySep, WSSep,
};
use crate::types::{DateTime, TimeOffset, TimeOffsetAmount};

verus! {

/// Several texts one after the other, the first one first.
pub open spec fn joined(s: Seq<Seq<char>>) -> Seq<char>
    decreases s.len(),
{
    if s.len() == 0 {
        Seq::empty()
    } else {
        s[0] + joined(s.drop_first())
    }
}

/// Adding a text at the end of a run adds it at the end of the joined text.
pub proof fn lemma_joined_push(s: Seq<Seq<char>>, x: Seq<char>)
    ensures
        joined(s.push(x)) == joined(s) + x,
    decreases s.len(),
{
    if s.len() == 0 {
        let e = Seq::<Seq<char>>::empty();
        assert(s.push(x).drop_first() =~= e);
        assert(joined(e) == Seq::<char>::empty());
        assert(joined(s.push(x)) == s.push(x)[0] + joined(e));
        assert(joined(s.push(x)) =~= x);
    } else {
        assert(s.push(x).drop_first() =~= s.drop_first().push(x));
        lemma_joined_push(s.drop_first(), x);
        assert(joined(s.push(x)) =~= joined(s) + x);
    }
}

/// Concatenating from the back and joining from the front give one text.
pub proof fn lemma_concat_is_joined(s: Seq<Seq<char>>)
    ensures
        concat(s) == joined(s),
    decreases s.len(),
{
    if s.len() > 0 {
        lemma_concat_is_joined(s.drop_last());
        lemma_joined_push(s.drop_last(), s.last());
        assert(s.drop_last().push(s.last()) =~= s);
    }
}

/// The text of an optional comment: `#` and its text, or nothing.
pub open spec fn comment_text(c: Option<Comment>) -> Seq<char> {
    match c {
        Some(c) => seq!['#'] + c.text@,
        None => Seq::empty(),
    }
}

// Lines and documents.

/// The text of a line is its newline text, then the text of its expression.
pub proof fn line_text<'a>(e: NLExpression<'a>)
    ensures
        e.rendered() == e.nl@ + e.expr.rendered(),
{
}

/// An expression is written as its leading whitespace; then the key/value
/// pair, or the table header, followed by the trailing whitespace, if it has
/// one; then `#` and the comment's text if it has one. An expression with no
/// pair, no header and no comment is its leading whitespace alone.
pub proof fn expression_text<'a>(e: Expression<'a>)
    requires
        e.can_render(),
    ensures
        e.keyval is None && e.table is None ==> e.rendered() == e.ws.ws1@ + comment_text(e.comment),
        e.keyval is None && e.table is None && e.comment is None ==> e.rendered() == e.ws.ws1@,
        e.keyval matches Some(k) ==> e.rendered() == e.ws.ws1@ + key_val_rendered(k) + e.ws.ws2@
            + comment_text(e.comment),
        e.table matches Some(t) ==> e.rendered() == e.ws.ws1@ + t.rendered() + e.ws.ws2@
            + comment_text(e.comment),
{
}

/// A document's text is the text of each of its lines in turn, each line
/// being its newline text and then its expression's text; so its length is
/// the sum of theirs.
pub proof fn document_text<'a>(t: Toml<'a>)
    ensures
        t.rendered() == joined(t.exprs@.map_values(|e: NLExpression<'a>| e.nl@ + e.expr.rendered())),
{
    let f = |e: NLExpression<'a>| e.rendered();
    let g = |e: NLExpression<'a>| e.nl@ + e.expr.rendered();
    assert(t.exprs@.map_values(f) =~= t.exprs@.map_values(g));
    lemma_concat_is_joined(t.exprs@.map_values(g));
}

// Table headers.

/// The subkeys of a table name, each written as `<ws.ws1>.<ws.ws2><key>`,
/// the first one first.
pub open spec fn dotted<'a>(s: Seq<WSKeySep<'a>>) -> Seq<char>
    decreases s.len(),
{
    if s.len() == 0 {
        Seq::empty()
    } else {
        s[0].ws.ws1@ + seq!['.'] + s[0].ws.ws2@ + s[0].key@ + dotted(s.drop_first())
    }
}

proof fn lemma_dotted_is_joined<'a>(s: Seq<WSKeySep<'a>>)
    ensures
        dotted(s) == joined(s.map_values(|k: WSKeySep<'a>| k.rendered())),
    decreases s.len(),
{
    let f = |k: WSKeySep<'a>| k.rendered();
    if s.len() > 0 {
        lemma_dotted_is_joined(s.drop_first());
        assert(s.map_values(f).drop_first() =~= s.drop_first().map_values(f));
        assert(dotted(s) =~= s.map_values(f)[0] + dotted(s.drop_first()));
    }
}

/// A table name is its leading whitespace, its key, every one of its
/// subkeys in order, and its trailing whitespace.
pub proof fn table_name_text<'a>(t: Table<'a>)
    ensures
        t.rendered() == t.ws.ws1@ + t.key@ + dotted(t.subkeys@) + t.ws.ws2@,
{
    let f = |k: WSKeySep<'a>| k.rendered();
    lemma_concat_is_joined(t.subkeys@.map_values(f));
    lemma_dotted_is_joined(t.subkeys@);
}

/// A standard table header is its name between `[` and `]`; an array of
/// tables header is its name between `[[` and `]]`.
pub proof fn table_header_text<'a>(h: TableType<'a>)
    ensures
        h matches TableType::Standard(t) ==> h.rendered() == seq!['['] + t.ws.ws1@ + t.key@
            + dotted(t.subkeys@) + t.ws.ws2@ + seq![']'],
        h matches TableType::Array(t) ==> h.rendered() == seq!['[', '['] + t.ws.ws1@ + t.key@
            + dotted(t.subkeys@) + t.ws.ws2@ + seq![']', ']'],
{
    match h {
        TableType::Standard(t) => table_name_text(t),
        TableType::Array(t) => table_name_text(t),
    }
}

// Inline tables.

/// The entries of an inline table are written each but the last followed by
/// a comma, then the last: `n` entries carry `n - 1` commas between them.
pub proof fn inline_entries_text<'a>(s: Seq<TableKeyVal<'a>>)
    requires
        s.len() > 0,
    ensures
        table_key_vals_rendered(s) == joined(
            s.drop_last().map_values(|t: TableKeyVal<'a>| table_key_val_rendered(t) + seq![',']),
        ) + table_key_val_rendered(s.last()),
    decreases s.len(),
{
    let f = |t: TableKeyVal<'a>| table_key_val_rendered(t) + seq![','];
    if s.len() == 1 {
        assert(s.drop_last().map_values(f) =~= Seq::<Seq<char>>::empty());
        assert(s.last() == s[0]);
    } else {
        let d = s.drop_last();
        inline_entries_text(d);
        assert(d.drop_last().map_values(f).push(f(d.last())) =~= d.map_values(f));
        lemma_joined_push(d.drop_last().map_values(f), f(d.last()));
    }
}

/// An entry of an inline table is its pair and then its whitespace; a pair is
/// its key, `=` with the whitespace around it, and its value.
pub proof fn pair_text<'a>(t: TableKeyVal<'a>)
    ensures
        table_key_val_rendered(t) == t.keyval.key@ + t.keyval.keyval_sep.ws1@ + seq!['=']
            + t.keyval.keyval_sep.ws2@ + value_rendered(t.keyval.val) + t.kv_sep.ws1@ + t.kv_sep.ws2@,
{
}

/// An inline table is `{`, its leading whitespace, its entries with a comma
/// after each but the last, its trailing whitespace and `}`; with no list of
/// entries, `{`, both whitespaces and `}`.
pub proof fn inline_table_text<'a>(t: InlineTable<'a>)
    ensures
        t.keyvals matches Some(k) ==> (k@.len() > 0 ==> inline_table_rendered(t) == seq!['{']
            + t.ws.ws1@ + joined(
            k@.drop_last().map_values(|e: TableKeyVal<'a>| table_key_val_rendered(e) + seq![',']),
        ) + table_key_val_rendered(k@.last()) + t.ws.ws2@ + seq!['}']),
        t.keyvals is None ==> inline_table_rendered(t) == seq!['{'] + t.ws.ws1@ + t.ws.ws2@
            + seq!['}'],
{
    match t.keyvals {
        Some(k) => {
            if k@.len() > 0 {
                inline_entries_text(k@);
            }
        },
        None => {},
    }
}

// Arrays.

/// The texts of a run of comments and newlines, the first one first.
pub open spec fn comment_nls_text<'a>(s: Seq<CommentOrNewLines<'a>>) -> Seq<char> {
    joined(s.map_values(|c: CommentOrNewLines<'a>| c.rendered()))
}

proof fn lemma_comment_nls_text<'a>(s: Seq<CommentOrNewLines<'a>>)
    ensures
        comment_nls_rendered(s) == comment_nls_text(s),
{
    lemma_concat_is_joined(s.map_values(|c: CommentOrNewLines<'a>| c.rendered()));
}

proof fn lemma_array_values_joined<'a>(s: Seq<ArrayValue<'a>>)
    ensures
        array_values_rendered(s) == joined(s.map_values(|v: ArrayValue<'a>| array_value_rendered(v))),
    decreases s.len(),
{
    let f = |v: ArrayValue<'a>| array_value_rendered(v);
    if s.len() > 0 {
        lemma_array_values_joined(s.drop_last());
        assert(s.drop_last().map_values(f).push(f(s.last())) =~= s.map_values(f));
        lemma_joined_push(s.drop_last().map_values(f), f(s.last()));
    }
}

/// An array is `[`, the comments and newlines before its values, each of its
/// values in turn, the comments and newlines after them, and `]`.
pub proof fn array_text<'a>(a: Array<'a>)
    ensures
        array_rendered(a) == seq!['['] + comment_nls_text(a.comment_nls1@) + joined(
            a.values@.map_values(|v: ArrayValue<'a>| array_value_rendered(v)),
        ) + comment_nls_text(a.comment_nls2@) + seq![']'],
{
    lemma_comment_nls_text(a.comment_nls1@);
    lemma_comment_nls_text(a.comment_nls2@);
    lemma_array_values_joined(a.values@);
}

/// A value of an array is its value's text, then the comma with the
/// whitespace around it if it has one, then every comment and newline after
/// it in turn.
pub proof fn array_value_text<'a>(a: ArrayValue<'a>)
    ensures
        a.array_sep matches Some(s) ==> array_value_rendered(a) == value_rendered(*a.val) + s.ws1@
            + seq![','] + s.ws2@ + comment_nls_text(a.comment_nls@),
        a.array_sep is None ==> array_value_rendered(a) == value_rendered(*a.val) + comment_nls_text(
            a.comment_nls@,
        ),
{
    lemma_comment_nls_text(a.comment_nls@);
}

// Scalars, strings and dates.

/// Integers, floats and booleans are written as they were read; a string is
/// written between one `"` on each side (basic), three (multi-line basic),
/// one `'` (literal) or three (multi-line literal).
pub proof fn value_text<'a>(s: &'a str)
    ensures
        value_rendered(Value::Integer(s)) == s@,
        value_rendered(Value::Float(s)) == s@,
        value_rendered(Value::Boolean(s)) == s@,
        value_rendered(Value::String(s, StrType::Basic)) == seq!['"'] + s@ + seq!['"'],
        value_rendered(Value::String(s, StrType::MLBasic)) == seq!['"', '"', '"'] + s@ + seq![
            '"',
            '"',
            '"',
        ],
        value_rendered(Value::String(s, StrType::Literal)) == seq!['\''] + s@ + seq!['\''],
        value_rendered(Value::String(s, StrType::MLLiteral)) == seq!['\'', '\'', '\''] + s@ + seq![
            '\'',
            '\'',
            '\'',
        ],
{
}

/// The length of an optional part with a one-character prefix.
pub open spec fn opt_len(part: Option<&str>) -> int {
    match part {
        Some(p) => 1 + p@.len() as int,
        None => 0,
    }
}

/// A time holds its hour, minute and second with a `:` between each two,
/// then `.` and its fraction if it has one.
pub proof fn time_text<'a>(t: Time<'a>)
    ensures
        t.rendered().len() == t.hour@.len() + t.minute@.len() + t.second@.len() + 2 + opt_len(
            t.fraction,
        ),
        t.rendered().subrange(0, t.hour@.len() as int) == t.hour@,
        t.rendered()[t.hour@.len() as int] == ':',
        t.fraction is None ==> t.rendered() == t.hour@ + seq![':'] + t.minute@ + seq![':']
            + t.second@,
        t.fraction matches Some(f) ==> t.rendered() == t.hour@ + seq![':'] + t.minute@ + seq![':']
            + t.second@ + seq!['.'] + f@,
{
    assert(t.rendered().subrange(0, t.hour@.len() as int) =~= t.hour@);
}

/// A date holds its year, month and day with a `-` between each two.
pub proof fn full_date_text<'a>(d: FullDate<'a>)
    ensures
        d.rendered().len() == d.year@.len() + d.month@.len() + d.day@.len() + 2,
        d.rendered().subrange(0, d.year@.len() as int) == d.year@,
        d.rendered()[d.year@.len() as int] == '-',
        d.rendered() == d.year@ + seq!['-'] + d.month@ + seq!['-'] + d.day@,
{
    assert(d.rendered().subrange(0, d.year@.len() as int) =~= d.year@);
}

/// An offset is `Z`, or its sign, hour, `:` and minute.
pub proof fn offset_text<'a>(o: TimeOffset<'a>)
    ensures
        o is Z ==> o.rendered() == seq!['Z'],
        o matches TimeOffset::Time(t) ==> o.rendered().len() == t.pos_neg@.len() + t.hour@.len()
            + t.minute@.len() + 1,
        o matches TimeOffset::Time(t) ==> o.rendered() == t.pos_neg@ + t.hour@ + seq![':']
            + t.minute@,
{
}

/// A date-time is its date, `T`, its time and its offset.
pub proof fn date_time_text<'a>(d: DateTime<'a>)
    ensures
        d.rendered() == (FullDate { year: d.year, month: d.month, day: d.day }).rendered() + seq!['T']
            + (Time { hour: d.hour, minute: d.minute, second: d.second, fraction: d.fraction }).rendered()
            + d.offset.rendered(),
        d.rendered().len() == d.year@.len() + d.month@.len() + d.day@.len() + d.hour@.len()
            + d.minute@.len() + d.second@.len() + 5 + opt_len(d.fraction) + d.offset.rendered().len(),
{
    assert(d.rendered() =~= (FullDate { year: d.year, month: d.month, day: d.day }).rendered() + seq![
        'T',
    ] + (Time { hour: d.hour, minute: d.minute, second: d.second, fraction: d.fraction }).rendered()
        + d.offset.rendered());
}

/// A comment is `#` and its text; with what surrounds it, its leading text,
/// the comment and its newlines.
pub proof fn comment_text_law<'a>(c: Comment<'a>, n: CommentNewLines<'a>)
    ensures
        c.rendered() == seq!['#'] + c.text@,
        n.rendered() == n.pre_ws_nl@ + seq!['#'] + n.comment.text@ + n.newlines@,
        CommentOrNewLines::Comment(n).rendered() == n.rendered(),
        CommentOrNewLines::NewLines(n.newlines).rendered() == n.newlines@,
{
}

// Which trees can be rendered.

/// Scalars, strings and dates can always be rendered; an array can be
/// rendered when each of its values can; an array value can be rendered when
/// at least one comment or newline entry follows it and its value can be
/// rendered, whether or not a comma follows it; an inline table, when it has
/// no list of entries, or a non-empty one whose values can all be rendered.
pub proof fn renderability<'a>(v: Value<'a>, a: Array<'a>, x: ArrayValue<'a>, t: InlineTable<'a>, sep: Option<WSSep<'a>>)
    ensures
        !(v is Array) && !(v is InlineTable) ==> value_can_render(v),
        v matches Value::Array(x) ==> value_can_render(v) == array_can_render(*x),
        v matches Value::InlineTable(x) ==> value_can_render(v) == inline_table_can_render(*x),
        array_can_render(a) == forall|i: int|
            0 <= i < a.values@.len() ==> array_value_can_render(#[trigger] a.values@[i]),
        array_value_can_render(x) == (x.comment_nls@.len() > 0 && value_can_render(*x.val)),
        array_value_can_render((ArrayValue { val: x.val, array_sep: sep, comment_nls: x.comment_nls }))
            == array_value_can_render(x),
        t.keyvals is None ==> inline_table_can_render(t),
        t.keyvals matches Some(k) ==> (inline_table_can_render(t) == (k@.len() > 0 && forall|i: int|
            0 <= i < k@.len() ==> value_can_render(#[trigger] k@[i].keyval.val))),
{
    match t.keyvals {
        Some(k) => {
            assert forall|i: int| 0 <= i < k@.len() implies key_val_can_render(k@[i].keyval)
                == value_can_render(#[trigger] k@[i].keyval.val) by {}
        },
        None => {},
    }
}

/// An expression can be rendered when it does not hold both a pair and a
/// table header, and its pair's value, if any, can be rendered; a line can be
/// rendered when its expression can.
pub proof fn expression_renderability<'a>(e: Expression<'a>, l: NLExpression<'a>)
    ensures
        e.can_render() == (!(e.keyval is Some && e.table is Some) && (e.keyval matches Some(k)
            ==> value_can_render(k.val))),
        l.can_render() == l.expr.can_render(),
{
}

/// A document can be rendered when it has at least one line and no line
/// holds both a pair and a table header, and every pair's value can be
/// rendered.
pub proof fn document_renderability<'a>(t: Toml<'a>)
    ensures
        t.can_render() == (t.exprs@.len() > 0 && forall|i: int|
            0 <= i < t.exprs@.len() ==> {
                let e = #[trigger] t.exprs@[i].expr;
                &&& !(e.keyval is Some && e.table is Some)
                &&& (e.keyval matches Some(k) ==> value_can_render(k.val))
            }),
{
    assert forall|i: int| 0 <= i < t.exprs@.len() implies (#[trigger] t.exprs@[i]).can_render() == {
        let e = t.exprs@[i].expr;
        &&& !(e.keyval is Some && e.table is Some)
        &&& (e.keyval matches Some(k) ==> value_can_render(k.val))
    } by {}
}

// Equal nodes render alike.

/// Every time equals itself, and equal times are written alike.
pub proof fn time_equality<'a>(a: Time<'a>, b: Time<'a>)
    ensures
        a.eq_spec(&a),
        a.eq_spec(&b) ==> a.rendered() == b.rendered(),
{
}

/// Every date equals itself, and equal dates are written alike.
pub proof fn full_date_equality<'a>(a: FullDate<'a>, b: FullDate<'a>)
    ensures
        a.eq_spec(&a),
        a.eq_spec(&b) ==> a.rendered() == b.rendered(),
{
}

/// Every offset equals itself, and equal offsets are written alike.
pub proof fn offset_equality<'a>(a: TimeOffset<'a>, b: TimeOffset<'a>, x: TimeOffsetAmount<'a>, y: TimeOffsetAmount<'a>)
    ensures
        a.eq_spec(&a),
        a.eq_spec(&b) ==> a.rendered() == b.rendered(),
        x.eq_spec(&x),
        x.eq_spec(&y) ==> x.rendered() == y.rendered(),
{
}

/// Every date-time equals itself, and equal date-times are written alike.
pub proof fn date_time_equality<'a>(a: DateTime<'a>, b: DateTime<'a>)
    ensures
        a.eq_spec(&a),
        a.eq_spec(&b) ==> a.rendered() == b.rendered(),
{
}

/// Every comment, comment with newlines, and run of newlines equals itself,
/// and equal ones are written alike.
pub proof fn comment_equality<'a>(a: CommentOrNewLines<'a>, b: CommentOrNewLines<'a>)
    ensures
        a.eq_spec(&a),
        a.eq_spec(&b) ==> a.rendered() == b.rendered(),
{
}

/// Every pair of whitespaces equals itself, and equal ones hold the same
/// whitespace on each side.
pub proof fn whitespace_equality<'a>(a: WSSep<'a>, b: WSSep<'a>)
    ensures
        a.eq_spec(&a),
        a.eq_spec(&b) ==> a.ws1@ == b.ws1@ && a.ws2@ == b.ws2@,
{
}

/// Every subkey equals itself, and equal subkeys are written alike.
pub proof fn subkey_equality<'a>(a: WSKeySep<'a>, b: WSKeySep<'a>)
    ensures
        a.eq_spec(&a),
        a.eq_spec(&b) ==> a.rendered() == b.rendered(),
{
}

} // verus!
