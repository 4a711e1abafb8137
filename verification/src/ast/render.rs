//! Rendering a tree back to the text it stands for.
//!
//! Each node writes its parts in order, each piece of whitespace, each
//! newline and each comment exactly where it was read. A few trees cannot be
//! rendered: an expression with both a key/value pair and a table header, an
//! array value with nothing after it (no comment and no newline entry), an
//! inline table whose list of entries is present but empty, and a document
//! without lines. The `can_render` predicates rule these out.

use vstd::prelude::*;
use super::structs::{
    Array, ArrayValue, Comment, CommentNewLines, CommentOrNewLines, Expression, InlineTable, KeyVal,
    FullDate, NLExpression, StrType, Table, TableKeyVal, TableType, Time, Toml, Value, WSKeySep,
    WSSep,
};
use crate::types::{DateTime, TimeOffset, TimeOffsetAmount};

verus! {

/// The concatenation of a sequence of texts.
pub open spec fn concat(s: Seq<Seq<char>>) -> Seq<char>
    decreases s.len(),
{
    if s.len() == 0 {
        Seq::empty()
    } else {
        concat(s.drop_last()) + s.last()
    }
}

/// The characters of an optional part: `prefix` and the part when it is
/// there, nothing when it is not.
pub open spec fn opt_rendered(prefix: Seq<char>, part: Option<&str>) -> Seq<char> {
    match part {
        Some(p) => prefix + p@,
        None => Seq::empty(),
    }
}

/// Adding one more text to a concatenation.
pub proof fn lemma_concat_push(s: Seq<Seq<char>>, i: int)
    requires
        0 <= i < s.len(),
    ensures
        concat(s.take(i + 1)) == concat(s.take(i)) + s[i],
{
    assert(s.take(i + 1).drop_last() =~= s.take(i));
}

/// Concatenating a whole sequence.
pub proof fn lemma_concat_all(s: Seq<Seq<char>>)
    ensures
        concat(s.take(s.len() as int)) == concat(s),
{
    assert(s.take(s.len() as int) =~= s);
}

// Nodes that hold no values.

impl<'a> Comment<'a> {
    /// `#<text>`
    pub open spec fn rendered(&self) -> Seq<char> {
        seq!['#'] + self.text@
    }

    /// Writes the comment.
    pub fn fmt(&self, f: &mut String)
        ensures
            final(f)@ == old(f)@ + self.rendered(),
    {
        f.append("#");
        f.append(self.text);
        proof {
            reveal_strlit("#");
        }
    }
}

impl<'a> WSKeySep<'a> {
    /// `<ws.ws1>.<ws.ws2><key>`
    pub open spec fn rendered(&self) -> Seq<char> {
        self.ws.ws1@ + seq!['.'] + self.ws.ws2@ + self.key@
    }

    /// Writes the separator and the key.
    pub fn fmt(&self, f: &mut String)
        ensures
            final(f)@ == old(f)@ + self.rendered(),
    {
        f.append(self.ws.ws1);
        f.append(".");
        f.append(self.ws.ws2);
        f.append(self.key);
        proof {
            reveal_strlit(".");
        }
    }
}

impl<'a> Table<'a> {
    /// `<ws.ws1><key><subkeys*><ws.ws2>`
    pub open spec fn rendered(&self) -> Seq<char> {
        self.ws.ws1@ + self.key@ + concat(self.subkeys@.map_values(|k: WSKeySep<'a>| k.rendered()))
            + self.ws.ws2@
    }

    /// Writes the table name with its subkeys.
    pub fn fmt(&self, f: &mut String)
        ensures
            final(f)@ == old(f)@ + self.rendered(),
    {
        let ghost parts = self.subkeys@.map_values(|k: WSKeySep<'a>| k.rendered());
        f.append(self.ws.ws1);
        f.append(self.key);
        let ghost start = f@;
        let n = self.subkeys.len();
        let mut i: usize = 0;
        while i < n
            invariant
                n == self.subkeys@.len() == parts.len(),
                i <= n,
                parts == self.subkeys@.map_values(|k: WSKeySep<'a>| k.rendered()),
                f@ == start + concat(parts.take(i as int)),
            decreases n - i,
        {
            self.subkeys[i].fmt(f);
            proof {
                lemma_concat_push(parts, i as int);
            }
            i = i + 1;
        }
        proof {
            lemma_concat_all(parts);
        }
        f.append(self.ws.ws2);
    }
}

impl<'a> TableType<'a> {
    /// `[<table>]` or `[[<table>]]`
    pub open spec fn rendered(&self) -> Seq<char> {
        match self {
            TableType::Standard(t) => seq!['['] + t.rendered() + seq![']'],
            TableType::Array(t) => seq!['[', '['] + t.rendered() + seq![']', ']'],
        }
    }

    /// Writes the table header.
    pub fn fmt(&self, f: &mut String)
        ensures
            final(f)@ == old(f)@ + self.rendered(),
    {
        proof {
            reveal_strlit("[");
            reveal_strlit("]");
            reveal_strlit("[[");
            reveal_strlit("]]");
        }
        match self {
            TableType::Standard(t) => {
                f.append("[");
                t.fmt(f);
                f.append("]");
            },
            TableType::Array(t) => {
                f.append("[[");
                t.fmt(f);
                f.append("]]");
            },
        }
    }
}

impl<'a> TimeOffsetAmount<'a> {
    /// `<pos_neg><hour>:<minute>`
    pub open spec fn rendered(&self) -> Seq<char> {
        self.pos_neg@ + self.hour@ + seq![':'] + self.minute@
    }

    /// Writes the offset.
    pub fn fmt(&self, f: &mut String)
        ensures
            final(f)@ == old(f)@ + self.rendered(),
    {
        f.append(self.pos_neg);
        f.append(self.hour);
        f.append(":");
        f.append(self.minute);
        proof {
            reveal_strlit(":");
        }
    }
}

impl<'a> TimeOffset<'a> {
    /// `Z`, or the offset written out.
    pub open spec fn rendered(&self) -> Seq<char> {
        match self {
            TimeOffset::Z => seq!['Z'],
            TimeOffset::Time(t) => t.rendered(),
        }
    }

    /// Writes the offset.
    pub fn fmt(&self, f: &mut String)
        ensures
            final(f)@ == old(f)@ + self.rendered(),
    {
        match self {
            TimeOffset::Z => {
                f.append("Z");
                proof {
                    reveal_strlit("Z");
                }
            },
            TimeOffset::Time(t) => t.fmt(f),
        }
    }
}

impl<'a> Time<'a> {
    /// `<hour>:<minute>:<second>(.<fraction>)?`
    pub open spec fn rendered(&self) -> Seq<char> {
        self.hour@ + seq![':'] + self.minute@ + seq![':'] + self.second@ + opt_rendered(
            seq!['.'],
            self.fraction,
        )
    }

    /// Writes the time.
    pub fn fmt(&self, f: &mut String)
        ensures
            final(f)@ == old(f)@ + self.rendered(),
    {
        proof {
            reveal_strlit(":");
            reveal_strlit(".");
        }
        f.append(self.hour);
        f.append(":");
        f.append(self.minute);
        f.append(":");
        f.append(self.second);
        match self.fraction {
            Some(frac) => {
                f.append(".");
                f.append(frac);
            },
            None => {},
        }
    }
}

impl<'a> FullDate<'a> {
    /// `<year>-<month>-<day>`
    pub open spec fn rendered(&self) -> Seq<char> {
        self.year@ + seq!['-'] + self.month@ + seq!['-'] + self.day@
    }

    /// Writes the date.
    pub fn fmt(&self, f: &mut String)
        ensures
            final(f)@ == old(f)@ + self.rendered(),
    {
        proof {
            reveal_strlit("-");
        }
        f.append(self.year);
        f.append("-");
        f.append(self.month);
        f.append("-");
        f.append(self.day);
    }
}

impl<'a> DateTime<'a> {
    /// `<year>-<month>-<day>T<hour>:<minute>:<second>(.<fraction>)?<offset>`
    pub open spec fn rendered(&self) -> Seq<char> {
        self.year@ + seq!['-'] + self.month@ + seq!['-'] + self.day@ + seq!['T'] + self.hour@
            + seq![':'] + self.minute@ + seq![':'] + self.second@ + opt_rendered(
            seq!['.'],
            self.fraction,
        ) + self.offset.rendered()
    }

    /// Writes the date-time.
    pub fn fmt(&self, f: &mut String)
        ensures
            final(f)@ == old(f)@ + self.rendered(),
    {
        proof {
            reveal_strlit("-");
            reveal_strlit("T");
            reveal_strlit(":");
            reveal_strlit(".");
        }
        f.append(self.year);
        f.append("-");
        f.append(self.month);
        f.append("-");
        f.append(self.day);
        f.append("T");
        f.append(self.hour);
        f.append(":");
        f.append(self.minute);
        f.append(":");
        f.append(self.second);
        match self.fraction {
            Some(frac) => {
                f.append(".");
                f.append(frac);
            },
            None => {},
        }
        self.offset.fmt(f);
    }
}

impl<'a> CommentNewLines<'a> {
    /// `<pre_ws_nl><comment><newlines>`
    pub open spec fn rendered(&self) -> Seq<char> {
        self.pre_ws_nl@ + self.comment.rendered() + self.newlines@
    }

    /// Writes the comment with the text around it.
    pub fn fmt(&self, f: &mut String)
        ensures
            final(f)@ == old(f)@ + self.rendered(),
    {
        f.append(self.pre_ws_nl);
        self.comment.fmt(f);
        f.append(self.newlines);
    }
}

impl<'a> CommentOrNewLines<'a> {
    /// The comment with its newlines, or the newlines.
    pub open spec fn rendered(&self) -> Seq<char> {
        match self {
            CommentOrNewLines::Comment(c) => c.rendered(),
            CommentOrNewLines::NewLines(n) => n@,
        }
    }

    /// Writes the comment or the newlines.
    pub fn fmt(&self, f: &mut String)
        ensures
            final(f)@ == old(f)@ + self.rendered(),
    {
        match self {
            CommentOrNewLines::Comment(c) => c.fmt(f),
            CommentOrNewLines::NewLines(n) => f.append(n),
        }
    }
}

/// The texts of a sequence of comments and newlines, one after the other.
pub open spec fn comment_nls_rendered<'a>(s: Seq<CommentOrNewLines<'a>>) -> Seq<char> {
    concat(s.map_values(|c: CommentOrNewLines<'a>| c.rendered()))
}

/// Writes a run of comments and newlines, each in turn.
fn fmt_comment_nls<'a>(s: &Vec<CommentOrNewLines<'a>>, f: &mut String)
    ensures
        final(f)@ == old(f)@ + comment_nls_rendered(s@),
{
    let ghost parts = s@.map_values(|c: CommentOrNewLines<'a>| c.rendered());
    let ghost start = f@;
    let n = s.len();
    let mut i: usize = 0;
    while i < n
        invariant
            n == s@.len() == parts.len(),
            i <= n,
            parts == s@.map_values(|c: CommentOrNewLines<'a>| c.rendered()),
            f@ == start + concat(parts.take(i as int)),
        decreases n - i,
    {
        s[i].fmt(f);
        proof {
            lemma_concat_push(parts, i as int);
        }
        i = i + 1;
    }
    proof {
        lemma_concat_all(parts);
    }
}

// Nodes that hold values, which nest.

/// The quotes around a string of the given kind.
pub open spec fn quotes(t: StrType) -> Seq<char> {
    match t {
        StrType::Basic => seq!['"'],
        StrType::MLBasic => seq!['"', '"', '"'],
        StrType::Literal => seq!['\''],
        StrType::MLLiteral => seq!['\'', '\'', '\''],
    }
}

/// The text of a value: integers, floats and booleans as written, strings
/// between the quotes of their kind, the rest as their own texts.
pub open spec fn value_rendered<'a>(v: Value<'a>) -> Seq<char>
    decreases v,
{
    match v {
        Value::Integer(i) => i@,
        Value::Float(i) => i@,
        Value::Boolean(i) => i@,
        Value::DateTime(i) => i.rendered(),
        Value::Array(i) => array_rendered(*i),
        Value::String(i, t) => quotes(t) + i@ + quotes(t),
        Value::InlineTable(i) => inline_table_rendered(*i),
    }
}

/// `[<comment_nls1*><values*><comment_nls2*>]`
pub open spec fn array_rendered<'a>(a: Array<'a>) -> Seq<char>
    decreases a,
{
    seq!['['] + comment_nls_rendered(a.comment_nls1@) + array_values_rendered(a.values@)
        + comment_nls_rendered(a.comment_nls2@) + seq![']']
}

/// The texts of the values of an array, one after the other.
pub open spec fn array_values_rendered<'a>(s: Seq<ArrayValue<'a>>) -> Seq<char>
    decreases s,
{
    if s.len() == 0 {
        Seq::empty()
    } else {
        array_values_rendered(s.drop_last()) + array_value_rendered(s.last())
    }
}

/// `<val><<array_sep.ws1>,<array_sep.ws2>?><comment_nls*>`
pub open spec fn array_value_rendered<'a>(a: ArrayValue<'a>) -> Seq<char>
    decreases a,
{
    value_rendered(*a.val) + match a.array_sep {
        Some(s) => s.ws1@ + seq![','] + s.ws2@,
        None => Seq::empty(),
    } + comment_nls_rendered(a.comment_nls@)
}

/// `{<ws.ws1><keyvals, separated by commas><ws.ws2>}`
pub open spec fn inline_table_rendered<'a>(t: InlineTable<'a>) -> Seq<char>
    decreases t,
{
    seq!['{'] + t.ws.ws1@ + match t.keyvals {
        Some(k) => table_key_vals_rendered(k@),
        None => Seq::empty(),
    } + t.ws.ws2@ + seq!['}']
}

/// The texts of the entries of an inline table, with a comma between each
/// two.
pub open spec fn table_key_vals_rendered<'a>(s: Seq<TableKeyVal<'a>>) -> Seq<char>
    decreases s,
{
    if s.len() == 0 {
        Seq::empty()
    } else if s.len() == 1 {
        table_key_val_rendered(s[0])
    } else {
        table_key_vals_rendered(s.drop_last()) + seq![','] + table_key_val_rendered(s.last())
    }
}

/// `<keyval><kv_sep.ws1><kv_sep.ws2>`
pub open spec fn table_key_val_rendered<'a>(t: TableKeyVal<'a>) -> Seq<char>
    decreases t,
{
    key_val_rendered(t.keyval) + t.kv_sep.ws1@ + t.kv_sep.ws2@
}

/// `<key><keyval_sep.ws1>=<keyval_sep.ws2><val>`
pub open spec fn key_val_rendered<'a>(k: KeyVal<'a>) -> Seq<char>
    decreases k,
{
    k.key@ + k.keyval_sep.ws1@ + seq!['='] + k.keyval_sep.ws2@ + value_rendered(k.val)
}

/// Every array value inside `v` has something after it, and every inline
/// table inside it that has a list of entries has at least one.
pub open spec fn value_can_render<'a>(v: Value<'a>) -> bool
    decreases v,
{
    match v {
        Value::Array(i) => array_can_render(*i),
        Value::InlineTable(i) => inline_table_can_render(*i),
        _ => true,
    }
}

/// Every value of the array can be rendered.
pub open spec fn array_can_render<'a>(a: Array<'a>) -> bool
    decreases a,
{
    forall|i: int| 0 <= i < a.values@.len() ==> array_value_can_render(#[trigger] a.values@[i])
}

/// The array value has at least one comment or newline entry after it, and
/// its value can be rendered.
pub open spec fn array_value_can_render<'a>(a: ArrayValue<'a>) -> bool
    decreases a,
{
    a.comment_nls@.len() > 0 && value_can_render(*a.val)
}

/// A present list of entries is not empty, and each entry can be rendered.
pub open spec fn inline_table_can_render<'a>(t: InlineTable<'a>) -> bool
    decreases t,
{
    match t.keyvals {
        Some(k) => k@.len() > 0 && forall|i: int|
            0 <= i < k@.len() ==> key_val_can_render(#[trigger] k@[i].keyval),
        None => true,
    }
}

/// The value of the pair can be rendered.
pub open spec fn key_val_can_render<'a>(k: KeyVal<'a>) -> bool
    decreases k,
{
    value_can_render(k.val)
}

impl<'a> Value<'a> {
    /// Writes the value.
    pub fn fmt(&self, f: &mut String)
        requires
            value_can_render(*self),
        ensures
            final(f)@ == old(f)@ + value_rendered(*self),
        decreases self,
    {
        proof {
            reveal_strlit("\"");
            reveal_strlit("\"\"\"");
            reveal_strlit("'");
            reveal_strlit("'''");
        }
        match self {
            Value::Integer(i) => f.append(i),
            Value::Float(i) => f.append(i),
            Value::Boolean(i) => f.append(i),
            Value::DateTime(i) => i.fmt(f),
            Value::Array(i) => i.fmt(f),
            Value::String(i, t) => {
                match t {
                    StrType::Basic => {
                        f.append("\"");
                        f.append(i);
                        f.append("\"");
                    },
                    StrType::MLBasic => {
                        f.append("\"\"\"");
                        f.append(i);
                        f.append("\"\"\"");
                    },
                    StrType::Literal => {
                        f.append("'");
                        f.append(i);
                        f.append("'");
                    },
                    StrType::MLLiteral => {
                        f.append("'''");
                        f.append(i);
                        f.append("'''");
                    },
                }
            },
            Value::InlineTable(i) => i.fmt(f),
        }
    }
}

impl<'a> Array<'a> {
    /// Writes the array, brackets included.
    pub fn fmt(&self, f: &mut String)
        requires
            array_can_render(*self),
        ensures
            final(f)@ == old(f)@ + array_rendered(*self),
        decreases self,
    {
        proof {
            reveal_strlit("[");
            reveal_strlit("]");
        }
        f.append("[");
        fmt_comment_nls(&self.comment_nls1, f);
        let ghost start = f@;
        let n = self.values.len();
        let mut i: usize = 0;
        while i < n
            invariant
                n == self.values@.len(),
                i <= n,
                array_can_render(*self),
                f@ == start + array_values_rendered(self.values@.take(i as int)),
            decreases n - i,
        {
            proof {
                assert(self.values@.take(i + 1).drop_last() =~= self.values@.take(i as int));
                assert(decreases_to!(self.values@ => self.values@[i as int]));
            }
            self.values[i].fmt(f);
            i = i + 1;
        }
        proof {
            assert(self.values@.take(n as int) =~= self.values@);
        }
        fmt_comment_nls(&self.comment_nls2, f);
        f.append("]");
    }
}

impl<'a> ArrayValue<'a> {
    /// Writes the value, the comma after it if there is one, then the
    /// comments and newlines that follow.
    pub fn fmt(&self, f: &mut String)
        requires
            array_value_can_render(*self),
        ensures
            final(f)@ == old(f)@ + array_value_rendered(*self),
        decreases self,
    {
        proof {
            reveal_strlit(",");
        }
        self.val.fmt(f);
        match &self.array_sep {
            Some(s) => {
                f.append(s.ws1);
                f.append(",");
                f.append(s.ws2);
            },
            None => {},
        }
        let ghost parts = self.comment_nls@.map_values(|c: CommentOrNewLines<'a>| c.rendered());
        let ghost start = f@;
        let n = self.comment_nls.len();
        let mut i: usize = 0;
        while i < n - 1
            invariant
                n == self.comment_nls@.len() == parts.len(),
                n > 0,
                i <= n - 1,
                parts == self.comment_nls@.map_values(|c: CommentOrNewLines<'a>| c.rendered()),
                f@ == start + concat(parts.take(i as int)),
            decreases n - i,
        {
            self.comment_nls[i].fmt(f);
            proof {
                lemma_concat_push(parts, i as int);
            }
            i = i + 1;
        }
        self.comment_nls[n - 1].fmt(f);
        proof {
            lemma_concat_push(parts, n - 1);
            lemma_concat_all(parts);
        }
    }
}

impl<'a> InlineTable<'a> {
    /// Writes the inline table, braces included.
    pub fn fmt(&self, f: &mut String)
        requires
            inline_table_can_render(*self),
        ensures
            final(f)@ == old(f)@ + inline_table_rendered(*self),
        decreases self,
    {
        proof {
            reveal_strlit("{");
            reveal_strlit("}");
        }
        match &self.keyvals {
            Some(k) => {
                proof {
                    assert(decreases_to!(*self => self.keyvals));
                    assert(decreases_to!(self.keyvals => self.keyvals->0));
                }
                write_table_vector(k, &self.ws, f)
            },
            None => {
                f.append("{");
                f.append(self.ws.ws1);
                f.append(self.ws.ws2);
                f.append("}");
            },
        }
    }
}

/// Writes `{<ws.ws1>`, the entries with a comma after each but the last,
/// then `<ws.ws2>}`.
fn write_table_vector<'a>(kvs: &Vec<TableKeyVal<'a>>, ws: &WSSep<'a>, f: &mut String)
    requires
        kvs@.len() > 0,
        forall|i: int| 0 <= i < kvs@.len() ==> key_val_can_render(#[trigger] kvs@[i].keyval),
    ensures
        final(f)@ == old(f)@ + seq!['{'] + ws.ws1@ + table_key_vals_rendered(kvs@) + ws.ws2@
            + seq!['}'],
    decreases kvs,
{
    proof {
        reveal_strlit("{");
        reveal_strlit("}");
        reveal_strlit(",");
    }
    f.append("{");
    f.append(ws.ws1);
    let ghost start = f@;
    let n = kvs.len();
    let mut i: usize = 0;
    while i < n - 1
        invariant
            n == kvs@.len(),
            n > 0,
            i <= n - 1,
            forall|j: int| 0 <= j < kvs@.len() ==> key_val_can_render(#[trigger] kvs@[j].keyval),
            i == 0 ==> f@ == start,
            i > 0 ==> f@ == start + table_key_vals_rendered(kvs@.take(i as int)) + seq![','],
        decreases n - i,
    {
        proof {
            assert(decreases_to!(*kvs => kvs@));
            assert(decreases_to!(kvs@ => kvs@[i as int]));
        }
        let ghost before = f@;
        kvs[i].fmt(f);
        f.append(",");
        proof {
            reveal_strlit(",");
            let done = kvs@.take(i + 1);
            assert(f@ == before + table_key_val_rendered(kvs@[i as int]) + seq![',']);
            assert(done.last() == kvs@[i as int]);
            if i == 0 {
                assert(done.len() == 1);
                assert(table_key_vals_rendered(done) == table_key_val_rendered(kvs@[0]));
            } else {
                assert(done.drop_last() =~= kvs@.take(i as int));
                assert(table_key_vals_rendered(done) == table_key_vals_rendered(kvs@.take(i as int))
                    + seq![','] + table_key_val_rendered(kvs@[i as int]));
            }
        }
        i = i + 1;
    }
    proof {
        assert(decreases_to!(*kvs => kvs@));
        assert(decreases_to!(kvs@ => kvs@[n - 1]));
        if n > 1 {
            assert(kvs@.take(n as int).drop_last() =~= kvs@.take(n - 1));
        }
        assert(kvs@.take(n as int) =~= kvs@);
    }
    kvs[n - 1].fmt(f);
    f.append(ws.ws2);
    f.append("}");
}

impl<'a> TableKeyVal<'a> {
    /// Writes the pair and the whitespace after it.
    pub fn fmt(&self, f: &mut String)
        requires
            key_val_can_render(self.keyval),
        ensures
            final(f)@ == old(f)@ + table_key_val_rendered(*self),
        decreases self,
    {
        self.keyval.fmt(f);
        f.append(self.kv_sep.ws1);
        f.append(self.kv_sep.ws2);
    }
}

impl<'a> KeyVal<'a> {
    /// Writes the key, the `=` with the whitespace around it, and the value.
    pub fn fmt(&self, f: &mut String)
        requires
            key_val_can_render(*self),
        ensures
            final(f)@ == old(f)@ + key_val_rendered(*self),
        decreases self,
    {
        proof {
            reveal_strlit("=");
        }
        f.append(self.key);
        f.append(self.keyval_sep.ws1);
        f.append("=");
        f.append(self.keyval_sep.ws2);
        self.val.fmt(f);
    }
}

// Lines and whole documents.

impl<'a> Expression<'a> {
    /// The expression holds a key/value pair or a table header, not both,
    /// and a pair's value can be rendered.
    pub open spec fn can_render(&self) -> bool {
        &&& !(self.keyval is Some && self.table is Some)
        &&& (self.keyval matches Some(k) ==> key_val_can_render(k))
    }

    /// `<ws.ws1>`, then the pair or the table header followed by `<ws.ws2>`
    /// if there is one, then the comment if there is one. With neither a pair
    /// nor a table header, `ws.ws2` is not written.
    pub open spec fn rendered(&self) -> Seq<char> {
        let comment = match self.comment {
            Some(c) => c.rendered(),
            None => Seq::empty(),
        };
        match (self.keyval, self.table) {
            (Some(k), _) => self.ws.ws1@ + key_val_rendered(k) + self.ws.ws2@ + comment,
            (None, Some(t)) => self.ws.ws1@ + t.rendered() + self.ws.ws2@ + comment,
            (None, None) => self.ws.ws1@ + comment,
        }
    }

    /// Writes the expression.
    pub fn fmt(&self, f: &mut String)
        requires
            self.can_render(),
        ensures
            final(f)@ == old(f)@ + self.rendered(),
    {
        match (&self.keyval, &self.table, &self.comment) {
            (None, None, None) => f.append(self.ws.ws1),
            (None, None, Some(c)) => {
                f.append(self.ws.ws1);
                c.fmt(f);
            },
            (Some(k), None, Some(c)) => {
                f.append(self.ws.ws1);
                k.fmt(f);
                f.append(self.ws.ws2);
                c.fmt(f);
            },
            (Some(k), None, None) => {
                f.append(self.ws.ws1);
                k.fmt(f);
                f.append(self.ws.ws2);
            },
            (None, Some(t), Some(c)) => {
                f.append(self.ws.ws1);
                t.fmt(f);
                f.append(self.ws.ws2);
                c.fmt(f);
            },
            (None, Some(t), None) => {
                f.append(self.ws.ws1);
                t.fmt(f);
                f.append(self.ws.ws2);
            },
            (Some(_), Some(_), _) => {
                assert(false);
            },
        }
    }
}

impl<'a> NLExpression<'a> {
    /// The expression can be rendered.
    pub open spec fn can_render(&self) -> bool {
        self.expr.can_render()
    }

    /// `<nl><expr>`
    pub open spec fn rendered(&self) -> Seq<char> {
        self.nl@ + self.expr.rendered()
    }

    /// Writes the newline text, then the expression.
    pub fn fmt(&self, f: &mut String)
        requires
            self.can_render(),
        ensures
            final(f)@ == old(f)@ + self.rendered(),
    {
        f.append(self.nl);
        self.expr.fmt(f);
    }
}

impl<'a> Toml<'a> {
    /// The document has at least one line, and each line can be rendered.
    pub open spec fn can_render(&self) -> bool {
        &&& self.exprs@.len() > 0
        &&& forall|i: int| 0 <= i < self.exprs@.len() ==> (#[trigger] self.exprs@[i]).can_render()
    }

    /// The texts of the lines, one after the other.
    pub open spec fn rendered(&self) -> Seq<char> {
        concat(self.exprs@.map_values(|e: NLExpression<'a>| e.rendered()))
    }

    /// Writes the lines in turn.
    pub fn fmt(&self, f: &mut String)
        requires
            self.can_render(),
        ensures
            final(f)@ == old(f)@ + self.rendered(),
    {
        let ghost parts = self.exprs@.map_values(|e: NLExpression<'a>| e.rendered());
        let ghost start = f@;
        let n = self.exprs.len();
        let mut i: usize = 0;
        while i < n - 1
            invariant
                n == self.exprs@.len() == parts.len(),
                n > 0,
                i <= n - 1,
                self.can_render(),
                parts == self.exprs@.map_values(|e: NLExpression<'a>| e.rendered()),
                f@ == start + concat(parts.take(i as int)),
            decreases n - i,
        {
            self.exprs[i].fmt(f);
            proof {
                lemma_concat_push(parts, i as int);
            }
            i = i + 1;
        }
        self.exprs[n - 1].fmt(f);
        proof {
            lemma_concat_push(parts, n - 1);
            lemma_concat_all(parts);
        }
    }
}

// Telling whether a tree can be rendered.

fn value_renderable<'a>(v: &Value<'a>) -> (r: bool)
    ensures
        r == value_can_render(*v),
    decreases v,
{
    match v {
        Value::Array(a) => array_renderable(a),
        Value::InlineTable(t) => inline_table_renderable(t),
        _ => true,
    }
}

fn array_renderable<'a>(a: &Array<'a>) -> (r: bool)
    ensures
        r == array_can_render(*a),
    decreases a,
{
    let n = a.values.len();
    let mut i: usize = 0;
    while i < n
        invariant
            n == a.values@.len(),
            i <= n,
            forall|j: int| 0 <= j < i ==> array_value_can_render(#[trigger] a.values@[j]),
        decreases n - i,
    {
        proof {
            assert(decreases_to!(a.values@ => a.values@[i as int]));
        }
        if !array_value_renderable(&a.values[i]) {
            return false;
        }
        i = i + 1;
    }
    true
}

fn array_value_renderable<'a>(a: &ArrayValue<'a>) -> (r: bool)
    ensures
        r == array_value_can_render(*a),
    decreases a,
{
    a.comment_nls.len() > 0 && value_renderable(&a.val)
}

fn inline_table_renderable<'a>(t: &InlineTable<'a>) -> (r: bool)
    ensures
        r == inline_table_can_render(*t),
    decreases t,
{
    match &t.keyvals {
        Some(k) => {
            if k.len() == 0 {
                return false;
            }
            let n = k.len();
            let mut i: usize = 0;
            while i < n
                invariant
                    n == k@.len(),
                    t.keyvals == Some(*k),
                    i <= n,
                    forall|j: int| 0 <= j < i ==> key_val_can_render(#[trigger] k@[j].keyval),
                decreases n - i,
            {
                proof {
                    assert(decreases_to!(*t => t.keyvals));
                    assert(decreases_to!(t.keyvals => t.keyvals->0));
                    assert(decreases_to!(*k => k@));
                    assert(decreases_to!(k@ => k@[i as int]));
                }
                if !value_renderable(&k[i].keyval.val) {
                    return false;
                }
                i = i + 1;
            }
            true
        },
        None => true,
    }
}

impl<'a> Expression<'a> {
    /// Whether the expression can be rendered.
    pub fn is_renderable(&self) -> (r: bool)
        ensures
            r == self.can_render(),
    {
        match (&self.keyval, &self.table) {
            (Some(_), Some(_)) => false,
            (Some(k), None) => value_renderable(&k.val),
            _ => true,
        }
    }
}

impl<'a> Toml<'a> {
    /// Whether the document can be rendered.
    pub fn is_renderable(&self) -> (r: bool)
        ensures
            r == self.can_render(),
    {
        let n = self.exprs.len();
        if n == 0 {
            return false;
        }
        let mut i: usize = 0;
        while i < n
            invariant
                n == self.exprs@.len(),
                i <= n,
                forall|j: int| 0 <= j < i ==> (#[trigger] self.exprs@[j]).can_render(),
            decreases n - i,
        {
            if !self.exprs[i].expr.is_renderable() {
                return false;
            }
            i = i + 1;
        }
        true
    }
}

// Rendering into a new string.

impl<'a> Toml<'a> {
    /// The text of the node, in a new string.
    pub fn to_string(&self) -> (s: String)
        requires
            self.can_render(),
        ensures
            s@ == self.rendered(),
    {
        let mut s = String::new();
        self.fmt(&mut s);
        proof {
            assert(s@ =~= self.rendered());
        }
        s
    }
}

impl<'a> NLExpression<'a> {
    /// The text of the node, in a new string.
    pub fn to_string(&self) -> (s: String)
        requires
            self.can_render(),
        ensures
            s@ == self.rendered(),
    {
        let mut s = String::new();
        self.fmt(&mut s);
        proof {
            assert(s@ =~= self.rendered());
        }
        s
    }
}

impl<'a> Expression<'a> {
    /// The text of the node, in a new string.
    pub fn to_string(&self) -> (s: String)
        requires
            self.can_render(),
        ensures
            s@ == self.rendered(),
    {
        let mut s = String::new();
        self.fmt(&mut s);
        proof {
            assert(s@ =~= self.rendered());
        }
        s
    }
}

impl<'a> Value<'a> {
    /// The text of the node, in a new string.
    pub fn to_string(&self) -> (s: String)
        requires
            value_can_render(*self),
        ensures
            s@ == value_rendered(*self),
    {
        let mut s = String::new();
        self.fmt(&mut s);
        proof {
            assert(s@ =~= value_rendered(*self));
        }
        s
    }
}

impl<'a> TableType<'a> {
    /// The text of the node, in a new string.
    pub fn to_string(&self) -> (s: String)
        ensures
            s@ == self.rendered(),
    {
        let mut s = String::new();
        self.fmt(&mut s);
        proof {
            assert(s@ =~= self.rendered());
        }
        s
    }
}

impl<'a> TimeOffset<'a> {
    /// The text of the node, in a new string.
    pub fn to_string(&self) -> (s: String)
        ensures
            s@ == self.rendered(),
    {
        let mut s = String::new();
        self.fmt(&mut s);
        proof {
            assert(s@ =~= self.rendered());
        }
        s
    }
}

impl<'a> Comment<'a> {
    /// The text of the node, in a new string.
    pub fn to_string(&self) -> (s: String)
        ensures
            s@ == self.rendered(),
    {
        let mut s = String::new();
        self.fmt(&mut s);
        proof {
            assert(s@ =~= self.rendered());
        }
        s
    }
}

impl<'a> KeyVal<'a> {
    /// The text of the node, in a new string.
    pub fn to_string(&self) -> (s: String)
        requires
            key_val_can_render(*self),
        ensures
            s@ == key_val_rendered(*self),
    {
        let mut s = String::new();
        self.fmt(&mut s);
        proof {
            assert(s@ =~= key_val_rendered(*self));
        }
        s
    }
}

impl<'a> WSKeySep<'a> {
    /// The text of the node, in a new string.
    pub fn to_string(&self) -> (s: String)
        ensures
            s@ == self.rendered(),
    {
        let mut s = String::new();
        self.fmt(&mut s);
        proof {
            assert(s@ =~= self.rendered());
        }
        s
    }
}

impl<'a> Table<'a> {
    /// The text of the node, in a new string.
    pub fn to_string(&self) -> (s: String)
        ensures
            s@ == self.rendered(),
    {
        let mut s = String::new();
        self.fmt(&mut s);
        proof {
            assert(s@ =~= self.rendered());
        }
        s
    }
}

impl<'a> Time<'a> {
    /// The text of the node, in a new string.
    pub fn to_string(&self) -> (s: String)
        ensures
            s@ == self.rendered(),
    {
        let mut s = String::new();
        self.fmt(&mut s);
        proof {
            assert(s@ =~= self.rendered());
        }
        s
    }
}

impl<'a> TimeOffsetAmount<'a> {
    /// The text of the node, in a new string.
    pub fn to_string(&self) -> (s: String)
        ensures
            s@ == self.rendered(),
    {
        let mut s = String::new();
        self.fmt(&mut s);
        proof {
            assert(s@ =~= self.rendered());
        }
        s
    }
}

impl<'a> FullDate<'a> {
    /// The text of the node, in a new string.
    pub fn to_string(&self) -> (s: String)
        ensures
            s@ == self.rendered(),
    {
        let mut s = String::new();
        self.fmt(&mut s);
        proof {
            assert(s@ =~= self.rendered());
        }
        s
    }
}

impl<'a> DateTime<'a> {
    /// The text of the node, in a new string.
    pub fn to_string(&self) -> (s: String)
        ensures
            s@ == self.rendered(),
    {
        let mut s = String::new();
        self.fmt(&mut s);
        proof {
            assert(s@ =~= self.rendered());
        }
        s
    }
}

impl<'a> CommentNewLines<'a> {
    /// The text of the node, in a new string.
    pub fn to_string(&self) -> (s: String)
        ensures
            s@ == self.rendered(),
    {
        let mut s = String::new();
        self.fmt(&mut s);
        proof {
            assert(s@ =~= self.rendered());
        }
        s
    }
}

impl<'a> CommentOrNewLines<'a> {
    /// The text of the node, in a new string.
    pub fn to_string(&self) -> (s: String)
        ensures
            s@ == self.rendered(),
    {
        let mut s = String::new();
        self.fmt(&mut s);
        proof {
            assert(s@ =~= self.rendered());
        }
        s
    }
}

impl<'a> ArrayValue<'a> {
    /// The text of the node, in a new string.
    pub fn to_string(&self) -> (s: String)
        requires
            array_value_can_render(*self),
        ensures
            s@ == array_value_rendered(*self),
    {
        let mut s = String::new();
        self.fmt(&mut s);
        proof {
            assert(s@ =~= array_value_rendered(*self));
        }
        s
    }
}

impl<'a> Array<'a> {
    /// The text of the node, in a new string.
    pub fn to_string(&self) -> (s: String)
        requires
            array_can_render(*self),
        ensures
            s@ == array_rendered(*self),
    {
        let mut s = String::new();
        self.fmt(&mut s);
        proof {
            assert(s@ =~= array_rendered(*self));
        }
        s
    }
}

impl<'a> TableKeyVal<'a> {
    /// The text of the node, in a new string.
    pub fn to_string(&self) -> (s: String)
        requires
            key_val_can_render(self.keyval),
        ensures
            s@ == table_key_val_rendered(*self),
    {
        let mut s = String::new();
        self.fmt(&mut s);
        proof {
            assert(s@ =~= table_key_val_rendered(*self));
        }
        s
    }
}

impl<'a> InlineTable<'a> {
    /// The text of the node, in a new string.
    pub fn to_string(&self) -> (s: String)
        requires
            inline_table_can_render(*self),
        ensures
            s@ == inline_table_rendered(*self),
    {
        let mut s = String::new();
        self.fmt(&mut s);
        proof {
            assert(s@ =~= inline_table_rendered(*self));
        }
        s
    }
}

} // verus!
