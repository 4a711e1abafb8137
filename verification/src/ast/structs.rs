//! The nodes of the syntax tree, and when two of them are equal.
//!
//! Every node keeps the exact text it was read from (whitespace, newlines and
//! comments included), as string slices. Two nodes are equal when their parts
//! are, with one exception: two strings are equal when their contents are,
//! whatever quotes they were written with.

use std::rc::Rc;
use vstd::prelude::*;
use crate::text::{str_eq, opt_str_eq, opt_str_view};
use super::compare::{comp_opt, opt_same};
use crate::types::{DateTime, TimeOffset, TimeOffsetAmount};

verus! {

/// The kinds of string that a parse can fail on.
pub enum ErrorCode {
    BasicString,
    MLBasicString,
    LiteralString,
    MLLiteralString,
}

/// A whole document: a sequence of lines.
#[derive(Debug, Eq)]
pub struct Toml<'a> {
    pub exprs: Vec<NLExpression<'a>>,
}

/// A line: the newline text before it, then its expression.
#[derive(Debug, Eq)]
pub struct NLExpression<'a> {
    pub nl: &'a str,
    pub expr: Expression<'a>,
}

/// One of
/// `<ws.ws1>`,
/// `<ws.ws1><comment>`,
/// `<ws.ws1><keyval><ws.ws2><comment?>`,
/// `<ws.ws1><table><ws.ws2><comment?>`.
#[derive(Debug, Eq)]
pub struct Expression<'a> {
    pub ws: WSSep<'a>,
    pub keyval: Option<KeyVal<'a>>,
    pub table: Option<TableType<'a>>,
    pub comment: Option<Comment<'a>>,
}

/// The quotes a string was written with.
#[derive(Debug, Eq, PartialEq, Structural)]
pub enum StrType {
    Basic,
    MLBasic,
    Literal,
    MLLiteral,
}

/// A value, kept as the text it was written as.
#[derive(Debug, Eq)]
pub enum Value<'a> {
    Integer(&'a str),
    Float(&'a str),
    Boolean(&'a str),
    DateTime(DateTime<'a>),
    Array(Rc<Array<'a>>),
    String(&'a str, StrType),
    InlineTable(Box<InlineTable<'a>>),
}

/// The kinds of value that an array can hold.
#[derive(Debug, Eq, PartialEq, Clone, Copy, Structural)]
pub enum ArrayType {
    Integer,
    Float,
    Boolean,
    DateTime,
    Array,
    String,
    InlineTable,
    /// No value yet: the array is empty.
    Empty,
}

/// A table header: `[<table>]` or `[[<table>]]`.
#[derive(Debug, Eq)]
pub enum TableType<'a> {
    Standard(Table<'a>),
    Array(Table<'a>),
}

/// `#<text>`
#[derive(Debug, Eq)]
pub struct Comment<'a> {
    pub text: &'a str,
}

/// The whitespace on either side of something.
#[derive(Debug, Eq)]
pub struct WSSep<'a> {
    pub ws1: &'a str,
    pub ws2: &'a str,
}

/// `<key><keyval_sep.ws1>=<keyval_sep.ws2><val>`
#[derive(Debug, Eq)]
pub struct KeyVal<'a> {
    pub key: &'a str,
    pub keyval_sep: WSSep<'a>,
    pub val: Value<'a>,
}

/// `<ws.ws1>.<ws.ws2><key>`
#[derive(Debug, Eq)]
pub struct WSKeySep<'a> {
    pub ws: WSSep<'a>,
    pub key: &'a str,
}

/// `<ws.ws1><key><subkeys*><ws.ws2>`, the inside of a table header.
#[derive(Debug, Eq)]
pub struct Table<'a> {
    pub ws: WSSep<'a>,
    pub key: &'a str,
    pub subkeys: Vec<WSKeySep<'a>>,
}

/// `<hour>:<minute>:<second>(.<fraction>)?`
#[derive(Debug, Eq)]
pub struct Time<'a> {
    pub hour: &'a str,
    pub minute: &'a str,
    pub second: &'a str,
    pub fraction: Option<&'a str>,
}

/// `<year>-<month>-<day>`
#[derive(Debug, Eq)]
pub struct FullDate<'a> {
    pub year: &'a str,
    pub month: &'a str,
    pub day: &'a str,
}

/// `<pre_ws_nl><comment><newlines>`
#[derive(Debug, Eq)]
pub struct CommentNewLines<'a> {
    pub pre_ws_nl: &'a str,
    pub comment: Comment<'a>,
    pub newlines: &'a str,
}

/// What may stand between the values of an array: a comment with its
/// newlines, or newlines alone.
#[derive(Debug, Eq)]
pub enum CommentOrNewLines<'a> {
    Comment(CommentNewLines<'a>),
    NewLines(&'a str),
}

/// `<val><<array_sep.ws1>,<array_sep.ws2>?><comment_nls*>`, one value of an
/// array with what follows it.
#[derive(Debug, Eq)]
pub struct ArrayValue<'a> {
    pub val: Rc<Value<'a>>,
    pub array_sep: Option<WSSep<'a>>,
    pub comment_nls: Vec<CommentOrNewLines<'a>>,
}

/// `[<comment_nls1*><values*><comment_nls2*>]`
#[derive(Debug, Eq)]
pub struct Array<'a> {
    pub values: Vec<ArrayValue<'a>>,
    pub comment_nls1: Vec<CommentOrNewLines<'a>>,
    pub comment_nls2: Vec<CommentOrNewLines<'a>>,
}

/// `<keyval><kv_sep.ws1><kv_sep.ws2>`, one entry of an inline table.
#[derive(Debug, Eq)]
pub struct TableKeyVal<'a> {
    pub keyval: KeyVal<'a>,
    pub kv_sep: WSSep<'a>,
}

/// `{<ws.ws1><keyvals, separated by commas><ws.ws2>}`
#[derive(Debug, Eq)]
pub struct InlineTable<'a> {
    pub keyvals: Option<Vec<TableKeyVal<'a>>>,
    pub ws: WSSep<'a>,
}

// The `==` of each node. Each impl stands after the impls of the nodes it
// compares, so that their meaning is known where it is used.

impl<'a> PartialEq for WSSep<'a> {
    fn eq(&self, other: &WSSep<'a>) -> (r: bool) {
        str_eq(self.ws1, other.ws1) && str_eq(self.ws2, other.ws2)
    }
}

impl<'a> vstd::std_specs::cmp::PartialEqSpecImpl for WSSep<'a> {
    open spec fn obeys_eq_spec() -> bool {
        true
    }

    open spec fn eq_spec(&self, other: &WSSep<'a>) -> bool {
        self.ws1@ == other.ws1@ && self.ws2@ == other.ws2@
    }
}

impl<'a> PartialEq for Comment<'a> {
    fn eq(&self, other: &Comment<'a>) -> (r: bool) {
        str_eq(self.text, other.text)
    }
}

impl<'a> vstd::std_specs::cmp::PartialEqSpecImpl for Comment<'a> {
    open spec fn obeys_eq_spec() -> bool {
        true
    }

    open spec fn eq_spec(&self, other: &Comment<'a>) -> bool {
        self.text@ == other.text@
    }
}

impl<'a> PartialEq for WSKeySep<'a> {
    fn eq(&self, other: &WSKeySep<'a>) -> (r: bool) {
        self.ws == other.ws && str_eq(self.key, other.key)
    }
}

impl<'a> vstd::std_specs::cmp::PartialEqSpecImpl for WSKeySep<'a> {
    open spec fn obeys_eq_spec() -> bool {
        true
    }

    open spec fn eq_spec(&self, other: &WSKeySep<'a>) -> bool {
        vstd::std_specs::cmp::PartialEqSpec::eq_spec(&self.ws, &other.ws) && self.key@ == other.key@
    }
}

impl<'a> PartialEq for Table<'a> {
    fn eq(&self, other: &Table<'a>) -> (r: bool) {
        self.ws == other.ws && str_eq(self.key, other.key) && self.subkeys == other.subkeys
    }
}

impl<'a> vstd::std_specs::cmp::PartialEqSpecImpl for Table<'a> {
    open spec fn obeys_eq_spec() -> bool {
        true
    }

    open spec fn eq_spec(&self, other: &Table<'a>) -> bool {
        &&& vstd::std_specs::cmp::PartialEqSpec::eq_spec(&self.ws, &other.ws)
        &&& self.key@ == other.key@
        &&& vstd::std_specs::cmp::PartialEqSpec::eq_spec(&self.subkeys, &other.subkeys)
    }
}

impl<'a> PartialEq for TableType<'a> {
    fn eq(&self, other: &TableType<'a>) -> (r: bool) {
        match (self, other) {
            (TableType::Standard(i), TableType::Standard(j)) if i == j => true,
            (TableType::Array(i), TableType::Array(j)) if i == j => true,
            _ => false,
        }
    }
}

impl<'a> vstd::std_specs::cmp::PartialEqSpecImpl for TableType<'a> {
    open spec fn obeys_eq_spec() -> bool {
        true
    }

    open spec fn eq_spec(&self, other: &TableType<'a>) -> bool {
        match (*self, *other) {
            (TableType::Standard(i), TableType::Standard(j)) => vstd::std_specs::cmp::PartialEqSpec::eq_spec(&i, &j),
            (TableType::Array(i), TableType::Array(j)) => vstd::std_specs::cmp::PartialEqSpec::eq_spec(&i, &j),
            _ => false,
        }
    }
}

impl<'a> PartialEq for TimeOffsetAmount<'a> {
    fn eq(&self, other: &TimeOffsetAmount<'a>) -> (r: bool) {
        str_eq(self.pos_neg, other.pos_neg) && str_eq(self.hour, other.hour) && str_eq(
            self.minute,
            other.minute,
        )
    }
}

impl<'a> vstd::std_specs::cmp::PartialEqSpecImpl for TimeOffsetAmount<'a> {
    open spec fn obeys_eq_spec() -> bool {
        true
    }

    open spec fn eq_spec(&self, other: &TimeOffsetAmount<'a>) -> bool {
        &&& self.pos_neg@ == other.pos_neg@
        &&& self.hour@ == other.hour@
        &&& self.minute@ == other.minute@
    }
}

impl<'a> PartialEq for TimeOffset<'a> {
    fn eq(&self, other: &TimeOffset<'a>) -> (r: bool) {
        match (self, other) {
            (TimeOffset::Z, TimeOffset::Z) => true,
            (TimeOffset::Time(i), TimeOffset::Time(j)) if i == j => true,
            _ => false,
        }
    }
}

impl<'a> vstd::std_specs::cmp::PartialEqSpecImpl for TimeOffset<'a> {
    open spec fn obeys_eq_spec() -> bool {
        true
    }

    open spec fn eq_spec(&self, other: &TimeOffset<'a>) -> bool {
        match (*self, *other) {
            (TimeOffset::Z, TimeOffset::Z) => true,
            (TimeOffset::Time(i), TimeOffset::Time(j)) => vstd::std_specs::cmp::PartialEqSpec::eq_spec(&i, &j),
            _ => false,
        }
    }
}

impl<'a> PartialEq for Time<'a> {
    fn eq(&self, other: &Time<'a>) -> (r: bool) {
        str_eq(self.hour, other.hour) && str_eq(self.minute, other.minute) && str_eq(
            self.second,
            other.second,
        ) && opt_str_eq(&self.fraction, &other.fraction)
    }
}

impl<'a> vstd::std_specs::cmp::PartialEqSpecImpl for Time<'a> {
    open spec fn obeys_eq_spec() -> bool {
        true
    }

    open spec fn eq_spec(&self, other: &Time<'a>) -> bool {
        &&& self.hour@ == other.hour@
        &&& self.minute@ == other.minute@
        &&& self.second@ == other.second@
        &&& opt_str_view(self.fraction) == opt_str_view(other.fraction)
    }
}

impl<'a> PartialEq for FullDate<'a> {
    fn eq(&self, other: &FullDate<'a>) -> (r: bool) {
        str_eq(self.year, other.year) && str_eq(self.month, other.month) && str_eq(
            self.day,
            other.day,
        )
    }
}

impl<'a> vstd::std_specs::cmp::PartialEqSpecImpl for FullDate<'a> {
    open spec fn obeys_eq_spec() -> bool {
        true
    }

    open spec fn eq_spec(&self, other: &FullDate<'a>) -> bool {
        &&& self.year@ == other.year@
        &&& self.month@ == other.month@
        &&& self.day@ == other.day@
    }
}

impl<'a> PartialEq for DateTime<'a> {
    fn eq(&self, other: &DateTime<'a>) -> (r: bool) {
        str_eq(self.year, other.year) && str_eq(self.month, other.month) && str_eq(
            self.day,
            other.day,
        ) && str_eq(self.hour, other.hour) && str_eq(self.minute, other.minute) && str_eq(
            self.second,
            other.second,
        ) && opt_str_eq(&self.fraction, &other.fraction) && self.offset == other.offset
    }
}

impl<'a> vstd::std_specs::cmp::PartialEqSpecImpl for DateTime<'a> {
    open spec fn obeys_eq_spec() -> bool {
        true
    }

    open spec fn eq_spec(&self, other: &DateTime<'a>) -> bool {
        &&& self.year@ == other.year@
        &&& self.month@ == other.month@
        &&& self.day@ == other.day@
        &&& self.hour@ == other.hour@
        &&& self.minute@ == other.minute@
        &&& self.second@ == other.second@
        &&& opt_str_view(self.fraction) == opt_str_view(other.fraction)
        &&& vstd::std_specs::cmp::PartialEqSpec::eq_spec(&self.offset, &other.offset)
    }
}

impl<'a> PartialEq for CommentNewLines<'a> {
    fn eq(&self, other: &CommentNewLines<'a>) -> (r: bool) {
        str_eq(self.pre_ws_nl, other.pre_ws_nl) && self.comment == other.comment && str_eq(
            self.newlines,
            other.newlines,
        )
    }
}

impl<'a> vstd::std_specs::cmp::PartialEqSpecImpl for CommentNewLines<'a> {
    open spec fn obeys_eq_spec() -> bool {
        true
    }

    open spec fn eq_spec(&self, other: &CommentNewLines<'a>) -> bool {
        &&& self.pre_ws_nl@ == other.pre_ws_nl@
        &&& vstd::std_specs::cmp::PartialEqSpec::eq_spec(&self.comment, &other.comment)
        &&& self.newlines@ == other.newlines@
    }
}

impl<'a> PartialEq for CommentOrNewLines<'a> {
    fn eq(&self, other: &CommentOrNewLines<'a>) -> (r: bool) {
        match (self, other) {
            (CommentOrNewLines::Comment(i), CommentOrNewLines::Comment(j)) if i == j => true,
            (CommentOrNewLines::NewLines(i), CommentOrNewLines::NewLines(j)) if str_eq(i, j) => true,
            _ => false,
        }
    }
}

impl<'a> vstd::std_specs::cmp::PartialEqSpecImpl for CommentOrNewLines<'a> {
    open spec fn obeys_eq_spec() -> bool {
        true
    }

    open spec fn eq_spec(&self, other: &CommentOrNewLines<'a>) -> bool {
        match (*self, *other) {
            (CommentOrNewLines::Comment(i), CommentOrNewLines::Comment(j)) => vstd::std_specs::cmp::PartialEqSpec::eq_spec(&i, &j),
            (CommentOrNewLines::NewLines(i), CommentOrNewLines::NewLines(j)) => i@ == j@,
            _ => false,
        }
    }
}

// Equality of the nodes that may hold values, which nest.

/// Two values are equal: of the same kind, with equal parts; two strings
/// are equal when their texts are, whatever their quotes.
pub open spec fn value_same<'a>(a: Value<'a>, b: Value<'a>) -> bool
    decreases a,
{
    match (a, b) {
        (Value::Integer(i), Value::Integer(j)) => i@ == j@,
        (Value::Float(i), Value::Float(j)) => i@ == j@,
        (Value::Boolean(i), Value::Boolean(j)) => i@ == j@,
        (Value::DateTime(i), Value::DateTime(j)) => vstd::std_specs::cmp::PartialEqSpec::eq_spec(&i, &j),
        (Value::Array(i), Value::Array(j)) => array_same(*i, *j),
        (Value::String(i, _), Value::String(j, _)) => i@ == j@,
        (Value::InlineTable(i), Value::InlineTable(j)) => inline_table_same(*i, *j),
        _ => false,
    }
}

/// Two arrays have pairwise equal values and equal comments and newlines.
pub open spec fn array_same<'a>(a: Array<'a>, b: Array<'a>) -> bool
    decreases a,
{
    &&& a.values@.len() == b.values@.len()
    &&& forall|i: int|
        0 <= i < a.values@.len() ==> array_value_same(#[trigger] a.values@[i], b.values@[i])
    &&& vstd::std_specs::cmp::PartialEqSpec::eq_spec(&a.comment_nls1, &b.comment_nls1)
    &&& vstd::std_specs::cmp::PartialEqSpec::eq_spec(&a.comment_nls2, &b.comment_nls2)
}

/// Two array values are equal, and so is what follows them.
pub open spec fn array_value_same<'a>(a: ArrayValue<'a>, b: ArrayValue<'a>) -> bool
    decreases a,
{
    &&& value_same(*a.val, *b.val)
    &&& opt_same(a.array_sep, b.array_sep)
    &&& vstd::std_specs::cmp::PartialEqSpec::eq_spec(&a.comment_nls, &b.comment_nls)
}

/// Two inline tables have pairwise equal entries (or both none) and equal
/// whitespace.
pub open spec fn inline_table_same<'a>(a: InlineTable<'a>, b: InlineTable<'a>) -> bool
    decreases a,
{
    &&& match (a.keyvals, b.keyvals) {
        (Some(x), Some(y)) => {
            &&& x@.len() == y@.len()
            &&& forall|i: int| 0 <= i < x@.len() ==> table_key_val_same(#[trigger] x@[i], y@[i])
        },
        (None, None) => true,
        _ => false,
    }
    &&& vstd::std_specs::cmp::PartialEqSpec::eq_spec(&a.ws, &b.ws)
}

/// Two entries of inline tables are equal.
pub open spec fn table_key_val_same<'a>(a: TableKeyVal<'a>, b: TableKeyVal<'a>) -> bool
    decreases a,
{
    key_val_same(a.keyval, b.keyval) && vstd::std_specs::cmp::PartialEqSpec::eq_spec(&a.kv_sep, &b.kv_sep)
}

/// Two key/value pairs have equal keys, separators and values.
pub open spec fn key_val_same<'a>(a: KeyVal<'a>, b: KeyVal<'a>) -> bool
    decreases a,
{
    &&& a.key@ == b.key@
    &&& vstd::std_specs::cmp::PartialEqSpec::eq_spec(&a.keyval_sep, &b.keyval_sep)
    &&& value_same(a.val, b.val)
}

fn value_eq<'a>(a: &Value<'a>, b: &Value<'a>) -> (r: bool)
    ensures
        r == value_same(*a, *b),
    decreases a,
{
    match (a, b) {
        (Value::Integer(i), Value::Integer(j)) if str_eq(i, j) => true,
        (Value::Float(i), Value::Float(j)) if str_eq(i, j) => true,
        (Value::Boolean(i), Value::Boolean(j)) if str_eq(i, j) => true,
        (Value::DateTime(i), Value::DateTime(j)) if i == j => true,
        (Value::Array(i), Value::Array(j)) if array_eq(i, j) => true,
        (Value::String(i, _t), Value::String(j, _s)) if str_eq(i, j) => true,
        (Value::InlineTable(i), Value::InlineTable(j)) if inline_table_eq(i, j) => true,
        _ => false,
    }
}

fn array_eq<'a>(a: &Array<'a>, b: &Array<'a>) -> (r: bool)
    ensures
        r == array_same(*a, *b),
    decreases a,
{
    if a.values.len() != b.values.len() {
        return false;
    }
    let n = a.values.len();
    let mut k: usize = 0;
    while k < n
        invariant
            n == a.values@.len() == b.values@.len(),
            k <= n,
            forall|i: int| 0 <= i < k ==> array_value_same(#[trigger] a.values@[i], b.values@[i]),
        decreases n - k,
    {
        if !array_value_eq(&a.values[k], &b.values[k]) {
            return false;
        }
        k = k + 1;
    }
    a.comment_nls1 == b.comment_nls1 && a.comment_nls2 == b.comment_nls2
}

fn array_value_eq<'a>(a: &ArrayValue<'a>, b: &ArrayValue<'a>) -> (r: bool)
    ensures
        r == array_value_same(*a, *b),
    decreases a,
{
    value_eq(&a.val, &b.val) && comp_opt(&a.array_sep, &b.array_sep) && a.comment_nls == b.comment_nls
}

fn inline_table_eq<'a>(a: &InlineTable<'a>, b: &InlineTable<'a>) -> (r: bool)
    ensures
        r == inline_table_same(*a, *b),
    decreases a,
{
    let same_keyvals = match (&a.keyvals, &b.keyvals) {
        (Some(x), Some(y)) => {
            if x.len() != y.len() {
                false
            } else {
                let n = x.len();
                let mut k: usize = 0;
                let mut all = true;
                while k < n
                    invariant
                        n == x@.len() == y@.len(),
                        a.keyvals == Some(*x),
                        k <= n,
                        all == forall|i: int| 0 <= i < k ==> table_key_val_same(#[trigger] x@[i], y@[i]),
                    decreases n - k,
                {
                    proof {
                        assert(decreases_to!(*a => a.keyvals));
                        assert(decreases_to!(a.keyvals => a.keyvals->0));
                        assert(decreases_to!(*x => x@));
                        assert(decreases_to!(x@ => x@[k as int]));
                    }
                    if !table_key_val_eq(&x[k], &y[k]) {
                        all = false;
                    }
                    k = k + 1;
                }
                all
            }
        },
        (None, None) => true,
        _ => false,
    };
    same_keyvals && a.ws == b.ws
}

fn table_key_val_eq<'a>(a: &TableKeyVal<'a>, b: &TableKeyVal<'a>) -> (r: bool)
    ensures
        r == table_key_val_same(*a, *b),
    decreases a,
{
    key_val_eq(&a.keyval, &b.keyval) && a.kv_sep == b.kv_sep
}

fn key_val_eq<'a>(a: &KeyVal<'a>, b: &KeyVal<'a>) -> (r: bool)
    ensures
        r == key_val_same(*a, *b),
    decreases a,
{
    str_eq(a.key, b.key) && a.keyval_sep == b.keyval_sep && value_eq(&a.val, &b.val)
}


impl<'a> PartialEq for KeyVal<'a> {
    fn eq(&self, other: &KeyVal<'a>) -> (r: bool) {
        key_val_eq(self, other)
    }
}

impl<'a> vstd::std_specs::cmp::PartialEqSpecImpl for KeyVal<'a> {
    open spec fn obeys_eq_spec() -> bool {
        true
    }

    open spec fn eq_spec(&self, other: &KeyVal<'a>) -> bool {
        key_val_same(*self, *other)
    }
}

impl<'a> PartialEq for Value<'a> {
    fn eq(&self, other: &Value<'a>) -> (r: bool) {
        value_eq(self, other)
    }
}

impl<'a> vstd::std_specs::cmp::PartialEqSpecImpl for Value<'a> {
    open spec fn obeys_eq_spec() -> bool {
        true
    }

    open spec fn eq_spec(&self, other: &Value<'a>) -> bool {
        value_same(*self, *other)
    }
}

impl<'a> PartialEq for ArrayValue<'a> {
    fn eq(&self, other: &ArrayValue<'a>) -> (r: bool) {
        array_value_eq(self, other)
    }
}

impl<'a> vstd::std_specs::cmp::PartialEqSpecImpl for ArrayValue<'a> {
    open spec fn obeys_eq_spec() -> bool {
        true
    }

    open spec fn eq_spec(&self, other: &ArrayValue<'a>) -> bool {
        array_value_same(*self, *other)
    }
}

impl<'a> PartialEq for Array<'a> {
    fn eq(&self, other: &Array<'a>) -> (r: bool) {
        array_eq(self, other)
    }
}

impl<'a> vstd::std_specs::cmp::PartialEqSpecImpl for Array<'a> {
    open spec fn obeys_eq_spec() -> bool {
        true
    }

    open spec fn eq_spec(&self, other: &Array<'a>) -> bool {
        array_same(*self, *other)
    }
}

impl<'a> PartialEq for TableKeyVal<'a> {
    fn eq(&self, other: &TableKeyVal<'a>) -> (r: bool) {
        table_key_val_eq(self, other)
    }
}

impl<'a> vstd::std_specs::cmp::PartialEqSpecImpl for TableKeyVal<'a> {
    open spec fn obeys_eq_spec() -> bool {
        true
    }

    open spec fn eq_spec(&self, other: &TableKeyVal<'a>) -> bool {
        table_key_val_same(*self, *other)
    }
}

impl<'a> PartialEq for InlineTable<'a> {
    fn eq(&self, other: &InlineTable<'a>) -> (r: bool) {
        inline_table_eq(self, other)
    }
}

impl<'a> vstd::std_specs::cmp::PartialEqSpecImpl for InlineTable<'a> {
    open spec fn obeys_eq_spec() -> bool {
        true
    }

    open spec fn eq_spec(&self, other: &InlineTable<'a>) -> bool {
        inline_table_same(*self, *other)
    }
}


impl<'a> PartialEq for Expression<'a> {
    fn eq(&self, other: &Expression<'a>) -> (r: bool) {
        self.ws == other.ws && comp_opt(&self.keyval, &other.keyval) && comp_opt(
            &self.table,
            &other.table,
        ) && comp_opt(&self.comment, &other.comment)
    }
}

impl<'a> vstd::std_specs::cmp::PartialEqSpecImpl for Expression<'a> {
    open spec fn obeys_eq_spec() -> bool {
        true
    }

    open spec fn eq_spec(&self, other: &Expression<'a>) -> bool {
        &&& vstd::std_specs::cmp::PartialEqSpec::eq_spec(&self.ws, &other.ws)
        &&& opt_same(self.keyval, other.keyval)
        &&& opt_same(self.table, other.table)
        &&& opt_same(self.comment, other.comment)
    }
}

impl<'a> PartialEq for NLExpression<'a> {
    fn eq(&self, other: &NLExpression<'a>) -> (r: bool) {
        str_eq(self.nl, other.nl) && self.expr == other.expr
    }
}

impl<'a> vstd::std_specs::cmp::PartialEqSpecImpl for NLExpression<'a> {
    open spec fn obeys_eq_spec() -> bool {
        true
    }

    open spec fn eq_spec(&self, other: &NLExpression<'a>) -> bool {
        self.nl@ == other.nl@ && vstd::std_specs::cmp::PartialEqSpec::eq_spec(&self.expr, &other.expr)
    }
}

impl<'a> PartialEq for Toml<'a> {
    fn eq(&self, other: &Toml<'a>) -> (r: bool) {
        self.exprs == other.exprs
    }
}

impl<'a> vstd::std_specs::cmp::PartialEqSpecImpl for Toml<'a> {
    open spec fn obeys_eq_spec() -> bool {
        true
    }

    open spec fn eq_spec(&self, other: &Toml<'a>) -> bool {
        vstd::std_specs::cmp::PartialEqSpec::eq_spec(&self.exprs, &other.exprs)
    }
}

} // verus!
