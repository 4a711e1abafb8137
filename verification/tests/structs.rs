use std::rc::Rc;

use tomllib::ast::compare::comp_opt;
use tomllib::ast::structs::{
    Array, ArrayType, ArrayValue, Comment, CommentNewLines, CommentOrNewLines, ErrorCode,
    Expression, FullDate, InlineTable, KeyVal, NLExpression, StrType, Table, TableKeyVal,
    TableType, Time, Toml, Value, WSKeySep, WSSep,
};
use tomllib::text::{opt_str_eq, str_eq};
use tomllib::types::{DateTime, TimeOffset, TimeOffsetAmount};

fn ws<'a>(ws1: &'a str, ws2: &'a str) -> WSSep<'a> {
    WSSep { ws1, ws2 }
}

fn int_value(s: &str) -> Value<'_> {
    Value::Integer(s)
}

fn array_value<'a>(val: Value<'a>, sep: Option<WSSep<'a>>, nl: &'a str) -> ArrayValue<'a> {
    ArrayValue {
        val: Rc::new(val),
        array_sep: sep,
        comment_nls: vec![CommentOrNewLines::NewLines(nl)],
    }
}

fn key_val<'a>(key: &'a str, val: Value<'a>) -> KeyVal<'a> {
    KeyVal { key, keyval_sep: ws(" ", " "), val }
}

fn date_time<'a>(fraction: Option<&'a str>, offset: TimeOffset<'a>) -> DateTime<'a> {
    DateTime {
        year: "1979",
        month: "05",
        day: "27",
        hour: "07",
        minute: "32",
        second: "00",
        fraction,
        offset,
    }
}

#[test]
fn test_comp_opt() {
    let (a, b) = (Some("value"), Some("value"));
    assert!(comp_opt(&a, &b));
    let d: Option<&str> = None;
    let c = Some("stuff");
    assert!(!comp_opt(&c, &d));
}

#[test]
fn comp_opt_all_cases() {
    let none: Option<u32> = None;
    assert!(comp_opt(&none, &none));
    assert!(comp_opt(&Some(3u32), &Some(3u32)));
    assert!(!comp_opt(&Some(3u32), &Some(4u32)));
    assert!(!comp_opt(&none, &Some(4u32)));
    assert!(!comp_opt(&Some(3u32), &none));
}

#[test]
fn comp_opt_on_nodes() {
    let a = Some(Comment { text: " note" });
    let b = Some(Comment { text: " note" });
    let c = Some(Comment { text: " other" });
    assert!(comp_opt(&a, &b));
    assert!(!comp_opt(&a, &c));
}

#[test]
fn string_slices_compare_by_content() {
    let owned = String::from("abc");
    assert!(str_eq("abc", owned.as_str()));
    assert!(!str_eq("abc", "abd"));
    assert!(!str_eq("abc", "ab"));
    assert!(opt_str_eq(&Some("1"), &Some("1")));
    assert!(!opt_str_eq(&Some("1"), &None));
    assert!(opt_str_eq(&None, &None));
}

#[test]
fn comment_renders_with_hash() {
    let c = Comment { text: " a comment" };
    assert_eq!(c.to_string(), "# a comment");
    let mut out = String::from("x = 1 ");
    c.fmt(&mut out);
    assert_eq!(out, "x = 1 # a comment");
}

#[test]
fn table_headers_render() {
    let table = Table {
        ws: ws(" ", "\t"),
        key: "a",
        subkeys: vec![
            WSKeySep { ws: ws("", " "), key: "b" },
            WSKeySep { ws: ws(" ", ""), key: "\"c\"" },
        ],
    };
    assert_eq!(table.to_string(), " a. b .\"c\"\t");
    assert_eq!(TableType::Standard(table).to_string(), "[ a. b .\"c\"\t]");
    let plain = Table { ws: ws("", ""), key: "fruit", subkeys: vec![] };
    assert_eq!(TableType::Array(plain).to_string(), "[[fruit]]");
    assert_eq!(WSKeySep { ws: ws(" ", "  "), key: "k" }.to_string(), " .  k");
}

#[test]
fn dates_and_times_render() {
    let offset = TimeOffset::Time(TimeOffsetAmount { pos_neg: "-", hour: "07", minute: "00" });
    assert_eq!(offset.to_string(), "-07:00");
    assert_eq!(TimeOffset::Z.to_string(), "Z");
    assert_eq!(date_time(None, TimeOffset::Z).to_string(), "1979-05-27T07:32:00Z");
    assert_eq!(date_time(Some("999999"), offset).to_string(), "1979-05-27T07:32:00.999999-07:00");
    let t = Time { hour: "07", minute: "32", second: "00", fraction: Some("5") };
    assert_eq!(t.to_string(), "07:32:00.5");
    let t = Time { hour: "23", minute: "59", second: "60", fraction: None };
    assert_eq!(t.to_string(), "23:59:60");
    assert_eq!(FullDate { year: "2016", month: "02", day: "29" }.to_string(), "2016-02-29");
    let amount = TimeOffsetAmount { pos_neg: "+", hour: "05", minute: "30" };
    assert_eq!(amount.to_string(), "+05:30");
}

#[test]
fn strings_render_with_their_quotes() {
    assert_eq!(Value::String("hi", StrType::Basic).to_string(), "\"hi\"");
    assert_eq!(Value::String("hi", StrType::MLBasic).to_string(), "\"\"\"hi\"\"\"");
    assert_eq!(Value::String("hi", StrType::Literal).to_string(), "'hi'");
    assert_eq!(Value::String("hi", StrType::MLLiteral).to_string(), "'''hi'''");
}

#[test]
fn scalars_render_as_written() {
    assert_eq!(Value::Integer("+1_000").to_string(), "+1_000");
    assert_eq!(Value::Float("6.626e-34").to_string(), "6.626e-34");
    assert_eq!(Value::Boolean("true").to_string(), "true");
    assert_eq!(Value::DateTime(date_time(None, TimeOffset::Z)).to_string(), "1979-05-27T07:32:00Z");
}

#[test]
fn comments_and_newlines_render() {
    let cnl = CommentNewLines { pre_ws_nl: "  ", comment: Comment { text: " c" }, newlines: "\n" };
    assert_eq!(cnl.to_string(), "  # c\n");
    assert_eq!(CommentOrNewLines::Comment(cnl).to_string(), "  # c\n");
    assert_eq!(CommentOrNewLines::NewLines("\n\n").to_string(), "\n\n");
}

#[test]
fn arrays_render() {
    let array = Array {
        values: vec![
            array_value(int_value("1"), Some(ws("", " ")), ""),
            array_value(int_value("2"), Some(ws(" ", "")), "\n"),
            array_value(int_value("3"), None, ""),
        ],
        comment_nls1: vec![CommentOrNewLines::NewLines(" ")],
        comment_nls2: vec![CommentOrNewLines::Comment(CommentNewLines {
            pre_ws_nl: " ",
            comment: Comment { text: "end" },
            newlines: "\n",
        })],
    };
    assert_eq!(array.to_string(), "[ 1, 2 ,\n3 #end\n]");
    let value = Value::Array(Rc::new(array));
    assert_eq!(value.to_string(), "[ 1, 2 ,\n3 #end\n]");
    let empty = Array { values: vec![], comment_nls1: vec![], comment_nls2: vec![] };
    assert_eq!(empty.to_string(), "[]");
    let one = array_value(Value::String("s", StrType::Literal), Some(ws(" ", " ")), "");
    assert_eq!(one.to_string(), "'s' , ");
}

#[test]
fn nested_arrays_render() {
    let inner = Array {
        values: vec![array_value(int_value("1"), None, "")],
        comment_nls1: vec![],
        comment_nls2: vec![],
    };
    let outer = Array {
        values: vec![
            array_value(Value::Array(Rc::new(inner)), Some(ws("", " ")), ""),
            array_value(Value::Boolean("false"), None, ""),
        ],
        comment_nls1: vec![],
        comment_nls2: vec![],
    };
    assert_eq!(outer.to_string(), "[[1], false]");
}

#[test]
fn inline_tables_render() {
    let table = InlineTable {
        keyvals: Some(vec![
            TableKeyVal { keyval: key_val("x", int_value("1")), kv_sep: ws("", "") },
            TableKeyVal { keyval: key_val("y", int_value("2")), kv_sep: ws("", " ") },
        ]),
        ws: ws(" ", ""),
    };
    assert_eq!(table.to_string(), "{ x = 1,y = 2 }");
    let single = InlineTable {
        keyvals: Some(vec![TableKeyVal { keyval: key_val("x", int_value("1")), kv_sep: ws(" ", "") }]),
        ws: ws("", ""),
    };
    assert_eq!(single.to_string(), "{x = 1 }");
    let empty = InlineTable { keyvals: None, ws: ws(" ", "  ") };
    assert_eq!(empty.to_string(), "{   }");
    let entry = TableKeyVal { keyval: key_val("k", Value::Boolean("true")), kv_sep: ws("\t", " ") };
    assert_eq!(entry.to_string(), "k = true\t ");
    let value = Value::InlineTable(Box::new(empty));
    assert_eq!(value.to_string(), "{   }");
}

#[test]
fn key_values_render() {
    let kv = KeyVal { key: "name", keyval_sep: ws(" ", "  "), val: Value::String("Tom", StrType::Basic) };
    assert_eq!(kv.to_string(), "name =  \"Tom\"");
}

#[test]
fn expressions_render() {
    let blank = Expression { ws: ws("  ", "ignored"), keyval: None, table: None, comment: None };
    assert_eq!(blank.to_string(), "  ");
    let comment_only = Expression {
        ws: ws(" ", "ignored"),
        keyval: None,
        table: None,
        comment: Some(Comment { text: "c" }),
    };
    assert_eq!(comment_only.to_string(), " #c");
    let kv = Expression {
        ws: ws("", " "),
        keyval: Some(key_val("a", int_value("1"))),
        table: None,
        comment: Some(Comment { text: " x" }),
    };
    assert_eq!(kv.to_string(), "a = 1 # x");
    let kv_bare = Expression {
        ws: ws("", "\t"),
        keyval: Some(key_val("a", int_value("1"))),
        table: None,
        comment: None,
    };
    assert_eq!(kv_bare.to_string(), "a = 1\t");
    let header = Table { ws: ws("", ""), key: "t", subkeys: vec![] };
    let tbl = Expression {
        ws: ws(" ", " "),
        keyval: None,
        table: Some(TableType::Standard(header)),
        comment: Some(Comment { text: "" }),
    };
    assert_eq!(tbl.to_string(), " [t] #");
    let header = Table { ws: ws("", ""), key: "t", subkeys: vec![] };
    let tbl_bare = Expression {
        ws: ws("", "  "),
        keyval: None,
        table: Some(TableType::Array(header)),
        comment: None,
    };
    assert_eq!(tbl_bare.to_string(), "[[t]]  ");
}

#[test]
fn documents_render_line_by_line() {
    let doc = Toml {
        exprs: vec![
            NLExpression {
                nl: "",
                expr: Expression {
                    ws: ws("", ""),
                    keyval: None,
                    table: None,
                    comment: Some(Comment { text: " doc" }),
                },
            },
            NLExpression {
                nl: "\n",
                expr: Expression {
                    ws: ws("", ""),
                    keyval: None,
                    table: Some(TableType::Standard(Table { ws: ws("", ""), key: "owner", subkeys: vec![] })),
                    comment: None,
                },
            },
            NLExpression {
                nl: "\n",
                expr: Expression {
                    ws: ws("", ""),
                    keyval: Some(key_val("name", Value::String("Tom", StrType::Basic))),
                    table: None,
                    comment: None,
                },
            },
        ],
    };
    assert_eq!(doc.to_string(), "# doc\n[owner]\nname = \"Tom\"");
    let line = NLExpression {
        nl: "\r\n",
        expr: Expression { ws: ws(" ", ""), keyval: None, table: None, comment: None },
    };
    assert_eq!(line.to_string(), "\r\n ");
}

#[test]
fn string_equality_ignores_quotes() {
    assert!(Value::String("a", StrType::Basic) == Value::String("a", StrType::Literal));
    assert!(Value::String("a", StrType::MLBasic) == Value::String("a", StrType::MLLiteral));
    assert!(Value::String("a", StrType::Basic) != Value::String("b", StrType::Basic));
}

#[test]
fn values_of_different_kinds_differ() {
    assert!(Value::Integer("1") != Value::Float("1"));
    assert!(Value::Boolean("true") != Value::String("true", StrType::Basic));
    assert!(Value::Integer("1") == Value::Integer("1"));
    assert!(Value::Integer("1") != Value::Integer("01"));
}

#[test]
fn nested_values_compare_deeply() {
    let make = |last: &'static str, sep: &'static str| {
        Value::Array(Rc::new(Array {
            values: vec![
                array_value(int_value("1"), Some(ws("", sep)), ""),
                array_value(int_value(last), None, ""),
            ],
            comment_nls1: vec![],
            comment_nls2: vec![],
        }))
    };
    assert!(make("2", " ") == make("2", " "));
    assert!(make("2", " ") != make("3", " "));
    assert!(make("2", " ") != make("2", "  "));
    let table = |v: &'static str| {
        Value::InlineTable(Box::new(InlineTable {
            keyvals: Some(vec![TableKeyVal { keyval: key_val("x", int_value(v)), kv_sep: ws("", "") }]),
            ws: ws("", ""),
        }))
    };
    assert!(table("1") == table("1"));
    assert!(table("1") != table("2"));
    let none = Value::InlineTable(Box::new(InlineTable { keyvals: None, ws: ws("", "") }));
    assert!(table("1") != none);
}

#[test]
fn whitespace_matters_to_equality() {
    assert!(ws(" ", "") == ws(" ", ""));
    assert!(ws(" ", "") != ws("  ", ""));
    assert!(Comment { text: "a" } != Comment { text: "a " });
    let a = Expression { ws: ws("", ""), keyval: None, table: None, comment: None };
    let b = Expression { ws: ws(" ", ""), keyval: None, table: None, comment: None };
    assert!(a != b);
}

#[test]
fn dates_compare_by_every_part() {
    assert!(date_time(None, TimeOffset::Z) == date_time(None, TimeOffset::Z));
    assert!(date_time(Some("1"), TimeOffset::Z) != date_time(None, TimeOffset::Z));
    let off = |m: &'static str| TimeOffset::Time(TimeOffsetAmount { pos_neg: "+", hour: "01", minute: m });
    assert!(date_time(None, off("00")) == date_time(None, off("00")));
    assert!(date_time(None, off("00")) != date_time(None, off("30")));
    assert!(date_time(None, off("00")) != date_time(None, TimeOffset::Z));
    let t = |f: Option<&'static str>| Time { hour: "1", minute: "2", second: "3", fraction: f };
    assert!(t(Some("5")) == t(Some("5")));
    assert!(t(Some("5")) != t(None));
    assert!(FullDate { year: "1", month: "2", day: "3" } != FullDate { year: "1", month: "2", day: "4" });
}

#[test]
fn tables_and_documents_compare() {
    let t = |k: &'static str| Table { ws: ws("", ""), key: "a", subkeys: vec![WSKeySep { ws: ws("", ""), key: k }] };
    assert!(t("b") == t("b"));
    assert!(t("b") != t("c"));
    assert!(TableType::Standard(t("b")) == TableType::Standard(t("b")));
    assert!(TableType::Standard(t("b")) != TableType::Array(t("b")));
    let doc = |v: &'static str| Toml {
        exprs: vec![NLExpression {
            nl: "",
            expr: Expression { ws: ws("", ""), keyval: Some(key_val("k", int_value(v))), table: None, comment: None },
        }],
    };
    assert!(doc("1") == doc("1"));
    assert!(doc("1") != doc("2"));
    let cnl = |n: &'static str| CommentOrNewLines::NewLines(n);
    assert!(cnl("\n") == cnl("\n"));
    assert!(cnl("\n") != cnl("\n\n"));
}

#[test]
fn equality_is_an_equivalence_on_examples() {
    let a = Value::String("x", StrType::Basic);
    let b = Value::String("x", StrType::Literal);
    let c = Value::String("x", StrType::MLLiteral);
    assert!(a == a);
    assert!(a == b && b == a);
    assert!(a == b && b == c && a == c);
}

#[test]
fn enums_without_text() {
    assert!(ArrayType::Integer == ArrayType::Integer);
    assert!(ArrayType::Integer != ArrayType::Empty);
    let copied = ArrayType::InlineTable;
    let again = copied;
    assert_eq!(copied, again);
    assert!(StrType::Basic != StrType::Literal);
    let _codes = [ErrorCode::BasicString, ErrorCode::MLBasicString, ErrorCode::LiteralString, ErrorCode::MLLiteralString];
}

#[test]
fn renderability_is_checked() {
    let good = Toml {
        exprs: vec![NLExpression {
            nl: "",
            expr: Expression { ws: ws("", ""), keyval: Some(key_val("a", int_value("1"))), table: None, comment: None },
        }],
    };
    assert!(good.is_renderable());
    let empty = Toml { exprs: vec![] };
    assert!(!empty.is_renderable());
    let both = Expression {
        ws: ws("", ""),
        keyval: Some(key_val("a", int_value("1"))),
        table: Some(TableType::Standard(Table { ws: ws("", ""), key: "t", subkeys: vec![] })),
        comment: None,
    };
    assert!(!both.is_renderable());
    let bare_value = ArrayValue { val: Rc::new(int_value("1")), array_sep: None, comment_nls: vec![] };
    let array = Array { values: vec![bare_value], comment_nls1: vec![], comment_nls2: vec![] };
    let with_bad_array = Expression {
        ws: ws("", ""),
        keyval: Some(key_val("a", Value::Array(Rc::new(array)))),
        table: None,
        comment: None,
    };
    assert!(!with_bad_array.is_renderable());
    let empty_entries = InlineTable { keyvals: Some(vec![]), ws: ws("", "") };
    let with_bad_table = Expression {
        ws: ws("", ""),
        keyval: Some(key_val("a", Value::InlineTable(Box::new(empty_entries)))),
        table: None,
        comment: None,
    };
    assert!(!with_bad_table.is_renderable());
    let fine_table = InlineTable { keyvals: None, ws: ws("", "") };
    let with_fine_table = Expression {
        ws: ws("", ""),
        keyval: Some(key_val("a", Value::InlineTable(Box::new(fine_table)))),
        table: None,
        comment: None,
    };
    assert!(with_fine_table.is_renderable());
}

#[test]
fn equal_strings_with_other_quotes_render_differently() {
    let a = Value::String("v", StrType::Basic);
    let b = Value::String("v", StrType::MLBasic);
    assert!(a == b);
    assert_ne!(a.to_string(), b.to_string());
}

#[test]
fn equal_trees_with_same_quotes_render_alike() {
    let make = || Toml {
        exprs: vec![NLExpression {
            nl: "\n",
            expr: Expression {
                ws: ws(" ", " "),
                keyval: Some(key_val("k", Value::String("s", StrType::Literal))),
                table: None,
                comment: Some(Comment { text: "c" }),
            },
        }],
    };
    let (a, b) = (make(), make());
    assert!(a == b);
    assert_eq!(a.to_string(), b.to_string());
    assert_eq!(a.to_string(), "\n k = 's' #c");
}

#[test]
fn comp_opt_agrees_with_option_equality() {
    let cases = [None, Some("a"), Some("b")];
    for x in cases.iter() {
        for y in cases.iter() {
            assert_eq!(comp_opt(x, y), x == y);
        }
    }
}
