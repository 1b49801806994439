use python3_dll_a::{parse, serialize, split_ascii_whitespace, ExportRecord};

fn rec(symbol: &str, is_data: bool) -> ExportRecord {
    ExportRecord { symbol: symbol.to_string(), is_data }
}

#[test]
fn serialize_function_and_data() {
    let exports = vec![rec("foo", false), rec("buf", true)];
    assert_eq!(
        serialize("python3.dll", &exports),
        "LIBRARY \"python3.dll\"\nEXPORTS\nfoo\nbuf DATA\n"
    );
}

#[test]
fn serialize_no_exports() {
    assert_eq!(serialize("python313t.dll", &[]), "LIBRARY \"python313t.dll\"\nEXPORTS\n");
}

const CORPUS: &str = "\
# Stable ABI symbol listing
[header]
function PyArg_Parse
function PyArg_ParseTuple
data PyBaseObject_Type
function Py_BuildValue

  data   PyBool_Type   extra tokens
\tfunction\tPyBytes_AsString\r
const Py_LIMITED_API
functions NotARecord
function
data _Py_NoneStruct
macro PyObject_HEAD
";

#[test]
fn parse_fixed_corpus_counts() {
    let records = parse(CORPUS);
    assert_eq!(records.len(), 7);
    assert_eq!(records.iter().filter(|r| r.is_data).count(), 3);
}

#[test]
fn parse_fixed_corpus_order() {
    let records = parse(CORPUS);
    let expected = vec![
        rec("PyArg_Parse", false),
        rec("PyArg_ParseTuple", false),
        rec("PyBaseObject_Type", true),
        rec("Py_BuildValue", false),
        rec("PyBool_Type", true),
        rec("PyBytes_AsString", false),
        rec("_Py_NoneStruct", true),
    ];
    assert_eq!(records, expected);
}

#[test]
fn parse_empty_and_blank_text() {
    assert!(parse("").is_empty());
    assert!(parse("\n\n  \t\r\n").is_empty());
}

#[test]
fn parse_last_line_without_newline() {
    assert_eq!(parse("function a\ndata b"), vec![rec("a", false), rec("b", true)]);
}

#[test]
fn parse_keyword_must_be_exact() {
    assert!(parse("Function a\nDATA b\nfunction_ c\n").is_empty());
}

#[test]
fn reparse_listing_without_records() {
    let text = "# nothing here\nEXPORTS\n";
    let first = parse(text);
    let again = parse(&serialize("python3.dll", &first));
    assert_eq!(again, first);
}

#[test]
fn definition_text_is_not_a_listing() {
    let first = parse("function foo\n");
    assert_eq!(first, vec![rec("foo", false)]);
    assert!(parse(&serialize("python3.dll", &first)).is_empty());
}

#[test]
fn split_whitespace_tokens() {
    assert_eq!(split_ascii_whitespace("  python3 -m\tziglang \n"), vec!["python3", "-m", "ziglang"]);
    assert!(split_ascii_whitespace(" \t ").is_empty());
    assert_eq!(split_ascii_whitespace("zig"), vec!["zig"]);
}

#[test]
fn serialize_fixed_corpus_lines() {
    let text = serialize("python3.dll", &parse(CORPUS));
    let lines: Vec<&str> = text.lines().collect();
    assert_eq!(lines[0], "LIBRARY \"python3.dll\"");
    assert_eq!(lines[1], "EXPORTS");
    assert_eq!(lines.len() - 2, 7);
    assert_eq!(lines.iter().filter(|l| l.ends_with(" DATA")).count(), 3);
}
