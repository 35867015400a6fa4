use vstd::prelude::*;
use vstd::utf8::{decode_utf8, partial_valid_utf8_extend_ascii_block, valid_utf8};
use crate::error::AppError;

verus! {

/// Number of spaces per level when no indentation is given.
pub const CANONICAL_INDENT_WIDTH: usize = 2;

#[verifier::external_type_specification]
#[verifier::external_body]
pub struct ExFromUtf8Error(std::string::FromUtf8Error);

/// Whether serde_json reads `text` as one JSON value: the standard grammar,
/// with serde_json's nesting limit.
pub uninterp spec fn parser_accepts(text: Seq<char>) -> bool;

/// The bytes that serde_json's pretty printer writes for the value read from
/// `text`, with `indent` once per nesting level.
pub uninterp spec fn pretty_of(text: Seq<char>, indent: Seq<u8>) -> Seq<u8>;

/// The message of serde_json's error on a text it does not accept: what was
/// wrong, with its line and column.
pub uninterp spec fn parse_diagnostic(text: Seq<char>) -> Seq<char>;

/// Relies on serde_json::from_str into a `serde_json::Value`, then on
/// serde_json's `Serializer` with a `PrettyFormatter` built by `with_indent`,
/// writing that value into a byte buffer. Reading succeeds exactly on the texts
/// serde_json accepts; writing a `Value` into a `Vec` does not fail. The output
/// copies string contents, which are UTF-8, and otherwise writes ASCII and
/// `indent`. Both results and the error text depend on the arguments alone.
#[verifier::external_body]
fn pretty_print(text: &str, indent: &Vec<u8>) -> (r: Result<Vec<u8>, String>)
    ensures
        r is Ok <==> parser_accepts(text@),
        r matches Ok(b) ==> b@ == pretty_of(text@, indent@),
        r matches Ok(b) ==> (valid_utf8(indent@) ==> valid_utf8(b@)),
        r matches Err(m) ==> m@ == parse_diagnostic(text@),
{
    let value: serde_json::Value = serde_json::from_str(text).map_err(|e| e.to_string())?;
    let mut buf = Vec::new();
    let formatter = serde_json::ser::PrettyFormatter::with_indent(indent.as_slice());
    let mut ser = serde_json::Serializer::with_formatter(&mut buf, formatter);
    serde::Serialize::serialize(&value, &mut ser).map_err(|e| e.to_string())?;
    Ok(buf)
}

/// Relies on String::from_utf8: succeeds exactly on valid UTF-8, and then
/// holds the characters those bytes encode.
#[verifier::external_body]
fn utf8_string(bytes: Vec<u8>) -> (r: Result<String, std::string::FromUtf8Error>)
    ensures
        r is Ok <==> valid_utf8(bytes@),
        r matches Ok(s) ==> s@ == decode_utf8(bytes@),
{
    String::from_utf8(bytes)
}

/// The bytes that make up one level of indentation: a tab when the kind is
/// `"tab"`, otherwise `width` spaces (two when no width is given).
pub open spec fn indent_of(kind: Option<Seq<char>>, width: Option<usize>) -> Seq<u8> {
    if kind == Some("tab"@) {
        seq![9u8]
    } else {
        Seq::new(
            match width {
                Some(w) => w as nat,
                None => CANONICAL_INDENT_WIDTH as nat,
            },
            |i: int| 32u8,
        )
    }
}

/// One level of indentation for the given kind and width.
pub fn indent_unit(indent_type: &Option<String>, indent_width: Option<usize>) -> (r: Vec<u8>)
    ensures
        r@ == indent_of(kind_of(*indent_type), indent_width),
{
    let is_tab = match indent_type {
        Some(k) => *k == String::from_str("tab"),
        None => false,
    };
    if is_tab {
        return vec![9u8];
    }
    let width: usize = match indent_width {
        Some(w) => w,
        None => CANONICAL_INDENT_WIDTH,
    };
    let mut unit: Vec<u8> = Vec::new();
    let mut i: usize = 0;
    while i < width
        invariant
            i <= width,
            unit@ == Seq::new(i as nat, |j: int| 32u8),
        decreases width - i,
    {
        unit.push(32u8);
        i = i + 1;
        assert(unit@ =~= Seq::new(i as nat, |j: int| 32u8));
    }
    unit
}

/// The indentation kind as characters.
pub open spec fn kind_of(indent_type: Option<String>) -> Option<Seq<char>> {
    match indent_type {
        Some(k) => Some(k@),
        None => None,
    }
}

/// Every indentation unit is ASCII, hence valid UTF-8.
pub proof fn lemma_indent_is_utf8(kind: Option<Seq<char>>, width: Option<usize>)
    ensures
        valid_utf8(indent_of(kind, width)),
{
    let b = indent_of(kind, width);
    assert(b.subrange(0, 0) =~= Seq::<u8>::empty());
    partial_valid_utf8_extend_ascii_block(b, 0, b.len() as int);
    assert(b.subrange(0, b.len() as int) =~= b);
}

/// With a tab, the requested width makes no difference.
pub proof fn lemma_tab_ignores_width(w1: Option<usize>, w2: Option<usize>)
    ensures
        indent_of(Some("tab"@), w1) == indent_of(Some("tab"@), w2),
{
}

/// Giving no indentation is giving two spaces.
pub proof fn lemma_no_indent_is_two_spaces()
    ensures
        indent_of(None, None) == indent_of(Some("space"@), Some(2)),
{
    reveal_strlit("tab");
    reveal_strlit("space");
    assert("space"@ != "tab"@) by {
        assert("space"@[0] != "tab"@[0]);
    }
}

/// Turns the printed bytes into text: the text they encode when they are
/// UTF-8, an `Encoding` error otherwise.
pub fn finish_rendering(bytes: Vec<u8>) -> (r: Result<String, AppError>)
    ensures
        r is Ok <==> valid_utf8(bytes@),
        r matches Ok(s) ==> s@ == decode_utf8(bytes@),
        !valid_utf8(bytes@) ==> r matches Err(AppError::Encoding(_)),
{
    match utf8_string(bytes) {
        Ok(s) => Ok(s),
        Err(e) => Err(AppError::Encoding(e.to_string())),
    }
}

/// Pretty-prints a JSON text. `indent_type` `"tab"` indents each level by one
/// tab, whatever the width; any other kind by `indent_width` spaces; with
/// neither given, two spaces. Every text serde_json accepts is printed; any
/// other is a `Parse` error carrying the parser's message.
pub fn format_json_string(
    json_string: String,
    indent_type: Option<String>,
    indent_width: Option<usize>,
) -> (r: Result<String, AppError>)
    ensures
        parser_accepts(json_string@) ==> (r matches Ok(s) && s@ == decode_utf8(
            pretty_of(json_string@, indent_of(kind_of(indent_type), indent_width)),
        )),
        !parser_accepts(json_string@) ==> (r matches Err(AppError::Parse(d)) && d@
            == parse_diagnostic(json_string@)),
{
    let unit = indent_unit(&indent_type, indent_width);
    proof {
        lemma_indent_is_utf8(kind_of(indent_type), indent_width);
    }
    match pretty_print(json_string.as_str(), &unit) {
        Err(d) => Err(AppError::Parse(d)),
        Ok(bytes) => finish_rendering(bytes),
    }
}

} // verus!
