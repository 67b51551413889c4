//! JSON at the gateway's edge: a one-level reading of request documents and
//! the string literals of response documents. The grammar itself is
//! `serde_json`'s; this module only says what the pipeline sees of it.

use serde_json::Value;
use vstd::prelude::*;

verus! {

/// A JSON value as the pipeline sees it: by its kind, with the content of a
/// string and the compact text of an object.
#[derive(Debug)]
pub enum Item {
    Null,
    Text(String),
    Object(String),
    Other,
}

/// The mathematical value of an [`Item`].
pub enum ItemView {
    Null,
    Text(Seq<char>),
    Object(Seq<char>),
    Other,
}

impl View for Item {
    type V = ItemView;

    open spec fn view(&self) -> ItemView {
        match *self {
            Item::Null => ItemView::Null,
            Item::Text(s) => ItemView::Text(s@),
            Item::Object(s) => ItemView::Object(s@),
            Item::Other => ItemView::Other,
        }
    }
}

/// One member of a JSON object.
#[derive(Debug)]
pub struct Member {
    pub key: String,
    pub value: Item,
}

/// The mathematical value of a [`Member`].
pub struct MemberView {
    pub key: Seq<char>,
    pub value: ItemView,
}

impl View for Member {
    type V = MemberView;

    open spec fn view(&self) -> MemberView {
        MemberView { key: self.key@, value: self.value@ }
    }
}

/// A parsed JSON document: the value itself and, where it is an object, its
/// members. Any other value has no members.
#[derive(Debug)]
pub struct Document {
    pub value: Item,
    pub members: Vec<Member>,
}

/// The mathematical value of a [`Document`].
pub struct DocumentView {
    pub value: ItemView,
    pub members: Seq<MemberView>,
}

/// The members of an object, each by its view.
pub open spec fn members_view(members: Seq<Member>) -> Seq<MemberView> {
    members.map_values(|m: Member| m@)
}

impl View for Document {
    type V = DocumentView;

    open spec fn view(&self) -> DocumentView {
        DocumentView { value: self.value@, members: members_view(self.members@) }
    }
}

/// What `serde_json` reads from `text`: `None` where it is not one JSON
/// value, else the value's one-level reading.
pub uninterp spec fn json_document(text: Seq<u8>) -> Option<DocumentView>;

/// The view of an optional document.
pub open spec fn document_view(doc: Option<Document>) -> Option<DocumentView> {
    match doc {
        Some(d) => Some(d@),
        None => None,
    }
}

/// Parses `text` with `serde_json::from_slice` into a `serde_json::Value` and
/// hands out its first level: the kind of the value, and for an object each
/// key with the kind of its value, in the order in which `serde_json`'s map
/// walks them. Strings come decoded; an object comes as the compact text
/// that `Value`'s `Display` writes. Trusted: the result is a function of the
/// bytes alone, and `None` stands for every parse error.
#[verifier::external_body]
pub(crate) fn parse_document(text: &[u8]) -> (doc: Option<Document>)
    ensures
        document_view(doc) == json_document(text@),
{
    let item = |v: &Value| match v {
        Value::Null => Item::Null,
        Value::String(s) => Item::Text(s.clone()),
        Value::Object(_) => Item::Object(v.to_string()),
        Value::Bool(_) | Value::Number(_) | Value::Array(_) => Item::Other,
    };
    let root = serde_json::from_slice::<Value>(text).ok()?;
    let fields = root.as_object().into_iter().flatten();
    let members = fields.map(|(k, v)| Member { key: k.clone(), value: item(v) }).collect();
    Some(Document { value: item(&root), members })
}

/// The hexadecimal digit of `d`, in lower case.
pub open spec fn hex_digit(d: int) -> char {
    if d == 0 {
        '0'
    } else if d == 1 {
        '1'
    } else if d == 2 {
        '2'
    } else if d == 3 {
        '3'
    } else if d == 4 {
        '4'
    } else if d == 5 {
        '5'
    } else if d == 6 {
        '6'
    } else if d == 7 {
        '7'
    } else if d == 8 {
        '8'
    } else if d == 9 {
        '9'
    } else if d == 10 {
        'a'
    } else if d == 11 {
        'b'
    } else if d == 12 {
        'c'
    } else if d == 13 {
        'd'
    } else if d == 14 {
        'e'
    } else {
        'f'
    }
}

/// How one character stands inside a JSON string literal: the quote, the
/// backslash and the control characters below U+0020 are escaped, every
/// other character stands for itself.
pub open spec fn escaped(c: char) -> Seq<char> {
    if c == '"' {
        seq!['\\', '"']
    } else if c == '\\' {
        seq!['\\', '\\']
    } else if c == '\u{8}' {
        seq!['\\', 'b']
    } else if c == '\t' {
        seq!['\\', 't']
    } else if c == '\n' {
        seq!['\\', 'n']
    } else if c == '\u{c}' {
        seq!['\\', 'f']
    } else if c == '\r' {
        seq!['\\', 'r']
    } else if (c as u32) < 0x20 {
        seq!['\\', 'u', '0', '0', hex_digit((c as u32) as int / 16), hex_digit((c as u32) as int % 16)]
    } else {
        seq![c]
    }
}

/// The characters of `s`, each escaped, in order.
pub open spec fn escaped_all(s: Seq<char>) -> Seq<char>
    decreases s.len(),
{
    if s.len() == 0 {
        Seq::empty()
    } else {
        escaped_all(s.drop_last()) + escaped(s.last())
    }
}

/// The JSON string literal that holds `s`.
pub open spec fn quoted(s: Seq<char>) -> Seq<char> {
    seq!['"'] + escaped_all(s) + seq!['"']
}

/// Writes `s` as a JSON string literal with `serde_json::to_string`.
/// Trusted: the literal is `s` between two quotes, with `"` and `\` behind a
/// backslash, the control characters below U+0020 as `\b`, `\t`, `\n`, `\f`,
/// `\r` or `\u00XX` in lower-case hexadecimal, and every other character
/// unchanged, which is what `serde_json`'s escape table prescribes.
#[verifier::external_body]
pub(crate) fn quote(s: &str) -> (literal: String)
    ensures
        literal@ == quoted(s@),
{
    serde_json::to_string(s).unwrap_or_default()
}

} // verus!
