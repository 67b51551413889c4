//! The operation decoder: from the raw input of either verb to one
//! `Operation`, or to the reason why the request is malformed.

use crate::json::{
    document_view, json_document, members_view, parse_document, Document, DocumentView, Item,
    ItemView, Member, MemberView,
};
use vstd::prelude::*;
use vstd::string::StringExecFns;
use vstd::utf8::encode_utf8;

verus! {

/// A decoded GraphQL operation. It is built once per request and never
/// changed; nothing in it tells which verb carried it.
#[derive(Debug)]
pub struct Operation {
    /// The query text.
    pub query: String,
    /// The name of the operation to run, where the document holds several.
    pub operation_name: Option<String>,
    /// The variables: the compact text of a JSON object, or nothing.
    pub variables: Option<String>,
}

/// The mathematical value of an [`Operation`].
pub struct OperationView {
    pub query: Seq<char>,
    pub operation_name: Option<Seq<char>>,
    pub variables: Option<Seq<char>>,
}

impl View for Operation {
    type V = OperationView;

    open spec fn view(&self) -> OperationView {
        OperationView {
            query: self.query@,
            operation_name: match self.operation_name {
                Some(n) => Some(n@),
                None => None,
            },
            variables: match self.variables {
                Some(v) => Some(v@),
                None => None,
            },
        }
    }
}

/// Why a request could not be decoded. Each of these is a failure of the
/// transport, found before the engine is asked anything.
#[derive(Clone, Copy, Debug, PartialEq, Eq, Structural)]
pub enum MalformedRequest {
    /// The body is not one JSON value.
    InvalidJson,
    /// The body is JSON, but not an object.
    NotAnObject,
    /// There is no `query`.
    MissingQuery,
    /// `query` is not a string.
    InvalidQuery,
    /// `operationName` is neither a string nor null.
    InvalidOperationName,
    /// `variables` is neither an object nor null, or is not JSON at all.
    InvalidVariables,
}

/// The outcome of decoding, in views.
pub open spec fn decoding_view(r: Result<Operation, MalformedRequest>) -> Result<
    OperationView,
    MalformedRequest,
> {
    match r {
        Ok(op) => Ok(op@),
        Err(e) => Err(e),
    }
}

/// The value of the first member of `members` whose key is `key`.
pub open spec fn lookup(members: Seq<MemberView>, key: Seq<char>) -> Option<ItemView>
    decreases members.len(),
{
    if members.len() == 0 {
        None
    } else if members[0].key == key {
        Some(members[0].value)
    } else {
        lookup(members.drop_first(), key)
    }
}

/// The query text that an item stands for: it is required, and a string.
pub open spec fn query_of(item: Option<ItemView>) -> Result<Seq<char>, MalformedRequest> {
    match item {
        None => Err(MalformedRequest::MissingQuery),
        Some(ItemView::Text(q)) => Ok(q),
        Some(_) => Err(MalformedRequest::InvalidQuery),
    }
}

/// The operation name that an item stands for: absent, null or a string.
pub open spec fn operation_name_of(item: Option<ItemView>) -> Result<
    Option<Seq<char>>,
    MalformedRequest,
> {
    match item {
        None => Ok(None),
        Some(ItemView::Null) => Ok(None),
        Some(ItemView::Text(n)) => Ok(Some(n)),
        Some(_) => Err(MalformedRequest::InvalidOperationName),
    }
}

/// The variables that an item stands for: absent, null or an object.
pub open spec fn variables_of(item: Option<ItemView>) -> Result<
    Option<Seq<char>>,
    MalformedRequest,
> {
    match item {
        None => Ok(None),
        Some(ItemView::Null) => Ok(None),
        Some(ItemView::Object(text)) => Ok(Some(text)),
        Some(_) => Err(MalformedRequest::InvalidVariables),
    }
}

/// The operation that three items stand for. The query is judged first,
/// then the operation name, then the variables.
pub open spec fn assembled(
    query: Option<ItemView>,
    operation_name: Option<ItemView>,
    variables: Option<ItemView>,
) -> Result<OperationView, MalformedRequest> {
    match query_of(query) {
        Err(e) => Err(e),
        Ok(q) => match operation_name_of(operation_name) {
            Err(e) => Err(e),
            Ok(n) => match variables_of(variables) {
                Err(e) => Err(e),
                Ok(v) => Ok(OperationView { query: q, operation_name: n, variables: v }),
            },
        },
    }
}

/// The view of an optional item.
pub open spec fn item_view(item: Option<&Item>) -> Option<ItemView> {
    match item {
        Some(i) => Some(i@),
        None => None,
    }
}

/// The view of an optional string.
pub open spec fn text_view(text: Option<&str>) -> Option<Seq<char>> {
    match text {
        Some(t) => Some(t@),
        None => None,
    }
}

/// Finds the value of the first member with the given key.
pub fn find<'a>(members: &'a Vec<Member>, key: &str) -> (found: Option<&'a Item>)
    ensures
        item_view(found) == lookup(members_view(members@), key@),
{
    let wanted = String::from_str(key);
    let ghost all = members_view(members@);
    let mut i: usize = 0;
    assert(all.skip(0) == all);
    while i < members.len()
        invariant
            i <= members.len(),
            all == members_view(members@),
            wanted@ == key@,
            lookup(all, key@) == lookup(all.skip(i as int), key@),
        decreases members.len() - i,
    {
        let ghost rest = all.skip(i as int);
        assert(rest[0] == members@[i as int]@);
        assert(rest.drop_first() == all.skip(i + 1));
        if members[i].key == wanted {
            return Some(&members[i].value);
        }
        i += 1;
    }
    None
}

impl Operation {
    /// Assembles an operation from the three items that a request carries.
    pub fn assemble(
        query: Option<&Item>,
        operation_name: Option<&Item>,
        variables: Option<&Item>,
    ) -> (r: Result<Operation, MalformedRequest>)
        ensures
            decoding_view(r) == assembled(
                item_view(query),
                item_view(operation_name),
                item_view(variables),
            ),
    {
        let query = match query {
            None => { return Err(MalformedRequest::MissingQuery); },
            Some(Item::Text(q)) => q.clone(),
            Some(_) => { return Err(MalformedRequest::InvalidQuery); },
        };
        let operation_name = match operation_name {
            None => None,
            Some(Item::Null) => None,
            Some(Item::Text(n)) => Some(n.clone()),
            Some(_) => { return Err(MalformedRequest::InvalidOperationName); },
        };
        let variables = match variables {
            None => None,
            Some(Item::Null) => None,
            Some(Item::Object(text)) => Some(text.clone()),
            Some(_) => { return Err(MalformedRequest::InvalidVariables); },
        };
        Ok(Operation { query, operation_name, variables })
    }
}

/// What a parsed POST body decodes to: the body is a JSON object, and its
/// members `query`, `operationName` and `variables` make the operation.
pub open spec fn document_decoding(doc: Option<DocumentView>) -> Result<
    OperationView,
    MalformedRequest,
> {
    match doc {
        None => Err(MalformedRequest::InvalidJson),
        Some(d) => if d.value is Object {
            assembled(
                lookup(d.members, "query"@),
                lookup(d.members, "operationName"@),
                lookup(d.members, "variables"@),
            )
        } else {
            Err(MalformedRequest::NotAnObject)
        },
    }
}

/// What a POST body decodes to.
pub open spec fn post_decoding(body: Seq<u8>) -> Result<OperationView, MalformedRequest> {
    document_decoding(json_document(body))
}

/// Decodes a parsed POST body.
pub fn decode_document(doc: &Option<Document>) -> (r: Result<Operation, MalformedRequest>)
    ensures
        decoding_view(r) == document_decoding(document_view(*doc)),
{
    match doc {
        None => Err(MalformedRequest::InvalidJson),
        Some(d) => match d.value {
            Item::Object(_) => Operation::assemble(
                find(&d.members, "query"),
                find(&d.members, "operationName"),
                find(&d.members, "variables"),
            ),
            _ => Err(MalformedRequest::NotAnObject),
        },
    }
}

/// Decodes the body of a POST request.
pub fn decode_post(body: &[u8]) -> (r: Result<Operation, MalformedRequest>)
    ensures
        decoding_view(r) == post_decoding(body@),
{
    let doc = parse_document(body);
    decode_document(&doc)
}

/// What the parameters of a GET request decode to, `variables` being the
/// parameter's parsed text where the parameter is there.
pub open spec fn parameters_decoding(
    query: Option<Seq<char>>,
    operation_name: Option<Seq<char>>,
    variables: Option<Option<DocumentView>>,
) -> Result<OperationView, MalformedRequest> {
    match query {
        None => Err(MalformedRequest::MissingQuery),
        Some(q) => match variables {
            Some(None) => Err(MalformedRequest::InvalidVariables),
            Some(Some(d)) => match variables_of(Some(d.value)) {
                Err(e) => Err(e),
                Ok(v) => Ok(OperationView { query: q, operation_name, variables: v }),
            },
            None => Ok(OperationView { query: q, operation_name, variables: None }),
        },
    }
}

/// The parameter `variables`, parsed where it is there.
pub open spec fn parsed_parameter(variables: Option<Seq<char>>) -> Option<Option<DocumentView>> {
    match variables {
        Some(text) => Some(json_document(encode_utf8(text))),
        None => None,
    }
}

/// What the parameters of a GET request decode to.
pub open spec fn get_decoding(
    query: Option<Seq<char>>,
    operation_name: Option<Seq<char>>,
    variables: Option<Seq<char>>,
) -> Result<OperationView, MalformedRequest> {
    parameters_decoding(query, operation_name, parsed_parameter(variables))
}

/// The view of a parameter that was parsed where it was there.
pub open spec fn parameter_view(variables: Option<Option<Document>>) -> Option<
    Option<DocumentView>,
> {
    match variables {
        Some(doc) => Some(document_view(doc)),
        None => None,
    }
}

/// Decodes the parameters of a GET request, `variables` already parsed.
pub fn decode_parameters(
    query: Option<&str>,
    operation_name: Option<&str>,
    variables: &Option<Option<Document>>,
) -> (r: Result<Operation, MalformedRequest>)
    ensures
        decoding_view(r) == parameters_decoding(
            text_view(query),
            text_view(operation_name),
            parameter_view(*variables),
        ),
{
    let query = match query {
        None => { return Err(MalformedRequest::MissingQuery); },
        Some(q) => String::from_str(q),
    };
    let operation_name = match operation_name {
        None => None,
        Some(n) => Some(String::from_str(n)),
    };
    let variables = match variables {
        None => None,
        Some(None) => { return Err(MalformedRequest::InvalidVariables); },
        Some(Some(d)) => match &d.value {
            Item::Null => None,
            Item::Object(text) => Some(text.clone()),
            _ => { return Err(MalformedRequest::InvalidVariables); },
        },
    };
    Ok(Operation { query, operation_name, variables })
}

/// Decodes the parameters of a GET request. `variables` is itself JSON,
/// carried as text, and is parsed here.
pub fn decode_get(query: Option<&str>, operation_name: Option<&str>, variables: Option<&str>) -> (r:
    Result<Operation, MalformedRequest>)
    ensures
        decoding_view(r) == get_decoding(
            text_view(query),
            text_view(operation_name),
            text_view(variables),
        ),
{
    let parsed = match variables {
        Some(text) => Some(parse_document(text.as_bytes())),
        None => None,
    };
    decode_parameters(query, operation_name, &parsed)
}

} // verus!
