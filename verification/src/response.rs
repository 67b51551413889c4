//! The response encoder: from the result of an execution to the reply that
//! goes back over HTTP.

use crate::execution::{
    bare_entry, entries_view, strings_view, ErrorEntry, ErrorEntryView, ExecutionResult,
    ExecutionResultView, Location,
};
use crate::json::{quote, quoted};
use crate::operation::MalformedRequest;
use vstd::prelude::*;
use vstd::string::StringExecFns;

verus! {

/// The decimal digit `d`.
pub open spec fn digit(d: nat) -> char {
    if d == 0 {
        '0'
    } else if d == 1 {
        '1'
    } else if d == 2 {
        '2'
    } else if d == 3 {
        '3'
    } else if d == 4 {
        '4'
    } else if d == 5 {
        '5'
    } else if d == 6 {
        '6'
    } else if d == 7 {
        '7'
    } else if d == 8 {
        '8'
    } else {
        '9'
    }
}

/// The decimal numeral of `n`, without leading zeros.
pub open spec fn decimal(n: nat) -> Seq<char>
    decreases n,
{
    if n < 10 {
        seq![digit(n)]
    } else {
        decimal(n / 10) + seq![digit(n % 10)]
    }
}

/// The given texts in order, with a comma between neighbours.
pub open spec fn joined(parts: Seq<Seq<char>>) -> Seq<char>
    decreases parts.len(),
{
    if parts.len() == 0 {
        Seq::empty()
    } else if parts.len() == 1 {
        parts[0]
    } else {
        joined(parts.drop_last()) + ","@ + parts.last()
    }
}

/// The JSON array of the given element texts.
pub open spec fn array_text(parts: Seq<Seq<char>>) -> Seq<char> {
    "["@ + joined(parts) + "]"@
}

/// The JSON object of the given member texts.
pub open spec fn object_text(parts: Seq<Seq<char>>) -> Seq<char> {
    "{"@ + joined(parts) + "}"@
}

/// The JSON text of a location.
pub open spec fn location_text(location: Location) -> Seq<char> {
    "{\"line\":"@ + decimal(location.line as nat) + ",\"column\":"@ + decimal(
        location.column as nat,
    ) + "}"@
}

/// The JSON texts of the given locations.
pub open spec fn location_texts(locations: Seq<Location>) -> Seq<Seq<char>> {
    locations.map_values(|l: Location| location_text(l))
}

/// The JSON string literals of the given strings.
pub open spec fn literal_texts(strings: Seq<Seq<char>>) -> Seq<Seq<char>> {
    strings.map_values(|s: Seq<char>| quoted(s))
}

/// The members of an error entry's JSON object: the message always, the
/// locations and the path only where there are any.
pub open spec fn entry_members(entry: ErrorEntryView) -> Seq<Seq<char>> {
    seq!["\"message\":"@ + quoted(entry.message)] + (if entry.locations.len() > 0 {
        seq!["\"locations\":"@ + array_text(location_texts(entry.locations))]
    } else {
        Seq::empty()
    }) + (if entry.path.len() > 0 {
        seq!["\"path\":"@ + array_text(literal_texts(entry.path))]
    } else {
        Seq::empty()
    })
}

/// The JSON text of an error entry.
pub open spec fn entry_text(entry: ErrorEntryView) -> Seq<char> {
    object_text(entry_members(entry))
}

/// The JSON texts of the given error entries.
pub open spec fn entry_texts(entries: Seq<ErrorEntryView>) -> Seq<Seq<char>> {
    entries.map_values(|e: ErrorEntryView| entry_text(e))
}

/// The members of a response document: `data` where there is data, then
/// `errors` where there are errors or no data.
pub open spec fn response_members(result: ExecutionResultView) -> Seq<Seq<char>> {
    (match result.data {
        Some(d) => seq!["\"data\":"@ + d],
        None => Seq::empty(),
    }) + (if result.errors.len() > 0 || result.data is None {
        seq!["\"errors\":"@ + array_text(entry_texts(result.errors))]
    } else {
        Seq::empty()
    })
}

/// The response document of a result, as JSON text.
pub open spec fn response_text(result: ExecutionResultView) -> Seq<char> {
    object_text(response_members(result))
}

/// A reply, ready for the transport: status line, content type and body.
#[derive(Debug)]
pub struct HttpReply {
    pub status: u16,
    pub content_type: String,
    pub body: String,
}

/// The mathematical value of an [`HttpReply`].
pub struct HttpReplyView {
    pub status: int,
    pub content_type: Seq<char>,
    pub body: Seq<char>,
}

impl View for HttpReply {
    type V = HttpReplyView;

    open spec fn view(&self) -> HttpReplyView {
        HttpReplyView {
            status: self.status as int,
            content_type: self.content_type@,
            body: self.body@,
        }
    }
}

/// The reply that carries a result: always 200, whatever errors the body
/// holds, since the status line speaks of the transport alone.
pub open spec fn result_reply(result: ExecutionResultView) -> HttpReplyView {
    HttpReplyView {
        status: 200,
        content_type: "application/json"@,
        body: response_text(result),
    }
}

/// What the client is told of a malformed request.
pub open spec fn reason_text(reason: MalformedRequest) -> Seq<char> {
    match reason {
        MalformedRequest::InvalidJson => "request body is not valid JSON"@,
        MalformedRequest::NotAnObject => "request body is not a JSON object"@,
        MalformedRequest::MissingQuery => "request has no query"@,
        MalformedRequest::InvalidQuery => "query is not a string"@,
        MalformedRequest::InvalidOperationName => "operationName is not a string"@,
        MalformedRequest::InvalidVariables => "variables is not a JSON object"@,
    }
}

/// The result that stands for a malformed request: no data, one error.
pub open spec fn refusal(reason: MalformedRequest) -> ExecutionResultView {
    ExecutionResultView {
        data: None,
        errors: seq![bare_entry(reason_text(reason))],
    }
}

/// The reply to a malformed request: 400, with the reason in a body of the
/// usual shape.
pub open spec fn refusal_reply(reason: MalformedRequest) -> HttpReplyView {
    HttpReplyView {
        status: 400,
        content_type: "application/json"@,
        body: response_text(refusal(reason)),
    }
}

/// Joining one more part: after the first, a comma goes before it.
pub proof fn lemma_joined_push(parts: Seq<Seq<char>>, part: Seq<char>)
    ensures
        joined(parts.push(part)) == if parts.len() == 0 {
            part
        } else {
            joined(parts) + ","@ + part
        },
{
    assert(parts.push(part).drop_last() == parts);
    assert(parts.push(part).last() == part);
    if parts.len() == 0 {
        assert(parts.push(part)[0] == part);
    }
}

/// The three shapes of a response document. Data alone where nothing
/// failed; data and errors side by side where some field failed, the errors
/// taking nothing from the data; errors alone where the operation was turned
/// down before execution.
pub proof fn lemma_response_shapes(result: ExecutionResultView)
    ensures
        response_text(result) == match result.data {
            Some(d) => if result.errors.len() == 0 {
                "{"@ + ("\"data\":"@ + d) + "}"@
            } else {
                "{"@ + (("\"data\":"@ + d) + ","@ + ("\"errors\":"@ + array_text(
                    entry_texts(result.errors),
                ))) + "}"@
            },
            None => "{"@ + ("\"errors\":"@ + array_text(entry_texts(result.errors))) + "}"@,
        },
{
    let members = response_members(result);
    let data_member = "\"data\":"@ + result.data.unwrap();
    let errors_member = "\"errors\":"@ + array_text(entry_texts(result.errors));
    match result.data {
        Some(d) => {
            if result.errors.len() > 0 {
                assert(members == seq![data_member].push(errors_member));
                lemma_joined_push(seq![data_member], errors_member);
            } else {
                assert(members == seq![data_member]);
            }
        },
        None => {
            assert(members == seq![errors_member]);
        },
    }
}

/// Appends the decimal numeral of `n`.
fn write_decimal(out: &mut String, n: u64)
    ensures
        final(out)@ == old(out)@ + decimal(n as nat),
    decreases n,
{
    if n >= 10 {
        write_decimal(out, n / 10);
    }
    let d: u64 = n % 10;
    let ghost before = out@;
    proof {
        reveal_strlit("0");
        reveal_strlit("1");
        reveal_strlit("2");
        reveal_strlit("3");
        reveal_strlit("4");
        reveal_strlit("5");
        reveal_strlit("6");
        reveal_strlit("7");
        reveal_strlit("8");
        reveal_strlit("9");
    }
    if d == 0 {
        out.append("0");
    } else if d == 1 {
        out.append("1");
    } else if d == 2 {
        out.append("2");
    } else if d == 3 {
        out.append("3");
    } else if d == 4 {
        out.append("4");
    } else if d == 5 {
        out.append("5");
    } else if d == 6 {
        out.append("6");
    } else if d == 7 {
        out.append("7");
    } else if d == 8 {
        out.append("8");
    } else {
        out.append("9");
    }
    assert(out@ == before + seq![digit(d as nat)]);
}

/// Appends the JSON text of a location.
fn write_location(out: &mut String, location: &Location)
    ensures
        final(out)@ == old(out)@ + location_text(*location),
{
    out.append("{\"line\":");
    write_decimal(out, location.line);
    out.append(",\"column\":");
    write_decimal(out, location.column);
    out.append("}");
}

/// Appends the JSON array of the given locations.
fn write_locations(out: &mut String, locations: &Vec<Location>)
    ensures
        final(out)@ == old(out)@ + array_text(location_texts(locations@)),
{
    let ghost texts = location_texts(locations@);
    out.append("[");
    let ghost start = out@;
    let mut i: usize = 0;
    assert(texts.take(0) == Seq::<Seq<char>>::empty());
    while i < locations.len()
        invariant
            i <= locations.len(),
            texts == location_texts(locations@),
            out@ == start + joined(texts.take(i as int)),
        decreases locations.len() - i,
    {
        proof {
            lemma_joined_push(texts.take(i as int), texts[i as int]);
            assert(texts.take(i + 1) == texts.take(i as int).push(texts[i as int]));
        }
        if i > 0 {
            out.append(",");
        }
        write_location(out, &locations[i]);
        i += 1;
    }
    assert(texts.take(i as int) == texts);
    out.append("]");
}

/// Appends the JSON array of the given strings, each as a literal.
fn write_path(out: &mut String, path: &Vec<String>)
    ensures
        final(out)@ == old(out)@ + array_text(literal_texts(strings_view(path@))),
{
    let ghost texts = literal_texts(strings_view(path@));
    out.append("[");
    let ghost start = out@;
    let mut i: usize = 0;
    assert(texts.take(0) == Seq::<Seq<char>>::empty());
    while i < path.len()
        invariant
            i <= path.len(),
            texts == literal_texts(strings_view(path@)),
            out@ == start + joined(texts.take(i as int)),
        decreases path.len() - i,
    {
        proof {
            lemma_joined_push(texts.take(i as int), texts[i as int]);
            assert(texts.take(i + 1) == texts.take(i as int).push(texts[i as int]));
        }
        if i > 0 {
            out.append(",");
        }
        let literal = quote(path[i].as_str());
        out.append(literal.as_str());
        i += 1;
    }
    assert(texts.take(i as int) == texts);
    out.append("]");
}

/// Appends the JSON text of an error entry.
fn write_entry(out: &mut String, entry: &ErrorEntry)
    ensures
        final(out)@ == old(out)@ + entry_text(entry@),
{
    let ghost first = "\"message\":"@ + quoted(entry@.message);
    let ghost second = "\"locations\":"@ + array_text(location_texts(entry@.locations));
    let ghost third = "\"path\":"@ + array_text(literal_texts(entry@.path));
    let ghost mut parts = seq![first];
    out.append("{");
    let ghost start = out@;
    out.append("\"message\":");
    let literal = quote(entry.message.as_str());
    out.append(literal.as_str());
    assert(joined(parts) == first);
    assert(out@ == start + joined(parts));
    if entry.locations.len() > 0 {
        out.append(",");
        out.append("\"locations\":");
        write_locations(out, &entry.locations);
        proof {
            lemma_joined_push(parts, second);
            parts = parts.push(second);
        }
        assert(out@ == start + joined(parts));
    }
    if entry.path.len() > 0 {
        out.append(",");
        out.append("\"path\":");
        write_path(out, &entry.path);
        proof {
            lemma_joined_push(parts, third);
            parts = parts.push(third);
        }
        assert(out@ == start + joined(parts));
    }
    assert(parts == entry_members(entry@));
    out.append("}");
}

/// Appends the JSON array of the given error entries.
fn write_entries(out: &mut String, entries: &Vec<ErrorEntry>)
    ensures
        final(out)@ == old(out)@ + array_text(entry_texts(entries_view(entries@))),
{
    let ghost texts = entry_texts(entries_view(entries@));
    out.append("[");
    let ghost start = out@;
    let mut i: usize = 0;
    assert(texts.take(0) == Seq::<Seq<char>>::empty());
    while i < entries.len()
        invariant
            i <= entries.len(),
            texts == entry_texts(entries_view(entries@)),
            out@ == start + joined(texts.take(i as int)),
        decreases entries.len() - i,
    {
        proof {
            lemma_joined_push(texts.take(i as int), texts[i as int]);
            assert(texts.take(i + 1) == texts.take(i as int).push(texts[i as int]));
        }
        if i > 0 {
            out.append(",");
        }
        write_entry(out, &entries[i]);
        i += 1;
    }
    assert(texts.take(i as int) == texts);
    out.append("]");
}

/// Writes the response document of a result.
pub fn encode(result: &ExecutionResult) -> (body: String)
    ensures
        body@ == response_text(result@),
{
    let ghost first = "\"data\":"@ + result@.data.unwrap();
    let ghost second = "\"errors\":"@ + array_text(entry_texts(result@.errors));
    let ghost mut parts = Seq::<Seq<char>>::empty();
    let mut out = String::new();
    out.append("{");
    let ghost start = out@;
    assert(out@ == start + joined(parts));
    match &result.data {
        Some(data) => {
            out.append("\"data\":");
            out.append(data.as_str());
            proof {
                lemma_joined_push(parts, first);
                parts = parts.push(first);
            }
            assert(out@ == start + joined(parts));
        },
        None => {},
    }
    if result.errors.len() > 0 || result.data.is_none() {
        if result.data.is_some() {
            out.append(",");
        }
        out.append("\"errors\":");
        write_entries(&mut out, &result.errors);
        proof {
            lemma_joined_push(parts, second);
            parts = parts.push(second);
        }
        assert(out@ == start + joined(parts));
    }
    assert(parts == response_members(result@));
    out.append("}");
    out
}

/// Builds the reply that carries a result.
pub fn respond(result: &ExecutionResult) -> (reply: HttpReply)
    ensures
        reply@ == result_reply(result@),
{
    HttpReply {
        status: 200,
        content_type: String::from_str("application/json"),
        body: encode(result),
    }
}

impl MalformedRequest {
    /// What the client is told of this failure.
    pub fn message(&self) -> (text: String)
        ensures
            text@ == reason_text(*self),
    {
        match self {
            MalformedRequest::InvalidJson => String::from_str("request body is not valid JSON"),
            MalformedRequest::NotAnObject => String::from_str("request body is not a JSON object"),
            MalformedRequest::MissingQuery => String::from_str("request has no query"),
            MalformedRequest::InvalidQuery => String::from_str("query is not a string"),
            MalformedRequest::InvalidOperationName => String::from_str(
                "operationName is not a string",
            ),
            MalformedRequest::InvalidVariables => String::from_str(
                "variables is not a JSON object",
            ),
        }
    }
}

/// Builds the reply to a malformed request.
pub fn refuse(reason: MalformedRequest) -> (reply: HttpReply)
    ensures
        reply@ == refusal_reply(reason),
{
    let message = reason.message();
    let mut errors: Vec<ErrorEntry> = Vec::new();
    errors.push(ErrorEntry::bare(message.as_str()));
    let result = ExecutionResult { data: None, errors };
    assert(result@.errors =~= refusal(reason).errors);
    HttpReply {
        status: 400,
        content_type: String::from_str("application/json"),
        body: encode(&result),
    }
}

} // verus!
