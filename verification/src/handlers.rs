//! The request handlers, as steps without I/O: what to do with a request
//! once its bytes are there, and how to answer once the engine has run.

use crate::execution::{
    concluded, ErrorEntryView, ExecutionContext, ExecutionResult, Outcome, OutcomeView,
    RejectionView,
};
use crate::json::{json_document, ItemView};
use crate::operation::{
    decode_get, decode_post, decoding_view, get_decoding, lookup, post_decoding, text_view,
    MalformedRequest, Operation, OperationView,
};
use crate::response::{
    array_text, entry_texts, lemma_response_shapes, refusal_reply, refuse, respond, result_reply,
    HttpReply, HttpReplyView,
};
use std::sync::Arc;
use vstd::prelude::*;
use vstd::string::StringExecFns;
use vstd::utf8::encode_utf8;

verus! {

/// What every request shares: the pool and the schema. It is built once, at
/// startup, and only read afterwards.
pub struct GraphQLState<P, S> {
    pub pool: P,
    pub schema: Arc<S>,
}

impl<P, S> GraphQLState<P, S> {
    /// Takes the pool and the compiled schema into the shared state.
    pub fn new(pool: P, schema: S) -> (state: GraphQLState<P, S>)
        ensures
            state.pool == pool,
            *state.schema == schema,
    {
        GraphQLState { pool, schema: Arc::new(schema) }
    }

    /// A fresh context for one request, over a clone of the pool handle.
    pub fn context(&self) -> (context: ExecutionContext<P>) where P: Clone
        ensures
            cloned::<P>(self.pool, context.pool),
    {
        ExecutionContext::new(self.pool.clone())
    }
}

/// What a handler decides once a request is decoded: to have the engine
/// execute an operation, or to answer at once.
#[derive(Debug)]
pub enum Dispatch {
    Execute(Operation),
    Respond(HttpReply),
}

/// The mathematical value of a [`Dispatch`].
pub enum DispatchView {
    Execute(OperationView),
    Respond(HttpReplyView),
}

impl View for Dispatch {
    type V = DispatchView;

    open spec fn view(&self) -> DispatchView {
        match *self {
            Dispatch::Execute(op) => DispatchView::Execute(op@),
            Dispatch::Respond(reply) => DispatchView::Respond(reply@),
        }
    }
}

/// The step that follows decoding: an operation goes to the engine, a
/// malformed request is answered with 400 and goes nowhere.
pub open spec fn dispatching(decoded: Result<OperationView, MalformedRequest>) -> DispatchView {
    match decoded {
        Ok(op) => DispatchView::Execute(op),
        Err(reason) => DispatchView::Respond(refusal_reply(reason)),
    }
}

/// Decides the step that follows decoding.
pub fn dispatch(decoded: Result<Operation, MalformedRequest>) -> (step: Dispatch)
    ensures
        step@ == dispatching(decoding_view(decoded)),
{
    match decoded {
        Ok(op) => Dispatch::Execute(op),
        Err(reason) => Dispatch::Respond(refuse(reason)),
    }
}

/// The handler of `POST /graphql`, up to the engine: decodes the body.
pub fn graphql(body: &[u8]) -> (step: Dispatch)
    ensures
        step@ == dispatching(post_decoding(body@)),
{
    dispatch(decode_post(body))
}

/// The handler of `GET /graphql`, up to the engine: decodes the parameters
/// of the query string.
pub fn graphql_get(query: Option<&str>, operation_name: Option<&str>, variables: Option<&str>) -> (step:
    Dispatch)
    ensures
        step@ == dispatching(
            get_decoding(text_view(query), text_view(operation_name), text_view(variables)),
        ),
{
    dispatch(decode_get(query, operation_name, variables))
}

/// The handler of `/graphql`, from the engine on: turns what the engine
/// handed back into the reply.
pub fn answer(outcome: Outcome) -> (reply: HttpReply)
    ensures
        reply@ == result_reply(concluded(outcome@)),
{
    let result = ExecutionResult::from_outcome(outcome);
    respond(&result)
}

/// An operation that runs without a failing field has its data and no
/// error, and is answered with the data and nothing else, under status 200.
pub proof fn lemma_clean_execution_is_answered_with_data(data: Seq<char>)
    ensures
        ({
            let result = concluded(OutcomeView::Executed { data, errors: Seq::empty() });
            &&& result.errors.len() == 0
            &&& result.data == Some(data)
            &&& result_reply(result).status == 200
            &&& result_reply(result).body == "{"@ + ("\"data\":"@ + data) + "}"@
        }),
{
    lemma_response_shapes(concluded(OutcomeView::Executed { data, errors: Seq::empty() }));
}

/// An operation that the engine turns down, for an undefined field or for
/// any other fault, has at least one error and no data, and is answered
/// under status 200 all the same, with the errors alone in the body.
pub proof fn lemma_rejection_is_answered_with_errors(rejection: RejectionView)
    requires
        rejection.well_formed(),
    ensures
        ({
            let result = concluded(OutcomeView::Rejected(rejection));
            &&& result.errors.len() > 0
            &&& result.data is None
            &&& result_reply(result).status == 200
            &&& result_reply(result).body == "{"@ + ("\"errors\":"@ + array_text(
                entry_texts(result.errors),
            )) + "}"@
        }),
{
    lemma_response_shapes(concluded(OutcomeView::Rejected(rejection)));
}

/// A failing field takes nothing from its siblings. The data of an
/// execution stays as the engine wrote it; each failure keeps its own
/// entry, in order, with the path that names the field; and the reply holds
/// both, side by side, under status 200.
pub proof fn lemma_failures_leave_the_data(data: Seq<char>, errors: Seq<ErrorEntryView>)
    requires
        errors.len() > 0,
    ensures
        ({
            let result = concluded(OutcomeView::Executed { data, errors });
            &&& result.data == Some(data)
            &&& result.errors.len() == errors.len()
            &&& forall|i: int| 0 <= i < errors.len() ==> result.errors[i].path == errors[i].path
            &&& result_reply(result).status == 200
            &&& result_reply(result).body == "{"@ + (("\"data\":"@ + data) + ","@ + ("\"errors\":"@
                + array_text(entry_texts(errors)))) + "}"@
        }),
{
    lemma_response_shapes(concluded(OutcomeView::Executed { data, errors }));
}

/// A member of a POST body names the operation that a GET parameter names:
/// the same string, or none on either side.
pub open spec fn same_name(member: Option<ItemView>, parameter: Option<Seq<char>>) -> bool {
    match parameter {
        Some(name) => member == Some(ItemView::Text(name)),
        None => member is None || member == Some(ItemView::Null),
    }
}

/// A member of a POST body holds the variables that a GET parameter holds:
/// the parameter's text is JSON for the member's value, or there are none
/// on either side.
pub open spec fn same_variables(member: Option<ItemView>, parameter: Option<Seq<char>>) -> bool {
    match parameter {
        Some(text) => json_document(encode_utf8(text)) matches Some(parsed) && member == Some(
            parsed.value,
        ),
        None => member is None || member == Some(ItemView::Null),
    }
}

/// A POST body carries the operation that the given GET parameters carry:
/// it is a JSON object with the same query text, the same operation name
/// and the same variables.
pub open spec fn same_operation(
    body: Seq<u8>,
    query: Seq<char>,
    operation_name: Option<Seq<char>>,
    variables: Option<Seq<char>>,
) -> bool {
    json_document(body) matches Some(doc) && doc.value is Object && lookup(doc.members, "query"@)
        == Some(ItemView::Text(query)) && same_name(
        lookup(doc.members, "operationName"@),
        operation_name,
    ) && same_variables(lookup(doc.members, "variables"@), variables)
}

/// Decoder symmetry: a POST body and GET parameters that carry the same
/// operation lead to the same step. Either both hand the engine one and the
/// same operation, so that what it returns cannot depend on the verb, or
/// both are refused with the same reply.
pub proof fn lemma_decoder_symmetry(
    body: Seq<u8>,
    query: Seq<char>,
    operation_name: Option<Seq<char>>,
    variables: Option<Seq<char>>,
)
    requires
        same_operation(body, query, operation_name, variables),
    ensures
        post_decoding(body) == get_decoding(Some(query), operation_name, variables),
        dispatching(post_decoding(body)) == dispatching(
            get_decoding(Some(query), operation_name, variables),
        ),
{
}

/// A malformed request never reaches the engine: the step is an execution
/// exactly when decoding succeeded, and every failure is answered with 400.
pub proof fn lemma_malformed_is_refused(decoded: Result<OperationView, MalformedRequest>)
    ensures
        dispatching(decoded) is Execute <==> decoded is Ok,
        decoded is Err ==> (dispatching(decoded) matches DispatchView::Respond(reply)
            && reply.status == 400),
{
}

/// The page that juniper's `graphiql_source` writes for an endpoint and an
/// optional subscriptions endpoint.
pub uninterp spec fn graphiql_page(endpoint: Seq<char>, subscriptions: Option<Seq<char>>) -> Seq<
    char,
>;

/// `needle` stands somewhere in `text`.
pub open spec fn occurs_in(needle: Seq<char>, text: Seq<char>) -> bool {
    exists|i: int|
        0 <= i && i + needle.len() <= text.len() && #[trigger] text.subrange(
            i,
            i + needle.len(),
        ) == needle
}

/// The line of script by which the page learns its endpoint.
pub open spec fn endpoint_line(endpoint: Seq<char>) -> Seq<char> {
    "const JUNIPER_URL = '"@ + endpoint + "';"@
}

/// Generates the interactive page with `juniper::http::graphiql::graphiql_source`.
/// Trusted: the page is a function of the two endpoints alone, since juniper
/// pastes them into a fixed template; and it holds the line that sets
/// `JUNIPER_URL` to the endpoint, which juniper writes in place of the
/// template's one marker.
#[verifier::external_body]
fn graphiql_source(endpoint: &str, subscriptions: Option<&str>) -> (page: String)
    ensures
        page@ == graphiql_page(endpoint@, text_view(subscriptions)),
        occurs_in(endpoint_line(endpoint@), page@),
{
    juniper::http::graphiql::graphiql_source(endpoint, subscriptions)
}

/// The reply that serves a page of HTML.
pub open spec fn page_reply(page: Seq<char>) -> HttpReplyView {
    HttpReplyView { status: 200, content_type: "text/html; charset=utf-8"@, body: page }
}

/// Builds the reply that serves a page of HTML.
pub fn serve_page(page: String) -> (reply: HttpReply)
    ensures
        reply@ == page_reply(page@),
{
    HttpReply { status: 200, content_type: String::from_str("text/html; charset=utf-8"), body: page }
}

/// The handler of `GET /graphiql`: the interactive page, pointed at
/// `/graphql` and without subscriptions.
pub fn graphql_playground() -> (reply: HttpReply)
    ensures
        reply@ == page_reply(graphiql_page("/graphql"@, None)),
        occurs_in(endpoint_line("/graphql"@), reply@.body),
{
    serve_page(graphiql_source("/graphql", None))
}

} // verus!
