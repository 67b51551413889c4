use graphql_gateway::execution::{ErrorEntry, Location, Outcome, Rejection};
use graphql_gateway::handlers::{answer, graphql, graphql_get, Dispatch};
use graphql_gateway::operation::Operation;
use graphql_gateway::response::HttpReply;
use juniper::http::{GraphQLRequest, GraphQLResponse};
use juniper::parser::SourcePosition;
use juniper::tests::fixtures::starwars::schema::{Database, Query};
use juniper::{
    DefaultScalarValue, EmptyMutation, EmptySubscription, ExecutionError, GraphQLError, InputValue,
    RootNode, Value,
};

type Schema = RootNode<Query, EmptyMutation<Database>, EmptySubscription<Database>>;

fn schema() -> Schema {
    RootNode::new(Query, EmptyMutation::new(), EmptySubscription::new())
}

fn location_of(position: &SourcePosition) -> Location {
    Location::from_zero_based(position.line() as u64, position.column() as u64)
}

fn entry_of(error: &ExecutionError<DefaultScalarValue>) -> ErrorEntry {
    ErrorEntry {
        message: error.error().message().to_string(),
        locations: vec![location_of(error.location())],
        path: error.path().to_vec(),
    }
}

fn rejection_of(error: GraphQLError) -> Rejection {
    match error {
        GraphQLError::ParseError(e) => Rejection::Syntax(ErrorEntry {
            message: e.item.to_string(),
            locations: vec![location_of(&e.start())],
            path: Vec::new(),
        }),
        GraphQLError::ValidationError(faults) => Rejection::Validation(
            faults
                .iter()
                .map(|fault| ErrorEntry {
                    message: fault.message().to_string(),
                    locations: fault.locations().iter().map(location_of).collect(),
                    path: Vec::new(),
                })
                .collect(),
        ),
        GraphQLError::NoOperationProvided => Rejection::NoOperation,
        GraphQLError::MultipleOperationsProvided => Rejection::AmbiguousOperation,
        GraphQLError::UnknownOperationName => Rejection::UnknownOperation,
        GraphQLError::IsSubscription => Rejection::Subscription,
        GraphQLError::NotSubscription => Rejection::NotSubscription,
    }
}

type Executed = Result<(Value, Vec<ExecutionError<DefaultScalarValue>>), GraphQLError>;

fn outcome_of(executed: Executed) -> Outcome {
    match executed {
        Ok((data, errors)) => Outcome::Executed {
            data: serde_json::to_string(&data).unwrap(),
            errors: errors.iter().map(entry_of).collect(),
        },
        Err(error) => Outcome::Rejected(rejection_of(error)),
    }
}

fn request_of(operation: &Operation) -> GraphQLRequest {
    let variables = operation
        .variables
        .as_deref()
        .map(|text| serde_json::from_str::<InputValue>(text).unwrap());
    GraphQLRequest::new(operation.query.clone(), operation.operation_name.clone(), variables)
}

/// Runs one step through the engine; returns the reply, and what juniper
/// itself would have written for the same execution.
fn run(step: Dispatch) -> (HttpReply, Option<String>) {
    match step {
        Dispatch::Respond(reply) => (reply, None),
        Dispatch::Execute(operation) => {
            let request = request_of(&operation);
            let executed = juniper::execute_sync(
                &request.query,
                request.operation_name.as_deref(),
                &schema(),
                &request.variables(),
                &Database::new(),
            );
            let theirs = serde_json::to_string(&GraphQLResponse::from_result(executed.clone())).unwrap();
            (answer(outcome_of(executed)), Some(theirs))
        }
    }
}

fn post(body: &str) -> (HttpReply, Option<String>) {
    run(graphql(body.as_bytes()))
}

#[test]
fn query_for_a_stored_human_returns_the_record() {
    let (reply, theirs) = post(r#"{"query":"{ human(id:\"1000\"){ id name homePlanet } }"}"#);
    assert_eq!(reply.status, 200);
    assert_eq!(reply.content_type, "application/json");
    assert_eq!(
        reply.body,
        r#"{"data":{"human":{"id":"1000","name":"Luke Skywalker","homePlanet":"Tatooine"}}}"#
    );
    assert_eq!(Some(reply.body), theirs);
}

#[test]
fn query_for_an_undefined_field_is_rejected_with_status_200() {
    let (reply, theirs) = post(r#"{"query":"{ nope }"}"#);
    assert_eq!(reply.status, 200);
    assert_eq!(
        reply.body,
        r#"{"errors":[{"message":"Unknown field \"nope\" on type \"Query\"","locations":[{"line":1,"column":3}]}]}"#
    );
    assert_eq!(Some(reply.body), theirs);
}

#[test]
fn undefined_field_on_a_later_line_is_located_there() {
    let (reply, theirs) = post(r#"{"query":"{\n  hero {\n    nope\n  }\n}"}"#);
    assert_eq!(reply.status, 200);
    assert!(reply.body.starts_with(r#"{"errors":[{"message":"#));
    assert!(reply.body.ends_with(r#""locations":[{"line":3,"column":5}]}]}"#));
    assert_eq!(Some(reply.body), theirs);
}

#[test]
fn query_that_does_not_parse_is_rejected_with_status_200() {
    let (reply, theirs) = post(r#"{"query":"{ human(id: }"}"#);
    assert_eq!(reply.status, 200);
    assert!(reply.body.starts_with(r#"{"errors":[{"message":"#));
    assert!(!reply.body.contains("\"data\""));
    assert_eq!(Some(reply.body), theirs);
}

#[test]
fn unknown_operation_name_is_rejected_with_status_200() {
    let (reply, theirs) =
        post(r#"{"query":"query A { __typename } query B { __typename }","operationName":"C"}"#);
    assert_eq!(reply.status, 200);
    assert_eq!(reply.body, r#"{"errors":[{"message":"Unknown operation"}]}"#);
    assert_eq!(Some(reply.body), theirs);
}

#[test]
fn several_operations_without_a_name_are_rejected() {
    let (reply, theirs) = post(r#"{"query":"query A { __typename } query B { __typename }"}"#);
    assert_eq!(reply.status, 200);
    assert_eq!(
        reply.body,
        r#"{"errors":[{"message":"Must provide operation name if query contains multiple operations"}]}"#
    );
    assert_eq!(Some(reply.body), theirs);
}

#[test]
fn subscription_asked_as_a_query_is_rejected() {
    let (reply, theirs) = post(r#"{"query":"subscription { __typename }"}"#);
    assert_eq!(reply.status, 200);
    assert!(reply.body.starts_with(r#"{"errors":[{"message":"#));
    assert_eq!(Some(reply.body), theirs);
}

#[test]
fn operation_name_selects_the_operation() {
    let (reply, theirs) = post(
        r#"{"query":"query A { human(id:\"1000\"){ name } } query B { human(id:\"1001\"){ name } }","operationName":"B"}"#,
    );
    assert_eq!(reply.body, r#"{"data":{"human":{"name":"Darth Vader"}}}"#);
    assert_eq!(Some(reply.body), theirs);
}

#[test]
fn variables_reach_the_engine() {
    let (reply, theirs) = post(
        r#"{"query":"query Q($id: String!) { human(id:$id){ id name } }","variables":{"id":"1001"}}"#,
    );
    assert_eq!(reply.body, r#"{"data":{"human":{"id":"1001","name":"Darth Vader"}}}"#);
    assert_eq!(Some(reply.body), theirs);
}

#[test]
fn missing_variable_is_rejected_with_status_200() {
    let (reply, theirs) =
        post(r#"{"query":"query Q($id: String!) { human(id:$id){ id name } }"}"#);
    assert_eq!(reply.status, 200);
    assert!(reply.body.starts_with(r#"{"errors":[{"message":"#));
    assert!(!reply.body.contains("\"data\""));
    assert_eq!(Some(reply.body), theirs);
}

#[test]
fn malformed_post_body_never_reaches_the_engine() {
    let (reply, theirs) = post("{\"query\": \"{ __typename }\"");
    assert_eq!(theirs, None);
    assert_eq!(reply.status, 400);
    assert_eq!(reply.body, r#"{"errors":[{"message":"request body is not valid JSON"}]}"#);
}

#[test]
fn get_typename_returns_query() {
    let (reply, theirs) = run(graphql_get(Some("{__typename}"), None, None));
    assert_eq!(reply.status, 200);
    assert_eq!(reply.content_type, "application/json");
    assert_eq!(reply.body, r#"{"data":{"__typename":"Query"}}"#);
    assert_eq!(Some(reply.body), theirs);
}

#[test]
fn both_verbs_return_the_same_result() {
    let query = "query Q($id: String!, $with: Boolean!) { human(id:$id){ id name @include(if: $with) } }";
    let body = format!(
        "{{\"query\":{},\"operationName\":\"Q\",\"variables\":{{\"id\":\"1000\",\"with\":true}}}}",
        serde_json::to_string(query).unwrap()
    );
    let posted = post(&body).0;
    let got = run(graphql_get(Some(query), Some("Q"), Some("{ \"with\" : true, \"id\" : \"1000\" }"))).0;
    assert_eq!(posted.status, got.status);
    assert_eq!(posted.content_type, got.content_type);
    assert_eq!(posted.body, got.body);
    assert_eq!(posted.body, r#"{"data":{"human":{"id":"1000","name":"Luke Skywalker"}}}"#);
}

#[test]
fn both_verbs_return_the_same_rejection() {
    let query = "{ hero { nope } }";
    let body = format!("{{\"query\":{}}}", serde_json::to_string(query).unwrap());
    let posted = post(&body).0;
    let got = run(graphql_get(Some(query), None, None)).0;
    assert_eq!(posted.status, 200);
    assert_eq!(posted.status, got.status);
    assert_eq!(posted.body, got.body);
    assert!(posted.body.starts_with(r#"{"errors":["#));
}

#[test]
fn repeated_calls_give_the_same_answer() {
    let first = post(r#"{"query":"{ hero { name friends { name } } }"}"#).0;
    assert_eq!(first.status, 200);
    for _ in 0..20 {
        let next = post(r#"{"query":"{ hero { name friends { name } } }"}"#).0;
        assert_eq!(next.status, first.status);
        assert_eq!(next.body, first.body);
    }
}
