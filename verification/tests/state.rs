use graphql_gateway::execution::ExecutionContext;
use graphql_gateway::handlers::GraphQLState;
use graphql_gateway::schemas::user::{User, UserInput};

#[test]
fn user_is_built_from_a_row() {
    let user = User::from_row(("1".to_string(), "Ana".to_string(), "ana@x.com".to_string()));
    assert_eq!(user.id(), "1");
    assert_eq!(user.name(), "Ana");
    assert_eq!(user.email(), "ana@x.com");
}

#[test]
fn default_user_is_empty() {
    let user = User::default();
    assert_eq!(user.id(), "");
    assert_eq!(user.name(), "");
    assert_eq!(user.email(), "");
}

#[test]
fn user_getters_read_the_fields() {
    let user = User { id: "7".to_string(), name: "Bo".to_string(), email: "bo@y.org".to_string() };
    assert_eq!(user.id(), user.id);
    assert_eq!(user.name(), user.name);
    assert_eq!(user.email(), user.email);
}

#[test]
fn user_input_holds_name_and_email() {
    let input = UserInput { name: "Ana".to_string(), email: "ana@x.com".to_string() };
    assert_eq!(input.name, "Ana");
    assert_eq!(input.email, "ana@x.com");
}

#[test]
fn context_wraps_the_pool_handle() {
    let context = ExecutionContext::new(41u64);
    assert_eq!(context.pool, 41);
}

#[test]
fn state_holds_pool_and_schema() {
    let state = GraphQLState::new("pool".to_string(), vec![1u8, 2, 3]);
    assert_eq!(state.pool, "pool");
    assert_eq!(*state.schema, vec![1u8, 2, 3]);
}

#[test]
fn every_request_gets_a_context_of_its_own() {
    let state = GraphQLState::new("pool".to_string(), ());
    let first = state.context();
    let second = state.context();
    assert_eq!(first.pool, "pool");
    assert_eq!(second.pool, "pool");
    assert_eq!(state.pool, "pool");
}
