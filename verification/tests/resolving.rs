use graphql_gateway::resolver::{advance, start, Event, Phase, Request, ResolverError};
use graphql_gateway::schemas::user::User;

type Row = (String, String, String);

fn ana() -> Row {
    ("1".to_string(), "Ana".to_string(), "ana@x.com".to_string())
}

/// A pool that counts what it hands out and what comes back, and a store
/// that answers each lookup as told.
struct World {
    free: usize,
    handed_out: usize,
    given_back: usize,
    answer: Result<Option<Row>, String>,
}

impl World {
    fn new(free: usize, answer: Result<Option<Row>, String>) -> World {
        World { free, handed_out: 0, given_back: 0, answer }
    }

    fn perform(&mut self, request: &Request<String>) -> Option<Event<Option<Row>>> {
        match request {
            Request::Acquire => {
                if self.free > 0 {
                    self.free -= 1;
                    self.handed_out += 1;
                    Some(Event::Acquired)
                } else {
                    Some(Event::TimedOut)
                }
            }
            Request::Run(_) => match self.answer.clone() {
                Ok(answer) => Some(Event::Succeeded(answer)),
                Err(reason) => Some(Event::Failed(reason)),
            },
            Request::Release => {
                self.free += 1;
                self.given_back += 1;
                Some(Event::Released)
            }
            Request::Nothing => None,
        }
    }

    fn resolve(&mut self, id: &str) -> Result<User, ResolverError> {
        let (mut phase, mut request) = start::<String, Option<Row>>(id.to_string());
        while let Some(event) = self.perform(&request) {
            let (next, asked) = advance(phase, event).unwrap();
            phase = next;
            request = asked;
        }
        match phase {
            Phase::Done(end) => User::from_lookup(end),
            other => panic!("stopped at {:?}", other),
        }
    }
}

#[test]
fn resolver_begins_by_asking_for_a_connection() {
    let (phase, request) = start::<String, Option<Row>>("1".to_string());
    assert!(matches!(phase, Phase::Acquiring(id) if id == "1"));
    assert!(matches!(request, Request::Acquire));
}

#[test]
fn resolver_runs_its_statement_on_the_connection_it_got() {
    let (phase, _) = start::<String, Option<Row>>("1".to_string());
    let (phase, request) = advance(phase, Event::Acquired).unwrap();
    assert!(matches!(phase, Phase::Running));
    assert!(matches!(request, Request::Run(id) if id == "1"));
}

#[test]
fn resolver_gives_the_connection_back_after_an_answer() {
    let (phase, _) = start::<String, Option<Row>>("1".to_string());
    let (phase, _) = advance(phase, Event::Acquired).unwrap();
    let (phase, request) = advance(phase, Event::Succeeded(Some(ana()))).unwrap();
    assert!(matches!(&phase, Phase::Releasing(Ok(Some(row))) if *row == ana()));
    assert!(matches!(request, Request::Release));
    let (phase, request) = advance(phase, Event::Released).unwrap();
    assert!(matches!(phase, Phase::Done(Ok(Some(row))) if row == ana()));
    assert!(matches!(request, Request::Nothing));
}

#[test]
fn resolver_gives_the_connection_back_after_a_failure() {
    let (phase, _) = start::<String, Option<Row>>("1".to_string());
    let (phase, _) = advance(phase, Event::Acquired).unwrap();
    let (phase, request) = advance(phase, Event::Failed("gone away".to_string())).unwrap();
    assert!(matches!(&phase, Phase::Releasing(Err(ResolverError::Store(m))) if m == "gone away"));
    assert!(matches!(request, Request::Release));
    let (phase, request) = advance(phase, Event::Released).unwrap();
    assert!(matches!(phase, Phase::Done(Err(ResolverError::Store(m))) if m == "gone away"));
    assert!(matches!(request, Request::Nothing));
}

#[test]
fn resolver_without_a_connection_fails_with_a_timeout() {
    let (phase, _) = start::<String, Option<Row>>("1".to_string());
    let (phase, request) = advance(phase, Event::TimedOut).unwrap();
    assert!(matches!(phase, Phase::Done(Err(ResolverError::PoolTimeout))));
    assert!(matches!(request, Request::Nothing));
}

#[test]
fn events_that_answer_no_request_are_turned_down() {
    let acquiring = || start::<String, Option<Row>>("1".to_string()).0;
    assert!(advance(acquiring(), Event::Released).is_none());
    assert!(advance(acquiring(), Event::Succeeded(None)).is_none());
    assert!(advance(acquiring(), Event::Failed("x".to_string())).is_none());
    let running = || advance(acquiring(), Event::Acquired).unwrap().0;
    assert!(advance(running(), Event::Acquired).is_none());
    assert!(advance(running(), Event::TimedOut).is_none());
    assert!(advance(running(), Event::Released).is_none());
    let releasing = || advance(running(), Event::Succeeded(None)).unwrap().0;
    assert!(advance(releasing(), Event::Acquired).is_none());
    assert!(advance(releasing(), Event::Succeeded(None)).is_none());
    assert!(advance(releasing(), Event::TimedOut).is_none());
    let done = || advance(releasing(), Event::Released).unwrap().0;
    assert!(advance(done(), Event::Acquired).is_none());
    assert!(advance(done(), Event::Released).is_none());
    assert!(advance(done(), Event::TimedOut).is_none());
}

#[test]
fn stored_user_is_resolved_and_the_connection_goes_back() {
    let mut world = World::new(1, Ok(Some(ana())));
    let user = world.resolve("1").unwrap();
    assert_eq!(user.id(), "1");
    assert_eq!(user.name(), "Ana");
    assert_eq!(user.email(), "ana@x.com");
    assert_eq!((world.handed_out, world.given_back, world.free), (1, 1, 1));
}

#[test]
fn missing_user_fails_the_field_and_the_connection_goes_back() {
    let mut world = World::new(1, Ok(None));
    let error = world.resolve("missing").unwrap_err();
    assert!(matches!(error, ResolverError::NotFound));
    assert_eq!(error.message(), "not found");
    assert_eq!((world.handed_out, world.given_back, world.free), (1, 1, 1));
}

#[test]
fn failed_lookup_fails_the_field_and_the_connection_goes_back() {
    let mut world = World::new(1, Err("server has gone away".to_string()));
    let error = world.resolve("1").unwrap_err();
    assert!(matches!(&error, ResolverError::Store(m) if m == "server has gone away"));
    assert_eq!(error.message(), "server has gone away");
    assert_eq!((world.handed_out, world.given_back, world.free), (1, 1, 1));
}

#[test]
fn exhausted_pool_fails_the_field_and_nothing_is_held() {
    let mut world = World::new(0, Ok(Some(ana())));
    let error = world.resolve("1").unwrap_err();
    assert!(matches!(error, ResolverError::PoolTimeout));
    assert_eq!(error.message(), "timed out waiting for a connection");
    assert_eq!((world.handed_out, world.given_back, world.free), (0, 0, 0));
}

#[test]
fn repeated_failing_calls_leak_nothing() {
    let mut world = World::new(1, Err("boom".to_string()));
    for round in 1..=100 {
        assert!(world.resolve("1").is_err());
        assert_eq!(world.handed_out, round);
        assert_eq!(world.given_back, round);
        assert_eq!(world.free, 1);
    }
    world.answer = Ok(Some(ana()));
    assert_eq!(world.resolve("1").unwrap().name(), "Ana");
    assert_eq!(world.free, 1);
}

#[test]
fn lookup_end_becomes_a_user_or_a_failure() {
    let user = User::from_lookup(Ok(Some(ana()))).unwrap();
    assert_eq!((user.id(), user.name(), user.email()), ("1", "Ana", "ana@x.com"));
    assert!(matches!(User::from_lookup(Ok(None)), Err(ResolverError::NotFound)));
    assert!(matches!(
        User::from_lookup(Err(ResolverError::PoolTimeout)),
        Err(ResolverError::PoolTimeout)
    ));
    assert!(matches!(
        User::from_lookup(Err(ResolverError::Store("x".to_string()))),
        Err(ResolverError::Store(m)) if m == "x"
    ));
}
