//! The discipline of a resolver that needs the backing store: acquire a
//! connection, use it once, give it back, on every path. The resolver
//! decides here and touches nothing; whoever drives it performs each
//! request and reports what came of it.

use vstd::prelude::*;
use vstd::string::StringExecFns;

verus! {

/// Why a field could not be resolved. Each of these fails one field, never
/// the request.
#[derive(Debug)]
pub enum ResolverError {
    /// No connection came free in time.
    PoolTimeout,
    /// The store failed while it worked on the statement.
    Store(String),
    /// The store has no such record.
    NotFound,
}

/// What the client is told of a resolver's failure.
pub open spec fn failure_text(error: ResolverError) -> Seq<char> {
    match error {
        ResolverError::PoolTimeout => "timed out waiting for a connection"@,
        ResolverError::Store(message) => message@,
        ResolverError::NotFound => "not found"@,
    }
}

impl ResolverError {
    /// What the client is told of this failure.
    pub fn message(&self) -> (text: String)
        ensures
            text@ == failure_text(*self),
    {
        match self {
            ResolverError::PoolTimeout => String::from_str("timed out waiting for a connection"),
            ResolverError::Store(message) => message.clone(),
            ResolverError::NotFound => String::from_str("not found"),
        }
    }
}

/// What a resolver asks for next.
#[derive(Debug)]
pub enum Request<Q> {
    /// A connection from the pool, within the pool's timeout.
    Acquire,
    /// The statement, run on the connection that is held.
    Run(Q),
    /// The connection that is held goes back to the pool.
    Release,
    /// Nothing more: the resolver is done.
    Nothing,
}

/// What came of the last request.
#[derive(Debug)]
pub enum Event<T> {
    /// The pool handed out a connection.
    Acquired,
    /// The pool handed out nothing in time.
    TimedOut,
    /// The statement ran and gave this answer.
    Succeeded(T),
    /// The statement failed, for this reason.
    Failed(String),
    /// The connection is back in the pool.
    Released,
}

/// Where a resolver stands.
#[derive(Debug)]
pub enum Phase<Q, T> {
    /// It holds nothing and waits for a connection, with its statement.
    Acquiring(Q),
    /// It holds a connection and waits for the statement's answer.
    Running,
    /// It holds a connection that it has asked to give back, and knows how
    /// it will end.
    Releasing(Result<T, ResolverError>),
    /// It holds nothing and has ended.
    Done(Result<T, ResolverError>),
}

impl<Q, T> Phase<Q, T> {
    /// The number of connections that a resolver in this phase holds.
    pub open spec fn held(self) -> nat {
        match self {
            Phase::Acquiring(_) => 0,
            Phase::Running => 1,
            Phase::Releasing(_) => 1,
            Phase::Done(_) => 0,
        }
    }
}

/// The step that an event leads to: the next phase and the next request, or
/// nothing where the event answers no request of this phase.
pub open spec fn advanced<Q, T>(phase: Phase<Q, T>, event: Event<T>) -> Option<
    (Phase<Q, T>, Request<Q>),
> {
    match (phase, event) {
        (Phase::Acquiring(statement), Event::Acquired) => Some(
            (Phase::Running, Request::Run(statement)),
        ),
        (Phase::Acquiring(_), Event::TimedOut) => Some(
            (Phase::Done(Err(ResolverError::PoolTimeout)), Request::Nothing),
        ),
        (Phase::Running, Event::Succeeded(answer)) => Some(
            (Phase::Releasing(Ok(answer)), Request::Release),
        ),
        (Phase::Running, Event::Failed(reason)) => Some(
            (Phase::Releasing(Err(ResolverError::Store(reason))), Request::Release),
        ),
        (Phase::Releasing(end), Event::Released) => Some((Phase::Done(end), Request::Nothing)),
        _ => None,
    }
}

/// Begins a resolver for one statement: it asks for a connection first.
pub fn start<Q, T>(statement: Q) -> (step: (Phase<Q, T>, Request<Q>))
    ensures
        step.0 == Phase::<Q, T>::Acquiring(statement),
        step.1 == Request::<Q>::Acquire,
{
    (Phase::Acquiring(statement), Request::Acquire)
}

/// Takes a resolver one step on, by what came of its last request.
pub fn advance<Q, T>(phase: Phase<Q, T>, event: Event<T>) -> (step: Option<
    (Phase<Q, T>, Request<Q>),
>)
    ensures
        step == advanced(phase, event),
{
    match phase {
        Phase::Acquiring(statement) => match event {
            Event::Acquired => Some((Phase::Running, Request::Run(statement))),
            Event::TimedOut => Some(
                (Phase::Done(Err(ResolverError::PoolTimeout)), Request::Nothing),
            ),
            _ => None,
        },
        Phase::Running => match event {
            Event::Succeeded(answer) => Some((Phase::Releasing(Ok(answer)), Request::Release)),
            Event::Failed(reason) => Some(
                (Phase::Releasing(Err(ResolverError::Store(reason))), Request::Release),
            ),
            _ => None,
        },
        Phase::Releasing(end) => match event {
            Event::Released => Some((Phase::Done(end), Request::Nothing)),
            _ => None,
        },
        Phase::Done(_) => None,
    }
}

/// The phase that a resolver reaches from `phase` by the given events, one
/// after the other, or nothing where one of them answers no request.
pub open spec fn run<Q, T>(phase: Phase<Q, T>, events: Seq<Event<T>>) -> Option<Phase<Q, T>>
    decreases events.len(),
{
    if events.len() == 0 {
        Some(phase)
    } else {
        match advanced(phase, events[0]) {
            Some((next, _)) => run(next, events.drop_first()),
            None => None,
        }
    }
}

/// How many connections the pool handed out in the course of the events.
pub open spec fn acquisitions<T>(events: Seq<Event<T>>) -> nat
    decreases events.len(),
{
    if events.len() == 0 {
        0
    } else {
        acquisitions(events.drop_first()) + if events[0] is Acquired {
            1nat
        } else {
            0nat
        }
    }
}

/// How many connections went back to the pool in the course of the events.
pub open spec fn releases<T>(events: Seq<Event<T>>) -> nat
    decreases events.len(),
{
    if events.len() == 0 {
        0
    } else {
        releases(events.drop_first()) + if events[0] is Released {
            1nat
        } else {
            0nat
        }
    }
}

/// Along any run, what is held at the end is what was held at the start,
/// plus what was acquired, less what was released; and a resolver that
/// holds a connection acquires no second one.
pub proof fn lemma_run_balance<Q, T>(phase: Phase<Q, T>, events: Seq<Event<T>>)
    requires
        run(phase, events) is Some,
    ensures
        run(phase, events).unwrap().held() + releases(events) == phase.held() + acquisitions(
            events,
        ),
        acquisitions(events) <= 1,
        !(phase is Acquiring) ==> acquisitions(events) == 0,
    decreases events.len(),
{
    if events.len() > 0 {
        let next = advanced(phase, events[0]).unwrap().0;
        lemma_run_balance(next, events.drop_first());
    }
}

/// Every connection that a resolver acquires goes back exactly once,
/// whether the resolver succeeds or fails: in any run from the start to the
/// end, the pool hands out at most one connection and gets back as many as
/// it handed out.
pub proof fn lemma_released_exactly_once<Q, T>(statement: Q, events: Seq<Event<T>>)
    requires
        run(Phase::<Q, T>::Acquiring(statement), events) matches Some(end) && end is Done,
    ensures
        releases(events) == acquisitions(events),
        acquisitions(events) <= 1,
{
    lemma_run_balance(Phase::<Q, T>::Acquiring(statement), events);
}

} // verus!
