//! The engine's side of the pipeline: the context it runs in, what it hands
//! back, and the result that is made of it.

use vstd::prelude::*;
use vstd::string::StringExecFns;

verus! {

/// The context of one execution: a handle to the shared resource pool, not
/// a live connection. A resolver acquires a connection when it needs one.
pub struct ExecutionContext<P> {
    pub pool: P,
}

impl<P> ExecutionContext<P> {
    /// Wraps a pool handle. Nothing is acquired and nothing can fail.
    pub fn new(pool: P) -> (context: ExecutionContext<P>)
        ensures
            context.pool == pool,
    {
        ExecutionContext { pool }
    }
}

/// A position in the query text, counted from one.
#[derive(Clone, Copy, Debug, PartialEq, Eq, Structural)]
pub struct Location {
    pub line: u64,
    pub column: u64,
}

/// One more than `n`, as far as 64 bits reach.
pub open spec fn counted_from_one(n: u64) -> u64 {
    if n < u64::MAX {
        (n + 1) as u64
    } else {
        u64::MAX
    }
}

impl Location {
    /// The location of a position that was counted from zero, as engines
    /// count while they read.
    pub fn from_zero_based(line: u64, column: u64) -> (location: Location)
        ensures
            location.line == counted_from_one(line),
            location.column == counted_from_one(column),
    {
        Location { line: line.saturating_add(1), column: column.saturating_add(1) }
    }
}

/// One entry of a result's error list.
#[derive(Debug)]
pub struct ErrorEntry {
    /// What went wrong, for the client to read.
    pub message: String,
    /// Where in the query text, if anywhere.
    pub locations: Vec<Location>,
    /// The response field that the error belongs to, from the root down.
    pub path: Vec<String>,
}

/// The mathematical value of an [`ErrorEntry`].
pub struct ErrorEntryView {
    pub message: Seq<char>,
    pub locations: Seq<Location>,
    pub path: Seq<Seq<char>>,
}

/// The strings of a sequence, each by its view.
pub open spec fn strings_view(strings: Seq<String>) -> Seq<Seq<char>> {
    strings.map_values(|s: String| s@)
}

impl View for ErrorEntry {
    type V = ErrorEntryView;

    open spec fn view(&self) -> ErrorEntryView {
        ErrorEntryView {
            message: self.message@,
            locations: self.locations@,
            path: strings_view(self.path@),
        }
    }
}

/// The error entries of a sequence, each by its view.
pub open spec fn entries_view(entries: Seq<ErrorEntry>) -> Seq<ErrorEntryView> {
    entries.map_values(|e: ErrorEntry| e@)
}

/// The entry that holds a message and nothing else.
pub open spec fn bare_entry(message: Seq<char>) -> ErrorEntryView {
    ErrorEntryView { message, locations: Seq::empty(), path: Seq::empty() }
}

impl ErrorEntry {
    /// An entry that holds a message and nothing else.
    pub fn bare(message: &str) -> (entry: ErrorEntry)
        ensures
            entry@ == bare_entry(message@),
    {
        let entry = ErrorEntry {
            message: String::from_str(message),
            locations: Vec::new(),
            path: Vec::new(),
        };
        assert(entry@.path =~= Seq::<Seq<char>>::empty());
        entry
    }
}

/// Why the engine turned an operation down before it ran any resolver.
#[derive(Debug)]
pub enum Rejection {
    /// The query text is not a GraphQL document.
    Syntax(ErrorEntry),
    /// The document does not fit the schema: unknown fields, types or
    /// arguments, each with its own entry.
    Validation(Vec<ErrorEntry>),
    /// The document holds no operation.
    NoOperation,
    /// The document holds several operations and the request names none.
    AmbiguousOperation,
    /// The document holds no operation of the name that the request gives.
    UnknownOperation,
    /// The operation is a subscription, asked for as a query.
    Subscription,
    /// The operation is a query, asked for as a subscription.
    NotSubscription,
}

/// The mathematical value of a [`Rejection`].
pub enum RejectionView {
    Syntax(ErrorEntryView),
    Validation(Seq<ErrorEntryView>),
    NoOperation,
    AmbiguousOperation,
    UnknownOperation,
    Subscription,
    NotSubscription,
}

impl View for Rejection {
    type V = RejectionView;

    open spec fn view(&self) -> RejectionView {
        match *self {
            Rejection::Syntax(e) => RejectionView::Syntax(e@),
            Rejection::Validation(es) => RejectionView::Validation(entries_view(es@)),
            Rejection::NoOperation => RejectionView::NoOperation,
            Rejection::AmbiguousOperation => RejectionView::AmbiguousOperation,
            Rejection::UnknownOperation => RejectionView::UnknownOperation,
            Rejection::Subscription => RejectionView::Subscription,
            Rejection::NotSubscription => RejectionView::NotSubscription,
        }
    }
}

impl RejectionView {
    /// A rejection names at least one fault.
    pub open spec fn well_formed(self) -> bool {
        self matches RejectionView::Validation(faults) ==> faults.len() > 0
    }

    /// The error entries that tell the client of this rejection.
    pub open spec fn errors(self) -> Seq<ErrorEntryView> {
        match self {
            RejectionView::Syntax(e) => seq![e],
            RejectionView::Validation(es) => es,
            RejectionView::NoOperation => seq![bare_entry("Must provide an operation"@)],
            RejectionView::AmbiguousOperation => seq![
                bare_entry(
                    "Must provide operation name if query contains multiple operations"@,
                ),
            ],
            RejectionView::UnknownOperation => seq![bare_entry("Unknown operation"@)],
            RejectionView::Subscription => seq![bare_entry("Expected query, got subscription"@)],
            RejectionView::NotSubscription => seq![
                bare_entry("Expected subscription, got query"@),
            ],
        }
    }
}

/// What the engine hands back for one operation.
#[derive(Debug)]
pub enum Outcome {
    /// The operation was turned down; no resolver ran.
    Rejected(Rejection),
    /// The operation ran. `data` is the payload as JSON text, with null in
    /// the place of each field that failed; `errors` holds one entry for
    /// each such field, with the field's path.
    Executed { data: String, errors: Vec<ErrorEntry> },
}

/// The mathematical value of an [`Outcome`].
pub enum OutcomeView {
    Rejected(RejectionView),
    Executed { data: Seq<char>, errors: Seq<ErrorEntryView> },
}

impl View for Outcome {
    type V = OutcomeView;

    open spec fn view(&self) -> OutcomeView {
        match *self {
            Outcome::Rejected(r) => OutcomeView::Rejected(r@),
            Outcome::Executed { data, errors } => OutcomeView::Executed {
                data: data@,
                errors: entries_view(errors@),
            },
        }
    }
}

impl OutcomeView {
    /// An outcome is well formed if its rejection, where it is one, is.
    pub open spec fn well_formed(self) -> bool {
        self matches OutcomeView::Rejected(r) ==> r.well_formed()
    }
}

/// What an execution produced. Data and errors may both be there: a field
/// that failed leaves its error in `errors` and the rest of `data` intact.
#[derive(Debug)]
pub struct ExecutionResult {
    /// The data payload as JSON text, carried as the engine wrote it. It is
    /// absent where the operation was turned down before execution began.
    pub data: Option<String>,
    /// The errors, in the order in which the engine reported them.
    pub errors: Vec<ErrorEntry>,
}

/// The mathematical value of an [`ExecutionResult`].
pub struct ExecutionResultView {
    pub data: Option<Seq<char>>,
    pub errors: Seq<ErrorEntryView>,
}

impl View for ExecutionResult {
    type V = ExecutionResultView;

    open spec fn view(&self) -> ExecutionResultView {
        ExecutionResultView {
            data: match self.data {
                Some(d) => Some(d@),
                None => None,
            },
            errors: entries_view(self.errors@),
        }
    }
}

impl ExecutionResultView {
    /// A result says something: where there is no data there is an error.
    pub open spec fn well_formed(self) -> bool {
        self.data is None ==> self.errors.len() > 0
    }
}

/// The result that an outcome comes to. An execution keeps its data and its
/// errors as they are; a rejection has no data and the errors that tell of
/// it.
pub open spec fn concluded(outcome: OutcomeView) -> ExecutionResultView {
    match outcome {
        OutcomeView::Rejected(r) => ExecutionResultView { data: None, errors: r.errors() },
        OutcomeView::Executed { data, errors } => ExecutionResultView { data: Some(data), errors },
    }
}

impl Rejection {
    /// The error entries that tell the client of this rejection.
    pub fn into_errors(self) -> (errors: Vec<ErrorEntry>)
        ensures
            entries_view(errors@) == self@.errors(),
    {
        let ghost wanted = self@.errors();
        let errors = match self {
            Rejection::Validation(errors) => errors,
            Rejection::Syntax(entry) => {
                let mut errors: Vec<ErrorEntry> = Vec::new();
                errors.push(entry);
                errors
            },
            Rejection::NoOperation => {
                let mut errors: Vec<ErrorEntry> = Vec::new();
                errors.push(ErrorEntry::bare("Must provide an operation"));
                errors
            },
            Rejection::AmbiguousOperation => {
                let mut errors: Vec<ErrorEntry> = Vec::new();
                errors.push(
                    ErrorEntry::bare(
                        "Must provide operation name if query contains multiple operations",
                    ),
                );
                errors
            },
            Rejection::UnknownOperation => {
                let mut errors: Vec<ErrorEntry> = Vec::new();
                errors.push(ErrorEntry::bare("Unknown operation"));
                errors
            },
            Rejection::Subscription => {
                let mut errors: Vec<ErrorEntry> = Vec::new();
                errors.push(ErrorEntry::bare("Expected query, got subscription"));
                errors
            },
            Rejection::NotSubscription => {
                let mut errors: Vec<ErrorEntry> = Vec::new();
                errors.push(ErrorEntry::bare("Expected subscription, got query"));
                errors
            },
        };
        assert(entries_view(errors@) =~= wanted);
        errors
    }
}

impl ExecutionResult {
    /// The result of an operation that was executed: its data, and the
    /// errors of the fields that failed, if any did.
    pub fn executed(data: String, errors: Vec<ErrorEntry>) -> (result: ExecutionResult)
        ensures
            result@ == concluded(OutcomeView::Executed { data: data@, errors: entries_view(errors@) }),
    {
        ExecutionResult { data: Some(data), errors }
    }

    /// The result of an operation that was turned down before any resolver
    /// ran: there is no data.
    pub fn rejected(rejection: Rejection) -> (result: ExecutionResult)
        ensures
            result@ == concluded(OutcomeView::Rejected(rejection@)),
    {
        ExecutionResult { data: None, errors: rejection.into_errors() }
    }

    /// The result that an outcome comes to.
    pub fn from_outcome(outcome: Outcome) -> (result: ExecutionResult)
        ensures
            result@ == concluded(outcome@),
            outcome@.well_formed() ==> result@.well_formed(),
    {
        match outcome {
            Outcome::Rejected(rejection) => ExecutionResult::rejected(rejection),
            Outcome::Executed { data, errors } => ExecutionResult::executed(data, errors),
        }
    }
}

} // verus!
