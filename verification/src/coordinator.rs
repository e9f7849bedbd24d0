//! Retrieval coordination.
//!
//! One retrieval walks a fixed state machine: obtain a token (cached when
//! present, otherwise a login that is persisted), search once, and on an
//! empty outcome refresh the token and retry the search exactly once.  The
//! machine decides; the caller performs each returned action (a cache
//! probe, a login, a persisted-token search, a search) and feeds the
//! outcome back as the next event.  The retry budget of one and the
//! cache-before-login order are proved below.

use vstd::prelude::*;

verus! {

use crate::RetrievalError;

/// The outcome of one search call: the best-match download link, or
/// nothing.  An invalid token, zero matches and a transient remote error
/// are indistinguishable here; all surface as `NotFound`.
#[derive(Debug, PartialEq, Eq)]
pub enum SearchOutcome {
    Found(String),
    NotFound,
}

/// Where one retrieval stands.
#[derive(Clone, Copy, Debug, PartialEq, Eq, Structural)]
pub enum CoordState {
    /// Nothing has happened yet.
    Idle,
    /// The token cache is being probed.
    Probing,
    /// A login request is outstanding.
    LoggingIn,
    /// A search request is outstanding.
    Searching,
    /// A download link has been delivered; terminal.
    Resolved,
    /// The retrieval failed; terminal.
    Failed(RetrievalError),
}

/// What the caller reports to the machine.
#[derive(Debug, PartialEq, Eq)]
pub enum CoordEvent {
    /// Start one retrieval.
    Begin,
    /// The token cache held a token.
    CacheHit(String),
    /// The token cache was empty.
    CacheMiss,
    /// A login response carried this token.
    LoginOk(String),
    /// The login response could not be parsed into a token.
    LoginFailed,
    /// A search response came back.
    SearchDone(SearchOutcome),
    /// A cache, file or transport operation failed outright.
    Fault(RetrievalError),
}

/// What the machine asks the caller to do next.
#[derive(Debug, PartialEq, Eq)]
pub enum CoordAction {
    /// Read the cached token, if any.
    ProbeCache,
    /// Perform a login call.
    Login,
    /// Persist this fresh token, then search with it.
    StoreAndSearch(String),
    /// Search with this token.
    Search(String),
    /// Deliver this download link; the retrieval is complete.
    Finish(String),
    /// Surface this error; the retrieval is over.
    Fail(RetrievalError),
}

/// The coordinator: the current state and how many logins and searches
/// have been requested so far.
#[derive(Clone, Copy, Debug, PartialEq, Eq, Structural)]
pub struct Coordinator {
    pub state: CoordState,
    pub logins: u8,
    pub searches: u8,
}

/// The transition table: the machine after `event`, and the action handed
/// back to the caller.  A terminal or mismatched pairing, which `accepts`
/// rules out for every verified caller, falls through to a failure report.
pub open spec fn step_spec(c: Coordinator, event: CoordEvent) -> (Coordinator, CoordAction) {
    match (c.state, event) {
        (CoordState::Idle, CoordEvent::Begin) => (
            Coordinator { state: CoordState::Probing, ..c },
            CoordAction::ProbeCache,
        ),
        (CoordState::Probing, CoordEvent::CacheHit(token)) => (
            Coordinator { state: CoordState::Searching, searches: (c.searches + 1) as u8, ..c },
            CoordAction::Search(token),
        ),
        (CoordState::Probing, CoordEvent::CacheMiss) => (
            Coordinator { state: CoordState::LoggingIn, logins: (c.logins + 1) as u8, ..c },
            CoordAction::Login,
        ),
        (CoordState::LoggingIn, CoordEvent::LoginOk(token)) => (
            Coordinator { state: CoordState::Searching, searches: (c.searches + 1) as u8, ..c },
            CoordAction::StoreAndSearch(token),
        ),
        (CoordState::LoggingIn, CoordEvent::LoginFailed) => (
            Coordinator { state: CoordState::Failed(RetrievalError::Auth), ..c },
            CoordAction::Fail(RetrievalError::Auth),
        ),
        (CoordState::Searching, CoordEvent::SearchDone(SearchOutcome::Found(link))) => (
            Coordinator { state: CoordState::Resolved, ..c },
            CoordAction::Finish(link),
        ),
        (CoordState::Searching, CoordEvent::SearchDone(SearchOutcome::NotFound)) => if c.searches
            >= 2 {
            (
                Coordinator { state: CoordState::Failed(RetrievalError::SearchExhausted), ..c },
                CoordAction::Fail(RetrievalError::SearchExhausted),
            )
        } else {
            (
                Coordinator { state: CoordState::LoggingIn, logins: (c.logins + 1) as u8, ..c },
                CoordAction::Login,
            )
        },
        (_, CoordEvent::Fault(err)) => (
            Coordinator { state: CoordState::Failed(err), ..c },
            CoordAction::Fail(err),
        ),
        (_, _) => (c, CoordAction::Fail(RetrievalError::ProtocolParse)),
    }
}

impl Coordinator {
    /// A coordinator that has done nothing yet.
    pub open spec fn init_spec() -> Coordinator {
        Coordinator { state: CoordState::Idle, logins: 0, searches: 0 }
    }

    /// What every reachable coordinator satisfies: the retry budget caps
    /// searches and logins at two each, and the counters agree with the
    /// state.
    pub open spec fn inv(self) -> bool {
        &&& self.searches <= 2
        &&& self.logins <= 2
        &&& ((self.state is Idle || self.state is Probing) ==> self.searches == 0
            && self.logins == 0)
        &&& (self.state is LoggingIn ==> 1 <= self.logins && self.logins <= self.searches + 1
            && self.searches <= 1)
        &&& (self.state is Searching ==> 1 <= self.searches && self.logins <= self.searches)
    }

    /// Which events the machine can take in its current state.  Terminal
    /// states accept none; every retrieval ends.
    pub open spec fn accepts(self, event: CoordEvent) -> bool {
        match (self.state, event) {
            (CoordState::Idle, CoordEvent::Begin) => true,
            (CoordState::Probing, CoordEvent::CacheHit(_)) => true,
            (CoordState::Probing, CoordEvent::CacheMiss) => true,
            (CoordState::Probing, CoordEvent::Fault(_)) => true,
            (CoordState::LoggingIn, CoordEvent::LoginOk(_)) => true,
            (CoordState::LoggingIn, CoordEvent::LoginFailed) => true,
            (CoordState::LoggingIn, CoordEvent::Fault(_)) => true,
            (CoordState::Searching, CoordEvent::SearchDone(_)) => true,
            (CoordState::Searching, CoordEvent::Fault(_)) => true,
            (_, _) => false,
        }
    }

    pub fn new() -> (c: Coordinator)
        ensures
            c == Coordinator::init_spec(),
            c.inv(),
    {
        Coordinator { state: CoordState::Idle, logins: 0, searches: 0 }
    }

    /// Whether `event` may be fed to the machine now; the executable
    /// mirror of `accepts`, for unverified callers.
    pub fn accepts_event(&self, event: &CoordEvent) -> (r: bool)
        ensures
            r == self.accepts(*event),
    {
        match (&self.state, event) {
            (CoordState::Idle, CoordEvent::Begin) => true,
            (CoordState::Probing, CoordEvent::CacheHit(_)) => true,
            (CoordState::Probing, CoordEvent::CacheMiss) => true,
            (CoordState::Probing, CoordEvent::Fault(_)) => true,
            (CoordState::LoggingIn, CoordEvent::LoginOk(_)) => true,
            (CoordState::LoggingIn, CoordEvent::LoginFailed) => true,
            (CoordState::LoggingIn, CoordEvent::Fault(_)) => true,
            (CoordState::Searching, CoordEvent::SearchDone(_)) => true,
            (CoordState::Searching, CoordEvent::Fault(_)) => true,
            (_, _) => false,
        }
    }

    /// Takes one step: consumes the event, moves to the next state and
    /// returns the action the caller must perform.
    pub fn step(&mut self, event: CoordEvent) -> (action: CoordAction)
        requires
            old(self).inv(),
            old(self).accepts(event),
        ensures
            final (self).inv(),
            (*final (self), action) == step_spec(*old(self), event),
    {
        match (self.state, event) {
            (CoordState::Idle, CoordEvent::Begin) => {
                self.state = CoordState::Probing;
                CoordAction::ProbeCache
            },
            (CoordState::Probing, CoordEvent::CacheHit(token)) => {
                self.state = CoordState::Searching;
                self.searches = self.searches + 1;
                CoordAction::Search(token)
            },
            (CoordState::Probing, CoordEvent::CacheMiss) => {
                self.state = CoordState::LoggingIn;
                self.logins = self.logins + 1;
                CoordAction::Login
            },
            (CoordState::LoggingIn, CoordEvent::LoginOk(token)) => {
                self.state = CoordState::Searching;
                self.searches = self.searches + 1;
                CoordAction::StoreAndSearch(token)
            },
            (CoordState::LoggingIn, CoordEvent::LoginFailed) => {
                self.state = CoordState::Failed(RetrievalError::Auth);
                CoordAction::Fail(RetrievalError::Auth)
            },
            (CoordState::Searching, CoordEvent::SearchDone(SearchOutcome::Found(link))) => {
                self.state = CoordState::Resolved;
                CoordAction::Finish(link)
            },
            (CoordState::Searching, CoordEvent::SearchDone(SearchOutcome::NotFound)) => {
                if self.searches >= 2 {
                    self.state = CoordState::Failed(RetrievalError::SearchExhausted);
                    CoordAction::Fail(RetrievalError::SearchExhausted)
                } else {
                    self.state = CoordState::LoggingIn;
                    self.logins = self.logins + 1;
                    CoordAction::Login
                }
            },
            (_, CoordEvent::Fault(err)) => {
                self.state = CoordState::Failed(err);
                CoordAction::Fail(err)
            },
            (_, _) => CoordAction::Fail(RetrievalError::ProtocolParse),
        }
    }
}

/// The budget holds on every path: a step from any machine within the
/// invariant, on any event, stays within it — so no reachable run ever
/// requests more than two searches or more than two logins.
pub proof fn lemma_step_preserves_inv(c: Coordinator, event: CoordEvent)
    requires
        c.inv(),
    ensures
        step_spec(c, event).0.inv(),
{
}

/// Retry budget: when every search comes back empty and the cache starts
/// empty, the run asks for exactly two searches and exactly two logins
/// (the initial one and one refresh), ends in `SearchExhausted`, and the
/// terminal machine accepts no further event — there is never a third
/// attempt.
pub proof fn lemma_retry_bound(t1: String, t2: String)
    ensures
        ({
            let c0 = Coordinator::init_spec();
            let (c1, a1) = step_spec(c0, CoordEvent::Begin);
            let (c2, a2) = step_spec(c1, CoordEvent::CacheMiss);
            let (c3, a3) = step_spec(c2, CoordEvent::LoginOk(t1));
            let (c4, a4) = step_spec(c3, CoordEvent::SearchDone(SearchOutcome::NotFound));
            let (c5, a5) = step_spec(c4, CoordEvent::LoginOk(t2));
            let (c6, a6) = step_spec(c5, CoordEvent::SearchDone(SearchOutcome::NotFound));
            &&& a1 == CoordAction::ProbeCache
            &&& a2 == CoordAction::Login
            &&& a3 == CoordAction::StoreAndSearch(t1)
            &&& a4 == CoordAction::Login
            &&& a5 == CoordAction::StoreAndSearch(t2)
            &&& a6 == CoordAction::Fail(RetrievalError::SearchExhausted)
            &&& c6.state == CoordState::Failed(RetrievalError::SearchExhausted)
            &&& c6.searches == 2
            &&& c6.logins == 2
            &&& forall|e: CoordEvent| !c6.accepts(e)
        }),
{
}

/// Cache reuse: when the cache holds a token, the first search is issued
/// with that token and no login has been requested before it.
pub proof fn lemma_cache_reuse(t: String)
    ensures
        ({
            let c0 = Coordinator::init_spec();
            let (c1, a1) = step_spec(c0, CoordEvent::Begin);
            let (c2, a2) = step_spec(c1, CoordEvent::CacheHit(t));
            &&& a1 == CoordAction::ProbeCache
            &&& a2 == CoordAction::Search(t)
            &&& c2.logins == 0
            &&& c2.searches == 1
            &&& c2.state == CoordState::Searching
        }),
{
}

/// Resolution without retry: when the cache holds a token and the first
/// search finds a link, the machine delivers exactly that link and ends
/// resolved, with no login and no second search.
pub proof fn lemma_first_search_resolves(t: String, link: String)
    ensures
        ({
            let c0 = Coordinator::init_spec();
            let (c1, a1) = step_spec(c0, CoordEvent::Begin);
            let (c2, a2) = step_spec(c1, CoordEvent::CacheHit(t));
            let (c3, a3) = step_spec(c2, CoordEvent::SearchDone(SearchOutcome::Found(link)));
            &&& a3 == CoordAction::Finish(link)
            &&& c3.state == CoordState::Resolved
            &&& c3.logins == 0
            &&& c3.searches == 1
            &&& forall|e: CoordEvent| !c3.accepts(e)
        }),
{
}

} // verus!
