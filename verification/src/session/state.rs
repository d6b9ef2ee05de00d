//! The lifecycle of one session as a state machine.
//!
//! A session walks the chain `Init`, `Handshake`, `Authenticated`, `Ready`,
//! `Streaming` one step at a time. It may leave the chain for `Failed` or
//! `Closed` at any point, and after that only `Closed` may follow. The states that carry a `since` record the instant, in
//! milliseconds on the caller's monotonic clock, at which they were entered.

use vstd::prelude::*;
use vstd::string::StringExecFns;

verus! {

/// Where a session stands.
#[derive(Debug, PartialEq, Eq)]
pub enum SessionState {
    Init,
    Handshake,
    Authenticated { since: u64 },
    Ready { since: u64 },
    Streaming { since: u64 },
    Failed(String),
    Closed,
}

/// Why a state change was refused.
#[derive(Debug)]
pub enum SessionStateError {
    InvalidTransition(String),
}

impl SessionStateError {
    /// The reason as one line of text.
    pub open spec fn message_spec(self) -> Seq<char> {
        match self {
            SessionStateError::InvalidTransition(detail) => "invalid state transition: "@ + detail@,
        }
    }

    /// The reason as one line of text.
    pub fn message(&self) -> (text: String)
        ensures
            text@ == self.message_spec(),
    {
        match self {
            SessionStateError::InvalidTransition(detail) => String::from_str(
                "invalid state transition: ",
            ).concat(detail.as_str()),
        }
    }
}

impl Clone for SessionState {
    fn clone(&self) -> (copy: Self)
        ensures
            copy == *self,
    {
        match self {
            SessionState::Init => SessionState::Init,
            SessionState::Handshake => SessionState::Handshake,
            SessionState::Authenticated { since } => SessionState::Authenticated { since: *since },
            SessionState::Ready { since } => SessionState::Ready { since: *since },
            SessionState::Streaming { since } => SessionState::Streaming { since: *since },
            SessionState::Failed(reason) => SessionState::Failed(reason.clone()),
            SessionState::Closed => SessionState::Closed,
        }
    }
}

impl SessionState {
    /// `Failed` and `Closed` end a session.
    pub open spec fn is_terminal(self) -> bool {
        self is Failed || self is Closed
    }

    /// The position of a state on the chain; the terminal states stand
    /// behind it.
    pub open spec fn rank(self) -> int {
        match self {
            SessionState::Init => 0,
            SessionState::Handshake => 1,
            SessionState::Authenticated { .. } => 2,
            SessionState::Ready { .. } => 3,
            SessionState::Streaming { .. } => 4,
            SessionState::Failed(_) => 5,
            SessionState::Closed => 5,
        }
    }

    /// The permitted moves: into `Closed` from anywhere; and, from a state
    /// that is not terminal, into `Failed` or one step along the chain.
    /// After `Failed` or `Closed`, then, only `Closed` may follow.
    pub open spec fn permits(self, next: SessionState) -> bool {
        next is Closed || (!self.is_terminal() && (next is Failed || next.rank() == self.rank()
            + 1))
    }

    /// The instant a timed state was entered.
    pub open spec fn since_spec(self) -> Option<u64> {
        match self {
            SessionState::Authenticated { since } => Some(since),
            SessionState::Ready { since } => Some(since),
            SessionState::Streaming { since } => Some(since),
            _ => None,
        }
    }

    /// A timed state has been idle for more than `timeout` at `now`. An
    /// instant before `since` counts as no time elapsed.
    pub open spec fn timed_out(self, timeout: u64, now: u64) -> bool {
        match self.since_spec() {
            Some(since) => now >= since && now - since > timeout,
            None => false,
        }
    }

    /// The name of the state, without what it carries.
    pub open spec fn name_spec(self) -> Seq<char> {
        match self {
            SessionState::Init => "Init"@,
            SessionState::Handshake => "Handshake"@,
            SessionState::Authenticated { .. } => "Authenticated"@,
            SessionState::Ready { .. } => "Ready"@,
            SessionState::Streaming { .. } => "Streaming"@,
            SessionState::Failed(_) => "Failed"@,
            SessionState::Closed => "Closed"@,
        }
    }

    /// The name of the state, without what it carries.
    pub fn name(&self) -> (name: &'static str)
        ensures
            name@ == self.name_spec(),
    {
        match self {
            SessionState::Init => "Init",
            SessionState::Handshake => "Handshake",
            SessionState::Authenticated { .. } => "Authenticated",
            SessionState::Ready { .. } => "Ready",
            SessionState::Streaming { .. } => "Streaming",
            SessionState::Failed(_) => "Failed",
            SessionState::Closed => "Closed",
        }
    }

    /// Whether the session may move from this state to `next`.
    pub fn can_transition(&self, next: &SessionState) -> (allowed: bool)
        ensures
            allowed == self.permits(*next),
    {
        match (self, next) {
            (_, SessionState::Closed) => true,
            (SessionState::Failed(_), _) => false,
            (SessionState::Closed, _) => false,
            (_, SessionState::Failed(_)) => true,
            (SessionState::Init, SessionState::Handshake) => true,
            (SessionState::Handshake, SessionState::Authenticated { .. }) => true,
            (SessionState::Authenticated { .. }, SessionState::Ready { .. }) => true,
            (SessionState::Ready { .. }, SessionState::Streaming { .. }) => true,
            _ => false,
        }
    }

    /// Moves to `next` where that is permitted, and says which move was
    /// refused where it is not.
    pub fn transition(self, next: SessionState) -> (moved: Result<SessionState, SessionStateError>)
        ensures
            self.permits(next) ==> moved == Ok::<SessionState, SessionStateError>(next),
            !self.permits(next) ==> (moved matches Err(SessionStateError::InvalidTransition(detail))
                && detail@ == "cannot transition from "@ + self.name_spec() + " to "@
                + next.name_spec()),
    {
        if self.can_transition(&next) {
            Ok(next)
        } else {
            let detail = String::from_str("cannot transition from ").concat(self.name()).concat(
                " to ",
            ).concat(next.name());
            Err(SessionStateError::InvalidTransition(detail))
        }
    }

    pub fn is_failed(&self) -> (failed: bool)
        ensures
            failed == (*self is Failed),
    {
        match self {
            SessionState::Failed(_) => true,
            _ => false,
        }
    }

    pub fn is_closed(&self) -> (closed: bool)
        ensures
            closed == (*self is Closed),
    {
        match self {
            SessionState::Closed => true,
            _ => false,
        }
    }

    /// Whether an authenticated, ready or streaming session has been idle
    /// for more than `timeout` milliseconds at `now`. No other state times
    /// out.
    pub fn check_timeout(&self, timeout: u64, now: u64) -> (expired: bool)
        ensures
            expired == self.timed_out(timeout, now),
    {
        match self {
            SessionState::Authenticated { since }
            | SessionState::Ready { since }
            | SessionState::Streaming { since } => now >= *since && now - *since > timeout,
            _ => false,
        }
    }
}

/// No resurrection: once a session has failed or closed, the only state
/// that may follow is `Closed`.
pub proof fn lemma_only_closed_follows_the_end(from: SessionState, to: SessionState)
    requires
        from.is_terminal(),
        from.permits(to),
    ensures
        to is Closed,
{
}

/// The chain is walked one step at a time: a permitted move into a state
/// that is not terminal starts at the state just before it.
pub proof fn lemma_chain_moves_one_step(from: SessionState, to: SessionState)
    requires
        from.permits(to),
        !to.is_terminal(),
    ensures
        !from.is_terminal(),
        to.rank() == from.rank() + 1,
{
}

/// A trace is what a session can go through: it starts in `Init`, and every
/// state permits the one behind it.
pub open spec fn is_trace(trace: Seq<SessionState>) -> bool {
    &&& trace.len() > 0
    &&& trace[0] is Init
    &&& forall|i: int| 0 <= i < trace.len() - 1 ==> (#[trigger] trace[i]).permits(trace[i + 1])
}

/// The states of a trace that are not terminal, in their order.
pub open spec fn live_states(trace: Seq<SessionState>) -> Seq<SessionState> {
    trace.filter(|s: SessionState| !s.is_terminal())
}

proof fn lemma_live_prefix(trace: Seq<SessionState>, n: int)
    requires
        is_trace(trace),
        0 <= n <= trace.len(),
    ensures
        live_states(trace.take(n)).len() <= n,
        forall|i: int|
            0 <= i < live_states(trace.take(n)).len() ==> (#[trigger] live_states(
                trace.take(n),
            )[i]).rank() == i && !live_states(trace.take(n))[i].is_terminal(),
        live_states(trace.take(n)).len() == n ==> live_states(trace.take(n)) == trace.take(n),
        n > 0 && live_states(trace.take(n)).len() < n ==> trace[n - 1].is_terminal(),
    decreases n,
{
    reveal(Seq::filter);
    let live = |s: SessionState| !s.is_terminal();
    if n == 0 {
        assert(trace.take(0) =~= Seq::<SessionState>::empty());
    } else {
        lemma_live_prefix(trace, n - 1);
        let before = trace.take(n - 1);
        let now = trace.take(n);
        assert(now.drop_last() =~= before);
        assert(now.last() == trace[n - 1]);
        let kept = live_states(before);
        if !trace[n - 1].is_terminal() {
            assert(live_states(now) == kept.push(trace[n - 1]));
            if n > 1 {
                assert(trace[n - 2].permits(trace[n - 2 + 1]));
                assert(!trace[n - 2].is_terminal());
                assert(kept.len() == n - 1);
                assert(kept == before);
                assert(before[n - 2] == trace[n - 2]);
                assert(kept[n - 2].rank() == n - 2);
            } else {
                assert(kept.len() == 0);
            }
            assert(live_states(now) =~= now);
        } else {
            assert(live_states(now) == kept);
        }
    }
}

/// In every trace the states that are not terminal are a prefix of the chain
/// `Init`, `Handshake`, `Authenticated`, `Ready`, `Streaming`: the state at
/// position `i` among them is the chain's state of rank `i`, so there are at
/// most five, and none is left out or met twice.
pub proof fn lemma_live_states_are_a_chain_prefix(trace: Seq<SessionState>)
    requires
        is_trace(trace),
    ensures
        live_states(trace).len() <= 5,
        forall|i: int|
            0 <= i < live_states(trace).len() ==> (#[trigger] live_states(trace)[i]).rank() == i,
{
    lemma_live_prefix(trace, trace.len() as int);
    assert(trace.take(trace.len() as int) =~= trace);
    let live = live_states(trace);
    if live.len() > 5 {
        assert(live[5].rank() == 5);
        assert(!live[5].is_terminal());
    }
}

} // verus!
