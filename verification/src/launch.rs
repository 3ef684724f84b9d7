//! Arbitration between launches of the executable.
//!
//! Every launch tries to take the singleton lock. The launch that takes it
//! is the primary instance and goes on to open the main window. A launch
//! that finds the lock taken is secondary: it hands its arguments and
//! working directory to the primary instance and ends.

use vstd::prelude::*;

verus! {

/// What a relaunch carries to the primary instance.
#[derive(Debug, PartialEq, Eq)]
pub struct LaunchEvent {
    arguments: Vec<String>,
    working_directory: String,
}

/// A launch event as a mathematical value.
pub struct LaunchEventView {
    pub arguments: Seq<Seq<char>>,
    pub working_directory: Seq<char>,
}

impl View for LaunchEvent {
    type V = LaunchEventView;

    closed spec fn view(&self) -> LaunchEventView {
        LaunchEventView {
            arguments: self.arguments.deep_view(),
            working_directory: self.working_directory@,
        }
    }
}

impl LaunchEvent {
    /// The event of a launch with these arguments from this directory.
    pub fn new(arguments: Vec<String>, working_directory: String) -> (event: Self)
        ensures
            event@ == (LaunchEventView {
                arguments: arguments.deep_view(),
                working_directory: working_directory@,
            }),
    {
        LaunchEvent { arguments, working_directory }
    }

    /// The arguments of the launch, in order.
    pub fn arguments(&self) -> (arguments: &Vec<String>)
        ensures
            arguments.deep_view() == self@.arguments,
    {
        &self.arguments
    }

    /// The directory the launch was made from.
    pub fn working_directory(&self) -> (directory: &str)
        ensures
            directory@ == self@.working_directory,
    {
        self.working_directory.as_str()
    }
}

/// How an attempt to become the running instance ended.
#[derive(Debug, PartialEq, Eq)]
pub enum LaunchOutcome {
    /// This launch holds the lock: it is the running instance.
    Primary,
    /// Another instance holds the lock; the event is to be forwarded to it.
    Secondary(LaunchEvent),
}

/// A launch outcome as a mathematical value.
pub enum LaunchOutcomeView {
    Primary,
    Secondary(LaunchEventView),
}

impl View for LaunchOutcome {
    type V = LaunchOutcomeView;

    open spec fn view(&self) -> LaunchOutcomeView {
        match self {
            LaunchOutcome::Primary => LaunchOutcomeView::Primary,
            LaunchOutcome::Secondary(event) => LaunchOutcomeView::Secondary(event@),
        }
    }
}

/// The outcome of a launch, given whether it took the lock.
pub open spec fn outcome_of(acquired: bool, event: LaunchEventView) -> LaunchOutcomeView {
    if acquired {
        LaunchOutcomeView::Primary
    } else {
        LaunchOutcomeView::Secondary(event)
    }
}

/// The outcome of a launch whose attempt on the lock ended as `acquired`
/// says: primary if it took the lock, else secondary with the event built
/// from its own arguments and working directory.
pub fn launch_outcome(
    acquired: bool,
    arguments: Vec<String>,
    working_directory: String,
) -> (outcome: LaunchOutcome)
    ensures
        outcome@ == outcome_of(
            acquired,
            LaunchEventView {
                arguments: arguments.deep_view(),
                working_directory: working_directory@,
            },
        ),
{
    if acquired {
        LaunchOutcome::Primary
    } else {
        LaunchOutcome::Secondary(LaunchEvent::new(arguments, working_directory))
    }
}

/// The claim that an instance is running. It is taken at most once and
/// never given back while the session lasts.
#[derive(Debug)]
pub struct SingletonLock {
    held: bool,
}

impl View for SingletonLock {
    type V = bool;

    /// Whether the lock is held.
    closed spec fn view(&self) -> bool {
        self.held
    }
}

impl SingletonLock {
    /// A lock that nobody holds.
    pub fn new() -> (lock: Self)
        ensures
            !lock@,
    {
        SingletonLock { held: false }
    }

    /// Whether the lock is held.
    pub fn is_held(&self) -> (held: bool)
        ensures
            held == self@,
    {
        self.held
    }

    /// Tries to take the lock. This succeeds exactly when nobody held it;
    /// afterwards it is held either way.
    pub fn acquire(&mut self) -> (acquired: bool)
        ensures
            acquired == !old(self)@,
            final(self)@,
    {
        let acquired = !self.held;
        self.held = true;
        acquired
    }
}

/// One launch attempt against `lock`: primary if the lock was free,
/// secondary with the launch's own event if it was held. The lock is held
/// afterwards.
pub fn attempt_acquire(
    lock: &mut SingletonLock,
    arguments: Vec<String>,
    working_directory: String,
) -> (outcome: LaunchOutcome)
    ensures
        final(lock)@,
        outcome@ == outcome_of(
            !old(lock)@,
            LaunchEventView {
                arguments: arguments.deep_view(),
                working_directory: working_directory@,
            },
        ),
{
    let acquired = lock.acquire();
    launch_outcome(acquired, arguments, working_directory)
}

/// The outcomes of a run of launch attempts, made one after another against
/// a lock that is held or not as `held` says.
pub open spec fn session(held: bool, attempts: Seq<LaunchEventView>) -> Seq<LaunchOutcomeView>
    decreases attempts.len(),
{
    if attempts.len() == 0 {
        Seq::empty()
    } else {
        seq![outcome_of(!held, attempts[0])] + session(true, attempts.drop_first())
    }
}

/// How many of the outcomes are primary.
pub open spec fn primaries(outcomes: Seq<LaunchOutcomeView>) -> nat
    decreases outcomes.len(),
{
    if outcomes.len() == 0 {
        0
    } else if outcomes[0] is Primary {
        1 + primaries(outcomes.drop_first())
    } else {
        primaries(outcomes.drop_first())
    }
}

/// Against a held lock every attempt is secondary and carries its own
/// event.
pub proof fn lemma_session_held(attempts: Seq<LaunchEventView>)
    ensures
        session(true, attempts).len() == attempts.len(),
        primaries(session(true, attempts)) == 0,
        forall|i: int|
            0 <= i < attempts.len() ==> session(true, attempts)[i]
                == LaunchOutcomeView::Secondary(attempts[i]),
    decreases attempts.len(),
{
    if attempts.len() > 0 {
        let rest = attempts.drop_first();
        lemma_session_held(rest);
        let outcomes = session(true, attempts);
        assert(outcomes.drop_first() =~= session(true, rest));
        assert forall|i: int| 0 <= i < attempts.len() implies outcomes[i]
            == LaunchOutcomeView::Secondary(attempts[i]) by {
            if i > 0 {
                assert(outcomes[i] == session(true, rest)[i - 1]);
                assert(rest[i - 1] == attempts[i]);
            }
        }
    }
}

/// Of any run of one or more launch attempts in a session that starts with
/// the lock free, exactly one is primary, namely the one that arrived
/// first; every other is secondary and carries its own arguments and
/// working directory.
pub proof fn lemma_single_primary(attempts: Seq<LaunchEventView>)
    requires
        attempts.len() >= 1,
    ensures
        session(false, attempts).len() == attempts.len(),
        primaries(session(false, attempts)) == 1,
        session(false, attempts)[0] is Primary,
        forall|i: int|
            1 <= i < attempts.len() ==> session(false, attempts)[i]
                == LaunchOutcomeView::Secondary(attempts[i]),
{
    let rest = attempts.drop_first();
    lemma_session_held(rest);
    let outcomes = session(false, attempts);
    assert(outcomes.drop_first() =~= session(true, rest));
    assert forall|i: int| 1 <= i < attempts.len() implies outcomes[i]
        == LaunchOutcomeView::Secondary(attempts[i]) by {
        assert(outcomes[i] == session(true, rest)[i - 1]);
        assert(rest[i - 1] == attempts[i]);
    }
}

} // verus!
