//! The connection dialer: a single pass over the eligible candidates, in
//! resolution order, where the first successful connect wins.
//!
//! The dialer decides; its caller performs each attempt on a socket and
//! reports the outcome back.

use vstd::prelude::*;
use crate::addr::{
    IpAddress,
    SocketAddress,
    bind_choice,
    bind_local_address,
    eligible_candidates,
    filter_candidates,
};
use crate::error::{Cause, TransportError, ErrorKind};

verus! {

/// What happened when one candidate was tried.
#[derive(Clone, Debug)]
pub enum AttemptOutcome {
    /// The socket connected.
    Connected,
    /// The socket could not be created; dialing stops.
    SocketFailed(String),
    /// The socket could not be bound; dialing stops.
    BindFailed(String),
    /// The connect failed; the next candidate is tried.
    ConnectFailed(String),
}

/// What the dialer asks its caller to do next.
#[derive(Clone, Debug)]
pub enum DialAction {
    /// Open a socket of `target`'s family, bind it to `bind` if present,
    /// connect it to `target`, and report the outcome.
    Attempt { target: SocketAddress, bind: Option<SocketAddress> },
    /// Dialing succeeded on this candidate.
    Connected(SocketAddress),
    /// Dialing failed.
    Failed(TransportError),
}

/// The dialer's abstract state.
pub ghost struct DialerView {
    pub candidates: Seq<SocketAddress>,
    pub local: Option<IpAddress>,
    pub bind_required: bool,
    pub next: nat,
    pub last_error: Option<String>,
    pub finished: bool,
}

/// The error reported once every candidate has been tried: the last
/// connect failure, or, when there was no candidate, an unresolved error.
pub open spec fn exhausted_error(last_error: Option<String>) -> TransportError {
    match last_error {
        Some(m) => TransportError { kind: ErrorKind::Connection, cause: Cause::Failure(m) },
        None => TransportError { kind: ErrorKind::Connection, cause: Cause::Unresolved },
    }
}

/// Emits the action for the candidate at `v.next`, or the final failure
/// once none is left.
pub open spec fn advance(v: DialerView) -> (DialerView, DialAction) {
    if v.next < v.candidates.len() {
        let target = v.candidates[v.next as int];
        (v, DialAction::Attempt { target, bind: bind_choice(target, v.local, v.bind_required) })
    } else {
        (
            DialerView { last_error: None, finished: true, ..v },
            DialAction::Failed(exhausted_error(v.last_error)),
        )
    }
}

/// The transition taken when the pending attempt reports `outcome`.
pub open spec fn step_spec(v: DialerView, outcome: AttemptOutcome) -> (DialerView, DialAction) {
    match outcome {
        AttemptOutcome::Connected => (
            DialerView { finished: true, ..v },
            DialAction::Connected(v.candidates[v.next as int]),
        ),
        AttemptOutcome::SocketFailed(m) => (
            DialerView { finished: true, ..v },
            DialAction::Failed(TransportError { kind: ErrorKind::Connection, cause: Cause::Failure(m) }),
        ),
        AttemptOutcome::BindFailed(m) => (
            DialerView { finished: true, ..v },
            DialAction::Failed(TransportError { kind: ErrorKind::Connection, cause: Cause::Failure(m) }),
        ),
        AttemptOutcome::ConnectFailed(m) => advance(
            DialerView { next: v.next + 1, last_error: Some(m), ..v },
        ),
    }
}

/// The state in which dialing over `resolved` starts.
pub open spec fn initial(
    resolved: Seq<SocketAddress>,
    local: Option<IpAddress>,
    bind_required: bool,
) -> DialerView {
    DialerView {
        candidates: eligible_candidates(resolved, local),
        local,
        bind_required,
        next: 0,
        last_error: None,
        finished: false,
    }
}

/// Runs the dialer from state `v` with pending action `a`, the attempts
/// reporting `outcomes` in turn. Gives the action it ends on and the
/// number of outcomes consumed.
pub open spec fn run_from(v: DialerView, a: DialAction, outcomes: Seq<AttemptOutcome>) -> (
    DialAction,
    nat,
)
    decreases outcomes.len(),
{
    if a is Attempt && outcomes.len() > 0 {
        let (v2, a2) = step_spec(v, outcomes[0]);
        let (end, n) = run_from(v2, a2, outcomes.drop_first());
        (end, n + 1)
    } else {
        (a, 0)
    }
}

/// A whole dial over `resolved`, the k-th attempt reporting `outcomes[k]`.
pub open spec fn dial(
    resolved: Seq<SocketAddress>,
    local: Option<IpAddress>,
    bind_required: bool,
    outcomes: Seq<AttemptOutcome>,
) -> (DialAction, nat) {
    let (v, a) = advance(initial(resolved, local, bind_required));
    run_from(v, a, outcomes)
}

proof fn lemma_first_success_from(v: DialerView, outcomes: Seq<AttemptOutcome>, k: nat)
    requires
        !v.finished,
        v.next + k < v.candidates.len(),
        k < outcomes.len(),
        outcomes[k as int] is Connected,
        forall|j: int| 0 <= j < k ==> #[trigger] outcomes[j] is ConnectFailed,
    ensures
        run_from(v, advance(v).1, outcomes) == (
            DialAction::Connected(v.candidates[v.next + k as int]),
            k + 1,
        ),
    decreases k,
{
    let rest = outcomes.drop_first();
    let (v1, a1) = step_spec(v, outcomes[0]);
    assert(run_from(v, advance(v).1, outcomes) == (run_from(v1, a1, rest).0, run_from(v1, a1, rest).1 + 1));
    if k == 0 {
        assert(run_from(v1, a1, rest) == (a1, 0nat));
    } else {
        let m = outcomes[0]->ConnectFailed_0;
        let v2 = DialerView { next: v.next + 1, last_error: Some(m), ..v };
        assert forall|j: int| 0 <= j < k - 1 implies #[trigger] rest[j] is ConnectFailed by {
            assert(outcomes[j + 1] is ConnectFailed);
        }
        lemma_first_success_from(v2, rest, (k - 1) as nat);
    }
}

proof fn lemma_all_fail_from(v: DialerView, outcomes: Seq<AttemptOutcome>)
    requires
        !v.finished,
        v.next < v.candidates.len(),
        outcomes.len() >= v.candidates.len() - v.next,
        forall|j: int| 0 <= j < v.candidates.len() - v.next ==> #[trigger] outcomes[j] is ConnectFailed,
    ensures
        run_from(v, advance(v).1, outcomes) == (
            DialAction::Failed(
                TransportError {
                    kind: ErrorKind::Connection,
                    cause: Cause::Failure(
                        outcomes[v.candidates.len() - v.next - 1]->ConnectFailed_0,
                    ),
                },
            ),
            (v.candidates.len() - v.next) as nat,
        ),
    decreases v.candidates.len() - v.next,
{
    let (v1, a1) = step_spec(v, outcomes[0]);
    assert(run_from(v, advance(v).1, outcomes) == (
        run_from(v1, a1, outcomes.drop_first()).0,
        run_from(v1, a1, outcomes.drop_first()).1 + 1,
    ));
    let m = outcomes[0]->ConnectFailed_0;
    let v2 = DialerView { next: v.next + 1, last_error: Some(m), ..v };
    let rest = outcomes.drop_first();
    if v2.next < v.candidates.len() {
        assert forall|j: int| 0 <= j < v2.candidates.len() - v2.next implies #[trigger] rest[j] is ConnectFailed by {
            assert(outcomes[j + 1] is ConnectFailed);
        }
        lemma_all_fail_from(v2, rest);
    } else {
        assert(run_from(v1, a1, rest) == (a1, 0nat));
    }
}

/// When some eligible candidate connects, dialing ends connected to the
/// first such candidate in resolution order, after exactly one attempt per
/// candidate up to it: no later candidate is tried.
pub proof fn lemma_first_connectable_wins(
    resolved: Seq<SocketAddress>,
    local: Option<IpAddress>,
    bind_required: bool,
    outcomes: Seq<AttemptOutcome>,
    k: nat,
)
    requires
        k < eligible_candidates(resolved, local).len(),
        k < outcomes.len(),
        outcomes[k as int] is Connected,
        forall|j: int| 0 <= j < k ==> #[trigger] outcomes[j] is ConnectFailed,
    ensures
        dial(resolved, local, bind_required, outcomes) == (
            DialAction::Connected(eligible_candidates(resolved, local)[k as int]),
            k + 1,
        ),
{
    lemma_first_success_from(initial(resolved, local, bind_required), outcomes, k);
}

/// When every eligible candidate fails to connect, dialing ends in a
/// connection error that carries the last candidate's failure, after one
/// attempt per candidate.
pub proof fn lemma_all_fail_reports_last(
    resolved: Seq<SocketAddress>,
    local: Option<IpAddress>,
    bind_required: bool,
    outcomes: Seq<AttemptOutcome>,
)
    requires
        eligible_candidates(resolved, local).len() > 0,
        outcomes.len() >= eligible_candidates(resolved, local).len(),
        forall|j: int|
            0 <= j < eligible_candidates(resolved, local).len() ==> #[trigger] outcomes[j] is ConnectFailed,
    ensures
        dial(resolved, local, bind_required, outcomes) == (
            DialAction::Failed(
                TransportError {
                    kind: ErrorKind::Connection,
                    cause: Cause::Failure(
                        outcomes[eligible_candidates(resolved, local).len() - 1]->ConnectFailed_0,
                    ),
                },
            ),
            eligible_candidates(resolved, local).len(),
        ),
{
    lemma_all_fail_from(initial(resolved, local, bind_required), outcomes);
}

/// With no eligible candidate, dialing fails at once with a connection
/// error whose cause is `Unresolved`, not a connect failure.
pub proof fn lemma_nothing_resolved(
    resolved: Seq<SocketAddress>,
    local: Option<IpAddress>,
    bind_required: bool,
    outcomes: Seq<AttemptOutcome>,
)
    requires
        eligible_candidates(resolved, local).len() == 0,
    ensures
        dial(resolved, local, bind_required, outcomes) == (
            DialAction::Failed(TransportError { kind: ErrorKind::Connection, cause: Cause::Unresolved }),
            0nat,
        ),
{
}

/// The state of one pass over the candidates.
pub struct Dialer {
    candidates: Vec<SocketAddress>,
    local: Option<IpAddress>,
    bind_required: bool,
    next: usize,
    last_error: Option<String>,
    finished: bool,
}

impl View for Dialer {
    type V = DialerView;

    closed spec fn view(&self) -> DialerView {
        DialerView {
            candidates: self.candidates@,
            local: self.local,
            bind_required: self.bind_required,
            next: self.next as nat,
            last_error: self.last_error,
            finished: self.finished,
        }
    }
}

impl Dialer {
    /// The dialer's own invariant: `next` never passes the candidates, and
    /// a failure is recorded exactly when a candidate has been tried.
    pub closed spec fn wf(&self) -> bool {
        &&& self.next <= self.candidates.len()
        &&& !self.finished ==> (self.last_error is Some <==> self.next > 0)
    }

    /// Whether an attempt is pending: the last action was `Attempt`.
    pub open spec fn awaiting(&self) -> bool {
        !self@.finished && self@.next < self@.candidates.len()
    }

    /// A dialer over the resolved addresses, keeping those eligible for
    /// `local_addr`. `bind_required` tells whether the platform rejects
    /// connecting an unbound socket.
    pub fn new(resolved: &Vec<SocketAddress>, local_addr: Option<IpAddress>, bind_required: bool) -> (d:
        Dialer)
        ensures
            d.wf(),
            d@ == initial(resolved@, local_addr, bind_required),
    {
        let candidates = filter_candidates(resolved, local_addr);
        Dialer {
            candidates,
            local: local_addr,
            bind_required,
            next: 0,
            last_error: None,
            finished: false,
        }
    }

    /// Whether dialing has ended.
    pub fn is_finished(&self) -> (r: bool)
        ensures
            r == self@.finished,
    {
        self.finished
    }

    fn emit(&mut self) -> (a: DialAction)
        requires
            old(self).wf(),
            !old(self).finished,
        ensures
            final(self).wf(),
            (final(self)@, a) == advance(old(self)@),
    {
        if self.next < self.candidates.len() {
            let target = self.candidates[self.next];
            let bind = bind_local_address(&target, self.local, self.bind_required);
            DialAction::Attempt { target, bind }
        } else {
            self.finished = true;
            let last = self.last_error.take();
            match last {
                Some(m) => DialAction::Failed(TransportError::connection(Cause::Failure(m))),
                None => DialAction::Failed(TransportError::connection(Cause::Unresolved)),
            }
        }
    }

    /// The first action: an attempt on the first eligible candidate, or a
    /// connection error when there is none.
    pub fn start(&mut self) -> (a: DialAction)
        requires
            old(self).wf(),
            old(self)@.next == 0,
            !old(self)@.finished,
        ensures
            final(self).wf(),
            (final(self)@, a) == advance(old(self)@),
    {
        self.emit()
    }

    /// Takes the outcome of the pending attempt and gives the next action.
    pub fn step(&mut self, outcome: AttemptOutcome) -> (a: DialAction)
        requires
            old(self).wf(),
            old(self).awaiting(),
        ensures
            final(self).wf(),
            (final(self)@, a) == step_spec(old(self)@, outcome),
    {
        match outcome {
            AttemptOutcome::Connected => {
                self.finished = true;
                DialAction::Connected(self.candidates[self.next])
            },
            AttemptOutcome::SocketFailed(m) => {
                self.finished = true;
                DialAction::Failed(TransportError::connection(Cause::Failure(m)))
            },
            AttemptOutcome::BindFailed(m) => {
                self.finished = true;
                DialAction::Failed(TransportError::connection(Cause::Failure(m)))
            },
            AttemptOutcome::ConnectFailed(m) => {
                self.next = self.next + 1;
                self.last_error = Some(m);
                self.emit()
            },
        }
    }
}

} // verus!
