use crate::bootstrap::{next_spec, notice_spec, severity_spec, succeeded_spec, Action, Outcome, Severity};
use crate::namespace::Namespace;
use vstd::prelude::*;

verus! {

/// The actions the isolated process issues when the caller reports the
/// successive `outcomes`: the first action, then one more per outcome.
#[verifier::opaque]
pub open spec fn trace(outcomes: Seq<Outcome>) -> Seq<Action>
    decreases outcomes.len(),
{
    if outcomes.len() == 0 {
        seq![Action::Unshare(Namespace::Network)]
    } else {
        let t = trace(outcomes.drop_last());
        t.push(next_spec(t.last(), outcomes.last()))
    }
}

/// Position of an action in the full sequence; `Abort` comes last.
pub open spec fn rank(a: Action) -> nat {
    match a {
        Action::Unshare(Namespace::Network) => 0,
        Action::InspectNetwork => 1,
        Action::Unshare(Namespace::Pid) => 2,
        Action::Unshare(Namespace::Mount) => 3,
        Action::CreateRootDir => 4,
        Action::MakeRootPrivate => 5,
        Action::MountProc => 6,
        Action::ChangeRoot => 7,
        Action::ExecTarget => 8,
        Action::Abort => 9,
    }
}

/// The trace starts with the network step and holds one action more than
/// there are outcomes.
pub proof fn lemma_trace_len(outcomes: Seq<Outcome>)
    ensures
        trace(outcomes).len() == outcomes.len() + 1,
        trace(outcomes)[0] == Action::Unshare(Namespace::Network),
    decreases outcomes.len(),
{
    reveal(trace);
    if outcomes.len() > 0 {
        lemma_trace_len(outcomes.drop_last());
    }
}

/// Each later action of the trace follows from the one before it and its
/// outcome.
pub proof fn lemma_trace_step(outcomes: Seq<Outcome>, k: int)
    requires
        0 < k <= outcomes.len(),
    ensures
        trace(outcomes)[k] == next_spec(trace(outcomes)[k - 1], outcomes[k - 1]),
    decreases outcomes.len(),
{
    reveal(trace);
    let prev = outcomes.drop_last();
    lemma_trace_len(prev);
    if k < outcomes.len() {
        lemma_trace_step(prev, k);
    }
}

/// Every action but `Abort` is followed by one of higher rank.
proof fn lemma_rank_grows(a: Action, o: Outcome)
    ensures
        a != Action::Abort ==> rank(a) < rank(next_spec(a, o)),
        a == Action::Abort ==> next_spec(a, o) == Action::Abort,
{
}

/// Along a trace, ranks strictly increase up to any action but `Abort`.
proof fn lemma_rank_increasing(outcomes: Seq<Outcome>, i: int, j: int)
    requires
        0 <= i < j < trace(outcomes).len(),
        trace(outcomes)[j] != Action::Abort,
    ensures
        rank(trace(outcomes)[i]) < rank(trace(outcomes)[j]),
    decreases j - i,
{
    lemma_trace_len(outcomes);
    let t = trace(outcomes);
    lemma_trace_step(outcomes, j);
    lemma_rank_grows(t[j - 1], outcomes[j - 1]);
    if i < j - 1 {
        lemma_rank_increasing(outcomes, i, j - 1);
    }
}

/// The namespace unshares are issued in the fixed order network, PID, mount,
/// and none of them twice.
pub proof fn lemma_unshare_order(outcomes: Seq<Outcome>, i: int, j: int, x: Namespace, y: Namespace)
    requires
        0 <= i < j < trace(outcomes).len(),
        trace(outcomes)[i] == Action::Unshare(x),
        trace(outcomes)[j] == Action::Unshare(y),
    ensures
        x.order() < y.order(),
{
    lemma_rank_increasing(outcomes, i, j);
}

/// Only the step named in the match can be followed by each of these actions.
proof fn lemma_predecessor(a: Action, o: Outcome)
    ensures
        next_spec(a, o) == Action::ExecTarget ==> a == Action::ChangeRoot,
        next_spec(a, o) == Action::ChangeRoot ==> a == Action::MountProc,
        next_spec(a, o) == Action::MountProc ==> a == Action::MakeRootPrivate,
        next_spec(a, o) == Action::MakeRootPrivate ==> a == Action::CreateRootDir,
        next_spec(a, o) == Action::CreateRootDir ==> a == Action::Unshare(Namespace::Mount),
{
}

/// After the mount namespace is entered, making the root mount private and
/// recursive is the first mount operation: only the creation of the root
/// directory stands between them, and the proc mount comes right after it.
pub proof fn lemma_root_private_before_proc(outcomes: Seq<Outcome>, j: int)
    requires
        0 <= j < trace(outcomes).len(),
        trace(outcomes)[j] == Action::MountProc,
    ensures
        j >= 3,
        trace(outcomes)[j - 1] == Action::MakeRootPrivate,
        trace(outcomes)[j - 2] == Action::CreateRootDir,
        trace(outcomes)[j - 3] == Action::Unshare(Namespace::Mount),
{
    lemma_trace_len(outcomes);
    let t = trace(outcomes);
    lemma_trace_step(outcomes, j);
    lemma_predecessor(t[j - 1], outcomes[j - 1]);
    lemma_trace_step(outcomes, j - 1);
    lemma_predecessor(t[j - 2], outcomes[j - 2]);
    lemma_trace_step(outcomes, j - 2);
    lemma_predecessor(t[j - 3], outcomes[j - 3]);
}

/// Once a mandatory step fails, every later action is `Abort`: in particular
/// the target program is never run.
pub proof fn lemma_hard_failure_aborts(outcomes: Seq<Outcome>, i: int, j: int)
    requires
        0 <= i < j < trace(outcomes).len(),
        severity_spec(trace(outcomes)[i]) == Severity::Hard,
        !succeeded_spec(trace(outcomes)[i], outcomes[i]),
    ensures
        trace(outcomes)[j] == Action::Abort,
    decreases j - i,
{
    lemma_trace_len(outcomes);
    let t = trace(outcomes);
    lemma_trace_step(outcomes, j);
    if i < j - 1 {
        lemma_hard_failure_aborts(outcomes, i, j - 1);
    }
}

/// No mandatory step before `m` failed.
#[verifier::opaque]
pub open spec fn no_hard_failure_before(outcomes: Seq<Outcome>, m: int) -> bool {
    forall|i: int|
        0 <= i < m && i < outcomes.len() && severity_spec(#[trigger] trace(outcomes)[i])
            == Severity::Hard && trace(outcomes)[i] != Action::ExecTarget ==> succeeded_spec(
            trace(outcomes)[i],
            outcomes[i],
        )
}

proof fn lemma_progress(outcomes: Seq<Outcome>, m: int)
    requires
        0 <= m <= outcomes.len(),
        no_hard_failure_before(outcomes, outcomes.len() as int),
        forall|i: int| 0 <= i < m ==> #[trigger] trace(outcomes)[i] != Action::ExecTarget,
        trace(outcomes).len() == outcomes.len() + 1,
    ensures
        trace(outcomes)[m] != Action::Abort,
        rank(trace(outcomes)[m]) >= m,
    decreases m,
{
    lemma_trace_len(outcomes);
    if m > 0 {
        lemma_progress(outcomes, m - 1);
        let t = trace(outcomes);
        let a = t[m - 1];
        reveal(no_hard_failure_before);
        lemma_trace_step(outcomes, m);
        assert(a != Action::ExecTarget);
        if severity_spec(a) == Severity::Hard {
            assert(succeeded_spec(a, outcomes[m - 1]));
        }
    }
}

/// The first `ExecTarget` of the trace at or after `m`, which comes no later
/// than the ninth action while no mandatory step fails.
proof fn lemma_first_exec(outcomes: Seq<Outcome>, m: int) -> (k: int)
    requires
        0 <= m <= 8,
        outcomes.len() >= 8,
        no_hard_failure_before(outcomes, outcomes.len() as int),
        forall|i: int|
            0 <= i < m ==> #[trigger] trace(outcomes)[i] != Action::ExecTarget && trace(
                outcomes,
            )[i] != Action::Abort,
        trace(outcomes).len() == outcomes.len() + 1,
    ensures
        m <= k <= 8,
        trace(outcomes)[k] == Action::ExecTarget,
        forall|i: int|
            0 <= i < k ==> #[trigger] trace(outcomes)[i] != Action::ExecTarget && trace(
                outcomes,
            )[i] != Action::Abort,
    decreases 8 - m,
{
    lemma_progress(outcomes, m);
    if trace(outcomes)[m] == Action::ExecTarget {
        m
    } else {
        lemma_first_exec(outcomes, m + 1)
    }
}

/// When only the optional network step (unshare or listing) and the PID step
/// fail, the mount sequence is still performed in full and the target program
/// is run, within the first nine actions and with no abort before it: `k` is
/// where it runs.
pub proof fn lemma_soft_failures_reach_exec(outcomes: Seq<Outcome>) -> (k: int)
    requires
        outcomes.len() >= 8,
        no_hard_failure_before(outcomes, outcomes.len() as int),
    ensures
        5 <= k <= 8,
        trace(outcomes)[k] == Action::ExecTarget,
        trace(outcomes)[k - 5] == Action::Unshare(Namespace::Mount),
        forall|i: int| 0 <= i < k ==> trace(outcomes)[i] != Action::Abort,
{
    lemma_trace_len(outcomes);
    let k = lemma_first_exec(outcomes, 0);
    lemma_exec_after_mount(outcomes, k);
    k
}

/// The target program is only ever run five actions after the mount
/// namespace was entered, the mount sequence lying between them.
pub proof fn lemma_exec_after_mount(outcomes: Seq<Outcome>, k: int)
    requires
        0 <= k < trace(outcomes).len(),
        trace(outcomes)[k] == Action::ExecTarget,
    ensures
        k >= 5,
        trace(outcomes)[k - 5] == Action::Unshare(Namespace::Mount),
{
    lemma_trace_len(outcomes);
    let t = trace(outcomes);
    lemma_trace_step(outcomes, k);
    lemma_predecessor(t[k - 1], outcomes[k - 1]);
    lemma_trace_step(outcomes, k - 1);
    lemma_predecessor(t[k - 2], outcomes[k - 2]);
    lemma_root_private_before_proc(outcomes, k - 2);
}

/// Creating the alternate-root directory where it already exists is no
/// error: the bootstrap goes on exactly as if it had just been created.
pub proof fn lemma_existing_root_dir_is_fine()
    ensures
        succeeded_spec(Action::CreateRootDir, Outcome::AlreadyExists),
        next_spec(Action::CreateRootDir, Outcome::AlreadyExists) == next_spec(
            Action::CreateRootDir,
            Outcome::Done,
        ),
        next_spec(Action::CreateRootDir, Outcome::AlreadyExists) == Action::MakeRootPrivate,
        notice_spec(Action::CreateRootDir, Outcome::AlreadyExists) == notice_spec(
            Action::CreateRootDir,
            Outcome::Done,
        ),
{
}

/// A failing network or PID unshare, or a failing interface listing, never
/// aborts: the bootstrap moves on to the next namespace step.
pub proof fn lemma_soft_failure_continues(ns: Namespace, o: Outcome)
    requires
        ns != Namespace::Mount,
    ensures
        next_spec(Action::Unshare(ns), o) != Action::Abort,
        next_spec(Action::Unshare(ns), o) == Action::Unshare(Namespace::Mount) || next_spec(
            Action::Unshare(ns),
            o,
        ) == Action::Unshare(Namespace::Pid) || next_spec(Action::Unshare(ns), o)
            == Action::InspectNetwork,
        next_spec(Action::InspectNetwork, o) == Action::Unshare(Namespace::Pid),
{
}

} // verus!
