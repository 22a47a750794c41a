use crate::namespace::Namespace;
use vstd::prelude::*;

verus! {

/// A step that the isolated process performs, in the order the bootstrap
/// issues them.
#[derive(Clone, Copy, Debug, PartialEq, Eq, Structural)]
pub enum Action {
    /// Detach into a fresh namespace of the given kind.
    Unshare(Namespace),
    /// Run the interface-listing command inside the new network namespace
    /// and print what it reports.
    InspectNetwork,
    /// Create the alternate-root directory unless it is already there.
    CreateRootDir,
    /// Make the root mount private, recursively.
    MakeRootPrivate,
    /// Mount a fresh `proc` filesystem with private propagation.
    MountProc,
    /// Change root to the new root path.
    ChangeRoot,
    /// Replace the process image with the target program.
    ExecTarget,
    /// Terminate with a failure status.
    Abort,
}

/// What the caller observed when it performed an action.
#[derive(Clone, Copy, Debug, PartialEq, Eq, Structural)]
pub enum Outcome {
    Done,
    /// The object that the action creates was already present.
    AlreadyExists,
    /// The operating system refused the action with this error number.
    Failed(i32),
}

/// How a failed action is handled.
#[derive(Clone, Copy, Debug, PartialEq, Eq, Structural)]
pub enum Severity {
    /// Logged; the bootstrap continues without that isolation.
    Soft,
    /// The bootstrap aborts before the target program is run.
    Hard,
}

/// What the caller reports once an action is over.
#[derive(Clone, Copy, Debug, PartialEq, Eq, Structural)]
pub enum Notice {
    Silent,
    /// The process is in its new PID namespace.
    PidIsolated,
    /// The mount sequence has completed.
    MountIsolated,
    /// The action failed; soft failures go to standard output, hard ones to
    /// standard error.
    Failure(Severity, i32),
}

pub open spec fn severity_spec(a: Action) -> Severity {
    match a {
        Action::Unshare(Namespace::Network) => Severity::Soft,
        Action::InspectNetwork => Severity::Soft,
        Action::Unshare(Namespace::Pid) => Severity::Soft,
        _ => Severity::Hard,
    }
}

/// Whether the outcome counts as success for the action: a root directory
/// that already exists is as good as one just created.
pub open spec fn succeeded_spec(a: Action, o: Outcome) -> bool {
    match o {
        Outcome::Done => true,
        Outcome::AlreadyExists => a == Action::CreateRootDir,
        Outcome::Failed(_) => false,
    }
}

/// The action issued after `a` when everything before it went well.
pub open spec fn successor(a: Action) -> Action {
    match a {
        Action::Unshare(Namespace::Network) => Action::InspectNetwork,
        Action::InspectNetwork => Action::Unshare(Namespace::Pid),
        Action::Unshare(Namespace::Pid) => Action::Unshare(Namespace::Mount),
        Action::Unshare(Namespace::Mount) => Action::CreateRootDir,
        Action::CreateRootDir => Action::MakeRootPrivate,
        Action::MakeRootPrivate => Action::MountProc,
        Action::MountProc => Action::ChangeRoot,
        Action::ChangeRoot => Action::ExecTarget,
        Action::ExecTarget => Action::Abort,
        Action::Abort => Action::Abort,
    }
}

/// The first action of the namespace step that follows the one `a` belongs to.
pub open spec fn next_step(a: Action) -> Action {
    match a {
        Action::Unshare(Namespace::Network) => Action::Unshare(Namespace::Pid),
        Action::InspectNetwork => Action::Unshare(Namespace::Pid),
        Action::Unshare(Namespace::Pid) => Action::Unshare(Namespace::Mount),
        _ => Action::ExecTarget,
    }
}

/// The action issued after `a` has been performed with outcome `o`.
pub open spec fn next_spec(a: Action, o: Outcome) -> Action {
    if succeeded_spec(a, o) {
        successor(a)
    } else if severity_spec(a) == Severity::Soft {
        next_step(a)
    } else {
        Action::Abort
    }
}

/// The error number an outcome carries; zero where it carries none.
pub open spec fn error_number(o: Outcome) -> i32 {
    match o {
        Outcome::Failed(e) => e,
        _ => 0,
    }
}

pub open spec fn notice_spec(a: Action, o: Outcome) -> Notice {
    if !succeeded_spec(a, o) {
        Notice::Failure(severity_spec(a), error_number(o))
    } else if a == Action::Unshare(Namespace::Pid) {
        Notice::PidIsolated
    } else if a == Action::ChangeRoot {
        Notice::MountIsolated
    } else {
        Notice::Silent
    }
}

/// The first action of the isolated process.
pub fn first_action() -> (r: Action)
    ensures
        r == Action::Unshare(Namespace::Network),
{
    Action::Unshare(Namespace::Network)
}

/// Classifies a failure of `a`: the network step (unshare and listing) and
/// PID isolation are optional, every other step is mandatory.
pub fn severity(a: Action) -> (r: Severity)
    ensures
        r == severity_spec(a),
{
    match a {
        Action::Unshare(Namespace::Network) => Severity::Soft,
        Action::InspectNetwork => Severity::Soft,
        Action::Unshare(Namespace::Pid) => Severity::Soft,
        _ => Severity::Hard,
    }
}

pub fn succeeded(a: Action, o: Outcome) -> (r: bool)
    ensures
        r == succeeded_spec(a, o),
{
    match o {
        Outcome::Done => true,
        Outcome::AlreadyExists => a == Action::CreateRootDir,
        Outcome::Failed(_) => false,
    }
}

/// Decides the action that follows `a`, performed with outcome `o`.
pub fn next_action(a: Action, o: Outcome) -> (r: Action)
    ensures
        r == next_spec(a, o),
{
    if succeeded(a, o) {
        match a {
            Action::Unshare(Namespace::Network) => Action::InspectNetwork,
            Action::InspectNetwork => Action::Unshare(Namespace::Pid),
            Action::Unshare(Namespace::Pid) => Action::Unshare(Namespace::Mount),
            Action::Unshare(Namespace::Mount) => Action::CreateRootDir,
            Action::CreateRootDir => Action::MakeRootPrivate,
            Action::MakeRootPrivate => Action::MountProc,
            Action::MountProc => Action::ChangeRoot,
            Action::ChangeRoot => Action::ExecTarget,
            Action::ExecTarget => Action::Abort,
            Action::Abort => Action::Abort,
        }
    } else {
        match severity(a) {
            Severity::Soft => match a {
                Action::Unshare(Namespace::Network) => Action::Unshare(Namespace::Pid),
                Action::InspectNetwork => Action::Unshare(Namespace::Pid),
                Action::Unshare(Namespace::Pid) => Action::Unshare(Namespace::Mount),
                _ => Action::ExecTarget,
            },
            Severity::Hard => Action::Abort,
        }
    }
}

/// What to report once `a` has been performed with outcome `o`.
pub fn notice(a: Action, o: Outcome) -> (r: Notice)
    ensures
        r == notice_spec(a, o),
{
    if !succeeded(a, o) {
        match o {
            Outcome::Failed(e) => Notice::Failure(severity(a), e),
            _ => Notice::Failure(severity(a), 0),
        }
    } else if a == Action::Unshare(Namespace::Pid) {
        Notice::PidIsolated
    } else if a == Action::ChangeRoot {
        Notice::MountIsolated
    } else {
        Notice::Silent
    }
}

} // verus!
