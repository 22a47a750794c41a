use crate::bootstrap::Outcome;
use vstd::prelude::*;

verus! {

/// Which side of the process-creation primitive the caller is on.
#[derive(Clone, Copy, Debug, PartialEq, Eq, Structural)]
pub enum Role {
    /// The supervising process, holding the identifier of the spawned child.
    Parent(i32),
    /// The spawned process itself (identifier zero).
    Child,
}

/// A step that the supervising process performs.
#[derive(Clone, Copy, Debug, PartialEq, Eq, Structural)]
pub enum Directive {
    /// Block until the given process changes state.
    WaitFor(i32),
    /// Ignore the child-terminated signal for the rest of the process's life.
    IgnoreChildSignal,
    /// Replace the supervisor's image with the fallback program.
    ExecFallback,
    /// End normally.
    Finish,
    /// End with a failure status.
    Abort,
}

pub open spec fn role_spec(pid: i32) -> Role {
    if pid == 0 {
        Role::Child
    } else {
        Role::Parent(pid)
    }
}

/// The supervisor's first directive, given what the spawn returned: the
/// child's identifier or the error number.
pub open spec fn start_spec(spawned: Result<i32, i32>) -> Directive {
    match spawned {
        Err(_) => Directive::Abort,
        Ok(pid) => match role_spec(pid) {
            Role::Child => Directive::WaitFor(pid),
            Role::Parent(_) => Directive::IgnoreChildSignal,
        },
    }
}

/// The directive that follows `d`, performed with outcome `o`.
pub open spec fn after_spec(d: Directive, o: Outcome) -> Directive {
    match d {
        Directive::WaitFor(_) => if o == Outcome::Done {
            Directive::Finish
        } else {
            Directive::Abort
        },
        Directive::IgnoreChildSignal => if o == Outcome::Done {
            Directive::ExecFallback
        } else {
            Directive::Abort
        },
        Directive::ExecFallback => Directive::Abort,
        Directive::Finish => Directive::Finish,
        Directive::Abort => Directive::Abort,
    }
}

/// Splits the two continuations of the process-creation primitive.
pub fn role_of(pid: i32) -> (r: Role)
    ensures
        r == role_spec(pid),
{
    if pid == 0 {
        Role::Child
    } else {
        Role::Parent(pid)
    }
}

/// Decides what the supervisor does once the spawn has returned.
pub fn start(spawned: Result<i32, i32>) -> (r: Directive)
    ensures
        r == start_spec(spawned),
{
    match spawned {
        Err(_) => Directive::Abort,
        Ok(pid) => match role_of(pid) {
            Role::Child => Directive::WaitFor(pid),
            Role::Parent(_) => Directive::IgnoreChildSignal,
        },
    }
}

/// Decides what the supervisor does after `d` was performed with outcome `o`.
pub fn after(d: Directive, o: Outcome) -> (r: Directive)
    ensures
        r == after_spec(d, o),
{
    let ok = match o {
        Outcome::Done => true,
        _ => false,
    };
    match d {
        Directive::WaitFor(_) => if ok {
            Directive::Finish
        } else {
            Directive::Abort
        },
        Directive::IgnoreChildSignal => if ok {
            Directive::ExecFallback
        } else {
            Directive::Abort
        },
        Directive::ExecFallback => Directive::Abort,
        Directive::Finish => Directive::Finish,
        Directive::Abort => Directive::Abort,
    }
}

} // verus!
