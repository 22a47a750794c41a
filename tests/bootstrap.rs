use nsboot::bootstrap::{
    first_action, next_action, notice, severity, succeeded, Action, Notice, Outcome, Severity,
};
use nsboot::namespace::Namespace;

const EPERM: i32 = 1;
const ENOENT: i32 = 2;

/// Runs the step machine, answering each action with the outcome that
/// `answer` gives, until it asks to abort or has issued `limit` actions.
fn drive(answer: impl Fn(Action) -> Outcome, limit: usize) -> (Vec<Action>, Vec<Notice>) {
    let mut actions = Vec::new();
    let mut notices = Vec::new();
    let mut action = first_action();
    while actions.len() < limit {
        actions.push(action);
        if action == Action::Abort {
            break;
        }
        let outcome = answer(action);
        let n = notice(action, outcome);
        if n != Notice::Silent {
            notices.push(n);
        }
        action = next_action(action, outcome);
    }
    (actions, notices)
}

const FULL_SEQUENCE: [Action; 9] = [
    Action::Unshare(Namespace::Network),
    Action::InspectNetwork,
    Action::Unshare(Namespace::Pid),
    Action::Unshare(Namespace::Mount),
    Action::CreateRootDir,
    Action::MakeRootPrivate,
    Action::MountProc,
    Action::ChangeRoot,
    Action::ExecTarget,
];

#[test]
fn all_steps_succeed_in_fixed_order() {
    let (actions, notices) = drive(|_| Outcome::Done, 9);
    assert_eq!(actions, FULL_SEQUENCE.to_vec());
    assert_eq!(notices, vec![Notice::PidIsolated, Notice::MountIsolated]);
}

#[test]
fn network_denied_still_reaches_exec() {
    let (actions, notices) = drive(
        |a| {
            if a == Action::Unshare(Namespace::Network) {
                Outcome::Failed(EPERM)
            } else {
                Outcome::Done
            }
        },
        20,
    );
    let expected: Vec<Action> = FULL_SEQUENCE
        .iter()
        .copied()
        .filter(|a| *a != Action::InspectNetwork)
        .collect();
    assert_eq!(&actions[..expected.len()], &expected[..]);
    assert_eq!(
        notices[..3].to_vec(),
        vec![
            Notice::Failure(Severity::Soft, EPERM),
            Notice::PidIsolated,
            Notice::MountIsolated
        ]
    );
}

#[test]
fn proc_mount_failure_never_execs() {
    let (actions, notices) = drive(
        |a| {
            if a == Action::MountProc {
                Outcome::Failed(ENOENT)
            } else {
                Outcome::Done
            }
        },
        20,
    );
    assert_eq!(actions.last(), Some(&Action::Abort));
    assert!(!actions.contains(&Action::ExecTarget));
    assert!(!actions.contains(&Action::ChangeRoot));
    assert_eq!(notices.last(), Some(&Notice::Failure(Severity::Hard, ENOENT)));
}

#[test]
fn private_root_comes_before_proc_mount() {
    let (actions, _) = drive(|_| Outcome::Done, 9);
    let private = actions.iter().position(|a| *a == Action::MakeRootPrivate).unwrap();
    let proc_mount = actions.iter().position(|a| *a == Action::MountProc).unwrap();
    let entered = actions
        .iter()
        .position(|a| *a == Action::Unshare(Namespace::Mount))
        .unwrap();
    assert_eq!(private + 1, proc_mount);
    assert_eq!(entered + 2, private);
}

#[test]
fn pid_failure_is_soft() {
    assert_eq!(severity(Action::Unshare(Namespace::Pid)), Severity::Soft);
    assert_eq!(
        next_action(Action::Unshare(Namespace::Pid), Outcome::Failed(EPERM)),
        Action::Unshare(Namespace::Mount)
    );
    assert_eq!(
        notice(Action::Unshare(Namespace::Pid), Outcome::Failed(EPERM)),
        Notice::Failure(Severity::Soft, EPERM)
    );
}

#[test]
fn both_soft_failures_still_exec() {
    let (actions, notices) = drive(
        |a| match a {
            Action::Unshare(Namespace::Network) | Action::Unshare(Namespace::Pid) => {
                Outcome::Failed(EPERM)
            }
            _ => Outcome::Done,
        },
        20,
    );
    assert_eq!(actions[2], Action::Unshare(Namespace::Mount));
    assert_eq!(actions[7], Action::ExecTarget);
    assert_eq!(notices.len(), 3);
    assert_eq!(notices[0], Notice::Failure(Severity::Soft, EPERM));
    assert_eq!(notices[1], Notice::Failure(Severity::Soft, EPERM));
    assert_eq!(notices[2], Notice::MountIsolated);
}

#[test]
fn mount_unshare_failure_is_hard() {
    assert_eq!(severity(Action::Unshare(Namespace::Mount)), Severity::Hard);
    assert_eq!(
        next_action(Action::Unshare(Namespace::Mount), Outcome::Failed(EPERM)),
        Action::Abort
    );
}

#[test]
fn network_inspection_failure_is_soft() {
    assert_eq!(severity(Action::InspectNetwork), Severity::Soft);
    assert_eq!(
        next_action(Action::InspectNetwork, Outcome::Failed(ENOENT)),
        Action::Unshare(Namespace::Pid)
    );
    assert_eq!(
        notice(Action::InspectNetwork, Outcome::Failed(ENOENT)),
        Notice::Failure(Severity::Soft, ENOENT)
    );
    let (actions, notices) = drive(
        |a| {
            if a == Action::InspectNetwork {
                Outcome::Failed(ENOENT)
            } else {
                Outcome::Done
            }
        },
        9,
    );
    assert_eq!(actions, FULL_SEQUENCE.to_vec());
    assert_eq!(
        notices,
        vec![
            Notice::Failure(Severity::Soft, ENOENT),
            Notice::PidIsolated,
            Notice::MountIsolated
        ]
    );
}

#[test]
fn each_mount_step_failure_aborts() {
    for step in [
        Action::CreateRootDir,
        Action::MakeRootPrivate,
        Action::MountProc,
        Action::ChangeRoot,
    ] {
        let (actions, _) = drive(
            |a| {
                if a == step {
                    Outcome::Failed(EPERM)
                } else {
                    Outcome::Done
                }
            },
            20,
        );
        assert_eq!(actions.last(), Some(&Action::Abort));
        assert!(!actions.contains(&Action::ExecTarget));
    }
}

#[test]
fn existing_root_dir_is_not_an_error() {
    assert!(succeeded(Action::CreateRootDir, Outcome::AlreadyExists));
    assert_eq!(
        next_action(Action::CreateRootDir, Outcome::AlreadyExists),
        Action::MakeRootPrivate
    );
    assert_eq!(notice(Action::CreateRootDir, Outcome::AlreadyExists), Notice::Silent);
    let (actions, _) = drive(
        |a| {
            if a == Action::CreateRootDir {
                Outcome::AlreadyExists
            } else {
                Outcome::Done
            }
        },
        9,
    );
    assert_eq!(actions, FULL_SEQUENCE.to_vec());
}

#[test]
fn already_exists_elsewhere_is_a_failure() {
    assert!(!succeeded(Action::MountProc, Outcome::AlreadyExists));
    assert_eq!(next_action(Action::MountProc, Outcome::AlreadyExists), Action::Abort);
    assert_eq!(
        notice(Action::MountProc, Outcome::AlreadyExists),
        Notice::Failure(Severity::Hard, 0)
    );
}

#[test]
fn failed_exec_aborts() {
    assert_eq!(next_action(Action::ExecTarget, Outcome::Failed(ENOENT)), Action::Abort);
    assert_eq!(next_action(Action::Abort, Outcome::Done), Action::Abort);
}
