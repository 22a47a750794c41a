use nsboot::bootstrap::Outcome;
use nsboot::config::{
    chroot_path, fallback_argv, inspect_argv, new_root_dir, new_stack, proc_fs_type, proc_mount_flags, proc_mount_point,
    root_mount, root_mount_flags, target_argv, STACK_SIZE,
};
use nsboot::namespace::{Namespace, NamespaceSet};
use nsboot::supervisor::{after, role_of, start, Directive, Role};

#[test]
fn spawn_failure_aborts() {
    assert_eq!(start(Err(1)), Directive::Abort);
}

#[test]
fn parent_ignores_child_signal_then_execs() {
    let d = start(Ok(4242));
    assert_eq!(d, Directive::IgnoreChildSignal);
    let d = after(d, Outcome::Done);
    assert_eq!(d, Directive::ExecFallback);
    assert_eq!(after(d, Outcome::Failed(2)), Directive::Abort);
}

#[test]
fn signal_setup_failure_aborts() {
    assert_eq!(after(Directive::IgnoreChildSignal, Outcome::Failed(22)), Directive::Abort);
}

#[test]
fn child_side_waits() {
    let d = start(Ok(0));
    assert_eq!(d, Directive::WaitFor(0));
    assert_eq!(after(d, Outcome::Done), Directive::Finish);
    assert_eq!(after(d, Outcome::Failed(10)), Directive::Abort);
    assert_eq!(after(Directive::Finish, Outcome::Done), Directive::Finish);
}

#[test]
fn roles() {
    assert_eq!(role_of(0), Role::Child);
    assert_eq!(role_of(7), Role::Parent(7));
    assert_eq!(role_of(-1), Role::Parent(-1));
}

#[test]
fn isolation_set_has_all_kinds_in_order() {
    let set = NamespaceSet::isolation();
    assert!(set.contains(Namespace::Network));
    assert!(set.contains(Namespace::Pid));
    assert!(set.contains(Namespace::Mount));
    assert_eq!(
        set.kinds(),
        vec![Namespace::Network, Namespace::Pid, Namespace::Mount]
    );
}

#[test]
fn partial_set_kinds() {
    let set = NamespaceSet { network: false, pid: true, mount: true };
    assert!(!set.contains(Namespace::Network));
    assert_eq!(set.kinds(), vec![Namespace::Pid, Namespace::Mount]);
    let empty = NamespaceSet { network: false, pid: false, mount: false };
    assert!(empty.kinds().is_empty());
}

#[test]
fn stack_is_one_mebibyte_of_zeros() {
    let stack = new_stack();
    assert_eq!(STACK_SIZE, 1048576);
    assert_eq!(stack.len(), 1048576);
    assert!(stack.iter().all(|b| *b == 0));
}

#[test]
fn fixed_paths_and_programs() {
    assert_eq!(new_root_dir(), "/tmp/croot");
    assert_eq!(root_mount(), "/");
    assert_eq!(proc_mount_point(), "/proc");
    assert_eq!(proc_fs_type(), "proc");
    assert_eq!(chroot_path(), "/");
    assert_eq!(inspect_argv(), vec!["ip", "a"]);
    assert_eq!(target_argv(), vec!["/bin/sh"]);
    assert_eq!(
        fallback_argv(),
        vec!["/bin/sh", "-c", "echo Hello from the new PID namespace"]
    );
}

#[test]
fn mount_flags() {
    let root = root_mount_flags();
    assert!(root.private && root.recursive);
    let proc_flags = proc_mount_flags();
    assert!(proc_flags.private && !proc_flags.recursive);
}
