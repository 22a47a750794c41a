use vstd::prelude::*;

verus! {

/// Size in bytes of the stack on which the isolated process starts.
pub const STACK_SIZE: usize = 1024 * 1024;

/// Allocates the isolated execution stack: `STACK_SIZE` zero bytes.
pub fn new_stack() -> (r: Vec<u8>)
    ensures
        r@.len() == STACK_SIZE,
        forall|i: int| 0 <= i < r@.len() ==> r@[i] == 0u8,
{
    let mut r: Vec<u8> = Vec::with_capacity(STACK_SIZE);
    let mut n: usize = 0;
    while n < STACK_SIZE
        invariant
            n <= STACK_SIZE,
            r@.len() == n,
            forall|i: int| 0 <= i < r@.len() ==> r@[i] == 0u8,
        decreases STACK_SIZE - n,
    {
        r.push(0u8);
        n = n + 1;
    }
    r
}

/// The directory meant to serve as the alternate root.
pub fn new_root_dir() -> (r: &'static str)
    ensures
        r@ == "/tmp/croot"@,
{
    "/tmp/croot"
}

/// The flags of a mount call that the isolated process makes.
#[derive(Clone, Copy, Debug, PartialEq, Eq, Structural)]
pub struct MountFlags {
    /// Mount and unmount events do not propagate to or from other namespaces.
    pub private: bool,
    /// The change applies to every mount below the target as well.
    pub recursive: bool,
}

/// Flags for the root mount: private and recursive, so that nothing mounted
/// afterwards reaches the host's mount namespace.
pub fn root_mount_flags() -> (r: MountFlags)
    ensures
        r.private && r.recursive,
{
    MountFlags { private: true, recursive: true }
}

/// Flags for the `proc` mount: private, not recursive.
pub fn proc_mount_flags() -> (r: MountFlags)
    ensures
        r.private && !r.recursive,
{
    MountFlags { private: true, recursive: false }
}

/// The mount whose propagation is made private.
pub fn root_mount() -> (r: &'static str)
    ensures
        r@ == "/"@,
{
    "/"
}

/// Where the fresh `proc` filesystem is mounted.
pub fn proc_mount_point() -> (r: &'static str)
    ensures
        r@ == "/proc"@,
{
    "/proc"
}

/// Filesystem type, and source, of the mount placed at `proc_mount_point`.
pub fn proc_fs_type() -> (r: &'static str)
    ensures
        r@ == "proc"@,
{
    "proc"
}

/// The path the isolated process changes root to.
pub fn chroot_path() -> (r: &'static str)
    ensures
        r@ == "/"@,
{
    "/"
}

/// The interface-listing command run in the new network namespace, with its
/// arguments.
pub fn inspect_argv() -> (r: Vec<&'static str>)
    ensures
        r@.len() == 2,
        r@[0]@ == "ip"@,
        r@[1]@ == "a"@,
{
    let mut r: Vec<&'static str> = Vec::new();
    r.push("ip");
    r.push("a");
    r
}

/// The workload of the isolated process: a shell, with no argument beyond
/// its own name. The first entry is also the program to search for.
pub fn target_argv() -> (r: Vec<&'static str>)
    ensures
        r@.len() == 1,
        r@[0]@ == "/bin/sh"@,
{
    let mut r: Vec<&'static str> = Vec::new();
    r.push("/bin/sh");
    r
}

/// The program the supervisor becomes once the child is spawned. The first
/// entry is also the program to search for.
pub fn fallback_argv() -> (r: Vec<&'static str>)
    ensures
        r@.len() == 3,
        r@[0]@ == "/bin/sh"@,
        r@[1]@ == "-c"@,
        r@[2]@ == "echo Hello from the new PID namespace"@,
{
    let mut r: Vec<&'static str> = Vec::new();
    r.push("/bin/sh");
    r.push("-c");
    r.push("echo Hello from the new PID namespace");
    r
}

} // verus!
