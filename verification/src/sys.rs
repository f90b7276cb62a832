//! Trusted wrappers around the kernel interface (the `nix` crate). Each
//! wrapper makes exactly one call; success or failure of a syscall depends
//! on kernel state, so the wrappers promise nothing about which outcome
//! comes back, and the callers state what holds either way. Failures carry
//! the raw errno.

use nix::errno::Errno;
use nix::fcntl::{FlockArg, OFlag};
use nix::mount::{MntFlags, MsFlags};
use nix::sched::CloneFlags;
use nix::sys::stat::Mode;
use vstd::prelude::*;

verus! {

/// Relies on nix::unistd::mkdir: creates a directory with the given mode
/// bits; fails with EEXIST when it already exists.
#[verifier::external_body]
pub(crate) fn sys_mkdir(path: &str, mode: u32) -> (r: Result<(), i32>)
{
    nix::unistd::mkdir(path, Mode::from_bits_truncate(mode)).map_err(|e: Errno| e as i32)
}

/// Relies on nix::fcntl::open with O_RDONLY | O_DIRECTORY | O_CLOEXEC:
/// opens a directory and returns its file descriptor.
#[verifier::external_body]
pub(crate) fn sys_open_dir(path: &str) -> (r: Result<i32, i32>)
{
    nix::fcntl::open(path, OFlag::O_RDONLY | OFlag::O_DIRECTORY | OFlag::O_CLOEXEC, Mode::empty())
        .map_err(|e: Errno| e as i32)
}

/// Relies on nix::fcntl::open with O_RDONLY | O_CLOEXEC: opens a file
/// read-only and returns its file descriptor.
#[verifier::external_body]
pub(crate) fn sys_open_rdonly(path: &str) -> (r: Result<i32, i32>)
{
    nix::fcntl::open(path, OFlag::O_RDONLY | OFlag::O_CLOEXEC, Mode::empty()).map_err(
        |e: Errno| e as i32,
    )
}

/// Relies on nix::fcntl::open with O_WRONLY | O_CREAT | O_EXCL: creates a
/// fresh file with the given mode bits, failing with EEXIST when the path
/// already exists.
#[verifier::external_body]
pub(crate) fn sys_create_file_excl(path: &str, mode: u32) -> (r: Result<i32, i32>)
{
    nix::fcntl::open(
        path,
        OFlag::O_WRONLY | OFlag::O_CREAT | OFlag::O_EXCL,
        Mode::from_bits_truncate(mode),
    ).map_err(|e: Errno| e as i32)
}

/// Relies on nix::unistd::close: closes a file descriptor.
#[verifier::external_body]
pub(crate) fn sys_close(fd: i32) -> (r: Result<(), i32>)
{
    nix::unistd::close(fd).map_err(|e: Errno| e as i32)
}

/// Relies on nix::unistd::unlink: removes a file.
#[verifier::external_body]
pub(crate) fn sys_unlink(path: &str) -> (r: Result<(), i32>)
{
    nix::unistd::unlink(path).map_err(|e: Errno| e as i32)
}

/// Relies on nix::fcntl::flock with LockExclusive: takes an exclusive
/// advisory lock on the descriptor, blocking until it is granted.
#[verifier::external_body]
pub(crate) fn sys_flock_exclusive(fd: i32) -> (r: Result<(), i32>)
{
    nix::fcntl::flock(fd, FlockArg::LockExclusive).map_err(|e: Errno| e as i32)
}

/// Relies on nix::fcntl::flock with Unlock: releases an advisory lock.
#[verifier::external_body]
pub(crate) fn sys_flock_unlock(fd: i32) -> (r: Result<(), i32>)
{
    nix::fcntl::flock(fd, FlockArg::Unlock).map_err(|e: Errno| e as i32)
}

/// Relies on nix::mount::mount with MS_BIND: bind-mounts `source` onto
/// `target`.
#[verifier::external_body]
pub(crate) fn sys_bind_mount(source: &str, target: &str) -> (r: Result<(), i32>)
{
    nix::mount::mount(Some(source), target, Option::<&str>::None, MsFlags::MS_BIND, Option::<
        &str,
    >::None).map_err(|e: Errno| e as i32)
}

/// Relies on nix::mount::mount with MS_BIND | MS_REC: bind-mounts
/// `source` onto `target` together with everything mounted beneath it.
#[verifier::external_body]
pub(crate) fn sys_bind_mount_recursive(source: &str, target: &str) -> (r: Result<(), i32>)
{
    nix::mount::mount(
        Some(source),
        target,
        Option::<&str>::None,
        MsFlags::MS_BIND | MsFlags::MS_REC,
        Option::<&str>::None,
    ).map_err(|e: Errno| e as i32)
}

/// Relies on nix::mount::mount with MS_SHARED | MS_REC: marks the mount
/// point shared with recursive propagation; fails with EINVAL when the
/// path is not a mount point.
#[verifier::external_body]
pub(crate) fn sys_mount_make_shared_recursive(path: &str) -> (r: Result<(), i32>)
{
    nix::mount::mount(
        Option::<&str>::None,
        path,
        Option::<&str>::None,
        MsFlags::MS_SHARED | MsFlags::MS_REC,
        Option::<&str>::None,
    ).map_err(|e: Errno| e as i32)
}

/// Relies on nix::mount::umount2 with MNT_DETACH: lazily unmounts the
/// path; fails with EINVAL when it is not a mount point.
#[verifier::external_body]
pub(crate) fn sys_umount_detach(path: &str) -> (r: Result<(), i32>)
{
    nix::mount::umount2(path, MntFlags::MNT_DETACH).map_err(|e: Errno| e as i32)
}

/// Relies on nix::sched::unshare with CLONE_NEWNET: moves the calling
/// process into a fresh, empty network namespace.
#[verifier::external_body]
pub(crate) fn sys_unshare_newnet() -> (r: Result<(), i32>)
{
    nix::sched::unshare(CloneFlags::CLONE_NEWNET).map_err(|e: Errno| e as i32)
}

/// Relies on nix::unistd::Uid::current: the real user ID of the calling
/// process.
#[verifier::external_body]
pub(crate) fn sys_current_uid() -> (r: u32)
{
    nix::unistd::Uid::current().as_raw()
}

/// Relies on nix::unistd::Gid::current: the real group ID of the calling
/// process.
#[verifier::external_body]
pub(crate) fn sys_current_gid() -> (r: u32)
{
    nix::unistd::Gid::current().as_raw()
}

/// Relies on nix::sched::setns with CLONE_NEWNET: switches the calling
/// process back to the network namespace behind `fd`. Failure to restore
/// the namespace would leave the rest of the program running in the wrong
/// network namespace, which nothing can recover from, so this call aborts
/// the process instead of returning an error.
#[verifier::external_body]
pub(crate) fn sys_restore_netns(fd: i32)
{
    nix::sched::setns(fd, CloneFlags::CLONE_NEWNET).expect(
        "could not restore network namespace!",
    )
}

} // verus!
