//! Miscellaneous utilities: an exclusive advisory file lock and bind-mount
//! helpers.

use crate::error::Error;
use crate::sys;
use vstd::prelude::*;
use vstd::string::*;

verus! {

/// Exclusive advisory lock on an open file descriptor (see the `flock(2)`
/// man page). Acquired by [`FileLock::new`] and released by
/// [`FileLock::release`]; a failed release is reported back for the caller
/// to ignore or log, never treated as fatal — the lock is a courtesy
/// serialization, not a correctness requirement.
#[derive(Debug)]
pub struct FileLock {
    /// The locked descriptor; the lock lives and dies with it.
    pub fd: i32,
}

impl FileLock {
    /// Takes an exclusive lock on `fd`, returning a `FileLock` guard, or
    /// the errno of the failed lock attempt.
    pub fn new(fd: i32) -> (r: Result<FileLock, i32>)
        ensures
            r matches Ok(l) ==> l.fd == fd,
    {
        match sys::sys_flock_exclusive(fd) {
            Ok(()) => Ok(FileLock { fd }),
            Err(e) => Err(e),
        }
    }

    /// Releases the lock, handing back the errno when unlocking fails;
    /// callers treat that as best-effort.
    pub fn release(self) -> (r: Result<(), i32>) {
        sys::sys_flock_unlock(self.fd)
    }
}

/// Context text carried by a failed bind mount.
pub open spec fn spec_bind_mount_context(source: Seq<char>, target: Seq<char>) -> Seq<char> {
    "could not bind "@ + source + " to "@ + target
}

/// Create a bind mount of `source` at `target`.
pub fn bind_mount(source: &str, target: &str) -> (r: Result<(), Error>)
    ensures
        r matches Err(e) ==> e matches Error::System { context, .. } && context@
            == spec_bind_mount_context(source@, target@),
{
    bind_mount_flags(source, target, false)
}

/// Create a bind mount of `source` at `target`, recursively taking the
/// mounts beneath `source` along when `recursive` is set.
pub fn bind_mount_flags(source: &str, target: &str, recursive: bool) -> (r: Result<(), Error>)
    ensures
        r matches Err(e) ==> e matches Error::System { context, .. } && context@
            == spec_bind_mount_context(source@, target@),
{
    let outcome = if recursive {
        sys::sys_bind_mount_recursive(source, target)
    } else {
        sys::sys_bind_mount(source, target)
    };
    match outcome {
        Ok(()) => Ok(()),
        Err(errno) => {
            let mut context = "could not bind ".to_owned();
            context.append(source);
            context.append(" to ");
            context.append(target);
            Err(Error::System { context, errno })
        },
    }
}

} // verus!
