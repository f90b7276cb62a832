//! Persistent Linux network namespaces.
//!
//! The current network namespace is saved, a new one is created with
//! `unshare(2)`, bind-mounted to a persistent path so that it outlives the
//! creating process, and the original namespace is restored — on every
//! path, success or failure. The persistent paths live under a runtime
//! directory that is made a shared, recursively propagating mount point
//! once, under an advisory lock, so that unmounting a namespace anywhere
//! frees it everywhere.

use crate::error::Error;
use crate::sys;
use crate::util::{bind_mount, bind_mount_flags, FileLock};
use vstd::prelude::*;
use vstd::string::*;

verus! {

/// errno for "File exists" on Linux.
pub const EEXIST: i32 = 17;

/// errno for "Invalid argument" on Linux.
pub const EINVAL: i32 = 22;

/// The path that a persistent network namespace named `name` is bound to:
/// persistent namespaces are (at least by convention) files under the
/// runtime directory `/var/run/netns`.
pub open spec fn spec_namespace_path(name: Seq<char>) -> Seq<char> {
    "/var/run/netns/"@ + name
}

/// Gets the path that a persistent network namespace should be bound to.
pub fn persistent_namespace_path(name: &str) -> (r: String)
    ensures
        r@ == spec_namespace_path(name@),
{
    let mut p = "/var/run/netns/".to_owned();
    p.append(name);
    p
}

/// An existing runtime directory is as good as a newly created one.
fn runtime_directory_ready(r: &Result<(), i32>) -> (ok: bool)
    ensures
        ok == (r is Ok || (r matches Err(e) && e == EEXIST)),
{
    match r {
        Ok(()) => true,
        Err(e) => *e == EEXIST,
    }
}

/// A propagation failure with EINVAL means the runtime directory is not
/// yet a mount point and must first be bind-mounted over itself.
fn needs_mount_point_upgrade(r: &Result<(), i32>) -> (b: bool)
    ensures
        b == (r matches Err(e) && e == EINVAL),
{
    match r {
        Ok(()) => false,
        Err(e) => *e == EINVAL,
    }
}

/// Marks the runtime directory as a shared mount point with recursive
/// propagation, first upgrading it to a mount point when the propagation
/// call reports that it is none.
fn set_propagation_with_upgrade() -> (r: Result<(), Error>)
    ensures
        r matches Err(e) ==> e is System,
{
    let first = sys::sys_mount_make_shared_recursive("/var/run/netns");
    if needs_mount_point_upgrade(&first) {
        // Not a mount point yet: make it one by bind-mounting it over
        // itself recursively, then retry.
        match bind_mount_flags("/var/run/netns", "/var/run/netns", true) {
            Ok(()) => {},
            Err(e) => { return Err(e) },
        }
        match sys::sys_mount_make_shared_recursive("/var/run/netns") {
            Ok(()) => Ok(()),
            Err(errno) => Err(
                Error::System {
                    context: "could not set mount propagation on /var/run/netns".to_owned(),
                    errno,
                },
            ),
        }
    } else {
        match first {
            Ok(()) => Ok(()),
            Err(errno) => Err(
                Error::System {
                    context: "could not set mount propagation on /var/run/netns".to_owned(),
                    errno,
                },
            ),
        }
    }
}

/// Prepare the root runtime directory for persistent network namespaces.
///
/// Namespace mounts are expected to propagate between mount namespaces,
/// so that unmounting a namespace in one of them frees it in all of them.
/// The directory is therefore remounted shared and recursive; if it is
/// not a mount point yet, it is first bind-mounted over itself. The whole
/// setup runs under an exclusive lock on the directory, so that
/// concurrent processes cannot stack the mount point recursively.
fn prepare_runtime_directory() -> (r: Result<(), Error>)
    ensures
        r matches Err(e) ==> e is Io || e is System,
{
    // Ensure that the runtime directory exists; one that already exists
    // is fine.
    let made = sys::sys_mkdir("/var/run/netns", 0o755);
    if !runtime_directory_ready(&made) {
        let errno = match made {
            Err(e) => e,
            Ok(()) => 0,
        };
        return Err(
            Error::Io { context: "could not create /var/run/netns".to_owned(), errno },
        );
    }
    // Lock the directory while the mount point is set up.
    let fd = match sys::sys_open_dir("/var/run/netns") {
        Ok(fd) => fd,
        Err(errno) => {
            return Err(Error::Io { context: "could not open /var/run/netns".to_owned(), errno });
        },
    };
    let lock = match FileLock::new(fd) {
        Ok(l) => l,
        Err(errno) => {
            let _ = sys::sys_close(fd);
            return Err(
                Error::System { context: "could not lock /var/run/netns".to_owned(), errno },
            );
        },
    };
    let outcome = set_propagation_with_upgrade();
    // Releasing the lock is best-effort; failing to unlock is not fatal.
    let _ = lock.release();
    let _ = sys::sys_close(fd);
    outcome
}

/// Create a persistent network namespace named `name`.
///
/// The abstract effect on the runtime directory is
/// [`spec_create_effect`]: the namespace file must not exist yet; on
/// success the file exists, carries the new namespace as a bind mount,
/// and the returned path is [`spec_namespace_path`] of the name. The
/// caller's network namespace is restored before this returns, whatever
/// the outcome.
pub fn create(name: &str) -> (r: Result<String, Error>)
    ensures
        r matches Ok(p) ==> p@ == spec_namespace_path(name@),
        r matches Err(e) ==> e is Io || e is System,
{
    match prepare_runtime_directory() {
        Ok(()) => {},
        Err(e) => { return Err(e) },
    }
    let namespace_path = persistent_namespace_path(name);

    // Create the file for the network namespace, so that there is a file
    // to bind-mount to; an existing file means a namespace of this name
    // is already there, and fails the call.
    match sys::sys_create_file_excl(namespace_path.as_str(), 0o666) {
        Ok(fd) => {
            let _ = sys::sys_close(fd);
        },
        Err(errno) => {
            let mut context = "could not create network namespace file ".to_owned();
            context.append(namespace_path.as_str());
            return Err(Error::Io { context, errno });
        },
    }

    // Save the current network namespace, so that it can be restored on
    // every path out of this function.
    let guard_fd = match sys::sys_open_rdonly("/proc/self/ns/net") {
        Ok(fd) => fd,
        Err(errno) => {
            return Err(
                Error::Io {
                    context: "could not open current network namespace".to_owned(),
                    errno,
                },
            );
        },
    };

    // Create a new, empty network namespace; this process is in it from
    // here until the restore.
    match sys::sys_unshare_newnet() {
        Ok(()) => {},
        Err(errno) => {
            sys::sys_restore_netns(guard_fd);
            let _ = sys::sys_close(guard_fd);
            return Err(
                Error::System {
                    context: "could not create a new network namespace".to_owned(),
                    errno,
                },
            );
        },
    }

    // Bind-mount the new namespace to its persistent path; it is exposed
    // at /proc/self/ns/net while this process is inside it.
    match bind_mount("/proc/self/ns/net", namespace_path.as_str()) {
        Ok(()) => {},
        Err(e) => {
            // The namespace could not be persisted: best-effort removal
            // of the file created above, then the original error.
            let _ = sys::sys_unlink(namespace_path.as_str());
            sys::sys_restore_netns(guard_fd);
            let _ = sys::sys_close(guard_fd);
            return Err(e);
        },
    }

    // Back to the caller's namespace, unconditionally.
    sys::sys_restore_netns(guard_fd);
    let _ = sys::sys_close(guard_fd);
    Ok(namespace_path)
}

/// Delete a network namespace: unmount the persistent path (tolerating a
/// path that is not mounted), then remove the file. Fails only if the
/// file removal fails, and then names the file in the error. The
/// abstract effect on the runtime directory is [`spec_delete_effect`].
pub fn delete(name: &str) -> (r: Result<(), Error>)
    ensures
        r matches Err(e) ==> e matches Error::Io { context, .. } && context@
            == "could not remove namespace file "@ + spec_namespace_path(name@),
{
    let path = persistent_namespace_path(name);
    // This fails with EINVAL if the mount point has already been unbound;
    // either way only the file removal decides the outcome.
    let _ = sys::sys_umount_detach(path.as_str());
    match sys::sys_unlink(path.as_str()) {
        Ok(()) => Ok(()),
        Err(errno) => {
            let mut context = "could not remove namespace file ".to_owned();
            context.append(path.as_str());
            Err(Error::Io { context, errno })
        },
    }
}

/// Abstract state of the runtime directory: which persistent paths hold
/// a namespace file, and which of them carry a namespace bind mount. The
/// effect functions below mirror the syscall sequences of [`create`] and
/// [`delete`] step for step, in the order the calls are made.
#[verifier::ext_equal]
pub struct DirectoryModel {
    /// Paths at which a namespace file exists.
    pub files: Set<Seq<char>>,
    /// Paths at which a namespace bind mount is held.
    pub mounts: Set<Seq<char>>,
}

/// How a run of [`create`] ended.
#[derive(PartialEq, Eq, Structural)]
pub enum CreateOutcome {
    /// The namespace file exists and carries the new namespace.
    Created,
    /// A namespace file of this name already existed; nothing was
    /// created — in particular, the failure comes before the kernel
    /// namespace would have been made, so none is leaked.
    AlreadyExists,
    /// The bind mount failed; the freshly created file was removed
    /// again, and the transient namespace died with the restore.
    BindMountFailed,
}

/// Effect of [`create`] on the abstract directory state. `mount_ok` says
/// whether the kernel accepted the bind mount of the new namespace.
pub open spec fn spec_create_effect(m: DirectoryModel, name: Seq<char>, mount_ok: bool) -> (
    DirectoryModel,
    CreateOutcome,
) {
    let p = spec_namespace_path(name);
    if m.files.contains(p) {
        (m, CreateOutcome::AlreadyExists)
    } else if !mount_ok {
        (m, CreateOutcome::BindMountFailed)
    } else {
        (
            DirectoryModel { files: m.files.insert(p), mounts: m.mounts.insert(p) },
            CreateOutcome::Created,
        )
    }
}

/// Effect of [`delete`] on the abstract directory state, and whether it
/// succeeds: the unmount tolerates an unmounted path, so only the file
/// removal decides.
pub open spec fn spec_delete_effect(m: DirectoryModel, name: Seq<char>) -> (DirectoryModel, bool) {
    let p = spec_namespace_path(name);
    (
        DirectoryModel { files: m.files.remove(p), mounts: m.mounts.remove(p) },
        m.files.contains(p),
    )
}

/// For every directory state and name without an existing namespace
/// file, creating and then immediately deleting the namespace succeeds
/// and leaves the directory exactly as it was: no residual file and no
/// residual mount at the persistent path.
pub proof fn lemma_create_then_delete_leaves_no_residue(m: DirectoryModel, name: Seq<char>)
    requires
        !m.files.contains(spec_namespace_path(name)),
        !m.mounts.contains(spec_namespace_path(name)),
    ensures
        spec_create_effect(m, name, true).1 == CreateOutcome::Created,
        spec_delete_effect(spec_create_effect(m, name, true).0, name).1,
        spec_delete_effect(spec_create_effect(m, name, true).0, name).0 == m,
{
    let p = spec_namespace_path(name);
    let m1 = spec_create_effect(m, name, true).0;
    let m2 = spec_delete_effect(m1, name).0;
    assert(m2.files =~= m.files);
    assert(m2.mounts =~= m.mounts);
    assert(m2 =~= m);
}

/// Creating a namespace whose file already exists fails with the
/// "already exists" outcome and changes nothing: the failure comes from
/// the exclusive file creation, before any kernel namespace is made, so
/// the failed call leaks nothing.
pub proof fn lemma_duplicate_create_fails_without_leak(
    m: DirectoryModel,
    name: Seq<char>,
    mount_ok: bool,
)
    requires
        m.files.contains(spec_namespace_path(name)),
    ensures
        spec_create_effect(m, name, mount_ok).1 == CreateOutcome::AlreadyExists,
        spec_create_effect(m, name, mount_ok).0 == m,
{
}

/// Creating the same name twice fails the second time with the
/// "already exists" outcome, and the failed second call changes nothing:
/// the state after both calls is exactly the state after the first, so
/// the second call leaks no file, no mount and no kernel namespace.
pub proof fn lemma_second_create_fails(m: DirectoryModel, name: Seq<char>, second_mount_ok: bool)
    requires
        !m.files.contains(spec_namespace_path(name)),
    ensures
        ({
            let first = spec_create_effect(m, name, true);
            let second = spec_create_effect(first.0, name, second_mount_ok);
            first.1 == CreateOutcome::Created && second.1 == CreateOutcome::AlreadyExists
                && second.0 == first.0
        }),
{
}

/// A failed bind mount leaves no residue either: the file made for the
/// namespace is removed again before the error is reported.
pub proof fn lemma_failed_bind_mount_leaves_no_residue(m: DirectoryModel, name: Seq<char>)
    requires
        !m.files.contains(spec_namespace_path(name)),
    ensures
        spec_create_effect(m, name, false).1 == CreateOutcome::BindMountFailed,
        spec_create_effect(m, name, false).0 == m,
{
}

} // verus!
