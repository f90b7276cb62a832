//! The VM lifecycle: Uninitialized → Provisioning → Running →
//! Tearing-Down → Terminated, with an error-triggered transition from
//! Provisioning or Running straight into Tearing-Down. Provisioning and
//! the run sequence are driven here; the embedding program performs only
//! what cannot be done from a library — spawning the jail process,
//! exchanging the HTTP requests, sleeping between socket probes and
//! removing the state directory — and hands the outcomes back to the
//! decision functions in this module.

use crate::error::Error;
use crate::firecracker::api;
use crate::firecracker::api::{ApiRequest, BootSource, Drive, InstanceInfo};
use crate::firecracker::jailer::{
    basename_ok, build_command, id_ok, spec_basename, spec_chroot_path, CommandLine, Config,
    ConfigBuilder,
};
use crate::network::namespace;
use crate::network::namespace::EEXIST;
use crate::sys;
use crate::util::bind_mount;
use vstd::prelude::*;
use vstd::string::*;

verus! {

/// The lifecycle states of one microVM.
#[derive(Copy, Clone, Debug, PartialEq, Eq)]
pub enum VmPhase {
    Uninitialized,
    Provisioning,
    Running,
    TearingDown,
    Terminated,
}

/// Where the lifecycle goes from `p` when the work of that phase ends
/// with outcome `ok`: provisioning enters the run phase only on success;
/// any failure in Provisioning or Running enters Tearing-Down, which
/// always reaches Terminated, the final state.
pub open spec fn spec_next_phase(p: VmPhase, ok: bool) -> VmPhase {
    match p {
        VmPhase::Uninitialized => VmPhase::Provisioning,
        VmPhase::Provisioning => if ok {
            VmPhase::Running
        } else {
            VmPhase::TearingDown
        },
        VmPhase::Running => VmPhase::TearingDown,
        VmPhase::TearingDown => VmPhase::Terminated,
        VmPhase::Terminated => VmPhase::Terminated,
    }
}

/// Advances the lifecycle by one phase.
pub fn advance_phase(p: VmPhase, ok: bool) -> (r: VmPhase)
    ensures
        r == spec_next_phase(p, ok),
{
    match p {
        VmPhase::Uninitialized => VmPhase::Provisioning,
        VmPhase::Provisioning => if ok {
            VmPhase::Running
        } else {
            VmPhase::TearingDown
        },
        VmPhase::Running => VmPhase::TearingDown,
        VmPhase::TearingDown => VmPhase::Terminated,
        VmPhase::Terminated => VmPhase::Terminated,
    }
}

/// A failure during Provisioning or Running always leads into
/// Tearing-Down — never straight to Terminated and never back — and
/// Tearing-Down always terminates.
pub proof fn lemma_failures_are_torn_down()
    ensures
        spec_next_phase(VmPhase::Provisioning, false) == VmPhase::TearingDown,
        spec_next_phase(VmPhase::Running, false) == VmPhase::TearingDown,
        forall|ok: bool| spec_next_phase(VmPhase::TearingDown, ok) == VmPhase::Terminated,
{
}

// --- paths under the chroot ----------------------------------------------

/// The control socket that the hypervisor opens under its chroot.
pub open spec fn spec_socket_path(chroot: Seq<char>) -> Seq<char> {
    chroot + "/run/firecracker.socket"@
}

/// The image directory mounted under the chroot.
pub open spec fn spec_image_path(chroot: Seq<char>) -> Seq<char> {
    chroot + "/image"@
}

/// The VM's state directory: the parent of the chroot's `root`
/// subdirectory.
pub open spec fn spec_state_root(chroot: Seq<char>) -> Seq<char> {
    chroot.take(chroot.len() - 5)
}

/// A chroot path as this crate computes it: it ends in `/root`.
pub open spec fn ends_with_root(chroot: Seq<char>) -> bool {
    chroot.len() >= 5 && chroot.subrange(chroot.len() - 5, chroot.len() as int) == "/root"@
}

/// Every computed chroot path ends in `/root`.
pub proof fn lemma_chroot_path_ends_with_root(base: Seq<char>, binary: Seq<char>, id: Seq<char>)
    ensures
        ends_with_root(spec_chroot_path(base, binary, id)),
{
    reveal_strlit("/root");
    let p = spec_chroot_path(base, binary, id);
    assert(p.subrange(p.len() - 5, p.len() as int) =~= "/root"@);
}

/// The control socket path for a chroot.
pub fn socket_path_for(chroot: &str) -> (r: String)
    ensures
        r@ == spec_socket_path(chroot@),
{
    let mut p = chroot.to_owned();
    p.append("/run/firecracker.socket");
    p
}

/// The image directory for a chroot.
pub fn image_path_for(chroot: &str) -> (r: String)
    ensures
        r@ == spec_image_path(chroot@),
{
    let mut p = chroot.to_owned();
    p.append("/image");
    p
}

/// The state directory for a chroot.
pub fn state_root_for(chroot: &str) -> (r: String)
    requires
        ends_with_root(chroot@),
    ensures
        r@ == spec_state_root(chroot@),
{
    let n = chroot.unicode_len();
    let sub = chroot.substring_char(0, n - 5);
    sub.to_owned()
}

// --- provisioning ---------------------------------------------------------

/// A provisioned VM, as far as a library can take it: the validated jail
/// configuration, the command line that will launch the jail process, and
/// the resolved chroot path. The namespace file exists, the image
/// directory is created and bind-mounted; only the spawn itself is left
/// to the embedding program.
pub struct ProvisionedVm {
    pub config: Config,
    pub command: CommandLine,
    pub chroot_path: String,
    pub namespace_path: String,
}

/// Creates every directory along `path`, tolerating ones that already
/// exist; an error is the errno of the first failing step, and is never
/// the "already exists" errno.
fn create_dir_all(path: &str) -> (r: Result<(), i32>)
    ensures
        r matches Err(e) ==> e != EEXIST,
{
    let n = path.unicode_len();
    let mut i: usize = 1;
    while i < n
        invariant
            1 <= i,
            n == path@.len(),
        decreases n - i,
    {
        if path.get_char(i) == '/' {
            let prefix = path.substring_char(0, i);
            match sys::sys_mkdir(prefix, 0o755) {
                Ok(()) => {},
                Err(e) => {
                    if e != EEXIST {
                        return Err(e);
                    }
                },
            }
        }
        i = i + 1;
    }
    match sys::sys_mkdir(path, 0o755) {
        Ok(()) => Ok(()),
        Err(e) => {
            if e != EEXIST {
                Err(e)
            } else {
                Ok(())
            }
        },
    }
}

/// The default hypervisor binary passes the basename validation.
proof fn lemma_default_firecracker_basename_ok()
    ensures
        basename_ok("/usr/bin/firecracker"@),
{
    reveal_strlit("/usr/bin/firecracker");
    reveal_strlit(".");
    reveal_strlit("..");
    let s = "/usr/bin/firecracker"@;
    crate::firecracker::jailer::lemma_basename_is_tail(s, 9);
    assert(spec_basename(s) == s.subrange(9, 20));
    assert(spec_basename(s).len() == 11);
}

/// Provisions one microVM: creates the persistent network namespace,
/// builds the jail configuration around it (current user and group,
/// default binaries and chroot base), creates and bind-mounts the image
/// directory under the chroot, and computes the launch command. Any
/// step's failure aborts provisioning with that step's error; partial
/// side effects are left for Tearing-Down, which is run even when
/// provisioning did not complete.
pub fn setup_vm(namespace_name: &str, vm_id: &str, image_source: &str) -> (r: Result<
    ProvisionedVm,
    Error,
>)
    requires
        id_ok(vm_id@),
    ensures
        r matches Ok(vm) ==> {
            &&& vm.config.wf()
            &&& vm.namespace_path@ == namespace::spec_namespace_path(namespace_name@)
            &&& vm.config.id@ == vm_id@
            &&& vm.config.network_namespace matches Some(p) && p@ == vm.namespace_path@
            &&& vm.chroot_path@ == spec_chroot_path(
                vm.config.chroot_base@,
                vm.config.firecracker_binary@,
                vm.config.id@,
            )
            &&& vm.command.program@ == vm.config.jailer_binary@
            &&& vm.command.args.deep_view() == crate::firecracker::jailer::spec_command_args(
                vm.config,
            )
            &&& vm.command.new_pid_namespace
        },
{
    let namespace_path = match namespace::create(namespace_name) {
        Ok(p) => p,
        Err(e) => { return Err(e) },
    };

    let builder = ConfigBuilder::default().user(sys::sys_current_uid()).group(
        sys::sys_current_gid(),
    ).id(vm_id).network_namespace(namespace_path.as_str());
    proof {
        lemma_default_firecracker_basename_ok();
        reveal_strlit("/srv/jailer");
    }
    let config = match builder.build() {
        Ok(c) => c,
        Err(_) => {
            // The builder cannot refuse these inputs: the ID is valid by
            // this function's precondition, user and group are set, and
            // the default binaries and chroot base pass validation.
            proof {
                assert(false);
            }
            return Err(Error::Jailer("invalid jail configuration".to_owned()));
        },
    };

    let chroot_path = config.chroot_path();
    let image_path = image_path_for(chroot_path.as_str());
    match create_dir_all(image_path.as_str()) {
        Ok(()) => {},
        Err(errno) => {
            let mut context = "could not create image directory ".to_owned();
            context.append(image_path.as_str());
            return Err(Error::Io { context, errno });
        },
    }
    match bind_mount(image_source, image_path.as_str()) {
        Ok(()) => {},
        Err(e) => { return Err(e) },
    }

    let command = build_command(&config);
    Ok(ProvisionedVm { config, command, chroot_path, namespace_path })
}

// --- the socket wait --------------------------------------------------------

/// How many times the control socket is probed before giving up.
pub const SOCKET_WAIT_ATTEMPTS: u8 = 10;

/// Milliseconds between two probes.
pub const SOCKET_WAIT_DELAY_MS: u64 = 1000;

/// What the wait loop does after one probe.
#[derive(Copy, Clone, Debug, PartialEq, Eq)]
pub enum SocketWait {
    /// The socket exists; the control plane can be spoken to.
    Ready,
    /// Not yet there: sleep for [`SOCKET_WAIT_DELAY_MS`] and probe again.
    RetryAfterDelay,
    /// The probe budget is exhausted; report the timeout error.
    GiveUp,
}

/// Decides the wait loop's next move after probe number `attempt`
/// (counted from zero) observed `exists`.
pub fn socket_wait_step(attempt: u8, exists: bool) -> (r: SocketWait)
    ensures
        exists ==> r == SocketWait::Ready,
        !exists && attempt < 9 ==> r == SocketWait::RetryAfterDelay,
        !exists && attempt >= 9 ==> r == SocketWait::GiveUp,
{
    if exists {
        SocketWait::Ready
    } else if attempt < 9 {
        SocketWait::RetryAfterDelay
    } else {
        SocketWait::GiveUp
    }
}

/// The error reported when the socket never appears: a server fault with
/// a message that names the timeout, distinguishable from a true server
/// error body.
pub fn socket_wait_timeout_error() -> (e: Error)
    ensures
        e matches Error::Api(a) && a matches api::Error::Server { fault_message } && fault_message@
            == "timed out waiting for socket to exist"@,
{
    Error::Api(
        api::Error::Server {
            fault_message: "timed out waiting for socket to exist".to_owned(),
        },
    )
}

/// The whole wait, over the probe outcomes it would observe: the socket
/// is waited for at most [`SOCKET_WAIT_ATTEMPTS`] times, succeeding with
/// the first probe that sees it and otherwise failing with the timeout
/// server fault — never hanging. `probes[i]` is what probe `i` would
/// observe.
pub fn socket_wait_outcome(probes: &Vec<bool>) -> (r: Result<usize, Error>)
    ensures
        r is Ok <==> exists|j: int| 0 <= j < 10 && j < probes@.len() && probes@[j],
        r matches Ok(i) ==> i < 10 && i < probes@.len() && probes@[i as int] && (forall|j: int|
            0 <= j < i ==> !probes@[j]),
        r matches Err(e) ==> (e matches Error::Api(a) && a matches api::Error::Server {
            fault_message,
        } && fault_message@ == "timed out waiting for socket to exist"@),
{
    let mut i: usize = 0;
    while i < 10 && i < probes.len()
        invariant
            i <= 10,
            i <= probes@.len(),
            forall|j: int| 0 <= j < i ==> !probes@[j],
        decreases 10 - i,
    {
        if probes[i] {
            return Ok(i);
        }
        i = i + 1;
    }
    Err(socket_wait_timeout_error())
}

// --- the run sequence --------------------------------------------------------

/// Where the run sequence stands: the configuration and action calls are
/// issued in a fixed order — boot source, drive, start action, and
/// finally the information query — each call's success gating the next.
#[derive(Clone, Debug, PartialEq, Eq)]
pub enum RunState {
    SetBootSource,
    SetDrive,
    StartInstance,
    QueryInfo,
    Done(InstanceInfo),
}

/// The request to issue in `state`, if the sequence is not done yet.
pub fn run_request(state: &RunState, boot_source: &BootSource, drive: &Drive) -> (r: Option<
    ApiRequest,
>)
    ensures
        state is SetBootSource ==> (r matches Some(q) && q.method@ == "PUT"@ && q.path@
            == "/boot-source"@ && (q.body matches Some(b) && b@
            == api::codec::spec_encode_boot_source(boot_source@))),
        state is SetDrive ==> (r matches Some(q) && q.method@ == "PUT"@ && q.path@ == "/drives/"@
            + drive.drive_id@ && (q.body matches Some(b) && b@ == api::codec::spec_encode_drive(
            *drive,
        ))),
        state is StartInstance ==> (r matches Some(q) && q.method@ == "PUT"@ && q.path@
            == "/actions"@ && (q.body matches Some(b) && b@
            == api::codec::spec_encode_instance_action_info(api::ActionType::InstanceStart))),
        state is QueryInfo ==> (r matches Some(q) && q.method@ == "GET"@ && q.path@ == "/"@
            && q.body is None),
        state is Done <==> r is None,
{
    match state {
        RunState::SetBootSource => Some(api::set_boot_source_request(boot_source)),
        RunState::SetDrive => Some(api::set_drive_request(drive)),
        RunState::StartInstance => Some(api::action_request(api::ActionType::InstanceStart)),
        RunState::QueryInfo => Some(api::instance_info_request()),
        RunState::Done(_) => None,
    }
}

/// Feeds one response back into the sequence: a successful response
/// advances to the next call, any other stops the sequence with the
/// classified control-plane error.
pub fn run_response(state: RunState, status: u16, body: &str) -> (r: Result<RunState, Error>)
    requires
        !(state is Done),
    ensures
        state is SetBootSource && status == 204 ==> r == Ok::<RunState, Error>(RunState::SetDrive),
        state is SetDrive && status == 204 ==> r == Ok::<RunState, Error>(RunState::StartInstance),
        state is StartInstance && status == 204 ==> r == Ok::<RunState, Error>(RunState::QueryInfo),
        (state is SetBootSource || state is SetDrive || state is StartInstance) && status != 204
            ==> (r matches Err(Error::Api(e)) && api::spec_classified_error(status, body@, e)),
        state is QueryInfo ==> {
            &&& (r is Ok <==> status == 200 && api::codec::spec_decode_instance_info(body@)
                is Some)
            &&& (r matches Ok(n) ==> n matches RunState::Done(info)
                && api::codec::spec_decode_instance_info(body@) == Some(info@))
            &&& (status == 200 && api::codec::spec_decode_instance_info(body@) is None ==> r
                == Err::<RunState, Error>(Error::Api(api::Error::InvalidJson)))
            &&& (status != 200 ==> (r matches Err(Error::Api(e)) && api::spec_classified_error(
                status,
                body@,
                e,
            )))
        },
{
    match state {
        RunState::SetBootSource => match api::handle_put_response(status, body) {
            Ok(()) => Ok(RunState::SetDrive),
            Err(e) => Err(Error::Api(e)),
        },
        RunState::SetDrive => match api::handle_put_response(status, body) {
            Ok(()) => Ok(RunState::StartInstance),
            Err(e) => Err(Error::Api(e)),
        },
        RunState::StartInstance => match api::handle_put_response(status, body) {
            Ok(()) => Ok(RunState::QueryInfo),
            Err(e) => Err(Error::Api(e)),
        },
        RunState::QueryInfo => match api::handle_instance_info_response(status, body) {
            Ok(info) => Ok(RunState::Done(info)),
            Err(e) => Err(Error::Api(e)),
        },
        RunState::Done(_) => Err(Error::Api(api::Error::InvalidJson)),
    }
}

// --- tearing down ------------------------------------------------------------

/// One step of the teardown, with everything needed to perform it.
#[derive(Clone, Debug, PartialEq, Eq)]
pub enum TeardownStep {
    /// Signal-kill the jail process and wait for it; the process must be
    /// confirmed dead before its namespace and mounts are torn down.
    KillAndWaitProcess,
    /// Delete the named persistent network namespace.
    DeleteNamespace(String),
    /// Unmount the image directory at this path.
    UnmountImageDir(String),
    /// Recursively remove the VM's state directory at this path.
    RemoveStateDir(String),
}

/// The teardown plan for one VM: all four cleanup steps, in order,
/// whatever state the VM reached — each is attempted even if an earlier
/// one fails.
pub fn teardown_steps(chroot_path: &str, namespace_name: &str) -> (r: Vec<TeardownStep>)
    requires
        ends_with_root(chroot_path@),
    ensures
        r@.len() == 4,
        r@[0] == TeardownStep::KillAndWaitProcess,
        r@[1] matches TeardownStep::DeleteNamespace(n) && n@ == namespace_name@,
        r@[2] matches TeardownStep::UnmountImageDir(p) && p@ == spec_image_path(chroot_path@),
        r@[3] matches TeardownStep::RemoveStateDir(p) && p@ == spec_state_root(chroot_path@),
{
    let mut steps: Vec<TeardownStep> = Vec::new();
    steps.push(TeardownStep::KillAndWaitProcess);
    steps.push(TeardownStep::DeleteNamespace(namespace_name.to_owned()));
    steps.push(TeardownStep::UnmountImageDir(image_path_for(chroot_path)));
    steps.push(TeardownStep::RemoveStateDir(state_root_for(chroot_path)));
    steps
}

/// The failures among a sequence of step outcomes, in step order.
pub open spec fn spec_failures(outcomes: Seq<Option<Error>>) -> Seq<Error>
    decreases outcomes.len(),
{
    if outcomes.len() == 0 {
        Seq::empty()
    } else {
        spec_failures(outcomes.drop_last()) + (match outcomes.last() {
            Some(e) => seq![e],
            None => Seq::empty(),
        })
    }
}

/// Collects the failures of the teardown steps: exactly the errors of
/// the failed steps, in the order the steps ran, so that every failure
/// is reported, not only the first.
pub fn collect_teardown_failures(outcomes: Vec<Option<Error>>) -> (r: Vec<Error>)
    ensures
        r@ == spec_failures(outcomes@),
{
    let mut failures: Vec<Error> = Vec::new();
    let mut i: usize = 0;
    proof {
        assert(outcomes@.take(0int) =~= Seq::<Option<Error>>::empty());
    }
    while i < outcomes.len()
        invariant
            i <= outcomes@.len(),
            failures@ == spec_failures(outcomes@.take(i as int)),
        decreases outcomes@.len() - i,
    {
        match &outcomes[i] {
            Some(e) => {
                failures.push(e.clone());
            },
            None => {},
        }
        proof {
            let taken = outcomes@.take(i + 1int);
            assert(taken.drop_last() =~= outcomes@.take(i as int));
            assert(taken.last() == outcomes@[i as int]);
            assert(failures@ =~= spec_failures(taken));
        }
        i = i + 1;
    }
    proof {
        assert(outcomes@.take(outcomes@.len() as int) =~= outcomes@);
    }
    failures
}

/// Every failed step's error appears in the collected report — even when
/// an earlier step, such as the process kill, failed too.
pub proof fn lemma_every_failure_is_reported(outcomes: Seq<Option<Error>>, i: int)
    requires
        0 <= i < outcomes.len(),
        outcomes[i] is Some,
    ensures
        spec_failures(outcomes).contains(outcomes[i].unwrap()),
    decreases outcomes.len(),
{
    let pre = spec_failures(outcomes.drop_last());
    if i == outcomes.len() - 1 {
        assert(spec_failures(outcomes)[pre.len() as int] == outcomes[i].unwrap());
    } else {
        lemma_every_failure_is_reported(outcomes.drop_last(), i);
        let j = choose|j: int|
            0 <= j < pre.len() && pre[j] == outcomes.drop_last()[i].unwrap();
        assert(outcomes.drop_last()[i] == outcomes[i]);
        assert(spec_failures(outcomes)[j] == pre[j]);
    }
}

} // verus!
