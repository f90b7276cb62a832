use sparkler::error::Error;
use sparkler::firecracker::api;
use sparkler::firecracker::api::{BootSource, Drive, InstanceState};
use sparkler::supervisor::{
    advance_phase, collect_teardown_failures, image_path_for, run_request, run_response,
    socket_path_for, socket_wait_outcome, socket_wait_step, state_root_for, teardown_steps,
    RunState, SocketWait, TeardownStep, VmPhase, SOCKET_WAIT_ATTEMPTS, SOCKET_WAIT_DELAY_MS,
};

#[test]
fn paths_under_the_chroot() {
    let chroot = "/srv/jailer/firecracker/testvm/root";
    assert_eq!(
        socket_path_for(chroot),
        "/srv/jailer/firecracker/testvm/root/run/firecracker.socket"
    );
    assert_eq!(image_path_for(chroot), "/srv/jailer/firecracker/testvm/root/image");
    assert_eq!(state_root_for(chroot), "/srv/jailer/firecracker/testvm");
}

#[test]
fn socket_wait_policy() {
    assert_eq!(SOCKET_WAIT_ATTEMPTS, 10);
    assert_eq!(SOCKET_WAIT_DELAY_MS, 1000);
    assert_eq!(socket_wait_step(0, true), SocketWait::Ready);
    assert_eq!(socket_wait_step(0, false), SocketWait::RetryAfterDelay);
    assert_eq!(socket_wait_step(8, false), SocketWait::RetryAfterDelay);
    assert_eq!(socket_wait_step(9, false), SocketWait::GiveUp);
}

#[test]
fn socket_wait_gives_up_with_a_server_fault() {
    let never = vec![false; 10];
    let outcome = socket_wait_outcome(&never);
    match outcome {
        Err(Error::Api(api::Error::Server { fault_message })) => {
            assert_eq!(fault_message, "timed out waiting for socket to exist");
        },
        other => panic!("expected a server fault, got {:?}", other),
    }
}

#[test]
fn socket_wait_stops_at_the_first_probe_that_sees_it() {
    let mut probes = vec![false; 10];
    probes[3] = true;
    assert!(matches!(socket_wait_outcome(&probes), Ok(3)));
    // a socket appearing after the budget is exhausted is not seen
    let mut late = vec![false; 12];
    late[11] = true;
    assert!(socket_wait_outcome(&late).is_err());
}

#[test]
fn phases_advance_and_failures_tear_down() {
    assert_eq!(advance_phase(VmPhase::Uninitialized, true), VmPhase::Provisioning);
    assert_eq!(advance_phase(VmPhase::Provisioning, true), VmPhase::Running);
    assert_eq!(advance_phase(VmPhase::Provisioning, false), VmPhase::TearingDown);
    assert_eq!(advance_phase(VmPhase::Running, true), VmPhase::TearingDown);
    assert_eq!(advance_phase(VmPhase::Running, false), VmPhase::TearingDown);
    assert_eq!(advance_phase(VmPhase::TearingDown, true), VmPhase::Terminated);
    assert_eq!(advance_phase(VmPhase::TearingDown, false), VmPhase::Terminated);
    assert_eq!(advance_phase(VmPhase::Terminated, true), VmPhase::Terminated);
}

#[test]
fn teardown_has_all_four_steps_in_order() {
    let steps = teardown_steps("/srv/jailer/firecracker/testvm/root", "test");
    assert_eq!(
        steps,
        vec![
            TeardownStep::KillAndWaitProcess,
            TeardownStep::DeleteNamespace("test".to_string()),
            TeardownStep::UnmountImageDir(
                "/srv/jailer/firecracker/testvm/root/image".to_string()
            ),
            TeardownStep::RemoveStateDir("/srv/jailer/firecracker/testvm".to_string()),
        ]
    );
}

#[test]
fn teardown_reports_every_failure_not_just_the_first() {
    let kill_error = Error::Io { context: "could not kill jailer process".to_string(), errno: 3 };
    let remove_error =
        Error::Io { context: "could not remove VM state".to_string(), errno: 13 };
    let outcomes = vec![
        Some(kill_error.clone()),
        None,
        None,
        Some(remove_error.clone()),
    ];
    let failures = collect_teardown_failures(outcomes);
    assert_eq!(failures, vec![kill_error, remove_error]);
}

#[test]
fn teardown_with_no_failures_reports_nothing() {
    assert_eq!(collect_teardown_failures(vec![None, None, None, None]), Vec::<Error>::new());
}

fn plan() -> (BootSource, Drive) {
    let boot = BootSource {
        boot_args: Some("console=ttyS0".to_string()),
        initrd_path: None,
        kernel_image_path: "image/hello-vmlinux.bin".to_string(),
    };
    let drive = Drive {
        drive_id: "rootfs".to_string(),
        is_read_only: false,
        is_root_device: true,
        partuuid: None,
        path_on_host: "image/hello-rootfs.ext4".to_string(),
        rate_limiter: None,
    };
    (boot, drive)
}

#[test]
fn run_sequence_is_boot_drive_start_info() {
    let (boot, drive) = plan();
    let mut state = RunState::SetBootSource;

    let request = run_request(&state, &boot, &drive).expect("a request");
    assert_eq!(request.path, "/boot-source");
    state = run_response(state, 204, "").expect("boot source accepted");
    assert_eq!(state, RunState::SetDrive);

    let request = run_request(&state, &boot, &drive).expect("a request");
    assert_eq!(request.path, "/drives/rootfs");
    state = run_response(state, 204, "").expect("drive accepted");
    assert_eq!(state, RunState::StartInstance);

    let request = run_request(&state, &boot, &drive).expect("a request");
    assert_eq!(request.path, "/actions");
    assert_eq!(request.body.unwrap(), "{\"action_type\":\"InstanceStart\"}");
    state = run_response(state, 204, "").expect("start accepted");
    assert_eq!(state, RunState::QueryInfo);

    let request = run_request(&state, &boot, &drive).expect("a request");
    assert_eq!(request.method, "GET");
    assert_eq!(request.path, "/");
    let body =
        "{\"app_name\":\"Firecracker\",\"id\":\"testvm\",\"state\":\"Running\",\"vmm_version\":\"1.0.0\"}";
    state = run_response(state, 200, body).expect("info decoded");
    match &state {
        RunState::Done(info) => {
            assert_eq!(info.state, InstanceState::Running);
            assert_eq!(info.id, "testvm");
        },
        other => panic!("expected the sequence to finish, got {:?}", other),
    }
    assert!(run_request(&state, &boot, &drive).is_none());
}

#[test]
fn run_sequence_stops_on_the_first_failure() {
    let outcome = run_response(RunState::SetDrive, 400, "{\"fault_message\":\"drive busy\"}");
    assert_eq!(
        outcome,
        Err(Error::Api(api::Error::Client { fault_message: "drive busy".to_string() }))
    );
}
