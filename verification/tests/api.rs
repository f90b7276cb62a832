use sparkler::firecracker::api::{
    action_request, classify_error_response, handle_instance_info_response, handle_put_response,
    instance_info_request, set_boot_source_request, set_drive_request, ActionType, BootSource,
    Drive, Error, InstanceState,
};

fn rootfs_drive() -> Drive {
    Drive {
        drive_id: "rootfs".to_string(),
        is_read_only: false,
        is_root_device: true,
        partuuid: None,
        path_on_host: "image/hello-rootfs.ext4".to_string(),
        rate_limiter: None,
    }
}

#[test]
fn set_drive_puts_to_the_drive_path() {
    let request = set_drive_request(&rootfs_drive());
    assert_eq!(request.method, "PUT");
    assert_eq!(request.path, "/drives/rootfs");
    assert_eq!(request.accept, "application/json");
    assert_eq!(request.content_type, "application/json");
    assert!(request.body.unwrap().contains("\"drive_id\":\"rootfs\""));
}

#[test]
fn set_drive_no_content_is_success() {
    assert_eq!(handle_put_response(204, ""), Ok(()));
}

#[test]
fn set_drive_client_fault_carries_the_message() {
    let outcome = handle_put_response(400, "{\"fault_message\":\"drive busy\"}");
    assert_eq!(
        outcome,
        Err(Error::Client { fault_message: "drive busy".to_string() })
    );
}

#[test]
fn server_fault_carries_the_message() {
    let outcome = handle_put_response(500, "{\"fault_message\":\"out of memory\"}");
    assert_eq!(
        outcome,
        Err(Error::Server { fault_message: "out of memory".to_string() })
    );
}

#[test]
fn unexpected_status_names_the_status() {
    let error = classify_error_response(302, "{\"fault_message\":\"moved\"}");
    assert_eq!(
        error,
        Error::UnexpectedResponse("Got 302 from server, expected an error".to_string())
    );
}

#[test]
fn undecodable_error_body_is_invalid_json() {
    assert_eq!(classify_error_response(400, "<html>"), Error::InvalidJson);
    assert_eq!(handle_put_response(503, ""), Err(Error::InvalidJson));
}

#[test]
fn boot_source_request_shape() {
    let source = BootSource {
        boot_args: None,
        initrd_path: None,
        kernel_image_path: "image/hello-vmlinux.bin".to_string(),
    };
    let request = set_boot_source_request(&source);
    assert_eq!(request.method, "PUT");
    assert_eq!(request.path, "/boot-source");
    assert_eq!(
        request.body.unwrap(),
        "{\"kernel_image_path\":\"image/hello-vmlinux.bin\"}"
    );
}

#[test]
fn action_request_shape() {
    let request = action_request(ActionType::InstanceStart);
    assert_eq!(request.method, "PUT");
    assert_eq!(request.path, "/actions");
    assert_eq!(request.body.unwrap(), "{\"action_type\":\"InstanceStart\"}");
}

#[test]
fn instance_info_request_shape() {
    let request = instance_info_request();
    assert_eq!(request.method, "GET");
    assert_eq!(request.path, "/");
    assert_eq!(request.body, None);
}

#[test]
fn instance_info_response_decodes_on_ok() {
    let body = "{\"app_name\":\"Firecracker\",\"id\":\"vm\",\"state\":\"Paused\",\"vmm_version\":\"2\"}";
    let info = handle_instance_info_response(200, body).expect("should decode");
    assert_eq!(info.state, InstanceState::Paused);
    assert_eq!(info.id, "vm");
}

#[test]
fn instance_info_response_bad_body_is_invalid_json() {
    assert_eq!(handle_instance_info_response(200, "{}"), Err(Error::InvalidJson));
}

#[test]
fn instance_info_response_error_is_classified() {
    let outcome = handle_instance_info_response(404, "{\"fault_message\":\"no instance\"}");
    assert_eq!(
        outcome,
        Err(Error::Client { fault_message: "no instance".to_string() })
    );
}

#[test]
fn api_error_messages() {
    assert_eq!(Error::InvalidJson.message(), "invalid JSON");
    assert_eq!(Error::Transport("x".to_string()).message(), "HTTP transport error");
    assert_eq!(
        Error::Client { fault_message: "drive busy".to_string() }.message(),
        "client error: drive busy"
    );
    assert_eq!(
        Error::Server { fault_message: "oops".to_string() }.message(),
        "server error: oops"
    );
    assert_eq!(
        Error::UnexpectedResponse("Got 302 from server, expected an error".to_string()).message(),
        "unexpected HTTP response: Got 302 from server, expected an error"
    );
}
