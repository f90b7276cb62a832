use sparkler::firecracker::api::{
    ActionType, BootSource, Drive, InstanceActionInfo, InstanceInfo, InstanceState, RateLimiter,
    TokenBucket,
};
use sparkler::firecracker::api::model::Error as FaultBody;

fn boot_source(boot_args: Option<&str>, initrd: Option<&str>) -> BootSource {
    BootSource {
        boot_args: boot_args.map(str::to_string),
        initrd_path: initrd.map(str::to_string),
        kernel_image_path: "image/hello-vmlinux.bin".to_string(),
    }
}

#[test]
fn boot_source_without_initrd_omits_the_field() {
    let source = boot_source(Some("console=ttyS0"), None);
    let encoded = source.encode_json();
    assert_eq!(
        encoded,
        "{\"boot_args\":\"console=ttyS0\",\"kernel_image_path\":\"image/hello-vmlinux.bin\"}"
    );
    assert!(!encoded.contains("initrd"));
}

#[test]
fn boot_source_roundtrip_reproduces_absent_initrd() {
    let source = boot_source(Some("console=ttyS0 reboot=k"), None);
    let decoded = BootSource::decode_json(&source.encode_json()).expect("decode failed");
    assert_eq!(decoded.initrd_path, None);
    assert_eq!(decoded, source);
}

#[test]
fn boot_source_roundtrip_with_initrd() {
    let source = boot_source(Some("quiet"), Some("image/initrd.img"));
    assert_eq!(
        source.encode_json(),
        "{\"boot_args\":\"quiet\",\"initrd_path\":\"image/initrd.img\",\"kernel_image_path\":\"image/hello-vmlinux.bin\"}"
    );
    let decoded = BootSource::decode_json(&source.encode_json()).expect("decode failed");
    assert_eq!(decoded, source);
}

#[test]
fn boot_source_with_kernel_only() {
    let source = boot_source(None, None);
    assert_eq!(
        source.encode_json(),
        "{\"kernel_image_path\":\"image/hello-vmlinux.bin\"}"
    );
    let decoded = BootSource::decode_json(&source.encode_json()).expect("decode failed");
    assert_eq!(decoded, source);
}

#[test]
fn boot_source_roundtrip_with_escapes() {
    let source = BootSource {
        boot_args: Some("a\"b\\c\nd\u{1}e".to_string()),
        initrd_path: None,
        kernel_image_path: "k".to_string(),
    };
    let encoded = source.encode_json();
    assert_eq!(
        encoded,
        "{\"boot_args\":\"a\\\"b\\\\c\\nd\\u0001e\",\"kernel_image_path\":\"k\"}"
    );
    let decoded = BootSource::decode_json(&encoded).expect("decode failed");
    assert_eq!(decoded, source);
}

#[test]
fn boot_source_decode_rejects_garbage() {
    assert_eq!(BootSource::decode_json(""), None);
    assert_eq!(BootSource::decode_json("{"), None);
    assert_eq!(BootSource::decode_json("{\"kernel_image_path\":\"k\""), None);
    assert_eq!(BootSource::decode_json("{\"kernel_image_path\":\"k\"}x"), None);
    assert_eq!(BootSource::decode_json("{\"kernel_image_path\":\"unterminated}"), None);
}

#[test]
fn drive_minimal_document() {
    let drive = Drive {
        drive_id: "rootfs".to_string(),
        is_read_only: false,
        is_root_device: true,
        partuuid: None,
        path_on_host: "image/hello-rootfs.ext4".to_string(),
        rate_limiter: None,
    };
    assert_eq!(
        drive.encode_json(),
        "{\"drive_id\":\"rootfs\",\"is_read_only\":false,\"is_root_device\":true,\"path_on_host\":\"image/hello-rootfs.ext4\"}"
    );
}

#[test]
fn drive_full_document() {
    let drive = Drive {
        drive_id: "rootfs".to_string(),
        is_read_only: true,
        is_root_device: false,
        partuuid: Some("1234-5678".to_string()),
        path_on_host: "p".to_string(),
        rate_limiter: Some(RateLimiter {
            bandwidth: Some(TokenBucket {
                one_time_burst: Some(1000),
                refill_time: 100,
                size: 1000,
            }),
            ops: None,
        }),
    };
    assert_eq!(
        drive.encode_json(),
        "{\"drive_id\":\"rootfs\",\"is_read_only\":true,\"is_root_device\":false,\"partuuid\":\"1234-5678\",\"path_on_host\":\"p\",\"rate_limiter\":{\"bandwidth\":{\"one_time_burst\":1000,\"refill_time\":100,\"size\":1000}}}"
    );
}

#[test]
fn token_bucket_document_without_burst() {
    let bucket = TokenBucket { one_time_burst: None, refill_time: 100, size: 1000 };
    assert_eq!(bucket.encode_json(), "{\"refill_time\":100,\"size\":1000}");
}

#[test]
fn rate_limiter_documents() {
    let bucket = TokenBucket { one_time_burst: None, refill_time: 1, size: 2 };
    let both = RateLimiter { bandwidth: Some(bucket.clone()), ops: Some(bucket.clone()) };
    assert_eq!(
        both.encode_json(),
        "{\"bandwidth\":{\"refill_time\":1,\"size\":2},\"ops\":{\"refill_time\":1,\"size\":2}}"
    );
    let neither = RateLimiter::default();
    assert_eq!(neither.encode_json(), "{}");
    let ops_only = RateLimiter { bandwidth: None, ops: Some(bucket) };
    assert_eq!(ops_only.encode_json(), "{\"ops\":{\"refill_time\":1,\"size\":2}}");
}

#[test]
fn action_documents() {
    let start = InstanceActionInfo { action_type: ActionType::InstanceStart };
    assert_eq!(start.encode_json(), "{\"action_type\":\"InstanceStart\"}");
    let flush = InstanceActionInfo { action_type: ActionType::FlushMetrics };
    assert_eq!(flush.encode_json(), "{\"action_type\":\"FlushMetrics\"}");
    let ctrl_alt_del = InstanceActionInfo { action_type: ActionType::SendCtrlAltDel };
    assert_eq!(ctrl_alt_del.encode_json(), "{\"action_type\":\"SendCtrlAltDel\"}");
}

#[test]
fn instance_info_decodes() {
    let body = "{\"app_name\":\"Firecracker\",\"id\":\"testvm\",\"state\":\"Running\",\"vmm_version\":\"1.0.0\"}";
    let info = InstanceInfo::decode_json(body).expect("decode failed");
    assert_eq!(info.app_name, "Firecracker");
    assert_eq!(info.id, "testvm");
    assert_eq!(info.state, InstanceState::Running);
    assert_eq!(info.vmm_version, "1.0.0");
}

#[test]
fn instance_info_decodes_not_started() {
    let body = "{\"app_name\":\"a\",\"id\":\"i\",\"state\":\"Not started\",\"vmm_version\":\"v\"}";
    let info = InstanceInfo::decode_json(body).expect("decode failed");
    assert_eq!(info.state, InstanceState::NotStarted);
    let paused = "{\"app_name\":\"a\",\"id\":\"i\",\"state\":\"Paused\",\"vmm_version\":\"v\"}";
    assert_eq!(InstanceInfo::decode_json(paused).unwrap().state, InstanceState::Paused);
}

#[test]
fn instance_info_rejects_unknown_state() {
    let body = "{\"app_name\":\"a\",\"id\":\"i\",\"state\":\"Sleeping\",\"vmm_version\":\"v\"}";
    assert_eq!(InstanceInfo::decode_json(body), None);
}

#[test]
fn fault_body_decodes() {
    let fault = FaultBody::decode_json("{\"fault_message\":\"drive busy\"}").expect("decode");
    assert_eq!(fault.fault_message, "drive busy");
    assert_eq!(FaultBody::decode_json("{\"fault\":\"x\"}"), None);
    assert_eq!(FaultBody::decode_json("not json"), None);
}

#[test]
fn fault_body_decodes_unicode_escapes() {
    let fault = FaultBody::decode_json("{\"fault_message\":\"tab\\u0009end\\u00e9\"}").unwrap();
    assert_eq!(fault.fault_message, "tab\tend\u{e9}");
    // a lone surrogate is refused
    assert_eq!(FaultBody::decode_json("{\"fault_message\":\"\\uD800\"}"), None);
}

#[test]
fn decoder_accepts_the_solidus_escape() {
    let decoded = BootSource::decode_json("{\"kernel_image_path\":\"a\\/b\"}").unwrap();
    assert_eq!(decoded.kernel_image_path, "a/b");
}

#[test]
fn decoder_accepts_uppercase_hex_escapes() {
    let fault = FaultBody::decode_json("{\"fault_message\":\"\\u00E9\"}").unwrap();
    assert_eq!(fault.fault_message, "\u{e9}");
}

#[test]
fn instance_info_rejects_trailing_garbage() {
    let body = "{\"app_name\":\"a\",\"id\":\"i\",\"state\":\"Paused\",\"vmm_version\":\"v\"} ";
    assert_eq!(InstanceInfo::decode_json(body), None);
}
