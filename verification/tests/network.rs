use sparkler::error::Error;
use sparkler::firecracker::api;
use sparkler::network::cni::{is_false, DnsConfiguration, Error as CniError, ErrorCode, Versioned};
use sparkler::network::namespace::persistent_namespace_path;
use sparkler::text::dec_u64;

#[test]
fn namespace_paths_live_under_the_runtime_directory() {
    assert_eq!(persistent_namespace_path("test"), "/var/run/netns/test");
    assert_eq!(persistent_namespace_path(""), "/var/run/netns/");
}

#[test]
fn error_code_well_known_values() {
    assert_eq!(ErrorCode::from_code(1), ErrorCode::IncompatibleCniVersion);
    assert_eq!(ErrorCode::from_code(2), ErrorCode::UnsupportedConfigurationField);
    assert_eq!(ErrorCode::from_code(3), ErrorCode::ContainerUnknown);
    assert_eq!(ErrorCode::from_code(4), ErrorCode::InvalidEnvironmentVariable);
    assert_eq!(ErrorCode::from_code(5), ErrorCode::Io);
    assert_eq!(ErrorCode::from_code(6), ErrorCode::Decode);
    assert_eq!(ErrorCode::from_code(7), ErrorCode::InvalidNetworkConfiguration);
    assert_eq!(ErrorCode::from_code(11), ErrorCode::Transient);
}

#[test]
fn error_code_reserved_and_plugin_ranges() {
    assert_eq!(ErrorCode::from_code(8), ErrorCode::Reserved(8));
    assert_eq!(ErrorCode::from_code(9), ErrorCode::Reserved(9));
    assert_eq!(ErrorCode::from_code(12), ErrorCode::Reserved(12));
    assert_eq!(ErrorCode::from_code(99), ErrorCode::Reserved(99));
    assert_eq!(ErrorCode::from_code(0), ErrorCode::Plugin(1));
    assert_eq!(ErrorCode::from_code(10), ErrorCode::Plugin(1));
    assert_eq!(ErrorCode::from_code(100), ErrorCode::Plugin(1));
}

#[test]
fn error_code_descriptions() {
    assert_eq!(ErrorCode::Io.description(), "I/O failure");
    assert_eq!(ErrorCode::Transient.description(), "Try again later");
    assert_eq!(ErrorCode::Reserved(42).description(), "reserved error 42");
    assert_eq!(ErrorCode::Plugin(7).description(), "plugin-specific error 7");
}

#[test]
fn cni_error_message_with_and_without_details() {
    let plain = CniError {
        code: ErrorCode::ContainerUnknown,
        message: "no such container".to_string(),
        details: None,
    };
    assert_eq!(
        plain.message(),
        "CNI error (Container unknown or does not exist): no such container"
    );
    let detailed = CniError {
        code: ErrorCode::Io,
        message: "read failed".to_string(),
        details: Some("eth0".to_string()),
    };
    assert_eq!(detailed.message(), "CNI error (I/O failure): read failed (eth0)");
}

#[test]
fn is_false_reports_cleared_flags() {
    assert!(is_false(&false));
    assert!(!is_false(&true));
}

#[test]
fn versioned_carries_its_payload() {
    let wrapped = Versioned {
        cni_version: "1.0.0".to_string(),
        payload: DnsConfiguration {
            nameservers: vec!["10.1.0.1".to_string()],
            domain: None,
            search: Vec::new(),
            options: Vec::new(),
        },
    };
    assert_eq!(wrapped.cni_version, "1.0.0");
    assert_eq!(wrapped.payload.nameservers, vec!["10.1.0.1".to_string()]);
}

#[test]
fn decimal_rendering() {
    assert_eq!(dec_u64(0), "0");
    assert_eq!(dec_u64(42), "42");
    assert_eq!(dec_u64(1000), "1000");
    assert_eq!(dec_u64(u64::MAX), "18446744073709551615");
}

#[test]
fn crate_error_messages() {
    let io = Error::Io { context: "could not create /var/run/netns".to_string(), errno: 13 };
    assert_eq!(io.message(), "i/o error: could not create /var/run/netns");
    let system = Error::System { context: "could not lock /var/run/netns".to_string(), errno: 1 };
    assert_eq!(system.message(), "system error: could not lock /var/run/netns");
    let jailer = Error::Jailer("exec failed".to_string());
    assert_eq!(jailer.message(), "jailer error");
    let api_error = Error::Api(api::Error::InvalidJson);
    assert_eq!(api_error.message(), "Firecracker API error");
}
