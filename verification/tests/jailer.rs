use sparkler::firecracker::jailer::{build_command, BuildError, ConfigBuilder};

fn base_builder() -> ConfigBuilder {
    ConfigBuilder::default().id("testvm").user(1000).group(1000)
}

#[test]
fn chroot_path_with_defaults() {
    let config = base_builder().build().expect("build failed");
    assert_eq!(config.chroot_path(), "/srv/jailer/firecracker/testvm/root");
}

#[test]
fn chroot_path_depends_on_base_binary_and_id() {
    let base = base_builder().build().unwrap().chroot_path();
    let other_base = base_builder().chroot_base("/tmp/jail").build().unwrap().chroot_path();
    let other_binary =
        base_builder().firecracker_binary("/opt/fc/firecracker-v2").build().unwrap().chroot_path();
    let other_id = base_builder().id("othervm").build().unwrap().chroot_path();
    assert_eq!(other_base, "/tmp/jail/firecracker/testvm/root");
    assert_eq!(other_binary, "/srv/jailer/firecracker-v2/testvm/root");
    assert_eq!(other_id, "/srv/jailer/firecracker/othervm/root");
    assert_ne!(base, other_base);
    assert_ne!(base, other_binary);
    assert_ne!(base, other_id);
}

#[test]
fn chroot_path_ignores_user_group_and_cgroup() {
    let base = base_builder().build().unwrap().chroot_path();
    let other_user = base_builder().user(0).build().unwrap().chroot_path();
    let other_group = base_builder().group(99).build().unwrap().chroot_path();
    let other_cgroup = base_builder()
        .cgroup(vec![("cpuset.cpus".to_string(), "0".to_string())])
        .build()
        .unwrap()
        .chroot_path();
    assert_eq!(base, other_user);
    assert_eq!(base, other_group);
    assert_eq!(base, other_cgroup);
}

#[test]
fn build_requires_id_user_group_in_order() {
    let none = ConfigBuilder::default().build();
    assert_eq!(none.unwrap_err(), BuildError::UninitializedId);
    let only_id = ConfigBuilder::default().id("vm").build();
    assert_eq!(only_id.unwrap_err(), BuildError::UninitializedUser);
    let no_group = ConfigBuilder::default().id("vm").user(1).build();
    assert_eq!(no_group.unwrap_err(), BuildError::UninitializedGroup);
}

#[test]
fn build_rejects_binary_without_basename() {
    let err = base_builder().firecracker_binary("/usr/bin/").build();
    assert_eq!(err.unwrap_err(), BuildError::InvalidFirecrackerBinary);
    let dots = base_builder().firecracker_binary("/usr/bin/..").build();
    assert_eq!(dots.unwrap_err(), BuildError::InvalidFirecrackerBinary);
}

#[test]
fn build_rejects_bad_chroot_base_and_id() {
    let trailing = base_builder().chroot_base("/srv/jailer/").build();
    assert_eq!(trailing.unwrap_err(), BuildError::InvalidChrootBase);
    let empty_base = base_builder().chroot_base("").build();
    assert_eq!(empty_base.unwrap_err(), BuildError::InvalidChrootBase);
    let absolute_id = base_builder().id("/vm").build();
    assert_eq!(absolute_id.unwrap_err(), BuildError::InvalidId);
    let empty_id = base_builder().id("").build();
    assert_eq!(empty_id.unwrap_err(), BuildError::InvalidId);
}

#[test]
fn build_rejects_duplicate_cgroup_keys() {
    let dup = base_builder()
        .cgroup(vec![
            ("cpuset.cpus".to_string(), "0".to_string()),
            ("cpuset.cpus".to_string(), "1".to_string()),
        ])
        .build();
    assert_eq!(dup.unwrap_err(), BuildError::DuplicateCgroupKey);
}

#[test]
fn command_line_with_everything() {
    let config = base_builder()
        .id("vm1")
        .cgroup(vec![
            ("cpuset.cpus".to_string(), "0".to_string()),
            ("cpuset.mems".to_string(), "0".to_string()),
        ])
        .network_namespace("/var/run/netns/test")
        .firecracker_args(vec!["--no-api".to_string()])
        .build()
        .expect("build failed");
    let command = build_command(&config);
    assert_eq!(command.program, "/usr/bin/jailer");
    assert!(command.new_pid_namespace);
    let expected: Vec<&str> = vec![
        "--id",
        "vm1",
        "--exec-file",
        "/usr/bin/firecracker",
        "--uid",
        "1000",
        "--gid",
        "1000",
        "--chroot-base-dir",
        "/srv/jailer",
        "--cgroup",
        "cpuset.cpus=0",
        "--cgroup",
        "cpuset.mems=0",
        "--netns",
        "/var/run/netns/test",
        "--",
        "--no-api",
    ];
    assert_eq!(command.args, expected);
}

#[test]
fn command_line_without_namespace_or_extra_args() {
    let config = base_builder().build().expect("build failed");
    let command = build_command(&config);
    let expected: Vec<&str> = vec![
        "--id",
        "testvm",
        "--exec-file",
        "/usr/bin/firecracker",
        "--uid",
        "1000",
        "--gid",
        "1000",
        "--chroot-base-dir",
        "/srv/jailer",
    ];
    assert_eq!(command.args, expected);
}
