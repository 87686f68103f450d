use tinirun::sandbox::{setup_container, HostConfigCgroupnsModeEnum, ResourcesUlimits};

#[test]
fn container_is_fully_isolated() {
    let (body, options) = setup_container(
        "code-runner-1234",
        "code-runner-1234",
        "python main.py",
        false,
        30,
        256,
        1500,
    );
    assert_eq!(options.name, "code-runner-1234");
    assert_eq!(body.image, "code-runner-1234");
    assert_eq!(body.cmd, vec!["timeout", "30s", "sh", "-c", "python main.py"]);
    assert_eq!(body.env, vec!["HOME=/tmp/home"]);
    assert!(body.network_disabled);
    assert!(!body.open_stdin);
    assert!(!body.stdin_once);
    assert_eq!(
        body.labels,
        vec![("tinirun-id".to_string(), "code-runner-1234".to_string())]
    );
    let host = body.host_config;
    assert!(host.readonly_rootfs);
    assert_eq!(
        host.tmpfs,
        vec![(
            "/tmp".to_string(),
            "rw,noexec,nosuid,nodev,size=100m".to_string()
        )]
    );
    assert_eq!(host.memory, 268_435_456);
    assert_eq!(host.nano_cpus, 1_500_000_000);
    assert_eq!(host.pids_limit, 50);
    assert_eq!(
        host.ulimits,
        vec![ResourcesUlimits {
            name: "nproc".to_string(),
            soft: 50,
            hard: 50
        }]
    );
    assert_eq!(host.cap_drop, vec!["ALL"]);
    assert_eq!(host.security_opt, vec!["no-new-privileges"]);
    assert_eq!(host.ipc_mode, "private");
    assert_eq!(host.cgroupns_mode, HostConfigCgroupnsModeEnum::Private);
}

#[test]
fn stdin_is_open_and_one_shot_when_requested() {
    let (body, _) = setup_container("run", "code-runner-fn-foo:latest", "node main.js", true, 5, 1, 250);
    assert!(body.open_stdin);
    assert!(body.stdin_once);
    assert_eq!(body.image, "code-runner-fn-foo:latest");
    assert_eq!(body.cmd, vec!["timeout", "5s", "sh", "-c", "node main.js"]);
    assert_eq!(body.host_config.memory, 1_048_576);
    assert_eq!(body.host_config.nano_cpus, 250_000_000);
}

#[test]
fn largest_limits_do_not_overflow() {
    let (body, _) = setup_container("r", "i", "c", false, u32::MAX, u32::MAX, u32::MAX);
    assert_eq!(body.cmd[1], "4294967295s");
    assert_eq!(body.host_config.memory, 4_294_967_295i64 * 1_048_576);
    assert_eq!(body.host_config.nano_cpus, 4_294_967_295i64 * 1_000_000);
    let (zero, _) = setup_container("r", "i", "c", false, 0, 2048, 0);
    assert_eq!(zero.cmd[1], "0s");
    assert_eq!(zero.host_config.memory, 2_147_483_648);
    assert_eq!(zero.host_config.nano_cpus, 0);
}
