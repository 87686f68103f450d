//! The isolation profile of every container that runs user code.
//!
//! The container has no network and a read-only root filesystem, a
//! size-limited `/tmp` without exec, suid or devices, caps on memory, CPU
//! and process count, no capabilities and no way to gain privileges, and
//! private IPC and cgroup namespaces.

use vstd::prelude::*;
use vstd::string::*;
use crate::constants::ID_LABEL;
use crate::text::{concat2, decimal, pair_texts, texts, u64_to_decimal};

verus! {

/// A resource limit of the container's processes.
#[derive(Debug, Clone, PartialEq, Eq)]
pub struct ResourcesUlimits {
    pub name: String,
    pub soft: i64,
    pub hard: i64,
}

/// The cgroup namespace of a container.
#[derive(Debug, Clone, Copy, PartialEq, Eq, Structural)]
pub enum HostConfigCgroupnsModeEnum {
    Private,
    Host,
}

/// Host-side settings of a container.
#[derive(Debug, Clone, PartialEq, Eq)]
pub struct HostConfig {
    pub readonly_rootfs: bool,
    /// Mount point and options of each tmpfs mount.
    pub tmpfs: Vec<(String, String)>,
    /// Memory limit in bytes.
    pub memory: i64,
    /// CPU quota in billionths of a core.
    pub nano_cpus: i64,
    pub pids_limit: i64,
    pub ulimits: Vec<ResourcesUlimits>,
    pub cap_drop: Vec<String>,
    pub security_opt: Vec<String>,
    pub ipc_mode: String,
    pub cgroupns_mode: HostConfigCgroupnsModeEnum,
}

/// The body of a container-create request.
#[derive(Debug, Clone, PartialEq, Eq)]
pub struct ContainerCreateBody {
    pub image: String,
    pub cmd: Vec<String>,
    pub env: Vec<String>,
    pub network_disabled: bool,
    pub open_stdin: bool,
    pub stdin_once: bool,
    pub labels: Vec<(String, String)>,
    pub host_config: HostConfig,
}

/// The options of a container-create request.
#[derive(Debug, Clone, PartialEq, Eq)]
pub struct CreateContainerOptions {
    pub name: String,
}

/// Model of a `ContainerCreateBody`.
pub struct ContainerView {
    pub image: Seq<char>,
    pub cmd: Seq<Seq<char>>,
    pub env: Seq<Seq<char>>,
    pub network_disabled: bool,
    pub open_stdin: bool,
    pub stdin_once: bool,
    pub labels: Seq<(Seq<char>, Seq<char>)>,
    pub readonly_rootfs: bool,
    pub tmpfs: Seq<(Seq<char>, Seq<char>)>,
    pub memory: int,
    pub nano_cpus: int,
    pub pids_limit: int,
    /// Name, soft limit and hard limit of each ulimit.
    pub ulimits: Seq<(Seq<char>, int, int)>,
    pub cap_drop: Seq<Seq<char>>,
    pub security_opt: Seq<Seq<char>>,
    pub ipc_mode: Seq<char>,
    pub cgroupns_mode: HostConfigCgroupnsModeEnum,
}

impl View for ContainerCreateBody {
    type V = ContainerView;

    open spec fn view(&self) -> ContainerView {
        ContainerView {
            image: self.image@,
            cmd: texts(self.cmd@),
            env: texts(self.env@),
            network_disabled: self.network_disabled,
            open_stdin: self.open_stdin,
            stdin_once: self.stdin_once,
            labels: pair_texts(self.labels@),
            readonly_rootfs: self.host_config.readonly_rootfs,
            tmpfs: pair_texts(self.host_config.tmpfs@),
            memory: self.host_config.memory as int,
            nano_cpus: self.host_config.nano_cpus as int,
            pids_limit: self.host_config.pids_limit as int,
            ulimits: self.host_config.ulimits@.map_values(
                |u: ResourcesUlimits| (u.name@, u.soft as int, u.hard as int),
            ),
            cap_drop: texts(self.host_config.cap_drop@),
            security_opt: texts(self.host_config.security_opt@),
            ipc_mode: self.host_config.ipc_mode@,
            cgroupns_mode: self.host_config.cgroupns_mode,
        }
    }
}

/// Options of the size-limited tmpfs mounted on `/tmp`.
pub open spec fn tmpfs_options() -> Seq<char> {
    "rw,noexec,nosuid,nodev,size=100m"@
}

/// The command of the container: the user's command under `sh -c`, under a
/// `timeout` of the given number of seconds.
pub open spec fn run_command(timeout: u32, command: Seq<char>) -> Seq<Seq<char>> {
    seq!["timeout"@, decimal(timeout as nat) + "s"@, "sh"@, "-c"@, command]
}

/// The sandbox profile for the given run.
pub open spec fn sandbox_profile(
    run_id: Seq<char>,
    image_tag: Seq<char>,
    command: Seq<char>,
    stdin: bool,
    timeout: u32,
    mem_limit_mb: u32,
    cpu_limit_millis: u32,
) -> ContainerView {
    ContainerView {
        image: image_tag,
        cmd: run_command(timeout, command),
        env: seq!["HOME=/tmp/home"@],
        network_disabled: true,
        open_stdin: stdin,
        stdin_once: stdin,
        labels: seq![(ID_LABEL@, run_id)],
        readonly_rootfs: true,
        tmpfs: seq![("/tmp"@, tmpfs_options())],
        memory: mem_limit_mb * 1048576,
        nano_cpus: cpu_limit_millis * 1000000,
        pids_limit: 50,
        ulimits: seq![("nproc"@, 50int, 50int)],
        cap_drop: seq!["ALL"@],
        security_opt: seq!["no-new-privileges"@],
        ipc_mode: "private"@,
        cgroupns_mode: HostConfigCgroupnsModeEnum::Private,
    }
}

/// Sets up the creation of a container for code execution, isolated as far
/// as the engine allows.
pub fn setup_container(
    run_id: &str,
    image_tag: &str,
    command: &str,
    stdin: bool,
    timeout: u32,
    mem_limit_mb: u32,
    cpu_limit_millis: u32,
) -> (r: (ContainerCreateBody, CreateContainerOptions))
    ensures
        r.0@ == sandbox_profile(
            run_id@,
            image_tag@,
            command@,
            stdin,
            timeout,
            mem_limit_mb,
            cpu_limit_millis,
        ),
        r.1.name@ == run_id@,
{
    let mut cmd: Vec<String> = Vec::new();
    cmd.push("timeout".to_owned());
    cmd.push(concat2(u64_to_decimal(timeout as u64).as_str(), "s"));
    cmd.push("sh".to_owned());
    cmd.push("-c".to_owned());
    cmd.push(command.to_owned());
    assert(texts(cmd@) =~= run_command(timeout, command@));

    let mut env: Vec<String> = Vec::new();
    env.push("HOME=/tmp/home".to_owned());
    assert(texts(env@) =~= seq!["HOME=/tmp/home"@]);

    let mut labels: Vec<(String, String)> = Vec::new();
    labels.push((ID_LABEL.to_owned(), run_id.to_owned()));
    assert(pair_texts(labels@) =~= seq![(ID_LABEL@, run_id@)]);

    let mut tmpfs: Vec<(String, String)> = Vec::new();
    tmpfs.push(("/tmp".to_owned(), "rw,noexec,nosuid,nodev,size=100m".to_owned()));
    assert(pair_texts(tmpfs@) =~= seq![("/tmp"@, tmpfs_options())]);

    let mut ulimits: Vec<ResourcesUlimits> = Vec::new();
    ulimits.push(ResourcesUlimits { name: "nproc".to_owned(), soft: 50, hard: 50 });
    assert(ulimits@.map_values(|u: ResourcesUlimits| (u.name@, u.soft as int, u.hard as int))
        =~= seq![("nproc"@, 50int, 50int)]);

    let mut cap_drop: Vec<String> = Vec::new();
    cap_drop.push("ALL".to_owned());
    assert(texts(cap_drop@) =~= seq!["ALL"@]);

    let mut security_opt: Vec<String> = Vec::new();
    security_opt.push("no-new-privileges".to_owned());
    assert(texts(security_opt@) =~= seq!["no-new-privileges"@]);

    let memory: i64 = (mem_limit_mb as i64) * 1048576;
    let nano_cpus: i64 = (cpu_limit_millis as i64) * 1000000;

    let body = ContainerCreateBody {
        image: image_tag.to_owned(),
        cmd,
        env,
        network_disabled: true,
        open_stdin: stdin,
        stdin_once: stdin,
        labels,
        host_config: HostConfig {
            readonly_rootfs: true,
            tmpfs,
            memory,
            nano_cpus,
            pids_limit: 50,
            ulimits,
            cap_drop,
            security_opt,
            ipc_mode: "private".to_owned(),
            cgroupns_mode: HostConfigCgroupnsModeEnum::Private,
        },
    };
    let options = CreateContainerOptions { name: run_id.to_owned() };
    (body, options)
}

/// Every container created under the profile is cut off from the network and
/// from the host: no network, read-only root filesystem, the exact tmpfs on
/// `/tmp`, the memory cap in bytes, all capabilities dropped, at most 50
/// processes, no new privileges, private IPC and cgroup namespaces.
pub proof fn lemma_sandbox_is_isolated(
    run_id: Seq<char>,
    image_tag: Seq<char>,
    command: Seq<char>,
    stdin: bool,
    timeout: u32,
    mem_limit_mb: u32,
    cpu_limit_millis: u32,
)
    ensures
        ({
            let c = sandbox_profile(
                run_id,
                image_tag,
                command,
                stdin,
                timeout,
                mem_limit_mb,
                cpu_limit_millis,
            );
            &&& c.network_disabled
            &&& c.readonly_rootfs
            &&& c.tmpfs == seq![("/tmp"@, "rw,noexec,nosuid,nodev,size=100m"@)]
            &&& c.memory == mem_limit_mb * 1048576
            &&& c.cap_drop.contains("ALL"@)
            &&& c.pids_limit == 50
            &&& c.security_opt.contains("no-new-privileges"@)
            &&& c.ipc_mode == "private"@
            &&& c.cgroupns_mode == HostConfigCgroupnsModeEnum::Private
            &&& c.open_stdin == stdin
            &&& c.stdin_once == stdin
            &&& c.image == image_tag
            &&& c.labels == seq![("tinirun-id"@, run_id)]
        }),
{
    let c = sandbox_profile(
        run_id,
        image_tag,
        command,
        stdin,
        timeout,
        mem_limit_mb,
        cpu_limit_millis,
    );
    assert(c.cap_drop[0] == "ALL"@);
    assert(c.security_opt[0] == "no-new-privileges"@);
}

} // verus!
