//! Background service management across init systems: which init system
//! handles a request, and the plan of outside work for each operation.

pub mod launchd;
pub mod openrc;
pub mod plan;
pub mod systemd;
pub mod windows;

use vstd::prelude::*;
use crate::text::{lit, opt_view};
use crate::service::plan::{react, EventView, Plan, PlanView, Reaction, StepView};

verus! {

/// The init systems the agent can register itself with.
#[derive(Clone, Copy, Debug, PartialEq, Eq, Structural)]
pub enum InitManager {
    Auto,
    Launchd,
    Systemd,
    Openrc,
    Windows,
}

/// The operating system the agent runs on.
#[derive(Clone, Copy, Debug, PartialEq, Eq, Structural)]
pub enum Platform {
    MacOs,
    Windows,
    Linux,
    /// Another Unix system.
    OtherUnix,
    /// Neither Unix nor Windows.
    Other,
}

pub open spec fn is_unix(platform: Platform) -> bool {
    platform == Platform::MacOs || platform == Platform::Linux || platform == Platform::OtherUnix
}

pub fn platform_is_unix(platform: Platform) -> (b: bool)
    ensures
        b == is_unix(platform),
{
    match platform {
        Platform::MacOs | Platform::Linux | Platform::OtherUnix => true,
        _ => false,
    }
}

pub open spec fn spec_platform(os: Seq<char>, unix_family: bool) -> Platform {
    if os == "macos"@ {
        Platform::MacOs
    } else if os == "windows"@ {
        Platform::Windows
    } else if os == "linux"@ {
        Platform::Linux
    } else if unix_family {
        Platform::OtherUnix
    } else {
        Platform::Other
    }
}

/// The platform named by Rust's operating-system name (`std::env::consts::OS`)
/// and whether the target belongs to the Unix family.
pub fn platform_from_os(os: &str, unix_family: bool) -> (p: Platform)
    ensures
        p == spec_platform(os@, unix_family),
{
    let name = lit(os);
    if name == lit("macos") {
        Platform::MacOs
    } else if name == lit("windows") {
        Platform::Windows
    } else if name == lit("linux") {
        Platform::Linux
    } else if unix_family {
        Platform::OtherUnix
    } else {
        Platform::Other
    }
}

/// What the machine told the caller before an operation is planned.
#[derive(Clone, Debug, PartialEq, Eq)]
pub struct ServiceEnv {
    pub platform: Platform,
    /// Whether OpenRC looks present (see `openrc::is_openrc_available`).
    pub openrc_available: bool,
    /// Whether the agent runs as root (see `systemd::is_root_output`).
    pub is_root: bool,
    /// The user's home directory, if one is known.
    pub home: Option<String>,
}

pub open spec fn spec_detect_manager(platform: Platform, openrc_available: bool) -> InitManager {
    match platform {
        Platform::MacOs => InitManager::Launchd,
        Platform::Windows => InitManager::Windows,
        Platform::Linux => if openrc_available {
            InitManager::Openrc
        } else {
            InitManager::Systemd
        },
        _ => InitManager::Systemd,
    }
}

/// The init system of this machine: launchd on macOS, the Windows task
/// scheduler on Windows, OpenRC on Linux where it is present and systemd
/// otherwise.
pub fn detect_manager(platform: Platform, openrc_available: bool) -> (m: InitManager)
    ensures
        m == spec_detect_manager(platform, openrc_available),
        m != InitManager::Auto,
{
    match platform {
        Platform::MacOs => InitManager::Launchd,
        Platform::Windows => InitManager::Windows,
        Platform::Linux => if openrc_available {
            InitManager::Openrc
        } else {
            InitManager::Systemd
        },
        _ => InitManager::Systemd,
    }
}

pub open spec fn spec_resolve_manager(
    manager: InitManager,
    platform: Platform,
    openrc_available: bool,
) -> InitManager {
    if manager == InitManager::Auto {
        spec_detect_manager(platform, openrc_available)
    } else {
        manager
    }
}

/// The requested init system, or the detected one for `Auto`. Never `Auto`.
pub fn resolve_manager(manager: InitManager, platform: Platform, openrc_available: bool) -> (m:
    InitManager)
    ensures
        m == spec_resolve_manager(manager, platform, openrc_available),
        m != InitManager::Auto,
{
    if manager == InitManager::Auto {
        detect_manager(platform, openrc_available)
    } else {
        manager
    }
}

/// The name under which a manager is shown to the user.
pub fn manager_name(m: InitManager) -> (name: &'static str)
    ensures
        name@ == spec_manager_name(m),
{
    match m {
        InitManager::Auto => "Auto",
        InitManager::Launchd => "Launchd",
        InitManager::Systemd => "Systemd",
        InitManager::Openrc => "Openrc",
        InitManager::Windows => "Windows",
    }
}

pub open spec fn spec_manager_name(m: InitManager) -> Seq<char> {
    match m {
        InitManager::Auto => "Auto"@,
        InitManager::Launchd => "Launchd"@,
        InitManager::Systemd => "Systemd"@,
        InitManager::Openrc => "Openrc"@,
        InitManager::Windows => "Windows"@,
    }
}


/// The operations the agent offers on its background service.
#[derive(Clone, Copy, Debug, PartialEq, Eq, Structural)]
pub enum ServiceOp {
    Install,
    Start,
    Stop,
    Status,
    Uninstall,
}

/// The plan that init system `m` carries out for `op`.
pub open spec fn backend_plan(
    m: InitManager,
    op: ServiceOp,
    env: ServiceEnv,
    binary: Option<Seq<char>>,
) -> PlanView {
    let home = opt_view(env.home);
    match m {
        InitManager::Launchd => match op {
            ServiceOp::Install => launchd::spec_install(home, binary),
            ServiceOp::Start => launchd::spec_start(home),
            ServiceOp::Stop => launchd::spec_stop(home),
            ServiceOp::Status => launchd::spec_status(),
            ServiceOp::Uninstall => launchd::spec_uninstall(home),
        },
        InitManager::Systemd => match op {
            ServiceOp::Install => systemd::spec_install(env.is_root, home, env.platform, binary),
            ServiceOp::Start => systemd::spec_control(
                env.platform,
                env.is_root,
                "start"@,
                "systemctl start failed: "@,
                "Service started."@,
            ),
            ServiceOp::Stop => systemd::spec_control(
                env.platform,
                env.is_root,
                "stop"@,
                "systemctl stop failed: "@,
                "Service stopped."@,
            ),
            ServiceOp::Status => systemd::spec_status(env.platform, env.is_root),
            ServiceOp::Uninstall => systemd::spec_uninstall(env.platform, env.is_root, home),
        },
        InitManager::Openrc => match op {
            ServiceOp::Install => openrc::spec_install(env.platform, binary),
            ServiceOp::Start => openrc::spec_control(
                env.platform,
                "start"@,
                "rc-service start failed: "@,
                "Service started."@,
            ),
            ServiceOp::Stop => openrc::spec_control(
                env.platform,
                "stop"@,
                "rc-service stop failed: "@,
                "Service stopped."@,
            ),
            ServiceOp::Status => openrc::spec_status(env.platform),
            ServiceOp::Uninstall => openrc::spec_uninstall(env.platform),
        },
        _ => match op {
            ServiceOp::Install => windows::spec_install(binary),
            ServiceOp::Start => windows::spec_control(
                "/Run"@,
                "Failed to run task: "@,
                "Service started."@,
            ),
            ServiceOp::Stop => windows::spec_control(
                "/End"@,
                "Failed to stop task: "@,
                "Service stopped."@,
            ),
            ServiceOp::Status => windows::spec_status(),
            ServiceOp::Uninstall => windows::spec_uninstall(),
        },
    }
}

/// The plan for `op` under the init system that `manager` resolves to.
pub open spec fn spec_plan(
    manager: InitManager,
    op: ServiceOp,
    env: ServiceEnv,
    binary: Option<Seq<char>>,
) -> PlanView {
    backend_plan(spec_resolve_manager(manager, env.platform, env.openrc_available), op, env, binary)
}

fn plan_for(m: InitManager, op: ServiceOp, env: &ServiceEnv, binary: &Option<String>) -> (p: Plan)
    requires
        m != InitManager::Auto,
    ensures
        p@ == backend_plan(m, op, *env, opt_view(*binary)),
{
    match m {
        InitManager::Launchd => match op {
            ServiceOp::Install => launchd::install(&env.home, binary),
            ServiceOp::Start => launchd::start(&env.home),
            ServiceOp::Stop => launchd::stop(&env.home),
            ServiceOp::Status => launchd::status(),
            ServiceOp::Uninstall => launchd::uninstall(&env.home),
        },
        InitManager::Systemd => match op {
            ServiceOp::Install => systemd::install(env, binary),
            ServiceOp::Start => systemd::start(env),
            ServiceOp::Stop => systemd::stop(env),
            ServiceOp::Status => systemd::status(env),
            ServiceOp::Uninstall => systemd::uninstall(env),
        },
        InitManager::Openrc => match op {
            ServiceOp::Install => openrc::install(env.platform, binary),
            ServiceOp::Start => openrc::start(env.platform),
            ServiceOp::Stop => openrc::stop(env.platform),
            ServiceOp::Status => openrc::status(env.platform),
            ServiceOp::Uninstall => openrc::uninstall(env.platform),
        },
        _ => match op {
            ServiceOp::Install => windows::install(binary),
            ServiceOp::Start => windows::start(),
            ServiceOp::Stop => windows::stop(),
            ServiceOp::Status => windows::status(),
            ServiceOp::Uninstall => windows::uninstall(),
        },
    }
}

/// Installs and enables the background service for `binary` (absent when the
/// executable's path is not valid text) with the chosen or detected init system.
pub fn install(manager: InitManager, env: &ServiceEnv, binary: &Option<String>) -> (p: Plan)
    ensures
        p@ == spec_plan(manager, ServiceOp::Install, *env, opt_view(*binary)),
{
    let m = resolve_manager(manager, env.platform, env.openrc_available);
    plan_for(m, ServiceOp::Install, env, binary)
}

/// Starts the background service.
pub fn start(manager: InitManager, env: &ServiceEnv) -> (p: Plan)
    ensures
        p@ == spec_plan(manager, ServiceOp::Start, *env, None),
{
    let m = resolve_manager(manager, env.platform, env.openrc_available);
    plan_for(m, ServiceOp::Start, env, &None)
}

/// Stops the background service.
pub fn stop(manager: InitManager, env: &ServiceEnv) -> (p: Plan)
    ensures
        p@ == spec_plan(manager, ServiceOp::Stop, *env, None),
{
    let m = resolve_manager(manager, env.platform, env.openrc_available);
    plan_for(m, ServiceOp::Stop, env, &None)
}

/// Reports the state of the background service.
pub fn status(manager: InitManager, env: &ServiceEnv) -> (p: Plan)
    ensures
        p@ == spec_plan(manager, ServiceOp::Status, *env, None),
{
    let m = resolve_manager(manager, env.platform, env.openrc_available);
    plan_for(m, ServiceOp::Status, env, &None)
}

/// Removes the background service.
pub fn uninstall(manager: InitManager, env: &ServiceEnv) -> (p: Plan)
    ensures
        p@ == spec_plan(manager, ServiceOp::Uninstall, *env, None),
{
    let m = resolve_manager(manager, env.platform, env.openrc_available);
    plan_for(m, ServiceOp::Uninstall, env, &None)
}

/// A status request always consists of a single step, and once that step's
/// command has run the request ends successfully with a report, whatever the
/// command's exit status and output; it can only fail because the command
/// could not be run or the init system is not supported on this platform.
pub proof fn lemma_status_reports_once_run(manager: InitManager, env: ServiceEnv)
    ensures
        ({
            let p = spec_plan(manager, ServiceOp::Status, env, None);
            &&& p.steps.len() == 1
            &&& (p.steps[0] is Fail || (p.steps[0] is Run && forall|success: bool, out: Seq<char>, err: Seq<char>|
                #[trigger] react(p.steps[0], EventView::Ran(Ok((success, out, err)))) matches Reaction::Finish(Ok(_))))
        }),
{
}


/// Uninstalling removes every file that installing writes: for each init
/// system, the file an install plan writes is the file the uninstall plan
/// (with the same machine facts) removes.
pub proof fn lemma_uninstall_removes_installed_files(
    manager: InitManager,
    env: ServiceEnv,
    binary: Seq<char>,
)
    ensures
        ({
            let i = spec_plan(manager, ServiceOp::Install, env, Some(binary));
            let u = spec_plan(manager, ServiceOp::Uninstall, env, None);
            forall|k: int|
                0 <= k < i.steps.len() && #[trigger] i.steps[k] is WriteFile ==> exists|j: int|
                    0 <= j < u.steps.len() && u.steps[j] == StepView::Remove(i.steps[k]->WriteFile_path)
        }),
{
    let m = spec_resolve_manager(manager, env.platform, env.openrc_available);
    let i = spec_plan(manager, ServiceOp::Install, env, Some(binary));
    let u = spec_plan(manager, ServiceOp::Uninstall, env, None);
    let home = opt_view(env.home);
    assert forall|k: int|
        0 <= k < i.steps.len() && #[trigger] i.steps[k] is WriteFile implies exists|j: int|
            0 <= j < u.steps.len() && u.steps[j] == StepView::Remove(i.steps[k]->WriteFile_path) by {
        match m {
            InitManager::Launchd => {
                let h = home->0;
                assert(i.steps[k] == i.steps[2]);
                assert(u.steps[3] == StepView::Remove(launchd::plist_path(h)));
            },
            InitManager::Systemd => {
                let dirs = systemd::unit_dir_steps(env.is_root, home);
                assert(k == dirs.len());
                let path = systemd::spec_unit_path(env.is_root, home)->Ok_0;
                assert(u.steps[2 + dirs.len() as int + 1] == StepView::Remove(path));
            },
            InitManager::Openrc => {
                assert(k == 0);
                assert(u.steps[3] == StepView::Remove(openrc::INIT_SCRIPT_PATH@));
            },
            _ => {},
        }
    }
}

} // verus!
