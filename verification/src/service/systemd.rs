//! systemd: a unit file, system-wide when running as root and per user
//! otherwise, driven through `systemctl`.

use vstd::prelude::*;
use crate::service::{is_unix, platform_is_unix, Platform, ServiceEnv};
use crate::text::opt_view;
use crate::service::plan::{
    CommandLine, CommandLineView, EventView, Inactive, InactiveView, OnExecError, OnExecErrorView,
    OnStatus, OnStatusView, Plan, PlanView, Reaction, Step, StepView, fits, react, strings_view, words,
};
use crate::text::{cat, join_path, join_path_seq, lit, trim, trim_seq};

verus! {

pub const SERVICE_NAME: &'static str = "sys-stats";

pub const UNSUPPORTED: &'static str = "systemd is not supported on this platform.";

pub const EXEC_FAILED: &'static str = "Failed to execute systemctl: ";

/// Whether the output of `id -u` (absent when the command could not run)
/// says that the agent runs as root.
pub fn is_root_output(id_output: &Option<String>) -> (b: bool)
    ensures
        b == (id_output matches Some(out) && trim_seq(out@) == "0"@),
{
    match id_output {
        Some(out) => trim(out.as_str()) == lit("0"),
        None => false,
    }
}

pub open spec fn systemctl_view(is_root: bool, args: Seq<Seq<char>>) -> CommandLineView {
    CommandLineView {
        program: "systemctl"@,
        args: if is_root {
            args
        } else {
            seq!["--user"@] + args
        },
    }
}

/// `systemctl` with `args`, for the user's own manager unless running as root.
pub fn systemctl(is_root: bool, args: Vec<String>) -> (c: CommandLine)
    ensures
        c@ == systemctl_view(is_root, strings_view(args@)),
{
    let mut args = args;
    let ghost before = args@;
    if !is_root {
        args.insert(0, lit("--user"));
        assert(strings_view(args@) =~= seq!["--user"@] + strings_view(before));
    }
    CommandLine { program: lit("systemctl"), args }
}

/// The directory of per-user units under `home`; systemd runs on Unix hosts
/// only, so the path is joined with Unix separators.
pub open spec fn user_unit_dir(home: Seq<char>) -> Seq<char> {
    join_path_seq(join_path_seq(join_path_seq(home, ".config"@, false), "systemd"@, false), "user"@, false)
}

pub open spec fn spec_unit_path(is_root: bool, home: Option<Seq<char>>) -> Result<
    Seq<char>,
    Seq<char>,
> {
    if is_root {
        Ok("/etc/systemd/system/sys-stats.service"@)
    } else {
        match home {
            Some(h) => Ok(join_path_seq(user_unit_dir(h), "sys-stats.service"@, false)),
            None => Err("Could not find user home directory"@),
        }
    }
}

/// Where the unit file lives: system-wide for root, under the user's
/// configuration directory otherwise.
pub fn get_unit_path(is_root: bool, home: &Option<String>) -> (res: Result<String, String>)
    ensures
        match (res, spec_unit_path(is_root, opt_view(*home))) {
            (Ok(p), Ok(q)) => p@ == q,
            (Err(e), Err(f)) => e@ == f,
            _ => false,
        },
{
    if is_root {
        Ok(lit("/etc/systemd/system/sys-stats.service"))
    } else {
        match home {
            Some(h) => {
                let dir = user_dir(h);
                Ok(join_path(dir.as_str(), "sys-stats.service", false))
            },
            None => Err(lit("Could not find user home directory")),
        }
    }
}

fn user_dir(home: &String) -> (d: String)
    ensures
        d@ == user_unit_dir(home@),
{
    let a = join_path(home.as_str(), ".config", false);
    let b = join_path(a.as_str(), "systemd", false);
    join_path(b.as_str(), "user", false)
}

/// The steps that locate the unit file: creating the per-user directory.
pub open spec fn unit_dir_steps(is_root: bool, home: Option<Seq<char>>) -> Seq<StepView> {
    match home {
        Some(h) if !is_root => seq![StepView::MakeDirs(user_unit_dir(h))],
        _ => seq![],
    }
}

fn unit_dir_steps_exec(is_root: bool, home: &Option<String>) -> (steps: Vec<Step>)
    ensures
        steps@.map_values(|s: Step| s@) == unit_dir_steps(is_root, opt_view(*home)),
{
    let mut steps: Vec<Step> = Vec::new();
    if !is_root {
        if let Some(h) = home {
            steps.push(Step::MakeDirs(user_dir(h)));
        }
    }
    assert(steps@.map_values(|s: Step| s@) =~= unit_dir_steps(is_root, opt_view(*home)));
    steps
}

pub open spec fn spec_unit_contents(binary: Seq<char>, is_root: bool) -> Seq<char> {
    "[Unit]\nDescription=SysStats Telemetry Agent\nAfter=network.target\n\n[Service]\nType=simple\nExecStart="@
        + binary + " run\nRestart=always\nRestartSec=5\n\n[Install]\nWantedBy="@ + (if is_root {
        "multi-user.target"@
    } else {
        "default.target"@
    }) + "\n"@
}

/// The unit file that runs `binary run`, wanted by the multi-user target
/// for root and by the default target otherwise.
pub fn unit_contents(binary: &str, is_root: bool) -> (s: String)
    ensures
        s@ == spec_unit_contents(binary@, is_root),
{
    let head = cat(
        "[Unit]\nDescription=SysStats Telemetry Agent\nAfter=network.target\n\n[Service]\nType=simple\nExecStart=",
        binary,
    );
    let wanted = if is_root {
        "multi-user.target"
    } else {
        "default.target"
    };
    head.concat(" run\nRestart=always\nRestartSec=5\n\n[Install]\nWantedBy=").concat(wanted).concat(
        "\n",
    )
}

fn reload_args() -> (v: Vec<String>)
    ensures
        strings_view(v@) == seq!["daemon-reload"@],
{
    let v = words(vec!["daemon-reload"]);
    assert(seq!["daemon-reload"].map_values(|s: &str| s@) =~= seq!["daemon-reload"@]);
    v
}

fn enable_args() -> (v: Vec<String>)
    ensures
        strings_view(v@) == seq!["enable"@, "--now"@, SERVICE_NAME@],
{
    let v = words(vec!["enable", "--now", SERVICE_NAME]);
    assert(seq!["enable", "--now", SERVICE_NAME].map_values(|s: &str| s@) =~= seq!["enable"@, "--now"@, SERVICE_NAME@]);
    v
}

pub open spec fn unsupported_plan() -> PlanView {
    PlanView { steps: seq![StepView::Fail(UNSUPPORTED@)], done_messages: seq![] }
}

fn fail_plan(msg: String) -> (p: Plan)
    ensures
        p@ == (PlanView { steps: seq![StepView::Fail(msg@)], done_messages: seq![] }),
{
    let p = Plan { steps: vec![Step::Fail(msg)], done_messages: Vec::new() };
    assert(p@.steps =~= seq![StepView::Fail(msg@)]);
    assert(p@.done_messages =~= seq![]);
    p
}

pub open spec fn control_step(is_root: bool, args: Seq<Seq<char>>, on_status: OnStatusView) -> StepView {
    StepView::Run {
        command: systemctl_view(is_root, args),
        on_error: OnExecErrorView::Fail(EXEC_FAILED@),
        on_status,
    }
}

pub open spec fn quiet_step(is_root: bool, args: Seq<Seq<char>>) -> StepView {
    StepView::Run {
        command: systemctl_view(is_root, args),
        on_error: OnExecErrorView::Ignore,
        on_status: OnStatusView::Ignore,
    }
}

pub open spec fn spec_install(env_root: bool, home: Option<Seq<char>>, platform: Platform, binary: Option<Seq<char>>) -> PlanView {
    if !is_unix(platform) {
        unsupported_plan()
    } else {
        match spec_unit_path(env_root, home) {
            Err(e) => PlanView { steps: seq![StepView::Fail(e)], done_messages: seq![] },
            Ok(path) => match binary {
                None => PlanView {
                    steps: unit_dir_steps(env_root, home) + seq![StepView::Fail("Invalid binary path"@)],
                    done_messages: seq![],
                },
                Some(b) => PlanView {
                    steps: unit_dir_steps(env_root, home) + seq![
                        StepView::WriteFile {
                            path,
                            contents: spec_unit_contents(b, env_root),
                            err_prefix: ""@,
                        },
                        control_step(env_root, seq!["daemon-reload"@], OnStatusView::Ignore),
                        control_step(
                            env_root,
                            seq!["enable"@, "--now"@, SERVICE_NAME@],
                            OnStatusView::Ignore,
                        ),
                    ],
                    done_messages: seq![
                        "systemd unit registered at "@ + path,
                        "Service enabled and started."@,
                    ],
                },
            },
        }
    }
}

/// Installs the unit for `binary` (absent when the executable's path is not
/// valid text), reloads systemd and enables the service at once.
pub fn install(env: &ServiceEnv, binary: &Option<String>) -> (p: Plan)
    ensures
        p@ == spec_install(env.is_root, opt_view(env.home), env.platform, opt_view(*binary)),
{
    if !platform_is_unix(env.platform) {
        return fail_plan(lit(UNSUPPORTED));
    }
    let path = match get_unit_path(env.is_root, &env.home) {
        Err(e) => return fail_plan(e),
        Ok(p) => p,
    };
    let mut steps = unit_dir_steps_exec(env.is_root, &env.home);
    let ghost dirs = steps@.map_values(|s: Step| s@);
    match binary {
        None => {
            steps.push(Step::Fail(lit("Invalid binary path")));
            let p = Plan { steps, done_messages: Vec::new() };
            assert(p@.steps =~= dirs + seq![StepView::Fail("Invalid binary path"@)]);
            assert(p@.done_messages =~= seq![]);
            p
        },
        Some(b) => {
            steps.push(
                Step::WriteFile {
                    path: path.clone(),
                    contents: unit_contents(b.as_str(), env.is_root),
                    err_prefix: lit(""),
                },
            );
            steps.push(
                Step::Run {
                    command: systemctl(env.is_root, reload_args()),
                    on_error: OnExecError::Fail(lit(EXEC_FAILED)),
                    on_status: OnStatus::Ignore,
                },
            );
            steps.push(
                Step::Run {
                    command: systemctl(env.is_root, enable_args()),
                    on_error: OnExecError::Fail(lit(EXEC_FAILED)),
                    on_status: OnStatus::Ignore,
                },
            );
            let done = vec![cat("systemd unit registered at ", path.as_str()), lit("Service enabled and started.")];
            let p = Plan { steps, done_messages: done };
            assert(p@.steps =~= spec_install(env.is_root, opt_view(env.home), env.platform, opt_view(*binary)).steps);
            assert(p@.done_messages =~= spec_install(env.is_root, opt_view(env.home), env.platform, opt_view(*binary)).done_messages);
            p
        },
    }
}


fn unit_args(verb: &str) -> (v: Vec<String>)
    ensures
        strings_view(v@) == seq![verb@, SERVICE_NAME@],
{
    let v = words(vec![verb, SERVICE_NAME]);
    assert(seq![verb, SERVICE_NAME].map_values(|s: &str| s@) =~= seq![verb@, SERVICE_NAME@]);
    v
}

pub open spec fn spec_control(platform: Platform, is_root: bool, verb: Seq<char>, failed: Seq<char>, done: Seq<char>) -> PlanView {
    if !is_unix(platform) {
        unsupported_plan()
    } else {
        PlanView {
            steps: seq![control_step(is_root, seq![verb, SERVICE_NAME@], OnStatusView::FailWithStderr(failed))],
            done_messages: seq![done],
        }
    }
}

fn control(env: &ServiceEnv, verb: &str, failed: &str, done: &str) -> (p: Plan)
    ensures
        p@ == spec_control(env.platform, env.is_root, verb@, failed@, done@),
{
    if !platform_is_unix(env.platform) {
        return fail_plan(lit(UNSUPPORTED));
    }
    let p = Plan {
        steps: vec![
            Step::Run {
                command: systemctl(env.is_root, unit_args(verb)),
                on_error: OnExecError::Fail(lit(EXEC_FAILED)),
                on_status: OnStatus::FailWithStderr(lit(failed)),
            },
        ],
        done_messages: vec![lit(done)],
    };
    assert(p@.steps =~= spec_control(env.platform, env.is_root, verb@, failed@, done@).steps);
    assert(p@.done_messages =~= seq![done@]);
    p
}

/// Starts the service; a failed `systemctl start` is reported with its stderr.
pub fn start(env: &ServiceEnv) -> (p: Plan)
    ensures
        p@ == spec_control(env.platform, env.is_root, "start"@, "systemctl start failed: "@, "Service started."@),
{
    control(env, "start", "systemctl start failed: ", "Service started.")
}

/// Stops the service; a failed `systemctl stop` is reported with its stderr.
pub fn stop(env: &ServiceEnv) -> (p: Plan)
    ensures
        p@ == spec_control(env.platform, env.is_root, "stop"@, "systemctl stop failed: "@, "Service stopped."@),
{
    control(env, "stop", "systemctl stop failed: ", "Service stopped.")
}

pub open spec fn spec_status(platform: Platform, is_root: bool) -> PlanView {
    if !is_unix(platform) {
        unsupported_plan()
    } else {
        PlanView {
            steps: seq![
                control_step(
                    is_root,
                    seq!["status"@, SERVICE_NAME@],
                    OnStatusView::Report {
                        active: "Active (systemd)\n"@,
                        inactive: InactiveView::WithOutput("Inactive / Error\n"@),
                    },
                ),
            ],
            done_messages: seq![],
        }
    }
}

/// Reports the service's state: "Active (systemd)" and the status output when
/// `systemctl status` succeeds, "Inactive / Error" with its output otherwise.
pub fn status(env: &ServiceEnv) -> (p: Plan)
    ensures
        p@ == spec_status(env.platform, env.is_root),
{
    if !platform_is_unix(env.platform) {
        return fail_plan(lit(UNSUPPORTED));
    }
    let p = Plan {
        steps: vec![
            Step::Run {
                command: systemctl(env.is_root, unit_args("status")),
                on_error: OnExecError::Fail(lit(EXEC_FAILED)),
                on_status: OnStatus::Report {
                    active: lit("Active (systemd)\n"),
                    inactive: Inactive::WithOutput(lit("Inactive / Error\n")),
                },
            },
        ],
        done_messages: Vec::new(),
    };
    assert(p@.steps =~= spec_status(env.platform, env.is_root).steps);
    assert(p@.done_messages =~= seq![]);
    p
}

pub open spec fn spec_uninstall(platform: Platform, is_root: bool, home: Option<Seq<char>>) -> PlanView {
    if !is_unix(platform) {
        unsupported_plan()
    } else {
        let stops = seq![
            quiet_step(is_root, seq!["stop"@, SERVICE_NAME@]),
            quiet_step(is_root, seq!["disable"@, SERVICE_NAME@]),
        ];
        match spec_unit_path(is_root, home) {
            Err(e) => PlanView { steps: stops + seq![StepView::Fail(e)], done_messages: seq![] },
            Ok(path) => PlanView {
                steps: stops + unit_dir_steps(is_root, home) + seq![
                    StepView::IfExists { path, absent: "Service is not installed."@ },
                    StepView::Remove(path),
                    quiet_step(is_root, seq!["daemon-reload"@]),
                ],
                done_messages: seq!["Service removed: "@ + path],
            },
        }
    }
}

/// The unit file starts `binary run` and has systemd restart it whenever it
/// stops: its `ExecStart=` line runs the binary with `run`, followed at once by
/// `Restart=always`; and it is wanted by the multi-user target for root and
/// by the default target otherwise.
pub proof fn lemma_unit_runs_binary_and_restarts(binary: Seq<char>, is_root: bool)
    ensures
        ({
            let s = spec_unit_contents(binary, is_root);
            let exec = "ExecStart="@ + binary + " run\nRestart=always\n"@;
            let wanted = "WantedBy="@ + (if is_root {
                "multi-user.target\n"@
            } else {
                "default.target\n"@
            });
            &&& exists|i: int| 0 <= i && i + exec.len() <= s.len() && #[trigger] s.subrange(i, i + exec.len()) == exec
            &&& wanted.len() <= s.len()
            &&& s.subrange(s.len() - wanted.len(), s.len() as int) == wanted
        }),
{
    reveal_strlit("[Unit]\nDescription=SysStats Telemetry Agent\nAfter=network.target\n\n[Service]\nType=simple\nExecStart=");
    reveal_strlit("ExecStart=");
    reveal_strlit(" run\nRestart=always\nRestartSec=5\n\n[Install]\nWantedBy=");
    reveal_strlit(" run\nRestart=always\n");
    reveal_strlit("WantedBy=");
    reveal_strlit("multi-user.target");
    reveal_strlit("default.target");
    reveal_strlit("multi-user.target\n");
    reveal_strlit("default.target\n");
    reveal_strlit("\n");
    let head = "[Unit]\nDescription=SysStats Telemetry Agent\nAfter=network.target\n\n[Service]\nType=simple\nExecStart="@;
    let mid = " run\nRestart=always\nRestartSec=5\n\n[Install]\nWantedBy="@;
    let target = if is_root {
        "multi-user.target"@
    } else {
        "default.target"@
    };
    let s = spec_unit_contents(binary, is_root);
    assert(s == head + binary + mid + target + "\n"@);
    let exec = "ExecStart="@ + binary + " run\nRestart=always\n"@;
    let i = head.len() - 10;
    assert(s.subrange(i, i + exec.len()) =~= exec);
    let wanted = "WantedBy="@ + (if is_root {
        "multi-user.target\n"@
    } else {
        "default.target\n"@
    });
    assert(s.subrange(s.len() - wanted.len(), s.len() as int) =~= wanted);
}

/// Uninstalling first stops the very service that installing enables and
/// starts, before anything is removed.
pub proof fn lemma_uninstall_stops_installed_service(
    platform: Platform,
    is_root: bool,
    home: Option<Seq<char>>,
    binary: Seq<char>,
)
    requires
        is_unix(platform),
        spec_unit_path(is_root, home) is Ok,
    ensures
        ({
            let i = spec_install(is_root, home, platform, Some(binary));
            let u = spec_uninstall(platform, is_root, home);
            let e = i.steps[i.steps.len() - 1];
            &&& e matches StepView::Run { command, .. } && command == systemctl_view(
                is_root,
                seq!["enable"@, "--now"@, SERVICE_NAME@],
            )
            &&& u.steps[0] matches StepView::Run { command, .. } && command == systemctl_view(
                is_root,
                seq!["stop"@, SERVICE_NAME@],
            )
        }),
{
    let i = spec_install(is_root, home, platform, Some(binary));
    let args = seq!["enable"@, "--now"@, SERVICE_NAME@];
    assert(i.steps[i.steps.len() - 1] == control_step(is_root, args, OnStatusView::Ignore));
    let u = spec_uninstall(platform, is_root, home);
    assert(u.steps[0] == quiet_step(is_root, seq!["stop"@, SERVICE_NAME@]));
}

/// Uninstalling when the unit file is already gone is harmless, so a second
/// uninstall succeeds and changes nothing: every step before the existence
/// check only continues the run, whatever its outcome (so the run reaches the
/// check with no notes, having written and removed nothing); a missing file
/// ends the run with success and the note "Service is not installed."; and
/// the removal of the file is the only step whose outcome can fail the run.
pub proof fn lemma_uninstall_absent_unit_is_harmless(
    platform: Platform,
    is_root: bool,
    home: Option<Seq<char>>,
)
    requires
        is_unix(platform),
        spec_unit_path(is_root, home) is Ok,
    ensures
        ({
            let u = spec_uninstall(platform, is_root, home);
            let c: int = 2 + unit_dir_steps(is_root, home).len() as int;
            let path = spec_unit_path(is_root, home)->Ok_0;
            &&& c + 3 == u.steps.len()
            &&& u.steps[c] == StepView::IfExists { path, absent: "Service is not installed."@ }
            &&& u.steps[c + 1] == StepView::Remove(path)
            &&& forall|k: int| 0 <= k < c ==> !(#[trigger] u.steps[k] is Remove) && !(u.steps[k] is WriteFile)
            &&& forall|k: int, e: EventView|
                0 <= k < c && fits(u.steps[k], e) ==> #[trigger] react(u.steps[k], e) == Reaction::Continue
            &&& react(u.steps[c], EventView::Exists(false)) == Reaction::Absent("Service is not installed."@)
            &&& forall|k: int, e: EventView|
                0 <= k < u.steps.len() && k != c + 1 && fits(u.steps[k], e) ==> !(#[trigger] react(
                    u.steps[k],
                    e,
                ) matches Reaction::Finish(Err(_)))
        }),
{
    let u = spec_uninstall(platform, is_root, home);
    let c: int = 2 + unit_dir_steps(is_root, home).len() as int;
    assert forall|k: int, e: EventView|
        0 <= k < u.steps.len() && k != c + 1 && fits(u.steps[k], e) implies !(#[trigger] react(
            u.steps[k],
            e,
        ) matches Reaction::Finish(Err(_))) by {
        if k >= 2 && k < c {
            assert(u.steps[k] == unit_dir_steps(is_root, home)[k - 2]);
        }
    }
    assert forall|k: int, e: EventView|
        0 <= k < c && fits(u.steps[k], e) implies #[trigger] react(u.steps[k], e) == Reaction::Continue by {
        if k >= 2 {
            assert(u.steps[k] == unit_dir_steps(is_root, home)[k - 2]);
        }
    }
    assert forall|k: int| 0 <= k < c implies !(#[trigger] u.steps[k] is Remove) && !(u.steps[k] is WriteFile) by {
        if k >= 2 {
            assert(u.steps[k] == unit_dir_steps(is_root, home)[k - 2]);
        }
    }
}

fn quiet(is_root: bool, args: Vec<String>) -> (s: Step)
    ensures
        s@ == quiet_step(is_root, strings_view(args@)),
{
    Step::Run {
        command: systemctl(is_root, args),
        on_error: OnExecError::Ignore,
        on_status: OnStatus::Ignore,
    }
}

/// Stops and disables the service, then removes its unit file if there is one.
pub fn uninstall(env: &ServiceEnv) -> (p: Plan)
    ensures
        p@ == spec_uninstall(env.platform, env.is_root, opt_view(env.home)),
{
    if !platform_is_unix(env.platform) {
        return fail_plan(lit(UNSUPPORTED));
    }
    let mut steps = vec![quiet(env.is_root, unit_args("stop")), quiet(env.is_root, unit_args("disable"))];
    let ghost stops = steps@.map_values(|s: Step| s@);
    let ghost spec = spec_uninstall(env.platform, env.is_root, opt_view(env.home));
    match get_unit_path(env.is_root, &env.home) {
        Err(e) => {
            steps.push(Step::Fail(e));
            let p = Plan { steps, done_messages: Vec::new() };
            assert(p@.steps =~= spec.steps);
            assert(p@.done_messages =~= spec.done_messages);
            p
        },
        Ok(path) => {
            let mut dirs = unit_dir_steps_exec(env.is_root, &env.home);
            steps.append(&mut dirs);
            steps.push(Step::IfExists { path: path.clone(), absent: lit("Service is not installed.") });
            steps.push(Step::Remove(path.clone()));
            steps.push(quiet(env.is_root, reload_args()));
            let p = Plan { steps, done_messages: vec![cat("Service removed: ", path.as_str())] };
            assert(p@.steps =~= spec.steps);
            assert(p@.done_messages =~= spec.done_messages);
            p
        },
    }
}

} // verus!
