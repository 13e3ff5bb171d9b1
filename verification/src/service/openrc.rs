//! OpenRC: an init script under /etc/init.d, driven through `rc-service`
//! and `rc-update`.

use vstd::prelude::*;
use crate::service::{is_unix, platform_is_unix, Platform};
use crate::service::plan::{
    CommandLine, CommandLineView, Inactive, InactiveView, OnExecError, OnExecErrorView, OnStatus,
    OnStatusView, Plan, PlanView, Step, StepView, strings_view, words,
};
use crate::text::{cat, lit};

verus! {

pub const INIT_SCRIPT_PATH: &'static str = "/etc/init.d/sys_stats";

pub const SERVICE_NAME: &'static str = "sys_stats";

pub const UNSUPPORTED: &'static str = "OpenRC is not supported on this platform.";

/// Whether OpenRC looks present: only on Unix, when `/sbin/openrc-run` or
/// `/run/openrc` exists or `rc-service -V` can be run.
pub fn is_openrc_available(
    platform: Platform,
    openrc_run_exists: bool,
    run_openrc_exists: bool,
    rc_service_runs: bool,
) -> (b: bool)
    ensures
        b == (is_unix(platform) && (openrc_run_exists || run_openrc_exists || rc_service_runs)),
{
    platform_is_unix(platform) && (openrc_run_exists || run_openrc_exists || rc_service_runs)
}

pub open spec fn rc_view(program: Seq<char>, args: Seq<Seq<char>>) -> CommandLineView {
    CommandLineView { program, args }
}

fn rc_service(verb: &str) -> (c: CommandLine)
    ensures
        c@ == rc_view("rc-service"@, seq![SERVICE_NAME@, verb@]),
{
    let args = words(vec![SERVICE_NAME, verb]);
    assert(seq![SERVICE_NAME, verb].map_values(|s: &str| s@) =~= seq![SERVICE_NAME@, verb@]);
    CommandLine { program: lit("rc-service"), args }
}

fn rc_update(verb: &str) -> (c: CommandLine)
    ensures
        c@ == rc_view("rc-update"@, seq![verb@, SERVICE_NAME@, "default"@]),
{
    let args = words(vec![verb, SERVICE_NAME, "default"]);
    assert(seq![verb, SERVICE_NAME, "default"].map_values(|s: &str| s@) =~= seq![
        verb@,
        SERVICE_NAME@,
        "default"@,
    ]);
    CommandLine { program: lit("rc-update"), args }
}

pub open spec fn unsupported_plan() -> PlanView {
    PlanView { steps: seq![StepView::Fail(UNSUPPORTED@)], done_messages: seq![] }
}

fn fail_plan(msg: String) -> (p: Plan)
    ensures
        p@ == (PlanView { steps: seq![StepView::Fail(msg@)], done_messages: seq![] }),
{
    let p = Plan { steps: vec![Step::Fail(msg)], done_messages: Vec::new() };
    assert(p@.steps =~= seq![StepView::Fail(msg@)]);
    assert(p@.done_messages =~= seq![]);
    p
}

pub open spec fn spec_script(binary: Seq<char>) -> Seq<char> {
    "#!/sbin/openrc-run\nname=\"sys_stats\"\ndescription=\"SysStats Telemetry Agent\"\ncommand=\""@
        + binary
        + "\"\ncommand_args=\"run\"\ncommand_background=\"yes\"\npidfile=\"/run/sys_stats.pid\"\n\ndepend() {\n    need net\n}\n"@
}

/// The init script that runs `binary run` in the background once the network is up.
pub fn script_contents(binary: &str) -> (s: String)
    ensures
        s@ == spec_script(binary@),
{
    cat(
        "#!/sbin/openrc-run\nname=\"sys_stats\"\ndescription=\"SysStats Telemetry Agent\"\ncommand=\"",
        binary,
    ).concat(
        "\"\ncommand_args=\"run\"\ncommand_background=\"yes\"\npidfile=\"/run/sys_stats.pid\"\n\ndepend() {\n    need net\n}\n",
    )
}

pub open spec fn spec_install(platform: Platform, binary: Option<Seq<char>>) -> PlanView {
    if !is_unix(platform) {
        unsupported_plan()
    } else {
        match binary {
            None => PlanView { steps: seq![StepView::Fail("Invalid binary path"@)], done_messages: seq![] },
            Some(b) => PlanView {
                steps: seq![
                    StepView::WriteFile {
                        path: INIT_SCRIPT_PATH@,
                        contents: spec_script(b),
                        err_prefix: "Failed to write OpenRC script (are you root/sudo?): "@,
                    },
                    StepView::MakeExecutable(INIT_SCRIPT_PATH@),
                    StepView::Run {
                        command: rc_view("rc-update"@, seq!["add"@, SERVICE_NAME@, "default"@]),
                        on_error: OnExecErrorView::Ignore,
                        on_status: OnStatusView::Ignore,
                    },
                    StepView::Run {
                        command: rc_view("rc-service"@, seq![SERVICE_NAME@, "start"@]),
                        on_error: OnExecErrorView::Fail("Failed to execute rc-service: "@),
                        on_status: OnStatusView::FailWithStderr("rc-service start failed: "@),
                    },
                ],
                done_messages: seq![
                    "OpenRC service registered at "@ + INIT_SCRIPT_PATH@,
                    "Service added to default runlevel and started."@,
                ],
            },
        }
    }
}

/// Writes the init script for `binary` (absent when the executable's path is
/// not valid text), makes it executable, adds it to the default runlevel and
/// starts it.
pub fn install(platform: Platform, binary: &Option<String>) -> (p: Plan)
    ensures
        p@ == spec_install(platform, match binary {
            Some(b) => Some(b@),
            None => None,
        }),
{
    if !platform_is_unix(platform) {
        return fail_plan(lit(UNSUPPORTED));
    }
    match binary {
        None => fail_plan(lit("Invalid binary path")),
        Some(b) => {
            let p = Plan {
                steps: vec![
                    Step::WriteFile {
                        path: lit(INIT_SCRIPT_PATH),
                        contents: script_contents(b.as_str()),
                        err_prefix: lit("Failed to write OpenRC script (are you root/sudo?): "),
                    },
                    Step::MakeExecutable(lit(INIT_SCRIPT_PATH)),
                    Step::Run {
                        command: rc_update("add"),
                        on_error: OnExecError::Ignore,
                        on_status: OnStatus::Ignore,
                    },
                    Step::Run {
                        command: rc_service("start"),
                        on_error: OnExecError::Fail(lit("Failed to execute rc-service: ")),
                        on_status: OnStatus::FailWithStderr(lit("rc-service start failed: ")),
                    },
                ],
                done_messages: vec![
                    cat("OpenRC service registered at ", INIT_SCRIPT_PATH),
                    lit("Service added to default runlevel and started."),
                ],
            };
            assert(p@.steps =~= spec_install(platform, Some(b@)).steps);
            assert(p@.done_messages =~= spec_install(platform, Some(b@)).done_messages);
            p
        },
    }
}

pub open spec fn spec_control(platform: Platform, verb: Seq<char>, failed: Seq<char>, done: Seq<char>) -> PlanView {
    if !is_unix(platform) {
        unsupported_plan()
    } else {
        PlanView {
            steps: seq![
                StepView::Run {
                    command: rc_view("rc-service"@, seq![SERVICE_NAME@, verb]),
                    on_error: OnExecErrorView::Fail(""@),
                    on_status: OnStatusView::FailWithStderr(failed),
                },
            ],
            done_messages: seq![done],
        }
    }
}

fn control(platform: Platform, verb: &str, failed: &str, done: &str) -> (p: Plan)
    ensures
        p@ == spec_control(platform, verb@, failed@, done@),
{
    if !platform_is_unix(platform) {
        return fail_plan(lit(UNSUPPORTED));
    }
    let p = Plan {
        steps: vec![
            Step::Run {
                command: rc_service(verb),
                on_error: OnExecError::Fail(lit("")),
                on_status: OnStatus::FailWithStderr(lit(failed)),
            },
        ],
        done_messages: vec![lit(done)],
    };
    assert(p@.steps =~= spec_control(platform, verb@, failed@, done@).steps);
    assert(p@.done_messages =~= seq![done@]);
    p
}

/// Starts the service through `rc-service`.
pub fn start(platform: Platform) -> (p: Plan)
    ensures
        p@ == spec_control(platform, "start"@, "rc-service start failed: "@, "Service started."@),
{
    control(platform, "start", "rc-service start failed: ", "Service started.")
}

/// Stops the service through `rc-service`.
pub fn stop(platform: Platform) -> (p: Plan)
    ensures
        p@ == spec_control(platform, "stop"@, "rc-service stop failed: "@, "Service stopped."@),
{
    control(platform, "stop", "rc-service stop failed: ", "Service stopped.")
}

pub open spec fn spec_status(platform: Platform) -> PlanView {
    if !is_unix(platform) {
        unsupported_plan()
    } else {
        PlanView {
            steps: seq![
                StepView::Run {
                    command: rc_view("rc-service"@, seq![SERVICE_NAME@, "status"@]),
                    on_error: OnExecErrorView::Fail(""@),
                    on_status: OnStatusView::Report {
                        active: "Active (OpenRC)\n"@,
                        inactive: InactiveView::WithOutput("Inactive / Error\n"@),
                    },
                },
            ],
            done_messages: seq![],
        }
    }
}

/// Reports the service's state from `rc-service status`.
pub fn status(platform: Platform) -> (p: Plan)
    ensures
        p@ == spec_status(platform),
{
    if !platform_is_unix(platform) {
        return fail_plan(lit(UNSUPPORTED));
    }
    let p = Plan {
        steps: vec![
            Step::Run {
                command: rc_service("status"),
                on_error: OnExecError::Fail(lit("")),
                on_status: OnStatus::Report {
                    active: lit("Active (OpenRC)\n"),
                    inactive: Inactive::WithOutput(lit("Inactive / Error\n")),
                },
            },
        ],
        done_messages: Vec::new(),
    };
    assert(p@.steps =~= spec_status(platform).steps);
    assert(p@.done_messages =~= seq![]);
    p
}

pub open spec fn spec_uninstall(platform: Platform) -> PlanView {
    if !is_unix(platform) {
        unsupported_plan()
    } else {
        PlanView {
            steps: seq![
                StepView::Run {
                    command: rc_view("rc-service"@, seq![SERVICE_NAME@, "stop"@]),
                    on_error: OnExecErrorView::Ignore,
                    on_status: OnStatusView::Ignore,
                },
                StepView::Run {
                    command: rc_view("rc-update"@, seq!["del"@, SERVICE_NAME@, "default"@]),
                    on_error: OnExecErrorView::Ignore,
                    on_status: OnStatusView::Ignore,
                },
                StepView::IfExists {
                    path: INIT_SCRIPT_PATH@,
                    absent: "OpenRC service is not installed."@,
                },
                StepView::Remove(INIT_SCRIPT_PATH@),
            ],
            done_messages: seq!["OpenRC service removed: "@ + INIT_SCRIPT_PATH@],
        }
    }
}

/// Stops the service, removes it from the default runlevel and deletes the
/// init script if there is one.
pub fn uninstall(platform: Platform) -> (p: Plan)
    ensures
        p@ == spec_uninstall(platform),
{
    if !platform_is_unix(platform) {
        return fail_plan(lit(UNSUPPORTED));
    }
    let p = Plan {
        steps: vec![
            Step::Run {
                command: rc_service("stop"),
                on_error: OnExecError::Ignore,
                on_status: OnStatus::Ignore,
            },
            Step::Run {
                command: rc_update("del"),
                on_error: OnExecError::Ignore,
                on_status: OnStatus::Ignore,
            },
            Step::IfExists {
                path: lit(INIT_SCRIPT_PATH),
                absent: lit("OpenRC service is not installed."),
            },
            Step::Remove(lit(INIT_SCRIPT_PATH)),
        ],
        done_messages: vec![cat("OpenRC service removed: ", INIT_SCRIPT_PATH)],
    };
    assert(p@.steps =~= spec_uninstall(platform).steps);
    assert(p@.done_messages =~= spec_uninstall(platform).done_messages);
    p
}

/// The init script runs `binary` with the `run` argument in the background:
/// its `command=` line names the binary, followed at once by the `run`
/// arguments and background mode.
pub proof fn lemma_script_runs_binary(binary: Seq<char>)
    ensures
        ({
            let s = spec_script(binary);
            let cmd = "command=\""@ + binary + "\"\ncommand_args=\"run\"\ncommand_background=\"yes\"\n"@;
            exists|i: int| 0 <= i && i + cmd.len() <= s.len() && #[trigger] s.subrange(i, i + cmd.len()) == cmd
        }),
{
    reveal_strlit("#!/sbin/openrc-run\nname=\"sys_stats\"\ndescription=\"SysStats Telemetry Agent\"\ncommand=\"");
    reveal_strlit("command=\"");
    reveal_strlit("\"\ncommand_args=\"run\"\ncommand_background=\"yes\"\npidfile=\"/run/sys_stats.pid\"\n\ndepend() {\n    need net\n}\n");
    reveal_strlit("\"\ncommand_args=\"run\"\ncommand_background=\"yes\"\n");
    let head = "#!/sbin/openrc-run\nname=\"sys_stats\"\ndescription=\"SysStats Telemetry Agent\"\ncommand=\""@;
    let s = spec_script(binary);
    let cmd = "command=\""@ + binary + "\"\ncommand_args=\"run\"\ncommand_background=\"yes\"\n"@;
    let i = head.len() - 9;
    assert(s.subrange(i, i + cmd.len()) =~= cmd);
}

/// Uninstalling first stops the very service that installing starts, and
/// removes the init script that installing writes.
pub proof fn lemma_uninstall_stops_installed_service(platform: Platform, binary: Seq<char>)
    requires
        is_unix(platform),
    ensures
        ({
            let i = spec_install(platform, Some(binary));
            let u = spec_uninstall(platform);
            &&& i.steps[3] matches StepView::Run { command, .. } && command == rc_view(
                "rc-service"@,
                seq![SERVICE_NAME@, "start"@],
            )
            &&& u.steps[0] matches StepView::Run { command, .. } && command == rc_view(
                "rc-service"@,
                seq![i.steps[3]->Run_command.args[0], "stop"@],
            )
            &&& u.steps[3] == StepView::Remove(i.steps[0]->WriteFile_path)
        }),
{
}

} // verus!
