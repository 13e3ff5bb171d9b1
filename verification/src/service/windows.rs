//! Windows: a scheduled task that starts the agent at logon, driven through
//! `schtasks`.

use vstd::prelude::*;
use crate::text::opt_view;
use crate::service::plan::{
    CommandLine, CommandLineView, Inactive, InactiveView, OnExecError, OnExecErrorView, OnStatus,
    OnStatusView, Plan, PlanView, Step, StepView, strings_view, words,
};
use crate::text::{cat, lit};

verus! {

pub const TASK_NAME: &'static str = "SysStatsAgent";

pub open spec fn schtasks_view(args: Seq<Seq<char>>) -> CommandLineView {
    CommandLineView { program: "schtasks"@, args }
}

/// `schtasks <verb> /TN SysStatsAgent`.
fn task_command(verb: &str) -> (c: CommandLine)
    ensures
        c@ == schtasks_view(seq![verb@, "/TN"@, TASK_NAME@]),
{
    let args = words(vec![verb, "/TN", TASK_NAME]);
    assert(seq![verb, "/TN", TASK_NAME].map_values(|s: &str| s@) =~= seq![verb@, "/TN"@, TASK_NAME@]);
    CommandLine { program: lit("schtasks"), args }
}

pub open spec fn create_args(binary: Seq<char>) -> Seq<Seq<char>> {
    seq![
        "/Create"@,
        "/SC"@,
        "ONLOGON"@,
        "/TN"@,
        TASK_NAME@,
        "/TR"@,
        "\""@ + binary + "\" run"@,
        "/F"@,
    ]
}

/// The command that registers the logon task running `"binary" run`.
pub fn create_command(binary: &str) -> (c: CommandLine)
    ensures
        c@ == schtasks_view(create_args(binary@)),
{
    let mut args = words(vec!["/Create", "/SC", "ONLOGON", "/TN", TASK_NAME, "/TR"]);
    let ghost head = strings_view(args@);
    args.push(cat("\"", binary).concat("\" run"));
    args.push(lit("/F"));
    assert(seq!["/Create", "/SC", "ONLOGON", "/TN", TASK_NAME, "/TR"].map_values(|s: &str| s@)
        =~= seq!["/Create"@, "/SC"@, "ONLOGON"@, "/TN"@, TASK_NAME@, "/TR"@]);
    assert(strings_view(args@) =~= create_args(binary@));
    CommandLine { program: lit("schtasks"), args }
}

fn fail_plan(msg: String) -> (p: Plan)
    ensures
        p@ == (PlanView { steps: seq![StepView::Fail(msg@)], done_messages: seq![] }),
{
    let p = Plan { steps: vec![Step::Fail(msg)], done_messages: Vec::new() };
    assert(p@.steps =~= seq![StepView::Fail(msg@)]);
    assert(p@.done_messages =~= seq![]);
    p
}

pub open spec fn spec_install(binary: Option<Seq<char>>) -> PlanView {
    match binary {
        None => PlanView { steps: seq![StepView::Fail("Invalid binary path"@)], done_messages: seq![] },
        Some(b) => PlanView {
            steps: seq![
                StepView::Run {
                    command: schtasks_view(create_args(b)),
                    on_error: OnExecErrorView::Fail("Failed to execute schtasks: "@),
                    on_status: OnStatusView::FailWithStderr("Failed to register scheduled task: "@),
                },
                StepView::Run {
                    command: schtasks_view(seq!["/Run"@, "/TN"@, TASK_NAME@]),
                    on_error: OnExecErrorView::Ignore,
                    on_status: OnStatusView::Ignore,
                },
            ],
            done_messages: seq!["Windows startup task successfully registered."@],
        },
    }
}

/// Registers the logon task for `binary` (absent when the executable's path
/// is not valid text) and runs it once.
pub fn install(binary: &Option<String>) -> (p: Plan)
    ensures
        p@ == spec_install(opt_view(*binary)),
{
    match binary {
        None => fail_plan(lit("Invalid binary path")),
        Some(b) => {
            let p = Plan {
                steps: vec![
                    Step::Run {
                        command: create_command(b.as_str()),
                        on_error: OnExecError::Fail(lit("Failed to execute schtasks: ")),
                        on_status: OnStatus::FailWithStderr(lit("Failed to register scheduled task: ")),
                    },
                    Step::Run {
                        command: task_command("/Run"),
                        on_error: OnExecError::Ignore,
                        on_status: OnStatus::Ignore,
                    },
                ],
                done_messages: vec![lit("Windows startup task successfully registered.")],
            };
            assert(p@.steps =~= spec_install(opt_view(*binary)).steps);
            assert(p@.done_messages =~= spec_install(opt_view(*binary)).done_messages);
            p
        },
    }
}

pub open spec fn spec_control(verb: Seq<char>, failed: Seq<char>, done: Seq<char>) -> PlanView {
    PlanView {
        steps: seq![
            StepView::Run {
                command: schtasks_view(seq![verb, "/TN"@, TASK_NAME@]),
                on_error: OnExecErrorView::Fail(""@),
                on_status: OnStatusView::FailWithStderr(failed),
            },
        ],
        done_messages: seq![done],
    }
}

fn control(verb: &str, failed: &str, done: &str) -> (p: Plan)
    ensures
        p@ == spec_control(verb@, failed@, done@),
{
    let p = Plan {
        steps: vec![
            Step::Run {
                command: task_command(verb),
                on_error: OnExecError::Fail(lit("")),
                on_status: OnStatus::FailWithStderr(lit(failed)),
            },
        ],
        done_messages: vec![lit(done)],
    };
    assert(p@.steps =~= spec_control(verb@, failed@, done@).steps);
    assert(p@.done_messages =~= seq![done@]);
    p
}

/// Runs the task now.
pub fn start() -> (p: Plan)
    ensures
        p@ == spec_control("/Run"@, "Failed to run task: "@, "Service started."@),
{
    control("/Run", "Failed to run task: ", "Service started.")
}

/// Ends the running task.
pub fn stop() -> (p: Plan)
    ensures
        p@ == spec_control("/End"@, "Failed to stop task: "@, "Service stopped."@),
{
    control("/End", "Failed to stop task: ", "Service stopped.")
}

pub open spec fn status_args() -> Seq<Seq<char>> {
    seq!["/Query"@, "/TN"@, TASK_NAME@, "/FO"@, "LIST"@, "/V"@]
}

pub open spec fn spec_status() -> PlanView {
    PlanView {
        steps: seq![
            StepView::Run {
                command: schtasks_view(status_args()),
                on_error: OnExecErrorView::Fail(""@),
                on_status: OnStatusView::Report {
                    active: "Active (Windows Task)\n"@,
                    inactive: InactiveView::Fixed("Inactive (task not found or disabled)"@),
                },
            },
        ],
        done_messages: seq![],
    }
}

/// Reports whether the task scheduler knows the task.
pub fn status() -> (p: Plan)
    ensures
        p@ == spec_status(),
{
    let args = words(vec!["/Query", "/TN", TASK_NAME, "/FO", "LIST", "/V"]);
    assert(seq!["/Query", "/TN", TASK_NAME, "/FO", "LIST", "/V"].map_values(|s: &str| s@)
        =~= status_args());
    let p = Plan {
        steps: vec![
            Step::Run {
                command: CommandLine { program: lit("schtasks"), args },
                on_error: OnExecError::Fail(lit("")),
                on_status: OnStatus::Report {
                    active: lit("Active (Windows Task)\n"),
                    inactive: Inactive::Fixed(lit("Inactive (task not found or disabled)")),
                },
            },
        ],
        done_messages: Vec::new(),
    };
    assert(p@.steps =~= spec_status().steps);
    assert(p@.done_messages =~= seq![]);
    p
}

pub open spec fn spec_uninstall() -> PlanView {
    PlanView {
        steps: seq![
            StepView::Run {
                command: schtasks_view(seq!["/End"@, "/TN"@, TASK_NAME@]),
                on_error: OnExecErrorView::Ignore,
                on_status: OnStatusView::Ignore,
            },
            StepView::Run {
                command: schtasks_view(seq!["/Delete"@, "/TN"@, TASK_NAME@, "/F"@]),
                on_error: OnExecErrorView::Fail(""@),
                on_status: OnStatusView::Announce {
                    ok: "Windows task removed."@,
                    failed: "Task was not found."@,
                },
            },
        ],
        done_messages: seq![],
    }
}

/// Ends and deletes the task; either outcome of the deletion is reported.
pub fn uninstall() -> (p: Plan)
    ensures
        p@ == spec_uninstall(),
{
    let mut del = words(vec!["/Delete", "/TN", TASK_NAME]);
    del.push(lit("/F"));
    assert(seq!["/Delete", "/TN", TASK_NAME].map_values(|s: &str| s@) =~= seq!["/Delete"@, "/TN"@, TASK_NAME@]);
    assert(strings_view(del@) =~= seq!["/Delete"@, "/TN"@, TASK_NAME@, "/F"@]);
    let p = Plan {
        steps: vec![
            Step::Run {
                command: task_command("/End"),
                on_error: OnExecError::Ignore,
                on_status: OnStatus::Ignore,
            },
            Step::Run {
                command: CommandLine { program: lit("schtasks"), args: del },
                on_error: OnExecError::Fail(lit("")),
                on_status: OnStatus::Announce {
                    ok: lit("Windows task removed."),
                    failed: lit("Task was not found."),
                },
            },
        ],
        done_messages: Vec::new(),
    };
    assert(p@.steps =~= spec_uninstall().steps);
    assert(p@.done_messages =~= seq![]);
    p
}

} // verus!
