//! launchd: a per-user launch agent property list, driven through `launchctl`.

use vstd::prelude::*;
use crate::text::opt_view;
use crate::service::plan::{
    CommandLine, CommandLineView, Inactive, InactiveView, OnExecError, OnExecErrorView, OnStatus,
    OnStatusView, Plan, PlanView, Step, StepView, strings_view, words,
};
use crate::text::{cat, join_path, join_path_seq, lit};

verus! {

pub const PLIST_LABEL: &'static str = "com.sysstats.agent";

pub const NO_HOME: &'static str = "Could not determine user home directory";

pub const PLIST_HEAD: &'static str = "<?xml version=\"1.0\" encoding=\"UTF-8\"?>\n<!DOCTYPE plist PUBLIC \"-//Apple//DTD PLIST 1.0//EN\" \"http://www.apple.com/DTDs/PropertyList-1.0.dtd\">\n<plist version=\"1.0\">\n<dict>\n    <key>Label</key>\n    <string>com.sysstats.agent</string>\n    <key>ProgramArguments</key>\n    <array>\n        <string>";

pub const PLIST_AFTER_BINARY: &'static str = "</string>\n        <string>run</string>\n    </array>\n    <key>RunAtLoad</key>\n    <true/>\n    <key>KeepAlive</key>\n    <true/>\n    <key>StandardOutPath</key>\n    <string>";

pub const PLIST_AFTER_OUT: &'static str = "</string>\n    <key>StandardErrorPath</key>\n    <string>";

pub const PLIST_TAIL: &'static str = "</string>\n</dict>\n</plist>\n";

/// The per-user launch agents directory. launchd exists on macOS alone, so the
/// paths of this backend are joined with Unix separators.
pub open spec fn agents_dir(home: Seq<char>) -> Seq<char> {
    join_path_seq(join_path_seq(home, "Library"@, false), "LaunchAgents"@, false)
}

pub open spec fn logs_dir(home: Seq<char>) -> Seq<char> {
    join_path_seq(join_path_seq(home, "Library"@, false), "Logs"@, false)
}

pub open spec fn plist_path(home: Seq<char>) -> Seq<char> {
    join_path_seq(agents_dir(home), "com.sysstats.agent.plist"@, false)
}

fn agents_dir_exec(home: &String) -> (d: String)
    ensures
        d@ == agents_dir(home@),
{
    let lib = join_path(home.as_str(), "Library", false);
    join_path(lib.as_str(), "LaunchAgents", false)
}

/// The property list path under the user's LaunchAgents directory.
pub fn get_plist_path(home: &Option<String>) -> (res: Result<String, String>)
    ensures
        match (res, *home) {
            (Ok(p), Some(h)) => p@ == plist_path(h@),
            (Err(e), None) => e@ == NO_HOME@,
            _ => false,
        },
{
    match home {
        Some(h) => {
            let dir = agents_dir_exec(h);
            Ok(join_path(dir.as_str(), "com.sysstats.agent.plist", false))
        },
        None => Err(lit(NO_HOME)),
    }
}

/// The user's Library/Logs directory.
pub fn get_log_dir(home: &Option<String>) -> (res: Result<String, String>)
    ensures
        match (res, *home) {
            (Ok(p), Some(h)) => p@ == logs_dir(h@),
            (Err(e), None) => e@ == NO_HOME@,
            _ => false,
        },
{
    match home {
        Some(h) => {
            let lib = join_path(h.as_str(), "Library", false);
            Ok(join_path(lib.as_str(), "Logs", false))
        },
        None => Err(lit(NO_HOME)),
    }
}

pub open spec fn spec_plist(binary: Seq<char>, out_log: Seq<char>, err_log: Seq<char>) -> Seq<char> {
    PLIST_HEAD@ + binary + PLIST_AFTER_BINARY@ + out_log + PLIST_AFTER_OUT@ + err_log + PLIST_TAIL@
}

/// The launch agent that runs `binary run` at load, keeps it alive and sends
/// its output to the two log files.
pub fn plist_contents(binary: &str, out_log: &str, err_log: &str) -> (s: String)
    ensures
        s@ == spec_plist(binary@, out_log@, err_log@),
{
    cat(PLIST_HEAD, binary).concat(PLIST_AFTER_BINARY).concat(out_log).concat(PLIST_AFTER_OUT).concat(
        err_log,
    ).concat(PLIST_TAIL)
}

pub open spec fn launchctl_view(args: Seq<Seq<char>>) -> CommandLineView {
    CommandLineView { program: "launchctl"@, args }
}

fn launchctl2(a: &str, b: &str) -> (c: CommandLine)
    ensures
        c@ == launchctl_view(seq![a@, b@]),
{
    let args = words(vec![a, b]);
    assert(seq![a, b].map_values(|s: &str| s@) =~= seq![a@, b@]);
    CommandLine { program: lit("launchctl"), args }
}

fn launchctl3(a: &str, b: &str, c: &str) -> (cmd: CommandLine)
    ensures
        cmd@ == launchctl_view(seq![a@, b@, c@]),
{
    let args = words(vec![a, b, c]);
    assert(seq![a, b, c].map_values(|s: &str| s@) =~= seq![a@, b@, c@]);
    CommandLine { program: lit("launchctl"), args }
}

fn fail_plan(msg: String) -> (p: Plan)
    ensures
        p@ == (PlanView { steps: seq![StepView::Fail(msg@)], done_messages: seq![] }),
{
    let p = Plan { steps: vec![Step::Fail(msg)], done_messages: Vec::new() };
    assert(p@.steps =~= seq![StepView::Fail(msg@)]);
    assert(p@.done_messages =~= seq![]);
    p
}

pub open spec fn no_home_plan() -> PlanView {
    PlanView { steps: seq![StepView::Fail(NO_HOME@)], done_messages: seq![] }
}

pub open spec fn spec_install(home: Option<Seq<char>>, binary: Option<Seq<char>>) -> PlanView {
    match home {
        None => no_home_plan(),
        Some(h) => {
            let dirs = seq![StepView::MakeDirs(agents_dir(h)), StepView::MakeDirs(logs_dir(h))];
            let plist = plist_path(h);
            match binary {
                None => PlanView {
                    steps: dirs + seq![StepView::Fail("Invalid binary path"@)],
                    done_messages: seq![],
                },
                Some(b) => PlanView {
                    steps: dirs + seq![
                        StepView::WriteFile {
                            path: plist,
                            contents: spec_plist(
                                b,
                                join_path_seq(logs_dir(h), "sys_stats.log"@, false),
                                join_path_seq(logs_dir(h), "sys_stats.err"@, false),
                            ),
                            err_prefix: ""@,
                        },
                        StepView::Run {
                            command: launchctl_view(seq!["unload"@, plist]),
                            on_error: OnExecErrorView::Ignore,
                            on_status: OnStatusView::Ignore,
                        },
                        StepView::Run {
                            command: launchctl_view(seq!["load"@, "-w"@, plist]),
                            on_error: OnExecErrorView::Fail("Failed to execute launchctl: "@),
                            on_status: OnStatusView::FailWithStderr("launchctl load failed: "@),
                        },
                    ],
                    done_messages: seq!["launchd service successfully registered at "@ + plist],
                },
            }
        },
    }
}

/// Writes the launch agent for `binary` (absent when the executable's path is
/// not valid text), unloads any earlier copy and loads it.
pub fn install(home: &Option<String>, binary: &Option<String>) -> (p: Plan)
    ensures
        p@ == spec_install(opt_view(*home), opt_view(*binary)),
{
    let h = match home {
        None => return fail_plan(lit(NO_HOME)),
        Some(h) => h,
    };
    let plist = join_path(agents_dir_exec(h).as_str(), "com.sysstats.agent.plist", false);
    let lib = join_path(h.as_str(), "Library", false);
    let logs = join_path(lib.as_str(), "Logs", false);
    let mut steps = vec![Step::MakeDirs(agents_dir_exec(h)), Step::MakeDirs(logs.clone())];
    let ghost spec = spec_install(opt_view(*home), opt_view(*binary));
    match binary {
        None => {
            steps.push(Step::Fail(lit("Invalid binary path")));
            let p = Plan { steps, done_messages: Vec::new() };
            assert(p@.steps =~= spec.steps);
            assert(p@.done_messages =~= spec.done_messages);
            p
        },
        Some(b) => {
            let out_log = join_path(logs.as_str(), "sys_stats.log", false);
            let err_log = join_path(logs.as_str(), "sys_stats.err", false);
            steps.push(
                Step::WriteFile {
                    path: plist.clone(),
                    contents: plist_contents(b.as_str(), out_log.as_str(), err_log.as_str()),
                    err_prefix: lit(""),
                },
            );
            steps.push(
                Step::Run {
                    command: launchctl2("unload", plist.as_str()),
                    on_error: OnExecError::Ignore,
                    on_status: OnStatus::Ignore,
                },
            );
            steps.push(
                Step::Run {
                    command: launchctl3("load", "-w", plist.as_str()),
                    on_error: OnExecError::Fail(lit("Failed to execute launchctl: ")),
                    on_status: OnStatus::FailWithStderr(lit("launchctl load failed: ")),
                },
            );
            let p = Plan {
                steps,
                done_messages: vec![cat("launchd service successfully registered at ", plist.as_str())],
            };
            assert(p@.steps =~= spec.steps);
            assert(p@.done_messages =~= spec.done_messages);
            p
        },
    }
}

pub open spec fn spec_start(home: Option<Seq<char>>) -> PlanView {
    match home {
        None => no_home_plan(),
        Some(h) => PlanView {
            steps: seq![
                StepView::MakeDirs(agents_dir(h)),
                StepView::Run {
                    command: launchctl_view(seq!["load"@, "-w"@, plist_path(h)]),
                    on_error: OnExecErrorView::Fail(""@),
                    on_status: OnStatusView::SkipNextOnSuccess,
                },
                StepView::Run {
                    command: launchctl_view(seq!["start"@, PLIST_LABEL@]),
                    on_error: OnExecErrorView::Fail("Failed to execute launchctl: "@),
                    on_status: OnStatusView::FailWithStderr("Failed to start service: "@),
                },
            ],
            done_messages: seq!["Service started."@],
        },
    }
}

/// Loads the launch agent; when loading fails, asks launchd to start it, and
/// fails when that does not succeed either.
pub fn start(home: &Option<String>) -> (p: Plan)
    ensures
        p@ == spec_start(opt_view(*home)),
{
    let h = match home {
        None => return fail_plan(lit(NO_HOME)),
        Some(h) => h,
    };
    let dir = agents_dir_exec(h);
    let plist = join_path(dir.as_str(), "com.sysstats.agent.plist", false);
    let p = Plan {
        steps: vec![
            Step::MakeDirs(dir),
            Step::Run {
                command: launchctl3("load", "-w", plist.as_str()),
                on_error: OnExecError::Fail(lit("")),
                on_status: OnStatus::SkipNextOnSuccess,
            },
            Step::Run {
                command: launchctl2("start", PLIST_LABEL),
                on_error: OnExecError::Fail(lit("Failed to execute launchctl: ")),
                on_status: OnStatus::FailWithStderr(lit("Failed to start service: ")),
            },
        ],
        done_messages: vec![lit("Service started.")],
    };
    assert(p@.steps =~= spec_start(opt_view(*home)).steps);
    assert(p@.done_messages =~= spec_start(opt_view(*home)).done_messages);
    p
}

pub open spec fn spec_stop(home: Option<Seq<char>>) -> PlanView {
    match home {
        None => no_home_plan(),
        Some(h) => PlanView {
            steps: seq![
                StepView::MakeDirs(agents_dir(h)),
                StepView::Run {
                    command: launchctl_view(seq!["unload"@, plist_path(h)]),
                    on_error: OnExecErrorView::Fail(""@),
                    on_status: OnStatusView::FailWithStderr("Failed to stop service: "@),
                },
            ],
            done_messages: seq!["Service stopped."@],
        },
    }
}

/// Unloads the launch agent; a failed unload is reported with its stderr.
pub fn stop(home: &Option<String>) -> (p: Plan)
    ensures
        p@ == spec_stop(opt_view(*home)),
{
    let h = match home {
        None => return fail_plan(lit(NO_HOME)),
        Some(h) => h,
    };
    let dir = agents_dir_exec(h);
    let plist = join_path(dir.as_str(), "com.sysstats.agent.plist", false);
    let p = Plan {
        steps: vec![
            Step::MakeDirs(dir),
            Step::Run {
                command: launchctl2("unload", plist.as_str()),
                on_error: OnExecError::Fail(lit("")),
                on_status: OnStatus::FailWithStderr(lit("Failed to stop service: ")),
            },
        ],
        done_messages: vec![lit("Service stopped.")],
    };
    assert(p@.steps =~= spec_stop(opt_view(*home)).steps);
    assert(p@.done_messages =~= spec_stop(opt_view(*home)).done_messages);
    p
}

pub open spec fn spec_status() -> PlanView {
    PlanView {
        steps: seq![
            StepView::Run {
                command: launchctl_view(seq!["list"@, PLIST_LABEL@]),
                on_error: OnExecErrorView::Fail(""@),
                on_status: OnStatusView::Report {
                    active: "Active (launchd)\n"@,
                    inactive: InactiveView::Fixed("Inactive (not running or not loaded)"@),
                },
            },
        ],
        done_messages: seq![],
    }
}

/// Reports whether launchd lists the agent.
pub fn status() -> (p: Plan)
    ensures
        p@ == spec_status(),
{
    let p = Plan {
        steps: vec![
            Step::Run {
                command: launchctl2("list", PLIST_LABEL),
                on_error: OnExecError::Fail(lit("")),
                on_status: OnStatus::Report {
                    active: lit("Active (launchd)\n"),
                    inactive: Inactive::Fixed(lit("Inactive (not running or not loaded)")),
                },
            },
        ],
        done_messages: Vec::new(),
    };
    assert(p@.steps =~= spec_status().steps);
    assert(p@.done_messages =~= seq![]);
    p
}

pub open spec fn spec_uninstall(home: Option<Seq<char>>) -> PlanView {
    match home {
        None => no_home_plan(),
        Some(h) => PlanView {
            steps: seq![
                StepView::MakeDirs(agents_dir(h)),
                StepView::IfExists { path: plist_path(h), absent: "Service is not installed."@ },
                StepView::Run {
                    command: launchctl_view(seq!["unload"@, "-w"@, plist_path(h)]),
                    on_error: OnExecErrorView::Ignore,
                    on_status: OnStatusView::Ignore,
                },
                StepView::Remove(plist_path(h)),
            ],
            done_messages: seq!["Service removed: "@ + plist_path(h)],
        },
    }
}

/// Unloads and deletes the launch agent if there is one.
pub fn uninstall(home: &Option<String>) -> (p: Plan)
    ensures
        p@ == spec_uninstall(opt_view(*home)),
{
    let h = match home {
        None => return fail_plan(lit(NO_HOME)),
        Some(h) => h,
    };
    let dir = agents_dir_exec(h);
    let plist = join_path(dir.as_str(), "com.sysstats.agent.plist", false);
    let p = Plan {
        steps: vec![
            Step::MakeDirs(dir),
            Step::IfExists { path: plist.clone(), absent: lit("Service is not installed.") },
            Step::Run {
                command: launchctl3("unload", "-w", plist.as_str()),
                on_error: OnExecError::Ignore,
                on_status: OnStatus::Ignore,
            },
            Step::Remove(plist.clone()),
        ],
        done_messages: vec![cat("Service removed: ", plist.as_str())],
    };
    assert(p@.steps =~= spec_uninstall(opt_view(*home)).steps);
    assert(p@.done_messages =~= spec_uninstall(opt_view(*home)).done_messages);
    p
}

/// The launch agent's property list starts the agent when it is loaded and
/// keeps it alive: right after the program path, the list names the `run`
/// argument and sets both `RunAtLoad` and `KeepAlive` to true, whatever the
/// program and log paths.
pub proof fn lemma_plist_runs_at_load_and_keeps_alive(
    binary: Seq<char>,
    out_log: Seq<char>,
    err_log: Seq<char>,
)
    ensures
        ({
            let s = spec_plist(binary, out_log, err_log);
            let k: int = PLIST_HEAD@.len() + binary.len() as int;
            let keys = "</string>\n        <string>run</string>\n    </array>\n    <key>RunAtLoad</key>\n    <true/>\n    <key>KeepAlive</key>\n    <true/>\n"@;
            &&& s.subrange(0, PLIST_HEAD@.len() as int) == PLIST_HEAD@
            &&& s.subrange(PLIST_HEAD@.len() as int, k) == binary
            &&& k + keys.len() <= s.len()
            &&& s.subrange(k, k + keys.len() as int) == keys
        }),
{
    reveal_strlit("</string>\n        <string>run</string>\n    </array>\n    <key>RunAtLoad</key>\n    <true/>\n    <key>KeepAlive</key>\n    <true/>\n    <key>StandardOutPath</key>\n    <string>");
    reveal_strlit("</string>\n        <string>run</string>\n    </array>\n    <key>RunAtLoad</key>\n    <true/>\n    <key>KeepAlive</key>\n    <true/>\n");
    let s = spec_plist(binary, out_log, err_log);
    let k: int = PLIST_HEAD@.len() + binary.len() as int;
    let keys = "</string>\n        <string>run</string>\n    </array>\n    <key>RunAtLoad</key>\n    <true/>\n    <key>KeepAlive</key>\n    <true/>\n"@;
    let after = PLIST_AFTER_BINARY@;
    assert(after.subrange(0, keys.len() as int) =~= keys);
    assert(s.subrange(0, PLIST_HEAD@.len() as int) =~= PLIST_HEAD@);
    assert(s.subrange(PLIST_HEAD@.len() as int, k) =~= binary);
    assert(s.subrange(k, k + keys.len() as int) =~= after.subrange(0, keys.len() as int));
}

/// Uninstalling unloads the very agent it removes: the plan removes the
/// property list that install writes, and before that unloads the agent
/// with `launchctl unload -w` naming that same file.
pub proof fn lemma_uninstall_unloads_what_it_removes(home: Seq<char>, binary: Seq<char>)
    ensures
        ({
            let i = spec_install(Some(home), Some(binary));
            let u = spec_uninstall(Some(home));
            let path = i.steps[2]->WriteFile_path;
            &&& i.steps[2] is WriteFile
            &&& exists|j: int| 0 <= j < u.steps.len() && u.steps[j] == StepView::Remove(path)
            &&& forall|j: int|
                0 <= j < u.steps.len() && #[trigger] u.steps[j] is Remove ==> u.steps[j]
                    == StepView::Remove(path) && exists|k: int|
                    #![trigger u.steps[k]]
                    0 <= k < j && (u.steps[k] matches StepView::Run { command, .. } && command
                        == launchctl_view(seq!["unload"@, "-w"@, path]))
        }),
{
    let i = spec_install(Some(home), Some(binary));
    let u = spec_uninstall(Some(home));
    let path = i.steps[2]->WriteFile_path;
    assert(u.steps[3] == StepView::Remove(path));
    assert(u.steps[2] matches StepView::Run { command, .. } && command == launchctl_view(
        seq!["unload"@, "-w"@, path],
    ));
}

} // verus!
