use sys_stats::service::plan::{
    Action, CommandLine, CommandOutput, Event, Inactive, OnExecError, OnStatus, Outcome, Plan,
    ServiceRun, Step,
};
use sys_stats::service::{
    detect_manager, install, launchd, platform_from_os, manager_name, openrc, resolve_manager, start, status,
    stop, systemd, uninstall, windows, InitManager, Platform, ServiceEnv,
};

fn env(platform: Platform, openrc: bool, root: bool, home: Option<&str>) -> ServiceEnv {
    ServiceEnv {
        platform,
        openrc_available: openrc,
        is_root: root,
        home: home.map(|h| h.to_string()),
    }
}

fn cmd(program: &str, args: &[&str]) -> CommandLine {
    CommandLine { program: program.to_string(), args: args.iter().map(|a| a.to_string()).collect() }
}

fn ok_out(success: bool, stdout: &str, stderr: &str) -> Event {
    Event::Ran(Ok(CommandOutput { success, stdout: stdout.to_string(), stderr: stderr.to_string() }))
}

/// Carries out `plan`, answering each action from `answer`, and returns the
/// actions handed out and the final outcome.
fn run(plan: Plan, mut answer: impl FnMut(&Action) -> Event) -> (Vec<Action>, Outcome) {
    let (mut r, mut action) = ServiceRun::begin(plan);
    let mut seen = Vec::new();
    loop {
        if let Action::Finish(o) = action {
            return (seen, o);
        }
        let ev = answer(&action);
        seen.push(action);
        action = r.resume(ev);
        assert!(seen.len() < 100);
    }
}

fn all_ok(a: &Action) -> Event {
    match a {
        Action::MakeDirs(_) => Event::DirsMade,
        Action::WriteFile { .. } | Action::MakeExecutable(_) => Event::Wrote(Ok(())),
        Action::Run(_) => ok_out(true, "running", ""),
        Action::CheckExists(_) => Event::Exists(true),
        Action::Remove(_) => Event::Removed(Ok(())),
        Action::Finish(_) => unreachable!(),
    }
}

#[test]
fn detect_manager_by_platform() {
    assert_eq!(detect_manager(Platform::MacOs, true), InitManager::Launchd);
    assert_eq!(detect_manager(Platform::Windows, true), InitManager::Windows);
    assert_eq!(detect_manager(Platform::Linux, true), InitManager::Openrc);
    assert_eq!(detect_manager(Platform::Linux, false), InitManager::Systemd);
    assert_eq!(detect_manager(Platform::OtherUnix, true), InitManager::Systemd);
    assert_eq!(detect_manager(Platform::Other, false), InitManager::Systemd);
}

#[test]
fn resolve_manager_never_auto() {
    assert_eq!(resolve_manager(InitManager::Auto, Platform::Linux, false), InitManager::Systemd);
    assert_eq!(resolve_manager(InitManager::Launchd, Platform::Linux, false), InitManager::Launchd);
    for m in [InitManager::Auto, InitManager::Launchd, InitManager::Systemd, InitManager::Openrc, InitManager::Windows] {
        for p in [Platform::MacOs, Platform::Windows, Platform::Linux, Platform::OtherUnix, Platform::Other] {
            for o in [false, true] {
                assert_ne!(resolve_manager(m, p, o), InitManager::Auto);
            }
        }
    }
    assert_eq!(manager_name(InitManager::Openrc), "Openrc");
}

#[test]
fn openrc_availability_needs_unix() {
    assert!(openrc::is_openrc_available(Platform::Linux, false, true, false));
    assert!(!openrc::is_openrc_available(Platform::Linux, false, false, false));
    assert!(!openrc::is_openrc_available(Platform::Windows, true, true, true));
}

#[test]
fn root_detection_from_id_output() {
    assert!(systemd::is_root_output(&Some("0\n".to_string())));
    assert!(!systemd::is_root_output(&Some("1000\n".to_string())));
    assert!(!systemd::is_root_output(&None));
}

#[test]
fn systemd_user_install_plan() {
    let e = env(Platform::Linux, false, false, Some("/home/u"));
    let (actions, outcome) = run(systemd::install(&e, &Some("/usr/bin/agent".to_string())), all_ok);
    assert_eq!(actions[0], Action::MakeDirs("/home/u/.config/systemd/user".to_string()));
    match &actions[1] {
        Action::WriteFile { path, contents } => {
            assert_eq!(path, "/home/u/.config/systemd/user/sys-stats.service");
            assert!(contents.contains("ExecStart=/usr/bin/agent run\n"));
            assert!(contents.ends_with("WantedBy=default.target\n"));
        }
        other => panic!("unexpected {:?}", other),
    }
    assert_eq!(actions[2], Action::Run(cmd("systemctl", &["--user", "daemon-reload"])));
    assert_eq!(actions[3], Action::Run(cmd("systemctl", &["--user", "enable", "--now", "sys-stats"])));
    assert_eq!(outcome.result, Ok(String::new()));
    assert_eq!(outcome.messages, vec![
        "systemd unit registered at /home/u/.config/systemd/user/sys-stats.service".to_string(),
        "Service enabled and started.".to_string(),
    ]);
}

#[test]
fn systemd_unit_contents_exact() {
    assert_eq!(
        systemd::unit_contents("/opt/a", true),
        "[Unit]\nDescription=SysStats Telemetry Agent\nAfter=network.target\n\n[Service]\nType=simple\nExecStart=/opt/a run\nRestart=always\nRestartSec=5\n\n[Install]\nWantedBy=multi-user.target\n"
    );
}

#[test]
fn systemd_root_install_and_errors() {
    let e = env(Platform::Linux, false, true, None);
    let (actions, _) = run(systemd::install(&e, &Some("/a".to_string())), all_ok);
    assert_eq!(actions[0], Action::WriteFile {
        path: "/etc/systemd/system/sys-stats.service".to_string(),
        contents: systemd::unit_contents("/a", true),
    });
    assert_eq!(actions[1], Action::Run(cmd("systemctl", &["daemon-reload"])));
    // a failed write ends the install with the error text
    let (_, o) = run(systemd::install(&e, &Some("/a".to_string())), |a| match a {
        Action::WriteFile { .. } => Event::Wrote(Err("Permission denied (os error 13)".to_string())),
        other => all_ok(other),
    });
    assert_eq!(o.result, Err("Permission denied (os error 13)".to_string()));
    assert!(o.messages.is_empty());
    // no home directory for a user unit
    let e = env(Platform::Linux, false, false, None);
    let (a, o) = run(systemd::install(&e, &Some("/a".to_string())), all_ok);
    assert!(a.is_empty());
    assert_eq!(o.result, Err("Could not find user home directory".to_string()));
    // the executable path was not text
    let e = env(Platform::Linux, false, true, None);
    let (_, o) = run(systemd::install(&e, &None), all_ok);
    assert_eq!(o.result, Err("Invalid binary path".to_string()));
    // systemctl could not be executed
    let (_, o) = run(systemd::install(&e, &Some("/a".to_string())), |a| match a {
        Action::Run(_) => Event::Ran(Err("No such file or directory (os error 2)".to_string())),
        other => all_ok(other),
    });
    assert_eq!(o.result, Err("Failed to execute systemctl: No such file or directory (os error 2)".to_string()));
}

#[test]
fn systemd_unsupported_off_unix() {
    let e = env(Platform::Windows, false, false, Some("C:\\u"));
    for p in [systemd::install(&e, &Some("a".into())), systemd::start(&e), systemd::stop(&e), systemd::status(&e), systemd::uninstall(&e)] {
        let (a, o) = run(p, all_ok);
        assert!(a.is_empty());
        assert_eq!(o.result, Err("systemd is not supported on this platform.".to_string()));
    }
    let (_, o) = run(openrc::status(Platform::Other), all_ok);
    assert_eq!(o.result, Err("OpenRC is not supported on this platform.".to_string()));
}

#[test]
fn systemd_start_reports_stderr() {
    let e = env(Platform::Linux, false, false, Some("/h"));
    let (a, o) = run(systemd::start(&e), |_| ok_out(false, "", "Unit not found"));
    assert_eq!(a, vec![Action::Run(cmd("systemctl", &["--user", "start", "sys-stats"]))]);
    assert_eq!(o.result, Err("systemctl start failed: Unit not found".to_string()));
    let (_, o) = run(systemd::stop(&e), all_ok);
    assert_eq!(o.result, Ok(String::new()));
    assert_eq!(o.messages, vec!["Service stopped.".to_string()]);
}

#[test]
fn systemd_status_reports_both_ways() {
    let e = env(Platform::Linux, false, true, None);
    let (_, o) = run(systemd::status(&e), |_| ok_out(true, "active", ""));
    assert_eq!(o.result, Ok("Active (systemd)\nactive".to_string()));
    let (_, o) = run(systemd::status(&e), |_| ok_out(false, "inactive", "err"));
    assert_eq!(o.result, Ok("Inactive / Error\ninactiveerr".to_string()));
}

#[test]
fn systemd_uninstall_when_absent_and_present() {
    let e = env(Platform::Linux, false, false, Some("/h"));
    let (a, o) = run(systemd::uninstall(&e), |a| match a {
        Action::CheckExists(_) => Event::Exists(false),
        Action::Run(_) => Event::Ran(Err("gone".to_string())),
        other => all_ok(other),
    });
    assert_eq!(a[0], Action::Run(cmd("systemctl", &["--user", "stop", "sys-stats"])));
    assert_eq!(a[1], Action::Run(cmd("systemctl", &["--user", "disable", "sys-stats"])));
    assert_eq!(o.result, Ok(String::new()));
    assert_eq!(o.messages, vec!["Service is not installed.".to_string()]);
    assert!(a.iter().all(|x| !matches!(x, Action::Remove(_))));
    let (a, o) = run(systemd::uninstall(&e), all_ok);
    assert_eq!(a.last().unwrap(), &Action::Run(cmd("systemctl", &["--user", "daemon-reload"])));
    assert_eq!(o.messages, vec!["Service removed: /h/.config/systemd/user/sys-stats.service".to_string()]);
    let (_, o) = run(systemd::uninstall(&e), |a| match a {
        Action::Remove(_) => Event::Removed(Err("busy".to_string())),
        other => all_ok(other),
    });
    assert_eq!(o.result, Err("busy".to_string()));
}

#[test]
fn openrc_install_plan() {
    let (a, o) = run(openrc::install(Platform::Linux, &Some("/usr/bin/agent".to_string())), all_ok);
    assert_eq!(a[0], Action::WriteFile {
        path: "/etc/init.d/sys_stats".to_string(),
        contents: "#!/sbin/openrc-run\nname=\"sys_stats\"\ndescription=\"SysStats Telemetry Agent\"\ncommand=\"/usr/bin/agent\"\ncommand_args=\"run\"\ncommand_background=\"yes\"\npidfile=\"/run/sys_stats.pid\"\n\ndepend() {\n    need net\n}\n".to_string(),
    });
    assert_eq!(a[1], Action::MakeExecutable("/etc/init.d/sys_stats".to_string()));
    assert_eq!(a[2], Action::Run(cmd("rc-update", &["add", "sys_stats", "default"])));
    assert_eq!(a[3], Action::Run(cmd("rc-service", &["sys_stats", "start"])));
    assert_eq!(o.messages.len(), 2);
    let (_, o) = run(openrc::install(Platform::Linux, &Some("/a".to_string())), |a| match a {
        Action::WriteFile { .. } => Event::Wrote(Err("denied".to_string())),
        other => all_ok(other),
    });
    assert_eq!(o.result, Err("Failed to write OpenRC script (are you root/sudo?): denied".to_string()));
    let (_, o) = run(openrc::install(Platform::Linux, &Some("/a".to_string())), |a| match a {
        Action::Run(c) if c.program == "rc-service" => ok_out(false, "", "boom"),
        Action::Run(_) => Event::Ran(Err("no rc-update".to_string())),
        other => all_ok(other),
    });
    assert_eq!(o.result, Err("rc-service start failed: boom".to_string()));
}

#[test]
fn openrc_control_and_uninstall() {
    let (a, o) = run(openrc::stop(Platform::Linux), |_| Event::Ran(Err("missing".to_string())));
    assert_eq!(a, vec![Action::Run(cmd("rc-service", &["sys_stats", "stop"]))]);
    assert_eq!(o.result, Err("missing".to_string()));
    let (_, o) = run(openrc::status(Platform::Linux), |_| ok_out(true, "started", ""));
    assert_eq!(o.result, Ok("Active (OpenRC)\nstarted".to_string()));
    let (_, o) = run(openrc::uninstall(Platform::Linux), all_ok);
    assert_eq!(o.messages, vec!["OpenRC service removed: /etc/init.d/sys_stats".to_string()]);
    let (_, o) = run(openrc::start(Platform::Linux), all_ok);
    assert_eq!(o.messages, vec!["Service started.".to_string()]);
}

#[test]
fn launchd_plans() {
    let home = Some("/Users/me".to_string());
    let (a, o) = run(launchd::install(&home, &Some("/bin/agent".to_string())), all_ok);
    assert_eq!(a[0], Action::MakeDirs("/Users/me/Library/LaunchAgents".to_string()));
    assert_eq!(a[1], Action::MakeDirs("/Users/me/Library/Logs".to_string()));
    match &a[2] {
        Action::WriteFile { path, contents } => {
            assert_eq!(path, "/Users/me/Library/LaunchAgents/com.sysstats.agent.plist");
            assert!(contents.contains("<string>com.sysstats.agent</string>"));
            assert!(contents.contains("<string>/bin/agent</string>\n        <string>run</string>"));
            assert!(contents.contains("<string>/Users/me/Library/Logs/sys_stats.log</string>"));
            assert!(contents.contains("<string>/Users/me/Library/Logs/sys_stats.err</string>"));
            assert!(contents.starts_with("<?xml version=\"1.0\" encoding=\"UTF-8\"?>\n"));
            assert!(contents.ends_with("</dict>\n</plist>\n"));
        }
        other => panic!("unexpected {:?}", other),
    }
    let plist = "/Users/me/Library/LaunchAgents/com.sysstats.agent.plist";
    assert_eq!(a[3], Action::Run(cmd("launchctl", &["unload", plist])));
    assert_eq!(a[4], Action::Run(cmd("launchctl", &["load", "-w", plist])));
    assert_eq!(o.messages, vec![format!("launchd service successfully registered at {}", plist)]);
    let (_, o) = run(launchd::install(&None, &Some("/bin/agent".to_string())), all_ok);
    assert_eq!(o.result, Err("Could not determine user home directory".to_string()));
}

#[test]
fn launchd_start_falls_back_to_start_command() {
    let home = Some("/Users/me".to_string());
    let (a, o) = run(launchd::start(&home), all_ok);
    assert_eq!(a.len(), 2);
    assert_eq!(o.result, Ok(String::new()));
    let (a, o) = run(launchd::start(&home), |a| match a {
        Action::Run(c) if c.args[0] == "load" => ok_out(false, "", "already loaded"),
        other => all_ok(other),
    });
    assert_eq!(a[2], Action::Run(cmd("launchctl", &["start", "com.sysstats.agent"])));
    assert_eq!(o.result, Ok(String::new()));
    assert_eq!(o.messages, vec!["Service started.".to_string()]);
    let (a, o) = run(launchd::start(&home), |a| match a {
        Action::Run(_) => ok_out(false, "", "no such service"),
        other => all_ok(other),
    });
    assert_eq!(a.len(), 3);
    assert_eq!(o.result, Err("Failed to start service: no such service".to_string()));
    assert!(o.messages.is_empty());
    let (_, o) = run(launchd::start(&home), |a| match a {
        Action::Run(c) if c.args[0] == "load" => ok_out(false, "", "x"),
        Action::Run(_) => Event::Ran(Err("not found".to_string())),
        other => all_ok(other),
    });
    assert_eq!(o.result, Err("Failed to execute launchctl: not found".to_string()));
    let (_, o) = run(launchd::stop(&home), |a| match a {
        Action::Run(_) => ok_out(false, "", "not loaded"),
        other => all_ok(other),
    });
    assert_eq!(o.result, Err("Failed to stop service: not loaded".to_string()));
}

#[test]
fn launchd_status_and_uninstall() {
    let (_, o) = run(launchd::status(), |_| ok_out(false, "x", "y"));
    assert_eq!(o.result, Ok("Inactive (not running or not loaded)".to_string()));
    let (_, o) = run(launchd::status(), |_| ok_out(true, "PID 12", ""));
    assert_eq!(o.result, Ok("Active (launchd)\nPID 12".to_string()));
    let home = Some("/Users/me".to_string());
    let (a, o) = run(launchd::uninstall(&home), |a| match a {
        Action::CheckExists(_) => Event::Exists(false),
        other => all_ok(other),
    });
    assert_eq!(a.len(), 2);
    assert_eq!(o.messages, vec!["Service is not installed.".to_string()]);
}

#[test]
fn windows_plans() {
    let (a, o) = run(windows::install(&Some("C:\\a.exe".to_string())), all_ok);
    assert_eq!(a[0], Action::Run(cmd("schtasks", &["/Create", "/SC", "ONLOGON", "/TN", "SysStatsAgent", "/TR", "\"C:\\a.exe\" run", "/F"])));
    assert_eq!(a[1], Action::Run(cmd("schtasks", &["/Run", "/TN", "SysStatsAgent"])));
    assert_eq!(o.messages, vec!["Windows startup task successfully registered.".to_string()]);
    let (_, o) = run(windows::install(&Some("a".to_string())), |_| ok_out(false, "", "denied"));
    assert_eq!(o.result, Err("Failed to register scheduled task: denied".to_string()));
    let (_, o) = run(windows::status(), |_| ok_out(false, "", ""));
    assert_eq!(o.result, Ok("Inactive (task not found or disabled)".to_string()));
    let (a, _) = run(windows::status(), all_ok);
    assert_eq!(a[0], Action::Run(cmd("schtasks", &["/Query", "/TN", "SysStatsAgent", "/FO", "LIST", "/V"])));
    let (_, o) = run(windows::uninstall(), |a| match a {
        Action::Run(c) if c.args[0] == "/Delete" => ok_out(false, "", ""),
        other => all_ok(other),
    });
    assert_eq!(o.messages, vec!["Task was not found.".to_string()]);
    let (_, o) = run(windows::uninstall(), all_ok);
    assert_eq!(o.messages, vec!["Windows task removed.".to_string()]);
    let (_, o) = run(windows::stop(), |_| ok_out(false, "", "not running"));
    assert_eq!(o.result, Err("Failed to stop task: not running".to_string()));
    let (_, o) = run(windows::start(), |_| ok_out(false, "", "x"));
    assert_eq!(o.result, Err("Failed to run task: x".to_string()));
}

#[test]
fn dispatch_follows_resolved_manager() {
    let mac = env(Platform::MacOs, false, false, Some("/Users/me"));
    assert_eq!(start(InitManager::Auto, &mac), launchd::start(&mac.home));
    assert_eq!(stop(InitManager::Windows, &mac), windows::stop());
    let lin = env(Platform::Linux, true, true, None);
    assert_eq!(status(InitManager::Auto, &lin), openrc::status(Platform::Linux));
    assert_eq!(uninstall(InitManager::Systemd, &lin), systemd::uninstall(&lin));
    assert_eq!(install(InitManager::Auto, &lin, &Some("/a".to_string())), openrc::install(Platform::Linux, &Some("/a".to_string())));
}

#[test]
fn status_plans_report_after_run() {
    let lin = env(Platform::Linux, false, false, Some("/h"));
    for m in [InitManager::Auto, InitManager::Launchd, InitManager::Systemd, InitManager::Openrc, InitManager::Windows] {
        for success in [false, true] {
            let (_, o) = run(status(m, &lin), |_| ok_out(success, "o", "e"));
            assert!(o.result.is_ok());
        }
    }
}

#[test]
fn runner_hands_out_one_action_per_step() {
    let plan = Plan {
        steps: vec![
            Step::MakeDirs("/d".to_string()),
            Step::Run { command: cmd("a", &[]), on_error: OnExecError::Ignore, on_status: OnStatus::SkipNextOnSuccess },
            Step::Run { command: cmd("b", &[]), on_error: OnExecError::Ignore, on_status: OnStatus::Ignore },
            Step::Run { command: cmd("c", &[]), on_error: OnExecError::Ignore, on_status: OnStatus::Announce { ok: "yes".to_string(), failed: "no".to_string() } },
        ],
        done_messages: vec!["done".to_string()],
    };
    let (a, o) = run(plan.clone(), all_ok);
    assert_eq!(a.len(), 3);
    assert_eq!(o.messages, vec!["yes".to_string(), "done".to_string()]);
    let (a, o) = run(plan, |a| match a {
        Action::Run(_) => ok_out(false, "", ""),
        other => all_ok(other),
    });
    assert_eq!(a.len(), 4);
    assert_eq!(o.messages, vec!["no".to_string(), "done".to_string()]);
    let report = Plan {
        steps: vec![Step::Run { command: cmd("s", &[]), on_error: OnExecError::Fail("x: ".to_string()), on_status: OnStatus::Report { active: "A:".to_string(), inactive: Inactive::WithOutput("I:".to_string()) } }],
        done_messages: vec![],
    };
    let (_, o) = run(report, |_| Event::Ran(Err("e".to_string())));
    assert_eq!(o.result, Err("x: e".to_string()));
    let (a, o) = run(Plan { steps: vec![Step::Fail("nope".to_string())], done_messages: vec!["z".to_string()] }, all_ok);
    assert!(a.is_empty());
    assert_eq!(o.result, Err("nope".to_string()));
    assert!(o.messages.is_empty());
}

#[test]
fn uninstall_removes_the_installed_file() {
    let cases = [
        (InitManager::Systemd, env(Platform::Linux, false, false, Some("/home/u"))),
        (InitManager::Systemd, env(Platform::Linux, false, true, None)),
        (InitManager::Openrc, env(Platform::Linux, true, true, None)),
        (InitManager::Launchd, env(Platform::MacOs, false, false, Some("/Users/me"))),
    ];
    for (m, e) in cases {
        let installed: Vec<String> = install(m, &e, &Some("/bin/agent".to_string()))
            .steps
            .into_iter()
            .filter_map(|s| match s {
                Step::WriteFile { path, .. } => Some(path),
                _ => None,
            })
            .collect();
        assert_eq!(installed.len(), 1);
        let removed: Vec<String> = uninstall(m, &e)
            .steps
            .into_iter()
            .filter_map(|s| match s {
                Step::Remove(path) => Some(path),
                _ => None,
            })
            .collect();
        assert_eq!(installed, removed);
    }
}

#[test]
fn platform_names() {
    assert_eq!(platform_from_os("macos", true), Platform::MacOs);
    assert_eq!(platform_from_os("windows", false), Platform::Windows);
    assert_eq!(platform_from_os("linux", true), Platform::Linux);
    assert_eq!(platform_from_os("freebsd", true), Platform::OtherUnix);
    assert_eq!(platform_from_os("uefi", false), Platform::Other);
}

#[test]
fn service_run_checks_the_outcome_kind() {
    let e = env(Platform::Linux, false, true, None);
    let (r, a) = ServiceRun::begin(systemd::start(&e));
    assert!(matches!(a, Action::Run(_)));
    assert!(r.accepts_event(&ok_out(true, "", "")));
    assert!(r.accepts_event(&Event::Ran(Err("x".to_string()))));
    assert!(!r.accepts_event(&Event::DirsMade));
    assert!(!r.accepts_event(&Event::Exists(true)));
    let (r, a) = ServiceRun::begin(windows::install(&None));
    assert!(matches!(a, Action::Finish(_)));
    assert!(!r.accepts_event(&ok_out(true, "", "")));
}
