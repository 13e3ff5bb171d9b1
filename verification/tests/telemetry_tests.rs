use sys_stats::telemetry::{LoopAction, LoopEvent, LoopPhase, TelemetryLoop};

fn describe(a: &LoopAction) -> String {
    match a {
        LoopAction::Sleep(s) => format!("sleep {}", s),
        LoopAction::Sample => "sample".to_string(),
        LoopAction::Post { url, token } => format!("post {} {}", url, token),
        LoopAction::Warn(w) => format!("warn {}", w),
    }
}

#[test]
fn telemetry_loop_starts_with_a_wait_of_at_least_one_second() {
    let (l, a) = TelemetryLoop::begin(0, "https://api.example.com/", "tok".to_string());
    assert_eq!(l.interval, 1);
    assert_eq!(l.url, "https://api.example.com/api/metrics");
    assert_eq!(l.phase, LoopPhase::Sleeping);
    assert_eq!(describe(&a), "sleep 1");
    let (l, a) = TelemetryLoop::begin(30, "http://h", "tok".to_string());
    assert_eq!(l.interval, 30);
    assert_eq!(describe(&a), "sleep 30");
}

#[test]
fn telemetry_loop_rounds_continue_after_any_upload_outcome() {
    let (mut l, first) = TelemetryLoop::begin(5, "http://h", "tok".to_string());
    let mut seen = vec![describe(&first)];
    let answers: Vec<Result<(u16, String, String), String>> = vec![
        Ok((200, "200 OK".to_string(), String::new())),
        Ok((500, "500 Internal Server Error".to_string(), "boom".to_string())),
        Err("connection refused".to_string()),
        Ok((204, "204 No Content".to_string(), String::new())),
    ];
    for answer in answers {
        for ev in [LoopEvent::Slept, LoopEvent::Sampled, LoopEvent::Posted(answer.clone())] {
            assert!(l.expects_event(&ev));
            let a = l.step(ev);
            seen.push(describe(&a));
        }
        if let LoopPhase::Warning = l.phase {
            assert!(!l.expects_event(&LoopEvent::Slept));
            let a = l.step(LoopEvent::Warned);
            seen.push(describe(&a));
        }
    }
    let expected = vec![
        "sleep 5",
        "sample",
        "post http://h/api/metrics tok",
        "sleep 5",
        "sample",
        "post http://h/api/metrics tok",
        "warn [WARN] Server returned status 500 Internal Server Error: boom",
        "sleep 5",
        "sample",
        "post http://h/api/metrics tok",
        "warn [WARN] Failed to sync telemetry: connection refused",
        "sleep 5",
        "sample",
        "post http://h/api/metrics tok",
        "sleep 5",
    ];
    assert_eq!(seen, expected);
}

#[test]
fn telemetry_loop_checks_the_outcome_kind() {
    let (l, _) = TelemetryLoop::begin(5, "http://h", "tok".to_string());
    assert!(l.expects_event(&LoopEvent::Slept));
    assert!(!l.expects_event(&LoopEvent::Sampled));
    assert!(!l.expects_event(&LoopEvent::Posted(Err("x".to_string()))));
    assert!(!l.expects_event(&LoopEvent::Warned));
}
