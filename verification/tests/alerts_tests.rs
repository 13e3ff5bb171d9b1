use sys_stats::alerts::{AlertAction, AlertInput, AlertRun, AlertStage};

/// Runs the rule handling, answering from the given outcomes, and returns the
/// work handed out.
fn drive(notify_email: i64, breached: bool, ready: Option<i64>, email: Option<&str>) -> Vec<AlertAction> {
    let (mut run, mut action) = AlertRun::begin(notify_email);
    let mut seen = vec![action.clone()];
    while action != AlertAction::Finished {
        let input = match &action {
            AlertAction::CompareThreshold => AlertInput::Breached(breached),
            AlertAction::CheckCooldown => AlertInput::Ready(ready),
            AlertAction::RecordHistory => AlertInput::Recorded,
            AlertAction::MarkTriggered => AlertInput::Marked,
            AlertAction::LookupEmail => AlertInput::Email(email.map(|e| e.to_string())),
            AlertAction::SendEmail(_) => AlertInput::Sent,
            AlertAction::Finished => unreachable!(),
        };
        assert!(run.expects_input(&input));
        assert!(!run.expects_input(&AlertInput::Sent) || matches!(action, AlertAction::SendEmail(_)));
        action = run.step(input);
        seen.push(action.clone());
    }
    assert_eq!(run.stage, AlertStage::Done);
    seen
}

#[test]
fn breached_rule_is_recorded_and_mailed() {
    assert_eq!(
        drive(1, true, Some(1), Some("a@b.c")),
        vec![
            AlertAction::CompareThreshold,
            AlertAction::CheckCooldown,
            AlertAction::RecordHistory,
            AlertAction::MarkTriggered,
            AlertAction::LookupEmail,
            AlertAction::SendEmail("a@b.c".to_string()),
            AlertAction::Finished,
        ]
    );
}

#[test]
fn quiet_rule_stops_early() {
    assert_eq!(drive(1, false, Some(1), Some("a@b.c")), vec![AlertAction::CompareThreshold, AlertAction::Finished]);
    assert_eq!(drive(1, true, Some(0), Some("a@b.c")).len(), 3);
    assert_eq!(drive(1, true, None, Some("a@b.c")).last(), Some(&AlertAction::Finished));
}

#[test]
fn mail_needs_flag_and_real_address() {
    let no_flag = drive(0, true, Some(1), Some("a@b.c"));
    assert!(no_flag.contains(&AlertAction::RecordHistory));
    assert!(!no_flag.contains(&AlertAction::LookupEmail));
    let placeholder = drive(1, true, Some(1), Some("u1@placeholder.com"));
    assert!(placeholder.contains(&AlertAction::LookupEmail));
    assert!(!placeholder.iter().any(|a| matches!(a, AlertAction::SendEmail(_))));
    let missing = drive(1, true, Some(1), None);
    assert_eq!(missing.last(), Some(&AlertAction::Finished));
    assert!(!missing.iter().any(|a| matches!(a, AlertAction::SendEmail(_))));
}

#[test]
fn alert_run_checks_the_outcome_kind() {
    let (run, _) = AlertRun::begin(1);
    assert!(run.expects_input(&AlertInput::Breached(true)));
    assert!(!run.expects_input(&AlertInput::Ready(Some(1))));
    assert!(!run.expects_input(&AlertInput::Sent));
    let done = AlertRun { stage: AlertStage::Done, notify_email: 1 };
    assert!(!done.expects_input(&AlertInput::Breached(false)));
}
