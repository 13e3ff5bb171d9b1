use sys_stats::backend::{
    begin_verify_user, cooldown_from_db, cooldown_ready, device_token_from_header, email_to_store,
    finish_verify_user, flag_from_db, live_metric_body, metric_kind, records_last_seen,
    resolve_device, rule_settings, should_send_email, skips_ownership_check, DeviceAuth,
    MetricKind, UserCheck, VerifiedUser,
};

#[test]
fn user_check_stages() {
    assert_eq!(begin_verify_user("Token x", &Some("https://s".into())), UserCheck::Reject("Missing or invalid Authorization header".to_string()));
    assert_eq!(begin_verify_user("Bearer x", &None), UserCheck::Dev(VerifiedUser { id: "local-dev-user-id".into(), email: Some("dev@example.com".into()) }));
    assert_eq!(begin_verify_user("Bearer x", &Some("https://s.co".into())), UserCheck::Ask("https://s.co/auth/v1/user".to_string()));
    let u = VerifiedUser { id: "u1".into(), email: None };
    assert_eq!(finish_verify_user(401, Ok(u.clone())), Err("Invalid JWT token".to_string()));
    assert_eq!(finish_verify_user(200, Ok(u.clone())), Ok(u));
    assert_eq!(finish_verify_user(200, Err("bad json".into())), Err("bad json".to_string()));
}

#[test]
fn device_token_header() {
    assert_eq!(device_token_from_header("Bearer tok").unwrap(), "tok");
    let e = device_token_from_header("Bearer ").unwrap_err();
    assert_eq!((e.status, e.message.as_str()), (401, "Missing auth token"));
    assert_eq!(device_token_from_header("").unwrap_err().status, 401);
    assert_eq!(device_token_from_header("tok").unwrap_err().message, "Missing auth token");
}

#[test]
fn device_resolution_with_dev_fallback() {
    let d = DeviceAuth { id: "d".into(), user_id: "u".into(), name: "n".into() };
    assert_eq!(resolve_device(Some(d.clone()), "dev_token"), Ok(d));
    let dev = resolve_device(None, "dev_token").unwrap();
    assert_eq!((dev.id.as_str(), dev.user_id.as_str(), dev.name.as_str()), ("local-dev-device-id", "local-dev-user-id", "Dev Device"));
    let e = resolve_device(None, "other").unwrap_err();
    assert_eq!((e.status, e.message.as_str()), (401, "Invalid device token"));
    assert!(!records_last_seen("dev_token"));
    assert!(records_last_seen("abc"));
}

#[test]
fn stored_email_and_mail_decision() {
    assert_eq!(email_to_store(&None, "u1"), "u1@placeholder.com");
    assert_eq!(email_to_store(&Some("a@b.c".into()), "u1"), "a@b.c");
    assert!(should_send_email(1, "a@b.c"));
    assert!(!should_send_email(0, "a@b.c"));
    assert!(!should_send_email(1, "u1@placeholder.com"));
}

#[test]
fn metric_kinds_and_flags() {
    assert_eq!(metric_kind("cpu"), Some(MetricKind::Cpu));
    assert_eq!(metric_kind("memory"), Some(MetricKind::Memory));
    assert_eq!(metric_kind("disk"), Some(MetricKind::Disk));
    assert_eq!(metric_kind("temperature"), Some(MetricKind::Temperature));
    assert_eq!(metric_kind("CPU"), None);
    assert!(cooldown_ready(Some(1)));
    assert!(!cooldown_ready(Some(0)));
    assert!(!cooldown_ready(None));
    assert!(flag_from_db(1));
    assert!(!flag_from_db(2));
    assert_eq!(cooldown_from_db(900), 900);
    assert_eq!(cooldown_from_db(-1), u32::MAX);
    assert!(skips_ownership_check("local-dev-user-id"));
    assert!(!skips_ownership_check("u"));
    assert_eq!(live_metric_body(None), "null");
    assert_eq!(live_metric_body(Some("{}".into())), "{}");
}

#[test]
fn rule_defaults() {
    let r = rule_settings(None, None, None, None);
    assert_eq!((r.device_id, r.cooldown_seconds, r.notify_email, r.notify_browser), (None, 900, true, true));
    let r = rule_settings(Some(String::new()), Some(60), Some(false), Some(true));
    assert_eq!((r.device_id, r.cooldown_seconds, r.notify_email, r.notify_browser), (None, 60, false, true));
    let r = rule_settings(Some("d1".into()), None, None, Some(false));
    assert_eq!(r.device_id, Some("d1".to_string()));
    assert!(!r.notify_browser);
}
