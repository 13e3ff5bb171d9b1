use sys_stats::config::Config;
use sys_stats::service::InitManager;
use sys_stats::status::{connectivity_report, health_url, service_report, status_lines, upload_warning};

#[test]
fn status_summary_lines() {
    let c = Config::default();
    let lines = status_lines(&c, "/etc/sys_stats/config.json", InitManager::Systemd);
    assert_eq!(lines, vec![
        "\n--- SysStats Agent Status ---".to_string(),
        "Config Path:     /etc/sys_stats/config.json".to_string(),
        "API Endpoint:    https://backend-api.krequiem.workers.dev".to_string(),
        "Device Name:     (not registered)".to_string(),
        "Device Token:    Missing".to_string(),
        "Detected Init:   Systemd".to_string(),
    ]);
    let mut c = Config::default();
    c.device_name = Some("Box".into());
    c.device_token = Some(String::new());
    let lines = status_lines(&c, "p", InitManager::Launchd);
    assert_eq!(lines[3], "Device Name:     Box");
    assert_eq!(lines[4], "Device Token:    Configured");
    assert_eq!(lines[5], "Detected Init:   Launchd");
}

#[test]
fn connectivity_verdicts() {
    assert_eq!(connectivity_report(Ok((401, "401 Unauthorized".into()))), "OK (Reachable)");
    assert_eq!(connectivity_report(Ok((200, "200 OK".into()))), "OK (Reachable)");
    assert_eq!(connectivity_report(Ok((502, "502 Bad Gateway".into()))), "Degraded (HTTP 502 Bad Gateway)");
    assert_eq!(connectivity_report(Err("dns error".into())), "Unreachable (dns error)");
    assert_eq!(health_url("https://x.dev/"), "https://x.dev/api/devices");
}

#[test]
fn service_and_upload_lines() {
    assert_eq!(service_report(Ok("Active".into())), "Active");
    assert_eq!(service_report(Err("boom".into())), "Service check failed: boom");
    assert_eq!(upload_warning(Ok((204, "204 No Content".into(), String::new()))), None);
    assert_eq!(upload_warning(Ok((500, "500 Internal Server Error".into(), "oops".into()))), Some("[WARN] Server returned status 500 Internal Server Error: oops".to_string()));
    assert_eq!(upload_warning(Err("timed out".into())), Some("[WARN] Failed to sync telemetry: timed out".to_string()));
}
