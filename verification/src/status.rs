//! What the agent reports about itself: its configuration summary, whether
//! the backend answers, and warnings about failed uploads.

use vstd::prelude::*;
use crate::collector::is_success_status;
use crate::config::{endpoint, spec_endpoint, Config};
use crate::service::{manager_name, spec_manager_name, InitManager};
use crate::text::{cat, lit, opt_view};

verus! {

pub open spec fn spec_status_lines(
    config_path: Seq<char>,
    api_url: Seq<char>,
    device_name: Option<Seq<char>>,
    has_token: bool,
    detected: InitManager,
) -> Seq<Seq<char>> {
    seq![
        "\n--- SysStats Agent Status ---"@,
        "Config Path:     "@ + config_path,
        "API Endpoint:    "@ + api_url,
        "Device Name:     "@ + match device_name {
            Some(n) => n,
            None => "(not registered)"@,
        },
        "Device Token:    "@ + if has_token {
            "Configured"@
        } else {
            "Missing"@
        },
        "Detected Init:   "@ + spec_manager_name(detected),
    ]
}

/// The summary lines of `sys_stats status`.
pub fn status_lines(cfg: &Config, config_path: &str, detected: InitManager) -> (lines: Vec<String>)
    ensures
        lines@.map_values(|s: String| s@) == spec_status_lines(
            config_path@,
            cfg.api_url@,
            cfg@.device_name,
            cfg.device_token is Some,
            detected,
        ),
{
    let name = match &cfg.device_name {
        Some(n) => cat("Device Name:     ", n.as_str()),
        None => lit("Device Name:     (not registered)"),
    };
    let token = if cfg.device_token.is_some() {
        lit("Device Token:    Configured")
    } else {
        lit("Device Token:    Missing")
    };
    let lines = vec![
        lit("\n--- SysStats Agent Status ---"),
        cat("Config Path:     ", config_path),
        cat("API Endpoint:    ", cfg.api_url.as_str()),
        name,
        token,
        cat("Detected Init:   ", manager_name(detected)),
    ];
    proof {
        reveal_strlit("Device Name:     (not registered)");
        reveal_strlit("Device Name:     ");
        reveal_strlit("(not registered)");
        reveal_strlit("Device Token:    Configured");
        reveal_strlit("Device Token:    Missing");
        reveal_strlit("Device Token:    ");
        reveal_strlit("Configured");
        reveal_strlit("Missing");
    }
    assert("Device Name:     (not registered)"@ =~= "Device Name:     "@ + "(not registered)"@);
    assert("Device Token:    Configured"@ =~= "Device Token:    "@ + "Configured"@);
    assert("Device Token:    Missing"@ =~= "Device Token:    "@ + "Missing"@);
    assert(lines@.map_values(|s: String| s@) =~= spec_status_lines(
        config_path@,
        cfg.api_url@,
        cfg@.device_name,
        cfg.device_token is Some,
        detected,
    ));
    lines
}

/// The URL whose answer shows whether the backend is reachable.
pub fn health_url(api_url: &str) -> (url: String)
    ensures
        url@ == spec_endpoint(api_url@, "/api/devices"@),
{
    endpoint(api_url, "/api/devices")
}

/// The connectivity verdict for an answer with `code` (shown as
/// `code_text`), or for a request that failed with `Err`: any success or
/// client-error answer proves the backend reachable, since an unauthorised
/// request is expected to be refused.
pub fn connectivity_report(answer: Result<(u16, String), String>) -> (line: String)
    ensures
        line@ == match answer {
            Ok((code, text)) => if is_success_status(code) || (400 <= code <= 499) {
                "OK (Reachable)"@
            } else {
                "Degraded (HTTP "@ + text@ + ")"@
            },
            Err(e) => "Unreachable ("@ + e@ + ")"@,
        },
{
    match answer {
        Ok((code, text)) => if (200 <= code && code <= 299) || (400 <= code && code <= 499) {
            lit("OK (Reachable)")
        } else {
            cat("Degraded (HTTP ", text.as_str()).concat(")")
        },
        Err(e) => cat("Unreachable (", e.as_str()).concat(")"),
    }
}

/// The service line of the status report.
pub fn service_report(status: Result<String, String>) -> (line: String)
    ensures
        line@ == match status {
            Ok(s) => s@,
            Err(e) => "Service check failed: "@ + e@,
        },
{
    match status {
        Ok(s) => s,
        Err(e) => cat("Service check failed: ", e.as_str()),
    }
}

/// The character view of an upload's answer: status code, status text and
/// body of the response, or the error of a request that failed.
pub open spec fn answer_view(answer: Result<(u16, String, String), String>) -> Result<
    (u16, Seq<char>, Seq<char>),
    Seq<char>,
> {
    match answer {
        Ok((code, text, body)) => Ok((code, text@, body@)),
        Err(e) => Err(e@),
    }
}

pub open spec fn spec_upload_warning(answer: Result<(u16, Seq<char>, Seq<char>), Seq<char>>) -> Option<
    Seq<char>,
> {
    match answer {
        Ok((code, text, body)) => if is_success_status(code) {
            None
        } else {
            Some("[WARN] Server returned status "@ + text + ": "@ + body)
        },
        Err(e) => Some("[WARN] Failed to sync telemetry: "@ + e),
    }
}

/// The warning after an upload: none for a success (2xx) answer, the status
/// and body for any other answer, the error when the request failed.
pub fn upload_warning(answer: Result<(u16, String, String), String>) -> (w: Option<String>)
    ensures
        opt_view(w) == spec_upload_warning(answer_view(answer)),
{
    match answer {
        Ok((code, text, body)) => if 200 <= code && code <= 299 {
            None
        } else {
            Some(cat("[WARN] Server returned status ", text.as_str()).concat(": ").concat(body.as_str()))
        },
        Err(e) => Some(cat("[WARN] Failed to sync telemetry: ", e.as_str())),
    }
}

/// An upload answer yields no warning exactly when its status is 2xx; any
/// other status warns with the status text and the body, and a request that
/// could not be sent warns with its error.
pub proof fn lemma_upload_warning_unless_accepted(answer: Result<(u16, Seq<char>, Seq<char>), Seq<char>>)
    ensures
        answer matches Ok((code, text, body)) ==> {
            &&& (spec_upload_warning(answer) is None <==> 200 <= code && code <= 299)
            &&& !(200 <= code && code <= 299) ==> spec_upload_warning(answer) == Some(
                "[WARN] Server returned status "@ + text + ": "@ + body,
            )
        },
        answer matches Err(e) ==> spec_upload_warning(answer) == Some(
            "[WARN] Failed to sync telemetry: "@ + e,
        ),
{
}

} // verus!
