//! Decisions of the metrics backend: who a request comes from, which device
//! posts samples, what is stored for a user and a rule, and when an alert
//! mail goes out.

use vstd::prelude::*;
use crate::text::opt_view;
use crate::text::{cat, ends_with, has_prefix, has_suffix, lit, starts_with, strip_prefix};

verus! {

pub const DEV_TOKEN: &'static str = "dev_token";

pub const DEV_USER_ID: &'static str = "local-dev-user-id";

pub const DEV_USER_EMAIL: &'static str = "dev@example.com";

pub const DEV_DEVICE_ID: &'static str = "local-dev-device-id";

pub const DEV_DEVICE_NAME: &'static str = "Dev Device";

pub const PLACEHOLDER_DOMAIN: &'static str = "@placeholder.com";

/// Seconds between two alerts of one rule unless the rule says otherwise.
pub const DEFAULT_COOLDOWN_SECS: u32 = 900;

/// An error answer: its HTTP status and text.
#[derive(Clone, Debug, PartialEq, Eq)]
pub struct ApiError {
    pub status: u16,
    pub message: String,
}

/// A user whose bearer token the identity service accepted.
#[derive(Clone, Debug, PartialEq, Eq)]
pub struct VerifiedUser {
    pub id: String,
    pub email: Option<String>,
}

/// The first stage of checking a user's bearer token.
#[derive(Clone, Debug, PartialEq, Eq)]
pub enum UserCheck {
    /// The request is refused with this reason.
    Reject(String),
    /// No identity service is configured: the request runs as the development user.
    Dev(VerifiedUser),
    /// The token must be checked by fetching this URL.
    Ask(String),
}

/// Starts checking the `Authorization` header against the identity service
/// at `supabase_url` (absent when none is configured).
pub fn begin_verify_user(auth_header: &str, supabase_url: &Option<String>) -> (c: UserCheck)
    ensures
        !has_prefix(auth_header@, "Bearer "@) ==> (c matches UserCheck::Reject(m)
            && m@ == "Missing or invalid Authorization header"@),
        has_prefix(auth_header@, "Bearer "@) ==> match supabase_url {
            None => c matches UserCheck::Dev(u) && u.id@ == DEV_USER_ID@ && (u.email matches Some(
                e,
            ) && e@ == DEV_USER_EMAIL@),
            Some(base) => c matches UserCheck::Ask(url) && url@ == base@ + "/auth/v1/user"@,
        },
{
    if !starts_with(auth_header, "Bearer ") {
        return UserCheck::Reject(lit("Missing or invalid Authorization header"));
    }
    match supabase_url {
        None => UserCheck::Dev(VerifiedUser { id: lit(DEV_USER_ID), email: Some(lit(DEV_USER_EMAIL)) }),
        Some(base) => UserCheck::Ask(cat(base.as_str(), "/auth/v1/user")),
    }
}

/// Finishes the check from the identity service's status and the user it
/// described (or why its answer could not be read).
pub fn finish_verify_user(status: u16, user: Result<VerifiedUser, String>) -> (r: Result<
    VerifiedUser,
    String,
>)
    ensures
        status != 200 ==> (r matches Err(m) && m@ == "Invalid JWT token"@),
        status == 200 ==> r == user,
{
    if status != 200 {
        Err(lit("Invalid JWT token"))
    } else {
        user
    }
}

/// The device token of a sample upload: what follows `Bearer ` in the
/// header; a missing or empty one is refused with 401.
pub fn device_token_from_header(auth_header: &str) -> (r: Result<String, ApiError>)
    ensures
        match r {
            Ok(t) => has_prefix(auth_header@, "Bearer "@) && t@ == auth_header@.subrange(
                7,
                auth_header@.len() as int,
            ) && t@.len() > 0,
            Err(e) => e.status == 401 && e.message@ == "Missing auth token"@ && (!has_prefix(
                auth_header@,
                "Bearer "@,
            ) || auth_header@.len() == 7),
        },
{
    proof {
        reveal_strlit("Bearer ");
    }
    match strip_prefix(auth_header, "Bearer ") {
        Some(t) => if t.as_str().unicode_len() > 0 {
            Ok(t)
        } else {
            Err(ApiError { status: 401, message: lit("Missing auth token") })
        },
        None => Err(ApiError { status: 401, message: lit("Missing auth token") }),
    }
}

/// A registered device as looked up by its token.
#[derive(Clone, Debug, PartialEq, Eq)]
pub struct DeviceAuth {
    pub id: String,
    pub user_id: String,
    pub name: String,
}

/// The device a sample upload belongs to: the one registered with the token,
/// else the development device for the development token; any other token is
/// refused with 401.
pub fn resolve_device(found: Option<DeviceAuth>, token: &str) -> (r: Result<DeviceAuth, ApiError>)
    ensures
        match found {
            Some(d) => r == Ok::<DeviceAuth, ApiError>(d),
            None => if token@ == DEV_TOKEN@ {
                r matches Ok(d) && d.id@ == DEV_DEVICE_ID@ && d.user_id@ == DEV_USER_ID@
                    && d.name@ == DEV_DEVICE_NAME@
            } else {
                r matches Err(e) && e.status == 401 && e.message@ == "Invalid device token"@
            },
        },
{
    match found {
        Some(d) => Ok(d),
        None => if lit(token) == lit(DEV_TOKEN) {
            Ok(
                DeviceAuth {
                    id: lit(DEV_DEVICE_ID),
                    user_id: lit(DEV_USER_ID),
                    name: lit(DEV_DEVICE_NAME),
                },
            )
        } else {
            Err(ApiError { status: 401, message: lit("Invalid device token") })
        },
    }
}

/// Whether an upload with `token` updates the device's last-seen time (every
/// token but the development one).
pub fn records_last_seen(token: &str) -> (b: bool)
    ensures
        b == (token@ != DEV_TOKEN@),
{
    !(lit(token) == lit(DEV_TOKEN))
}

/// The address stored for a user: theirs, or a placeholder under the user id.
pub fn email_to_store(email: &Option<String>, user_id: &str) -> (e: String)
    ensures
        e@ == match email {
            Some(m) => m@,
            None => user_id@ + PLACEHOLDER_DOMAIN@,
        },
{
    match email {
        Some(m) => m.clone(),
        None => cat(user_id, PLACEHOLDER_DOMAIN),
    }
}

/// The metrics an alert rule can watch.
#[derive(Clone, Copy, Debug, PartialEq, Eq, Structural)]
pub enum MetricKind {
    Cpu,
    Memory,
    Disk,
    Temperature,
}

pub open spec fn spec_metric_kind(name: Seq<char>) -> Option<MetricKind> {
    if name == "cpu"@ {
        Some(MetricKind::Cpu)
    } else if name == "memory"@ {
        Some(MetricKind::Memory)
    } else if name == "disk"@ {
        Some(MetricKind::Disk)
    } else if name == "temperature"@ {
        Some(MetricKind::Temperature)
    } else {
        None
    }
}

/// The metric a rule's type names; rules of any other type never fire.
pub fn metric_kind(name: &str) -> (k: Option<MetricKind>)
    ensures
        k == spec_metric_kind(name@),
{
    let n = lit(name);
    if n == lit("cpu") {
        Some(MetricKind::Cpu)
    } else if n == lit("memory") {
        Some(MetricKind::Memory)
    } else if n == lit("disk") {
        Some(MetricKind::Disk)
    } else if n == lit("temperature") {
        Some(MetricKind::Temperature)
    } else {
        None
    }
}

/// Whether an alert may fire now: the store answered that the rule's
/// cooldown has passed (its `ready` column is 1).
pub fn cooldown_ready(ready: Option<i64>) -> (b: bool)
    ensures
        b == (ready == Some(1i64)),
{
    match ready {
        Some(v) => v == 1,
        None => false,
    }
}

/// Whether a fired alert is mailed: the rule asks for mail (flag 1) and the
/// user's stored address is a real one, not a placeholder.
pub fn should_send_email(notify_email: i64, stored_email: &str) -> (b: bool)
    ensures
        b == (notify_email == 1 && !has_suffix(stored_email@, PLACEHOLDER_DOMAIN@)),
{
    notify_email == 1 && !ends_with(stored_email, PLACEHOLDER_DOMAIN)
}

/// How a new alert rule is stored.
#[derive(Clone, Debug, PartialEq, Eq)]
pub struct RuleSettings {
    pub device_id: Option<String>,
    pub cooldown_seconds: u32,
    pub notify_email: bool,
    pub notify_browser: bool,
}

/// The stored form of a rule request: a device scope only for a non-empty
/// device id, a 15-minute cooldown and both notifications unless the request
/// says otherwise.
pub fn rule_settings(
    device_id: Option<String>,
    cooldown_seconds: Option<u32>,
    notify_email: Option<bool>,
    notify_browser: Option<bool>,
) -> (s: RuleSettings)
    ensures
        opt_view(s.device_id) == match device_id {
            Some(d) if d@.len() > 0 => Some(d@),
            _ => None,
        },
        s.cooldown_seconds == match cooldown_seconds {
            Some(c) => c,
            None => DEFAULT_COOLDOWN_SECS,
        },
        s.notify_email == match notify_email {
            Some(b) => b,
            None => true,
        },
        s.notify_browser == match notify_browser {
            Some(b) => b,
            None => true,
        },
{
    let dev = match device_id {
        Some(d) => if d.as_str().unicode_len() > 0 {
            Some(d)
        } else {
            None
        },
        None => None,
    };
    RuleSettings {
        device_id: dev,
        cooldown_seconds: match cooldown_seconds {
            Some(c) => c,
            None => DEFAULT_COOLDOWN_SECS,
        },
        notify_email: match notify_email {
            Some(b) => b,
            None => true,
        },
        notify_browser: match notify_browser {
            Some(b) => b,
            None => true,
        },
    }
}

/// A stored 0/1 flag read as a boolean: only 1 is set.
pub fn flag_from_db(v: i64) -> (b: bool)
    ensures
        b == (v == 1),
{
    v == 1
}

/// A stored cooldown read back as the API's 32-bit count (truncating).
pub fn cooldown_from_db(v: i64) -> (c: u32)
    ensures
        c == v as u32,
{
    v as u32
}

/// Whether a user may read any device's live sample without an ownership
/// check (only the development user).
pub fn skips_ownership_check(user_id: &str) -> (b: bool)
    ensures
        b == (user_id@ == DEV_USER_ID@),
{
    lit(user_id) == lit(DEV_USER_ID)
}

/// The body of a live-sample answer: the stored JSON, or `null`.
pub fn live_metric_body(stored: Option<String>) -> (b: String)
    ensures
        b@ == match stored {
            Some(s) => s@,
            None => "null"@,
        },
{
    match stored {
        Some(s) => s,
        None => lit("null"),
    }
}

} // verus!
