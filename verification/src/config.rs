//! The agent's configuration: the device registration, the API endpoint and
//! the sync interval, with their defaults and updates.

use vstd::prelude::*;
use crate::collector::is_success_status;
use crate::text::opt_view;
use crate::text::{cat, join_path, join_path_seq, lit, trim, trim_end_char, trim_end_char_seq, trim_seq};

verus! {

pub const DEFAULT_API_URL: &'static str = "https://backend-api.krequiem.workers.dev";

pub const DEFAULT_SYNC_INTERVAL_SECS: u64 = 3;

pub const LOGIN_FAILED: &'static str = "Login failed: Invalid credentials or unverified account.";

pub const REGISTER_FAILED: &'static str = "Failed to register device with backend API.";

/// Where the agent reports to and which device it reports as.
#[derive(Clone, Debug, PartialEq, Eq)]
pub struct Config {
    pub device_token: Option<String>,
    pub device_id: Option<String>,
    pub device_name: Option<String>,
    pub api_url: String,
    pub sync_interval_secs: u64,
}

pub struct ConfigView {
    pub device_token: Option<Seq<char>>,
    pub device_id: Option<Seq<char>>,
    pub device_name: Option<Seq<char>>,
    pub api_url: Seq<char>,
    pub sync_interval_secs: u64,
}

impl View for Config {
    type V = ConfigView;

    open spec fn view(&self) -> ConfigView {
        ConfigView {
            device_token: opt_view(self.device_token),
            device_id: opt_view(self.device_id),
            device_name: opt_view(self.device_name),
            api_url: self.api_url@,
            sync_interval_secs: self.sync_interval_secs,
        }
    }
}

pub open spec fn default_config() -> ConfigView {
    ConfigView {
        device_token: None,
        device_id: None,
        device_name: None,
        api_url: DEFAULT_API_URL@,
        sync_interval_secs: DEFAULT_SYNC_INTERVAL_SECS,
    }
}

impl Default for Config {
    /// An unregistered device reporting to the public backend every 3 seconds.
    fn default() -> (c: Self)
        ensures
            c@ == default_config(),
    {
        Config {
            device_token: None,
            device_id: None,
            device_name: None,
            api_url: lit(DEFAULT_API_URL),
            sync_interval_secs: DEFAULT_SYNC_INTERVAL_SECS,
        }
    }
}

pub open spec fn spec_config_dir(base: Option<Seq<char>>, windows: bool) -> Seq<char> {
    match base {
        Some(b) => join_path_seq(b, "sys_stats"@, windows),
        None => "/etc/sys_stats"@,
    }
}

/// The agent's configuration directory: `sys_stats` under the user's
/// configuration directory, or `/etc/sys_stats` when there is none. `windows`
/// says whether the host joins paths as Windows does.
pub fn get_config_dir(base: &Option<String>, windows: bool) -> (dir: String)
    ensures
        dir@ == spec_config_dir(opt_view(*base), windows),
{
    match base {
        Some(b) => join_path(b.as_str(), "sys_stats", windows),
        None => lit("/etc/sys_stats"),
    }
}

/// The configuration file inside the configuration directory.
pub fn get_config_path(config_dir: &str, windows: bool) -> (path: String)
    ensures
        path@ == join_path_seq(config_dir@, "config.json"@, windows),
{
    join_path(config_dir, "config.json", windows)
}

pub open spec fn spec_set_token(c: ConfigView, token: Seq<char>) -> ConfigView {
    ConfigView { device_token: Some(trim_seq(token)), ..c }
}

/// Stores `token`, without surrounding whitespace, as the device token.
pub fn set_token(cfg: &mut Config, token: &str)
    ensures
        final(cfg)@ == spec_set_token(old(cfg)@, token@),
{
    cfg.device_token = Some(trim(token));
}

pub open spec fn spec_get_token(c: ConfigView) -> Option<Seq<char>> {
    match c.device_token {
        Some(t) if t.len() > 0 => Some(t),
        _ => None,
    }
}

/// The device token, unless it is missing or empty.
pub fn get_token(cfg: &Config) -> (t: Option<String>)
    ensures
        opt_view(t) == spec_get_token(cfg@),
{
    match &cfg.device_token {
        Some(t) => if t.as_str().unicode_len() > 0 {
            Some(t.clone())
        } else {
            None
        },
        None => None,
    }
}

/// A token stored with `set_token` is read back by `get_token` without its
/// surrounding whitespace, and reads as absent when nothing else is left.
pub proof fn lemma_token_roundtrip(c: ConfigView, token: Seq<char>)
    ensures
        spec_get_token(spec_set_token(c, token)) == (if trim_seq(token).len() > 0 {
            Some(trim_seq(token))
        } else {
            None
        }),
{
}

/// The URL of an API route: the base URL without trailing slashes, then `route`.
pub open spec fn spec_endpoint(api_url: Seq<char>, route: Seq<char>) -> Seq<char> {
    trim_end_char_seq(api_url, '/') + route
}

pub fn endpoint(api_url: &str, route: &str) -> (url: String)
    ensures
        url@ == spec_endpoint(api_url@, route@),
{
    trim_end_char(api_url, '/').concat(route)
}

/// Trailing slashes on the configured URL do not change any endpoint.
pub proof fn lemma_endpoint_ignores_trailing_slash(api_url: Seq<char>, route: Seq<char>)
    ensures
        spec_endpoint(api_url.push('/'), route) == spec_endpoint(api_url, route),
{
    assert(api_url.push('/').drop_last() =~= api_url);
}

/// The line the agent's login stops on when the password grant is answered
/// with a status outside 2xx; `None` when the login goes on.
pub fn login_refusal(status: u16) -> (line: Option<String>)
    ensures
        line is None <==> is_success_status(status),
        line matches Some(m) ==> m@ == LOGIN_FAILED@,
{
    if 200 <= status && status <= 299 {
        None
    } else {
        Some(lit(LOGIN_FAILED))
    }
}

/// The line the agent's login stops on when registering the device is
/// answered with a status outside 2xx; `None` when the login goes on.
pub fn registration_refusal(status: u16) -> (line: Option<String>)
    ensures
        line is None <==> is_success_status(status),
        line matches Some(m) ==> m@ == REGISTER_FAILED@,
{
    if 200 <= status && status <= 299 {
        None
    } else {
        Some(lit(REGISTER_FAILED))
    }
}

/// The device name to register: what the user typed, without surrounding
/// whitespace, or the host name when that is blank.
pub fn choose_device_name(typed: &str, hostname: &str) -> (name: String)
    ensures
        name@ == (if trim_seq(typed@).len() == 0 {
            hostname@
        } else {
            trim_seq(typed@)
        }),
{
    let t = trim(typed);
    if t.as_str().unicode_len() == 0 {
        lit(hostname)
    } else {
        t
    }
}

pub open spec fn spec_register(
    c: ConfigView,
    device_id: Seq<char>,
    auth_token: Seq<char>,
    name: Seq<char>,
) -> ConfigView {
    ConfigView {
        device_id: Some(device_id),
        device_token: Some(auth_token),
        device_name: Some(name),
        ..c
    }
}

/// The configuration after the backend registered this device.
pub fn apply_registration(cfg: Config, device_id: String, auth_token: String, name: String) -> (res:
    Config)
    ensures
        res@ == spec_register(cfg@, device_id@, auth_token@, name@),
{
    Config {
        device_id: Some(device_id),
        device_token: Some(auth_token),
        device_name: Some(name),
        api_url: cfg.api_url,
        sync_interval_secs: cfg.sync_interval_secs,
    }
}

} // verus!
