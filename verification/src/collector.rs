//! Decisions of the telemetry collectors: which token and endpoint they use,
//! how often they sync, the integer counters of one sample, and what a sync
//! round removes from the local buffer.

use vstd::prelude::*;
use crate::config::{endpoint, spec_endpoint};
use crate::text::opt_view;
use crate::text::lit;

verus! {

pub const NO_TOKEN: &'static str = "No device token found. Run `sys_stats register --token <TOKEN>` or `sys_stats login` first.";

pub const DEV_TOKEN: &'static str = "dev_token";

/// How many buffered samples one sync round sends at most.
pub const SYNC_BATCH_LIMIT: usize = 50;

/// Seconds between two sync rounds of the desktop collector.
pub const DESKTOP_SYNC_SECS: u64 = 10;

/// Milliseconds between two samples of the desktop collector.
pub const DESKTOP_SAMPLE_MILLIS: u64 = 1000;

/// The token the collector authenticates with: the one given on the command
/// line, else the configured one; without either the collector cannot run.
pub fn resolve_token(override_token: Option<String>, configured: Option<String>) -> (res: Result<
    String,
    String,
>)
    ensures
        match res {
            Ok(t) => match override_token {
                Some(o) => t@ == o@,
                None => configured matches Some(c) && t@ == c@,
            },
            Err(e) => override_token is None && configured is None && e@ == NO_TOKEN@,
        },
{
    match override_token {
        Some(t) => Ok(t),
        None => match configured {
            Some(t) => Ok(t),
            None => Err(lit(NO_TOKEN)),
        },
    }
}

/// Where samples are posted.
pub fn metrics_url(api_url: &str) -> (url: String)
    ensures
        url@ == spec_endpoint(api_url@, "/api/metrics"@),
{
    endpoint(api_url, "/api/metrics")
}

/// The sync interval in seconds: the configured one, but at least one.
pub fn sync_interval_secs(configured: u64) -> (secs: u64)
    ensures
        secs == (if configured >= 1 {
            configured
        } else {
            1
        }),
        secs >= 1,
{
    if configured >= 1 {
        configured
    } else {
        1
    }
}

/// Whole mebibytes in `bytes`, rounded down.
pub fn bytes_to_mb(bytes: u64) -> (mb: u64)
    ensures
        mb == bytes / 1048576u64,
{
    bytes / (1024 * 1024)
}

pub open spec fn sum_firsts(s: Seq<(u64, u64)>) -> int
    decreases s.len(),
{
    if s.len() == 0 {
        0
    } else {
        sum_firsts(s.drop_last()) + s.last().0
    }
}

pub open spec fn sum_seconds(s: Seq<(u64, u64)>) -> int
    decreases s.len(),
{
    if s.len() == 0 {
        0
    } else {
        sum_seconds(s.drop_last()) + s.last().1
    }
}

proof fn lemma_prefix_sums_grow(s: Seq<(u64, u64)>, i: int)
    requires
        0 <= i <= s.len(),
    ensures
        sum_firsts(s.take(i)) <= sum_firsts(s),
        sum_seconds(s.take(i)) <= sum_seconds(s),
    decreases s.len() - i,
{
    if i < s.len() {
        lemma_prefix_sums_grow(s, i + 1);
        assert(s.take(i + 1).drop_last() =~= s.take(i));
    } else {
        assert(s.take(i) =~= s);
    }
}

/// The totals of the two components of `pairs` (received and transmitted
/// bytes per interface, or read and written bytes per process), or `None`
/// when a total does not fit in 64 bits.
pub fn sum_pairs(pairs: &Vec<(u64, u64)>) -> (res: Option<(u64, u64)>)
    ensures
        match res {
            Some((a, b)) => a == sum_firsts(pairs@) && b == sum_seconds(pairs@),
            None => sum_firsts(pairs@) > u64::MAX || sum_seconds(pairs@) > u64::MAX,
        },
{
    let mut a: u64 = 0;
    let mut b: u64 = 0;
    let mut i: usize = 0;
    assert(pairs@.take(0) =~= Seq::<(u64, u64)>::empty());
    while i < pairs.len()
        invariant
            i <= pairs@.len(),
            a == sum_firsts(pairs@.take(i as int)),
            b == sum_seconds(pairs@.take(i as int)),
        decreases pairs@.len() - i,
    {
        let (x, y) = pairs[i];
        assert(pairs@.take(i + 1).drop_last() =~= pairs@.take(i as int));
        proof {
            lemma_prefix_sums_grow(pairs@, i + 1);
        }
        match a.checked_add(x) {
            Some(v) => a = v,
            None => return None,
        }
        match b.checked_add(y) {
            Some(v) => b = v,
            None => return None,
        }
        i = i + 1;
    }
    assert(pairs@.take(pairs@.len() as int) =~= pairs@);
    Some((a, b))
}

/// The integer counters of one telemetry sample.
#[derive(Clone, Debug, PartialEq, Eq)]
pub struct SampleCounters {
    pub memory_used_mb: u64,
    pub memory_total_mb: u64,
    pub network_rx_bytes_sec: u64,
    pub network_tx_bytes_sec: u64,
    pub disk_read_bytes_sec: u64,
    pub disk_written_bytes_sec: u64,
    pub running_processes: u32,
}

/// The counters of a sample from the raw readings: memory in whole
/// mebibytes, network traffic summed over the interfaces, disk traffic summed
/// over the processes and the process count (as a 32-bit count). `None` when
/// a sum overflows, where the collector's addition would have panicked.
pub fn summarize(
    used_memory: u64,
    total_memory: u64,
    interfaces: &Vec<(u64, u64)>,
    processes: &Vec<(u64, u64)>,
) -> (res: Option<SampleCounters>)
    ensures
        match res {
            Some(c) => {
                &&& c.memory_used_mb == used_memory / 1048576u64
                &&& c.memory_total_mb == total_memory / 1048576u64
                &&& c.network_rx_bytes_sec == sum_firsts(interfaces@)
                &&& c.network_tx_bytes_sec == sum_seconds(interfaces@)
                &&& c.disk_read_bytes_sec == sum_firsts(processes@)
                &&& c.disk_written_bytes_sec == sum_seconds(processes@)
                &&& c.running_processes == processes@.len() as u32
            },
            None => sum_firsts(interfaces@) > u64::MAX || sum_seconds(interfaces@) > u64::MAX
                || sum_firsts(processes@) > u64::MAX || sum_seconds(processes@) > u64::MAX,
        },
{
    let (rx, tx) = match sum_pairs(interfaces) {
        Some(p) => p,
        None => return None,
    };
    let (read, written) = match sum_pairs(processes) {
        Some(p) => p,
        None => return None,
    };
    let count = processes.len();
    Some(
        SampleCounters {
            memory_used_mb: bytes_to_mb(used_memory),
            memory_total_mb: bytes_to_mb(total_memory),
            network_rx_bytes_sec: rx,
            network_tx_bytes_sec: tx,
            disk_read_bytes_sec: read,
            disk_written_bytes_sec: written,
            running_processes: count as u32,
        },
    )
}

/// The device name samples are tagged with: the host name, or `fallback`.
pub fn device_label(hostname: Option<String>, fallback: &str) -> (name: String)
    ensures
        name@ == match hostname {
            Some(h) => h@,
            None => fallback@,
        },
{
    match hostname {
        Some(h) => h,
        None => lit(fallback),
    }
}

/// The device token that the desktop collector holds for its sync rounds.
#[derive(Clone, Debug, PartialEq, Eq)]
pub struct TokenStore {
    pub token: String,
}

pub open spec fn spec_device_token(stored: Seq<char>) -> Seq<char> {
    if stored.len() > 0 {
        stored
    } else {
        DEV_TOKEN@
    }
}

impl TokenStore {
    /// A store that holds no token yet.
    pub fn new() -> (s: TokenStore)
        ensures
            s.token@.len() == 0,
    {
        TokenStore { token: String::new() }
    }

    /// Replaces the stored token; an empty token clears it.
    pub fn set_device_token(&mut self, token: String)
        ensures
            final(self).token@ == token@,
    {
        self.token = token;
    }

    /// The stored token, or the development token when none is stored.
    pub fn get_device_token(&self) -> (t: String)
        ensures
            t@ == spec_device_token(self.token@),
    {
        if self.token.as_str().unicode_len() > 0 {
            self.token.clone()
        } else {
            lit(DEV_TOKEN)
        }
    }
}

/// What the store hands out after a token was set: that token, or the
/// development token after it was cleared with an empty one.
pub proof fn lemma_token_store_roundtrip(token: Seq<char>)
    ensures
        token.len() > 0 ==> spec_device_token(token) == token,
        token.len() == 0 ==> spec_device_token(token) == DEV_TOKEN@,
{
}

pub open spec fn is_success_status(status: u16) -> bool {
    200 <= status <= 299
}

/// The buffered samples a sync round may delete: all of the batch once the
/// backend accepted it with a 2xx status, none when the request failed or
/// was refused.
pub fn ids_to_delete(batch_ids: Vec<i64>, response_status: Option<u16>) -> (ids: Vec<i64>)
    ensures
        ids@ == (match response_status {
            Some(s) if is_success_status(s) => batch_ids@,
            _ => Seq::empty(),
        }),
{
    match response_status {
        Some(s) => if 200 <= s && s <= 299 {
            batch_ids
        } else {
            Vec::new()
        },
        None => Vec::new(),
    }
}

/// The ids of the buffered rows a sync round sends: all of them, or `None`
/// when nothing is buffered and the round is skipped without a request.
pub fn batch_to_send(ids: Vec<i64>) -> (res: Option<Vec<i64>>)
    ensures
        res is None <==> ids@.len() == 0,
        res matches Some(v) ==> v@ == ids@,
{
    if ids.len() == 0 {
        None
    } else {
        Some(ids)
    }
}

/// The desktop app's command line: run headless, optionally with a token.
#[derive(Clone, Debug, PartialEq, Eq)]
pub struct Cli {
    pub headless: bool,
    pub token: Option<String>,
}

/// The token the desktop collector starts with: in headless mode the one given
/// on the command line, else the saved one; with the window, the saved one.
pub fn initial_device_token(cli: &Cli, saved: Option<String>) -> (t: Option<String>)
    ensures
        opt_view(t) == (if cli.headless && cli.token is Some {
            opt_view(cli.token)
        } else {
            opt_view(saved)
        }),
{
    if cli.headless {
        match &cli.token {
            Some(t) => return Some(t.clone()),
            None => {},
        }
    }
    saved
}

} // verus!
