//! The dashboard's view logic: the window of recent samples, chart labels,
//! the selected device, and which alerts and rules concern it.

use vstd::prelude::*;
use crate::text::opt_view;
use crate::text::{cat, digit_char, lit, pad2, two_digits};

verus! {

/// How many samples the charts keep.
pub const METRICS_WINDOW: usize = 50;

pub const DEFAULT_DEVICE_NAME: &'static str = "My Device";

/// The chart window after `sample` arrives: the oldest sample is dropped
/// first when the window is full.
pub open spec fn spec_push_sample<T>(window: Seq<T>, sample: T) -> Seq<T> {
    if window.len() >= METRICS_WINDOW {
        window.drop_first().push(sample)
    } else {
        window.push(sample)
    }
}

/// Appends a sample to the chart window, first dropping the oldest sample
/// when the window is full.
pub fn push_sample<T>(window: &mut Vec<T>, sample: T)
    ensures
        final(window)@ == spec_push_sample(old(window)@, sample),
{
    if window.len() >= METRICS_WINDOW {
        window.remove(0);
    }
    window.push(sample);
}

/// A window that starts within its bound stays within it, ends with the new
/// sample and keeps the samples before it in order.
pub proof fn lemma_window_bounded<T>(old_window: Seq<T>, sample: T)
    requires
        old_window.len() <= METRICS_WINDOW,
    ensures
        ({
            let w = spec_push_sample(old_window, sample);
            &&& w.len() <= METRICS_WINDOW
            &&& w.last() == sample
            &&& w.drop_last() == old_window.subrange(old_window.len() - (w.len() - 1), old_window.len() as int)
        }),
{
    let w = spec_push_sample(old_window, sample);
    assert(w.drop_last() =~= old_window.subrange(old_window.len() - (w.len() - 1), old_window.len() as int));
}

/// The chart window after each of `fetched` arrived, in order, starting from
/// `start`.
pub open spec fn window_after<T>(start: Seq<T>, fetched: Seq<T>) -> Seq<T>
    decreases fetched.len(),
{
    if fetched.len() == 0 {
        start
    } else {
        spec_push_sample(window_after(start, fetched.drop_last()), fetched.last())
    }
}

/// The last `min(n, METRICS_WINDOW)` items of `s`, where `n` is its length.
pub open spec fn latest<T>(s: Seq<T>) -> Seq<T> {
    if s.len() <= METRICS_WINDOW {
        s
    } else {
        s.subrange(s.len() - METRICS_WINDOW, s.len() as int)
    }
}

/// Over any run of fetches, a window that starts within its bound holds the
/// latest samples of what it started with followed by what was fetched, in
/// that order, and never more than its bound.
pub proof fn lemma_window_keeps_latest<T>(start: Seq<T>, fetched: Seq<T>)
    requires
        start.len() <= METRICS_WINDOW,
    ensures
        window_after(start, fetched) == latest(start + fetched),
        window_after(start, fetched).len() <= METRICS_WINDOW,
    decreases fetched.len(),
{
    if fetched.len() > 0 {
        let prev = fetched.drop_last();
        lemma_window_keeps_latest(start, prev);
        let all = start + fetched;
        let all_prev = start + prev;
        assert(all_prev =~= all.drop_last());
        let w = window_after(start, prev);
        assert(spec_push_sample(w, fetched.last()) =~= latest(all));
    }
}

/// After a device is selected the window starts empty, so it holds the last
/// `min(n, METRICS_WINDOW)` of the `n` samples fetched since, in fetch order.
pub proof fn lemma_window_since_selection<T>(fetched: Seq<T>)
    ensures
        window_after(Seq::<T>::empty(), fetched) == latest(fetched),
{
    lemma_window_keeps_latest(Seq::<T>::empty(), fetched);
    assert(Seq::<T>::empty() + fetched =~= fetched);
}

/// Selecting a device in the list: it becomes the selection, and the chart
/// window is emptied for its samples.
pub fn select_device<T>(selected: &mut String, window: &mut Vec<T>, id: String)
    ensures
        final(selected)@ == id@,
        final(window)@ == Seq::<T>::empty(),
{
    *selected = id;
    *window = Vec::new();
}

pub open spec fn spec_time_label(ts: u64) -> Seq<char> {
    two_digits(((ts / 60) % 60) as nat) + seq![':'] + two_digits((ts % 60) as nat)
}

/// The chart label of a timestamp: minutes and seconds past the hour, `MM:SS`.
pub fn time_label(ts: u64) -> (label: String)
    ensures
        label@ == spec_time_label(ts),
{
    let secs = ts % 60;
    let mins = (ts / 60) % 60;
    proof {
        reveal_strlit(":");
    }
    let label = pad2(mins).concat(":").concat(pad2(secs).as_str());
    assert(label@ =~= spec_time_label(ts));
    label
}

/// The label always has five characters, and its digits give back the
/// minutes and seconds past the hour.
pub proof fn lemma_time_label_digits(ts: u64)
    ensures
        spec_time_label(ts).len() == 5,
        spec_time_label(ts)[2] == ':',
        spec_time_label(ts)[0] == digit_char((((ts / 60) % 60) / 10) as int),
        spec_time_label(ts)[1] == digit_char((((ts / 60) % 60) % 10) as int),
        spec_time_label(ts)[3] == digit_char(((ts % 60) / 10) as int),
        spec_time_label(ts)[4] == digit_char(((ts % 60) % 10) as int),
{
}

/// A device of the signed-in user.
#[derive(Clone, Debug, PartialEq, Eq)]
pub struct DeviceRecord {
    pub id: String,
    pub name: String,
    pub last_seen: String,
}

/// The name shown for the selected device: the name of the first device with
/// that id, or a generic name.
pub fn selected_device_name(devices: &Vec<DeviceRecord>, selected: &str) -> (name: String)
    ensures
        (exists|i: int| 0 <= i < devices@.len() && devices@[i].id@ == selected@) ==> exists|i: int|
            0 <= i < devices@.len() && devices@[i].id@ == selected@ && name@ == devices@[i].name@
                && forall|j: int| 0 <= j < i ==> devices@[j].id@ != selected@,
        !(exists|i: int| 0 <= i < devices@.len() && devices@[i].id@ == selected@) ==> name@
            == DEFAULT_DEVICE_NAME@,
{
    let target = lit(selected);
    for i in 0..devices.len()
        invariant
            target@ == selected@,
            forall|j: int| 0 <= j < i ==> devices@[j].id@ != selected@,
    {
        if devices[i].id == target {
            return devices[i].name.clone();
        }
    }
    lit(DEFAULT_DEVICE_NAME)
}

/// The selection after the device list was loaded: the first device when
/// there is one, else the current selection.
pub fn selection_after_load(devices: &Vec<DeviceRecord>, current: String) -> (sel: String)
    ensures
        sel@ == (if devices@.len() > 0 {
            devices@[0].id@
        } else {
            current@
        }),
{
    if devices.len() > 0 {
        devices[0].id.clone()
    } else {
        current
    }
}

/// The selection after device `deleted` was removed and the list reloaded:
/// unchanged unless the deleted device was selected, else the first device or
/// no device.
pub fn selection_after_delete(devices: &Vec<DeviceRecord>, current: String, deleted: &str) -> (sel:
    String)
    ensures
        sel@ == (if current@ == deleted@ {
            if devices@.len() > 0 {
                devices@[0].id@
            } else {
                Seq::empty()
            }
        } else {
            current@
        }),
{
    if current == lit(deleted) {
        if devices.len() > 0 {
            devices[0].id.clone()
        } else {
            String::new()
        }
    } else {
        current
    }
}

/// What an alert rule watches and where.
#[derive(Clone, Debug, PartialEq, Eq)]
pub struct AlertRuleScope {
    pub metric_type: String,
    /// The device the rule is limited to; `None` for every device.
    pub device_id: Option<String>,
}

pub open spec fn watches(rule: AlertRuleScope, metric: Seq<char>, device: Seq<char>) -> bool {
    rule.metric_type@ == metric && match rule.device_id {
        Some(d) => d@ == device,
        None => true,
    }
}

/// Whether some rule watches `metric` on `device` (directly or for every device).
pub fn is_metric_monitored(rules: &Vec<AlertRuleScope>, metric: &str, device: &str) -> (b: bool)
    ensures
        b == exists|i: int| 0 <= i < rules@.len() && watches(rules@[i], metric@, device@),
{
    let m = lit(metric);
    let d = lit(device);
    for i in 0..rules.len()
        invariant
            m@ == metric@,
            d@ == device@,
            forall|j: int| 0 <= j < i ==> !watches(rules@[j], metric@, device@),
    {
        let r = &rules[i];
        let dev_ok = match &r.device_id {
            Some(x) => *x == d,
            None => true,
        };
        if r.metric_type == m && dev_ok {
            assert(watches(rules@[i as int], metric@, device@));
            return true;
        }
    }
    false
}

/// An alert as the notification feed reads it.
#[derive(Clone, Debug, PartialEq, Eq)]
pub struct AlertNotice {
    pub id: String,
    /// When the user read it; `None` while unread.
    pub read_at: Option<String>,
}

pub open spec fn unread_in(events: Seq<AlertNotice>) -> nat
    decreases events.len(),
{
    if events.len() == 0 {
        0
    } else {
        unread_in(events.drop_last()) + if events.last().read_at is None {
            1nat
        } else {
            0nat
        }
    }
}

/// How many alerts are unread.
pub fn unread_count(events: &Vec<AlertNotice>) -> (n: usize)
    ensures
        n == unread_in(events@),
{
    let mut n: usize = 0;
    assert(events@.take(0) =~= Seq::<AlertNotice>::empty());
    for i in 0..events.len()
        invariant
            n == unread_in(events@.take(i as int)),
            n <= i,
    {
        assert(events@.take(i + 1).drop_last() =~= events@.take(i as int));
        if events[i].read_at.is_none() {
            n = n + 1;
        }
    }
    assert(events@.take(events@.len() as int) =~= events@);
    n
}

/// The alert to pop up: the first unread one, unless it is already shown
/// (`shown` is the id of the alert on screen).
pub fn toast_to_show(events: &Vec<AlertNotice>, shown: &Option<String>) -> (r: Option<usize>)
    ensures
        match r {
            Some(i) => i < events@.len() && events@[i as int].read_at is None && (forall|j: int|
                0 <= j < i ==> !(events@[j].read_at is None)) && opt_view(*shown) != Some(
                events@[i as int].id@,
            ),
            None => forall|i: int|
                0 <= i < events@.len() && events@[i].read_at is None && (forall|j: int|
                    0 <= j < i ==> !(events@[j].read_at is None)) ==> opt_view(*shown) == Some(
                    events@[i].id@,
                ),
        },
{
    for i in 0..events.len()
        invariant
            forall|j: int| 0 <= j < i ==> !(events@[j].read_at is None),
    {
        if events[i].read_at.is_none() {
            let same = match shown {
                Some(s) => *s == events[i].id,
                None => false,
            };
            if same {
                return None;
            } else {
                return Some(i);
            }
        }
    }
    None
}

/// The device a new rule is limited to: the selected device when the rule is
/// meant for it and one is selected, otherwise every device.
pub fn alert_device_scope(for_selected_device: bool, selected: &str) -> (d: Option<String>)
    ensures
        opt_view(d) == (if for_selected_device && selected@.len() > 0 {
            Some(selected@)
        } else {
            None
        }),
{
    if for_selected_device && selected.unicode_len() > 0 {
        Some(lit(selected))
    } else {
        None
    }
}

/// Why a new device cannot be created, if it cannot.
pub fn validate_device_name(name: &str) -> (err: Option<String>)
    ensures
        match err {
            Some(e) => name@.len() == 0 && e@ == "Name cannot be empty"@,
            None => name@.len() > 0,
        },
{
    if name.unicode_len() == 0 {
        Some(lit("Name cannot be empty"))
    } else {
        None
    }
}

/// Whole kibibytes in `bytes`, rounded down.
pub fn to_kib(bytes: u64) -> (k: u64)
    ensures
        k == bytes / 1024,
{
    bytes / 1024
}

/// The message shown when the backend refused a rule.
pub fn server_error_message(body: &str) -> (m: String)
    ensures
        m@ == "Server error: "@ + body@,
{
    cat("Server error: ", body)
}

} // verus!
