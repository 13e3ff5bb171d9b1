//! The agent's telemetry loop as a state machine. Each round waits the sync
//! interval, takes a sample, posts it, and warns when the upload failed; the
//! caller performs each piece of work and hands back its outcome. No outcome
//! ends the loop, and nothing is posted twice.

use vstd::prelude::*;
use crate::collector::{metrics_url, sync_interval_secs};
use crate::config::spec_endpoint;
use crate::status::{answer_view, spec_upload_warning, upload_warning};

verus! {

/// The next piece of work for the loop.
pub enum LoopAction {
    /// Wait this many seconds.
    Sleep(u64),
    /// Take a fresh sample of the machine.
    Sample,
    /// Post the sample taken last to `url`, authenticated as `Bearer token`.
    Post { url: String, token: String },
    /// Print this line on standard error.
    Warn(String),
}

pub enum LoopActionView {
    Sleep(u64),
    Sample,
    Post { url: Seq<char>, token: Seq<char> },
    Warn(Seq<char>),
}

impl View for LoopAction {
    type V = LoopActionView;

    open spec fn view(&self) -> LoopActionView {
        match self {
            LoopAction::Sleep(s) => LoopActionView::Sleep(*s),
            LoopAction::Sample => LoopActionView::Sample,
            LoopAction::Post { url, token } => LoopActionView::Post { url: url@, token: token@ },
            LoopAction::Warn(w) => LoopActionView::Warn(w@),
        }
    }
}

/// The outcome of the work handed out last.
pub enum LoopEvent {
    Slept,
    Sampled,
    /// The server's answer (status code, status text, body) or the error of a
    /// request that could not be sent.
    Posted(Result<(u16, String, String), String>),
    Warned,
}

pub enum LoopEventView {
    Slept,
    Sampled,
    Posted(Result<(u16, Seq<char>, Seq<char>), Seq<char>>),
    Warned,
}

impl View for LoopEvent {
    type V = LoopEventView;

    open spec fn view(&self) -> LoopEventView {
        match self {
            LoopEvent::Slept => LoopEventView::Slept,
            LoopEvent::Sampled => LoopEventView::Sampled,
            LoopEvent::Posted(a) => LoopEventView::Posted(answer_view(*a)),
            LoopEvent::Warned => LoopEventView::Warned,
        }
    }
}

/// The work whose outcome the loop waits for.
#[derive(Clone, Copy, Debug, PartialEq, Eq, Structural)]
pub enum LoopPhase {
    Sleeping,
    Sampling,
    Posting,
    Warning,
}

/// The running loop: its fixed interval, endpoint and token, and its phase.
pub struct TelemetryLoop {
    pub interval: u64,
    pub url: String,
    pub token: String,
    pub phase: LoopPhase,
}

/// Whether `event` is the outcome of the work that `phase` waits for.
pub open spec fn loop_expects(phase: LoopPhase, event: LoopEventView) -> bool {
    match phase {
        LoopPhase::Sleeping => event is Slept,
        LoopPhase::Sampling => event is Sampled,
        LoopPhase::Posting => event is Posted,
        LoopPhase::Warning => event is Warned,
    }
}

/// The phase after `phase` takes `event`, and the work handed out next.
pub open spec fn loop_step(
    phase: LoopPhase,
    event: LoopEventView,
    interval: u64,
    url: Seq<char>,
    token: Seq<char>,
) -> (LoopPhase, LoopActionView) {
    match phase {
        LoopPhase::Sleeping => (LoopPhase::Sampling, LoopActionView::Sample),
        LoopPhase::Sampling => (LoopPhase::Posting, LoopActionView::Post { url, token }),
        LoopPhase::Posting => match event {
            LoopEventView::Posted(answer) => match spec_upload_warning(answer) {
                Some(w) => (LoopPhase::Warning, LoopActionView::Warn(w)),
                None => (LoopPhase::Sleeping, LoopActionView::Sleep(interval)),
            },
            _ => (LoopPhase::Sleeping, LoopActionView::Sleep(interval)),
        },
        LoopPhase::Warning => (LoopPhase::Sleeping, LoopActionView::Sleep(interval)),
    }
}

/// The phase a loop is in right after handing out `a`.
pub open spec fn phase_of(a: LoopActionView) -> LoopPhase {
    match a {
        LoopActionView::Sleep(_) => LoopPhase::Sleeping,
        LoopActionView::Sample => LoopPhase::Sampling,
        LoopActionView::Post { .. } => LoopPhase::Posting,
        LoopActionView::Warn(_) => LoopPhase::Warning,
    }
}

/// A loop started with `interval`, `url` and `token` that has taken `events`:
/// its phase, and every action it handed out, the first one included.
pub open spec fn run_loop(
    events: Seq<LoopEventView>,
    interval: u64,
    url: Seq<char>,
    token: Seq<char>,
) -> (LoopPhase, Seq<LoopActionView>)
    decreases events.len(),
{
    if events.len() == 0 {
        (LoopPhase::Sleeping, seq![LoopActionView::Sleep(interval)])
    } else {
        let (p, acts) = run_loop(events.drop_last(), interval, url, token);
        let (q, a) = loop_step(p, events.last(), interval, url, token);
        (q, acts.push(a))
    }
}

/// Whether every event of `events` fits the phase the loop was in when it came.
pub open spec fn loop_accepts(
    events: Seq<LoopEventView>,
    interval: u64,
    url: Seq<char>,
    token: Seq<char>,
) -> bool
    decreases events.len(),
{
    events.len() == 0 || (loop_accepts(events.drop_last(), interval, url, token) && loop_expects(
        run_loop(events.drop_last(), interval, url, token).0,
        events.last(),
    ))
}

/// Over any run of the loop: it starts by waiting the interval; each outcome
/// is answered by one more piece of work, so no outcome ends it; every post
/// goes to the same endpoint with the same token and comes right after a
/// fresh sample, which comes right after a wait of the interval, so two posts
/// are always a full interval apart; and after a post (whatever its outcome)
/// comes a warning or the next wait, never a second post of the same sample.
pub proof fn lemma_loop_rounds(
    events: Seq<LoopEventView>,
    interval: u64,
    url: Seq<char>,
    token: Seq<char>,
)
    requires
        loop_accepts(events, interval, url, token),
    ensures
        ({
            let (p, acts) = run_loop(events, interval, url, token);
            &&& acts.len() == events.len() + 1
            &&& acts[0] == LoopActionView::Sleep(interval)
            &&& p == phase_of(acts.last())
            &&& forall|j: int|
                0 <= j < acts.len() && #[trigger] acts[j] is Sample ==> j >= 1 && acts[j - 1]
                    == LoopActionView::Sleep(interval)
            &&& forall|j: int|
                0 <= j < acts.len() && #[trigger] acts[j] is Post ==> {
                    &&& j >= 2
                    &&& acts[j] == LoopActionView::Post { url, token }
                    &&& acts[j - 1] is Sample
                    &&& acts[j - 2] == LoopActionView::Sleep(interval)
                }
            &&& forall|j: int|
                0 <= j < acts.len() - 1 && #[trigger] acts[j] is Post ==> acts[j + 1]
                    == LoopActionView::Sleep(interval) || acts[j + 1] is Warn
            &&& forall|j: int|
                0 <= j < acts.len() - 1 && #[trigger] acts[j] is Warn ==> acts[j + 1]
                    == LoopActionView::Sleep(interval)
        }),
    decreases events.len(),
{
    if events.len() > 0 {
        let prev = events.drop_last();
        lemma_loop_rounds(prev, interval, url, token);
        let (p, acts) = run_loop(prev, interval, url, token);
        let (q, a) = loop_step(p, events.last(), interval, url, token);
        let acts2 = acts.push(a);
        assert(run_loop(events, interval, url, token) == (q, acts2));
        assert forall|j: int| 0 <= j < acts2.len() && #[trigger] acts2[j] is Sample implies j >= 1
            && acts2[j - 1] == LoopActionView::Sleep(interval) by {
            if j < acts.len() {
                assert(acts2[j] == acts[j]);
            }
        }
        assert forall|j: int| 0 <= j < acts2.len() && #[trigger] acts2[j] is Post implies {
            &&& j >= 2
            &&& acts2[j] == LoopActionView::Post { url, token }
            &&& acts2[j - 1] is Sample
            &&& acts2[j - 2] == LoopActionView::Sleep(interval)
        } by {
            if j < acts.len() {
                assert(acts2[j] == acts[j]);
            } else {
                assert(acts[acts.len() - 1] is Sample);
            }
        }
        assert forall|j: int| 0 <= j < acts2.len() - 1 && #[trigger] acts2[j] is Post implies acts2[j
            + 1] == LoopActionView::Sleep(interval) || acts2[j + 1] is Warn by {
            assert(acts2[j] == acts[j]);
        }
        assert forall|j: int| 0 <= j < acts2.len() - 1 && #[trigger] acts2[j] is Warn implies acts2[j
            + 1] == LoopActionView::Sleep(interval) by {
            assert(acts2[j] == acts[j]);
        }
    }
}

/// What follows a post: the next wait of the interval when the server
/// accepted the sample with a 2xx status, else the warning line, for any
/// other status as for a request that could not be sent.
pub proof fn lemma_post_outcome(
    answer: Result<(u16, Seq<char>, Seq<char>), Seq<char>>,
    interval: u64,
    url: Seq<char>,
    token: Seq<char>,
)
    ensures
        ({
            let (q, a) = loop_step(LoopPhase::Posting, LoopEventView::Posted(answer), interval, url, token);
            match answer {
                Ok((code, text, body)) => if 200 <= code && code <= 299 {
                    q == LoopPhase::Sleeping && a == LoopActionView::Sleep(interval)
                } else {
                    q == LoopPhase::Warning && a == LoopActionView::Warn(
                        "[WARN] Server returned status "@ + text + ": "@ + body,
                    )
                },
                Err(e) => q == LoopPhase::Warning && a == LoopActionView::Warn(
                    "[WARN] Failed to sync telemetry: "@ + e,
                ),
            }
        }),
{
    crate::status::lemma_upload_warning_unless_accepted(answer);
}

impl TelemetryLoop {
    /// Starts the loop with the configured sync interval (at least one second),
    /// the metrics endpoint under `api_url`, and `token`; the first work is a
    /// wait of the interval.
    pub fn begin(configured_interval: u64, api_url: &str, token: String) -> (res: (
        TelemetryLoop,
        LoopAction,
    ))
        ensures
            res.0.interval == (if configured_interval >= 1 {
                configured_interval
            } else {
                1
            }),
            res.0.url@ == spec_endpoint(api_url@, "/api/metrics"@),
            res.0.token@ == token@,
            res.0.phase == LoopPhase::Sleeping,
            res.1@ == LoopActionView::Sleep(res.0.interval),
    {
        let interval = sync_interval_secs(configured_interval);
        let url = metrics_url(api_url);
        (TelemetryLoop { interval, url, token, phase: LoopPhase::Sleeping }, LoopAction::Sleep(interval))
    }

    /// Whether `event` is the outcome the loop waits for now, as `step` asks.
    pub fn expects_event(&self, event: &LoopEvent) -> (b: bool)
        ensures
            b == loop_expects(self.phase, event@),
    {
        match (self.phase, event) {
            (LoopPhase::Sleeping, LoopEvent::Slept) => true,
            (LoopPhase::Sampling, LoopEvent::Sampled) => true,
            (LoopPhase::Posting, LoopEvent::Posted(_)) => true,
            (LoopPhase::Warning, LoopEvent::Warned) => true,
            _ => false,
        }
    }

    /// Takes the outcome of the outstanding work and hands out the next.
    pub fn step(&mut self, event: LoopEvent) -> (action: LoopAction)
        requires
            loop_expects(old(self).phase, event@),
        ensures
            final(self).interval == old(self).interval,
            final(self).url@ == old(self).url@,
            final(self).token@ == old(self).token@,
            (final(self).phase, action@) == loop_step(
                old(self).phase,
                event@,
                old(self).interval,
                old(self).url@,
                old(self).token@,
            ),
    {
        match event {
            LoopEvent::Slept => {
                self.phase = LoopPhase::Sampling;
                LoopAction::Sample
            },
            LoopEvent::Sampled => {
                self.phase = LoopPhase::Posting;
                LoopAction::Post { url: self.url.clone(), token: self.token.clone() }
            },
            LoopEvent::Posted(answer) => match upload_warning(answer) {
                Some(w) => {
                    self.phase = LoopPhase::Warning;
                    LoopAction::Warn(w)
                },
                None => {
                    self.phase = LoopPhase::Sleeping;
                    LoopAction::Sleep(self.interval)
                },
            },
            LoopEvent::Warned => {
                self.phase = LoopPhase::Sleeping;
                LoopAction::Sleep(self.interval)
            },
        }
    }
}

} // verus!
