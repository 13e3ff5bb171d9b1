//! The backend's threshold alerting for one rule after a sample upload, as a
//! state machine: the caller performs each piece of outside work (the
//! threshold comparison, the store queries, the mail) and hands back its
//! outcome; the machine decides what comes next.

use vstd::prelude::*;
use crate::backend::{PLACEHOLDER_DOMAIN, cooldown_ready, should_send_email};
use crate::text::has_suffix;

verus! {

/// Where the handling of one rule stands.
#[derive(Clone, Copy, Debug, PartialEq, Eq, Structural)]
pub enum AlertStage {
    /// Waiting for the threshold comparison.
    Evaluate,
    /// Waiting for the store's answer whether the cooldown has passed.
    Cooldown,
    /// Waiting for the alert to be written to the history.
    Record,
    /// Waiting for the rule's last-triggered time to be updated.
    Trigger,
    /// Waiting for the user's stored address.
    FindEmail,
    /// Waiting for the mail to be handed to the mail service.
    Mail,
    /// Nothing more to do for this rule.
    Done,
}

pub open spec fn rank(s: AlertStage) -> int {
    match s {
        AlertStage::Evaluate => 0,
        AlertStage::Cooldown => 1,
        AlertStage::Record => 2,
        AlertStage::Trigger => 3,
        AlertStage::FindEmail => 4,
        AlertStage::Mail => 5,
        AlertStage::Done => 6,
    }
}

/// The outcome of the work handed out last.
#[derive(Clone, Debug, PartialEq, Eq)]
pub enum AlertInput {
    /// Whether the latest sample reaches the rule's threshold.
    Breached(bool),
    /// The `ready` column of the cooldown query, if it returned one.
    Ready(Option<i64>),
    Recorded,
    Marked,
    /// The user's stored address, if the lookup found one.
    Email(Option<String>),
    Sent,
}

/// The next piece of work for the rule.
#[derive(Clone, Debug, PartialEq, Eq)]
pub enum AlertAction {
    CompareThreshold,
    CheckCooldown,
    RecordHistory,
    MarkTriggered,
    LookupEmail,
    SendEmail(String),
    Finished,
}

/// The handling of one rule; `notify_email` is the rule's stored mail flag.
#[derive(Clone, Copy, Debug, PartialEq, Eq)]
pub struct AlertRun {
    pub stage: AlertStage,
    pub notify_email: i64,
}

pub open spec fn expects(stage: AlertStage, input: AlertInput) -> bool {
    match stage {
        AlertStage::Evaluate => input is Breached,
        AlertStage::Cooldown => input is Ready,
        AlertStage::Record => input is Recorded,
        AlertStage::Trigger => input is Marked,
        AlertStage::FindEmail => input is Email,
        AlertStage::Mail => input is Sent,
        AlertStage::Done => false,
    }
}

/// The stage after `stage` takes `input`.
pub open spec fn next_stage(stage: AlertStage, notify_email: i64, input: AlertInput) -> AlertStage {
    match (stage, input) {
        (AlertStage::Evaluate, AlertInput::Breached(b)) => if b {
            AlertStage::Cooldown
        } else {
            AlertStage::Done
        },
        (AlertStage::Cooldown, AlertInput::Ready(r)) => if r == Some(1i64) {
            AlertStage::Record
        } else {
            AlertStage::Done
        },
        (AlertStage::Record, AlertInput::Recorded) => AlertStage::Trigger,
        (AlertStage::Trigger, AlertInput::Marked) => if notify_email == 1 {
            AlertStage::FindEmail
        } else {
            AlertStage::Done
        },
        (AlertStage::FindEmail, AlertInput::Email(Some(e))) => if !has_suffix(
            e@,
            PLACEHOLDER_DOMAIN@,
        ) {
            AlertStage::Mail
        } else {
            AlertStage::Done
        },
        _ => AlertStage::Done,
    }
}

/// The work that a stage waits for.
pub open spec fn action_for(stage: AlertStage, input: AlertInput) -> AlertAction {
    match stage {
        AlertStage::Evaluate => AlertAction::CompareThreshold,
        AlertStage::Cooldown => AlertAction::CheckCooldown,
        AlertStage::Record => AlertAction::RecordHistory,
        AlertStage::Trigger => AlertAction::MarkTriggered,
        AlertStage::FindEmail => AlertAction::LookupEmail,
        AlertStage::Mail => match input {
            AlertInput::Email(Some(e)) => AlertAction::SendEmail(e),
            _ => AlertAction::Finished,
        },
        AlertStage::Done => AlertAction::Finished,
    }
}

impl AlertRun {
    /// Whether `input` is the outcome the run waits for now, as `step` asks.
    pub fn expects_input(&self, input: &AlertInput) -> (b: bool)
        ensures
            b == expects(self.stage, *input),
    {
        match (self.stage, input) {
            (AlertStage::Evaluate, AlertInput::Breached(_)) => true,
            (AlertStage::Cooldown, AlertInput::Ready(_)) => true,
            (AlertStage::Record, AlertInput::Recorded) => true,
            (AlertStage::Trigger, AlertInput::Marked) => true,
            (AlertStage::FindEmail, AlertInput::Email(_)) => true,
            (AlertStage::Mail, AlertInput::Sent) => true,
            _ => false,
        }
    }

    /// Starts handling a rule: first the threshold is compared.
    pub fn begin(notify_email: i64) -> (res: (AlertRun, AlertAction))
        ensures
            res.0.stage == AlertStage::Evaluate,
            res.0.notify_email == notify_email,
            res.1 == AlertAction::CompareThreshold,
    {
        (AlertRun { stage: AlertStage::Evaluate, notify_email }, AlertAction::CompareThreshold)
    }

    /// Takes the outcome of the last piece of work and hands out the next:
    /// a breached rule whose cooldown has passed is recorded, then marked as
    /// triggered, then mailed when the rule asks for mail and the user has a
    /// real address. The stage only moves forward.
    pub fn step(&mut self, input: AlertInput) -> (action: AlertAction)
        requires
            expects(old(self).stage, input),
        ensures
            final(self).notify_email == old(self).notify_email,
            final(self).stage == next_stage(old(self).stage, old(self).notify_email, input),
            action == action_for(final(self).stage, input),
            rank(final(self).stage) > rank(old(self).stage),
    {
        let next = match (self.stage, &input) {
            (AlertStage::Evaluate, AlertInput::Breached(b)) => if *b {
                AlertStage::Cooldown
            } else {
                AlertStage::Done
            },
            (AlertStage::Cooldown, AlertInput::Ready(r)) => if cooldown_ready(*r) {
                AlertStage::Record
            } else {
                AlertStage::Done
            },
            (AlertStage::Record, AlertInput::Recorded) => AlertStage::Trigger,
            (AlertStage::Trigger, AlertInput::Marked) => if self.notify_email == 1 {
                AlertStage::FindEmail
            } else {
                AlertStage::Done
            },
            (AlertStage::FindEmail, AlertInput::Email(Some(e))) => if should_send_email(
                1,
                e.as_str(),
            ) {
                AlertStage::Mail
            } else {
                AlertStage::Done
            },
            _ => AlertStage::Done,
        };
        self.stage = next;
        match next {
            AlertStage::Evaluate => AlertAction::CompareThreshold,
            AlertStage::Cooldown => AlertAction::CheckCooldown,
            AlertStage::Record => AlertAction::RecordHistory,
            AlertStage::Trigger => AlertAction::MarkTriggered,
            AlertStage::FindEmail => AlertAction::LookupEmail,
            AlertStage::Mail => match input {
                AlertInput::Email(Some(e)) => AlertAction::SendEmail(e),
                _ => AlertAction::Finished,
            },
            AlertStage::Done => AlertAction::Finished,
        }
    }
}

/// A mail is handed out only right after the address lookup, to the address
/// it found, and only when that address is not a placeholder.
pub proof fn lemma_mail_only_after_record(stage: AlertStage, notify_email: i64, input: AlertInput)
    requires
        expects(stage, input),
        action_for(next_stage(stage, notify_email, input), input) is SendEmail,
    ensures
        stage == AlertStage::FindEmail,
        input matches AlertInput::Email(Some(e)) && !has_suffix(e@, PLACEHOLDER_DOMAIN@)
            && action_for(next_stage(stage, notify_email, input), input) == AlertAction::SendEmail(e),
{
}

/// The address lookup is reached only when the rule asks for mail, right
/// after the rule was marked; the marking comes right after the recording,
/// and the recording only after a breach whose cooldown has passed.
pub proof fn lemma_stage_predecessors(stage: AlertStage, notify_email: i64, input: AlertInput)
    requires
        expects(stage, input),
    ensures
        next_stage(stage, notify_email, input) == AlertStage::FindEmail ==> stage
            == AlertStage::Trigger && notify_email == 1,
        next_stage(stage, notify_email, input) == AlertStage::Trigger ==> stage
            == AlertStage::Record,
        next_stage(stage, notify_email, input) == AlertStage::Record ==> stage
            == AlertStage::Cooldown && input == AlertInput::Ready(Some(1i64)),
        next_stage(stage, notify_email, input) == AlertStage::Cooldown ==> stage
            == AlertStage::Evaluate && input == AlertInput::Breached(true),
{
}

/// Every real address is mailed: when the rule asks for mail and the lookup
/// finds an address that is not a placeholder, the run moves on to mailing,
/// and the mail goes to exactly that address.
pub proof fn lemma_real_address_is_mailed(e: String)
    requires
        !has_suffix(e@, PLACEHOLDER_DOMAIN@),
    ensures
        next_stage(AlertStage::FindEmail, 1, AlertInput::Email(Some(e))) == AlertStage::Mail,
        action_for(
            next_stage(AlertStage::FindEmail, 1, AlertInput::Email(Some(e))),
            AlertInput::Email(Some(e)),
        ) == AlertAction::SendEmail(e),
{
}

/// A whole run for a rule that asks for mail: a breach whose cooldown has
/// passed is recorded, marked, and mailed to the user's stored address when
/// that address is real; a placeholder address or no address ends the run
/// without mail.
pub proof fn lemma_breach_run_mails_user(email: Option<String>)
    ensures
        ({
            let s1 = next_stage(AlertStage::Evaluate, 1, AlertInput::Breached(true));
            let s2 = next_stage(s1, 1, AlertInput::Ready(Some(1i64)));
            let s3 = next_stage(s2, 1, AlertInput::Recorded);
            let s4 = next_stage(s3, 1, AlertInput::Marked);
            let s5 = next_stage(s4, 1, AlertInput::Email(email));
            &&& s1 == AlertStage::Cooldown
            &&& s2 == AlertStage::Record
            &&& s3 == AlertStage::Trigger
            &&& s4 == AlertStage::FindEmail
            &&& match email {
                Some(e) => if has_suffix(e@, PLACEHOLDER_DOMAIN@) {
                    s5 == AlertStage::Done && action_for(s5, AlertInput::Email(email))
                        == AlertAction::Finished
                } else {
                    s5 == AlertStage::Mail && action_for(s5, AlertInput::Email(email))
                        == AlertAction::SendEmail(e)
                },
                None => s5 == AlertStage::Done && action_for(s5, AlertInput::Email(email))
                    == AlertAction::Finished,
            }
        }),
{
}

} // verus!
