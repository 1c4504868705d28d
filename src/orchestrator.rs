//! The sequence of one job: validate, run the pre-transfer hook, transfer,
//! then run the post-transfer or the on-error hook, and compose the final
//! result.
//!
//! The orchestrator decides and the caller acts: each decision is an
//! `Action` to perform, and the caller reports how it went as an `Event`.

use crate::error::{error_view, outcome, view_text, AppError, ErrorView};
use crate::profile::{destination_verdict, source_verdict, ProtocolType, TransferProfile};
use crate::text::{contains_text, lemma_contains_middle};
use crate::transfer::{direction_of, select_direction, Direction};
use vstd::prelude::*;

verus! {

/// The stage a hook command runs at.
#[derive(Clone, Copy, Debug, PartialEq, Eq, Structural)]
pub enum JobType {
    PreTransfer,
    PostTransfer,
    OnError,
}

pub open spec fn job_type_label(j: JobType) -> Seq<char> {
    match j {
        JobType::PreTransfer => "pre-transfer"@,
        JobType::PostTransfer => "post-transfer"@,
        JobType::OnError => "on-error"@,
    }
}

impl JobType {
    /// The label that the command runner is given.
    pub fn label(&self) -> (r: String)
        ensures
            r@ == job_type_label(*self),
    {
        match self {
            JobType::PreTransfer => String::from_str("pre-transfer"),
            JobType::PostTransfer => String::from_str("post-transfer"),
            JobType::OnError => String::from_str("on-error"),
        }
    }
}

/// What the caller is to do next.
#[derive(Debug)]
pub enum Action {
    /// Run `command` as the hook of `job_type`.
    RunHook { command: String, job_type: JobType },
    /// Transfer the file with `protocol` in `direction`.
    Transfer { protocol: ProtocolType, direction: Direction },
    /// The job is over, with this result.
    Finish(Result<(), AppError>),
}

/// How the last action went.
#[derive(Debug)]
pub enum Event {
    HookSucceeded,
    /// The hook exited with failure or could not be run; the detail says how.
    HookFailed(String),
    TransferSucceeded,
    TransferFailed(AppError),
}

/// Where a job stands.
#[derive(Debug)]
pub enum Stage {
    PreHook,
    Transferring,
    PostHook,
    /// The on-error hook runs; the transfer's error waits for its outcome.
    OnErrorHook(AppError),
    Done,
}

pub enum StageView {
    PreHook,
    Transferring,
    PostHook,
    OnErrorHook(ErrorView),
    Done,
}

pub enum ActionView {
    RunHook { command: Seq<char>, job_type: JobType },
    Transfer { protocol: ProtocolType, direction: Direction },
    Finish(Result<(), ErrorView>),
}

pub enum EventView {
    HookSucceeded,
    HookFailed(Seq<char>),
    TransferSucceeded,
    TransferFailed(ErrorView),
}

pub open spec fn stage_view(s: Stage) -> StageView {
    match s {
        Stage::PreHook => StageView::PreHook,
        Stage::Transferring => StageView::Transferring,
        Stage::PostHook => StageView::PostHook,
        Stage::OnErrorHook(e) => StageView::OnErrorHook(error_view(e)),
        Stage::Done => StageView::Done,
    }
}

pub open spec fn action_view(a: Action) -> ActionView {
    match a {
        Action::RunHook { command, job_type } => ActionView::RunHook { command: command@, job_type },
        Action::Transfer { protocol, direction } => ActionView::Transfer { protocol, direction },
        Action::Finish(r) => ActionView::Finish(outcome(r)),
    }
}

pub open spec fn event_view(e: Event) -> EventView {
    match e {
        Event::HookSucceeded => EventView::HookSucceeded,
        Event::HookFailed(d) => EventView::HookFailed(d@),
        Event::TransferSucceeded => EventView::TransferSucceeded,
        Event::TransferFailed(err) => EventView::TransferFailed(error_view(err)),
    }
}

/// The error of a failed hook.
pub open spec fn hook_error(profile_id: Seq<char>, job_type: JobType, detail: Seq<char>) -> ErrorView {
    ErrorView::HookFailed { profile_id, job_type: job_type_label(job_type), detail }
}

pub open spec fn mismatch_text() -> Seq<char> {
    "the event does not answer the last action"@
}

/// After validation and the pre-transfer hook: transfer in the direction
/// that the endpoints give, or stop on a pairing the protocol cannot serve.
pub open spec fn transfer_decision(p: TransferProfile) -> (StageView, ActionView) {
    match direction_of(p) {
        Ok(d) => (StageView::Transferring, ActionView::Transfer { protocol: p.transfer_protocol.protocol, direction: d }),
        Err(e) => (StageView::Done, ActionView::Finish(Err(e))),
    }
}

/// The first decision of a job: validate; on failure stop before any hook.
pub open spec fn first_step(p: TransferProfile) -> (StageView, ActionView) {
    match source_verdict(p.source) {
        Err(e) => (StageView::Done, ActionView::Finish(Err(e))),
        Ok(()) => match destination_verdict(p.destination) {
            Err(e) => (StageView::Done, ActionView::Finish(Err(e))),
            Ok(()) => match p.pre_transfer_command {
                Some(c) => (StageView::PreHook, ActionView::RunHook { command: c@, job_type: JobType::PreTransfer }),
                None => transfer_decision(p),
            },
        },
    }
}

/// Every later decision, from the stage and the outcome of the last action.
pub open spec fn next_step(s: StageView, p: TransferProfile, ev: EventView) -> (StageView, ActionView) {
    let id = p.profile_id@;
    match (s, ev) {
        (StageView::PreHook, EventView::HookSucceeded) => transfer_decision(p),
        (StageView::PreHook, EventView::HookFailed(d)) =>
            (StageView::Done, ActionView::Finish(Err(hook_error(id, JobType::PreTransfer, d)))),
        (StageView::Transferring, EventView::TransferSucceeded) => match p.post_transfer_command {
            Some(c) => (StageView::PostHook, ActionView::RunHook { command: c@, job_type: JobType::PostTransfer }),
            None => (StageView::Done, ActionView::Finish(Ok(()))),
        },
        (StageView::Transferring, EventView::TransferFailed(e)) => match p.on_error_command {
            Some(c) => (StageView::OnErrorHook(e), ActionView::RunHook { command: c@, job_type: JobType::OnError }),
            None => (StageView::Done, ActionView::Finish(Err(e))),
        },
        (StageView::PostHook, EventView::HookSucceeded) => (StageView::Done, ActionView::Finish(Ok(()))),
        (StageView::PostHook, EventView::HookFailed(d)) =>
            (StageView::Done, ActionView::Finish(Err(hook_error(id, JobType::PostTransfer, d)))),
        (StageView::OnErrorHook(e), EventView::HookSucceeded) => (StageView::Done, ActionView::Finish(Err(e))),
        (StageView::OnErrorHook(e), EventView::HookFailed(d)) => (
            StageView::Done,
            ActionView::Finish(Err(ErrorView::Composed {
                original: Box::new(e),
                on_error: Box::new(hook_error(id, JobType::OnError, d)),
            })),
        ),
        (StageView::OnErrorHook(e), _) => (StageView::Done, ActionView::Finish(Err(e))),
        _ => (StageView::Done, ActionView::Finish(Err(ErrorView::Validation(mismatch_text())))),
    }
}

fn hook_failure(profile: &TransferProfile, job_type: JobType, detail: String) -> (r: AppError)
    ensures
        error_view(r) == hook_error(profile.profile_id@, job_type, detail@),
{
    AppError::HookFailed { profile_id: profile.profile_id.clone(), job_type: job_type.label(), detail }
}

fn decide_transfer(profile: &TransferProfile) -> (r: (Stage, Action))
    ensures
        (stage_view(r.0), action_view(r.1)) == transfer_decision(*profile),
{
    match select_direction(profile) {
        Ok(d) => (Stage::Transferring, Action::Transfer { protocol: profile.transfer_protocol.protocol, direction: d }),
        Err(e) => (Stage::Done, Action::Finish(Err(e))),
    }
}

/// Starts a job: validates the profile and says what to do first.
pub fn begin(profile: &TransferProfile) -> (r: (Stage, Action))
    ensures
        (stage_view(r.0), action_view(r.1)) == first_step(*profile),
{
    match profile.source.validate() {
        Err(e) => {
            return (Stage::Done, Action::Finish(Err(e)));
        },
        Ok(()) => {},
    }
    match profile.destination.validate() {
        Err(e) => {
            return (Stage::Done, Action::Finish(Err(e)));
        },
        Ok(()) => {},
    }
    match &profile.pre_transfer_command {
        Some(c) => (Stage::PreHook, Action::RunHook { command: c.clone(), job_type: JobType::PreTransfer }),
        None => decide_transfer(profile),
    }
}

/// Takes the outcome of the last action and says what to do next.
pub fn advance(stage: Stage, profile: &TransferProfile, event: Event) -> (r: (Stage, Action))
    ensures
        (stage_view(r.0), action_view(r.1)) == next_step(stage_view(stage), *profile, event_view(event)),
{
    match (stage, event) {
        (Stage::PreHook, Event::HookSucceeded) => decide_transfer(profile),
        (Stage::PreHook, Event::HookFailed(d)) =>
            (Stage::Done, Action::Finish(Err(hook_failure(profile, JobType::PreTransfer, d)))),
        (Stage::Transferring, Event::TransferSucceeded) => match &profile.post_transfer_command {
            Some(c) => (Stage::PostHook, Action::RunHook { command: c.clone(), job_type: JobType::PostTransfer }),
            None => (Stage::Done, Action::Finish(Ok(()))),
        },
        (Stage::Transferring, Event::TransferFailed(e)) => match &profile.on_error_command {
            Some(c) => (Stage::OnErrorHook(e), Action::RunHook { command: c.clone(), job_type: JobType::OnError }),
            None => (Stage::Done, Action::Finish(Err(e))),
        },
        (Stage::PostHook, Event::HookSucceeded) => (Stage::Done, Action::Finish(Ok(()))),
        (Stage::PostHook, Event::HookFailed(d)) =>
            (Stage::Done, Action::Finish(Err(hook_failure(profile, JobType::PostTransfer, d)))),
        (Stage::OnErrorHook(e), Event::HookSucceeded) => (Stage::Done, Action::Finish(Err(e))),
        (Stage::OnErrorHook(e), Event::HookFailed(d)) => {
            let second = hook_failure(profile, JobType::OnError, d);
            (Stage::Done, Action::Finish(Err(AppError::Composed { original: Box::new(e), on_error: Box::new(second) })))
        },
        (Stage::OnErrorHook(e), _) => (Stage::Done, Action::Finish(Err(e))),
        _ => (
            Stage::Done,
            Action::Finish(Err(AppError::Validation(String::from_str("the event does not answer the last action")))),
        ),
    }
}

// ---- laws of composition ----

/// A failed pre-transfer hook ends the job with its own error: no transfer
/// is asked for.
pub proof fn lemma_pre_hook_failure_stops(p: TransferProfile, detail: Seq<char>)
    ensures
        next_step(StageView::PreHook, p, EventView::HookFailed(detail)) == (
            StageView::Done,
            ActionView::Finish(Err(hook_error(p.profile_id@, JobType::PreTransfer, detail))),
        ),
{
}

/// After a successful transfer the post-transfer hook runs, and its failure
/// is the job's error.
pub proof fn lemma_post_hook_failure_is_final(p: TransferProfile, detail: Seq<char>)
    requires
        p.post_transfer_command is Some,
    ensures
        next_step(StageView::Transferring, p, EventView::TransferSucceeded) == (
            StageView::PostHook,
            ActionView::RunHook { command: p.post_transfer_command->Some_0@, job_type: JobType::PostTransfer },
        ),
        next_step(StageView::PostHook, p, EventView::HookFailed(detail)) == (
            StageView::Done,
            ActionView::Finish(Err(hook_error(p.profile_id@, JobType::PostTransfer, detail))),
        ),
{
}

/// Without an on-error command, a failed transfer ends the job with the
/// transfer's error.
pub proof fn lemma_transfer_failure_without_hook(p: TransferProfile, e: ErrorView)
    requires
        p.on_error_command is None,
    ensures
        next_step(StageView::Transferring, p, EventView::TransferFailed(e)) == (
            StageView::Done,
            ActionView::Finish(Err(e)),
        ),
{
}

/// A failed transfer runs the on-error hook; if the hook succeeds the job's
/// error is still the transfer's, and if it fails too the job's error
/// carries both, its text holding both texts.
pub proof fn lemma_on_error_failure_keeps_both(p: TransferProfile, e: ErrorView, detail: Seq<char>)
    requires
        p.on_error_command is Some,
    ensures
        next_step(StageView::Transferring, p, EventView::TransferFailed(e)) == (
            StageView::OnErrorHook(e),
            ActionView::RunHook { command: p.on_error_command->Some_0@, job_type: JobType::OnError },
        ),
        next_step(StageView::OnErrorHook(e), p, EventView::HookSucceeded) == (
            StageView::Done,
            ActionView::Finish(Err(e)),
        ),
        next_step(StageView::OnErrorHook(e), p, EventView::HookFailed(detail)) matches (
            StageView::Done,
            ActionView::Finish(Err(c)),
        ) && contains_text(view_text(c), view_text(e)) && contains_text(
            view_text(c),
            view_text(hook_error(p.profile_id@, JobType::OnError, detail)),
        ),
{
    let h = hook_error(p.profile_id@, JobType::OnError, detail);
    let head = "Transfer failed and on-error command also failed: Original: "@;
    let mid = ", On-error: "@;
    lemma_contains_middle(head, view_text(e), mid + view_text(h));
    lemma_contains_middle(head + view_text(e) + mid, view_text(h), Seq::empty());
    assert(head + view_text(e) + (mid + view_text(h)) =~= head + view_text(e) + mid + view_text(h));
    assert(head + view_text(e) + mid + view_text(h) + Seq::empty() =~= head + view_text(e) + mid + view_text(h));
}

/// Validation failures end the job at once: no hook runs.
pub proof fn lemma_invalid_profile_runs_nothing(p: TransferProfile)
    requires
        source_verdict(p.source) is Err || destination_verdict(p.destination) is Err,
    ensures
        first_step(p).0 == StageView::Done,
        first_step(p).1 is Finish,
{
}

} // verus!
