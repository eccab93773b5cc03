//! The install orchestrator: a state machine from activation to completion.
//! Each call of `step` takes the current stage and one event and decides the
//! next stage and the one action to perform; everything that touches the
//! outside world — dialogs, the tool check, spawning, the event sink — is
//! handed back to the caller as that action.

use crate::command::{command_matches, install_command, CommandSpec};
use crate::events::{closing_events, finish_events, Event, RunResult};
use crate::request::{parse_and_sanitize_link, parse_spec, InstallRequest, Reject};
use vstd::prelude::*;

verus! {

/// What a rejected activation surfaces to the user.
pub enum Notice {
    /// The link broke a validation rule.
    BadLink { reason: Reject },
    /// The external tool is not installed or not on the `PATH`.
    ToolNotFound,
}

/// The stages of one activation. `Rejected`, `Cancelled` and `Completed`
/// are terminal.
pub enum Stage {
    /// A link has arrived and is not yet validated.
    Received,
    /// The link passed validation; the tool check is outstanding.
    Validated { request: InstallRequest },
    /// The user has been asked to confirm the request.
    AwaitingConfirmation { request: InstallRequest },
    /// The activation ended before anything ran; the notice was surfaced.
    Rejected { notice: Notice },
    /// The user declined; no further events follow.
    Cancelled,
    /// The child process is running and its output is being forwarded.
    Running { request: InstallRequest },
    /// The single completion event has been emitted.
    Completed,
}

/// One thing the outside world reports to the orchestrator.
pub enum OrchEvent {
    /// The deep-link collaborator delivered a raw link string.
    LinkReceived { link: String },
    /// The `PATH` lookup for the external tool came back.
    ToolChecked { present: bool },
    /// The confirmation dialog's callback fired.
    ConfirmAnswered { yes: bool },
    /// The spawned run ended, one way or the other.
    RunFinished { result: RunResult },
}

/// The one thing the caller must do after a step.
pub enum OrchAction {
    /// Nothing: the event does not apply to the stage.
    Ignore,
    /// Surface the rejection reason in an error dialog. Terminal.
    ShowRejection { reason: Reject },
    /// Look the external tool up on the `PATH` and report back.
    CheckTool,
    /// Warn that the tool is missing and offer its installation page.
    /// Terminal.
    ShowToolMissing,
    /// Ask the user to confirm the request now held in the stage.
    AskConfirmation,
    /// Show progress, spawn this command, forward its output lines as
    /// events, and report back how the run ended.
    StartInstall { command: CommandSpec },
    /// Forward these closing events to the sink. Terminal.
    EmitEvents { events: Vec<Event> },
}

/// The transition relation of the orchestrator: from `stage`, on `event`,
/// the activation moves to `next` and the caller performs `action`.
pub open spec fn transition(
    stage: Stage,
    event: OrchEvent,
    next: Stage,
    action: OrchAction,
) -> bool {
    match (stage, event) {
        (Stage::Received, OrchEvent::LinkReceived { link }) => match parse_spec(link@) {
            Ok(v) => {
                &&& next matches Stage::Validated { request }
                &&& (next matches Stage::Validated { request } ==> request@ == v && request.wf())
                &&& action == OrchAction::CheckTool
            },
            Err(e) => {
                &&& next == Stage::Rejected { notice: (Notice::BadLink { reason: e }) }
                &&& action == OrchAction::ShowRejection { reason: e }
            },
        },
        (Stage::Validated { request }, OrchEvent::ToolChecked { present }) => if present {
            next == Stage::AwaitingConfirmation { request } && action == OrchAction::AskConfirmation
        } else {
            next == Stage::Rejected { notice: Notice::ToolNotFound } && action
                == OrchAction::ShowToolMissing
        },
        (Stage::AwaitingConfirmation { request }, OrchEvent::ConfirmAnswered { yes }) => if yes {
            &&& next == Stage::Running { request }
            &&& action matches OrchAction::StartInstall { command }
            &&& (action matches OrchAction::StartInstall { command } ==> command_matches(
                command,
                request@,
            ))
        } else {
            next == Stage::Cancelled && action == OrchAction::Ignore
        },
        (Stage::Running { request }, OrchEvent::RunFinished { result }) => {
            &&& next == Stage::Completed
            &&& action matches OrchAction::EmitEvents { events }
            &&& (action matches OrchAction::EmitEvents { events } ==> closing_events(
                events@,
                result,
                request@.alias,
            ) && crate::events::complete_count(events@) == 1)
        },
        (s, _) => next == s && action == OrchAction::Ignore,
    }
}

/// Performs one step of the activation's state machine.
pub fn step(stage: Stage, event: OrchEvent) -> (r: (Stage, OrchAction))
    ensures
        transition(stage, event, r.0, r.1),
{
    match (stage, event) {
        (Stage::Received, OrchEvent::LinkReceived { link }) => {
            match parse_and_sanitize_link(link.as_str()) {
                Ok(request) => (Stage::Validated { request }, OrchAction::CheckTool),
                Err(reason) => (
                    Stage::Rejected { notice: Notice::BadLink { reason } },
                    OrchAction::ShowRejection { reason },
                ),
            }
        },
        (Stage::Validated { request }, OrchEvent::ToolChecked { present }) => {
            if present {
                (Stage::AwaitingConfirmation { request }, OrchAction::AskConfirmation)
            } else {
                (Stage::Rejected { notice: Notice::ToolNotFound }, OrchAction::ShowToolMissing)
            }
        },
        (Stage::AwaitingConfirmation { request }, OrchEvent::ConfirmAnswered { yes }) => {
            if yes {
                let command = install_command(&request);
                (Stage::Running { request }, OrchAction::StartInstall { command })
            } else {
                (Stage::Cancelled, OrchAction::Ignore)
            }
        },
        (Stage::Running { request }, OrchEvent::RunFinished { result }) => {
            let events = finish_events(&result, request.alias().as_str());
            (Stage::Completed, OrchAction::EmitEvents { events })
        },
        (s, _) => (s, OrchAction::Ignore),
    }
}

/// Law: closing events are emitted only by the transition out of `Running`,
/// and then exactly one completion event is among them; that transition
/// ends the activation.
pub proof fn lemma_one_completion_per_run(
    stage: Stage,
    event: OrchEvent,
    next: Stage,
    action: OrchAction,
)
    requires
        transition(stage, event, next, action),
        action matches OrchAction::EmitEvents { events },
    ensures
        stage matches Stage::Running { request },
        next == Stage::Completed,
        action matches OrchAction::EmitEvents { events } ==> crate::events::complete_count(events@)
            == 1,
{
}

/// Law: `Rejected`, `Cancelled` and `Completed` are terminal — no event
/// moves an activation out of them, and no further action is taken.
pub proof fn lemma_terminal_stages(stage: Stage, event: OrchEvent, next: Stage, action: OrchAction)
    requires
        transition(stage, event, next, action),
        stage matches Stage::Rejected { notice } || stage is Cancelled || stage is Completed,
    ensures
        next == stage,
        action == OrchAction::Ignore,
{
}

} // verus!
