//! Command dispatch: routing a named command with one opaque argument to the
//! installed client, off the calling thread.
//!
//! A command is `Requested`, then either `Rejected` because no client is
//! installed, or `Running` with a handle of its own until it is `Completed`.
//! There is no cancellation. The library resolves the handle and decides what
//! is owed to the caller and when; the embedding starts the background work
//! and reports its result.
//!
//! In detached mode the caller gets an acknowledgement at once and never sees
//! the result. In awaited mode the caller holds a completion handle, which is
//! resolved exactly once: with the error text of a rejection, or with the
//! text that the command produced.

use crate::registry::{slot_after, Registry, SlotChange};
use crate::text::{error_reply, error_text, has_error_marker, ok_reply, ok_text};
use crate::views::option_view;
use std::sync::Arc;
use vstd::prelude::*;

verus! {

/// How the result of a command reaches the caller.
#[derive(Clone, Copy, Debug, PartialEq, Eq, Structural)]
pub enum DispatchMode {
    /// Fire and forget: the result is not observable.
    Detached,
    /// The result resolves a completion handle.
    Awaited,
}

/// Where a dispatched command stands.
#[derive(Clone, Copy, Debug, PartialEq, Eq, Structural)]
pub enum CommandPhase {
    Requested,
    Rejected,
    Running,
    Completed,
}

/// A unit of background work: a command to execute against a handle that the
/// work owns.
#[derive(Debug, PartialEq, Eq)]
pub struct CommandWork<H> {
    /// The work's own reference to the client.
    pub handle: Arc<H>,
    /// The command's name, resolved by the client's command table.
    pub command: String,
    /// The arguments to hand to the command: none, or the one opaque argument.
    pub arguments: Vec<String>,
}

pub struct CommandWorkView<H> {
    pub handle: Arc<H>,
    pub command: Seq<char>,
    pub arguments: Seq<Seq<char>>,
}

impl<H> View for CommandWork<H> {
    type V = CommandWorkView<H>;

    open spec fn view(&self) -> CommandWorkView<H> {
        CommandWorkView {
            handle: self.handle,
            command: self.command@,
            arguments: self.arguments.deep_view(),
        }
    }
}

/// What remains of a dispatched command on the embedding's side: its mode and
/// its phase.
#[derive(Debug, PartialEq, Eq)]
pub struct CommandTicket {
    mode: DispatchMode,
    phase: CommandPhase,
}

pub struct CommandTicketView {
    pub mode: DispatchMode,
    pub phase: CommandPhase,
}

impl View for CommandTicket {
    type V = CommandTicketView;

    closed spec fn view(&self) -> CommandTicketView {
        CommandTicketView { mode: self.mode, phase: self.phase }
    }
}

/// The outcome of a dispatch.
#[derive(Debug, PartialEq, Eq)]
pub struct Dispatched<H> {
    /// The command's ticket, `Rejected` or `Running`.
    pub ticket: CommandTicket,
    /// The text to return to the caller at once, in detached mode.
    pub reply: Option<String>,
    /// The background work to start, if the command was accepted.
    pub work: Option<CommandWork<H>>,
    /// The text to resolve the completion handle with at once, in awaited
    /// mode, when the command was rejected.
    pub resolution: Option<String>,
}

pub struct DispatchedView<H> {
    pub ticket: CommandTicketView,
    pub reply: Option<Seq<char>>,
    pub work: Option<CommandWorkView<H>>,
    pub resolution: Option<Seq<char>>,
}

impl<H> View for Dispatched<H> {
    type V = DispatchedView<H>;

    open spec fn view(&self) -> DispatchedView<H> {
        DispatchedView {
            ticket: self.ticket@,
            reply: option_view(self.reply),
            work: option_view(self.work),
            resolution: option_view(self.resolution),
        }
    }
}

/// The outcome of reporting a command's result.
#[derive(Debug, PartialEq, Eq)]
pub struct Finished {
    /// The command's ticket after the report.
    pub ticket: CommandTicket,
    /// The text to resolve the completion handle with, if one is owed.
    pub resolution: Option<String>,
}

pub struct FinishedView {
    pub ticket: CommandTicketView,
    pub resolution: Option<Seq<char>>,
}

impl View for Finished {
    type V = FinishedView;

    open spec fn view(&self) -> FinishedView {
        FinishedView { ticket: self.ticket@, resolution: option_view(self.resolution) }
    }
}

/// The error reply of a detached dispatch that finds no client installed.
pub open spec fn detached_rejection_text() -> Seq<char> {
    error_text("Lightclient is not initialized"@)
}

/// The error text of an awaited dispatch, or of an export, that finds no
/// client installed.
pub open spec fn not_initialized_text() -> Seq<char> {
    error_text("Light Client is not initialized"@)
}

/// The arguments that a command receives: an empty argument stands for no
/// argument at all, and anything else is passed on whole as the one argument.
pub open spec fn packed_arguments(argument: Seq<char>) -> Seq<Seq<char>> {
    if argument.len() == 0 {
        seq![]
    } else {
        seq![argument]
    }
}

/// What a dispatch in `mode` does when the registry holds `current`.
pub open spec fn dispatch_model<H>(
    mode: DispatchMode,
    current: Option<Arc<H>>,
    command: Seq<char>,
    argument: Seq<char>,
) -> DispatchedView<H> {
    match current {
        None => DispatchedView {
            ticket: CommandTicketView { mode, phase: CommandPhase::Rejected },
            reply: if mode is Detached {
                Some(detached_rejection_text())
            } else {
                None
            },
            work: None,
            resolution: if mode is Awaited {
                Some(not_initialized_text())
            } else {
                None
            },
        },
        Some(handle) => DispatchedView {
            ticket: CommandTicketView { mode, phase: CommandPhase::Running },
            reply: if mode is Detached {
                Some(ok_text())
            } else {
                None
            },
            work: Some(CommandWorkView { handle, command, arguments: packed_arguments(argument) }),
            resolution: None,
        },
    }
}

/// What the report of a command's result does to its ticket. Only a running
/// command completes, and only an awaited one passes its result on.
pub open spec fn finish_model(ticket: CommandTicketView, result: Seq<char>) -> FinishedView {
    if ticket.phase is Running {
        FinishedView {
            ticket: CommandTicketView { mode: ticket.mode, phase: CommandPhase::Completed },
            resolution: if ticket.mode is Awaited {
                Some(result)
            } else {
                None
            },
        }
    } else {
        FinishedView { ticket, resolution: None }
    }
}

fn pack_arguments(argument: &str) -> (arguments: Vec<String>)
    ensures
        arguments.deep_view() == packed_arguments(argument@),
{
    let mut arguments: Vec<String> = Vec::new();
    if !argument.is_empty() {
        arguments.push(argument.to_owned());
    }
    assert(arguments.deep_view() =~= packed_arguments(argument@));
    arguments
}

/// Dispatches `command` with `argument` in `mode` against the client that
/// `registry` holds now.
pub fn dispatch<H>(
    mode: DispatchMode,
    registry: &Registry<H>,
    command: &str,
    argument: &str,
) -> (outcome: Dispatched<H>)
    ensures
        outcome@ == dispatch_model(mode, registry@, command@, argument@),
{
    match registry.current() {
        None => {
            let ticket = CommandTicket { mode, phase: CommandPhase::Rejected };
            match mode {
                DispatchMode::Detached => Dispatched {
                    ticket,
                    reply: Some(error_reply("Lightclient is not initialized")),
                    work: None,
                    resolution: None,
                },
                DispatchMode::Awaited => Dispatched {
                    ticket,
                    reply: None,
                    work: None,
                    resolution: Some(error_reply("Light Client is not initialized")),
                },
            }
        },
        Some(handle) => {
            let ticket = CommandTicket { mode, phase: CommandPhase::Running };
            let work = CommandWork {
                handle,
                command: command.to_owned(),
                arguments: pack_arguments(argument),
            };
            let reply = match mode {
                DispatchMode::Detached => Some(ok_reply()),
                DispatchMode::Awaited => None,
            };
            Dispatched { ticket, reply, work: Some(work), resolution: None }
        },
    }
}

/// Dispatches a command whose result nobody waits for. The reply is the
/// acknowledgement `OK`, or the error text when no client is installed, in
/// which case no work is to be started.
pub fn dispatch_detached<H>(registry: &Registry<H>, command: &str, argument: &str) -> (outcome:
    Dispatched<H>)
    ensures
        outcome@ == dispatch_model(DispatchMode::Detached, registry@, command@, argument@),
{
    dispatch(DispatchMode::Detached, registry, command, argument)
}

/// Dispatches a command whose result resolves a completion handle. When no
/// client is installed the handle is to be resolved at once with the error
/// text, and no work is to be started.
pub fn dispatch_awaited<H>(registry: &Registry<H>, command: &str, argument: &str) -> (outcome:
    Dispatched<H>)
    ensures
        outcome@ == dispatch_model(DispatchMode::Awaited, registry@, command@, argument@),
{
    dispatch(DispatchMode::Awaited, registry, command, argument)
}

impl CommandTicket {
    /// The mode the command was dispatched in.
    pub fn mode(&self) -> (mode: DispatchMode)
        ensures
            mode == self@.mode,
    {
        self.mode
    }

    /// The phase the command is in.
    pub fn phase(&self) -> (phase: CommandPhase)
        ensures
            phase == self@.phase,
    {
        self.phase
    }

    /// Takes the result that the background work produced, success or error
    /// text alike. The ticket is used up, so a result is taken at most once.
    pub fn finish(self, result: String) -> (finished: Finished)
        ensures
            finished@ == finish_model(self@, result@),
    {
        match self.phase {
            CommandPhase::Running => {
                let ticket = CommandTicket { mode: self.mode, phase: CommandPhase::Completed };
                match self.mode {
                    DispatchMode::Awaited => Finished { ticket, resolution: Some(result) },
                    DispatchMode::Detached => Finished { ticket, resolution: None },
                }
            },
            _ => Finished { ticket: self, resolution: None },
        }
    }
}

/// What happens to a command.
pub enum CommandEvent<H> {
    /// It is dispatched while the registry holds `current`.
    Dispatch { current: Option<Arc<H>>, command: Seq<char>, argument: Seq<char> },
    /// Its background work reports `result`.
    Finish { result: Seq<char> },
}

/// A command's phase together with what it has caused so far.
pub struct CommandTrace {
    pub phase: CommandPhase,
    /// How many texts were returned to the caller directly.
    pub replies: nat,
    /// How many units of background work were started.
    pub spawns: nat,
    /// How many times the completion handle was resolved.
    pub resolutions: nat,
}

/// One if there is a value, zero if there is none.
pub open spec fn occurrences<T>(value: Option<T>) -> nat {
    if value is Some {
        1
    } else {
        0
    }
}

/// The trace of a command that has only been requested.
pub open spec fn requested() -> CommandTrace {
    CommandTrace { phase: CommandPhase::Requested, replies: 0, spawns: 0, resolutions: 0 }
}

/// The trace after one more event. A dispatch counts only for a command that
/// was merely requested.
pub open spec fn command_step<H>(
    mode: DispatchMode,
    trace: CommandTrace,
    event: CommandEvent<H>,
) -> CommandTrace {
    match event {
        CommandEvent::Dispatch { current, command, argument } => if trace.phase is Requested {
            let outcome = dispatch_model(mode, current, command, argument);
            CommandTrace {
                phase: outcome.ticket.phase,
                replies: trace.replies + occurrences(outcome.reply),
                spawns: trace.spawns + occurrences(outcome.work),
                resolutions: trace.resolutions + occurrences(outcome.resolution),
            }
        } else {
            trace
        },
        CommandEvent::Finish { result } => {
            let finished = finish_model(CommandTicketView { mode, phase: trace.phase }, result);
            CommandTrace {
                phase: finished.ticket.phase,
                replies: trace.replies,
                spawns: trace.spawns,
                resolutions: trace.resolutions + occurrences(finished.resolution),
            }
        },
    }
}

/// The trace of a command in `mode` after a sequence of events.
pub open spec fn command_run<H>(mode: DispatchMode, events: Seq<CommandEvent<H>>) -> CommandTrace
    decreases events.len(),
{
    if events.len() == 0 {
        requested()
    } else {
        command_step(mode, command_run(mode, events.drop_last()), events.last())
    }
}

/// What a command in `mode` has caused once it is in `phase`.
pub open spec fn trace_of(mode: DispatchMode, phase: CommandPhase) -> CommandTrace {
    CommandTrace {
        phase,
        replies: if mode is Detached && !(phase is Requested) {
            1
        } else {
            0
        },
        spawns: if phase is Running || phase is Completed {
            1
        } else {
            0
        },
        resolutions: if mode is Awaited && (phase is Rejected || phase is Completed) {
            1
        } else {
            0
        },
    }
}

/// Whatever happens to a command and in whatever order, what it has caused
/// is told by its phase alone: work is started at most once and only for an
/// accepted command, a detached command answers its caller exactly once and
/// never resolves anything, and an awaited command resolves its completion
/// handle exactly once, on rejection or on completion, and never again.
pub proof fn lemma_phase_tells_trace<H>(mode: DispatchMode, events: Seq<CommandEvent<H>>)
    ensures
        command_run(mode, events) == trace_of(mode, command_run(mode, events).phase),
    decreases events.len(),
{
    if events.len() > 0 {
        lemma_phase_tells_trace(mode, events.drop_last());
    }
}

/// How far a command has come: a rejected or completed command is at its end.
pub open spec fn progress(phase: CommandPhase) -> nat {
    match phase {
        CommandPhase::Requested => 0,
        CommandPhase::Running => 1,
        CommandPhase::Rejected => 2,
        CommandPhase::Completed => 2,
    }
}

/// A command only moves forward: no event takes it back to an earlier phase,
/// a rejected command stays rejected, and a command that runs can only run
/// on or complete. There is no way to cancel it.
pub proof fn lemma_command_only_advances<H>(
    mode: DispatchMode,
    trace: CommandTrace,
    event: CommandEvent<H>,
)
    ensures
        progress(trace.phase) <= progress(command_step(mode, trace, event).phase),
        trace.phase is Rejected ==> command_step(mode, trace, event) == trace,
        trace.phase is Completed ==> command_step(mode, trace, event) == trace,
        trace.phase is Running ==> command_step(mode, trace, event).phase is Running
            || command_step(mode, trace, event).phase is Completed,
{
}

/// The mode is the caller's choice and nothing else: what a dispatch does
/// depends on the command's name and argument only in the work that it
/// starts, never in whether it starts work, what it answers, or how the
/// result is delivered.
pub proof fn lemma_mode_is_not_inferred_from_the_command<H>(
    mode: DispatchMode,
    current: Option<Arc<H>>,
    command: Seq<char>,
    argument: Seq<char>,
    other_command: Seq<char>,
    other_argument: Seq<char>,
)
    ensures
        ({
            let one = dispatch_model(mode, current, command, argument);
            let other = dispatch_model(mode, current, other_command, other_argument);
            &&& one.ticket == other.ticket
            &&& one.reply == other.reply
            &&& one.resolution == other.resolution
            &&& one.work is Some <==> other.work is Some
            &&& one.work is Some ==> one.work->Some_0.command == command
                && one.work->Some_0.arguments == packed_arguments(argument)
        }),
{
}

/// An awaited command never resolves its completion handle twice, and has
/// resolved it once as soon as it is rejected or completed.
pub proof fn lemma_awaited_resolves_exactly_once<H>(events: Seq<CommandEvent<H>>)
    ensures
        command_run(DispatchMode::Awaited, events).resolutions <= 1,
        command_run(DispatchMode::Awaited, events).resolutions == 1 <==> (command_run(
            DispatchMode::Awaited,
            events,
        ).phase is Rejected || command_run(DispatchMode::Awaited, events).phase is Completed),
{
    lemma_phase_tells_trace(DispatchMode::Awaited, events);
}

/// An awaited command that was dispatched, and whose work, if any was
/// started, has reported, has resolved its completion handle: with the error
/// text when no client was installed, and else with the work's result.
pub proof fn lemma_awaited_is_not_left_pending<H>(
    current: Option<Arc<H>>,
    command: Seq<char>,
    argument: Seq<char>,
    result: Seq<char>,
)
    ensures
        ({
            let outcome = dispatch_model(DispatchMode::Awaited, current, command, argument);
            let finished = finish_model(outcome.ticket, result);
            &&& current is None ==> outcome.resolution == Some(not_initialized_text())
                && outcome.work is None
            &&& current is Some ==> outcome.resolution is None && outcome.work is Some
                && finished.resolution == Some(result) && finished.ticket.phase is Completed
            &&& command_run(
                DispatchMode::Awaited,
                seq![
                    CommandEvent::Dispatch { current, command, argument },
                    CommandEvent::Finish { result },
                ],
            ).resolutions == 1
        }),
{
    let dispatch = CommandEvent::Dispatch { current, command, argument };
    let finish = CommandEvent::<H>::Finish { result };
    let both = seq![dispatch, finish];
    let none = Seq::<CommandEvent<H>>::empty();
    assert(both.drop_last() =~= seq![dispatch]);
    assert(seq![dispatch].drop_last() =~= none);
    assert(command_run(DispatchMode::Awaited, none) == requested());
    assert(command_run(DispatchMode::Awaited, seq![dispatch]) == command_step(
        DispatchMode::Awaited,
        requested(),
        dispatch,
    ));
}

/// Once the registry has been cleared, a dispatch of any command in either
/// mode is rejected with an error text and starts no work.
pub proof fn lemma_dispatch_after_teardown_is_rejected<H>(
    mode: DispatchMode,
    slot: Option<Arc<H>>,
    command: Seq<char>,
    argument: Seq<char>,
)
    ensures
        ({
            let outcome = dispatch_model(
                mode,
                slot_after(slot, SlotChange::Clear),
                command,
                argument,
            );
            &&& outcome.ticket.phase is Rejected
            &&& outcome.work is None
            &&& mode is Detached ==> outcome.reply == Some(detached_rejection_text())
            &&& mode is Awaited ==> outcome.resolution == Some(not_initialized_text())
            &&& has_error_marker(detached_rejection_text())
            &&& has_error_marker(not_initialized_text())
        }),
{
}

/// Work in flight keeps the handle it was dispatched with. Installing another
/// handle afterwards redirects later dispatches only: the work's handle is
/// still the first one, and its result is taken as if nothing had happened.
pub proof fn lemma_in_flight_work_survives_replacement<H>(
    mode: DispatchMode,
    first: Arc<H>,
    second: Arc<H>,
    command: Seq<char>,
    argument: Seq<char>,
    result: Seq<char>,
)
    ensures
        ({
            let in_flight = dispatch_model(mode, Some(first), command, argument);
            let replaced = slot_after(Some(first), SlotChange::Install(second));
            let later = dispatch_model(mode, replaced, command, argument);
            let finished = finish_model(in_flight.ticket, result);
            &&& in_flight.work is Some
            &&& in_flight.work->Some_0.handle == first
            &&& later.work is Some
            &&& later.work->Some_0.handle == second
            &&& finished.ticket.phase is Completed
            &&& mode is Awaited ==> finished.resolution == Some(result)
            &&& mode is Detached ==> finished.resolution is None
        }),
{
}

} // verus!
