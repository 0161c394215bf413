//! Read-only queries: whether a wallet exists, how high the server's chain
//! is, and the exports of the installed client.
//!
//! None of them writes the registry. The existence check and the height probe
//! do not even read it: they work on a configuration or a locator of their
//! own. An export needs the installed client and is rejected without one.

use crate::config::{
    config_request, config_request_model, malformed_locator_reply, malformed_locator_text,
    ConfigFailure, ConfigFailureView, ConfigRequest, ConfigRequestView,
};
use crate::chain::is_known_hint;
use crate::dispatch::not_initialized_text;
use crate::lifecycle::{init_begin, InitActionView, InitRequestView};
use crate::locator::{parse_locator, parsed_locator};
use crate::registry::Registry;
use crate::text::{
    decimal_text, error_reply, error_text, has_error_marker, height_text,
    lemma_decimal_text_is_not_marked,
};
use crate::views::{failure_view, result_view};
use std::sync::Arc;
use vstd::prelude::*;

verus! {

/// The first step of the existence check.
#[derive(Debug, PartialEq, Eq)]
pub enum ExistenceStep {
    /// The answer is known without looking.
    Answer(bool),
    /// Build this configuration, see whether its wallet file exists, and
    /// hand the finding to `existence_answer`.
    Inspect(ConfigRequest),
}

pub enum ExistenceStepView {
    Answer(bool),
    Inspect(ConfigRequestView),
}

impl View for ExistenceStep {
    type V = ExistenceStepView;

    open spec fn view(&self) -> ExistenceStepView {
        match self {
            ExistenceStep::Answer(answer) => ExistenceStepView::Answer(*answer),
            ExistenceStep::Inspect(request) => ExistenceStepView::Inspect(request@),
        }
    }
}

/// How the existence check opens: no wallet exists on a chain that the hint
/// does not name, and for a named chain the configuration is to be inspected,
/// the same one that an initialisation would build.
pub open spec fn existence_begin(server: Seq<char>, hint: Seq<char>) -> ExistenceStepView {
    match config_request_model(server, None, hint, true) {
        Ok(request) => ExistenceStepView::Inspect(request),
        Err(_) => ExistenceStepView::Answer(false),
    }
}

/// The answer of the existence check, given what the inspection found. A
/// configuration that could not be built holds no wallet.
pub open spec fn existence_model(inspection: Result<bool, ConfigFailureView>) -> bool {
    match inspection {
        Ok(found) => found,
        Err(_) => false,
    }
}

/// Opens the check for an existing wallet for `server` on the chain that
/// `hint` names.
pub fn wallet_exists(server: &str, hint: &str) -> (step: ExistenceStep)
    ensures
        step@ == existence_begin(server@, hint@),
        step is Inspect <==> is_known_hint(hint@),
{
    match config_request(server, None, hint, true) {
        Ok(request) => ExistenceStep::Inspect(request),
        Err(_) => ExistenceStep::Answer(false),
    }
}

/// Concludes the existence check from what the inspection found.
pub fn existence_answer(inspection: Result<bool, ConfigFailure>) -> (exists: bool)
    ensures
        exists == existence_model(failure_view(inspection)),
{
    match inspection {
        Ok(found) => found,
        Err(_) => false,
    }
}

/// The first step of the height probe.
#[derive(Debug, PartialEq, Eq)]
pub enum ProbeStep {
    /// The address is no locator: hand this error text back to the host.
    Reply(String),
    /// Ask the server at `locator` for its latest height and hand the outcome
    /// to `height_reply`.
    Query { locator: String },
}

pub enum ProbeStepView {
    Reply(Seq<char>),
    Query { locator: Seq<char> },
}

impl View for ProbeStep {
    type V = ProbeStepView;

    open spec fn view(&self) -> ProbeStepView {
        match self {
            ProbeStep::Reply(text) => ProbeStepView::Reply(text@),
            ProbeStep::Query { locator } => ProbeStepView::Query { locator: locator@ },
        }
    }
}

/// The first step of the probe, given what the URI parser made of the
/// address.
pub open spec fn probe_model(parsed: Result<Seq<char>, Seq<char>>) -> ProbeStepView {
    match parsed {
        Ok(locator) => ProbeStepView::Query { locator },
        Err(reason) => ProbeStepView::Reply(malformed_locator_text(reason)),
    }
}

/// The reply of the probe, given what the server answered: the height as
/// decimal text, or the error text for a server that could not be asked.
pub open spec fn height_reply_text(outcome: Result<u64, Seq<char>>) -> Seq<char> {
    match outcome {
        Ok(height) => decimal_text(height as nat),
        Err(reason) => error_text(reason),
    }
}

/// Decides the first step of the probe from a parsed address.
pub fn probe_step(parsed: Result<String, String>) -> (step: ProbeStep)
    ensures
        step@ == probe_model(result_view(parsed)),
{
    match parsed {
        Ok(locator) => ProbeStep::Query { locator },
        Err(reason) => ProbeStep::Reply(malformed_locator_reply(reason.as_str())),
    }
}

/// Opens the probe of the latest height at `server`. A malformed address is
/// answered with an error text; it is never a reason to abort.
pub fn probe_server_height(server: &str) -> (step: ProbeStep)
    ensures
        step@ == probe_model(parsed_locator(server@)),
{
    probe_step(parse_locator(server))
}

/// Concludes the probe from what the server answered.
pub fn height_reply(outcome: Result<u64, String>) -> (reply: String)
    ensures
        reply@ == height_reply_text(failure_view(outcome)),
{
    match outcome {
        Ok(height) => height_text(height),
        Err(reason) => error_reply(reason.as_str()),
    }
}

/// The exports that the installed client offers.
#[derive(Clone, Copy, Debug, PartialEq, Eq, Structural)]
pub enum ExportKind {
    TransactionSummaries,
    ValueTransfers,
}

/// The first step of an export.
#[derive(Debug, PartialEq, Eq)]
pub enum ExportStep<H> {
    /// No client is installed: hand this error text back to the host.
    Reply(String),
    /// Run the export of `kind` against `handle` to completion and hand its
    /// payload back to the host.
    Query { handle: Arc<H>, kind: ExportKind },
}

pub enum ExportStepView<H> {
    Reply(Seq<char>),
    Query { handle: Arc<H>, kind: ExportKind },
}

impl<H> View for ExportStep<H> {
    type V = ExportStepView<H>;

    open spec fn view(&self) -> ExportStepView<H> {
        match self {
            ExportStep::Reply(text) => ExportStepView::Reply(text@),
            ExportStep::Query { handle, kind } => ExportStepView::Query {
                handle: *handle,
                kind: *kind,
            },
        }
    }
}

/// The first step of an export of `kind` when the registry holds `current`.
pub open spec fn export_model<H>(current: Option<Arc<H>>, kind: ExportKind) -> ExportStepView<H> {
    match current {
        Some(handle) => ExportStepView::Query { handle, kind },
        None => ExportStepView::Reply(not_initialized_text()),
    }
}

/// Opens an export of `kind` from the installed client.
pub fn export<H>(registry: &Registry<H>, kind: ExportKind) -> (step: ExportStep<H>)
    ensures
        step@ == export_model(registry@, kind),
{
    match registry.current() {
        Some(handle) => ExportStep::Query { handle, kind },
        None => ExportStep::Reply(error_reply("Light Client is not initialized")),
    }
}

/// Opens the export of the transaction summaries.
pub fn export_transaction_summaries<H>(registry: &Registry<H>) -> (step: ExportStep<H>)
    ensures
        step@ == export_model(registry@, ExportKind::TransactionSummaries),
{
    export(registry, ExportKind::TransactionSummaries)
}

/// Opens the export of the value transfers.
pub fn export_value_transfers<H>(registry: &Registry<H>) -> (step: ExportStep<H>)
    ensures
        step@ == export_model(registry@, ExportKind::ValueTransfers),
{
    export(registry, ExportKind::ValueTransfers)
}

/// The existence check inspects the very configuration that an initialisation
/// for the same server and hint builds, whatever kind of client is asked for,
/// and answers `false` where the initialisation fails at once.
pub proof fn lemma_existence_inspects_what_init_configures<H>(
    server: Seq<char>,
    hint: Seq<char>,
    request: InitRequestView,
)
    ensures
        existence_begin(server, hint) is Inspect <==> is_known_hint(hint),
        existence_begin(server, hint) is Inspect ==> init_begin::<H>(server, hint, request).action
            == InitActionView::<H>::LoadConfig(existence_begin(server, hint)->Inspect_0),
        existence_begin(server, hint) is Answer ==> !existence_begin(server, hint)->Answer_0
            && init_begin::<H>(server, hint, request).session is Failed,
{
}

/// A probe's reply is an error text exactly when the server could not be
/// asked: a height never reads like an error.
pub proof fn lemma_height_reply_tells_outcome(outcome: Result<u64, Seq<char>>)
    ensures
        has_error_marker(height_reply_text(outcome)) <==> outcome is Err,
{
    if let Ok(height) = outcome {
        lemma_decimal_text_is_not_marked(height as nat);
    }
}

} // verus!
