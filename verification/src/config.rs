//! The configuration step that every initialisation and the wallet-existence
//! check begin with.
//!
//! The library decides what is to be configured and how a failure reads. The
//! embedding builds the configuration, which touches the disk, and reports
//! back how that went.

use crate::chain::{
    chain_of_hint, is_known_hint, resolve_chain_hint, unknown_hint_detail, ChainKind,
};
use crate::text::{error_reply, error_text, has_error_marker};
use crate::views::{option_view, result_view};
use vstd::prelude::*;
use vstd::string::*;

verus! {

/// What the embedding is asked to build a client configuration from.
#[derive(Debug, PartialEq, Eq)]
pub struct ConfigRequest {
    /// The server address, as the host gave it.
    pub server: String,
    /// The directory for the wallet and its caches, or `None` for the
    /// platform's default.
    pub data_dir: Option<String>,
    /// The chain that the hint resolved to.
    pub chain: ChainKind,
    /// Whether the client is to watch unconfirmed activity in the background.
    pub monitor: bool,
}

pub struct ConfigRequestView {
    pub server: Seq<char>,
    pub data_dir: Option<Seq<char>>,
    pub chain: ChainKind,
    pub monitor: bool,
}

impl View for ConfigRequest {
    type V = ConfigRequestView;

    open spec fn view(&self) -> ConfigRequestView {
        ConfigRequestView {
            server: self.server@,
            data_dir: option_view(self.data_dir),
            chain: self.chain,
            monitor: self.monitor,
        }
    }
}

/// How building a configuration failed.
#[derive(Debug, PartialEq, Eq)]
pub enum ConfigFailure {
    /// The server address could not be made into a network locator.
    MalformedLocator { reason: String },
    /// The configuration could not be loaded, or what was loaded is invalid.
    LoadFailed { reason: String },
}

pub enum ConfigFailureView {
    MalformedLocator { reason: Seq<char> },
    LoadFailed { reason: Seq<char> },
}

impl View for ConfigFailure {
    type V = ConfigFailureView;

    open spec fn view(&self) -> ConfigFailureView {
        match self {
            ConfigFailure::MalformedLocator { reason } => ConfigFailureView::MalformedLocator {
                reason: reason@,
            },
            ConfigFailure::LoadFailed { reason } => ConfigFailureView::LoadFailed {
                reason: reason@,
            },
        }
    }
}

/// The error reply for a hint that names no chain.
pub open spec fn unknown_hint_text() -> Seq<char> {
    error_text(unknown_hint_detail())
}

/// The error reply for a server address that is no network locator.
pub open spec fn malformed_locator_text(reason: Seq<char>) -> Seq<char> {
    error_text("Invalid server address: "@ + reason)
}

/// The error reply for a configuration that could not be loaded.
pub open spec fn load_failed_text(reason: Seq<char>) -> Seq<char> {
    error_text("Config load: "@ + reason)
}

/// The error reply for a failure to build the configuration.
pub open spec fn config_failure_text(failure: ConfigFailureView) -> Seq<char> {
    match failure {
        ConfigFailureView::MalformedLocator { reason } => malformed_locator_text(reason),
        ConfigFailureView::LoadFailed { reason } => load_failed_text(reason),
    }
}

/// The configuration to build for a server, a data directory, a hint and a
/// monitoring flag, or the error reply when the hint names no chain.
pub open spec fn config_request_model(
    server: Seq<char>,
    data_dir: Option<Seq<char>>,
    hint: Seq<char>,
    monitor: bool,
) -> Result<ConfigRequestView, Seq<char>> {
    match chain_of_hint(hint) {
        Some(chain) => Ok(ConfigRequestView { server, data_dir, chain, monitor }),
        None => Err(unknown_hint_text()),
    }
}

/// The error reply for an unrecognised chain hint.
pub fn unknown_hint_reply() -> (reply: String)
    ensures
        reply@ == unknown_hint_text(),
{
    error_reply("Not a valid chain hint!")
}

/// The error reply for a malformed server address.
pub fn malformed_locator_reply(reason: &str) -> (reply: String)
    ensures
        reply@ == malformed_locator_text(reason@),
{
    let detail = "Invalid server address: ".to_owned().concat(reason);
    error_reply(detail.as_str())
}

/// The error reply for a failure to build the configuration.
pub fn config_failure_reply(failure: &ConfigFailure) -> (reply: String)
    ensures
        reply@ == config_failure_text(failure@),
{
    match failure {
        ConfigFailure::MalformedLocator { reason } => malformed_locator_reply(reason.as_str()),
        ConfigFailure::LoadFailed { reason } => {
            let detail = "Config load: ".to_owned().concat(reason.as_str());
            error_reply(detail.as_str())
        },
    }
}

/// Resolves the hint and states what configuration is to be built. Fails with
/// the error reply for an unrecognised hint, and then asks for nothing to be
/// built.
pub fn config_request(
    server: &str,
    data_dir: Option<String>,
    hint: &str,
    monitor: bool,
) -> (request: Result<ConfigRequest, String>)
    ensures
        result_view(request) == config_request_model(
            server@,
            option_view(data_dir),
            hint@,
            monitor,
        ),
        request is Err <==> !is_known_hint(hint@),
{
    match resolve_chain_hint(hint) {
        Ok(chain) => Ok(ConfigRequest { server: server.to_owned(), data_dir, chain, monitor }),
        Err(_) => Err(unknown_hint_reply()),
    }
}

/// Whatever went wrong with the configuration, the reply carries the error
/// marker.
pub proof fn lemma_config_failure_text_is_marked(failure: ConfigFailureView)
    ensures
        has_error_marker(config_failure_text(failure)),
        has_error_marker(unknown_hint_text()),
{
}

/// A malformed locator and a failed load never read the same.
pub proof fn lemma_config_failures_read_differently(
    locator_reason: Seq<char>,
    load_reason: Seq<char>,
)
    ensures
        malformed_locator_text(locator_reason) != load_failed_text(load_reason),
{
    reveal_strlit("Error: ");
    reveal_strlit("Invalid server address: ");
    reveal_strlit("Config load: ");
    let left = malformed_locator_text(locator_reason);
    let right = load_failed_text(load_reason);
    assert(left[7] == 'I');
    assert(right[7] == 'C');
}

} // verus!
