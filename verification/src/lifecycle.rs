//! The lifecycle of the client handle: the four ways to initialise a client
//! and the teardown.
//!
//! An initialisation alternates between decisions, which are made here, and
//! work that only the embedding can do: building the configuration, asking
//! the server for its height, constructing the client, starting the
//! background monitor. It is therefore a session. Each operation opens one
//! and names the first piece of work, and each report of finished work moves
//! the session on and names the next. The registry is written in one
//! transition only, the last one of a session in which every step succeeded.

use crate::chain::is_known_hint;
use crate::config::{
    config_failure_reply, config_failure_text, config_request, config_request_model,
    unknown_hint_text, ConfigFailure, ConfigFailureView, ConfigRequest, ConfigRequestView,
};
use crate::registry::{share, Registry};
use crate::text::{
    error_reply, error_text, has_error_marker, lemma_ok_text_is_not_marked, ok_reply, ok_text,
};
use crate::views::failure_view;
use std::sync::Arc;
use vstd::prelude::*;

verus! {

/// The number of blocks that a fresh wallet starts behind the observed tip, to
/// tolerate reorganisations and latency at the tip.
pub const TIP_SAFETY_MARGIN: u64 = 100;

/// The height `margin` blocks below `latest`, or zero where the chain is not
/// that high.
pub open spec fn start_height_model(latest: u64, margin: u64) -> u64 {
    if latest >= margin {
        (latest - margin) as u64
    } else {
        0
    }
}

/// The height from which a wallet created at tip `latest` begins to scan, for
/// a given safety margin.
pub fn start_height(latest: u64, margin: u64) -> (start: u64)
    ensures
        start == start_height_model(latest, margin),
{
    if latest >= margin {
        latest - margin
    } else {
        0
    }
}

/// The height from which a wallet created at tip `latest` begins to scan, with
/// the standard margin.
pub fn fresh_start_height(latest: u64) -> (start: u64)
    ensures
        start == start_height_model(latest, TIP_SAFETY_MARGIN),
{
    start_height(latest, TIP_SAFETY_MARGIN)
}

/// What kind of client an initialisation is to end with.
#[derive(Debug, PartialEq, Eq)]
pub enum InitRequest {
    /// A wallet with fresh keys, starting near the current tip.
    Fresh,
    /// A wallet restored from a recovery phrase.
    RecoveryPhrase { phrase: String, birth_height: u64 },
    /// A read-only wallet restored from a viewing key.
    ViewingKey { key: String, birth_height: u64 },
    /// The wallet that the configured storage location holds.
    Storage,
}

pub enum InitRequestView {
    Fresh,
    RecoveryPhrase { phrase: Seq<char>, birth_height: u64 },
    ViewingKey { key: Seq<char>, birth_height: u64 },
    Storage,
}

impl View for InitRequest {
    type V = InitRequestView;

    open spec fn view(&self) -> InitRequestView {
        match self {
            InitRequest::Fresh => InitRequestView::Fresh,
            InitRequest::RecoveryPhrase {
                phrase,
                birth_height,
            } => InitRequestView::RecoveryPhrase { phrase: phrase@, birth_height: *birth_height },
            InitRequest::ViewingKey { key, birth_height } => InitRequestView::ViewingKey {
                key: key@,
                birth_height: *birth_height,
            },
            InitRequest::Storage => InitRequestView::Storage,
        }
    }
}

/// How the embedding is to construct the client.
#[derive(Debug, PartialEq, Eq)]
pub enum ClientRecipe {
    /// Generate fresh keys. `observed_height` is the server's tip and
    /// `start_height` the height to scan from.
    Fresh { observed_height: u64, start_height: u64 },
    /// Restore from a recovery phrase.
    RecoveryPhrase { phrase: String, birth_height: u64, overwrite: bool },
    /// Restore from a viewing key.
    ViewingKey { key: String, birth_height: u64, overwrite: bool },
    /// Load what storage holds.
    Storage,
}

pub enum ClientRecipeView {
    Fresh { observed_height: u64, start_height: u64 },
    RecoveryPhrase { phrase: Seq<char>, birth_height: u64, overwrite: bool },
    ViewingKey { key: Seq<char>, birth_height: u64, overwrite: bool },
    Storage,
}

impl View for ClientRecipe {
    type V = ClientRecipeView;

    open spec fn view(&self) -> ClientRecipeView {
        match self {
            ClientRecipe::Fresh { observed_height, start_height } => ClientRecipeView::Fresh {
                observed_height: *observed_height,
                start_height: *start_height,
            },
            ClientRecipe::RecoveryPhrase {
                phrase,
                birth_height,
                overwrite,
            } => ClientRecipeView::RecoveryPhrase {
                phrase: phrase@,
                birth_height: *birth_height,
                overwrite: *overwrite,
            },
            ClientRecipe::ViewingKey {
                key,
                birth_height,
                overwrite,
            } => ClientRecipeView::ViewingKey {
                key: key@,
                birth_height: *birth_height,
                overwrite: *overwrite,
            },
            ClientRecipe::Storage => ClientRecipeView::Storage,
        }
    }
}

/// What the embedding is to do next.
#[derive(Debug, PartialEq, Eq)]
pub enum InitAction<H> {
    /// Build the client configuration, then report with `config_loaded`.
    LoadConfig(ConfigRequest),
    /// Ask the server for its latest height, then report with `height_probed`.
    ProbeHeight,
    /// Construct the client, then report with `client_built`.
    BuildClient(ClientRecipe),
    /// Start the background monitor on this reference, which is the
    /// monitor's own, then report with `monitor_started`.
    StartMonitor(Arc<H>),
    /// The initialisation is over: hand this text back to the host.
    Reply(String),
    /// The report did not fit the session's state and was ignored.
    Nothing,
}

pub enum InitActionView<H> {
    LoadConfig(ConfigRequestView),
    ProbeHeight,
    BuildClient(ClientRecipeView),
    StartMonitor(Arc<H>),
    Reply(Seq<char>),
    Nothing,
}

impl<H> View for InitAction<H> {
    type V = InitActionView<H>;

    open spec fn view(&self) -> InitActionView<H> {
        match self {
            InitAction::LoadConfig(request) => InitActionView::LoadConfig(request@),
            InitAction::ProbeHeight => InitActionView::ProbeHeight,
            InitAction::BuildClient(recipe) => InitActionView::BuildClient(recipe@),
            InitAction::StartMonitor(handle) => InitActionView::StartMonitor(*handle),
            InitAction::Reply(text) => InitActionView::Reply(text@),
            InitAction::Nothing => InitActionView::Nothing,
        }
    }
}

/// One initialisation in progress.
#[derive(Debug, PartialEq, Eq)]
pub enum InitSession<H> {
    /// The configuration is being built.
    AwaitingConfig { request: InitRequest },
    /// The server is being asked for its height.
    AwaitingHeight,
    /// The client is being constructed.
    AwaitingClient,
    /// The client stands and its monitor is being started.
    AwaitingMonitor { handle: Arc<H> },
    /// Over: the client was installed.
    Installed,
    /// Over: a step failed and the registry was left alone.
    Failed,
}

pub enum InitSessionView<H> {
    AwaitingConfig { request: InitRequestView },
    AwaitingHeight,
    AwaitingClient,
    AwaitingMonitor { handle: Arc<H> },
    Installed,
    Failed,
}

impl<H> View for InitSession<H> {
    type V = InitSessionView<H>;

    open spec fn view(&self) -> InitSessionView<H> {
        match self {
            InitSession::AwaitingConfig { request } => InitSessionView::AwaitingConfig {
                request: request@,
            },
            InitSession::AwaitingHeight => InitSessionView::AwaitingHeight,
            InitSession::AwaitingClient => InitSessionView::AwaitingClient,
            InitSession::AwaitingMonitor { handle } => InitSessionView::AwaitingMonitor {
                handle: *handle,
            },
            InitSession::Installed => InitSessionView::Installed,
            InitSession::Failed => InitSessionView::Failed,
        }
    }
}

/// A session together with the action that its last transition asks for.
#[derive(Debug, PartialEq, Eq)]
pub struct InitStep<H> {
    pub session: InitSession<H>,
    pub action: InitAction<H>,
}

pub struct InitStepView<H> {
    pub session: InitSessionView<H>,
    pub action: InitActionView<H>,
}

impl<H> View for InitStep<H> {
    type V = InitStepView<H>;

    open spec fn view(&self) -> InitStepView<H> {
        InitStepView { session: self.session@, action: self.action@ }
    }
}

/// The step that ignores a report.
pub open spec fn ignored<H>(session: InitSessionView<H>) -> InitStepView<H> {
    InitStepView { session, action: InitActionView::Nothing }
}

/// The step that ends the session in failure with `reply`.
pub open spec fn failed_with<H>(reply: Seq<char>) -> InitStepView<H> {
    InitStepView { session: InitSessionView::Failed, action: InitActionView::Reply(reply) }
}

/// The step that asks for a client to be constructed after `recipe`.
pub open spec fn building<H>(recipe: ClientRecipeView) -> InitStepView<H> {
    InitStepView {
        session: InitSessionView::AwaitingClient,
        action: InitActionView::BuildClient(recipe),
    }
}

/// The recipe for a fresh wallet created while the server's tip is `latest`.
pub open spec fn fresh_recipe(latest: u64) -> ClientRecipeView {
    ClientRecipeView::Fresh {
        observed_height: latest,
        start_height: start_height_model(latest, TIP_SAFETY_MARGIN),
    }
}

/// How an initialisation opens: with the configuration to build, or failed at
/// once on a hint that names no chain. The client is configured in the
/// platform's default directory and to monitor unconfirmed activity.
pub open spec fn init_begin<H>(
    server: Seq<char>,
    hint: Seq<char>,
    request: InitRequestView,
) -> InitStepView<H> {
    match config_request_model(server, None, hint, true) {
        Ok(config) => InitStepView {
            session: InitSessionView::AwaitingConfig { request },
            action: InitActionView::LoadConfig(config),
        },
        Err(reply) => failed_with(reply),
    }
}

/// The step once the configuration stands. A fresh wallet needs the server's
/// height first; every other client can be constructed at once. A restore
/// never overwrites a wallet that storage already holds.
pub open spec fn configured<H>(request: InitRequestView) -> InitStepView<H> {
    match request {
        InitRequestView::Fresh => InitStepView {
            session: InitSessionView::AwaitingHeight,
            action: InitActionView::ProbeHeight,
        },
        InitRequestView::RecoveryPhrase { phrase, birth_height } => building(
            ClientRecipeView::RecoveryPhrase { phrase, birth_height, overwrite: false },
        ),
        InitRequestView::ViewingKey { key, birth_height } => building(
            ClientRecipeView::ViewingKey { key, birth_height, overwrite: false },
        ),
        InitRequestView::Storage => building(ClientRecipeView::Storage),
    }
}

/// A report from the embedding.
pub enum InitEvent<H> {
    /// The configuration was built, or not.
    ConfigLoaded(Result<(), ConfigFailureView>),
    /// The server told its latest height, or could not be asked.
    HeightProbed(Result<u64, Seq<char>>),
    /// The client was constructed and wrapped in a shared reference, or the
    /// engine refused.
    ClientBuilt(Result<Arc<H>, Seq<char>>),
    /// The background monitor runs.
    MonitorStarted,
}

/// The step that a report causes. A report that the session does not await
/// is ignored.
pub open spec fn init_step<H>(session: InitSessionView<H>, event: InitEvent<H>) -> InitStepView<H> {
    match (session, event) {
        (InitSessionView::AwaitingConfig { request }, InitEvent::ConfigLoaded(Ok(_))) => configured(
            request,
        ),
        (
            InitSessionView::AwaitingConfig { .. },
            InitEvent::ConfigLoaded(Err(failure)),
        ) => failed_with(config_failure_text(failure)),
        (InitSessionView::AwaitingHeight, InitEvent::HeightProbed(Ok(latest))) => building(
            fresh_recipe(latest),
        ),
        (InitSessionView::AwaitingHeight, InitEvent::HeightProbed(Err(reason))) => failed_with(
            error_text(reason),
        ),
        (InitSessionView::AwaitingClient, InitEvent::ClientBuilt(Ok(handle))) => InitStepView {
            session: InitSessionView::AwaitingMonitor { handle },
            action: InitActionView::StartMonitor(handle),
        },
        (InitSessionView::AwaitingClient, InitEvent::ClientBuilt(Err(reason))) => failed_with(
            error_text(reason),
        ),
        (InitSessionView::AwaitingMonitor { .. }, InitEvent::MonitorStarted) => InitStepView {
            session: InitSessionView::Installed,
            action: InitActionView::Reply(ok_text()),
        },
        _ => ignored(session),
    }
}

/// Whether a report makes a session install its client.
pub open spec fn installs<H>(session: InitSessionView<H>, event: InitEvent<H>) -> bool {
    session is AwaitingMonitor && event is MonitorStarted
}

/// The slot after a report: it takes the client of a session whose monitor
/// has started and is otherwise left as it was.
pub open spec fn slot_after_event<H>(
    session: InitSessionView<H>,
    slot: Option<Arc<H>>,
    event: InitEvent<H>,
) -> Option<Arc<H>> {
    match (session, event) {
        (InitSessionView::AwaitingMonitor { handle }, InitEvent::MonitorStarted) => Some(handle),
        _ => slot,
    }
}

/// A session and the registry slot beside it.
pub struct InitWorld<H> {
    pub session: InitSessionView<H>,
    pub slot: Option<Arc<H>>,
}

/// The session and the slot after a sequence of reports.
pub open spec fn init_run<H>(world: InitWorld<H>, events: Seq<InitEvent<H>>) -> InitWorld<H>
    decreases events.len(),
{
    if events.len() == 0 {
        world
    } else {
        let before = init_run(world, events.drop_last());
        InitWorld {
            session: init_step(before.session, events.last()).session,
            slot: slot_after_event(before.session, before.slot, events.last()),
        }
    }
}

fn build<H>(recipe: ClientRecipe) -> (step: InitStep<H>)
    ensures
        step@ == building::<H>(recipe@),
{
    InitStep { session: InitSession::AwaitingClient, action: InitAction::BuildClient(recipe) }
}

fn fail<H>(reply: String) -> (step: InitStep<H>)
    ensures
        step@ == failed_with::<H>(reply@),
{
    InitStep { session: InitSession::Failed, action: InitAction::Reply(reply) }
}

fn ignore<H>(session: InitSession<H>) -> (step: InitStep<H>)
    ensures
        step@ == ignored(session@),
{
    InitStep { session, action: InitAction::Nothing }
}

fn proceed<H>(request: InitRequest) -> (step: InitStep<H>)
    ensures
        step@ == configured::<H>(request@),
{
    match request {
        InitRequest::Fresh => InitStep {
            session: InitSession::AwaitingHeight,
            action: InitAction::ProbeHeight,
        },
        InitRequest::RecoveryPhrase { phrase, birth_height } => build(
            ClientRecipe::RecoveryPhrase { phrase, birth_height, overwrite: false },
        ),
        InitRequest::ViewingKey { key, birth_height } => build(
            ClientRecipe::ViewingKey { key, birth_height, overwrite: false },
        ),
        InitRequest::Storage => build(ClientRecipe::Storage),
    }
}

impl<H> InitSession<H> {
    /// Opens an initialisation for `request` against `server` on the chain
    /// that `hint` names.
    pub fn begin(server: &str, hint: &str, request: InitRequest) -> (step: InitStep<H>)
        ensures
            step@ == init_begin::<H>(server@, hint@, request@),
            step.session is Failed <==> !is_known_hint(hint@),
    {
        match config_request(server, None, hint, true) {
            Ok(config) => InitStep {
                session: InitSession::AwaitingConfig { request },
                action: InitAction::LoadConfig(config),
            },
            Err(reply) => fail(reply),
        }
    }

    /// Whether the session is over, in success or in failure.
    pub fn is_finished(&self) -> (finished: bool)
        ensures
            finished == (self@ is Installed || self@ is Failed),
    {
        match self {
            InitSession::Installed => true,
            InitSession::Failed => true,
            _ => false,
        }
    }

    /// Takes the embedding's report on the configuration.
    pub fn config_loaded(self, outcome: Result<(), ConfigFailure>) -> (step: InitStep<H>)
        ensures
            step@ == init_step(self@, InitEvent::ConfigLoaded(failure_view(outcome))),
    {
        match self {
            InitSession::AwaitingConfig { request } => match outcome {
                Ok(_) => proceed(request),
                Err(failure) => fail(config_failure_reply(&failure)),
            },
            other => ignore(other),
        }
    }

    /// Takes the embedding's report on the server's latest height.
    pub fn height_probed(self, outcome: Result<u64, String>) -> (step: InitStep<H>)
        ensures
            step@ == init_step(self@, InitEvent::HeightProbed(failure_view(outcome))),
    {
        match self {
            InitSession::AwaitingHeight => match outcome {
                Ok(latest) => build(
                    ClientRecipe::Fresh {
                        observed_height: latest,
                        start_height: fresh_start_height(latest),
                    },
                ),
                Err(reason) => fail(error_reply(reason.as_str())),
            },
            other => ignore(other),
        }
    }

    /// Takes the embedding's report on the construction of the client. The
    /// session keeps a client that was built and hands out a reference of
    /// its own for the monitor.
    pub fn client_built(self, outcome: Result<Arc<H>, String>) -> (step: InitStep<H>)
        ensures
            step@ == init_step(self@, InitEvent::ClientBuilt(failure_view(outcome))),
    {
        match self {
            InitSession::AwaitingClient => match outcome {
                Ok(handle) => {
                    let for_monitor = share(&handle);
                    InitStep {
                        session: InitSession::AwaitingMonitor { handle },
                        action: InitAction::StartMonitor(for_monitor),
                    }
                },
                Err(reason) => fail(error_reply(reason.as_str())),
            },
            other => ignore(other),
        }
    }

    /// Takes the embedding's report that the monitor runs, and installs the
    /// session's client in `registry`, replacing what was there. A session
    /// that does not await its monitor ignores the report and leaves the
    /// registry exactly as it was.
    pub fn monitor_started(self, registry: &mut Registry<H>) -> (step: InitStep<H>)
        ensures
            step@ == init_step(self@, InitEvent::MonitorStarted),
            final(registry)@ == slot_after_event(self@, old(registry)@, InitEvent::MonitorStarted),
    {
        match self {
            InitSession::AwaitingMonitor { handle } => {
                registry.install(handle);
                InitStep { session: InitSession::Installed, action: InitAction::Reply(ok_reply()) }
            },
            other => ignore(other),
        }
    }
}

/// Opens the initialisation of a fresh wallet.
pub fn init_new<H>(server: &str, hint: &str) -> (step: InitStep<H>)
    ensures
        step@ == init_begin::<H>(server@, hint@, InitRequestView::Fresh),
        step.session is Failed <==> !is_known_hint(hint@),
{
    InitSession::begin(server, hint, InitRequest::Fresh)
}

/// Opens the restoration of a wallet from a recovery phrase.
pub fn init_from_recovery_phrase<H>(
    server: &str,
    phrase: &str,
    birth_height: u64,
    hint: &str,
) -> (step: InitStep<H>)
    ensures
        step@ == init_begin::<H>(
            server@,
            hint@,
            InitRequestView::RecoveryPhrase { phrase: phrase@, birth_height },
        ),
        step.session is Failed <==> !is_known_hint(hint@),
{
    InitSession::begin(
        server,
        hint,
        InitRequest::RecoveryPhrase { phrase: phrase.to_owned(), birth_height },
    )
}

/// Opens the restoration of a read-only wallet from a viewing key.
pub fn init_from_viewing_key<H>(server: &str, key: &str, birth_height: u64, hint: &str) -> (step:
    InitStep<H>)
    ensures
        step@ == init_begin::<H>(
            server@,
            hint@,
            InitRequestView::ViewingKey { key: key@, birth_height },
        ),
        step.session is Failed <==> !is_known_hint(hint@),
{
    InitSession::begin(server, hint, InitRequest::ViewingKey { key: key.to_owned(), birth_height })
}

/// Opens the loading of the wallet that storage holds.
pub fn init_from_storage<H>(server: &str, hint: &str) -> (step: InitStep<H>)
    ensures
        step@ == init_begin::<H>(server@, hint@, InitRequestView::Storage),
        step.session is Failed <==> !is_known_hint(hint@),
{
    InitSession::begin(server, hint, InitRequest::Storage)
}

/// Tears the client down: empties the registry, whatever it held, and
/// acknowledges. Handles cloned out earlier stay valid for their holders.
pub fn deinitialize<H>(registry: &mut Registry<H>) -> (reply: String)
    ensures
        final(registry)@ is None,
        reply@ == ok_text(),
{
    registry.clear();
    ok_reply()
}

/// A session that is over stays as it is, whatever is reported to it, and the
/// slot beside it is not written.
pub proof fn lemma_finished_session_absorbs<H>(world: InitWorld<H>, events: Seq<InitEvent<H>>)
    requires
        world.session is Installed || world.session is Failed,
    ensures
        init_run(world, events) == world,
    decreases events.len(),
{
    if events.len() > 0 {
        lemma_finished_session_absorbs(world, events.drop_last());
    }
}

/// An initialisation that does not end in `Installed` leaves the registry
/// exactly as it found it: a failed or unfinished initialisation never
/// disturbs a handle installed before.
pub proof fn lemma_failed_init_keeps_registry<H>(world: InitWorld<H>, events: Seq<InitEvent<H>>)
    requires
        !(world.session is Installed),
    ensures
        !(init_run(world, events).session is Installed) ==> init_run(world, events).slot
            == world.slot,
    decreases events.len(),
{
    if events.len() > 0 {
        let before = init_run(world, events.drop_last());
        lemma_failed_init_keeps_registry(world, events.drop_last());
        if before.session is Installed {
            lemma_finished_session_absorbs(before, seq![events.last()]);
            assert(seq![events.last()].drop_last() =~= Seq::<InitEvent<H>>::empty());
        }
    }
}

/// For a hint that names no chain the initialisation fails at once with an
/// error reply, asks for no work, and no later report changes the registry.
pub proof fn lemma_unknown_hint_changes_nothing<H>(
    server: Seq<char>,
    hint: Seq<char>,
    request: InitRequestView,
    slot: Option<Arc<H>>,
    events: Seq<InitEvent<H>>,
)
    requires
        !is_known_hint(hint),
    ensures
        init_begin::<H>(server, hint, request) == failed_with::<H>(unknown_hint_text()),
        has_error_marker(unknown_hint_text()),
        init_run(InitWorld { session: init_begin(server, hint, request).session, slot }, events)
            == (InitWorld { session: InitSessionView::Failed, slot }),
{
    lemma_finished_session_absorbs(InitWorld { session: InitSessionView::Failed, slot }, events);
}

/// Running one more report is one more step.
pub proof fn lemma_run_then_step<H>(
    world: InitWorld<H>,
    events: Seq<InitEvent<H>>,
    event: InitEvent<H>,
)
    ensures
        init_run(world, events.push(event)) == (InitWorld {
            session: init_step(init_run(world, events).session, event).session,
            slot: slot_after_event(
                init_run(world, events).session,
                init_run(world, events).slot,
                event,
            ),
        }),
{
    assert(events.push(event).drop_last() =~= events);
}

/// The reports of an initialisation in which every piece of work succeeds:
/// the server is asked for its height only on behalf of a fresh wallet.
pub open spec fn successful_reports<H>(
    request: InitRequestView,
    latest: u64,
    client: Arc<H>,
) -> Seq<InitEvent<H>> {
    if request is Fresh {
        seq![
            InitEvent::ConfigLoaded(Ok(())),
            InitEvent::HeightProbed(Ok(latest)),
            InitEvent::ClientBuilt(Ok(client)),
            InitEvent::MonitorStarted,
        ]
    } else {
        seq![
            InitEvent::ConfigLoaded(Ok(())),
            InitEvent::ClientBuilt(Ok(client)),
            InitEvent::MonitorStarted,
        ]
    }
}

/// An initialisation for a hint that names a chain, in which every piece of
/// work succeeds, ends with the client installed, whatever the registry held
/// before and whatever kind of client was asked for.
pub proof fn lemma_successful_init_installs<H>(
    server: Seq<char>,
    hint: Seq<char>,
    request: InitRequestView,
    slot: Option<Arc<H>>,
    latest: u64,
    client: Arc<H>,
)
    requires
        is_known_hint(hint),
    ensures
        init_run(
            InitWorld { session: init_begin::<H>(server, hint, request).session, slot },
            successful_reports(request, latest, client),
        ) == (InitWorld { session: InitSessionView::Installed, slot: Some(client) }),
{
    let opened = InitWorld { session: init_begin::<H>(server, hint, request).session, slot };
    let none = Seq::<InitEvent<H>>::empty();
    let config = InitEvent::<H>::ConfigLoaded(Ok(()));
    let height = InitEvent::<H>::HeightProbed(Ok(latest));
    let built = InitEvent::ClientBuilt(Ok(client));
    let monitor = InitEvent::<H>::MonitorStarted;
    lemma_run_then_step(opened, none, config);
    if request is Fresh {
        lemma_run_then_step(opened, none.push(config), height);
        lemma_run_then_step(opened, none.push(config).push(height), built);
        lemma_run_then_step(opened, none.push(config).push(height).push(built), monitor);
        assert(successful_reports(request, latest, client) =~= none.push(config).push(height).push(
            built,
        ).push(monitor));
    } else {
        lemma_run_then_step(opened, none.push(config), built);
        lemma_run_then_step(opened, none.push(config).push(built), monitor);
        assert(successful_reports(request, latest, client) =~= none.push(config).push(built).push(
            monitor,
        ));
    }
}

/// A step replies `OK` exactly when it installs a client, and every other
/// reply carries the error marker and ends the session in failure. The slot
/// changes in the installing step only, and then to the client that the
/// session was keeping.
pub proof fn lemma_reply_tells_outcome<H>(
    session: InitSessionView<H>,
    slot: Option<Arc<H>>,
    event: InitEvent<H>,
)
    ensures
        init_step(session, event).action == InitActionView::<H>::Reply(ok_text()) <==> installs(
            session,
            event,
        ),
        installs(session, event) ==> init_step(session, event).session is Installed
            && slot_after_event(session, slot, event) == Some(session->handle),
        !installs(session, event) ==> slot_after_event(session, slot, event) == slot && init_step(
            session,
            event,
        ).session is Installed == session is Installed,
        !installs(session, event) && init_step(session, event).action is Reply
            ==> has_error_marker(init_step(session, event).action->Reply_0) && init_step(
            session,
            event,
        ).session is Failed,
{
    lemma_ok_text_is_not_marked();
}

/// The client that a session installs is the one that was built for it: the
/// monitor is started on that client, and that client is what the registry
/// holds once the monitor runs.
pub proof fn lemma_installed_client_is_the_built_one<H>(slot: Option<Arc<H>>, built: Arc<H>)
    ensures
        ({
            let kept = init_step(
                InitSessionView::AwaitingClient,
                InitEvent::ClientBuilt(Ok(built)),
            );
            &&& kept.action == InitActionView::StartMonitor(built)
            &&& slot_after_event(
                InitSessionView::AwaitingClient,
                slot,
                InitEvent::ClientBuilt(Ok(built)),
            ) == slot
            &&& init_step(kept.session, InitEvent::MonitorStarted).action == InitActionView::<
                H,
            >::Reply(ok_text())
            &&& slot_after_event(kept.session, slot, InitEvent::MonitorStarted) == Some(built)
        }),
{
}

} // verus!
