//! The interactive configuration flow as a transition function.
//!
//! The flow asks for a token, lists the databases the token gives access
//! to, lets the user pick one by number, and has the resulting record
//! stored. It neither reads nor sends anything itself: [`step`] takes the
//! state the flow is in and what just happened, and returns the next state
//! and what is to be done next. The driver does it and comes back with the
//! outcome. A flow that was interrupted starts over from [`start`].

use crate::config::{ConfigModel, NotionConfig};
use crate::directory::{
    list_databases_outcome, list_databases_request, listed, listed_databases, listing_body,
    listing_or_error, listing_request, render_listing,
};
use crate::error::{ErrorModel, NotionError};
use crate::http::{answer_model, HttpRequest, HttpResponse, RequestModel, ResponseModel};
use crate::schema::{
    title_field_key, DatabaseListModel, DatabaseModel, NotionDatabase, NotionDatabaseList,
};
use crate::text::{decimal_index, parse_index, trim, trimmed};
use vstd::prelude::*;

verus! {

/// Where the flow stands: what it is waiting for, and what it has so far.
#[derive(Debug)]
pub enum FlowState {
    /// Waiting for the line that holds the token.
    AwaitToken,
    /// The listing request is out; waiting for its answer.
    AwaitListing { token: String },
    /// The body of a successful answer is being decoded.
    AwaitDecoding { token: String },
    /// The listing is shown; waiting for the line that holds a number.
    AwaitSelection { token: String, databases: Vec<NotionDatabase> },
    /// The record is with the store; waiting to hear that it is kept.
    AwaitStore { config: NotionConfig },
    /// The record is stored and is the configuration from now on.
    Done { config: NotionConfig },
    /// The flow has stopped; nothing was stored.
    Failed { error: NotionError },
}

/// What the driver reports back.
#[derive(Debug)]
pub enum FlowEvent {
    /// A line read from the terminal, without its line end.
    Line(String),
    /// The answer to the request that was sent, or the transport's cause
    /// for there being none.
    Answer(Result<HttpResponse, String>),
    /// The decoded listing, or `None` where the body did not decode.
    Decoded(Option<NotionDatabaseList>),
    /// Whether the store kept the record; the cause where it did not.
    Stored(Result<(), String>),
}

/// What the driver is to do next.
#[derive(Debug)]
pub enum FlowAction {
    /// Prompt for the token, offering `initial` for editing, and report the
    /// line.
    AskToken { initial: String },
    /// Send the request and report the answer.
    Send(HttpRequest),
    /// Decode the text as a listing of databases and report the result.
    Decode(String),
    /// Show these lines, prompt for a number, and report the line.
    Choose(Vec<String>),
    /// Say that the entry was no good, prompt again, and report the line.
    Retry,
    /// Store the record and report whether it is kept.
    Store(NotionConfig),
    /// Nothing more to do: the state holds the new configuration.
    Finish,
    /// Nothing more to do: the state holds the error.
    Fail,
    /// The event was not the one waited for; it changes nothing.
    Ignore,
}

/// Model of a [`FlowState`].
pub enum FlowStateModel {
    AwaitToken,
    AwaitListing { token: Seq<char> },
    AwaitDecoding { token: Seq<char> },
    AwaitSelection { token: Seq<char>, databases: Seq<DatabaseModel> },
    AwaitStore { config: ConfigModel },
    Done { config: ConfigModel },
    Failed { error: ErrorModel },
}

/// Model of a [`FlowEvent`].
pub enum FlowEventModel {
    Line(Seq<char>),
    Answer(Result<ResponseModel, Seq<char>>),
    Decoded(Option<DatabaseListModel>),
    Stored(Result<(), Seq<char>>),
}

/// Model of a [`FlowAction`].
pub enum FlowActionModel {
    AskToken { initial: Seq<char> },
    Send(RequestModel),
    Decode(Seq<char>),
    Choose(Seq<Seq<char>>),
    Retry,
    Store(ConfigModel),
    Finish,
    Fail,
    Ignore,
}

impl View for FlowState {
    type V = FlowStateModel;

    open spec fn view(&self) -> FlowStateModel {
        match self {
            FlowState::AwaitToken => FlowStateModel::AwaitToken,
            FlowState::AwaitListing { token } => FlowStateModel::AwaitListing { token: token@ },
            FlowState::AwaitDecoding { token } => FlowStateModel::AwaitDecoding { token: token@ },
            FlowState::AwaitSelection { token, databases } => FlowStateModel::AwaitSelection {
                token: token@,
                databases: databases.deep_view(),
            },
            FlowState::AwaitStore { config } => FlowStateModel::AwaitStore { config: config@ },
            FlowState::Done { config } => FlowStateModel::Done { config: config@ },
            FlowState::Failed { error } => FlowStateModel::Failed { error: error@ },
        }
    }
}

impl View for FlowEvent {
    type V = FlowEventModel;

    open spec fn view(&self) -> FlowEventModel {
        match self {
            FlowEvent::Line(line) => FlowEventModel::Line(line@),
            FlowEvent::Answer(answer) => FlowEventModel::Answer(answer_model(*answer)),
            FlowEvent::Decoded(decoded) => FlowEventModel::Decoded(decoded.deep_view()),
            FlowEvent::Stored(stored) => FlowEventModel::Stored(
                match stored {
                    Ok(()) => Ok(()),
                    Err(cause) => Err(cause@),
                },
            ),
        }
    }
}

impl View for FlowAction {
    type V = FlowActionModel;

    open spec fn view(&self) -> FlowActionModel {
        match self {
            FlowAction::AskToken { initial } => FlowActionModel::AskToken { initial: initial@ },
            FlowAction::Send(request) => FlowActionModel::Send(request@),
            FlowAction::Decode(body) => FlowActionModel::Decode(body@),
            FlowAction::Choose(lines) => FlowActionModel::Choose(lines.deep_view()),
            FlowAction::Retry => FlowActionModel::Retry,
            FlowAction::Store(config) => FlowActionModel::Store(config@),
            FlowAction::Finish => FlowActionModel::Finish,
            FlowAction::Fail => FlowActionModel::Fail,
            FlowAction::Ignore => FlowActionModel::Ignore,
        }
    }
}

/// The entry that a line selects among `count` offers: the line without
/// the white space around it must write an index below `count`.
pub open spec fn selection(line: Seq<char>, count: nat) -> Option<usize> {
    match decimal_index(trimmed(line)) {
        Some(index) => if index < count {
            Some(index)
        } else {
            None
        },
        None => None,
    }
}

/// The record that choosing `database` with `token` gives.
pub open spec fn chosen_config(token: Seq<char>, database: DatabaseModel) -> ConfigModel {
    ConfigModel {
        access_secret: token,
        database_id: database.id,
        title_property: title_field_key(database.properties),
    }
}

/// The flow stops with `error`.
pub open spec fn fail_with(error: ErrorModel) -> (FlowStateModel, FlowActionModel) {
    (FlowStateModel::Failed { error }, FlowActionModel::Fail)
}

/// The state after an event, and the action it calls for.
///
/// - The token is the line without the white space around it. Any token,
///   the empty one too, goes out with the listing request.
/// - Any failure of the listing ends the flow: no answer, a status outside
///   the success range, a body that does not decode, a database without a
///   title to show.
/// - A line that selects no entry leaves the state as it is and asks
///   again, any number of times.
/// - The selected entry must give a complete record; one with an empty
///   field is never handed to the store, and the schema is reported as
///   malformed.
/// - A store that fails ends the flow with its cause.
/// - An event that the state does not wait for changes nothing.
pub open spec fn step_model(state: FlowStateModel, event: FlowEventModel) -> (
    FlowStateModel,
    FlowActionModel,
) {
    match state {
        FlowStateModel::AwaitToken => match event {
            FlowEventModel::Line(line) => (
                FlowStateModel::AwaitListing { token: trimmed(line) },
                FlowActionModel::Send(listing_request(trimmed(line))),
            ),
            _ => (state, FlowActionModel::Ignore),
        },
        FlowStateModel::AwaitListing { token } => match event {
            FlowEventModel::Answer(answer) => match listing_body(answer) {
                Ok(body) => (FlowStateModel::AwaitDecoding { token }, FlowActionModel::Decode(body)),
                Err(error) => fail_with(error),
            },
            _ => (state, FlowActionModel::Ignore),
        },
        FlowStateModel::AwaitDecoding { token } => match event {
            FlowEventModel::Decoded(decoded) => match listed(decoded) {
                Ok(databases) => match listing_or_error(databases) {
                    Ok(lines) => (
                        FlowStateModel::AwaitSelection { token, databases },
                        FlowActionModel::Choose(lines),
                    ),
                    Err(error) => fail_with(error),
                },
                Err(error) => fail_with(error),
            },
            _ => (state, FlowActionModel::Ignore),
        },
        FlowStateModel::AwaitSelection { token, databases } => match event {
            FlowEventModel::Line(line) => match selection(line, databases.len()) {
                Some(index) => {
                    let config = chosen_config(token, databases[index as int]);
                    if config.is_complete() {
                        (FlowStateModel::AwaitStore { config }, FlowActionModel::Store(config))
                    } else {
                        fail_with(ErrorModel::MalformedSchema)
                    }
                },
                None => (state, FlowActionModel::Retry),
            },
            _ => (state, FlowActionModel::Ignore),
        },
        FlowStateModel::AwaitStore { config } => match event {
            FlowEventModel::Stored(stored) => match stored {
                Ok(()) => (FlowStateModel::Done { config }, FlowActionModel::Finish),
                Err(cause) => fail_with(ErrorModel::ConfigStore(cause)),
            },
            _ => (state, FlowActionModel::Ignore),
        },
        FlowStateModel::Done { config } => (state, FlowActionModel::Ignore),
        FlowStateModel::Failed { error } => (state, FlowActionModel::Ignore),
    }
}

/// Begins the flow: the state that waits for the token, and the prompt for
/// it, which offers the token of the existing configuration for editing.
pub fn start(existing: &NotionConfig) -> (begin: (FlowState, FlowAction))
    ensures
        begin.0@ == FlowStateModel::AwaitToken,
        begin.1@ == (FlowActionModel::AskToken { initial: existing@.access_secret }),
{
    (FlowState::AwaitToken, FlowAction::AskToken { initial: existing.access_secret.clone() })
}

/// Reads `line` as the number of one of `count` offers, counted from zero.
pub fn select(line: &str, count: usize) -> (index: Option<usize>)
    ensures
        index == selection(line@, count as nat),
{
    match parse_index(trim(line)) {
        Some(index) => {
            if index < count {
                Some(index)
            } else {
                None
            }
        },
        None => None,
    }
}

/// Assembles the record for the database picked with `token`.
pub fn choose_database(token: String, database: &NotionDatabase) -> (config: NotionConfig)
    ensures
        config@ == chosen_config(token@, database@),
{
    NotionConfig {
        access_secret: token,
        database_id: database.id.clone(),
        title_property: database.title_property(),
    }
}

/// Takes the flow one step on: from `state`, on `event`, to the next state
/// and the action it calls for, as [`step_model`] lays down.
pub fn step(state: FlowState, event: FlowEvent) -> (next: (FlowState, FlowAction))
    ensures
        (next.0@, next.1@) == step_model(state@, event@),
{
    match state {
        FlowState::AwaitToken => match event {
            FlowEvent::Line(line) => {
                let token = trim(line.as_str()).to_owned();
                let request = list_databases_request(token.as_str());
                (FlowState::AwaitListing { token }, FlowAction::Send(request))
            },
            _ => (FlowState::AwaitToken, FlowAction::Ignore),
        },
        FlowState::AwaitListing { token } => match event {
            FlowEvent::Answer(answer) => match list_databases_outcome(answer) {
                Ok(body) => (FlowState::AwaitDecoding { token }, FlowAction::Decode(body)),
                Err(error) => (FlowState::Failed { error }, FlowAction::Fail),
            },
            _ => (FlowState::AwaitListing { token }, FlowAction::Ignore),
        },
        FlowState::AwaitDecoding { token } => match event {
            FlowEvent::Decoded(decoded) => match listed_databases(decoded) {
                Ok(databases) => match render_listing(&databases) {
                    Ok(lines) => (
                        FlowState::AwaitSelection { token, databases },
                        FlowAction::Choose(lines),
                    ),
                    Err(error) => (FlowState::Failed { error }, FlowAction::Fail),
                },
                Err(error) => (FlowState::Failed { error }, FlowAction::Fail),
            },
            _ => (FlowState::AwaitDecoding { token }, FlowAction::Ignore),
        },
        FlowState::AwaitSelection { token, databases } => match event {
            FlowEvent::Line(line) => match select(line.as_str(), databases.len()) {
                Some(index) => {
                    let config = choose_database(token, &databases[index]);
                    if config.is_configured() {
                        let record = config.clone();
                        (FlowState::AwaitStore { config }, FlowAction::Store(record))
                    } else {
                        (
                            FlowState::Failed { error: NotionError::MalformedSchema },
                            FlowAction::Fail,
                        )
                    }
                },
                None => (FlowState::AwaitSelection { token, databases }, FlowAction::Retry),
            },
            _ => (FlowState::AwaitSelection { token, databases }, FlowAction::Ignore),
        },
        FlowState::AwaitStore { config } => match event {
            FlowEvent::Stored(stored) => match stored {
                Ok(()) => (FlowState::Done { config }, FlowAction::Finish),
                Err(cause) => (
                    FlowState::Failed { error: NotionError::ConfigStore(cause) },
                    FlowAction::Fail,
                ),
            },
            _ => (FlowState::AwaitStore { config }, FlowAction::Ignore),
        },
        FlowState::Done { config } => (FlowState::Done { config }, FlowAction::Ignore),
        FlowState::Failed { error } => (FlowState::Failed { error }, FlowAction::Ignore),
    }
}

/// The state that a run of events leads to.
pub open spec fn run(state: FlowStateModel, events: Seq<FlowEventModel>) -> FlowStateModel
    decreases events.len(),
{
    if events.len() == 0 {
        state
    } else {
        run(step_model(state, events[0]).0, events.drop_first())
    }
}

/// The number of requests that a run of events has sent.
pub open spec fn requests_sent(state: FlowStateModel, events: Seq<FlowEventModel>) -> nat
    decreases events.len(),
{
    if events.len() == 0 {
        0
    } else {
        let (next, action) = step_model(state, events[0]);
        let sent: nat = if action is Send {
            1
        } else {
            0
        };
        sent + requests_sent(next, events.drop_first())
    }
}

/// The number of records that a run of events has handed to the store.
pub open spec fn records_stored(state: FlowStateModel, events: Seq<FlowEventModel>) -> nat
    decreases events.len(),
{
    if events.len() == 0 {
        0
    } else {
        let (next, action) = step_model(state, events[0]);
        let stored: nat = if action is Store {
            1
        } else {
            0
        };
        stored + records_stored(next, events.drop_first())
    }
}

/// The only request the flow ever sends is the listing request: a GET to
/// the listing endpoint without a body.
pub proof fn lemma_flow_sends_listing_only(state: FlowStateModel, event: FlowEventModel)
    ensures
        step_model(state, event).1 matches FlowActionModel::Send(request) ==> request.method
            == crate::http::HttpMethod::Get && request.url == crate::directory::databases_url()
            && request.body is None,
{
}

/// A record that goes to the store is complete, and it is the record the
/// flow then waits to hear about.
pub proof fn lemma_flow_stores_complete_record(state: FlowStateModel, event: FlowEventModel)
    ensures
        step_model(state, event).1 matches FlowActionModel::Store(config) ==> config.is_complete()
            && step_model(state, event).0 == (FlowStateModel::AwaitStore { config }),
{
}

/// A state holds a record only if the record is complete.
pub open spec fn holds_complete_record(state: FlowStateModel) -> bool {
    match state {
        FlowStateModel::AwaitStore { config } => config.is_complete(),
        FlowStateModel::Done { config } => config.is_complete(),
        _ => true,
    }
}

/// The configuration that a finished flow returns is complete: a partly
/// filled record is neither stored nor returned.
pub proof fn lemma_flow_ends_complete(events: Seq<FlowEventModel>)
    ensures
        holds_complete_record(run(FlowStateModel::AwaitToken, events)),
{
    lemma_run_keeps_complete(FlowStateModel::AwaitToken, events);
}

proof fn lemma_run_keeps_complete(state: FlowStateModel, events: Seq<FlowEventModel>)
    requires
        holds_complete_record(state),
    ensures
        holds_complete_record(run(state, events)),
    decreases events.len(),
{
    if events.len() > 0 {
        lemma_run_keeps_complete(step_model(state, events[0]).0, events.drop_first());
    }
}

/// How far a state is along the flow.
spec fn progress(state: FlowStateModel) -> nat {
    match state {
        FlowStateModel::AwaitToken => 0,
        FlowStateModel::AwaitListing { .. } => 1,
        FlowStateModel::AwaitDecoding { .. } => 2,
        FlowStateModel::AwaitSelection { .. } => 3,
        FlowStateModel::AwaitStore { .. } => 4,
        FlowStateModel::Done { .. } => 5,
        FlowStateModel::Failed { .. } => 6,
    }
}

proof fn lemma_counts_from(state: FlowStateModel, events: Seq<FlowEventModel>)
    ensures
        progress(state) == 0 ==> requests_sent(state, events) <= 1,
        progress(state) > 0 ==> requests_sent(state, events) == 0,
        progress(state) <= 3 ==> records_stored(state, events) <= 1,
        progress(state) > 3 ==> records_stored(state, events) == 0,
        run(state, events) is Done ==> progress(state) <= 5 && (progress(state) == 0
            ==> requests_sent(state, events) == 1) && (progress(state) <= 3 ==> records_stored(
            state,
            events,
        ) == 1),
        run(state, events) is Failed && !(run(state, events)->error is ConfigStore) && progress(
            state,
        ) <= 3 ==> records_stored(state, events) == 0,
        progress(run(state, events)) <= 3 ==> records_stored(state, events) == 0,
        progress(run(state, events)) >= progress(state),
        progress(state) >= 5 ==> run(state, events) == state,
        progress(state) == 4 && run(state, events) is Failed ==> run(state, events)->error
            is ConfigStore,
    decreases events.len(),
{
    if events.len() > 0 {
        lemma_counts_from(step_model(state, events[0]).0, events.drop_first());
    }
}

/// One request, one write. However a flow goes, it sends the listing
/// request at most once and hands at most one record to the store. A flow
/// that finishes has done each exactly once. A flow that failed for any
/// reason but the store's, and a flow that is still waiting for a
/// selection, has handed nothing to the store.
pub proof fn lemma_flow_one_request_one_write(events: Seq<FlowEventModel>)
    ensures
        requests_sent(FlowStateModel::AwaitToken, events) <= 1,
        records_stored(FlowStateModel::AwaitToken, events) <= 1,
        run(FlowStateModel::AwaitToken, events) is Done ==> requests_sent(
            FlowStateModel::AwaitToken,
            events,
        ) == 1 && records_stored(FlowStateModel::AwaitToken, events) == 1,
        run(FlowStateModel::AwaitToken, events) is Failed && !(run(
            FlowStateModel::AwaitToken,
            events,
        )->error is ConfigStore) ==> records_stored(FlowStateModel::AwaitToken, events) == 0,
        run(FlowStateModel::AwaitToken, events) is AwaitSelection ==> records_stored(
            FlowStateModel::AwaitToken,
            events,
        ) == 0,
{
    lemma_counts_from(FlowStateModel::AwaitToken, events);
}

/// The selection has no limit of tries: as long as no line selects an
/// entry, the flow keeps waiting for one, with the same offers, and stores
/// nothing.
pub proof fn lemma_flow_retries_without_limit(
    token: Seq<char>,
    databases: Seq<DatabaseModel>,
    lines: Seq<Seq<char>>,
)
    requires
        forall|i: int| 0 <= i < lines.len() ==> selection(#[trigger] lines[i], databases.len())
            is None,
    ensures
        run(
            FlowStateModel::AwaitSelection { token, databases },
            lines.map_values(|line: Seq<char>| FlowEventModel::Line(line)),
        ) == (FlowStateModel::AwaitSelection { token, databases }),
        records_stored(
            FlowStateModel::AwaitSelection { token, databases },
            lines.map_values(|line: Seq<char>| FlowEventModel::Line(line)),
        ) == 0,
    decreases lines.len(),
{
    let events = lines.map_values(|line: Seq<char>| FlowEventModel::Line(line));
    if lines.len() > 0 {
        lemma_flow_retries_without_limit(token, databases, lines.drop_first());
        assert(events.drop_first() =~= lines.drop_first().map_values(
            |line: Seq<char>| FlowEventModel::Line(line),
        ));
    }
}

} // verus!
