//! What holds of the life of a server as a whole.

use crate::apps::has_app;
use crate::apps::is_first_named;
use crate::apps::App;
use crate::error::invalid_uri_message;
use crate::error::tool_not_found_message;
use crate::error::McpError;
use crate::error::METHOD_NOT_FOUND;
use crate::error::RESOURCE_NOT_FOUND;
use crate::machine::Effect;
use crate::machine::SchemaEvent;
use crate::machine::ServerEvent;
use crate::operation::compiles;
use crate::operation::compiles_to;
use crate::operation::kept_operations;
use crate::operation::raw_operations;
use crate::operation::Operation;
use crate::operation::OperationSettings;
use crate::operation::RawOperation;
use crate::platform::Platform;
use crate::request::url_parsed;
use crate::resources::answers_resource;
use crate::resources::answers_resource_query;
use crate::resources::ListResourcesResult;
use crate::resources::ReadResourceResult;
use crate::resources::ResourceQuery;
use crate::running::reachable_peers;
use crate::running::NotifyRound;
use crate::running::PeerReport;
use crate::running::Running;
use crate::schema::api_schema_definitions;
use crate::schema::api_schema_outcome;
use crate::schema::ApiSchema;
use crate::schema::SchemaState;
use crate::server_info::ServerInfo;
use crate::states::Config;
use crate::states::Configuring;
use crate::states::OperationError;
use crate::states::ServerError;
use crate::states::State;
use crate::tool_call::CallAnswer;
use crate::tool_call::CallEvent;
use crate::tool_call::CallProgress;
use crate::tool_call::CallRecord;
use crate::tool_call::CallStage;
use crate::tool_call::ToolNames;
use crate::tools::operation_tools;
use crate::tools::optional_tool;
use crate::tools::ListToolsResult;
use rmcp::model::ResourceContents;
use rmcp::model::Tool;
use vstd::prelude::*;

verus! {

/// Whether an event brings a schema that can be used.
pub open spec fn brings_schema<P: Platform>(event: ServerEvent<P>) -> bool {
    &&& event matches ServerEvent::SchemaUpdated(SchemaEvent::UpdateSchema(schema_state))
    &&& api_schema_definitions(schema_state.sdl@) is Some
}

/// Whether an event brings a schema that cannot be used.
pub open spec fn brings_unusable_schema<P: Platform>(event: ServerEvent<P>) -> bool {
    &&& event matches ServerEvent::SchemaUpdated(SchemaEvent::UpdateSchema(schema_state))
    &&& api_schema_definitions(schema_state.sdl@) is None
}

/// Whether a server that has reacted to an event comes to rest in a state: one that is about to
/// start is started, which either leaves it running or fails.
pub open spec fn settles<P: Platform>(reached: State<P>, rest: State<P>) -> bool {
    if reached is Starting {
        rest is Running || rest is Error
    } else {
        rest == reached
    }
}

/// Whether an event takes a server from one state of rest to another.
pub open spec fn steps<P: Platform, E, F>(
    state: State<P>,
    event: ServerEvent<P>,
    compile: F,
    next: State<P>,
) -> bool where
    F: Fn(RawOperation, &ApiSchema, &OperationSettings<P>) -> Result<Option<Operation>, E>,
 {
    exists|reached: State<P>, effect: Effect<P>|
        #[trigger] state.reacts(event, compile, reached, effect) && settles(reached, next)
}

/// Whether a server, with each event, passes through these states of rest. It begins with its
/// configuration, and takes no event once it is finished.
pub open spec fn is_life<P: Platform, E, F>(
    config: Config<P>,
    events: Seq<ServerEvent<P>>,
    compile: F,
    states: Seq<State<P>>,
) -> bool where
    F: Fn(RawOperation, &ApiSchema, &OperationSettings<P>) -> Result<Option<Operation>, E>,
 {
    &&& states.len() == events.len() + 1
    &&& states[0] == State::Configuring(Configuring { config })
    &&& forall|i: int|
        0 <= i < events.len() ==> {
            &&& !(#[trigger] states[i]).finished()
            &&& steps(states[i], events[i], compile, states[i + 1])
        }
}

/// A server starts with the same configuration, schema and operations, whichever of the schema and
/// the operations comes first.
pub proof fn law_order_of_configuration_is_free<P: Platform, E, F>(
    config: Config<P>,
    schema_state: SchemaState,
    operations: Vec<RawOperation>,
    compile: F,
    with_schema: State<P>,
    with_operations: State<P>,
    schema_first: State<P>,
    operations_first: State<P>,
    effects: (Effect<P>, Effect<P>, Effect<P>, Effect<P>),
) where
    F: Fn(RawOperation, &ApiSchema, &OperationSettings<P>) -> Result<Option<Operation>, E>,

    requires
        api_schema_definitions(schema_state.sdl@) is Some,
        State::Configuring(Configuring { config }).reacts(
            ServerEvent::SchemaUpdated(SchemaEvent::UpdateSchema(schema_state)),
            compile,
            with_schema,
            effects.0,
        ),
        with_schema.reacts(
            ServerEvent::OperationsUpdated(operations),
            compile,
            schema_first,
            effects.1,
        ),
        State::Configuring(Configuring { config }).reacts(
            ServerEvent::OperationsUpdated(operations),
            compile,
            with_operations,
            effects.2,
        ),
        with_operations.reacts(
            ServerEvent::SchemaUpdated(SchemaEvent::UpdateSchema(schema_state)),
            compile,
            operations_first,
            effects.3,
        ),
    ensures
        schema_first matches State::Starting(one) && operations_first matches State::Starting(other)
            && one.config == config && other.config == config && one.operations == operations
            && other.operations == operations && one.schema@ == other.schema@ && Some(one.schema@)
            == api_schema_definitions(schema_state.sdl@),
{
}

/// Before a server starts, a later schema takes the place of an earlier one.
pub proof fn law_latest_schema_counts<P: Platform, E, F>(
    state: State<P>,
    earlier: SchemaState,
    later: SchemaState,
    compile: F,
    between: State<P>,
    end: State<P>,
    effects: (Effect<P>, Effect<P>),
) where
    F: Fn(RawOperation, &ApiSchema, &OperationSettings<P>) -> Result<Option<Operation>, E>,

    requires
        state is Configuring || state is SchemaConfigured,
        api_schema_definitions(earlier.sdl@) is Some,
        api_schema_definitions(later.sdl@) is Some,
        state.reacts(
            ServerEvent::SchemaUpdated(SchemaEvent::UpdateSchema(earlier)),
            compile,
            between,
            effects.0,
        ),
        between.reacts(
            ServerEvent::SchemaUpdated(SchemaEvent::UpdateSchema(later)),
            compile,
            end,
            effects.1,
        ),
    ensures
        end matches State::SchemaConfigured(configured) && Some(configured.schema@)
            == api_schema_definitions(later.sdl@),
{
}

/// Before a server starts, later operations take the place of earlier ones.
pub proof fn law_latest_operations_count<P: Platform, E, F>(
    state: State<P>,
    earlier: Vec<RawOperation>,
    later: Vec<RawOperation>,
    compile: F,
    between: State<P>,
    end: State<P>,
    effects: (Effect<P>, Effect<P>),
) where
    F: Fn(RawOperation, &ApiSchema, &OperationSettings<P>) -> Result<Option<Operation>, E>,

    requires
        state is Configuring || state is OperationsConfigured,
        state.reacts(ServerEvent::OperationsUpdated(earlier), compile, between, effects.0),
        between.reacts(ServerEvent::OperationsUpdated(later), compile, end, effects.1),
    ensures
        end matches State::OperationsConfigured(configured) && configured.operations == later,
{
}

/// A running server keeps running, whatever happens, unless it is asked to end, its operations
/// cannot be read from files, or it is given a schema that cannot be used.
pub proof fn law_running_server_keeps_running<P: Platform, E, F>(
    running: Running<P>,
    event: ServerEvent<P>,
    compile: F,
    next: State<P>,
    effect: Effect<P>,
) where
    F: Fn(RawOperation, &ApiSchema, &OperationSettings<P>) -> Result<Option<Operation>, E>,

    requires
        State::Running(running).reacts(event, compile, next, effect),
    ensures
        next is Running <==> !(event is Shutdown || event is OperationError
            || brings_unusable_schema(event)),
        next matches State::Running(after) ==> after.serves_as(running),
{
}

/// A collection that cannot be fetched leaves a running server as it is, and ends any other.
pub proof fn law_collection_error_is_fatal_only_before_running<P: Platform, E, F>(
    state: State<P>,
    error: P::CollectionError,
    compile: F,
    next: State<P>,
    effect: Effect<P>,
) where
    F: Fn(RawOperation, &ApiSchema, &OperationSettings<P>) -> Result<Option<Operation>, E>,

    requires
        state.reacts(ServerEvent::CollectionError(error), compile, next, effect),
    ensures
        effect is Nothing,
        state is Running ==> next == state,
        !(state is Running) ==> next == State::<P>::Error(
            ServerError::Operation(OperationError::Collection(error)),
        ),
{
}

/// A schema that cannot be used ends a server in any state, a running one too, with the error that
/// reading the schema has come to, and nobody is told.
pub proof fn law_unusable_schema_is_fatal<P: Platform, E, F>(
    state: State<P>,
    event: ServerEvent<P>,
    compile: F,
    next: State<P>,
    effect: Effect<P>,
) where
    F: Fn(RawOperation, &ApiSchema, &OperationSettings<P>) -> Result<Option<Operation>, E>,

    requires
        brings_unusable_schema(event),
        state.reacts(event, compile, next, effect),
    ensures
        next matches State::Error(error) && event matches ServerEvent::SchemaUpdated(
            SchemaEvent::UpdateSchema(schema_state),
        ) && (error is Federation || error is GraphQLSchema) && Err::<Seq<char>, Seq<char>>(
            error.schema_complaint()->0,
        ) == api_schema_outcome(schema_state.sdl@),
        effect is Nothing,
{
}

/// That no schema will come ends a server exactly where it waits for one.
pub proof fn law_missing_schema_is_fatal_only_while_awaited<P: Platform, E, F>(
    state: State<P>,
    compile: F,
    next: State<P>,
    effect: Effect<P>,
) where
    F: Fn(RawOperation, &ApiSchema, &OperationSettings<P>) -> Result<Option<Operation>, E>,

    requires
        !state.finished(),
        state.reacts(
            ServerEvent::SchemaUpdated(SchemaEvent::NoMoreSchema),
            compile,
            next,
            effect,
        ),
    ensures
        next is Error <==> (state is Configuring || state is OperationsConfigured),
        !(next is Error) ==> next == state,
{
}

/// A server that is asked to end stops in any state. Its serving tasks are ended exactly where it
/// was running.
pub proof fn law_shutdown_stops<P: Platform, E, F>(
    state: State<P>,
    compile: F,
    next: State<P>,
    effect: Effect<P>,
) where
    F: Fn(RawOperation, &ApiSchema, &OperationSettings<P>) -> Result<Option<Operation>, E>,

    requires
        state.reacts(ServerEvent::Shutdown, compile, next, effect),
    ensures
        next is Stopping,
        effect is Cancel <==> state is Running,
        state matches State::Running(running) ==> effect == Effect::<P>::Cancel(
            running.cancellation_token,
        ),
{
}

/// Clients are told of a change of tools exactly where a running server has taken over a schema or
/// operations.
pub proof fn law_clients_are_told_of_updates<P: Platform, E, F>(
    state: State<P>,
    event: ServerEvent<P>,
    compile: F,
    next: State<P>,
    effect: Effect<P>,
) where
    F: Fn(RawOperation, &ApiSchema, &OperationSettings<P>) -> Result<Option<Operation>, E>,

    requires
        state.reacts(event, compile, next, effect),
    ensures
        effect is NotifyToolListChanged <==> state is Running && (brings_schema(event)
            || event is OperationsUpdated),
{
}

/// An update, with the round of telling the clients that follows it, changes nothing of a server
/// but its schema, its operations and its clients; new operations leave the schema alone. The round
/// itself touches neither the schema nor the operations.
pub proof fn law_updates_change_only_what_is_shared<P: Platform, E, F>(
    before: Running<P>,
    event: ServerEvent<P>,
    compile: F,
    updated: Running<P>,
    effect: Effect<P>,
    reports: Seq<PeerReport>,
    after: Running<P>,
) where
    F: Fn(RawOperation, &ApiSchema, &OperationSettings<P>) -> Result<Option<Operation>, E>,

    requires
        State::Running(before).reacts(event, compile, State::Running(updated), effect),
        effect is NotifyToolListChanged,
        updated.drops_unreachable(reports, after),
    ensures
        after == (Running {
            schema: after.schema,
            operations: after.operations,
            peers: after.peers,
            ..before
        }),
        after.schema == updated.schema,
        after.operations == updated.operations,
        after.peers@ == reachable_peers(before.peers@, reports),
        event is OperationsUpdated ==> after.schema == before.schema,
{
}

/// Whether a round of telling a number of clients passes through these stages, given for each stage
/// whether the transport of the client that it deals with was closed and, where it was not, what
/// came of telling the client. It ends once no client is left.
pub open spec fn is_round(
    count: nat,
    stages: Seq<NotifyRound>,
    closed: Seq<bool>,
    outcomes: Seq<PeerReport>,
) -> bool {
    &&& outcomes.len() == closed.len()
    &&& stages.len() == closed.len() + 1
    &&& stages[0].reports@.len() == 0
    &&& forall|i: int|
        0 <= i < closed.len() ==> {
            &&& (#[trigger] stages[i]).next_client(count) is Some
            &&& stages[i].moves(closed[i], outcomes[i], stages[i + 1])
        }
    &&& stages.last().next_client(count) is None
}

proof fn lemma_stages_deal_with_clients_in_order(
    count: nat,
    stages: Seq<NotifyRound>,
    closed: Seq<bool>,
    outcomes: Seq<PeerReport>,
    at: int,
)
    requires
        is_round(count, stages, closed, outcomes),
        0 <= at < stages.len(),
    ensures
        at <= count,
        stages[at].reports@.len() == at,
        forall|i: int|
            0 <= i < at ==> #[trigger] stages[at].reports@[i] == (if closed[i] {
                PeerReport::Closed
            } else {
                outcomes[i]
            }),
    decreases at,
{
    if at > 0 {
        lemma_stages_deal_with_clients_in_order(count, stages, closed, outcomes, at - 1);
        assert(stages[at - 1].moves(closed[at - 1], outcomes[at - 1], stages[at - 1 + 1]));
    }
}

/// A round deals with each client exactly once, in order, and its report is on that client: a
/// client whose transport is open is told, and no other is.
pub proof fn law_each_client_is_told_once(
    count: nat,
    stages: Seq<NotifyRound>,
    closed: Seq<bool>,
    outcomes: Seq<PeerReport>,
)
    requires
        is_round(count, stages, closed, outcomes),
    ensures
        closed.len() == count,
        stages.last().reports@.len() == count,
        forall|at: int|
            0 <= at < count ==> (#[trigger] stages[at]).next_client(count) == Some(at),
        forall|at: int|
            0 <= at < count ==> #[trigger] stages.last().reports@[at] == (if closed[at] {
                PeerReport::Closed
            } else {
                outcomes[at]
            }),
{
    lemma_stages_deal_with_clients_in_order(count, stages, closed, outcomes, stages.len() - 1);
    assert forall|at: int| 0 <= at < count implies (#[trigger] stages[at]).next_client(count)
        == Some(at) by {
        lemma_stages_deal_with_clients_in_order(count, stages, closed, outcomes, at);
    }
}

/// A client that was welcomed is among those that are told of the next update, at one place in the
/// round. It is told when the server already holds the update, so the list of tools that it then
/// asks for, outside of apps, begins with what the operations of the update have become.
pub proof fn law_welcomed_client_is_told_of_the_next_update<P: Platform, E, F, M, A>(
    before: Running<P>,
    peer: P::Peer,
    welcomed: Running<P>,
    event: ServerEvent<P>,
    compile: F,
    next: State<P>,
    effect: Effect<P>,
    target: P::AppTarget,
    make_private: M,
    attach_metadata: A,
    answer: Result<ListToolsResult, McpError>,
) where
    F: Fn(RawOperation, &ApiSchema, &OperationSettings<P>) -> Result<Option<Operation>, E>,
    M: Fn(Tool) -> Tool,
    A: Fn(&App<P>, &P::AppTool, &P::AppTarget) -> Tool,

    requires
        before.welcomes(peer, welcomed),
        brings_schema(event) || event is OperationsUpdated,
        State::Running(welcomed).reacts(event, compile, next, effect),
        next matches State::Running(after) ==> after.answers_list_tools(
            None,
            Ok(target),
            make_private,
            attach_metadata,
            answer,
        ),
    ensures
        effect is NotifyToolListChanged,
        next is Running,
        next matches State::Running(after) ==> {
            &&& after.peers@ == before.peers@.push(peer)
            &&& answer matches Ok(list)
            &&& list.tools@.len() >= after.operations@.len()
            &&& list.tools@.take(after.operations@.len() as int) == operation_tools(
                after.operations@,
            )
            &&& compiles_to(
                compile,
                match event {
                    ServerEvent::OperationsUpdated(operations) => operations@,
                    _ => raw_operations(before.operations@),
                },
                after.schema,
                before.operation_settings,
                after.operations@,
            )
        },
{
    if let State::Running(after) = next {
        law_operations_are_listed_outside_of_apps(
            after,
            Ok(target),
            make_private,
            attach_metadata,
            answer,
        );
    }
}

/// A client that was welcomed is dealt with exactly once in the round that follows the next update.
pub proof fn law_welcomed_client_is_told_once<P: Platform, E, F>(
    before: Running<P>,
    peer: P::Peer,
    welcomed: Running<P>,
    event: ServerEvent<P>,
    compile: F,
    updated: Running<P>,
    effect: Effect<P>,
    stages: Seq<NotifyRound>,
    closed: Seq<bool>,
    outcomes: Seq<PeerReport>,
) where
    F: Fn(RawOperation, &ApiSchema, &OperationSettings<P>) -> Result<Option<Operation>, E>,

    requires
        before.welcomes(peer, welcomed),
        State::Running(welcomed).reacts(event, compile, State::Running(updated), effect),
        effect is NotifyToolListChanged,
        is_round(updated.peers@.len(), stages, closed, outcomes),
    ensures
        before.peers@.len() < closed.len(),
        updated.peers@[before.peers@.len() as int] == peer,
        forall|at: int|
            0 <= at < closed.len() ==> ((#[trigger] stages[at]).next_client(updated.peers@.len())
                == Some(before.peers@.len() as int) <==> at == before.peers@.len()),
{
    law_each_client_is_told_once(updated.peers@.len(), stages, closed, outcomes);
}

/// Between events, a server is never about to start: it has been started, or could not be.
pub proof fn law_never_rests_before_starting<P: Platform, E, F>(
    config: Config<P>,
    events: Seq<ServerEvent<P>>,
    compile: F,
    states: Seq<State<P>>,
    at: int,
) where
    F: Fn(RawOperation, &ApiSchema, &OperationSettings<P>) -> Result<Option<Operation>, E>,

    requires
        is_life(config, events, compile, states),
        0 <= at < states.len(),
    ensures
        !(states[at] is Starting),
{
    if at > 0 {
        assert(steps(states[at - 1], events[at - 1], compile, states[at - 1 + 1]));
    }
}

/// What a server has been told, as far as its state shows: one that has a schema was given one,
/// and one that has operations was given them.
pub open spec fn was_told<P: Platform>(events: Seq<ServerEvent<P>>, state: State<P>) -> bool {
    let schema = exists|i: int| 0 <= i < events.len() && brings_schema(#[trigger] events[i]);
    let operations = exists|i: int|
        0 <= i < events.len() && #[trigger] events[i] is OperationsUpdated;
    &&& state is SchemaConfigured ==> schema
    &&& state is OperationsConfigured ==> operations
    &&& state is Running ==> schema && operations
}

/// A server runs only once it was given both a schema that can be used and operations.
pub proof fn law_runs_only_when_configured<P: Platform, E, F>(
    config: Config<P>,
    events: Seq<ServerEvent<P>>,
    compile: F,
    states: Seq<State<P>>,
    at: int,
) where
    F: Fn(RawOperation, &ApiSchema, &OperationSettings<P>) -> Result<Option<Operation>, E>,

    requires
        is_life(config, events, compile, states),
        0 <= at < states.len(),
    ensures
        was_told(events.take(at), states[at]),
        states[at] is Running ==> {
            &&& exists|i: int| 0 <= i < at && brings_schema(#[trigger] events[i])
            &&& exists|i: int| 0 <= i < at && #[trigger] events[i] is OperationsUpdated
        },
    decreases at,
{
    if at > 0 {
        let before = at - 1;
        law_runs_only_when_configured(config, events, compile, states, before);
        law_never_rests_before_starting(config, events, compile, states, before);
        assert(steps(states[before], events[before], compile, states[before + 1]));
        let told = events.take(at);
        assert(told[before] == events[before]);
        assert forall|i: int| 0 <= i < before implies events.take(before)[i] == #[trigger] told[i] by {}
        assert(was_told(told, states[before])) by {
            let earlier = events.take(before);
            if exists|i: int| 0 <= i < earlier.len() && brings_schema(#[trigger] earlier[i]) {
                let i = choose|i: int| 0 <= i < earlier.len() && brings_schema(#[trigger] earlier[i]);
                assert(brings_schema(told[i]));
            }
            if exists|i: int| 0 <= i < earlier.len() && #[trigger] earlier[i] is OperationsUpdated {
                let i = choose|i: int|
                    0 <= i < earlier.len() && #[trigger] earlier[i] is OperationsUpdated;
                assert(told[i] is OperationsUpdated);
            }
        }
        if states[at] is Running {
            let i = choose|i: int| 0 <= i < told.len() && brings_schema(#[trigger] told[i]);
            assert(brings_schema(events[i]));
            let j = choose|j: int| 0 <= j < told.len() && #[trigger] told[j] is OperationsUpdated;
            assert(events[j] is OperationsUpdated);
        }
    }
}

/// A server that has run never waits for its configuration again: it runs, or it is finished.
pub proof fn law_running_is_never_undone<P: Platform, E, F>(
    config: Config<P>,
    events: Seq<ServerEvent<P>>,
    compile: F,
    states: Seq<State<P>>,
    once: int,
    later: int,
) where
    F: Fn(RawOperation, &ApiSchema, &OperationSettings<P>) -> Result<Option<Operation>, E>,

    requires
        is_life(config, events, compile, states),
        0 <= once <= later < states.len(),
        states[once] is Running,
    ensures
        states[later] is Running || states[later].finished(),
    decreases later - once,
{
    if later > once {
        let before = later - 1;
        law_running_is_never_undone(config, events, compile, states, once, before);
        assert(steps(states[before], events[before], compile, states[before + 1]));
    }
}

/// The life of a server comes to an error exactly where its last state is that error, and no state
/// before the last is an error.
pub proof fn law_outcome_is_that_of_the_last_state<P: Platform, E, F>(
    config: Config<P>,
    events: Seq<ServerEvent<P>>,
    compile: F,
    states: Seq<State<P>>,
    error: ServerError<P>,
) where
    F: Fn(RawOperation, &ApiSchema, &OperationSettings<P>) -> Result<Option<Operation>, E>,

    requires
        is_life(config, events, compile, states),
    ensures
        states.last().comes_to() == Err::<(), ServerError<P>>(error) <==> states.last()
            == State::Error(error),
        states.last().comes_to() is Err <==> exists|i: int|
            0 <= i < states.len() && #[trigger] states[i] is Error,
{
    assert(states[states.len() - 1] == states.last());
    assert forall|i: int| 0 <= i < events.len() implies !(#[trigger] states[i] is Error) by {
        assert(!states[i].finished());
    }
}

/// The definitions of the schema that came last.
pub open spec fn latest_definitions<P: Platform>(events: Seq<ServerEvent<P>>) -> Option<Seq<char>>
    decreases events.len(),
{
    if events.len() == 0 {
        None
    } else {
        match events.last() {
            ServerEvent::SchemaUpdated(SchemaEvent::UpdateSchema(schema_state)) => {
                api_schema_definitions(schema_state.sdl@)
            },
            _ => latest_definitions(events.drop_last()),
        }
    }
}

/// The operations that came last.
pub open spec fn latest_operations<P: Platform>(events: Seq<ServerEvent<P>>) -> Option<
    Vec<RawOperation>,
>
    decreases events.len(),
{
    if events.len() == 0 {
        None
    } else {
        match events.last() {
            ServerEvent::OperationsUpdated(operations) => Some(operations),
            _ => latest_operations(events.drop_last()),
        }
    }
}

/// Whether a server that does not run yet holds the configuration it began with, and what came
/// last.
pub open spec fn holds_the_latest<P: Platform>(
    config: Config<P>,
    events: Seq<ServerEvent<P>>,
    state: State<P>,
) -> bool {
    match state {
        State::Configuring(state) => state.config == config,
        State::SchemaConfigured(state) => {
            &&& state.config == config
            &&& Some(state.schema@) == latest_definitions(events)
        },
        State::OperationsConfigured(state) => {
            &&& state.config == config
            &&& Some(state.operations) == latest_operations(events)
        },
        State::Starting(state) => {
            &&& state.config == config
            &&& Some(state.schema@) == latest_definitions(events)
            &&& Some(state.operations) == latest_operations(events)
        },
        _ => true,
    }
}

/// A server is started with the configuration it began with, and with the schema and the operations
/// that came last.
pub proof fn law_starts_with_the_latest<P: Platform, E, F>(
    config: Config<P>,
    events: Seq<ServerEvent<P>>,
    compile: F,
    states: Seq<State<P>>,
    at: int,
    event: ServerEvent<P>,
    reached: State<P>,
    effect: Effect<P>,
) where
    F: Fn(RawOperation, &ApiSchema, &OperationSettings<P>) -> Result<Option<Operation>, E>,

    requires
        is_life(config, events, compile, states),
        0 <= at < states.len(),
        !states[at].finished(),
        states[at].reacts(event, compile, reached, effect),
    ensures
        holds_the_latest(config, events.take(at), states[at]),
        holds_the_latest(config, events.take(at).push(event), reached),
    decreases at,
{
    if at > 0 {
        let before = at - 1;
        assert(steps(states[before], events[before], compile, states[before + 1]));
        let (middle, side) = choose|middle: State<P>, side: Effect<P>|
            #[trigger] states[before].reacts(events[before], compile, middle, side) && settles(
                middle,
                states[at],
            );
        law_starts_with_the_latest(
            config,
            events,
            compile,
            states,
            before,
            events[before],
            middle,
            side,
        );
        assert(events.take(before).push(events[before]) =~= events.take(at));
    }
    law_never_rests_before_starting(config, events, compile, states, at);
    assert(events.take(at).push(event).drop_last() =~= events.take(at));
}

/// What the operations of a list become does not depend on the rest of the list.
proof fn lemma_kept_operations_of_sum<E>(
    first: Seq<Result<Option<Operation>, E>>,
    second: Seq<Result<Option<Operation>, E>>,
)
    ensures
        kept_operations(first + second) == kept_operations(first) + kept_operations(second),
    decreases second.len(),
{
    if second.len() == 0 {
        assert(first + second =~= first);
        assert(kept_operations(first) + kept_operations(second) =~= kept_operations(first));
    } else {
        lemma_kept_operations_of_sum(first, second.drop_last());
        assert((first + second).drop_last() =~= first + second.drop_last());
        assert((first + second).last() == second.last());
        assert(kept_operations(first + second) =~= kept_operations(first) + kept_operations(second));
    }
}

/// An operation that the compiler refuses, or that becomes no tool, changes nothing for the others:
/// the tools are those that there would be without it.
pub proof fn law_invalid_operation_is_left_out<E>(
    before: Seq<Result<Option<Operation>, E>>,
    refused: Result<Option<Operation>, E>,
    after: Seq<Result<Option<Operation>, E>>,
)
    requires
        !(refused matches Ok(Some(_))),
    ensures
        kept_operations(before.push(refused) + after) == kept_operations(before + after),
{
    lemma_kept_operations_of_sum(before.push(refused), after);
    lemma_kept_operations_of_sum(before, after);
    assert(before.push(refused).drop_last() =~= before);
}

/// Where the compiler accepts every operation, each one becomes a tool, in order.
pub proof fn law_valid_operations_are_kept<E>(replies: Seq<Result<Option<Operation>, E>>)
    requires
        forall|i: int| 0 <= i < replies.len() ==> (#[trigger] replies[i] matches Ok(Some(_))),
    ensures
        kept_operations(replies).len() == replies.len(),
        forall|i: int|
            0 <= i < replies.len() ==> replies[i] == Ok::<Option<Operation>, E>(
                Some(#[trigger] kept_operations(replies)[i]),
            ),
    decreases replies.len(),
{
    if replies.len() > 0 {
        law_valid_operations_are_kept(replies.drop_last());
    }
}

/// Each operation among a run of replies is one of the replies.
proof fn lemma_kept_operation_is_a_reply<E>(
    replies: Seq<Result<Option<Operation>, E>>,
    at: int,
) -> (source: int)
    requires
        0 <= at < kept_operations(replies).len(),
    ensures
        0 <= source < replies.len(),
        replies[source] == Ok::<Option<Operation>, E>(Some(kept_operations(replies)[at])),
    decreases replies.len(),
{
    let before = replies.drop_last();
    if at < kept_operations(before).len() {
        lemma_kept_operation_is_a_reply(before, at)
    } else {
        replies.len() - 1
    }
}

/// The operations among a run of replies are no more than the replies.
proof fn lemma_no_more_operations_than_replies<E>(replies: Seq<Result<Option<Operation>, E>>)
    ensures
        kept_operations(replies).len() <= replies.len(),
    decreases replies.len(),
{
    if replies.len() > 0 {
        lemma_no_more_operations_than_replies(replies.drop_last());
    }
}

/// After an update, a server offers only what the compiler has made, for the schema it then has, of
/// the texts it was given or had; an operation that the schema no longer allows is gone.
pub proof fn law_only_valid_operations_are_offered<P: Platform, E, F>(
    compile: F,
    raw: Seq<RawOperation>,
    schema: ApiSchema,
    settings: OperationSettings<P>,
    operations: Seq<Operation>,
    at: int,
) -> (source: int) where
    F: Fn(RawOperation, &ApiSchema, &OperationSettings<P>) -> Result<Option<Operation>, E>,

    requires
        compiles_to(compile, raw, schema, settings, operations),
        0 <= at < operations.len(),
    ensures
        operations.len() <= raw.len(),
        0 <= source < raw.len(),
        call_ensures(
            compile,
            (raw[source], &schema, &settings),
            Ok::<Option<Operation>, E>(Some(operations[at])),
        ),
{
    let replies = choose|replies: Seq<Result<Option<Operation>, E>>|
        {
            &&& #[trigger] compiles(compile, raw, schema, settings, replies)
            &&& operations == kept_operations(replies)
        };
    lemma_no_more_operations_than_replies(replies);
    lemma_kept_operation_is_a_reply(replies, at)
}

/// Whether a list is a run of another: its items are, in order, those at some of the places of the
/// other.
pub open spec fn is_run_of<T>(part: Seq<T>, whole: Seq<T>) -> bool {
    exists|places: Seq<int>| #[trigger] picks(part, whole, places)
}

/// Whether the items of a list are those at the given places of another, each place behind the one
/// before.
pub open spec fn picks<T>(part: Seq<T>, whole: Seq<T>, places: Seq<int>) -> bool {
    &&& places.len() == part.len()
    &&& forall|i: int|
        0 <= i < places.len() ==> 0 <= #[trigger] places[i] < whole.len() && part[i]
            == whole[places[i]]
    &&& forall|i: int, j: int|
        0 <= i < j < places.len() ==> #[trigger] places[i] < #[trigger] places[j]
}

/// Whether the compiler leaves the texts of operations as they are.
pub open spec fn keeps_texts<P: Platform, E, F>(compile: F) -> bool where
    F: Fn(RawOperation, &ApiSchema, &OperationSettings<P>) -> Result<Option<Operation>, E>,
 {
    forall|
        raw: RawOperation,
        schema: ApiSchema,
        settings: OperationSettings<P>,
        operation: Operation,
    | #[trigger] call_ensures(
            compile,
            (raw, &schema, &settings),
            Ok::<Option<Operation>, E>(Some(operation)),
        ) ==> operation.inner == raw
}

/// The places of the replies that are operations.
proof fn lemma_places_of_kept_operations<E>(replies: Seq<Result<Option<Operation>, E>>) -> (places:
    Seq<int>)
    ensures
        places.len() == kept_operations(replies).len(),
        forall|i: int|
            0 <= i < places.len() ==> 0 <= #[trigger] places[i] < replies.len() && replies[places[i]]
                == Ok::<Option<Operation>, E>(Some(kept_operations(replies)[i])),
        forall|i: int, j: int|
            0 <= i < j < places.len() ==> #[trigger] places[i] < #[trigger] places[j],
    decreases replies.len(),
{
    if replies.len() == 0 {
        Seq::empty()
    } else {
        let before = lemma_places_of_kept_operations(replies.drop_last());
        if replies.last() matches Ok(Some(_)) {
            before.push(replies.len() - 1)
        } else {
            before
        }
    }
}

proof fn lemma_run_of_a_run<T>(part: Seq<T>, middle: Seq<T>, whole: Seq<T>)
    requires
        is_run_of(part, middle),
        is_run_of(middle, whole),
    ensures
        is_run_of(part, whole),
{
    let inner = choose|places: Seq<int>| #[trigger] picks(part, middle, places);
    let outer = choose|places: Seq<int>| #[trigger] picks(middle, whole, places);
    let places = Seq::new(inner.len(), |i: int| outer[inner[i]]);
    assert(picks(part, whole, places));
}

/// The texts that the operations have after an update are a run of those that went into it, provided
/// that the compiler leaves texts as they are: none is added, changed or moved.
pub proof fn law_an_update_adds_no_texts<P: Platform, E, F>(
    compile: F,
    raw: Seq<RawOperation>,
    schema: ApiSchema,
    settings: OperationSettings<P>,
    operations: Seq<Operation>,
) where
    F: Fn(RawOperation, &ApiSchema, &OperationSettings<P>) -> Result<Option<Operation>, E>,

    requires
        keeps_texts::<P, E, F>(compile),
        compiles_to(compile, raw, schema, settings, operations),
    ensures
        is_run_of(raw_operations(operations), raw),
{
    let replies = choose|replies: Seq<Result<Option<Operation>, E>>|
        {
            &&& #[trigger] compiles(compile, raw, schema, settings, replies)
            &&& operations == kept_operations(replies)
        };
    let places = lemma_places_of_kept_operations(replies);
    assert forall|i: int| 0 <= i < places.len() implies 0 <= #[trigger] places[i] < raw.len()
        && raw_operations(operations)[i] == raw[places[i]] by {
        assert(call_ensures(
            compile,
            (raw[places[i]], &schema, &settings),
            Ok::<Option<Operation>, E>(Some(operations[i])),
        ));
    }
    assert(picks(raw_operations(operations), raw, places));
}

/// Operations that a schema has dropped never come back with later schemas: however many schemas a
/// running server takes over, the texts that it then holds are a run of those that it held at
/// first, provided that the compiler leaves texts as they are.
pub proof fn law_dropped_operations_never_come_back<P: Platform, E, F>(
    compile: F,
    servers: Seq<Running<P>>,
    schemas: Seq<ApiSchema>,
    effects: Seq<Effect<P>>,
) where
    F: Fn(RawOperation, &ApiSchema, &OperationSettings<P>) -> Result<Option<Operation>, E>,

    requires
        keeps_texts::<P, E, F>(compile),
        servers.len() == schemas.len() + 1,
        effects.len() == schemas.len(),
        forall|i: int|
            0 <= i < schemas.len() ==> State::Running(#[trigger] servers[i]).takes_schema(
                schemas[i],
                compile,
                State::Running(servers[i + 1]),
                effects[i],
            ),
    ensures
        is_run_of(
            raw_operations(servers.last().operations@),
            raw_operations(servers[0].operations@),
        ),
    decreases schemas.len(),
{
    let first = raw_operations(servers[0].operations@);
    if schemas.len() == 0 {
        assert(picks(first, first, Seq::new(first.len(), |i: int| i)));
    } else {
        let last = schemas.len() - 1;
        let earlier = servers.drop_last();
        assert forall|i: int| 0 <= i < last implies State::Running(
            #[trigger] earlier[i],
        ).takes_schema(
            schemas.drop_last()[i],
            compile,
            State::Running(earlier[i + 1]),
            effects.drop_last()[i],
        ) by {
            assert(servers[i] == earlier[i]);
        }
        law_dropped_operations_never_come_back(
            compile,
            earlier,
            schemas.drop_last(),
            effects.drop_last(),
        );
        assert(State::Running(servers[last]).takes_schema(
            schemas[last],
            compile,
            State::Running(servers[last + 1]),
            effects[last],
        ));
        law_an_update_adds_no_texts(
            compile,
            raw_operations(servers[last].operations@),
            schemas[last],
            servers[last].operation_settings,
            servers[last + 1].operations@,
        );
        lemma_run_of_a_run(
            raw_operations(servers[last + 1].operations@),
            raw_operations(servers[last].operations@),
            first,
        );
    }
}

/// Where the compiler replies in one way only, an update leaves no choice of what the operations
/// become.
pub proof fn law_update_is_determined<P: Platform, E, F>(
    compile: F,
    raw: Seq<RawOperation>,
    schema: ApiSchema,
    settings: OperationSettings<P>,
    one: Seq<Operation>,
    other: Seq<Operation>,
) where
    F: Fn(RawOperation, &ApiSchema, &OperationSettings<P>) -> Result<Option<Operation>, E>,

    requires
        forall|operation: RawOperation, first, second|
            #[trigger] call_ensures(compile, (operation, &schema, &settings), first)
                && #[trigger] call_ensures(compile, (operation, &schema, &settings), second)
                ==> first == second,
        compiles_to(compile, raw, schema, settings, one),
        compiles_to(compile, raw, schema, settings, other),
    ensures
        one == other,
{
    let first = choose|replies: Seq<Result<Option<Operation>, E>>|
        {
            &&& #[trigger] compiles(compile, raw, schema, settings, replies)
            &&& one == kept_operations(replies)
        };
    let second = choose|replies: Seq<Result<Option<Operation>, E>>|
        {
            &&& #[trigger] compiles(compile, raw, schema, settings, replies)
            &&& other == kept_operations(replies)
        };
    assert(first =~= second);
}

/// A client stays exactly where it can still be reached: the clients that stay are, in order, those
/// at the places whose reports say so.
pub proof fn law_unreachable_clients_are_dropped<T>(peers: Seq<T>, reports: Seq<PeerReport>)
    requires
        reports.len() == peers.len(),
    ensures
        reachable_peers(peers, reports) == peers.zip_with(reports).filter(
            |pair: (T, PeerReport)| pair.1.reachable(),
        ).map_values(|pair: (T, PeerReport)| pair.0),
    decreases peers.len(),
{
    let reachable = |pair: (T, PeerReport)| pair.1.reachable();
    let peer = |pair: (T, PeerReport)| pair.0;
    let pairs = peers.zip_with(reports);
    reveal(Seq::filter);
    if peers.len() > 0 {
        law_unreachable_clients_are_dropped(peers.drop_last(), reports.drop_last());
        assert(pairs.drop_last() =~= peers.drop_last().zip_with(reports.drop_last()));
        assert(pairs.last() == (peers.last(), reports.last()));
    }
    assert(reachable_peers(peers, reports) =~= pairs.filter(reachable).map_values(peer));
}

/// Where every client can be reached, every client stays.
pub proof fn law_reachable_clients_stay<T>(peers: Seq<T>, reports: Seq<PeerReport>)
    requires
        reports.len() == peers.len(),
        forall|i: int| 0 <= i < reports.len() ==> (#[trigger] reports[i]).reachable(),
    ensures
        reachable_peers(peers, reports) == peers,
    decreases peers.len(),
{
    if peers.len() > 0 {
        law_reachable_clients_stay(peers.drop_last(), reports.drop_last());
    }
    assert(reachable_peers(peers, reports) =~= peers);
}

/// The server offers resources exactly where there are some to list.
pub proof fn law_resources_are_offered_where_listed<P: Platform>(
    running: Running<P>,
    info: ServerInfo,
    list: ListResourcesResult,
)
    requires
        running.is_described_by(info),
        running.lists_resources(list),
    ensures
        info.capabilities.resources is Some <==> list.resources@.len() > 0,
{
}

/// A URI that cannot be read is reported as such, even where the kind of client is in doubt too.
pub proof fn law_uri_is_judged_first<T>(
    uri: Seq<char>,
    target: Result<T, McpError>,
    answer: Result<ResourceQuery<T>, McpError>,
)
    requires
        url_parsed(uri) is Err,
        answers_resource_query(url_parsed(uri), target, answer),
    ensures
        answer matches Err(error) && error.says(
            RESOURCE_NOT_FOUND,
            invalid_uri_message(url_parsed(uri)->Err_0),
        ),
{
}

/// Two requests whose URIs can be read, from clients of the same kind, are either both refused with
/// the same error, or both looked up for that kind of client. Where the lookups come to the same,
/// the answers are the same: the same single content, or the same error.
pub proof fn law_same_lookups_are_answered_the_same<T>(
    uris: (Seq<char>, Seq<char>),
    target: Result<T, McpError>,
    queries: (Result<ResourceQuery<T>, McpError>, Result<ResourceQuery<T>, McpError>),
    found: (Result<ResourceContents, McpError>, Result<ResourceContents, McpError>),
    answers: (Result<ReadResourceResult, McpError>, Result<ReadResourceResult, McpError>),
)
    requires
        url_parsed(uris.0) is Ok,
        url_parsed(uris.1) is Ok,
        answers_resource_query(url_parsed(uris.0), target, queries.0),
        answers_resource_query(url_parsed(uris.1), target, queries.1),
        answers_resource(found.0, answers.0),
        answers_resource(found.1, answers.1),
    ensures
        queries.0 is Ok <==> queries.1 is Ok,
        queries.0 matches Err(error) ==> queries.1 == Err::<ResourceQuery<T>, McpError>(error),
        queries.0 matches Ok(one) ==> queries.1 matches Ok(other) && one.target == other.target,
        answers.0 is Ok <==> found.0 is Ok,
        answers.1 is Ok <==> found.1 is Ok,
        answers.0 matches Ok(one) ==> one.contents@.len() == 1,
        answers.1 matches Ok(other) ==> other.contents@.len() == 1,
        found.0 == found.1 ==> match answers.0 {
            Ok(one) => answers.1 matches Ok(other) && one.contents@ == other.contents@,
            Err(error) => answers.1 == Err::<ReadResourceResult, McpError>(error),
        },
{
}

/// A call of a name that no built-in tool takes, that the operations do not know, and that the
/// tools of the app do not know, where the client asked for an app, is refused with that name.
pub proof fn law_unknown_tool_is_refused<P: Platform>(
    running: Running<P>,
    names: ToolNames,
    tool_name: Seq<char>,
    app_name: Option<Seq<char>>,
    stage: CallStage,
    first: CallProgress,
    second: CallProgress,
)
    requires
        running.begins_at(names, tool_name, app_name, stage),
        stage is Operation,
        stage.leads_to(tool_name, CallEvent::NotFound, first),
        first matches CallProgress::Continue(next) ==> next.leads_to(
            tool_name,
            CallEvent::NotFound,
            second,
        ),
    ensures
        app_name is None ==> first is Finished,
        app_name is Some ==> first is Continue && second is Finished,
        (if app_name is Some {
            second
        } else {
            first
        }) matches CallProgress::Finished(Err(error)) && error.says(
            METHOD_NOT_FOUND,
            tool_not_found_message(tool_name),
        ),
{
}

/// What the operations answer is answered to the client, whatever app it asked for: the tools of
/// an app are looked up only for names that the operations do not know.
pub proof fn law_operations_come_before_app_tools(
    stage: CallStage,
    tool_name: Seq<char>,
    event: CallEvent,
    progress: CallProgress,
)
    requires
        stage.leads_to(tool_name, event, progress),
    ensures
        progress is Continue ==> stage is Operation && event is NotFound,
        event matches CallEvent::Answered(answer) ==> progress == CallProgress::Finished(answer),
{
}

/// A call is looked up at most twice.
pub proof fn law_call_is_answered_in_two_stages(
    stage: CallStage,
    tool_name: Seq<char>,
    event: CallEvent,
    progress: CallProgress,
    later_event: CallEvent,
    later: CallProgress,
)
    requires
        stage.leads_to(tool_name, event, progress),
        progress matches CallProgress::Continue(next) ==> next.leads_to(
            tool_name,
            later_event,
            later,
        ),
    ensures
        progress is Finished || later is Finished,
{
}

/// A built-in tool that is switched off takes no calls: all names are then looked up among the
/// operations.
pub proof fn law_tools_that_are_off_take_no_calls<P: Platform>(
    running: Running<P>,
    names: ToolNames,
    tool_name: Seq<char>,
    app_name: Option<Seq<char>>,
    stage: CallStage,
)
    requires
        running.begins_at(names, tool_name, app_name, stage),
    ensures
        stage is Introspect ==> running.introspect_tool is Some && tool_name == names.introspect@,
        stage is Search ==> running.search_tool is Some && tool_name == names.search@,
        stage is Explorer ==> running.explorer_tool is Some && tool_name == names.explorer@,
        stage is Execute ==> running.execute_tool is Some && tool_name == names.execute@,
        stage is Validate ==> running.validate_tool is Some && tool_name == names.validate@,
        !(stage is AppTool),
{
}

/// A built-in tool that is switched on takes the calls of its name, where the names differ.
pub proof fn law_tools_that_are_on_take_their_calls<P: Platform>(
    running: Running<P>,
    names: ToolNames,
    tool_name: Seq<char>,
    app_name: Option<Seq<char>>,
    stage: CallStage,
)
    requires
        names.introspect@ != names.search@,
        names.introspect@ != names.explorer@,
        names.introspect@ != names.execute@,
        names.introspect@ != names.validate@,
        names.search@ != names.explorer@,
        names.search@ != names.execute@,
        names.search@ != names.validate@,
        names.explorer@ != names.execute@,
        names.explorer@ != names.validate@,
        names.execute@ != names.validate@,
        running.begins_at(names, tool_name, app_name, stage),
    ensures
        stage is Introspect <==> running.introspect_tool is Some && tool_name == names.introspect@,
        stage is Search <==> running.search_tool is Some && tool_name == names.search@,
        stage is Explorer <==> running.explorer_tool is Some && tool_name == names.explorer@,
        stage is Execute <==> running.execute_tool is Some && tool_name == names.execute@,
        stage is Validate <==> running.validate_tool is Some && tool_name == names.validate@,
{
}

/// A call that the health check counts as rejected is never reported as a success.
pub proof fn law_rejected_call_is_no_success<P: Platform>(
    running: Running<P>,
    answer: CallAnswer,
    record: CallRecord,
)
    requires
        running.records(answer, record),
    ensures
        !(record.rejected && record.success),
{
}

/// A tool that cannot read its arguments answers the client, and so is not counted as rejected; but
/// the call is no success.
pub proof fn law_invalid_arguments_are_answered<P: Platform>(
    running: Running<P>,
    stage: CallStage,
    tool_name: Seq<char>,
    error: String,
    progress: CallProgress,
    record: CallRecord,
)
    requires
        stage.leads_to(tool_name, CallEvent::InvalidArguments(error), progress),
        progress matches CallProgress::Finished(answer) ==> running.records(answer, record),
    ensures
        progress matches CallProgress::Finished(Ok(_)),
        !record.rejected,
        !record.success,
{
}

/// A client that asks for no app gets the operations first, and all of them.
pub proof fn law_operations_are_listed_outside_of_apps<P: Platform, M, A>(
    running: Running<P>,
    app_target: Result<P::AppTarget, McpError>,
    make_private: M,
    attach_metadata: A,
    answer: Result<ListToolsResult, McpError>,
) where M: Fn(Tool) -> Tool, A: Fn(&App<P>, &P::AppTool, &P::AppTarget) -> Tool
    requires
        running.answers_list_tools(None, app_target, make_private, attach_metadata, answer),
    ensures
        answer matches Ok(list) ==> {
            &&& list.tools@.len() >= running.operations@.len()
            &&& list.tools@.take(running.operations@.len() as int) == operation_tools(
                running.operations@,
            )
        },
{
    if let Ok(list) = answer {
        let count = running.operations@.len() as int;
        assert(running.general_tools().take(count) =~= operation_tools(running.operations@));
    }
}

/// Whether a tool is one of an app, with its metadata for a kind of client, or the execute tool as
/// it is hidden from the model.
pub open spec fn is_tool_of_app<P: Platform, M, A>(
    running: Running<P>,
    app: App<P>,
    target: P::AppTarget,
    make_private: M,
    attach_metadata: A,
    tool: Tool,
) -> bool where M: Fn(Tool) -> Tool, A: Fn(&App<P>, &P::AppTool, &P::AppTarget) -> Tool {
    ||| running.execute_tool matches Some(execute) && call_ensures(make_private, (execute,), tool)
    ||| exists|app_tool: P::AppTool|
        {
            &&& #[trigger] app.tools@.contains(app_tool)
            &&& call_ensures(attach_metadata, (&app, &app_tool, &target), tool)
        }
}

/// A client that asks for an app gets only tools of the first app of that name, with its metadata,
/// and the execute tool, hidden from the model: no operation, no other built-in tool, and no tool
/// of another app.
pub proof fn law_an_app_lists_only_its_own_tools<P: Platform, M, A>(
    running: Running<P>,
    name: Seq<char>,
    target: P::AppTarget,
    make_private: M,
    attach_metadata: A,
    list: ListToolsResult,
    at: int,
) where M: Fn(Tool) -> Tool, A: Fn(&App<P>, &P::AppTool, &P::AppTarget) -> Tool
    requires
        running.answers_list_tools(Some(name), Ok(target), make_private, attach_metadata, Ok(list)),
        0 <= at < list.tools@.len(),
    ensures
        exists|place: int|
            {
                &&& #[trigger] is_first_named(running.apps@, name, place)
                &&& is_tool_of_app(
                    running,
                    running.apps@[place],
                    target,
                    make_private,
                    attach_metadata,
                    list.tools@[at],
                )
            },
{
    let place = choose|place: int|
        {
            &&& #[trigger] is_first_named(running.apps@, name, place)
            &&& running.lists_app_tools(
                running.apps@[place],
                target,
                make_private,
                attach_metadata,
                list.tools@,
            )
        };
    let app = running.apps@[place];
    let execute = optional_tool(running.execute_tool).len() as int;
    if at >= execute {
        let app_tool = app.tools@[at - execute];
        assert(call_ensures(attach_metadata, (&app, &app_tool, &target), list.tools@[at]));
        assert(app.tools@.contains(app_tool));
    }
}

/// An update of the schema or the operations changes nothing in the list of tools that a client who
/// asks for an app is answered.
pub proof fn law_updates_leave_the_tools_of_apps_alone<P: Platform, M, A>(
    before: Running<P>,
    after: Running<P>,
    name: Seq<char>,
    app_target: Result<P::AppTarget, McpError>,
    make_private: M,
    attach_metadata: A,
    answer: Result<ListToolsResult, McpError>,
) where M: Fn(Tool) -> Tool, A: Fn(&App<P>, &P::AppTool, &P::AppTarget) -> Tool
    requires
        after.serves_as(before),
        before.answers_list_tools(Some(name), app_target, make_private, attach_metadata, answer),
    ensures
        after.answers_list_tools(Some(name), app_target, make_private, attach_metadata, answer),
{
    if app_target is Ok && has_app(before.apps@, name) {
        let target = app_target->Ok_0;
        let tools = answer->Ok_0.tools@;
        let place = choose|place: int|
            {
                &&& #[trigger] is_first_named(before.apps@, name, place)
                &&& before.lists_app_tools(
                    before.apps@[place],
                    target,
                    make_private,
                    attach_metadata,
                    tools,
                )
            };
        assert(after.lists_app_tools(
            after.apps@[place],
            target,
            make_private,
            attach_metadata,
            tools,
        ));
        assert(is_first_named(after.apps@, name, place));
    }
}

/// A request for the list of tools is refused exactly where the kind of client is in doubt or the
/// client asks for an app that there is not.
pub proof fn law_list_of_tools_is_refused_only_for_apps<P: Platform, M, A>(
    running: Running<P>,
    app_name: Option<Seq<char>>,
    app_target: Result<P::AppTarget, McpError>,
    make_private: M,
    attach_metadata: A,
    answer: Result<ListToolsResult, McpError>,
) where M: Fn(Tool) -> Tool, A: Fn(&App<P>, &P::AppTool, &P::AppTarget) -> Tool
    requires
        running.answers_list_tools(app_name, app_target, make_private, attach_metadata, answer),
    ensures
        answer is Err <==> app_target is Err || (app_name matches Some(name) && !has_app(
            running.apps@,
            name,
        )),
{
}

} // verus!
