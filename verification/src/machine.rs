//! The machine that takes a server from state to state.

use crate::operation::compiles_to;
use crate::operation::raw_operations;
use crate::operation::Operation;
use crate::operation::OperationSettings;
use crate::operation::RawOperation;
use crate::platform::Platform;
use crate::running::Running;
use crate::schema::api_schema_definitions;
use crate::schema::federation_error_text;
use crate::schema::find_supergraph;
use crate::schema::generate_api_schema;
use crate::schema::parse_and_validate;
use crate::schema::reads_as_supergraph;
use crate::schema::schema_errors_text;
use crate::schema::supergraph_api;
use crate::schema::validated_schema;
use crate::schema::ApiSchema;
use crate::schema::SchemaState;
use crate::schema::SCHEMA_PATH;
use crate::states::Configuring;
use crate::states::OperationError;
use crate::states::OperationsConfigured;
use crate::states::SchemaConfigured;
use crate::states::Server;
use crate::states::ServerError;
use crate::states::Starting;
use crate::states::State;
use apollo_compiler::validation::Valid;
use apollo_compiler::validation::WithErrors;
use apollo_compiler::Schema;
use apollo_federation::error::FederationError;
use vstd::prelude::*;

verus! {

/// What a schema source reports.
pub enum SchemaEvent {
    /// There is a schema, new or changed.
    UpdateSchema(SchemaState),
    /// There will be no more schemas.
    NoMoreSchema,
}

/// What a server reacts to.
pub enum ServerEvent<P: Platform> {
    /// The schema source reports.
    SchemaUpdated(SchemaEvent),
    /// There are operations, new or changed.
    OperationsUpdated(Vec<RawOperation>),
    /// Operations could not be read from files.
    OperationError(P::FileError, P::FileOrigin),
    /// Operations could not be fetched from a collection.
    CollectionError(P::CollectionError),
    /// The server is asked to end.
    Shutdown,
}

/// What is left to do once a server has reacted to an event.
pub enum Effect<P: Platform> {
    /// Nothing.
    Nothing,
    /// Tell the clients that the list of tools has changed.
    NotifyToolListChanged,
    /// End the serving tasks.
    Cancel(P::CancellationToken),
}

/// Whether this is the error that a text without an API schema leads to: that of the supergraph
/// where the text is one, and that of the plain schema otherwise.
pub open spec fn is_schema_error<P: Platform>(sdl: Seq<char>, error: ServerError<P>) -> bool {
    if reads_as_supergraph(sdl) {
        &&& error matches ServerError::Federation(federation)
        &&& supergraph_api(sdl, false, false) == Err::<Seq<char>, Seq<char>>(
            federation_error_text(*federation),
        )
    } else {
        &&& error matches ServerError::GraphQLSchema(errors)
        &&& validated_schema(sdl, SCHEMA_PATH@) == Err::<Seq<char>, Seq<char>>(
            schema_errors_text(*errors),
        )
    }
}

impl<P: Platform> ServerError<P> {
    /// What is wrong with the schema, where the error is one of the schema.
    pub open spec fn schema_complaint(self) -> Option<Seq<char>> {
        match self {
            ServerError::Federation(error) => Some(federation_error_text(*error)),
            ServerError::GraphQLSchema(errors) => Some(schema_errors_text(*errors)),
            _ => None,
        }
    }
}

impl<P: Platform> State<P> {
    /// Whether this is what a new schema does to a server. A server that waits for it goes on to
    /// the next state, a running server takes it over, and one that is ending ignores it.
    pub open spec fn takes_schema<E, F>(
        self,
        schema: ApiSchema,
        compile: F,
        next: State<P>,
        effect: Effect<P>,
    ) -> bool where
        F: Fn(RawOperation, &ApiSchema, &OperationSettings<P>) -> Result<Option<Operation>, E>,
     {
        match self {
            State::Configuring(state) => {
                &&& next == State::SchemaConfigured(
                    SchemaConfigured { config: state.config, schema },
                )
                &&& effect is Nothing
            },
            State::SchemaConfigured(state) => {
                &&& next == State::SchemaConfigured(
                    SchemaConfigured { config: state.config, schema },
                )
                &&& effect is Nothing
            },
            State::OperationsConfigured(state) => {
                &&& next == State::Starting(
                    Starting { config: state.config, schema, operations: state.operations },
                )
                &&& effect is Nothing
            },
            State::Running(before) => {
                &&& next matches State::Running(after)
                &&& after.schema == schema
                &&& compiles_to(
                    compile,
                    raw_operations(before.operations@),
                    schema,
                    before.operation_settings,
                    after.operations@,
                )
                &&& after.serves_as(before)
                &&& effect is NotifyToolListChanged
            },
            _ => next == self && effect is Nothing,
        }
    }

    /// Whether this is what new operations do to a server.
    pub open spec fn takes_operations<E, F>(
        self,
        operations: Vec<RawOperation>,
        compile: F,
        next: State<P>,
        effect: Effect<P>,
    ) -> bool where
        F: Fn(RawOperation, &ApiSchema, &OperationSettings<P>) -> Result<Option<Operation>, E>,
     {
        match self {
            State::Configuring(state) => {
                &&& next == State::OperationsConfigured(
                    OperationsConfigured { config: state.config, operations },
                )
                &&& effect is Nothing
            },
            State::SchemaConfigured(state) => {
                &&& next == State::Starting(
                    Starting { config: state.config, schema: state.schema, operations },
                )
                &&& effect is Nothing
            },
            State::OperationsConfigured(state) => {
                &&& next == State::OperationsConfigured(
                    OperationsConfigured { config: state.config, operations },
                )
                &&& effect is Nothing
            },
            State::Running(before) => {
                &&& next matches State::Running(after)
                &&& after.schema == before.schema
                &&& compiles_to(
                    compile,
                    operations@,
                    before.schema,
                    before.operation_settings,
                    after.operations@,
                )
                &&& after.serves_as(before)
                &&& effect is NotifyToolListChanged
            },
            _ => next == self && effect is Nothing,
        }
    }

    /// Whether this is what an event does to a server.
    pub open spec fn reacts<E, F>(
        self,
        event: ServerEvent<P>,
        compile: F,
        next: State<P>,
        effect: Effect<P>,
    ) -> bool where
        F: Fn(RawOperation, &ApiSchema, &OperationSettings<P>) -> Result<Option<Operation>, E>,
     {
        match event {
            ServerEvent::SchemaUpdated(SchemaEvent::UpdateSchema(schema_state)) => {
                match api_schema_definitions(schema_state.sdl@) {
                    Some(definitions) => exists|schema: ApiSchema|
                        #[trigger] schema@ == definitions && self.takes_schema(
                            schema,
                            compile,
                            next,
                            effect,
                        ),
                    None => {
                        &&& next matches State::Error(error)
                        &&& is_schema_error(schema_state.sdl@, error)
                        &&& effect is Nothing
                    },
                }
            },
            ServerEvent::SchemaUpdated(SchemaEvent::NoMoreSchema) => {
                &&& next == (if self is Configuring || self is OperationsConfigured {
                    State::Error(ServerError::NoSchema)
                } else {
                    self
                })
                &&& effect is Nothing
            },
            ServerEvent::OperationsUpdated(operations) => {
                self.takes_operations(operations, compile, next, effect)
            },
            ServerEvent::OperationError(error, _) => {
                &&& next == State::<P>::Error(ServerError::Operation(OperationError::File(error)))
                &&& effect is Nothing
            },
            ServerEvent::CollectionError(error) => {
                &&& next == (if self is Running {
                    self
                } else {
                    State::Error(ServerError::Operation(OperationError::Collection(error)))
                })
                &&& effect is Nothing
            },
            ServerEvent::Shutdown => {
                &&& next is Stopping
                &&& effect == (match self {
                    State::Running(running) => Effect::<P>::Cancel(running.cancellation_token),
                    _ => Effect::Nothing,
                })
            },
        }
    }

    /// Whether the server is at its end: no more events are taken.
    pub open spec fn finished(self) -> bool {
        self is Error || self is Stopping
    }

    /// What the life of a server has come to, where this is its last state.
    pub open spec fn comes_to(self) -> Result<(), ServerError<P>> {
        match self {
            State::Error(error) => Err(error),
            _ => Ok(()),
        }
    }
}

/// Takes servers from state to state.
pub struct StateMachine {}

impl StateMachine {
    /// The state in which a server begins, with the sources that its events come from.
    pub fn begin<P: Platform>(server: Server<P>) -> (r: (
        State<P>,
        P::SchemaSource,
        P::OperationSource,
    ))
        ensures
            r.0 == State::Configuring(Configuring { config: server.config() }),
            r.1 == server.schema_source,
            r.2 == server.operation_source,
    {
        let (config, schema_source, operation_source) = server.into_config();
        (State::from(Configuring { config }), schema_source, operation_source)
    }

    /// The API schema of a supergraph, given what generating it has come to.
    pub fn api_schema_of_supergraph<P: Platform>(api: Result<Valid<Schema>, FederationError>) -> (r:
        Result<ApiSchema, ServerError<P>>)
        ensures
            r == (match api {
                Ok(document) => Ok::<ApiSchema, ServerError<P>>(ApiSchema { document }),
                Err(error) => Err(ServerError::Federation(Box::new(error))),
            }),
    {
        match api {
            Ok(document) => Ok(ApiSchema { document }),
            Err(error) => Err(ServerError::Federation(Box::new(error))),
        }
    }

    /// The API schema of a text that is not a supergraph, given what validating it has come to.
    pub fn api_schema_of_plain<P: Platform>(parsed: Result<Valid<Schema>, WithErrors<Schema>>) -> (r:
        Result<ApiSchema, ServerError<P>>)
        ensures
            r == (match parsed {
                Ok(document) => Ok::<ApiSchema, ServerError<P>>(ApiSchema { document }),
                Err(errors) => Err(ServerError::GraphQLSchema(Box::new(errors))),
            }),
    {
        match parsed {
            Ok(document) => Ok(ApiSchema { document }),
            Err(errors) => Err(ServerError::GraphQLSchema(Box::new(errors))),
        }
    }

    /// Turns the text of a schema into an API schema. A text that is not a supergraph is taken as
    /// a plain schema.
    pub fn sdl_to_api_schema<P: Platform>(schema_state: SchemaState) -> (r: Result<
        ApiSchema,
        ServerError<P>,
    >)
        ensures
            match api_schema_definitions(schema_state.sdl@) {
                Some(definitions) => r matches Ok(schema) && schema@ == definitions,
                None => r matches Err(error) && is_schema_error(schema_state.sdl@, error),
            },
    {
        match find_supergraph(schema_state.sdl.as_str()) {
            Some(supergraph) => Self::api_schema_of_supergraph(
                generate_api_schema(&supergraph, false, false),
            ),
            None => Self::api_schema_of_plain(
                parse_and_validate(schema_state.sdl.as_str(), SCHEMA_PATH),
            ),
        }
    }

    /// Gives a server a new schema.
    pub fn set_schema<P: Platform, E, F>(state: State<P>, schema: ApiSchema, compile: F) -> (r: (
        State<P>,
        Effect<P>,
    )) where
        F: Fn(RawOperation, &ApiSchema, &OperationSettings<P>) -> Result<Option<Operation>, E>,

        requires
            forall|args| #[trigger] call_requires(compile, args),
        ensures
            state.takes_schema(schema, compile, r.0, r.1),
    {
        match state {
            State::Configuring(configuring) => {
                (State::from(configuring.set_schema(schema)), Effect::Nothing)
            },
            State::SchemaConfigured(schema_configured) => {
                (State::from(schema_configured.set_schema(schema)), Effect::Nothing)
            },
            State::OperationsConfigured(operations_configured) => {
                (State::from(operations_configured.set_schema(schema)), Effect::Nothing)
            },
            State::Running(running) => {
                let mut running = running;
                running.update_schema(schema, compile);
                (State::from(running), Effect::NotifyToolListChanged)
            },
            other => (other, Effect::Nothing),
        }
    }

    /// Gives a server new operations.
    pub fn set_operations<P: Platform, E, F>(
        state: State<P>,
        operations: Vec<RawOperation>,
        compile: F,
    ) -> (r: (State<P>, Effect<P>)) where
        F: Fn(RawOperation, &ApiSchema, &OperationSettings<P>) -> Result<Option<Operation>, E>,

        requires
            forall|args| #[trigger] call_requires(compile, args),
        ensures
            state.takes_operations(operations, compile, r.0, r.1),
    {
        match state {
            State::Configuring(configuring) => {
                (State::from(configuring.set_operations(operations)), Effect::Nothing)
            },
            State::SchemaConfigured(schema_configured) => {
                (State::from(schema_configured.set_operations(operations)), Effect::Nothing)
            },
            State::OperationsConfigured(operations_configured) => {
                (State::from(operations_configured.set_operations(operations)), Effect::Nothing)
            },
            State::Running(running) => {
                let mut running = running;
                running.update_operations(operations, compile);
                (State::from(running), Effect::NotifyToolListChanged)
            },
            other => (other, Effect::Nothing),
        }
    }

    /// Gives a server a new schema, given what reading its text has come to. An error ends the
    /// server, whatever its state.
    pub fn take_schema<P: Platform, E, F>(
        state: State<P>,
        converted: Result<ApiSchema, ServerError<P>>,
        compile: F,
    ) -> (r: (State<P>, Effect<P>)) where
        F: Fn(RawOperation, &ApiSchema, &OperationSettings<P>) -> Result<Option<Operation>, E>,

        requires
            forall|args| #[trigger] call_requires(compile, args),
        ensures
            match converted {
                Ok(schema) => state.takes_schema(schema, compile, r.0, r.1),
                Err(error) => r.0 == State::Error(error) && r.1 is Nothing,
            },
    {
        match converted {
            Ok(schema) => Self::set_schema(state, schema, compile),
            Err(error) => (State::from(error), Effect::Nothing),
        }
    }

    /// Lets a server react to an event: gives its next state, and what is left to do.
    pub fn handle<P: Platform, E, F>(state: State<P>, event: ServerEvent<P>, compile: F) -> (r: (
        State<P>,
        Effect<P>,
    )) where
        F: Fn(RawOperation, &ApiSchema, &OperationSettings<P>) -> Result<Option<Operation>, E>,

        requires
            forall|args| #[trigger] call_requires(compile, args),
        ensures
            state.reacts(event, compile, r.0, r.1),
    {
        match event {
            ServerEvent::SchemaUpdated(SchemaEvent::UpdateSchema(schema_state)) => {
                Self::take_schema(state, Self::sdl_to_api_schema(schema_state), compile)
            },
            ServerEvent::SchemaUpdated(SchemaEvent::NoMoreSchema) => match state {
                State::Configuring(_) | State::OperationsConfigured(_) => (
                    State::Error(ServerError::NoSchema),
                    Effect::Nothing,
                ),
                other => (other, Effect::Nothing),
            },
            ServerEvent::OperationsUpdated(operations) => {
                Self::set_operations(state, operations, compile)
            },
            ServerEvent::OperationError(error, _) => (
                State::Error(ServerError::Operation(OperationError::File(error))),
                Effect::Nothing,
            ),
            ServerEvent::CollectionError(error) => match state {
                State::Running(running) => (State::from(running), Effect::Nothing),
                _ => (
                    State::Error(ServerError::Operation(OperationError::Collection(error))),
                    Effect::Nothing,
                ),
            },
            ServerEvent::Shutdown => match state {
                State::Running(running) => (
                    State::Stopping,
                    Effect::Cancel(running.cancellation_token),
                ),
                _ => (State::Stopping, Effect::Nothing),
            },
        }
    }

    /// The state of a server once it was started, given what starting it has come to.
    pub fn started<P: Platform>(result: Result<Running<P>, ServerError<P>>) -> (r: State<P>)
        ensures
            r == (match result {
                Ok(running) => State::Running(running),
                Err(error) => State::Error(error),
            }),
    {
        State::from(result)
    }

    /// Whether a server takes no more events.
    pub fn is_finished<P: Platform>(state: &State<P>) -> (r: bool)
        ensures
            r == state.finished(),
    {
        match state {
            State::Error(_) => true,
            State::Stopping => true,
            _ => false,
        }
    }

    /// What the life of a server has come to, given its last state: an error only where it ended
    /// with one.
    pub fn outcome<P: Platform>(state: State<P>) -> (r: Result<(), ServerError<P>>)
        ensures
            r == state.comes_to(),
    {
        match state {
            State::Error(error) => Err(error),
            _ => Ok(()),
        }
    }
}

} // verus!
