//! The states of a server, its configuration, and how one state follows from another.

use crate::operation::OperationSettings;
use crate::operation::RawOperation;
use crate::platform::Platform;
use crate::running::Running;
use crate::schema::ApiSchema;
use crate::server_info::ServerInfoConfig;
use apollo_compiler::validation::WithErrors;
use apollo_compiler::Schema;
use apollo_federation::error::FederationError;
use reqwest::header::HeaderMap;
use reqwest::header::HeaderValue;
use url::Url;
use vstd::prelude::*;
use vstd::std_specs::convert::FromSpecImpl;

verus! {

/// Common configuration options for the states.
pub struct Config<P: Platform> {
    pub transport: P::Transport,
    pub endpoint: Url,
    pub headers: HeaderMap<HeaderValue>,
    pub forward_headers: P::ForwardHeaders,
    pub execute_introspection: bool,
    pub validate_introspection: bool,
    pub introspect_introspection: bool,
    pub search_introspection: bool,
    pub introspect_minify: bool,
    pub search_minify: bool,
    pub explorer_graph_ref: Option<String>,
    pub execute_tool_hint: Option<String>,
    pub introspect_tool_hint: Option<String>,
    pub search_tool_hint: Option<String>,
    pub validate_tool_hint: Option<String>,
    pub operation_settings: OperationSettings<P>,
    pub disable_auth_token_passthrough: bool,
    pub search_leaf_depth: usize,
    pub index_memory_bytes: usize,
    pub health_check: P::HealthCheckConfig,
    pub cors: P::CorsConfig,
    pub server_info: ServerInfoConfig,
    pub header_transform: Option<P::HeaderTransform>,
}

/// A server as it is set up: where its schema and its operations come from, and its options.
pub struct Server<P: Platform> {
    pub schema_source: P::SchemaSource,
    pub operation_source: P::OperationSource,
    pub transport: P::Transport,
    pub endpoint: Url,
    pub headers: HeaderMap<HeaderValue>,
    pub forward_headers: P::ForwardHeaders,
    pub execute_introspection: bool,
    pub validate_introspection: bool,
    pub introspect_introspection: bool,
    pub search_introspection: bool,
    pub introspect_minify: bool,
    pub search_minify: bool,
    pub explorer_graph_ref: Option<String>,
    pub execute_tool_hint: Option<String>,
    pub introspect_tool_hint: Option<String>,
    pub search_tool_hint: Option<String>,
    pub validate_tool_hint: Option<String>,
    pub custom_scalar_map: Option<P::CustomScalarMap>,
    pub mutation_mode: P::MutationMode,
    pub disable_type_description: bool,
    pub disable_schema_description: bool,
    pub enable_output_schema: bool,
    pub disable_auth_token_passthrough: bool,
    pub search_leaf_depth: usize,
    pub index_memory_bytes: usize,
    pub health_check: P::HealthCheckConfig,
    pub cors: P::CorsConfig,
    pub server_info: ServerInfoConfig,
    pub header_transform: Option<P::HeaderTransform>,
}

impl<P: Platform> Server<P> {
    /// The configuration of the states: the options as they were set, those of the operations
    /// together.
    pub open spec fn config(self) -> Config<P> {
        Config {
            transport: self.transport,
            endpoint: self.endpoint,
            headers: self.headers,
            forward_headers: self.forward_headers,
            execute_introspection: self.execute_introspection,
            validate_introspection: self.validate_introspection,
            introspect_introspection: self.introspect_introspection,
            search_introspection: self.search_introspection,
            introspect_minify: self.introspect_minify,
            search_minify: self.search_minify,
            explorer_graph_ref: self.explorer_graph_ref,
            execute_tool_hint: self.execute_tool_hint,
            introspect_tool_hint: self.introspect_tool_hint,
            search_tool_hint: self.search_tool_hint,
            validate_tool_hint: self.validate_tool_hint,
            operation_settings: OperationSettings {
                custom_scalar_map: self.custom_scalar_map,
                mutation_mode: self.mutation_mode,
                disable_type_description: self.disable_type_description,
                disable_schema_description: self.disable_schema_description,
                enable_output_schema: self.enable_output_schema,
            },
            disable_auth_token_passthrough: self.disable_auth_token_passthrough,
            search_leaf_depth: self.search_leaf_depth,
            index_memory_bytes: self.index_memory_bytes,
            health_check: self.health_check,
            cors: self.cors,
            server_info: self.server_info,
            header_transform: self.header_transform,
        }
    }

    /// Parts the configuration of the states from the sources.
    pub fn into_config(self) -> (r: (Config<P>, P::SchemaSource, P::OperationSource))
        ensures
            r.0 == self.config(),
            r.1 == self.schema_source,
            r.2 == self.operation_source,
    {
        let config = Config {
            transport: self.transport,
            endpoint: self.endpoint,
            headers: self.headers,
            forward_headers: self.forward_headers,
            execute_introspection: self.execute_introspection,
            validate_introspection: self.validate_introspection,
            introspect_introspection: self.introspect_introspection,
            search_introspection: self.search_introspection,
            introspect_minify: self.introspect_minify,
            search_minify: self.search_minify,
            explorer_graph_ref: self.explorer_graph_ref,
            execute_tool_hint: self.execute_tool_hint,
            introspect_tool_hint: self.introspect_tool_hint,
            search_tool_hint: self.search_tool_hint,
            validate_tool_hint: self.validate_tool_hint,
            operation_settings: OperationSettings {
                custom_scalar_map: self.custom_scalar_map,
                mutation_mode: self.mutation_mode,
                disable_type_description: self.disable_type_description,
                disable_schema_description: self.disable_schema_description,
                enable_output_schema: self.enable_output_schema,
            },
            disable_auth_token_passthrough: self.disable_auth_token_passthrough,
            search_leaf_depth: self.search_leaf_depth,
            index_memory_bytes: self.index_memory_bytes,
            health_check: self.health_check,
            cors: self.cors,
            server_info: self.server_info,
            header_transform: self.header_transform,
        };
        (config, self.schema_source, self.operation_source)
    }
}

/// Why the operations could not be had.
pub enum OperationError<P: Platform> {
    File(P::FileError),
    Collection(P::CollectionError),
}

/// Why a server ended.
pub enum ServerError<P: Platform> {
    /// There is no schema, and none will come.
    NoSchema,
    /// The schema is a supergraph, from which no API schema can be generated.
    Federation(Box<FederationError>),
    /// The schema is neither a supergraph nor valid.
    GraphQLSchema(Box<WithErrors<Schema>>),
    /// The operations could not be had.
    Operation(OperationError<P>),
    /// The server could not be started.
    Start(P::StartError),
}

/// The server waits for a schema and for operations.
pub struct Configuring<P: Platform> {
    pub config: Config<P>,
}

/// The server has a schema and waits for operations.
pub struct SchemaConfigured<P: Platform> {
    pub config: Config<P>,
    pub schema: ApiSchema,
}

/// The server has operations and waits for a schema.
pub struct OperationsConfigured<P: Platform> {
    pub config: Config<P>,
    pub operations: Vec<RawOperation>,
}

/// The server has all it needs and is about to be started.
pub struct Starting<P: Platform> {
    pub config: Config<P>,
    pub schema: ApiSchema,
    pub operations: Vec<RawOperation>,
}

impl<P: Platform> Configuring<P> {
    /// The schema has come.
    pub fn set_schema(self, schema: ApiSchema) -> (r: SchemaConfigured<P>)
        ensures
            r == (SchemaConfigured { config: self.config, schema }),
    {
        SchemaConfigured { config: self.config, schema }
    }

    /// The operations have come.
    pub fn set_operations(self, operations: Vec<RawOperation>) -> (r: OperationsConfigured<P>)
        ensures
            r == (OperationsConfigured { config: self.config, operations }),
    {
        OperationsConfigured { config: self.config, operations }
    }
}

impl<P: Platform> SchemaConfigured<P> {
    /// Another schema has come, and takes the place of the first.
    pub fn set_schema(self, schema: ApiSchema) -> (r: SchemaConfigured<P>)
        ensures
            r == (SchemaConfigured { config: self.config, schema }),
    {
        SchemaConfigured { config: self.config, schema }
    }

    /// The operations have come.
    pub fn set_operations(self, operations: Vec<RawOperation>) -> (r: Starting<P>)
        ensures
            r == (Starting { config: self.config, schema: self.schema, operations }),
    {
        Starting { config: self.config, schema: self.schema, operations }
    }
}

impl<P: Platform> OperationsConfigured<P> {
    /// The schema has come.
    pub fn set_schema(self, schema: ApiSchema) -> (r: Starting<P>)
        ensures
            r == (Starting { config: self.config, schema, operations: self.operations }),
    {
        Starting { config: self.config, schema, operations: self.operations }
    }

    /// Other operations have come, and take the place of the first.
    pub fn set_operations(self, operations: Vec<RawOperation>) -> (r: OperationsConfigured<P>)
        ensures
            r == (OperationsConfigured { config: self.config, operations }),
    {
        OperationsConfigured { config: self.config, operations }
    }
}

/// The state of a server.
pub enum State<P: Platform> {
    Configuring(Configuring<P>),
    SchemaConfigured(SchemaConfigured<P>),
    OperationsConfigured(OperationsConfigured<P>),
    Starting(Starting<P>),
    Running(Running<P>),
    Error(ServerError<P>),
    Stopping,
}

impl<P: Platform> From<Configuring<P>> for State<P> {
    fn from(configuring: Configuring<P>) -> (r: Self) {
        State::Configuring(configuring)
    }
}

impl<P: Platform> FromSpecImpl<Configuring<P>> for State<P> {
    open spec fn obeys_from_spec() -> bool {
        true
    }

    open spec fn from_spec(configuring: Configuring<P>) -> Self {
        State::Configuring(configuring)
    }
}

impl<P: Platform> From<SchemaConfigured<P>> for State<P> {
    fn from(schema_configured: SchemaConfigured<P>) -> (r: Self) {
        State::SchemaConfigured(schema_configured)
    }
}

impl<P: Platform> FromSpecImpl<SchemaConfigured<P>> for State<P> {
    open spec fn obeys_from_spec() -> bool {
        true
    }

    open spec fn from_spec(schema_configured: SchemaConfigured<P>) -> Self {
        State::SchemaConfigured(schema_configured)
    }
}

impl<P: Platform> From<Result<SchemaConfigured<P>, ServerError<P>>> for State<P> {
    fn from(result: Result<SchemaConfigured<P>, ServerError<P>>) -> (r: Self) {
        match result {
            Ok(schema_configured) => State::SchemaConfigured(schema_configured),
            Err(error) => State::Error(error),
        }
    }
}

impl<P: Platform> FromSpecImpl<Result<SchemaConfigured<P>, ServerError<P>>> for State<P> {
    open spec fn obeys_from_spec() -> bool {
        true
    }

    open spec fn from_spec(result: Result<SchemaConfigured<P>, ServerError<P>>) -> Self {
        match result {
            Ok(schema_configured) => State::SchemaConfigured(schema_configured),
            Err(error) => State::Error(error),
        }
    }
}

impl<P: Platform> From<OperationsConfigured<P>> for State<P> {
    fn from(operations_configured: OperationsConfigured<P>) -> (r: Self) {
        State::OperationsConfigured(operations_configured)
    }
}

impl<P: Platform> FromSpecImpl<OperationsConfigured<P>> for State<P> {
    open spec fn obeys_from_spec() -> bool {
        true
    }

    open spec fn from_spec(operations_configured: OperationsConfigured<P>) -> Self {
        State::OperationsConfigured(operations_configured)
    }
}

impl<P: Platform> From<Result<OperationsConfigured<P>, ServerError<P>>> for State<P> {
    fn from(result: Result<OperationsConfigured<P>, ServerError<P>>) -> (r: Self) {
        match result {
            Ok(operations_configured) => State::OperationsConfigured(operations_configured),
            Err(error) => State::Error(error),
        }
    }
}

impl<P: Platform> FromSpecImpl<Result<OperationsConfigured<P>, ServerError<P>>> for State<P> {
    open spec fn obeys_from_spec() -> bool {
        true
    }

    open spec fn from_spec(result: Result<OperationsConfigured<P>, ServerError<P>>) -> Self {
        match result {
            Ok(operations_configured) => State::OperationsConfigured(operations_configured),
            Err(error) => State::Error(error),
        }
    }
}

impl<P: Platform> From<Starting<P>> for State<P> {
    fn from(starting: Starting<P>) -> (r: Self) {
        State::Starting(starting)
    }
}

impl<P: Platform> FromSpecImpl<Starting<P>> for State<P> {
    open spec fn obeys_from_spec() -> bool {
        true
    }

    open spec fn from_spec(starting: Starting<P>) -> Self {
        State::Starting(starting)
    }
}

impl<P: Platform> From<Result<Starting<P>, ServerError<P>>> for State<P> {
    fn from(result: Result<Starting<P>, ServerError<P>>) -> (r: Self) {
        match result {
            Ok(starting) => State::Starting(starting),
            Err(error) => State::Error(error),
        }
    }
}

impl<P: Platform> FromSpecImpl<Result<Starting<P>, ServerError<P>>> for State<P> {
    open spec fn obeys_from_spec() -> bool {
        true
    }

    open spec fn from_spec(result: Result<Starting<P>, ServerError<P>>) -> Self {
        match result {
            Ok(starting) => State::Starting(starting),
            Err(error) => State::Error(error),
        }
    }
}

impl<P: Platform> From<Running<P>> for State<P> {
    fn from(running: Running<P>) -> (r: Self) {
        State::Running(running)
    }
}

impl<P: Platform> FromSpecImpl<Running<P>> for State<P> {
    open spec fn obeys_from_spec() -> bool {
        true
    }

    open spec fn from_spec(running: Running<P>) -> Self {
        State::Running(running)
    }
}

impl<P: Platform> From<Result<Running<P>, ServerError<P>>> for State<P> {
    fn from(result: Result<Running<P>, ServerError<P>>) -> (r: Self) {
        match result {
            Ok(running) => State::Running(running),
            Err(error) => State::Error(error),
        }
    }
}

impl<P: Platform> FromSpecImpl<Result<Running<P>, ServerError<P>>> for State<P> {
    open spec fn obeys_from_spec() -> bool {
        true
    }

    open spec fn from_spec(result: Result<Running<P>, ServerError<P>>) -> Self {
        match result {
            Ok(running) => State::Running(running),
            Err(error) => State::Error(error),
        }
    }
}

impl<P: Platform> From<ServerError<P>> for State<P> {
    fn from(error: ServerError<P>) -> (r: Self) {
        State::Error(error)
    }
}

impl<P: Platform> FromSpecImpl<ServerError<P>> for State<P> {
    open spec fn obeys_from_spec() -> bool {
        true
    }

    open spec fn from_spec(error: ServerError<P>) -> Self {
        State::Error(error)
    }
}

} // verus!
