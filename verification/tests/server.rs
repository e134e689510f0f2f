use apollo_compiler::ExecutableDocument;
use apollo_compiler::Schema;
use mcp_server_states::apps::App;
use mcp_server_states::apps::Resource;
use mcp_server_states::error::McpError;
use mcp_server_states::error::INVALID_REQUEST;
use mcp_server_states::error::METHOD_NOT_FOUND;
use mcp_server_states::error::RESOURCE_NOT_FOUND;
use mcp_server_states::machine::Effect;
use mcp_server_states::machine::SchemaEvent;
use mcp_server_states::machine::ServerEvent;
use mcp_server_states::machine::StateMachine;
use mcp_server_states::operation::compile_operations;
use mcp_server_states::operation::keep_operations;
use mcp_server_states::operation::Operation;
use mcp_server_states::operation::OperationSettings;
use mcp_server_states::operation::RawOperation;
use mcp_server_states::platform::Platform;
use mcp_server_states::rendering::is_misrendered;
use mcp_server_states::request::app_parameter;
use mcp_server_states::request::first_value;
use mcp_server_states::resources::read_resource_begin;
use mcp_server_states::resources::read_resource_end;
use mcp_server_states::resources::resource_query;
use mcp_server_states::running::retain_peers;
use mcp_server_states::running::NotifyRound;
use mcp_server_states::running::PeerReport;
use mcp_server_states::running::Running;
use mcp_server_states::schema::ApiSchema;
use mcp_server_states::schema::SchemaState;
use mcp_server_states::server_info::ServerInfoConfig;
use mcp_server_states::server_info::DEFAULT_VERSION;
use mcp_server_states::states::Config;
use mcp_server_states::states::Configuring;
use mcp_server_states::states::OperationError;
use mcp_server_states::states::OperationsConfigured;
use mcp_server_states::states::SchemaConfigured;
use mcp_server_states::states::Server;
use mcp_server_states::states::ServerError;
use mcp_server_states::states::Starting;
use mcp_server_states::states::State;
use mcp_server_states::tool_call::CallEvent;
use mcp_server_states::tool_call::CallProgress;
use mcp_server_states::tool_call::CallStage;
use mcp_server_states::tool_call::CallToolResult;
use mcp_server_states::tool_call::Content;
use mcp_server_states::tool_call::ToolNames;
use mcp_server_states::words::split_words;
use reqwest::header::HeaderMap;
use reqwest::header::HeaderValue;
use rmcp::model::ErrorCode;
use rmcp::model::JsonObject;
use rmcp::model::ResourceContents;
use rmcp::model::Tool;

struct TestPlatform {}

#[derive(Debug, PartialEq)]
enum CollectionError {
    InvalidVariables(String),
    Response(String),
}

#[derive(Debug, PartialEq)]
enum AppTarget {
    AppsSdk,
    McpApps,
}

impl Platform for TestPlatform {
    type SchemaSource = &'static str;
    type OperationSource = u16;
    type Transport = ();
    type ForwardHeaders = Vec<String>;
    type HeaderTransform = (&'static str, &'static str);
    type RequestParts = HeaderMap;
    type CustomScalarMap = ();
    type MutationMode = u8;
    type HealthCheckConfig = ();
    type HealthCheck = ();
    type CorsConfig = ();
    type CancellationToken = u32;
    type Peer = u64;
    type AppTool = Tool;
    type AppManifest = ();
    type AppTarget = AppTarget;
    type FileError = String;
    type FileOrigin = Option<String>;
    type CollectionError = CollectionError;
    type StartError = String;
}

type TestState = State<TestPlatform>;
type TestSettings = OperationSettings<TestPlatform>;

const RESOURCE_URI: &str = "http://localhost:4000/resource#1234";

const SUPERGRAPH: &str = r#"
schema
  @link(url: "https://specs.apollo.dev/link/v1.0")
  @link(url: "https://specs.apollo.dev/join/v0.3", for: EXECUTION)
  @link(url: "https://specs.apollo.dev/inaccessible/v0.2", for: SECURITY)
{
  query: Query
}
directive @inaccessible on FIELD_DEFINITION | OBJECT | INTERFACE | UNION | ARGUMENT_DEFINITION | SCALAR | ENUM | ENUM_VALUE | INPUT_OBJECT | INPUT_FIELD_DEFINITION
directive @join__enumValue(graph: join__Graph!) repeatable on ENUM_VALUE
directive @join__field(graph: join__Graph, requires: join__FieldSet, provides: join__FieldSet, type: String, external: Boolean, override: String, usedOverridden: Boolean) repeatable on FIELD_DEFINITION | INPUT_FIELD_DEFINITION
directive @join__graph(name: String!, url: String!) on ENUM_VALUE
directive @join__implements(graph: join__Graph!, interface: String!) repeatable on OBJECT | INTERFACE
directive @join__type(graph: join__Graph!, key: join__FieldSet, extension: Boolean! = false, resolvable: Boolean! = true, isInterfaceObject: Boolean! = false) repeatable on OBJECT | INTERFACE | UNION | ENUM | INPUT_OBJECT | SCALAR
directive @join__unionMember(graph: join__Graph!, member: String!) repeatable on UNION
directive @link(url: String, as: String, for: link__Purpose, import: [link__Import]) repeatable on SCHEMA
scalar join__FieldSet
enum join__Graph {
  A @join__graph(name: "a", url: "http://a")
}
scalar link__Import
enum link__Purpose {
  SECURITY
  EXECUTION
}
"#;

fn tool(name: &str) -> Tool {
    Tool::new(name.to_string(), "a description", JsonObject::new())
}

fn api_schema(sdl: &str) -> ApiSchema {
    ApiSchema {
        document: Schema::parse_and_validate(sdl, "schema.graphql").unwrap(),
    }
}

fn settings() -> TestSettings {
    OperationSettings {
        custom_scalar_map: None,
        mutation_mode: 0,
        disable_type_description: false,
        disable_schema_description: false,
        enable_output_schema: false,
    }
}

// Accepts named operations that are valid for the schema, and makes no tool of mutations.
fn compile(
    raw: RawOperation,
    schema: &ApiSchema,
    settings: &TestSettings,
) -> Result<Option<Operation>, String> {
    let document =
        ExecutableDocument::parse_and_validate(&schema.document, raw.source_text.as_str(), "op")
            .map_err(|errors| errors.to_string())?;
    let operation = document
        .operations
        .iter()
        .next()
        .ok_or("no operation".to_string())?;
    if operation.is_mutation() && settings.mutation_mode == 0 {
        return Ok(None);
    }
    let name = operation.name.clone().ok_or("no name".to_string())?;
    Ok(Some(Operation {
        inner: raw,
        tool: tool(name.as_str()),
    }))
}

fn raw(text: &str, path: &str) -> RawOperation {
    RawOperation::from((text.to_string(), Some(path.to_string())))
}

fn running(sdl: &str) -> Running<TestPlatform> {
    Running {
        schema: api_schema(sdl),
        operations: vec![],
        operation_settings: settings(),
        apps: vec![],
        headers: HeaderMap::new(),
        forward_headers: vec![],
        endpoint: "http://localhost:4000".parse().unwrap(),
        execute_tool: None,
        introspect_tool: None,
        search_tool: None,
        explorer_tool: None,
        validate_tool: None,
        peers: vec![],
        cancellation_token: 7,
        disable_auth_token_passthrough: false,
        header_transform: None,
        health_check: None,
        server_info: ServerInfoConfig::default(),
    }
}

fn create_running_server() -> Running<TestPlatform> {
    running("type Query { id: String }")
}

fn running_with_apps() -> Running<TestPlatform> {
    let mut server = create_running_server();
    server.apps = vec![App {
        name: "MyApp".to_string(),
        tools: vec![tool("GetId")],
        resource: Resource {
            uri: RESOURCE_URI.to_string(),
            name: "MyApp".to_string(),
            title: None,
            description: None,
            mime_type: None,
        },
        manifest: (),
    }];
    server
}

fn test_config() -> Config<TestPlatform> {
    Config {
        transport: (),
        endpoint: "http://localhost:4000".parse().unwrap(),
        headers: HeaderMap::new(),
        forward_headers: vec![],
        execute_introspection: false,
        validate_introspection: false,
        introspect_introspection: false,
        search_introspection: false,
        introspect_minify: false,
        search_minify: false,
        explorer_graph_ref: None,
        execute_tool_hint: None,
        introspect_tool_hint: None,
        search_tool_hint: None,
        validate_tool_hint: None,
        operation_settings: settings(),
        disable_auth_token_passthrough: false,
        search_leaf_depth: 5,
        index_memory_bytes: 1024 * 1024,
        health_check: (),
        cors: (),
        server_info: ServerInfoConfig::default(),
        header_transform: None,
    }
}

fn test_server() -> Server<TestPlatform> {
    Server {
        schema_source: "schemas",
        operation_source: 99,
        transport: (),
        endpoint: "http://localhost:4000".parse().unwrap(),
        headers: HeaderMap::new(),
        forward_headers: vec![],
        execute_introspection: false,
        validate_introspection: false,
        introspect_introspection: false,
        search_introspection: false,
        introspect_minify: false,
        search_minify: false,
        explorer_graph_ref: None,
        execute_tool_hint: None,
        introspect_tool_hint: None,
        search_tool_hint: None,
        validate_tool_hint: None,
        custom_scalar_map: None,
        mutation_mode: 0,
        disable_type_description: false,
        disable_schema_description: false,
        enable_output_schema: false,
        disable_auth_token_passthrough: false,
        search_leaf_depth: 5,
        index_memory_bytes: 1024 * 1024,
        health_check: (),
        cors: (),
        server_info: ServerInfoConfig::default(),
        header_transform: None,
    }
}

fn begin() -> TestState {
    StateMachine::begin(test_server()).0
}

fn schema_event(sdl: &str) -> ServerEvent<TestPlatform> {
    ServerEvent::SchemaUpdated(SchemaEvent::UpdateSchema(SchemaState {
        sdl: sdl.to_string(),
    }))
}

fn no_more_schema() -> ServerEvent<TestPlatform> {
    ServerEvent::SchemaUpdated(SchemaEvent::NoMoreSchema)
}

fn process_event(state: TestState, event: ServerEvent<TestPlatform>) -> TestState {
    StateMachine::handle(state, event, compile).0
}

fn error(code: i32, message: &str) -> McpError {
    McpError {
        code,
        message: message.to_string(),
        data: None,
    }
}

// The name of the tool followed by a mark of what was done to it.
fn make_private(tool_listed: Tool) -> Tool {
    tool(&format!("{} (private)", tool_listed.name))
}

fn attach(app: &App<TestPlatform>, app_tool: &Tool, target: &AppTarget) -> Tool {
    let mut attached = app_tool.clone();
    attached.title = Some(format!("{} {:?}", app.name, target));
    attached
}

fn names_of(tools: &[Tool]) -> Vec<String> {
    tools.iter().map(|tool| tool.name.to_string()).collect()
}

fn query_of(uri: &str) -> Option<String> {
    let uri: axum::http::Uri = uri.parse().unwrap();
    uri.query().map(|query| query.to_string())
}

fn list(
    server: &Running<TestPlatform>,
    uri: &str,
    target: Result<AppTarget, McpError>,
) -> Result<Vec<Tool>, McpError> {
    let query = query_of(uri);
    server
        .list_tools_impl(query.as_deref(), target, make_private, attach)
        .map(|result| {
            assert_eq!(result.next_cursor, None);
            result.tools
        })
}

fn tool_names() -> ToolNames {
    ToolNames {
        introspect: "introspect".to_string(),
        search: "search".to_string(),
        explorer: "explorer".to_string(),
        execute: "execute".to_string(),
        validate: "validate".to_string(),
    }
}

fn answer(is_error: Option<bool>) -> CallToolResult {
    CallToolResult {
        content: vec![],
        structured_content: None,
        is_error,
        meta: None,
    }
}

// States

#[test]
fn operations_updated_keeps_server_running() {
    let state = State::Running(create_running_server());
    let event = ServerEvent::OperationsUpdated(vec![RawOperation::from((
        "query Valid { id }".to_string(),
        Some("valid.graphql".to_string()),
    ))]);
    let new_state = process_event(state, event);
    assert!(
        matches!(new_state, State::Running(_)),
        "expected server to remain Running after operations update"
    );
}

#[test]
fn collection_error_keeps_running_server_alive() {
    let state = State::Running(create_running_server());
    let event = ServerEvent::CollectionError(CollectionError::InvalidVariables(
        r#"not valid json"#.to_string(),
    ));
    let new_state = process_event(state, event);
    assert!(
        matches!(new_state, State::Running(_)),
        "expected server to remain Running after CollectionError"
    );
}

#[test]
fn collection_api_error_keeps_running_server_alive() {
    let state = State::Running(create_running_server());
    let event = ServerEvent::CollectionError(CollectionError::Response("missing data".to_string()));
    let new_state = process_event(state, event);
    assert!(
        matches!(new_state, State::Running(_)),
        "expected server to remain Running after API collection error"
    );
}

#[test]
fn collection_error_during_startup_is_fatal() {
    let event = ServerEvent::CollectionError(CollectionError::InvalidVariables(
        r#"bad json"#.to_string(),
    ));
    let state = State::Configuring(Configuring {
        config: test_config(),
    });
    let new_state = process_event(state, event);
    assert!(
        matches!(new_state, State::Error(_)),
        "expected CollectionError during startup to be fatal"
    );
    match new_state {
        State::Error(ServerError::Operation(OperationError::Collection(error))) => {
            assert_eq!(error, CollectionError::InvalidVariables("bad json".to_string()))
        }
        _ => panic!("expected the collection's own error"),
    }
}

#[test]
fn schema_and_operations_may_come_in_either_order() {
    let operations = || vec![raw("query Valid { id }", "valid.graphql")];
    let sdl = "type Query { id: String }";

    let state = begin();
    let state = process_event(state, schema_event(sdl));
    assert!(matches!(state, State::SchemaConfigured(_)));
    let schema_first = process_event(state, ServerEvent::OperationsUpdated(operations()));

    let state = begin();
    let state = process_event(state, ServerEvent::OperationsUpdated(operations()));
    assert!(matches!(state, State::OperationsConfigured(_)));
    let operations_first = process_event(state, schema_event(sdl));

    match (schema_first, operations_first) {
        (State::Starting(one), State::Starting(other)) => {
            assert_eq!(one.schema.sdl(), other.schema.sdl());
            assert_eq!(one.schema.document, other.schema.document);
            assert_eq!(one.operations.len(), 1);
            assert_eq!(other.operations.len(), 1);
            assert_eq!(one.operations[0].source_text, "query Valid { id }");
            assert_eq!(other.operations[0].source_text, "query Valid { id }");
            assert_eq!(one.config.search_leaf_depth, 5);
            assert_eq!(other.config.search_leaf_depth, 5);
        }
        _ => panic!("expected both servers to start"),
    }
}

#[test]
fn what_comes_last_counts() {
    let state = begin();
    let state = process_event(state, schema_event("type Query { a: String }"));
    let state = process_event(state, schema_event("type Query { b: String }"));
    match process_event(state, ServerEvent::OperationsUpdated(vec![])) {
        State::Starting(starting) => {
            assert_eq!(starting.schema.sdl(), "type Query {\n  b: String\n}\n")
        }
        _ => panic!("expected the server to start"),
    }

    let state = begin();
    let state = process_event(state, ServerEvent::OperationsUpdated(vec![raw("one", "1")]));
    let state = process_event(state, ServerEvent::OperationsUpdated(vec![raw("two", "2")]));
    match process_event(state, schema_event("type Query { b: String }")) {
        State::Starting(starting) => {
            assert_eq!(starting.operations.len(), 1);
            assert_eq!(starting.operations[0].source_text, "two");
            assert_eq!(starting.operations[0].source_path, Some("2".to_string()));
        }
        _ => panic!("expected the server to start"),
    }
}

#[test]
fn a_server_that_waits_for_a_schema_ends_without_one() {
    let state = begin();
    assert!(matches!(
        process_event(state, no_more_schema()),
        State::Error(ServerError::NoSchema)
    ));

    let state = begin();
    let state = process_event(state, ServerEvent::OperationsUpdated(vec![]));
    assert!(matches!(
        process_event(state, no_more_schema()),
        State::Error(ServerError::NoSchema)
    ));

    let state = begin();
    let state = process_event(state, schema_event("type Query { id: String }"));
    assert!(matches!(
        process_event(state, no_more_schema()),
        State::SchemaConfigured(_)
    ));

    let state = State::Running(create_running_server());
    assert!(matches!(
        process_event(state, no_more_schema()),
        State::Running(_)
    ));
}

#[test]
fn operations_that_cannot_be_read_end_a_running_server() {
    let state = State::Running(create_running_server());
    let event = ServerEvent::OperationError("gone".to_string(), None);
    match process_event(state, event) {
        State::Error(ServerError::Operation(OperationError::File(error))) => {
            assert_eq!(error, "gone")
        }
        _ => panic!("expected the error of the file"),
    }
}

#[test]
fn an_unusable_schema_ends_a_running_server() {
    let state = State::Running(create_running_server());
    assert!(matches!(
        process_event(state, schema_event("type Query {")),
        State::Error(ServerError::GraphQLSchema(_))
    ));
}

#[test]
fn a_server_ends_with_the_error_of_its_schema() {
    let sdl = "type Query { id: Missing }";
    let state = State::Running(create_running_server());
    let (state, effect) = StateMachine::handle(state, schema_event(sdl), compile);
    assert!(matches!(effect, Effect::Nothing));
    let text = Schema::parse_and_validate(sdl, "schema.graphql").unwrap_err().to_string();
    assert!(text.contains("schema.graphql"));
    match StateMachine::outcome(state) {
        Err(ServerError::GraphQLSchema(errors)) => assert_eq!(errors.to_string(), text),
        _ => panic!("expected the error of the schema"),
    }

    let sdl =
        format!("{SUPERGRAPH} type Query @join__type(graph: A) {{ hidden: Int @inaccessible }}");
    let text = apollo_federation::Supergraph::new_with_router_specs(&sdl)
        .ok()
        .unwrap()
        .to_api_schema(apollo_federation::ApiSchemaOptions::default())
        .err()
        .unwrap()
        .to_string();
    match StateMachine::outcome(process_event(begin(), schema_event(&sdl))) {
        Err(ServerError::Federation(error)) => assert_eq!(error.to_string(), text),
        _ => panic!("expected the error of the supergraph"),
    }
}

#[test]
fn what_reading_a_schema_comes_to_decides() {
    let converted = Ok(api_schema("type Query { other: Int }"));
    let state = State::Running(create_running_server());
    let (state, effect) = StateMachine::take_schema(state, converted, compile);
    assert!(matches!(effect, Effect::NotifyToolListChanged));
    match state {
        State::Running(server) => assert_eq!(server.schema.sdl(), "type Query {\n  other: Int\n}\n"),
        _ => panic!("expected the server to keep running"),
    }

    let converted = Err(ServerError::Start("bad".to_string()));
    let state = State::Running(create_running_server());
    let (state, effect) = StateMachine::take_schema(state, converted, compile);
    assert!(matches!(effect, Effect::Nothing));
    match state {
        State::Error(ServerError::Start(error)) => assert_eq!(error, "bad"),
        _ => panic!("expected the error of reading the schema"),
    }
}

#[test]
fn a_server_begins_as_it_was_set_up() {
    let mut server = test_server();
    server.endpoint = "http://localhost:1".parse().unwrap();
    server.headers.insert("x-set", HeaderValue::from_static("a"));
    server.forward_headers = vec!["x-client".to_string()];
    server.validate_introspection = true;
    server.search_introspection = true;
    server.introspect_minify = true;
    server.explorer_graph_ref = Some("graph".to_string());
    server.execute_tool_hint = Some("execute".to_string());
    server.introspect_tool_hint = Some("introspect".to_string());
    server.search_tool_hint = Some("search".to_string());
    server.validate_tool_hint = Some("validate".to_string());
    server.custom_scalar_map = Some(());
    server.mutation_mode = 3;
    server.disable_schema_description = true;
    server.index_memory_bytes = 17;
    server.server_info.name = Some("name".to_string());
    server.header_transform = Some(("x-late", "1"));

    let (state, schema_source, operation_source) = StateMachine::begin(server);
    assert_eq!(schema_source, "schemas");
    assert_eq!(operation_source, 99);
    let config = match state {
        State::Configuring(configuring) => configuring.config,
        _ => panic!("expected the server to wait for its configuration"),
    };
    assert_eq!(config.endpoint.as_str(), "http://localhost:1/");
    assert_eq!(config.headers.get("x-set").unwrap(), "a");
    assert_eq!(config.forward_headers, vec!["x-client"]);
    assert!(!config.execute_introspection);
    assert!(config.validate_introspection);
    assert!(!config.introspect_introspection);
    assert!(config.search_introspection);
    assert!(config.introspect_minify);
    assert!(!config.search_minify);
    assert_eq!(config.explorer_graph_ref, Some("graph".to_string()));
    assert_eq!(config.execute_tool_hint, Some("execute".to_string()));
    assert_eq!(config.introspect_tool_hint, Some("introspect".to_string()));
    assert_eq!(config.search_tool_hint, Some("search".to_string()));
    assert_eq!(config.validate_tool_hint, Some("validate".to_string()));
    assert_eq!(config.operation_settings.custom_scalar_map, Some(()));
    assert_eq!(config.operation_settings.mutation_mode, 3);
    assert!(!config.operation_settings.disable_type_description);
    assert!(config.operation_settings.disable_schema_description);
    assert!(!config.operation_settings.enable_output_schema);
    assert!(!config.disable_auth_token_passthrough);
    assert_eq!(config.search_leaf_depth, 5);
    assert_eq!(config.index_memory_bytes, 17);
    assert_eq!(config.server_info.name, Some("name".to_string()));
    assert_eq!(config.header_transform, Some(("x-late", "1")));
}

#[test]
fn shutdown_stops_and_cancels_what_runs() {
    let state = State::Running(create_running_server());
    let (state, effect) = StateMachine::handle(state, ServerEvent::Shutdown, compile);
    assert!(matches!(state, State::Stopping));
    assert!(matches!(effect, Effect::Cancel(7)));

    let state: TestState = begin();
    let (state, effect) = StateMachine::handle(state, ServerEvent::Shutdown, compile);
    assert!(matches!(state, State::Stopping));
    assert!(matches!(effect, Effect::Nothing));
}

#[test]
fn clients_are_told_only_of_updates_of_a_running_server() {
    let event = || ServerEvent::OperationsUpdated(vec![]);
    let state = State::Running(create_running_server());
    let (_, effect) = StateMachine::handle(state, event(), compile);
    assert!(matches!(effect, Effect::NotifyToolListChanged));

    let state = State::Running(create_running_server());
    let (_, effect) =
        StateMachine::handle(state, schema_event("type Query { a: Int }"), compile);
    assert!(matches!(effect, Effect::NotifyToolListChanged));

    let (_, effect) = StateMachine::handle(begin(), event(), compile);
    assert!(matches!(effect, Effect::Nothing));

    let state = State::Running(create_running_server());
    let (_, effect) = StateMachine::handle(
        state,
        ServerEvent::CollectionError(CollectionError::Response("x".to_string())),
        compile,
    );
    assert!(matches!(effect, Effect::Nothing));
}

#[test]
fn a_finished_server_ignores_updates() {
    let state: TestState = State::Stopping;
    assert!(matches!(
        process_event(state, ServerEvent::OperationsUpdated(vec![])),
        State::Stopping
    ));
    let state: TestState = State::Error(ServerError::NoSchema);
    assert!(matches!(
        process_event(state, schema_event("type Query { id: String }")),
        State::Error(ServerError::NoSchema)
    ));
}

#[test]
fn starting_leaves_a_server_running_or_failed() {
    assert!(matches!(
        StateMachine::started(Ok(create_running_server())),
        State::Running(_)
    ));
    let failed: TestState = StateMachine::started(Err(ServerError::Start("address in use".to_string())));
    match StateMachine::outcome(failed) {
        Err(ServerError::Start(error)) => assert_eq!(error, "address in use"),
        _ => panic!("expected the error of the start"),
    }
}

#[test]
fn a_life_from_configuration_to_shutdown() {
    let mut state = begin();
    let events = vec![
        schema_event("type Query { id: String }"),
        ServerEvent::OperationsUpdated(vec![raw("query A { id }", "a")]),
        no_more_schema(),
        ServerEvent::CollectionError(CollectionError::Response("x".to_string())),
        ServerEvent::OperationsUpdated(vec![raw("query B { id }", "b")]),
        schema_event("type Query { other: String }"),
        ServerEvent::Shutdown,
    ];
    let mut running_counts = vec![];
    for event in events {
        assert!(!StateMachine::is_finished(&state));
        state = match process_event(state, event) {
            State::Starting(starting) => {
                let mut server = create_running_server();
                server.schema = starting.schema;
                server.update_operations(starting.operations, compile);
                StateMachine::started(Ok(server))
            }
            other => other,
        };
        if let State::Running(server) = &state {
            running_counts.push(server.operations.len());
        }
    }
    assert_eq!(running_counts, vec![1, 1, 1, 1, 0]);
    assert!(StateMachine::is_finished(&state));
    assert!(StateMachine::outcome(state).is_ok());
}

#[test]
fn only_errors_and_stopping_finish_a_server() {
    assert!(StateMachine::is_finished::<TestPlatform>(&State::Stopping));
    assert!(StateMachine::is_finished::<TestPlatform>(&State::Error(
        ServerError::NoSchema
    )));
    assert!(!StateMachine::is_finished(&State::Running(create_running_server())));
    assert!(!StateMachine::is_finished(&begin()));
    assert!(StateMachine::outcome::<TestPlatform>(State::Stopping).is_ok());
    assert!(StateMachine::outcome(begin()).is_ok());
    assert!(StateMachine::outcome::<TestPlatform>(State::Error(ServerError::NoSchema)).is_err());
}

#[test]
fn states_are_made_of_what_led_to_them() {
    let config = test_config;
    let schema = || api_schema("type Query { id: String }");
    assert!(matches!(
        State::from(Configuring { config: config() }),
        State::Configuring(_)
    ));
    let schema_configured = || SchemaConfigured {
        config: config(),
        schema: schema(),
    };
    assert!(matches!(
        State::from(schema_configured()),
        State::SchemaConfigured(_)
    ));
    assert!(matches!(
        State::from(Ok::<_, ServerError<TestPlatform>>(schema_configured())),
        State::SchemaConfigured(_)
    ));
    let operations_configured = || OperationsConfigured {
        config: config(),
        operations: vec![],
    };
    assert!(matches!(
        State::from(operations_configured()),
        State::OperationsConfigured(_)
    ));
    assert!(matches!(
        State::from(Ok::<_, ServerError<TestPlatform>>(operations_configured())),
        State::OperationsConfigured(_)
    ));
    let starting = || Starting {
        config: config(),
        schema: schema(),
        operations: vec![],
    };
    assert!(matches!(State::from(starting()), State::Starting(_)));
    assert!(matches!(
        State::from(Ok::<_, ServerError<TestPlatform>>(starting())),
        State::Starting(_)
    ));
    assert!(matches!(
        State::from(create_running_server()),
        State::Running(_)
    ));
    assert!(matches!(
        TestState::from(ServerError::NoSchema),
        State::Error(ServerError::NoSchema)
    ));
    assert!(matches!(
        TestState::from(Err::<SchemaConfigured<TestPlatform>, _>(ServerError::NoSchema)),
        State::Error(ServerError::NoSchema)
    ));
    assert!(matches!(
        TestState::from(Err::<OperationsConfigured<TestPlatform>, _>(ServerError::NoSchema)),
        State::Error(ServerError::NoSchema)
    ));
    assert!(matches!(
        TestState::from(Err::<Starting<TestPlatform>, _>(ServerError::NoSchema)),
        State::Error(ServerError::NoSchema)
    ));
    assert!(matches!(
        TestState::from(Err::<Running<TestPlatform>, _>(ServerError::NoSchema)),
        State::Error(ServerError::NoSchema)
    ));
}

// Schemas

fn sdl_to_api_schema(sdl: &str) -> Result<ApiSchema, ServerError<TestPlatform>> {
    StateMachine::sdl_to_api_schema(SchemaState {
        sdl: sdl.to_string(),
    })
}

#[test]
fn a_plain_schema_is_its_own_api_schema() {
    match sdl_to_api_schema("type Query { id: String } \n type Unused { a: Int }") {
        Ok(schema) => assert_eq!(
            schema.sdl(),
            "type Query {\n  id: String\n}\n\ntype Unused {\n  a: Int\n}\n"
        ),
        Err(_) => panic!("expected a schema"),
    }
}

#[test]
fn a_supergraph_is_reduced_to_its_api_schema() {
    let sdl = format!(
        "{SUPERGRAPH} type Query @join__type(graph: A) {{ id: String hidden: Int @inaccessible }}"
    );
    match sdl_to_api_schema(&sdl) {
        Ok(schema) => assert_eq!(schema.sdl(), "type Query {\n  id: String\n}\n"),
        Err(_) => panic!("expected a schema"),
    }
}

#[test]
fn a_supergraph_without_an_api_schema_is_refused() {
    let sdl =
        format!("{SUPERGRAPH} type Query @join__type(graph: A) {{ hidden: Int @inaccessible }}");
    assert!(matches!(
        sdl_to_api_schema(&sdl),
        Err(ServerError::Federation(_))
    ));
}

#[test]
fn a_text_that_is_no_schema_is_refused() {
    assert!(matches!(
        sdl_to_api_schema("type Query { id: Missing }"),
        Err(ServerError::GraphQLSchema(_))
    ));
    assert!(matches!(
        sdl_to_api_schema(""),
        Err(ServerError::GraphQLSchema(_))
    ));
}

#[test]
fn values_of_a_supergraph_are_coerced() {
    let sdl = format!(
        "{SUPERGRAPH} type Query @join__type(graph: \"A\") {{ id: String hidden: Int @inaccessible }}"
    );
    assert!(Schema::parse_and_validate(sdl.as_str(), "schema.graphql").is_err());
    match sdl_to_api_schema(&sdl) {
        Ok(schema) => assert_eq!(schema.sdl(), "type Query {\n  id: String\n}\n"),
        Err(_) => panic!("expected a schema"),
    }
}

#[test]
fn a_supergraph_may_hold_any_characters() {
    let sdl = format!(
        "{SUPERGRAPH} \"d\u{e9}j\u{e0} vu\" type Query @join__type(graph: A) {{ id: String hidden: Int @inaccessible }}"
    );
    match sdl_to_api_schema(&sdl) {
        Ok(schema) => assert_eq!(
            schema.sdl(),
            "\"\"\"d\u{e9}j\u{e0} vu\"\"\"\ntype Query {\n  id: String\n}\n"
        ),
        Err(_) => panic!("expected a schema"),
    }
}

#[test]
fn errors_without_a_place_in_a_text_are_no_obstacle() {
    let short = "\u{e9}".repeat(100);
    let long = "\u{e9}".repeat(200);
    let texts = [
        format!("\"{short}\" interface Node {{ xyz: ID }} extend type __Type implements Node type Query {{ a: Int }}"),
        format!("\"{long}\"  type Mutation {{ a: Int }} extend schema {{ query: Mutation }}"),
        format!("\"{long}\" scalar S enum E {{ A }} directive @d(e: E) on OBJECT type Query @d(e: \"B\") {{ a: Int }}"),
        format!("\"{long}\" directive @foo(x: String @deprecated) on SCALAR extend scalar String @foo type Query {{ a: Int }}"),
        format!("\"{long}\" type Query {{ a: Int @deprecated(reason: \"\\q\") }}"),
    ];
    for text in texts {
        assert!(matches!(
            sdl_to_api_schema(&text),
            Err(ServerError::GraphQLSchema(_))
        ));
        let state = State::Running(create_running_server());
        assert!(matches!(
            process_event(state, schema_event(&text)),
            State::Error(ServerError::GraphQLSchema(_))
        ));
    }
}

#[test]
fn a_misrendered_text_is_taken_as_it_stands() {
    let rest = "type Query @join__type(graph: A) { id: String hidden: Int @inaccessible } \
        interface Named { name: String } extend type __Type implements Named";
    let plain = format!("{SUPERGRAPH} {rest}");
    match sdl_to_api_schema(&plain) {
        Ok(schema) => assert!(!schema.sdl().contains("hidden")),
        Err(_) => panic!("expected a schema"),
    }
    let accented = format!("{SUPERGRAPH} \"\u{e9}\" {rest}");
    match sdl_to_api_schema(&accented) {
        Ok(schema) => assert!(schema.sdl().contains("hidden")),
        Err(_) => panic!("expected a schema"),
    }
}

#[test]
fn errors_of_an_api_schema_without_a_place_are_no_obstacle() {
    let long = "\u{e9}".repeat(3000);
    let extended = format!(
        "{SUPERGRAPH} \"{long}\" type Query @join__type(graph: A) {{ a: Int }} interface Base {{ x: Int }} type join__Impl implements Base {{ x: Int }} interface I {{ f: Base }} extend type __Type implements I {{ f: join__Impl }}"
    );
    assert!(is_misrendered(&extended));
    assert!(sdl_to_api_schema(&extended).is_ok());
    let replaced = format!(
        "{SUPERGRAPH} directive @deprecated(reason: E) on FIELD_DEFINITION type Query @join__type(graph: A) {{ a: Int @deprecated(reason: \"B\") }} \"{long}\" scalar S @join__type(graph: A) enum E @join__type(graph: A) {{ A @join__enumValue(graph: A) B @join__enumValue(graph: A) @inaccessible }}"
    );
    assert!(is_misrendered(&replaced));
    assert!(matches!(
        sdl_to_api_schema(&replaced),
        Err(ServerError::GraphQLSchema(_))
    ));
}

#[test]
fn misrendered_texts_are_told_by_their_words() {
    let told = |text: &str| is_misrendered(&format!("\u{e9} {text}"));
    assert!(told("extend type __Type implements Node"));
    assert!(told("extend,type # a comment\n\u{feff}__Type\timplements&Node"));
    assert!(told("\"a \\\" b\" \"\" extend type __Schema implements Node"));
    assert!(told("\"\"\"a \\\"\"\" \\\\ \"\" b\"\"\" extend type __Schema implements Node"));
    assert!(told("directive @deprecated(reason: Reason) on ENUM_VALUE"));
    assert!(told("directive @specifiedBy(a: String @b(c: 1), urls: [Url!]) on SCALAR"));

    assert!(!is_misrendered("extend type __Type implements Node"));
    assert!(!told("extend type Type implements Node"));
    assert!(!told("extend type __Type { a: Int }"));
    assert!(!told("extend type __Type @tag { a: Int } type A implements Node { a: Int }"));
    assert!(!told("extend interface __Type implements Node"));
    assert!(!told("extend type __Type # implements Node"));
    assert!(!told("\"extend type __Type implements Node\""));
    assert!(!told("\"\"\" \" extend type __Type implements Node \\\"\"\" \"\"\""));
    assert!(!told("directive @deprecated(reason: String = \"a\") on ENUM_VALUE enum E { A }"));
    assert!(!told("directive @deprecated on ENUM_VALUE input I { e: E }"));
    assert!(!told("directive @other(reason: Reason) on ENUM_VALUE"));
    assert!(!told(""));
}

#[test]
fn words_are_what_separators_leave() {
    let split = |text: &str| -> Vec<String> {
        split_words(text)
            .iter()
            .map(|word| word.iter().collect())
            .collect()
    };
    assert_eq!(
        split("type A{b(c:[D!]):E @f}"),
        vec!["type", "A", "{", "b", "(", "c", ":", "[", "D", "!", "]", ")", ":", "E", "@", "f", "}"]
    );
    assert_eq!(split("a,b # c\r\n\td_1"), vec!["a", "b", "d_1"]);
    assert_eq!(split("\"a # b\\\"\" c"), vec!["\"a # b\\\"\"", "c"]);
    assert_eq!(split("\"\"\"\"\"\" c"), vec!["\"\"\"\"\"\"", "c"]);
    assert_eq!(split("\"open"), vec!["\"open"]);
    assert_eq!(split(" \u{feff}"), Vec::<String>::new());
}

#[test]
fn outcomes_of_reading_a_schema_are_passed_on() {
    let document = || Schema::parse_and_validate("type Query { id: Int }", "x").unwrap();
    let errors = || Schema::parse_and_validate("type", "x").unwrap_err();
    let plain: Result<ApiSchema, ServerError<TestPlatform>> =
        StateMachine::api_schema_of_plain(Ok(document()));
    match plain {
        Ok(schema) => assert_eq!(schema.document, document()),
        Err(_) => panic!("expected a schema"),
    }
    let refused: Result<ApiSchema, ServerError<TestPlatform>> =
        StateMachine::api_schema_of_plain(Err(errors()));
    match refused {
        Err(ServerError::GraphQLSchema(reported)) => {
            assert_eq!(reported.to_string(), errors().to_string())
        }
        _ => panic!("expected the errors of the schema"),
    }
    let api: Result<ApiSchema, ServerError<TestPlatform>> =
        StateMachine::api_schema_of_supergraph(Ok(document()));
    assert!(api.is_ok());
    let failed = apollo_federation::Supergraph::new_with_router_specs("type").err().unwrap();
    let text = failed.to_string();
    let refused: Result<ApiSchema, ServerError<TestPlatform>> =
        StateMachine::api_schema_of_supergraph(Err(failed));
    match refused {
        Err(ServerError::Federation(reported)) => assert_eq!(reported.to_string(), text),
        _ => panic!("expected the error of the supergraph"),
    }
}

// Operations

#[test]
fn invalid_operations_should_not_crash_server() {
    let mut running = running("type Query { id: String }");
    let new_operations = vec![
        RawOperation::from((
            "query Valid { id }".to_string(),
            Some("valid.graphql".to_string()),
        )),
        RawOperation::from((
            "query Invalid {{ id }".to_string(),
            Some("invalid.graphql".to_string()),
        )),
        RawOperation::from((
            "query { id }".to_string(),
            Some("unnamed.graphql".to_string()),
        )),
    ];
    running.update_operations(new_operations, compile);
    assert_eq!(running.operations.len(), 1);
    assert_eq!(running.operations.first().unwrap().as_ref().name, "Valid");
}

#[test]
fn changing_schema_invalidates_outdated_operations() {
    let mut running = running("type Query { data: String, something: String }");
    let operations = vec![
        RawOperation::from((
            "query Valid { data }".to_string(),
            Some("valid.graphql".to_string()),
        )),
        RawOperation::from((
            "query WillBeStale { something }".to_string(),
            Some("invalid.graphql".to_string()),
        )),
    ];
    running.update_operations(operations, compile);
    assert_eq!(running.operations.len(), 2);

    let new_schema = Schema::parse("type Query { data: String }", "schema.graphql")
        .unwrap()
        .validate()
        .unwrap();
    running.update_schema(
        ApiSchema {
            document: new_schema.clone(),
        },
        compile,
    );
    assert_eq!(running.schema.document, new_schema);
    assert_eq!(running.operations.len(), 1);
    assert_eq!(running.operations[0].as_ref().name, "Valid");
    assert_eq!(
        running.operations.remove(0).into_inner().source_path,
        Some("valid.graphql".to_string())
    );
}

#[test]
fn dropped_operations_never_come_back() {
    let mut server = running("type Query { a: Int, b: Int, c: Int }");
    server.update_operations(
        vec![raw("query A { a }", "a"), raw("query B { b }", "b"), raw("query C { c }", "c")],
        compile,
    );
    let paths = |server: &Running<TestPlatform>| -> Vec<String> {
        server
            .operations
            .iter()
            .map(|operation| operation.inner.source_path.clone().unwrap())
            .collect()
    };
    server.update_schema(api_schema("type Query { a: Int, c: Int }"), compile);
    assert_eq!(paths(&server), vec!["a", "c"]);
    server.update_schema(api_schema("type Query { a: Int, b: Int, c: Int }"), compile);
    assert_eq!(paths(&server), vec!["a", "c"]);
}

#[test]
fn updates_leave_the_rest_of_a_running_server_alone() {
    let mut server = running_with_apps();
    server.peers = vec![1, 2];
    server.execute_tool = Some(tool("execute"));
    server.update_operations(vec![raw("query A { id }", "a")], compile);
    assert_eq!(server.schema.sdl(), "type Query {\n  id: String\n}\n");
    server.update_schema(api_schema("type Query { id: Int }"), compile);
    assert_eq!(server.schema.sdl(), "type Query {\n  id: Int\n}\n");
    assert_eq!(server.peers, vec![1, 2]);
    assert_eq!(server.apps.len(), 1);
    assert_eq!(server.cancellation_token, 7);
    assert_eq!(server.execute_tool.unwrap().name, "execute");
}

#[test]
fn the_compiler_gets_the_settings_of_the_server() {
    let schema = api_schema("type Query { id: String } type Mutation { set: Int }");
    let mutations = || vec![raw("mutation Set { set }", "set"), raw("query Get { id }", "get")];
    let operations = compile_operations(mutations(), &schema, &settings(), compile);
    assert_eq!(operations.len(), 1);
    assert_eq!(operations[0].as_ref().name, "Get");
    let mut all = settings();
    all.mutation_mode = 1;
    let operations = compile_operations(mutations(), &schema, &all, compile);
    assert_eq!(operations.len(), 2);
    assert_eq!(operations[0].as_ref().name, "Set");
}

#[test]
fn replies_that_are_no_operation_are_left_out() {
    let operation = |name: &str| Operation {
        inner: raw(name, name),
        tool: tool(name),
    };
    let kept = keep_operations(vec![
        Ok(Some(operation("a"))),
        Err("bad"),
        Ok(None),
        Ok(Some(operation("b"))),
    ]);
    assert_eq!(kept.len(), 2);
    assert_eq!(kept[0].inner.source_text, "a");
    assert_eq!(kept[1].inner.source_text, "b");
}

// Clients

#[test]
fn unreachable_clients_are_dropped() {
    let reports = vec![
        PeerReport::Notified,
        PeerReport::Closed,
        PeerReport::OtherError,
        PeerReport::TransportSend,
        PeerReport::TransportClosed,
        PeerReport::Notified,
    ];
    assert_eq!(retain_peers(vec![1, 2, 3, 4, 5, 6], &reports), vec![1, 3, 6]);

    let mut server = create_running_server();
    server.peers = vec![10, 20];
    server.notify_tool_list_changed(&vec![PeerReport::TransportClosed, PeerReport::Notified]);
    assert_eq!(server.peers, vec![20]);
}

#[test]
fn a_round_deals_with_each_client_once() {
    let mut round = NotifyRound::begin();
    let mut dealt_with = vec![];
    while let Some(place) = round.next(3) {
        dealt_with.push(place);
        let closed = place == 1;
        if round.tells(closed) {
            assert_ne!(place, 1);
            round.told(PeerReport::Notified);
        }
    }
    assert_eq!(dealt_with, vec![0, 1, 2]);
    assert_eq!(round.reports.len(), 3);
    assert!(matches!(round.reports[0], PeerReport::Notified));
    assert!(matches!(round.reports[1], PeerReport::Closed));
    assert!(matches!(round.reports[2], PeerReport::Notified));
    assert_eq!(NotifyRound::begin().next(0), None);
}

#[test]
fn a_welcomed_client_is_told_and_sees_the_update() {
    let mut server = server_with_all_tools();
    server.peers = vec![1];
    server.initialize(2);
    let event = ServerEvent::OperationsUpdated(vec![raw("query New { id }", "new")]);
    let (state, effect) = StateMachine::handle(State::Running(server), event, compile);
    assert!(matches!(effect, Effect::NotifyToolListChanged));
    let mut server = match state {
        State::Running(server) => server,
        _ => panic!("expected the server to keep running"),
    };
    assert_eq!(server.peers, vec![1, 2]);
    let tools = list(&server, "http://localhost", Ok(AppTarget::AppsSdk)).ok().unwrap();
    assert_eq!(tools[0].name, "New");
    assert_eq!(tools[1].name, "execute");

    server.notify_tool_list_changed(&vec![PeerReport::Closed, PeerReport::Notified]);
    assert_eq!(server.peers, vec![2]);
    assert_eq!(server.operations.len(), 1);
    assert_eq!(server.schema.sdl(), "type Query {\n  id: String\n}\n");
    assert_eq!(server.cancellation_token, 7);
    assert_eq!(server.apps.len(), 1);
}

#[test]
fn a_new_client_is_welcomed_and_remembered() {
    let mut server = create_running_server();
    server.peers = vec![1];
    let info = server.initialize(2);
    assert_eq!(server.peers, vec![1, 2]);
    assert_eq!(info.server_info.name, "Apollo MCP Server");
}

#[test]
fn get_info_should_use_default_metadata_when_config_is_empty() {
    let running = running("type Query { id: String }");
    let info = running.get_info();
    assert_eq!(info.server_info.name, "Apollo MCP Server");
    assert_eq!(info.server_info.version, DEFAULT_VERSION);
    assert_eq!(info.server_info.version, "1.0.0");
    assert_eq!(
        info.server_info.title,
        Some("Apollo MCP Server".to_string())
    );
    assert_eq!(
        info.server_info.website_url,
        Some("https://www.apollographql.com/docs/apollo-mcp-server".to_string())
    );
    assert_eq!(
        info.server_info.description,
        Some(
            "A Model Context Protocol (MCP) server for exposing GraphQL APIs as tools.".to_string()
        )
    );
    assert_eq!(info.server_info.icons, None);
}

#[test]
fn get_info_should_use_custom_metadata_when_config_provided() {
    let mut running = running("type Query { id: String }");
    running.server_info = ServerInfoConfig {
        name: Some("My Custom Server".to_string()),
        version: Some("3.0.0-beta".to_string()),
        title: Some("Custom GraphQL Server".to_string()),
        website_url: Some("https://my-server.example.com/docs".to_string()),
        description: Some("A custom MCP server for testing".to_string()),
    };
    let info = running.get_info();
    assert_eq!(info.server_info.name, "My Custom Server");
    assert_eq!(info.server_info.version, "3.0.0-beta");
    assert_eq!(
        info.server_info.title,
        Some("Custom GraphQL Server".to_string())
    );
    assert_eq!(
        info.server_info.website_url,
        Some("https://my-server.example.com/docs".to_string())
    );
    assert_eq!(
        info.server_info.description,
        Some("A custom MCP server for testing".to_string())
    );
}

#[test]
fn resources_are_offered_only_with_apps() {
    let info = create_running_server().get_info();
    assert_eq!(info.capabilities.tools.unwrap().list_changed, Some(true));
    assert!(info.capabilities.resources.is_none());
    assert_eq!(
        create_running_server().list_resources_impl().ok().unwrap().resources.len(),
        0
    );

    let info = running_with_apps().get_info();
    assert_eq!(info.capabilities.tools.unwrap().list_changed, Some(true));
    let resources = info.capabilities.resources.unwrap();
    assert_eq!(resources.subscribe, None);
    assert_eq!(resources.list_changed, None);
}

// Resources

#[test]
fn resource_list_includes_app_resources() {
    let resources = running_with_apps().list_resources_impl().ok().unwrap().resources;
    assert_eq!(resources.len(), 1);
    assert_eq!(resources[0].uri, RESOURCE_URI);
}

#[test]
fn resource_list_attaches_mcp_apps_mime_type() {
    let resources = running_with_apps().list_resources_impl().ok().unwrap().resources;
    assert_eq!(resources.len(), 1);
    assert_eq!(
        resources[0].mime_type,
        Some("text/html;profile=mcp-app".into())
    );
}

#[test]
fn getting_resource_from_running_with_invalid_uri() {
    let result = read_resource_begin("not a uri", Ok(AppTarget::McpApps));
    match result {
        Err(refusal) => {
            assert_eq!(refusal.code, RESOURCE_NOT_FOUND);
            assert_eq!(
                refusal.message,
                "Requested resource has an invalid URI: relative URL without a base"
            );
            assert!(refusal.data.is_none());
        }
        Ok(_) => panic!("expected the URI to be refused"),
    }
}

#[test]
fn read_resource_impl_returns_error_for_invalid_app_target() {
    let result = read_resource_begin::<AppTarget>(
        "http://localhost:4000/resource",
        Err(error(INVALID_REQUEST, "invalid target")),
    );
    assert_eq!(result.err().unwrap().message, "invalid target");
}

#[test]
fn an_invalid_uri_is_refused_before_an_invalid_target() {
    let result: Result<_, McpError> =
        resource_query::<AppTarget>(Err("bad".to_string()), Err(error(1, "target")));
    assert_eq!(
        result.err().unwrap().message,
        "Requested resource has an invalid URI: bad"
    );
}

#[test]
fn a_resource_is_looked_for_by_its_normal_uri() {
    let query = read_resource_begin("HTTP://LOCALHOST:80/a/../resource#x", Ok(AppTarget::AppsSdk))
        .ok()
        .unwrap();
    assert_eq!(query.uri, "http://localhost/resource#x");
    assert_eq!(query.target, AppTarget::AppsSdk);
}

#[test]
fn the_same_lookups_are_answered_the_same() {
    let begin = |uri: &str| read_resource_begin(uri, Ok(AppTarget::McpApps)).ok().unwrap();
    assert_eq!(begin(RESOURCE_URI).target, AppTarget::McpApps);
    assert_eq!(begin("http://localhost:4000/resource").target, AppTarget::McpApps);
    let refused = |uri: &str| {
        read_resource_begin::<AppTarget>(uri, Err(error(INVALID_REQUEST, "invalid target")))
            .err()
            .unwrap()
            .message
    };
    assert_eq!(refused(RESOURCE_URI), "invalid target");
    assert_eq!(refused("http://localhost:4000/resource"), "invalid target");
    assert_eq!(
        refused("not a uri"),
        "Requested resource has an invalid URI: relative URL without a base"
    );

    let found = || Ok(ResourceContents::text("text", RESOURCE_URI));
    let one = read_resource_end(found()).ok().unwrap();
    let other = read_resource_end(found()).ok().unwrap();
    assert_eq!(one.contents, other.contents);
}

#[test]
fn a_found_resource_is_the_only_content() {
    let resource = ResourceContents::text("text", RESOURCE_URI);
    let result = read_resource_end(Ok(resource.clone())).ok().unwrap();
    assert_eq!(result.contents, vec![resource]);
    let refused = read_resource_end(Err(error(RESOURCE_NOT_FOUND, "none")));
    assert_eq!(refused.err().unwrap().message, "none");
}

// Lists of tools

#[test]
fn list_tools_without_app_parameter() {
    let running = running_with_apps();
    let result = running
        .list_tools_impl(None, Ok(AppTarget::AppsSdk), make_private, attach)
        .ok()
        .unwrap();
    assert_eq!(result.tools.len(), 0);
    assert_eq!(result.next_cursor, None);
}

#[test]
fn list_tools_with_valid_app_parameter() {
    let running = running_with_apps();
    let query = query_of("http://localhost?app=MyApp");
    let result = running
        .list_tools_impl(query.as_deref(), Ok(AppTarget::AppsSdk), make_private, attach)
        .ok()
        .unwrap();
    assert_eq!(result.tools.len(), 1);
    assert_eq!(result.tools[0].name, "GetId");
    assert_eq!(result.next_cursor, None);
}

#[test]
fn list_tools_with_nonexistent_app_parameter() {
    let result = list(
        &running_with_apps(),
        "http://localhost?app=NonExistent",
        Ok(AppTarget::AppsSdk),
    );
    assert!(result.is_err());
    let refusal = result.err().unwrap();
    assert_eq!(refusal.code, INVALID_REQUEST);
    assert_eq!(refusal.message, "App NonExistent not found");
    assert!(refusal.data.is_none());
}

#[test]
fn list_tools_with_invalid_app_target_returns_error() {
    let result = list(
        &running_with_apps(),
        "http://localhost?app=MyApp&appTarget=invalid",
        Err(error(INVALID_REQUEST, "invalid target")),
    );
    assert!(result.is_err());
    assert_eq!(result.err().unwrap().message, "invalid target");

    let result = list(
        &running_with_apps(),
        "http://localhost?app=NonExistent&appTarget=invalid",
        Err(error(INVALID_REQUEST, "invalid target")),
    );
    assert_eq!(result.err().unwrap().message, "invalid target");
}

fn server_with_all_tools() -> Running<TestPlatform> {
    let mut server = running_with_apps();
    server.update_operations(
        vec![raw("query One { id }", "1"), raw("query Two { id }", "2")],
        compile,
    );
    server.execute_tool = Some(tool("execute"));
    server.introspect_tool = Some(tool("introspect"));
    server.search_tool = Some(tool("search"));
    server.explorer_tool = Some(tool("explorer"));
    server.validate_tool = Some(tool("validate"));
    server
}

#[test]
fn tools_are_listed_in_order() {
    let server = server_with_all_tools();
    let tools = list(&server, "http://localhost/mcp?x=y", Ok(AppTarget::AppsSdk)).ok().unwrap();
    assert_eq!(
        names_of(&tools),
        vec![
            "One",
            "Two",
            "execute",
            "introspect",
            "search",
            "explorer",
            "validate"
        ]
    );
    assert_eq!(tools[2], tool("execute"));
}

#[test]
fn an_app_sees_its_tools_and_a_private_execute_tool() {
    let server = server_with_all_tools();
    let tools = list(&server, "http://localhost?app=MyApp", Ok(AppTarget::McpApps)).ok().unwrap();
    assert_eq!(
        names_of(&tools),
        vec!["execute (private)", "GetId"]
    );
    assert_eq!(tools[1].title, Some("MyApp McpApps".to_string()));

    let mut server = server;
    server.execute_tool = None;
    let tools = list(&server, "http://localhost?app=MyApp", Ok(AppTarget::McpApps)).ok().unwrap();
    assert_eq!(names_of(&tools), vec!["GetId"]);
}

#[test]
fn updates_leave_the_tools_of_an_app_alone() {
    let mut server = server_with_all_tools();
    let listed = |server: &Running<TestPlatform>| {
        list(server, "http://localhost?app=MyApp", Ok(AppTarget::McpApps)).ok().unwrap()
    };
    let before = listed(&server);
    server.update_operations(vec![raw("query Three { id }", "3")], compile);
    assert_eq!(listed(&server), before);
    server.update_schema(api_schema("type Query { other: Int }"), compile);
    assert_eq!(listed(&server), before);
}

#[test]
fn the_first_app_of_a_name_counts() {
    let mut server = running_with_apps();
    let mut second = running_with_apps().apps.remove(0);
    second.tools = vec![tool("Other")];
    server.apps.push(second);
    let list = server
        .list_tools_for(
            Some("MyApp".to_string()),
            Ok(AppTarget::AppsSdk),
            make_private,
            attach,
        )
        .ok()
        .unwrap();
    assert_eq!(names_of(&list.tools), vec!["GetId"]);
}

#[test]
fn the_app_parameter_is_decoded() {
    assert_eq!(app_parameter(None), None);
    assert_eq!(app_parameter(Some("")), None);
    assert_eq!(app_parameter(Some("apps=a&App=b")), None);
    assert_eq!(
        app_parameter(Some("x=1&app=My%20App+2&app=Other")),
        Some("My App 2".to_string())
    );
    assert_eq!(app_parameter(Some("a%70p=x")), Some("x".to_string()));
    assert_eq!(app_parameter(Some("app")), Some("".to_string()));
}

#[test]
fn the_first_value_of_a_name_counts() {
    let pair = |name: &str, value: &str| (name.to_string(), value.to_string());
    let pairs = vec![pair("a", "1"), pair("app", "2"), pair("app", "3")];
    assert_eq!(first_value(&pairs, "app"), Some("2".to_string()));
    assert_eq!(first_value(&pairs, "b"), None);
}

// Headers

fn build_headers(
    configured: &HeaderMap<HeaderValue>,
    forward: &Vec<String>,
    request: &HeaderMap,
    disable_auth: bool,
    transform: Option<&(&'static str, &'static str)>,
) -> HeaderMap<HeaderValue> {
    assert!(disable_auth);
    assert_eq!(transform, Some(&("x-late", "1")));
    let mut headers = configured.clone();
    for name in forward {
        if let Some(value) = request.get(name.as_str()) {
            headers.insert("x-forwarded", value.clone());
        }
    }
    headers
}

fn transform_headers(
    change: &(&'static str, &'static str),
    mut headers: HeaderMap<HeaderValue>,
) -> HeaderMap<HeaderValue> {
    headers.insert(change.0, HeaderValue::from_static(change.1));
    headers
}

#[test]
fn headers_come_from_the_configuration_and_the_request() {
    let mut server = create_running_server();
    server.headers.insert("x-set", HeaderValue::from_static("a"));
    server.headers.append("x-set", HeaderValue::from_static("b"));

    let mut secret = HeaderValue::from_static("s");
    secret.set_sensitive(true);
    server.headers.insert("x-secret", secret);

    let plain = server.request_headers(None, build_headers, transform_headers);
    assert_eq!(plain, server.headers);
    assert!(plain.get("x-secret").unwrap().is_sensitive());
    assert!(!plain.get("x-set").unwrap().is_sensitive());
    assert_eq!(plain.get_all("x-set").iter().count(), 2);

    server.header_transform = Some(("x-late", "1"));
    let changed = server.request_headers(None, build_headers, transform_headers);
    assert_eq!(changed.get("x-late").unwrap(), "1");
    assert_eq!(changed.get_all("x-set").iter().count(), 2);

    server.disable_auth_token_passthrough = true;
    server.forward_headers = vec!["x-client".to_string()];
    let mut request = HeaderMap::new();
    request.insert("x-client", HeaderValue::from_static("c"));
    let built = server.request_headers(Some(&request), build_headers, transform_headers);
    assert_eq!(built.get("x-forwarded").unwrap(), "c");
    assert_eq!(built.get("x-late"), None);
}

// Calls of tools

#[test]
fn codes_are_those_of_the_protocol() {
    assert_eq!(INVALID_REQUEST, ErrorCode::INVALID_REQUEST.0);
    assert_eq!(METHOD_NOT_FOUND, ErrorCode::METHOD_NOT_FOUND.0);
    assert_eq!(RESOURCE_NOT_FOUND, ErrorCode::RESOURCE_NOT_FOUND.0);
}

#[test]
fn built_in_tools_take_their_calls_where_they_are_on() {
    let server = server_with_all_tools();
    let names = tool_names();
    assert!(matches!(
        server.begin_call(&names, "introspect", None),
        CallStage::Introspect
    ));
    assert!(matches!(
        server.begin_call(&names, "search", None),
        CallStage::Search
    ));
    assert!(matches!(
        server.begin_call(&names, "explorer", None),
        CallStage::Explorer
    ));
    assert!(matches!(
        server.begin_call(&names, "execute", None),
        CallStage::Execute
    ));
    assert!(matches!(
        server.begin_call(&names, "validate", None),
        CallStage::Validate
    ));
    assert!(matches!(
        server.begin_call(&names, "One", None),
        CallStage::Operation(None)
    ));
    assert!(matches!(
        create_running_server().begin_call(&names, "execute", None),
        CallStage::Operation(None)
    ));
}

#[test]
fn a_call_knows_the_app_the_client_asked_for() {
    let server = running_with_apps();
    match server.begin_call(&tool_names(), "GetId", Some("app=MyApp")) {
        CallStage::Operation(app) => assert_eq!(app, Some("MyApp".to_string())),
        _ => panic!("expected a lookup among the operations"),
    }
    match server.route_call(&tool_names(), "GetId", Some("MyApp".to_string())) {
        CallStage::Operation(app) => assert_eq!(app, Some("MyApp".to_string())),
        _ => panic!("expected a lookup among the operations"),
    }
}

#[test]
fn an_unknown_tool_is_refused() {
    let stage = CallStage::Operation(Some("MyApp".to_string()));
    let next = match stage.advance("Nope", CallEvent::NotFound) {
        CallProgress::Continue(next) => next,
        CallProgress::Finished(_) => panic!("expected the app to be asked"),
    };
    match &next {
        CallStage::AppTool(app) => assert_eq!(app, "MyApp"),
        _ => panic!("expected the app to be asked"),
    }
    for stage in [next, CallStage::Operation(None)] {
        match stage.advance("Nope", CallEvent::NotFound) {
            CallProgress::Finished(Err(refusal)) => {
                assert_eq!(refusal.code, METHOD_NOT_FOUND);
                assert_eq!(refusal.message, "Tool Nope not found");
                assert!(refusal.data.is_none());
            }
            _ => panic!("expected the call to be refused"),
        }
    }
}

#[test]
fn what_a_tool_answers_is_answered() {
    let stage = CallStage::Operation(Some("MyApp".to_string()));
    match stage.advance("One", CallEvent::Answered(Ok(answer(Some(false))))) {
        CallProgress::Finished(Ok(result)) => assert_eq!(result.is_error, Some(false)),
        _ => panic!("expected the answer of the tool"),
    }
    match CallStage::Execute.advance("execute", CallEvent::Answered(Err(error(3, "no")))) {
        CallProgress::Finished(Err(refusal)) => assert_eq!(refusal.message, "no"),
        _ => panic!("expected the refusal of the tool"),
    }
}

#[test]
fn arguments_that_cannot_be_read_are_answered() {
    let event = CallEvent::InvalidArguments("missing field".to_string());
    let server = create_running_server();
    match CallStage::Search.advance("search", event) {
        CallProgress::Finished(Ok(result)) => {
            assert_eq!(result.is_error, Some(true));
            assert_eq!(result.content.len(), 1);
            match &result.content[0] {
                Content::Text(text) => assert_eq!(text, "Invalid input: missing field"),
                _ => panic!("expected a text"),
            }
            let record = server.record_call(&Ok(result));
            assert!(!record.rejected);
            assert!(!record.success);
        }
        _ => panic!("expected an answer"),
    }
}

#[test]
fn calls_are_recorded_by_their_answers() {
    let mut server = create_running_server();
    let refused = || Err(error(METHOD_NOT_FOUND, "x"));
    let record = server.record_call(&refused());
    assert!(!record.rejected && !record.success);
    server.health_check = Some(());
    let record = server.record_call(&refused());
    assert!(record.rejected && !record.success);
    for (is_error, success) in [(None, true), (Some(false), true), (Some(true), false)] {
        let record = server.record_call(&Ok(answer(is_error)));
        assert_eq!(record.success, success);
        assert!(!record.rejected);
    }
}
