//! What the operations of the state machine come to, on every state and for every input.

use crate::machine::Effect;
use crate::machine::SchemaEvent;
use crate::machine::ServerEvent;
use crate::machine::StateMachine;
use crate::operation::compile_operations;
use crate::operation::compiles;
use crate::operation::compiles_to;
use crate::operation::copy_raw_operations;
use crate::operation::keep_operations;
use crate::operation::kept_operations;
use crate::operation::raw_operations;
use crate::operation::Operation;
use crate::operation::OperationSettings;
use crate::operation::RawOperation;
use crate::platform::Platform;
use crate::rendering::misrendered;
use crate::running::Running;
use crate::schema::api_schema_definitions;
use crate::schema::coerced_schema;
use crate::schema::federation_error_text;
use crate::schema::is_supergraph;
use crate::schema::is_valid_schema;
use crate::schema::parsed_schema;
use crate::schema::schema_definitions;
use crate::schema::schema_errors_text;
use crate::schema::supergraph_api;
use crate::schema::validated_schema;
use crate::schema::ApiSchema;
use crate::schema::SchemaState;
use crate::states::Config;
use crate::states::Configuring;
use crate::states::OperationError;
use crate::states::OperationsConfigured;
use crate::states::SchemaConfigured;
use crate::states::Server;
use crate::states::ServerError;
use crate::states::Starting;
use crate::states::State;
use apollo_compiler::validation::Valid;
use apollo_compiler::validation::WithErrors;
use apollo_compiler::Schema;
use apollo_federation::error::FederationError;
use vstd::prelude::*;

verus! {

/// Operations that cannot be read from files end a server in every state, with the error of the
/// file.
pub proof fn law_file_error_is_fatal_in_every_state<P: Platform, E, F>(
    state: State<P>,
    error: P::FileError,
    origin: P::FileOrigin,
    compile: F,
    reaction: (State<P>, Effect<P>),
) where
    F: Fn(RawOperation, &ApiSchema, &OperationSettings<P>) -> Result<Option<Operation>, E>,

    requires
        call_ensures(
            StateMachine::handle::<P, E, F>,
            (state, ServerEvent::OperationError(error, origin), compile),
            reaction,
        ),
    ensures
        reaction.0 == State::<P>::Error(ServerError::Operation(OperationError::File(error))),
        reaction.1 == Effect::<P>::Nothing,
{
}

/// A collection that cannot be fetched leaves a running server exactly as it is, and ends a server
/// in every other state with the error of the collection.
pub proof fn law_collection_error_spares_only_a_running_server<P: Platform, E, F>(
    state: State<P>,
    error: P::CollectionError,
    compile: F,
    reaction: (State<P>, Effect<P>),
) where
    F: Fn(RawOperation, &ApiSchema, &OperationSettings<P>) -> Result<Option<Operation>, E>,

    requires
        call_ensures(
            StateMachine::handle::<P, E, F>,
            (state, ServerEvent::CollectionError(error), compile),
            reaction,
        ),
    ensures
        state is Running ==> reaction.0 == state,
        !(state is Running) ==> reaction.0 == State::<P>::Error(
            ServerError::Operation(OperationError::Collection(error)),
        ),
        reaction.1 == Effect::<P>::Nothing,
{
}

/// That no schema will come ends a server that has none and waits for one, and leaves every other
/// server as it is.
pub proof fn law_end_of_schemas_ends_only_a_server_without_one<P: Platform, E, F>(
    state: State<P>,
    compile: F,
    reaction: (State<P>, Effect<P>),
) where
    F: Fn(RawOperation, &ApiSchema, &OperationSettings<P>) -> Result<Option<Operation>, E>,

    requires
        call_ensures(
            StateMachine::handle::<P, E, F>,
            (state, ServerEvent::SchemaUpdated(SchemaEvent::NoMoreSchema), compile),
            reaction,
        ),
    ensures
        state is Configuring ==> reaction.0 == State::<P>::Error(ServerError::NoSchema),
        state is OperationsConfigured ==> reaction.0 == State::<P>::Error(ServerError::NoSchema),
        state is SchemaConfigured ==> reaction.0 == state,
        state is Starting ==> reaction.0 == state,
        state is Running ==> reaction.0 == state,
        state is Error ==> reaction.0 == state,
        state is Stopping ==> reaction.0 == state,
        reaction.1 == Effect::<P>::Nothing,
{
}

/// A server that is asked to end stops, whatever its state; a running one has its own serving tasks
/// ended.
pub proof fn law_shutdown_stops_every_server<P: Platform, E, F>(
    state: State<P>,
    compile: F,
    reaction: (State<P>, Effect<P>),
) where
    F: Fn(RawOperation, &ApiSchema, &OperationSettings<P>) -> Result<Option<Operation>, E>,

    requires
        call_ensures(
            StateMachine::handle::<P, E, F>,
            (state, ServerEvent::Shutdown, compile),
            reaction,
        ),
    ensures
        reaction.0 == State::<P>::Stopping,
        state matches State::Running(running) ==> reaction.1 == Effect::<P>::Cancel(
            running.cancellation_token,
        ),
        !(state is Running) ==> reaction.1 == Effect::<P>::Nothing,
{
}

/// The text of each operation.
pub open spec fn texts_of(operations: Seq<Operation>) -> Seq<RawOperation> {
    Seq::new(operations.len(), |i: int| operations[i].inner)
}

/// Whether operations are what became of texts: each operation is a reply of the compiler to the
/// text at one of the places, which follow one another, and to each other text the compiler gave a
/// reply that is no operation.
pub open spec fn became_of<P: Platform, E, F>(
    compile: F,
    texts: Seq<RawOperation>,
    schema: ApiSchema,
    settings: OperationSettings<P>,
    operations: Seq<Operation>,
    places: Seq<int>,
) -> bool where
    F: Fn(RawOperation, &ApiSchema, &OperationSettings<P>) -> Result<Option<Operation>, E>,
 {
    &&& places.len() == operations.len()
    &&& forall|k: int|
        0 <= k < places.len() ==> {
            &&& 0 <= #[trigger] places[k] < texts.len()
            &&& call_ensures(
                compile,
                (texts[places[k]], &schema, &settings),
                Ok::<Option<Operation>, E>(Some(operations[k])),
            )
        }
    &&& forall|j: int, k: int|
        0 <= j < k < places.len() ==> #[trigger] places[j] < #[trigger] places[k]
    &&& forall|i: int|
        0 <= i < texts.len() && !(#[trigger] places.contains(i)) ==> {
            ||| call_ensures(
                compile,
                (texts[i], &schema, &settings),
                Ok::<Option<Operation>, E>(None),
            )
            ||| exists|error: E|
                call_ensures(
                    compile,
                    (texts[i], &schema, &settings),
                    Err::<Option<Operation>, E>(error),
                )
        }
}

proof fn lemma_places_of_operations<E>(replies: Seq<Result<Option<Operation>, E>>) -> (places: Seq<
    int,
>)
    ensures
        places.len() == kept_operations(replies).len(),
        forall|k: int|
            0 <= k < places.len() ==> {
                &&& 0 <= #[trigger] places[k] < replies.len()
                &&& replies[places[k]] == Ok::<Option<Operation>, E>(
                    Some(kept_operations(replies)[k]),
                )
            },
        forall|j: int, k: int|
            0 <= j < k < places.len() ==> #[trigger] places[j] < #[trigger] places[k],
        forall|i: int|
            0 <= i < replies.len() && !(#[trigger] places.contains(i)) ==> !(replies[i] matches Ok(
                Some(_),
            )),
    decreases replies.len(),
{
    if replies.len() == 0 {
        Seq::empty()
    } else {
        let last = replies.len() - 1;
        let before = lemma_places_of_operations(replies.drop_last());
        if replies.last() matches Ok(Some(_)) {
            let places = before.push(last);
            assert forall|i: int|
                0 <= i < replies.len() && !(#[trigger] places.contains(i)) implies !(
            replies[i] matches Ok(Some(_))) by {
                assert(places[places.len() - 1] == last);
                if before.contains(i) {
                    let k = choose|k: int| 0 <= k < before.len() && before[k] == i;
                    assert(places[k] == i);
                }
                if i < last {
                    assert(replies.drop_last()[i] == replies[i]);
                }
            }
            places
        } else {
            assert forall|i: int|
                0 <= i < replies.len() && !(#[trigger] before.contains(i)) implies !(
            replies[i] matches Ok(Some(_))) by {
                if i < last {
                    assert(replies.drop_last()[i] == replies[i]);
                }
            }
            before
        }
    }
}

/// Operations that the compiler makes of texts stand at places among the texts.
pub proof fn lemma_became_of<P: Platform, E, F>(
    compile: F,
    texts: Seq<RawOperation>,
    schema: ApiSchema,
    settings: OperationSettings<P>,
    operations: Seq<Operation>,
) -> (places: Seq<int>) where
    F: Fn(RawOperation, &ApiSchema, &OperationSettings<P>) -> Result<Option<Operation>, E>,

    requires
        compiles_to(compile, texts, schema, settings, operations),
    ensures
        became_of(compile, texts, schema, settings, operations, places),
{
    let replies = choose|replies: Seq<Result<Option<Operation>, E>>|
        {
            &&& #[trigger] compiles(compile, texts, schema, settings, replies)
            &&& operations == kept_operations(replies)
        };
    let places = lemma_places_of_operations(replies);
    assert forall|i: int| 0 <= i < texts.len() && !(#[trigger] places.contains(i)) implies {
        ||| call_ensures(
            compile,
            (texts[i], &schema, &settings),
            Ok::<Option<Operation>, E>(None),
        )
        ||| exists|error: E|
            call_ensures(
                compile,
                (texts[i], &schema, &settings),
                Err::<Option<Operation>, E>(error),
            )
    } by {
        assert(call_ensures(compile, (texts[i], &schema, &settings), replies[i]));
        match replies[i] {
            Ok(Some(_)) => {},
            Ok(None) => {},
            Err(error) => {
                assert(call_ensures(
                    compile,
                    (texts[i], &schema, &settings),
                    Err::<Option<Operation>, E>(error),
                ));
            },
        }
    }
    places
}

/// Every text is handed to the compiler, with the schema and the settings: its operations are
/// offered in the order of the texts, and a text is left out only where the compiler has replied
/// that it is no operation, or refused it.
pub proof fn law_every_text_is_compiled<P: Platform, E, F>(
    texts: Vec<RawOperation>,
    schema: &ApiSchema,
    settings: &OperationSettings<P>,
    compile: F,
    operations: Vec<Operation>,
) -> (places: Seq<int>) where
    F: Fn(RawOperation, &ApiSchema, &OperationSettings<P>) -> Result<Option<Operation>, E>,

    requires
        call_ensures(
            compile_operations::<P, E, F>,
            (texts, schema, settings, compile),
            operations,
        ),
    ensures
        became_of(compile, texts@, *schema, *settings, operations@, places),
{
    lemma_became_of(compile, texts@, *schema, *settings, operations@)
}

/// Where the compiler can only accept every text, there are as many operations as texts, and each
/// operation is the compiler's reply to the text at its place.
pub proof fn law_accepted_texts_are_all_offered<P: Platform, E, F>(
    texts: Vec<RawOperation>,
    schema: &ApiSchema,
    settings: &OperationSettings<P>,
    compile: F,
    operations: Vec<Operation>,
) where
    F: Fn(RawOperation, &ApiSchema, &OperationSettings<P>) -> Result<Option<Operation>, E>,

    requires
        call_ensures(
            compile_operations::<P, E, F>,
            (texts, schema, settings, compile),
            operations,
        ),
        forall|i: int, reply: Result<Option<Operation>, E>|
            0 <= i < texts@.len() && #[trigger] call_ensures(
                compile,
                (texts@[i], schema, settings),
                reply,
            ) ==> (reply matches Ok(Some(_))),
    ensures
        operations@.len() == texts@.len(),
        forall|i: int|
            0 <= i < texts@.len() ==> call_ensures(
                compile,
                (#[trigger] texts@[i], schema, settings),
                Ok::<Option<Operation>, E>(Some(operations@[i])),
            ),
{
    let places = lemma_became_of(compile, texts@, *schema, *settings, operations@);
    lemma_full_places(places, texts@.len() as int);
    assert forall|i: int| 0 <= i < texts@.len() implies call_ensures(
        compile,
        (#[trigger] texts@[i], schema, settings),
        Ok::<Option<Operation>, E>(Some(operations@[i])),
    ) by {
        assert(places[i] == i);
    }
}

/// Places that follow one another and leave out none are the numbers from zero on.
proof fn lemma_full_places(places: Seq<int>, count: int)
    requires
        0 <= count,
        forall|k: int| 0 <= k < places.len() ==> 0 <= #[trigger] places[k] < count,
        forall|j: int, k: int|
            0 <= j < k < places.len() ==> #[trigger] places[j] < #[trigger] places[k],
        forall|i: int| 0 <= i < count ==> #[trigger] places.contains(i),
    ensures
        places.len() == count,
        forall|k: int| 0 <= k < count ==> #[trigger] places[k] == k,
    decreases count,
{
    if count == 0 {
        if places.len() > 0 {
            assert(0 <= places[0] < count);
        }
    } else {
        assert(places.contains(count - 1));
        let top = choose|k: int| 0 <= k < places.len() && places[k] == count - 1;
        assert(top == places.len() - 1) by {
            if top < places.len() - 1 {
                assert(places[top] < places[places.len() - 1]);
            }
        }
        let before = places.drop_last();
        assert forall|i: int| 0 <= i < count - 1 implies #[trigger] before.contains(i) by {
            assert(places.contains(i));
            let k = choose|k: int| 0 <= k < places.len() && places[k] == i;
            assert(before[k] == i);
        }
        assert forall|k: int| 0 <= k < before.len() implies 0 <= #[trigger] before[k] < count
            - 1 by {
            assert(places[k] < places[top]);
        }
        lemma_full_places(before, count - 1);
        assert forall|k: int| 0 <= k < count implies #[trigger] places[k] == k by {
            if k < count - 1 {
                assert(before[k] == k);
            }
        }
    }
}

/// Replies that are operations are kept, each and in order, and nothing else is.
pub proof fn law_operations_among_replies_are_kept<E>(
    replies: Vec<Result<Option<Operation>, E>>,
    operations: Vec<Operation>,
) -> (places: Seq<int>)
    requires
        call_ensures(keep_operations::<E>, (replies,), operations),
    ensures
        places.len() == operations@.len(),
        forall|k: int|
            0 <= k < places.len() ==> {
                &&& 0 <= #[trigger] places[k] < replies@.len()
                &&& replies@[places[k]] == Ok::<Option<Operation>, E>(Some(operations@[k]))
            },
        forall|j: int, k: int|
            0 <= j < k < places.len() ==> #[trigger] places[j] < #[trigger] places[k],
        forall|i: int|
            0 <= i < replies@.len() && !(#[trigger] places.contains(i)) ==> !(
            replies@[i] matches Ok(Some(_))),
{
    lemma_places_of_operations(replies@)
}

/// The texts of operations are copied one by one.
pub proof fn law_texts_are_copied(operations: &Vec<Operation>, texts: Vec<RawOperation>)
    requires
        call_ensures(copy_raw_operations, (operations,), texts),
    ensures
        texts@ == texts_of(operations@),
        texts@.len() == operations@.len(),
        forall|i: int| 0 <= i < texts@.len() ==> #[trigger] texts@[i] == operations@[i].inner,
{
}

/// A text and its path are kept as they are given.
pub proof fn law_text_and_path_are_kept(source: (String, Option<String>), made: RawOperation)
    requires
        call_ensures(RawOperation::from, (source,), made),
    ensures
        made.source_text == source.0,
        made.source_path == source.1,
{
}

/// A copy of a text is the same text, and an operation gives back its tool and its text.
pub proof fn law_operations_give_back_what_they_hold(
    raw: &RawOperation,
    copy: RawOperation,
    operation: Operation,
    tool: &rmcp::model::Tool,
    inner: RawOperation,
)
    requires
        call_ensures(RawOperation::duplicate, (raw,), copy),
        call_ensures(Operation::as_ref, (&operation,), tool),
        call_ensures(Operation::into_inner, (operation,), inner),
    ensures
        copy.source_text == raw.source_text,
        copy.source_path == raw.source_path,
        *tool == operation.tool,
        inner == operation.inner,
{
}

/// New operations take a server on: one that has no schema remembers them in place of any it had,
/// one that has a schema is about to start with both, and a server that starts or has ended ignores
/// them. None of these tells its clients.
pub proof fn law_operations_take_a_server_on<P: Platform, E, F>(
    state: State<P>,
    operations: Vec<RawOperation>,
    compile: F,
    reaction: (State<P>, Effect<P>),
) where
    F: Fn(RawOperation, &ApiSchema, &OperationSettings<P>) -> Result<Option<Operation>, E>,

    requires
        call_ensures(
            StateMachine::handle::<P, E, F>,
            (state, ServerEvent::OperationsUpdated(operations), compile),
            reaction,
        ),
    ensures
        state matches State::Configuring(before) ==> reaction.0 == State::OperationsConfigured(
            OperationsConfigured { config: before.config, operations },
        ),
        state matches State::OperationsConfigured(before) ==> reaction.0
            == State::OperationsConfigured(
            OperationsConfigured { config: before.config, operations },
        ),
        state matches State::SchemaConfigured(before) ==> reaction.0 == State::Starting(
            Starting { config: before.config, schema: before.schema, operations },
        ),
        state is Starting ==> reaction.0 == state,
        state is Error ==> reaction.0 == state,
        state is Stopping ==> reaction.0 == state,
        state is Running ==> reaction.0 is Running && reaction.1
            == Effect::<P>::NotifyToolListChanged,
        !(state is Running) ==> reaction.1 == Effect::<P>::Nothing,
{
}

/// A running server that is given operations offers what becomes of them for the schema and the
/// settings it has; nothing else of it changes.
pub proof fn law_running_server_takes_over_operations<P: Platform, E, F>(
    before: Running<P>,
    operations: Vec<RawOperation>,
    compile: F,
    after: Running<P>,
    effect: Effect<P>,
) -> (places: Seq<int>) where
    F: Fn(RawOperation, &ApiSchema, &OperationSettings<P>) -> Result<Option<Operation>, E>,

    requires
        call_ensures(
            StateMachine::handle::<P, E, F>,
            (State::Running(before), ServerEvent::OperationsUpdated(operations), compile),
            (State::Running(after), effect),
        ),
    ensures
        became_of(
            compile,
            operations@,
            before.schema,
            before.operation_settings,
            after.operations@,
            places,
        ),
        after == (Running { operations: after.operations, ..before }),
{
    lemma_became_of(
        compile,
        operations@,
        before.schema,
        before.operation_settings,
        after.operations@,
    )
}

/// A schema takes a server on: one that has no operations remembers it in place of any it had, one
/// that has operations is about to start with both, and a server that starts or has ended ignores
/// it. A server that runs takes it over, and tells its clients.
pub proof fn law_schema_takes_a_server_on<P: Platform, E, F>(
    state: State<P>,
    schema_state: SchemaState,
    compile: F,
    reaction: (State<P>, Effect<P>),
) where
    F: Fn(RawOperation, &ApiSchema, &OperationSettings<P>) -> Result<Option<Operation>, E>,

    requires
        api_schema_definitions(schema_state.sdl@) is Some,
        call_ensures(
            StateMachine::handle::<P, E, F>,
            (
                state,
                ServerEvent::SchemaUpdated(SchemaEvent::UpdateSchema(schema_state)),
                compile,
            ),
            reaction,
        ),
    ensures
        state matches State::Configuring(before) ==> {
            &&& reaction.0 matches State::SchemaConfigured(after)
            &&& after.config == before.config
            &&& Some(after.schema@) == api_schema_definitions(schema_state.sdl@)
        },
        state matches State::SchemaConfigured(before) ==> {
            &&& reaction.0 matches State::SchemaConfigured(after)
            &&& after.config == before.config
            &&& Some(after.schema@) == api_schema_definitions(schema_state.sdl@)
        },
        state matches State::OperationsConfigured(before) ==> {
            &&& reaction.0 matches State::Starting(after)
            &&& after.config == before.config
            &&& after.operations == before.operations
            &&& Some(after.schema@) == api_schema_definitions(schema_state.sdl@)
        },
        state is Starting ==> reaction.0 == state,
        state is Error ==> reaction.0 == state,
        state is Stopping ==> reaction.0 == state,
        state matches State::Running(before) ==> {
            &&& reaction.0 matches State::Running(after)
            &&& Some(after.schema@) == api_schema_definitions(schema_state.sdl@)
            &&& after == (Running { schema: after.schema, operations: after.operations, ..before })
            &&& reaction.1 == Effect::<P>::NotifyToolListChanged
        },
        !(state is Running) ==> reaction.1 == Effect::<P>::Nothing,
{
}

/// A running server that is given a schema offers what becomes, for that schema, of the texts of
/// the operations it had.
pub proof fn law_running_server_compiles_anew<P: Platform, E, F>(
    before: Running<P>,
    schema: ApiSchema,
    compile: F,
    after: Running<P>,
    effect: Effect<P>,
) -> (places: Seq<int>) where
    F: Fn(RawOperation, &ApiSchema, &OperationSettings<P>) -> Result<Option<Operation>, E>,

    requires
        call_ensures(
            StateMachine::set_schema::<P, E, F>,
            (State::Running(before), schema, compile),
            (State::Running(after), effect),
        ),
    ensures
        after.schema == schema,
        became_of(
            compile,
            texts_of(before.operations@),
            schema,
            before.operation_settings,
            after.operations@,
            places,
        ),
        after == (Running { schema, operations: after.operations, ..before }),
{
    let texts = texts_of(before.operations@);
    assert(texts =~= raw_operations(before.operations@));
    lemma_became_of(compile, texts, schema, before.operation_settings, after.operations@)
}

/// The same holds of the schema that an event brings: the operations a running server then offers
/// are what becomes of the texts it had, for the schema it then has.
pub proof fn law_running_server_compiles_anew_for_the_schema_of_an_event<P: Platform, E, F>(
    before: Running<P>,
    schema_state: SchemaState,
    compile: F,
    after: Running<P>,
    effect: Effect<P>,
) -> (places: Seq<int>) where
    F: Fn(RawOperation, &ApiSchema, &OperationSettings<P>) -> Result<Option<Operation>, E>,

    requires
        call_ensures(
            StateMachine::handle::<P, E, F>,
            (
                State::Running(before),
                ServerEvent::SchemaUpdated(SchemaEvent::UpdateSchema(schema_state)),
                compile,
            ),
            (State::Running(after), effect),
        ),
    ensures
        became_of(
            compile,
            texts_of(before.operations@),
            after.schema,
            before.operation_settings,
            after.operations@,
            places,
        ),
{
    let texts = texts_of(before.operations@);
    assert(texts =~= raw_operations(before.operations@));
    lemma_became_of(compile, texts, after.schema, before.operation_settings, after.operations@)
}

/// Whether a text can be parsed, its values coerced, and the result validated, all as the outside
/// functions judge it.
pub open spec fn passes_all_steps(sdl: Seq<char>) -> bool {
    let parsed = parsed_schema(sdl, "schema.graphql"@);
    &&& parsed is Some
    &&& coerced_schema(parsed->0) is Some
    &&& is_valid_schema(coerced_schema(parsed->0)->0)
}

/// A supergraph becomes the API schema that is generated from it, without `@defer` and `@stream`.
/// Where none can be generated, the error of generating it is given, and the text is not taken as a
/// plain schema.
pub proof fn law_supergraph_becomes_its_api_schema<P: Platform>(
    schema_state: SchemaState,
    converted: Result<ApiSchema, ServerError<P>>,
)
    requires
        call_ensures(StateMachine::sdl_to_api_schema::<P>, (schema_state,), converted),
        !misrendered(schema_state.sdl@),
        passes_all_steps(schema_state.sdl@),
        is_supergraph(schema_state.sdl@),
    ensures
        match supergraph_api(schema_state.sdl@, false, false) {
            Ok(definitions) => {
                &&& converted matches Ok(schema)
                &&& schema_definitions(schema.document) == definitions
            },
            Err(text) => {
                &&& converted matches Err(ServerError::Federation(error))
                &&& federation_error_text(*error) == text
            },
        },
{
}

/// A text that is not a supergraph is taken as it stands, under the name `schema.graphql`; where it
/// is not valid, its own errors are given.
pub proof fn law_plain_schema_is_taken_as_it_stands<P: Platform>(
    schema_state: SchemaState,
    converted: Result<ApiSchema, ServerError<P>>,
)
    requires
        call_ensures(StateMachine::sdl_to_api_schema::<P>, (schema_state,), converted),
        misrendered(schema_state.sdl@) || !passes_all_steps(schema_state.sdl@) || !is_supergraph(
            schema_state.sdl@,
        ),
    ensures
        match validated_schema(schema_state.sdl@, "schema.graphql"@) {
            Ok(definitions) => {
                &&& converted matches Ok(schema)
                &&& schema_definitions(schema.document) == definitions
            },
            Err(text) => {
                &&& converted matches Err(ServerError::GraphQLSchema(errors))
                &&& schema_errors_text(*errors) == text
            },
        },
{
}

/// The definitions that an event is said to bring are those that the conversion gives: there are
/// some exactly where the conversion succeeds.
pub proof fn law_event_brings_what_conversion_gives<P: Platform>(
    schema_state: SchemaState,
    converted: Result<ApiSchema, ServerError<P>>,
)
    requires
        call_ensures(StateMachine::sdl_to_api_schema::<P>, (schema_state,), converted),
    ensures
        api_schema_definitions(schema_state.sdl@) is Some <==> converted is Ok,
        converted matches Ok(schema) ==> api_schema_definitions(schema_state.sdl@) == Some(
            schema_definitions(schema.document),
        ),
{
}

/// A supergraph without an API schema ends a server in every state, with the error of generating
/// it.
pub proof fn law_failing_supergraph_ends_every_server<P: Platform, E, F>(
    state: State<P>,
    schema_state: SchemaState,
    compile: F,
    reaction: (State<P>, Effect<P>),
) where
    F: Fn(RawOperation, &ApiSchema, &OperationSettings<P>) -> Result<Option<Operation>, E>,

    requires
        !misrendered(schema_state.sdl@),
        passes_all_steps(schema_state.sdl@),
        is_supergraph(schema_state.sdl@),
        supergraph_api(schema_state.sdl@, false, false) is Err,
        call_ensures(
            StateMachine::handle::<P, E, F>,
            (
                state,
                ServerEvent::SchemaUpdated(SchemaEvent::UpdateSchema(schema_state)),
                compile,
            ),
            reaction,
        ),
    ensures
        reaction.0 matches State::Error(ServerError::Federation(error)) && supergraph_api(
            schema_state.sdl@,
            false,
            false,
        ) == Err::<Seq<char>, Seq<char>>(federation_error_text(*error)),
        reaction.1 == Effect::<P>::Nothing,
{
}

/// A text that is neither a supergraph nor valid ends a server in every state, with its own errors.
pub proof fn law_invalid_text_ends_every_server<P: Platform, E, F>(
    state: State<P>,
    schema_state: SchemaState,
    compile: F,
    reaction: (State<P>, Effect<P>),
) where
    F: Fn(RawOperation, &ApiSchema, &OperationSettings<P>) -> Result<Option<Operation>, E>,

    requires
        misrendered(schema_state.sdl@) || !passes_all_steps(schema_state.sdl@) || !is_supergraph(
            schema_state.sdl@,
        ),
        validated_schema(schema_state.sdl@, "schema.graphql"@) is Err,
        call_ensures(
            StateMachine::handle::<P, E, F>,
            (
                state,
                ServerEvent::SchemaUpdated(SchemaEvent::UpdateSchema(schema_state)),
                compile,
            ),
            reaction,
        ),
    ensures
        reaction.0 matches State::Error(ServerError::GraphQLSchema(errors)) && validated_schema(
            schema_state.sdl@,
            "schema.graphql"@,
        ) == Err::<Seq<char>, Seq<char>>(schema_errors_text(*errors)),
        reaction.1 == Effect::<P>::Nothing,
{
}

/// What generating and validating have come to is passed on unchanged.
pub proof fn law_conversions_pass_on_their_results<P: Platform>(
    api: Result<Valid<Schema>, FederationError>,
    of_supergraph: Result<ApiSchema, ServerError<P>>,
    parsed: Result<Valid<Schema>, WithErrors<Schema>>,
    of_plain: Result<ApiSchema, ServerError<P>>,
)
    requires
        call_ensures(StateMachine::api_schema_of_supergraph::<P>, (api,), of_supergraph),
        call_ensures(StateMachine::api_schema_of_plain::<P>, (parsed,), of_plain),
    ensures
        api matches Ok(document) ==> of_supergraph matches Ok(schema) && schema.document
            == document,
        api matches Err(error) ==> of_supergraph matches Err(ServerError::Federation(given))
            && *given == error,
        parsed matches Ok(document) ==> of_plain matches Ok(schema) && schema.document == document,
        parsed matches Err(errors) ==> of_plain matches Err(ServerError::GraphQLSchema(given))
            && *given == errors,
{
}

/// What reading a schema has come to decides: an error ends the server with that very error, and a
/// schema is in the next state of every server that takes schemas.
pub proof fn law_conversion_decides<P: Platform, E, F>(
    state: State<P>,
    converted: Result<ApiSchema, ServerError<P>>,
    compile: F,
    reaction: (State<P>, Effect<P>),
) where
    F: Fn(RawOperation, &ApiSchema, &OperationSettings<P>) -> Result<Option<Operation>, E>,

    requires
        call_ensures(
            StateMachine::take_schema::<P, E, F>,
            (state, converted, compile),
            reaction,
        ),
    ensures
        converted matches Err(error) ==> reaction == (State::Error(error), Effect::<P>::Nothing),
        converted matches Ok(schema) ==> match state {
            State::Configuring(before) => reaction == (
                State::SchemaConfigured(SchemaConfigured { config: before.config, schema }),
                Effect::<P>::Nothing,
            ),
            State::SchemaConfigured(before) => reaction == (
                State::SchemaConfigured(SchemaConfigured { config: before.config, schema }),
                Effect::<P>::Nothing,
            ),
            State::OperationsConfigured(before) => reaction == (
                State::Starting(
                    Starting { config: before.config, schema, operations: before.operations },
                ),
                Effect::<P>::Nothing,
            ),
            State::Running(before) => {
                &&& reaction.0 matches State::Running(after)
                &&& after == (Running { schema, operations: after.operations, ..before })
                &&& reaction.1 == Effect::<P>::NotifyToolListChanged
            },
            State::Starting(_) => reaction == (state, Effect::<P>::Nothing),
            State::Error(_) => reaction == (state, Effect::<P>::Nothing),
            State::Stopping => reaction == (state, Effect::<P>::Nothing),
        },
{
}

/// Each option of the configuration with which a server begins is the option of the same name that
/// the server was set up with, and the events come from the sources that it was set up with.
pub proof fn law_server_begins_with_its_own_options<P: Platform>(
    server: Server<P>,
    begun: (State<P>, P::SchemaSource, P::OperationSource),
)
    requires
        call_ensures(StateMachine::begin::<P>, (server,), begun),
    ensures
        begun.0 matches State::Configuring(configuring) && has_options_of(
            configuring.config,
            server,
        ),
        begun.1 == server.schema_source,
        begun.2 == server.operation_source,
{
}

/// The same holds of the configuration that is parted from the sources.
pub proof fn law_configuration_has_the_options_of_its_server<P: Platform>(
    server: Server<P>,
    parted: (Config<P>, P::SchemaSource, P::OperationSource),
)
    requires
        call_ensures(Server::<P>::into_config, (server,), parted),
    ensures
        has_options_of(parted.0, server),
        parted.1 == server.schema_source,
        parted.2 == server.operation_source,
{
}

/// Whether each option of a configuration is the option of the same name of a server.
pub open spec fn has_options_of<P: Platform>(config: Config<P>, server: Server<P>) -> bool {
    &&& config.transport == server.transport
    &&& config.endpoint == server.endpoint
    &&& config.headers == server.headers
    &&& config.forward_headers == server.forward_headers
    &&& config.execute_introspection == server.execute_introspection
    &&& config.validate_introspection == server.validate_introspection
    &&& config.introspect_introspection == server.introspect_introspection
    &&& config.search_introspection == server.search_introspection
    &&& config.introspect_minify == server.introspect_minify
    &&& config.search_minify == server.search_minify
    &&& config.explorer_graph_ref == server.explorer_graph_ref
    &&& config.execute_tool_hint == server.execute_tool_hint
    &&& config.introspect_tool_hint == server.introspect_tool_hint
    &&& config.search_tool_hint == server.search_tool_hint
    &&& config.validate_tool_hint == server.validate_tool_hint
    &&& config.operation_settings.custom_scalar_map == server.custom_scalar_map
    &&& config.operation_settings.mutation_mode == server.mutation_mode
    &&& config.operation_settings.disable_type_description == server.disable_type_description
    &&& config.operation_settings.disable_schema_description == server.disable_schema_description
    &&& config.operation_settings.enable_output_schema == server.enable_output_schema
    &&& config.disable_auth_token_passthrough == server.disable_auth_token_passthrough
    &&& config.search_leaf_depth == server.search_leaf_depth
    &&& config.index_memory_bytes == server.index_memory_bytes
    &&& config.health_check == server.health_check
    &&& config.cors == server.cors
    &&& config.server_info == server.server_info
    &&& config.header_transform == server.header_transform
}

/// A start that succeeds leaves the server running as it was started; one that fails ends it with
/// the error of the start.
pub proof fn law_start_leaves_a_server_running_or_ended<P: Platform>(
    result: Result<Running<P>, ServerError<P>>,
    state: State<P>,
)
    requires
        call_ensures(StateMachine::started::<P>, (result,), state),
    ensures
        result matches Ok(running) ==> state == State::Running(running),
        result matches Err(error) ==> state == State::Error(error),
{
}

/// Only an error or a stop finishes a server. Its life then comes to that error, or to nothing
/// wrong.
pub proof fn law_errors_and_stops_finish_a_server<P: Platform>(
    state: State<P>,
    finished: bool,
    outcome: Result<(), ServerError<P>>,
)
    requires
        call_ensures(StateMachine::is_finished::<P>, (&state,), finished),
        call_ensures(StateMachine::outcome::<P>, (state,), outcome),
    ensures
        match state {
            State::Error(error) => finished && outcome == Err::<(), ServerError<P>>(error),
            State::Stopping => finished && outcome is Ok,
            State::Configuring(_) => !finished && outcome is Ok,
            State::SchemaConfigured(_) => !finished && outcome is Ok,
            State::OperationsConfigured(_) => !finished && outcome is Ok,
            State::Starting(_) => !finished && outcome is Ok,
            State::Running(_) => !finished && outcome is Ok,
        },
{
}

/// A fatal event is the last one that a server takes, and its error is what the life of the server
/// comes to.
pub proof fn law_fatal_event_is_the_outcome<P: Platform, E, F>(
    state: State<P>,
    error: P::FileError,
    origin: P::FileOrigin,
    compile: F,
    reaction: (State<P>, Effect<P>),
    finished: bool,
    outcome: Result<(), ServerError<P>>,
) where
    F: Fn(RawOperation, &ApiSchema, &OperationSettings<P>) -> Result<Option<Operation>, E>,

    requires
        call_ensures(
            StateMachine::handle::<P, E, F>,
            (state, ServerEvent::OperationError(error, origin), compile),
            reaction,
        ),
        call_ensures(StateMachine::is_finished::<P>, (&reaction.0,), finished),
        call_ensures(StateMachine::outcome::<P>, (reaction.0,), outcome),
    ensures
        finished,
        outcome == Err::<(), ServerError<P>>(
            ServerError::Operation(OperationError::File(error)),
        ),
{
}

/// Waiting for a schema and for operations, a server keeps its configuration and what it was given.
pub proof fn law_waiting_servers_keep_what_they_have<P: Platform>(
    config: Config<P>,
    had_schema: ApiSchema,
    had_operations: Vec<RawOperation>,
    schema: ApiSchema,
    operations: Vec<RawOperation>,
    results: (
        SchemaConfigured<P>,
        OperationsConfigured<P>,
        SchemaConfigured<P>,
        Starting<P>,
        Starting<P>,
        OperationsConfigured<P>,
    ),
)
    requires
        call_ensures(
            Configuring::<P>::set_schema,
            (Configuring { config }, schema),
            results.0,
        ),
        call_ensures(
            Configuring::<P>::set_operations,
            (Configuring { config }, operations),
            results.1,
        ),
        call_ensures(
            SchemaConfigured::<P>::set_schema,
            (SchemaConfigured { config, schema: had_schema }, schema),
            results.2,
        ),
        call_ensures(
            SchemaConfigured::<P>::set_operations,
            (SchemaConfigured { config, schema: had_schema }, operations),
            results.3,
        ),
        call_ensures(
            OperationsConfigured::<P>::set_schema,
            (OperationsConfigured { config, operations: had_operations }, schema),
            results.4,
        ),
        call_ensures(
            OperationsConfigured::<P>::set_operations,
            (OperationsConfigured { config, operations: had_operations }, operations),
            results.5,
        ),
    ensures
        results.0.config == config && results.0.schema == schema,
        results.1.config == config && results.1.operations == operations,
        results.2.config == config && results.2.schema == schema,
        results.3.config == config && results.3.schema == had_schema && results.3.operations
            == operations,
        results.4.config == config && results.4.schema == schema && results.4.operations
            == had_operations,
        results.5.config == config && results.5.operations == operations,
{
}

/// Operations that are given to a server are in its next state, unless the server starts or has
/// ended; a running server offers what becomes of them.
pub proof fn law_given_operations_take_a_server_on<P: Platform, E, F>(
    state: State<P>,
    operations: Vec<RawOperation>,
    compile: F,
    reaction: (State<P>, Effect<P>),
) where
    F: Fn(RawOperation, &ApiSchema, &OperationSettings<P>) -> Result<Option<Operation>, E>,

    requires
        call_ensures(
            StateMachine::set_operations::<P, E, F>,
            (state, operations, compile),
            reaction,
        ),
    ensures
        match state {
            State::Configuring(before) => reaction == (
                State::OperationsConfigured(
                    OperationsConfigured { config: before.config, operations },
                ),
                Effect::<P>::Nothing,
            ),
            State::OperationsConfigured(before) => reaction == (
                State::OperationsConfigured(
                    OperationsConfigured { config: before.config, operations },
                ),
                Effect::<P>::Nothing,
            ),
            State::SchemaConfigured(before) => reaction == (
                State::Starting(
                    Starting { config: before.config, schema: before.schema, operations },
                ),
                Effect::<P>::Nothing,
            ),
            State::Running(before) => {
                &&& reaction.0 matches State::Running(after)
                &&& after == (Running { operations: after.operations, ..before })
                &&& exists|places: Seq<int>| #[trigger]
                    became_of(
                        compile,
                        operations@,
                        before.schema,
                        before.operation_settings,
                        after.operations@,
                        places,
                    )
                &&& reaction.1 == Effect::<P>::NotifyToolListChanged
            },
            State::Starting(_) => reaction == (state, Effect::<P>::Nothing),
            State::Error(_) => reaction == (state, Effect::<P>::Nothing),
            State::Stopping => reaction == (state, Effect::<P>::Nothing),
        },
{
    if let State::Running(before) = state {
        if let State::Running(after) = reaction.0 {
            lemma_became_of(
                compile,
                operations@,
                before.schema,
                before.operation_settings,
                after.operations@,
            );
        }
    }
}

/// A schema that is given to a server is in its next state, unless the server starts or has ended.
pub proof fn law_given_schema_takes_a_server_on<P: Platform, E, F>(
    state: State<P>,
    schema: ApiSchema,
    compile: F,
    reaction: (State<P>, Effect<P>),
) where
    F: Fn(RawOperation, &ApiSchema, &OperationSettings<P>) -> Result<Option<Operation>, E>,

    requires
        call_ensures(StateMachine::set_schema::<P, E, F>, (state, schema, compile), reaction),
    ensures
        match state {
            State::Configuring(before) => reaction == (
                State::SchemaConfigured(SchemaConfigured { config: before.config, schema }),
                Effect::<P>::Nothing,
            ),
            State::SchemaConfigured(before) => reaction == (
                State::SchemaConfigured(SchemaConfigured { config: before.config, schema }),
                Effect::<P>::Nothing,
            ),
            State::OperationsConfigured(before) => reaction == (
                State::Starting(
                    Starting { config: before.config, schema, operations: before.operations },
                ),
                Effect::<P>::Nothing,
            ),
            State::Running(before) => {
                &&& reaction.0 matches State::Running(after)
                &&& after == (Running { schema, operations: after.operations, ..before })
                &&& reaction.1 == Effect::<P>::NotifyToolListChanged
            },
            State::Starting(_) => reaction == (state, Effect::<P>::Nothing),
            State::Error(_) => reaction == (state, Effect::<P>::Nothing),
            State::Stopping => reaction == (state, Effect::<P>::Nothing),
        },
{
}

/// A running server for which reading a schema has come to one offers what becomes, for that
/// schema, of the texts of the operations it had.
pub proof fn law_running_server_compiles_anew_for_a_schema_that_was_read<P: Platform, E, F>(
    before: Running<P>,
    schema: ApiSchema,
    compile: F,
    after: Running<P>,
    effect: Effect<P>,
) -> (places: Seq<int>) where
    F: Fn(RawOperation, &ApiSchema, &OperationSettings<P>) -> Result<Option<Operation>, E>,

    requires
        call_ensures(
            StateMachine::take_schema::<P, E, F>,
            (State::Running(before), Ok(schema), compile),
            (State::Running(after), effect),
        ),
    ensures
        became_of(
            compile,
            texts_of(before.operations@),
            schema,
            before.operation_settings,
            after.operations@,
            places,
        ),
{
    let texts = texts_of(before.operations@);
    assert(texts =~= raw_operations(before.operations@));
    lemma_became_of(compile, texts, schema, before.operation_settings, after.operations@)
}

/// What each state holds is kept as it becomes a state of the server.
pub proof fn law_states_keep_what_they_hold<P: Platform>(
    configuring: Configuring<P>,
    schema_configured: SchemaConfigured<P>,
    operations_configured: OperationsConfigured<P>,
    starting: Starting<P>,
    running: Running<P>,
    error: ServerError<P>,
    states: (State<P>, State<P>, State<P>, State<P>, State<P>, State<P>),
)
    requires
        call_ensures(<State<P> as From<Configuring<P>>>::from, (configuring,), states.0),
        call_ensures(
            <State<P> as From<SchemaConfigured<P>>>::from,
            (schema_configured,),
            states.1,
        ),
        call_ensures(
            <State<P> as From<OperationsConfigured<P>>>::from,
            (operations_configured,),
            states.2,
        ),
        call_ensures(<State<P> as From<Starting<P>>>::from, (starting,), states.3),
        call_ensures(<State<P> as From<Running<P>>>::from, (running,), states.4),
        call_ensures(<State<P> as From<ServerError<P>>>::from, (error,), states.5),
    ensures
        states.0 matches State::Configuring(held) && held.config == configuring.config,
        states.1 matches State::SchemaConfigured(held) && held.config == schema_configured.config
            && held.schema == schema_configured.schema,
        states.2 matches State::OperationsConfigured(held) && held.config
            == operations_configured.config && held.operations == operations_configured.operations,
        states.3 matches State::Starting(held) && held.config == starting.config && held.schema
            == starting.schema && held.operations == starting.operations,
        states.4 matches State::Running(held) && held == running,
        states.5 matches State::Error(held) && held == error,
{
}

/// A step that failed becomes the error it failed with, and one that succeeded the state it has led
/// to.
pub proof fn law_failed_steps_become_their_errors<P: Platform>(
    schema_configured: Result<SchemaConfigured<P>, ServerError<P>>,
    operations_configured: Result<OperationsConfigured<P>, ServerError<P>>,
    starting: Result<Starting<P>, ServerError<P>>,
    running: Result<Running<P>, ServerError<P>>,
    states: (State<P>, State<P>, State<P>, State<P>),
)
    requires
        call_ensures(
            <State<P> as From<Result<SchemaConfigured<P>, ServerError<P>>>>::from,
            (schema_configured,),
            states.0,
        ),
        call_ensures(
            <State<P> as From<Result<OperationsConfigured<P>, ServerError<P>>>>::from,
            (operations_configured,),
            states.1,
        ),
        call_ensures(
            <State<P> as From<Result<Starting<P>, ServerError<P>>>>::from,
            (starting,),
            states.2,
        ),
        call_ensures(
            <State<P> as From<Result<Running<P>, ServerError<P>>>>::from,
            (running,),
            states.3,
        ),
    ensures
        schema_configured matches Ok(held) ==> states.0 == State::SchemaConfigured(held),
        schema_configured matches Err(error) ==> states.0 == State::Error(error),
        operations_configured matches Ok(held) ==> states.1 == State::OperationsConfigured(held),
        operations_configured matches Err(error) ==> states.1 == State::Error(error),
        starting matches Ok(held) ==> states.2 == State::Starting(held),
        starting matches Err(error) ==> states.2 == State::Error(error),
        running matches Ok(held) ==> states.3 == State::Running(held),
        running matches Err(error) ==> states.3 == State::Error(error),
{
}

/// A schema writes out the definitions of its own document.
pub proof fn law_schema_writes_out_its_document(schema: &ApiSchema, written: String)
    requires
        call_ensures(ApiSchema::sdl, (schema,), written),
    ensures
        written@ == schema_definitions(schema.document),
        written@ == schema@,
{
}

} // verus!
