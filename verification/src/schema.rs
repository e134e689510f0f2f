//! API schemas, and how they are obtained from the text of a schema.

use crate::rendering::is_misrendered;
use crate::rendering::misrendered;
use apollo_compiler::validation::Valid;
use apollo_compiler::validation::WithErrors;
use apollo_compiler::Schema;
use apollo_federation::compat::coerce_and_validate_schema_values;
use apollo_federation::error::FederationError;
use apollo_federation::ApiSchemaOptions;
use apollo_federation::Supergraph;
use vstd::prelude::*;

verus! {

/// `apollo_compiler::Schema`: a GraphQL schema.
#[verifier::external_type_specification]
#[verifier::external_body]
pub struct ExSchema(apollo_compiler::Schema);

/// `apollo_compiler::validation::Valid`: a document that has passed validation.
#[verifier::external_type_specification]
#[verifier::external_body]
#[verifier::reject_recursive_types(T)]
pub struct ExValid<T>(apollo_compiler::validation::Valid<T>);

/// `apollo_compiler::validation::WithErrors`: a document with the reasons for which it is invalid.
#[verifier::external_type_specification]
#[verifier::external_body]
#[verifier::reject_recursive_types(T)]
pub struct ExWithErrors<T>(apollo_compiler::validation::WithErrors<T>);

/// `apollo_federation::error::FederationError`: why a text is not a usable supergraph.
#[verifier::external_type_specification]
#[verifier::external_body]
pub struct ExFederationError(apollo_federation::error::FederationError);

/// `apollo_federation::Supergraph`: a supergraph, that is, a schema that says from which graphs its
/// elements come.
#[verifier::external_type_specification]
#[verifier::external_body]
pub struct ExSupergraph(apollo_federation::Supergraph);

/// All that a schema holds, valid or not: its definitions, and the texts that they come from.
pub uninterp spec fn schema_contents(schema: Schema) -> Seq<char>;

/// The definitions that a valid schema holds, written in the schema definition language.
pub uninterp spec fn schema_definitions(schema: Valid<Schema>) -> Seq<char>;

/// The text that a supergraph was read from.
pub uninterp spec fn supergraph_text(supergraph: Supergraph) -> Seq<char>;

/// What an error of `apollo_federation` says.
pub uninterp spec fn federation_error_text(error: FederationError) -> Seq<char>;

/// What the errors of a schema say, and the places that they point to.
pub uninterp spec fn schema_errors_text(errors: WithErrors<Schema>) -> Seq<char>;

/// What `Schema::parse` makes of a text: the contents of the schema, where the text can be parsed.
/// The path is where the text is said to come from.
pub uninterp spec fn parsed_schema(sdl: Seq<char>, path: Seq<char>) -> Option<Seq<char>>;

/// What `coerce_and_validate_schema_values` makes of the contents of a schema, where it accepts the
/// values that are given as defaults.
pub uninterp spec fn coerced_schema(contents: Seq<char>) -> Option<Seq<char>>;

/// Whether `Schema::validate` accepts the contents of a schema.
pub uninterp spec fn is_valid_schema(contents: Seq<char>) -> bool;

/// Whether `Supergraph::new_with_router_specs` accepts a text.
pub uninterp spec fn is_supergraph(sdl: Seq<char>) -> bool;

/// What `Supergraph::to_api_schema` makes of the supergraph that was read from a text: the
/// definitions of the API schema, or why there is none. The flags say whether the API schema defines
/// the directives `@defer` and `@stream`.
pub uninterp spec fn supergraph_api(
    sdl: Seq<char>,
    include_defer: bool,
    include_stream: bool,
) -> Result<Seq<char>, Seq<char>>;

/// What `Schema::parse_and_validate` makes of a text: the definitions of the schema, or why the text
/// is not a valid schema. The path is where the text is said to come from.
pub uninterp spec fn validated_schema(
    sdl: Seq<char>,
    path: Seq<char>,
) -> Result<Seq<char>, Seq<char>>;

/// Calls `Schema::parse`. Claims that the text and its path alone decide whether the text can be
/// parsed, and what the schema holds.
#[verifier::external_body]
fn parse_schema(sdl: &str, path: &str) -> (r: Result<Schema, WithErrors<Schema>>)
    ensures
        parsed_schema(sdl@, path@) == (match r {
            Ok(schema) => Some(schema_contents(schema)),
            Err(_) => None,
        }),
{
    Schema::parse(sdl, path)
}

/// Calls `coerce_and_validate_schema_values`, which turns strings into enum values, and enum values
/// into strings, where the types ask for it. Claims that what the schema held decides whether the
/// call succeeds, and what the schema then holds.
#[verifier::external_body]
fn coerce_schema_values(schema: &mut Schema) -> (r: Result<(), FederationError>)
    ensures
        coerced_schema(schema_contents(*old(schema))) == (match r {
            Ok(()) => Some(schema_contents(*final(schema))),
            Err(_) => None,
        }),
{
    coerce_and_validate_schema_values(schema)
}

/// Calls `Schema::validate`. Claims that what the schema holds decides whether it is valid.
#[verifier::external_body]
fn validate_schema(schema: Schema) -> (r: Result<Valid<Schema>, WithErrors<Schema>>)
    ensures
        is_valid_schema(schema_contents(schema)) == (r is Ok),
{
    schema.validate()
}

/// Calls `Supergraph::new_with_router_specs`, which parses the text, coerces its values and
/// validates it before it looks for the marks of a supergraph. Where one of the first three steps
/// fails, it formats the errors, which panics for some texts with characters that are longer than a
/// byte: it is called only on texts for which these steps succeed. Claims that the text alone
/// decides whether it is accepted.
#[verifier::external_body]
fn read_supergraph(sdl: &str) -> (r: Result<Supergraph, FederationError>)
    requires
        is_sound(sdl@),
    ensures
        is_supergraph(sdl@) == (r is Ok),
        r matches Ok(supergraph) ==> supergraph_text(supergraph) == sdl@,
{
    Supergraph::new_with_router_specs(sdl)
}

/// Calls `Supergraph::to_api_schema` with the given flags as its options, and copies the schema.
/// Where the API schema is not valid, its errors are formatted, which may panic for a text that is
/// misrendered. Claims that the text of the supergraph and the flags decide whether there is an API
/// schema, which definitions it holds, and what the error says.
#[verifier::external_body]
pub(crate) fn generate_api_schema(
    supergraph: &Supergraph,
    include_defer: bool,
    include_stream: bool,
) -> (r: Result<Valid<Schema>, FederationError>)
    requires
        !misrendered(supergraph_text(*supergraph)),
    ensures
        supergraph_api(supergraph_text(*supergraph), include_defer, include_stream) == (match r {
            Ok(schema) => Ok::<Seq<char>, Seq<char>>(schema_definitions(schema)),
            Err(error) => Err(federation_error_text(error)),
        }),
{
    let options = ApiSchemaOptions { include_defer, include_stream };
    supergraph.to_api_schema(options).map(|api| api.schema().clone())
}

/// Calls `Schema::parse_and_validate`. Claims that the text and its path alone decide whether the
/// text is a valid schema, which definitions the schema holds, and what the errors say.
#[verifier::external_body]
pub(crate) fn parse_and_validate(sdl: &str, path: &str) -> (r: Result<
    Valid<Schema>,
    WithErrors<Schema>,
>)
    ensures
        validated_schema(sdl@, path@) == (match r {
            Err(errors) => Err(schema_errors_text(errors)),
            Ok(schema) => Ok(schema_definitions(schema)),
        }),
{
    Schema::parse_and_validate(sdl, path)
}

/// Calls `to_string` on the schema, which `apollo_compiler` documents as its serialization in the
/// schema definition language. Claims that the result is what the schema is said to hold.
#[verifier::external_body]
fn serialize_schema(schema: &Valid<Schema>) -> (r: String)
    ensures
        r@ == schema_definitions(*schema),
{
    schema.to_string()
}

/// A valid GraphQL schema as the clients of the GraphQL endpoint see it.
pub struct ApiSchema {
    pub document: Valid<Schema>,
}

impl View for ApiSchema {
    type V = Seq<char>;

    open spec fn view(&self) -> Seq<char> {
        schema_definitions(self.document)
    }
}

impl ApiSchema {
    /// The definitions of the schema in the schema definition language.
    pub fn sdl(&self) -> (r: String)
        ensures
            r@ == self@,
    {
        serialize_schema(&self.document)
    }
}

/// The text of a schema as a schema source delivers it.
pub struct SchemaState {
    pub sdl: String,
}

/// The name under which the text of a schema is parsed.
pub const SCHEMA_PATH: &'static str = "schema.graphql";

/// Whether a text holds a valid schema once its values are coerced.
pub open spec fn is_sound(sdl: Seq<char>) -> bool {
    match parsed_schema(sdl, SCHEMA_PATH@) {
        Some(contents) => match coerced_schema(contents) {
            Some(coerced) => is_valid_schema(coerced),
            None => false,
        },
        None => false,
    }
}

/// Whether a text is taken as a supergraph.
pub open spec fn reads_as_supergraph(sdl: Seq<char>) -> bool {
    !misrendered(sdl) && is_sound(sdl) && is_supergraph(sdl)
}

/// What becomes of a text that is to describe an API schema: the definitions of that schema, or why
/// there is none. A supergraph is reduced to its API schema, without the directives `@defer` and
/// `@stream`; any other text is taken as it stands.
pub open spec fn api_schema_outcome(sdl: Seq<char>) -> Result<Seq<char>, Seq<char>> {
    if reads_as_supergraph(sdl) {
        supergraph_api(sdl, false, false)
    } else {
        validated_schema(sdl, SCHEMA_PATH@)
    }
}

/// The definitions of the API schema that a text describes, where it describes one.
pub open spec fn api_schema_definitions(sdl: Seq<char>) -> Option<Seq<char>> {
    match api_schema_outcome(sdl) {
        Ok(definitions) => Some(definitions),
        Err(_) => None,
    }
}

fn check_soundness(sdl: &str) -> (r: bool)
    ensures
        r == is_sound(sdl@),
{
    let mut schema = match parse_schema(sdl, SCHEMA_PATH) {
        Ok(schema) => schema,
        Err(_) => return false,
    };
    match coerce_schema_values(&mut schema) {
        Ok(()) => validate_schema(schema).is_ok(),
        Err(_) => false,
    }
}

/// Reads a text as a supergraph, where it is to be taken as one.
pub(crate) fn find_supergraph(sdl: &str) -> (r: Option<Supergraph>)
    ensures
        r is Some <==> reads_as_supergraph(sdl@),
        r matches Some(supergraph) ==> supergraph_text(supergraph) == sdl@,
{
    if is_misrendered(sdl) || !check_soundness(sdl) {
        return None;
    }
    match read_supergraph(sdl) {
        Ok(supergraph) => Some(supergraph),
        Err(_) => None,
    }
}

} // verus!
