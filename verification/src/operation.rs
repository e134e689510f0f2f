//! Operations: GraphQL operations that are offered as tools.

use crate::platform::Platform;
use crate::schema::ApiSchema;
use rmcp::model::Tool;
use vstd::prelude::*;

verus! {

/// `rmcp::model::Tool`: a tool as it is listed to a client.
#[verifier::external_type_specification]
#[verifier::external_body]
pub struct ExTool(rmcp::model::Tool);

/// The `Clone` of `rmcp::model::Tool`, which `rmcp` derives field by field. Claims that the copy
/// is the same tool.
pub assume_specification[ <rmcp::model::Tool as Clone>::clone ](
    tool: &rmcp::model::Tool,
) -> (r: rmcp::model::Tool)
    ensures
        r == *tool,
;

/// The text of a GraphQL operation, and where it was read from.
pub struct RawOperation {
    pub source_text: String,
    pub source_path: Option<String>,
}

impl From<(String, Option<String>)> for RawOperation {
    fn from(source: (String, Option<String>)) -> (r: Self) {
        RawOperation { source_text: source.0, source_path: source.1 }
    }
}

impl vstd::std_specs::convert::FromSpecImpl<(String, Option<String>)> for RawOperation {
    open spec fn obeys_from_spec() -> bool {
        true
    }

    open spec fn from_spec(source: (String, Option<String>)) -> Self {
        RawOperation { source_text: source.0, source_path: source.1 }
    }
}

impl RawOperation {
    /// The same operation once more.
    pub fn duplicate(&self) -> (r: RawOperation)
        ensures
            r == *self,
    {
        let source_path = match &self.source_path {
            Some(path) => Some(path.clone()),
            None => None,
        };
        RawOperation { source_text: self.source_text.clone(), source_path }
    }
}

/// An operation that is valid for a schema, with the tool it is offered as.
pub struct Operation {
    pub inner: RawOperation,
    pub tool: Tool,
}

impl Operation {
    /// The tool that the operation is offered as.
    pub fn as_ref(&self) -> (r: &Tool)
        ensures
            *r == self.tool,
    {
        &self.tool
    }

    /// The operation as it was read.
    pub fn into_inner(self) -> (r: RawOperation)
        ensures
            r == self.inner,
    {
        self.inner
    }
}

/// How operations become tools.
pub struct OperationSettings<P: Platform> {
    pub custom_scalar_map: Option<P::CustomScalarMap>,
    pub mutation_mode: P::MutationMode,
    pub disable_type_description: bool,
    pub disable_schema_description: bool,
    pub enable_output_schema: bool,
}

/// Whether these are the replies of the compiler to the operations, one by one, for the given
/// schema and settings.
pub open spec fn compiles<P: Platform, E, F>(
    compile: F,
    raw: Seq<RawOperation>,
    schema: ApiSchema,
    settings: OperationSettings<P>,
    replies: Seq<Result<Option<Operation>, E>>,
) -> bool where
    F: Fn(RawOperation, &ApiSchema, &OperationSettings<P>) -> Result<Option<Operation>, E>,
 {
    &&& replies.len() == raw.len()
    &&& forall|i: int|
        0 <= i < raw.len() ==> call_ensures(
            compile,
            (raw[i], &schema, &settings),
            #[trigger] replies[i],
        )
}

/// Whether these operations are what the compiler makes of the given texts: its replies, without
/// those that are errors or no operation.
pub open spec fn compiles_to<P: Platform, E, F>(
    compile: F,
    raw: Seq<RawOperation>,
    schema: ApiSchema,
    settings: OperationSettings<P>,
    operations: Seq<Operation>,
) -> bool where
    F: Fn(RawOperation, &ApiSchema, &OperationSettings<P>) -> Result<Option<Operation>, E>,
 {
    exists|replies: Seq<Result<Option<Operation>, E>>|
        {
            &&& #[trigger] compiles(compile, raw, schema, settings, replies)
            &&& operations == kept_operations(replies)
        }
}

/// The operations among a run of replies, in order: invalid operations, and those that become no
/// tool, are left out.
pub open spec fn kept_operations<E>(replies: Seq<Result<Option<Operation>, E>>) -> Seq<Operation>
    decreases replies.len(),
{
    if replies.len() == 0 {
        Seq::empty()
    } else {
        let before = kept_operations(replies.drop_last());
        match replies.last() {
            Ok(Some(operation)) => before.push(operation),
            _ => before,
        }
    }
}

/// Keeps the operations among the replies of the compiler.
pub fn keep_operations<E>(replies: Vec<Result<Option<Operation>, E>>) -> (r: Vec<Operation>)
    ensures
        r@ == kept_operations(replies@),
{
    let mut operations: Vec<Operation> = Vec::new();
    for reply in iter: replies
        invariant
            operations@ == kept_operations(iter.seq().take(iter.index())),
    {
        proof {
            let seen = iter.seq().take(iter.index() + 1);
            assert(seen.drop_last() =~= iter.seq().take(iter.index()));
        }
        if let Ok(Some(operation)) = reply {
            operations.push(operation);
        }
    }
    proof {
        assert(replies@.take(replies@.len() as int) =~= replies@);
    }
    operations
}

/// Turns operations into tools for a schema. An operation that the compiler refuses is left out,
/// and does not keep the others from becoming tools.
pub fn compile_operations<P: Platform, E, F>(
    raw: Vec<RawOperation>,
    schema: &ApiSchema,
    settings: &OperationSettings<P>,
    compile: F,
) -> (r: Vec<Operation>) where
    F: Fn(RawOperation, &ApiSchema, &OperationSettings<P>) -> Result<Option<Operation>, E>,

    requires
        forall|args| #[trigger] call_requires(compile, args),
    ensures
        compiles_to(compile, raw@, *schema, *settings, r@),
{
    let mut replies: Vec<Result<Option<Operation>, E>> = Vec::new();
    for operation in iter: raw
        invariant
            compiles(compile, iter.seq().take(iter.index()), *schema, *settings, replies@),
            forall|args| #[trigger] call_requires(compile, args),
    {
        let reply = compile(operation, schema, settings);
        replies.push(reply);
    }
    proof {
        assert(raw@.take(raw@.len() as int) =~= raw@);
    }
    keep_operations(replies)
}

/// The texts of operations that have become tools.
pub open spec fn raw_operations(operations: Seq<Operation>) -> Seq<RawOperation> {
    operations.map_values(|operation: Operation| operation.inner)
}

/// Copies the texts of operations that have become tools.
pub fn copy_raw_operations(operations: &Vec<Operation>) -> (r: Vec<RawOperation>)
    ensures
        r@ == raw_operations(operations@),
{
    let mut raw: Vec<RawOperation> = Vec::new();
    let mut i: usize = 0;
    while i < operations.len()
        invariant
            i <= operations@.len(),
            raw@ == raw_operations(operations@.take(i as int)),
        decreases operations@.len() - i,
    {
        raw.push(operations[i].inner.duplicate());
        i = i + 1;
        assert(raw@ =~= raw_operations(operations@.take(i as int)));
    }
    assert(operations@.take(i as int) =~= operations@);
    raw
}

} // verus!
