//! The resources of a running server.

use crate::apps::attach_resource_mime_type;
use crate::apps::has_app_mime_type;
use crate::apps::Resource;
use crate::error::invalid_uri;
use crate::error::invalid_uri_message;
use crate::error::McpError;
use crate::error::RESOURCE_NOT_FOUND;
use crate::platform::Platform;
use crate::request::parse_url;
use crate::request::url_parsed;
use crate::running::Running;
use rmcp::model::ResourceContents;
use vstd::prelude::*;

verus! {

/// `rmcp::model::ResourceContents`: what a resource holds.
#[verifier::external_type_specification]
#[verifier::external_body]
pub struct ExResourceContents(rmcp::model::ResourceContents);

/// A list of resources, complete in itself.
pub struct ListResourcesResult {
    pub resources: Vec<Resource>,
    pub next_cursor: Option<String>,
}

/// What is to be looked for among the resources of the apps.
pub struct ResourceQuery<T> {
    /// The serialization of the URI that was asked for.
    pub uri: String,
    /// The kind of client that asks.
    pub target: T,
}

/// What a resource holds, as it is answered to a client.
pub struct ReadResourceResult {
    pub contents: Vec<ResourceContents>,
}

/// Whether this is what a request for a resource comes to before the resource is looked for, given
/// what reading its URI and determining the kind of client have come to. The URI is judged first.
pub open spec fn answers_resource_query<T>(
    parsed: Result<Seq<char>, Seq<char>>,
    target: Result<T, McpError>,
    answer: Result<ResourceQuery<T>, McpError>,
) -> bool {
    match parsed {
        Err(error) => {
            &&& answer matches Err(refusal)
            &&& refusal.says(RESOURCE_NOT_FOUND, invalid_uri_message(error))
        },
        Ok(uri) => match target {
            Err(error) => answer == Err::<ResourceQuery<T>, McpError>(error),
            Ok(target) => {
                &&& answer matches Ok(query)
                &&& query.uri@ == uri
                &&& query.target == target
            },
        },
    }
}

/// Either outcome of reading a URI, seen as a text.
pub open spec fn parsed_text(parsed: Result<String, String>) -> Result<Seq<char>, Seq<char>> {
    match parsed {
        Ok(uri) => Ok(uri@),
        Err(error) => Err(error@),
    }
}

/// Decides what is to be looked for, given what reading the URI and determining the kind of client
/// have come to.
pub fn resource_query<T>(parsed: Result<String, String>, target: Result<T, McpError>) -> (r: Result<
    ResourceQuery<T>,
    McpError,
>)
    ensures
        answers_resource_query(parsed_text(parsed), target, r),
{
    let uri = match parsed {
        Ok(uri) => uri,
        Err(error) => return Err(invalid_uri(error.as_str())),
    };
    match target {
        Ok(target) => Ok(ResourceQuery { uri, target }),
        Err(error) => Err(error),
    }
}

/// Begins to answer a request for a resource: decides what is to be looked for.
pub fn read_resource_begin<T>(uri: &str, target: Result<T, McpError>) -> (r: Result<
    ResourceQuery<T>,
    McpError,
>)
    ensures
        answers_resource_query(url_parsed(uri@), target, r),
{
    resource_query(parse_url(uri), target)
}

/// Whether this is the answer to a request for a resource, given what looking for it has come to.
pub open spec fn answers_resource(
    found: Result<ResourceContents, McpError>,
    answer: Result<ReadResourceResult, McpError>,
) -> bool {
    match found {
        Ok(resource) => answer matches Ok(result) && result.contents@ == seq![resource],
        Err(error) => answer == Err::<ReadResourceResult, McpError>(error),
    }
}

/// Answers a request for a resource, given what looking for it has come to.
pub fn read_resource_end(found: Result<ResourceContents, McpError>) -> (r: Result<
    ReadResourceResult,
    McpError,
>)
    ensures
        answers_resource(found, r),
{
    match found {
        Ok(resource) => {
            let mut contents: Vec<ResourceContents> = Vec::new();
            contents.push(resource);
            assert(contents@ =~= seq![resource]);
            Ok(ReadResourceResult { contents })
        },
        Err(error) => Err(error),
    }
}

impl<P: Platform> Running<P> {
    /// Whether this is the list of the resources of the apps, one for each app, in order.
    pub open spec fn lists_resources(self, list: ListResourcesResult) -> bool {
        &&& list.next_cursor is None
        &&& list.resources@.len() == self.apps@.len()
        &&& forall|i: int|
            0 <= i < self.apps@.len() ==> has_app_mime_type(
                (#[trigger] self.apps@[i]).resource,
                list.resources@[i],
            )
    }

    /// Lists the resources of the apps.
    pub fn list_resources_impl(&self) -> (r: Result<ListResourcesResult, McpError>)
        ensures
            r matches Ok(list) && self.lists_resources(list),
    {
        let mut resources: Vec<Resource> = Vec::new();
        let mut i: usize = 0;
        while i < self.apps.len()
            invariant
                i <= self.apps@.len(),
                resources@.len() == i,
                forall|j: int|
                    0 <= j < i ==> has_app_mime_type(
                        (#[trigger] self.apps@[j]).resource,
                        resources@[j],
                    ),
            decreases self.apps@.len() - i,
        {
            resources.push(attach_resource_mime_type(self.apps[i].resource()));
            i = i + 1;
        }
        Ok(ListResourcesResult { resources, next_cursor: None })
    }
}

} // verus!
