//! What a running server tells and answers its clients, on every server and for every request.

use crate::apps::attach_resource_mime_type;
use crate::apps::find_app;
use crate::apps::has_app;
use crate::apps::is_first_named;
use crate::apps::App;
use crate::apps::Resource;
use crate::error::app_not_found;
use crate::error::invalid_uri;
use crate::error::tool_not_found;
use crate::error::McpError;
use crate::laws_machine::became_of;
use crate::laws_machine::lemma_became_of;
use crate::laws_machine::texts_of;
use crate::operation::raw_operations;
use crate::operation::Operation;
use crate::operation::OperationSettings;
use crate::operation::RawOperation;
use crate::platform::Platform;
use crate::request::app_parameter;
use crate::request::app_parameter_of;
use crate::request::first_value;
use crate::request::first_value_of;
use crate::request::form_pairs;
use crate::request::pair_texts;
use crate::request::url_parsed;
use crate::resources::read_resource_begin;
use crate::resources::read_resource_end;
use crate::resources::resource_query;
use crate::resources::ListResourcesResult;
use crate::resources::ReadResourceResult;
use crate::resources::ResourceQuery;
use crate::running::reachable_peers;
use crate::running::retain_peers;
use crate::running::NotifyRound;
use crate::running::PeerReport;
use crate::running::Running;
use crate::schema::ApiSchema;
use crate::server_info::server_info;
use crate::server_info::Implementation;
use crate::server_info::ResourcesCapability;
use crate::server_info::ServerCapabilities;
use crate::server_info::ServerInfo;
use crate::server_info::ServerInfoConfig;
use crate::server_info::ToolsCapability;
use crate::tool_call::invalid_input;
use crate::tool_call::CallAnswer;
use crate::tool_call::CallEvent;
use crate::tool_call::CallProgress;
use crate::tool_call::CallRecord;
use crate::tool_call::CallStage;
use crate::tool_call::CallToolResult;
use crate::tool_call::Content;
use crate::tool_call::ToolNames;
use crate::tools::ListToolsResult;
use reqwest::header::HeaderMap;
use reqwest::header::HeaderValue;
use rmcp::model::ResourceContents;
use rmcp::model::Tool;
use vstd::prelude::*;

verus! {

/// Whenever a client's HTTP request led to an outgoing request, the headers are built from the
/// configured headers, the list of headers to forward, that request, the flag for the
/// authorization, and the transform, whether there is one or not.
pub proof fn law_client_requests_are_always_built_from<P: Platform, B, T>(
    running: Running<P>,
    request: &P::RequestParts,
    build: B,
    transform: T,
    headers: HeaderMap<HeaderValue>,
) where
    B: Fn(
        &HeaderMap<HeaderValue>,
        &P::ForwardHeaders,
        &P::RequestParts,
        bool,
        Option<&P::HeaderTransform>,
    ) -> HeaderMap<HeaderValue>,
    T: Fn(&P::HeaderTransform, HeaderMap<HeaderValue>) -> HeaderMap<HeaderValue>,

    requires
        call_ensures(
            Running::<P>::request_headers::<B, T>,
            (&running, Some(request), build, transform),
            headers,
        ),
    ensures
        running.header_transform is None ==> call_ensures(
            build,
            (
                &running.headers,
                &running.forward_headers,
                request,
                running.disable_auth_token_passthrough,
                None::<&P::HeaderTransform>,
            ),
            headers,
        ),
        running.header_transform matches Some(change) ==> call_ensures(
            build,
            (
                &running.headers,
                &running.forward_headers,
                request,
                running.disable_auth_token_passthrough,
                Some(&change),
            ),
            headers,
        ),
{
}

/// Where no HTTP request led to an outgoing request, the configured headers are sent: as they are
/// where there is no transform, and otherwise as the transform changes them.
pub proof fn law_configured_headers_are_sent_without_a_request<P: Platform, B, T>(
    running: Running<P>,
    build: B,
    transform: T,
    headers: HeaderMap<HeaderValue>,
) where
    B: Fn(
        &HeaderMap<HeaderValue>,
        &P::ForwardHeaders,
        &P::RequestParts,
        bool,
        Option<&P::HeaderTransform>,
    ) -> HeaderMap<HeaderValue>,
    T: Fn(&P::HeaderTransform, HeaderMap<HeaderValue>) -> HeaderMap<HeaderValue>,

    requires
        call_ensures(
            Running::<P>::request_headers::<B, T>,
            (&running, None::<&P::RequestParts>, build, transform),
            headers,
        ),
    ensures
        running.header_transform is None ==> headers == running.headers,
        running.header_transform matches Some(change) ==> call_ensures(
            transform,
            (&change, running.headers),
            headers,
        ),
{
}

/// One where a tool is switched on, and zero where it is off.
pub open spec fn one_if_on(tool: Option<Tool>) -> int {
    if tool is Some {
        1
    } else {
        0
    }
}

/// Whether a list holds the tools that are offered outside of apps: the tool of each operation at
/// its place, then execute, introspect, search, explorer and validate, each where it is switched
/// on, whatever the others are, and nothing else.
pub open spec fn is_general_list<P: Platform>(running: Running<P>, tools: Seq<Tool>) -> bool {
    let at_execute = running.operations@.len() as int;
    let at_introspect = at_execute + one_if_on(running.execute_tool);
    let at_search = at_introspect + one_if_on(running.introspect_tool);
    let at_explorer = at_search + one_if_on(running.search_tool);
    let at_validate = at_explorer + one_if_on(running.explorer_tool);
    &&& tools.len() == at_validate + one_if_on(running.validate_tool)
    &&& forall|i: int|
        0 <= i < running.operations@.len() ==> tools[i] == (#[trigger] running.operations@[i]).tool
    &&& running.execute_tool matches Some(tool) ==> tools[at_execute] == tool
    &&& running.introspect_tool matches Some(tool) ==> tools[at_introspect] == tool
    &&& running.search_tool matches Some(tool) ==> tools[at_search] == tool
    &&& running.explorer_tool matches Some(tool) ==> tools[at_explorer] == tool
    &&& running.validate_tool matches Some(tool) ==> tools[at_validate] == tool
}

/// Whether a list holds the tools that are offered within an app: the execute tool, hidden from the
/// model, where it is switched on, then each tool of the app with its metadata, and nothing else.
pub open spec fn is_list_of_app<P: Platform, M, A>(
    running: Running<P>,
    app: App<P>,
    target: P::AppTarget,
    make_private: M,
    attach_metadata: A,
    tools: Seq<Tool>,
) -> bool where M: Fn(Tool) -> Tool, A: Fn(&App<P>, &P::AppTool, &P::AppTarget) -> Tool {
    let skipped = one_if_on(running.execute_tool);
    &&& tools.len() == skipped + app.tools@.len()
    &&& running.execute_tool matches Some(tool) ==> call_ensures(make_private, (tool,), tools[0])
    &&& forall|i: int|
        0 <= i < app.tools@.len() ==> call_ensures(
            attach_metadata,
            (&app, #[trigger] &app.tools@[i], &target),
            tools[skipped + i],
        )
}

/// A client that asks for no app is listed each operation, and each built-in tool that is switched
/// on independently of the others, in their order.
pub proof fn law_each_tool_that_is_on_is_listed<P: Platform, M, A>(
    running: Running<P>,
    target: P::AppTarget,
    make_private: M,
    attach_metadata: A,
    answer: Result<ListToolsResult, McpError>,
) where M: Fn(Tool) -> Tool, A: Fn(&App<P>, &P::AppTool, &P::AppTarget) -> Tool
    requires
        call_ensures(
            Running::<P>::list_tools_for::<M, A>,
            (&running, None::<String>, Ok(target), make_private, attach_metadata),
            answer,
        ),
    ensures
        answer matches Ok(list) && is_general_list(running, list.tools@) && list.next_cursor
            is None,
        answer matches Ok(list) ==> {
            &&& running.execute_tool matches Some(tool) ==> list.tools@.contains(tool)
            &&& running.introspect_tool matches Some(tool) ==> list.tools@.contains(tool)
            &&& running.search_tool matches Some(tool) ==> list.tools@.contains(tool)
            &&& running.explorer_tool matches Some(tool) ==> list.tools@.contains(tool)
            &&& running.validate_tool matches Some(tool) ==> list.tools@.contains(tool)
        },
{
    if let Ok(list) = answer {
        lemma_general_list(running, list.tools@);
    }
}

proof fn lemma_general_list<P: Platform>(running: Running<P>, tools: Seq<Tool>)
    requires
        tools == running.general_tools(),
    ensures
        is_general_list(running, tools),
        running.execute_tool matches Some(tool) ==> tools.contains(tool),
        running.introspect_tool matches Some(tool) ==> tools.contains(tool),
        running.search_tool matches Some(tool) ==> tools.contains(tool),
        running.explorer_tool matches Some(tool) ==> tools.contains(tool),
        running.validate_tool matches Some(tool) ==> tools.contains(tool),
{
    assert(is_general_list(running, tools));
}

/// A client that asks for an app is listed the tools of the first app of that name, all of them and
/// in their order, behind the hidden execute tool; where there is no such app, the client is told
/// so by its name.
pub proof fn law_an_app_is_listed_completely<P: Platform, M, A>(
    running: Running<P>,
    name: String,
    target: P::AppTarget,
    make_private: M,
    attach_metadata: A,
    answer: Result<ListToolsResult, McpError>,
    place: int,
) where M: Fn(Tool) -> Tool, A: Fn(&App<P>, &P::AppTool, &P::AppTarget) -> Tool
    requires
        call_ensures(
            Running::<P>::list_tools_for::<M, A>,
            (&running, Some(name), Ok(target), make_private, attach_metadata),
            answer,
        ),
        0 <= place < running.apps@.len(),
        running.apps@[place].name@ == name@,
        forall|i: int| 0 <= i < place ==> (#[trigger] running.apps@[i]).name@ != name@,
    ensures
        answer matches Ok(list) && is_list_of_app(
            running,
            running.apps@[place],
            target,
            make_private,
            attach_metadata,
            list.tools@,
        ) && list.next_cursor is None,
{
    lemma_list_of_app(running, name@, target, make_private, attach_metadata, answer, place);
}

proof fn lemma_list_of_app<P: Platform, M, A>(
    running: Running<P>,
    name: Seq<char>,
    target: P::AppTarget,
    make_private: M,
    attach_metadata: A,
    answer: Result<ListToolsResult, McpError>,
    place: int,
) where M: Fn(Tool) -> Tool, A: Fn(&App<P>, &P::AppTool, &P::AppTarget) -> Tool
    requires
        running.answers_list_tools(Some(name), Ok(target), make_private, attach_metadata, answer),
        0 <= place < running.apps@.len(),
        running.apps@[place].name@ == name,
        forall|i: int| 0 <= i < place ==> (#[trigger] running.apps@[i]).name@ != name,
    ensures
        answer matches Ok(list) && is_list_of_app(
            running,
            running.apps@[place],
            target,
            make_private,
            attach_metadata,
            list.tools@,
        ) && list.next_cursor is None,
{
    assert(has_app(running.apps@, name));
    let tools = answer->Ok_0.tools@;
    let found = choose|found: int|
        {
            &&& #[trigger] is_first_named(running.apps@, name, found)
            &&& running.lists_app_tools(
                running.apps@[found],
                target,
                make_private,
                attach_metadata,
                tools,
            )
        };
    assert(found == place) by {
        if found < place {
            assert(running.apps@[found].name@ != name);
        }
        if place < found {
            assert(running.apps@[place].name@ != name);
        }
    }
}

/// An app that there is not is refused by its name, as an invalid request.
pub proof fn law_missing_app_is_refused_by_name<P: Platform, M, A>(
    running: Running<P>,
    name: String,
    target: P::AppTarget,
    make_private: M,
    attach_metadata: A,
    answer: Result<ListToolsResult, McpError>,
) where M: Fn(Tool) -> Tool, A: Fn(&App<P>, &P::AppTool, &P::AppTarget) -> Tool
    requires
        call_ensures(
            Running::<P>::list_tools_for::<M, A>,
            (&running, Some(name), Ok(target), make_private, attach_metadata),
            answer,
        ),
        forall|i: int|
            0 <= i < running.apps@.len() ==> (#[trigger] running.apps@[i]).name@ != name@,
    ensures
        answer matches Err(error) && error.code == -32600 && error.message@ == "App "@ + name@
            + " not found"@ && error.data is None,
{
}

/// A client whose kind is in doubt is refused for that very reason, whatever it asks for.
pub proof fn law_client_in_doubt_is_refused<P: Platform, M, A>(
    running: Running<P>,
    name: Option<String>,
    query: Option<&str>,
    error: McpError,
    make_private: M,
    attach_metadata: A,
    answer: Result<ListToolsResult, McpError>,
    answer_to_query: Result<ListToolsResult, McpError>,
) where M: Fn(Tool) -> Tool, A: Fn(&App<P>, &P::AppTool, &P::AppTarget) -> Tool
    requires
        call_ensures(
            Running::<P>::list_tools_for::<M, A>,
            (&running, name, Err(error), make_private, attach_metadata),
            answer,
        ),
        call_ensures(
            Running::<P>::list_tools_impl::<M, A>,
            (&running, query, Err(error), make_private, attach_metadata),
            answer_to_query,
        ),
    ensures
        answer == Err::<ListToolsResult, McpError>(error),
        answer_to_query == Err::<ListToolsResult, McpError>(error),
{
}

/// Whether a query string asks for an app: the value of its first parameter `app`, where it has
/// one.
pub open spec fn asks_for(query: Option<&str>, app: Option<Seq<char>>) -> bool {
    match query {
        None => app is None,
        Some(query) => is_first_value(form_pairs(query@), "app"@, app),
    }
}

/// Whether a value is that of the first pair of a name, where there is such a pair.
pub open spec fn is_first_value(
    pairs: Seq<(Seq<char>, Seq<char>)>,
    name: Seq<char>,
    value: Option<Seq<char>>,
) -> bool {
    match value {
        Some(value) => exists|i: int|
            {
                &&& 0 <= i < pairs.len()
                &&& #[trigger] pairs[i] == (name, value)
                &&& forall|j: int| 0 <= j < i ==> (#[trigger] pairs[j]).0 != name
            },
        None => forall|i: int| 0 <= i < pairs.len() ==> (#[trigger] pairs[i]).0 != name,
    }
}

proof fn lemma_first_value(pairs: Seq<(Seq<char>, Seq<char>)>, name: Seq<char>)
    ensures
        is_first_value(pairs, name, first_value_of(pairs, name)),
    decreases pairs.len(),
{
    if pairs.len() > 0 && pairs[0].0 != name {
        let rest = pairs.drop_first();
        lemma_first_value(rest, name);
        match first_value_of(rest, name) {
            Some(value) => {
                let i = choose|i: int|
                    {
                        &&& 0 <= i < rest.len()
                        &&& #[trigger] rest[i] == (name, value)
                        &&& forall|j: int| 0 <= j < i ==> (#[trigger] rest[j]).0 != name
                    };
                assert(pairs[i + 1] == (name, value));
                assert forall|j: int| 0 <= j < i + 1 implies (#[trigger] pairs[j]).0 != name by {
                    if j > 0 {
                        assert(rest[j - 1] == pairs[j]);
                    }
                }
            },
            None => {
                assert forall|j: int| 0 <= j < pairs.len() implies (#[trigger] pairs[j]).0
                    != name by {
                    if j > 0 {
                        assert(rest[j - 1] == pairs[j]);
                    }
                }
            },
        }
    } else if pairs.len() > 0 {
        assert(pairs[0] == (name, pairs[0].1));
    }
}

proof fn lemma_first_value_is_one(
    pairs: Seq<(Seq<char>, Seq<char>)>,
    name: Seq<char>,
    one: Option<Seq<char>>,
    other: Option<Seq<char>>,
)
    requires
        is_first_value(pairs, name, one),
        is_first_value(pairs, name, other),
    ensures
        one == other,
{
    if let Some(value) = one {
        let i = choose|i: int|
            {
                &&& 0 <= i < pairs.len()
                &&& #[trigger] pairs[i] == (name, value)
                &&& forall|j: int| 0 <= j < i ==> (#[trigger] pairs[j]).0 != name
            };
        assert(pairs[i].0 == name);
    }
    if let Some(value) = other {
        let i = choose|i: int|
            {
                &&& 0 <= i < pairs.len()
                &&& #[trigger] pairs[i] == (name, value)
                &&& forall|j: int| 0 <= j < i ==> (#[trigger] pairs[j]).0 != name
            };
        assert(pairs[i].0 == name);
    }
}

/// The value that is found for a name is that of the first pair of that name, and none is found
/// exactly where there is no such pair.
pub proof fn law_first_pair_of_a_name_counts(
    pairs: &Vec<(String, String)>,
    name: &str,
    found: Option<String>,
)
    requires
        call_ensures(first_value, (pairs, name), found),
    ensures
        match found {
            Some(value) => exists|i: int|
                {
                    &&& 0 <= i < pairs@.len()
                    &&& (#[trigger] pairs@[i]).0@ == name@
                    &&& pairs@[i].1@ == value@
                    &&& forall|j: int| 0 <= j < i ==> (#[trigger] pairs@[j]).0@ != name@
                },
            None => forall|i: int| 0 <= i < pairs@.len() ==> (#[trigger] pairs@[i]).0@ != name@,
        },
{
    let texts = pair_texts(pairs@);
    assert forall|i: int| 0 <= i < pairs@.len() implies (#[trigger] pairs@[i]).0@ == texts[i].0
        && pairs@[i].1@ == texts[i].1 by {}
    lemma_first_value(texts, name@);
    match found {
        Some(value) => {
            let i = choose|i: int|
                {
                    &&& 0 <= i < texts.len()
                    &&& #[trigger] texts[i] == (name@, value@)
                    &&& forall|j: int| 0 <= j < i ==> (#[trigger] texts[j]).0 != name@
                };
            assert(pairs@[i].0@ == name@);
            assert(pairs@[i].1@ == value@);
            assert forall|j: int| 0 <= j < i implies (#[trigger] pairs@[j]).0@ != name@ by {
                assert(texts[j].0 != name@);
            }
        },
        None => {
            assert forall|j: int| 0 <= j < pairs@.len() implies (#[trigger] pairs@[j]).0@
                != name@ by {
                assert(texts[j].0 != name@);
            }
        },
    }
}

/// The app that a request asks for is the value of its first query parameter `app`.
pub proof fn law_app_parameter_is_the_first_of_its_name(query: Option<&str>, found: Option<String>)
    requires
        call_ensures(app_parameter, (query,), found),
    ensures
        found matches Some(name) ==> asks_for(query, Some(name@)),
        found is None ==> asks_for(query, None),
{
    if let Some(text) = query {
        lemma_first_value(form_pairs(text@), "app"@);
    }
}

proof fn lemma_asks_for(query: Option<&str>, app: Option<Seq<char>>)
    requires
        asks_for(query, app),
    ensures
        app_parameter_of(query) == app,
{
    if let Some(text) = query {
        lemma_first_value(form_pairs(text@), "app"@);
        lemma_first_value_is_one(form_pairs(text@), "app"@, app, app_parameter_of(query));
    }
}

/// A request whose query string asks for no app is answered with the general list.
pub proof fn law_request_without_app_gets_the_general_list<P: Platform, M, A>(
    running: Running<P>,
    query: Option<&str>,
    target: P::AppTarget,
    make_private: M,
    attach_metadata: A,
    answer: Result<ListToolsResult, McpError>,
) where M: Fn(Tool) -> Tool, A: Fn(&App<P>, &P::AppTool, &P::AppTarget) -> Tool
    requires
        asks_for(query, None),
        call_ensures(
            Running::<P>::list_tools_impl::<M, A>,
            (&running, query, Ok(target), make_private, attach_metadata),
            answer,
        ),
    ensures
        answer matches Ok(list) && is_general_list(running, list.tools@) && list.next_cursor
            is None,
{
    lemma_asks_for(query, None);
    if let Ok(list) = answer {
        lemma_general_list(running, list.tools@);
    }
}

/// A request whose query string asks for an app is answered with the list of the first app of that
/// name.
pub proof fn law_request_for_an_app_gets_its_list<P: Platform, M, A>(
    running: Running<P>,
    query: Option<&str>,
    name: Seq<char>,
    target: P::AppTarget,
    make_private: M,
    attach_metadata: A,
    answer: Result<ListToolsResult, McpError>,
    place: int,
) where M: Fn(Tool) -> Tool, A: Fn(&App<P>, &P::AppTool, &P::AppTarget) -> Tool
    requires
        asks_for(query, Some(name)),
        call_ensures(
            Running::<P>::list_tools_impl::<M, A>,
            (&running, query, Ok(target), make_private, attach_metadata),
            answer,
        ),
        0 <= place < running.apps@.len(),
        running.apps@[place].name@ == name,
        forall|i: int| 0 <= i < place ==> (#[trigger] running.apps@[i]).name@ != name,
    ensures
        answer matches Ok(list) && is_list_of_app(
            running,
            running.apps@[place],
            target,
            make_private,
            attach_metadata,
            list.tools@,
        ) && list.next_cursor is None,
{
    lemma_asks_for(query, Some(name));
    lemma_list_of_app(running, name, target, make_private, attach_metadata, answer, place);
}

/// A request whose query string asks for an app that there is not is refused by its name.
pub proof fn law_request_for_a_missing_app_is_refused<P: Platform, M, A>(
    running: Running<P>,
    query: Option<&str>,
    name: Seq<char>,
    target: P::AppTarget,
    make_private: M,
    attach_metadata: A,
    answer: Result<ListToolsResult, McpError>,
) where M: Fn(Tool) -> Tool, A: Fn(&App<P>, &P::AppTool, &P::AppTarget) -> Tool
    requires
        asks_for(query, Some(name)),
        call_ensures(
            Running::<P>::list_tools_impl::<M, A>,
            (&running, query, Ok(target), make_private, attach_metadata),
            answer,
        ),
        forall|i: int|
            0 <= i < running.apps@.len() ==> (#[trigger] running.apps@[i]).name@ != name,
    ensures
        answer matches Err(error) && error.code == -32600 && error.message@ == "App "@ + name
            + " not found"@ && error.data is None,
{
    lemma_asks_for(query, Some(name));
}

/// The app that is found is the first of its name, and one is found exactly where there is one.
pub proof fn law_first_app_of_a_name_is_found<P: Platform>(
    apps: &Vec<App<P>>,
    name: &str,
    found: Option<usize>,
)
    requires
        call_ensures(find_app::<P>, (apps, name), found),
    ensures
        match found {
            Some(place) => {
                &&& place < apps@.len()
                &&& apps@[place as int].name@ == name@
                &&& forall|i: int| 0 <= i < place ==> (#[trigger] apps@[i]).name@ != name@
            },
            None => forall|i: int| 0 <= i < apps@.len() ==> (#[trigger] apps@[i]).name@ != name@,
        },
{
}

/// The resource of each app is listed, at the place of the app, with all that it holds but for its
/// MIME type, which is that of apps.
pub proof fn law_resource_of_each_app_is_listed<P: Platform>(
    running: Running<P>,
    answer: Result<ListResourcesResult, McpError>,
)
    requires
        call_ensures(Running::<P>::list_resources_impl, (&running,), answer),
    ensures
        answer matches Ok(list) && list.next_cursor is None && list.resources@.len()
            == running.apps@.len(),
        answer matches Ok(list) ==> forall|i: int|
            0 <= i < running.apps@.len() ==> is_listed_as(
                (#[trigger] running.apps@[i]).resource,
                list.resources@[i],
            ),
{
}

/// Whether a resource is listed as another: the same but for the MIME type of apps.
pub open spec fn is_listed_as(resource: Resource, listed: Resource) -> bool {
    &&& listed.uri == resource.uri
    &&& listed.name == resource.name
    &&& listed.title == resource.title
    &&& listed.description == resource.description
    &&& listed.mime_type matches Some(mime_type)
    &&& mime_type@ == "text/html;profile=mcp-app"@
}

/// The resource of an app is what the app holds, and attaching the MIME type changes nothing else.
pub proof fn law_resources_keep_what_they_hold<P: Platform>(
    app: &App<P>,
    held: Resource,
    resource: Resource,
    attached: Resource,
)
    requires
        call_ensures(App::<P>::resource, (app,), held),
        call_ensures(attach_resource_mime_type, (resource,), attached),
    ensures
        held.uri == app.resource.uri,
        held.name == app.resource.name,
        held.title == app.resource.title,
        held.description == app.resource.description,
        held.mime_type == app.resource.mime_type,
        is_listed_as(resource, attached),
{
}

/// A request for a resource is refused first for its URI, with what is wrong with it, then for the
/// kind of client; and otherwise the resource is looked for by the URI as it is normally written.
pub proof fn law_request_for_a_resource_is_judged<T>(
    uri: &str,
    target: Result<T, McpError>,
    answer: Result<ResourceQuery<T>, McpError>,
)
    requires
        call_ensures(read_resource_begin::<T>, (uri, target), answer),
    ensures
        match url_parsed(uri@) {
            Err(text) => {
                &&& answer matches Err(error)
                &&& error.code == -32002
                &&& error.message@ == "Requested resource has an invalid URI: "@ + text
                &&& error.data is None
            },
            Ok(text) => match target {
                Err(error) => answer == Err::<ResourceQuery<T>, McpError>(error),
                Ok(kind) => {
                    &&& answer matches Ok(query)
                    &&& query.uri@ == text
                    &&& query.target == kind
                },
            },
        },
{
}

/// The same holds given what reading the URI has come to.
pub proof fn law_reading_of_a_uri_decides<T>(
    parsed: Result<String, String>,
    target: Result<T, McpError>,
    answer: Result<ResourceQuery<T>, McpError>,
)
    requires
        call_ensures(resource_query::<T>, (parsed, target), answer),
    ensures
        match parsed {
            Err(text) => {
                &&& answer matches Err(error)
                &&& error.code == -32002
                &&& error.message@ == "Requested resource has an invalid URI: "@ + text@
                &&& error.data is None
            },
            Ok(text) => match target {
                Err(error) => answer == Err::<ResourceQuery<T>, McpError>(error),
                Ok(kind) => {
                    &&& answer matches Ok(query)
                    &&& query.uri@ == text@
                    &&& query.target == kind
                },
            },
        },
{
}

/// A resource that was found is the only content of the answer; why none was found is answered as
/// it is.
pub proof fn law_found_resource_is_the_answer(
    found: Result<ResourceContents, McpError>,
    answer: Result<ReadResourceResult, McpError>,
)
    requires
        call_ensures(read_resource_end, (found,), answer),
    ensures
        found matches Ok(resource) ==> answer matches Ok(result) && result.contents@.len() == 1
            && result.contents@[0] == resource,
        found matches Err(error) ==> answer == Err::<ReadResourceResult, McpError>(error),
{
}

/// Refusals have the code of their kind, and say what they are about.
pub proof fn law_refusals_say_what_they_are_about(
    name: &str,
    errors: (McpError, McpError, McpError),
)
    requires
        call_ensures(tool_not_found, (name,), errors.0),
        call_ensures(app_not_found, (name,), errors.1),
        call_ensures(invalid_uri, (name,), errors.2),
    ensures
        errors.0.code == -32601,
        errors.0.message@ == "Tool "@ + name@ + " not found"@,
        errors.0.data is None,
        errors.1.code == -32600,
        errors.1.message@ == "App "@ + name@ + " not found"@,
        errors.1.data is None,
        errors.2.code == -32002,
        errors.2.message@ == "Requested resource has an invalid URI: "@ + name@,
        errors.2.data is None,
{
}

/// Whether an answer says that a tool cannot read its arguments: one text, marked as an error.
pub open spec fn says_invalid_input(error: Seq<char>, answer: CallToolResult) -> bool {
    &&& answer.content@.len() == 1
    &&& answer.content@[0] matches Content::Text(text)
    &&& text@ == "Invalid input: "@ + error
    &&& answer.is_error == Some(true)
    &&& answer.structured_content is None
    &&& answer.meta is None
}

/// Arguments that cannot be read are answered with a text that says why, marked as an error.
pub proof fn law_unreadable_arguments_are_explained(error: &str, answer: CallToolResult)
    requires
        call_ensures(invalid_input, (error,), answer),
    ensures
        says_invalid_input(error@, answer),
{
}

/// What a tool answers ends the call with that answer, at every stage.
pub proof fn law_answers_end_calls(
    stage: CallStage,
    tool_name: &str,
    answer: CallAnswer,
    progress: CallProgress,
)
    requires
        call_ensures(
            CallStage::advance,
            (stage, tool_name, CallEvent::Answered(answer)),
            progress,
        ),
    ensures
        progress == CallProgress::Finished(answer),
{
}

/// Arguments that cannot be read end the call with an answer that says so, at every stage.
pub proof fn law_unreadable_arguments_end_calls(
    stage: CallStage,
    tool_name: &str,
    error: String,
    progress: CallProgress,
)
    requires
        call_ensures(
            CallStage::advance,
            (stage, tool_name, CallEvent::InvalidArguments(error)),
            progress,
        ),
    ensures
        progress matches CallProgress::Finished(Ok(answer)) && says_invalid_input(error@, answer),
{
}

/// A name that is not known is looked up in the app that the client asked for, where the operations
/// were asked before; in every other case the call is refused by that name.
pub proof fn law_unknown_names_are_looked_up_then_refused(
    stage: CallStage,
    tool_name: &str,
    progress: CallProgress,
)
    requires
        call_ensures(CallStage::advance, (stage, tool_name, CallEvent::NotFound), progress),
    ensures
        match stage {
            CallStage::Operation(Some(app_name)) => progress == CallProgress::Continue(
                CallStage::AppTool(app_name),
            ),
            _ => {
                &&& progress matches CallProgress::Finished(Err(error))
                &&& error.code == -32601
                &&& error.message@ == "Tool "@ + tool_name@ + " not found"@
                &&& error.data is None
            },
        },
{
}

/// Whether a call of a name goes to the built-in tools in their order: the first one that is called
/// by that name and is switched on takes the call, and otherwise the operations are asked, together
/// with the app that the client asked for.
pub open spec fn goes_to<P: Platform>(
    running: Running<P>,
    names: ToolNames,
    tool_name: Seq<char>,
    app_name: Option<Seq<char>>,
    stage: CallStage,
) -> bool {
    let introspect = running.introspect_tool is Some && names.introspect@ == tool_name;
    let search = running.search_tool is Some && names.search@ == tool_name;
    let explorer = running.explorer_tool is Some && names.explorer@ == tool_name;
    let execute = running.execute_tool is Some && names.execute@ == tool_name;
    let validate = running.validate_tool is Some && names.validate@ == tool_name;
    &&& stage is Introspect <==> introspect
    &&& stage is Search <==> search && !introspect
    &&& stage is Explorer <==> explorer && !search && !introspect
    &&& stage is Execute <==> execute && !explorer && !search && !introspect
    &&& stage is Validate <==> validate && !execute && !explorer && !search && !introspect
    &&& stage is Operation <==> !validate && !execute && !explorer && !search && !introspect
    &&& !(stage is AppTool)
    &&& stage matches CallStage::Operation(asked) ==> match asked {
        Some(name) => app_name == Some(name@),
        None => app_name is None,
    }
}

/// A call goes to the built-in tool of its name that is switched on, and otherwise to the
/// operations.
pub proof fn law_calls_go_to_the_tool_of_their_name<P: Platform>(
    running: Running<P>,
    names: &ToolNames,
    tool_name: &str,
    app_name: Option<String>,
    stage: CallStage,
)
    requires
        call_ensures(Running::<P>::route_call, (&running, names, tool_name, app_name), stage),
    ensures
        goes_to(
            running,
            *names,
            tool_name@,
            match app_name {
                Some(name) => Some(name@),
                None => None,
            },
            stage,
        ),
{
}

/// A call with a query string goes where it goes with the app that the query string asks for.
pub proof fn law_calls_know_the_app_that_was_asked_for<P: Platform>(
    running: Running<P>,
    names: &ToolNames,
    tool_name: &str,
    query: Option<&str>,
    app: Option<Seq<char>>,
    stage: CallStage,
)
    requires
        asks_for(query, app),
        call_ensures(Running::<P>::begin_call, (&running, names, tool_name, query), stage),
    ensures
        goes_to(running, *names, tool_name@, app, stage),
{
    lemma_asks_for(query, app);
}

/// A call is recorded as a success exactly where it was not refused and the tool did not report an
/// error, and as rejected exactly where it was refused and there is a health check.
pub proof fn law_calls_are_recorded_as_they_went<P: Platform>(
    running: Running<P>,
    answer: &CallAnswer,
    record: CallRecord,
)
    requires
        call_ensures(Running::<P>::record_call, (&running, answer), record),
    ensures
        *answer is Err ==> !record.success,
        *answer matches Ok(result) ==> (record.success <==> result.is_error is None
            || result.is_error == Some(false)),
        record.rejected <==> *answer is Err && running.health_check is Some,
{
    if let Ok(result) = *answer {
        if let Some(is_error) = result.is_error {
            assert(is_error ==> result.is_error == Some(true));
            assert(!is_error ==> result.is_error == Some(false));
        }
    }
}

/// Whether a text is the configured one, where one is configured, and otherwise the default.
pub open spec fn is_configured_or(
    text: Seq<char>,
    configured: Option<String>,
    default: Seq<char>,
) -> bool {
    match configured {
        Some(given) => text == given@,
        None => text == default,
    }
}

/// Whether a server names itself as it is configured to, each part independently of the others.
pub open spec fn is_named_by(config: ServerInfoConfig, named: Implementation) -> bool {
    &&& is_configured_or(named.name@, config.name, "Apollo MCP Server"@)
    &&& is_configured_or(named.version@, config.version, "1.0.0"@)
    &&& named.title matches Some(title)
    &&& is_configured_or(title@, config.title, "Apollo MCP Server"@)
    &&& named.website_url matches Some(url)
    &&& is_configured_or(
        url@,
        config.website_url,
        "https://www.apollographql.com/docs/apollo-mcp-server"@,
    )
    &&& named.description matches Some(description)
    &&& is_configured_or(
        description@,
        config.description,
        "A Model Context Protocol (MCP) server for exposing GraphQL APIs as tools."@,
    )
    &&& named.icons is None
}

/// Whether a server offers tools, whose changes it announces, and resources exactly where it has
/// apps.
pub open spec fn offers_tools(capabilities: ServerCapabilities, with_resources: bool) -> bool {
    &&& capabilities.tools == Some(ToolsCapability { list_changed: Some(true) })
    &&& with_resources ==> capabilities.resources == Some(
        ResourcesCapability { subscribe: None, list_changed: None },
    )
    &&& !with_resources ==> capabilities.resources is None
}

/// What a server tells of itself is what it is configured to, and what it has to offer.
pub proof fn law_server_tells_what_it_is<P: Platform>(
    running: Running<P>,
    info: ServerInfo,
    config: &ServerInfoConfig,
    has_apps: bool,
    made: ServerInfo,
)
    requires
        call_ensures(Running::<P>::get_info, (&running,), info),
        call_ensures(server_info, (config, has_apps), made),
    ensures
        is_named_by(running.server_info, info.server_info),
        offers_tools(info.capabilities, running.apps@.len() > 0),
        is_named_by(*config, made.server_info),
        offers_tools(made.capabilities, has_apps),
{
}

/// The parts of the configuration are given as they are set, or by their defaults.
pub proof fn law_configured_names_are_given(
    config: &ServerInfoConfig,
    name: &str,
    version: &str,
    title: Option<&str>,
    website_url: Option<&str>,
    description: Option<&str>,
)
    requires
        call_ensures(ServerInfoConfig::name, (config,), name),
        call_ensures(ServerInfoConfig::version, (config,), version),
        call_ensures(ServerInfoConfig::title, (config,), title),
        call_ensures(ServerInfoConfig::website_url, (config,), website_url),
        call_ensures(ServerInfoConfig::description, (config,), description),
    ensures
        is_configured_or(name@, config.name, "Apollo MCP Server"@),
        is_configured_or(version@, config.version, "1.0.0"@),
        title matches Some(text) && is_configured_or(
            text@,
            config.title,
            "Apollo MCP Server"@,
        ),
        website_url matches Some(text) && is_configured_or(
            text@,
            config.website_url,
            "https://www.apollographql.com/docs/apollo-mcp-server"@,
        ),
        description matches Some(text) && is_configured_or(
            text@,
            config.description,
            "A Model Context Protocol (MCP) server for exposing GraphQL APIs as tools."@,
        ),
{
}

/// A configuration that says nothing leaves every part to its default.
pub proof fn law_empty_configuration_says_nothing(config: ServerInfoConfig)
    requires
        call_ensures(<ServerInfoConfig as Default>::default, (), config),
    ensures
        config.name is None,
        config.version is None,
        config.title is None,
        config.website_url is None,
        config.description is None,
{
}

/// A new client joins behind the others, is told what the server is, and changes nothing else.
pub proof fn law_new_client_joins<P: Platform>(
    running: &mut Running<P>,
    peer: P::Peer,
    info: ServerInfo,
)
    requires
        call_ensures(Running::<P>::initialize, (running, peer), info),
    ensures
        final(running).peers@ == old(running).peers@.push(peer),
        *final(running) == (Running { peers: final(running).peers, ..*old(running) }),
        is_named_by(old(running).server_info, info.server_info),
        offers_tools(info.capabilities, old(running).apps@.len() > 0),
{
}

/// Whether a client stays, by what came of telling it: it was told, or failed for a reason other
/// than the transport.
pub open spec fn stays(report: PeerReport) -> bool {
    match report {
        PeerReport::Notified => true,
        PeerReport::OtherError => true,
        PeerReport::Closed => false,
        PeerReport::TransportSend => false,
        PeerReport::TransportClosed => false,
    }
}

/// The clients that stay, in order.
pub open spec fn staying<T>(peers: Seq<T>, reports: Seq<PeerReport>) -> Seq<T> {
    peers.zip_with(reports).filter(|pair: (T, PeerReport)| stays(pair.1)).map_values(
        |pair: (T, PeerReport)| pair.0,
    )
}

proof fn lemma_staying<T>(peers: Seq<T>, reports: Seq<PeerReport>)
    requires
        reports.len() == peers.len(),
    ensures
        reachable_peers(peers, reports) == staying(peers, reports),
    decreases peers.len(),
{
    let kept = |pair: (T, PeerReport)| stays(pair.1);
    let peer = |pair: (T, PeerReport)| pair.0;
    let pairs = peers.zip_with(reports);
    reveal(Seq::filter);
    if peers.len() > 0 {
        lemma_staying(peers.drop_last(), reports.drop_last());
        assert(pairs.drop_last() =~= peers.drop_last().zip_with(reports.drop_last()));
        assert(pairs.last() == (peers.last(), reports.last()));
    }
    assert(reachable_peers(peers, reports) =~= pairs.filter(kept).map_values(peer));
}

/// After a round, exactly the clients stay that were told, or that could not be told for a reason
/// other than their transport.
pub proof fn law_clients_stay_unless_their_transport_is_gone<P: Platform>(
    running: &mut Running<P>,
    reports: &Vec<PeerReport>,
    peers: Vec<P::Peer>,
    retained: Vec<P::Peer>,
)
    requires
        reports@.len() == old(running).peers@.len(),
        call_ensures(Running::<P>::notify_tool_list_changed, (running, reports), ()),
        reports@.len() == peers@.len(),
        call_ensures(retain_peers::<P::Peer>, (peers, reports), retained),
    ensures
        final(running).peers@ == staying(old(running).peers@, reports@),
        *final(running) == (Running { peers: final(running).peers, ..*old(running) }),
        retained@ == staying(peers@, reports@),
{
    lemma_staying(old(running).peers@, reports@);
    lemma_staying(peers@, reports@);
}

/// A report tells whether a client stays.
pub proof fn law_report_tells_whether_a_client_stays(report: &PeerReport, reachable: bool)
    requires
        call_ensures(PeerReport::is_reachable, (report,), reachable),
    ensures
        reachable == stays(*report),
{
}

/// A round begins with the first client, goes on with the one behind those that were dealt with,
/// and ends behind the last.
pub proof fn law_round_goes_from_client_to_client(
    begun: NotifyRound,
    round: &NotifyRound,
    count: usize,
    next: Option<usize>,
)
    requires
        call_ensures(NotifyRound::begin, (), begun),
        call_ensures(NotifyRound::next, (round, count), next),
    ensures
        begun.reports@.len() == 0,
        match next {
            Some(place) => place == round.reports@.len() && place < count,
            None => round.reports@.len() >= count,
        },
{
}

/// A client whose transport is closed is not told, and is dealt with thereby; any other is told,
/// and is dealt with once it is known what came of it.
pub proof fn law_open_clients_are_told(
    round: &mut NotifyRound,
    closed: bool,
    told: bool,
)
    requires
        call_ensures(NotifyRound::tells, (round, closed), told),
    ensures
        told == !closed,
        closed ==> final(round).reports@ == old(round).reports@.push(PeerReport::Closed),
        !closed ==> final(round).reports@ == old(round).reports@,
{
}

/// What came of telling a client is noted behind what came of the others.
pub proof fn law_outcomes_are_noted_in_order(round: &mut NotifyRound, outcome: PeerReport)
    requires
        call_ensures(NotifyRound::told, (round, outcome), ()),
    ensures
        final(round).reports@ == old(round).reports@.push(outcome),
{
}

/// New operations replace those of a running server by what becomes of them, and change nothing
/// else.
pub proof fn law_update_of_operations<P: Platform, E, F>(
    running: &mut Running<P>,
    operations: Vec<RawOperation>,
    compile: F,
) where
    F: Fn(RawOperation, &ApiSchema, &OperationSettings<P>) -> Result<Option<Operation>, E>,

    requires
        call_ensures(
            Running::<P>::update_operations::<E, F>,
            (running, operations, compile),
            (),
        ),
    ensures
        exists|places: Seq<int>| #[trigger]
            became_of(
                compile,
                operations@,
                old(running).schema,
                old(running).operation_settings,
                final(running).operations@,
                places,
            ),
        *final(running) == (Running { operations: final(running).operations, ..*old(running) }),
{
    lemma_became_of(
        compile,
        operations@,
        old(running).schema,
        old(running).operation_settings,
        final(running).operations@,
    );
}

/// A new schema takes the place of that of a running server, whose operations become what the
/// texts it had come to for that schema; nothing else changes.
pub proof fn law_update_of_the_schema<P: Platform, E, F>(
    running: &mut Running<P>,
    schema: ApiSchema,
    compile: F,
) where
    F: Fn(RawOperation, &ApiSchema, &OperationSettings<P>) -> Result<Option<Operation>, E>,

    requires
        call_ensures(Running::<P>::update_schema::<E, F>, (running, schema, compile), ()),
    ensures
        final(running).schema == schema,
        exists|places: Seq<int>| #[trigger]
            became_of(
                compile,
                texts_of(old(running).operations@),
                schema,
                old(running).operation_settings,
                final(running).operations@,
                places,
            ),
        *final(running) == (Running {
            schema,
            operations: final(running).operations,
            ..*old(running)
        }),
{
    let texts = texts_of(old(running).operations@);
    assert(texts =~= raw_operations(old(running).operations@));
    lemma_became_of(
        compile,
        texts,
        schema,
        old(running).operation_settings,
        final(running).operations@,
    );
}

} // verus!
