//! The list of tools that a running server offers.

use crate::apps::find_app;
use crate::apps::has_app;
use crate::apps::is_first_named;
use crate::apps::App;
use crate::error::app_not_found;
use crate::error::app_not_found_message;
use crate::error::McpError;
use crate::error::INVALID_REQUEST;
use crate::operation::Operation;
use crate::platform::Platform;
use crate::request::app_parameter;
use crate::request::app_parameter_of;
use crate::request::optional_text;
use crate::running::Running;
use rmcp::model::Tool;
use vstd::prelude::*;

verus! {

/// A list of tools, complete in itself.
pub struct ListToolsResult {
    pub tools: Vec<Tool>,
    pub next_cursor: Option<String>,
}

/// The tools that operations are offered as.
pub open spec fn operation_tools(operations: Seq<Operation>) -> Seq<Tool> {
    operations.map_values(|operation: Operation| operation.tool)
}

/// A tool that may be switched off, as a list.
pub open spec fn optional_tool(tool: Option<Tool>) -> Seq<Tool> {
    match tool {
        Some(tool) => seq![tool],
        None => Seq::empty(),
    }
}

fn push_optional(tools: &mut Vec<Tool>, tool: &Option<Tool>)
    ensures
        final(tools)@ == old(tools)@ + optional_tool(*tool),
{
    if let Some(tool) = tool {
        tools.push(tool.clone());
    }
    assert(tools@ =~= old(tools)@ + optional_tool(*tool));
}

impl<P: Platform> Running<P> {
    /// The tools that are offered outside of apps: the operations, then the built-in tools that
    /// are switched on.
    pub open spec fn general_tools(self) -> Seq<Tool> {
        operation_tools(self.operations@) + optional_tool(self.execute_tool) + optional_tool(
            self.introspect_tool,
        ) + optional_tool(self.search_tool) + optional_tool(self.explorer_tool) + optional_tool(
            self.validate_tool,
        )
    }

    /// Whether these are the tools that are offered within an app: the execute tool, where it is
    /// switched on, as it is hidden from the model, then the tools of the app with the metadata for
    /// the kind of client. The operations and the other built-in tools are not offered there.
    pub open spec fn lists_app_tools<M, A>(
        self,
        app: App<P>,
        target: P::AppTarget,
        make_private: M,
        attach_metadata: A,
        tools: Seq<Tool>,
    ) -> bool where
        M: Fn(Tool) -> Tool,
        A: Fn(&App<P>, &P::AppTool, &P::AppTarget) -> Tool,
     {
        let execute = optional_tool(self.execute_tool).len() as int;
        &&& tools.len() == execute + app.tools@.len()
        &&& self.execute_tool matches Some(tool) ==> call_ensures(make_private, (tool,), tools[0])
        &&& forall|i: int|
            0 <= i < app.tools@.len() ==> call_ensures(
                attach_metadata,
                (&app, #[trigger] &app.tools@[i], &target),
                tools[execute + i],
            )
    }

    /// Whether this is the answer to a request for the list of tools, given the app it asks for
    /// and what determining the kind of client has come to. A client whose kind is in doubt is
    /// refused before its app is looked for.
    pub open spec fn answers_list_tools<M, A>(
        self,
        app_name: Option<Seq<char>>,
        app_target: Result<P::AppTarget, McpError>,
        make_private: M,
        attach_metadata: A,
        answer: Result<ListToolsResult, McpError>,
    ) -> bool where
        M: Fn(Tool) -> Tool,
        A: Fn(&App<P>, &P::AppTool, &P::AppTarget) -> Tool,
     {
        match app_target {
            Err(error) => answer == Err::<ListToolsResult, McpError>(error),
            Ok(target) => match app_name {
                None => {
                    &&& answer matches Ok(list)
                    &&& list.tools@ == self.general_tools()
                    &&& list.next_cursor is None
                },
                Some(name) => if has_app(self.apps@, name) {
                    &&& answer matches Ok(list)
                    &&& list.next_cursor is None
                    &&& exists|i: int|
                        {
                            &&& #[trigger] is_first_named(self.apps@, name, i)
                            &&& self.lists_app_tools(
                                self.apps@[i],
                                target,
                                make_private,
                                attach_metadata,
                                list.tools@,
                            )
                        }
                } else {
                    &&& answer matches Err(error)
                    &&& error.says(INVALID_REQUEST, app_not_found_message(name))
                },
            },
        }
    }

    fn tools_of_operations(&self) -> (r: Vec<Tool>)
        ensures
            r@ == operation_tools(self.operations@),
    {
        let mut tools: Vec<Tool> = Vec::new();
        let mut i: usize = 0;
        while i < self.operations.len()
            invariant
                i <= self.operations@.len(),
                tools@ == operation_tools(self.operations@.take(i as int)),
            decreases self.operations@.len() - i,
        {
            tools.push(self.operations[i].as_ref().clone());
            i = i + 1;
            assert(tools@ =~= operation_tools(self.operations@.take(i as int)));
        }
        assert(self.operations@.take(i as int) =~= self.operations@);
        tools
    }

    fn tools_of_app<M, A>(
        &self,
        app: &App<P>,
        target: &P::AppTarget,
        make_private: M,
        attach_metadata: A,
    ) -> (r: Vec<Tool>) where
        M: Fn(Tool) -> Tool,
        A: Fn(&App<P>, &P::AppTool, &P::AppTarget) -> Tool,

        requires
            forall|args| #[trigger] call_requires(make_private, args),
            forall|args| #[trigger] call_requires(attach_metadata, args),
        ensures
            self.lists_app_tools(*app, *target, make_private, attach_metadata, r@),
    {
        let mut tools: Vec<Tool> = Vec::new();
        if let Some(tool) = &self.execute_tool {
            tools.push(make_private(tool.clone()));
        }
        let ghost execute = optional_tool(self.execute_tool).len() as int;
        let mut i: usize = 0;
        while i < app.tools.len()
            invariant
                i <= app.tools@.len(),
                execute == optional_tool(self.execute_tool).len(),
                tools@.len() == execute + i,
                self.execute_tool matches Some(tool) ==> call_ensures(
                    make_private,
                    (tool,),
                    tools@[0],
                ),
                forall|j: int|
                    0 <= j < i ==> call_ensures(
                        attach_metadata,
                        (app, #[trigger] &app.tools@[j], target),
                        tools@[execute + j],
                    ),
                forall|args| #[trigger] call_requires(attach_metadata, args),
            decreases app.tools@.len() - i,
        {
            let tool = attach_metadata(app, &app.tools[i], target);
            tools.push(tool);
            i = i + 1;
        }
        tools
    }

    /// Lists the tools for a client, given the app it asks for.
    pub fn list_tools_for<M, A>(
        &self,
        app_name: Option<String>,
        app_target: Result<P::AppTarget, McpError>,
        make_private: M,
        attach_metadata: A,
    ) -> (r: Result<ListToolsResult, McpError>) where
        M: Fn(Tool) -> Tool,
        A: Fn(&App<P>, &P::AppTool, &P::AppTarget) -> Tool,

        requires
            forall|args| #[trigger] call_requires(make_private, args),
            forall|args| #[trigger] call_requires(attach_metadata, args),
        ensures
            self.answers_list_tools(
                optional_text(app_name),
                app_target,
                make_private,
                attach_metadata,
                r,
            ),
    {
        let target = match app_target {
            Ok(target) => target,
            Err(error) => return Err(error),
        };
        if let Some(name) = app_name {
            return match find_app(&self.apps, name.as_str()) {
                Some(i) => Ok(
                    ListToolsResult {
                        tools: self.tools_of_app(
                            &self.apps[i],
                            &target,
                            make_private,
                            attach_metadata,
                        ),
                        next_cursor: None,
                    },
                ),
                None => Err(app_not_found(name.as_str())),
            };
        }
        let mut tools = self.tools_of_operations();
        push_optional(&mut tools, &self.execute_tool);
        push_optional(&mut tools, &self.introspect_tool);
        push_optional(&mut tools, &self.search_tool);
        push_optional(&mut tools, &self.explorer_tool);
        push_optional(&mut tools, &self.validate_tool);
        Ok(ListToolsResult { tools, next_cursor: None })
    }

    /// Lists the tools for a client. The query string of its request may ask for an app, whose
    /// tools are then listed, with the execute tool, in place of all others.
    pub fn list_tools_impl<M, A>(
        &self,
        query: Option<&str>,
        app_target: Result<P::AppTarget, McpError>,
        make_private: M,
        attach_metadata: A,
    ) -> (r: Result<ListToolsResult, McpError>) where
        M: Fn(Tool) -> Tool,
        A: Fn(&App<P>, &P::AppTool, &P::AppTarget) -> Tool,

        requires
            forall|args| #[trigger] call_requires(make_private, args),
            forall|args| #[trigger] call_requires(attach_metadata, args),
        ensures
            self.answers_list_tools(
                app_parameter_of(query),
                app_target,
                make_private,
                attach_metadata,
                r,
            ),
    {
        self.list_tools_for(app_parameter(query), app_target, make_private, attach_metadata)
    }
}

} // verus!
