//! Calls of tools: which tool a call is for, and what it is answered.

use crate::error::tool_not_found;
use crate::error::tool_not_found_message;
use crate::error::McpError;
use crate::error::METHOD_NOT_FOUND;
use crate::platform::Platform;
use crate::request::app_parameter;
use crate::request::app_parameter_of;
use crate::request::optional_text;
use crate::running::Running;
use rmcp::model::Annotations;
use rmcp::model::Meta;
use rmcp::model::RawContent;
use serde_json::Value;
use vstd::prelude::*;

verus! {

/// `rmcp::model::RawContent`: a piece of content, such as a text or an image.
#[verifier::external_type_specification]
#[verifier::external_body]
pub struct ExRawContent(rmcp::model::RawContent);

/// `rmcp::model::Annotations`: hints on how a piece of content is meant.
#[verifier::external_type_specification]
#[verifier::external_body]
pub struct ExAnnotations(rmcp::model::Annotations);

/// `rmcp::model::Meta`: additional data of the protocol.
#[verifier::external_type_specification]
#[verifier::external_body]
pub struct ExMeta(rmcp::model::Meta);

/// A piece of content of an answer.
pub enum Content {
    /// A text without annotations.
    Text(String),
    /// Content as a tool returned it.
    Returned { raw: RawContent, annotations: Option<Annotations> },
}

/// What a tool answers.
pub struct CallToolResult {
    pub content: Vec<Content>,
    pub structured_content: Option<Value>,
    pub is_error: Option<bool>,
    pub meta: Option<Meta>,
}

/// The answer to a call: what the tool answers, or why the call was refused.
pub type CallAnswer = Result<CallToolResult, McpError>;

/// The text that is answered where a tool cannot read its arguments.
pub open spec fn invalid_input_message(error: Seq<char>) -> Seq<char> {
    "Invalid input: "@ + error
}

/// Whether this is the answer where a tool cannot read its arguments: one text that says so,
/// marked as an error.
pub open spec fn is_invalid_input(error: Seq<char>, answer: CallToolResult) -> bool {
    &&& answer.content@.len() == 1
    &&& answer.content@[0] matches Content::Text(text)
    &&& text@ == invalid_input_message(error)
    &&& answer.structured_content is None
    &&& answer.is_error == Some(true)
    &&& answer.meta is None
}

/// The answer where a tool cannot read its arguments.
pub fn invalid_input(error: &str) -> (r: CallToolResult)
    ensures
        is_invalid_input(error@, r),
{
    let mut content: Vec<Content> = Vec::new();
    content.push(Content::Text("Invalid input: ".to_owned().concat(error)));
    CallToolResult { content, structured_content: None, is_error: Some(true), meta: None }
}

/// The names under which the built-in tools are called.
pub struct ToolNames {
    pub introspect: String,
    pub search: String,
    pub explorer: String,
    pub execute: String,
    pub validate: String,
}

/// Where a call is looked up next.
pub enum CallStage {
    /// The call is for the built-in introspect tool.
    Introspect,
    /// The call is for the built-in search tool.
    Search,
    /// The call is for the built-in explorer tool.
    Explorer,
    /// The call is for the built-in execute tool.
    Execute,
    /// The call is for the built-in validate tool.
    Validate,
    /// The call is looked up among the operations and, where they do not know it, among the tools
    /// of the app, if the client asked for one by its name.
    Operation(Option<String>),
    /// The call is looked up among the tools of the app of this name.
    AppTool(String),
}

/// What came of a stage of a call.
pub enum CallEvent {
    /// The tool has answered.
    Answered(CallAnswer),
    /// The tool cannot read its arguments.
    InvalidArguments(String),
    /// There is no tool of that name.
    NotFound,
}

/// How a call goes on.
pub enum CallProgress {
    /// The call is looked up further.
    Continue(CallStage),
    /// The call is answered.
    Finished(CallAnswer),
}

impl CallStage {
    /// Whether this is how a call of the given tool goes on after an event. What the tool answers
    /// is answered to the client. A name that the operations do not know is looked up among the
    /// tools of the app the client asked for; a name that is not known at all is refused.
    pub open spec fn leads_to(
        self,
        tool_name: Seq<char>,
        event: CallEvent,
        progress: CallProgress,
    ) -> bool {
        match event {
            CallEvent::Answered(answer) => progress == CallProgress::Finished(answer),
            CallEvent::InvalidArguments(error) => {
                &&& progress matches CallProgress::Finished(Ok(answer))
                &&& is_invalid_input(error@, answer)
            },
            CallEvent::NotFound => match self {
                CallStage::Operation(Some(app_name)) => progress
                    == CallProgress::Continue(CallStage::AppTool(app_name)),
                _ => {
                    &&& progress matches CallProgress::Finished(Err(error))
                    &&& error.says(METHOD_NOT_FOUND, tool_not_found_message(tool_name))
                },
            },
        }
    }

    /// Takes a call one stage further.
    pub fn advance(self, tool_name: &str, event: CallEvent) -> (r: CallProgress)
        ensures
            self.leads_to(tool_name@, event, r),
    {
        match event {
            CallEvent::Answered(answer) => CallProgress::Finished(answer),
            CallEvent::InvalidArguments(error) => CallProgress::Finished(
                Ok(invalid_input(error.as_str())),
            ),
            CallEvent::NotFound => match self {
                CallStage::Operation(Some(app_name)) => CallProgress::Continue(
                    CallStage::AppTool(app_name),
                ),
                _ => CallProgress::Finished(Err(tool_not_found(tool_name))),
            },
        }
    }
}

/// What is recorded of an answered call.
pub struct CallRecord {
    /// Whether the health check counts the call as rejected.
    pub rejected: bool,
    /// Whether the call is reported as a success.
    pub success: bool,
}

/// Whether a call is reported as a success: it is not refused, and the tool does not report an
/// error.
pub open spec fn is_success(answer: CallAnswer) -> bool {
    answer matches Ok(result) && result.is_error != Some(true)
}

impl<P: Platform> Running<P> {
    /// Whether this is where a call begins. A built-in tool takes the calls of its name where it
    /// is switched on; all other calls are looked up among the operations.
    pub open spec fn begins_at(
        self,
        names: ToolNames,
        tool_name: Seq<char>,
        app_name: Option<Seq<char>>,
        stage: CallStage,
    ) -> bool {
        if tool_name == names.introspect@ && self.introspect_tool is Some {
            stage is Introspect
        } else if tool_name == names.search@ && self.search_tool is Some {
            stage is Search
        } else if tool_name == names.explorer@ && self.explorer_tool is Some {
            stage is Explorer
        } else if tool_name == names.execute@ && self.execute_tool is Some {
            stage is Execute
        } else if tool_name == names.validate@ && self.validate_tool is Some {
            stage is Validate
        } else {
            &&& stage matches CallStage::Operation(asked)
            &&& optional_text(asked) == app_name
        }
    }

    /// Begins a call of a tool, given the app that the client asks for.
    pub fn route_call(&self, names: &ToolNames, tool_name: &str, app_name: Option<String>) -> (r:
        CallStage)
        ensures
            self.begins_at(*names, tool_name@, optional_text(app_name), r),
    {
        let name = tool_name.to_owned();
        if name == names.introspect && self.introspect_tool.is_some() {
            CallStage::Introspect
        } else if name == names.search && self.search_tool.is_some() {
            CallStage::Search
        } else if name == names.explorer && self.explorer_tool.is_some() {
            CallStage::Explorer
        } else if name == names.execute && self.execute_tool.is_some() {
            CallStage::Execute
        } else if name == names.validate && self.validate_tool.is_some() {
            CallStage::Validate
        } else {
            CallStage::Operation(app_name)
        }
    }

    /// Begins a call of a tool. The query string of the client's request may ask for an app.
    pub fn begin_call(&self, names: &ToolNames, tool_name: &str, query: Option<&str>) -> (r:
        CallStage)
        ensures
            self.begins_at(*names, tool_name@, app_parameter_of(query), r),
    {
        self.route_call(names, tool_name, app_parameter(query))
    }

    /// Whether this is recorded of an answered call. A refused call counts as a rejection where
    /// there is a health check.
    pub open spec fn records(self, answer: CallAnswer, record: CallRecord) -> bool {
        &&& record.rejected == (answer is Err && self.health_check is Some)
        &&& record.success == is_success(answer)
    }

    /// Decides what is recorded of an answered call.
    pub fn record_call(&self, answer: &CallAnswer) -> (r: CallRecord)
        ensures
            self.records(*answer, r),
    {
        let success = match answer {
            Ok(result) => match result.is_error {
                Some(is_error) => !is_error,
                None => true,
            },
            Err(_) => false,
        };
        CallRecord { rejected: answer.is_err() && self.health_check.is_some(), success }
    }
}

} // verus!
