//! The errors that are answered to clients.

use serde_json::Value;
use vstd::prelude::*;

verus! {

/// `serde_json::Value`: a JSON value.
#[verifier::external_type_specification]
#[verifier::external_body]
pub struct ExValue(serde_json::Value);

/// The code of an error that says that a request cannot be served as it stands.
pub const INVALID_REQUEST: i32 = -32600;

/// The code of an error that says that there is nothing of the requested name.
pub const METHOD_NOT_FOUND: i32 = -32601;

/// The code of an error that says that there is no such resource.
pub const RESOURCE_NOT_FOUND: i32 = -32002;

/// An error that is answered to a client.
pub struct McpError {
    pub code: i32,
    pub message: String,
    pub data: Option<Value>,
}

impl McpError {
    /// Whether the error has this code and this message, and nothing more.
    pub open spec fn says(self, code: i32, message: Seq<char>) -> bool {
        self.code == code && self.message@ == message && self.data is None
    }
}

/// Names what was not found.
pub(crate) fn not_found(what: &str, name: &str) -> (r: String)
    ensures
        r@ == what@ + name@ + " not found"@,
{
    what.to_owned().concat(name).concat(" not found")
}

/// The message for a tool that does not exist.
pub open spec fn tool_not_found_message(name: Seq<char>) -> Seq<char> {
    "Tool "@ + name + " not found"@
}

/// The message for an app that does not exist.
pub open spec fn app_not_found_message(name: Seq<char>) -> Seq<char> {
    "App "@ + name + " not found"@
}

/// The message for a resource whose URI cannot be read.
pub open spec fn invalid_uri_message(error: Seq<char>) -> Seq<char> {
    "Requested resource has an invalid URI: "@ + error
}

/// The answer to a call of a tool that does not exist.
pub fn tool_not_found(name: &str) -> (r: McpError)
    ensures
        r.says(METHOD_NOT_FOUND, tool_not_found_message(name@)),
{
    McpError { code: METHOD_NOT_FOUND, message: not_found("Tool ", name), data: None }
}

/// The answer to a request for the tools of an app that does not exist.
pub fn app_not_found(name: &str) -> (r: McpError)
    ensures
        r.says(INVALID_REQUEST, app_not_found_message(name@)),
{
    McpError { code: INVALID_REQUEST, message: not_found("App ", name), data: None }
}

/// The answer to a request for a resource whose URI cannot be read.
pub fn invalid_uri(error: &str) -> (r: McpError)
    ensures
        r.says(RESOURCE_NOT_FOUND, invalid_uri_message(error@)),
{
    McpError {
        code: RESOURCE_NOT_FOUND,
        message: "Requested resource has an invalid URI: ".to_owned().concat(error),
        data: None,
    }
}

} // verus!
