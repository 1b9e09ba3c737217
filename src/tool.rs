//! Tools that a server can run, and requests to run them.
use serde_json::Value;
use vstd::prelude::*;

verus! {

/// A tool that a model can use.
#[derive(Debug, Clone, PartialEq)]
pub struct Tool {
    pub name: String,
    pub description: String,
    /// A JSON Schema object for the tool's parameters.
    pub input_schema: Value,
}

impl Tool {
    /// A tool with a name, a description and a schema for its parameters.
    pub fn new(name: String, description: String, input_schema: Value) -> (r: Tool)
        ensures
            r == (Tool { name, description, input_schema }),
    {
        Tool { name, description, input_schema }
    }
}

/// A request to run a tool.
#[derive(Debug, Clone, PartialEq)]
pub struct ToolCall {
    pub name: String,
    pub arguments: Value,
}

impl ToolCall {
    /// A request to run the named tool with these arguments.
    pub fn new(name: String, arguments: Value) -> (r: ToolCall)
        ensures
            r == (ToolCall { name, arguments }),
    {
        Self { name, arguments }
    }
}

} // verus!
