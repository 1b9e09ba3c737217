//! The failures that tool, resource and prompt handlers report.
use vstd::prelude::*;

verus! {

/// A tool handler's failure.
#[derive(Debug, Clone, PartialEq)]
#[non_exhaustive]
pub enum ToolError {
    /// The arguments do not fit the tool's schema.
    InvalidParameters(String),
    /// The tool ran and failed.
    ExecutionError(String),
    /// The tool's schema could not be produced.
    SchemaError(String),
    /// No tool has that name.
    NotFound(String),
}

/// The result of a tool handler.
pub type ToolResult<T> = Result<T, ToolError>;

/// A resource handler's failure.
#[derive(Debug)]
pub enum ResourceError {
    /// Reading the resource failed.
    ExecutionError(String),
    /// No resource has that URI.
    NotFound(String),
}

/// A prompt handler's failure.
#[derive(Debug)]
pub enum PromptError {
    /// The arguments do not fit the prompt.
    InvalidParameters(String),
    /// Something went wrong inside the handler.
    InternalError(String),
    /// No prompt has that name.
    NotFound(String),
}

} // verus!
