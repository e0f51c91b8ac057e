//! Errors that tool, resource and prompt handlers report.
use vstd::prelude::*;

use crate::text::concat;

verus! {

/// Why a tool call failed.
#[derive(Debug, Clone, PartialEq)]
pub enum ToolError {
    InvalidParameters(String),
    ExecutionError(String),
    SchemaError(String),
    NotFound(String),
}

/// The text of a tool error.
pub open spec fn tool_error_text(e: ToolError) -> Seq<char> {
    match e {
        ToolError::InvalidParameters(s) => "Invalid parameters: "@ + s@,
        ToolError::ExecutionError(s) => "Execution failed: "@ + s@,
        ToolError::SchemaError(s) => "Schema error: "@ + s@,
        ToolError::NotFound(s) => "Tool not found: "@ + s@,
    }
}

impl ToolError {
    /// The text of the error (what `Display` writes).
    pub fn to_string(&self) -> (r: String)
        ensures
            r@ == tool_error_text(*self),
    {
        proof {
            reveal_strlit("Invalid parameters: ");
            reveal_strlit("Execution failed: ");
            reveal_strlit("Schema error: ");
            reveal_strlit("Tool not found: ");
        }
        match self {
            ToolError::InvalidParameters(s) => concat("Invalid parameters: ", s.as_str()),
            ToolError::ExecutionError(s) => concat("Execution failed: ", s.as_str()),
            ToolError::SchemaError(s) => concat("Schema error: ", s.as_str()),
            ToolError::NotFound(s) => concat("Tool not found: ", s.as_str()),
        }
    }
}

/// Why reading a resource failed.
#[derive(Debug, Clone, PartialEq)]
pub enum ResourceError {
    ExecutionError(String),
    NotFound(String),
}

/// The text of a resource error.
pub open spec fn resource_error_text(e: ResourceError) -> Seq<char> {
    match e {
        ResourceError::ExecutionError(s) => "Execution failed: "@ + s@,
        ResourceError::NotFound(s) => "Resource not found: "@ + s@,
    }
}

impl ResourceError {
    /// The text of the error (what `Display` writes).
    pub fn to_string(&self) -> (r: String)
        ensures
            r@ == resource_error_text(*self),
    {
        proof {
            reveal_strlit("Execution failed: ");
            reveal_strlit("Resource not found: ");
        }
        match self {
            ResourceError::ExecutionError(s) => concat("Execution failed: ", s.as_str()),
            ResourceError::NotFound(s) => concat("Resource not found: ", s.as_str()),
        }
    }
}

/// Why getting a prompt failed.
#[derive(Debug, Clone, PartialEq)]
pub enum PromptError {
    InvalidParameters(String),
    InternalError(String),
    NotFound(String),
}

/// The text of a prompt error.
pub open spec fn prompt_error_text(e: PromptError) -> Seq<char> {
    match e {
        PromptError::InvalidParameters(s) => "Invalid parameters: "@ + s@,
        PromptError::InternalError(s) => "Internal error: "@ + s@,
        PromptError::NotFound(s) => "Prompt not found: "@ + s@,
    }
}

impl PromptError {
    /// The text of the error (what `Display` writes).
    pub fn to_string(&self) -> (r: String)
        ensures
            r@ == prompt_error_text(*self),
    {
        proof {
            reveal_strlit("Invalid parameters: ");
            reveal_strlit("Internal error: ");
            reveal_strlit("Prompt not found: ");
        }
        match self {
            PromptError::InvalidParameters(s) => concat("Invalid parameters: ", s.as_str()),
            PromptError::InternalError(s) => concat("Internal error: ", s.as_str()),
            PromptError::NotFound(s) => concat("Prompt not found: ", s.as_str()),
        }
    }
}

} // verus!
