//! Error conversion shared by the tools.
//!
//! Failures inside a tool are reported as plain messages; these helpers turn
//! them into the `ToolError` the agent receives, optionally prefixed with a
//! context, and build the XML error response.
use vstd::prelude::*;
use crate::text::{chars_of, extend_chars, extend_str, string_of};

verus! {

/// Error returned by a tool to the agent.
#[derive(Debug, Clone, PartialEq, Eq)]
pub enum ToolError {
    /// The arguments could not be used.
    InvalidArgument(String),
    /// The tool failed while running.
    ExecutionFailed(String),
}

impl ToolError {
    /// The message the error carries.
    pub fn message(&self) -> (r: String)
        ensures
            r@ == match self {
                ToolError::InvalidArgument(m) => m@,
                ToolError::ExecutionFailed(m) => m@,
            },
    {
        match self {
            ToolError::InvalidArgument(m) => m.clone(),
            ToolError::ExecutionFailed(m) => m.clone(),
        }
    }

    /// Rendering as `"<kind>: <message>"`, e.g. `ExecutionFailed: Test error`.
    pub fn to_display(&self) -> (r: String)
        ensures
            r@ == match self {
                ToolError::InvalidArgument(m) => "InvalidArgument: "@ + m@,
                ToolError::ExecutionFailed(m) => "ExecutionFailed: "@ + m@,
            },
    {
        let mut v: Vec<char> = Vec::new();
        match self {
            ToolError::InvalidArgument(m) => {
                extend_str(&mut v, "InvalidArgument: ");
                extend_str(&mut v, m.as_str());
            },
            ToolError::ExecutionFailed(m) => {
                extend_str(&mut v, "ExecutionFailed: ");
                extend_str(&mut v, m.as_str());
            },
        }
        string_of(v.as_slice())
    }
}

} // verus!

verus! {

/// Turns a failure message into `ToolError::ExecutionFailed` with that message.
pub fn to_tool_error(error: String) -> (r: ToolError)
    ensures
        r == ToolError::ExecutionFailed(error),
{
    ToolError::ExecutionFailed(error)
}

/// Turns a failure message into `ToolError::ExecutionFailed` with the message
/// `"<context>: <error>"`.
pub fn to_tool_error_with_context(error: String, context: &str) -> (r: ToolError)
    ensures
        r matches ToolError::ExecutionFailed(m) && m@ == context@ + ": "@ + error@,
{
    let mut v: Vec<char> = Vec::new();
    extend_str(&mut v, context);
    extend_str(&mut v, ": ");
    extend_str(&mut v, error.as_str());
    ToolError::ExecutionFailed(string_of(v.as_slice()))
}

/// Keeps a success; turns a failure message into `ToolError::ExecutionFailed`.
pub fn propagate_error<T>(result: Result<T, String>) -> (r: Result<T, ToolError>)
    ensures
        match result {
            Ok(v) => r == Ok::<T, ToolError>(v),
            Err(e) => r == Err::<T, ToolError>(ToolError::ExecutionFailed(e)),
        },
{
    match result {
        Ok(v) => Ok(v),
        Err(e) => Err(to_tool_error(e)),
    }
}

/// Keeps a success; turns a failure message into `ToolError::ExecutionFailed`
/// prefixed with the context.
pub fn propagate_error_with_context<T>(result: Result<T, String>, context: &str) -> (r: Result<T, ToolError>)
    ensures
        match result {
            Ok(v) => r == Ok::<T, ToolError>(v),
            Err(e) => r matches Err(ToolError::ExecutionFailed(m)) && m@ == context@ + ": "@ + e@,
        },
{
    match result {
        Ok(v) => Ok(v),
        Err(e) => Err(to_tool_error_with_context(e, context)),
    }
}

/// The XML error response for a tool; building it cannot fail.
pub fn build_error_xml(tool_name: &str, error_code: &str, message: &str, details: &str) -> (r: Result<
    String,
    ToolError,
>)
    ensures
        r matches Ok(x) && x@ == crate::tools::domain::xml_builder::error_xml(
            tool_name@,
            error_code@,
            message@,
            details@,
        ),
{
    Ok(crate::tools::domain::xml_builder::XmlBuilder::build_error(tool_name, error_code, message, details))
}

/// Error conversions for use with `?`.
pub struct ErrorHandler;

impl ErrorHandler {
    /// Same as `propagate_error`.
    pub fn convert<T>(result: Result<T, String>) -> (r: Result<T, ToolError>)
        ensures
            match result {
                Ok(v) => r == Ok::<T, ToolError>(v),
                Err(e) => r == Err::<T, ToolError>(ToolError::ExecutionFailed(e)),
            },
    {
        propagate_error(result)
    }

    /// Same as `propagate_error_with_context`.
    pub fn convert_with_context<T>(result: Result<T, String>, context: &str) -> (r: Result<T, ToolError>)
        ensures
            match result {
                Ok(v) => r == Ok::<T, ToolError>(v),
                Err(e) => r matches Err(ToolError::ExecutionFailed(m)) && m@ == context@ + ": "@ + e@,
            },
    {
        propagate_error_with_context(result, context)
    }

    /// Same as `to_tool_error`.
    pub fn to_tool_error(error: String) -> (r: ToolError)
        ensures
            r == ToolError::ExecutionFailed(error),
    {
        to_tool_error(error)
    }
}

} // verus!
