//! What a tool call is answered, and the form in which the protocol carries it.

use rmcp::model::{CallToolResult, Content};
use rmcp::ErrorData;
use vstd::prelude::*;

verus! {

/// The answer of a tool that ran.
#[derive(Debug, PartialEq, Eq)]
pub enum ToolReply {
    /// Text; `is_error` says that the tool itself failed.
    Text { text: String, is_error: bool },
    /// An image, encoded in base64.
    Image { data: String, mime_type: String },
}

/// Who is to blame for a call that could not be carried out.
#[derive(Debug, Clone, Copy, PartialEq, Eq, Structural)]
pub enum ErrorKind {
    InvalidRequest,
    Internal,
}

/// Why a call could not be carried out.
#[derive(Debug, PartialEq, Eq)]
pub struct ToolError {
    pub kind: ErrorKind,
    pub message: String,
}

/// The result of a tool call.
pub type ToolOutcome = Result<ToolReply, ToolError>;

/// A result of a tool call in the form of the protocol.
#[verifier::external_type_specification]
#[verifier::external_body]
pub struct ExCallToolResult(rmcp::model::CallToolResult);

/// An error in the form of the protocol.
#[verifier::external_type_specification]
#[verifier::external_body]
pub struct ExErrorData(rmcp::ErrorData);

/// The successful result that holds one text.
pub uninterp spec fn success_with_text(text: Seq<char>) -> CallToolResult;

/// The result of a failed tool that holds one text.
pub uninterp spec fn failure_with_text(text: Seq<char>) -> CallToolResult;

/// The successful result that holds one image.
pub uninterp spec fn success_with_image(data: Seq<char>, mime_type: Seq<char>) -> CallToolResult;

/// The error that says the request was not valid.
pub uninterp spec fn invalid_request_error(message: Seq<char>) -> ErrorData;

/// The error that says the server failed.
pub uninterp spec fn internal_failure_error(message: Seq<char>) -> ErrorData;

/// `CallToolResult::success` on the one block that `Content::text` makes of `text`: the result
/// is a function of the text alone.
#[verifier::external_body]
fn text_result(text: String) -> (result: CallToolResult)
    ensures
        result == success_with_text(text@),
{
    CallToolResult::success(vec![Content::text(text)])
}

/// `CallToolResult::error` on the one block that `Content::text` makes of `text`: the result is
/// a function of the text alone.
#[verifier::external_body]
fn text_failure(text: String) -> (result: CallToolResult)
    ensures
        result == failure_with_text(text@),
{
    CallToolResult::error(vec![Content::text(text)])
}

/// `CallToolResult::success` on the one block that `Content::image` makes of `data` and
/// `mime_type`: the result is a function of these two alone.
#[verifier::external_body]
fn image_result(data: String, mime_type: String) -> (result: CallToolResult)
    ensures
        result == success_with_image(data@, mime_type@),
{
    CallToolResult::success(vec![Content::image(data, mime_type)])
}

/// `ErrorData::invalid_request` without further data: a function of the message alone.
#[verifier::external_body]
fn invalid_request(message: String) -> (error: ErrorData)
    ensures
        error == invalid_request_error(message@),
{
    ErrorData::invalid_request(message, None)
}

/// `ErrorData::internal_error` without further data: a function of the message alone.
#[verifier::external_body]
fn internal_error(message: String) -> (error: ErrorData)
    ensures
        error == internal_failure_error(message@),
{
    ErrorData::internal_error(message, None)
}

/// The form in which the protocol carries the result of a tool call.
pub open spec fn protocol_form(outcome: ToolOutcome) -> Result<CallToolResult, ErrorData> {
    match outcome {
        Ok(ToolReply::Text { text, is_error: false }) => Ok(success_with_text(text@)),
        Ok(ToolReply::Text { text, is_error: true }) => Ok(failure_with_text(text@)),
        Ok(ToolReply::Image { data, mime_type }) => Ok(success_with_image(data@, mime_type@)),
        Err(ToolError { kind: ErrorKind::InvalidRequest, message }) => Err(
            invalid_request_error(message@),
        ),
        Err(ToolError { kind: ErrorKind::Internal, message }) => Err(
            internal_failure_error(message@),
        ),
    }
}

/// The client is told of a failure exactly if the tool failed, with the tool's own text.
pub proof fn client_is_told_whether_the_tool_failed(text: String, is_error: bool)
    ensures
        protocol_form(Ok(ToolReply::Text { text, is_error })) matches Ok(told) && told == (
        if is_error {
            failure_with_text(text@)
        } else {
            success_with_text(text@)
        }),
{
}

/// An image reaches the client as it is, with its type.
pub proof fn client_is_shown_the_image(data: String, mime_type: String)
    ensures
        protocol_form(Ok(ToolReply::Image { data, mime_type })) matches Ok(shown) && shown
            == success_with_image(data@, mime_type@),
{
}

/// A call that could not be carried out is blamed on the request or on the server, as it was, and
/// keeps its text.
pub proof fn client_is_told_who_is_to_blame(error: ToolError)
    ensures
        protocol_form(Err(error)) matches Err(told) && match error.kind {
            ErrorKind::InvalidRequest => told == invalid_request_error(error.message@),
            ErrorKind::Internal => told == internal_failure_error(error.message@),
        },
{
}

/// Puts the result of a tool call into the form of the protocol.
pub fn into_protocol(outcome: ToolOutcome) -> (result: Result<CallToolResult, ErrorData>)
    ensures
        result == protocol_form(outcome),
        match outcome {
            Ok(ToolReply::Text { text, is_error }) => {
                &&& result matches Ok(told)
                &&& is_error ==> told == failure_with_text(text@)
                &&& !is_error ==> told == success_with_text(text@)
            },
            Ok(ToolReply::Image { data, mime_type }) => {
                &&& result matches Ok(told)
                &&& told == success_with_image(data@, mime_type@)
            },
            Err(error) => {
                &&& result matches Err(told)
                &&& error.kind == ErrorKind::InvalidRequest ==> told == invalid_request_error(
                    error.message@,
                )
                &&& error.kind == ErrorKind::Internal ==> told == internal_failure_error(
                    error.message@,
                )
            },
        },
{
    match outcome {
        Ok(ToolReply::Text { text, is_error }) => {
            if is_error {
                Ok(text_failure(text))
            } else {
                Ok(text_result(text))
            }
        },
        Ok(ToolReply::Image { data, mime_type }) => Ok(image_result(data, mime_type)),
        Err(ToolError { kind: ErrorKind::InvalidRequest, message }) => Err(
            invalid_request(message),
        ),
        Err(ToolError { kind: ErrorKind::Internal, message }) => Err(internal_error(message)),
    }
}

} // verus!
