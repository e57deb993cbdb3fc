//! What arrives from a server, and how much of it is taken.

use vstd::prelude::*;
use vstd::utf8::encode_utf8;

use crate::api::MCP_CALL_PROOF_MAX_RESPONSE_BYTES;
use crate::checks::protocol_error;
use crate::failure::{
    failure, plain_failure, CallProofStage, FailureView, McpCallProofErrorCode, McpCallProofFailure,
};
use crate::prepared::outcome;
use crate::protocol::{JsonRpcResponse, ResponseView, SseEvent};
use crate::text::{byte_len, contains_text, occurs, optional_text, same_text, utf8_len};
use crate::urls::{endpoint_outcome, joined_url, resolve_endpoint, UrlParts, UrlView};

verus! {

/// The failure for a response that is too long.
pub open spec fn too_large(stage: CallProofStage, transport: Seq<char>) -> FailureView {
    plain_failure(McpCallProofErrorCode::ResponseTooLarge, stage, transport)
}

/// What an HTTP status comes to.
pub open spec fn status_outcome(status: u16, stage: CallProofStage, transport: Seq<char>) -> Result<
    (),
    FailureView,
> {
    if 300 <= status < 400 {
        Err(plain_failure(McpCallProofErrorCode::RedirectRejected, stage, transport))
    } else if 200 <= status < 300 {
        Ok(())
    } else {
        Err(plain_failure(McpCallProofErrorCode::HttpError, stage, transport))
    }
}

/// What a line comes to that was read up to its end or up to one byte more than is allowed.
/// Nothing was there to read where it is empty.
pub open spec fn line_outcome(line: Seq<u8>, stage: CallProofStage) -> Result<(), FailureView> {
    if line.len() == 0 {
        Err(protocol_error(stage, "stdio"@))
    } else if line.len() > MCP_CALL_PROOF_MAX_RESPONSE_BYTES || line.last() != 10 {
        Err(too_large(stage, "stdio"@))
    } else {
        Ok(())
    }
}

/// What the next piece of a body comes to: the body so far.
pub open spec fn body_outcome(
    body: Seq<u8>,
    piece: Seq<u8>,
    stage: CallProofStage,
    transport: Seq<char>,
) -> Result<Seq<u8>, FailureView> {
    if body.len() + piece.len() > MCP_CALL_PROOF_MAX_RESPONSE_BYTES {
        Err(too_large(stage, transport))
    } else {
        Ok(body + piece)
    }
}

/// Whether a content type announces an event stream.
pub open spec fn announces_events(content_type: Option<Seq<char>>) -> bool {
    content_type is Some && occurs(content_type->0, "text/event-stream"@)
}

/// What the next read of an event stream yields.
#[derive(Debug)]
pub enum StreamRead {
    Event(SseEvent),
    /// The reader gave up on an event that is too long.
    Overflow,
    /// The stream is over.
    End,
}

/// What a [`StreamRead`] says.
pub enum StreamReadView {
    Event { event_type: Seq<char>, data: Seq<char> },
    Overflow,
    End,
}

impl View for StreamRead {
    type V = StreamReadView;

    open spec fn view(&self) -> StreamReadView {
        match self {
            StreamRead::Event(event) => StreamReadView::Event {
                event_type: event.event_type@,
                data: event.data@,
            },
            StreamRead::Overflow => StreamReadView::Overflow,
            StreamRead::End => StreamReadView::End,
        }
    }
}

/// What a read comes to while a response is awaited: the data of a message, or nothing where the
/// event is of another type.
pub open spec fn message_outcome(
    read: StreamReadView,
    stage: CallProofStage,
    transport: Seq<char>,
) -> Result<Option<Seq<u8>>, FailureView> {
    match read {
        StreamReadView::End => Err(protocol_error(stage, transport)),
        StreamReadView::Overflow => Err(too_large(stage, transport)),
        StreamReadView::Event { event_type, data } => if utf8_len(data)
            > MCP_CALL_PROOF_MAX_RESPONSE_BYTES {
            Err(too_large(stage, transport))
        } else if event_type.len() == 0 || event_type == "message"@ {
            Ok(Some(encode_utf8(data)))
        } else {
            Ok(None)
        },
    }
}

/// What a read comes to while the endpoint is awaited: the endpoint, or nothing where the event
/// is of another type.
pub open spec fn endpoint_read_outcome(url: Seq<char>, base: UrlView, read: StreamReadView) -> Result<
    Option<Seq<char>>,
    FailureView,
> {
    match read {
        StreamReadView::End => Err(protocol_error(CallProofStage::Endpoint, "sse"@)),
        StreamReadView::Overflow => Err(too_large(CallProofStage::Endpoint, "sse"@)),
        StreamReadView::Event { event_type, data } => if utf8_len(data)
            > MCP_CALL_PROOF_MAX_RESPONSE_BYTES {
            Err(too_large(CallProofStage::Endpoint, "sse"@))
        } else if event_type == "endpoint"@ {
            match endpoint_outcome(base, joined_url(url, data)) {
                Ok(endpoint) => Ok(Some(endpoint)),
                Err(error) => Err(error),
            }
        } else {
            Ok(None)
        },
    }
}

/// Whether what was decoded is an answer: a response that names the request it answers.
pub open spec fn answers(decoded: Option<ResponseView>) -> bool {
    decoded is Some && decoded->0.id is Some
}

/// What an optional response says.
pub open spec fn optional_response(response: Option<JsonRpcResponse>) -> Option<ResponseView> {
    match response {
        Some(r) => Some(r@),
        None => None,
    }
}

/// Whether `text` may stand as the value of an HTTP header.
pub open spec fn header_value(text: Seq<char>) -> bool {
    let bytes = encode_utf8(text);
    forall|i: int|
        0 <= i < bytes.len() ==> (#[trigger] bytes[i] >= 32 && bytes[i] != 127) || bytes[i] == 9
}

/// Calls `reqwest::header::HeaderValue::from_str` and tells whether it accepts `text`: it does
/// where no byte is a control character other than a tab.
#[verifier::external_body]
pub(crate) fn is_header_value(text: &str) -> (r: bool)
    ensures
        r == header_value(text@),
{
    reqwest::header::HeaderValue::from_str(text).is_ok()
}

/// Whether the status with which a server answers the deletion of a session is as it should be: a
/// success, or the word that sessions cannot be deleted there.
pub open spec fn clean_deletion(status: u16) -> bool {
    200 <= status < 300 || status == 405
}

/// Whether the status with which a server answers the deletion of a session is as it should be.
pub fn is_clean_deletion(status: u16) -> (r: bool)
    ensures
        r == clean_deletion(status),
{
    (200 <= status && status < 300) || status == 405
}

/// Refuses redirects and other statuses that are no success.
pub fn validate_http_status(status: u16, stage: CallProofStage, transport: &'static str) -> (r:
    Result<(), McpCallProofFailure>)
    ensures
        outcome(r) == status_outcome(status, stage, transport@),
{
    if 300 <= status && status < 400 {
        return Err(failure(McpCallProofErrorCode::RedirectRejected, stage, transport));
    }
    if !(200 <= status && status < 300) {
        return Err(failure(McpCallProofErrorCode::HttpError, stage, transport));
    }
    Ok(())
}

/// Refuses a line that is missing, too long or unfinished.
pub fn check_line(line: &[u8], stage: CallProofStage) -> (r: Result<(), McpCallProofFailure>)
    ensures
        outcome(r) == line_outcome(line@, stage),
{
    if line.len() == 0 {
        return Err(failure(McpCallProofErrorCode::ProtocolError, stage, "stdio"));
    }
    if line.len() > MCP_CALL_PROOF_MAX_RESPONSE_BYTES || line[line.len() - 1] != 10 {
        return Err(failure(McpCallProofErrorCode::ResponseTooLarge, stage, "stdio"));
    }
    Ok(())
}

/// The body with its next piece, unless it becomes too long.
pub fn extend_body(
    body: Vec<u8>,
    piece: &[u8],
    stage: CallProofStage,
    transport: &'static str,
) -> (r: Result<Vec<u8>, McpCallProofFailure>)
    ensures
        outcome(r) == body_outcome(body@, piece@, stage, transport@),
{
    if body.len().saturating_add(piece.len()) > MCP_CALL_PROOF_MAX_RESPONSE_BYTES {
        return Err(failure(McpCallProofErrorCode::ResponseTooLarge, stage, transport));
    }
    let mut longer = body;
    longer.extend_from_slice(piece);
    assert(longer@ =~= body@ + piece@);
    Ok(longer)
}

/// Whether `content_type` announces an event stream.
pub fn is_event_stream(content_type: &Option<String>) -> (r: bool)
    ensures
        r == announces_events(crate::text::optional_text(*content_type)),
{
    match content_type {
        Some(value) => contains_text(value.as_str(), "text/event-stream"),
        None => false,
    }
}

/// What an optional string of bytes holds.
pub open spec fn optional_bytes(bytes: Option<Vec<u8>>) -> Option<Seq<u8>> {
    match bytes {
        Some(b) => Some(b@),
        None => None,
    }
}

/// The data of a message, while a response is awaited.
pub fn wait_for_bounded_sse_response(
    read: &StreamRead,
    stage: CallProofStage,
    transport: &'static str,
) -> (r: Result<Option<Vec<u8>>, McpCallProofFailure>)
    ensures
        match r {
            Ok(data) => message_outcome(read@, stage, transport@) == Ok::<_, FailureView>(
                optional_bytes(data),
            ),
            Err(error) => message_outcome(read@, stage, transport@) == Err::<
                Option<Seq<u8>>,
                _,
            >(error@),
        },
{
    let event = match read {
        StreamRead::End => return Err(failure(McpCallProofErrorCode::ProtocolError, stage, transport)),
        StreamRead::Overflow => return Err(
            failure(McpCallProofErrorCode::ResponseTooLarge, stage, transport),
        ),
        StreamRead::Event(event) => event,
    };
    if byte_len(event.data.as_str()) > MCP_CALL_PROOF_MAX_RESPONSE_BYTES {
        return Err(failure(McpCallProofErrorCode::ResponseTooLarge, stage, transport));
    }
    if event.event_type.as_str().is_empty() || same_text(event.event_type.as_str(), "message") {
        let mut data: Vec<u8> = Vec::new();
        let bytes = event.data.as_str().as_bytes();
        data.extend_from_slice(bytes);
        assert(data@ =~= bytes@);
        return Ok(Some(data));
    }
    Ok(None)
}

/// The endpoint, while the stream at `url`, whose parts are `base`, has yet to name it.
pub fn wait_for_bounded_endpoint(url: &str, base: &UrlParts, read: &StreamRead) -> (r: Result<
    Option<String>,
    McpCallProofFailure,
>)
    ensures
        match r {
            Ok(endpoint) => endpoint_read_outcome(url@, base@, read@) == Ok::<_, FailureView>(
                optional_text(endpoint),
            ),
            Err(error) => endpoint_read_outcome(url@, base@, read@) == Err::<Option<Seq<char>>, _>(
                error@,
            ),
        },
{
    let stage = CallProofStage::Endpoint;
    let event = match read {
        StreamRead::End => return Err(failure(McpCallProofErrorCode::ProtocolError, stage, "sse")),
        StreamRead::Overflow => return Err(
            failure(McpCallProofErrorCode::ResponseTooLarge, stage, "sse"),
        ),
        StreamRead::Event(event) => event,
    };
    if byte_len(event.data.as_str()) > MCP_CALL_PROOF_MAX_RESPONSE_BYTES {
        return Err(failure(McpCallProofErrorCode::ResponseTooLarge, stage, "sse"));
    }
    if same_text(event.event_type.as_str(), "endpoint") {
        return match resolve_endpoint(url, base, event.data.as_str()) {
            Ok(endpoint) => Ok(Some(endpoint)),
            Err(error) => Err(error),
        };
    }
    Ok(None)
}

/// Whether what was decoded is an answer.
pub fn is_answer(decoded: &Option<JsonRpcResponse>) -> (r: bool)
    ensures
        r == answers(optional_response(*decoded)),
{
    match decoded {
        Some(response) => response.id.is_some(),
        None => false,
    }
}

} // verus!
