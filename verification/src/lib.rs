//! A minimal JSON-RPC dispatcher for the Model Context Protocol handshake.
//!
//! The server accepts one textual message at a time, decides whether it is a
//! request (an `id` field is present) or a notification (no `id`), routes it
//! by method name, and returns either a serialized response or nothing.

mod codec;
mod protocol;
mod render;
mod server;
mod laws;

pub use codec::{json_ok, msg_field_int, msg_field_str, msg_has_field};
pub use render::render_response;
pub use laws::{
    lemma_classification, lemma_identifier_echo, lemma_initialize_reply,
    lemma_malformed_text_fails, lemma_notification_silence, lemma_ping_reply,
    lemma_result_error_exclusive, lemma_unknown_method_reply,
};
pub use server::{
    parse_notification, parse_request, spec_handle, spec_respond, Server, ServerView,
};
pub use protocol::{
    ErrorResponse, ErrorResponseView, Implementation, ImplementationView, LoggingCapability,
    Notification, NotificationView, ParseError, PromptsCapability, Request, RequestId,
    RequestIdView, RequestView, ResourcesCapability, Response, ResponseView, ResultDoc,
    ResultDocView, ServerCapabilities, ToolsCapability,
};
