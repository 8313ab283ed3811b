//! The protocol's data model: requests, notifications, responses, identifiers,
//! error objects, and the server's static configuration values.

use vstd::prelude::*;

verus! {

/// Why a message could not be read: the text was not a JSON document at all,
/// or it was one but lacked the shape a request or notification needs
/// (a missing or mistyped `jsonrpc`, `id` or `method` field).
#[derive(Debug, Clone, Copy, PartialEq, Eq, Structural)]
pub enum ParseError {
    /// The text is not valid JSON.
    Syntax,
    /// The document does not match the required message shape.
    Shape,
}

/// Opaque correlation token linking a request to its response: a string or a
/// signed integer, never interpreted, only echoed.
#[derive(Debug)]
pub enum RequestId {
    Str(String),
    Num(i64),
}

/// The mathematical value of a [`RequestId`].
#[verifier::ext_equal]
pub enum RequestIdView {
    Str(Seq<char>),
    Num(int),
}

impl View for RequestId {
    type V = RequestIdView;

    open spec fn view(&self) -> RequestIdView {
        match self {
            RequestId::Str(s) => RequestIdView::Str(s@),
            RequestId::Num(n) => RequestIdView::Num(*n as int),
        }
    }
}

impl RequestId {
    /// A copy carrying the same identifier value.
    pub fn duplicate(&self) -> (r: RequestId)
        ensures
            r@ == self@,
    {
        match self {
            RequestId::Str(s) => RequestId::Str(s.clone()),
            RequestId::Num(n) => RequestId::Num(*n),
        }
    }
}

/// A message that carries an identifier and expects exactly one response.
pub struct Request {
    pub jsonrpc: String,
    pub id: RequestId,
    pub method: String,
    pub params: Option<serde_json::Value>,
}

/// The mathematical value of a [`Request`]. The parameters are an arbitrary
/// document that the dispatcher never reads, so only their presence is kept.
#[verifier::ext_equal]
pub struct RequestView {
    pub jsonrpc: Seq<char>,
    pub id: RequestIdView,
    pub method: Seq<char>,
    pub has_params: bool,
}

impl View for Request {
    type V = RequestView;

    open spec fn view(&self) -> RequestView {
        RequestView {
            jsonrpc: self.jsonrpc@,
            id: self.id@,
            method: self.method@,
            has_params: self.params is Some,
        }
    }
}

/// A fire-and-forget message: no identifier, no reply.
pub struct Notification {
    pub jsonrpc: String,
    pub method: String,
    pub params: Option<serde_json::Value>,
}

/// The mathematical value of a [`Notification`].
#[verifier::ext_equal]
pub struct NotificationView {
    pub jsonrpc: Seq<char>,
    pub method: Seq<char>,
    pub has_params: bool,
}

impl View for Notification {
    type V = NotificationView;

    open spec fn view(&self) -> NotificationView {
        NotificationView {
            jsonrpc: self.jsonrpc@,
            method: self.method@,
            has_params: self.params is Some,
        }
    }
}

/// The in-band protocol error carried by a response: an integer code from the
/// reserved negative range, a human-readable message, and optional auxiliary
/// data (held, when present, as an already serialized JSON document).
pub struct ErrorResponse {
    pub code: i32,
    pub message: String,
    pub data: Option<String>,
}

/// The mathematical value of an [`ErrorResponse`].
#[verifier::ext_equal]
pub struct ErrorResponseView {
    pub code: int,
    pub message: Seq<char>,
    pub data: Option<Seq<char>>,
}

impl View for ErrorResponse {
    type V = ErrorResponseView;

    open spec fn view(&self) -> ErrorResponseView {
        ErrorResponseView {
            code: self.code as int,
            message: self.message@,
            data: match self.data {
                Some(ref d) => Some(d@),
                None => None,
            },
        }
    }
}

/// The `logging` feature group: advertised with no sub-flags.
#[derive(Debug, Clone, Copy, PartialEq, Eq, Structural)]
pub struct LoggingCapability {}

/// The `prompts` feature group and its `listChanged` sub-flag.
#[derive(Debug, Clone, Copy, PartialEq, Eq, Structural)]
pub struct PromptsCapability {
    pub list_changed: bool,
}

/// The `resources` feature group and its `subscribe` and `listChanged`
/// sub-flags.
#[derive(Debug, Clone, Copy, PartialEq, Eq, Structural)]
pub struct ResourcesCapability {
    pub subscribe: bool,
    pub list_changed: bool,
}

/// The `tools` feature group and its `listChanged` sub-flag.
#[derive(Debug, Clone, Copy, PartialEq, Eq, Structural)]
pub struct ToolsCapability {
    pub list_changed: bool,
}

/// The four feature groups the server advertises during initialization.
/// The sub-flags are static and describe the capability to notify of changes,
/// not runtime state.
#[derive(Debug, Clone, Copy, PartialEq, Eq, Structural)]
pub struct ServerCapabilities {
    pub logging: LoggingCapability,
    pub prompts: PromptsCapability,
    pub resources: ResourcesCapability,
    pub tools: ToolsCapability,
}

/// The server's identity: an immutable (name, version) pair echoed verbatim
/// in the initialize result.
pub struct Implementation {
    pub name: String,
    pub version: String,
}

/// The mathematical value of an [`Implementation`].
#[verifier::ext_equal]
pub struct ImplementationView {
    pub name: Seq<char>,
    pub version: Seq<char>,
}

impl View for Implementation {
    type V = ImplementationView;

    open spec fn view(&self) -> ImplementationView {
        ImplementationView { name: self.name@, version: self.version@ }
    }
}

/// The result document of a successful response. The dispatcher produces
/// exactly two kinds: the initialize result and the empty document.
pub enum ResultDoc {
    /// The initialize result: the fixed protocol version literal, the
    /// advertised capabilities, and the server identity.
    Initialize { capabilities: ServerCapabilities, server_info: Implementation },
    /// The empty document `{}` (the ping result).
    Empty,
}

/// The mathematical value of a [`ResultDoc`].
#[verifier::ext_equal]
pub enum ResultDocView {
    Initialize { capabilities: ServerCapabilities, server_info: ImplementationView },
    Empty,
}

impl View for ResultDoc {
    type V = ResultDocView;

    open spec fn view(&self) -> ResultDocView {
        match self {
            ResultDoc::Initialize { capabilities, server_info } => ResultDocView::Initialize {
                capabilities: *capabilities,
                server_info: server_info@,
            },
            ResultDoc::Empty => ResultDocView::Empty,
        }
    }
}

/// A reply to a request: the fixed protocol version tag, the identifier
/// copied from the request, and exactly one of result or error.
pub struct Response {
    pub jsonrpc: String,
    pub id: RequestId,
    pub result: Option<ResultDoc>,
    pub error: Option<ErrorResponse>,
}

/// The mathematical value of a [`Response`].
#[verifier::ext_equal]
pub struct ResponseView {
    pub jsonrpc: Seq<char>,
    pub id: RequestIdView,
    pub result: Option<ResultDocView>,
    pub error: Option<ErrorResponseView>,
}

impl View for Response {
    type V = ResponseView;

    open spec fn view(&self) -> ResponseView {
        ResponseView {
            jsonrpc: self.jsonrpc@,
            id: self.id@,
            result: match self.result {
                Some(ref d) => Some(d@),
                None => None,
            },
            error: match self.error {
                Some(ref e) => Some(e@),
                None => None,
            },
        }
    }
}

/// A well-formed response carries the fixed protocol version tag and exactly
/// one of result and error: never both, never neither.
pub open spec fn response_wf(r: ResponseView) -> bool {
    &&& r.jsonrpc == "2.0"@
    &&& (r.result is Some <==> r.error is None)
}

} // verus!
