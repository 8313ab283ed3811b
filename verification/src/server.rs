//! The dispatcher: classification of raw messages into requests and
//! notifications, strict parsing of their shape, method routing, and the
//! construction of protocol-conformant responses.

use vstd::prelude::*;
use vstd::string::StringExecFns;

use crate::codec::{
    get_field_i64, get_field_str, get_field_value, has_field, json_ok, msg_field_int,
    msg_field_str, msg_has_field, parse_json, str_eq, val_field_int, val_field_str,
    val_has_field,
};
use crate::protocol::{
    ErrorResponse, ErrorResponseView, Implementation, ImplementationView, LoggingCapability,
    Notification, NotificationView, ParseError, PromptsCapability, Request, RequestId,
    RequestIdView, RequestView, ResourcesCapability, Response, ResultDoc, ResultDocView,
    ServerCapabilities, ToolsCapability,
};
use crate::render::{render_response, spec_render_response};

verus! {

/// The server's static configuration as one mathematical value.
#[verifier::ext_equal]
pub struct ServerView {
    pub capabilities: ServerCapabilities,
    pub implementation: ImplementationView,
}

/// The dispatcher. It owns two pieces of immutable configuration — the
/// advertised capabilities and the implementation identity — and answers one
/// message per call, without keeping any state between calls.
pub struct Server {
    pub capabilities: ServerCapabilities,
    pub implementation: Implementation,
}

impl View for Server {
    type V = ServerView;

    open spec fn view(&self) -> ServerView {
        ServerView { capabilities: self.capabilities, implementation: self.implementation@ }
    }
}

/// The capabilities this server advertises: all four feature groups, every
/// change-notification flag off.
pub open spec fn spec_default_caps() -> ServerCapabilities {
    ServerCapabilities {
        logging: LoggingCapability {},
        prompts: PromptsCapability { list_changed: false },
        resources: ResourcesCapability { subscribe: false, list_changed: false },
        tools: ToolsCapability { list_changed: false },
    }
}

/// The identifier read from an `id` field: its string content when the field
/// holds a string, else its numeric content when it holds an `i64` number.
pub open spec fn spec_id_from(id_str: Option<Seq<char>>, id_num: Option<i64>) -> Option<
    RequestIdView,
> {
    match id_str {
        Some(t) => Some(RequestIdView::Str(t)),
        None => match id_num {
            Some(n) => Some(RequestIdView::Num(n as int)),
            None => None,
        },
    }
}

/// The strict shape of a request, from the contents of its fields: `jsonrpc`
/// and `method` must hold strings and `id` a string or an `i64` number;
/// parameters are arbitrary and only their presence is recorded.
pub open spec fn spec_request_from(
    jsonrpc: Option<Seq<char>>,
    method: Option<Seq<char>>,
    id_str: Option<Seq<char>>,
    id_num: Option<i64>,
    has_params: bool,
) -> Option<RequestView> {
    match (jsonrpc, method, spec_id_from(id_str, id_num)) {
        (Some(j), Some(m), Some(id)) => Some(
            RequestView { jsonrpc: j, id, method: m, has_params },
        ),
        _ => None,
    }
}

/// The strict shape of a notification: `jsonrpc` and `method` must hold
/// strings.
pub open spec fn spec_notification_from(
    jsonrpc: Option<Seq<char>>,
    method: Option<Seq<char>>,
    has_params: bool,
) -> Option<NotificationView> {
    match (jsonrpc, method) {
        (Some(j), Some(m)) => Some(NotificationView { jsonrpc: j, method: m, has_params }),
        _ => None,
    }
}

/// The request, if any, that a parsed document describes.
pub open spec fn spec_request_of_doc(v: serde_json::Value) -> Option<RequestView> {
    spec_request_from(
        val_field_str(v, "jsonrpc"@),
        val_field_str(v, "method"@),
        val_field_str(v, "id"@),
        val_field_int(v, "id"@),
        val_has_field(v, "params"@),
    )
}

/// The notification, if any, that a parsed document describes.
pub open spec fn spec_notification_of_doc(v: serde_json::Value) -> Option<NotificationView> {
    spec_notification_from(
        val_field_str(v, "jsonrpc"@),
        val_field_str(v, "method"@),
        val_has_field(v, "params"@),
    )
}

/// The request, if any, that the raw text describes. Meaningful only when
/// `json_ok` holds of the text.
pub open spec fn spec_request_of(s: Seq<char>) -> Option<RequestView> {
    spec_request_from(
        msg_field_str(s, "jsonrpc"@),
        msg_field_str(s, "method"@),
        msg_field_str(s, "id"@),
        msg_field_int(s, "id"@),
        msg_has_field(s, "params"@),
    )
}

/// The notification, if any, that the raw text describes.
pub open spec fn spec_notification_of(s: Seq<char>) -> Option<NotificationView> {
    spec_notification_from(
        msg_field_str(s, "jsonrpc"@),
        msg_field_str(s, "method"@),
        msg_has_field(s, "params"@),
    )
}

/// The response to a request: `initialize` succeeds with the initialize
/// result, `ping` with the empty document, and any other method gets the
/// method-not-found error. The identifier is echoed unchanged, the protocol
/// version tag is fixed, and exactly one of result and error is present.
pub open spec fn spec_respond(cfg: ServerView, req: RequestView) -> crate::protocol::ResponseView {
    crate::protocol::ResponseView {
        jsonrpc: "2.0"@,
        id: req.id,
        result: if req.method == "initialize"@ {
            Some(
                ResultDocView::Initialize {
                    capabilities: cfg.capabilities,
                    server_info: cfg.implementation,
                },
            )
        } else if req.method == "ping"@ {
            Some(ResultDocView::Empty)
        } else {
            None
        },
        error: if req.method == "initialize"@ || req.method == "ping"@ {
            None
        } else {
            Some(ErrorResponseView { code: -32601, message: "Method not found"@, data: None })
        },
    }
}

/// The outcome of handling one raw message: a syntax failure on text that is
/// not JSON; otherwise, when an `id` field is present, the rendered response
/// to the request (or a shape failure); when it is absent, no output (or a
/// shape failure).
pub open spec fn spec_handle(cfg: ServerView, s: Seq<char>) -> Result<
    Option<Seq<char>>,
    ParseError,
> {
    if !json_ok(s) {
        Err(ParseError::Syntax)
    } else if msg_has_field(s, "id"@) {
        match spec_request_of(s) {
            Some(req) => Ok(Some(spec_render_response(spec_respond(cfg, req)))),
            None => Err(ParseError::Shape),
        }
    } else {
        match spec_notification_of(s) {
            Some(_) => Ok(None),
            None => Err(ParseError::Shape),
        }
    }
}

/// Strict parse of a request from a parsed document.
pub fn parse_request(v: &serde_json::Value) -> (r: Result<Request, ParseError>)
    ensures
        match r {
            Ok(req) => spec_request_of_doc(*v) == Some(req@),
            Err(e) => spec_request_of_doc(*v) is None && e == ParseError::Shape,
        },
{
    let jsonrpc: String = match get_field_str(v, "jsonrpc") {
        Some(x) => x.to_owned(),
        None => {
            return Err(ParseError::Shape);
        },
    };
    let method: String = match get_field_str(v, "method") {
        Some(x) => x.to_owned(),
        None => {
            return Err(ParseError::Shape);
        },
    };
    let id: RequestId = match get_field_str(v, "id") {
        Some(x) => RequestId::Str(x.to_owned()),
        None => match get_field_i64(v, "id") {
            Some(n) => RequestId::Num(n),
            None => {
                return Err(ParseError::Shape);
            },
        },
    };
    let params = get_field_value(v, "params");
    Ok(Request { jsonrpc, id, method, params })
}

/// Strict parse of a notification from a parsed document.
pub fn parse_notification(v: &serde_json::Value) -> (r: Result<Notification, ParseError>)
    ensures
        match r {
            Ok(n) => spec_notification_of_doc(*v) == Some(n@),
            Err(e) => spec_notification_of_doc(*v) is None && e == ParseError::Shape,
        },
{
    let jsonrpc: String = match get_field_str(v, "jsonrpc") {
        Some(x) => x.to_owned(),
        None => {
            return Err(ParseError::Shape);
        },
    };
    let method: String = match get_field_str(v, "method") {
        Some(x) => x.to_owned(),
        None => {
            return Err(ParseError::Shape);
        },
    };
    let params = get_field_value(v, "params");
    Ok(Notification { jsonrpc, method, params })
}

impl Server {
    /// A server advertising the four capability groups, identified by the
    /// given name and version.
    pub fn new(name: &str, version: &str) -> (s: Server)
        ensures
            s@ == (ServerView {
                capabilities: spec_default_caps(),
                implementation: ImplementationView { name: name@, version: version@ },
            }),
    {
        Server {
            capabilities: ServerCapabilities {
                logging: LoggingCapability {},
                prompts: PromptsCapability { list_changed: false },
                resources: ResourcesCapability { subscribe: false, list_changed: false },
                tools: ToolsCapability { list_changed: false },
            },
            implementation: Implementation {
                name: String::from_str(name),
                version: String::from_str(version),
            },
        }
    }

    /// The response to a parsed request, routed by its method name.
    pub fn respond(&self, req: &Request) -> (resp: Response)
        ensures
            resp@ == spec_respond(self@, req@),
    {
        let id = req.id.duplicate();
        let jsonrpc = String::from_str("2.0");
        if str_eq(req.method.as_str(), "initialize") {
            let result = ResultDoc::Initialize {
                capabilities: self.capabilities,
                server_info: Implementation {
                    name: self.implementation.name.clone(),
                    version: self.implementation.version.clone(),
                },
            };
            Response { jsonrpc, id, result: Some(result), error: None }
        } else if str_eq(req.method.as_str(), "ping") {
            Response { jsonrpc, id, result: Some(ResultDoc::Empty), error: None }
        } else {
            let error = ErrorResponse {
                code: -32601,
                message: String::from_str("Method not found"),
                data: None,
            };
            Response { jsonrpc, id, result: None, error: Some(error) }
        }
    }

    /// Handle a message already known to carry an `id`: strict-parse it as a
    /// request, answer it, and serialize the response.
    pub fn handle_request(&self, v: &serde_json::Value) -> (r: Result<String, ParseError>)
        ensures
            match r {
                Ok(out) => spec_request_of_doc(*v) matches Some(req) && out@
                    == spec_render_response(spec_respond(self@, req)),
                Err(e) => spec_request_of_doc(*v) is None && e == ParseError::Shape,
            },
    {
        let req = match parse_request(v) {
            Ok(q) => q,
            Err(e) => {
                return Err(e);
            },
        };
        let resp = self.respond(&req);
        Ok(render_response(&resp))
    }

    /// Handle a message with no `id`: strict-parse it as a notification and
    /// accept it. Recognized (`notifications/initialized`) and unrecognized
    /// notifications alike are accepted without producing output.
    pub fn handle_notification(&self, v: &serde_json::Value) -> (r: Result<(), ParseError>)
        ensures
            match r {
                Ok(_) => spec_notification_of_doc(*v) is Some,
                Err(e) => spec_notification_of_doc(*v) is None && e == ParseError::Shape,
            },
    {
        match parse_notification(v) {
            Ok(_) => Ok(()),
            Err(e) => Err(e),
        }
    }

    /// Handle one raw message. Text that is not JSON fails with a syntax
    /// error. Otherwise the presence of an `id` field — checked on the raw
    /// document, before strict parsing — is the sole classification rule:
    /// present means request (a reply is returned), absent means notification
    /// (no output).
    pub fn handle_message(&self, message: &str) -> (r: Result<Option<String>, ParseError>)
        ensures
            match r {
                Ok(Some(out)) => spec_handle(self@, message@) == Ok::<_, ParseError>(
                    Some(out@),
                ),
                Ok(None) => spec_handle(self@, message@) == Ok::<Option<Seq<char>>, ParseError>(
                    None,
                ),
                Err(e) => spec_handle(self@, message@) == Err::<Option<Seq<char>>, _>(e),
            },
    {
        let parsed = match parse_json(message) {
            Ok(v) => v,
            Err(e) => {
                return Err(e);
            },
        };
        proof {
            assert(val_has_field(parsed, "id"@) == msg_has_field(message@, "id"@));
            assert(val_has_field(parsed, "params"@) == msg_has_field(message@, "params"@));
            assert(val_field_str(parsed, "jsonrpc"@) == msg_field_str(message@, "jsonrpc"@));
            assert(val_field_str(parsed, "method"@) == msg_field_str(message@, "method"@));
            assert(val_field_str(parsed, "id"@) == msg_field_str(message@, "id"@));
            assert(val_field_int(parsed, "id"@) == msg_field_int(message@, "id"@));
        }
        if has_field(&parsed, "id") {
            match self.handle_request(&parsed) {
                Ok(out) => Ok(Some(out)),
                Err(e) => Err(e),
            }
        } else {
            match self.handle_notification(&parsed) {
                Ok(_) => Ok(None),
                Err(e) => Err(e),
            }
        }
    }
}

} // verus!
