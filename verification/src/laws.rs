//! The dispatcher's laws: properties that hold of every message and every
//! request, stated over the specification model and proved once and for all.

use vstd::prelude::*;

use crate::codec::{json_ok, msg_has_field};
use crate::protocol::{response_wf, ParseError, RequestView, ResultDocView};
use crate::server::{spec_handle, spec_notification_of, spec_respond, ServerView};

verus! {

/// Every request whose method is `initialize` is answered without an error,
/// with the initialize result carrying the server's advertised capabilities
/// and identity verbatim.
pub proof fn lemma_initialize_reply(cfg: ServerView, req: RequestView)
    requires
        req.method == "initialize"@,
    ensures
        spec_respond(cfg, req).error is None,
        spec_respond(cfg, req).result == Some(
            ResultDocView::Initialize {
                capabilities: cfg.capabilities,
                server_info: cfg.implementation,
            },
        ),
{
}

/// Every request whose method is `ping` is answered without an error, with
/// the empty document as its result.
pub proof fn lemma_ping_reply(cfg: ServerView, req: RequestView)
    requires
        req.method == "ping"@,
    ensures
        spec_respond(cfg, req).error is None,
        spec_respond(cfg, req).result == Some(ResultDocView::Empty),
{
    reveal_strlit("initialize");
    reveal_strlit("ping");
    assert("ping"@.len() != "initialize"@.len());
}

/// Every request with an unrecognized method is answered without a result,
/// with the method-not-found error code.
pub proof fn lemma_unknown_method_reply(cfg: ServerView, req: RequestView)
    requires
        req.method != "initialize"@,
        req.method != "ping"@,
    ensures
        spec_respond(cfg, req).result is None,
        spec_respond(cfg, req).error matches Some(e) && e.code == -32601,
{
}

/// Every valid notification — any method name, recognized or not — is
/// accepted without output and without failure.
pub proof fn lemma_notification_silence(cfg: ServerView, s: Seq<char>)
    requires
        json_ok(s),
        !msg_has_field(s, "id"@),
        spec_notification_of(s) is Some,
    ensures
        spec_handle(cfg, s) == Ok::<Option<Seq<char>>, ParseError>(None),
{
}

/// The identifier of every response equals, field for field, the identifier
/// of the request it answers.
pub proof fn lemma_identifier_echo(cfg: ServerView, req: RequestView)
    ensures
        spec_respond(cfg, req).id == req.id,
{
}

/// The presence of an `id` field — whether or not it holds a valid
/// identifier — is the sole classification rule: with it a message never ends
/// as an accepted notification, without it a message never produces a reply.
pub proof fn lemma_classification(cfg: ServerView, s: Seq<char>)
    requires
        json_ok(s),
    ensures
        msg_has_field(s, "id"@) ==> spec_handle(cfg, s) != Ok::<Option<Seq<char>>, ParseError>(
            None,
        ),
        !msg_has_field(s, "id"@) ==> !(spec_handle(cfg, s) matches Ok(Some(_))),
{
}

/// Text that is not a JSON document fails with a syntax error, and no output
/// is produced.
pub proof fn lemma_malformed_text_fails(cfg: ServerView, s: Seq<char>)
    requires
        !json_ok(s),
    ensures
        spec_handle(cfg, s) == Err::<Option<Seq<char>>, ParseError>(ParseError::Syntax),
{
}

/// Every produced response is well formed: it carries the fixed protocol
/// version tag and exactly one of result and error — never both, never
/// neither.
pub proof fn lemma_result_error_exclusive(cfg: ServerView, req: RequestView)
    ensures
        response_wf(spec_respond(cfg, req)),
{
}

} // verus!

