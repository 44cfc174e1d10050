//! The request router: which requests are answered at once, which wait for
//! the operator, and which are ignored. It sends nothing and stores nothing;
//! the caller acts on its verdict.

use crate::nip46::{
    request_fits, request_of_message, request_view, response_to, texts, Message, MessageView,
    Request, RequestView, Response, ResponseView,
};
use nostr::secp256k1::XOnlyPublicKey;
use vstd::prelude::*;

verus! {

/// What is to be done with an envelope that came in.
#[derive(Clone, Debug, PartialEq)]
pub enum RouteOutcome {
    /// Send this envelope back to the sender now.
    AnswerNow(Message),
    /// Keep the request until the operator approves or rejects it.
    Enqueue,
    /// Do nothing.
    Ignore,
}

pub enum RouteOutcomeView {
    AnswerNow(MessageView),
    Enqueue,
    Ignore,
}

impl View for RouteOutcome {
    type V = RouteOutcomeView;

    open spec fn view(&self) -> RouteOutcomeView {
        match self {
            RouteOutcome::AnswerNow(message) => RouteOutcomeView::AnswerNow(message@),
            RouteOutcome::Enqueue => RouteOutcomeView::Enqueue,
            RouteOutcome::Ignore => RouteOutcomeView::Ignore,
        }
    }
}

/// The methods that the signer says it supports.
pub open spec fn capability_names() -> Seq<Seq<char>> {
    seq!["describe"@, "get_public_key"@, "sign_event"@]
}

/// The answer that a request gets without the operator: the list of methods
/// for `describe`, the signing key's public key for `get_public_key`, and none
/// for any other request.
pub open spec fn immediate_response(request: RequestView, signer_key: XOnlyPublicKey) -> Option<
    ResponseView,
> {
    match request {
        RequestView::Describe => Some(ResponseView::Describe(capability_names())),
        RequestView::GetPublicKey => Some(ResponseView::GetPublicKey(signer_key)),
        _ => None,
    }
}

/// The verdict on an envelope with id `req_id` that makes `request`: a request
/// with an immediate answer gets it, a request to sign an event waits for the
/// operator, and everything else, an envelope that makes no request included,
/// is ignored.
pub open spec fn routed(
    req_id: Seq<char>,
    request: Option<RequestView>,
    signer_key: XOnlyPublicKey,
) -> RouteOutcomeView {
    match request {
        None => RouteOutcomeView::Ignore,
        Some(request) => match immediate_response(request, signer_key) {
            Some(response) => RouteOutcomeView::AnswerNow(response_to(req_id, response)),
            None => if request is SignEvent {
                RouteOutcomeView::Enqueue
            } else {
                RouteOutcomeView::Ignore
            },
        },
    }
}

/// What the debug log calls an envelope.
pub open spec fn method_label(message: MessageView) -> Seq<char> {
    match message {
        MessageView::Request { method, .. } => "request "@ + method,
        MessageView::Response { .. } => "response"@,
    }
}

/// The list of supported methods.
pub fn capabilities() -> (res: Vec<String>)
    ensures
        texts(res@) == capability_names(),
{
    let mut list: Vec<String> = Vec::new();
    list.push("describe".to_owned());
    list.push("get_public_key".to_owned());
    list.push("sign_event".to_owned());
    list
}

/// Names an envelope for the debug log: "request" and the method, or
/// "response".
pub fn message_method(msg: &Message) -> (res: String)
    ensures
        res@ == method_label(msg@),
{
    match msg {
        Message::Request { id: _, method, params: _ } => {
            let mut label = "request ".to_owned();
            label.append(method.as_str());
            label
        },
        Message::Response { .. } => "response".to_owned(),
    }
}

/// Builds the answer that `req` gets at once, as an envelope for request
/// `req_id`, or `None` where the request has no immediate answer.
/// `signer_public_key` is the public key of the signing key.
pub fn response_for_message(
    req_id: &String,
    req: &Request,
    signer_public_key: &XOnlyPublicKey,
) -> (res: Option<Message>)
    ensures
        match immediate_response(req@, *signer_public_key) {
            Some(response) => res matches Some(message) && message@ == response_to(
                req_id@,
                response,
            ),
            None => res is None,
        },
{
    match req {
        Request::Describe => Some(
            Message::response(req_id.clone(), Response::Describe(capabilities())),
        ),
        Request::GetPublicKey => Some(
            Message::response(req_id.clone(), Response::GetPublicKey(*signer_public_key)),
        ),
        _ => None,
    }
}

/// Routes an envelope of which it is already known what request it makes:
/// `request` is that request, or `None` where the envelope makes none.
pub fn route_request(
    req_id: &String,
    request: &Option<Request>,
    signer_public_key: &XOnlyPublicKey,
) -> (res: RouteOutcome)
    ensures
        res@ == routed(req_id@, request_view(*request), *signer_public_key),
{
    match request {
        None => RouteOutcome::Ignore,
        Some(req) => match response_for_message(req_id, req, signer_public_key) {
            Some(message) => RouteOutcome::AnswerNow(message),
            None => match req {
                Request::SignEvent(_) => RouteOutcome::Enqueue,
                _ => RouteOutcome::Ignore,
            },
        },
    }
}

/// Routes an envelope that came in. `signer_public_key` is the public key of
/// the signing key, which answers `get_public_key`.
pub fn route(msg: &Message, signer_public_key: &XOnlyPublicKey) -> (res: RouteOutcome)
    ensures
        res@ == routed(msg@.id(), request_of_message(msg@), *signer_public_key),
        request_fits(msg@),
{
    match msg {
        Message::Request { id, method: _, params: _ } => {
            let request = msg.to_request();
            route_request(id, &request, signer_public_key)
        },
        Message::Response { .. } => RouteOutcome::Ignore,
    }
}

/// A request that is answered at once never waits for the operator, and a
/// request to sign an event always does, whatever its id and whoever signs.
pub proof fn lemma_only_sign_event_waits(
    req_id: Seq<char>,
    request: RequestView,
    signer_key: XOnlyPublicKey,
)
    ensures
        routed(req_id, Some(request), signer_key) is Enqueue <==> request is SignEvent,
        request is Describe || request is GetPublicKey ==> routed(
            req_id,
            Some(request),
            signer_key,
        ) is AnswerNow,
{
}

} // verus!
