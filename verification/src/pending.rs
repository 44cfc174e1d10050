//! A request that waits for the operator, and the line that describes it.

use crate::nip46::{
    method_name, request_fits, request_of_message, request_view, Message, MessageView, Request,
    RequestView,
};
use crate::text::{shortened, shortened_text};
use nostr::secp256k1::XOnlyPublicKey;
use vstd::prelude::*;

verus! {

/// How many bytes of an event's text the operator gets to see.
pub const PREVIEW_CONTENT_LEN: usize = 100;

/// An envelope that came in, with the public key of who sent it.
#[derive(Clone, Debug, PartialEq)]
pub struct SignatureReqest {
    pub req: Message,
    pub sender_pubkey: XOnlyPublicKey,
}

pub struct SignatureReqestView {
    pub req: MessageView,
    pub sender_pubkey: XOnlyPublicKey,
}

impl View for SignatureReqest {
    type V = SignatureReqestView;

    open spec fn view(&self) -> SignatureReqestView {
        SignatureReqestView { req: self.req@, sender_pubkey: self.sender_pubkey }
    }
}

/// The line that describes an envelope to the operator, given the request that
/// it makes: a preview of the text for an event to sign, the method's name for
/// any other request, and a fixed line for an envelope that makes no request.
pub open spec fn description_of(request: Option<RequestView>) -> Seq<char> {
    match request {
        None => "(not request, no action needed)"@,
        Some(RequestView::SignEvent(event)) => "Signature requested for message: '"@ + shortened(
            event.content,
            PREVIEW_CONTENT_LEN as nat,
        ) + "'"@,
        Some(other) => "("@ + method_name(other) + ", no action needed)"@,
    }
}

/// Describes an envelope to the operator, given the request that it makes, or
/// `None` where it makes none.
pub fn describe_request(request: &Option<Request>) -> (res: String)
    ensures
        res@ == description_of(request_view(*request)),
{
    match request {
        None => "(not request, no action needed)".to_owned(),
        Some(Request::SignEvent(event)) => {
            let preview = shortened_text(event.content.as_str(), PREVIEW_CONTENT_LEN);
            let mut line = "Signature requested for message: '".to_owned();
            line.append(preview.as_str());
            line.append("'");
            line
        },
        Some(other) => {
            let method = other.method();
            let mut line = "(".to_owned();
            line.append(method.as_str());
            line.append(", no action needed)");
            line
        },
    }
}

impl SignatureReqest {
    /// The line that describes this request to the operator.
    pub fn description(&self) -> (res: String)
        ensures
            res@ == description_of(request_of_message(self.req@)),
            request_fits(self.req@),
    {
        let request = self.req.to_request();
        describe_request(&request)
    }
}

} // verus!
