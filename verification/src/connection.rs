//! A live session with one client, and the queue of its requests that wait
//! for the operator.
//!
//! The queue is first in, first out. A request leaves it exactly once, either
//! processed or ignored; removing from an empty queue does nothing. Every
//! operation here is one step on `&mut self`: whoever shares a connection
//! between threads puts it behind a lock and holds the lock for the call.

use crate::error::Error;
use crate::keys::{key_to_bech32, npub_of};
use crate::nip46::{
    request_fits, request_of_message, response_to, Message, MessageView, Request, RequestView,
    Response, ResponseView,
};
use crate::pending::{description_of, SignatureReqest, SignatureReqestView};
use nostr::secp256k1::schnorr::Signature;
use nostr::secp256k1::XOnlyPublicKey;
use nostr::Keys;
use vstd::prelude::*;

verus! {

/// An envelope to send, and the public key of who is to get it.
#[derive(Clone, Debug, PartialEq)]
pub struct Outgoing {
    pub message: Message,
    pub receiver: XOnlyPublicKey,
}

pub struct OutgoingView {
    pub message: MessageView,
    pub receiver: XOnlyPublicKey,
}

impl View for Outgoing {
    type V = OutgoingView;

    open spec fn view(&self) -> OutgoingView {
        OutgoingView { message: self.message@, receiver: self.receiver }
    }
}

/// A live session: who the client is, which key pair the signer uses towards
/// the relay, where the relay is, and which requests wait for the operator.
#[derive(Clone, Debug)]
pub struct SignerConnection {
    pub client_pubkey: XOnlyPublicKey,
    /// The session's own key pair, for the relay (not the one for signing).
    pub app_id_keys: Keys,
    pub relay_str: String,
    pub(crate) requests: Vec<SignatureReqest>,
}

pub struct SignerConnectionView {
    pub client_pubkey: XOnlyPublicKey,
    pub app_id_keys: Keys,
    pub relay_str: Seq<char>,
    /// The waiting requests, oldest first.
    pub requests: Seq<SignatureReqestView>,
}

/// The views of a list of waiting requests.
pub open spec fn request_views(list: Seq<SignatureReqest>) -> Seq<SignatureReqestView> {
    Seq::new(list.len(), |i: int| list[i]@)
}

impl View for SignerConnection {
    type V = SignerConnectionView;

    open(crate) spec fn view(&self) -> SignerConnectionView {
        SignerConnectionView {
            client_pubkey: self.client_pubkey,
            app_id_keys: self.app_id_keys,
            relay_str: self.relay_str@,
            requests: request_views(self.requests@),
        }
    }
}

/// The queue after its oldest request has left; an empty queue stays empty.
pub open spec fn without_first(queue: Seq<SignatureReqestView>) -> Seq<SignatureReqestView> {
    if queue.len() == 0 {
        queue
    } else {
        queue.drop_first()
    }
}

/// The queue after `count` removals.
pub open spec fn after_removals(queue: Seq<SignatureReqestView>, count: nat) -> Seq<
    SignatureReqestView,
>
    decreases count,
{
    if count == 0 {
        queue
    } else {
        after_removals(without_first(queue), (count - 1) as nat)
    }
}

/// The line that describes the oldest waiting request, or "-" where none
/// waits.
pub open spec fn first_description(queue: Seq<SignatureReqestView>) -> Seq<char> {
    if queue.len() == 0 {
        "-"@
    } else {
        description_of(request_of_message(queue[0].req))
    }
}

/// What there is to sign for one request, and where the answer goes.
#[derive(Clone, Debug, PartialEq, Eq)]
pub struct SigningJob {
    /// The id of the request, which the response repeats.
    pub req_id: String,
    /// The id of the event: the bytes to sign.
    pub event_id: Vec<u8>,
    /// Who asked, and gets the response.
    pub sender_pubkey: XOnlyPublicKey,
}

pub struct SigningJobView {
    pub req_id: Seq<char>,
    pub event_id: Seq<u8>,
    pub sender_pubkey: XOnlyPublicKey,
}

impl View for SigningJob {
    type V = SigningJobView;

    open spec fn view(&self) -> SigningJobView {
        SigningJobView {
            req_id: self.req_id@,
            event_id: self.event_id@,
            sender_pubkey: self.sender_pubkey,
        }
    }
}

/// The view of a job that may be absent.
pub open spec fn job_view(job: Option<SigningJob>) -> Option<SigningJobView> {
    match job {
        Some(job) => Some(job@),
        None => None,
    }
}

/// What there is to sign for a waiting request: the id of the request, the id
/// of the event and the sender, where it asks for an event to be signed;
/// `None` for any other envelope.
pub open spec fn signing_job(entry: SignatureReqestView) -> Option<SigningJobView> {
    match request_of_message(entry.req) {
        Some(RequestView::SignEvent(event)) => Some(
            SigningJobView {
                req_id: entry.req.id(),
                event_id: event.id,
                sender_pubkey: entry.sender_pubkey,
            },
        ),
        _ => None,
    }
}

/// What there is to sign for the oldest waiting request; `None` where nothing
/// waits or the oldest envelope asks for no signature.
pub open spec fn first_job(queue: Seq<SignatureReqestView>) -> Option<SigningJobView> {
    if queue.len() == 0 {
        None
    } else {
        signing_job(queue[0])
    }
}

/// The envelope that carries `signature` back to who asked for it.
pub open spec fn signed_reply(job: SigningJobView, signature: Signature) -> OutgoingView {
    OutgoingView {
        message: response_to(job.req_id, ResponseView::SignEvent(signature)),
        receiver: job.sender_pubkey,
    }
}

/// What is sent once the signing capability has answered: the signature goes
/// back to who asked, a failure sends nothing.
pub open spec fn reply_for(job: SigningJobView, signed: Result<Signature, Error>) -> Option<
    OutgoingView,
> {
    match signed {
        Ok(signature) => Some(signed_reply(job, signature)),
        Err(_) => None,
    }
}

/// Whether `res` is what processing the queue `queue` with the signing
/// capability `sign` may give. With no job for the oldest request there is
/// nothing to send. Otherwise `sign` was called with the event's id, and what
/// it gave decides.
pub open spec fn processing_gives<F: FnOnce(Vec<u8>) -> Result<Signature, Error>>(
    queue: Seq<SignatureReqestView>,
    sign: F,
    res: Option<OutgoingView>,
) -> bool {
    match first_job(queue) {
        None => res is None,
        Some(job) => exists|bytes: Vec<u8>, signed: Result<Signature, Error>|
            {
                &&& bytes@ == job.event_id
                &&& sign.ensures((bytes,), signed)
                &&& res == reply_for(job, signed)
            },
    }
}

/// The view of an envelope to send that may be absent.
pub open spec fn outgoing_view(outgoing: Option<Outgoing>) -> Option<OutgoingView> {
    match outgoing {
        Some(outgoing) => Some(outgoing@),
        None => None,
    }
}

impl SigningJob {
    /// Turns what the signing capability gave into what is to be sent: the
    /// response with the signature, for who asked, or nothing where the
    /// signing failed.
    pub fn reply(self, signed: Result<Signature, Error>) -> (res: Option<Outgoing>)
        ensures
            outgoing_view(res) == reply_for(self@, signed),
    {
        match signed {
            Ok(signature) => {
                let message = Message::response(self.req_id, Response::SignEvent(signature));
                Some(Outgoing { message, receiver: self.sender_pubkey })
            },
            Err(_) => None,
        }
    }
}

impl SignerConnection {
    /// A new session with no waiting request.
    pub fn new(client_pubkey: XOnlyPublicKey, app_id_keys: Keys, relay_str: String) -> (res: Self)
        ensures
            res@ == (SignerConnectionView {
                client_pubkey,
                app_id_keys,
                relay_str: relay_str@,
                requests: Seq::empty(),
            }),
    {
        let res = SignerConnection { client_pubkey, app_id_keys, relay_str, requests: Vec::new() };
        assert(res@.requests =~= Seq::empty());
        res
    }

    /// The client's public key in its `npub` form.
    pub fn get_client_npub(&self) -> (res: String)
        ensures
            res@ == npub_of(self@.client_pubkey),
    {
        key_to_bech32(&self.client_pubkey)
    }

    /// Appends a request at the tail of the queue.
    pub fn add_request(&mut self, req: Message, sender_pubkey: XOnlyPublicKey)
        ensures
            final(self)@ == (SignerConnectionView {
                requests: old(self)@.requests.push(SignatureReqestView { req: req@, sender_pubkey }),
                ..old(self)@
            }),
    {
        self.requests.push(SignatureReqest { req, sender_pubkey });
        assert(request_views(self.requests@) =~= request_views(old(self).requests@).push(
            SignatureReqestView { req: req@, sender_pubkey },
        ));
    }

    /// How many requests wait.
    pub fn get_pending_count(&self) -> (res: usize)
        ensures
            res == self@.requests.len(),
    {
        self.requests.len()
    }

    /// The line that describes the oldest waiting request, or "-" where none
    /// waits.
    pub fn get_first_request_description(&self) -> (res: String)
        ensures
            res@ == first_description(self@.requests),
            self@.requests.len() > 0 ==> request_fits(self@.requests[0].req),
    {
        if self.requests.len() == 0 {
            "-".to_owned()
        } else {
            self.requests[0].description()
        }
    }

    /// Takes the oldest waiting request off the queue and says what there is
    /// to sign for it, if anything. This is the one step by which a request
    /// leaves the queue to be signed: the signing capability is for the job
    /// that it gives, and for nothing else. With nothing waiting, nothing
    /// happens.
    pub fn take_first_job(&mut self) -> (res: Option<SigningJob>)
        ensures
            final(self)@ == (SignerConnectionView {
                requests: without_first(old(self)@.requests),
                ..old(self)@
            }),
            job_view(res) == first_job(old(self)@.requests),
            old(self)@.requests.len() > 0 ==> request_fits(old(self)@.requests[0].req),
    {
        if self.requests.len() == 0 {
            return None;
        }
        let first = self.requests.remove(0);
        assert(request_views(self.requests@) =~= without_first(request_views(old(self).requests@)));
        let SignatureReqest { req, sender_pubkey } = first;
        match req.to_request() {
            Some(Request::SignEvent(unsigned_event)) => {
                match req {
                    Message::Request { id, method: _, params: _ } => Some(
                        SigningJob { req_id: id, event_id: unsigned_event.id, sender_pubkey },
                    ),
                    Message::Response { .. } => None,
                }
            },
            _ => None,
        }
    }

    /// Takes the oldest waiting request off the queue and, where it asks for
    /// an event to be signed, has `sign` sign the event's id. Where `sign`
    /// gives a signature, the result is the response to send back. A failed
    /// signing is not tried again: the request has left the queue either way.
    /// With nothing waiting, nothing happens. Who wants the capability itself
    /// kept out of reach takes the job with `take_first_job`, signs, and
    /// turns the outcome into the response with `SigningJob::reply`.
    pub fn action_first_req_process<F: FnOnce(Vec<u8>) -> Result<Signature, Error>>(
        &mut self,
        sign: F,
    ) -> (res: Option<Outgoing>)
        requires
            forall|bytes: Vec<u8>| sign.requires((bytes,)),
        ensures
            final(self)@ == (SignerConnectionView {
                requests: without_first(old(self)@.requests),
                ..old(self)@
            }),
            processing_gives(old(self)@.requests, sign, outgoing_view(res)),
            old(self)@.requests.len() > 0 ==> request_fits(old(self)@.requests[0].req),
    {
        match self.take_first_job() {
            None => None,
            Some(job) => {
                let bytes = job.event_id.clone();
                let signed = sign(bytes);
                job.reply(signed)
            },
        }
    }

    /// Takes the oldest waiting request off the queue and drops it. With
    /// nothing waiting, nothing happens.
    pub fn action_first_req_remove(&mut self)
        ensures
            final(self)@ == (SignerConnectionView {
                requests: without_first(old(self)@.requests),
                ..old(self)@
            }),
    {
        if self.requests.len() > 0 {
            let _ = self.requests.remove(0);
        }
        assert(request_views(self.requests@) =~= without_first(request_views(old(self).requests@)));
    }
}

/// Requests leave in the order in which they joined: after `count` removals
/// the queue holds what joined after the first `count` requests, in the same
/// order, so the next to leave is the oldest of them.
pub proof fn lemma_removals_follow_arrival(queue: Seq<SignatureReqestView>, count: nat)
    requires
        count <= queue.len(),
    ensures
        after_removals(queue, count) == queue.skip(count as int),
    decreases count,
{
    if count > 0 {
        lemma_removals_follow_arrival(without_first(queue), (count - 1) as nat);
    }
}

/// First in, first out: of three requests that join a queue one after the
/// other, the first is the first to leave once all that waited before them
/// have left, then the second, then the third, and then the queue is empty.
pub proof fn lemma_first_in_first_out(
    queue: Seq<SignatureReqestView>,
    r1: SignatureReqestView,
    r2: SignatureReqestView,
    r3: SignatureReqestView,
)
    ensures
        after_removals(queue.push(r1).push(r2).push(r3), queue.len()) == seq![r1, r2, r3],
        after_removals(queue.push(r1).push(r2).push(r3), queue.len() + 1) == seq![r2, r3],
        after_removals(queue.push(r1).push(r2).push(r3), queue.len() + 2) == seq![r3],
        after_removals(queue.push(r1).push(r2).push(r3), queue.len() + 3)
            == Seq::<SignatureReqestView>::empty(),
{
    let all = queue.push(r1).push(r2).push(r3);
    let n = queue.len();
    lemma_removals_follow_arrival(all, n);
    lemma_removals_follow_arrival(all, n + 1);
    lemma_removals_follow_arrival(all, n + 2);
    lemma_removals_follow_arrival(all, n + 3);
}

/// On an empty queue both removals do nothing: the queue stays empty however
/// often they are tried, and processing has nothing to sign and nothing to
/// send.
pub proof fn lemma_empty_queue_stays<F: FnOnce(Vec<u8>) -> Result<Signature, Error>>(
    queue: Seq<SignatureReqestView>,
    count: nat,
    sign: F,
    res: Option<OutgoingView>,
)
    requires
        queue.len() == 0,
    ensures
        without_first(queue) == queue,
        after_removals(queue, count) == queue,
        processing_gives(queue, sign, res) <==> res is None,
    decreases count,
{
    if count > 0 {
        lemma_empty_queue_stays(queue, (count - 1) as nat, sign, res);
    }
}

} // verus!
