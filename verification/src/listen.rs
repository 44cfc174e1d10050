//! The decisions of the listen loop.
//!
//! Whoever runs the loop subscribes with `subscription_filter`, hands every
//! event that arrives to `handle_event`, and carries out the `Reaction` that
//! comes back. No event, however malformed, makes these functions fail: what
//! cannot be decrypted or read is dropped, and the loop goes on.

use crate::connection::{Outgoing, OutgoingView, SignerConnection, SignerConnectionView};
use crate::keys::{has_secret_key, key_to_bech32, npub_of, public_key_of};
use crate::nip46::{
    carries, connect_params, decode, decoded, event_author, event_content, event_kind,
    has_sixteen_byte_vector, json_of_message, message_of_json, plaintext_of, read_event_author,
    read_event_content, read_event_kind, request_fits, request_of_message, Message, MessageView,
    RequestView,
};
use nostr::{Event, Keys};
use crate::pending::SignatureReqestView;
use crate::router::{route, routed, RouteOutcome, RouteOutcomeView};
use nostr::secp256k1::XOnlyPublicKey;
use vstd::prelude::*;

verus! {

/// The kind of the events that carry the protocol's envelopes.
pub const NOSTR_CONNECT_KIND: u64 = 24133;

/// How far back the subscription looks, in seconds.
pub const LOOK_BACK_SECS: i64 = 10;

/// What the presentation layer is told; it carries no payload, the receiver
/// asks for the state again.
#[derive(Clone, Copy, Debug, PartialEq, Eq)]
pub enum Notification {
    SignerConnected,
    SignerNewRequest,
}

/// What the caller is to do after an event was handled.
#[derive(Clone, Debug, PartialEq)]
pub enum Reaction {
    /// Nothing: the event was not for the signer, could not be read, or asks
    /// for nothing that the signer does.
    Nothing,
    /// Send this envelope.
    Reply(Outgoing),
    /// Tell the presentation layer, and show this status line.
    Notify { event: Notification, status: String },
}

pub enum ReactionView {
    Nothing,
    Reply(OutgoingView),
    Notify { event: Notification, status: Seq<char> },
}

impl View for Reaction {
    type V = ReactionView;

    open spec fn view(&self) -> ReactionView {
        match self {
            Reaction::Nothing => ReactionView::Nothing,
            Reaction::Reply(outgoing) => ReactionView::Reply(outgoing@),
            Reaction::Notify { event, status } => ReactionView::Notify {
                event: *event,
                status: status@,
            },
        }
    }
}

/// Which events the signer asks the relay for.
#[derive(Clone, Copy, Debug, PartialEq, Eq)]
pub struct SubscriptionFilter {
    /// Only events addressed to this public key.
    pub pubkey: XOnlyPublicKey,
    /// Only events of this kind.
    pub kind: u64,
    /// Only events from this time on, in seconds since the epoch.
    pub since: i64,
}

/// The start of the look-back window for a subscription made at `now`: ten
/// seconds earlier, or the earliest time there is.
pub open spec fn look_back_from(now: i64) -> int {
    if now - LOOK_BACK_SECS < i64::MIN {
        i64::MIN as int
    } else {
        now - LOOK_BACK_SECS
    }
}

/// The connection and the reaction after an envelope from `sender` was
/// handled: an immediate answer goes back to the sender, a request to sign an
/// event joins the tail of the queue and the presentation layer is told, and
/// anything else changes nothing.
pub open spec fn handled(
    connection: SignerConnectionView,
    msg: MessageView,
    sender: XOnlyPublicKey,
    signer_key: XOnlyPublicKey,
) -> (SignerConnectionView, ReactionView) {
    match routed(msg.id(), request_of_message(msg), signer_key) {
        RouteOutcomeView::AnswerNow(answer) => (
            connection,
            ReactionView::Reply(OutgoingView { message: answer, receiver: sender }),
        ),
        RouteOutcomeView::Enqueue => (
            SignerConnectionView {
                requests: connection.requests.push(
                    SignatureReqestView { req: msg, sender_pubkey: sender },
                ),
                ..connection
            },
            ReactionView::Notify {
                event: Notification::SignerNewRequest,
                status: "New Signing request received"@,
            },
        ),
        RouteOutcomeView::Ignore => (connection, ReactionView::Nothing),
    }
}

/// The connection and the reaction after an event of kind `kind` from `sender`
/// with the body `content` arrived: an event of another kind, or one whose
/// body holds no envelope for this session, changes nothing; an envelope is
/// handled.
pub open spec fn received(
    connection: SignerConnectionView,
    kind: u64,
    sender: XOnlyPublicKey,
    content: Seq<char>,
    signer_key: XOnlyPublicKey,
) -> (SignerConnectionView, ReactionView) {
    if kind != NOSTR_CONNECT_KIND {
        (connection, ReactionView::Nothing)
    } else {
        match decoded(connection.app_id_keys, sender, content) {
            Some(msg) => handled(connection, msg, sender, signer_key),
            None => (connection, ReactionView::Nothing),
        }
    }
}

/// Whether the request of the envelope inside an event goes with its method,
/// where the event is of the protocol's kind and holds an envelope.
pub open spec fn received_fits(
    connection: SignerConnectionView,
    kind: u64,
    sender: XOnlyPublicKey,
    content: Seq<char>,
) -> bool {
    kind == NOSTR_CONNECT_KIND ==> match decoded(connection.app_id_keys, sender, content) {
        Some(msg) => request_fits(msg),
        None => true,
    }
}

/// Handles an envelope that `sender_pubkey` sent. `signer_public_key` is the
/// public key of the signing key.
pub fn handle_request(
    connection: &mut SignerConnection,
    msg: Message,
    sender_pubkey: XOnlyPublicKey,
    signer_public_key: &XOnlyPublicKey,
) -> (res: Reaction)
    ensures
        (final(connection)@, res@) == handled(
            old(connection)@,
            msg@,
            sender_pubkey,
            *signer_public_key,
        ),
        request_fits(msg@),
{
    match route(&msg, signer_public_key) {
        RouteOutcome::AnswerNow(message) => Reaction::Reply(
            Outgoing { message, receiver: sender_pubkey },
        ),
        RouteOutcome::Enqueue => {
            connection.add_request(msg, sender_pubkey);
            Reaction::Notify {
                event: Notification::SignerNewRequest,
                status: "New Signing request received".to_owned(),
            }
        },
        RouteOutcome::Ignore => Reaction::Nothing,
    }
}

/// Handles an event that the relay delivered: `kind` is its kind,
/// `sender_pubkey` its author and `content` its encrypted body.
/// `signer_public_key` is the public key of the signing key.
pub fn handle_event(
    connection: &mut SignerConnection,
    kind: u64,
    sender_pubkey: XOnlyPublicKey,
    content: &str,
    signer_public_key: &XOnlyPublicKey,
) -> (res: Reaction)
    ensures
        (final(connection)@, res@) == received(
            old(connection)@,
            kind,
            sender_pubkey,
            content@,
            *signer_public_key,
        ),
        received_fits(old(connection)@, kind, sender_pubkey, content@),
{
    if kind != NOSTR_CONNECT_KIND {
        return Reaction::Nothing;
    }
    match decode(&connection.app_id_keys, &sender_pubkey, content) {
        Ok(msg) => handle_request(connection, msg, sender_pubkey, signer_public_key),
        Err(_) => Reaction::Nothing,
    }
}

/// Handles an event as the relay delivered it: its kind, its author and its
/// body are read from it and handled. `signer_public_key` is the public key
/// of the signing key.
pub fn handle_delivered(
    connection: &mut SignerConnection,
    event: &Event,
    signer_public_key: &XOnlyPublicKey,
) -> (res: Reaction)
    ensures
        (final(connection)@, res@) == received(
            old(connection)@,
            event_kind(*event),
            event_author(*event),
            event_content(*event),
            *signer_public_key,
        ),
        received_fits(
            old(connection)@,
            event_kind(*event),
            event_author(*event),
            event_content(*event),
        ),
{
    handle_event(
        connection,
        read_event_kind(event),
        read_event_author(event),
        read_event_content(event).as_str(),
        signer_public_key,
    )
}

impl SignerConnection {
    /// The filter to subscribe with at time `now` (seconds since the epoch):
    /// events of the protocol's kind, addressed to the session's public key,
    /// no older than the look-back window.
    pub fn subscription_filter(&self, now: i64) -> (res: SubscriptionFilter)
        ensures
            res.pubkey == public_key_of(self@.app_id_keys),
            res.kind == NOSTR_CONNECT_KIND,
            res.since == look_back_from(now),
    {
        let since: i64 = if now < i64::MIN + LOOK_BACK_SECS {
            i64::MIN
        } else {
            now - LOOK_BACK_SECS
        };
        SubscriptionFilter { pubkey: self.app_id_keys.public_key(), kind: NOSTR_CONNECT_KIND, since }
    }

    /// The envelope that presents the signer to the client once the relay is
    /// connected: a `connect` request with the session's public key, for the
    /// client.
    pub fn connect_ack(&self) -> (res: Outgoing)
        ensures
            res@.receiver == self@.client_pubkey,
            res@.message is Request,
            res@.message.method() == "connect"@,
            res@.message.params() == connect_params(public_key_of(self@.app_id_keys)),
    {
        Outgoing {
            message: Message::connect_request(self.app_id_keys.public_key()),
            receiver: self.client_pubkey,
        }
    }

    /// What to tell once the handshake is sent: the presentation layer learns
    /// that the signer is connected, and the status line names the relay and
    /// the client.
    pub fn connected_notice(&self) -> (res: Reaction)
        ensures
            res@ == (ReactionView::Notify {
                event: Notification::SignerConnected,
                status: "Signer connected (relay: "@ + self@.relay_str + ", client npub: "@
                    + npub_of(self@.client_pubkey) + ")"@,
            }),
    {
        let npub = key_to_bech32(&self.client_pubkey);
        let mut status = "Signer connected (relay: ".to_owned();
        status.append(self.relay_str.as_str());
        status.append(", client npub: ");
        status.append(npub.as_str());
        status.append(")");
        Reaction::Notify { event: Notification::SignerConnected, status }
    }
}

/// Requests that are answered at once never join the queue, and every request
/// to sign an event does, at its tail, whatever was queued before.
pub proof fn lemma_queue_holds_sign_requests_only(
    connection: SignerConnectionView,
    msg: MessageView,
    sender: XOnlyPublicKey,
    signer_key: XOnlyPublicKey,
)
    ensures
        request_of_message(msg) is Some && request_of_message(msg)->0 is SignEvent ==> handled(
            connection,
            msg,
            sender,
            signer_key,
        ).0.requests == connection.requests.push(
            SignatureReqestView { req: msg, sender_pubkey: sender },
        ),
        !(request_of_message(msg) is Some && request_of_message(msg)->0 is SignEvent) ==> handled(
            connection,
            msg,
            sender,
            signer_key,
        ).0 == connection,
        request_of_message(msg) == Some(RequestView::Describe) || request_of_message(msg) == Some(
            RequestView::GetPublicKey,
        ) ==> handled(connection, msg, sender, signer_key).1 is Reply,
{
}

/// An event whose body cannot be decrypted or read is dropped: the
/// connection stays as it was and there is nothing to do.
pub proof fn lemma_unreadable_event_is_dropped(
    connection: SignerConnectionView,
    kind: u64,
    sender: XOnlyPublicKey,
    content: Seq<char>,
    signer_key: XOnlyPublicKey,
)
    requires
        decoded(connection.app_id_keys, sender, content) is None,
    ensures
        received(connection, kind, sender, content, signer_key) == (
            connection,
            ReactionView::Nothing,
        ),
{
}

/// An envelope that arrives encrypted is handled as it was sent, with its
/// sender: where the body of an event of the protocol's kind has an initial
/// vector of sixteen bytes and decrypts to the JSON text of an envelope, and
/// that text reads back as the envelope, this envelope and no other is what
/// the handler gets.
pub proof fn lemma_encrypted_envelope_is_handled(
    connection: SignerConnectionView,
    sender: XOnlyPublicKey,
    content: Seq<char>,
    msg: MessageView,
    signer_key: XOnlyPublicKey,
)
    requires
        has_sixteen_byte_vector(content),
        plaintext_of(connection.app_id_keys, sender, content) == Some(json_of_message(msg)),
        message_of_json(json_of_message(msg)) == Some(msg),
    ensures
        decoded(connection.app_id_keys, sender, content) == Some(msg),
        received(connection, NOSTR_CONNECT_KIND, sender, content, signer_key) == handled(
            connection,
            msg,
            sender,
            signer_key,
        ),
{
}

/// What is built for a session arrives there as it was sent: an event that
/// carries an envelope from the holder of `sender_keys` to the session's
/// public key is handled by the session, which holds its secret key, as that
/// envelope from that sender, where the envelope's JSON text reads back as
/// the envelope.
pub proof fn lemma_sent_envelope_is_handled(
    connection: SignerConnectionView,
    event: Event,
    sender_keys: Keys,
    msg: MessageView,
    signer_key: XOnlyPublicKey,
)
    requires
        carries(event, sender_keys, public_key_of(connection.app_id_keys), msg),
        has_secret_key(connection.app_id_keys),
        message_of_json(json_of_message(msg)) == Some(msg),
    ensures
        event_kind(event) == NOSTR_CONNECT_KIND,
        event_author(event) == public_key_of(sender_keys),
        decoded(connection.app_id_keys, event_author(event), event_content(event)) == Some(msg),
        received(
            connection,
            event_kind(event),
            event_author(event),
            event_content(event),
            signer_key,
        ) == handled(connection, msg, public_key_of(sender_keys), signer_key),
{
    lemma_encrypted_envelope_is_handled(
        connection,
        event_author(event),
        event_content(event),
        msg,
        signer_key,
    );
}

} // verus!
