//! The connection manager: at most one live session, opened from a
//! connection URI and closed on request, and the operator's actions on it.
//!
//! The manager decides; it opens no socket. After a successful `connect` the
//! caller starts the transport for the new session, and before `disconnect`
//! it tears the transport down.

use crate::connection::{
    first_description, first_job, job_view, outgoing_view, processing_gives, without_first,
    Outgoing, SignerConnection, SignerConnectionView, SigningJob,
};
use crate::error::{error_text, Error};
use crate::listen::{handle_event, received, received_fits, Reaction, ReactionView};
use crate::nip46::{
    connect_uri_target, event_author, event_content, event_kind, read_event_author,
    read_event_content, read_event_kind, ConnectionDescriptor,
};
use crate::relays::{classify, counts_of, status_from, ConnectionStatus};
use crate::status_messages::{with_error, with_status, StatusLineView, StatusMessages};
use nostr::secp256k1::schnorr::Signature;
use nostr::secp256k1::XOnlyPublicKey;
use nostr::{Event, Keys};
use vstd::prelude::*;

verus! {

/// The connection manager.
#[derive(Clone, Debug)]
pub struct Signer {
    pub(crate) app_id_keys: Keys,
    pub(crate) connection: Option<SignerConnection>,
    /// The connection URI as the operator typed it.
    pub connect_uri_input: String,
}

pub struct SignerView {
    /// The key pair that sessions use towards the relay.
    pub app_id_keys: Keys,
    /// The live session, if there is one.
    pub connection: Option<SignerConnectionView>,
    pub connect_uri_input: Seq<char>,
}

impl View for Signer {
    type V = SignerView;

    open(crate) spec fn view(&self) -> SignerView {
        SignerView {
            app_id_keys: self.app_id_keys,
            connection: match self.connection {
                Some(connection) => Some(connection@),
                None => None,
            },
            connect_uri_input: self.connect_uri_input@,
        }
    }
}

/// How an attempt to connect ends.
pub enum ConnectOutcome {
    /// A new session was opened.
    Connected,
    /// There is a live session already; it stays.
    AlreadyConnected,
    /// The URI could not be read; the text says why.
    BadUri(Seq<char>),
}

/// How connecting with `uri` ends for a manager in this state.
pub open spec fn connect_outcome(signer: SignerView, uri: Seq<char>) -> ConnectOutcome {
    if signer.connection is Some {
        ConnectOutcome::AlreadyConnected
    } else {
        match connect_uri_target(uri) {
            Ok(_) => ConnectOutcome::Connected,
            Err(text) => ConnectOutcome::BadUri(text),
        }
    }
}

/// The manager after an attempt to connect with `uri`: a new session with the
/// client and the relay that the URI names, the manager's key pair and an
/// empty queue where the attempt succeeds, and no change where it fails.
pub open spec fn after_connect(signer: SignerView, uri: Seq<char>) -> SignerView {
    if signer.connection is Some {
        signer
    } else {
        match connect_uri_target(uri) {
            Ok((client_pubkey, relay_str)) => SignerView {
                connection: Some(
                    SignerConnectionView {
                        client_pubkey,
                        app_id_keys: signer.app_id_keys,
                        relay_str,
                        requests: Seq::empty(),
                    },
                ),
                ..signer
            },
            Err(_) => signer,
        }
    }
}

/// The manager without its session.
pub open spec fn after_disconnect(signer: SignerView) -> SignerView {
    SignerView { connection: None, ..signer }
}

/// The status of the manager's session, given what a query of the relays
/// gave: without a session it is not connected, whatever the relays say.
pub open spec fn status_of(signer: SignerView, counts: Option<(u32, u32)>) -> ConnectionStatus {
    if signer.connection is None {
        ConnectionStatus::NotConnected
    } else {
        status_from(counts)
    }
}

/// The status line that reports how an attempt to connect ended.
pub open spec fn connect_report(outcome: ConnectOutcome) -> (Seq<char>, bool) {
    match outcome {
        ConnectOutcome::Connected => ("Signer connecting..."@, false),
        ConnectOutcome::AlreadyConnected => (
            "Could not connect to relay: "@ + error_text(Error::SignerAlreadyConnected),
            true,
        ),
        ConnectOutcome::BadUri(text) => ("Could not connect to relay: "@ + text, true),
    }
}

/// The status lines after `report` was added.
pub open spec fn reported(lines: Seq<StatusLineView>, report: (Seq<char>, bool)) -> Seq<
    StatusLineView,
> {
    if report.1 {
        with_error(lines, report.0)
    } else {
        with_status(lines, report.0)
    }
}

impl Signer {
    /// A manager without a session. `app_id` is the key pair that its
    /// sessions use towards the relay.
    pub fn new(app_id: &Keys) -> (res: Self)
        ensures
            res@ == (SignerView {
                app_id_keys: *app_id,
                connection: None,
                connect_uri_input: Seq::empty(),
            }),
    {
        Signer { app_id_keys: app_id.clone(), connection: None, connect_uri_input: String::new() }
    }

    /// The live session, if there is one.
    pub fn connection(&self) -> (res: Option<&SignerConnection>)
        ensures
            match res {
                Some(connection) => self@.connection == Some(connection@),
                None => self@.connection is None,
            },
    {
        self.connection.as_ref()
    }

    /// Opens a session from a connection URI. While a session is live this
    /// fails and leaves the session alone; a URI that cannot be read fails
    /// and changes nothing.
    pub fn connect(&mut self, uri_str: &str) -> (res: Result<(), Error>)
        ensures
            final(self)@ == after_connect(old(self)@, uri_str@),
            match connect_outcome(old(self)@, uri_str@) {
                ConnectOutcome::Connected => res is Ok,
                ConnectOutcome::AlreadyConnected => res == Err::<(), _>(
                    Error::SignerAlreadyConnected,
                ),
                ConnectOutcome::BadUri(text) => res matches Err(e) && e is Nip46Error
                    && error_text(e) == text,
            },
    {
        if self.connection.is_some() {
            return Err(Error::SignerAlreadyConnected);
        }
        match ConnectionDescriptor::parse(uri_str) {
            Err(e) => Err(e),
            Ok(target) => {
                let ConnectionDescriptor { public_key, relay_url } = target;
                self.connection = Some(
                    SignerConnection::new(public_key, self.app_id_keys.clone(), relay_url),
                );
                Ok(())
            },
        }
    }

    /// Closes the session, if there is one.
    pub fn disconnect(&mut self)
        ensures
            final(self)@ == after_disconnect(old(self)@),
    {
        self.connection = None;
    }

    /// The operator connects with the URI that was typed in. The status sink
    /// gets the outcome.
    pub fn connect_action(&mut self, status: &mut StatusMessages)
        ensures
            final(self)@ == after_connect(old(self)@, old(self)@.connect_uri_input),
            final(status)@ == reported(
                old(status)@,
                connect_report(connect_outcome(old(self)@, old(self)@.connect_uri_input)),
            ),
    {
        let uri_input = self.connect_uri_input.clone();
        match self.connect(uri_input.as_str()) {
            Err(e) => {
                let mut line = "Could not connect to relay: ".to_owned();
                line.append(e.message().as_str());
                status.set_error(line.as_str());
            },
            Ok(_) => {
                status.set("Signer connecting...");
            },
        }
    }

    /// The operator disconnects. With a session, the status sink is told;
    /// without one, nothing happens.
    pub fn disconnect_action(&mut self, status: &mut StatusMessages)
        ensures
            final(self)@ == after_disconnect(old(self)@),
            final(status)@ == if old(self)@.connection is Some {
                with_status(old(status)@, "Signer disconnected"@)
            } else {
                old(status)@
            },
    {
        if self.connection.is_some() {
            self.disconnect();
            status.set("Signer disconnected");
        }
        self.connection = None;
    }

    /// The status of the session, given what the query of its relays gave.
    pub fn get_connection_status(&self, relay_counts: &Result<(u32, u32), Error>) -> (res:
        ConnectionStatus)
        ensures
            res == status_of(self@, counts_of(*relay_counts)),
    {
        match &self.connection {
            None => ConnectionStatus::NotConnected,
            Some(_) => classify(relay_counts),
        }
    }

    /// Hands an event that the relay delivered to the session. Without a
    /// session the event is dropped.
    pub fn handle_event(
        &mut self,
        kind: u64,
        sender_pubkey: XOnlyPublicKey,
        content: &str,
        signer_public_key: &XOnlyPublicKey,
    ) -> (res: Reaction)
        ensures
            match old(self)@.connection {
                None => final(self)@ == old(self)@ && res@ == ReactionView::Nothing,
                Some(connection) => {
                    let next = received(
                        connection,
                        kind,
                        sender_pubkey,
                        content@,
                        *signer_public_key,
                    );
                    final(self)@ == (SignerView { connection: Some(next.0), ..old(self)@ })
                        && res@ == next.1 && received_fits(
                        connection,
                        kind,
                        sender_pubkey,
                        content@,
                    )
                },
            },
    {
        match self.connection.take() {
            None => Reaction::Nothing,
            Some(mut connection) => {
                let reaction = handle_event(
                    &mut connection,
                    kind,
                    sender_pubkey,
                    content,
                    signer_public_key,
                );
                self.connection = Some(connection);
                reaction
            },
        }
    }

    /// Hands an event to the session as the relay delivered it: its kind, its
    /// author and its body are read from it. Without a session the event is
    /// dropped.
    pub fn handle_delivered(&mut self, event: &Event, signer_public_key: &XOnlyPublicKey) -> (res:
        Reaction)
        ensures
            match old(self)@.connection {
                None => final(self)@ == old(self)@ && res@ == ReactionView::Nothing,
                Some(connection) => {
                    let next = received(
                        connection,
                        event_kind(*event),
                        event_author(*event),
                        event_content(*event),
                        *signer_public_key,
                    );
                    final(self)@ == (SignerView { connection: Some(next.0), ..old(self)@ })
                        && res@ == next.1 && received_fits(
                        connection,
                        event_kind(*event),
                        event_author(*event),
                        event_content(*event),
                    )
                },
            },
    {
        self.handle_event(
            read_event_kind(event),
            read_event_author(event),
            read_event_content(event).as_str(),
            signer_public_key,
        )
    }

    /// The operator approves the oldest waiting request: it leaves the queue,
    /// and the result is what there is to sign for it, if anything. The
    /// caller has the signing capability sign the job and turns the outcome
    /// into the response with `SigningJob::reply`. The status sink names the
    /// request. Without a session nothing happens.
    pub fn pending_approve_first_action(&mut self, status: &mut StatusMessages) -> (res: Option<
        SigningJob,
    >)
        ensures
            match old(self)@.connection {
                None => final(self)@ == old(self)@ && final(status)@ == old(status)@
                    && res is None,
                Some(connection) => {
                    &&& final(self)@ == (SignerView {
                        connection: Some(
                            SignerConnectionView {
                                requests: without_first(connection.requests),
                                ..connection
                            },
                        ),
                        ..old(self)@
                    })
                    &&& final(status)@ == with_status(
                        old(status)@,
                        "Processed request '"@ + first_description(connection.requests) + "'"@,
                    )
                    &&& job_view(res) == first_job(connection.requests)
                },
            },
    {
        match self.connection.take() {
            None => None,
            Some(mut connection) => {
                let first_desc = connection.get_first_request_description();
                let job = connection.take_first_job();
                self.connection = Some(connection);
                let mut line = "Processed request '".to_owned();
                line.append(first_desc.as_str());
                line.append("'");
                status.set(line.as_str());
                job
            },
        }
    }

    /// The operator approves the oldest waiting request, with the signing
    /// capability at hand: the request leaves the queue, `sign` signs it
    /// where it asks for a signature, and the result is the response to send,
    /// if there is one. The status sink names the request. Without a session
    /// nothing happens.
    pub fn pending_process_first_action<F: FnOnce(Vec<u8>) -> Result<Signature, Error>>(
        &mut self,
        sign: F,
        status: &mut StatusMessages,
    ) -> (res: Option<Outgoing>)
        requires
            forall|bytes: Vec<u8>| sign.requires((bytes,)),
        ensures
            match old(self)@.connection {
                None => final(self)@ == old(self)@ && final(status)@ == old(status)@
                    && res is None,
                Some(connection) => {
                    &&& final(self)@ == (SignerView {
                        connection: Some(
                            SignerConnectionView {
                                requests: without_first(connection.requests),
                                ..connection
                            },
                        ),
                        ..old(self)@
                    })
                    &&& final(status)@ == with_status(
                        old(status)@,
                        "Processed request '"@ + first_description(connection.requests) + "'"@,
                    )
                    &&& processing_gives(connection.requests, sign, outgoing_view(res))
                },
            },
    {
        match self.connection.take() {
            None => None,
            Some(mut connection) => {
                let first_desc = connection.get_first_request_description();
                let outgoing = connection.action_first_req_process(sign);
                self.connection = Some(connection);
                let mut line = "Processed request '".to_owned();
                line.append(first_desc.as_str());
                line.append("'");
                status.set(line.as_str());
                outgoing
            },
        }
    }

    /// The operator rejects the oldest waiting request: it leaves the queue
    /// and nothing is sent. The status sink names the request. Without a
    /// session nothing happens.
    pub fn pending_ignore_first_action(&mut self, status: &mut StatusMessages)
        ensures
            match old(self)@.connection {
                None => final(self)@ == old(self)@ && final(status)@ == old(status)@,
                Some(connection) => {
                    &&& final(self)@ == (SignerView {
                        connection: Some(
                            SignerConnectionView {
                                requests: without_first(connection.requests),
                                ..connection
                            },
                        ),
                        ..old(self)@
                    })
                    &&& final(status)@ == with_status(
                        old(status)@,
                        "Removed request '"@ + first_description(connection.requests) + "'"@,
                    )
                },
            },
    {
        match self.connection.take() {
            None => {},
            Some(mut connection) => {
                let first_desc = connection.get_first_request_description();
                connection.action_first_req_remove();
                self.connection = Some(connection);
                let mut line = "Removed request '".to_owned();
                line.append(first_desc.as_str());
                line.append("'");
                status.set(line.as_str());
            },
        }
    }
}

/// After a successful connect, a second connect fails as already connected,
/// whatever URI it is given, and leaves the session of the first as it is.
pub proof fn lemma_second_connect_fails(signer: SignerView, first: Seq<char>, second: Seq<char>)
    requires
        connect_outcome(signer, first) is Connected,
    ensures
        connect_outcome(after_connect(signer, first), second) is AlreadyConnected,
        after_connect(after_connect(signer, first), second) == after_connect(signer, first),
{
}

/// A manager without a session that is given a URI which cannot be read
/// fails with the reader's error, stays as it was, and is not connected
/// whatever the relays report.
pub proof fn lemma_bad_uri_leaves_not_connected(
    signer: SignerView,
    uri: Seq<char>,
    counts: Option<(u32, u32)>,
)
    requires
        signer.connection is None,
        connect_uri_target(uri) is Err,
    ensures
        connect_outcome(signer, uri) is BadUri,
        after_connect(signer, uri) == signer,
        status_of(after_connect(signer, uri), counts) == ConnectionStatus::NotConnected,
{
}

} // verus!
