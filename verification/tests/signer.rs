use keystr::connection::Outgoing;
use keystr::error::Error;
use keystr::listen::{handle_event, handle_request, Notification, Reaction, SubscriptionFilter, NOSTR_CONNECT_KIND};
use keystr::connection::SignerConnection;
use keystr::nip46::{build_event, Message};
use keystr::relays::{classify, ConnectionStatus, RelayStatus};
use keystr::signer::Signer;
use keystr::status_messages::{StatusLine, StatusMessages};
use nostr::nips::nip04;
use nostr::nips::nip19::ToBech32;
use nostr::secp256k1::schnorr::Signature;
use nostr::secp256k1::{Message as SigningMessage, SecretKey, XOnlyPublicKey};
use nostr::{EventBuilder, Keys};
use serde_json::Value;
use std::str::FromStr;

const URI: &str = "nostrconnect://b889ff5b1513b641e2a139f661a661364979c5beee91842f8f0ef42ab558e9d4?relay=wss%3A%2F%2Frelay.damus.io%2F&metadata=%7B%22name%22%3A%22Example%22%7D";
const OTHER_URI: &str = "nostrconnect://79be667ef9dcbbac55a06295ce870b07029bfcdb2dce28d959f2815b16f81798?relay=wss%3A%2F%2Fnos.lol%2F&metadata=%7B%22name%22%3A%22Other%22%7D";

fn keys_from(first: &str) -> Keys {
    let hex = format!("{}b911fd37cdf5c81d4c0adb1ab7fa822ed253ab0ad9aa18d77257c88b29b718e", first);
    Keys::new(SecretKey::from_str(&hex).unwrap())
}

fn session_keys() -> Keys {
    keys_from("6")
}

fn remote_client() -> Keys {
    keys_from("7")
}

fn custody_keys() -> Keys {
    keys_from("5")
}

fn uri_client_key() -> XOnlyPublicKey {
    XOnlyPublicKey::from_str("b889ff5b1513b641e2a139f661a661364979c5beee91842f8f0ef42ab558e9d4")
        .unwrap()
}

fn wire_request(id: &str, method: &str, params: Vec<Value>) -> Message {
    Message::Request { id: id.to_string(), method: method.to_string(), params }
}

fn wire_sign_event(id: &str, content: &str) -> Message {
    let unsigned =
        EventBuilder::new_text_note(content, &[]).to_unsigned_event(remote_client().public_key());
    wire_request(id, "sign_event", vec![serde_json::to_value(&unsigned).unwrap()])
}

fn encrypted_for_session(msg: &Message) -> String {
    nip04::encrypt(
        &remote_client().secret_key().unwrap(),
        &session_keys().public_key(),
        msg.as_json(),
    )
    .unwrap()
}

fn custody_sign(bytes: Vec<u8>) -> Result<Signature, Error> {
    let message =
        SigningMessage::from_slice(&bytes).map_err(|e| Error::KeyErrorSecp256k1(e.to_string()))?;
    custody_keys().sign_schnorr(&message).map_err(|e| Error::KeyError(e.to_string()))
}

fn info(text: &str) -> StatusLine {
    StatusLine { text: text.to_string(), is_error: false }
}

fn failure(text: &str) -> StatusLine {
    StatusLine { text: text.to_string(), is_error: true }
}

fn capability_json() -> Value {
    Value::Array(vec![
        Value::String("describe".to_string()),
        Value::String("get_public_key".to_string()),
        Value::String("sign_event".to_string()),
    ])
}

#[test]
fn new_signer_has_no_session() {
    let signer = Signer::new(&session_keys());
    assert!(signer.connection().is_none());
    assert_eq!(signer.connect_uri_input, "");
    assert_eq!(signer.get_connection_status(&Ok((3, 3))), ConnectionStatus::NotConnected);
}

#[test]
fn connect_opens_a_session_from_the_uri() {
    let mut signer = Signer::new(&session_keys());
    assert_eq!(signer.connect(URI), Ok(()));
    let connection = signer.connection().unwrap();
    assert_eq!(connection.client_pubkey, uri_client_key());
    assert_eq!(connection.relay_str, "wss://relay.damus.io/");
    assert_eq!(connection.app_id_keys, session_keys());
    assert_eq!(connection.get_pending_count(), 0);
}

#[test]
fn second_connect_fails_and_keeps_the_session() {
    let mut signer = Signer::new(&session_keys());
    assert_eq!(signer.connect(URI), Ok(()));
    signer.handle_event(
        NOSTR_CONNECT_KIND,
        remote_client().public_key(),
        &encrypted_for_session(&wire_sign_event("1", "keep me")),
        &custody_keys().public_key(),
    );
    assert_eq!(signer.connect(OTHER_URI), Err(Error::SignerAlreadyConnected));
    assert_eq!(signer.connect(URI), Err(Error::SignerAlreadyConnected));
    assert_eq!(signer.connect("garbage"), Err(Error::SignerAlreadyConnected));
    let connection = signer.connection().unwrap();
    assert_eq!(connection.client_pubkey, uri_client_key());
    assert_eq!(connection.relay_str, "wss://relay.damus.io/");
    assert_eq!(connection.app_id_keys, session_keys());
    assert_eq!(connection.get_pending_count(), 1);
}

#[test]
fn malformed_uri_fails_and_stays_not_connected() {
    let mut signer = Signer::new(&session_keys());
    assert_eq!(
        signer.connect("not a uri"),
        Err(Error::Nip46Error("relative URL without a base".to_string()))
    );
    assert!(signer.connection().is_none());
    assert_eq!(signer.get_connection_status(&Ok((1, 0))), ConnectionStatus::NotConnected);
    assert!(matches!(signer.connect("nostrconnect://"), Err(Error::Nip46Error(_))));
    assert!(matches!(signer.connect(""), Err(Error::Nip46Error(_))));
    assert!(signer.connection().is_none());
    assert_eq!(signer.get_connection_status(&Ok((0, 1))), ConnectionStatus::NotConnected);
}

#[test]
fn connect_after_disconnect_succeeds() {
    let mut signer = Signer::new(&session_keys());
    assert_eq!(signer.connect(URI), Ok(()));
    signer.disconnect();
    assert!(signer.connection().is_none());
    assert_eq!(signer.connect(OTHER_URI), Ok(()));
    assert_eq!(signer.connection().unwrap().relay_str, "wss://nos.lol/");
    signer.disconnect();
    signer.disconnect();
    assert!(signer.connection().is_none());
}

#[test]
fn status_follows_the_relay_counts() {
    let mut signer = Signer::new(&session_keys());
    signer.connect(URI).unwrap();
    assert_eq!(signer.get_connection_status(&Ok((1, 0))), ConnectionStatus::Connected);
    assert_eq!(signer.get_connection_status(&Ok((2, 5))), ConnectionStatus::Connected);
    assert_eq!(signer.get_connection_status(&Ok((0, 1))), ConnectionStatus::Connecting);
    assert_eq!(signer.get_connection_status(&Ok((0, 0))), ConnectionStatus::NotConnected);
    assert_eq!(
        signer.get_connection_status(&Err(Error::InternalEventQueueReceive)),
        ConnectionStatus::NotConnected
    );
}

#[test]
fn classify_counts() {
    assert_eq!(classify(&Ok((1, 1))), ConnectionStatus::Connected);
    assert_eq!(classify(&Ok((0, 7))), ConnectionStatus::Connecting);
    assert_eq!(classify(&Ok((0, 0))), ConnectionStatus::NotConnected);
    assert_eq!(classify(&Err(Error::KeyNotSet)), ConnectionStatus::NotConnected);
}

#[test]
fn relay_statuses_are_counted() {
    let statuses = vec![
        RelayStatus::Connected,
        RelayStatus::Connecting,
        RelayStatus::Disconnected,
        RelayStatus::Connected,
        RelayStatus::Initialized,
        RelayStatus::Terminated,
        RelayStatus::Connecting,
        RelayStatus::Connecting,
    ];
    assert_eq!(SignerConnection::get_connected_count_bg(&statuses), (2, 3));
    assert_eq!(SignerConnection::get_connected_count_bg(&vec![]), (0, 0));
    assert_eq!(SignerConnection::get_connected_count_bg(&vec![RelayStatus::Terminated]), (0, 0));
}

#[test]
fn connected_count_hand_over() {
    assert_eq!(SignerConnection::get_connected_count(Some((2, 3))), Ok((2, 3)));
    assert_eq!(
        SignerConnection::get_connected_count(None),
        Err(Error::InternalEventQueueReceive)
    );
}

#[test]
fn status_sink_keeps_the_lines_in_order() {
    let mut status = StatusMessages::new();
    assert_eq!(status.count(), 0);
    assert_eq!(status.last(), None);
    status.set("one");
    status.set_error("two");
    assert_eq!(status.count(), 2);
    assert_eq!(status.last(), Some(&failure("two")));
    status.set("three");
    assert_eq!(status.last(), Some(&info("three")));
    assert_eq!(status.count(), 3);
}

#[test]
fn connect_action_reports_to_the_status_sink() {
    let mut signer = Signer::new(&session_keys());
    let mut status = StatusMessages::new();

    signer.connect_uri_input = "bad".to_string();
    signer.connect_action(&mut status);
    assert!(signer.connection().is_none());
    assert_eq!(
        status.last(),
        Some(&failure("Could not connect to relay: relative URL without a base"))
    );

    signer.connect_uri_input = URI.to_string();
    signer.connect_action(&mut status);
    assert!(signer.connection().is_some());
    assert_eq!(status.last(), Some(&info("Signer connecting...")));

    signer.connect_action(&mut status);
    assert_eq!(
        status.last(),
        Some(&failure(
            "Could not connect to relay: Signer is already connected, disconnect first"
        ))
    );
    assert_eq!(status.count(), 3);
    assert_eq!(signer.connect_uri_input, URI);
}

#[test]
fn disconnect_action_reports_only_with_a_session() {
    let mut signer = Signer::new(&session_keys());
    let mut status = StatusMessages::new();
    signer.disconnect_action(&mut status);
    assert_eq!(status.count(), 0);
    signer.connect(URI).unwrap();
    signer.disconnect_action(&mut status);
    assert!(signer.connection().is_none());
    assert_eq!(status.last(), Some(&info("Signer disconnected")));
    assert_eq!(status.count(), 1);
}

#[test]
fn describe_event_is_answered_without_queuing() {
    let mut signer = Signer::new(&session_keys());
    signer.connect(URI).unwrap();
    let body = encrypted_for_session(&wire_request("d-1", "describe", vec![]));
    let sender = remote_client().public_key();
    let reaction =
        signer.handle_event(NOSTR_CONNECT_KIND, sender, &body, &custody_keys().public_key());
    let expected = Message::Response {
        id: "d-1".to_string(),
        result: Some(capability_json()),
        error: None,
    };
    assert_eq!(reaction, Reaction::Reply(Outgoing { message: expected, receiver: sender }));
    assert_eq!(signer.connection().unwrap().get_pending_count(), 0);
}

#[test]
fn get_public_key_event_is_answered_with_the_custody_key() {
    let mut signer = Signer::new(&session_keys());
    signer.connect(URI).unwrap();
    let body = encrypted_for_session(&wire_request("k-1", "get_public_key", vec![]));
    let sender = remote_client().public_key();
    let custody = custody_keys().public_key();
    let reaction = signer.handle_event(NOSTR_CONNECT_KIND, sender, &body, &custody);
    let expected = Message::Response {
        id: "k-1".to_string(),
        result: Some(Value::String(custody.to_string())),
        error: None,
    };
    assert_eq!(reaction, Reaction::Reply(Outgoing { message: expected, receiver: sender }));
    assert_eq!(signer.connection().unwrap().get_pending_count(), 0);
}

#[test]
fn sign_event_is_queued_processed_once_and_removed() {
    let mut signer = Signer::new(&session_keys());
    let mut status = StatusMessages::new();
    signer.connect(URI).unwrap();
    let request = wire_sign_event("s-1", "hello");
    let body = encrypted_for_session(&request);
    let sender = remote_client().public_key();
    let reaction =
        signer.handle_event(NOSTR_CONNECT_KIND, sender, &body, &custody_keys().public_key());
    assert_eq!(
        reaction,
        Reaction::Notify {
            event: Notification::SignerNewRequest,
            status: "New Signing request received".to_string()
        }
    );
    assert_eq!(signer.connection().unwrap().get_pending_count(), 1);
    assert_eq!(
        signer.connection().unwrap().get_first_request_description(),
        "Signature requested for message: 'hello'"
    );

    let mut calls = 0;
    let sent = signer.pending_process_first_action(
        |bytes| {
            calls += 1;
            custody_sign(bytes)
        },
        &mut status,
    );
    assert_eq!(calls, 1);
    let outgoing = sent.unwrap();
    assert_eq!(outgoing.receiver, sender);
    assert!(matches!(outgoing.message, Message::Response { ref id, error: None, .. } if id == "s-1"));
    assert_eq!(signer.connection().unwrap().get_pending_count(), 0);
    assert_eq!(
        status.last(),
        Some(&info("Processed request 'Signature requested for message: 'hello''"))
    );

    let mut calls = 0;
    let sent = signer.pending_process_first_action(
        |bytes| {
            calls += 1;
            custody_sign(bytes)
        },
        &mut status,
    );
    assert_eq!(calls, 0);
    assert_eq!(sent, None);
    assert_eq!(signer.connection().unwrap().get_pending_count(), 0);
    assert_eq!(status.last(), Some(&info("Processed request '-'")));
}

#[test]
fn unrecognized_method_leaves_no_trace() {
    let mut signer = Signer::new(&session_keys());
    signer.connect(URI).unwrap();
    let body = encrypted_for_session(&wire_request("u-1", "get_relays", vec![]));
    let reaction = signer.handle_event(
        NOSTR_CONNECT_KIND,
        remote_client().public_key(),
        &body,
        &custody_keys().public_key(),
    );
    assert_eq!(reaction, Reaction::Nothing);
    assert_eq!(signer.connection().unwrap().get_pending_count(), 0);
}

#[test]
fn undecryptable_event_is_dropped_and_the_next_is_handled() {
    let mut signer = Signer::new(&session_keys());
    signer.connect(URI).unwrap();
    let sender = remote_client().public_key();
    let custody = custody_keys().public_key();
    assert_eq!(
        signer.handle_event(NOSTR_CONNECT_KIND, sender, "rubbish", &custody),
        Reaction::Nothing
    );
    assert_eq!(signer.handle_event(NOSTR_CONNECT_KIND, sender, "", &custody), Reaction::Nothing);
    let unreadable = nip04::encrypt(
        &remote_client().secret_key().unwrap(),
        &session_keys().public_key(),
        "{ this is no envelope",
    )
    .unwrap();
    assert_eq!(
        signer.handle_event(NOSTR_CONNECT_KIND, sender, &unreadable, &custody),
        Reaction::Nothing
    );
    assert_eq!(signer.connection().unwrap().get_pending_count(), 0);

    let body = encrypted_for_session(&wire_sign_event("after", "still alive"));
    let reaction = signer.handle_event(NOSTR_CONNECT_KIND, sender, &body, &custody);
    assert!(matches!(reaction, Reaction::Notify { event: Notification::SignerNewRequest, .. }));
    assert_eq!(signer.connection().unwrap().get_pending_count(), 1);
}

#[test]
fn events_of_another_kind_are_not_read() {
    let mut signer = Signer::new(&session_keys());
    signer.connect(URI).unwrap();
    let body = encrypted_for_session(&wire_sign_event("1", "hello"));
    let sender = remote_client().public_key();
    let custody = custody_keys().public_key();
    assert_eq!(signer.handle_event(1, sender, &body, &custody), Reaction::Nothing);
    assert_eq!(signer.handle_event(4, sender, &body, &custody), Reaction::Nothing);
    assert_eq!(signer.handle_event(24134, sender, &body, &custody), Reaction::Nothing);
    assert_eq!(signer.connection().unwrap().get_pending_count(), 0);
    assert_eq!(NOSTR_CONNECT_KIND, 24133);
}

#[test]
fn events_without_a_session_are_dropped() {
    let mut signer = Signer::new(&session_keys());
    let body = encrypted_for_session(&wire_sign_event("1", "hello"));
    let reaction = signer.handle_event(
        NOSTR_CONNECT_KIND,
        remote_client().public_key(),
        &body,
        &custody_keys().public_key(),
    );
    assert_eq!(reaction, Reaction::Nothing);
    assert!(signer.connection().is_none());
}

#[test]
fn only_sign_event_requests_reach_the_queue() {
    let mut connection = SignerConnection::new(
        remote_client().public_key(),
        session_keys(),
        "wss://relay.example/".to_string(),
    );
    let sender = remote_client().public_key();
    let custody = custody_keys().public_key();
    let arrivals = vec![
        wire_request("1", "describe", vec![]),
        wire_sign_event("2", "two"),
        wire_request("3", "get_public_key", vec![]),
        wire_request("4", "mystery", vec![]),
        wire_sign_event("5", "five"),
        wire_request("6", "describe", vec![]),
        Message::Response { id: "7".to_string(), result: None, error: None },
    ];
    let mut replies = 0;
    for msg in arrivals {
        match handle_request(&mut connection, msg, sender, &custody) {
            Reaction::Reply(_) => replies += 1,
            _ => {}
        }
    }
    assert_eq!(replies, 3);
    assert_eq!(connection.get_pending_count(), 2);
    assert_eq!(
        connection.get_first_request_description(),
        "Signature requested for message: 'two'"
    );
    connection.action_first_req_remove();
    assert_eq!(
        connection.get_first_request_description(),
        "Signature requested for message: 'five'"
    );
}

#[test]
fn handle_event_on_a_connection() {
    let mut connection = SignerConnection::new(
        remote_client().public_key(),
        session_keys(),
        "wss://relay.example/".to_string(),
    );
    let sender = remote_client().public_key();
    let custody = custody_keys().public_key();
    let body = encrypted_for_session(&wire_sign_event("1", "hello"));
    let reaction = handle_event(&mut connection, NOSTR_CONNECT_KIND, sender, &body, &custody);
    assert!(matches!(reaction, Reaction::Notify { .. }));
    assert_eq!(connection.get_pending_count(), 1);
    assert_eq!(handle_event(&mut connection, 1, sender, &body, &custody), Reaction::Nothing);
    assert_eq!(connection.get_pending_count(), 1);
}

#[test]
fn ignore_action_removes_and_reports() {
    let mut signer = Signer::new(&session_keys());
    let mut status = StatusMessages::new();
    signer.pending_ignore_first_action(&mut status);
    assert_eq!(status.count(), 0);

    signer.connect(URI).unwrap();
    let sender = remote_client().public_key();
    let custody = custody_keys().public_key();
    signer.handle_event(
        NOSTR_CONNECT_KIND,
        sender,
        &encrypted_for_session(&wire_sign_event("1", "first")),
        &custody,
    );
    signer.handle_event(
        NOSTR_CONNECT_KIND,
        sender,
        &encrypted_for_session(&wire_sign_event("2", "second")),
        &custody,
    );
    signer.pending_ignore_first_action(&mut status);
    assert_eq!(
        status.last(),
        Some(&info("Removed request 'Signature requested for message: 'first''"))
    );
    assert_eq!(signer.connection().unwrap().get_pending_count(), 1);
    signer.pending_ignore_first_action(&mut status);
    assert_eq!(
        status.last(),
        Some(&info("Removed request 'Signature requested for message: 'second''"))
    );
    signer.pending_ignore_first_action(&mut status);
    assert_eq!(status.last(), Some(&info("Removed request '-'")));
    assert_eq!(signer.connection().unwrap().get_pending_count(), 0);
    assert_eq!(status.count(), 3);
}

#[test]
fn process_action_without_a_session_does_nothing() {
    let mut signer = Signer::new(&session_keys());
    let mut status = StatusMessages::new();
    let mut calls = 0;
    let sent = signer.pending_process_first_action(
        |bytes| {
            calls += 1;
            custody_sign(bytes)
        },
        &mut status,
    );
    assert_eq!(sent, None);
    assert_eq!(calls, 0);
    assert_eq!(status.count(), 0);
}

#[test]
fn subscription_filter_looks_back_ten_seconds() {
    let connection = SignerConnection::new(
        remote_client().public_key(),
        session_keys(),
        "wss://relay.example/".to_string(),
    );
    assert_eq!(
        connection.subscription_filter(1_700_000_000),
        SubscriptionFilter {
            pubkey: session_keys().public_key(),
            kind: 24133,
            since: 1_699_999_990
        }
    );
    assert_eq!(connection.subscription_filter(10).since, 0);
    assert_eq!(connection.subscription_filter(3).since, -7);
    assert_eq!(connection.subscription_filter(i64::MIN + 10).since, i64::MIN);
    assert_eq!(connection.subscription_filter(i64::MIN + 9).since, i64::MIN);
    assert_eq!(connection.subscription_filter(i64::MIN).since, i64::MIN);
    assert_eq!(connection.subscription_filter(i64::MAX).since, i64::MAX - 10);
}

#[test]
fn connect_ack_presents_the_session_key_to_the_client() {
    let connection = SignerConnection::new(
        remote_client().public_key(),
        session_keys(),
        "wss://relay.example/".to_string(),
    );
    let ack = connection.connect_ack();
    assert_eq!(ack.receiver, remote_client().public_key());
    match ack.message {
        Message::Request { method, params, .. } => {
            assert_eq!(method, "connect");
            assert_eq!(params, vec![Value::String(session_keys().public_key().to_string())]);
        }
        Message::Response { .. } => panic!("a request was expected"),
    }
}

#[test]
fn connected_notice_names_relay_and_client() {
    let connection = SignerConnection::new(
        remote_client().public_key(),
        session_keys(),
        "wss://relay.example/".to_string(),
    );
    let npub = remote_client().public_key().to_bech32().unwrap();
    assert_eq!(
        connection.connected_notice(),
        Reaction::Notify {
            event: Notification::SignerConnected,
            status: format!("Signer connected (relay: wss://relay.example/, client npub: {})", npub)
        }
    );
}

#[test]
fn event_with_a_vector_of_another_length_is_dropped_and_the_session_stays() {
    let mut signer = Signer::new(&session_keys());
    signer.connect(URI).unwrap();
    let sender = remote_client().public_key();
    let custody = custody_keys().public_key();
    let first = encrypted_for_session(&wire_sign_event("kept", "kept"));
    signer.handle_event(NOSTR_CONNECT_KIND, sender, &first, &custody);
    assert_eq!(signer.connection().unwrap().get_pending_count(), 1);

    for body in ["AAAA?iv=AAAA", "AAAA?iv=", "AAAA?iv=AAAAAAAAAAAAAAAAAAAA", "?iv=AA=="] {
        assert_eq!(
            signer.handle_event(NOSTR_CONNECT_KIND, sender, body, &custody),
            Reaction::Nothing
        );
    }
    let connection = signer.connection().unwrap();
    assert_eq!(connection.get_pending_count(), 1);
    assert_eq!(connection.client_pubkey, uri_client_key());
    assert_eq!(
        connection.get_first_request_description(),
        "Signature requested for message: 'kept'"
    );

    let next = encrypted_for_session(&wire_request("d", "describe", vec![]));
    assert!(matches!(
        signer.handle_event(NOSTR_CONNECT_KIND, sender, &next, &custody),
        Reaction::Reply(_)
    ));
}

#[test]
fn approve_action_takes_the_job_and_reports() {
    let mut signer = Signer::new(&session_keys());
    let mut status = StatusMessages::new();
    assert_eq!(signer.pending_approve_first_action(&mut status), None);
    assert_eq!(status.count(), 0);

    signer.connect(URI).unwrap();
    let sender = remote_client().public_key();
    let custody = custody_keys().public_key();
    signer.handle_event(
        NOSTR_CONNECT_KIND,
        sender,
        &encrypted_for_session(&wire_sign_event("a-1", "approve me")),
        &custody,
    );
    let job = signer.pending_approve_first_action(&mut status).unwrap();
    assert_eq!(job.req_id, "a-1");
    assert_eq!(job.sender_pubkey, sender);
    assert_eq!(job.event_id.len(), 32);
    assert_eq!(
        status.last(),
        Some(&info("Processed request 'Signature requested for message: 'approve me''"))
    );
    assert_eq!(signer.connection().unwrap().get_pending_count(), 0);

    let outgoing = job.clone().reply(custody_sign(job.event_id.clone())).unwrap();
    assert_eq!(outgoing.receiver, sender);
    assert!(matches!(outgoing.message, Message::Response { ref id, error: None, .. } if id == "a-1"));

    assert_eq!(signer.pending_approve_first_action(&mut status), None);
    assert_eq!(status.last(), Some(&info("Processed request '-'")));
}

#[test]
fn built_event_is_handled_as_the_envelope_that_was_sent() {
    let mut signer = Signer::new(&session_keys());
    signer.connect(URI).unwrap();
    let client = remote_client();
    let custody = custody_keys().public_key();

    let describe = wire_request("bd-1", "describe", vec![]);
    let event = build_event(&client, &session_keys().public_key(), &describe).unwrap();
    let expected = Message::Response {
        id: "bd-1".to_string(),
        result: Some(capability_json()),
        error: None,
    };
    assert_eq!(
        signer.handle_delivered(&event, &custody),
        Reaction::Reply(Outgoing { message: expected, receiver: client.public_key() })
    );

    let sign = wire_sign_event("bs-1", "delivered");
    let event = build_event(&client, &session_keys().public_key(), &sign).unwrap();
    assert!(matches!(signer.handle_delivered(&event, &custody), Reaction::Notify { .. }));
    let connection = signer.connection().unwrap();
    assert_eq!(connection.get_pending_count(), 1);
    assert_eq!(
        connection.get_first_request_description(),
        "Signature requested for message: 'delivered'"
    );

    // The answer of the signer reaches the client the same way.
    let mut status = StatusMessages::new();
    let job = signer.pending_approve_first_action(&mut status).unwrap();
    let outgoing = job.clone().reply(custody_sign(job.event_id.clone())).unwrap();
    let answer = build_event(&session_keys(), &outgoing.receiver, &outgoing.message).unwrap();
    assert_eq!(answer.pubkey, session_keys().public_key());
    assert_eq!(
        keystr::nip46::decode(&client, &answer.pubkey, &answer.content),
        Ok(outgoing.message)
    );
}

#[test]
fn delivered_event_that_is_not_for_the_session_is_dropped() {
    let mut signer = Signer::new(&session_keys());
    let custody = custody_keys().public_key();
    let client = remote_client();
    let msg = wire_sign_event("x", "x");

    // Without a session.
    let event = build_event(&client, &session_keys().public_key(), &msg).unwrap();
    assert_eq!(signer.handle_delivered(&event, &custody), Reaction::Nothing);

    signer.connect(URI).unwrap();
    // Encrypted to someone else.
    let event = build_event(&client, &custody, &msg).unwrap();
    assert_eq!(signer.handle_delivered(&event, &custody), Reaction::Nothing);
    // Of another kind.
    let note = EventBuilder::new_text_note("hello", &[]).to_event(&client).unwrap();
    assert_eq!(signer.handle_delivered(&note, &custody), Reaction::Nothing);
    assert_eq!(signer.connection().unwrap().get_pending_count(), 0);

    // And on a connection alone.
    let mut connection = SignerConnection::new(
        client.public_key(),
        session_keys(),
        "wss://relay.example/".to_string(),
    );
    let event = build_event(&client, &session_keys().public_key(), &msg).unwrap();
    assert!(matches!(
        keystr::listen::handle_delivered(&mut connection, &event, &custody),
        Reaction::Notify { .. }
    ));
    assert_eq!(connection.get_pending_count(), 1);
}
