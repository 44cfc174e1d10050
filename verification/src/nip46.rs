//! The envelope of the Nostr Connect protocol and its codec.
//!
//! An envelope is a request (id, method, parameters) or a response (id, result
//! or error). The types here mirror the wire form field by field; JSON values
//! stay values of `serde_json` and are carried, never inspected. Reading and
//! writing JSON, and telling which request a method and its parameters make,
//! is the work of the `nostr` crate: those calls stand behind the private
//! functions at the end of this file, whose contracts are believed.

use crate::error::{error_text, Error};
use nostr::nips::nip46::{Message as WireMessage, Request as WireRequest, Response as WireResponse};
use nostr::secp256k1::schnorr::Signature;
use nostr::secp256k1::XOnlyPublicKey;
use nostr::{Event, EventBuilder, Keys};
use serde_json::Value;
use vstd::prelude::*;
use vstd::string::*;
use vstd::utf8::*;

verus! {

/// `serde_json::Value`: a JSON value, carried as it is.
#[verifier::external_type_specification]
#[verifier::external_body]
pub struct ExValue(Value);

/// `nostr::Event`: a signed event, carried as it is.
#[verifier::external_type_specification]
#[verifier::external_body]
pub struct ExEvent(Event);

/// What the signer reads of an event that a client wants signed.
#[derive(Clone, Debug, PartialEq, Eq)]
pub struct UnsignedEvent {
    /// The event id: the bytes that get signed.
    pub id: Vec<u8>,
    /// The event's text, shown to the operator as a preview.
    pub content: String,
}

pub struct UnsignedEventView {
    pub id: Seq<u8>,
    pub content: Seq<char>,
}

impl View for UnsignedEvent {
    type V = UnsignedEventView;

    open spec fn view(&self) -> UnsignedEventView {
        UnsignedEventView { id: self.id@, content: self.content@ }
    }
}

/// A request, told apart by its method.
#[derive(Clone, Debug, PartialEq, Eq)]
pub enum Request {
    Describe,
    GetPublicKey,
    SignEvent(UnsignedEvent),
    Connect,
    Disconnect,
    Delegate,
    Nip04Encrypt,
    Nip04Decrypt,
    SignSchnorr,
}

pub enum RequestView {
    Describe,
    GetPublicKey,
    SignEvent(UnsignedEventView),
    Connect,
    Disconnect,
    Delegate,
    Nip04Encrypt,
    Nip04Decrypt,
    SignSchnorr,
}

impl View for Request {
    type V = RequestView;

    open spec fn view(&self) -> RequestView {
        match self {
            Request::Describe => RequestView::Describe,
            Request::GetPublicKey => RequestView::GetPublicKey,
            Request::SignEvent(event) => RequestView::SignEvent(event@),
            Request::Connect => RequestView::Connect,
            Request::Disconnect => RequestView::Disconnect,
            Request::Delegate => RequestView::Delegate,
            Request::Nip04Encrypt => RequestView::Nip04Encrypt,
            Request::Nip04Decrypt => RequestView::Nip04Decrypt,
            Request::SignSchnorr => RequestView::SignSchnorr,
        }
    }
}

/// The answers that the signer gives.
#[derive(Clone, Debug, PartialEq, Eq)]
pub enum Response {
    /// The list of supported methods.
    Describe(Vec<String>),
    /// The public key of the signing key.
    GetPublicKey(XOnlyPublicKey),
    /// The signature over a requested event.
    SignEvent(Signature),
}

pub enum ResponseView {
    Describe(Seq<Seq<char>>),
    GetPublicKey(XOnlyPublicKey),
    SignEvent(Signature),
}

/// The texts of a list of strings.
pub open spec fn texts(list: Seq<String>) -> Seq<Seq<char>> {
    Seq::new(list.len(), |i: int| list[i]@)
}

impl View for Response {
    type V = ResponseView;

    open spec fn view(&self) -> ResponseView {
        match self {
            Response::Describe(methods) => ResponseView::Describe(texts(methods@)),
            Response::GetPublicKey(key) => ResponseView::GetPublicKey(*key),
            Response::SignEvent(signature) => ResponseView::SignEvent(*signature),
        }
    }
}

/// What a connection URI says: who the client is and where to meet it.
#[derive(Clone, Debug, PartialEq, Eq)]
pub struct ConnectionDescriptor {
    /// The client's public key.
    pub public_key: XOnlyPublicKey,
    /// The address of the relay.
    pub relay_url: String,
}

/// An envelope as it travels: the decrypted body of a protocol event.
#[derive(Clone, Debug, PartialEq)]
pub enum Message {
    Request { id: String, method: String, params: Vec<Value> },
    Response { id: String, result: Option<Value>, error: Option<String> },
}

pub enum MessageView {
    Request { id: Seq<char>, method: Seq<char>, params: Seq<Value> },
    Response { id: Seq<char>, result: Option<Value>, error: Option<Seq<char>> },
}

impl MessageView {
    /// The id of the envelope.
    pub open spec fn id(self) -> Seq<char> {
        match self {
            MessageView::Request { id, .. } => id,
            MessageView::Response { id, .. } => id,
        }
    }

    /// The method of a request; the empty text for a response.
    pub open spec fn method(self) -> Seq<char> {
        match self {
            MessageView::Request { method, .. } => method,
            MessageView::Response { .. } => Seq::empty(),
        }
    }

    /// The parameters of a request; none for a response.
    pub open spec fn params(self) -> Seq<Value> {
        match self {
            MessageView::Request { params, .. } => params,
            MessageView::Response { .. } => Seq::empty(),
        }
    }
}

impl View for Message {
    type V = MessageView;

    open spec fn view(&self) -> MessageView {
        match self {
            Message::Request { id, method, params } => MessageView::Request {
                id: id@,
                method: method@,
                params: params@,
            },
            Message::Response { id, result, error } => MessageView::Response {
                id: id@,
                result: *result,
                error: match error {
                    Some(text) => Some(text@),
                    None => None,
                },
            },
        }
    }
}

/// The request that a method and its parameters make, as the `nostr` crate's
/// `Message::to_request` tells it, or `None` where they make none (an unknown
/// method, parameters that do not fit).
pub uninterp spec fn request_of(method: Seq<char>, params: Seq<Value>) -> Option<RequestView>;

/// The envelope that a JSON text holds, as the `nostr` crate's
/// `Message::from_json` reads it, or `None` where it holds none.
pub uninterp spec fn message_of_json(json: Seq<char>) -> Option<MessageView>;

/// The JSON text of an envelope, as the `nostr` crate's `Message::as_json`
/// writes it.
pub uninterp spec fn json_of_message(message: MessageView) -> Seq<char>;

/// The JSON value that carries a response's payload, as the `nostr` crate's
/// `Message::response` makes it.
pub uninterp spec fn result_of_response(response: ResponseView) -> Value;

/// The plain text of an encrypted event body, for the recipient's key pair and
/// the sender's public key, as the `nostr` crate's `nip04::decrypt` recovers
/// it, or `None` where it cannot be decrypted.
pub uninterp spec fn plaintext_of(keys: Keys, sender: XOnlyPublicKey, content: Seq<char>) -> Option<Seq<char>>;

/// The parameters of the request by which a signer with this public key
/// presents itself to a client, as the `nostr` crate's `Message::request`
/// makes them.
pub uninterp spec fn connect_params(key: XOnlyPublicKey) -> Seq<Value>;

/// The client's public key and the relay's address that a connection URI
/// holds, as the `nostr` crate's `NostrConnectURI` reads them, or, where the
/// text is no such URI, the text of the failure.
pub uninterp spec fn connect_uri_target(uri: Seq<char>) -> Result<(XOnlyPublicKey, Seq<char>), Seq<char>>;

/// The kind of an event, as a number.
pub uninterp spec fn event_kind(event: Event) -> u64;

/// The author of an event: the public key that it is signed for.
pub uninterp spec fn event_author(event: Event) -> XOnlyPublicKey;

/// Whom an event is addressed to: the public key of its one tag, where it has
/// exactly one tag and that names a public key and nothing else.
pub uninterp spec fn event_addressee(event: Event) -> Option<XOnlyPublicKey>;

/// The body of an event.
pub uninterp spec fn event_content(event: Event) -> Seq<char>;

/// Whether `event` carries the envelope `msg` from the holder of `keys` to
/// `receiver`: it is of the protocol's kind, written by the key pair's public
/// key and addressed to the receiver; its body has an initial vector of
/// sixteen bytes; and whoever holds the receiver's secret key decrypts the
/// body, as one from the author, to the JSON text of the envelope.
pub open spec fn carries(event: Event, keys: Keys, receiver: XOnlyPublicKey, msg: MessageView) -> bool {
    &&& event_kind(event) == crate::listen::NOSTR_CONNECT_KIND
    &&& event_author(event) == crate::keys::public_key_of(keys)
    &&& event_addressee(event) == Some(receiver)
    &&& has_sixteen_byte_vector(event_content(event))
    &&& forall|reader: Keys|
        crate::keys::has_secret_key(reader) && crate::keys::public_key_of(reader) == receiver
            ==> #[trigger] plaintext_of(
            reader,
            crate::keys::public_key_of(keys),
            event_content(event),
        ) == Some(json_of_message(msg))
}

/// The view of a request that may be absent.
pub open spec fn request_view(request: Option<Request>) -> Option<RequestView> {
    match request {
        Some(request) => Some(request@),
        None => None,
    }
}

/// The request that an envelope makes: none for a response.
pub open spec fn request_of_message(message: MessageView) -> Option<RequestView> {
    match message {
        MessageView::Request { id, method, params } => request_of(method, params),
        MessageView::Response { .. } => None,
    }
}

/// The envelope that answers request `req_id` with `response`.
pub open spec fn response_to(req_id: Seq<char>, response: ResponseView) -> MessageView {
    MessageView::Response { id: req_id, result: Some(result_of_response(response)), error: None }
}

/// The byte `?`.
pub const QUESTION_MARK: u8 = 0x3f;

/// The byte `=`.
pub const EQUALS_SIGN: u8 = 0x3d;

/// The byte `i`.
pub const LETTER_I: u8 = 0x69;

/// The byte `v`.
pub const LETTER_V: u8 = 0x76;

/// How many bytes the text form of a sixteen-byte initial vector takes, with
/// the marker `?iv=` before it.
pub const VECTOR_PART_LEN: usize = 28;

/// Whether an encrypted body ends the way one with an initial vector of
/// sixteen bytes does: with the marker `?iv=` and twenty-four more bytes, of
/// which the last two are `=` and the one before them is not. Sixteen bytes in
/// base64 take exactly this form, so a body of another form holds no such
/// vector. What stands before the marker, and whether the bytes behind it are
/// base64 at all, is left for the decryption to judge.
pub open spec fn has_sixteen_byte_vector(content: Seq<char>) -> bool {
    let bytes = encode_utf8(content);
    let start = bytes.len() - VECTOR_PART_LEN;
    &&& start >= 0
    &&& bytes[start] == QUESTION_MARK
    &&& bytes[start + 1] == LETTER_I
    &&& bytes[start + 2] == LETTER_V
    &&& bytes[start + 3] == EQUALS_SIGN
    &&& bytes[bytes.len() - 3] != EQUALS_SIGN
    &&& bytes[bytes.len() - 2] == EQUALS_SIGN
    &&& bytes[bytes.len() - 1] == EQUALS_SIGN
}

/// The envelope inside an encrypted event body: a body with an initial vector
/// of sixteen bytes is decrypted, and the plain text is read as JSON. `None`
/// where the body has no such vector or either step fails.
pub open spec fn decoded(keys: Keys, sender: XOnlyPublicKey, content: Seq<char>) -> Option<MessageView> {
    if !has_sixteen_byte_vector(content) {
        None
    } else {
        match plaintext_of(keys, sender, content) {
            Some(text) => message_of_json(text),
            None => None,
        }
    }
}

/// Whether a method is one of the nine that the protocol knows.
pub open spec fn known_method(method: Seq<char>) -> bool {
    ||| method == "describe"@
    ||| method == "get_public_key"@
    ||| method == "sign_event"@
    ||| method == "connect"@
    ||| method == "disconnect"@
    ||| method == "delegate"@
    ||| method == "nip04_encrypt"@
    ||| method == "nip04_decrypt"@
    ||| method == "sign_schnorr"@
}

/// How the request that an envelope makes goes with its method: a request is
/// the one that the method names; the three methods without parameters always
/// make their request; and a method that the protocol does not know makes
/// none.
pub open spec fn fits_method(method: Seq<char>, request: Option<RequestView>) -> bool {
    &&& request matches Some(r) ==> method_name(r) == method
    &&& method == "describe"@ ==> request == Some(RequestView::Describe)
    &&& method == "get_public_key"@ ==> request == Some(RequestView::GetPublicKey)
    &&& method == "disconnect"@ ==> request == Some(RequestView::Disconnect)
    &&& !known_method(method) ==> request is None
}

/// Whether the request that an envelope makes goes with its method; a
/// response has no method and makes no request.
pub open spec fn request_fits(message: MessageView) -> bool {
    message is Request ==> fits_method(message.method(), request_of_message(message))
}

/// The name of a request's method on the wire.
pub open spec fn method_name(request: RequestView) -> Seq<char> {
    match request {
        RequestView::Describe => "describe"@,
        RequestView::GetPublicKey => "get_public_key"@,
        RequestView::SignEvent(_) => "sign_event"@,
        RequestView::Connect => "connect"@,
        RequestView::Disconnect => "disconnect"@,
        RequestView::Delegate => "delegate"@,
        RequestView::Nip04Encrypt => "nip04_encrypt"@,
        RequestView::Nip04Decrypt => "nip04_decrypt"@,
        RequestView::SignSchnorr => "sign_schnorr"@,
    }
}

impl Request {
    /// The name of this request's method on the wire.
    pub fn method(&self) -> (res: String)
        ensures
            res@ == method_name(self@),
    {
        match self {
            Request::Describe => "describe".to_owned(),
            Request::GetPublicKey => "get_public_key".to_owned(),
            Request::SignEvent(_) => "sign_event".to_owned(),
            Request::Connect => "connect".to_owned(),
            Request::Disconnect => "disconnect".to_owned(),
            Request::Delegate => "delegate".to_owned(),
            Request::Nip04Encrypt => "nip04_encrypt".to_owned(),
            Request::Nip04Decrypt => "nip04_decrypt".to_owned(),
            Request::SignSchnorr => "sign_schnorr".to_owned(),
        }
    }
}

impl Message {
    /// Reads an envelope from its JSON text. A text that holds no envelope is
    /// reported as a protocol error.
    pub fn from_json(json: &str) -> (res: Result<Message, Error>)
        ensures
            match res {
                Ok(message) => message_of_json(json@) == Some(message@),
                Err(e) => message_of_json(json@) is None && e is Nip46Error,
            },
    {
        match nip46_message_from_json(json) {
            Ok(message) => Ok(message),
            Err(text) => Err(Error::Nip46Error(text)),
        }
    }

    /// Writes the envelope as JSON text.
    pub fn as_json(&self) -> (res: String)
        ensures
            res@ == json_of_message(self@),
    {
        nip46_message_as_json(self)
    }

    /// The request that this envelope makes, if it makes one: a response makes
    /// none, and neither does a request with an unknown method or with
    /// parameters that do not fit it.
    pub fn to_request(&self) -> (res: Option<Request>)
        ensures
            match res {
                Some(request) => request_of_message(self@) == Some(request@),
                None => request_of_message(self@) is None,
            },
            request_fits(self@),
    {
        match self {
            Message::Request { id: _, method, params } => nip46_to_request(method, params),
            Message::Response { .. } => None,
        }
    }

    /// Builds the envelope that answers request `req_id` with `response`.
    pub fn response(req_id: String, response: Response) -> (res: Message)
        ensures
            res@ == response_to(req_id@, response@),
    {
        nip46_response(req_id, response)
    }

    /// Builds the request by which the signer presents itself to a client
    /// after connecting: method `connect`, with the session's public key as
    /// its parameter. The id is drawn at random.
    pub fn connect_request(public_key: XOnlyPublicKey) -> (res: Message)
        ensures
            res@ is Request,
            res@.method() == "connect"@,
            res@.params() == connect_params(public_key),
    {
        nip46_connect_request(public_key)
    }

    /// Whether this envelope is a request.
    pub fn is_request(&self) -> (res: bool)
        ensures
            res == (self@ is Request),
    {
        match self {
            Message::Request { .. } => true,
            Message::Response { .. } => false,
        }
    }
}

impl ConnectionDescriptor {
    /// Reads a connection URI. A text that is no such URI is reported as a
    /// protocol error.
    pub fn parse(uri: &str) -> (res: Result<ConnectionDescriptor, Error>)
        ensures
            match res {
                Ok(target) => connect_uri_target(uri@) == Ok::<_, Seq<char>>(
                    (target.public_key, target.relay_url@),
                ),
                Err(e) => e is Nip46Error && connect_uri_target(uri@) == Err::<
                    (XOnlyPublicKey, Seq<char>),
                    _,
                >(error_text(e)),
            },
    {
        match nip46_parse_connect_uri(uri) {
            Ok(target) => Ok(target),
            Err(text) => Err(Error::Nip46Error(text)),
        }
    }
}

/// Tells whether an encrypted body ends in an initial vector of sixteen bytes
/// in its text form. Only such a body is handed to the decryption.
pub fn check_body(content: &str) -> (res: bool)
    ensures
        res == has_sixteen_byte_vector(content@),
{
    let bytes = content.as_bytes();
    let n = bytes.len();
    if n < VECTOR_PART_LEN {
        return false;
    }
    let start = n - VECTOR_PART_LEN;
    bytes[start] == QUESTION_MARK && bytes[start + 1] == LETTER_I && bytes[start + 2] == LETTER_V
        && bytes[start + 3] == EQUALS_SIGN && bytes[n - 3] != EQUALS_SIGN && bytes[n - 2]
        == EQUALS_SIGN && bytes[n - 1] == EQUALS_SIGN
}

/// Decodes the body of a protocol event that `sender` encrypted to `keys`:
/// checks that the body has an initial vector of sixteen bytes, decrypts it,
/// then reads the envelope from the plain text. Each failure is reported as a
/// protocol error and changes nothing.
pub fn decode(keys: &Keys, sender: &XOnlyPublicKey, content: &str) -> (res: Result<Message, Error>)
    ensures
        match res {
            Ok(message) => decoded(*keys, *sender, content@) == Some(message@),
            Err(e) => decoded(*keys, *sender, content@) is None && e is Nip46Error,
        },
        !crate::keys::has_secret_key(*keys) ==> res is Err,
{
    if !check_body(content) {
        return Err(Error::Nip46Error("Invalid content format".to_owned()));
    }
    match nip04_decrypt(keys, sender, content) {
        Ok(text) => Message::from_json(text.as_str()),
        Err(text) => Err(Error::Nip46Error(text)),
    }
}

/// Wraps an envelope for `receiver` into a protocol event, ready to publish:
/// the envelope is written as JSON and encrypted to the receiver with the
/// secret key of `keys`, and the event is signed with the same key pair. This
/// succeeds exactly where the key pair holds its secret key; without it the
/// failure is reported as a builder error. The event carries the envelope to
/// the receiver. Encryption and signing draw random numbers and the event
/// bears the time, so no two events are alike.
pub fn build_event(keys: &Keys, receiver: &XOnlyPublicKey, msg: &Message) -> (res: Result<Event, Error>)
    ensures
        res is Ok <==> crate::keys::has_secret_key(*keys),
        res matches Ok(event) ==> carries(event, *keys, *receiver, msg@),
        res matches Err(e) ==> e is EventBuilderError,
{
    match nostr_connect_event(keys, receiver, msg) {
        Ok(event) => Ok(event),
        Err(text) => Err(Error::EventBuilderError(text)),
    }
}

/// Calls `nostr::EventBuilder::nostr_connect` with the same envelope and then
/// `nostr::EventBuilder::to_event` on what it gives, both with `keys`. A
/// failure of either is given as its text.
///
/// The first asks the key pair for its secret key and fails where there is
/// none. It then encrypts the envelope's JSON to the receiver, which cannot
/// fail for a public key that is one, and makes an event of the protocol's
/// kind with that body and one tag, the receiver's public key. The second stamps
/// the event with the time, writes the key pair's public key into it and
/// signs its id, thirty-two bytes, which fails only where no key pair can be
/// had. So the two succeed exactly with a secret key.
///
/// The encryption writes the cipher text, `?iv=` and a fresh initial vector
/// of sixteen bytes, both in base64. Its key is the first coordinate of the
/// point that the secret key and the other side's public key span, which is
/// the same point from either side, and the decryption derives its key by the
/// same function. So the receiver reads the envelope's JSON back.
#[verifier::external_body]
fn nostr_connect_event(keys: &Keys, receiver: &XOnlyPublicKey, message: &Message) -> (res: Result<Event, String>)
    ensures
        res is Ok <==> crate::keys::has_secret_key(*keys),
        res matches Ok(event) ==> event_kind(event) == crate::listen::NOSTR_CONNECT_KIND,
        res matches Ok(event) ==> event_author(event) == crate::keys::public_key_of(*keys),
        res matches Ok(event) ==> event_addressee(event) == Some(*receiver),
        res matches Ok(event) ==> has_sixteen_byte_vector(event_content(event)),
        res matches Ok(event) ==> forall|reader: Keys|
            crate::keys::has_secret_key(reader) && crate::keys::public_key_of(reader) == *receiver
                ==> #[trigger] plaintext_of(
                reader,
                crate::keys::public_key_of(*keys),
                event_content(event),
            ) == Some(json_of_message(message@)),
{
    let wire = match message.clone() {
        Message::Request { id, method, params } => WireMessage::Request { id, method, params },
        Message::Response { id, result, error } => WireMessage::Response { id, result, error },
    };
    let builder = EventBuilder::nostr_connect(keys, *receiver, wire).map_err(|e| e.to_string())?;
    builder.to_event(keys).map_err(|e| e.to_string())
}

/// Reads the kind of an event: its field `kind`, as `nostr::Kind::as_u64`
/// gives it.
#[verifier::external_body]
pub(crate) fn read_event_kind(event: &Event) -> (res: u64)
    ensures
        res == event_kind(*event),
{
    event.kind.as_u64()
}

/// Reads the author of an event: its field `pubkey`.
#[verifier::external_body]
pub(crate) fn read_event_author(event: &Event) -> (res: XOnlyPublicKey)
    ensures
        res == event_author(*event),
{
    event.pubkey
}

/// Reads the body of an event: its field `content`.
#[verifier::external_body]
pub(crate) fn read_event_content(event: &Event) -> (res: &String)
    ensures
        res@ == event_content(*event),
{
    &event.content
}

/// Calls `nostr::nips::nip46::Message::from_json`, which hands the text to
/// `serde_json`, and moves the fields of what it returns; a failure is given
/// as its text. Whether it fails, and the envelope if not, is a function of
/// the JSON text alone.
#[verifier::external_body]
fn nip46_message_from_json(json: &str) -> (res: Result<Message, String>)
    ensures
        match res {
            Ok(message) => message_of_json(json@) == Some(message@),
            Err(_) => message_of_json(json@) is None,
        },
{
    Ok(match WireMessage::from_json(json).map_err(|e| e.to_string())? {
        WireMessage::Request { id, method, params } => Message::Request { id, method, params },
        WireMessage::Response { id, result, error } => Message::Response { id, result, error },
    })
}

/// Calls `nostr::nips::nip46::Message::as_json` on the same envelope. The text
/// is a function of the envelope alone.
#[verifier::external_body]
fn nip46_message_as_json(message: &Message) -> (res: String)
    ensures
        res@ == json_of_message(message@),
{
    match message.clone() {
        Message::Request { id, method, params } => WireMessage::Request { id, method, params },
        Message::Response { id, result, error } => WireMessage::Response { id, result, error },
    }.as_json()
}

/// Calls `nostr::nips::nip46::Message::to_request` on a request envelope with
/// this method and these parameters (the id plays no part in it), and keeps of
/// the outcome which request it is and, for an event to sign, the event's id
/// and text. An error of any kind becomes `None`.
///
/// That function picks the request by the method's text alone and reads the
/// parameters only for the requests that have some: so a request is always
/// the one that the method names, and `describe`, `get_public_key` and
/// `disconnect` make theirs whatever the parameters are.
#[verifier::external_body]
fn nip46_to_request(method: &String, params: &Vec<Value>) -> (res: Option<Request>)
    ensures
        match res {
            Some(request) => request_of(method@, params@) == Some(request@),
            None => request_of(method@, params@) is None,
        },
        res matches Some(request) ==> method_name(request@) == method@,
        method@ == "describe"@ ==> request_view(res) == Some(RequestView::Describe),
        method@ == "get_public_key"@ ==> request_view(res) == Some(RequestView::GetPublicKey),
        method@ == "disconnect"@ ==> request_view(res) == Some(RequestView::Disconnect),
{
    let message = WireMessage::Request { id: String::new(), method: method.clone(), params: params.clone() };
    Some(match message.to_request().ok()? {
        WireRequest::Describe => Request::Describe,
        WireRequest::GetPublicKey => Request::GetPublicKey,
        WireRequest::SignEvent(e) => Request::SignEvent(UnsignedEvent { id: e.id.as_bytes().to_vec(), content: e.content }),
        WireRequest::Connect(_) => Request::Connect,
        WireRequest::Disconnect => Request::Disconnect,
        WireRequest::Delegate { .. } => Request::Delegate,
        WireRequest::Nip04Encrypt { .. } => Request::Nip04Encrypt,
        WireRequest::Nip04Decrypt { .. } => Request::Nip04Decrypt,
        WireRequest::SignSchnorr(_) => Request::SignSchnorr,
    })
}

/// Calls `nostr::nips::nip46::Message::response`, which builds a response
/// envelope with the given id, no error, and the payload as a JSON value.
#[verifier::external_body]
fn nip46_response(req_id: String, response: Response) -> (res: Message)
    ensures
        res@ == (MessageView::Response {
            id: req_id@,
            result: Some(result_of_response(response@)),
            error: None,
        }),
{
    let payload = match response {
        Response::Describe(methods) => WireResponse::Describe(methods),
        Response::GetPublicKey(key) => WireResponse::GetPublicKey(key),
        Response::SignEvent(signature) => WireResponse::SignEvent(signature),
    };
    match WireMessage::response(req_id, payload) {
        WireMessage::Request { id, method, params } => Message::Request { id, method, params },
        WireMessage::Response { id, result, error } => Message::Response { id, result, error },
    }
}

/// Calls `nostr::nips::nip46::Message::request` with a `Connect` request for
/// this key. That function takes the method and the parameters from the
/// request and draws the id at random, so nothing is said of the id.
#[verifier::external_body]
fn nip46_connect_request(key: XOnlyPublicKey) -> (res: Message)
    ensures
        res@ is Request,
        res@.method() == "connect"@,
        res@.params() == connect_params(key),
{
    match WireMessage::request(WireRequest::Connect(key)) {
        WireMessage::Request { id, method, params } => Message::Request { id, method, params },
        WireMessage::Response { id, result, error } => Message::Response { id, result, error },
    }
}

/// Calls `from_str` of `nostr::nips::nip46::NostrConnectURI` and keeps the
/// client's public key and the relay's address, the latter as text; a failure
/// is given as the text that its `Display` impl writes. All of this is a
/// function of the URI's text alone.
#[verifier::external_body]
fn nip46_parse_connect_uri(uri: &str) -> (res: Result<ConnectionDescriptor, String>)
    ensures
        match res {
            Ok(target) => connect_uri_target(uri@) == Ok::<_, Seq<char>>((target.public_key, target.relay_url@)),
            Err(text) => connect_uri_target(uri@) == Err::<(XOnlyPublicKey, Seq<char>), _>(text@),
        },
{
    let parsed = uri.parse::<nostr::nips::nip46::NostrConnectURI>().map_err(|e| e.to_string())?;
    Ok(ConnectionDescriptor { public_key: parsed.public_key, relay_url: parsed.relay_url.to_string() })
}

/// Calls `nostr::nips::nip04::decrypt` with the secret key of `keys`. A key
/// pair without a secret key, or a body that does not decrypt, gives the
/// failure's text. Whether it fails, and the plain text if not, is a function
/// of the keys and the body alone.
///
/// That function splits the body at `?iv=`, decodes both parts from base64,
/// and takes the second for a block of sixteen bytes without testing its
/// length: with another length it does not return. The decoder takes padding
/// in its canonical form only, so what it accepts of the form required here
/// has sixteen bytes.
#[verifier::external_body]
fn nip04_decrypt(keys: &Keys, sender: &XOnlyPublicKey, content: &str) -> (res: Result<String, String>)
    requires
        has_sixteen_byte_vector(content@),
    ensures
        match res {
            Ok(text) => plaintext_of(*keys, *sender, content@) == Some(text@),
            Err(_) => plaintext_of(*keys, *sender, content@) is None,
        },
        !crate::keys::has_secret_key(*keys) ==> res is Err,
{
    let secret_key = keys.secret_key().map_err(|e| e.to_string())?;
    nostr::nips::nip04::decrypt(&secret_key, sender, content).map_err(|e| e.to_string())
}

} // verus!
