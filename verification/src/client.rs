//! The synchronous client: what an application holds and calls.

use vstd::prelude::*;

use bytes::Bytes;
use tokio::sync::{broadcast, mpsc, oneshot};

use crate::address::{address, format_address};
use crate::certificate::{
    CertVerificationStatus, CertVerifierAction, Certificate, CertificateFingerprint,
    CertificateInteractionEvent, CertificateUpdateEvent, CertificateVerificationMode, ServerName,
};
use crate::channel::{
    another_close_sender, close_answers, close_channel, contents, message_answers,
    message_channel, offer_mark, payload_answers, payload_channel, request_channel, send_close,
    try_recv_message, try_recv_payload, try_send, ReceiveRefusal, SendRefusal,
};
use crate::error::{QuinnetError, DEFAULT_KILL_MESSAGE_QUEUE_SIZE, DEFAULT_MESSAGE_QUEUE_SIZE};
use crate::laws::updates_raise_what_was_taken;

verus! {

/// Number of messages each of the two internal queues can hold.
pub const DEFAULT_INTERNAL_MESSAGE_CHANNEL_SIZE: usize = 100;

/// File in which the known hosts are kept unless another one is named.
pub const DEFAULT_KNOWN_HOSTS_FILE: &'static str = "quinnet/known_hosts";

/// Raised when the client just connected to the server.
#[derive(Debug, Clone, Copy, PartialEq, Eq, Structural)]
pub struct ConnectionEvent;

/// Raised when the client is considered disconnected from the server.
#[derive(Debug, Clone, Copy, PartialEq, Eq, Structural)]
pub struct ConnectionLostEvent;

/// Configuration of the client, used when connecting to a server.
#[derive(Debug, Clone)]
pub struct ClientConfigurationData {
    server_host: String,
    server_port: u16,
    local_bind_host: String,
    local_bind_port: u16,
}

/// What a [`ClientConfigurationData`] holds.
#[verifier::ext_equal]
pub struct ConfigurationView {
    pub server_host: Seq<char>,
    pub server_port: u16,
    pub local_bind_host: Seq<char>,
    pub local_bind_port: u16,
}

impl View for ClientConfigurationData {
    type V = ConfigurationView;

    closed spec fn view(&self) -> ConfigurationView {
        ConfigurationView {
            server_host: self.server_host@,
            server_port: self.server_port,
            local_bind_host: self.local_bind_host@,
            local_bind_port: self.local_bind_port,
        }
    }
}

impl ClientConfigurationData {
    /// Creates a new ClientConfigurationData.
    ///
    /// * `server_host`: address of the server
    /// * `server_port`: port that the server is listening on
    /// * `local_bind_host`: local address to bind to, usually a wildcard
    ///   address like `0.0.0.0` or `[::]`
    /// * `local_bind_port`: local port to bind to, 0 for one that the system
    ///   assigns
    pub fn new(
        server_host: String,
        server_port: u16,
        local_bind_host: String,
        local_bind_port: u16,
    ) -> (res: Self)
        ensures
            res@ == (ConfigurationView {
                server_host: server_host@,
                server_port,
                local_bind_host: local_bind_host@,
                local_bind_port,
            }),
    {
        Self { server_host, server_port, local_bind_host, local_bind_port }
    }

    /// Address that the server listens on.
    pub fn server_address(&self) -> (res: String)
        ensures
            res@ == address(self@.server_host, self@.server_port),
    {
        format_address(self.server_host.as_str(), self.server_port)
    }

    /// Name under which the server has to identify itself.
    pub fn server_name(&self) -> (res: String)
        ensures
            res@ == self@.server_host,
    {
        self.server_host.clone()
    }

    /// Local address to bind to.
    pub fn local_bind_address(&self) -> (res: String)
        ensures
            res@ == address(self@.local_bind_host, self@.local_bind_port),
    {
        format_address(self.local_bind_host.as_str(), self.local_bind_port)
    }
}

/// Current state of the client driver.
#[derive(Debug, Clone, Copy, PartialEq, Eq, Structural)]
pub enum ClientState {
    Disconnected,
    Connected,
}

/// What the connection task tells the client.
#[derive(Debug)]
pub enum InternalAsyncMessage {
    /// The connection is up; the certificates of the server, if known.
    Connected(Option<Vec<Certificate>>),
    /// The connection is gone.
    LostConnection,
    /// The application has to decide about a certificate.
    CertificateActionRequest {
        status: CertVerificationStatus,
        action_sender: oneshot::Sender<CertVerifierAction>,
    },
    /// A certificate became trusted.
    TrustedCertificateUpdate { server_name: ServerName, fingerprint: CertificateFingerprint },
}

/// What the client tells the connection task.
#[derive(Debug, Clone)]
pub enum InternalSyncMessage {
    /// Connect to a server.
    Connect { config: ClientConfigurationData, cert_mode: CertificateVerificationMode },
}

/// What a client raises to the application.
#[derive(Debug)]
pub enum ClientEvent {
    Connection(ConnectionEvent),
    ConnectionLost(ConnectionLostEvent),
    CertificateInteraction(CertificateInteractionEvent),
    CertificateUpdate(CertificateUpdateEvent),
}

/// The synchronous end of a connection to a server.
pub struct Client {
    state: ClientState,
    sender: mpsc::Sender<Bytes>,
    receiver: mpsc::Receiver<Bytes>,
    close_sender: broadcast::Sender<()>,
    internal_receiver: mpsc::Receiver<InternalAsyncMessage>,
    internal_sender: mpsc::Sender<InternalSyncMessage>,
}

/// What a [`Client`] holds.
pub struct ClientView {
    pub state: ClientState,
    /// Takes the payloads for the server.
    pub sender: mpsc::Sender<Bytes>,
    /// Gives the payloads from the server.
    pub receiver: mpsc::Receiver<Bytes>,
    /// Closes the streams of the connection.
    pub close_sender: broadcast::Sender<()>,
    /// Gives the messages of the connection task.
    pub internal_receiver: mpsc::Receiver<InternalAsyncMessage>,
    /// Takes the messages for the connection task.
    pub internal_sender: mpsc::Sender<InternalSyncMessage>,
}

impl View for Client {
    type V = ClientView;

    closed spec fn view(&self) -> ClientView {
        ClientView {
            state: self.state,
            sender: self.sender,
            receiver: self.receiver,
            close_sender: self.close_sender,
            internal_receiver: self.internal_receiver,
            internal_sender: self.internal_sender,
        }
    }
}


/// `answer` is what the queue behind `sender` answered when it was offered
/// `message`.
pub closed spec fn offered<T>(
    sender: mpsc::Sender<T>,
    message: T,
    answer: Result<(), SendRefusal<T>>,
) -> bool {
    call_ensures(try_send::<T>, (&sender, message), answer)
}

/// An offer is a call to the queue, with that message and that answer.
pub(crate) proof fn offer_is_the_call<T>(
    sender: mpsc::Sender<T>,
    message: T,
    answer: Result<(), SendRefusal<T>>,
)
    ensures
        offered(sender, message, answer) <==> call_ensures(
            try_send::<T>,
            (&sender, message),
            answer,
        ),
        offered(sender, message, answer) ==> {
            &&& answer matches Err(SendRefusal::Full(m)) ==> m == message
            &&& answer matches Err(SendRefusal::Closed(m)) ==> m == message
        },
{
}

/// What `connect` makes of the answer of the request queue: a request that was
/// not taken, for whatever reason, is reported as a full queue.
pub open spec fn connect_outcome(
    answer: Result<(), SendRefusal<InternalSyncMessage>>,
) -> Result<(), QuinnetError> {
    match answer {
        Ok(_) => Ok(()),
        Err(_) => Err(QuinnetError::FullQueue),
    }
}

/// What `send_payload` makes of the answer of the payload queue.
pub open spec fn send_outcome(answer: Result<(), SendRefusal<Bytes>>) -> Result<(), QuinnetError> {
    match answer {
        Ok(_) => Ok(()),
        Err(SendRefusal::Full(_)) => Err(QuinnetError::FullQueue),
        Err(SendRefusal::Closed(_)) => Err(QuinnetError::ChannelClosed),
    }
}

/// What `receive_payload` makes of the answer of the payload queue: an empty
/// queue is no error.
pub open spec fn receive_outcome(answer: Result<Bytes, ReceiveRefusal>) -> Result<
    Option<Bytes>,
    QuinnetError,
> {
    match answer {
        Ok(payload) => Ok(Some(payload)),
        Err(ReceiveRefusal::Empty) => Ok(None),
        Err(ReceiveRefusal::Disconnected) => Err(QuinnetError::ChannelClosed),
    }
}

/// What `receive_message` makes of a decoded payload.
pub open spec fn decode_outcome<T, E>(decoded: Result<T, E>) -> Result<Option<T>, QuinnetError> {
    match decoded {
        Ok(message) => Ok(Some(message)),
        Err(_) => Err(QuinnetError::Deserialization),
    }
}

/// What `disconnect` makes of the answer of the close channel.
pub open spec fn close_outcome(answer: Result<usize, ()>) -> Result<(), QuinnetError> {
    match answer {
        Ok(_) => Ok(()),
        Err(_) => Err(QuinnetError::ChannelClosed),
    }
}

/// The queue behind `sender` was offered `payload`, and `res` reports its
/// answer.
pub open spec fn payload_offered(
    sender: mpsc::Sender<Bytes>,
    payload: Bytes,
    res: Result<(), QuinnetError>,
) -> bool {
    exists|answer: Result<(), SendRefusal<Bytes>>| #[trigger]
        offered(sender, payload, answer) && res == send_outcome(answer)
}

/// The client asked its payload queue once, and got `answer`. Nothing else
/// changed. A queue that reported its end before reports it again.
pub open spec fn received(
    pre: ClientView,
    post: ClientView,
    answer: Result<Bytes, ReceiveRefusal>,
) -> bool {
    &&& post == ClientView { receiver: post.receiver, ..pre }
    &&& payload_answers(post.receiver) == payload_answers(pre.receiver).push(answer)
    &&& payload_answers(pre.receiver).contains(Err(ReceiveRefusal::Disconnected)) ==> answer
        == Err::<Bytes, ReceiveRefusal>(ReceiveRefusal::Disconnected)
}

/// How `receive_payload` takes a client from `pre` to `post`, with the result
/// `res`.
pub open spec fn receive_effect(
    pre: ClientView,
    post: ClientView,
    res: Result<Option<Bytes>, QuinnetError>,
) -> bool {
    exists|answer: Result<Bytes, ReceiveRefusal>| #[trigger]
        received(pre, post, answer) && res == receive_outcome(answer)
}

/// What `receive_message` makes of the answer of the payload queue: only a
/// payload is decoded.
pub open spec fn message_outcome<T, E, F: FnOnce(&Bytes) -> Result<T, E>>(
    decode: F,
    answer: Result<Bytes, ReceiveRefusal>,
    res: Result<Option<T>, QuinnetError>,
) -> bool {
    match answer {
        Ok(payload) => exists|decoded: Result<T, E>| #[trigger]
            call_ensures(decode, (&payload,), decoded) && res == decode_outcome(decoded),
        Err(ReceiveRefusal::Empty) => res == Ok::<Option<T>, QuinnetError>(None),
        Err(ReceiveRefusal::Disconnected) => res == Err::<Option<T>, QuinnetError>(
            QuinnetError::ChannelClosed,
        ),
    }
}

/// Makes payloads from encoded messages of the type `V`. Nothing else can be
/// done with an encoded message, so each makes one payload at most.
pub trait MadeFrom<V>: Sized {
    /// The bytes of an encoded message.
    spec fn octets(encoded: V) -> Seq<u8>;

    /// Makes the payload that holds these bytes.
    fn made_from(encoded: V) -> (payload: Bytes)
        ensures
            contents(payload) == Self::octets(encoded),
    ;
}

impl MadeFrom<Vec<u8>> for Bytes {
    open spec fn octets(encoded: Vec<u8>) -> Seq<u8> {
        encoded@
    }

    fn made_from(encoded: Vec<u8>) -> (payload: Bytes) {
        Bytes::from(encoded)
    }
}

/// What `send_message` makes of an encoded message: what could be encoded is
/// offered to the payload queue, byte for byte.
pub open spec fn encoded_outcome<V, E>(
    sender: mpsc::Sender<Bytes>,
    encoded: Result<V, E>,
    res: Result<(), QuinnetError>,
) -> bool where Bytes: MadeFrom<V> {
    match encoded {
        Ok(bytes) => exists|payload: Bytes| #[trigger]
            payload_offered(sender, payload, res) && contents(payload) == <Bytes as MadeFrom<V>>::octets(bytes),
        Err(_) => res == Err::<(), QuinnetError>(QuinnetError::Serialization),
    }
}

/// How `disconnect` takes a client from `pre` to `post`, with the result `res`.
/// Only a connected client sends a close signal through its handle, once, and
/// it stays connected if nobody is there to get it. A signal through another
/// handle, or an offer to a queue, is not recorded here.
pub open spec fn disconnect_effect(
    pre: ClientView,
    post: ClientView,
    res: Result<(), QuinnetError>,
) -> bool {
    if pre.state is Connected {
        let answer = close_answers(post.close_sender).last();
        &&& close_answers(post.close_sender) == close_answers(pre.close_sender).push(answer)
        &&& res == close_outcome(answer)
        &&& answer matches Ok(receivers) ==> receivers > 0
        &&& post == ClientView {
            close_sender: post.close_sender,
            state: if answer is Ok {
                ClientState::Disconnected
            } else {
                ClientState::Connected
            },
            ..pre
        }
    } else {
        &&& res == Ok::<(), QuinnetError>(())
        &&& post == pre
    }
}

/// The state that a message of the connection task leads to.
pub open spec fn next_state(state: ClientState, message: InternalAsyncMessage) -> ClientState {
    match message {
        InternalAsyncMessage::Connected(_) => ClientState::Connected,
        InternalAsyncMessage::LostConnection => ClientState::Disconnected,
        _ => state,
    }
}

/// The state that messages of the connection task lead to, taken in order.
pub open spec fn state_after(state: ClientState, messages: Seq<InternalAsyncMessage>) -> ClientState
    decreases messages.len(),
{
    if messages.len() == 0 {
        state
    } else {
        next_state(state_after(state, messages.drop_last()), messages.last())
    }
}

/// The event that a message of the connection task raises.
pub open spec fn event_of(message: InternalAsyncMessage) -> ClientEvent {
    match message {
        InternalAsyncMessage::Connected(_) => ClientEvent::Connection(ConnectionEvent),
        InternalAsyncMessage::LostConnection => ClientEvent::ConnectionLost(ConnectionLostEvent),
        InternalAsyncMessage::CertificateActionRequest {
            status,
            action_sender,
        } => ClientEvent::CertificateInteraction(
            CertificateInteractionEvent { status, action_sender },
        ),
        InternalAsyncMessage::TrustedCertificateUpdate {
            server_name,
            fingerprint,
        } => ClientEvent::CertificateUpdate(CertificateUpdateEvent { server_name, fingerprint }),
    }
}

/// The events that messages of the connection task raise, in order.
pub open spec fn events_of(messages: Seq<InternalAsyncMessage>) -> Seq<ClientEvent> {
    messages.map_values(|message: InternalAsyncMessage| event_of(message))
}

/// Answers that hand out these messages.
pub open spec fn handed_out(messages: Seq<InternalAsyncMessage>) -> Seq<
    Result<InternalAsyncMessage, ReceiveRefusal>,
> {
    messages.map_values(
        |message: InternalAsyncMessage| Ok::<InternalAsyncMessage, ReceiveRefusal>(message),
    )
}

/// The client took messages from its connection task until it was refused one,
/// and went through the states they lead to. Nothing else changed. A connection
/// task that is gone has no more messages.
pub open spec fn drained(
    pre: ClientView,
    post: ClientView,
    messages: Seq<InternalAsyncMessage>,
    refusal: ReceiveRefusal,
) -> bool {
    &&& message_answers(post.internal_receiver) == (message_answers(pre.internal_receiver)
        + handed_out(messages)).push(Err(refusal))
    &&& message_answers(pre.internal_receiver).contains(Err(ReceiveRefusal::Disconnected)) ==> {
        &&& messages.len() == 0
        &&& refusal is Disconnected
    }
    &&& post == ClientView {
        state: state_after(pre.state, messages),
        internal_receiver: post.internal_receiver,
        ..pre
    }
}

/// Reports the answer of the request queue.
pub fn connect_result(answer: Result<(), SendRefusal<InternalSyncMessage>>) -> (res: Result<
    (),
    QuinnetError,
>)
    ensures
        res == connect_outcome(answer),
        res is Ok <==> answer is Ok,
        res matches Err(error) ==> error is FullQueue,
    opens_invariants none
{
    match answer {
        Ok(_) => Ok(()),
        Err(_) => Err(QuinnetError::FullQueue),
    }
}

/// Reports the answer of the payload queue to a payload it was offered.
pub fn send_result(answer: Result<(), SendRefusal<Bytes>>) -> (res: Result<(), QuinnetError>)
    ensures
        res == send_outcome(answer),
        res is Ok <==> answer is Ok,
        (res matches Err(QuinnetError::FullQueue)) <==> (answer matches Err(SendRefusal::Full(_))),
        (res matches Err(QuinnetError::ChannelClosed)) <==> (answer matches Err(
            SendRefusal::Closed(_),
        )),
    opens_invariants none
{
    match answer {
        Ok(_) => Ok(()),
        Err(err) => match err {
            SendRefusal::Full(_) => Err(QuinnetError::FullQueue),
            SendRefusal::Closed(_) => Err(QuinnetError::ChannelClosed),
        },
    }
}

/// Reports the answer of the payload queue when asked for a payload.
pub fn receive_result(answer: Result<Bytes, ReceiveRefusal>) -> (res: Result<
    Option<Bytes>,
    QuinnetError,
>)
    ensures
        res == receive_outcome(answer),
        answer matches Ok(payload) ==> (res matches Ok(Some(p)) && p == payload),
        answer matches Err(ReceiveRefusal::Empty) ==> (res matches Ok(None)),
        answer matches Err(ReceiveRefusal::Disconnected) ==> (res matches Err(
            QuinnetError::ChannelClosed,
        )),
    opens_invariants none
{
    match answer {
        Ok(payload) => Ok(Some(payload)),
        Err(err) => match err {
            ReceiveRefusal::Empty => Ok(None),
            ReceiveRefusal::Disconnected => Err(QuinnetError::ChannelClosed),
        },
    }
}

/// Reports a decoded payload.
pub fn decode_result<T, E>(decoded: Result<T, E>) -> (res: Result<Option<T>, QuinnetError>)
    ensures
        res == decode_outcome(decoded),
        decoded matches Ok(message) ==> (res matches Ok(Some(m)) && m == message),
        decoded is Err ==> (res matches Err(QuinnetError::Deserialization)),
    opens_invariants none
{
    match decoded {
        Ok(message) => Ok(Some(message)),
        Err(_) => Err(QuinnetError::Deserialization),
    }
}

/// Reports the answer of the close channel.
pub fn close_result(answer: Result<usize, ()>) -> (res: Result<(), QuinnetError>)
    ensures
        res == close_outcome(answer),
        res is Ok <==> answer is Ok,
        res matches Err(error) ==> error is ChannelClosed,
    opens_invariants none
{
    match answer {
        Ok(_) => Ok(()),
        Err(_) => Err(QuinnetError::ChannelClosed),
    }
}

impl Client {
    /// Connects to a server with the given configuration and certificate
    /// verification mode. The request is queued for the connection task; no
    /// other request, and no payload, can be offered on the way.
    pub fn connect(
        &self,
        config: ClientConfigurationData,
        cert_mode: CertificateVerificationMode,
    ) -> (res: Result<(), QuinnetError>)
        ensures
            exists|answer: Result<(), SendRefusal<InternalSyncMessage>>| #[trigger]
                offered(
                    self@.internal_sender,
                    (InternalSyncMessage::Connect { config, cert_mode }),
                    answer,
                ) && res == connect_outcome(answer) && (res is Ok <==> answer is Ok) && (res is Err
                    ==> res->Err_0 is FullQueue),
        opens_invariants [offer_mark((InternalSyncMessage::Connect { config, cert_mode }))]
    {
        let ghost message = InternalSyncMessage::Connect { config, cert_mode };
        let answer = try_send(
            &self.internal_sender,
            InternalSyncMessage::Connect { config, cert_mode },
        );
        assert(offered(self@.internal_sender, message, answer));
        connect_result(answer)
    }

    /// Disconnects the client. This does not send any message to the server,
    /// and simply closes all the connection tasks locally: it opens no
    /// namespaces, so it can offer nothing to a queue.
    pub fn disconnect(&mut self) -> (res: Result<(), QuinnetError>)
        ensures
            disconnect_effect(old(self)@, final(self)@, res),
            old(self)@.state is Disconnected ==> res is Ok && final(self)@ == old(self)@,
            old(self)@.state is Connected ==> {
                let answers = close_answers(final(self)@.close_sender);
                &&& answers.len() > 0
                &&& answers.drop_last() == close_answers(old(self)@.close_sender)
                &&& res is Ok <==> answers.last() is Ok
                &&& res is Err ==> res->Err_0 is ChannelClosed
                &&& final(self)@.state is Disconnected <==> res is Ok
            },
            final(self)@.sender == old(self)@.sender,
            final(self)@.receiver == old(self)@.receiver,
            final(self)@.internal_receiver == old(self)@.internal_receiver,
            final(self)@.internal_sender == old(self)@.internal_sender,
        opens_invariants none
    {
        if self.is_connected() {
            let answer = send_close(&mut self.close_sender);
            if let Err(err) = close_result(answer) {
                return Err(err);
            }
        }
        self.state = ClientState::Disconnected;
        Ok(())
    }

    /// Takes a payload from the server, if there is one, and decodes it.
    pub fn receive_message<T, E, F: FnOnce(&Bytes) -> Result<T, E>>(&mut self, decode: F) -> (res:
        Result<Option<T>, QuinnetError>)
        requires
            forall|payload: Bytes| call_requires(decode, (&payload,)),
        ensures
            exists|answer: Result<Bytes, ReceiveRefusal>| #[trigger]
                received(old(self)@, final(self)@, answer) && message_outcome(decode, answer, res),
            payload_answers(final(self)@.receiver).len() > 0,
            payload_answers(final(self)@.receiver).drop_last() == payload_answers(
                old(self)@.receiver,
            ),
            match payload_answers(final(self)@.receiver).last() {
                Ok(payload) => exists|decoded: Result<T, E>| #[trigger]
                    call_ensures(decode, (&payload,), decoded) && match decoded {
                        Ok(message) => res matches Ok(Some(m)) && m == message,
                        Err(_) => res matches Err(QuinnetError::Deserialization),
                    },
                Err(ReceiveRefusal::Empty) => res matches Ok(None),
                Err(ReceiveRefusal::Disconnected) => res matches Err(QuinnetError::ChannelClosed),
            },
            final(self)@.state == old(self)@.state,
            final(self)@.sender == old(self)@.sender,
            final(self)@.close_sender == old(self)@.close_sender,
            final(self)@.internal_receiver == old(self)@.internal_receiver,
            final(self)@.internal_sender == old(self)@.internal_sender,
    {
        match self.receive_payload() {
            Ok(Some(payload)) => {
                let decoded = decode(&payload);
                decode_result(decoded)
            },
            Ok(None) => Ok(None),
            Err(err) => Err(err),
        }
    }

    /// Encodes a message and queues it for the server. What `encode` gives can
    /// be made into a payload once, and a payload cannot be copied, so the
    /// message is not sent twice.
    pub fn send_message<T, V, E, F: FnOnce(&T) -> Result<V, E>>(
        &self,
        message: T,
        encode: F,
    ) -> (res: Result<(), QuinnetError>) where Bytes: MadeFrom<V>
        requires
            call_requires(encode, (&message,)),
        ensures
            exists|encoded: Result<V, E>| #[trigger]
                call_ensures(encode, (&message,), encoded) && encoded_outcome(
                    self@.sender,
                    encoded,
                    res,
                ) && match encoded {
                    Ok(bytes) => exists|payload: Bytes, answer: Result<(), SendRefusal<Bytes>>|
                        #[trigger]
                        offered(self@.sender, payload, answer) && contents(payload) == <Bytes as MadeFrom<
                            V,
                        >>::octets(bytes) && (res is Ok <==> answer is Ok) && ((res matches Err(
                            QuinnetError::FullQueue,
                        )) <==> (answer matches Err(SendRefusal::Full(_)))) && ((res matches Err(
                            QuinnetError::ChannelClosed,
                        )) <==> (answer matches Err(SendRefusal::Closed(_)))),
                    Err(_) => res matches Err(QuinnetError::Serialization),
                },
    {
        match encode(&message) {
            Ok(encoded) => self.offer_payload(<Bytes as MadeFrom<V>>::made_from(encoded)),
            Err(_) => Err(QuinnetError::Serialization),
        }
    }

    /// Queues a payload for the server.
    pub fn send_payload<T: Into<Bytes>>(&self, payload: T) -> (res: Result<(), QuinnetError>)
        ensures
            exists|bytes: Bytes| #[trigger]
                payload_offered(self@.sender, bytes, res) && call_ensures(
                    <T as Into<Bytes>>::into,
                    (payload,),
                    bytes,
                ),
            exists|bytes: Bytes, answer: Result<(), SendRefusal<Bytes>>| #[trigger]
                offered(self@.sender, bytes, answer) && call_ensures(
                    <T as Into<Bytes>>::into,
                    (payload,),
                    bytes,
                ) && (res is Ok <==> answer is Ok) && ((res matches Err(QuinnetError::FullQueue))
                    <==> (answer matches Err(SendRefusal::Full(_)))) && ((res matches Err(
                    QuinnetError::ChannelClosed,
                )) <==> (answer matches Err(SendRefusal::Closed(_)))),
    {
        self.offer_payload(payload.into())
    }

    /// Offers a payload to the queue for the server, and no other payload.
    fn offer_payload(&self, payload: Bytes) -> (res: Result<(), QuinnetError>)
        ensures
            payload_offered(self@.sender, payload, res),
            exists|answer: Result<(), SendRefusal<Bytes>>| #[trigger]
                offered(self@.sender, payload, answer) && (res is Ok <==> answer is Ok) && ((
                res matches Err(QuinnetError::FullQueue)) <==> (answer matches Err(
                    SendRefusal::Full(_),
                ))) && ((res matches Err(QuinnetError::ChannelClosed)) <==> (answer matches Err(
                    SendRefusal::Closed(_),
                ))),
        opens_invariants [offer_mark(payload)]
    {
        let answer = try_send(&self.sender, payload);
        assert(offered(self@.sender, payload, answer));
        send_result(answer)
    }

    /// Takes a payload from the server, if there is one.
    pub fn receive_payload(&mut self) -> (res: Result<Option<Bytes>, QuinnetError>)
        ensures
            receive_effect(old(self)@, final(self)@, res),
            payload_answers(final(self)@.receiver).len() > 0,
            payload_answers(final(self)@.receiver).drop_last() == payload_answers(
                old(self)@.receiver,
            ),
            match payload_answers(final(self)@.receiver).last() {
                Ok(payload) => res matches Ok(Some(p)) && p == payload,
                Err(ReceiveRefusal::Empty) => res matches Ok(None),
                Err(ReceiveRefusal::Disconnected) => res matches Err(QuinnetError::ChannelClosed),
            },
            final(self)@.state == old(self)@.state,
            final(self)@.sender == old(self)@.sender,
            final(self)@.close_sender == old(self)@.close_sender,
            final(self)@.internal_receiver == old(self)@.internal_receiver,
            final(self)@.internal_sender == old(self)@.internal_sender,
        opens_invariants none
    {
        let answer = try_recv_payload(&mut self.receiver);
        assert(received(old(self)@, self@, answer));
        receive_result(answer)
    }

    /// Whether the client is connected.
    pub fn is_connected(&self) -> (res: bool)
        ensures
            res == (self@.state is Connected),
        opens_invariants none
    {
        self.state == ClientState::Connected
    }

    /// Takes up one message of the connection task: its state, and the event
    /// to raise.
    pub fn apply_message(&mut self, message: InternalAsyncMessage) -> (event: ClientEvent)
        ensures
            final(self)@ == (ClientView {
                state: next_state(old(self)@.state, message),
                ..old(self)@
            }),
            event == event_of(message),
            match message {
                InternalAsyncMessage::Connected(_) => event is Connection
                    && final(self)@.state is Connected,
                InternalAsyncMessage::LostConnection => event is ConnectionLost
                    && final(self)@.state is Disconnected,
                InternalAsyncMessage::CertificateActionRequest { status, action_sender } => {
                    &&& event matches ClientEvent::CertificateInteraction(raised)
                    &&& raised.status == status
                    &&& raised.action_sender == action_sender
                    &&& final(self)@.state == old(self)@.state
                },
                InternalAsyncMessage::TrustedCertificateUpdate { server_name, fingerprint } => {
                    &&& event matches ClientEvent::CertificateUpdate(raised)
                    &&& raised.server_name == server_name
                    &&& raised.fingerprint == fingerprint
                    &&& final(self)@.state == old(self)@.state
                },
            },
        opens_invariants none
    {
        match message {
            InternalAsyncMessage::Connected(_) => {
                self.state = ClientState::Connected;
                ClientEvent::Connection(ConnectionEvent)
            },
            InternalAsyncMessage::LostConnection => {
                self.state = ClientState::Disconnected;
                ClientEvent::ConnectionLost(ConnectionLostEvent)
            },
            InternalAsyncMessage::CertificateActionRequest { status, action_sender } => {
                ClientEvent::CertificateInteraction(
                    CertificateInteractionEvent { status, action_sender },
                )
            },
            InternalAsyncMessage::TrustedCertificateUpdate { server_name, fingerprint } => {
                ClientEvent::CertificateUpdate(CertificateUpdateEvent { server_name, fingerprint })
            },
        }
    }
}

/// Receives the messages of the connection task and updates the client. The
/// events to raise come back in the order of the messages.
pub fn update_sync_client(client: &mut Client) -> (events: Vec<ClientEvent>)
    ensures
        exists|messages: Seq<InternalAsyncMessage>, refusal: ReceiveRefusal| #[trigger]
            drained(old(client)@, final(client)@, messages, refusal) && events@ == events_of(
                messages,
            ),
        ({
            let before = message_answers(old(client)@.internal_receiver);
            let after = message_answers(final(client)@.internal_receiver);
            &&& after.len() == before.len() + events@.len() + 1
            &&& after.take(before.len() as int) == before
            &&& after.last() is Err
            &&& forall|i: int|
                0 <= i < events@.len() ==> match after[before.len() + i] {
                    Ok(InternalAsyncMessage::Connected(_)) => #[trigger] events@[i] is Connection,
                    Ok(InternalAsyncMessage::LostConnection) => events@[i] is ConnectionLost,
                    Ok(
                        InternalAsyncMessage::CertificateActionRequest { status, action_sender },
                    ) => {
                        &&& events@[i] matches ClientEvent::CertificateInteraction(raised)
                        &&& raised.status == status
                        &&& raised.action_sender == action_sender
                    },
                    Ok(
                        InternalAsyncMessage::TrustedCertificateUpdate { server_name, fingerprint },
                    ) => {
                        &&& events@[i] matches ClientEvent::CertificateUpdate(raised)
                        &&& raised.server_name == server_name
                        &&& raised.fingerprint == fingerprint
                    },
                    Err(_) => false,
                }
        }),
        forall|i: int|
            0 <= i < events@.len() && (#[trigger] events@[i] is Connection
                || events@[i] is ConnectionLost) && (forall|j: int|
                i < j < events@.len() ==> !(#[trigger] events@[j] is Connection)
                    && !(events@[j] is ConnectionLost)) ==> (final(client)@.state is Connected
                <==> events@[i] is Connection),
        (forall|j: int|
            0 <= j < events@.len() ==> !(#[trigger] events@[j] is Connection)
                && !(events@[j] is ConnectionLost)) ==> final(client)@.state == old(client)@.state,
        final(client)@.sender == old(client)@.sender,
        final(client)@.receiver == old(client)@.receiver,
        final(client)@.close_sender == old(client)@.close_sender,
        final(client)@.internal_sender == old(client)@.internal_sender,
{
    let mut events: Vec<ClientEvent> = Vec::new();
    let ghost mut messages: Seq<InternalAsyncMessage> = Seq::empty();
    loop
        invariant_except_break
            message_answers(client@.internal_receiver) == message_answers(
                old(client)@.internal_receiver,
            ) + handed_out(messages),
            client@ == (ClientView {
                state: state_after(old(client)@.state, messages),
                internal_receiver: client@.internal_receiver,
                ..old(client)@
            }),
            message_answers(old(client)@.internal_receiver).contains(
                Err(ReceiveRefusal::Disconnected),
            ) ==> messages.len() == 0,
            events@ == events_of(messages),
        ensures
            exists|refusal: ReceiveRefusal| #[trigger]
                drained(old(client)@, client@, messages, refusal),
            events@ == events_of(messages),
        decreases usize::MAX - events.len(),
    {
        proof {
            if messages.len() == 0 {
                assert(message_answers(old(client)@.internal_receiver) + handed_out(messages)
                    =~= message_answers(old(client)@.internal_receiver));
            }
        }
        match try_recv_message(&mut client.internal_receiver) {
            Ok(message) => {
                proof {
                    let more = messages.push(message);
                    assert(more.drop_last() =~= messages);
                    assert(handed_out(more) =~= handed_out(messages).push(Ok(message)));
                    assert(events_of(more) =~= events_of(messages).push(event_of(message)));
                    messages = more;
                }
                let event = client.apply_message(message);
                events.push(event);
            },
            Err(refusal) => {
                assert(drained(old(client)@, client@, messages, refusal));
                break;
            },
        }
    }
    proof {
        let refusal = choose|refusal: ReceiveRefusal| #[trigger]
            drained(old(client)@, client@, messages, refusal);
        updates_raise_what_was_taken(old(client)@, client@, messages, refusal);
    }
    events
}

/// The ends of the channels that belong to the connection task.
pub struct AsyncClient {
    /// Takes the payloads from the server.
    pub from_server_sender: mpsc::Sender<Bytes>,
    /// Gives the payloads for the server.
    pub to_server_receiver: mpsc::Receiver<Bytes>,
    /// Takes the messages for the client.
    pub to_sync_client: mpsc::Sender<InternalAsyncMessage>,
    /// Gives the messages of the client.
    pub from_sync_client: mpsc::Receiver<InternalSyncMessage>,
    /// Closes the streams of the connection.
    pub close_sender: broadcast::Sender<()>,
    /// Tells the sending task when to close.
    pub close_receiver: broadcast::Receiver<()>,
    /// Tells the listening task when to close.
    pub listener_close_receiver: broadcast::Receiver<()>,
}

/// The two halves of one payload queue with room for `size` payloads.
pub closed spec fn payload_queue(
    size: usize,
    sender: mpsc::Sender<Bytes>,
    receiver: mpsc::Receiver<Bytes>,
) -> bool {
    call_ensures(payload_channel, (size,), (sender, receiver))
}

/// The two halves of one queue with room for `size` messages of the connection
/// task.
pub closed spec fn message_queue(
    size: usize,
    sender: mpsc::Sender<InternalAsyncMessage>,
    receiver: mpsc::Receiver<InternalAsyncMessage>,
) -> bool {
    call_ensures(message_channel, (size,), (sender, receiver))
}

/// The two halves of one queue with room for `size` requests of the client.
pub closed spec fn request_queue(
    size: usize,
    sender: mpsc::Sender<InternalSyncMessage>,
    receiver: mpsc::Receiver<InternalSyncMessage>,
) -> bool {
    call_ensures(request_channel, (size,), (sender, receiver))
}

/// The first two halves of one close channel with room for `size` signals.
pub closed spec fn close_signals(
    size: usize,
    sender: broadcast::Sender<()>,
    receiver: broadcast::Receiver<()>,
) -> bool {
    call_ensures(close_channel, (size,), (sender, receiver))
}

/// `other` is a further handle on the close channel of `sender`.
pub closed spec fn same_close_channel(
    sender: broadcast::Sender<()>,
    other: broadcast::Sender<()>,
) -> bool {
    call_ensures(another_close_sender, (&sender,), other)
}

/// `receiver` is a further receiver on the close channel of `sender`.
pub open spec fn subscribed(
    sender: broadcast::Sender<()>,
    receiver: broadcast::Receiver<()>,
) -> bool {
    call_ensures(broadcast::Sender::<()>::subscribe, (&sender,), receiver)
}

/// The client and the connection task hold the two ends of each channel. On
/// the close channel, the sending task and the listening task each have a
/// receiver of their own.
pub open spec fn wired(client: ClientView, task: AsyncClient) -> bool {
    &&& payload_queue(DEFAULT_MESSAGE_QUEUE_SIZE, task.from_server_sender, client.receiver)
    &&& payload_queue(DEFAULT_MESSAGE_QUEUE_SIZE, client.sender, task.to_server_receiver)
    &&& message_queue(
        DEFAULT_INTERNAL_MESSAGE_CHANNEL_SIZE,
        task.to_sync_client,
        client.internal_receiver,
    )
    &&& request_queue(
        DEFAULT_INTERNAL_MESSAGE_CHANNEL_SIZE,
        client.internal_sender,
        task.from_sync_client,
    )
    &&& close_signals(DEFAULT_KILL_MESSAGE_QUEUE_SIZE, task.close_sender, task.close_receiver)
    &&& subscribed(task.close_sender, task.listener_close_receiver)
    &&& same_close_channel(task.close_sender, client.close_sender)
}

/// No handle of the client has been used yet.
pub open spec fn unused(client: ClientView) -> bool {
    &&& payload_answers(client.receiver).len() == 0
    &&& message_answers(client.internal_receiver).len() == 0
    &&& close_answers(client.close_sender).len() == 0
}

/// The ends of a client and its task come each from the call that makes its
/// channel, so they are fresh.
pub(crate) proof fn ends_come_from_their_calls(client: ClientView, task: AsyncClient)
    requires
        wired(client, task),
    ensures
        call_ensures(
            payload_channel,
            (DEFAULT_MESSAGE_QUEUE_SIZE,),
            (task.from_server_sender, client.receiver),
        ),
        call_ensures(
            payload_channel,
            (DEFAULT_MESSAGE_QUEUE_SIZE,),
            (client.sender, task.to_server_receiver),
        ),
        call_ensures(
            message_channel,
            (DEFAULT_INTERNAL_MESSAGE_CHANNEL_SIZE,),
            (task.to_sync_client, client.internal_receiver),
        ),
        call_ensures(
            request_channel,
            (DEFAULT_INTERNAL_MESSAGE_CHANNEL_SIZE,),
            (client.internal_sender, task.from_sync_client),
        ),
        call_ensures(
            close_channel,
            (DEFAULT_KILL_MESSAGE_QUEUE_SIZE,),
            (task.close_sender, task.close_receiver),
        ),
        call_ensures(
            broadcast::Sender::<()>::subscribe,
            (&task.close_sender,),
            task.listener_close_receiver,
        ),
        call_ensures(another_close_sender, (&task.close_sender,), client.close_sender),
        payload_answers(client.receiver).len() == 0,
        message_answers(client.internal_receiver).len() == 0,
        close_answers(client.close_sender).len() == 0,
{
}

/// Sets up a client, not connected yet, and the ends that its connection task
/// works with. Both receivers of the close channel are there before the client
/// can send a signal.
pub fn start_async_client() -> (res: (Client, AsyncClient))
    ensures
        res.0@.state == ClientState::Disconnected,
        wired(res.0@, res.1),
        unused(res.0@),
        payload_answers(res.1.to_server_receiver).len() == 0,
        close_answers(res.1.close_sender).len() == 0,
{
    let (from_server_sender, from_server_receiver) = payload_channel(DEFAULT_MESSAGE_QUEUE_SIZE);
    let (to_server_sender, to_server_receiver) = payload_channel(DEFAULT_MESSAGE_QUEUE_SIZE);

    let (to_sync_client, from_async_client) = message_channel(
        DEFAULT_INTERNAL_MESSAGE_CHANNEL_SIZE,
    );
    let (to_async_client, from_sync_client) = request_channel(
        DEFAULT_INTERNAL_MESSAGE_CHANNEL_SIZE,
    );

    let (close_sender, close_receiver) = close_channel(DEFAULT_KILL_MESSAGE_QUEUE_SIZE);
    let listener_close_receiver = close_sender.subscribe();

    let client = Client {
        state: ClientState::Disconnected,
        sender: to_server_sender,
        receiver: from_server_receiver,
        close_sender: another_close_sender(&close_sender),
        internal_receiver: from_async_client,
        internal_sender: to_async_client,
    };
    let task = AsyncClient {
        from_server_sender,
        to_server_receiver,
        to_sync_client,
        from_sync_client,
        close_sender,
        close_receiver,
        listener_close_receiver,
    };
    (client, task)
}

/// Adds a client to an application.
#[derive(Debug)]
pub struct QuinnetClientPlugin {}

impl Default for QuinnetClientPlugin {
    fn default() -> (res: Self)
        ensures
            res == (QuinnetClientPlugin {}),
    {
        Self {}
    }
}

} // verus!
