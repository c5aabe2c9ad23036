//! What holds of a client over more than one call, and of a client and its
//! connection task together.

use vstd::prelude::*;

use bytes::Bytes;
use tokio::sync::mpsc;

use crate::address::{address_has_its_parts, decimal_value};
use crate::certificate::{
    configure_step, CertificateVerificationMode, ClientCrypto, ConfigureStep,
};
use crate::channel::{
    close_answers, contents, message_answers, payload_answers, ReceiveRefusal, SendRefusal,
};
use crate::client::{
    close_signals, connect_outcome, decode_outcome, disconnect_effect, drained, encoded_outcome,
    ends_come_from_their_calls, event_of, events_of, message_outcome, message_queue, next_state,
    offer_is_the_call, offered, payload_offered, payload_queue, receive_effect, receive_outcome,
    received, request_queue, same_close_channel, send_outcome, state_after, subscribed, unused,
    wired, AsyncClient, ClientConfigurationData, ClientEvent, ClientState, ClientView,
    ConnectionEvent, ConnectionLostEvent, InternalAsyncMessage, InternalSyncMessage, MadeFrom,
};
use crate::connection::{
    connection_run, follows, stages_in_order, told, told_once, ConnectionAction, ConnectionOutcome,
};
use crate::error::QuinnetError;
use crate::streams::{
    listen_run, listening_ends_for_good, lost_only_after_failure, only_losses_are_told, send_run,
    send_told, sending_ends_for_good, ListenAction, ListenOutcome, SendAction, SendOutcome,
    StreamEnd,
};

verus! {

/// Of the messages taken up at once, the last one about the connection decides
/// the state; without such a message the state stays.
pub proof fn last_status_decides(state: ClientState, messages: Seq<InternalAsyncMessage>, last: int)
    requires
        -1 <= last < messages.len(),
        forall|i: int|
            last < i < messages.len() ==> {
                &&& !(#[trigger] messages[i] is Connected)
                &&& !(messages[i] is LostConnection)
            },
        last >= 0 ==> messages[last] is Connected || messages[last] is LostConnection,
    ensures
        last >= 0 && messages[last] is Connected ==> state_after(state, messages)
            == ClientState::Connected,
        last >= 0 && messages[last] is LostConnection ==> state_after(state, messages)
            == ClientState::Disconnected,
        last < 0 ==> state_after(state, messages) == state,
    decreases messages.len(),
{
    if messages.len() > 0 && last < messages.len() - 1 {
        let earlier = messages.drop_last();
        assert(forall|i: int| 0 <= i < earlier.len() ==> earlier[i] == messages[i]);
        assert(messages.last() == messages[messages.len() - 1]);
        last_status_decides(state, earlier, last);
    }
}

/// Taking up messages in two updates comes to the same as in one: the same
/// state, and the same events in the same order.
pub proof fn updates_compose(
    state: ClientState,
    first: Seq<InternalAsyncMessage>,
    second: Seq<InternalAsyncMessage>,
)
    ensures
        state_after(state_after(state, first), second) == state_after(state, first + second),
        events_of(first) + events_of(second) == events_of(first + second),
    decreases second.len(),
{
    assert(events_of(first) + events_of(second) =~= events_of(first + second));
    if second.len() == 0 {
        assert(first + second =~= first);
    } else {
        updates_compose(state, first, second.drop_last());
        assert((first + second).drop_last() =~= first + second.drop_last());
    }
}

/// A disconnected client that is disconnected again answers that it is, sends
/// no signal through its own handle, and stays as it was.
pub proof fn disconnect_twice(
    start: ClientView,
    middle: ClientView,
    end: ClientView,
    again: Result<(), QuinnetError>,
)
    requires
        disconnect_effect(start, middle, Ok(())),
        disconnect_effect(middle, end, again),
    ensures
        middle.state == ClientState::Disconnected,
        again == Ok::<(), QuinnetError>(()),
        end == middle,
{
}

/// A refused disconnection leaves the client connected, and comes only from a
/// client that was.
pub proof fn refused_disconnect_keeps_the_connection(
    start: ClientView,
    end: ClientView,
    error: QuinnetError,
)
    requires
        disconnect_effect(start, end, Err(error)),
    ensures
        error == QuinnetError::ChannelClosed,
        start.state == ClientState::Connected,
        end.state == ClientState::Connected,
{
}

/// Once the payload queue has been reported closed it is reported closed on
/// every later attempt.
pub proof fn closed_stays_closed(
    start: ClientView,
    middle: ClientView,
    end: ClientView,
    again: Result<Option<Bytes>, QuinnetError>,
)
    requires
        receive_effect(start, middle, Err(QuinnetError::ChannelClosed)),
        receive_effect(middle, end, again),
    ensures
        again == Err::<Option<Bytes>, QuinnetError>(QuinnetError::ChannelClosed),
{
    let answer = choose|answer: Result<Bytes, ReceiveRefusal>| #[trigger]
        received(start, middle, answer) && Err::<Option<Bytes>, QuinnetError>(
            QuinnetError::ChannelClosed,
        ) == receive_outcome(answer);
    assert(payload_answers(middle.receiver).last() == answer);
}

/// A message that was encoded and sent is what is received from its payload,
/// wherever decoding undoes encoding.
pub proof fn message_round_trip<T, E, D, Enc, Dec>(
    message: T,
    encode: Enc,
    encoded: Vec<u8>,
    payload: Bytes,
    decode: Dec,
    res: Result<Option<T>, QuinnetError>,
) where Enc: FnOnce(&T) -> Result<Vec<u8>, E>, Dec: FnOnce(&Bytes) -> Result<T, D>
    requires
        forall|bytes: Vec<u8>, buffer: Bytes, decoded: Result<T, D>|
            #![trigger call_ensures(encode, (&message,), Ok(bytes)), call_ensures(decode, (&buffer,), decoded)]
            call_ensures(encode, (&message,), Ok(bytes)) && contents(buffer) == bytes@
                && call_ensures(decode, (&buffer,), decoded) ==> decoded == Ok::<T, D>(message),
        call_ensures(encode, (&message,), Ok(encoded)),
        contents(payload) == encoded@,
        message_outcome(decode, Ok(payload), res),
    ensures
        res == Ok::<Option<T>, QuinnetError>(Some(message)),
{
}

/// Once the connection task is found gone, later updates raise nothing and
/// leave the state.
pub proof fn gone_task_stays_silent(
    start: ClientView,
    middle: ClientView,
    end: ClientView,
    first: Seq<InternalAsyncMessage>,
    second: Seq<InternalAsyncMessage>,
    refusal: ReceiveRefusal,
)
    requires
        drained(start, middle, first, ReceiveRefusal::Disconnected),
        drained(middle, end, second, refusal),
    ensures
        events_of(second) == Seq::<ClientEvent>::empty(),
        end.state == middle.state,
{
    assert(message_answers(middle.internal_receiver).last()
        == Err::<InternalAsyncMessage, ReceiveRefusal>(ReceiveRefusal::Disconnected));
    assert(message_answers(middle.internal_receiver).contains(
        Err::<InternalAsyncMessage, ReceiveRefusal>(ReceiveRefusal::Disconnected),
    ));
    assert(events_of(second) =~= Seq::<ClientEvent>::empty());
}

/// What the connection task tells the client once connected makes the client
/// connected, and raises a connection event.
pub proof fn connecting_reaches_the_client(
    actions: Seq<ConnectionAction>,
    outcomes: Seq<ConnectionOutcome>,
    i: int,
    state: ClientState,
)
    requires
        connection_run(actions, outcomes),
        0 <= i < actions.len(),
        actions[i] is Signal,
    ensures
        next_state(state, actions[i]->Signal_0) == ClientState::Connected,
        event_of(actions[i]->Signal_0) == ClientEvent::Connection(ConnectionEvent),
{
    stages_in_order(actions, outcomes, i);
}

/// What the sending task tells the client once a frame could not be sent makes
/// the client disconnected, and raises a connection lost event.
pub proof fn losing_reaches_the_client(
    actions: Seq<SendAction>,
    outcomes: Seq<SendOutcome>,
    i: int,
    state: ClientState,
)
    requires
        send_run(actions, outcomes),
        0 <= i < actions.len(),
        actions[i] is Signal,
    ensures
        next_state(state, actions[i]->Signal_0) == ClientState::Disconnected,
        event_of(actions[i]->Signal_0) == ClientEvent::ConnectionLost(ConnectionLostEvent),
{
    lost_only_after_failure(actions, outcomes, i);
}

/// Over a connection and its streams, the client is told first and once that it
/// is connected, and after that of lost connections only.
pub proof fn connected_before_lost(
    actions: Seq<ConnectionAction>,
    outcomes: Seq<ConnectionOutcome>,
    send_actions: Seq<SendAction>,
    send_outcomes: Seq<SendOutcome>,
)
    requires
        connection_run(actions, outcomes),
        actions.last() is RunStreams,
        send_run(send_actions, send_outcomes),
    ensures
        ({
            let all = told(actions) + send_told(send_actions);
            &&& all.len() > 0
            &&& all[0] == InternalAsyncMessage::Connected(None)
            &&& forall|i: int|
                0 < i < all.len() ==> #[trigger] all[i] == InternalAsyncMessage::LostConnection
        }),
{
    told_once(actions, outcomes);
    let all = told(actions) + send_told(send_actions);
    assert forall|i: int| 0 < i < all.len() implies #[trigger] all[i]
        == InternalAsyncMessage::LostConnection by {
        only_losses_are_told(send_actions, send_outcomes, i - 1);
    }
}

/// A call on a client, and what it met.
pub enum ClientCall {
    /// A call that shares the client: `connect`, `send_payload`,
    /// `send_message` or `is_connected`.
    Shared,
    /// `receive_payload` or `receive_message`.
    Receive { answer: Result<Bytes, ReceiveRefusal> },
    /// `disconnect`.
    Disconnect { res: Result<(), QuinnetError> },
    /// `update_sync_client`.
    Update { messages: Seq<InternalAsyncMessage>, refusal: ReceiveRefusal },
    /// `apply_message`.
    Apply { message: InternalAsyncMessage },
}

/// How a call takes a client from `pre` to `post`.
pub open spec fn call_effect(pre: ClientView, post: ClientView, call: ClientCall) -> bool {
    match call {
        ClientCall::Shared => post == pre,
        ClientCall::Receive { answer } => received(pre, post, answer),
        ClientCall::Disconnect { res } => disconnect_effect(pre, post, res),
        ClientCall::Update { messages, refusal } => drained(pre, post, messages, refusal),
        ClientCall::Apply { message } => post == ClientView {
            state: next_state(pre.state, message),
            ..pre
        },
    }
}

/// Calls on a client that was not connected at the start, and the client
/// before, between and after them.
pub open spec fn history(views: Seq<ClientView>, calls: Seq<ClientCall>) -> bool {
    &&& views.len() == calls.len() + 1
    &&& views[0].state == ClientState::Disconnected
    &&& forall|i: int|
        0 <= i < calls.len() ==> call_effect(views[i], views[i + 1], #[trigger] calls[i])
}

/// The news about the connection in a message.
pub open spec fn message_news(message: InternalAsyncMessage) -> Seq<ClientState> {
    match message {
        InternalAsyncMessage::Connected(_) => seq![ClientState::Connected],
        InternalAsyncMessage::LostConnection => seq![ClientState::Disconnected],
        _ => Seq::empty(),
    }
}

/// The news about the connection in messages, in order.
pub open spec fn messages_news(messages: Seq<InternalAsyncMessage>) -> Seq<ClientState>
    decreases messages.len(),
{
    if messages.len() == 0 {
        Seq::empty()
    } else {
        messages_news(messages.drop_last()) + message_news(messages.last())
    }
}

/// The news about the connection in a call: that of the messages it handled, or
/// that it disconnected.
pub open spec fn call_news(call: ClientCall) -> Seq<ClientState> {
    match call {
        ClientCall::Disconnect { res: Ok(_) } => seq![ClientState::Disconnected],
        ClientCall::Update { messages, .. } => messages_news(messages),
        ClientCall::Apply { message } => message_news(message),
        _ => Seq::empty(),
    }
}

/// The news about the connection in calls, in order.
pub open spec fn news(calls: Seq<ClientCall>) -> Seq<ClientState>
    decreases calls.len(),
{
    if calls.len() == 0 {
        Seq::empty()
    } else {
        news(calls.drop_last()) + call_news(calls.last())
    }
}

/// The state that messages lead to is their latest news, if there is any.
pub proof fn messages_follow_the_news(state: ClientState, messages: Seq<InternalAsyncMessage>)
    ensures
        state_after(state, messages) == if messages_news(messages).len() == 0 {
            state
        } else {
            messages_news(messages).last()
        },
    decreases messages.len(),
{
    if messages.len() > 0 {
        messages_follow_the_news(state, messages.drop_last());
    }
}

/// After any calls on a client that was not connected at the start, it is
/// connected if and only if the latest news, a handled message or a successful
/// disconnection, was that it is.
pub proof fn latest_news_decides(views: Seq<ClientView>, calls: Seq<ClientCall>)
    requires
        history(views, calls),
    ensures
        views.last().state is Connected <==> news(calls).len() > 0 && news(calls).last()
            == ClientState::Connected,
    decreases calls.len(),
{
    if calls.len() > 0 {
        let n = calls.len() - 1;
        let call = calls[n];
        assert(call_effect(views[n], views[n + 1], calls[n]));
        assert forall|i: int| 0 <= i < calls.drop_last().len() implies call_effect(
            views.drop_last()[i],
            views.drop_last()[i + 1],
            #[trigger] calls.drop_last()[i],
        ) by {
            assert(calls[i] == calls.drop_last()[i]);
        }
        latest_news_decides(views.drop_last(), calls.drop_last());
        assert(views.drop_last().last() == views[n]);
        if let ClientCall::Update { messages, .. } = call {
            messages_follow_the_news(views[n].state, messages);
        }
    }
}

/// Payloads that wait to be received are not touched by disconnecting or by
/// news of the connection: the next attempt asks the same queue, and leaves the
/// state.
pub proof fn waiting_payloads_are_untouched(
    start: ClientView,
    middle: ClientView,
    end: ClientView,
    call: ClientCall,
    answer: Result<Bytes, ReceiveRefusal>,
)
    requires
        call is Disconnect || call is Update || call is Apply || call is Shared,
        call_effect(start, middle, call),
        received(middle, end, answer),
    ensures
        middle.receiver == start.receiver,
        payload_answers(end.receiver) == payload_answers(start.receiver).push(answer),
        end.state == middle.state,
{
}

/// A successful disconnection of a connected client, after any calls since it
/// was set up, sends one signal through its handle on the close channel, which
/// somebody was there to get; the sending task and the listening task each have
/// a receiver on that channel since the client was set up; and each of them ends once the signal has come to it, the listening task with all its
/// readers. That a signal sent comes to every receiver is left to the channel.
pub proof fn disconnect_ends_the_tasks(
    views: Seq<ClientView>,
    calls: Seq<ClientCall>,
    task: AsyncClient,
    post: ClientView,
    send_actions: Seq<SendAction>,
    send_outcomes: Seq<SendOutcome>,
    i: int,
    listen_actions: Seq<ListenAction>,
    listen_outcomes: Seq<ListenOutcome>,
    j: int,
)
    requires
        history(views, calls),
        wired(views[0], task),
        views.last().state is Connected,
        disconnect_effect(views.last(), post, Ok(())),
        send_run(send_actions, send_outcomes),
        0 <= i < send_outcomes.len(),
        send_outcomes[i] is CloseRequested,
        listen_run(listen_actions, listen_outcomes),
        0 <= j < listen_outcomes.len(),
        listen_outcomes[j] is CloseRequested,
    ensures
        subscribed(task.close_sender, task.listener_close_receiver),
        post.state == ClientState::Disconnected,
        close_answers(post.close_sender).len() == close_answers(views.last().close_sender).len()
            + 1,
        close_answers(post.close_sender).last() matches Ok(receivers) && receivers > 0,
        i == send_outcomes.len() - 1,
        send_actions.last() == SendAction::Finish(StreamEnd::Forced),
        listen_actions[j + 1] == ListenAction::ShutdownReaders(StreamEnd::Forced),
        j + 1 < listen_outcomes.len() ==> listen_actions.last() is Finish,
{
    sending_ends_for_good(send_actions, send_outcomes, i);
    listening_ends_for_good(listen_actions, listen_outcomes, j);
}

/// A message raises the event that is meant for it, with all that it carries.
pub proof fn messages_raise_their_events(state: ClientState, message: InternalAsyncMessage)
    ensures
        message is Connected <==> event_of(message) is Connection,
        message is LostConnection <==> event_of(message) is ConnectionLost,
        message matches InternalAsyncMessage::CertificateActionRequest { status, action_sender }
            ==> {
            &&& event_of(message) matches ClientEvent::CertificateInteraction(raised)
            &&& raised.status == status
            &&& raised.action_sender == action_sender
        },
        message matches InternalAsyncMessage::TrustedCertificateUpdate { server_name, fingerprint }
            ==> {
            &&& event_of(message) matches ClientEvent::CertificateUpdate(raised)
            &&& raised.server_name == server_name
            &&& raised.fingerprint == fingerprint
        },
        next_state(state, message) is Connected <==> message is Connected || (state is Connected
            && !(message is LostConnection)),
{
}

/// Two messages about certificates raise the same event only if they are the
/// same message: nothing that such a message carries is lost or exchanged.
pub proof fn certificate_events_tell_messages_apart(
    first: InternalAsyncMessage,
    second: InternalAsyncMessage,
)
    requires
        first is CertificateActionRequest || first is TrustedCertificateUpdate,
        event_of(first) == event_of(second),
    ensures
        first == second,
{
}

/// An update takes messages until it is refused one, and each message it takes
/// raises its own event; the latest event about the connection decides the
/// state.
pub proof fn updates_raise_what_was_taken(
    pre: ClientView,
    post: ClientView,
    messages: Seq<InternalAsyncMessage>,
    refusal: ReceiveRefusal,
)
    requires
        drained(pre, post, messages, refusal),
    ensures
        ({
            let before = message_answers(pre.internal_receiver);
            let after = message_answers(post.internal_receiver);
            let events = events_of(messages);
            &&& events.len() == messages.len()
            &&& after.len() == before.len() + events.len() + 1
            &&& after.take(before.len() as int) == before
            &&& after.last() is Err
            &&& forall|i: int|
                0 <= i < events.len() ==> {
                    &&& after[before.len() + i] matches Ok(message)
                    &&& message == messages[i]
                    &&& #[trigger] events[i] == event_of(message)
                }
            &&& forall|i: int|
                0 <= i < events.len() && (#[trigger] events[i] is Connection
                    || events[i] is ConnectionLost) && (forall|j: int|
                    i < j < events.len() ==> !(#[trigger] events[j] is Connection)
                        && !(events[j] is ConnectionLost)) ==> (post.state is Connected
                    <==> events[i] is Connection)
            &&& (forall|j: int|
                0 <= j < events.len() ==> !(#[trigger] events[j] is Connection)
                    && !(events[j] is ConnectionLost)) ==> post.state == pre.state
        }),
        post.sender == pre.sender,
        post.receiver == pre.receiver,
        post.close_sender == pre.close_sender,
        post.internal_sender == pre.internal_sender,
{
    let before = message_answers(pre.internal_receiver);
    let after = message_answers(post.internal_receiver);
    let events = events_of(messages);
    assert(after.take(before.len() as int) =~= before);
    assert forall|i: int|
        0 <= i < events.len() && (#[trigger] events[i] is Connection || events[i] is ConnectionLost)
            && (forall|j: int|
            i < j < events.len() ==> !(#[trigger] events[j] is Connection)
                && !(events[j] is ConnectionLost)) implies (post.state is Connected
        <==> events[i] is Connection) by {
        assert forall|j: int| i < j < messages.len() implies {
            &&& !(#[trigger] messages[j] is Connected)
            &&& !(messages[j] is LostConnection)
        } by {
            assert(events[j] == event_of(messages[j]));
        }
        assert(events[i] == event_of(messages[i]));
        last_status_decides(pre.state, messages, i);
    }
    if forall|j: int|
        0 <= j < events.len() ==> !(#[trigger] events[j] is Connection)
            && !(events[j] is ConnectionLost) {
        assert forall|j: int| -1 < j < messages.len() implies {
            &&& !(#[trigger] messages[j] is Connected)
            &&& !(messages[j] is LostConnection)
        } by {
            assert(events[j] == event_of(messages[j]));
        }
        last_status_decides(pre.state, messages, -1);
    }
}

/// Every answer of the payload queue comes out of `receive_payload`: a payload
/// that was taken is handed on, whatever the state of the client, and nothing is
/// handed on that was not taken.
pub proof fn no_received_payload_is_lost(
    pre: ClientView,
    post: ClientView,
    res: Result<Option<Bytes>, QuinnetError>,
)
    requires
        receive_effect(pre, post, res),
    ensures
        payload_answers(post.receiver).len() == payload_answers(pre.receiver).len() + 1,
        payload_answers(post.receiver).drop_last() == payload_answers(pre.receiver),
        payload_answers(post.receiver).last() matches Ok(payload) ==> res == Ok::<
            Option<Bytes>,
            QuinnetError,
        >(Some(payload)),
        res matches Ok(Some(payload)) ==> payload_answers(post.receiver).last() == Ok::<
            Bytes,
            ReceiveRefusal,
        >(payload),
        payload_answers(post.receiver).last() == Err::<Bytes, ReceiveRefusal>(ReceiveRefusal::Empty)
            <==> res == Ok::<Option<Bytes>, QuinnetError>(None),
        payload_answers(post.receiver).last() == Err::<Bytes, ReceiveRefusal>(
            ReceiveRefusal::Disconnected,
        ) <==> res is Err,
        res is Err ==> res->Err_0 is ChannelClosed,
        post == (ClientView { receiver: post.receiver, ..pre }),
{
    let answer = choose|answer: Result<Bytes, ReceiveRefusal>| #[trigger]
        received(pre, post, answer) && res == receive_outcome(answer);
    assert(payload_answers(post.receiver).last() == answer);
    assert(payload_answers(post.receiver).drop_last() =~= payload_answers(pre.receiver));
}

/// What `receive_message` hands on is what decoding made of the payload that
/// was taken; only a payload is decoded, and only decoding can fail to give a
/// message.
pub proof fn received_messages_are_decoded_payloads<T, E, F: FnOnce(&Bytes) -> Result<T, E>>(
    decode: F,
    answer: Result<Bytes, ReceiveRefusal>,
    res: Result<Option<T>, QuinnetError>,
)
    requires
        message_outcome(decode, answer, res),
    ensures
        answer matches Ok(payload) ==> {
            &&& res matches Ok(received) ==> {
                &&& received matches Some(message)
                &&& call_ensures(decode, (&payload,), Ok(message))
            }
            &&& res matches Err(error) ==> {
                &&& error is Deserialization
                &&& exists|e: E| #[trigger] call_ensures(decode, (&payload,), Err(e))
            }
        },
        answer is Err ==> {
            &&& res is Ok <==> answer->Err_0 is Empty
            &&& res matches Ok(received) ==> received is None
            &&& res matches Err(error) ==> error is ChannelClosed
        },
{
    if let Ok(payload) = answer {
        let decoded = choose|decoded: Result<T, E>| #[trigger]
            call_ensures(decode, (&payload,), decoded) && res == decode_outcome(decoded);
        if let Err(e) = decoded {
            assert(call_ensures(decode, (&payload,), Err(e)));
        }
    }
}

/// A connection request is reported as taken if and only if the queue took it;
/// one that was not taken is reported as a full queue.
pub proof fn requests_are_reported(answer: Result<(), SendRefusal<InternalSyncMessage>>)
    ensures
        connect_outcome(answer) is Ok <==> answer is Ok,
        connect_outcome(answer) matches Err(error) ==> error is FullQueue,
{
}

/// A queue that refuses a message hands back that very message, for requests
/// and payloads alike.
pub proof fn refused_messages_come_back<T>(
    sender: mpsc::Sender<T>,
    message: T,
    answer: Result<(), SendRefusal<T>>,
)
    requires
        offered(sender, message, answer),
    ensures
        answer matches Err(SendRefusal::Full(m)) ==> m == message,
        answer matches Err(SendRefusal::Closed(m)) ==> m == message,
{
    offer_is_the_call(sender, message, answer);
}

/// A payload is reported as taken if and only if the queue took it, as refused
/// for want of room if and only if there was none, and as refused for good if
/// and only if the queue is closed.
pub proof fn payloads_are_reported(
    sender: mpsc::Sender<Bytes>,
    payload: Bytes,
    res: Result<(), QuinnetError>,
)
    requires
        payload_offered(sender, payload, res),
    ensures
        exists|answer: Result<(), SendRefusal<Bytes>>| #[trigger]
            offered(sender, payload, answer) && match answer {
                Ok(_) => res is Ok,
                Err(SendRefusal::Full(_)) => res matches Err(QuinnetError::FullQueue),
                Err(SendRefusal::Closed(_)) => res matches Err(QuinnetError::ChannelClosed),
            },
{
}

/// An encoded message is offered byte for byte, and reported as the queue
/// answered; a message that could not be encoded is reported as such.
pub proof fn encoded_messages_are_offered_unchanged<E>(
    sender: mpsc::Sender<Bytes>,
    encoded: Result<Vec<u8>, E>,
    res: Result<(), QuinnetError>,
)
    requires
        encoded_outcome(sender, encoded, res),
    ensures
        res matches Err(QuinnetError::Serialization) <==> encoded is Err,
        res matches Err(QuinnetError::Deserialization) ==> false,
        encoded matches Ok(bytes) ==> exists|
            payload: Bytes,
            answer: Result<(), SendRefusal<Bytes>>,
        | #[trigger]
            offered(sender, payload, answer) && contents(payload) == bytes@ && (res is Ok
                <==> answer is Ok),
{
    if let Ok(bytes) = encoded {
        let payload = choose|payload: Bytes| #[trigger]
            payload_offered(sender, payload, res) && contents(payload) == <Bytes as MadeFrom<
                Vec<u8>,
            >>::octets(bytes);
        let answer = choose|answer: Result<(), SendRefusal<Bytes>>| #[trigger]
            offered(sender, payload, answer) && res == send_outcome(answer);
        assert(offered(sender, payload, answer));
    }
}

/// Disconnecting leaves the client disconnected exactly if it succeeds. A
/// client that is connected sends one signal, and succeeds exactly if it was
/// heard; one that is not connected always succeeds and is left alone.
pub proof fn disconnecting_does_what_it_reports(
    pre: ClientView,
    post: ClientView,
    res: Result<(), QuinnetError>,
)
    requires
        disconnect_effect(pre, post, res),
    ensures
        post.state is Disconnected <==> res is Ok,
        res matches Err(error) ==> error is ChannelClosed,
        pre.state is Disconnected ==> res is Ok && post == pre,
        pre.state is Connected ==> {
            &&& close_answers(post.close_sender).len() == close_answers(pre.close_sender).len() + 1
            &&& close_answers(post.close_sender).drop_last() == close_answers(pre.close_sender)
            &&& res is Ok <==> close_answers(post.close_sender).last() is Ok
        },
        post == (ClientView { state: post.state, close_sender: post.close_sender, ..pre }),
{
    if pre.state is Connected {
        assert(close_answers(post.close_sender).drop_last() =~= close_answers(pre.close_sender));
    }
}

/// The ends of a fresh client and its task go together as they are meant to,
/// with the sizes they are meant to have, and none of them has been used.
pub proof fn fresh_ends_go_together(client: ClientView, task: AsyncClient)
    requires
        wired(client, task),
    ensures
        payload_queue(150, task.from_server_sender, client.receiver),
        payload_queue(150, client.sender, task.to_server_receiver),
        message_queue(100, task.to_sync_client, client.internal_receiver),
        request_queue(100, client.internal_sender, task.from_sync_client),
        close_signals(10, task.close_sender, task.close_receiver),
        subscribed(task.close_sender, task.listener_close_receiver),
        same_close_channel(task.close_sender, client.close_sender),
        unused(client),
        payload_answers(client.receiver) == Seq::<Result<Bytes, ReceiveRefusal>>::empty(),
        message_answers(client.internal_receiver) == Seq::<
            Result<InternalAsyncMessage, ReceiveRefusal>,
        >::empty(),
        close_answers(client.close_sender) == Seq::<Result<usize, ()>>::empty(),
{
    ends_come_from_their_calls(client, task);
}

/// What a trust-on-first-use mode asks for goes through to the transport: the
/// known hosts that are loaded are its own, and the behaviour for each status is
/// its own. The other modes load nothing, and each asks for its own kind of
/// verification.
pub proof fn verification_is_as_asked(mode: CertificateVerificationMode)
    ensures
        mode is SkipVerification <==> configure_step(mode) == ConfigureStep::Ready(
            ClientCrypto::SkipServerVerification,
        ),
        mode is SignedByCertificateAuthority <==> configure_step(mode) == ConfigureStep::Ready(
            ClientCrypto::NativeRoots,
        ),
        mode matches CertificateVerificationMode::TrustOnFirstUse(config) ==> {
            &&& configure_step(mode) matches ConfigureStep::LoadKnownHosts {
                known_hosts,
                verifier_behaviour,
            }
            &&& known_hosts == config.known_hosts
            &&& verifier_behaviour.unknown == config.verifier_behaviour.unknown
            &&& verifier_behaviour.untrusted == config.verifier_behaviour.untrusted
            &&& verifier_behaviour.trusted == config.verifier_behaviour.trusted
        },
{
}

/// Two verification modes are set up alike only if they are the same mode, with
/// the same known hosts and the same behaviours.
pub proof fn setups_tell_modes_apart(
    first: CertificateVerificationMode,
    second: CertificateVerificationMode,
)
    requires
        configure_step(first) == configure_step(second),
    ensures
        first == second,
{
}

/// A connection is laid out as its request says: the server is sought at its
/// host and port and has to answer to its host, the local end is at its own
/// host and port, and certificates are verified in the mode that was asked for.
pub proof fn connections_are_laid_out_as_requested(
    config: ClientConfigurationData,
    cert_mode: CertificateVerificationMode,
    action: ConnectionAction,
)
    requires
        follows(
            ConnectionOutcome::Request(Some(InternalSyncMessage::Connect { config, cert_mode })),
            action,
        ),
    ensures
        action matches ConnectionAction::Connect(plan) && {
            &&& plan.server_name@ == config@.server_host
            &&& plan.server_address@.len() > config@.server_host.len()
            &&& plan.server_address@.take(config@.server_host.len() as int)
                == config@.server_host
            &&& plan.server_address@[config@.server_host.len() as int] == ':'
            &&& decimal_value(plan.server_address@.skip(config@.server_host.len() as int + 1))
                == config@.server_port
            &&& plan.local_bind_address@.len() > config@.local_bind_host.len()
            &&& plan.local_bind_address@.take(config@.local_bind_host.len() as int)
                == config@.local_bind_host
            &&& plan.local_bind_address@[config@.local_bind_host.len() as int] == ':'
            &&& decimal_value(
                plan.local_bind_address@.skip(config@.local_bind_host.len() as int + 1),
            ) == config@.local_bind_port
            &&& plan.setup == configure_step(cert_mode)
        },
{
    address_has_its_parts(config@.server_host, config@.server_port);
    address_has_its_parts(config@.local_bind_host, config@.local_bind_port);
}

} // verus!
