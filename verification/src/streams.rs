//! The streams of an established connection.
//!
//! One task sends the payloads of the client, one waits for streams of the
//! server, and one per stream reads payloads. Each is written as steps: whoever
//! runs it performs an action and hands back what came of it.

use vstd::prelude::*;

use bytes::Bytes;

use crate::client::InternalAsyncMessage;

verus! {

/// How a task came to its end.
#[derive(Debug, Clone, Copy, PartialEq, Eq, Structural)]
pub enum StreamEnd {
    /// The streams were told to close.
    Forced,
    /// There was nothing left to do.
    Ended,
}

/// What the sending task does.
#[derive(Debug)]
pub enum SendAction {
    /// Wait for a payload of the client.
    AwaitOutgoing,
    /// Send a payload as one frame.
    SendFrame(Bytes),
    /// Tell all streams to close.
    BroadcastClose,
    /// Tell the client.
    Signal(InternalAsyncMessage),
    /// Nothing more.
    Finish(StreamEnd),
    /// Give up the task.
    Abort,
}

/// What came of an action of the sending task.
#[derive(Debug)]
pub enum SendOutcome {
    /// The streams were told to close, whatever the task was waiting for.
    CloseRequested,
    /// A payload of the client, or none if the client is gone.
    Outgoing(Option<Bytes>),
    /// The frame was sent.
    FrameSent,
    /// The frame could not be sent.
    FrameFailed,
    /// The streams were told to close, if there was one to hear it.
    CloseBroadcast { heard: bool },
    /// The client was told.
    SignalDelivered,
    /// The client is gone.
    SignalRefused,
}

/// What can come of an action of the sending task.
pub open spec fn send_comes_of(action: SendAction, outcome: SendOutcome) -> bool {
    match action {
        SendAction::AwaitOutgoing => outcome is Outgoing || outcome is CloseRequested,
        SendAction::SendFrame(_) => outcome is FrameSent || outcome is FrameFailed
            || outcome is CloseRequested,
        SendAction::BroadcastClose => outcome is CloseBroadcast,
        SendAction::Signal(_) => outcome is SignalDelivered || outcome is SignalRefused
            || outcome is CloseRequested,
        _ => false,
    }
}

/// The next action of the sending task.
pub open spec fn send_follows(outcome: SendOutcome) -> SendAction {
    match outcome {
        SendOutcome::CloseRequested => SendAction::Finish(StreamEnd::Forced),
        SendOutcome::Outgoing(Some(payload)) => SendAction::SendFrame(payload),
        SendOutcome::Outgoing(None) => SendAction::Finish(StreamEnd::Ended),
        SendOutcome::FrameSent => SendAction::AwaitOutgoing,
        SendOutcome::FrameFailed => SendAction::BroadcastClose,
        SendOutcome::CloseBroadcast { heard: _ } => SendAction::Signal(
            InternalAsyncMessage::LostConnection,
        ),
        SendOutcome::SignalDelivered => SendAction::AwaitOutgoing,
        SendOutcome::SignalRefused => SendAction::Abort,
    }
}

/// The next action of the sending task.
pub fn network_send_step(outcome: SendOutcome) -> (action: SendAction)
    ensures
        action == send_follows(outcome),
{
    match outcome {
        SendOutcome::CloseRequested => SendAction::Finish(StreamEnd::Forced),
        SendOutcome::Outgoing(Some(payload)) => SendAction::SendFrame(payload),
        SendOutcome::Outgoing(None) => SendAction::Finish(StreamEnd::Ended),
        SendOutcome::FrameSent => SendAction::AwaitOutgoing,
        SendOutcome::FrameFailed => SendAction::BroadcastClose,
        SendOutcome::CloseBroadcast { heard: _ } => {
            SendAction::Signal(InternalAsyncMessage::LostConnection)
        },
        SendOutcome::SignalDelivered => SendAction::AwaitOutgoing,
        SendOutcome::SignalRefused => SendAction::Abort,
    }
}

/// What is said when the client does not take the news of a lost connection.
pub fn lost_signal_message() -> (res: &'static str)
    ensures
        res@ == "Failed to signal connection lost to sync client"@,
{
    "Failed to signal connection lost to sync client"
}

/// What is said when the client does not take a payload.
pub fn forward_message() -> (res: &'static str)
    ensures
        res@ == "called `Result::unwrap()` on an `Err` value"@,
{
    "called `Result::unwrap()` on an `Err` value"
}

/// A run of the sending task, from the start.
pub open spec fn send_run(actions: Seq<SendAction>, outcomes: Seq<SendOutcome>) -> bool {
    &&& actions.len() == outcomes.len() + 1
    &&& actions[0] is AwaitOutgoing
    &&& forall|i: int|
        0 <= i < outcomes.len() ==> send_comes_of(actions[i], #[trigger] outcomes[i]) && actions[i
            + 1] == send_follows(outcomes[i])
}

/// The payloads that the client handed to the sending task.
pub open spec fn outgoing_payloads(outcomes: Seq<SendOutcome>) -> Seq<Bytes>
    decreases outcomes.len(),
{
    if outcomes.len() == 0 {
        Seq::empty()
    } else {
        let earlier = outgoing_payloads(outcomes.drop_last());
        match outcomes.last() {
            SendOutcome::Outgoing(Some(payload)) => earlier.push(payload),
            _ => earlier,
        }
    }
}

/// The payloads that the sending task sent, or tried to send.
pub open spec fn sent_payloads(actions: Seq<SendAction>) -> Seq<Bytes>
    decreases actions.len(),
{
    if actions.len() == 0 {
        Seq::empty()
    } else {
        let earlier = sent_payloads(actions.drop_last());
        match actions.last() {
            SendAction::SendFrame(payload) => earlier.push(payload),
            _ => earlier,
        }
    }
}

/// The sending task sends each payload of the client once, in order, and
/// nothing else.
pub proof fn payloads_are_sent_in_order(actions: Seq<SendAction>, outcomes: Seq<SendOutcome>)
    requires
        send_run(actions, outcomes),
    ensures
        sent_payloads(actions) == outgoing_payloads(outcomes),
    decreases outcomes.len(),
{
    if outcomes.len() == 0 {
        reveal_with_fuel(sent_payloads, 2);
    } else {
        let n = outcomes.len() - 1;
        assert(actions[n + 1] == send_follows(outcomes[n]));
        assert forall|i: int| 0 <= i < outcomes.drop_last().len() implies send_comes_of(
            actions.drop_last()[i],
            #[trigger] outcomes.drop_last()[i],
        ) && actions.drop_last()[i + 1] == send_follows(outcomes.drop_last()[i]) by {
            assert(outcomes[i] == outcomes.drop_last()[i]);
        }
        payloads_are_sent_in_order(actions.drop_last(), outcomes.drop_last());
    }
}

/// The client is told of a lost connection only after a frame could not be
/// sent and the streams were told to close; and it is told nothing else.
pub proof fn lost_only_after_failure(actions: Seq<SendAction>, outcomes: Seq<SendOutcome>, i: int)
    requires
        send_run(actions, outcomes),
        0 <= i < actions.len(),
        actions[i] is Signal,
    ensures
        actions[i] == SendAction::Signal(InternalAsyncMessage::LostConnection),
        i >= 2,
        actions[i - 1] is BroadcastClose,
        outcomes[i - 2] is FrameFailed,
{
    assert(i > 0);
    assert(outcomes[i - 1] is CloseBroadcast);
    assert(i > 1);
    assert(actions[i - 1] == send_follows(outcomes[i - 2]));
}

/// When a frame cannot be sent, the task tells the streams to close, and then
/// tells the client that the connection is lost, as far as the run goes.
pub proof fn failure_is_announced(actions: Seq<SendAction>, outcomes: Seq<SendOutcome>, i: int)
    requires
        send_run(actions, outcomes),
        0 <= i < outcomes.len(),
        outcomes[i] is FrameFailed,
    ensures
        actions[i + 1] is BroadcastClose,
        i + 1 < outcomes.len() ==> actions[i + 2] == SendAction::Signal(
            InternalAsyncMessage::LostConnection,
        ),
{
    if i + 1 < outcomes.len() {
        assert(send_comes_of(actions[i + 1], outcomes[i + 1]));
        assert(actions[i + 1 + 1] == send_follows(outcomes[i + 1]));
    }
}

/// A task that is told to close, or has nothing left to send, ends there.
pub proof fn sending_ends_for_good(actions: Seq<SendAction>, outcomes: Seq<SendOutcome>, i: int)
    requires
        send_run(actions, outcomes),
        0 <= i < outcomes.len(),
        outcomes[i] is CloseRequested || outcomes[i] == SendOutcome::Outgoing(None),
    ensures
        i == outcomes.len() - 1,
        outcomes[i] is CloseRequested ==> actions.last() == SendAction::Finish(StreamEnd::Forced),
        outcomes[i] is Outgoing ==> actions.last() == SendAction::Finish(StreamEnd::Ended),
{
    if i + 1 < outcomes.len() {
        assert(send_comes_of(actions[i + 1], outcomes[i + 1]));
    }
}

/// Each outcome leads the sending task to the action it is meant for, and to no
/// other: a payload is sent as it came, a failure closes the streams before the
/// client is told, and the task ends only when told to, when the client is gone,
/// or when it cannot tell the client.
pub proof fn sending_is_led_by_outcomes(outcome: SendOutcome)
    ensures
        outcome matches SendOutcome::Outgoing(Some(payload)) ==> send_follows(outcome)
            == SendAction::SendFrame(payload),
        send_follows(outcome) is SendFrame ==> outcome is Outgoing,
        send_follows(outcome) is BroadcastClose <==> outcome is FrameFailed,
        send_follows(outcome) is Signal <==> outcome is CloseBroadcast,
        send_follows(outcome) matches SendAction::Signal(message) ==> message is LostConnection,
        send_follows(outcome) is AwaitOutgoing <==> outcome is FrameSent
            || outcome is SignalDelivered,
        send_follows(outcome) is Abort <==> outcome is SignalRefused,
        send_follows(outcome) == SendAction::Finish(StreamEnd::Forced)
            <==> outcome is CloseRequested,
        send_follows(outcome) == SendAction::Finish(StreamEnd::Ended) <==> outcome
            == SendOutcome::Outgoing(None),
{
}

/// What the sending task tells the client, in order.
pub open spec fn send_told(actions: Seq<SendAction>) -> Seq<InternalAsyncMessage>
    decreases actions.len(),
{
    if actions.len() == 0 {
        Seq::empty()
    } else {
        let earlier = send_told(actions.drop_last());
        match actions.last() {
            SendAction::Signal(message) => earlier.push(message),
            _ => earlier,
        }
    }
}

/// After its first `k` actions the sending task has told the client of lost
/// connections only.
proof fn send_told_prefix(actions: Seq<SendAction>, outcomes: Seq<SendOutcome>, k: int)
    requires
        send_run(actions, outcomes),
        0 <= k <= actions.len(),
    ensures
        forall|i: int|
            0 <= i < send_told(actions.take(k)).len() ==> #[trigger] send_told(actions.take(k))[i]
                == InternalAsyncMessage::LostConnection,
    decreases k,
{
    if k > 0 {
        send_told_prefix(actions, outcomes, k - 1);
        assert(actions.take(k).drop_last() =~= actions.take(k - 1));
        assert(actions.take(k).last() == actions[k - 1]);
        if actions[k - 1] is Signal {
            lost_only_after_failure(actions, outcomes, k - 1);
        }
    }
}

/// The sending task tells the client of lost connections only.
pub proof fn only_losses_are_told(actions: Seq<SendAction>, outcomes: Seq<SendOutcome>, i: int)
    requires
        send_run(actions, outcomes),
        0 <= i < send_told(actions).len(),
    ensures
        send_told(actions)[i] == InternalAsyncMessage::LostConnection,
{
    send_told_prefix(actions, outcomes, actions.len() as int);
    assert(actions.take(actions.len() as int) =~= actions);
}

/// What the listening task does.
#[derive(Debug, Clone, Copy, PartialEq, Eq, Structural)]
pub enum ListenAction {
    /// Wait for a stream of the server.
    AwaitStream,
    /// Start a task that reads the stream.
    SpawnReader,
    /// Stop all the tasks that read streams.
    ShutdownReaders(StreamEnd),
    /// Nothing more.
    Finish,
}

/// What came of an action of the listening task.
#[derive(Debug, Clone, Copy, PartialEq, Eq, Structural)]
pub enum ListenOutcome {
    /// The streams were told to close.
    CloseRequested,
    /// The server opened a stream.
    StreamAccepted,
    /// A stream could not be accepted.
    StreamFailed,
    /// There will be no more streams.
    StreamsExhausted,
    /// A task reads the stream.
    ReaderSpawned,
    /// No stream is read any more.
    ReadersStopped,
}

/// What can come of an action of the listening task.
pub open spec fn listen_comes_of(action: ListenAction, outcome: ListenOutcome) -> bool {
    match action {
        ListenAction::AwaitStream => outcome is StreamAccepted || outcome is StreamFailed
            || outcome is StreamsExhausted || outcome is CloseRequested,
        ListenAction::SpawnReader => outcome is ReaderSpawned,
        ListenAction::ShutdownReaders(_) => outcome is ReadersStopped,
        ListenAction::Finish => false,
    }
}

/// The next action of the listening task.
pub open spec fn listen_follows(outcome: ListenOutcome) -> ListenAction {
    match outcome {
        ListenOutcome::CloseRequested => ListenAction::ShutdownReaders(StreamEnd::Forced),
        ListenOutcome::StreamAccepted => ListenAction::SpawnReader,
        ListenOutcome::StreamFailed => ListenAction::ShutdownReaders(StreamEnd::Ended),
        ListenOutcome::StreamsExhausted => ListenAction::ShutdownReaders(StreamEnd::Ended),
        ListenOutcome::ReaderSpawned => ListenAction::AwaitStream,
        ListenOutcome::ReadersStopped => ListenAction::Finish,
    }
}

/// The next action of the listening task.
pub fn network_listen_step(outcome: ListenOutcome) -> (action: ListenAction)
    ensures
        action == listen_follows(outcome),
{
    match outcome {
        ListenOutcome::CloseRequested => ListenAction::ShutdownReaders(StreamEnd::Forced),
        ListenOutcome::StreamAccepted => ListenAction::SpawnReader,
        ListenOutcome::StreamFailed => ListenAction::ShutdownReaders(StreamEnd::Ended),
        ListenOutcome::StreamsExhausted => ListenAction::ShutdownReaders(StreamEnd::Ended),
        ListenOutcome::ReaderSpawned => ListenAction::AwaitStream,
        ListenOutcome::ReadersStopped => ListenAction::Finish,
    }
}

/// A run of the listening task, from the start.
pub open spec fn listen_run(actions: Seq<ListenAction>, outcomes: Seq<ListenOutcome>) -> bool {
    &&& actions.len() == outcomes.len() + 1
    &&& actions[0] is AwaitStream
    &&& forall|i: int|
        0 <= i < outcomes.len() ==> listen_comes_of(actions[i], #[trigger] outcomes[i])
            && actions[i + 1] == listen_follows(outcomes[i])
}

/// The listening task stops all readers once, as the last thing it does before
/// it finishes, and starts none after that.
pub proof fn readers_are_stopped_last(
    actions: Seq<ListenAction>,
    outcomes: Seq<ListenOutcome>,
    i: int,
)
    requires
        listen_run(actions, outcomes),
        0 <= i < actions.len(),
    ensures
        actions[i] is Finish ==> i == actions.len() - 1 && i > 0 && actions[i
            - 1] is ShutdownReaders,
        actions[i] is ShutdownReaders ==> i >= actions.len() - 2,
        actions[i] is SpawnReader ==> i > 0 && outcomes[i - 1] is StreamAccepted,
{
    if i > 0 {
        assert(listen_comes_of(actions[i - 1], outcomes[i - 1]));
        assert(actions[i - 1 + 1] == listen_follows(outcomes[i - 1]));
    }
    if i < outcomes.len() {
        assert(listen_comes_of(actions[i], outcomes[i]));
    }
    if i + 1 < outcomes.len() {
        assert(actions[i + 1] == listen_follows(outcomes[i]));
        assert(listen_comes_of(actions[i + 1], outcomes[i + 1]));
    }
}

/// Each outcome leads the listening task to the action it is meant for, and to
/// no other.
pub proof fn listening_is_led_by_outcomes(outcome: ListenOutcome)
    ensures
        listen_follows(outcome) is SpawnReader <==> outcome is StreamAccepted,
        listen_follows(outcome) is AwaitStream <==> outcome is ReaderSpawned,
        listen_follows(outcome) is Finish <==> outcome is ReadersStopped,
        listen_follows(outcome) == ListenAction::ShutdownReaders(StreamEnd::Forced)
            <==> outcome is CloseRequested,
        listen_follows(outcome) == ListenAction::ShutdownReaders(StreamEnd::Ended)
            <==> outcome is StreamFailed || outcome is StreamsExhausted,
{
}

/// A listening task that is told to close stops all readers, and ends there.
pub proof fn listening_ends_for_good(
    actions: Seq<ListenAction>,
    outcomes: Seq<ListenOutcome>,
    i: int,
)
    requires
        listen_run(actions, outcomes),
        0 <= i < outcomes.len(),
        outcomes[i] is CloseRequested,
    ensures
        actions[i + 1] == ListenAction::ShutdownReaders(StreamEnd::Forced),
        i >= outcomes.len() - 2,
        i + 1 < outcomes.len() ==> actions.last() is Finish,
{
    readers_are_stopped_last(actions, outcomes, i + 1);
    if i + 1 < outcomes.len() {
        assert(listen_comes_of(actions[i + 1], outcomes[i + 1]));
        assert(actions[i + 1 + 1] == listen_follows(outcomes[i + 1]));
    }
}

/// What a reading task does.
#[derive(Debug)]
pub enum ReadAction {
    /// Wait for a frame.
    AwaitFrame,
    /// Queue a payload for the client.
    Forward(Bytes),
    /// Nothing more.
    Finish,
    /// Give up the task.
    Abort,
}

/// What came of an action of a reading task.
#[derive(Debug)]
pub enum ReadOutcome {
    /// A frame arrived; its payload.
    Frame(Bytes),
    /// A frame could not be read.
    FrameFailed,
    /// The stream is at its end.
    StreamEnded,
    /// The payload was queued.
    Forwarded,
    /// The client is gone.
    ForwardRefused,
}

/// What can come of an action of a reading task.
pub open spec fn read_comes_of(action: ReadAction, outcome: ReadOutcome) -> bool {
    match action {
        ReadAction::AwaitFrame => outcome is Frame || outcome is FrameFailed
            || outcome is StreamEnded,
        ReadAction::Forward(_) => outcome is Forwarded || outcome is ForwardRefused,
        _ => false,
    }
}

/// The next action of a reading task.
pub open spec fn read_follows(outcome: ReadOutcome) -> ReadAction {
    match outcome {
        ReadOutcome::Frame(payload) => ReadAction::Forward(payload),
        ReadOutcome::FrameFailed => ReadAction::Finish,
        ReadOutcome::StreamEnded => ReadAction::Finish,
        ReadOutcome::Forwarded => ReadAction::AwaitFrame,
        ReadOutcome::ForwardRefused => ReadAction::Abort,
    }
}

/// The next action of a reading task.
pub fn stream_read_step(outcome: ReadOutcome) -> (action: ReadAction)
    ensures
        action == read_follows(outcome),
{
    match outcome {
        ReadOutcome::Frame(payload) => ReadAction::Forward(payload),
        ReadOutcome::FrameFailed => ReadAction::Finish,
        ReadOutcome::StreamEnded => ReadAction::Finish,
        ReadOutcome::Forwarded => ReadAction::AwaitFrame,
        ReadOutcome::ForwardRefused => ReadAction::Abort,
    }
}

/// Each outcome leads a reading task to the action it is meant for, and to no
/// other: a payload is forwarded as it came.
pub proof fn reading_is_led_by_outcomes(outcome: ReadOutcome)
    ensures
        outcome matches ReadOutcome::Frame(payload) ==> read_follows(outcome)
            == ReadAction::Forward(payload),
        read_follows(outcome) is Forward ==> outcome is Frame,
        read_follows(outcome) is AwaitFrame <==> outcome is Forwarded,
        read_follows(outcome) is Finish <==> outcome is FrameFailed || outcome is StreamEnded,
        read_follows(outcome) is Abort <==> outcome is ForwardRefused,
{
}

/// A run of a reading task, from the start.
pub open spec fn read_run(actions: Seq<ReadAction>, outcomes: Seq<ReadOutcome>) -> bool {
    &&& actions.len() == outcomes.len() + 1
    &&& actions[0] is AwaitFrame
    &&& forall|i: int|
        0 <= i < outcomes.len() ==> read_comes_of(actions[i], #[trigger] outcomes[i]) && actions[i
            + 1] == read_follows(outcomes[i])
}

/// The payloads that arrived on a stream.
pub open spec fn arrived_payloads(outcomes: Seq<ReadOutcome>) -> Seq<Bytes>
    decreases outcomes.len(),
{
    if outcomes.len() == 0 {
        Seq::empty()
    } else {
        let earlier = arrived_payloads(outcomes.drop_last());
        match outcomes.last() {
            ReadOutcome::Frame(payload) => earlier.push(payload),
            _ => earlier,
        }
    }
}

/// The payloads that a reading task queued, or tried to queue.
pub open spec fn forwarded_payloads(actions: Seq<ReadAction>) -> Seq<Bytes>
    decreases actions.len(),
{
    if actions.len() == 0 {
        Seq::empty()
    } else {
        let earlier = forwarded_payloads(actions.drop_last());
        match actions.last() {
            ReadAction::Forward(payload) => earlier.push(payload),
            _ => earlier,
        }
    }
}

/// A reading task queues each payload of its stream once, in order, and
/// nothing else.
pub proof fn payloads_are_forwarded_in_order(actions: Seq<ReadAction>, outcomes: Seq<ReadOutcome>)
    requires
        read_run(actions, outcomes),
    ensures
        forwarded_payloads(actions) == arrived_payloads(outcomes),
    decreases outcomes.len(),
{
    if outcomes.len() == 0 {
        reveal_with_fuel(forwarded_payloads, 2);
    } else {
        let n = outcomes.len() - 1;
        assert(actions[n + 1] == read_follows(outcomes[n]));
        assert forall|i: int| 0 <= i < outcomes.drop_last().len() implies read_comes_of(
            actions.drop_last()[i],
            #[trigger] outcomes.drop_last()[i],
        ) && actions.drop_last()[i + 1] == read_follows(outcomes.drop_last()[i]) by {
            assert(outcomes[i] == outcomes.drop_last()[i]);
        }
        payloads_are_forwarded_in_order(actions.drop_last(), outcomes.drop_last());
    }
}

} // verus!
