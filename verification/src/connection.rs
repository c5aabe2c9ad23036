//! The connection task: from the request of the client to running streams.
//!
//! The task is written as steps. Whoever runs it performs an action, and hands
//! back what came of it; [`connection_step`] then gives the next action.

use vstd::prelude::*;

use crate::address::address;
use crate::certificate::{
    configure_client, configure_step, CertificateVerificationMode, ConfigureStep,
};
use crate::client::{
    ClientConfigurationData, ConfigurationView, InternalAsyncMessage, InternalSyncMessage,
};

verus! {

/// What a connection is made with.
#[derive(Debug)]
pub struct ConnectionPlan {
    /// Address to connect to.
    pub server_address: String,
    /// Name under which the server has to identify itself.
    pub server_name: String,
    /// Local address to bind to.
    pub local_bind_address: String,
    /// How server certificates are verified.
    pub setup: ConfigureStep,
}

/// `plan` is what a configuration and a verification mode ask for.
pub open spec fn planned(
    plan: ConnectionPlan,
    config: ConfigurationView,
    cert_mode: CertificateVerificationMode,
) -> bool {
    &&& plan.server_address@ == address(config.server_host, config.server_port)
    &&& plan.server_name@ == config.server_host
    &&& plan.local_bind_address@ == address(config.local_bind_host, config.local_bind_port)
    &&& plan.setup == configure_step(cert_mode)
}

/// Lays out the connection that a configuration and a verification mode ask
/// for.
pub fn connection_task(
    config: ClientConfigurationData,
    cert_mode: CertificateVerificationMode,
) -> (plan: ConnectionPlan)
    ensures
        planned(plan, config@, cert_mode),
        plan.server_address@ == address(config@.server_host, config@.server_port),
        plan.server_name@ == config@.server_host,
        plan.local_bind_address@ == address(config@.local_bind_host, config@.local_bind_port),
        plan.setup == configure_step(cert_mode),
{
    ConnectionPlan {
        server_address: config.server_address(),
        server_name: config.server_name(),
        local_bind_address: config.local_bind_address(),
        setup: configure_client(cert_mode),
    }
}

/// What the connection task cannot recover from.
#[derive(Debug, Clone, Copy, PartialEq, Eq, Structural)]
pub enum ConnectionFailure {
    /// The server address is not a socket address.
    ServerAddress,
    /// The certificate verification could not be set up.
    Configuration,
    /// The local address is not a socket address.
    LocalAddress,
    /// The local endpoint could not be created.
    Endpoint,
    /// The endpoint refused to start a connection.
    Connect,
    /// The client did not take the news of the connection.
    SignalConnected,
    /// The stream to the server could not be opened.
    OpenSendStream,
}

/// What is said of a failure.
pub open spec fn failure_text(failure: ConnectionFailure) -> Seq<char> {
    match failure {
        ConnectionFailure::ServerAddress => "Failed to parse server address"@,
        ConnectionFailure::Configuration => "Failed to configure client"@,
        ConnectionFailure::LocalAddress => "called `Result::unwrap()` on an `Err` value"@,
        ConnectionFailure::Endpoint => "Failed to create client endpoint"@,
        ConnectionFailure::Connect => "Failed to connect: configuration error"@,
        ConnectionFailure::SignalConnected => "Failed to signal connection to sync client"@,
        ConnectionFailure::OpenSendStream => "Failed to open send stream"@,
    }
}

/// What is said of a failure.
pub fn failure_message(failure: ConnectionFailure) -> (res: &'static str)
    ensures
        res@ == failure_text(failure),
{
    match failure {
        ConnectionFailure::ServerAddress => "Failed to parse server address",
        ConnectionFailure::Configuration => "Failed to configure client",
        ConnectionFailure::LocalAddress => "called `Result::unwrap()` on an `Err` value",
        ConnectionFailure::Endpoint => "Failed to create client endpoint",
        ConnectionFailure::Connect => "Failed to connect: configuration error",
        ConnectionFailure::SignalConnected => "Failed to signal connection to sync client",
        ConnectionFailure::OpenSendStream => "Failed to open send stream",
    }
}

/// A message, followed by its cause.
pub fn with_cause(message: &str, cause: &str) -> (res: String)
    ensures
        res@ == message@ + ": "@ + cause@,
{
    let mut text = String::new();
    text.append(message);
    text.append(": ");
    text.append(cause);
    text
}

/// What is done to start a connection, with the parts of a [`ConnectionPlan`].
#[derive(Debug, Clone, Copy, PartialEq, Eq, Structural)]
pub enum SetupAction {
    /// Read the server address.
    ParseServerAddress,
    /// Set up the certificate verification.
    Configure,
    /// Read the local address.
    ParseLocalAddress,
    /// Create an endpoint at the local address, and hand it the verification.
    CreateEndpoint,
    /// Start a connection to the server address, under the server name.
    StartConnection,
    /// The connection is on its way.
    AwaitHandshake,
    /// The connection cannot be started.
    Fail(ConnectionFailure),
}

/// What came of an action.
#[derive(Debug, Clone, Copy, PartialEq, Eq, Structural)]
pub enum SetupOutcome {
    ServerAddressParsed,
    ServerAddressInvalid,
    Configured,
    ConfigurationFailed,
    LocalAddressParsed,
    LocalAddressInvalid,
    EndpointCreated,
    EndpointRefused,
    ConnectionStarted,
    ConnectionRefused,
}

/// What can come of an action.
pub open spec fn setup_comes_of(action: SetupAction, outcome: SetupOutcome) -> bool {
    match action {
        SetupAction::ParseServerAddress => outcome is ServerAddressParsed
            || outcome is ServerAddressInvalid,
        SetupAction::Configure => outcome is Configured || outcome is ConfigurationFailed,
        SetupAction::ParseLocalAddress => outcome is LocalAddressParsed
            || outcome is LocalAddressInvalid,
        SetupAction::CreateEndpoint => outcome is EndpointCreated || outcome is EndpointRefused,
        SetupAction::StartConnection => outcome is ConnectionStarted
            || outcome is ConnectionRefused,
        _ => false,
    }
}

/// The next action.
pub open spec fn setup_follows(outcome: SetupOutcome) -> SetupAction {
    match outcome {
        SetupOutcome::ServerAddressParsed => SetupAction::Configure,
        SetupOutcome::ServerAddressInvalid => SetupAction::Fail(ConnectionFailure::ServerAddress),
        SetupOutcome::Configured => SetupAction::ParseLocalAddress,
        SetupOutcome::ConfigurationFailed => SetupAction::Fail(ConnectionFailure::Configuration),
        SetupOutcome::LocalAddressParsed => SetupAction::CreateEndpoint,
        SetupOutcome::LocalAddressInvalid => SetupAction::Fail(ConnectionFailure::LocalAddress),
        SetupOutcome::EndpointCreated => SetupAction::StartConnection,
        SetupOutcome::EndpointRefused => SetupAction::Fail(ConnectionFailure::Endpoint),
        SetupOutcome::ConnectionStarted => SetupAction::AwaitHandshake,
        SetupOutcome::ConnectionRefused => SetupAction::Fail(ConnectionFailure::Connect),
    }
}

/// The next action to start a connection. The first one is
/// [`SetupAction::ParseServerAddress`].
pub fn setup_step(outcome: SetupOutcome) -> (action: SetupAction)
    ensures
        action == setup_follows(outcome),
{
    match outcome {
        SetupOutcome::ServerAddressParsed => SetupAction::Configure,
        SetupOutcome::ServerAddressInvalid => SetupAction::Fail(ConnectionFailure::ServerAddress),
        SetupOutcome::Configured => SetupAction::ParseLocalAddress,
        SetupOutcome::ConfigurationFailed => SetupAction::Fail(ConnectionFailure::Configuration),
        SetupOutcome::LocalAddressParsed => SetupAction::CreateEndpoint,
        SetupOutcome::LocalAddressInvalid => SetupAction::Fail(ConnectionFailure::LocalAddress),
        SetupOutcome::EndpointCreated => SetupAction::StartConnection,
        SetupOutcome::EndpointRefused => SetupAction::Fail(ConnectionFailure::Endpoint),
        SetupOutcome::ConnectionStarted => SetupAction::AwaitHandshake,
        SetupOutcome::ConnectionRefused => SetupAction::Fail(ConnectionFailure::Connect),
    }
}

/// Starting a connection, from the first action on.
pub open spec fn setup_run(actions: Seq<SetupAction>, outcomes: Seq<SetupOutcome>) -> bool {
    &&& actions.len() == outcomes.len() + 1
    &&& actions[0] is ParseServerAddress
    &&& forall|i: int|
        0 <= i < outcomes.len() ==> setup_comes_of(actions[i], #[trigger] outcomes[i])
            && actions[i + 1] == setup_follows(outcomes[i])
}

/// A failure that keeps a connection from being started.
pub open spec fn setup_failure(failure: ConnectionFailure) -> bool {
    !(failure is SignalConnected) && !(failure is OpenSendStream)
}

/// Starting a connection takes its steps once and in order: no endpoint is
/// created before the server address was read, the verification was set up and
/// the local address was read, and no connection is started without an
/// endpoint. The first step that fails is the last one taken, and it decides
/// the failure.
pub proof fn setup_in_order(actions: Seq<SetupAction>, outcomes: Seq<SetupOutcome>, i: int)
    requires
        setup_run(actions, outcomes),
        0 <= i < actions.len(),
    ensures
        actions.len() <= 6,
        actions[i] is ParseServerAddress <==> i == 0,
        actions[i] is Configure ==> i == 1 && outcomes[0] is ServerAddressParsed,
        actions[i] is ParseLocalAddress ==> i == 2 && outcomes[1] is Configured,
        actions[i] is CreateEndpoint ==> {
            &&& i == 3
            &&& outcomes[0] is ServerAddressParsed
            &&& outcomes[1] is Configured
            &&& outcomes[2] is LocalAddressParsed
        },
        actions[i] is StartConnection ==> i == 4 && outcomes[3] is EndpointCreated,
        actions[i] is AwaitHandshake ==> i == 5 && outcomes[4] is ConnectionStarted,
        actions[i] is AwaitHandshake || actions[i] is Fail ==> i == actions.len() - 1,
        actions[i] matches SetupAction::Fail(failure) ==> {
            &&& setup_failure(failure)
            &&& failure is ServerAddress <==> i == 1
            &&& failure is Configuration <==> i == 2
            &&& failure is LocalAddress <==> i == 3
            &&& failure is Endpoint <==> i == 4
            &&& failure is Connect <==> i == 5
        },
{
    let n = outcomes.len();
    if n > 0 {
        assert(setup_comes_of(actions[0], outcomes[0]));
        assert(actions[1] == setup_follows(outcomes[0]));
    }
    if n > 1 {
        assert(setup_comes_of(actions[1], outcomes[1]));
        assert(actions[2] == setup_follows(outcomes[1]));
    }
    if n > 2 {
        assert(setup_comes_of(actions[2], outcomes[2]));
        assert(actions[3] == setup_follows(outcomes[2]));
    }
    if n > 3 {
        assert(setup_comes_of(actions[3], outcomes[3]));
        assert(actions[4] == setup_follows(outcomes[3]));
    }
    if n > 4 {
        assert(setup_comes_of(actions[4], outcomes[4]));
        assert(actions[5] == setup_follows(outcomes[4]));
    }
    if n > 5 {
        assert(setup_comes_of(actions[5], outcomes[5]));
    }
}

/// What the connection task does.
#[derive(Debug)]
pub enum ConnectionAction {
    /// Wait for a request of the client.
    AwaitRequest,
    /// Start a connection, as [`setup_step`] says, and wait for it.
    Connect(ConnectionPlan),
    /// Tell the client.
    Signal(InternalAsyncMessage),
    /// Open the stream to the server.
    OpenSendStream,
    /// Run the streams in both directions.
    RunStreams,
    /// Nothing more.
    Stop,
    /// Give up the task.
    Abort(ConnectionFailure),
}

/// What came of an action.
#[derive(Debug)]
pub enum ConnectionOutcome {
    /// The request of the client, or none if the client is gone.
    Request(Option<InternalSyncMessage>),
    /// The connection could not be started.
    SetupFailed(ConnectionFailure),
    /// The connection was started, but did not come about.
    HandshakeFailed,
    /// The connection is up.
    HandshakeDone,
    /// The client was told.
    SignalDelivered,
    /// The client is gone.
    SignalRefused,
    /// The stream to the server is open.
    StreamOpened,
    /// The stream to the server could not be opened.
    StreamRefused,
}

/// What can come of an action.
pub open spec fn comes_of(action: ConnectionAction, outcome: ConnectionOutcome) -> bool {
    match action {
        ConnectionAction::AwaitRequest => outcome is Request,
        ConnectionAction::Connect(_) => match outcome {
            ConnectionOutcome::SetupFailed(failure) => setup_failure(failure),
            _ => outcome is HandshakeFailed || outcome is HandshakeDone,
        },
        ConnectionAction::Signal(_) => outcome is SignalDelivered || outcome is SignalRefused,
        ConnectionAction::OpenSendStream => outcome is StreamOpened || outcome is StreamRefused,
        _ => false,
    }
}

/// `action` is what the task does upon `outcome`.
pub open spec fn follows(outcome: ConnectionOutcome, action: ConnectionAction) -> bool {
    match outcome {
        ConnectionOutcome::Request(None) => action is Stop,
        ConnectionOutcome::Request(Some(InternalSyncMessage::Connect { config, cert_mode })) => {
            &&& action matches ConnectionAction::Connect(plan)
            &&& planned(plan, config@, cert_mode)
        },
        ConnectionOutcome::SetupFailed(failure) => action == ConnectionAction::Abort(failure),
        ConnectionOutcome::HandshakeFailed => action is Stop,
        ConnectionOutcome::HandshakeDone => action == ConnectionAction::Signal(
            InternalAsyncMessage::Connected(None),
        ),
        ConnectionOutcome::SignalDelivered => action is OpenSendStream,
        ConnectionOutcome::SignalRefused => action == ConnectionAction::Abort(
            ConnectionFailure::SignalConnected,
        ),
        ConnectionOutcome::StreamOpened => action is RunStreams,
        ConnectionOutcome::StreamRefused => action == ConnectionAction::Abort(
            ConnectionFailure::OpenSendStream,
        ),
    }
}

/// The next action of the connection task.
pub fn connection_step(outcome: ConnectionOutcome) -> (action: ConnectionAction)
    ensures
        follows(outcome, action),
{
    match outcome {
        ConnectionOutcome::Request(None) => ConnectionAction::Stop,
        ConnectionOutcome::Request(Some(message)) => match message {
            InternalSyncMessage::Connect { config, cert_mode } => {
                ConnectionAction::Connect(connection_task(config, cert_mode))
            },
        },
        ConnectionOutcome::SetupFailed(failure) => ConnectionAction::Abort(failure),
        ConnectionOutcome::HandshakeFailed => ConnectionAction::Stop,
        ConnectionOutcome::HandshakeDone => {
            ConnectionAction::Signal(InternalAsyncMessage::Connected(None))
        },
        ConnectionOutcome::SignalDelivered => ConnectionAction::OpenSendStream,
        ConnectionOutcome::SignalRefused => {
            ConnectionAction::Abort(ConnectionFailure::SignalConnected)
        },
        ConnectionOutcome::StreamOpened => ConnectionAction::RunStreams,
        ConnectionOutcome::StreamRefused => {
            ConnectionAction::Abort(ConnectionFailure::OpenSendStream)
        },
    }
}

/// A run of the connection task, from the start: each action but the last has
/// an outcome, and the next action follows from it.
pub open spec fn connection_run(
    actions: Seq<ConnectionAction>,
    outcomes: Seq<ConnectionOutcome>,
) -> bool {
    &&& actions.len() == outcomes.len() + 1
    &&& actions[0] is AwaitRequest
    &&& forall|i: int|
        0 <= i < outcomes.len() ==> comes_of(actions[i], #[trigger] outcomes[i]) && follows(
            outcomes[i],
            actions[i + 1],
        )
}

/// The connection task goes through its stages once: it takes up one request,
/// connects, tells the client that it is connected, opens the stream to the
/// server, runs the streams, and is done. It can stop or abort on the way, and
/// that is the end of it. It connects only upon a request, and as the request
/// asks.
pub proof fn stages_in_order(
    actions: Seq<ConnectionAction>,
    outcomes: Seq<ConnectionOutcome>,
    i: int,
)
    requires
        connection_run(actions, outcomes),
        0 <= i < actions.len(),
    ensures
        actions.len() <= 5,
        actions[i] is AwaitRequest <==> i == 0,
        actions[i] matches ConnectionAction::Connect(plan) ==> {
            &&& i == 1
            &&& outcomes[0] matches ConnectionOutcome::Request(
                Some(InternalSyncMessage::Connect { config, cert_mode }),
            )
            &&& planned(plan, config@, cert_mode)
        },
        actions[i] is Signal ==> i == 2 && actions[i] == ConnectionAction::Signal(
            InternalAsyncMessage::Connected(None),
        ),
        actions[i] is OpenSendStream ==> i == 3,
        actions[i] is RunStreams ==> i == 4,
        actions[i] is Stop || actions[i] is Abort || actions[i] is RunStreams ==> i
            == actions.len() - 1,
{
    let n = outcomes.len();
    if n > 0 {
        assert(comes_of(actions[0], outcomes[0]) && follows(outcomes[0], actions[1]));
    }
    if n > 1 {
        assert(comes_of(actions[1], outcomes[1]) && follows(outcomes[1], actions[2]));
    }
    if n > 2 {
        assert(comes_of(actions[2], outcomes[2]) && follows(outcomes[2], actions[3]));
    }
    if n > 3 {
        assert(comes_of(actions[3], outcomes[3]) && follows(outcomes[3], actions[4]));
    }
    if n > 4 {
        assert(comes_of(actions[4], outcomes[4]));
    }
}

/// The connection task gives up only where something failed, and over that very
/// failure; it stops without a failure only where there is nobody to connect
/// for, or nobody to connect to.
pub proof fn failures_are_carried(outcome: ConnectionOutcome, action: ConnectionAction)
    requires
        follows(outcome, action),
    ensures
        outcome matches ConnectionOutcome::SetupFailed(failure) ==> action
            == ConnectionAction::Abort(failure),
        action matches ConnectionAction::Abort(failure) ==> {
            ||| outcome == ConnectionOutcome::SetupFailed(failure)
            ||| outcome is SignalRefused && failure is SignalConnected
            ||| outcome is StreamRefused && failure is OpenSendStream
        },
        action is Stop <==> outcome is HandshakeFailed || outcome == ConnectionOutcome::Request(
            None,
        ),
        action matches ConnectionAction::Signal(message) ==> outcome is HandshakeDone && message
            == InternalAsyncMessage::Connected(None),
        action is OpenSendStream <==> outcome is SignalDelivered,
        action is RunStreams <==> outcome is StreamOpened,
        action is Connect <==> outcome is Request && outcome->Request_0 is Some,
        !(action is AwaitRequest),
{
}

/// What the connection task tells the client, in order.
pub open spec fn told(actions: Seq<ConnectionAction>) -> Seq<InternalAsyncMessage>
    decreases actions.len(),
{
    if actions.len() == 0 {
        Seq::empty()
    } else {
        let earlier = told(actions.drop_last());
        match actions.last() {
            ConnectionAction::Signal(message) => earlier.push(message),
            _ => earlier,
        }
    }
}

/// What the connection task has told the client after its first `k` actions:
/// nothing, or once that it is connected.
proof fn told_prefix(actions: Seq<ConnectionAction>, outcomes: Seq<ConnectionOutcome>, k: int)
    requires
        connection_run(actions, outcomes),
        0 <= k <= actions.len(),
    ensures
        told(actions.take(k)) == if k > 2 && actions[2] is Signal {
            seq![InternalAsyncMessage::Connected(None)]
        } else {
            Seq::<InternalAsyncMessage>::empty()
        },
    decreases k,
{
    if k > 0 {
        told_prefix(actions, outcomes, k - 1);
        assert(actions.take(k).drop_last() =~= actions.take(k - 1));
        assert(actions.take(k).last() == actions[k - 1]);
        stages_in_order(actions, outcomes, k - 1);
        assert(Seq::<InternalAsyncMessage>::empty().push(InternalAsyncMessage::Connected(None))
            =~= seq![InternalAsyncMessage::Connected(None)]);
    }
}

/// The connection task tells the client nothing but that it is connected, and
/// that at most once; before it runs the streams it has told it.
pub proof fn told_once(actions: Seq<ConnectionAction>, outcomes: Seq<ConnectionOutcome>)
    requires
        connection_run(actions, outcomes),
    ensures
        told(actions).len() == 0 || told(actions) == seq![InternalAsyncMessage::Connected(None)],
        actions.last() is RunStreams ==> told(actions) == seq![
            InternalAsyncMessage::Connected(None),
        ],
{
    told_prefix(actions, outcomes, actions.len() as int);
    assert(actions.take(actions.len() as int) =~= actions);
    if actions.last() is RunStreams {
        stages_in_order(actions, outcomes, actions.len() - 1);
        stages_in_order(actions, outcomes, 2);
        assert(comes_of(actions[3], outcomes[3]) && follows(outcomes[3], actions[4]));
        assert(comes_of(actions[2], outcomes[2]) && follows(outcomes[2], actions[3]));
    }
}

} // verus!
