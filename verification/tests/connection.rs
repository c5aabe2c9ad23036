use bytes::Bytes;
use quinnet_client::address::format_address;
use quinnet_client::certificate::{
    configure_client, known_hosts_loaded, CertStore, CertVerifierAction, CertVerifierBehaviour,
    CertificateVerificationMode, ClientCrypto, ConfigureStep, KnownHosts, TrustOnFirstUseConfig,
    VerifierBehaviours,
};
use quinnet_client::client::{
    start_async_client, update_sync_client, ClientConfigurationData, ClientEvent,
    InternalAsyncMessage, InternalSyncMessage,
};
use quinnet_client::connection::{
    connection_step, connection_task, failure_message, setup_step, with_cause, ConnectionAction,
    ConnectionFailure, ConnectionOutcome, SetupAction, SetupOutcome,
};
use quinnet_client::streams::{
    forward_message, lost_signal_message, network_listen_step, network_send_step, stream_read_step, ListenAction,
    ListenOutcome, ReadAction, ReadOutcome, SendAction, SendOutcome, StreamEnd,
};

fn config() -> ClientConfigurationData {
    ClientConfigurationData::new("::1".to_string(), 65535, "[::]".to_string(), 10)
}

fn behaviours() -> VerifierBehaviours {
    VerifierBehaviours {
        unknown: CertVerifierBehaviour::ImmediateAction(CertVerifierAction::TrustAndStore),
        untrusted: CertVerifierBehaviour::RequestClientAction,
        trusted: CertVerifierBehaviour::ImmediateAction(CertVerifierAction::TrustOnce),
    }
}

#[test]
fn addresses_are_written_in_decimal() {
    assert_eq!(format_address("127.0.0.1", 6000), "127.0.0.1:6000");
    assert_eq!(format_address("0.0.0.0", 0), "0.0.0.0:0");
    assert_eq!(format_address("[::]", 9), "[::]:9");
    assert_eq!(format_address("", 10), ":10");
    assert_eq!(format_address("h\u{e9}", 65535), "h\u{e9}:65535");
    for port in 0..=u16::MAX {
        assert_eq!(format_address("host", port), format!("host:{}", port));
    }
}

#[test]
fn addresses_are_unambiguous() {
    assert_ne!(format_address("a:1", 2), format_address("a", 12));
    assert_ne!(format_address("a", 1), format_address("a", 10));
}

#[test]
fn plans_follow_the_configuration() {
    let plan = connection_task(config(), CertificateVerificationMode::SkipVerification);
    assert_eq!(plan.server_address, "::1:65535");
    assert_eq!(plan.server_name, "::1");
    assert_eq!(plan.local_bind_address, "[::]:10");
    assert!(matches!(
        plan.setup,
        ConfigureStep::Ready(ClientCrypto::SkipServerVerification)
    ));
}

#[test]
fn only_trust_on_first_use_loads_known_hosts() {
    assert!(matches!(
        configure_client(CertificateVerificationMode::SkipVerification),
        ConfigureStep::Ready(ClientCrypto::SkipServerVerification)
    ));
    assert!(matches!(
        configure_client(CertificateVerificationMode::SignedByCertificateAuthority),
        ConfigureStep::Ready(ClientCrypto::NativeRoots)
    ));
    let mode = CertificateVerificationMode::TrustOnFirstUse(TrustOnFirstUseConfig {
        known_hosts: KnownHosts::HostsFile("hosts".to_string()),
        verifier_behaviour: behaviours(),
    });
    match configure_client(mode) {
        ConfigureStep::LoadKnownHosts { known_hosts, verifier_behaviour } => {
            assert!(matches!(known_hosts, KnownHosts::HostsFile(f) if f == "hosts"));
            assert_eq!(
                verifier_behaviour.untrusted,
                CertVerifierBehaviour::RequestClientAction
            );
        }
        ConfigureStep::Ready(_) => panic!("nothing to load"),
    }
}

#[test]
fn loaded_known_hosts_are_taken_up() {
    let store = CertStore { entries: Vec::new() };
    let loaded: Result<(CertStore, Option<String>), String> =
        Ok((store, Some("hosts".to_string())));
    match known_hosts_loaded(behaviours(), loaded) {
        Ok(ClientCrypto::TrustOnFirstUse { store, verifier_behaviour, store_file }) => {
            assert_eq!(store.entries.len(), 0);
            assert_eq!(
                verifier_behaviour.unknown,
                CertVerifierBehaviour::ImmediateAction(CertVerifierAction::TrustAndStore)
            );
            assert_eq!(store_file, Some("hosts".to_string()));
        }
        _ => panic!("not set up"),
    }
    let failed: Result<(CertStore, Option<String>), String> = Err("unreadable".to_string());
    assert!(matches!(known_hosts_loaded(behaviours(), failed), Err(e) if e == "unreadable"));
}

#[test]
fn a_connection_goes_through_its_stages() {
    let request = InternalSyncMessage::Connect {
        config: config(),
        cert_mode: CertificateVerificationMode::SignedByCertificateAuthority,
    };
    match connection_step(ConnectionOutcome::Request(Some(request))) {
        ConnectionAction::Connect(plan) => {
            assert_eq!(plan.server_address, "::1:65535");
            assert!(matches!(
                plan.setup,
                ConfigureStep::Ready(ClientCrypto::NativeRoots)
            ));
        }
        _ => panic!("not connecting"),
    }
    assert!(matches!(
        connection_step(ConnectionOutcome::HandshakeDone),
        ConnectionAction::Signal(InternalAsyncMessage::Connected(None))
    ));
    assert!(matches!(
        connection_step(ConnectionOutcome::SignalDelivered),
        ConnectionAction::OpenSendStream
    ));
    assert!(matches!(
        connection_step(ConnectionOutcome::StreamOpened),
        ConnectionAction::RunStreams
    ));
}

#[test]
fn a_connection_can_stop_or_abort() {
    assert!(matches!(
        connection_step(ConnectionOutcome::Request(None)),
        ConnectionAction::Stop
    ));
    assert!(matches!(
        connection_step(ConnectionOutcome::HandshakeFailed),
        ConnectionAction::Stop
    ));
    assert!(matches!(
        connection_step(ConnectionOutcome::SetupFailed(ConnectionFailure::Endpoint)),
        ConnectionAction::Abort(ConnectionFailure::Endpoint)
    ));
    assert!(matches!(
        connection_step(ConnectionOutcome::SignalRefused),
        ConnectionAction::Abort(ConnectionFailure::SignalConnected)
    ));
    assert!(matches!(
        connection_step(ConnectionOutcome::StreamRefused),
        ConnectionAction::Abort(ConnectionFailure::OpenSendStream)
    ));
}

#[test]
fn failures_are_put_in_words() {
    assert_eq!(
        failure_message(ConnectionFailure::ServerAddress),
        "Failed to parse server address"
    );
    assert_eq!(
        failure_message(ConnectionFailure::Configuration),
        "Failed to configure client"
    );
    assert_eq!(
        failure_message(ConnectionFailure::Endpoint),
        "Failed to create client endpoint"
    );
    assert_eq!(
        failure_message(ConnectionFailure::Connect),
        "Failed to connect: configuration error"
    );
    assert_eq!(
        failure_message(ConnectionFailure::SignalConnected),
        "Failed to signal connection to sync client"
    );
    assert_eq!(
        failure_message(ConnectionFailure::OpenSendStream),
        "Failed to open send stream"
    );
    assert_eq!(
        failure_message(ConnectionFailure::LocalAddress),
        "called `Result::unwrap()` on an `Err` value"
    );
    assert_eq!(forward_message(), "called `Result::unwrap()` on an `Err` value");
    assert_eq!(
        with_cause(failure_message(ConnectionFailure::Endpoint), "Os"),
        "Failed to create client endpoint: Os"
    );
    assert_eq!(
        lost_signal_message(),
        "Failed to signal connection lost to sync client"
    );
}

#[test]
fn payloads_are_sent_until_a_frame_fails() {
    let payload = Bytes::from_static(b"p");
    match network_send_step(SendOutcome::Outgoing(Some(payload.clone()))) {
        SendAction::SendFrame(frame) => assert_eq!(frame, payload),
        _ => panic!("not sending"),
    }
    assert!(matches!(
        network_send_step(SendOutcome::FrameSent),
        SendAction::AwaitOutgoing
    ));
    assert!(matches!(
        network_send_step(SendOutcome::FrameFailed),
        SendAction::BroadcastClose
    ));
    for heard in [true, false] {
        assert!(matches!(
            network_send_step(SendOutcome::CloseBroadcast { heard }),
            SendAction::Signal(InternalAsyncMessage::LostConnection)
        ));
    }
    assert!(matches!(
        network_send_step(SendOutcome::SignalDelivered),
        SendAction::AwaitOutgoing
    ));
    assert!(matches!(network_send_step(SendOutcome::SignalRefused), SendAction::Abort));
}

#[test]
fn sending_ends() {
    assert!(matches!(
        network_send_step(SendOutcome::CloseRequested),
        SendAction::Finish(StreamEnd::Forced)
    ));
    assert!(matches!(
        network_send_step(SendOutcome::Outgoing(None)),
        SendAction::Finish(StreamEnd::Ended)
    ));
}

#[test]
fn each_stream_gets_a_reader_until_the_readers_are_stopped() {
    assert_eq!(network_listen_step(ListenOutcome::StreamAccepted), ListenAction::SpawnReader);
    assert_eq!(network_listen_step(ListenOutcome::ReaderSpawned), ListenAction::AwaitStream);
    assert_eq!(
        network_listen_step(ListenOutcome::StreamFailed),
        ListenAction::ShutdownReaders(StreamEnd::Ended)
    );
    assert_eq!(
        network_listen_step(ListenOutcome::StreamsExhausted),
        ListenAction::ShutdownReaders(StreamEnd::Ended)
    );
    assert_eq!(
        network_listen_step(ListenOutcome::CloseRequested),
        ListenAction::ShutdownReaders(StreamEnd::Forced)
    );
    assert_eq!(network_listen_step(ListenOutcome::ReadersStopped), ListenAction::Finish);
}

#[test]
fn frames_are_forwarded() {
    let payload = Bytes::from_static(b"frame");
    match stream_read_step(ReadOutcome::Frame(payload.clone())) {
        ReadAction::Forward(forwarded) => assert_eq!(forwarded, payload),
        _ => panic!("not forwarding"),
    }
    assert!(matches!(stream_read_step(ReadOutcome::Forwarded), ReadAction::AwaitFrame));
    assert!(matches!(stream_read_step(ReadOutcome::FrameFailed), ReadAction::Finish));
    assert!(matches!(stream_read_step(ReadOutcome::StreamEnded), ReadAction::Finish));
    assert!(matches!(stream_read_step(ReadOutcome::ForwardRefused), ReadAction::Abort));
}

#[test]
fn news_of_the_task_reaches_the_client() {
    let (mut client, task) = start_async_client();
    if let ConnectionAction::Signal(message) = connection_step(ConnectionOutcome::HandshakeDone) {
        task.to_sync_client.try_send(message).unwrap();
    }
    assert!(matches!(
        update_sync_client(&mut client).as_slice(),
        [ClientEvent::Connection(_)]
    ));
    assert!(client.is_connected());
    if let SendAction::Signal(message) =
        network_send_step(SendOutcome::CloseBroadcast { heard: true })
    {
        task.to_sync_client.try_send(message).unwrap();
    }
    assert!(matches!(
        update_sync_client(&mut client).as_slice(),
        [ClientEvent::ConnectionLost(_)]
    ));
    assert!(!client.is_connected());
}

#[test]
fn starting_a_connection_goes_step_by_step() {
    let mut action = SetupAction::ParseServerAddress;
    let mut taken = Vec::new();
    loop {
        taken.push(action);
        action = setup_step(match action {
            SetupAction::ParseServerAddress => SetupOutcome::ServerAddressParsed,
            SetupAction::Configure => SetupOutcome::Configured,
            SetupAction::ParseLocalAddress => SetupOutcome::LocalAddressParsed,
            SetupAction::CreateEndpoint => SetupOutcome::EndpointCreated,
            SetupAction::StartConnection => SetupOutcome::ConnectionStarted,
            SetupAction::AwaitHandshake | SetupAction::Fail(_) => break,
        });
    }
    assert_eq!(
        taken,
        vec![
            SetupAction::ParseServerAddress,
            SetupAction::Configure,
            SetupAction::ParseLocalAddress,
            SetupAction::CreateEndpoint,
            SetupAction::StartConnection,
            SetupAction::AwaitHandshake,
        ]
    );
}

#[test]
fn a_failed_step_decides_the_failure() {
    for (outcome, failure) in [
        (SetupOutcome::ServerAddressInvalid, ConnectionFailure::ServerAddress),
        (SetupOutcome::ConfigurationFailed, ConnectionFailure::Configuration),
        (SetupOutcome::LocalAddressInvalid, ConnectionFailure::LocalAddress),
        (SetupOutcome::EndpointRefused, ConnectionFailure::Endpoint),
        (SetupOutcome::ConnectionRefused, ConnectionFailure::Connect),
    ] {
        assert_eq!(setup_step(outcome), SetupAction::Fail(failure));
    }
}
