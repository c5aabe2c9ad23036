use bytes::Bytes;
use quinnet_client::certificate::{
    CertStore, CertVerificationInfo, CertVerificationStatus, CertVerifierAction,
    CertVerifierBehaviour, Certificate, CertificateFingerprint, CertificateVerificationMode,
    KnownHosts, ServerName, TrustOnFirstUseConfig, VerifierBehaviours,
};
use quinnet_client::channel::{ReceiveRefusal, SendRefusal};
use quinnet_client::client::{
    close_result, connect_result, decode_result, receive_result, send_result, start_async_client,
    update_sync_client, AsyncClient, Client, ClientConfigurationData, ClientEvent,
    InternalAsyncMessage, InternalSyncMessage, QuinnetClientPlugin,
    DEFAULT_INTERNAL_MESSAGE_CHANNEL_SIZE, DEFAULT_KNOWN_HOSTS_FILE,
};
use quinnet_client::error::{QuinnetError, DEFAULT_MESSAGE_QUEUE_SIZE};
use tokio::sync::{broadcast, mpsc, oneshot};

fn config() -> ClientConfigurationData {
    ClientConfigurationData::new("127.0.0.1".to_string(), 6000, "0.0.0.0".to_string(), 0)
}

fn connected() -> (Client, AsyncClient) {
    let (mut client, task) = start_async_client();
    task.to_sync_client.try_send(InternalAsyncMessage::Connected(None)).unwrap();
    update_sync_client(&mut client);
    (client, task)
}

fn server_name(name: &str) -> ServerName {
    ServerName { name: name.to_string() }
}

fn fingerprint(byte: u8) -> CertificateFingerprint {
    CertificateFingerprint { bytes: vec![byte; 32] }
}

#[test]
fn configuration_gives_both_addresses() {
    let data = config();
    assert_eq!(data.server_address(), "127.0.0.1:6000");
    assert_eq!(data.server_name(), "127.0.0.1");
    assert_eq!(data.local_bind_address(), "0.0.0.0:0");
}

#[test]
fn constants_have_their_values() {
    assert_eq!(DEFAULT_INTERNAL_MESSAGE_CHANNEL_SIZE, 100);
    assert_eq!(DEFAULT_KNOWN_HOSTS_FILE, "quinnet/known_hosts");
}

#[test]
fn plugin_has_a_default() {
    let QuinnetClientPlugin {} = QuinnetClientPlugin::default();
}

#[test]
fn fresh_client_is_not_connected() {
    let (mut client, _task) = start_async_client();
    assert!(!client.is_connected());
    assert_eq!(update_sync_client(&mut client).len(), 0);
    assert!(!client.is_connected());
    assert_eq!(client.receive_payload().unwrap(), None);
}

#[test]
fn connect_hands_the_request_to_the_task() {
    let (client, mut task) = start_async_client();
    let behaviours = VerifierBehaviours {
        unknown: CertVerifierBehaviour::ImmediateAction(CertVerifierAction::TrustAndStore),
        untrusted: CertVerifierBehaviour::RequestClientAction,
        trusted: CertVerifierBehaviour::ImmediateAction(CertVerifierAction::TrustOnce),
    };
    let mode = CertificateVerificationMode::TrustOnFirstUse(TrustOnFirstUseConfig {
        known_hosts: KnownHosts::Store(CertStore {
            entries: vec![(server_name("example.org"), fingerprint(7))],
        }),
        verifier_behaviour: behaviours,
    });
    assert_eq!(client.connect(config(), mode), Ok(()));
    assert!(!client.is_connected());
    let InternalSyncMessage::Connect { config: data, cert_mode } =
        task.from_sync_client.try_recv().unwrap();
    assert_eq!(data.server_address(), "127.0.0.1:6000");
    match cert_mode {
        CertificateVerificationMode::TrustOnFirstUse(tofu) => {
            assert_eq!(
                tofu.verifier_behaviour.untrusted,
                CertVerifierBehaviour::RequestClientAction
            );
            match tofu.known_hosts {
                KnownHosts::Store(store) => {
                    assert_eq!(store.entries.len(), 1);
                    assert_eq!(store.entries[0].0.name, "example.org");
                    assert_eq!(store.entries[0].1.bytes, vec![7u8; 32]);
                }
                KnownHosts::HostsFile(_) => panic!("not a file"),
            }
        }
        _ => panic!("not the requested mode"),
    }
    assert!(task.from_sync_client.try_recv().is_err());
}

#[test]
fn connect_reports_a_full_queue() {
    let (client, mut task) = start_async_client();
    for _ in 0..DEFAULT_INTERNAL_MESSAGE_CHANNEL_SIZE {
        assert_eq!(
            client.connect(config(), CertificateVerificationMode::SkipVerification),
            Ok(())
        );
    }
    assert_eq!(
        client.connect(config(), CertificateVerificationMode::SkipVerification),
        Err(QuinnetError::FullQueue)
    );
    task.from_sync_client.try_recv().unwrap();
    assert_eq!(
        client.connect(config(), CertificateVerificationMode::SkipVerification),
        Ok(())
    );
}

#[test]
fn connect_reports_a_closed_queue_as_full() {
    let (client, task) = start_async_client();
    drop(task);
    assert_eq!(
        client.connect(config(), CertificateVerificationMode::SignedByCertificateAuthority),
        Err(QuinnetError::FullQueue)
    );
}

#[test]
fn payloads_reach_the_task_in_order() {
    let (client, mut task) = start_async_client();
    assert_eq!(client.send_payload(vec![1u8, 2, 3]), Ok(()));
    assert_eq!(client.send_payload(Bytes::from_static(b"second")), Ok(()));
    assert_eq!(client.send_payload("third"), Ok(()));
    assert_eq!(task.to_server_receiver.try_recv().unwrap(), Bytes::from_static(&[1, 2, 3]));
    assert_eq!(task.to_server_receiver.try_recv().unwrap(), Bytes::from_static(b"second"));
    assert_eq!(task.to_server_receiver.try_recv().unwrap(), Bytes::from_static(b"third"));
    assert!(task.to_server_receiver.try_recv().is_err());
}

#[test]
fn send_payload_reports_full_and_closed_queues() {
    let (client, task) = start_async_client();
    for i in 0..DEFAULT_MESSAGE_QUEUE_SIZE {
        assert_eq!(client.send_payload(vec![(i % 256) as u8]), Ok(()));
    }
    assert_eq!(client.send_payload(vec![0u8]), Err(QuinnetError::FullQueue));
    drop(task);
    assert_eq!(client.send_payload(vec![0u8]), Err(QuinnetError::ChannelClosed));
}

#[test]
fn payloads_are_received_in_order_until_the_channel_closes() {
    let (mut client, task) = start_async_client();
    task.from_server_sender.try_send(Bytes::from_static(b"a")).unwrap();
    task.from_server_sender.try_send(Bytes::from_static(b"b")).unwrap();
    assert_eq!(client.receive_payload(), Ok(Some(Bytes::from_static(b"a"))));
    task.from_server_sender.try_send(Bytes::from_static(b"c")).unwrap();
    assert_eq!(client.receive_payload(), Ok(Some(Bytes::from_static(b"b"))));
    drop(task);
    assert_eq!(client.receive_payload(), Ok(Some(Bytes::from_static(b"c"))));
    assert_eq!(client.receive_payload(), Err(QuinnetError::ChannelClosed));
    assert_eq!(client.receive_payload(), Err(QuinnetError::ChannelClosed));
}

#[test]
fn messages_survive_the_round_trip() {
    let (mut client, mut task) = start_async_client();
    let message = (42u32, "hello".to_string(), vec![1u8, 2, 3]);
    assert_eq!(client.send_message(message.clone(), |m| bincode::serialize(m)), Ok(()));
    let payload = task.to_server_receiver.try_recv().unwrap();
    assert_eq!(payload.as_ref(), bincode::serialize(&message).unwrap().as_slice());
    task.from_server_sender.try_send(payload).unwrap();
    let received: Option<(u32, String, Vec<u8>)> =
        client.receive_message(|p| bincode::deserialize(p)).unwrap();
    assert_eq!(received, Some(message));
    let nothing: Option<u32> = client.receive_message(|p| bincode::deserialize(p)).unwrap();
    assert_eq!(nothing, None);
}

#[test]
fn undecodable_payloads_are_reported_and_consumed() {
    let (mut client, task) = start_async_client();
    task.from_server_sender.try_send(Bytes::from_static(b"x")).unwrap();
    let received: Result<Option<u64>, QuinnetError> =
        client.receive_message(|p| bincode::deserialize(p));
    assert_eq!(received, Err(QuinnetError::Deserialization));
    assert_eq!(client.receive_payload(), Ok(None));
    drop(task);
    let closed: Result<Option<u64>, QuinnetError> =
        client.receive_message(|p| bincode::deserialize(p));
    assert_eq!(closed, Err(QuinnetError::ChannelClosed));
}

#[test]
fn unencodable_messages_are_reported_and_not_sent() {
    let (client, mut task) = start_async_client();
    assert_eq!(client.send_message(1u8, |_| Err("no")), Err(QuinnetError::Serialization));
    assert!(task.to_server_receiver.try_recv().is_err());
    drop(task);
    assert_eq!(
        client.send_message(1u8, |m| bincode::serialize(m)),
        Err(QuinnetError::ChannelClosed)
    );
}

#[test]
fn disconnecting_a_disconnected_client_sends_nothing() {
    let (mut client, mut task) = start_async_client();
    assert_eq!(client.disconnect(), Ok(()));
    assert!(!client.is_connected());
    assert!(matches!(
        task.close_receiver.try_recv(),
        Err(broadcast::error::TryRecvError::Empty)
    ));
    drop(task);
    assert_eq!(client.disconnect(), Ok(()));
}

#[test]
fn disconnecting_closes_the_streams_once() {
    let (mut client, mut task) = connected();
    assert!(client.is_connected());
    assert_eq!(client.disconnect(), Ok(()));
    assert!(!client.is_connected());
    assert_eq!(client.disconnect(), Ok(()));
    assert_eq!(task.close_receiver.try_recv(), Ok(()));
    assert!(task.close_receiver.try_recv().is_err());
}

#[test]
fn disconnecting_without_streams_keeps_the_connection() {
    let (mut client, task) = connected();
    drop(task);
    assert_eq!(client.disconnect(), Err(QuinnetError::ChannelClosed));
    assert!(client.is_connected());
}

#[test]
fn client_and_task_share_the_close_channel() {
    let (mut client, task) = connected();
    let mut other = task.close_sender.subscribe();
    assert_eq!(client.disconnect(), Ok(()));
    assert_eq!(other.try_recv(), Ok(()));
}

#[test]
fn disconnecting_reaches_both_stream_tasks() {
    let (mut client, mut task) = connected();
    assert_eq!(client.disconnect(), Ok(()));
    assert_eq!(task.close_receiver.try_recv(), Ok(()));
    assert_eq!(task.listener_close_receiver.try_recv(), Ok(()));
    assert!(task.listener_close_receiver.try_recv().is_err());
}

#[test]
fn the_latest_news_decides_whether_connected() {
    let (mut client, mut task) = start_async_client();
    task.to_sync_client.try_send(InternalAsyncMessage::Connected(None)).unwrap();
    assert!(!client.is_connected());
    update_sync_client(&mut client);
    assert!(client.is_connected());
    assert_eq!(client.disconnect(), Ok(()));
    assert!(!client.is_connected());
    client.apply_message(InternalAsyncMessage::Connected(None));
    assert_eq!(client.receive_payload(), Ok(None));
    assert!(client.is_connected());
    task.to_sync_client.try_send(InternalAsyncMessage::LostConnection).unwrap();
    update_sync_client(&mut client);
    assert!(!client.is_connected());
    assert_eq!(task.close_receiver.try_recv(), Ok(()));
}

#[test]
fn waiting_payloads_outlive_the_connection() {
    let (mut client, task) = connected();
    task.from_server_sender.try_send(Bytes::from_static(b"a")).unwrap();
    task.from_server_sender.try_send(Bytes::from_static(b"b")).unwrap();
    assert_eq!(client.disconnect(), Ok(()));
    assert_eq!(client.receive_payload(), Ok(Some(Bytes::from_static(b"a"))));
    assert_eq!(client.receive_payload(), Ok(Some(Bytes::from_static(b"b"))));
    assert!(!client.is_connected());
}

#[test]
fn the_last_news_decides_the_state() {
    let (mut client, task) = start_async_client();
    let certificates = vec![Certificate { der: vec![0x30, 0x00] }];
    task.to_sync_client
        .try_send(InternalAsyncMessage::Connected(Some(certificates)))
        .unwrap();
    task.to_sync_client.try_send(InternalAsyncMessage::LostConnection).unwrap();
    task.to_sync_client.try_send(InternalAsyncMessage::Connected(None)).unwrap();
    task.to_sync_client
        .try_send(InternalAsyncMessage::TrustedCertificateUpdate {
            server_name: server_name("example.org"),
            fingerprint: fingerprint(3),
        })
        .unwrap();
    let events = update_sync_client(&mut client);
    assert_eq!(events.len(), 4);
    assert!(matches!(events[0], ClientEvent::Connection(_)));
    assert!(matches!(events[1], ClientEvent::ConnectionLost(_)));
    assert!(matches!(events[2], ClientEvent::Connection(_)));
    match &events[3] {
        ClientEvent::CertificateUpdate(update) => {
            assert_eq!(update.server_name.name, "example.org");
            assert_eq!(update.fingerprint.bytes, vec![3u8; 32]);
        }
        _ => panic!("not a certificate update"),
    }
    assert!(client.is_connected());

    task.to_sync_client.try_send(InternalAsyncMessage::LostConnection).unwrap();
    let events = update_sync_client(&mut client);
    assert_eq!(events.len(), 1);
    assert!(matches!(events[0], ClientEvent::ConnectionLost(_)));
    assert!(!client.is_connected());
}

#[test]
fn certificate_requests_can_be_answered() {
    let (mut client, task) = connected();
    let (action_sender, mut action_receiver) = oneshot::channel();
    let status = CertVerificationStatus::UntrustedCertificate(CertVerificationInfo {
        server_name: server_name("example.org"),
        fingerprint: fingerprint(1),
        known_fingerprint: Some(fingerprint(2)),
    });
    task.to_sync_client
        .try_send(InternalAsyncMessage::CertificateActionRequest { status, action_sender })
        .unwrap();
    let mut events = update_sync_client(&mut client);
    assert_eq!(events.len(), 1);
    assert!(client.is_connected());
    match events.remove(0) {
        ClientEvent::CertificateInteraction(event) => {
            match &event.status {
                CertVerificationStatus::UntrustedCertificate(info) => {
                    assert_eq!(info.server_name.name, "example.org");
                    assert_eq!(info.fingerprint.bytes, vec![1u8; 32]);
                }
                _ => panic!("not the status that was sent"),
            }
            event.action_sender.send(CertVerifierAction::AbortConnection).unwrap();
        }
        _ => panic!("not a certificate interaction"),
    }
    assert_eq!(action_receiver.try_recv(), Ok(CertVerifierAction::AbortConnection));
}

#[test]
fn a_gone_task_raises_nothing_and_leaves_the_state() {
    let (mut client, task) = connected();
    drop(task);
    assert_eq!(update_sync_client(&mut client).len(), 0);
    assert_eq!(update_sync_client(&mut client).len(), 0);
    assert!(client.is_connected());
}

#[test]
fn two_updates_come_to_the_same_as_one() {
    let (mut once, once_task) = start_async_client();
    let (mut twice, twice_task) = start_async_client();
    once_task.to_sync_client.try_send(InternalAsyncMessage::Connected(None)).unwrap();
    once_task.to_sync_client.try_send(InternalAsyncMessage::LostConnection).unwrap();
    let together = update_sync_client(&mut once);
    twice_task.to_sync_client.try_send(InternalAsyncMessage::Connected(None)).unwrap();
    let mut apart = update_sync_client(&mut twice);
    twice_task.to_sync_client.try_send(InternalAsyncMessage::LostConnection).unwrap();
    apart.extend(update_sync_client(&mut twice));
    assert_eq!(format!("{:?}", together), format!("{:?}", apart));
    assert_eq!(once.is_connected(), twice.is_connected());
}

#[test]
fn one_message_is_applied() {
    let (mut client, _task) = start_async_client();
    let event = client.apply_message(InternalAsyncMessage::Connected(None));
    assert!(matches!(event, ClientEvent::Connection(_)));
    assert!(client.is_connected());
    let event = client.apply_message(InternalAsyncMessage::LostConnection);
    assert!(matches!(event, ClientEvent::ConnectionLost(_)));
    assert!(!client.is_connected());
}

#[test]
fn answers_are_reported() {
    let request = || InternalSyncMessage::Connect {
        config: config(),
        cert_mode: CertificateVerificationMode::SkipVerification,
    };
    assert_eq!(connect_result(Ok(())), Ok(()));
    assert_eq!(
        connect_result(Err(SendRefusal::Full(request()))),
        Err(QuinnetError::FullQueue)
    );
    assert_eq!(
        connect_result(Err(SendRefusal::Closed(request()))),
        Err(QuinnetError::FullQueue)
    );
    let payload = || Bytes::from_static(b"p");
    assert_eq!(send_result(Ok(())), Ok(()));
    assert_eq!(send_result(Err(SendRefusal::Full(payload()))), Err(QuinnetError::FullQueue));
    assert_eq!(
        send_result(Err(SendRefusal::Closed(payload()))),
        Err(QuinnetError::ChannelClosed)
    );
    assert_eq!(receive_result(Ok(payload())), Ok(Some(payload())));
    assert_eq!(receive_result(Err(ReceiveRefusal::Empty)), Ok(None));
    assert_eq!(
        receive_result(Err(ReceiveRefusal::Disconnected)),
        Err(QuinnetError::ChannelClosed)
    );
    assert_eq!(decode_result::<u8, ()>(Ok(5)), Ok(Some(5)));
    assert_eq!(decode_result::<u8, ()>(Err(())), Err(QuinnetError::Deserialization));
    assert_eq!(close_result(Ok(2)), Ok(()));
    assert_eq!(close_result(Err(())), Err(QuinnetError::ChannelClosed));
}

#[test]
fn queues_are_separate() {
    let (mut client, mut task) = start_async_client();
    assert_eq!(client.send_payload(vec![9u8]), Ok(()));
    assert_eq!(client.receive_payload(), Ok(None));
    assert!(matches!(
        task.from_sync_client.try_recv(),
        Err(mpsc::error::TryRecvError::Empty)
    ));
    assert_eq!(task.to_server_receiver.try_recv().unwrap(), Bytes::from_static(&[9]));
}
