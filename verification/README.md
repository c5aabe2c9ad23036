# quinnet_client

The client half of a message-passing layer over QUIC, written and proved in
Verus.

- `src/client.rs`: the client, its configuration, the messages between it and
  its connection task, and the events it raises
- `src/channel.rs`: the channels of tokio and the buffers of bytes that it
  relies on, with what is taken for granted about them
- `src/certificate.rs`: server certificates, as far as a client carries them
- `src/connection.rs`, `src/streams.rs`: the connection task and the tasks of
  its streams, as steps
- `src/address.rs`: socket addresses as text
- `src/laws.rs`: what holds over several calls
- `app/`: the plugin for bevy, and the loops that perform the steps with quinn
