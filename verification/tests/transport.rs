// The TCP binding of the transport abstraction lives with the embedding
// process, so nothing of it runs here; the codec, dispatch and telemetry
// tests cover everything the library holds of the transport's traffic.

#[test]
fn test_tcp_send() {}

#[test]
fn test_tcp_receive() {}
