use ctrader_rs::client::connector::{ConnectionState, EstablishAction, CONNECT_RETRY_SECS};
use ctrader_rs::client::endpoint::Encoding;
use ctrader_rs::client::receiver::{on_message, InboundEvent, Severity};
use ctrader_rs::client::sender::{
    send_heartbeat, Heartbeat, OutboundMessage, HEARTBEAT_EVENT, HEARTBEAT_INTERVAL_SECS,
};
use ctrader_rs::codec::decode_binary;
use ctrader_rs::error::{CTraderError, ConnectorError};
use ctrader_rs::types::CTraderClient;

fn client(is_demo: bool) -> CTraderClient {
    CTraderClient::new(
        is_demo,
        "client-id".to_string(),
        "access-token".to_string(),
        "client-secret".to_string(),
        "https://example.org/cb".to_string(),
        "refresh-token".to_string(),
    )
}

fn establish(outcomes: &[bool]) -> (ConnectionState, u64, u64) {
    let mut state = ConnectionState::new();
    let mut attempts = 0u64;
    let mut waited = 0u64;
    for opened in outcomes {
        if state == ConnectionState::Connected || state == ConnectionState::Failed {
            break;
        }
        attempts += 1;
        match state.on_attempt(*opened) {
            EstablishAction::RetryAfter(secs) => waited += secs,
            EstablishAction::Start | EstablishAction::GiveUp => {}
        }
    }
    (state, attempts, waited)
}

#[test]
fn new_client_is_connecting_to_the_protobuf_port() {
    let demo = client(true);
    assert_eq!(demo.endpoint, "wss://demo.ctraderapi.com:5035");
    assert_eq!(demo.connection, ConnectionState::Connecting);
    assert_eq!(demo.auth.ctrader_client_id, "client-id");
    assert_eq!(demo.auth.ctrader_access_token, "access-token");
    assert_eq!(demo.auth.ctrader_client_secret, "client-secret");
    assert_eq!(demo.auth.ctrader_redirect_url, "https://example.org/cb");
    assert_eq!(demo.auth.ctrader_refresh_token, "refresh-token");
    let live = client(false);
    assert_eq!(live.endpoint, "wss://live.ctraderapi.com:5035");
}

#[test]
fn the_retry_delay_is_five_seconds_and_the_heartbeat_interval_thirty() {
    assert_eq!(CONNECT_RETRY_SECS, 5);
    assert_eq!(HEARTBEAT_INTERVAL_SECS, 30);
}

#[test]
fn establish_connects_after_n_plus_one_attempts() {
    for failures in [0usize, 1, 3, 10] {
        let mut outcomes = vec![false; failures];
        outcomes.push(true);
        outcomes.push(true);
        let (state, attempts, waited) = establish(&outcomes);
        assert_eq!(state, ConnectionState::Connected);
        assert_eq!(attempts, failures as u64 + 1);
        assert_eq!(waited, failures as u64 * CONNECT_RETRY_SECS);
        assert!(waited <= (failures as u64 + 1) * CONNECT_RETRY_SECS);
    }
}

#[test]
fn establish_keeps_trying_while_the_transport_refuses() {
    let (state, attempts, waited) = establish(&[false; 50]);
    assert_eq!(state, ConnectionState::Connecting);
    assert_eq!(attempts, 50);
    assert_eq!(waited, 250);
}

#[test]
fn on_attempt_says_what_to_do_next() {
    let mut state = ConnectionState::Connecting;
    assert_eq!(state.on_attempt(false), EstablishAction::RetryAfter(5));
    assert_eq!(state, ConnectionState::Connecting);
    assert_eq!(state.on_attempt(true), EstablishAction::Start);
    assert_eq!(state, ConnectionState::Connected);
    let mut failed = ConnectionState::Failed;
    assert_eq!(failed.on_attempt(true), EstablishAction::GiveUp);
    assert_eq!(failed, ConnectionState::Failed);
    let mut disconnected = ConnectionState::Disconnected;
    assert_eq!(disconnected.on_attempt(false), EstablishAction::RetryAfter(5));
    assert_eq!(disconnected, ConnectionState::Connecting);
}

#[test]
fn disconnect_twice_is_no_error() {
    for start in [
        ConnectionState::Connecting,
        ConnectionState::Connected,
        ConnectionState::Disconnected,
        ConnectionState::Failed,
    ] {
        let mut state = start;
        assert_eq!(state.disconnect(), Ok(()));
        let after_first = state;
        assert_eq!(state.disconnect(), Ok(()));
        assert_eq!(state, after_first);
    }
    let mut connected = ConnectionState::Connected;
    connected.disconnect().unwrap();
    assert_eq!(connected, ConnectionState::Disconnected);
}

#[test]
fn connect_does_not_retry() {
    let mut state = ConnectionState::Connecting;
    assert_eq!(state.connect(false), Err(ConnectorError::ConnectFailed));
    assert_eq!(state, ConnectionState::Disconnected);
    assert_eq!(state.connect(true), Ok(()));
    assert_eq!(state, ConnectionState::Connected);
    assert!(state.is_connected());
}

#[test]
fn reconnect_closes_then_connects() {
    let mut state = ConnectionState::Connected;
    assert_eq!(state.reconnect(true), Ok(()));
    assert_eq!(state, ConnectionState::Connected);
    assert_eq!(state.reconnect(false), Err(ConnectorError::ConnectFailed));
    assert_eq!(state, ConnectionState::Disconnected);
    assert!(!state.is_connected());
    assert_eq!(state.reconnect(true), Ok(()));
    assert_eq!(state, ConnectionState::Connected);
}

#[test]
fn failed_is_terminal() {
    let mut state = ConnectionState::Connected;
    state.on_violation();
    assert_eq!(state, ConnectionState::Failed);
    assert_eq!(state.connect(true), Err(ConnectorError::ConnectFailed));
    assert_eq!(state, ConnectionState::Failed);
    assert_eq!(state.reconnect(true), Err(ConnectorError::ConnectFailed));
    assert_eq!(state, ConnectionState::Failed);
    assert_eq!(state.disconnect(), Ok(()));
    assert_eq!(state, ConnectionState::Failed);
    state.on_close();
    assert_eq!(state, ConnectionState::Failed);
}

#[test]
fn close_and_violation_only_move_a_connected_session() {
    let mut state = ConnectionState::Connected;
    state.on_close();
    assert_eq!(state, ConnectionState::Disconnected);
    state.on_close();
    assert_eq!(state, ConnectionState::Disconnected);
    state.on_violation();
    assert_eq!(state, ConnectionState::Disconnected);
    let mut connecting = ConnectionState::Connecting;
    connecting.on_close();
    assert_eq!(connecting, ConnectionState::Connecting);
    connecting.on_violation();
    assert_eq!(connecting, ConnectionState::Connecting);
}

#[test]
fn heartbeat_messages() {
    match send_heartbeat(Encoding::Json) {
        OutboundMessage::Text(text) => assert_eq!(text, "heartbeat"),
        OutboundMessage::Binary(_) => panic!("a JSON session sends text"),
    }
    match send_heartbeat(Encoding::Protobuf) {
        OutboundMessage::Binary(bytes) => {
            assert_eq!(bytes, vec![0x33, 0x00, 0x08, 0x33]);
            let (id, payload) = decode_binary(&bytes).unwrap();
            assert_eq!(id, HEARTBEAT_EVENT);
            assert_eq!(payload, vec![0x08, 0x33]);
        }
        OutboundMessage::Text(_) => panic!("a protobuf session sends bytes"),
    }
}

#[test]
fn heartbeat_stops_at_the_first_failed_send() {
    let mut writes = 0u32;
    let mut task = Heartbeat::new();
    let surfaced = loop {
        writes += 1;
        let outcome = if writes == 3 {
            Err(CTraderError::Other("write half is closed".to_string()))
        } else {
            Ok(())
        };
        let sent_before = task.sent;
        match task.on_send(outcome) {
            Ok(next) => {
                assert_eq!(next.sent, sent_before + 1);
                task = next;
            }
            Err(error) => {
                assert_eq!(sent_before, 2);
                break error;
            }
        }
        assert!(writes < 10);
    };
    assert_eq!(writes, 3);
    match surfaced {
        CTraderError::Other(reason) => assert_eq!(reason, "write half is closed"),
        other => panic!("another error came out: {:?}", other),
    }
}

#[test]
fn heartbeat_count_stops_at_the_top() {
    let task = Heartbeat { sent: u64::MAX, due_in_secs: 30 };
    assert_eq!(task.on_send(Ok(())).unwrap().sent, u64::MAX);
    let task = Heartbeat { sent: u64::MAX - 1, due_in_secs: 30 };
    assert_eq!(task.on_send(Ok(())).unwrap().sent, u64::MAX);
    assert_eq!(Heartbeat::new().sent, 0);
}

#[test]
fn the_first_heartbeat_goes_at_once_and_the_others_thirty_seconds_apart() {
    let mut task = Heartbeat::new();
    assert_eq!(task, Heartbeat { sent: 0, due_in_secs: 0 });
    let mut clock = 0u64;
    let mut written_at = Vec::new();
    for _ in 0..5 {
        clock += task.due_in_secs;
        written_at.push(clock);
        task = task.on_send(Ok(())).unwrap();
        assert_eq!(task.due_in_secs, HEARTBEAT_INTERVAL_SECS);
    }
    assert_eq!(written_at, vec![0, 30, 60, 90, 120]);
    assert_eq!(task, Heartbeat { sent: 5, due_in_secs: 30 });
}

#[test]
fn listener_classifies_each_read() {
    let step = on_message(Ok(InboundEvent::Text("hello".to_string())));
    assert_eq!((step.severity, step.record.as_str(), step.proceed), (Severity::Info, "Text message: hello", true));
    let step = on_message(Ok(InboundEvent::Binary(vec![0; 12])));
    assert_eq!((step.severity, step.record.as_str(), step.proceed), (Severity::Info, "Binary message: 12 bytes", true));
    let step = on_message(Ok(InboundEvent::Binary(vec![])));
    assert_eq!(step.record, "Binary message: 0 bytes");
    let step = on_message(Ok(InboundEvent::Close));
    assert_eq!((step.severity, step.record.as_str(), step.proceed), (Severity::Warn, "Connection closed", false));
    let step = on_message(Ok(InboundEvent::Other));
    assert_eq!((step.severity, step.record.as_str(), step.proceed), (Severity::Info, "Other message type", true));
}

#[test]
fn listener_reads_on_after_a_failed_read() {
    let step = on_message(Err("reset by peer".to_string()));
    assert_eq!(step.severity, Severity::Error);
    assert_eq!(step.record, "Error reading message: reset by peer");
    assert!(step.proceed);
}

#[test]
fn test_send_heartbeat() {
    let mut connection = ConnectionState::new();
    assert_eq!(connection.on_attempt(true), EstablishAction::Start);
    let mut wire: Vec<OutboundMessage> = Vec::new();
    let mut task = Heartbeat::new();
    for _ in 0..4 {
        wire.push(send_heartbeat(Encoding::Json));
        task = task.on_send(Ok(())).unwrap();
    }
    assert_eq!(task.sent, 4);
    let mut records = Vec::new();
    let mut echoed = wire.into_iter().map(|message| match message {
        OutboundMessage::Text(text) => InboundEvent::Text(text),
        OutboundMessage::Binary(bytes) => InboundEvent::Binary(bytes),
    }).chain(std::iter::once(InboundEvent::Close));
    loop {
        let event = echoed.next().expect("the listener stops at the close");
        let step = on_message(Ok(event));
        records.push(step.record);
        if !step.proceed {
            connection.on_close();
            break;
        }
    }
    assert_eq!(
        records,
        vec![
            "Text message: heartbeat",
            "Text message: heartbeat",
            "Text message: heartbeat",
            "Text message: heartbeat",
            "Connection closed",
        ]
    );
    assert_eq!(connection, ConnectionState::Disconnected);
}

/// A write half that takes one byte at a time and notes who wrote it.
struct ByteSocket {
    wire: Vec<(usize, u8)>,
}

/// Writes frames as the client does: the lock is taken for one whole frame.
/// The writer gives way after every byte, so that another writer would get in
/// if the lock let it.
async fn write_frames(
    socket: std::sync::Arc<tokio::sync::Mutex<ByteSocket>>,
    writer: usize,
    frame: Vec<u8>,
    times: usize,
) {
    for _ in 0..times {
        let mut held = socket.lock().await;
        for byte in &frame {
            held.wire.push((writer, *byte));
            tokio::task::yield_now().await;
        }
        drop(held);
        tokio::task::yield_now().await;
    }
}

#[test]
fn concurrent_writers_do_not_interleave_frames() {
    let mut session = client(true);
    let request = session.send_application_auth_request().to_bytes();
    let heartbeat = match send_heartbeat(Encoding::Protobuf) {
        OutboundMessage::Binary(bytes) => bytes,
        OutboundMessage::Text(_) => panic!("a protobuf session sends bytes"),
    };
    let frames = vec![heartbeat, request];
    let socket = std::sync::Arc::new(tokio::sync::Mutex::new(ByteSocket { wire: Vec::new() }));
    let runtime = tokio::runtime::Builder::new_multi_thread().worker_threads(4).build().unwrap();
    runtime.block_on(async {
        let heartbeats = tokio::spawn(write_frames(socket.clone(), 0, frames[0].clone(), 200));
        let requests = tokio::spawn(write_frames(socket.clone(), 1, frames[1].clone(), 200));
        let more_requests = tokio::spawn(write_frames(socket.clone(), 1, frames[1].clone(), 200));
        heartbeats.await.unwrap();
        requests.await.unwrap();
        more_requests.await.unwrap();
    });
    let wire = runtime.block_on(async { socket.lock().await.wire.clone() });
    let mut written = [0usize; 2];
    let mut at = 0;
    while at < wire.len() {
        let writer = wire[at].0;
        let frame = &frames[writer];
        let run = &wire[at..at + frame.len()];
        assert!(run.iter().all(|(who, _)| *who == writer));
        let bytes: Vec<u8> = run.iter().map(|(_, byte)| *byte).collect();
        assert_eq!(&bytes, frame);
        let (id, _) = decode_binary(&bytes).unwrap();
        assert_eq!(id, if writer == 0 { HEARTBEAT_EVENT } else { 2100 });
        written[writer] += 1;
        at += frame.len();
    }
    assert_eq!(written, [200, 400]);
}
