use awg_remote::codec::{encode_command, setup_command};
use awg_remote::session::{
    chunk_payload, fold_outcomes, normalize_endpoints, ConnectError, SendError, TransportSession,
    WriteOutcome, CHUNK_LIMIT,
};
use awg_remote::waveform::Waveform;

#[test]
fn chunking_200_bytes_gives_four_chunks() {
    let payload: Vec<u8> = (0..200u8).collect();
    let chunks = chunk_payload(&payload);
    assert_eq!(chunks.len(), 4); // ceil(200 / 64)
    assert_eq!(chunks[0].len(), 64);
    assert_eq!(chunks[1].len(), 64);
    assert_eq!(chunks[2].len(), 64);
    assert_eq!(chunks[3].len(), 8);
    let rebuilt: Vec<u8> = chunks.concat();
    assert_eq!(rebuilt, payload);
}

#[test]
fn chunking_edge_sizes() {
    assert_eq!(chunk_payload(&[]).len(), 0);
    let exactly_one = chunk_payload(&[7u8; 64]);
    assert_eq!(exactly_one.len(), 1);
    assert_eq!(exactly_one[0].len(), 64);
    let just_over = chunk_payload(&[7u8; 65]);
    assert_eq!(just_over.len(), 2);
    assert_eq!(just_over[0].len(), 64);
    assert_eq!(just_over[1].len(), 1);
    for chunk in chunk_payload(&[1u8; 1000]) {
        assert!(chunk.len() <= CHUNK_LIMIT);
        assert!(!chunk.is_empty());
    }
}

#[test]
fn send_while_disconnected_is_not_connected_error() {
    let session = TransportSession::new();
    let c = setup_command(1000, 64, Waveform::new());
    assert_eq!(session.prepare_send(&c), Err(SendError::NotConnected));
}

#[test]
fn send_while_connected_chunks_the_wire_text() {
    let mut session = TransportSession::new();
    session.begin_connect();
    session.complete_connect(true).unwrap();
    let mut w = Waveform::new();
    w.set_function("Pulse").unwrap();
    let c = setup_command(123456, 2048, w);
    let chunks = session.prepare_send(&c).expect("connected");
    let payload = encode_command(&c);
    assert_eq!(chunks.len(), (payload.len() + 63) / 64);
    for chunk in &chunks {
        assert!(chunk.len() <= 64);
        assert!(!chunk.is_empty());
    }
    assert_eq!(chunks.concat(), payload);
}

#[test]
fn reconnect_keeps_exactly_one_connection() {
    let mut session = TransportSession::new();
    assert!(!session.is_connected());

    // first connect: nothing to release
    assert!(!session.begin_connect());
    session.complete_connect(true).unwrap();
    assert!(session.is_connected());
    let first = session.connected;

    // second connect: the first connection is handed back for release
    assert!(session.begin_connect());
    assert!(!session.is_connected());
    session.complete_connect(true).unwrap();
    assert!(session.is_connected());
    let second = session.connected;

    assert!(first.is_some() && second.is_some());
    assert_ne!(first, second);
}

#[test]
fn failed_connect_leaves_session_disconnected() {
    let mut session = TransportSession::new();
    session.begin_connect();
    assert_eq!(session.complete_connect(false), Err(ConnectError));
    assert!(!session.is_connected());
    let c = setup_command(10, 64, Waveform::new());
    assert_eq!(session.prepare_send(&c), Err(SendError::NotConnected));
}

#[test]
fn disconnect_is_idempotent() {
    let mut session = TransportSession::new();
    session.begin_connect();
    session.complete_connect(true).unwrap();
    assert!(session.disconnect());
    assert!(!session.is_connected());
    assert!(!session.disconnect());
    assert!(!session.is_connected());
}

#[test]
fn fold_outcomes_sums_successful_writes() {
    let outcomes = vec![
        WriteOutcome::Wrote(64),
        WriteOutcome::Wrote(64),
        WriteOutcome::Wrote(8),
    ];
    assert_eq!(fold_outcomes(&outcomes), Ok(136));
    assert_eq!(fold_outcomes(&Vec::new()), Ok(0));
}

#[test]
fn fold_outcomes_reports_partial_progress() {
    let outcomes = vec![
        WriteOutcome::Wrote(64),
        WriteOutcome::Wrote(64),
        WriteOutcome::Failed,
        WriteOutcome::Wrote(8),
    ];
    assert_eq!(fold_outcomes(&outcomes), Err(SendError::Transport { written: 128 }));
    let immediate = vec![WriteOutcome::Failed];
    assert_eq!(fold_outcomes(&immediate), Err(SendError::Transport { written: 0 }));
}

#[test]
fn zero_endpoints_yield_one_sentinel() {
    let from_empty = normalize_endpoints(Some(Vec::new()));
    assert_eq!(from_empty, vec!["No ports found".to_string()]);
    let from_failure = normalize_endpoints(None);
    assert_eq!(from_failure, vec!["No ports found".to_string()]);
}

#[test]
fn endpoints_pass_through_when_present() {
    let names = vec!["/dev/ttyACM0".to_string(), "/dev/ttyUSB1".to_string()];
    assert_eq!(normalize_endpoints(Some(names.clone())), names);
}
