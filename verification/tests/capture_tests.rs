use rtt_file_logger::capture::{classify_read, CaptureSession, ReadOutcome, SinkAction};
use rtt_file_logger::config::Channel;
use rtt_file_logger::registry::{bind_sinks, ChannelPool};

fn channel(up: usize, name: &str, path: &str) -> Channel {
    Channel { up, name: name.to_string(), path: path.to_string() }
}

fn bound_session(n: usize) -> CaptureSession {
    let mut channels = Vec::new();
    for i in 0..n {
        channels.push(channel(i, &format!("ch{}", i), &format!("out/ch{}.log", i)));
    }
    let mut pool = ChannelPool::new(n);
    bind_sinks(&channels, &mut pool).unwrap()
}

// One poll pass over the whole session. `reads[i]` is what sink i's channel
// yields this pass; `files[i]` stands in for sink i's output file, and
// `writable[i]` says whether appending to that file succeeds.
fn run_pass(
    session: &mut CaptureSession,
    reads: &[ReadOutcome],
    files: &mut [Vec<u8>],
    writable: &[bool],
) {
    for i in 0..session.sink_count() {
        if !session.should_poll(i) {
            continue;
        }
        let outcome = match &reads[i] {
            ReadOutcome::Bytes(b) => ReadOutcome::Bytes(b.clone()),
            ReadOutcome::ReadError => ReadOutcome::ReadError,
        };
        match classify_read(outcome) {
            SinkAction::Idle => {}
            SinkAction::Report => {}
            SinkAction::Append(bytes) => {
                if writable[i] {
                    files[i].extend_from_slice(&bytes);
                }
                session.record_append(i, &bytes, writable[i]);
            }
        }
    }
}

#[test]
fn classify_zero_bytes_is_idle() {
    assert!(matches!(classify_read(ReadOutcome::Bytes(Vec::new())), SinkAction::Idle));
}

#[test]
fn classify_read_error_is_reported_not_fatal() {
    assert!(matches!(classify_read(ReadOutcome::ReadError), SinkAction::Report));
}

#[test]
fn classify_data_appends_exactly_those_bytes() {
    match classify_read(ReadOutcome::Bytes(b"hello".to_vec())) {
        SinkAction::Append(b) => assert_eq!(b, b"hello".to_vec()),
        _ => panic!("available bytes must be appended"),
    }
}

#[test]
fn zero_byte_read_leaves_file_unchanged() {
    let mut session = bound_session(1);
    let mut files = vec![b"seed".to_vec()];
    run_pass(&mut session, &[ReadOutcome::Bytes(Vec::new())], &mut files, &[true]);
    assert_eq!(files[0], b"seed".to_vec());
    assert!(session.sinks[0].working);
}

#[test]
fn bytes_are_appended_in_order_across_passes() {
    let mut session = bound_session(1);
    let mut files = vec![Vec::new()];
    run_pass(&mut session, &[ReadOutcome::Bytes(b"ab".to_vec())], &mut files, &[true]);
    run_pass(&mut session, &[ReadOutcome::Bytes(b"cd".to_vec())], &mut files, &[true]);
    run_pass(&mut session, &[ReadOutcome::Bytes(b"ef".to_vec())], &mut files, &[true]);
    assert_eq!(files[0], b"abcdef".to_vec());
}

#[test]
fn two_channel_pass_demultiplexes() {
    let channels = vec![
        channel(0, "console", "out/console.log"),
        channel(1, "events", "out/events.log"),
    ];
    let mut pool = ChannelPool::new(2);
    let mut session = bind_sinks(&channels, &mut pool).unwrap();
    let mut files = vec![Vec::new(), Vec::new()];
    let reads = [
        ReadOutcome::Bytes(b"hello".to_vec()),
        ReadOutcome::Bytes(b"ping".to_vec()),
    ];
    run_pass(&mut session, &reads, &mut files, &[true, true]);
    assert_eq!(files[0], b"hello".to_vec());
    assert_eq!(files[1], b"ping".to_vec());
}

#[test]
fn write_failure_disables_only_that_sink() {
    let mut session = bound_session(3);
    let mut files = vec![Vec::new(), Vec::new(), Vec::new()];
    let reads = [
        ReadOutcome::Bytes(b"a".to_vec()),
        ReadOutcome::Bytes(b"b".to_vec()),
        ReadOutcome::Bytes(b"c".to_vec()),
    ];
    // sink 1's file becomes unwritable on the first pass
    run_pass(&mut session, &reads, &mut files, &[true, false, true]);
    assert!(session.sinks[0].working);
    assert!(!session.sinks[1].working);
    assert!(session.sinks[2].working);
    // later passes: sink 1 is skipped, the others keep growing
    run_pass(&mut session, &reads, &mut files, &[true, true, true]);
    run_pass(&mut session, &reads, &mut files, &[true, true, true]);
    assert_eq!(files[0], b"aaa".to_vec());
    assert_eq!(files[1], Vec::<u8>::new());
    assert_eq!(files[2], b"ccc".to_vec());
    assert!(!session.sinks[1].working);
}

#[test]
fn read_error_keeps_sink_alive_and_capture_continues() {
    let mut session = bound_session(1);
    let mut files = vec![Vec::new()];
    run_pass(&mut session, &[ReadOutcome::ReadError], &mut files, &[true]);
    assert!(session.sinks[0].working);
    assert_eq!(files[0], Vec::<u8>::new());
    run_pass(&mut session, &[ReadOutcome::Bytes(b"ok".to_vec())], &mut files, &[true]);
    assert_eq!(files[0], b"ok".to_vec());
}

#[test]
fn cancellation_allows_at_most_one_more_pass() {
    let mut session = bound_session(2);
    let mut files = vec![Vec::new(), Vec::new()];
    let reads = [
        ReadOutcome::Bytes(b"x".to_vec()),
        ReadOutcome::Bytes(b"y".to_vec()),
    ];
    // the shared flag, checked once per full pass; it is set (cleared to
    // "stop") while the second pass is under way
    let flag_at_check = [true, true, false, false, false];
    let mut passes = 0usize;
    let mut check = 0usize;
    while flag_at_check[check] {
        run_pass(&mut session, &reads, &mut files, &[true, true]);
        passes += 1;
        check += 1;
    }
    // the flag was set during pass 2 (observed at check index 2): that pass
    // completed, and no further pass began
    assert_eq!(passes, 2);
    assert_eq!(files[0], b"xx".to_vec());
    assert_eq!(files[1], b"yy".to_vec());
}
