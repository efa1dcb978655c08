use voice_capture::encode_samples_le;
use voice_capture::sink::{ProcessSink, SinkError};

#[test]
fn encodes_samples_little_endian() {
    let samples: Vec<i16> = vec![0, 1, -1, 256, -32768, 32767];
    let bytes = encode_samples_le(&samples);
    assert_eq!(bytes, vec![0, 0, 1, 0, 255, 255, 0, 1, 0, 128, 255, 127]);
}

#[test]
fn encodes_empty_batch() {
    let samples: Vec<i16> = vec![];
    let bytes = encode_samples_le(&samples);
    assert!(bytes.is_empty());
}

#[test]
fn append_returns_bytes_and_counts_samples() {
    let mut sink = ProcessSink::spawn();
    assert!(!sink.is_finalized());
    let bytes = sink.append(&vec![1, -2]).unwrap();
    assert_eq!(bytes, vec![1, 0, 254, 255]);
    assert_eq!(sink.written_count(), 2);
    let bytes = sink.append(&vec![3]).unwrap();
    assert_eq!(bytes, vec![3, 0]);
    assert_eq!(sink.written_count(), 3);
}

#[test]
fn finalize_transitions_exactly_once() {
    let mut sink = ProcessSink::spawn();
    sink.append(&vec![5, 6, 7]).unwrap();
    let total = sink.finalize().unwrap();
    assert_eq!(total, 3);
    assert!(sink.is_finalized());
    // The terminal state is absorbing: a second finalize fails
    // deterministically and changes nothing.
    assert_eq!(sink.finalize().unwrap_err(), SinkError::AlreadyFinalized);
    assert!(sink.is_finalized());
    assert_eq!(sink.written_count(), 3);
}

#[test]
fn append_after_finalize_fails_deterministically() {
    let mut sink = ProcessSink::spawn();
    sink.finalize().unwrap();
    assert_eq!(sink.append(&vec![1]).unwrap_err(), SinkError::Closed);
    assert_eq!(sink.written_count(), 0);
}
