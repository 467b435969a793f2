use readbench::drain::drain;
use readbench::drain::DrainState;
use readbench::drain::Drainer;
use readbench::payload::generate_payload;
use readbench::source::BufferedSource;
use readbench::source::MemorySource;

#[test]
fn drainer_starts_reading_with_one_byte_window() {
    let d = Drainer::new(10);
    assert_eq!(d.state(), DrainState::Reading);
    assert_eq!(d.cursor(), 0);
    assert_eq!(d.total(), 10);
    assert_eq!(d.window_len(), 1);
    assert!(d.is_reading());
}

#[test]
fn drainer_advances_on_delivery_and_ends_on_zero_read() {
    let mut d = Drainer::new(2);
    d.on_read(1);
    assert_eq!(d.state(), DrainState::Reading);
    assert_eq!(d.cursor(), 1);
    assert_eq!(d.window_len(), 1);
    d.on_read(1);
    assert_eq!(d.cursor(), 2);
    assert_eq!(d.window_len(), 0);
    d.on_read(0);
    assert_eq!(d.state(), DrainState::Done);
    assert_eq!(d.cursor(), 2);
}

#[test]
fn drainer_fails_on_read_error() {
    let mut d = Drainer::new(5);
    d.on_read(1);
    d.on_error();
    assert_eq!(d.state(), DrainState::Failed);
    assert_eq!(d.cursor(), 1);
}

#[test]
fn drain_completeness_full_payload() {
    let total = 4096;
    let mut source = MemorySource::new(generate_payload(total));
    let (d, _buffer) = drain(total, &mut source);
    assert_eq!(d.state(), DrainState::Done);
    assert_eq!(d.cursor(), total);
}

#[test]
fn drain_of_truncated_stream_reports_fewer_bytes() {
    let total = 100;
    let mut source = MemorySource::new(generate_payload(60));
    let (d, buffer) = drain(total, &mut source);
    assert_eq!(d.state(), DrainState::Done);
    assert_eq!(d.cursor(), 60);
    // past the cursor the drain buffer is still zero-filled
    assert!(buffer[60..].iter().all(|b| *b == 0));
}

#[test]
fn drain_zero_length_reaches_done_with_no_bytes() {
    let mut source = MemorySource::new(Vec::new());
    let (d, buffer) = drain(0, &mut source);
    assert_eq!(d.state(), DrainState::Done);
    assert_eq!(d.cursor(), 0);
    assert!(buffer.is_empty());
    // a drainer with a zero target never requests a byte
    assert_eq!(Drainer::new(0).window_len(), 0);
}

#[test]
fn strategy_equivalence_raw_and_buffered() {
    let total = 2000;
    let payload = generate_payload(total);

    let mut raw = MemorySource::new(payload.clone());
    let (raw_run, raw_buffer) = drain(total, &mut raw);

    let mut buffered = BufferedSource::new(MemorySource::new(payload));
    let (buffered_run, buffered_buffer) = drain(total, &mut buffered);

    assert_eq!(raw_run.state(), buffered_run.state());
    assert_eq!(raw_run.cursor(), buffered_run.cursor());
    assert_eq!(raw_buffer, buffered_buffer);
}

#[test]
fn buffered_wrapper_preserves_byte_order_past_one_cache_fill() {
    // more than one cache chunk (8192 bytes), so the wrapper refills
    let total = 20000;
    let mut source = BufferedSource::new(MemorySource::new(generate_payload(total)));
    let (d, buffer) = drain(total, &mut source);
    assert_eq!(d.state(), DrainState::Done);
    assert_eq!(d.cursor(), total);
    for (i, b) in buffer.iter().enumerate() {
        assert_eq!(*b, (i % 255) as u8);
    }
}

#[test]
fn two_connections_drain_independent_complete_payloads() {
    // each connection gets its own fresh payload and its own drain run;
    // neither observes the other's bytes
    let total = 1500;
    let mut first = MemorySource::new(generate_payload(total));
    let mut second = MemorySource::new(generate_payload(total));

    let (first_run, first_buffer) = drain(total, &mut first);
    let (second_run, second_buffer) = drain(total, &mut second);

    assert_eq!(first_run.state(), DrainState::Done);
    assert_eq!(second_run.state(), DrainState::Done);
    assert_eq!(first_run.cursor(), total);
    assert_eq!(second_run.cursor(), total);
    assert_eq!(first_buffer, second_buffer);
    for (i, b) in first_buffer.iter().enumerate() {
        assert_eq!(*b, (i % 255) as u8);
    }
}

#[test]
fn end_to_end_scenario_thousand_bytes() {
    // server side: a fresh payload of 1000 bytes for the connection
    let total = 1000;
    let payload = generate_payload(total);
    // client side: drain the connection raw
    let mut connection = MemorySource::new(payload);
    let (run, received) = drain(total, &mut connection);
    assert_eq!(run.state(), DrainState::Done);
    assert_eq!(run.cursor(), 1000);
    let expected: Vec<u8> = (0..1000).map(|i| (i % 255) as u8).collect();
    assert_eq!(received, expected);
}
