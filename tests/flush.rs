use xyv::{encode_frame, push_seconds, FlushError, FlushOutcome, Level, Telemetry, MAX_FRAME_BYTES};

fn text(bytes: &[u8]) -> String {
    String::from_utf8(bytes.to_vec()).unwrap()
}

fn sent(r: Result<FlushOutcome, FlushError>) -> String {
    match r {
        Ok(FlushOutcome::Sent(b)) => text(&b),
        other => panic!("expected a sent frame, got {:?}", other),
    }
}

fn deferred(r: Result<FlushOutcome, FlushError>) -> String {
    match r {
        Ok(FlushOutcome::Deferred(b)) => text(&b),
        other => panic!("expected a deferred frame, got {:?}", other),
    }
}

fn json(v: f64) -> Vec<u8> {
    serde_json::to_vec(&v).unwrap()
}

#[test]
fn recorded_value_is_sent_and_cleared() {
    let mut t = Telemetry::new(Level::Debug);
    t.record_output("/Arm/Volts".to_string(), json(3.5));
    let frame = sent(t.flush(20_000, 4096));
    assert_eq!(frame, "{\"data\":{\"/Arm/Volts\":3.5},\"now_sec\":0.020000}\n");
    assert!(frame.contains("\"/Arm/Volts\":3.5"));
    assert!(t.outputs_is_empty());
    assert_eq!(t.last_flush_us(), Some(20_000));
}

#[test]
fn log_lines_are_joined_in_order() {
    let mut t = Telemetry::new(Level::Debug);
    t.log(Level::Info, "A");
    t.log(Level::Info, "B");
    assert_eq!(t.logs(), "INFO - A\nINFO - B\n");
    let frame = sent(t.flush(1_000_000, 4096));
    assert_eq!(frame, "{\"data\":{\"/Console\":\"INFO - A\\nINFO - B\\n\"},\"now_sec\":1.000000}\n");
    assert_eq!(t.logs(), "");
}

#[test]
fn zero_capacity_defers_then_sends_merged() {
    let mut t = Telemetry::new(Level::Debug);
    t.record_output("/Arm/Volts".to_string(), json(3.5));
    let first = deferred(t.flush(20_000, 0));
    assert!(first.contains("\"/Arm/Volts\":3.5"));
    t.record_output("/Arm/Amps".to_string(), json(1.25));
    let second = deferred(t.flush(40_000, 0));
    assert!(second.contains("\"/Arm/Volts\":3.5"));
    assert!(second.contains("\"/Arm/Amps\":1.25"));
    assert!(!t.outputs_is_empty());
    let last = sent(t.flush(60_000, 4096));
    assert!(last.contains("\"/Arm/Volts\":3.5"));
    assert!(last.contains("\"/Arm/Amps\":1.25"));
    assert!(t.outputs_is_empty());
}

#[test]
fn idle_tick_without_heartbeat_sends_nothing() {
    let mut t = Telemetry::new(Level::Debug);
    sent(t.flush(0, 4096));
    assert_eq!(t.flush(20_000, 4096), Ok(FlushOutcome::Skipped));
    assert_eq!(t.flush(400_000, 4096), Ok(FlushOutcome::Skipped));
    assert_eq!(t.last_flush_us(), Some(0));
}

#[test]
fn heartbeat_is_sent_with_empty_data() {
    let mut t = Telemetry::new(Level::Debug);
    assert_eq!(sent(t.flush(0, 4096)), "{\"data\":{},\"now_sec\":0.000000}\n");
    assert_eq!(sent(t.flush(400_001, 4096)), "{\"data\":{},\"now_sec\":0.400001}\n");
    assert_eq!(t.last_flush_us(), Some(400_001));
}

#[test]
fn deferral_keeps_buffers_and_appends_logs() {
    let mut t = Telemetry::new(Level::Debug);
    t.log(Level::Warn, "low battery");
    t.record_output("/Drive/Speed".to_string(), json(2.0));
    let first = deferred(t.flush(10_000, 5));
    assert!(first.contains("\"/Console\":\"WARN - low battery\\n\""));
    assert_eq!(t.logs(), "WARN - low battery\n");
    assert!(!t.outputs_is_empty());
    assert_eq!(t.last_flush_us(), Some(10_000));
    t.log(Level::Error, "stall");
    t.record_output("/Drive/Speed".to_string(), json(0.5));
    let next = sent(t.flush(30_000, 4096));
    assert!(next.contains("\"/Console\":\"WARN - low battery\\nERROR - stall\\n\""));
    assert!(next.contains("\"/Drive/Speed\":0.5"));
}

#[test]
fn oversized_frame_is_an_error() {
    let mut t = Telemetry::new(Level::Debug);
    let big = "x".repeat(3000);
    t.log(Level::Info, &big);
    match t.flush(0, usize::MAX) {
        Err(FlushError::FrameTooLarge(n)) => assert!(n > MAX_FRAME_BYTES),
        other => panic!("expected an oversized frame, got {:?}", other),
    }
    assert_eq!(t.logs().len(), big.len() + "INFO - \n".len());
}

#[test]
fn frame_at_the_limit_is_accepted() {
    let mut t = Telemetry::new(Level::Debug);
    let overhead = "{\"data\":{\"/Console\":\"INFO - \\n\"},\"now_sec\":0.000000}\n".len();
    let body = "y".repeat(MAX_FRAME_BYTES - overhead);
    t.log(Level::Info, &body);
    let frame = sent(t.flush(0, MAX_FRAME_BYTES));
    assert_eq!(frame.len(), MAX_FRAME_BYTES);
}

#[test]
fn last_write_wins() {
    let mut t = Telemetry::new(Level::Debug);
    t.record_output("/k".to_string(), json(1.0));
    t.record_output("/other".to_string(), json(7.0));
    t.record_output("/k".to_string(), json(2.0));
    let entries = t.output_entries();
    assert_eq!(entries.len(), 2);
    let k = entries.iter().find(|e| e.0 == "/k").unwrap();
    assert_eq!(text(&k.1), "2.0");
    let frame = sent(t.flush(0, 4096));
    assert!(frame.contains("\"/k\":2.0"));
    assert!(!frame.contains("\"/k\":1.0"));
}

#[test]
fn filter_admits_debug_and_above() {
    let mut t = Telemetry::new(Level::Debug);
    t.log(Level::Trace, "hidden");
    assert_eq!(t.logs(), "");
    t.log(Level::Debug, "d");
    t.log(Level::Error, "e");
    assert_eq!(t.logs(), "DEBUG - d\nERROR - e\n");
    assert_eq!(t.min_level(), Level::Debug);
    assert!(Level::Warn.is_admitted_by(Level::Info));
    assert!(!Level::Debug.is_admitted_by(Level::Info));
}

#[test]
fn console_text_is_escaped() {
    let mut t = Telemetry::new(Level::Debug);
    t.log(Level::Info, "say \"hi\"");
    let frame = sent(t.flush(0, 4096));
    assert_eq!(frame, "{\"data\":{\"/Console\":\"INFO - say \\\"hi\\\"\\n\"},\"now_sec\":0.000000}\n");
}

#[test]
fn clock_going_back_counts_as_no_time() {
    let mut t = Telemetry::new(Level::Debug);
    sent(t.flush(1_000_000, 4096));
    assert_eq!(t.flush(0, 4096), Ok(FlushOutcome::Skipped));
}

#[test]
fn seconds_are_written_with_six_decimals() {
    let mut out = Vec::new();
    push_seconds(&mut out, 1_234_567);
    assert_eq!(text(&out), "1.234567");
    let mut out = b"t=".to_vec();
    push_seconds(&mut out, 42_000_005);
    assert_eq!(text(&out), "t=42.000005");
}

#[test]
fn frame_lists_members_in_order() {
    let entries = vec![
        ("/a".to_string(), b"1".to_vec()),
        ("/b".to_string(), b"[true,null]".to_vec()),
    ];
    let frame = encode_frame(&entries, 5);
    assert_eq!(text(&frame), "{\"data\":{\"/a\":1,\"/b\":[true,null]},\"now_sec\":0.000005}\n");
}
