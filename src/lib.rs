//! Telemetry aggregation for a device that reports over a narrow serial link:
//! recorded outputs and log lines are merged into one JSON frame per flush,
//! and a frame that does not fit the link's free buffer is held back.

mod laws;
mod level;
mod outputs;
mod telemetry;
mod wire;

pub use laws::{
    apply_records, lemma_deferred_data_kept, lemma_heartbeat_forces_attempt, lemma_last_write_wins,
    lemma_quiet_tick_sends_nothing, lemma_records_keep_keys, written,
};
pub use level::Level;
pub use outputs::{lists, no_outputs};
pub use wire::{
    decimal, digit, encode_frame, entries_text, entry_text, entry_views, frame_head, frame_middle,
    frame_tail, frame_text, json_string_of, padded, push_seconds, seconds_text,
};
pub use telemetry::{
    console_key, elapsed, has_new_data, heartbeat_due, is_frame_of, log_line, message_data,
    FlushError, FlushOutcome, Telemetry, HEARTBEAT_US, MAX_FRAME_BYTES,
};
