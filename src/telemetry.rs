//! The telemetry state: the log buffer, the output store and the time of the
//! last flush attempt, with the decision of when and what to send.

use vstd::prelude::*;
use vstd::string::StringExecFns;

use crate::level::Level;
use crate::outputs::{contents, lists, no_outputs, OutputMap};
use crate::wire::{encode_frame, entry_views, frame_text, json_string, json_string_of};

verus! {

/// Size of the serial link's outbound buffer: no frame can be longer.
pub const MAX_FRAME_BYTES: usize = 2048;

/// Time without a flush attempt after which one is made even with no new
/// data, in microseconds.
pub const HEARTBEAT_US: u64 = 400_000;

/// The output key that carries the accumulated log text.
pub open spec fn console_key() -> Seq<char> {
    seq!['/', 'C', 'o', 'n', 's', 'o', 'l', 'e']
}

/// The line that a log record of `level` with text `message` adds.
pub open spec fn log_line(level: Level, message: Seq<char>) -> Seq<char> {
    level.name() + seq![' ', '-', ' '] + message + seq!['\n']
}

/// Time from `last` to `now`, zero if `now` is earlier.
pub open spec fn elapsed(now: u64, last: u64) -> int {
    if now >= last {
        now - last
    } else {
        0
    }
}

/// A heartbeat is due when nothing was ever flushed, or when the heartbeat
/// interval has passed since the last attempt.
pub open spec fn heartbeat_due(last: Option<u64>, now: u64) -> bool {
    match last {
        None => true,
        Some(l) => elapsed(now, l) > HEARTBEAT_US,
    }
}

/// There is something to report: log text, or at least one output.
pub open spec fn has_new_data(logs: Seq<char>, outputs: Map<Seq<char>, Seq<u8>>) -> bool {
    logs.len() > 0 || outputs != no_outputs()
}

/// The data object of a message: the outputs, with the log text under the
/// console key when there is any.
pub open spec fn message_data(logs: Seq<char>, outputs: Map<Seq<char>, Seq<u8>>) -> Map<
    Seq<char>,
    Seq<u8>,
> {
    if logs.len() > 0 {
        outputs.insert(console_key(), json_string_of(logs))
    } else {
        outputs
    }
}

/// `f` is the frame of the data `d` at `now`, its members in some order.
pub open spec fn is_frame_of(f: Seq<u8>, d: Map<Seq<char>, Seq<u8>>, now: u64) -> bool {
    exists|s: Seq<(Seq<char>, Seq<u8>)>| lists(s, d) && f == frame_text(s, now as nat)
}

/// What one flush did.
#[derive(Debug, PartialEq, Eq)]
pub enum FlushOutcome {
    /// Nothing new and no heartbeat due: nothing was built.
    Skipped,
    /// The frame was built but did not fit the free buffer; all data is kept.
    Deferred(Vec<u8>),
    /// The frame fits and must be written; the buffers were cleared.
    Sent(Vec<u8>),
}

/// A flush that can never succeed.
#[derive(Debug, PartialEq, Eq)]
pub enum FlushError {
    /// The frame, of this many bytes, exceeds `MAX_FRAME_BYTES`.
    FrameTooLarge(usize),
}

/// The telemetry state shared by the recording calls and the flush task.
pub struct Telemetry {
    logs: String,
    outputs: OutputMap,
    last_flush_us: Option<u64>,
    min_level: Level,
}

impl Telemetry {
    /// The accumulated log text.
    pub closed spec fn logs_view(&self) -> Seq<char> {
        self.logs@
    }

    /// The recorded outputs: key to JSON-encoded value.
    pub closed spec fn outputs_view(&self) -> Map<Seq<char>, Seq<u8>> {
        contents(self.outputs)
    }

    /// When the last flush attempt was made, in microseconds since start.
    pub closed spec fn last_flush(&self) -> Option<u64> {
        self.last_flush_us
    }

    /// The least severe level that the log filter admits.
    pub closed spec fn filter_level(&self) -> Level {
        self.min_level
    }

    /// A flush attempt is due at `now`.
    pub open spec fn flush_due(&self, now: u64) -> bool {
        has_new_data(self.logs_view(), self.outputs_view()) || heartbeat_due(self.last_flush(), now)
    }

    /// The data that a flush would send now.
    pub open spec fn pending_data(&self) -> Map<Seq<char>, Seq<u8>> {
        message_data(self.logs_view(), self.outputs_view())
    }

    /// `after` holds the same log text and outputs as `self`.
    pub open spec fn keeps_data(&self, after: Telemetry) -> bool {
        after.logs_view() == self.logs_view() && after.outputs_view() == self.outputs_view()
    }

    /// How a flush that built the frame `f` with `free` bytes of room ends
    /// in `r`, going from `self` to `after`.
    pub open spec fn settles(
        &self,
        f: Seq<u8>,
        free: usize,
        r: Result<FlushOutcome, FlushError>,
        after: Telemetry,
    ) -> bool {
        if f.len() > MAX_FRAME_BYTES {
            r == Err::<FlushOutcome, FlushError>(FlushError::FrameTooLarge(f.len() as usize))
                && self.keeps_data(after)
        } else if f.len() <= free {
            &&& match r {
                Ok(FlushOutcome::Sent(b)) => b@ == f,
                _ => false,
            }
            &&& after.logs_view() == Seq::<char>::empty()
            &&& after.outputs_view() == no_outputs()
        } else {
            &&& match r {
                Ok(FlushOutcome::Deferred(b)) => b@ == f,
                _ => false,
            }
            &&& self.keeps_data(after)
        }
    }

    /// Empty buffers, no flush yet, and a log filter that admits `min_level`
    /// and everything more severe.
    pub fn new(min_level: Level) -> (r: Telemetry)
        ensures
            r.logs_view() == Seq::<char>::empty(),
            r.outputs_view() == no_outputs(),
            r.last_flush() == None::<u64>,
            r.filter_level() == min_level,
    {
        Telemetry { logs: String::new(), outputs: OutputMap::new(), last_flush_us: None, min_level }
    }

    /// The accumulated log text.
    pub fn logs(&self) -> (r: &str)
        ensures
            r@ == self.logs_view(),
    {
        self.logs.as_str()
    }

    /// Whether no output is recorded.
    pub fn outputs_is_empty(&self) -> (r: bool)
        ensures
            r == (self.outputs_view() == no_outputs()),
    {
        self.outputs.is_empty()
    }

    /// The recorded outputs as key and JSON-text pairs, in no set order.
    pub fn output_entries(&self) -> (r: Vec<(String, Vec<u8>)>)
        ensures
            lists(entry_views(r@), self.outputs_view()),
    {
        self.outputs.entries()
    }

    /// When the last flush attempt was made, if any.
    pub fn last_flush_us(&self) -> (r: Option<u64>)
        ensures
            r == self.last_flush(),
    {
        self.last_flush_us
    }

    /// The least severe level that the log filter admits.
    pub fn min_level(&self) -> (r: Level)
        ensures
            r == self.filter_level(),
    {
        self.min_level
    }

    /// Appends `LEVEL - message` and a newline to the log text when `level`
    /// passes the filter; otherwise changes nothing.
    pub fn log(&mut self, level: Level, message: &str)
        ensures
            final(self).logs_view() == (if level.admitted_by(old(self).filter_level()) {
                old(self).logs_view() + log_line(level, message@)
            } else {
                old(self).logs_view()
            }),
            final(self).outputs_view() == old(self).outputs_view(),
            final(self).last_flush() == old(self).last_flush(),
            final(self).filter_level() == old(self).filter_level(),
    {
        if level.is_admitted_by(self.min_level) {
            self.logs.append(level.as_str());
            proof {
                reveal_strlit(" - ");
                reveal_strlit("\n");
            }
            self.logs.append(" - ");
            self.logs.append(message);
            self.logs.append("\n");
            assert(self.logs@ =~= old(self).logs@ + log_line(level, message@));
        }
    }

    /// Records `value`, the JSON text of a value, under `key`: it replaces
    /// any earlier value of `key`.
    pub fn record_output(&mut self, key: String, value: Vec<u8>)
        ensures
            final(self).outputs_view() == old(self).outputs_view().insert(key@, value@),
            final(self).logs_view() == old(self).logs_view(),
            final(self).last_flush() == old(self).last_flush(),
            final(self).filter_level() == old(self).filter_level(),
    {
        self.outputs.insert(key, value);
    }

    /// One tick of the flush task at `now_us` microseconds since start, with
    /// `free_bytes` of room in the link's outbound buffer.
    ///
    /// When neither new data nor a heartbeat is due, nothing happens. Else
    /// the attempt is recorded and the frame of the pending data is built: a
    /// frame over `MAX_FRAME_BYTES` is an error, one that fits the free room
    /// is handed back to be written and the buffers are cleared, and one that
    /// does not fit is handed back unsent with all data kept for a later tick.
    pub fn flush(&mut self, now_us: u64, free_bytes: usize) -> (r: Result<FlushOutcome, FlushError>)
        ensures
            final(self).filter_level() == old(self).filter_level(),
            !old(self).flush_due(now_us) ==> {
                &&& r == Ok::<FlushOutcome, FlushError>(FlushOutcome::Skipped)
                &&& old(self).keeps_data(*final(self))
                &&& final(self).last_flush() == old(self).last_flush()
            },
            old(self).flush_due(now_us) ==> {
                &&& final(self).last_flush() == Some(now_us)
                &&& exists|f: Seq<u8>|
                    is_frame_of(f, old(self).pending_data(), now_us) && #[trigger] old(self).settles(
                        f,
                        free_bytes,
                        r,
                        *final(self),
                    )
            },
    {
        let has_new = !self.logs.as_str().is_empty() || !self.outputs.is_empty();
        let heartbeat = match self.last_flush_us {
            None => true,
            Some(last) => now_us >= last && now_us - last > HEARTBEAT_US,
        };
        if !has_new && !heartbeat {
            return Ok(FlushOutcome::Skipped);
        }
        self.last_flush_us = Some(now_us);
        let mut data = self.outputs.snapshot();
        if !self.logs.as_str().is_empty() {
            let console = json_string(self.logs.as_str());
            proof {
                reveal_strlit("/Console");
            }
            let key = "/Console".to_owned();
            assert(key@ =~= console_key());
            data.insert(key, console);
        }
        let entries = data.entries();
        let frame = encode_frame(&entries, now_us);
        assert(contents(data) == old(self).pending_data());
        assert(is_frame_of(frame@, old(self).pending_data(), now_us)) by {
            assert(lists(entry_views(entries@), contents(data)));
        }
        if frame.len() > MAX_FRAME_BYTES {
            let n = frame.len();
            let r = Err(FlushError::FrameTooLarge(n));
            assert(old(self).settles(frame@, free_bytes, r, *self));
            return r;
        }
        if frame.len() <= free_bytes {
            self.logs = String::new();
            self.outputs.clear();
            let ghost f = frame@;
            let r = Ok(FlushOutcome::Sent(frame));
            assert(old(self).settles(f, free_bytes, r, *self));
            r
        } else {
            let ghost f = frame@;
            let r = Ok(FlushOutcome::Deferred(frame));
            assert(old(self).settles(f, free_bytes, r, *self));
            r
        }
    }
}

} // verus!
