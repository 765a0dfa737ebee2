//! What holds across several calls: last-write-wins over a run of
//! recordings, and nothing lost when a frame is held back.

use vstd::prelude::*;

use crate::outputs::no_outputs;
use crate::telemetry::{console_key, elapsed, heartbeat_due, message_data, Telemetry, HEARTBEAT_US};

verus! {

/// The outputs after recording each `(key, value)` of `writes`, in order,
/// starting from `m`; each step is what `Telemetry::record_output` does.
pub open spec fn apply_records(
    m: Map<Seq<char>, Seq<u8>>,
    writes: Seq<(Seq<char>, Seq<u8>)>,
) -> Map<Seq<char>, Seq<u8>>
    decreases writes.len(),
{
    if writes.len() == 0 {
        m
    } else {
        apply_records(m, writes.drop_last()).insert(writes.last().0, writes.last().1)
    }
}

/// `key` is recorded somewhere in `writes`.
pub open spec fn written(writes: Seq<(Seq<char>, Seq<u8>)>, key: Seq<char>) -> bool {
    exists|j: int| 0 <= j < writes.len() && (#[trigger] writes[j]).0 == key
}

/// Last write wins: after a run of recordings, a key holds the value of the
/// last recording of that key, and so does the data of the next message
/// (but for the reserved console key, which the log text takes over).
pub proof fn lemma_last_write_wins(
    logs: Seq<char>,
    m: Map<Seq<char>, Seq<u8>>,
    writes: Seq<(Seq<char>, Seq<u8>)>,
    i: int,
)
    requires
        0 <= i < writes.len(),
        forall|j: int| i < j < writes.len() ==> (#[trigger] writes[j]).0 != writes[i].0,
    ensures
        apply_records(m, writes).contains_key(writes[i].0),
        apply_records(m, writes)[writes[i].0] == writes[i].1,
        writes[i].0 != console_key() ==> message_data(logs, apply_records(m, writes)).contains_key(
            writes[i].0,
        ) && message_data(logs, apply_records(m, writes))[writes[i].0] == writes[i].1,
    decreases writes.len(),
{
    if i < writes.len() - 1 {
        let init = writes.drop_last();
        assert forall|j: int| i < j < init.len() implies (#[trigger] init[j]).0 != init[i].0 by {
            assert(init[j] == writes[j]);
        }
        lemma_last_write_wins(logs, m, init, i);
        assert(writes.last() == writes[writes.len() - 1]);
    }
}

/// Recordings never take a key away, and leave the keys they do not write
/// as they were.
pub proof fn lemma_records_keep_keys(
    m: Map<Seq<char>, Seq<u8>>,
    writes: Seq<(Seq<char>, Seq<u8>)>,
    key: Seq<char>,
)
    requires
        m.contains_key(key),
    ensures
        apply_records(m, writes).contains_key(key),
        !written(writes, key) ==> apply_records(m, writes)[key] == m[key],
    decreases writes.len(),
{
    if writes.len() > 0 {
        let init = writes.drop_last();
        lemma_records_keep_keys(m, init, key);
        if !written(writes, key) {
            assert(!written(init, key)) by {
                if written(init, key) {
                    let j = choose|j: int| 0 <= j < init.len() && (#[trigger] init[j]).0 == key;
                    assert(writes[j] == init[j]);
                }
            }
            assert(writes[writes.len() - 1] == writes.last());
        }
    }
}

/// A held-back message loses nothing: when more log text is appended and
/// more outputs are recorded before the next attempt, the next message's
/// data has every key of the held-back one, the same value for each output
/// key not written again, and log text that extends the earlier text.
pub proof fn lemma_deferred_data_kept(
    logs: Seq<char>,
    more_logs: Seq<char>,
    m: Map<Seq<char>, Seq<u8>>,
    writes: Seq<(Seq<char>, Seq<u8>)>,
)
    ensures
        forall|k: Seq<char>|
            #[trigger] message_data(logs, m).contains_key(k) ==> message_data(
                logs + more_logs,
                apply_records(m, writes),
            ).contains_key(k),
        forall|k: Seq<char>|
            k != console_key() && #[trigger] m.contains_key(k) && !written(writes, k) ==> message_data(
                logs + more_logs,
                apply_records(m, writes),
            )[k] == m[k],
        (logs + more_logs).subrange(0, logs.len() as int) == logs,
{
    assert forall|k: Seq<char>| #[trigger] message_data(logs, m).contains_key(k) implies message_data(
        logs + more_logs,
        apply_records(m, writes),
    ).contains_key(k) by {
        if m.contains_key(k) {
            lemma_records_keep_keys(m, writes, k);
        }
    }
    assert forall|k: Seq<char>|
        k != console_key() && #[trigger] m.contains_key(k) && !written(writes, k) implies message_data(
        logs + more_logs,
        apply_records(m, writes),
    )[k] == m[k] by {
        lemma_records_keep_keys(m, writes, k);
    }
    assert((logs + more_logs).subrange(0, logs.len() as int) =~= logs);
}

/// Once a frame was sent, a tick with no new log text or output before the
/// heartbeat interval has passed is no flush attempt: nothing is sent.
pub proof fn lemma_quiet_tick_sends_nothing(t: Telemetry, last: u64, now: u64)
    requires
        t.logs_view() == Seq::<char>::empty(),
        t.outputs_view() == no_outputs(),
        t.last_flush() == Some(last),
        elapsed(now, last) <= HEARTBEAT_US,
    ensures
        !t.flush_due(now),
{
}

/// When the heartbeat interval has passed since the last attempt, or no
/// attempt was ever made, a flush attempt is made even with no data.
pub proof fn lemma_heartbeat_forces_attempt(t: Telemetry, now: u64)
    requires
        heartbeat_due(t.last_flush(), now),
    ensures
        t.flush_due(now),
{
}

} // verus!
