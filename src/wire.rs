//! The wire form of a telemetry message: `{"data":{...},"now_sec":S.ffffff}`
//! followed by a newline.

use vstd::prelude::*;

verus! {

/// The JSON string literal that serde_json writes for the text `s`.
pub uninterp spec fn json_string_of(s: Seq<char>) -> Seq<u8>;

/// Relies on `serde_json::to_vec` on a string slice: the JSON string literal
/// for `s`. Writing into a `Vec<u8>` cannot fail, so the error arm is never taken.
#[verifier::external_body]
pub(crate) fn json_string(s: &str) -> (r: Vec<u8>)
    ensures
        r@ == json_string_of(s@),
{
    serde_json::to_vec(s).unwrap_or_default()
}

/// The ASCII digit for `d % 10`.
pub open spec fn digit(d: nat) -> u8 {
    (48 + d % 10) as u8
}

/// `n` in decimal, without leading zeros.
pub open spec fn decimal(n: nat) -> Seq<u8>
    decreases n,
{
    if n < 10 {
        seq![digit(n)]
    } else {
        decimal(n / 10).push(digit(n % 10))
    }
}

/// The last `width` decimal digits of `n`, zero-padded.
pub open spec fn padded(n: nat, width: nat) -> Seq<u8>
    decreases width,
{
    if width == 0 {
        Seq::empty()
    } else {
        padded(n / 10, (width - 1) as nat).push(digit(n % 10))
    }
}

/// A duration in microseconds written as seconds with six decimals.
pub open spec fn seconds_text(us: nat) -> Seq<u8> {
    decimal(us / 1_000_000) + seq![46u8] + padded(us % 1_000_000, 6)
}

fn push_decimal(out: &mut Vec<u8>, n: u64)
    ensures
        final(out)@ == old(out)@ + decimal(n as nat),
    decreases n,
{
    if n >= 10 {
        push_decimal(out, n / 10);
    }
    out.push((48 + n % 10) as u8);
    assert(final(out)@ =~= old(out)@ + decimal(n as nat));
}

fn push_padded(out: &mut Vec<u8>, n: u64, width: u64)
    ensures
        final(out)@ == old(out)@ + padded(n as nat, width as nat),
    decreases width,
{
    if width > 0 {
        push_padded(out, n / 10, width - 1);
        out.push((48 + n % 10) as u8);
    }
    assert(final(out)@ =~= old(out)@ + padded(n as nat, width as nat));
}

/// Appends `seconds_text(us)` to `out`.
pub fn push_seconds(out: &mut Vec<u8>, us: u64)
    ensures
        final(out)@ == old(out)@ + seconds_text(us as nat),
{
    push_decimal(out, us / 1_000_000);
    out.push(46u8);
    push_padded(out, us % 1_000_000, 6);
    assert(final(out)@ =~= old(out)@ + seconds_text(us as nat));
}

/// The opening of a frame: `{"data":{`.
pub open spec fn frame_head() -> Seq<u8> {
    seq![123u8, 34, 100, 97, 116, 97, 34, 58, 123]
}

/// What stands between the data object and the time: `},"now_sec":`.
pub open spec fn frame_middle() -> Seq<u8> {
    seq![125u8, 44, 34, 110, 111, 119, 95, 115, 101, 99, 34, 58]
}

/// The end of a frame: `}` and the newline that delimits frames.
pub open spec fn frame_tail() -> Seq<u8> {
    seq![125u8, 10]
}

/// One `"key":value` member of the data object.
pub open spec fn entry_text(key: Seq<char>, value: Seq<u8>) -> Seq<u8> {
    json_string_of(key) + seq![58u8] + value
}

/// The members of the data object, in the order given, separated by commas.
pub open spec fn entries_text(entries: Seq<(Seq<char>, Seq<u8>)>) -> Seq<u8>
    decreases entries.len(),
{
    if entries.len() == 0 {
        Seq::empty()
    } else {
        let init = entries.drop_last();
        let sep = if init.len() == 0 {
            Seq::<u8>::empty()
        } else {
            seq![44u8]
        };
        entries_text(init) + sep + entry_text(entries.last().0, entries.last().1)
    }
}

/// The whole frame for the data members `entries` at `us` microseconds.
pub open spec fn frame_text(entries: Seq<(Seq<char>, Seq<u8>)>, us: nat) -> Seq<u8> {
    frame_head() + entries_text(entries) + frame_middle() + seconds_text(us) + frame_tail()
}

/// The members held by a vector of key and encoded-value pairs.
pub open spec fn entry_views(v: Seq<(String, Vec<u8>)>) -> Seq<(Seq<char>, Seq<u8>)> {
    v.map_values(|e: (String, Vec<u8>)| (e.0@, e.1@))
}

fn push_bytes(out: &mut Vec<u8>, src: &Vec<u8>)
    ensures
        final(out)@ == old(out)@ + src@,
{
    let mut i: usize = 0;
    while i < src.len()
        invariant
            0 <= i <= src.len(),
            out@ == old(out)@ + src@.take(i as int),
        decreases src.len() - i,
    {
        out.push(src[i]);
        i += 1;
        assert(out@ =~= old(out)@ + src@.take(i as int));
    }
    assert(src@.take(i as int) =~= src@);
}

/// Writes the frame whose data members are `entries`, in that order, at
/// `us` microseconds since start.
pub fn encode_frame(entries: &Vec<(String, Vec<u8>)>, us: u64) -> (r: Vec<u8>)
    ensures
        r@ == frame_text(entry_views(entries@), us as nat),
{
    let ghost ev = entry_views(entries@);
    let mut out: Vec<u8> = vec![123u8, 34, 100, 97, 116, 97, 34, 58, 123];
    assert(out@ =~= frame_head());
    let mut i: usize = 0;
    while i < entries.len()
        invariant
            0 <= i <= entries.len(),
            ev == entry_views(entries@),
            out@ == frame_head() + entries_text(ev.take(i as int)),
        decreases entries.len() - i,
    {
        let ghost before = out@;
        if i > 0 {
            out.push(44u8);
        }
        let k = json_string(entries[i].0.as_str());
        push_bytes(&mut out, &k);
        out.push(58u8);
        push_bytes(&mut out, &entries[i].1);
        proof {
            let t = ev.take(i + 1);
            assert(t.drop_last() =~= ev.take(i as int));
            assert(t.last() == ev[i as int]);
            if i > 0 {
                assert(out@ =~= before + seq![44u8] + entry_text(ev[i as int].0, ev[i as int].1));
            } else {
                assert(out@ =~= before + entry_text(ev[i as int].0, ev[i as int].1));
            }
            assert(out@ =~= frame_head() + entries_text(t));
        }
        i += 1;
    }
    assert(ev.take(i as int) =~= ev);
    let mut mid: Vec<u8> = vec![125u8, 44, 34, 110, 111, 119, 95, 115, 101, 99, 34, 58];
    assert(mid@ =~= frame_middle());
    out.append(&mut mid);
    push_seconds(&mut out, us);
    out.push(125u8);
    out.push(10u8);
    assert(out@ =~= frame_text(ev, us as nat));
    out
}

} // verus!
