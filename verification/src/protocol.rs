//! The binary wire protocol for live color updates: a stream of frames,
//! each `[count] [count x [emitter, r, g, b]]`. Channels stay in `0..=255`
//! here; scaling to unit-interval floats is a presentation step at the
//! graphics edge.

use vstd::prelude::*;

verus! {

/// One color as carried on the wire.
#[derive(Clone, Copy, Debug, PartialEq, Eq, Structural)]
pub struct Color {
    pub r: u8,
    pub g: u8,
    pub b: u8,
}

/// One wire record: the addressed emitter and its new color.
#[derive(Clone, Copy, Debug, PartialEq, Eq, Structural)]
pub struct Record {
    pub emitter: u8,
    pub color: Color,
}

/// The record encoded at position `i` of a byte stream.
pub open spec fn record_at(s: Seq<u8>, i: int) -> Record {
    Record { emitter: s[i], color: Color { r: s[i + 1], g: s[i + 2], b: s[i + 3] } }
}

/// Whether `s` begins with one complete frame.
pub open spec fn complete_frame(s: Seq<u8>) -> bool {
    s.len() >= 1 && s.len() >= 1 + 4 * (s[0] as int)
}

/// The records of the frame whose count byte is at position 0.
pub open spec fn frame_records(s: Seq<u8>) -> Seq<Record> {
    Seq::new(s[0] as nat, |k: int| record_at(s, 1 + 4 * k))
}

/// Decode `count` four-byte records laid out back to back.
pub fn decode_records(count: u8, payload: &[u8]) -> (r: Vec<Record>)
    requires
        payload@.len() == 4 * (count as int),
    ensures
        r@.len() == count as int,
        forall|k: int| 0 <= k < count as int ==> r@[k] == record_at(payload@, 4 * k),
{
    let mut out: Vec<Record> = Vec::new();
    let mut k: usize = 0;
    while k < count as usize
        invariant
            k <= count as int,
            payload@.len() == 4 * (count as int),
            out@.len() == k as int,
            forall|j: int| 0 <= j < k as int ==> out@[j] == record_at(payload@, 4 * j),
        decreases count as int - k,
    {
        let base: usize = 4 * k;
        out.push(
            Record {
                emitter: payload[base],
                color: Color { r: payload[base + 1], g: payload[base + 2], b: payload[base + 3] },
            },
        );
        k = k + 1;
    }
    out
}

/// Decode one frame from the start of `data`: `None` when no complete
/// frame is present, otherwise the records and the bytes consumed.
pub fn decode_frame(data: &[u8]) -> (r: Option<(Vec<Record>, usize)>)
    ensures
        match r {
            Some(p) => complete_frame(data@) && p.0@ == frame_records(data@) && p.1 as int == 1 + 4
                * (data@[0] as int),
            None => !complete_frame(data@),
        },
{
    if data.len() == 0 {
        return None;
    }
    let count: u8 = data[0];
    let need: usize = 1 + 4 * (count as usize);
    if data.len() < need {
        return None;
    }
    let mut out: Vec<Record> = Vec::new();
    let mut k: usize = 0;
    while k < count as usize
        invariant
            k <= count as int,
            data@.len() >= 1 + 4 * (count as int),
            count as int == data@[0] as int,
            out@.len() == k as int,
            forall|j: int| 0 <= j < k as int ==> out@[j] == record_at(data@, 1 + 4 * j),
        decreases count as int - k,
    {
        let base: usize = 1 + 4 * k;
        out.push(
            Record {
                emitter: data[base],
                color: Color { r: data[base + 1], g: data[base + 2], b: data[base + 3] },
            },
        );
        k = k + 1;
    }
    proof {
        assert(out@ =~= frame_records(data@));
    }
    Some((out, need))
}

} // verus!
