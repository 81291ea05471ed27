//! Properties that relate construction, the accessors and the buffer bounds.
use vstd::prelude::*;

use crate::board::{packs, payload, BoardId, CAPACITY};

verus! {

/// A part is present exactly when its stream was given and holds more than
/// its terminator: an absent stream and one with an empty part both leave the
/// part absent.
pub proof fn lemma_presence(
    b: BoardId,
    v: Option<Seq<u8>>,
    n: Option<Seq<u8>>,
    ver: Option<Seq<u8>>,
)
    requires
        b.built_from(v, n, ver),
    ensures
        b.vendor_part() is Some <==> (v matches Some(s) && s.len() > 1),
        b.name_part() is Some <==> (n matches Some(s) && s.len() > 1),
        b.version_part() is Some <==> (ver matches Some(s) && s.len() > 1),
{
}

/// Streams that each hold a non-empty part followed by one terminator byte
/// give back exactly those parts, byte for byte.
pub proof fn lemma_round_trip(
    b: BoardId,
    pv: Seq<u8>,
    pn: Seq<u8>,
    pver: Seq<u8>,
    tv: u8,
    tn: u8,
    tver: u8,
)
    requires
        b.built_from(Some(pv.push(tv)), Some(pn.push(tn)), Some(pver.push(tver))),
        pv.len() > 0,
        pn.len() > 0,
        pver.len() > 0,
    ensures
        b.vendor_part() == Some(pv),
        b.name_part() == Some(pn),
        b.version_part() == Some(pver),
{
    assert(pv.push(tv).drop_last() =~= pv);
    assert(pn.push(tn).drop_last() =~= pn);
    assert(pver.push(tver).drop_last() =~= pver);
}

/// A board built from streams that fit has its offsets ordered and within
/// the buffer.
pub proof fn lemma_offsets_ordered(
    b: BoardId,
    v: Option<Seq<u8>>,
    n: Option<Seq<u8>>,
    ver: Option<Seq<u8>>,
)
    requires
        packs(v, n, ver),
        b.built_from(v, n, ver),
    ensures
        0 <= b.vendor_end() <= b.name_end() <= b.version_end() <= CAPACITY,
{
}

/// A name stream given alone fits exactly when its part leaves two bytes of
/// the buffer free: one for its terminator and one to observe its end.
pub proof fn lemma_name_capacity(p: Seq<u8>, t: u8)
    ensures
        packs(None, Some(p.push(t)), None) <==> p.len() <= CAPACITY - 2,
{
    assert(payload(None).len() == 0);
}

/// The parts are determined by the value alone: equal values give equal
/// parts, so reading a part again gives the same bytes.
pub proof fn lemma_parts_determined(a: BoardId, b: BoardId)
    requires
        a == b,
    ensures
        a.vendor_part() == b.vendor_part(),
        a.name_part() == b.name_part(),
        a.version_part() == b.version_part(),
        a.label_view() == b.label_view(),
{
}

} // verus!
