//! Reframing parameter-set units into a decoder configuration record.
//!
//! A stream's sequence and picture parameter sets are captured once, before
//! decoding starts, and handed to the backend as one length-prefixed
//! configuration record: a version tag, the profile/compatibility/level bytes
//! copied from the first sequence parameter set, the fixed four-byte length
//! field indicator, then each section as a count followed by
//! (two-byte length, raw bytes) pairs. Every embedded length equals the exact
//! byte length of its unit, and no byte inside a unit is reordered.

use vstd::arithmetic::div_mod::{
    lemma_fundamental_div_mod, lemma_fundamental_div_mod_converse, lemma_mod_bound,
};
use vstd::prelude::*;

use crate::videodecoder::{units_view, HeaderError, VideoHeaders};

verus! {

/// A unit's byte length must fit the record's 16-bit length field.
pub const NAL_LENGTH_LIMIT: usize = 65536;

/// The sequence-parameter-set count shares its byte with three reserved
/// bits, so at most 31 such units fit one record.
pub const MAX_SPS_COUNT: usize = 31;

/// The picture-parameter-set count is a full byte.
pub const MAX_PPS_COUNT: usize = 255;

/// The record's fixed version tag.
pub const CONFIGURATION_VERSION: u8 = 1;

/// The length-field-size indicator: reserved bits set, and a length field of
/// four bytes for each unit of the elementary stream.
pub const LENGTH_FIELD_BYTE: u8 = 255;

/// The three reserved bits that sit above the sequence-parameter-set count.
pub const SPS_COUNT_RESERVED: u8 = 224;

/// Whether one unit's length fits the record's 16-bit length field.
pub open spec fn nal_fits(u: Seq<u8>) -> bool {
    u.len() < NAL_LENGTH_LIMIT
}

/// Whether every unit's length fits the record's 16-bit length field.
pub open spec fn all_fit(us: Seq<Seq<u8>>) -> bool {
    forall|i: int| 0 <= i < us.len() ==> nal_fits(#[trigger] us[i])
}

/// The inputs from which a configuration record can be built: at least one
/// unit in each section, counts that fit their fields, a first sequence
/// parameter set long enough to carry the profile/compatibility/level bytes,
/// and every unit short enough for its length field.
pub open spec fn headers_well_formed(sps: Seq<Seq<u8>>, pps: Seq<Seq<u8>>) -> bool {
    &&& 1 <= sps.len() <= MAX_SPS_COUNT
    &&& 1 <= pps.len() <= MAX_PPS_COUNT
    &&& sps[0].len() >= 4
    &&& all_fit(sps)
    &&& all_fit(pps)
}

/// One unit as the record embeds it: its length as two big-endian bytes,
/// then its bytes unchanged.
pub open spec fn unit_bytes(u: Seq<u8>) -> Seq<u8> {
    seq![(u.len() / 256) as u8, (u.len() % 256) as u8] + u
}

/// A section's units, one length-prefixed unit after the other, in the order
/// given.
pub open spec fn units_bytes(us: Seq<Seq<u8>>) -> Seq<u8>
    decreases us.len(),
{
    if us.len() == 0 {
        Seq::empty()
    } else {
        unit_bytes(us.first()) + units_bytes(us.drop_first())
    }
}

/// The whole configuration record for the given parameter sets.
pub open spec fn record_bytes(sps: Seq<Seq<u8>>, pps: Seq<Seq<u8>>) -> Seq<u8> {
    seq![
        CONFIGURATION_VERSION,
        sps[0][1],
        sps[0][2],
        sps[0][3],
        LENGTH_FIELD_BYTE,
        (SPS_COUNT_RESERVED + sps.len()) as u8,
    ] + units_bytes(sps) + seq![pps.len() as u8] + units_bytes(pps)
}

/// Reads `n` length-prefixed units from the front of `b`; yields the units
/// and the remaining bytes, or nothing when `b` is too short.
pub open spec fn take_units(b: Seq<u8>, n: nat) -> Option<(Seq<Seq<u8>>, Seq<u8>)>
    decreases n,
{
    if n == 0 {
        Some((Seq::empty(), b))
    } else if b.len() < 2 {
        None
    } else {
        let len = b[0] * 256 + b[1];
        if b.len() < 2 + len {
            None
        } else {
            match take_units(b.skip(2 + len), (n - 1) as nat) {
                Some((us, rest)) => Some((seq![b.subrange(2, 2 + len)] + us, rest)),
                None => None,
            }
        }
    }
}

/// Reads a whole configuration record back into its parameter-set units.
/// Succeeds only on a complete, consistent record: correct version and
/// length-field bytes, at least one unit per section, no trailing bytes, and
/// profile/compatibility/level bytes that match the first sequence parameter
/// set.
pub open spec fn parse_record(b: Seq<u8>) -> Option<(Seq<Seq<u8>>, Seq<Seq<u8>>)> {
    if b.len() < 6 || b[0] != CONFIGURATION_VERSION || b[4] != LENGTH_FIELD_BYTE || b[5]
        < SPS_COUNT_RESERVED {
        None
    } else {
        let n = b[5] - SPS_COUNT_RESERVED;
        match take_units(b.skip(6), n as nat) {
            Some((sps, rest1)) => {
                if rest1.len() < 1 {
                    None
                } else {
                    let m = rest1[0];
                    match take_units(rest1.skip(1), m as nat) {
                        Some((pps, rest2)) => {
                            if n >= 1 && m >= 1 && rest2.len() == 0 && sps[0].len() >= 4 && b[1]
                                == sps[0][1] && b[2] == sps[0][2] && b[3] == sps[0][3] {
                                Some((sps, pps))
                            } else {
                                None
                            }
                        },
                        None => None,
                    }
                }
            },
            None => None,
        }
    }
}

/// The two length bytes of a unit that fits the 16-bit field read back as
/// its exact length.
proof fn lemma_length_bytes(len: int)
    requires
        0 <= len < NAL_LENGTH_LIMIT,
    ensures
        0 <= len / 256 <= 255,
        0 <= len % 256 <= 255,
        (len / 256) * 256 + len % 256 == len,
{
    lemma_fundamental_div_mod(len, 256);
    lemma_mod_bound(len, 256);
}

/// A section's encoding grows at its end when a unit is appended.
pub proof fn lemma_units_bytes_snoc(us: Seq<Seq<u8>>)
    requires
        us.len() > 0,
    ensures
        units_bytes(us) == units_bytes(us.drop_last()) + unit_bytes(us.last()),
    decreases us.len(),
{
    if us.len() == 1 {
        assert(us.drop_last() =~= Seq::<Seq<u8>>::empty());
        assert(us.drop_first() =~= Seq::<Seq<u8>>::empty());
        assert(units_bytes(Seq::<Seq<u8>>::empty()) =~= Seq::<u8>::empty());
        assert(units_bytes(us.drop_last()) + unit_bytes(us.last()) =~= unit_bytes(us.first())
            + units_bytes(us.drop_first()));
    } else {
        lemma_units_bytes_snoc(us.drop_first());
        assert(us.drop_first().drop_last() =~= us.drop_last().drop_first());
        assert(us.drop_first().last() == us.last());
        assert(us.drop_last().first() == us.first());
        assert(us.drop_last().len() > 0);
        assert(unit_bytes(us.first()) + (units_bytes(us.drop_last().drop_first()) + unit_bytes(
            us.last(),
        )) =~= (unit_bytes(us.first()) + units_bytes(us.drop_last().drop_first())) + unit_bytes(
            us.last(),
        ));
    }
}

/// Reading back what a section wrote recovers exactly its units and leaves
/// exactly the bytes that followed.
pub proof fn lemma_take_units_of_encoding(us: Seq<Seq<u8>>, rest: Seq<u8>)
    requires
        all_fit(us),
    ensures
        take_units(units_bytes(us) + rest, us.len()) == Some((us, rest)),
    decreases us.len(),
{
    let b = units_bytes(us) + rest;
    if us.len() == 0 {
        assert(b =~= rest);
    } else {
        let u = us.first();
        let len = u.len() as int;
        assert(nal_fits(us[0]));
        lemma_length_bytes(len);
        assert(b =~= unit_bytes(u) + (units_bytes(us.drop_first()) + rest));
        assert(b[0] == (len / 256) as u8);
        assert(b[1] == (len % 256) as u8);
        assert(b[0] * 256 + b[1] == len);
        assert(b.len() >= 2 + len);
        assert(b.subrange(2, 2 + len) =~= u);
        assert(b.skip(2 + len) =~= units_bytes(us.drop_first()) + rest);
        lemma_take_units_of_encoding(us.drop_first(), rest);
        assert(seq![u] + us.drop_first() =~= us);
    }
}

/// Reading units succeeds only on their exact encoding: a successful read
/// of `n` units pins the bytes to the units' encoding followed by the rest,
/// and every unit fits its length field.
pub proof fn lemma_take_units_sound(b: Seq<u8>, n: nat)
    requires
        take_units(b, n) is Some,
    ensures
        ({
            let (us, rest) = take_units(b, n).unwrap();
            &&& us.len() == n
            &&& all_fit(us)
            &&& b == units_bytes(us) + rest
        }),
    decreases n,
{
    let (us, rest) = take_units(b, n).unwrap();
    if n == 0 {
        assert(b =~= units_bytes(us) + rest);
    } else {
        let len = b[0] * 256 + b[1];
        let u = b.subrange(2, 2 + len);
        let tail = b.skip(2 + len);
        lemma_take_units_sound(tail, (n - 1) as nat);
        let (us_tail, rest_tail) = take_units(tail, (n - 1) as nat).unwrap();
        assert(us =~= seq![u] + us_tail);
        assert(us.drop_first() =~= us_tail);
        lemma_fundamental_div_mod_converse(len, 256, b[0] as int, b[1] as int);
        assert(unit_bytes(u) =~= seq![b[0], b[1]] + u);
        assert(b =~= unit_bytes(u) + (units_bytes(us_tail) + rest));
        assert(units_bytes(us) =~= unit_bytes(u) + units_bytes(us_tail));
        assert(b =~= units_bytes(us) + rest);
        assert forall|i: int| 0 <= i < us.len() implies nal_fits(#[trigger] us[i]) by {
            if i == 0 {
                assert(us[0] == u);
            } else {
                assert(us[i] == us_tail[i - 1]);
            }
        }
    }
}

/// A record parses only as itself: a successful parse recovers well-formed
/// headers whose record is exactly the input, byte for byte. Together with
/// the round-trip law this makes the encoding lossless in both directions.
pub proof fn lemma_parse_sound(b: Seq<u8>)
    requires
        parse_record(b) is Some,
    ensures
        ({
            let (sps, pps) = parse_record(b).unwrap();
            &&& headers_well_formed(sps, pps)
            &&& b == record_bytes(sps, pps)
        }),
{
    let (sps, pps) = parse_record(b).unwrap();
    let n = b[5] - SPS_COUNT_RESERVED;
    lemma_take_units_sound(b.skip(6), n as nat);
    let (sps0, rest1) = take_units(b.skip(6), n as nat).unwrap();
    assert(sps0 == sps);
    let m = rest1[0];
    lemma_take_units_sound(rest1.skip(1), m as nat);
    let (pps0, rest2) = take_units(rest1.skip(1), m as nat).unwrap();
    assert(pps0 == pps);
    assert(sps.len() == n as nat && 1 <= n <= MAX_SPS_COUNT);
    assert(pps.len() == m as nat && 1 <= m <= MAX_PPS_COUNT);
    assert(rest1 =~= seq![rest1[0]] + rest1.skip(1));
    assert(rest2 =~= Seq::<u8>::empty());
    assert(rest1.skip(1) =~= units_bytes(pps) + Seq::<u8>::empty());
    assert(rest1.skip(1) =~= units_bytes(pps));
    assert(b[5] == (SPS_COUNT_RESERVED + sps.len()) as u8);
    assert(b =~= seq![b[0], b[1], b[2], b[3], b[4], b[5]] + b.skip(6));
    assert(b =~= record_bytes(sps, pps));
}

/// Two different well-formed header sets never share a record: the
/// encoding is injective.
pub proof fn lemma_record_injective(
    sps1: Seq<Seq<u8>>,
    pps1: Seq<Seq<u8>>,
    sps2: Seq<Seq<u8>>,
    pps2: Seq<Seq<u8>>,
)
    requires
        headers_well_formed(sps1, pps1),
        headers_well_formed(sps2, pps2),
        record_bytes(sps1, pps1) == record_bytes(sps2, pps2),
    ensures
        sps1 == sps2,
        pps1 == pps2,
{
    lemma_record_round_trip(sps1, pps1);
    lemma_record_round_trip(sps2, pps2);
}

/// Round-trip law: a record built from well-formed headers reads back to
/// exactly the original units, each byte-exact, in the original order.
pub proof fn lemma_record_round_trip(sps: Seq<Seq<u8>>, pps: Seq<Seq<u8>>)
    requires
        headers_well_formed(sps, pps),
    ensures
        parse_record(record_bytes(sps, pps)) == Some((sps, pps)),
{
    let b = record_bytes(sps, pps);
    let head = seq![
        CONFIGURATION_VERSION,
        sps[0][1],
        sps[0][2],
        sps[0][3],
        LENGTH_FIELD_BYTE,
        (SPS_COUNT_RESERVED + sps.len()) as u8,
    ];
    assert(b.len() >= 6);
    assert(b[0] == CONFIGURATION_VERSION);
    assert(b[4] == LENGTH_FIELD_BYTE);
    assert(b[5] == (SPS_COUNT_RESERVED + sps.len()) as u8);
    assert(b[5] - SPS_COUNT_RESERVED == sps.len());
    let tail1 = seq![pps.len() as u8] + units_bytes(pps);
    assert(b.skip(6) =~= units_bytes(sps) + tail1);
    lemma_take_units_of_encoding(sps, tail1);
    assert(tail1[0] == pps.len() as u8);
    assert(tail1.skip(1) =~= units_bytes(pps) + Seq::<u8>::empty());
    lemma_take_units_of_encoding(pps, Seq::<u8>::empty());
}

/// Builds the configuration record for `headers`, or fails with
/// `MalformedHeaders` — producing no partial record — exactly when a section
/// is empty, a count or unit length overflows its field, or the first
/// sequence parameter set is too short for the profile bytes.
pub fn create_avcc_chunk(headers: &VideoHeaders) -> (r: Result<Vec<u8>, HeaderError>)
    ensures
        r is Ok <==> headers_well_formed(headers.sps_view(), headers.pps_view()),
        r matches Ok(v) ==> v@ == record_bytes(headers.sps_view(), headers.pps_view()),
        r matches Err(e) ==> e == HeaderError::MalformedHeaders,
{
    let n = headers.sps.len();
    let m = headers.pps.len();
    if n == 0 || n > MAX_SPS_COUNT || m == 0 || m > MAX_PPS_COUNT {
        return Err(HeaderError::MalformedHeaders);
    }
    if headers.sps[0].len() < 4 {
        return Err(HeaderError::MalformedHeaders);
    }
    let mut i: usize = 0;
    while i < n
        invariant
            n == headers.sps@.len(),
            forall|j: int| 0 <= j < i ==> nal_fits(#[trigger] headers.sps_view()[j]),
        decreases n - i,
    {
        if headers.sps[i].len() >= NAL_LENGTH_LIMIT {
            assert(!nal_fits(headers.sps_view()[i as int]));
            return Err(HeaderError::MalformedHeaders);
        }
        i = i + 1;
    }
    let mut i: usize = 0;
    while i < m
        invariant
            m == headers.pps@.len(),
            forall|j: int| 0 <= j < i ==> nal_fits(#[trigger] headers.pps_view()[j]),
        decreases m - i,
    {
        if headers.pps[i].len() >= NAL_LENGTH_LIMIT {
            assert(!nal_fits(headers.pps_view()[i as int]));
            return Err(HeaderError::MalformedHeaders);
        }
        i = i + 1;
    }
    let mut out: Vec<u8> = Vec::new();
    out.push(CONFIGURATION_VERSION);
    out.push(headers.sps[0][1]);
    out.push(headers.sps[0][2]);
    out.push(headers.sps[0][3]);
    out.push(LENGTH_FIELD_BYTE);
    out.push(SPS_COUNT_RESERVED + n as u8);
    let ghost head = seq![
        CONFIGURATION_VERSION,
        headers.sps_view()[0][1],
        headers.sps_view()[0][2],
        headers.sps_view()[0][3],
        LENGTH_FIELD_BYTE,
        (SPS_COUNT_RESERVED + headers.sps_view().len()) as u8,
    ];
    assert(out@ =~= head);
    append_units(&mut out, &headers.sps);
    out.push(m as u8);
    assert(out@ =~= (head + units_bytes(headers.sps_view())) + seq![
        headers.pps_view().len() as u8,
    ]);
    append_units(&mut out, &headers.pps);
    proof {
        assert(out@ =~= record_bytes(headers.sps_view(), headers.pps_view()));
    }
    Ok(out)
}

/// Appends each unit of a section to `out` as a (two-byte length, bytes)
/// pair, in the order given.
fn append_units(out: &mut Vec<u8>, units: &Vec<Vec<u8>>)
    requires
        all_fit(units_view(units@)),
    ensures
        final(out)@ == old(out)@ + units_bytes(units_view(units@)),
{
    let ghost us = units_view(units@);
    let mut i: usize = 0;
    while i < units.len()
        invariant
            us == units_view(units@),
            all_fit(us),
            i <= units@.len(),
            us.len() == units@.len(),
            out@ == old(out)@ + units_bytes(us.take(i as int)),
        decreases units@.len() - i,
    {
        let len = units[i].len();
        assert(us[i as int] == units@[i as int]@);
        assert(nal_fits(us[i as int]));
        proof {
            lemma_length_bytes(len as int);
        }
        let ghost before = out@;
        out.push((len / 256) as u8);
        out.push((len % 256) as u8);
        let mut j: usize = 0;
        while j < len
            invariant
                j <= len,
                len == units@[i as int]@.len(),
                i < units@.len(),
                out@ == before + seq![(len / 256) as u8, (len % 256) as u8] + units@[i as int]@.take(j as int),
            decreases len - j,
        {
            out.push(units[i][j]);
            assert(out@ =~= before + seq![(len / 256) as u8, (len % 256) as u8] + units@[i as int]@.take(j as int + 1));
            j = j + 1;
        }
        proof {
            assert(units@[i as int]@.take(len as int) =~= us[i as int]);
            assert(out@ =~= before + unit_bytes(us[i as int]));
            lemma_units_bytes_snoc(us.take(i as int + 1));
            assert(us.take(i as int + 1).drop_last() =~= us.take(i as int));
            assert(us.take(i as int + 1).last() == us[i as int]);
            assert(out@ =~= old(out)@ + units_bytes(us.take(i as int + 1)));
        }
        i = i + 1;
    }
    proof {
        assert(us.take(us.len() as int) =~= us);
    }
}

/// Reads `n` length-prefixed units of `b` starting at `pos` into `acc`;
/// yields the offset just past them, or nothing when the bytes run out.
fn take_units_into(b: &Vec<u8>, pos: usize, n: usize, acc: &mut Vec<Vec<u8>>) -> (r: Option<usize>)
    requires
        pos <= b@.len(),
    ensures
        match r {
            Some(end) => {
                &&& pos <= end <= b@.len()
                &&& take_units(b@.skip(pos as int), n as nat) matches Some((us, rest))
                    && units_view(final(acc)@) == units_view(old(acc)@) + us && rest == b@.skip(
                    end as int,
                )
            },
            None => take_units(b@.skip(pos as int), n as nat) is None,
        },
    decreases n,
{
    let ghost tail = b@.skip(pos as int);
    if n == 0 {
        assert(units_view(acc@) + Seq::<Seq<u8>>::empty() =~= units_view(acc@));
        return Some(pos);
    }
    if b.len() - pos < 2 {
        return None;
    }
    let len = (b[pos] as usize) * 256 + (b[pos + 1] as usize);
    assert(tail[0] == b@[pos as int] && tail[1] == b@[pos as int + 1]);
    assert(len == tail[0] * 256 + tail[1]);
    if b.len() - pos - 2 < len {
        assert(tail.len() < 2 + len);
        return None;
    }
    let mut unit: Vec<u8> = Vec::new();
    let mut j: usize = 0;
    while j < len
        invariant
            j <= len,
            pos + 2 + len <= b@.len(),
            b@.len() <= usize::MAX,
            unit@ == b@.subrange(pos as int + 2, pos as int + 2 + j as int),
        decreases len - j,
    {
        unit.push(b[pos + 2 + j]);
        assert(unit@ =~= b@.subrange(pos as int + 2, pos as int + 2 + j as int + 1));
        j = j + 1;
    }
    assert(unit@ =~= tail.subrange(2, 2 + len as int));
    let ghost acc0 = acc@;
    acc.push(unit);
    let r = take_units_into(b, pos + 2 + len, n - 1, acc);
    proof {
        assert(b@.skip(pos as int + 2 + len as int) =~= tail.skip(2 + len as int));
    }
    match r {
        Some(end) => {
            proof {
                let (us_tail, rest) = take_units(tail.skip(2 + len as int), (n - 1) as nat).unwrap();
                assert(units_view(acc0.push(unit)) =~= units_view(acc0).push(unit@));
                assert(units_view(acc@) =~= units_view(acc0) + (seq![tail.subrange(2, 2 + len as int)]
                    + us_tail));
            }
            Some(end)
        },
        None => None,
    }
}

/// Reads a configuration record back into its parameter-set units, or yields
/// nothing for bytes that are not a complete, consistent record.
pub fn parse_avcc_chunk(data: &Vec<u8>) -> (r: Option<VideoHeaders>)
    ensures
        match r {
            Some(h) => parse_record(data@) == Some((h.sps_view(), h.pps_view())),
            None => parse_record(data@) is None,
        },
{
    if data.len() < 6 {
        return None;
    }
    if data[0] != CONFIGURATION_VERSION || data[4] != LENGTH_FIELD_BYTE || data[5]
        < SPS_COUNT_RESERVED {
        return None;
    }
    let n = (data[5] - SPS_COUNT_RESERVED) as usize;
    let mut sps: Vec<Vec<u8>> = Vec::new();
    let end1 = match take_units_into(data, 6, n, &mut sps) {
        Some(end) => end,
        None => {
            return None;
        },
    };
    assert(units_view(sps@) =~= take_units(data@.skip(6), n as nat).unwrap().0);
    if end1 >= data.len() {
        return None;
    }
    let m = data[end1] as usize;
    assert(data@.skip(end1 as int)[0] == data@[end1 as int]);
    let mut pps: Vec<Vec<u8>> = Vec::new();
    let end2 = match take_units_into(data, end1 + 1, m, &mut pps) {
        Some(end) => end,
        None => {
            proof {
                assert(data@.skip(end1 as int).skip(1) =~= data@.skip(end1 as int + 1));
            }
            return None;
        },
    };
    proof {
        assert(data@.skip(end1 as int).skip(1) =~= data@.skip(end1 as int + 1));
        assert(units_view(pps@) =~= take_units(data@.skip(end1 as int + 1), m as nat).unwrap().0);
    }
    if end2 != data.len() {
        return None;
    }
    assert(data@.skip(end2 as int).len() == 0);
    if n == 0 || m == 0 {
        return None;
    }
    if sps[0].len() < 4 {
        return None;
    }
    if data[1] != sps[0][1] || data[2] != sps[0][2] || data[3] != sps[0][3] {
        return None;
    }
    let h = VideoHeaders { sps, pps };
    Some(h)
}

} // verus!
