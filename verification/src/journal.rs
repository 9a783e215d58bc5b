//! The append-only tactic decision journal and its compacted segments:
//! record framing, tolerant decoding of a torn tail, segment headers, and
//! the index continuity that ties segments and the active journal together.

use crate::bytes::{
    append_bytes, copy_range, lemma_le_roundtrips, push_u16_le, push_u32_le, push_u64_le, range_equals, read_u16_le,
    read_u32_le, read_u64_le,
};
use crate::compression::{zstd_bulk_compress, zstd_bulk_decompress, zstd_compress, zstd_decompress};
use crate::digest::{digest_bytes, sha256_of, Digest};
use crate::error::{route_message, NativeTacticRouteRunError};
use vstd::bytes::{
    spec_u16_from_le_bytes, spec_u16_to_le_bytes, spec_u32_from_le_bytes, spec_u32_to_le_bytes, spec_u64_from_le_bytes,
    spec_u64_to_le_bytes,
};
use vstd::prelude::*;

verus! {

pub const NATIVE_TACTIC_DECISION_JOURNAL_FILE: &'static str = "decisions.dtqj";
pub const NATIVE_TACTIC_DECISION_SEGMENTS_DIRECTORY: &'static str = "decision-journal";
pub const NATIVE_TACTIC_CONTENT_STORE_DIRECTORY: &'static str = "objects";
pub const NATIVE_TACTIC_DECISION_JOURNAL_VERSION: u16 = 2;
pub const NATIVE_TACTIC_DECISION_SEGMENT_VERSION: u16 = 1;
pub const NATIVE_TACTIC_DECISION_JOURNAL_HEADER_SIZE: usize = 12;
pub const NATIVE_TACTIC_DECISION_RECORD_HEADER_SIZE: usize = 36;
pub const NATIVE_TACTIC_DECISION_SEGMENT_HEADER_SIZE: usize = 68;
pub const NATIVE_TACTIC_DECISION_SEGMENT_COMPRESSION_LEVEL: i32 = 3;
pub const NATIVE_TACTIC_DECISION_COMPACTION_RECORDS: u64 = 256;
pub const MAXIMUM_TACTIC_DECISION_RECORD_BYTES: usize = 16777216;
pub const MAXIMUM_TACTIC_DECISION_SEGMENT_BYTES: usize = 268435456;

pub open spec fn journal_magic() -> Seq<u8> {
    seq![0x44u8, 0x53u8, 0x4bu8, 0x54u8, 0x51u8, 0x4au8, 0x30u8, 0x31u8]
}

pub open spec fn segment_magic() -> Seq<u8> {
    seq![0x44u8, 0x53u8, 0x4bu8, 0x54u8, 0x51u8, 0x4au8, 0x43u8, 0x31u8]
}

fn journal_magic_bytes() -> (v: Vec<u8>)
    ensures
        v@ == journal_magic(),
{
    let v: Vec<u8> = vec![0x44u8, 0x53u8, 0x4bu8, 0x54u8, 0x51u8, 0x4au8, 0x30u8, 0x31u8];
    assert(v@ =~= journal_magic());
    v
}

fn segment_magic_bytes() -> (v: Vec<u8>)
    ensures
        v@ == segment_magic(),
{
    let v: Vec<u8> = vec![0x44u8, 0x53u8, 0x4bu8, 0x54u8, 0x51u8, 0x4au8, 0x43u8, 0x31u8];
    assert(v@ =~= segment_magic());
    v
}

/// The journal header: magic, version, a zero reserved field.
pub open spec fn journal_header() -> Seq<u8> {
    journal_magic() + spec_u16_to_le_bytes(NATIVE_TACTIC_DECISION_JOURNAL_VERSION) + spec_u16_to_le_bytes(0u16)
}

/// One framed record: the payload length, the payload's SHA-256, and the
/// payload (the record's canonical encoding).
pub open spec fn record_frame(payload: Seq<u8>) -> Seq<u8> {
    spec_u32_to_le_bytes(payload.len() as u32) + sha256_of(payload) + payload
}

/// The frames of `payloads`, in order.
pub open spec fn record_frames(payloads: Seq<Seq<u8>>) -> Seq<u8>
    decreases payloads.len(),
{
    if payloads.len() == 0 {
        Seq::empty()
    } else {
        record_frame(payloads[0]) + record_frames(payloads.drop_first())
    }
}

/// The records of a journal from `cursor` on, and where the last complete
/// record ends. A record whose header or payload is cut short ends the
/// journal (a torn tail); an oversized length or a digest mismatch is an
/// error.
pub open spec fn records_from(bytes: Seq<u8>, cursor: int) -> Option<(Seq<Seq<u8>>, int)>
    decreases bytes.len() - cursor,
{
    if cursor < 0 || cursor >= bytes.len() || bytes.len() - cursor < NATIVE_TACTIC_DECISION_RECORD_HEADER_SIZE {
        Some((Seq::empty(), cursor))
    } else {
        let length = spec_u32_from_le_bytes(bytes.subrange(cursor, cursor + 4));
        let end = cursor + NATIVE_TACTIC_DECISION_RECORD_HEADER_SIZE + length;
        if length > MAXIMUM_TACTIC_DECISION_RECORD_BYTES {
            None
        } else if bytes.len() < end {
            Some((Seq::empty(), cursor))
        } else {
            let payload = bytes.subrange(cursor + NATIVE_TACTIC_DECISION_RECORD_HEADER_SIZE, end);
            if bytes.subrange(cursor + 4, cursor + NATIVE_TACTIC_DECISION_RECORD_HEADER_SIZE) != sha256_of(payload) {
                None
            } else {
                match records_from(bytes, end) {
                    Some((rest, last)) => Some((seq![payload] + rest, last)),
                    None => None,
                }
            }
        }
    }
}

/// A decoded journal: the record payloads, and how many leading bytes hold
/// the header and complete records.
pub open spec fn decoded_journal(bytes: Seq<u8>) -> Option<(Seq<Seq<u8>>, int)> {
    if bytes.len() < NATIVE_TACTIC_DECISION_JOURNAL_HEADER_SIZE || bytes.subrange(0, 8) != journal_magic()
        || spec_u16_from_le_bytes(bytes.subrange(8, 10)) != NATIVE_TACTIC_DECISION_JOURNAL_VERSION
        || spec_u16_from_le_bytes(bytes.subrange(10, 12)) != 0
    {
        None
    } else {
        records_from(bytes, NATIVE_TACTIC_DECISION_JOURNAL_HEADER_SIZE as int)
    }
}

/// The decoded record payloads of a journal, and the length of its valid
/// prefix.
pub struct DecodedTacticDecisionJournal {
    pub payloads: Vec<Vec<u8>>,
    pub valid_bytes: usize,
}

impl DecodedTacticDecisionJournal {
    pub open spec fn payload_views(self) -> Seq<Seq<u8>> {
        self.payloads@.map_values(|p: Vec<u8>| p@)
    }
}

/// Frames one record payload for appending; payloads over 16 MiB are
/// refused.
pub fn encode_tactic_decision_record(payload: &[u8]) -> (r: Result<Vec<u8>, NativeTacticRouteRunError>)
    ensures
        r is Ok <==> payload@.len() <= MAXIMUM_TACTIC_DECISION_RECORD_BYTES,
        r matches Ok(frame) ==> frame@ == record_frame(payload@),
{
    if payload.len() > MAXIMUM_TACTIC_DECISION_RECORD_BYTES {
        return Err(route_message("tactic decision journal record exceeds its size bound"));
    }
    let mut frame: Vec<u8> = Vec::new();
    push_u32_le(&mut frame, payload.len() as u32);
    let payload_sha256 = digest_bytes(payload).to_vec();
    append_bytes(&mut frame, payload_sha256.as_slice());
    append_bytes(&mut frame, payload);
    assert(frame@ =~= record_frame(payload@));
    Ok(frame)
}

/// A whole journal holding `payloads`, in order.
pub fn encode_tactic_decision_journal(payloads: &Vec<Vec<u8>>) -> (r: Result<Vec<u8>, NativeTacticRouteRunError>)
    ensures
        r is Ok <==> forall|i: int| 0 <= i < payloads@.len() ==> #[trigger] payloads@[i]@.len() <= MAXIMUM_TACTIC_DECISION_RECORD_BYTES,
        r matches Ok(bytes) ==> bytes@ == journal_header() + record_frames(payloads@.map_values(|p: Vec<u8>| p@)),
{
    let mut bytes = journal_magic_bytes();
    push_u16_le(&mut bytes, NATIVE_TACTIC_DECISION_JOURNAL_VERSION);
    push_u16_le(&mut bytes, 0u16);
    let ghost views = payloads@.map_values(|p: Vec<u8>| p@);
    let ghost header = bytes@;
    proof {
        assert(views.skip(0) =~= views);
        assert(header =~= journal_header());
    }
    let mut i: usize = 0;
    while i < payloads.len()
        invariant
            i <= payloads@.len(),
            views == payloads@.map_values(|p: Vec<u8>| p@),
            forall|k: int| 0 <= k < i ==> #[trigger] payloads@[k]@.len() <= MAXIMUM_TACTIC_DECISION_RECORD_BYTES,
            bytes@ + record_frames(views.skip(i as int)) == header + record_frames(views),
        decreases payloads@.len() - i,
    {
        let frame = match encode_tactic_decision_record(payloads[i].as_slice()) {
            Ok(frame) => frame,
            Err(e) => {
                return Err(e);
            },
        };
        proof {
            let rest = views.skip(i as int);
            assert(rest[0] == views[i as int]);
            assert(rest.drop_first() =~= views.skip(i + 1));
            assert(bytes@ + frame@ + record_frames(views.skip(i + 1)) =~= bytes@ + record_frames(rest));
        }
        append_bytes(&mut bytes, frame.as_slice());
        i = i + 1;
    }
    proof {
        assert(views.skip(i as int).len() == 0);
        assert(bytes@ + record_frames(views.skip(i as int)) =~= bytes@);
    }
    Ok(bytes)
}

/// Decodes a journal: the header must be intact; records are read until
/// the bytes end or a record is cut short, which a crash mid-append leaves
/// behind; an oversized length or a digest mismatch is refused.
pub fn decode_tactic_decision_journal(bytes: &[u8]) -> (r: Result<DecodedTacticDecisionJournal, NativeTacticRouteRunError>)
    ensures
        r is Ok <==> decoded_journal(bytes@) is Some,
        r matches Ok(d) ==> decoded_journal(bytes@) == Some((d.payload_views(), d.valid_bytes as int)),
{
    let n = bytes.len();
    if n < NATIVE_TACTIC_DECISION_JOURNAL_HEADER_SIZE {
        return Err(route_message("tactic decision journal header is invalid"));
    }
    let magic = journal_magic_bytes();
    if !range_equals(bytes, 0, magic.as_slice()) || read_u16_le(bytes, 8) != NATIVE_TACTIC_DECISION_JOURNAL_VERSION
        || read_u16_le(bytes, 10) != 0 {
        return Err(route_message("tactic decision journal header is invalid"));
    }
    let mut payloads: Vec<Vec<u8>> = Vec::new();
    let mut cursor: usize = NATIVE_TACTIC_DECISION_JOURNAL_HEADER_SIZE;
    while cursor < n
        invariant_except_break
            n == bytes@.len(),
            NATIVE_TACTIC_DECISION_JOURNAL_HEADER_SIZE <= cursor <= n,
            records_from(bytes@, NATIVE_TACTIC_DECISION_JOURNAL_HEADER_SIZE as int) == match records_from(
                bytes@,
                cursor as int,
            ) {
                Some((rest, last)) => Some((payloads@.map_values(|p: Vec<u8>| p@) + rest, last)),
                None => None,
            },
        ensures
            n == bytes@.len(),
            NATIVE_TACTIC_DECISION_JOURNAL_HEADER_SIZE <= cursor <= n,
            records_from(bytes@, NATIVE_TACTIC_DECISION_JOURNAL_HEADER_SIZE as int) == match records_from(
                bytes@,
                cursor as int,
            ) {
                Some((rest, last)) => Some((payloads@.map_values(|p: Vec<u8>| p@) + rest, last)),
                None => None,
            },
            records_from(bytes@, cursor as int) == Some((Seq::<Seq<u8>>::empty(), cursor as int)),
        decreases n - cursor,
    {
        let remaining = n - cursor;
        if remaining < NATIVE_TACTIC_DECISION_RECORD_HEADER_SIZE {
            break;
        }
        let payload_len = read_u32_le(bytes, cursor) as usize;
        if payload_len > MAXIMUM_TACTIC_DECISION_RECORD_BYTES {
            return Err(route_message("tactic decision journal record length is invalid"));
        }
        let record_len = NATIVE_TACTIC_DECISION_RECORD_HEADER_SIZE + payload_len;
        if remaining < record_len {
            break;
        }
        let expected = copy_range(bytes, cursor + 4, cursor + NATIVE_TACTIC_DECISION_RECORD_HEADER_SIZE);
        let payload = copy_range(bytes, cursor + NATIVE_TACTIC_DECISION_RECORD_HEADER_SIZE, cursor + record_len);
        let actual = digest_bytes(payload.as_slice()).to_vec();
        if !range_equals(expected.as_slice(), 0, actual.as_slice()) {
            proof {
                assert(expected@.subrange(0, 32) =~= expected@);
            }
            return Err(route_message("tactic decision journal record digest is invalid"));
        }
        let ghost old_views = payloads@.map_values(|p: Vec<u8>| p@);
        let ghost pv = payload@;
        proof {
            assert(expected@.subrange(0, 32) =~= expected@);
            let next = (cursor + record_len) as int;
            assert(records_from(bytes@, cursor as int) == match records_from(bytes@, next) {
                Some((rest, last)) => Some((seq![pv] + rest, last)),
                None => None,
            });
            match records_from(bytes@, next) {
                Some((rest, last)) => {
                    assert(old_views + (seq![pv] + rest) =~= old_views.push(pv) + rest);
                },
                None => {},
            }
        }
        payloads.push(payload);
        proof {
            assert(payloads@.map_values(|p: Vec<u8>| p@) =~= old_views.push(pv));
        }
        cursor = cursor + record_len;
    }
    proof {
        assert(payloads@.map_values(|p: Vec<u8>| p@) + Seq::<Seq<u8>>::empty() =~= payloads@.map_values(|p: Vec<u8>| p@));
    }
    Ok(DecodedTacticDecisionJournal { payloads, valid_bytes: cursor })
}

/// Every payload fits a record and has a 32-byte digest (as every SHA-256
/// digest is).
pub open spec fn framable(payloads: Seq<Seq<u8>>) -> bool {
    forall|i: int| 0 <= i < payloads.len() ==> {
        &&& (#[trigger] payloads[i]).len() <= MAXIMUM_TACTIC_DECISION_RECORD_BYTES
        &&& sha256_of(payloads[i]).len() == 32
    }
}

proof fn lemma_records_from_frames(pre: Seq<u8>, payloads: Seq<Seq<u8>>, tail: Seq<u8>)
    requires
        framable(payloads),
        records_from(pre + record_frames(payloads) + tail, (pre + record_frames(payloads)).len() as int) == Some(
            (Seq::<Seq<u8>>::empty(), (pre + record_frames(payloads)).len() as int),
        ),
    ensures
        records_from(pre + record_frames(payloads) + tail, pre.len() as int) == Some(
            (payloads, (pre + record_frames(payloads)).len() as int),
        ),
    decreases payloads.len(),
{
    let bytes = pre + record_frames(payloads) + tail;
    if payloads.len() == 0 {
        assert(pre + record_frames(payloads) =~= pre);
    } else {
        let p = payloads[0];
        let rest = payloads.drop_first();
        assert(framable(rest)) by {
            assert forall|i: int| 0 <= i < rest.len() implies {
                &&& (#[trigger] rest[i]).len() <= MAXIMUM_TACTIC_DECISION_RECORD_BYTES
                &&& sha256_of(rest[i]).len() == 32
            } by {
                assert(rest[i] == payloads[i + 1]);
            }
        }
        let pre2 = pre + record_frame(p);
        lemma_le_roundtrips();
        let len = p.len() as u32;
        assert(pre + record_frames(payloads) =~= pre2 + record_frames(rest));
        assert(bytes =~= pre2 + record_frames(rest) + tail);
        lemma_records_from_frames(pre2, rest, tail);
        let c = pre.len() as int;
        assert(record_frame(p).len() == 36 + p.len());
        assert(bytes.subrange(c, c + 4) =~= spec_u32_to_le_bytes(len));
        assert(bytes.subrange(c + 4, c + 36) =~= sha256_of(p));
        assert(bytes.subrange(c + 36, c + 36 + p.len()) =~= p);
        assert(pre2.len() == c + 36 + p.len());
        assert(seq![p] + rest =~= payloads);
    }
}

/// Decoding an encoded journal gives back exactly the payloads it was
/// encoded from, with every byte valid.
pub proof fn lemma_journal_round_trip(payloads: Seq<Seq<u8>>)
    requires
        framable(payloads),
    ensures
        decoded_journal(journal_header() + record_frames(payloads)) == Some(
            (payloads, (journal_header() + record_frames(payloads)).len() as int),
        ),
{
    let bytes = journal_header() + record_frames(payloads);
    lemma_le_roundtrips();
    assert(journal_header().len() == 12);
    assert(bytes.subrange(0, 8) =~= journal_magic());
    assert(bytes.subrange(8, 10) =~= spec_u16_to_le_bytes(NATIVE_TACTIC_DECISION_JOURNAL_VERSION));
    assert(bytes.subrange(10, 12) =~= spec_u16_to_le_bytes(0u16));
    assert(bytes + Seq::<u8>::empty() =~= bytes);
    lemma_records_from_frames(journal_header(), payloads, Seq::<u8>::empty());
}

/// A journal torn anywhere inside its last record, as a crash during an
/// append leaves it, still decodes to the records before that one, and
/// its valid prefix ends where the torn record began.
pub proof fn lemma_torn_tail_is_dropped(payloads: Seq<Seq<u8>>, last: Seq<u8>, kept: int)
    requires
        framable(payloads),
        last.len() <= MAXIMUM_TACTIC_DECISION_RECORD_BYTES,
        sha256_of(last).len() == 32,
        0 <= kept < record_frame(last).len(),
    ensures
        decoded_journal(journal_header() + record_frames(payloads) + record_frame(last).take(kept)) == Some(
            (payloads, (journal_header() + record_frames(payloads)).len() as int),
        ),
{
    lemma_le_roundtrips();
    let prefix = journal_header() + record_frames(payloads);
    let tail = record_frame(last).take(kept);
    let bytes = prefix + tail;
    let c = prefix.len() as int;
    assert(journal_header().len() == 12);
    assert(record_frame(last).len() == 36 + last.len());
    if kept >= 36 {
        assert(bytes.subrange(c, c + 4) =~= spec_u32_to_le_bytes(last.len() as u32));
    }
    assert(records_from(bytes, c) == Some((Seq::<Seq<u8>>::empty(), c)));
    lemma_records_from_frames(journal_header(), payloads, tail);
    assert(bytes.subrange(0, 8) =~= journal_magic());
    assert(bytes.subrange(8, 10) =~= spec_u16_to_le_bytes(NATIVE_TACTIC_DECISION_JOURNAL_VERSION));
    assert(bytes.subrange(10, 12) =~= spec_u16_to_le_bytes(0u16));
}

/// The header of a compacted segment: the index of its first record, its
/// record count, and the length and SHA-256 of its uncompressed journal.
#[derive(Clone, Copy, Debug)]
pub struct TacticDecisionSegmentHeader {
    pub start_index: u64,
    pub record_count: u64,
    pub raw_len: u64,
    pub raw_sha256: Digest,
}

pub open spec fn segment_header_bytes(h: TacticDecisionSegmentHeader) -> Seq<u8> {
    segment_magic() + spec_u16_to_le_bytes(NATIVE_TACTIC_DECISION_SEGMENT_VERSION) + spec_u16_to_le_bytes(0u16)
        + spec_u64_to_le_bytes(h.start_index) + spec_u64_to_le_bytes(h.record_count) + spec_u64_to_le_bytes(h.raw_len)
        + h.raw_sha256.0@
}

/// A segment holds between one and 256 records, and an uncompressed journal
/// of at least its header and at most 256 MiB.
pub open spec fn segment_bounds_valid(h: TacticDecisionSegmentHeader) -> bool {
    &&& 0 < h.record_count <= NATIVE_TACTIC_DECISION_COMPACTION_RECORDS
    &&& NATIVE_TACTIC_DECISION_JOURNAL_HEADER_SIZE <= h.raw_len <= MAXIMUM_TACTIC_DECISION_SEGMENT_BYTES
}

/// The header a segment's leading bytes declare, if well formed.
pub open spec fn decoded_segment_header(bytes: Seq<u8>) -> Option<TacticDecisionSegmentHeader> {
    if bytes.len() < NATIVE_TACTIC_DECISION_SEGMENT_HEADER_SIZE || bytes.subrange(0, 8) != segment_magic()
        || spec_u16_from_le_bytes(bytes.subrange(8, 10)) != NATIVE_TACTIC_DECISION_SEGMENT_VERSION
        || spec_u16_from_le_bytes(bytes.subrange(10, 12)) != 0
    {
        None
    } else {
        let h = TacticDecisionSegmentHeader {
            start_index: spec_u64_from_le_bytes(bytes.subrange(12, 20)),
            record_count: spec_u64_from_le_bytes(bytes.subrange(20, 28)),
            raw_len: spec_u64_from_le_bytes(bytes.subrange(28, 36)),
            raw_sha256: Digest(choose|a: [u8; 32]| a@ == bytes.subrange(36, 68)),
        };
        if segment_bounds_valid(h) { Some(h) } else { None }
    }
}

/// The header fields a segment's leading bytes declare, with the digest as
/// bytes.
pub open spec fn header_fields(h: TacticDecisionSegmentHeader) -> (u64, u64, u64, Seq<u8>) {
    (h.start_index, h.record_count, h.raw_len, h.raw_sha256.0@)
}

fn digest_from_bytes(bytes: &[u8], start: usize) -> (d: Digest)
    requires
        start + 32 <= bytes@.len(),
    ensures
        d.0@ == bytes@.subrange(start as int, start + 32),
{
    let n = bytes.len();
    let source = copy_range(bytes, start, start + 32);
    let mut a = [0u8; 32];
    let mut i: usize = 0;
    while i < 32
        invariant
            i <= 32,
            source@.len() == 32,
            forall|k: int| 0 <= k < i ==> a@[k] == source@[k],
        decreases 32 - i,
    {
        a.set(i, source[i]);
        i = i + 1;
    }
    let d = Digest(a);
    assert(d.0@ =~= bytes@.subrange(start as int, start + 32));
    d
}

/// Decodes and bounds-checks a segment header.
pub fn decode_tactic_decision_segment_header(bytes: &[u8]) -> (r: Result<TacticDecisionSegmentHeader, NativeTacticRouteRunError>)
    ensures
        r is Ok <==> decoded_segment_header(bytes@) is Some,
        r matches Ok(h) ==> header_fields(h) == header_fields(decoded_segment_header(bytes@)->0),
        r matches Ok(h) ==> segment_bounds_valid(h),
{
    if bytes.len() < NATIVE_TACTIC_DECISION_SEGMENT_HEADER_SIZE {
        return Err(route_message("tactic decision segment header is invalid"));
    }
    let magic = segment_magic_bytes();
    if !range_equals(bytes, 0, magic.as_slice()) || read_u16_le(bytes, 8) != NATIVE_TACTIC_DECISION_SEGMENT_VERSION
        || read_u16_le(bytes, 10) != 0 {
        return Err(route_message("tactic decision segment header is invalid"));
    }
    let h = TacticDecisionSegmentHeader {
        start_index: read_u64_le(bytes, 12),
        record_count: read_u64_le(bytes, 20),
        raw_len: read_u64_le(bytes, 28),
        raw_sha256: digest_from_bytes(bytes, 36),
    };
    if h.record_count == 0 || h.record_count > NATIVE_TACTIC_DECISION_COMPACTION_RECORDS
        || h.raw_len < NATIVE_TACTIC_DECISION_JOURNAL_HEADER_SIZE as u64
        || h.raw_len > MAXIMUM_TACTIC_DECISION_SEGMENT_BYTES as u64 {
        return Err(route_message("tactic decision segment bounds are invalid"));
    }
    Ok(h)
}

/// The records of a compacted segment: its header, and the payloads of its
/// uncompressed journal, which must decompress to exactly the declared
/// length and digest, decode without a torn tail, and hold exactly the
/// declared number of records.
pub open spec fn decoded_segment(bytes: Seq<u8>) -> Option<(TacticDecisionSegmentHeader, Seq<Seq<u8>>)> {
    match decoded_segment_header(bytes) {
        None => None,
        Some(h) => match zstd_bulk_decompress(
            bytes.subrange(NATIVE_TACTIC_DECISION_SEGMENT_HEADER_SIZE as int, bytes.len() as int),
            h.raw_len as usize,
        ) {
            None => None,
            Some(raw) => if raw.len() != h.raw_len || sha256_of(raw) != h.raw_sha256.0@ {
                None
            } else {
                match decoded_journal(raw) {
                    Some((payloads, valid)) => if valid == raw.len() && payloads.len() == h.record_count {
                        Some((h, payloads))
                    } else {
                        None
                    },
                    None => None,
                }
            },
        },
    }
}

/// A compacted segment as written: the header fields, the SHA-256 of the
/// uncompressed journal `raw`, then `compressed`.
pub open spec fn segment_frame(start_index: u64, record_count: u64, raw: Seq<u8>, compressed: Seq<u8>) -> Seq<u8> {
    segment_magic() + spec_u16_to_le_bytes(NATIVE_TACTIC_DECISION_SEGMENT_VERSION) + spec_u16_to_le_bytes(0u16)
        + spec_u64_to_le_bytes(start_index) + spec_u64_to_le_bytes(record_count) + spec_u64_to_le_bytes(
        raw.len() as u64,
    ) + sha256_of(raw) + compressed
}

/// What a segment decodes to, with its header taken by its fields.
pub open spec fn decoded_segment_view(bytes: Seq<u8>) -> Option<((u64, u64, u64, Seq<u8>), Seq<Seq<u8>>)> {
    match decoded_segment(bytes) {
        Some((h, payloads)) => Some((header_fields(h), payloads)),
        None => None,
    }
}

/// What a segment compacting the journal `raw` as `record_count` records
/// from `start_index` decodes back to: those header fields and the
/// journal's records, where the bounds hold and `raw` is a whole journal
/// of exactly that many records.
pub open spec fn compacted_segment(start_index: u64, record_count: u64, raw: Seq<u8>) -> Option<
    ((u64, u64, u64, Seq<u8>), Seq<Seq<u8>>),
> {
    if 0 < record_count <= NATIVE_TACTIC_DECISION_COMPACTION_RECORDS && NATIVE_TACTIC_DECISION_JOURNAL_HEADER_SIZE
        <= raw.len() <= MAXIMUM_TACTIC_DECISION_SEGMENT_BYTES {
        match decoded_journal(raw) {
            Some((payloads, valid)) => if valid == raw.len() && payloads.len() == record_count {
                Some(((start_index, record_count, raw.len() as u64, sha256_of(raw)), payloads))
            } else {
                None
            },
            None => None,
        }
    } else {
        None
    }
}

proof fn lemma_segment_frame_decodes(
    start_index: u64,
    record_count: u64,
    raw: Seq<u8>,
    compressed: Seq<u8>,
    raw_digest: Digest,
)
    requires
        raw.len() <= MAXIMUM_TACTIC_DECISION_SEGMENT_BYTES,
        raw_digest.0@ == sha256_of(raw),
        forall|capacity: usize| capacity >= raw.len() ==> #[trigger] zstd_bulk_decompress(compressed, capacity) == Some(raw),
    ensures
        decoded_segment_view(segment_frame(start_index, record_count, raw, compressed)) == compacted_segment(
            start_index,
            record_count,
            raw,
        ),
{
    lemma_le_roundtrips();
    let bytes = segment_frame(start_index, record_count, raw, compressed);
    let n = raw.len() as u64;
    assert(bytes.subrange(0, 8) =~= segment_magic());
    assert(bytes.subrange(8, 10) =~= spec_u16_to_le_bytes(NATIVE_TACTIC_DECISION_SEGMENT_VERSION));
    assert(bytes.subrange(10, 12) =~= spec_u16_to_le_bytes(0u16));
    assert(bytes.subrange(12, 20) =~= spec_u64_to_le_bytes(start_index));
    assert(bytes.subrange(20, 28) =~= spec_u64_to_le_bytes(record_count));
    assert(bytes.subrange(28, 36) =~= spec_u64_to_le_bytes(n));
    assert(bytes.subrange(36, 68) =~= sha256_of(raw));
    assert(bytes.subrange(68, bytes.len() as int) =~= compressed);
    assert(raw_digest.0@ == bytes.subrange(36, 68));
    let a = choose|a: [u8; 32]| a@ == bytes.subrange(36, 68);
    assert(a@ == bytes.subrange(36, 68));
    assert(zstd_bulk_decompress(compressed, n as usize) == Some(raw));
}

/// A compacted journal decodes back to the records it was encoded from:
/// a segment compacting the journal of `payloads` from `start_index`
/// yields exactly `payloads`.
pub proof fn lemma_compacted_journal_round_trip(start_index: u64, payloads: Seq<Seq<u8>>)
    requires
        framable(payloads),
        0 < payloads.len() <= NATIVE_TACTIC_DECISION_COMPACTION_RECORDS,
        (journal_header() + record_frames(payloads)).len() <= MAXIMUM_TACTIC_DECISION_SEGMENT_BYTES,
    ensures
        compacted_segment(start_index, payloads.len() as u64, journal_header() + record_frames(payloads)) matches Some(
            (fields, decoded),
        ) && decoded == payloads && fields.0 == start_index && fields.1 == payloads.len(),
{
    lemma_journal_round_trip(payloads);
    lemma_le_roundtrips();
    assert(journal_header().len() == NATIVE_TACTIC_DECISION_JOURNAL_HEADER_SIZE);
}

/// Decodes a compacted segment into its header and record payloads.
pub fn decode_tactic_decision_segment(bytes: &[u8]) -> (r: Result<(TacticDecisionSegmentHeader, Vec<Vec<u8>>), NativeTacticRouteRunError>)
    ensures
        r is Ok <==> decoded_segment(bytes@) is Some,
        r matches Ok((h, payloads)) ==> decoded_segment(bytes@) matches Some((dh, dp)) && header_fields(h)
            == header_fields(dh) && payloads@.map_values(|p: Vec<u8>| p@) == dp,
{
    let h = match decode_tactic_decision_segment_header(bytes) {
        Ok(h) => h,
        Err(e) => {
            return Err(e);
        },
    };
    let compressed = copy_range(bytes, NATIVE_TACTIC_DECISION_SEGMENT_HEADER_SIZE, bytes.len());
    let raw = match zstd_decompress(compressed.as_slice(), h.raw_len as usize) {
        Ok(raw) => raw,
        Err(e) => {
            return Err(e);
        },
    };
    let raw_sha256 = digest_bytes(raw.as_slice());
    if raw.len() as u64 != h.raw_len || !raw_sha256.same_as(&h.raw_sha256) {
        return Err(route_message("tactic decision segment payload digest is invalid"));
    }
    let decoded = match decode_tactic_decision_journal(raw.as_slice()) {
        Ok(d) => d,
        Err(e) => {
            return Err(e);
        },
    };
    if decoded.valid_bytes != raw.len() || decoded.payloads.len() as u64 != h.record_count {
        return Err(route_message("tactic decision segment payload is detached"));
    }
    Ok((h, decoded.payloads))
}

/// Compacts the uncompressed journal `raw` of `record_count` records
/// starting at `start_index` into a segment file.
pub fn encode_tactic_decision_segment(start_index: u64, record_count: u64, raw: &[u8]) -> (r: Result<
    Vec<u8>,
    NativeTacticRouteRunError,
>)
    ensures
        r is Ok <==> (raw@.len() <= MAXIMUM_TACTIC_DECISION_SEGMENT_BYTES && zstd_bulk_compress(
            raw@,
            NATIVE_TACTIC_DECISION_SEGMENT_COMPRESSION_LEVEL,
        ) is Some),
        r matches Ok(bytes) ==> bytes@ == segment_frame(
            start_index,
            record_count,
            raw@,
            zstd_bulk_compress(raw@, NATIVE_TACTIC_DECISION_SEGMENT_COMPRESSION_LEVEL)->0,
        ),
        r matches Ok(bytes) ==> decoded_segment_view(bytes@) == compacted_segment(start_index, record_count, raw@),
{
    if raw.len() > MAXIMUM_TACTIC_DECISION_SEGMENT_BYTES {
        return Err(route_message("tactic decision segment exceeds its size bound"));
    }
    let compressed = match zstd_compress(raw, NATIVE_TACTIC_DECISION_SEGMENT_COMPRESSION_LEVEL) {
        Ok(c) => c,
        Err(e) => {
            return Err(e);
        },
    };
    let mut bytes = segment_magic_bytes();
    push_u16_le(&mut bytes, NATIVE_TACTIC_DECISION_SEGMENT_VERSION);
    push_u16_le(&mut bytes, 0u16);
    push_u64_le(&mut bytes, start_index);
    push_u64_le(&mut bytes, record_count);
    push_u64_le(&mut bytes, raw.len() as u64);
    let raw_digest = digest_bytes(raw);
    let raw_sha256 = raw_digest.to_vec();
    append_bytes(&mut bytes, raw_sha256.as_slice());
    append_bytes(&mut bytes, compressed.as_slice());
    proof {
        assert(bytes@ =~= segment_frame(start_index, record_count, raw@, compressed@));
        lemma_segment_frame_decodes(start_index, record_count, raw@, compressed@, raw_digest);
    }
    Ok(bytes)
}

/// The number of records the segments with `headers`, in file order,
/// hold: each must start where the previous one ended, the first at zero.
pub open spec fn compacted_count_upto(headers: Seq<TacticDecisionSegmentHeader>, n: int) -> Option<u64>
    decreases n,
{
    if n <= 0 {
        Some(0)
    } else {
        match compacted_count_upto(headers, n - 1) {
            Some(next) => if headers[n - 1].start_index != next || next + headers[n - 1].record_count > u64::MAX {
                None
            } else {
                Some((next + headers[n - 1].record_count) as u64)
            },
            None => None,
        }
    }
}

proof fn lemma_compacted_count_stays_none(headers: Seq<TacticDecisionSegmentHeader>, k: int, n: int)
    requires
        0 <= k <= n,
        compacted_count_upto(headers, k) is None,
    ensures
        compacted_count_upto(headers, n) is None,
    decreases n - k,
{
    if n > k {
        lemma_compacted_count_stays_none(headers, k, n - 1);
    }
}

pub fn compacted_tactic_decision_count(headers: &Vec<TacticDecisionSegmentHeader>) -> (r: Result<u64, NativeTacticRouteRunError>)
    ensures
        r is Ok <==> compacted_count_upto(headers@, headers@.len() as int) is Some,
        r matches Ok(n) ==> compacted_count_upto(headers@, headers@.len() as int) == Some(n),
{
    let mut next: u64 = 0;
    let mut i: usize = 0;
    while i < headers.len()
        invariant
            i <= headers@.len(),
            compacted_count_upto(headers@, i as int) == Some(next),
        decreases headers@.len() - i,
    {
        let h = headers[i];
        if h.start_index != next {
            proof {
                lemma_compacted_count_stays_none(headers@, i + 1, headers@.len() as int);
            }
            return Err(route_message("tactic decision segments are overlapping or detached"));
        }
        next = match next.checked_add(h.record_count) {
            Some(v) => v,
            None => {
                proof {
                    lemma_compacted_count_stays_none(headers@, i + 1, headers@.len() as int);
                }
                return Err(route_message("tactic decision segment count overflowed"));
            },
        };
        i = i + 1;
    }
    Ok(next)
}

/// The decision indices of journal records must run consecutively from the
/// first one.
pub open spec fn indices_consecutive(indices: Seq<u64>) -> bool {
    forall|i: int| 0 <= i < indices.len() ==> #[trigger] indices[i] == indices[0] + i
}

pub fn check_tactic_decision_indices(indices: &Vec<u64>) -> (r: Result<(), NativeTacticRouteRunError>)
    ensures
        r is Ok <==> indices_consecutive(indices@),
{
    let mut i: usize = 0;
    while i < indices.len()
        invariant
            i <= indices@.len(),
            forall|k: int| 0 <= k < i ==> #[trigger] indices@[k] == indices@[0] + k,
        decreases indices@.len() - i,
    {
        if indices[i] as u128 != indices[0] as u128 + i as u128 {
            return Err(route_message("tactic decision journal record index is detached"));
        }
        i = i + 1;
    }
    Ok(())
}

/// How the active journal's records attach to `compacted` records already
/// held in segments: a record at an index already compacted must be the
/// compacted record (both as canonical encodings of their decoded values);
/// the next index extends the journal; any later index is detached.
pub open spec fn merged_records(compacted: Seq<Seq<u8>>, active: Seq<(u64, Seq<u8>)>) -> Option<Seq<Seq<u8>>>
    decreases active.len(),
{
    if active.len() == 0 {
        Some(compacted)
    } else {
        match merged_records(compacted, active.drop_last()) {
            None => None,
            Some(records) => {
                let (index, payload) = active.last();
                if index < records.len() {
                    if records[index as int] == payload { Some(records) } else { None }
                } else if index == records.len() {
                    Some(records.push(payload))
                } else {
                    None
                }
            },
        }
    }
}

proof fn lemma_merge_stays_none(base: Seq<Seq<u8>>, entries: Seq<(u64, Seq<u8>)>, k: int, n: int)
    requires
        0 <= k <= n <= entries.len(),
        merged_records(base, entries.take(k)) is None,
    ensures
        merged_records(base, entries.take(n)) is None,
    decreases n - k,
{
    if n > k {
        lemma_merge_stays_none(base, entries, k, n - 1);
        assert(entries.take(n).drop_last() =~= entries.take(n - 1));
    }
}

fn payloads_equal(a: &Vec<u8>, b: &Vec<u8>) -> (r: bool)
    ensures
        r == (a@ == b@),
{
    if a.len() != b.len() {
        return false;
    }
    let same = range_equals(a.as_slice(), 0, b.as_slice());
    proof {
        assert(a@.subrange(0, b@.len() as int) =~= a@);
    }
    same
}

/// Appends the active journal's records, given as (decision index,
/// record) in journal order, to the compacted records. A record is given
/// as the canonical encoding of its decoded value, so two records compare
/// equal exactly when their decoded values do.
pub fn merge_tactic_decision_records(compacted: Vec<Vec<u8>>, active: Vec<(u64, Vec<u8>)>) -> (r: Result<
    Vec<Vec<u8>>,
    NativeTacticRouteRunError,
>)
    ensures
        r is Ok <==> merged_records(
            compacted@.map_values(|p: Vec<u8>| p@),
            active@.map_values(|e: (u64, Vec<u8>)| (e.0, e.1@)),
        ) is Some,
        r matches Ok(records) ==> Some(records@.map_values(|p: Vec<u8>| p@)) == merged_records(
            compacted@.map_values(|p: Vec<u8>| p@),
            active@.map_values(|e: (u64, Vec<u8>)| (e.0, e.1@)),
        ),
{
    let ghost base = compacted@.map_values(|p: Vec<u8>| p@);
    let ghost entries = active@.map_values(|e: (u64, Vec<u8>)| (e.0, e.1@));
    let mut records = compacted.clone();
    let mut i: usize = 0;
    proof {
        assert(entries.take(0) =~= Seq::<(u64, Seq<u8>)>::empty());
        assert(records@.map_values(|p: Vec<u8>| p@) =~= base);
    }
    while i < active.len()
        invariant
            i <= active@.len(),
            base == compacted@.map_values(|p: Vec<u8>| p@),
            entries == active@.map_values(|e: (u64, Vec<u8>)| (e.0, e.1@)),
            merged_records(base, entries.take(i as int)) == Some(records@.map_values(|p: Vec<u8>| p@)),
        decreases active@.len() - i,
    {
        proof {
            assert(entries.take(i + 1).drop_last() =~= entries.take(i as int));
            assert(entries.take(i + 1).last() == entries[i as int]);
            assert(entries[i as int] == (active@[i as int].0, active@[i as int].1@));
        }
        let index = active[i].0;
        let ghost before = records@.map_values(|p: Vec<u8>| p@);
        if (index as u128) < (records.len() as u128) {
            let same = payloads_equal(&records[index as usize], &active[i].1);
            if !same {
                proof {
                    assert(before[index as int] == records@[index as int]@);
                    assert(merged_records(base, entries.take(i + 1)) is None);
                    lemma_merge_stays_none(base, entries, i + 1, active@.len() as int);
                    assert(entries.take(active@.len() as int) =~= entries);
                    assert(merged_records(base, entries) is None);
                }
                return Err(route_message("active tactic journal conflicts with its compacted segment"));
            }
        } else if index as u128 == records.len() as u128 {
            records.push(active[i].1.clone());
            proof {
                assert(records@.map_values(|p: Vec<u8>| p@) =~= before.push(entries[i as int].1));
            }
        } else {
            proof {
                assert(merged_records(base, entries.take(i + 1)) is None);
                lemma_merge_stays_none(base, entries, i + 1, active@.len() as int);
                assert(entries.take(active@.len() as int) =~= entries);
            }
            return Err(route_message("active tactic journal is detached from its compacted segments"));
        }
        i = i + 1;
    }
    proof {
        assert(entries.take(active@.len() as int) =~= entries);
    }
    Ok(records)
}

/// A decoded decision record: the decision index it carries, and its
/// canonical encoding (the encoding of its decoded value), by which two
/// records are the same record.
#[derive(Clone, Debug)]
pub struct TacticDecisionRecordEntry {
    pub decision_index: u64,
    pub record: Vec<u8>,
}

/// A compacted segment: the start index its header declares, and its
/// decoded records in order.
#[derive(Clone, Debug)]
pub struct TacticDecisionSegmentRecords {
    pub start_index: u64,
    pub entries: Vec<TacticDecisionRecordEntry>,
}

pub open spec fn entry_view(e: TacticDecisionRecordEntry) -> (u64, Seq<u8>) {
    (e.decision_index, e.record@)
}

pub open spec fn entries_view(s: Seq<TacticDecisionRecordEntry>) -> Seq<(u64, Seq<u8>)> {
    s.map_values(|e: TacticDecisionRecordEntry| entry_view(e))
}

pub open spec fn segments_view(s: Seq<TacticDecisionSegmentRecords>) -> Seq<(u64, Seq<(u64, Seq<u8>)>)> {
    s.map_values(|g: TacticDecisionSegmentRecords| (g.start_index, entries_view(g.entries@)))
}

/// The records carry the indices `start`, `start + 1`, ... in order.
pub open spec fn indexed_from(es: Seq<(u64, Seq<u8>)>, start: int) -> bool {
    forall|i: int| 0 <= i < es.len() ==> (#[trigger] es[i]).0 == start + i
}

/// The compacted records of a seed, segment after segment: each segment
/// holds at least one record, its records run on from its declared start
/// without a gap, and it starts where the segments before it ended.
pub open spec fn assembled_segments(segs: Seq<(u64, Seq<(u64, Seq<u8>)>)>) -> Option<Seq<(u64, Seq<u8>)>>
    decreases segs.len(),
{
    if segs.len() == 0 {
        Some(seq![])
    } else {
        match assembled_segments(segs.drop_last()) {
            None => None,
            Some(records) => {
                let (start, es) = segs.last();
                if es.len() > 0 && start == records.len() && indexed_from(es, start as int) {
                    Some(records + es)
                } else {
                    None
                }
            },
        }
    }
}

/// The active journal's records merged after the compacted ones: a record
/// at an index already held must be that very record, one at the next
/// index is appended, and one further on is detached.
pub open spec fn merged_active(records: Seq<(u64, Seq<u8>)>, active: Seq<(u64, Seq<u8>)>) -> Option<Seq<(u64, Seq<u8>)>>
    decreases active.len(),
{
    if active.len() == 0 {
        Some(records)
    } else {
        match merged_active(records, active.drop_last()) {
            None => None,
            Some(merged) => {
                let entry = active.last();
                if entry.0 < merged.len() {
                    if merged[entry.0 as int] == entry {
                        Some(merged)
                    } else {
                        None
                    }
                } else if entry.0 == merged.len() {
                    Some(merged.push(entry))
                } else {
                    None
                }
            },
        }
    }
}

/// Every durable record of a seed: the compacted segments, then the active
/// journal, whose records run on without a gap from its first.
pub open spec fn assembled_records(segs: Seq<(u64, Seq<(u64, Seq<u8>)>)>, active: Seq<(u64, Seq<u8>)>) -> Option<
    Seq<(u64, Seq<u8>)>,
> {
    match assembled_segments(segs) {
        None => None,
        Some(records) => if active.len() == 0 || indexed_from(active, active[0].0 as int) {
            merged_active(records, active)
        } else {
            None
        },
    }
}

proof fn lemma_segments_indexed(segs: Seq<(u64, Seq<(u64, Seq<u8>)>)>)
    requires
        assembled_segments(segs) is Some,
    ensures
        indexed_from(assembled_segments(segs).unwrap(), 0),
    decreases segs.len(),
{
    if segs.len() > 0 {
        lemma_segments_indexed(segs.drop_last());
        let records = assembled_segments(segs.drop_last()).unwrap();
        let (start, es) = segs.last();
        let all = records + es;
        assert forall|i: int| 0 <= i < all.len() implies (#[trigger] all[i]).0 == i by {
            if i < records.len() {
                assert(all[i] == records[i]);
            } else {
                assert(all[i] == es[i - records.len()]);
            }
        }
    }
}

proof fn lemma_merge_indexed(records: Seq<(u64, Seq<u8>)>, active: Seq<(u64, Seq<u8>)>)
    requires
        indexed_from(records, 0),
        merged_active(records, active) is Some,
    ensures
        indexed_from(merged_active(records, active).unwrap(), 0),
    decreases active.len(),
{
    if active.len() > 0 {
        lemma_merge_indexed(records, active.drop_last());
    }
}

/// Journal index law: the records of a seed, read back from its compacted
/// segments and its active journal, carry the decision indices 0, 1, 2, ...
/// in order.
pub proof fn lemma_assembled_records_are_indexed(
    segs: Seq<(u64, Seq<(u64, Seq<u8>)>)>,
    active: Seq<(u64, Seq<u8>)>,
)
    requires
        assembled_records(segs, active) is Some,
    ensures
        forall|i: int|
            0 <= i < assembled_records(segs, active).unwrap().len() ==> (#[trigger] assembled_records(
                segs,
                active,
            ).unwrap()[i]).0 == i,
{
    lemma_segments_indexed(segs);
    lemma_merge_indexed(assembled_segments(segs).unwrap(), active);
}

proof fn lemma_segments_stay_none(segs: Seq<(u64, Seq<(u64, Seq<u8>)>)>, k: int, n: int)
    requires
        0 <= k <= n <= segs.len(),
        assembled_segments(segs.take(k)) is None,
    ensures
        assembled_segments(segs.take(n)) is None,
    decreases n - k,
{
    if n > k {
        lemma_segments_stay_none(segs, k, n - 1);
        assert(segs.take(n).drop_last() =~= segs.take(n - 1));
    }
}

proof fn lemma_active_stays_none(records: Seq<(u64, Seq<u8>)>, active: Seq<(u64, Seq<u8>)>, k: int, n: int)
    requires
        0 <= k <= n <= active.len(),
        merged_active(records, active.take(k)) is None,
    ensures
        merged_active(records, active.take(n)) is None,
    decreases n - k,
{
    if n > k {
        lemma_active_stays_none(records, active, k, n - 1);
        assert(active.take(n).drop_last() =~= active.take(n - 1));
    }
}

fn copy_entry(e: &TacticDecisionRecordEntry) -> (c: TacticDecisionRecordEntry)
    ensures
        entry_view(c) == entry_view(*e),
{
    TacticDecisionRecordEntry { decision_index: e.decision_index, record: e.record.clone() }
}

/// Whether the records of `es` carry the indices `start`, `start + 1`, ...
fn entries_indexed_from(es: &Vec<TacticDecisionRecordEntry>, start: u64) -> (r: bool)
    ensures
        r == indexed_from(entries_view(es@), start as int),
{
    let mut j: usize = 0;
    while j < es.len()
        invariant
            j <= es.len(),
            forall|k: int| 0 <= k < j ==> (#[trigger] es@[k]).decision_index == start + k,
        decreases es.len() - j,
    {
        if es[j].decision_index as u128 != start as u128 + j as u128 {
            proof {
                assert(entries_view(es@)[j as int].0 != start + j);
            }
            return false;
        }
        j = j + 1;
    }
    proof {
        assert forall|k: int| 0 <= k < entries_view(es@).len() implies (#[trigger] entries_view(es@)[k]).0 == start
            + k by {
            assert(entries_view(es@)[k] == entry_view(es@[k]));
        }
    }
    true
}

/// Reads back every durable record of a seed from its compacted segments,
/// in order, and its active journal. Fails where a segment is empty, does
/// not run on without a gap from its declared start, or does not start
/// where the records read so far end; where the active journal's records
/// do not run on without a gap; where an active record at an index already
/// held is not that record; and where one skips past the next index. The
/// records read back carry the decision indices 0, 1, 2, ... in order.
pub fn assemble_tactic_decision_records(
    segments: &Vec<TacticDecisionSegmentRecords>,
    active: &Vec<TacticDecisionRecordEntry>,
) -> (r: Result<Vec<TacticDecisionRecordEntry>, NativeTacticRouteRunError>)
    ensures
        r is Ok <==> assembled_records(segments_view(segments@), entries_view(active@)) is Some,
        r matches Ok(v) ==> assembled_records(segments_view(segments@), entries_view(active@)) == Some(
            entries_view(v@),
        ),
        r matches Ok(v) ==> forall|i: int| 0 <= i < v@.len() ==> (#[trigger] v@[i]).decision_index == i,
{
    let ghost sv = segments_view(segments@);
    let mut records: Vec<TacticDecisionRecordEntry> = Vec::new();
    let mut i: usize = 0;
    proof {
        assert(sv.take(0) =~= Seq::<(u64, Seq<(u64, Seq<u8>)>)>::empty());
        assert(entries_view(records@) =~= Seq::<(u64, Seq<u8>)>::empty());
    }
    while i < segments.len()
        invariant
            i <= segments.len(),
            sv == segments_view(segments@),
            assembled_segments(sv.take(i as int)) == Some(entries_view(records@)),
        decreases segments.len() - i,
    {
        let seg = &segments[i];
        proof {
            assert(sv.take(i + 1).drop_last() =~= sv.take(i as int));
            assert(sv.take(i + 1).last() == sv[i as int]);
            assert(sv[i as int] == (seg.start_index, entries_view(seg.entries@)));
        }
        if !entries_indexed_from(&seg.entries, seg.start_index) {
            proof {
                lemma_segments_stay_none(sv, i + 1, sv.len() as int);
                assert(sv.take(sv.len() as int) =~= sv);
            }
            return Err(route_message("tactic decision journal record index is detached"));
        }
        if seg.entries.len() == 0 {
            proof {
                lemma_segments_stay_none(sv, i + 1, sv.len() as int);
                assert(sv.take(sv.len() as int) =~= sv);
            }
            return Err(route_message("tactic decision segment payload is detached"));
        }
        if seg.start_index != records.len() as u64 {
            proof {
                lemma_segments_stay_none(sv, i + 1, sv.len() as int);
                assert(sv.take(sv.len() as int) =~= sv);
            }
            return Err(route_message("tactic decision segments are overlapping or detached"));
        }
        let ghost before = entries_view(records@);
        let ghost es = entries_view(seg.entries@);
        let mut j: usize = 0;
        while j < seg.entries.len()
            invariant
                j <= seg.entries.len(),
                es == entries_view(seg.entries@),
                entries_view(records@) == before + es.take(j as int),
            decreases seg.entries.len() - j,
        {
            let c = copy_entry(&seg.entries[j]);
            let ghost prior = records@;
            records.push(c);
            proof {
                assert(es[j as int] == entry_view(seg.entries@[j as int]));
                assert(entries_view(records@) =~= entries_view(prior).push(entry_view(c)));
                assert(es.take(j + 1) =~= es.take(j as int).push(es[j as int]));
                assert(entries_view(records@) =~= before + es.take(j + 1));
            }
            j = j + 1;
        }
        proof {
            assert(es.take(es.len() as int) =~= es);
        }
        i = i + 1;
    }
    proof {
        assert(sv.take(sv.len() as int) =~= sv);
    }
    let ghost base = entries_view(records@);
    let ghost av = entries_view(active@);
    if active.len() > 0 && !entries_indexed_from(active, active[0].decision_index) {
        return Err(route_message("tactic decision journal record index is detached"));
    }
    let mut k: usize = 0;
    proof {
        assert(av.take(0) =~= Seq::<(u64, Seq<u8>)>::empty());
    }
    while k < active.len()
        invariant
            k <= active.len(),
            av == entries_view(active@),
            sv == segments_view(segments@),
            assembled_segments(sv) == Some(base),
            active.len() == 0 || indexed_from(av, av[0].0 as int),
            merged_active(base, av.take(k as int)) == Some(entries_view(records@)),
        decreases active.len() - k,
    {
        proof {
            assert(av.take(k + 1).drop_last() =~= av.take(k as int));
            assert(av.take(k + 1).last() == av[k as int]);
            assert(av[k as int] == entry_view(active@[k as int]));
        }
        let e = &active[k];
        let index = e.decision_index;
        if index < records.len() as u64 {
            let held = &records[index as usize];
            let same = held.decision_index == index && held.record.len() == e.record.len() && range_equals(
                held.record.as_slice(),
                0,
                e.record.as_slice(),
            );
            proof {
                assert(entries_view(records@)[index as int] == entry_view(records@[index as int]));
                if held.record.len() == e.record.len() {
                    assert(held.record@.subrange(0, e.record@.len() as int) =~= held.record@);
                }
            }
            if !same {
                proof {
                    lemma_active_stays_none(base, av, k + 1, av.len() as int);
                    assert(av.take(av.len() as int) =~= av);
                }
                return Err(route_message("active tactic journal conflicts with its compacted segment"));
            }
        } else if index == records.len() as u64 {
            let c = copy_entry(e);
            let ghost prior = entries_view(records@);
            records.push(c);
            proof {
                assert(entries_view(records@) =~= prior.push(av[k as int]));
            }
        } else {
            proof {
                lemma_active_stays_none(base, av, k + 1, av.len() as int);
                assert(av.take(av.len() as int) =~= av);
            }
            return Err(route_message("active tactic journal is detached from its compacted segments"));
        }
        k = k + 1;
    }
    proof {
        assert(av.take(av.len() as int) =~= av);
        lemma_assembled_records_are_indexed(sv, av);
        assert(assembled_records(sv, av).unwrap() == entries_view(records@));
        assert forall|i: int| 0 <= i < records@.len() implies (#[trigger] records@[i]).decision_index == i by {
            assert(entries_view(records@)[i] == entry_view(records@[i]));
            assert(assembled_records(sv, av).unwrap()[i].0 == i);
        }
    }
    Ok(records)
}

/// Where a seed's content store lives.
#[derive(Clone, Copy, Debug, PartialEq, Eq, Structural)]
pub enum TacticContentStoreLocation {
    /// The store directory inside the seed directory.
    SeedLocal,
    /// The store directory beside the seed directories, in the campaign
    /// directory that holds them.
    CampaignShared,
}

pub open spec fn is_seed_directory_name(name: Seq<char>) -> bool {
    name.len() >= 5 && name.subrange(0, 5) == seq!['s', 'e', 'e', 'd', '-']
}

/// Where a seed's content store lives: a store already inside the seed
/// directory stays there; otherwise a seed directory (named `seed-...`,
/// with a parent) shares its campaign's store; anything else keeps a
/// store of its own.
pub fn tactic_content_store_location(
    seed_local_store_exists: bool,
    seed_directory_name: Option<&str>,
    has_parent: bool,
) -> (r: TacticContentStoreLocation)
    ensures
        (r == TacticContentStoreLocation::CampaignShared) == (!seed_local_store_exists && has_parent && match seed_directory_name {
            Some(name) => is_seed_directory_name(name@),
            None => false,
        }),
{
    if seed_local_store_exists || !has_parent {
        return TacticContentStoreLocation::SeedLocal;
    }
    match seed_directory_name {
        None => TacticContentStoreLocation::SeedLocal,
        Some(name) => {
            if name.unicode_len() < 5 {
                return TacticContentStoreLocation::SeedLocal;
            }
            let prefix = ['s', 'e', 'e', 'd', '-'];
            let mut i: usize = 0;
            while i < 5
                invariant
                    i <= 5,
                    name@.len() >= 5,
                    !seed_local_store_exists,
                    has_parent,
                    seed_directory_name == Some(name),
                    prefix@ == seq!['s', 'e', 'e', 'd', '-'],
                    forall|j: int| 0 <= j < i ==> name@[j] == prefix@[j],
                decreases 5 - i,
            {
                if name.get_char(i) != prefix[i] {
                    proof {
                        assert(name@.subrange(0, 5)[i as int] != seq!['s', 'e', 'e', 'd', '-'][i as int]);
                    }
                    return TacticContentStoreLocation::SeedLocal;
                }
                i = i + 1;
            }
            proof {
                assert(name@.subrange(0, 5) =~= seq!['s', 'e', 'e', 'd', '-']);
            }
            TacticContentStoreLocation::CampaignShared
        },
    }
}

} // verus!
