use orchestration::journal::{
    assemble_tactic_decision_records, TacticDecisionRecordEntry, TacticDecisionSegmentRecords,
    check_tactic_decision_indices, compacted_tactic_decision_count, decode_tactic_decision_journal,
    decode_tactic_decision_segment, decode_tactic_decision_segment_header,
    encode_tactic_decision_journal, encode_tactic_decision_record, encode_tactic_decision_segment,
    merge_tactic_decision_records, TacticDecisionSegmentHeader,
};
use orchestration::digest::{digest_bytes, Digest};

fn payloads() -> Vec<Vec<u8>> {
    vec![b"first decision".to_vec(), b"second".to_vec(), Vec::new()]
}

#[test]
fn journal_round_trips_its_records() {
    let bytes = encode_tactic_decision_journal(&payloads()).unwrap();
    assert_eq!(&bytes[..8], b"DSKTQJ01");
    let decoded = decode_tactic_decision_journal(&bytes).unwrap();
    assert_eq!(decoded.payloads, payloads());
    assert_eq!(decoded.valid_bytes, bytes.len());
}

#[test]
fn torn_journal_tail_is_ignored_up_to_the_last_complete_record() {
    let bytes = encode_tactic_decision_journal(&payloads()[..2].to_vec()).unwrap();
    let complete = encode_tactic_decision_journal(&payloads()[..1].to_vec()).unwrap();
    for cut in complete.len()..bytes.len() {
        let decoded = decode_tactic_decision_journal(&bytes[..cut]).unwrap();
        assert_eq!(decoded.payloads, payloads()[..1].to_vec());
        assert_eq!(decoded.valid_bytes, complete.len());
    }
}

#[test]
fn corrupt_journal_record_is_refused() {
    let mut bytes = encode_tactic_decision_journal(&payloads()).unwrap();
    bytes[12 + 36] ^= 1;
    assert!(decode_tactic_decision_journal(&bytes).is_err());
    let mut header = encode_tactic_decision_journal(&payloads()).unwrap();
    header[8] = 3;
    assert!(decode_tactic_decision_journal(&header).is_err());
}

#[test]
fn record_frame_carries_length_and_digest() {
    let frame = encode_tactic_decision_record(b"abc").unwrap();
    assert_eq!(&frame[..4], &3u32.to_le_bytes());
    assert_eq!(&frame[4..36], &digest_bytes(b"abc").0);
    assert_eq!(&frame[36..], b"abc");
    assert!(encode_tactic_decision_record(&vec![0u8; 16 * 1024 * 1024 + 1]).is_err());
}

#[test]
fn segments_round_trip_and_chain_from_zero() {
    let raw = encode_tactic_decision_journal(&payloads()).unwrap();
    let segment = encode_tactic_decision_segment(0, 3, &raw).unwrap();
    let (header, decoded) = decode_tactic_decision_segment(&segment).unwrap();
    assert_eq!(header.start_index, 0);
    assert_eq!(header.record_count, 3);
    assert_eq!(header.raw_len, raw.len() as u64);
    assert_eq!(decoded, payloads());
    let wrong_count = encode_tactic_decision_segment(0, 2, &raw).unwrap();
    assert!(decode_tactic_decision_segment(&wrong_count).is_err());
    assert!(decode_tactic_decision_segment_header(&segment[..67]).is_err());

    let first = TacticDecisionSegmentHeader {
        start_index: 0,
        record_count: 256,
        raw_len: 12,
        raw_sha256: Digest([0; 32]),
    };
    let second = TacticDecisionSegmentHeader { start_index: 256, record_count: 3, ..first };
    assert_eq!(compacted_tactic_decision_count(&vec![first, second]).unwrap(), 259);
    let overlapping = TacticDecisionSegmentHeader { start_index: 255, ..second };
    assert!(compacted_tactic_decision_count(&vec![first, overlapping]).is_err());
    assert_eq!(compacted_tactic_decision_count(&Vec::new()).unwrap(), 0);
}

#[test]
fn active_records_extend_or_repeat_the_compacted_ones() {
    let compacted = vec![b"a".to_vec(), b"b".to_vec()];
    let merged = merge_tactic_decision_records(
        compacted.clone(),
        vec![(1, b"b".to_vec()), (2, b"c".to_vec())],
    )
    .unwrap();
    assert_eq!(merged, vec![b"a".to_vec(), b"b".to_vec(), b"c".to_vec()]);
    assert!(merge_tactic_decision_records(compacted.clone(), vec![(1, b"x".to_vec())]).is_err());
    assert!(merge_tactic_decision_records(compacted, vec![(3, b"d".to_vec())]).is_err());
    assert!(check_tactic_decision_indices(&vec![4, 5, 6]).is_ok());
    assert!(check_tactic_decision_indices(&vec![4, 6]).is_err());
}

fn entry(index: u64, tag: u8) -> TacticDecisionRecordEntry {
    TacticDecisionRecordEntry { decision_index: index, record: vec![tag, index as u8] }
}

fn segment(start: u64, entries: Vec<TacticDecisionRecordEntry>) -> TacticDecisionSegmentRecords {
    TacticDecisionSegmentRecords { start_index: start, entries }
}

#[test]
fn assembled_records_carry_consecutive_indices_from_zero() {
    let segments = vec![segment(0, vec![entry(0, 1), entry(1, 1)]), segment(2, vec![entry(2, 1)])];
    let active = vec![entry(2, 1), entry(3, 1), entry(4, 1)];
    let records = assemble_tactic_decision_records(&segments, &active).unwrap();
    let indices: Vec<u64> = records.iter().map(|r| r.decision_index).collect();
    assert_eq!(indices, vec![0, 1, 2, 3, 4]);
    assert_eq!(records[4].record, vec![1, 4]);
    assert!(assemble_tactic_decision_records(&Vec::new(), &Vec::new()).unwrap().is_empty());
}

#[test]
fn assembled_records_reject_gaps_overlaps_and_conflicts() {
    let overlapping = vec![segment(0, vec![entry(0, 1), entry(1, 1)]), segment(1, vec![entry(1, 1)])];
    assert_eq!(
        assemble_tactic_decision_records(&overlapping, &Vec::new()).unwrap_err().message,
        "tactic decision segments are overlapping or detached"
    );
    let gapped = vec![segment(0, vec![entry(0, 1), entry(2, 1)])];
    assert!(assemble_tactic_decision_records(&gapped, &Vec::new()).is_err());
    let empty = vec![segment(0, Vec::new())];
    assert!(assemble_tactic_decision_records(&empty, &Vec::new()).is_err());
    let compacted = vec![segment(0, vec![entry(0, 1), entry(1, 1)])];
    assert_eq!(
        assemble_tactic_decision_records(&compacted, &vec![entry(1, 9)]).unwrap_err().message,
        "active tactic journal conflicts with its compacted segment"
    );
    assert_eq!(
        assemble_tactic_decision_records(&compacted, &vec![entry(3, 1)]).unwrap_err().message,
        "active tactic journal is detached from its compacted segments"
    );
    assert!(assemble_tactic_decision_records(&compacted, &vec![entry(2, 1), entry(4, 1)]).is_err());
}
