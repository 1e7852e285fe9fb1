use hunt::fanotify::{walk_batch, handle_metadata, DecodeError, Event};
use hunt::fanotify_header::{
    fan_event_ok, parse_metadata, FAN_CREATE, FAN_DELETE, FAN_DELETE_SELF, FAN_MOVED_FROM,
    FAN_MOVE_SELF, FAN_NOFD,
};

/// Builds one record: the 24-byte fixed header followed by `payload`.
fn record_with(mask: u64, vers: u8, fd: u32, payload: &[u8]) -> Vec<u8> {
    let event_len = (24 + payload.len()) as u32;
    let mut b = Vec::new();
    b.extend_from_slice(&event_len.to_le_bytes());
    b.push(vers);
    b.push(0); // reserved
    b.extend_from_slice(&24u16.to_le_bytes()); // metadata_len
    b.extend_from_slice(&mask.to_le_bytes());
    b.extend_from_slice(&fd.to_le_bytes());
    b.extend_from_slice(&4242u32.to_le_bytes()); // pid
    b.extend_from_slice(payload);
    b
}

/// Builds the info payload of type "directory-file-id + name": info header,
/// filesystem id, file-handle head, `handle_bytes` opaque bytes, then the
/// null-terminated name.
fn dfid_name_payload(info_type: u8, handle: &[u8], name_bytes: &[u8]) -> Vec<u8> {
    let mut p = Vec::new();
    let info_len = (4 + 8 + 8 + handle.len() + name_bytes.len() + 1) as u16;
    p.push(info_type);
    p.push(0); // pad
    p.extend_from_slice(&info_len.to_le_bytes());
    p.extend_from_slice(&[7u8; 8]); // fsid, opaque to the decoder
    p.extend_from_slice(&(handle.len() as u32).to_le_bytes());
    p.extend_from_slice(&3u32.to_le_bytes()); // handle type tag
    p.extend_from_slice(handle);
    p.extend_from_slice(name_bytes);
    p.push(0);
    p
}

fn named_record(mask: u64, name: &str) -> Vec<u8> {
    record_with(
        mask,
        3,
        FAN_NOFD,
        &dfid_name_payload(2, &[0xaa, 0xbb, 0xcc], name.as_bytes()),
    )
}

#[test]
fn scenario_two_named_records_in_order() {
    let mut batch = named_record(FAN_CREATE as u64, "alpha.txt");
    batch.extend_from_slice(&named_record(FAN_DELETE as u64, "beta.txt"));
    let events = walk_batch(&batch, batch.len()).unwrap();
    assert_eq!(
        events,
        vec![
            Event::Created("alpha.txt".to_owned()),
            Event::Deleted("beta.txt".to_owned()),
        ]
    );
}

#[test]
fn scenario_delete_self_placeholder() {
    let batch = record_with(FAN_DELETE_SELF as u64, 3, FAN_NOFD, &[]);
    let events = walk_batch(&batch, batch.len()).unwrap();
    assert_eq!(events, vec![Event::Deleted("FAN_DELETE_SELF".to_owned())]);
}

#[test]
fn scenario_oversized_record_is_not_decoded() {
    // The record declares 200 bytes but only 24 remain: the walk must stop
    // there, yielding no event, rather than decode past the buffer.
    let mut rec = record_with(FAN_CREATE as u64, 3, FAN_NOFD, &[]);
    rec[0..4].copy_from_slice(&200u32.to_le_bytes());
    let h = parse_metadata(&rec, 0);
    assert!(!fan_event_ok(&h, rec.len()));
    let events = walk_batch(&rec, rec.len()).unwrap();
    assert!(events.is_empty());
}

#[test]
fn record_shorter_than_header_does_not_fit() {
    let mut rec = record_with(FAN_CREATE as u64, 3, FAN_NOFD, &[]);
    rec[0..4].copy_from_slice(&10u32.to_le_bytes());
    let h = parse_metadata(&rec, 0);
    assert!(!fan_event_ok(&h, rec.len()));
    let events = walk_batch(&rec, rec.len()).unwrap();
    assert!(events.is_empty());
}

#[test]
fn record_that_fits_passes_the_predicate() {
    let rec = named_record(FAN_CREATE as u64, "ok.txt");
    let h = parse_metadata(&rec, 0);
    assert!(fan_event_ok(&h, rec.len()));
}

#[test]
fn bad_version_fails_batch() {
    let batch = record_with(FAN_DELETE_SELF as u64, 2, FAN_NOFD, &[]);
    assert_eq!(
        walk_batch(&batch, batch.len()),
        Err(DecodeError::BadVersion)
    );
    assert_eq!(
        handle_metadata(&batch, 0, batch.len()),
        Err(DecodeError::BadVersion)
    );
}

#[test]
fn bad_version_consumes_no_further_records() {
    // A good record after a bad-version record is never reached.
    let mut batch = record_with(FAN_DELETE_SELF as u64, 9, FAN_NOFD, &[]);
    batch.extend_from_slice(&named_record(FAN_CREATE as u64, "late.txt"));
    assert_eq!(
        walk_batch(&batch, batch.len()),
        Err(DecodeError::BadVersion)
    );
}

#[test]
fn bad_descriptor_fails_decode() {
    let batch = record_with(FAN_DELETE_SELF as u64, 3, 5, &[]);
    assert_eq!(
        walk_batch(&batch, batch.len()),
        Err(DecodeError::BadDescriptor)
    );
}

#[test]
fn unknown_info_type_fails_decode() {
    let rec = record_with(
        FAN_CREATE as u64,
        3,
        FAN_NOFD,
        &dfid_name_payload(9, &[1, 2], b"x"),
    );
    assert_eq!(
        walk_batch(&rec, rec.len()),
        Err(DecodeError::UnknownInfoType)
    );
}

#[test]
fn recognized_info_type_without_name_yields_placeholder() {
    // Info type 1 (file id) carries no name: the placeholder is used.
    let rec = record_with(
        FAN_CREATE as u64,
        3,
        FAN_NOFD,
        &dfid_name_payload(1, &[1, 2], b"ignored"),
    );
    let events = walk_batch(&rec, rec.len()).unwrap();
    assert_eq!(events, vec![Event::Created("FAN_CREATE".to_owned())]);
}

#[test]
fn create_without_info_record_yields_placeholder() {
    let rec = record_with(FAN_CREATE as u64, 3, FAN_NOFD, &[]);
    let events = walk_batch(&rec, rec.len()).unwrap();
    assert_eq!(events, vec![Event::Created("FAN_CREATE".to_owned())]);
}

#[test]
fn handle_span_past_record_is_out_of_bounds() {
    let mut rec = record_with(
        FAN_CREATE as u64,
        3,
        FAN_NOFD,
        &dfid_name_payload(2, &[1, 2, 3], b"name"),
    );
    // Declare far more handle bytes than the record holds.
    rec[36..40].copy_from_slice(&1000u32.to_le_bytes());
    assert_eq!(walk_batch(&rec, rec.len()), Err(DecodeError::OutOfBounds));
}

#[test]
fn name_without_terminator_is_out_of_bounds() {
    let mut rec = record_with(
        FAN_CREATE as u64,
        3,
        FAN_NOFD,
        &dfid_name_payload(2, &[], b"name"),
    );
    let last = rec.len() - 1;
    rec[last] = b'!'; // overwrite the terminator
    assert_eq!(walk_batch(&rec, rec.len()), Err(DecodeError::OutOfBounds));
}

#[test]
fn name_that_is_not_text_fails_decode() {
    let rec = record_with(
        FAN_CREATE as u64,
        3,
        FAN_NOFD,
        &dfid_name_payload(2, &[], &[0xff, 0xfe]),
    );
    assert_eq!(walk_batch(&rec, rec.len()), Err(DecodeError::InvalidName));
}

#[test]
fn multibyte_name_decodes_to_its_characters() {
    let rec = named_record(FAN_CREATE as u64, "h\u{e9}llo.txt");
    let events = walk_batch(&rec, rec.len()).unwrap();
    assert_eq!(events, vec![Event::Created("h\u{e9}llo.txt".to_owned())]);
}

#[test]
fn name_starts_exactly_after_handle_span() {
    // Bytes inside the handle span equal to text must not leak into the
    // name: the name starts at the declared offset, not before.
    let rec = record_with(
        FAN_CREATE as u64,
        3,
        FAN_NOFD,
        &dfid_name_payload(2, b"zzz", b"real"),
    );
    let events = walk_batch(&rec, rec.len()).unwrap();
    assert_eq!(events, vec![Event::Created("real".to_owned())]);
}

#[test]
fn unmapped_mask_yields_unrecognized_and_walk_continues() {
    let mut batch = record_with(FAN_MOVED_FROM as u64, 3, FAN_NOFD, &[]);
    batch.extend_from_slice(&named_record(FAN_CREATE as u64, "after.txt"));
    let events = walk_batch(&batch, batch.len()).unwrap();
    assert_eq!(
        events,
        vec![
            Event::Unrecognized("40".to_owned()),
            Event::Created("after.txt".to_owned()),
        ]
    );
}

#[test]
fn unrecognized_mask_renders_lowercase_hex() {
    let batch = record_with(0xdead_beef, 3, FAN_NOFD, &[]);
    let events = walk_batch(&batch, batch.len()).unwrap();
    assert_eq!(events, vec![Event::Unrecognized("deadbeef".to_owned())]);
}

#[test]
fn move_self_yields_its_placeholder() {
    let batch = record_with(FAN_MOVE_SELF as u64, 3, FAN_NOFD, &[]);
    let events = walk_batch(&batch, batch.len()).unwrap();
    assert_eq!(events, vec![Event::Created("FAN_MOVED_SELF".to_owned())]);
}

#[test]
fn consumed_bytes_equal_declared_length() {
    let rec = named_record(FAN_DELETE as u64, "gamma");
    let (ev, consumed) = handle_metadata(&rec, 0, rec.len()).unwrap();
    assert_eq!(ev, Event::Deleted("gamma".to_owned()));
    assert_eq!(consumed, rec.len());
}
