//! The record decoder and the decisions of the poll loop.
//!
//! One call of [`handle_metadata`] validates one record's header, extracts
//! the embedded file handle and trailing name when present, and produces a
//! typed [`Event`] together with the number of bytes the record declared;
//! [`walk_batch`] walks a filled read buffer record by record under the
//! boundary predicate. The blocking read and the delivery channel live with
//! the caller: the functions here only compute, so every decision they take
//! is verified.

use crate::fanotify_header::{
    fan_event_ok, hdr_of, le32, lemma_hdr_prefix, parse_file_handle, parse_info_header,
    parse_metadata, spec_fits, InfoType, FANOTIFY_METADATA_VERSION,
    FAN_CLASS_NOTIF, FAN_CLOEXEC, FAN_CREATE, FAN_DELETE, FAN_DELETE_SELF, FAN_EVENT_METADATA_LEN,
    FAN_EVENT_ON_CHILD, FAN_MARK_ADD, FAN_MARK_ONLYDIR, FAN_MOVE, FAN_MOVED_FROM, FAN_MOVED_TO,
    FAN_MOVE_SELF, FAN_NOFD, FAN_ONDIR, FAN_REPORT_DIR_FID, FAN_REPORT_FID, FAN_REPORT_NAME,
    FAN_UNLIMITED_MARKS, FAN_UNLIMITED_QUEUE, FILE_HANDLE_OFF, HANDLE_BYTES_OFF, INFO_HDR_OFF,
};
use vstd::prelude::*;
use vstd::string::StringExecFns;
use vstd::utf8::{decode_utf8, valid_utf8};

verus! {

/// The decoded, application-facing result of one record.
///
/// A record class the decoder does not specialize still yields an event:
/// `Unrecognized` carries a hexadecimal rendering of the raw mask, so that
/// no record is ever dropped silently.
#[derive(Clone, Debug, PartialEq, Eq)]
pub enum Event {
    Created(String),
    Deleted(String),
    Moved(String, String),
    Unrecognized(String),
}

/// The mathematical shape of an [`Event`]: the same variants over character
/// sequences.
pub enum EventView {
    Created(Seq<char>),
    Deleted(Seq<char>),
    Moved(Seq<char>, Seq<char>),
    Unrecognized(Seq<char>),
}

impl View for Event {
    type V = EventView;

    open spec fn view(&self) -> EventView {
        match self {
            Event::Created(n) => EventView::Created(n@),
            Event::Deleted(n) => EventView::Deleted(n@),
            Event::Moved(f, t) => EventView::Moved(f@, t@),
            Event::Unrecognized(m) => EventView::Unrecognized(m@),
        }
    }
}

/// The views of a sequence of events, element by element.
pub open spec fn views_of(s: Seq<Event>) -> Seq<EventView> {
    s.map_values(|e: Event| e@)
}

/// Why one record could not be decoded. Any of these aborts the walk of the
/// current batch: the protocol gives no way to re-synchronize to the next
/// record boundary after a malformed record.
#[derive(Clone, Copy, Debug, PartialEq, Eq, Structural)]
pub enum DecodeError {
    /// The header's format version differs from `FANOTIFY_METADATA_VERSION`.
    BadVersion,
    /// The descriptor field differs from the `FAN_NOFD` sentinel, though the
    /// chosen reporting mode conveys identity via file handles only.
    BadDescriptor,
    /// The info record declares a type byte outside the recognized range.
    UnknownInfoType,
    /// A declared length would read past the record: a truncated info
    /// record, a file-handle byte count past the slice, or a name without a
    /// terminator.
    OutOfBounds,
    /// The trailing name bytes are not valid text.
    InvalidName,
}

/// The lowercase hexadecimal digit with value `d`.
pub open spec fn spec_hex_digit(d: u64) -> char
    recommends
        d < 16,
{
    if d == 0 {
        '0'
    } else if d == 1 {
        '1'
    } else if d == 2 {
        '2'
    } else if d == 3 {
        '3'
    } else if d == 4 {
        '4'
    } else if d == 5 {
        '5'
    } else if d == 6 {
        '6'
    } else if d == 7 {
        '7'
    } else if d == 8 {
        '8'
    } else if d == 9 {
        '9'
    } else if d == 10 {
        'a'
    } else if d == 11 {
        'b'
    } else if d == 12 {
        'c'
    } else if d == 13 {
        'd'
    } else if d == 14 {
        'e'
    } else {
        'f'
    }
}

/// The lowercase hexadecimal rendering of `m`, without leading zeroes; zero
/// renders as a single digit.
pub open spec fn spec_hex(m: u64) -> Seq<char>
    decreases m,
{
    if m < 16 {
        seq![spec_hex_digit(m)]
    } else {
        spec_hex(m / 16).push(spec_hex_digit(m % 16))
    }
}

fn hex_digit_str(d: u64) -> (s: &'static str)
    requires
        d < 16,
    ensures
        s@ == seq![spec_hex_digit(d)],
{
    let s = if d == 0 {
        "0"
    } else if d == 1 {
        "1"
    } else if d == 2 {
        "2"
    } else if d == 3 {
        "3"
    } else if d == 4 {
        "4"
    } else if d == 5 {
        "5"
    } else if d == 6 {
        "6"
    } else if d == 7 {
        "7"
    } else if d == 8 {
        "8"
    } else if d == 9 {
        "9"
    } else if d == 10 {
        "a"
    } else if d == 11 {
        "b"
    } else if d == 12 {
        "c"
    } else if d == 13 {
        "d"
    } else if d == 14 {
        "e"
    } else {
        "f"
    };
    proof {
        reveal_strlit("0");
        reveal_strlit("1");
        reveal_strlit("2");
        reveal_strlit("3");
        reveal_strlit("4");
        reveal_strlit("5");
        reveal_strlit("6");
        reveal_strlit("7");
        reveal_strlit("8");
        reveal_strlit("9");
        reveal_strlit("a");
        reveal_strlit("b");
        reveal_strlit("c");
        reveal_strlit("d");
        reveal_strlit("e");
        reveal_strlit("f");
        assert(s@ =~= seq![spec_hex_digit(d)]);
    }
    s
}

/// Renders `m` in lowercase hexadecimal, as the `Unrecognized` fallback
/// carries it.
pub fn hex_render(m: u64) -> (s: String)
    ensures
        s@ == spec_hex(m),
    decreases m,
{
    if m < 16 {
        hex_digit_str(m).to_owned()
    } else {
        let mut s = hex_render(m / 16);
        s.append(hex_digit_str(m % 16));
        proof {
            assert(spec_hex(m / 16).push(spec_hex_digit(m % 16)) =~= spec_hex(m / 16) + seq![
                spec_hex_digit(m % 16),
            ]);
        }
        s
    }
}

/// Relies on `core::str::from_utf8`: it succeeds exactly on input that is
/// valid UTF-8, and then yields the characters those bytes encode.
#[verifier::external_body]
fn bytes_to_string(v: &[u8]) -> (r: Option<String>)
    ensures
        r is Some <==> valid_utf8(v@),
        r matches Some(s) ==> s@ == decode_utf8(v@),
{
    match core::str::from_utf8(v) {
        Ok(s) => Some(s.to_string()),
        Err(_) => None,
    }
}

/// The position of the first zero byte of `b` at or after `i`, if any.
pub open spec fn find_nul(b: Seq<u8>, i: int) -> Option<int>
    recommends
        0 <= i <= b.len(),
    decreases b.len() - i when 0 <= i <= b.len()
{
    if i >= b.len() {
        None
    } else if b[i] == 0 {
        Some(i)
    } else {
        find_nul(b, i + 1)
    }
}

proof fn lemma_find_nul_skip(b: Seq<u8>, s: int, j: int)
    requires
        0 <= s <= j <= b.len(),
        forall|k: int| s <= k < j ==> b[k] != 0,
    ensures
        find_nul(b, s) == find_nul(b, j),
    decreases j - s,
{
    if s < j {
        lemma_find_nul_skip(b, s + 1, j);
    }
}

/// The event a recognized create or delete record yields when it carries no
/// name: a fixed placeholder naming the mask category.
pub open spec fn spec_placeholder(is_create: bool) -> EventView {
    if is_create {
        EventView::Created("FAN_CREATE"@)
    } else {
        EventView::Deleted("FAN_DELETE"@)
    }
}

/// How a create or delete record `b` (the whole record's bytes) decodes: the
/// entry name is everything between the file handle's declared byte span and
/// the next zero byte, and must be valid text.
pub open spec fn spec_decode_named(b: Seq<u8>, is_create: bool) -> Result<EventView, DecodeError>
    recommends
        b.len() >= FAN_EVENT_METADATA_LEN,
{
    if b.len() == FAN_EVENT_METADATA_LEN {
        Ok(spec_placeholder(is_create))
    } else if b.len() < INFO_HDR_OFF + 4 {
        Err(DecodeError::OutOfBounds)
    } else if !(1 <= b[INFO_HDR_OFF as int] <= 5) {
        Err(DecodeError::UnknownInfoType)
    } else if b[INFO_HDR_OFF as int] != 2 {
        Ok(spec_placeholder(is_create))
    } else if b.len() < HANDLE_BYTES_OFF {
        Err(DecodeError::OutOfBounds)
    } else {
        let name_start = HANDLE_BYTES_OFF + le32(b, FILE_HANDLE_OFF as int) as int;
        if name_start > b.len() {
            Err(DecodeError::OutOfBounds)
        } else {
            match find_nul(b, name_start) {
                None => Err(DecodeError::OutOfBounds),
                Some(nul) => {
                    let name = b.subrange(name_start, nul);
                    if !valid_utf8(name) {
                        Err(DecodeError::InvalidName)
                    } else if is_create {
                        Ok(EventView::Created(decode_utf8(name)))
                    } else {
                        Ok(EventView::Deleted(decode_utf8(name)))
                    }
                },
            }
        }
    }
}

/// How one whole record `b` decodes: header validation first, then the
/// event determined by the mask, with the `Unrecognized` fallback for any
/// mask the decoder does not specialize.
pub open spec fn spec_decode_record(b: Seq<u8>) -> Result<EventView, DecodeError>
    recommends
        b.len() >= FAN_EVENT_METADATA_LEN,
{
    let h = hdr_of(b);
    if h.vers != FANOTIFY_METADATA_VERSION {
        Err(DecodeError::BadVersion)
    } else if h.fd != FAN_NOFD {
        Err(DecodeError::BadDescriptor)
    } else if h.mask == FAN_CREATE as u64 {
        spec_decode_named(b, true)
    } else if h.mask == FAN_DELETE as u64 {
        spec_decode_named(b, false)
    } else if h.mask == FAN_DELETE_SELF as u64 {
        Ok(EventView::Deleted("FAN_DELETE_SELF"@))
    } else if h.mask == FAN_MOVE as u64 {
        Ok(EventView::Created("FAN_MOVED_FROM"@))
    } else if h.mask == FAN_MOVE_SELF as u64 {
        Ok(EventView::Created("FAN_MOVED_SELF"@))
    } else {
        Ok(EventView::Unrecognized(spec_hex(h.mask)))
    }
}

fn placeholder_event(is_create: bool) -> (e: Event)
    ensures
        e@ == spec_placeholder(is_create),
{
    if is_create {
        Event::Created("FAN_CREATE".to_owned())
    } else {
        Event::Deleted("FAN_DELETE".to_owned())
    }
}

fn decode_named(buf: &[u8], off: usize, end: usize, is_create: bool) -> (r: Result<
    Event,
    DecodeError,
>)
    requires
        end <= buf@.len(),
        off + FAN_EVENT_METADATA_LEN <= end,
    ensures
        ({
            let b = buf@.subrange(off as int, end as int);
            match r {
                Ok(e) => spec_decode_named(b, is_create) == Ok::<EventView, DecodeError>(e@),
                Err(er) => spec_decode_named(b, is_create) == Err::<EventView, DecodeError>(er),
            }
        }),
{
    let _n: usize = buf.len();
    let ghost b = buf@.subrange(off as int, end as int);
    let el = end - off;
    if el == FAN_EVENT_METADATA_LEN {
        return Ok(placeholder_event(is_create));
    }
    if el < INFO_HDR_OFF + 4 {
        return Err(DecodeError::OutOfBounds);
    }
    proof {
        assert(b[INFO_HDR_OFF as int] == buf@[off as int + INFO_HDR_OFF as int]);
    }
    let ih = match parse_info_header(buf, off + INFO_HDR_OFF) {
        None => {
            return Err(DecodeError::UnknownInfoType);
        },
        Some(h) => h,
    };
    if ih.info_type != InfoType::FAN_EVENT_INFO_TYPE_DFID_NAME {
        return Ok(placeholder_event(is_create));
    }
    if el < HANDLE_BYTES_OFF {
        return Err(DecodeError::OutOfBounds);
    }
    let fh = parse_file_handle(buf, off + FILE_HANDLE_OFF);
    proof {
        assert(b[FILE_HANDLE_OFF as int] == buf@[off as int + FILE_HANDLE_OFF as int]);
        assert(b[FILE_HANDLE_OFF as int + 1] == buf@[off as int + FILE_HANDLE_OFF as int + 1]);
        assert(b[FILE_HANDLE_OFF as int + 2] == buf@[off as int + FILE_HANDLE_OFF as int + 2]);
        assert(b[FILE_HANDLE_OFF as int + 3] == buf@[off as int + FILE_HANDLE_OFF as int + 3]);
        assert(le32(b, FILE_HANDLE_OFF as int) == le32(buf@, off as int + FILE_HANDLE_OFF as int));
    }
    let hb = fh.handle_bytes as usize;
    if hb > el - HANDLE_BYTES_OFF {
        return Err(DecodeError::OutOfBounds);
    }
    let ns = off + HANDLE_BYTES_OFF + hb;
    let ghost ns_rel = HANDLE_BYTES_OFF + hb;
    let mut j: usize = ns;
    loop
        invariant
            ns <= j <= end,
            end <= buf@.len(),
            forall|k: int| ns <= k < j ==> buf@[k] != 0,
        ensures
            ns <= j <= end,
            forall|k: int| ns <= k < j ==> buf@[k] != 0,
            j < end ==> buf@[j as int] == 0,
        decreases end - j,
    {
        if j == end {
            break ;
        }
        if buf[j] == 0 {
            break ;
        }
        j = j + 1;
    }
    proof {
        assert forall|k: int| ns_rel <= k < j - off implies b[k] != 0 by {
            assert(b[k] == buf@[off + k]);
        }
        lemma_find_nul_skip(b, ns_rel as int, j - off);
    }
    if j == end {
        return Err(DecodeError::OutOfBounds);
    }
    proof {
        assert(b[j - off] == buf@[j as int]);
        assert(find_nul(b, ns_rel as int) == Some(j - off));
    }
    let name_slice = vstd::slice::slice_subrange(buf, ns, j);
    proof {
        assert(name_slice@ =~= b.subrange(ns_rel as int, j - off));
    }
    match bytes_to_string(name_slice) {
        None => Err(DecodeError::InvalidName),
        Some(s) => {
            if is_create {
                Ok(Event::Created(s))
            } else {
                Ok(Event::Deleted(s))
            }
        },
    }
}

/// Decodes the one record standing at offset `off` of the batch `buf`, whose
/// unread region ends at `len`. Returns the typed event together with the
/// number of bytes consumed, which always equals the record's declared total
/// length; or the reason the record is malformed.
pub fn handle_metadata(buf: &[u8], off: usize, len: usize) -> (r: Result<
    (Event, usize),
    DecodeError,
>)
    requires
        off <= len <= buf@.len(),
        spec_fits(buf@.subrange(off as int, len as int)),
    ensures
        ({
            let rem = buf@.subrange(off as int, len as int);
            let el = hdr_of(rem).event_len as int;
            let rec = buf@.subrange(off as int, off as int + el);
            match r {
                Ok((e, c)) => c == el && spec_decode_record(rec) == Ok::<EventView, DecodeError>(
                    e@,
                ),
                Err(er) => spec_decode_record(rec) == Err::<EventView, DecodeError>(er),
            }
        }),
{
    let _n: usize = buf.len();
    let ghost rem = buf@.subrange(off as int, len as int);
    let h = parse_metadata(buf, off);
    proof {
        assert forall|i: int|
            0 <= i < FAN_EVENT_METADATA_LEN implies buf@.subrange(
            off as int,
            off as int + FAN_EVENT_METADATA_LEN as int,
        )[i] == rem[i] by {}
        lemma_hdr_prefix(
            buf@.subrange(off as int, off as int + FAN_EVENT_METADATA_LEN as int),
            rem,
        );
    }
    let el = h.event_len as usize;
    let end = off + el;
    let ghost rec = buf@.subrange(off as int, end as int);
    proof {
        assert forall|i: int| 0 <= i < FAN_EVENT_METADATA_LEN implies rem[i] == rec[i] by {}
        lemma_hdr_prefix(rem, rec);
    }
    if h.vers != FANOTIFY_METADATA_VERSION {
        return Err(DecodeError::BadVersion);
    }
    if h.fd != FAN_NOFD {
        return Err(DecodeError::BadDescriptor);
    }
    let mask = h.mask;
    if mask == FAN_CREATE as u64 || mask == FAN_DELETE as u64 {
        match decode_named(buf, off, end, mask == FAN_CREATE as u64) {
            Ok(e) => Ok((e, el)),
            Err(er) => Err(er),
        }
    } else if mask == FAN_DELETE_SELF as u64 {
        Ok((Event::Deleted("FAN_DELETE_SELF".to_owned()), el))
    } else if mask == FAN_MOVE as u64 {
        Ok((Event::Created("FAN_MOVED_FROM".to_owned()), el))
    } else if mask == FAN_MOVE_SELF as u64 {
        Ok((Event::Created("FAN_MOVED_SELF".to_owned()), el))
    } else {
        Ok((Event::Unrecognized(hex_render(mask)), el))
    }
}

/// How a filled batch `b` decodes, record by record: the walk stops cleanly
/// before the first record that does not fit within the remaining bytes, and
/// aborts with the decoder's error at the first malformed record.
pub open spec fn spec_walk(b: Seq<u8>) -> Result<Seq<EventView>, DecodeError>
    decreases b.len(),
{
    if !spec_fits(b) {
        Ok(Seq::empty())
    } else {
        let el = hdr_of(b).event_len as int;
        match spec_decode_record(b.subrange(0, el)) {
            Err(e) => Err(e),
            Ok(ev) => match spec_walk(b.subrange(el, b.len() as int)) {
                Err(e) => Err(e),
                Ok(rest) => Ok(seq![ev] + rest),
            },
        }
    }
}

/// Walks the first `len` filled bytes of the read buffer `buf` and decodes
/// one event per record, in record order; a malformed record aborts the
/// whole batch with its decode error.
pub fn walk_batch(buf: &[u8], len: usize) -> (r: Result<Vec<Event>, DecodeError>)
    requires
        len <= buf@.len(),
    ensures
        ({
            let whole = buf@.subrange(0, len as int);
            match r {
                Ok(v) => spec_walk(whole) == Ok::<Seq<EventView>, DecodeError>(views_of(v@)),
                Err(e) => spec_walk(whole) == Err::<Seq<EventView>, DecodeError>(e),
            }
        }),
{
    let _n: usize = buf.len();
    let ghost whole = buf@.subrange(0, len as int);
    let mut off: usize = 0;
    let mut out: Vec<Event> = Vec::new();
    loop
        invariant
            off <= len <= buf@.len(),
            ({
                let tail = buf@.subrange(off as int, len as int);
                match spec_walk(tail) {
                    Ok(t) => spec_walk(buf@.subrange(0, len as int)) == Ok::<
                        Seq<EventView>,
                        DecodeError,
                    >(views_of(out@) + t),
                    Err(e) => spec_walk(buf@.subrange(0, len as int)) == Err::<
                        Seq<EventView>,
                        DecodeError,
                    >(e),
                }
            }),
        ensures
            off <= len <= buf@.len(),
            !spec_fits(buf@.subrange(off as int, len as int)),
            ({
                let tail = buf@.subrange(off as int, len as int);
                match spec_walk(tail) {
                    Ok(t) => spec_walk(buf@.subrange(0, len as int)) == Ok::<
                        Seq<EventView>,
                        DecodeError,
                    >(views_of(out@) + t),
                    Err(e) => spec_walk(buf@.subrange(0, len as int)) == Err::<
                        Seq<EventView>,
                        DecodeError,
                    >(e),
                }
            }),
        decreases len - off,
    {
        let ghost tail0 = buf@.subrange(off as int, len as int);
        let rem = len - off;
        if rem < FAN_EVENT_METADATA_LEN {
            break ;
        }
        let h = parse_metadata(buf, off);
        proof {
            assert forall|i: int|
                0 <= i < FAN_EVENT_METADATA_LEN implies buf@.subrange(
                off as int,
                off as int + FAN_EVENT_METADATA_LEN as int,
            )[i] == tail0[i] by {}
            lemma_hdr_prefix(
                buf@.subrange(off as int, off as int + FAN_EVENT_METADATA_LEN as int),
                tail0,
            );
        }
        if !fan_event_ok(&h, rem) {
            break ;
        }
        match handle_metadata(buf, off, len) {
            Err(e) => {
                proof {
                    let el = hdr_of(tail0).event_len as int;
                    assert(tail0.subrange(0, el) =~= buf@.subrange(off as int, off as int + el));
                }
                return Err(e);
            },
            Ok((ev, c)) => {
                proof {
                    let el = hdr_of(tail0).event_len as int;
                    assert(tail0.subrange(0, el) =~= buf@.subrange(off as int, off as int + el));
                    assert(tail0.subrange(el, tail0.len() as int) =~= buf@.subrange(
                        off as int + el,
                        len as int,
                    ));
                }
                let ghost out0 = out@;
                out.push(ev);
                proof {
                    assert(views_of(out@) =~= views_of(out0) + seq![ev@]);
                }
                off = off + c;
                proof {
                    let tail1 = buf@.subrange(off as int, len as int);
                    match spec_walk(tail1) {
                        Ok(t1) => {
                            assert(views_of(out0) + (seq![ev@] + t1) =~= views_of(out@) + t1);
                        },
                        Err(_) => {},
                    }
                }
            },
        }
    }
    proof {
        let tail = buf@.subrange(off as int, len as int);
        assert(spec_walk(tail) == Ok::<Seq<EventView>, DecodeError>(Seq::empty()));
        assert(views_of(out@) + Seq::<EventView>::empty() =~= views_of(out@));
    }
    Ok(out)
}

/// For any create or delete record that carries a "directory-file-id +
/// name" info record, decoding extracts exactly the bytes between the end
/// of the file handle's declared span and the next zero byte — no
/// truncation, no over-read — and succeeds exactly when they are valid
/// text; a missing terminator is an out-of-bounds failure.
pub proof fn lemma_name_extraction(b: Seq<u8>)
    requires
        FAN_EVENT_METADATA_LEN < b.len(),
        HANDLE_BYTES_OFF <= b.len(),
        hdr_of(b).vers == FANOTIFY_METADATA_VERSION,
        hdr_of(b).fd == FAN_NOFD,
        hdr_of(b).mask == FAN_CREATE as u64 || hdr_of(b).mask == FAN_DELETE as u64,
        b[INFO_HDR_OFF as int] == 2,
        HANDLE_BYTES_OFF + le32(b, FILE_HANDLE_OFF as int) <= b.len(),
    ensures
        ({
            let name_start = HANDLE_BYTES_OFF + le32(b, FILE_HANDLE_OFF as int) as int;
            match find_nul(b, name_start) {
                Some(nul) => {
                    let name = b.subrange(name_start, nul);
                    &&& (valid_utf8(name) && hdr_of(b).mask == FAN_CREATE as u64)
                        ==> spec_decode_record(b) == Ok::<EventView, DecodeError>(
                        EventView::Created(decode_utf8(name)),
                    )
                    &&& (valid_utf8(name) && hdr_of(b).mask == FAN_DELETE as u64)
                        ==> spec_decode_record(b) == Ok::<EventView, DecodeError>(
                        EventView::Deleted(decode_utf8(name)),
                    )
                    &&& !valid_utf8(name) ==> spec_decode_record(b) == Err::<
                        EventView,
                        DecodeError,
                    >(DecodeError::InvalidName)
                },
                None => spec_decode_record(b) == Err::<EventView, DecodeError>(
                    DecodeError::OutOfBounds,
                ),
            }
        }),
{
}

/// A record whose declared length exceeds the remaining buffer length does
/// not satisfy the boundary predicate, and the batch walk stops there
/// without invoking the decoder on that slice.
pub proof fn lemma_oversized_record_stops_walk(b: Seq<u8>)
    requires
        b.len() >= FAN_EVENT_METADATA_LEN,
        hdr_of(b).event_len as int > b.len(),
    ensures
        !spec_fits(b),
        spec_walk(b) == Ok::<Seq<EventView>, DecodeError>(Seq::<EventView>::empty()),
{
}

/// A batch whose first record declares a version other than the supported
/// one fails as a whole with `BadVersion`: no event of it is delivered, and
/// no byte beyond the bad record is consumed.
pub proof fn lemma_bad_version_aborts(batch: Seq<u8>)
    requires
        spec_fits(batch),
        hdr_of(batch).vers != FANOTIFY_METADATA_VERSION,
    ensures
        spec_walk(batch) == Err::<Seq<EventView>, DecodeError>(DecodeError::BadVersion),
{
    let el = hdr_of(batch).event_len as int;
    assert forall|i: int|
        0 <= i < FAN_EVENT_METADATA_LEN implies batch.subrange(0, el)[i] == batch[i] by {}
    lemma_hdr_prefix(batch.subrange(0, el), batch);
}

/// An unmapped mask never halts the batch walk: the record yields an
/// `Unrecognized` event carrying the hexadecimal mask, and the walk
/// continues through the rest of the batch unchanged.
pub proof fn lemma_unrecognized_continues(rec: Seq<u8>, rest: Seq<u8>)
    requires
        rec.len() >= FAN_EVENT_METADATA_LEN,
        hdr_of(rec).event_len == rec.len(),
        hdr_of(rec).vers == FANOTIFY_METADATA_VERSION,
        hdr_of(rec).fd == FAN_NOFD,
        hdr_of(rec).mask != FAN_CREATE as u64,
        hdr_of(rec).mask != FAN_DELETE as u64,
        hdr_of(rec).mask != FAN_DELETE_SELF as u64,
        hdr_of(rec).mask != FAN_MOVE as u64,
        hdr_of(rec).mask != FAN_MOVE_SELF as u64,
    ensures
        spec_walk(rec + rest) == (match spec_walk(rest) {
            Ok(t) => Ok::<Seq<EventView>, DecodeError>(
                seq![EventView::Unrecognized(spec_hex(hdr_of(rec).mask))] + t,
            ),
            Err(e) => Err::<Seq<EventView>, DecodeError>(e),
        }),
{
    let b = rec + rest;
    assert forall|i: int| 0 <= i < FAN_EVENT_METADATA_LEN implies b[i] == rec[i] by {}
    lemma_hdr_prefix(b, rec);
    let el = hdr_of(b).event_len as int;
    assert(b.subrange(0, el) =~= rec);
    assert(b.subrange(el, b.len() as int) =~= rest);
}

/// The concatenation of a sequence of records, back to back.
pub open spec fn concat_records(rs: Seq<Seq<u8>>) -> Seq<u8>
    decreases rs.len(),
{
    if rs.len() == 0 {
        Seq::empty()
    } else {
        rs[0] + concat_records(rs.skip(1))
    }
}

/// A whole record: long enough for the fixed header, and declaring exactly
/// its own length.
pub open spec fn record_wf(rec: Seq<u8>) -> bool {
    &&& rec.len() >= FAN_EVENT_METADATA_LEN
    &&& hdr_of(rec).event_len == rec.len()
}

/// Order preservation: a batch of back-to-back records, each of which
/// decodes to an event, decodes to exactly those events in the records'
/// order — no reordering, no drop — for any number of records.
pub proof fn lemma_walk_order(rs: Seq<Seq<u8>>)
    requires
        forall|i: int| 0 <= i < rs.len() ==> record_wf(#[trigger] rs[i]),
        forall|i: int| 0 <= i < rs.len() ==> (#[trigger] spec_decode_record(rs[i])) is Ok,
    ensures
        spec_walk(concat_records(rs)) == Ok::<Seq<EventView>, DecodeError>(
            Seq::new(rs.len(), |i: int| spec_decode_record(rs[i])->Ok_0),
        ),
    decreases rs.len(),
{
    if rs.len() == 0 {
        assert(Seq::new(rs.len(), |i: int| spec_decode_record(rs[i])->Ok_0) =~= Seq::<
            EventView,
        >::empty());
        assert(!spec_fits(concat_records(rs)));
    } else {
        let rec = rs[0];
        let tail = rs.skip(1);
        assert forall|i: int| 0 <= i < tail.len() implies record_wf(#[trigger] tail[i])
            && spec_decode_record(tail[i]) is Ok by {
            assert(tail[i] == rs[i + 1]);
        }
        lemma_walk_order(tail);
        let rest = concat_records(tail);
        let b = rec + rest;
        assert forall|i: int| 0 <= i < FAN_EVENT_METADATA_LEN implies b[i] == rec[i] by {}
        lemma_hdr_prefix(b, rec);
        let el = hdr_of(b).event_len as int;
        assert(b.subrange(0, el) =~= rec);
        assert(b.subrange(el, b.len() as int) =~= rest);
        assert(seq![spec_decode_record(rec)->Ok_0] + Seq::new(
            tail.len(),
            |i: int| spec_decode_record(tail[i])->Ok_0,
        ) =~= Seq::new(rs.len(), |i: int| spec_decode_record(rs[i])->Ok_0)) by {
            assert forall|i: int|
                1 <= i < rs.len() implies Seq::new(
                tail.len(),
                |j: int| spec_decode_record(tail[j])->Ok_0,
            )[i - 1] == spec_decode_record(rs[i])->Ok_0 by {
                assert(tail[i - 1] == rs[i]);
            }
        }
    }
}

/// A read-syscall failure during polling, with the platform error code. It
/// is fatal to the producer: no retry can resume a half-read record stream.
#[derive(Clone, Copy, Debug, PartialEq, Eq, Structural)]
pub enum ChannelError {
    ReadFailed(i32),
}

/// What one turn of the poll loop decided after a blocking read.
#[derive(Clone, Debug, PartialEq, Eq)]
pub enum PollStep {
    /// The filled region decoded cleanly; deliver these events in order,
    /// then read again.
    Delivered(Vec<Event>),
    /// The read returned no bytes: the stream has ended.
    EndOfStream,
}

/// Why the poll loop must stop: a failed read, or a malformed record, which
/// cannot be skipped because the walk cannot re-synchronize.
#[derive(Clone, Copy, Debug, PartialEq, Eq, Structural)]
pub enum PollError {
    Channel(ChannelError),
    Decode(DecodeError),
}

/// Decides one turn of the poll loop from the outcome of a blocking read:
/// `ret` and `errno` are what the read returned, and the first `ret` bytes
/// of `buf` are the filled region. The caller performs the read and the
/// delivery; every decision in between stands here.
pub fn poll_step(ret: isize, errno: i32, buf: &[u8]) -> (r: Result<PollStep, PollError>)
    requires
        ret >= 0 ==> ret as int <= buf@.len(),
    ensures
        ret < 0 ==> r == Err::<PollStep, PollError>(PollError::Channel(ChannelError::ReadFailed(errno))),
        ret == 0 ==> r == Ok::<PollStep, PollError>(PollStep::EndOfStream),
        ret > 0 ==> match spec_walk(buf@.subrange(0, ret as int)) {
            Ok(es) => r matches Ok(PollStep::Delivered(v)) && views_of(v@) == es,
            Err(e) => r == Err::<PollStep, PollError>(PollError::Decode(e)),
        },
{
    if ret < 0 {
        Err(PollError::Channel(ChannelError::ReadFailed(errno)))
    } else if ret == 0 {
        Ok(PollStep::EndOfStream)
    } else {
        match walk_batch(buf, ret as usize) {
            Ok(events) => Ok(PollStep::Delivered(events)),
            Err(e) => Err(PollError::Decode(e)),
        }
    }
}

/// The stage of channel setup a syscall result belongs to.
#[derive(Clone, Copy, Debug, PartialEq, Eq, Structural)]
pub enum SetupStage {
    /// Opening the watched path as a directory.
    OpenDir,
    /// Initializing the notification endpoint.
    Init,
    /// Installing the watch mark on the directory.
    Mark,
}

/// A channel-setup failure, with the platform error code. Fatal: it is
/// surfaced before monitoring starts, and the poll loop is never entered.
#[derive(Clone, Copy, Debug, PartialEq, Eq, Structural)]
pub enum SetupError {
    OpenFailed(i32),
    InitFailed(i32),
    MarkFailed(i32),
}

/// The setup error that a failure at `stage` reports.
pub open spec fn spec_setup_error(stage: SetupStage, errno: i32) -> SetupError {
    match stage {
        SetupStage::OpenDir => SetupError::OpenFailed(errno),
        SetupStage::Init => SetupError::InitFailed(errno),
        SetupStage::Mark => SetupError::MarkFailed(errno),
    }
}

/// Classifies one setup syscall's result: a negative return is the failure
/// of its stage, carrying `errno`; anything else is passed through. The
/// caller makes the syscalls; which of them is fatal, and as what, is
/// decided here.
pub fn check_setup(stage: SetupStage, ret: i32, errno: i32) -> (r: Result<i32, SetupError>)
    ensures
        ret >= 0 ==> r == Ok::<i32, SetupError>(ret),
        ret < 0 ==> r == Err::<i32, SetupError>(spec_setup_error(stage, errno)),
{
    if ret < 0 {
        match stage {
            SetupStage::OpenDir => Err(SetupError::OpenFailed(errno)),
            SetupStage::Init => Err(SetupError::InitFailed(errno)),
            SetupStage::Mark => Err(SetupError::MarkFailed(errno)),
        }
    } else {
        Ok(ret)
    }
}

/// Whether a set of endpoint-initialization flags is well-formed: reporting
/// names requires reporting directory ids, or the kernel emits records this
/// decoder would reject as malformed.
pub open spec fn spec_reporting_mode_valid(flags: u32) -> bool {
    flags & FAN_REPORT_NAME != 0 ==> flags & FAN_REPORT_DIR_FID != 0
}

/// The endpoint-initialization flags of this monitor: a plain notification
/// class, unlimited queue and marks, close-on-exec, and identity reported
/// as unique file ids, directory ids and embedded names.
pub fn init_flags() -> (f: u32)
    ensures
        f == (FAN_CLASS_NOTIF | FAN_UNLIMITED_QUEUE | FAN_UNLIMITED_MARKS | FAN_CLOEXEC
            | FAN_REPORT_FID | FAN_REPORT_DIR_FID | FAN_REPORT_NAME),
        spec_reporting_mode_valid(f),
{
    proof {
        let f: u32 = FAN_CLASS_NOTIF | FAN_UNLIMITED_QUEUE | FAN_UNLIMITED_MARKS | FAN_CLOEXEC
            | FAN_REPORT_FID | FAN_REPORT_DIR_FID | FAN_REPORT_NAME;
        assert((0x0u32 | 0x10 | 0x20 | 0x1 | 0x200 | 0x400 | 0x800) & 0x800u32 != 0)
            by (bit_vector);
        assert((0x0u32 | 0x10 | 0x20 | 0x1 | 0x200 | 0x400 | 0x800) & 0x400u32 != 0)
            by (bit_vector);
        assert(f == (0x0u32 | 0x10 | 0x20 | 0x1 | 0x200 | 0x400 | 0x800));
        assert(spec_reporting_mode_valid(f));
    }
    FAN_CLASS_NOTIF | FAN_UNLIMITED_QUEUE | FAN_UNLIMITED_MARKS | FAN_CLOEXEC | FAN_REPORT_FID
        | FAN_REPORT_DIR_FID | FAN_REPORT_NAME
}

/// The mark-installation flags: add a mark, on directories only.
pub fn mark_flags() -> (f: u32)
    ensures
        f == (FAN_MARK_ADD | FAN_MARK_ONLYDIR),
{
    FAN_MARK_ADD | FAN_MARK_ONLYDIR
}

/// The watch mask installed on the directory: create, delete, self-delete,
/// move-in, move-out and self-move, for directories and their children.
pub fn watch_mask() -> (m: u64)
    ensures
        m == (FAN_CREATE as u64 | FAN_DELETE as u64 | FAN_DELETE_SELF as u64 | FAN_MOVED_FROM
            as u64 | FAN_MOVED_TO as u64 | FAN_MOVE_SELF as u64 | FAN_ONDIR | FAN_EVENT_ON_CHILD),
{
    FAN_CREATE as u64 | FAN_DELETE as u64 | FAN_DELETE_SELF as u64 | FAN_MOVED_FROM as u64
        | FAN_MOVED_TO as u64 | FAN_MOVE_SELF as u64 | FAN_ONDIR | FAN_EVENT_ON_CHILD
}

/// The line that one event renders to.
pub open spec fn spec_render(e: EventView) -> Seq<char> {
    match e {
        EventView::Created(n) => "Create("@ + n + ")"@,
        EventView::Deleted(n) => "Delete("@ + n + ")"@,
        EventView::Moved(f, t) => f + " -> "@ + t,
        EventView::Unrecognized(m) => "Unrecognized(0x"@ + m + ")"@,
    }
}

/// Renders one event as its delivery line: `Create(<name>)`,
/// `Delete(<name>)`, `<from> -> <to>` for a move, and the raw mask in
/// hexadecimal for an unrecognized record class.
pub fn handle_event(ev: &Event) -> (line: String)
    ensures
        line@ == spec_render(ev@),
{
    match ev {
        Event::Created(n) => {
            let mut s = "Create(".to_owned();
            s.append(n.as_str());
            s.append(")");
            s
        },
        Event::Deleted(n) => {
            let mut s = "Delete(".to_owned();
            s.append(n.as_str());
            s.append(")");
            s
        },
        Event::Moved(f, t) => {
            let mut s = f.clone();
            s.append(" -> ");
            s.append(t.as_str());
            s
        },
        Event::Unrecognized(m) => {
            let mut s = "Unrecognized(0x".to_owned();
            s.append(m.as_str());
            s.append(")");
            s
        },
    }
}

} // verus!

