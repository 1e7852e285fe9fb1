//! Static description of the fanotify wire format: the event bit-flags, the
//! flags used at channel setup, the fixed-size metadata header, the
//! variable-length info-record headers, the file-handle layout, the format
//! version constant, and the record-boundary predicate.
//!
//! Every multi-byte field is read at its documented byte offset in
//! little-endian order from an owned, bounds-checked byte buffer; no struct
//! reinterpretation is involved, so the format is testable from synthetic
//! byte arrays alone.

use vstd::prelude::*;

verus! {

/* the following events that user-space can register for */
pub const FAN_ACCESS: u32 = 0x00000001;
pub const FAN_MODIFY: u32 = 0x00000002;
pub const FAN_ATTRIB: u32 = 0x00000004;
pub const FAN_CLOSE_WRITE: u32 = 0x00000008;
pub const FAN_CLOSE_NOWRITE: u32 = 0x00000010;
pub const FAN_OPEN: u32 = 0x00000020;
pub const FAN_MOVED_FROM: u32 = 0x00000040;
pub const FAN_MOVED_TO: u32 = 0x00000080;
pub const FAN_CREATE: u32 = 0x00000100;
pub const FAN_DELETE: u32 = 0x00000200;
pub const FAN_DELETE_SELF: u32 = 0x00000400;
pub const FAN_MOVE_SELF: u32 = 0x00000800;
pub const FAN_OPEN_EXEC: u32 = 0x00001000;

pub const FAN_Q_OVERFLOW: u32 = 0x00004000;
pub const FAN_FS_ERROR: u32 = 0x00008000;

pub const FAN_OPEN_PERM: u64 = 0x00010000;
pub const FAN_ACCESS_PERM: u64 = 0x00020000;
pub const FAN_OPEN_EXEC_PERM: u64 = 0x00040000;

pub const FAN_EVENT_ON_CHILD: u64 = 0x08000000;

pub const FAN_ONDIR: u64 = 0x40000000;

/* helper events */
pub const FAN_CLOSE: u32 = FAN_CLOSE_WRITE | FAN_CLOSE_NOWRITE;
pub const FAN_MOVE: u32 = FAN_MOVED_FROM | FAN_MOVED_TO;

/* flags used for fanotify_init() */
pub const FAN_CLOEXEC: u32 = 0x00000001;
pub const FAN_NONBLOCK: u32 = 0x00000002;

/* These are NOT bitwise flags.  Both bits are used together.  */
pub const FAN_CLASS_NOTIF: u32 = 0x00000000;
pub const FAN_CLASS_CONTENT: u32 = 0x00000004;
pub const FAN_CLASS_PRE_CONTENT: u32 = 0x00000008;

pub const FAN_UNLIMITED_QUEUE: u32 = 0x00000010;
pub const FAN_UNLIMITED_MARKS: u32 = 0x00000020;
pub const FAN_ENABLE_AUDIT: u32 = 0x00000040;

/* Flags to determine fanotify event format */
pub const FAN_REPORT_PIDFD: u32 = 0x00000080;
pub const FAN_REPORT_TID: u32 = 0x00000100;
pub const FAN_REPORT_FID: u32 = 0x00000200;
pub const FAN_REPORT_DIR_FID: u32 = 0x00000400;
pub const FAN_REPORT_NAME: u32 = 0x00000800;

/* FAN_REPORT_NAME requires FAN_REPORT_DIR_FID */
pub const FAN_REPORT_DFID_NAME: u32 = FAN_REPORT_DIR_FID | FAN_REPORT_NAME;

/* flags used for fanotify_modify_mark() */
pub const FAN_MARK_ADD: u32 = 0x00000001;
pub const FAN_MARK_REMOVE: u32 = 0x00000002;
pub const FAN_MARK_DONT_FOLLOW: u32 = 0x00000004;
pub const FAN_MARK_ONLYDIR: u32 = 0x00000008;
pub const FAN_MARK_IGNORED_MASK: u32 = 0x00000020;
pub const FAN_MARK_IGNORED_SURV_MODIFY: u32 = 0x00000040;
pub const FAN_MARK_FLUSH: u32 = 0x00000080;

/* These are NOT bitwise flags.  Both bits can be used together.  */
pub const FAN_MARK_INODE: u32 = 0x00000000;
pub const FAN_MARK_MOUNT: u32 = 0x00000010;
pub const FAN_MARK_FILESYSTEM: u32 = 0x00000100;

/// The single supported format version of the metadata header.
pub const FANOTIFY_METADATA_VERSION: u8 = 3;

/// Raw bit pattern of the "no file descriptor" sentinel: the two's-complement
/// encoding of -1 in the 32-bit signed descriptor field.
pub const FAN_NOFD: u32 = 0xffff_ffff;

/// Byte length of the fixed metadata header: 32-bit record length, 8-bit
/// version, 8-bit reserved, 16-bit header length, 64-bit mask, 32-bit
/// descriptor, 32-bit process id.
pub const FAN_EVENT_METADATA_LEN: usize = 24;

/// How many fixed-header-sized units one blocking read may return; the read
/// buffer holds this many.
pub const BATCH: usize = 200;

/// Capacity of the read buffer filled by one blocking read.
pub const READ_BUFFER_LEN: usize = FAN_EVENT_METADATA_LEN * BATCH;

/// The unsigned 16-bit value stored little-endian at offset `i` of `b`.
pub open spec fn le16(b: Seq<u8>, i: int) -> u16
    recommends
        0 <= i,
        i + 2 <= b.len(),
{
    (b[i] as int + 0x100 * (b[i + 1] as int)) as u16
}

/// The unsigned 32-bit value stored little-endian at offset `i` of `b`.
pub open spec fn le32(b: Seq<u8>, i: int) -> u32
    recommends
        0 <= i,
        i + 4 <= b.len(),
{
    (b[i] as int + 0x100 * (b[i + 1] as int) + 0x1_0000 * (b[i + 2] as int) + 0x100_0000 * (b[i
        + 3] as int)) as u32
}

/// The unsigned 64-bit value stored little-endian at offset `i` of `b`.
pub open spec fn le64(b: Seq<u8>, i: int) -> u64
    recommends
        0 <= i,
        i + 8 <= b.len(),
{
    (le32(b, i) as int + 0x1_0000_0000 * (le32(b, i + 4) as int)) as u64
}

/// Reads the little-endian 16-bit field at offset `i` of `buf`.
pub fn read_le16(buf: &[u8], i: usize) -> (x: u16)
    requires
        i + 2 <= buf@.len(),
    ensures
        x == le16(buf@, i as int),
{
    let _n: usize = buf.len();
    let lo = buf[i];
    let hi = buf[i + 1];
    lo as u16 + 0x100 * (hi as u16)
}

/// Reads the little-endian 32-bit field at offset `i` of `buf`.
pub fn read_le32(buf: &[u8], i: usize) -> (x: u32)
    requires
        i + 4 <= buf@.len(),
    ensures
        x == le32(buf@, i as int),
{
    let _n: usize = buf.len();
    let b0 = buf[i] as u32;
    let b1 = buf[i + 1] as u32;
    let b2 = buf[i + 2] as u32;
    let b3 = buf[i + 3] as u32;
    b0 + 0x100 * b1 + 0x1_0000 * b2 + 0x100_0000 * b3
}

/// Reads the little-endian 64-bit field at offset `i` of `buf`.
pub fn read_le64(buf: &[u8], i: usize) -> (x: u64)
    requires
        i + 8 <= buf@.len(),
    ensures
        x == le64(buf@, i as int),
{
    let _n: usize = buf.len();
    let lo = read_le32(buf, i) as u64;
    let hi = read_le32(buf, i + 4) as u64;
    lo + 0x1_0000_0000 * hi
}

/// The fixed-size metadata header standing at the start of every record.
///
/// The descriptor and process-id fields are signed 32-bit on the wire; they
/// are held here as raw bit patterns, so the "no descriptor" value -1 appears
/// as `FAN_NOFD`.
#[allow(non_camel_case_types)]
pub struct fanotify_event_metadata {
    pub event_len: u32,
    pub vers: u8,
    pub reserved: u8,
    pub metadata_len: u16,
    pub mask: u64,
    pub fd: u32,
    pub pid: u32,
}

/// The metadata header encoded in the first `FAN_EVENT_METADATA_LEN` bytes
/// of `b`.
pub open spec fn hdr_of(b: Seq<u8>) -> fanotify_event_metadata
    recommends
        b.len() >= FAN_EVENT_METADATA_LEN,
{
    fanotify_event_metadata {
        event_len: le32(b, 0),
        vers: b[4],
        reserved: b[5],
        metadata_len: le16(b, 6),
        mask: le64(b, 8),
        fd: le32(b, 16),
        pid: le32(b, 20),
    }
}

/// Decodes the fixed metadata header found at offset `off` of `buf`.
pub fn parse_metadata(buf: &[u8], off: usize) -> (h: fanotify_event_metadata)
    requires
        off + FAN_EVENT_METADATA_LEN <= buf@.len(),
    ensures
        h == hdr_of(buf@.subrange(off as int, off as int + FAN_EVENT_METADATA_LEN as int)),
{
    let _n: usize = buf.len();
    let ghost b = buf@.subrange(off as int, off as int + FAN_EVENT_METADATA_LEN as int);
    let h = fanotify_event_metadata {
        event_len: read_le32(buf, off),
        vers: buf[off + 4],
        reserved: buf[off + 5],
        metadata_len: read_le16(buf, off + 6),
        mask: read_le64(buf, off + 8),
        fd: read_le32(buf, off + 16),
        pid: read_le32(buf, off + 20),
    };
    proof {
        assert(b.len() == FAN_EVENT_METADATA_LEN);
        assert forall|i: int| 0 <= i < FAN_EVENT_METADATA_LEN implies b[i] == buf@[off + i] by {}
        assert(h == hdr_of(b));
    }
    h
}

/// Two byte sequences agreeing on the fixed header's span carry the same
/// header.
pub proof fn lemma_hdr_prefix(a: Seq<u8>, b: Seq<u8>)
    requires
        a.len() >= FAN_EVENT_METADATA_LEN,
        b.len() >= FAN_EVENT_METADATA_LEN,
        forall|i: int| 0 <= i < FAN_EVENT_METADATA_LEN ==> a[i] == b[i],
    ensures
        hdr_of(a) == hdr_of(b),
{
    assert(le32(a, 0) == le32(b, 0));
    assert(le16(a, 6) == le16(b, 6));
    assert(le64(a, 8) == le64(b, 8));
    assert(le32(a, 16) == le32(b, 16));
    assert(le32(a, 20) == le32(b, 20));
}

/// The corrected record-boundary predicate: at least one fixed header fits in
/// the remaining bytes, the record's declared length covers at least the
/// fixed header, and the declared length does not run past the remaining
/// bytes.
pub open spec fn spec_fits(b: Seq<u8>) -> bool {
    &&& b.len() >= FAN_EVENT_METADATA_LEN
    &&& hdr_of(b).event_len >= FAN_EVENT_METADATA_LEN as u32
    &&& hdr_of(b).event_len as int <= b.len()
}

/// Decides whether the record declared by `meta` fits inside the `remaining`
/// unread bytes of the batch, so that the caller may keep walking.
///
/// A record whose declared length would run past the remaining bytes does
/// not fit: the walk must stop at it rather than read beyond the buffer.
pub fn fan_event_ok(meta: &fanotify_event_metadata, remaining: usize) -> (ok: bool)
    ensures
        ok == (remaining >= FAN_EVENT_METADATA_LEN && meta.event_len >= FAN_EVENT_METADATA_LEN
            as u32 && meta.event_len as int <= remaining as int),
{
    remaining >= FAN_EVENT_METADATA_LEN && meta.event_len as usize >= FAN_EVENT_METADATA_LEN
        && meta.event_len as usize <= remaining
}

/// The kind of info record that may follow the fixed metadata header.
#[allow(non_camel_case_types)]
#[derive(Clone, Copy, Debug, PartialEq, Eq, Structural)]
pub enum InfoType {
    FAN_EVENT_INFO_TYPE_FID,
    FAN_EVENT_INFO_TYPE_DFID_NAME,
    FAN_EVENT_INFO_TYPE_DFID,
    FAN_EVENT_INFO_TYPE_PIDFD,
    FAN_EVENT_INFO_TYPE_ERROR,
}

/// The info-type discriminant that `t` stands for on the wire.
pub open spec fn spec_info_type(t: InfoType) -> u8 {
    match t {
        InfoType::FAN_EVENT_INFO_TYPE_FID => 1,
        InfoType::FAN_EVENT_INFO_TYPE_DFID_NAME => 2,
        InfoType::FAN_EVENT_INFO_TYPE_DFID => 3,
        InfoType::FAN_EVENT_INFO_TYPE_PIDFD => 4,
        InfoType::FAN_EVENT_INFO_TYPE_ERROR => 5,
    }
}

impl InfoType {
    /// The info type declared by the wire byte `t`, or `None` when `t` names
    /// no recognized info-record type.
    pub fn from_wire(t: u8) -> (r: Option<InfoType>)
        ensures
            r matches Some(it) ==> spec_info_type(it) == t,
            r is None <==> !(1 <= t <= 5),
    {
        match t {
            1 => Some(InfoType::FAN_EVENT_INFO_TYPE_FID),
            2 => Some(InfoType::FAN_EVENT_INFO_TYPE_DFID_NAME),
            3 => Some(InfoType::FAN_EVENT_INFO_TYPE_DFID),
            4 => Some(InfoType::FAN_EVENT_INFO_TYPE_PIDFD),
            5 => Some(InfoType::FAN_EVENT_INFO_TYPE_ERROR),
            _ => None,
        }
    }
}

/// Variable-length info record header following the event metadata.
#[allow(non_camel_case_types)]
#[derive(Clone, Copy, Debug, PartialEq, Eq, Structural)]
pub struct fanotify_event_info_header {
    pub info_type: InfoType,
    pub pad: u8,
    pub len: u16,
}

/// Byte offset, within one record, of the info-record header.
pub const INFO_HDR_OFF: usize = 24;

/// Decodes the info-record header at offset `off` of `buf`: its type byte,
/// which must be recognized, its padding byte, and its declared length.
pub fn parse_info_header(buf: &[u8], off: usize) -> (r: Option<fanotify_event_info_header>)
    requires
        off + 4 <= buf@.len(),
    ensures
        r is Some <==> 1 <= buf@[off as int] <= 5,
        r matches Some(h) ==> spec_info_type(h.info_type) == buf@[off as int] && h.pad == buf@[off
            as int + 1] && h.len == le16(buf@, off as int + 2),
{
    let _n: usize = buf.len();
    match InfoType::from_wire(buf[off]) {
        None => None,
        Some(info_type) => Some(
            fanotify_event_info_header { info_type, pad: buf[off + 1], len: read_le16(buf, off + 2) },
        ),
    }
}

/// Byte offset, within one record, of the file handle's byte-count field:
/// info header (4 bytes) and filesystem id (8 bytes) stand before it.
pub const FILE_HANDLE_OFF: usize = 36;

/// Byte offset, within one record, of the file handle's trailing bytes:
/// the handle's byte count and type tag (4 bytes each) stand before them.
pub const HANDLE_BYTES_OFF: usize = 44;

/// Fixed head of the opaque file handle: a byte count and a type tag, with
/// `handle_bytes` trailing bytes following them on the wire. The type tag is
/// signed 32-bit on the wire and held here as a raw bit pattern.
#[allow(non_camel_case_types)]
#[derive(Clone, Copy, Debug, PartialEq, Eq, Structural)]
pub struct file_handle {
    pub handle_bytes: u32,
    pub handle_type: u32,
}

/// The file-handle head encoded at offset `i` of `b`.
pub open spec fn spec_file_handle(b: Seq<u8>, i: int) -> file_handle
    recommends
        0 <= i,
        i + 8 <= b.len(),
{
    file_handle { handle_bytes: le32(b, i), handle_type: le32(b, i + 4) }
}

/// Decodes the file-handle head at offset `off` of `buf`.
pub fn parse_file_handle(buf: &[u8], off: usize) -> (h: file_handle)
    requires
        off + 8 <= buf@.len(),
    ensures
        h == spec_file_handle(buf@, off as int),
{
    let _n: usize = buf.len();
    file_handle { handle_bytes: read_le32(buf, off), handle_type: read_le32(buf, off + 4) }
}

} // verus!
