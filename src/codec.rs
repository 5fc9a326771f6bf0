//! Decoding of one captured page record.
//!
//! A record is an 8-byte little-endian header (`url_len: u16`,
//! `title_len: u16`, `body_len: u32`) followed by the url, title and body
//! bytes. A record whose length disagrees with its header is rejected whole.
//! Title and body are capped; a field that is not valid UTF-8 decodes as the
//! empty text.
use vstd::prelude::*;
use vstd::slice::slice_subrange;

verus! {

/// Size of the fixed record header in bytes.
pub const HEADER_SIZE: usize = 8;

/// Longest title kept, in bytes; declared title bytes past it are skipped.
pub const MAX_TITLE_LEN: usize = 1024;

/// Longest body kept, in bytes; declared body bytes past it are skipped.
pub const MAX_BODY_LEN: usize = 51200;

/// The text that UTF-8 decoding yields for these bytes, or `None` when they
/// are not valid UTF-8.
pub uninterp spec fn utf8_decode(b: Seq<u8>) -> Option<Seq<char>>;

/// Relies on `std::str::from_utf8`: `Ok` with the decoded text exactly when
/// the bytes are valid UTF-8; the empty byte string is valid and empty.
#[verifier::external_body]
fn utf8_text(b: &[u8]) -> (r: Option<String>)
    ensures
        match r {
            Some(s) => utf8_decode(b@) == Some(s@),
            None => utf8_decode(b@) is None,
        },
        b@.len() == 0 ==> r is Some && r->Some_0@.len() == 0,
{
    match std::str::from_utf8(b) {
        Ok(s) => Some(String::from(s)),
        Err(_) => None,
    }
}

/// The text of a field: its UTF-8 decoding, or the empty text when the bytes
/// are not valid UTF-8.
pub open spec fn field_text(b: Seq<u8>) -> Seq<char> {
    match utf8_decode(b) {
        Some(s) => s,
        None => Seq::empty(),
    }
}

/// The fixed header at the start of a record.
#[derive(Clone, Copy, Debug, PartialEq, Eq)]
pub struct RawRecordHeader {
    pub url_len: u16,
    pub title_len: u16,
    pub body_len: u32,
}

/// Little-endian value of the two bytes at `i`.
pub open spec fn le16(b: Seq<u8>, i: int) -> nat {
    b[i] as nat + 256 * (b[i + 1] as nat)
}

/// Little-endian value of the four bytes at `i`.
pub open spec fn le32(b: Seq<u8>, i: int) -> nat {
    b[i] as nat + 256 * (b[i + 1] as nat) + 65536 * (b[i + 2] as nat) + 16777216 * (
    b[i + 3] as nat)
}

/// The header that the first `HEADER_SIZE` bytes of `b` spell.
pub open spec fn spec_header(b: Seq<u8>) -> RawRecordHeader {
    RawRecordHeader {
        url_len: le16(b, 0) as u16,
        title_len: le16(b, 2) as u16,
        body_len: le32(b, 4) as u32,
    }
}

impl RawRecordHeader {
    /// Length of a record with this header.
    pub open spec fn spec_expected_size(self) -> nat {
        HEADER_SIZE as nat + self.url_len as nat + self.title_len as nat + self.body_len as nat
    }

    /// Length of a record with this header.
    pub fn expected_size(&self) -> (r: u64)
        ensures
            r == self.spec_expected_size(),
    {
        HEADER_SIZE as u64 + self.url_len as u64 + self.title_len as u64 + self.body_len as u64
    }
}

/// Reads the header from the first `HEADER_SIZE` bytes of `b`.
pub fn read_header(b: &[u8]) -> (r: RawRecordHeader)
    requires
        b@.len() >= HEADER_SIZE,
    ensures
        r == spec_header(b@),
{
    let url_len: u16 = b[0] as u16 + 256 * (b[1] as u16);
    let title_len: u16 = b[2] as u16 + 256 * (b[3] as u16);
    let body_len: u32 = b[4] as u32 + 256 * (b[5] as u32) + 65536 * (b[6] as u32) + 16777216 * (
    b[7] as u32);
    RawRecordHeader { url_len, title_len, body_len }
}

/// The smaller of two naturals.
pub open spec fn min_nat(a: nat, b: nat) -> nat {
    if a <= b {
        a
    } else {
        b
    }
}

/// Start of the title bytes: right after the url.
pub open spec fn title_start(b: Seq<u8>) -> nat {
    HEADER_SIZE as nat + spec_header(b).url_len as nat
}

/// Start of the body bytes: after the full declared title, kept or not.
pub open spec fn body_start(b: Seq<u8>) -> nat {
    title_start(b) + spec_header(b).title_len as nat
}

/// The url bytes of a record.
pub open spec fn url_bytes(b: Seq<u8>) -> Seq<u8> {
    b.subrange(HEADER_SIZE as int, title_start(b) as int)
}

/// The title bytes kept from a record: at most `MAX_TITLE_LEN` of them.
pub open spec fn title_bytes(b: Seq<u8>) -> Seq<u8> {
    b.subrange(
        title_start(b) as int,
        (title_start(b) + min_nat(spec_header(b).title_len as nat, MAX_TITLE_LEN as nat)) as int,
    )
}

/// The body bytes kept from a record: at most `MAX_BODY_LEN` of them.
pub open spec fn body_bytes(b: Seq<u8>) -> Seq<u8> {
    b.subrange(
        body_start(b) as int,
        (body_start(b) + min_nat(spec_header(b).body_len as nat, MAX_BODY_LEN as nat)) as int,
    )
}

/// Why a buffer is not a record.
#[derive(Clone, Copy, Debug, PartialEq, Eq)]
pub enum RejectReason {
    /// Shorter than the header.
    Truncated,
    /// Its length is not the one its header declares.
    SizeMismatch { expected: u64, actual: usize },
}

/// A decoded page record.
#[derive(Clone, Debug, PartialEq, Eq)]
pub struct PageRecord {
    pub url: String,
    pub title: String,
    pub body: String,
}

/// The texts of a page record.
pub struct PageModel {
    pub url: Seq<char>,
    pub title: Seq<char>,
    pub body: Seq<char>,
}

impl View for PageRecord {
    type V = PageModel;

    open spec fn view(&self) -> PageModel {
        PageModel { url: self.url@, title: self.title@, body: self.body@ }
    }
}

/// What decoding the buffer `b` yields.
pub open spec fn spec_decode(b: Seq<u8>) -> Result<PageModel, RejectReason> {
    if b.len() < HEADER_SIZE {
        Err(RejectReason::Truncated)
    } else if b.len() != spec_header(b).spec_expected_size() {
        Err(
            RejectReason::SizeMismatch {
                expected: spec_header(b).spec_expected_size() as u64,
                actual: b.len() as usize,
            },
        )
    } else {
        Ok(
            PageModel {
                url: field_text(url_bytes(b)),
                title: field_text(title_bytes(b)),
                body: field_text(body_bytes(b)),
            },
        )
    }
}

/// The model of a decoding outcome.
pub open spec fn decode_view(r: Result<PageRecord, RejectReason>) -> Result<PageModel, RejectReason> {
    match r {
        Ok(p) => Ok(p@),
        Err(e) => Err(e),
    }
}

/// Decodes the text of one field; invalid UTF-8 gives the empty string.
fn field_of(b: &[u8]) -> (r: String)
    ensures
        r@ == field_text(b@),
{
    match utf8_text(b) {
        Some(s) => s,
        None => String::new(),
    }
}

/// Decodes a whole record buffer.
pub fn decode(buf: &[u8]) -> (r: Result<PageRecord, RejectReason>)
    ensures
        decode_view(r) == spec_decode(buf@),
{
    if buf.len() < HEADER_SIZE {
        return Err(RejectReason::Truncated);
    }
    let h = read_header(buf);
    let expected = h.expected_size();
    if buf.len() as u64 != expected {
        return Err(RejectReason::SizeMismatch { expected, actual: buf.len() });
    }
    let url_end: usize = HEADER_SIZE + h.url_len as usize;
    let title_keep: usize = if h.title_len as usize > MAX_TITLE_LEN {
        MAX_TITLE_LEN
    } else {
        h.title_len as usize
    };
    let body_begin: usize = url_end + h.title_len as usize;
    let body_keep: usize = if h.body_len as u64 > MAX_BODY_LEN as u64 {
        MAX_BODY_LEN
    } else {
        h.body_len as usize
    };
    let url = field_of(slice_subrange(buf, HEADER_SIZE, url_end));
    let title = field_of(slice_subrange(buf, url_end, url_end + title_keep));
    let body = field_of(slice_subrange(buf, body_begin, body_begin + body_keep));
    Ok(PageRecord { url, title, body })
}

/// A buffer whose length is the one its header declares decodes to a record
/// made of exactly its url range, its kept title range and its kept body
/// range, each decoded as text.
pub proof fn lemma_well_sized_decodes(b: Seq<u8>)
    requires
        b.len() >= HEADER_SIZE,
        b.len() == spec_header(b).spec_expected_size(),
    ensures
        spec_decode(b) is Ok,
        spec_decode(b)->Ok_0.url == field_text(url_bytes(b)),
        spec_decode(b)->Ok_0.title == field_text(title_bytes(b)),
        spec_decode(b)->Ok_0.body == field_text(body_bytes(b)),
        url_bytes(b) == b.subrange(8, 8 + spec_header(b).url_len),
        title_bytes(b) == b.subrange(
            8 + spec_header(b).url_len,
            8 + spec_header(b).url_len + min_nat(spec_header(b).title_len as nat, 1024),
        ),
        body_bytes(b) == b.subrange(
            8 + spec_header(b).url_len + spec_header(b).title_len,
            8 + spec_header(b).url_len + spec_header(b).title_len + min_nat(
                spec_header(b).body_len as nat,
                51200,
            ),
        ),
        body_start(b) + min_nat(spec_header(b).body_len as nat, MAX_BODY_LEN as nat) <= b.len(),
{
}

/// A buffer at least as long as the header whose length differs from the
/// declared one is rejected with the declared and the actual size, and
/// yields no record.
pub proof fn lemma_size_mismatch_rejected(b: Seq<u8>)
    requires
        b.len() >= HEADER_SIZE,
        b.len() != spec_header(b).spec_expected_size(),
    ensures
        spec_decode(b) == Err::<PageModel, RejectReason>(
            RejectReason::SizeMismatch {
                expected: spec_header(b).spec_expected_size() as u64,
                actual: b.len() as usize,
            },
        ),
{
}

/// A title declared longer than `MAX_TITLE_LEN` keeps exactly
/// `MAX_TITLE_LEN` bytes, and a body declared longer than `MAX_BODY_LEN`
/// keeps exactly `MAX_BODY_LEN` bytes.
pub proof fn lemma_truncation_caps(b: Seq<u8>)
    requires
        b.len() >= HEADER_SIZE,
        b.len() == spec_header(b).spec_expected_size(),
    ensures
        spec_header(b).title_len > MAX_TITLE_LEN ==> title_bytes(b).len() == MAX_TITLE_LEN,
        spec_header(b).title_len <= MAX_TITLE_LEN ==> title_bytes(b).len()
            == spec_header(b).title_len,
        spec_header(b).body_len > MAX_BODY_LEN ==> body_bytes(b).len() == MAX_BODY_LEN,
        spec_header(b).body_len <= MAX_BODY_LEN ==> body_bytes(b).len()
            == spec_header(b).body_len,
        spec_decode(b)->Ok_0.title == field_text(title_bytes(b)),
        spec_decode(b)->Ok_0.body == field_text(body_bytes(b)),
{
}

/// Decoding depends on the bytes alone: equal buffers decode alike.
pub proof fn lemma_decode_deterministic(a: Seq<u8>, b: Seq<u8>)
    requires
        a == b,
    ensures
        spec_decode(a) == spec_decode(b),
{
}

} // verus!
