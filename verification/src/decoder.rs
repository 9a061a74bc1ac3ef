//! The body of an upload: a length and that many bytes of metadata, then a
//! length and that many bytes of archive. Both lengths are 32 bits wide,
//! low byte first.

use vstd::prelude::*;
use vstd::slice::*;

verus! {

/// The number that four bytes from `at` on stand for, low byte first.
pub open spec fn length_at(body: Seq<u8>, at: int) -> int {
    body[at] as int + 256 * (body[at + 1] as int) + 65536 * (body[at + 2] as int) + 16777216 * (
    body[at + 3] as int)
}

/// The two parts of an upload.
pub struct PublishBody<'a> {
    /// The metadata, as JSON text in UTF-8.
    pub metadata: &'a [u8],
    /// The archive.
    pub blob: &'a [u8],
}

impl<'a> PublishBody<'a> {
    /// The checksum of the archive, as the index is to record it.
    pub fn checksum(&self) -> (cksum: String)
        ensures
            cksum@ == crate::digest::checksum_of(self.blob@),
    {
        crate::digest::checksum(self.blob)
    }
}

/// An upload that breaks off before its parts are complete.
#[derive(Debug, Clone, Copy, PartialEq, Eq, Structural)]
pub enum DecodeError {
    /// The body ends before a length, or before the bytes that a length
    /// announces.
    BodyTooShort,
}

impl DecodeError {
    /// The family of this failure.
    pub fn kind(self) -> (kind: crate::error::ErrorKind)
        ensures
            kind == crate::error::ErrorKind::Validation,
    {
        crate::error::ErrorKind::Validation
    }

    /// The HTTP status that answers it.
    pub fn status(self) -> (status: u16)
        ensures
            status == 400,
    {
        400
    }

    /// The detail that the answer carries.
    pub fn message(self) -> (message: String)
        ensures
            message@ == "body too short"@,
    {
        "body too short".to_owned()
    }
}

/// Where the parts of a body lie: the metadata begins at 4 and ends before
/// `metadata_end`, the archive begins four bytes after that and ends before
/// `blob_end`.
pub struct Layout {
    pub metadata_end: int,
    pub blob_end: int,
}

/// The layout of a body, where it holds both parts whole. Bytes after the
/// archive are not looked at.
pub open spec fn layout_of(body: Seq<u8>) -> Option<Layout> {
    if body.len() < 4 {
        None
    } else {
        let metadata_end = 4 + length_at(body, 0);
        if body.len() < metadata_end + 4 {
            None
        } else {
            let blob_end = metadata_end + 4 + length_at(body, metadata_end);
            if body.len() < blob_end {
                None
            } else {
                Some(Layout { metadata_end, blob_end })
            }
        }
    }
}

/// The length of a part, written in four bytes.
pub open spec fn length_bytes(length: int) -> Seq<u8> {
    seq![
        (length % 256) as u8,
        ((length / 256) % 256) as u8,
        ((length / 65536) % 256) as u8,
        ((length / 16777216) % 256) as u8,
    ]
}

/// The body that carries the given metadata and archive.
pub open spec fn body_of(metadata: Seq<u8>, blob: Seq<u8>) -> Seq<u8> {
    length_bytes(metadata.len() as int) + metadata + length_bytes(blob.len() as int) + blob
}

fn read_length(body: &[u8], at: usize) -> (length: u64)
    requires
        at + 4 <= body@.len(),
    ensures
        length == length_at(body@, at as int),
        length < 0x1_0000_0000,
{
    let b0: u64 = body[at] as u64;
    let b1: u64 = body[at + 1] as u64;
    let b2: u64 = body[at + 2] as u64;
    let b3: u64 = body[at + 3] as u64;
    b0 + 256 * b1 + 65536 * b2 + 16777216 * b3
}

/// Takes an upload apart. Every length is checked against the bytes that are
/// there before anything is read or cut.
pub fn decode_publish_body<'a>(body: &'a [u8]) -> (decoded: Result<PublishBody<'a>, DecodeError>)
    ensures
        match decoded {
            Ok(parts) => {
                &&& layout_of(body@) matches Some(layout)
                &&& parts.metadata@ == body@.subrange(4, layout.metadata_end)
                &&& parts.blob@ == body@.subrange(layout.metadata_end + 4, layout.blob_end)
            },
            Err(error) => layout_of(body@) is None && error == DecodeError::BodyTooShort,
        },
{
    let total: u64 = body.len() as u64;
    if total < 4 {
        return Err(DecodeError::BodyTooShort);
    }
    let metadata_end: u64 = 4 + read_length(body, 0);
    if total < metadata_end + 4 {
        return Err(DecodeError::BodyTooShort);
    }
    let blob_start: u64 = metadata_end + 4;
    let blob_end: u64 = blob_start + read_length(body, metadata_end as usize);
    if total < blob_end {
        return Err(DecodeError::BodyTooShort);
    }
    let metadata = slice_subrange(body, 4, metadata_end as usize);
    let blob = slice_subrange(body, blob_start as usize, blob_end as usize);
    Ok(PublishBody { metadata, blob })
}

/// A body is taken apart into the parts it was put together from, as long
/// as each part's length fits its four bytes.
pub proof fn law_decode_inverts_body(metadata: Seq<u8>, blob: Seq<u8>)
    requires
        metadata.len() < 0x1_0000_0000,
        blob.len() < 0x1_0000_0000,
    ensures
        layout_of(body_of(metadata, blob)) == Some(
            Layout {
                metadata_end: 4 + metadata.len() as int,
                blob_end: 4 + metadata.len() as int + 4 + blob.len() as int,
            },
        ),
        body_of(metadata, blob).subrange(4, 4 + metadata.len() as int) == metadata,
        body_of(metadata, blob).subrange(
            4 + metadata.len() as int + 4,
            4 + metadata.len() as int + 4 + blob.len() as int,
        ) == blob,
{
    let body = body_of(metadata, blob);
    let m = metadata.len() as int;
    let b = blob.len() as int;
    lemma_length_round_trip(m);
    lemma_length_round_trip(b);
    assert(body.len() == 4 + m + 4 + b);
    assert(body[0] == length_bytes(m)[0]);
    assert(body[1] == length_bytes(m)[1]);
    assert(body[2] == length_bytes(m)[2]);
    assert(body[3] == length_bytes(m)[3]);
    assert(body[4 + m] == length_bytes(b)[0]);
    assert(body[4 + m + 1] == length_bytes(b)[1]);
    assert(body[4 + m + 2] == length_bytes(b)[2]);
    assert(body[4 + m + 3] == length_bytes(b)[3]);
    assert(length_at(body, 0) == m);
    assert(length_at(body, 4 + m) == b);
    assert(body.subrange(4, 4 + m) =~= metadata);
    assert(body.subrange(4 + m + 4, 4 + m + 4 + b) =~= blob);
}

/// Four bytes hold every length below 2^32.
pub proof fn lemma_length_round_trip(length: int)
    requires
        0 <= length < 0x1_0000_0000,
    ensures
        length_at(length_bytes(length), 0) == length,
{
    let bytes = length_bytes(length);
    assert(bytes[0] as int == length % 256);
    assert(bytes[1] as int == (length / 256) % 256);
    assert(bytes[2] as int == (length / 65536) % 256);
    assert(bytes[3] as int == (length / 16777216) % 256);
}

} // verus!
