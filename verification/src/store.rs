//! The stored form of the settings record and of the track cache: a
//! serialised value, compressed as one zstd frame.

use vstd::prelude::*;

verus! {

/// The compression level of stored blobs.
pub const COMPRESSION_LEVEL: i32 = 9;

/// Why a value could not be stored.
#[derive(Copy, Clone, Debug, PartialEq, Eq, Structural)]
pub enum StoreError {
    /// The compressor reported an error.
    Compression,
}

#[verifier::external_type_specification]
#[verifier::external_body]
pub struct ExIoError(std::io::Error);

/// The zstd frame that compressing `data` at `level` gives.
pub uninterp spec fn compressed(data: Seq<u8>, level: i32) -> Seq<u8>;

/// What decompressing `blob` gives; none where `blob` is not a sound run of
/// zstd frames.
pub uninterp spec fn unpacked(blob: Seq<u8>) -> Option<Seq<u8>>;

/// Compresses `data` at `level`.
///
/// Trusted: `zstd::stream::copy_encode` from a slice into a vector. It
/// brings a level out of range to the nearest one in range, and has no
/// error to report on bytes that it reads from memory and writes to memory.
/// What it writes depends on the bytes and the level alone, and is a zstd
/// frame that decompresses to `data` again.
#[verifier::external_body]
fn zstd_encode(data: &[u8], level: i32) -> (blob: Result<Vec<u8>, std::io::Error>)
    ensures
        blob.is_ok(),
        blob matches Ok(b) ==> b@ == compressed(data@, level),
        blob matches Ok(b) ==> unpacked(b@) == Some(data@),
{
    let mut blob = Vec::new();
    zstd::stream::copy_encode(data, &mut blob, level)?;
    Ok(blob)
}

/// Decompresses `blob`.
///
/// Trusted: `zstd::stream::copy_decode` from a slice into a vector. Whether
/// it succeeds, and what it writes, depend on the bytes alone.
#[verifier::external_body]
fn zstd_decode(blob: &[u8]) -> (data: Result<Vec<u8>, std::io::Error>)
    ensures
        match data {
            Ok(d) => unpacked(blob@) == Some(d@),
            Err(_) => unpacked(blob@).is_none(),
        },
{
    let mut data = Vec::new();
    zstd::stream::copy_decode(blob, &mut data)?;
    Ok(data)
}

/// The bytes that were read from a file, if any.
pub open spec fn bytes_of(file: Option<Vec<u8>>) -> Option<Seq<u8>> {
    match file {
        Some(bytes) => Some(bytes@),
        None => None,
    }
}

/// What reading a stored file gives: its unpacked content, where the file
/// is there and sound.
pub open spec fn stored_content(file: Option<Seq<u8>>) -> Option<Seq<u8>> {
    match file {
        Some(blob) => unpacked(blob),
        None => None,
    }
}

/// Compresses a serialised value for storing, at [`COMPRESSION_LEVEL`].
/// Every value is packed. What comes out unpacks to `data` again, and so
/// does a file that holds it.
pub fn pack(data: &[u8]) -> (blob: Result<Vec<u8>, StoreError>)
    ensures
        blob matches Ok(b) && b@ == compressed(data@, COMPRESSION_LEVEL) && unpacked(b@) == Some(
            data@,
        ) && stored_content(Some(b@)) == Some(data@),
{
    packed(zstd_encode(data, COMPRESSION_LEVEL))
}

/// Hands on what the compressor gave: the frame as it is, and any error of
/// the compressor as [`StoreError::Compression`].
pub fn packed(outcome: Result<Vec<u8>, std::io::Error>) -> (blob: Result<Vec<u8>, StoreError>)
    ensures
        match outcome {
            Ok(frame) => blob == Ok::<Vec<u8>, StoreError>(frame),
            Err(_) => blob == Err::<Vec<u8>, StoreError>(StoreError::Compression),
        },
{
    match outcome {
        Ok(frame) => Ok(frame),
        Err(_) => Err(StoreError::Compression),
    }
}

/// Decompresses a stored blob; none where it is damaged.
pub fn unpack(blob: &[u8]) -> (data: Option<Vec<u8>>)
    ensures
        bytes_of(data) == unpacked(blob@),
{
    match zstd_decode(blob) {
        Ok(data) => Some(data),
        Err(_) => None,
    }
}

/// Unpacks what was read from a stored file; `file` is none where the file
/// is absent or cannot be read. None comes back in that case, and where
/// the content is damaged.
pub fn read_stored(file: Option<Vec<u8>>) -> (data: Option<Vec<u8>>)
    ensures
        bytes_of(data) == stored_content(bytes_of(file)),
{
    match file {
        Some(blob) => unpack(blob.as_slice()),
        None => None,
    }
}

} // verus!
