//! Layout of an fSpy project file: a 16 byte header (magic, version, length of
//! the scene data, length of the image, each a little-endian `u32`), the scene
//! data and the image.
use vstd::bytes::*;
use vstd::prelude::*;

verus! {

/// The magic number that opens every fSpy file, the bytes `fspy`.
pub const FSPY_MAGIC: u32 = 2037412710;

/// The version of the container written here.
pub const FSPY_VERSION: u32 = 1;

/// The number of bytes in the header.
pub const FSPY_HEADER_LEN: usize = 16;

/// The header for scene data of `data_len` bytes and an image of `image_len` bytes.
pub open spec fn fspy_header(data_len: u32, image_len: u32) -> Seq<u8> {
    spec_u32_to_le_bytes(FSPY_MAGIC) + spec_u32_to_le_bytes(FSPY_VERSION) + spec_u32_to_le_bytes(
        data_len,
    ) + spec_u32_to_le_bytes(image_len)
}

/// A whole fSpy file holding `data` and `image`.
pub open spec fn fspy_file(data: Seq<u8>, image: Seq<u8>) -> Seq<u8>
    recommends
        data.len() <= u32::MAX,
        image.len() <= u32::MAX,
{
    fspy_header(data.len() as u32, image.len() as u32) + data + image
}

/// The little-endian `u32` stored at `at..at + 4` in `bytes`.
pub open spec fn u32_at(bytes: Seq<u8>, at: int) -> u32 {
    spec_u32_from_le_bytes(bytes.subrange(at, at + 4))
}

/// Every header is 16 bytes long and gives back the two lengths it was made with.
pub proof fn lemma_header_fields(data_len: u32, image_len: u32)
    ensures
        fspy_header(data_len, image_len).len() == FSPY_HEADER_LEN,
        u32_at(fspy_header(data_len, image_len), 0) == FSPY_MAGIC,
        u32_at(fspy_header(data_len, image_len), 4) == FSPY_VERSION,
        u32_at(fspy_header(data_len, image_len), 8) == data_len,
        u32_at(fspy_header(data_len, image_len), 12) == image_len,
{
    lemma_auto_spec_u32_to_from_le_bytes();
    let h = fspy_header(data_len, image_len);
    assert(h.subrange(0, 4) =~= spec_u32_to_le_bytes(FSPY_MAGIC));
    assert(h.subrange(4, 8) =~= spec_u32_to_le_bytes(FSPY_VERSION));
    assert(h.subrange(8, 12) =~= spec_u32_to_le_bytes(data_len));
    assert(h.subrange(12, 16) =~= spec_u32_to_le_bytes(image_len));
}

} // verus!
