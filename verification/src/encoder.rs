//! Writing fSpy project files.
use crate::buffer::{bytes_contents, bytes_extend_from_slice};
use crate::fspy_format::{fspy_file, FSPY_HEADER_LEN, FSPY_MAGIC, FSPY_VERSION};
use tokio_util::bytes::BytesMut;
use vstd::bytes::*;
use vstd::prelude::*;

verus! {

/// Why an fSpy file could not be written.
#[derive(Debug, Clone, Copy, PartialEq, Eq, Structural)]
pub enum EncodeError {
    /// The scene data or the image is longer than a `u32` can count.
    LengthOverflow,
}

/// Writes fSpy files.
pub struct FSpyEncoder {}

impl Default for FSpyEncoder {
    fn default() -> (encoder: Self) {
        FSpyEncoder {}
    }
}

impl FSpyEncoder {
    /// Appends to `dst` an fSpy file that holds the serialized scene settings
    /// `data` and the image `image`.
    ///
    /// The header is written field by field; when a length does not fit in a
    /// `u32`, the fields already written stay in `dst` and the error is returned.
    pub fn encode(&mut self, data: &[u8], image: &[u8], dst: &mut BytesMut) -> (res: Result<
        (),
        EncodeError,
    >)
        requires
            bytes_contents(*old(dst)).len() + FSPY_HEADER_LEN + data@.len() + image@.len()
                <= isize::MAX,
        ensures
            res is Ok <==> (data@.len() <= u32::MAX && image@.len() <= u32::MAX),
            res is Ok ==> bytes_contents(*final(dst)) == bytes_contents(*old(dst)) + fspy_file(
                data@,
                image@,
            ),
            data@.len() > u32::MAX ==> bytes_contents(*final(dst)) == bytes_contents(*old(dst))
                + spec_u32_to_le_bytes(FSPY_MAGIC) + spec_u32_to_le_bytes(FSPY_VERSION),
            data@.len() <= u32::MAX && image@.len() > u32::MAX ==> bytes_contents(*final(dst))
                == bytes_contents(*old(dst)) + spec_u32_to_le_bytes(FSPY_MAGIC)
                + spec_u32_to_le_bytes(FSPY_VERSION) + spec_u32_to_le_bytes(data@.len() as u32),
    {
        proof {
            lemma_auto_spec_u32_to_from_le_bytes();
        }
        let ghost start = bytes_contents(*dst);
        let magic = u32_to_le_bytes(FSPY_MAGIC);
        let version = u32_to_le_bytes(FSPY_VERSION);
        bytes_extend_from_slice(dst, magic.as_slice());
        bytes_extend_from_slice(dst, version.as_slice());
        if data.len() > 0xffff_ffff {
            return Err(EncodeError::LengthOverflow);
        }
        let data_len = u32_to_le_bytes(data.len() as u32);
        bytes_extend_from_slice(dst, data_len.as_slice());
        if image.len() > 0xffff_ffff {
            return Err(EncodeError::LengthOverflow);
        }
        let image_len = u32_to_le_bytes(image.len() as u32);
        bytes_extend_from_slice(dst, image_len.as_slice());
        bytes_extend_from_slice(dst, data);
        bytes_extend_from_slice(dst, image);
        assert(bytes_contents(*dst) =~= start + fspy_file(data@, image@));
        Ok(())
    }
}

} // verus!
