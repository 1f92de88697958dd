//! Reading fSpy project files from a stream of bytes.
use crate::buffer::{bytes_contents, bytes_copy_to_vec, bytes_len};
use crate::fspy_format::{fspy_file, fspy_header, lemma_header_fields, u32_at, FSPY_HEADER_LEN};
use crate::model::Reading;
use tokio_util::bytes::BytesMut;
use vstd::bytes::u32_from_le_bytes;
use vstd::prelude::*;
use vstd::slice::slice_subrange;

verus! {

/// What the decoder knows about the file it is reading.
#[derive(Debug, Clone, Copy, PartialEq, Eq, Structural)]
pub struct DecoderState {
    /// Length of the scene data, as given by the header.
    pub data_length: usize,
    /// Length of the image, as given by the header.
    pub image_length: usize,
    /// The part of the file expected next.
    pub current: Reading,
}

/// A part of an fSpy file that the decoder has taken out of the stream.
#[derive(Debug)]
pub enum Decoded {
    /// The serialized scene settings; the caller parses them and then calls
    /// [`FSpyDecoder::data_parsed`].
    Data(Vec<u8>),
    /// The image, which completes the file.
    Image(Vec<u8>),
}

/// [`Decoded`] with its bytes as a sequence.
pub enum DecodedView {
    Data(Seq<u8>),
    Image(Seq<u8>),
}

impl View for Decoded {
    type V = DecodedView;

    open spec fn view(&self) -> DecodedView {
        match self {
            Decoded::Data(d) => DecodedView::Data(d@),
            Decoded::Image(i) => DecodedView::Image(i@),
        }
    }
}

/// The view of an optional decoded part.
pub open spec fn decoded_view(d: Option<Decoded>) -> Option<DecodedView> {
    match d {
        Some(d) => Some(d@),
        None => None,
    }
}

/// The state a decoder starts in.
pub open spec fn initial_decoder_state() -> DecoderState {
    DecoderState { data_length: 0, image_length: 0, current: Reading::Header }
}

/// One call of the decoder in state `s` on the buffered bytes `buf`: the next
/// state, the bytes left in the buffer, and the part taken out, if any.
///
/// Expecting the header, it waits for 16 bytes, takes them, records the two
/// lengths and expects the scene data; the data is taken in the same call when
/// more bytes than its length are buffered. Expecting the image, it takes it
/// once that many bytes are buffered, and keeps expecting an image.
pub open spec fn decode_next(s: DecoderState, buf: Seq<u8>) -> (DecoderState, Seq<u8>, Option<
    DecodedView,
>) {
    match s.current {
        Reading::Header => {
            if buf.len() < FSPY_HEADER_LEN {
                (s, buf, None)
            } else {
                let data_length = u32_at(buf, 8) as usize;
                let image_length = u32_at(buf, 12) as usize;
                let rest = buf.skip(FSPY_HEADER_LEN as int);
                let next = DecoderState { data_length, image_length, current: Reading::Data };
                if rest.len() > data_length {
                    (
                        next,
                        rest.skip(data_length as int),
                        Some(DecodedView::Data(rest.take(data_length as int))),
                    )
                } else {
                    (next, rest, None)
                }
            }
        },
        Reading::Data => (s, buf, None),
        Reading::Image => {
            if buf.len() >= s.image_length {
                (
                    s,
                    buf.skip(s.image_length as int),
                    Some(DecodedView::Image(buf.take(s.image_length as int))),
                )
            } else {
                (s, buf, None)
            }
        },
    }
}

/// The state after the caller has parsed the scene data.
pub open spec fn after_data_parsed(s: DecoderState) -> DecoderState {
    DecoderState { current: Reading::Image, ..s }
}

/// What an encoder writes, a decoder reads back: from a fresh decoder and a
/// buffer that holds an fSpy file followed by any further bytes, the first call
/// hands out the scene data, and once that data is reported parsed, the second
/// call hands out the image and leaves exactly the further bytes. The file must
/// be followed by at least one byte when its image is empty, since the first
/// call takes the scene data only when more bytes than its length follow the
/// header.
pub proof fn lemma_decode_reads_back_encoded(data: Seq<u8>, image: Seq<u8>, rest: Seq<u8>)
    requires
        data.len() <= u32::MAX,
        image.len() <= u32::MAX,
        image.len() + rest.len() > 0,
    ensures
        ({
            let (s1, buf1, out1) = decode_next(initial_decoder_state(), fspy_file(data, image) + rest);
            let (s2, buf2, out2) = decode_next(after_data_parsed(s1), buf1);
            &&& s1.current == Reading::Data
            &&& out1 == Some(DecodedView::Data(data))
            &&& out2 == Some(DecodedView::Image(image))
            &&& s2.current == Reading::Image
            &&& buf2 == rest
        }),
{
    let header = fspy_header(data.len() as u32, image.len() as u32);
    lemma_header_fields(data.len() as u32, image.len() as u32);
    let buf = fspy_file(data, image) + rest;
    assert(buf.subrange(8, 12) =~= header.subrange(8, 12));
    assert(buf.subrange(12, 16) =~= header.subrange(12, 16));
    assert(u32_at(buf, 8) == data.len());
    assert(u32_at(buf, 12) == image.len());
    let after_header = buf.skip(FSPY_HEADER_LEN as int);
    assert(after_header =~= data + image + rest);
    assert(after_header.take(data.len() as int) =~= data);
    let after_data = after_header.skip(data.len() as int);
    assert(after_data =~= image + rest);
    assert(after_data.take(image.len() as int) =~= image);
    assert(after_data.skip(image.len() as int) =~= rest);
}

/// Reads fSpy files: first the header and the scene data, then the image.
pub struct FSpyDecoder {
    data_length: usize,
    image_length: usize,
    current: Reading,
}

impl View for FSpyDecoder {
    type V = DecoderState;

    closed spec fn view(&self) -> DecoderState {
        DecoderState {
            data_length: self.data_length,
            image_length: self.image_length,
            current: self.current,
        }
    }
}

impl Default for FSpyDecoder {
    fn default() -> (decoder: Self)
        ensures
            decoder@ == initial_decoder_state(),
    {
        FSpyDecoder { data_length: 0, image_length: 0, current: Reading::Header }
    }
}

impl FSpyDecoder {
    /// The decoder's state.
    pub fn state(&self) -> (s: DecoderState)
        ensures
            s == self@,
    {
        DecoderState {
            data_length: self.data_length,
            image_length: self.image_length,
            current: self.current,
        }
    }

    /// Takes the next part of an fSpy file out of `src`, as [`decode_next`] says.
    ///
    /// A decoder that expects the scene data has nothing it can do: the caller
    /// either reports that the data it was handed is parsed, or stops.
    pub fn decode(&mut self, src: &mut BytesMut) -> (res: Option<Decoded>)
        requires
            old(self)@.current != Reading::Data,
        ensures
            decode_next(old(self)@, bytes_contents(*old(src))) == (
                final(self)@,
                bytes_contents(*final(src)),
                decoded_view(res),
            ),
    {
        let ghost buf = bytes_contents(*src);
        match self.current {
            Reading::Header => {
                if bytes_len(src) >= FSPY_HEADER_LEN {
                    let header = bytes_copy_to_vec(src, FSPY_HEADER_LEN);
                    let data_length_bytes = slice_subrange(header.as_slice(), 8, 12);
                    let image_length_bytes = slice_subrange(header.as_slice(), 12, 16);
                    assert(data_length_bytes@ =~= buf.subrange(8, 12));
                    assert(image_length_bytes@ =~= buf.subrange(12, 16));
                    self.data_length = u32_from_le_bytes(data_length_bytes) as usize;
                    self.image_length = u32_from_le_bytes(image_length_bytes) as usize;
                    self.current = Reading::Data;
                    if bytes_len(src) > self.data_length {
                        let data = bytes_copy_to_vec(src, self.data_length);
                        return Some(Decoded::Data(data));
                    }
                }
                None
            },
            Reading::Data => None,
            Reading::Image => {
                if bytes_len(src) >= self.image_length {
                    let image = bytes_copy_to_vec(src, self.image_length);
                    return Some(Decoded::Image(image));
                }
                None
            },
        }
    }

    /// Records that the scene data handed out by [`FSpyDecoder::decode`] was
    /// parsed; the decoder then expects the image.
    pub fn data_parsed(&mut self)
        requires
            old(self)@.current == Reading::Data,
        ensures
            final(self)@ == after_data_parsed(old(self)@),
    {
        self.current = Reading::Image;
    }
}

} // verus!
