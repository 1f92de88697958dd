use perspective::decoder::{Decoded, FSpyDecoder};
use perspective::encoder::FSpyEncoder;
use perspective::model::Reading;
use tokio_util::bytes::BytesMut;

fn encoded(data: &[u8], image: &[u8]) -> BytesMut {
    let mut dst = BytesMut::new();
    let mut encoder = FSpyEncoder::default();
    encoder.encode(data, image, &mut dst).unwrap();
    dst
}

#[test]
fn encode_writes_header_data_and_image() {
    let dst = encoded(b"{}", &[7, 8, 9]);
    let expected: Vec<u8> = vec![
        0x66, 0x73, 0x70, 0x79, // "fspy"
        1, 0, 0, 0, // version
        2, 0, 0, 0, // data length
        3, 0, 0, 0, // image length
        b'{', b'}', 7, 8, 9,
    ];
    assert_eq!(&dst[..], &expected[..]);
}

#[test]
fn encode_appends_after_existing_bytes() {
    let mut dst = BytesMut::from(&[0xAAu8, 0xBB][..]);
    FSpyEncoder::default().encode(b"x", b"", &mut dst).unwrap();
    assert_eq!(dst.len(), 2 + 16 + 1);
    assert_eq!(&dst[..2], &[0xAA, 0xBB]);
    assert_eq!(&dst[2..6], b"fspy");
    assert_eq!(dst[18], b'x');
}

#[test]
fn decode_reads_back_what_was_encoded() {
    let data = br#"{"a":1}"#;
    let image = [1u8, 2, 3, 4, 5];
    let mut src = encoded(data, &image);
    src.extend_from_slice(&[42, 43]);
    let mut decoder = FSpyDecoder::default();
    match decoder.decode(&mut src) {
        Some(Decoded::Data(d)) => assert_eq!(d, data.to_vec()),
        other => panic!("expected data, got {:?}", other),
    }
    assert_eq!(decoder.state().current, Reading::Data);
    assert_eq!(decoder.state().data_length, data.len());
    assert_eq!(decoder.state().image_length, image.len());
    decoder.data_parsed();
    assert_eq!(decoder.state().current, Reading::Image);
    match decoder.decode(&mut src) {
        Some(Decoded::Image(i)) => assert_eq!(i, image.to_vec()),
        other => panic!("expected image, got {:?}", other),
    }
    assert_eq!(&src[..], &[42, 43]);
}

#[test]
fn decode_waits_for_a_whole_header() {
    let full = encoded(b"{}", &[1]);
    let mut src = BytesMut::from(&full[..15]);
    let mut decoder = FSpyDecoder::default();
    assert!(decoder.decode(&mut src).is_none());
    assert_eq!(src.len(), 15);
    assert_eq!(decoder.state().current, Reading::Header);
}

#[test]
fn decode_consumes_header_before_data_arrives() {
    let full = encoded(b"{\"k\":2}", &[1]);
    let mut src = BytesMut::from(&full[..18]);
    let mut decoder = FSpyDecoder::default();
    assert!(decoder.decode(&mut src).is_none());
    assert_eq!(src.len(), 2);
    assert_eq!(decoder.state().current, Reading::Data);
    assert_eq!(decoder.state().data_length, 7);
}

#[test]
fn decode_needs_a_byte_after_the_data() {
    let mut src = encoded(b"{}", b"");
    let mut decoder = FSpyDecoder::default();
    assert!(decoder.decode(&mut src).is_none());
    assert_eq!(decoder.state().current, Reading::Data);
    assert_eq!(src.len(), 2);
}

#[test]
fn decode_waits_for_the_whole_image() {
    let full = encoded(b"{}", &[9, 9, 9, 9]);
    let mut src = BytesMut::from(&full[..20]);
    let mut decoder = FSpyDecoder::default();
    assert!(matches!(decoder.decode(&mut src), Some(Decoded::Data(_))));
    decoder.data_parsed();
    assert!(decoder.decode(&mut src).is_none());
    assert_eq!(src.len(), 2);
    src.extend_from_slice(&full[20..]);
    match decoder.decode(&mut src) {
        Some(Decoded::Image(i)) => assert_eq!(i, vec![9, 9, 9, 9]),
        other => panic!("expected image, got {:?}", other),
    }
    assert_eq!(src.len(), 0);
}

#[test]
fn decode_reads_lengths_little_endian() {
    let mut src = BytesMut::new();
    src.extend_from_slice(&[0, 0, 0, 0, 0, 0, 0, 0]);
    src.extend_from_slice(&[0x01, 0x01, 0, 0]);
    src.extend_from_slice(&[0x02, 0, 0x01, 0]);
    let mut decoder = FSpyDecoder::default();
    assert!(decoder.decode(&mut src).is_none());
    assert_eq!(decoder.state().data_length, 257);
    assert_eq!(decoder.state().image_length, 65538);
}
