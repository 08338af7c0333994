use rafinfo::binary::{BufBinaryReader, Endian, Fault, FromBinary, ReadError};
use rafinfo::exif::ByteOrder;
use rafinfo::raf::{Raf, RafImageSequenceContainer, RafMetadataContainer, RafMetadataItem, RafMetadataType};
use rafinfo::tags::RafMetadataTag;

fn record(tag: u16, payload: &[u8]) -> Vec<u8> {
    let mut v = tag.to_be_bytes().to_vec();
    v.extend_from_slice(&(payload.len() as u16).to_be_bytes());
    v.extend_from_slice(payload);
    v
}

fn metadata_block(records: &[Vec<u8>]) -> Vec<u8> {
    let mut v = (records.len() as u32).to_be_bytes().to_vec();
    for r in records {
        v.extend_from_slice(r);
    }
    v
}

fn jpeg_with_exif() -> Vec<u8> {
    let mut v = vec![0xFF, 0xD8, 0xFF, 0xE1, 0x00, 0x10];
    v.extend_from_slice(b"Exif\0\0");
    v.extend_from_slice(b"II*\0");
    v.extend_from_slice(&[0x08, 0x00, 0x00, 0x00, 0x00, 0x00]);
    v
}

fn put_u32(buf: &mut [u8], at: usize, value: u32) {
    buf[at..at + 4].copy_from_slice(&value.to_be_bytes());
}

/// A RAF with the given camera name bytes, optional image-sequence block
/// (placed right after the header) and metadata records.
fn raf_file(camera: &[u8], sequence: Option<Vec<u8>>, records: &[Vec<u8>]) -> Vec<u8> {
    let mut v = b"FUJIFILMCCD-RAW ".to_vec();
    v.extend_from_slice(b"0201FF393801");
    let mut name = [0u8; 32];
    name[..camera.len()].copy_from_slice(camera);
    v.extend_from_slice(&name);
    v.extend_from_slice(b"0100");
    v.extend_from_slice(&[0u8; 20]);
    v.extend_from_slice(&[0u8; 12]); // offsets, filled in below
    v.extend_from_slice(&[0u8; 12]);
    assert_eq!(v.len(), 108);
    if let Some(block) = sequence {
        v.extend_from_slice(&[0u8; 40]);
        v.extend_from_slice(b"FUJIFILMM-RAW   1.00");
        v.extend_from_slice(&block);
    } else {
        v.extend_from_slice(&[0u8; 60]);
    }
    let meta_offset = v.len() as u32;
    v.extend(metadata_block(records));
    let jpeg_offset = v.len() as u32;
    v.extend(jpeg_with_exif());
    put_u32(&mut v, 84, jpeg_offset);
    put_u32(&mut v, 88, 22);
    put_u32(&mut v, 92, meta_offset);
    v
}

fn sequence_block(images: &[(u64, u64, Vec<Vec<u8>>)], per_image: u16) -> Vec<u8> {
    let mut v = 2u32.to_be_bytes().to_vec();
    v.extend_from_slice(&(images.len() as u32).to_be_bytes());
    v.extend_from_slice(b"0100\0\0\0\0\0\0\0\0");
    v.extend_from_slice(&64u16.to_be_bytes());
    v.extend_from_slice(&per_image.to_be_bytes());
    for (offset, size, records) in images {
        v.extend_from_slice(&offset.to_be_bytes());
        v.extend_from_slice(&size.to_be_bytes());
        for r in records {
            v.extend_from_slice(r);
        }
    }
    v
}

fn decode(tag: u16, payload: &[u8]) -> RafMetadataType {
    RafMetadataType::decode(RafMetadataTag::from(tag), payload.to_vec())
}

#[test]
fn tags_keep_their_codes() {
    assert_eq!(RafMetadataTag::from(0x0100u16), RafMetadataTag::SensorDimensions);
    assert_eq!(RafMetadataTag::from(0xca00u16), RafMetadataTag::UnknownData);
    assert_eq!(RafMetadataTag::from(0x1234u16), RafMetadataTag::Unknown(0x1234));
    for code in 0..=u16::MAX {
        assert_eq!(RafMetadataTag::from(code).code(), code);
    }
    assert_eq!(RafMetadataTag::FujiModel2.code(), 0x1448);
}

#[test]
fn decodes_numbers_and_pairs() {
    assert!(matches!(decode(0x2001, &[0, 0, 1, 2]), RafMetadataType::Number(0x0102)));
    assert!(matches!(decode(0x2007, &[0, 0, 0x0C, 0x80]), RafMetadataType::Number(3200)));
    assert!(matches!(
        decode(0x0100, &[0x0F, 0xA0, 0x17, 0x70]),
        RafMetadataType::Dimensions((4000, 6000))
    ));
    assert!(matches!(decode(0x0110, &[0, 4, 0, 8]), RafMetadataType::Position((4, 8))));
    assert!(matches!(decode(0x0115, &[0, 3, 0, 2]), RafMetadataType::AspectRatio((3, 2))));
    assert!(matches!(decode(0x1002, &[0, 0, 0x14, 0x50]), RafMetadataType::Kelvin(5200)));
}

#[test]
fn decodes_exposure_value_as_float_bits() {
    let bits = 1.5f32.to_bits();
    match decode(0x1011, &bits.to_be_bytes()) {
        RafMetadataType::ExposureValue(b) => assert_eq!(f32::from_bits(b), 1.5),
        _ => panic!("expected an exposure value"),
    }
}

#[test]
fn decodes_exposure_bias_with_sign_and_denominator_at_least_one() {
    assert!(matches!(decode(0x9650, &[0xFF, 0xFD, 0x00, 0x03]), RafMetadataType::ExposureBias((-3, 3))));
    assert!(matches!(decode(0x2003, &[0x00, 0x05, 0x00, 0x00]), RafMetadataType::ExposureBias((5, 1))));
    assert!(matches!(
        decode(0x2004, &[0x80, 0x00, 0x00, 0x02]),
        RafMetadataType::ExposureBias((-32768, 2))
    ));
}

#[test]
fn decodes_fractions_and_refuses_zero_denominators() {
    assert!(matches!(
        decode(0x2005, &[0, 0, 0, 1, 0, 0, 0, 250]),
        RafMetadataType::ShutterDuration((1, 250))
    ));
    assert!(matches!(
        decode(0x2006, &[0, 0, 0, 28, 0, 0, 0, 10]),
        RafMetadataType::ApertureRatio((28, 10))
    ));
    match decode(0x2005, &[0, 0, 0, 1, 0, 0, 0, 0]) {
        RafMetadataType::Unknown(b) => assert_eq!(b, vec![0, 0, 0, 1, 0, 0, 0, 0]),
        _ => panic!("a zero denominator must give Unknown"),
    }
    assert!(matches!(decode(0x2006, &[0, 0, 0, 28, 0, 0, 0, 0]), RafMetadataType::Unknown(_)));
}

#[test]
fn model_text_unknown_tags_and_wrong_sizes_keep_the_payload() {
    match decode(0x1447, b"X-T5") {
        RafMetadataType::ASCIIText(b) => assert_eq!(b, b"X-T5".to_vec()),
        _ => panic!("expected text"),
    }
    match decode(0x0100, &[1, 2, 3]) {
        RafMetadataType::Unknown(b) => assert_eq!(b, vec![1, 2, 3]),
        _ => panic!("a wrong size must give Unknown"),
    }
    assert!(matches!(decode(0x2005, &[0, 0, 0, 1]), RafMetadataType::Unknown(_)));
    assert!(matches!(decode(0xc000, &[9; 10]), RafMetadataType::Unknown(_)));
    assert!(matches!(decode(0x7777, &[0, 0, 0, 1]), RafMetadataType::Unknown(_)));
}

#[test]
fn reads_one_record_and_moves_past_it() {
    let mut bytes = record(0x0121, &[0x0F, 0xA0, 0x17, 0x70]);
    bytes.extend_from_slice(&[0xEE, 0xEE]);
    let mut r = BufBinaryReader::new(bytes, Endian::Little);
    let item = RafMetadataItem::read_from(&mut r).unwrap();
    assert_eq!(item.tag(), RafMetadataTag::OutputHeightWidth);
    assert!(matches!(item.data(), RafMetadataType::Dimensions((4000, 6000))));
    assert_eq!(r.stream_position(), Ok(8));
    // The reader is left big-endian.
    assert_eq!(r.read::<u16>(), Ok(0xEEEE));
}

#[test]
fn record_is_read_from_its_own_bytes_only() {
    let rec = record(0x1002, &[0, 0, 0x14, 0x50]);
    let mut a = rec.clone();
    a.extend_from_slice(&[1, 2, 3]);
    let mut b = rec.clone();
    b.extend_from_slice(&[9, 9, 9, 9, 9]);
    let ia = RafMetadataItem::read_from(&mut BufBinaryReader::new(a, Endian::Big)).unwrap();
    let ib = RafMetadataItem::read_from(&mut BufBinaryReader::new(b, Endian::Big)).unwrap();
    assert_eq!(ia.tag(), ib.tag());
    assert!(matches!((ia.data(), ib.data()), (RafMetadataType::Kelvin(5200), RafMetadataType::Kelvin(5200))));
}

#[test]
fn failed_record_read_leaves_big_endian_order() {
    let cases = [(vec![0x12], 0u64), (vec![0x12, 0x34, 0x00], 2), (vec![0x12, 0x34, 0x00, 0x04, 0x01], 4)];
    for (data, position) in cases {
        let mut r = BufBinaryReader::new(data, Endian::Little);
        assert_eq!(RafMetadataItem::read_from(&mut r).err(), Some(ReadError::UnexpectedEof));
        assert_eq!(r.stream_position(), Ok(position));
        if position > 0 {
            r.seek(rafinfo::binary::SeekFrom::Start(0)).unwrap();
            assert_eq!(r.read::<u16>(), Ok(0x1234));
        }
    }
}

#[test]
fn truncated_record_is_unexpected_eof() {
    let mut bytes = record(0x0100, &[1, 2, 3, 4]);
    bytes.pop();
    let mut r = BufBinaryReader::new(bytes, Endian::Big);
    assert_eq!(RafMetadataItem::read_from(&mut r).err(), Some(ReadError::UnexpectedEof));
    let mut r = BufBinaryReader::new(vec![0x01, 0x00, 0x00], Endian::Big);
    assert_eq!(RafMetadataItem::read_from(&mut r).err(), Some(ReadError::UnexpectedEof));
}

#[test]
fn metadata_block_holds_its_count_of_records() {
    let bytes = metadata_block(&[
        record(0x0100, &[0x0F, 0xA0, 0x17, 0x70]),
        record(0x1447, b"X-H2"),
        record(0xc000, &[1, 2, 3, 4, 5, 6]),
    ]);
    let mut r = BufBinaryReader::new(bytes, Endian::Little);
    let block = r.read::<RafMetadataContainer>().unwrap();
    assert_eq!(block.count(), 3);
    assert_eq!(block.metadata().len(), 3);
    assert_eq!(block.metadata()[1].tag(), RafMetadataTag::FujiModel);
    assert_eq!(block.metadata()[2].tag(), RafMetadataTag::OtherData);
}

#[test]
fn metadata_block_with_missing_records_is_unexpected_eof() {
    let mut bytes = metadata_block(&[record(0x0100, &[0, 1, 0, 2])]);
    bytes[3] = 2;
    let mut r = BufBinaryReader::new(bytes, Endian::Big);
    assert_eq!(r.read::<RafMetadataContainer>().err(), Some(ReadError::UnexpectedEof));
}

#[test]
fn image_sequence_block_holds_its_counts() {
    let images = vec![
        (0x1000u64, 0x2000u64, vec![record(0x2001, &[0, 0, 0, 1]), record(0x2005, &[0, 0, 0, 1, 0, 0, 0, 60])]),
        (0x3000u64, 0x2000u64, vec![record(0x2001, &[0, 0, 0, 2]), record(0x2006, &[0, 0, 0, 56, 0, 0, 0, 10])]),
    ];
    let bytes = sequence_block(&images, 2);
    let mut r = BufBinaryReader::new(bytes, Endian::Little);
    let block = RafImageSequenceContainer::try_read_from(&mut r).unwrap();
    assert_eq!(block.additional_image_count(), 2);
    assert_eq!(block.total_image_count(), 2);
    assert_eq!(block.version(), "0100\0\0\0\0\0\0\0\0");
    assert_eq!(block.metadata_size(), 64);
    assert_eq!(block.metadata_count(), 2);
    assert_eq!(block.images().len(), 2);
    assert_eq!(block.images()[1].cfa_offset(), 0x3000);
    assert_eq!(block.images()[1].cfa_size(), 0x2000);
    assert_eq!(block.images()[1].metadata().len(), 2);
    assert!(matches!(block.images()[0].metadata()[1].data(), RafMetadataType::ShutterDuration((1, 60))));
}

#[test]
fn image_sequence_version_that_is_not_utf8_is_reported() {
    let mut bytes = sequence_block(&[], 0);
    bytes[8] = 0xFF;
    let mut r = BufBinaryReader::new(bytes.clone(), Endian::Big);
    match RafImageSequenceContainer::try_read_from(&mut r) {
        Err(Fault::InvalidText(b)) => assert_eq!(b, bytes[8..20].to_vec()),
        _ => panic!("expected the version bytes"),
    }
}

#[test]
fn reads_a_raf_without_image_sequence() {
    let file = raf_file(
        b"X-T5",
        None,
        &[record(0x0100, &[0x1A, 0x40, 0x27, 0x60]), record(0x1447, b"X-T5")],
    );
    let mut r = BufBinaryReader::new(file, Endian::Little);
    let raf = r.read::<Raf>().unwrap();
    let mut camera = b"X-T5".to_vec();
    camera.resize(32, 0);
    assert_eq!(raf.camera().as_bytes(), &camera[..]);
    assert_eq!(raf.version(), u32::from_be_bytes(*b"0100"));
    assert!(raf.image_sequence_metadata().is_none());
    assert_eq!(raf.metadata_container().count(), 2);
    assert!(matches!(
        raf.metadata_container().metadata()[0].data(),
        RafMetadataType::Dimensions((0x1A40, 0x2760))
    ));
    assert_eq!(raf.exif_data().size(), 0x10);
    assert_eq!(raf.exif_data().byte_order(), ByteOrder::Intel);
}

#[test]
fn reads_a_raf_with_image_sequence() {
    let images = vec![(0x1000u64, 0x10u64, vec![record(0x2007, &[0, 0, 0x19, 0])])];
    let file = raf_file(b"GFX100", Some(sequence_block(&images, 1)), &[record(0x1002, &[0, 0, 0x15, 0x7C])]);
    let mut r = BufBinaryReader::new(file, Endian::Big);
    let raf = Raf::try_read_from(&mut r).unwrap();
    let seq = raf.image_sequence_metadata().as_ref().unwrap();
    assert_eq!(seq.total_image_count(), 1);
    assert!(matches!(seq.images()[0].metadata()[0].data(), RafMetadataType::Number(6400)));
    assert!(matches!(raf.metadata_container().metadata()[0].data(), RafMetadataType::Kelvin(5500)));
}

#[test]
fn sequence_magic_is_looked_for_only_before_the_jpeg() {
    // With the JPEG right after the header there is no room for a sequence block.
    let mut file = raf_file(b"X100V", None, &[]);
    let meta = 108 + 60;
    let jpeg = meta + 4;
    put_u32(&mut file, 84, 150);
    let mut r = BufBinaryReader::new(file.clone(), Endian::Big);
    // The JPEG offset now points inside the padding, which is no JPEG.
    assert_eq!(r.read::<Raf>().err(), Some(ReadError::InvalidJpeg));
    put_u32(&mut file, 84, jpeg as u32);
    let mut r = BufBinaryReader::new(file, Endian::Big);
    assert!(r.read::<Raf>().unwrap().image_sequence_metadata().is_none());
}

#[test]
fn wrong_magic_is_invalid_raf() {
    let mut file = raf_file(b"X-T5", None, &[]);
    file[0] = b'f';
    let mut r = BufBinaryReader::new(file, Endian::Big);
    assert_eq!(r.read::<Raf>().err(), Some(ReadError::InvalidRaf));
    let mut r = BufBinaryReader::new(b"FUJIFILM".to_vec(), Endian::Big);
    assert_eq!(r.read::<Raf>().err(), Some(ReadError::UnexpectedEof));
    assert_eq!(r.stream_position(), Ok(0));
    let mut r = BufBinaryReader::new(b"FUJIFILMCCD-RAX ".to_vec(), Endian::Big);
    assert_eq!(r.read::<Raf>().err(), Some(ReadError::InvalidRaf));
    assert_eq!(r.stream_position(), Ok(16));
}

#[test]
fn camera_name_that_is_not_utf8_is_reported() {
    let file = raf_file(&[0x58, 0xC3, 0x28], None, &[]);
    let mut r = BufBinaryReader::new(file.clone(), Endian::Big);
    match Raf::try_read_from(&mut r) {
        Err(Fault::InvalidText(b)) => assert_eq!(b, file[28..60].to_vec()),
        _ => panic!("expected the camera name bytes"),
    }
}

#[test]
fn truncated_metadata_block_fails_the_raf() {
    let mut file = raf_file(b"X-T5", None, &[record(0x0100, &[0, 1, 0, 2])]);
    let near_end = file.len() as u32 - 2;
    put_u32(&mut file, 92, near_end);
    let mut r = BufBinaryReader::new(file, Endian::Big);
    assert_eq!(r.read::<Raf>().err(), Some(ReadError::UnexpectedEof));
}
