use rafinfo::binary::{BufBinaryReader, Endian, ReadError};
use rafinfo::exif::{ByteOrder, ExifData};

fn read_exif(bytes: &[u8]) -> Result<ExifData, ReadError> {
    let mut r = BufBinaryReader::new(bytes.to_vec(), Endian::Big);
    r.read::<ExifData>()
}

fn exif_app1(byte_order: &[u8]) -> Vec<u8> {
    let mut v = vec![0xFF, 0xE1, 0x00, 0x10];
    v.extend_from_slice(b"Exif\0\0");
    v.extend_from_slice(byte_order);
    v.extend_from_slice(&[0x00, 0x2A, 0x00, 0x00, 0x00, 0x08, 0x00, 0x03]);
    v
}

#[test]
fn finds_exif_after_start_of_image() {
    let mut jpeg = vec![0xFF, 0xD8];
    jpeg.extend(exif_app1(b"MM"));
    let exif = read_exif(&jpeg).unwrap();
    assert_eq!(exif.size(), 0x10);
    assert_eq!(exif.byte_order(), ByteOrder::Motorola);
    assert_eq!(exif.directory_count(), 0);
}

#[test]
fn reads_intel_byte_order() {
    let mut jpeg = vec![0xFF, 0xD8];
    jpeg.extend(exif_app1(b"II"));
    assert_eq!(read_exif(&jpeg).unwrap().byte_order(), ByteOrder::Intel);
}

#[test]
fn unknown_byte_order_keeps_its_mark() {
    let mut jpeg = vec![0xFF, 0xD8];
    jpeg.extend(exif_app1(&[0x12, 0x34]));
    let order = read_exif(&jpeg).unwrap().byte_order();
    assert_eq!(order, ByteOrder::Unknown(0x1234));
    assert_eq!(order.mark(), 0x1234);
    assert_eq!(ByteOrder::from(0x4949u16).mark(), 0x4949);
    assert_eq!(ByteOrder::from(0x4D4Du16), ByteOrder::Motorola);
}

#[test]
fn skips_app0_by_its_length_field() {
    // The length of a skipped segment is skipped after the length field
    // itself, so the two length bytes are counted twice.
    let mut jpeg = vec![0xFF, 0xD8, 0xFF, 0xE0, 0x00, 0x04, 0xAA, 0xBB, 0xCC, 0xDD];
    jpeg.extend(exif_app1(b"MM"));
    assert_eq!(read_exif(&jpeg).unwrap().size(), 0x10);
}

#[test]
fn skips_app1_without_exif_magic() {
    let mut jpeg = vec![0xFF, 0xD8, 0xFF, 0xE1, 0x00, 0x08];
    jpeg.extend_from_slice(b"XMPxxx");
    jpeg.extend_from_slice(&[0x11, 0x22]);
    jpeg.extend(exif_app1(b"II"));
    assert_eq!(read_exif(&jpeg).unwrap().byte_order(), ByteOrder::Intel);
}

#[test]
fn skips_short_app1() {
    let mut jpeg = vec![0xFF, 0xD8, 0xFF, 0xE1, 0x00, 0x02, 0x99, 0x99];
    jpeg.extend(exif_app1(b"MM"));
    assert_eq!(read_exif(&jpeg).unwrap().size(), 0x10);
}

#[test]
fn exif_size_is_at_least_six() {
    let mut jpeg = vec![0xFF, 0xD8, 0xFF, 0xE1, 0x00, 0x06];
    jpeg.extend_from_slice(b"Exif\0\0");
    jpeg.extend_from_slice(b"MM\0\0");
    let exif = read_exif(&jpeg).unwrap();
    assert_eq!(exif.size(), 6);
}

#[test]
fn missing_marker_byte_is_invalid_jpeg() {
    assert_eq!(read_exif(&[0x00, 0xD8, 0xFF, 0xE1]).err(), Some(ReadError::InvalidJpeg));
    let mut r = BufBinaryReader::new(vec![0x00, 0xD8, 0xFF, 0xE1], Endian::Big);
    assert!(r.read::<ExifData>().is_err());
    assert_eq!(r.stream_position(), Ok(2));
}

#[test]
fn start_of_scan_before_exif_is_missing_app1() {
    assert_eq!(read_exif(&[0xFF, 0xD8, 0xFF, 0xDA]).err(), Some(ReadError::MissingApp1));
    assert_eq!(read_exif(&[0xFF, 0xD9]).err(), Some(ReadError::MissingApp1));
}

#[test]
fn unknown_marker_is_unknown_section() {
    assert_eq!(read_exif(&[0xFF, 0xD8, 0xFF, 0x01]).err(), Some(ReadError::UnknownSection));
    assert_eq!(read_exif(&[0xFF, 0xF0]).err(), Some(ReadError::UnknownSection));
    for data in [vec![0xFF, 0x01], vec![0xFF, 0xF0]] {
        let mut r = BufBinaryReader::new(data, Endian::Big);
        assert!(r.read::<ExifData>().is_err());
        assert_eq!(r.stream_position(), Ok(2));
    }
}

#[test]
fn truncated_jpeg_is_unexpected_eof() {
    assert_eq!(read_exif(&[0xFF]).err(), Some(ReadError::UnexpectedEof));
    assert_eq!(read_exif(&[0xFF, 0xD8, 0xFF, 0xE1, 0x00]).err(), Some(ReadError::UnexpectedEof));
    let mut jpeg = vec![0xFF, 0xD8];
    jpeg.extend(exif_app1(b"MM"));
    jpeg.truncate(2 + 4 + 6 + 1);
    assert_eq!(read_exif(&jpeg).err(), Some(ReadError::UnexpectedEof));
}
