use rafinfo::binary::{BufBinaryReader, Endian, FromBinary, ReadError, SeekFrom};

fn reader(bytes: &[u8], endian: Endian) -> BufBinaryReader {
    BufBinaryReader::new(bytes.to_vec(), endian)
}

#[test]
fn reads_big_endian_integers() {
    let mut r = reader(&[0x12, 0x34, 0x01, 0x02, 0x03, 0x04, 1, 2, 3, 4, 5, 6, 7, 8], Endian::Big);
    assert_eq!(r.read::<u16>(), Ok(0x1234));
    assert_eq!(r.read::<u32>(), Ok(0x0102_0304));
    assert_eq!(r.read::<u64>(), Ok(0x0102_0304_0506_0708));
    assert_eq!(r.stream_position(), Ok(14));
}

#[test]
fn reads_little_endian_integers() {
    let mut r = reader(&[0x12, 0x34, 0x01, 0x02, 0x03, 0x04, 1, 2, 3, 4, 5, 6, 7, 8], Endian::Little);
    assert_eq!(r.read::<u16>(), Ok(0x3412));
    assert_eq!(r.read::<u32>(), Ok(0x0403_0201));
    assert_eq!(r.read::<u64>(), Ok(0x0807_0605_0403_0201));
}

#[test]
fn little_endian_is_big_endian_reversed() {
    let bytes = [0xDE, 0xAD, 0xBE, 0xEF];
    let mut reversed = bytes;
    reversed.reverse();
    let mut little = reader(&bytes, Endian::Little);
    let mut big = reader(&reversed, Endian::Big);
    assert_eq!(little.read::<u32>(), big.read::<u32>());
}

#[test]
fn set_endianness_changes_later_reads() {
    let mut r = reader(&[0x00, 0x01, 0x00, 0x01], Endian::Big);
    assert_eq!(r.read::<u16>(), Ok(1));
    r.set_endianness(Endian::Little);
    assert_eq!(r.read::<u16>(), Ok(0x0100));
}

#[test]
fn read_past_end_is_unexpected_eof() {
    let mut r = reader(&[1, 2, 3], Endian::Big);
    assert_eq!(r.read::<u32>(), Err(ReadError::UnexpectedEof));
    assert_eq!(r.read_bytes(4), Err(ReadError::UnexpectedEof));
    assert_eq!(r.stream_position(), Ok(0));
    assert_eq!(r.read_bytes(3), Ok(vec![1, 2, 3]));
    assert_eq!(r.read_bytes(0), Ok(vec![]));
    assert_eq!(r.read_bytes(1), Err(ReadError::UnexpectedEof));
}

#[test]
fn u16_read_from_matches_read() {
    let mut a = reader(&[0xAB, 0xCD], Endian::Big);
    let mut b = reader(&[0xAB, 0xCD], Endian::Big);
    assert_eq!(u16::read_from(&mut a), b.read::<u16>());
}

#[test]
fn skip_bytes_moves_and_refuses_negative_positions() {
    let mut r = reader(&[0; 8], Endian::Big);
    assert_eq!(r.skip_bytes(5), Ok(()));
    assert_eq!(r.stream_position(), Ok(5));
    assert_eq!(r.skip_bytes(-2), Ok(()));
    assert_eq!(r.stream_position(), Ok(3));
    assert_eq!(r.skip_bytes(-4), Err(ReadError::InvalidSeek));
    assert_eq!(r.stream_position(), Ok(3));
    // Positions past the end are allowed; reads there fail.
    assert_eq!(r.skip_bytes(100), Ok(()));
    assert_eq!(r.stream_position(), Ok(103));
    assert_eq!(r.read::<u16>(), Err(ReadError::UnexpectedEof));
    assert_eq!(r.skip_bytes(i64::MAX), Err(ReadError::InvalidSeek));
}

#[test]
fn skips_compose_into_one() {
    let mut two = reader(&[0; 16], Endian::Big);
    two.skip_bytes(7).unwrap();
    two.skip_bytes(-3).unwrap();
    let mut one = reader(&[0; 16], Endian::Big);
    one.skip_bytes(4).unwrap();
    assert_eq!(two.stream_position(), one.stream_position());
}

#[test]
fn seek_from_start_reports_distance_and_lands_on_offset() {
    let mut r = reader(&[10, 11, 12, 13, 14, 15, 16, 17, 18, 19, 20, 21], Endian::Big);
    r.skip_bytes(4).unwrap();
    assert_eq!(r.seek(SeekFrom::Start(10)), Ok(6));
    assert_eq!(r.stream_position(), Ok(10));
    assert_eq!(r.read_bytes(1), Ok(vec![20]));
    // A seek backwards reports the negative distance as `u64`.
    assert_eq!(r.seek(SeekFrom::Start(1)), Ok((-10i64) as u64));
    assert_eq!(r.read_bytes(1), Ok(vec![11]));
}

#[test]
fn seek_from_end_reports_position() {
    let mut r = reader(&[1, 2, 3, 4, 5], Endian::Big);
    assert_eq!(r.seek(SeekFrom::End(-2)), Ok(3));
    assert_eq!(r.read_bytes(2), Ok(vec![4, 5]));
    assert_eq!(r.seek(SeekFrom::End(-6)), Err(ReadError::InvalidSeek));
    assert_eq!(r.stream_position(), Ok(5));
}

#[test]
fn seek_from_current_reports_position_plus_offset() {
    let mut r = reader(&[0; 10], Endian::Big);
    r.skip_bytes(2).unwrap();
    assert_eq!(r.seek(SeekFrom::Current(3)), Ok(8));
    assert_eq!(r.stream_position(), Ok(5));
}

#[test]
fn zero_bytes_can_be_read_anywhere() {
    let mut r = reader(&[1, 2], Endian::Big);
    r.skip_bytes(10).unwrap();
    assert_eq!(r.read_bytes(0), Ok(vec![]));
    assert_eq!(r.stream_position(), Ok(10));
    assert_eq!(r.read_bytes(1), Err(ReadError::UnexpectedEof));
    assert_eq!(r.stream_position(), Ok(10));
}

#[test]
fn little_endian_read_is_big_endian_read_swapped() {
    let bytes = [0x01, 0x23, 0x45, 0x67, 0x89, 0xAB, 0xCD, 0xEF];
    for n in 0..=bytes.len() {
        let data = &bytes[..n];
        assert_eq!(
            reader(data, Endian::Little).read::<u16>(),
            reader(data, Endian::Big).read::<u16>().map(u16::swap_bytes)
        );
        assert_eq!(
            reader(data, Endian::Little).read::<u32>(),
            reader(data, Endian::Big).read::<u32>().map(u32::swap_bytes)
        );
        assert_eq!(
            reader(data, Endian::Little).read::<u64>(),
            reader(data, Endian::Big).read::<u64>().map(u64::swap_bytes)
        );
    }
}
