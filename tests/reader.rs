use flv::reader::{FlvReader, SeekError, SeekFrom};

#[test]
fn valid_position_seek() {
    let data = vec![0; 4000];
    let mut reader = FlvReader::from_source(&data);

    assert_eq!(reader.seek(SeekFrom::Current(0)).unwrap(), 0);
    assert_eq!(reader.seek(SeekFrom::Current(4000)).unwrap(), 4000);
    assert_eq!(reader.seek(SeekFrom::Current(-2000)).unwrap(), 2000);
    assert_eq!(reader.seek(SeekFrom::Start(0)).unwrap(), 0);
    assert_eq!(reader.seek(SeekFrom::Start(4000)).unwrap(), 4000);
    assert_eq!(reader.seek(SeekFrom::End(0)).unwrap(), 4000);
    assert_eq!(reader.seek(SeekFrom::End(4000)).unwrap(), 0);
}

#[test]
fn invalid_position_seek() {
    let data = vec![];
    let mut reader = FlvReader::from_parts(&data, 12000);

    assert_eq!(reader.seek(SeekFrom::Current(0)).unwrap(), 12000);
    assert_eq!(reader.seek(SeekFrom::Current(4000)).unwrap(), 16000);
    assert_eq!(reader.seek(SeekFrom::Current(-2000)).unwrap(), 14000);
    assert_eq!(reader.seek(SeekFrom::Start(0)).unwrap(), 0);
    assert_eq!(reader.seek(SeekFrom::Start(4000)).unwrap(), 4000);
    assert_eq!(reader.seek(SeekFrom::End(0)).unwrap(), 0);
    assert!(reader.seek(SeekFrom::End(4000)).is_err());
}

#[test]
fn read_within_and_past_end() {
    let data = [1u8, 2, 3, 4, 5];
    let mut reader = FlvReader::from_source(&data);

    assert_eq!(reader.read(2), Some(&data[0..2]));
    assert_eq!(reader.position(), 2);
    assert_eq!(reader.read(4), None);
    assert_eq!(reader.position(), 2);
    assert_eq!(reader.read(3), Some(&data[2..5]));
    assert_eq!(reader.position(), 5);
    assert_eq!(reader.read(0), Some(&data[5..5]));
    assert_eq!(reader.read(1), None);
    assert_eq!(reader.position(), 5);
}

#[test]
fn read_fails_when_end_overflows() {
    let data = [1u8, 2, 3];
    let mut reader = FlvReader::from_parts(&data, 2);

    assert_eq!(reader.read(usize::MAX), None);
    assert_eq!(reader.position(), 2);
}

#[test]
fn read_on_empty_buffer() {
    let data: [u8; 0] = [];
    let mut reader = FlvReader::from_source(&data);

    assert_eq!(reader.read(0), Some(&data[..]));
    assert_eq!(reader.read(1), None);
    assert_eq!(reader.read_u8(), None);
    assert_eq!(reader.position(), 0);
}

#[test]
fn peek_matches_read_without_moving() {
    let data = [9u8, 8, 7];
    let mut reader = FlvReader::from_parts(&data, 1);

    assert_eq!(reader.peek(2), Some(&data[1..3]));
    assert_eq!(reader.position(), 1);
    assert_eq!(reader.peek(3), None);
    assert_eq!(reader.position(), 1);

    let mut other = FlvReader::from_parts(&data, 1);
    assert_eq!(other.read(2), reader.peek(2));
    assert_eq!(other.read(1), None);
    assert_eq!(reader.position(), 1);
}

#[test]
fn scalar_round_trips() {
    let mut buf = vec![0xABu8];
    buf.extend_from_slice(&0xBEEFu16.to_be_bytes());
    buf.extend_from_slice(&(-12345i16).to_be_bytes());
    buf.extend_from_slice(&0x00AB_CDEFu32.to_be_bytes()[1..]);
    buf.extend_from_slice(&0xDEAD_BEEFu32.to_be_bytes());
    let mut reader = FlvReader::from_source(&buf);

    assert_eq!(reader.read_u8(), Some(0xAB));
    assert_eq!(reader.read_u16(), Some(0xBEEF));
    assert_eq!(reader.read_i16(), Some(-12345));
    assert_eq!(reader.peek_u24(), Some(0x00AB_CDEF));
    assert_eq!(reader.read_u24(), Some(0x00AB_CDEF));
    assert_eq!(reader.read_u32(), Some(0xDEAD_BEEF));
    assert_eq!(reader.read_u8(), None);
    assert_eq!(reader.position(), buf.len());
}

#[test]
fn scalar_round_trips_at_extremes() {
    for v in [0u16, 1, 0x00FF, 0xFF00, u16::MAX] {
        let b = v.to_be_bytes();
        assert_eq!(FlvReader::from_source(&b).read_u16(), Some(v));
    }
    for v in [i16::MIN, -1, 0, 1, i16::MAX] {
        let b = v.to_be_bytes();
        assert_eq!(FlvReader::from_source(&b).read_i16(), Some(v));
    }
    for v in [0u32, 1, 0x00FF_FFFF] {
        let b = v.to_be_bytes();
        assert_eq!(FlvReader::from_source(&b[1..]).read_u24(), Some(v));
    }
    for v in [0u32, 0x8000_0000, u32::MAX] {
        let b = v.to_be_bytes();
        assert_eq!(FlvReader::from_source(&b).read_u32(), Some(v));
    }
}

#[test]
fn float_from_eight_read_bytes() {
    let b = 1.5f64.to_be_bytes();
    let mut reader = FlvReader::from_source(&b);
    let bytes: [u8; 8] = reader.read(8).unwrap().try_into().unwrap();
    assert_eq!(f64::from_be_bytes(bytes), 1.5);
}

#[test]
fn short_scalar_reads_fail_in_place() {
    let data = [0x12u8, 0x34, 0x56];
    let mut reader = FlvReader::from_parts(&data, 1);

    assert_eq!(reader.read_u32(), None);
    assert_eq!(reader.read_u24(), None);
    assert_eq!(reader.peek_u24(), None);
    assert_eq!(reader.position(), 1);
    assert_eq!(reader.read_i16(), Some(0x3456));
    assert_eq!(reader.read_u16(), None);
    assert_eq!(reader.position(), 3);
}

#[test]
fn seek_start_past_end_then_read_fails() {
    let data = [1u8, 2, 3];
    let mut reader = FlvReader::from_source(&data);

    assert_eq!(reader.seek(SeekFrom::Start(10)), Ok(10));
    assert_eq!(reader.position(), 10);
    assert_eq!(reader.read(1), None);
    assert_eq!(reader.position(), 10);
}

#[test]
fn seek_current_and_end_bounds() {
    let data = [0u8; 10];
    let mut reader = FlvReader::from_parts(&data, 4);

    assert_eq!(reader.seek(SeekFrom::Current(-4)), Ok(0));
    assert_eq!(reader.seek(SeekFrom::Current(-1)), Err(SeekError::BeforeStart));
    assert_eq!(reader.position(), 0);
    assert_eq!(reader.seek(SeekFrom::End(3)), Ok(7));
    assert_eq!(reader.seek(SeekFrom::End(-5)), Ok(15));
    assert_eq!(reader.seek(SeekFrom::End(11)), Err(SeekError::BeforeStart));
    assert_eq!(reader.position(), 15);
    assert_eq!(reader.seek(SeekFrom::End(i64::MIN)), Ok(10 + (1u64 << 63)));
}

#[test]
fn seek_beyond_largest_position_fails() {
    let data = [0u8; 2];
    let mut reader = FlvReader::from_parts(&data, usize::MAX);

    assert_eq!(reader.seek(SeekFrom::Current(1)), Err(SeekError::TooFar));
    assert_eq!(reader.position(), usize::MAX);
    assert_eq!(reader.seek(SeekFrom::Current(0)), Ok(usize::MAX as u64));
}

#[test]
fn parts_round_trip_keeps_behaviour() {
    let data = [5u8, 6, 7, 8];
    let mut first = FlvReader::from_source(&data);
    first.read(1).unwrap();

    let (source, position) = first.into_parts();
    assert_eq!(position, 1);
    let mut rebuilt = FlvReader::from_parts(source, position);
    let mut fresh = FlvReader::from_parts(&data, 1);
    assert_eq!(rebuilt.read_u16(), fresh.read_u16());
    assert_eq!(rebuilt.seek(SeekFrom::End(1)), fresh.seek(SeekFrom::End(1)));
    assert_eq!(rebuilt.read(2), fresh.read(2));
    assert_eq!(rebuilt.position(), fresh.position());

    let (s, p) = FlvReader::from_parts(&data, 100).into_parts();
    assert_eq!(s, &data[..]);
    assert_eq!(p, 100);
}
