use sales::{ReadBuf, Reader, WriteBuf};

#[test]
fn integers_are_written_low_byte_first() {
    let mut bytes = [0xeeu8; 40];
    let mut buf = WriteBuf::new(&mut bytes);
    buf.put_u8_at(0, 0xab);
    buf.put_u16_at(1, 0x1234);
    buf.put_u32_at(3, 0xdead_beef);
    buf.put_u64_at(7, 0x0102_0304_0506_0708);
    buf.put_i8_at(15, -1);
    buf.put_i16_at(16, -2);
    buf.put_i32_at(18, i32::MIN);
    buf.put_i64_at(22, -22);
    buf.put_i64_at(30, 22);
    let expected: [u8; 40] = [
        0xab, 0x34, 0x12, 0xef, 0xbe, 0xad, 0xde, 0x08, 0x07, 0x06, 0x05, 0x04, 0x03, 0x02, 0x01,
        0xff, 0xfe, 0xff, 0x00, 0x00, 0x00, 0x80, 0xea, 0xff, 0xff, 0xff, 0xff, 0xff, 0xff, 0xff,
        22, 0, 0, 0, 0, 0, 0, 0, 0xee, 0xee,
    ];
    assert_eq!(bytes, expected);
}

#[test]
fn integers_are_read_low_byte_first() {
    let bytes: [u8; 40] = [
        0xab, 0x34, 0x12, 0xef, 0xbe, 0xad, 0xde, 0x08, 0x07, 0x06, 0x05, 0x04, 0x03, 0x02, 0x01,
        0xff, 0xfe, 0xff, 0x00, 0x00, 0x00, 0x80, 0xea, 0xff, 0xff, 0xff, 0xff, 0xff, 0xff, 0xff,
        22, 0, 0, 0, 0, 0, 0, 0, 0xee, 0xee,
    ];
    let buf = ReadBuf::new(&bytes);
    assert_eq!(buf.capacity(), 40);
    assert_eq!(buf.get_u8_at(0), 0xab);
    assert_eq!(buf.get_u16_at(1), 0x1234);
    assert_eq!(buf.get_u32_at(3), 0xdead_beef);
    assert_eq!(buf.get_u64_at(7), 0x0102_0304_0506_0708);
    assert_eq!(buf.get_i8_at(15), -1);
    assert_eq!(buf.get_i16_at(16), -2);
    assert_eq!(buf.get_i32_at(18), i32::MIN);
    assert_eq!(buf.get_i64_at(22), -22);
    assert_eq!(buf.get_i64_at(30), 22);
    assert_eq!(buf.get_u8_at(39), 0xee);
    assert_eq!(buf.get_slice_at(1, 2), &[0x34, 0x12]);
    assert_eq!(buf.get_slice_at(40, 0), &[] as &[u8]);
    assert_eq!(buf.get_buf().capacity(), 40);
}

#[test]
fn every_integer_type_is_read_back_at_its_bounds() {
    let mut bytes = [0u8; 8];
    for value in [0u8, 1, 127, 128, 255] {
        WriteBuf::new(&mut bytes).put_u8_at(3, value);
        assert_eq!(ReadBuf::new(&bytes).get_u8_at(3), value);
    }
    for value in [0u16, 1, 255, 256, 0x7fff, 0x8000, u16::MAX] {
        WriteBuf::new(&mut bytes).put_u16_at(3, value);
        assert_eq!(bytes[3..5], value.to_le_bytes());
        assert_eq!(ReadBuf::new(&bytes).get_u16_at(3), value);
    }
    for value in [0u32, 1, 0x7fff_ffff, 0x8000_0000, u32::MAX] {
        WriteBuf::new(&mut bytes).put_u32_at(3, value);
        assert_eq!(bytes[3..7], value.to_le_bytes());
        assert_eq!(ReadBuf::new(&bytes).get_u32_at(3), value);
    }
    for value in [0u64, 1, 0x7fff_ffff_ffff_ffff, 0x8000_0000_0000_0000, u64::MAX] {
        WriteBuf::new(&mut bytes).put_u64_at(0, value);
        assert_eq!(bytes, value.to_le_bytes());
        assert_eq!(ReadBuf::new(&bytes).get_u64_at(0), value);
    }
    for value in [i8::MIN, -1, 0, 1, i8::MAX] {
        WriteBuf::new(&mut bytes).put_i8_at(7, value);
        assert_eq!(bytes[7..8], value.to_le_bytes());
        assert_eq!(ReadBuf::new(&bytes).get_i8_at(7), value);
    }
    for value in [i16::MIN, -256, -1, 0, 1, i16::MAX] {
        WriteBuf::new(&mut bytes).put_i16_at(6, value);
        assert_eq!(bytes[6..8], value.to_le_bytes());
        assert_eq!(ReadBuf::new(&bytes).get_i16_at(6), value);
    }
    for value in [i32::MIN, -65536, -1, 0, 1, i32::MAX] {
        WriteBuf::new(&mut bytes).put_i32_at(4, value);
        assert_eq!(bytes[4..8], value.to_le_bytes());
        assert_eq!(ReadBuf::new(&bytes).get_i32_at(4), value);
    }
    for value in [i64::MIN, i64::MIN + 1, -4567, -1, 0, 1, 4567, i64::MAX] {
        WriteBuf::new(&mut bytes).put_i64_at(0, value);
        assert_eq!(bytes, value.to_le_bytes());
        assert_eq!(ReadBuf::new(&bytes).get_i64_at(0), value);
    }
}

#[test]
fn a_slice_is_copied_to_its_place_only() {
    let mut bytes = [7u8; 10];
    let mut buf = WriteBuf::new(&mut bytes);
    assert_eq!(buf.put_slice_at(2, &[1, 2, 3]), 3);
    assert_eq!(buf.put_slice_at(9, &[9]), 1);
    assert_eq!(buf.put_slice_at(10, &[]), 0);
    assert_eq!(bytes, [7, 7, 1, 2, 3, 7, 7, 7, 7, 9]);
}

#[test]
fn a_write_leaves_the_bytes_around_it() {
    let mut bytes = [0x55u8; 12];
    WriteBuf::new(&mut bytes).put_u32_at(4, 0);
    assert_eq!(bytes, [0x55, 0x55, 0x55, 0x55, 0, 0, 0, 0, 0x55, 0x55, 0x55, 0x55]);
}

#[test]
fn the_views_of_nothing_are_empty() {
    assert_eq!(ReadBuf::default().capacity(), 0);
    let mut buf = WriteBuf::default();
    assert_eq!(buf.put_slice_at(0, &[]), 0);
}
