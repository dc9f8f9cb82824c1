use x11_get_windows::util::{ByteOrder, Layout, WordSize};

#[test]
fn read_little_endian_agrees_with_std() {
    for value in [0u64, 1, 0xff, 0x100, 0x0102_0304_0506_0708, u64::MAX] {
        assert_eq!(ByteOrder::LittleEndian.read(&value.to_le_bytes()), Some(value));
    }
    for value in [0u32, 1, 0xdead_beef, u32::MAX] {
        assert_eq!(ByteOrder::LittleEndian.read(&value.to_le_bytes()), Some(value as u64));
    }
    for value in [0u16, 1, 0x1234, u16::MAX] {
        assert_eq!(ByteOrder::LittleEndian.read(&value.to_le_bytes()), Some(value as u64));
    }
}

#[test]
fn read_big_endian_agrees_with_std() {
    for value in [0u64, 1, 0xff, 0x100, 0x0102_0304_0506_0708, u64::MAX] {
        assert_eq!(ByteOrder::BigEndian.read(&value.to_be_bytes()), Some(value));
    }
    for value in [0u32, 1, 0xdead_beef, u32::MAX] {
        assert_eq!(ByteOrder::BigEndian.read(&value.to_be_bytes()), Some(value as u64));
    }
    for value in [0u16, 1, 0x1234, u16::MAX] {
        assert_eq!(ByteOrder::BigEndian.read(&value.to_be_bytes()), Some(value as u64));
    }
}

#[test]
fn read_exact_values() {
    assert_eq!(ByteOrder::LittleEndian.read(&[]), Some(0));
    assert_eq!(ByteOrder::BigEndian.read(&[]), Some(0));
    assert_eq!(ByteOrder::LittleEndian.read(&[0x2a]), Some(0x2a));
    assert_eq!(ByteOrder::BigEndian.read(&[0x2a]), Some(0x2a));
    assert_eq!(ByteOrder::LittleEndian.read(&[1, 2]), Some(513));
    assert_eq!(ByteOrder::BigEndian.read(&[1, 2]), Some(258));
    assert_eq!(ByteOrder::LittleEndian.read(&[1, 2, 3]), Some(0x030201));
    assert_eq!(ByteOrder::BigEndian.read(&[1, 2, 3]), Some(0x010203));
}

#[test]
fn read_refuses_more_than_eight_bytes() {
    assert_eq!(ByteOrder::LittleEndian.read(&[0; 9]), None);
    assert_eq!(ByteOrder::BigEndian.read(&[0; 9]), None);
    assert_eq!(ByteOrder::BigEndian.read(&[1; 100]), None);
    assert_eq!(ByteOrder::LittleEndian.read(&[0xff; 8]), Some(u64::MAX));
}

#[test]
fn word_sizes_in_bytes() {
    assert_eq!(WordSize::Four.bytes(), 4);
    assert_eq!(WordSize::Eight.bytes(), 8);
}

#[test]
fn byte_order_of_one() {
    assert_eq!(ByteOrder::of_one([1, 0]), ByteOrder::LittleEndian);
    assert_eq!(ByteOrder::of_one([0, 1]), ByteOrder::BigEndian);
    assert_eq!(ByteOrder::of_one(1u16.to_le_bytes()), ByteOrder::LittleEndian);
    assert_eq!(ByteOrder::of_one(1u16.to_be_bytes()), ByteOrder::BigEndian);
}

#[test]
fn native_layout_is_that_of_this_host() {
    let layout = Layout::native();
    assert_eq!(layout.word_size.bytes(), std::mem::size_of::<usize>());
    assert_eq!(layout.byte_order, ByteOrder::of_one(1u16.to_ne_bytes()));
    assert_eq!(layout.byte_order.read(&0x1234u16.to_ne_bytes()), Some(0x1234));
    assert_eq!(layout.byte_order.read(&0x0102_0304_0506_0708u64.to_ne_bytes()), Some(0x0102_0304_0506_0708));
    assert_eq!(layout, Layout::native());
}
