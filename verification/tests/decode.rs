use x11_get_windows::util::{
    buffer_len, item_size, ByteOrder, GetWindowPropertyResponse, Layout, WordSize,
};
use x11_get_windows::{Window, Windows};

const WINDOW_TYPE: u64 = 33;

fn layout_of(byte_order: ByteOrder, word_size: WordSize) -> Layout {
    Layout { byte_order, word_size }
}

fn little_64() -> Layout {
    layout_of(ByteOrder::LittleEndian, WordSize::Eight)
}

fn reply(kind: u64, format: i32, nitems: u64, data: Vec<u8>, layout: Layout) -> GetWindowPropertyResponse {
    GetWindowPropertyResponse {
        actual_type_return: kind,
        actual_format_return: format,
        nitems_return: nitems,
        bytes_after_return: 0,
        proper_return: data,
        layout,
    }
}

fn windows_of(numbers: &[u64]) -> Vec<Window> {
    numbers.iter().map(|number| Window(*number)).collect()
}

#[test]
fn decode_format_8_widens_each_byte() {
    let data = vec![0x00, 0x01, 0x7f, 0x80, 0xff];
    let list = Windows::decode(reply(WINDOW_TYPE, 8, 5, data, little_64()), WINDOW_TYPE).unwrap();
    assert_eq!(list.inner(), windows_of(&[0x00, 0x01, 0x7f, 0x80, 0xff]));
}

#[test]
fn decode_format_8_is_the_same_in_both_byte_orders() {
    let data = vec![3, 2, 1];
    let big = layout_of(ByteOrder::BigEndian, WordSize::Four);
    let list = Windows::decode(reply(WINDOW_TYPE, 8, 3, data, big), WINDOW_TYPE).unwrap();
    assert_eq!(list.inner(), windows_of(&[3, 2, 1]));
}

#[test]
fn decode_format_16_little_endian() {
    let source: [u16; 4] = [0x0000, 0x0001, 0x1234, 0xffff];
    let mut data = Vec::new();
    for value in source {
        data.extend_from_slice(&value.to_le_bytes());
    }
    let list = Windows::decode(reply(WINDOW_TYPE, 16, 4, data, little_64()), WINDOW_TYPE).unwrap();
    assert_eq!(list.inner(), windows_of(&[0x0000, 0x0001, 0x1234, 0xffff]));
}

#[test]
fn decode_format_16_big_endian() {
    let source: [u16; 3] = [0x0102, 0xff00, 0x00ff];
    let mut data = Vec::new();
    for value in source {
        data.extend_from_slice(&value.to_be_bytes());
    }
    let big = layout_of(ByteOrder::BigEndian, WordSize::Eight);
    let list = Windows::decode(reply(WINDOW_TYPE, 16, 3, data, big), WINDOW_TYPE).unwrap();
    assert_eq!(list.inner(), windows_of(&[0x0102, 0xff00, 0x00ff]));
}

#[test]
fn decode_format_16_exact_bytes() {
    let data = vec![0x34, 0x12];
    let list = Windows::decode(reply(WINDOW_TYPE, 16, 1, data.clone(), little_64()), WINDOW_TYPE).unwrap();
    assert_eq!(list.inner(), vec![Window(0x1234)]);
    let big = layout_of(ByteOrder::BigEndian, WordSize::Eight);
    let list = Windows::decode(reply(WINDOW_TYPE, 16, 1, data, big), WINDOW_TYPE).unwrap();
    assert_eq!(list.inner(), vec![Window(0x3412)]);
}

#[test]
fn decode_format_32_takes_a_word_of_eight_bytes() {
    let source: [u64; 3] = [0x10, 0x0000_0001_0000_0020, u64::MAX];
    let mut data = Vec::new();
    for value in source {
        data.extend_from_slice(&value.to_le_bytes());
    }
    let list = Windows::decode(reply(WINDOW_TYPE, 32, 3, data, little_64()), WINDOW_TYPE).unwrap();
    assert_eq!(list.inner(), windows_of(&[0x10, 0x0000_0001_0000_0020, u64::MAX]));
}

#[test]
fn decode_format_32_takes_a_word_of_eight_bytes_big_endian() {
    let source: [u64; 2] = [0x0102_0304_0506_0708, 0x20];
    let mut data = Vec::new();
    for value in source {
        data.extend_from_slice(&value.to_be_bytes());
    }
    let big = layout_of(ByteOrder::BigEndian, WordSize::Eight);
    let list = Windows::decode(reply(WINDOW_TYPE, 32, 2, data, big), WINDOW_TYPE).unwrap();
    assert_eq!(list.inner(), windows_of(&[0x0102_0304_0506_0708, 0x20]));
}

#[test]
fn decode_format_32_takes_a_word_of_four_bytes() {
    let source: [u32; 3] = [0x10, 0xdead_beef, u32::MAX];
    let mut data = Vec::new();
    for value in source {
        data.extend_from_slice(&value.to_le_bytes());
    }
    let small = layout_of(ByteOrder::LittleEndian, WordSize::Four);
    let list = Windows::decode(reply(WINDOW_TYPE, 32, 3, data, small), WINDOW_TYPE).unwrap();
    assert_eq!(list.inner(), windows_of(&[0x10, 0xdead_beef, 0xffff_ffff]));
}

#[test]
fn decode_format_32_four_bytes_big_endian() {
    let data = vec![0x01, 0x02, 0x03, 0x04];
    let small = layout_of(ByteOrder::BigEndian, WordSize::Four);
    let list = Windows::decode(reply(WINDOW_TYPE, 32, 1, data, small), WINDOW_TYPE).unwrap();
    assert_eq!(list.inner(), vec![Window(0x0102_0304)]);
}

#[test]
fn decode_in_the_layout_of_this_host() {
    let source: [usize; 3] = [0x10, 0x20, usize::MAX];
    let mut data = Vec::new();
    for value in source {
        data.extend_from_slice(&value.to_ne_bytes());
    }
    let list = Windows::decode(reply(WINDOW_TYPE, 32, 3, data, Layout::native()), WINDOW_TYPE).unwrap();
    assert_eq!(list.inner(), windows_of(&[0x10, 0x20, usize::MAX as u64]));
    let shorts: [u16; 2] = [0x0102, 0xfffe];
    let mut data = Vec::new();
    for value in shorts {
        data.extend_from_slice(&value.to_ne_bytes());
    }
    let list = Windows::decode(reply(WINDOW_TYPE, 16, 2, data, Layout::native()), WINDOW_TYPE).unwrap();
    assert_eq!(list.inner(), windows_of(&[0x0102, 0xfffe]));
}

#[test]
fn decode_any_count_in_every_format() {
    for count in 0..40usize {
        let bytes: Vec<u8> = (0..count).map(|index| (index * 7 + 1) as u8).collect();
        let list = Windows::decode(reply(WINDOW_TYPE, 8, count as u64, bytes.clone(), little_64()), WINDOW_TYPE).unwrap();
        let expected: Vec<Window> = bytes.iter().map(|byte| Window(*byte as u64)).collect();
        assert_eq!(list.as_vec().len(), count);
        assert_eq!(list.inner(), expected);

        let shorts: Vec<u16> = (0..count).map(|index| (index * 1031 + 5) as u16).collect();
        let mut data = Vec::new();
        for value in &shorts {
            data.extend_from_slice(&value.to_le_bytes());
        }
        let list = Windows::decode(reply(WINDOW_TYPE, 16, count as u64, data, little_64()), WINDOW_TYPE).unwrap();
        let expected: Vec<Window> = shorts.iter().map(|value| Window(*value as u64)).collect();
        assert_eq!(list.as_vec().len(), count);
        assert_eq!(list.inner(), expected);

        let words: Vec<u64> = (0..count).map(|index| (index as u64) * 0x0101_0101_0101 + 3).collect();
        let mut data = Vec::new();
        for value in &words {
            data.extend_from_slice(&value.to_le_bytes());
        }
        let list = Windows::decode(reply(WINDOW_TYPE, 32, count as u64, data, little_64()), WINDOW_TYPE).unwrap();
        let expected: Vec<Window> = words.iter().map(|value| Window(*value)).collect();
        assert_eq!(list.as_vec().len(), count);
        assert_eq!(list.inner(), expected);
    }
}

#[test]
fn decode_nothing_gives_an_empty_list() {
    for format in [8, 16, 32] {
        let list = Windows::decode(reply(WINDOW_TYPE, format, 0, Vec::new(), little_64()), WINDOW_TYPE).unwrap();
        assert!(list.inner().is_empty());
    }
}

#[test]
fn decode_reads_no_more_than_the_count() {
    let data = vec![1, 2, 3, 4, 5, 0];
    let list = Windows::decode(reply(WINDOW_TYPE, 8, 3, data, little_64()), WINDOW_TYPE).unwrap();
    assert_eq!(list.inner(), windows_of(&[1, 2, 3]));
    let data = vec![1, 0, 2, 0, 9];
    let list = Windows::decode(reply(WINDOW_TYPE, 16, 2, data, little_64()), WINDOW_TYPE).unwrap();
    assert_eq!(list.inner(), windows_of(&[1, 2]));
}

#[test]
fn decode_refuses_another_type() {
    let data = vec![1, 2, 3];
    assert!(Windows::decode(reply(WINDOW_TYPE + 1, 8, 3, data.clone(), little_64()), WINDOW_TYPE).is_err());
    assert!(Windows::decode(reply(0, 8, 3, data.clone(), little_64()), WINDOW_TYPE).is_err());
    assert!(Windows::decode(reply(WINDOW_TYPE, 8, 3, data.clone(), little_64()), 4).is_err());
    assert!(Windows::decode(reply(4, 8, 3, data, little_64()), 4).is_ok());
}

#[test]
fn decode_refuses_an_unknown_format() {
    let data = vec![0; 64];
    for format in [0, 1, 7, 9, 24, 31, 33, 64, -8, i32::MIN, i32::MAX] {
        let result = Windows::decode(reply(WINDOW_TYPE, format, 1, data.clone(), little_64()), WINDOW_TYPE);
        assert!(result.is_err(), "format {}", format);
    }
}

#[test]
fn decode_refuses_a_buffer_shorter_than_its_count() {
    assert!(Windows::decode(reply(WINDOW_TYPE, 8, 4, vec![1, 2, 3], little_64()), WINDOW_TYPE).is_err());
    assert!(Windows::decode(reply(WINDOW_TYPE, 16, 2, vec![1, 2, 3], little_64()), WINDOW_TYPE).is_err());
    assert!(Windows::decode(reply(WINDOW_TYPE, 32, 1, vec![1, 2, 3, 4], little_64()), WINDOW_TYPE).is_err());
    assert!(Windows::decode(reply(WINDOW_TYPE, 32, u64::MAX, vec![0; 16], little_64()), WINDOW_TYPE).is_err());
    assert!(Windows::decode(reply(WINDOW_TYPE, 8, 1, Vec::new(), little_64()), WINDOW_TYPE).is_err());
}

#[test]
fn item_size_of_each_format() {
    let small = layout_of(ByteOrder::LittleEndian, WordSize::Four);
    assert_eq!(item_size(8, little_64()), Some(1));
    assert_eq!(item_size(16, little_64()), Some(2));
    assert_eq!(item_size(32, little_64()), Some(8));
    assert_eq!(item_size(32, small), Some(4));
    assert_eq!(item_size(0, little_64()), None);
    assert_eq!(item_size(64, little_64()), None);
    assert_eq!(item_size(-16, little_64()), None);
}

#[test]
fn buffer_len_is_count_times_item_size() {
    let small = layout_of(ByteOrder::BigEndian, WordSize::Four);
    assert_eq!(buffer_len(8, 5, little_64()), Some(5));
    assert_eq!(buffer_len(16, 5, little_64()), Some(10));
    assert_eq!(buffer_len(32, 5, little_64()), Some(40));
    assert_eq!(buffer_len(32, 5, small), Some(20));
    assert_eq!(buffer_len(32, 0, small), Some(0));
    assert_eq!(buffer_len(0, 0, little_64()), None);
    assert_eq!(buffer_len(12, 3, little_64()), None);
    assert_eq!(buffer_len(32, u64::MAX, little_64()), None);
    assert_eq!(buffer_len(16, u64::MAX / 2 + 1, little_64()), None);
    assert_eq!(buffer_len(8, usize::MAX as u64, little_64()), Some(usize::MAX));
}

#[test]
fn windows_hand_out_their_items() {
    let mut list = Windows::decode(reply(WINDOW_TYPE, 8, 3, vec![5, 6, 7], little_64()), WINDOW_TYPE).unwrap();
    let walked: Vec<Window> = list.iter().copied().collect();
    assert_eq!(walked, windows_of(&[5, 6, 7]));
    assert_eq!(list.as_vec(), &windows_of(&[5, 6, 7]));
    list.as_vec_mut().push(Window(8));
    list.as_vec_mut()[0] = Window(4);
    assert_eq!(list.as_vec(), &windows_of(&[4, 6, 7, 8]));
    assert_eq!(list.iter().count(), 4);
    assert_eq!(list.inner(), windows_of(&[4, 6, 7, 8]));
}
