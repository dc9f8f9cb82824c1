use x11_get_windows::Window;

#[test]
fn title_of_a_null_buffer_is_null() {
    assert!(Window(0x20).get_title(None).is_err());
    assert!(Window(0).get_title(None).is_err());
}

#[test]
fn title_matches_the_buffer() {
    let title = Window(0x20).get_title(Some(b"xterm")).unwrap();
    assert_eq!(title.as_bytes(), b"xterm");
    assert_eq!(title.into_bytes(), b"xterm".to_vec());
}

#[test]
fn title_may_be_empty() {
    let title = Window(1).get_title(Some(b"")).unwrap();
    assert_eq!(title.as_bytes(), b"");
    let title = Window(1).get_title(Some(b"\0")).unwrap();
    assert_eq!(title.as_bytes(), b"");
}

#[test]
fn title_ends_at_the_first_nul() {
    let title = Window(1).get_title(Some(b"Window Title 1\0")).unwrap();
    assert_eq!(title.as_bytes(), b"Window Title 1");
    let title = Window(1).get_title(Some(b"one\0two\0")).unwrap();
    assert_eq!(title.as_bytes(), b"one");
}

#[test]
fn title_need_not_be_utf8() {
    let buffer = [0xff, 0xfe, 0x80, 0x41];
    let title = Window(1).get_title(Some(&buffer)).unwrap();
    assert_eq!(title.as_bytes(), &buffer);
}
