use great_appender::buffer::fill_big_buffer;

#[test]
fn scenario_x_per_write_10() {
    // Five 2-byte repetitions: 5 * 2 = 10 >= 10, while 4 * 2 = 8 < 10.
    let mut buf: Vec<u8> = Vec::new();
    fill_big_buffer(&mut buf, "x", 10);
    assert_eq!(buf, b"x\nx\nx\nx\nx\n".to_vec());
    assert_eq!(buf.len(), 10);
}

#[test]
fn scenario_hello_per_write_1() {
    // The first repetition alone (6 bytes) already reaches the target.
    let mut buf: Vec<u8> = Vec::new();
    fill_big_buffer(&mut buf, "hello", 1);
    assert_eq!(buf, b"hello\n".to_vec());
}

#[test]
fn scenario_per_write_zero() {
    // A target of zero still yields exactly one full repetition.
    let mut buf: Vec<u8> = Vec::new();
    fill_big_buffer(&mut buf, "abc", 0);
    assert_eq!(buf, b"abc\n".to_vec());
}

#[test]
fn length_at_least_target_and_whole_repetitions() {
    let mut buf: Vec<u8> = Vec::new();
    fill_big_buffer(&mut buf, "ab", 7);
    assert_eq!(buf, b"ab\nab\nab\n".to_vec());
    assert!(buf.len() >= 7);
    assert_eq!(buf.len() % 3, 0);
}

#[test]
fn empty_message_degenerates_to_newlines() {
    let mut buf: Vec<u8> = Vec::new();
    fill_big_buffer(&mut buf, "", 3);
    assert_eq!(buf, b"\n\n\n".to_vec());
}

#[test]
fn appends_after_existing_contents() {
    let mut buf: Vec<u8> = b"zz".to_vec();
    fill_big_buffer(&mut buf, "x", 3);
    assert_eq!(buf, b"zzx\nx\n".to_vec());
}
