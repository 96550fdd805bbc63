use camera_tethering::camera::framing::{frame, frame_header, frame_len, unframe};

#[test]
fn the_most_significant_byte_comes_first() {
    assert_eq!(frame_header(0), [0, 0, 0, 0]);
    assert_eq!(frame_header(258), [0, 0, 1, 2]);
    assert_eq!(frame_header(0x0102_0304), [1, 2, 3, 4]);
    assert_eq!(frame_len([1, 2, 3, 4]), 0x0102_0304);
    assert_eq!(frame_len([255, 255, 255, 255]), 0xffff_ffff);
}

#[test]
fn lengths_come_back() {
    for len in [0usize, 1, 255, 256, 65_535, 65_536, 16_777_216, 0xffff_ffff] {
        assert_eq!(frame_len(frame_header(len)), len);
    }
}

#[test]
fn a_length_that_needs_more_bytes_is_counted_anew() {
    assert_eq!(frame_header(0x1_0000_0007), [0, 0, 0, 7]);
}

#[test]
fn a_message_stands_behind_its_length() {
    assert_eq!(frame(vec![7, 8, 9]), vec![0, 0, 0, 3, 7, 8, 9]);
    assert_eq!(frame(vec![]), vec![0, 0, 0, 0]);
}

#[test]
fn a_message_that_is_not_all_there_is_not_taken() {
    assert_eq!(unframe(vec![]), None);
    assert_eq!(unframe(vec![0, 0, 0]), None);
    assert_eq!(unframe(vec![0, 0, 0, 2, 5]), None);
    assert_eq!(unframe(vec![0, 0, 0, 2, 5, 6]), Some((vec![5, 6], vec![])));
    assert_eq!(unframe(vec![0, 0, 0, 0, 1]), Some((vec![], vec![1])));
}

#[test]
fn messages_come_back_in_order() {
    let messages: Vec<Vec<u8>> = vec![vec![1, 2, 3], vec![], vec![9; 300]];
    let mut stream: Vec<u8> = vec![];
    for message in &messages {
        stream.extend(frame(message.clone()));
    }
    for message in messages {
        let (taken, rest) = unframe(stream).unwrap();
        assert_eq!(taken, message);
        stream = rest;
    }
    assert!(stream.is_empty());
}
