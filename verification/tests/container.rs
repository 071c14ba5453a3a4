use kos::services::kclip_logger::{
    finalize, frame_line, header_line, stored_header, ContainerError,
};

#[test]
fn header_line_is_base64_and_a_line_feed() {
    assert_eq!(header_line(&b"hello".to_vec()).unwrap(), "aGVsbG8=\n");
    assert_eq!(header_line(&vec![]).unwrap(), "\n");
    assert_eq!(header_line(&vec![0xff, 0xfe, 0xfd]).unwrap(), "//79\n");
    assert_eq!(header_line(&vec![0xfb, 0xef]).unwrap(), "++8=\n");
}

#[test]
fn frame_line_starts_with_the_frame_number() {
    assert_eq!(frame_line(12, &b"ab".to_vec()).unwrap(), "12,YWI=\n");
    assert_eq!(frame_line(0, &vec![]).unwrap(), "0,\n");
    assert_eq!(frame_line(u64::MAX, &vec![0]).unwrap(), "18446744073709551615,AA==\n");
}

#[test]
fn stored_header_reads_back_what_was_written() {
    let header = vec![1u8, 2, 3, 250, 251];
    let mut clip = header_line(&header).unwrap();
    clip.push_str(&frame_line(1, &vec![9, 9]).unwrap());
    clip.push_str(&frame_line(2, &vec![8]).unwrap());
    assert_eq!(stored_header(&clip).unwrap(), header);
    assert_eq!(stored_header("aGVsbG8=").unwrap(), b"hello".to_vec());
}

#[test]
fn an_empty_clip_has_no_header() {
    assert_eq!(stored_header("").unwrap_err(), ContainerError::Empty);
}

#[test]
fn a_first_line_that_is_not_base64_is_refused() {
    assert_eq!(stored_header("not base64!\nrest").unwrap_err(), ContainerError::HeaderNotBase64);
    assert_eq!(stored_header("aGVsbG8\n").unwrap_err(), ContainerError::HeaderNotBase64);
}

#[test]
fn an_empty_first_line_is_an_empty_header() {
    assert_eq!(stored_header("\n1,AA==\n").unwrap(), Vec::<u8>::new());
}

#[test]
fn header_round_trip() {
    let opened = vec![10u8, 20, 30, 0];
    let mut clip = header_line(&opened).unwrap();
    let frames = format!(
        "{}{}{}",
        frame_line(1, &vec![1, 1, 1]).unwrap(),
        frame_line(2, &vec![2, 2]).unwrap(),
        frame_line(5, &vec![]).unwrap()
    );
    clip.push_str(&frames);
    let closed = vec![10u8, 20, 30, 99, 98, 97];
    let patched = finalize(&clip, &closed).unwrap();
    assert_eq!(stored_header(&patched).unwrap(), closed);
    assert_eq!(patched, format!("{}{}", header_line(&closed).unwrap(), frames));
    assert!(patched.ends_with(&frames));
    assert_eq!(patched.lines().count(), clip.lines().count());
    assert_eq!(
        patched.lines().skip(1).collect::<Vec<_>>(),
        clip.lines().skip(1).collect::<Vec<_>>()
    );
}

#[test]
fn finalizing_a_clip_without_frames() {
    assert_eq!(finalize("aGVsbG8=\n", &b"ab".to_vec()).unwrap(), "YWI=\n");
    assert_eq!(finalize("aGVsbG8=", &b"ab".to_vec()).unwrap(), "YWI=\n");
    assert_eq!(finalize("", &b"ab".to_vec()).unwrap(), "YWI=\n");
}

#[test]
fn finalizing_keeps_every_byte_after_the_first_line() {
    let rest = "1,AA==\n\n  odd line\r\n2,AQ==";
    let clip = format!("old\n{rest}");
    assert_eq!(finalize(&clip, &vec![7]).unwrap(), format!("Bw==\n{rest}"));
}
