use ksud::codec::{
    decode_mount_list, encode_mount_list, umount_list_list, MountInfo, WireEntry,
};
use ksud::KsuError;

fn entry(path: &[u8], flags: u32) -> WireEntry {
    WireEntry { path: path.to_vec(), flags }
}

#[test]
fn round_trip_two_entries() {
    let entries = vec![entry(b"/system", 1), entry(b"/vendor", 0xdead_beef)];
    let bytes = encode_mount_list(&entries);
    let back = decode_mount_list(&bytes).unwrap();
    assert_eq!(back, entries);
}

#[test]
fn round_trip_empty_path() {
    let entries = vec![entry(b"", 7), entry(b"/data", 0)];
    let bytes = encode_mount_list(&entries);
    assert_eq!(&bytes[..5], &[0u8, 7, 0, 0, 0]);
    let back = decode_mount_list(&bytes).unwrap();
    assert_eq!(back, entries);
}

#[test]
fn empty_buffer_is_empty_list() {
    let back = decode_mount_list(&Vec::new()).unwrap();
    assert!(back.is_empty());
}

#[test]
fn missing_terminator_is_malformed() {
    let buf = vec![b'a', b'b', b'c'];
    let r = decode_mount_list(&buf);
    assert_eq!(r, Err(KsuError::MalformedBuffer));
}

#[test]
fn missing_terminator_in_second_entry_is_malformed() {
    let mut buf = encode_mount_list(&vec![entry(b"/a", 5)]);
    buf.extend_from_slice(b"/b/c/d/e");
    let r = decode_mount_list(&buf);
    assert_eq!(r, Err(KsuError::MalformedBuffer));
}

#[test]
fn truncated_trailer_is_benign() {
    let prior = vec![entry(b"/a", 5)];
    let mut buf = encode_mount_list(&prior);
    buf.extend_from_slice(b"/b\0");
    buf.push(1);
    buf.push(2);
    let back = decode_mount_list(&buf).unwrap();
    assert_eq!(back, prior);
}

#[test]
fn flags_read_least_significant_byte_first() {
    let buf = vec![b'a', b'b', 0, 0x78, 0x56, 0x34, 0x12];
    let back = decode_mount_list(&buf).unwrap();
    assert_eq!(back.len(), 1);
    assert_eq!(back[0].path, b"ab".to_vec());
    assert_eq!(back[0].flags, 0x1234_5678);
}

#[test]
fn encode_single_entry_exact_bytes() {
    let bytes = encode_mount_list(&vec![entry(b"a", 0)]);
    assert_eq!(bytes, vec![b'a', 0, 0, 0, 0, 0]);
}

#[test]
fn list_decodes_valid_utf8_paths_exactly() {
    let buf = encode_mount_list(&vec![entry("/däta".as_bytes(), 3)]);
    let list: Vec<MountInfo> = umount_list_list(&buf).unwrap();
    assert_eq!(list.len(), 1);
    assert_eq!(list[0].path, "/däta");
    assert_eq!(list[0].flags, 3);
}

#[test]
fn list_decodes_invalid_utf8_leniently() {
    let buf = vec![0xff, 0xfe, 0, 9, 0, 0, 0];
    let list = umount_list_list(&buf).unwrap();
    assert_eq!(list.len(), 1);
    assert_eq!(list[0].path, "\u{FFFD}\u{FFFD}");
    assert_eq!(list[0].flags, 9);
}

#[test]
fn list_propagates_malformed_buffer() {
    let buf = vec![1, 2, 3, 4, 5];
    assert_eq!(umount_list_list(&buf).unwrap_err(), KsuError::MalformedBuffer);
}
