use shmoo::error::{os_result, ENOENT, EPERM};
use shmoo::options::{prepend_slash, DEFAULT_MODE};
use shmoo::segment::{check_overlay, unlink_result, HEADER_SIZE, MAX_LEN};
use shmoo::{Error, ErrorKind, Header, OpenOptions};

fn segment_bytes(h: &Header) -> Vec<u8> {
    let mut bytes = vec![0u8; h.mapped_len()];
    h.write_to(&mut bytes);
    bytes
}

#[test]
fn create_puts_cursor_after_header() {
    let h = Header::create(100).unwrap();
    assert_eq!(h.len, 100);
    assert_eq!(h.next, HEADER_SIZE);
    assert_eq!(h.mapped_len(), 116);
    assert_eq!(h.remaining_len(), 100);
}

#[test]
fn create_zero_size_is_refused() {
    let e = Header::create(0).unwrap_err();
    assert_eq!(e.kind(), ErrorKind::SizeError(0));
}

#[test]
fn create_oversized_is_refused() {
    let e = Header::create(MAX_LEN + 1).unwrap_err();
    assert_eq!(e.kind(), ErrorKind::SizeError(MAX_LEN));
    assert!(Header::create(MAX_LEN).is_ok());
}

#[test]
fn header_layout_is_two_little_endian_words() {
    let h = Header { len: 0x0102, next: 0x10 };
    let bytes = segment_bytes(&h);
    assert_eq!(&bytes[..8], &[0x02, 0x01, 0, 0, 0, 0, 0, 0]);
    assert_eq!(&bytes[8..16], &[0x10, 0, 0, 0, 0, 0, 0, 0]);
}

#[test]
fn write_leaves_values_after_header() {
    let h = Header::create(8).unwrap();
    let mut bytes = vec![7u8; 24];
    h.write_to(&mut bytes);
    assert_eq!(&bytes[16..], &[7u8; 8]);
}

#[test]
fn reopen_recovers_header_and_value() {
    // Create, place a value, write it; then read the same bytes back as an
    // opener does and overlay the value at its offset.
    let mut h = Header::create(64).unwrap();
    let base = 4096usize;
    let at = h.place_value::<u64>(base).unwrap();
    assert_eq!(at, HEADER_SIZE);
    let mut bytes = segment_bytes(&h);
    bytes[at..at + 8].copy_from_slice(&0xdead_beef_u64.to_le_bytes());
    let opened = Header::read_from(&bytes).unwrap();
    assert_eq!(opened, h);
    assert_eq!(opened.next, HEADER_SIZE + 8);
    assert!(opened.check_value_at::<u64>(at, base).is_ok());
    let mut word = [0u8; 8];
    word.copy_from_slice(&bytes[at..at + 8]);
    assert_eq!(u64::from_le_bytes(word), 0xdead_beef);
}

#[test]
fn read_short_bytes_is_refused() {
    let e = Header::read_from(&[0u8; 10]).unwrap_err();
    assert_eq!(e.kind(), ErrorKind::SizeError(10));
}

#[test]
fn read_inconsistent_header_is_refused() {
    // Claims 100 usable bytes in a segment of 32.
    let h = Header { len: 100, next: 16 };
    let mut bytes = vec![0u8; 32];
    h.write_to(&mut bytes);
    assert_eq!(Header::read_from(&bytes).unwrap_err().kind(), ErrorKind::SizeError(32));
    // A cursor inside the header.
    let h = Header { len: 16, next: 4 };
    let mut bytes = vec![0u8; 32];
    h.write_to(&mut bytes);
    assert_eq!(Header::read_from(&bytes).unwrap_err().kind(), ErrorKind::SizeError(32));
}

#[test]
fn place_advances_cursor_by_size() {
    let mut h = Header::create(32).unwrap();
    assert_eq!(h.place(4, 4, 0).unwrap(), 16);
    assert_eq!(h.next, 20);
    assert_eq!(h.place(4, 4, 0).unwrap(), 20);
    assert_eq!(h.next, 24);
    assert_eq!(h.remaining_len(), 24);
}

#[test]
fn place_too_large_keeps_cursor() {
    let mut h = Header::create(32).unwrap();
    h.place(24, 8, 0).unwrap();
    let e = h.place(16, 8, 0).unwrap_err();
    assert_eq!(e.kind(), ErrorKind::SizeError(8));
    assert_eq!(h.next, 40);
    assert_eq!(h.place(8, 8, 0).unwrap(), 40);
    assert_eq!(h.remaining_len(), 0);
}

#[test]
fn cursor_never_moves_back_over_placements() {
    let mut h = Header::create(100).unwrap();
    let reqs = [(8, 8), (3, 1), (8, 8), (200, 1), (4, 4), (1, 1), (64, 8), (60, 4)];
    let mut last = h.next;
    for (size, align) in reqs {
        let before = h;
        match h.place(size, align, 0) {
            Ok(at) => {
                assert_eq!(at, before.next);
                assert_eq!(h.next, before.next + size);
            }
            Err(_) => assert_eq!(h, before),
        }
        assert!(h.next >= last);
        assert!(h.next <= HEADER_SIZE + h.len);
        last = h.next;
    }
}

#[test]
fn place_misaligned_is_refused() {
    let mut h = Header::create(32).unwrap();
    h.place(3, 1, 0).unwrap();
    let e = h.place(8, 8, 0).unwrap_err();
    assert_eq!(e.kind(), ErrorKind::AlignmentError(8));
    assert_eq!(h.next, 19);
    // The base address counts too.
    let mut h = Header::create(32).unwrap();
    let e = h.place(4, 4, 2).unwrap_err();
    assert_eq!(e.kind(), ErrorKind::AlignmentError(4));
}

#[test]
fn overlay_checks_size_then_alignment() {
    assert!(check_overlay(8, 16, 8, 8).is_ok());
    assert_eq!(check_overlay(4, 16, 8, 8).unwrap_err().kind(), ErrorKind::SizeError(4));
    assert_eq!(check_overlay(8, 12, 8, 8).unwrap_err().kind(), ErrorKind::AlignmentError(8));
    for addr in [1usize, 2, 3, 5, 7, 9, 15] {
        assert_eq!(
            check_overlay(64, addr, 4, 4).err().map(|e| e.kind()),
            if addr % 4 == 0 { None } else { Some(ErrorKind::AlignmentError(4)) }
        );
    }
}

#[test]
fn overlay_at_offset_outside_segment_is_refused() {
    let h = Header::create(16).unwrap();
    assert_eq!(h.check_at(40, 1, 1, 0).unwrap_err().kind(), ErrorKind::SizeError(0));
    assert_eq!(h.check_at(8, 1, 1, 0).unwrap_err().kind(), ErrorKind::SizeError(0));
    assert_eq!(h.check_at(24, 16, 8, 0).unwrap_err().kind(), ErrorKind::SizeError(8));
    assert!(h.check_at(24, 8, 8, 0).is_ok());
    assert_eq!(h.check_value_at::<u32>(26, 0).unwrap_err().kind(), ErrorKind::AlignmentError(4));
}

#[test]
fn releases_tolerate_a_name_already_removed() {
    assert!(unlink_result(None).is_ok());
    assert!(unlink_result(Some(ENOENT)).is_ok());
    assert_eq!(unlink_result(Some(13)).unwrap_err().kind(), ErrorKind::IoError(13));
}

#[test]
fn os_status_codes() {
    assert!(os_result(0).is_ok());
    assert_eq!(os_result(EPERM).unwrap_err().kind(), ErrorKind::IoError(EPERM));
}

#[test]
fn names_get_a_leading_slash() {
    assert_eq!(prepend_slash("shmoo"), "/shmoo");
    assert_eq!(prepend_slash("/shmoo"), "/shmoo");
    assert_eq!(prepend_slash(""), "/");
    assert_eq!(prepend_slash("a/b"), "/a/b");
}

#[test]
fn options_builders() {
    let o = OpenOptions::new();
    assert_eq!(o.mode, DEFAULT_MODE);
    assert!(!o.create && !o.exclusive && !o.read && !o.write && !o.execute);
    assert_eq!(o.offset, 0);
    assert_eq!(OpenOptions::default(), o);
    let o = o.read(true).write(true).execute(true).create(true).exclusive(true).offset(4096).mode(0o600);
    assert!(o.read && o.write && o.execute && o.create && o.exclusive);
    assert_eq!(o.offset, 4096);
    assert_eq!(o.mode, 0o600);
    let o = o.execute(false).exclusive(false);
    assert!(!o.execute && !o.exclusive && o.read);
    let c = OpenOptions::for_create();
    assert!(c.create && c.exclusive && c.read && c.write && !c.execute);
    let p = OpenOptions::for_open();
    assert!(!p.create && p.read && p.write);
}

#[test]
fn modes_outside_permission_bits_are_refused() {
    assert_eq!(OpenOptions::new().try_mode(0o7777).map(|o| o.mode), Some(0o7777));
    assert_eq!(OpenOptions::new().try_mode(0o640).map(|o| o.mode), Some(0o640));
    assert!(OpenOptions::new().try_mode(0o10000).is_none());
    assert!(OpenOptions::new().try_mode(0o100644).is_none());
}

#[test]
fn error_messages() {
    let e = Error::new(ErrorKind::SizeError(24));
    assert_eq!(e.message(), "size of object must be less than or equal to 24 bytes");
    let e = Error::new(ErrorKind::SizeError(0));
    assert_eq!(e.message(), "size of object must be less than or equal to 0 bytes");
    let e = Error::new(ErrorKind::AlignmentError(8));
    assert_eq!(e.message(), "alignment of object must have an alignment of 8");
    let e = Error::new(ErrorKind::SizeError(1234567890));
    assert_eq!(e.message(), "size of object must be less than or equal to 1234567890 bytes");
    let e = Error::new(ErrorKind::IoError(ENOENT));
    let m = e.message();
    assert!(m.starts_with("io error: "));
    assert!(m.contains("os error 2"));
}
