use exbar::dropfiles::{first_dropped_name, DroppedName};

fn header(p_files: u32, wide: bool) -> Vec<u8> {
    let mut b = vec![0u8; 20];
    b[..4].copy_from_slice(&p_files.to_le_bytes());
    if wide {
        b[16] = 1;
    }
    b
}

#[test]
fn wide_names() {
    let mut b = header(20, true);
    for u in "C:\\Temp\\d\u{e9}j\u{e0}".encode_utf16() {
        b.extend_from_slice(&u.to_le_bytes());
    }
    b.extend_from_slice(&[0, 0, 0, 0]);
    assert_eq!(first_dropped_name(&b), Some(DroppedName::Wide("C:\\Temp\\d\u{e9}j\u{e0}".to_string())));
}

#[test]
fn ansi_names_come_back_as_bytes() {
    let mut b = header(20, false);
    b.extend_from_slice(b"C:\\x\xe9");
    b.push(0);
    b.push(0);
    assert_eq!(first_dropped_name(&b), Some(DroppedName::Ansi(b"C:\\x\xe9".to_vec())));
}

#[test]
fn empty_or_truncated_names() {
    let mut b = header(20, true);
    b.extend_from_slice(&[0, 0]);
    assert_eq!(first_dropped_name(&b), None);
    let mut b = header(20, true);
    b.extend_from_slice(&[0x41, 0]);
    assert_eq!(first_dropped_name(&b), None);
    assert_eq!(first_dropped_name(&[0u8; 10]), None);
    let b = header(200, false);
    assert_eq!(first_dropped_name(&b), None);
}

#[test]
fn unpaired_surrogate_is_replaced() {
    let mut b = header(20, true);
    for u in [0xD800u16, 0x41, 0] {
        b.extend_from_slice(&u.to_le_bytes());
    }
    assert_eq!(first_dropped_name(&b), Some(DroppedName::Wide("\u{FFFD}A".to_string())));
}
