use lanzaboote::pe::pe_section;

// Lay out a minimal executable image of `total` bytes: DOS stub with its
// magic, the offset of the `PE\0\0` signature at the stub's tail, a file
// header with the section count and an optional-header size of zero, and one
// 40-byte table entry per section as (name, file offset, file size).
fn build_image(sections: &[(&[u8], u32, u32)], total: usize) -> Vec<u8> {
    let mut img = vec![0u8; total];
    img[0] = 0x4d;
    img[1] = 0x5a;
    let pe_off: u32 = 64;
    img[60..64].copy_from_slice(&pe_off.to_le_bytes());
    img[64] = 0x50;
    img[65] = 0x45;
    let count = sections.len() as u16;
    img[70..72].copy_from_slice(&count.to_le_bytes());
    let mut e = 88usize;
    for (name, off, size) in sections {
        img[e..e + name.len()].copy_from_slice(name);
        img[e + 16..e + 20].copy_from_slice(&size.to_le_bytes());
        img[e + 20..e + 24].copy_from_slice(&off.to_le_bytes());
        e += 40;
    }
    img
}

#[test]
fn extractor_rejects_empty_input() {
    assert_eq!(pe_section(&[], b"X"), None);
}

#[test]
fn extractor_rejects_input_shorter_than_header() {
    let short = vec![0x4d, 0x5a, 0, 0, 0, 0, 0, 0, 0, 0];
    assert_eq!(pe_section(&short, b"X"), None);
}

#[test]
fn extractor_rejects_bad_dos_magic() {
    let mut img = build_image(&[(b"X", 128, 8)], 200);
    img[0] = 0x58;
    assert_eq!(pe_section(&img, b"X"), None);
}

#[test]
fn extractor_rejects_bad_pe_signature() {
    let mut img = build_image(&[(b"X", 128, 8)], 200);
    img[65] = 0x51;
    assert_eq!(pe_section(&img, b"X"), None);
}

#[test]
fn extractor_rejects_out_of_bounds_range() {
    let img = build_image(&[(b"X", 1000, 1000)], 200);
    assert_eq!(pe_section(&img, b"X"), None);
}

#[test]
fn extractor_rejects_range_overrunning_end() {
    // The section starts inside the buffer but its declared size runs past it.
    let img = build_image(&[(b"X", 128, 100)], 200);
    assert_eq!(pe_section(&img, b"X"), None);
}

#[test]
fn extractor_rejects_truncated_section_table() {
    // The header claims three sections but the buffer ends inside the table.
    let mut img = build_image(&[(b"X", 128, 8)], 200);
    img[70..72].copy_from_slice(&3u16.to_le_bytes());
    img.truncate(100);
    assert_eq!(pe_section(&img, b"X"), None);
}

#[test]
fn section_lookup_returns_exact_range() {
    let mut img = build_image(&[(b"X", 128, 8)], 200);
    for i in 0..8 {
        img[128 + i] = 0xa0 + i as u8;
    }
    let got = pe_section(&img, b"X").expect("section X should be found");
    assert_eq!(got, &img[128..136]);
    assert_eq!(got[0], 0xa0);
    assert_eq!(got[7], 0xa7);
}

#[test]
fn section_lookup_absent_name() {
    let img = build_image(&[(b"X", 128, 8)], 200);
    assert_eq!(pe_section(&img, b"Y"), None);
}

#[test]
fn section_lookup_scans_past_other_sections() {
    let img = build_image(&[(b"A", 170, 4), (b"B", 180, 6)], 200);
    assert_eq!(pe_section(&img, b"B").expect("section B"), &img[180..186]);
}

#[test]
fn section_lookup_zero_length_section() {
    let img = build_image(&[(b"Z", 190, 0)], 200);
    let got = pe_section(&img, b"Z").expect("section Z");
    assert_eq!(got.len(), 0);
}

#[test]
fn name_comparison_rejects_longer_query() {
    // A section named "AB" must not match a query for "ABC".
    let img = build_image(&[(b"AB", 128, 8)], 200);
    assert!(pe_section(&img, b"AB").is_some());
    assert_eq!(pe_section(&img, b"ABC"), None);
}

#[test]
fn name_comparison_rejects_shorter_query() {
    // A section named "ABC" must not match a query for "AB".
    let img = build_image(&[(b"ABC", 128, 8)], 200);
    assert!(pe_section(&img, b"ABC").is_some());
    assert_eq!(pe_section(&img, b"AB"), None);
}

#[test]
fn name_comparison_full_width_name() {
    let img = build_image(&[(b"ABCDEFGH", 128, 8)], 200);
    assert!(pe_section(&img, b"ABCDEFGH").is_some());
    assert_eq!(pe_section(&img, b"ABCDEFGHI"), None);
}
