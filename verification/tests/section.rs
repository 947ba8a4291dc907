use sunder::container::{ExecutableImage, PeRecord, Section};
use sunder::section::{locate_section, name_matches, window, LocateError};

fn section_named(name: &[u8; 8], offset: u32, size: u32, va: u32) -> Section {
    Section { name: *name, pointer_to_raw_data: offset, size_of_raw_data: size, virtual_address: va }
}

fn image_of(bytes: Vec<u8>, base: u64, sections: Vec<Section>) -> ExecutableImage {
    ExecutableImage::assemble(bytes, PeRecord { image_base: base, sections, imports: Vec::new() })
}

#[test]
fn padding_is_trimmed_before_the_names_are_compared() {
    assert!(name_matches(b".text\0\0\0", b".text"));
    assert!(name_matches(b".text", b".text"));
    assert!(name_matches(b"longname", b"longname"));
    assert!(name_matches(b"\0\0\0\0\0\0\0\0", b""));
    assert!(name_matches(b"", b""));
}

#[test]
fn names_are_compared_exactly() {
    assert!(!name_matches(b".text\0\0\0", b".TEXT"));
    assert!(!name_matches(b".text\0\0\0", b".tex"));
    assert!(!name_matches(b".text\0\0\0", b".text1"));
    assert!(!name_matches(b".textx\0\0", b".text"));
    assert!(!name_matches(b".text\0\0\0", b".text\0"));
    assert!(!name_matches(b".text\0\0\0", b""));
}

#[test]
fn only_trailing_padding_is_trimmed() {
    assert!(!name_matches(b"\0.text\0\0", b".text"));
    assert!(name_matches(b"\0.text\0\0", b"\0.text"));
    assert!(name_matches(b"a\0b\0\0\0\0\0", b"a\0b"));
}

#[test]
fn window_holds_the_raw_bytes_and_the_virtual_address() {
    let bytes: Vec<u8> = (0..32u8).collect();
    let found = window(&bytes, 0x1_4000_0000, &section_named(b".text\0\0\0", 4, 3, 0x1000)).unwrap();
    assert_eq!(found.bytes, &[4, 5, 6]);
    assert_eq!(found.address, 0x1_4000_1000);
    let whole = window(&bytes, 0, &section_named(b".text\0\0\0", 0, 32, 0)).unwrap();
    assert_eq!(whole.bytes, &bytes[..]);
    assert_eq!(whole.address, 0);
    let empty = window(&bytes, 7, &section_named(b".text\0\0\0", 32, 0, 1)).unwrap();
    assert!(empty.bytes.is_empty());
    assert_eq!(empty.address, 8);
}

#[test]
fn window_past_the_end_is_refused_not_cut_short() {
    let bytes: Vec<u8> = (0..32u8).collect();
    let section = section_named(b".text\0\0\0", 30, 3, 0x1000);
    assert_eq!(window(&bytes, 0, &section).unwrap_err(), LocateError::OutOfBounds);
    let section = section_named(b".text\0\0\0", 33, 0, 0x1000);
    assert_eq!(window(&bytes, 0, &section).unwrap_err(), LocateError::OutOfBounds);
    let section = section_named(b".text\0\0\0", u32::MAX, u32::MAX, 0x1000);
    assert_eq!(window(&bytes, 0, &section).unwrap_err(), LocateError::OutOfBounds);
}

#[test]
fn window_address_wraps_in_64_bits() {
    let bytes = vec![0u8; 4];
    let found = window(&bytes, u64::MAX, &section_named(b".text\0\0\0", 0, 4, 0x11)).unwrap();
    assert_eq!(found.address, 0x10);
}

#[test]
fn locate_finds_the_section_by_name() {
    let bytes: Vec<u8> = (0..64u8).collect();
    let image = image_of(
        bytes,
        0x40_0000,
        vec![
            section_named(b".data\0\0\0", 8, 8, 0x2000),
            section_named(b".text\0\0\0", 16, 4, 0x1000),
        ],
    );
    let found = locate_section(&image, b".text").unwrap();
    assert_eq!(found.bytes, &[16, 17, 18, 19]);
    assert_eq!(found.address, 0x40_1000);
    let data = locate_section(&image, b".data").unwrap();
    assert_eq!(data.bytes, &[8, 9, 10, 11, 12, 13, 14, 15]);
    assert_eq!(data.address, 0x40_2000);
}

#[test]
fn locate_takes_the_first_of_two_sections_with_one_name() {
    let bytes: Vec<u8> = (0..64u8).collect();
    let image = image_of(
        bytes,
        0,
        vec![
            section_named(b".text\0\0\0", 1, 2, 0x1000),
            section_named(b".text\0\0\0", 5, 2, 0x3000),
        ],
    );
    let found = locate_section(&image, b".text").unwrap();
    assert_eq!(found.bytes, &[1, 2]);
    assert_eq!(found.address, 0x1000);
}

#[test]
fn locate_reports_a_missing_section() {
    let image = image_of(vec![0; 16], 0, vec![section_named(b".data\0\0\0", 0, 4, 0)]);
    assert_eq!(locate_section(&image, b".text").unwrap_err(), LocateError::NotFound);
    let none = image_of(vec![0; 16], 0, Vec::new());
    assert_eq!(locate_section(&none, b".text").unwrap_err(), LocateError::NotFound);
}

#[test]
fn locate_reports_raw_data_past_the_buffer() {
    let image = image_of(
        vec![0; 16],
        0,
        vec![
            section_named(b".text\0\0\0", 8, 9, 0x1000),
            section_named(b".text\0\0\0", 0, 4, 0x1000),
        ],
    );
    assert_eq!(locate_section(&image, b".text").unwrap_err(), LocateError::OutOfBounds);
}
