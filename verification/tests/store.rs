use sunder::container::{ExecutableImage, Format, ImportDescriptor, ParseError, PeRecord, Section};
use sunder::disasm::Bitness;
use sunder::store::{analyze, parse_pe, AnalysisResult, CodeStatus};

fn store_at(buf: &mut Vec<u8>, at: usize, bytes: &[u8]) {
    if buf.len() < at + bytes.len() {
        buf.resize(at + bytes.len(), 0);
    }
    buf[at..at + bytes.len()].copy_from_slice(bytes);
}

/// A PE32+ image based at 0x140000000 with one code section of the given name
/// and raw bytes at file offset 0x400 and RVA 0x1000. With `imports`, an
/// `.idata` section imports `ExitProcess` (hint 5) from `KERNEL32.dll`.
fn minimal_pe(code_name: &[u8; 8], code: &[u8], imports: bool) -> Vec<u8> {
    let mut buf = vec![0u8; 0x40];
    store_at(&mut buf, 0, b"MZ");
    store_at(&mut buf, 0x3C, &0x40u32.to_le_bytes());
    store_at(&mut buf, 0x40, b"PE\0\0");
    let coff = 0x44;
    store_at(&mut buf, coff, &0x8664u16.to_le_bytes());
    store_at(&mut buf, coff + 2, &(if imports { 2u16 } else { 1u16 }).to_le_bytes());
    store_at(&mut buf, coff + 16, &0xF0u16.to_le_bytes());
    store_at(&mut buf, coff + 18, &0x0022u16.to_le_bytes());
    let opt = coff + 20;
    store_at(&mut buf, opt, &0x020Bu16.to_le_bytes());
    store_at(&mut buf, opt + 24, &0x1_4000_0000u64.to_le_bytes());
    store_at(&mut buf, opt + 32, &0x1000u32.to_le_bytes());
    store_at(&mut buf, opt + 36, &0x200u32.to_le_bytes());
    store_at(&mut buf, opt + 56, &0x10000u32.to_le_bytes());
    store_at(&mut buf, opt + 60, &0x400u32.to_le_bytes());
    store_at(&mut buf, opt + 108, &16u32.to_le_bytes());
    let table = opt + 0xF0;
    store_at(&mut buf, table, &code_name[..]);
    store_at(&mut buf, table + 8, &(code.len() as u32).to_le_bytes());
    store_at(&mut buf, table + 12, &0x1000u32.to_le_bytes());
    store_at(&mut buf, table + 16, &(code.len() as u32).to_le_bytes());
    store_at(&mut buf, table + 20, &0x400u32.to_le_bytes());
    buf.resize(0x400, 0);
    store_at(&mut buf, 0x400, code);
    if imports {
        store_at(&mut buf, opt + 112 + 8, &0x2000u32.to_le_bytes());
        store_at(&mut buf, opt + 112 + 12, &40u32.to_le_bytes());
        store_at(&mut buf, table + 40, b".idata\0\0");
        store_at(&mut buf, table + 48, &0x200u32.to_le_bytes());
        store_at(&mut buf, table + 52, &0x2000u32.to_le_bytes());
        store_at(&mut buf, table + 56, &0x200u32.to_le_bytes());
        store_at(&mut buf, table + 60, &0x600u32.to_le_bytes());
        let idata = 0x600;
        store_at(&mut buf, idata, &0x2040u32.to_le_bytes());
        store_at(&mut buf, idata + 12, &0x2080u32.to_le_bytes());
        store_at(&mut buf, idata + 16, &0x2060u32.to_le_bytes());
        store_at(&mut buf, idata + 0x40, &0x2090u64.to_le_bytes());
        store_at(&mut buf, idata + 0x60, &0x2090u64.to_le_bytes());
        store_at(&mut buf, idata + 0x80, b"KERNEL32.dll\0");
        store_at(&mut buf, idata + 0x90, &5u16.to_le_bytes());
        store_at(&mut buf, idata + 0x92, b"ExitProcess\0");
        buf.resize(0x800, 0);
    }
    buf
}

#[test]
fn single_return_in_the_code_section() {
    let result = parse_pe(minimal_pe(b".text\0\0\0", &[0xC3], false)).unwrap();
    assert_eq!(result.instruction_count(), 1);
    let first = result.instruction_at(0).unwrap();
    assert_eq!(first.address, 0x1_4000_1000);
    assert!(first.text.contains("ret"));
    assert_eq!(first.display_line(), "0000000140001000  ret");
    assert!(result.instruction_at(1).is_none());
    assert_eq!(result.code_status(), CodeStatus::Decoded);
}

#[test]
fn invalid_code_bytes_still_load() {
    let result = parse_pe(minimal_pe(b".text\0\0\0", &[0xFF, 0xFF], true)).unwrap();
    assert_eq!(result.instruction_count(), 0);
    assert!(result.instruction_at(0).is_none());
    assert_eq!(result.code_status(), CodeStatus::Decoded);
    assert_eq!(result.import_count(), 1);
    assert_eq!(result.import_at(0).unwrap().name, "ExitProcess");
}

#[test]
fn no_import_directory_means_no_imports_and_no_error() {
    let result = parse_pe(minimal_pe(b".text\0\0\0", &[0xC3], false)).unwrap();
    assert_eq!(result.import_count(), 0);
    assert!(result.import_at(0).is_none());
}

#[test]
fn import_count_is_the_number_of_directory_entries() {
    let result = parse_pe(minimal_pe(b".text\0\0\0", &[0x90, 0xC3], true)).unwrap();
    assert_eq!(result.import_count(), 1);
    let import = result.import_at(0).unwrap();
    assert_eq!(import.name, "ExitProcess");
    assert_eq!(import.ordinal, 5);
    assert_eq!(import.offset, 0x2060);
    assert_eq!(import.rva, 0x2090);
    assert_eq!(import.size, 8);
    let again = result.import_at(0).unwrap();
    assert_eq!(import.name, again.name);
    assert_eq!(import.display_line(), again.display_line());
    assert!(result.import_at(1).is_none());
    assert!(result.import_at(usize::MAX).is_none());
    assert_eq!(result.instruction_count(), 2);
}

#[test]
fn missing_code_section_leaves_the_imports_alone() {
    let with_code = parse_pe(minimal_pe(b".text\0\0\0", &[0xC3], true)).unwrap();
    let without = parse_pe(minimal_pe(b".code\0\0\0", &[0xC3], true)).unwrap();
    assert_eq!(without.instruction_count(), 0);
    assert_eq!(without.code_status(), CodeStatus::SectionNotFound);
    assert_eq!(without.import_count(), with_code.import_count());
    assert_eq!(without.import_at(0).unwrap().name, with_code.import_at(0).unwrap().name);
    assert_eq!(with_code.instruction_count(), 1);
}

#[test]
fn code_section_past_the_buffer_leaves_the_imports_alone() {
    let mut bytes = minimal_pe(b".text\0\0\0", &[0xC3], true);
    let table = 0x44 + 20 + 0xF0;
    bytes[table + 16..table + 20].copy_from_slice(&0x1000u32.to_le_bytes());
    let result = parse_pe(bytes).unwrap();
    assert_eq!(result.code_status(), CodeStatus::OutOfBoundsSection);
    assert_eq!(result.instruction_count(), 0);
    assert_eq!(result.import_count(), 1);
}

#[test]
fn failed_parse_gives_no_result() {
    assert_eq!(parse_pe(Vec::new()).unwrap_err(), ParseError::MalformedContainer);
    assert_eq!(parse_pe(vec![0x11; 100]).unwrap_err(), ParseError::MalformedContainer);
    let mut elf = vec![0u8; 64];
    elf[..4].copy_from_slice(b"\x7FELF");
    assert_eq!(parse_pe(elf).unwrap_err(), ParseError::UnsupportedFormat(Format::Elf));
}

#[test]
fn analyze_takes_section_name_and_width() {
    let bytes = minimal_pe(b"CODE\0\0\0\0", &[0x48, 0x89, 0xD8], false);
    let wide = analyze(bytes.clone(), b"CODE", Bitness::Bits64).unwrap();
    assert_eq!(wide.instruction_count(), 1);
    assert_eq!(wide.instruction_at(0).unwrap().text, "mov rax,rbx");
    let narrow = analyze(bytes.clone(), b"CODE", Bitness::Bits32).unwrap();
    assert_eq!(narrow.instruction_count(), 2);
    assert_eq!(narrow.instruction_at(1).unwrap().address, 0x1_4000_1001);
    let other = analyze(bytes, b".text", Bitness::Bits64).unwrap();
    assert_eq!(other.code_status(), CodeStatus::SectionNotFound);
}

#[test]
fn of_image_reads_imports_and_code_from_the_image() {
    let record = PeRecord {
        image_base: 0x40_0000,
        sections: vec![Section {
            name: *b".text\0\0\0",
            pointer_to_raw_data: 2,
            size_of_raw_data: 2,
            virtual_address: 0x1000,
        }],
        imports: vec![
            ImportDescriptor { name: b"b".to_vec(), ordinal: 2, offset: 8, rva: 1, size: 8 },
            ImportDescriptor { name: b"a".to_vec(), ordinal: 1, offset: 0, rva: 2, size: 8 },
        ],
    };
    let image = ExecutableImage::assemble(vec![0xFF, 0xFF, 0x90, 0xC3, 0xCC], record);
    let result = AnalysisResult::of_image(&image, b".text", Bitness::Bits64);
    assert_eq!(result.import_count(), 2);
    assert_eq!(result.import_at(0).unwrap().name, "b");
    assert_eq!(result.import_at(1).unwrap().name, "a");
    assert_eq!(result.instruction_count(), 2);
    assert_eq!(result.instruction_at(0).unwrap().display_line(), "0000000000401000  nop");
    assert_eq!(result.instruction_at(1).unwrap().display_line(), "0000000000401001  ret");
}

#[test]
fn damaged_images_load_or_fail_without_a_panic() {
    let whole = minimal_pe(b".text\0\0\0", &[0x55, 0x48, 0x89, 0xE5, 0x5D, 0xC3], true);
    let mut x: u64 = 0x9E37_79B9_7F4A_7C15;
    let mut next = move || {
        x ^= x << 13;
        x ^= x >> 7;
        x ^= x << 17;
        x
    };
    let mut loaded = 0;
    let mut refused = 0;
    for round in 0..3000usize {
        let mut bytes = whole.clone();
        for _ in 0..1 + round % 5 {
            let at = next() as usize % bytes.len();
            bytes[at] = next() as u8;
        }
        if round % 4 == 0 {
            bytes.truncate(next() as usize % bytes.len());
        }
        match parse_pe(bytes) {
            Ok(result) => {
                loaded += 1;
                assert!(result.instruction_count() <= whole.len());
                if result.code_status() != CodeStatus::Decoded {
                    assert_eq!(result.instruction_count(), 0);
                }
            }
            Err(_) => refused += 1,
        }
    }
    assert_eq!(loaded + refused, 3000);
    assert!(refused > 0);
}
