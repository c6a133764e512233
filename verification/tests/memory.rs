use isolate_setup::elf::checked_dynamic_section;
use isolate_setup::elf::checked_relocation_pages;
use isolate_setup::elf::checked_text_pages;
use isolate_setup::elf::dynamic_section;
use isolate_setup::elf::find_dynamic_header;
use isolate_setup::elf::find_text_header;
use isolate_setup::elf::relocation_pages;
use isolate_setup::elf::relocation_span;
use isolate_setup::elf::relocation_table;
use isolate_setup::elf::text_pages;
use isolate_setup::elf::text_probe_enabled;
use isolate_setup::elf::DynamicEntry;
use isolate_setup::elf::DynamicSection;
use isolate_setup::elf::ProgramHeader;
use isolate_setup::elf::RelocationTable;
use isolate_setup::elf::DT_NULL;
use isolate_setup::elf::DT_RELA;
use isolate_setup::elf::DT_RELASZ;
use isolate_setup::elf::PF_READ_EXECUTE;
use isolate_setup::elf::PT_DYNAMIC;
use isolate_setup::elf::PT_LOAD;
use isolate_setup::pages::checked_droppable_pages;
use isolate_setup::pages::droppable_pages;
use isolate_setup::pages::AddressOverflow;
use isolate_setup::pages::MemoryRange;

const PAGE: usize = 4096;

fn range(start: usize, len: usize) -> Option<MemoryRange> {
    Some(MemoryRange { start, len })
}

fn header(p_type: u32, p_flags: u32, p_vaddr: u64, p_memsz: u64) -> ProgramHeader {
    ProgramHeader { p_type, p_flags, p_vaddr, p_memsz }
}

fn entry(d_tag: i64, d_val: u64) -> DynamicEntry {
    DynamicEntry { d_tag, d_val }
}

#[test]
fn unaligned_ends_are_kept() {
    assert_eq!(droppable_pages(0x1234, 0x3000, PAGE), range(0x2000, 0x2000));
    assert_eq!(droppable_pages(0x1001, 0x1fff, PAGE), range(0x2000, 0x1000));
}

#[test]
fn aligned_range_is_dropped_whole() {
    assert_eq!(droppable_pages(0x1000, 0x3000, PAGE), range(0x1000, 0x3000));
    assert_eq!(droppable_pages(0, PAGE, PAGE), range(0, PAGE));
}

#[test]
fn nothing_to_drop_without_a_whole_page() {
    assert_eq!(droppable_pages(0x1001, 0x1ffe, PAGE), None);
    assert_eq!(droppable_pages(0x1001, 10, PAGE), None);
    assert_eq!(droppable_pages(0x1000, 0, PAGE), None);
}

#[test]
fn nothing_to_drop_without_a_page_size() {
    assert_eq!(droppable_pages(0x1000, 0x3000, 0), None);
}

#[test]
fn single_byte_pages_keep_the_range() {
    assert_eq!(droppable_pages(5, 7, 1), range(5, 7));
}

#[test]
fn every_small_range_is_rounded_inwards() {
    for page in [1usize, 2, 4, 8, 16] {
        for ptr in 0..40usize {
            for len in 0..40usize {
                let first = (ptr..).find(|a| a % page == 0).unwrap();
                let last = (0..=ptr + len).rev().find(|a| a % page == 0).unwrap();
                let expected = if first < last { range(first, last - first) } else { None };
                assert_eq!(droppable_pages(ptr, len, page), expected);
            }
        }
    }
}

#[test]
fn odd_page_sizes_never_leave_the_range() {
    for page in 1..20usize {
        for ptr in 0..40usize {
            for len in 0..40usize {
                if let Some(pages) = droppable_pages(ptr, len, page) {
                    assert!(ptr <= pages.start && pages.start + pages.len <= ptr + len);
                }
            }
        }
    }
}

#[test]
fn constants_are_those_of_the_system() {
    assert_eq!(PT_LOAD, libc::PT_LOAD);
    assert_eq!(PT_DYNAMIC, libc::PT_DYNAMIC);
    assert_eq!(PF_READ_EXECUTE, libc::PF_R | libc::PF_X);
}

#[test]
fn text_is_the_first_read_execute_segment() {
    let headers = [
        header(PT_LOAD, 4, 0, 0x800),
        header(PT_DYNAMIC, 5, 0x100, 0x40),
        header(PT_LOAD, 7, 0x2000, 0x800),
        header(PT_LOAD, 5, 0x1800, 0x3000),
        header(PT_LOAD, 5, 0x9000, 0x3000),
    ];
    assert_eq!(find_text_header(&headers), Some(headers[3]));
    assert_eq!(text_pages(0x10000, &headers, PAGE), range(0x12000, 0x2000));
    assert_eq!(text_pages(0x10000, &headers, 0), None);
}

#[test]
fn no_text_no_pages() {
    let headers = [header(PT_LOAD, 4, 0, 0x8000), header(PT_LOAD, 6, 0x8000, 0x8000)];
    assert_eq!(find_text_header(&headers), None);
    assert_eq!(text_pages(0x10000, &headers, PAGE), None);
    assert_eq!(text_pages(0x10000, &[], PAGE), None);
}

#[test]
fn text_probe_wants_a_one() {
    assert!(text_probe_enabled(Some(b"1")));
    assert!(!text_probe_enabled(None));
    assert!(!text_probe_enabled(Some(b"")));
    assert!(!text_probe_enabled(Some(b"0")));
    assert!(!text_probe_enabled(Some(b"11")));
}

#[test]
fn dynamic_section_is_located() {
    let headers = [
        header(PT_LOAD, 5, 0, 0x800),
        header(PT_DYNAMIC, 6, 0x3d00, 0x1f8),
        header(PT_DYNAMIC, 6, 0x9d00, 0x10),
    ];
    assert_eq!(find_dynamic_header(&headers), Some(headers[1]));
    assert_eq!(
        dynamic_section(0x10000, &headers),
        Some(DynamicSection { addr: 0x13d00, count: 31 })
    );
    assert_eq!(dynamic_section(0x10000, &headers[..1]), None);
}

#[test]
fn dynamic_section_counts_whole_entries() {
    let headers = [header(PT_DYNAMIC, 6, 0x20, 47)];
    assert_eq!(dynamic_section(0, &headers), Some(DynamicSection { addr: 0x20, count: 2 }));
}

#[test]
fn relocation_table_is_read() {
    let entries = [entry(1, 99), entry(DT_RELASZ, 48), entry(DT_RELA, 0x6e80), entry(DT_NULL, 0)];
    assert_eq!(relocation_table(&entries), RelocationTable { addr: 0x6e80, size: 48 });
    assert_eq!(relocation_table(&entries[..2]), RelocationTable { addr: 0, size: 48 });
    assert_eq!(relocation_table(&[]), RelocationTable { addr: 0, size: 0 });
}

#[test]
fn later_entry_overrides() {
    let entries = [entry(DT_RELA, 1), entry(DT_RELA, 2), entry(DT_RELASZ, 3), entry(DT_RELASZ, 4)];
    assert_eq!(relocation_table(&entries), RelocationTable { addr: 2, size: 4 });
}

#[test]
fn entries_after_the_end_are_ignored() {
    let entries = [entry(DT_RELA, 5), entry(DT_NULL, 0), entry(DT_RELA, 6), entry(DT_RELASZ, 7)];
    assert_eq!(relocation_table(&entries), RelocationTable { addr: 5, size: 0 });
    assert_eq!(relocation_table(&entries[..1]), relocation_table(&entries));
}

#[test]
fn link_time_address_is_relocated() {
    let table = RelocationTable { addr: 0x6e80, size: 0x3000 };
    assert_eq!(relocation_span(0x100000, &table), range(0x106e80, 0x3000));
    let relocated = RelocationTable { addr: 0x106e80, size: 0x3000 };
    assert_eq!(relocation_span(0x100000, &relocated), range(0x106e80, 0x3000));
    let at_base = RelocationTable { addr: 0x100000, size: 1 };
    assert_eq!(relocation_span(0x100000, &at_base), range(0x100000, 1));
    assert_eq!(relocation_span(0, &table), range(0x6e80, 0x3000));
}

#[test]
fn incomplete_table_is_no_table() {
    assert_eq!(relocation_span(16, &RelocationTable { addr: 0, size: 8 }), None);
    assert_eq!(relocation_span(16, &RelocationTable { addr: 8, size: 0 }), None);
}

#[test]
fn pages_of_the_relocation_table() {
    let entries = [entry(DT_RELA, 0x6e80), entry(DT_RELASZ, 0x3000), entry(DT_NULL, 0)];
    assert_eq!(relocation_pages(0x100000, &entries, PAGE), range(0x107000, 0x2000));
    assert_eq!(relocation_pages(0x100000, &entries[..1], PAGE), None);
    assert_eq!(relocation_pages(0x100000, &entries, 0), None);
}

#[test]
fn overflow_of_a_range_is_found() {
    assert_eq!(checked_droppable_pages(0x1234, 0x3000, PAGE), Ok(range(0x2000, 0x2000)));
    assert_eq!(checked_droppable_pages(usize::MAX - 8, 9, PAGE), Err(AddressOverflow));
    assert_eq!(checked_droppable_pages(0x1000, usize::MAX, PAGE), Err(AddressOverflow));
    assert_eq!(checked_droppable_pages(usize::MAX, usize::MAX, 0), Ok(None));
}

#[test]
fn overflow_of_a_segment_is_found() {
    let headers = [header(PT_LOAD, 5, 0x1800, 0x3000), header(PT_DYNAMIC, 6, 0x40, 32)];
    assert_eq!(checked_text_pages(0x10000, &headers, PAGE), Ok(range(0x12000, 0x2000)));
    assert_eq!(checked_text_pages(usize::MAX, &headers, PAGE), Err(AddressOverflow));
    assert_eq!(checked_text_pages(usize::MAX - 0x2000, &headers, PAGE), Err(AddressOverflow));
    assert_eq!(checked_text_pages(usize::MAX, &headers[1..], PAGE), Ok(None));
    assert_eq!(
        checked_dynamic_section(0x10000, &headers),
        Ok(Some(DynamicSection { addr: 0x10040, count: 2 }))
    );
    assert_eq!(checked_dynamic_section(usize::MAX, &headers), Err(AddressOverflow));
    assert_eq!(checked_dynamic_section(usize::MAX, &headers[..1]), Ok(None));
}

#[test]
fn overflow_of_the_relocation_table_is_found() {
    let entries = [entry(DT_RELA, 0x6e80), entry(DT_RELASZ, 0x3000)];
    assert_eq!(checked_relocation_pages(0x100000, &entries, PAGE), Ok(range(0x107000, 0x2000)));
    assert_eq!(checked_relocation_pages(usize::MAX, &entries, PAGE), Err(AddressOverflow));
    assert_eq!(checked_relocation_pages(usize::MAX, &entries[..1], PAGE), Ok(None));
    let huge = [entry(DT_RELA, 0x6e80), entry(DT_RELASZ, u64::MAX)];
    assert_eq!(checked_relocation_pages(0, &huge, PAGE), Err(AddressOverflow));
}
