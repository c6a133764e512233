//! Where the main executable keeps its code and its relocation table.
//!
//! The program headers and the dynamic section are read from memory by the
//! caller; this module decides which of them matter and which pages they
//! allow to be dropped.

use crate::pages::do_pages_fit;
use crate::pages::droppable_pages;
use crate::pages::law_no_byte_outside_is_dropped;
use crate::pages::law_pages_move_with_the_range;
use crate::pages::page_interior;
use crate::pages::pages_fit;
use crate::pages::AddressOverflow;
use crate::pages::MemoryRange;
use vstd::arithmetic::power2::lemma_pow2_pos;
use vstd::arithmetic::power2::pow2;
use vstd::prelude::*;

verus! {

/// Program header type of a loaded segment.
pub const PT_LOAD: u32 = 1;

/// Program header type of the dynamic section.
pub const PT_DYNAMIC: u32 = 2;

/// Flags of a segment that can be read and executed, but not written.
pub const PF_READ_EXECUTE: u32 = 5;

/// Dynamic section tag: end of the section.
pub const DT_NULL: i64 = 0;

/// Dynamic section tag: address of the relocation table.
pub const DT_RELA: i64 = 7;

/// Dynamic section tag: size of the relocation table in bytes.
pub const DT_RELASZ: i64 = 8;

/// Size in bytes of one entry of the dynamic section.
pub const DYNAMIC_ENTRY_SIZE: usize = 16;

/// The part of a program header that is looked at.
#[derive(Clone, Copy, Debug, PartialEq, Eq, Structural)]
pub struct ProgramHeader {
    pub p_type: u32,
    pub p_flags: u32,
    pub p_vaddr: u64,
    pub p_memsz: u64,
}

/// One entry of the dynamic section.
#[derive(Clone, Copy, Debug, PartialEq, Eq, Structural)]
pub struct DynamicEntry {
    pub d_tag: i64,
    pub d_val: u64,
}

/// Where the dynamic section lies: `count` entries from address `addr` on.
#[derive(Clone, Copy, Debug, PartialEq, Eq, Structural)]
pub struct DynamicSection {
    pub addr: usize,
    pub count: usize,
}

/// What the dynamic section says of the relocation table. A value that it does
/// not give is zero.
#[derive(Clone, Copy, Debug, PartialEq, Eq, Structural)]
pub struct RelocationTable {
    pub addr: u64,
    pub size: u64,
}

/// The header has the given type and, where flags are given, exactly those.
pub open spec fn is_wanted(header: ProgramHeader, p_type: u32, p_flags: Option<u32>) -> bool {
    header.p_type == p_type && (p_flags matches Some(flags) ==> header.p_flags == flags)
}

/// The first header with the given type and flags.
pub open spec fn first_header(
    headers: Seq<ProgramHeader>,
    p_type: u32,
    p_flags: Option<u32>,
) -> Option<ProgramHeader>
    decreases headers.len(),
{
    if headers.len() == 0 {
        None
    } else if is_wanted(headers[0], p_type, p_flags) {
        Some(headers[0])
    } else {
        first_header(headers.skip(1), p_type, p_flags)
    }
}

/// The header of the code segment.
pub open spec fn text_header(headers: Seq<ProgramHeader>) -> Option<ProgramHeader> {
    first_header(headers, PT_LOAD, Some(PF_READ_EXECUTE))
}

/// The header of the dynamic section.
pub open spec fn dynamic_header(headers: Seq<ProgramHeader>) -> Option<ProgramHeader> {
    first_header(headers, PT_DYNAMIC, None)
}

/// The segment's first address fits in a `usize`.
pub open spec fn header_fits(load_base: usize, header: ProgramHeader) -> bool {
    load_base + (header.p_vaddr as usize) <= usize::MAX
}

/// The memory of the segment that `header` describes.
pub open spec fn segment(load_base: usize, header: ProgramHeader) -> MemoryRange {
    MemoryRange {
        start: (load_base + (header.p_vaddr as usize)) as usize,
        len: header.p_memsz as usize,
    }
}

fn find_header(headers: &[ProgramHeader], p_type: u32, p_flags: Option<u32>) -> (found: Option<
    ProgramHeader,
>)
    ensures
        found == first_header(headers@, p_type, p_flags),
{
    let mut i: usize = 0;
    assert(headers@.skip(0) =~= headers@);
    while i < headers.len()
        invariant
            i <= headers.len(),
            first_header(headers@, p_type, p_flags) == first_header(
                headers@.skip(i as int),
                p_type,
                p_flags,
            ),
        decreases headers.len() - i,
    {
        let header: ProgramHeader = headers[i];
        let same_flags: bool = match p_flags {
            Some(flags) => header.p_flags == flags,
            None => true,
        };
        if header.p_type == p_type && same_flags {
            return Some(header);
        }
        assert(headers@.skip(i as int).skip(1) =~= headers@.skip(i + 1));
        i = i + 1;
    }
    None
}

/// The first loaded segment that can be read and executed: the code.
pub fn find_text_header(headers: &[ProgramHeader]) -> (found: Option<ProgramHeader>)
    ensures
        found == text_header(headers@),
{
    find_header(headers, PT_LOAD, Some(PF_READ_EXECUTE))
}

/// The header of the dynamic section.
pub fn find_dynamic_header(headers: &[ProgramHeader]) -> (found: Option<ProgramHeader>)
    ensures
        found == dynamic_header(headers@),
{
    find_header(headers, PT_DYNAMIC, None)
}

fn locate(load_base: usize, header: &ProgramHeader) -> (memory: MemoryRange)
    requires
        header_fits(load_base, *header),
    ensures
        memory == segment(load_base, *header),
{
    MemoryRange { start: load_base + header.p_vaddr as usize, len: header.p_memsz as usize }
}

/// The pages of code that may be dropped.
pub open spec fn text_interior(
    load_base: usize,
    headers: Seq<ProgramHeader>,
    page: usize,
) -> Option<MemoryRange> {
    match text_header(headers) {
        Some(header) => {
            let text = segment(load_base, header);
            page_interior(text.start, text.len, page)
        },
        None => None,
    }
}

/// The addresses computed for the code fit in a `usize`.
pub open spec fn text_fits(load_base: usize, headers: Seq<ProgramHeader>, page: usize) -> bool {
    text_header(headers) matches Some(header) ==> {
        let text = segment(load_base, header);
        header_fits(load_base, header) && pages_fit(text.start, text.len, page)
    }
}

/// The whole pages of `page` bytes inside the code of the executable that is
/// loaded at `load_base` and has these program headers.
pub fn text_pages(load_base: usize, headers: &[ProgramHeader], page: usize) -> (pages: Option<
    MemoryRange,
>)
    requires
        text_fits(load_base, headers@, page),
    ensures
        pages == text_interior(load_base, headers@, page),
{
    match find_text_header(headers) {
        Some(header) => {
            let text: MemoryRange = locate(load_base, &header);
            droppable_pages(text.start, text.len, page)
        },
        None => None,
    }
}

/// The pages that [`text_pages`] gives, where the addresses fit.
pub fn checked_text_pages(load_base: usize, headers: &[ProgramHeader], page: usize) -> (result:
    Result<Option<MemoryRange>, AddressOverflow>)
    ensures
        result == if text_fits(load_base, headers@, page) {
            Ok(text_interior(load_base, headers@, page))
        } else {
            Err(AddressOverflow)
        },
{
    if let Some(header) = find_text_header(headers) {
        if load_base.checked_add(header.p_vaddr as usize).is_none() {
            return Err(AddressOverflow);
        }
        let text: MemoryRange = locate(load_base, &header);
        if !do_pages_fit(text.start, text.len, page) {
            return Err(AddressOverflow);
        }
    }
    Ok(text_pages(load_base, headers, page))
}

/// Whether the environment asks for the pages of code to be dropped: the
/// variable is there and its value is `1`.
pub fn text_probe_enabled(value: Option<&[u8]>) -> (enabled: bool)
    ensures
        enabled == (value matches Some(bytes) && bytes@ == seq![0x31u8]),
        enabled <==> (value matches Some(bytes) && bytes@.len() == 1 && bytes@[0] == '1' as u8),
{
    match value {
        Some(bytes) => {
            let enabled: bool = bytes.len() == 1 && bytes[0] == 0x31u8;
            assert(enabled ==> bytes@ =~= seq![0x31u8]);
            enabled
        },
        None => false,
    }
}

/// Where the dynamic section lies. What is left over after the last whole entry
/// does not count.
pub open spec fn located_section(load_base: usize, headers: Seq<ProgramHeader>) -> Option<
    DynamicSection,
> {
    match dynamic_header(headers) {
        Some(header) => Some(
            DynamicSection {
                addr: segment(load_base, header).start,
                count: segment(load_base, header).len / DYNAMIC_ENTRY_SIZE,
            },
        ),
        None => None,
    }
}

/// The address of the dynamic section fits in a `usize`.
pub open spec fn dynamic_fits(load_base: usize, headers: Seq<ProgramHeader>) -> bool {
    dynamic_header(headers) matches Some(header) ==> header_fits(load_base, header)
}

/// Where the dynamic section of the executable that is loaded at `load_base`
/// lies in memory. What is left over after the last whole entry does not
/// count.
pub fn dynamic_section(load_base: usize, headers: &[ProgramHeader]) -> (section: Option<
    DynamicSection,
>)
    requires
        dynamic_fits(load_base, headers@),
    ensures
        section == located_section(load_base, headers@),
{
    match find_dynamic_header(headers) {
        Some(header) => {
            let memory: MemoryRange = locate(load_base, &header);
            Some(DynamicSection { addr: memory.start, count: memory.len / DYNAMIC_ENTRY_SIZE })
        },
        None => None,
    }
}

/// The section that [`dynamic_section`] gives, where its address fits.
pub fn checked_dynamic_section(load_base: usize, headers: &[ProgramHeader]) -> (result: Result<
    Option<DynamicSection>,
    AddressOverflow,
>)
    ensures
        result == if dynamic_fits(load_base, headers@) {
            Ok(located_section(load_base, headers@))
        } else {
            Err(AddressOverflow)
        },
{
    if let Some(header) = find_dynamic_header(headers) {
        if load_base.checked_add(header.p_vaddr as usize).is_none() {
            return Err(AddressOverflow);
        }
    }
    Ok(dynamic_section(load_base, headers))
}

/// How many entries stand before the end of the dynamic section.
pub open spec fn live_len(entries: Seq<DynamicEntry>) -> nat
    decreases entries.len(),
{
    if entries.len() == 0 || entries[0].d_tag == DT_NULL {
        0
    } else {
        1 + live_len(entries.skip(1))
    }
}

/// The entries before the end of the dynamic section.
pub open spec fn live_entries(entries: Seq<DynamicEntry>) -> Seq<DynamicEntry> {
    entries.take(live_len(entries) as int)
}

/// The value of the last entry with the given tag, or zero where there is
/// none.
pub open spec fn last_value(entries: Seq<DynamicEntry>, tag: i64) -> u64
    decreases entries.len(),
{
    if entries.len() == 0 {
        0
    } else if entries.last().d_tag == tag {
        entries.last().d_val
    } else {
        last_value(entries.drop_last(), tag)
    }
}

/// What the dynamic section says of the relocation table.
pub open spec fn described_table(entries: Seq<DynamicEntry>) -> RelocationTable {
    RelocationTable {
        addr: last_value(live_entries(entries), DT_RELA),
        size: last_value(live_entries(entries), DT_RELASZ),
    }
}

/// The section ends at its first `DT_NULL`, or with its last entry.
proof fn lemma_live_len(entries: Seq<DynamicEntry>, n: int)
    requires
        0 <= n <= entries.len(),
        forall|j: int| 0 <= j < n ==> entries[j].d_tag != DT_NULL,
        n < entries.len() ==> entries[n].d_tag == DT_NULL,
    ensures
        live_len(entries) == n,
    decreases n,
{
    if n > 0 {
        assert(entries[0].d_tag != DT_NULL);
        assert forall|j: int| 0 <= j < n - 1 implies entries.skip(1)[j].d_tag != DT_NULL by {
            assert(entries.skip(1)[j] == entries[j + 1]);
        }
        lemma_live_len(entries.skip(1), n - 1);
    }
}

/// Reads address and size of the relocation table out of the dynamic section.
/// The section ends with the first `DT_NULL`; a later entry overrides an
/// earlier one.
pub fn relocation_table(entries: &[DynamicEntry]) -> (table: RelocationTable)
    ensures
        table == described_table(entries@),
{
    let mut addr: u64 = 0;
    let mut size: u64 = 0;
    let mut i: usize = 0;
    while i < entries.len() && entries[i].d_tag != DT_NULL
        invariant
            i <= entries.len(),
            forall|j: int| 0 <= j < i ==> entries@[j].d_tag != DT_NULL,
            addr == last_value(entries@.take(i as int), DT_RELA),
            size == last_value(entries@.take(i as int), DT_RELASZ),
        decreases entries.len() - i,
    {
        let entry: DynamicEntry = entries[i];
        if entry.d_tag == DT_RELA {
            addr = entry.d_val;
        } else if entry.d_tag == DT_RELASZ {
            size = entry.d_val;
        }
        assert(entries@.take(i + 1).drop_last() =~= entries@.take(i as int));
        assert(entries@.take(i + 1).last() == entry);
        i = i + 1;
    }
    proof {
        lemma_live_len(entries@, i as int);
    }
    RelocationTable { addr, size }
}

/// The table is described in full: neither its address nor its size is
/// missing.
pub open spec fn is_described(table: RelocationTable) -> bool {
    table.addr != 0 && table.size != 0
}

/// The first address of the table fits in a `usize`.
pub open spec fn table_fits(load_base: usize, table: RelocationTable) -> bool {
    is_described(table) && (table.addr as usize) < load_base ==> load_base + (table.addr as usize)
        <= usize::MAX
}

/// Where the table lies in memory. An address below `load_base` is one from
/// link time and is relative to `load_base`.
pub open spec fn table_span(load_base: usize, table: RelocationTable) -> Option<MemoryRange> {
    if !is_described(table) {
        None
    } else if (table.addr as usize) < load_base {
        Some(
            MemoryRange {
                start: (load_base + (table.addr as usize)) as usize,
                len: table.size as usize,
            },
        )
    } else {
        Some(MemoryRange { start: table.addr as usize, len: table.size as usize })
    }
}

/// Where the relocation table lies in the memory of the executable that is
/// loaded at `load_base`. The linker may leave a link-time address in the
/// dynamic section, and the loader may or may not have relocated it: one that
/// is smaller than the load base is taken to be a link-time address.
pub fn relocation_span(load_base: usize, table: &RelocationTable) -> (span: Option<MemoryRange>)
    requires
        table_fits(load_base, *table),
    ensures
        span == table_span(load_base, *table),
{
    if table.addr == 0 || table.size == 0 {
        return None;
    }
    let addr: usize = table.addr as usize;
    let start: usize = if addr < load_base {
        load_base + addr
    } else {
        addr
    };
    Some(MemoryRange { start, len: table.size as usize })
}

/// The pages of the relocation table that may be dropped.
pub open spec fn relocation_interior(
    load_base: usize,
    entries: Seq<DynamicEntry>,
    page: usize,
) -> Option<MemoryRange> {
    match table_span(load_base, described_table(entries)) {
        Some(span) => page_interior(span.start, span.len, page),
        None => None,
    }
}

/// The addresses computed for the relocation table fit in a `usize`.
pub open spec fn relocation_fits(
    load_base: usize,
    entries: Seq<DynamicEntry>,
    page: usize,
) -> bool {
    let table = described_table(entries);
    &&& table_fits(load_base, table)
    &&& table_span(load_base, table) matches Some(span) ==> pages_fit(span.start, span.len, page)
}

/// The whole pages of `page` bytes inside the relocation table of the
/// executable that is loaded at `load_base` and has this dynamic section.
pub fn relocation_pages(load_base: usize, entries: &[DynamicEntry], page: usize) -> (pages: Option<
    MemoryRange,
>)
    requires
        relocation_fits(load_base, entries@, page),
    ensures
        pages == relocation_interior(load_base, entries@, page),
{
    let table: RelocationTable = relocation_table(entries);
    match relocation_span(load_base, &table) {
        Some(span) => droppable_pages(span.start, span.len, page),
        None => None,
    }
}

/// The pages that [`relocation_pages`] gives, where the addresses fit.
pub fn checked_relocation_pages(load_base: usize, entries: &[DynamicEntry], page: usize) -> (result:
    Result<Option<MemoryRange>, AddressOverflow>)
    ensures
        result == if relocation_fits(load_base, entries@, page) {
            Ok(relocation_interior(load_base, entries@, page))
        } else {
            Err(AddressOverflow)
        },
{
    let table: RelocationTable = relocation_table(entries);
    if table.addr != 0 && table.size != 0 {
        let addr: usize = table.addr as usize;
        if addr < load_base && load_base.checked_add(addr).is_none() {
            return Err(AddressOverflow);
        }
    }
    if let Some(span) = relocation_span(load_base, &table) {
        if !do_pages_fit(span.start, span.len, page) {
            return Err(AddressOverflow);
        }
    }
    Ok(relocation_pages(load_base, entries, page))
}

/// The header that is found is one of those given, is of the wanted kind, and
/// none before it is.
pub proof fn law_first_header_is_first(
    headers: Seq<ProgramHeader>,
    p_type: u32,
    p_flags: Option<u32>,
)
    ensures
        match first_header(headers, p_type, p_flags) {
            Some(header) => exists|i: int| #![trigger headers[i]]
                0 <= i < headers.len() && headers[i] == header && is_wanted(
                    header,
                    p_type,
                    p_flags,
                ) && forall|j: int| #![trigger headers[j]]
                    0 <= j < i ==> !is_wanted(headers[j], p_type, p_flags),
            None => forall|j: int| #![trigger headers[j]]
                0 <= j < headers.len() ==> !is_wanted(headers[j], p_type, p_flags),
        },
    decreases headers.len(),
{
    if headers.len() == 0 {
    } else if is_wanted(headers[0], p_type, p_flags) {
        assert(headers[0] == headers[0]);
    } else {
        let rest = headers.skip(1);
        law_first_header_is_first(rest, p_type, p_flags);
        assert forall|j: int| 0 < j < headers.len() implies #[trigger] headers[j] == rest[j - 1] by {
        }
        match first_header(rest, p_type, p_flags) {
            Some(header) => {
                let i = choose|i: int| #![trigger rest[i]]
                    0 <= i < rest.len() && rest[i] == header && forall|j: int| #![trigger rest[j]]
                        0 <= j < i ==> !is_wanted(rest[j], p_type, p_flags);
                assert(headers[i + 1] == header);
            },
            None => {},
        }
    }
}

/// The code is the first header of type 1 (loaded) with flags 5 (read and
/// execute), wherever it stands.
pub proof fn law_code_is_the_first_of_its_kind(headers: Seq<ProgramHeader>, i: int)
    requires
        0 <= i < headers.len(),
        headers[i].p_type == 1,
        headers[i].p_flags == 5,
        forall|j: int| #![trigger headers[j]]
            0 <= j < i ==> headers[j].p_type != 1 || headers[j].p_flags != 5,
    ensures
        text_header(headers) == Some(headers[i]),
{
    law_first_header_is_first(headers, PT_LOAD, Some(PF_READ_EXECUTE));
    assert(is_wanted(headers[i], PT_LOAD, Some(PF_READ_EXECUTE)));
}

/// There is no code only where no header is of type 1 with flags 5.
pub proof fn law_no_code_without_its_header(headers: Seq<ProgramHeader>)
    requires
        forall|j: int| #![trigger headers[j]]
            0 <= j < headers.len() ==> headers[j].p_type != 1 || headers[j].p_flags != 5,
    ensures
        text_header(headers) is None,
{
    law_first_header_is_first(headers, PT_LOAD, Some(PF_READ_EXECUTE));
}

/// The dynamic section is that of the first header of type 2, whatever its
/// flags.
pub proof fn law_dynamic_header_is_the_first_of_its_kind(headers: Seq<ProgramHeader>, i: int)
    requires
        0 <= i < headers.len(),
        headers[i].p_type == 2,
        forall|j: int| #![trigger headers[j]] 0 <= j < i ==> headers[j].p_type != 2,
    ensures
        dynamic_header(headers) == Some(headers[i]),
{
    law_first_header_is_first(headers, PT_DYNAMIC, None);
    assert(is_wanted(headers[i], PT_DYNAMIC, None));
}

/// There is no dynamic section only where no header is of type 2.
pub proof fn law_no_dynamic_section_without_its_header(headers: Seq<ProgramHeader>)
    requires
        forall|j: int| #![trigger headers[j]]
            0 <= j < headers.len() ==> headers[j].p_type != 2,
    ensures
        dynamic_header(headers) is None,
{
    law_first_header_is_first(headers, PT_DYNAMIC, None);
}

/// A segment starts at the sum of the load base and its address, and has the
/// size that its header gives. Only an overflow of that sum is refused.
pub proof fn law_segment_is_moved_by_the_load_base(load_base: usize, header: ProgramHeader)
    ensures
        header_fits(load_base, header) <==> load_base + (header.p_vaddr as usize) <= usize::MAX,
        load_base + (header.p_vaddr as usize) <= usize::MAX ==> {
            &&& segment(load_base, header).start - load_base == (header.p_vaddr as usize)
            &&& segment(load_base, header).len == header.p_memsz as usize
        },
{
}

/// The dynamic section starts where its segment does, and it has as many entries
/// of 16 bytes as the segment has room for.
pub proof fn law_dynamic_section_fills_its_segment(
    load_base: usize,
    headers: Seq<ProgramHeader>,
    i: int,
)
    requires
        0 <= i < headers.len(),
        headers[i].p_type == 2,
        forall|j: int| #![trigger headers[j]] 0 <= j < i ==> headers[j].p_type != 2,
    ensures
        dynamic_fits(load_base, headers) <==> load_base + (headers[i].p_vaddr as usize)
            <= usize::MAX,
        load_base + (headers[i].p_vaddr as usize) <= usize::MAX ==> {
            &&& located_section(load_base, headers) matches Some(section)
            &&& section.addr - load_base == (headers[i].p_vaddr as usize)
            &&& section.count * 16 <= (headers[i].p_memsz as usize) < section.count * 16 + 16
        },
{
    law_dynamic_header_is_the_first_of_its_kind(headers, i);
}

/// Without a header of type 2 there is no dynamic section to read, and nothing
/// is refused.
pub proof fn law_no_section_is_located_without_its_header(
    load_base: usize,
    headers: Seq<ProgramHeader>,
)
    requires
        forall|j: int| #![trigger headers[j]]
            0 <= j < headers.len() ==> headers[j].p_type != 2,
    ensures
        dynamic_fits(load_base, headers),
        located_section(load_base, headers) is None,
{
    law_no_dynamic_section_without_its_header(headers);
}

/// The pages of code that may be dropped are those inside the code segment,
/// which runs from the sum of the load base and the segment's address on for the
/// size of the segment. Only an overflow of the sums is refused.
pub proof fn law_code_pages_are_those_of_the_segment(
    load_base: usize,
    headers: Seq<ProgramHeader>,
    i: int,
    page: usize,
)
    requires
        0 <= i < headers.len(),
        headers[i].p_type == 1,
        headers[i].p_flags == 5,
        forall|j: int| #![trigger headers[j]]
            0 <= j < i ==> headers[j].p_type != 1 || headers[j].p_flags != 5,
    ensures
        ({
            let start = load_base + (headers[i].p_vaddr as usize);
            let len = headers[i].p_memsz as usize;
            &&& text_fits(load_base, headers, page) <==> start <= usize::MAX && (page == 0 || (start
                + page <= usize::MAX + 1 && start + len <= usize::MAX))
            &&& text_fits(load_base, headers, page) ==> text_interior(load_base, headers, page)
                == page_interior(start as usize, len, page)
        }),
{
    law_code_is_the_first_of_its_kind(headers, i);
}

/// Without a header of the code nothing is dropped, and nothing is refused.
pub proof fn law_no_code_pages_without_its_header(
    load_base: usize,
    headers: Seq<ProgramHeader>,
    page: usize,
)
    requires
        forall|j: int| #![trigger headers[j]]
            0 <= j < headers.len() ==> headers[j].p_type != 1 || headers[j].p_flags != 5,
    ensures
        text_fits(load_base, headers, page),
        text_interior(load_base, headers, page) is None,
{
    law_no_code_without_its_header(headers);
}

/// The entries of the dynamic section lie inside the segment that holds it.
pub proof fn law_dynamic_entries_lie_in_the_segment(load_base: usize, header: ProgramHeader)
    ensures
        (segment(load_base, header).len / DYNAMIC_ENTRY_SIZE) * DYNAMIC_ENTRY_SIZE <= segment(
            load_base,
            header,
        ).len,
{
}

/// Of the executable's code, nothing outside of the code segment is dropped.
pub proof fn law_only_code_is_dropped(load_base: usize, headers: Seq<ProgramHeader>, page: usize)
    requires
        text_fits(load_base, headers, page),
    ensures
        text_interior(load_base, headers, page) matches Some(range) ==> {
            &&& text_header(headers) matches Some(header)
            &&& segment(load_base, header).start <= range.start
            &&& range.start + range.len <= segment(load_base, header).start + segment(
                load_base,
                header,
            ).len
        },
{
    if text_header(headers) is Some {
        let text = segment(load_base, text_header(headers).unwrap());
        law_no_byte_outside_is_dropped(text.start, text.len, page);
    }
}

/// What is dropped of the code lies between the first address of the first header
/// of its kind and that address and the segment's size together.
pub proof fn law_dropped_code_lies_between_the_header_addresses(
    load_base: usize,
    headers: Seq<ProgramHeader>,
    i: int,
    page: usize,
)
    requires
        0 <= i < headers.len(),
        headers[i].p_type == 1,
        headers[i].p_flags == 5,
        forall|j: int| #![trigger headers[j]]
            0 <= j < i ==> headers[j].p_type != 1 || headers[j].p_flags != 5,
        text_fits(load_base, headers, page),
    ensures
        text_interior(load_base, headers, page) matches Some(range) ==> {
            &&& load_base + (headers[i].p_vaddr as usize) <= range.start
            &&& range.start + range.len <= load_base + (headers[i].p_vaddr as usize) + (
            headers[i].p_memsz as usize)
        },
{
    law_code_pages_are_those_of_the_segment(load_base, headers, i, page);
    law_no_byte_outside_is_dropped(
        (load_base + (headers[i].p_vaddr as usize)) as usize,
        headers[i].p_memsz as usize,
        page,
    );
}

/// To load the executable one page further moves its code pages by one page.
pub proof fn law_code_pages_move_with_the_load_base(
    load_base: usize,
    headers: Seq<ProgramHeader>,
    page: usize,
    n: nat,
)
    requires
        n < usize::BITS,
        page == pow2(n),
        load_base + page <= usize::MAX,
        text_fits(load_base, headers, page),
        text_fits((load_base + page) as usize, headers, page),
    ensures
        match (
            text_interior(load_base, headers, page),
            text_interior((load_base + page) as usize, headers, page),
        ) {
            (Some(here), Some(there)) => there.start == here.start + page && there.len == here.len,
            (None, None) => true,
            _ => false,
        },
{
    if text_header(headers) is Some {
        let header = text_header(headers).unwrap();
        lemma_pow2_pos(n);
        law_pages_move_with_the_range(
            segment(load_base, header).start,
            segment(load_base, header).len,
            page,
            n,
        );
    }
}

/// Nothing outside of the relocation table is dropped.
pub proof fn law_only_the_relocation_table_is_dropped(
    load_base: usize,
    entries: Seq<DynamicEntry>,
    page: usize,
)
    requires
        relocation_fits(load_base, entries, page),
    ensures
        relocation_interior(load_base, entries, page) matches Some(range) ==> {
            &&& table_span(load_base, described_table(entries)) matches Some(span)
            &&& span.start <= range.start
            &&& range.start + range.len <= span.start + span.len
        },
{
    if table_span(load_base, described_table(entries)) is Some {
        let span = table_span(load_base, described_table(entries)).unwrap();
        law_no_byte_outside_is_dropped(span.start, span.len, page);
    }
}

/// The last one of the entries with a tag gives its value.
proof fn lemma_last_value(entries: Seq<DynamicEntry>, tag: i64, i: int)
    requires
        0 <= i < entries.len(),
        entries[i].d_tag == tag,
        forall|j: int| #![trigger entries[j]] i < j < entries.len() ==> entries[j].d_tag != tag,
    ensures
        last_value(entries, tag) == entries[i].d_val,
    decreases entries.len(),
{
    if i < entries.len() - 1 {
        let front = entries.drop_last();
        assert(entries.last() == entries[entries.len() - 1]);
        assert forall|j: int| #![trigger front[j]] i < j < front.len() implies front[j].d_tag
            != tag by {
            assert(front[j] == entries[j]);
        }
        assert(front[i] == entries[i]);
        lemma_last_value(front, tag, i);
    }
}

/// Without an entry with the tag its value is zero.
proof fn lemma_missing_value(entries: Seq<DynamicEntry>, tag: i64)
    requires
        forall|j: int| #![trigger entries[j]] 0 <= j < entries.len() ==> entries[j].d_tag != tag,
    ensures
        last_value(entries, tag) == 0,
    decreases entries.len(),
{
    if entries.len() > 0 {
        let front = entries.drop_last();
        assert(entries.last() == entries[entries.len() - 1]);
        assert forall|j: int| #![trigger front[j]] 0 <= j < front.len() implies front[j].d_tag
            != tag by {
            assert(front[j] == entries[j]);
        }
        lemma_missing_value(front, tag);
    }
}

/// The entries before the first tag 0 at `end` are the live ones.
proof fn lemma_live_entries(entries: Seq<DynamicEntry>, end: int)
    requires
        0 <= end <= entries.len(),
        forall|j: int| #![trigger entries[j]] 0 <= j < end ==> entries[j].d_tag != 0,
        end < entries.len() ==> entries[end].d_tag == 0,
    ensures
        live_entries(entries).len() == end,
        forall|j: int| #![trigger live_entries(entries)[j]]
            0 <= j < end ==> live_entries(entries)[j] == entries[j],
{
    lemma_live_len(entries, end);
}

/// The table's address is the value of the last entry with tag 7 that stands
/// before the first entry with tag 0, at `end`, however many entries there are.
pub proof fn law_table_address_is_the_last_given(entries: Seq<DynamicEntry>, end: int, i: int)
    requires
        0 <= i < end <= entries.len(),
        forall|j: int| #![trigger entries[j]] 0 <= j < end ==> entries[j].d_tag != 0,
        end < entries.len() ==> entries[end].d_tag == 0,
        entries[i].d_tag == 7,
        forall|j: int| #![trigger entries[j]] i < j < end ==> entries[j].d_tag != 7,
    ensures
        described_table(entries).addr == entries[i].d_val,
{
    lemma_live_entries(entries, end);
    let live = live_entries(entries);
    assert(live[i] == entries[i]);
    assert forall|j: int| #![trigger live[j]] i < j < live.len() implies live[j].d_tag != 7 by {
        assert(live[j] == entries[j]);
    }
    lemma_last_value(live, 7, i);
}

/// The table's size is the value of the last entry with tag 8 that stands before
/// the first entry with tag 0, at `end`, however many entries there are.
pub proof fn law_table_size_is_the_last_given(entries: Seq<DynamicEntry>, end: int, i: int)
    requires
        0 <= i < end <= entries.len(),
        forall|j: int| #![trigger entries[j]] 0 <= j < end ==> entries[j].d_tag != 0,
        end < entries.len() ==> entries[end].d_tag == 0,
        entries[i].d_tag == 8,
        forall|j: int| #![trigger entries[j]] i < j < end ==> entries[j].d_tag != 8,
    ensures
        described_table(entries).size == entries[i].d_val,
{
    lemma_live_entries(entries, end);
    let live = live_entries(entries);
    assert(live[i] == entries[i]);
    assert forall|j: int| #![trigger live[j]] i < j < live.len() implies live[j].d_tag != 8 by {
        assert(live[j] == entries[j]);
    }
    lemma_last_value(live, 8, i);
}

/// A value of the table is zero where no entry before the first tag 0, at `end`,
/// gives it.
pub proof fn law_table_values_not_given_are_zero(entries: Seq<DynamicEntry>, end: int)
    requires
        0 <= end <= entries.len(),
        forall|j: int| #![trigger entries[j]] 0 <= j < end ==> entries[j].d_tag != 0,
        end < entries.len() ==> entries[end].d_tag == 0,
    ensures
        (forall|j: int| #![trigger entries[j]] 0 <= j < end ==> entries[j].d_tag != 7)
            ==> described_table(entries).addr == 0,
        (forall|j: int| #![trigger entries[j]] 0 <= j < end ==> entries[j].d_tag != 8)
            ==> described_table(entries).size == 0,
{
    lemma_live_entries(entries, end);
    let live = live_entries(entries);
    if forall|j: int| #![trigger entries[j]] 0 <= j < end ==> entries[j].d_tag != 7 {
        assert forall|j: int| #![trigger live[j]] 0 <= j < live.len() implies live[j].d_tag
            != 7 by {
            assert(live[j] == entries[j]);
        }
        lemma_missing_value(live, 7);
    }
    if forall|j: int| #![trigger entries[j]] 0 <= j < end ==> entries[j].d_tag != 8 {
        assert forall|j: int| #![trigger live[j]] 0 <= j < live.len() implies live[j].d_tag
            != 8 by {
            assert(live[j] == entries[j]);
        }
        lemma_missing_value(live, 8);
    }
}

/// An entry that is neither the end nor about the table makes no difference,
/// wherever it stands.
pub proof fn law_other_entries_make_no_difference(
    before: Seq<DynamicEntry>,
    other: DynamicEntry,
    after: Seq<DynamicEntry>,
)
    requires
        other.d_tag != 0,
        other.d_tag != 7,
        other.d_tag != 8,
    ensures
        described_table(before + seq![other] + after) == described_table(before + after),
{
    let with = before + seq![other] + after;
    let without = before + after;
    let n = live_len(without) as int;
    lemma_live_len_is_the_end(without);
    lemma_live_len_is_the_end(with);
    let m = if n < before.len() {
        n
    } else {
        n + 1
    };
    assert forall|j: int| 0 <= j < m implies with[j].d_tag != DT_NULL by {
        if j < before.len() {
            assert(with[j] == without[j]);
        } else if j > before.len() {
            assert(with[j] == without[j - 1]);
        }
    }
    if m < with.len() {
        if m < before.len() {
            assert(with[m] == without[m]);
        } else {
            assert(with[m] == without[m - 1]);
        }
    }
    lemma_live_len(with, m);
    if n < before.len() {
        assert(live_entries(with) =~= live_entries(without));
    } else {
        let rest = after.take(n - before.len());
        assert(live_entries(without) =~= before + rest);
        assert(live_entries(with) =~= before + seq![other] + rest);
        lemma_last_value_skips(before, other, rest, 7);
        lemma_last_value_skips(before, other, rest, 8);
    }
}

proof fn lemma_last_value_skips(
    before: Seq<DynamicEntry>,
    other: DynamicEntry,
    after: Seq<DynamicEntry>,
    tag: i64,
)
    requires
        other.d_tag != tag,
    ensures
        last_value(before + seq![other] + after, tag) == last_value(before + after, tag),
    decreases after.len(),
{
    let with = before + seq![other] + after;
    let without = before + after;
    if after.len() == 0 {
        assert(with.drop_last() =~= before);
        assert(without =~= before);
        assert(with.last() == other);
    } else {
        assert(with.last() == after.last());
        assert(without.last() == after.last());
        assert(with.drop_last() =~= before + seq![other] + after.drop_last());
        assert(without.drop_last() =~= before + after.drop_last());
        lemma_last_value_skips(before, other, after.drop_last(), tag);
    }
}

/// Nothing before the end is an end, and the end is one or the last entry was
/// passed.
proof fn lemma_live_len_is_the_end(entries: Seq<DynamicEntry>)
    ensures
        live_len(entries) <= entries.len(),
        forall|j: int| #![trigger entries[j]]
            0 <= j < live_len(entries) ==> entries[j].d_tag != DT_NULL,
        live_len(entries) < entries.len() ==> entries[live_len(entries) as int].d_tag == DT_NULL,
    decreases entries.len(),
{
    if entries.len() > 0 && entries[0].d_tag != DT_NULL {
        let rest = entries.skip(1);
        lemma_live_len_is_the_end(rest);
        assert forall|j: int| #![trigger entries[j]] 0 <= j < live_len(
            entries,
        ) implies entries[j].d_tag != DT_NULL by {
            if j > 0 {
                assert(rest[j - 1] == entries[j]);
            }
        }
        if live_len(entries) < entries.len() {
            assert(rest[live_len(rest) as int] == entries[live_len(entries) as int]);
        }
    }
}

/// Where the table lies: as long as the section says, at the address that the
/// section gives, or, where that is below the load base, at the sum of the two.
/// There is no table where its address or its size is zero. Only an overflow of
/// the sum is refused.
pub proof fn law_table_lies_where_the_section_says(load_base: usize, table: RelocationTable)
    ensures
        table.addr == 0 || table.size == 0 ==> table_fits(load_base, table) && table_span(
            load_base,
            table,
        ) is None,
        table.addr != 0 && table.size != 0 && load_base <= (table.addr as usize) ==> {
            &&& table_fits(load_base, table)
            &&& table_span(load_base, table) matches Some(span)
            &&& span.start == table.addr as usize
            &&& span.len == table.size as usize
        },
        table.addr != 0 && table.size != 0 && (table.addr as usize) < load_base ==> {
            &&& table_fits(load_base, table) <==> load_base + (table.addr as usize) <= usize::MAX
            &&& load_base + (table.addr as usize) <= usize::MAX ==> {
                &&& table_span(load_base, table) matches Some(span)
                &&& span.start - load_base == (table.addr as usize)
                &&& span.len == table.size as usize
            }
        },
{
}

/// The pages of the relocation table that may be dropped are those inside of it.
/// Its address is the value of the last entry with tag 7, at `i`, and its size
/// that of the last one with tag 8, at `k`, before the first tag 0, at `end`.
/// Only an overflow of the sums is refused.
pub proof fn law_relocation_pages_are_those_of_the_table(
    load_base: usize,
    entries: Seq<DynamicEntry>,
    end: int,
    i: int,
    k: int,
    page: usize,
)
    requires
        0 <= i < end <= entries.len(),
        0 <= k < end,
        forall|j: int| #![trigger entries[j]] 0 <= j < end ==> entries[j].d_tag != 0,
        end < entries.len() ==> entries[end].d_tag == 0,
        entries[i].d_tag == 7,
        forall|j: int| #![trigger entries[j]] i < j < end ==> entries[j].d_tag != 7,
        entries[k].d_tag == 8,
        forall|j: int| #![trigger entries[j]] k < j < end ==> entries[j].d_tag != 8,
        entries[i].d_val != 0,
        entries[k].d_val != 0,
    ensures
        ({
            let addr = entries[i].d_val as usize;
            let len = entries[k].d_val as usize;
            let start = if addr < load_base {
                load_base + addr
            } else {
                addr as int
            };
            &&& relocation_fits(load_base, entries, page) <==> start <= usize::MAX && (page == 0 || (
            start + page <= usize::MAX + 1 && start + len <= usize::MAX))
            &&& relocation_fits(load_base, entries, page) ==> relocation_interior(
                load_base,
                entries,
                page,
            ) == page_interior(start as usize, len, page)
        }),
{
    law_table_address_is_the_last_given(entries, end, i);
    law_table_size_is_the_last_given(entries, end, k);
}

/// Where the dynamic section gives no address or no size of the table, nothing is
/// dropped and nothing is refused.
pub proof fn law_no_relocation_pages_without_a_table(
    load_base: usize,
    entries: Seq<DynamicEntry>,
    page: usize,
)
    requires
        described_table(entries).addr == 0 || described_table(entries).size == 0,
    ensures
        relocation_fits(load_base, entries, page),
        relocation_interior(load_base, entries, page) is None,
{
}

/// The relocation table never lies below the load base.
pub proof fn law_table_is_not_below_the_load_base(load_base: usize, table: RelocationTable)
    requires
        table_fits(load_base, table),
    ensures
        table_span(load_base, table) matches Some(span) ==> load_base <= span.start,
{
}

/// Whether or not the loader has relocated the table's address makes no
/// difference: a link-time address and its relocated form give the same span.
pub proof fn law_relocated_address_is_the_same_table(load_base: usize, offset: u64, size: u64)
    requires
        0 < (offset as usize) < load_base,
        load_base + (offset as usize) <= usize::MAX,
        load_base + (offset as usize) <= u64::MAX,
    ensures
        table_span(load_base, RelocationTable { addr: offset, size }) == table_span(
            load_base,
            RelocationTable { addr: (load_base + (offset as usize)) as u64, size },
        ),
{
}

/// What stands behind the end of the dynamic section has no effect.
pub proof fn law_entries_after_the_end_are_ignored(
    entries: Seq<DynamicEntry>,
    end: DynamicEntry,
    rest: Seq<DynamicEntry>,
)
    requires
        end.d_tag == DT_NULL,
    ensures
        described_table(entries + seq![end] + rest) == described_table(entries),
{
    lemma_live_len_of_extension(entries, end, rest);
    assert(live_entries(entries + seq![end] + rest) =~= live_entries(entries));
}

proof fn lemma_live_len_of_extension(
    entries: Seq<DynamicEntry>,
    end: DynamicEntry,
    rest: Seq<DynamicEntry>,
)
    requires
        end.d_tag == DT_NULL,
    ensures
        live_len(entries + seq![end] + rest) == live_len(entries),
        live_len(entries) <= entries.len(),
    decreases entries.len(),
{
    let all = entries + seq![end] + rest;
    if entries.len() == 0 {
        assert(all[0] == end);
    } else {
        assert(all[0] == entries[0]);
        assert(all.skip(1) =~= entries.skip(1) + seq![end] + rest);
        lemma_live_len_of_extension(entries.skip(1), end, rest);
    }
}

/// What calls of [`find_text_header`] and [`find_dynamic_header`] give: the first
/// header of type 1 with flags 5 and the first one of type 2. Where nothing is
/// found, none of the headers is of that kind.
pub proof fn law_first_headers_are_found(
    headers: &[ProgramHeader],
    i: int,
    text: Option<ProgramHeader>,
    dynamic: Option<ProgramHeader>,
)
    requires
        0 <= i < headers@.len(),
        call_ensures(find_text_header, (headers,), text),
        call_ensures(find_dynamic_header, (headers,), dynamic),
    ensures
        text is None ==> headers@[i].p_type != 1 || headers@[i].p_flags != 5,
        dynamic is None ==> headers@[i].p_type != 2,
        text matches Some(header) ==> header.p_type == 1 && header.p_flags == 5
            && headers@.contains(header),
        dynamic matches Some(header) ==> header.p_type == 2 && headers@.contains(header),
        headers@[i].p_type == 1 && headers@[i].p_flags == 5 && (forall|j: int|
            #![trigger headers@[j]]
            0 <= j < i ==> headers@[j].p_type != 1 || headers@[j].p_flags != 5) ==> text == Some(
            headers@[i],
        ),
        headers@[i].p_type == 2 && (forall|j: int| #![trigger headers@[j]]
            0 <= j < i ==> headers@[j].p_type != 2) ==> dynamic == Some(headers@[i]),
{
    law_first_header_is_first(headers@, 1, Some(5));
    law_first_header_is_first(headers@, 2, None);
}

/// What a call of [`dynamic_section`] gives, and [`checked_dynamic_section`] too
/// unless the address overflows: as many entries of 16 bytes as the segment of
/// the first header of type 2, at `i`, has room for, from the sum of the load
/// base and the segment's address on.
pub proof fn law_dynamic_section_is_that_of_the_header(
    load_base: usize,
    headers: &[ProgramHeader],
    i: int,
    section: Option<DynamicSection>,
    result: Result<Option<DynamicSection>, AddressOverflow>,
)
    requires
        0 <= i < headers@.len(),
        headers@[i].p_type == 2,
        forall|j: int| #![trigger headers@[j]] 0 <= j < i ==> headers@[j].p_type != 2,
        call_ensures(dynamic_section, (load_base, headers), section),
        call_ensures(checked_dynamic_section, (load_base, headers), result),
    ensures
        result is Err <==> load_base + (headers@[i].p_vaddr as usize) > usize::MAX,
        result is Ok ==> {
            &&& result == Ok::<_, AddressOverflow>(section)
            &&& section matches Some(found)
            &&& found.addr - load_base == (headers@[i].p_vaddr as usize)
            &&& found.count * 16 <= (headers@[i].p_memsz as usize) < found.count * 16 + 16
        },
{
    law_dynamic_section_fills_its_segment(load_base, headers@, i);
}

/// What a call of [`text_pages`] gives, and [`checked_text_pages`] too unless an
/// address overflows: the pages that [`droppable_pages`] gives for the segment of
/// the first header of type 1 with flags 5, at `i`.
pub proof fn law_text_pages_are_those_of_the_header(
    load_base: usize,
    headers: &[ProgramHeader],
    page: usize,
    i: int,
    start: usize,
    droppable: Option<MemoryRange>,
    pages: Option<MemoryRange>,
    result: Result<Option<MemoryRange>, AddressOverflow>,
)
    requires
        0 <= i < headers@.len(),
        headers@[i].p_type == 1,
        headers@[i].p_flags == 5,
        forall|j: int| #![trigger headers@[j]]
            0 <= j < i ==> headers@[j].p_type != 1 || headers@[j].p_flags != 5,
        start - load_base == (headers@[i].p_vaddr as usize),
        call_ensures(droppable_pages, (start, headers@[i].p_memsz as usize, page), droppable),
        call_ensures(text_pages, (load_base, headers, page), pages),
        call_ensures(checked_text_pages, (load_base, headers, page), result),
    ensures
        pages == droppable,
        result is Err <==> page != 0 && (start + page - 1 > usize::MAX || start + (
        headers@[i].p_memsz as usize) > usize::MAX),
        result is Ok ==> result == Ok::<_, AddressOverflow>(droppable),
{
    law_code_pages_are_those_of_the_segment(load_base, headers@, i, page);
    law_code_is_the_first_of_its_kind(headers@, i);
}

/// What a call of [`relocation_table`] gives: for the address the value of the
/// last entry with tag 7, for the size that of the last entry with tag 8, both
/// before the first entry with tag 0, at `end`, and zero where there is none.
pub proof fn law_relocation_table_is_read_to_its_end(
    entries: &[DynamicEntry],
    end: int,
    i: int,
    table: RelocationTable,
)
    requires
        0 <= end <= entries@.len(),
        forall|j: int| #![trigger entries@[j]] 0 <= j < end ==> entries@[j].d_tag != 0,
        end < entries@.len() ==> entries@[end].d_tag == 0,
        call_ensures(relocation_table, (entries,), table),
    ensures
        0 <= i < end && entries@[i].d_tag == 7 && (forall|j: int| #![trigger entries@[j]]
            i < j < end ==> entries@[j].d_tag != 7) ==> table.addr == entries@[i].d_val,
        0 <= i < end && entries@[i].d_tag == 8 && (forall|j: int| #![trigger entries@[j]]
            i < j < end ==> entries@[j].d_tag != 8) ==> table.size == entries@[i].d_val,
        (forall|j: int| #![trigger entries@[j]] 0 <= j < end ==> entries@[j].d_tag != 7)
            ==> table.addr == 0,
        (forall|j: int| #![trigger entries@[j]] 0 <= j < end ==> entries@[j].d_tag != 8)
            ==> table.size == 0,
{
    law_table_values_not_given_are_zero(entries@, end);
    if 0 <= i < end && entries@[i].d_tag == 7 && (forall|j: int| #![trigger entries@[j]]
        i < j < end ==> entries@[j].d_tag != 7) {
        law_table_address_is_the_last_given(entries@, end, i);
    }
    if 0 <= i < end && entries@[i].d_tag == 8 && (forall|j: int| #![trigger entries@[j]]
        i < j < end ==> entries@[j].d_tag != 8) {
        law_table_size_is_the_last_given(entries@, end, i);
    }
}

/// What a call of [`relocation_span`] gives: nothing where the address or the
/// size is zero, and otherwise as many bytes as the size says, from the address
/// on or, where that is below the load base, from the sum of the two on.
pub proof fn law_relocation_span_is_that_of_the_table(
    load_base: usize,
    table: RelocationTable,
    span: Option<MemoryRange>,
)
    requires
        load_base + (table.addr as usize) <= usize::MAX || load_base <= (table.addr as usize),
        call_ensures(relocation_span, (load_base, &table), span),
    ensures
        span is None <==> table.addr == 0 || table.size == 0,
        span matches Some(range) ==> range.len == table.size as usize && range.start == if (
        table.addr as usize) < load_base {
            load_base + (table.addr as usize)
        } else {
            (table.addr as usize) as int
        },
{
}

/// Where no header is of the wanted kind, calls of [`text_pages`] and
/// [`dynamic_section`] give nothing, and the checked ones do not fail.
pub proof fn law_nothing_is_found_without_a_header(
    load_base: usize,
    headers: &[ProgramHeader],
    page: usize,
    pages: Option<MemoryRange>,
    checked_pages: Result<Option<MemoryRange>, AddressOverflow>,
    section: Option<DynamicSection>,
    checked_section: Result<Option<DynamicSection>, AddressOverflow>,
)
    requires
        call_ensures(text_pages, (load_base, headers, page), pages),
        call_ensures(checked_text_pages, (load_base, headers, page), checked_pages),
        call_ensures(dynamic_section, (load_base, headers), section),
        call_ensures(checked_dynamic_section, (load_base, headers), checked_section),
    ensures
        (forall|j: int| #![trigger headers@[j]]
            0 <= j < headers@.len() ==> headers@[j].p_type != 1 || headers@[j].p_flags != 5)
            ==> pages is None && checked_pages == Ok::<Option<MemoryRange>, AddressOverflow>(None),
        (forall|j: int| #![trigger headers@[j]] 0 <= j < headers@.len() ==> headers@[j].p_type != 2)
            ==> section is None && checked_section == Ok::<
            Option<DynamicSection>,
            AddressOverflow,
        >(None),
{
    law_first_header_is_first(headers@, 1, Some(5));
    law_first_header_is_first(headers@, 2, None);
}

/// What a call of [`relocation_pages`] gives, and [`checked_relocation_pages`] too
/// unless an address overflows: the pages that [`droppable_pages`] gives for the
/// span that [`relocation_span`] gives for the table that [`relocation_table`]
/// reads.
pub proof fn law_relocation_pages_are_those_of_the_span(
    load_base: usize,
    entries: &[DynamicEntry],
    page: usize,
    table: RelocationTable,
    span: Option<MemoryRange>,
    droppable: Option<MemoryRange>,
    pages: Option<MemoryRange>,
    result: Result<Option<MemoryRange>, AddressOverflow>,
)
    requires
        call_ensures(relocation_table, (entries,), table),
        load_base + (table.addr as usize) <= usize::MAX || load_base <= (table.addr as usize),
        call_ensures(relocation_span, (load_base, &table), span),
        span matches Some(range) ==> call_ensures(
            droppable_pages,
            (range.start, range.len, page),
            droppable,
        ),
        call_ensures(relocation_pages, (load_base, entries, page), pages),
        call_ensures(checked_relocation_pages, (load_base, entries, page), result),
    ensures
        span is None ==> pages is None,
        span is Some ==> pages == droppable,
        result is Err <==> page != 0 && (span matches Some(range) && (range.start + page - 1
            > usize::MAX || range.start + range.len > usize::MAX)),
        result is Ok ==> result == Ok::<_, AddressOverflow>(pages),
{
}

/// Where the address of the table, relative to the load base, overflows, a call of
/// [`checked_relocation_pages`] fails if the table is described, and else gives
/// nothing.
pub proof fn law_relocation_address_overflow_is_refused(
    load_base: usize,
    entries: &[DynamicEntry],
    page: usize,
    table: RelocationTable,
    result: Result<Option<MemoryRange>, AddressOverflow>,
)
    requires
        call_ensures(relocation_table, (entries,), table),
        (table.addr as usize) < load_base,
        load_base + (table.addr as usize) > usize::MAX,
        call_ensures(checked_relocation_pages, (load_base, entries, page), result),
    ensures
        result is Err <==> table.addr != 0 && table.size != 0,
        result matches Ok(pages) ==> pages is None,
{
}

/// A call of [`checked_text_pages`] fails where the sum of the load base and the
/// address of the code segment overflows. The code is the first header of type 1
/// with flags 5, at `i`.
pub proof fn law_code_address_overflow_is_refused(
    load_base: usize,
    headers: &[ProgramHeader],
    page: usize,
    i: int,
    result: Result<Option<MemoryRange>, AddressOverflow>,
)
    requires
        0 <= i < headers@.len(),
        headers@[i].p_type == 1,
        headers@[i].p_flags == 5,
        forall|j: int| #![trigger headers@[j]]
            0 <= j < i ==> headers@[j].p_type != 1 || headers@[j].p_flags != 5,
        load_base + (headers@[i].p_vaddr as usize) > usize::MAX,
        call_ensures(checked_text_pages, (load_base, headers, page), result),
    ensures
        result is Err,
{
    law_code_pages_are_those_of_the_segment(load_base, headers@, i, page);
}

/// A call of [`text_probe_enabled`] says yes to the one byte of the digit one, and
/// to no other value and no missing one.
pub proof fn law_probe_is_asked_for_by_a_one(bytes: &[u8], given: bool, missing: bool)
    requires
        call_ensures(text_probe_enabled, (Some(bytes),), given),
        call_ensures(text_probe_enabled, (None,), missing),
    ensures
        given <==> bytes@.len() == 1 && bytes@[0] == 49,
        !missing,
{
}

} // verus!
