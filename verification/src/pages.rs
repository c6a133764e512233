//! Which pages of a byte range may be handed back to the kernel.
//!
//! Dropping resident pages works on whole pages only. A range that starts or
//! ends inside a page keeps that page: it also holds bytes of somebody else.

use vstd::arithmetic::div_mod::lemma_div_plus_one;
use vstd::arithmetic::div_mod::lemma_fundamental_div_mod;
use vstd::arithmetic::div_mod::lemma_mod_multiples_basic;
use vstd::arithmetic::mul::lemma_mul_inequality;
use vstd::arithmetic::mul::lemma_mul_is_distributive_add_other_way;
use vstd::arithmetic::mul::lemma_mul_is_distributive_sub_other_way;
use vstd::arithmetic::power2::lemma_pow2_pos;
use vstd::arithmetic::power2::pow2;
use vstd::bits::lemma_usize_low_bits_mask_is_mod;
use vstd::bits::lemma_usize_pow2_no_overflow;
use vstd::bits::low_bits_mask;
use vstd::prelude::*;

verus! {

/// A run of addresses `[start, start + len)`.
#[derive(Clone, Copy, Debug, PartialEq, Eq, Structural)]
pub struct MemoryRange {
    pub start: usize,
    pub len: usize,
}

/// An address does not fit in a `usize`.
#[derive(Clone, Copy, Debug, PartialEq, Eq, Structural)]
pub struct AddressOverflow;

/// The sizes a memory page can have: the powers of two.
pub open spec fn is_page_size(page: usize) -> bool {
    exists|n: nat| n < usize::BITS && page == #[trigger] pow2(n)
}

/// The largest multiple of `page` that is not above `addr`.
pub open spec fn round_down(addr: int, page: int) -> int {
    (addr / page) * page
}

/// The smallest multiple of `page` that is not below `addr`.
pub open spec fn round_up(addr: int, page: int) -> int {
    round_down(addr + page - 1, page)
}

/// `addr` with the bits of `page - 1` cleared. For a page size this rounds
/// down to a page boundary.
pub open spec fn clear_offset(addr: usize, page: usize) -> usize {
    addr & !((page - 1) as usize)
}

/// The range from `start` up to `end`, or nothing where that is empty.
pub open spec fn range_between(start: int, end: int) -> Option<MemoryRange> {
    if start < end {
        Some(MemoryRange { start: start as usize, len: (end - start) as usize })
    } else {
        None
    }
}

/// The pages of `[ptr, ptr + len)` that may be dropped: those from the first
/// page boundary at or after the start up to the last one at or before the end.
///
/// Other numbers than page sizes have no page boundaries. For them both ends are
/// cut in the same way, and all that holds is that the result lies inside.
pub open spec fn page_interior(ptr: usize, len: usize, page: usize) -> Option<MemoryRange> {
    if page == 0 {
        None
    } else if is_page_size(page) {
        range_between(round_up(ptr as int, page as int), round_down(ptr + len, page as int))
    } else {
        range_between(
            clear_offset((ptr + (page - 1)) as usize, page) as int,
            clear_offset((ptr + len) as usize, page) as int,
        )
    }
}

/// The addresses computed for the range fit in a `usize`.
pub open spec fn pages_fit(ptr: usize, len: usize, page: usize) -> bool {
    page != 0 ==> ptr + (page - 1) <= usize::MAX && ptr + len <= usize::MAX
}

/// Clearing the low bits of an address takes away at most `page - 1`.
proof fn lemma_clear_offset_bounds(addr: usize, page: usize)
    requires
        page != 0,
    ensures
        clear_offset(addr, page) <= addr,
        addr - (page - 1) <= clear_offset(addr, page),
{
    let mask: usize = (page - 1) as usize;
    assert(addr & !mask <= addr) by (bit_vector);
    assert(addr <= (addr & !mask) + mask) by (bit_vector);
}

/// For a page size, clearing the low bits rounds down.
proof fn lemma_clear_offset_rounds_down(addr: usize, page: usize)
    requires
        is_page_size(page),
    ensures
        clear_offset(addr, page) == round_down(addr as int, page as int),
{
    let n = choose|n: nat| n < usize::BITS && page == #[trigger] pow2(n);
    let mask: usize = (page - 1) as usize;
    lemma_pow2_pos(n);
    lemma_usize_pow2_no_overflow(n);
    lemma_usize_low_bits_mask_is_mod(addr, n);
    assert(low_bits_mask(n) == mask);
    assert((addr & !mask) + (addr & mask) == addr) by (bit_vector);
    lemma_fundamental_div_mod(addr as int, page as int);
    assert(page * (addr as int / page as int) == (addr as int / page as int) * page)
        by (nonlinear_arith);
}

/// Clearing the low bits at both ends gives the pages that may be dropped.
proof fn lemma_page_interior_by_masks(ptr: usize, len: usize, page: usize)
    requires
        page != 0,
        pages_fit(ptr, len, page),
    ensures
        page_interior(ptr, len, page) == range_between(
            clear_offset((ptr + (page - 1)) as usize, page) as int,
            clear_offset((ptr + len) as usize, page) as int,
        ),
{
    if is_page_size(page) {
        lemma_clear_offset_rounds_down((ptr + (page - 1)) as usize, page);
        lemma_clear_offset_rounds_down((ptr + len) as usize, page);
    }
}

/// No page is empty.
proof fn lemma_page_size_is_positive(page: usize)
    requires
        is_page_size(page),
    ensures
        page > 0,
{
    let n = choose|n: nat| n < usize::BITS && page == #[trigger] pow2(n);
    lemma_pow2_pos(n);
}

/// The whole pages of `page` bytes that lie inside `[ptr, ptr + len)`: the
/// start is rounded up and the end is rounded down, so that no byte outside of
/// the range is ever part of the result. There is nothing to drop where no
/// whole page lies inside, and where the page size is not known (zero).
pub fn droppable_pages(ptr: usize, len: usize, page: usize) -> (pages: Option<MemoryRange>)
    requires
        pages_fit(ptr, len, page),
    ensures
        pages == page_interior(ptr, len, page),
{
    if page == 0 {
        return None;
    }
    proof {
        lemma_page_interior_by_masks(ptr, len, page);
    }
    let mask: usize = page - 1;
    let start: usize = (ptr + mask) & !mask;
    let end: usize = (ptr + len) & !mask;
    if end <= start {
        return None;
    }
    Some(MemoryRange { start, len: end - start })
}

/// Whether the addresses computed for the range fit in a `usize`.
pub(crate) fn do_pages_fit(ptr: usize, len: usize, page: usize) -> (fit: bool)
    ensures
        fit == pages_fit(ptr, len, page),
{
    page == 0 || (ptr.checked_add(page - 1).is_some() && ptr.checked_add(len).is_some())
}

/// The pages that [`droppable_pages`] gives, where the addresses fit.
pub fn checked_droppable_pages(ptr: usize, len: usize, page: usize) -> (result: Result<
    Option<MemoryRange>,
    AddressOverflow,
>)
    ensures
        result == if pages_fit(ptr, len, page) {
            Ok(page_interior(ptr, len, page))
        } else {
            Err(AddressOverflow)
        },
{
    if !do_pages_fit(ptr, len, page) {
        return Err(AddressOverflow);
    }
    Ok(droppable_pages(ptr, len, page))
}

/// No byte outside of the given range is dropped, whatever the page size.
pub proof fn law_no_byte_outside_is_dropped(ptr: usize, len: usize, page: usize)
    requires
        pages_fit(ptr, len, page),
    ensures
        page_interior(ptr, len, page) matches Some(range) ==> ptr <= range.start && range.start
            + range.len <= ptr + len,
{
    if page != 0 {
        lemma_page_interior_by_masks(ptr, len, page);
        lemma_clear_offset_bounds((ptr + (page - 1)) as usize, page);
        lemma_clear_offset_bounds((ptr + len) as usize, page);
    }
}

/// What is dropped is made of whole pages, and of at least one. Less than a page
/// is kept at either end.
pub proof fn law_only_whole_pages_are_dropped(ptr: usize, len: usize, page: usize)
    requires
        is_page_size(page),
        pages_fit(ptr, len, page),
    ensures
        page_interior(ptr, len, page) matches Some(range) ==> {
            &&& range.start as int % page as int == 0
            &&& range.len as int % page as int == 0
            &&& range.len >= page
            &&& ptr <= range.start < ptr + page
            &&& range.start + range.len <= ptr + len < range.start + range.len + page
        },
{
    lemma_page_size_is_positive(page);
    let p = page as int;
    let s = (ptr + p - 1) / p;
    let e = (ptr + len) / p;
    lemma_fundamental_div_mod(ptr + p - 1, p);
    lemma_fundamental_div_mod((ptr + len) as int, p);
    assert(p * s == s * p && p * e == e * p) by (nonlinear_arith);
    if s * p < e * p {
        assert(0 <= s < e) by (nonlinear_arith)
            requires
                s * p < e * p,
                p > 0,
                s == (ptr + p - 1) / p,
        ;
        lemma_mod_multiples_basic(s, p);
        lemma_mod_multiples_basic(e - s, p);
        lemma_mul_is_distributive_sub_other_way(p, e, s);
        lemma_mul_inequality(0, s, p);
        lemma_mul_inequality(1, e - s, p);
    }
}

/// Every whole page inside the given range is dropped.
pub proof fn law_every_whole_page_inside_is_dropped(ptr: usize, len: usize, page: usize, k: int)
    requires
        is_page_size(page),
        pages_fit(ptr, len, page),
        ptr <= k * page,
        k * page + page <= ptr + len,
    ensures
        page_interior(ptr, len, page) matches Some(range) && range.start <= k * page && k * page
            + page <= range.start + range.len,
{
    lemma_page_size_is_positive(page);
    let p = page as int;
    let s = (ptr + p - 1) / p;
    let e = (ptr + len) / p;
    lemma_fundamental_div_mod(ptr + p - 1, p);
    lemma_fundamental_div_mod((ptr + len) as int, p);
    assert(p * s == s * p && p * e == e * p) by (nonlinear_arith);
    // The page that starts at `k * p` is not before the first and not after
    // the last one.
    assert(0 <= s <= k) by (nonlinear_arith)
        requires
            s == (ptr + p - 1) / p,
            s * p <= ptr + p - 1,
            ptr <= k * p,
            p > 0,
    ;
    assert(k + 1 <= e) by (nonlinear_arith)
        requires
            k * p + p <= ptr + len,
            ptr + len < e * p + p,
            p > 0,
    ;
    lemma_mul_inequality(0, s, p);
    lemma_mul_inequality(s, k, p);
    lemma_mul_inequality(k + 1, e, p);
    lemma_mul_is_distributive_add_other_way(p, k, 1);
}

/// Every power of two that fits in a `usize` is a page size, and nothing else is.
pub proof fn law_page_sizes_are_the_powers_of_two(n: nat, page: usize)
    requires
        n < usize::BITS,
    ensures
        pow2(n) <= usize::MAX,
        page == pow2(n) ==> is_page_size(page),
        (forall|m: nat| page != #[trigger] pow2(m)) ==> !is_page_size(page),
{
    lemma_usize_pow2_no_overflow(n);
}

/// What a call of [`droppable_pages`] gives, whatever the page size: each end of
/// the range loses exactly the bits that it has in common with `page - 1`, once
/// the start was moved up by `page - 1`.
pub proof fn law_ends_lose_their_offset(
    ptr: usize,
    len: usize,
    page: usize,
    pages: Option<MemoryRange>,
)
    requires
        page != 0,
        ptr + page - 1 <= usize::MAX,
        ptr + len <= usize::MAX,
        call_ensures(droppable_pages, (ptr, len, page), pages),
    ensures
        ({
            let offset = (page - 1) as usize;
            let upper = (ptr + page - 1) as usize;
            let end = (ptr + len) as usize;
            match pages {
                Some(range) => {
                    &&& range.len > 0
                    &&& range.start + (upper & offset) == upper
                    &&& range.start + range.len + (end & offset) == end
                },
                None => end - (end & offset) <= upper - (upper & offset),
            }
        }),
{
    let offset = (page - 1) as usize;
    let upper = (ptr + page - 1) as usize;
    let end = (ptr + len) as usize;
    lemma_page_interior_by_masks(ptr, len, page);
    assert((upper & !offset) + (upper & offset) == upper) by (bit_vector);
    assert((end & !offset) + (end & offset) == end) by (bit_vector);
}

/// Without a page size nothing is dropped.
pub proof fn law_nothing_is_dropped_without_a_page_size(ptr: usize, len: usize)
    ensures
        page_interior(ptr, len, 0) is None,
{
}

/// A range is refused only where one of the two sums overflows, and never where
/// there is no page size.
pub proof fn law_only_overflow_is_refused(ptr: usize, len: usize, page: usize)
    ensures
        pages_fit(ptr, len, page) <==> page == 0 || (ptr + page <= usize::MAX + 1 && ptr + len
            <= usize::MAX),
{
}

/// Dropping again what is left to drop changes nothing: the pages of the pages
/// are the same pages.
pub proof fn law_pages_of_pages_are_the_same(ptr: usize, len: usize, page: usize, n: nat)
    requires
        n < usize::BITS,
        page == pow2(n),
        ptr + page - 1 <= usize::MAX,
        ptr + len <= usize::MAX,
    ensures
        page_interior(ptr, len, page) matches Some(range) ==> page_interior(
            range.start,
            range.len,
            page,
        ) == Some(range),
{
    assert(is_page_size(page));
    law_only_whole_pages_are_dropped(ptr, len, page);
    if page_interior(ptr, len, page) is Some {
        let range = page_interior(ptr, len, page).unwrap();
        let p = page as int;
        lemma_page_size_is_positive(page);
        let a = range.start as int / p;
        let b = range.len as int / p;
        lemma_fundamental_div_mod(range.start as int, p);
        lemma_fundamental_div_mod(range.len as int, p);
        assert(p * a == a * p && p * b == b * p && (a + b) * p == a * p + b * p)
            by (nonlinear_arith);
        assert((range.start + p - 1) / p == a) by (nonlinear_arith)
            requires
                range.start == a * p,
                p > 0,
        ;
        assert((range.start + range.len) / p == a + b) by (nonlinear_arith)
            requires
                range.start + range.len == (a + b) * p,
                p > 0,
        ;
    }
}

/// To move a range by one page moves its pages by one page.
pub proof fn law_pages_move_with_the_range(ptr: usize, len: usize, page: usize, n: nat)
    requires
        n < usize::BITS,
        page == pow2(n),
        ptr + page + page - 1 <= usize::MAX,
        ptr + page + len <= usize::MAX,
    ensures
        match (
            page_interior(ptr, len, page),
            page_interior((ptr + page) as usize, len, page),
        ) {
            (Some(here), Some(there)) => there.start == here.start + page && there.len == here.len,
            (None, None) => true,
            _ => false,
        },
{
    assert(is_page_size(page));
    lemma_page_size_is_positive(page);
    let p = page as int;
    lemma_div_plus_one(ptr + p - 1, p);
    lemma_div_plus_one((ptr + len) as int, p);
    let s = (ptr + p - 1) / p;
    let e = (ptr + len) / p;
    lemma_fundamental_div_mod(ptr + p - 1, p);
    lemma_fundamental_div_mod((ptr + len) as int, p);
    assert(p * s == s * p && p * e == e * p) by (nonlinear_arith);
    lemma_mul_is_distributive_add_other_way(p, s, 1);
    lemma_mul_is_distributive_add_other_way(p, e, 1);
    assert(s * p >= 0) by (nonlinear_arith)
        requires
            s == (ptr + p - 1) / p,
            p > 0,
    ;
    assert(ptr + p + p - 1 == p + (ptr + p - 1));
    assert(ptr + p + len == p + (ptr + len));
}

/// What a call of [`droppable_pages`] gives for a page size: whole pages inside
/// the range, all but less than a page at either end, or nothing where no page
/// lies inside.
pub proof fn law_droppable_pages_are_the_whole_pages(
    ptr: usize,
    len: usize,
    page: usize,
    n: nat,
    k: int,
    pages: Option<MemoryRange>,
)
    requires
        n < usize::BITS,
        page == pow2(n),
        ptr + page - 1 <= usize::MAX,
        ptr + len <= usize::MAX,
        call_ensures(droppable_pages, (ptr, len, page), pages),
    ensures
        match pages {
            Some(range) => {
                &&& range.start as int % page as int == 0
                &&& range.len as int % page as int == 0
                &&& range.len >= page
                &&& ptr <= range.start < ptr + page
                &&& range.start + range.len <= ptr + len < range.start + range.len + page
            },
            None => !(ptr <= k * page && k * page + page <= ptr + len),
        },
{
    assert(is_page_size(page));
    law_only_whole_pages_are_dropped(ptr, len, page);
    if ptr <= k * page && k * page + page <= ptr + len {
        law_every_whole_page_inside_is_dropped(ptr, len, page, k);
    }
}

/// A call of [`checked_droppable_pages`] fails only where one of the two sums
/// overflows, and otherwise gives what [`droppable_pages`] gives.
pub proof fn law_checked_pages_are_the_same(
    ptr: usize,
    len: usize,
    page: usize,
    pages: Option<MemoryRange>,
    result: Result<Option<MemoryRange>, AddressOverflow>,
)
    requires
        call_ensures(droppable_pages, (ptr, len, page), pages),
        call_ensures(checked_droppable_pages, (ptr, len, page), result),
    ensures
        result is Err <==> page != 0 && (ptr + page - 1 > usize::MAX || ptr + len > usize::MAX),
        result is Ok ==> result == Ok::<_, AddressOverflow>(pages),
        page == 0 ==> pages is None,
{
}

} // verus!
