//! Page-touch arithmetic: how many pages a byte region spans, which offsets a
//! page-stepped touch loop visits, and the reservation step that allocates a
//! buffer, touches every page of it, and releases it.

use vstd::prelude::*;

verus! {

/// Number of pages a region of `size` bytes spans when pages are `page` bytes:
/// zero for an empty region, otherwise one page for each full or partial page
/// step through the region.
pub open spec fn pages_spanned(size: nat, page: nat) -> nat
    recommends
        page >= 1,
    decreases size,
{
    if page == 0 || size == 0 {
        0
    } else if size <= page {
        1
    } else {
        1 + pages_spanned((size - page) as nat, page)
    }
}

/// A region that is a whole number of pages spans exactly that many pages.
pub proof fn lemma_pages_spanned_multiple(k: nat, page: nat)
    requires
        1 <= page,
    ensures
        pages_spanned(k * page, page) == k,
    decreases k,
{
    if k == 0 {
        assert(k * page == 0);
    } else {
        lemma_pages_spanned_multiple((k - 1) as nat, page);
        assert(k * page == (k - 1) * page + page) by (nonlinear_arith);
        if k == 1 {
            assert(pages_spanned(k * page, page) == 1);
        } else {
            assert(k * page > page) by (nonlinear_arith)
                requires
                    k >= 2,
                    page >= 1,
            ;
        }
    }
}

/// A non-empty region smaller than one page still spans one page.
pub proof fn lemma_small_region_spans_one_page(size: nat, page: nat)
    requires
        1 <= size <= page,
    ensures
        pages_spanned(size, page) == 1,
{
}

/// The offsets a page-stepped touch loop visits in a region of `size` bytes:
/// one offset per spanned page, each the start of its page, all within the
/// region.
pub fn page_offsets(size: usize, page_size: usize) -> (offs: Vec<usize>)
    requires
        1 <= page_size,
    ensures
        offs@.len() == pages_spanned(size as nat, page_size as nat),
        forall|k: int| 0 <= k < offs@.len() ==> offs@[k] == k * page_size && offs@[k] < size,
{
    let mut offs: Vec<usize> = Vec::new();
    if size == 0 {
        return offs;
    }
    let mut i: usize = 0;
    proof {
        assert(offs@.len() * page_size == 0) by (nonlinear_arith)
            requires
                offs@.len() == 0,
        ;
    }
    loop
        invariant_except_break
            1 <= page_size,
            i < size,
            offs@.len() * page_size == i,
            pages_spanned(size as nat, page_size as nat) == offs@.len() + pages_spanned(
                (size - i) as nat,
                page_size as nat,
            ),
            forall|k: int| 0 <= k < offs@.len() ==> offs@[k] == k * page_size && offs@[k] < size,
        ensures
            offs@.len() == pages_spanned(size as nat, page_size as nat),
            forall|k: int| 0 <= k < offs@.len() ==> offs@[k] == k * page_size && offs@[k] < size,
        decreases size - i,
    {
        let ghost prev_len = offs@.len() as int;
        offs.push(i);
        if size - i <= page_size {
            break;
        }
        i = i + page_size;
        proof {
            assert((prev_len + 1) * page_size == prev_len * page_size + page_size)
                by (nonlinear_arith);
        }
    }
    offs
}

/// Write one byte into every page of `buf`, stepping by exactly `page_size`
/// so each page is visited once: the write resolves any pending page fault at
/// a controlled point.  Returns how many pages were touched.
pub fn touch_pages(buf: &mut Vec<u8>, page_size: usize) -> (count: usize)
    requires
        1 <= page_size,
    ensures
        final(buf)@.len() == old(buf)@.len(),
        forall|k: int|
            0 <= k < old(buf)@.len() ==> final(buf)@[k] == (if k % (page_size as int) == 0 {
                0u8
            } else {
                old(buf)@[k]
            }),
        count == pages_spanned(old(buf)@.len() as nat, page_size as nat),
{
    let size = buf.len();
    if size == 0 {
        return 0;
    }
    let mut count: usize = 0;
    let mut i: usize = 0;
    proof {
        assert(count * page_size == 0) by (nonlinear_arith)
            requires
                count == 0,
        ;
    }
    loop
        invariant_except_break
            1 <= page_size,
            i < size,
            size == buf@.len(),
            count * page_size == i,
            count <= i,
            pages_spanned(size as nat, page_size as nat) == count + pages_spanned(
                (size - i) as nat,
                page_size as nat,
            ),
            forall|k: int|
                0 <= k < size ==> buf@[k] == (if k % (page_size as int) == 0 && k < i {
                    0u8
                } else {
                    old(buf)@[k]
                }),
        ensures
            buf@.len() == size,
            count == pages_spanned(size as nat, page_size as nat),
            forall|k: int|
                0 <= k < size ==> buf@[k] == (if k % (page_size as int) == 0 {
                    0u8
                } else {
                    old(buf)@[k]
                }),
        decreases size - i,
    {
        let ghost prev_count = count as int;
        proof {
            assert((i as int) % (page_size as int) == 0) by (nonlinear_arith)
                requires
                    prev_count * page_size == i,
                    page_size >= 1,
                    i >= 0,
            ;
        }
        buf.set(i, 0u8);
        count = count + 1;
        proof {
            assert forall|k: int| i < k < i + page_size implies #[trigger] (k % (page_size as int))
                != 0 by {
                assert(k % (page_size as int) != 0) by (nonlinear_arith)
                    requires
                        prev_count * page_size == i,
                        i < k < i + page_size,
                        page_size >= 1,
                        i >= 0,
                ;
            }
        }
        if size - i <= page_size {
            break;
        }
        i = i + page_size;
        proof {
            assert((prev_count + 1) * page_size == prev_count * page_size + page_size)
                by (nonlinear_arith);
        }
    }
    count
}

/// Why a reservation can fail: the allocator declined to provide the region.
#[derive(Clone, Copy, PartialEq, Eq, Structural, Debug)]
pub enum ReserveError {
    OutOfMemory,
}

/// The reservation step: obtain a zeroed region of `size` bytes from the
/// allocator, touch every page of it so each page is backed by physical
/// memory, then release the region back to the allocator.  With allocator
/// trimming disabled the physical pages stay with the process afterwards.
/// Returns how many pages were touched; fails only when the allocator cannot
/// provide the region.
pub fn reserve_process_memory(size: usize, page_size: usize) -> (r: Result<
    usize,
    ReserveError,
>)
    requires
        1 <= page_size,
    ensures
        r matches Ok(pages) ==> pages == pages_spanned(size as nat, page_size as nat),
        r matches Err(e) ==> e == ReserveError::OutOfMemory,
{
    let mut buf: Vec<u8> = Vec::new();
    if buf.try_reserve(size).is_err() {
        return Err(ReserveError::OutOfMemory);
    }
    buf.resize(size, 0u8);
    let pages = touch_pages(&mut buf, page_size);
    Ok(pages)
}

/// Law: for a page size P and a reservation size that is a whole multiple of
/// P, the page-stepped touch offsets visit exactly size/P pages, each exactly
/// once: the offsets are pairwise distinct and the offset at position k lies
/// in page k.
pub proof fn lemma_each_page_touched_once(offs: Seq<usize>, size: nat, page: nat)
    requires
        1 <= page,
        size % page == 0,
        offs.len() == pages_spanned(size, page),
        forall|k: int| 0 <= k < offs.len() ==> offs[k] == k * page,
    ensures
        offs.len() == size / page,
        forall|k1: int, k2: int| 0 <= k1 < k2 < offs.len() ==> offs[k1] != offs[k2],
        forall|k: int| 0 <= k < offs.len() ==> offs[k] as int / (page as int) == k,
{
    let n = size / page;
    vstd::arithmetic::div_mod::lemma_fundamental_div_mod(size as int, page as int);
    assert(size == n * page) by (nonlinear_arith)
        requires
            size == (page as int) * (size as int / page as int) + (size as int % page as int),
            size % page == 0,
            n == size / page,
    ;
    lemma_pages_spanned_multiple(n, page);
    assert forall|k1: int, k2: int| 0 <= k1 < k2 < offs.len() implies offs[k1] != offs[k2] by {
        assert(k1 * page < k2 * page) by (nonlinear_arith)
            requires
                0 <= k1 < k2,
                page >= 1,
        ;
    }
    assert forall|k: int| 0 <= k < offs.len() implies offs[k] as int / (page as int) == k by {
        assert((k * page) as int / (page as int) == k) by (nonlinear_arith)
            requires
                page >= 1,
                k >= 0,
        ;
    }
}

} // verus!
