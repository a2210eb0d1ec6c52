//! Pagination arithmetic: how an ordered result sequence of length `total`
//! splits into pages of `page_size` entries, which slice of it a page shows,
//! and how the cursor moves inside a page with wraparound.

use vstd::arithmetic::div_mod::{lemma_div_is_ordered, lemma_fundamental_div_mod};
use vstd::arithmetic::mul::lemma_mul_inequality;
use vstd::prelude::*;

verus! {

/// Number of pages needed to show `total` entries: the least `p` with
/// `p * page_size >= total`. Zero entries need zero pages; the screen
/// still shows one (empty) page, see `spec_last_page`.
pub open spec fn spec_page_count(total: nat, page_size: nat) -> nat
    recommends
        page_size > 0,
{
    if total == 0 {
        0
    } else {
        ((total - 1) / (page_size as int) + 1) as nat
    }
}

/// Zero-based index of the last page the screen can stand on. An empty
/// result sequence leaves the screen on the single empty page `0`.
pub open spec fn spec_last_page(total: nat, page_size: nat) -> nat
    recommends
        page_size > 0,
{
    if total == 0 {
        0
    } else {
        (spec_page_count(total, page_size) - 1) as nat
    }
}

/// How many entries page `page` shows: the length of the slice
/// `[page * page_size, min(total, (page + 1) * page_size))`.
pub open spec fn spec_visible_count(total: nat, page_size: nat, page: nat) -> nat {
    if total <= page * page_size {
        0
    } else if total - page * page_size < page_size {
        (total - page * page_size) as nat
    } else {
        page_size
    }
}

/// Cursor index after one upward move on a page showing `count` entries:
/// wraps from the top row to the bottom one. An empty page leaves the
/// cursor where it is.
pub open spec fn spec_wrap_up(index: nat, count: nat) -> nat {
    if count == 0 {
        index
    } else if index > 0 {
        (index - 1) as nat
    } else {
        (count - 1) as nat
    }
}

/// Cursor index after one downward move on a page showing `count` entries:
/// wraps from the bottom row to the top one. An empty page leaves the
/// cursor where it is.
pub open spec fn spec_wrap_down(index: nat, count: nat) -> nat {
    if count == 0 {
        index
    } else if index + 1 < count {
        index + 1
    } else {
        0
    }
}

/// `spec_page_count` is the ceiling of `total / page_size`: the pages cover
/// all entries, and dropping the last page would leave some uncovered.
pub proof fn lemma_page_count_is_ceil(total: nat, page_size: nat)
    requires
        page_size > 0,
    ensures
        total <= spec_page_count(total, page_size) * page_size,
        total > 0 ==> (spec_page_count(total, page_size) - 1) * page_size < total,
{
    if total > 0 {
        let q = (total - 1) as int / page_size as int;
        lemma_fundamental_div_mod(total as int - 1, page_size as int);
        assert((q + 1) * page_size == q * page_size + page_size) by (nonlinear_arith);
    }
}

/// Exactly the pages before `spec_page_count` show at least one entry.
/// So the count of distinct non-empty page slices, iterating the page
/// index from `0` upward, is `spec_page_count(total, page_size)`.
pub proof fn lemma_nonempty_pages(total: nat, page_size: nat)
    requires
        page_size > 0,
    ensures
        forall|p: nat|
            (spec_visible_count(total, page_size, p) > 0 <==> p < spec_page_count(
                total,
                page_size,
            )),
{
    assert forall|p: nat|
        (spec_visible_count(total, page_size, p) > 0 <==> p < spec_page_count(
            total,
            page_size,
        )) by {
        lemma_page_count_is_ceil(total, page_size);
        let pc = spec_page_count(total, page_size);
        if p < pc {
            // p <= pc - 1, so p * page_size <= (pc - 1) * page_size < total
            lemma_mul_inequality(p as int, pc as int - 1, page_size as int);
        }
        if p >= pc {
            // total <= pc * page_size <= p * page_size
            lemma_mul_inequality(pc as int, p as int, page_size as int);
        }
    }
}

/// A page the screen can stand on is never empty while there are entries.
pub proof fn lemma_page_in_range_nonempty(total: nat, page_size: nat, page: nat)
    requires
        page_size > 0,
        total > 0,
        page <= spec_last_page(total, page_size),
    ensures
        spec_visible_count(total, page_size, page) > 0,
{
    lemma_page_count_is_ceil(total, page_size);
    lemma_mul_inequality(page as int, spec_page_count(total, page_size) as int - 1,
        page_size as int);
}

/// A cursor inside the visible slice of its page names an entry of the
/// result sequence: its absolute index is below `total`.
pub proof fn lemma_absolute_index_in_bounds(total: nat, page_size: nat, page: nat, index: nat)
    requires
        page_size > 0,
        index < spec_visible_count(total, page_size, page),
    ensures
        page * page_size + index < total,
{
}

/// Vertical wraparound: on a page showing `count > 0` entries, moving up
/// from the top row lands on the bottom row, and moving down from the
/// bottom row lands on the top row.
pub proof fn lemma_vertical_wraparound(count: nat)
    requires
        count > 0,
    ensures
        spec_wrap_up(0, count) == count - 1,
        spec_wrap_down((count - 1) as nat, count) == 0,
{
}

/// Zero-based index of the last page, computed from the live sequence
/// length; `0` when there are no entries.
pub fn last_page(total: usize, page_size: usize) -> (r: usize)
    requires
        page_size > 0,
    ensures
        r == spec_last_page(total as nat, page_size as nat),
{
    if total == 0 {
        0
    } else {
        proof {
            lemma_div_is_ordered(0, total as int - 1, page_size as int);
        }
        (total - 1) / page_size
    }
}

/// How many entries page `page` shows; `0` beyond the last page.
pub fn visible_count(total: usize, page_size: usize, page: usize) -> (r: usize)
    requires
        page_size > 0,
    ensures
        r == spec_visible_count(total as nat, page_size as nat, page as nat),
{
    if total == 0 {
        return 0;
    }
    let lp: usize = (total - 1) / page_size;
    if page > lp {
        proof {
            lemma_page_count_is_ceil(total as nat, page_size as nat);
            lemma_mul_inequality(spec_page_count(total as nat, page_size as nat) as int,
                page as int, page_size as int);
        }
        return 0;
    }
    proof {
        lemma_page_count_is_ceil(total as nat, page_size as nat);
        lemma_mul_inequality(page as int, lp as int, page_size as int);
        lemma_div_is_ordered(0, total as int - 1, page_size as int);
    }
    let start: usize = page * page_size;
    let rem: usize = total - start;
    if rem < page_size {
        rem
    } else {
        page_size
    }
}

} // verus!
