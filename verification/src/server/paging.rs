//! Lists that are handed out page by page.
use vstd::prelude::*;

use crate::text;

verus! {

/// The place at which the page of a cursor starts: the number that the cursor is,
/// and the start of the list where it is none.
pub open spec fn page_start(cursor: Option<Seq<char>>, len: int) -> int {
    match cursor {
        Some(c) => match text::parsed_i64(text::trimmed(c)) {
            Some(n) => if n < 0 {
                0
            } else if n > len {
                len
            } else {
                n
            },
            None => 0,
        },
        None => 0,
    }
}

/// The place at which the page that starts at `start` ends.
pub open spec fn page_end(start: int, size: int, len: int) -> int {
    if start + size < len {
        start + size
    } else {
        len
    }
}

/// The cursor of the page that follows one which ends at `end`.
pub open spec fn next_cursor(end: int, len: int) -> Option<Seq<char>> {
    if end < len {
        Some(text::decimal(end))
    } else {
        None
    }
}

/// The cursor as text.
pub open spec fn cursor_text(cursor: Option<&str>) -> Option<Seq<char>> {
    match cursor {
        Some(c) => Some(c@),
        None => None,
    }
}

/// The place at which the page of a cursor starts.
pub(crate) fn cursor_start(cursor: Option<&str>, len: usize) -> (r: usize)
    ensures
        r == page_start(cursor_text(cursor), len as int),
        r <= len,
{
    match cursor {
        Some(c) => {
            let t = text::trim(c);
            match text::parse_i64(t.as_str()) {
                Some(n) => if n < 0 {
                    0
                } else if n as u64 > len as u64 {
                    len
                } else {
                    n as usize
                },
                None => 0,
            }
        },
        None => 0,
    }
}

/// The place at which a page ends.
pub(crate) fn cursor_end(start: usize, size: usize, len: usize) -> (r: usize)
    requires
        start <= len,
    ensures
        r == page_end(start as int, size as int, len as int),
        start <= r <= len,
{
    if size < len - start {
        start + size
    } else {
        len
    }
}

/// The cursor of the page that follows.
pub(crate) fn cursor_after(end: usize, len: usize) -> (r: Option<String>)
    ensures
        match r {
            Some(c) => next_cursor(end as int, len as int) == Some(c@),
            None => next_cursor(end as int, len as int) is None,
        },
{
    if end < len {
        Some(text::int_text(end as i128))
    } else {
        None
    }
}

/// The cursor that a page gives is that of the page which starts where it ends.
pub proof fn next_page_starts_at_end(end: int, len: int)
    requires
        0 <= end <= len,
        end < len ==> end <= i64::MAX,
    ensures
        match next_cursor(end, len) {
            Some(c) => page_start(Some(c), len) == end,
            None => end == len,
        },
{
    if end < len {
        text::decimal_trimmed(end);
        text::decimal_round_trip(end);
    }
}

/// What is listed by going from page to page.
pub open spec fn walked<A>(all: Seq<A>, cursor: Option<Seq<char>>, size: int) -> Seq<A>
    decreases all.len() - page_start(cursor, all.len() as int),
    when size > 0 && all.len() - 1 <= i64::MAX
{
    let start = page_start(cursor, all.len() as int);
    let end = page_end(start, size, all.len() as int);
    proof {
        next_page_starts_at_end(end, all.len() as int);
    }
    match next_cursor(end, all.len() as int) {
        Some(c) => all.subrange(start, end) + walked(all, Some(c), size),
        None => all.subrange(start, end),
    }
}

/// Going from page to page lists everything from the start of the first page on,
/// each once and in order. This holds as long as every place in the list is a number that a
/// cursor can be.
pub proof fn walk_lists_rest<A>(all: Seq<A>, cursor: Option<Seq<char>>, size: int)
    requires
        size > 0,
        all.len() - 1 <= i64::MAX,
    ensures
        walked(all, cursor, size) == all.skip(page_start(cursor, all.len() as int)),
    decreases all.len() - page_start(cursor, all.len() as int),
{
    let start = page_start(cursor, all.len() as int);
    let end = page_end(start, size, all.len() as int);
    next_page_starts_at_end(end, all.len() as int);
    match next_cursor(end, all.len() as int) {
        Some(c) => {
            walk_lists_rest(all, Some(c), size);
            assert(all.subrange(start, end) + all.skip(end) =~= all.skip(start));
        },
        None => {
            assert(all.subrange(start, end) =~= all.skip(start));
        },
    }
}

/// A page of a list, and the cursor of the page that follows it.
pub open spec fn page<A>(all: Seq<A>, cursor: Option<Seq<char>>, size: int) -> (
    Seq<A>,
    Option<Seq<char>>,
) {
    let len = all.len() as int;
    let start = page_start(cursor, len);
    let end = page_end(start, size, len);
    (all.subrange(start, end), next_cursor(end, len))
}

/// The cursor with which a page is asked for: none for the first, and for another the
/// one that the page before it gives.
pub open spec fn cursor_for<A>(pages: Seq<(Seq<A>, Option<Seq<char>>)>, i: int) -> Option<
    Seq<char>,
> {
    if i == 0 {
        None
    } else {
        pages[i - 1].1
    }
}

/// The pages are asked for one after the other, as long as there is a cursor.
pub open spec fn asked_in_turn<A>(
    all: Seq<A>,
    size: int,
    pages: Seq<(Seq<A>, Option<Seq<char>>)>,
) -> bool {
    &&& pages.len() > 0
    &&& forall|i: int|
        0 <= i < pages.len() ==> pages[i] == page(all, #[trigger] cursor_for(pages, i), size)
    &&& forall|i: int| 0 <= i < pages.len() - 1 ==> (#[trigger] pages[i]).1 is Some
}

/// What the pages list, one after the other.
pub open spec fn together<A>(pages: Seq<(Seq<A>, Option<Seq<char>>)>) -> Seq<A>
    decreases pages.len(),
{
    if pages.len() == 0 {
        seq![]
    } else {
        together(pages.drop_last()) + pages.last().0
    }
}

/// The place at which the last page starts.
pub open spec fn last_start(len: int, size: int) -> int {
    if len <= 0 {
        0
    } else {
        ((len - 1) / size) * size
    }
}

/// No page starts after the last one.
proof fn none_starts_later(k: int, size: int, len: int)
    requires
        size > 0,
        0 <= k * size < len,
    ensures
        k * size <= last_start(len, size),
{
    let q = (len - 1) / size;
    vstd::arithmetic::div_mod::lemma_fundamental_div_mod(len - 1, size);
    assert(k <= q) by (nonlinear_arith)
        requires
            size > 0,
            k * size <= len - 1,
            len - 1 == size * q + (len - 1) % size,
            0 <= (len - 1) % size < size,
    ;
    assert(k * size <= q * size) by (nonlinear_arith)
        requires
            size > 0,
            k <= q,
    ;
}

/// Where the last of the pages starts, and what is listed with it.
proof fn pages_so_far<A>(all: Seq<A>, size: int, pages: Seq<(Seq<A>, Option<Seq<char>>)>)
    requires
        size > 0,
        last_start(all.len() as int, size) <= i64::MAX,
        asked_in_turn(all, size, pages),
    ensures
        ({
            let start = (pages.len() - 1) * size;
            let end = page_end(start, size, all.len() as int);
            &&& 0 <= start <= all.len()
            &&& pages.last() == (all.subrange(start, end), next_cursor(end, all.len() as int))
            &&& together(pages) == all.take(end)
        }),
    decreases pages.len(),
{
    let n = pages.len() as int;
    let len = all.len() as int;
    let first = pages.drop_last();
    let c = cursor_for(pages, n - 1);
    assert(pages[n - 1] == page(all, c, size));
    if n == 1 {
        assert(first =~= seq![]);
        assert(together(first) =~= seq![]);
        assert((n - 1) * size == 0) by (nonlinear_arith)
            requires
                n == 1,
        ;
        let end = page_end(0, size, len);
        assert(together(pages) =~= all.take(end));
    } else {
        assert forall|i: int| 0 <= i < first.len() implies first[i] == page(
            all,
            #[trigger] cursor_for(first, i),
            size,
        ) by {
            assert(cursor_for(pages, i) == cursor_for(first, i));
        }
        pages_so_far(all, size, first);
        let start = (n - 2) * size;
        let end = page_end(start, size, len);
        assert(first.last() == pages[n - 2]);
        assert(pages[n - 2].1 is Some);
        assert(c == next_cursor(end, len));
        assert(end == start + size);
        assert((n - 1) * size == (n - 2) * size + size) by (nonlinear_arith);
        none_starts_later(n - 1, size, len);
        next_page_starts_at_end(end, len);
        let next = page_end(end, size, len);
        assert(all.take(end) + all.subrange(end, next) =~= all.take(next));
    }
}

/// Whoever asks first without a cursor, and then with the cursor of each page until there
/// is none, gets everything once and in order. Every page but the last is full, and the
/// pages come to an end. This holds as long as the place of the last page is a number that
/// a cursor can be.
pub proof fn pages_in_turn<A>(all: Seq<A>, size: int, pages: Seq<(Seq<A>, Option<Seq<char>>)>)
    requires
        size > 0,
        last_start(all.len() as int, size) <= i64::MAX,
        asked_in_turn(all, size, pages),
    ensures
        forall|i: int| 0 <= i < pages.len() - 1 ==> (#[trigger] pages[i]).0.len() == size,
        pages.last().0.len() <= size,
        (pages.len() - 1) * size <= all.len(),
        pages.last().1 is None ==> together(pages) == all,
{
    let len = all.len() as int;
    pages_so_far(all, size, pages);
    assert(all.take(len) =~= all);
    assert forall|i: int| 0 <= i < pages.len() - 1 implies (#[trigger] pages[i]).0.len() == size by {
        let some = pages.take(i + 1);
        assert forall|k: int| 0 <= k < some.len() implies some[k] == page(
            all,
            #[trigger] cursor_for(some, k),
            size,
        ) by {
            assert(cursor_for(pages, k) == cursor_for(some, k));
        }
        pages_so_far(all, size, some);
        assert(some.last() == pages[i]);
    }
}

} // verus!
