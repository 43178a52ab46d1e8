//! What callers can count on of the table's rows: which of them a filter keeps and in which
//! order they come, told of the rows and the filter alone.

use crate::laws::filter_only_hides;
use crate::order::{
    above, check_comparable, comparable, sort_rows, stably_sorted, tied_with, visible_rows,
};
use crate::percent::is_number;
use crate::rows::{apply_filter, filtered, matches_lowered, picks, ContainerRow, Sort};
use crate::text::{
    ascii_lower, ascii_lowercase, lowercase, occurs_at, occurs_in, precedes,
    precedes_irreflexive, unicode_lowercase,
};
use vstd::prelude::*;
use vstd::seq_lib::*;
use vstd::utf8::*;

verus! {

/// Two ASCII characters are the same letter, in upper or lower case, or the same character.
pub open spec fn same_letter(a: char, b: char) -> bool {
    ||| a == b
    ||| 'A' <= a <= 'Z' && b as int == a as int + 32
    ||| 'A' <= b <= 'Z' && a as int == b as int + 32
}

/// The filter stands in the text from position `at` on, whatever its case.
pub open spec fn stands_at(filter: Seq<char>, text: Seq<char>, at: int) -> bool {
    &&& 0 <= at
    &&& at + filter.len() <= text.len()
    &&& forall|k: int| 0 <= k < filter.len() ==> same_letter(#[trigger] filter[k], text[at + k])
}

/// The filter stands somewhere in the text, whatever its case.
pub open spec fn stands_in(filter: Seq<char>, text: Seq<char>) -> bool {
    exists|at: int| stands_at(filter, text, at)
}

/// The characters of the needle stand in the text one after the other.
pub open spec fn holds_at(needle: Seq<char>, text: Seq<char>, at: int) -> bool {
    &&& 0 <= at
    &&& at + needle.len() <= text.len()
    &&& forall|k: int| 0 <= k < needle.len() ==> #[trigger] needle[k] == text[at + k]
}

/// The needle stands somewhere in the text.
pub open spec fn holds(needle: Seq<char>, text: Seq<char>) -> bool {
    exists|at: int| holds_at(needle, text, at)
}

proof fn occurs_is_holds(needle: Seq<char>, text: Seq<char>)
    ensures
        occurs_in(needle, text) == holds(needle, text),
{
    if occurs_in(needle, text) {
        let at = choose|at: int| occurs_at(needle, text, at);
        assert forall|k: int| 0 <= k < needle.len() implies #[trigger] needle[k] == text[at + k] by {
            assert(text.subrange(at, at + needle.len())[k] == text[at + k]);
        }
        assert(holds_at(needle, text, at));
    }
    if holds(needle, text) {
        let at = choose|at: int| holds_at(needle, text, at);
        assert(text.subrange(at, at + needle.len()) =~= needle);
        assert(occurs_at(needle, text, at));
    }
}

proof fn lowered_letters_agree(a: char, b: char)
    requires
        a <= '\u{7f}',
        b <= '\u{7f}',
    ensures
        ascii_lower(a) == ascii_lower(b) <==> same_letter(a, b),
{
}

proof fn lowered_texts_hold(filter: Seq<char>, text: Seq<char>)
    requires
        is_ascii_chars(filter),
        is_ascii_chars(text),
    ensures
        occurs_in(lowercase(filter), lowercase(text)) == stands_in(filter, text),
{
    let f = ascii_lowercase(filter);
    let t = ascii_lowercase(text);
    occurs_is_holds(f, t);
    if holds(f, t) {
        let at = choose|at: int| holds_at(f, t, at);
        assert forall|k: int| 0 <= k < filter.len() implies same_letter(#[trigger] filter[k], text[at + k]) by {
            assert(f[k] == t[at + k]);
            lowered_letters_agree(filter[k], text[at + k]);
        }
        assert(stands_at(filter, text, at));
    }
    if stands_in(filter, text) {
        let at = choose|at: int| stands_at(filter, text, at);
        assert forall|k: int| 0 <= k < f.len() implies #[trigger] f[k] == t[at + k] by {
            assert(same_letter(filter[k], text[at + k]));
            lowered_letters_agree(filter[k], text[at + k]);
        }
        assert(holds_at(f, t, at));
    }
}

/// Texts in lower case match a needle exactly if it stands in one of them.
pub proof fn lowered_texts_are_searched(name: &str, image: &str, needle: &str, r: bool)
    requires
        call_ensures(matches_lowered, (name, image, needle), r),
    ensures
        r == (holds(needle@, name@) || holds(needle@, image@)),
{
    occurs_is_holds(needle@, name@);
    occurs_is_holds(needle@, image@);
}

proof fn one_row_more(front: Seq<ContainerRow>, row: ContainerRow, filter: Seq<char>)
    ensures
        filtered(front.push(row), filter) == if filter.len() == 0 || picks(filter, row) {
            filtered(front, filter).push(row)
        } else {
            filtered(front, filter)
        },
{
    reveal(Seq::filter);
    assert(front.push(row).drop_last() =~= front);
}

/// The filter decides on each row by itself, on its whole name and its whole image: with one row
/// more the rows kept so far stay, and the row comes behind them if an ASCII filter stands in its
/// name or its image, whatever its case, and does not come if it stands in neither.
pub proof fn filter_searches_name_and_image(
    front: Vec<ContainerRow>,
    row: ContainerRow,
    whole: Vec<ContainerRow>,
    filter: &str,
    f: Vec<ContainerRow>,
    w: Vec<ContainerRow>,
)
    requires
        call_ensures(apply_filter, (front, filter), f),
        call_ensures(apply_filter, (whole, filter), w),
        whole@ == front@.push(row),
        filter@.len() > 0,
        is_ascii_chars(filter@),
    ensures
        front@.len() == 0 ==> f@.len() == 0,
        w@ == f@ || w@ == f@.push(row),
        is_ascii_chars(row.name@) && stands_in(filter@, row.name@) ==> w@ == f@.push(row),
        is_ascii_chars(row.image@) && stands_in(filter@, row.image@) ==> w@ == f@.push(row),
        is_ascii_chars(row.name@) && !stands_in(filter@, row.name@) && is_ascii_chars(row.image@)
            && !stands_in(filter@, row.image@) ==> w@ == f@,
{
    reveal(Seq::filter);
    one_row_more(front@, row, filter@);
    if is_ascii_chars(row.name@) {
        lowered_texts_hold(filter@, row.name@);
    }
    if is_ascii_chars(row.image@) {
        lowered_texts_hold(filter@, row.image@);
    }
}

/// `low` is the text in lower case: ASCII letters one by one, any other text as a whole.
pub open spec fn is_lowered(text: Seq<char>, low: Seq<char>) -> bool {
    if is_ascii_chars(text) {
        &&& low.len() == text.len()
        &&& forall|i: int|
            0 <= i < text.len() ==> same_letter(#[trigger] low[i], text[i]) && !('A' <= low[i] <= 'Z')
    } else {
        low == unicode_lowercase(text)
    }
}

proof fn lowered_is_lowercase(text: Seq<char>, low: Seq<char>)
    requires
        is_lowered(text, low),
    ensures
        low == lowercase(text),
{
    if is_ascii_chars(text) {
        assert forall|i: int| 0 <= i < text.len() implies low[i] == ascii_lower(text[i]) by {
            assert(same_letter(low[i], text[i]));
        }
        assert(low =~= ascii_lowercase(text));
    }
}

/// The filter decides on each row by itself in any script: with one row more the rows kept so far
/// stay, and the row comes behind them exactly if the lowered filter stands in its lowered name or
/// its lowered image; an empty filter keeps every row.
pub proof fn filter_searches_lowered_texts(
    front: Vec<ContainerRow>,
    row: ContainerRow,
    whole: Vec<ContainerRow>,
    filter: &str,
    f: Vec<ContainerRow>,
    w: Vec<ContainerRow>,
    needle: Seq<char>,
    name: Seq<char>,
    image: Seq<char>,
)
    requires
        call_ensures(apply_filter, (front, filter), f),
        call_ensures(apply_filter, (whole, filter), w),
        whole@ == front@.push(row),
        is_lowered(filter@, needle),
        is_lowered(row.name@, name),
        is_lowered(row.image@, image),
    ensures
        front@.len() == 0 ==> f@.len() == 0,
        w@ == if filter@.len() == 0 || holds(needle, name) || holds(needle, image) {
            f@.push(row)
        } else {
            f@
        },
{
    reveal(Seq::filter);
    one_row_more(front@, row, filter@);
    lowered_is_lowercase(filter@, needle);
    lowered_is_lowercase(row.name@, name);
    lowered_is_lowercase(row.image@, image);
    occurs_is_holds(needle, name);
    occurs_is_holds(needle, image);
}

/// Of the rows exactly those are kept whose name or image holds the filter, whatever its case,
/// where the texts are ASCII.
pub proof fn filter_keeps_what_it_finds(
    rows: Vec<ContainerRow>,
    filter: &str,
    r: Vec<ContainerRow>,
    row: ContainerRow,
)
    requires
        call_ensures(apply_filter, (rows, filter), r),
        filter@.len() > 0,
        is_ascii_chars(filter@),
        rows@.contains(row),
    ensures
        is_ascii_chars(row.name@) && stands_in(filter@, row.name@) ==> r@.contains(row),
        is_ascii_chars(row.image@) && stands_in(filter@, row.image@) ==> r@.contains(row),
        is_ascii_chars(row.name@) && !stands_in(filter@, row.name@) && is_ascii_chars(row.image@)
            && !stands_in(filter@, row.image@) ==> !r@.contains(row),
{
    filter_only_hides(rows@, filter@, row);
    if is_ascii_chars(row.name@) {
        lowered_texts_hold(filter@, row.name@);
    }
    if is_ascii_chars(row.image@) {
        lowered_texts_hold(filter@, row.image@);
    }
}

/// Without a filter every row is kept, in its place.
pub proof fn empty_filters_keep_all(rows: Vec<ContainerRow>, filter: &str, r: Vec<ContainerRow>)
    requires
        call_ensures(apply_filter, (rows, filter), r),
        filter@.len() == 0,
    ensures
        r@ == rows@,
{
}

/// The number with the bit pattern `a` is smaller than the number with the bit pattern `b`.
pub open spec fn less(a: u64, b: u64) -> bool {
    let half = 0x8000_0000_0000_0000u64;
    if a < half && b < half {
        a < b
    } else if a >= half && b >= half {
        a > b
    } else {
        a >= half && !(a == half && b == 0)
    }
}

/// The text `a` comes before `b`: it is a beginning of `b`, or has the smaller character where
/// they first differ.
pub open spec fn earlier(a: Seq<char>, b: Seq<char>) -> bool {
    exists|k: int| differ_first_at(a, b, k)
}

/// Up to `k` the texts agree, and there `a` ends or has the smaller character.
pub open spec fn differ_first_at(a: Seq<char>, b: Seq<char>, k: int) -> bool {
    &&& 0 <= k <= a.len()
    &&& k < b.len()
    &&& forall|i: int| 0 <= i < k ==> #[trigger] a[i] == b[i]
    &&& k < a.len() ==> a[k] < b[k]
}

proof fn precedes_is_earlier(a: Seq<char>, b: Seq<char>)
    ensures
        precedes(a, b) == earlier(a, b),
    decreases a.len(),
{
    if b.len() > 0 && a.len() > 0 && a[0] == b[0] {
        let x = a.drop_first();
        let y = b.drop_first();
        precedes_is_earlier(x, y);
        if earlier(x, y) {
            let k = choose|k: int| differ_first_at(x, y, k);
            assert forall|i: int| 0 <= i < k + 1 implies #[trigger] a[i] == b[i] by {
                if i > 0 {
                    assert(x[i - 1] == y[i - 1]);
                }
            }
            assert(differ_first_at(a, b, k + 1));
        }
        if earlier(a, b) {
            let k = choose|k: int| differ_first_at(a, b, k);
            assert(k > 0);
            assert forall|i: int| 0 <= i < k - 1 implies #[trigger] x[i] == y[i] by {
                assert(a[i + 1] == b[i + 1]);
            }
            assert(differ_first_at(x, y, k - 1));
        }
    } else if b.len() > 0 {
        if precedes(a, b) {
            assert(differ_first_at(a, b, 0));
        }
        if earlier(a, b) {
            let k = choose|k: int| differ_first_at(a, b, k);
            if k > 0 {
                assert(a[0] == b[0]);
            }
        }
    }
}

/// In the sorted rows `a` may stand above `b`: by a load it is not the smaller one, and by name not
/// the later one.
pub open spec fn may_stand_above(sort: Sort, a: ContainerRow, b: ContainerRow) -> bool {
    match sort {
        Sort::Cpu => !less(a.cpu_pct.bits, b.cpu_pct.bits),
        Sort::Mem => !less(a.mem_pct.bits, b.mem_pct.bits),
        Sort::Name => !earlier(b.name@, a.name@),
    }
}

/// The rows that are sorted the same as `row`: with a load that is neither smaller nor larger, or with
/// the same name.
pub open spec fn sorted_like(sort: Sort, row: ContainerRow) -> spec_fn(ContainerRow) -> bool {
    |other: ContainerRow|
        match sort {
            Sort::Cpu => !less(other.cpu_pct.bits, row.cpu_pct.bits) && !less(
                row.cpu_pct.bits,
                other.cpu_pct.bits,
            ),
            Sort::Mem => !less(other.mem_pct.bits, row.mem_pct.bits) && !less(
                row.mem_pct.bits,
                other.mem_pct.bits,
            ),
            Sort::Name => other.name@ == row.name@,
        }
}

/// The rows of `input` stand in `output`, the busier ones above or the earlier names, and those
/// that are sorted the same as they stood before.
pub open spec fn properly_sorted(
    sort: Sort,
    input: Seq<ContainerRow>,
    output: Seq<ContainerRow>,
) -> bool {
    &&& output.len() == input.len()
    &&& output.to_multiset() == input.to_multiset()
    &&& forall|i: int, j: int|
        0 <= i < j < output.len() ==> may_stand_above(sort, #[trigger] output[i], #[trigger] output[j])
    &&& forall|row: ContainerRow|
        output.filter(#[trigger] sorted_like(sort, row)) == input.filter(sorted_like(sort, row))
}

proof fn filter_within(
    rows: Seq<ContainerRow>,
    wide: spec_fn(ContainerRow) -> bool,
    narrow: spec_fn(ContainerRow) -> bool,
)
    requires
        forall|row: ContainerRow| #[trigger] narrow(row) ==> wide(row),
    ensures
        rows.filter(wide).filter(narrow) == rows.filter(narrow),
    decreases rows.len(),
{
    reveal(Seq::filter);
    if rows.len() > 0 {
        let front = rows.drop_last();
        filter_within(front, wide, narrow);
        let kept = front.filter(wide);
        assert(kept.push(rows.last()).drop_last() =~= kept);
    }
}

/// A stable order is a proper one.
pub proof fn stable_orders_are_proper(sort: Sort, input: Seq<ContainerRow>, output: Seq<ContainerRow>)
    requires
        stably_sorted(sort, input, output),
    ensures
        properly_sorted(sort, input, output),
{
    assert forall|i: int, j: int| 0 <= i < j < output.len() implies may_stand_above(
        sort,
        #[trigger] output[i],
        #[trigger] output[j],
    ) by {
        assert(!above(sort, output[j], output[i]));
        precedes_is_earlier(output[j].name@, output[i].name@);
    }
    assert forall|row: ContainerRow| output.filter(#[trigger] sorted_like(sort, row)) == input.filter(
        sorted_like(sort, row),
    ) by {
        let narrow = sorted_like(sort, row);
        let wide = tied_with(sort, row);
        assert forall|other: ContainerRow| #[trigger] narrow(other) implies wide(other) by {
            if sort == Sort::Name {
                precedes_irreflexive(row.name@);
            }
        }
        filter_within(output, wide, narrow);
        filter_within(input, wide, narrow);
    }
}

/// Sorting puts the busier rows above, or the earlier names, leaves rows that are sorted the same in
/// their order, and neither loses a row nor adds one.
pub proof fn sorting_is_proper(rows: &mut Vec<ContainerRow>, sort: Sort)
    requires
        call_ensures(sort_rows, (rows, sort), ()),
    ensures
        properly_sorted(sort, old(rows)@, final(rows)@),
{
    stable_orders_are_proper(sort, old(rows)@, final(rows)@);
}

/// The value with that bit pattern is a number.
pub open spec fn numeric(bits: u64) -> bool {
    bits % 0x8000_0000_0000_0000 <= 0x7ff0_0000_0000_0000
}

/// The rows can be sorted: two or more rows by a load only if every one of its values is a number.
pub open spec fn sortable(sort: Sort, rows: Seq<ContainerRow>) -> bool {
    rows.len() >= 2 ==> {
        &&& sort == Sort::Cpu ==> forall|i: int| 0 <= i < rows.len() ==> numeric(
            (#[trigger] rows[i]).cpu_pct.bits,
        )
        &&& sort == Sort::Mem ==> forall|i: int| 0 <= i < rows.len() ==> numeric(
            (#[trigger] rows[i]).mem_pct.bits,
        )
    }
}

/// To be sortable is to be comparable.
pub proof fn comparable_is_sortable(sort: Sort, rows: Seq<ContainerRow>)
    ensures
        comparable(sort, rows) == sortable(sort, rows),
{
    if comparable(sort, rows) && rows.len() >= 2 {
        assert forall|i: int| 0 <= i < rows.len() && sort == Sort::Cpu implies numeric(
            (#[trigger] rows[i]).cpu_pct.bits,
        ) by {
            assert(is_number(rows[i].cpu_pct.bits));
        }
        assert forall|i: int| 0 <= i < rows.len() && sort == Sort::Mem implies numeric(
            (#[trigger] rows[i]).mem_pct.bits,
        ) by {
            assert(is_number(rows[i].mem_pct.bits));
        }
    }
    if sortable(sort, rows) && rows.len() >= 2 {
        assert forall|i: int| 0 <= i < rows.len() && sort == Sort::Cpu implies is_number(
            #[trigger] rows[i].cpu_pct.bits,
        ) by {
            assert(numeric(rows[i].cpu_pct.bits));
        }
        assert forall|i: int| 0 <= i < rows.len() && sort == Sort::Mem implies is_number(
            #[trigger] rows[i].mem_pct.bits,
        ) by {
            assert(numeric(rows[i].mem_pct.bits));
        }
    }
}

/// Rows are said to be comparable exactly if they can be sorted.
pub proof fn comparing_needs_numbers(sort: Sort, rows: Vec<ContainerRow>, r: bool)
    requires
        call_ensures(check_comparable, (sort, &rows), r),
    ensures
        r == sortable(sort, rows@),
{
    comparable_is_sortable(sort, rows@);
}

/// The table shows the rows that the filter keeps, properly sorted, and nothing only if they cannot
/// be sorted.
pub proof fn visible_rows_are_kept_and_sorted(
    rows: Vec<ContainerRow>,
    filter: &str,
    sort: Sort,
    kept: Vec<ContainerRow>,
    r: Option<Vec<ContainerRow>>,
)
    requires
        call_ensures(apply_filter, (rows, filter), kept),
        call_ensures(visible_rows, (&rows, filter, sort), r),
    ensures
        r is Some <==> sortable(sort, kept@),
        r matches Some(shown) ==> properly_sorted(sort, kept@, shown@),
{
    comparable_is_sortable(sort, kept@);
    if let Some(shown) = r {
        stable_orders_are_proper(sort, kept@, shown@);
    }
}

} // verus!
