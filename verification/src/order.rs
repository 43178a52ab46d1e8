//! The order of the table: a stable sort of its rows.

use crate::percent::{check_number, is_number, rank, smaller};
use crate::rows::{apply_filter, filtered, ContainerRow, Sort};
use crate::text::{
    precedes, precedes_asymmetric, precedes_irreflexive, precedes_separates, text_precedes,
};
use vstd::prelude::*;
use vstd::seq_lib::*;

verus! {

/// `a` has to stand above `b`: the busier row for a load, the earlier name for names.
pub open spec fn above(sort: Sort, a: ContainerRow, b: ContainerRow) -> bool {
    match sort {
        Sort::Cpu => rank(b.cpu_pct.bits) < rank(a.cpu_pct.bits),
        Sort::Mem => rank(b.mem_pct.bits) < rank(a.mem_pct.bits),
        Sort::Name => precedes(a.name@, b.name@),
    }
}

/// Neither row has to stand above the other.
pub open spec fn ties(sort: Sort, a: ContainerRow, b: ContainerRow) -> bool {
    !above(sort, a, b) && !above(sort, b, a)
}

/// The rows that tie with `row`.
pub open spec fn tied_with(sort: Sort, row: ContainerRow) -> spec_fn(ContainerRow) -> bool {
    |other: ContainerRow| ties(sort, other, row)
}

/// No row stands below one that it has to stand above.
pub open spec fn in_order(sort: Sort, rows: Seq<ContainerRow>) -> bool {
    forall|i: int, j: int| 0 <= i < j < rows.len() ==> !above(sort, #[trigger] rows[j], #[trigger] rows[i])
}

/// `output` holds the rows of `input` in order, and rows that tie stand as they
/// stood in `input`.
pub open spec fn stably_sorted(
    sort: Sort,
    input: Seq<ContainerRow>,
    output: Seq<ContainerRow>,
) -> bool {
    &&& output.len() == input.len()
    &&& in_order(sort, output)
    &&& output.to_multiset() == input.to_multiset()
    &&& forall|row: ContainerRow|
        output.filter(#[trigger] tied_with(sort, row)) == input.filter(tied_with(sort, row))
}

/// The rows can be compared: what they are sorted by is a number in each of them.
pub open spec fn comparable(sort: Sort, rows: Seq<ContainerRow>) -> bool {
    rows.len() <= 1 || match sort {
        Sort::Cpu => forall|i: int| 0 <= i < rows.len() ==> is_number(#[trigger] rows[i].cpu_pct.bits),
        Sort::Mem => forall|i: int| 0 <= i < rows.len() ==> is_number(#[trigger] rows[i].mem_pct.bits),
        Sort::Name => true,
    }
}

proof fn above_asymmetric(sort: Sort, a: ContainerRow, b: ContainerRow)
    requires
        above(sort, a, b),
    ensures
        !above(sort, b, a),
{
    if sort == Sort::Name {
        precedes_asymmetric(a.name@, b.name@);
    }
}

proof fn above_irreflexive(sort: Sort, a: ContainerRow)
    ensures
        !above(sort, a, a),
{
    precedes_irreflexive(a.name@);
}

proof fn above_separates(sort: Sort, a: ContainerRow, b: ContainerRow, c: ContainerRow)
    requires
        above(sort, a, b),
    ensures
        above(sort, a, c) || above(sort, c, b),
{
    if sort == Sort::Name {
        precedes_separates(a.name@, b.name@, c.name@);
    }
}

proof fn filter_none(sort: Sort, rows: Seq<ContainerRow>, row: ContainerRow)
    requires
        forall|i: int| 0 <= i < rows.len() ==> !ties(sort, #[trigger] rows[i], row),
    ensures
        rows.filter(tied_with(sort, row)) == Seq::<ContainerRow>::empty(),
    decreases rows.len(),
{
    reveal(Seq::filter);
    if rows.len() > 0 {
        filter_none(sort, rows.drop_last(), row);
    }
}

proof fn filter_one(row: ContainerRow, pred: spec_fn(ContainerRow) -> bool)
    ensures
        pred(row) ==> seq![row].filter(pred) == seq![row],
        !pred(row) ==> seq![row].filter(pred) == Seq::<ContainerRow>::empty(),
{
    reveal(Seq::filter);
    assert(seq![row].drop_last() =~= Seq::<ContainerRow>::empty());
    assert(Seq::<ContainerRow>::empty().filter(pred) =~= Seq::empty());
    assert(Seq::<ContainerRow>::empty().push(row) =~= seq![row]);
}

/// The row that stands in front of a list goes into the sorted list below the
/// rows that have to stand above it, and above all others.
proof fn insertion_sorts(
    sort: Sort,
    input: Seq<ContainerRow>,
    output: Seq<ContainerRow>,
    row: ContainerRow,
    at: int,
)
    requires
        stably_sorted(sort, input, output),
        0 <= at <= output.len(),
        forall|i: int| 0 <= i < at ==> above(sort, #[trigger] output[i], row),
        forall|i: int| at <= i < output.len() ==> !above(sort, #[trigger] output[i], row),
    ensures
        stably_sorted(sort, seq![row] + input, output.insert(at, row)),
{
    let more = output.insert(at, row);
    let top = output.take(at);
    let rest = output.skip(at);
    assert(output =~= top + rest);
    assert(more =~= top + (seq![row] + rest));

    assert forall|i: int, j: int| 0 <= i < j < more.len() implies !above(
        sort,
        #[trigger] more[j],
        #[trigger] more[i],
    ) by {
        if j == at {
            above_asymmetric(sort, output[i], row);
        } else if i == at {
            assert(more[j] == output[j - 1]);
        } else {
            let a = if i < at { i } else { i - 1 };
            let b = if j < at { j } else { j - 1 };
            assert(more[i] == output[a] && more[j] == output[b]);
        }
    }

    assert(more.to_multiset() == (seq![row] + input).to_multiset()) by {
        broadcast use group_to_multiset_ensures;

        assert(more.remove(at) =~= output);
        assert(more[at] == row);
        assert(more.contains(row));
        assert((seq![row] + input).remove(0) =~= input);
        assert((seq![row] + input)[0] == row);
        assert((seq![row] + input).contains(row));
        assert(more.to_multiset() =~= output.to_multiset().insert(row));
        assert((seq![row] + input).to_multiset() =~= input.to_multiset().insert(row));
    }

    assert forall|other: ContainerRow| more.filter(#[trigger] tied_with(sort, other)) == (seq![row]
        + input).filter(tied_with(sort, other)) by {
        let pred = tied_with(sort, other);
        Seq::filter_distributes_over_add(top, rest, pred);
        Seq::filter_distributes_over_add(top, seq![row] + rest, pred);
        Seq::filter_distributes_over_add(seq![row], rest, pred);
        Seq::filter_distributes_over_add(seq![row], input, pred);
        filter_one(row, pred);
        if ties(sort, row, other) {
            assert forall|i: int| 0 <= i < top.len() implies !ties(sort, #[trigger] top[i], other) by {
                assert(top[i] == output[i]);
                above_separates(sort, top[i], row, other);
            }
            filter_none(sort, top, other);
            assert(more.filter(pred) =~= seq![row] + rest.filter(pred));
            assert(output.filter(pred) =~= rest.filter(pred));
        } else {
            assert(more.filter(pred) =~= top.filter(pred) + rest.filter(pred));
            assert((seq![row] + input).filter(pred) =~= input.filter(pred));
        }
    }
}

fn stands_above(sort: Sort, a: &ContainerRow, b: &ContainerRow) -> (r: bool)
    ensures
        r == above(sort, *a, *b),
{
    match sort {
        Sort::Cpu => smaller(b.cpu_pct.bits, a.cpu_pct.bits),
        Sort::Mem => smaller(b.mem_pct.bits, a.mem_pct.bits),
        Sort::Name => text_precedes(a.name.as_str(), b.name.as_str()),
    }
}

/// Sorts the rows, keeping the order of those that tie.
pub fn sort_rows(rows: &mut Vec<ContainerRow>, sort: Sort)
    requires
        comparable(sort, old(rows)@),
    ensures
        stably_sorted(sort, old(rows)@, final(rows)@),
{
    let ghost input = rows@;
    let mut sorted: Vec<ContainerRow> = Vec::new();
    assert(input.skip(input.len() as int) =~= sorted@);
    while rows.len() > 0
        invariant
            rows.len() <= input.len(),
            rows@ == input.take(rows.len() as int),
            stably_sorted(sort, input.skip(rows.len() as int), sorted@),
        decreases rows.len(),
    {
        let ghost left = rows.len() as int;
        if let Some(row) = rows.pop() {
            let mut at: usize = 0;
            while at < sorted.len() && stands_above(sort, &sorted[at], &row)
                invariant
                    at <= sorted.len(),
                    forall|i: int| 0 <= i < at ==> above(sort, #[trigger] sorted@[i], row),
                decreases sorted.len() - at,
            {
                at = at + 1;
            }
            proof {
                assert forall|i: int| at <= i < sorted.len() implies !above(
                    sort,
                    #[trigger] sorted@[i],
                    row,
                ) by {
                    if above(sort, sorted@[i], row) {
                        above_separates(sort, sorted@[i], row, sorted@[at as int]);
                    }
                }
                insertion_sorts(sort, input.skip(left), sorted@, row, at as int);
                assert(seq![row] + input.skip(left) =~= input.skip(left - 1));
                assert(rows@ =~= input.take(left - 1));
            }
            sorted.insert(at, row);
        }
    }
    assert(input.skip(0) =~= input);
    *rows = sorted;
}

/// Whether the rows can be compared.
pub fn check_comparable(sort: Sort, rows: &Vec<ContainerRow>) -> (r: bool)
    ensures
        r == comparable(sort, rows@),
{
    if rows.len() <= 1 {
        return true;
    }
    let mut i: usize = 0;
    while i < rows.len()
        invariant
            i <= rows.len(),
            rows.len() > 1,
            sort == Sort::Cpu ==> forall|k: int| 0 <= k < i ==> is_number(#[trigger] rows@[k].cpu_pct.bits),
            sort == Sort::Mem ==> forall|k: int| 0 <= k < i ==> is_number(#[trigger] rows@[k].mem_pct.bits),
        decreases rows.len() - i,
    {
        let fine = match sort {
            Sort::Cpu => check_number(rows[i].cpu_pct.bits),
            Sort::Mem => check_number(rows[i].mem_pct.bits),
            Sort::Name => true,
        };
        if !fine {
            assert(!comparable(sort, rows@)) by {
                assert(!is_number(rows@[i as int].cpu_pct.bits) || !is_number(rows@[i as int].mem_pct.bits));
            }
            return false;
        }
        i = i + 1;
    }
    true
}

/// The rows that the table shows: those that the filter picks, sorted; nothing if
/// they cannot be compared.
pub fn visible_rows(rows: &Vec<ContainerRow>, filter: &str, sort: Sort) -> (r: Option<Vec<ContainerRow>>)
    ensures
        r is Some <==> comparable(sort, filtered(rows@, filter@)),
        r matches Some(shown) ==> stably_sorted(sort, filtered(rows@, filter@), shown@),
{
    let all = rows.clone();
    assert(all@ =~= rows@);
    let mut picked = apply_filter(all, filter);
    if check_comparable(sort, &picked) {
        sort_rows(&mut picked, sort);
        Some(picked)
    } else {
        None
    }
}

/// A list has one stable order only.
pub proof fn stable_order_is_unique(
    sort: Sort,
    input: Seq<ContainerRow>,
    one: Seq<ContainerRow>,
    other: Seq<ContainerRow>,
)
    requires
        stably_sorted(sort, input, one),
        stably_sorted(sort, input, other),
    ensures
        one == other,
{
    same_classes_same_order(sort, one, other);
}

proof fn same_classes_same_order(sort: Sort, one: Seq<ContainerRow>, other: Seq<ContainerRow>)
    requires
        in_order(sort, one),
        in_order(sort, other),
        one.len() == other.len(),
        forall|row: ContainerRow|
            one.filter(#[trigger] tied_with(sort, row)) == other.filter(tied_with(sort, row)),
    ensures
        one == other,
    decreases one.len(),
{
    if one.len() > 0 {
        let a = one[0];
        let b = other[0];
        let one_rest = one.drop_first();
        let other_rest = other.drop_first();
        assert(one =~= seq![a] + one_rest);
        assert(other =~= seq![b] + other_rest);
        above_irreflexive(sort, a);
        above_irreflexive(sort, b);
        assert(ties(sort, a, b)) by {
            let pa = tied_with(sort, a);
            let pb = tied_with(sort, b);
            broadcast use group_filter_ensures;

            assert(pa(one[0]));
            assert(one.filter(pa).contains(a));
            assert(other.filter(pa).contains(a));
            filter_comes_from(other, pa, a);
            assert(pb(other[0]));
            assert(other.filter(pb).contains(b));
            assert(one.filter(pb).contains(b));
            filter_comes_from(one, pb, b);
        }
        let pred = tied_with(sort, a);
        Seq::filter_distributes_over_add(seq![a], one_rest, pred);
        Seq::filter_distributes_over_add(seq![b], other_rest, pred);
        filter_one(a, pred);
        filter_one(b, pred);
        assert(one.filter(pred)[0] == a);
        assert(other.filter(pred)[0] == b);
        assert(a == b);
        assert forall|row: ContainerRow| one_rest.filter(#[trigger] tied_with(sort, row)) == other_rest.filter(
            tied_with(sort, row),
        ) by {
            let p = tied_with(sort, row);
            Seq::filter_distributes_over_add(seq![a], one_rest, p);
            Seq::filter_distributes_over_add(seq![a], other_rest, p);
            let head = seq![a].filter(p);
            assert(one_rest.filter(p) =~= (head + one_rest.filter(p)).skip(head.len() as int));
            assert(other_rest.filter(p) =~= (head + other_rest.filter(p)).skip(head.len() as int));
        }
        same_classes_same_order(sort, one_rest, other_rest);
        assert(one =~= other);
    }
}

proof fn filter_comes_from(rows: Seq<ContainerRow>, pred: spec_fn(ContainerRow) -> bool, row: ContainerRow)
    requires
        rows.filter(pred).contains(row),
    ensures
        rows.contains(row),
    decreases rows.len(),
{
    reveal(Seq::filter);
    if rows.len() > 0 {
        let front = rows.drop_last();
        if front.filter(pred).contains(row) {
            filter_comes_from(front, pred, row);
            let i = choose|i: int| 0 <= i < front.len() && front[i] == row;
            assert(rows[i] == row);
        } else {
            assert(rows.last() == row);
        }
    }
}

/// Sorting what is in order already changes nothing.
pub proof fn sorting_again_changes_nothing(sort: Sort, rows: Seq<ContainerRow>, sorted: Seq<ContainerRow>)
    requires
        in_order(sort, rows),
        stably_sorted(sort, rows, sorted),
    ensures
        sorted == rows,
{
    stable_order_is_unique(sort, rows, rows, sorted);
}

} // verus!
