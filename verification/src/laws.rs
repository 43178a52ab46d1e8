//! What holds of the program as a whole, whatever the containers are and whatever
//! keys are pressed.

use crate::detail::{detail_count, detail_is_short, Inspect};
use crate::docker::{gain, mem_in_use, or_zero, page_cache, Share, Snapshot, Stats};
use crate::header::Load;
use crate::layout::{
    at_most, centered_lies_within, inside_border, popup_has_place, popup_place, popup_rows,
    popup_width, Area,
};
use crate::order::{above, in_order, stably_sorted};
use crate::panel::{MeterRows, Panel};
use crate::percent::{at_least, is_number, rank, severity, EIGHTY, FIFTY};
use crate::popup::{first_with_id, popup_fits};
use crate::rows::{filtered, picks, ContainerRow, Sort};
use crate::scene::{is_scene, Scene};
use crate::style::Color;
use crate::text::{lowercase, lowering_in_parts, lowering_twice, occurs_at, occurs_in, precedes};
use crate::ui::{
    after_inspect, after_kill, cursor, respond, select, ActionView, KeyCode, KeyEvent,
    KeyKind, Screen, ScreenView, Ui, UiView,
};
use vstd::prelude::*;
use vstd::seq_lib::*;
use vstd::utf8::*;

verus! {

/// A key going down.
pub open spec fn press(code: KeyCode) -> KeyEvent {
    KeyEvent { kind: KeyKind::Press, code }
}

/// The table is on the screen and takes the keys.
pub open spec fn in_table(ui: UiView) -> bool {
    ui.screen is Table && !ui.editing_filter
}

/// The filter is being edited.
pub open spec fn in_filter(ui: UiView) -> bool {
    ui.screen is Table && ui.editing_filter
}

/// The popup asks whether to kill its container.
pub open spec fn asks_to_kill(ui: UiView) -> bool {
    ui.screen matches ScreenView::Detail(d) && d.confirming_kill
}

/// A popup is open and the filter is not being edited, or no popup is open.
pub open spec fn consistent(ui: UiView) -> bool {
    ui.screen is Detail ==> !ui.editing_filter
}

/// The selection is one of `n` rows, and there is none exactly if there are no rows.
pub open spec fn selection_fits(ui: UiView, n: int) -> bool {
    match ui.selected {
        Some(i) => i < n,
        None => n == 0,
    }
}

/// Only a key that goes down does anything.
pub proof fn only_presses_count(ui: UiView, key: KeyEvent, rows: Seq<ContainerRow>)
    requires
        key.kind != KeyKind::Press,
    ensures
        respond(ui, key, rows) == (ui, ActionView::Stay),
{
}

/// A container is killed only when the popup asks for it and the answer is `y` or Enter,
/// and it is the container of that popup.
pub proof fn kills_are_confirmed(ui: UiView, key: KeyEvent, rows: Seq<ContainerRow>)
    requires
        respond(ui, key, rows).1 is Kill,
    ensures
        asks_to_kill(ui),
        key == press(KeyCode::Char('y')) || key == press(KeyCode::Enter),
        respond(ui, key, rows).1->Kill_id == ui.screen->Detail_0.id,
{
}

/// The popup begins to ask only when `k` is pressed in it.
pub proof fn questions_are_asked_for(ui: UiView, key: KeyEvent, rows: Seq<ContainerRow>)
    requires
        asks_to_kill(respond(ui, key, rows).0),
        !asks_to_kill(ui),
    ensures
        ui.screen is Detail,
        key == press(KeyCode::Char('k')),
{
}

/// In the popup, `k` and then `y` or Enter kill its container.
pub proof fn kill_takes_two_keys(ui: UiView, rows: Seq<ContainerRow>, answer: KeyCode)
    requires
        ui.screen is Detail,
        !asks_to_kill(ui),
        answer == KeyCode::Char('y') || answer == KeyCode::Enter,
    ensures
        ({
            let (asking, action) = respond(ui, press(KeyCode::Char('k')), rows);
            &&& action is Stay
            &&& respond(asking, press(answer), rows).1 == (ActionView::Kill {
                id: ui.screen->Detail_0.id,
            })
        }),
{
}

/// In the popup, `k` and then `n` or Esc change nothing.
pub proof fn kill_can_be_cancelled(ui: UiView, rows: Seq<ContainerRow>, answer: KeyCode)
    requires
        ui.screen is Detail,
        !asks_to_kill(ui),
        answer == KeyCode::Char('n') || answer == KeyCode::Esc,
    ensures
        ({
            let (asking, _) = respond(ui, press(KeyCode::Char('k')), rows);
            respond(asking, press(answer), rows) == (ui, ActionView::Stay)
        }),
{
}

/// Once a kill has come to its end the popup asks no more, so the same answer does not
/// kill again.
pub proof fn kills_once(ui: UiView, failure: Option<Seq<char>>, key: KeyEvent, rows: Seq<ContainerRow>)
    ensures
        !asks_to_kill(after_kill(ui, failure)),
        respond(after_kill(ui, failure), key, rows).1 !is Kill,
{
}

/// The program ends only by `q` or Esc in the table, and always by them.
pub proof fn quitting(ui: UiView, key: KeyEvent, rows: Seq<ContainerRow>)
    ensures
        respond(ui, key, rows).1 is Quit <==> in_table(ui) && (key == press(KeyCode::Char('q')) || key
            == press(KeyCode::Esc)),
{
}

/// A container is inspected only by Enter in the table, and it is the selected one.
pub proof fn inspecting(ui: UiView, key: KeyEvent, rows: Seq<ContainerRow>)
    requires
        respond(ui, key, rows).1 is Inspect,
    ensures
        in_table(ui),
        key == press(KeyCode::Enter),
        ui.selected matches Some(i) && i < rows.len() && respond(ui, key, rows).1 == (ActionView::Inspect {
            id: rows[i as int].id@,
            name: rows[i as int].name@,
        }),
{
}

/// Enter in the table inspects the selected container whenever one is selected.
pub proof fn enter_inspects(ui: UiView, rows: Seq<ContainerRow>)
    requires
        in_table(ui),
        selection_fits(ui, rows.len() as int),
        rows.len() > 0,
    ensures
        respond(ui, press(KeyCode::Enter), rows).1 is Inspect,
{
}

/// Whatever is pressed in the popup, the table behind it stays as it is.
pub proof fn popup_leaves_the_table(ui: UiView, key: KeyEvent, rows: Seq<ContainerRow>)
    requires
        ui.screen is Detail,
    ensures
        ({
            let after = respond(ui, key, rows).0;
            &&& after.selected == ui.selected
            &&& after.sort == ui.sort
            &&& after.filter == ui.filter
            &&& after.editing_filter == ui.editing_filter
        }),
{
}

/// Opening the popup and closing it with `q`, `n` or Esc leads back to the table as it was.
pub proof fn popup_can_be_closed(
    ui: UiView,
    id: Seq<char>,
    name: Seq<char>,
    result: Result<Inspect, Seq<char>>,
    rows: Seq<ContainerRow>,
    code: KeyCode,
)
    requires
        ui.screen is Table,
        code == KeyCode::Char('q') || code == KeyCode::Char('n') || code == KeyCode::Esc,
    ensures
        respond(after_inspect(ui, id, name, result), press(code), rows) == (ui, ActionView::Stay),
{
}

/// While the filter is edited every character goes into it, and nothing else happens.
pub proof fn typing_goes_into_the_filter(ui: UiView, c: char, rows: Seq<ContainerRow>)
    requires
        in_filter(ui),
    ensures
        respond(ui, press(KeyCode::Char(c)), rows) == (
            UiView { filter: ui.filter.push(c), ..ui },
            ActionView::Stay,
        ),
{
}

/// The state after the characters of `text` have been pressed one by one.
pub open spec fn typed(ui: UiView, text: Seq<char>, rows: Seq<ContainerRow>) -> UiView
    decreases text.len(),
{
    if text.len() == 0 {
        ui
    } else {
        respond(typed(ui, text.drop_last(), rows), press(KeyCode::Char(text.last())), rows).0
    }
}

/// Typing a text while the filter is edited puts the text behind it.
pub proof fn typing_appends(ui: UiView, text: Seq<char>, rows: Seq<ContainerRow>)
    requires
        in_filter(ui),
    ensures
        typed(ui, text, rows) == (UiView { filter: ui.filter + text, ..ui }),
    decreases text.len(),
{
    if text.len() == 0 {
        assert(ui.filter + text =~= ui.filter);
    } else {
        typing_appends(ui, text.drop_last(), rows);
        assert((ui.filter + text.drop_last()).push(text.last()) =~= ui.filter + text);
    }
}

/// Backspace takes back the character that was typed last.
pub proof fn backspace_undoes_typing(ui: UiView, c: char, rows: Seq<ContainerRow>)
    requires
        in_filter(ui),
    ensures
        respond(
            respond(ui, press(KeyCode::Char(c)), rows).0,
            press(KeyCode::Backspace),
            rows,
        ) == (ui, ActionView::Stay),
{
    assert(ui.filter.push(c).drop_last() =~= ui.filter);
}

/// `/`, a text and Enter set the filter behind which the text was typed; `/`, a text and
/// Esc leave no filter at all.
pub proof fn filter_is_applied_or_cleared(ui: UiView, text: Seq<char>, rows: Seq<ContainerRow>)
    requires
        in_table(ui),
    ensures
        ({
            let edited = typed(respond(ui, press(KeyCode::Char('/')), rows).0, text, rows);
            &&& respond(edited, press(KeyCode::Enter), rows) == (
                UiView { filter: ui.filter + text, ..ui },
                ActionView::Stay,
            )
            &&& respond(edited, press(KeyCode::Esc), rows) == (
                UiView { filter: Seq::empty(), ..ui },
                ActionView::Stay,
            )
        }),
{
    typing_appends(respond(ui, press(KeyCode::Char('/')), rows).0, text, rows);
}

/// No popup is ever open while the filter is edited: no key leads there, nor does the
/// result of a kill, nor that of an inspection that a key asked for.
pub proof fn consistency_is_kept(
    ui: UiView,
    key: KeyEvent,
    rows: Seq<ContainerRow>,
    failure: Option<Seq<char>>,
    id: Seq<char>,
    name: Seq<char>,
    result: Result<Inspect, Seq<char>>,
)
    requires
        consistent(ui),
    ensures
        consistent(respond(ui, key, rows).0),
        consistent(after_kill(ui, failure)),
        respond(ui, key, rows).1 is Inspect ==> consistent(
            after_inspect(respond(ui, key, rows).0, id, name, result),
        ),
{
}

/// The selection is always one of the rows on the screen: it is put there before the
/// screen is shown, and no key takes it off.
pub proof fn selection_stays_on_the_rows(ui: UiView, key: KeyEvent, rows: Seq<ContainerRow>)
    requires
        rows.len() <= usize::MAX,
    ensures
        selection_fits(select(ui, cursor(ui), rows.len() as int), rows.len() as int),
        selection_fits(ui, rows.len() as int) ==> selection_fits(
            respond(ui, key, rows).0,
            rows.len() as int,
        ),
{
}

/// Down and Up undo each other, except where the table ends.
pub proof fn down_and_up(ui: UiView, rows: Seq<ContainerRow>)
    requires
        in_table(ui),
        ui.selected is Some,
        rows.len() <= usize::MAX,
        ui.selected->0 < rows.len(),
    ensures
        ui.selected->0 + 1 < rows.len() ==> respond(
            respond(ui, press(KeyCode::Down), rows).0,
            press(KeyCode::Up),
            rows,
        ).0 == ui,
        ui.selected->0 > 0 ==> respond(
            respond(ui, press(KeyCode::Up), rows).0,
            press(KeyCode::Down),
            rows,
        ).0 == ui,
        ui.selected->0 + 1 == rows.len() ==> respond(ui, press(KeyCode::Down), rows).0 == ui,
        ui.selected->0 == 0 ==> respond(ui, press(KeyCode::Up), rows).0 == ui,
{
}

/// `j` does what Down does and `k` what Up does in the table.
pub proof fn letters_move_too(ui: UiView, rows: Seq<ContainerRow>)
    requires
        in_table(ui),
    ensures
        respond(ui, press(KeyCode::Char('j')), rows) == respond(ui, press(KeyCode::Down), rows),
        respond(ui, press(KeyCode::Char('k')), rows) == respond(ui, press(KeyCode::Up), rows),
{
}

/// `c`, `m` and `n` sort by CPU, memory and name directly, whatever the order was; `s`
/// goes through the three in turn and is back after three times.
pub proof fn sort_keys(ui: UiView, rows: Seq<ContainerRow>)
    requires
        in_table(ui),
    ensures
        respond(ui, press(KeyCode::Char('c')), rows).0 == (UiView { sort: Sort::Cpu, ..ui }),
        respond(ui, press(KeyCode::Char('m')), rows).0 == (UiView { sort: Sort::Mem, ..ui }),
        respond(ui, press(KeyCode::Char('n')), rows).0 == (UiView { sort: Sort::Name, ..ui }),
        ({
            let s = press(KeyCode::Char('s'));
            let once = respond(ui, s, rows).0;
            let twice = respond(once, s, rows).0;
            respond(twice, s, rows).0 == ui
        }),
{
}

/// A filter hides rows and does nothing else: what is shown is there, and what it picks
/// is shown.
pub proof fn filter_only_hides(rows: Seq<ContainerRow>, filter: Seq<char>, row: ContainerRow)
    ensures
        filtered(rows, filter).contains(row) <==> rows.contains(row) && (filter.len() == 0 || picks(
            filter,
            row,
        )),
    decreases rows.len(),
{
    if filter.len() > 0 && rows.len() > 0 {
        reveal(Seq::filter);
        let front = rows.drop_last();
        let kept = filtered(front, filter);
        filter_only_hides(front, filter, row);
        assert(rows =~= front.push(rows.last()));
        assert(rows.contains(row) <==> front.contains(row) || row == rows.last()) by {
            if front.contains(row) {
                let i = choose|i: int| 0 <= i < front.len() && front[i] == row;
                assert(rows[i] == row);
            }
            assert(rows[rows.len() - 1] == rows.last());
        }
        if picks(filter, rows.last()) {
            let all = filtered(rows, filter);
            assert(all =~= kept.push(rows.last()));
            if kept.contains(row) {
                let i = choose|i: int| 0 <= i < kept.len() && kept[i] == row;
                assert(all[i] == row);
            }
            assert(all[all.len() - 1] == rows.last());
        }
    } else if filter.len() > 0 {
        reveal(Seq::filter);
    }
}

/// Applying the same filter again changes nothing.
pub proof fn filtering_twice(rows: Seq<ContainerRow>, filter: Seq<char>)
    ensures
        filtered(filtered(rows, filter), filter) == filtered(rows, filter),
    decreases rows.len(),
{
    if filter.len() > 0 {
        reveal(Seq::filter);
        if rows.len() > 0 {
            let kept = filtered(rows.drop_last(), filter);
            filtering_twice(rows.drop_last(), filter);
            if picks(filter, rows.last()) {
                assert(kept.push(rows.last()).drop_last() =~= kept);
            }
        }
    }
}

/// The case of the filter does not matter.
pub proof fn filter_ignores_case(rows: Seq<ContainerRow>, one: Seq<char>, other: Seq<char>)
    requires
        lowercase(one) == lowercase(other),
        one.len() > 0,
        other.len() > 0,
    ensures
        filtered(rows, one) == filtered(rows, other),
    decreases rows.len(),
{
    reveal(Seq::filter);
    if rows.len() > 0 {
        filter_ignores_case(rows.drop_last(), one, other);
    }
}

/// Two filters leave the same rows in the same order, whichever is applied first.
pub proof fn filters_commute(rows: Seq<ContainerRow>, one: Seq<char>, other: Seq<char>)
    ensures
        filtered(filtered(rows, one), other) == filtered(filtered(rows, other), one),
    decreases rows.len(),
{
    if one.len() > 0 && other.len() > 0 {
        reveal(Seq::filter);
        if rows.len() > 0 {
            let front = rows.drop_last();
            let last = rows.last();
            filters_commute(front, one, other);
            assert(filtered(front, one).push(last).drop_last() =~= filtered(front, one));
            assert(filtered(front, other).push(last).drop_last() =~= filtered(front, other));
        }
    }
}

/// An ASCII filter picks the same rows when it is put into lower case first.
pub proof fn lowered_filters_pick_the_same(rows: Seq<ContainerRow>, filter: Seq<char>)
    requires
        is_ascii_chars(filter),
    ensures
        filtered(rows, lowercase(filter)) == filtered(rows, filter),
{
    lowering_twice(filter);
    if filter.len() > 0 {
        filter_ignores_case(rows, lowercase(filter), filter);
    }
}

/// `some` can be had from `all` by leaving elements out.
pub open spec fn subsequence(some: Seq<ContainerRow>, all: Seq<ContainerRow>) -> bool
    decreases all.len(),
{
    if some.len() == 0 {
        true
    } else if all.len() == 0 {
        false
    } else {
        ||| some.last() == all.last() && subsequence(some.drop_last(), all.drop_last())
        ||| subsequence(some, all.drop_last())
    }
}

/// A filter leaves the rows in their order.
pub proof fn filter_keeps_the_order(rows: Seq<ContainerRow>, filter: Seq<char>)
    ensures
        subsequence(filtered(rows, filter), rows),
    decreases rows.len(),
{
    reveal(Seq::filter);
    if rows.len() > 0 {
        filter_keeps_the_order(rows.drop_last(), filter);
        if filter.len() > 0 && picks(filter, rows.last()) {
            let kept = filtered(rows.drop_last(), filter);
            assert(kept.push(rows.last()).drop_last() =~= kept);
        }
    }
}

proof fn front_occurs_too(front: Seq<char>, back: Seq<char>, hay: Seq<char>)
    requires
        occurs_in(front + back, hay),
    ensures
        occurs_in(front, hay),
{
    let at = choose|at: int| occurs_at(front + back, hay, at);
    let found = hay.subrange(at, at + (front + back).len());
    assert(hay.subrange(at, at + front.len()) =~= found.take(front.len() as int));
    assert((front + back).take(front.len() as int) =~= front);
    assert(occurs_at(front, hay, at));
}

/// A row that a filter picks is picked by the front of the filter too, in ASCII.
pub proof fn shorter_filters_pick_more(row: ContainerRow, front: Seq<char>, back: Seq<char>)
    requires
        is_ascii_chars(front),
        is_ascii_chars(back),
        picks(front + back, row),
    ensures
        picks(front, row),
{
    lowering_in_parts(front, back);
    if occurs_in(lowercase(front + back), lowercase(row.name@)) {
        front_occurs_too(lowercase(front), lowercase(back), lowercase(row.name@));
    } else {
        front_occurs_too(lowercase(front), lowercase(back), lowercase(row.image@));
    }
}

/// Typing on in an ASCII filter only hides: the longer filter picks among the rows that the
/// shorter one left, in their order, and brings none back.
pub proof fn typing_on_only_hides(rows: Seq<ContainerRow>, front: Seq<char>, back: Seq<char>)
    requires
        is_ascii_chars(front),
        is_ascii_chars(back),
    ensures
        filtered(rows, front + back) == filtered(filtered(rows, front), front + back),
        subsequence(filtered(rows, front + back), filtered(rows, front)),
    decreases rows.len(),
{
    let whole = front + back;
    if front.len() > 0 {
        reveal(Seq::filter);
        if rows.len() > 0 {
            typing_on_only_hides(rows.drop_last(), front, back);
            let last = rows.last();
            if picks(whole, last) {
                shorter_filters_pick_more(last, front, back);
            }
            let kept = filtered(rows.drop_last(), front);
            assert(kept.push(last).drop_last() =~= kept);
        }
    }
    filter_keeps_the_order(filtered(rows, front), whole);
}

/// Sorting loses no row and adds none.
pub proof fn sorting_keeps_the_rows(
    sort: Sort,
    rows: Seq<ContainerRow>,
    sorted: Seq<ContainerRow>,
    row: ContainerRow,
)
    requires
        stably_sorted(sort, rows, sorted),
    ensures
        sorted.len() == rows.len(),
        sorted.contains(row) <==> rows.contains(row),
{
    broadcast use group_to_multiset_ensures;

    assert(sorted.contains(row) <==> sorted.to_multiset().count(row) > 0);
    assert(rows.contains(row) <==> rows.to_multiset().count(row) > 0);
}

/// The table shows exactly the containers that the filter picks.
pub proof fn table_shows_what_is_picked(
    sort: Sort,
    rows: Seq<ContainerRow>,
    filter: Seq<char>,
    shown: Seq<ContainerRow>,
    row: ContainerRow,
)
    requires
        stably_sorted(sort, filtered(rows, filter), shown),
    ensures
        shown.contains(row) <==> rows.contains(row) && (filter.len() == 0 || picks(filter, row)),
{
    sorting_keeps_the_rows(sort, filtered(rows, filter), shown, row);
    filter_only_hides(rows, filter, row);
}

/// In the table the busier containers stand above, or the earlier names.
pub proof fn busiest_first(rows: Seq<ContainerRow>, sorted: Seq<ContainerRow>, i: int, j: int)
    requires
        0 <= i < j < sorted.len(),
    ensures
        stably_sorted(Sort::Cpu, rows, sorted) ==> rank(sorted[i].cpu_pct.bits) >= rank(
            sorted[j].cpu_pct.bits,
        ),
        stably_sorted(Sort::Mem, rows, sorted) ==> rank(sorted[i].mem_pct.bits) >= rank(
            sorted[j].mem_pct.bits,
        ),
        stably_sorted(Sort::Name, rows, sorted) ==> !precedes(
            sorted[j].name@,
            sorted[i].name@,
        ),
{
    assert(in_order(Sort::Cpu, sorted) ==> !above(Sort::Cpu, sorted[j], sorted[i]));
    assert(in_order(Sort::Mem, sorted) ==> !above(Sort::Mem, sorted[j], sorted[i]));
    assert(in_order(Sort::Name, sorted) ==> !above(Sort::Name, sorted[j], sorted[i]));
}

/// A higher load is never shown in a milder colour.
pub proof fn severity_grows(a: u64, b: u64)
    requires
        is_number(a),
        is_number(b),
        rank(a) <= rank(b),
    ensures
        severity(a) == Color::Red ==> severity(b) == Color::Red,
        severity(a) == Color::Yellow ==> severity(b) != Color::Green,
{
    assert(at_least(a, FIFTY) ==> at_least(b, FIFTY));
    assert(at_least(a, EIGHTY) ==> at_least(b, EIGHTY));
}

/// What is told as memory in use is what the daemon counts less the page cache: together
/// they make up the count, unless the cache alone is larger.
pub proof fn page_cache_is_left_out(stats: Stats)
    ensures
        ({
            let told = mem_in_use(stats);
            &&& told <= or_zero(stats.mem_usage)
            &&& page_cache(stats) <= or_zero(stats.mem_usage) ==> told + page_cache(stats) == or_zero(
                stats.mem_usage,
            )
        }),
{
}

/// A share is never one of nothing, so that a percentage can be told of it.
pub proof fn shares_have_a_whole(now: u64, before: u64, whole: u64)
    ensures
        gain(now, before, whole as int) matches Share::Of { now: n, before: b, whole: w } ==> b < n && w > 0,
{
}

/// The popup lies within the frame.
pub proof fn popup_lies_within(lines: nat, has_status: bool, frame: Area)
    requires
        popup_has_place(lines, has_status, frame),
    ensures
        popup_place(lines, has_status, frame).within(frame),
{
    centered_lies_within(
        popup_width(frame.width),
        at_most(
            popup_rows(lines, has_status),
            frame.height as int,
        ) as u16,
        frame,
    );
}

/// The rows of a meter lie within the area.
pub open spec fn meter_within(rows: MeterRows, area: Area) -> bool {
    rows.label.within(area) && rows.value.within(area) && rows.gauge.within(area)
}

/// Everything on the screen lies within the frame: the four parts, the meters of the panel
/// within the panel, and the popup with its text, its message and its hints within it.
pub proof fn scene_lies_within(
    s: Scene,
    frame: Area,
    rows: Seq<ContainerRow>,
    snapshot: Snapshot,
    load: Load,
    ui: Ui,
    now: u128,
)
    requires
        is_scene(s, frame, rows, snapshot, load, ui, now),
        ui.screen matches Screen::Detail(d) ==> popup_fits(frame, d, rows),
    ensures
        s.header_area.within(frame),
        s.table_area.within(frame),
        s.panel_area.within(frame),
        s.footer_area.within(frame),
        s.panel matches Panel::Vacant { area, .. } ==> area.within(s.panel_area),
        s.panel matches Panel::Row { cpu, mem } ==> meter_within(cpu.rows, s.panel_area) && meter_within(
            mem.rows,
            s.panel_area,
        ),
        s.popup matches Some(p) ==> {
            &&& p.area.within(frame)
            &&& p.info_area.within(p.area)
            &&& p.status_area.within(p.area)
            &&& p.hints_area.within(p.area)
        },
{
    assert(inside_border(s.panel_area).within(s.panel_area));
    if let Screen::Detail(d) = ui.screen {
        let live = first_with_id(rows, d.id@);
        detail_is_short(d, live, snapshot.host_ncpu);
        popup_lies_within(detail_count(d, live is Some), d.status_msg is Some, frame);
        let p = s.popup->0;
        assert(inside_border(p.area).within(p.area));
    }
}

} // verus!
