//! What callers can count on of the user interface: what each call does to its state, told of the
//! state before, the state after, and what else is asked for.

use crate::detail::{DetailState, Inspect};
use crate::listing::{comparable_is_sortable, properly_sorted, sortable, stable_orders_are_proper};
use crate::rows::{apply_filter, ContainerRow, Sort};
use crate::text::{opt_text, short_form};
use crate::ui::{
    cursor, filter_key, kill_signal, respond, select, Action, KeyCode, KeyEvent, KeyKind, Screen,
    ScreenView, Ui,
};
use crate::wording::{first_twelve_bytes, leading_bytes_are_twelve};
use vstd::prelude::*;
use vstd::utf8::*;

verus! {

/// Both texts are missing, or both are the same.
pub open spec fn same_text(a: Option<String>, b: Option<String>) -> bool {
    match (a, b) {
        (Some(x), Some(y)) => x@ == y@,
        (None, None) => true,
        _ => false,
    }
}

/// The popup is of the same container and shows the same, but may ask or not.
pub open spec fn same_popup(a: DetailState, b: DetailState) -> bool {
    &&& a.id@ == b.id@
    &&& a.name@ == b.name@
    &&& a.inspect == b.inspect
    &&& same_text(a.status_msg, b.status_msg)
    &&& a.is_error == b.is_error
}

/// The same lies on the screen.
pub open spec fn same_screen(a: Screen, b: Screen) -> bool {
    match (a, b) {
        (Screen::Table, Screen::Table) => true,
        (Screen::Detail(x), Screen::Detail(y)) => same_popup(x, y) && x.confirming_kill == y.confirming_kill,
        _ => false,
    }
}

/// The table behind the popup is the same: its selection, its order and its filter.
pub open spec fn same_table(a: Ui, b: Ui) -> bool {
    &&& a.selected == b.selected
    &&& a.sort == b.sort
    &&& a.filter@ == b.filter@
    &&& a.editing_filter == b.editing_filter
}

/// Nothing has changed.
pub open spec fn same_state(a: Ui, b: Ui) -> bool {
    same_table(a, b) && same_screen(a.screen, b.screen)
}

proof fn unchanged(a: Ui, b: Ui)
    requires
        a@ == b@,
    ensures
        same_state(a, b),
{
    assert(a@.filter == b@.filter && a@.screen == b@.screen);
    match (a.screen, b.screen) {
        (Screen::Detail(x), Screen::Detail(y)) => {
            same_views(x, y);
        },
        (Screen::Table, Screen::Table) => {},
        (Screen::Table, Screen::Detail(y)) => {
            assert(b@.screen is Detail);
        },
        (Screen::Detail(x), Screen::Table) => {
            assert(a@.screen is Detail);
        },
    }
}

proof fn same_views(a: DetailState, b: DetailState)
    requires
        a@.id == b@.id,
        a@.name == b@.name,
        a@.inspect == b@.inspect,
        a@.status_msg == b@.status_msg,
        a@.is_error == b@.is_error,
    ensures
        same_popup(a, b),
{
    assert(a@.status_msg == opt_text(a.status_msg));
    assert(b@.status_msg == opt_text(b.status_msg));
}

/// The program starts with the table, sorted by CPU, unfiltered, on its first row.
pub proof fn starts_with_the_table(r: Ui)
    requires
        call_ensures(Ui::new, (), r),
    ensures
        r.selected == Some(0usize),
        r.sort == Sort::Cpu,
        r.filter@.len() == 0,
        !r.editing_filter,
        r.screen is Table,
{
    assert(r@.filter.len() == 0);
    assert(r@.screen is Table);
}

/// A kill sends SIGKILL.
pub proof fn kills_send_sigkill(r: &'static str)
    requires
        call_ensures(kill_signal, (), r),
    ensures
        r@ == "SIGKILL"@,
{
}

/// A key that does not go down does nothing.
pub proof fn other_events_do_nothing(ui: &mut Ui, key: KeyEvent, rows: Vec<ContainerRow>, r: Action)
    requires
        call_ensures(Ui::handle_key, (ui, key, &rows), r),
        key.kind != KeyKind::Press,
    ensures
        r is Stay,
        same_state(*old(ui), *final(ui)),
{
    assert(r@ is Stay);
    unchanged(*old(ui), *final(ui));
}

/// What each key does in the table: `q` and Esc leave the program; Down and `j` select the row below,
/// up to the last one, and Up and `k` the row above, up to the first one; `s` goes to the next order,
/// and `c`, `m` and `n` to theirs; `/` begins to edit the filter; Enter asks for the selected container;
/// and nothing else happens.
pub proof fn keys_in_the_table(ui: &mut Ui, key: KeyEvent, rows: Vec<ContainerRow>, r: Action)
    requires
        call_ensures(Ui::handle_key, (ui, key, &rows), r),
        key.kind == KeyKind::Press,
        old(ui).screen is Table,
        !old(ui).editing_filter,
        old(ui).selected != Some(usize::MAX),
    ensures
        final(ui).screen is Table,
        final(ui).filter@ == old(ui).filter@,
        final(ui).editing_filter == (key.code == KeyCode::Char('/')),
        r is Quit <==> key.code == KeyCode::Char('q') || key.code == KeyCode::Esc,
        r !is Kill,
        r is Inspect <==> key.code == KeyCode::Enter && (old(ui).selected matches Some(i) && i < rows@.len()),
        r matches Action::Inspect { id, name } ==> {
            let row = rows@[old(ui).selected->0 as int];
            id@ == row.id@ && name@ == row.name@
        },
        final(ui).sort == match key.code {
            KeyCode::Char('s') => match old(ui).sort {
                Sort::Cpu => Sort::Mem,
                Sort::Mem => Sort::Name,
                Sort::Name => Sort::Cpu,
            },
            KeyCode::Char('c') => Sort::Cpu,
            KeyCode::Char('m') => Sort::Mem,
            KeyCode::Char('n') => Sort::Name,
            _ => old(ui).sort,
        },
        ({
            let down = key.code == KeyCode::Down || key.code == KeyCode::Char('j');
            let up = key.code == KeyCode::Up || key.code == KeyCode::Char('k');
            let n = rows@.len();
            let at = match old(ui).selected {
                Some(i) => i as int,
                None => 0,
            };
            if n == 0 || !(down || up) {
                final(ui).selected == old(ui).selected
            } else if down && at + 1 < n {
                final(ui).selected matches Some(j) && j == at + 1
            } else if down {
                final(ui).selected matches Some(j) && j == n - 1
            } else if at > 0 {
                final(ui).selected matches Some(j) && j == at - 1
            } else {
                final(ui).selected == Some(0usize)
            }
        }),
{
    let before = old(ui)@;
    let after = final(ui)@;
    assert((after, r@) == respond(before, key, rows@));
    assert(before.screen is Table);
    assert(after.screen is Table);
    assert(after.filter == before.filter);
    assert(r@ is Quit == (r is Quit) && r@ is Inspect == (r is Inspect) && r@ is Kill == (r is Kill));
    assert(rows@.len() == rows.len() as int <= usize::MAX);
}

/// What each key does while the filter is edited: a character goes behind the filter, Backspace takes the
/// last one off, Enter ends the editing, Esc ends it and clears the filter, and nothing else happens.
pub proof fn keys_in_the_filter(ui: &mut Ui, key: KeyEvent, rows: Vec<ContainerRow>, r: Action)
    requires
        call_ensures(Ui::handle_key, (ui, key, &rows), r),
        key.kind == KeyKind::Press,
        old(ui).screen is Table,
        old(ui).editing_filter,
    ensures
        r is Stay,
        final(ui).screen is Table,
        final(ui).selected == old(ui).selected,
        final(ui).sort == old(ui).sort,
        final(ui).editing_filter == !(key.code == KeyCode::Enter || key.code == KeyCode::Esc),
        match key.code {
            KeyCode::Char(c) => {
                &&& final(ui).filter@.len() == old(ui).filter@.len() + 1
                &&& final(ui).filter@.last() == c
                &&& final(ui).filter@.drop_last() == old(ui).filter@
            },
            KeyCode::Backspace => if old(ui).filter@.len() == 0 {
                final(ui).filter@.len() == 0
            } else {
                final(ui).filter@ == old(ui).filter@.take(old(ui).filter@.len() - 1)
            },
            KeyCode::Esc => final(ui).filter@.len() == 0,
            _ => final(ui).filter@ == old(ui).filter@,
        },
{
    let before = old(ui)@;
    let after = final(ui)@;
    assert((after, r@) == respond(before, key, rows@));
    assert(before.screen is Table && after.screen is Table);
    assert(after.filter == filter_key(before, key.code).filter);
    assert(r@ is Stay);
    if let KeyCode::Char(c) = key.code {
        assert(after.filter.drop_last() =~= before.filter);
    }
}

/// What each key does in the popup: `k` makes it ask, or does nothing while it asks; `y` and Enter, while it
/// asks, ask for its container to be killed; `n` and Esc take the question back, and without one close the
/// popup, as `q` does; nothing else happens, and the table behind stays as it is.
pub proof fn keys_in_the_popup(ui: &mut Ui, key: KeyEvent, rows: Vec<ContainerRow>, d: DetailState, r: Action)
    requires
        call_ensures(Ui::handle_key, (ui, key, &rows), r),
        key.kind == KeyKind::Press,
        old(ui).screen == Screen::Detail(d),
    ensures
        same_table(*old(ui), *final(ui)),
        r is Stay || r is Kill,
        r is Kill <==> d.confirming_kill && (key.code == KeyCode::Char('y') || key.code == KeyCode::Enter),
        r matches Action::Kill { id } ==> id@ == d.id@,
        ({
            let closing = !d.confirming_kill && (key.code == KeyCode::Esc || key.code == KeyCode::Char('q')
                || key.code == KeyCode::Char('n'));
            let back = d.confirming_kill && (key.code == KeyCode::Esc || key.code == KeyCode::Char('n'));
            if closing {
                final(ui).screen is Table
            } else {
                &&& final(ui).screen matches Screen::Detail(e)
                &&& same_popup(d, e)
                &&& e.confirming_kill == if back {
                    false
                } else if key.code == KeyCode::Char('k') {
                    true
                } else {
                    d.confirming_kill
                }
            }
        }),
{
    let before = old(ui)@;
    let after = final(ui)@;
    assert((after, r@) == respond(before, key, rows@));
    assert(before.screen == ScreenView::Detail(d@));
    assert(after.filter == before.filter);
    assert(r@ is Kill == (r is Kill) && r@ is Stay == (r is Stay));
    if let Screen::Detail(e) = final(ui).screen {
        assert(after.screen == ScreenView::Detail(e@));
        same_views(d, e);
    }
}

/// The selection stays where it is if there is such a row, moves to the last row if not, to the first if there
/// was none, and is gone if there are no rows; nothing else changes.
pub open spec fn moved_onto(before: Ui, after: Ui, n: nat) -> bool {
    &&& after.sort == before.sort
    &&& after.filter@ == before.filter@
    &&& after.editing_filter == before.editing_filter
    &&& same_screen(before.screen, after.screen)
    &&& if n == 0 {
        after.selected is None
    } else {
        match before.selected {
            Some(i) => if i < n {
                after.selected == Some(i)
            } else {
                after.selected matches Some(j) && j == n - 1
            },
            None => after.selected == Some(0usize),
        }
    }
}

proof fn selects(before: Ui, after: Ui, n: nat)
    requires
        n <= usize::MAX,
        after@ == select(before@, cursor(before@), n as int),
    ensures
        moved_onto(before, after, n),
{
    assert(after@.filter == before@.filter && after@.screen == before@.screen);
    match (before.screen, after.screen) {
        (Screen::Detail(x), Screen::Detail(y)) => {
            assert(before@.screen == ScreenView::Detail(x@) && after@.screen == ScreenView::Detail(y@));
            same_views(x, y);
        },
        (Screen::Table, Screen::Table) => {},
        (Screen::Table, Screen::Detail(y)) => {
            assert(after@.screen is Detail);
        },
        (Screen::Detail(x), Screen::Table) => {
            assert(before@.screen is Detail);
        },
    }
}

/// The selection is moved onto the rows.
pub proof fn clamping_moves_onto_the_rows(ui: &mut Ui, n: usize)
    requires
        call_ensures(Ui::clamp_selection, (ui, n), ()),
    ensures
        moved_onto(*old(ui), *final(ui), n as nat),
{
    selects(*old(ui), *final(ui), n as nat);
}

/// What is prepared are the rows that the filter keeps, properly sorted, with the selection moved onto them;
/// where they cannot be sorted nothing is, and nothing changes.
pub proof fn preparing_filters_and_sorts(
    ui: &mut Ui,
    rows: Vec<ContainerRow>,
    filter: &str,
    kept: Vec<ContainerRow>,
    r: Option<Vec<ContainerRow>>,
)
    requires
        call_ensures(Ui::prepare, (ui, &rows), r),
        filter@ == old(ui).filter@,
        call_ensures(apply_filter, (rows, filter), kept),
    ensures
        r is Some <==> sortable(old(ui).sort, kept@),
        r is None ==> same_state(*old(ui), *final(ui)),
        r matches Some(shown) ==> properly_sorted(old(ui).sort, kept@, shown@) && moved_onto(
            *old(ui),
            *final(ui),
            shown@.len(),
        ),
{
    comparable_is_sortable(old(ui).sort, kept@);
    if let Some(shown) = r {
        stable_orders_are_proper(old(ui).sort, kept@, shown@);
        assert(shown@.len() == shown.len() as int <= usize::MAX);
        selects(*old(ui), *final(ui), shown@.len());
    } else {
        unchanged(*old(ui), *final(ui));
    }
}

/// After a kill the popup tells how it went and asks no more; without a popup nothing happens.
pub proof fn kills_are_reported(ui: &mut Ui, result: Result<(), String>)
    requires
        call_ensures(Ui::kill_finished, (ui, result), ()),
    ensures
        same_table(*old(ui), *final(ui)),
        old(ui).screen is Table ==> final(ui).screen is Table,
        old(ui).screen matches Screen::Detail(d) ==> {
            &&& final(ui).screen matches Screen::Detail(e)
            &&& e.id@ == d.id@ && e.name@ == d.name@ && e.inspect == d.inspect
            &&& !e.confirming_kill
            &&& e.is_error == (result is Err)
            &&& result matches Err(reason) ==> (e.status_msg matches Some(told) && told@ == "kill failed: "@
                + reason@)
            &&& result is Ok && encode_utf8(d.id@).len() <= 12 ==> (e.status_msg matches Some(told) && told@
                == "killed "@ + d.id@)
            &&& result is Ok && encode_utf8(d.id@).len() > 12 && is_char_boundary(encode_utf8(d.id@), 12)
                ==> (e.status_msg matches Some(told) && exists|short: Seq<char>|
                #[trigger] first_twelve_bytes(d.id@, short) && told@ == "killed "@ + short)
        },
{
    let before = old(ui)@;
    let after = final(ui)@;
    assert(after.filter == before.filter);
    match old(ui).screen {
        Screen::Table => {
            assert(before.screen is Table);
            assert(after.screen is Table);
        },
        Screen::Detail(d) => {
            assert(before.screen == ScreenView::Detail(d@));
            assert(after.screen is Detail);
            if let Screen::Detail(e) = final(ui).screen {
                assert(after.screen == ScreenView::Detail(e@));
                assert(e@.status_msg == opt_text(e.status_msg));
                if encode_utf8(d.id@).len() > 12 && is_char_boundary(encode_utf8(d.id@), 12) {
                    leading_bytes_are_twelve(d.id@);
                    assert(first_twelve_bytes(d.id@, short_form(d.id@)));
                }
            }
        },
    }
}

/// After an inspection the popup of that container is open, with what was found or with why nothing was, and
/// does not ask; the table behind it stays as it is.
pub proof fn inspections_open_the_popup(
    ui: &mut Ui,
    id: String,
    name: String,
    result: Result<Inspect, String>,
)
    requires
        call_ensures(Ui::inspect_finished, (ui, id, name, result), ()),
    ensures
        same_table(*old(ui), *final(ui)),
        final(ui).screen matches Screen::Detail(e) && {
            &&& e.id@ == id@
            &&& e.name@ == name@
            &&& !e.confirming_kill
            &&& result matches Ok(found) ==> e.inspect == Some(found) && e.status_msg is None && !e.is_error
            &&& result matches Err(reason) ==> e.inspect is None && e.is_error && (e.status_msg matches Some(
                told,
            ) && told@ == "inspect failed: "@ + reason@)
        },
{
    let before = old(ui)@;
    let after = final(ui)@;
    assert(after.filter == before.filter);
    assert(after.screen is Detail);
    if let Screen::Detail(e) = final(ui).screen {
        assert(after.screen == ScreenView::Detail(e@));
        assert(e@.status_msg == opt_text(e.status_msg));
    }
}

} // verus!
