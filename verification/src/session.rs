//! A whole session: every state that keys, screens and answers can lead to.

use crate::detail::Inspect;
use crate::laws::{asks_to_kill, consistent, in_table, press};
use crate::rows::{ContainerRow, Sort};
use crate::ui::{
    after_inspect, after_kill, cursor, respond, select, ActionView, KeyCode, KeyEvent, ScreenView,
    UiView,
};
use vstd::prelude::*;

verus! {

/// Something that happens in a session.
pub enum Step {
    /// The screen is shown, with that many rows.
    Show(nat),
    /// Something happens to a key while those rows are on the screen.
    Key(KeyEvent, Seq<ContainerRow>),
    /// A kill that was due has come to its end, possibly with a failure.
    Killed(Option<Seq<char>>),
    /// An inspection that was due has come to its end.
    Inspected(Result<Inspect, Seq<char>>),
}

/// The state of the user interface, and what is due to be done.
pub struct Session {
    pub ui: UiView,
    pub due: ActionView,
}

/// The start: the table, sorted by CPU, unfiltered, on its first row; nothing is due.
pub open spec fn beginning() -> Session {
    Session {
        ui: UiView {
            selected: Some(0),
            sort: Sort::Cpu,
            filter: Seq::empty(),
            editing_filter: false,
            screen: ScreenView::Table,
        },
        due: ActionView::Stay,
    }
}

/// The step can happen: answers come to what is due, and all else waits for them.
pub open spec fn can_happen(s: Session, step: Step) -> bool {
    match step {
        Step::Show(_) => s.due is Stay,
        Step::Key(_, _) => s.due is Stay,
        Step::Killed(_) => s.due is Kill,
        Step::Inspected(_) => s.due is Inspect,
    }
}

/// What a step does.
pub open spec fn advance(s: Session, step: Step) -> Session {
    match step {
        Step::Show(n) => Session { ui: select(s.ui, cursor(s.ui), n as int), due: s.due },
        Step::Key(key, rows) => {
            let (ui, due) = respond(s.ui, key, rows);
            Session { ui, due }
        },
        Step::Killed(failure) => Session { ui: after_kill(s.ui, failure), due: ActionView::Stay },
        Step::Inspected(result) => match s.due {
            ActionView::Inspect { id, name } => Session {
                ui: after_inspect(s.ui, id, name, result),
                due: ActionView::Stay,
            },
            _ => s,
        },
    }
}

/// Where the steps lead, one after the other.
pub open spec fn after(steps: Seq<Step>) -> Session
    decreases steps.len(),
{
    if steps.len() == 0 {
        beginning()
    } else {
        advance(after(steps.drop_last()), steps.last())
    }
}

/// Each of the steps can happen when its turn comes.
pub open spec fn possible(steps: Seq<Step>) -> bool
    decreases steps.len(),
{
    steps.len() == 0 || possible(steps.drop_last()) && can_happen(after(steps.drop_last()), steps.last())
}

/// The popup of the container `id` is open.
pub open spec fn shows_popup_of(ui: UiView, id: Seq<char>) -> bool {
    ui.screen matches ScreenView::Detail(d) && d.id == id
}

/// In every session: no popup is open while the filter is edited; a kill is due only while
/// the popup of that container asks for it; an inspection is due only in the table.
pub proof fn every_state_is_sound(steps: Seq<Step>)
    requires
        possible(steps),
    ensures
        ({
            let s = after(steps);
            &&& consistent(s.ui)
            &&& s.due matches ActionView::Kill { id } ==> asks_to_kill(s.ui) && shows_popup_of(s.ui, id)
            &&& s.due is Inspect ==> in_table(s.ui)
        }),
    decreases steps.len(),
{
    if steps.len() > 0 {
        every_state_is_sound(steps.drop_last());
    }
}

/// Step `i` is a press of `k` in the open popup of the container `id`, which did not ask yet.
pub open spec fn asked_at(steps: Seq<Step>, i: int, id: Seq<char>) -> bool {
    &&& 0 <= i < steps.len()
    &&& shows_popup_of(after(steps.take(i)).ui, id)
    &&& !asks_to_kill(after(steps.take(i)).ui)
    &&& steps[i] matches Step::Key(key, _) && key == press(KeyCode::Char('k'))
}

/// `k` was pressed at step `i` in the popup of the container `id`, and after every step from
/// there on that popup has been open and asking.
pub open spec fn asking_since(steps: Seq<Step>, i: int, id: Seq<char>) -> bool {
    &&& asked_at(steps, i, id)
    &&& forall|j: int|
        i < j <= steps.len() ==> asks_to_kill((#[trigger] after(steps.take(j))).ui) && shows_popup_of(
            after(steps.take(j)).ui,
            id,
        )
}

/// The step is a press of a key that answers the question: `y`, Enter, `n` or Esc.
pub open spec fn answers(step: Step) -> bool {
    step matches Step::Key(key, _) && {
        ||| key == press(KeyCode::Char('y'))
        ||| key == press(KeyCode::Enter)
        ||| key == press(KeyCode::Char('n'))
        ||| key == press(KeyCode::Esc)
    }
}

proof fn possible_so_far(steps: Seq<Step>, n: int)
    requires
        possible(steps),
        0 <= n <= steps.len(),
    ensures
        possible(steps.take(n)),
    decreases steps.len(),
{
    if n == steps.len() {
        assert(steps.take(n) =~= steps);
    } else {
        possible_so_far(steps.drop_last(), n);
        assert(steps.take(n) =~= steps.drop_last().take(n));
    }
}

proof fn one_step_on(steps: Seq<Step>, n: int)
    requires
        possible(steps),
        0 <= n < steps.len(),
    ensures
        can_happen(after(steps.take(n)), steps[n]),
        after(steps.take(n + 1)) == advance(after(steps.take(n)), steps[n]),
{
    possible_so_far(steps, n + 1);
    assert(steps.take(n + 1).drop_last() =~= steps.take(n));
}

/// In every session: where a popup asks whether to kill its container, `k` was pressed in it
/// and it has asked ever since.
pub proof fn questions_have_a_cause(steps: Seq<Step>, id: Seq<char>)
    requires
        possible(steps),
        asks_to_kill(after(steps).ui),
        shows_popup_of(after(steps).ui, id),
    ensures
        exists|i: int| asking_since(steps, i, id),
    decreases steps.len(),
{
    if steps.len() > 0 {
        let front = steps.drop_last();
        let n = front.len() as int;
        assert(steps.take(n) =~= front);
        assert(steps.take(n + 1) =~= steps);
        if asks_to_kill(after(front).ui) {
            questions_have_a_cause(front, id);
            let i = choose|i: int| asking_since(front, i, id);
            assert(steps.take(i) =~= front.take(i));
            assert forall|j: int| i < j <= steps.len() implies asks_to_kill(
                (#[trigger] after(steps.take(j))).ui,
            ) && shows_popup_of(after(steps.take(j)).ui, id) by {
                if j <= n {
                    assert(steps.take(j) =~= front.take(j));
                    assert(asks_to_kill(after(front.take(j)).ui));
                }
            }
            assert(asking_since(steps, i, id));
        } else {
            assert(asking_since(steps, n, id));
        }
    }
}

proof fn unanswered(steps: Seq<Step>, i: int, id: Seq<char>, j: int)
    requires
        possible(steps),
        after(steps).due is Stay,
        asking_since(steps, i, id),
        i < j < steps.len(),
    ensures
        !answers(steps[j]),
{
    one_step_on(steps, j);
    assert(asks_to_kill(after(steps.take(j)).ui));
    assert(asks_to_kill(after(steps.take(j + 1)).ui));
    if answers(steps[j]) {
        assert(after(steps.take(j + 1)).due is Kill);
        if j + 1 == steps.len() {
            assert(steps.take(j + 1) =~= steps);
        } else {
            one_step_on(steps, j + 1);
            assert(asks_to_kill(after(steps.take(j + 2)).ui));
        }
    }
}

/// In every session: a container is killed only by `y` or Enter, and only where `k` was
/// pressed in its popup before; from that `k` on the popup has stayed open and asking, and
/// no `y`, Enter, `n` or Esc was pressed until the one that confirmed the kill.
pub proof fn no_kill_without_two_keys(steps: Seq<Step>, id: Seq<char>)
    requires
        possible(steps),
        after(steps).due == (ActionView::Kill { id }),
    ensures
        steps.last() matches Step::Key(key, _) && (key == press(KeyCode::Char('y')) || key == press(
            KeyCode::Enter,
        )),
        exists|i: int|
            #[trigger] asking_since(steps.drop_last(), i, id) && forall|j: int|
                i < j < steps.len() - 1 ==> !answers(#[trigger] steps[j]),
{
    let front = steps.drop_last();
    every_state_is_sound(front);
    questions_have_a_cause(front, id);
    let i = choose|i: int| asking_since(front, i, id);
    assert forall|j: int| i < j < steps.len() - 1 implies !answers(#[trigger] steps[j]) by {
        unanswered(front, i, id, j);
        assert(front[j] == steps[j]);
    }
}

/// In every session: the program is to be left exactly when the last thing that happened is
/// a press of `q` or Esc in the table; no screen, no result of a kill and none of an
/// inspection ends it.
pub proof fn left_only_by_a_key(steps: Seq<Step>)
    requires
        possible(steps),
    ensures
        after(steps).due is Quit <==> steps.len() > 0 && in_table(after(steps.drop_last()).ui) && (
        steps.last() matches Step::Key(key, _) && (key == press(KeyCode::Char('q')) || key == press(
            KeyCode::Esc,
        ))),
{
}

} // verus!
