//! The state of the user interface, and what each key does to it.

use crate::detail::{DetailState, Inspect};
use crate::order::{comparable, stably_sorted, visible_rows};
use crate::rows::{filtered, ContainerRow, Sort};
use crate::text::{opt_text, short_form, short_id, short_id_defined};
use vstd::prelude::*;
use vstd::string::*;

verus! {

/// What the keyboard reports of a key.
#[derive(Clone, Copy, Debug, PartialEq, Eq, Structural)]
pub enum KeyKind {
    Press,
    Repeat,
    Release,
}

/// A key.
#[derive(Clone, Copy, Debug, PartialEq, Eq, Structural)]
pub enum KeyCode {
    Esc,
    Enter,
    Backspace,
    Up,
    Down,
    Char(char),
    Other,
}

/// Something that happened to a key.
#[derive(Clone, Copy, Debug, PartialEq, Eq)]
pub struct KeyEvent {
    pub kind: KeyKind,
    pub code: KeyCode,
}

/// What lies on the screen.
#[derive(Debug, PartialEq, Eq)]
pub enum Screen {
    Table,
    Detail(DetailState),
}

/// The state of the user interface.
#[derive(Debug, PartialEq, Eq)]
pub struct Ui {
    pub selected: Option<usize>,
    pub sort: Sort,
    pub filter: String,
    pub editing_filter: bool,
    pub screen: Screen,
}

/// What is to be done about a key, beside what it does to the state.
#[derive(Debug, PartialEq, Eq)]
pub enum Action {
    /// Nothing.
    Stay,
    /// Leave the program.
    Quit,
    /// Kill that container and report the result to `kill_finished`.
    Kill { id: String },
    /// Inspect that container and report the result to `inspect_finished`.
    Inspect { id: String, name: String },
}

/// The signal that a kill sends.
pub fn kill_signal() -> (r: &'static str)
    ensures
        r@ == "SIGKILL"@,
{
    "SIGKILL"
}

/// What the popup shows of its state.
pub struct DetailView {
    pub id: Seq<char>,
    pub name: Seq<char>,
    pub inspect: Option<Inspect>,
    pub confirming_kill: bool,
    pub status_msg: Option<Seq<char>>,
    pub is_error: bool,
}

impl View for DetailState {
    type V = DetailView;

    open spec fn view(&self) -> DetailView {
        DetailView {
            id: self.id@,
            name: self.name@,
            inspect: self.inspect,
            confirming_kill: self.confirming_kill,
            status_msg: opt_text(self.status_msg),
            is_error: self.is_error,
        }
    }
}

/// What lies on the screen.
pub enum ScreenView {
    Table,
    Detail(DetailView),
}

impl View for Screen {
    type V = ScreenView;

    open spec fn view(&self) -> ScreenView {
        match self {
            Screen::Table => ScreenView::Table,
            Screen::Detail(d) => ScreenView::Detail(d@),
        }
    }
}

/// The state of the user interface.
pub struct UiView {
    pub selected: Option<usize>,
    pub sort: Sort,
    pub filter: Seq<char>,
    pub editing_filter: bool,
    pub screen: ScreenView,
}

impl View for Ui {
    type V = UiView;

    open spec fn view(&self) -> UiView {
        UiView {
            selected: self.selected,
            sort: self.sort,
            filter: self.filter@,
            editing_filter: self.editing_filter,
            screen: self.screen@,
        }
    }
}

/// What is to be done about a key.
pub enum ActionView {
    Stay,
    Quit,
    Kill { id: Seq<char> },
    Inspect { id: Seq<char>, name: Seq<char> },
}

impl View for Action {
    type V = ActionView;

    open spec fn view(&self) -> ActionView {
        match self {
            Action::Stay => ActionView::Stay,
            Action::Quit => ActionView::Quit,
            Action::Kill { id } => ActionView::Kill { id: id@ },
            Action::Inspect { id, name } => ActionView::Inspect { id: id@, name: name@ },
        }
    }
}

/// The selected row, the first one if none is selected.
pub open spec fn cursor(ui: UiView) -> int {
    match ui.selected {
        Some(i) => i as int,
        None => 0,
    }
}

/// The selection put on row `to`, or on the last of `n` rows if there is no such row;
/// with no rows there is none.
pub open spec fn select(ui: UiView, to: int, n: int) -> UiView {
    let selected = if n == 0 {
        None
    } else if to < n {
        Some(to as usize)
    } else {
        Some((n - 1) as usize)
    };
    UiView { selected, ..ui }
}

/// What a key does in the table.
pub open spec fn table_key(ui: UiView, code: KeyCode, rows: Seq<ContainerRow>) -> (UiView, ActionView) {
    let n = rows.len() as int;
    match code {
        KeyCode::Char('q') | KeyCode::Esc => (ui, ActionView::Quit),
        KeyCode::Char('j') | KeyCode::Down => (
            if n == 0 {
                ui
            } else {
                select(ui, cursor(ui) + 1, n)
            },
            ActionView::Stay,
        ),
        KeyCode::Char('k') | KeyCode::Up => (
            if n == 0 {
                ui
            } else {
                UiView {
                    selected: Some(
                        if cursor(ui) > 0 {
                            (cursor(ui) - 1) as usize
                        } else {
                            0
                        },
                    ),
                    ..ui
                }
            },
            ActionView::Stay,
        ),
        KeyCode::Char('s') => (UiView { sort: ui.sort.successor(), ..ui }, ActionView::Stay),
        KeyCode::Char('c') => (UiView { sort: Sort::Cpu, ..ui }, ActionView::Stay),
        KeyCode::Char('m') => (UiView { sort: Sort::Mem, ..ui }, ActionView::Stay),
        KeyCode::Char('n') => (UiView { sort: Sort::Name, ..ui }, ActionView::Stay),
        KeyCode::Char('/') => (UiView { editing_filter: true, ..ui }, ActionView::Stay),
        KeyCode::Enter => (
            ui,
            if ui.selected is Some && (ui.selected->0 as int) < n {
                let row = rows[ui.selected->0 as int];
                ActionView::Inspect { id: row.id@, name: row.name@ }
            } else {
                ActionView::Stay
            },
        ),
        _ => (ui, ActionView::Stay),
    }
}

/// What a key does while the filter is edited.
pub open spec fn filter_key(ui: UiView, code: KeyCode) -> UiView {
    match code {
        KeyCode::Esc => UiView { filter: Seq::empty(), editing_filter: false, ..ui },
        KeyCode::Enter => UiView { editing_filter: false, ..ui },
        KeyCode::Backspace => UiView {
            filter: if ui.filter.len() == 0 {
                ui.filter
            } else {
                ui.filter.drop_last()
            },
            ..ui
        },
        KeyCode::Char(c) => UiView { filter: ui.filter.push(c), ..ui },
        _ => ui,
    }
}

/// The popup, asking whether to kill or not.
pub open spec fn confirming(ui: UiView, d: DetailView, asking: bool) -> UiView {
    UiView { screen: ScreenView::Detail(DetailView { confirming_kill: asking, ..d }), ..ui }
}

/// What a key does in the popup `d`.
pub open spec fn popup_key(ui: UiView, d: DetailView, code: KeyCode) -> (UiView, ActionView) {
    if d.confirming_kill {
        match code {
            KeyCode::Char('y') | KeyCode::Enter => (ui, ActionView::Kill { id: d.id }),
            KeyCode::Char('n') | KeyCode::Esc => (confirming(ui, d, false), ActionView::Stay),
            _ => (ui, ActionView::Stay),
        }
    } else {
        match code {
            KeyCode::Char('k') => (confirming(ui, d, true), ActionView::Stay),
            KeyCode::Char('q') | KeyCode::Char('n') | KeyCode::Esc => (
                UiView { screen: ScreenView::Table, ..ui },
                ActionView::Stay,
            ),
            _ => (ui, ActionView::Stay),
        }
    }
}

/// What an event does to the state, and what is to be done about it.
pub open spec fn respond(ui: UiView, key: KeyEvent, rows: Seq<ContainerRow>) -> (UiView, ActionView) {
    if key.kind != KeyKind::Press {
        (ui, ActionView::Stay)
    } else {
        match ui.screen {
            ScreenView::Detail(d) => popup_key(ui, d, key.code),
            ScreenView::Table => if ui.editing_filter {
                (filter_key(ui, key.code), ActionView::Stay)
            } else {
                table_key(ui, key.code, rows)
            },
        }
    }
}

/// The state after a kill: the popup tells how it went and asks no more.
pub open spec fn after_kill(ui: UiView, failure: Option<Seq<char>>) -> UiView {
    match ui.screen {
        ScreenView::Detail(d) => UiView {
            screen: ScreenView::Detail(
                DetailView {
                    status_msg: Some(
                        match failure {
                            None => "killed "@ + short_form(d.id),
                            Some(reason) => "kill failed: "@ + reason,
                        },
                    ),
                    is_error: failure is Some,
                    confirming_kill: false,
                    ..d
                },
            ),
            ..ui
        },
        ScreenView::Table => ui,
    }
}

/// The state after an inspection: a new popup, with what was found or why nothing was.
pub open spec fn after_inspect(
    ui: UiView,
    id: Seq<char>,
    name: Seq<char>,
    result: Result<Inspect, Seq<char>>,
) -> UiView {
    UiView {
        screen: ScreenView::Detail(
            DetailView {
                id,
                name,
                inspect: match result {
                    Ok(found) => Some(found),
                    Err(_) => None,
                },
                confirming_kill: false,
                status_msg: match result {
                    Ok(_) => None,
                    Err(reason) => Some("inspect failed: "@ + reason),
                },
                is_error: result is Err,
            },
        ),
        ..ui
    }
}

impl Ui {
    /// The row below the selected one has a number too.
    pub open spec fn wf(self) -> bool {
        self.selected != Some(usize::MAX)
    }

    /// The state at the start: the table, sorted by CPU, unfiltered, on its first row.
    pub fn new() -> (r: Ui)
        ensures
            r.wf(),
            r@ == (UiView {
                selected: Some(0),
                sort: Sort::Cpu,
                filter: Seq::empty(),
                editing_filter: false,
                screen: ScreenView::Table,
            }),
    {
        Ui {
            selected: Some(0),
            sort: Sort::Cpu,
            filter: String::new(),
            editing_filter: false,
            screen: Screen::Table,
        }
    }

    /// Moves the selection onto the `n` rows that there are.
    pub fn clamp_selection(&mut self, n: usize)
        ensures
            final(self).wf(),
            final(self)@ == select(old(self)@, cursor(old(self)@), n as int),
    {
        if n == 0 {
            self.selected = None;
        } else {
            let at: usize = self.selected.unwrap_or(0);
            self.selected = Some(
                if at < n {
                    at
                } else {
                    n - 1
                },
            );
        }
    }

    /// The rows to be shown of a snapshot, with the selection moved onto them; nothing if
    /// they cannot be compared.
    pub fn prepare(&mut self, rows: &Vec<ContainerRow>) -> (r: Option<Vec<ContainerRow>>)
        requires
            old(self).wf(),
        ensures
            final(self).wf(),
            r is Some <==> comparable(old(self).sort, filtered(rows@, old(self).filter@)),
            r is None ==> final(self)@ == old(self)@,
            r matches Some(shown) ==> {
                &&& stably_sorted(old(self).sort, filtered(rows@, old(self).filter@), shown@)
                &&& final(self)@ == select(old(self)@, cursor(old(self)@), shown@.len() as int)
            },
    {
        match visible_rows(rows, self.filter.as_str(), self.sort) {
            Some(shown) => {
                self.clamp_selection(shown.len());
                Some(shown)
            },
            None => None,
        }
    }

    fn on_popup_key(&mut self, code: KeyCode) -> (r: Action)
        requires
            old(self).wf(),
            old(self).screen is Detail,
        ensures
            final(self).wf(),
            (final(self)@, r@) == popup_key(old(self)@, old(self)@.screen->Detail_0, code),
    {
        let mut close = false;
        let mut action = Action::Stay;
        if let Screen::Detail(d) = &mut self.screen {
            if d.confirming_kill {
                match code {
                    KeyCode::Char('y') | KeyCode::Enter => {
                        action = Action::Kill { id: d.id.clone() };
                    },
                    KeyCode::Char('n') | KeyCode::Esc => {
                        d.confirming_kill = false;
                    },
                    _ => {},
                }
            } else {
                match code {
                    KeyCode::Char('k') => {
                        d.confirming_kill = true;
                    },
                    KeyCode::Char('q') | KeyCode::Char('n') | KeyCode::Esc => {
                        close = true;
                    },
                    _ => {},
                }
            }
        }
        if close {
            self.screen = Screen::Table;
        }
        action
    }

    fn on_filter_key(&mut self, code: KeyCode)
        requires
            old(self).wf(),
        ensures
            final(self).wf(),
            final(self)@ == filter_key(old(self)@, code),
    {
        match code {
            KeyCode::Esc => {
                self.filter = String::new();
                self.editing_filter = false;
            },
            KeyCode::Enter => {
                self.editing_filter = false;
            },
            KeyCode::Backspace => {
                let _ = self.filter.pop();
            },
            KeyCode::Char(c) => {
                self.filter.push(c);
            },
            _ => {},
        }
    }

    fn on_table_key(&mut self, code: KeyCode, rows: &Vec<ContainerRow>) -> (r: Action)
        requires
            old(self).wf(),
        ensures
            final(self).wf(),
            (final(self)@, r@) == table_key(old(self)@, code, rows@),
    {
        match code {
            KeyCode::Char('q') | KeyCode::Esc => {
                return Action::Quit;
            },
            KeyCode::Down | KeyCode::Char('j') => {
                if rows.len() > 0 {
                    let i: usize = self.selected.unwrap_or(0);
                    let last: usize = rows.len() - 1;
                    self.selected = Some(
                        if i + 1 < last {
                            i + 1
                        } else {
                            last
                        },
                    );
                }
            },
            KeyCode::Up | KeyCode::Char('k') => {
                if rows.len() > 0 {
                    let i: usize = self.selected.unwrap_or(0);
                    self.selected = Some(i.saturating_sub(1));
                }
            },
            KeyCode::Char('s') => {
                self.sort = self.sort.next();
            },
            KeyCode::Char('c') => {
                self.sort = Sort::Cpu;
            },
            KeyCode::Char('m') => {
                self.sort = Sort::Mem;
            },
            KeyCode::Char('n') => {
                self.sort = Sort::Name;
            },
            KeyCode::Char('/') => {
                self.editing_filter = true;
            },
            KeyCode::Enter => {
                if let Some(i) = self.selected {
                    if i < rows.len() {
                        return Action::Inspect { id: rows[i].id.clone(), name: rows[i].name.clone() };
                    }
                }
            },
            _ => {},
        }
        Action::Stay
    }

    /// Lets a key do its work on the state and tells what else is to be done; `rows` are
    /// the rows on the screen.
    pub fn handle_key(&mut self, key: KeyEvent, rows: &Vec<ContainerRow>) -> (r: Action)
        requires
            old(self).wf(),
        ensures
            final(self).wf(),
            (final(self)@, r@) == respond(old(self)@, key, rows@),
    {
        if key.kind != KeyKind::Press {
            return Action::Stay;
        }
        let in_popup = match &self.screen {
            Screen::Detail(_) => true,
            Screen::Table => false,
        };
        if in_popup {
            self.on_popup_key(key.code)
        } else if self.editing_filter {
            self.on_filter_key(key.code);
            Action::Stay
        } else {
            self.on_table_key(key.code, rows)
        }
    }

    /// Takes the result of a kill: success, or why it failed.
    pub fn kill_finished(&mut self, result: Result<(), String>)
        requires
            old(self).wf(),
            old(self).screen matches Screen::Detail(d) ==> result is Ok ==> short_id_defined(d.id@),
        ensures
            final(self).wf(),
            final(self)@ == after_kill(
                old(self)@,
                match result {
                    Ok(_) => None,
                    Err(reason) => Some(reason@),
                },
            ),
    {
        if let Screen::Detail(d) = &mut self.screen {
            match result {
                Ok(_) => {
                    let mut told = "killed ".to_owned();
                    told.append(short_id(d.id.as_str()));
                    d.status_msg = Some(told);
                    d.is_error = false;
                },
                Err(reason) => {
                    let mut told = "kill failed: ".to_owned();
                    told.append(reason.as_str());
                    d.status_msg = Some(told);
                    d.is_error = true;
                },
            }
            d.confirming_kill = false;
        }
    }

    /// Takes the result of an inspection: what was found, or why nothing was.
    pub fn inspect_finished(&mut self, id: String, name: String, result: Result<Inspect, String>)
        requires
            old(self).wf(),
        ensures
            final(self).wf(),
            final(self)@ == after_inspect(
                old(self)@,
                id@,
                name@,
                match result {
                    Ok(found) => Ok(found),
                    Err(reason) => Err(reason@),
                },
            ),
    {
        let detail = match result {
            Ok(found) => DetailState {
                id,
                name,
                inspect: Some(found),
                confirming_kill: false,
                status_msg: None,
                is_error: false,
            },
            Err(reason) => {
                let mut told = "inspect failed: ".to_owned();
                told.append(reason.as_str());
                DetailState {
                    id,
                    name,
                    inspect: None,
                    confirming_kill: false,
                    status_msg: Some(told),
                    is_error: true,
                }
            },
        };
        self.screen = Screen::Detail(detail);
    }
}

} // verus!
