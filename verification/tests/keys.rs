use dockerwatch::detail::{DetailState, Inspect};
use dockerwatch::percent::Percent;
use dockerwatch::rows::{ContainerRow, Cores, Sort};
use dockerwatch::ui::{kill_signal, Action, KeyCode, KeyEvent, KeyKind, Screen, Ui};

fn row(id: &str, name: &str) -> ContainerRow {
    ContainerRow {
        id: id.to_string(),
        name: name.to_string(),
        image: String::new(),
        status: String::new(),
        cpu_pct: Percent { bits: 0, text: "0.00".to_string() },
        cores: Cores { short: "0.00".to_string(), long: "0.000".to_string() },
        mem_usage: 0,
        mem_limit: 0,
        mem_pct: Percent { bits: 0, text: "0.00".to_string() },
    }
}

fn rows() -> Vec<ContainerRow> {
    vec![row("aaa", "one"), row("bbb", "two"), row("ccc", "three")]
}

fn press(ui: &mut Ui, code: KeyCode) -> Action {
    ui.handle_key(KeyEvent { kind: KeyKind::Press, code }, &rows())
}

fn nothing_found() -> Inspect {
    Inspect {
        image: None,
        config: None,
        state: None,
        created: None,
        network_settings: None,
        host_config: None,
    }
}

fn popup(ui: &Ui) -> &DetailState {
    match &ui.screen {
        Screen::Detail(d) => d,
        Screen::Table => panic!("no popup"),
    }
}

fn with_popup() -> Ui {
    let mut ui = Ui::new();
    ui.inspect_finished("aaa".to_string(), "one".to_string(), Ok(nothing_found()));
    ui
}

#[test]
fn starts_on_the_first_row_sorted_by_cpu() {
    let ui = Ui::new();
    assert_eq!(ui.selected, Some(0));
    assert_eq!(ui.sort, Sort::Cpu);
    assert_eq!(ui.filter, "");
    assert!(!ui.editing_filter);
    assert_eq!(ui.screen, Screen::Table);
}

#[test]
fn sort_cycles_through_three_orders() {
    assert_eq!(Sort::Cpu.next(), Sort::Mem);
    assert_eq!(Sort::Mem.next(), Sort::Name);
    assert_eq!(Sort::Name.next(), Sort::Cpu);
    assert_eq!(Sort::Cpu.label(), "CPU%");
    assert_eq!(Sort::Mem.label(), "MEM%");
    assert_eq!(Sort::Name.label(), "NAME");
}

#[test]
fn sort_keys_jump_and_cycle() {
    let mut ui = Ui::new();
    assert_eq!(press(&mut ui, KeyCode::Char('n')), Action::Stay);
    assert_eq!(ui.sort, Sort::Name);
    press(&mut ui, KeyCode::Char('m'));
    assert_eq!(ui.sort, Sort::Mem);
    press(&mut ui, KeyCode::Char('c'));
    assert_eq!(ui.sort, Sort::Cpu);
    press(&mut ui, KeyCode::Char('s'));
    assert_eq!(ui.sort, Sort::Mem);
    press(&mut ui, KeyCode::Char('s'));
    press(&mut ui, KeyCode::Char('s'));
    assert_eq!(ui.sort, Sort::Cpu);
}

#[test]
fn selection_moves_and_stops_at_the_ends() {
    let mut ui = Ui::new();
    press(&mut ui, KeyCode::Up);
    assert_eq!(ui.selected, Some(0));
    press(&mut ui, KeyCode::Down);
    press(&mut ui, KeyCode::Char('j'));
    assert_eq!(ui.selected, Some(2));
    press(&mut ui, KeyCode::Down);
    assert_eq!(ui.selected, Some(2));
    press(&mut ui, KeyCode::Char('k'));
    assert_eq!(ui.selected, Some(1));
    press(&mut ui, KeyCode::Up);
    assert_eq!(ui.selected, Some(0));
}

#[test]
fn selection_needs_rows() {
    let mut ui = Ui::new();
    ui.selected = None;
    let none = Vec::new();
    ui.handle_key(KeyEvent { kind: KeyKind::Press, code: KeyCode::Down }, &none);
    assert_eq!(ui.selected, None);
    let action = ui.handle_key(KeyEvent { kind: KeyKind::Press, code: KeyCode::Enter }, &none);
    assert_eq!(action, Action::Stay);
    press(&mut ui, KeyCode::Down);
    assert_eq!(ui.selected, Some(1));
}

#[test]
fn selection_is_clamped_to_the_rows() {
    let mut ui = Ui::new();
    ui.selected = Some(7);
    ui.clamp_selection(3);
    assert_eq!(ui.selected, Some(2));
    ui.clamp_selection(0);
    assert_eq!(ui.selected, None);
    ui.clamp_selection(3);
    assert_eq!(ui.selected, Some(0));
}

#[test]
fn prepare_filters_sorts_and_clamps() {
    let mut ui = Ui::new();
    ui.sort = Sort::Name;
    ui.selected = Some(2);
    ui.filter = "T".to_string();
    let shown = ui.prepare(&rows()).unwrap();
    let names: Vec<&str> = shown.iter().map(|r| r.name.as_str()).collect();
    assert_eq!(names, ["three", "two"]);
    assert_eq!(ui.selected, Some(1));
}

#[test]
fn prepare_refuses_what_is_no_number() {
    let mut ui = Ui::new();
    let mut list = rows();
    list[0].cpu_pct.bits = f64::NAN.to_bits();
    assert!(ui.prepare(&list).is_none());
    assert_eq!(ui.selected, Some(0));
    ui.filter = "three".to_string();
    assert_eq!(ui.prepare(&list).unwrap().len(), 1);
}

#[test]
fn q_and_esc_quit_from_the_table() {
    let mut ui = Ui::new();
    assert_eq!(press(&mut ui, KeyCode::Char('q')), Action::Quit);
    assert_eq!(press(&mut ui, KeyCode::Esc), Action::Quit);
}

#[test]
fn other_keys_and_releases_do_nothing() {
    let mut ui = Ui::new();
    assert_eq!(press(&mut ui, KeyCode::Other), Action::Stay);
    assert_eq!(press(&mut ui, KeyCode::Char('x')), Action::Stay);
    assert_eq!(press(&mut ui, KeyCode::Backspace), Action::Stay);
    let release = KeyEvent { kind: KeyKind::Release, code: KeyCode::Char('q') };
    assert_eq!(ui.handle_key(release, &rows()), Action::Stay);
    let repeat = KeyEvent { kind: KeyKind::Repeat, code: KeyCode::Char('s') };
    assert_eq!(ui.handle_key(repeat, &rows()), Action::Stay);
    assert_eq!(ui, Ui::new());
}

#[test]
fn filter_takes_every_character() {
    let mut ui = Ui::new();
    press(&mut ui, KeyCode::Char('/'));
    assert!(ui.editing_filter);
    for c in "qdrané".chars() {
        assert_eq!(press(&mut ui, KeyCode::Char(c)), Action::Stay);
    }
    assert_eq!(ui.filter, "qdrané");
    press(&mut ui, KeyCode::Backspace);
    assert_eq!(ui.filter, "qdran");
    press(&mut ui, KeyCode::Down);
    assert_eq!(ui.selected, Some(0));
    press(&mut ui, KeyCode::Enter);
    assert!(!ui.editing_filter);
    assert_eq!(ui.filter, "qdran");
}

#[test]
fn esc_clears_the_filter() {
    let mut ui = Ui::new();
    press(&mut ui, KeyCode::Char('/'));
    press(&mut ui, KeyCode::Char('x'));
    assert_eq!(press(&mut ui, KeyCode::Esc), Action::Stay);
    assert_eq!(ui, Ui::new());
    press(&mut ui, KeyCode::Char('/'));
    press(&mut ui, KeyCode::Backspace);
    assert_eq!(ui.filter, "");
    assert!(ui.editing_filter);
}

#[test]
fn editing_goes_on_behind_the_old_filter() {
    let mut ui = Ui::new();
    for code in [
        KeyCode::Char('/'),
        KeyCode::Char('a'),
        KeyCode::Enter,
        KeyCode::Char('/'),
        KeyCode::Char('b'),
        KeyCode::Enter,
    ] {
        press(&mut ui, code);
    }
    assert_eq!(ui.filter, "ab");
}

#[test]
fn enter_inspects_the_selected_row() {
    let mut ui = Ui::new();
    press(&mut ui, KeyCode::Down);
    let action = press(&mut ui, KeyCode::Enter);
    assert_eq!(action, Action::Inspect { id: "bbb".to_string(), name: "two".to_string() });
    assert_eq!(ui.screen, Screen::Table);
    ui.selected = Some(9);
    assert_eq!(press(&mut ui, KeyCode::Enter), Action::Stay);
}

#[test]
fn inspection_opens_the_popup() {
    let ui = with_popup();
    let d = popup(&ui);
    assert_eq!(d.id, "aaa");
    assert_eq!(d.name, "one");
    assert_eq!(d.inspect, Some(nothing_found()));
    assert_eq!(d.status_msg, None);
    assert!(!d.is_error && !d.confirming_kill);
}

#[test]
fn failed_inspection_is_told() {
    let mut ui = Ui::new();
    ui.inspect_finished("aaa".to_string(), "one".to_string(), Err("no such container".to_string()));
    let d = popup(&ui);
    assert_eq!(d.inspect, None);
    assert_eq!(d.status_msg.as_deref(), Some("inspect failed: no such container"));
    assert!(d.is_error);
}

#[test]
fn popup_is_closed_by_q_n_and_esc() {
    for code in [KeyCode::Char('q'), KeyCode::Char('n'), KeyCode::Esc] {
        let mut ui = with_popup();
        assert_eq!(press(&mut ui, code), Action::Stay);
        assert_eq!(ui, Ui::new());
    }
}

#[test]
fn kill_asks_first() {
    let mut ui = with_popup();
    assert_eq!(press(&mut ui, KeyCode::Char('y')), Action::Stay);
    assert_eq!(press(&mut ui, KeyCode::Enter), Action::Stay);
    assert_eq!(press(&mut ui, KeyCode::Char('k')), Action::Stay);
    assert!(popup(&ui).confirming_kill);
    assert_eq!(press(&mut ui, KeyCode::Char('y')), Action::Kill { id: "aaa".to_string() });
    assert_eq!(press(&mut ui, KeyCode::Enter), Action::Kill { id: "aaa".to_string() });
    assert_eq!(kill_signal(), "SIGKILL");
}

#[test]
fn kill_question_ignores_other_keys() {
    let mut ui = with_popup();
    press(&mut ui, KeyCode::Char('k'));
    for code in [KeyCode::Char('q'), KeyCode::Char('k'), KeyCode::Down, KeyCode::Other] {
        assert_eq!(press(&mut ui, code), Action::Stay);
        assert!(popup(&ui).confirming_kill);
    }
}

#[test]
fn kill_question_is_cancelled_by_n_and_esc() {
    for code in [KeyCode::Char('n'), KeyCode::Esc] {
        let mut ui = with_popup();
        press(&mut ui, KeyCode::Char('k'));
        assert_eq!(press(&mut ui, code), Action::Stay);
        assert_eq!(ui, with_popup());
        assert_eq!(press(&mut ui, KeyCode::Char('y')), Action::Stay);
        assert_eq!(press(&mut ui, KeyCode::Enter), Action::Stay);
    }
}

#[test]
fn n_cancels_the_question_and_then_closes_the_popup() {
    let mut ui = Ui::new();
    press(&mut ui, KeyCode::Down);
    press(&mut ui, KeyCode::Char('m'));
    ui.inspect_finished("bbb".to_string(), "two".to_string(), Ok(nothing_found()));
    press(&mut ui, KeyCode::Char('k'));
    assert_eq!(press(&mut ui, KeyCode::Char('n')), Action::Stay);
    assert!(!popup(&ui).confirming_kill);
    assert_eq!(press(&mut ui, KeyCode::Char('n')), Action::Stay);
    assert_eq!(ui.screen, Screen::Table);
    assert_eq!(ui.selected, Some(1));
    assert_eq!(ui.sort, Sort::Mem);
}

#[test]
fn kill_reports_success() {
    let mut ui = Ui::new();
    ui.inspect_finished("0123456789abcdef".to_string(), "one".to_string(), Ok(nothing_found()));
    press(&mut ui, KeyCode::Char('k'));
    ui.kill_finished(Ok(()));
    let d = popup(&ui);
    assert_eq!(d.status_msg.as_deref(), Some("killed 0123456789ab"));
    assert!(!d.is_error && !d.confirming_kill);
    assert_eq!(press(&mut ui, KeyCode::Char('y')), Action::Stay);
}

#[test]
fn kill_reports_failure() {
    let mut ui = with_popup();
    press(&mut ui, KeyCode::Char('k'));
    ui.kill_finished(Err("not running".to_string()));
    let d = popup(&ui);
    assert_eq!(d.status_msg.as_deref(), Some("kill failed: not running"));
    assert!(d.is_error && !d.confirming_kill);
}

#[test]
fn kill_result_without_popup_is_ignored() {
    let mut ui = Ui::new();
    ui.kill_finished(Ok(()));
    assert_eq!(ui, Ui::new());
}

#[test]
fn popup_keys_leave_the_table_alone() {
    let mut ui = with_popup();
    for code in [KeyCode::Down, KeyCode::Char('s'), KeyCode::Char('/'), KeyCode::Char('m')] {
        press(&mut ui, code);
    }
    assert_eq!(ui, with_popup());
}
