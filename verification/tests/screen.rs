use dockerwatch::detail::{
    build_detail_lines, field, live_readings, Config, DetailState, HostConfig, Inspect, Network,
    NetworkSettings, Port, RestartPolicy, State,
};
use dockerwatch::docker::Snapshot;
use dockerwatch::footer::draw_footer;
use dockerwatch::header::{describe_count, describe_cpu, describe_mem, draw_header, header_with, Load};
use dockerwatch::layout::{centered_fixed, has_place, line_count, popup_area, Area, Extent};
use dockerwatch::panel::{draw_detail, make_meter, MeterRows, Panel};
use dockerwatch::percent::Percent;
use dockerwatch::popup::{can_draw_popup, draw_popup, find_row};
use dockerwatch::rows::{ContainerRow, Cores, Sort};
use dockerwatch::scene::draw;
use dockerwatch::sizes::{mem_reading, usage_text};
use dockerwatch::style::{
    badge, bold, bold_colored, bold_on, colored, colored_on, dim, plain, Color, Line, Style,
};
use dockerwatch::table::{draw_table, row_line};
use dockerwatch::ui::{Screen, Ui};

fn pct(value: f64, decimals: usize) -> Percent {
    Percent { bits: value.to_bits(), text: format!("{:.*}", decimals, value) }
}

fn row(id: &str, name: &str) -> ContainerRow {
    ContainerRow {
        id: id.to_string(),
        name: name.to_string(),
        image: "nginx".to_string(),
        status: "Up 2 hours".to_string(),
        cpu_pct: pct(55.5, 2),
        cores: Cores { short: "4.44".to_string(), long: "4.440".to_string() },
        mem_usage: 1536,
        mem_limit: 1024 * 1024 * 1024,
        mem_pct: pct(1.25, 2),
    }
}

fn snapshot() -> Snapshot {
    Snapshot {
        rows: vec![row("aaa", "web"), row("bbb", "db")],
        host_mem_total: 8 * 1024 * 1024 * 1024,
        host_ncpu: 8,
        error: None,
        fetched_at: Some(1_000_000_000),
    }
}

fn load() -> Load {
    Load { cpu_pct: pct(91.0, 1), cores_in_use: "7.28".to_string(), mem_pct: pct(12.5, 1) }
}

fn area(x: u16, y: u16, width: u16, height: u16) -> Area {
    Area { x, y, width, height }
}

fn spans(line: &Line) -> Vec<(&str, Style)> {
    line.spans.iter().map(|s| (s.text.as_str(), s.style)).collect()
}

fn texts(line: &Line) -> String {
    line.spans.iter().map(|s| s.text.as_str()).collect()
}

fn detail() -> DetailState {
    DetailState {
        id: "aaa".to_string(),
        name: "web".to_string(),
        inspect: None,
        confirming_kill: false,
        status_msg: None,
        is_error: false,
    }
}

fn some(text: &str) -> Option<String> {
    Some(text.to_string())
}

fn full_inspect() -> Inspect {
    Inspect {
        image: some("sha256:1"),
        config: Some(Config {
            image: some("nginx:1"),
            cmd: Some(vec!["nginx".to_string(), "-g".to_string()]),
            entrypoint: Some(vec!["/entry.sh".to_string()]),
            working_dir: some("/srv"),
        }),
        state: Some(State { status: some("RUNNING"), pid: Some(4242), started_at: some("today") }),
        created: some("yesterday"),
        network_settings: Some(NetworkSettings {
            networks: Some(vec![
                Network { name: "bridge".to_string(), ip_address: some("172.17.0.2") },
                Network { name: "none".to_string(), ip_address: some("") },
                Network { name: "lost".to_string(), ip_address: None },
            ]),
            ports: Some(vec![
                Port { port: "80/tcp".to_string(), bindings: Some(vec![some("8080"), some("")]) },
                Port { port: "443/tcp".to_string(), bindings: None },
                Port { port: "53/udp".to_string(), bindings: Some(vec![None]) },
            ]),
        }),
        host_config: Some(HostConfig {
            restart_policy: Some(RestartPolicy { name: some("ALWAYS") }),
        }),
    }
}

fn empty_inspect() -> Inspect {
    Inspect {
        image: None,
        config: None,
        state: None,
        created: None,
        network_settings: None,
        host_config: None,
    }
}

#[test]
fn fields_are_labelled() {
    let line = field("name", "web");
    assert_eq!(spans(&line), [("       name: ", colored(Color::DarkGray)), ("web", plain())]);
}

#[test]
fn popup_tells_all_that_is_known() {
    let d = DetailState { inspect: Some(full_inspect()), ..detail() };
    let lines = build_detail_lines(&d, Some(&row("aaa", "web")), 8);
    let told: Vec<String> = lines.iter().map(texts).collect();
    assert_eq!(
        told,
        [
            "         id: aaa",
            "       name: web",
            "      image: sha256:1",
            "        tag: nginx:1",
            "        cmd: nginx -g",
            " entrypoint: /entry.sh",
            "    workdir: /srv",
            "      state: RUNNING",
            "        pid: 4242",
            "    started: today",
            "    created: yesterday",
            "   networks: bridge=172.17.0.2, none, lost",
            "      ports: 8080→80/tcp, ?→80/tcp, ?→53/udp",
            "    restart: ALWAYS",
            "       live: CPU 55.50%  (4.440 / 8 cores)    MEM 1.50 KiB / 1 GiB (1.25%)",
        ]
    );
}

#[test]
fn popup_leaves_out_what_is_missing() {
    let d = DetailState { inspect: Some(empty_inspect()), ..detail() };
    assert_eq!(build_detail_lines(&d, None, 8).len(), 2);
    let sparse = Inspect {
        config: Some(Config { image: None, cmd: None, entrypoint: None, working_dir: some("") }),
        state: Some(State { status: None, pid: Some(0), started_at: some("") }),
        network_settings: Some(NetworkSettings { networks: Some(vec![]), ports: Some(vec![]) }),
        host_config: Some(HostConfig { restart_policy: Some(RestartPolicy { name: None }) }),
        ..empty_inspect()
    };
    let d = DetailState { inspect: Some(sparse), ..detail() };
    assert_eq!(build_detail_lines(&d, None, 8).len(), 2);
}

#[test]
fn popup_waits_for_the_inspection() {
    let lines = build_detail_lines(&detail(), None, 8);
    assert_eq!(lines.len(), 3);
    assert_eq!(spans(&lines[2]), [("loading inspect...", colored(Color::DarkGray))]);
    let failed = DetailState { is_error: true, ..detail() };
    assert_eq!(build_detail_lines(&failed, None, 8).len(), 2);
}

#[test]
fn live_line_is_coloured_by_load() {
    let line = live_readings(&row("aaa", "web"), 0, "MEM x".to_string());
    assert_eq!(
        spans(&line),
        [
            ("       live: ", colored(Color::DarkGray)),
            ("CPU 55.50%", bold_colored(Color::Yellow)),
            ("", plain()),
            ("    ", plain()),
            ("MEM x", bold_colored(Color::Green)),
        ]
    );
}

#[test]
fn sizes_are_put_together() {
    assert_eq!(usage_text("1 KiB", "2 GiB"), "1 KiB / 2 GiB");
    assert_eq!(mem_reading("1 KiB", "2 GiB", "0.10"), "MEM 1 KiB / 2 GiB (0.10%)");
}

#[test]
fn header_counts_what_is_shown() {
    assert_eq!(describe_count(3, 3, "web"), "  containers: 3");
    assert_eq!(describe_count(2, 3, "web"), "  containers: 2/3");
    assert_eq!(describe_count(2, 3, ""), "  containers: 2");
}

#[test]
fn header_tells_the_load() {
    assert_eq!(describe_cpu(&load(), 8), "CPU 91.0% (7.28 / 8 cores)");
    assert_eq!(describe_cpu(&load(), 0), "CPU 91.0%");
    assert_eq!(describe_mem("1 GiB", Some("8 GiB"), "12.5"), "MEM 1 GiB / 8 GiB (12.5%)");
    assert_eq!(describe_mem("1 GiB", None, "0.0"), "MEM 1 GiB");
}

#[test]
fn header_is_complete() {
    let line = draw_header(&snapshot(), &load(), 1, Sort::Mem, "we", false, 1_250_999_999);
    assert_eq!(
        spans(&line),
        [
            (" dockerwatch ", badge(Color::Black, Color::Cyan)),
            ("  containers: 1/2", plain()),
            ("    ", plain()),
            ("CPU 91.0% (7.28 / 8 cores)", colored(Color::Red)),
            ("    ", plain()),
            ("MEM 3 KiB / 8 GiB (12.5%)", colored(Color::Green)),
            ("    sort: MEM%", plain()),
            ("    ", plain()),
            ("filter: /we", colored(Color::Yellow)),
            ("    updated 250ms ago", plain()),
        ]
    );
}

#[test]
fn header_tells_errors_first() {
    let broken = Snapshot { error: some("refused"), host_mem_total: 0, host_ncpu: 0, ..snapshot() };
    let line = header_with(&broken, &load(), "MEM 0 B".to_string(), 2, Sort::Cpu, "we", true, 0);
    assert_eq!(line.spans.len(), 9);
    assert_eq!(spans(&line)[8], ("error: refused", colored(Color::Red)));
    let fresh = Snapshot { fetched_at: None, ..snapshot() };
    let line = header_with(&fresh, &load(), "MEM 0 B".to_string(), 2, Sort::Cpu, "", false, 0);
    assert_eq!(line.spans.len(), 7);
    let early = header_with(&snapshot(), &load(), "MEM 0 B".to_string(), 2, Sort::Cpu, "", false, 0);
    assert_eq!(spans(&early)[7].0, "    updated 0ms ago");
}

#[test]
fn table_has_titles_and_cells() {
    let table = draw_table(&vec![row("aaa", "web")], Sort::Cpu);
    assert_eq!(table.title, " containers ");
    assert_eq!(table.marker, "▶ ");
    assert_eq!(table.highlight, bold_on(Color::DarkGray));
    assert_eq!(table.header_style, bold());
    assert_eq!(
        spans(&table.header),
        [
            ("ID", plain()),
            ("NAME", plain()),
            ("IMAGE", plain()),
            ("STATUS", plain()),
            ("CPU% ▼", colored(Color::Yellow)),
            ("CORES", colored(Color::Yellow)),
            ("MEM USAGE / LIMIT", plain()),
            ("MEM%", colored(Color::Magenta)),
        ]
    );
    assert_eq!(
        spans(&table.body[0]),
        [
            ("aaa", plain()),
            ("web", bold()),
            ("nginx", colored(Color::DarkGray)),
            ("Up 2 hours", plain()),
            (" 55.50", colored(Color::Yellow)),
            (" 4.440", colored(Color::Yellow)),
            ("1.50 KiB / 1 GiB", plain()),
            ("  1.25", colored(Color::Green)),
        ]
    );
    assert_eq!(table.widths.len(), 8);
    assert_eq!(table.widths[1], Extent::Percentage(20));
    assert_eq!(table.widths[6], Extent::Length(22));
}

#[test]
fn arrow_follows_the_order() {
    let by_name = draw_table(&Vec::new(), Sort::Name);
    assert_eq!(texts(&by_name.header), "IDNAME ▼IMAGESTATUSCPU%CORESMEM USAGE / LIMITMEM%");
    let by_mem = draw_table(&Vec::new(), Sort::Mem);
    assert_eq!(texts(&by_mem.header), "IDNAMEIMAGESTATUSCPU%CORESMEM USAGE / LIMITMEM% ▼");
    assert!(by_mem.body.is_empty());
}

#[test]
fn row_shows_the_given_usage() {
    assert_eq!(spans(&row_line(&row("aaa", "web"), "much".to_string()))[6], ("much", plain()));
}

#[test]
fn footer_has_three_forms() {
    let hints = draw_footer("x", false, &Screen::Table).unwrap();
    assert_eq!(
        texts(&hints),
        " q/Esc quit   ↑/↓ select   s cycle   c/m/n sort cpu/mem/name   / filter   Enter details"
    );
    assert_eq!(hints.spans[0].style, colored(Color::Cyan));
    let editor = draw_footer("web", true, &Screen::Table).unwrap();
    assert_eq!(
        spans(&editor),
        [
            (" filter ", badge(Color::Black, Color::Yellow)),
            (" /", plain()),
            ("web", bold()),
            ("█", colored(Color::Yellow)),
            ("    ", plain()),
            ("Enter", colored(Color::Cyan)),
            (" apply  ", plain()),
            ("Esc", colored(Color::Cyan)),
            (" clear", plain()),
        ]
    );
    assert!(draw_footer("web", true, &Screen::Detail(detail())).is_none());
}

#[test]
fn centering_leaves_equal_margins() {
    assert_eq!(centered_fixed(60, 10, area(0, 0, 100, 40)), area(20, 15, 60, 10));
    assert_eq!(centered_fixed(61, 11, area(3, 4, 100, 40)), area(22, 18, 61, 11));
    assert_eq!(centered_fixed(200, 50, area(3, 4, 100, 40)), area(3, 4, 100, 40));
}

#[test]
fn popup_fits_its_lines() {
    assert_eq!(popup_area(10, false, area(0, 0, 200, 50)), area(45, 18, 110, 13));
    assert_eq!(popup_area(10, true, area(0, 0, 90, 50)), area(2, 18, 86, 14));
    assert_eq!(popup_area(10, false, area(0, 0, 62, 8)), area(1, 0, 60, 8));
    assert_eq!(popup_area(10, false, area(0, 0, 40, 50)), area(0, 18, 40, 13));
    assert_eq!(popup_area(65536, false, area(0, 0, 40, 50)), area(0, 23, 40, 3));
    assert_eq!(line_count(65537), 1);
}

#[test]
fn popup_needs_coordinates() {
    assert!(has_place(10, false, area(0, 0, 100, 40)));
    assert!(has_place(10, false, area(65500, 0, 100, 40)));
    assert_eq!(popup_area(10, false, area(65500, 0, 100, 40)), area(65502, 13, 96, 13));
    assert!(!has_place(10, false, area(65534, 0, 100, 40)));
    assert!(has_place(10, false, area(0, 65522, 100, 40)));
    assert!(!has_place(10, false, area(0, 65523, 100, 40)));
    assert!(has_place(10, true, area(0, 65522, 100, 40)));

    assert!(can_draw_popup(area(0, 0, 100, 40), &detail(), &Vec::new()));
    assert!(!can_draw_popup(area(65535, 0, 100, 40), &detail(), &Vec::new()));
    assert!(!can_draw_popup(area(0, 65535, 100, 40), &detail(), &Vec::new()));
}

#[test]
fn panel_shows_the_selected_row() {
    let rows = vec![row("aaa", "web"), row("bbb", "db")];
    let Panel::Row { cpu, mem } = draw_detail(area(0, 30, 100, 5), &rows, Some(1), 8) else {
        panic!("no row");
    };
    assert_eq!(spans(&cpu.label), [("CPU", bold_colored(Color::Yellow))]);
    assert_eq!(
        spans(&cpu.value),
        [
            ("55.50%", bold_colored(Color::Yellow)),
            ("  ", plain()),
            ("4.44 / 8 cores", colored(Color::Cyan)),
        ]
    );
    assert_eq!(cpu.gauge, Color::Yellow);
    assert_eq!(cpu.bits, 55.5f64.to_bits());
    assert_eq!(
        cpu.rows,
        MeterRows { label: area(1, 31, 49, 1), value: area(1, 32, 49, 1), gauge: area(1, 33, 49, 1) }
    );
    assert_eq!(spans(&mem.label), [("MEM", bold_colored(Color::Magenta))]);
    assert_eq!(texts(&mem.value), "1.25%  1.50 KiB / 1 GiB");
    assert_eq!(mem.gauge, Color::Green);
    assert_eq!(
        mem.rows,
        MeterRows { label: area(50, 31, 49, 1), value: area(50, 32, 49, 1), gauge: area(50, 33, 49, 1) }
    );
}

#[test]
fn panel_without_selection() {
    let rows = vec![row("aaa", "web")];
    let Panel::Vacant { line, style, area: place } = draw_detail(area(0, 30, 100, 5), &rows, None, 8) else {
        panic!("a row");
    };
    assert_eq!(spans(&line), [("(no containers running)", plain())]);
    assert_eq!(style, dim());
    assert_eq!(place, area(1, 31, 98, 3));
    assert_eq!(draw_detail(area(0, 30, 100, 5), &rows, Some(1), 8), Panel::Gone);
    let Panel::Vacant { area: none, .. } = draw_detail(area(4, 5, 1, 0), &rows, None, 8) else {
        panic!("a row");
    };
    assert_eq!(none, area(5, 5, 0, 0));
}

#[test]
fn meter_without_known_cores() {
    let rows = vec![row("aaa", "web")];
    let Panel::Row { cpu, .. } = draw_detail(area(0, 30, 100, 5), &rows, Some(0), 0) else {
        panic!("no row");
    };
    assert_eq!(texts(&cpu.value), "55.50%  ");
    let rows = MeterRows { label: area(0, 0, 9, 1), value: area(0, 1, 9, 1), gauge: area(0, 2, 9, 1) };
    let meter = make_meter("CPU", Color::Yellow, "99.00", 99.0f64.to_bits(), "all".to_string(), rows);
    assert_eq!(meter.rows, rows);
    assert_eq!(meter.gauge, Color::Red);
    assert_eq!(texts(&meter.value), "99.00%  all");
}

#[test]
fn rows_are_found_by_id() {
    let rows = vec![row("aaa", "web"), row("bbb", "db"), row("bbb", "again")];
    assert_eq!(find_row(&rows, &"bbb".to_string()).unwrap().name, "db");
    assert!(find_row(&rows, &"ccc".to_string()).is_none());
}

#[test]
fn popup_is_laid_out() {
    let rows = vec![row("aaa", "web")];
    let d = DetailState { status_msg: some("killed aaa"), ..detail() };
    let popup = draw_popup(area(0, 0, 100, 40), &d, &rows, 8);
    assert_eq!(popup.title, " container · web ");
    assert_eq!(popup.border, Color::Cyan);
    assert_eq!(popup.info.len(), 4);
    assert_eq!(popup.area, area(2, 16, 96, 8));
    assert_eq!(popup.info_area, area(3, 17, 94, 4));
    assert_eq!(popup.status_area, area(3, 21, 94, 1));
    assert_eq!(popup.hints_area, area(3, 22, 94, 1));
    assert_eq!(spans(&popup.status.unwrap()), [("killed aaa", bold_colored(Color::Green))]);
    assert_eq!(
        spans(&popup.hints),
        [
            (" k ", colored_on(Color::White, Color::Red)),
            (" kill   ", plain()),
            (" Esc/q ", colored(Color::Cyan)),
            ("close", plain()),
        ]
    );
}

#[test]
fn popup_asks_before_killing() {
    let d = DetailState { confirming_kill: true, is_error: true, status_msg: some("no"), ..detail() };
    let popup = draw_popup(area(0, 0, 100, 40), &d, &Vec::new(), 8);
    assert_eq!(spans(&popup.status.unwrap()), [("no", bold_colored(Color::Red))]);
    assert_eq!(
        spans(&popup.hints),
        [
            (" KILL? ", badge(Color::White, Color::Red)),
            (" send SIGKILL to web?   ", plain()),
            (" y/Enter ", colored(Color::Red)),
            ("confirm  ", plain()),
            (" n/Esc ", colored(Color::Cyan)),
            ("cancel", plain()),
        ]
    );
    let quiet = draw_popup(area(0, 0, 100, 40), &detail(), &Vec::new(), 8);
    assert!(quiet.status.is_none());
}

#[test]
fn scene_is_divided_from_top_to_bottom() {
    let ui = Ui::new();
    let s = snapshot();
    let scene = draw(area(0, 0, 100, 40), &s.rows, &s, &load(), &ui, 2_000_000_000);
    assert_eq!(scene.header_area, area(0, 0, 100, 1));
    assert_eq!(scene.table_area, area(0, 1, 100, 33));
    assert_eq!(scene.panel_area, area(0, 34, 100, 5));
    assert_eq!(scene.footer_area, area(0, 39, 100, 1));
    assert_eq!(scene.header, draw_header(&s, &load(), 2, Sort::Cpu, "", false, 2_000_000_000));
    assert_eq!(scene.table, draw_table(&s.rows, Sort::Cpu));
    assert_eq!(scene.panel_title, " selected ");
    assert_eq!(scene.panel, draw_detail(area(0, 34, 100, 5), &s.rows, Some(0), 8));
    assert_eq!(scene.footer, draw_footer("", false, &Screen::Table));
    assert!(scene.popup.is_none());
}

fn lies_within(inner: Area, outer: Area) -> bool {
    outer.x <= inner.x
        && outer.y <= inner.y
        && inner.x + inner.width <= outer.x + outer.width
        && inner.y + inner.height <= outer.y + outer.height
}

#[test]
fn scene_stays_within_small_frames() {
    let mut ui = Ui::new();
    ui.screen = Screen::Detail(detail());
    let s = snapshot();
    for (width, height) in [(0, 0), (1, 1), (3, 2), (10, 6), (20, 11), (61, 13)] {
        let frame = area(3, 4, width, height);
        let scene = draw(frame, &s.rows, &s, &load(), &ui, 0);
        for part in [scene.header_area, scene.table_area, scene.panel_area, scene.footer_area] {
            assert!(lies_within(part, frame));
            assert_eq!((part.x, part.width), (frame.x, frame.width));
        }
        let Panel::Row { cpu, mem } = scene.panel else {
            panic!("no row");
        };
        for rows in [cpu.rows, mem.rows] {
            for part in [rows.label, rows.value, rows.gauge] {
                assert!(lies_within(part, scene.panel_area));
            }
        }
        let popup = scene.popup.unwrap();
        assert!(lies_within(popup.area, frame));
        for part in [popup.info_area, popup.status_area, popup.hints_area] {
            assert!(lies_within(part, popup.area));
        }
    }
}

#[test]
fn scene_shows_the_popup() {
    let mut ui = Ui::new();
    ui.screen = Screen::Detail(detail());
    let s = snapshot();
    let scene = draw(area(0, 0, 100, 40), &s.rows, &s, &load(), &ui, 0);
    assert_eq!(scene.popup, Some(draw_popup(area(0, 0, 100, 40), &detail(), &s.rows, 8)));
    assert!(scene.footer.is_none());
}

#[test]
fn header_totals_cover_hidden_containers() {
    let ui = Ui::new();
    let s = snapshot();
    let scene = draw(area(0, 0, 100, 40), &vec![row("aaa", "web")], &s, &load(), &ui, 0);
    assert_eq!(scene.header.spans[5].text, "MEM 3 KiB / 8 GiB (12.5%)");
}
