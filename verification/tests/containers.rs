use dockerwatch::docker::{
    after_round, calc_cpu_pct, calc_mem, check_nameable, checked_total_mem, collect_rows, host_total,
    list_targets, mem_share, total_mem, Fetched, MemoryDetail, Outcome, PollStep, Sample, Share,
    Snapshot, Stats, Summary, Target,
};
use dockerwatch::order::{check_comparable, sort_rows, visible_rows};
use dockerwatch::percent::Percent;
use dockerwatch::rows::{apply_filter, matches_lowered, ContainerRow, Cores, Sort};

fn pct(value: f64) -> Percent {
    Percent { bits: value.to_bits(), text: format!("{:.2}", value) }
}

fn row(name: &str, image: &str, cpu: f64, mem: f64) -> ContainerRow {
    ContainerRow {
        id: name.to_string(),
        name: name.to_string(),
        image: image.to_string(),
        status: "Up".to_string(),
        cpu_pct: pct(cpu),
        cores: Cores { short: "0.10".to_string(), long: "0.100".to_string() },
        mem_usage: 10,
        mem_limit: 20,
        mem_pct: pct(mem),
    }
}

fn names(rows: &Vec<ContainerRow>) -> Vec<&str> {
    rows.iter().map(|r| r.name.as_str()).collect()
}

fn sample_rows() -> Vec<ContainerRow> {
    vec![
        row("web", "nginx:1", 5.0, 20.0),
        row("Cache", "redis", 90.0, 10.0),
        row("db", "postgres", 5.0, 60.0),
        row("app", "NGINX-custom", 0.0, 60.0),
    ]
}

fn stats() -> Stats {
    Stats {
        cpu_total: 150,
        previous_cpu_total: 100,
        system_cpu: Some(2000),
        previous_system_cpu: Some(1000),
        mem_usage: Some(500),
        mem_detail: None,
        mem_limit: Some(1000),
    }
}

#[test]
fn filter_searches_names_and_images() {
    assert_eq!(names(&apply_filter(sample_rows(), "nginx")), ["web", "app"]);
    assert_eq!(names(&apply_filter(sample_rows(), "CACHE")), ["Cache"]);
    assert_eq!(names(&apply_filter(sample_rows(), "b")), ["web", "db"]);
    assert!(apply_filter(sample_rows(), "nothing").is_empty());
    assert_eq!(apply_filter(sample_rows(), ""), sample_rows());
}

#[test]
fn filtering_again_changes_nothing() {
    let once = apply_filter(sample_rows(), "nginx");
    assert_eq!(apply_filter(once.clone(), "NGINX"), once);
}

#[test]
fn filters_can_be_swapped() {
    let one = apply_filter(apply_filter(sample_rows(), "nginx"), "B");
    assert_eq!(names(&one), ["web"]);
    assert_eq!(one, apply_filter(apply_filter(sample_rows(), "B"), "nginx"));
}

#[test]
fn case_of_the_filter_does_not_matter() {
    for filter in ["NGINX", "CaChE", "B", "Web"] {
        let lowered = filter.to_lowercase();
        assert_eq!(apply_filter(sample_rows(), &lowered), apply_filter(sample_rows(), filter));
    }
    let accented = vec![row("Épée", "", 0.0, 0.0)];
    assert_eq!(apply_filter(accented.clone(), "ÉPÉ"), accented);
}

#[test]
fn typing_on_only_hides_rows() {
    let short = apply_filter(sample_rows(), "B");
    assert_eq!(names(&short), ["web", "db"]);
    let long = apply_filter(sample_rows(), "B:");
    assert_eq!(long, apply_filter(short, "B:"));
    let mut shown = sample_rows();
    for end in 1..=5 {
        let next = apply_filter(sample_rows(), &"NGinx"[..end]);
        assert_eq!(next, apply_filter(shown, &"NGinx"[..end]));
        shown = next;
    }
    assert_eq!(names(&shown), ["web", "app"]);
}

#[test]
fn lowered_texts_are_matched() {
    assert!(matches_lowered("web", "nginx", "gin"));
    assert!(matches_lowered("web", "nginx", "web"));
    assert!(!matches_lowered("web", "nginx", "ginx "));
    assert!(matches_lowered("", "", ""));
}

#[test]
fn busiest_containers_come_first() {
    let mut rows = sample_rows();
    sort_rows(&mut rows, Sort::Cpu);
    assert_eq!(names(&rows), ["Cache", "web", "db", "app"]);
    let mut rows = sample_rows();
    sort_rows(&mut rows, Sort::Mem);
    assert_eq!(names(&rows), ["db", "app", "web", "Cache"]);
}

#[test]
fn names_are_sorted_by_code_points() {
    let mut rows = sample_rows();
    rows.push(row("webs", "", 0.0, 0.0));
    rows.push(row("éa", "", 0.0, 0.0));
    sort_rows(&mut rows, Sort::Name);
    assert_eq!(names(&rows), ["Cache", "app", "db", "web", "webs", "éa"]);
}

#[test]
fn sorting_agrees_with_the_sort_of_std() {
    let mut rows: Vec<ContainerRow> = Vec::new();
    let mut seed: u32 = 12345;
    for i in 0..60 {
        seed = seed.wrapping_mul(1664525).wrapping_add(1013904223);
        let value = (seed >> 28) as f64 / 3.0;
        rows.push(row(&format!("c{}-{}", (seed >> 20) & 7, i), "", value, 16.0 - value));
    }
    for sort in [Sort::Cpu, Sort::Mem, Sort::Name] {
        let mut expected = rows.clone();
        match sort {
            Sort::Cpu => expected.sort_by(|a, b| {
                f64::from_bits(b.cpu_pct.bits).partial_cmp(&f64::from_bits(a.cpu_pct.bits)).unwrap()
            }),
            Sort::Mem => expected.sort_by(|a, b| {
                f64::from_bits(b.mem_pct.bits).partial_cmp(&f64::from_bits(a.mem_pct.bits)).unwrap()
            }),
            Sort::Name => expected.sort_by(|a, b| a.name.cmp(&b.name)),
        }
        let mut sorted = rows.clone();
        sort_rows(&mut sorted, sort);
        assert_eq!(sorted, expected);
        sort_rows(&mut sorted, sort);
        assert_eq!(sorted, expected);
    }
}

#[test]
fn rows_without_numbers_cannot_be_compared() {
    let mut rows = sample_rows();
    rows[1].mem_pct = pct(f64::NAN);
    assert!(check_comparable(Sort::Cpu, &rows));
    assert!(!check_comparable(Sort::Mem, &rows));
    assert!(check_comparable(Sort::Name, &rows));
    assert!(visible_rows(&rows, "", Sort::Mem).is_none());
    assert_eq!(visible_rows(&rows, "cache", Sort::Mem).unwrap().len(), 1);
    assert_eq!(names(&visible_rows(&rows, "nginx", Sort::Mem).unwrap()), ["app", "web"]);
}

#[test]
fn page_cache_is_subtracted() {
    let mut s = stats();
    assert_eq!(calc_mem(&s), (500, 1000));
    s.mem_detail = Some(MemoryDetail::V1 { cache: 120 });
    assert_eq!(calc_mem(&s), (380, 1000));
    s.mem_detail = Some(MemoryDetail::V2 { inactive_file: 600 });
    assert_eq!(calc_mem(&s), (0, 1000));
    s.mem_usage = None;
    s.mem_limit = None;
    assert_eq!(calc_mem(&s), (0, 0));
}

#[test]
fn cpu_is_a_share_of_the_host() {
    let mut s = stats();
    assert_eq!(calc_cpu_pct(&s), Share::Of { now: 150, before: 100, whole: 1000 });
    s.previous_system_cpu = None;
    assert_eq!(calc_cpu_pct(&s), Share::Of { now: 150, before: 100, whole: 2000 });
    s.system_cpu = None;
    assert_eq!(calc_cpu_pct(&s), Share::Zero);
    s = stats();
    s.cpu_total = 100;
    assert_eq!(calc_cpu_pct(&s), Share::Zero);
    s.cpu_total = 99;
    assert_eq!(calc_cpu_pct(&s), Share::Zero);
    s = stats();
    s.previous_system_cpu = Some(3000);
    assert_eq!(calc_cpu_pct(&s), Share::Zero);
}

#[test]
fn memory_is_a_share_of_the_limit() {
    assert_eq!(mem_share(5, 10), Share::Of { now: 5, before: 0, whole: 10 });
    assert_eq!(mem_share(5, 0), Share::Zero);
    assert_eq!(mem_share(0, 10), Share::Zero);
}

#[test]
fn host_totals_are_never_negative() {
    assert_eq!(host_total(Some(8)), 8);
    assert_eq!(host_total(Some(0)), 0);
    assert_eq!(host_total(Some(-1)), 0);
    assert_eq!(host_total(Some(i64::MAX)), i64::MAX as u64);
    assert_eq!(host_total(None), 0);
}

fn summary(id: Option<&str>, names: Option<Vec<&str>>) -> Summary {
    Summary {
        id: id.map(|s| s.to_string()),
        names: names.map(|l| l.iter().map(|s| s.to_string()).collect()),
        image: Some("img".to_string()),
        status: None,
    }
}

fn target(id: &str, name: &str) -> Target {
    Target {
        id: id.to_string(),
        name: name.to_string(),
        image: "img".to_string(),
        status: String::new(),
    }
}

#[test]
fn listed_containers_become_targets() {
    let list = vec![
        summary(Some("aaaaaaaaaaaaaaaa"), Some(vec!["/web", "/other"])),
        summary(None, Some(vec!["/lost"])),
        summary(Some("0123456789abcdef"), None),
        summary(Some("fedcba9876543210"), Some(vec![])),
        summary(Some("short"), Some(vec!["//x"])),
    ];
    assert!(check_nameable(&list));
    assert_eq!(
        list_targets(list),
        vec![
            target("aaaaaaaaaaaaaaaa", "web"),
            target("0123456789abcdef", "0123456789ab"),
            target("fedcba9876543210", "fedcba987654"),
            target("short", "x"),
        ]
    );
}

#[test]
fn short_ids_cannot_stand_for_names() {
    assert!(!check_nameable(&vec![summary(Some("short"), None)]));
    assert!(!check_nameable(&vec![summary(Some("short"), Some(vec![]))]));
    assert!(check_nameable(&vec![summary(None, None)]));
}

#[test]
fn rows_are_made_of_the_readings_that_came() {
    let sample = Sample {
        stats: Stats { mem_detail: Some(MemoryDetail::V1 { cache: 100 }), ..stats() },
        cpu_pct: pct(5.0),
        cores: Cores { short: "0.40".to_string(), long: "0.400".to_string() },
        mem_pct: pct(40.0),
    };
    let rows = collect_rows(vec![
        Outcome { target: target("0000000000001111", "gone"), sample: None },
        Outcome { target: target("0123456789abcdef", "web"), sample: Some(sample) },
    ]);
    assert_eq!(
        rows,
        vec![ContainerRow {
            id: "0123456789ab".to_string(),
            name: "web".to_string(),
            image: "img".to_string(),
            status: String::new(),
            cpu_pct: pct(5.0),
            cores: Cores { short: "0.40".to_string(), long: "0.400".to_string() },
            mem_usage: 400,
            mem_limit: 1000,
            mem_pct: pct(40.0),
        }]
    );
}

#[test]
fn snapshots_hold_a_round_or_its_error() {
    let fetched = Fetched { rows: sample_rows(), host_mem_total: 64, host_ncpu: 8 };
    let s = Snapshot::from_round(Ok(fetched), 5);
    assert_eq!(s.rows, sample_rows());
    assert_eq!((s.host_mem_total, s.host_ncpu), (64, 8));
    assert_eq!(s.error, None);
    assert_eq!(s.fetched_at, Some(5));
    let s = Snapshot::from_round(Err("refused".to_string()), 6);
    assert!(s.rows.is_empty());
    assert_eq!((s.host_mem_total, s.host_ncpu), (0, 0));
    assert_eq!(s.error.as_deref(), Some("refused"));
    assert_eq!(s.fetched_at, Some(6));
    let s = Snapshot::default();
    assert!(s.rows.is_empty() && s.error.is_none() && s.fetched_at.is_none());
}

#[test]
fn rounds_begin_a_second_apart() {
    assert_eq!(after_round(true, 0), PollStep::Wait(1_000_000_000));
    assert_eq!(after_round(true, 250_000_000), PollStep::Wait(750_000_000));
    assert_eq!(after_round(true, 1_000_000_000), PollStep::Again);
    assert_eq!(after_round(true, 3_000_000_000), PollStep::Again);
    assert_eq!(after_round(false, 0), PollStep::Stop);
}

#[test]
fn memory_is_summed() {
    let mut rows = sample_rows();
    assert_eq!(total_mem(&rows), 40);
    assert_eq!(checked_total_mem(&rows), Some(40));
    assert_eq!(checked_total_mem(&Vec::new()), Some(0));
    rows[2].mem_usage = u64::MAX - 30;
    assert_eq!(checked_total_mem(&rows), Some(u64::MAX));
    rows[2].mem_usage = u64::MAX - 29;
    assert_eq!(checked_total_mem(&rows), None);
}
