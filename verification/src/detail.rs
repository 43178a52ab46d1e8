//! The detail popup: what is known of one container.

use crate::percent::{severity, severity_color};
use crate::rows::ContainerRow;
use crate::sizes::{binary_size, format_bytes, mem_reading, reading_text};
use crate::style::{bold_colored, colored, plain, shown, span, Color, Line, LineView};
use crate::text::{
    decimal, decimal_text, join, joined, opt_text, pad_left, right_aligned, texts,
};
use vstd::prelude::*;
use vstd::string::*;

verus! {

/// The configuration of a container.
#[derive(Debug, PartialEq, Eq)]
pub struct Config {
    pub image: Option<String>,
    pub cmd: Option<Vec<String>>,
    pub entrypoint: Option<Vec<String>>,
    pub working_dir: Option<String>,
}

/// The state that a container is in.
#[derive(Debug, PartialEq, Eq)]
pub struct State {
    pub status: Option<String>,
    pub pid: Option<i64>,
    pub started_at: Option<String>,
}

/// A network that a container is attached to.
#[derive(Debug, PartialEq, Eq)]
pub struct Network {
    pub name: String,
    pub ip_address: Option<String>,
}

/// A port of a container, with the host ports that it is bound to.
#[derive(Debug, PartialEq, Eq)]
pub struct Port {
    pub port: String,
    pub bindings: Option<Vec<Option<String>>>,
}

/// The networks and ports of a container.
#[derive(Debug, PartialEq, Eq)]
pub struct NetworkSettings {
    pub networks: Option<Vec<Network>>,
    pub ports: Option<Vec<Port>>,
}

/// What happens when a container ends.
#[derive(Debug, PartialEq, Eq)]
pub struct RestartPolicy {
    pub name: Option<String>,
}

/// The host's side of a container's configuration.
#[derive(Debug, PartialEq, Eq)]
pub struct HostConfig {
    pub restart_policy: Option<RestartPolicy>,
}

/// What the daemon tells of a container when asked; any part may be missing.
#[derive(Debug, PartialEq, Eq)]
pub struct Inspect {
    pub image: Option<String>,
    pub config: Option<Config>,
    pub state: Option<State>,
    pub created: Option<String>,
    pub network_settings: Option<NetworkSettings>,
    pub host_config: Option<HostConfig>,
}

/// The state of the popup.
#[derive(Debug, PartialEq, Eq)]
pub struct DetailState {
    pub id: String,
    pub name: String,
    pub inspect: Option<Inspect>,
    pub confirming_kill: bool,
    pub status_msg: Option<String>,
    pub is_error: bool,
}

/// How wide the labels of the popup are.
pub const LABEL_WIDTH: usize = 11;

/// A label and its value.
pub open spec fn field_line(label: Seq<char>, value: Seq<char>) -> LineView {
    seq![
        span(right_aligned(label, LABEL_WIDTH as nat) + ": "@, colored(Color::DarkGray)),
        span(value, plain()),
    ]
}

/// A line for the value, if there is one.
pub open spec fn opt_line(label: Seq<char>, value: Option<Seq<char>>) -> Seq<LineView> {
    match value {
        Some(v) => seq![field_line(label, v)],
        None => Seq::empty(),
    }
}

/// The text, unless it is empty.
pub open spec fn filled(text: Option<Seq<char>>) -> Option<Seq<char>> {
    match text {
        Some(t) => if t.len() > 0 {
            Some(t)
        } else {
            None
        },
        None => None,
    }
}

/// The words of a command, with blanks between them.
pub open spec fn words(list: Option<Vec<String>>) -> Option<Seq<char>> {
    match list {
        Some(l) => Some(joined(texts(l@), " "@)),
        None => None,
    }
}

/// The lines of a configuration.
pub open spec fn config_lines(config: Option<Config>) -> Seq<LineView> {
    match config {
        Some(c) => opt_line("tag"@, opt_text(c.image)) + opt_line("cmd"@, words(c.cmd)) + opt_line(
            "entrypoint"@,
            words(c.entrypoint),
        ) + opt_line("workdir"@, filled(opt_text(c.working_dir))),
        None => Seq::empty(),
    }
}

/// A process number, if there is a process.
pub open spec fn pid_text(pid: Option<i64>) -> Option<Seq<char>> {
    match pid {
        Some(p) => if p > 0 {
            Some(decimal_text(p as nat))
        } else {
            None
        },
        None => None,
    }
}

/// The lines of a state.
pub open spec fn state_lines(state: Option<State>) -> Seq<LineView> {
    match state {
        Some(s) => opt_line("state"@, opt_text(s.status)) + opt_line("pid"@, pid_text(s.pid)) + opt_line(
            "started"@,
            filled(opt_text(s.started_at)),
        ),
        None => Seq::empty(),
    }
}

/// A network, with its address if it has one.
pub open spec fn network_text(network: Network) -> Seq<char> {
    match filled(opt_text(network.ip_address)) {
        Some(ip) => network.name@ + "="@ + ip,
        None => network.name@,
    }
}

/// All networks in one text, if there are any.
pub open spec fn networks_text(networks: Option<Vec<Network>>) -> Option<Seq<char>> {
    match networks {
        Some(list) => if list@.len() > 0 {
            Some(joined(Seq::new(list@.len(), |i: int| network_text(list@[i])), ", "@))
        } else {
            None
        },
        None => None,
    }
}

/// A host port and the port that it leads to; a host port without a number is unknown.
pub open spec fn binding_text(host: Option<String>, port: Seq<char>) -> Seq<char> {
    (match filled(opt_text(host)) {
        Some(h) => h,
        None => "?"@,
    }) + "→"@ + port
}

/// The bindings of one port.
pub open spec fn port_bindings(port: Port) -> Seq<Seq<char>> {
    match port.bindings {
        Some(list) => Seq::new(list@.len(), |i: int| binding_text(list@[i], port.port@)),
        None => Seq::empty(),
    }
}

/// The bindings of all ports.
pub open spec fn all_bindings(ports: Seq<Port>) -> Seq<Seq<char>>
    decreases ports.len(),
{
    if ports.len() == 0 {
        Seq::empty()
    } else {
        all_bindings(ports.drop_last()) + port_bindings(ports.last())
    }
}

/// All bindings in one text, if there are any.
pub open spec fn ports_text(ports: Option<Vec<Port>>) -> Option<Seq<char>> {
    match ports {
        Some(list) => if all_bindings(list@).len() > 0 {
            Some(joined(all_bindings(list@), ", "@))
        } else {
            None
        },
        None => None,
    }
}

/// The lines of networks and ports.
pub open spec fn network_lines(settings: Option<NetworkSettings>) -> Seq<LineView> {
    match settings {
        Some(s) => opt_line("networks"@, networks_text(s.networks)) + opt_line(
            "ports"@,
            ports_text(s.ports),
        ),
        None => Seq::empty(),
    }
}

/// The name of the restart policy, if it is known.
pub open spec fn restart_text(host: Option<HostConfig>) -> Option<Seq<char>> {
    match host {
        Some(h) => match h.restart_policy {
            Some(policy) => opt_text(policy.name),
            None => None,
        },
        None => None,
    }
}

/// The lines of what an inspection found.
pub open spec fn inspect_lines(found: Inspect) -> Seq<LineView> {
    opt_line("image"@, opt_text(found.image)) + config_lines(found.config) + state_lines(found.state)
        + opt_line("created"@, opt_text(found.created)) + network_lines(found.network_settings)
        + opt_line("restart"@, restart_text(found.host_config))
}

/// The cores in use out of those that the host has, if that is known.
pub open spec fn cores_text(used: Seq<char>, ncpu: u64) -> Seq<char> {
    if ncpu > 0 {
        "  ("@ + used + " / "@ + decimal_text(ncpu as nat) + " cores)"@
    } else {
        Seq::empty()
    }
}

/// The line with the current readings of the container, with its memory written as `mem`.
pub open spec fn live_line_with(row: ContainerRow, ncpu: u64, mem: Seq<char>) -> LineView {
    seq![
        span("       live: "@, colored(Color::DarkGray)),
        span("CPU "@ + row.cpu_pct.text@ + "%"@, bold_colored(severity(row.cpu_pct.bits))),
        span(cores_text(row.cores.long@, ncpu), plain()),
        span("    "@, plain()),
        span(mem, bold_colored(severity(row.mem_pct.bits))),
    ]
}

/// The line with the current readings of the container.
pub open spec fn live_line(row: ContainerRow, ncpu: u64) -> LineView {
    live_line_with(
        row,
        ncpu,
        reading_text(binary_size(row.mem_usage), binary_size(row.mem_limit), row.mem_pct.text@),
    )
}

/// What an inspection found, or that it is under way, unless it failed.
pub open spec fn finding_lines(d: DetailState) -> Seq<LineView> {
    match d.inspect {
        Some(found) => inspect_lines(found),
        None => if d.is_error {
            Seq::empty()
        } else {
            seq![seq![span("loading inspect..."@, colored(Color::DarkGray))]]
        },
    }
}

/// What the popup tells of a container: what an inspection found, and the current readings
/// if the container is still listed.
pub open spec fn detail_lines(d: DetailState, live: Option<ContainerRow>, ncpu: u64) -> Seq<LineView> {
    seq![field_line("id"@, d.id@), field_line("name"@, d.name@)] + finding_lines(d) + (match live {
        Some(row) => seq![live_line(row, ncpu)],
        None => Seq::empty(),
    })
}

/// How many lines the popup has: two, those of what was found, and one more if the container
/// is still listed.
pub open spec fn detail_count(d: DetailState, listed: bool) -> nat {
    2 + finding_lines(d).len() + (if listed {
        1nat
    } else {
        0nat
    })
}

fn add_line(lines: &mut Vec<Line>, line: Line)
    ensures
        shown(final(lines)@) == shown(old(lines)@).push(line@),
{
    lines.push(line);
    assert(shown(lines@) =~= shown(old(lines)@).push(line@));
}

/// A label and its value.
pub fn field(label: &str, value: &str) -> (r: Line)
    ensures
        r@ == field_line(label@, value@),
{
    let mut head = pad_left(label, LABEL_WIDTH);
    head.append(": ");
    let mut line = Line::new();
    line.add(head, colored(Color::DarkGray));
    line.put(value, plain());
    assert(line@ =~= field_line(label@, value@));
    line
}

fn add_field(lines: &mut Vec<Line>, label: &str, value: &str)
    ensures
        shown(final(lines)@) == shown(old(lines)@) + opt_line(label@, Some(value@)),
{
    add_line(lines, field(label, value));
    assert(shown(lines@) =~= shown(old(lines)@) + opt_line(label@, Some(value@)));
}

fn add_text(lines: &mut Vec<Line>, label: &str, value: &Option<String>)
    ensures
        shown(final(lines)@) == shown(old(lines)@) + opt_line(label@, opt_text(*value)),
{
    match value {
        Some(v) => add_field(lines, label, v.as_str()),
        None => {
            assert(shown(lines@) =~= shown(lines@) + opt_line(label@, None));
        },
    }
}

fn add_filled(lines: &mut Vec<Line>, label: &str, value: &Option<String>)
    ensures
        shown(final(lines)@) == shown(old(lines)@) + opt_line(label@, filled(opt_text(*value))),
{
    if let Some(v) = value {
        if !v.as_str().is_empty() {
            add_field(lines, label, v.as_str());
            return;
        }
    }
    assert(shown(lines@) =~= shown(lines@) + opt_line(label@, None));
}

fn add_words(lines: &mut Vec<Line>, label: &str, value: &Option<Vec<String>>)
    ensures
        shown(final(lines)@) == shown(old(lines)@) + opt_line(label@, words(*value)),
{
    match value {
        Some(list) => add_field(lines, label, join(list, " ").as_str()),
        None => {
            assert(shown(lines@) =~= shown(lines@) + opt_line(label@, None));
        },
    }
}

fn add_config(lines: &mut Vec<Line>, config: &Option<Config>)
    ensures
        shown(final(lines)@) == shown(old(lines)@) + config_lines(*config),
{
    if let Some(c) = config {
        add_text(lines, "tag", &c.image);
        add_words(lines, "cmd", &c.cmd);
        add_words(lines, "entrypoint", &c.entrypoint);
        add_filled(lines, "workdir", &c.working_dir);
    }
    assert(shown(lines@) =~= shown(old(lines)@) + config_lines(*config));
}

fn add_state(lines: &mut Vec<Line>, state: &Option<State>)
    ensures
        shown(final(lines)@) == shown(old(lines)@) + state_lines(*state),
{
    if let Some(s) = state {
        add_text(lines, "state", &s.status);
        if let Some(p) = s.pid {
            if p > 0 {
                add_field(lines, "pid", decimal(p as u128).as_str());
            }
        }
        assert(shown(lines@) =~= shown(old(lines)@) + opt_line("state"@, opt_text(s.status)) + opt_line(
            "pid"@,
            pid_text(s.pid),
        ));
        add_filled(lines, "started", &s.started_at);
    }
    assert(shown(lines@) =~= shown(old(lines)@) + state_lines(*state));
}

fn describe_network(network: &Network) -> (r: String)
    ensures
        r@ == network_text(*network),
{
    let mut out = network.name.clone();
    if let Some(ip) = &network.ip_address {
        if !ip.as_str().is_empty() {
            out.append("=");
            out.append(ip.as_str());
        }
    }
    out
}

fn add_networks(lines: &mut Vec<Line>, networks: &Option<Vec<Network>>)
    ensures
        shown(final(lines)@) == shown(old(lines)@) + opt_line("networks"@, networks_text(*networks)),
{
    if let Some(list) = networks {
        if list.len() > 0 {
            let mut names: Vec<String> = Vec::new();
            let mut i: usize = 0;
            while i < list.len()
                invariant
                    i <= list.len(),
                    names@.len() == i,
                    forall|k: int| 0 <= k < i ==> (#[trigger] names@[k])@ == network_text(list@[k]),
                decreases list.len() - i,
            {
                names.push(describe_network(&list[i]));
                i = i + 1;
            }
            assert(texts(names@) =~= Seq::new(list@.len(), |k: int| network_text(list@[k])));
            add_field(lines, "networks", join(&names, ", ").as_str());
            return;
        }
    }
    assert(shown(lines@) =~= shown(lines@) + opt_line("networks"@, None));
}

fn describe_binding(host: &Option<String>, port: &str) -> (r: String)
    ensures
        r@ == binding_text(*host, port@),
{
    let mut out = match host {
        Some(h) => if h.as_str().is_empty() {
            "?".to_owned()
        } else {
            h.clone()
        },
        None => "?".to_owned(),
    };
    out.append("→");
    out.append(port);
    out
}

fn list_bindings(ports: &Vec<Port>) -> (r: Vec<String>)
    ensures
        texts(r@) == all_bindings(ports@),
{
    let mut out: Vec<String> = Vec::new();
    let mut i: usize = 0;
    assert(texts(out@) =~= Seq::empty());
    while i < ports.len()
        invariant
            i <= ports.len(),
            texts(out@) == all_bindings(ports@.take(i as int)),
        decreases ports.len() - i,
    {
        let ghost before = texts(out@);
        if let Some(list) = &ports[i].bindings {
            let mut k: usize = 0;
            assert(before =~= before + Seq::new(0, |m: int| binding_text(list@[m], ports@[i as int].port@)));
            while k < list.len()
                invariant
                    k <= list.len(),
                    i < ports.len(),
                    texts(out@) == before + Seq::new(
                        k as nat,
                        |m: int| binding_text(list@[m], ports@[i as int].port@),
                    ),
                decreases list.len() - k,
            {
                let ghost so_far = out@;
                out.push(describe_binding(&list[k], ports[i].port.as_str()));
                assert(texts(out@) =~= texts(so_far).push(out@.last()@));
                k = k + 1;
                assert(texts(out@) =~= before + Seq::new(
                    k as nat,
                    |m: int| binding_text(list@[m], ports@[i as int].port@),
                ));
            }
        }
        assert(texts(out@) =~= before + port_bindings(ports@[i as int]));
        assert(ports@.take(i + 1).drop_last() =~= ports@.take(i as int));
        i = i + 1;
    }
    assert(ports@.take(i as int) =~= ports@);
    out
}

fn add_ports(lines: &mut Vec<Line>, ports: &Option<Vec<Port>>)
    ensures
        shown(final(lines)@) == shown(old(lines)@) + opt_line("ports"@, ports_text(*ports)),
{
    if let Some(list) = ports {
        let bindings = list_bindings(list);
        assert(texts(bindings@).len() == bindings@.len());
        if bindings.len() > 0 {
            add_field(lines, "ports", join(&bindings, ", ").as_str());
            return;
        }
    }
    assert(shown(lines@) =~= shown(lines@) + opt_line("ports"@, None));
}

fn add_network_settings(lines: &mut Vec<Line>, settings: &Option<NetworkSettings>)
    ensures
        shown(final(lines)@) == shown(old(lines)@) + network_lines(*settings),
{
    if let Some(net) = settings {
        add_networks(lines, &net.networks);
        add_ports(lines, &net.ports);
    }
    assert(shown(lines@) =~= shown(old(lines)@) + network_lines(*settings));
}

fn add_restart(lines: &mut Vec<Line>, host: &Option<HostConfig>)
    ensures
        shown(final(lines)@) == shown(old(lines)@) + opt_line("restart"@, restart_text(*host)),
{
    if let Some(h) = host {
        if let Some(policy) = &h.restart_policy {
            add_text(lines, "restart", &policy.name);
            return;
        }
    }
    assert(shown(lines@) =~= shown(lines@) + opt_line("restart"@, None));
}

proof fn appended_in_turn(
    start: Seq<LineView>,
    a: Seq<LineView>,
    b: Seq<LineView>,
    c: Seq<LineView>,
    d: Seq<LineView>,
    e: Seq<LineView>,
    f: Seq<LineView>,
)
    ensures
        start + a + b + c + d + e + f == start + (a + b + c + d + e + f),
{
    assert(start + a + b + c + d + e + f =~= start + (a + b + c + d + e + f));
}

fn add_inspect(lines: &mut Vec<Line>, found: &Inspect)
    ensures
        shown(final(lines)@) == shown(old(lines)@) + inspect_lines(*found),
{
    proof {
        appended_in_turn(
            shown(lines@),
            opt_line("image"@, opt_text(found.image)),
            config_lines(found.config),
            state_lines(found.state),
            opt_line("created"@, opt_text(found.created)),
            network_lines(found.network_settings),
            opt_line("restart"@, restart_text(found.host_config)),
        );
    }
    add_text(lines, "image", &found.image);
    add_config(lines, &found.config);
    add_state(lines, &found.state);
    add_text(lines, "created", &found.created);
    add_network_settings(lines, &found.network_settings);
    add_restart(lines, &found.host_config);
}

fn describe_cores(used: &str, ncpu: u64) -> (r: String)
    ensures
        r@ == cores_text(used@, ncpu),
{
    let mut out = String::new();
    if ncpu > 0 {
        out = "  (".to_owned();
        out.append(used);
        out.append(" / ");
        out.append(decimal(ncpu as u128).as_str());
        out.append(" cores)");
    }
    out
}

/// Writes the current readings of the container, with its memory written as `mem`.
pub fn live_readings(row: &ContainerRow, ncpu: u64, mem: String) -> (r: Line)
    ensures
        r@ == live_line_with(*row, ncpu, mem@),
{
    let mut line = Line::new();
    line.put("       live: ", colored(Color::DarkGray));
    let mut cpu = "CPU ".to_owned();
    cpu.append(row.cpu_pct.text.as_str());
    cpu.append("%");
    line.add(cpu, bold_colored(severity_color(row.cpu_pct.bits)));
    line.add(describe_cores(row.cores.long.as_str(), ncpu), plain());
    line.put("    ", plain());
    line.add(mem, bold_colored(severity_color(row.mem_pct.bits)));
    assert(line@ =~= live_line_with(*row, ncpu, mem@));
    line
}

/// The lines of the popup.
pub fn build_detail_lines(d: &DetailState, live_row: Option<&ContainerRow>, ncpu: u64) -> (r: Vec<Line>)
    ensures
        shown(r@) == detail_lines(
            *d,
            match live_row {
                Some(row) => Some(*row),
                None => None,
            },
            ncpu,
        ),
{
    let mut lines: Vec<Line> = Vec::new();
    assert(shown(lines@) =~= Seq::empty());
    add_line(&mut lines, field("id", d.id.as_str()));
    add_line(&mut lines, field("name", d.name.as_str()));
    let ghost head = seq![field_line("id"@, d.id@), field_line("name"@, d.name@)];
    assert(shown(lines@) =~= head);
    match &d.inspect {
        Some(found) => add_inspect(&mut lines, found),
        None => {
            if !d.is_error {
                let mut line = Line::new();
                line.put("loading inspect...", colored(Color::DarkGray));
                assert(line@ =~= seq![span("loading inspect..."@, colored(Color::DarkGray))]);
                add_line(&mut lines, line);
            }
        },
    }
    assert(shown(lines@) =~= head + finding_lines(*d));
    if let Some(row) = live_row {
        let mem = mem_reading(
            format_bytes(row.mem_usage).as_str(),
            format_bytes(row.mem_limit).as_str(),
            row.mem_pct.text.as_str(),
        );
        add_line(&mut lines, live_readings(row, ncpu, mem));
    }
    assert(shown(lines@) =~= detail_lines(
        *d,
        match live_row {
            Some(row) => Some(*row),
            None => None,
        },
        ncpu,
    ));
    lines
}

proof fn inspect_is_short(found: Inspect)
    ensures
        inspect_lines(found).len() <= 12,
{
    assert(config_lines(found.config).len() <= 4);
    assert(state_lines(found.state).len() <= 3);
    assert(network_lines(found.network_settings).len() <= 2);
}

/// The popup never has more than fifteen lines, whatever is known of the container.
pub proof fn detail_is_short(d: DetailState, live: Option<ContainerRow>, ncpu: u64)
    ensures
        detail_lines(d, live, ncpu).len() == detail_count(d, live is Some),
        2 <= detail_lines(d, live, ncpu).len() <= 15,
{
    if let Some(found) = d.inspect {
        inspect_is_short(found);
    }
}

/// Lines that show what the popup tells are as many as it has.
pub proof fn lines_counted(lines: Seq<Line>, d: DetailState, live: Option<ContainerRow>, ncpu: u64)
    requires
        shown(lines) == detail_lines(d, live, ncpu),
    ensures
        lines.len() == detail_count(d, live is Some),
        2 <= lines.len() <= 15,
{
    detail_is_short(d, live, ncpu);
    assert(shown(lines).len() == lines.len());
}

} // verus!
