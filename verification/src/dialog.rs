//! What callers can count on of the popup and of the whole screen: what they show and where,
//! told of what they are given and of what comes out.

use crate::detail::{
    all_bindings, build_detail_lines, config_lines, detail_is_short, detail_lines, field, field_line, filled,
    finding_lines, inspect_lines, live_line, network_lines, network_text, networks_text, opt_line,
    pid_text, port_bindings, ports_text, restart_text, state_lines, words, DetailState, Inspect,
    Network, Port,
};
use crate::display::{
    all_pieces, all_pieces_are_shown, footer_tells, footers_tell, header_tells, headers_tell, is_badge,
    is_bold, is_colored, is_plain, panel_tells, panels_tell, pieces, pieces_are_shown, table_tells,
    tables_tell, warns_by, within_border,
};
use crate::docker::Snapshot;
use crate::header::Load;
use crate::layout::{
    centered_fixed, has_place, inside_border, line_count, may_divide, popup_area, popup_has_place,
    popup_place, Area, Axis, Extent,
};
use crate::popup::{
    can_draw_popup, draw_popup, find_row, first_with_id, is_popup, is_popup_with, popup_fits, popup_with,
    Popup,
};
use crate::rows::ContainerRow;
use crate::scene::{draw, Scene};
use crate::sizes::binary_size;
use crate::style::{shown, Color, Line, LineView, SpanView, Style};
use crate::text::{opt_text, right_aligned, texts};
use crate::ui::{Screen, Ui};
use crate::wording::{decimal_text_is_numeral, joined_is_strung, numeral, padded, strung};
use vstd::prelude::*;

verus! {

/// The label of a field: eleven cells and a colon.
pub open spec fn is_label(text: Seq<char>, label: Seq<char>) -> bool {
    &&& text.len() >= 2
    &&& text.skip(text.len() - 2) == ": "@
    &&& padded(label, 11, text.take(text.len() - 2))
}

/// The line is the field with that label and that value.
pub open spec fn is_field(line: Seq<SpanView>, label: Seq<char>, value: Seq<char>) -> bool {
    &&& line.len() == 2
    &&& is_label(line[0].text, label)
    &&& is_colored(line[0], line[0].text, Color::DarkGray)
    &&& is_plain(line[1], value)
}

/// A label for a value that may be told; `fits` says which text tells it.
pub struct FieldTold {
    pub label: Seq<char>,
    pub told: bool,
    pub fits: spec_fn(Seq<char>) -> bool,
}

/// The lines are the fields that are told, in their order, and nothing else.
pub open spec fn are_fields(lines: Seq<Seq<SpanView>>, fields: Seq<FieldTold>) -> bool
    decreases fields.len(),
{
    if fields.len() == 0 {
        lines.len() == 0
    } else if fields.last().told {
        &&& lines.len() > 0
        &&& is_field(lines.last(), fields.last().label, lines.last()[1].text)
        &&& (fields.last().fits)(lines.last()[1].text)
        &&& are_fields(lines.drop_last(), fields.drop_last())
    } else {
        are_fields(lines, fields.drop_last())
    }
}

/// A field whose value is a text that may be missing.
pub open spec fn text_field(label: Seq<char>, text: Option<String>) -> FieldTold {
    FieldTold { label, told: text is Some, fits: |v: Seq<char>| text matches Some(t) && v == t@ }
}

/// A field whose value is a text that may be missing or empty, and is then left out.
pub open spec fn filled_field(label: Seq<char>, text: Option<String>) -> FieldTold {
    FieldTold {
        label,
        told: text matches Some(t) && t@.len() > 0,
        fits: |v: Seq<char>| text matches Some(t) && v == t@,
    }
}

/// A field whose value are words with blanks between them.
pub open spec fn words_field(label: Seq<char>, list: Option<Vec<String>>) -> FieldTold {
    FieldTold {
        label,
        told: list is Some,
        fits: |v: Seq<char>|
            list matches Some(l) && v == strung(Seq::new(l@.len(), |i: int| l@[i]@), " "@),
    }
}

/// The field of a process number, which is left out if it is missing or not positive.
pub open spec fn pid_field(pid: Option<i64>) -> FieldTold {
    FieldTold {
        label: "pid"@,
        told: pid matches Some(p) && p > 0,
        fits: |v: Seq<char>| pid matches Some(p) && numeral(v, p as int),
    }
}

/// The text of a network: its name, and its address if it has one.
pub open spec fn named_network(network: Network) -> Seq<char> {
    if network.ip_address matches Some(ip) && ip@.len() > 0 {
        network.name@ + "="@ + network.ip_address->0@
    } else {
        network.name@
    }
}

/// The field of the networks, which is left out if there are none.
pub open spec fn networks_field(networks: Option<Vec<Network>>) -> FieldTold {
    FieldTold {
        label: "networks"@,
        told: networks matches Some(l) && l@.len() > 0,
        fits: |v: Seq<char>|
            networks matches Some(l) && v == strung(
                Seq::new(l@.len(), |i: int| named_network(l@[i])),
                ", "@,
            ),
    }
}

/// The text of a binding: the host's port, or a question mark, and the container's port.
pub open spec fn bound_port(host: Option<String>, port: Seq<char>) -> Seq<char> {
    if host matches Some(h) && h@.len() > 0 {
        host->0@ + "→"@ + port
    } else {
        "?"@ + "→"@ + port
    }
}

/// The bindings of all ports, port by port.
pub open spec fn bound_ports(ports: Seq<Port>) -> Seq<Seq<char>>
    decreases ports.len(),
{
    if ports.len() == 0 {
        Seq::empty()
    } else {
        let last = ports.last();
        bound_ports(ports.drop_last()) + match last.bindings {
            Some(l) => Seq::new(l@.len(), |i: int| bound_port(l@[i], last.port@)),
            None => Seq::empty(),
        }
    }
}

/// The field of the ports, which is left out if none is bound.
pub open spec fn ports_field(ports: Option<Vec<Port>>) -> FieldTold {
    FieldTold {
        label: "ports"@,
        told: ports matches Some(l) && bound_ports(l@).len() > 0,
        fits: |v: Seq<char>| ports matches Some(l) && v == strung(bound_ports(l@), ", "@),
    }
}

/// The fields of what an inspection found, in the order in which they are shown.
pub open spec fn inspected(i: Inspect) -> Seq<FieldTold> {
    let config = i.config;
    let state = i.state;
    let net = i.network_settings;
    seq![
        text_field("image"@, i.image),
        text_field("tag"@, match config { Some(c) => c.image, None => None }),
        words_field("cmd"@, match config { Some(c) => c.cmd, None => None }),
        words_field("entrypoint"@, match config { Some(c) => c.entrypoint, None => None }),
        filled_field("workdir"@, match config { Some(c) => c.working_dir, None => None }),
        text_field("state"@, match state { Some(s) => s.status, None => None }),
        pid_field(match state { Some(s) => s.pid, None => None }),
        filled_field("started"@, match state { Some(s) => s.started_at, None => None }),
        text_field("created"@, i.created),
        networks_field(match net { Some(n) => n.networks, None => None }),
        ports_field(match net { Some(n) => n.ports, None => None }),
        text_field(
            "restart"@,
            match i.host_config {
                Some(h) => match h.restart_policy { Some(p) => p.name, None => None },
                None => None,
            },
        ),
    ]
}

proof fn field_lines_are_fields(label: Seq<char>, value: Seq<char>)
    requires
        label.len() <= 11,
    ensures
        is_field(field_line(label, value), label, value),
{
    reveal_strlit(": ");
    let front = right_aligned(label, 11);
    let text = front + ": "@;
    assert(text.take(text.len() - 2) =~= front);
    assert(text.skip(text.len() - 2) =~= ": "@);
    assert(front.skip(front.len() - label.len()) =~= label);
}

proof fn one_field_more(
    lines: Seq<LineView>,
    fields: Seq<FieldTold>,
    value: Option<Seq<char>>,
    told: FieldTold,
)
    requires
        are_fields(lines, fields),
        told.label.len() <= 11,
        told.told == (value is Some),
        value matches Some(v) ==> (told.fits)(v),
    ensures
        are_fields(lines + opt_line(told.label, value), fields.push(told)),
{
    assert(fields.push(told).drop_last() =~= fields);
    match value {
        Some(v) => {
            field_lines_are_fields(told.label, v);
            let more = lines + opt_line(told.label, value);
            assert(more.drop_last() =~= lines);
            assert(more.last() == field_line(told.label, v));
        },
        None => {
            assert(lines + opt_line(told.label, value) =~= lines);
        },
    }
}

proof fn words_fit(list: Option<Vec<String>>)
    ensures
        words(list) matches Some(v) ==> list is Some && v == strung(
            Seq::new(list->0@.len(), |i: int| list->0@[i]@),
            " "@,
        ),
{
    if let Some(l) = list {
        joined_is_strung(texts(l@), " "@);
        assert(texts(l@) =~= Seq::new(l@.len(), |i: int| l@[i]@));
    }
}

proof fn networks_fit(networks: Option<Vec<Network>>)
    ensures
        networks_text(networks) is Some == networks_field(networks).told,
        networks_text(networks) matches Some(v) ==> (networks_field(networks).fits)(v),
{
    if let Some(l) = networks {
        let parts = Seq::new(l@.len(), |i: int| network_text(l@[i]));
        joined_is_strung(parts, ", "@);
        assert(parts =~= Seq::new(l@.len(), |i: int| named_network(l@[i])));
    }
}

proof fn bindings_fit(ports: Seq<Port>)
    ensures
        all_bindings(ports) == bound_ports(ports),
    decreases ports.len(),
{
    if ports.len() > 0 {
        bindings_fit(ports.drop_last());
        let last = ports.last();
        if let Some(l) = last.bindings {
            assert(port_bindings(last) =~= Seq::new(l@.len(), |i: int| bound_port(l@[i], last.port@)));
        }
    }
}

proof fn ports_fit(ports: Option<Vec<Port>>)
    ensures
        ports_text(ports) is Some == ports_field(ports).told,
        ports_text(ports) matches Some(v) ==> (ports_field(ports).fits)(v),
{
    if let Some(l) = ports {
        bindings_fit(l@);
        joined_is_strung(bound_ports(l@), ", "@);
    }
}

proof fn labels_are_short()
    ensures
        "id"@.len() <= 11,
        "name"@.len() <= 11,
        "image"@.len() <= 11,
        "tag"@.len() <= 11,
        "cmd"@.len() <= 11,
        "entrypoint"@.len() <= 11,
        "workdir"@.len() <= 11,
        "state"@.len() <= 11,
        "pid"@.len() <= 11,
        "started"@.len() <= 11,
        "created"@.len() <= 11,
        "networks"@.len() <= 11,
        "ports"@.len() <= 11,
        "restart"@.len() <= 11,
{
    reveal_strlit("id");
    reveal_strlit("name");
    reveal_strlit("image");
    reveal_strlit("tag");
    reveal_strlit("cmd");
    reveal_strlit("entrypoint");
    reveal_strlit("workdir");
    reveal_strlit("state");
    reveal_strlit("pid");
    reveal_strlit("started");
    reveal_strlit("created");
    reveal_strlit("networks");
    reveal_strlit("ports");
    reveal_strlit("restart");
}

proof fn config_is_told(lines: Seq<LineView>, fields: Seq<FieldTold>, i: Inspect)
    requires
        are_fields(lines, fields),
        fields.len() == 1,
        fields == seq![inspected(i)[0]],
    ensures
        are_fields(lines + config_lines(i.config), inspected(i).take(5)),
{
    labels_are_short();
    let all = inspected(i);
    let image = match i.config { Some(c) => c.image, None => None };
    let cmd = match i.config { Some(c) => c.cmd, None => None };
    let entrypoint = match i.config { Some(c) => c.entrypoint, None => None };
    let workdir = match i.config { Some(c) => c.working_dir, None => None };
    words_fit(cmd);
    words_fit(entrypoint);
    let l1 = lines + opt_line("tag"@, opt_text(image));
    one_field_more(lines, fields, opt_text(image), all[1]);
    let l2 = l1 + opt_line("cmd"@, words(cmd));
    one_field_more(l1, fields.push(all[1]), words(cmd), all[2]);
    let l3 = l2 + opt_line("entrypoint"@, words(entrypoint));
    one_field_more(l2, fields.push(all[1]).push(all[2]), words(entrypoint), all[3]);
    let l4 = l3 + opt_line("workdir"@, filled(opt_text(workdir)));
    one_field_more(l3, fields.push(all[1]).push(all[2]).push(all[3]), filled(opt_text(workdir)), all[4]);
    assert(l4 =~= lines + config_lines(i.config));
    assert(fields.push(all[1]).push(all[2]).push(all[3]).push(all[4]) =~= all.take(5));
}

proof fn state_is_told(lines: Seq<LineView>, i: Inspect)
    requires
        are_fields(lines, inspected(i).take(5)),
    ensures
        are_fields(lines + state_lines(i.state), inspected(i).take(8)),
{
    labels_are_short();
    let all = inspected(i);
    let fields = all.take(5);
    let status = match i.state { Some(s) => s.status, None => None };
    let pid = match i.state { Some(s) => s.pid, None => None };
    let started = match i.state { Some(s) => s.started_at, None => None };
    let l1 = lines + opt_line("state"@, opt_text(status));
    one_field_more(lines, fields, opt_text(status), all[5]);
    let l2 = l1 + opt_line("pid"@, pid_text(pid));
    if let Some(p) = pid {
        if p > 0 {
            decimal_text_is_numeral(p as nat);
        }
    }
    one_field_more(l1, fields.push(all[5]), pid_text(pid), all[6]);
    let l3 = l2 + opt_line("started"@, filled(opt_text(started)));
    one_field_more(l2, fields.push(all[5]).push(all[6]), filled(opt_text(started)), all[7]);
    assert(l3 =~= lines + state_lines(i.state));
    assert(fields.push(all[5]).push(all[6]).push(all[7]) =~= all.take(8));
}

proof fn networks_are_told(lines: Seq<LineView>, i: Inspect)
    requires
        are_fields(lines, inspected(i).take(9)),
    ensures
        are_fields(lines + network_lines(i.network_settings), inspected(i).take(11)),
{
    labels_are_short();
    let all = inspected(i);
    let fields = all.take(9);
    let networks = match i.network_settings { Some(n) => n.networks, None => None };
    let ports = match i.network_settings { Some(n) => n.ports, None => None };
    networks_fit(networks);
    ports_fit(ports);
    let l1 = lines + opt_line("networks"@, networks_text(networks));
    one_field_more(lines, fields, networks_text(networks), all[9]);
    let l2 = l1 + opt_line("ports"@, ports_text(ports));
    one_field_more(l1, fields.push(all[9]), ports_text(ports), all[10]);
    assert(l2 =~= lines + network_lines(i.network_settings));
    assert(fields.push(all[9]).push(all[10]) =~= all.take(11));
}

/// The lines of what an inspection found are its fields.
pub proof fn inspections_are_told(i: Inspect)
    ensures
        are_fields(inspect_lines(i), inspected(i)),
{
    labels_are_short();
    let all = inspected(i);
    let none = Seq::<LineView>::empty();
    assert(are_fields(none, Seq::<FieldTold>::empty()));
    let l1 = none + opt_line("image"@, opt_text(i.image));
    one_field_more(none, Seq::empty(), opt_text(i.image), all[0]);
    assert(Seq::<FieldTold>::empty().push(all[0]) =~= seq![all[0]]);
    config_is_told(l1, seq![all[0]], i);
    let l2 = l1 + config_lines(i.config);
    state_is_told(l2, i);
    let l3 = l2 + state_lines(i.state);
    one_field_more(l3, all.take(8), opt_text(i.created), all[8]);
    let l4 = l3 + opt_line("created"@, opt_text(i.created));
    assert(all.take(8).push(all[8]) =~= all.take(9));
    networks_are_told(l4, i);
    let l5 = l4 + network_lines(i.network_settings);
    one_field_more(l5, all.take(11), restart_text(i.host_config), all[11]);
    let l6 = l5 + opt_line("restart"@, restart_text(i.host_config));
    assert(all.take(11).push(all[11]) =~= all);
    assert(l6 =~= inspect_lines(i));
}

/// The cores in the popup: those in use, out of those that the host has, if it is known how many.
pub open spec fn tells_live_cores(text: Seq<char>, used: Seq<char>, ncpu: u64) -> bool {
    if ncpu == 0 {
        text.len() == 0
    } else {
        exists|n: Seq<char>|
            #[trigger] numeral(n, ncpu as int) && text == "  ("@ + used + " / "@ + n + " cores)"@
    }
}

/// The line tells the current readings of the row.
pub open spec fn live_tells(line: Seq<SpanView>, row: ContainerRow, ncpu: u64) -> bool {
    &&& line.len() == 5
    &&& is_colored(line[0], "       live: "@, Color::DarkGray)
    &&& line[1].text == "CPU "@ + row.cpu_pct.text@ + "%"@
    &&& warns_by(line[1], row.cpu_pct.bits, true)
    &&& tells_live_cores(line[2].text, row.cores.long@, ncpu) && is_plain(line[2], line[2].text)
    &&& is_plain(line[3], "    "@)
    &&& line[4].text == "MEM "@ + binary_size(row.mem_usage) + " / "@ + binary_size(row.mem_limit) + " ("@
        + row.mem_pct.text@ + "%)"@
    &&& warns_by(line[4], row.mem_pct.bits, true)
}

/// What is told between the name and the current readings: the fields that an inspection found, that
/// it is under way, or nothing if it failed.
pub open spec fn findings_tell(lines: Seq<Seq<SpanView>>, d: DetailState) -> bool {
    match d.inspect {
        Some(i) => are_fields(lines, inspected(i)),
        None => if d.is_error {
            lines.len() == 0
        } else {
            lines.len() == 1 && lines[0].len() == 1 && is_colored(
                lines[0][0],
                "loading inspect..."@,
                Color::DarkGray,
            )
        },
    }
}

/// The lines tell of the container: its identifier, its name, what was found, and the current
/// readings of `live` if there is such a row.
pub open spec fn info_tells(
    lines: Seq<Seq<SpanView>>,
    d: DetailState,
    live: Option<ContainerRow>,
    ncpu: u64,
) -> bool {
    let end = if live is Some {
        lines.len() - 1
    } else {
        lines.len() as int
    };
    &&& end >= 2
    &&& is_field(lines[0], "id"@, d.id@)
    &&& is_field(lines[1], "name"@, d.name@)
    &&& findings_tell(lines.subrange(2, end), d)
    &&& live matches Some(row) ==> live_tells(lines.last(), row, ncpu)
}

/// The lines of the popup tell of the container.
pub proof fn details_tell(d: DetailState, live: Option<ContainerRow>, ncpu: u64)
    ensures
        info_tells(detail_lines(d, live, ncpu), d, live, ncpu),
{
    let lines = detail_lines(d, live, ncpu);
    let end = if live is Some {
        lines.len() - 1
    } else {
        lines.len() as int
    };
    labels_are_short();
    field_lines_are_fields("id"@, d.id@);
    field_lines_are_fields("name"@, d.name@);
    assert(lines.subrange(2, end) =~= finding_lines(d));
    if let Some(i) = d.inspect {
        inspections_are_told(i);
    }
    if let Some(row) = live {
        decimal_text_is_numeral(ncpu as nat);
        let line = live_line(row, ncpu);
        assert(lines.last() == line);
        assert(line[4].text =~= "MEM "@ + binary_size(row.mem_usage) + " / "@ + binary_size(row.mem_limit)
            + " ("@ + row.mem_pct.text@ + "%)"@);
    }
}

/// The popup's lines tell of the container and of the row that they are given.
pub proof fn detail_lines_tell(d: DetailState, live: Option<&ContainerRow>, ncpu: u64, r: Vec<Line>)
    requires
        call_ensures(build_detail_lines, (&d, live, ncpu), r),
    ensures
        info_tells(
            all_pieces(r@),
            d,
            match live {
                Some(row) => Some(*row),
                None => None,
            },
            ncpu,
        ),
{
    all_pieces_are_shown(r@);
    details_tell(
        d,
        match live {
            Some(row) => Some(*row),
            None => None,
        },
        ncpu,
    );
}

/// A field shows its label and its value.
pub proof fn fields_show_their_values(label: &str, value: &str, r: Line)
    requires
        call_ensures(field, (label, value), r),
        label@.len() <= 11,
    ensures
        is_field(pieces(r), label@, value@),
{
    pieces_are_shown(r);
    field_lines_are_fields(label@, value@);
}

/// `j` is the first of the rows with that identifier.
pub open spec fn is_first_with(rows: Seq<ContainerRow>, id: Seq<char>, j: int) -> bool {
    &&& 0 <= j < rows.len()
    &&& rows[j].id@ == id
    &&& forall|i: int| 0 <= i < j ==> (#[trigger] rows[i]).id@ != id
}

/// None of the rows has that identifier.
pub open spec fn is_unlisted(rows: Seq<ContainerRow>, id: Seq<char>) -> bool {
    forall|i: int| 0 <= i < rows.len() ==> (#[trigger] rows[i]).id@ != id
}

/// The first row with an identifier is the one before which none has it.
pub proof fn first_is_first(rows: Seq<ContainerRow>, id: Seq<char>)
    ensures
        first_with_id(rows, id) is None ==> is_unlisted(rows, id),
        first_with_id(rows, id) matches Some(row) ==> exists|j: int| #[trigger] is_first_with(rows, id, j)
            && rows[j] == row,
    decreases rows.len(),
{
    if rows.len() > 0 {
        if rows[0].id@ == id {
            assert(is_first_with(rows, id, 0));
        } else {
            let rest = rows.drop_first();
            first_is_first(rest, id);
            if let Some(row) = first_with_id(rest, id) {
                let j = choose|j: int| #[trigger] is_first_with(rest, id, j) && rest[j] == row;
                assert forall|i: int| 0 <= i < j + 1 implies (#[trigger] rows[i]).id@ != id by {
                    if i > 0 {
                        assert(rest[i - 1] == rows[i]);
                    }
                }
                assert(rest[j] == rows[j + 1]);
                assert(is_first_with(rows, id, j + 1));
            } else {
                assert forall|i: int| 0 <= i < rows.len() implies (#[trigger] rows[i]).id@ != id by {
                    if i > 0 {
                        assert(rest[i - 1] == rows[i]);
                    }
                }
            }
        }
    }
}

proof fn first_is_unique(rows: Seq<ContainerRow>, id: Seq<char>, i: int, j: int)
    requires
        is_first_with(rows, id, i),
        is_first_with(rows, id, j),
    ensures
        i == j,
{
    if i < j {
        assert(rows[i].id@ != id);
    } else if j < i {
        assert(rows[j].id@ != id);
    }
}

/// The row that is found for an identifier has it, and no row before it does; none is found only if
/// no row has it.
pub proof fn rows_are_found_by_id(rows: Vec<ContainerRow>, id: String, r: Option<&ContainerRow>)
    requires
        call_ensures(find_row, (&rows, &id), r),
    ensures
        r is None <==> is_unlisted(rows@, id@),
        r matches Some(row) ==> exists|j: int| #[trigger] is_first_with(rows@, id@, j) && rows@[j] == *row,
{
    first_is_first(rows@, id@);
}

/// Half of what is left beside the popup lies before it; it is as wide as the frame up to 60 cells,
/// then 60, four less than the frame from 64 on, and 110 at most; and as high as its lines, its border,
/// a message if there is one and the hints need, or as the frame is.
pub open spec fn popup_lies(area: Area, frame: Area, lines: nat, has_status: bool) -> bool {
    let needed = lines % 0x1_0000 + if has_status {
        4int
    } else {
        3int
    };
    &&& area.width == if frame.width <= 60 {
        frame.width as int
    } else if frame.width <= 64 {
        60
    } else if frame.width <= 114 {
        frame.width - 4
    } else {
        110
    }
    &&& area.height == if needed <= frame.height {
        needed
    } else {
        frame.height as int
    }
    &&& area.x == frame.x + (frame.width - area.width) / 2
    &&& area.y == frame.y + (frame.height - area.height) / 2
}

/// The place of the popup, where it has one.
pub proof fn places_lie(lines: nat, has_status: bool, frame: Area)
    requires
        popup_has_place(lines, has_status, frame),
    ensures
        popup_lies(popup_place(lines, has_status, frame), frame, lines, has_status),
{
}

/// The popup is put in the middle of the frame, in its size.
pub proof fn popup_is_centered(lines: usize, has_status: bool, frame: Area, fits: bool, r: Area)
    requires
        call_ensures(has_place, (lines, has_status, frame), fits),
        fits,
        call_ensures(popup_area, (lines, has_status, frame), r),
    ensures
        popup_lies(r, frame, lines as nat, has_status),
{
    places_lie(lines as nat, has_status, frame);
}

/// There is an area where the popup is to lie.
pub open spec fn can_lie(frame: Area, lines: nat, has_status: bool) -> bool {
    exists|area: Area| popup_lies(area, frame, lines, has_status)
}

/// The popup has a place exactly if there is an area that lies where it is to lie.
pub proof fn places_are_tested(lines: usize, has_status: bool, frame: Area, r: bool)
    requires
        call_ensures(has_place, (lines, has_status, frame), r),
    ensures
        r == can_lie(frame, lines as nat, has_status),
{
    if r {
        places_lie(lines as nat, has_status, frame);
    }
}

/// The popup of a container can be drawn exactly if there is an area where its lines can lie.
pub proof fn drawing_is_tested(
    frame: Area,
    d: DetailState,
    rows: Vec<ContainerRow>,
    ncpu: u64,
    live: Option<&ContainerRow>,
    info: Vec<Line>,
    r: bool,
)
    requires
        call_ensures(can_draw_popup, (frame, &d, &rows), r),
        call_ensures(find_row, (&rows, &d.id), live),
        call_ensures(build_detail_lines, (&d, live, ncpu), info),
    ensures
        r == can_lie(frame, info@.len(), d.status_msg is Some),
{
    let row = first_with_id(rows@, d.id@);
    detail_is_short(d, row, ncpu);
    assert(shown(info@).len() == info@.len());
    if r {
        places_lie(info@.len(), d.status_msg is Some, frame);
    }
}

/// What is centered has the size that is asked for, or as much of it as fits, and half of what is left
/// lies before it.
pub proof fn centering_halves_the_rest(width: u16, height: u16, r: Area, out: Area)
    requires
        call_ensures(centered_fixed, (width, height, r), out),
        r.x + r.width <= u16::MAX,
        r.y + r.height <= u16::MAX,
    ensures
        out.width == if width <= r.width { width } else { r.width },
        out.height == if height <= r.height { height } else { r.height },
        out.x == r.x + (r.width - out.width) / 2,
        out.y == r.y + (r.height - out.height) / 2,
{
}

/// Lines are counted up to 65535 and then from zero again.
pub proof fn lines_are_counted(lines: usize, r: u16)
    requires
        call_ensures(line_count, (lines,), r),
    ensures
        r == lines % 0x1_0000,
{
}

/// The question or the keys at the bottom of the popup.
pub open spec fn hints_tell(line: Seq<SpanView>, d: DetailState) -> bool {
    if d.confirming_kill {
        &&& line.len() == 6
        &&& is_badge(line[0], " KILL? "@, Color::White, Color::Red)
        &&& is_plain(line[1], " send SIGKILL to "@ + d.name@ + "?   "@)
        &&& is_colored(line[2], " y/Enter "@, Color::Red)
        &&& is_plain(line[3], "confirm  "@)
        &&& is_colored(line[4], " n/Esc "@, Color::Cyan)
        &&& is_plain(line[5], "cancel"@)
    } else {
        &&& line.len() == 4
        &&& line[0].text == " k "@ && line[0].style == (Style {
            fg: Some(Color::White),
            bg: Some(Color::Red),
            bold: false,
            dim: false,
        })
        &&& is_plain(line[1], " kill   "@)
        &&& is_colored(line[2], " Esc/q "@, Color::Cyan)
        &&& is_plain(line[3], "close"@)
    }
}

/// The message of the popup, red if it tells of an error and else green.
pub open spec fn status_tells(status: Option<Line>, d: DetailState) -> bool {
    match d.status_msg {
        None => status is None,
        Some(message) => {
            &&& status matches Some(line)
            &&& pieces(line).len() == 1
            &&& is_bold(
                pieces(line)[0],
                message@,
                Some(
                    if d.is_error {
                        Color::Red
                    } else {
                        Color::Green
                    },
                ),
            )
        },
    }
}

/// The area lies in the one that a border leaves of `outer`, as wide as that.
pub open spec fn lies_inside(area: Area, outer: Area) -> bool {
    exists|inner: Area|
        #[trigger] within_border(inner, outer) && area.within(inner) && area.x == inner.x && area.width
            == inner.width
}

/// The frame of the popup around `lines` lines: its title, its border, its place, its message and its
/// hints.
pub open spec fn popup_frames(p: Popup, frame: Area, d: DetailState, lines: nat) -> bool {
    &&& popup_lies(p.area, frame, lines, d.status_msg is Some)
    &&& p.title@ == " container · "@ + d.name@ + " "@
    &&& p.border == Color::Cyan
    &&& status_tells(p.status, d)
    &&& hints_tell(pieces(p.hints), d)
    &&& lies_inside(p.info_area, p.area)
    &&& lies_inside(p.status_area, p.area)
    &&& lies_inside(p.hints_area, p.area)
    &&& rows_divide(p, lines, d.status_msg is Some)
}

/// The lines, the message and the hints divide the area inside the border from top to bottom: as many
/// rows as there are lines, one for a message, and one for the hints.
pub open spec fn rows_divide(p: Popup, lines: nat, has_status: bool) -> bool {
    let message = if has_status {
        1u16
    } else {
        0u16
    };
    exists|inner: Area|
        {
            &&& #[trigger] within_border(inner, p.area)
            &&& may_divide(
                inner,
                Axis::Vertical,
                seq![
                    Extent::Length((lines % 0x1_0000) as u16),
                    Extent::Length(message),
                    Extent::Length(1),
                ],
                seq![p.info_area, p.status_area, p.hints_area],
            )
        }
}

proof fn popups_frame(p: Popup, frame: Area, d: DetailState, lines: Seq<LineView>)
    requires
        is_popup_with(p, frame, d, lines),
        popup_has_place(lines.len(), d.status_msg is Some, frame),
    ensures
        popup_frames(p, frame, d, lines.len()),
        all_pieces(p.info@) == lines,
{
    places_lie(lines.len(), d.status_msg is Some, frame);
    all_pieces_are_shown(p.info@);
    pieces_are_shown(p.hints);
    if let Some(line) = p.status {
        pieces_are_shown(line);
    }
    assert(within_border(inside_border(p.area), p.area));
}

/// The popup tells of its container: the current readings in it are those of the first row on the
/// screen that has the container's identifier, and there are none exactly if no row has it.
pub open spec fn popup_tells(p: Popup, frame: Area, d: DetailState, rows: Seq<ContainerRow>, ncpu: u64) -> bool {
    let info = all_pieces(p.info@);
    &&& popup_frames(p, frame, d, info.len())
    &&& forall|j: int| #[trigger] is_first_with(rows, d.id@, j) ==> info_tells(info, d, Some(rows[j]), ncpu)
    &&& is_unlisted(rows, d.id@) ==> info_tells(info, d, None, ncpu)
}

/// What is a popup tells of its container.
pub proof fn popups_tell(p: Popup, frame: Area, d: DetailState, rows: Seq<ContainerRow>, ncpu: u64)
    requires
        is_popup(p, frame, d, rows, ncpu),
        popup_fits(frame, d, rows),
    ensures
        popup_tells(p, frame, d, rows, ncpu),
{
    let live = first_with_id(rows, d.id@);
    let lines = detail_lines(d, live, ncpu);
    detail_is_short(d, live, ncpu);
    popups_frame(p, frame, d, lines);
    details_tell(d, live, ncpu);
    first_is_first(rows, d.id@);
    assert forall|j: int| #[trigger] is_first_with(rows, d.id@, j) implies info_tells(
        all_pieces(p.info@),
        d,
        Some(rows[j]),
        ncpu,
    ) by {
        if let Some(row) = live {
            let k = choose|k: int| #[trigger] is_first_with(rows, d.id@, k) && rows[k] == row;
            first_is_unique(rows, d.id@, j, k);
        } else {
            assert(rows[j].id@ != d.id@);
        }
    }
    if is_unlisted(rows, d.id@) {
        if let Some(row) = live {
            let k = choose|k: int| #[trigger] is_first_with(rows, d.id@, k) && rows[k] == row;
            assert(rows[k].id@ != d.id@);
        }
    }
}

/// The popup shows its container, with the current readings of the row that has its identifier.
pub proof fn popup_shows_its_container(
    frame: Area,
    d: DetailState,
    rows: Vec<ContainerRow>,
    ncpu: u64,
    fits: bool,
    r: Popup,
)
    requires
        call_ensures(can_draw_popup, (frame, &d, &rows), fits),
        fits,
        call_ensures(draw_popup, (frame, &d, &rows, ncpu), r),
    ensures
        popup_tells(r, frame, d, rows@, ncpu),
        forall|j: int|
            #[trigger] is_first_with(rows@, d.id@, j) ==> r.info@.len() > 0 && live_tells(
                pieces(r.info@.last()),
                rows@[j],
                ncpu,
            ),
{
    popups_tell(r, frame, d, rows@, ncpu);
    assert forall|j: int| #[trigger] is_first_with(rows@, d.id@, j) implies r.info@.len() > 0 && live_tells(
        pieces(r.info@.last()),
        rows@[j],
        ncpu,
    ) by {
        let info = all_pieces(r.info@);
        assert(info_tells(info, d, Some(rows@[j]), ncpu));
        assert(info.last() == pieces(r.info@.last()));
    }
}

/// The popup frames the lines that it is given, and shows them as they are.
pub proof fn popup_frames_its_lines(frame: Area, d: DetailState, info: Vec<Line>, fits: bool, r: Popup)
    requires
        call_ensures(has_place, ((info.len()), d.status_msg is Some, frame), fits),
        fits,
        call_ensures(popup_with, (frame, &d, info), r),
    ensures
        popup_frames(r, frame, d, info@.len()),
        all_pieces(r.info@) == all_pieces(info@),
{
    assert(shown(info@).len() == info@.len());
    popups_frame(r, frame, d, shown(info@));
    all_pieces_are_shown(info@);
}

/// The screen shows the rows, the snapshot and the state of the user interface that it is given: the
/// header, the table, the panel of the selected row, the footer, and the popup exactly if it is open;
/// the four parts are as wide as the frame and lie within it.
pub proof fn screen_shows_everything(
    frame: Area,
    rows: Vec<ContainerRow>,
    snapshot: Snapshot,
    load: Load,
    ui: Ui,
    now: u128,
    r: Scene,
)
    requires
        ui.screen matches Screen::Detail(d) ==> popup_fits(frame, d, rows@),
        call_ensures(draw, (frame, &rows, &snapshot, &load, &ui, now), r),
    ensures
        header_tells(
            pieces(r.header),
            snapshot,
            load,
            rows@.len(),
            ui.sort,
            ui.filter@,
            ui.editing_filter,
            now,
        ),
        table_tells(r.table, rows@, ui.sort),
        r.panel_title@ == " selected "@,
        panel_tells(r.panel, r.panel_area, rows@, ui.selected, snapshot.host_ncpu),
        footer_tells(r.footer, ui.filter@, ui.editing_filter, ui.screen),
        ui.screen is Table ==> r.popup is None,
        ui.screen matches Screen::Detail(d) ==> (r.popup matches Some(p) && popup_tells(
            p,
            frame,
            d,
            rows@,
            snapshot.host_ncpu,
        )),
        may_divide(
            frame,
            Axis::Vertical,
            seq![Extent::Length(1), Extent::Min(5), Extent::Length(5), Extent::Length(1)],
            seq![r.header_area, r.table_area, r.panel_area, r.footer_area],
        ),
        forall|part: Area|
            part == r.header_area || part == r.table_area || part == r.panel_area || part == r.footer_area
                ==> #[trigger] part.within(frame) && part.x == frame.x && part.width == frame.width,
{
    pieces_are_shown(r.header);
    headers_tell(snapshot, load, rows@.len(), ui.sort, ui.filter@, ui.editing_filter, now);
    tables_tell(r.table, rows@, ui.sort);
    panels_tell(r.panel, r.panel_area, rows@, ui.selected, snapshot.host_ncpu);
    footers_tell(r.footer, ui.filter@, ui.editing_filter, ui.screen);
    if let Screen::Detail(d) = ui.screen {
        popups_tell(r.popup->0, frame, d, rows@, snapshot.host_ncpu);
    }
}

} // verus!
