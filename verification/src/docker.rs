//! What the daemon reports: containers, their statistics, and the snapshots
//! that are made of them.

use crate::percent::Percent;
use crate::rows::{ContainerRow, Cores};
use crate::text::{
    can_cut, cut_id, cuttable, first_chars, leading_bytes, take_chars, trim_slashes,
    without_leading_slashes, SHORT_ID_BYTES,
};
use vstd::prelude::*;
use vstd::string::*;

verus! {

/// A container as the daemon lists it; any part may be missing.
#[derive(Debug)]
pub struct Summary {
    pub id: Option<String>,
    pub names: Option<Vec<String>>,
    pub image: Option<String>,
    pub status: Option<String>,
}

/// A container whose statistics are to be read.
#[derive(Debug, PartialEq, Eq)]
pub struct Target {
    pub id: String,
    pub name: String,
    pub image: String,
    pub status: String,
}

/// What a target shows.
pub struct TargetView {
    pub id: Seq<char>,
    pub name: Seq<char>,
    pub image: Seq<char>,
    pub status: Seq<char>,
}

impl View for Target {
    type V = TargetView;

    open spec fn view(&self) -> TargetView {
        TargetView { id: self.id@, name: self.name@, image: self.image@, status: self.status@ }
    }
}

/// The text, or nothing if it is missing.
pub open spec fn text_or_empty(text: Option<String>) -> Seq<char> {
    match text {
        Some(t) => t@,
        None => Seq::empty(),
    }
}

/// The first of the names, if there is one.
pub open spec fn first_name(names: Option<Vec<String>>) -> Option<Seq<char>> {
    match names {
        Some(list) => if list@.len() > 0 {
            Some(list@[0]@)
        } else {
            None
        },
        None => None,
    }
}

/// A container without a name is named by its identifier, which then has to be
/// long enough to be cut.
pub open spec fn nameable(c: Summary) -> bool {
    c.id matches Some(id) ==> first_name(c.names) is None ==> can_cut(id@)
}

/// The target that a listed container with an identifier becomes: its first
/// name without leading slashes, or the front of its identifier.
pub open spec fn target_of(c: Summary) -> TargetView {
    let id = text_or_empty(c.id);
    TargetView {
        id,
        name: match first_name(c.names) {
            Some(name) => without_leading_slashes(name),
            None => leading_bytes(id),
        },
        image: text_or_empty(c.image),
        status: text_or_empty(c.status),
    }
}

/// The containers that have an identifier.
pub open spec fn identified(list: Seq<Summary>) -> Seq<Summary> {
    list.filter(|c: Summary| c.id is Some)
}

fn text_or_default(text: Option<String>) -> (r: String)
    ensures
        r@ == text_or_empty(text),
{
    match text {
        Some(t) => t,
        None => String::new(),
    }
}

/// Whether a name can be found for every container.
pub fn check_nameable(list: &Vec<Summary>) -> (r: bool)
    ensures
        r == forall|i: int| 0 <= i < list@.len() ==> nameable(#[trigger] list@[i]),
{
    let mut i: usize = 0;
    while i < list.len()
        invariant
            i <= list.len(),
            forall|k: int| 0 <= k < i ==> nameable(#[trigger] list@[k]),
        decreases list.len() - i,
    {
        if let Some(id) = &list[i].id {
            let named = match &list[i].names {
                Some(names) => names.len() > 0,
                None => false,
            };
            if !named && !cuttable(id.as_str()) {
                assert(!nameable(list@[i as int]));
                return false;
            }
        }
        i = i + 1;
    }
    true
}

/// The targets of a list of containers: one for each that has an identifier, in order.
pub fn list_targets(list: Vec<Summary>) -> (r: Vec<Target>)
    requires
        forall|i: int| 0 <= i < list@.len() ==> nameable(#[trigger] list@[i]),
    ensures
        r@.len() == identified(list@).len(),
        forall|i: int| 0 <= i < r@.len() ==> (#[trigger] r@[i])@ == target_of(identified(list@)[i]),
{
    let mut targets: Vec<Target> = Vec::new();
    let ghost all = list@;
    assert(identified(all.take(0)) =~= Seq::empty()) by {
        reveal(Seq::filter);
    }
    for c in it: list.into_iter()
        invariant
            it.seq() == all,
            forall|i: int| 0 <= i < all.len() ==> nameable(#[trigger] all[i]),
            targets@.len() == identified(all.take(it.index() as int)).len(),
            forall|i: int| 0 <= i < targets@.len() ==> (#[trigger] targets@[i])@ == target_of(
                identified(all.take(it.index() as int))[i],
            ),
    {
        proof {
            let i = it.index() as int;
            assert(all.take(i + 1).drop_last() =~= all.take(i));
            assert(nameable(all[i]));
            reveal(Seq::filter);
        }
        if let Some(id) = c.id {
            let named = match &c.names {
                Some(names) => if names.len() > 0 {
                    Some(trim_slashes(names[0].as_str()).to_owned())
                } else {
                    None
                },
                None => None,
            };
            let name = match named {
                Some(name) => name,
                None => cut_id(id.as_str()).to_owned(),
            };
            targets.push(
                Target { id, name, image: text_or_default(c.image), status: text_or_default(c.status) },
            );
        }
    }
    assert(all.take(all.len() as int) =~= all);
    targets
}

/// The part of the memory statistics that tells how much page cache there is.
#[derive(Clone, Copy, Debug, PartialEq, Eq)]
pub enum MemoryDetail {
    V1 { cache: u64 },
    V2 { inactive_file: u64 },
}

/// One reading of a container's counters, beside the counters of the reading before.
#[derive(Clone, Copy, Debug, PartialEq, Eq)]
pub struct Stats {
    pub cpu_total: u64,
    pub previous_cpu_total: u64,
    pub system_cpu: Option<u64>,
    pub previous_system_cpu: Option<u64>,
    pub mem_usage: Option<u64>,
    pub mem_detail: Option<MemoryDetail>,
    pub mem_limit: Option<u64>,
}

/// A counter, zero if it is missing.
pub open spec fn or_zero(counter: Option<u64>) -> u64 {
    match counter {
        Some(n) => n,
        None => 0,
    }
}

/// The page cache of a container.
pub open spec fn page_cache(stats: Stats) -> u64 {
    match stats.mem_detail {
        Some(MemoryDetail::V1 { cache }) => cache,
        Some(MemoryDetail::V2 { inactive_file }) => inactive_file,
        None => 0,
    }
}

/// What is left of `a` when `b` is taken away, zero at least.
pub open spec fn difference(a: u64, b: u64) -> int {
    if a >= b {
        a - b
    } else {
        0
    }
}

/// The memory in use without the page cache.
pub open spec fn mem_in_use(stats: Stats) -> int {
    difference(or_zero(stats.mem_usage), page_cache(stats))
}

/// Memory in use without the page cache, and the limit.
pub fn calc_mem(stats: &Stats) -> (r: (u64, u64))
    ensures
        r.0 == mem_in_use(*stats),
        r.1 == or_zero(stats.mem_limit),
{
    let usage: u64 = stats.mem_usage.unwrap_or(0);
    let cache: u64 = match stats.mem_detail {
        Some(MemoryDetail::V1 { cache }) => cache,
        Some(MemoryDetail::V2 { inactive_file }) => inactive_file,
        None => 0,
    };
    (usage.saturating_sub(cache), stats.mem_limit.unwrap_or(0))
}

/// The CPU time that the whole host spent between the two readings.
fn system_delta(stats: &Stats) -> (r: u64)
    ensures
        r == difference(or_zero(stats.system_cpu), or_zero(stats.previous_system_cpu)),
{
    stats.system_cpu.unwrap_or(0).saturating_sub(stats.previous_system_cpu.unwrap_or(0))
}

/// A share of a whole: none, or what a counter gained from `before` to `now`.
#[derive(Clone, Copy, Debug, PartialEq, Eq)]
pub enum Share {
    Zero,
    Of { now: u64, before: u64, whole: u64 },
}

/// What a counter gained, as a share of the whole; none if it gained nothing or
/// there is no whole.
pub open spec fn gain(now: u64, before: u64, whole: int) -> Share {
    if now > before && whole > 0 {
        Share::Of { now, before, whole: whole as u64 }
    } else {
        Share::Zero
    }
}

/// The container's share of the CPU time that the whole host spent.
pub fn calc_cpu_pct(stats: &Stats) -> (r: Share)
    ensures
        r == gain(
            stats.cpu_total,
            stats.previous_cpu_total,
            difference(or_zero(stats.system_cpu), or_zero(stats.previous_system_cpu)),
        ),
{
    let whole: u64 = system_delta(stats);
    if stats.cpu_total > stats.previous_cpu_total && whole > 0 {
        Share::Of { now: stats.cpu_total, before: stats.previous_cpu_total, whole }
    } else {
        Share::Zero
    }
}

/// The memory in use as a share of what there is.
pub fn mem_share(used: u64, total: u64) -> (r: Share)
    ensures
        r == gain(used, 0, total as int),
{
    if used > 0 && total > 0 {
        Share::Of { now: used, before: 0, whole: total }
    } else {
        Share::Zero
    }
}

/// A total of the host: what the daemon reports, zero if it is missing or negative.
pub fn host_total(reported: Option<i64>) -> (r: u64)
    ensures
        r == match reported {
            Some(n) => if n > 0 {
                n as int
            } else {
                0
            },
            None => 0,
        },
{
    match reported {
        Some(n) => if n > 0 {
            n as u64
        } else {
            0
        },
        None => 0,
    }
}

/// The readings of one container: its counters, and the percentages and cores that they
/// come to.
#[derive(Debug)]
pub struct Sample {
    pub stats: Stats,
    pub cpu_pct: Percent,
    pub cores: Cores,
    pub mem_pct: Percent,
}

/// A target, with its readings if they could be had.
#[derive(Debug)]
pub struct Outcome {
    pub target: Target,
    pub sample: Option<Sample>,
}

/// The row shows the target under the front of its identifier, with the readings.
pub open spec fn is_row_of(row: ContainerRow, target: Target, sample: Sample) -> bool {
    &&& row.id@ == first_chars(target.id@, SHORT_ID_BYTES as nat)
    &&& row.name == target.name
    &&& row.image == target.image
    &&& row.status == target.status
    &&& row.cpu_pct == sample.cpu_pct
    &&& row.cores == sample.cores
    &&& row.mem_usage == mem_in_use(sample.stats)
    &&& row.mem_limit == or_zero(sample.stats.mem_limit)
    &&& row.mem_pct == sample.mem_pct
}

/// The table row of a container.
pub fn make_row(target: Target, sample: Sample) -> (r: ContainerRow)
    ensures
        is_row_of(r, target, sample),
{
    let (mem_usage, mem_limit) = calc_mem(&sample.stats);
    ContainerRow {
        id: take_chars(target.id.as_str(), SHORT_ID_BYTES),
        name: target.name,
        image: target.image,
        status: target.status,
        cpu_pct: sample.cpu_pct,
        cores: sample.cores,
        mem_usage,
        mem_limit,
        mem_pct: sample.mem_pct,
    }
}

/// The outcomes that brought readings.
pub open spec fn sampled(outcomes: Seq<Outcome>) -> Seq<Outcome> {
    outcomes.filter(|o: Outcome| o.sample is Some)
}

/// The rows of the containers whose readings could be had, in order.
pub fn collect_rows(outcomes: Vec<Outcome>) -> (r: Vec<ContainerRow>)
    ensures
        r@.len() == sampled(outcomes@).len(),
        forall|i: int| 0 <= i < r@.len() ==> is_row_of(
            #[trigger] r@[i],
            sampled(outcomes@)[i].target,
            sampled(outcomes@)[i].sample->0,
        ),
{
    let mut rows: Vec<ContainerRow> = Vec::new();
    let ghost all = outcomes@;
    assert(sampled(all.take(0)) =~= Seq::empty()) by {
        reveal(Seq::filter);
    }
    for outcome in it: outcomes.into_iter()
        invariant
            it.seq() == all,
            rows@.len() == sampled(all.take(it.index() as int)).len(),
            forall|i: int| 0 <= i < rows@.len() ==> is_row_of(
                #[trigger] rows@[i],
                sampled(all.take(it.index() as int))[i].target,
                sampled(all.take(it.index() as int))[i].sample->0,
            ),
    {
        proof {
            let i = it.index() as int;
            assert(all.take(i + 1).drop_last() =~= all.take(i));
            reveal(Seq::filter);
        }
        if let Some(sample) = outcome.sample {
            rows.push(make_row(outcome.target, sample));
        }
    }
    assert(all.take(all.len() as int) =~= all);
    rows
}

/// What one round of requests brought.
#[derive(Debug)]
pub struct Fetched {
    pub rows: Vec<ContainerRow>,
    pub host_mem_total: u64,
    pub host_ncpu: u64,
}

/// The state of the host at one moment; times are nanoseconds of a steady clock.
#[derive(Debug)]
pub struct Snapshot {
    pub rows: Vec<ContainerRow>,
    pub host_mem_total: u64,
    pub host_ncpu: u64,
    pub error: Option<String>,
    pub fetched_at: Option<u128>,
}

impl Default for Snapshot {
    /// Nothing has been fetched yet.
    fn default() -> (r: Self)
        ensures
            r.rows@ == Seq::<ContainerRow>::empty(),
            r.host_mem_total == 0,
            r.host_ncpu == 0,
            r.error is None,
            r.fetched_at is None,
    {
        Snapshot { rows: Vec::new(), host_mem_total: 0, host_ncpu: 0, error: None, fetched_at: None }
    }
}

impl Snapshot {
    /// The snapshot of one round: what it brought, or nothing but its error.
    pub fn from_round(round: Result<Fetched, String>, now: u128) -> (r: Snapshot)
        ensures
            r.fetched_at == Some(now),
            match round {
                Ok(fetched) => {
                    &&& r.rows == fetched.rows
                    &&& r.host_mem_total == fetched.host_mem_total
                    &&& r.host_ncpu == fetched.host_ncpu
                    &&& r.error is None
                },
                Err(message) => {
                    &&& r.rows@ == Seq::<ContainerRow>::empty()
                    &&& r.host_mem_total == 0
                    &&& r.host_ncpu == 0
                    &&& r.error == Some(message)
                },
            },
    {
        match round {
            Ok(fetched) => Snapshot {
                rows: fetched.rows,
                host_mem_total: fetched.host_mem_total,
                host_ncpu: fetched.host_ncpu,
                error: None,
                fetched_at: Some(now),
            },
            Err(message) => Snapshot {
                rows: Vec::new(),
                host_mem_total: 0,
                host_ncpu: 0,
                error: Some(message),
                fetched_at: Some(now),
            },
        }
    }
}

/// The time between two rounds, in nanoseconds: one second.
pub const POLL_INTERVAL: u128 = 1_000_000_000;

/// What the poller does next.
#[derive(Clone, Copy, Debug, PartialEq, Eq)]
pub enum PollStep {
    /// Nobody takes the snapshots any more.
    Stop,
    /// Wait that many nanoseconds, then begin the next round.
    Wait(u128),
    /// Begin the next round.
    Again,
}

/// What follows a round that took `elapsed` nanoseconds, when its snapshot was
/// `delivered` or not: rounds begin an interval apart, or at once when one took longer.
pub fn after_round(delivered: bool, elapsed: u128) -> (r: PollStep)
    ensures
        !delivered ==> r == PollStep::Stop,
        delivered && elapsed < POLL_INTERVAL ==> r == PollStep::Wait((POLL_INTERVAL - elapsed) as u128),
        delivered && elapsed >= POLL_INTERVAL ==> r == PollStep::Again,
{
    if !delivered {
        PollStep::Stop
    } else if elapsed < POLL_INTERVAL {
        PollStep::Wait(POLL_INTERVAL - elapsed)
    } else {
        PollStep::Again
    }
}

/// The memory that the rows use together.
pub open spec fn mem_sum(rows: Seq<ContainerRow>) -> nat
    decreases rows.len(),
{
    if rows.len() == 0 {
        0
    } else {
        mem_sum(rows.drop_last()) + rows.last().mem_usage as nat
    }
}

proof fn mem_sum_grows(rows: Seq<ContainerRow>, n: int)
    requires
        0 <= n <= rows.len(),
    ensures
        mem_sum(rows.take(n)) <= mem_sum(rows),
    decreases rows.len() - n,
{
    if n < rows.len() {
        mem_sum_grows(rows, n + 1);
        assert(rows.take(n + 1).drop_last() =~= rows.take(n));
    } else {
        assert(rows.take(n) =~= rows);
    }
}

/// The memory that the rows use together, if it can be told in a `u64`.
pub fn checked_total_mem(rows: &Vec<ContainerRow>) -> (r: Option<u64>)
    ensures
        r is Some <==> mem_sum(rows@) <= u64::MAX,
        r matches Some(total) ==> total == mem_sum(rows@),
{
    let mut total: u64 = 0;
    let mut i: usize = 0;
    while i < rows.len()
        invariant
            i <= rows.len(),
            total == mem_sum(rows@.take(i as int)),
        decreases rows.len() - i,
    {
        assert(rows@.take(i + 1).drop_last() =~= rows@.take(i as int));
        proof {
            mem_sum_grows(rows@, i + 1);
        }
        match total.checked_add(rows[i].mem_usage) {
            Some(more) => {
                total = more;
            },
            None => {
                return None;
            },
        }
        i = i + 1;
    }
    assert(rows@.take(i as int) =~= rows@);
    Some(total)
}

/// The memory that the rows use together.
pub fn total_mem(rows: &Vec<ContainerRow>) -> (r: u64)
    requires
        mem_sum(rows@) <= u64::MAX,
    ensures
        r == mem_sum(rows@),
{
    match checked_total_mem(rows) {
        Some(total) => total,
        None => 0,
    }
}

} // verus!
