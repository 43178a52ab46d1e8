//! What callers can count on of the readings: whatever the functions of `docker` return for
//! what the daemon reports, told of their arguments and results alone.

use crate::docker::{
    after_round, calc_cpu_pct, calc_mem, check_nameable, checked_total_mem, collect_rows, host_total,
    identified, list_targets, make_row, mem_share, mem_sum, nameable, sampled, total_mem, Fetched,
    MemoryDetail, Outcome, PollStep, Sample, Share, Snapshot, Stats, Summary, Target,
};
use crate::rows::ContainerRow;
use crate::text::{can_cut, cut_at_boundary};
use crate::wording::{first_twelve_bytes, leading_bytes_are_twelve, slashes_are_trimmed, trimmed};
use vstd::prelude::*;
use vstd::utf8::*;

verus! {

/// CPU is the container's gain as a share of the host's gain, to the last unit; a counter of
/// the host that is missing before counts as zero. Where the container or the host gained
/// nothing there is no share.
pub proof fn cpu_is_a_share_of_the_host(stats: Stats, s: u64, p: u64, r: Share)
    requires
        call_ensures(calc_cpu_pct, (&stats,), r),
        stats.system_cpu == Some(s),
        stats.previous_system_cpu == Some(p) || stats.previous_system_cpu is None && p == 0,
    ensures
        stats.cpu_total > stats.previous_cpu_total && s > p ==> {
            &&& r matches Share::Of { now, before, whole }
            &&& now - before == stats.cpu_total - stats.previous_cpu_total
            &&& now == stats.cpu_total
            &&& whole == s - p
        },
        stats.cpu_total <= stats.previous_cpu_total || s <= p ==> r == Share::Zero,
{
}

/// Where the host does not count its CPU time there is no share of it.
pub proof fn uncounted_hosts_have_no_share(stats: Stats, r: Share)
    requires
        call_ensures(calc_cpu_pct, (&stats,), r),
        stats.system_cpu is None,
    ensures
        r == Share::Zero,
{
}

/// Memory is what is in use as a share of what there is, to the last byte.
pub proof fn memory_is_a_share_of_the_limit(used: u64, total: u64, r: Share)
    requires
        call_ensures(mem_share, (used, total), r),
    ensures
        used > 0 && total > 0 ==> {
            &&& r matches Share::Of { now, before, whole }
            &&& now - before == used
            &&& before == 0
            &&& whole == total
        },
        used == 0 || total == 0 ==> r == Share::Zero,
{
}

/// `left` is the usage less the page cache, or nothing where the cache is larger; what is
/// missing counts as zero.
pub open spec fn without_cache(stats: Stats, left: int) -> bool {
    let usage = match stats.mem_usage {
        Some(n) => n as int,
        None => 0,
    };
    let cache = match stats.mem_detail {
        Some(MemoryDetail::V1 { cache }) => cache as int,
        Some(MemoryDetail::V2 { inactive_file }) => inactive_file as int,
        None => 0,
    };
    if cache <= usage {
        left + cache == usage
    } else {
        left == 0
    }
}

/// `limit` is the limit, zero where it is missing.
pub open spec fn limits(stats: Stats, limit: int) -> bool {
    match stats.mem_limit {
        Some(n) => limit == n,
        None => limit == 0,
    }
}

/// The memory in use is told without the page cache, beside the limit.
pub proof fn memory_is_told_without_cache(stats: Stats, r: (u64, u64))
    requires
        call_ensures(calc_mem, (&stats,), r),
    ensures
        without_cache(stats, r.0 as int),
        limits(stats, r.1 as int),
{
}

/// A total of the host is told as reported, and as zero where it is missing or negative.
pub proof fn host_totals_are_as_reported(reported: Option<i64>, r: u64)
    requires
        call_ensures(host_total, (reported,), r),
    ensures
        reported matches Some(n) ==> (n >= 0 ==> r == n) && (n < 0 ==> r == 0),
        reported is None ==> r == 0,
{
}

/// The row tells of the target: the first twelve characters of its identifier, its name, image
/// and status, and the readings of the sample.
pub open spec fn tells_of(row: ContainerRow, target: Target, sample: Sample) -> bool {
    &&& row.id@ == if target.id@.len() > 12 {
        target.id@.take(12)
    } else {
        target.id@
    }
    &&& row.name@ == target.name@
    &&& row.image@ == target.image@
    &&& row.status@ == target.status@
    &&& row.cpu_pct.bits == sample.cpu_pct.bits
    &&& row.cpu_pct.text@ == sample.cpu_pct.text@
    &&& row.cores.short@ == sample.cores.short@
    &&& row.cores.long@ == sample.cores.long@
    &&& row.mem_pct.bits == sample.mem_pct.bits
    &&& row.mem_pct.text@ == sample.mem_pct.text@
    &&& without_cache(sample.stats, row.mem_usage as int)
    &&& limits(sample.stats, row.mem_limit as int)
}

/// A row tells of its target and its sample.
pub proof fn rows_tell_of_their_targets(target: Target, sample: Sample, r: ContainerRow)
    requires
        call_ensures(make_row, (target, sample), r),
    ensures
        tells_of(r, target, sample),
{
}

/// With one container more the rows stay as they were, and a row comes behind them that tells
/// of it, exactly if its readings could be had; no containers give no rows.
pub proof fn rows_come_one_by_one(
    front: Vec<Outcome>,
    last: Outcome,
    whole: Vec<Outcome>,
    f: Vec<ContainerRow>,
    w: Vec<ContainerRow>,
)
    requires
        call_ensures(collect_rows, (front,), f),
        call_ensures(collect_rows, (whole,), w),
        whole@ == front@.push(last),
    ensures
        front@.len() == 0 ==> f@.len() == 0,
        last.sample is None ==> w@.len() == f@.len(),
        last.sample matches Some(sample) ==> w@.len() == f@.len() + 1 && tells_of(
            w@.last(),
            last.target,
            sample,
        ),
        forall|i: int|
            0 <= i < f@.len() ==> (#[trigger] w@[i]).id@ == f@[i].id@ && w@[i].name@ == f@[i].name@
                && w@[i].image@ == f@[i].image@ && w@[i].status@ == f@[i].status@ && w@[i].cpu_pct
                == f@[i].cpu_pct && w@[i].cores == f@[i].cores && w@[i].mem_pct == f@[i].mem_pct
                && w@[i].mem_usage == f@[i].mem_usage && w@[i].mem_limit == f@[i].mem_limit,
{
    reveal(Seq::filter);
    assert(whole@.drop_last() =~= front@);
    let n = f@.len() as int;
    assert forall|i: int| 0 <= i < n implies sampled(whole@)[i] == sampled(front@)[i] by {}
    assert forall|i: int| 0 <= i < f@.len() implies (#[trigger] w@[i]).id@ == f@[i].id@ && w@[i].name@
        == f@[i].name@ && w@[i].image@ == f@[i].image@ && w@[i].status@ == f@[i].status@
        && w@[i].cpu_pct == f@[i].cpu_pct && w@[i].cores == f@[i].cores && w@[i].mem_pct
        == f@[i].mem_pct && w@[i].mem_usage == f@[i].mem_usage && w@[i].mem_limit == f@[i].mem_limit by {
        let _ = f@[i];
    }
}

/// `text` is what may be missing, or nothing.
pub open spec fn as_far_as_told(told: Option<String>, text: Seq<char>) -> bool {
    match told {
        Some(t) => text == t@,
        None => text.len() == 0,
    }
}

/// A container has a name of its own.
pub open spec fn is_named(c: Summary) -> bool {
    c.names matches Some(list) && list@.len() > 0
}

/// The target is the container with the identifier `id`: under its first name without leading
/// slashes, or under the first twelve bytes of its identifier if it has no name.
pub open spec fn stands_for(target: Target, c: Summary, id: Seq<char>) -> bool {
    &&& target.id@ == id
    &&& is_named(c) ==> trimmed(c.names->0@[0]@, target.name@)
    &&& !is_named(c) && is_char_boundary(encode_utf8(id), 12) ==> first_twelve_bytes(id, target.name@)
    &&& as_far_as_told(c.image, target.image@)
    &&& as_far_as_told(c.status, target.status@)
}

/// With one container more the targets stay as they were, and one comes behind them that stands
/// for it, exactly if it has an identifier; no containers give no targets.
pub proof fn targets_come_one_by_one(
    front: Vec<Summary>,
    last: Summary,
    whole: Vec<Summary>,
    f: Vec<Target>,
    w: Vec<Target>,
)
    requires
        call_ensures(list_targets, (front,), f),
        call_ensures(list_targets, (whole,), w),
        whole@ == front@.push(last),
    ensures
        front@.len() == 0 ==> f@.len() == 0,
        last.id is None ==> w@.len() == f@.len(),
        last.id matches Some(id) ==> w@.len() == f@.len() + 1 && stands_for(w@.last(), last, id@),
        forall|i: int|
            0 <= i < f@.len() ==> (#[trigger] w@[i]).id@ == f@[i].id@ && w@[i].name@ == f@[i].name@
                && w@[i].image@ == f@[i].image@ && w@[i].status@ == f@[i].status@,
{
    reveal(Seq::filter);
    assert(whole@.drop_last() =~= front@);
    assert forall|i: int| 0 <= i < f@.len() implies (#[trigger] w@[i]).id@ == f@[i].id@ && w@[i].name@
        == f@[i].name@ && w@[i].image@ == f@[i].image@ && w@[i].status@ == f@[i].status@ by {
        assert(identified(whole@)[i] == identified(front@)[i]);
        assert(w@[i]@ == f@[i]@);
    }
    if let Some(id) = last.id {
        assert(identified(whole@).last() == last);
        let t = w@.last();
        if is_named(last) {
            slashes_are_trimmed(last.names->0@[0]@);
        } else if is_char_boundary(encode_utf8(id@), 12) {
            leading_bytes_are_twelve(id@);
        }
    }
}

/// Names can be found exactly if each container with an identifier has a name, or an identifier
/// whose first twelve bytes are there and end with a character.
pub proof fn names_can_be_found(list: Vec<Summary>, r: bool)
    requires
        call_ensures(check_nameable, (&list,), r),
    ensures
        r == forall|i: int|
            0 <= i < list@.len() ==> ((#[trigger] list@[i]).id matches Some(id) ==> is_named(list@[i])
                || is_char_boundary(encode_utf8(id@), 12)),
{
    assert forall|i: int| 0 <= i < list@.len() implies nameable(#[trigger] list@[i]) == (list@[i].id matches Some(
        id,
    ) ==> is_named(list@[i]) || is_char_boundary(encode_utf8(id@), 12)) by {
        if let Some(id) = list@[i].id {
            if can_cut(id@) {
                cut_at_boundary(id@);
            }
        }
    }
}

/// Before the first round there is nothing.
pub proof fn begins_with_nothing(r: Snapshot)
    requires
        call_ensures(Snapshot::default, (), r),
    ensures
        r.rows@.len() == 0,
        r.host_mem_total == 0,
        r.host_ncpu == 0,
        r.error is None,
        r.fetched_at is None,
{
}

/// A round that succeeded is passed on as it is, and one that failed only with its error.
pub proof fn rounds_are_passed_on(round: Result<Fetched, String>, now: u128, r: Snapshot)
    requires
        call_ensures(Snapshot::from_round, (round, now), r),
    ensures
        r.fetched_at == Some(now),
        round matches Ok(fetched) ==> r.rows@ == fetched.rows@ && r.host_mem_total
            == fetched.host_mem_total && r.host_ncpu == fetched.host_ncpu && r.error is None,
        round matches Err(message) ==> r.rows@.len() == 0 && r.host_mem_total == 0 && r.host_ncpu == 0
            && r.error == Some(message),
{
}

/// Rounds begin a second apart, in nanoseconds, or at once after one that took longer; and they
/// stop when nobody takes the snapshots.
pub proof fn rounds_begin_a_second_apart(delivered: bool, elapsed: u128, r: PollStep)
    requires
        call_ensures(after_round, (delivered, elapsed), r),
    ensures
        r == PollStep::Stop <==> !delivered,
        delivered && elapsed < 1_000_000_000 ==> (r matches PollStep::Wait(rest) && elapsed + rest
            == 1_000_000_000),
        delivered && elapsed >= 1_000_000_000 ==> r == PollStep::Again,
{
}

/// With one row more the total grows by what that row uses, if it can still be told; no rows use
/// nothing.
pub proof fn totals_add_up(
    front: Vec<ContainerRow>,
    last: ContainerRow,
    whole: Vec<ContainerRow>,
    f: Option<u64>,
    w: Option<u64>,
)
    requires
        call_ensures(checked_total_mem, (&front,), f),
        call_ensures(checked_total_mem, (&whole,), w),
        whole@ == front@.push(last),
    ensures
        front@.len() == 0 ==> f == Some(0u64),
        f is None ==> w is None,
        f matches Some(sum) ==> if sum + last.mem_usage <= u64::MAX {
            w == Some((sum + last.mem_usage) as u64)
        } else {
            w is None
        },
{
    assert(whole@.drop_last() =~= front@);
}

/// The total of rows that have one is told.
pub proof fn totals_are_told(rows: Vec<ContainerRow>, checked: Option<u64>, r: u64)
    requires
        call_ensures(checked_total_mem, (&rows,), checked),
        call_ensures(total_mem, (&rows,), r),
        checked is Some,
    ensures
        checked == Some(r),
{
}

/// The memory of rows one after the other.
pub open spec fn memory_of(rows: Seq<ContainerRow>) -> int {
    rows.fold_left(0, |sum: int, row: ContainerRow| sum + row.mem_usage)
}

/// The memory that rows use together is the sum of what each of them uses.
pub proof fn memory_adds_up(rows: Seq<ContainerRow>)
    ensures
        mem_sum(rows) == memory_of(rows),
    decreases rows.len(),
{
    if rows.len() > 0 {
        memory_adds_up(rows.drop_last());
    }
}

} // verus!
