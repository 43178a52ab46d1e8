//! The container table: its rows, and which of them are shown in which order.

use crate::percent::Percent;
use crate::text::{contains_text, lowercase, occurs_in};
use vstd::prelude::*;
use vstd::string::*;

verus! {

/// Cores in use, as text with two and with three decimals.
#[derive(Debug, PartialEq, Eq)]
pub struct Cores {
    pub short: String,
    pub long: String,
}

/// One container with its readings.
#[derive(Debug, PartialEq, Eq)]
pub struct ContainerRow {
    pub id: String,
    pub name: String,
    pub image: String,
    pub status: String,
    pub cpu_pct: Percent,
    pub cores: Cores,
    pub mem_usage: u64,
    pub mem_limit: u64,
    pub mem_pct: Percent,
}

impl Clone for Percent {
    fn clone(&self) -> (r: Self)
        ensures
            r == *self,
    {
        Percent { bits: self.bits, text: self.text.clone() }
    }
}

impl Clone for Cores {
    fn clone(&self) -> (r: Self)
        ensures
            r == *self,
    {
        Cores { short: self.short.clone(), long: self.long.clone() }
    }
}

impl Clone for ContainerRow {
    fn clone(&self) -> (r: Self)
        ensures
            r == *self,
    {
        ContainerRow {
            id: self.id.clone(),
            name: self.name.clone(),
            image: self.image.clone(),
            status: self.status.clone(),
            cpu_pct: self.cpu_pct.clone(),
            cores: self.cores.clone(),
            mem_usage: self.mem_usage,
            mem_limit: self.mem_limit,
            mem_pct: self.mem_pct.clone(),
        }
    }
}

/// What the table is sorted by.
#[derive(Clone, Copy, Debug, PartialEq, Eq, Structural)]
pub enum Sort {
    Cpu,
    Mem,
    Name,
}

impl Sort {
    /// The order that follows in the cycle: CPU, memory, name.
    pub fn next(self) -> (r: Self)
        ensures
            r == self.successor(),
    {
        match self {
            Sort::Cpu => Sort::Mem,
            Sort::Mem => Sort::Name,
            Sort::Name => Sort::Cpu,
        }
    }

    /// The order that follows in the cycle.
    pub open spec fn successor(self) -> Sort {
        match self {
            Sort::Cpu => Sort::Mem,
            Sort::Mem => Sort::Name,
            Sort::Name => Sort::Cpu,
        }
    }

    /// The column title of the order.
    pub open spec fn title(self) -> Seq<char> {
        match self {
            Sort::Cpu => "CPU%"@,
            Sort::Mem => "MEM%"@,
            Sort::Name => "NAME"@,
        }
    }

    /// The column title of the order.
    pub fn label(self) -> (r: &'static str)
        ensures
            r@ == self.title(),
    {
        match self {
            Sort::Cpu => "CPU%",
            Sort::Mem => "MEM%",
            Sort::Name => "NAME",
        }
    }
}

/// The cycle of orders visits each of the three and then begins again.
pub proof fn sort_cycle(sort: Sort)
    ensures
        sort.successor() != sort,
        sort.successor().successor() != sort,
        sort.successor().successor().successor() == sort,
{
}

/// A name or an image, both in lower case, holds the needle.
pub fn matches_lowered(name: &str, image: &str, needle: &str) -> (r: bool)
    ensures
        r == (occurs_in(needle@, name@) || occurs_in(needle@, image@)),
{
    contains_text(name, needle) || contains_text(image, needle)
}

/// The filter picks the row: in lower case it stands in the name or the image.
pub open spec fn picks(filter: Seq<char>, row: ContainerRow) -> bool {
    ||| occurs_in(lowercase(filter), lowercase(row.name@))
    ||| occurs_in(lowercase(filter), lowercase(row.image@))
}

/// The rows that a filter leaves, in their order; an empty filter leaves all.
pub open spec fn filtered(rows: Seq<ContainerRow>, filter: Seq<char>) -> Seq<ContainerRow> {
    if filter.len() == 0 {
        rows
    } else {
        rows.filter(|row: ContainerRow| picks(filter, row))
    }
}

/// Keeps the rows that the filter picks.
pub fn apply_filter(rows: Vec<ContainerRow>, filter: &str) -> (r: Vec<ContainerRow>)
    ensures
        r@ == filtered(rows@, filter@),
{
    if filter.is_empty() {
        return rows;
    }
    let needle = filter.to_lowercase();
    let mut kept: Vec<ContainerRow> = Vec::new();
    let ghost pick = |row: ContainerRow| picks(filter@, row);
    assert(rows@.take(0).filter(pick) =~= Seq::empty()) by {
        reveal(Seq::filter);
    }
    for row in it: rows.into_iter()
        invariant
            needle@ == lowercase(filter@),
            pick == (|row: ContainerRow| picks(filter@, row)),
            it.seq() == rows@,
            kept@ == rows@.take(it.index() as int).filter(pick),
    {
        proof {
            let i = it.index() as int;
            assert(rows@.take(i + 1).drop_last() =~= rows@.take(i));
            reveal(Seq::filter);
        }
        let name = row.name.to_lowercase();
        let image = row.image.to_lowercase();
        if matches_lowered(name.as_str(), image.as_str(), needle.as_str()) {
            kept.push(row);
        }
    }
    assert(rows@.take(rows@.len() as int) =~= rows@);
    kept
}

} // verus!
