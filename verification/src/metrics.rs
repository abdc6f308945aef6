//! Arithmetic on sampled system figures.

use vstd::prelude::*;
use vstd::string::StringExecFns;
use crate::text::{decimal, same_text, to_decimal};

verus! {

/// Bytes in a disk sector.
pub const SECTOR_SIZE: u64 = 512;

/// `a + b`, or the largest 64-bit number when that is less.
pub open spec fn capped_sum(a: u64, b: u64) -> u64 {
    if a + b > u64::MAX {
        u64::MAX
    } else {
        (a + b) as u64
    }
}

/// `a - b`, or zero when `b` is larger.
pub open spec fn floored_difference(a: u64, b: u64) -> u64 {
    if a >= b {
        (a - b) as u64
    } else {
        0
    }
}

/// `a * b`, or the largest 64-bit number when that is less.
pub open spec fn capped_product(a: u64, b: u64) -> u64 {
    if a * b > u64::MAX {
        u64::MAX
    } else {
        (a * b) as u64
    }
}

/// Adds without wrapping.
pub fn add_capped(a: u64, b: u64) -> (sum: u64)
    ensures
        sum == capped_sum(a, b),
{
    if a > u64::MAX - b {
        u64::MAX
    } else {
        a + b
    }
}

/// What is in use of `total` when `free` is free; zero when more is free
/// than there is.
pub fn used_of(total: u64, free: u64) -> (used: u64)
    ensures
        used == floored_difference(total, free),
{
    if total >= free {
        total - free
    } else {
        0
    }
}

/// Bytes moved between two readings of a sector counter: the sectors
/// counted since the first reading, times the sector size. A counter that
/// went backwards counts as no traffic; a product beyond 64 bits is capped.
pub open spec fn sectors_moved(first: u64, second: u64) -> u64 {
    capped_product(floored_difference(second, first), SECTOR_SIZE)
}

/// Bytes moved between two readings of a sector counter.
pub fn bytes_between(first: u64, second: u64) -> (bytes: u64)
    ensures
        bytes == sectors_moved(first, second),
{
    let sectors = used_of(second, first);
    if sectors > u64::MAX / SECTOR_SIZE {
        u64::MAX
    } else {
        sectors * SECTOR_SIZE
    }
}

/// Two counters of one device or interface, such as sectors read and
/// written, or bytes received and sent.
#[derive(Debug, Clone)]
pub struct Counters {
    pub name: String,
    pub first: u64,
    pub second: u64,
}

/// Whether `name` is one of `allowed`.
pub open spec fn is_allowed(name: Seq<char>, allowed: Seq<String>) -> bool {
    exists|i: int| 0 <= i < allowed.len() && allowed[i]@ == name
}

/// The sums of both counters over the samples whose name is allowed, each
/// sum capped at the largest 64-bit number.
pub open spec fn allowed_totals(samples: Seq<Counters>, allowed: Seq<String>) -> (u64, u64)
    decreases samples.len(),
{
    if samples.len() == 0 {
        (0, 0)
    } else {
        let rest = allowed_totals(samples.drop_last(), allowed);
        let last = samples.last();
        if is_allowed(last.name@, allowed) {
            (capped_sum(rest.0, last.first), capped_sum(rest.1, last.second))
        } else {
            rest
        }
    }
}

/// Says whether `name` is one of `allowed`.
pub fn allows(allowed: &Vec<String>, name: &str) -> (found: bool)
    ensures
        found == is_allowed(name@, allowed@),
{
    let mut i: usize = 0;
    while i < allowed.len()
        invariant
            i <= allowed@.len(),
            forall|j: int| 0 <= j < i ==> allowed@[j]@ != name@,
        decreases allowed@.len() - i,
    {
        if same_text(allowed[i].as_str(), name) {
            return true;
        }
        i += 1;
    }
    false
}

/// Sums both counters over the samples whose name is allowed.
pub fn total_allowed(samples: &Vec<Counters>, allowed: &Vec<String>) -> (totals: (u64, u64))
    ensures
        totals == allowed_totals(samples@, allowed@),
{
    let mut first: u64 = 0;
    let mut second: u64 = 0;
    let mut i: usize = 0;
    while i < samples.len()
        invariant
            i <= samples@.len(),
            (first, second) == allowed_totals(samples@.subrange(0, i as int), allowed@),
        decreases samples@.len() - i,
    {
        proof {
            assert(samples@.subrange(0, i + 1).drop_last() =~= samples@.subrange(0, i as int));
        }
        if allows(allowed, samples[i].name.as_str()) {
            first = add_capped(first, samples[i].first);
            second = add_capped(second, samples[i].second);
        }
        i += 1;
    }
    assert(samples@.subrange(0, samples@.len() as int) =~= samples@);
    (first, second)
}

/// One part of an uptime: a count and its text, the count followed by the
/// letter of its unit.
#[derive(Debug, Clone, PartialEq, Eq)]
pub struct UptimePart {
    pub value: u64,
    pub text: String,
}

/// `parts` with one more part, unless the count is zero.
pub open spec fn with_part(parts: Seq<(u64, char)>, value: u64, unit: char) -> Seq<(u64, char)> {
    if value > 0 {
        parts.push((value, unit))
    } else {
        parts
    }
}

/// An uptime in days, hours, minutes and seconds, the parts that are zero
/// left out.
pub open spec fn uptime_parts(seconds: u64) -> Seq<(u64, char)> {
    with_part(
        with_part(
            with_part(
                with_part(Seq::empty(), (seconds / 86400) as u64, 'd'),
                (seconds % 86400 / 3600) as u64,
                'h',
            ),
            (seconds % 3600 / 60) as u64,
            'm',
        ),
        (seconds % 60) as u64,
        's',
    )
}

/// Whether `out` holds exactly `parts`, each with its text.
pub open spec fn holds_parts(out: Seq<UptimePart>, parts: Seq<(u64, char)>) -> bool {
    &&& out.len() == parts.len()
    &&& forall|i: int|
        0 <= i < out.len() ==> (#[trigger] out[i]).value == parts[i].0 && out[i].text@ == decimal(
            parts[i].0 as nat,
        ).push(parts[i].1)
}

/// Adds a part unless its count is zero.
fn push_part(out: &mut Vec<UptimePart>, value: u64, unit: &'static str, Ghost(parts): Ghost<
    Seq<(u64, char)>,
>, Ghost(letter): Ghost<char>)
    requires
        holds_parts(old(out)@, parts),
        unit@ =~= seq![letter],
    ensures
        holds_parts(final(out)@, with_part(parts, value, letter)),
{
    if value > 0 {
        let mut text = to_decimal(value);
        text.append(unit);
        assert(text@ =~= decimal(value as nat).push(letter));
        out.push(UptimePart { value, text });
    }
}

/// Splits an uptime into days, hours, minutes and seconds, and leaves out
/// the parts that are zero.
pub fn split_uptime(seconds: u64) -> (out: Vec<UptimePart>)
    ensures
        holds_parts(out@, uptime_parts(seconds)),
{
    proof {
        reveal_strlit("d");
        reveal_strlit("h");
        reveal_strlit("m");
        reveal_strlit("s");
    }
    let mut out: Vec<UptimePart> = Vec::new();
    let ghost p0 = Seq::<(u64, char)>::empty();
    push_part(&mut out, seconds / 86400, "d", Ghost(p0), Ghost('d'));
    let ghost p1 = with_part(p0, (seconds / 86400) as u64, 'd');
    push_part(&mut out, seconds % 86400 / 3600, "h", Ghost(p1), Ghost('h'));
    let ghost p2 = with_part(p1, (seconds % 86400 / 3600) as u64, 'h');
    push_part(&mut out, seconds % 3600 / 60, "m", Ghost(p2), Ghost('m'));
    let ghost p3 = with_part(p2, (seconds % 3600 / 60) as u64, 'm');
    push_part(&mut out, seconds % 60, "s", Ghost(p3), Ghost('s'));
    out
}

} // verus!
