//! The decisions of the watchers: when a reading crosses a limit, which
//! sensors are watched for heat, and what a watcher does after a reading.
use vstd::prelude::*;
use vstd::arithmetic::div_mod::lemma_div_is_ordered;
use vstd::arithmetic::mul::lemma_mul_inequality;
use crate::config::{Limits, Resource};
use crate::notice::{Notice, alarm_notice, alarm_title, alarm_body};

verus! {

/// Bytes per unit in which memory is compared (decimal gigabytes).
pub const BYTES_PER_GB: u64 = 1_000_000_000;

/// Whether a memory reading crosses the limit of `rate` percent: both
/// amounts are first cut down to whole gigabytes, and the used amount must
/// be above `rate` percent of the total, rounded down.
pub open spec fn spec_memory_crossed(used_bytes: u64, total_bytes: u64, rate: u8) -> bool {
    (used_bytes / BYTES_PER_GB) as int > ((total_bytes / BYTES_PER_GB) as int * rate as int) / 100
}

/// Decides whether a memory reading crosses the limit of `rate` percent.
pub fn memory_limit_crossed(used_bytes: u64, total_bytes: u64, rate: u8) -> (crossed: bool)
    ensures
        crossed == spec_memory_crossed(used_bytes, total_bytes, rate),
        crossed <==> (used_bytes / BYTES_PER_GB) as int * 100 > (total_bytes / BYTES_PER_GB) as int
            * rate as int,
{
    proof {
        memory_crossing_closed_form(used_bytes, total_bytes, rate);
    }
    let used_memory: u64 = used_bytes / BYTES_PER_GB;
    let total_memory: u64 = total_bytes / BYTES_PER_GB;
    assert(total_memory * (rate as u64) <= 18_446_744_073u64 * 255) by (nonlinear_arith)
        requires
            total_memory <= 18_446_744_073u64,
            rate <= 255,
    ;
    used_memory > (total_memory * rate as u64) / 100
}

/// In whole gigabytes, a memory reading crosses the limit of `rate` percent
/// exactly when the used amount, taken 100 times, is above the total taken
/// `rate` times: the used amount is above `rate` percent of the total. So a
/// limit below 100 percent is crossed once all of a non-empty memory is in
/// use, and a limit of 0 percent by any whole gigabyte in use.
pub proof fn memory_crossing_closed_form(used: u64, total: u64, rate: u8)
    ensures
        spec_memory_crossed(used, total, rate) <==> (used / BYTES_PER_GB) as int * 100 > (total
            / BYTES_PER_GB) as int * rate as int,
        rate < 100 && used / BYTES_PER_GB == total / BYTES_PER_GB && total / BYTES_PER_GB > 0
            ==> spec_memory_crossed(used, total, rate),
        rate == 0 && used / BYTES_PER_GB > 0 ==> spec_memory_crossed(used, total, rate),
{
    let x: int = (used / BYTES_PER_GB) as int;
    let t: int = (total / BYTES_PER_GB) as int;
    let y: int = t * rate as int;
    assert(t >= 0 && y >= 0) by (nonlinear_arith)
        requires
            t >= 0,
            y == t * rate as int,
            rate >= 0,
    ;
    assert(x > y / 100 <==> x * 100 > y) by (nonlinear_arith)
        requires
            y >= 0,
            x >= 0,
    ;
    if rate < 100 && x == t && t > 0 {
        assert(t * 100 > t * rate as int) by (nonlinear_arith)
            requires
                t > 0,
                rate < 100,
        ;
    }
    if rate == 0 {
        assert(t * rate as int == 0) by (nonlinear_arith)
            requires
                rate == 0,
        ;
    }
}

/// A reading that crosses the limit still crosses it when more memory is
/// used, or when the limit is lower.
pub proof fn memory_crossing_is_monotone(
    used1: u64,
    used2: u64,
    total: u64,
    rate1: u8,
    rate2: u8,
)
    requires
        used1 <= used2,
        rate2 <= rate1,
        spec_memory_crossed(used1, total, rate1),
    ensures
        spec_memory_crossed(used2, total, rate1),
        spec_memory_crossed(used1, total, rate2),
{
    lemma_div_is_ordered(used1 as int, used2 as int, BYTES_PER_GB as int);
    let t: int = (total / BYTES_PER_GB) as int;
    lemma_mul_inequality(rate2 as int, rate1 as int, t);
    assert(t * rate2 as int <= t * rate1 as int) by (nonlinear_arith)
        requires
            rate2 as int * t <= rate1 as int * t,
    ;
    lemma_div_is_ordered(t * rate2 as int, t * rate1 as int, 100);
}

/// A limit of 100 percent or more is never crossed while the used amount is
/// within the total.
pub proof fn memory_full_limit_never_crossed(used: u64, total: u64, rate: u8)
    requires
        used <= total,
        rate >= 100,
    ensures
        !spec_memory_crossed(used, total, rate),
{
    lemma_div_is_ordered(used as int, total as int, BYTES_PER_GB as int);
    let t: int = (total / BYTES_PER_GB) as int;
    assert(t * rate as int >= t * 100) by (nonlinear_arith)
        requires
            t >= 0,
            rate >= 100,
    ;
    lemma_div_is_ordered(t * 100, t * rate as int, 100);
    assert((t * 100) / 100 == t) by (nonlinear_arith);
}

/// What a watcher does after taking a reading.
pub enum WatchStep {
    /// Nothing was crossed; wait for the next reading.
    KeepWatching,
    /// The limit was crossed: play the alarm, send `notice` and stop the
    /// watchers; then go on reading if `keep_watching`, else end.
    RaiseAlarm { notice: Notice, keep_watching: bool },
}

/// Decides what the watcher of `limit` does after a reading that crossed
/// the limit or not. CPU and memory watchers end after their alarm; the
/// heat watcher only leaves its sensor scan and goes on reading, until it
/// sees its token cancelled.
pub fn watch_step(limit: &Limits, crossed: bool) -> (step: WatchStep)
    ensures
        !crossed ==> step is KeepWatching,
        crossed ==> (step matches WatchStep::RaiseAlarm { notice, keep_watching }
            && notice.title@ == alarm_title()
            && notice.body@ == alarm_body(*limit)
            && keep_watching == (limit.spec_resource() == Resource::Heat)),
{
    if crossed {
        let keep_watching = match limit.resource() {
            Resource::Heat => true,
            _ => false,
        };
        WatchStep::RaiseAlarm { notice: alarm_notice(limit), keep_watching }
    } else {
        WatchStep::KeepWatching
    }
}

/// Decides what the memory watcher with a limit of `rate` percent does after
/// reading `used_bytes` used out of `total_bytes`.
pub fn memory_watch_step(rate: u8, used_bytes: u64, total_bytes: u64) -> (step: WatchStep)
    ensures
        !spec_memory_crossed(used_bytes, total_bytes, rate) ==> step is KeepWatching,
        spec_memory_crossed(used_bytes, total_bytes, rate) ==> (step matches WatchStep::RaiseAlarm {
            notice,
            keep_watching,
        } && notice.title@ == alarm_title() && notice.body@ == alarm_body(
            Limits::Memory { Rate: rate },
        ) && !keep_watching),
{
    let crossed = memory_limit_crossed(used_bytes, total_bytes, rate);
    watch_step(&Limits::Memory { Rate: rate }, crossed)
}

/// The lower-case form of a string, as `str::to_lowercase` gives it
/// (Unicode lower-casing, one character possibly becoming several).
pub uninterp spec fn spec_lowercase(s: Seq<char>) -> Seq<char>;

/// Calls `str::to_lowercase`. The result is named by `spec_lowercase`: the
/// Unicode case tables are not stated here.
#[verifier::external_body]
fn to_lowercase(s: &str) -> (lower: String)
    ensures
        lower@ == spec_lowercase(s@),
{
    s.to_lowercase()
}

/// `needle` occurs in `haystack` starting at position `i`.
pub open spec fn occurs_at(haystack: Seq<char>, needle: Seq<char>, i: int) -> bool {
    &&& 0 <= i
    &&& i + needle.len() <= haystack.len()
    &&& haystack.subrange(i, i + needle.len()) == needle
}

/// `needle` occurs somewhere in `haystack`.
pub open spec fn spec_contains(haystack: Seq<char>, needle: Seq<char>) -> bool {
    exists|i: int| occurs_at(haystack, needle, i)
}

/// Whether `needle` occurs in `haystack`, as `str::contains` with a string
/// pattern decides it.
pub fn contains_str(haystack: &str, needle: &str) -> (found: bool)
    ensures
        found == spec_contains(haystack@, needle@),
{
    let hlen: usize = haystack.unicode_len();
    let nlen: usize = needle.unicode_len();
    if nlen > hlen {
        assert forall|i: int| !occurs_at(haystack@, needle@, i) by {}
        return false;
    }
    let last: usize = hlen - nlen;
    let mut i: usize = 0;
    loop
        invariant
            hlen == haystack@.len(),
            nlen == needle@.len(),
            nlen <= hlen,
            last == hlen - nlen,
            i <= last,
            forall|k: int| 0 <= k < i ==> !occurs_at(haystack@, needle@, k),
        decreases last - i,
    {
        let mut j: usize = 0;
        let mut matched = true;
        while j < nlen
            invariant
                hlen == haystack@.len(),
                nlen == needle@.len(),
                i + nlen <= hlen,
                j <= nlen,
                matched ==> forall|m: int| 0 <= m < j ==> haystack@[i + m] == needle@[m],
                !matched ==> !occurs_at(haystack@, needle@, i as int),
            decreases nlen - j,
        {
            if matched && haystack.get_char(i + j) != needle.get_char(j) {
                matched = false;
                assert(haystack@.subrange(i as int, i + nlen)[j as int] == haystack@[i + j]);
            }
            j = j + 1;
        }
        if matched {
            assert(haystack@.subrange(i as int, i + nlen) =~= needle@);
            assert(occurs_at(haystack@, needle@, i as int));
            return true;
        }
        if i == last {
            assert forall|k: int| !occurs_at(haystack@, needle@, k) by {
                if 0 <= k < i {
                }
            }
            return false;
        }
        i = i + 1;
    }
}

/// Whether a temperature sensor is one that the heat watcher reads: its
/// lower-cased label names the CPU package (`tctl` on AMD, `package` on
/// Intel).
pub open spec fn spec_is_package_sensor(label: Seq<char>) -> bool {
    spec_contains(spec_lowercase(label), "tctl"@) || spec_contains(spec_lowercase(label), "package"@)
}

/// Decides whether the heat watcher reads the sensor with this label.
pub fn is_package_sensor(label: &str) -> (watched: bool)
    ensures
        watched == spec_is_package_sensor(label@),
        watched <==> (exists|i: int|
            0 <= i && i + 4 <= spec_lowercase(label@).len() && #[trigger] spec_lowercase(
                label@,
            ).subrange(i, i + 4) == seq!['t', 'c', 't', 'l']) || (exists|i: int|
            0 <= i && i + 7 <= spec_lowercase(label@).len() && #[trigger] spec_lowercase(
                label@,
            ).subrange(i, i + 7) == seq!['p', 'a', 'c', 'k', 'a', 'g', 'e']),
{
    proof {
        package_sensor_by_letters(label@);
    }
    let lower = to_lowercase(label);
    contains_str(lower.as_str(), "tctl") || contains_str(lower.as_str(), "package")
}

/// The heat watcher reads a sensor exactly when its lower-cased label has
/// the letters `tctl`, or the letters `package`, next to each other; a label
/// with neither (such as `acpitz temp1` or `coretemp Core 0`) is not read.
pub proof fn package_sensor_by_letters(label: Seq<char>)
    ensures
        spec_is_package_sensor(label) <==> (exists|i: int|
            0 <= i && i + 4 <= spec_lowercase(label).len() && #[trigger] spec_lowercase(
                label,
            ).subrange(i, i + 4) == seq!['t', 'c', 't', 'l']) || (exists|i: int|
            0 <= i && i + 7 <= spec_lowercase(label).len() && #[trigger] spec_lowercase(
                label,
            ).subrange(i, i + 7) == seq!['p', 'a', 'c', 'k', 'a', 'g', 'e']),
{
    reveal_strlit("tctl");
    reveal_strlit("package");
    let lower = spec_lowercase(label);
    let tctl = seq!['t', 'c', 't', 'l'];
    let package = seq!['p', 'a', 'c', 'k', 'a', 'g', 'e'];
    assert("tctl"@ =~= tctl);
    assert("package"@ =~= package);
    if spec_contains(lower, tctl) {
        let i = choose|i: int| occurs_at(lower, tctl, i);
        assert(lower.subrange(i, i + 4) == tctl);
    }
    if spec_contains(lower, package) {
        let i = choose|i: int| occurs_at(lower, package, i);
        assert(lower.subrange(i, i + 7) == package);
    }
    if exists|i: int| 0 <= i && i + 4 <= lower.len() && #[trigger] lower.subrange(i, i + 4) == tctl {
        let i = choose|i: int| 0 <= i && i + 4 <= lower.len() && #[trigger] lower.subrange(i, i + 4) == tctl;
        assert(occurs_at(lower, tctl, i));
    }
    if exists|i: int| 0 <= i && i + 7 <= lower.len() && #[trigger] lower.subrange(i, i + 7) == package {
        let i = choose|i: int| 0 <= i && i + 7 <= lower.len() && #[trigger] lower.subrange(i, i + 7) == package;
        assert(occurs_at(lower, package, i));
    }
}

} // verus!
