//! Plugin load times summed over the server's threads. A time is a number of
//! nanoseconds, as large as a `std::time::Duration` can hold.

use vstd::prelude::*;
use crate::assoc::{find_name, named_map, put_named};

verus! {

/// The longest time a `Duration` holds, in nanoseconds: `u64::MAX` seconds
/// and 999 999 999 nanoseconds.
pub const MAX_DURATION_NANOS: u128 = 18446744073709551615999999999u128;

/// The texts of a sequence of strings.
pub open spec fn name_texts(s: Seq<String>) -> Seq<Seq<char>> {
    s.map_values(|x: String| x@)
}

/// The total recorded for `name`, 0 when there is none.
pub open spec fn total_or_zero(totals: Map<Seq<char>, u128>, name: Seq<char>) -> int {
    if totals.contains_key(name) {
        totals[name] as int
    } else {
        0
    }
}

/// The totals after the load time of each plugin of `loaded` that has one
/// in `times` has been added in turn.
pub open spec fn totals_after(totals: Map<Seq<char>, u128>, loaded: Seq<Seq<char>>, times: Map<Seq<char>, u128>) -> Map<
    Seq<char>,
    u128,
>
    decreases loaded.len(),
{
    if loaded.len() == 0 {
        totals
    } else {
        let m = totals_after(totals, loaded.drop_last(), times);
        let n = loaded.last();
        if times.contains_key(n) {
            m.insert(n, (total_or_zero(m, n) + times[n]) as u128)
        } else {
            m
        }
    }
}

/// Each addition of `totals_after` stays within what a `Duration` holds.
pub open spec fn totals_fit(totals: Map<Seq<char>, u128>, loaded: Seq<Seq<char>>, times: Map<Seq<char>, u128>) -> bool
    decreases loaded.len(),
{
    if loaded.len() == 0 {
        true
    } else {
        let m = totals_after(totals, loaded.drop_last(), times);
        let n = loaded.last();
        &&& totals_fit(totals, loaded.drop_last(), times)
        &&& (times.contains_key(n) ==> total_or_zero(m, n) + times[n] <= MAX_DURATION_NANOS)
    }
}

proof fn lemma_fit_prefix(
    totals: Map<Seq<char>, u128>,
    loaded: Seq<Seq<char>>,
    times: Map<Seq<char>, u128>,
    k: int,
)
    requires
        totals_fit(totals, loaded, times),
        0 <= k <= loaded.len(),
    ensures
        totals_fit(totals, loaded.take(k), times),
    decreases loaded.len(),
{
    if k < loaded.len() {
        lemma_fit_prefix(totals, loaded.drop_last(), times, k);
        assert(loaded.drop_last().take(k) =~= loaded.take(k));
    } else {
        assert(loaded.take(k) =~= loaded);
    }
}

/// Adds to `totals` the load time, in `times`, of each plugin of `loaded`
/// that has one, creating a plugin's total at its first time.
pub fn add_load_times(totals: &mut Vec<(String, u128)>, loaded: &Vec<String>, times: &Vec<(String, u128)>)
    requires
        totals_fit(named_map(old(totals)@), name_texts(loaded@), named_map(times@)),
    ensures
        named_map(final(totals)@) == totals_after(named_map(old(totals)@), name_texts(loaded@), named_map(times@)),
{
    let ghost start = named_map(totals@);
    let ghost names = name_texts(loaded@);
    let ghost tm = named_map(times@);
    let mut i: usize = 0;
    while i < loaded.len()
        invariant
            i <= loaded.len(),
            names == name_texts(loaded@),
            tm == named_map(times@),
            totals_fit(start, names, tm),
            named_map(totals@) == totals_after(start, names.take(i as int), tm),
        decreases loaded.len() - i,
    {
        let name = loaded[i].as_str();
        proof {
            lemma_fit_prefix(start, names, tm, i + 1);
            assert(names.take(i + 1).drop_last() =~= names.take(i as int));
            assert(names.take(i + 1).last() == name@);
        }
        match find_name(times, name) {
            Some(j) => {
                let time = times[j].1;
                let current: u128 = match find_name(totals, name) {
                    Some(k) => totals[k].1,
                    None => 0,
                };
                put_named(totals, name, current + time);
            },
            None => {},
        }
        i = i + 1;
    }
    proof {
        assert(names.take(loaded.len() as int) =~= names);
    }
}

} // verus!
