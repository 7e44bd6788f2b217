//! Building the visual records ("the school"): each retained week of
//! activity becomes one fish whose size, speed and bubble rate are the
//! week's counters remapped onto the calibrated attribute interval.
//!
//! Attributes are carried in thousandths: the nominal interval `[0.2, 1.0]`
//! is `[200, 1000]`. A counter above its calibration ceiling maps above
//! `1000`; the value is deliberately not clamped.

use crate::activity::{counter_val, Activity, Week};
use crate::mapper::{map_range_spec, trunc_div};
use vstd::arithmetic::div_mod::{lemma_div_is_ordered, lemma_div_is_ordered_by_denominator};
use vstd::prelude::*;

verus! {

/// One rendered visualization entity. The attributes are in thousandths of
/// the nominal unit, so `1000` stands for the nominal maximum `1.0`.
#[derive(Debug, Clone, PartialEq)]
pub struct FishData {
    pub fish: String,
    pub size: i64,
    pub speed: i64,
    pub bubbles: i64,
}

impl Default for FishData {
    /// The default record: the fixed variant with every attribute at the
    /// nominal maximum.
    fn default() -> (r: FishData)
        ensures
            r.fish@ == "clownfish"@,
            r.size == 1000,
            r.speed == 1000,
            r.bubbles == 1000,
    {
        FishData { fish: String::from_str("clownfish"), size: 1000, speed: 1000, bubbles: 1000 }
    }
}

/// The size attribute of a week: registrations remapped from `[0, 15000]`
/// onto `[200, 1000]` thousandths.
pub open spec fn size_of_week(w: Week) -> int {
    map_range_spec(0, 15000, 200, 1000, counter_val(w.registrations@) as int)
}

/// The speed attribute of a week: statuses remapped from `[0, 100000]` onto
/// `[200, 1000]` thousandths.
pub open spec fn speed_of_week(w: Week) -> int {
    map_range_spec(0, 100000, 200, 1000, counter_val(w.statuses@) as int)
}

/// The bubble attribute of a week: logins remapped from `[0, 20000]` onto
/// `[200, 1000]` thousandths.
pub open spec fn bubbles_of_week(w: Week) -> int {
    map_range_spec(0, 20000, 200, 1000, counter_val(w.logins@) as int)
}

/// Remap the counter `c` from the source interval `[0, hi0]` onto `[200,
/// 1000]` thousandths. Total for every counter value; the result is not
/// clamped above `1000`.
fn attr_milli(c: u64, hi0: u64) -> (r: i64)
    requires
        15000 <= hi0,
    ensures
        r as int == map_range_spec(0, hi0 as int, 200, 1000, c as int),
        200 <= r,
{
    let num: u128 = c as u128 * 800;
    let q: u128 = num / (hi0 as u128);
    proof {
        assert(num <= 0xffff_ffff_ffff_ffffu128 * 800);
        lemma_div_is_ordered(num as int, 0xffff_ffff_ffff_ffffint * 800, hi0 as int);
        lemma_div_is_ordered_by_denominator(0xffff_ffff_ffff_ffffint * 800, 15000, hi0 as int);
        assert(q <= 0xffff_ffff_ffff_ffffint * 800 / 15000);
        assert(trunc_div(c as int * 800, hi0 as int) == c as int * 800 / hi0 as int);
        assert((c as int - 0) * (1000 - 200) == c as int * 800);
    }
    200 + q as i64
}

/// Build the school: one visual record per retained week, in the order the
/// history supplies them. At most the first hundred weeks are retained;
/// a longer history is truncated, never an error, and no week ever fails.
pub fn build_school(activities: Activity) -> (r: Vec<FishData>)
    ensures
        r@.len() == if activities@.len() <= 100 {
            activities@.len() as int
        } else {
            100
        },
        forall|k: int|
            0 <= k < r@.len() ==> {
                &&& (#[trigger] r@[k]).fish@ == "clownfish"@
                &&& r@[k].size as int == size_of_week(activities@[k])
                &&& r@[k].speed as int == speed_of_week(activities@[k])
                &&& r@[k].bubbles as int == bubbles_of_week(activities@[k])
            },
{
    let count: usize = if activities.len() > 100 {
        100
    } else {
        activities.len()
    };
    let mut out: Vec<FishData> = Vec::new();
    let mut i: usize = 0;
    while i < count
        invariant
            count == if activities@.len() <= 100 {
                activities@.len() as int
            } else {
                100
            },
            0 <= i <= count,
            out@.len() == i,
            forall|k: int|
                0 <= k < i ==> {
                    &&& (#[trigger] out@[k]).fish@ == "clownfish"@
                    &&& out@[k].size as int == size_of_week(activities@[k])
                    &&& out@[k].speed as int == speed_of_week(activities@[k])
                    &&& out@[k].bubbles as int == bubbles_of_week(activities@[k])
                },
        decreases count - i,
    {
        let week = &activities[i];
        let registrations = parse_week_counter(&week.registrations);
        let statuses = parse_week_counter(&week.statuses);
        let logins = parse_week_counter(&week.logins);
        let record = FishData {
            fish: String::from_str("clownfish"),
            size: attr_milli(registrations, 15000),
            speed: attr_milli(statuses, 100000),
            bubbles: attr_milli(logins, 20000),
        };
        out.push(record);
        i = i + 1;
    }
    out
}

/// Read one counter field, with the zero fallback.
fn parse_week_counter(s: &String) -> (r: u64)
    ensures
        r as nat == counter_val(s@),
{
    crate::activity::parse_counter(s.as_str())
}

} // verus!
