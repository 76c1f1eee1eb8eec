//! Zones that follow no place.

use crate::interface::TimeZone;
use crate::timezone_impl::{FixedTimespanSet, Tz};
use crate::timezones::tables;
use vstd::prelude::*;

verus! {

/// The zone `Etc/GMT`.
pub fn gmt() -> (r: Tz)
    ensures
        r.wf(),
        r.zone_name() == "Etc/GMT"@,
        r.table() == tables::etc::gmt(),
{
    let ghost g = tables::etc::gmt_rows();
    FixedTimespanSet::begin("Etc/GMT", 0, 0, "GMT", Ghost(g))
        .finish(Ghost(g))
}

/// The zone `Etc/GMT+0`.
pub fn gmt_plus_0() -> (r: Tz)
    ensures
        r.wf(),
        r.zone_name() == "Etc/GMT+0"@,
        r.table() == tables::etc::gmt_plus_0(),
{
    let ghost g = tables::etc::gmt_plus_0_rows();
    FixedTimespanSet::begin("Etc/GMT+0", 0, 0, "GMT", Ghost(g))
        .finish(Ghost(g))
}

/// The zone `Etc/GMT+1`.
pub fn gmt_plus_1() -> (r: Tz)
    ensures
        r.wf(),
        r.zone_name() == "Etc/GMT+1"@,
        r.table() == tables::etc::gmt_plus_1(),
{
    let ghost g = tables::etc::gmt_plus_1_rows();
    FixedTimespanSet::begin("Etc/GMT+1", -3600, 0, "-01", Ghost(g))
        .finish(Ghost(g))
}

/// The zone `Etc/GMT+10`.
pub fn gmt_plus_10() -> (r: Tz)
    ensures
        r.wf(),
        r.zone_name() == "Etc/GMT+10"@,
        r.table() == tables::etc::gmt_plus_10(),
{
    let ghost g = tables::etc::gmt_plus_10_rows();
    FixedTimespanSet::begin("Etc/GMT+10", -36000, 0, "-10", Ghost(g))
        .finish(Ghost(g))
}

/// The zone `Etc/GMT+11`.
pub fn gmt_plus_11() -> (r: Tz)
    ensures
        r.wf(),
        r.zone_name() == "Etc/GMT+11"@,
        r.table() == tables::etc::gmt_plus_11(),
{
    let ghost g = tables::etc::gmt_plus_11_rows();
    FixedTimespanSet::begin("Etc/GMT+11", -39600, 0, "-11", Ghost(g))
        .finish(Ghost(g))
}

/// The zone `Etc/GMT+12`.
pub fn gmt_plus_12() -> (r: Tz)
    ensures
        r.wf(),
        r.zone_name() == "Etc/GMT+12"@,
        r.table() == tables::etc::gmt_plus_12(),
{
    let ghost g = tables::etc::gmt_plus_12_rows();
    FixedTimespanSet::begin("Etc/GMT+12", -43200, 0, "-12", Ghost(g))
        .finish(Ghost(g))
}

/// The zone `Etc/GMT+2`.
pub fn gmt_plus_2() -> (r: Tz)
    ensures
        r.wf(),
        r.zone_name() == "Etc/GMT+2"@,
        r.table() == tables::etc::gmt_plus_2(),
{
    let ghost g = tables::etc::gmt_plus_2_rows();
    FixedTimespanSet::begin("Etc/GMT+2", -7200, 0, "-02", Ghost(g))
        .finish(Ghost(g))
}

/// The zone `Etc/GMT+3`.
pub fn gmt_plus_3() -> (r: Tz)
    ensures
        r.wf(),
        r.zone_name() == "Etc/GMT+3"@,
        r.table() == tables::etc::gmt_plus_3(),
{
    let ghost g = tables::etc::gmt_plus_3_rows();
    FixedTimespanSet::begin("Etc/GMT+3", -10800, 0, "-03", Ghost(g))
        .finish(Ghost(g))
}

/// The zone `Etc/GMT+4`.
pub fn gmt_plus_4() -> (r: Tz)
    ensures
        r.wf(),
        r.zone_name() == "Etc/GMT+4"@,
        r.table() == tables::etc::gmt_plus_4(),
{
    let ghost g = tables::etc::gmt_plus_4_rows();
    FixedTimespanSet::begin("Etc/GMT+4", -14400, 0, "-04", Ghost(g))
        .finish(Ghost(g))
}

/// The zone `Etc/GMT+5`.
pub fn gmt_plus_5() -> (r: Tz)
    ensures
        r.wf(),
        r.zone_name() == "Etc/GMT+5"@,
        r.table() == tables::etc::gmt_plus_5(),
{
    let ghost g = tables::etc::gmt_plus_5_rows();
    FixedTimespanSet::begin("Etc/GMT+5", -18000, 0, "-05", Ghost(g))
        .finish(Ghost(g))
}

/// The zone `Etc/GMT+6`.
pub fn gmt_plus_6() -> (r: Tz)
    ensures
        r.wf(),
        r.zone_name() == "Etc/GMT+6"@,
        r.table() == tables::etc::gmt_plus_6(),
{
    let ghost g = tables::etc::gmt_plus_6_rows();
    FixedTimespanSet::begin("Etc/GMT+6", -21600, 0, "-06", Ghost(g))
        .finish(Ghost(g))
}

/// The zone `Etc/GMT+7`.
pub fn gmt_plus_7() -> (r: Tz)
    ensures
        r.wf(),
        r.zone_name() == "Etc/GMT+7"@,
        r.table() == tables::etc::gmt_plus_7(),
{
    let ghost g = tables::etc::gmt_plus_7_rows();
    FixedTimespanSet::begin("Etc/GMT+7", -25200, 0, "-07", Ghost(g))
        .finish(Ghost(g))
}

/// The zone `Etc/GMT+8`.
pub fn gmt_plus_8() -> (r: Tz)
    ensures
        r.wf(),
        r.zone_name() == "Etc/GMT+8"@,
        r.table() == tables::etc::gmt_plus_8(),
{
    let ghost g = tables::etc::gmt_plus_8_rows();
    FixedTimespanSet::begin("Etc/GMT+8", -28800, 0, "-08", Ghost(g))
        .finish(Ghost(g))
}

/// The zone `Etc/GMT+9`.
pub fn gmt_plus_9() -> (r: Tz)
    ensures
        r.wf(),
        r.zone_name() == "Etc/GMT+9"@,
        r.table() == tables::etc::gmt_plus_9(),
{
    let ghost g = tables::etc::gmt_plus_9_rows();
    FixedTimespanSet::begin("Etc/GMT+9", -32400, 0, "-09", Ghost(g))
        .finish(Ghost(g))
}

/// The zone `Etc/GMT-0`.
pub fn gmt_minus_0() -> (r: Tz)
    ensures
        r.wf(),
        r.zone_name() == "Etc/GMT-0"@,
        r.table() == tables::etc::gmt_minus_0(),
{
    let ghost g = tables::etc::gmt_minus_0_rows();
    FixedTimespanSet::begin("Etc/GMT-0", 0, 0, "GMT", Ghost(g))
        .finish(Ghost(g))
}

/// The zone `Etc/GMT-1`.
pub fn gmt_minus_1() -> (r: Tz)
    ensures
        r.wf(),
        r.zone_name() == "Etc/GMT-1"@,
        r.table() == tables::etc::gmt_minus_1(),
{
    let ghost g = tables::etc::gmt_minus_1_rows();
    FixedTimespanSet::begin("Etc/GMT-1", 3600, 0, "+01", Ghost(g))
        .finish(Ghost(g))
}

/// The zone `Etc/GMT-10`.
pub fn gmt_minus_10() -> (r: Tz)
    ensures
        r.wf(),
        r.zone_name() == "Etc/GMT-10"@,
        r.table() == tables::etc::gmt_minus_10(),
{
    let ghost g = tables::etc::gmt_minus_10_rows();
    FixedTimespanSet::begin("Etc/GMT-10", 36000, 0, "+10", Ghost(g))
        .finish(Ghost(g))
}

/// The zone `Etc/GMT-11`.
pub fn gmt_minus_11() -> (r: Tz)
    ensures
        r.wf(),
        r.zone_name() == "Etc/GMT-11"@,
        r.table() == tables::etc::gmt_minus_11(),
{
    let ghost g = tables::etc::gmt_minus_11_rows();
    FixedTimespanSet::begin("Etc/GMT-11", 39600, 0, "+11", Ghost(g))
        .finish(Ghost(g))
}

/// The zone `Etc/GMT-12`.
pub fn gmt_minus_12() -> (r: Tz)
    ensures
        r.wf(),
        r.zone_name() == "Etc/GMT-12"@,
        r.table() == tables::etc::gmt_minus_12(),
{
    let ghost g = tables::etc::gmt_minus_12_rows();
    FixedTimespanSet::begin("Etc/GMT-12", 43200, 0, "+12", Ghost(g))
        .finish(Ghost(g))
}

/// The zone `Etc/GMT-13`.
pub fn gmt_minus_13() -> (r: Tz)
    ensures
        r.wf(),
        r.zone_name() == "Etc/GMT-13"@,
        r.table() == tables::etc::gmt_minus_13(),
{
    let ghost g = tables::etc::gmt_minus_13_rows();
    FixedTimespanSet::begin("Etc/GMT-13", 46800, 0, "+13", Ghost(g))
        .finish(Ghost(g))
}

/// The zone `Etc/GMT-14`.
pub fn gmt_minus_14() -> (r: Tz)
    ensures
        r.wf(),
        r.zone_name() == "Etc/GMT-14"@,
        r.table() == tables::etc::gmt_minus_14(),
{
    let ghost g = tables::etc::gmt_minus_14_rows();
    FixedTimespanSet::begin("Etc/GMT-14", 50400, 0, "+14", Ghost(g))
        .finish(Ghost(g))
}

/// The zone `Etc/GMT-2`.
pub fn gmt_minus_2() -> (r: Tz)
    ensures
        r.wf(),
        r.zone_name() == "Etc/GMT-2"@,
        r.table() == tables::etc::gmt_minus_2(),
{
    let ghost g = tables::etc::gmt_minus_2_rows();
    FixedTimespanSet::begin("Etc/GMT-2", 7200, 0, "+02", Ghost(g))
        .finish(Ghost(g))
}

/// The zone `Etc/GMT-3`.
pub fn gmt_minus_3() -> (r: Tz)
    ensures
        r.wf(),
        r.zone_name() == "Etc/GMT-3"@,
        r.table() == tables::etc::gmt_minus_3(),
{
    let ghost g = tables::etc::gmt_minus_3_rows();
    FixedTimespanSet::begin("Etc/GMT-3", 10800, 0, "+03", Ghost(g))
        .finish(Ghost(g))
}

/// The zone `Etc/GMT-4`.
pub fn gmt_minus_4() -> (r: Tz)
    ensures
        r.wf(),
        r.zone_name() == "Etc/GMT-4"@,
        r.table() == tables::etc::gmt_minus_4(),
{
    let ghost g = tables::etc::gmt_minus_4_rows();
    FixedTimespanSet::begin("Etc/GMT-4", 14400, 0, "+04", Ghost(g))
        .finish(Ghost(g))
}

/// The zone `Etc/GMT-5`.
pub fn gmt_minus_5() -> (r: Tz)
    ensures
        r.wf(),
        r.zone_name() == "Etc/GMT-5"@,
        r.table() == tables::etc::gmt_minus_5(),
{
    let ghost g = tables::etc::gmt_minus_5_rows();
    FixedTimespanSet::begin("Etc/GMT-5", 18000, 0, "+05", Ghost(g))
        .finish(Ghost(g))
}

/// The zone `Etc/GMT-6`.
pub fn gmt_minus_6() -> (r: Tz)
    ensures
        r.wf(),
        r.zone_name() == "Etc/GMT-6"@,
        r.table() == tables::etc::gmt_minus_6(),
{
    let ghost g = tables::etc::gmt_minus_6_rows();
    FixedTimespanSet::begin("Etc/GMT-6", 21600, 0, "+06", Ghost(g))
        .finish(Ghost(g))
}

/// The zone `Etc/GMT-7`.
pub fn gmt_minus_7() -> (r: Tz)
    ensures
        r.wf(),
        r.zone_name() == "Etc/GMT-7"@,
        r.table() == tables::etc::gmt_minus_7(),
{
    let ghost g = tables::etc::gmt_minus_7_rows();
    FixedTimespanSet::begin("Etc/GMT-7", 25200, 0, "+07", Ghost(g))
        .finish(Ghost(g))
}

/// The zone `Etc/GMT-8`.
pub fn gmt_minus_8() -> (r: Tz)
    ensures
        r.wf(),
        r.zone_name() == "Etc/GMT-8"@,
        r.table() == tables::etc::gmt_minus_8(),
{
    let ghost g = tables::etc::gmt_minus_8_rows();
    FixedTimespanSet::begin("Etc/GMT-8", 28800, 0, "+08", Ghost(g))
        .finish(Ghost(g))
}

/// The zone `Etc/GMT-9`.
pub fn gmt_minus_9() -> (r: Tz)
    ensures
        r.wf(),
        r.zone_name() == "Etc/GMT-9"@,
        r.table() == tables::etc::gmt_minus_9(),
{
    let ghost g = tables::etc::gmt_minus_9_rows();
    FixedTimespanSet::begin("Etc/GMT-9", 32400, 0, "+09", Ghost(g))
        .finish(Ghost(g))
}

/// The zone `Etc/GMT0`.
pub fn gmt0() -> (r: Tz)
    ensures
        r.wf(),
        r.zone_name() == "Etc/GMT0"@,
        r.table() == tables::etc::gmt0(),
{
    let ghost g = tables::etc::gmt0_rows();
    FixedTimespanSet::begin("Etc/GMT0", 0, 0, "GMT", Ghost(g))
        .finish(Ghost(g))
}

/// The zone `Etc/Greenwich`.
pub fn greenwich() -> (r: Tz)
    ensures
        r.wf(),
        r.zone_name() == "Etc/Greenwich"@,
        r.table() == tables::etc::greenwich(),
{
    let ghost g = tables::etc::greenwich_rows();
    FixedTimespanSet::begin("Etc/Greenwich", 0, 0, "GMT", Ghost(g))
        .finish(Ghost(g))
}

/// The zone `Etc/UCT`.
pub fn uct() -> (r: Tz)
    ensures
        r.wf(),
        r.zone_name() == "Etc/UCT"@,
        r.table() == tables::etc::uct(),
{
    let ghost g = tables::etc::uct_rows();
    FixedTimespanSet::begin("Etc/UCT", 0, 0, "UTC", Ghost(g))
        .finish(Ghost(g))
}

/// The zone `Etc/UTC`.
pub fn utc() -> (r: Tz)
    ensures
        r.wf(),
        r.zone_name() == "Etc/UTC"@,
        r.table() == tables::etc::utc(),
{
    let ghost g = tables::etc::utc_rows();
    FixedTimespanSet::begin("Etc/UTC", 0, 0, "UTC", Ghost(g))
        .finish(Ghost(g))
}

/// The zone `Etc/Universal`.
pub fn universal() -> (r: Tz)
    ensures
        r.wf(),
        r.zone_name() == "Etc/Universal"@,
        r.table() == tables::etc::universal(),
{
    let ghost g = tables::etc::universal_rows();
    FixedTimespanSet::begin("Etc/Universal", 0, 0, "UTC", Ghost(g))
        .finish(Ghost(g))
}

/// The zone `Etc/Zulu`.
pub fn zulu() -> (r: Tz)
    ensures
        r.wf(),
        r.zone_name() == "Etc/Zulu"@,
        r.table() == tables::etc::zulu(),
{
    let ghost g = tables::etc::zulu_rows();
    FixedTimespanSet::begin("Etc/Zulu", 0, 0, "UTC", Ghost(g))
        .finish(Ghost(g))
}

} // verus!
