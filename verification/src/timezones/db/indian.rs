//! Zones of the Indian Ocean.

use crate::interface::TimeZone;
use crate::timezone_impl::{FixedTimespanSet, Tz};
use crate::timezones::tables;
use vstd::prelude::*;

verus! {

/// The zone `Indian/Antananarivo`.
pub fn antananarivo() -> (r: Tz)
    ensures
        r.wf(),
        r.zone_name() == "Indian/Antananarivo"@,
        r.table() == tables::indian::antananarivo(),
{
    let ghost g = tables::indian::antananarivo_rows();
    FixedTimespanSet::begin("Indian/Antananarivo", 11404, 0, "LMT", Ghost(g))
        .step(-1846293004, 10800, 0, "EAT", Ghost(g))
        .step(-499924800, 10800, 3600, "EAST", Ghost(g))
        .step(-492062400, 10800, 0, "EAT", Ghost(g))
        .finish(Ghost(g))
}

/// The zone `Indian/Chagos`.
pub fn chagos() -> (r: Tz)
    ensures
        r.wf(),
        r.zone_name() == "Indian/Chagos"@,
        r.table() == tables::indian::chagos(),
{
    let ghost g = tables::indian::chagos_rows();
    FixedTimespanSet::begin("Indian/Chagos", 17380, 0, "LMT", Ghost(g))
        .step(-1988167780, 18000, 0, "+05", Ghost(g))
        .step(820436400, 21600, 0, "+06", Ghost(g))
        .step(2147483647, 21600, 0, "+06", Ghost(g))
        .finish(Ghost(g))
}

/// The zone `Indian/Christmas`.
pub fn christmas() -> (r: Tz)
    ensures
        r.wf(),
        r.zone_name() == "Indian/Christmas"@,
        r.table() == tables::indian::christmas(),
{
    let ghost g = tables::indian::christmas_rows();
    FixedTimespanSet::begin("Indian/Christmas", 25372, 0, "LMT", Ghost(g))
        .step(-2364102172, 25200, 0, "+07", Ghost(g))
        .step(2147483647, 25200, 0, "+07", Ghost(g))
        .finish(Ghost(g))
}

/// The zone `Indian/Cocos`.
pub fn cocos() -> (r: Tz)
    ensures
        r.wf(),
        r.zone_name() == "Indian/Cocos"@,
        r.table() == tables::indian::cocos(),
{
    let ghost g = tables::indian::cocos_rows();
    FixedTimespanSet::begin("Indian/Cocos", 23260, 0, "LMT", Ghost(g))
        .step(-2209012060, 23400, 0, "+0630", Ghost(g))
        .step(2147483647, 23400, 0, "+0630", Ghost(g))
        .finish(Ghost(g))
}

/// The zone `Indian/Comoro`.
pub fn comoro() -> (r: Tz)
    ensures
        r.wf(),
        r.zone_name() == "Indian/Comoro"@,
        r.table() == tables::indian::comoro(),
{
    let ghost g = tables::indian::comoro_rows();
    FixedTimespanSet::begin("Indian/Comoro", 10384, 0, "LMT", Ghost(g))
        .step(-1846291984, 10800, 0, "EAT", Ghost(g))
        .finish(Ghost(g))
}

/// The zone `Indian/Kerguelen`.
pub fn kerguelen() -> (r: Tz)
    ensures
        r.wf(),
        r.zone_name() == "Indian/Kerguelen"@,
        r.table() == tables::indian::kerguelen(),
{
    let ghost g = tables::indian::kerguelen_rows();
    FixedTimespanSet::begin("Indian/Kerguelen", 0, 0, "-00", Ghost(g))
        .step(-631152000, 18000, 0, "+05", Ghost(g))
        .step(2147483647, 18000, 0, "+05", Ghost(g))
        .finish(Ghost(g))
}

/// The zone `Indian/Mahe`.
pub fn mahe() -> (r: Tz)
    ensures
        r.wf(),
        r.zone_name() == "Indian/Mahe"@,
        r.table() == tables::indian::mahe(),
{
    let ghost g = tables::indian::mahe_rows();
    FixedTimespanSet::begin("Indian/Mahe", 13308, 0, "LMT", Ghost(g))
        .step(-1988163708, 14400, 0, "+04", Ghost(g))
        .step(2147483647, 14400, 0, "+04", Ghost(g))
        .finish(Ghost(g))
}

/// The zone `Indian/Maldives`.
pub fn maldives() -> (r: Tz)
    ensures
        r.wf(),
        r.zone_name() == "Indian/Maldives"@,
        r.table() == tables::indian::maldives(),
{
    let ghost g = tables::indian::maldives_rows();
    FixedTimespanSet::begin("Indian/Maldives", 17640, 0, "LMT", Ghost(g))
        .step(-2840158440, 17640, 0, "MMT", Ghost(g))
        .step(-315636840, 18000, 0, "+05", Ghost(g))
        .step(2147483647, 18000, 0, "+05", Ghost(g))
        .finish(Ghost(g))
}

/// The zone `Indian/Mauritius`.
pub fn mauritius() -> (r: Tz)
    ensures
        r.wf(),
        r.zone_name() == "Indian/Mauritius"@,
        r.table() == tables::indian::mauritius(),
{
    let ghost g = tables::indian::mauritius_rows();
    FixedTimespanSet::begin("Indian/Mauritius", 13800, 0, "LMT", Ghost(g))
        .step(-1988164200, 14400, 0, "+04", Ghost(g))
        .step(403041600, 14400, 3600, "+05", Ghost(g))
        .step(417034800, 14400, 0, "+04", Ghost(g))
        .step(1224972000, 14400, 3600, "+05", Ghost(g))
        .step(1238274000, 14400, 0, "+04", Ghost(g))
        .step(2147483647, 14400, 0, "+04", Ghost(g))
        .finish(Ghost(g))
}

/// The zone `Indian/Mayotte`.
pub fn mayotte() -> (r: Tz)
    ensures
        r.wf(),
        r.zone_name() == "Indian/Mayotte"@,
        r.table() == tables::indian::mayotte(),
{
    let ghost g = tables::indian::mayotte_rows();
    FixedTimespanSet::begin("Indian/Mayotte", 10856, 0, "LMT", Ghost(g))
        .step(-1846292456, 10800, 0, "EAT", Ghost(g))
        .finish(Ghost(g))
}

/// The zone `Indian/Reunion`.
pub fn reunion() -> (r: Tz)
    ensures
        r.wf(),
        r.zone_name() == "Indian/Reunion"@,
        r.table() == tables::indian::reunion(),
{
    let ghost g = tables::indian::reunion_rows();
    FixedTimespanSet::begin("Indian/Reunion", 13312, 0, "LMT", Ghost(g))
        .step(-1848886912, 14400, 0, "+04", Ghost(g))
        .step(2147483647, 14400, 0, "+04", Ghost(g))
        .finish(Ghost(g))
}

} // verus!
