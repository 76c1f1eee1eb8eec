//! Zones of Australia.

use crate::interface::TimeZone;
use crate::timezone_impl::{FixedTimespanSet, Tz};
use crate::timezones::tables;
use vstd::prelude::*;

verus! {

/// The zone `Australia/ACT`.
pub fn act() -> (r: Tz)
    ensures
        r.wf(),
        r.zone_name() == "Australia/ACT"@,
        r.table() == tables::australia::act(),
{
    let ghost g = tables::australia::act_rows();
    FixedTimespanSet::begin("Australia/ACT", 36292, 0, "LMT", Ghost(g))
        .step(-2364113092, 36000, 0, "AEST", Ghost(g))
        .step(-1672560000, 36000, 3600, "AEDT", Ghost(g))
        .step(-1665388800, 36000, 0, "AEST", Ghost(g))
        .step(-883641600, 36000, 3600, "AEDT", Ghost(g))
        .step(-876124800, 36000, 0, "AEST", Ghost(g))
        .step(-860400000, 36000, 3600, "AEDT", Ghost(g))
        .step(-844675200, 36000, 0, "AEST", Ghost(g))
        .step(-828345600, 36000, 3600, "AEDT", Ghost(g))
        .step(-813225600, 36000, 0, "AEST", Ghost(g))
        .step(57686400, 36000, 3600, "AEDT", Ghost(g))
        .step(67968000, 36000, 0, "AEST", Ghost(g))
        .step(89136000, 36000, 3600, "AEDT", Ghost(g))
        .step(100022400, 36000, 0, "AEST", Ghost(g))
        .step(120585600, 36000, 3600, "AEDT", Ghost(g))
        .step(131472000, 36000, 0, "AEST", Ghost(g))
        .step(152035200, 36000, 3600, "AEDT", Ghost(g))
        .step(162921600, 36000, 0, "AEST", Ghost(g))
        .step(183484800, 36000, 3600, "AEDT", Ghost(g))
        .step(194976000, 36000, 0, "AEST", Ghost(g))
        .step(215539200, 36000, 3600, "AEDT", Ghost(g))
        .step(226425600, 36000, 0, "AEST", Ghost(g))
        .step(246988800, 36000, 3600, "AEDT", Ghost(g))
        .step(257875200, 36000, 0, "AEST", Ghost(g))
        .step(278438400, 36000, 3600, "AEDT", Ghost(g))
        .step(289324800, 36000, 0, "AEST", Ghost(g))
        .step(309888000, 36000, 3600, "AEDT", Ghost(g))
        .step(320774400, 36000, 0, "AEST", Ghost(g))
        .step(341337600, 36000, 3600, "AEDT", Ghost(g))
        .step(352224000, 36000, 0, "AEST", Ghost(g))
        .step(372787200, 36000, 3600, "AEDT", Ghost(g))
        .step(386697600, 36000, 0, "AEST", Ghost(g))
        .step(404841600, 36000, 3600, "AEDT", Ghost(g))
        .step(415728000, 36000, 0, "AEST", Ghost(g))
        .step(436291200, 36000, 3600, "AEDT", Ghost(g))
        .step(447177600, 36000, 0, "AEST", Ghost(g))
        .step(467740800, 36000, 3600, "AEDT", Ghost(g))
        .step(478627200, 36000, 0, "AEST", Ghost(g))
        .step(499190400, 36000, 3600, "AEDT", Ghost(g))
        .step(511286400, 36000, 0, "AEST", Ghost(g))
        .step(530035200, 36000, 3600, "AEDT", Ghost(g))
        .step(542736000, 36000, 0, "AEST", Ghost(g))
        .step(562089600, 36000, 3600, "AEDT", Ghost(g))
        .step(574790400, 36000, 0, "AEST", Ghost(g))
        .step(594144000, 36000, 3600, "AEDT", Ghost(g))
        .step(606240000, 36000, 0, "AEST", Ghost(g))
        .step(625593600, 36000, 3600, "AEDT", Ghost(g))
        .step(636480000, 36000, 0, "AEST", Ghost(g))
        .step(657043200, 36000, 3600, "AEDT", Ghost(g))
        .step(667929600, 36000, 0, "AEST", Ghost(g))
        .step(688492800, 36000, 3600, "AEDT", Ghost(g))
        .step(699379200, 36000, 0, "AEST", Ghost(g))
        .step(719942400, 36000, 3600, "AEDT", Ghost(g))
        .step(731433600, 36000, 0, "AEST", Ghost(g))
        .step(751996800, 36000, 3600, "AEDT", Ghost(g))
        .step(762883200, 36000, 0, "AEST", Ghost(g))
        .step(783446400, 36000, 3600, "AEDT", Ghost(g))
        .step(794332800, 36000, 0, "AEST", Ghost(g))
        .step(814896000, 36000, 3600, "AEDT", Ghost(g))
        .step(828201600, 36000, 0, "AEST", Ghost(g))
        .step(846345600, 36000, 3600, "AEDT", Ghost(g))
        .step(859651200, 36000, 0, "AEST", Ghost(g))
        .step(877795200, 36000, 3600, "AEDT", Ghost(g))
        .step(891100800, 36000, 0, "AEST", Ghost(g))
        .step(909244800, 36000, 3600, "AEDT", Ghost(g))
        .step(922550400, 36000, 0, "AEST", Ghost(g))
        .step(941299200, 36000, 3600, "AEDT", Ghost(g))
        .step(954000000, 36000, 0, "AEST", Ghost(g))
        .step(967305600, 36000, 3600, "AEDT", Ghost(g))
        .step(985449600, 36000, 0, "AEST", Ghost(g))
        .step(1004198400, 36000, 3600, "AEDT", Ghost(g))
        .step(1017504000, 36000, 0, "AEST", Ghost(g))
        .step(1035648000, 36000, 3600, "AEDT", Ghost(g))
        .step(1048953600, 36000, 0, "AEST", Ghost(g))
        .step(1067097600, 36000, 3600, "AEDT", Ghost(g))
        .step(1080403200, 36000, 0, "AEST", Ghost(g))
        .step(1099152000, 36000, 3600, "AEDT", Ghost(g))
        .step(1111852800, 36000, 0, "AEST", Ghost(g))
        .step(1130601600, 36000, 3600, "AEDT", Ghost(g))
        .step(1143907200, 36000, 0, "AEST", Ghost(g))
        .step(1162051200, 36000, 3600, "AEDT", Ghost(g))
        .step(1174752000, 36000, 0, "AEST", Ghost(g))
        .step(1193500800, 36000, 3600, "AEDT", Ghost(g))
        .step(1207411200, 36000, 0, "AEST", Ghost(g))
        .step(1223136000, 36000, 3600, "AEDT", Ghost(g))
        .step(1238860800, 36000, 0, "AEST", Ghost(g))
        .step(1254585600, 36000, 3600, "AEDT", Ghost(g))
        .step(1270310400, 36000, 0, "AEST", Ghost(g))
        .step(1286035200, 36000, 3600, "AEDT", Ghost(g))
        .step(1301760000, 36000, 0, "AEST", Ghost(g))
        .step(1317484800, 36000, 3600, "AEDT", Ghost(g))
        .step(1333209600, 36000, 0, "AEST", Ghost(g))
        .step(1349539200, 36000, 3600, "AEDT", Ghost(g))
        .step(1365264000, 36000, 0, "AEST", Ghost(g))
        .step(1380988800, 36000, 3600, "AEDT", Ghost(g))
        .step(1396713600, 36000, 0, "AEST", Ghost(g))
        .step(1412438400, 36000, 3600, "AEDT", Ghost(g))
        .step(1428163200, 36000, 0, "AEST", Ghost(g))
        .step(1443888000, 36000, 3600, "AEDT", Ghost(g))
        .step(1459612800, 36000, 0, "AEST", Ghost(g))
        .step(1475337600, 36000, 3600, "AEDT", Ghost(g))
        .step(1491062400, 36000, 0, "AEST", Ghost(g))
        .step(1506787200, 36000, 3600, "AEDT", Ghost(g))
        .step(1522512000, 36000, 0, "AEST", Ghost(g))
        .step(1538841600, 36000, 3600, "AEDT", Ghost(g))
        .step(1554566400, 36000, 0, "AEST", Ghost(g))
        .step(1570291200, 36000, 3600, "AEDT", Ghost(g))
        .step(1586016000, 36000, 0, "AEST", Ghost(g))
        .step(1601740800, 36000, 3600, "AEDT", Ghost(g))
        .step(1617465600, 36000, 0, "AEST", Ghost(g))
        .step(1633190400, 36000, 3600, "AEDT", Ghost(g))
        .step(1648915200, 36000, 0, "AEST", Ghost(g))
        .step(1664640000, 36000, 3600, "AEDT", Ghost(g))
        .step(1680364800, 36000, 0, "AEST", Ghost(g))
        .step(1696089600, 36000, 3600, "AEDT", Ghost(g))
        .step(1712419200, 36000, 0, "AEST", Ghost(g))
        .step(1728144000, 36000, 3600, "AEDT", Ghost(g))
        .step(1743868800, 36000, 0, "AEST", Ghost(g))
        .step(1759593600, 36000, 3600, "AEDT", Ghost(g))
        .step(1775318400, 36000, 0, "AEST", Ghost(g))
        .step(1791043200, 36000, 3600, "AEDT", Ghost(g))
        .step(1806768000, 36000, 0, "AEST", Ghost(g))
        .step(1822492800, 36000, 3600, "AEDT", Ghost(g))
        .step(1838217600, 36000, 0, "AEST", Ghost(g))
        .step(1853942400, 36000, 3600, "AEDT", Ghost(g))
        .step(1869667200, 36000, 0, "AEST", Ghost(g))
        .step(1885996800, 36000, 3600, "AEDT", Ghost(g))
        .step(1901721600, 36000, 0, "AEST", Ghost(g))
        .step(1917446400, 36000, 3600, "AEDT", Ghost(g))
        .step(1933171200, 36000, 0, "AEST", Ghost(g))
        .step(1948896000, 36000, 3600, "AEDT", Ghost(g))
        .step(1964620800, 36000, 0, "AEST", Ghost(g))
        .step(1980345600, 36000, 3600, "AEDT", Ghost(g))
        .step(1996070400, 36000, 0, "AEST", Ghost(g))
        .step(2011795200, 36000, 3600, "AEDT", Ghost(g))
        .step(2027520000, 36000, 0, "AEST", Ghost(g))
        .step(2043244800, 36000, 3600, "AEDT", Ghost(g))
        .step(2058969600, 36000, 0, "AEST", Ghost(g))
        .step(2075299200, 36000, 3600, "AEDT", Ghost(g))
        .step(2091024000, 36000, 0, "AEST", Ghost(g))
        .step(2106748800, 36000, 3600, "AEDT", Ghost(g))
        .step(2122473600, 36000, 0, "AEST", Ghost(g))
        .step(2138198400, 36000, 3600, "AEDT", Ghost(g))
        .finish(Ghost(g))
}

/// The zone `Australia/Adelaide`.
pub fn adelaide() -> (r: Tz)
    ensures
        r.wf(),
        r.zone_name() == "Australia/Adelaide"@,
        r.table() == tables::australia::adelaide(),
{
    let ghost g = tables::australia::adelaide_rows();
    FixedTimespanSet::begin("Australia/Adelaide", 33260, 0, "LMT", Ghost(g))
        .step(-2364110060, 32400, 0, "ACST", Ghost(g))
        .step(-2230189200, 34200, 0, "ACST", Ghost(g))
        .step(-1672558200, 34200, 3600, "ACDT", Ghost(g))
        .step(-1665387000, 34200, 0, "ACST", Ghost(g))
        .step(-883639800, 34200, 3600, "ACDT", Ghost(g))
        .step(-876123000, 34200, 0, "ACST", Ghost(g))
        .step(-860398200, 34200, 3600, "ACDT", Ghost(g))
        .step(-844673400, 34200, 0, "ACST", Ghost(g))
        .step(-828343800, 34200, 3600, "ACDT", Ghost(g))
        .step(-813223800, 34200, 0, "ACST", Ghost(g))
        .step(57688200, 34200, 3600, "ACDT", Ghost(g))
        .step(67969800, 34200, 0, "ACST", Ghost(g))
        .step(89137800, 34200, 3600, "ACDT", Ghost(g))
        .step(100024200, 34200, 0, "ACST", Ghost(g))
        .step(120587400, 34200, 3600, "ACDT", Ghost(g))
        .step(131473800, 34200, 0, "ACST", Ghost(g))
        .step(152037000, 34200, 3600, "ACDT", Ghost(g))
        .step(162923400, 34200, 0, "ACST", Ghost(g))
        .step(183486600, 34200, 3600, "ACDT", Ghost(g))
        .step(194977800, 34200, 0, "ACST", Ghost(g))
        .step(215541000, 34200, 3600, "ACDT", Ghost(g))
        .step(226427400, 34200, 0, "ACST", Ghost(g))
        .step(246990600, 34200, 3600, "ACDT", Ghost(g))
        .step(257877000, 34200, 0, "ACST", Ghost(g))
        .step(278440200, 34200, 3600, "ACDT", Ghost(g))
        .step(289326600, 34200, 0, "ACST", Ghost(g))
        .step(309889800, 34200, 3600, "ACDT", Ghost(g))
        .step(320776200, 34200, 0, "ACST", Ghost(g))
        .step(341339400, 34200, 3600, "ACDT", Ghost(g))
        .step(352225800, 34200, 0, "ACST", Ghost(g))
        .step(372789000, 34200, 3600, "ACDT", Ghost(g))
        .step(384280200, 34200, 0, "ACST", Ghost(g))
        .step(404843400, 34200, 3600, "ACDT", Ghost(g))
        .step(415729800, 34200, 0, "ACST", Ghost(g))
        .step(436293000, 34200, 3600, "ACDT", Ghost(g))
        .step(447179400, 34200, 0, "ACST", Ghost(g))
        .step(467742600, 34200, 3600, "ACDT", Ghost(g))
        .step(478629000, 34200, 0, "ACST", Ghost(g))
        .step(499192200, 34200, 3600, "ACDT", Ghost(g))
        .step(511288200, 34200, 0, "ACST", Ghost(g))
        .step(530037000, 34200, 3600, "ACDT", Ghost(g))
        .step(542737800, 34200, 0, "ACST", Ghost(g))
        .step(562091400, 34200, 3600, "ACDT", Ghost(g))
        .step(574792200, 34200, 0, "ACST", Ghost(g))
        .step(594145800, 34200, 3600, "ACDT", Ghost(g))
        .step(606241800, 34200, 0, "ACST", Ghost(g))
        .step(625595400, 34200, 3600, "ACDT", Ghost(g))
        .step(637691400, 34200, 0, "ACST", Ghost(g))
        .step(657045000, 34200, 3600, "ACDT", Ghost(g))
        .step(667931400, 34200, 0, "ACST", Ghost(g))
        .step(688494600, 34200, 3600, "ACDT", Ghost(g))
        .step(701195400, 34200, 0, "ACST", Ghost(g))
        .step(719944200, 34200, 3600, "ACDT", Ghost(g))
        .step(731435400, 34200, 0, "ACST", Ghost(g))
        .step(751998600, 34200, 3600, "ACDT", Ghost(g))
        .step(764094600, 34200, 0, "ACST", Ghost(g))
        .step(783448200, 34200, 3600, "ACDT", Ghost(g))
        .step(796149000, 34200, 0, "ACST", Ghost(g))
        .step(814897800, 34200, 3600, "ACDT", Ghost(g))
        .step(828203400, 34200, 0, "ACST", Ghost(g))
        .step(846347400, 34200, 3600, "ACDT", Ghost(g))
        .step(859653000, 34200, 0, "ACST", Ghost(g))
        .step(877797000, 34200, 3600, "ACDT", Ghost(g))
        .step(891102600, 34200, 0, "ACST", Ghost(g))
        .step(909246600, 34200, 3600, "ACDT", Ghost(g))
        .step(922552200, 34200, 0, "ACST", Ghost(g))
        .step(941301000, 34200, 3600, "ACDT", Ghost(g))
        .step(954001800, 34200, 0, "ACST", Ghost(g))
        .step(972750600, 34200, 3600, "ACDT", Ghost(g))
        .step(985451400, 34200, 0, "ACST", Ghost(g))
        .step(1004200200, 34200, 3600, "ACDT", Ghost(g))
        .step(1017505800, 34200, 0, "ACST", Ghost(g))
        .step(1035649800, 34200, 3600, "ACDT", Ghost(g))
        .step(1048955400, 34200, 0, "ACST", Ghost(g))
        .step(1067099400, 34200, 3600, "ACDT", Ghost(g))
        .step(1080405000, 34200, 0, "ACST", Ghost(g))
        .step(1099153800, 34200, 3600, "ACDT", Ghost(g))
        .step(1111854600, 34200, 0, "ACST", Ghost(g))
        .step(1130603400, 34200, 3600, "ACDT", Ghost(g))
        .step(1143909000, 34200, 0, "ACST", Ghost(g))
        .step(1162053000, 34200, 3600, "ACDT", Ghost(g))
        .step(1174753800, 34200, 0, "ACST", Ghost(g))
        .step(1193502600, 34200, 3600, "ACDT", Ghost(g))
        .step(1207413000, 34200, 0, "ACST", Ghost(g))
        .step(1223137800, 34200, 3600, "ACDT", Ghost(g))
        .step(1238862600, 34200, 0, "ACST", Ghost(g))
        .step(1254587400, 34200, 3600, "ACDT", Ghost(g))
        .step(1270312200, 34200, 0, "ACST", Ghost(g))
        .step(1286037000, 34200, 3600, "ACDT", Ghost(g))
        .step(1301761800, 34200, 0, "ACST", Ghost(g))
        .step(1317486600, 34200, 3600, "ACDT", Ghost(g))
        .step(1333211400, 34200, 0, "ACST", Ghost(g))
        .step(1349541000, 34200, 3600, "ACDT", Ghost(g))
        .step(1365265800, 34200, 0, "ACST", Ghost(g))
        .step(1380990600, 34200, 3600, "ACDT", Ghost(g))
        .step(1396715400, 34200, 0, "ACST", Ghost(g))
        .step(1412440200, 34200, 3600, "ACDT", Ghost(g))
        .step(1428165000, 34200, 0, "ACST", Ghost(g))
        .step(1443889800, 34200, 3600, "ACDT", Ghost(g))
        .step(1459614600, 34200, 0, "ACST", Ghost(g))
        .step(1475339400, 34200, 3600, "ACDT", Ghost(g))
        .step(1491064200, 34200, 0, "ACST", Ghost(g))
        .step(1506789000, 34200, 3600, "ACDT", Ghost(g))
        .step(1522513800, 34200, 0, "ACST", Ghost(g))
        .step(1538843400, 34200, 3600, "ACDT", Ghost(g))
        .step(1554568200, 34200, 0, "ACST", Ghost(g))
        .step(1570293000, 34200, 3600, "ACDT", Ghost(g))
        .step(1586017800, 34200, 0, "ACST", Ghost(g))
        .step(1601742600, 34200, 3600, "ACDT", Ghost(g))
        .step(1617467400, 34200, 0, "ACST", Ghost(g))
        .step(1633192200, 34200, 3600, "ACDT", Ghost(g))
        .step(1648917000, 34200, 0, "ACST", Ghost(g))
        .step(1664641800, 34200, 3600, "ACDT", Ghost(g))
        .step(1680366600, 34200, 0, "ACST", Ghost(g))
        .step(1696091400, 34200, 3600, "ACDT", Ghost(g))
        .step(1712421000, 34200, 0, "ACST", Ghost(g))
        .step(1728145800, 34200, 3600, "ACDT", Ghost(g))
        .step(1743870600, 34200, 0, "ACST", Ghost(g))
        .step(1759595400, 34200, 3600, "ACDT", Ghost(g))
        .step(1775320200, 34200, 0, "ACST", Ghost(g))
        .step(1791045000, 34200, 3600, "ACDT", Ghost(g))
        .step(1806769800, 34200, 0, "ACST", Ghost(g))
        .step(1822494600, 34200, 3600, "ACDT", Ghost(g))
        .step(1838219400, 34200, 0, "ACST", Ghost(g))
        .step(1853944200, 34200, 3600, "ACDT", Ghost(g))
        .step(1869669000, 34200, 0, "ACST", Ghost(g))
        .step(1885998600, 34200, 3600, "ACDT", Ghost(g))
        .step(1901723400, 34200, 0, "ACST", Ghost(g))
        .step(1917448200, 34200, 3600, "ACDT", Ghost(g))
        .step(1933173000, 34200, 0, "ACST", Ghost(g))
        .step(1948897800, 34200, 3600, "ACDT", Ghost(g))
        .step(1964622600, 34200, 0, "ACST", Ghost(g))
        .step(1980347400, 34200, 3600, "ACDT", Ghost(g))
        .step(1996072200, 34200, 0, "ACST", Ghost(g))
        .step(2011797000, 34200, 3600, "ACDT", Ghost(g))
        .step(2027521800, 34200, 0, "ACST", Ghost(g))
        .step(2043246600, 34200, 3600, "ACDT", Ghost(g))
        .step(2058971400, 34200, 0, "ACST", Ghost(g))
        .step(2075301000, 34200, 3600, "ACDT", Ghost(g))
        .step(2091025800, 34200, 0, "ACST", Ghost(g))
        .step(2106750600, 34200, 3600, "ACDT", Ghost(g))
        .step(2122475400, 34200, 0, "ACST", Ghost(g))
        .step(2138200200, 34200, 3600, "ACDT", Ghost(g))
        .finish(Ghost(g))
}

/// The zone `Australia/Brisbane`.
pub fn brisbane() -> (r: Tz)
    ensures
        r.wf(),
        r.zone_name() == "Australia/Brisbane"@,
        r.table() == tables::australia::brisbane(),
{
    let ghost g = tables::australia::brisbane_rows();
    FixedTimespanSet::begin("Australia/Brisbane", 36728, 0, "LMT", Ghost(g))
        .step(-2366791928, 36000, 0, "AEST", Ghost(g))
        .step(-1672560000, 36000, 3600, "AEDT", Ghost(g))
        .step(-1665388800, 36000, 0, "AEST", Ghost(g))
        .step(-883641600, 36000, 3600, "AEDT", Ghost(g))
        .step(-876124800, 36000, 0, "AEST", Ghost(g))
        .step(-860400000, 36000, 3600, "AEDT", Ghost(g))
        .step(-844675200, 36000, 0, "AEST", Ghost(g))
        .step(-828345600, 36000, 3600, "AEDT", Ghost(g))
        .step(-813225600, 36000, 0, "AEST", Ghost(g))
        .step(57686400, 36000, 3600, "AEDT", Ghost(g))
        .step(67968000, 36000, 0, "AEST", Ghost(g))
        .step(625593600, 36000, 3600, "AEDT", Ghost(g))
        .step(636480000, 36000, 0, "AEST", Ghost(g))
        .step(657043200, 36000, 3600, "AEDT", Ghost(g))
        .step(667929600, 36000, 0, "AEST", Ghost(g))
        .step(688492800, 36000, 3600, "AEDT", Ghost(g))
        .step(699379200, 36000, 0, "AEST", Ghost(g))
        .finish(Ghost(g))
}

/// The zone `Australia/Broken_Hill`.
pub fn broken_hill() -> (r: Tz)
    ensures
        r.wf(),
        r.zone_name() == "Australia/Broken_Hill"@,
        r.table() == tables::australia::broken_hill(),
{
    let ghost g = tables::australia::broken_hill_rows();
    FixedTimespanSet::begin("Australia/Broken_Hill", 33948, 0, "LMT", Ghost(g))
        .step(-2364110748, 36000, 0, "AEST", Ghost(g))
        .step(-2314951200, 32400, 0, "ACST", Ghost(g))
        .step(-2230189200, 34200, 0, "ACST", Ghost(g))
        .step(-1672558200, 34200, 3600, "ACDT", Ghost(g))
        .step(-1665387000, 34200, 0, "ACST", Ghost(g))
        .step(-883639800, 34200, 3600, "ACDT", Ghost(g))
        .step(-876123000, 34200, 0, "ACST", Ghost(g))
        .step(-860398200, 34200, 3600, "ACDT", Ghost(g))
        .step(-844673400, 34200, 0, "ACST", Ghost(g))
        .step(-828343800, 34200, 3600, "ACDT", Ghost(g))
        .step(-813223800, 34200, 0, "ACST", Ghost(g))
        .step(57688200, 34200, 3600, "ACDT", Ghost(g))
        .step(67969800, 34200, 0, "ACST", Ghost(g))
        .step(89137800, 34200, 3600, "ACDT", Ghost(g))
        .step(100024200, 34200, 0, "ACST", Ghost(g))
        .step(120587400, 34200, 3600, "ACDT", Ghost(g))
        .step(131473800, 34200, 0, "ACST", Ghost(g))
        .step(152037000, 34200, 3600, "ACDT", Ghost(g))
        .step(162923400, 34200, 0, "ACST", Ghost(g))
        .step(183486600, 34200, 3600, "ACDT", Ghost(g))
        .step(194977800, 34200, 0, "ACST", Ghost(g))
        .step(215541000, 34200, 3600, "ACDT", Ghost(g))
        .step(226427400, 34200, 0, "ACST", Ghost(g))
        .step(246990600, 34200, 3600, "ACDT", Ghost(g))
        .step(257877000, 34200, 0, "ACST", Ghost(g))
        .step(278440200, 34200, 3600, "ACDT", Ghost(g))
        .step(289326600, 34200, 0, "ACST", Ghost(g))
        .step(309889800, 34200, 3600, "ACDT", Ghost(g))
        .step(320776200, 34200, 0, "ACST", Ghost(g))
        .step(341339400, 34200, 3600, "ACDT", Ghost(g))
        .step(352225800, 34200, 0, "ACST", Ghost(g))
        .step(372789000, 34200, 3600, "ACDT", Ghost(g))
        .step(386699400, 34200, 0, "ACST", Ghost(g))
        .step(404843400, 34200, 3600, "ACDT", Ghost(g))
        .step(415729800, 34200, 0, "ACST", Ghost(g))
        .step(436293000, 34200, 3600, "ACDT", Ghost(g))
        .step(447179400, 34200, 0, "ACST", Ghost(g))
        .step(467742600, 34200, 3600, "ACDT", Ghost(g))
        .step(478629000, 34200, 0, "ACST", Ghost(g))
        .step(499192200, 34200, 3600, "ACDT", Ghost(g))
        .step(511288200, 34200, 0, "ACST", Ghost(g))
        .step(530037000, 34200, 3600, "ACDT", Ghost(g))
        .step(542737800, 34200, 0, "ACST", Ghost(g))
        .step(562091400, 34200, 3600, "ACDT", Ghost(g))
        .step(574792200, 34200, 0, "ACST", Ghost(g))
        .step(594145800, 34200, 3600, "ACDT", Ghost(g))
        .step(606241800, 34200, 0, "ACST", Ghost(g))
        .step(625595400, 34200, 3600, "ACDT", Ghost(g))
        .step(636481800, 34200, 0, "ACST", Ghost(g))
        .step(657045000, 34200, 3600, "ACDT", Ghost(g))
        .step(667931400, 34200, 0, "ACST", Ghost(g))
        .step(688494600, 34200, 3600, "ACDT", Ghost(g))
        .step(699381000, 34200, 0, "ACST", Ghost(g))
        .step(719944200, 34200, 3600, "ACDT", Ghost(g))
        .step(731435400, 34200, 0, "ACST", Ghost(g))
        .step(751998600, 34200, 3600, "ACDT", Ghost(g))
        .step(762885000, 34200, 0, "ACST", Ghost(g))
        .step(783448200, 34200, 3600, "ACDT", Ghost(g))
        .step(794334600, 34200, 0, "ACST", Ghost(g))
        .step(814897800, 34200, 3600, "ACDT", Ghost(g))
        .step(828203400, 34200, 0, "ACST", Ghost(g))
        .step(846347400, 34200, 3600, "ACDT", Ghost(g))
        .step(859653000, 34200, 0, "ACST", Ghost(g))
        .step(877797000, 34200, 3600, "ACDT", Ghost(g))
        .step(891102600, 34200, 0, "ACST", Ghost(g))
        .step(909246600, 34200, 3600, "ACDT", Ghost(g))
        .step(922552200, 34200, 0, "ACST", Ghost(g))
        .step(941301000, 34200, 3600, "ACDT", Ghost(g))
        .step(954001800, 34200, 0, "ACST", Ghost(g))
        .step(972750600, 34200, 3600, "ACDT", Ghost(g))
        .step(985451400, 34200, 0, "ACST", Ghost(g))
        .step(1004200200, 34200, 3600, "ACDT", Ghost(g))
        .step(1017505800, 34200, 0, "ACST", Ghost(g))
        .step(1035649800, 34200, 3600, "ACDT", Ghost(g))
        .step(1048955400, 34200, 0, "ACST", Ghost(g))
        .step(1067099400, 34200, 3600, "ACDT", Ghost(g))
        .step(1080405000, 34200, 0, "ACST", Ghost(g))
        .step(1099153800, 34200, 3600, "ACDT", Ghost(g))
        .step(1111854600, 34200, 0, "ACST", Ghost(g))
        .step(1130603400, 34200, 3600, "ACDT", Ghost(g))
        .step(1143909000, 34200, 0, "ACST", Ghost(g))
        .step(1162053000, 34200, 3600, "ACDT", Ghost(g))
        .step(1174753800, 34200, 0, "ACST", Ghost(g))
        .step(1193502600, 34200, 3600, "ACDT", Ghost(g))
        .step(1207413000, 34200, 0, "ACST", Ghost(g))
        .step(1223137800, 34200, 3600, "ACDT", Ghost(g))
        .step(1238862600, 34200, 0, "ACST", Ghost(g))
        .step(1254587400, 34200, 3600, "ACDT", Ghost(g))
        .step(1270312200, 34200, 0, "ACST", Ghost(g))
        .step(1286037000, 34200, 3600, "ACDT", Ghost(g))
        .step(1301761800, 34200, 0, "ACST", Ghost(g))
        .step(1317486600, 34200, 3600, "ACDT", Ghost(g))
        .step(1333211400, 34200, 0, "ACST", Ghost(g))
        .step(1349541000, 34200, 3600, "ACDT", Ghost(g))
        .step(1365265800, 34200, 0, "ACST", Ghost(g))
        .step(1380990600, 34200, 3600, "ACDT", Ghost(g))
        .step(1396715400, 34200, 0, "ACST", Ghost(g))
        .step(1412440200, 34200, 3600, "ACDT", Ghost(g))
        .step(1428165000, 34200, 0, "ACST", Ghost(g))
        .step(1443889800, 34200, 3600, "ACDT", Ghost(g))
        .step(1459614600, 34200, 0, "ACST", Ghost(g))
        .step(1475339400, 34200, 3600, "ACDT", Ghost(g))
        .step(1491064200, 34200, 0, "ACST", Ghost(g))
        .step(1506789000, 34200, 3600, "ACDT", Ghost(g))
        .step(1522513800, 34200, 0, "ACST", Ghost(g))
        .step(1538843400, 34200, 3600, "ACDT", Ghost(g))
        .step(1554568200, 34200, 0, "ACST", Ghost(g))
        .step(1570293000, 34200, 3600, "ACDT", Ghost(g))
        .step(1586017800, 34200, 0, "ACST", Ghost(g))
        .step(1601742600, 34200, 3600, "ACDT", Ghost(g))
        .step(1617467400, 34200, 0, "ACST", Ghost(g))
        .step(1633192200, 34200, 3600, "ACDT", Ghost(g))
        .step(1648917000, 34200, 0, "ACST", Ghost(g))
        .step(1664641800, 34200, 3600, "ACDT", Ghost(g))
        .step(1680366600, 34200, 0, "ACST", Ghost(g))
        .step(1696091400, 34200, 3600, "ACDT", Ghost(g))
        .step(1712421000, 34200, 0, "ACST", Ghost(g))
        .step(1728145800, 34200, 3600, "ACDT", Ghost(g))
        .step(1743870600, 34200, 0, "ACST", Ghost(g))
        .step(1759595400, 34200, 3600, "ACDT", Ghost(g))
        .step(1775320200, 34200, 0, "ACST", Ghost(g))
        .step(1791045000, 34200, 3600, "ACDT", Ghost(g))
        .step(1806769800, 34200, 0, "ACST", Ghost(g))
        .step(1822494600, 34200, 3600, "ACDT", Ghost(g))
        .step(1838219400, 34200, 0, "ACST", Ghost(g))
        .step(1853944200, 34200, 3600, "ACDT", Ghost(g))
        .step(1869669000, 34200, 0, "ACST", Ghost(g))
        .step(1885998600, 34200, 3600, "ACDT", Ghost(g))
        .step(1901723400, 34200, 0, "ACST", Ghost(g))
        .step(1917448200, 34200, 3600, "ACDT", Ghost(g))
        .step(1933173000, 34200, 0, "ACST", Ghost(g))
        .step(1948897800, 34200, 3600, "ACDT", Ghost(g))
        .step(1964622600, 34200, 0, "ACST", Ghost(g))
        .step(1980347400, 34200, 3600, "ACDT", Ghost(g))
        .step(1996072200, 34200, 0, "ACST", Ghost(g))
        .step(2011797000, 34200, 3600, "ACDT", Ghost(g))
        .step(2027521800, 34200, 0, "ACST", Ghost(g))
        .step(2043246600, 34200, 3600, "ACDT", Ghost(g))
        .step(2058971400, 34200, 0, "ACST", Ghost(g))
        .step(2075301000, 34200, 3600, "ACDT", Ghost(g))
        .step(2091025800, 34200, 0, "ACST", Ghost(g))
        .step(2106750600, 34200, 3600, "ACDT", Ghost(g))
        .step(2122475400, 34200, 0, "ACST", Ghost(g))
        .step(2138200200, 34200, 3600, "ACDT", Ghost(g))
        .finish(Ghost(g))
}

/// The zone `Australia/Canberra`.
pub fn canberra() -> (r: Tz)
    ensures
        r.wf(),
        r.zone_name() == "Australia/Canberra"@,
        r.table() == tables::australia::canberra(),
{
    let ghost g = tables::australia::canberra_rows();
    FixedTimespanSet::begin("Australia/Canberra", 36292, 0, "LMT", Ghost(g))
        .step(-2364113092, 36000, 0, "AEST", Ghost(g))
        .step(-1672560000, 36000, 3600, "AEDT", Ghost(g))
        .step(-1665388800, 36000, 0, "AEST", Ghost(g))
        .step(-883641600, 36000, 3600, "AEDT", Ghost(g))
        .step(-876124800, 36000, 0, "AEST", Ghost(g))
        .step(-860400000, 36000, 3600, "AEDT", Ghost(g))
        .step(-844675200, 36000, 0, "AEST", Ghost(g))
        .step(-828345600, 36000, 3600, "AEDT", Ghost(g))
        .step(-813225600, 36000, 0, "AEST", Ghost(g))
        .step(57686400, 36000, 3600, "AEDT", Ghost(g))
        .step(67968000, 36000, 0, "AEST", Ghost(g))
        .step(89136000, 36000, 3600, "AEDT", Ghost(g))
        .step(100022400, 36000, 0, "AEST", Ghost(g))
        .step(120585600, 36000, 3600, "AEDT", Ghost(g))
        .step(131472000, 36000, 0, "AEST", Ghost(g))
        .step(152035200, 36000, 3600, "AEDT", Ghost(g))
        .step(162921600, 36000, 0, "AEST", Ghost(g))
        .step(183484800, 36000, 3600, "AEDT", Ghost(g))
        .step(194976000, 36000, 0, "AEST", Ghost(g))
        .step(215539200, 36000, 3600, "AEDT", Ghost(g))
        .step(226425600, 36000, 0, "AEST", Ghost(g))
        .step(246988800, 36000, 3600, "AEDT", Ghost(g))
        .step(257875200, 36000, 0, "AEST", Ghost(g))
        .step(278438400, 36000, 3600, "AEDT", Ghost(g))
        .step(289324800, 36000, 0, "AEST", Ghost(g))
        .step(309888000, 36000, 3600, "AEDT", Ghost(g))
        .step(320774400, 36000, 0, "AEST", Ghost(g))
        .step(341337600, 36000, 3600, "AEDT", Ghost(g))
        .step(352224000, 36000, 0, "AEST", Ghost(g))
        .step(372787200, 36000, 3600, "AEDT", Ghost(g))
        .step(386697600, 36000, 0, "AEST", Ghost(g))
        .step(404841600, 36000, 3600, "AEDT", Ghost(g))
        .step(415728000, 36000, 0, "AEST", Ghost(g))
        .step(436291200, 36000, 3600, "AEDT", Ghost(g))
        .step(447177600, 36000, 0, "AEST", Ghost(g))
        .step(467740800, 36000, 3600, "AEDT", Ghost(g))
        .step(478627200, 36000, 0, "AEST", Ghost(g))
        .step(499190400, 36000, 3600, "AEDT", Ghost(g))
        .step(511286400, 36000, 0, "AEST", Ghost(g))
        .step(530035200, 36000, 3600, "AEDT", Ghost(g))
        .step(542736000, 36000, 0, "AEST", Ghost(g))
        .step(562089600, 36000, 3600, "AEDT", Ghost(g))
        .step(574790400, 36000, 0, "AEST", Ghost(g))
        .step(594144000, 36000, 3600, "AEDT", Ghost(g))
        .step(606240000, 36000, 0, "AEST", Ghost(g))
        .step(625593600, 36000, 3600, "AEDT", Ghost(g))
        .step(636480000, 36000, 0, "AEST", Ghost(g))
        .step(657043200, 36000, 3600, "AEDT", Ghost(g))
        .step(667929600, 36000, 0, "AEST", Ghost(g))
        .step(688492800, 36000, 3600, "AEDT", Ghost(g))
        .step(699379200, 36000, 0, "AEST", Ghost(g))
        .step(719942400, 36000, 3600, "AEDT", Ghost(g))
        .step(731433600, 36000, 0, "AEST", Ghost(g))
        .step(751996800, 36000, 3600, "AEDT", Ghost(g))
        .step(762883200, 36000, 0, "AEST", Ghost(g))
        .step(783446400, 36000, 3600, "AEDT", Ghost(g))
        .step(794332800, 36000, 0, "AEST", Ghost(g))
        .step(814896000, 36000, 3600, "AEDT", Ghost(g))
        .step(828201600, 36000, 0, "AEST", Ghost(g))
        .step(846345600, 36000, 3600, "AEDT", Ghost(g))
        .step(859651200, 36000, 0, "AEST", Ghost(g))
        .step(877795200, 36000, 3600, "AEDT", Ghost(g))
        .step(891100800, 36000, 0, "AEST", Ghost(g))
        .step(909244800, 36000, 3600, "AEDT", Ghost(g))
        .step(922550400, 36000, 0, "AEST", Ghost(g))
        .step(941299200, 36000, 3600, "AEDT", Ghost(g))
        .step(954000000, 36000, 0, "AEST", Ghost(g))
        .step(967305600, 36000, 3600, "AEDT", Ghost(g))
        .step(985449600, 36000, 0, "AEST", Ghost(g))
        .step(1004198400, 36000, 3600, "AEDT", Ghost(g))
        .step(1017504000, 36000, 0, "AEST", Ghost(g))
        .step(1035648000, 36000, 3600, "AEDT", Ghost(g))
        .step(1048953600, 36000, 0, "AEST", Ghost(g))
        .step(1067097600, 36000, 3600, "AEDT", Ghost(g))
        .step(1080403200, 36000, 0, "AEST", Ghost(g))
        .step(1099152000, 36000, 3600, "AEDT", Ghost(g))
        .step(1111852800, 36000, 0, "AEST", Ghost(g))
        .step(1130601600, 36000, 3600, "AEDT", Ghost(g))
        .step(1143907200, 36000, 0, "AEST", Ghost(g))
        .step(1162051200, 36000, 3600, "AEDT", Ghost(g))
        .step(1174752000, 36000, 0, "AEST", Ghost(g))
        .step(1193500800, 36000, 3600, "AEDT", Ghost(g))
        .step(1207411200, 36000, 0, "AEST", Ghost(g))
        .step(1223136000, 36000, 3600, "AEDT", Ghost(g))
        .step(1238860800, 36000, 0, "AEST", Ghost(g))
        .step(1254585600, 36000, 3600, "AEDT", Ghost(g))
        .step(1270310400, 36000, 0, "AEST", Ghost(g))
        .step(1286035200, 36000, 3600, "AEDT", Ghost(g))
        .step(1301760000, 36000, 0, "AEST", Ghost(g))
        .step(1317484800, 36000, 3600, "AEDT", Ghost(g))
        .step(1333209600, 36000, 0, "AEST", Ghost(g))
        .step(1349539200, 36000, 3600, "AEDT", Ghost(g))
        .step(1365264000, 36000, 0, "AEST", Ghost(g))
        .step(1380988800, 36000, 3600, "AEDT", Ghost(g))
        .step(1396713600, 36000, 0, "AEST", Ghost(g))
        .step(1412438400, 36000, 3600, "AEDT", Ghost(g))
        .step(1428163200, 36000, 0, "AEST", Ghost(g))
        .step(1443888000, 36000, 3600, "AEDT", Ghost(g))
        .step(1459612800, 36000, 0, "AEST", Ghost(g))
        .step(1475337600, 36000, 3600, "AEDT", Ghost(g))
        .step(1491062400, 36000, 0, "AEST", Ghost(g))
        .step(1506787200, 36000, 3600, "AEDT", Ghost(g))
        .step(1522512000, 36000, 0, "AEST", Ghost(g))
        .step(1538841600, 36000, 3600, "AEDT", Ghost(g))
        .step(1554566400, 36000, 0, "AEST", Ghost(g))
        .step(1570291200, 36000, 3600, "AEDT", Ghost(g))
        .step(1586016000, 36000, 0, "AEST", Ghost(g))
        .step(1601740800, 36000, 3600, "AEDT", Ghost(g))
        .step(1617465600, 36000, 0, "AEST", Ghost(g))
        .step(1633190400, 36000, 3600, "AEDT", Ghost(g))
        .step(1648915200, 36000, 0, "AEST", Ghost(g))
        .step(1664640000, 36000, 3600, "AEDT", Ghost(g))
        .step(1680364800, 36000, 0, "AEST", Ghost(g))
        .step(1696089600, 36000, 3600, "AEDT", Ghost(g))
        .step(1712419200, 36000, 0, "AEST", Ghost(g))
        .step(1728144000, 36000, 3600, "AEDT", Ghost(g))
        .step(1743868800, 36000, 0, "AEST", Ghost(g))
        .step(1759593600, 36000, 3600, "AEDT", Ghost(g))
        .step(1775318400, 36000, 0, "AEST", Ghost(g))
        .step(1791043200, 36000, 3600, "AEDT", Ghost(g))
        .step(1806768000, 36000, 0, "AEST", Ghost(g))
        .step(1822492800, 36000, 3600, "AEDT", Ghost(g))
        .step(1838217600, 36000, 0, "AEST", Ghost(g))
        .step(1853942400, 36000, 3600, "AEDT", Ghost(g))
        .step(1869667200, 36000, 0, "AEST", Ghost(g))
        .step(1885996800, 36000, 3600, "AEDT", Ghost(g))
        .step(1901721600, 36000, 0, "AEST", Ghost(g))
        .step(1917446400, 36000, 3600, "AEDT", Ghost(g))
        .step(1933171200, 36000, 0, "AEST", Ghost(g))
        .step(1948896000, 36000, 3600, "AEDT", Ghost(g))
        .step(1964620800, 36000, 0, "AEST", Ghost(g))
        .step(1980345600, 36000, 3600, "AEDT", Ghost(g))
        .step(1996070400, 36000, 0, "AEST", Ghost(g))
        .step(2011795200, 36000, 3600, "AEDT", Ghost(g))
        .step(2027520000, 36000, 0, "AEST", Ghost(g))
        .step(2043244800, 36000, 3600, "AEDT", Ghost(g))
        .step(2058969600, 36000, 0, "AEST", Ghost(g))
        .step(2075299200, 36000, 3600, "AEDT", Ghost(g))
        .step(2091024000, 36000, 0, "AEST", Ghost(g))
        .step(2106748800, 36000, 3600, "AEDT", Ghost(g))
        .step(2122473600, 36000, 0, "AEST", Ghost(g))
        .step(2138198400, 36000, 3600, "AEDT", Ghost(g))
        .finish(Ghost(g))
}

/// The zone `Australia/Currie`.
pub fn currie() -> (r: Tz)
    ensures
        r.wf(),
        r.zone_name() == "Australia/Currie"@,
        r.table() == tables::australia::currie(),
{
    let ghost g = tables::australia::currie_rows();
    FixedTimespanSet::begin("Australia/Currie", 35356, 0, "LMT", Ghost(g))
        .step(-2345795356, 36000, 0, "AEST", Ghost(g))
        .step(-1680508800, 36000, 3600, "AEDT", Ghost(g))
        .step(-1665388800, 36000, 0, "AEST", Ghost(g))
        .step(-1646640000, 36000, 3600, "AEDT", Ghost(g))
        .step(-1635753600, 36000, 0, "AEST", Ghost(g))
        .step(-1615190400, 36000, 3600, "AEDT", Ghost(g))
        .step(-1604304000, 36000, 0, "AEST", Ghost(g))
        .step(-883641600, 36000, 3600, "AEDT", Ghost(g))
        .step(-876124800, 36000, 0, "AEST", Ghost(g))
        .step(-860400000, 36000, 3600, "AEDT", Ghost(g))
        .step(-844675200, 36000, 0, "AEST", Ghost(g))
        .step(-828345600, 36000, 3600, "AEDT", Ghost(g))
        .step(-813225600, 36000, 0, "AEST", Ghost(g))
        .step(-71136000, 36000, 3600, "AEDT", Ghost(g))
        .step(-55411200, 36000, 0, "AEST", Ghost(g))
        .step(-37267200, 36000, 3600, "AEDT", Ghost(g))
        .step(-25776000, 36000, 0, "AEST", Ghost(g))
        .step(-5817600, 36000, 3600, "AEDT", Ghost(g))
        .step(5673600, 36000, 0, "AEST", Ghost(g))
        .step(25632000, 36000, 3600, "AEDT", Ghost(g))
        .step(37728000, 36000, 0, "AEST", Ghost(g))
        .step(57686400, 36000, 3600, "AEDT", Ghost(g))
        .step(67968000, 36000, 0, "AEST", Ghost(g))
        .step(89136000, 36000, 3600, "AEDT", Ghost(g))
        .step(100022400, 36000, 0, "AEST", Ghost(g))
        .step(120585600, 36000, 3600, "AEDT", Ghost(g))
        .step(131472000, 36000, 0, "AEST", Ghost(g))
        .step(152035200, 36000, 3600, "AEDT", Ghost(g))
        .step(162921600, 36000, 0, "AEST", Ghost(g))
        .step(183484800, 36000, 3600, "AEDT", Ghost(g))
        .step(194976000, 36000, 0, "AEST", Ghost(g))
        .step(215539200, 36000, 3600, "AEDT", Ghost(g))
        .step(226425600, 36000, 0, "AEST", Ghost(g))
        .step(246988800, 36000, 3600, "AEDT", Ghost(g))
        .step(257875200, 36000, 0, "AEST", Ghost(g))
        .step(278438400, 36000, 3600, "AEDT", Ghost(g))
        .step(289324800, 36000, 0, "AEST", Ghost(g))
        .step(309888000, 36000, 3600, "AEDT", Ghost(g))
        .step(320774400, 36000, 0, "AEST", Ghost(g))
        .step(341337600, 36000, 3600, "AEDT", Ghost(g))
        .step(352224000, 36000, 0, "AEST", Ghost(g))
        .step(372787200, 36000, 3600, "AEDT", Ghost(g))
        .step(386092800, 36000, 0, "AEST", Ghost(g))
        .step(404841600, 36000, 3600, "AEDT", Ghost(g))
        .step(417542400, 36000, 0, "AEST", Ghost(g))
        .step(436291200, 36000, 3600, "AEDT", Ghost(g))
        .step(447177600, 36000, 0, "AEST", Ghost(g))
        .step(467740800, 36000, 3600, "AEDT", Ghost(g))
        .step(478627200, 36000, 0, "AEST", Ghost(g))
        .step(499190400, 36000, 3600, "AEDT", Ghost(g))
        .step(510076800, 36000, 0, "AEST", Ghost(g))
        .step(530035200, 36000, 3600, "AEDT", Ghost(g))
        .step(542736000, 36000, 0, "AEST", Ghost(g))
        .step(562089600, 36000, 3600, "AEDT", Ghost(g))
        .step(574790400, 36000, 0, "AEST", Ghost(g))
        .step(594144000, 36000, 3600, "AEDT", Ghost(g))
        .step(606240000, 36000, 0, "AEST", Ghost(g))
        .step(625593600, 36000, 3600, "AEDT", Ghost(g))
        .step(637689600, 36000, 0, "AEST", Ghost(g))
        .step(657043200, 36000, 3600, "AEDT", Ghost(g))
        .step(670348800, 36000, 0, "AEST", Ghost(g))
        .step(686678400, 36000, 3600, "AEDT", Ghost(g))
        .step(701798400, 36000, 0, "AEST", Ghost(g))
        .step(718128000, 36000, 3600, "AEDT", Ghost(g))
        .step(733248000, 36000, 0, "AEST", Ghost(g))
        .step(749577600, 36000, 3600, "AEDT", Ghost(g))
        .step(764697600, 36000, 0, "AEST", Ghost(g))
        .step(781027200, 36000, 3600, "AEDT", Ghost(g))
        .step(796147200, 36000, 0, "AEST", Ghost(g))
        .step(812476800, 36000, 3600, "AEDT", Ghost(g))
        .step(828201600, 36000, 0, "AEST", Ghost(g))
        .step(844531200, 36000, 3600, "AEDT", Ghost(g))
        .step(859651200, 36000, 0, "AEST", Ghost(g))
        .step(875980800, 36000, 3600, "AEDT", Ghost(g))
        .step(891100800, 36000, 0, "AEST", Ghost(g))
        .step(907430400, 36000, 3600, "AEDT", Ghost(g))
        .step(922550400, 36000, 0, "AEST", Ghost(g))
        .step(938880000, 36000, 3600, "AEDT", Ghost(g))
        .step(954000000, 36000, 0, "AEST", Ghost(g))
        .step(967305600, 36000, 3600, "AEDT", Ghost(g))
        .step(985449600, 36000, 0, "AEST", Ghost(g))
        .step(1002384000, 36000, 3600, "AEDT", Ghost(g))
        .step(1017504000, 36000, 0, "AEST", Ghost(g))
        .step(1033833600, 36000, 3600, "AEDT", Ghost(g))
        .step(1048953600, 36000, 0, "AEST", Ghost(g))
        .step(1065283200, 36000, 3600, "AEDT", Ghost(g))
        .step(1080403200, 36000, 0, "AEST", Ghost(g))
        .step(1096732800, 36000, 3600, "AEDT", Ghost(g))
        .step(1111852800, 36000, 0, "AEST", Ghost(g))
        .step(1128182400, 36000, 3600, "AEDT", Ghost(g))
        .step(1143907200, 36000, 0, "AEST", Ghost(g))
        .step(1159632000, 36000, 3600, "AEDT", Ghost(g))
        .step(1174752000, 36000, 0, "AEST", Ghost(g))
        .step(1191686400, 36000, 3600, "AEDT", Ghost(g))
        .step(1207411200, 36000, 0, "AEST", Ghost(g))
        .step(1223136000, 36000, 3600, "AEDT", Ghost(g))
        .step(1238860800, 36000, 0, "AEST", Ghost(g))
        .step(1254585600, 36000, 3600, "AEDT", Ghost(g))
        .step(1270310400, 36000, 0, "AEST", Ghost(g))
        .step(1286035200, 36000, 3600, "AEDT", Ghost(g))
        .step(1301760000, 36000, 0, "AEST", Ghost(g))
        .step(1317484800, 36000, 3600, "AEDT", Ghost(g))
        .step(1333209600, 36000, 0, "AEST", Ghost(g))
        .step(1349539200, 36000, 3600, "AEDT", Ghost(g))
        .step(1365264000, 36000, 0, "AEST", Ghost(g))
        .step(1380988800, 36000, 3600, "AEDT", Ghost(g))
        .step(1396713600, 36000, 0, "AEST", Ghost(g))
        .step(1412438400, 36000, 3600, "AEDT", Ghost(g))
        .step(1428163200, 36000, 0, "AEST", Ghost(g))
        .step(1443888000, 36000, 3600, "AEDT", Ghost(g))
        .step(1459612800, 36000, 0, "AEST", Ghost(g))
        .step(1475337600, 36000, 3600, "AEDT", Ghost(g))
        .step(1491062400, 36000, 0, "AEST", Ghost(g))
        .step(1506787200, 36000, 3600, "AEDT", Ghost(g))
        .step(1522512000, 36000, 0, "AEST", Ghost(g))
        .step(1538841600, 36000, 3600, "AEDT", Ghost(g))
        .step(1554566400, 36000, 0, "AEST", Ghost(g))
        .step(1570291200, 36000, 3600, "AEDT", Ghost(g))
        .step(1586016000, 36000, 0, "AEST", Ghost(g))
        .step(1601740800, 36000, 3600, "AEDT", Ghost(g))
        .step(1617465600, 36000, 0, "AEST", Ghost(g))
        .step(1633190400, 36000, 3600, "AEDT", Ghost(g))
        .step(1648915200, 36000, 0, "AEST", Ghost(g))
        .step(1664640000, 36000, 3600, "AEDT", Ghost(g))
        .step(1680364800, 36000, 0, "AEST", Ghost(g))
        .step(1696089600, 36000, 3600, "AEDT", Ghost(g))
        .step(1712419200, 36000, 0, "AEST", Ghost(g))
        .step(1728144000, 36000, 3600, "AEDT", Ghost(g))
        .step(1743868800, 36000, 0, "AEST", Ghost(g))
        .step(1759593600, 36000, 3600, "AEDT", Ghost(g))
        .step(1775318400, 36000, 0, "AEST", Ghost(g))
        .step(1791043200, 36000, 3600, "AEDT", Ghost(g))
        .step(1806768000, 36000, 0, "AEST", Ghost(g))
        .step(1822492800, 36000, 3600, "AEDT", Ghost(g))
        .step(1838217600, 36000, 0, "AEST", Ghost(g))
        .step(1853942400, 36000, 3600, "AEDT", Ghost(g))
        .step(1869667200, 36000, 0, "AEST", Ghost(g))
        .step(1885996800, 36000, 3600, "AEDT", Ghost(g))
        .step(1901721600, 36000, 0, "AEST", Ghost(g))
        .step(1917446400, 36000, 3600, "AEDT", Ghost(g))
        .step(1933171200, 36000, 0, "AEST", Ghost(g))
        .step(1948896000, 36000, 3600, "AEDT", Ghost(g))
        .step(1964620800, 36000, 0, "AEST", Ghost(g))
        .step(1980345600, 36000, 3600, "AEDT", Ghost(g))
        .step(1996070400, 36000, 0, "AEST", Ghost(g))
        .step(2011795200, 36000, 3600, "AEDT", Ghost(g))
        .step(2027520000, 36000, 0, "AEST", Ghost(g))
        .step(2043244800, 36000, 3600, "AEDT", Ghost(g))
        .step(2058969600, 36000, 0, "AEST", Ghost(g))
        .step(2075299200, 36000, 3600, "AEDT", Ghost(g))
        .step(2091024000, 36000, 0, "AEST", Ghost(g))
        .step(2106748800, 36000, 3600, "AEDT", Ghost(g))
        .step(2122473600, 36000, 0, "AEST", Ghost(g))
        .step(2138198400, 36000, 3600, "AEDT", Ghost(g))
        .finish(Ghost(g))
}

/// The zone `Australia/Darwin`.
pub fn darwin() -> (r: Tz)
    ensures
        r.wf(),
        r.zone_name() == "Australia/Darwin"@,
        r.table() == tables::australia::darwin(),
{
    let ghost g = tables::australia::darwin_rows();
    FixedTimespanSet::begin("Australia/Darwin", 31400, 0, "LMT", Ghost(g))
        .step(-2364108200, 32400, 0, "ACST", Ghost(g))
        .step(-2230189200, 34200, 0, "ACST", Ghost(g))
        .step(-1672558200, 34200, 3600, "ACDT", Ghost(g))
        .step(-1665387000, 34200, 0, "ACST", Ghost(g))
        .step(-883639800, 34200, 3600, "ACDT", Ghost(g))
        .step(-876123000, 34200, 0, "ACST", Ghost(g))
        .step(-860398200, 34200, 3600, "ACDT", Ghost(g))
        .step(-844673400, 34200, 0, "ACST", Ghost(g))
        .step(-828343800, 34200, 3600, "ACDT", Ghost(g))
        .step(-813223800, 34200, 0, "ACST", Ghost(g))
        .finish(Ghost(g))
}

/// The zone `Australia/Eucla`.
pub fn eucla() -> (r: Tz)
    ensures
        r.wf(),
        r.zone_name() == "Australia/Eucla"@,
        r.table() == tables::australia::eucla(),
{
    let ghost g = tables::australia::eucla_rows();
    FixedTimespanSet::begin("Australia/Eucla", 30928, 0, "LMT", Ghost(g))
        .step(-2337928528, 31500, 0, "+0845", Ghost(g))
        .step(-1672555500, 31500, 3600, "+0945", Ghost(g))
        .step(-1665384300, 31500, 0, "+0845", Ghost(g))
        .step(-883637100, 31500, 3600, "+0945", Ghost(g))
        .step(-876120300, 31500, 0, "+0845", Ghost(g))
        .step(-860395500, 31500, 3600, "+0945", Ghost(g))
        .step(-844670700, 31500, 0, "+0845", Ghost(g))
        .step(152039700, 31500, 3600, "+0945", Ghost(g))
        .step(162926100, 31500, 0, "+0845", Ghost(g))
        .step(436295700, 31500, 3600, "+0945", Ghost(g))
        .step(447182100, 31500, 0, "+0845", Ghost(g))
        .step(690311700, 31500, 3600, "+0945", Ghost(g))
        .step(699383700, 31500, 0, "+0845", Ghost(g))
        .step(1165079700, 31500, 3600, "+0945", Ghost(g))
        .step(1174756500, 31500, 0, "+0845", Ghost(g))
        .step(1193505300, 31500, 3600, "+0945", Ghost(g))
        .step(1206810900, 31500, 0, "+0845", Ghost(g))
        .step(1224954900, 31500, 3600, "+0945", Ghost(g))
        .step(1238260500, 31500, 0, "+0845", Ghost(g))
        .step(2147483647, 31500, 0, "+0845", Ghost(g))
        .finish(Ghost(g))
}

/// The zone `Australia/Hobart`.
pub fn hobart() -> (r: Tz)
    ensures
        r.wf(),
        r.zone_name() == "Australia/Hobart"@,
        r.table() == tables::australia::hobart(),
{
    let ghost g = tables::australia::hobart_rows();
    FixedTimespanSet::begin("Australia/Hobart", 35356, 0, "LMT", Ghost(g))
        .step(-2345795356, 36000, 0, "AEST", Ghost(g))
        .step(-1680508800, 36000, 3600, "AEDT", Ghost(g))
        .step(-1665388800, 36000, 0, "AEST", Ghost(g))
        .step(-1646640000, 36000, 3600, "AEDT", Ghost(g))
        .step(-1635753600, 36000, 0, "AEST", Ghost(g))
        .step(-1615190400, 36000, 3600, "AEDT", Ghost(g))
        .step(-1604304000, 36000, 0, "AEST", Ghost(g))
        .step(-883641600, 36000, 3600, "AEDT", Ghost(g))
        .step(-876124800, 36000, 0, "AEST", Ghost(g))
        .step(-860400000, 36000, 3600, "AEDT", Ghost(g))
        .step(-844675200, 36000, 0, "AEST", Ghost(g))
        .step(-828345600, 36000, 3600, "AEDT", Ghost(g))
        .step(-813225600, 36000, 0, "AEST", Ghost(g))
        .step(-71136000, 36000, 3600, "AEDT", Ghost(g))
        .step(-55411200, 36000, 0, "AEST", Ghost(g))
        .step(-37267200, 36000, 3600, "AEDT", Ghost(g))
        .step(-25776000, 36000, 0, "AEST", Ghost(g))
        .step(-5817600, 36000, 3600, "AEDT", Ghost(g))
        .step(5673600, 36000, 0, "AEST", Ghost(g))
        .step(25632000, 36000, 3600, "AEDT", Ghost(g))
        .step(37728000, 36000, 0, "AEST", Ghost(g))
        .step(57686400, 36000, 3600, "AEDT", Ghost(g))
        .step(67968000, 36000, 0, "AEST", Ghost(g))
        .step(89136000, 36000, 3600, "AEDT", Ghost(g))
        .step(100022400, 36000, 0, "AEST", Ghost(g))
        .step(120585600, 36000, 3600, "AEDT", Ghost(g))
        .step(131472000, 36000, 0, "AEST", Ghost(g))
        .step(152035200, 36000, 3600, "AEDT", Ghost(g))
        .step(162921600, 36000, 0, "AEST", Ghost(g))
        .step(183484800, 36000, 3600, "AEDT", Ghost(g))
        .step(194976000, 36000, 0, "AEST", Ghost(g))
        .step(215539200, 36000, 3600, "AEDT", Ghost(g))
        .step(226425600, 36000, 0, "AEST", Ghost(g))
        .step(246988800, 36000, 3600, "AEDT", Ghost(g))
        .step(257875200, 36000, 0, "AEST", Ghost(g))
        .step(278438400, 36000, 3600, "AEDT", Ghost(g))
        .step(289324800, 36000, 0, "AEST", Ghost(g))
        .step(309888000, 36000, 3600, "AEDT", Ghost(g))
        .step(320774400, 36000, 0, "AEST", Ghost(g))
        .step(341337600, 36000, 3600, "AEDT", Ghost(g))
        .step(352224000, 36000, 0, "AEST", Ghost(g))
        .step(372787200, 36000, 3600, "AEDT", Ghost(g))
        .step(386092800, 36000, 0, "AEST", Ghost(g))
        .step(404841600, 36000, 3600, "AEDT", Ghost(g))
        .step(417542400, 36000, 0, "AEST", Ghost(g))
        .step(436291200, 36000, 3600, "AEDT", Ghost(g))
        .step(447177600, 36000, 0, "AEST", Ghost(g))
        .step(467740800, 36000, 3600, "AEDT", Ghost(g))
        .step(478627200, 36000, 0, "AEST", Ghost(g))
        .step(499190400, 36000, 3600, "AEDT", Ghost(g))
        .step(510076800, 36000, 0, "AEST", Ghost(g))
        .step(530035200, 36000, 3600, "AEDT", Ghost(g))
        .step(542736000, 36000, 0, "AEST", Ghost(g))
        .step(562089600, 36000, 3600, "AEDT", Ghost(g))
        .step(574790400, 36000, 0, "AEST", Ghost(g))
        .step(594144000, 36000, 3600, "AEDT", Ghost(g))
        .step(606240000, 36000, 0, "AEST", Ghost(g))
        .step(625593600, 36000, 3600, "AEDT", Ghost(g))
        .step(637689600, 36000, 0, "AEST", Ghost(g))
        .step(657043200, 36000, 3600, "AEDT", Ghost(g))
        .step(670348800, 36000, 0, "AEST", Ghost(g))
        .step(686678400, 36000, 3600, "AEDT", Ghost(g))
        .step(701798400, 36000, 0, "AEST", Ghost(g))
        .step(718128000, 36000, 3600, "AEDT", Ghost(g))
        .step(733248000, 36000, 0, "AEST", Ghost(g))
        .step(749577600, 36000, 3600, "AEDT", Ghost(g))
        .step(764697600, 36000, 0, "AEST", Ghost(g))
        .step(781027200, 36000, 3600, "AEDT", Ghost(g))
        .step(796147200, 36000, 0, "AEST", Ghost(g))
        .step(812476800, 36000, 3600, "AEDT", Ghost(g))
        .step(828201600, 36000, 0, "AEST", Ghost(g))
        .step(844531200, 36000, 3600, "AEDT", Ghost(g))
        .step(859651200, 36000, 0, "AEST", Ghost(g))
        .step(875980800, 36000, 3600, "AEDT", Ghost(g))
        .step(891100800, 36000, 0, "AEST", Ghost(g))
        .step(907430400, 36000, 3600, "AEDT", Ghost(g))
        .step(922550400, 36000, 0, "AEST", Ghost(g))
        .step(938880000, 36000, 3600, "AEDT", Ghost(g))
        .step(954000000, 36000, 0, "AEST", Ghost(g))
        .step(967305600, 36000, 3600, "AEDT", Ghost(g))
        .step(985449600, 36000, 0, "AEST", Ghost(g))
        .step(1002384000, 36000, 3600, "AEDT", Ghost(g))
        .step(1017504000, 36000, 0, "AEST", Ghost(g))
        .step(1033833600, 36000, 3600, "AEDT", Ghost(g))
        .step(1048953600, 36000, 0, "AEST", Ghost(g))
        .step(1065283200, 36000, 3600, "AEDT", Ghost(g))
        .step(1080403200, 36000, 0, "AEST", Ghost(g))
        .step(1096732800, 36000, 3600, "AEDT", Ghost(g))
        .step(1111852800, 36000, 0, "AEST", Ghost(g))
        .step(1128182400, 36000, 3600, "AEDT", Ghost(g))
        .step(1143907200, 36000, 0, "AEST", Ghost(g))
        .step(1159632000, 36000, 3600, "AEDT", Ghost(g))
        .step(1174752000, 36000, 0, "AEST", Ghost(g))
        .step(1191686400, 36000, 3600, "AEDT", Ghost(g))
        .step(1207411200, 36000, 0, "AEST", Ghost(g))
        .step(1223136000, 36000, 3600, "AEDT", Ghost(g))
        .step(1238860800, 36000, 0, "AEST", Ghost(g))
        .step(1254585600, 36000, 3600, "AEDT", Ghost(g))
        .step(1270310400, 36000, 0, "AEST", Ghost(g))
        .step(1286035200, 36000, 3600, "AEDT", Ghost(g))
        .step(1301760000, 36000, 0, "AEST", Ghost(g))
        .step(1317484800, 36000, 3600, "AEDT", Ghost(g))
        .step(1333209600, 36000, 0, "AEST", Ghost(g))
        .step(1349539200, 36000, 3600, "AEDT", Ghost(g))
        .step(1365264000, 36000, 0, "AEST", Ghost(g))
        .step(1380988800, 36000, 3600, "AEDT", Ghost(g))
        .step(1396713600, 36000, 0, "AEST", Ghost(g))
        .step(1412438400, 36000, 3600, "AEDT", Ghost(g))
        .step(1428163200, 36000, 0, "AEST", Ghost(g))
        .step(1443888000, 36000, 3600, "AEDT", Ghost(g))
        .step(1459612800, 36000, 0, "AEST", Ghost(g))
        .step(1475337600, 36000, 3600, "AEDT", Ghost(g))
        .step(1491062400, 36000, 0, "AEST", Ghost(g))
        .step(1506787200, 36000, 3600, "AEDT", Ghost(g))
        .step(1522512000, 36000, 0, "AEST", Ghost(g))
        .step(1538841600, 36000, 3600, "AEDT", Ghost(g))
        .step(1554566400, 36000, 0, "AEST", Ghost(g))
        .step(1570291200, 36000, 3600, "AEDT", Ghost(g))
        .step(1586016000, 36000, 0, "AEST", Ghost(g))
        .step(1601740800, 36000, 3600, "AEDT", Ghost(g))
        .step(1617465600, 36000, 0, "AEST", Ghost(g))
        .step(1633190400, 36000, 3600, "AEDT", Ghost(g))
        .step(1648915200, 36000, 0, "AEST", Ghost(g))
        .step(1664640000, 36000, 3600, "AEDT", Ghost(g))
        .step(1680364800, 36000, 0, "AEST", Ghost(g))
        .step(1696089600, 36000, 3600, "AEDT", Ghost(g))
        .step(1712419200, 36000, 0, "AEST", Ghost(g))
        .step(1728144000, 36000, 3600, "AEDT", Ghost(g))
        .step(1743868800, 36000, 0, "AEST", Ghost(g))
        .step(1759593600, 36000, 3600, "AEDT", Ghost(g))
        .step(1775318400, 36000, 0, "AEST", Ghost(g))
        .step(1791043200, 36000, 3600, "AEDT", Ghost(g))
        .step(1806768000, 36000, 0, "AEST", Ghost(g))
        .step(1822492800, 36000, 3600, "AEDT", Ghost(g))
        .step(1838217600, 36000, 0, "AEST", Ghost(g))
        .step(1853942400, 36000, 3600, "AEDT", Ghost(g))
        .step(1869667200, 36000, 0, "AEST", Ghost(g))
        .step(1885996800, 36000, 3600, "AEDT", Ghost(g))
        .step(1901721600, 36000, 0, "AEST", Ghost(g))
        .step(1917446400, 36000, 3600, "AEDT", Ghost(g))
        .step(1933171200, 36000, 0, "AEST", Ghost(g))
        .step(1948896000, 36000, 3600, "AEDT", Ghost(g))
        .step(1964620800, 36000, 0, "AEST", Ghost(g))
        .step(1980345600, 36000, 3600, "AEDT", Ghost(g))
        .step(1996070400, 36000, 0, "AEST", Ghost(g))
        .step(2011795200, 36000, 3600, "AEDT", Ghost(g))
        .step(2027520000, 36000, 0, "AEST", Ghost(g))
        .step(2043244800, 36000, 3600, "AEDT", Ghost(g))
        .step(2058969600, 36000, 0, "AEST", Ghost(g))
        .step(2075299200, 36000, 3600, "AEDT", Ghost(g))
        .step(2091024000, 36000, 0, "AEST", Ghost(g))
        .step(2106748800, 36000, 3600, "AEDT", Ghost(g))
        .step(2122473600, 36000, 0, "AEST", Ghost(g))
        .step(2138198400, 36000, 3600, "AEDT", Ghost(g))
        .finish(Ghost(g))
}

/// The zone `Australia/LHI`.
pub fn lhi() -> (r: Tz)
    ensures
        r.wf(),
        r.zone_name() == "Australia/LHI"@,
        r.table() == tables::australia::lhi(),
{
    let ghost g = tables::australia::lhi_rows();
    FixedTimespanSet::begin("Australia/LHI", 38180, 0, "LMT", Ghost(g))
        .step(-2364114980, 36000, 0, "AEST", Ghost(g))
        .step(352216800, 37800, 0, "+1030", Ghost(g))
        .step(372785400, 37800, 3600, "+1130", Ghost(g))
        .step(384273000, 37800, 0, "+1030", Ghost(g))
        .step(404839800, 37800, 3600, "+1130", Ghost(g))
        .step(415722600, 37800, 0, "+1030", Ghost(g))
        .step(436289400, 37800, 3600, "+1130", Ghost(g))
        .step(447172200, 37800, 0, "+1030", Ghost(g))
        .step(467739000, 37800, 3600, "+1130", Ghost(g))
        .step(478621800, 37800, 0, "+1030", Ghost(g))
        .step(499188600, 37800, 1800, "+11", Ghost(g))
        .step(511282800, 37800, 0, "+1030", Ghost(g))
        .step(530033400, 37800, 1800, "+11", Ghost(g))
        .step(542732400, 37800, 0, "+1030", Ghost(g))
        .step(562087800, 37800, 1800, "+11", Ghost(g))
        .step(574786800, 37800, 0, "+1030", Ghost(g))
        .step(594142200, 37800, 1800, "+11", Ghost(g))
        .step(606236400, 37800, 0, "+1030", Ghost(g))
        .step(625591800, 37800, 1800, "+11", Ghost(g))
        .step(636476400, 37800, 0, "+1030", Ghost(g))
        .step(657041400, 37800, 1800, "+11", Ghost(g))
        .step(667926000, 37800, 0, "+1030", Ghost(g))
        .step(688491000, 37800, 1800, "+11", Ghost(g))
        .step(699375600, 37800, 0, "+1030", Ghost(g))
        .step(719940600, 37800, 1800, "+11", Ghost(g))
        .step(731430000, 37800, 0, "+1030", Ghost(g))
        .step(751995000, 37800, 1800, "+11", Ghost(g))
        .step(762879600, 37800, 0, "+1030", Ghost(g))
        .step(783444600, 37800, 1800, "+11", Ghost(g))
        .step(794329200, 37800, 0, "+1030", Ghost(g))
        .step(814894200, 37800, 1800, "+11", Ghost(g))
        .step(828198000, 37800, 0, "+1030", Ghost(g))
        .step(846343800, 37800, 1800, "+11", Ghost(g))
        .step(859647600, 37800, 0, "+1030", Ghost(g))
        .step(877793400, 37800, 1800, "+11", Ghost(g))
        .step(891097200, 37800, 0, "+1030", Ghost(g))
        .step(909243000, 37800, 1800, "+11", Ghost(g))
        .step(922546800, 37800, 0, "+1030", Ghost(g))
        .step(941297400, 37800, 1800, "+11", Ghost(g))
        .step(953996400, 37800, 0, "+1030", Ghost(g))
        .step(967303800, 37800, 1800, "+11", Ghost(g))
        .step(985446000, 37800, 0, "+1030", Ghost(g))
        .step(1004196600, 37800, 1800, "+11", Ghost(g))
        .step(1017500400, 37800, 0, "+1030", Ghost(g))
        .step(1035646200, 37800, 1800, "+11", Ghost(g))
        .step(1048950000, 37800, 0, "+1030", Ghost(g))
        .step(1067095800, 37800, 1800, "+11", Ghost(g))
        .step(1080399600, 37800, 0, "+1030", Ghost(g))
        .step(1099150200, 37800, 1800, "+11", Ghost(g))
        .step(1111849200, 37800, 0, "+1030", Ghost(g))
        .step(1130599800, 37800, 1800, "+11", Ghost(g))
        .step(1143903600, 37800, 0, "+1030", Ghost(g))
        .step(1162049400, 37800, 1800, "+11", Ghost(g))
        .step(1174748400, 37800, 0, "+1030", Ghost(g))
        .step(1193499000, 37800, 1800, "+11", Ghost(g))
        .step(1207407600, 37800, 0, "+1030", Ghost(g))
        .step(1223134200, 37800, 1800, "+11", Ghost(g))
        .step(1238857200, 37800, 0, "+1030", Ghost(g))
        .step(1254583800, 37800, 1800, "+11", Ghost(g))
        .step(1270306800, 37800, 0, "+1030", Ghost(g))
        .step(1286033400, 37800, 1800, "+11", Ghost(g))
        .step(1301756400, 37800, 0, "+1030", Ghost(g))
        .step(1317483000, 37800, 1800, "+11", Ghost(g))
        .step(1333206000, 37800, 0, "+1030", Ghost(g))
        .step(1349537400, 37800, 1800, "+11", Ghost(g))
        .step(1365260400, 37800, 0, "+1030", Ghost(g))
        .step(1380987000, 37800, 1800, "+11", Ghost(g))
        .step(1396710000, 37800, 0, "+1030", Ghost(g))
        .step(1412436600, 37800, 1800, "+11", Ghost(g))
        .step(1428159600, 37800, 0, "+1030", Ghost(g))
        .step(1443886200, 37800, 1800, "+11", Ghost(g))
        .step(1459609200, 37800, 0, "+1030", Ghost(g))
        .step(1475335800, 37800, 1800, "+11", Ghost(g))
        .step(1491058800, 37800, 0, "+1030", Ghost(g))
        .step(1506785400, 37800, 1800, "+11", Ghost(g))
        .step(1522508400, 37800, 0, "+1030", Ghost(g))
        .step(1538839800, 37800, 1800, "+11", Ghost(g))
        .step(1554562800, 37800, 0, "+1030", Ghost(g))
        .step(1570289400, 37800, 1800, "+11", Ghost(g))
        .step(1586012400, 37800, 0, "+1030", Ghost(g))
        .step(1601739000, 37800, 1800, "+11", Ghost(g))
        .step(1617462000, 37800, 0, "+1030", Ghost(g))
        .step(1633188600, 37800, 1800, "+11", Ghost(g))
        .step(1648911600, 37800, 0, "+1030", Ghost(g))
        .step(1664638200, 37800, 1800, "+11", Ghost(g))
        .step(1680361200, 37800, 0, "+1030", Ghost(g))
        .step(1696087800, 37800, 1800, "+11", Ghost(g))
        .step(1712415600, 37800, 0, "+1030", Ghost(g))
        .step(1728142200, 37800, 1800, "+11", Ghost(g))
        .step(1743865200, 37800, 0, "+1030", Ghost(g))
        .step(1759591800, 37800, 1800, "+11", Ghost(g))
        .step(1775314800, 37800, 0, "+1030", Ghost(g))
        .step(1791041400, 37800, 1800, "+11", Ghost(g))
        .step(1806764400, 37800, 0, "+1030", Ghost(g))
        .step(1822491000, 37800, 1800, "+11", Ghost(g))
        .step(1838214000, 37800, 0, "+1030", Ghost(g))
        .step(1853940600, 37800, 1800, "+11", Ghost(g))
        .step(1869663600, 37800, 0, "+1030", Ghost(g))
        .step(1885995000, 37800, 1800, "+11", Ghost(g))
        .step(1901718000, 37800, 0, "+1030", Ghost(g))
        .step(1917444600, 37800, 1800, "+11", Ghost(g))
        .step(1933167600, 37800, 0, "+1030", Ghost(g))
        .step(1948894200, 37800, 1800, "+11", Ghost(g))
        .step(1964617200, 37800, 0, "+1030", Ghost(g))
        .step(1980343800, 37800, 1800, "+11", Ghost(g))
        .step(1996066800, 37800, 0, "+1030", Ghost(g))
        .step(2011793400, 37800, 1800, "+11", Ghost(g))
        .step(2027516400, 37800, 0, "+1030", Ghost(g))
        .step(2043243000, 37800, 1800, "+11", Ghost(g))
        .step(2058966000, 37800, 0, "+1030", Ghost(g))
        .step(2075297400, 37800, 1800, "+11", Ghost(g))
        .step(2091020400, 37800, 0, "+1030", Ghost(g))
        .step(2106747000, 37800, 1800, "+11", Ghost(g))
        .step(2122470000, 37800, 0, "+1030", Ghost(g))
        .step(2138196600, 37800, 1800, "+11", Ghost(g))
        .step(2147483647, 37800, 1800, "+11", Ghost(g))
        .finish(Ghost(g))
}

/// The zone `Australia/Lindeman`.
pub fn lindeman() -> (r: Tz)
    ensures
        r.wf(),
        r.zone_name() == "Australia/Lindeman"@,
        r.table() == tables::australia::lindeman(),
{
    let ghost g = tables::australia::lindeman_rows();
    FixedTimespanSet::begin("Australia/Lindeman", 35756, 0, "LMT", Ghost(g))
        .step(-2366790956, 36000, 0, "AEST", Ghost(g))
        .step(-1672560000, 36000, 3600, "AEDT", Ghost(g))
        .step(-1665388800, 36000, 0, "AEST", Ghost(g))
        .step(-883641600, 36000, 3600, "AEDT", Ghost(g))
        .step(-876124800, 36000, 0, "AEST", Ghost(g))
        .step(-860400000, 36000, 3600, "AEDT", Ghost(g))
        .step(-844675200, 36000, 0, "AEST", Ghost(g))
        .step(-828345600, 36000, 3600, "AEDT", Ghost(g))
        .step(-813225600, 36000, 0, "AEST", Ghost(g))
        .step(57686400, 36000, 3600, "AEDT", Ghost(g))
        .step(67968000, 36000, 0, "AEST", Ghost(g))
        .step(625593600, 36000, 3600, "AEDT", Ghost(g))
        .step(636480000, 36000, 0, "AEST", Ghost(g))
        .step(657043200, 36000, 3600, "AEDT", Ghost(g))
        .step(667929600, 36000, 0, "AEST", Ghost(g))
        .step(688492800, 36000, 3600, "AEDT", Ghost(g))
        .step(699379200, 36000, 0, "AEST", Ghost(g))
        .step(719942400, 36000, 3600, "AEDT", Ghost(g))
        .step(731433600, 36000, 0, "AEST", Ghost(g))
        .step(751996800, 36000, 3600, "AEDT", Ghost(g))
        .step(762883200, 36000, 0, "AEST", Ghost(g))
        .finish(Ghost(g))
}

/// The zone `Australia/Lord_Howe`.
pub fn lord_howe() -> (r: Tz)
    ensures
        r.wf(),
        r.zone_name() == "Australia/Lord_Howe"@,
        r.table() == tables::australia::lord_howe(),
{
    let ghost g = tables::australia::lord_howe_rows();
    FixedTimespanSet::begin("Australia/Lord_Howe", 38180, 0, "LMT", Ghost(g))
        .step(-2364114980, 36000, 0, "AEST", Ghost(g))
        .step(352216800, 37800, 0, "+1030", Ghost(g))
        .step(372785400, 37800, 3600, "+1130", Ghost(g))
        .step(384273000, 37800, 0, "+1030", Ghost(g))
        .step(404839800, 37800, 3600, "+1130", Ghost(g))
        .step(415722600, 37800, 0, "+1030", Ghost(g))
        .step(436289400, 37800, 3600, "+1130", Ghost(g))
        .step(447172200, 37800, 0, "+1030", Ghost(g))
        .step(467739000, 37800, 3600, "+1130", Ghost(g))
        .step(478621800, 37800, 0, "+1030", Ghost(g))
        .step(499188600, 37800, 1800, "+11", Ghost(g))
        .step(511282800, 37800, 0, "+1030", Ghost(g))
        .step(530033400, 37800, 1800, "+11", Ghost(g))
        .step(542732400, 37800, 0, "+1030", Ghost(g))
        .step(562087800, 37800, 1800, "+11", Ghost(g))
        .step(574786800, 37800, 0, "+1030", Ghost(g))
        .step(594142200, 37800, 1800, "+11", Ghost(g))
        .step(606236400, 37800, 0, "+1030", Ghost(g))
        .step(625591800, 37800, 1800, "+11", Ghost(g))
        .step(636476400, 37800, 0, "+1030", Ghost(g))
        .step(657041400, 37800, 1800, "+11", Ghost(g))
        .step(667926000, 37800, 0, "+1030", Ghost(g))
        .step(688491000, 37800, 1800, "+11", Ghost(g))
        .step(699375600, 37800, 0, "+1030", Ghost(g))
        .step(719940600, 37800, 1800, "+11", Ghost(g))
        .step(731430000, 37800, 0, "+1030", Ghost(g))
        .step(751995000, 37800, 1800, "+11", Ghost(g))
        .step(762879600, 37800, 0, "+1030", Ghost(g))
        .step(783444600, 37800, 1800, "+11", Ghost(g))
        .step(794329200, 37800, 0, "+1030", Ghost(g))
        .step(814894200, 37800, 1800, "+11", Ghost(g))
        .step(828198000, 37800, 0, "+1030", Ghost(g))
        .step(846343800, 37800, 1800, "+11", Ghost(g))
        .step(859647600, 37800, 0, "+1030", Ghost(g))
        .step(877793400, 37800, 1800, "+11", Ghost(g))
        .step(891097200, 37800, 0, "+1030", Ghost(g))
        .step(909243000, 37800, 1800, "+11", Ghost(g))
        .step(922546800, 37800, 0, "+1030", Ghost(g))
        .step(941297400, 37800, 1800, "+11", Ghost(g))
        .step(953996400, 37800, 0, "+1030", Ghost(g))
        .step(967303800, 37800, 1800, "+11", Ghost(g))
        .step(985446000, 37800, 0, "+1030", Ghost(g))
        .step(1004196600, 37800, 1800, "+11", Ghost(g))
        .step(1017500400, 37800, 0, "+1030", Ghost(g))
        .step(1035646200, 37800, 1800, "+11", Ghost(g))
        .step(1048950000, 37800, 0, "+1030", Ghost(g))
        .step(1067095800, 37800, 1800, "+11", Ghost(g))
        .step(1080399600, 37800, 0, "+1030", Ghost(g))
        .step(1099150200, 37800, 1800, "+11", Ghost(g))
        .step(1111849200, 37800, 0, "+1030", Ghost(g))
        .step(1130599800, 37800, 1800, "+11", Ghost(g))
        .step(1143903600, 37800, 0, "+1030", Ghost(g))
        .step(1162049400, 37800, 1800, "+11", Ghost(g))
        .step(1174748400, 37800, 0, "+1030", Ghost(g))
        .step(1193499000, 37800, 1800, "+11", Ghost(g))
        .step(1207407600, 37800, 0, "+1030", Ghost(g))
        .step(1223134200, 37800, 1800, "+11", Ghost(g))
        .step(1238857200, 37800, 0, "+1030", Ghost(g))
        .step(1254583800, 37800, 1800, "+11", Ghost(g))
        .step(1270306800, 37800, 0, "+1030", Ghost(g))
        .step(1286033400, 37800, 1800, "+11", Ghost(g))
        .step(1301756400, 37800, 0, "+1030", Ghost(g))
        .step(1317483000, 37800, 1800, "+11", Ghost(g))
        .step(1333206000, 37800, 0, "+1030", Ghost(g))
        .step(1349537400, 37800, 1800, "+11", Ghost(g))
        .step(1365260400, 37800, 0, "+1030", Ghost(g))
        .step(1380987000, 37800, 1800, "+11", Ghost(g))
        .step(1396710000, 37800, 0, "+1030", Ghost(g))
        .step(1412436600, 37800, 1800, "+11", Ghost(g))
        .step(1428159600, 37800, 0, "+1030", Ghost(g))
        .step(1443886200, 37800, 1800, "+11", Ghost(g))
        .step(1459609200, 37800, 0, "+1030", Ghost(g))
        .step(1475335800, 37800, 1800, "+11", Ghost(g))
        .step(1491058800, 37800, 0, "+1030", Ghost(g))
        .step(1506785400, 37800, 1800, "+11", Ghost(g))
        .step(1522508400, 37800, 0, "+1030", Ghost(g))
        .step(1538839800, 37800, 1800, "+11", Ghost(g))
        .step(1554562800, 37800, 0, "+1030", Ghost(g))
        .step(1570289400, 37800, 1800, "+11", Ghost(g))
        .step(1586012400, 37800, 0, "+1030", Ghost(g))
        .step(1601739000, 37800, 1800, "+11", Ghost(g))
        .step(1617462000, 37800, 0, "+1030", Ghost(g))
        .step(1633188600, 37800, 1800, "+11", Ghost(g))
        .step(1648911600, 37800, 0, "+1030", Ghost(g))
        .step(1664638200, 37800, 1800, "+11", Ghost(g))
        .step(1680361200, 37800, 0, "+1030", Ghost(g))
        .step(1696087800, 37800, 1800, "+11", Ghost(g))
        .step(1712415600, 37800, 0, "+1030", Ghost(g))
        .step(1728142200, 37800, 1800, "+11", Ghost(g))
        .step(1743865200, 37800, 0, "+1030", Ghost(g))
        .step(1759591800, 37800, 1800, "+11", Ghost(g))
        .step(1775314800, 37800, 0, "+1030", Ghost(g))
        .step(1791041400, 37800, 1800, "+11", Ghost(g))
        .step(1806764400, 37800, 0, "+1030", Ghost(g))
        .step(1822491000, 37800, 1800, "+11", Ghost(g))
        .step(1838214000, 37800, 0, "+1030", Ghost(g))
        .step(1853940600, 37800, 1800, "+11", Ghost(g))
        .step(1869663600, 37800, 0, "+1030", Ghost(g))
        .step(1885995000, 37800, 1800, "+11", Ghost(g))
        .step(1901718000, 37800, 0, "+1030", Ghost(g))
        .step(1917444600, 37800, 1800, "+11", Ghost(g))
        .step(1933167600, 37800, 0, "+1030", Ghost(g))
        .step(1948894200, 37800, 1800, "+11", Ghost(g))
        .step(1964617200, 37800, 0, "+1030", Ghost(g))
        .step(1980343800, 37800, 1800, "+11", Ghost(g))
        .step(1996066800, 37800, 0, "+1030", Ghost(g))
        .step(2011793400, 37800, 1800, "+11", Ghost(g))
        .step(2027516400, 37800, 0, "+1030", Ghost(g))
        .step(2043243000, 37800, 1800, "+11", Ghost(g))
        .step(2058966000, 37800, 0, "+1030", Ghost(g))
        .step(2075297400, 37800, 1800, "+11", Ghost(g))
        .step(2091020400, 37800, 0, "+1030", Ghost(g))
        .step(2106747000, 37800, 1800, "+11", Ghost(g))
        .step(2122470000, 37800, 0, "+1030", Ghost(g))
        .step(2138196600, 37800, 1800, "+11", Ghost(g))
        .step(2147483647, 37800, 1800, "+11", Ghost(g))
        .finish(Ghost(g))
}

/// The zone `Australia/Melbourne`.
pub fn melbourne() -> (r: Tz)
    ensures
        r.wf(),
        r.zone_name() == "Australia/Melbourne"@,
        r.table() == tables::australia::melbourne(),
{
    let ghost g = tables::australia::melbourne_rows();
    FixedTimespanSet::begin("Australia/Melbourne", 34792, 0, "LMT", Ghost(g))
        .step(-2364111592, 36000, 0, "AEST", Ghost(g))
        .step(-1672560000, 36000, 3600, "AEDT", Ghost(g))
        .step(-1665388800, 36000, 0, "AEST", Ghost(g))
        .step(-883641600, 36000, 3600, "AEDT", Ghost(g))
        .step(-876124800, 36000, 0, "AEST", Ghost(g))
        .step(-860400000, 36000, 3600, "AEDT", Ghost(g))
        .step(-844675200, 36000, 0, "AEST", Ghost(g))
        .step(-828345600, 36000, 3600, "AEDT", Ghost(g))
        .step(-813225600, 36000, 0, "AEST", Ghost(g))
        .step(57686400, 36000, 3600, "AEDT", Ghost(g))
        .step(67968000, 36000, 0, "AEST", Ghost(g))
        .step(89136000, 36000, 3600, "AEDT", Ghost(g))
        .step(100022400, 36000, 0, "AEST", Ghost(g))
        .step(120585600, 36000, 3600, "AEDT", Ghost(g))
        .step(131472000, 36000, 0, "AEST", Ghost(g))
        .step(152035200, 36000, 3600, "AEDT", Ghost(g))
        .step(162921600, 36000, 0, "AEST", Ghost(g))
        .step(183484800, 36000, 3600, "AEDT", Ghost(g))
        .step(194976000, 36000, 0, "AEST", Ghost(g))
        .step(215539200, 36000, 3600, "AEDT", Ghost(g))
        .step(226425600, 36000, 0, "AEST", Ghost(g))
        .step(246988800, 36000, 3600, "AEDT", Ghost(g))
        .step(257875200, 36000, 0, "AEST", Ghost(g))
        .step(278438400, 36000, 3600, "AEDT", Ghost(g))
        .step(289324800, 36000, 0, "AEST", Ghost(g))
        .step(309888000, 36000, 3600, "AEDT", Ghost(g))
        .step(320774400, 36000, 0, "AEST", Ghost(g))
        .step(341337600, 36000, 3600, "AEDT", Ghost(g))
        .step(352224000, 36000, 0, "AEST", Ghost(g))
        .step(372787200, 36000, 3600, "AEDT", Ghost(g))
        .step(384278400, 36000, 0, "AEST", Ghost(g))
        .step(404841600, 36000, 3600, "AEDT", Ghost(g))
        .step(415728000, 36000, 0, "AEST", Ghost(g))
        .step(436291200, 36000, 3600, "AEDT", Ghost(g))
        .step(447177600, 36000, 0, "AEST", Ghost(g))
        .step(467740800, 36000, 3600, "AEDT", Ghost(g))
        .step(478627200, 36000, 0, "AEST", Ghost(g))
        .step(499190400, 36000, 3600, "AEDT", Ghost(g))
        .step(511286400, 36000, 0, "AEST", Ghost(g))
        .step(530035200, 36000, 3600, "AEDT", Ghost(g))
        .step(542736000, 36000, 0, "AEST", Ghost(g))
        .step(561484800, 36000, 3600, "AEDT", Ghost(g))
        .step(574790400, 36000, 0, "AEST", Ghost(g))
        .step(594144000, 36000, 3600, "AEDT", Ghost(g))
        .step(606240000, 36000, 0, "AEST", Ghost(g))
        .step(625593600, 36000, 3600, "AEDT", Ghost(g))
        .step(637689600, 36000, 0, "AEST", Ghost(g))
        .step(657043200, 36000, 3600, "AEDT", Ghost(g))
        .step(667929600, 36000, 0, "AEST", Ghost(g))
        .step(688492800, 36000, 3600, "AEDT", Ghost(g))
        .step(699379200, 36000, 0, "AEST", Ghost(g))
        .step(719942400, 36000, 3600, "AEDT", Ghost(g))
        .step(731433600, 36000, 0, "AEST", Ghost(g))
        .step(751996800, 36000, 3600, "AEDT", Ghost(g))
        .step(762883200, 36000, 0, "AEST", Ghost(g))
        .step(783446400, 36000, 3600, "AEDT", Ghost(g))
        .step(796147200, 36000, 0, "AEST", Ghost(g))
        .step(814896000, 36000, 3600, "AEDT", Ghost(g))
        .step(828201600, 36000, 0, "AEST", Ghost(g))
        .step(846345600, 36000, 3600, "AEDT", Ghost(g))
        .step(859651200, 36000, 0, "AEST", Ghost(g))
        .step(877795200, 36000, 3600, "AEDT", Ghost(g))
        .step(891100800, 36000, 0, "AEST", Ghost(g))
        .step(909244800, 36000, 3600, "AEDT", Ghost(g))
        .step(922550400, 36000, 0, "AEST", Ghost(g))
        .step(941299200, 36000, 3600, "AEDT", Ghost(g))
        .step(954000000, 36000, 0, "AEST", Ghost(g))
        .step(967305600, 36000, 3600, "AEDT", Ghost(g))
        .step(985449600, 36000, 0, "AEST", Ghost(g))
        .step(1004198400, 36000, 3600, "AEDT", Ghost(g))
        .step(1017504000, 36000, 0, "AEST", Ghost(g))
        .step(1035648000, 36000, 3600, "AEDT", Ghost(g))
        .step(1048953600, 36000, 0, "AEST", Ghost(g))
        .step(1067097600, 36000, 3600, "AEDT", Ghost(g))
        .step(1080403200, 36000, 0, "AEST", Ghost(g))
        .step(1099152000, 36000, 3600, "AEDT", Ghost(g))
        .step(1111852800, 36000, 0, "AEST", Ghost(g))
        .step(1130601600, 36000, 3600, "AEDT", Ghost(g))
        .step(1143907200, 36000, 0, "AEST", Ghost(g))
        .step(1162051200, 36000, 3600, "AEDT", Ghost(g))
        .step(1174752000, 36000, 0, "AEST", Ghost(g))
        .step(1193500800, 36000, 3600, "AEDT", Ghost(g))
        .step(1207411200, 36000, 0, "AEST", Ghost(g))
        .step(1223136000, 36000, 3600, "AEDT", Ghost(g))
        .step(1238860800, 36000, 0, "AEST", Ghost(g))
        .step(1254585600, 36000, 3600, "AEDT", Ghost(g))
        .step(1270310400, 36000, 0, "AEST", Ghost(g))
        .step(1286035200, 36000, 3600, "AEDT", Ghost(g))
        .step(1301760000, 36000, 0, "AEST", Ghost(g))
        .step(1317484800, 36000, 3600, "AEDT", Ghost(g))
        .step(1333209600, 36000, 0, "AEST", Ghost(g))
        .step(1349539200, 36000, 3600, "AEDT", Ghost(g))
        .step(1365264000, 36000, 0, "AEST", Ghost(g))
        .step(1380988800, 36000, 3600, "AEDT", Ghost(g))
        .step(1396713600, 36000, 0, "AEST", Ghost(g))
        .step(1412438400, 36000, 3600, "AEDT", Ghost(g))
        .step(1428163200, 36000, 0, "AEST", Ghost(g))
        .step(1443888000, 36000, 3600, "AEDT", Ghost(g))
        .step(1459612800, 36000, 0, "AEST", Ghost(g))
        .step(1475337600, 36000, 3600, "AEDT", Ghost(g))
        .step(1491062400, 36000, 0, "AEST", Ghost(g))
        .step(1506787200, 36000, 3600, "AEDT", Ghost(g))
        .step(1522512000, 36000, 0, "AEST", Ghost(g))
        .step(1538841600, 36000, 3600, "AEDT", Ghost(g))
        .step(1554566400, 36000, 0, "AEST", Ghost(g))
        .step(1570291200, 36000, 3600, "AEDT", Ghost(g))
        .step(1586016000, 36000, 0, "AEST", Ghost(g))
        .step(1601740800, 36000, 3600, "AEDT", Ghost(g))
        .step(1617465600, 36000, 0, "AEST", Ghost(g))
        .step(1633190400, 36000, 3600, "AEDT", Ghost(g))
        .step(1648915200, 36000, 0, "AEST", Ghost(g))
        .step(1664640000, 36000, 3600, "AEDT", Ghost(g))
        .step(1680364800, 36000, 0, "AEST", Ghost(g))
        .step(1696089600, 36000, 3600, "AEDT", Ghost(g))
        .step(1712419200, 36000, 0, "AEST", Ghost(g))
        .step(1728144000, 36000, 3600, "AEDT", Ghost(g))
        .step(1743868800, 36000, 0, "AEST", Ghost(g))
        .step(1759593600, 36000, 3600, "AEDT", Ghost(g))
        .step(1775318400, 36000, 0, "AEST", Ghost(g))
        .step(1791043200, 36000, 3600, "AEDT", Ghost(g))
        .step(1806768000, 36000, 0, "AEST", Ghost(g))
        .step(1822492800, 36000, 3600, "AEDT", Ghost(g))
        .step(1838217600, 36000, 0, "AEST", Ghost(g))
        .step(1853942400, 36000, 3600, "AEDT", Ghost(g))
        .step(1869667200, 36000, 0, "AEST", Ghost(g))
        .step(1885996800, 36000, 3600, "AEDT", Ghost(g))
        .step(1901721600, 36000, 0, "AEST", Ghost(g))
        .step(1917446400, 36000, 3600, "AEDT", Ghost(g))
        .step(1933171200, 36000, 0, "AEST", Ghost(g))
        .step(1948896000, 36000, 3600, "AEDT", Ghost(g))
        .step(1964620800, 36000, 0, "AEST", Ghost(g))
        .step(1980345600, 36000, 3600, "AEDT", Ghost(g))
        .step(1996070400, 36000, 0, "AEST", Ghost(g))
        .step(2011795200, 36000, 3600, "AEDT", Ghost(g))
        .step(2027520000, 36000, 0, "AEST", Ghost(g))
        .step(2043244800, 36000, 3600, "AEDT", Ghost(g))
        .step(2058969600, 36000, 0, "AEST", Ghost(g))
        .step(2075299200, 36000, 3600, "AEDT", Ghost(g))
        .step(2091024000, 36000, 0, "AEST", Ghost(g))
        .step(2106748800, 36000, 3600, "AEDT", Ghost(g))
        .step(2122473600, 36000, 0, "AEST", Ghost(g))
        .step(2138198400, 36000, 3600, "AEDT", Ghost(g))
        .finish(Ghost(g))
}

/// The zone `Australia/NSW`.
pub fn nsw() -> (r: Tz)
    ensures
        r.wf(),
        r.zone_name() == "Australia/NSW"@,
        r.table() == tables::australia::nsw(),
{
    let ghost g = tables::australia::nsw_rows();
    FixedTimespanSet::begin("Australia/NSW", 36292, 0, "LMT", Ghost(g))
        .step(-2364113092, 36000, 0, "AEST", Ghost(g))
        .step(-1672560000, 36000, 3600, "AEDT", Ghost(g))
        .step(-1665388800, 36000, 0, "AEST", Ghost(g))
        .step(-883641600, 36000, 3600, "AEDT", Ghost(g))
        .step(-876124800, 36000, 0, "AEST", Ghost(g))
        .step(-860400000, 36000, 3600, "AEDT", Ghost(g))
        .step(-844675200, 36000, 0, "AEST", Ghost(g))
        .step(-828345600, 36000, 3600, "AEDT", Ghost(g))
        .step(-813225600, 36000, 0, "AEST", Ghost(g))
        .step(57686400, 36000, 3600, "AEDT", Ghost(g))
        .step(67968000, 36000, 0, "AEST", Ghost(g))
        .step(89136000, 36000, 3600, "AEDT", Ghost(g))
        .step(100022400, 36000, 0, "AEST", Ghost(g))
        .step(120585600, 36000, 3600, "AEDT", Ghost(g))
        .step(131472000, 36000, 0, "AEST", Ghost(g))
        .step(152035200, 36000, 3600, "AEDT", Ghost(g))
        .step(162921600, 36000, 0, "AEST", Ghost(g))
        .step(183484800, 36000, 3600, "AEDT", Ghost(g))
        .step(194976000, 36000, 0, "AEST", Ghost(g))
        .step(215539200, 36000, 3600, "AEDT", Ghost(g))
        .step(226425600, 36000, 0, "AEST", Ghost(g))
        .step(246988800, 36000, 3600, "AEDT", Ghost(g))
        .step(257875200, 36000, 0, "AEST", Ghost(g))
        .step(278438400, 36000, 3600, "AEDT", Ghost(g))
        .step(289324800, 36000, 0, "AEST", Ghost(g))
        .step(309888000, 36000, 3600, "AEDT", Ghost(g))
        .step(320774400, 36000, 0, "AEST", Ghost(g))
        .step(341337600, 36000, 3600, "AEDT", Ghost(g))
        .step(352224000, 36000, 0, "AEST", Ghost(g))
        .step(372787200, 36000, 3600, "AEDT", Ghost(g))
        .step(386697600, 36000, 0, "AEST", Ghost(g))
        .step(404841600, 36000, 3600, "AEDT", Ghost(g))
        .step(415728000, 36000, 0, "AEST", Ghost(g))
        .step(436291200, 36000, 3600, "AEDT", Ghost(g))
        .step(447177600, 36000, 0, "AEST", Ghost(g))
        .step(467740800, 36000, 3600, "AEDT", Ghost(g))
        .step(478627200, 36000, 0, "AEST", Ghost(g))
        .step(499190400, 36000, 3600, "AEDT", Ghost(g))
        .step(511286400, 36000, 0, "AEST", Ghost(g))
        .step(530035200, 36000, 3600, "AEDT", Ghost(g))
        .step(542736000, 36000, 0, "AEST", Ghost(g))
        .step(562089600, 36000, 3600, "AEDT", Ghost(g))
        .step(574790400, 36000, 0, "AEST", Ghost(g))
        .step(594144000, 36000, 3600, "AEDT", Ghost(g))
        .step(606240000, 36000, 0, "AEST", Ghost(g))
        .step(625593600, 36000, 3600, "AEDT", Ghost(g))
        .step(636480000, 36000, 0, "AEST", Ghost(g))
        .step(657043200, 36000, 3600, "AEDT", Ghost(g))
        .step(667929600, 36000, 0, "AEST", Ghost(g))
        .step(688492800, 36000, 3600, "AEDT", Ghost(g))
        .step(699379200, 36000, 0, "AEST", Ghost(g))
        .step(719942400, 36000, 3600, "AEDT", Ghost(g))
        .step(731433600, 36000, 0, "AEST", Ghost(g))
        .step(751996800, 36000, 3600, "AEDT", Ghost(g))
        .step(762883200, 36000, 0, "AEST", Ghost(g))
        .step(783446400, 36000, 3600, "AEDT", Ghost(g))
        .step(794332800, 36000, 0, "AEST", Ghost(g))
        .step(814896000, 36000, 3600, "AEDT", Ghost(g))
        .step(828201600, 36000, 0, "AEST", Ghost(g))
        .step(846345600, 36000, 3600, "AEDT", Ghost(g))
        .step(859651200, 36000, 0, "AEST", Ghost(g))
        .step(877795200, 36000, 3600, "AEDT", Ghost(g))
        .step(891100800, 36000, 0, "AEST", Ghost(g))
        .step(909244800, 36000, 3600, "AEDT", Ghost(g))
        .step(922550400, 36000, 0, "AEST", Ghost(g))
        .step(941299200, 36000, 3600, "AEDT", Ghost(g))
        .step(954000000, 36000, 0, "AEST", Ghost(g))
        .step(967305600, 36000, 3600, "AEDT", Ghost(g))
        .step(985449600, 36000, 0, "AEST", Ghost(g))
        .step(1004198400, 36000, 3600, "AEDT", Ghost(g))
        .step(1017504000, 36000, 0, "AEST", Ghost(g))
        .step(1035648000, 36000, 3600, "AEDT", Ghost(g))
        .step(1048953600, 36000, 0, "AEST", Ghost(g))
        .step(1067097600, 36000, 3600, "AEDT", Ghost(g))
        .step(1080403200, 36000, 0, "AEST", Ghost(g))
        .step(1099152000, 36000, 3600, "AEDT", Ghost(g))
        .step(1111852800, 36000, 0, "AEST", Ghost(g))
        .step(1130601600, 36000, 3600, "AEDT", Ghost(g))
        .step(1143907200, 36000, 0, "AEST", Ghost(g))
        .step(1162051200, 36000, 3600, "AEDT", Ghost(g))
        .step(1174752000, 36000, 0, "AEST", Ghost(g))
        .step(1193500800, 36000, 3600, "AEDT", Ghost(g))
        .step(1207411200, 36000, 0, "AEST", Ghost(g))
        .step(1223136000, 36000, 3600, "AEDT", Ghost(g))
        .step(1238860800, 36000, 0, "AEST", Ghost(g))
        .step(1254585600, 36000, 3600, "AEDT", Ghost(g))
        .step(1270310400, 36000, 0, "AEST", Ghost(g))
        .step(1286035200, 36000, 3600, "AEDT", Ghost(g))
        .step(1301760000, 36000, 0, "AEST", Ghost(g))
        .step(1317484800, 36000, 3600, "AEDT", Ghost(g))
        .step(1333209600, 36000, 0, "AEST", Ghost(g))
        .step(1349539200, 36000, 3600, "AEDT", Ghost(g))
        .step(1365264000, 36000, 0, "AEST", Ghost(g))
        .step(1380988800, 36000, 3600, "AEDT", Ghost(g))
        .step(1396713600, 36000, 0, "AEST", Ghost(g))
        .step(1412438400, 36000, 3600, "AEDT", Ghost(g))
        .step(1428163200, 36000, 0, "AEST", Ghost(g))
        .step(1443888000, 36000, 3600, "AEDT", Ghost(g))
        .step(1459612800, 36000, 0, "AEST", Ghost(g))
        .step(1475337600, 36000, 3600, "AEDT", Ghost(g))
        .step(1491062400, 36000, 0, "AEST", Ghost(g))
        .step(1506787200, 36000, 3600, "AEDT", Ghost(g))
        .step(1522512000, 36000, 0, "AEST", Ghost(g))
        .step(1538841600, 36000, 3600, "AEDT", Ghost(g))
        .step(1554566400, 36000, 0, "AEST", Ghost(g))
        .step(1570291200, 36000, 3600, "AEDT", Ghost(g))
        .step(1586016000, 36000, 0, "AEST", Ghost(g))
        .step(1601740800, 36000, 3600, "AEDT", Ghost(g))
        .step(1617465600, 36000, 0, "AEST", Ghost(g))
        .step(1633190400, 36000, 3600, "AEDT", Ghost(g))
        .step(1648915200, 36000, 0, "AEST", Ghost(g))
        .step(1664640000, 36000, 3600, "AEDT", Ghost(g))
        .step(1680364800, 36000, 0, "AEST", Ghost(g))
        .step(1696089600, 36000, 3600, "AEDT", Ghost(g))
        .step(1712419200, 36000, 0, "AEST", Ghost(g))
        .step(1728144000, 36000, 3600, "AEDT", Ghost(g))
        .step(1743868800, 36000, 0, "AEST", Ghost(g))
        .step(1759593600, 36000, 3600, "AEDT", Ghost(g))
        .step(1775318400, 36000, 0, "AEST", Ghost(g))
        .step(1791043200, 36000, 3600, "AEDT", Ghost(g))
        .step(1806768000, 36000, 0, "AEST", Ghost(g))
        .step(1822492800, 36000, 3600, "AEDT", Ghost(g))
        .step(1838217600, 36000, 0, "AEST", Ghost(g))
        .step(1853942400, 36000, 3600, "AEDT", Ghost(g))
        .step(1869667200, 36000, 0, "AEST", Ghost(g))
        .step(1885996800, 36000, 3600, "AEDT", Ghost(g))
        .step(1901721600, 36000, 0, "AEST", Ghost(g))
        .step(1917446400, 36000, 3600, "AEDT", Ghost(g))
        .step(1933171200, 36000, 0, "AEST", Ghost(g))
        .step(1948896000, 36000, 3600, "AEDT", Ghost(g))
        .step(1964620800, 36000, 0, "AEST", Ghost(g))
        .step(1980345600, 36000, 3600, "AEDT", Ghost(g))
        .step(1996070400, 36000, 0, "AEST", Ghost(g))
        .step(2011795200, 36000, 3600, "AEDT", Ghost(g))
        .step(2027520000, 36000, 0, "AEST", Ghost(g))
        .step(2043244800, 36000, 3600, "AEDT", Ghost(g))
        .step(2058969600, 36000, 0, "AEST", Ghost(g))
        .step(2075299200, 36000, 3600, "AEDT", Ghost(g))
        .step(2091024000, 36000, 0, "AEST", Ghost(g))
        .step(2106748800, 36000, 3600, "AEDT", Ghost(g))
        .step(2122473600, 36000, 0, "AEST", Ghost(g))
        .step(2138198400, 36000, 3600, "AEDT", Ghost(g))
        .finish(Ghost(g))
}

/// The zone `Australia/North`.
pub fn north() -> (r: Tz)
    ensures
        r.wf(),
        r.zone_name() == "Australia/North"@,
        r.table() == tables::australia::north(),
{
    let ghost g = tables::australia::north_rows();
    FixedTimespanSet::begin("Australia/North", 31400, 0, "LMT", Ghost(g))
        .step(-2364108200, 32400, 0, "ACST", Ghost(g))
        .step(-2230189200, 34200, 0, "ACST", Ghost(g))
        .step(-1672558200, 34200, 3600, "ACDT", Ghost(g))
        .step(-1665387000, 34200, 0, "ACST", Ghost(g))
        .step(-883639800, 34200, 3600, "ACDT", Ghost(g))
        .step(-876123000, 34200, 0, "ACST", Ghost(g))
        .step(-860398200, 34200, 3600, "ACDT", Ghost(g))
        .step(-844673400, 34200, 0, "ACST", Ghost(g))
        .step(-828343800, 34200, 3600, "ACDT", Ghost(g))
        .step(-813223800, 34200, 0, "ACST", Ghost(g))
        .finish(Ghost(g))
}

/// The zone `Australia/Perth`.
pub fn perth() -> (r: Tz)
    ensures
        r.wf(),
        r.zone_name() == "Australia/Perth"@,
        r.table() == tables::australia::perth(),
{
    let ghost g = tables::australia::perth_rows();
    FixedTimespanSet::begin("Australia/Perth", 27804, 0, "LMT", Ghost(g))
        .step(-2337925404, 28800, 0, "AWST", Ghost(g))
        .step(-1672552800, 28800, 3600, "AWDT", Ghost(g))
        .step(-1665381600, 28800, 0, "AWST", Ghost(g))
        .step(-883634400, 28800, 3600, "AWDT", Ghost(g))
        .step(-876117600, 28800, 0, "AWST", Ghost(g))
        .step(-860392800, 28800, 3600, "AWDT", Ghost(g))
        .step(-844668000, 28800, 0, "AWST", Ghost(g))
        .step(152042400, 28800, 3600, "AWDT", Ghost(g))
        .step(162928800, 28800, 0, "AWST", Ghost(g))
        .step(436298400, 28800, 3600, "AWDT", Ghost(g))
        .step(447184800, 28800, 0, "AWST", Ghost(g))
        .step(690314400, 28800, 3600, "AWDT", Ghost(g))
        .step(699386400, 28800, 0, "AWST", Ghost(g))
        .step(1165082400, 28800, 3600, "AWDT", Ghost(g))
        .step(1174759200, 28800, 0, "AWST", Ghost(g))
        .step(1193508000, 28800, 3600, "AWDT", Ghost(g))
        .step(1206813600, 28800, 0, "AWST", Ghost(g))
        .step(1224957600, 28800, 3600, "AWDT", Ghost(g))
        .step(1238263200, 28800, 0, "AWST", Ghost(g))
        .finish(Ghost(g))
}

/// The zone `Australia/Queensland`.
pub fn queensland() -> (r: Tz)
    ensures
        r.wf(),
        r.zone_name() == "Australia/Queensland"@,
        r.table() == tables::australia::queensland(),
{
    let ghost g = tables::australia::queensland_rows();
    FixedTimespanSet::begin("Australia/Queensland", 36728, 0, "LMT", Ghost(g))
        .step(-2366791928, 36000, 0, "AEST", Ghost(g))
        .step(-1672560000, 36000, 3600, "AEDT", Ghost(g))
        .step(-1665388800, 36000, 0, "AEST", Ghost(g))
        .step(-883641600, 36000, 3600, "AEDT", Ghost(g))
        .step(-876124800, 36000, 0, "AEST", Ghost(g))
        .step(-860400000, 36000, 3600, "AEDT", Ghost(g))
        .step(-844675200, 36000, 0, "AEST", Ghost(g))
        .step(-828345600, 36000, 3600, "AEDT", Ghost(g))
        .step(-813225600, 36000, 0, "AEST", Ghost(g))
        .step(57686400, 36000, 3600, "AEDT", Ghost(g))
        .step(67968000, 36000, 0, "AEST", Ghost(g))
        .step(625593600, 36000, 3600, "AEDT", Ghost(g))
        .step(636480000, 36000, 0, "AEST", Ghost(g))
        .step(657043200, 36000, 3600, "AEDT", Ghost(g))
        .step(667929600, 36000, 0, "AEST", Ghost(g))
        .step(688492800, 36000, 3600, "AEDT", Ghost(g))
        .step(699379200, 36000, 0, "AEST", Ghost(g))
        .finish(Ghost(g))
}

/// The zone `Australia/South`.
pub fn south() -> (r: Tz)
    ensures
        r.wf(),
        r.zone_name() == "Australia/South"@,
        r.table() == tables::australia::south(),
{
    let ghost g = tables::australia::south_rows();
    FixedTimespanSet::begin("Australia/South", 33260, 0, "LMT", Ghost(g))
        .step(-2364110060, 32400, 0, "ACST", Ghost(g))
        .step(-2230189200, 34200, 0, "ACST", Ghost(g))
        .step(-1672558200, 34200, 3600, "ACDT", Ghost(g))
        .step(-1665387000, 34200, 0, "ACST", Ghost(g))
        .step(-883639800, 34200, 3600, "ACDT", Ghost(g))
        .step(-876123000, 34200, 0, "ACST", Ghost(g))
        .step(-860398200, 34200, 3600, "ACDT", Ghost(g))
        .step(-844673400, 34200, 0, "ACST", Ghost(g))
        .step(-828343800, 34200, 3600, "ACDT", Ghost(g))
        .step(-813223800, 34200, 0, "ACST", Ghost(g))
        .step(57688200, 34200, 3600, "ACDT", Ghost(g))
        .step(67969800, 34200, 0, "ACST", Ghost(g))
        .step(89137800, 34200, 3600, "ACDT", Ghost(g))
        .step(100024200, 34200, 0, "ACST", Ghost(g))
        .step(120587400, 34200, 3600, "ACDT", Ghost(g))
        .step(131473800, 34200, 0, "ACST", Ghost(g))
        .step(152037000, 34200, 3600, "ACDT", Ghost(g))
        .step(162923400, 34200, 0, "ACST", Ghost(g))
        .step(183486600, 34200, 3600, "ACDT", Ghost(g))
        .step(194977800, 34200, 0, "ACST", Ghost(g))
        .step(215541000, 34200, 3600, "ACDT", Ghost(g))
        .step(226427400, 34200, 0, "ACST", Ghost(g))
        .step(246990600, 34200, 3600, "ACDT", Ghost(g))
        .step(257877000, 34200, 0, "ACST", Ghost(g))
        .step(278440200, 34200, 3600, "ACDT", Ghost(g))
        .step(289326600, 34200, 0, "ACST", Ghost(g))
        .step(309889800, 34200, 3600, "ACDT", Ghost(g))
        .step(320776200, 34200, 0, "ACST", Ghost(g))
        .step(341339400, 34200, 3600, "ACDT", Ghost(g))
        .step(352225800, 34200, 0, "ACST", Ghost(g))
        .step(372789000, 34200, 3600, "ACDT", Ghost(g))
        .step(384280200, 34200, 0, "ACST", Ghost(g))
        .step(404843400, 34200, 3600, "ACDT", Ghost(g))
        .step(415729800, 34200, 0, "ACST", Ghost(g))
        .step(436293000, 34200, 3600, "ACDT", Ghost(g))
        .step(447179400, 34200, 0, "ACST", Ghost(g))
        .step(467742600, 34200, 3600, "ACDT", Ghost(g))
        .step(478629000, 34200, 0, "ACST", Ghost(g))
        .step(499192200, 34200, 3600, "ACDT", Ghost(g))
        .step(511288200, 34200, 0, "ACST", Ghost(g))
        .step(530037000, 34200, 3600, "ACDT", Ghost(g))
        .step(542737800, 34200, 0, "ACST", Ghost(g))
        .step(562091400, 34200, 3600, "ACDT", Ghost(g))
        .step(574792200, 34200, 0, "ACST", Ghost(g))
        .step(594145800, 34200, 3600, "ACDT", Ghost(g))
        .step(606241800, 34200, 0, "ACST", Ghost(g))
        .step(625595400, 34200, 3600, "ACDT", Ghost(g))
        .step(637691400, 34200, 0, "ACST", Ghost(g))
        .step(657045000, 34200, 3600, "ACDT", Ghost(g))
        .step(667931400, 34200, 0, "ACST", Ghost(g))
        .step(688494600, 34200, 3600, "ACDT", Ghost(g))
        .step(701195400, 34200, 0, "ACST", Ghost(g))
        .step(719944200, 34200, 3600, "ACDT", Ghost(g))
        .step(731435400, 34200, 0, "ACST", Ghost(g))
        .step(751998600, 34200, 3600, "ACDT", Ghost(g))
        .step(764094600, 34200, 0, "ACST", Ghost(g))
        .step(783448200, 34200, 3600, "ACDT", Ghost(g))
        .step(796149000, 34200, 0, "ACST", Ghost(g))
        .step(814897800, 34200, 3600, "ACDT", Ghost(g))
        .step(828203400, 34200, 0, "ACST", Ghost(g))
        .step(846347400, 34200, 3600, "ACDT", Ghost(g))
        .step(859653000, 34200, 0, "ACST", Ghost(g))
        .step(877797000, 34200, 3600, "ACDT", Ghost(g))
        .step(891102600, 34200, 0, "ACST", Ghost(g))
        .step(909246600, 34200, 3600, "ACDT", Ghost(g))
        .step(922552200, 34200, 0, "ACST", Ghost(g))
        .step(941301000, 34200, 3600, "ACDT", Ghost(g))
        .step(954001800, 34200, 0, "ACST", Ghost(g))
        .step(972750600, 34200, 3600, "ACDT", Ghost(g))
        .step(985451400, 34200, 0, "ACST", Ghost(g))
        .step(1004200200, 34200, 3600, "ACDT", Ghost(g))
        .step(1017505800, 34200, 0, "ACST", Ghost(g))
        .step(1035649800, 34200, 3600, "ACDT", Ghost(g))
        .step(1048955400, 34200, 0, "ACST", Ghost(g))
        .step(1067099400, 34200, 3600, "ACDT", Ghost(g))
        .step(1080405000, 34200, 0, "ACST", Ghost(g))
        .step(1099153800, 34200, 3600, "ACDT", Ghost(g))
        .step(1111854600, 34200, 0, "ACST", Ghost(g))
        .step(1130603400, 34200, 3600, "ACDT", Ghost(g))
        .step(1143909000, 34200, 0, "ACST", Ghost(g))
        .step(1162053000, 34200, 3600, "ACDT", Ghost(g))
        .step(1174753800, 34200, 0, "ACST", Ghost(g))
        .step(1193502600, 34200, 3600, "ACDT", Ghost(g))
        .step(1207413000, 34200, 0, "ACST", Ghost(g))
        .step(1223137800, 34200, 3600, "ACDT", Ghost(g))
        .step(1238862600, 34200, 0, "ACST", Ghost(g))
        .step(1254587400, 34200, 3600, "ACDT", Ghost(g))
        .step(1270312200, 34200, 0, "ACST", Ghost(g))
        .step(1286037000, 34200, 3600, "ACDT", Ghost(g))
        .step(1301761800, 34200, 0, "ACST", Ghost(g))
        .step(1317486600, 34200, 3600, "ACDT", Ghost(g))
        .step(1333211400, 34200, 0, "ACST", Ghost(g))
        .step(1349541000, 34200, 3600, "ACDT", Ghost(g))
        .step(1365265800, 34200, 0, "ACST", Ghost(g))
        .step(1380990600, 34200, 3600, "ACDT", Ghost(g))
        .step(1396715400, 34200, 0, "ACST", Ghost(g))
        .step(1412440200, 34200, 3600, "ACDT", Ghost(g))
        .step(1428165000, 34200, 0, "ACST", Ghost(g))
        .step(1443889800, 34200, 3600, "ACDT", Ghost(g))
        .step(1459614600, 34200, 0, "ACST", Ghost(g))
        .step(1475339400, 34200, 3600, "ACDT", Ghost(g))
        .step(1491064200, 34200, 0, "ACST", Ghost(g))
        .step(1506789000, 34200, 3600, "ACDT", Ghost(g))
        .step(1522513800, 34200, 0, "ACST", Ghost(g))
        .step(1538843400, 34200, 3600, "ACDT", Ghost(g))
        .step(1554568200, 34200, 0, "ACST", Ghost(g))
        .step(1570293000, 34200, 3600, "ACDT", Ghost(g))
        .step(1586017800, 34200, 0, "ACST", Ghost(g))
        .step(1601742600, 34200, 3600, "ACDT", Ghost(g))
        .step(1617467400, 34200, 0, "ACST", Ghost(g))
        .step(1633192200, 34200, 3600, "ACDT", Ghost(g))
        .step(1648917000, 34200, 0, "ACST", Ghost(g))
        .step(1664641800, 34200, 3600, "ACDT", Ghost(g))
        .step(1680366600, 34200, 0, "ACST", Ghost(g))
        .step(1696091400, 34200, 3600, "ACDT", Ghost(g))
        .step(1712421000, 34200, 0, "ACST", Ghost(g))
        .step(1728145800, 34200, 3600, "ACDT", Ghost(g))
        .step(1743870600, 34200, 0, "ACST", Ghost(g))
        .step(1759595400, 34200, 3600, "ACDT", Ghost(g))
        .step(1775320200, 34200, 0, "ACST", Ghost(g))
        .step(1791045000, 34200, 3600, "ACDT", Ghost(g))
        .step(1806769800, 34200, 0, "ACST", Ghost(g))
        .step(1822494600, 34200, 3600, "ACDT", Ghost(g))
        .step(1838219400, 34200, 0, "ACST", Ghost(g))
        .step(1853944200, 34200, 3600, "ACDT", Ghost(g))
        .step(1869669000, 34200, 0, "ACST", Ghost(g))
        .step(1885998600, 34200, 3600, "ACDT", Ghost(g))
        .step(1901723400, 34200, 0, "ACST", Ghost(g))
        .step(1917448200, 34200, 3600, "ACDT", Ghost(g))
        .step(1933173000, 34200, 0, "ACST", Ghost(g))
        .step(1948897800, 34200, 3600, "ACDT", Ghost(g))
        .step(1964622600, 34200, 0, "ACST", Ghost(g))
        .step(1980347400, 34200, 3600, "ACDT", Ghost(g))
        .step(1996072200, 34200, 0, "ACST", Ghost(g))
        .step(2011797000, 34200, 3600, "ACDT", Ghost(g))
        .step(2027521800, 34200, 0, "ACST", Ghost(g))
        .step(2043246600, 34200, 3600, "ACDT", Ghost(g))
        .step(2058971400, 34200, 0, "ACST", Ghost(g))
        .step(2075301000, 34200, 3600, "ACDT", Ghost(g))
        .step(2091025800, 34200, 0, "ACST", Ghost(g))
        .step(2106750600, 34200, 3600, "ACDT", Ghost(g))
        .step(2122475400, 34200, 0, "ACST", Ghost(g))
        .step(2138200200, 34200, 3600, "ACDT", Ghost(g))
        .finish(Ghost(g))
}

/// The zone `Australia/Sydney`.
pub fn sydney() -> (r: Tz)
    ensures
        r.wf(),
        r.zone_name() == "Australia/Sydney"@,
        r.table() == tables::australia::sydney(),
{
    let ghost g = tables::australia::sydney_rows();
    FixedTimespanSet::begin("Australia/Sydney", 36292, 0, "LMT", Ghost(g))
        .step(-2364113092, 36000, 0, "AEST", Ghost(g))
        .step(-1672560000, 36000, 3600, "AEDT", Ghost(g))
        .step(-1665388800, 36000, 0, "AEST", Ghost(g))
        .step(-883641600, 36000, 3600, "AEDT", Ghost(g))
        .step(-876124800, 36000, 0, "AEST", Ghost(g))
        .step(-860400000, 36000, 3600, "AEDT", Ghost(g))
        .step(-844675200, 36000, 0, "AEST", Ghost(g))
        .step(-828345600, 36000, 3600, "AEDT", Ghost(g))
        .step(-813225600, 36000, 0, "AEST", Ghost(g))
        .step(57686400, 36000, 3600, "AEDT", Ghost(g))
        .step(67968000, 36000, 0, "AEST", Ghost(g))
        .step(89136000, 36000, 3600, "AEDT", Ghost(g))
        .step(100022400, 36000, 0, "AEST", Ghost(g))
        .step(120585600, 36000, 3600, "AEDT", Ghost(g))
        .step(131472000, 36000, 0, "AEST", Ghost(g))
        .step(152035200, 36000, 3600, "AEDT", Ghost(g))
        .step(162921600, 36000, 0, "AEST", Ghost(g))
        .step(183484800, 36000, 3600, "AEDT", Ghost(g))
        .step(194976000, 36000, 0, "AEST", Ghost(g))
        .step(215539200, 36000, 3600, "AEDT", Ghost(g))
        .step(226425600, 36000, 0, "AEST", Ghost(g))
        .step(246988800, 36000, 3600, "AEDT", Ghost(g))
        .step(257875200, 36000, 0, "AEST", Ghost(g))
        .step(278438400, 36000, 3600, "AEDT", Ghost(g))
        .step(289324800, 36000, 0, "AEST", Ghost(g))
        .step(309888000, 36000, 3600, "AEDT", Ghost(g))
        .step(320774400, 36000, 0, "AEST", Ghost(g))
        .step(341337600, 36000, 3600, "AEDT", Ghost(g))
        .step(352224000, 36000, 0, "AEST", Ghost(g))
        .step(372787200, 36000, 3600, "AEDT", Ghost(g))
        .step(386697600, 36000, 0, "AEST", Ghost(g))
        .step(404841600, 36000, 3600, "AEDT", Ghost(g))
        .step(415728000, 36000, 0, "AEST", Ghost(g))
        .step(436291200, 36000, 3600, "AEDT", Ghost(g))
        .step(447177600, 36000, 0, "AEST", Ghost(g))
        .step(467740800, 36000, 3600, "AEDT", Ghost(g))
        .step(478627200, 36000, 0, "AEST", Ghost(g))
        .step(499190400, 36000, 3600, "AEDT", Ghost(g))
        .step(511286400, 36000, 0, "AEST", Ghost(g))
        .step(530035200, 36000, 3600, "AEDT", Ghost(g))
        .step(542736000, 36000, 0, "AEST", Ghost(g))
        .step(562089600, 36000, 3600, "AEDT", Ghost(g))
        .step(574790400, 36000, 0, "AEST", Ghost(g))
        .step(594144000, 36000, 3600, "AEDT", Ghost(g))
        .step(606240000, 36000, 0, "AEST", Ghost(g))
        .step(625593600, 36000, 3600, "AEDT", Ghost(g))
        .step(636480000, 36000, 0, "AEST", Ghost(g))
        .step(657043200, 36000, 3600, "AEDT", Ghost(g))
        .step(667929600, 36000, 0, "AEST", Ghost(g))
        .step(688492800, 36000, 3600, "AEDT", Ghost(g))
        .step(699379200, 36000, 0, "AEST", Ghost(g))
        .step(719942400, 36000, 3600, "AEDT", Ghost(g))
        .step(731433600, 36000, 0, "AEST", Ghost(g))
        .step(751996800, 36000, 3600, "AEDT", Ghost(g))
        .step(762883200, 36000, 0, "AEST", Ghost(g))
        .step(783446400, 36000, 3600, "AEDT", Ghost(g))
        .step(794332800, 36000, 0, "AEST", Ghost(g))
        .step(814896000, 36000, 3600, "AEDT", Ghost(g))
        .step(828201600, 36000, 0, "AEST", Ghost(g))
        .step(846345600, 36000, 3600, "AEDT", Ghost(g))
        .step(859651200, 36000, 0, "AEST", Ghost(g))
        .step(877795200, 36000, 3600, "AEDT", Ghost(g))
        .step(891100800, 36000, 0, "AEST", Ghost(g))
        .step(909244800, 36000, 3600, "AEDT", Ghost(g))
        .step(922550400, 36000, 0, "AEST", Ghost(g))
        .step(941299200, 36000, 3600, "AEDT", Ghost(g))
        .step(954000000, 36000, 0, "AEST", Ghost(g))
        .step(967305600, 36000, 3600, "AEDT", Ghost(g))
        .step(985449600, 36000, 0, "AEST", Ghost(g))
        .step(1004198400, 36000, 3600, "AEDT", Ghost(g))
        .step(1017504000, 36000, 0, "AEST", Ghost(g))
        .step(1035648000, 36000, 3600, "AEDT", Ghost(g))
        .step(1048953600, 36000, 0, "AEST", Ghost(g))
        .step(1067097600, 36000, 3600, "AEDT", Ghost(g))
        .step(1080403200, 36000, 0, "AEST", Ghost(g))
        .step(1099152000, 36000, 3600, "AEDT", Ghost(g))
        .step(1111852800, 36000, 0, "AEST", Ghost(g))
        .step(1130601600, 36000, 3600, "AEDT", Ghost(g))
        .step(1143907200, 36000, 0, "AEST", Ghost(g))
        .step(1162051200, 36000, 3600, "AEDT", Ghost(g))
        .step(1174752000, 36000, 0, "AEST", Ghost(g))
        .step(1193500800, 36000, 3600, "AEDT", Ghost(g))
        .step(1207411200, 36000, 0, "AEST", Ghost(g))
        .step(1223136000, 36000, 3600, "AEDT", Ghost(g))
        .step(1238860800, 36000, 0, "AEST", Ghost(g))
        .step(1254585600, 36000, 3600, "AEDT", Ghost(g))
        .step(1270310400, 36000, 0, "AEST", Ghost(g))
        .step(1286035200, 36000, 3600, "AEDT", Ghost(g))
        .step(1301760000, 36000, 0, "AEST", Ghost(g))
        .step(1317484800, 36000, 3600, "AEDT", Ghost(g))
        .step(1333209600, 36000, 0, "AEST", Ghost(g))
        .step(1349539200, 36000, 3600, "AEDT", Ghost(g))
        .step(1365264000, 36000, 0, "AEST", Ghost(g))
        .step(1380988800, 36000, 3600, "AEDT", Ghost(g))
        .step(1396713600, 36000, 0, "AEST", Ghost(g))
        .step(1412438400, 36000, 3600, "AEDT", Ghost(g))
        .step(1428163200, 36000, 0, "AEST", Ghost(g))
        .step(1443888000, 36000, 3600, "AEDT", Ghost(g))
        .step(1459612800, 36000, 0, "AEST", Ghost(g))
        .step(1475337600, 36000, 3600, "AEDT", Ghost(g))
        .step(1491062400, 36000, 0, "AEST", Ghost(g))
        .step(1506787200, 36000, 3600, "AEDT", Ghost(g))
        .step(1522512000, 36000, 0, "AEST", Ghost(g))
        .step(1538841600, 36000, 3600, "AEDT", Ghost(g))
        .step(1554566400, 36000, 0, "AEST", Ghost(g))
        .step(1570291200, 36000, 3600, "AEDT", Ghost(g))
        .step(1586016000, 36000, 0, "AEST", Ghost(g))
        .step(1601740800, 36000, 3600, "AEDT", Ghost(g))
        .step(1617465600, 36000, 0, "AEST", Ghost(g))
        .step(1633190400, 36000, 3600, "AEDT", Ghost(g))
        .step(1648915200, 36000, 0, "AEST", Ghost(g))
        .step(1664640000, 36000, 3600, "AEDT", Ghost(g))
        .step(1680364800, 36000, 0, "AEST", Ghost(g))
        .step(1696089600, 36000, 3600, "AEDT", Ghost(g))
        .step(1712419200, 36000, 0, "AEST", Ghost(g))
        .step(1728144000, 36000, 3600, "AEDT", Ghost(g))
        .step(1743868800, 36000, 0, "AEST", Ghost(g))
        .step(1759593600, 36000, 3600, "AEDT", Ghost(g))
        .step(1775318400, 36000, 0, "AEST", Ghost(g))
        .step(1791043200, 36000, 3600, "AEDT", Ghost(g))
        .step(1806768000, 36000, 0, "AEST", Ghost(g))
        .step(1822492800, 36000, 3600, "AEDT", Ghost(g))
        .step(1838217600, 36000, 0, "AEST", Ghost(g))
        .step(1853942400, 36000, 3600, "AEDT", Ghost(g))
        .step(1869667200, 36000, 0, "AEST", Ghost(g))
        .step(1885996800, 36000, 3600, "AEDT", Ghost(g))
        .step(1901721600, 36000, 0, "AEST", Ghost(g))
        .step(1917446400, 36000, 3600, "AEDT", Ghost(g))
        .step(1933171200, 36000, 0, "AEST", Ghost(g))
        .step(1948896000, 36000, 3600, "AEDT", Ghost(g))
        .step(1964620800, 36000, 0, "AEST", Ghost(g))
        .step(1980345600, 36000, 3600, "AEDT", Ghost(g))
        .step(1996070400, 36000, 0, "AEST", Ghost(g))
        .step(2011795200, 36000, 3600, "AEDT", Ghost(g))
        .step(2027520000, 36000, 0, "AEST", Ghost(g))
        .step(2043244800, 36000, 3600, "AEDT", Ghost(g))
        .step(2058969600, 36000, 0, "AEST", Ghost(g))
        .step(2075299200, 36000, 3600, "AEDT", Ghost(g))
        .step(2091024000, 36000, 0, "AEST", Ghost(g))
        .step(2106748800, 36000, 3600, "AEDT", Ghost(g))
        .step(2122473600, 36000, 0, "AEST", Ghost(g))
        .step(2138198400, 36000, 3600, "AEDT", Ghost(g))
        .finish(Ghost(g))
}

/// The zone `Australia/Tasmania`.
pub fn tasmania() -> (r: Tz)
    ensures
        r.wf(),
        r.zone_name() == "Australia/Tasmania"@,
        r.table() == tables::australia::tasmania(),
{
    let ghost g = tables::australia::tasmania_rows();
    FixedTimespanSet::begin("Australia/Tasmania", 35356, 0, "LMT", Ghost(g))
        .step(-2345795356, 36000, 0, "AEST", Ghost(g))
        .step(-1680508800, 36000, 3600, "AEDT", Ghost(g))
        .step(-1665388800, 36000, 0, "AEST", Ghost(g))
        .step(-1646640000, 36000, 3600, "AEDT", Ghost(g))
        .step(-1635753600, 36000, 0, "AEST", Ghost(g))
        .step(-1615190400, 36000, 3600, "AEDT", Ghost(g))
        .step(-1604304000, 36000, 0, "AEST", Ghost(g))
        .step(-883641600, 36000, 3600, "AEDT", Ghost(g))
        .step(-876124800, 36000, 0, "AEST", Ghost(g))
        .step(-860400000, 36000, 3600, "AEDT", Ghost(g))
        .step(-844675200, 36000, 0, "AEST", Ghost(g))
        .step(-828345600, 36000, 3600, "AEDT", Ghost(g))
        .step(-813225600, 36000, 0, "AEST", Ghost(g))
        .step(-71136000, 36000, 3600, "AEDT", Ghost(g))
        .step(-55411200, 36000, 0, "AEST", Ghost(g))
        .step(-37267200, 36000, 3600, "AEDT", Ghost(g))
        .step(-25776000, 36000, 0, "AEST", Ghost(g))
        .step(-5817600, 36000, 3600, "AEDT", Ghost(g))
        .step(5673600, 36000, 0, "AEST", Ghost(g))
        .step(25632000, 36000, 3600, "AEDT", Ghost(g))
        .step(37728000, 36000, 0, "AEST", Ghost(g))
        .step(57686400, 36000, 3600, "AEDT", Ghost(g))
        .step(67968000, 36000, 0, "AEST", Ghost(g))
        .step(89136000, 36000, 3600, "AEDT", Ghost(g))
        .step(100022400, 36000, 0, "AEST", Ghost(g))
        .step(120585600, 36000, 3600, "AEDT", Ghost(g))
        .step(131472000, 36000, 0, "AEST", Ghost(g))
        .step(152035200, 36000, 3600, "AEDT", Ghost(g))
        .step(162921600, 36000, 0, "AEST", Ghost(g))
        .step(183484800, 36000, 3600, "AEDT", Ghost(g))
        .step(194976000, 36000, 0, "AEST", Ghost(g))
        .step(215539200, 36000, 3600, "AEDT", Ghost(g))
        .step(226425600, 36000, 0, "AEST", Ghost(g))
        .step(246988800, 36000, 3600, "AEDT", Ghost(g))
        .step(257875200, 36000, 0, "AEST", Ghost(g))
        .step(278438400, 36000, 3600, "AEDT", Ghost(g))
        .step(289324800, 36000, 0, "AEST", Ghost(g))
        .step(309888000, 36000, 3600, "AEDT", Ghost(g))
        .step(320774400, 36000, 0, "AEST", Ghost(g))
        .step(341337600, 36000, 3600, "AEDT", Ghost(g))
        .step(352224000, 36000, 0, "AEST", Ghost(g))
        .step(372787200, 36000, 3600, "AEDT", Ghost(g))
        .step(386092800, 36000, 0, "AEST", Ghost(g))
        .step(404841600, 36000, 3600, "AEDT", Ghost(g))
        .step(417542400, 36000, 0, "AEST", Ghost(g))
        .step(436291200, 36000, 3600, "AEDT", Ghost(g))
        .step(447177600, 36000, 0, "AEST", Ghost(g))
        .step(467740800, 36000, 3600, "AEDT", Ghost(g))
        .step(478627200, 36000, 0, "AEST", Ghost(g))
        .step(499190400, 36000, 3600, "AEDT", Ghost(g))
        .step(510076800, 36000, 0, "AEST", Ghost(g))
        .step(530035200, 36000, 3600, "AEDT", Ghost(g))
        .step(542736000, 36000, 0, "AEST", Ghost(g))
        .step(562089600, 36000, 3600, "AEDT", Ghost(g))
        .step(574790400, 36000, 0, "AEST", Ghost(g))
        .step(594144000, 36000, 3600, "AEDT", Ghost(g))
        .step(606240000, 36000, 0, "AEST", Ghost(g))
        .step(625593600, 36000, 3600, "AEDT", Ghost(g))
        .step(637689600, 36000, 0, "AEST", Ghost(g))
        .step(657043200, 36000, 3600, "AEDT", Ghost(g))
        .step(670348800, 36000, 0, "AEST", Ghost(g))
        .step(686678400, 36000, 3600, "AEDT", Ghost(g))
        .step(701798400, 36000, 0, "AEST", Ghost(g))
        .step(718128000, 36000, 3600, "AEDT", Ghost(g))
        .step(733248000, 36000, 0, "AEST", Ghost(g))
        .step(749577600, 36000, 3600, "AEDT", Ghost(g))
        .step(764697600, 36000, 0, "AEST", Ghost(g))
        .step(781027200, 36000, 3600, "AEDT", Ghost(g))
        .step(796147200, 36000, 0, "AEST", Ghost(g))
        .step(812476800, 36000, 3600, "AEDT", Ghost(g))
        .step(828201600, 36000, 0, "AEST", Ghost(g))
        .step(844531200, 36000, 3600, "AEDT", Ghost(g))
        .step(859651200, 36000, 0, "AEST", Ghost(g))
        .step(875980800, 36000, 3600, "AEDT", Ghost(g))
        .step(891100800, 36000, 0, "AEST", Ghost(g))
        .step(907430400, 36000, 3600, "AEDT", Ghost(g))
        .step(922550400, 36000, 0, "AEST", Ghost(g))
        .step(938880000, 36000, 3600, "AEDT", Ghost(g))
        .step(954000000, 36000, 0, "AEST", Ghost(g))
        .step(967305600, 36000, 3600, "AEDT", Ghost(g))
        .step(985449600, 36000, 0, "AEST", Ghost(g))
        .step(1002384000, 36000, 3600, "AEDT", Ghost(g))
        .step(1017504000, 36000, 0, "AEST", Ghost(g))
        .step(1033833600, 36000, 3600, "AEDT", Ghost(g))
        .step(1048953600, 36000, 0, "AEST", Ghost(g))
        .step(1065283200, 36000, 3600, "AEDT", Ghost(g))
        .step(1080403200, 36000, 0, "AEST", Ghost(g))
        .step(1096732800, 36000, 3600, "AEDT", Ghost(g))
        .step(1111852800, 36000, 0, "AEST", Ghost(g))
        .step(1128182400, 36000, 3600, "AEDT", Ghost(g))
        .step(1143907200, 36000, 0, "AEST", Ghost(g))
        .step(1159632000, 36000, 3600, "AEDT", Ghost(g))
        .step(1174752000, 36000, 0, "AEST", Ghost(g))
        .step(1191686400, 36000, 3600, "AEDT", Ghost(g))
        .step(1207411200, 36000, 0, "AEST", Ghost(g))
        .step(1223136000, 36000, 3600, "AEDT", Ghost(g))
        .step(1238860800, 36000, 0, "AEST", Ghost(g))
        .step(1254585600, 36000, 3600, "AEDT", Ghost(g))
        .step(1270310400, 36000, 0, "AEST", Ghost(g))
        .step(1286035200, 36000, 3600, "AEDT", Ghost(g))
        .step(1301760000, 36000, 0, "AEST", Ghost(g))
        .step(1317484800, 36000, 3600, "AEDT", Ghost(g))
        .step(1333209600, 36000, 0, "AEST", Ghost(g))
        .step(1349539200, 36000, 3600, "AEDT", Ghost(g))
        .step(1365264000, 36000, 0, "AEST", Ghost(g))
        .step(1380988800, 36000, 3600, "AEDT", Ghost(g))
        .step(1396713600, 36000, 0, "AEST", Ghost(g))
        .step(1412438400, 36000, 3600, "AEDT", Ghost(g))
        .step(1428163200, 36000, 0, "AEST", Ghost(g))
        .step(1443888000, 36000, 3600, "AEDT", Ghost(g))
        .step(1459612800, 36000, 0, "AEST", Ghost(g))
        .step(1475337600, 36000, 3600, "AEDT", Ghost(g))
        .step(1491062400, 36000, 0, "AEST", Ghost(g))
        .step(1506787200, 36000, 3600, "AEDT", Ghost(g))
        .step(1522512000, 36000, 0, "AEST", Ghost(g))
        .step(1538841600, 36000, 3600, "AEDT", Ghost(g))
        .step(1554566400, 36000, 0, "AEST", Ghost(g))
        .step(1570291200, 36000, 3600, "AEDT", Ghost(g))
        .step(1586016000, 36000, 0, "AEST", Ghost(g))
        .step(1601740800, 36000, 3600, "AEDT", Ghost(g))
        .step(1617465600, 36000, 0, "AEST", Ghost(g))
        .step(1633190400, 36000, 3600, "AEDT", Ghost(g))
        .step(1648915200, 36000, 0, "AEST", Ghost(g))
        .step(1664640000, 36000, 3600, "AEDT", Ghost(g))
        .step(1680364800, 36000, 0, "AEST", Ghost(g))
        .step(1696089600, 36000, 3600, "AEDT", Ghost(g))
        .step(1712419200, 36000, 0, "AEST", Ghost(g))
        .step(1728144000, 36000, 3600, "AEDT", Ghost(g))
        .step(1743868800, 36000, 0, "AEST", Ghost(g))
        .step(1759593600, 36000, 3600, "AEDT", Ghost(g))
        .step(1775318400, 36000, 0, "AEST", Ghost(g))
        .step(1791043200, 36000, 3600, "AEDT", Ghost(g))
        .step(1806768000, 36000, 0, "AEST", Ghost(g))
        .step(1822492800, 36000, 3600, "AEDT", Ghost(g))
        .step(1838217600, 36000, 0, "AEST", Ghost(g))
        .step(1853942400, 36000, 3600, "AEDT", Ghost(g))
        .step(1869667200, 36000, 0, "AEST", Ghost(g))
        .step(1885996800, 36000, 3600, "AEDT", Ghost(g))
        .step(1901721600, 36000, 0, "AEST", Ghost(g))
        .step(1917446400, 36000, 3600, "AEDT", Ghost(g))
        .step(1933171200, 36000, 0, "AEST", Ghost(g))
        .step(1948896000, 36000, 3600, "AEDT", Ghost(g))
        .step(1964620800, 36000, 0, "AEST", Ghost(g))
        .step(1980345600, 36000, 3600, "AEDT", Ghost(g))
        .step(1996070400, 36000, 0, "AEST", Ghost(g))
        .step(2011795200, 36000, 3600, "AEDT", Ghost(g))
        .step(2027520000, 36000, 0, "AEST", Ghost(g))
        .step(2043244800, 36000, 3600, "AEDT", Ghost(g))
        .step(2058969600, 36000, 0, "AEST", Ghost(g))
        .step(2075299200, 36000, 3600, "AEDT", Ghost(g))
        .step(2091024000, 36000, 0, "AEST", Ghost(g))
        .step(2106748800, 36000, 3600, "AEDT", Ghost(g))
        .step(2122473600, 36000, 0, "AEST", Ghost(g))
        .step(2138198400, 36000, 3600, "AEDT", Ghost(g))
        .finish(Ghost(g))
}

/// The zone `Australia/Victoria`.
pub fn victoria() -> (r: Tz)
    ensures
        r.wf(),
        r.zone_name() == "Australia/Victoria"@,
        r.table() == tables::australia::victoria(),
{
    let ghost g = tables::australia::victoria_rows();
    FixedTimespanSet::begin("Australia/Victoria", 34792, 0, "LMT", Ghost(g))
        .step(-2364111592, 36000, 0, "AEST", Ghost(g))
        .step(-1672560000, 36000, 3600, "AEDT", Ghost(g))
        .step(-1665388800, 36000, 0, "AEST", Ghost(g))
        .step(-883641600, 36000, 3600, "AEDT", Ghost(g))
        .step(-876124800, 36000, 0, "AEST", Ghost(g))
        .step(-860400000, 36000, 3600, "AEDT", Ghost(g))
        .step(-844675200, 36000, 0, "AEST", Ghost(g))
        .step(-828345600, 36000, 3600, "AEDT", Ghost(g))
        .step(-813225600, 36000, 0, "AEST", Ghost(g))
        .step(57686400, 36000, 3600, "AEDT", Ghost(g))
        .step(67968000, 36000, 0, "AEST", Ghost(g))
        .step(89136000, 36000, 3600, "AEDT", Ghost(g))
        .step(100022400, 36000, 0, "AEST", Ghost(g))
        .step(120585600, 36000, 3600, "AEDT", Ghost(g))
        .step(131472000, 36000, 0, "AEST", Ghost(g))
        .step(152035200, 36000, 3600, "AEDT", Ghost(g))
        .step(162921600, 36000, 0, "AEST", Ghost(g))
        .step(183484800, 36000, 3600, "AEDT", Ghost(g))
        .step(194976000, 36000, 0, "AEST", Ghost(g))
        .step(215539200, 36000, 3600, "AEDT", Ghost(g))
        .step(226425600, 36000, 0, "AEST", Ghost(g))
        .step(246988800, 36000, 3600, "AEDT", Ghost(g))
        .step(257875200, 36000, 0, "AEST", Ghost(g))
        .step(278438400, 36000, 3600, "AEDT", Ghost(g))
        .step(289324800, 36000, 0, "AEST", Ghost(g))
        .step(309888000, 36000, 3600, "AEDT", Ghost(g))
        .step(320774400, 36000, 0, "AEST", Ghost(g))
        .step(341337600, 36000, 3600, "AEDT", Ghost(g))
        .step(352224000, 36000, 0, "AEST", Ghost(g))
        .step(372787200, 36000, 3600, "AEDT", Ghost(g))
        .step(384278400, 36000, 0, "AEST", Ghost(g))
        .step(404841600, 36000, 3600, "AEDT", Ghost(g))
        .step(415728000, 36000, 0, "AEST", Ghost(g))
        .step(436291200, 36000, 3600, "AEDT", Ghost(g))
        .step(447177600, 36000, 0, "AEST", Ghost(g))
        .step(467740800, 36000, 3600, "AEDT", Ghost(g))
        .step(478627200, 36000, 0, "AEST", Ghost(g))
        .step(499190400, 36000, 3600, "AEDT", Ghost(g))
        .step(511286400, 36000, 0, "AEST", Ghost(g))
        .step(530035200, 36000, 3600, "AEDT", Ghost(g))
        .step(542736000, 36000, 0, "AEST", Ghost(g))
        .step(561484800, 36000, 3600, "AEDT", Ghost(g))
        .step(574790400, 36000, 0, "AEST", Ghost(g))
        .step(594144000, 36000, 3600, "AEDT", Ghost(g))
        .step(606240000, 36000, 0, "AEST", Ghost(g))
        .step(625593600, 36000, 3600, "AEDT", Ghost(g))
        .step(637689600, 36000, 0, "AEST", Ghost(g))
        .step(657043200, 36000, 3600, "AEDT", Ghost(g))
        .step(667929600, 36000, 0, "AEST", Ghost(g))
        .step(688492800, 36000, 3600, "AEDT", Ghost(g))
        .step(699379200, 36000, 0, "AEST", Ghost(g))
        .step(719942400, 36000, 3600, "AEDT", Ghost(g))
        .step(731433600, 36000, 0, "AEST", Ghost(g))
        .step(751996800, 36000, 3600, "AEDT", Ghost(g))
        .step(762883200, 36000, 0, "AEST", Ghost(g))
        .step(783446400, 36000, 3600, "AEDT", Ghost(g))
        .step(796147200, 36000, 0, "AEST", Ghost(g))
        .step(814896000, 36000, 3600, "AEDT", Ghost(g))
        .step(828201600, 36000, 0, "AEST", Ghost(g))
        .step(846345600, 36000, 3600, "AEDT", Ghost(g))
        .step(859651200, 36000, 0, "AEST", Ghost(g))
        .step(877795200, 36000, 3600, "AEDT", Ghost(g))
        .step(891100800, 36000, 0, "AEST", Ghost(g))
        .step(909244800, 36000, 3600, "AEDT", Ghost(g))
        .step(922550400, 36000, 0, "AEST", Ghost(g))
        .step(941299200, 36000, 3600, "AEDT", Ghost(g))
        .step(954000000, 36000, 0, "AEST", Ghost(g))
        .step(967305600, 36000, 3600, "AEDT", Ghost(g))
        .step(985449600, 36000, 0, "AEST", Ghost(g))
        .step(1004198400, 36000, 3600, "AEDT", Ghost(g))
        .step(1017504000, 36000, 0, "AEST", Ghost(g))
        .step(1035648000, 36000, 3600, "AEDT", Ghost(g))
        .step(1048953600, 36000, 0, "AEST", Ghost(g))
        .step(1067097600, 36000, 3600, "AEDT", Ghost(g))
        .step(1080403200, 36000, 0, "AEST", Ghost(g))
        .step(1099152000, 36000, 3600, "AEDT", Ghost(g))
        .step(1111852800, 36000, 0, "AEST", Ghost(g))
        .step(1130601600, 36000, 3600, "AEDT", Ghost(g))
        .step(1143907200, 36000, 0, "AEST", Ghost(g))
        .step(1162051200, 36000, 3600, "AEDT", Ghost(g))
        .step(1174752000, 36000, 0, "AEST", Ghost(g))
        .step(1193500800, 36000, 3600, "AEDT", Ghost(g))
        .step(1207411200, 36000, 0, "AEST", Ghost(g))
        .step(1223136000, 36000, 3600, "AEDT", Ghost(g))
        .step(1238860800, 36000, 0, "AEST", Ghost(g))
        .step(1254585600, 36000, 3600, "AEDT", Ghost(g))
        .step(1270310400, 36000, 0, "AEST", Ghost(g))
        .step(1286035200, 36000, 3600, "AEDT", Ghost(g))
        .step(1301760000, 36000, 0, "AEST", Ghost(g))
        .step(1317484800, 36000, 3600, "AEDT", Ghost(g))
        .step(1333209600, 36000, 0, "AEST", Ghost(g))
        .step(1349539200, 36000, 3600, "AEDT", Ghost(g))
        .step(1365264000, 36000, 0, "AEST", Ghost(g))
        .step(1380988800, 36000, 3600, "AEDT", Ghost(g))
        .step(1396713600, 36000, 0, "AEST", Ghost(g))
        .step(1412438400, 36000, 3600, "AEDT", Ghost(g))
        .step(1428163200, 36000, 0, "AEST", Ghost(g))
        .step(1443888000, 36000, 3600, "AEDT", Ghost(g))
        .step(1459612800, 36000, 0, "AEST", Ghost(g))
        .step(1475337600, 36000, 3600, "AEDT", Ghost(g))
        .step(1491062400, 36000, 0, "AEST", Ghost(g))
        .step(1506787200, 36000, 3600, "AEDT", Ghost(g))
        .step(1522512000, 36000, 0, "AEST", Ghost(g))
        .step(1538841600, 36000, 3600, "AEDT", Ghost(g))
        .step(1554566400, 36000, 0, "AEST", Ghost(g))
        .step(1570291200, 36000, 3600, "AEDT", Ghost(g))
        .step(1586016000, 36000, 0, "AEST", Ghost(g))
        .step(1601740800, 36000, 3600, "AEDT", Ghost(g))
        .step(1617465600, 36000, 0, "AEST", Ghost(g))
        .step(1633190400, 36000, 3600, "AEDT", Ghost(g))
        .step(1648915200, 36000, 0, "AEST", Ghost(g))
        .step(1664640000, 36000, 3600, "AEDT", Ghost(g))
        .step(1680364800, 36000, 0, "AEST", Ghost(g))
        .step(1696089600, 36000, 3600, "AEDT", Ghost(g))
        .step(1712419200, 36000, 0, "AEST", Ghost(g))
        .step(1728144000, 36000, 3600, "AEDT", Ghost(g))
        .step(1743868800, 36000, 0, "AEST", Ghost(g))
        .step(1759593600, 36000, 3600, "AEDT", Ghost(g))
        .step(1775318400, 36000, 0, "AEST", Ghost(g))
        .step(1791043200, 36000, 3600, "AEDT", Ghost(g))
        .step(1806768000, 36000, 0, "AEST", Ghost(g))
        .step(1822492800, 36000, 3600, "AEDT", Ghost(g))
        .step(1838217600, 36000, 0, "AEST", Ghost(g))
        .step(1853942400, 36000, 3600, "AEDT", Ghost(g))
        .step(1869667200, 36000, 0, "AEST", Ghost(g))
        .step(1885996800, 36000, 3600, "AEDT", Ghost(g))
        .step(1901721600, 36000, 0, "AEST", Ghost(g))
        .step(1917446400, 36000, 3600, "AEDT", Ghost(g))
        .step(1933171200, 36000, 0, "AEST", Ghost(g))
        .step(1948896000, 36000, 3600, "AEDT", Ghost(g))
        .step(1964620800, 36000, 0, "AEST", Ghost(g))
        .step(1980345600, 36000, 3600, "AEDT", Ghost(g))
        .step(1996070400, 36000, 0, "AEST", Ghost(g))
        .step(2011795200, 36000, 3600, "AEDT", Ghost(g))
        .step(2027520000, 36000, 0, "AEST", Ghost(g))
        .step(2043244800, 36000, 3600, "AEDT", Ghost(g))
        .step(2058969600, 36000, 0, "AEST", Ghost(g))
        .step(2075299200, 36000, 3600, "AEDT", Ghost(g))
        .step(2091024000, 36000, 0, "AEST", Ghost(g))
        .step(2106748800, 36000, 3600, "AEDT", Ghost(g))
        .step(2122473600, 36000, 0, "AEST", Ghost(g))
        .step(2138198400, 36000, 3600, "AEDT", Ghost(g))
        .finish(Ghost(g))
}

/// The zone `Australia/West`.
pub fn west() -> (r: Tz)
    ensures
        r.wf(),
        r.zone_name() == "Australia/West"@,
        r.table() == tables::australia::west(),
{
    let ghost g = tables::australia::west_rows();
    FixedTimespanSet::begin("Australia/West", 27804, 0, "LMT", Ghost(g))
        .step(-2337925404, 28800, 0, "AWST", Ghost(g))
        .step(-1672552800, 28800, 3600, "AWDT", Ghost(g))
        .step(-1665381600, 28800, 0, "AWST", Ghost(g))
        .step(-883634400, 28800, 3600, "AWDT", Ghost(g))
        .step(-876117600, 28800, 0, "AWST", Ghost(g))
        .step(-860392800, 28800, 3600, "AWDT", Ghost(g))
        .step(-844668000, 28800, 0, "AWST", Ghost(g))
        .step(152042400, 28800, 3600, "AWDT", Ghost(g))
        .step(162928800, 28800, 0, "AWST", Ghost(g))
        .step(436298400, 28800, 3600, "AWDT", Ghost(g))
        .step(447184800, 28800, 0, "AWST", Ghost(g))
        .step(690314400, 28800, 3600, "AWDT", Ghost(g))
        .step(699386400, 28800, 0, "AWST", Ghost(g))
        .step(1165082400, 28800, 3600, "AWDT", Ghost(g))
        .step(1174759200, 28800, 0, "AWST", Ghost(g))
        .step(1193508000, 28800, 3600, "AWDT", Ghost(g))
        .step(1206813600, 28800, 0, "AWST", Ghost(g))
        .step(1224957600, 28800, 3600, "AWDT", Ghost(g))
        .step(1238263200, 28800, 0, "AWST", Ghost(g))
        .finish(Ghost(g))
}

/// The zone `Australia/Yancowinna`.
pub fn yancowinna() -> (r: Tz)
    ensures
        r.wf(),
        r.zone_name() == "Australia/Yancowinna"@,
        r.table() == tables::australia::yancowinna(),
{
    let ghost g = tables::australia::yancowinna_rows();
    FixedTimespanSet::begin("Australia/Yancowinna", 33948, 0, "LMT", Ghost(g))
        .step(-2364110748, 36000, 0, "AEST", Ghost(g))
        .step(-2314951200, 32400, 0, "ACST", Ghost(g))
        .step(-2230189200, 34200, 0, "ACST", Ghost(g))
        .step(-1672558200, 34200, 3600, "ACDT", Ghost(g))
        .step(-1665387000, 34200, 0, "ACST", Ghost(g))
        .step(-883639800, 34200, 3600, "ACDT", Ghost(g))
        .step(-876123000, 34200, 0, "ACST", Ghost(g))
        .step(-860398200, 34200, 3600, "ACDT", Ghost(g))
        .step(-844673400, 34200, 0, "ACST", Ghost(g))
        .step(-828343800, 34200, 3600, "ACDT", Ghost(g))
        .step(-813223800, 34200, 0, "ACST", Ghost(g))
        .step(57688200, 34200, 3600, "ACDT", Ghost(g))
        .step(67969800, 34200, 0, "ACST", Ghost(g))
        .step(89137800, 34200, 3600, "ACDT", Ghost(g))
        .step(100024200, 34200, 0, "ACST", Ghost(g))
        .step(120587400, 34200, 3600, "ACDT", Ghost(g))
        .step(131473800, 34200, 0, "ACST", Ghost(g))
        .step(152037000, 34200, 3600, "ACDT", Ghost(g))
        .step(162923400, 34200, 0, "ACST", Ghost(g))
        .step(183486600, 34200, 3600, "ACDT", Ghost(g))
        .step(194977800, 34200, 0, "ACST", Ghost(g))
        .step(215541000, 34200, 3600, "ACDT", Ghost(g))
        .step(226427400, 34200, 0, "ACST", Ghost(g))
        .step(246990600, 34200, 3600, "ACDT", Ghost(g))
        .step(257877000, 34200, 0, "ACST", Ghost(g))
        .step(278440200, 34200, 3600, "ACDT", Ghost(g))
        .step(289326600, 34200, 0, "ACST", Ghost(g))
        .step(309889800, 34200, 3600, "ACDT", Ghost(g))
        .step(320776200, 34200, 0, "ACST", Ghost(g))
        .step(341339400, 34200, 3600, "ACDT", Ghost(g))
        .step(352225800, 34200, 0, "ACST", Ghost(g))
        .step(372789000, 34200, 3600, "ACDT", Ghost(g))
        .step(386699400, 34200, 0, "ACST", Ghost(g))
        .step(404843400, 34200, 3600, "ACDT", Ghost(g))
        .step(415729800, 34200, 0, "ACST", Ghost(g))
        .step(436293000, 34200, 3600, "ACDT", Ghost(g))
        .step(447179400, 34200, 0, "ACST", Ghost(g))
        .step(467742600, 34200, 3600, "ACDT", Ghost(g))
        .step(478629000, 34200, 0, "ACST", Ghost(g))
        .step(499192200, 34200, 3600, "ACDT", Ghost(g))
        .step(511288200, 34200, 0, "ACST", Ghost(g))
        .step(530037000, 34200, 3600, "ACDT", Ghost(g))
        .step(542737800, 34200, 0, "ACST", Ghost(g))
        .step(562091400, 34200, 3600, "ACDT", Ghost(g))
        .step(574792200, 34200, 0, "ACST", Ghost(g))
        .step(594145800, 34200, 3600, "ACDT", Ghost(g))
        .step(606241800, 34200, 0, "ACST", Ghost(g))
        .step(625595400, 34200, 3600, "ACDT", Ghost(g))
        .step(636481800, 34200, 0, "ACST", Ghost(g))
        .step(657045000, 34200, 3600, "ACDT", Ghost(g))
        .step(667931400, 34200, 0, "ACST", Ghost(g))
        .step(688494600, 34200, 3600, "ACDT", Ghost(g))
        .step(699381000, 34200, 0, "ACST", Ghost(g))
        .step(719944200, 34200, 3600, "ACDT", Ghost(g))
        .step(731435400, 34200, 0, "ACST", Ghost(g))
        .step(751998600, 34200, 3600, "ACDT", Ghost(g))
        .step(762885000, 34200, 0, "ACST", Ghost(g))
        .step(783448200, 34200, 3600, "ACDT", Ghost(g))
        .step(794334600, 34200, 0, "ACST", Ghost(g))
        .step(814897800, 34200, 3600, "ACDT", Ghost(g))
        .step(828203400, 34200, 0, "ACST", Ghost(g))
        .step(846347400, 34200, 3600, "ACDT", Ghost(g))
        .step(859653000, 34200, 0, "ACST", Ghost(g))
        .step(877797000, 34200, 3600, "ACDT", Ghost(g))
        .step(891102600, 34200, 0, "ACST", Ghost(g))
        .step(909246600, 34200, 3600, "ACDT", Ghost(g))
        .step(922552200, 34200, 0, "ACST", Ghost(g))
        .step(941301000, 34200, 3600, "ACDT", Ghost(g))
        .step(954001800, 34200, 0, "ACST", Ghost(g))
        .step(972750600, 34200, 3600, "ACDT", Ghost(g))
        .step(985451400, 34200, 0, "ACST", Ghost(g))
        .step(1004200200, 34200, 3600, "ACDT", Ghost(g))
        .step(1017505800, 34200, 0, "ACST", Ghost(g))
        .step(1035649800, 34200, 3600, "ACDT", Ghost(g))
        .step(1048955400, 34200, 0, "ACST", Ghost(g))
        .step(1067099400, 34200, 3600, "ACDT", Ghost(g))
        .step(1080405000, 34200, 0, "ACST", Ghost(g))
        .step(1099153800, 34200, 3600, "ACDT", Ghost(g))
        .step(1111854600, 34200, 0, "ACST", Ghost(g))
        .step(1130603400, 34200, 3600, "ACDT", Ghost(g))
        .step(1143909000, 34200, 0, "ACST", Ghost(g))
        .step(1162053000, 34200, 3600, "ACDT", Ghost(g))
        .step(1174753800, 34200, 0, "ACST", Ghost(g))
        .step(1193502600, 34200, 3600, "ACDT", Ghost(g))
        .step(1207413000, 34200, 0, "ACST", Ghost(g))
        .step(1223137800, 34200, 3600, "ACDT", Ghost(g))
        .step(1238862600, 34200, 0, "ACST", Ghost(g))
        .step(1254587400, 34200, 3600, "ACDT", Ghost(g))
        .step(1270312200, 34200, 0, "ACST", Ghost(g))
        .step(1286037000, 34200, 3600, "ACDT", Ghost(g))
        .step(1301761800, 34200, 0, "ACST", Ghost(g))
        .step(1317486600, 34200, 3600, "ACDT", Ghost(g))
        .step(1333211400, 34200, 0, "ACST", Ghost(g))
        .step(1349541000, 34200, 3600, "ACDT", Ghost(g))
        .step(1365265800, 34200, 0, "ACST", Ghost(g))
        .step(1380990600, 34200, 3600, "ACDT", Ghost(g))
        .step(1396715400, 34200, 0, "ACST", Ghost(g))
        .step(1412440200, 34200, 3600, "ACDT", Ghost(g))
        .step(1428165000, 34200, 0, "ACST", Ghost(g))
        .step(1443889800, 34200, 3600, "ACDT", Ghost(g))
        .step(1459614600, 34200, 0, "ACST", Ghost(g))
        .step(1475339400, 34200, 3600, "ACDT", Ghost(g))
        .step(1491064200, 34200, 0, "ACST", Ghost(g))
        .step(1506789000, 34200, 3600, "ACDT", Ghost(g))
        .step(1522513800, 34200, 0, "ACST", Ghost(g))
        .step(1538843400, 34200, 3600, "ACDT", Ghost(g))
        .step(1554568200, 34200, 0, "ACST", Ghost(g))
        .step(1570293000, 34200, 3600, "ACDT", Ghost(g))
        .step(1586017800, 34200, 0, "ACST", Ghost(g))
        .step(1601742600, 34200, 3600, "ACDT", Ghost(g))
        .step(1617467400, 34200, 0, "ACST", Ghost(g))
        .step(1633192200, 34200, 3600, "ACDT", Ghost(g))
        .step(1648917000, 34200, 0, "ACST", Ghost(g))
        .step(1664641800, 34200, 3600, "ACDT", Ghost(g))
        .step(1680366600, 34200, 0, "ACST", Ghost(g))
        .step(1696091400, 34200, 3600, "ACDT", Ghost(g))
        .step(1712421000, 34200, 0, "ACST", Ghost(g))
        .step(1728145800, 34200, 3600, "ACDT", Ghost(g))
        .step(1743870600, 34200, 0, "ACST", Ghost(g))
        .step(1759595400, 34200, 3600, "ACDT", Ghost(g))
        .step(1775320200, 34200, 0, "ACST", Ghost(g))
        .step(1791045000, 34200, 3600, "ACDT", Ghost(g))
        .step(1806769800, 34200, 0, "ACST", Ghost(g))
        .step(1822494600, 34200, 3600, "ACDT", Ghost(g))
        .step(1838219400, 34200, 0, "ACST", Ghost(g))
        .step(1853944200, 34200, 3600, "ACDT", Ghost(g))
        .step(1869669000, 34200, 0, "ACST", Ghost(g))
        .step(1885998600, 34200, 3600, "ACDT", Ghost(g))
        .step(1901723400, 34200, 0, "ACST", Ghost(g))
        .step(1917448200, 34200, 3600, "ACDT", Ghost(g))
        .step(1933173000, 34200, 0, "ACST", Ghost(g))
        .step(1948897800, 34200, 3600, "ACDT", Ghost(g))
        .step(1964622600, 34200, 0, "ACST", Ghost(g))
        .step(1980347400, 34200, 3600, "ACDT", Ghost(g))
        .step(1996072200, 34200, 0, "ACST", Ghost(g))
        .step(2011797000, 34200, 3600, "ACDT", Ghost(g))
        .step(2027521800, 34200, 0, "ACST", Ghost(g))
        .step(2043246600, 34200, 3600, "ACDT", Ghost(g))
        .step(2058971400, 34200, 0, "ACST", Ghost(g))
        .step(2075301000, 34200, 3600, "ACDT", Ghost(g))
        .step(2091025800, 34200, 0, "ACST", Ghost(g))
        .step(2106750600, 34200, 3600, "ACDT", Ghost(g))
        .step(2122475400, 34200, 0, "ACST", Ghost(g))
        .step(2138200200, 34200, 3600, "ACDT", Ghost(g))
        .finish(Ghost(g))
}

} // verus!
