//! Zones of Antarctica.

use crate::interface::TimeZone;
use crate::timezone_impl::{FixedTimespanSet, Tz};
use crate::timezones::tables;
use vstd::prelude::*;

verus! {

/// The zone `Antarctica/Casey`.
pub fn casey() -> (r: Tz)
    ensures
        r.wf(),
        r.zone_name() == "Antarctica/Casey"@,
        r.table() == tables::antarctica::casey(),
{
    let ghost g = tables::antarctica::casey_rows();
    FixedTimespanSet::begin("Antarctica/Casey", 0, 0, "-00", Ghost(g))
        .step(-31536000, 28800, 0, "+08", Ghost(g))
        .step(1255802400, 39600, 0, "+11", Ghost(g))
        .step(1267714800, 28800, 0, "+08", Ghost(g))
        .step(1319738400, 39600, 0, "+11", Ghost(g))
        .step(1329843600, 28800, 0, "+08", Ghost(g))
        .step(1477065600, 39600, 0, "+11", Ghost(g))
        .step(1520701200, 28800, 0, "+08", Ghost(g))
        .step(1538856000, 39600, 0, "+11", Ghost(g))
        .step(1552752000, 28800, 0, "+08", Ghost(g))
        .step(1570129200, 39600, 0, "+11", Ghost(g))
        .step(1583596800, 28800, 0, "+08", Ghost(g))
        .step(1601740860, 39600, 0, "+11", Ghost(g))
        .step(1615640400, 28800, 0, "+08", Ghost(g))
        .step(1633190460, 39600, 0, "+11", Ghost(g))
        .step(1647090000, 28800, 0, "+08", Ghost(g))
        .step(1664640060, 39600, 0, "+11", Ghost(g))
        .step(1678291200, 28800, 0, "+08", Ghost(g))
        .step(2147483647, 28800, 0, "+08", Ghost(g))
        .finish(Ghost(g))
}

/// The zone `Antarctica/Davis`.
pub fn davis() -> (r: Tz)
    ensures
        r.wf(),
        r.zone_name() == "Antarctica/Davis"@,
        r.table() == tables::antarctica::davis(),
{
    let ghost g = tables::antarctica::davis_rows();
    FixedTimespanSet::begin("Antarctica/Davis", 0, 0, "-00", Ghost(g))
        .step(-409190400, 25200, 0, "+07", Ghost(g))
        .step(-163062000, 0, 0, "-00", Ghost(g))
        .step(-28857600, 25200, 0, "+07", Ghost(g))
        .step(1255806000, 18000, 0, "+05", Ghost(g))
        .step(1268251200, 25200, 0, "+07", Ghost(g))
        .step(1319742000, 18000, 0, "+05", Ghost(g))
        .step(1329854400, 25200, 0, "+07", Ghost(g))
        .step(2147483647, 25200, 0, "+07", Ghost(g))
        .finish(Ghost(g))
}

/// The zone `Antarctica/DumontDUrville`.
pub fn dumontdurville() -> (r: Tz)
    ensures
        r.wf(),
        r.zone_name() == "Antarctica/DumontDUrville"@,
        r.table() == tables::antarctica::dumontdurville(),
{
    let ghost g = tables::antarctica::dumontdurville_rows();
    FixedTimespanSet::begin("Antarctica/DumontDUrville", 0, 0, "-00", Ghost(g))
        .step(-725846400, 36000, 0, "+10", Ghost(g))
        .step(-566992800, 0, 0, "-00", Ghost(g))
        .step(-415497600, 36000, 0, "+10", Ghost(g))
        .step(2147483647, 36000, 0, "+10", Ghost(g))
        .finish(Ghost(g))
}

/// The zone `Antarctica/Macquarie`.
pub fn macquarie() -> (r: Tz)
    ensures
        r.wf(),
        r.zone_name() == "Antarctica/Macquarie"@,
        r.table() == tables::antarctica::macquarie(),
{
    let ghost g = tables::antarctica::macquarie_rows();
    FixedTimespanSet::begin("Antarctica/Macquarie", 0, 0, "-00", Ghost(g))
        .step(-2214259200, 36000, 0, "AEST", Ghost(g))
        .step(-1680508800, 36000, 3600, "AEDT", Ghost(g))
        .step(-1665388800, 36000, 0, "AEST", Ghost(g))
        .step(-1601719200, 0, 0, "-00", Ghost(g))
        .step(-687052800, 36000, 0, "AEST", Ghost(g))
        .step(-71136000, 36000, 3600, "AEDT", Ghost(g))
        .step(-55411200, 36000, 0, "AEST", Ghost(g))
        .step(-37267200, 36000, 3600, "AEDT", Ghost(g))
        .step(-25776000, 36000, 0, "AEST", Ghost(g))
        .step(-5817600, 36000, 3600, "AEDT", Ghost(g))
        .step(5673600, 36000, 0, "AEST", Ghost(g))
        .step(25632000, 36000, 3600, "AEDT", Ghost(g))
        .step(37728000, 36000, 0, "AEST", Ghost(g))
        .step(57686400, 36000, 3600, "AEDT", Ghost(g))
        .step(67968000, 36000, 0, "AEST", Ghost(g))
        .step(89136000, 36000, 3600, "AEDT", Ghost(g))
        .step(100022400, 36000, 0, "AEST", Ghost(g))
        .step(120585600, 36000, 3600, "AEDT", Ghost(g))
        .step(131472000, 36000, 0, "AEST", Ghost(g))
        .step(152035200, 36000, 3600, "AEDT", Ghost(g))
        .step(162921600, 36000, 0, "AEST", Ghost(g))
        .step(183484800, 36000, 3600, "AEDT", Ghost(g))
        .step(194976000, 36000, 0, "AEST", Ghost(g))
        .step(215539200, 36000, 3600, "AEDT", Ghost(g))
        .step(226425600, 36000, 0, "AEST", Ghost(g))
        .step(246988800, 36000, 3600, "AEDT", Ghost(g))
        .step(257875200, 36000, 0, "AEST", Ghost(g))
        .step(278438400, 36000, 3600, "AEDT", Ghost(g))
        .step(289324800, 36000, 0, "AEST", Ghost(g))
        .step(309888000, 36000, 3600, "AEDT", Ghost(g))
        .step(320774400, 36000, 0, "AEST", Ghost(g))
        .step(341337600, 36000, 3600, "AEDT", Ghost(g))
        .step(352224000, 36000, 0, "AEST", Ghost(g))
        .step(372787200, 36000, 3600, "AEDT", Ghost(g))
        .step(386092800, 36000, 0, "AEST", Ghost(g))
        .step(404841600, 36000, 3600, "AEDT", Ghost(g))
        .step(417542400, 36000, 0, "AEST", Ghost(g))
        .step(436291200, 36000, 3600, "AEDT", Ghost(g))
        .step(447177600, 36000, 0, "AEST", Ghost(g))
        .step(467740800, 36000, 3600, "AEDT", Ghost(g))
        .step(478627200, 36000, 0, "AEST", Ghost(g))
        .step(499190400, 36000, 3600, "AEDT", Ghost(g))
        .step(510076800, 36000, 0, "AEST", Ghost(g))
        .step(530035200, 36000, 3600, "AEDT", Ghost(g))
        .step(542736000, 36000, 0, "AEST", Ghost(g))
        .step(562089600, 36000, 3600, "AEDT", Ghost(g))
        .step(574790400, 36000, 0, "AEST", Ghost(g))
        .step(594144000, 36000, 3600, "AEDT", Ghost(g))
        .step(606240000, 36000, 0, "AEST", Ghost(g))
        .step(625593600, 36000, 3600, "AEDT", Ghost(g))
        .step(637689600, 36000, 0, "AEST", Ghost(g))
        .step(657043200, 36000, 3600, "AEDT", Ghost(g))
        .step(670348800, 36000, 0, "AEST", Ghost(g))
        .step(686678400, 36000, 3600, "AEDT", Ghost(g))
        .step(701798400, 36000, 0, "AEST", Ghost(g))
        .step(718128000, 36000, 3600, "AEDT", Ghost(g))
        .step(733248000, 36000, 0, "AEST", Ghost(g))
        .step(749577600, 36000, 3600, "AEDT", Ghost(g))
        .step(764697600, 36000, 0, "AEST", Ghost(g))
        .step(781027200, 36000, 3600, "AEDT", Ghost(g))
        .step(796147200, 36000, 0, "AEST", Ghost(g))
        .step(812476800, 36000, 3600, "AEDT", Ghost(g))
        .step(828201600, 36000, 0, "AEST", Ghost(g))
        .step(844531200, 36000, 3600, "AEDT", Ghost(g))
        .step(859651200, 36000, 0, "AEST", Ghost(g))
        .step(875980800, 36000, 3600, "AEDT", Ghost(g))
        .step(891100800, 36000, 0, "AEST", Ghost(g))
        .step(907430400, 36000, 3600, "AEDT", Ghost(g))
        .step(922550400, 36000, 0, "AEST", Ghost(g))
        .step(938880000, 36000, 3600, "AEDT", Ghost(g))
        .step(954000000, 36000, 0, "AEST", Ghost(g))
        .step(967305600, 36000, 3600, "AEDT", Ghost(g))
        .step(985449600, 36000, 0, "AEST", Ghost(g))
        .step(1002384000, 36000, 3600, "AEDT", Ghost(g))
        .step(1017504000, 36000, 0, "AEST", Ghost(g))
        .step(1033833600, 36000, 3600, "AEDT", Ghost(g))
        .step(1048953600, 36000, 0, "AEST", Ghost(g))
        .step(1065283200, 36000, 3600, "AEDT", Ghost(g))
        .step(1080403200, 36000, 0, "AEST", Ghost(g))
        .step(1096732800, 36000, 3600, "AEDT", Ghost(g))
        .step(1111852800, 36000, 0, "AEST", Ghost(g))
        .step(1128182400, 36000, 3600, "AEDT", Ghost(g))
        .step(1143907200, 36000, 0, "AEST", Ghost(g))
        .step(1159632000, 36000, 3600, "AEDT", Ghost(g))
        .step(1174752000, 36000, 0, "AEST", Ghost(g))
        .step(1191686400, 36000, 3600, "AEDT", Ghost(g))
        .step(1207411200, 36000, 0, "AEST", Ghost(g))
        .step(1223136000, 36000, 3600, "AEDT", Ghost(g))
        .step(1238860800, 36000, 0, "AEST", Ghost(g))
        .step(1254585600, 36000, 3600, "AEDT", Ghost(g))
        .step(1301760000, 36000, 0, "AEST", Ghost(g))
        .step(1317484800, 36000, 3600, "AEDT", Ghost(g))
        .step(1333209600, 36000, 0, "AEST", Ghost(g))
        .step(1349539200, 36000, 3600, "AEDT", Ghost(g))
        .step(1365264000, 36000, 0, "AEST", Ghost(g))
        .step(1380988800, 36000, 3600, "AEDT", Ghost(g))
        .step(1396713600, 36000, 0, "AEST", Ghost(g))
        .step(1412438400, 36000, 3600, "AEDT", Ghost(g))
        .step(1428163200, 36000, 0, "AEST", Ghost(g))
        .step(1443888000, 36000, 3600, "AEDT", Ghost(g))
        .step(1459612800, 36000, 0, "AEST", Ghost(g))
        .step(1475337600, 36000, 3600, "AEDT", Ghost(g))
        .step(1491062400, 36000, 0, "AEST", Ghost(g))
        .step(1506787200, 36000, 3600, "AEDT", Ghost(g))
        .step(1522512000, 36000, 0, "AEST", Ghost(g))
        .step(1538841600, 36000, 3600, "AEDT", Ghost(g))
        .step(1554566400, 36000, 0, "AEST", Ghost(g))
        .step(1570291200, 36000, 3600, "AEDT", Ghost(g))
        .step(1586016000, 36000, 0, "AEST", Ghost(g))
        .step(1601740800, 36000, 3600, "AEDT", Ghost(g))
        .step(1617465600, 36000, 0, "AEST", Ghost(g))
        .step(1633190400, 36000, 3600, "AEDT", Ghost(g))
        .step(1648915200, 36000, 0, "AEST", Ghost(g))
        .step(1664640000, 36000, 3600, "AEDT", Ghost(g))
        .step(1680364800, 36000, 0, "AEST", Ghost(g))
        .step(1696089600, 36000, 3600, "AEDT", Ghost(g))
        .step(1712419200, 36000, 0, "AEST", Ghost(g))
        .step(1728144000, 36000, 3600, "AEDT", Ghost(g))
        .step(1743868800, 36000, 0, "AEST", Ghost(g))
        .step(1759593600, 36000, 3600, "AEDT", Ghost(g))
        .step(1775318400, 36000, 0, "AEST", Ghost(g))
        .step(1791043200, 36000, 3600, "AEDT", Ghost(g))
        .step(1806768000, 36000, 0, "AEST", Ghost(g))
        .step(1822492800, 36000, 3600, "AEDT", Ghost(g))
        .step(1838217600, 36000, 0, "AEST", Ghost(g))
        .step(1853942400, 36000, 3600, "AEDT", Ghost(g))
        .step(1869667200, 36000, 0, "AEST", Ghost(g))
        .step(1885996800, 36000, 3600, "AEDT", Ghost(g))
        .step(1901721600, 36000, 0, "AEST", Ghost(g))
        .step(1917446400, 36000, 3600, "AEDT", Ghost(g))
        .step(1933171200, 36000, 0, "AEST", Ghost(g))
        .step(1948896000, 36000, 3600, "AEDT", Ghost(g))
        .step(1964620800, 36000, 0, "AEST", Ghost(g))
        .step(1980345600, 36000, 3600, "AEDT", Ghost(g))
        .step(1996070400, 36000, 0, "AEST", Ghost(g))
        .step(2011795200, 36000, 3600, "AEDT", Ghost(g))
        .step(2027520000, 36000, 0, "AEST", Ghost(g))
        .step(2043244800, 36000, 3600, "AEDT", Ghost(g))
        .step(2058969600, 36000, 0, "AEST", Ghost(g))
        .step(2075299200, 36000, 3600, "AEDT", Ghost(g))
        .step(2091024000, 36000, 0, "AEST", Ghost(g))
        .step(2106748800, 36000, 3600, "AEDT", Ghost(g))
        .step(2122473600, 36000, 0, "AEST", Ghost(g))
        .step(2138198400, 36000, 3600, "AEDT", Ghost(g))
        .finish(Ghost(g))
}

/// The zone `Antarctica/Mawson`.
pub fn mawson() -> (r: Tz)
    ensures
        r.wf(),
        r.zone_name() == "Antarctica/Mawson"@,
        r.table() == tables::antarctica::mawson(),
{
    let ghost g = tables::antarctica::mawson_rows();
    FixedTimespanSet::begin("Antarctica/Mawson", 0, 0, "-00", Ghost(g))
        .step(-501206400, 21600, 0, "+06", Ghost(g))
        .step(1255809600, 18000, 0, "+05", Ghost(g))
        .step(2147483647, 18000, 0, "+05", Ghost(g))
        .finish(Ghost(g))
}

/// The zone `Antarctica/McMurdo`.
pub fn mcmurdo() -> (r: Tz)
    ensures
        r.wf(),
        r.zone_name() == "Antarctica/McMurdo"@,
        r.table() == tables::antarctica::mcmurdo(),
{
    let ghost g = tables::antarctica::mcmurdo_rows();
    FixedTimespanSet::begin("Antarctica/McMurdo", 0, 0, "-00", Ghost(g))
        .step(-441849600, 43200, 0, "NZST", Ghost(g))
        .step(152632800, 43200, 3600, "NZDT", Ghost(g))
        .step(162309600, 43200, 0, "NZST", Ghost(g))
        .step(183477600, 43200, 3600, "NZDT", Ghost(g))
        .step(194968800, 43200, 0, "NZST", Ghost(g))
        .step(215532000, 43200, 3600, "NZDT", Ghost(g))
        .step(226418400, 43200, 0, "NZST", Ghost(g))
        .step(246981600, 43200, 3600, "NZDT", Ghost(g))
        .step(257868000, 43200, 0, "NZST", Ghost(g))
        .step(278431200, 43200, 3600, "NZDT", Ghost(g))
        .step(289317600, 43200, 0, "NZST", Ghost(g))
        .step(309880800, 43200, 3600, "NZDT", Ghost(g))
        .step(320767200, 43200, 0, "NZST", Ghost(g))
        .step(341330400, 43200, 3600, "NZDT", Ghost(g))
        .step(352216800, 43200, 0, "NZST", Ghost(g))
        .step(372780000, 43200, 3600, "NZDT", Ghost(g))
        .step(384271200, 43200, 0, "NZST", Ghost(g))
        .step(404834400, 43200, 3600, "NZDT", Ghost(g))
        .step(415720800, 43200, 0, "NZST", Ghost(g))
        .step(436284000, 43200, 3600, "NZDT", Ghost(g))
        .step(447170400, 43200, 0, "NZST", Ghost(g))
        .step(467733600, 43200, 3600, "NZDT", Ghost(g))
        .step(478620000, 43200, 0, "NZST", Ghost(g))
        .step(499183200, 43200, 3600, "NZDT", Ghost(g))
        .step(510069600, 43200, 0, "NZST", Ghost(g))
        .step(530632800, 43200, 3600, "NZDT", Ghost(g))
        .step(541519200, 43200, 0, "NZST", Ghost(g))
        .step(562082400, 43200, 3600, "NZDT", Ghost(g))
        .step(573573600, 43200, 0, "NZST", Ghost(g))
        .step(594136800, 43200, 3600, "NZDT", Ghost(g))
        .step(605023200, 43200, 0, "NZST", Ghost(g))
        .step(623772000, 43200, 3600, "NZDT", Ghost(g))
        .step(637682400, 43200, 0, "NZST", Ghost(g))
        .step(655221600, 43200, 3600, "NZDT", Ghost(g))
        .step(669132000, 43200, 0, "NZST", Ghost(g))
        .step(686671200, 43200, 3600, "NZDT", Ghost(g))
        .step(700581600, 43200, 0, "NZST", Ghost(g))
        .step(718120800, 43200, 3600, "NZDT", Ghost(g))
        .step(732636000, 43200, 0, "NZST", Ghost(g))
        .step(749570400, 43200, 3600, "NZDT", Ghost(g))
        .step(764085600, 43200, 0, "NZST", Ghost(g))
        .step(781020000, 43200, 3600, "NZDT", Ghost(g))
        .step(795535200, 43200, 0, "NZST", Ghost(g))
        .step(812469600, 43200, 3600, "NZDT", Ghost(g))
        .step(826984800, 43200, 0, "NZST", Ghost(g))
        .step(844524000, 43200, 3600, "NZDT", Ghost(g))
        .step(858434400, 43200, 0, "NZST", Ghost(g))
        .step(875973600, 43200, 3600, "NZDT", Ghost(g))
        .step(889884000, 43200, 0, "NZST", Ghost(g))
        .step(907423200, 43200, 3600, "NZDT", Ghost(g))
        .step(921938400, 43200, 0, "NZST", Ghost(g))
        .step(938872800, 43200, 3600, "NZDT", Ghost(g))
        .step(953388000, 43200, 0, "NZST", Ghost(g))
        .step(970322400, 43200, 3600, "NZDT", Ghost(g))
        .step(984837600, 43200, 0, "NZST", Ghost(g))
        .step(1002376800, 43200, 3600, "NZDT", Ghost(g))
        .step(1016287200, 43200, 0, "NZST", Ghost(g))
        .step(1033826400, 43200, 3600, "NZDT", Ghost(g))
        .step(1047736800, 43200, 0, "NZST", Ghost(g))
        .step(1065276000, 43200, 3600, "NZDT", Ghost(g))
        .step(1079791200, 43200, 0, "NZST", Ghost(g))
        .step(1096725600, 43200, 3600, "NZDT", Ghost(g))
        .step(1111240800, 43200, 0, "NZST", Ghost(g))
        .step(1128175200, 43200, 3600, "NZDT", Ghost(g))
        .step(1142690400, 43200, 0, "NZST", Ghost(g))
        .step(1159624800, 43200, 3600, "NZDT", Ghost(g))
        .step(1174140000, 43200, 0, "NZST", Ghost(g))
        .step(1191074400, 43200, 3600, "NZDT", Ghost(g))
        .step(1207404000, 43200, 0, "NZST", Ghost(g))
        .step(1222524000, 43200, 3600, "NZDT", Ghost(g))
        .step(1238853600, 43200, 0, "NZST", Ghost(g))
        .step(1253973600, 43200, 3600, "NZDT", Ghost(g))
        .step(1270303200, 43200, 0, "NZST", Ghost(g))
        .step(1285423200, 43200, 3600, "NZDT", Ghost(g))
        .step(1301752800, 43200, 0, "NZST", Ghost(g))
        .step(1316872800, 43200, 3600, "NZDT", Ghost(g))
        .step(1333202400, 43200, 0, "NZST", Ghost(g))
        .step(1348927200, 43200, 3600, "NZDT", Ghost(g))
        .step(1365256800, 43200, 0, "NZST", Ghost(g))
        .step(1380376800, 43200, 3600, "NZDT", Ghost(g))
        .step(1396706400, 43200, 0, "NZST", Ghost(g))
        .step(1411826400, 43200, 3600, "NZDT", Ghost(g))
        .step(1428156000, 43200, 0, "NZST", Ghost(g))
        .step(1443276000, 43200, 3600, "NZDT", Ghost(g))
        .step(1459605600, 43200, 0, "NZST", Ghost(g))
        .step(1474725600, 43200, 3600, "NZDT", Ghost(g))
        .step(1491055200, 43200, 0, "NZST", Ghost(g))
        .step(1506175200, 43200, 3600, "NZDT", Ghost(g))
        .step(1522504800, 43200, 0, "NZST", Ghost(g))
        .step(1538229600, 43200, 3600, "NZDT", Ghost(g))
        .step(1554559200, 43200, 0, "NZST", Ghost(g))
        .step(1569679200, 43200, 3600, "NZDT", Ghost(g))
        .step(1586008800, 43200, 0, "NZST", Ghost(g))
        .step(1601128800, 43200, 3600, "NZDT", Ghost(g))
        .step(1617458400, 43200, 0, "NZST", Ghost(g))
        .step(1632578400, 43200, 3600, "NZDT", Ghost(g))
        .step(1648908000, 43200, 0, "NZST", Ghost(g))
        .step(1664028000, 43200, 3600, "NZDT", Ghost(g))
        .step(1680357600, 43200, 0, "NZST", Ghost(g))
        .step(1695477600, 43200, 3600, "NZDT", Ghost(g))
        .step(1712412000, 43200, 0, "NZST", Ghost(g))
        .step(1727532000, 43200, 3600, "NZDT", Ghost(g))
        .step(1743861600, 43200, 0, "NZST", Ghost(g))
        .step(1758981600, 43200, 3600, "NZDT", Ghost(g))
        .step(1775311200, 43200, 0, "NZST", Ghost(g))
        .step(1790431200, 43200, 3600, "NZDT", Ghost(g))
        .step(1806760800, 43200, 0, "NZST", Ghost(g))
        .step(1821880800, 43200, 3600, "NZDT", Ghost(g))
        .step(1838210400, 43200, 0, "NZST", Ghost(g))
        .step(1853330400, 43200, 3600, "NZDT", Ghost(g))
        .step(1869660000, 43200, 0, "NZST", Ghost(g))
        .step(1885384800, 43200, 3600, "NZDT", Ghost(g))
        .step(1901714400, 43200, 0, "NZST", Ghost(g))
        .step(1916834400, 43200, 3600, "NZDT", Ghost(g))
        .step(1933164000, 43200, 0, "NZST", Ghost(g))
        .step(1948284000, 43200, 3600, "NZDT", Ghost(g))
        .step(1964613600, 43200, 0, "NZST", Ghost(g))
        .step(1979733600, 43200, 3600, "NZDT", Ghost(g))
        .step(1996063200, 43200, 0, "NZST", Ghost(g))
        .step(2011183200, 43200, 3600, "NZDT", Ghost(g))
        .step(2027512800, 43200, 0, "NZST", Ghost(g))
        .step(2042632800, 43200, 3600, "NZDT", Ghost(g))
        .step(2058962400, 43200, 0, "NZST", Ghost(g))
        .step(2074687200, 43200, 3600, "NZDT", Ghost(g))
        .step(2091016800, 43200, 0, "NZST", Ghost(g))
        .step(2106136800, 43200, 3600, "NZDT", Ghost(g))
        .step(2122466400, 43200, 0, "NZST", Ghost(g))
        .step(2137586400, 43200, 3600, "NZDT", Ghost(g))
        .finish(Ghost(g))
}

/// The zone `Antarctica/Palmer`.
pub fn palmer() -> (r: Tz)
    ensures
        r.wf(),
        r.zone_name() == "Antarctica/Palmer"@,
        r.table() == tables::antarctica::palmer(),
{
    let ghost g = tables::antarctica::palmer_rows();
    FixedTimespanSet::begin("Antarctica/Palmer", 0, 0, "-00", Ghost(g))
        .step(-157766400, -14400, 3600, "-03", Ghost(g))
        .step(-152658000, -14400, 0, "-04", Ghost(g))
        .step(-132955200, -14400, 3600, "-03", Ghost(g))
        .step(-121122000, -14400, 0, "-04", Ghost(g))
        .step(-101419200, -14400, 3600, "-03", Ghost(g))
        .step(-86821200, -14400, 0, "-04", Ghost(g))
        .step(-71092800, -14400, 3600, "-03", Ghost(g))
        .step(-54766800, -14400, 0, "-04", Ghost(g))
        .step(-39038400, -14400, 3600, "-03", Ghost(g))
        .step(-23317200, -14400, 0, "-04", Ghost(g))
        .step(-7588800, -10800, 0, "-03", Ghost(g))
        .step(128142000, -10800, 3600, "-02", Ghost(g))
        .step(136605600, -10800, 0, "-03", Ghost(g))
        .step(389070000, -14400, 0, "-04", Ghost(g))
        .step(403070400, -14400, 3600, "-03", Ghost(g))
        .step(416372400, -14400, 0, "-04", Ghost(g))
        .step(434520000, -14400, 3600, "-03", Ghost(g))
        .step(447822000, -14400, 0, "-04", Ghost(g))
        .step(466574400, -14400, 3600, "-03", Ghost(g))
        .step(479271600, -14400, 0, "-04", Ghost(g))
        .step(498024000, -14400, 3600, "-03", Ghost(g))
        .step(510721200, -14400, 0, "-04", Ghost(g))
        .step(529473600, -14400, 3600, "-03", Ghost(g))
        .step(545194800, -14400, 0, "-04", Ghost(g))
        .step(560923200, -14400, 3600, "-03", Ghost(g))
        .step(574225200, -14400, 0, "-04", Ghost(g))
        .step(592372800, -14400, 3600, "-03", Ghost(g))
        .step(605674800, -14400, 0, "-04", Ghost(g))
        .step(624427200, -14400, 3600, "-03", Ghost(g))
        .step(637124400, -14400, 0, "-04", Ghost(g))
        .step(653457600, -14400, 3600, "-03", Ghost(g))
        .step(668574000, -14400, 0, "-04", Ghost(g))
        .step(687326400, -14400, 3600, "-03", Ghost(g))
        .step(700628400, -14400, 0, "-04", Ghost(g))
        .step(718776000, -14400, 3600, "-03", Ghost(g))
        .step(732078000, -14400, 0, "-04", Ghost(g))
        .step(750225600, -14400, 3600, "-03", Ghost(g))
        .step(763527600, -14400, 0, "-04", Ghost(g))
        .step(781675200, -14400, 3600, "-03", Ghost(g))
        .step(794977200, -14400, 0, "-04", Ghost(g))
        .step(813729600, -14400, 3600, "-03", Ghost(g))
        .step(826426800, -14400, 0, "-04", Ghost(g))
        .step(845179200, -14400, 3600, "-03", Ghost(g))
        .step(859690800, -14400, 0, "-04", Ghost(g))
        .step(876628800, -14400, 3600, "-03", Ghost(g))
        .step(889930800, -14400, 0, "-04", Ghost(g))
        .step(906868800, -14400, 3600, "-03", Ghost(g))
        .step(923194800, -14400, 0, "-04", Ghost(g))
        .step(939528000, -14400, 3600, "-03", Ghost(g))
        .step(952830000, -14400, 0, "-04", Ghost(g))
        .step(971582400, -14400, 3600, "-03", Ghost(g))
        .step(984279600, -14400, 0, "-04", Ghost(g))
        .step(1003032000, -14400, 3600, "-03", Ghost(g))
        .step(1015729200, -14400, 0, "-04", Ghost(g))
        .step(1034481600, -14400, 3600, "-03", Ghost(g))
        .step(1047178800, -14400, 0, "-04", Ghost(g))
        .step(1065931200, -14400, 3600, "-03", Ghost(g))
        .step(1079233200, -14400, 0, "-04", Ghost(g))
        .step(1097380800, -14400, 3600, "-03", Ghost(g))
        .step(1110682800, -14400, 0, "-04", Ghost(g))
        .step(1128830400, -14400, 3600, "-03", Ghost(g))
        .step(1142132400, -14400, 0, "-04", Ghost(g))
        .step(1160884800, -14400, 3600, "-03", Ghost(g))
        .step(1173582000, -14400, 0, "-04", Ghost(g))
        .step(1192334400, -14400, 3600, "-03", Ghost(g))
        .step(1206846000, -14400, 0, "-04", Ghost(g))
        .step(1223784000, -14400, 3600, "-03", Ghost(g))
        .step(1237086000, -14400, 0, "-04", Ghost(g))
        .step(1255233600, -14400, 3600, "-03", Ghost(g))
        .step(1270350000, -14400, 0, "-04", Ghost(g))
        .step(1286683200, -14400, 3600, "-03", Ghost(g))
        .step(1304823600, -14400, 0, "-04", Ghost(g))
        .step(1313899200, -14400, 3600, "-03", Ghost(g))
        .step(1335668400, -14400, 0, "-04", Ghost(g))
        .step(1346558400, -14400, 3600, "-03", Ghost(g))
        .step(1367118000, -14400, 0, "-04", Ghost(g))
        .step(1378612800, -14400, 3600, "-03", Ghost(g))
        .step(1398567600, -14400, 0, "-04", Ghost(g))
        .step(1410062400, -14400, 3600, "-03", Ghost(g))
        .step(1463281200, -14400, 0, "-04", Ghost(g))
        .step(1471147200, -14400, 3600, "-03", Ghost(g))
        .step(1480820400, -10800, 0, "-03", Ghost(g))
        .step(2147483647, -10800, 0, "-03", Ghost(g))
        .finish(Ghost(g))
}

/// The zone `Antarctica/Rothera`.
pub fn rothera() -> (r: Tz)
    ensures
        r.wf(),
        r.zone_name() == "Antarctica/Rothera"@,
        r.table() == tables::antarctica::rothera(),
{
    let ghost g = tables::antarctica::rothera_rows();
    FixedTimespanSet::begin("Antarctica/Rothera", 0, 0, "-00", Ghost(g))
        .step(218246400, -10800, 0, "-03", Ghost(g))
        .step(2147483647, -10800, 0, "-03", Ghost(g))
        .finish(Ghost(g))
}

/// The zone `Antarctica/South_Pole`.
pub fn south_pole() -> (r: Tz)
    ensures
        r.wf(),
        r.zone_name() == "Antarctica/South_Pole"@,
        r.table() == tables::antarctica::south_pole(),
{
    let ghost g = tables::antarctica::south_pole_rows();
    FixedTimespanSet::begin("Antarctica/South_Pole", 41944, 0, "LMT", Ghost(g))
        .step(-3192435544, 41400, 0, "NZMT", Ghost(g))
        .step(-1330335000, 41400, 3600, "NZST", Ghost(g))
        .step(-1320057000, 41400, 0, "NZMT", Ghost(g))
        .step(-1300699800, 41400, 1800, "NZST", Ghost(g))
        .step(-1287396000, 41400, 0, "NZMT", Ghost(g))
        .step(-1269250200, 41400, 1800, "NZST", Ghost(g))
        .step(-1255946400, 41400, 0, "NZMT", Ghost(g))
        .step(-1237800600, 41400, 1800, "NZST", Ghost(g))
        .step(-1224496800, 41400, 0, "NZMT", Ghost(g))
        .step(-1206351000, 41400, 1800, "NZST", Ghost(g))
        .step(-1192442400, 41400, 0, "NZMT", Ghost(g))
        .step(-1174901400, 41400, 1800, "NZST", Ghost(g))
        .step(-1160992800, 41400, 0, "NZMT", Ghost(g))
        .step(-1143451800, 41400, 1800, "NZST", Ghost(g))
        .step(-1125914400, 41400, 0, "NZMT", Ghost(g))
        .step(-1112607000, 41400, 1800, "NZST", Ghost(g))
        .step(-1094464800, 41400, 0, "NZMT", Ghost(g))
        .step(-1081157400, 41400, 1800, "NZST", Ghost(g))
        .step(-1063015200, 41400, 0, "NZMT", Ghost(g))
        .step(-1049707800, 41400, 1800, "NZST", Ghost(g))
        .step(-1031565600, 41400, 0, "NZMT", Ghost(g))
        .step(-1018258200, 41400, 1800, "NZST", Ghost(g))
        .step(-1000116000, 41400, 0, "NZMT", Ghost(g))
        .step(-986808600, 41400, 1800, "NZST", Ghost(g))
        .step(-968061600, 41400, 0, "NZMT", Ghost(g))
        .step(-955359000, 41400, 1800, "NZST", Ghost(g))
        .step(-936612000, 41400, 0, "NZMT", Ghost(g))
        .step(-923304600, 41400, 1800, "NZST", Ghost(g))
        .step(-757425600, 43200, 0, "NZST", Ghost(g))
        .step(152632800, 43200, 3600, "NZDT", Ghost(g))
        .step(162309600, 43200, 0, "NZST", Ghost(g))
        .step(183477600, 43200, 3600, "NZDT", Ghost(g))
        .step(194968800, 43200, 0, "NZST", Ghost(g))
        .step(215532000, 43200, 3600, "NZDT", Ghost(g))
        .step(226418400, 43200, 0, "NZST", Ghost(g))
        .step(246981600, 43200, 3600, "NZDT", Ghost(g))
        .step(257868000, 43200, 0, "NZST", Ghost(g))
        .step(278431200, 43200, 3600, "NZDT", Ghost(g))
        .step(289317600, 43200, 0, "NZST", Ghost(g))
        .step(309880800, 43200, 3600, "NZDT", Ghost(g))
        .step(320767200, 43200, 0, "NZST", Ghost(g))
        .step(341330400, 43200, 3600, "NZDT", Ghost(g))
        .step(352216800, 43200, 0, "NZST", Ghost(g))
        .step(372780000, 43200, 3600, "NZDT", Ghost(g))
        .step(384271200, 43200, 0, "NZST", Ghost(g))
        .step(404834400, 43200, 3600, "NZDT", Ghost(g))
        .step(415720800, 43200, 0, "NZST", Ghost(g))
        .step(436284000, 43200, 3600, "NZDT", Ghost(g))
        .step(447170400, 43200, 0, "NZST", Ghost(g))
        .step(467733600, 43200, 3600, "NZDT", Ghost(g))
        .step(478620000, 43200, 0, "NZST", Ghost(g))
        .step(499183200, 43200, 3600, "NZDT", Ghost(g))
        .step(510069600, 43200, 0, "NZST", Ghost(g))
        .step(530632800, 43200, 3600, "NZDT", Ghost(g))
        .step(541519200, 43200, 0, "NZST", Ghost(g))
        .step(562082400, 43200, 3600, "NZDT", Ghost(g))
        .step(573573600, 43200, 0, "NZST", Ghost(g))
        .step(594136800, 43200, 3600, "NZDT", Ghost(g))
        .step(605023200, 43200, 0, "NZST", Ghost(g))
        .step(623772000, 43200, 3600, "NZDT", Ghost(g))
        .step(637682400, 43200, 0, "NZST", Ghost(g))
        .step(655221600, 43200, 3600, "NZDT", Ghost(g))
        .step(669132000, 43200, 0, "NZST", Ghost(g))
        .step(686671200, 43200, 3600, "NZDT", Ghost(g))
        .step(700581600, 43200, 0, "NZST", Ghost(g))
        .step(718120800, 43200, 3600, "NZDT", Ghost(g))
        .step(732636000, 43200, 0, "NZST", Ghost(g))
        .step(749570400, 43200, 3600, "NZDT", Ghost(g))
        .step(764085600, 43200, 0, "NZST", Ghost(g))
        .step(781020000, 43200, 3600, "NZDT", Ghost(g))
        .step(795535200, 43200, 0, "NZST", Ghost(g))
        .step(812469600, 43200, 3600, "NZDT", Ghost(g))
        .step(826984800, 43200, 0, "NZST", Ghost(g))
        .step(844524000, 43200, 3600, "NZDT", Ghost(g))
        .step(858434400, 43200, 0, "NZST", Ghost(g))
        .step(875973600, 43200, 3600, "NZDT", Ghost(g))
        .step(889884000, 43200, 0, "NZST", Ghost(g))
        .step(907423200, 43200, 3600, "NZDT", Ghost(g))
        .step(921938400, 43200, 0, "NZST", Ghost(g))
        .step(938872800, 43200, 3600, "NZDT", Ghost(g))
        .step(953388000, 43200, 0, "NZST", Ghost(g))
        .step(970322400, 43200, 3600, "NZDT", Ghost(g))
        .step(984837600, 43200, 0, "NZST", Ghost(g))
        .step(1002376800, 43200, 3600, "NZDT", Ghost(g))
        .step(1016287200, 43200, 0, "NZST", Ghost(g))
        .step(1033826400, 43200, 3600, "NZDT", Ghost(g))
        .step(1047736800, 43200, 0, "NZST", Ghost(g))
        .step(1065276000, 43200, 3600, "NZDT", Ghost(g))
        .step(1079791200, 43200, 0, "NZST", Ghost(g))
        .step(1096725600, 43200, 3600, "NZDT", Ghost(g))
        .step(1111240800, 43200, 0, "NZST", Ghost(g))
        .step(1128175200, 43200, 3600, "NZDT", Ghost(g))
        .step(1142690400, 43200, 0, "NZST", Ghost(g))
        .step(1159624800, 43200, 3600, "NZDT", Ghost(g))
        .step(1174140000, 43200, 0, "NZST", Ghost(g))
        .step(1191074400, 43200, 3600, "NZDT", Ghost(g))
        .step(1207404000, 43200, 0, "NZST", Ghost(g))
        .step(1222524000, 43200, 3600, "NZDT", Ghost(g))
        .step(1238853600, 43200, 0, "NZST", Ghost(g))
        .step(1253973600, 43200, 3600, "NZDT", Ghost(g))
        .step(1270303200, 43200, 0, "NZST", Ghost(g))
        .step(1285423200, 43200, 3600, "NZDT", Ghost(g))
        .step(1301752800, 43200, 0, "NZST", Ghost(g))
        .step(1316872800, 43200, 3600, "NZDT", Ghost(g))
        .step(1333202400, 43200, 0, "NZST", Ghost(g))
        .step(1348927200, 43200, 3600, "NZDT", Ghost(g))
        .step(1365256800, 43200, 0, "NZST", Ghost(g))
        .step(1380376800, 43200, 3600, "NZDT", Ghost(g))
        .step(1396706400, 43200, 0, "NZST", Ghost(g))
        .step(1411826400, 43200, 3600, "NZDT", Ghost(g))
        .step(1428156000, 43200, 0, "NZST", Ghost(g))
        .step(1443276000, 43200, 3600, "NZDT", Ghost(g))
        .step(1459605600, 43200, 0, "NZST", Ghost(g))
        .step(1474725600, 43200, 3600, "NZDT", Ghost(g))
        .step(1491055200, 43200, 0, "NZST", Ghost(g))
        .step(1506175200, 43200, 3600, "NZDT", Ghost(g))
        .step(1522504800, 43200, 0, "NZST", Ghost(g))
        .step(1538229600, 43200, 3600, "NZDT", Ghost(g))
        .step(1554559200, 43200, 0, "NZST", Ghost(g))
        .step(1569679200, 43200, 3600, "NZDT", Ghost(g))
        .step(1586008800, 43200, 0, "NZST", Ghost(g))
        .step(1601128800, 43200, 3600, "NZDT", Ghost(g))
        .step(1617458400, 43200, 0, "NZST", Ghost(g))
        .step(1632578400, 43200, 3600, "NZDT", Ghost(g))
        .step(1648908000, 43200, 0, "NZST", Ghost(g))
        .step(1664028000, 43200, 3600, "NZDT", Ghost(g))
        .step(1680357600, 43200, 0, "NZST", Ghost(g))
        .step(1695477600, 43200, 3600, "NZDT", Ghost(g))
        .step(1712412000, 43200, 0, "NZST", Ghost(g))
        .step(1727532000, 43200, 3600, "NZDT", Ghost(g))
        .step(1743861600, 43200, 0, "NZST", Ghost(g))
        .step(1758981600, 43200, 3600, "NZDT", Ghost(g))
        .step(1775311200, 43200, 0, "NZST", Ghost(g))
        .step(1790431200, 43200, 3600, "NZDT", Ghost(g))
        .step(1806760800, 43200, 0, "NZST", Ghost(g))
        .step(1821880800, 43200, 3600, "NZDT", Ghost(g))
        .step(1838210400, 43200, 0, "NZST", Ghost(g))
        .step(1853330400, 43200, 3600, "NZDT", Ghost(g))
        .step(1869660000, 43200, 0, "NZST", Ghost(g))
        .step(1885384800, 43200, 3600, "NZDT", Ghost(g))
        .step(1901714400, 43200, 0, "NZST", Ghost(g))
        .step(1916834400, 43200, 3600, "NZDT", Ghost(g))
        .step(1933164000, 43200, 0, "NZST", Ghost(g))
        .step(1948284000, 43200, 3600, "NZDT", Ghost(g))
        .step(1964613600, 43200, 0, "NZST", Ghost(g))
        .step(1979733600, 43200, 3600, "NZDT", Ghost(g))
        .step(1996063200, 43200, 0, "NZST", Ghost(g))
        .step(2011183200, 43200, 3600, "NZDT", Ghost(g))
        .step(2027512800, 43200, 0, "NZST", Ghost(g))
        .step(2042632800, 43200, 3600, "NZDT", Ghost(g))
        .step(2058962400, 43200, 0, "NZST", Ghost(g))
        .step(2074687200, 43200, 3600, "NZDT", Ghost(g))
        .step(2091016800, 43200, 0, "NZST", Ghost(g))
        .step(2106136800, 43200, 3600, "NZDT", Ghost(g))
        .step(2122466400, 43200, 0, "NZST", Ghost(g))
        .step(2137586400, 43200, 3600, "NZDT", Ghost(g))
        .finish(Ghost(g))
}

/// The zone `Antarctica/Syowa`.
pub fn syowa() -> (r: Tz)
    ensures
        r.wf(),
        r.zone_name() == "Antarctica/Syowa"@,
        r.table() == tables::antarctica::syowa(),
{
    let ghost g = tables::antarctica::syowa_rows();
    FixedTimespanSet::begin("Antarctica/Syowa", 0, 0, "-00", Ghost(g))
        .step(-407808000, 10800, 0, "+03", Ghost(g))
        .step(2147483647, 10800, 0, "+03", Ghost(g))
        .finish(Ghost(g))
}

/// The zone `Antarctica/Troll`.
pub fn troll() -> (r: Tz)
    ensures
        r.wf(),
        r.zone_name() == "Antarctica/Troll"@,
        r.table() == tables::antarctica::troll(),
{
    let ghost g = tables::antarctica::troll_rows();
    FixedTimespanSet::begin("Antarctica/Troll", 0, 0, "-00", Ghost(g))
        .step(1108166400, 0, 0, "+00", Ghost(g))
        .step(1111885200, 0, 7200, "+02", Ghost(g))
        .step(1130634000, 0, 0, "+00", Ghost(g))
        .step(1143334800, 0, 7200, "+02", Ghost(g))
        .step(1162083600, 0, 0, "+00", Ghost(g))
        .step(1174784400, 0, 7200, "+02", Ghost(g))
        .step(1193533200, 0, 0, "+00", Ghost(g))
        .step(1206838800, 0, 7200, "+02", Ghost(g))
        .step(1224982800, 0, 0, "+00", Ghost(g))
        .step(1238288400, 0, 7200, "+02", Ghost(g))
        .step(1256432400, 0, 0, "+00", Ghost(g))
        .step(1269738000, 0, 7200, "+02", Ghost(g))
        .step(1288486800, 0, 0, "+00", Ghost(g))
        .step(1301187600, 0, 7200, "+02", Ghost(g))
        .step(1319936400, 0, 0, "+00", Ghost(g))
        .step(1332637200, 0, 7200, "+02", Ghost(g))
        .step(1351386000, 0, 0, "+00", Ghost(g))
        .step(1364691600, 0, 7200, "+02", Ghost(g))
        .step(1382835600, 0, 0, "+00", Ghost(g))
        .step(1396141200, 0, 7200, "+02", Ghost(g))
        .step(1414285200, 0, 0, "+00", Ghost(g))
        .step(1427590800, 0, 7200, "+02", Ghost(g))
        .step(1445734800, 0, 0, "+00", Ghost(g))
        .step(1459040400, 0, 7200, "+02", Ghost(g))
        .step(1477789200, 0, 0, "+00", Ghost(g))
        .step(1490490000, 0, 7200, "+02", Ghost(g))
        .step(1509238800, 0, 0, "+00", Ghost(g))
        .step(1521939600, 0, 7200, "+02", Ghost(g))
        .step(1540688400, 0, 0, "+00", Ghost(g))
        .step(1553994000, 0, 7200, "+02", Ghost(g))
        .step(1572138000, 0, 0, "+00", Ghost(g))
        .step(1585443600, 0, 7200, "+02", Ghost(g))
        .step(1603587600, 0, 0, "+00", Ghost(g))
        .step(1616893200, 0, 7200, "+02", Ghost(g))
        .step(1635642000, 0, 0, "+00", Ghost(g))
        .step(1648342800, 0, 7200, "+02", Ghost(g))
        .step(1667091600, 0, 0, "+00", Ghost(g))
        .step(1679792400, 0, 7200, "+02", Ghost(g))
        .step(1698541200, 0, 0, "+00", Ghost(g))
        .step(1711846800, 0, 7200, "+02", Ghost(g))
        .step(1729990800, 0, 0, "+00", Ghost(g))
        .step(1743296400, 0, 7200, "+02", Ghost(g))
        .step(1761440400, 0, 0, "+00", Ghost(g))
        .step(1774746000, 0, 7200, "+02", Ghost(g))
        .step(1792890000, 0, 0, "+00", Ghost(g))
        .step(1806195600, 0, 7200, "+02", Ghost(g))
        .step(1824944400, 0, 0, "+00", Ghost(g))
        .step(1837645200, 0, 7200, "+02", Ghost(g))
        .step(1856394000, 0, 0, "+00", Ghost(g))
        .step(1869094800, 0, 7200, "+02", Ghost(g))
        .step(1887843600, 0, 0, "+00", Ghost(g))
        .step(1901149200, 0, 7200, "+02", Ghost(g))
        .step(1919293200, 0, 0, "+00", Ghost(g))
        .step(1932598800, 0, 7200, "+02", Ghost(g))
        .step(1950742800, 0, 0, "+00", Ghost(g))
        .step(1964048400, 0, 7200, "+02", Ghost(g))
        .step(1982797200, 0, 0, "+00", Ghost(g))
        .step(1995498000, 0, 7200, "+02", Ghost(g))
        .step(2014246800, 0, 0, "+00", Ghost(g))
        .step(2026947600, 0, 7200, "+02", Ghost(g))
        .step(2045696400, 0, 0, "+00", Ghost(g))
        .step(2058397200, 0, 7200, "+02", Ghost(g))
        .step(2077146000, 0, 0, "+00", Ghost(g))
        .step(2090451600, 0, 7200, "+02", Ghost(g))
        .step(2108595600, 0, 0, "+00", Ghost(g))
        .step(2121901200, 0, 7200, "+02", Ghost(g))
        .step(2140045200, 0, 0, "+00", Ghost(g))
        .step(2147483647, 0, 0, "+00", Ghost(g))
        .finish(Ghost(g))
}

/// The zone `Antarctica/Vostok`.
pub fn vostok() -> (r: Tz)
    ensures
        r.wf(),
        r.zone_name() == "Antarctica/Vostok"@,
        r.table() == tables::antarctica::vostok(),
{
    let ghost g = tables::antarctica::vostok_rows();
    FixedTimespanSet::begin("Antarctica/Vostok", 0, 0, "-00", Ghost(g))
        .step(-380073600, 25200, 0, "+07", Ghost(g))
        .step(760035600, 0, 0, "-00", Ghost(g))
        .step(783648000, 25200, 0, "+07", Ghost(g))
        .step(1702839600, 18000, 0, "+05", Ghost(g))
        .step(2147483647, 18000, 0, "+05", Ghost(g))
        .finish(Ghost(g))
}

} // verus!
