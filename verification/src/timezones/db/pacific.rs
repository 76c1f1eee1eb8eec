//! Zones of the Pacific.

use crate::interface::TimeZone;
use crate::timezone_impl::{FixedTimespanSet, Tz};
use crate::timezones::tables;
use vstd::prelude::*;

verus! {

/// The zone `Pacific/Apia`.
pub fn apia() -> (r: Tz)
    ensures
        r.wf(),
        r.zone_name() == "Pacific/Apia"@,
        r.table() == tables::pacific::apia(),
{
    let ghost g = tables::pacific::apia_rows();
    FixedTimespanSet::begin("Pacific/Apia", 45184, 0, "LMT", Ghost(g))
        .step(-2445424384, -41216, 0, "LMT", Ghost(g))
        .step(-1861878784, -41400, 0, "-1130", Ghost(g))
        .step(-631110600, -39600, 0, "-11", Ghost(g))
        .step(1285498800, -39600, 3600, "-10", Ghost(g))
        .step(1301752800, -39600, 0, "-11", Ghost(g))
        .step(1316872800, -39600, 3600, "-10", Ghost(g))
        .step(1325239200, -39600, 90000, "+14", Ghost(g))
        .step(1333202400, 46800, 0, "+13", Ghost(g))
        .step(1348927200, 46800, 3600, "+14", Ghost(g))
        .step(1365256800, 46800, 0, "+13", Ghost(g))
        .step(1380376800, 46800, 3600, "+14", Ghost(g))
        .step(1396706400, 46800, 0, "+13", Ghost(g))
        .step(1411826400, 46800, 3600, "+14", Ghost(g))
        .step(1428156000, 46800, 0, "+13", Ghost(g))
        .step(1443276000, 46800, 3600, "+14", Ghost(g))
        .step(1459605600, 46800, 0, "+13", Ghost(g))
        .step(1474725600, 46800, 3600, "+14", Ghost(g))
        .step(1491055200, 46800, 0, "+13", Ghost(g))
        .step(1506175200, 46800, 3600, "+14", Ghost(g))
        .step(1522504800, 46800, 0, "+13", Ghost(g))
        .step(1538229600, 46800, 3600, "+14", Ghost(g))
        .step(1554559200, 46800, 0, "+13", Ghost(g))
        .step(1569679200, 46800, 3600, "+14", Ghost(g))
        .step(1586008800, 46800, 0, "+13", Ghost(g))
        .step(1601128800, 46800, 3600, "+14", Ghost(g))
        .step(1617458400, 46800, 0, "+13", Ghost(g))
        .step(2147483647, 46800, 0, "+13", Ghost(g))
        .finish(Ghost(g))
}

/// The zone `Pacific/Auckland`.
pub fn auckland() -> (r: Tz)
    ensures
        r.wf(),
        r.zone_name() == "Pacific/Auckland"@,
        r.table() == tables::pacific::auckland(),
{
    let ghost g = tables::pacific::auckland_rows();
    FixedTimespanSet::begin("Pacific/Auckland", 41944, 0, "LMT", Ghost(g))
        .step(-3192435544, 41400, 0, "NZMT", Ghost(g))
        .step(-1330335000, 41400, 3600, "NZST", Ghost(g))
        .step(-1320057000, 41400, 0, "NZMT", Ghost(g))
        .step(-1300699800, 41400, 1800, "NZST", Ghost(g))
        .step(-1287396000, 41400, 0, "NZMT", Ghost(g))
        .step(-1269250200, 41400, 1800, "NZST", Ghost(g))
        .step(-1255946400, 41400, 0, "NZMT", Ghost(g))
        .step(-1237800600, 41400, 1800, "NZST", Ghost(g))
        .step(-1224496800, 41400, 0, "NZMT", Ghost(g))
        .step(-1206351000, 41400, 1800, "NZST", Ghost(g))
        .step(-1192442400, 41400, 0, "NZMT", Ghost(g))
        .step(-1174901400, 41400, 1800, "NZST", Ghost(g))
        .step(-1160992800, 41400, 0, "NZMT", Ghost(g))
        .step(-1143451800, 41400, 1800, "NZST", Ghost(g))
        .step(-1125914400, 41400, 0, "NZMT", Ghost(g))
        .step(-1112607000, 41400, 1800, "NZST", Ghost(g))
        .step(-1094464800, 41400, 0, "NZMT", Ghost(g))
        .step(-1081157400, 41400, 1800, "NZST", Ghost(g))
        .step(-1063015200, 41400, 0, "NZMT", Ghost(g))
        .step(-1049707800, 41400, 1800, "NZST", Ghost(g))
        .step(-1031565600, 41400, 0, "NZMT", Ghost(g))
        .step(-1018258200, 41400, 1800, "NZST", Ghost(g))
        .step(-1000116000, 41400, 0, "NZMT", Ghost(g))
        .step(-986808600, 41400, 1800, "NZST", Ghost(g))
        .step(-968061600, 41400, 0, "NZMT", Ghost(g))
        .step(-955359000, 41400, 1800, "NZST", Ghost(g))
        .step(-936612000, 41400, 0, "NZMT", Ghost(g))
        .step(-923304600, 41400, 1800, "NZST", Ghost(g))
        .step(-757425600, 43200, 0, "NZST", Ghost(g))
        .step(152632800, 43200, 3600, "NZDT", Ghost(g))
        .step(162309600, 43200, 0, "NZST", Ghost(g))
        .step(183477600, 43200, 3600, "NZDT", Ghost(g))
        .step(194968800, 43200, 0, "NZST", Ghost(g))
        .step(215532000, 43200, 3600, "NZDT", Ghost(g))
        .step(226418400, 43200, 0, "NZST", Ghost(g))
        .step(246981600, 43200, 3600, "NZDT", Ghost(g))
        .step(257868000, 43200, 0, "NZST", Ghost(g))
        .step(278431200, 43200, 3600, "NZDT", Ghost(g))
        .step(289317600, 43200, 0, "NZST", Ghost(g))
        .step(309880800, 43200, 3600, "NZDT", Ghost(g))
        .step(320767200, 43200, 0, "NZST", Ghost(g))
        .step(341330400, 43200, 3600, "NZDT", Ghost(g))
        .step(352216800, 43200, 0, "NZST", Ghost(g))
        .step(372780000, 43200, 3600, "NZDT", Ghost(g))
        .step(384271200, 43200, 0, "NZST", Ghost(g))
        .step(404834400, 43200, 3600, "NZDT", Ghost(g))
        .step(415720800, 43200, 0, "NZST", Ghost(g))
        .step(436284000, 43200, 3600, "NZDT", Ghost(g))
        .step(447170400, 43200, 0, "NZST", Ghost(g))
        .step(467733600, 43200, 3600, "NZDT", Ghost(g))
        .step(478620000, 43200, 0, "NZST", Ghost(g))
        .step(499183200, 43200, 3600, "NZDT", Ghost(g))
        .step(510069600, 43200, 0, "NZST", Ghost(g))
        .step(530632800, 43200, 3600, "NZDT", Ghost(g))
        .step(541519200, 43200, 0, "NZST", Ghost(g))
        .step(562082400, 43200, 3600, "NZDT", Ghost(g))
        .step(573573600, 43200, 0, "NZST", Ghost(g))
        .step(594136800, 43200, 3600, "NZDT", Ghost(g))
        .step(605023200, 43200, 0, "NZST", Ghost(g))
        .step(623772000, 43200, 3600, "NZDT", Ghost(g))
        .step(637682400, 43200, 0, "NZST", Ghost(g))
        .step(655221600, 43200, 3600, "NZDT", Ghost(g))
        .step(669132000, 43200, 0, "NZST", Ghost(g))
        .step(686671200, 43200, 3600, "NZDT", Ghost(g))
        .step(700581600, 43200, 0, "NZST", Ghost(g))
        .step(718120800, 43200, 3600, "NZDT", Ghost(g))
        .step(732636000, 43200, 0, "NZST", Ghost(g))
        .step(749570400, 43200, 3600, "NZDT", Ghost(g))
        .step(764085600, 43200, 0, "NZST", Ghost(g))
        .step(781020000, 43200, 3600, "NZDT", Ghost(g))
        .step(795535200, 43200, 0, "NZST", Ghost(g))
        .step(812469600, 43200, 3600, "NZDT", Ghost(g))
        .step(826984800, 43200, 0, "NZST", Ghost(g))
        .step(844524000, 43200, 3600, "NZDT", Ghost(g))
        .step(858434400, 43200, 0, "NZST", Ghost(g))
        .step(875973600, 43200, 3600, "NZDT", Ghost(g))
        .step(889884000, 43200, 0, "NZST", Ghost(g))
        .step(907423200, 43200, 3600, "NZDT", Ghost(g))
        .step(921938400, 43200, 0, "NZST", Ghost(g))
        .step(938872800, 43200, 3600, "NZDT", Ghost(g))
        .step(953388000, 43200, 0, "NZST", Ghost(g))
        .step(970322400, 43200, 3600, "NZDT", Ghost(g))
        .step(984837600, 43200, 0, "NZST", Ghost(g))
        .step(1002376800, 43200, 3600, "NZDT", Ghost(g))
        .step(1016287200, 43200, 0, "NZST", Ghost(g))
        .step(1033826400, 43200, 3600, "NZDT", Ghost(g))
        .step(1047736800, 43200, 0, "NZST", Ghost(g))
        .step(1065276000, 43200, 3600, "NZDT", Ghost(g))
        .step(1079791200, 43200, 0, "NZST", Ghost(g))
        .step(1096725600, 43200, 3600, "NZDT", Ghost(g))
        .step(1111240800, 43200, 0, "NZST", Ghost(g))
        .step(1128175200, 43200, 3600, "NZDT", Ghost(g))
        .step(1142690400, 43200, 0, "NZST", Ghost(g))
        .step(1159624800, 43200, 3600, "NZDT", Ghost(g))
        .step(1174140000, 43200, 0, "NZST", Ghost(g))
        .step(1191074400, 43200, 3600, "NZDT", Ghost(g))
        .step(1207404000, 43200, 0, "NZST", Ghost(g))
        .step(1222524000, 43200, 3600, "NZDT", Ghost(g))
        .step(1238853600, 43200, 0, "NZST", Ghost(g))
        .step(1253973600, 43200, 3600, "NZDT", Ghost(g))
        .step(1270303200, 43200, 0, "NZST", Ghost(g))
        .step(1285423200, 43200, 3600, "NZDT", Ghost(g))
        .step(1301752800, 43200, 0, "NZST", Ghost(g))
        .step(1316872800, 43200, 3600, "NZDT", Ghost(g))
        .step(1333202400, 43200, 0, "NZST", Ghost(g))
        .step(1348927200, 43200, 3600, "NZDT", Ghost(g))
        .step(1365256800, 43200, 0, "NZST", Ghost(g))
        .step(1380376800, 43200, 3600, "NZDT", Ghost(g))
        .step(1396706400, 43200, 0, "NZST", Ghost(g))
        .step(1411826400, 43200, 3600, "NZDT", Ghost(g))
        .step(1428156000, 43200, 0, "NZST", Ghost(g))
        .step(1443276000, 43200, 3600, "NZDT", Ghost(g))
        .step(1459605600, 43200, 0, "NZST", Ghost(g))
        .step(1474725600, 43200, 3600, "NZDT", Ghost(g))
        .step(1491055200, 43200, 0, "NZST", Ghost(g))
        .step(1506175200, 43200, 3600, "NZDT", Ghost(g))
        .step(1522504800, 43200, 0, "NZST", Ghost(g))
        .step(1538229600, 43200, 3600, "NZDT", Ghost(g))
        .step(1554559200, 43200, 0, "NZST", Ghost(g))
        .step(1569679200, 43200, 3600, "NZDT", Ghost(g))
        .step(1586008800, 43200, 0, "NZST", Ghost(g))
        .step(1601128800, 43200, 3600, "NZDT", Ghost(g))
        .step(1617458400, 43200, 0, "NZST", Ghost(g))
        .step(1632578400, 43200, 3600, "NZDT", Ghost(g))
        .step(1648908000, 43200, 0, "NZST", Ghost(g))
        .step(1664028000, 43200, 3600, "NZDT", Ghost(g))
        .step(1680357600, 43200, 0, "NZST", Ghost(g))
        .step(1695477600, 43200, 3600, "NZDT", Ghost(g))
        .step(1712412000, 43200, 0, "NZST", Ghost(g))
        .step(1727532000, 43200, 3600, "NZDT", Ghost(g))
        .step(1743861600, 43200, 0, "NZST", Ghost(g))
        .step(1758981600, 43200, 3600, "NZDT", Ghost(g))
        .step(1775311200, 43200, 0, "NZST", Ghost(g))
        .step(1790431200, 43200, 3600, "NZDT", Ghost(g))
        .step(1806760800, 43200, 0, "NZST", Ghost(g))
        .step(1821880800, 43200, 3600, "NZDT", Ghost(g))
        .step(1838210400, 43200, 0, "NZST", Ghost(g))
        .step(1853330400, 43200, 3600, "NZDT", Ghost(g))
        .step(1869660000, 43200, 0, "NZST", Ghost(g))
        .step(1885384800, 43200, 3600, "NZDT", Ghost(g))
        .step(1901714400, 43200, 0, "NZST", Ghost(g))
        .step(1916834400, 43200, 3600, "NZDT", Ghost(g))
        .step(1933164000, 43200, 0, "NZST", Ghost(g))
        .step(1948284000, 43200, 3600, "NZDT", Ghost(g))
        .step(1964613600, 43200, 0, "NZST", Ghost(g))
        .step(1979733600, 43200, 3600, "NZDT", Ghost(g))
        .step(1996063200, 43200, 0, "NZST", Ghost(g))
        .step(2011183200, 43200, 3600, "NZDT", Ghost(g))
        .step(2027512800, 43200, 0, "NZST", Ghost(g))
        .step(2042632800, 43200, 3600, "NZDT", Ghost(g))
        .step(2058962400, 43200, 0, "NZST", Ghost(g))
        .step(2074687200, 43200, 3600, "NZDT", Ghost(g))
        .step(2091016800, 43200, 0, "NZST", Ghost(g))
        .step(2106136800, 43200, 3600, "NZDT", Ghost(g))
        .step(2122466400, 43200, 0, "NZST", Ghost(g))
        .step(2137586400, 43200, 3600, "NZDT", Ghost(g))
        .finish(Ghost(g))
}

/// The zone `Pacific/Bougainville`.
pub fn bougainville() -> (r: Tz)
    ensures
        r.wf(),
        r.zone_name() == "Pacific/Bougainville"@,
        r.table() == tables::pacific::bougainville(),
{
    let ghost g = tables::pacific::bougainville_rows();
    FixedTimespanSet::begin("Pacific/Bougainville", 37336, 0, "LMT", Ghost(g))
        .step(-2840178136, 35312, 0, "PMMT", Ghost(g))
        .step(-2366790512, 36000, 0, "+10", Ghost(g))
        .step(-868010400, 32400, 0, "+09", Ghost(g))
        .step(-768906000, 36000, 0, "+10", Ghost(g))
        .step(1419696000, 39600, 0, "+11", Ghost(g))
        .step(2147483647, 39600, 0, "+11", Ghost(g))
        .finish(Ghost(g))
}

/// The zone `Pacific/Chatham`.
pub fn chatham() -> (r: Tz)
    ensures
        r.wf(),
        r.zone_name() == "Pacific/Chatham"@,
        r.table() == tables::pacific::chatham(),
{
    let ghost g = tables::pacific::chatham_rows();
    FixedTimespanSet::begin("Pacific/Chatham", 44028, 0, "LMT", Ghost(g))
        .step(-3192437628, 44100, 0, "+1215", Ghost(g))
        .step(-757426500, 45900, 0, "+1245", Ghost(g))
        .step(152632800, 45900, 3600, "+1345", Ghost(g))
        .step(162309600, 45900, 0, "+1245", Ghost(g))
        .step(183477600, 45900, 3600, "+1345", Ghost(g))
        .step(194968800, 45900, 0, "+1245", Ghost(g))
        .step(215532000, 45900, 3600, "+1345", Ghost(g))
        .step(226418400, 45900, 0, "+1245", Ghost(g))
        .step(246981600, 45900, 3600, "+1345", Ghost(g))
        .step(257868000, 45900, 0, "+1245", Ghost(g))
        .step(278431200, 45900, 3600, "+1345", Ghost(g))
        .step(289317600, 45900, 0, "+1245", Ghost(g))
        .step(309880800, 45900, 3600, "+1345", Ghost(g))
        .step(320767200, 45900, 0, "+1245", Ghost(g))
        .step(341330400, 45900, 3600, "+1345", Ghost(g))
        .step(352216800, 45900, 0, "+1245", Ghost(g))
        .step(372780000, 45900, 3600, "+1345", Ghost(g))
        .step(384271200, 45900, 0, "+1245", Ghost(g))
        .step(404834400, 45900, 3600, "+1345", Ghost(g))
        .step(415720800, 45900, 0, "+1245", Ghost(g))
        .step(436284000, 45900, 3600, "+1345", Ghost(g))
        .step(447170400, 45900, 0, "+1245", Ghost(g))
        .step(467733600, 45900, 3600, "+1345", Ghost(g))
        .step(478620000, 45900, 0, "+1245", Ghost(g))
        .step(499183200, 45900, 3600, "+1345", Ghost(g))
        .step(510069600, 45900, 0, "+1245", Ghost(g))
        .step(530632800, 45900, 3600, "+1345", Ghost(g))
        .step(541519200, 45900, 0, "+1245", Ghost(g))
        .step(562082400, 45900, 3600, "+1345", Ghost(g))
        .step(573573600, 45900, 0, "+1245", Ghost(g))
        .step(594136800, 45900, 3600, "+1345", Ghost(g))
        .step(605023200, 45900, 0, "+1245", Ghost(g))
        .step(623772000, 45900, 3600, "+1345", Ghost(g))
        .step(637682400, 45900, 0, "+1245", Ghost(g))
        .step(655221600, 45900, 3600, "+1345", Ghost(g))
        .step(669132000, 45900, 0, "+1245", Ghost(g))
        .step(686671200, 45900, 3600, "+1345", Ghost(g))
        .step(700581600, 45900, 0, "+1245", Ghost(g))
        .step(718120800, 45900, 3600, "+1345", Ghost(g))
        .step(732636000, 45900, 0, "+1245", Ghost(g))
        .step(749570400, 45900, 3600, "+1345", Ghost(g))
        .step(764085600, 45900, 0, "+1245", Ghost(g))
        .step(781020000, 45900, 3600, "+1345", Ghost(g))
        .step(795535200, 45900, 0, "+1245", Ghost(g))
        .step(812469600, 45900, 3600, "+1345", Ghost(g))
        .step(826984800, 45900, 0, "+1245", Ghost(g))
        .step(844524000, 45900, 3600, "+1345", Ghost(g))
        .step(858434400, 45900, 0, "+1245", Ghost(g))
        .step(875973600, 45900, 3600, "+1345", Ghost(g))
        .step(889884000, 45900, 0, "+1245", Ghost(g))
        .step(907423200, 45900, 3600, "+1345", Ghost(g))
        .step(921938400, 45900, 0, "+1245", Ghost(g))
        .step(938872800, 45900, 3600, "+1345", Ghost(g))
        .step(953388000, 45900, 0, "+1245", Ghost(g))
        .step(970322400, 45900, 3600, "+1345", Ghost(g))
        .step(984837600, 45900, 0, "+1245", Ghost(g))
        .step(1002376800, 45900, 3600, "+1345", Ghost(g))
        .step(1016287200, 45900, 0, "+1245", Ghost(g))
        .step(1033826400, 45900, 3600, "+1345", Ghost(g))
        .step(1047736800, 45900, 0, "+1245", Ghost(g))
        .step(1065276000, 45900, 3600, "+1345", Ghost(g))
        .step(1079791200, 45900, 0, "+1245", Ghost(g))
        .step(1096725600, 45900, 3600, "+1345", Ghost(g))
        .step(1111240800, 45900, 0, "+1245", Ghost(g))
        .step(1128175200, 45900, 3600, "+1345", Ghost(g))
        .step(1142690400, 45900, 0, "+1245", Ghost(g))
        .step(1159624800, 45900, 3600, "+1345", Ghost(g))
        .step(1174140000, 45900, 0, "+1245", Ghost(g))
        .step(1191074400, 45900, 3600, "+1345", Ghost(g))
        .step(1207404000, 45900, 0, "+1245", Ghost(g))
        .step(1222524000, 45900, 3600, "+1345", Ghost(g))
        .step(1238853600, 45900, 0, "+1245", Ghost(g))
        .step(1253973600, 45900, 3600, "+1345", Ghost(g))
        .step(1270303200, 45900, 0, "+1245", Ghost(g))
        .step(1285423200, 45900, 3600, "+1345", Ghost(g))
        .step(1301752800, 45900, 0, "+1245", Ghost(g))
        .step(1316872800, 45900, 3600, "+1345", Ghost(g))
        .step(1333202400, 45900, 0, "+1245", Ghost(g))
        .step(1348927200, 45900, 3600, "+1345", Ghost(g))
        .step(1365256800, 45900, 0, "+1245", Ghost(g))
        .step(1380376800, 45900, 3600, "+1345", Ghost(g))
        .step(1396706400, 45900, 0, "+1245", Ghost(g))
        .step(1411826400, 45900, 3600, "+1345", Ghost(g))
        .step(1428156000, 45900, 0, "+1245", Ghost(g))
        .step(1443276000, 45900, 3600, "+1345", Ghost(g))
        .step(1459605600, 45900, 0, "+1245", Ghost(g))
        .step(1474725600, 45900, 3600, "+1345", Ghost(g))
        .step(1491055200, 45900, 0, "+1245", Ghost(g))
        .step(1506175200, 45900, 3600, "+1345", Ghost(g))
        .step(1522504800, 45900, 0, "+1245", Ghost(g))
        .step(1538229600, 45900, 3600, "+1345", Ghost(g))
        .step(1554559200, 45900, 0, "+1245", Ghost(g))
        .step(1569679200, 45900, 3600, "+1345", Ghost(g))
        .step(1586008800, 45900, 0, "+1245", Ghost(g))
        .step(1601128800, 45900, 3600, "+1345", Ghost(g))
        .step(1617458400, 45900, 0, "+1245", Ghost(g))
        .step(1632578400, 45900, 3600, "+1345", Ghost(g))
        .step(1648908000, 45900, 0, "+1245", Ghost(g))
        .step(1664028000, 45900, 3600, "+1345", Ghost(g))
        .step(1680357600, 45900, 0, "+1245", Ghost(g))
        .step(1695477600, 45900, 3600, "+1345", Ghost(g))
        .step(1712412000, 45900, 0, "+1245", Ghost(g))
        .step(1727532000, 45900, 3600, "+1345", Ghost(g))
        .step(1743861600, 45900, 0, "+1245", Ghost(g))
        .step(1758981600, 45900, 3600, "+1345", Ghost(g))
        .step(1775311200, 45900, 0, "+1245", Ghost(g))
        .step(1790431200, 45900, 3600, "+1345", Ghost(g))
        .step(1806760800, 45900, 0, "+1245", Ghost(g))
        .step(1821880800, 45900, 3600, "+1345", Ghost(g))
        .step(1838210400, 45900, 0, "+1245", Ghost(g))
        .step(1853330400, 45900, 3600, "+1345", Ghost(g))
        .step(1869660000, 45900, 0, "+1245", Ghost(g))
        .step(1885384800, 45900, 3600, "+1345", Ghost(g))
        .step(1901714400, 45900, 0, "+1245", Ghost(g))
        .step(1916834400, 45900, 3600, "+1345", Ghost(g))
        .step(1933164000, 45900, 0, "+1245", Ghost(g))
        .step(1948284000, 45900, 3600, "+1345", Ghost(g))
        .step(1964613600, 45900, 0, "+1245", Ghost(g))
        .step(1979733600, 45900, 3600, "+1345", Ghost(g))
        .step(1996063200, 45900, 0, "+1245", Ghost(g))
        .step(2011183200, 45900, 3600, "+1345", Ghost(g))
        .step(2027512800, 45900, 0, "+1245", Ghost(g))
        .step(2042632800, 45900, 3600, "+1345", Ghost(g))
        .step(2058962400, 45900, 0, "+1245", Ghost(g))
        .step(2074687200, 45900, 3600, "+1345", Ghost(g))
        .step(2091016800, 45900, 0, "+1245", Ghost(g))
        .step(2106136800, 45900, 3600, "+1345", Ghost(g))
        .step(2122466400, 45900, 0, "+1245", Ghost(g))
        .step(2137586400, 45900, 3600, "+1345", Ghost(g))
        .step(2147483647, 45900, 3600, "+1345", Ghost(g))
        .finish(Ghost(g))
}

/// The zone `Pacific/Chuuk`.
pub fn chuuk() -> (r: Tz)
    ensures
        r.wf(),
        r.zone_name() == "Pacific/Chuuk"@,
        r.table() == tables::pacific::chuuk(),
{
    let ghost g = tables::pacific::chuuk_rows();
    FixedTimespanSet::begin("Pacific/Chuuk", -49972, 0, "LMT", Ghost(g))
        .step(-3944628428, 36428, 0, "LMT", Ghost(g))
        .step(-2177489228, 36000, 0, "+10", Ghost(g))
        .step(-1743674400, 32400, 0, "+09", Ghost(g))
        .step(-1606813200, 36000, 0, "+10", Ghost(g))
        .step(-907408800, 32400, 0, "+09", Ghost(g))
        .step(-770634000, 36000, 0, "+10", Ghost(g))
        .step(2147483647, 36000, 0, "+10", Ghost(g))
        .finish(Ghost(g))
}

/// The zone `Pacific/Easter`.
pub fn easter() -> (r: Tz)
    ensures
        r.wf(),
        r.zone_name() == "Pacific/Easter"@,
        r.table() == tables::pacific::easter(),
{
    let ghost g = tables::pacific::easter_rows();
    FixedTimespanSet::begin("Pacific/Easter", -26248, 0, "LMT", Ghost(g))
        .step(-2524495352, -26248, 0, "EMT", Ghost(g))
        .step(-1178124152, -25200, 0, "-07", Ghost(g))
        .step(-36619200, -25200, 3600, "-06", Ghost(g))
        .step(-23922000, -25200, 0, "-07", Ghost(g))
        .step(-3355200, -25200, 3600, "-06", Ghost(g))
        .step(7527600, -25200, 0, "-07", Ghost(g))
        .step(24465600, -25200, 3600, "-06", Ghost(g))
        .step(37767600, -25200, 0, "-07", Ghost(g))
        .step(55915200, -25200, 3600, "-06", Ghost(g))
        .step(69217200, -25200, 0, "-07", Ghost(g))
        .step(87969600, -25200, 3600, "-06", Ghost(g))
        .step(100666800, -25200, 0, "-07", Ghost(g))
        .step(118209600, -25200, 3600, "-06", Ghost(g))
        .step(132116400, -25200, 0, "-07", Ghost(g))
        .step(150868800, -25200, 3600, "-06", Ghost(g))
        .step(163566000, -25200, 0, "-07", Ghost(g))
        .step(182318400, -25200, 3600, "-06", Ghost(g))
        .step(195620400, -25200, 0, "-07", Ghost(g))
        .step(213768000, -25200, 3600, "-06", Ghost(g))
        .step(227070000, -25200, 0, "-07", Ghost(g))
        .step(245217600, -25200, 3600, "-06", Ghost(g))
        .step(258519600, -25200, 0, "-07", Ghost(g))
        .step(277272000, -25200, 3600, "-06", Ghost(g))
        .step(289969200, -25200, 0, "-07", Ghost(g))
        .step(308721600, -25200, 3600, "-06", Ghost(g))
        .step(321418800, -25200, 0, "-07", Ghost(g))
        .step(340171200, -25200, 3600, "-06", Ghost(g))
        .step(353473200, -25200, 0, "-07", Ghost(g))
        .step(371620800, -25200, 3600, "-06", Ghost(g))
        .step(384922800, -21600, 0, "-06", Ghost(g))
        .step(403070400, -21600, 3600, "-05", Ghost(g))
        .step(416372400, -21600, 0, "-06", Ghost(g))
        .step(434520000, -21600, 3600, "-05", Ghost(g))
        .step(447822000, -21600, 0, "-06", Ghost(g))
        .step(466574400, -21600, 3600, "-05", Ghost(g))
        .step(479271600, -21600, 0, "-06", Ghost(g))
        .step(498024000, -21600, 3600, "-05", Ghost(g))
        .step(510721200, -21600, 0, "-06", Ghost(g))
        .step(529473600, -21600, 3600, "-05", Ghost(g))
        .step(545194800, -21600, 0, "-06", Ghost(g))
        .step(560923200, -21600, 3600, "-05", Ghost(g))
        .step(574225200, -21600, 0, "-06", Ghost(g))
        .step(592372800, -21600, 3600, "-05", Ghost(g))
        .step(605674800, -21600, 0, "-06", Ghost(g))
        .step(624427200, -21600, 3600, "-05", Ghost(g))
        .step(637124400, -21600, 0, "-06", Ghost(g))
        .step(653457600, -21600, 3600, "-05", Ghost(g))
        .step(668574000, -21600, 0, "-06", Ghost(g))
        .step(687326400, -21600, 3600, "-05", Ghost(g))
        .step(700628400, -21600, 0, "-06", Ghost(g))
        .step(718776000, -21600, 3600, "-05", Ghost(g))
        .step(732078000, -21600, 0, "-06", Ghost(g))
        .step(750225600, -21600, 3600, "-05", Ghost(g))
        .step(763527600, -21600, 0, "-06", Ghost(g))
        .step(781675200, -21600, 3600, "-05", Ghost(g))
        .step(794977200, -21600, 0, "-06", Ghost(g))
        .step(813729600, -21600, 3600, "-05", Ghost(g))
        .step(826426800, -21600, 0, "-06", Ghost(g))
        .step(845179200, -21600, 3600, "-05", Ghost(g))
        .step(859690800, -21600, 0, "-06", Ghost(g))
        .step(876628800, -21600, 3600, "-05", Ghost(g))
        .step(889930800, -21600, 0, "-06", Ghost(g))
        .step(906868800, -21600, 3600, "-05", Ghost(g))
        .step(923194800, -21600, 0, "-06", Ghost(g))
        .step(939528000, -21600, 3600, "-05", Ghost(g))
        .step(952830000, -21600, 0, "-06", Ghost(g))
        .step(971582400, -21600, 3600, "-05", Ghost(g))
        .step(984279600, -21600, 0, "-06", Ghost(g))
        .step(1003032000, -21600, 3600, "-05", Ghost(g))
        .step(1015729200, -21600, 0, "-06", Ghost(g))
        .step(1034481600, -21600, 3600, "-05", Ghost(g))
        .step(1047178800, -21600, 0, "-06", Ghost(g))
        .step(1065931200, -21600, 3600, "-05", Ghost(g))
        .step(1079233200, -21600, 0, "-06", Ghost(g))
        .step(1097380800, -21600, 3600, "-05", Ghost(g))
        .step(1110682800, -21600, 0, "-06", Ghost(g))
        .step(1128830400, -21600, 3600, "-05", Ghost(g))
        .step(1142132400, -21600, 0, "-06", Ghost(g))
        .step(1160884800, -21600, 3600, "-05", Ghost(g))
        .step(1173582000, -21600, 0, "-06", Ghost(g))
        .step(1192334400, -21600, 3600, "-05", Ghost(g))
        .step(1206846000, -21600, 0, "-06", Ghost(g))
        .step(1223784000, -21600, 3600, "-05", Ghost(g))
        .step(1237086000, -21600, 0, "-06", Ghost(g))
        .step(1255233600, -21600, 3600, "-05", Ghost(g))
        .step(1270350000, -21600, 0, "-06", Ghost(g))
        .step(1286683200, -21600, 3600, "-05", Ghost(g))
        .step(1304823600, -21600, 0, "-06", Ghost(g))
        .step(1313899200, -21600, 3600, "-05", Ghost(g))
        .step(1335668400, -21600, 0, "-06", Ghost(g))
        .step(1346558400, -21600, 3600, "-05", Ghost(g))
        .step(1367118000, -21600, 0, "-06", Ghost(g))
        .step(1378612800, -21600, 3600, "-05", Ghost(g))
        .step(1398567600, -21600, 0, "-06", Ghost(g))
        .step(1410062400, -21600, 3600, "-05", Ghost(g))
        .step(1463281200, -21600, 0, "-06", Ghost(g))
        .step(1471147200, -21600, 3600, "-05", Ghost(g))
        .step(1494730800, -21600, 0, "-06", Ghost(g))
        .step(1502596800, -21600, 3600, "-05", Ghost(g))
        .step(1526180400, -21600, 0, "-06", Ghost(g))
        .step(1534046400, -21600, 3600, "-05", Ghost(g))
        .step(1554606000, -21600, 0, "-06", Ghost(g))
        .step(1567915200, -21600, 3600, "-05", Ghost(g))
        .step(1586055600, -21600, 0, "-06", Ghost(g))
        .step(1599364800, -21600, 3600, "-05", Ghost(g))
        .step(1617505200, -21600, 0, "-06", Ghost(g))
        .step(1630814400, -21600, 3600, "-05", Ghost(g))
        .step(1648954800, -21600, 0, "-06", Ghost(g))
        .step(1662868800, -21600, 3600, "-05", Ghost(g))
        .step(1680404400, -21600, 0, "-06", Ghost(g))
        .step(1693713600, -21600, 3600, "-05", Ghost(g))
        .step(1712458800, -21600, 0, "-06", Ghost(g))
        .step(1725768000, -21600, 3600, "-05", Ghost(g))
        .step(1743908400, -21600, 0, "-06", Ghost(g))
        .step(1757217600, -21600, 3600, "-05", Ghost(g))
        .step(1775358000, -21600, 0, "-06", Ghost(g))
        .step(1788667200, -21600, 3600, "-05", Ghost(g))
        .step(1806807600, -21600, 0, "-06", Ghost(g))
        .step(1820116800, -21600, 3600, "-05", Ghost(g))
        .step(1838257200, -21600, 0, "-06", Ghost(g))
        .step(1851566400, -21600, 3600, "-05", Ghost(g))
        .step(1870311600, -21600, 0, "-06", Ghost(g))
        .step(1883016000, -21600, 3600, "-05", Ghost(g))
        .step(1901761200, -21600, 0, "-06", Ghost(g))
        .step(1915070400, -21600, 3600, "-05", Ghost(g))
        .step(1933210800, -21600, 0, "-06", Ghost(g))
        .step(1946520000, -21600, 3600, "-05", Ghost(g))
        .step(1964660400, -21600, 0, "-06", Ghost(g))
        .step(1977969600, -21600, 3600, "-05", Ghost(g))
        .step(1996110000, -21600, 0, "-06", Ghost(g))
        .step(2009419200, -21600, 3600, "-05", Ghost(g))
        .step(2027559600, -21600, 0, "-06", Ghost(g))
        .step(2040868800, -21600, 3600, "-05", Ghost(g))
        .step(2059614000, -21600, 0, "-06", Ghost(g))
        .step(2072318400, -21600, 3600, "-05", Ghost(g))
        .step(2091063600, -21600, 0, "-06", Ghost(g))
        .step(2104372800, -21600, 3600, "-05", Ghost(g))
        .step(2122513200, -21600, 0, "-06", Ghost(g))
        .step(2135822400, -21600, 3600, "-05", Ghost(g))
        .step(2147483647, -21600, 3600, "-05", Ghost(g))
        .finish(Ghost(g))
}

/// The zone `Pacific/Efate`.
pub fn efate() -> (r: Tz)
    ensures
        r.wf(),
        r.zone_name() == "Pacific/Efate"@,
        r.table() == tables::pacific::efate(),
{
    let ghost g = tables::pacific::efate_rows();
    FixedTimespanSet::begin("Pacific/Efate", 40396, 0, "LMT", Ghost(g))
        .step(-1829387596, 39600, 0, "+11", Ghost(g))
        .step(125409600, 39600, 3600, "+12", Ghost(g))
        .step(133876800, 39600, 0, "+11", Ghost(g))
        .step(433256400, 39600, 3600, "+12", Ghost(g))
        .step(448977600, 39600, 0, "+11", Ghost(g))
        .step(464706000, 39600, 3600, "+12", Ghost(g))
        .step(480427200, 39600, 0, "+11", Ghost(g))
        .step(496760400, 39600, 3600, "+12", Ghost(g))
        .step(511876800, 39600, 0, "+11", Ghost(g))
        .step(528210000, 39600, 3600, "+12", Ghost(g))
        .step(543931200, 39600, 0, "+11", Ghost(g))
        .step(559659600, 39600, 3600, "+12", Ghost(g))
        .step(575380800, 39600, 0, "+11", Ghost(g))
        .step(591109200, 39600, 3600, "+12", Ghost(g))
        .step(606830400, 39600, 0, "+11", Ghost(g))
        .step(622558800, 39600, 3600, "+12", Ghost(g))
        .step(638280000, 39600, 0, "+11", Ghost(g))
        .step(654008400, 39600, 3600, "+12", Ghost(g))
        .step(669729600, 39600, 0, "+11", Ghost(g))
        .step(686062800, 39600, 3600, "+12", Ghost(g))
        .step(696340800, 39600, 0, "+11", Ghost(g))
        .step(719931600, 39600, 3600, "+12", Ghost(g))
        .step(727790400, 39600, 0, "+11", Ghost(g))
        .step(2147483647, 39600, 0, "+11", Ghost(g))
        .finish(Ghost(g))
}

/// The zone `Pacific/Enderbury`.
pub fn enderbury() -> (r: Tz)
    ensures
        r.wf(),
        r.zone_name() == "Pacific/Enderbury"@,
        r.table() == tables::pacific::enderbury(),
{
    let ghost g = tables::pacific::enderbury_rows();
    FixedTimespanSet::begin("Pacific/Enderbury", 0, 0, "-00", Ghost(g))
        .step(-1020470400, -43200, 0, "-12", Ghost(g))
        .step(307627200, -39600, 0, "-11", Ghost(g))
        .step(788871600, 46800, 0, "+13", Ghost(g))
        .step(2147483647, 46800, 0, "+13", Ghost(g))
        .finish(Ghost(g))
}

/// The zone `Pacific/Fakaofo`.
pub fn fakaofo() -> (r: Tz)
    ensures
        r.wf(),
        r.zone_name() == "Pacific/Fakaofo"@,
        r.table() == tables::pacific::fakaofo(),
{
    let ghost g = tables::pacific::fakaofo_rows();
    FixedTimespanSet::begin("Pacific/Fakaofo", -41096, 0, "LMT", Ghost(g))
        .step(-2177411704, -39600, 0, "-11", Ghost(g))
        .step(1325242800, 46800, 0, "+13", Ghost(g))
        .step(2147483647, 46800, 0, "+13", Ghost(g))
        .finish(Ghost(g))
}

/// The zone `Pacific/Fiji`.
pub fn fiji() -> (r: Tz)
    ensures
        r.wf(),
        r.zone_name() == "Pacific/Fiji"@,
        r.table() == tables::pacific::fiji(),
{
    let ghost g = tables::pacific::fiji_rows();
    FixedTimespanSet::begin("Pacific/Fiji", 42944, 0, "LMT", Ghost(g))
        .step(-1709985344, 43200, 0, "+12", Ghost(g))
        .step(909842400, 43200, 3600, "+13", Ghost(g))
        .step(920124000, 43200, 0, "+12", Ghost(g))
        .step(941896800, 43200, 3600, "+13", Ghost(g))
        .step(951573600, 43200, 0, "+12", Ghost(g))
        .step(1259416800, 43200, 3600, "+13", Ghost(g))
        .step(1269698400, 43200, 0, "+12", Ghost(g))
        .step(1287842400, 43200, 3600, "+13", Ghost(g))
        .step(1299333600, 43200, 0, "+12", Ghost(g))
        .step(1319292000, 43200, 3600, "+13", Ghost(g))
        .step(1327154400, 43200, 0, "+12", Ghost(g))
        .step(1350741600, 43200, 3600, "+13", Ghost(g))
        .step(1358604000, 43200, 0, "+12", Ghost(g))
        .step(1382796000, 43200, 3600, "+13", Ghost(g))
        .step(1390050000, 43200, 0, "+12", Ghost(g))
        .step(1414850400, 43200, 3600, "+13", Ghost(g))
        .step(1421503200, 43200, 0, "+12", Ghost(g))
        .step(1446300000, 43200, 3600, "+13", Ghost(g))
        .step(1452952800, 43200, 0, "+12", Ghost(g))
        .step(1478354400, 43200, 3600, "+13", Ghost(g))
        .step(1484402400, 43200, 0, "+12", Ghost(g))
        .step(1509804000, 43200, 3600, "+13", Ghost(g))
        .step(1515852000, 43200, 0, "+12", Ghost(g))
        .step(1541253600, 43200, 3600, "+13", Ghost(g))
        .step(1547301600, 43200, 0, "+12", Ghost(g))
        .step(1573308000, 43200, 3600, "+13", Ghost(g))
        .step(1578751200, 43200, 0, "+12", Ghost(g))
        .step(1608386400, 43200, 3600, "+13", Ghost(g))
        .step(1610805600, 43200, 0, "+12", Ghost(g))
        .step(2147483647, 43200, 0, "+12", Ghost(g))
        .finish(Ghost(g))
}

/// The zone `Pacific/Funafuti`.
pub fn funafuti() -> (r: Tz)
    ensures
        r.wf(),
        r.zone_name() == "Pacific/Funafuti"@,
        r.table() == tables::pacific::funafuti(),
{
    let ghost g = tables::pacific::funafuti_rows();
    FixedTimespanSet::begin("Pacific/Funafuti", 43012, 0, "LMT", Ghost(g))
        .step(-2177495812, 43200, 0, "+12", Ghost(g))
        .step(2147483647, 43200, 0, "+12", Ghost(g))
        .finish(Ghost(g))
}

/// The zone `Pacific/Galapagos`.
pub fn galapagos() -> (r: Tz)
    ensures
        r.wf(),
        r.zone_name() == "Pacific/Galapagos"@,
        r.table() == tables::pacific::galapagos(),
{
    let ghost g = tables::pacific::galapagos_rows();
    FixedTimespanSet::begin("Pacific/Galapagos", -21504, 0, "LMT", Ghost(g))
        .step(-1230746496, -18000, 0, "-05", Ghost(g))
        .step(504939600, -21600, 0, "-06", Ghost(g))
        .step(722930400, -21600, 3600, "-05", Ghost(g))
        .step(728888400, -21600, 0, "-06", Ghost(g))
        .step(2147483647, -21600, 0, "-06", Ghost(g))
        .finish(Ghost(g))
}

/// The zone `Pacific/Gambier`.
pub fn gambier() -> (r: Tz)
    ensures
        r.wf(),
        r.zone_name() == "Pacific/Gambier"@,
        r.table() == tables::pacific::gambier(),
{
    let ghost g = tables::pacific::gambier_rows();
    FixedTimespanSet::begin("Pacific/Gambier", -32388, 0, "LMT", Ghost(g))
        .step(-1806678012, -32400, 0, "-09", Ghost(g))
        .step(2147483647, -32400, 0, "-09", Ghost(g))
        .finish(Ghost(g))
}

/// The zone `Pacific/Guadalcanal`.
pub fn guadalcanal() -> (r: Tz)
    ensures
        r.wf(),
        r.zone_name() == "Pacific/Guadalcanal"@,
        r.table() == tables::pacific::guadalcanal(),
{
    let ghost g = tables::pacific::guadalcanal_rows();
    FixedTimespanSet::begin("Pacific/Guadalcanal", 38388, 0, "LMT", Ghost(g))
        .step(-1806748788, 39600, 0, "+11", Ghost(g))
        .step(2147483647, 39600, 0, "+11", Ghost(g))
        .finish(Ghost(g))
}

/// The zone `Pacific/Guam`.
pub fn guam() -> (r: Tz)
    ensures
        r.wf(),
        r.zone_name() == "Pacific/Guam"@,
        r.table() == tables::pacific::guam(),
{
    let ghost g = tables::pacific::guam_rows();
    FixedTimespanSet::begin("Pacific/Guam", -51660, 0, "LMT", Ghost(g))
        .step(-3944626740, 34740, 0, "LMT", Ghost(g))
        .step(-2177487540, 36000, 0, "GST", Ghost(g))
        .step(-885549600, 32400, 0, "+09", Ghost(g))
        .step(-802256400, 36000, 0, "GST", Ghost(g))
        .step(-331891200, 36000, 3600, "GDT", Ghost(g))
        .step(-281610000, 36000, 0, "GST", Ghost(g))
        .step(-73728000, 36000, 3600, "GDT", Ghost(g))
        .step(-29415540, 36000, 0, "GST", Ghost(g))
        .step(-16704000, 36000, 3600, "GDT", Ghost(g))
        .step(-10659600, 36000, 0, "GST", Ghost(g))
        .step(9907200, 36000, 3600, "GDT", Ghost(g))
        .step(21394800, 36000, 0, "GST", Ghost(g))
        .step(41356800, 36000, 3600, "GDT", Ghost(g))
        .step(52844400, 36000, 0, "GST", Ghost(g))
        .step(124819200, 36000, 3600, "GDT", Ghost(g))
        .step(130863600, 36000, 0, "GST", Ghost(g))
        .step(201888000, 36000, 3600, "GDT", Ghost(g))
        .step(209487660, 36000, 0, "GST", Ghost(g))
        .step(230659200, 36000, 3600, "GDT", Ghost(g))
        .step(241542000, 36000, 0, "GST", Ghost(g))
        .step(977493600, 36000, 0, "ChST", Ghost(g))
        .finish(Ghost(g))
}

/// The zone `Pacific/Honolulu`.
pub fn honolulu() -> (r: Tz)
    ensures
        r.wf(),
        r.zone_name() == "Pacific/Honolulu"@,
        r.table() == tables::pacific::honolulu(),
{
    let ghost g = tables::pacific::honolulu_rows();
    FixedTimespanSet::begin("Pacific/Honolulu", -37886, 0, "LMT", Ghost(g))
        .step(-2334101314, -37800, 0, "HST", Ghost(g))
        .step(-1157283000, -37800, 3600, "HDT", Ghost(g))
        .step(-1155436200, -37800, 0, "HST", Ghost(g))
        .step(-880198200, -37800, 3600, "HWT", Ghost(g))
        .step(-769395600, -37800, 3600, "HPT", Ghost(g))
        .step(-765376200, -37800, 0, "HST", Ghost(g))
        .step(-712150200, -36000, 0, "HST", Ghost(g))
        .finish(Ghost(g))
}

/// The zone `Pacific/Johnston`.
pub fn johnston() -> (r: Tz)
    ensures
        r.wf(),
        r.zone_name() == "Pacific/Johnston"@,
        r.table() == tables::pacific::johnston(),
{
    let ghost g = tables::pacific::johnston_rows();
    FixedTimespanSet::begin("Pacific/Johnston", -37886, 0, "LMT", Ghost(g))
        .step(-2334101314, -37800, 0, "HST", Ghost(g))
        .step(-1157283000, -37800, 3600, "HDT", Ghost(g))
        .step(-1155436200, -37800, 0, "HST", Ghost(g))
        .step(-880198200, -37800, 3600, "HWT", Ghost(g))
        .step(-769395600, -37800, 3600, "HPT", Ghost(g))
        .step(-765376200, -37800, 0, "HST", Ghost(g))
        .step(-712150200, -36000, 0, "HST", Ghost(g))
        .finish(Ghost(g))
}

/// The zone `Pacific/Kanton`.
pub fn kanton() -> (r: Tz)
    ensures
        r.wf(),
        r.zone_name() == "Pacific/Kanton"@,
        r.table() == tables::pacific::kanton(),
{
    let ghost g = tables::pacific::kanton_rows();
    FixedTimespanSet::begin("Pacific/Kanton", 0, 0, "-00", Ghost(g))
        .step(-1020470400, -43200, 0, "-12", Ghost(g))
        .step(307627200, -39600, 0, "-11", Ghost(g))
        .step(788871600, 46800, 0, "+13", Ghost(g))
        .step(2147483647, 46800, 0, "+13", Ghost(g))
        .finish(Ghost(g))
}

/// The zone `Pacific/Kiritimati`.
pub fn kiritimati() -> (r: Tz)
    ensures
        r.wf(),
        r.zone_name() == "Pacific/Kiritimati"@,
        r.table() == tables::pacific::kiritimati(),
{
    let ghost g = tables::pacific::kiritimati_rows();
    FixedTimespanSet::begin("Pacific/Kiritimati", -37760, 0, "LMT", Ghost(g))
        .step(-2177415040, -38400, 0, "-1040", Ghost(g))
        .step(307622400, -36000, 0, "-10", Ghost(g))
        .step(788868000, 50400, 0, "+14", Ghost(g))
        .step(2147483647, 50400, 0, "+14", Ghost(g))
        .finish(Ghost(g))
}

/// The zone `Pacific/Kosrae`.
pub fn kosrae() -> (r: Tz)
    ensures
        r.wf(),
        r.zone_name() == "Pacific/Kosrae"@,
        r.table() == tables::pacific::kosrae(),
{
    let ghost g = tables::pacific::kosrae_rows();
    FixedTimespanSet::begin("Pacific/Kosrae", -47284, 0, "LMT", Ghost(g))
        .step(-3944631116, 39116, 0, "LMT", Ghost(g))
        .step(-2177491916, 39600, 0, "+11", Ghost(g))
        .step(-1743678000, 32400, 0, "+09", Ghost(g))
        .step(-1606813200, 39600, 0, "+11", Ghost(g))
        .step(-1041418800, 36000, 0, "+10", Ghost(g))
        .step(-907408800, 32400, 0, "+09", Ghost(g))
        .step(-770634000, 39600, 0, "+11", Ghost(g))
        .step(-7988400, 43200, 0, "+12", Ghost(g))
        .step(915105600, 39600, 0, "+11", Ghost(g))
        .step(2147483647, 39600, 0, "+11", Ghost(g))
        .finish(Ghost(g))
}

/// The zone `Pacific/Kwajalein`.
pub fn kwajalein() -> (r: Tz)
    ensures
        r.wf(),
        r.zone_name() == "Pacific/Kwajalein"@,
        r.table() == tables::pacific::kwajalein(),
{
    let ghost g = tables::pacific::kwajalein_rows();
    FixedTimespanSet::begin("Pacific/Kwajalein", 40160, 0, "LMT", Ghost(g))
        .step(-2177492960, 39600, 0, "+11", Ghost(g))
        .step(-1041418800, 36000, 0, "+10", Ghost(g))
        .step(-907408800, 32400, 0, "+09", Ghost(g))
        .step(-817462800, 39600, 0, "+11", Ghost(g))
        .step(-7988400, -43200, 0, "-12", Ghost(g))
        .step(745934400, 43200, 0, "+12", Ghost(g))
        .step(2147483647, 43200, 0, "+12", Ghost(g))
        .finish(Ghost(g))
}

/// The zone `Pacific/Majuro`.
pub fn majuro() -> (r: Tz)
    ensures
        r.wf(),
        r.zone_name() == "Pacific/Majuro"@,
        r.table() == tables::pacific::majuro(),
{
    let ghost g = tables::pacific::majuro_rows();
    FixedTimespanSet::begin("Pacific/Majuro", 41088, 0, "LMT", Ghost(g))
        .step(-2177493888, 39600, 0, "+11", Ghost(g))
        .step(-1743678000, 32400, 0, "+09", Ghost(g))
        .step(-1606813200, 39600, 0, "+11", Ghost(g))
        .step(-1041418800, 36000, 0, "+10", Ghost(g))
        .step(-907408800, 32400, 0, "+09", Ghost(g))
        .step(-818067600, 39600, 0, "+11", Ghost(g))
        .step(-7988400, 43200, 0, "+12", Ghost(g))
        .step(2147483647, 43200, 0, "+12", Ghost(g))
        .finish(Ghost(g))
}

/// The zone `Pacific/Marquesas`.
pub fn marquesas() -> (r: Tz)
    ensures
        r.wf(),
        r.zone_name() == "Pacific/Marquesas"@,
        r.table() == tables::pacific::marquesas(),
{
    let ghost g = tables::pacific::marquesas_rows();
    FixedTimespanSet::begin("Pacific/Marquesas", -33480, 0, "LMT", Ghost(g))
        .step(-1806676920, -34200, 0, "-0930", Ghost(g))
        .step(2147483647, -34200, 0, "-0930", Ghost(g))
        .finish(Ghost(g))
}

/// The zone `Pacific/Midway`.
pub fn midway() -> (r: Tz)
    ensures
        r.wf(),
        r.zone_name() == "Pacific/Midway"@,
        r.table() == tables::pacific::midway(),
{
    let ghost g = tables::pacific::midway_rows();
    FixedTimespanSet::begin("Pacific/Midway", -42568, 0, "LMT", Ghost(g))
        .step(-2177410232, -39600, 0, "-11", Ghost(g))
        .step(-428504400, -39600, 3600, "-10", Ghost(g))
        .step(-420645600, -39600, 0, "SST", Ghost(g))
        .finish(Ghost(g))
}

/// The zone `Pacific/Nauru`.
pub fn nauru() -> (r: Tz)
    ensures
        r.wf(),
        r.zone_name() == "Pacific/Nauru"@,
        r.table() == tables::pacific::nauru(),
{
    let ghost g = tables::pacific::nauru_rows();
    FixedTimespanSet::begin("Pacific/Nauru", 40060, 0, "LMT", Ghost(g))
        .step(-1545131260, 41400, 0, "+1130", Ghost(g))
        .step(-862918200, 32400, 0, "+09", Ghost(g))
        .step(-767350800, 41400, 0, "+1130", Ghost(g))
        .step(287418600, 43200, 0, "+12", Ghost(g))
        .step(2147483647, 43200, 0, "+12", Ghost(g))
        .finish(Ghost(g))
}

/// The zone `Pacific/Niue`.
pub fn niue() -> (r: Tz)
    ensures
        r.wf(),
        r.zone_name() == "Pacific/Niue"@,
        r.table() == tables::pacific::niue(),
{
    let ghost g = tables::pacific::niue_rows();
    FixedTimespanSet::begin("Pacific/Niue", -40780, 0, "LMT", Ghost(g))
        .step(-543069620, -40800, 0, "-1120", Ghost(g))
        .step(-173623200, -39600, 0, "-11", Ghost(g))
        .step(2147483647, -39600, 0, "-11", Ghost(g))
        .finish(Ghost(g))
}

/// The zone `Pacific/Norfolk`.
pub fn norfolk() -> (r: Tz)
    ensures
        r.wf(),
        r.zone_name() == "Pacific/Norfolk"@,
        r.table() == tables::pacific::norfolk(),
{
    let ghost g = tables::pacific::norfolk_rows();
    FixedTimespanSet::begin("Pacific/Norfolk", 40312, 0, "LMT", Ghost(g))
        .step(-2177493112, 40320, 0, "+1112", Ghost(g))
        .step(-599656320, 41400, 0, "+1130", Ghost(g))
        .step(152029800, 41400, 3600, "+1230", Ghost(g))
        .step(162916200, 41400, 0, "+1130", Ghost(g))
        .step(1443882600, 39600, 0, "+11", Ghost(g))
        .step(1570287600, 39600, 3600, "+12", Ghost(g))
        .step(1586012400, 39600, 0, "+11", Ghost(g))
        .step(1601737200, 39600, 3600, "+12", Ghost(g))
        .step(1617462000, 39600, 0, "+11", Ghost(g))
        .step(1633186800, 39600, 3600, "+12", Ghost(g))
        .step(1648911600, 39600, 0, "+11", Ghost(g))
        .step(1664636400, 39600, 3600, "+12", Ghost(g))
        .step(1680361200, 39600, 0, "+11", Ghost(g))
        .step(1696086000, 39600, 3600, "+12", Ghost(g))
        .step(1712415600, 39600, 0, "+11", Ghost(g))
        .step(1728140400, 39600, 3600, "+12", Ghost(g))
        .step(1743865200, 39600, 0, "+11", Ghost(g))
        .step(1759590000, 39600, 3600, "+12", Ghost(g))
        .step(1775314800, 39600, 0, "+11", Ghost(g))
        .step(1791039600, 39600, 3600, "+12", Ghost(g))
        .step(1806764400, 39600, 0, "+11", Ghost(g))
        .step(1822489200, 39600, 3600, "+12", Ghost(g))
        .step(1838214000, 39600, 0, "+11", Ghost(g))
        .step(1853938800, 39600, 3600, "+12", Ghost(g))
        .step(1869663600, 39600, 0, "+11", Ghost(g))
        .step(1885993200, 39600, 3600, "+12", Ghost(g))
        .step(1901718000, 39600, 0, "+11", Ghost(g))
        .step(1917442800, 39600, 3600, "+12", Ghost(g))
        .step(1933167600, 39600, 0, "+11", Ghost(g))
        .step(1948892400, 39600, 3600, "+12", Ghost(g))
        .step(1964617200, 39600, 0, "+11", Ghost(g))
        .step(1980342000, 39600, 3600, "+12", Ghost(g))
        .step(1996066800, 39600, 0, "+11", Ghost(g))
        .step(2011791600, 39600, 3600, "+12", Ghost(g))
        .step(2027516400, 39600, 0, "+11", Ghost(g))
        .step(2043241200, 39600, 3600, "+12", Ghost(g))
        .step(2058966000, 39600, 0, "+11", Ghost(g))
        .step(2075295600, 39600, 3600, "+12", Ghost(g))
        .step(2091020400, 39600, 0, "+11", Ghost(g))
        .step(2106745200, 39600, 3600, "+12", Ghost(g))
        .step(2122470000, 39600, 0, "+11", Ghost(g))
        .step(2138194800, 39600, 3600, "+12", Ghost(g))
        .step(2147483647, 39600, 3600, "+12", Ghost(g))
        .finish(Ghost(g))
}

/// The zone `Pacific/Noumea`.
pub fn noumea() -> (r: Tz)
    ensures
        r.wf(),
        r.zone_name() == "Pacific/Noumea"@,
        r.table() == tables::pacific::noumea(),
{
    let ghost g = tables::pacific::noumea_rows();
    FixedTimespanSet::begin("Pacific/Noumea", 39948, 0, "LMT", Ghost(g))
        .step(-1829387148, 39600, 0, "+11", Ghost(g))
        .step(250002000, 39600, 3600, "+12", Ghost(g))
        .step(257342400, 39600, 0, "+11", Ghost(g))
        .step(281451600, 39600, 3600, "+12", Ghost(g))
        .step(288878400, 39600, 0, "+11", Ghost(g))
        .step(849366000, 39600, 3600, "+12", Ghost(g))
        .step(857228400, 39600, 0, "+11", Ghost(g))
        .step(2147483647, 39600, 0, "+11", Ghost(g))
        .finish(Ghost(g))
}

/// The zone `Pacific/Pago_Pago`.
pub fn pago_pago() -> (r: Tz)
    ensures
        r.wf(),
        r.zone_name() == "Pacific/Pago_Pago"@,
        r.table() == tables::pacific::pago_pago(),
{
    let ghost g = tables::pacific::pago_pago_rows();
    FixedTimespanSet::begin("Pacific/Pago_Pago", 45432, 0, "LMT", Ghost(g))
        .step(-2445424632, -40968, 0, "LMT", Ghost(g))
        .step(-1861879032, -39600, 0, "SST", Ghost(g))
        .finish(Ghost(g))
}

/// The zone `Pacific/Palau`.
pub fn palau() -> (r: Tz)
    ensures
        r.wf(),
        r.zone_name() == "Pacific/Palau"@,
        r.table() == tables::pacific::palau(),
{
    let ghost g = tables::pacific::palau_rows();
    FixedTimespanSet::begin("Pacific/Palau", -54124, 0, "LMT", Ghost(g))
        .step(-3944624276, 32276, 0, "LMT", Ghost(g))
        .step(-2177485076, 32400, 0, "+09", Ghost(g))
        .step(2147483647, 32400, 0, "+09", Ghost(g))
        .finish(Ghost(g))
}

/// The zone `Pacific/Pitcairn`.
pub fn pitcairn() -> (r: Tz)
    ensures
        r.wf(),
        r.zone_name() == "Pacific/Pitcairn"@,
        r.table() == tables::pacific::pitcairn(),
{
    let ghost g = tables::pacific::pitcairn_rows();
    FixedTimespanSet::begin("Pacific/Pitcairn", -31220, 0, "LMT", Ghost(g))
        .step(-2177421580, -30600, 0, "-0830", Ghost(g))
        .step(893665800, -28800, 0, "-08", Ghost(g))
        .step(2147483647, -28800, 0, "-08", Ghost(g))
        .finish(Ghost(g))
}

/// The zone `Pacific/Pohnpei`.
pub fn pohnpei() -> (r: Tz)
    ensures
        r.wf(),
        r.zone_name() == "Pacific/Pohnpei"@,
        r.table() == tables::pacific::pohnpei(),
{
    let ghost g = tables::pacific::pohnpei_rows();
    FixedTimespanSet::begin("Pacific/Pohnpei", -48428, 0, "LMT", Ghost(g))
        .step(-3944629972, 37972, 0, "LMT", Ghost(g))
        .step(-2177490772, 39600, 0, "+11", Ghost(g))
        .step(-1743678000, 32400, 0, "+09", Ghost(g))
        .step(-1606813200, 39600, 0, "+11", Ghost(g))
        .step(-1041418800, 36000, 0, "+10", Ghost(g))
        .step(-907408800, 32400, 0, "+09", Ghost(g))
        .step(-770634000, 39600, 0, "+11", Ghost(g))
        .step(2147483647, 39600, 0, "+11", Ghost(g))
        .finish(Ghost(g))
}

/// The zone `Pacific/Ponape`.
pub fn ponape() -> (r: Tz)
    ensures
        r.wf(),
        r.zone_name() == "Pacific/Ponape"@,
        r.table() == tables::pacific::ponape(),
{
    let ghost g = tables::pacific::ponape_rows();
    FixedTimespanSet::begin("Pacific/Ponape", 38388, 0, "LMT", Ghost(g))
        .step(-1806748788, 39600, 0, "+11", Ghost(g))
        .step(2147483647, 39600, 0, "+11", Ghost(g))
        .finish(Ghost(g))
}

/// The zone `Pacific/Port_Moresby`.
pub fn port_moresby() -> (r: Tz)
    ensures
        r.wf(),
        r.zone_name() == "Pacific/Port_Moresby"@,
        r.table() == tables::pacific::port_moresby(),
{
    let ghost g = tables::pacific::port_moresby_rows();
    FixedTimespanSet::begin("Pacific/Port_Moresby", 35320, 0, "LMT", Ghost(g))
        .step(-2840176120, 35312, 0, "PMMT", Ghost(g))
        .step(-2366790512, 36000, 0, "+10", Ghost(g))
        .step(2147483647, 36000, 0, "+10", Ghost(g))
        .finish(Ghost(g))
}

/// The zone `Pacific/Rarotonga`.
pub fn rarotonga() -> (r: Tz)
    ensures
        r.wf(),
        r.zone_name() == "Pacific/Rarotonga"@,
        r.table() == tables::pacific::rarotonga(),
{
    let ghost g = tables::pacific::rarotonga_rows();
    FixedTimespanSet::begin("Pacific/Rarotonga", 48056, 0, "LMT", Ghost(g))
        .step(-2209555256, -38344, 0, "LMT", Ghost(g))
        .step(-543072056, -37800, 0, "-1030", Ghost(g))
        .step(279714600, -37800, 3600, "-0930", Ghost(g))
        .step(289387800, -36000, 0, "-10", Ghost(g))
        .step(309952800, -36000, 1800, "-0930", Ghost(g))
        .step(320837400, -36000, 0, "-10", Ghost(g))
        .step(341402400, -36000, 1800, "-0930", Ghost(g))
        .step(352287000, -36000, 0, "-10", Ghost(g))
        .step(372852000, -36000, 1800, "-0930", Ghost(g))
        .step(384341400, -36000, 0, "-10", Ghost(g))
        .step(404906400, -36000, 1800, "-0930", Ghost(g))
        .step(415791000, -36000, 0, "-10", Ghost(g))
        .step(436356000, -36000, 1800, "-0930", Ghost(g))
        .step(447240600, -36000, 0, "-10", Ghost(g))
        .step(467805600, -36000, 1800, "-0930", Ghost(g))
        .step(478690200, -36000, 0, "-10", Ghost(g))
        .step(499255200, -36000, 1800, "-0930", Ghost(g))
        .step(510139800, -36000, 0, "-10", Ghost(g))
        .step(530704800, -36000, 1800, "-0930", Ghost(g))
        .step(541589400, -36000, 0, "-10", Ghost(g))
        .step(562154400, -36000, 1800, "-0930", Ghost(g))
        .step(573643800, -36000, 0, "-10", Ghost(g))
        .step(594208800, -36000, 1800, "-0930", Ghost(g))
        .step(605093400, -36000, 0, "-10", Ghost(g))
        .step(625658400, -36000, 1800, "-0930", Ghost(g))
        .step(636543000, -36000, 0, "-10", Ghost(g))
        .step(657108000, -36000, 1800, "-0930", Ghost(g))
        .step(667992600, -36000, 0, "-10", Ghost(g))
        .step(2147483647, -36000, 0, "-10", Ghost(g))
        .finish(Ghost(g))
}

/// The zone `Pacific/Saipan`.
pub fn saipan() -> (r: Tz)
    ensures
        r.wf(),
        r.zone_name() == "Pacific/Saipan"@,
        r.table() == tables::pacific::saipan(),
{
    let ghost g = tables::pacific::saipan_rows();
    FixedTimespanSet::begin("Pacific/Saipan", -51420, 0, "LMT", Ghost(g))
        .step(-3944626980, 34980, 0, "LMT", Ghost(g))
        .step(-2177487780, 32400, 0, "+09", Ghost(g))
        .step(-804157200, 36000, 0, "GST", Ghost(g))
        .step(-331891200, 36000, 3600, "GDT", Ghost(g))
        .step(-281610000, 36000, 0, "GST", Ghost(g))
        .step(-73728000, 36000, 3600, "GDT", Ghost(g))
        .step(-29415540, 36000, 0, "GST", Ghost(g))
        .step(-16704000, 36000, 3600, "GDT", Ghost(g))
        .step(-10659600, 36000, 0, "GST", Ghost(g))
        .step(9907200, 36000, 3600, "GDT", Ghost(g))
        .step(21394800, 36000, 0, "GST", Ghost(g))
        .step(41356800, 36000, 3600, "GDT", Ghost(g))
        .step(52844400, 36000, 0, "GST", Ghost(g))
        .step(124819200, 36000, 3600, "GDT", Ghost(g))
        .step(130863600, 36000, 0, "GST", Ghost(g))
        .step(201888000, 36000, 3600, "GDT", Ghost(g))
        .step(209487660, 36000, 0, "GST", Ghost(g))
        .step(230659200, 36000, 3600, "GDT", Ghost(g))
        .step(241542000, 36000, 0, "GST", Ghost(g))
        .step(977493600, 36000, 0, "ChST", Ghost(g))
        .finish(Ghost(g))
}

/// The zone `Pacific/Samoa`.
pub fn samoa() -> (r: Tz)
    ensures
        r.wf(),
        r.zone_name() == "Pacific/Samoa"@,
        r.table() == tables::pacific::samoa(),
{
    let ghost g = tables::pacific::samoa_rows();
    FixedTimespanSet::begin("Pacific/Samoa", 45432, 0, "LMT", Ghost(g))
        .step(-2445424632, -40968, 0, "LMT", Ghost(g))
        .step(-1861879032, -39600, 0, "SST", Ghost(g))
        .finish(Ghost(g))
}

/// The zone `Pacific/Tahiti`.
pub fn tahiti() -> (r: Tz)
    ensures
        r.wf(),
        r.zone_name() == "Pacific/Tahiti"@,
        r.table() == tables::pacific::tahiti(),
{
    let ghost g = tables::pacific::tahiti_rows();
    FixedTimespanSet::begin("Pacific/Tahiti", -35896, 0, "LMT", Ghost(g))
        .step(-1806674504, -36000, 0, "-10", Ghost(g))
        .step(2147483647, -36000, 0, "-10", Ghost(g))
        .finish(Ghost(g))
}

/// The zone `Pacific/Tarawa`.
pub fn tarawa() -> (r: Tz)
    ensures
        r.wf(),
        r.zone_name() == "Pacific/Tarawa"@,
        r.table() == tables::pacific::tarawa(),
{
    let ghost g = tables::pacific::tarawa_rows();
    FixedTimespanSet::begin("Pacific/Tarawa", 41524, 0, "LMT", Ghost(g))
        .step(-2177494324, 43200, 0, "+12", Ghost(g))
        .step(2147483647, 43200, 0, "+12", Ghost(g))
        .finish(Ghost(g))
}

/// The zone `Pacific/Tongatapu`.
pub fn tongatapu() -> (r: Tz)
    ensures
        r.wf(),
        r.zone_name() == "Pacific/Tongatapu"@,
        r.table() == tables::pacific::tongatapu(),
{
    let ghost g = tables::pacific::tongatapu_rows();
    FixedTimespanSet::begin("Pacific/Tongatapu", 44352, 0, "LMT", Ghost(g))
        .step(-767189952, 44400, 0, "+1220", Ghost(g))
        .step(-284041200, 46800, 0, "+13", Ghost(g))
        .step(939214800, 46800, 3600, "+14", Ghost(g))
        .step(953384400, 46800, 0, "+13", Ghost(g))
        .step(973342800, 46800, 3600, "+14", Ghost(g))
        .step(980596800, 46800, 0, "+13", Ghost(g))
        .step(1004792400, 46800, 3600, "+14", Ghost(g))
        .step(1012046400, 46800, 0, "+13", Ghost(g))
        .step(1478350800, 46800, 3600, "+14", Ghost(g))
        .step(1484398800, 46800, 0, "+13", Ghost(g))
        .step(2147483647, 46800, 0, "+13", Ghost(g))
        .finish(Ghost(g))
}

/// The zone `Pacific/Truk`.
pub fn truk() -> (r: Tz)
    ensures
        r.wf(),
        r.zone_name() == "Pacific/Truk"@,
        r.table() == tables::pacific::truk(),
{
    let ghost g = tables::pacific::truk_rows();
    FixedTimespanSet::begin("Pacific/Truk", 35320, 0, "LMT", Ghost(g))
        .step(-2840176120, 35312, 0, "PMMT", Ghost(g))
        .step(-2366790512, 36000, 0, "+10", Ghost(g))
        .step(2147483647, 36000, 0, "+10", Ghost(g))
        .finish(Ghost(g))
}

/// The zone `Pacific/Wake`.
pub fn wake() -> (r: Tz)
    ensures
        r.wf(),
        r.zone_name() == "Pacific/Wake"@,
        r.table() == tables::pacific::wake(),
{
    let ghost g = tables::pacific::wake_rows();
    FixedTimespanSet::begin("Pacific/Wake", 39988, 0, "LMT", Ghost(g))
        .step(-2177492788, 43200, 0, "+12", Ghost(g))
        .step(2147483647, 43200, 0, "+12", Ghost(g))
        .finish(Ghost(g))
}

/// The zone `Pacific/Wallis`.
pub fn wallis() -> (r: Tz)
    ensures
        r.wf(),
        r.zone_name() == "Pacific/Wallis"@,
        r.table() == tables::pacific::wallis(),
{
    let ghost g = tables::pacific::wallis_rows();
    FixedTimespanSet::begin("Pacific/Wallis", 44120, 0, "LMT", Ghost(g))
        .step(-2177496920, 43200, 0, "+12", Ghost(g))
        .step(2147483647, 43200, 0, "+12", Ghost(g))
        .finish(Ghost(g))
}

/// The zone `Pacific/Yap`.
pub fn yap() -> (r: Tz)
    ensures
        r.wf(),
        r.zone_name() == "Pacific/Yap"@,
        r.table() == tables::pacific::yap(),
{
    let ghost g = tables::pacific::yap_rows();
    FixedTimespanSet::begin("Pacific/Yap", 35320, 0, "LMT", Ghost(g))
        .step(-2840176120, 35312, 0, "PMMT", Ghost(g))
        .step(-2366790512, 36000, 0, "+10", Ghost(g))
        .step(2147483647, 36000, 0, "+10", Ghost(g))
        .finish(Ghost(g))
}

} // verus!
