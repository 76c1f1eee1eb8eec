//! Zones of the Americas.

use crate::interface::TimeZone;
use crate::timezone_impl::{FixedTimespanSet, Tz};
use crate::timezones::tables;
use vstd::prelude::*;

verus! {

/// The zone `America/Adak`.
pub fn adak() -> (r: Tz)
    ensures
        r.wf(),
        r.zone_name() == "America/Adak"@,
        r.table() == tables::america::adak(),
{
    let ghost g = tables::america::adak_rows();
    FixedTimespanSet::begin("America/Adak", 44002, 0, "LMT", Ghost(g))
        .step(-3225223727, -42398, 0, "LMT", Ghost(g))
        .step(-2188944802, -39600, 0, "NST", Ghost(g))
        .step(-880196400, -39600, 3600, "NWT", Ghost(g))
        .step(-769395600, -39600, 3600, "NPT", Ghost(g))
        .step(-765374400, -39600, 0, "NST", Ghost(g))
        .step(-86878800, -39600, 0, "BST", Ghost(g))
        .step(-21466800, -39600, 3600, "BDT", Ghost(g))
        .step(-5745600, -39600, 0, "BST", Ghost(g))
        .step(9982800, -39600, 3600, "BDT", Ghost(g))
        .step(25704000, -39600, 0, "BST", Ghost(g))
        .step(41432400, -39600, 3600, "BDT", Ghost(g))
        .step(57758400, -39600, 0, "BST", Ghost(g))
        .step(73486800, -39600, 3600, "BDT", Ghost(g))
        .step(89208000, -39600, 0, "BST", Ghost(g))
        .step(104936400, -39600, 3600, "BDT", Ghost(g))
        .step(120657600, -39600, 0, "BST", Ghost(g))
        .step(126709200, -39600, 3600, "BDT", Ghost(g))
        .step(152107200, -39600, 0, "BST", Ghost(g))
        .step(162392400, -39600, 3600, "BDT", Ghost(g))
        .step(183556800, -39600, 0, "BST", Ghost(g))
        .step(199285200, -39600, 3600, "BDT", Ghost(g))
        .step(215611200, -39600, 0, "BST", Ghost(g))
        .step(230734800, -39600, 3600, "BDT", Ghost(g))
        .step(247060800, -39600, 0, "BST", Ghost(g))
        .step(262789200, -39600, 3600, "BDT", Ghost(g))
        .step(278510400, -39600, 0, "BST", Ghost(g))
        .step(294238800, -39600, 3600, "BDT", Ghost(g))
        .step(309960000, -39600, 0, "BST", Ghost(g))
        .step(325688400, -39600, 3600, "BDT", Ghost(g))
        .step(341409600, -39600, 0, "BST", Ghost(g))
        .step(357138000, -39600, 3600, "BDT", Ghost(g))
        .step(372859200, -39600, 0, "BST", Ghost(g))
        .step(388587600, -39600, 3600, "BDT", Ghost(g))
        .step(404913600, -39600, 0, "BST", Ghost(g))
        .step(420037200, -39600, 3600, "BDT", Ghost(g))
        .step(436363200, -36000, 0, "AHST", Ghost(g))
        .step(439034400, -36000, 0, "HST", Ghost(g))
        .step(452088000, -36000, 3600, "HDT", Ghost(g))
        .step(467809200, -36000, 0, "HST", Ghost(g))
        .step(483537600, -36000, 3600, "HDT", Ghost(g))
        .step(499258800, -36000, 0, "HST", Ghost(g))
        .step(514987200, -36000, 3600, "HDT", Ghost(g))
        .step(530708400, -36000, 0, "HST", Ghost(g))
        .step(544622400, -36000, 3600, "HDT", Ghost(g))
        .step(562158000, -36000, 0, "HST", Ghost(g))
        .step(576072000, -36000, 3600, "HDT", Ghost(g))
        .step(594212400, -36000, 0, "HST", Ghost(g))
        .step(607521600, -36000, 3600, "HDT", Ghost(g))
        .step(625662000, -36000, 0, "HST", Ghost(g))
        .step(638971200, -36000, 3600, "HDT", Ghost(g))
        .step(657111600, -36000, 0, "HST", Ghost(g))
        .step(671025600, -36000, 3600, "HDT", Ghost(g))
        .step(688561200, -36000, 0, "HST", Ghost(g))
        .step(702475200, -36000, 3600, "HDT", Ghost(g))
        .step(720010800, -36000, 0, "HST", Ghost(g))
        .step(733924800, -36000, 3600, "HDT", Ghost(g))
        .step(752065200, -36000, 0, "HST", Ghost(g))
        .step(765374400, -36000, 3600, "HDT", Ghost(g))
        .step(783514800, -36000, 0, "HST", Ghost(g))
        .step(796824000, -36000, 3600, "HDT", Ghost(g))
        .step(814964400, -36000, 0, "HST", Ghost(g))
        .step(828878400, -36000, 3600, "HDT", Ghost(g))
        .step(846414000, -36000, 0, "HST", Ghost(g))
        .step(860328000, -36000, 3600, "HDT", Ghost(g))
        .step(877863600, -36000, 0, "HST", Ghost(g))
        .step(891777600, -36000, 3600, "HDT", Ghost(g))
        .step(909313200, -36000, 0, "HST", Ghost(g))
        .step(923227200, -36000, 3600, "HDT", Ghost(g))
        .step(941367600, -36000, 0, "HST", Ghost(g))
        .step(954676800, -36000, 3600, "HDT", Ghost(g))
        .step(972817200, -36000, 0, "HST", Ghost(g))
        .step(986126400, -36000, 3600, "HDT", Ghost(g))
        .step(1004266800, -36000, 0, "HST", Ghost(g))
        .step(1018180800, -36000, 3600, "HDT", Ghost(g))
        .step(1035716400, -36000, 0, "HST", Ghost(g))
        .step(1049630400, -36000, 3600, "HDT", Ghost(g))
        .step(1067166000, -36000, 0, "HST", Ghost(g))
        .step(1081080000, -36000, 3600, "HDT", Ghost(g))
        .step(1099220400, -36000, 0, "HST", Ghost(g))
        .step(1112529600, -36000, 3600, "HDT", Ghost(g))
        .step(1130670000, -36000, 0, "HST", Ghost(g))
        .step(1143979200, -36000, 3600, "HDT", Ghost(g))
        .step(1162119600, -36000, 0, "HST", Ghost(g))
        .step(1173614400, -36000, 3600, "HDT", Ghost(g))
        .step(1194174000, -36000, 0, "HST", Ghost(g))
        .step(1205064000, -36000, 3600, "HDT", Ghost(g))
        .step(1225623600, -36000, 0, "HST", Ghost(g))
        .step(1236513600, -36000, 3600, "HDT", Ghost(g))
        .step(1257073200, -36000, 0, "HST", Ghost(g))
        .step(1268568000, -36000, 3600, "HDT", Ghost(g))
        .step(1289127600, -36000, 0, "HST", Ghost(g))
        .step(1300017600, -36000, 3600, "HDT", Ghost(g))
        .step(1320577200, -36000, 0, "HST", Ghost(g))
        .step(1331467200, -36000, 3600, "HDT", Ghost(g))
        .step(1352026800, -36000, 0, "HST", Ghost(g))
        .step(1362916800, -36000, 3600, "HDT", Ghost(g))
        .step(1383476400, -36000, 0, "HST", Ghost(g))
        .step(1394366400, -36000, 3600, "HDT", Ghost(g))
        .step(1414926000, -36000, 0, "HST", Ghost(g))
        .step(1425816000, -36000, 3600, "HDT", Ghost(g))
        .step(1446375600, -36000, 0, "HST", Ghost(g))
        .step(1457870400, -36000, 3600, "HDT", Ghost(g))
        .step(1478430000, -36000, 0, "HST", Ghost(g))
        .step(1489320000, -36000, 3600, "HDT", Ghost(g))
        .step(1509879600, -36000, 0, "HST", Ghost(g))
        .step(1520769600, -36000, 3600, "HDT", Ghost(g))
        .step(1541329200, -36000, 0, "HST", Ghost(g))
        .step(1552219200, -36000, 3600, "HDT", Ghost(g))
        .step(1572778800, -36000, 0, "HST", Ghost(g))
        .step(1583668800, -36000, 3600, "HDT", Ghost(g))
        .step(1604228400, -36000, 0, "HST", Ghost(g))
        .step(1615723200, -36000, 3600, "HDT", Ghost(g))
        .step(1636282800, -36000, 0, "HST", Ghost(g))
        .step(1647172800, -36000, 3600, "HDT", Ghost(g))
        .step(1667732400, -36000, 0, "HST", Ghost(g))
        .step(1678622400, -36000, 3600, "HDT", Ghost(g))
        .step(1699182000, -36000, 0, "HST", Ghost(g))
        .step(1710072000, -36000, 3600, "HDT", Ghost(g))
        .step(1730631600, -36000, 0, "HST", Ghost(g))
        .step(1741521600, -36000, 3600, "HDT", Ghost(g))
        .step(1762081200, -36000, 0, "HST", Ghost(g))
        .step(1772971200, -36000, 3600, "HDT", Ghost(g))
        .step(1793530800, -36000, 0, "HST", Ghost(g))
        .step(1805025600, -36000, 3600, "HDT", Ghost(g))
        .step(1825585200, -36000, 0, "HST", Ghost(g))
        .step(1836475200, -36000, 3600, "HDT", Ghost(g))
        .step(1857034800, -36000, 0, "HST", Ghost(g))
        .step(1867924800, -36000, 3600, "HDT", Ghost(g))
        .step(1888484400, -36000, 0, "HST", Ghost(g))
        .step(1899374400, -36000, 3600, "HDT", Ghost(g))
        .step(1919934000, -36000, 0, "HST", Ghost(g))
        .step(1930824000, -36000, 3600, "HDT", Ghost(g))
        .step(1951383600, -36000, 0, "HST", Ghost(g))
        .step(1962878400, -36000, 3600, "HDT", Ghost(g))
        .step(1983438000, -36000, 0, "HST", Ghost(g))
        .step(1994328000, -36000, 3600, "HDT", Ghost(g))
        .step(2014887600, -36000, 0, "HST", Ghost(g))
        .step(2025777600, -36000, 3600, "HDT", Ghost(g))
        .step(2046337200, -36000, 0, "HST", Ghost(g))
        .step(2057227200, -36000, 3600, "HDT", Ghost(g))
        .step(2077786800, -36000, 0, "HST", Ghost(g))
        .step(2088676800, -36000, 3600, "HDT", Ghost(g))
        .step(2109236400, -36000, 0, "HST", Ghost(g))
        .step(2120126400, -36000, 3600, "HDT", Ghost(g))
        .step(2140686000, -36000, 0, "HST", Ghost(g))
        .finish(Ghost(g))
}

/// The zone `America/Anchorage`.
pub fn anchorage() -> (r: Tz)
    ensures
        r.wf(),
        r.zone_name() == "America/Anchorage"@,
        r.table() == tables::america::anchorage(),
{
    let ghost g = tables::america::anchorage_rows();
    FixedTimespanSet::begin("America/Anchorage", 50424, 0, "LMT", Ghost(g))
        .step(-3225223727, -35976, 0, "LMT", Ghost(g))
        .step(-2188951224, -36000, 0, "AST", Ghost(g))
        .step(-880200000, -36000, 3600, "AWT", Ghost(g))
        .step(-769395600, -36000, 3600, "APT", Ghost(g))
        .step(-765378000, -36000, 0, "AST", Ghost(g))
        .step(-86882400, -36000, 0, "AHST", Ghost(g))
        .step(-21470400, -36000, 3600, "AHDT", Ghost(g))
        .step(-5749200, -36000, 0, "AHST", Ghost(g))
        .step(9979200, -36000, 3600, "AHDT", Ghost(g))
        .step(25700400, -36000, 0, "AHST", Ghost(g))
        .step(41428800, -36000, 3600, "AHDT", Ghost(g))
        .step(57754800, -36000, 0, "AHST", Ghost(g))
        .step(73483200, -36000, 3600, "AHDT", Ghost(g))
        .step(89204400, -36000, 0, "AHST", Ghost(g))
        .step(104932800, -36000, 3600, "AHDT", Ghost(g))
        .step(120654000, -36000, 0, "AHST", Ghost(g))
        .step(126705600, -36000, 3600, "AHDT", Ghost(g))
        .step(152103600, -36000, 0, "AHST", Ghost(g))
        .step(162388800, -36000, 3600, "AHDT", Ghost(g))
        .step(183553200, -36000, 0, "AHST", Ghost(g))
        .step(199281600, -36000, 3600, "AHDT", Ghost(g))
        .step(215607600, -36000, 0, "AHST", Ghost(g))
        .step(230731200, -36000, 3600, "AHDT", Ghost(g))
        .step(247057200, -36000, 0, "AHST", Ghost(g))
        .step(262785600, -36000, 3600, "AHDT", Ghost(g))
        .step(278506800, -36000, 0, "AHST", Ghost(g))
        .step(294235200, -36000, 3600, "AHDT", Ghost(g))
        .step(309956400, -36000, 0, "AHST", Ghost(g))
        .step(325684800, -36000, 3600, "AHDT", Ghost(g))
        .step(341406000, -36000, 0, "AHST", Ghost(g))
        .step(357134400, -36000, 3600, "AHDT", Ghost(g))
        .step(372855600, -36000, 0, "AHST", Ghost(g))
        .step(388584000, -36000, 3600, "AHDT", Ghost(g))
        .step(404910000, -36000, 0, "AHST", Ghost(g))
        .step(420033600, -36000, 3600, "AHDT", Ghost(g))
        .step(436359600, -32400, 0, "YST", Ghost(g))
        .step(439030800, -32400, 0, "AKST", Ghost(g))
        .step(452084400, -32400, 3600, "AKDT", Ghost(g))
        .step(467805600, -32400, 0, "AKST", Ghost(g))
        .step(483534000, -32400, 3600, "AKDT", Ghost(g))
        .step(499255200, -32400, 0, "AKST", Ghost(g))
        .step(514983600, -32400, 3600, "AKDT", Ghost(g))
        .step(530704800, -32400, 0, "AKST", Ghost(g))
        .step(544618800, -32400, 3600, "AKDT", Ghost(g))
        .step(562154400, -32400, 0, "AKST", Ghost(g))
        .step(576068400, -32400, 3600, "AKDT", Ghost(g))
        .step(594208800, -32400, 0, "AKST", Ghost(g))
        .step(607518000, -32400, 3600, "AKDT", Ghost(g))
        .step(625658400, -32400, 0, "AKST", Ghost(g))
        .step(638967600, -32400, 3600, "AKDT", Ghost(g))
        .step(657108000, -32400, 0, "AKST", Ghost(g))
        .step(671022000, -32400, 3600, "AKDT", Ghost(g))
        .step(688557600, -32400, 0, "AKST", Ghost(g))
        .step(702471600, -32400, 3600, "AKDT", Ghost(g))
        .step(720007200, -32400, 0, "AKST", Ghost(g))
        .step(733921200, -32400, 3600, "AKDT", Ghost(g))
        .step(752061600, -32400, 0, "AKST", Ghost(g))
        .step(765370800, -32400, 3600, "AKDT", Ghost(g))
        .step(783511200, -32400, 0, "AKST", Ghost(g))
        .step(796820400, -32400, 3600, "AKDT", Ghost(g))
        .step(814960800, -32400, 0, "AKST", Ghost(g))
        .step(828874800, -32400, 3600, "AKDT", Ghost(g))
        .step(846410400, -32400, 0, "AKST", Ghost(g))
        .step(860324400, -32400, 3600, "AKDT", Ghost(g))
        .step(877860000, -32400, 0, "AKST", Ghost(g))
        .step(891774000, -32400, 3600, "AKDT", Ghost(g))
        .step(909309600, -32400, 0, "AKST", Ghost(g))
        .step(923223600, -32400, 3600, "AKDT", Ghost(g))
        .step(941364000, -32400, 0, "AKST", Ghost(g))
        .step(954673200, -32400, 3600, "AKDT", Ghost(g))
        .step(972813600, -32400, 0, "AKST", Ghost(g))
        .step(986122800, -32400, 3600, "AKDT", Ghost(g))
        .step(1004263200, -32400, 0, "AKST", Ghost(g))
        .step(1018177200, -32400, 3600, "AKDT", Ghost(g))
        .step(1035712800, -32400, 0, "AKST", Ghost(g))
        .step(1049626800, -32400, 3600, "AKDT", Ghost(g))
        .step(1067162400, -32400, 0, "AKST", Ghost(g))
        .step(1081076400, -32400, 3600, "AKDT", Ghost(g))
        .step(1099216800, -32400, 0, "AKST", Ghost(g))
        .step(1112526000, -32400, 3600, "AKDT", Ghost(g))
        .step(1130666400, -32400, 0, "AKST", Ghost(g))
        .step(1143975600, -32400, 3600, "AKDT", Ghost(g))
        .step(1162116000, -32400, 0, "AKST", Ghost(g))
        .step(1173610800, -32400, 3600, "AKDT", Ghost(g))
        .step(1194170400, -32400, 0, "AKST", Ghost(g))
        .step(1205060400, -32400, 3600, "AKDT", Ghost(g))
        .step(1225620000, -32400, 0, "AKST", Ghost(g))
        .step(1236510000, -32400, 3600, "AKDT", Ghost(g))
        .step(1257069600, -32400, 0, "AKST", Ghost(g))
        .step(1268564400, -32400, 3600, "AKDT", Ghost(g))
        .step(1289124000, -32400, 0, "AKST", Ghost(g))
        .step(1300014000, -32400, 3600, "AKDT", Ghost(g))
        .step(1320573600, -32400, 0, "AKST", Ghost(g))
        .step(1331463600, -32400, 3600, "AKDT", Ghost(g))
        .step(1352023200, -32400, 0, "AKST", Ghost(g))
        .step(1362913200, -32400, 3600, "AKDT", Ghost(g))
        .step(1383472800, -32400, 0, "AKST", Ghost(g))
        .step(1394362800, -32400, 3600, "AKDT", Ghost(g))
        .step(1414922400, -32400, 0, "AKST", Ghost(g))
        .step(1425812400, -32400, 3600, "AKDT", Ghost(g))
        .step(1446372000, -32400, 0, "AKST", Ghost(g))
        .step(1457866800, -32400, 3600, "AKDT", Ghost(g))
        .step(1478426400, -32400, 0, "AKST", Ghost(g))
        .step(1489316400, -32400, 3600, "AKDT", Ghost(g))
        .step(1509876000, -32400, 0, "AKST", Ghost(g))
        .step(1520766000, -32400, 3600, "AKDT", Ghost(g))
        .step(1541325600, -32400, 0, "AKST", Ghost(g))
        .step(1552215600, -32400, 3600, "AKDT", Ghost(g))
        .step(1572775200, -32400, 0, "AKST", Ghost(g))
        .step(1583665200, -32400, 3600, "AKDT", Ghost(g))
        .step(1604224800, -32400, 0, "AKST", Ghost(g))
        .step(1615719600, -32400, 3600, "AKDT", Ghost(g))
        .step(1636279200, -32400, 0, "AKST", Ghost(g))
        .step(1647169200, -32400, 3600, "AKDT", Ghost(g))
        .step(1667728800, -32400, 0, "AKST", Ghost(g))
        .step(1678618800, -32400, 3600, "AKDT", Ghost(g))
        .step(1699178400, -32400, 0, "AKST", Ghost(g))
        .step(1710068400, -32400, 3600, "AKDT", Ghost(g))
        .step(1730628000, -32400, 0, "AKST", Ghost(g))
        .step(1741518000, -32400, 3600, "AKDT", Ghost(g))
        .step(1762077600, -32400, 0, "AKST", Ghost(g))
        .step(1772967600, -32400, 3600, "AKDT", Ghost(g))
        .step(1793527200, -32400, 0, "AKST", Ghost(g))
        .step(1805022000, -32400, 3600, "AKDT", Ghost(g))
        .step(1825581600, -32400, 0, "AKST", Ghost(g))
        .step(1836471600, -32400, 3600, "AKDT", Ghost(g))
        .step(1857031200, -32400, 0, "AKST", Ghost(g))
        .step(1867921200, -32400, 3600, "AKDT", Ghost(g))
        .step(1888480800, -32400, 0, "AKST", Ghost(g))
        .step(1899370800, -32400, 3600, "AKDT", Ghost(g))
        .step(1919930400, -32400, 0, "AKST", Ghost(g))
        .step(1930820400, -32400, 3600, "AKDT", Ghost(g))
        .step(1951380000, -32400, 0, "AKST", Ghost(g))
        .step(1962874800, -32400, 3600, "AKDT", Ghost(g))
        .step(1983434400, -32400, 0, "AKST", Ghost(g))
        .step(1994324400, -32400, 3600, "AKDT", Ghost(g))
        .step(2014884000, -32400, 0, "AKST", Ghost(g))
        .step(2025774000, -32400, 3600, "AKDT", Ghost(g))
        .step(2046333600, -32400, 0, "AKST", Ghost(g))
        .step(2057223600, -32400, 3600, "AKDT", Ghost(g))
        .step(2077783200, -32400, 0, "AKST", Ghost(g))
        .step(2088673200, -32400, 3600, "AKDT", Ghost(g))
        .step(2109232800, -32400, 0, "AKST", Ghost(g))
        .step(2120122800, -32400, 3600, "AKDT", Ghost(g))
        .step(2140682400, -32400, 0, "AKST", Ghost(g))
        .finish(Ghost(g))
}

/// The zone `America/Anguilla`.
pub fn anguilla() -> (r: Tz)
    ensures
        r.wf(),
        r.zone_name() == "America/Anguilla"@,
        r.table() == tables::america::anguilla(),
{
    let ghost g = tables::america::anguilla_rows();
    FixedTimespanSet::begin("America/Anguilla", -15136, 0, "LMT", Ghost(g))
        .step(-1825098464, -14400, 0, "AST", Ghost(g))
        .finish(Ghost(g))
}

/// The zone `America/Antigua`.
pub fn antigua() -> (r: Tz)
    ensures
        r.wf(),
        r.zone_name() == "America/Antigua"@,
        r.table() == tables::america::antigua(),
{
    let ghost g = tables::america::antigua_rows();
    FixedTimespanSet::begin("America/Antigua", -14832, 0, "LMT", Ghost(g))
        .step(-1825098768, -18000, 0, "EST", Ghost(g))
        .step(-599598000, -14400, 0, "AST", Ghost(g))
        .finish(Ghost(g))
}

/// The zone `America/Araguaina`.
pub fn araguaina() -> (r: Tz)
    ensures
        r.wf(),
        r.zone_name() == "America/Araguaina"@,
        r.table() == tables::america::araguaina(),
{
    let ghost g = tables::america::araguaina_rows();
    FixedTimespanSet::begin("America/Araguaina", -11568, 0, "LMT", Ghost(g))
        .step(-1767214032, -10800, 0, "-03", Ghost(g))
        .step(-1206957600, -10800, 3600, "-02", Ghost(g))
        .step(-1191362400, -10800, 0, "-03", Ghost(g))
        .step(-1175374800, -10800, 3600, "-02", Ghost(g))
        .step(-1159826400, -10800, 0, "-03", Ghost(g))
        .step(-633819600, -10800, 3600, "-02", Ghost(g))
        .step(-622069200, -10800, 0, "-03", Ghost(g))
        .step(-602283600, -10800, 3600, "-02", Ghost(g))
        .step(-591832800, -10800, 0, "-03", Ghost(g))
        .step(-570747600, -10800, 3600, "-02", Ghost(g))
        .step(-560210400, -10800, 0, "-03", Ghost(g))
        .step(-539125200, -10800, 3600, "-02", Ghost(g))
        .step(-531352800, -10800, 0, "-03", Ghost(g))
        .step(-191365200, -10800, 3600, "-02", Ghost(g))
        .step(-184197600, -10800, 0, "-03", Ghost(g))
        .step(-155163600, -10800, 3600, "-02", Ghost(g))
        .step(-150069600, -10800, 0, "-03", Ghost(g))
        .step(-128898000, -10800, 3600, "-02", Ghost(g))
        .step(-121125600, -10800, 0, "-03", Ghost(g))
        .step(-99954000, -10800, 3600, "-02", Ghost(g))
        .step(-89589600, -10800, 0, "-03", Ghost(g))
        .step(-68418000, -10800, 3600, "-02", Ghost(g))
        .step(-57967200, -10800, 0, "-03", Ghost(g))
        .step(499748400, -10800, 3600, "-02", Ghost(g))
        .step(511236000, -10800, 0, "-03", Ghost(g))
        .step(530593200, -10800, 3600, "-02", Ghost(g))
        .step(540266400, -10800, 0, "-03", Ghost(g))
        .step(562129200, -10800, 3600, "-02", Ghost(g))
        .step(571197600, -10800, 0, "-03", Ghost(g))
        .step(592974000, -10800, 3600, "-02", Ghost(g))
        .step(602042400, -10800, 0, "-03", Ghost(g))
        .step(624423600, -10800, 3600, "-02", Ghost(g))
        .step(634701600, -10800, 0, "-03", Ghost(g))
        .step(813726000, -10800, 3600, "-02", Ghost(g))
        .step(824004000, -10800, 0, "-03", Ghost(g))
        .step(844570800, -10800, 3600, "-02", Ghost(g))
        .step(856058400, -10800, 0, "-03", Ghost(g))
        .step(876106800, -10800, 3600, "-02", Ghost(g))
        .step(888717600, -10800, 0, "-03", Ghost(g))
        .step(908074800, -10800, 3600, "-02", Ghost(g))
        .step(919562400, -10800, 0, "-03", Ghost(g))
        .step(938919600, -10800, 3600, "-02", Ghost(g))
        .step(951616800, -10800, 0, "-03", Ghost(g))
        .step(970974000, -10800, 3600, "-02", Ghost(g))
        .step(982461600, -10800, 0, "-03", Ghost(g))
        .step(1003028400, -10800, 3600, "-02", Ghost(g))
        .step(1013911200, -10800, 0, "-03", Ghost(g))
        .step(1036292400, -10800, 3600, "-02", Ghost(g))
        .step(1045360800, -10800, 0, "-03", Ghost(g))
        .step(1350788400, -10800, 3600, "-02", Ghost(g))
        .step(1361066400, -10800, 0, "-03", Ghost(g))
        .step(2147483647, -10800, 0, "-03", Ghost(g))
        .finish(Ghost(g))
}

/// The zone `America/Argentina/Buenos_Aires`.
pub fn argentina_buenos_aires() -> (r: Tz)
    ensures
        r.wf(),
        r.zone_name() == "America/Argentina/Buenos_Aires"@,
        r.table() == tables::america::argentina_buenos_aires(),
{
    let ghost g = tables::america::argentina_buenos_aires_rows();
    FixedTimespanSet::begin("America/Argentina/Buenos_Aires", -14028, 0, "LMT", Ghost(g))
        .step(-2372097972, -15408, 0, "CMT", Ghost(g))
        .step(-1567453392, -14400, 0, "-04", Ghost(g))
        .step(-1233432000, -14400, 3600, "-03", Ghost(g))
        .step(-1222981200, -14400, 0, "-04", Ghost(g))
        .step(-1205956800, -14400, 3600, "-03", Ghost(g))
        .step(-1194037200, -14400, 0, "-04", Ghost(g))
        .step(-1172865600, -14400, 3600, "-03", Ghost(g))
        .step(-1162501200, -14400, 0, "-04", Ghost(g))
        .step(-1141329600, -14400, 3600, "-03", Ghost(g))
        .step(-1130965200, -14400, 0, "-04", Ghost(g))
        .step(-1109793600, -14400, 3600, "-03", Ghost(g))
        .step(-1099429200, -14400, 0, "-04", Ghost(g))
        .step(-1078257600, -14400, 3600, "-03", Ghost(g))
        .step(-1067806800, -14400, 0, "-04", Ghost(g))
        .step(-1046635200, -14400, 3600, "-03", Ghost(g))
        .step(-1036270800, -14400, 0, "-04", Ghost(g))
        .step(-1015099200, -14400, 3600, "-03", Ghost(g))
        .step(-1004734800, -14400, 0, "-04", Ghost(g))
        .step(-983563200, -14400, 3600, "-03", Ghost(g))
        .step(-973198800, -14400, 0, "-04", Ghost(g))
        .step(-952027200, -14400, 3600, "-03", Ghost(g))
        .step(-941576400, -14400, 0, "-04", Ghost(g))
        .step(-931032000, -14400, 3600, "-03", Ghost(g))
        .step(-900882000, -14400, 0, "-04", Ghost(g))
        .step(-890337600, -14400, 3600, "-03", Ghost(g))
        .step(-833749200, -14400, 0, "-04", Ghost(g))
        .step(-827265600, -14400, 3600, "-03", Ghost(g))
        .step(-752274000, -14400, 0, "-04", Ghost(g))
        .step(-733780800, -14400, 3600, "-03", Ghost(g))
        .step(-197326800, -14400, 0, "-04", Ghost(g))
        .step(-190843200, -14400, 3600, "-03", Ghost(g))
        .step(-184194000, -14400, 0, "-04", Ghost(g))
        .step(-164491200, -14400, 3600, "-03", Ghost(g))
        .step(-152658000, -14400, 0, "-04", Ghost(g))
        .step(-132955200, -14400, 3600, "-03", Ghost(g))
        .step(-121122000, -14400, 0, "-04", Ghost(g))
        .step(-101419200, -14400, 3600, "-03", Ghost(g))
        .step(-86821200, -14400, 0, "-04", Ghost(g))
        .step(-71092800, -14400, 3600, "-03", Ghost(g))
        .step(-54766800, -14400, 0, "-04", Ghost(g))
        .step(-39038400, -14400, 3600, "-03", Ghost(g))
        .step(-23317200, -14400, 0, "-04", Ghost(g))
        .step(-7588800, -10800, 0, "-03", Ghost(g))
        .step(128142000, -10800, 3600, "-02", Ghost(g))
        .step(136605600, -10800, 0, "-03", Ghost(g))
        .step(596948400, -10800, 3600, "-02", Ghost(g))
        .step(605066400, -10800, 0, "-03", Ghost(g))
        .step(624423600, -10800, 3600, "-02", Ghost(g))
        .step(636516000, -10800, 0, "-03", Ghost(g))
        .step(656478000, -10800, 3600, "-02", Ghost(g))
        .step(667965600, -10800, 0, "-03", Ghost(g))
        .step(687927600, -10800, 3600, "-02", Ghost(g))
        .step(699415200, -10800, 0, "-03", Ghost(g))
        .step(719377200, -10800, 3600, "-02", Ghost(g))
        .step(731469600, -10800, 0, "-03", Ghost(g))
        .step(938919600, -14400, 3600, "-03", Ghost(g))
        .step(952052400, -10800, 0, "-03", Ghost(g))
        .step(1198983600, -10800, 3600, "-02", Ghost(g))
        .step(1205632800, -10800, 0, "-03", Ghost(g))
        .step(1224385200, -10800, 3600, "-02", Ghost(g))
        .step(1237082400, -10800, 0, "-03", Ghost(g))
        .step(2147483647, -10800, 0, "-03", Ghost(g))
        .finish(Ghost(g))
}

/// The zone `America/Argentina/Catamarca`.
pub fn argentina_catamarca() -> (r: Tz)
    ensures
        r.wf(),
        r.zone_name() == "America/Argentina/Catamarca"@,
        r.table() == tables::america::argentina_catamarca(),
{
    let ghost g = tables::america::argentina_catamarca_rows();
    FixedTimespanSet::begin("America/Argentina/Catamarca", -15788, 0, "LMT", Ghost(g))
        .step(-2372096212, -15408, 0, "CMT", Ghost(g))
        .step(-1567453392, -14400, 0, "-04", Ghost(g))
        .step(-1233432000, -14400, 3600, "-03", Ghost(g))
        .step(-1222981200, -14400, 0, "-04", Ghost(g))
        .step(-1205956800, -14400, 3600, "-03", Ghost(g))
        .step(-1194037200, -14400, 0, "-04", Ghost(g))
        .step(-1172865600, -14400, 3600, "-03", Ghost(g))
        .step(-1162501200, -14400, 0, "-04", Ghost(g))
        .step(-1141329600, -14400, 3600, "-03", Ghost(g))
        .step(-1130965200, -14400, 0, "-04", Ghost(g))
        .step(-1109793600, -14400, 3600, "-03", Ghost(g))
        .step(-1099429200, -14400, 0, "-04", Ghost(g))
        .step(-1078257600, -14400, 3600, "-03", Ghost(g))
        .step(-1067806800, -14400, 0, "-04", Ghost(g))
        .step(-1046635200, -14400, 3600, "-03", Ghost(g))
        .step(-1036270800, -14400, 0, "-04", Ghost(g))
        .step(-1015099200, -14400, 3600, "-03", Ghost(g))
        .step(-1004734800, -14400, 0, "-04", Ghost(g))
        .step(-983563200, -14400, 3600, "-03", Ghost(g))
        .step(-973198800, -14400, 0, "-04", Ghost(g))
        .step(-952027200, -14400, 3600, "-03", Ghost(g))
        .step(-941576400, -14400, 0, "-04", Ghost(g))
        .step(-931032000, -14400, 3600, "-03", Ghost(g))
        .step(-900882000, -14400, 0, "-04", Ghost(g))
        .step(-890337600, -14400, 3600, "-03", Ghost(g))
        .step(-833749200, -14400, 0, "-04", Ghost(g))
        .step(-827265600, -14400, 3600, "-03", Ghost(g))
        .step(-752274000, -14400, 0, "-04", Ghost(g))
        .step(-733780800, -14400, 3600, "-03", Ghost(g))
        .step(-197326800, -14400, 0, "-04", Ghost(g))
        .step(-190843200, -14400, 3600, "-03", Ghost(g))
        .step(-184194000, -14400, 0, "-04", Ghost(g))
        .step(-164491200, -14400, 3600, "-03", Ghost(g))
        .step(-152658000, -14400, 0, "-04", Ghost(g))
        .step(-132955200, -14400, 3600, "-03", Ghost(g))
        .step(-121122000, -14400, 0, "-04", Ghost(g))
        .step(-101419200, -14400, 3600, "-03", Ghost(g))
        .step(-86821200, -14400, 0, "-04", Ghost(g))
        .step(-71092800, -14400, 3600, "-03", Ghost(g))
        .step(-54766800, -14400, 0, "-04", Ghost(g))
        .step(-39038400, -14400, 3600, "-03", Ghost(g))
        .step(-23317200, -14400, 0, "-04", Ghost(g))
        .step(-7588800, -10800, 0, "-03", Ghost(g))
        .step(128142000, -10800, 3600, "-02", Ghost(g))
        .step(136605600, -10800, 0, "-03", Ghost(g))
        .step(596948400, -10800, 3600, "-02", Ghost(g))
        .step(605066400, -10800, 0, "-03", Ghost(g))
        .step(624423600, -10800, 3600, "-02", Ghost(g))
        .step(636516000, -10800, 0, "-03", Ghost(g))
        .step(656478000, -10800, 3600, "-02", Ghost(g))
        .step(667965600, -14400, 0, "-04", Ghost(g))
        .step(687931200, -14400, 7200, "-02", Ghost(g))
        .step(699415200, -10800, 0, "-03", Ghost(g))
        .step(719377200, -10800, 3600, "-02", Ghost(g))
        .step(731469600, -10800, 0, "-03", Ghost(g))
        .step(938919600, -14400, 3600, "-03", Ghost(g))
        .step(952052400, -10800, 0, "-03", Ghost(g))
        .step(1086058800, -14400, 0, "-04", Ghost(g))
        .step(1087704000, -10800, 0, "-03", Ghost(g))
        .step(1198983600, -10800, 3600, "-02", Ghost(g))
        .step(1205632800, -10800, 0, "-03", Ghost(g))
        .step(2147483647, -10800, 0, "-03", Ghost(g))
        .finish(Ghost(g))
}

/// The zone `America/Argentina/ComodRivadavia`.
pub fn argentina_comodrivadavia() -> (r: Tz)
    ensures
        r.wf(),
        r.zone_name() == "America/Argentina/ComodRivadavia"@,
        r.table() == tables::america::argentina_comodrivadavia(),
{
    let ghost g = tables::america::argentina_comodrivadavia_rows();
    FixedTimespanSet::begin("America/Argentina/ComodRivadavia", -15788, 0, "LMT", Ghost(g))
        .step(-2372096212, -15408, 0, "CMT", Ghost(g))
        .step(-1567453392, -14400, 0, "-04", Ghost(g))
        .step(-1233432000, -14400, 3600, "-03", Ghost(g))
        .step(-1222981200, -14400, 0, "-04", Ghost(g))
        .step(-1205956800, -14400, 3600, "-03", Ghost(g))
        .step(-1194037200, -14400, 0, "-04", Ghost(g))
        .step(-1172865600, -14400, 3600, "-03", Ghost(g))
        .step(-1162501200, -14400, 0, "-04", Ghost(g))
        .step(-1141329600, -14400, 3600, "-03", Ghost(g))
        .step(-1130965200, -14400, 0, "-04", Ghost(g))
        .step(-1109793600, -14400, 3600, "-03", Ghost(g))
        .step(-1099429200, -14400, 0, "-04", Ghost(g))
        .step(-1078257600, -14400, 3600, "-03", Ghost(g))
        .step(-1067806800, -14400, 0, "-04", Ghost(g))
        .step(-1046635200, -14400, 3600, "-03", Ghost(g))
        .step(-1036270800, -14400, 0, "-04", Ghost(g))
        .step(-1015099200, -14400, 3600, "-03", Ghost(g))
        .step(-1004734800, -14400, 0, "-04", Ghost(g))
        .step(-983563200, -14400, 3600, "-03", Ghost(g))
        .step(-973198800, -14400, 0, "-04", Ghost(g))
        .step(-952027200, -14400, 3600, "-03", Ghost(g))
        .step(-941576400, -14400, 0, "-04", Ghost(g))
        .step(-931032000, -14400, 3600, "-03", Ghost(g))
        .step(-900882000, -14400, 0, "-04", Ghost(g))
        .step(-890337600, -14400, 3600, "-03", Ghost(g))
        .step(-833749200, -14400, 0, "-04", Ghost(g))
        .step(-827265600, -14400, 3600, "-03", Ghost(g))
        .step(-752274000, -14400, 0, "-04", Ghost(g))
        .step(-733780800, -14400, 3600, "-03", Ghost(g))
        .step(-197326800, -14400, 0, "-04", Ghost(g))
        .step(-190843200, -14400, 3600, "-03", Ghost(g))
        .step(-184194000, -14400, 0, "-04", Ghost(g))
        .step(-164491200, -14400, 3600, "-03", Ghost(g))
        .step(-152658000, -14400, 0, "-04", Ghost(g))
        .step(-132955200, -14400, 3600, "-03", Ghost(g))
        .step(-121122000, -14400, 0, "-04", Ghost(g))
        .step(-101419200, -14400, 3600, "-03", Ghost(g))
        .step(-86821200, -14400, 0, "-04", Ghost(g))
        .step(-71092800, -14400, 3600, "-03", Ghost(g))
        .step(-54766800, -14400, 0, "-04", Ghost(g))
        .step(-39038400, -14400, 3600, "-03", Ghost(g))
        .step(-23317200, -14400, 0, "-04", Ghost(g))
        .step(-7588800, -10800, 0, "-03", Ghost(g))
        .step(128142000, -10800, 3600, "-02", Ghost(g))
        .step(136605600, -10800, 0, "-03", Ghost(g))
        .step(596948400, -10800, 3600, "-02", Ghost(g))
        .step(605066400, -10800, 0, "-03", Ghost(g))
        .step(624423600, -10800, 3600, "-02", Ghost(g))
        .step(636516000, -10800, 0, "-03", Ghost(g))
        .step(656478000, -10800, 3600, "-02", Ghost(g))
        .step(667965600, -14400, 0, "-04", Ghost(g))
        .step(687931200, -14400, 7200, "-02", Ghost(g))
        .step(699415200, -10800, 0, "-03", Ghost(g))
        .step(719377200, -10800, 3600, "-02", Ghost(g))
        .step(731469600, -10800, 0, "-03", Ghost(g))
        .step(938919600, -14400, 3600, "-03", Ghost(g))
        .step(952052400, -10800, 0, "-03", Ghost(g))
        .step(1086058800, -14400, 0, "-04", Ghost(g))
        .step(1087704000, -10800, 0, "-03", Ghost(g))
        .step(1198983600, -10800, 3600, "-02", Ghost(g))
        .step(1205632800, -10800, 0, "-03", Ghost(g))
        .step(2147483647, -10800, 0, "-03", Ghost(g))
        .finish(Ghost(g))
}

/// The zone `America/Argentina/Cordoba`.
pub fn argentina_cordoba() -> (r: Tz)
    ensures
        r.wf(),
        r.zone_name() == "America/Argentina/Cordoba"@,
        r.table() == tables::america::argentina_cordoba(),
{
    let ghost g = tables::america::argentina_cordoba_rows();
    FixedTimespanSet::begin("America/Argentina/Cordoba", -15408, 0, "LMT", Ghost(g))
        .step(-2372096592, -15408, 0, "CMT", Ghost(g))
        .step(-1567453392, -14400, 0, "-04", Ghost(g))
        .step(-1233432000, -14400, 3600, "-03", Ghost(g))
        .step(-1222981200, -14400, 0, "-04", Ghost(g))
        .step(-1205956800, -14400, 3600, "-03", Ghost(g))
        .step(-1194037200, -14400, 0, "-04", Ghost(g))
        .step(-1172865600, -14400, 3600, "-03", Ghost(g))
        .step(-1162501200, -14400, 0, "-04", Ghost(g))
        .step(-1141329600, -14400, 3600, "-03", Ghost(g))
        .step(-1130965200, -14400, 0, "-04", Ghost(g))
        .step(-1109793600, -14400, 3600, "-03", Ghost(g))
        .step(-1099429200, -14400, 0, "-04", Ghost(g))
        .step(-1078257600, -14400, 3600, "-03", Ghost(g))
        .step(-1067806800, -14400, 0, "-04", Ghost(g))
        .step(-1046635200, -14400, 3600, "-03", Ghost(g))
        .step(-1036270800, -14400, 0, "-04", Ghost(g))
        .step(-1015099200, -14400, 3600, "-03", Ghost(g))
        .step(-1004734800, -14400, 0, "-04", Ghost(g))
        .step(-983563200, -14400, 3600, "-03", Ghost(g))
        .step(-973198800, -14400, 0, "-04", Ghost(g))
        .step(-952027200, -14400, 3600, "-03", Ghost(g))
        .step(-941576400, -14400, 0, "-04", Ghost(g))
        .step(-931032000, -14400, 3600, "-03", Ghost(g))
        .step(-900882000, -14400, 0, "-04", Ghost(g))
        .step(-890337600, -14400, 3600, "-03", Ghost(g))
        .step(-833749200, -14400, 0, "-04", Ghost(g))
        .step(-827265600, -14400, 3600, "-03", Ghost(g))
        .step(-752274000, -14400, 0, "-04", Ghost(g))
        .step(-733780800, -14400, 3600, "-03", Ghost(g))
        .step(-197326800, -14400, 0, "-04", Ghost(g))
        .step(-190843200, -14400, 3600, "-03", Ghost(g))
        .step(-184194000, -14400, 0, "-04", Ghost(g))
        .step(-164491200, -14400, 3600, "-03", Ghost(g))
        .step(-152658000, -14400, 0, "-04", Ghost(g))
        .step(-132955200, -14400, 3600, "-03", Ghost(g))
        .step(-121122000, -14400, 0, "-04", Ghost(g))
        .step(-101419200, -14400, 3600, "-03", Ghost(g))
        .step(-86821200, -14400, 0, "-04", Ghost(g))
        .step(-71092800, -14400, 3600, "-03", Ghost(g))
        .step(-54766800, -14400, 0, "-04", Ghost(g))
        .step(-39038400, -14400, 3600, "-03", Ghost(g))
        .step(-23317200, -14400, 0, "-04", Ghost(g))
        .step(-7588800, -10800, 0, "-03", Ghost(g))
        .step(128142000, -10800, 3600, "-02", Ghost(g))
        .step(136605600, -10800, 0, "-03", Ghost(g))
        .step(596948400, -10800, 3600, "-02", Ghost(g))
        .step(605066400, -10800, 0, "-03", Ghost(g))
        .step(624423600, -10800, 3600, "-02", Ghost(g))
        .step(636516000, -10800, 0, "-03", Ghost(g))
        .step(656478000, -10800, 3600, "-02", Ghost(g))
        .step(667965600, -14400, 0, "-04", Ghost(g))
        .step(687931200, -14400, 7200, "-02", Ghost(g))
        .step(699415200, -10800, 0, "-03", Ghost(g))
        .step(719377200, -10800, 3600, "-02", Ghost(g))
        .step(731469600, -10800, 0, "-03", Ghost(g))
        .step(938919600, -14400, 3600, "-03", Ghost(g))
        .step(952052400, -10800, 0, "-03", Ghost(g))
        .step(1198983600, -10800, 3600, "-02", Ghost(g))
        .step(1205632800, -10800, 0, "-03", Ghost(g))
        .step(1224385200, -10800, 3600, "-02", Ghost(g))
        .step(1237082400, -10800, 0, "-03", Ghost(g))
        .step(2147483647, -10800, 0, "-03", Ghost(g))
        .finish(Ghost(g))
}

/// The zone `America/Argentina/Jujuy`.
pub fn argentina_jujuy() -> (r: Tz)
    ensures
        r.wf(),
        r.zone_name() == "America/Argentina/Jujuy"@,
        r.table() == tables::america::argentina_jujuy(),
{
    let ghost g = tables::america::argentina_jujuy_rows();
    FixedTimespanSet::begin("America/Argentina/Jujuy", -15672, 0, "LMT", Ghost(g))
        .step(-2372096328, -15408, 0, "CMT", Ghost(g))
        .step(-1567453392, -14400, 0, "-04", Ghost(g))
        .step(-1233432000, -14400, 3600, "-03", Ghost(g))
        .step(-1222981200, -14400, 0, "-04", Ghost(g))
        .step(-1205956800, -14400, 3600, "-03", Ghost(g))
        .step(-1194037200, -14400, 0, "-04", Ghost(g))
        .step(-1172865600, -14400, 3600, "-03", Ghost(g))
        .step(-1162501200, -14400, 0, "-04", Ghost(g))
        .step(-1141329600, -14400, 3600, "-03", Ghost(g))
        .step(-1130965200, -14400, 0, "-04", Ghost(g))
        .step(-1109793600, -14400, 3600, "-03", Ghost(g))
        .step(-1099429200, -14400, 0, "-04", Ghost(g))
        .step(-1078257600, -14400, 3600, "-03", Ghost(g))
        .step(-1067806800, -14400, 0, "-04", Ghost(g))
        .step(-1046635200, -14400, 3600, "-03", Ghost(g))
        .step(-1036270800, -14400, 0, "-04", Ghost(g))
        .step(-1015099200, -14400, 3600, "-03", Ghost(g))
        .step(-1004734800, -14400, 0, "-04", Ghost(g))
        .step(-983563200, -14400, 3600, "-03", Ghost(g))
        .step(-973198800, -14400, 0, "-04", Ghost(g))
        .step(-952027200, -14400, 3600, "-03", Ghost(g))
        .step(-941576400, -14400, 0, "-04", Ghost(g))
        .step(-931032000, -14400, 3600, "-03", Ghost(g))
        .step(-900882000, -14400, 0, "-04", Ghost(g))
        .step(-890337600, -14400, 3600, "-03", Ghost(g))
        .step(-833749200, -14400, 0, "-04", Ghost(g))
        .step(-827265600, -14400, 3600, "-03", Ghost(g))
        .step(-752274000, -14400, 0, "-04", Ghost(g))
        .step(-733780800, -14400, 3600, "-03", Ghost(g))
        .step(-197326800, -14400, 0, "-04", Ghost(g))
        .step(-190843200, -14400, 3600, "-03", Ghost(g))
        .step(-184194000, -14400, 0, "-04", Ghost(g))
        .step(-164491200, -14400, 3600, "-03", Ghost(g))
        .step(-152658000, -14400, 0, "-04", Ghost(g))
        .step(-132955200, -14400, 3600, "-03", Ghost(g))
        .step(-121122000, -14400, 0, "-04", Ghost(g))
        .step(-101419200, -14400, 3600, "-03", Ghost(g))
        .step(-86821200, -14400, 0, "-04", Ghost(g))
        .step(-71092800, -14400, 3600, "-03", Ghost(g))
        .step(-54766800, -14400, 0, "-04", Ghost(g))
        .step(-39038400, -14400, 3600, "-03", Ghost(g))
        .step(-23317200, -14400, 0, "-04", Ghost(g))
        .step(-7588800, -10800, 0, "-03", Ghost(g))
        .step(128142000, -10800, 3600, "-02", Ghost(g))
        .step(136605600, -10800, 0, "-03", Ghost(g))
        .step(596948400, -10800, 3600, "-02", Ghost(g))
        .step(605066400, -10800, 0, "-03", Ghost(g))
        .step(624423600, -10800, 3600, "-02", Ghost(g))
        .step(636516000, -14400, 0, "-04", Ghost(g))
        .step(657086400, -14400, 3600, "-03", Ghost(g))
        .step(669178800, -14400, 0, "-04", Ghost(g))
        .step(686721600, -14400, 7200, "-02", Ghost(g))
        .step(699415200, -10800, 0, "-03", Ghost(g))
        .step(719377200, -10800, 3600, "-02", Ghost(g))
        .step(731469600, -10800, 0, "-03", Ghost(g))
        .step(938919600, -14400, 3600, "-03", Ghost(g))
        .step(952052400, -10800, 0, "-03", Ghost(g))
        .step(1198983600, -10800, 3600, "-02", Ghost(g))
        .step(1205632800, -10800, 0, "-03", Ghost(g))
        .step(2147483647, -10800, 0, "-03", Ghost(g))
        .finish(Ghost(g))
}

/// The zone `America/Argentina/La_Rioja`.
pub fn argentina_la_rioja() -> (r: Tz)
    ensures
        r.wf(),
        r.zone_name() == "America/Argentina/La_Rioja"@,
        r.table() == tables::america::argentina_la_rioja(),
{
    let ghost g = tables::america::argentina_la_rioja_rows();
    FixedTimespanSet::begin("America/Argentina/La_Rioja", -16044, 0, "LMT", Ghost(g))
        .step(-2372095956, -15408, 0, "CMT", Ghost(g))
        .step(-1567453392, -14400, 0, "-04", Ghost(g))
        .step(-1233432000, -14400, 3600, "-03", Ghost(g))
        .step(-1222981200, -14400, 0, "-04", Ghost(g))
        .step(-1205956800, -14400, 3600, "-03", Ghost(g))
        .step(-1194037200, -14400, 0, "-04", Ghost(g))
        .step(-1172865600, -14400, 3600, "-03", Ghost(g))
        .step(-1162501200, -14400, 0, "-04", Ghost(g))
        .step(-1141329600, -14400, 3600, "-03", Ghost(g))
        .step(-1130965200, -14400, 0, "-04", Ghost(g))
        .step(-1109793600, -14400, 3600, "-03", Ghost(g))
        .step(-1099429200, -14400, 0, "-04", Ghost(g))
        .step(-1078257600, -14400, 3600, "-03", Ghost(g))
        .step(-1067806800, -14400, 0, "-04", Ghost(g))
        .step(-1046635200, -14400, 3600, "-03", Ghost(g))
        .step(-1036270800, -14400, 0, "-04", Ghost(g))
        .step(-1015099200, -14400, 3600, "-03", Ghost(g))
        .step(-1004734800, -14400, 0, "-04", Ghost(g))
        .step(-983563200, -14400, 3600, "-03", Ghost(g))
        .step(-973198800, -14400, 0, "-04", Ghost(g))
        .step(-952027200, -14400, 3600, "-03", Ghost(g))
        .step(-941576400, -14400, 0, "-04", Ghost(g))
        .step(-931032000, -14400, 3600, "-03", Ghost(g))
        .step(-900882000, -14400, 0, "-04", Ghost(g))
        .step(-890337600, -14400, 3600, "-03", Ghost(g))
        .step(-833749200, -14400, 0, "-04", Ghost(g))
        .step(-827265600, -14400, 3600, "-03", Ghost(g))
        .step(-752274000, -14400, 0, "-04", Ghost(g))
        .step(-733780800, -14400, 3600, "-03", Ghost(g))
        .step(-197326800, -14400, 0, "-04", Ghost(g))
        .step(-190843200, -14400, 3600, "-03", Ghost(g))
        .step(-184194000, -14400, 0, "-04", Ghost(g))
        .step(-164491200, -14400, 3600, "-03", Ghost(g))
        .step(-152658000, -14400, 0, "-04", Ghost(g))
        .step(-132955200, -14400, 3600, "-03", Ghost(g))
        .step(-121122000, -14400, 0, "-04", Ghost(g))
        .step(-101419200, -14400, 3600, "-03", Ghost(g))
        .step(-86821200, -14400, 0, "-04", Ghost(g))
        .step(-71092800, -14400, 3600, "-03", Ghost(g))
        .step(-54766800, -14400, 0, "-04", Ghost(g))
        .step(-39038400, -14400, 3600, "-03", Ghost(g))
        .step(-23317200, -14400, 0, "-04", Ghost(g))
        .step(-7588800, -10800, 0, "-03", Ghost(g))
        .step(128142000, -10800, 3600, "-02", Ghost(g))
        .step(136605600, -10800, 0, "-03", Ghost(g))
        .step(596948400, -10800, 3600, "-02", Ghost(g))
        .step(605066400, -10800, 0, "-03", Ghost(g))
        .step(624423600, -10800, 3600, "-02", Ghost(g))
        .step(636516000, -10800, 0, "-03", Ghost(g))
        .step(656478000, -10800, 3600, "-02", Ghost(g))
        .step(667792800, -14400, 0, "-04", Ghost(g))
        .step(673588800, -10800, 0, "-03", Ghost(g))
        .step(687927600, -10800, 3600, "-02", Ghost(g))
        .step(699415200, -10800, 0, "-03", Ghost(g))
        .step(719377200, -10800, 3600, "-02", Ghost(g))
        .step(731469600, -10800, 0, "-03", Ghost(g))
        .step(938919600, -14400, 3600, "-03", Ghost(g))
        .step(952052400, -10800, 0, "-03", Ghost(g))
        .step(1086058800, -14400, 0, "-04", Ghost(g))
        .step(1087704000, -10800, 0, "-03", Ghost(g))
        .step(1198983600, -10800, 3600, "-02", Ghost(g))
        .step(1205632800, -10800, 0, "-03", Ghost(g))
        .step(2147483647, -10800, 0, "-03", Ghost(g))
        .finish(Ghost(g))
}

/// The zone `America/Argentina/Mendoza`.
pub fn argentina_mendoza() -> (r: Tz)
    ensures
        r.wf(),
        r.zone_name() == "America/Argentina/Mendoza"@,
        r.table() == tables::america::argentina_mendoza(),
{
    let ghost g = tables::america::argentina_mendoza_rows();
    FixedTimespanSet::begin("America/Argentina/Mendoza", -16516, 0, "LMT", Ghost(g))
        .step(-2372095484, -15408, 0, "CMT", Ghost(g))
        .step(-1567453392, -14400, 0, "-04", Ghost(g))
        .step(-1233432000, -14400, 3600, "-03", Ghost(g))
        .step(-1222981200, -14400, 0, "-04", Ghost(g))
        .step(-1205956800, -14400, 3600, "-03", Ghost(g))
        .step(-1194037200, -14400, 0, "-04", Ghost(g))
        .step(-1172865600, -14400, 3600, "-03", Ghost(g))
        .step(-1162501200, -14400, 0, "-04", Ghost(g))
        .step(-1141329600, -14400, 3600, "-03", Ghost(g))
        .step(-1130965200, -14400, 0, "-04", Ghost(g))
        .step(-1109793600, -14400, 3600, "-03", Ghost(g))
        .step(-1099429200, -14400, 0, "-04", Ghost(g))
        .step(-1078257600, -14400, 3600, "-03", Ghost(g))
        .step(-1067806800, -14400, 0, "-04", Ghost(g))
        .step(-1046635200, -14400, 3600, "-03", Ghost(g))
        .step(-1036270800, -14400, 0, "-04", Ghost(g))
        .step(-1015099200, -14400, 3600, "-03", Ghost(g))
        .step(-1004734800, -14400, 0, "-04", Ghost(g))
        .step(-983563200, -14400, 3600, "-03", Ghost(g))
        .step(-973198800, -14400, 0, "-04", Ghost(g))
        .step(-952027200, -14400, 3600, "-03", Ghost(g))
        .step(-941576400, -14400, 0, "-04", Ghost(g))
        .step(-931032000, -14400, 3600, "-03", Ghost(g))
        .step(-900882000, -14400, 0, "-04", Ghost(g))
        .step(-890337600, -14400, 3600, "-03", Ghost(g))
        .step(-833749200, -14400, 0, "-04", Ghost(g))
        .step(-827265600, -14400, 3600, "-03", Ghost(g))
        .step(-752274000, -14400, 0, "-04", Ghost(g))
        .step(-733780800, -14400, 3600, "-03", Ghost(g))
        .step(-197326800, -14400, 0, "-04", Ghost(g))
        .step(-190843200, -14400, 3600, "-03", Ghost(g))
        .step(-184194000, -14400, 0, "-04", Ghost(g))
        .step(-164491200, -14400, 3600, "-03", Ghost(g))
        .step(-152658000, -14400, 0, "-04", Ghost(g))
        .step(-132955200, -14400, 3600, "-03", Ghost(g))
        .step(-121122000, -14400, 0, "-04", Ghost(g))
        .step(-101419200, -14400, 3600, "-03", Ghost(g))
        .step(-86821200, -14400, 0, "-04", Ghost(g))
        .step(-71092800, -14400, 3600, "-03", Ghost(g))
        .step(-54766800, -14400, 0, "-04", Ghost(g))
        .step(-39038400, -14400, 3600, "-03", Ghost(g))
        .step(-23317200, -14400, 0, "-04", Ghost(g))
        .step(-7588800, -10800, 0, "-03", Ghost(g))
        .step(128142000, -10800, 3600, "-02", Ghost(g))
        .step(136605600, -10800, 0, "-03", Ghost(g))
        .step(596948400, -10800, 3600, "-02", Ghost(g))
        .step(605066400, -10800, 0, "-03", Ghost(g))
        .step(624423600, -10800, 3600, "-02", Ghost(g))
        .step(636516000, -14400, 0, "-04", Ghost(g))
        .step(655963200, -14400, 3600, "-03", Ghost(g))
        .step(667796400, -14400, 0, "-04", Ghost(g))
        .step(687499200, -14400, 3600, "-03", Ghost(g))
        .step(699418800, -14400, 0, "-04", Ghost(g))
        .step(719380800, -14400, 7200, "-02", Ghost(g))
        .step(731469600, -10800, 0, "-03", Ghost(g))
        .step(938919600, -14400, 3600, "-03", Ghost(g))
        .step(952052400, -10800, 0, "-03", Ghost(g))
        .step(1085281200, -14400, 0, "-04", Ghost(g))
        .step(1096171200, -10800, 0, "-03", Ghost(g))
        .step(1198983600, -10800, 3600, "-02", Ghost(g))
        .step(1205632800, -10800, 0, "-03", Ghost(g))
        .step(2147483647, -10800, 0, "-03", Ghost(g))
        .finish(Ghost(g))
}

/// The zone `America/Argentina/Rio_Gallegos`.
pub fn argentina_rio_gallegos() -> (r: Tz)
    ensures
        r.wf(),
        r.zone_name() == "America/Argentina/Rio_Gallegos"@,
        r.table() == tables::america::argentina_rio_gallegos(),
{
    let ghost g = tables::america::argentina_rio_gallegos_rows();
    FixedTimespanSet::begin("America/Argentina/Rio_Gallegos", -16612, 0, "LMT", Ghost(g))
        .step(-2372095388, -15408, 0, "CMT", Ghost(g))
        .step(-1567453392, -14400, 0, "-04", Ghost(g))
        .step(-1233432000, -14400, 3600, "-03", Ghost(g))
        .step(-1222981200, -14400, 0, "-04", Ghost(g))
        .step(-1205956800, -14400, 3600, "-03", Ghost(g))
        .step(-1194037200, -14400, 0, "-04", Ghost(g))
        .step(-1172865600, -14400, 3600, "-03", Ghost(g))
        .step(-1162501200, -14400, 0, "-04", Ghost(g))
        .step(-1141329600, -14400, 3600, "-03", Ghost(g))
        .step(-1130965200, -14400, 0, "-04", Ghost(g))
        .step(-1109793600, -14400, 3600, "-03", Ghost(g))
        .step(-1099429200, -14400, 0, "-04", Ghost(g))
        .step(-1078257600, -14400, 3600, "-03", Ghost(g))
        .step(-1067806800, -14400, 0, "-04", Ghost(g))
        .step(-1046635200, -14400, 3600, "-03", Ghost(g))
        .step(-1036270800, -14400, 0, "-04", Ghost(g))
        .step(-1015099200, -14400, 3600, "-03", Ghost(g))
        .step(-1004734800, -14400, 0, "-04", Ghost(g))
        .step(-983563200, -14400, 3600, "-03", Ghost(g))
        .step(-973198800, -14400, 0, "-04", Ghost(g))
        .step(-952027200, -14400, 3600, "-03", Ghost(g))
        .step(-941576400, -14400, 0, "-04", Ghost(g))
        .step(-931032000, -14400, 3600, "-03", Ghost(g))
        .step(-900882000, -14400, 0, "-04", Ghost(g))
        .step(-890337600, -14400, 3600, "-03", Ghost(g))
        .step(-833749200, -14400, 0, "-04", Ghost(g))
        .step(-827265600, -14400, 3600, "-03", Ghost(g))
        .step(-752274000, -14400, 0, "-04", Ghost(g))
        .step(-733780800, -14400, 3600, "-03", Ghost(g))
        .step(-197326800, -14400, 0, "-04", Ghost(g))
        .step(-190843200, -14400, 3600, "-03", Ghost(g))
        .step(-184194000, -14400, 0, "-04", Ghost(g))
        .step(-164491200, -14400, 3600, "-03", Ghost(g))
        .step(-152658000, -14400, 0, "-04", Ghost(g))
        .step(-132955200, -14400, 3600, "-03", Ghost(g))
        .step(-121122000, -14400, 0, "-04", Ghost(g))
        .step(-101419200, -14400, 3600, "-03", Ghost(g))
        .step(-86821200, -14400, 0, "-04", Ghost(g))
        .step(-71092800, -14400, 3600, "-03", Ghost(g))
        .step(-54766800, -14400, 0, "-04", Ghost(g))
        .step(-39038400, -14400, 3600, "-03", Ghost(g))
        .step(-23317200, -14400, 0, "-04", Ghost(g))
        .step(-7588800, -10800, 0, "-03", Ghost(g))
        .step(128142000, -10800, 3600, "-02", Ghost(g))
        .step(136605600, -10800, 0, "-03", Ghost(g))
        .step(596948400, -10800, 3600, "-02", Ghost(g))
        .step(605066400, -10800, 0, "-03", Ghost(g))
        .step(624423600, -10800, 3600, "-02", Ghost(g))
        .step(636516000, -10800, 0, "-03", Ghost(g))
        .step(656478000, -10800, 3600, "-02", Ghost(g))
        .step(667965600, -10800, 0, "-03", Ghost(g))
        .step(687927600, -10800, 3600, "-02", Ghost(g))
        .step(699415200, -10800, 0, "-03", Ghost(g))
        .step(719377200, -10800, 3600, "-02", Ghost(g))
        .step(731469600, -10800, 0, "-03", Ghost(g))
        .step(938919600, -14400, 3600, "-03", Ghost(g))
        .step(952052400, -10800, 0, "-03", Ghost(g))
        .step(1086058800, -14400, 0, "-04", Ghost(g))
        .step(1087704000, -10800, 0, "-03", Ghost(g))
        .step(1198983600, -10800, 3600, "-02", Ghost(g))
        .step(1205632800, -10800, 0, "-03", Ghost(g))
        .step(2147483647, -10800, 0, "-03", Ghost(g))
        .finish(Ghost(g))
}

/// The zone `America/Argentina/Salta`.
pub fn argentina_salta() -> (r: Tz)
    ensures
        r.wf(),
        r.zone_name() == "America/Argentina/Salta"@,
        r.table() == tables::america::argentina_salta(),
{
    let ghost g = tables::america::argentina_salta_rows();
    FixedTimespanSet::begin("America/Argentina/Salta", -15700, 0, "LMT", Ghost(g))
        .step(-2372096300, -15408, 0, "CMT", Ghost(g))
        .step(-1567453392, -14400, 0, "-04", Ghost(g))
        .step(-1233432000, -14400, 3600, "-03", Ghost(g))
        .step(-1222981200, -14400, 0, "-04", Ghost(g))
        .step(-1205956800, -14400, 3600, "-03", Ghost(g))
        .step(-1194037200, -14400, 0, "-04", Ghost(g))
        .step(-1172865600, -14400, 3600, "-03", Ghost(g))
        .step(-1162501200, -14400, 0, "-04", Ghost(g))
        .step(-1141329600, -14400, 3600, "-03", Ghost(g))
        .step(-1130965200, -14400, 0, "-04", Ghost(g))
        .step(-1109793600, -14400, 3600, "-03", Ghost(g))
        .step(-1099429200, -14400, 0, "-04", Ghost(g))
        .step(-1078257600, -14400, 3600, "-03", Ghost(g))
        .step(-1067806800, -14400, 0, "-04", Ghost(g))
        .step(-1046635200, -14400, 3600, "-03", Ghost(g))
        .step(-1036270800, -14400, 0, "-04", Ghost(g))
        .step(-1015099200, -14400, 3600, "-03", Ghost(g))
        .step(-1004734800, -14400, 0, "-04", Ghost(g))
        .step(-983563200, -14400, 3600, "-03", Ghost(g))
        .step(-973198800, -14400, 0, "-04", Ghost(g))
        .step(-952027200, -14400, 3600, "-03", Ghost(g))
        .step(-941576400, -14400, 0, "-04", Ghost(g))
        .step(-931032000, -14400, 3600, "-03", Ghost(g))
        .step(-900882000, -14400, 0, "-04", Ghost(g))
        .step(-890337600, -14400, 3600, "-03", Ghost(g))
        .step(-833749200, -14400, 0, "-04", Ghost(g))
        .step(-827265600, -14400, 3600, "-03", Ghost(g))
        .step(-752274000, -14400, 0, "-04", Ghost(g))
        .step(-733780800, -14400, 3600, "-03", Ghost(g))
        .step(-197326800, -14400, 0, "-04", Ghost(g))
        .step(-190843200, -14400, 3600, "-03", Ghost(g))
        .step(-184194000, -14400, 0, "-04", Ghost(g))
        .step(-164491200, -14400, 3600, "-03", Ghost(g))
        .step(-152658000, -14400, 0, "-04", Ghost(g))
        .step(-132955200, -14400, 3600, "-03", Ghost(g))
        .step(-121122000, -14400, 0, "-04", Ghost(g))
        .step(-101419200, -14400, 3600, "-03", Ghost(g))
        .step(-86821200, -14400, 0, "-04", Ghost(g))
        .step(-71092800, -14400, 3600, "-03", Ghost(g))
        .step(-54766800, -14400, 0, "-04", Ghost(g))
        .step(-39038400, -14400, 3600, "-03", Ghost(g))
        .step(-23317200, -14400, 0, "-04", Ghost(g))
        .step(-7588800, -10800, 0, "-03", Ghost(g))
        .step(128142000, -10800, 3600, "-02", Ghost(g))
        .step(136605600, -10800, 0, "-03", Ghost(g))
        .step(596948400, -10800, 3600, "-02", Ghost(g))
        .step(605066400, -10800, 0, "-03", Ghost(g))
        .step(624423600, -10800, 3600, "-02", Ghost(g))
        .step(636516000, -10800, 0, "-03", Ghost(g))
        .step(656478000, -10800, 3600, "-02", Ghost(g))
        .step(667965600, -14400, 0, "-04", Ghost(g))
        .step(687931200, -14400, 7200, "-02", Ghost(g))
        .step(699415200, -10800, 0, "-03", Ghost(g))
        .step(719377200, -10800, 3600, "-02", Ghost(g))
        .step(731469600, -10800, 0, "-03", Ghost(g))
        .step(938919600, -14400, 3600, "-03", Ghost(g))
        .step(952052400, -10800, 0, "-03", Ghost(g))
        .step(1198983600, -10800, 3600, "-02", Ghost(g))
        .step(1205632800, -10800, 0, "-03", Ghost(g))
        .step(2147483647, -10800, 0, "-03", Ghost(g))
        .finish(Ghost(g))
}

/// The zone `America/Argentina/San_Juan`.
pub fn argentina_san_juan() -> (r: Tz)
    ensures
        r.wf(),
        r.zone_name() == "America/Argentina/San_Juan"@,
        r.table() == tables::america::argentina_san_juan(),
{
    let ghost g = tables::america::argentina_san_juan_rows();
    FixedTimespanSet::begin("America/Argentina/San_Juan", -16444, 0, "LMT", Ghost(g))
        .step(-2372095556, -15408, 0, "CMT", Ghost(g))
        .step(-1567453392, -14400, 0, "-04", Ghost(g))
        .step(-1233432000, -14400, 3600, "-03", Ghost(g))
        .step(-1222981200, -14400, 0, "-04", Ghost(g))
        .step(-1205956800, -14400, 3600, "-03", Ghost(g))
        .step(-1194037200, -14400, 0, "-04", Ghost(g))
        .step(-1172865600, -14400, 3600, "-03", Ghost(g))
        .step(-1162501200, -14400, 0, "-04", Ghost(g))
        .step(-1141329600, -14400, 3600, "-03", Ghost(g))
        .step(-1130965200, -14400, 0, "-04", Ghost(g))
        .step(-1109793600, -14400, 3600, "-03", Ghost(g))
        .step(-1099429200, -14400, 0, "-04", Ghost(g))
        .step(-1078257600, -14400, 3600, "-03", Ghost(g))
        .step(-1067806800, -14400, 0, "-04", Ghost(g))
        .step(-1046635200, -14400, 3600, "-03", Ghost(g))
        .step(-1036270800, -14400, 0, "-04", Ghost(g))
        .step(-1015099200, -14400, 3600, "-03", Ghost(g))
        .step(-1004734800, -14400, 0, "-04", Ghost(g))
        .step(-983563200, -14400, 3600, "-03", Ghost(g))
        .step(-973198800, -14400, 0, "-04", Ghost(g))
        .step(-952027200, -14400, 3600, "-03", Ghost(g))
        .step(-941576400, -14400, 0, "-04", Ghost(g))
        .step(-931032000, -14400, 3600, "-03", Ghost(g))
        .step(-900882000, -14400, 0, "-04", Ghost(g))
        .step(-890337600, -14400, 3600, "-03", Ghost(g))
        .step(-833749200, -14400, 0, "-04", Ghost(g))
        .step(-827265600, -14400, 3600, "-03", Ghost(g))
        .step(-752274000, -14400, 0, "-04", Ghost(g))
        .step(-733780800, -14400, 3600, "-03", Ghost(g))
        .step(-197326800, -14400, 0, "-04", Ghost(g))
        .step(-190843200, -14400, 3600, "-03", Ghost(g))
        .step(-184194000, -14400, 0, "-04", Ghost(g))
        .step(-164491200, -14400, 3600, "-03", Ghost(g))
        .step(-152658000, -14400, 0, "-04", Ghost(g))
        .step(-132955200, -14400, 3600, "-03", Ghost(g))
        .step(-121122000, -14400, 0, "-04", Ghost(g))
        .step(-101419200, -14400, 3600, "-03", Ghost(g))
        .step(-86821200, -14400, 0, "-04", Ghost(g))
        .step(-71092800, -14400, 3600, "-03", Ghost(g))
        .step(-54766800, -14400, 0, "-04", Ghost(g))
        .step(-39038400, -14400, 3600, "-03", Ghost(g))
        .step(-23317200, -14400, 0, "-04", Ghost(g))
        .step(-7588800, -10800, 0, "-03", Ghost(g))
        .step(128142000, -10800, 3600, "-02", Ghost(g))
        .step(136605600, -10800, 0, "-03", Ghost(g))
        .step(596948400, -10800, 3600, "-02", Ghost(g))
        .step(605066400, -10800, 0, "-03", Ghost(g))
        .step(624423600, -10800, 3600, "-02", Ghost(g))
        .step(636516000, -10800, 0, "-03", Ghost(g))
        .step(656478000, -10800, 3600, "-02", Ghost(g))
        .step(667792800, -14400, 0, "-04", Ghost(g))
        .step(673588800, -10800, 0, "-03", Ghost(g))
        .step(687927600, -10800, 3600, "-02", Ghost(g))
        .step(699415200, -10800, 0, "-03", Ghost(g))
        .step(719377200, -10800, 3600, "-02", Ghost(g))
        .step(731469600, -10800, 0, "-03", Ghost(g))
        .step(938919600, -14400, 3600, "-03", Ghost(g))
        .step(952052400, -10800, 0, "-03", Ghost(g))
        .step(1085972400, -14400, 0, "-04", Ghost(g))
        .step(1090728000, -10800, 0, "-03", Ghost(g))
        .step(1198983600, -10800, 3600, "-02", Ghost(g))
        .step(1205632800, -10800, 0, "-03", Ghost(g))
        .step(2147483647, -10800, 0, "-03", Ghost(g))
        .finish(Ghost(g))
}

/// The zone `America/Argentina/San_Luis`.
pub fn argentina_san_luis() -> (r: Tz)
    ensures
        r.wf(),
        r.zone_name() == "America/Argentina/San_Luis"@,
        r.table() == tables::america::argentina_san_luis(),
{
    let ghost g = tables::america::argentina_san_luis_rows();
    FixedTimespanSet::begin("America/Argentina/San_Luis", -15924, 0, "LMT", Ghost(g))
        .step(-2372096076, -15408, 0, "CMT", Ghost(g))
        .step(-1567453392, -14400, 0, "-04", Ghost(g))
        .step(-1233432000, -14400, 3600, "-03", Ghost(g))
        .step(-1222981200, -14400, 0, "-04", Ghost(g))
        .step(-1205956800, -14400, 3600, "-03", Ghost(g))
        .step(-1194037200, -14400, 0, "-04", Ghost(g))
        .step(-1172865600, -14400, 3600, "-03", Ghost(g))
        .step(-1162501200, -14400, 0, "-04", Ghost(g))
        .step(-1141329600, -14400, 3600, "-03", Ghost(g))
        .step(-1130965200, -14400, 0, "-04", Ghost(g))
        .step(-1109793600, -14400, 3600, "-03", Ghost(g))
        .step(-1099429200, -14400, 0, "-04", Ghost(g))
        .step(-1078257600, -14400, 3600, "-03", Ghost(g))
        .step(-1067806800, -14400, 0, "-04", Ghost(g))
        .step(-1046635200, -14400, 3600, "-03", Ghost(g))
        .step(-1036270800, -14400, 0, "-04", Ghost(g))
        .step(-1015099200, -14400, 3600, "-03", Ghost(g))
        .step(-1004734800, -14400, 0, "-04", Ghost(g))
        .step(-983563200, -14400, 3600, "-03", Ghost(g))
        .step(-973198800, -14400, 0, "-04", Ghost(g))
        .step(-952027200, -14400, 3600, "-03", Ghost(g))
        .step(-941576400, -14400, 0, "-04", Ghost(g))
        .step(-931032000, -14400, 3600, "-03", Ghost(g))
        .step(-900882000, -14400, 0, "-04", Ghost(g))
        .step(-890337600, -14400, 3600, "-03", Ghost(g))
        .step(-833749200, -14400, 0, "-04", Ghost(g))
        .step(-827265600, -14400, 3600, "-03", Ghost(g))
        .step(-752274000, -14400, 0, "-04", Ghost(g))
        .step(-733780800, -14400, 3600, "-03", Ghost(g))
        .step(-197326800, -14400, 0, "-04", Ghost(g))
        .step(-190843200, -14400, 3600, "-03", Ghost(g))
        .step(-184194000, -14400, 0, "-04", Ghost(g))
        .step(-164491200, -14400, 3600, "-03", Ghost(g))
        .step(-152658000, -14400, 0, "-04", Ghost(g))
        .step(-132955200, -14400, 3600, "-03", Ghost(g))
        .step(-121122000, -14400, 0, "-04", Ghost(g))
        .step(-101419200, -14400, 3600, "-03", Ghost(g))
        .step(-86821200, -14400, 0, "-04", Ghost(g))
        .step(-71092800, -14400, 3600, "-03", Ghost(g))
        .step(-54766800, -14400, 0, "-04", Ghost(g))
        .step(-39038400, -14400, 3600, "-03", Ghost(g))
        .step(-23317200, -14400, 0, "-04", Ghost(g))
        .step(-7588800, -10800, 0, "-03", Ghost(g))
        .step(128142000, -10800, 3600, "-02", Ghost(g))
        .step(136605600, -10800, 0, "-03", Ghost(g))
        .step(596948400, -10800, 3600, "-02", Ghost(g))
        .step(605066400, -10800, 0, "-03", Ghost(g))
        .step(624423600, -10800, 3600, "-02", Ghost(g))
        .step(637380000, -14400, 0, "-04", Ghost(g))
        .step(655963200, -14400, 3600, "-03", Ghost(g))
        .step(667796400, -14400, 0, "-04", Ghost(g))
        .step(675748800, -10800, 0, "-03", Ghost(g))
        .step(938919600, -14400, 3600, "-03", Ghost(g))
        .step(952052400, -10800, 0, "-03", Ghost(g))
        .step(1085972400, -14400, 0, "-04", Ghost(g))
        .step(1090728000, -10800, 0, "-03", Ghost(g))
        .step(1198983600, -10800, 3600, "-02", Ghost(g))
        .step(1200880800, -14400, 3600, "-03", Ghost(g))
        .step(1205031600, -14400, 0, "-04", Ghost(g))
        .step(1223784000, -14400, 3600, "-03", Ghost(g))
        .step(1236481200, -14400, 0, "-04", Ghost(g))
        .step(1255233600, -10800, 0, "-03", Ghost(g))
        .step(2147483647, -10800, 0, "-03", Ghost(g))
        .finish(Ghost(g))
}

/// The zone `America/Argentina/Tucuman`.
pub fn argentina_tucuman() -> (r: Tz)
    ensures
        r.wf(),
        r.zone_name() == "America/Argentina/Tucuman"@,
        r.table() == tables::america::argentina_tucuman(),
{
    let ghost g = tables::america::argentina_tucuman_rows();
    FixedTimespanSet::begin("America/Argentina/Tucuman", -15652, 0, "LMT", Ghost(g))
        .step(-2372096348, -15408, 0, "CMT", Ghost(g))
        .step(-1567453392, -14400, 0, "-04", Ghost(g))
        .step(-1233432000, -14400, 3600, "-03", Ghost(g))
        .step(-1222981200, -14400, 0, "-04", Ghost(g))
        .step(-1205956800, -14400, 3600, "-03", Ghost(g))
        .step(-1194037200, -14400, 0, "-04", Ghost(g))
        .step(-1172865600, -14400, 3600, "-03", Ghost(g))
        .step(-1162501200, -14400, 0, "-04", Ghost(g))
        .step(-1141329600, -14400, 3600, "-03", Ghost(g))
        .step(-1130965200, -14400, 0, "-04", Ghost(g))
        .step(-1109793600, -14400, 3600, "-03", Ghost(g))
        .step(-1099429200, -14400, 0, "-04", Ghost(g))
        .step(-1078257600, -14400, 3600, "-03", Ghost(g))
        .step(-1067806800, -14400, 0, "-04", Ghost(g))
        .step(-1046635200, -14400, 3600, "-03", Ghost(g))
        .step(-1036270800, -14400, 0, "-04", Ghost(g))
        .step(-1015099200, -14400, 3600, "-03", Ghost(g))
        .step(-1004734800, -14400, 0, "-04", Ghost(g))
        .step(-983563200, -14400, 3600, "-03", Ghost(g))
        .step(-973198800, -14400, 0, "-04", Ghost(g))
        .step(-952027200, -14400, 3600, "-03", Ghost(g))
        .step(-941576400, -14400, 0, "-04", Ghost(g))
        .step(-931032000, -14400, 3600, "-03", Ghost(g))
        .step(-900882000, -14400, 0, "-04", Ghost(g))
        .step(-890337600, -14400, 3600, "-03", Ghost(g))
        .step(-833749200, -14400, 0, "-04", Ghost(g))
        .step(-827265600, -14400, 3600, "-03", Ghost(g))
        .step(-752274000, -14400, 0, "-04", Ghost(g))
        .step(-733780800, -14400, 3600, "-03", Ghost(g))
        .step(-197326800, -14400, 0, "-04", Ghost(g))
        .step(-190843200, -14400, 3600, "-03", Ghost(g))
        .step(-184194000, -14400, 0, "-04", Ghost(g))
        .step(-164491200, -14400, 3600, "-03", Ghost(g))
        .step(-152658000, -14400, 0, "-04", Ghost(g))
        .step(-132955200, -14400, 3600, "-03", Ghost(g))
        .step(-121122000, -14400, 0, "-04", Ghost(g))
        .step(-101419200, -14400, 3600, "-03", Ghost(g))
        .step(-86821200, -14400, 0, "-04", Ghost(g))
        .step(-71092800, -14400, 3600, "-03", Ghost(g))
        .step(-54766800, -14400, 0, "-04", Ghost(g))
        .step(-39038400, -14400, 3600, "-03", Ghost(g))
        .step(-23317200, -14400, 0, "-04", Ghost(g))
        .step(-7588800, -10800, 0, "-03", Ghost(g))
        .step(128142000, -10800, 3600, "-02", Ghost(g))
        .step(136605600, -10800, 0, "-03", Ghost(g))
        .step(596948400, -10800, 3600, "-02", Ghost(g))
        .step(605066400, -10800, 0, "-03", Ghost(g))
        .step(624423600, -10800, 3600, "-02", Ghost(g))
        .step(636516000, -10800, 0, "-03", Ghost(g))
        .step(656478000, -10800, 3600, "-02", Ghost(g))
        .step(667965600, -14400, 0, "-04", Ghost(g))
        .step(687931200, -14400, 7200, "-02", Ghost(g))
        .step(699415200, -10800, 0, "-03", Ghost(g))
        .step(719377200, -10800, 3600, "-02", Ghost(g))
        .step(731469600, -10800, 0, "-03", Ghost(g))
        .step(938919600, -14400, 3600, "-03", Ghost(g))
        .step(952052400, -10800, 0, "-03", Ghost(g))
        .step(1086058800, -14400, 0, "-04", Ghost(g))
        .step(1087099200, -10800, 0, "-03", Ghost(g))
        .step(1198983600, -10800, 3600, "-02", Ghost(g))
        .step(1205632800, -10800, 0, "-03", Ghost(g))
        .step(1224385200, -10800, 3600, "-02", Ghost(g))
        .step(1237082400, -10800, 0, "-03", Ghost(g))
        .step(2147483647, -10800, 0, "-03", Ghost(g))
        .finish(Ghost(g))
}

/// The zone `America/Argentina/Ushuaia`.
pub fn argentina_ushuaia() -> (r: Tz)
    ensures
        r.wf(),
        r.zone_name() == "America/Argentina/Ushuaia"@,
        r.table() == tables::america::argentina_ushuaia(),
{
    let ghost g = tables::america::argentina_ushuaia_rows();
    FixedTimespanSet::begin("America/Argentina/Ushuaia", -16392, 0, "LMT", Ghost(g))
        .step(-2372095608, -15408, 0, "CMT", Ghost(g))
        .step(-1567453392, -14400, 0, "-04", Ghost(g))
        .step(-1233432000, -14400, 3600, "-03", Ghost(g))
        .step(-1222981200, -14400, 0, "-04", Ghost(g))
        .step(-1205956800, -14400, 3600, "-03", Ghost(g))
        .step(-1194037200, -14400, 0, "-04", Ghost(g))
        .step(-1172865600, -14400, 3600, "-03", Ghost(g))
        .step(-1162501200, -14400, 0, "-04", Ghost(g))
        .step(-1141329600, -14400, 3600, "-03", Ghost(g))
        .step(-1130965200, -14400, 0, "-04", Ghost(g))
        .step(-1109793600, -14400, 3600, "-03", Ghost(g))
        .step(-1099429200, -14400, 0, "-04", Ghost(g))
        .step(-1078257600, -14400, 3600, "-03", Ghost(g))
        .step(-1067806800, -14400, 0, "-04", Ghost(g))
        .step(-1046635200, -14400, 3600, "-03", Ghost(g))
        .step(-1036270800, -14400, 0, "-04", Ghost(g))
        .step(-1015099200, -14400, 3600, "-03", Ghost(g))
        .step(-1004734800, -14400, 0, "-04", Ghost(g))
        .step(-983563200, -14400, 3600, "-03", Ghost(g))
        .step(-973198800, -14400, 0, "-04", Ghost(g))
        .step(-952027200, -14400, 3600, "-03", Ghost(g))
        .step(-941576400, -14400, 0, "-04", Ghost(g))
        .step(-931032000, -14400, 3600, "-03", Ghost(g))
        .step(-900882000, -14400, 0, "-04", Ghost(g))
        .step(-890337600, -14400, 3600, "-03", Ghost(g))
        .step(-833749200, -14400, 0, "-04", Ghost(g))
        .step(-827265600, -14400, 3600, "-03", Ghost(g))
        .step(-752274000, -14400, 0, "-04", Ghost(g))
        .step(-733780800, -14400, 3600, "-03", Ghost(g))
        .step(-197326800, -14400, 0, "-04", Ghost(g))
        .step(-190843200, -14400, 3600, "-03", Ghost(g))
        .step(-184194000, -14400, 0, "-04", Ghost(g))
        .step(-164491200, -14400, 3600, "-03", Ghost(g))
        .step(-152658000, -14400, 0, "-04", Ghost(g))
        .step(-132955200, -14400, 3600, "-03", Ghost(g))
        .step(-121122000, -14400, 0, "-04", Ghost(g))
        .step(-101419200, -14400, 3600, "-03", Ghost(g))
        .step(-86821200, -14400, 0, "-04", Ghost(g))
        .step(-71092800, -14400, 3600, "-03", Ghost(g))
        .step(-54766800, -14400, 0, "-04", Ghost(g))
        .step(-39038400, -14400, 3600, "-03", Ghost(g))
        .step(-23317200, -14400, 0, "-04", Ghost(g))
        .step(-7588800, -10800, 0, "-03", Ghost(g))
        .step(128142000, -10800, 3600, "-02", Ghost(g))
        .step(136605600, -10800, 0, "-03", Ghost(g))
        .step(596948400, -10800, 3600, "-02", Ghost(g))
        .step(605066400, -10800, 0, "-03", Ghost(g))
        .step(624423600, -10800, 3600, "-02", Ghost(g))
        .step(636516000, -10800, 0, "-03", Ghost(g))
        .step(656478000, -10800, 3600, "-02", Ghost(g))
        .step(667965600, -10800, 0, "-03", Ghost(g))
        .step(687927600, -10800, 3600, "-02", Ghost(g))
        .step(699415200, -10800, 0, "-03", Ghost(g))
        .step(719377200, -10800, 3600, "-02", Ghost(g))
        .step(731469600, -10800, 0, "-03", Ghost(g))
        .step(938919600, -14400, 3600, "-03", Ghost(g))
        .step(952052400, -10800, 0, "-03", Ghost(g))
        .step(1085886000, -14400, 0, "-04", Ghost(g))
        .step(1087704000, -10800, 0, "-03", Ghost(g))
        .step(1198983600, -10800, 3600, "-02", Ghost(g))
        .step(1205632800, -10800, 0, "-03", Ghost(g))
        .step(2147483647, -10800, 0, "-03", Ghost(g))
        .finish(Ghost(g))
}

/// The zone `America/Aruba`.
pub fn aruba() -> (r: Tz)
    ensures
        r.wf(),
        r.zone_name() == "America/Aruba"@,
        r.table() == tables::america::aruba(),
{
    let ghost g = tables::america::aruba_rows();
    FixedTimespanSet::begin("America/Aruba", -16824, 0, "LMT", Ghost(g))
        .step(-1826738376, -16200, 0, "-0430", Ghost(g))
        .step(-157750200, -14400, 0, "AST", Ghost(g))
        .finish(Ghost(g))
}

/// The zone `America/Asuncion`.
pub fn asuncion() -> (r: Tz)
    ensures
        r.wf(),
        r.zone_name() == "America/Asuncion"@,
        r.table() == tables::america::asuncion(),
{
    let ghost g = tables::america::asuncion_rows();
    FixedTimespanSet::begin("America/Asuncion", -13840, 0, "LMT", Ghost(g))
        .step(-2524507760, -13840, 0, "AMT", Ghost(g))
        .step(-1206389360, -14400, 0, "-04", Ghost(g))
        .step(86760000, -10800, 0, "-03", Ghost(g))
        .step(134017200, -14400, 0, "-04", Ghost(g))
        .step(181368000, -14400, 3600, "-03", Ghost(g))
        .step(194497200, -14400, 0, "-04", Ghost(g))
        .step(212990400, -14400, 3600, "-03", Ghost(g))
        .step(226033200, -14400, 0, "-04", Ghost(g))
        .step(244526400, -14400, 3600, "-03", Ghost(g))
        .step(257569200, -14400, 0, "-04", Ghost(g))
        .step(276062400, -14400, 3600, "-03", Ghost(g))
        .step(291783600, -14400, 0, "-04", Ghost(g))
        .step(307598400, -14400, 3600, "-03", Ghost(g))
        .step(323406000, -14400, 0, "-04", Ghost(g))
        .step(339220800, -14400, 3600, "-03", Ghost(g))
        .step(354942000, -14400, 0, "-04", Ghost(g))
        .step(370756800, -14400, 3600, "-03", Ghost(g))
        .step(386478000, -14400, 0, "-04", Ghost(g))
        .step(402292800, -14400, 3600, "-03", Ghost(g))
        .step(418014000, -14400, 0, "-04", Ghost(g))
        .step(433828800, -14400, 3600, "-03", Ghost(g))
        .step(449636400, -14400, 0, "-04", Ghost(g))
        .step(465451200, -14400, 3600, "-03", Ghost(g))
        .step(481172400, -14400, 0, "-04", Ghost(g))
        .step(496987200, -14400, 3600, "-03", Ghost(g))
        .step(512708400, -14400, 0, "-04", Ghost(g))
        .step(528523200, -14400, 3600, "-03", Ghost(g))
        .step(544244400, -14400, 0, "-04", Ghost(g))
        .step(560059200, -14400, 3600, "-03", Ghost(g))
        .step(575866800, -14400, 0, "-04", Ghost(g))
        .step(591681600, -14400, 3600, "-03", Ghost(g))
        .step(607402800, -14400, 0, "-04", Ghost(g))
        .step(625032000, -14400, 3600, "-03", Ghost(g))
        .step(638938800, -14400, 0, "-04", Ghost(g))
        .step(654753600, -14400, 3600, "-03", Ghost(g))
        .step(670474800, -14400, 0, "-04", Ghost(g))
        .step(686721600, -14400, 3600, "-03", Ghost(g))
        .step(699418800, -14400, 0, "-04", Ghost(g))
        .step(718257600, -14400, 3600, "-03", Ghost(g))
        .step(733546800, -14400, 0, "-04", Ghost(g))
        .step(749448000, -14400, 3600, "-03", Ghost(g))
        .step(762318000, -14400, 0, "-04", Ghost(g))
        .step(780984000, -14400, 3600, "-03", Ghost(g))
        .step(793767600, -14400, 0, "-04", Ghost(g))
        .step(812520000, -14400, 3600, "-03", Ghost(g))
        .step(825649200, -14400, 0, "-04", Ghost(g))
        .step(844574400, -14400, 3600, "-03", Ghost(g))
        .step(856666800, -14400, 0, "-04", Ghost(g))
        .step(876024000, -14400, 3600, "-03", Ghost(g))
        .step(888721200, -14400, 0, "-04", Ghost(g))
        .step(907473600, -14400, 3600, "-03", Ghost(g))
        .step(920775600, -14400, 0, "-04", Ghost(g))
        .step(938923200, -14400, 3600, "-03", Ghost(g))
        .step(952225200, -14400, 0, "-04", Ghost(g))
        .step(970372800, -14400, 3600, "-03", Ghost(g))
        .step(983674800, -14400, 0, "-04", Ghost(g))
        .step(1002427200, -14400, 3600, "-03", Ghost(g))
        .step(1018148400, -14400, 0, "-04", Ghost(g))
        .step(1030852800, -14400, 3600, "-03", Ghost(g))
        .step(1049598000, -14400, 0, "-04", Ghost(g))
        .step(1062907200, -14400, 3600, "-03", Ghost(g))
        .step(1081047600, -14400, 0, "-04", Ghost(g))
        .step(1097985600, -14400, 3600, "-03", Ghost(g))
        .step(1110682800, -14400, 0, "-04", Ghost(g))
        .step(1129435200, -14400, 3600, "-03", Ghost(g))
        .step(1142132400, -14400, 0, "-04", Ghost(g))
        .step(1160884800, -14400, 3600, "-03", Ghost(g))
        .step(1173582000, -14400, 0, "-04", Ghost(g))
        .step(1192939200, -14400, 3600, "-03", Ghost(g))
        .step(1205031600, -14400, 0, "-04", Ghost(g))
        .step(1224388800, -14400, 3600, "-03", Ghost(g))
        .step(1236481200, -14400, 0, "-04", Ghost(g))
        .step(1255838400, -14400, 3600, "-03", Ghost(g))
        .step(1270954800, -14400, 0, "-04", Ghost(g))
        .step(1286078400, -14400, 3600, "-03", Ghost(g))
        .step(1302404400, -14400, 0, "-04", Ghost(g))
        .step(1317528000, -14400, 3600, "-03", Ghost(g))
        .step(1333854000, -14400, 0, "-04", Ghost(g))
        .step(1349582400, -14400, 3600, "-03", Ghost(g))
        .step(1364094000, -14400, 0, "-04", Ghost(g))
        .step(1381032000, -14400, 3600, "-03", Ghost(g))
        .step(1395543600, -14400, 0, "-04", Ghost(g))
        .step(1412481600, -14400, 3600, "-03", Ghost(g))
        .step(1426993200, -14400, 0, "-04", Ghost(g))
        .step(1443931200, -14400, 3600, "-03", Ghost(g))
        .step(1459047600, -14400, 0, "-04", Ghost(g))
        .step(1475380800, -14400, 3600, "-03", Ghost(g))
        .step(1490497200, -14400, 0, "-04", Ghost(g))
        .step(1506830400, -14400, 3600, "-03", Ghost(g))
        .step(1521946800, -14400, 0, "-04", Ghost(g))
        .step(1538884800, -14400, 3600, "-03", Ghost(g))
        .step(1553396400, -14400, 0, "-04", Ghost(g))
        .step(1570334400, -14400, 3600, "-03", Ghost(g))
        .step(1584846000, -14400, 0, "-04", Ghost(g))
        .step(1601784000, -14400, 3600, "-03", Ghost(g))
        .step(1616900400, -14400, 0, "-04", Ghost(g))
        .step(1633233600, -14400, 3600, "-03", Ghost(g))
        .step(1648350000, -14400, 0, "-04", Ghost(g))
        .step(1664683200, -14400, 3600, "-03", Ghost(g))
        .step(1679799600, -14400, 0, "-04", Ghost(g))
        .step(1696132800, -14400, 3600, "-03", Ghost(g))
        .step(1711249200, -14400, 0, "-04", Ghost(g))
        .step(1728187200, -14400, 3600, "-03", Ghost(g))
        .step(1728961200, -10800, 0, "-03", Ghost(g))
        .step(2147483647, -10800, 0, "-03", Ghost(g))
        .finish(Ghost(g))
}

/// The zone `America/Atikokan`.
pub fn atikokan() -> (r: Tz)
    ensures
        r.wf(),
        r.zone_name() == "America/Atikokan"@,
        r.table() == tables::america::atikokan(),
{
    let ghost g = tables::america::atikokan_rows();
    FixedTimespanSet::begin("America/Atikokan", -21988, 0, "LMT", Ghost(g))
        .step(-2366733212, -21600, 0, "CST", Ghost(g))
        .step(-1632067200, -21600, 3600, "CDT", Ghost(g))
        .step(-1615136400, -21600, 0, "CST", Ghost(g))
        .step(-923248800, -21600, 3600, "CDT", Ghost(g))
        .step(-880214400, -21600, 3600, "CWT", Ghost(g))
        .step(-769395600, -21600, 3600, "CPT", Ghost(g))
        .step(-765392400, -18000, 0, "EST", Ghost(g))
        .finish(Ghost(g))
}

/// The zone `America/Atka`.
pub fn atka() -> (r: Tz)
    ensures
        r.wf(),
        r.zone_name() == "America/Atka"@,
        r.table() == tables::america::atka(),
{
    let ghost g = tables::america::atka_rows();
    FixedTimespanSet::begin("America/Atka", 44002, 0, "LMT", Ghost(g))
        .step(-3225223727, -42398, 0, "LMT", Ghost(g))
        .step(-2188944802, -39600, 0, "NST", Ghost(g))
        .step(-880196400, -39600, 3600, "NWT", Ghost(g))
        .step(-769395600, -39600, 3600, "NPT", Ghost(g))
        .step(-765374400, -39600, 0, "NST", Ghost(g))
        .step(-86878800, -39600, 0, "BST", Ghost(g))
        .step(-21466800, -39600, 3600, "BDT", Ghost(g))
        .step(-5745600, -39600, 0, "BST", Ghost(g))
        .step(9982800, -39600, 3600, "BDT", Ghost(g))
        .step(25704000, -39600, 0, "BST", Ghost(g))
        .step(41432400, -39600, 3600, "BDT", Ghost(g))
        .step(57758400, -39600, 0, "BST", Ghost(g))
        .step(73486800, -39600, 3600, "BDT", Ghost(g))
        .step(89208000, -39600, 0, "BST", Ghost(g))
        .step(104936400, -39600, 3600, "BDT", Ghost(g))
        .step(120657600, -39600, 0, "BST", Ghost(g))
        .step(126709200, -39600, 3600, "BDT", Ghost(g))
        .step(152107200, -39600, 0, "BST", Ghost(g))
        .step(162392400, -39600, 3600, "BDT", Ghost(g))
        .step(183556800, -39600, 0, "BST", Ghost(g))
        .step(199285200, -39600, 3600, "BDT", Ghost(g))
        .step(215611200, -39600, 0, "BST", Ghost(g))
        .step(230734800, -39600, 3600, "BDT", Ghost(g))
        .step(247060800, -39600, 0, "BST", Ghost(g))
        .step(262789200, -39600, 3600, "BDT", Ghost(g))
        .step(278510400, -39600, 0, "BST", Ghost(g))
        .step(294238800, -39600, 3600, "BDT", Ghost(g))
        .step(309960000, -39600, 0, "BST", Ghost(g))
        .step(325688400, -39600, 3600, "BDT", Ghost(g))
        .step(341409600, -39600, 0, "BST", Ghost(g))
        .step(357138000, -39600, 3600, "BDT", Ghost(g))
        .step(372859200, -39600, 0, "BST", Ghost(g))
        .step(388587600, -39600, 3600, "BDT", Ghost(g))
        .step(404913600, -39600, 0, "BST", Ghost(g))
        .step(420037200, -39600, 3600, "BDT", Ghost(g))
        .step(436363200, -36000, 0, "AHST", Ghost(g))
        .step(439034400, -36000, 0, "HST", Ghost(g))
        .step(452088000, -36000, 3600, "HDT", Ghost(g))
        .step(467809200, -36000, 0, "HST", Ghost(g))
        .step(483537600, -36000, 3600, "HDT", Ghost(g))
        .step(499258800, -36000, 0, "HST", Ghost(g))
        .step(514987200, -36000, 3600, "HDT", Ghost(g))
        .step(530708400, -36000, 0, "HST", Ghost(g))
        .step(544622400, -36000, 3600, "HDT", Ghost(g))
        .step(562158000, -36000, 0, "HST", Ghost(g))
        .step(576072000, -36000, 3600, "HDT", Ghost(g))
        .step(594212400, -36000, 0, "HST", Ghost(g))
        .step(607521600, -36000, 3600, "HDT", Ghost(g))
        .step(625662000, -36000, 0, "HST", Ghost(g))
        .step(638971200, -36000, 3600, "HDT", Ghost(g))
        .step(657111600, -36000, 0, "HST", Ghost(g))
        .step(671025600, -36000, 3600, "HDT", Ghost(g))
        .step(688561200, -36000, 0, "HST", Ghost(g))
        .step(702475200, -36000, 3600, "HDT", Ghost(g))
        .step(720010800, -36000, 0, "HST", Ghost(g))
        .step(733924800, -36000, 3600, "HDT", Ghost(g))
        .step(752065200, -36000, 0, "HST", Ghost(g))
        .step(765374400, -36000, 3600, "HDT", Ghost(g))
        .step(783514800, -36000, 0, "HST", Ghost(g))
        .step(796824000, -36000, 3600, "HDT", Ghost(g))
        .step(814964400, -36000, 0, "HST", Ghost(g))
        .step(828878400, -36000, 3600, "HDT", Ghost(g))
        .step(846414000, -36000, 0, "HST", Ghost(g))
        .step(860328000, -36000, 3600, "HDT", Ghost(g))
        .step(877863600, -36000, 0, "HST", Ghost(g))
        .step(891777600, -36000, 3600, "HDT", Ghost(g))
        .step(909313200, -36000, 0, "HST", Ghost(g))
        .step(923227200, -36000, 3600, "HDT", Ghost(g))
        .step(941367600, -36000, 0, "HST", Ghost(g))
        .step(954676800, -36000, 3600, "HDT", Ghost(g))
        .step(972817200, -36000, 0, "HST", Ghost(g))
        .step(986126400, -36000, 3600, "HDT", Ghost(g))
        .step(1004266800, -36000, 0, "HST", Ghost(g))
        .step(1018180800, -36000, 3600, "HDT", Ghost(g))
        .step(1035716400, -36000, 0, "HST", Ghost(g))
        .step(1049630400, -36000, 3600, "HDT", Ghost(g))
        .step(1067166000, -36000, 0, "HST", Ghost(g))
        .step(1081080000, -36000, 3600, "HDT", Ghost(g))
        .step(1099220400, -36000, 0, "HST", Ghost(g))
        .step(1112529600, -36000, 3600, "HDT", Ghost(g))
        .step(1130670000, -36000, 0, "HST", Ghost(g))
        .step(1143979200, -36000, 3600, "HDT", Ghost(g))
        .step(1162119600, -36000, 0, "HST", Ghost(g))
        .step(1173614400, -36000, 3600, "HDT", Ghost(g))
        .step(1194174000, -36000, 0, "HST", Ghost(g))
        .step(1205064000, -36000, 3600, "HDT", Ghost(g))
        .step(1225623600, -36000, 0, "HST", Ghost(g))
        .step(1236513600, -36000, 3600, "HDT", Ghost(g))
        .step(1257073200, -36000, 0, "HST", Ghost(g))
        .step(1268568000, -36000, 3600, "HDT", Ghost(g))
        .step(1289127600, -36000, 0, "HST", Ghost(g))
        .step(1300017600, -36000, 3600, "HDT", Ghost(g))
        .step(1320577200, -36000, 0, "HST", Ghost(g))
        .step(1331467200, -36000, 3600, "HDT", Ghost(g))
        .step(1352026800, -36000, 0, "HST", Ghost(g))
        .step(1362916800, -36000, 3600, "HDT", Ghost(g))
        .step(1383476400, -36000, 0, "HST", Ghost(g))
        .step(1394366400, -36000, 3600, "HDT", Ghost(g))
        .step(1414926000, -36000, 0, "HST", Ghost(g))
        .step(1425816000, -36000, 3600, "HDT", Ghost(g))
        .step(1446375600, -36000, 0, "HST", Ghost(g))
        .step(1457870400, -36000, 3600, "HDT", Ghost(g))
        .step(1478430000, -36000, 0, "HST", Ghost(g))
        .step(1489320000, -36000, 3600, "HDT", Ghost(g))
        .step(1509879600, -36000, 0, "HST", Ghost(g))
        .step(1520769600, -36000, 3600, "HDT", Ghost(g))
        .step(1541329200, -36000, 0, "HST", Ghost(g))
        .step(1552219200, -36000, 3600, "HDT", Ghost(g))
        .step(1572778800, -36000, 0, "HST", Ghost(g))
        .step(1583668800, -36000, 3600, "HDT", Ghost(g))
        .step(1604228400, -36000, 0, "HST", Ghost(g))
        .step(1615723200, -36000, 3600, "HDT", Ghost(g))
        .step(1636282800, -36000, 0, "HST", Ghost(g))
        .step(1647172800, -36000, 3600, "HDT", Ghost(g))
        .step(1667732400, -36000, 0, "HST", Ghost(g))
        .step(1678622400, -36000, 3600, "HDT", Ghost(g))
        .step(1699182000, -36000, 0, "HST", Ghost(g))
        .step(1710072000, -36000, 3600, "HDT", Ghost(g))
        .step(1730631600, -36000, 0, "HST", Ghost(g))
        .step(1741521600, -36000, 3600, "HDT", Ghost(g))
        .step(1762081200, -36000, 0, "HST", Ghost(g))
        .step(1772971200, -36000, 3600, "HDT", Ghost(g))
        .step(1793530800, -36000, 0, "HST", Ghost(g))
        .step(1805025600, -36000, 3600, "HDT", Ghost(g))
        .step(1825585200, -36000, 0, "HST", Ghost(g))
        .step(1836475200, -36000, 3600, "HDT", Ghost(g))
        .step(1857034800, -36000, 0, "HST", Ghost(g))
        .step(1867924800, -36000, 3600, "HDT", Ghost(g))
        .step(1888484400, -36000, 0, "HST", Ghost(g))
        .step(1899374400, -36000, 3600, "HDT", Ghost(g))
        .step(1919934000, -36000, 0, "HST", Ghost(g))
        .step(1930824000, -36000, 3600, "HDT", Ghost(g))
        .step(1951383600, -36000, 0, "HST", Ghost(g))
        .step(1962878400, -36000, 3600, "HDT", Ghost(g))
        .step(1983438000, -36000, 0, "HST", Ghost(g))
        .step(1994328000, -36000, 3600, "HDT", Ghost(g))
        .step(2014887600, -36000, 0, "HST", Ghost(g))
        .step(2025777600, -36000, 3600, "HDT", Ghost(g))
        .step(2046337200, -36000, 0, "HST", Ghost(g))
        .step(2057227200, -36000, 3600, "HDT", Ghost(g))
        .step(2077786800, -36000, 0, "HST", Ghost(g))
        .step(2088676800, -36000, 3600, "HDT", Ghost(g))
        .step(2109236400, -36000, 0, "HST", Ghost(g))
        .step(2120126400, -36000, 3600, "HDT", Ghost(g))
        .step(2140686000, -36000, 0, "HST", Ghost(g))
        .finish(Ghost(g))
}

/// The zone `America/Bahia`.
pub fn bahia() -> (r: Tz)
    ensures
        r.wf(),
        r.zone_name() == "America/Bahia"@,
        r.table() == tables::america::bahia(),
{
    let ghost g = tables::america::bahia_rows();
    FixedTimespanSet::begin("America/Bahia", -9244, 0, "LMT", Ghost(g))
        .step(-1767216356, -10800, 0, "-03", Ghost(g))
        .step(-1206957600, -10800, 3600, "-02", Ghost(g))
        .step(-1191362400, -10800, 0, "-03", Ghost(g))
        .step(-1175374800, -10800, 3600, "-02", Ghost(g))
        .step(-1159826400, -10800, 0, "-03", Ghost(g))
        .step(-633819600, -10800, 3600, "-02", Ghost(g))
        .step(-622069200, -10800, 0, "-03", Ghost(g))
        .step(-602283600, -10800, 3600, "-02", Ghost(g))
        .step(-591832800, -10800, 0, "-03", Ghost(g))
        .step(-570747600, -10800, 3600, "-02", Ghost(g))
        .step(-560210400, -10800, 0, "-03", Ghost(g))
        .step(-539125200, -10800, 3600, "-02", Ghost(g))
        .step(-531352800, -10800, 0, "-03", Ghost(g))
        .step(-191365200, -10800, 3600, "-02", Ghost(g))
        .step(-184197600, -10800, 0, "-03", Ghost(g))
        .step(-155163600, -10800, 3600, "-02", Ghost(g))
        .step(-150069600, -10800, 0, "-03", Ghost(g))
        .step(-128898000, -10800, 3600, "-02", Ghost(g))
        .step(-121125600, -10800, 0, "-03", Ghost(g))
        .step(-99954000, -10800, 3600, "-02", Ghost(g))
        .step(-89589600, -10800, 0, "-03", Ghost(g))
        .step(-68418000, -10800, 3600, "-02", Ghost(g))
        .step(-57967200, -10800, 0, "-03", Ghost(g))
        .step(499748400, -10800, 3600, "-02", Ghost(g))
        .step(511236000, -10800, 0, "-03", Ghost(g))
        .step(530593200, -10800, 3600, "-02", Ghost(g))
        .step(540266400, -10800, 0, "-03", Ghost(g))
        .step(562129200, -10800, 3600, "-02", Ghost(g))
        .step(571197600, -10800, 0, "-03", Ghost(g))
        .step(592974000, -10800, 3600, "-02", Ghost(g))
        .step(602042400, -10800, 0, "-03", Ghost(g))
        .step(624423600, -10800, 3600, "-02", Ghost(g))
        .step(634701600, -10800, 0, "-03", Ghost(g))
        .step(656478000, -10800, 3600, "-02", Ghost(g))
        .step(666756000, -10800, 0, "-03", Ghost(g))
        .step(687927600, -10800, 3600, "-02", Ghost(g))
        .step(697600800, -10800, 0, "-03", Ghost(g))
        .step(719982000, -10800, 3600, "-02", Ghost(g))
        .step(728445600, -10800, 0, "-03", Ghost(g))
        .step(750826800, -10800, 3600, "-02", Ghost(g))
        .step(761709600, -10800, 0, "-03", Ghost(g))
        .step(782276400, -10800, 3600, "-02", Ghost(g))
        .step(793159200, -10800, 0, "-03", Ghost(g))
        .step(813726000, -10800, 3600, "-02", Ghost(g))
        .step(824004000, -10800, 0, "-03", Ghost(g))
        .step(844570800, -10800, 3600, "-02", Ghost(g))
        .step(856058400, -10800, 0, "-03", Ghost(g))
        .step(876106800, -10800, 3600, "-02", Ghost(g))
        .step(888717600, -10800, 0, "-03", Ghost(g))
        .step(908074800, -10800, 3600, "-02", Ghost(g))
        .step(919562400, -10800, 0, "-03", Ghost(g))
        .step(938919600, -10800, 3600, "-02", Ghost(g))
        .step(951616800, -10800, 0, "-03", Ghost(g))
        .step(970974000, -10800, 3600, "-02", Ghost(g))
        .step(982461600, -10800, 0, "-03", Ghost(g))
        .step(1003028400, -10800, 3600, "-02", Ghost(g))
        .step(1013911200, -10800, 0, "-03", Ghost(g))
        .step(1036292400, -10800, 3600, "-02", Ghost(g))
        .step(1045360800, -10800, 0, "-03", Ghost(g))
        .step(1318734000, -10800, 3600, "-02", Ghost(g))
        .step(1330221600, -10800, 0, "-03", Ghost(g))
        .step(2147483647, -10800, 0, "-03", Ghost(g))
        .finish(Ghost(g))
}

/// The zone `America/Bahia_Banderas`.
pub fn bahia_banderas() -> (r: Tz)
    ensures
        r.wf(),
        r.zone_name() == "America/Bahia_Banderas"@,
        r.table() == tables::america::bahia_banderas(),
{
    let ghost g = tables::america::bahia_banderas_rows();
    FixedTimespanSet::begin("America/Bahia_Banderas", -25260, 0, "LMT", Ghost(g))
        .step(-1514739600, -25200, 0, "MST", Ghost(g))
        .step(-1343149200, -21600, 0, "CST", Ghost(g))
        .step(-1234807200, -25200, 0, "MST", Ghost(g))
        .step(-1220461200, -25200, 3600, "MDT", Ghost(g))
        .step(-1207159200, -25200, 0, "MST", Ghost(g))
        .step(-1191344400, -21600, 0, "CST", Ghost(g))
        .step(-873828000, -25200, 0, "MST", Ghost(g))
        .step(828867600, -25200, 3600, "MDT", Ghost(g))
        .step(846403200, -25200, 0, "MST", Ghost(g))
        .step(860317200, -25200, 3600, "MDT", Ghost(g))
        .step(877852800, -25200, 0, "MST", Ghost(g))
        .step(891766800, -25200, 3600, "MDT", Ghost(g))
        .step(909302400, -25200, 0, "MST", Ghost(g))
        .step(923216400, -25200, 3600, "MDT", Ghost(g))
        .step(941356800, -25200, 0, "MST", Ghost(g))
        .step(954666000, -25200, 3600, "MDT", Ghost(g))
        .step(972806400, -25200, 0, "MST", Ghost(g))
        .step(989139600, -25200, 3600, "MDT", Ghost(g))
        .step(1001836800, -25200, 0, "MST", Ghost(g))
        .step(1018170000, -25200, 3600, "MDT", Ghost(g))
        .step(1035705600, -25200, 0, "MST", Ghost(g))
        .step(1049619600, -25200, 3600, "MDT", Ghost(g))
        .step(1067155200, -25200, 0, "MST", Ghost(g))
        .step(1081069200, -25200, 3600, "MDT", Ghost(g))
        .step(1099209600, -25200, 0, "MST", Ghost(g))
        .step(1112518800, -25200, 3600, "MDT", Ghost(g))
        .step(1130659200, -25200, 0, "MST", Ghost(g))
        .step(1143968400, -25200, 3600, "MDT", Ghost(g))
        .step(1162108800, -25200, 0, "MST", Ghost(g))
        .step(1175418000, -25200, 3600, "MDT", Ghost(g))
        .step(1193558400, -25200, 0, "MST", Ghost(g))
        .step(1207472400, -25200, 3600, "MDT", Ghost(g))
        .step(1225008000, -25200, 0, "MST", Ghost(g))
        .step(1238922000, -25200, 3600, "MDT", Ghost(g))
        .step(1256457600, -25200, 0, "MST", Ghost(g))
        .step(1270371600, -25200, 7200, "CDT", Ghost(g))
        .step(1288508400, -21600, 0, "CST", Ghost(g))
        .step(1301817600, -21600, 3600, "CDT", Ghost(g))
        .step(1319958000, -21600, 0, "CST", Ghost(g))
        .step(1333267200, -21600, 3600, "CDT", Ghost(g))
        .step(1351407600, -21600, 0, "CST", Ghost(g))
        .step(1365321600, -21600, 3600, "CDT", Ghost(g))
        .step(1382857200, -21600, 0, "CST", Ghost(g))
        .step(1396771200, -21600, 3600, "CDT", Ghost(g))
        .step(1414306800, -21600, 0, "CST", Ghost(g))
        .step(1428220800, -21600, 3600, "CDT", Ghost(g))
        .step(1445756400, -21600, 0, "CST", Ghost(g))
        .step(1459670400, -21600, 3600, "CDT", Ghost(g))
        .step(1477810800, -21600, 0, "CST", Ghost(g))
        .step(1491120000, -21600, 3600, "CDT", Ghost(g))
        .step(1509260400, -21600, 0, "CST", Ghost(g))
        .step(1522569600, -21600, 3600, "CDT", Ghost(g))
        .step(1540710000, -21600, 0, "CST", Ghost(g))
        .step(1554624000, -21600, 3600, "CDT", Ghost(g))
        .step(1572159600, -21600, 0, "CST", Ghost(g))
        .step(1586073600, -21600, 3600, "CDT", Ghost(g))
        .step(1603609200, -21600, 0, "CST", Ghost(g))
        .step(1617523200, -21600, 3600, "CDT", Ghost(g))
        .step(1635663600, -21600, 0, "CST", Ghost(g))
        .step(1648972800, -21600, 3600, "CDT", Ghost(g))
        .step(1667113200, -21600, 0, "CST", Ghost(g))
        .finish(Ghost(g))
}

/// The zone `America/Barbados`.
pub fn barbados() -> (r: Tz)
    ensures
        r.wf(),
        r.zone_name() == "America/Barbados"@,
        r.table() == tables::america::barbados(),
{
    let ghost g = tables::america::barbados_rows();
    FixedTimespanSet::begin("America/Barbados", -14309, 0, "LMT", Ghost(g))
        .step(-1841256091, -14400, 0, "AST", Ghost(g))
        .step(-874263600, -14400, 3600, "ADT", Ghost(g))
        .step(-862682400, -14400, 0, "AST", Ghost(g))
        .step(-841604400, -14400, 3600, "ADT", Ghost(g))
        .step(-830714400, -14400, 0, "AST", Ghost(g))
        .step(-811882800, -14400, 1800, "-0330", Ghost(g))
        .step(-798660000, -14400, 0, "AST", Ghost(g))
        .step(234943200, -14400, 3600, "ADT", Ghost(g))
        .step(244616400, -14400, 0, "AST", Ghost(g))
        .step(261554400, -14400, 3600, "ADT", Ghost(g))
        .step(276066000, -14400, 0, "AST", Ghost(g))
        .step(293004000, -14400, 3600, "ADT", Ghost(g))
        .step(307515600, -14400, 0, "AST", Ghost(g))
        .step(325058400, -14400, 3600, "ADT", Ghost(g))
        .step(338706000, -14400, 0, "AST", Ghost(g))
        .finish(Ghost(g))
}

/// The zone `America/Belem`.
pub fn belem() -> (r: Tz)
    ensures
        r.wf(),
        r.zone_name() == "America/Belem"@,
        r.table() == tables::america::belem(),
{
    let ghost g = tables::america::belem_rows();
    FixedTimespanSet::begin("America/Belem", -11636, 0, "LMT", Ghost(g))
        .step(-1767213964, -10800, 0, "-03", Ghost(g))
        .step(-1206957600, -10800, 3600, "-02", Ghost(g))
        .step(-1191362400, -10800, 0, "-03", Ghost(g))
        .step(-1175374800, -10800, 3600, "-02", Ghost(g))
        .step(-1159826400, -10800, 0, "-03", Ghost(g))
        .step(-633819600, -10800, 3600, "-02", Ghost(g))
        .step(-622069200, -10800, 0, "-03", Ghost(g))
        .step(-602283600, -10800, 3600, "-02", Ghost(g))
        .step(-591832800, -10800, 0, "-03", Ghost(g))
        .step(-570747600, -10800, 3600, "-02", Ghost(g))
        .step(-560210400, -10800, 0, "-03", Ghost(g))
        .step(-539125200, -10800, 3600, "-02", Ghost(g))
        .step(-531352800, -10800, 0, "-03", Ghost(g))
        .step(-191365200, -10800, 3600, "-02", Ghost(g))
        .step(-184197600, -10800, 0, "-03", Ghost(g))
        .step(-155163600, -10800, 3600, "-02", Ghost(g))
        .step(-150069600, -10800, 0, "-03", Ghost(g))
        .step(-128898000, -10800, 3600, "-02", Ghost(g))
        .step(-121125600, -10800, 0, "-03", Ghost(g))
        .step(-99954000, -10800, 3600, "-02", Ghost(g))
        .step(-89589600, -10800, 0, "-03", Ghost(g))
        .step(-68418000, -10800, 3600, "-02", Ghost(g))
        .step(-57967200, -10800, 0, "-03", Ghost(g))
        .step(499748400, -10800, 3600, "-02", Ghost(g))
        .step(511236000, -10800, 0, "-03", Ghost(g))
        .step(530593200, -10800, 3600, "-02", Ghost(g))
        .step(540266400, -10800, 0, "-03", Ghost(g))
        .step(562129200, -10800, 3600, "-02", Ghost(g))
        .step(571197600, -10800, 0, "-03", Ghost(g))
        .step(2147483647, -10800, 0, "-03", Ghost(g))
        .finish(Ghost(g))
}

/// The zone `America/Belize`.
pub fn belize() -> (r: Tz)
    ensures
        r.wf(),
        r.zone_name() == "America/Belize"@,
        r.table() == tables::america::belize(),
{
    let ghost g = tables::america::belize_rows();
    FixedTimespanSet::begin("America/Belize", -21168, 0, "LMT", Ghost(g))
        .step(-1822500432, -21600, 0, "CST", Ghost(g))
        .step(-1616954400, -21600, 1800, "-0530", Ghost(g))
        .step(-1606069800, -21600, 0, "CST", Ghost(g))
        .step(-1585504800, -21600, 1800, "-0530", Ghost(g))
        .step(-1574015400, -21600, 0, "CST", Ghost(g))
        .step(-1554055200, -21600, 1800, "-0530", Ghost(g))
        .step(-1542565800, -21600, 0, "CST", Ghost(g))
        .step(-1522605600, -21600, 1800, "-0530", Ghost(g))
        .step(-1511116200, -21600, 0, "CST", Ghost(g))
        .step(-1490551200, -21600, 1800, "-0530", Ghost(g))
        .step(-1479666600, -21600, 0, "CST", Ghost(g))
        .step(-1459101600, -21600, 1800, "-0530", Ghost(g))
        .step(-1448217000, -21600, 0, "CST", Ghost(g))
        .step(-1427652000, -21600, 1800, "-0530", Ghost(g))
        .step(-1416162600, -21600, 0, "CST", Ghost(g))
        .step(-1396202400, -21600, 1800, "-0530", Ghost(g))
        .step(-1384713000, -21600, 0, "CST", Ghost(g))
        .step(-1364752800, -21600, 1800, "-0530", Ghost(g))
        .step(-1353263400, -21600, 0, "CST", Ghost(g))
        .step(-1333303200, -21600, 1800, "-0530", Ghost(g))
        .step(-1321813800, -21600, 0, "CST", Ghost(g))
        .step(-1301248800, -21600, 1800, "-0530", Ghost(g))
        .step(-1290364200, -21600, 0, "CST", Ghost(g))
        .step(-1269799200, -21600, 1800, "-0530", Ghost(g))
        .step(-1258914600, -21600, 0, "CST", Ghost(g))
        .step(-1238349600, -21600, 1800, "-0530", Ghost(g))
        .step(-1226860200, -21600, 0, "CST", Ghost(g))
        .step(-1206900000, -21600, 1800, "-0530", Ghost(g))
        .step(-1195410600, -21600, 0, "CST", Ghost(g))
        .step(-1175450400, -21600, 1800, "-0530", Ghost(g))
        .step(-1163961000, -21600, 0, "CST", Ghost(g))
        .step(-1143396000, -21600, 1800, "-0530", Ghost(g))
        .step(-1132511400, -21600, 0, "CST", Ghost(g))
        .step(-1111946400, -21600, 1800, "-0530", Ghost(g))
        .step(-1101061800, -21600, 0, "CST", Ghost(g))
        .step(-1080496800, -21600, 1800, "-0530", Ghost(g))
        .step(-1069612200, -21600, 0, "CST", Ghost(g))
        .step(-1049047200, -21600, 1800, "-0530", Ghost(g))
        .step(-1037557800, -21600, 0, "CST", Ghost(g))
        .step(-1017597600, -21600, 1800, "-0530", Ghost(g))
        .step(-1006108200, -21600, 0, "CST", Ghost(g))
        .step(-986148000, -21600, 1800, "-0530", Ghost(g))
        .step(-974658600, -21600, 0, "CST", Ghost(g))
        .step(-954093600, -21600, 1800, "-0530", Ghost(g))
        .step(-943209000, -21600, 0, "CST", Ghost(g))
        .step(-922644000, -21600, 1800, "-0530", Ghost(g))
        .step(-911759400, -21600, 0, "CST", Ghost(g))
        .step(-891194400, -21600, 1800, "-0530", Ghost(g))
        .step(-879705000, -21600, 0, "CST", Ghost(g))
        .step(-868212000, -21600, 3600, "CWT", Ghost(g))
        .step(-769395600, -21600, 3600, "CPT", Ghost(g))
        .step(-758746800, -21600, 0, "CST", Ghost(g))
        .step(-701892000, -21600, 1800, "-0530", Ghost(g))
        .step(-690402600, -21600, 0, "CST", Ghost(g))
        .step(-670442400, -21600, 1800, "-0530", Ghost(g))
        .step(-658953000, -21600, 0, "CST", Ghost(g))
        .step(-638992800, -21600, 1800, "-0530", Ghost(g))
        .step(-627503400, -21600, 0, "CST", Ghost(g))
        .step(-606938400, -21600, 1800, "-0530", Ghost(g))
        .step(-596053800, -21600, 0, "CST", Ghost(g))
        .step(-575488800, -21600, 1800, "-0530", Ghost(g))
        .step(-564604200, -21600, 0, "CST", Ghost(g))
        .step(-544039200, -21600, 1800, "-0530", Ghost(g))
        .step(-532549800, -21600, 0, "CST", Ghost(g))
        .step(-512589600, -21600, 1800, "-0530", Ghost(g))
        .step(-501100200, -21600, 0, "CST", Ghost(g))
        .step(-481140000, -21600, 1800, "-0530", Ghost(g))
        .step(-469650600, -21600, 0, "CST", Ghost(g))
        .step(-449690400, -21600, 1800, "-0530", Ghost(g))
        .step(-438201000, -21600, 0, "CST", Ghost(g))
        .step(-417636000, -21600, 1800, "-0530", Ghost(g))
        .step(-406751400, -21600, 0, "CST", Ghost(g))
        .step(-386186400, -21600, 1800, "-0530", Ghost(g))
        .step(-375301800, -21600, 0, "CST", Ghost(g))
        .step(-354736800, -21600, 1800, "-0530", Ghost(g))
        .step(-343247400, -21600, 0, "CST", Ghost(g))
        .step(-323287200, -21600, 1800, "-0530", Ghost(g))
        .step(-311797800, -21600, 0, "CST", Ghost(g))
        .step(-291837600, -21600, 1800, "-0530", Ghost(g))
        .step(-280348200, -21600, 0, "CST", Ghost(g))
        .step(-259783200, -21600, 1800, "-0530", Ghost(g))
        .step(-248898600, -21600, 0, "CST", Ghost(g))
        .step(-228333600, -21600, 1800, "-0530", Ghost(g))
        .step(-217449000, -21600, 0, "CST", Ghost(g))
        .step(-196884000, -21600, 1800, "-0530", Ghost(g))
        .step(-185999400, -21600, 0, "CST", Ghost(g))
        .step(-165434400, -21600, 1800, "-0530", Ghost(g))
        .step(-153945000, -21600, 0, "CST", Ghost(g))
        .step(-133984800, -21600, 1800, "-0530", Ghost(g))
        .step(-122495400, -21600, 0, "CST", Ghost(g))
        .step(-102535200, -21600, 1800, "-0530", Ghost(g))
        .step(-91045800, -21600, 0, "CST", Ghost(g))
        .step(-70480800, -21600, 1800, "-0530", Ghost(g))
        .step(-59596200, -21600, 0, "CST", Ghost(g))
        .step(123919200, -21600, 3600, "CDT", Ghost(g))
        .step(129618000, -21600, 0, "CST", Ghost(g))
        .step(409039200, -21600, 3600, "CDT", Ghost(g))
        .step(413874000, -21600, 0, "CST", Ghost(g))
        .finish(Ghost(g))
}

/// The zone `America/Blanc-Sablon`.
pub fn blanc_sablon() -> (r: Tz)
    ensures
        r.wf(),
        r.zone_name() == "America/Blanc-Sablon"@,
        r.table() == tables::america::blanc_sablon(),
{
    let ghost g = tables::america::blanc_sablon_rows();
    FixedTimespanSet::begin("America/Blanc-Sablon", -13708, 0, "LMT", Ghost(g))
        .step(-2713896692, -14400, 0, "AST", Ghost(g))
        .step(-1632074400, -14400, 3600, "ADT", Ghost(g))
        .step(-1615143600, -14400, 0, "AST", Ghost(g))
        .step(-880221600, -14400, 3600, "AWT", Ghost(g))
        .step(-769395600, -14400, 3600, "APT", Ghost(g))
        .step(-765399600, -14400, 0, "AST", Ghost(g))
        .finish(Ghost(g))
}

/// The zone `America/Boa_Vista`.
pub fn boa_vista() -> (r: Tz)
    ensures
        r.wf(),
        r.zone_name() == "America/Boa_Vista"@,
        r.table() == tables::america::boa_vista(),
{
    let ghost g = tables::america::boa_vista_rows();
    FixedTimespanSet::begin("America/Boa_Vista", -14560, 0, "LMT", Ghost(g))
        .step(-1767211040, -14400, 0, "-04", Ghost(g))
        .step(-1206954000, -14400, 3600, "-03", Ghost(g))
        .step(-1191358800, -14400, 0, "-04", Ghost(g))
        .step(-1175371200, -14400, 3600, "-03", Ghost(g))
        .step(-1159822800, -14400, 0, "-04", Ghost(g))
        .step(-633816000, -14400, 3600, "-03", Ghost(g))
        .step(-622065600, -14400, 0, "-04", Ghost(g))
        .step(-602280000, -14400, 3600, "-03", Ghost(g))
        .step(-591829200, -14400, 0, "-04", Ghost(g))
        .step(-570744000, -14400, 3600, "-03", Ghost(g))
        .step(-560206800, -14400, 0, "-04", Ghost(g))
        .step(-539121600, -14400, 3600, "-03", Ghost(g))
        .step(-531349200, -14400, 0, "-04", Ghost(g))
        .step(-191361600, -14400, 3600, "-03", Ghost(g))
        .step(-184194000, -14400, 0, "-04", Ghost(g))
        .step(-155160000, -14400, 3600, "-03", Ghost(g))
        .step(-150066000, -14400, 0, "-04", Ghost(g))
        .step(-128894400, -14400, 3600, "-03", Ghost(g))
        .step(-121122000, -14400, 0, "-04", Ghost(g))
        .step(-99950400, -14400, 3600, "-03", Ghost(g))
        .step(-89586000, -14400, 0, "-04", Ghost(g))
        .step(-68414400, -14400, 3600, "-03", Ghost(g))
        .step(-57963600, -14400, 0, "-04", Ghost(g))
        .step(499752000, -14400, 3600, "-03", Ghost(g))
        .step(511239600, -14400, 0, "-04", Ghost(g))
        .step(530596800, -14400, 3600, "-03", Ghost(g))
        .step(540270000, -14400, 0, "-04", Ghost(g))
        .step(562132800, -14400, 3600, "-03", Ghost(g))
        .step(571201200, -14400, 0, "-04", Ghost(g))
        .step(938923200, -14400, 3600, "-03", Ghost(g))
        .step(951620400, -14400, 0, "-04", Ghost(g))
        .step(970977600, -14400, 3600, "-03", Ghost(g))
        .step(971578800, -14400, 0, "-04", Ghost(g))
        .step(2147483647, -14400, 0, "-04", Ghost(g))
        .finish(Ghost(g))
}

/// The zone `America/Bogota`.
pub fn bogota() -> (r: Tz)
    ensures
        r.wf(),
        r.zone_name() == "America/Bogota"@,
        r.table() == tables::america::bogota(),
{
    let ghost g = tables::america::bogota_rows();
    FixedTimespanSet::begin("America/Bogota", -17776, 0, "LMT", Ghost(g))
        .step(-2707671824, -17776, 0, "BMT", Ghost(g))
        .step(-1739041424, -18000, 0, "-05", Ghost(g))
        .step(704869200, -18000, 3600, "-04", Ghost(g))
        .step(729057600, -18000, 0, "-05", Ghost(g))
        .step(2147483647, -18000, 0, "-05", Ghost(g))
        .finish(Ghost(g))
}

/// The zone `America/Boise`.
pub fn boise() -> (r: Tz)
    ensures
        r.wf(),
        r.zone_name() == "America/Boise"@,
        r.table() == tables::america::boise(),
{
    let ghost g = tables::america::boise_rows();
    FixedTimespanSet::begin("America/Boise", -27889, 0, "LMT", Ghost(g))
        .step(-2717640000, -28800, 0, "PST", Ghost(g))
        .step(-1633269600, -28800, 3600, "PDT", Ghost(g))
        .step(-1615129200, -28800, 0, "PST", Ghost(g))
        .step(-1601820000, -28800, 3600, "PDT", Ghost(g))
        .step(-1583679600, -28800, 0, "PST", Ghost(g))
        .step(-1471788000, -25200, 0, "MST", Ghost(g))
        .step(-880210800, -25200, 3600, "MWT", Ghost(g))
        .step(-769395600, -25200, 3600, "MPT", Ghost(g))
        .step(-765388800, -25200, 0, "MST", Ghost(g))
        .step(-84380400, -25200, 3600, "MDT", Ghost(g))
        .step(-68659200, -25200, 0, "MST", Ghost(g))
        .step(-52930800, -25200, 3600, "MDT", Ghost(g))
        .step(-37209600, -25200, 0, "MST", Ghost(g))
        .step(-21481200, -25200, 3600, "MDT", Ghost(g))
        .step(-5760000, -25200, 0, "MST", Ghost(g))
        .step(9968400, -25200, 3600, "MDT", Ghost(g))
        .step(25689600, -25200, 0, "MST", Ghost(g))
        .step(41418000, -25200, 3600, "MDT", Ghost(g))
        .step(57744000, -25200, 0, "MST", Ghost(g))
        .step(73472400, -25200, 3600, "MDT", Ghost(g))
        .step(89193600, -25200, 0, "MST", Ghost(g))
        .step(104922000, -25200, 3600, "MDT", Ghost(g))
        .step(120643200, -25200, 0, "MST", Ghost(g))
        .step(129114000, -25200, 3600, "MDT", Ghost(g))
        .step(152092800, -25200, 0, "MST", Ghost(g))
        .step(162378000, -25200, 3600, "MDT", Ghost(g))
        .step(183542400, -25200, 0, "MST", Ghost(g))
        .step(199270800, -25200, 3600, "MDT", Ghost(g))
        .step(215596800, -25200, 0, "MST", Ghost(g))
        .step(230720400, -25200, 3600, "MDT", Ghost(g))
        .step(247046400, -25200, 0, "MST", Ghost(g))
        .step(262774800, -25200, 3600, "MDT", Ghost(g))
        .step(278496000, -25200, 0, "MST", Ghost(g))
        .step(294224400, -25200, 3600, "MDT", Ghost(g))
        .step(309945600, -25200, 0, "MST", Ghost(g))
        .step(325674000, -25200, 3600, "MDT", Ghost(g))
        .step(341395200, -25200, 0, "MST", Ghost(g))
        .step(357123600, -25200, 3600, "MDT", Ghost(g))
        .step(372844800, -25200, 0, "MST", Ghost(g))
        .step(388573200, -25200, 3600, "MDT", Ghost(g))
        .step(404899200, -25200, 0, "MST", Ghost(g))
        .step(420022800, -25200, 3600, "MDT", Ghost(g))
        .step(436348800, -25200, 0, "MST", Ghost(g))
        .step(452077200, -25200, 3600, "MDT", Ghost(g))
        .step(467798400, -25200, 0, "MST", Ghost(g))
        .step(483526800, -25200, 3600, "MDT", Ghost(g))
        .step(499248000, -25200, 0, "MST", Ghost(g))
        .step(514976400, -25200, 3600, "MDT", Ghost(g))
        .step(530697600, -25200, 0, "MST", Ghost(g))
        .step(544611600, -25200, 3600, "MDT", Ghost(g))
        .step(562147200, -25200, 0, "MST", Ghost(g))
        .step(576061200, -25200, 3600, "MDT", Ghost(g))
        .step(594201600, -25200, 0, "MST", Ghost(g))
        .step(607510800, -25200, 3600, "MDT", Ghost(g))
        .step(625651200, -25200, 0, "MST", Ghost(g))
        .step(638960400, -25200, 3600, "MDT", Ghost(g))
        .step(657100800, -25200, 0, "MST", Ghost(g))
        .step(671014800, -25200, 3600, "MDT", Ghost(g))
        .step(688550400, -25200, 0, "MST", Ghost(g))
        .step(702464400, -25200, 3600, "MDT", Ghost(g))
        .step(720000000, -25200, 0, "MST", Ghost(g))
        .step(733914000, -25200, 3600, "MDT", Ghost(g))
        .step(752054400, -25200, 0, "MST", Ghost(g))
        .step(765363600, -25200, 3600, "MDT", Ghost(g))
        .step(783504000, -25200, 0, "MST", Ghost(g))
        .step(796813200, -25200, 3600, "MDT", Ghost(g))
        .step(814953600, -25200, 0, "MST", Ghost(g))
        .step(828867600, -25200, 3600, "MDT", Ghost(g))
        .step(846403200, -25200, 0, "MST", Ghost(g))
        .step(860317200, -25200, 3600, "MDT", Ghost(g))
        .step(877852800, -25200, 0, "MST", Ghost(g))
        .step(891766800, -25200, 3600, "MDT", Ghost(g))
        .step(909302400, -25200, 0, "MST", Ghost(g))
        .step(923216400, -25200, 3600, "MDT", Ghost(g))
        .step(941356800, -25200, 0, "MST", Ghost(g))
        .step(954666000, -25200, 3600, "MDT", Ghost(g))
        .step(972806400, -25200, 0, "MST", Ghost(g))
        .step(986115600, -25200, 3600, "MDT", Ghost(g))
        .step(1004256000, -25200, 0, "MST", Ghost(g))
        .step(1018170000, -25200, 3600, "MDT", Ghost(g))
        .step(1035705600, -25200, 0, "MST", Ghost(g))
        .step(1049619600, -25200, 3600, "MDT", Ghost(g))
        .step(1067155200, -25200, 0, "MST", Ghost(g))
        .step(1081069200, -25200, 3600, "MDT", Ghost(g))
        .step(1099209600, -25200, 0, "MST", Ghost(g))
        .step(1112518800, -25200, 3600, "MDT", Ghost(g))
        .step(1130659200, -25200, 0, "MST", Ghost(g))
        .step(1143968400, -25200, 3600, "MDT", Ghost(g))
        .step(1162108800, -25200, 0, "MST", Ghost(g))
        .step(1173603600, -25200, 3600, "MDT", Ghost(g))
        .step(1194163200, -25200, 0, "MST", Ghost(g))
        .step(1205053200, -25200, 3600, "MDT", Ghost(g))
        .step(1225612800, -25200, 0, "MST", Ghost(g))
        .step(1236502800, -25200, 3600, "MDT", Ghost(g))
        .step(1257062400, -25200, 0, "MST", Ghost(g))
        .step(1268557200, -25200, 3600, "MDT", Ghost(g))
        .step(1289116800, -25200, 0, "MST", Ghost(g))
        .step(1300006800, -25200, 3600, "MDT", Ghost(g))
        .step(1320566400, -25200, 0, "MST", Ghost(g))
        .step(1331456400, -25200, 3600, "MDT", Ghost(g))
        .step(1352016000, -25200, 0, "MST", Ghost(g))
        .step(1362906000, -25200, 3600, "MDT", Ghost(g))
        .step(1383465600, -25200, 0, "MST", Ghost(g))
        .step(1394355600, -25200, 3600, "MDT", Ghost(g))
        .step(1414915200, -25200, 0, "MST", Ghost(g))
        .step(1425805200, -25200, 3600, "MDT", Ghost(g))
        .step(1446364800, -25200, 0, "MST", Ghost(g))
        .step(1457859600, -25200, 3600, "MDT", Ghost(g))
        .step(1478419200, -25200, 0, "MST", Ghost(g))
        .step(1489309200, -25200, 3600, "MDT", Ghost(g))
        .step(1509868800, -25200, 0, "MST", Ghost(g))
        .step(1520758800, -25200, 3600, "MDT", Ghost(g))
        .step(1541318400, -25200, 0, "MST", Ghost(g))
        .step(1552208400, -25200, 3600, "MDT", Ghost(g))
        .step(1572768000, -25200, 0, "MST", Ghost(g))
        .step(1583658000, -25200, 3600, "MDT", Ghost(g))
        .step(1604217600, -25200, 0, "MST", Ghost(g))
        .step(1615712400, -25200, 3600, "MDT", Ghost(g))
        .step(1636272000, -25200, 0, "MST", Ghost(g))
        .step(1647162000, -25200, 3600, "MDT", Ghost(g))
        .step(1667721600, -25200, 0, "MST", Ghost(g))
        .step(1678611600, -25200, 3600, "MDT", Ghost(g))
        .step(1699171200, -25200, 0, "MST", Ghost(g))
        .step(1710061200, -25200, 3600, "MDT", Ghost(g))
        .step(1730620800, -25200, 0, "MST", Ghost(g))
        .step(1741510800, -25200, 3600, "MDT", Ghost(g))
        .step(1762070400, -25200, 0, "MST", Ghost(g))
        .step(1772960400, -25200, 3600, "MDT", Ghost(g))
        .step(1793520000, -25200, 0, "MST", Ghost(g))
        .step(1805014800, -25200, 3600, "MDT", Ghost(g))
        .step(1825574400, -25200, 0, "MST", Ghost(g))
        .step(1836464400, -25200, 3600, "MDT", Ghost(g))
        .step(1857024000, -25200, 0, "MST", Ghost(g))
        .step(1867914000, -25200, 3600, "MDT", Ghost(g))
        .step(1888473600, -25200, 0, "MST", Ghost(g))
        .step(1899363600, -25200, 3600, "MDT", Ghost(g))
        .step(1919923200, -25200, 0, "MST", Ghost(g))
        .step(1930813200, -25200, 3600, "MDT", Ghost(g))
        .step(1951372800, -25200, 0, "MST", Ghost(g))
        .step(1962867600, -25200, 3600, "MDT", Ghost(g))
        .step(1983427200, -25200, 0, "MST", Ghost(g))
        .step(1994317200, -25200, 3600, "MDT", Ghost(g))
        .step(2014876800, -25200, 0, "MST", Ghost(g))
        .step(2025766800, -25200, 3600, "MDT", Ghost(g))
        .step(2046326400, -25200, 0, "MST", Ghost(g))
        .step(2057216400, -25200, 3600, "MDT", Ghost(g))
        .step(2077776000, -25200, 0, "MST", Ghost(g))
        .step(2088666000, -25200, 3600, "MDT", Ghost(g))
        .step(2109225600, -25200, 0, "MST", Ghost(g))
        .step(2120115600, -25200, 3600, "MDT", Ghost(g))
        .step(2140675200, -25200, 0, "MST", Ghost(g))
        .finish(Ghost(g))
}

/// The zone `America/Buenos_Aires`.
pub fn buenos_aires() -> (r: Tz)
    ensures
        r.wf(),
        r.zone_name() == "America/Buenos_Aires"@,
        r.table() == tables::america::buenos_aires(),
{
    let ghost g = tables::america::buenos_aires_rows();
    FixedTimespanSet::begin("America/Buenos_Aires", -14028, 0, "LMT", Ghost(g))
        .step(-2372097972, -15408, 0, "CMT", Ghost(g))
        .step(-1567453392, -14400, 0, "-04", Ghost(g))
        .step(-1233432000, -14400, 3600, "-03", Ghost(g))
        .step(-1222981200, -14400, 0, "-04", Ghost(g))
        .step(-1205956800, -14400, 3600, "-03", Ghost(g))
        .step(-1194037200, -14400, 0, "-04", Ghost(g))
        .step(-1172865600, -14400, 3600, "-03", Ghost(g))
        .step(-1162501200, -14400, 0, "-04", Ghost(g))
        .step(-1141329600, -14400, 3600, "-03", Ghost(g))
        .step(-1130965200, -14400, 0, "-04", Ghost(g))
        .step(-1109793600, -14400, 3600, "-03", Ghost(g))
        .step(-1099429200, -14400, 0, "-04", Ghost(g))
        .step(-1078257600, -14400, 3600, "-03", Ghost(g))
        .step(-1067806800, -14400, 0, "-04", Ghost(g))
        .step(-1046635200, -14400, 3600, "-03", Ghost(g))
        .step(-1036270800, -14400, 0, "-04", Ghost(g))
        .step(-1015099200, -14400, 3600, "-03", Ghost(g))
        .step(-1004734800, -14400, 0, "-04", Ghost(g))
        .step(-983563200, -14400, 3600, "-03", Ghost(g))
        .step(-973198800, -14400, 0, "-04", Ghost(g))
        .step(-952027200, -14400, 3600, "-03", Ghost(g))
        .step(-941576400, -14400, 0, "-04", Ghost(g))
        .step(-931032000, -14400, 3600, "-03", Ghost(g))
        .step(-900882000, -14400, 0, "-04", Ghost(g))
        .step(-890337600, -14400, 3600, "-03", Ghost(g))
        .step(-833749200, -14400, 0, "-04", Ghost(g))
        .step(-827265600, -14400, 3600, "-03", Ghost(g))
        .step(-752274000, -14400, 0, "-04", Ghost(g))
        .step(-733780800, -14400, 3600, "-03", Ghost(g))
        .step(-197326800, -14400, 0, "-04", Ghost(g))
        .step(-190843200, -14400, 3600, "-03", Ghost(g))
        .step(-184194000, -14400, 0, "-04", Ghost(g))
        .step(-164491200, -14400, 3600, "-03", Ghost(g))
        .step(-152658000, -14400, 0, "-04", Ghost(g))
        .step(-132955200, -14400, 3600, "-03", Ghost(g))
        .step(-121122000, -14400, 0, "-04", Ghost(g))
        .step(-101419200, -14400, 3600, "-03", Ghost(g))
        .step(-86821200, -14400, 0, "-04", Ghost(g))
        .step(-71092800, -14400, 3600, "-03", Ghost(g))
        .step(-54766800, -14400, 0, "-04", Ghost(g))
        .step(-39038400, -14400, 3600, "-03", Ghost(g))
        .step(-23317200, -14400, 0, "-04", Ghost(g))
        .step(-7588800, -10800, 0, "-03", Ghost(g))
        .step(128142000, -10800, 3600, "-02", Ghost(g))
        .step(136605600, -10800, 0, "-03", Ghost(g))
        .step(596948400, -10800, 3600, "-02", Ghost(g))
        .step(605066400, -10800, 0, "-03", Ghost(g))
        .step(624423600, -10800, 3600, "-02", Ghost(g))
        .step(636516000, -10800, 0, "-03", Ghost(g))
        .step(656478000, -10800, 3600, "-02", Ghost(g))
        .step(667965600, -10800, 0, "-03", Ghost(g))
        .step(687927600, -10800, 3600, "-02", Ghost(g))
        .step(699415200, -10800, 0, "-03", Ghost(g))
        .step(719377200, -10800, 3600, "-02", Ghost(g))
        .step(731469600, -10800, 0, "-03", Ghost(g))
        .step(938919600, -14400, 3600, "-03", Ghost(g))
        .step(952052400, -10800, 0, "-03", Ghost(g))
        .step(1198983600, -10800, 3600, "-02", Ghost(g))
        .step(1205632800, -10800, 0, "-03", Ghost(g))
        .step(1224385200, -10800, 3600, "-02", Ghost(g))
        .step(1237082400, -10800, 0, "-03", Ghost(g))
        .step(2147483647, -10800, 0, "-03", Ghost(g))
        .finish(Ghost(g))
}

/// The zone `America/Cambridge_Bay`.
pub fn cambridge_bay() -> (r: Tz)
    ensures
        r.wf(),
        r.zone_name() == "America/Cambridge_Bay"@,
        r.table() == tables::america::cambridge_bay(),
{
    let ghost g = tables::america::cambridge_bay_rows();
    FixedTimespanSet::begin("America/Cambridge_Bay", 0, 0, "-00", Ghost(g))
        .step(-1577923200, -25200, 0, "MST", Ghost(g))
        .step(-880210800, -25200, 3600, "MWT", Ghost(g))
        .step(-769395600, -25200, 3600, "MPT", Ghost(g))
        .step(-765388800, -25200, 0, "MST", Ghost(g))
        .step(73472400, -25200, 3600, "MDT", Ghost(g))
        .step(89193600, -25200, 0, "MST", Ghost(g))
        .step(104922000, -25200, 3600, "MDT", Ghost(g))
        .step(120643200, -25200, 0, "MST", Ghost(g))
        .step(136371600, -25200, 3600, "MDT", Ghost(g))
        .step(152092800, -25200, 0, "MST", Ghost(g))
        .step(167821200, -25200, 3600, "MDT", Ghost(g))
        .step(183542400, -25200, 0, "MST", Ghost(g))
        .step(199270800, -25200, 3600, "MDT", Ghost(g))
        .step(215596800, -25200, 0, "MST", Ghost(g))
        .step(230720400, -25200, 3600, "MDT", Ghost(g))
        .step(247046400, -25200, 0, "MST", Ghost(g))
        .step(262774800, -25200, 3600, "MDT", Ghost(g))
        .step(278496000, -25200, 0, "MST", Ghost(g))
        .step(294224400, -25200, 3600, "MDT", Ghost(g))
        .step(309945600, -25200, 0, "MST", Ghost(g))
        .step(325674000, -25200, 3600, "MDT", Ghost(g))
        .step(341395200, -25200, 0, "MST", Ghost(g))
        .step(357123600, -25200, 3600, "MDT", Ghost(g))
        .step(372844800, -25200, 0, "MST", Ghost(g))
        .step(388573200, -25200, 3600, "MDT", Ghost(g))
        .step(404899200, -25200, 0, "MST", Ghost(g))
        .step(420022800, -25200, 3600, "MDT", Ghost(g))
        .step(436348800, -25200, 0, "MST", Ghost(g))
        .step(452077200, -25200, 3600, "MDT", Ghost(g))
        .step(467798400, -25200, 0, "MST", Ghost(g))
        .step(483526800, -25200, 3600, "MDT", Ghost(g))
        .step(499248000, -25200, 0, "MST", Ghost(g))
        .step(514976400, -25200, 3600, "MDT", Ghost(g))
        .step(530697600, -25200, 0, "MST", Ghost(g))
        .step(544611600, -25200, 3600, "MDT", Ghost(g))
        .step(562147200, -25200, 0, "MST", Ghost(g))
        .step(576061200, -25200, 3600, "MDT", Ghost(g))
        .step(594201600, -25200, 0, "MST", Ghost(g))
        .step(607510800, -25200, 3600, "MDT", Ghost(g))
        .step(625651200, -25200, 0, "MST", Ghost(g))
        .step(638960400, -25200, 3600, "MDT", Ghost(g))
        .step(657100800, -25200, 0, "MST", Ghost(g))
        .step(671014800, -25200, 3600, "MDT", Ghost(g))
        .step(688550400, -25200, 0, "MST", Ghost(g))
        .step(702464400, -25200, 3600, "MDT", Ghost(g))
        .step(720000000, -25200, 0, "MST", Ghost(g))
        .step(733914000, -25200, 3600, "MDT", Ghost(g))
        .step(752054400, -25200, 0, "MST", Ghost(g))
        .step(765363600, -25200, 3600, "MDT", Ghost(g))
        .step(783504000, -25200, 0, "MST", Ghost(g))
        .step(796813200, -25200, 3600, "MDT", Ghost(g))
        .step(814953600, -25200, 0, "MST", Ghost(g))
        .step(828867600, -25200, 3600, "MDT", Ghost(g))
        .step(846403200, -25200, 0, "MST", Ghost(g))
        .step(860317200, -25200, 3600, "MDT", Ghost(g))
        .step(877852800, -25200, 0, "MST", Ghost(g))
        .step(891766800, -25200, 3600, "MDT", Ghost(g))
        .step(909302400, -25200, 0, "MST", Ghost(g))
        .step(923216400, -25200, 3600, "MDT", Ghost(g))
        .step(941356800, -21600, 0, "CST", Ghost(g))
        .step(954662400, -21600, 3600, "CDT", Ghost(g))
        .step(972802800, -18000, 0, "EST", Ghost(g))
        .step(973400400, -21600, 0, "CST", Ghost(g))
        .step(986115600, -25200, 3600, "MDT", Ghost(g))
        .step(1004256000, -25200, 0, "MST", Ghost(g))
        .step(1018170000, -25200, 3600, "MDT", Ghost(g))
        .step(1035705600, -25200, 0, "MST", Ghost(g))
        .step(1049619600, -25200, 3600, "MDT", Ghost(g))
        .step(1067155200, -25200, 0, "MST", Ghost(g))
        .step(1081069200, -25200, 3600, "MDT", Ghost(g))
        .step(1099209600, -25200, 0, "MST", Ghost(g))
        .step(1112518800, -25200, 3600, "MDT", Ghost(g))
        .step(1130659200, -25200, 0, "MST", Ghost(g))
        .step(1143968400, -25200, 3600, "MDT", Ghost(g))
        .step(1162108800, -25200, 0, "MST", Ghost(g))
        .step(1173603600, -25200, 3600, "MDT", Ghost(g))
        .step(1194163200, -25200, 0, "MST", Ghost(g))
        .step(1205053200, -25200, 3600, "MDT", Ghost(g))
        .step(1225612800, -25200, 0, "MST", Ghost(g))
        .step(1236502800, -25200, 3600, "MDT", Ghost(g))
        .step(1257062400, -25200, 0, "MST", Ghost(g))
        .step(1268557200, -25200, 3600, "MDT", Ghost(g))
        .step(1289116800, -25200, 0, "MST", Ghost(g))
        .step(1300006800, -25200, 3600, "MDT", Ghost(g))
        .step(1320566400, -25200, 0, "MST", Ghost(g))
        .step(1331456400, -25200, 3600, "MDT", Ghost(g))
        .step(1352016000, -25200, 0, "MST", Ghost(g))
        .step(1362906000, -25200, 3600, "MDT", Ghost(g))
        .step(1383465600, -25200, 0, "MST", Ghost(g))
        .step(1394355600, -25200, 3600, "MDT", Ghost(g))
        .step(1414915200, -25200, 0, "MST", Ghost(g))
        .step(1425805200, -25200, 3600, "MDT", Ghost(g))
        .step(1446364800, -25200, 0, "MST", Ghost(g))
        .step(1457859600, -25200, 3600, "MDT", Ghost(g))
        .step(1478419200, -25200, 0, "MST", Ghost(g))
        .step(1489309200, -25200, 3600, "MDT", Ghost(g))
        .step(1509868800, -25200, 0, "MST", Ghost(g))
        .step(1520758800, -25200, 3600, "MDT", Ghost(g))
        .step(1541318400, -25200, 0, "MST", Ghost(g))
        .step(1552208400, -25200, 3600, "MDT", Ghost(g))
        .step(1572768000, -25200, 0, "MST", Ghost(g))
        .step(1583658000, -25200, 3600, "MDT", Ghost(g))
        .step(1604217600, -25200, 0, "MST", Ghost(g))
        .step(1615712400, -25200, 3600, "MDT", Ghost(g))
        .step(1636272000, -25200, 0, "MST", Ghost(g))
        .step(1647162000, -25200, 3600, "MDT", Ghost(g))
        .step(1667721600, -25200, 0, "MST", Ghost(g))
        .step(1678611600, -25200, 3600, "MDT", Ghost(g))
        .step(1699171200, -25200, 0, "MST", Ghost(g))
        .step(1710061200, -25200, 3600, "MDT", Ghost(g))
        .step(1730620800, -25200, 0, "MST", Ghost(g))
        .step(1741510800, -25200, 3600, "MDT", Ghost(g))
        .step(1762070400, -25200, 0, "MST", Ghost(g))
        .step(1772960400, -25200, 3600, "MDT", Ghost(g))
        .step(1793520000, -25200, 0, "MST", Ghost(g))
        .step(1805014800, -25200, 3600, "MDT", Ghost(g))
        .step(1825574400, -25200, 0, "MST", Ghost(g))
        .step(1836464400, -25200, 3600, "MDT", Ghost(g))
        .step(1857024000, -25200, 0, "MST", Ghost(g))
        .step(1867914000, -25200, 3600, "MDT", Ghost(g))
        .step(1888473600, -25200, 0, "MST", Ghost(g))
        .step(1899363600, -25200, 3600, "MDT", Ghost(g))
        .step(1919923200, -25200, 0, "MST", Ghost(g))
        .step(1930813200, -25200, 3600, "MDT", Ghost(g))
        .step(1951372800, -25200, 0, "MST", Ghost(g))
        .step(1962867600, -25200, 3600, "MDT", Ghost(g))
        .step(1983427200, -25200, 0, "MST", Ghost(g))
        .step(1994317200, -25200, 3600, "MDT", Ghost(g))
        .step(2014876800, -25200, 0, "MST", Ghost(g))
        .step(2025766800, -25200, 3600, "MDT", Ghost(g))
        .step(2046326400, -25200, 0, "MST", Ghost(g))
        .step(2057216400, -25200, 3600, "MDT", Ghost(g))
        .step(2077776000, -25200, 0, "MST", Ghost(g))
        .step(2088666000, -25200, 3600, "MDT", Ghost(g))
        .step(2109225600, -25200, 0, "MST", Ghost(g))
        .step(2120115600, -25200, 3600, "MDT", Ghost(g))
        .step(2140675200, -25200, 0, "MST", Ghost(g))
        .finish(Ghost(g))
}

/// The zone `America/Campo_Grande`.
pub fn campo_grande() -> (r: Tz)
    ensures
        r.wf(),
        r.zone_name() == "America/Campo_Grande"@,
        r.table() == tables::america::campo_grande(),
{
    let ghost g = tables::america::campo_grande_rows();
    FixedTimespanSet::begin("America/Campo_Grande", -13108, 0, "LMT", Ghost(g))
        .step(-1767212492, -14400, 0, "-04", Ghost(g))
        .step(-1206954000, -14400, 3600, "-03", Ghost(g))
        .step(-1191358800, -14400, 0, "-04", Ghost(g))
        .step(-1175371200, -14400, 3600, "-03", Ghost(g))
        .step(-1159822800, -14400, 0, "-04", Ghost(g))
        .step(-633816000, -14400, 3600, "-03", Ghost(g))
        .step(-622065600, -14400, 0, "-04", Ghost(g))
        .step(-602280000, -14400, 3600, "-03", Ghost(g))
        .step(-591829200, -14400, 0, "-04", Ghost(g))
        .step(-570744000, -14400, 3600, "-03", Ghost(g))
        .step(-560206800, -14400, 0, "-04", Ghost(g))
        .step(-539121600, -14400, 3600, "-03", Ghost(g))
        .step(-531349200, -14400, 0, "-04", Ghost(g))
        .step(-191361600, -14400, 3600, "-03", Ghost(g))
        .step(-184194000, -14400, 0, "-04", Ghost(g))
        .step(-155160000, -14400, 3600, "-03", Ghost(g))
        .step(-150066000, -14400, 0, "-04", Ghost(g))
        .step(-128894400, -14400, 3600, "-03", Ghost(g))
        .step(-121122000, -14400, 0, "-04", Ghost(g))
        .step(-99950400, -14400, 3600, "-03", Ghost(g))
        .step(-89586000, -14400, 0, "-04", Ghost(g))
        .step(-68414400, -14400, 3600, "-03", Ghost(g))
        .step(-57963600, -14400, 0, "-04", Ghost(g))
        .step(499752000, -14400, 3600, "-03", Ghost(g))
        .step(511239600, -14400, 0, "-04", Ghost(g))
        .step(530596800, -14400, 3600, "-03", Ghost(g))
        .step(540270000, -14400, 0, "-04", Ghost(g))
        .step(562132800, -14400, 3600, "-03", Ghost(g))
        .step(571201200, -14400, 0, "-04", Ghost(g))
        .step(592977600, -14400, 3600, "-03", Ghost(g))
        .step(602046000, -14400, 0, "-04", Ghost(g))
        .step(624427200, -14400, 3600, "-03", Ghost(g))
        .step(634705200, -14400, 0, "-04", Ghost(g))
        .step(656481600, -14400, 3600, "-03", Ghost(g))
        .step(666759600, -14400, 0, "-04", Ghost(g))
        .step(687931200, -14400, 3600, "-03", Ghost(g))
        .step(697604400, -14400, 0, "-04", Ghost(g))
        .step(719985600, -14400, 3600, "-03", Ghost(g))
        .step(728449200, -14400, 0, "-04", Ghost(g))
        .step(750830400, -14400, 3600, "-03", Ghost(g))
        .step(761713200, -14400, 0, "-04", Ghost(g))
        .step(782280000, -14400, 3600, "-03", Ghost(g))
        .step(793162800, -14400, 0, "-04", Ghost(g))
        .step(813729600, -14400, 3600, "-03", Ghost(g))
        .step(824007600, -14400, 0, "-04", Ghost(g))
        .step(844574400, -14400, 3600, "-03", Ghost(g))
        .step(856062000, -14400, 0, "-04", Ghost(g))
        .step(876110400, -14400, 3600, "-03", Ghost(g))
        .step(888721200, -14400, 0, "-04", Ghost(g))
        .step(908078400, -14400, 3600, "-03", Ghost(g))
        .step(919566000, -14400, 0, "-04", Ghost(g))
        .step(938923200, -14400, 3600, "-03", Ghost(g))
        .step(951620400, -14400, 0, "-04", Ghost(g))
        .step(970977600, -14400, 3600, "-03", Ghost(g))
        .step(982465200, -14400, 0, "-04", Ghost(g))
        .step(1003032000, -14400, 3600, "-03", Ghost(g))
        .step(1013914800, -14400, 0, "-04", Ghost(g))
        .step(1036296000, -14400, 3600, "-03", Ghost(g))
        .step(1045364400, -14400, 0, "-04", Ghost(g))
        .step(1066536000, -14400, 3600, "-03", Ghost(g))
        .step(1076814000, -14400, 0, "-04", Ghost(g))
        .step(1099368000, -14400, 3600, "-03", Ghost(g))
        .step(1108868400, -14400, 0, "-04", Ghost(g))
        .step(1129435200, -14400, 3600, "-03", Ghost(g))
        .step(1140318000, -14400, 0, "-04", Ghost(g))
        .step(1162699200, -14400, 3600, "-03", Ghost(g))
        .step(1172372400, -14400, 0, "-04", Ghost(g))
        .step(1192334400, -14400, 3600, "-03", Ghost(g))
        .step(1203217200, -14400, 0, "-04", Ghost(g))
        .step(1224388800, -14400, 3600, "-03", Ghost(g))
        .step(1234666800, -14400, 0, "-04", Ghost(g))
        .step(1255838400, -14400, 3600, "-03", Ghost(g))
        .step(1266721200, -14400, 0, "-04", Ghost(g))
        .step(1287288000, -14400, 3600, "-03", Ghost(g))
        .step(1298170800, -14400, 0, "-04", Ghost(g))
        .step(1318737600, -14400, 3600, "-03", Ghost(g))
        .step(1330225200, -14400, 0, "-04", Ghost(g))
        .step(1350792000, -14400, 3600, "-03", Ghost(g))
        .step(1361070000, -14400, 0, "-04", Ghost(g))
        .step(1382241600, -14400, 3600, "-03", Ghost(g))
        .step(1392519600, -14400, 0, "-04", Ghost(g))
        .step(1413691200, -14400, 3600, "-03", Ghost(g))
        .step(1424574000, -14400, 0, "-04", Ghost(g))
        .step(1445140800, -14400, 3600, "-03", Ghost(g))
        .step(1456023600, -14400, 0, "-04", Ghost(g))
        .step(1476590400, -14400, 3600, "-03", Ghost(g))
        .step(1487473200, -14400, 0, "-04", Ghost(g))
        .step(1508040000, -14400, 3600, "-03", Ghost(g))
        .step(1518922800, -14400, 0, "-04", Ghost(g))
        .step(1541304000, -14400, 3600, "-03", Ghost(g))
        .step(1550372400, -14400, 0, "-04", Ghost(g))
        .step(2147483647, -14400, 0, "-04", Ghost(g))
        .finish(Ghost(g))
}

/// The zone `America/Cancun`.
pub fn cancun() -> (r: Tz)
    ensures
        r.wf(),
        r.zone_name() == "America/Cancun"@,
        r.table() == tables::america::cancun(),
{
    let ghost g = tables::america::cancun_rows();
    FixedTimespanSet::begin("America/Cancun", -20824, 0, "LMT", Ghost(g))
        .step(-1514743200, -21600, 0, "CST", Ghost(g))
        .step(378201600, -18000, 0, "EST", Ghost(g))
        .step(410504400, -21600, 0, "CST", Ghost(g))
        .step(828864000, -21600, 3600, "CDT", Ghost(g))
        .step(846399600, -21600, 0, "CST", Ghost(g))
        .step(860313600, -21600, 3600, "CDT", Ghost(g))
        .step(877849200, -18000, 0, "EST", Ghost(g))
        .step(891759600, -18000, 3600, "EDT", Ghost(g))
        .step(902037600, -21600, 3600, "CDT", Ghost(g))
        .step(909298800, -21600, 0, "CST", Ghost(g))
        .step(923212800, -21600, 3600, "CDT", Ghost(g))
        .step(941353200, -21600, 0, "CST", Ghost(g))
        .step(954662400, -21600, 3600, "CDT", Ghost(g))
        .step(972802800, -21600, 0, "CST", Ghost(g))
        .step(989136000, -21600, 3600, "CDT", Ghost(g))
        .step(1001833200, -21600, 0, "CST", Ghost(g))
        .step(1018166400, -21600, 3600, "CDT", Ghost(g))
        .step(1035702000, -21600, 0, "CST", Ghost(g))
        .step(1049616000, -21600, 3600, "CDT", Ghost(g))
        .step(1067151600, -21600, 0, "CST", Ghost(g))
        .step(1081065600, -21600, 3600, "CDT", Ghost(g))
        .step(1099206000, -21600, 0, "CST", Ghost(g))
        .step(1112515200, -21600, 3600, "CDT", Ghost(g))
        .step(1130655600, -21600, 0, "CST", Ghost(g))
        .step(1143964800, -21600, 3600, "CDT", Ghost(g))
        .step(1162105200, -21600, 0, "CST", Ghost(g))
        .step(1175414400, -21600, 3600, "CDT", Ghost(g))
        .step(1193554800, -21600, 0, "CST", Ghost(g))
        .step(1207468800, -21600, 3600, "CDT", Ghost(g))
        .step(1225004400, -21600, 0, "CST", Ghost(g))
        .step(1238918400, -21600, 3600, "CDT", Ghost(g))
        .step(1256454000, -21600, 0, "CST", Ghost(g))
        .step(1270368000, -21600, 3600, "CDT", Ghost(g))
        .step(1288508400, -21600, 0, "CST", Ghost(g))
        .step(1301817600, -21600, 3600, "CDT", Ghost(g))
        .step(1319958000, -21600, 0, "CST", Ghost(g))
        .step(1333267200, -21600, 3600, "CDT", Ghost(g))
        .step(1351407600, -21600, 0, "CST", Ghost(g))
        .step(1365321600, -21600, 3600, "CDT", Ghost(g))
        .step(1382857200, -21600, 0, "CST", Ghost(g))
        .step(1396771200, -21600, 3600, "CDT", Ghost(g))
        .step(1414306800, -21600, 0, "CST", Ghost(g))
        .step(1422777600, -18000, 0, "EST", Ghost(g))
        .finish(Ghost(g))
}

/// The zone `America/Caracas`.
pub fn caracas() -> (r: Tz)
    ensures
        r.wf(),
        r.zone_name() == "America/Caracas"@,
        r.table() == tables::america::caracas(),
{
    let ghost g = tables::america::caracas_rows();
    FixedTimespanSet::begin("America/Caracas", -16064, 0, "LMT", Ghost(g))
        .step(-2524505536, -16060, 0, "CMT", Ghost(g))
        .step(-1826739140, -16200, 0, "-0430", Ghost(g))
        .step(-157750200, -14400, 0, "-04", Ghost(g))
        .step(1197183600, -16200, 0, "-0430", Ghost(g))
        .step(1462086000, -14400, 0, "-04", Ghost(g))
        .step(2147483647, -14400, 0, "-04", Ghost(g))
        .finish(Ghost(g))
}

/// The zone `America/Catamarca`.
pub fn catamarca() -> (r: Tz)
    ensures
        r.wf(),
        r.zone_name() == "America/Catamarca"@,
        r.table() == tables::america::catamarca(),
{
    let ghost g = tables::america::catamarca_rows();
    FixedTimespanSet::begin("America/Catamarca", -15788, 0, "LMT", Ghost(g))
        .step(-2372096212, -15408, 0, "CMT", Ghost(g))
        .step(-1567453392, -14400, 0, "-04", Ghost(g))
        .step(-1233432000, -14400, 3600, "-03", Ghost(g))
        .step(-1222981200, -14400, 0, "-04", Ghost(g))
        .step(-1205956800, -14400, 3600, "-03", Ghost(g))
        .step(-1194037200, -14400, 0, "-04", Ghost(g))
        .step(-1172865600, -14400, 3600, "-03", Ghost(g))
        .step(-1162501200, -14400, 0, "-04", Ghost(g))
        .step(-1141329600, -14400, 3600, "-03", Ghost(g))
        .step(-1130965200, -14400, 0, "-04", Ghost(g))
        .step(-1109793600, -14400, 3600, "-03", Ghost(g))
        .step(-1099429200, -14400, 0, "-04", Ghost(g))
        .step(-1078257600, -14400, 3600, "-03", Ghost(g))
        .step(-1067806800, -14400, 0, "-04", Ghost(g))
        .step(-1046635200, -14400, 3600, "-03", Ghost(g))
        .step(-1036270800, -14400, 0, "-04", Ghost(g))
        .step(-1015099200, -14400, 3600, "-03", Ghost(g))
        .step(-1004734800, -14400, 0, "-04", Ghost(g))
        .step(-983563200, -14400, 3600, "-03", Ghost(g))
        .step(-973198800, -14400, 0, "-04", Ghost(g))
        .step(-952027200, -14400, 3600, "-03", Ghost(g))
        .step(-941576400, -14400, 0, "-04", Ghost(g))
        .step(-931032000, -14400, 3600, "-03", Ghost(g))
        .step(-900882000, -14400, 0, "-04", Ghost(g))
        .step(-890337600, -14400, 3600, "-03", Ghost(g))
        .step(-833749200, -14400, 0, "-04", Ghost(g))
        .step(-827265600, -14400, 3600, "-03", Ghost(g))
        .step(-752274000, -14400, 0, "-04", Ghost(g))
        .step(-733780800, -14400, 3600, "-03", Ghost(g))
        .step(-197326800, -14400, 0, "-04", Ghost(g))
        .step(-190843200, -14400, 3600, "-03", Ghost(g))
        .step(-184194000, -14400, 0, "-04", Ghost(g))
        .step(-164491200, -14400, 3600, "-03", Ghost(g))
        .step(-152658000, -14400, 0, "-04", Ghost(g))
        .step(-132955200, -14400, 3600, "-03", Ghost(g))
        .step(-121122000, -14400, 0, "-04", Ghost(g))
        .step(-101419200, -14400, 3600, "-03", Ghost(g))
        .step(-86821200, -14400, 0, "-04", Ghost(g))
        .step(-71092800, -14400, 3600, "-03", Ghost(g))
        .step(-54766800, -14400, 0, "-04", Ghost(g))
        .step(-39038400, -14400, 3600, "-03", Ghost(g))
        .step(-23317200, -14400, 0, "-04", Ghost(g))
        .step(-7588800, -10800, 0, "-03", Ghost(g))
        .step(128142000, -10800, 3600, "-02", Ghost(g))
        .step(136605600, -10800, 0, "-03", Ghost(g))
        .step(596948400, -10800, 3600, "-02", Ghost(g))
        .step(605066400, -10800, 0, "-03", Ghost(g))
        .step(624423600, -10800, 3600, "-02", Ghost(g))
        .step(636516000, -10800, 0, "-03", Ghost(g))
        .step(656478000, -10800, 3600, "-02", Ghost(g))
        .step(667965600, -14400, 0, "-04", Ghost(g))
        .step(687931200, -14400, 7200, "-02", Ghost(g))
        .step(699415200, -10800, 0, "-03", Ghost(g))
        .step(719377200, -10800, 3600, "-02", Ghost(g))
        .step(731469600, -10800, 0, "-03", Ghost(g))
        .step(938919600, -14400, 3600, "-03", Ghost(g))
        .step(952052400, -10800, 0, "-03", Ghost(g))
        .step(1086058800, -14400, 0, "-04", Ghost(g))
        .step(1087704000, -10800, 0, "-03", Ghost(g))
        .step(1198983600, -10800, 3600, "-02", Ghost(g))
        .step(1205632800, -10800, 0, "-03", Ghost(g))
        .step(2147483647, -10800, 0, "-03", Ghost(g))
        .finish(Ghost(g))
}

/// The zone `America/Cayenne`.
pub fn cayenne() -> (r: Tz)
    ensures
        r.wf(),
        r.zone_name() == "America/Cayenne"@,
        r.table() == tables::america::cayenne(),
{
    let ghost g = tables::america::cayenne_rows();
    FixedTimespanSet::begin("America/Cayenne", -12560, 0, "LMT", Ghost(g))
        .step(-1846269040, -14400, 0, "-04", Ghost(g))
        .step(-71092800, -10800, 0, "-03", Ghost(g))
        .step(2147483647, -10800, 0, "-03", Ghost(g))
        .finish(Ghost(g))
}

/// The zone `America/Cayman`.
pub fn cayman() -> (r: Tz)
    ensures
        r.wf(),
        r.zone_name() == "America/Cayman"@,
        r.table() == tables::america::cayman(),
{
    let ghost g = tables::america::cayman_rows();
    FixedTimespanSet::begin("America/Cayman", -19532, 0, "LMT", Ghost(g))
        .step(-2524502068, -18430, 0, "KMT", Ghost(g))
        .step(-1827687170, -18000, 0, "EST", Ghost(g))
        .finish(Ghost(g))
}

/// The zone `America/Chicago`.
pub fn chicago() -> (r: Tz)
    ensures
        r.wf(),
        r.zone_name() == "America/Chicago"@,
        r.table() == tables::america::chicago(),
{
    let ghost g = tables::america::chicago_rows();
    FixedTimespanSet::begin("America/Chicago", -21036, 0, "LMT", Ghost(g))
        .step(-2717647200, -21600, 0, "CST", Ghost(g))
        .step(-1633276800, -21600, 3600, "CDT", Ghost(g))
        .step(-1615136400, -21600, 0, "CST", Ghost(g))
        .step(-1601827200, -21600, 3600, "CDT", Ghost(g))
        .step(-1583686800, -21600, 0, "CST", Ghost(g))
        .step(-1563724800, -21600, 3600, "CDT", Ghost(g))
        .step(-1551632400, -21600, 0, "CST", Ghost(g))
        .step(-1538928000, -21600, 3600, "CDT", Ghost(g))
        .step(-1520182800, -21600, 0, "CST", Ghost(g))
        .step(-1504454400, -21600, 3600, "CDT", Ghost(g))
        .step(-1491757200, -21600, 0, "CST", Ghost(g))
        .step(-1473004800, -21600, 3600, "CDT", Ghost(g))
        .step(-1459702800, -21600, 0, "CST", Ghost(g))
        .step(-1441555200, -21600, 3600, "CDT", Ghost(g))
        .step(-1428253200, -21600, 0, "CST", Ghost(g))
        .step(-1410105600, -21600, 3600, "CDT", Ghost(g))
        .step(-1396803600, -21600, 0, "CST", Ghost(g))
        .step(-1378656000, -21600, 3600, "CDT", Ghost(g))
        .step(-1365354000, -21600, 0, "CST", Ghost(g))
        .step(-1347206400, -21600, 3600, "CDT", Ghost(g))
        .step(-1333904400, -21600, 0, "CST", Ghost(g))
        .step(-1315152000, -21600, 3600, "CDT", Ghost(g))
        .step(-1301850000, -21600, 0, "CST", Ghost(g))
        .step(-1283702400, -21600, 3600, "CDT", Ghost(g))
        .step(-1270400400, -21600, 0, "CST", Ghost(g))
        .step(-1252252800, -21600, 3600, "CDT", Ghost(g))
        .step(-1238950800, -21600, 0, "CST", Ghost(g))
        .step(-1220803200, -21600, 3600, "CDT", Ghost(g))
        .step(-1207501200, -21600, 0, "CST", Ghost(g))
        .step(-1189353600, -21600, 3600, "CDT", Ghost(g))
        .step(-1176051600, -21600, 0, "CST", Ghost(g))
        .step(-1157299200, -21600, 3600, "CDT", Ghost(g))
        .step(-1144602000, -21600, 0, "CST", Ghost(g))
        .step(-1125849600, -21600, 3600, "CDT", Ghost(g))
        .step(-1112547600, -21600, 0, "CST", Ghost(g))
        .step(-1094400000, -21600, 3600, "CDT", Ghost(g))
        .step(-1081098000, -21600, 0, "CST", Ghost(g))
        .step(-1067788800, -18000, 0, "EST", Ghost(g))
        .step(-1045414800, -21600, 0, "CST", Ghost(g))
        .step(-1031500800, -21600, 3600, "CDT", Ghost(g))
        .step(-1018198800, -21600, 0, "CST", Ghost(g))
        .step(-1000051200, -21600, 3600, "CDT", Ghost(g))
        .step(-986749200, -21600, 0, "CST", Ghost(g))
        .step(-967996800, -21600, 3600, "CDT", Ghost(g))
        .step(-955299600, -21600, 0, "CST", Ghost(g))
        .step(-936547200, -21600, 3600, "CDT", Ghost(g))
        .step(-923245200, -21600, 0, "CST", Ghost(g))
        .step(-905097600, -21600, 3600, "CDT", Ghost(g))
        .step(-891795600, -21600, 0, "CST", Ghost(g))
        .step(-880214400, -21600, 3600, "CWT", Ghost(g))
        .step(-769395600, -21600, 3600, "CPT", Ghost(g))
        .step(-765392400, -21600, 0, "CST", Ghost(g))
        .step(-747244800, -21600, 3600, "CDT", Ghost(g))
        .step(-733942800, -21600, 0, "CST", Ghost(g))
        .step(-715795200, -21600, 3600, "CDT", Ghost(g))
        .step(-702493200, -21600, 0, "CST", Ghost(g))
        .step(-684345600, -21600, 3600, "CDT", Ghost(g))
        .step(-671043600, -21600, 0, "CST", Ghost(g))
        .step(-652896000, -21600, 3600, "CDT", Ghost(g))
        .step(-639594000, -21600, 0, "CST", Ghost(g))
        .step(-620841600, -21600, 3600, "CDT", Ghost(g))
        .step(-608144400, -21600, 0, "CST", Ghost(g))
        .step(-589392000, -21600, 3600, "CDT", Ghost(g))
        .step(-576090000, -21600, 0, "CST", Ghost(g))
        .step(-557942400, -21600, 3600, "CDT", Ghost(g))
        .step(-544640400, -21600, 0, "CST", Ghost(g))
        .step(-526492800, -21600, 3600, "CDT", Ghost(g))
        .step(-513190800, -21600, 0, "CST", Ghost(g))
        .step(-495043200, -21600, 3600, "CDT", Ghost(g))
        .step(-481741200, -21600, 0, "CST", Ghost(g))
        .step(-463593600, -21600, 3600, "CDT", Ghost(g))
        .step(-447267600, -21600, 0, "CST", Ghost(g))
        .step(-431539200, -21600, 3600, "CDT", Ghost(g))
        .step(-415818000, -21600, 0, "CST", Ghost(g))
        .step(-400089600, -21600, 3600, "CDT", Ghost(g))
        .step(-384368400, -21600, 0, "CST", Ghost(g))
        .step(-368640000, -21600, 3600, "CDT", Ghost(g))
        .step(-352918800, -21600, 0, "CST", Ghost(g))
        .step(-337190400, -21600, 3600, "CDT", Ghost(g))
        .step(-321469200, -21600, 0, "CST", Ghost(g))
        .step(-305740800, -21600, 3600, "CDT", Ghost(g))
        .step(-289414800, -21600, 0, "CST", Ghost(g))
        .step(-273686400, -21600, 3600, "CDT", Ghost(g))
        .step(-257965200, -21600, 0, "CST", Ghost(g))
        .step(-242236800, -21600, 3600, "CDT", Ghost(g))
        .step(-226515600, -21600, 0, "CST", Ghost(g))
        .step(-210787200, -21600, 3600, "CDT", Ghost(g))
        .step(-195066000, -21600, 0, "CST", Ghost(g))
        .step(-179337600, -21600, 3600, "CDT", Ghost(g))
        .step(-163616400, -21600, 0, "CST", Ghost(g))
        .step(-147888000, -21600, 3600, "CDT", Ghost(g))
        .step(-131562000, -21600, 0, "CST", Ghost(g))
        .step(-116438400, -21600, 3600, "CDT", Ghost(g))
        .step(-100112400, -21600, 0, "CST", Ghost(g))
        .step(-84384000, -21600, 3600, "CDT", Ghost(g))
        .step(-68662800, -21600, 0, "CST", Ghost(g))
        .step(-52934400, -21600, 3600, "CDT", Ghost(g))
        .step(-37213200, -21600, 0, "CST", Ghost(g))
        .step(-21484800, -21600, 3600, "CDT", Ghost(g))
        .step(-5763600, -21600, 0, "CST", Ghost(g))
        .step(9964800, -21600, 3600, "CDT", Ghost(g))
        .step(25686000, -21600, 0, "CST", Ghost(g))
        .step(41414400, -21600, 3600, "CDT", Ghost(g))
        .step(57740400, -21600, 0, "CST", Ghost(g))
        .step(73468800, -21600, 3600, "CDT", Ghost(g))
        .step(89190000, -21600, 0, "CST", Ghost(g))
        .step(104918400, -21600, 3600, "CDT", Ghost(g))
        .step(120639600, -21600, 0, "CST", Ghost(g))
        .step(126691200, -21600, 3600, "CDT", Ghost(g))
        .step(152089200, -21600, 0, "CST", Ghost(g))
        .step(162374400, -21600, 3600, "CDT", Ghost(g))
        .step(183538800, -21600, 0, "CST", Ghost(g))
        .step(199267200, -21600, 3600, "CDT", Ghost(g))
        .step(215593200, -21600, 0, "CST", Ghost(g))
        .step(230716800, -21600, 3600, "CDT", Ghost(g))
        .step(247042800, -21600, 0, "CST", Ghost(g))
        .step(262771200, -21600, 3600, "CDT", Ghost(g))
        .step(278492400, -21600, 0, "CST", Ghost(g))
        .step(294220800, -21600, 3600, "CDT", Ghost(g))
        .step(309942000, -21600, 0, "CST", Ghost(g))
        .step(325670400, -21600, 3600, "CDT", Ghost(g))
        .step(341391600, -21600, 0, "CST", Ghost(g))
        .step(357120000, -21600, 3600, "CDT", Ghost(g))
        .step(372841200, -21600, 0, "CST", Ghost(g))
        .step(388569600, -21600, 3600, "CDT", Ghost(g))
        .step(404895600, -21600, 0, "CST", Ghost(g))
        .step(420019200, -21600, 3600, "CDT", Ghost(g))
        .step(436345200, -21600, 0, "CST", Ghost(g))
        .step(452073600, -21600, 3600, "CDT", Ghost(g))
        .step(467794800, -21600, 0, "CST", Ghost(g))
        .step(483523200, -21600, 3600, "CDT", Ghost(g))
        .step(499244400, -21600, 0, "CST", Ghost(g))
        .step(514972800, -21600, 3600, "CDT", Ghost(g))
        .step(530694000, -21600, 0, "CST", Ghost(g))
        .step(544608000, -21600, 3600, "CDT", Ghost(g))
        .step(562143600, -21600, 0, "CST", Ghost(g))
        .step(576057600, -21600, 3600, "CDT", Ghost(g))
        .step(594198000, -21600, 0, "CST", Ghost(g))
        .step(607507200, -21600, 3600, "CDT", Ghost(g))
        .step(625647600, -21600, 0, "CST", Ghost(g))
        .step(638956800, -21600, 3600, "CDT", Ghost(g))
        .step(657097200, -21600, 0, "CST", Ghost(g))
        .step(671011200, -21600, 3600, "CDT", Ghost(g))
        .step(688546800, -21600, 0, "CST", Ghost(g))
        .step(702460800, -21600, 3600, "CDT", Ghost(g))
        .step(719996400, -21600, 0, "CST", Ghost(g))
        .step(733910400, -21600, 3600, "CDT", Ghost(g))
        .step(752050800, -21600, 0, "CST", Ghost(g))
        .step(765360000, -21600, 3600, "CDT", Ghost(g))
        .step(783500400, -21600, 0, "CST", Ghost(g))
        .step(796809600, -21600, 3600, "CDT", Ghost(g))
        .step(814950000, -21600, 0, "CST", Ghost(g))
        .step(828864000, -21600, 3600, "CDT", Ghost(g))
        .step(846399600, -21600, 0, "CST", Ghost(g))
        .step(860313600, -21600, 3600, "CDT", Ghost(g))
        .step(877849200, -21600, 0, "CST", Ghost(g))
        .step(891763200, -21600, 3600, "CDT", Ghost(g))
        .step(909298800, -21600, 0, "CST", Ghost(g))
        .step(923212800, -21600, 3600, "CDT", Ghost(g))
        .step(941353200, -21600, 0, "CST", Ghost(g))
        .step(954662400, -21600, 3600, "CDT", Ghost(g))
        .step(972802800, -21600, 0, "CST", Ghost(g))
        .step(986112000, -21600, 3600, "CDT", Ghost(g))
        .step(1004252400, -21600, 0, "CST", Ghost(g))
        .step(1018166400, -21600, 3600, "CDT", Ghost(g))
        .step(1035702000, -21600, 0, "CST", Ghost(g))
        .step(1049616000, -21600, 3600, "CDT", Ghost(g))
        .step(1067151600, -21600, 0, "CST", Ghost(g))
        .step(1081065600, -21600, 3600, "CDT", Ghost(g))
        .step(1099206000, -21600, 0, "CST", Ghost(g))
        .step(1112515200, -21600, 3600, "CDT", Ghost(g))
        .step(1130655600, -21600, 0, "CST", Ghost(g))
        .step(1143964800, -21600, 3600, "CDT", Ghost(g))
        .step(1162105200, -21600, 0, "CST", Ghost(g))
        .step(1173600000, -21600, 3600, "CDT", Ghost(g))
        .step(1194159600, -21600, 0, "CST", Ghost(g))
        .step(1205049600, -21600, 3600, "CDT", Ghost(g))
        .step(1225609200, -21600, 0, "CST", Ghost(g))
        .step(1236499200, -21600, 3600, "CDT", Ghost(g))
        .step(1257058800, -21600, 0, "CST", Ghost(g))
        .step(1268553600, -21600, 3600, "CDT", Ghost(g))
        .step(1289113200, -21600, 0, "CST", Ghost(g))
        .step(1300003200, -21600, 3600, "CDT", Ghost(g))
        .step(1320562800, -21600, 0, "CST", Ghost(g))
        .step(1331452800, -21600, 3600, "CDT", Ghost(g))
        .step(1352012400, -21600, 0, "CST", Ghost(g))
        .step(1362902400, -21600, 3600, "CDT", Ghost(g))
        .step(1383462000, -21600, 0, "CST", Ghost(g))
        .step(1394352000, -21600, 3600, "CDT", Ghost(g))
        .step(1414911600, -21600, 0, "CST", Ghost(g))
        .step(1425801600, -21600, 3600, "CDT", Ghost(g))
        .step(1446361200, -21600, 0, "CST", Ghost(g))
        .step(1457856000, -21600, 3600, "CDT", Ghost(g))
        .step(1478415600, -21600, 0, "CST", Ghost(g))
        .step(1489305600, -21600, 3600, "CDT", Ghost(g))
        .step(1509865200, -21600, 0, "CST", Ghost(g))
        .step(1520755200, -21600, 3600, "CDT", Ghost(g))
        .step(1541314800, -21600, 0, "CST", Ghost(g))
        .step(1552204800, -21600, 3600, "CDT", Ghost(g))
        .step(1572764400, -21600, 0, "CST", Ghost(g))
        .step(1583654400, -21600, 3600, "CDT", Ghost(g))
        .step(1604214000, -21600, 0, "CST", Ghost(g))
        .step(1615708800, -21600, 3600, "CDT", Ghost(g))
        .step(1636268400, -21600, 0, "CST", Ghost(g))
        .step(1647158400, -21600, 3600, "CDT", Ghost(g))
        .step(1667718000, -21600, 0, "CST", Ghost(g))
        .step(1678608000, -21600, 3600, "CDT", Ghost(g))
        .step(1699167600, -21600, 0, "CST", Ghost(g))
        .step(1710057600, -21600, 3600, "CDT", Ghost(g))
        .step(1730617200, -21600, 0, "CST", Ghost(g))
        .step(1741507200, -21600, 3600, "CDT", Ghost(g))
        .step(1762066800, -21600, 0, "CST", Ghost(g))
        .step(1772956800, -21600, 3600, "CDT", Ghost(g))
        .step(1793516400, -21600, 0, "CST", Ghost(g))
        .step(1805011200, -21600, 3600, "CDT", Ghost(g))
        .step(1825570800, -21600, 0, "CST", Ghost(g))
        .step(1836460800, -21600, 3600, "CDT", Ghost(g))
        .step(1857020400, -21600, 0, "CST", Ghost(g))
        .step(1867910400, -21600, 3600, "CDT", Ghost(g))
        .step(1888470000, -21600, 0, "CST", Ghost(g))
        .step(1899360000, -21600, 3600, "CDT", Ghost(g))
        .step(1919919600, -21600, 0, "CST", Ghost(g))
        .step(1930809600, -21600, 3600, "CDT", Ghost(g))
        .step(1951369200, -21600, 0, "CST", Ghost(g))
        .step(1962864000, -21600, 3600, "CDT", Ghost(g))
        .step(1983423600, -21600, 0, "CST", Ghost(g))
        .step(1994313600, -21600, 3600, "CDT", Ghost(g))
        .step(2014873200, -21600, 0, "CST", Ghost(g))
        .step(2025763200, -21600, 3600, "CDT", Ghost(g))
        .step(2046322800, -21600, 0, "CST", Ghost(g))
        .step(2057212800, -21600, 3600, "CDT", Ghost(g))
        .step(2077772400, -21600, 0, "CST", Ghost(g))
        .step(2088662400, -21600, 3600, "CDT", Ghost(g))
        .step(2109222000, -21600, 0, "CST", Ghost(g))
        .step(2120112000, -21600, 3600, "CDT", Ghost(g))
        .step(2140671600, -21600, 0, "CST", Ghost(g))
        .finish(Ghost(g))
}

/// The zone `America/Chihuahua`.
pub fn chihuahua() -> (r: Tz)
    ensures
        r.wf(),
        r.zone_name() == "America/Chihuahua"@,
        r.table() == tables::america::chihuahua(),
{
    let ghost g = tables::america::chihuahua_rows();
    FixedTimespanSet::begin("America/Chihuahua", -25460, 0, "LMT", Ghost(g))
        .step(-1514739600, -25200, 0, "MST", Ghost(g))
        .step(-1343149200, -21600, 0, "CST", Ghost(g))
        .step(-1234807200, -25200, 0, "MST", Ghost(g))
        .step(-1220461200, -25200, 3600, "MDT", Ghost(g))
        .step(-1207159200, -25200, 0, "MST", Ghost(g))
        .step(-1191344400, -21600, 0, "CST", Ghost(g))
        .step(828864000, -21600, 3600, "CDT", Ghost(g))
        .step(846399600, -21600, 0, "CST", Ghost(g))
        .step(860313600, -21600, 3600, "CDT", Ghost(g))
        .step(877849200, -21600, 0, "CST", Ghost(g))
        .step(891766800, -25200, 3600, "MDT", Ghost(g))
        .step(909302400, -25200, 0, "MST", Ghost(g))
        .step(923216400, -25200, 3600, "MDT", Ghost(g))
        .step(941356800, -25200, 0, "MST", Ghost(g))
        .step(954666000, -25200, 3600, "MDT", Ghost(g))
        .step(972806400, -25200, 0, "MST", Ghost(g))
        .step(989139600, -25200, 3600, "MDT", Ghost(g))
        .step(1001836800, -25200, 0, "MST", Ghost(g))
        .step(1018170000, -25200, 3600, "MDT", Ghost(g))
        .step(1035705600, -25200, 0, "MST", Ghost(g))
        .step(1049619600, -25200, 3600, "MDT", Ghost(g))
        .step(1067155200, -25200, 0, "MST", Ghost(g))
        .step(1081069200, -25200, 3600, "MDT", Ghost(g))
        .step(1099209600, -25200, 0, "MST", Ghost(g))
        .step(1112518800, -25200, 3600, "MDT", Ghost(g))
        .step(1130659200, -25200, 0, "MST", Ghost(g))
        .step(1143968400, -25200, 3600, "MDT", Ghost(g))
        .step(1162108800, -25200, 0, "MST", Ghost(g))
        .step(1175418000, -25200, 3600, "MDT", Ghost(g))
        .step(1193558400, -25200, 0, "MST", Ghost(g))
        .step(1207472400, -25200, 3600, "MDT", Ghost(g))
        .step(1225008000, -25200, 0, "MST", Ghost(g))
        .step(1238922000, -25200, 3600, "MDT", Ghost(g))
        .step(1256457600, -25200, 0, "MST", Ghost(g))
        .step(1270371600, -25200, 3600, "MDT", Ghost(g))
        .step(1288512000, -25200, 0, "MST", Ghost(g))
        .step(1301821200, -25200, 3600, "MDT", Ghost(g))
        .step(1319961600, -25200, 0, "MST", Ghost(g))
        .step(1333270800, -25200, 3600, "MDT", Ghost(g))
        .step(1351411200, -25200, 0, "MST", Ghost(g))
        .step(1365325200, -25200, 3600, "MDT", Ghost(g))
        .step(1382860800, -25200, 0, "MST", Ghost(g))
        .step(1396774800, -25200, 3600, "MDT", Ghost(g))
        .step(1414310400, -25200, 0, "MST", Ghost(g))
        .step(1428224400, -25200, 3600, "MDT", Ghost(g))
        .step(1445760000, -25200, 0, "MST", Ghost(g))
        .step(1459674000, -25200, 3600, "MDT", Ghost(g))
        .step(1477814400, -25200, 0, "MST", Ghost(g))
        .step(1491123600, -25200, 3600, "MDT", Ghost(g))
        .step(1509264000, -25200, 0, "MST", Ghost(g))
        .step(1522573200, -25200, 3600, "MDT", Ghost(g))
        .step(1540713600, -25200, 0, "MST", Ghost(g))
        .step(1554627600, -25200, 3600, "MDT", Ghost(g))
        .step(1572163200, -25200, 0, "MST", Ghost(g))
        .step(1586077200, -25200, 3600, "MDT", Ghost(g))
        .step(1603612800, -25200, 0, "MST", Ghost(g))
        .step(1617526800, -25200, 3600, "MDT", Ghost(g))
        .step(1635667200, -25200, 0, "MST", Ghost(g))
        .step(1648976400, -25200, 3600, "MDT", Ghost(g))
        .step(1667116800, -21600, 0, "CST", Ghost(g))
        .finish(Ghost(g))
}

/// The zone `America/Ciudad_Juarez`.
pub fn ciudad_juarez() -> (r: Tz)
    ensures
        r.wf(),
        r.zone_name() == "America/Ciudad_Juarez"@,
        r.table() == tables::america::ciudad_juarez(),
{
    let ghost g = tables::america::ciudad_juarez_rows();
    FixedTimespanSet::begin("America/Ciudad_Juarez", -25556, 0, "LMT", Ghost(g))
        .step(-1514739600, -25200, 0, "MST", Ghost(g))
        .step(-1343149200, -21600, 0, "CST", Ghost(g))
        .step(-1234807200, -25200, 0, "MST", Ghost(g))
        .step(-1220461200, -25200, 3600, "MDT", Ghost(g))
        .step(-1207159200, -25200, 0, "MST", Ghost(g))
        .step(-1191344400, -21600, 0, "CST", Ghost(g))
        .step(828864000, -21600, 3600, "CDT", Ghost(g))
        .step(846399600, -21600, 0, "CST", Ghost(g))
        .step(860313600, -21600, 3600, "CDT", Ghost(g))
        .step(877849200, -21600, 0, "CST", Ghost(g))
        .step(891766800, -25200, 3600, "MDT", Ghost(g))
        .step(909302400, -25200, 0, "MST", Ghost(g))
        .step(923216400, -25200, 3600, "MDT", Ghost(g))
        .step(941356800, -25200, 0, "MST", Ghost(g))
        .step(954666000, -25200, 3600, "MDT", Ghost(g))
        .step(972806400, -25200, 0, "MST", Ghost(g))
        .step(989139600, -25200, 3600, "MDT", Ghost(g))
        .step(1001836800, -25200, 0, "MST", Ghost(g))
        .step(1018170000, -25200, 3600, "MDT", Ghost(g))
        .step(1035705600, -25200, 0, "MST", Ghost(g))
        .step(1049619600, -25200, 3600, "MDT", Ghost(g))
        .step(1067155200, -25200, 0, "MST", Ghost(g))
        .step(1081069200, -25200, 3600, "MDT", Ghost(g))
        .step(1099209600, -25200, 0, "MST", Ghost(g))
        .step(1112518800, -25200, 3600, "MDT", Ghost(g))
        .step(1130659200, -25200, 0, "MST", Ghost(g))
        .step(1143968400, -25200, 3600, "MDT", Ghost(g))
        .step(1162108800, -25200, 0, "MST", Ghost(g))
        .step(1175418000, -25200, 3600, "MDT", Ghost(g))
        .step(1193558400, -25200, 0, "MST", Ghost(g))
        .step(1207472400, -25200, 3600, "MDT", Ghost(g))
        .step(1225008000, -25200, 0, "MST", Ghost(g))
        .step(1238922000, -25200, 3600, "MDT", Ghost(g))
        .step(1256457600, -25200, 0, "MST", Ghost(g))
        .step(1268557200, -25200, 3600, "MDT", Ghost(g))
        .step(1289116800, -25200, 0, "MST", Ghost(g))
        .step(1300006800, -25200, 3600, "MDT", Ghost(g))
        .step(1320566400, -25200, 0, "MST", Ghost(g))
        .step(1331456400, -25200, 3600, "MDT", Ghost(g))
        .step(1352016000, -25200, 0, "MST", Ghost(g))
        .step(1362906000, -25200, 3600, "MDT", Ghost(g))
        .step(1383465600, -25200, 0, "MST", Ghost(g))
        .step(1394355600, -25200, 3600, "MDT", Ghost(g))
        .step(1414915200, -25200, 0, "MST", Ghost(g))
        .step(1425805200, -25200, 3600, "MDT", Ghost(g))
        .step(1446364800, -25200, 0, "MST", Ghost(g))
        .step(1457859600, -25200, 3600, "MDT", Ghost(g))
        .step(1478419200, -25200, 0, "MST", Ghost(g))
        .step(1489309200, -25200, 3600, "MDT", Ghost(g))
        .step(1509868800, -25200, 0, "MST", Ghost(g))
        .step(1520758800, -25200, 3600, "MDT", Ghost(g))
        .step(1541318400, -25200, 0, "MST", Ghost(g))
        .step(1552208400, -25200, 3600, "MDT", Ghost(g))
        .step(1572768000, -25200, 0, "MST", Ghost(g))
        .step(1583658000, -25200, 3600, "MDT", Ghost(g))
        .step(1604217600, -25200, 0, "MST", Ghost(g))
        .step(1615712400, -25200, 3600, "MDT", Ghost(g))
        .step(1636272000, -25200, 0, "MST", Ghost(g))
        .step(1647162000, -25200, 3600, "MDT", Ghost(g))
        .step(1667116800, -21600, 0, "CST", Ghost(g))
        .step(1669788000, -25200, 0, "MST", Ghost(g))
        .step(1678611600, -25200, 3600, "MDT", Ghost(g))
        .step(1699171200, -25200, 0, "MST", Ghost(g))
        .step(1710061200, -25200, 3600, "MDT", Ghost(g))
        .step(1730620800, -25200, 0, "MST", Ghost(g))
        .step(1741510800, -25200, 3600, "MDT", Ghost(g))
        .step(1762070400, -25200, 0, "MST", Ghost(g))
        .step(1772960400, -25200, 3600, "MDT", Ghost(g))
        .step(1793520000, -25200, 0, "MST", Ghost(g))
        .step(1805014800, -25200, 3600, "MDT", Ghost(g))
        .step(1825574400, -25200, 0, "MST", Ghost(g))
        .step(1836464400, -25200, 3600, "MDT", Ghost(g))
        .step(1857024000, -25200, 0, "MST", Ghost(g))
        .step(1867914000, -25200, 3600, "MDT", Ghost(g))
        .step(1888473600, -25200, 0, "MST", Ghost(g))
        .step(1899363600, -25200, 3600, "MDT", Ghost(g))
        .step(1919923200, -25200, 0, "MST", Ghost(g))
        .step(1930813200, -25200, 3600, "MDT", Ghost(g))
        .step(1951372800, -25200, 0, "MST", Ghost(g))
        .step(1962867600, -25200, 3600, "MDT", Ghost(g))
        .step(1983427200, -25200, 0, "MST", Ghost(g))
        .step(1994317200, -25200, 3600, "MDT", Ghost(g))
        .step(2014876800, -25200, 0, "MST", Ghost(g))
        .step(2025766800, -25200, 3600, "MDT", Ghost(g))
        .step(2046326400, -25200, 0, "MST", Ghost(g))
        .step(2057216400, -25200, 3600, "MDT", Ghost(g))
        .step(2077776000, -25200, 0, "MST", Ghost(g))
        .step(2088666000, -25200, 3600, "MDT", Ghost(g))
        .step(2109225600, -25200, 0, "MST", Ghost(g))
        .step(2120115600, -25200, 3600, "MDT", Ghost(g))
        .step(2140675200, -25200, 0, "MST", Ghost(g))
        .finish(Ghost(g))
}

/// The zone `America/Coral_Harbour`.
pub fn coral_harbour() -> (r: Tz)
    ensures
        r.wf(),
        r.zone_name() == "America/Coral_Harbour"@,
        r.table() == tables::america::coral_harbour(),
{
    let ghost g = tables::america::coral_harbour_rows();
    FixedTimespanSet::begin("America/Coral_Harbour", -19088, 0, "LMT", Ghost(g))
        .step(-2524502512, -19176, 0, "CMT", Ghost(g))
        .step(-1946918424, -18000, 0, "EST", Ghost(g))
        .finish(Ghost(g))
}

/// The zone `America/Cordoba`.
pub fn cordoba() -> (r: Tz)
    ensures
        r.wf(),
        r.zone_name() == "America/Cordoba"@,
        r.table() == tables::america::cordoba(),
{
    let ghost g = tables::america::cordoba_rows();
    FixedTimespanSet::begin("America/Cordoba", -15408, 0, "LMT", Ghost(g))
        .step(-2372096592, -15408, 0, "CMT", Ghost(g))
        .step(-1567453392, -14400, 0, "-04", Ghost(g))
        .step(-1233432000, -14400, 3600, "-03", Ghost(g))
        .step(-1222981200, -14400, 0, "-04", Ghost(g))
        .step(-1205956800, -14400, 3600, "-03", Ghost(g))
        .step(-1194037200, -14400, 0, "-04", Ghost(g))
        .step(-1172865600, -14400, 3600, "-03", Ghost(g))
        .step(-1162501200, -14400, 0, "-04", Ghost(g))
        .step(-1141329600, -14400, 3600, "-03", Ghost(g))
        .step(-1130965200, -14400, 0, "-04", Ghost(g))
        .step(-1109793600, -14400, 3600, "-03", Ghost(g))
        .step(-1099429200, -14400, 0, "-04", Ghost(g))
        .step(-1078257600, -14400, 3600, "-03", Ghost(g))
        .step(-1067806800, -14400, 0, "-04", Ghost(g))
        .step(-1046635200, -14400, 3600, "-03", Ghost(g))
        .step(-1036270800, -14400, 0, "-04", Ghost(g))
        .step(-1015099200, -14400, 3600, "-03", Ghost(g))
        .step(-1004734800, -14400, 0, "-04", Ghost(g))
        .step(-983563200, -14400, 3600, "-03", Ghost(g))
        .step(-973198800, -14400, 0, "-04", Ghost(g))
        .step(-952027200, -14400, 3600, "-03", Ghost(g))
        .step(-941576400, -14400, 0, "-04", Ghost(g))
        .step(-931032000, -14400, 3600, "-03", Ghost(g))
        .step(-900882000, -14400, 0, "-04", Ghost(g))
        .step(-890337600, -14400, 3600, "-03", Ghost(g))
        .step(-833749200, -14400, 0, "-04", Ghost(g))
        .step(-827265600, -14400, 3600, "-03", Ghost(g))
        .step(-752274000, -14400, 0, "-04", Ghost(g))
        .step(-733780800, -14400, 3600, "-03", Ghost(g))
        .step(-197326800, -14400, 0, "-04", Ghost(g))
        .step(-190843200, -14400, 3600, "-03", Ghost(g))
        .step(-184194000, -14400, 0, "-04", Ghost(g))
        .step(-164491200, -14400, 3600, "-03", Ghost(g))
        .step(-152658000, -14400, 0, "-04", Ghost(g))
        .step(-132955200, -14400, 3600, "-03", Ghost(g))
        .step(-121122000, -14400, 0, "-04", Ghost(g))
        .step(-101419200, -14400, 3600, "-03", Ghost(g))
        .step(-86821200, -14400, 0, "-04", Ghost(g))
        .step(-71092800, -14400, 3600, "-03", Ghost(g))
        .step(-54766800, -14400, 0, "-04", Ghost(g))
        .step(-39038400, -14400, 3600, "-03", Ghost(g))
        .step(-23317200, -14400, 0, "-04", Ghost(g))
        .step(-7588800, -10800, 0, "-03", Ghost(g))
        .step(128142000, -10800, 3600, "-02", Ghost(g))
        .step(136605600, -10800, 0, "-03", Ghost(g))
        .step(596948400, -10800, 3600, "-02", Ghost(g))
        .step(605066400, -10800, 0, "-03", Ghost(g))
        .step(624423600, -10800, 3600, "-02", Ghost(g))
        .step(636516000, -10800, 0, "-03", Ghost(g))
        .step(656478000, -10800, 3600, "-02", Ghost(g))
        .step(667965600, -14400, 0, "-04", Ghost(g))
        .step(687931200, -14400, 7200, "-02", Ghost(g))
        .step(699415200, -10800, 0, "-03", Ghost(g))
        .step(719377200, -10800, 3600, "-02", Ghost(g))
        .step(731469600, -10800, 0, "-03", Ghost(g))
        .step(938919600, -14400, 3600, "-03", Ghost(g))
        .step(952052400, -10800, 0, "-03", Ghost(g))
        .step(1198983600, -10800, 3600, "-02", Ghost(g))
        .step(1205632800, -10800, 0, "-03", Ghost(g))
        .step(1224385200, -10800, 3600, "-02", Ghost(g))
        .step(1237082400, -10800, 0, "-03", Ghost(g))
        .step(2147483647, -10800, 0, "-03", Ghost(g))
        .finish(Ghost(g))
}

/// The zone `America/Costa_Rica`.
pub fn costa_rica() -> (r: Tz)
    ensures
        r.wf(),
        r.zone_name() == "America/Costa_Rica"@,
        r.table() == tables::america::costa_rica(),
{
    let ghost g = tables::america::costa_rica_rows();
    FixedTimespanSet::begin("America/Costa_Rica", -20173, 0, "LMT", Ghost(g))
        .step(-2524501427, -20173, 0, "SJMT", Ghost(g))
        .step(-1545071027, -21600, 0, "CST", Ghost(g))
        .step(288770400, -21600, 3600, "CDT", Ghost(g))
        .step(297234000, -21600, 0, "CST", Ghost(g))
        .step(320220000, -21600, 3600, "CDT", Ghost(g))
        .step(328683600, -21600, 0, "CST", Ghost(g))
        .step(664264800, -21600, 3600, "CDT", Ghost(g))
        .step(678344400, -21600, 0, "CST", Ghost(g))
        .step(695714400, -21600, 3600, "CDT", Ghost(g))
        .step(700635600, -21600, 0, "CST", Ghost(g))
        .finish(Ghost(g))
}

/// The zone `America/Coyhaique`.
pub fn coyhaique() -> (r: Tz)
    ensures
        r.wf(),
        r.zone_name() == "America/Coyhaique"@,
        r.table() == tables::america::coyhaique(),
{
    let ghost g = tables::america::coyhaique_rows();
    FixedTimespanSet::begin("America/Coyhaique", -17296, 0, "LMT", Ghost(g))
        .step(-2524504304, -16965, 0, "SMT", Ghost(g))
        .step(-1892661435, -18000, 0, "-05", Ghost(g))
        .step(-1688410800, -16965, 0, "SMT", Ghost(g))
        .step(-1619205435, -14400, 0, "-04", Ghost(g))
        .step(-1593806400, -16965, 0, "SMT", Ghost(g))
        .step(-1335986235, -16965, 2565, "-04", Ghost(g))
        .step(-1317585600, -18000, 0, "-05", Ghost(g))
        .step(-1304362800, -18000, 3600, "-04", Ghost(g))
        .step(-1286049600, -18000, 0, "-05", Ghost(g))
        .step(-1272826800, -18000, 3600, "-04", Ghost(g))
        .step(-1254513600, -18000, 0, "-05", Ghost(g))
        .step(-1241290800, -18000, 3600, "-04", Ghost(g))
        .step(-1222977600, -18000, 0, "-05", Ghost(g))
        .step(-1209754800, -18000, 3600, "-04", Ghost(g))
        .step(-1191355200, -18000, 0, "-05", Ghost(g))
        .step(-1178132400, -14400, 0, "-04", Ghost(g))
        .step(-870552000, -18000, 0, "-05", Ghost(g))
        .step(-865278000, -14400, 0, "-04", Ghost(g))
        .step(-736632000, -18000, 3600, "-04", Ghost(g))
        .step(-718056000, -18000, 0, "-05", Ghost(g))
        .step(-713649600, -14400, 0, "-04", Ghost(g))
        .step(-36619200, -14400, 3600, "-03", Ghost(g))
        .step(-23922000, -14400, 0, "-04", Ghost(g))
        .step(-3355200, -14400, 3600, "-03", Ghost(g))
        .step(7527600, -14400, 0, "-04", Ghost(g))
        .step(24465600, -14400, 3600, "-03", Ghost(g))
        .step(37767600, -14400, 0, "-04", Ghost(g))
        .step(55915200, -14400, 3600, "-03", Ghost(g))
        .step(69217200, -14400, 0, "-04", Ghost(g))
        .step(87969600, -14400, 3600, "-03", Ghost(g))
        .step(100666800, -14400, 0, "-04", Ghost(g))
        .step(118209600, -14400, 3600, "-03", Ghost(g))
        .step(132116400, -14400, 0, "-04", Ghost(g))
        .step(150868800, -14400, 3600, "-03", Ghost(g))
        .step(163566000, -14400, 0, "-04", Ghost(g))
        .step(182318400, -14400, 3600, "-03", Ghost(g))
        .step(195620400, -14400, 0, "-04", Ghost(g))
        .step(213768000, -14400, 3600, "-03", Ghost(g))
        .step(227070000, -14400, 0, "-04", Ghost(g))
        .step(245217600, -14400, 3600, "-03", Ghost(g))
        .step(258519600, -14400, 0, "-04", Ghost(g))
        .step(277272000, -14400, 3600, "-03", Ghost(g))
        .step(289969200, -14400, 0, "-04", Ghost(g))
        .step(308721600, -14400, 3600, "-03", Ghost(g))
        .step(321418800, -14400, 0, "-04", Ghost(g))
        .step(340171200, -14400, 3600, "-03", Ghost(g))
        .step(353473200, -14400, 0, "-04", Ghost(g))
        .step(371620800, -14400, 3600, "-03", Ghost(g))
        .step(384922800, -14400, 0, "-04", Ghost(g))
        .step(403070400, -14400, 3600, "-03", Ghost(g))
        .step(416372400, -14400, 0, "-04", Ghost(g))
        .step(434520000, -14400, 3600, "-03", Ghost(g))
        .step(447822000, -14400, 0, "-04", Ghost(g))
        .step(466574400, -14400, 3600, "-03", Ghost(g))
        .step(479271600, -14400, 0, "-04", Ghost(g))
        .step(498024000, -14400, 3600, "-03", Ghost(g))
        .step(510721200, -14400, 0, "-04", Ghost(g))
        .step(529473600, -14400, 3600, "-03", Ghost(g))
        .step(545194800, -14400, 0, "-04", Ghost(g))
        .step(560923200, -14400, 3600, "-03", Ghost(g))
        .step(574225200, -14400, 0, "-04", Ghost(g))
        .step(592372800, -14400, 3600, "-03", Ghost(g))
        .step(605674800, -14400, 0, "-04", Ghost(g))
        .step(624427200, -14400, 3600, "-03", Ghost(g))
        .step(637124400, -14400, 0, "-04", Ghost(g))
        .step(653457600, -14400, 3600, "-03", Ghost(g))
        .step(668574000, -14400, 0, "-04", Ghost(g))
        .step(687326400, -14400, 3600, "-03", Ghost(g))
        .step(700628400, -14400, 0, "-04", Ghost(g))
        .step(718776000, -14400, 3600, "-03", Ghost(g))
        .step(732078000, -14400, 0, "-04", Ghost(g))
        .step(750225600, -14400, 3600, "-03", Ghost(g))
        .step(763527600, -14400, 0, "-04", Ghost(g))
        .step(781675200, -14400, 3600, "-03", Ghost(g))
        .step(794977200, -14400, 0, "-04", Ghost(g))
        .step(813729600, -14400, 3600, "-03", Ghost(g))
        .step(826426800, -14400, 0, "-04", Ghost(g))
        .step(845179200, -14400, 3600, "-03", Ghost(g))
        .step(859690800, -14400, 0, "-04", Ghost(g))
        .step(876628800, -14400, 3600, "-03", Ghost(g))
        .step(889930800, -14400, 0, "-04", Ghost(g))
        .step(906868800, -14400, 3600, "-03", Ghost(g))
        .step(923194800, -14400, 0, "-04", Ghost(g))
        .step(939528000, -14400, 3600, "-03", Ghost(g))
        .step(952830000, -14400, 0, "-04", Ghost(g))
        .step(971582400, -14400, 3600, "-03", Ghost(g))
        .step(984279600, -14400, 0, "-04", Ghost(g))
        .step(1003032000, -14400, 3600, "-03", Ghost(g))
        .step(1015729200, -14400, 0, "-04", Ghost(g))
        .step(1034481600, -14400, 3600, "-03", Ghost(g))
        .step(1047178800, -14400, 0, "-04", Ghost(g))
        .step(1065931200, -14400, 3600, "-03", Ghost(g))
        .step(1079233200, -14400, 0, "-04", Ghost(g))
        .step(1097380800, -14400, 3600, "-03", Ghost(g))
        .step(1110682800, -14400, 0, "-04", Ghost(g))
        .step(1128830400, -14400, 3600, "-03", Ghost(g))
        .step(1142132400, -14400, 0, "-04", Ghost(g))
        .step(1160884800, -14400, 3600, "-03", Ghost(g))
        .step(1173582000, -14400, 0, "-04", Ghost(g))
        .step(1192334400, -14400, 3600, "-03", Ghost(g))
        .step(1206846000, -14400, 0, "-04", Ghost(g))
        .step(1223784000, -14400, 3600, "-03", Ghost(g))
        .step(1237086000, -14400, 0, "-04", Ghost(g))
        .step(1255233600, -14400, 3600, "-03", Ghost(g))
        .step(1270350000, -14400, 0, "-04", Ghost(g))
        .step(1286683200, -14400, 3600, "-03", Ghost(g))
        .step(1304823600, -14400, 0, "-04", Ghost(g))
        .step(1313899200, -14400, 3600, "-03", Ghost(g))
        .step(1335668400, -14400, 0, "-04", Ghost(g))
        .step(1346558400, -14400, 3600, "-03", Ghost(g))
        .step(1367118000, -14400, 0, "-04", Ghost(g))
        .step(1378612800, -14400, 3600, "-03", Ghost(g))
        .step(1398567600, -14400, 0, "-04", Ghost(g))
        .step(1410062400, -14400, 3600, "-03", Ghost(g))
        .step(1463281200, -14400, 0, "-04", Ghost(g))
        .step(1471147200, -14400, 3600, "-03", Ghost(g))
        .step(1494730800, -14400, 0, "-04", Ghost(g))
        .step(1502596800, -14400, 3600, "-03", Ghost(g))
        .step(1526180400, -14400, 0, "-04", Ghost(g))
        .step(1534046400, -14400, 3600, "-03", Ghost(g))
        .step(1554606000, -14400, 0, "-04", Ghost(g))
        .step(1567915200, -14400, 3600, "-03", Ghost(g))
        .step(1586055600, -14400, 0, "-04", Ghost(g))
        .step(1599364800, -14400, 3600, "-03", Ghost(g))
        .step(1617505200, -14400, 0, "-04", Ghost(g))
        .step(1630814400, -14400, 3600, "-03", Ghost(g))
        .step(1648954800, -14400, 0, "-04", Ghost(g))
        .step(1662868800, -14400, 3600, "-03", Ghost(g))
        .step(1680404400, -14400, 0, "-04", Ghost(g))
        .step(1693713600, -14400, 3600, "-03", Ghost(g))
        .step(1712458800, -14400, 0, "-04", Ghost(g))
        .step(1725768000, -14400, 3600, "-03", Ghost(g))
        .step(1742439600, -10800, 0, "-03", Ghost(g))
        .step(2147483647, -10800, 0, "-03", Ghost(g))
        .finish(Ghost(g))
}

/// The zone `America/Creston`.
pub fn creston() -> (r: Tz)
    ensures
        r.wf(),
        r.zone_name() == "America/Creston"@,
        r.table() == tables::america::creston(),
{
    let ghost g = tables::america::creston_rows();
    FixedTimespanSet::begin("America/Creston", -27964, 0, "LMT", Ghost(g))
        .step(-2713882436, -25200, 0, "MST", Ghost(g))
        .step(-1680454800, -28800, 0, "PST", Ghost(g))
        .step(-1627833600, -25200, 0, "MST", Ghost(g))
        .finish(Ghost(g))
}

/// The zone `America/Cuiaba`.
pub fn cuiaba() -> (r: Tz)
    ensures
        r.wf(),
        r.zone_name() == "America/Cuiaba"@,
        r.table() == tables::america::cuiaba(),
{
    let ghost g = tables::america::cuiaba_rows();
    FixedTimespanSet::begin("America/Cuiaba", -13460, 0, "LMT", Ghost(g))
        .step(-1767212140, -14400, 0, "-04", Ghost(g))
        .step(-1206954000, -14400, 3600, "-03", Ghost(g))
        .step(-1191358800, -14400, 0, "-04", Ghost(g))
        .step(-1175371200, -14400, 3600, "-03", Ghost(g))
        .step(-1159822800, -14400, 0, "-04", Ghost(g))
        .step(-633816000, -14400, 3600, "-03", Ghost(g))
        .step(-622065600, -14400, 0, "-04", Ghost(g))
        .step(-602280000, -14400, 3600, "-03", Ghost(g))
        .step(-591829200, -14400, 0, "-04", Ghost(g))
        .step(-570744000, -14400, 3600, "-03", Ghost(g))
        .step(-560206800, -14400, 0, "-04", Ghost(g))
        .step(-539121600, -14400, 3600, "-03", Ghost(g))
        .step(-531349200, -14400, 0, "-04", Ghost(g))
        .step(-191361600, -14400, 3600, "-03", Ghost(g))
        .step(-184194000, -14400, 0, "-04", Ghost(g))
        .step(-155160000, -14400, 3600, "-03", Ghost(g))
        .step(-150066000, -14400, 0, "-04", Ghost(g))
        .step(-128894400, -14400, 3600, "-03", Ghost(g))
        .step(-121122000, -14400, 0, "-04", Ghost(g))
        .step(-99950400, -14400, 3600, "-03", Ghost(g))
        .step(-89586000, -14400, 0, "-04", Ghost(g))
        .step(-68414400, -14400, 3600, "-03", Ghost(g))
        .step(-57963600, -14400, 0, "-04", Ghost(g))
        .step(499752000, -14400, 3600, "-03", Ghost(g))
        .step(511239600, -14400, 0, "-04", Ghost(g))
        .step(530596800, -14400, 3600, "-03", Ghost(g))
        .step(540270000, -14400, 0, "-04", Ghost(g))
        .step(562132800, -14400, 3600, "-03", Ghost(g))
        .step(571201200, -14400, 0, "-04", Ghost(g))
        .step(592977600, -14400, 3600, "-03", Ghost(g))
        .step(602046000, -14400, 0, "-04", Ghost(g))
        .step(624427200, -14400, 3600, "-03", Ghost(g))
        .step(634705200, -14400, 0, "-04", Ghost(g))
        .step(656481600, -14400, 3600, "-03", Ghost(g))
        .step(666759600, -14400, 0, "-04", Ghost(g))
        .step(687931200, -14400, 3600, "-03", Ghost(g))
        .step(697604400, -14400, 0, "-04", Ghost(g))
        .step(719985600, -14400, 3600, "-03", Ghost(g))
        .step(728449200, -14400, 0, "-04", Ghost(g))
        .step(750830400, -14400, 3600, "-03", Ghost(g))
        .step(761713200, -14400, 0, "-04", Ghost(g))
        .step(782280000, -14400, 3600, "-03", Ghost(g))
        .step(793162800, -14400, 0, "-04", Ghost(g))
        .step(813729600, -14400, 3600, "-03", Ghost(g))
        .step(824007600, -14400, 0, "-04", Ghost(g))
        .step(844574400, -14400, 3600, "-03", Ghost(g))
        .step(856062000, -14400, 0, "-04", Ghost(g))
        .step(876110400, -14400, 3600, "-03", Ghost(g))
        .step(888721200, -14400, 0, "-04", Ghost(g))
        .step(908078400, -14400, 3600, "-03", Ghost(g))
        .step(919566000, -14400, 0, "-04", Ghost(g))
        .step(938923200, -14400, 3600, "-03", Ghost(g))
        .step(951620400, -14400, 0, "-04", Ghost(g))
        .step(970977600, -14400, 3600, "-03", Ghost(g))
        .step(982465200, -14400, 0, "-04", Ghost(g))
        .step(1003032000, -14400, 3600, "-03", Ghost(g))
        .step(1013914800, -14400, 0, "-04", Ghost(g))
        .step(1036296000, -14400, 3600, "-03", Ghost(g))
        .step(1045364400, -14400, 0, "-04", Ghost(g))
        .step(1099368000, -14400, 3600, "-03", Ghost(g))
        .step(1108868400, -14400, 0, "-04", Ghost(g))
        .step(1129435200, -14400, 3600, "-03", Ghost(g))
        .step(1140318000, -14400, 0, "-04", Ghost(g))
        .step(1162699200, -14400, 3600, "-03", Ghost(g))
        .step(1172372400, -14400, 0, "-04", Ghost(g))
        .step(1192334400, -14400, 3600, "-03", Ghost(g))
        .step(1203217200, -14400, 0, "-04", Ghost(g))
        .step(1224388800, -14400, 3600, "-03", Ghost(g))
        .step(1234666800, -14400, 0, "-04", Ghost(g))
        .step(1255838400, -14400, 3600, "-03", Ghost(g))
        .step(1266721200, -14400, 0, "-04", Ghost(g))
        .step(1287288000, -14400, 3600, "-03", Ghost(g))
        .step(1298170800, -14400, 0, "-04", Ghost(g))
        .step(1318737600, -14400, 3600, "-03", Ghost(g))
        .step(1330225200, -14400, 0, "-04", Ghost(g))
        .step(1350792000, -14400, 3600, "-03", Ghost(g))
        .step(1361070000, -14400, 0, "-04", Ghost(g))
        .step(1382241600, -14400, 3600, "-03", Ghost(g))
        .step(1392519600, -14400, 0, "-04", Ghost(g))
        .step(1413691200, -14400, 3600, "-03", Ghost(g))
        .step(1424574000, -14400, 0, "-04", Ghost(g))
        .step(1445140800, -14400, 3600, "-03", Ghost(g))
        .step(1456023600, -14400, 0, "-04", Ghost(g))
        .step(1476590400, -14400, 3600, "-03", Ghost(g))
        .step(1487473200, -14400, 0, "-04", Ghost(g))
        .step(1508040000, -14400, 3600, "-03", Ghost(g))
        .step(1518922800, -14400, 0, "-04", Ghost(g))
        .step(1541304000, -14400, 3600, "-03", Ghost(g))
        .step(1550372400, -14400, 0, "-04", Ghost(g))
        .step(2147483647, -14400, 0, "-04", Ghost(g))
        .finish(Ghost(g))
}

/// The zone `America/Curacao`.
pub fn curacao() -> (r: Tz)
    ensures
        r.wf(),
        r.zone_name() == "America/Curacao"@,
        r.table() == tables::america::curacao(),
{
    let ghost g = tables::america::curacao_rows();
    FixedTimespanSet::begin("America/Curacao", -16547, 0, "LMT", Ghost(g))
        .step(-1826738653, -16200, 0, "-0430", Ghost(g))
        .step(-157750200, -14400, 0, "AST", Ghost(g))
        .finish(Ghost(g))
}

/// The zone `America/Danmarkshavn`.
pub fn danmarkshavn() -> (r: Tz)
    ensures
        r.wf(),
        r.zone_name() == "America/Danmarkshavn"@,
        r.table() == tables::america::danmarkshavn(),
{
    let ghost g = tables::america::danmarkshavn_rows();
    FixedTimespanSet::begin("America/Danmarkshavn", -4480, 0, "LMT", Ghost(g))
        .step(-1686091520, -10800, 0, "-03", Ghost(g))
        .step(323845200, -10800, 3600, "-02", Ghost(g))
        .step(338950800, -10800, 0, "-03", Ghost(g))
        .step(354675600, -10800, 3600, "-02", Ghost(g))
        .step(370400400, -10800, 0, "-03", Ghost(g))
        .step(386125200, -10800, 3600, "-02", Ghost(g))
        .step(401850000, -10800, 0, "-03", Ghost(g))
        .step(417574800, -10800, 3600, "-02", Ghost(g))
        .step(433299600, -10800, 0, "-03", Ghost(g))
        .step(449024400, -10800, 3600, "-02", Ghost(g))
        .step(465354000, -10800, 0, "-03", Ghost(g))
        .step(481078800, -10800, 3600, "-02", Ghost(g))
        .step(496803600, -10800, 0, "-03", Ghost(g))
        .step(512528400, -10800, 3600, "-02", Ghost(g))
        .step(528253200, -10800, 0, "-03", Ghost(g))
        .step(543978000, -10800, 3600, "-02", Ghost(g))
        .step(559702800, -10800, 0, "-03", Ghost(g))
        .step(575427600, -10800, 3600, "-02", Ghost(g))
        .step(591152400, -10800, 0, "-03", Ghost(g))
        .step(606877200, -10800, 3600, "-02", Ghost(g))
        .step(622602000, -10800, 0, "-03", Ghost(g))
        .step(638326800, -10800, 3600, "-02", Ghost(g))
        .step(654656400, -10800, 0, "-03", Ghost(g))
        .step(670381200, -10800, 3600, "-02", Ghost(g))
        .step(686106000, -10800, 0, "-03", Ghost(g))
        .step(701830800, -10800, 3600, "-02", Ghost(g))
        .step(717555600, -10800, 0, "-03", Ghost(g))
        .step(733280400, -10800, 3600, "-02", Ghost(g))
        .step(749005200, -10800, 0, "-03", Ghost(g))
        .step(764730000, -10800, 3600, "-02", Ghost(g))
        .step(780454800, -10800, 0, "-03", Ghost(g))
        .step(796179600, -10800, 3600, "-02", Ghost(g))
        .step(811904400, -10800, 0, "-03", Ghost(g))
        .step(820465200, 0, 0, "GMT", Ghost(g))
        .finish(Ghost(g))
}

/// The zone `America/Dawson`.
pub fn dawson() -> (r: Tz)
    ensures
        r.wf(),
        r.zone_name() == "America/Dawson"@,
        r.table() == tables::america::dawson(),
{
    let ghost g = tables::america::dawson_rows();
    FixedTimespanSet::begin("America/Dawson", -33460, 0, "LMT", Ghost(g))
        .step(-2188996940, -32400, 0, "YST", Ghost(g))
        .step(-1632056400, -32400, 3600, "YDT", Ghost(g))
        .step(-1615125600, -32400, 0, "YST", Ghost(g))
        .step(-1596978000, -32400, 3600, "YDT", Ghost(g))
        .step(-1583164800, -32400, 0, "YST", Ghost(g))
        .step(-880203600, -32400, 3600, "YWT", Ghost(g))
        .step(-769395600, -32400, 3600, "YPT", Ghost(g))
        .step(-765381600, -32400, 0, "YST", Ghost(g))
        .step(-147884400, -32400, 7200, "YDDT", Ghost(g))
        .step(-131554800, -32400, 0, "YST", Ghost(g))
        .step(120646800, -28800, 0, "PST", Ghost(g))
        .step(325677600, -28800, 3600, "PDT", Ghost(g))
        .step(341398800, -28800, 0, "PST", Ghost(g))
        .step(357127200, -28800, 3600, "PDT", Ghost(g))
        .step(372848400, -28800, 0, "PST", Ghost(g))
        .step(388576800, -28800, 3600, "PDT", Ghost(g))
        .step(404902800, -28800, 0, "PST", Ghost(g))
        .step(420026400, -28800, 3600, "PDT", Ghost(g))
        .step(436352400, -28800, 0, "PST", Ghost(g))
        .step(452080800, -28800, 3600, "PDT", Ghost(g))
        .step(467802000, -28800, 0, "PST", Ghost(g))
        .step(483530400, -28800, 3600, "PDT", Ghost(g))
        .step(499251600, -28800, 0, "PST", Ghost(g))
        .step(514980000, -28800, 3600, "PDT", Ghost(g))
        .step(530701200, -28800, 0, "PST", Ghost(g))
        .step(544615200, -28800, 3600, "PDT", Ghost(g))
        .step(562150800, -28800, 0, "PST", Ghost(g))
        .step(576064800, -28800, 3600, "PDT", Ghost(g))
        .step(594205200, -28800, 0, "PST", Ghost(g))
        .step(607514400, -28800, 3600, "PDT", Ghost(g))
        .step(625654800, -28800, 0, "PST", Ghost(g))
        .step(638964000, -28800, 3600, "PDT", Ghost(g))
        .step(657104400, -28800, 0, "PST", Ghost(g))
        .step(671018400, -28800, 3600, "PDT", Ghost(g))
        .step(688554000, -28800, 0, "PST", Ghost(g))
        .step(702468000, -28800, 3600, "PDT", Ghost(g))
        .step(720003600, -28800, 0, "PST", Ghost(g))
        .step(733917600, -28800, 3600, "PDT", Ghost(g))
        .step(752058000, -28800, 0, "PST", Ghost(g))
        .step(765367200, -28800, 3600, "PDT", Ghost(g))
        .step(783507600, -28800, 0, "PST", Ghost(g))
        .step(796816800, -28800, 3600, "PDT", Ghost(g))
        .step(814957200, -28800, 0, "PST", Ghost(g))
        .step(828871200, -28800, 3600, "PDT", Ghost(g))
        .step(846406800, -28800, 0, "PST", Ghost(g))
        .step(860320800, -28800, 3600, "PDT", Ghost(g))
        .step(877856400, -28800, 0, "PST", Ghost(g))
        .step(891770400, -28800, 3600, "PDT", Ghost(g))
        .step(909306000, -28800, 0, "PST", Ghost(g))
        .step(923220000, -28800, 3600, "PDT", Ghost(g))
        .step(941360400, -28800, 0, "PST", Ghost(g))
        .step(954669600, -28800, 3600, "PDT", Ghost(g))
        .step(972810000, -28800, 0, "PST", Ghost(g))
        .step(986119200, -28800, 3600, "PDT", Ghost(g))
        .step(1004259600, -28800, 0, "PST", Ghost(g))
        .step(1018173600, -28800, 3600, "PDT", Ghost(g))
        .step(1035709200, -28800, 0, "PST", Ghost(g))
        .step(1049623200, -28800, 3600, "PDT", Ghost(g))
        .step(1067158800, -28800, 0, "PST", Ghost(g))
        .step(1081072800, -28800, 3600, "PDT", Ghost(g))
        .step(1099213200, -28800, 0, "PST", Ghost(g))
        .step(1112522400, -28800, 3600, "PDT", Ghost(g))
        .step(1130662800, -28800, 0, "PST", Ghost(g))
        .step(1143972000, -28800, 3600, "PDT", Ghost(g))
        .step(1162112400, -28800, 0, "PST", Ghost(g))
        .step(1173607200, -28800, 3600, "PDT", Ghost(g))
        .step(1194166800, -28800, 0, "PST", Ghost(g))
        .step(1205056800, -28800, 3600, "PDT", Ghost(g))
        .step(1225616400, -28800, 0, "PST", Ghost(g))
        .step(1236506400, -28800, 3600, "PDT", Ghost(g))
        .step(1257066000, -28800, 0, "PST", Ghost(g))
        .step(1268560800, -28800, 3600, "PDT", Ghost(g))
        .step(1289120400, -28800, 0, "PST", Ghost(g))
        .step(1300010400, -28800, 3600, "PDT", Ghost(g))
        .step(1320570000, -28800, 0, "PST", Ghost(g))
        .step(1331460000, -28800, 3600, "PDT", Ghost(g))
        .step(1352019600, -28800, 0, "PST", Ghost(g))
        .step(1362909600, -28800, 3600, "PDT", Ghost(g))
        .step(1383469200, -28800, 0, "PST", Ghost(g))
        .step(1394359200, -28800, 3600, "PDT", Ghost(g))
        .step(1414918800, -28800, 0, "PST", Ghost(g))
        .step(1425808800, -28800, 3600, "PDT", Ghost(g))
        .step(1446368400, -28800, 0, "PST", Ghost(g))
        .step(1457863200, -28800, 3600, "PDT", Ghost(g))
        .step(1478422800, -28800, 0, "PST", Ghost(g))
        .step(1489312800, -28800, 3600, "PDT", Ghost(g))
        .step(1509872400, -28800, 0, "PST", Ghost(g))
        .step(1520762400, -28800, 3600, "PDT", Ghost(g))
        .step(1541322000, -28800, 0, "PST", Ghost(g))
        .step(1552212000, -28800, 3600, "PDT", Ghost(g))
        .step(1572771600, -28800, 0, "PST", Ghost(g))
        .step(1583661600, -28800, 3600, "PDT", Ghost(g))
        .step(1604214000, -25200, 0, "MST", Ghost(g))
        .finish(Ghost(g))
}

/// The zone `America/Dawson_Creek`.
pub fn dawson_creek() -> (r: Tz)
    ensures
        r.wf(),
        r.zone_name() == "America/Dawson_Creek"@,
        r.table() == tables::america::dawson_creek(),
{
    let ghost g = tables::america::dawson_creek_rows();
    FixedTimespanSet::begin("America/Dawson_Creek", -28856, 0, "LMT", Ghost(g))
        .step(-2713881544, -28800, 0, "PST", Ghost(g))
        .step(-1632060000, -28800, 3600, "PDT", Ghost(g))
        .step(-1615129200, -28800, 0, "PST", Ghost(g))
        .step(-880207200, -28800, 3600, "PWT", Ghost(g))
        .step(-769395600, -28800, 3600, "PPT", Ghost(g))
        .step(-765385200, -28800, 0, "PST", Ghost(g))
        .step(-715788000, -28800, 3600, "PDT", Ghost(g))
        .step(-702486000, -28800, 0, "PST", Ghost(g))
        .step(-684338400, -28800, 3600, "PDT", Ghost(g))
        .step(-671036400, -28800, 0, "PST", Ghost(g))
        .step(-652888800, -28800, 3600, "PDT", Ghost(g))
        .step(-639586800, -28800, 0, "PST", Ghost(g))
        .step(-620834400, -28800, 3600, "PDT", Ghost(g))
        .step(-608137200, -28800, 0, "PST", Ghost(g))
        .step(-589384800, -28800, 3600, "PDT", Ghost(g))
        .step(-576082800, -28800, 0, "PST", Ghost(g))
        .step(-557935200, -28800, 3600, "PDT", Ghost(g))
        .step(-544633200, -28800, 0, "PST", Ghost(g))
        .step(-526485600, -28800, 3600, "PDT", Ghost(g))
        .step(-513183600, -28800, 0, "PST", Ghost(g))
        .step(-495036000, -28800, 3600, "PDT", Ghost(g))
        .step(-481734000, -28800, 0, "PST", Ghost(g))
        .step(-463586400, -28800, 3600, "PDT", Ghost(g))
        .step(-450284400, -28800, 0, "PST", Ghost(g))
        .step(-431532000, -28800, 3600, "PDT", Ghost(g))
        .step(-418230000, -28800, 0, "PST", Ghost(g))
        .step(-400082400, -28800, 3600, "PDT", Ghost(g))
        .step(-386780400, -28800, 0, "PST", Ghost(g))
        .step(-368632800, -28800, 3600, "PDT", Ghost(g))
        .step(-355330800, -28800, 0, "PST", Ghost(g))
        .step(-337183200, -28800, 3600, "PDT", Ghost(g))
        .step(-323881200, -28800, 0, "PST", Ghost(g))
        .step(-305733600, -28800, 3600, "PDT", Ghost(g))
        .step(-292431600, -28800, 0, "PST", Ghost(g))
        .step(-273679200, -28800, 3600, "PDT", Ghost(g))
        .step(-260982000, -28800, 0, "PST", Ghost(g))
        .step(-242229600, -28800, 3600, "PDT", Ghost(g))
        .step(-226508400, -28800, 0, "PST", Ghost(g))
        .step(-210780000, -28800, 3600, "PDT", Ghost(g))
        .step(-195058800, -28800, 0, "PST", Ghost(g))
        .step(-179330400, -28800, 3600, "PDT", Ghost(g))
        .step(-163609200, -28800, 0, "PST", Ghost(g))
        .step(-147880800, -28800, 3600, "PDT", Ghost(g))
        .step(-131554800, -28800, 0, "PST", Ghost(g))
        .step(-116431200, -28800, 3600, "PDT", Ghost(g))
        .step(-100105200, -28800, 0, "PST", Ghost(g))
        .step(-84376800, -28800, 3600, "PDT", Ghost(g))
        .step(-68655600, -28800, 0, "PST", Ghost(g))
        .step(-52927200, -28800, 3600, "PDT", Ghost(g))
        .step(-37206000, -28800, 0, "PST", Ghost(g))
        .step(-21477600, -28800, 3600, "PDT", Ghost(g))
        .step(-5756400, -28800, 0, "PST", Ghost(g))
        .step(9972000, -28800, 3600, "PDT", Ghost(g))
        .step(25693200, -28800, 0, "PST", Ghost(g))
        .step(41421600, -28800, 3600, "PDT", Ghost(g))
        .step(57747600, -28800, 0, "PST", Ghost(g))
        .step(73476000, -28800, 3600, "PDT", Ghost(g))
        .step(84013200, -25200, 0, "MST", Ghost(g))
        .finish(Ghost(g))
}

/// The zone `America/Denver`.
pub fn denver() -> (r: Tz)
    ensures
        r.wf(),
        r.zone_name() == "America/Denver"@,
        r.table() == tables::america::denver(),
{
    let ghost g = tables::america::denver_rows();
    FixedTimespanSet::begin("America/Denver", -25196, 0, "LMT", Ghost(g))
        .step(-2717643600, -25200, 0, "MST", Ghost(g))
        .step(-1633273200, -25200, 3600, "MDT", Ghost(g))
        .step(-1615132800, -25200, 0, "MST", Ghost(g))
        .step(-1601823600, -25200, 3600, "MDT", Ghost(g))
        .step(-1583683200, -25200, 0, "MST", Ghost(g))
        .step(-1570374000, -25200, 3600, "MDT", Ghost(g))
        .step(-1551628800, -25200, 0, "MST", Ghost(g))
        .step(-1538924400, -25200, 3600, "MDT", Ghost(g))
        .step(-1534089600, -25200, 0, "MST", Ghost(g))
        .step(-880210800, -25200, 3600, "MWT", Ghost(g))
        .step(-769395600, -25200, 3600, "MPT", Ghost(g))
        .step(-765388800, -25200, 0, "MST", Ghost(g))
        .step(-147884400, -25200, 3600, "MDT", Ghost(g))
        .step(-131558400, -25200, 0, "MST", Ghost(g))
        .step(-116434800, -25200, 3600, "MDT", Ghost(g))
        .step(-100108800, -25200, 0, "MST", Ghost(g))
        .step(-84380400, -25200, 3600, "MDT", Ghost(g))
        .step(-68659200, -25200, 0, "MST", Ghost(g))
        .step(-52930800, -25200, 3600, "MDT", Ghost(g))
        .step(-37209600, -25200, 0, "MST", Ghost(g))
        .step(-21481200, -25200, 3600, "MDT", Ghost(g))
        .step(-5760000, -25200, 0, "MST", Ghost(g))
        .step(9968400, -25200, 3600, "MDT", Ghost(g))
        .step(25689600, -25200, 0, "MST", Ghost(g))
        .step(41418000, -25200, 3600, "MDT", Ghost(g))
        .step(57744000, -25200, 0, "MST", Ghost(g))
        .step(73472400, -25200, 3600, "MDT", Ghost(g))
        .step(89193600, -25200, 0, "MST", Ghost(g))
        .step(104922000, -25200, 3600, "MDT", Ghost(g))
        .step(120643200, -25200, 0, "MST", Ghost(g))
        .step(126694800, -25200, 3600, "MDT", Ghost(g))
        .step(152092800, -25200, 0, "MST", Ghost(g))
        .step(162378000, -25200, 3600, "MDT", Ghost(g))
        .step(183542400, -25200, 0, "MST", Ghost(g))
        .step(199270800, -25200, 3600, "MDT", Ghost(g))
        .step(215596800, -25200, 0, "MST", Ghost(g))
        .step(230720400, -25200, 3600, "MDT", Ghost(g))
        .step(247046400, -25200, 0, "MST", Ghost(g))
        .step(262774800, -25200, 3600, "MDT", Ghost(g))
        .step(278496000, -25200, 0, "MST", Ghost(g))
        .step(294224400, -25200, 3600, "MDT", Ghost(g))
        .step(309945600, -25200, 0, "MST", Ghost(g))
        .step(325674000, -25200, 3600, "MDT", Ghost(g))
        .step(341395200, -25200, 0, "MST", Ghost(g))
        .step(357123600, -25200, 3600, "MDT", Ghost(g))
        .step(372844800, -25200, 0, "MST", Ghost(g))
        .step(388573200, -25200, 3600, "MDT", Ghost(g))
        .step(404899200, -25200, 0, "MST", Ghost(g))
        .step(420022800, -25200, 3600, "MDT", Ghost(g))
        .step(436348800, -25200, 0, "MST", Ghost(g))
        .step(452077200, -25200, 3600, "MDT", Ghost(g))
        .step(467798400, -25200, 0, "MST", Ghost(g))
        .step(483526800, -25200, 3600, "MDT", Ghost(g))
        .step(499248000, -25200, 0, "MST", Ghost(g))
        .step(514976400, -25200, 3600, "MDT", Ghost(g))
        .step(530697600, -25200, 0, "MST", Ghost(g))
        .step(544611600, -25200, 3600, "MDT", Ghost(g))
        .step(562147200, -25200, 0, "MST", Ghost(g))
        .step(576061200, -25200, 3600, "MDT", Ghost(g))
        .step(594201600, -25200, 0, "MST", Ghost(g))
        .step(607510800, -25200, 3600, "MDT", Ghost(g))
        .step(625651200, -25200, 0, "MST", Ghost(g))
        .step(638960400, -25200, 3600, "MDT", Ghost(g))
        .step(657100800, -25200, 0, "MST", Ghost(g))
        .step(671014800, -25200, 3600, "MDT", Ghost(g))
        .step(688550400, -25200, 0, "MST", Ghost(g))
        .step(702464400, -25200, 3600, "MDT", Ghost(g))
        .step(720000000, -25200, 0, "MST", Ghost(g))
        .step(733914000, -25200, 3600, "MDT", Ghost(g))
        .step(752054400, -25200, 0, "MST", Ghost(g))
        .step(765363600, -25200, 3600, "MDT", Ghost(g))
        .step(783504000, -25200, 0, "MST", Ghost(g))
        .step(796813200, -25200, 3600, "MDT", Ghost(g))
        .step(814953600, -25200, 0, "MST", Ghost(g))
        .step(828867600, -25200, 3600, "MDT", Ghost(g))
        .step(846403200, -25200, 0, "MST", Ghost(g))
        .step(860317200, -25200, 3600, "MDT", Ghost(g))
        .step(877852800, -25200, 0, "MST", Ghost(g))
        .step(891766800, -25200, 3600, "MDT", Ghost(g))
        .step(909302400, -25200, 0, "MST", Ghost(g))
        .step(923216400, -25200, 3600, "MDT", Ghost(g))
        .step(941356800, -25200, 0, "MST", Ghost(g))
        .step(954666000, -25200, 3600, "MDT", Ghost(g))
        .step(972806400, -25200, 0, "MST", Ghost(g))
        .step(986115600, -25200, 3600, "MDT", Ghost(g))
        .step(1004256000, -25200, 0, "MST", Ghost(g))
        .step(1018170000, -25200, 3600, "MDT", Ghost(g))
        .step(1035705600, -25200, 0, "MST", Ghost(g))
        .step(1049619600, -25200, 3600, "MDT", Ghost(g))
        .step(1067155200, -25200, 0, "MST", Ghost(g))
        .step(1081069200, -25200, 3600, "MDT", Ghost(g))
        .step(1099209600, -25200, 0, "MST", Ghost(g))
        .step(1112518800, -25200, 3600, "MDT", Ghost(g))
        .step(1130659200, -25200, 0, "MST", Ghost(g))
        .step(1143968400, -25200, 3600, "MDT", Ghost(g))
        .step(1162108800, -25200, 0, "MST", Ghost(g))
        .step(1173603600, -25200, 3600, "MDT", Ghost(g))
        .step(1194163200, -25200, 0, "MST", Ghost(g))
        .step(1205053200, -25200, 3600, "MDT", Ghost(g))
        .step(1225612800, -25200, 0, "MST", Ghost(g))
        .step(1236502800, -25200, 3600, "MDT", Ghost(g))
        .step(1257062400, -25200, 0, "MST", Ghost(g))
        .step(1268557200, -25200, 3600, "MDT", Ghost(g))
        .step(1289116800, -25200, 0, "MST", Ghost(g))
        .step(1300006800, -25200, 3600, "MDT", Ghost(g))
        .step(1320566400, -25200, 0, "MST", Ghost(g))
        .step(1331456400, -25200, 3600, "MDT", Ghost(g))
        .step(1352016000, -25200, 0, "MST", Ghost(g))
        .step(1362906000, -25200, 3600, "MDT", Ghost(g))
        .step(1383465600, -25200, 0, "MST", Ghost(g))
        .step(1394355600, -25200, 3600, "MDT", Ghost(g))
        .step(1414915200, -25200, 0, "MST", Ghost(g))
        .step(1425805200, -25200, 3600, "MDT", Ghost(g))
        .step(1446364800, -25200, 0, "MST", Ghost(g))
        .step(1457859600, -25200, 3600, "MDT", Ghost(g))
        .step(1478419200, -25200, 0, "MST", Ghost(g))
        .step(1489309200, -25200, 3600, "MDT", Ghost(g))
        .step(1509868800, -25200, 0, "MST", Ghost(g))
        .step(1520758800, -25200, 3600, "MDT", Ghost(g))
        .step(1541318400, -25200, 0, "MST", Ghost(g))
        .step(1552208400, -25200, 3600, "MDT", Ghost(g))
        .step(1572768000, -25200, 0, "MST", Ghost(g))
        .step(1583658000, -25200, 3600, "MDT", Ghost(g))
        .step(1604217600, -25200, 0, "MST", Ghost(g))
        .step(1615712400, -25200, 3600, "MDT", Ghost(g))
        .step(1636272000, -25200, 0, "MST", Ghost(g))
        .step(1647162000, -25200, 3600, "MDT", Ghost(g))
        .step(1667721600, -25200, 0, "MST", Ghost(g))
        .step(1678611600, -25200, 3600, "MDT", Ghost(g))
        .step(1699171200, -25200, 0, "MST", Ghost(g))
        .step(1710061200, -25200, 3600, "MDT", Ghost(g))
        .step(1730620800, -25200, 0, "MST", Ghost(g))
        .step(1741510800, -25200, 3600, "MDT", Ghost(g))
        .step(1762070400, -25200, 0, "MST", Ghost(g))
        .step(1772960400, -25200, 3600, "MDT", Ghost(g))
        .step(1793520000, -25200, 0, "MST", Ghost(g))
        .step(1805014800, -25200, 3600, "MDT", Ghost(g))
        .step(1825574400, -25200, 0, "MST", Ghost(g))
        .step(1836464400, -25200, 3600, "MDT", Ghost(g))
        .step(1857024000, -25200, 0, "MST", Ghost(g))
        .step(1867914000, -25200, 3600, "MDT", Ghost(g))
        .step(1888473600, -25200, 0, "MST", Ghost(g))
        .step(1899363600, -25200, 3600, "MDT", Ghost(g))
        .step(1919923200, -25200, 0, "MST", Ghost(g))
        .step(1930813200, -25200, 3600, "MDT", Ghost(g))
        .step(1951372800, -25200, 0, "MST", Ghost(g))
        .step(1962867600, -25200, 3600, "MDT", Ghost(g))
        .step(1983427200, -25200, 0, "MST", Ghost(g))
        .step(1994317200, -25200, 3600, "MDT", Ghost(g))
        .step(2014876800, -25200, 0, "MST", Ghost(g))
        .step(2025766800, -25200, 3600, "MDT", Ghost(g))
        .step(2046326400, -25200, 0, "MST", Ghost(g))
        .step(2057216400, -25200, 3600, "MDT", Ghost(g))
        .step(2077776000, -25200, 0, "MST", Ghost(g))
        .step(2088666000, -25200, 3600, "MDT", Ghost(g))
        .step(2109225600, -25200, 0, "MST", Ghost(g))
        .step(2120115600, -25200, 3600, "MDT", Ghost(g))
        .step(2140675200, -25200, 0, "MST", Ghost(g))
        .finish(Ghost(g))
}

/// The zone `America/Detroit`.
pub fn detroit() -> (r: Tz)
    ensures
        r.wf(),
        r.zone_name() == "America/Detroit"@,
        r.table() == tables::america::detroit(),
{
    let ghost g = tables::america::detroit_rows();
    FixedTimespanSet::begin("America/Detroit", -19931, 0, "LMT", Ghost(g))
        .step(-2051202469, -21600, 0, "CST", Ghost(g))
        .step(-1724083200, -18000, 0, "EST", Ghost(g))
        .step(-880218000, -18000, 3600, "EWT", Ghost(g))
        .step(-769395600, -18000, 3600, "EPT", Ghost(g))
        .step(-765396000, -18000, 0, "EST", Ghost(g))
        .step(-684349200, -18000, 3600, "EDT", Ghost(g))
        .step(-671047200, -18000, 0, "EST", Ghost(g))
        .step(-80506740, -18000, 3600, "EDT", Ghost(g))
        .step(-68666400, -18000, 0, "EST", Ghost(g))
        .step(-52938000, -18000, 3600, "EDT", Ghost(g))
        .step(-37216800, -18000, 0, "EST", Ghost(g))
        .step(104914800, -18000, 3600, "EDT", Ghost(g))
        .step(120636000, -18000, 0, "EST", Ghost(g))
        .step(126687600, -18000, 3600, "EDT", Ghost(g))
        .step(152085600, -18000, 0, "EST", Ghost(g))
        .step(167814000, -18000, 3600, "EDT", Ghost(g))
        .step(183535200, -18000, 0, "EST", Ghost(g))
        .step(199263600, -18000, 3600, "EDT", Ghost(g))
        .step(215589600, -18000, 0, "EST", Ghost(g))
        .step(230713200, -18000, 3600, "EDT", Ghost(g))
        .step(247039200, -18000, 0, "EST", Ghost(g))
        .step(262767600, -18000, 3600, "EDT", Ghost(g))
        .step(278488800, -18000, 0, "EST", Ghost(g))
        .step(294217200, -18000, 3600, "EDT", Ghost(g))
        .step(309938400, -18000, 0, "EST", Ghost(g))
        .step(325666800, -18000, 3600, "EDT", Ghost(g))
        .step(341388000, -18000, 0, "EST", Ghost(g))
        .step(357116400, -18000, 3600, "EDT", Ghost(g))
        .step(372837600, -18000, 0, "EST", Ghost(g))
        .step(388566000, -18000, 3600, "EDT", Ghost(g))
        .step(404892000, -18000, 0, "EST", Ghost(g))
        .step(420015600, -18000, 3600, "EDT", Ghost(g))
        .step(436341600, -18000, 0, "EST", Ghost(g))
        .step(452070000, -18000, 3600, "EDT", Ghost(g))
        .step(467791200, -18000, 0, "EST", Ghost(g))
        .step(483519600, -18000, 3600, "EDT", Ghost(g))
        .step(499240800, -18000, 0, "EST", Ghost(g))
        .step(514969200, -18000, 3600, "EDT", Ghost(g))
        .step(530690400, -18000, 0, "EST", Ghost(g))
        .step(544604400, -18000, 3600, "EDT", Ghost(g))
        .step(562140000, -18000, 0, "EST", Ghost(g))
        .step(576054000, -18000, 3600, "EDT", Ghost(g))
        .step(594194400, -18000, 0, "EST", Ghost(g))
        .step(607503600, -18000, 3600, "EDT", Ghost(g))
        .step(625644000, -18000, 0, "EST", Ghost(g))
        .step(638953200, -18000, 3600, "EDT", Ghost(g))
        .step(657093600, -18000, 0, "EST", Ghost(g))
        .step(671007600, -18000, 3600, "EDT", Ghost(g))
        .step(688543200, -18000, 0, "EST", Ghost(g))
        .step(702457200, -18000, 3600, "EDT", Ghost(g))
        .step(719992800, -18000, 0, "EST", Ghost(g))
        .step(733906800, -18000, 3600, "EDT", Ghost(g))
        .step(752047200, -18000, 0, "EST", Ghost(g))
        .step(765356400, -18000, 3600, "EDT", Ghost(g))
        .step(783496800, -18000, 0, "EST", Ghost(g))
        .step(796806000, -18000, 3600, "EDT", Ghost(g))
        .step(814946400, -18000, 0, "EST", Ghost(g))
        .step(828860400, -18000, 3600, "EDT", Ghost(g))
        .step(846396000, -18000, 0, "EST", Ghost(g))
        .step(860310000, -18000, 3600, "EDT", Ghost(g))
        .step(877845600, -18000, 0, "EST", Ghost(g))
        .step(891759600, -18000, 3600, "EDT", Ghost(g))
        .step(909295200, -18000, 0, "EST", Ghost(g))
        .step(923209200, -18000, 3600, "EDT", Ghost(g))
        .step(941349600, -18000, 0, "EST", Ghost(g))
        .step(954658800, -18000, 3600, "EDT", Ghost(g))
        .step(972799200, -18000, 0, "EST", Ghost(g))
        .step(986108400, -18000, 3600, "EDT", Ghost(g))
        .step(1004248800, -18000, 0, "EST", Ghost(g))
        .step(1018162800, -18000, 3600, "EDT", Ghost(g))
        .step(1035698400, -18000, 0, "EST", Ghost(g))
        .step(1049612400, -18000, 3600, "EDT", Ghost(g))
        .step(1067148000, -18000, 0, "EST", Ghost(g))
        .step(1081062000, -18000, 3600, "EDT", Ghost(g))
        .step(1099202400, -18000, 0, "EST", Ghost(g))
        .step(1112511600, -18000, 3600, "EDT", Ghost(g))
        .step(1130652000, -18000, 0, "EST", Ghost(g))
        .step(1143961200, -18000, 3600, "EDT", Ghost(g))
        .step(1162101600, -18000, 0, "EST", Ghost(g))
        .step(1173596400, -18000, 3600, "EDT", Ghost(g))
        .step(1194156000, -18000, 0, "EST", Ghost(g))
        .step(1205046000, -18000, 3600, "EDT", Ghost(g))
        .step(1225605600, -18000, 0, "EST", Ghost(g))
        .step(1236495600, -18000, 3600, "EDT", Ghost(g))
        .step(1257055200, -18000, 0, "EST", Ghost(g))
        .step(1268550000, -18000, 3600, "EDT", Ghost(g))
        .step(1289109600, -18000, 0, "EST", Ghost(g))
        .step(1299999600, -18000, 3600, "EDT", Ghost(g))
        .step(1320559200, -18000, 0, "EST", Ghost(g))
        .step(1331449200, -18000, 3600, "EDT", Ghost(g))
        .step(1352008800, -18000, 0, "EST", Ghost(g))
        .step(1362898800, -18000, 3600, "EDT", Ghost(g))
        .step(1383458400, -18000, 0, "EST", Ghost(g))
        .step(1394348400, -18000, 3600, "EDT", Ghost(g))
        .step(1414908000, -18000, 0, "EST", Ghost(g))
        .step(1425798000, -18000, 3600, "EDT", Ghost(g))
        .step(1446357600, -18000, 0, "EST", Ghost(g))
        .step(1457852400, -18000, 3600, "EDT", Ghost(g))
        .step(1478412000, -18000, 0, "EST", Ghost(g))
        .step(1489302000, -18000, 3600, "EDT", Ghost(g))
        .step(1509861600, -18000, 0, "EST", Ghost(g))
        .step(1520751600, -18000, 3600, "EDT", Ghost(g))
        .step(1541311200, -18000, 0, "EST", Ghost(g))
        .step(1552201200, -18000, 3600, "EDT", Ghost(g))
        .step(1572760800, -18000, 0, "EST", Ghost(g))
        .step(1583650800, -18000, 3600, "EDT", Ghost(g))
        .step(1604210400, -18000, 0, "EST", Ghost(g))
        .step(1615705200, -18000, 3600, "EDT", Ghost(g))
        .step(1636264800, -18000, 0, "EST", Ghost(g))
        .step(1647154800, -18000, 3600, "EDT", Ghost(g))
        .step(1667714400, -18000, 0, "EST", Ghost(g))
        .step(1678604400, -18000, 3600, "EDT", Ghost(g))
        .step(1699164000, -18000, 0, "EST", Ghost(g))
        .step(1710054000, -18000, 3600, "EDT", Ghost(g))
        .step(1730613600, -18000, 0, "EST", Ghost(g))
        .step(1741503600, -18000, 3600, "EDT", Ghost(g))
        .step(1762063200, -18000, 0, "EST", Ghost(g))
        .step(1772953200, -18000, 3600, "EDT", Ghost(g))
        .step(1793512800, -18000, 0, "EST", Ghost(g))
        .step(1805007600, -18000, 3600, "EDT", Ghost(g))
        .step(1825567200, -18000, 0, "EST", Ghost(g))
        .step(1836457200, -18000, 3600, "EDT", Ghost(g))
        .step(1857016800, -18000, 0, "EST", Ghost(g))
        .step(1867906800, -18000, 3600, "EDT", Ghost(g))
        .step(1888466400, -18000, 0, "EST", Ghost(g))
        .step(1899356400, -18000, 3600, "EDT", Ghost(g))
        .step(1919916000, -18000, 0, "EST", Ghost(g))
        .step(1930806000, -18000, 3600, "EDT", Ghost(g))
        .step(1951365600, -18000, 0, "EST", Ghost(g))
        .step(1962860400, -18000, 3600, "EDT", Ghost(g))
        .step(1983420000, -18000, 0, "EST", Ghost(g))
        .step(1994310000, -18000, 3600, "EDT", Ghost(g))
        .step(2014869600, -18000, 0, "EST", Ghost(g))
        .step(2025759600, -18000, 3600, "EDT", Ghost(g))
        .step(2046319200, -18000, 0, "EST", Ghost(g))
        .step(2057209200, -18000, 3600, "EDT", Ghost(g))
        .step(2077768800, -18000, 0, "EST", Ghost(g))
        .step(2088658800, -18000, 3600, "EDT", Ghost(g))
        .step(2109218400, -18000, 0, "EST", Ghost(g))
        .step(2120108400, -18000, 3600, "EDT", Ghost(g))
        .step(2140668000, -18000, 0, "EST", Ghost(g))
        .finish(Ghost(g))
}

/// The zone `America/Dominica`.
pub fn dominica() -> (r: Tz)
    ensures
        r.wf(),
        r.zone_name() == "America/Dominica"@,
        r.table() == tables::america::dominica(),
{
    let ghost g = tables::america::dominica_rows();
    FixedTimespanSet::begin("America/Dominica", -14736, 0, "LMT", Ghost(g))
        .step(-1846266804, -14400, 0, "AST", Ghost(g))
        .finish(Ghost(g))
}

/// The zone `America/Edmonton`.
pub fn edmonton() -> (r: Tz)
    ensures
        r.wf(),
        r.zone_name() == "America/Edmonton"@,
        r.table() == tables::america::edmonton(),
{
    let ghost g = tables::america::edmonton_rows();
    FixedTimespanSet::begin("America/Edmonton", -27232, 0, "LMT", Ghost(g))
        .step(-1998663968, -25200, 0, "MST", Ghost(g))
        .step(-1632063600, -25200, 3600, "MDT", Ghost(g))
        .step(-1615132800, -25200, 0, "MST", Ghost(g))
        .step(-1600614000, -25200, 3600, "MDT", Ghost(g))
        .step(-1596816000, -25200, 0, "MST", Ghost(g))
        .step(-1567954800, -25200, 3600, "MDT", Ghost(g))
        .step(-1551628800, -25200, 0, "MST", Ghost(g))
        .step(-1536505200, -25200, 3600, "MDT", Ghost(g))
        .step(-1523203200, -25200, 0, "MST", Ghost(g))
        .step(-1504450800, -25200, 3600, "MDT", Ghost(g))
        .step(-1491753600, -25200, 0, "MST", Ghost(g))
        .step(-1473001200, -25200, 3600, "MDT", Ghost(g))
        .step(-1459699200, -25200, 0, "MST", Ghost(g))
        .step(-880210800, -25200, 3600, "MWT", Ghost(g))
        .step(-769395600, -25200, 3600, "MPT", Ghost(g))
        .step(-765388800, -25200, 0, "MST", Ghost(g))
        .step(-715791600, -25200, 3600, "MDT", Ghost(g))
        .step(-702489600, -25200, 0, "MST", Ghost(g))
        .step(73472400, -25200, 3600, "MDT", Ghost(g))
        .step(89193600, -25200, 0, "MST", Ghost(g))
        .step(104922000, -25200, 3600, "MDT", Ghost(g))
        .step(120643200, -25200, 0, "MST", Ghost(g))
        .step(136371600, -25200, 3600, "MDT", Ghost(g))
        .step(152092800, -25200, 0, "MST", Ghost(g))
        .step(167821200, -25200, 3600, "MDT", Ghost(g))
        .step(183542400, -25200, 0, "MST", Ghost(g))
        .step(199270800, -25200, 3600, "MDT", Ghost(g))
        .step(215596800, -25200, 0, "MST", Ghost(g))
        .step(230720400, -25200, 3600, "MDT", Ghost(g))
        .step(247046400, -25200, 0, "MST", Ghost(g))
        .step(262774800, -25200, 3600, "MDT", Ghost(g))
        .step(278496000, -25200, 0, "MST", Ghost(g))
        .step(294224400, -25200, 3600, "MDT", Ghost(g))
        .step(309945600, -25200, 0, "MST", Ghost(g))
        .step(325674000, -25200, 3600, "MDT", Ghost(g))
        .step(341395200, -25200, 0, "MST", Ghost(g))
        .step(357123600, -25200, 3600, "MDT", Ghost(g))
        .step(372844800, -25200, 0, "MST", Ghost(g))
        .step(388573200, -25200, 3600, "MDT", Ghost(g))
        .step(404899200, -25200, 0, "MST", Ghost(g))
        .step(420022800, -25200, 3600, "MDT", Ghost(g))
        .step(436348800, -25200, 0, "MST", Ghost(g))
        .step(452077200, -25200, 3600, "MDT", Ghost(g))
        .step(467798400, -25200, 0, "MST", Ghost(g))
        .step(483526800, -25200, 3600, "MDT", Ghost(g))
        .step(499248000, -25200, 0, "MST", Ghost(g))
        .step(514976400, -25200, 3600, "MDT", Ghost(g))
        .step(530697600, -25200, 0, "MST", Ghost(g))
        .step(544611600, -25200, 3600, "MDT", Ghost(g))
        .step(562147200, -25200, 0, "MST", Ghost(g))
        .step(576061200, -25200, 3600, "MDT", Ghost(g))
        .step(594201600, -25200, 0, "MST", Ghost(g))
        .step(607510800, -25200, 3600, "MDT", Ghost(g))
        .step(625651200, -25200, 0, "MST", Ghost(g))
        .step(638960400, -25200, 3600, "MDT", Ghost(g))
        .step(657100800, -25200, 0, "MST", Ghost(g))
        .step(671014800, -25200, 3600, "MDT", Ghost(g))
        .step(688550400, -25200, 0, "MST", Ghost(g))
        .step(702464400, -25200, 3600, "MDT", Ghost(g))
        .step(720000000, -25200, 0, "MST", Ghost(g))
        .step(733914000, -25200, 3600, "MDT", Ghost(g))
        .step(752054400, -25200, 0, "MST", Ghost(g))
        .step(765363600, -25200, 3600, "MDT", Ghost(g))
        .step(783504000, -25200, 0, "MST", Ghost(g))
        .step(796813200, -25200, 3600, "MDT", Ghost(g))
        .step(814953600, -25200, 0, "MST", Ghost(g))
        .step(828867600, -25200, 3600, "MDT", Ghost(g))
        .step(846403200, -25200, 0, "MST", Ghost(g))
        .step(860317200, -25200, 3600, "MDT", Ghost(g))
        .step(877852800, -25200, 0, "MST", Ghost(g))
        .step(891766800, -25200, 3600, "MDT", Ghost(g))
        .step(909302400, -25200, 0, "MST", Ghost(g))
        .step(923216400, -25200, 3600, "MDT", Ghost(g))
        .step(941356800, -25200, 0, "MST", Ghost(g))
        .step(954666000, -25200, 3600, "MDT", Ghost(g))
        .step(972806400, -25200, 0, "MST", Ghost(g))
        .step(986115600, -25200, 3600, "MDT", Ghost(g))
        .step(1004256000, -25200, 0, "MST", Ghost(g))
        .step(1018170000, -25200, 3600, "MDT", Ghost(g))
        .step(1035705600, -25200, 0, "MST", Ghost(g))
        .step(1049619600, -25200, 3600, "MDT", Ghost(g))
        .step(1067155200, -25200, 0, "MST", Ghost(g))
        .step(1081069200, -25200, 3600, "MDT", Ghost(g))
        .step(1099209600, -25200, 0, "MST", Ghost(g))
        .step(1112518800, -25200, 3600, "MDT", Ghost(g))
        .step(1130659200, -25200, 0, "MST", Ghost(g))
        .step(1143968400, -25200, 3600, "MDT", Ghost(g))
        .step(1162108800, -25200, 0, "MST", Ghost(g))
        .step(1173603600, -25200, 3600, "MDT", Ghost(g))
        .step(1194163200, -25200, 0, "MST", Ghost(g))
        .step(1205053200, -25200, 3600, "MDT", Ghost(g))
        .step(1225612800, -25200, 0, "MST", Ghost(g))
        .step(1236502800, -25200, 3600, "MDT", Ghost(g))
        .step(1257062400, -25200, 0, "MST", Ghost(g))
        .step(1268557200, -25200, 3600, "MDT", Ghost(g))
        .step(1289116800, -25200, 0, "MST", Ghost(g))
        .step(1300006800, -25200, 3600, "MDT", Ghost(g))
        .step(1320566400, -25200, 0, "MST", Ghost(g))
        .step(1331456400, -25200, 3600, "MDT", Ghost(g))
        .step(1352016000, -25200, 0, "MST", Ghost(g))
        .step(1362906000, -25200, 3600, "MDT", Ghost(g))
        .step(1383465600, -25200, 0, "MST", Ghost(g))
        .step(1394355600, -25200, 3600, "MDT", Ghost(g))
        .step(1414915200, -25200, 0, "MST", Ghost(g))
        .step(1425805200, -25200, 3600, "MDT", Ghost(g))
        .step(1446364800, -25200, 0, "MST", Ghost(g))
        .step(1457859600, -25200, 3600, "MDT", Ghost(g))
        .step(1478419200, -25200, 0, "MST", Ghost(g))
        .step(1489309200, -25200, 3600, "MDT", Ghost(g))
        .step(1509868800, -25200, 0, "MST", Ghost(g))
        .step(1520758800, -25200, 3600, "MDT", Ghost(g))
        .step(1541318400, -25200, 0, "MST", Ghost(g))
        .step(1552208400, -25200, 3600, "MDT", Ghost(g))
        .step(1572768000, -25200, 0, "MST", Ghost(g))
        .step(1583658000, -25200, 3600, "MDT", Ghost(g))
        .step(1604217600, -25200, 0, "MST", Ghost(g))
        .step(1615712400, -25200, 3600, "MDT", Ghost(g))
        .step(1636272000, -25200, 0, "MST", Ghost(g))
        .step(1647162000, -25200, 3600, "MDT", Ghost(g))
        .step(1667721600, -25200, 0, "MST", Ghost(g))
        .step(1678611600, -25200, 3600, "MDT", Ghost(g))
        .step(1699171200, -25200, 0, "MST", Ghost(g))
        .step(1710061200, -25200, 3600, "MDT", Ghost(g))
        .step(1730620800, -25200, 0, "MST", Ghost(g))
        .step(1741510800, -25200, 3600, "MDT", Ghost(g))
        .step(1762070400, -25200, 0, "MST", Ghost(g))
        .step(1772960400, -25200, 3600, "MDT", Ghost(g))
        .step(1793520000, -25200, 0, "MST", Ghost(g))
        .step(1805014800, -25200, 3600, "MDT", Ghost(g))
        .step(1825574400, -25200, 0, "MST", Ghost(g))
        .step(1836464400, -25200, 3600, "MDT", Ghost(g))
        .step(1857024000, -25200, 0, "MST", Ghost(g))
        .step(1867914000, -25200, 3600, "MDT", Ghost(g))
        .step(1888473600, -25200, 0, "MST", Ghost(g))
        .step(1899363600, -25200, 3600, "MDT", Ghost(g))
        .step(1919923200, -25200, 0, "MST", Ghost(g))
        .step(1930813200, -25200, 3600, "MDT", Ghost(g))
        .step(1951372800, -25200, 0, "MST", Ghost(g))
        .step(1962867600, -25200, 3600, "MDT", Ghost(g))
        .step(1983427200, -25200, 0, "MST", Ghost(g))
        .step(1994317200, -25200, 3600, "MDT", Ghost(g))
        .step(2014876800, -25200, 0, "MST", Ghost(g))
        .step(2025766800, -25200, 3600, "MDT", Ghost(g))
        .step(2046326400, -25200, 0, "MST", Ghost(g))
        .step(2057216400, -25200, 3600, "MDT", Ghost(g))
        .step(2077776000, -25200, 0, "MST", Ghost(g))
        .step(2088666000, -25200, 3600, "MDT", Ghost(g))
        .step(2109225600, -25200, 0, "MST", Ghost(g))
        .step(2120115600, -25200, 3600, "MDT", Ghost(g))
        .step(2140675200, -25200, 0, "MST", Ghost(g))
        .finish(Ghost(g))
}

/// The zone `America/Eirunepe`.
pub fn eirunepe() -> (r: Tz)
    ensures
        r.wf(),
        r.zone_name() == "America/Eirunepe"@,
        r.table() == tables::america::eirunepe(),
{
    let ghost g = tables::america::eirunepe_rows();
    FixedTimespanSet::begin("America/Eirunepe", -16768, 0, "LMT", Ghost(g))
        .step(-1767208832, -18000, 0, "-05", Ghost(g))
        .step(-1206950400, -18000, 3600, "-04", Ghost(g))
        .step(-1191355200, -18000, 0, "-05", Ghost(g))
        .step(-1175367600, -18000, 3600, "-04", Ghost(g))
        .step(-1159819200, -18000, 0, "-05", Ghost(g))
        .step(-633812400, -18000, 3600, "-04", Ghost(g))
        .step(-622062000, -18000, 0, "-05", Ghost(g))
        .step(-602276400, -18000, 3600, "-04", Ghost(g))
        .step(-591825600, -18000, 0, "-05", Ghost(g))
        .step(-570740400, -18000, 3600, "-04", Ghost(g))
        .step(-560203200, -18000, 0, "-05", Ghost(g))
        .step(-539118000, -18000, 3600, "-04", Ghost(g))
        .step(-531345600, -18000, 0, "-05", Ghost(g))
        .step(-191358000, -18000, 3600, "-04", Ghost(g))
        .step(-184190400, -18000, 0, "-05", Ghost(g))
        .step(-155156400, -18000, 3600, "-04", Ghost(g))
        .step(-150062400, -18000, 0, "-05", Ghost(g))
        .step(-128890800, -18000, 3600, "-04", Ghost(g))
        .step(-121118400, -18000, 0, "-05", Ghost(g))
        .step(-99946800, -18000, 3600, "-04", Ghost(g))
        .step(-89582400, -18000, 0, "-05", Ghost(g))
        .step(-68410800, -18000, 3600, "-04", Ghost(g))
        .step(-57960000, -18000, 0, "-05", Ghost(g))
        .step(499755600, -18000, 3600, "-04", Ghost(g))
        .step(511243200, -18000, 0, "-05", Ghost(g))
        .step(530600400, -18000, 3600, "-04", Ghost(g))
        .step(540273600, -18000, 0, "-05", Ghost(g))
        .step(562136400, -18000, 3600, "-04", Ghost(g))
        .step(571204800, -18000, 0, "-05", Ghost(g))
        .step(750834000, -18000, 3600, "-04", Ghost(g))
        .step(761716800, -18000, 0, "-05", Ghost(g))
        .step(1214283600, -14400, 0, "-04", Ghost(g))
        .step(1384056000, -18000, 0, "-05", Ghost(g))
        .step(2147483647, -18000, 0, "-05", Ghost(g))
        .finish(Ghost(g))
}

/// The zone `America/El_Salvador`.
pub fn el_salvador() -> (r: Tz)
    ensures
        r.wf(),
        r.zone_name() == "America/El_Salvador"@,
        r.table() == tables::america::el_salvador(),
{
    let ghost g = tables::america::el_salvador_rows();
    FixedTimespanSet::begin("America/El_Salvador", -21408, 0, "LMT", Ghost(g))
        .step(-1546279392, -21600, 0, "CST", Ghost(g))
        .step(547020000, -21600, 3600, "CDT", Ghost(g))
        .step(559717200, -21600, 0, "CST", Ghost(g))
        .step(578469600, -21600, 3600, "CDT", Ghost(g))
        .step(591166800, -21600, 0, "CST", Ghost(g))
        .finish(Ghost(g))
}

/// The zone `America/Ensenada`.
pub fn ensenada() -> (r: Tz)
    ensures
        r.wf(),
        r.zone_name() == "America/Ensenada"@,
        r.table() == tables::america::ensenada(),
{
    let ghost g = tables::america::ensenada_rows();
    FixedTimespanSet::begin("America/Ensenada", -28084, 0, "LMT", Ghost(g))
        .step(-1514739600, -25200, 0, "MST", Ghost(g))
        .step(-1451667600, -28800, 0, "PST", Ghost(g))
        .step(-1343145600, -25200, 0, "MST", Ghost(g))
        .step(-1234803600, -28800, 0, "PST", Ghost(g))
        .step(-1222963200, -28800, 3600, "PDT", Ghost(g))
        .step(-1207242000, -28800, 0, "PST", Ghost(g))
        .step(-873820800, -28800, 3600, "PWT", Ghost(g))
        .step(-769395600, -28800, 3600, "PPT", Ghost(g))
        .step(-761418000, -28800, 0, "PST", Ghost(g))
        .step(-686073600, -28800, 3600, "PDT", Ghost(g))
        .step(-661539600, -28800, 0, "PST", Ghost(g))
        .step(-620755200, -28800, 3600, "PDT", Ghost(g))
        .step(-608144400, -28800, 0, "PST", Ghost(g))
        .step(-589384800, -28800, 3600, "PDT", Ghost(g))
        .step(-576082800, -28800, 0, "PST", Ghost(g))
        .step(-557935200, -28800, 3600, "PDT", Ghost(g))
        .step(-544633200, -28800, 0, "PST", Ghost(g))
        .step(-495039600, -28800, 3600, "PDT", Ghost(g))
        .step(-481734000, -28800, 0, "PST", Ghost(g))
        .step(-463590000, -28800, 3600, "PDT", Ghost(g))
        .step(-450284400, -28800, 0, "PST", Ghost(g))
        .step(-431535600, -28800, 3600, "PDT", Ghost(g))
        .step(-418230000, -28800, 0, "PST", Ghost(g))
        .step(-400086000, -28800, 3600, "PDT", Ghost(g))
        .step(-386780400, -28800, 0, "PST", Ghost(g))
        .step(-368636400, -28800, 3600, "PDT", Ghost(g))
        .step(-355330800, -28800, 0, "PST", Ghost(g))
        .step(-337186800, -28800, 3600, "PDT", Ghost(g))
        .step(-323881200, -28800, 0, "PST", Ghost(g))
        .step(-305737200, -28800, 3600, "PDT", Ghost(g))
        .step(-292431600, -28800, 0, "PST", Ghost(g))
        .step(199274400, -28800, 3600, "PDT", Ghost(g))
        .step(215600400, -28800, 0, "PST", Ghost(g))
        .step(230724000, -28800, 3600, "PDT", Ghost(g))
        .step(247050000, -28800, 0, "PST", Ghost(g))
        .step(262778400, -28800, 3600, "PDT", Ghost(g))
        .step(278499600, -28800, 0, "PST", Ghost(g))
        .step(294228000, -28800, 3600, "PDT", Ghost(g))
        .step(309949200, -28800, 0, "PST", Ghost(g))
        .step(325677600, -28800, 3600, "PDT", Ghost(g))
        .step(341398800, -28800, 0, "PST", Ghost(g))
        .step(357127200, -28800, 3600, "PDT", Ghost(g))
        .step(372848400, -28800, 0, "PST", Ghost(g))
        .step(388576800, -28800, 3600, "PDT", Ghost(g))
        .step(404902800, -28800, 0, "PST", Ghost(g))
        .step(420026400, -28800, 3600, "PDT", Ghost(g))
        .step(436352400, -28800, 0, "PST", Ghost(g))
        .step(452080800, -28800, 3600, "PDT", Ghost(g))
        .step(467802000, -28800, 0, "PST", Ghost(g))
        .step(483530400, -28800, 3600, "PDT", Ghost(g))
        .step(499251600, -28800, 0, "PST", Ghost(g))
        .step(514980000, -28800, 3600, "PDT", Ghost(g))
        .step(530701200, -28800, 0, "PST", Ghost(g))
        .step(544615200, -28800, 3600, "PDT", Ghost(g))
        .step(562150800, -28800, 0, "PST", Ghost(g))
        .step(576064800, -28800, 3600, "PDT", Ghost(g))
        .step(594205200, -28800, 0, "PST", Ghost(g))
        .step(607514400, -28800, 3600, "PDT", Ghost(g))
        .step(625654800, -28800, 0, "PST", Ghost(g))
        .step(638964000, -28800, 3600, "PDT", Ghost(g))
        .step(657104400, -28800, 0, "PST", Ghost(g))
        .step(671018400, -28800, 3600, "PDT", Ghost(g))
        .step(688554000, -28800, 0, "PST", Ghost(g))
        .step(702468000, -28800, 3600, "PDT", Ghost(g))
        .step(720003600, -28800, 0, "PST", Ghost(g))
        .step(733917600, -28800, 3600, "PDT", Ghost(g))
        .step(752058000, -28800, 0, "PST", Ghost(g))
        .step(765367200, -28800, 3600, "PDT", Ghost(g))
        .step(783507600, -28800, 0, "PST", Ghost(g))
        .step(796816800, -28800, 3600, "PDT", Ghost(g))
        .step(814957200, -28800, 0, "PST", Ghost(g))
        .step(828871200, -28800, 3600, "PDT", Ghost(g))
        .step(846406800, -28800, 0, "PST", Ghost(g))
        .step(860320800, -28800, 3600, "PDT", Ghost(g))
        .step(877856400, -28800, 0, "PST", Ghost(g))
        .step(891770400, -28800, 3600, "PDT", Ghost(g))
        .step(909306000, -28800, 0, "PST", Ghost(g))
        .step(923220000, -28800, 3600, "PDT", Ghost(g))
        .step(941360400, -28800, 0, "PST", Ghost(g))
        .step(954669600, -28800, 3600, "PDT", Ghost(g))
        .step(972810000, -28800, 0, "PST", Ghost(g))
        .step(986119200, -28800, 3600, "PDT", Ghost(g))
        .step(1004259600, -28800, 0, "PST", Ghost(g))
        .step(1018173600, -28800, 3600, "PDT", Ghost(g))
        .step(1035709200, -28800, 0, "PST", Ghost(g))
        .step(1049623200, -28800, 3600, "PDT", Ghost(g))
        .step(1067158800, -28800, 0, "PST", Ghost(g))
        .step(1081072800, -28800, 3600, "PDT", Ghost(g))
        .step(1099213200, -28800, 0, "PST", Ghost(g))
        .step(1112522400, -28800, 3600, "PDT", Ghost(g))
        .step(1130662800, -28800, 0, "PST", Ghost(g))
        .step(1143972000, -28800, 3600, "PDT", Ghost(g))
        .step(1162112400, -28800, 0, "PST", Ghost(g))
        .step(1175421600, -28800, 3600, "PDT", Ghost(g))
        .step(1193562000, -28800, 0, "PST", Ghost(g))
        .step(1207476000, -28800, 3600, "PDT", Ghost(g))
        .step(1225011600, -28800, 0, "PST", Ghost(g))
        .step(1238925600, -28800, 3600, "PDT", Ghost(g))
        .step(1256461200, -28800, 0, "PST", Ghost(g))
        .step(1268560800, -28800, 3600, "PDT", Ghost(g))
        .step(1289120400, -28800, 0, "PST", Ghost(g))
        .step(1300010400, -28800, 3600, "PDT", Ghost(g))
        .step(1320570000, -28800, 0, "PST", Ghost(g))
        .step(1331460000, -28800, 3600, "PDT", Ghost(g))
        .step(1352019600, -28800, 0, "PST", Ghost(g))
        .step(1362909600, -28800, 3600, "PDT", Ghost(g))
        .step(1383469200, -28800, 0, "PST", Ghost(g))
        .step(1394359200, -28800, 3600, "PDT", Ghost(g))
        .step(1414918800, -28800, 0, "PST", Ghost(g))
        .step(1425808800, -28800, 3600, "PDT", Ghost(g))
        .step(1446368400, -28800, 0, "PST", Ghost(g))
        .step(1457863200, -28800, 3600, "PDT", Ghost(g))
        .step(1478422800, -28800, 0, "PST", Ghost(g))
        .step(1489312800, -28800, 3600, "PDT", Ghost(g))
        .step(1509872400, -28800, 0, "PST", Ghost(g))
        .step(1520762400, -28800, 3600, "PDT", Ghost(g))
        .step(1541322000, -28800, 0, "PST", Ghost(g))
        .step(1552212000, -28800, 3600, "PDT", Ghost(g))
        .step(1572771600, -28800, 0, "PST", Ghost(g))
        .step(1583661600, -28800, 3600, "PDT", Ghost(g))
        .step(1604221200, -28800, 0, "PST", Ghost(g))
        .step(1615716000, -28800, 3600, "PDT", Ghost(g))
        .step(1636275600, -28800, 0, "PST", Ghost(g))
        .step(1647165600, -28800, 3600, "PDT", Ghost(g))
        .step(1667725200, -28800, 0, "PST", Ghost(g))
        .step(1678615200, -28800, 3600, "PDT", Ghost(g))
        .step(1699174800, -28800, 0, "PST", Ghost(g))
        .step(1710064800, -28800, 3600, "PDT", Ghost(g))
        .step(1730624400, -28800, 0, "PST", Ghost(g))
        .step(1741514400, -28800, 3600, "PDT", Ghost(g))
        .step(1762074000, -28800, 0, "PST", Ghost(g))
        .step(1772964000, -28800, 3600, "PDT", Ghost(g))
        .step(1793523600, -28800, 0, "PST", Ghost(g))
        .step(1805018400, -28800, 3600, "PDT", Ghost(g))
        .step(1825578000, -28800, 0, "PST", Ghost(g))
        .step(1836468000, -28800, 3600, "PDT", Ghost(g))
        .step(1857027600, -28800, 0, "PST", Ghost(g))
        .step(1867917600, -28800, 3600, "PDT", Ghost(g))
        .step(1888477200, -28800, 0, "PST", Ghost(g))
        .step(1899367200, -28800, 3600, "PDT", Ghost(g))
        .step(1919926800, -28800, 0, "PST", Ghost(g))
        .step(1930816800, -28800, 3600, "PDT", Ghost(g))
        .step(1951376400, -28800, 0, "PST", Ghost(g))
        .step(1962871200, -28800, 3600, "PDT", Ghost(g))
        .step(1983430800, -28800, 0, "PST", Ghost(g))
        .step(1994320800, -28800, 3600, "PDT", Ghost(g))
        .step(2014880400, -28800, 0, "PST", Ghost(g))
        .step(2025770400, -28800, 3600, "PDT", Ghost(g))
        .step(2046330000, -28800, 0, "PST", Ghost(g))
        .step(2057220000, -28800, 3600, "PDT", Ghost(g))
        .step(2077779600, -28800, 0, "PST", Ghost(g))
        .step(2088669600, -28800, 3600, "PDT", Ghost(g))
        .step(2109229200, -28800, 0, "PST", Ghost(g))
        .step(2120119200, -28800, 3600, "PDT", Ghost(g))
        .step(2140678800, -28800, 0, "PST", Ghost(g))
        .finish(Ghost(g))
}

/// The zone `America/Fort_Nelson`.
pub fn fort_nelson() -> (r: Tz)
    ensures
        r.wf(),
        r.zone_name() == "America/Fort_Nelson"@,
        r.table() == tables::america::fort_nelson(),
{
    let ghost g = tables::america::fort_nelson_rows();
    FixedTimespanSet::begin("America/Fort_Nelson", -29447, 0, "LMT", Ghost(g))
        .step(-2713880953, -28800, 0, "PST", Ghost(g))
        .step(-1632060000, -28800, 3600, "PDT", Ghost(g))
        .step(-1615129200, -28800, 0, "PST", Ghost(g))
        .step(-880207200, -28800, 3600, "PWT", Ghost(g))
        .step(-769395600, -28800, 3600, "PPT", Ghost(g))
        .step(-765385200, -28800, 0, "PST", Ghost(g))
        .step(-715788000, -28800, 3600, "PDT", Ghost(g))
        .step(-702486000, -28800, 0, "PST", Ghost(g))
        .step(-684338400, -28800, 3600, "PDT", Ghost(g))
        .step(-671036400, -28800, 0, "PST", Ghost(g))
        .step(-652888800, -28800, 3600, "PDT", Ghost(g))
        .step(-639586800, -28800, 0, "PST", Ghost(g))
        .step(-620834400, -28800, 3600, "PDT", Ghost(g))
        .step(-608137200, -28800, 0, "PST", Ghost(g))
        .step(-589384800, -28800, 3600, "PDT", Ghost(g))
        .step(-576082800, -28800, 0, "PST", Ghost(g))
        .step(-557935200, -28800, 3600, "PDT", Ghost(g))
        .step(-544633200, -28800, 0, "PST", Ghost(g))
        .step(-526485600, -28800, 3600, "PDT", Ghost(g))
        .step(-513183600, -28800, 0, "PST", Ghost(g))
        .step(-495036000, -28800, 3600, "PDT", Ghost(g))
        .step(-481734000, -28800, 0, "PST", Ghost(g))
        .step(-463586400, -28800, 3600, "PDT", Ghost(g))
        .step(-450284400, -28800, 0, "PST", Ghost(g))
        .step(-431532000, -28800, 3600, "PDT", Ghost(g))
        .step(-418230000, -28800, 0, "PST", Ghost(g))
        .step(-400082400, -28800, 3600, "PDT", Ghost(g))
        .step(-386780400, -28800, 0, "PST", Ghost(g))
        .step(-368632800, -28800, 3600, "PDT", Ghost(g))
        .step(-355330800, -28800, 0, "PST", Ghost(g))
        .step(-337183200, -28800, 3600, "PDT", Ghost(g))
        .step(-323881200, -28800, 0, "PST", Ghost(g))
        .step(-305733600, -28800, 3600, "PDT", Ghost(g))
        .step(-292431600, -28800, 0, "PST", Ghost(g))
        .step(-273679200, -28800, 3600, "PDT", Ghost(g))
        .step(-260982000, -28800, 0, "PST", Ghost(g))
        .step(-242229600, -28800, 3600, "PDT", Ghost(g))
        .step(-226508400, -28800, 0, "PST", Ghost(g))
        .step(-210780000, -28800, 3600, "PDT", Ghost(g))
        .step(-195058800, -28800, 0, "PST", Ghost(g))
        .step(-179330400, -28800, 3600, "PDT", Ghost(g))
        .step(-163609200, -28800, 0, "PST", Ghost(g))
        .step(-147880800, -28800, 3600, "PDT", Ghost(g))
        .step(-131554800, -28800, 0, "PST", Ghost(g))
        .step(-116431200, -28800, 3600, "PDT", Ghost(g))
        .step(-100105200, -28800, 0, "PST", Ghost(g))
        .step(-84376800, -28800, 3600, "PDT", Ghost(g))
        .step(-68655600, -28800, 0, "PST", Ghost(g))
        .step(-52927200, -28800, 3600, "PDT", Ghost(g))
        .step(-37206000, -28800, 0, "PST", Ghost(g))
        .step(-21477600, -28800, 3600, "PDT", Ghost(g))
        .step(-5756400, -28800, 0, "PST", Ghost(g))
        .step(9972000, -28800, 3600, "PDT", Ghost(g))
        .step(25693200, -28800, 0, "PST", Ghost(g))
        .step(41421600, -28800, 3600, "PDT", Ghost(g))
        .step(57747600, -28800, 0, "PST", Ghost(g))
        .step(73476000, -28800, 3600, "PDT", Ghost(g))
        .step(89197200, -28800, 0, "PST", Ghost(g))
        .step(104925600, -28800, 3600, "PDT", Ghost(g))
        .step(120646800, -28800, 0, "PST", Ghost(g))
        .step(136375200, -28800, 3600, "PDT", Ghost(g))
        .step(152096400, -28800, 0, "PST", Ghost(g))
        .step(167824800, -28800, 3600, "PDT", Ghost(g))
        .step(183546000, -28800, 0, "PST", Ghost(g))
        .step(199274400, -28800, 3600, "PDT", Ghost(g))
        .step(215600400, -28800, 0, "PST", Ghost(g))
        .step(230724000, -28800, 3600, "PDT", Ghost(g))
        .step(247050000, -28800, 0, "PST", Ghost(g))
        .step(262778400, -28800, 3600, "PDT", Ghost(g))
        .step(278499600, -28800, 0, "PST", Ghost(g))
        .step(294228000, -28800, 3600, "PDT", Ghost(g))
        .step(309949200, -28800, 0, "PST", Ghost(g))
        .step(325677600, -28800, 3600, "PDT", Ghost(g))
        .step(341398800, -28800, 0, "PST", Ghost(g))
        .step(357127200, -28800, 3600, "PDT", Ghost(g))
        .step(372848400, -28800, 0, "PST", Ghost(g))
        .step(388576800, -28800, 3600, "PDT", Ghost(g))
        .step(404902800, -28800, 0, "PST", Ghost(g))
        .step(420026400, -28800, 3600, "PDT", Ghost(g))
        .step(436352400, -28800, 0, "PST", Ghost(g))
        .step(452080800, -28800, 3600, "PDT", Ghost(g))
        .step(467802000, -28800, 0, "PST", Ghost(g))
        .step(483530400, -28800, 3600, "PDT", Ghost(g))
        .step(499251600, -28800, 0, "PST", Ghost(g))
        .step(514980000, -28800, 3600, "PDT", Ghost(g))
        .step(530701200, -28800, 0, "PST", Ghost(g))
        .step(544615200, -28800, 3600, "PDT", Ghost(g))
        .step(562150800, -28800, 0, "PST", Ghost(g))
        .step(576064800, -28800, 3600, "PDT", Ghost(g))
        .step(594205200, -28800, 0, "PST", Ghost(g))
        .step(607514400, -28800, 3600, "PDT", Ghost(g))
        .step(625654800, -28800, 0, "PST", Ghost(g))
        .step(638964000, -28800, 3600, "PDT", Ghost(g))
        .step(657104400, -28800, 0, "PST", Ghost(g))
        .step(671018400, -28800, 3600, "PDT", Ghost(g))
        .step(688554000, -28800, 0, "PST", Ghost(g))
        .step(702468000, -28800, 3600, "PDT", Ghost(g))
        .step(720003600, -28800, 0, "PST", Ghost(g))
        .step(733917600, -28800, 3600, "PDT", Ghost(g))
        .step(752058000, -28800, 0, "PST", Ghost(g))
        .step(765367200, -28800, 3600, "PDT", Ghost(g))
        .step(783507600, -28800, 0, "PST", Ghost(g))
        .step(796816800, -28800, 3600, "PDT", Ghost(g))
        .step(814957200, -28800, 0, "PST", Ghost(g))
        .step(828871200, -28800, 3600, "PDT", Ghost(g))
        .step(846406800, -28800, 0, "PST", Ghost(g))
        .step(860320800, -28800, 3600, "PDT", Ghost(g))
        .step(877856400, -28800, 0, "PST", Ghost(g))
        .step(891770400, -28800, 3600, "PDT", Ghost(g))
        .step(909306000, -28800, 0, "PST", Ghost(g))
        .step(923220000, -28800, 3600, "PDT", Ghost(g))
        .step(941360400, -28800, 0, "PST", Ghost(g))
        .step(954669600, -28800, 3600, "PDT", Ghost(g))
        .step(972810000, -28800, 0, "PST", Ghost(g))
        .step(986119200, -28800, 3600, "PDT", Ghost(g))
        .step(1004259600, -28800, 0, "PST", Ghost(g))
        .step(1018173600, -28800, 3600, "PDT", Ghost(g))
        .step(1035709200, -28800, 0, "PST", Ghost(g))
        .step(1049623200, -28800, 3600, "PDT", Ghost(g))
        .step(1067158800, -28800, 0, "PST", Ghost(g))
        .step(1081072800, -28800, 3600, "PDT", Ghost(g))
        .step(1099213200, -28800, 0, "PST", Ghost(g))
        .step(1112522400, -28800, 3600, "PDT", Ghost(g))
        .step(1130662800, -28800, 0, "PST", Ghost(g))
        .step(1143972000, -28800, 3600, "PDT", Ghost(g))
        .step(1162112400, -28800, 0, "PST", Ghost(g))
        .step(1173607200, -28800, 3600, "PDT", Ghost(g))
        .step(1194166800, -28800, 0, "PST", Ghost(g))
        .step(1205056800, -28800, 3600, "PDT", Ghost(g))
        .step(1225616400, -28800, 0, "PST", Ghost(g))
        .step(1236506400, -28800, 3600, "PDT", Ghost(g))
        .step(1257066000, -28800, 0, "PST", Ghost(g))
        .step(1268560800, -28800, 3600, "PDT", Ghost(g))
        .step(1289120400, -28800, 0, "PST", Ghost(g))
        .step(1300010400, -28800, 3600, "PDT", Ghost(g))
        .step(1320570000, -28800, 0, "PST", Ghost(g))
        .step(1331460000, -28800, 3600, "PDT", Ghost(g))
        .step(1352019600, -28800, 0, "PST", Ghost(g))
        .step(1362909600, -28800, 3600, "PDT", Ghost(g))
        .step(1383469200, -28800, 0, "PST", Ghost(g))
        .step(1394359200, -28800, 3600, "PDT", Ghost(g))
        .step(1414918800, -28800, 0, "PST", Ghost(g))
        .step(1425808800, -25200, 0, "MST", Ghost(g))
        .finish(Ghost(g))
}

/// The zone `America/Fort_Wayne`.
pub fn fort_wayne() -> (r: Tz)
    ensures
        r.wf(),
        r.zone_name() == "America/Fort_Wayne"@,
        r.table() == tables::america::fort_wayne(),
{
    let ghost g = tables::america::fort_wayne_rows();
    FixedTimespanSet::begin("America/Fort_Wayne", -20678, 0, "LMT", Ghost(g))
        .step(-2717647200, -21600, 0, "CST", Ghost(g))
        .step(-1633276800, -21600, 3600, "CDT", Ghost(g))
        .step(-1615136400, -21600, 0, "CST", Ghost(g))
        .step(-1601827200, -21600, 3600, "CDT", Ghost(g))
        .step(-1583686800, -21600, 0, "CST", Ghost(g))
        .step(-900259200, -21600, 3600, "CDT", Ghost(g))
        .step(-891795600, -21600, 0, "CST", Ghost(g))
        .step(-880214400, -21600, 3600, "CWT", Ghost(g))
        .step(-769395600, -21600, 3600, "CPT", Ghost(g))
        .step(-765392400, -21600, 0, "CST", Ghost(g))
        .step(-747244800, -21600, 3600, "CDT", Ghost(g))
        .step(-733942800, -21600, 0, "CST", Ghost(g))
        .step(-715795200, -21600, 3600, "CDT", Ghost(g))
        .step(-702493200, -21600, 0, "CST", Ghost(g))
        .step(-684345600, -21600, 3600, "CDT", Ghost(g))
        .step(-671043600, -21600, 0, "CST", Ghost(g))
        .step(-652896000, -21600, 3600, "CDT", Ghost(g))
        .step(-639594000, -21600, 0, "CST", Ghost(g))
        .step(-620841600, -21600, 3600, "CDT", Ghost(g))
        .step(-608144400, -21600, 0, "CST", Ghost(g))
        .step(-589392000, -21600, 3600, "CDT", Ghost(g))
        .step(-576090000, -21600, 0, "CST", Ghost(g))
        .step(-557942400, -21600, 3600, "CDT", Ghost(g))
        .step(-544640400, -21600, 0, "CST", Ghost(g))
        .step(-526492800, -21600, 3600, "CDT", Ghost(g))
        .step(-513190800, -21600, 0, "CST", Ghost(g))
        .step(-495043200, -21600, 3600, "CDT", Ghost(g))
        .step(-481741200, -21600, 0, "CST", Ghost(g))
        .step(-463593600, -18000, 0, "EST", Ghost(g))
        .step(-386787600, -21600, 0, "CST", Ghost(g))
        .step(-368640000, -18000, 0, "EST", Ghost(g))
        .step(-21488400, -18000, 3600, "EDT", Ghost(g))
        .step(-5767200, -18000, 0, "EST", Ghost(g))
        .step(9961200, -18000, 3600, "EDT", Ghost(g))
        .step(25682400, -18000, 0, "EST", Ghost(g))
        .step(1143961200, -18000, 3600, "EDT", Ghost(g))
        .step(1162101600, -18000, 0, "EST", Ghost(g))
        .step(1173596400, -18000, 3600, "EDT", Ghost(g))
        .step(1194156000, -18000, 0, "EST", Ghost(g))
        .step(1205046000, -18000, 3600, "EDT", Ghost(g))
        .step(1225605600, -18000, 0, "EST", Ghost(g))
        .step(1236495600, -18000, 3600, "EDT", Ghost(g))
        .step(1257055200, -18000, 0, "EST", Ghost(g))
        .step(1268550000, -18000, 3600, "EDT", Ghost(g))
        .step(1289109600, -18000, 0, "EST", Ghost(g))
        .step(1299999600, -18000, 3600, "EDT", Ghost(g))
        .step(1320559200, -18000, 0, "EST", Ghost(g))
        .step(1331449200, -18000, 3600, "EDT", Ghost(g))
        .step(1352008800, -18000, 0, "EST", Ghost(g))
        .step(1362898800, -18000, 3600, "EDT", Ghost(g))
        .step(1383458400, -18000, 0, "EST", Ghost(g))
        .step(1394348400, -18000, 3600, "EDT", Ghost(g))
        .step(1414908000, -18000, 0, "EST", Ghost(g))
        .step(1425798000, -18000, 3600, "EDT", Ghost(g))
        .step(1446357600, -18000, 0, "EST", Ghost(g))
        .step(1457852400, -18000, 3600, "EDT", Ghost(g))
        .step(1478412000, -18000, 0, "EST", Ghost(g))
        .step(1489302000, -18000, 3600, "EDT", Ghost(g))
        .step(1509861600, -18000, 0, "EST", Ghost(g))
        .step(1520751600, -18000, 3600, "EDT", Ghost(g))
        .step(1541311200, -18000, 0, "EST", Ghost(g))
        .step(1552201200, -18000, 3600, "EDT", Ghost(g))
        .step(1572760800, -18000, 0, "EST", Ghost(g))
        .step(1583650800, -18000, 3600, "EDT", Ghost(g))
        .step(1604210400, -18000, 0, "EST", Ghost(g))
        .step(1615705200, -18000, 3600, "EDT", Ghost(g))
        .step(1636264800, -18000, 0, "EST", Ghost(g))
        .step(1647154800, -18000, 3600, "EDT", Ghost(g))
        .step(1667714400, -18000, 0, "EST", Ghost(g))
        .step(1678604400, -18000, 3600, "EDT", Ghost(g))
        .step(1699164000, -18000, 0, "EST", Ghost(g))
        .step(1710054000, -18000, 3600, "EDT", Ghost(g))
        .step(1730613600, -18000, 0, "EST", Ghost(g))
        .step(1741503600, -18000, 3600, "EDT", Ghost(g))
        .step(1762063200, -18000, 0, "EST", Ghost(g))
        .step(1772953200, -18000, 3600, "EDT", Ghost(g))
        .step(1793512800, -18000, 0, "EST", Ghost(g))
        .step(1805007600, -18000, 3600, "EDT", Ghost(g))
        .step(1825567200, -18000, 0, "EST", Ghost(g))
        .step(1836457200, -18000, 3600, "EDT", Ghost(g))
        .step(1857016800, -18000, 0, "EST", Ghost(g))
        .step(1867906800, -18000, 3600, "EDT", Ghost(g))
        .step(1888466400, -18000, 0, "EST", Ghost(g))
        .step(1899356400, -18000, 3600, "EDT", Ghost(g))
        .step(1919916000, -18000, 0, "EST", Ghost(g))
        .step(1930806000, -18000, 3600, "EDT", Ghost(g))
        .step(1951365600, -18000, 0, "EST", Ghost(g))
        .step(1962860400, -18000, 3600, "EDT", Ghost(g))
        .step(1983420000, -18000, 0, "EST", Ghost(g))
        .step(1994310000, -18000, 3600, "EDT", Ghost(g))
        .step(2014869600, -18000, 0, "EST", Ghost(g))
        .step(2025759600, -18000, 3600, "EDT", Ghost(g))
        .step(2046319200, -18000, 0, "EST", Ghost(g))
        .step(2057209200, -18000, 3600, "EDT", Ghost(g))
        .step(2077768800, -18000, 0, "EST", Ghost(g))
        .step(2088658800, -18000, 3600, "EDT", Ghost(g))
        .step(2109218400, -18000, 0, "EST", Ghost(g))
        .step(2120108400, -18000, 3600, "EDT", Ghost(g))
        .step(2140668000, -18000, 0, "EST", Ghost(g))
        .finish(Ghost(g))
}

/// The zone `America/Fortaleza`.
pub fn fortaleza() -> (r: Tz)
    ensures
        r.wf(),
        r.zone_name() == "America/Fortaleza"@,
        r.table() == tables::america::fortaleza(),
{
    let ghost g = tables::america::fortaleza_rows();
    FixedTimespanSet::begin("America/Fortaleza", -9240, 0, "LMT", Ghost(g))
        .step(-1767216360, -10800, 0, "-03", Ghost(g))
        .step(-1206957600, -10800, 3600, "-02", Ghost(g))
        .step(-1191362400, -10800, 0, "-03", Ghost(g))
        .step(-1175374800, -10800, 3600, "-02", Ghost(g))
        .step(-1159826400, -10800, 0, "-03", Ghost(g))
        .step(-633819600, -10800, 3600, "-02", Ghost(g))
        .step(-622069200, -10800, 0, "-03", Ghost(g))
        .step(-602283600, -10800, 3600, "-02", Ghost(g))
        .step(-591832800, -10800, 0, "-03", Ghost(g))
        .step(-570747600, -10800, 3600, "-02", Ghost(g))
        .step(-560210400, -10800, 0, "-03", Ghost(g))
        .step(-539125200, -10800, 3600, "-02", Ghost(g))
        .step(-531352800, -10800, 0, "-03", Ghost(g))
        .step(-191365200, -10800, 3600, "-02", Ghost(g))
        .step(-184197600, -10800, 0, "-03", Ghost(g))
        .step(-155163600, -10800, 3600, "-02", Ghost(g))
        .step(-150069600, -10800, 0, "-03", Ghost(g))
        .step(-128898000, -10800, 3600, "-02", Ghost(g))
        .step(-121125600, -10800, 0, "-03", Ghost(g))
        .step(-99954000, -10800, 3600, "-02", Ghost(g))
        .step(-89589600, -10800, 0, "-03", Ghost(g))
        .step(-68418000, -10800, 3600, "-02", Ghost(g))
        .step(-57967200, -10800, 0, "-03", Ghost(g))
        .step(499748400, -10800, 3600, "-02", Ghost(g))
        .step(511236000, -10800, 0, "-03", Ghost(g))
        .step(530593200, -10800, 3600, "-02", Ghost(g))
        .step(540266400, -10800, 0, "-03", Ghost(g))
        .step(562129200, -10800, 3600, "-02", Ghost(g))
        .step(571197600, -10800, 0, "-03", Ghost(g))
        .step(592974000, -10800, 3600, "-02", Ghost(g))
        .step(602042400, -10800, 0, "-03", Ghost(g))
        .step(624423600, -10800, 3600, "-02", Ghost(g))
        .step(634701600, -10800, 0, "-03", Ghost(g))
        .step(938919600, -10800, 3600, "-02", Ghost(g))
        .step(951616800, -10800, 0, "-03", Ghost(g))
        .step(970974000, -10800, 3600, "-02", Ghost(g))
        .step(972180000, -10800, 0, "-03", Ghost(g))
        .step(1003028400, -10800, 3600, "-02", Ghost(g))
        .step(1013911200, -10800, 0, "-03", Ghost(g))
        .step(2147483647, -10800, 0, "-03", Ghost(g))
        .finish(Ghost(g))
}

/// The zone `America/Glace_Bay`.
pub fn glace_bay() -> (r: Tz)
    ensures
        r.wf(),
        r.zone_name() == "America/Glace_Bay"@,
        r.table() == tables::america::glace_bay(),
{
    let ghost g = tables::america::glace_bay_rows();
    FixedTimespanSet::begin("America/Glace_Bay", -14388, 0, "LMT", Ghost(g))
        .step(-2131646412, -14400, 0, "AST", Ghost(g))
        .step(-1632074400, -14400, 3600, "ADT", Ghost(g))
        .step(-1615143600, -14400, 0, "AST", Ghost(g))
        .step(-880221600, -14400, 3600, "AWT", Ghost(g))
        .step(-769395600, -14400, 3600, "APT", Ghost(g))
        .step(-765399600, -14400, 0, "AST", Ghost(g))
        .step(-526500000, -14400, 3600, "ADT", Ghost(g))
        .step(-513198000, -14400, 0, "AST", Ghost(g))
        .step(73461600, -14400, 3600, "ADT", Ghost(g))
        .step(89182800, -14400, 0, "AST", Ghost(g))
        .step(104911200, -14400, 3600, "ADT", Ghost(g))
        .step(120632400, -14400, 0, "AST", Ghost(g))
        .step(136360800, -14400, 3600, "ADT", Ghost(g))
        .step(152082000, -14400, 0, "AST", Ghost(g))
        .step(167810400, -14400, 3600, "ADT", Ghost(g))
        .step(183531600, -14400, 0, "AST", Ghost(g))
        .step(199260000, -14400, 3600, "ADT", Ghost(g))
        .step(215586000, -14400, 0, "AST", Ghost(g))
        .step(230709600, -14400, 3600, "ADT", Ghost(g))
        .step(247035600, -14400, 0, "AST", Ghost(g))
        .step(262764000, -14400, 3600, "ADT", Ghost(g))
        .step(278485200, -14400, 0, "AST", Ghost(g))
        .step(294213600, -14400, 3600, "ADT", Ghost(g))
        .step(309934800, -14400, 0, "AST", Ghost(g))
        .step(325663200, -14400, 3600, "ADT", Ghost(g))
        .step(341384400, -14400, 0, "AST", Ghost(g))
        .step(357112800, -14400, 3600, "ADT", Ghost(g))
        .step(372834000, -14400, 0, "AST", Ghost(g))
        .step(388562400, -14400, 3600, "ADT", Ghost(g))
        .step(404888400, -14400, 0, "AST", Ghost(g))
        .step(420012000, -14400, 3600, "ADT", Ghost(g))
        .step(436338000, -14400, 0, "AST", Ghost(g))
        .step(452066400, -14400, 3600, "ADT", Ghost(g))
        .step(467787600, -14400, 0, "AST", Ghost(g))
        .step(483516000, -14400, 3600, "ADT", Ghost(g))
        .step(499237200, -14400, 0, "AST", Ghost(g))
        .step(514965600, -14400, 3600, "ADT", Ghost(g))
        .step(530686800, -14400, 0, "AST", Ghost(g))
        .step(544600800, -14400, 3600, "ADT", Ghost(g))
        .step(562136400, -14400, 0, "AST", Ghost(g))
        .step(576050400, -14400, 3600, "ADT", Ghost(g))
        .step(594190800, -14400, 0, "AST", Ghost(g))
        .step(607500000, -14400, 3600, "ADT", Ghost(g))
        .step(625640400, -14400, 0, "AST", Ghost(g))
        .step(638949600, -14400, 3600, "ADT", Ghost(g))
        .step(657090000, -14400, 0, "AST", Ghost(g))
        .step(671004000, -14400, 3600, "ADT", Ghost(g))
        .step(688539600, -14400, 0, "AST", Ghost(g))
        .step(702453600, -14400, 3600, "ADT", Ghost(g))
        .step(719989200, -14400, 0, "AST", Ghost(g))
        .step(733903200, -14400, 3600, "ADT", Ghost(g))
        .step(752043600, -14400, 0, "AST", Ghost(g))
        .step(765352800, -14400, 3600, "ADT", Ghost(g))
        .step(783493200, -14400, 0, "AST", Ghost(g))
        .step(796802400, -14400, 3600, "ADT", Ghost(g))
        .step(814942800, -14400, 0, "AST", Ghost(g))
        .step(828856800, -14400, 3600, "ADT", Ghost(g))
        .step(846392400, -14400, 0, "AST", Ghost(g))
        .step(860306400, -14400, 3600, "ADT", Ghost(g))
        .step(877842000, -14400, 0, "AST", Ghost(g))
        .step(891756000, -14400, 3600, "ADT", Ghost(g))
        .step(909291600, -14400, 0, "AST", Ghost(g))
        .step(923205600, -14400, 3600, "ADT", Ghost(g))
        .step(941346000, -14400, 0, "AST", Ghost(g))
        .step(954655200, -14400, 3600, "ADT", Ghost(g))
        .step(972795600, -14400, 0, "AST", Ghost(g))
        .step(986104800, -14400, 3600, "ADT", Ghost(g))
        .step(1004245200, -14400, 0, "AST", Ghost(g))
        .step(1018159200, -14400, 3600, "ADT", Ghost(g))
        .step(1035694800, -14400, 0, "AST", Ghost(g))
        .step(1049608800, -14400, 3600, "ADT", Ghost(g))
        .step(1067144400, -14400, 0, "AST", Ghost(g))
        .step(1081058400, -14400, 3600, "ADT", Ghost(g))
        .step(1099198800, -14400, 0, "AST", Ghost(g))
        .step(1112508000, -14400, 3600, "ADT", Ghost(g))
        .step(1130648400, -14400, 0, "AST", Ghost(g))
        .step(1143957600, -14400, 3600, "ADT", Ghost(g))
        .step(1162098000, -14400, 0, "AST", Ghost(g))
        .step(1173592800, -14400, 3600, "ADT", Ghost(g))
        .step(1194152400, -14400, 0, "AST", Ghost(g))
        .step(1205042400, -14400, 3600, "ADT", Ghost(g))
        .step(1225602000, -14400, 0, "AST", Ghost(g))
        .step(1236492000, -14400, 3600, "ADT", Ghost(g))
        .step(1257051600, -14400, 0, "AST", Ghost(g))
        .step(1268546400, -14400, 3600, "ADT", Ghost(g))
        .step(1289106000, -14400, 0, "AST", Ghost(g))
        .step(1299996000, -14400, 3600, "ADT", Ghost(g))
        .step(1320555600, -14400, 0, "AST", Ghost(g))
        .step(1331445600, -14400, 3600, "ADT", Ghost(g))
        .step(1352005200, -14400, 0, "AST", Ghost(g))
        .step(1362895200, -14400, 3600, "ADT", Ghost(g))
        .step(1383454800, -14400, 0, "AST", Ghost(g))
        .step(1394344800, -14400, 3600, "ADT", Ghost(g))
        .step(1414904400, -14400, 0, "AST", Ghost(g))
        .step(1425794400, -14400, 3600, "ADT", Ghost(g))
        .step(1446354000, -14400, 0, "AST", Ghost(g))
        .step(1457848800, -14400, 3600, "ADT", Ghost(g))
        .step(1478408400, -14400, 0, "AST", Ghost(g))
        .step(1489298400, -14400, 3600, "ADT", Ghost(g))
        .step(1509858000, -14400, 0, "AST", Ghost(g))
        .step(1520748000, -14400, 3600, "ADT", Ghost(g))
        .step(1541307600, -14400, 0, "AST", Ghost(g))
        .step(1552197600, -14400, 3600, "ADT", Ghost(g))
        .step(1572757200, -14400, 0, "AST", Ghost(g))
        .step(1583647200, -14400, 3600, "ADT", Ghost(g))
        .step(1604206800, -14400, 0, "AST", Ghost(g))
        .step(1615701600, -14400, 3600, "ADT", Ghost(g))
        .step(1636261200, -14400, 0, "AST", Ghost(g))
        .step(1647151200, -14400, 3600, "ADT", Ghost(g))
        .step(1667710800, -14400, 0, "AST", Ghost(g))
        .step(1678600800, -14400, 3600, "ADT", Ghost(g))
        .step(1699160400, -14400, 0, "AST", Ghost(g))
        .step(1710050400, -14400, 3600, "ADT", Ghost(g))
        .step(1730610000, -14400, 0, "AST", Ghost(g))
        .step(1741500000, -14400, 3600, "ADT", Ghost(g))
        .step(1762059600, -14400, 0, "AST", Ghost(g))
        .step(1772949600, -14400, 3600, "ADT", Ghost(g))
        .step(1793509200, -14400, 0, "AST", Ghost(g))
        .step(1805004000, -14400, 3600, "ADT", Ghost(g))
        .step(1825563600, -14400, 0, "AST", Ghost(g))
        .step(1836453600, -14400, 3600, "ADT", Ghost(g))
        .step(1857013200, -14400, 0, "AST", Ghost(g))
        .step(1867903200, -14400, 3600, "ADT", Ghost(g))
        .step(1888462800, -14400, 0, "AST", Ghost(g))
        .step(1899352800, -14400, 3600, "ADT", Ghost(g))
        .step(1919912400, -14400, 0, "AST", Ghost(g))
        .step(1930802400, -14400, 3600, "ADT", Ghost(g))
        .step(1951362000, -14400, 0, "AST", Ghost(g))
        .step(1962856800, -14400, 3600, "ADT", Ghost(g))
        .step(1983416400, -14400, 0, "AST", Ghost(g))
        .step(1994306400, -14400, 3600, "ADT", Ghost(g))
        .step(2014866000, -14400, 0, "AST", Ghost(g))
        .step(2025756000, -14400, 3600, "ADT", Ghost(g))
        .step(2046315600, -14400, 0, "AST", Ghost(g))
        .step(2057205600, -14400, 3600, "ADT", Ghost(g))
        .step(2077765200, -14400, 0, "AST", Ghost(g))
        .step(2088655200, -14400, 3600, "ADT", Ghost(g))
        .step(2109214800, -14400, 0, "AST", Ghost(g))
        .step(2120104800, -14400, 3600, "ADT", Ghost(g))
        .step(2140664400, -14400, 0, "AST", Ghost(g))
        .finish(Ghost(g))
}

/// The zone `America/Godthab`.
pub fn godthab() -> (r: Tz)
    ensures
        r.wf(),
        r.zone_name() == "America/Godthab"@,
        r.table() == tables::america::godthab(),
{
    let ghost g = tables::america::godthab_rows();
    FixedTimespanSet::begin("America/Godthab", -12416, 0, "LMT", Ghost(g))
        .step(-1686083584, -10800, 0, "-03", Ghost(g))
        .step(323845200, -10800, 3600, "-02", Ghost(g))
        .step(338950800, -10800, 0, "-03", Ghost(g))
        .step(354675600, -10800, 3600, "-02", Ghost(g))
        .step(370400400, -10800, 0, "-03", Ghost(g))
        .step(386125200, -10800, 3600, "-02", Ghost(g))
        .step(401850000, -10800, 0, "-03", Ghost(g))
        .step(417574800, -10800, 3600, "-02", Ghost(g))
        .step(433299600, -10800, 0, "-03", Ghost(g))
        .step(449024400, -10800, 3600, "-02", Ghost(g))
        .step(465354000, -10800, 0, "-03", Ghost(g))
        .step(481078800, -10800, 3600, "-02", Ghost(g))
        .step(496803600, -10800, 0, "-03", Ghost(g))
        .step(512528400, -10800, 3600, "-02", Ghost(g))
        .step(528253200, -10800, 0, "-03", Ghost(g))
        .step(543978000, -10800, 3600, "-02", Ghost(g))
        .step(559702800, -10800, 0, "-03", Ghost(g))
        .step(575427600, -10800, 3600, "-02", Ghost(g))
        .step(591152400, -10800, 0, "-03", Ghost(g))
        .step(606877200, -10800, 3600, "-02", Ghost(g))
        .step(622602000, -10800, 0, "-03", Ghost(g))
        .step(638326800, -10800, 3600, "-02", Ghost(g))
        .step(654656400, -10800, 0, "-03", Ghost(g))
        .step(670381200, -10800, 3600, "-02", Ghost(g))
        .step(686106000, -10800, 0, "-03", Ghost(g))
        .step(701830800, -10800, 3600, "-02", Ghost(g))
        .step(717555600, -10800, 0, "-03", Ghost(g))
        .step(733280400, -10800, 3600, "-02", Ghost(g))
        .step(749005200, -10800, 0, "-03", Ghost(g))
        .step(764730000, -10800, 3600, "-02", Ghost(g))
        .step(780454800, -10800, 0, "-03", Ghost(g))
        .step(796179600, -10800, 3600, "-02", Ghost(g))
        .step(811904400, -10800, 0, "-03", Ghost(g))
        .step(828234000, -10800, 3600, "-02", Ghost(g))
        .step(846378000, -10800, 0, "-03", Ghost(g))
        .step(859683600, -10800, 3600, "-02", Ghost(g))
        .step(877827600, -10800, 0, "-03", Ghost(g))
        .step(891133200, -10800, 3600, "-02", Ghost(g))
        .step(909277200, -10800, 0, "-03", Ghost(g))
        .step(922582800, -10800, 3600, "-02", Ghost(g))
        .step(941331600, -10800, 0, "-03", Ghost(g))
        .step(954032400, -10800, 3600, "-02", Ghost(g))
        .step(972781200, -10800, 0, "-03", Ghost(g))
        .step(985482000, -10800, 3600, "-02", Ghost(g))
        .step(1004230800, -10800, 0, "-03", Ghost(g))
        .step(1017536400, -10800, 3600, "-02", Ghost(g))
        .step(1035680400, -10800, 0, "-03", Ghost(g))
        .step(1048986000, -10800, 3600, "-02", Ghost(g))
        .step(1067130000, -10800, 0, "-03", Ghost(g))
        .step(1080435600, -10800, 3600, "-02", Ghost(g))
        .step(1099184400, -10800, 0, "-03", Ghost(g))
        .step(1111885200, -10800, 3600, "-02", Ghost(g))
        .step(1130634000, -10800, 0, "-03", Ghost(g))
        .step(1143334800, -10800, 3600, "-02", Ghost(g))
        .step(1162083600, -10800, 0, "-03", Ghost(g))
        .step(1174784400, -10800, 3600, "-02", Ghost(g))
        .step(1193533200, -10800, 0, "-03", Ghost(g))
        .step(1206838800, -10800, 3600, "-02", Ghost(g))
        .step(1224982800, -10800, 0, "-03", Ghost(g))
        .step(1238288400, -10800, 3600, "-02", Ghost(g))
        .step(1256432400, -10800, 0, "-03", Ghost(g))
        .step(1269738000, -10800, 3600, "-02", Ghost(g))
        .step(1288486800, -10800, 0, "-03", Ghost(g))
        .step(1301187600, -10800, 3600, "-02", Ghost(g))
        .step(1319936400, -10800, 0, "-03", Ghost(g))
        .step(1332637200, -10800, 3600, "-02", Ghost(g))
        .step(1351386000, -10800, 0, "-03", Ghost(g))
        .step(1364691600, -10800, 3600, "-02", Ghost(g))
        .step(1382835600, -10800, 0, "-03", Ghost(g))
        .step(1396141200, -10800, 3600, "-02", Ghost(g))
        .step(1414285200, -10800, 0, "-03", Ghost(g))
        .step(1427590800, -10800, 3600, "-02", Ghost(g))
        .step(1445734800, -10800, 0, "-03", Ghost(g))
        .step(1459040400, -10800, 3600, "-02", Ghost(g))
        .step(1477789200, -10800, 0, "-03", Ghost(g))
        .step(1490490000, -10800, 3600, "-02", Ghost(g))
        .step(1509238800, -10800, 0, "-03", Ghost(g))
        .step(1521939600, -10800, 3600, "-02", Ghost(g))
        .step(1540688400, -10800, 0, "-03", Ghost(g))
        .step(1553994000, -10800, 3600, "-02", Ghost(g))
        .step(1572138000, -10800, 0, "-03", Ghost(g))
        .step(1585443600, -10800, 3600, "-02", Ghost(g))
        .step(1603587600, -10800, 0, "-03", Ghost(g))
        .step(1616893200, -10800, 3600, "-02", Ghost(g))
        .step(1635642000, -10800, 0, "-03", Ghost(g))
        .step(1648342800, -10800, 3600, "-02", Ghost(g))
        .step(1667091600, -10800, 0, "-03", Ghost(g))
        .step(1679792400, -7200, 0, "-02", Ghost(g))
        .step(1711846800, -7200, 3600, "-01", Ghost(g))
        .step(1729990800, -7200, 0, "-02", Ghost(g))
        .step(1743296400, -7200, 3600, "-01", Ghost(g))
        .step(1761440400, -7200, 0, "-02", Ghost(g))
        .step(1774746000, -7200, 3600, "-01", Ghost(g))
        .step(1792890000, -7200, 0, "-02", Ghost(g))
        .step(1806195600, -7200, 3600, "-01", Ghost(g))
        .step(1824944400, -7200, 0, "-02", Ghost(g))
        .step(1837645200, -7200, 3600, "-01", Ghost(g))
        .step(1856394000, -7200, 0, "-02", Ghost(g))
        .step(1869094800, -7200, 3600, "-01", Ghost(g))
        .step(1887843600, -7200, 0, "-02", Ghost(g))
        .step(1901149200, -7200, 3600, "-01", Ghost(g))
        .step(1919293200, -7200, 0, "-02", Ghost(g))
        .step(1932598800, -7200, 3600, "-01", Ghost(g))
        .step(1950742800, -7200, 0, "-02", Ghost(g))
        .step(1964048400, -7200, 3600, "-01", Ghost(g))
        .step(1982797200, -7200, 0, "-02", Ghost(g))
        .step(1995498000, -7200, 3600, "-01", Ghost(g))
        .step(2014246800, -7200, 0, "-02", Ghost(g))
        .step(2026947600, -7200, 3600, "-01", Ghost(g))
        .step(2045696400, -7200, 0, "-02", Ghost(g))
        .step(2058397200, -7200, 3600, "-01", Ghost(g))
        .step(2077146000, -7200, 0, "-02", Ghost(g))
        .step(2090451600, -7200, 3600, "-01", Ghost(g))
        .step(2108595600, -7200, 0, "-02", Ghost(g))
        .step(2121901200, -7200, 3600, "-01", Ghost(g))
        .step(2140045200, -7200, 0, "-02", Ghost(g))
        .step(2147483647, -7200, 0, "-02", Ghost(g))
        .finish(Ghost(g))
}

/// The zone `America/Goose_Bay`.
pub fn goose_bay() -> (r: Tz)
    ensures
        r.wf(),
        r.zone_name() == "America/Goose_Bay"@,
        r.table() == tables::america::goose_bay(),
{
    let ghost g = tables::america::goose_bay_rows();
    FixedTimespanSet::begin("America/Goose_Bay", -14500, 0, "LMT", Ghost(g))
        .step(-2713895900, -12652, 0, "NST", Ghost(g))
        .step(-1632076148, -12652, 3600, "NDT", Ghost(g))
        .step(-1615145348, -12652, 0, "NST", Ghost(g))
        .step(-1096921748, -12600, 0, "NST", Ghost(g))
        .step(-1061670600, -12600, 3600, "NDT", Ghost(g))
        .step(-1048973400, -12600, 0, "NST", Ghost(g))
        .step(-1030221000, -12600, 3600, "NDT", Ghost(g))
        .step(-1017523800, -12600, 0, "NST", Ghost(g))
        .step(-998771400, -12600, 3600, "NDT", Ghost(g))
        .step(-986074200, -12600, 0, "NST", Ghost(g))
        .step(-966717000, -12600, 3600, "NDT", Ghost(g))
        .step(-954624600, -12600, 0, "NST", Ghost(g))
        .step(-935267400, -12600, 3600, "NDT", Ghost(g))
        .step(-922570200, -12600, 0, "NST", Ghost(g))
        .step(-903817800, -12600, 3600, "NDT", Ghost(g))
        .step(-891120600, -12600, 0, "NST", Ghost(g))
        .step(-872368200, -12600, 3600, "NWT", Ghost(g))
        .step(-769395600, -12600, 3600, "NPT", Ghost(g))
        .step(-765401400, -12600, 0, "NST", Ghost(g))
        .step(-746044200, -12600, 3600, "NDT", Ghost(g))
        .step(-733347000, -12600, 0, "NST", Ghost(g))
        .step(-714594600, -12600, 3600, "NDT", Ghost(g))
        .step(-701897400, -12600, 0, "NST", Ghost(g))
        .step(-683145000, -12600, 3600, "NDT", Ghost(g))
        .step(-670447800, -12600, 0, "NST", Ghost(g))
        .step(-651695400, -12600, 3600, "NDT", Ghost(g))
        .step(-638998200, -12600, 0, "NST", Ghost(g))
        .step(-619641000, -12600, 3600, "NDT", Ghost(g))
        .step(-606943800, -12600, 0, "NST", Ghost(g))
        .step(-589401000, -12600, 3600, "NDT", Ghost(g))
        .step(-576099000, -12600, 0, "NST", Ghost(g))
        .step(-557951400, -12600, 3600, "NDT", Ghost(g))
        .step(-544649400, -12600, 0, "NST", Ghost(g))
        .step(-526501800, -12600, 3600, "NDT", Ghost(g))
        .step(-513199800, -12600, 0, "NST", Ghost(g))
        .step(-495052200, -12600, 3600, "NDT", Ghost(g))
        .step(-481750200, -12600, 0, "NST", Ghost(g))
        .step(-463602600, -12600, 3600, "NDT", Ghost(g))
        .step(-450300600, -12600, 0, "NST", Ghost(g))
        .step(-431548200, -12600, 3600, "NDT", Ghost(g))
        .step(-418246200, -12600, 0, "NST", Ghost(g))
        .step(-400098600, -12600, 3600, "NDT", Ghost(g))
        .step(-386796600, -12600, 0, "NST", Ghost(g))
        .step(-368649000, -12600, 3600, "NDT", Ghost(g))
        .step(-355347000, -12600, 0, "NST", Ghost(g))
        .step(-337199400, -12600, 3600, "NDT", Ghost(g))
        .step(-323897400, -12600, 0, "NST", Ghost(g))
        .step(-305749800, -12600, 3600, "NDT", Ghost(g))
        .step(-289423800, -12600, 0, "NST", Ghost(g))
        .step(-273695400, -12600, 3600, "NDT", Ghost(g))
        .step(-257974200, -12600, 0, "NST", Ghost(g))
        .step(-242245800, -12600, 3600, "NDT", Ghost(g))
        .step(-226524600, -12600, 0, "NST", Ghost(g))
        .step(-210796200, -12600, 3600, "NDT", Ghost(g))
        .step(-195075000, -12600, 0, "NST", Ghost(g))
        .step(-179346600, -12600, 3600, "NDT", Ghost(g))
        .step(-163625400, -12600, 0, "NST", Ghost(g))
        .step(-147897000, -12600, 3600, "NDT", Ghost(g))
        .step(-131571000, -12600, 0, "NST", Ghost(g))
        .step(-119903400, -14400, 0, "AST", Ghost(g))
        .step(-116445600, -14400, 3600, "ADT", Ghost(g))
        .step(-100119600, -14400, 0, "AST", Ghost(g))
        .step(-84391200, -14400, 3600, "ADT", Ghost(g))
        .step(-68670000, -14400, 0, "AST", Ghost(g))
        .step(-52941600, -14400, 3600, "ADT", Ghost(g))
        .step(-37220400, -14400, 0, "AST", Ghost(g))
        .step(-21492000, -14400, 3600, "ADT", Ghost(g))
        .step(-5770800, -14400, 0, "AST", Ghost(g))
        .step(9957600, -14400, 3600, "ADT", Ghost(g))
        .step(25678800, -14400, 0, "AST", Ghost(g))
        .step(41407200, -14400, 3600, "ADT", Ghost(g))
        .step(57733200, -14400, 0, "AST", Ghost(g))
        .step(73461600, -14400, 3600, "ADT", Ghost(g))
        .step(89182800, -14400, 0, "AST", Ghost(g))
        .step(104911200, -14400, 3600, "ADT", Ghost(g))
        .step(120632400, -14400, 0, "AST", Ghost(g))
        .step(136360800, -14400, 3600, "ADT", Ghost(g))
        .step(152082000, -14400, 0, "AST", Ghost(g))
        .step(167810400, -14400, 3600, "ADT", Ghost(g))
        .step(183531600, -14400, 0, "AST", Ghost(g))
        .step(199260000, -14400, 3600, "ADT", Ghost(g))
        .step(215586000, -14400, 0, "AST", Ghost(g))
        .step(230709600, -14400, 3600, "ADT", Ghost(g))
        .step(247035600, -14400, 0, "AST", Ghost(g))
        .step(262764000, -14400, 3600, "ADT", Ghost(g))
        .step(278485200, -14400, 0, "AST", Ghost(g))
        .step(294213600, -14400, 3600, "ADT", Ghost(g))
        .step(309934800, -14400, 0, "AST", Ghost(g))
        .step(325663200, -14400, 3600, "ADT", Ghost(g))
        .step(341384400, -14400, 0, "AST", Ghost(g))
        .step(357112800, -14400, 3600, "ADT", Ghost(g))
        .step(372834000, -14400, 0, "AST", Ghost(g))
        .step(388562400, -14400, 3600, "ADT", Ghost(g))
        .step(404888400, -14400, 0, "AST", Ghost(g))
        .step(420012000, -14400, 3600, "ADT", Ghost(g))
        .step(436338000, -14400, 0, "AST", Ghost(g))
        .step(452066400, -14400, 3600, "ADT", Ghost(g))
        .step(467787600, -14400, 0, "AST", Ghost(g))
        .step(483516000, -14400, 3600, "ADT", Ghost(g))
        .step(499237200, -14400, 0, "AST", Ghost(g))
        .step(514965600, -14400, 3600, "ADT", Ghost(g))
        .step(530686800, -14400, 0, "AST", Ghost(g))
        .step(544593660, -14400, 3600, "ADT", Ghost(g))
        .step(562129260, -14400, 0, "AST", Ghost(g))
        .step(576043260, -14400, 7200, "ADDT", Ghost(g))
        .step(594180060, -14400, 0, "AST", Ghost(g))
        .step(607492860, -14400, 3600, "ADT", Ghost(g))
        .step(625633260, -14400, 0, "AST", Ghost(g))
        .step(638942460, -14400, 3600, "ADT", Ghost(g))
        .step(657082860, -14400, 0, "AST", Ghost(g))
        .step(670996860, -14400, 3600, "ADT", Ghost(g))
        .step(688532460, -14400, 0, "AST", Ghost(g))
        .step(702446460, -14400, 3600, "ADT", Ghost(g))
        .step(719982060, -14400, 0, "AST", Ghost(g))
        .step(733896060, -14400, 3600, "ADT", Ghost(g))
        .step(752036460, -14400, 0, "AST", Ghost(g))
        .step(765345660, -14400, 3600, "ADT", Ghost(g))
        .step(783486060, -14400, 0, "AST", Ghost(g))
        .step(796795260, -14400, 3600, "ADT", Ghost(g))
        .step(814935660, -14400, 0, "AST", Ghost(g))
        .step(828849660, -14400, 3600, "ADT", Ghost(g))
        .step(846385260, -14400, 0, "AST", Ghost(g))
        .step(860299260, -14400, 3600, "ADT", Ghost(g))
        .step(877834860, -14400, 0, "AST", Ghost(g))
        .step(891748860, -14400, 3600, "ADT", Ghost(g))
        .step(909284460, -14400, 0, "AST", Ghost(g))
        .step(923198460, -14400, 3600, "ADT", Ghost(g))
        .step(941338860, -14400, 0, "AST", Ghost(g))
        .step(954648060, -14400, 3600, "ADT", Ghost(g))
        .step(972788460, -14400, 0, "AST", Ghost(g))
        .step(986097660, -14400, 3600, "ADT", Ghost(g))
        .step(1004238060, -14400, 0, "AST", Ghost(g))
        .step(1018152060, -14400, 3600, "ADT", Ghost(g))
        .step(1035687660, -14400, 0, "AST", Ghost(g))
        .step(1049601660, -14400, 3600, "ADT", Ghost(g))
        .step(1067137260, -14400, 0, "AST", Ghost(g))
        .step(1081051260, -14400, 3600, "ADT", Ghost(g))
        .step(1099191660, -14400, 0, "AST", Ghost(g))
        .step(1112500860, -14400, 3600, "ADT", Ghost(g))
        .step(1130641260, -14400, 0, "AST", Ghost(g))
        .step(1143950460, -14400, 3600, "ADT", Ghost(g))
        .step(1162090860, -14400, 0, "AST", Ghost(g))
        .step(1173585660, -14400, 3600, "ADT", Ghost(g))
        .step(1194145260, -14400, 0, "AST", Ghost(g))
        .step(1205035260, -14400, 3600, "ADT", Ghost(g))
        .step(1225594860, -14400, 0, "AST", Ghost(g))
        .step(1236484860, -14400, 3600, "ADT", Ghost(g))
        .step(1257044460, -14400, 0, "AST", Ghost(g))
        .step(1268539260, -14400, 3600, "ADT", Ghost(g))
        .step(1289098860, -14400, 0, "AST", Ghost(g))
        .step(1299988860, -14400, 3600, "ADT", Ghost(g))
        .step(1320555600, -14400, 0, "AST", Ghost(g))
        .step(1331445600, -14400, 3600, "ADT", Ghost(g))
        .step(1352005200, -14400, 0, "AST", Ghost(g))
        .step(1362895200, -14400, 3600, "ADT", Ghost(g))
        .step(1383454800, -14400, 0, "AST", Ghost(g))
        .step(1394344800, -14400, 3600, "ADT", Ghost(g))
        .step(1414904400, -14400, 0, "AST", Ghost(g))
        .step(1425794400, -14400, 3600, "ADT", Ghost(g))
        .step(1446354000, -14400, 0, "AST", Ghost(g))
        .step(1457848800, -14400, 3600, "ADT", Ghost(g))
        .step(1478408400, -14400, 0, "AST", Ghost(g))
        .step(1489298400, -14400, 3600, "ADT", Ghost(g))
        .step(1509858000, -14400, 0, "AST", Ghost(g))
        .step(1520748000, -14400, 3600, "ADT", Ghost(g))
        .step(1541307600, -14400, 0, "AST", Ghost(g))
        .step(1552197600, -14400, 3600, "ADT", Ghost(g))
        .step(1572757200, -14400, 0, "AST", Ghost(g))
        .step(1583647200, -14400, 3600, "ADT", Ghost(g))
        .step(1604206800, -14400, 0, "AST", Ghost(g))
        .step(1615701600, -14400, 3600, "ADT", Ghost(g))
        .step(1636261200, -14400, 0, "AST", Ghost(g))
        .step(1647151200, -14400, 3600, "ADT", Ghost(g))
        .step(1667710800, -14400, 0, "AST", Ghost(g))
        .step(1678600800, -14400, 3600, "ADT", Ghost(g))
        .step(1699160400, -14400, 0, "AST", Ghost(g))
        .step(1710050400, -14400, 3600, "ADT", Ghost(g))
        .step(1730610000, -14400, 0, "AST", Ghost(g))
        .step(1741500000, -14400, 3600, "ADT", Ghost(g))
        .step(1762059600, -14400, 0, "AST", Ghost(g))
        .step(1772949600, -14400, 3600, "ADT", Ghost(g))
        .step(1793509200, -14400, 0, "AST", Ghost(g))
        .step(1805004000, -14400, 3600, "ADT", Ghost(g))
        .step(1825563600, -14400, 0, "AST", Ghost(g))
        .step(1836453600, -14400, 3600, "ADT", Ghost(g))
        .step(1857013200, -14400, 0, "AST", Ghost(g))
        .step(1867903200, -14400, 3600, "ADT", Ghost(g))
        .step(1888462800, -14400, 0, "AST", Ghost(g))
        .step(1899352800, -14400, 3600, "ADT", Ghost(g))
        .step(1919912400, -14400, 0, "AST", Ghost(g))
        .step(1930802400, -14400, 3600, "ADT", Ghost(g))
        .step(1951362000, -14400, 0, "AST", Ghost(g))
        .step(1962856800, -14400, 3600, "ADT", Ghost(g))
        .step(1983416400, -14400, 0, "AST", Ghost(g))
        .step(1994306400, -14400, 3600, "ADT", Ghost(g))
        .step(2014866000, -14400, 0, "AST", Ghost(g))
        .step(2025756000, -14400, 3600, "ADT", Ghost(g))
        .step(2046315600, -14400, 0, "AST", Ghost(g))
        .step(2057205600, -14400, 3600, "ADT", Ghost(g))
        .step(2077765200, -14400, 0, "AST", Ghost(g))
        .step(2088655200, -14400, 3600, "ADT", Ghost(g))
        .step(2109214800, -14400, 0, "AST", Ghost(g))
        .step(2120104800, -14400, 3600, "ADT", Ghost(g))
        .step(2140664400, -14400, 0, "AST", Ghost(g))
        .finish(Ghost(g))
}

/// The zone `America/Grand_Turk`.
pub fn grand_turk() -> (r: Tz)
    ensures
        r.wf(),
        r.zone_name() == "America/Grand_Turk"@,
        r.table() == tables::america::grand_turk(),
{
    let ghost g = tables::america::grand_turk_rows();
    FixedTimespanSet::begin("America/Grand_Turk", -17072, 0, "LMT", Ghost(g))
        .step(-2524504528, -18430, 0, "KMT", Ghost(g))
        .step(-1827687170, -18000, 0, "EST", Ghost(g))
        .step(294217200, -18000, 3600, "EDT", Ghost(g))
        .step(309938400, -18000, 0, "EST", Ghost(g))
        .step(325666800, -18000, 3600, "EDT", Ghost(g))
        .step(341388000, -18000, 0, "EST", Ghost(g))
        .step(357116400, -18000, 3600, "EDT", Ghost(g))
        .step(372837600, -18000, 0, "EST", Ghost(g))
        .step(388566000, -18000, 3600, "EDT", Ghost(g))
        .step(404892000, -18000, 0, "EST", Ghost(g))
        .step(420015600, -18000, 3600, "EDT", Ghost(g))
        .step(436341600, -18000, 0, "EST", Ghost(g))
        .step(452070000, -18000, 3600, "EDT", Ghost(g))
        .step(467791200, -18000, 0, "EST", Ghost(g))
        .step(483519600, -18000, 3600, "EDT", Ghost(g))
        .step(499240800, -18000, 0, "EST", Ghost(g))
        .step(514969200, -18000, 3600, "EDT", Ghost(g))
        .step(530690400, -18000, 0, "EST", Ghost(g))
        .step(544604400, -18000, 3600, "EDT", Ghost(g))
        .step(562140000, -18000, 0, "EST", Ghost(g))
        .step(576054000, -18000, 3600, "EDT", Ghost(g))
        .step(594194400, -18000, 0, "EST", Ghost(g))
        .step(607503600, -18000, 3600, "EDT", Ghost(g))
        .step(625644000, -18000, 0, "EST", Ghost(g))
        .step(638953200, -18000, 3600, "EDT", Ghost(g))
        .step(657093600, -18000, 0, "EST", Ghost(g))
        .step(671007600, -18000, 3600, "EDT", Ghost(g))
        .step(688543200, -18000, 0, "EST", Ghost(g))
        .step(702457200, -18000, 3600, "EDT", Ghost(g))
        .step(719992800, -18000, 0, "EST", Ghost(g))
        .step(733906800, -18000, 3600, "EDT", Ghost(g))
        .step(752047200, -18000, 0, "EST", Ghost(g))
        .step(765356400, -18000, 3600, "EDT", Ghost(g))
        .step(783496800, -18000, 0, "EST", Ghost(g))
        .step(796806000, -18000, 3600, "EDT", Ghost(g))
        .step(814946400, -18000, 0, "EST", Ghost(g))
        .step(828860400, -18000, 3600, "EDT", Ghost(g))
        .step(846396000, -18000, 0, "EST", Ghost(g))
        .step(860310000, -18000, 3600, "EDT", Ghost(g))
        .step(877845600, -18000, 0, "EST", Ghost(g))
        .step(891759600, -18000, 3600, "EDT", Ghost(g))
        .step(909295200, -18000, 0, "EST", Ghost(g))
        .step(923209200, -18000, 3600, "EDT", Ghost(g))
        .step(941349600, -18000, 0, "EST", Ghost(g))
        .step(954658800, -18000, 3600, "EDT", Ghost(g))
        .step(972799200, -18000, 0, "EST", Ghost(g))
        .step(986108400, -18000, 3600, "EDT", Ghost(g))
        .step(1004248800, -18000, 0, "EST", Ghost(g))
        .step(1018162800, -18000, 3600, "EDT", Ghost(g))
        .step(1035698400, -18000, 0, "EST", Ghost(g))
        .step(1049612400, -18000, 3600, "EDT", Ghost(g))
        .step(1067148000, -18000, 0, "EST", Ghost(g))
        .step(1081062000, -18000, 3600, "EDT", Ghost(g))
        .step(1099202400, -18000, 0, "EST", Ghost(g))
        .step(1112511600, -18000, 3600, "EDT", Ghost(g))
        .step(1130652000, -18000, 0, "EST", Ghost(g))
        .step(1143961200, -18000, 3600, "EDT", Ghost(g))
        .step(1162101600, -18000, 0, "EST", Ghost(g))
        .step(1173596400, -18000, 3600, "EDT", Ghost(g))
        .step(1194156000, -18000, 0, "EST", Ghost(g))
        .step(1205046000, -18000, 3600, "EDT", Ghost(g))
        .step(1225605600, -18000, 0, "EST", Ghost(g))
        .step(1236495600, -18000, 3600, "EDT", Ghost(g))
        .step(1257055200, -18000, 0, "EST", Ghost(g))
        .step(1268550000, -18000, 3600, "EDT", Ghost(g))
        .step(1289109600, -18000, 0, "EST", Ghost(g))
        .step(1299999600, -18000, 3600, "EDT", Ghost(g))
        .step(1320559200, -18000, 0, "EST", Ghost(g))
        .step(1331449200, -18000, 3600, "EDT", Ghost(g))
        .step(1352008800, -18000, 0, "EST", Ghost(g))
        .step(1362898800, -18000, 3600, "EDT", Ghost(g))
        .step(1383458400, -18000, 0, "EST", Ghost(g))
        .step(1394348400, -18000, 3600, "EDT", Ghost(g))
        .step(1414908000, -18000, 0, "EST", Ghost(g))
        .step(1425798000, -14400, 0, "AST", Ghost(g))
        .step(1520751600, -18000, 3600, "EDT", Ghost(g))
        .step(1541311200, -18000, 0, "EST", Ghost(g))
        .step(1552201200, -18000, 3600, "EDT", Ghost(g))
        .step(1572760800, -18000, 0, "EST", Ghost(g))
        .step(1583650800, -18000, 3600, "EDT", Ghost(g))
        .step(1604210400, -18000, 0, "EST", Ghost(g))
        .step(1615705200, -18000, 3600, "EDT", Ghost(g))
        .step(1636264800, -18000, 0, "EST", Ghost(g))
        .step(1647154800, -18000, 3600, "EDT", Ghost(g))
        .step(1667714400, -18000, 0, "EST", Ghost(g))
        .step(1678604400, -18000, 3600, "EDT", Ghost(g))
        .step(1699164000, -18000, 0, "EST", Ghost(g))
        .step(1710054000, -18000, 3600, "EDT", Ghost(g))
        .step(1730613600, -18000, 0, "EST", Ghost(g))
        .step(1741503600, -18000, 3600, "EDT", Ghost(g))
        .step(1762063200, -18000, 0, "EST", Ghost(g))
        .step(1772953200, -18000, 3600, "EDT", Ghost(g))
        .step(1793512800, -18000, 0, "EST", Ghost(g))
        .step(1805007600, -18000, 3600, "EDT", Ghost(g))
        .step(1825567200, -18000, 0, "EST", Ghost(g))
        .step(1836457200, -18000, 3600, "EDT", Ghost(g))
        .step(1857016800, -18000, 0, "EST", Ghost(g))
        .step(1867906800, -18000, 3600, "EDT", Ghost(g))
        .step(1888466400, -18000, 0, "EST", Ghost(g))
        .step(1899356400, -18000, 3600, "EDT", Ghost(g))
        .step(1919916000, -18000, 0, "EST", Ghost(g))
        .step(1930806000, -18000, 3600, "EDT", Ghost(g))
        .step(1951365600, -18000, 0, "EST", Ghost(g))
        .step(1962860400, -18000, 3600, "EDT", Ghost(g))
        .step(1983420000, -18000, 0, "EST", Ghost(g))
        .step(1994310000, -18000, 3600, "EDT", Ghost(g))
        .step(2014869600, -18000, 0, "EST", Ghost(g))
        .step(2025759600, -18000, 3600, "EDT", Ghost(g))
        .step(2046319200, -18000, 0, "EST", Ghost(g))
        .step(2057209200, -18000, 3600, "EDT", Ghost(g))
        .step(2077768800, -18000, 0, "EST", Ghost(g))
        .step(2088658800, -18000, 3600, "EDT", Ghost(g))
        .step(2109218400, -18000, 0, "EST", Ghost(g))
        .step(2120108400, -18000, 3600, "EDT", Ghost(g))
        .step(2140668000, -18000, 0, "EST", Ghost(g))
        .finish(Ghost(g))
}

/// The zone `America/Grenada`.
pub fn grenada() -> (r: Tz)
    ensures
        r.wf(),
        r.zone_name() == "America/Grenada"@,
        r.table() == tables::america::grenada(),
{
    let ghost g = tables::america::grenada_rows();
    FixedTimespanSet::begin("America/Grenada", -14820, 0, "LMT", Ghost(g))
        .step(-1846266780, -14400, 0, "AST", Ghost(g))
        .finish(Ghost(g))
}

/// The zone `America/Guadeloupe`.
pub fn guadeloupe() -> (r: Tz)
    ensures
        r.wf(),
        r.zone_name() == "America/Guadeloupe"@,
        r.table() == tables::america::guadeloupe(),
{
    let ghost g = tables::america::guadeloupe_rows();
    FixedTimespanSet::begin("America/Guadeloupe", -14768, 0, "LMT", Ghost(g))
        .step(-1848254032, -14400, 0, "AST", Ghost(g))
        .finish(Ghost(g))
}

/// The zone `America/Guatemala`.
pub fn guatemala() -> (r: Tz)
    ensures
        r.wf(),
        r.zone_name() == "America/Guatemala"@,
        r.table() == tables::america::guatemala(),
{
    let ghost g = tables::america::guatemala_rows();
    FixedTimespanSet::begin("America/Guatemala", -21724, 0, "LMT", Ghost(g))
        .step(-1617040676, -21600, 0, "CST", Ghost(g))
        .step(123055200, -21600, 3600, "CDT", Ghost(g))
        .step(130914000, -21600, 0, "CST", Ghost(g))
        .step(422344800, -21600, 3600, "CDT", Ghost(g))
        .step(433054800, -21600, 0, "CST", Ghost(g))
        .step(669708000, -21600, 3600, "CDT", Ghost(g))
        .step(684219600, -21600, 0, "CST", Ghost(g))
        .step(1146376800, -21600, 3600, "CDT", Ghost(g))
        .step(1159678800, -21600, 0, "CST", Ghost(g))
        .finish(Ghost(g))
}

/// The zone `America/Guayaquil`.
pub fn guayaquil() -> (r: Tz)
    ensures
        r.wf(),
        r.zone_name() == "America/Guayaquil"@,
        r.table() == tables::america::guayaquil(),
{
    let ghost g = tables::america::guayaquil_rows();
    FixedTimespanSet::begin("America/Guayaquil", -19160, 0, "LMT", Ghost(g))
        .step(-2524502440, -18840, 0, "QMT", Ghost(g))
        .step(-1230749160, -18000, 0, "-05", Ghost(g))
        .step(722926800, -18000, 3600, "-04", Ghost(g))
        .step(728884800, -18000, 0, "-05", Ghost(g))
        .step(2147483647, -18000, 0, "-05", Ghost(g))
        .finish(Ghost(g))
}

/// The zone `America/Guyana`.
pub fn guyana() -> (r: Tz)
    ensures
        r.wf(),
        r.zone_name() == "America/Guyana"@,
        r.table() == tables::america::guyana(),
{
    let ghost g = tables::america::guyana_rows();
    FixedTimespanSet::begin("America/Guyana", -13959, 0, "LMT", Ghost(g))
        .step(-1843589241, -14400, 0, "-04", Ghost(g))
        .step(-1730577600, -13500, 0, "-0345", Ghost(g))
        .step(176096700, -10800, 0, "-03", Ghost(g))
        .step(701841600, -14400, 0, "-04", Ghost(g))
        .step(2147483647, -14400, 0, "-04", Ghost(g))
        .finish(Ghost(g))
}

/// The zone `America/Halifax`.
pub fn halifax() -> (r: Tz)
    ensures
        r.wf(),
        r.zone_name() == "America/Halifax"@,
        r.table() == tables::america::halifax(),
{
    let ghost g = tables::america::halifax_rows();
    FixedTimespanSet::begin("America/Halifax", -15264, 0, "LMT", Ghost(g))
        .step(-2131645536, -14400, 0, "AST", Ghost(g))
        .step(-1696276800, -14400, 3600, "ADT", Ghost(g))
        .step(-1680469200, -14400, 0, "AST", Ghost(g))
        .step(-1632074400, -14400, 3600, "ADT", Ghost(g))
        .step(-1615143600, -14400, 0, "AST", Ghost(g))
        .step(-1566763200, -14400, 3600, "ADT", Ghost(g))
        .step(-1557090000, -14400, 0, "AST", Ghost(g))
        .step(-1535486400, -14400, 3600, "ADT", Ghost(g))
        .step(-1524949200, -14400, 0, "AST", Ghost(g))
        .step(-1504468800, -14400, 3600, "ADT", Ghost(g))
        .step(-1493413200, -14400, 0, "AST", Ghost(g))
        .step(-1472414400, -14400, 3600, "ADT", Ghost(g))
        .step(-1461963600, -14400, 0, "AST", Ghost(g))
        .step(-1440964800, -14400, 3600, "ADT", Ghost(g))
        .step(-1429390800, -14400, 0, "AST", Ghost(g))
        .step(-1409515200, -14400, 3600, "ADT", Ghost(g))
        .step(-1396731600, -14400, 0, "AST", Ghost(g))
        .step(-1376856000, -14400, 3600, "ADT", Ghost(g))
        .step(-1366491600, -14400, 0, "AST", Ghost(g))
        .step(-1346616000, -14400, 3600, "ADT", Ghost(g))
        .step(-1333832400, -14400, 0, "AST", Ghost(g))
        .step(-1313956800, -14400, 3600, "ADT", Ghost(g))
        .step(-1303678800, -14400, 0, "AST", Ghost(g))
        .step(-1282507200, -14400, 3600, "ADT", Ghost(g))
        .step(-1272661200, -14400, 0, "AST", Ghost(g))
        .step(-1251057600, -14400, 3600, "ADT", Ghost(g))
        .step(-1240088400, -14400, 0, "AST", Ghost(g))
        .step(-1219608000, -14400, 3600, "ADT", Ghost(g))
        .step(-1207429200, -14400, 0, "AST", Ghost(g))
        .step(-1188763200, -14400, 3600, "ADT", Ghost(g))
        .step(-1175979600, -14400, 0, "AST", Ghost(g))
        .step(-1157313600, -14400, 3600, "ADT", Ghost(g))
        .step(-1143925200, -14400, 0, "AST", Ghost(g))
        .step(-1124049600, -14400, 3600, "ADT", Ghost(g))
        .step(-1113771600, -14400, 0, "AST", Ghost(g))
        .step(-1091390400, -14400, 3600, "ADT", Ghost(g))
        .step(-1081026000, -14400, 0, "AST", Ghost(g))
        .step(-1059854400, -14400, 3600, "ADT", Ghost(g))
        .step(-1050786000, -14400, 0, "AST", Ghost(g))
        .step(-1030910400, -14400, 3600, "ADT", Ghost(g))
        .step(-1018126800, -14400, 0, "AST", Ghost(g))
        .step(-999460800, -14400, 3600, "ADT", Ghost(g))
        .step(-986677200, -14400, 0, "AST", Ghost(g))
        .step(-965592000, -14400, 3600, "ADT", Ghost(g))
        .step(-955227600, -14400, 0, "AST", Ghost(g))
        .step(-935956800, -14400, 3600, "ADT", Ghost(g))
        .step(-923173200, -14400, 0, "AST", Ghost(g))
        .step(-904507200, -14400, 3600, "ADT", Ghost(g))
        .step(-891723600, -14400, 0, "AST", Ghost(g))
        .step(-880221600, -14400, 3600, "AWT", Ghost(g))
        .step(-769395600, -14400, 3600, "APT", Ghost(g))
        .step(-765399600, -14400, 0, "AST", Ghost(g))
        .step(-747252000, -14400, 3600, "ADT", Ghost(g))
        .step(-733950000, -14400, 0, "AST", Ghost(g))
        .step(-715802400, -14400, 3600, "ADT", Ghost(g))
        .step(-702500400, -14400, 0, "AST", Ghost(g))
        .step(-684352800, -14400, 3600, "ADT", Ghost(g))
        .step(-671050800, -14400, 0, "AST", Ghost(g))
        .step(-652903200, -14400, 3600, "ADT", Ghost(g))
        .step(-639601200, -14400, 0, "AST", Ghost(g))
        .step(-589399200, -14400, 3600, "ADT", Ghost(g))
        .step(-576097200, -14400, 0, "AST", Ghost(g))
        .step(-557949600, -14400, 3600, "ADT", Ghost(g))
        .step(-544647600, -14400, 0, "AST", Ghost(g))
        .step(-526500000, -14400, 3600, "ADT", Ghost(g))
        .step(-513198000, -14400, 0, "AST", Ghost(g))
        .step(-495050400, -14400, 3600, "ADT", Ghost(g))
        .step(-481748400, -14400, 0, "AST", Ghost(g))
        .step(-431546400, -14400, 3600, "ADT", Ghost(g))
        .step(-418244400, -14400, 0, "AST", Ghost(g))
        .step(-400096800, -14400, 3600, "ADT", Ghost(g))
        .step(-386794800, -14400, 0, "AST", Ghost(g))
        .step(-368647200, -14400, 3600, "ADT", Ghost(g))
        .step(-355345200, -14400, 0, "AST", Ghost(g))
        .step(-337197600, -14400, 3600, "ADT", Ghost(g))
        .step(-323895600, -14400, 0, "AST", Ghost(g))
        .step(-242244000, -14400, 3600, "ADT", Ghost(g))
        .step(-226522800, -14400, 0, "AST", Ghost(g))
        .step(-210794400, -14400, 3600, "ADT", Ghost(g))
        .step(-195073200, -14400, 0, "AST", Ghost(g))
        .step(-179344800, -14400, 3600, "ADT", Ghost(g))
        .step(-163623600, -14400, 0, "AST", Ghost(g))
        .step(-147895200, -14400, 3600, "ADT", Ghost(g))
        .step(-131569200, -14400, 0, "AST", Ghost(g))
        .step(-116445600, -14400, 3600, "ADT", Ghost(g))
        .step(-100119600, -14400, 0, "AST", Ghost(g))
        .step(-84391200, -14400, 3600, "ADT", Ghost(g))
        .step(-68670000, -14400, 0, "AST", Ghost(g))
        .step(-52941600, -14400, 3600, "ADT", Ghost(g))
        .step(-37220400, -14400, 0, "AST", Ghost(g))
        .step(-21492000, -14400, 3600, "ADT", Ghost(g))
        .step(-5770800, -14400, 0, "AST", Ghost(g))
        .step(9957600, -14400, 3600, "ADT", Ghost(g))
        .step(25678800, -14400, 0, "AST", Ghost(g))
        .step(41407200, -14400, 3600, "ADT", Ghost(g))
        .step(57733200, -14400, 0, "AST", Ghost(g))
        .step(73461600, -14400, 3600, "ADT", Ghost(g))
        .step(89182800, -14400, 0, "AST", Ghost(g))
        .step(104911200, -14400, 3600, "ADT", Ghost(g))
        .step(120632400, -14400, 0, "AST", Ghost(g))
        .step(136360800, -14400, 3600, "ADT", Ghost(g))
        .step(152082000, -14400, 0, "AST", Ghost(g))
        .step(167810400, -14400, 3600, "ADT", Ghost(g))
        .step(183531600, -14400, 0, "AST", Ghost(g))
        .step(199260000, -14400, 3600, "ADT", Ghost(g))
        .step(215586000, -14400, 0, "AST", Ghost(g))
        .step(230709600, -14400, 3600, "ADT", Ghost(g))
        .step(247035600, -14400, 0, "AST", Ghost(g))
        .step(262764000, -14400, 3600, "ADT", Ghost(g))
        .step(278485200, -14400, 0, "AST", Ghost(g))
        .step(294213600, -14400, 3600, "ADT", Ghost(g))
        .step(309934800, -14400, 0, "AST", Ghost(g))
        .step(325663200, -14400, 3600, "ADT", Ghost(g))
        .step(341384400, -14400, 0, "AST", Ghost(g))
        .step(357112800, -14400, 3600, "ADT", Ghost(g))
        .step(372834000, -14400, 0, "AST", Ghost(g))
        .step(388562400, -14400, 3600, "ADT", Ghost(g))
        .step(404888400, -14400, 0, "AST", Ghost(g))
        .step(420012000, -14400, 3600, "ADT", Ghost(g))
        .step(436338000, -14400, 0, "AST", Ghost(g))
        .step(452066400, -14400, 3600, "ADT", Ghost(g))
        .step(467787600, -14400, 0, "AST", Ghost(g))
        .step(483516000, -14400, 3600, "ADT", Ghost(g))
        .step(499237200, -14400, 0, "AST", Ghost(g))
        .step(514965600, -14400, 3600, "ADT", Ghost(g))
        .step(530686800, -14400, 0, "AST", Ghost(g))
        .step(544600800, -14400, 3600, "ADT", Ghost(g))
        .step(562136400, -14400, 0, "AST", Ghost(g))
        .step(576050400, -14400, 3600, "ADT", Ghost(g))
        .step(594190800, -14400, 0, "AST", Ghost(g))
        .step(607500000, -14400, 3600, "ADT", Ghost(g))
        .step(625640400, -14400, 0, "AST", Ghost(g))
        .step(638949600, -14400, 3600, "ADT", Ghost(g))
        .step(657090000, -14400, 0, "AST", Ghost(g))
        .step(671004000, -14400, 3600, "ADT", Ghost(g))
        .step(688539600, -14400, 0, "AST", Ghost(g))
        .step(702453600, -14400, 3600, "ADT", Ghost(g))
        .step(719989200, -14400, 0, "AST", Ghost(g))
        .step(733903200, -14400, 3600, "ADT", Ghost(g))
        .step(752043600, -14400, 0, "AST", Ghost(g))
        .step(765352800, -14400, 3600, "ADT", Ghost(g))
        .step(783493200, -14400, 0, "AST", Ghost(g))
        .step(796802400, -14400, 3600, "ADT", Ghost(g))
        .step(814942800, -14400, 0, "AST", Ghost(g))
        .step(828856800, -14400, 3600, "ADT", Ghost(g))
        .step(846392400, -14400, 0, "AST", Ghost(g))
        .step(860306400, -14400, 3600, "ADT", Ghost(g))
        .step(877842000, -14400, 0, "AST", Ghost(g))
        .step(891756000, -14400, 3600, "ADT", Ghost(g))
        .step(909291600, -14400, 0, "AST", Ghost(g))
        .step(923205600, -14400, 3600, "ADT", Ghost(g))
        .step(941346000, -14400, 0, "AST", Ghost(g))
        .step(954655200, -14400, 3600, "ADT", Ghost(g))
        .step(972795600, -14400, 0, "AST", Ghost(g))
        .step(986104800, -14400, 3600, "ADT", Ghost(g))
        .step(1004245200, -14400, 0, "AST", Ghost(g))
        .step(1018159200, -14400, 3600, "ADT", Ghost(g))
        .step(1035694800, -14400, 0, "AST", Ghost(g))
        .step(1049608800, -14400, 3600, "ADT", Ghost(g))
        .step(1067144400, -14400, 0, "AST", Ghost(g))
        .step(1081058400, -14400, 3600, "ADT", Ghost(g))
        .step(1099198800, -14400, 0, "AST", Ghost(g))
        .step(1112508000, -14400, 3600, "ADT", Ghost(g))
        .step(1130648400, -14400, 0, "AST", Ghost(g))
        .step(1143957600, -14400, 3600, "ADT", Ghost(g))
        .step(1162098000, -14400, 0, "AST", Ghost(g))
        .step(1173592800, -14400, 3600, "ADT", Ghost(g))
        .step(1194152400, -14400, 0, "AST", Ghost(g))
        .step(1205042400, -14400, 3600, "ADT", Ghost(g))
        .step(1225602000, -14400, 0, "AST", Ghost(g))
        .step(1236492000, -14400, 3600, "ADT", Ghost(g))
        .step(1257051600, -14400, 0, "AST", Ghost(g))
        .step(1268546400, -14400, 3600, "ADT", Ghost(g))
        .step(1289106000, -14400, 0, "AST", Ghost(g))
        .step(1299996000, -14400, 3600, "ADT", Ghost(g))
        .step(1320555600, -14400, 0, "AST", Ghost(g))
        .step(1331445600, -14400, 3600, "ADT", Ghost(g))
        .step(1352005200, -14400, 0, "AST", Ghost(g))
        .step(1362895200, -14400, 3600, "ADT", Ghost(g))
        .step(1383454800, -14400, 0, "AST", Ghost(g))
        .step(1394344800, -14400, 3600, "ADT", Ghost(g))
        .step(1414904400, -14400, 0, "AST", Ghost(g))
        .step(1425794400, -14400, 3600, "ADT", Ghost(g))
        .step(1446354000, -14400, 0, "AST", Ghost(g))
        .step(1457848800, -14400, 3600, "ADT", Ghost(g))
        .step(1478408400, -14400, 0, "AST", Ghost(g))
        .step(1489298400, -14400, 3600, "ADT", Ghost(g))
        .step(1509858000, -14400, 0, "AST", Ghost(g))
        .step(1520748000, -14400, 3600, "ADT", Ghost(g))
        .step(1541307600, -14400, 0, "AST", Ghost(g))
        .step(1552197600, -14400, 3600, "ADT", Ghost(g))
        .step(1572757200, -14400, 0, "AST", Ghost(g))
        .step(1583647200, -14400, 3600, "ADT", Ghost(g))
        .step(1604206800, -14400, 0, "AST", Ghost(g))
        .step(1615701600, -14400, 3600, "ADT", Ghost(g))
        .step(1636261200, -14400, 0, "AST", Ghost(g))
        .step(1647151200, -14400, 3600, "ADT", Ghost(g))
        .step(1667710800, -14400, 0, "AST", Ghost(g))
        .step(1678600800, -14400, 3600, "ADT", Ghost(g))
        .step(1699160400, -14400, 0, "AST", Ghost(g))
        .step(1710050400, -14400, 3600, "ADT", Ghost(g))
        .step(1730610000, -14400, 0, "AST", Ghost(g))
        .step(1741500000, -14400, 3600, "ADT", Ghost(g))
        .step(1762059600, -14400, 0, "AST", Ghost(g))
        .step(1772949600, -14400, 3600, "ADT", Ghost(g))
        .step(1793509200, -14400, 0, "AST", Ghost(g))
        .step(1805004000, -14400, 3600, "ADT", Ghost(g))
        .step(1825563600, -14400, 0, "AST", Ghost(g))
        .step(1836453600, -14400, 3600, "ADT", Ghost(g))
        .step(1857013200, -14400, 0, "AST", Ghost(g))
        .step(1867903200, -14400, 3600, "ADT", Ghost(g))
        .step(1888462800, -14400, 0, "AST", Ghost(g))
        .step(1899352800, -14400, 3600, "ADT", Ghost(g))
        .step(1919912400, -14400, 0, "AST", Ghost(g))
        .step(1930802400, -14400, 3600, "ADT", Ghost(g))
        .step(1951362000, -14400, 0, "AST", Ghost(g))
        .step(1962856800, -14400, 3600, "ADT", Ghost(g))
        .step(1983416400, -14400, 0, "AST", Ghost(g))
        .step(1994306400, -14400, 3600, "ADT", Ghost(g))
        .step(2014866000, -14400, 0, "AST", Ghost(g))
        .step(2025756000, -14400, 3600, "ADT", Ghost(g))
        .step(2046315600, -14400, 0, "AST", Ghost(g))
        .step(2057205600, -14400, 3600, "ADT", Ghost(g))
        .step(2077765200, -14400, 0, "AST", Ghost(g))
        .step(2088655200, -14400, 3600, "ADT", Ghost(g))
        .step(2109214800, -14400, 0, "AST", Ghost(g))
        .step(2120104800, -14400, 3600, "ADT", Ghost(g))
        .step(2140664400, -14400, 0, "AST", Ghost(g))
        .finish(Ghost(g))
}

/// The zone `America/Havana`.
pub fn havana() -> (r: Tz)
    ensures
        r.wf(),
        r.zone_name() == "America/Havana"@,
        r.table() == tables::america::havana(),
{
    let ghost g = tables::america::havana_rows();
    FixedTimespanSet::begin("America/Havana", -19768, 0, "LMT", Ghost(g))
        .step(-2524501832, -19776, 0, "HMT", Ghost(g))
        .step(-1402813824, -18000, 0, "CST", Ghost(g))
        .step(-1311534000, -18000, 3600, "CDT", Ghost(g))
        .step(-1300996800, -18000, 0, "CST", Ghost(g))
        .step(-933534000, -18000, 3600, "CDT", Ghost(g))
        .step(-925675200, -18000, 0, "CST", Ghost(g))
        .step(-902084400, -18000, 3600, "CDT", Ghost(g))
        .step(-893620800, -18000, 0, "CST", Ghost(g))
        .step(-870030000, -18000, 3600, "CDT", Ghost(g))
        .step(-862171200, -18000, 0, "CST", Ghost(g))
        .step(-775681200, -18000, 3600, "CDT", Ghost(g))
        .step(-767822400, -18000, 0, "CST", Ghost(g))
        .step(-744231600, -18000, 3600, "CDT", Ghost(g))
        .step(-736372800, -18000, 0, "CST", Ghost(g))
        .step(-144702000, -18000, 3600, "CDT", Ghost(g))
        .step(-134251200, -18000, 0, "CST", Ghost(g))
        .step(-113425200, -18000, 3600, "CDT", Ghost(g))
        .step(-102542400, -18000, 0, "CST", Ghost(g))
        .step(-86295600, -18000, 3600, "CDT", Ghost(g))
        .step(-72907200, -18000, 0, "CST", Ghost(g))
        .step(-54154800, -18000, 3600, "CDT", Ghost(g))
        .step(-41457600, -18000, 0, "CST", Ghost(g))
        .step(-21495600, -18000, 3600, "CDT", Ghost(g))
        .step(-5774400, -18000, 0, "CST", Ghost(g))
        .step(9954000, -18000, 3600, "CDT", Ghost(g))
        .step(25675200, -18000, 0, "CST", Ghost(g))
        .step(41403600, -18000, 3600, "CDT", Ghost(g))
        .step(57729600, -18000, 0, "CST", Ghost(g))
        .step(73458000, -18000, 3600, "CDT", Ghost(g))
        .step(87364800, -18000, 0, "CST", Ghost(g))
        .step(104907600, -18000, 3600, "CDT", Ghost(g))
        .step(118900800, -18000, 0, "CST", Ghost(g))
        .step(136357200, -18000, 3600, "CDT", Ghost(g))
        .step(150436800, -18000, 0, "CST", Ghost(g))
        .step(167806800, -18000, 3600, "CDT", Ghost(g))
        .step(183528000, -18000, 0, "CST", Ghost(g))
        .step(199256400, -18000, 3600, "CDT", Ghost(g))
        .step(215582400, -18000, 0, "CST", Ghost(g))
        .step(230706000, -18000, 3600, "CDT", Ghost(g))
        .step(247032000, -18000, 0, "CST", Ghost(g))
        .step(263365200, -18000, 3600, "CDT", Ghost(g))
        .step(276667200, -18000, 0, "CST", Ghost(g))
        .step(290581200, -18000, 3600, "CDT", Ghost(g))
        .step(308721600, -18000, 0, "CST", Ghost(g))
        .step(322030800, -18000, 3600, "CDT", Ghost(g))
        .step(340171200, -18000, 0, "CST", Ghost(g))
        .step(358318800, -18000, 3600, "CDT", Ghost(g))
        .step(371620800, -18000, 0, "CST", Ghost(g))
        .step(389768400, -18000, 3600, "CDT", Ghost(g))
        .step(403070400, -18000, 0, "CST", Ghost(g))
        .step(421218000, -18000, 3600, "CDT", Ghost(g))
        .step(434520000, -18000, 0, "CST", Ghost(g))
        .step(452667600, -18000, 3600, "CDT", Ghost(g))
        .step(466574400, -18000, 0, "CST", Ghost(g))
        .step(484117200, -18000, 3600, "CDT", Ghost(g))
        .step(498024000, -18000, 0, "CST", Ghost(g))
        .step(511333200, -18000, 3600, "CDT", Ghost(g))
        .step(529473600, -18000, 0, "CST", Ghost(g))
        .step(542782800, -18000, 3600, "CDT", Ghost(g))
        .step(560923200, -18000, 0, "CST", Ghost(g))
        .step(574837200, -18000, 3600, "CDT", Ghost(g))
        .step(592372800, -18000, 0, "CST", Ghost(g))
        .step(606286800, -18000, 3600, "CDT", Ghost(g))
        .step(623822400, -18000, 0, "CST", Ghost(g))
        .step(638946000, -18000, 3600, "CDT", Ghost(g))
        .step(655876800, -18000, 0, "CST", Ghost(g))
        .step(671000400, -18000, 3600, "CDT", Ghost(g))
        .step(687330000, -18000, 0, "CST", Ghost(g))
        .step(702450000, -18000, 3600, "CDT", Ghost(g))
        .step(718779600, -18000, 0, "CST", Ghost(g))
        .step(733899600, -18000, 3600, "CDT", Ghost(g))
        .step(750229200, -18000, 0, "CST", Ghost(g))
        .step(765349200, -18000, 3600, "CDT", Ghost(g))
        .step(781678800, -18000, 0, "CST", Ghost(g))
        .step(796798800, -18000, 3600, "CDT", Ghost(g))
        .step(813128400, -18000, 0, "CST", Ghost(g))
        .step(828853200, -18000, 3600, "CDT", Ghost(g))
        .step(844578000, -18000, 0, "CST", Ghost(g))
        .step(860302800, -18000, 3600, "CDT", Ghost(g))
        .step(876632400, -18000, 0, "CST", Ghost(g))
        .step(891147600, -18000, 3600, "CDT", Ghost(g))
        .step(909291600, -18000, 0, "CST", Ghost(g))
        .step(922597200, -18000, 3600, "CDT", Ghost(g))
        .step(941346000, -18000, 0, "CST", Ghost(g))
        .step(954651600, -18000, 3600, "CDT", Ghost(g))
        .step(972795600, -18000, 0, "CST", Ghost(g))
        .step(986101200, -18000, 3600, "CDT", Ghost(g))
        .step(1004245200, -18000, 0, "CST", Ghost(g))
        .step(1018155600, -18000, 3600, "CDT", Ghost(g))
        .step(1035694800, -18000, 0, "CST", Ghost(g))
        .step(1049605200, -18000, 3600, "CDT", Ghost(g))
        .step(1067144400, -18000, 0, "CST", Ghost(g))
        .step(1080450000, -18000, 3600, "CDT", Ghost(g))
        .step(1162098000, -18000, 0, "CST", Ghost(g))
        .step(1173589200, -18000, 3600, "CDT", Ghost(g))
        .step(1193547600, -18000, 0, "CST", Ghost(g))
        .step(1205643600, -18000, 3600, "CDT", Ghost(g))
        .step(1224997200, -18000, 0, "CST", Ghost(g))
        .step(1236488400, -18000, 3600, "CDT", Ghost(g))
        .step(1256446800, -18000, 0, "CST", Ghost(g))
        .step(1268542800, -18000, 3600, "CDT", Ghost(g))
        .step(1288501200, -18000, 0, "CST", Ghost(g))
        .step(1300597200, -18000, 3600, "CDT", Ghost(g))
        .step(1321160400, -18000, 0, "CST", Ghost(g))
        .step(1333256400, -18000, 3600, "CDT", Ghost(g))
        .step(1352005200, -18000, 0, "CST", Ghost(g))
        .step(1362891600, -18000, 3600, "CDT", Ghost(g))
        .step(1383454800, -18000, 0, "CST", Ghost(g))
        .step(1394341200, -18000, 3600, "CDT", Ghost(g))
        .step(1414904400, -18000, 0, "CST", Ghost(g))
        .step(1425790800, -18000, 3600, "CDT", Ghost(g))
        .step(1446354000, -18000, 0, "CST", Ghost(g))
        .step(1457845200, -18000, 3600, "CDT", Ghost(g))
        .step(1478408400, -18000, 0, "CST", Ghost(g))
        .step(1489294800, -18000, 3600, "CDT", Ghost(g))
        .step(1509858000, -18000, 0, "CST", Ghost(g))
        .step(1520744400, -18000, 3600, "CDT", Ghost(g))
        .step(1541307600, -18000, 0, "CST", Ghost(g))
        .step(1552194000, -18000, 3600, "CDT", Ghost(g))
        .step(1572757200, -18000, 0, "CST", Ghost(g))
        .step(1583643600, -18000, 3600, "CDT", Ghost(g))
        .step(1604206800, -18000, 0, "CST", Ghost(g))
        .step(1615698000, -18000, 3600, "CDT", Ghost(g))
        .step(1636261200, -18000, 0, "CST", Ghost(g))
        .step(1647147600, -18000, 3600, "CDT", Ghost(g))
        .step(1667710800, -18000, 0, "CST", Ghost(g))
        .step(1678597200, -18000, 3600, "CDT", Ghost(g))
        .step(1699160400, -18000, 0, "CST", Ghost(g))
        .step(1710046800, -18000, 3600, "CDT", Ghost(g))
        .step(1730610000, -18000, 0, "CST", Ghost(g))
        .step(1741496400, -18000, 3600, "CDT", Ghost(g))
        .step(1762059600, -18000, 0, "CST", Ghost(g))
        .step(1772946000, -18000, 3600, "CDT", Ghost(g))
        .step(1793509200, -18000, 0, "CST", Ghost(g))
        .step(1805000400, -18000, 3600, "CDT", Ghost(g))
        .step(1825563600, -18000, 0, "CST", Ghost(g))
        .step(1836450000, -18000, 3600, "CDT", Ghost(g))
        .step(1857013200, -18000, 0, "CST", Ghost(g))
        .step(1867899600, -18000, 3600, "CDT", Ghost(g))
        .step(1888462800, -18000, 0, "CST", Ghost(g))
        .step(1899349200, -18000, 3600, "CDT", Ghost(g))
        .step(1919912400, -18000, 0, "CST", Ghost(g))
        .step(1930798800, -18000, 3600, "CDT", Ghost(g))
        .step(1951362000, -18000, 0, "CST", Ghost(g))
        .step(1962853200, -18000, 3600, "CDT", Ghost(g))
        .step(1983416400, -18000, 0, "CST", Ghost(g))
        .step(1994302800, -18000, 3600, "CDT", Ghost(g))
        .step(2014866000, -18000, 0, "CST", Ghost(g))
        .step(2025752400, -18000, 3600, "CDT", Ghost(g))
        .step(2046315600, -18000, 0, "CST", Ghost(g))
        .step(2057202000, -18000, 3600, "CDT", Ghost(g))
        .step(2077765200, -18000, 0, "CST", Ghost(g))
        .step(2088651600, -18000, 3600, "CDT", Ghost(g))
        .step(2109214800, -18000, 0, "CST", Ghost(g))
        .step(2120101200, -18000, 3600, "CDT", Ghost(g))
        .step(2140664400, -18000, 0, "CST", Ghost(g))
        .finish(Ghost(g))
}

/// The zone `America/Hermosillo`.
pub fn hermosillo() -> (r: Tz)
    ensures
        r.wf(),
        r.zone_name() == "America/Hermosillo"@,
        r.table() == tables::america::hermosillo(),
{
    let ghost g = tables::america::hermosillo_rows();
    FixedTimespanSet::begin("America/Hermosillo", -26632, 0, "LMT", Ghost(g))
        .step(-1514739600, -25200, 0, "MST", Ghost(g))
        .step(-1343149200, -21600, 0, "CST", Ghost(g))
        .step(-1234807200, -25200, 0, "MST", Ghost(g))
        .step(-1220461200, -25200, 3600, "MDT", Ghost(g))
        .step(-1207159200, -25200, 0, "MST", Ghost(g))
        .step(-1191344400, -21600, 0, "CST", Ghost(g))
        .step(-873828000, -25200, 0, "MST", Ghost(g))
        .step(828867600, -25200, 3600, "MDT", Ghost(g))
        .step(846403200, -25200, 0, "MST", Ghost(g))
        .step(860317200, -25200, 3600, "MDT", Ghost(g))
        .step(877852800, -25200, 0, "MST", Ghost(g))
        .step(891766800, -25200, 3600, "MDT", Ghost(g))
        .step(909302400, -25200, 0, "MST", Ghost(g))
        .finish(Ghost(g))
}

/// The zone `America/Indiana/Indianapolis`.
pub fn indiana_indianapolis() -> (r: Tz)
    ensures
        r.wf(),
        r.zone_name() == "America/Indiana/Indianapolis"@,
        r.table() == tables::america::indiana_indianapolis(),
{
    let ghost g = tables::america::indiana_indianapolis_rows();
    FixedTimespanSet::begin("America/Indiana/Indianapolis", -20678, 0, "LMT", Ghost(g))
        .step(-2717647200, -21600, 0, "CST", Ghost(g))
        .step(-1633276800, -21600, 3600, "CDT", Ghost(g))
        .step(-1615136400, -21600, 0, "CST", Ghost(g))
        .step(-1601827200, -21600, 3600, "CDT", Ghost(g))
        .step(-1583686800, -21600, 0, "CST", Ghost(g))
        .step(-900259200, -21600, 3600, "CDT", Ghost(g))
        .step(-891795600, -21600, 0, "CST", Ghost(g))
        .step(-880214400, -21600, 3600, "CWT", Ghost(g))
        .step(-769395600, -21600, 3600, "CPT", Ghost(g))
        .step(-765392400, -21600, 0, "CST", Ghost(g))
        .step(-747244800, -21600, 3600, "CDT", Ghost(g))
        .step(-733942800, -21600, 0, "CST", Ghost(g))
        .step(-715795200, -21600, 3600, "CDT", Ghost(g))
        .step(-702493200, -21600, 0, "CST", Ghost(g))
        .step(-684345600, -21600, 3600, "CDT", Ghost(g))
        .step(-671043600, -21600, 0, "CST", Ghost(g))
        .step(-652896000, -21600, 3600, "CDT", Ghost(g))
        .step(-639594000, -21600, 0, "CST", Ghost(g))
        .step(-620841600, -21600, 3600, "CDT", Ghost(g))
        .step(-608144400, -21600, 0, "CST", Ghost(g))
        .step(-589392000, -21600, 3600, "CDT", Ghost(g))
        .step(-576090000, -21600, 0, "CST", Ghost(g))
        .step(-557942400, -21600, 3600, "CDT", Ghost(g))
        .step(-544640400, -21600, 0, "CST", Ghost(g))
        .step(-526492800, -21600, 3600, "CDT", Ghost(g))
        .step(-513190800, -21600, 0, "CST", Ghost(g))
        .step(-495043200, -21600, 3600, "CDT", Ghost(g))
        .step(-481741200, -21600, 0, "CST", Ghost(g))
        .step(-463593600, -18000, 0, "EST", Ghost(g))
        .step(-386787600, -21600, 0, "CST", Ghost(g))
        .step(-368640000, -18000, 0, "EST", Ghost(g))
        .step(-21488400, -18000, 3600, "EDT", Ghost(g))
        .step(-5767200, -18000, 0, "EST", Ghost(g))
        .step(9961200, -18000, 3600, "EDT", Ghost(g))
        .step(25682400, -18000, 0, "EST", Ghost(g))
        .step(1143961200, -18000, 3600, "EDT", Ghost(g))
        .step(1162101600, -18000, 0, "EST", Ghost(g))
        .step(1173596400, -18000, 3600, "EDT", Ghost(g))
        .step(1194156000, -18000, 0, "EST", Ghost(g))
        .step(1205046000, -18000, 3600, "EDT", Ghost(g))
        .step(1225605600, -18000, 0, "EST", Ghost(g))
        .step(1236495600, -18000, 3600, "EDT", Ghost(g))
        .step(1257055200, -18000, 0, "EST", Ghost(g))
        .step(1268550000, -18000, 3600, "EDT", Ghost(g))
        .step(1289109600, -18000, 0, "EST", Ghost(g))
        .step(1299999600, -18000, 3600, "EDT", Ghost(g))
        .step(1320559200, -18000, 0, "EST", Ghost(g))
        .step(1331449200, -18000, 3600, "EDT", Ghost(g))
        .step(1352008800, -18000, 0, "EST", Ghost(g))
        .step(1362898800, -18000, 3600, "EDT", Ghost(g))
        .step(1383458400, -18000, 0, "EST", Ghost(g))
        .step(1394348400, -18000, 3600, "EDT", Ghost(g))
        .step(1414908000, -18000, 0, "EST", Ghost(g))
        .step(1425798000, -18000, 3600, "EDT", Ghost(g))
        .step(1446357600, -18000, 0, "EST", Ghost(g))
        .step(1457852400, -18000, 3600, "EDT", Ghost(g))
        .step(1478412000, -18000, 0, "EST", Ghost(g))
        .step(1489302000, -18000, 3600, "EDT", Ghost(g))
        .step(1509861600, -18000, 0, "EST", Ghost(g))
        .step(1520751600, -18000, 3600, "EDT", Ghost(g))
        .step(1541311200, -18000, 0, "EST", Ghost(g))
        .step(1552201200, -18000, 3600, "EDT", Ghost(g))
        .step(1572760800, -18000, 0, "EST", Ghost(g))
        .step(1583650800, -18000, 3600, "EDT", Ghost(g))
        .step(1604210400, -18000, 0, "EST", Ghost(g))
        .step(1615705200, -18000, 3600, "EDT", Ghost(g))
        .step(1636264800, -18000, 0, "EST", Ghost(g))
        .step(1647154800, -18000, 3600, "EDT", Ghost(g))
        .step(1667714400, -18000, 0, "EST", Ghost(g))
        .step(1678604400, -18000, 3600, "EDT", Ghost(g))
        .step(1699164000, -18000, 0, "EST", Ghost(g))
        .step(1710054000, -18000, 3600, "EDT", Ghost(g))
        .step(1730613600, -18000, 0, "EST", Ghost(g))
        .step(1741503600, -18000, 3600, "EDT", Ghost(g))
        .step(1762063200, -18000, 0, "EST", Ghost(g))
        .step(1772953200, -18000, 3600, "EDT", Ghost(g))
        .step(1793512800, -18000, 0, "EST", Ghost(g))
        .step(1805007600, -18000, 3600, "EDT", Ghost(g))
        .step(1825567200, -18000, 0, "EST", Ghost(g))
        .step(1836457200, -18000, 3600, "EDT", Ghost(g))
        .step(1857016800, -18000, 0, "EST", Ghost(g))
        .step(1867906800, -18000, 3600, "EDT", Ghost(g))
        .step(1888466400, -18000, 0, "EST", Ghost(g))
        .step(1899356400, -18000, 3600, "EDT", Ghost(g))
        .step(1919916000, -18000, 0, "EST", Ghost(g))
        .step(1930806000, -18000, 3600, "EDT", Ghost(g))
        .step(1951365600, -18000, 0, "EST", Ghost(g))
        .step(1962860400, -18000, 3600, "EDT", Ghost(g))
        .step(1983420000, -18000, 0, "EST", Ghost(g))
        .step(1994310000, -18000, 3600, "EDT", Ghost(g))
        .step(2014869600, -18000, 0, "EST", Ghost(g))
        .step(2025759600, -18000, 3600, "EDT", Ghost(g))
        .step(2046319200, -18000, 0, "EST", Ghost(g))
        .step(2057209200, -18000, 3600, "EDT", Ghost(g))
        .step(2077768800, -18000, 0, "EST", Ghost(g))
        .step(2088658800, -18000, 3600, "EDT", Ghost(g))
        .step(2109218400, -18000, 0, "EST", Ghost(g))
        .step(2120108400, -18000, 3600, "EDT", Ghost(g))
        .step(2140668000, -18000, 0, "EST", Ghost(g))
        .finish(Ghost(g))
}

/// The zone `America/Indiana/Knox`.
pub fn indiana_knox() -> (r: Tz)
    ensures
        r.wf(),
        r.zone_name() == "America/Indiana/Knox"@,
        r.table() == tables::america::indiana_knox(),
{
    let ghost g = tables::america::indiana_knox_rows();
    FixedTimespanSet::begin("America/Indiana/Knox", -20790, 0, "LMT", Ghost(g))
        .step(-2717647200, -21600, 0, "CST", Ghost(g))
        .step(-1633276800, -21600, 3600, "CDT", Ghost(g))
        .step(-1615136400, -21600, 0, "CST", Ghost(g))
        .step(-1601827200, -21600, 3600, "CDT", Ghost(g))
        .step(-1583686800, -21600, 0, "CST", Ghost(g))
        .step(-880214400, -21600, 3600, "CWT", Ghost(g))
        .step(-769395600, -21600, 3600, "CPT", Ghost(g))
        .step(-765392400, -21600, 0, "CST", Ghost(g))
        .step(-715795200, -21600, 3600, "CDT", Ghost(g))
        .step(-702493200, -21600, 0, "CST", Ghost(g))
        .step(-684345600, -21600, 3600, "CDT", Ghost(g))
        .step(-671043600, -21600, 0, "CST", Ghost(g))
        .step(-652896000, -21600, 3600, "CDT", Ghost(g))
        .step(-639594000, -21600, 0, "CST", Ghost(g))
        .step(-620841600, -21600, 3600, "CDT", Ghost(g))
        .step(-608144400, -21600, 0, "CST", Ghost(g))
        .step(-589392000, -21600, 3600, "CDT", Ghost(g))
        .step(-576090000, -21600, 0, "CST", Ghost(g))
        .step(-557942400, -21600, 3600, "CDT", Ghost(g))
        .step(-544640400, -21600, 0, "CST", Ghost(g))
        .step(-526492800, -21600, 3600, "CDT", Ghost(g))
        .step(-513190800, -21600, 0, "CST", Ghost(g))
        .step(-495043200, -21600, 3600, "CDT", Ghost(g))
        .step(-481741200, -21600, 0, "CST", Ghost(g))
        .step(-463593600, -21600, 3600, "CDT", Ghost(g))
        .step(-447267600, -21600, 0, "CST", Ghost(g))
        .step(-431539200, -21600, 3600, "CDT", Ghost(g))
        .step(-415818000, -21600, 0, "CST", Ghost(g))
        .step(-400089600, -21600, 3600, "CDT", Ghost(g))
        .step(-386787600, -21600, 0, "CST", Ghost(g))
        .step(-368640000, -21600, 3600, "CDT", Ghost(g))
        .step(-355338000, -21600, 0, "CST", Ghost(g))
        .step(-337190400, -21600, 3600, "CDT", Ghost(g))
        .step(-321469200, -21600, 0, "CST", Ghost(g))
        .step(-305740800, -21600, 3600, "CDT", Ghost(g))
        .step(-289414800, -21600, 0, "CST", Ghost(g))
        .step(-273686400, -21600, 3600, "CDT", Ghost(g))
        .step(-257965200, -21600, 0, "CST", Ghost(g))
        .step(-242236800, -18000, 0, "EST", Ghost(g))
        .step(-195066000, -21600, 0, "CST", Ghost(g))
        .step(-84384000, -21600, 3600, "CDT", Ghost(g))
        .step(-68662800, -21600, 0, "CST", Ghost(g))
        .step(-52934400, -21600, 3600, "CDT", Ghost(g))
        .step(-37213200, -21600, 0, "CST", Ghost(g))
        .step(-21484800, -21600, 3600, "CDT", Ghost(g))
        .step(-5763600, -21600, 0, "CST", Ghost(g))
        .step(9964800, -21600, 3600, "CDT", Ghost(g))
        .step(25686000, -21600, 0, "CST", Ghost(g))
        .step(41414400, -21600, 3600, "CDT", Ghost(g))
        .step(57740400, -21600, 0, "CST", Ghost(g))
        .step(73468800, -21600, 3600, "CDT", Ghost(g))
        .step(89190000, -21600, 0, "CST", Ghost(g))
        .step(104918400, -21600, 3600, "CDT", Ghost(g))
        .step(120639600, -21600, 0, "CST", Ghost(g))
        .step(126691200, -21600, 3600, "CDT", Ghost(g))
        .step(152089200, -21600, 0, "CST", Ghost(g))
        .step(162374400, -21600, 3600, "CDT", Ghost(g))
        .step(183538800, -21600, 0, "CST", Ghost(g))
        .step(199267200, -21600, 3600, "CDT", Ghost(g))
        .step(215593200, -21600, 0, "CST", Ghost(g))
        .step(230716800, -21600, 3600, "CDT", Ghost(g))
        .step(247042800, -21600, 0, "CST", Ghost(g))
        .step(262771200, -21600, 3600, "CDT", Ghost(g))
        .step(278492400, -21600, 0, "CST", Ghost(g))
        .step(294220800, -21600, 3600, "CDT", Ghost(g))
        .step(309942000, -21600, 0, "CST", Ghost(g))
        .step(325670400, -21600, 3600, "CDT", Ghost(g))
        .step(341391600, -21600, 0, "CST", Ghost(g))
        .step(357120000, -21600, 3600, "CDT", Ghost(g))
        .step(372841200, -21600, 0, "CST", Ghost(g))
        .step(388569600, -21600, 3600, "CDT", Ghost(g))
        .step(404895600, -21600, 0, "CST", Ghost(g))
        .step(420019200, -21600, 3600, "CDT", Ghost(g))
        .step(436345200, -21600, 0, "CST", Ghost(g))
        .step(452073600, -21600, 3600, "CDT", Ghost(g))
        .step(467794800, -21600, 0, "CST", Ghost(g))
        .step(483523200, -21600, 3600, "CDT", Ghost(g))
        .step(499244400, -21600, 0, "CST", Ghost(g))
        .step(514972800, -21600, 3600, "CDT", Ghost(g))
        .step(530694000, -21600, 0, "CST", Ghost(g))
        .step(544608000, -21600, 3600, "CDT", Ghost(g))
        .step(562143600, -21600, 0, "CST", Ghost(g))
        .step(576057600, -21600, 3600, "CDT", Ghost(g))
        .step(594198000, -21600, 0, "CST", Ghost(g))
        .step(607507200, -21600, 3600, "CDT", Ghost(g))
        .step(625647600, -21600, 0, "CST", Ghost(g))
        .step(638956800, -21600, 3600, "CDT", Ghost(g))
        .step(657097200, -21600, 0, "CST", Ghost(g))
        .step(671011200, -21600, 3600, "CDT", Ghost(g))
        .step(688546800, -18000, 0, "EST", Ghost(g))
        .step(1143961200, -21600, 3600, "CDT", Ghost(g))
        .step(1162105200, -21600, 0, "CST", Ghost(g))
        .step(1173600000, -21600, 3600, "CDT", Ghost(g))
        .step(1194159600, -21600, 0, "CST", Ghost(g))
        .step(1205049600, -21600, 3600, "CDT", Ghost(g))
        .step(1225609200, -21600, 0, "CST", Ghost(g))
        .step(1236499200, -21600, 3600, "CDT", Ghost(g))
        .step(1257058800, -21600, 0, "CST", Ghost(g))
        .step(1268553600, -21600, 3600, "CDT", Ghost(g))
        .step(1289113200, -21600, 0, "CST", Ghost(g))
        .step(1300003200, -21600, 3600, "CDT", Ghost(g))
        .step(1320562800, -21600, 0, "CST", Ghost(g))
        .step(1331452800, -21600, 3600, "CDT", Ghost(g))
        .step(1352012400, -21600, 0, "CST", Ghost(g))
        .step(1362902400, -21600, 3600, "CDT", Ghost(g))
        .step(1383462000, -21600, 0, "CST", Ghost(g))
        .step(1394352000, -21600, 3600, "CDT", Ghost(g))
        .step(1414911600, -21600, 0, "CST", Ghost(g))
        .step(1425801600, -21600, 3600, "CDT", Ghost(g))
        .step(1446361200, -21600, 0, "CST", Ghost(g))
        .step(1457856000, -21600, 3600, "CDT", Ghost(g))
        .step(1478415600, -21600, 0, "CST", Ghost(g))
        .step(1489305600, -21600, 3600, "CDT", Ghost(g))
        .step(1509865200, -21600, 0, "CST", Ghost(g))
        .step(1520755200, -21600, 3600, "CDT", Ghost(g))
        .step(1541314800, -21600, 0, "CST", Ghost(g))
        .step(1552204800, -21600, 3600, "CDT", Ghost(g))
        .step(1572764400, -21600, 0, "CST", Ghost(g))
        .step(1583654400, -21600, 3600, "CDT", Ghost(g))
        .step(1604214000, -21600, 0, "CST", Ghost(g))
        .step(1615708800, -21600, 3600, "CDT", Ghost(g))
        .step(1636268400, -21600, 0, "CST", Ghost(g))
        .step(1647158400, -21600, 3600, "CDT", Ghost(g))
        .step(1667718000, -21600, 0, "CST", Ghost(g))
        .step(1678608000, -21600, 3600, "CDT", Ghost(g))
        .step(1699167600, -21600, 0, "CST", Ghost(g))
        .step(1710057600, -21600, 3600, "CDT", Ghost(g))
        .step(1730617200, -21600, 0, "CST", Ghost(g))
        .step(1741507200, -21600, 3600, "CDT", Ghost(g))
        .step(1762066800, -21600, 0, "CST", Ghost(g))
        .step(1772956800, -21600, 3600, "CDT", Ghost(g))
        .step(1793516400, -21600, 0, "CST", Ghost(g))
        .step(1805011200, -21600, 3600, "CDT", Ghost(g))
        .step(1825570800, -21600, 0, "CST", Ghost(g))
        .step(1836460800, -21600, 3600, "CDT", Ghost(g))
        .step(1857020400, -21600, 0, "CST", Ghost(g))
        .step(1867910400, -21600, 3600, "CDT", Ghost(g))
        .step(1888470000, -21600, 0, "CST", Ghost(g))
        .step(1899360000, -21600, 3600, "CDT", Ghost(g))
        .step(1919919600, -21600, 0, "CST", Ghost(g))
        .step(1930809600, -21600, 3600, "CDT", Ghost(g))
        .step(1951369200, -21600, 0, "CST", Ghost(g))
        .step(1962864000, -21600, 3600, "CDT", Ghost(g))
        .step(1983423600, -21600, 0, "CST", Ghost(g))
        .step(1994313600, -21600, 3600, "CDT", Ghost(g))
        .step(2014873200, -21600, 0, "CST", Ghost(g))
        .step(2025763200, -21600, 3600, "CDT", Ghost(g))
        .step(2046322800, -21600, 0, "CST", Ghost(g))
        .step(2057212800, -21600, 3600, "CDT", Ghost(g))
        .step(2077772400, -21600, 0, "CST", Ghost(g))
        .step(2088662400, -21600, 3600, "CDT", Ghost(g))
        .step(2109222000, -21600, 0, "CST", Ghost(g))
        .step(2120112000, -21600, 3600, "CDT", Ghost(g))
        .step(2140671600, -21600, 0, "CST", Ghost(g))
        .finish(Ghost(g))
}

/// The zone `America/Indiana/Marengo`.
pub fn indiana_marengo() -> (r: Tz)
    ensures
        r.wf(),
        r.zone_name() == "America/Indiana/Marengo"@,
        r.table() == tables::america::indiana_marengo(),
{
    let ghost g = tables::america::indiana_marengo_rows();
    FixedTimespanSet::begin("America/Indiana/Marengo", -20723, 0, "LMT", Ghost(g))
        .step(-2717647200, -21600, 0, "CST", Ghost(g))
        .step(-1633276800, -21600, 3600, "CDT", Ghost(g))
        .step(-1615136400, -21600, 0, "CST", Ghost(g))
        .step(-1601827200, -21600, 3600, "CDT", Ghost(g))
        .step(-1583686800, -21600, 0, "CST", Ghost(g))
        .step(-880214400, -21600, 3600, "CWT", Ghost(g))
        .step(-769395600, -21600, 3600, "CPT", Ghost(g))
        .step(-765392400, -21600, 0, "CST", Ghost(g))
        .step(-589392000, -21600, 3600, "CDT", Ghost(g))
        .step(-576090000, -21600, 0, "CST", Ghost(g))
        .step(-495043200, -21600, 3600, "CDT", Ghost(g))
        .step(-481741200, -21600, 0, "CST", Ghost(g))
        .step(-463593600, -21600, 3600, "CDT", Ghost(g))
        .step(-450291600, -21600, 0, "CST", Ghost(g))
        .step(-431539200, -21600, 3600, "CDT", Ghost(g))
        .step(-418237200, -21600, 0, "CST", Ghost(g))
        .step(-400089600, -21600, 3600, "CDT", Ghost(g))
        .step(-386787600, -21600, 0, "CST", Ghost(g))
        .step(-368640000, -21600, 3600, "CDT", Ghost(g))
        .step(-355338000, -21600, 0, "CST", Ghost(g))
        .step(-337190400, -21600, 3600, "CDT", Ghost(g))
        .step(-323888400, -21600, 0, "CST", Ghost(g))
        .step(-305740800, -21600, 3600, "CDT", Ghost(g))
        .step(-292438800, -21600, 0, "CST", Ghost(g))
        .step(-273686400, -18000, 0, "EST", Ghost(g))
        .step(-21488400, -18000, 3600, "EDT", Ghost(g))
        .step(-5767200, -18000, 0, "EST", Ghost(g))
        .step(9961200, -18000, 3600, "EDT", Ghost(g))
        .step(25682400, -18000, 0, "EST", Ghost(g))
        .step(41410800, -18000, 3600, "EDT", Ghost(g))
        .step(57736800, -18000, 0, "EST", Ghost(g))
        .step(73465200, -18000, 3600, "EDT", Ghost(g))
        .step(89186400, -18000, 0, "EST", Ghost(g))
        .step(104914800, -18000, 3600, "EDT", Ghost(g))
        .step(120636000, -18000, 0, "EST", Ghost(g))
        .step(126687600, -21600, 3600, "CDT", Ghost(g))
        .step(152089200, -18000, 0, "EST", Ghost(g))
        .step(162370800, -18000, 3600, "EDT", Ghost(g))
        .step(183535200, -18000, 0, "EST", Ghost(g))
        .step(1143961200, -18000, 3600, "EDT", Ghost(g))
        .step(1162101600, -18000, 0, "EST", Ghost(g))
        .step(1173596400, -18000, 3600, "EDT", Ghost(g))
        .step(1194156000, -18000, 0, "EST", Ghost(g))
        .step(1205046000, -18000, 3600, "EDT", Ghost(g))
        .step(1225605600, -18000, 0, "EST", Ghost(g))
        .step(1236495600, -18000, 3600, "EDT", Ghost(g))
        .step(1257055200, -18000, 0, "EST", Ghost(g))
        .step(1268550000, -18000, 3600, "EDT", Ghost(g))
        .step(1289109600, -18000, 0, "EST", Ghost(g))
        .step(1299999600, -18000, 3600, "EDT", Ghost(g))
        .step(1320559200, -18000, 0, "EST", Ghost(g))
        .step(1331449200, -18000, 3600, "EDT", Ghost(g))
        .step(1352008800, -18000, 0, "EST", Ghost(g))
        .step(1362898800, -18000, 3600, "EDT", Ghost(g))
        .step(1383458400, -18000, 0, "EST", Ghost(g))
        .step(1394348400, -18000, 3600, "EDT", Ghost(g))
        .step(1414908000, -18000, 0, "EST", Ghost(g))
        .step(1425798000, -18000, 3600, "EDT", Ghost(g))
        .step(1446357600, -18000, 0, "EST", Ghost(g))
        .step(1457852400, -18000, 3600, "EDT", Ghost(g))
        .step(1478412000, -18000, 0, "EST", Ghost(g))
        .step(1489302000, -18000, 3600, "EDT", Ghost(g))
        .step(1509861600, -18000, 0, "EST", Ghost(g))
        .step(1520751600, -18000, 3600, "EDT", Ghost(g))
        .step(1541311200, -18000, 0, "EST", Ghost(g))
        .step(1552201200, -18000, 3600, "EDT", Ghost(g))
        .step(1572760800, -18000, 0, "EST", Ghost(g))
        .step(1583650800, -18000, 3600, "EDT", Ghost(g))
        .step(1604210400, -18000, 0, "EST", Ghost(g))
        .step(1615705200, -18000, 3600, "EDT", Ghost(g))
        .step(1636264800, -18000, 0, "EST", Ghost(g))
        .step(1647154800, -18000, 3600, "EDT", Ghost(g))
        .step(1667714400, -18000, 0, "EST", Ghost(g))
        .step(1678604400, -18000, 3600, "EDT", Ghost(g))
        .step(1699164000, -18000, 0, "EST", Ghost(g))
        .step(1710054000, -18000, 3600, "EDT", Ghost(g))
        .step(1730613600, -18000, 0, "EST", Ghost(g))
        .step(1741503600, -18000, 3600, "EDT", Ghost(g))
        .step(1762063200, -18000, 0, "EST", Ghost(g))
        .step(1772953200, -18000, 3600, "EDT", Ghost(g))
        .step(1793512800, -18000, 0, "EST", Ghost(g))
        .step(1805007600, -18000, 3600, "EDT", Ghost(g))
        .step(1825567200, -18000, 0, "EST", Ghost(g))
        .step(1836457200, -18000, 3600, "EDT", Ghost(g))
        .step(1857016800, -18000, 0, "EST", Ghost(g))
        .step(1867906800, -18000, 3600, "EDT", Ghost(g))
        .step(1888466400, -18000, 0, "EST", Ghost(g))
        .step(1899356400, -18000, 3600, "EDT", Ghost(g))
        .step(1919916000, -18000, 0, "EST", Ghost(g))
        .step(1930806000, -18000, 3600, "EDT", Ghost(g))
        .step(1951365600, -18000, 0, "EST", Ghost(g))
        .step(1962860400, -18000, 3600, "EDT", Ghost(g))
        .step(1983420000, -18000, 0, "EST", Ghost(g))
        .step(1994310000, -18000, 3600, "EDT", Ghost(g))
        .step(2014869600, -18000, 0, "EST", Ghost(g))
        .step(2025759600, -18000, 3600, "EDT", Ghost(g))
        .step(2046319200, -18000, 0, "EST", Ghost(g))
        .step(2057209200, -18000, 3600, "EDT", Ghost(g))
        .step(2077768800, -18000, 0, "EST", Ghost(g))
        .step(2088658800, -18000, 3600, "EDT", Ghost(g))
        .step(2109218400, -18000, 0, "EST", Ghost(g))
        .step(2120108400, -18000, 3600, "EDT", Ghost(g))
        .step(2140668000, -18000, 0, "EST", Ghost(g))
        .finish(Ghost(g))
}

/// The zone `America/Indiana/Petersburg`.
pub fn indiana_petersburg() -> (r: Tz)
    ensures
        r.wf(),
        r.zone_name() == "America/Indiana/Petersburg"@,
        r.table() == tables::america::indiana_petersburg(),
{
    let ghost g = tables::america::indiana_petersburg_rows();
    FixedTimespanSet::begin("America/Indiana/Petersburg", -20947, 0, "LMT", Ghost(g))
        .step(-2717647200, -21600, 0, "CST", Ghost(g))
        .step(-1633276800, -21600, 3600, "CDT", Ghost(g))
        .step(-1615136400, -21600, 0, "CST", Ghost(g))
        .step(-1601827200, -21600, 3600, "CDT", Ghost(g))
        .step(-1583686800, -21600, 0, "CST", Ghost(g))
        .step(-880214400, -21600, 3600, "CWT", Ghost(g))
        .step(-769395600, -21600, 3600, "CPT", Ghost(g))
        .step(-765392400, -21600, 0, "CST", Ghost(g))
        .step(-462996000, -21600, 3600, "CDT", Ghost(g))
        .step(-450291600, -21600, 0, "CST", Ghost(g))
        .step(-431539200, -21600, 3600, "CDT", Ghost(g))
        .step(-418237200, -21600, 0, "CST", Ghost(g))
        .step(-400089600, -21600, 3600, "CDT", Ghost(g))
        .step(-386787600, -21600, 0, "CST", Ghost(g))
        .step(-368640000, -21600, 3600, "CDT", Ghost(g))
        .step(-355338000, -21600, 0, "CST", Ghost(g))
        .step(-337190400, -21600, 3600, "CDT", Ghost(g))
        .step(-323888400, -21600, 0, "CST", Ghost(g))
        .step(-305740800, -21600, 3600, "CDT", Ghost(g))
        .step(-292438800, -21600, 0, "CST", Ghost(g))
        .step(-273686400, -21600, 3600, "CDT", Ghost(g))
        .step(-257965200, -21600, 0, "CST", Ghost(g))
        .step(-242236800, -21600, 3600, "CDT", Ghost(g))
        .step(-226515600, -21600, 0, "CST", Ghost(g))
        .step(-210787200, -21600, 3600, "CDT", Ghost(g))
        .step(-195066000, -21600, 0, "CST", Ghost(g))
        .step(-179337600, -21600, 3600, "CDT", Ghost(g))
        .step(-163616400, -21600, 0, "CST", Ghost(g))
        .step(-147888000, -18000, 0, "EST", Ghost(g))
        .step(-100112400, -21600, 0, "CST", Ghost(g))
        .step(-84384000, -21600, 3600, "CDT", Ghost(g))
        .step(-68662800, -21600, 0, "CST", Ghost(g))
        .step(-52934400, -21600, 3600, "CDT", Ghost(g))
        .step(-37213200, -21600, 0, "CST", Ghost(g))
        .step(-21484800, -21600, 3600, "CDT", Ghost(g))
        .step(-5763600, -21600, 0, "CST", Ghost(g))
        .step(9964800, -21600, 3600, "CDT", Ghost(g))
        .step(25686000, -21600, 0, "CST", Ghost(g))
        .step(41414400, -21600, 3600, "CDT", Ghost(g))
        .step(57740400, -21600, 0, "CST", Ghost(g))
        .step(73468800, -21600, 3600, "CDT", Ghost(g))
        .step(89190000, -21600, 0, "CST", Ghost(g))
        .step(104918400, -21600, 3600, "CDT", Ghost(g))
        .step(120639600, -21600, 0, "CST", Ghost(g))
        .step(126691200, -21600, 3600, "CDT", Ghost(g))
        .step(152089200, -21600, 0, "CST", Ghost(g))
        .step(162374400, -21600, 3600, "CDT", Ghost(g))
        .step(183538800, -21600, 0, "CST", Ghost(g))
        .step(199267200, -21600, 3600, "CDT", Ghost(g))
        .step(215593200, -21600, 0, "CST", Ghost(g))
        .step(230716800, -21600, 3600, "CDT", Ghost(g))
        .step(247042800, -18000, 0, "EST", Ghost(g))
        .step(1143961200, -21600, 3600, "CDT", Ghost(g))
        .step(1162105200, -21600, 0, "CST", Ghost(g))
        .step(1173600000, -21600, 3600, "CDT", Ghost(g))
        .step(1194159600, -18000, 0, "EST", Ghost(g))
        .step(1205046000, -18000, 3600, "EDT", Ghost(g))
        .step(1225605600, -18000, 0, "EST", Ghost(g))
        .step(1236495600, -18000, 3600, "EDT", Ghost(g))
        .step(1257055200, -18000, 0, "EST", Ghost(g))
        .step(1268550000, -18000, 3600, "EDT", Ghost(g))
        .step(1289109600, -18000, 0, "EST", Ghost(g))
        .step(1299999600, -18000, 3600, "EDT", Ghost(g))
        .step(1320559200, -18000, 0, "EST", Ghost(g))
        .step(1331449200, -18000, 3600, "EDT", Ghost(g))
        .step(1352008800, -18000, 0, "EST", Ghost(g))
        .step(1362898800, -18000, 3600, "EDT", Ghost(g))
        .step(1383458400, -18000, 0, "EST", Ghost(g))
        .step(1394348400, -18000, 3600, "EDT", Ghost(g))
        .step(1414908000, -18000, 0, "EST", Ghost(g))
        .step(1425798000, -18000, 3600, "EDT", Ghost(g))
        .step(1446357600, -18000, 0, "EST", Ghost(g))
        .step(1457852400, -18000, 3600, "EDT", Ghost(g))
        .step(1478412000, -18000, 0, "EST", Ghost(g))
        .step(1489302000, -18000, 3600, "EDT", Ghost(g))
        .step(1509861600, -18000, 0, "EST", Ghost(g))
        .step(1520751600, -18000, 3600, "EDT", Ghost(g))
        .step(1541311200, -18000, 0, "EST", Ghost(g))
        .step(1552201200, -18000, 3600, "EDT", Ghost(g))
        .step(1572760800, -18000, 0, "EST", Ghost(g))
        .step(1583650800, -18000, 3600, "EDT", Ghost(g))
        .step(1604210400, -18000, 0, "EST", Ghost(g))
        .step(1615705200, -18000, 3600, "EDT", Ghost(g))
        .step(1636264800, -18000, 0, "EST", Ghost(g))
        .step(1647154800, -18000, 3600, "EDT", Ghost(g))
        .step(1667714400, -18000, 0, "EST", Ghost(g))
        .step(1678604400, -18000, 3600, "EDT", Ghost(g))
        .step(1699164000, -18000, 0, "EST", Ghost(g))
        .step(1710054000, -18000, 3600, "EDT", Ghost(g))
        .step(1730613600, -18000, 0, "EST", Ghost(g))
        .step(1741503600, -18000, 3600, "EDT", Ghost(g))
        .step(1762063200, -18000, 0, "EST", Ghost(g))
        .step(1772953200, -18000, 3600, "EDT", Ghost(g))
        .step(1793512800, -18000, 0, "EST", Ghost(g))
        .step(1805007600, -18000, 3600, "EDT", Ghost(g))
        .step(1825567200, -18000, 0, "EST", Ghost(g))
        .step(1836457200, -18000, 3600, "EDT", Ghost(g))
        .step(1857016800, -18000, 0, "EST", Ghost(g))
        .step(1867906800, -18000, 3600, "EDT", Ghost(g))
        .step(1888466400, -18000, 0, "EST", Ghost(g))
        .step(1899356400, -18000, 3600, "EDT", Ghost(g))
        .step(1919916000, -18000, 0, "EST", Ghost(g))
        .step(1930806000, -18000, 3600, "EDT", Ghost(g))
        .step(1951365600, -18000, 0, "EST", Ghost(g))
        .step(1962860400, -18000, 3600, "EDT", Ghost(g))
        .step(1983420000, -18000, 0, "EST", Ghost(g))
        .step(1994310000, -18000, 3600, "EDT", Ghost(g))
        .step(2014869600, -18000, 0, "EST", Ghost(g))
        .step(2025759600, -18000, 3600, "EDT", Ghost(g))
        .step(2046319200, -18000, 0, "EST", Ghost(g))
        .step(2057209200, -18000, 3600, "EDT", Ghost(g))
        .step(2077768800, -18000, 0, "EST", Ghost(g))
        .step(2088658800, -18000, 3600, "EDT", Ghost(g))
        .step(2109218400, -18000, 0, "EST", Ghost(g))
        .step(2120108400, -18000, 3600, "EDT", Ghost(g))
        .step(2140668000, -18000, 0, "EST", Ghost(g))
        .finish(Ghost(g))
}

/// The zone `America/Indiana/Tell_City`.
pub fn indiana_tell_city() -> (r: Tz)
    ensures
        r.wf(),
        r.zone_name() == "America/Indiana/Tell_City"@,
        r.table() == tables::america::indiana_tell_city(),
{
    let ghost g = tables::america::indiana_tell_city_rows();
    FixedTimespanSet::begin("America/Indiana/Tell_City", -20823, 0, "LMT", Ghost(g))
        .step(-2717647200, -21600, 0, "CST", Ghost(g))
        .step(-1633276800, -21600, 3600, "CDT", Ghost(g))
        .step(-1615136400, -21600, 0, "CST", Ghost(g))
        .step(-1601827200, -21600, 3600, "CDT", Ghost(g))
        .step(-1583686800, -21600, 0, "CST", Ghost(g))
        .step(-880214400, -21600, 3600, "CWT", Ghost(g))
        .step(-769395600, -21600, 3600, "CPT", Ghost(g))
        .step(-765392400, -21600, 0, "CST", Ghost(g))
        .step(-462996000, -21600, 3600, "CDT", Ghost(g))
        .step(-450291600, -21600, 0, "CST", Ghost(g))
        .step(-431539200, -21600, 3600, "CDT", Ghost(g))
        .step(-418237200, -21600, 0, "CST", Ghost(g))
        .step(-400089600, -21600, 3600, "CDT", Ghost(g))
        .step(-386787600, -21600, 0, "CST", Ghost(g))
        .step(-368640000, -21600, 3600, "CDT", Ghost(g))
        .step(-355338000, -21600, 0, "CST", Ghost(g))
        .step(-337190400, -21600, 3600, "CDT", Ghost(g))
        .step(-323888400, -21600, 0, "CST", Ghost(g))
        .step(-305740800, -21600, 3600, "CDT", Ghost(g))
        .step(-292438800, -21600, 0, "CST", Ghost(g))
        .step(-273686400, -21600, 3600, "CDT", Ghost(g))
        .step(-257965200, -21600, 0, "CST", Ghost(g))
        .step(-242236800, -21600, 3600, "CDT", Ghost(g))
        .step(-226515600, -21600, 0, "CST", Ghost(g))
        .step(-210787200, -21600, 3600, "CDT", Ghost(g))
        .step(-195066000, -21600, 0, "CST", Ghost(g))
        .step(-179337600, -18000, 0, "EST", Ghost(g))
        .step(-68662800, -21600, 0, "CST", Ghost(g))
        .step(-52934400, -21600, 3600, "CDT", Ghost(g))
        .step(-37213200, -21600, 0, "CST", Ghost(g))
        .step(-21484800, -21600, 7200, "EDT", Ghost(g))
        .step(-5767200, -18000, 0, "EST", Ghost(g))
        .step(9961200, -18000, 3600, "EDT", Ghost(g))
        .step(25682400, -18000, 0, "EST", Ghost(g))
        .step(1143961200, -21600, 3600, "CDT", Ghost(g))
        .step(1162105200, -21600, 0, "CST", Ghost(g))
        .step(1173600000, -21600, 3600, "CDT", Ghost(g))
        .step(1194159600, -21600, 0, "CST", Ghost(g))
        .step(1205049600, -21600, 3600, "CDT", Ghost(g))
        .step(1225609200, -21600, 0, "CST", Ghost(g))
        .step(1236499200, -21600, 3600, "CDT", Ghost(g))
        .step(1257058800, -21600, 0, "CST", Ghost(g))
        .step(1268553600, -21600, 3600, "CDT", Ghost(g))
        .step(1289113200, -21600, 0, "CST", Ghost(g))
        .step(1300003200, -21600, 3600, "CDT", Ghost(g))
        .step(1320562800, -21600, 0, "CST", Ghost(g))
        .step(1331452800, -21600, 3600, "CDT", Ghost(g))
        .step(1352012400, -21600, 0, "CST", Ghost(g))
        .step(1362902400, -21600, 3600, "CDT", Ghost(g))
        .step(1383462000, -21600, 0, "CST", Ghost(g))
        .step(1394352000, -21600, 3600, "CDT", Ghost(g))
        .step(1414911600, -21600, 0, "CST", Ghost(g))
        .step(1425801600, -21600, 3600, "CDT", Ghost(g))
        .step(1446361200, -21600, 0, "CST", Ghost(g))
        .step(1457856000, -21600, 3600, "CDT", Ghost(g))
        .step(1478415600, -21600, 0, "CST", Ghost(g))
        .step(1489305600, -21600, 3600, "CDT", Ghost(g))
        .step(1509865200, -21600, 0, "CST", Ghost(g))
        .step(1520755200, -21600, 3600, "CDT", Ghost(g))
        .step(1541314800, -21600, 0, "CST", Ghost(g))
        .step(1552204800, -21600, 3600, "CDT", Ghost(g))
        .step(1572764400, -21600, 0, "CST", Ghost(g))
        .step(1583654400, -21600, 3600, "CDT", Ghost(g))
        .step(1604214000, -21600, 0, "CST", Ghost(g))
        .step(1615708800, -21600, 3600, "CDT", Ghost(g))
        .step(1636268400, -21600, 0, "CST", Ghost(g))
        .step(1647158400, -21600, 3600, "CDT", Ghost(g))
        .step(1667718000, -21600, 0, "CST", Ghost(g))
        .step(1678608000, -21600, 3600, "CDT", Ghost(g))
        .step(1699167600, -21600, 0, "CST", Ghost(g))
        .step(1710057600, -21600, 3600, "CDT", Ghost(g))
        .step(1730617200, -21600, 0, "CST", Ghost(g))
        .step(1741507200, -21600, 3600, "CDT", Ghost(g))
        .step(1762066800, -21600, 0, "CST", Ghost(g))
        .step(1772956800, -21600, 3600, "CDT", Ghost(g))
        .step(1793516400, -21600, 0, "CST", Ghost(g))
        .step(1805011200, -21600, 3600, "CDT", Ghost(g))
        .step(1825570800, -21600, 0, "CST", Ghost(g))
        .step(1836460800, -21600, 3600, "CDT", Ghost(g))
        .step(1857020400, -21600, 0, "CST", Ghost(g))
        .step(1867910400, -21600, 3600, "CDT", Ghost(g))
        .step(1888470000, -21600, 0, "CST", Ghost(g))
        .step(1899360000, -21600, 3600, "CDT", Ghost(g))
        .step(1919919600, -21600, 0, "CST", Ghost(g))
        .step(1930809600, -21600, 3600, "CDT", Ghost(g))
        .step(1951369200, -21600, 0, "CST", Ghost(g))
        .step(1962864000, -21600, 3600, "CDT", Ghost(g))
        .step(1983423600, -21600, 0, "CST", Ghost(g))
        .step(1994313600, -21600, 3600, "CDT", Ghost(g))
        .step(2014873200, -21600, 0, "CST", Ghost(g))
        .step(2025763200, -21600, 3600, "CDT", Ghost(g))
        .step(2046322800, -21600, 0, "CST", Ghost(g))
        .step(2057212800, -21600, 3600, "CDT", Ghost(g))
        .step(2077772400, -21600, 0, "CST", Ghost(g))
        .step(2088662400, -21600, 3600, "CDT", Ghost(g))
        .step(2109222000, -21600, 0, "CST", Ghost(g))
        .step(2120112000, -21600, 3600, "CDT", Ghost(g))
        .step(2140671600, -21600, 0, "CST", Ghost(g))
        .finish(Ghost(g))
}

/// The zone `America/Indiana/Vevay`.
pub fn indiana_vevay() -> (r: Tz)
    ensures
        r.wf(),
        r.zone_name() == "America/Indiana/Vevay"@,
        r.table() == tables::america::indiana_vevay(),
{
    let ghost g = tables::america::indiana_vevay_rows();
    FixedTimespanSet::begin("America/Indiana/Vevay", -20416, 0, "LMT", Ghost(g))
        .step(-2717647200, -21600, 0, "CST", Ghost(g))
        .step(-1633276800, -21600, 3600, "CDT", Ghost(g))
        .step(-1615136400, -21600, 0, "CST", Ghost(g))
        .step(-1601827200, -21600, 3600, "CDT", Ghost(g))
        .step(-1583686800, -21600, 0, "CST", Ghost(g))
        .step(-880214400, -21600, 3600, "CWT", Ghost(g))
        .step(-769395600, -21600, 3600, "CPT", Ghost(g))
        .step(-765392400, -21600, 0, "CST", Ghost(g))
        .step(-495043200, -18000, 0, "EST", Ghost(g))
        .step(-21488400, -18000, 3600, "EDT", Ghost(g))
        .step(-5767200, -18000, 0, "EST", Ghost(g))
        .step(9961200, -18000, 3600, "EDT", Ghost(g))
        .step(25682400, -18000, 0, "EST", Ghost(g))
        .step(41410800, -18000, 3600, "EDT", Ghost(g))
        .step(57736800, -18000, 0, "EST", Ghost(g))
        .step(73465200, -18000, 3600, "EDT", Ghost(g))
        .step(89186400, -18000, 0, "EST", Ghost(g))
        .step(1143961200, -18000, 3600, "EDT", Ghost(g))
        .step(1162101600, -18000, 0, "EST", Ghost(g))
        .step(1173596400, -18000, 3600, "EDT", Ghost(g))
        .step(1194156000, -18000, 0, "EST", Ghost(g))
        .step(1205046000, -18000, 3600, "EDT", Ghost(g))
        .step(1225605600, -18000, 0, "EST", Ghost(g))
        .step(1236495600, -18000, 3600, "EDT", Ghost(g))
        .step(1257055200, -18000, 0, "EST", Ghost(g))
        .step(1268550000, -18000, 3600, "EDT", Ghost(g))
        .step(1289109600, -18000, 0, "EST", Ghost(g))
        .step(1299999600, -18000, 3600, "EDT", Ghost(g))
        .step(1320559200, -18000, 0, "EST", Ghost(g))
        .step(1331449200, -18000, 3600, "EDT", Ghost(g))
        .step(1352008800, -18000, 0, "EST", Ghost(g))
        .step(1362898800, -18000, 3600, "EDT", Ghost(g))
        .step(1383458400, -18000, 0, "EST", Ghost(g))
        .step(1394348400, -18000, 3600, "EDT", Ghost(g))
        .step(1414908000, -18000, 0, "EST", Ghost(g))
        .step(1425798000, -18000, 3600, "EDT", Ghost(g))
        .step(1446357600, -18000, 0, "EST", Ghost(g))
        .step(1457852400, -18000, 3600, "EDT", Ghost(g))
        .step(1478412000, -18000, 0, "EST", Ghost(g))
        .step(1489302000, -18000, 3600, "EDT", Ghost(g))
        .step(1509861600, -18000, 0, "EST", Ghost(g))
        .step(1520751600, -18000, 3600, "EDT", Ghost(g))
        .step(1541311200, -18000, 0, "EST", Ghost(g))
        .step(1552201200, -18000, 3600, "EDT", Ghost(g))
        .step(1572760800, -18000, 0, "EST", Ghost(g))
        .step(1583650800, -18000, 3600, "EDT", Ghost(g))
        .step(1604210400, -18000, 0, "EST", Ghost(g))
        .step(1615705200, -18000, 3600, "EDT", Ghost(g))
        .step(1636264800, -18000, 0, "EST", Ghost(g))
        .step(1647154800, -18000, 3600, "EDT", Ghost(g))
        .step(1667714400, -18000, 0, "EST", Ghost(g))
        .step(1678604400, -18000, 3600, "EDT", Ghost(g))
        .step(1699164000, -18000, 0, "EST", Ghost(g))
        .step(1710054000, -18000, 3600, "EDT", Ghost(g))
        .step(1730613600, -18000, 0, "EST", Ghost(g))
        .step(1741503600, -18000, 3600, "EDT", Ghost(g))
        .step(1762063200, -18000, 0, "EST", Ghost(g))
        .step(1772953200, -18000, 3600, "EDT", Ghost(g))
        .step(1793512800, -18000, 0, "EST", Ghost(g))
        .step(1805007600, -18000, 3600, "EDT", Ghost(g))
        .step(1825567200, -18000, 0, "EST", Ghost(g))
        .step(1836457200, -18000, 3600, "EDT", Ghost(g))
        .step(1857016800, -18000, 0, "EST", Ghost(g))
        .step(1867906800, -18000, 3600, "EDT", Ghost(g))
        .step(1888466400, -18000, 0, "EST", Ghost(g))
        .step(1899356400, -18000, 3600, "EDT", Ghost(g))
        .step(1919916000, -18000, 0, "EST", Ghost(g))
        .step(1930806000, -18000, 3600, "EDT", Ghost(g))
        .step(1951365600, -18000, 0, "EST", Ghost(g))
        .step(1962860400, -18000, 3600, "EDT", Ghost(g))
        .step(1983420000, -18000, 0, "EST", Ghost(g))
        .step(1994310000, -18000, 3600, "EDT", Ghost(g))
        .step(2014869600, -18000, 0, "EST", Ghost(g))
        .step(2025759600, -18000, 3600, "EDT", Ghost(g))
        .step(2046319200, -18000, 0, "EST", Ghost(g))
        .step(2057209200, -18000, 3600, "EDT", Ghost(g))
        .step(2077768800, -18000, 0, "EST", Ghost(g))
        .step(2088658800, -18000, 3600, "EDT", Ghost(g))
        .step(2109218400, -18000, 0, "EST", Ghost(g))
        .step(2120108400, -18000, 3600, "EDT", Ghost(g))
        .step(2140668000, -18000, 0, "EST", Ghost(g))
        .finish(Ghost(g))
}

/// The zone `America/Indiana/Vincennes`.
pub fn indiana_vincennes() -> (r: Tz)
    ensures
        r.wf(),
        r.zone_name() == "America/Indiana/Vincennes"@,
        r.table() == tables::america::indiana_vincennes(),
{
    let ghost g = tables::america::indiana_vincennes_rows();
    FixedTimespanSet::begin("America/Indiana/Vincennes", -21007, 0, "LMT", Ghost(g))
        .step(-2717647200, -21600, 0, "CST", Ghost(g))
        .step(-1633276800, -21600, 3600, "CDT", Ghost(g))
        .step(-1615136400, -21600, 0, "CST", Ghost(g))
        .step(-1601827200, -21600, 3600, "CDT", Ghost(g))
        .step(-1583686800, -21600, 0, "CST", Ghost(g))
        .step(-880214400, -21600, 3600, "CWT", Ghost(g))
        .step(-769395600, -21600, 3600, "CPT", Ghost(g))
        .step(-765392400, -21600, 0, "CST", Ghost(g))
        .step(-747244800, -21600, 3600, "CDT", Ghost(g))
        .step(-733942800, -21600, 0, "CST", Ghost(g))
        .step(-526492800, -21600, 3600, "CDT", Ghost(g))
        .step(-513190800, -21600, 0, "CST", Ghost(g))
        .step(-495043200, -21600, 3600, "CDT", Ghost(g))
        .step(-481741200, -21600, 0, "CST", Ghost(g))
        .step(-462996000, -21600, 3600, "CDT", Ghost(g))
        .step(-450291600, -21600, 0, "CST", Ghost(g))
        .step(-431539200, -21600, 3600, "CDT", Ghost(g))
        .step(-418237200, -21600, 0, "CST", Ghost(g))
        .step(-400089600, -21600, 3600, "CDT", Ghost(g))
        .step(-386787600, -21600, 0, "CST", Ghost(g))
        .step(-368640000, -21600, 3600, "CDT", Ghost(g))
        .step(-355338000, -21600, 0, "CST", Ghost(g))
        .step(-337190400, -21600, 3600, "CDT", Ghost(g))
        .step(-323888400, -21600, 0, "CST", Ghost(g))
        .step(-305740800, -21600, 3600, "CDT", Ghost(g))
        .step(-289414800, -21600, 0, "CST", Ghost(g))
        .step(-273686400, -21600, 3600, "CDT", Ghost(g))
        .step(-260989200, -21600, 0, "CST", Ghost(g))
        .step(-242236800, -21600, 3600, "CDT", Ghost(g))
        .step(-226515600, -21600, 0, "CST", Ghost(g))
        .step(-210787200, -21600, 3600, "CDT", Ghost(g))
        .step(-195066000, -21600, 0, "CST", Ghost(g))
        .step(-179337600, -18000, 0, "EST", Ghost(g))
        .step(-21488400, -18000, 3600, "EDT", Ghost(g))
        .step(-5767200, -18000, 0, "EST", Ghost(g))
        .step(9961200, -18000, 3600, "EDT", Ghost(g))
        .step(25682400, -18000, 0, "EST", Ghost(g))
        .step(1143961200, -21600, 3600, "CDT", Ghost(g))
        .step(1162105200, -21600, 0, "CST", Ghost(g))
        .step(1173600000, -21600, 3600, "CDT", Ghost(g))
        .step(1194159600, -18000, 0, "EST", Ghost(g))
        .step(1205046000, -18000, 3600, "EDT", Ghost(g))
        .step(1225605600, -18000, 0, "EST", Ghost(g))
        .step(1236495600, -18000, 3600, "EDT", Ghost(g))
        .step(1257055200, -18000, 0, "EST", Ghost(g))
        .step(1268550000, -18000, 3600, "EDT", Ghost(g))
        .step(1289109600, -18000, 0, "EST", Ghost(g))
        .step(1299999600, -18000, 3600, "EDT", Ghost(g))
        .step(1320559200, -18000, 0, "EST", Ghost(g))
        .step(1331449200, -18000, 3600, "EDT", Ghost(g))
        .step(1352008800, -18000, 0, "EST", Ghost(g))
        .step(1362898800, -18000, 3600, "EDT", Ghost(g))
        .step(1383458400, -18000, 0, "EST", Ghost(g))
        .step(1394348400, -18000, 3600, "EDT", Ghost(g))
        .step(1414908000, -18000, 0, "EST", Ghost(g))
        .step(1425798000, -18000, 3600, "EDT", Ghost(g))
        .step(1446357600, -18000, 0, "EST", Ghost(g))
        .step(1457852400, -18000, 3600, "EDT", Ghost(g))
        .step(1478412000, -18000, 0, "EST", Ghost(g))
        .step(1489302000, -18000, 3600, "EDT", Ghost(g))
        .step(1509861600, -18000, 0, "EST", Ghost(g))
        .step(1520751600, -18000, 3600, "EDT", Ghost(g))
        .step(1541311200, -18000, 0, "EST", Ghost(g))
        .step(1552201200, -18000, 3600, "EDT", Ghost(g))
        .step(1572760800, -18000, 0, "EST", Ghost(g))
        .step(1583650800, -18000, 3600, "EDT", Ghost(g))
        .step(1604210400, -18000, 0, "EST", Ghost(g))
        .step(1615705200, -18000, 3600, "EDT", Ghost(g))
        .step(1636264800, -18000, 0, "EST", Ghost(g))
        .step(1647154800, -18000, 3600, "EDT", Ghost(g))
        .step(1667714400, -18000, 0, "EST", Ghost(g))
        .step(1678604400, -18000, 3600, "EDT", Ghost(g))
        .step(1699164000, -18000, 0, "EST", Ghost(g))
        .step(1710054000, -18000, 3600, "EDT", Ghost(g))
        .step(1730613600, -18000, 0, "EST", Ghost(g))
        .step(1741503600, -18000, 3600, "EDT", Ghost(g))
        .step(1762063200, -18000, 0, "EST", Ghost(g))
        .step(1772953200, -18000, 3600, "EDT", Ghost(g))
        .step(1793512800, -18000, 0, "EST", Ghost(g))
        .step(1805007600, -18000, 3600, "EDT", Ghost(g))
        .step(1825567200, -18000, 0, "EST", Ghost(g))
        .step(1836457200, -18000, 3600, "EDT", Ghost(g))
        .step(1857016800, -18000, 0, "EST", Ghost(g))
        .step(1867906800, -18000, 3600, "EDT", Ghost(g))
        .step(1888466400, -18000, 0, "EST", Ghost(g))
        .step(1899356400, -18000, 3600, "EDT", Ghost(g))
        .step(1919916000, -18000, 0, "EST", Ghost(g))
        .step(1930806000, -18000, 3600, "EDT", Ghost(g))
        .step(1951365600, -18000, 0, "EST", Ghost(g))
        .step(1962860400, -18000, 3600, "EDT", Ghost(g))
        .step(1983420000, -18000, 0, "EST", Ghost(g))
        .step(1994310000, -18000, 3600, "EDT", Ghost(g))
        .step(2014869600, -18000, 0, "EST", Ghost(g))
        .step(2025759600, -18000, 3600, "EDT", Ghost(g))
        .step(2046319200, -18000, 0, "EST", Ghost(g))
        .step(2057209200, -18000, 3600, "EDT", Ghost(g))
        .step(2077768800, -18000, 0, "EST", Ghost(g))
        .step(2088658800, -18000, 3600, "EDT", Ghost(g))
        .step(2109218400, -18000, 0, "EST", Ghost(g))
        .step(2120108400, -18000, 3600, "EDT", Ghost(g))
        .step(2140668000, -18000, 0, "EST", Ghost(g))
        .finish(Ghost(g))
}

/// The zone `America/Indiana/Winamac`.
pub fn indiana_winamac() -> (r: Tz)
    ensures
        r.wf(),
        r.zone_name() == "America/Indiana/Winamac"@,
        r.table() == tables::america::indiana_winamac(),
{
    let ghost g = tables::america::indiana_winamac_rows();
    FixedTimespanSet::begin("America/Indiana/Winamac", -20785, 0, "LMT", Ghost(g))
        .step(-2717647200, -21600, 0, "CST", Ghost(g))
        .step(-1633276800, -21600, 3600, "CDT", Ghost(g))
        .step(-1615136400, -21600, 0, "CST", Ghost(g))
        .step(-1601827200, -21600, 3600, "CDT", Ghost(g))
        .step(-1583686800, -21600, 0, "CST", Ghost(g))
        .step(-880214400, -21600, 3600, "CWT", Ghost(g))
        .step(-769395600, -21600, 3600, "CPT", Ghost(g))
        .step(-765392400, -21600, 0, "CST", Ghost(g))
        .step(-747244800, -21600, 3600, "CDT", Ghost(g))
        .step(-733942800, -21600, 0, "CST", Ghost(g))
        .step(-715795200, -21600, 3600, "CDT", Ghost(g))
        .step(-702493200, -21600, 0, "CST", Ghost(g))
        .step(-684345600, -21600, 3600, "CDT", Ghost(g))
        .step(-671043600, -21600, 0, "CST", Ghost(g))
        .step(-652896000, -21600, 3600, "CDT", Ghost(g))
        .step(-639594000, -21600, 0, "CST", Ghost(g))
        .step(-620841600, -21600, 3600, "CDT", Ghost(g))
        .step(-608144400, -21600, 0, "CST", Ghost(g))
        .step(-589392000, -21600, 3600, "CDT", Ghost(g))
        .step(-576090000, -21600, 0, "CST", Ghost(g))
        .step(-557942400, -21600, 3600, "CDT", Ghost(g))
        .step(-544640400, -21600, 0, "CST", Ghost(g))
        .step(-526492800, -21600, 3600, "CDT", Ghost(g))
        .step(-513190800, -21600, 0, "CST", Ghost(g))
        .step(-495043200, -21600, 3600, "CDT", Ghost(g))
        .step(-481741200, -21600, 0, "CST", Ghost(g))
        .step(-463593600, -21600, 3600, "CDT", Ghost(g))
        .step(-447267600, -21600, 0, "CST", Ghost(g))
        .step(-431539200, -21600, 3600, "CDT", Ghost(g))
        .step(-415818000, -21600, 0, "CST", Ghost(g))
        .step(-400089600, -21600, 3600, "CDT", Ghost(g))
        .step(-386787600, -21600, 0, "CST", Ghost(g))
        .step(-368640000, -21600, 3600, "CDT", Ghost(g))
        .step(-355338000, -21600, 0, "CST", Ghost(g))
        .step(-337190400, -21600, 3600, "CDT", Ghost(g))
        .step(-323888400, -21600, 0, "CST", Ghost(g))
        .step(-305740800, -21600, 3600, "CDT", Ghost(g))
        .step(-292438800, -21600, 0, "CST", Ghost(g))
        .step(-273686400, -18000, 0, "EST", Ghost(g))
        .step(-21488400, -18000, 3600, "EDT", Ghost(g))
        .step(-5767200, -18000, 0, "EST", Ghost(g))
        .step(9961200, -18000, 3600, "EDT", Ghost(g))
        .step(25682400, -18000, 0, "EST", Ghost(g))
        .step(1143961200, -21600, 3600, "CDT", Ghost(g))
        .step(1162105200, -21600, 0, "CST", Ghost(g))
        .step(1173600000, -21600, 7200, "EDT", Ghost(g))
        .step(1194156000, -18000, 0, "EST", Ghost(g))
        .step(1205046000, -18000, 3600, "EDT", Ghost(g))
        .step(1225605600, -18000, 0, "EST", Ghost(g))
        .step(1236495600, -18000, 3600, "EDT", Ghost(g))
        .step(1257055200, -18000, 0, "EST", Ghost(g))
        .step(1268550000, -18000, 3600, "EDT", Ghost(g))
        .step(1289109600, -18000, 0, "EST", Ghost(g))
        .step(1299999600, -18000, 3600, "EDT", Ghost(g))
        .step(1320559200, -18000, 0, "EST", Ghost(g))
        .step(1331449200, -18000, 3600, "EDT", Ghost(g))
        .step(1352008800, -18000, 0, "EST", Ghost(g))
        .step(1362898800, -18000, 3600, "EDT", Ghost(g))
        .step(1383458400, -18000, 0, "EST", Ghost(g))
        .step(1394348400, -18000, 3600, "EDT", Ghost(g))
        .step(1414908000, -18000, 0, "EST", Ghost(g))
        .step(1425798000, -18000, 3600, "EDT", Ghost(g))
        .step(1446357600, -18000, 0, "EST", Ghost(g))
        .step(1457852400, -18000, 3600, "EDT", Ghost(g))
        .step(1478412000, -18000, 0, "EST", Ghost(g))
        .step(1489302000, -18000, 3600, "EDT", Ghost(g))
        .step(1509861600, -18000, 0, "EST", Ghost(g))
        .step(1520751600, -18000, 3600, "EDT", Ghost(g))
        .step(1541311200, -18000, 0, "EST", Ghost(g))
        .step(1552201200, -18000, 3600, "EDT", Ghost(g))
        .step(1572760800, -18000, 0, "EST", Ghost(g))
        .step(1583650800, -18000, 3600, "EDT", Ghost(g))
        .step(1604210400, -18000, 0, "EST", Ghost(g))
        .step(1615705200, -18000, 3600, "EDT", Ghost(g))
        .step(1636264800, -18000, 0, "EST", Ghost(g))
        .step(1647154800, -18000, 3600, "EDT", Ghost(g))
        .step(1667714400, -18000, 0, "EST", Ghost(g))
        .step(1678604400, -18000, 3600, "EDT", Ghost(g))
        .step(1699164000, -18000, 0, "EST", Ghost(g))
        .step(1710054000, -18000, 3600, "EDT", Ghost(g))
        .step(1730613600, -18000, 0, "EST", Ghost(g))
        .step(1741503600, -18000, 3600, "EDT", Ghost(g))
        .step(1762063200, -18000, 0, "EST", Ghost(g))
        .step(1772953200, -18000, 3600, "EDT", Ghost(g))
        .step(1793512800, -18000, 0, "EST", Ghost(g))
        .step(1805007600, -18000, 3600, "EDT", Ghost(g))
        .step(1825567200, -18000, 0, "EST", Ghost(g))
        .step(1836457200, -18000, 3600, "EDT", Ghost(g))
        .step(1857016800, -18000, 0, "EST", Ghost(g))
        .step(1867906800, -18000, 3600, "EDT", Ghost(g))
        .step(1888466400, -18000, 0, "EST", Ghost(g))
        .step(1899356400, -18000, 3600, "EDT", Ghost(g))
        .step(1919916000, -18000, 0, "EST", Ghost(g))
        .step(1930806000, -18000, 3600, "EDT", Ghost(g))
        .step(1951365600, -18000, 0, "EST", Ghost(g))
        .step(1962860400, -18000, 3600, "EDT", Ghost(g))
        .step(1983420000, -18000, 0, "EST", Ghost(g))
        .step(1994310000, -18000, 3600, "EDT", Ghost(g))
        .step(2014869600, -18000, 0, "EST", Ghost(g))
        .step(2025759600, -18000, 3600, "EDT", Ghost(g))
        .step(2046319200, -18000, 0, "EST", Ghost(g))
        .step(2057209200, -18000, 3600, "EDT", Ghost(g))
        .step(2077768800, -18000, 0, "EST", Ghost(g))
        .step(2088658800, -18000, 3600, "EDT", Ghost(g))
        .step(2109218400, -18000, 0, "EST", Ghost(g))
        .step(2120108400, -18000, 3600, "EDT", Ghost(g))
        .step(2140668000, -18000, 0, "EST", Ghost(g))
        .finish(Ghost(g))
}

/// The zone `America/Indianapolis`.
pub fn indianapolis() -> (r: Tz)
    ensures
        r.wf(),
        r.zone_name() == "America/Indianapolis"@,
        r.table() == tables::america::indianapolis(),
{
    let ghost g = tables::america::indianapolis_rows();
    FixedTimespanSet::begin("America/Indianapolis", -20678, 0, "LMT", Ghost(g))
        .step(-2717647200, -21600, 0, "CST", Ghost(g))
        .step(-1633276800, -21600, 3600, "CDT", Ghost(g))
        .step(-1615136400, -21600, 0, "CST", Ghost(g))
        .step(-1601827200, -21600, 3600, "CDT", Ghost(g))
        .step(-1583686800, -21600, 0, "CST", Ghost(g))
        .step(-900259200, -21600, 3600, "CDT", Ghost(g))
        .step(-891795600, -21600, 0, "CST", Ghost(g))
        .step(-880214400, -21600, 3600, "CWT", Ghost(g))
        .step(-769395600, -21600, 3600, "CPT", Ghost(g))
        .step(-765392400, -21600, 0, "CST", Ghost(g))
        .step(-747244800, -21600, 3600, "CDT", Ghost(g))
        .step(-733942800, -21600, 0, "CST", Ghost(g))
        .step(-715795200, -21600, 3600, "CDT", Ghost(g))
        .step(-702493200, -21600, 0, "CST", Ghost(g))
        .step(-684345600, -21600, 3600, "CDT", Ghost(g))
        .step(-671043600, -21600, 0, "CST", Ghost(g))
        .step(-652896000, -21600, 3600, "CDT", Ghost(g))
        .step(-639594000, -21600, 0, "CST", Ghost(g))
        .step(-620841600, -21600, 3600, "CDT", Ghost(g))
        .step(-608144400, -21600, 0, "CST", Ghost(g))
        .step(-589392000, -21600, 3600, "CDT", Ghost(g))
        .step(-576090000, -21600, 0, "CST", Ghost(g))
        .step(-557942400, -21600, 3600, "CDT", Ghost(g))
        .step(-544640400, -21600, 0, "CST", Ghost(g))
        .step(-526492800, -21600, 3600, "CDT", Ghost(g))
        .step(-513190800, -21600, 0, "CST", Ghost(g))
        .step(-495043200, -21600, 3600, "CDT", Ghost(g))
        .step(-481741200, -21600, 0, "CST", Ghost(g))
        .step(-463593600, -18000, 0, "EST", Ghost(g))
        .step(-386787600, -21600, 0, "CST", Ghost(g))
        .step(-368640000, -18000, 0, "EST", Ghost(g))
        .step(-21488400, -18000, 3600, "EDT", Ghost(g))
        .step(-5767200, -18000, 0, "EST", Ghost(g))
        .step(9961200, -18000, 3600, "EDT", Ghost(g))
        .step(25682400, -18000, 0, "EST", Ghost(g))
        .step(1143961200, -18000, 3600, "EDT", Ghost(g))
        .step(1162101600, -18000, 0, "EST", Ghost(g))
        .step(1173596400, -18000, 3600, "EDT", Ghost(g))
        .step(1194156000, -18000, 0, "EST", Ghost(g))
        .step(1205046000, -18000, 3600, "EDT", Ghost(g))
        .step(1225605600, -18000, 0, "EST", Ghost(g))
        .step(1236495600, -18000, 3600, "EDT", Ghost(g))
        .step(1257055200, -18000, 0, "EST", Ghost(g))
        .step(1268550000, -18000, 3600, "EDT", Ghost(g))
        .step(1289109600, -18000, 0, "EST", Ghost(g))
        .step(1299999600, -18000, 3600, "EDT", Ghost(g))
        .step(1320559200, -18000, 0, "EST", Ghost(g))
        .step(1331449200, -18000, 3600, "EDT", Ghost(g))
        .step(1352008800, -18000, 0, "EST", Ghost(g))
        .step(1362898800, -18000, 3600, "EDT", Ghost(g))
        .step(1383458400, -18000, 0, "EST", Ghost(g))
        .step(1394348400, -18000, 3600, "EDT", Ghost(g))
        .step(1414908000, -18000, 0, "EST", Ghost(g))
        .step(1425798000, -18000, 3600, "EDT", Ghost(g))
        .step(1446357600, -18000, 0, "EST", Ghost(g))
        .step(1457852400, -18000, 3600, "EDT", Ghost(g))
        .step(1478412000, -18000, 0, "EST", Ghost(g))
        .step(1489302000, -18000, 3600, "EDT", Ghost(g))
        .step(1509861600, -18000, 0, "EST", Ghost(g))
        .step(1520751600, -18000, 3600, "EDT", Ghost(g))
        .step(1541311200, -18000, 0, "EST", Ghost(g))
        .step(1552201200, -18000, 3600, "EDT", Ghost(g))
        .step(1572760800, -18000, 0, "EST", Ghost(g))
        .step(1583650800, -18000, 3600, "EDT", Ghost(g))
        .step(1604210400, -18000, 0, "EST", Ghost(g))
        .step(1615705200, -18000, 3600, "EDT", Ghost(g))
        .step(1636264800, -18000, 0, "EST", Ghost(g))
        .step(1647154800, -18000, 3600, "EDT", Ghost(g))
        .step(1667714400, -18000, 0, "EST", Ghost(g))
        .step(1678604400, -18000, 3600, "EDT", Ghost(g))
        .step(1699164000, -18000, 0, "EST", Ghost(g))
        .step(1710054000, -18000, 3600, "EDT", Ghost(g))
        .step(1730613600, -18000, 0, "EST", Ghost(g))
        .step(1741503600, -18000, 3600, "EDT", Ghost(g))
        .step(1762063200, -18000, 0, "EST", Ghost(g))
        .step(1772953200, -18000, 3600, "EDT", Ghost(g))
        .step(1793512800, -18000, 0, "EST", Ghost(g))
        .step(1805007600, -18000, 3600, "EDT", Ghost(g))
        .step(1825567200, -18000, 0, "EST", Ghost(g))
        .step(1836457200, -18000, 3600, "EDT", Ghost(g))
        .step(1857016800, -18000, 0, "EST", Ghost(g))
        .step(1867906800, -18000, 3600, "EDT", Ghost(g))
        .step(1888466400, -18000, 0, "EST", Ghost(g))
        .step(1899356400, -18000, 3600, "EDT", Ghost(g))
        .step(1919916000, -18000, 0, "EST", Ghost(g))
        .step(1930806000, -18000, 3600, "EDT", Ghost(g))
        .step(1951365600, -18000, 0, "EST", Ghost(g))
        .step(1962860400, -18000, 3600, "EDT", Ghost(g))
        .step(1983420000, -18000, 0, "EST", Ghost(g))
        .step(1994310000, -18000, 3600, "EDT", Ghost(g))
        .step(2014869600, -18000, 0, "EST", Ghost(g))
        .step(2025759600, -18000, 3600, "EDT", Ghost(g))
        .step(2046319200, -18000, 0, "EST", Ghost(g))
        .step(2057209200, -18000, 3600, "EDT", Ghost(g))
        .step(2077768800, -18000, 0, "EST", Ghost(g))
        .step(2088658800, -18000, 3600, "EDT", Ghost(g))
        .step(2109218400, -18000, 0, "EST", Ghost(g))
        .step(2120108400, -18000, 3600, "EDT", Ghost(g))
        .step(2140668000, -18000, 0, "EST", Ghost(g))
        .finish(Ghost(g))
}

/// The zone `America/Inuvik`.
pub fn inuvik() -> (r: Tz)
    ensures
        r.wf(),
        r.zone_name() == "America/Inuvik"@,
        r.table() == tables::america::inuvik(),
{
    let ghost g = tables::america::inuvik_rows();
    FixedTimespanSet::begin("America/Inuvik", 0, 0, "-00", Ghost(g))
        .step(-536457600, -28800, 0, "PST", Ghost(g))
        .step(73476000, -28800, 3600, "PDT", Ghost(g))
        .step(89197200, -28800, 0, "PST", Ghost(g))
        .step(104925600, -28800, 3600, "PDT", Ghost(g))
        .step(120646800, -28800, 0, "PST", Ghost(g))
        .step(136375200, -28800, 3600, "PDT", Ghost(g))
        .step(152096400, -28800, 0, "PST", Ghost(g))
        .step(167824800, -28800, 3600, "PDT", Ghost(g))
        .step(183546000, -28800, 0, "PST", Ghost(g))
        .step(199274400, -28800, 3600, "PDT", Ghost(g))
        .step(215600400, -28800, 0, "PST", Ghost(g))
        .step(230724000, -28800, 3600, "PDT", Ghost(g))
        .step(247050000, -28800, 0, "PST", Ghost(g))
        .step(262778400, -28800, 3600, "PDT", Ghost(g))
        .step(278499600, -28800, 0, "PST", Ghost(g))
        .step(294228000, -28800, 7200, "MDT", Ghost(g))
        .step(309945600, -25200, 0, "MST", Ghost(g))
        .step(325674000, -25200, 3600, "MDT", Ghost(g))
        .step(341395200, -25200, 0, "MST", Ghost(g))
        .step(357123600, -25200, 3600, "MDT", Ghost(g))
        .step(372844800, -25200, 0, "MST", Ghost(g))
        .step(388573200, -25200, 3600, "MDT", Ghost(g))
        .step(404899200, -25200, 0, "MST", Ghost(g))
        .step(420022800, -25200, 3600, "MDT", Ghost(g))
        .step(436348800, -25200, 0, "MST", Ghost(g))
        .step(452077200, -25200, 3600, "MDT", Ghost(g))
        .step(467798400, -25200, 0, "MST", Ghost(g))
        .step(483526800, -25200, 3600, "MDT", Ghost(g))
        .step(499248000, -25200, 0, "MST", Ghost(g))
        .step(514976400, -25200, 3600, "MDT", Ghost(g))
        .step(530697600, -25200, 0, "MST", Ghost(g))
        .step(544611600, -25200, 3600, "MDT", Ghost(g))
        .step(562147200, -25200, 0, "MST", Ghost(g))
        .step(576061200, -25200, 3600, "MDT", Ghost(g))
        .step(594201600, -25200, 0, "MST", Ghost(g))
        .step(607510800, -25200, 3600, "MDT", Ghost(g))
        .step(625651200, -25200, 0, "MST", Ghost(g))
        .step(638960400, -25200, 3600, "MDT", Ghost(g))
        .step(657100800, -25200, 0, "MST", Ghost(g))
        .step(671014800, -25200, 3600, "MDT", Ghost(g))
        .step(688550400, -25200, 0, "MST", Ghost(g))
        .step(702464400, -25200, 3600, "MDT", Ghost(g))
        .step(720000000, -25200, 0, "MST", Ghost(g))
        .step(733914000, -25200, 3600, "MDT", Ghost(g))
        .step(752054400, -25200, 0, "MST", Ghost(g))
        .step(765363600, -25200, 3600, "MDT", Ghost(g))
        .step(783504000, -25200, 0, "MST", Ghost(g))
        .step(796813200, -25200, 3600, "MDT", Ghost(g))
        .step(814953600, -25200, 0, "MST", Ghost(g))
        .step(828867600, -25200, 3600, "MDT", Ghost(g))
        .step(846403200, -25200, 0, "MST", Ghost(g))
        .step(860317200, -25200, 3600, "MDT", Ghost(g))
        .step(877852800, -25200, 0, "MST", Ghost(g))
        .step(891766800, -25200, 3600, "MDT", Ghost(g))
        .step(909302400, -25200, 0, "MST", Ghost(g))
        .step(923216400, -25200, 3600, "MDT", Ghost(g))
        .step(941356800, -25200, 0, "MST", Ghost(g))
        .step(954666000, -25200, 3600, "MDT", Ghost(g))
        .step(972806400, -25200, 0, "MST", Ghost(g))
        .step(986115600, -25200, 3600, "MDT", Ghost(g))
        .step(1004256000, -25200, 0, "MST", Ghost(g))
        .step(1018170000, -25200, 3600, "MDT", Ghost(g))
        .step(1035705600, -25200, 0, "MST", Ghost(g))
        .step(1049619600, -25200, 3600, "MDT", Ghost(g))
        .step(1067155200, -25200, 0, "MST", Ghost(g))
        .step(1081069200, -25200, 3600, "MDT", Ghost(g))
        .step(1099209600, -25200, 0, "MST", Ghost(g))
        .step(1112518800, -25200, 3600, "MDT", Ghost(g))
        .step(1130659200, -25200, 0, "MST", Ghost(g))
        .step(1143968400, -25200, 3600, "MDT", Ghost(g))
        .step(1162108800, -25200, 0, "MST", Ghost(g))
        .step(1173603600, -25200, 3600, "MDT", Ghost(g))
        .step(1194163200, -25200, 0, "MST", Ghost(g))
        .step(1205053200, -25200, 3600, "MDT", Ghost(g))
        .step(1225612800, -25200, 0, "MST", Ghost(g))
        .step(1236502800, -25200, 3600, "MDT", Ghost(g))
        .step(1257062400, -25200, 0, "MST", Ghost(g))
        .step(1268557200, -25200, 3600, "MDT", Ghost(g))
        .step(1289116800, -25200, 0, "MST", Ghost(g))
        .step(1300006800, -25200, 3600, "MDT", Ghost(g))
        .step(1320566400, -25200, 0, "MST", Ghost(g))
        .step(1331456400, -25200, 3600, "MDT", Ghost(g))
        .step(1352016000, -25200, 0, "MST", Ghost(g))
        .step(1362906000, -25200, 3600, "MDT", Ghost(g))
        .step(1383465600, -25200, 0, "MST", Ghost(g))
        .step(1394355600, -25200, 3600, "MDT", Ghost(g))
        .step(1414915200, -25200, 0, "MST", Ghost(g))
        .step(1425805200, -25200, 3600, "MDT", Ghost(g))
        .step(1446364800, -25200, 0, "MST", Ghost(g))
        .step(1457859600, -25200, 3600, "MDT", Ghost(g))
        .step(1478419200, -25200, 0, "MST", Ghost(g))
        .step(1489309200, -25200, 3600, "MDT", Ghost(g))
        .step(1509868800, -25200, 0, "MST", Ghost(g))
        .step(1520758800, -25200, 3600, "MDT", Ghost(g))
        .step(1541318400, -25200, 0, "MST", Ghost(g))
        .step(1552208400, -25200, 3600, "MDT", Ghost(g))
        .step(1572768000, -25200, 0, "MST", Ghost(g))
        .step(1583658000, -25200, 3600, "MDT", Ghost(g))
        .step(1604217600, -25200, 0, "MST", Ghost(g))
        .step(1615712400, -25200, 3600, "MDT", Ghost(g))
        .step(1636272000, -25200, 0, "MST", Ghost(g))
        .step(1647162000, -25200, 3600, "MDT", Ghost(g))
        .step(1667721600, -25200, 0, "MST", Ghost(g))
        .step(1678611600, -25200, 3600, "MDT", Ghost(g))
        .step(1699171200, -25200, 0, "MST", Ghost(g))
        .step(1710061200, -25200, 3600, "MDT", Ghost(g))
        .step(1730620800, -25200, 0, "MST", Ghost(g))
        .step(1741510800, -25200, 3600, "MDT", Ghost(g))
        .step(1762070400, -25200, 0, "MST", Ghost(g))
        .step(1772960400, -25200, 3600, "MDT", Ghost(g))
        .step(1793520000, -25200, 0, "MST", Ghost(g))
        .step(1805014800, -25200, 3600, "MDT", Ghost(g))
        .step(1825574400, -25200, 0, "MST", Ghost(g))
        .step(1836464400, -25200, 3600, "MDT", Ghost(g))
        .step(1857024000, -25200, 0, "MST", Ghost(g))
        .step(1867914000, -25200, 3600, "MDT", Ghost(g))
        .step(1888473600, -25200, 0, "MST", Ghost(g))
        .step(1899363600, -25200, 3600, "MDT", Ghost(g))
        .step(1919923200, -25200, 0, "MST", Ghost(g))
        .step(1930813200, -25200, 3600, "MDT", Ghost(g))
        .step(1951372800, -25200, 0, "MST", Ghost(g))
        .step(1962867600, -25200, 3600, "MDT", Ghost(g))
        .step(1983427200, -25200, 0, "MST", Ghost(g))
        .step(1994317200, -25200, 3600, "MDT", Ghost(g))
        .step(2014876800, -25200, 0, "MST", Ghost(g))
        .step(2025766800, -25200, 3600, "MDT", Ghost(g))
        .step(2046326400, -25200, 0, "MST", Ghost(g))
        .step(2057216400, -25200, 3600, "MDT", Ghost(g))
        .step(2077776000, -25200, 0, "MST", Ghost(g))
        .step(2088666000, -25200, 3600, "MDT", Ghost(g))
        .step(2109225600, -25200, 0, "MST", Ghost(g))
        .step(2120115600, -25200, 3600, "MDT", Ghost(g))
        .step(2140675200, -25200, 0, "MST", Ghost(g))
        .finish(Ghost(g))
}

/// The zone `America/Iqaluit`.
pub fn iqaluit() -> (r: Tz)
    ensures
        r.wf(),
        r.zone_name() == "America/Iqaluit"@,
        r.table() == tables::america::iqaluit(),
{
    let ghost g = tables::america::iqaluit_rows();
    FixedTimespanSet::begin("America/Iqaluit", 0, 0, "-00", Ghost(g))
        .step(-865296000, -18000, 3600, "EWT", Ghost(g))
        .step(-769395600, -18000, 3600, "EPT", Ghost(g))
        .step(-765396000, -18000, 0, "EST", Ghost(g))
        .step(73465200, -18000, 3600, "EDT", Ghost(g))
        .step(89186400, -18000, 0, "EST", Ghost(g))
        .step(104914800, -18000, 3600, "EDT", Ghost(g))
        .step(120636000, -18000, 0, "EST", Ghost(g))
        .step(136364400, -18000, 3600, "EDT", Ghost(g))
        .step(152085600, -18000, 0, "EST", Ghost(g))
        .step(167814000, -18000, 3600, "EDT", Ghost(g))
        .step(183535200, -18000, 0, "EST", Ghost(g))
        .step(199263600, -18000, 3600, "EDT", Ghost(g))
        .step(215589600, -18000, 0, "EST", Ghost(g))
        .step(230713200, -18000, 3600, "EDT", Ghost(g))
        .step(247039200, -18000, 0, "EST", Ghost(g))
        .step(262767600, -18000, 3600, "EDT", Ghost(g))
        .step(278488800, -18000, 0, "EST", Ghost(g))
        .step(294217200, -18000, 3600, "EDT", Ghost(g))
        .step(309938400, -18000, 0, "EST", Ghost(g))
        .step(325666800, -18000, 3600, "EDT", Ghost(g))
        .step(341388000, -18000, 0, "EST", Ghost(g))
        .step(357116400, -18000, 3600, "EDT", Ghost(g))
        .step(372837600, -18000, 0, "EST", Ghost(g))
        .step(388566000, -18000, 3600, "EDT", Ghost(g))
        .step(404892000, -18000, 0, "EST", Ghost(g))
        .step(420015600, -18000, 3600, "EDT", Ghost(g))
        .step(436341600, -18000, 0, "EST", Ghost(g))
        .step(452070000, -18000, 3600, "EDT", Ghost(g))
        .step(467791200, -18000, 0, "EST", Ghost(g))
        .step(483519600, -18000, 3600, "EDT", Ghost(g))
        .step(499240800, -18000, 0, "EST", Ghost(g))
        .step(514969200, -18000, 3600, "EDT", Ghost(g))
        .step(530690400, -18000, 0, "EST", Ghost(g))
        .step(544604400, -18000, 3600, "EDT", Ghost(g))
        .step(562140000, -18000, 0, "EST", Ghost(g))
        .step(576054000, -18000, 3600, "EDT", Ghost(g))
        .step(594194400, -18000, 0, "EST", Ghost(g))
        .step(607503600, -18000, 3600, "EDT", Ghost(g))
        .step(625644000, -18000, 0, "EST", Ghost(g))
        .step(638953200, -18000, 3600, "EDT", Ghost(g))
        .step(657093600, -18000, 0, "EST", Ghost(g))
        .step(671007600, -18000, 3600, "EDT", Ghost(g))
        .step(688543200, -18000, 0, "EST", Ghost(g))
        .step(702457200, -18000, 3600, "EDT", Ghost(g))
        .step(719992800, -18000, 0, "EST", Ghost(g))
        .step(733906800, -18000, 3600, "EDT", Ghost(g))
        .step(752047200, -18000, 0, "EST", Ghost(g))
        .step(765356400, -18000, 3600, "EDT", Ghost(g))
        .step(783496800, -18000, 0, "EST", Ghost(g))
        .step(796806000, -18000, 3600, "EDT", Ghost(g))
        .step(814946400, -18000, 0, "EST", Ghost(g))
        .step(828860400, -18000, 3600, "EDT", Ghost(g))
        .step(846396000, -18000, 0, "EST", Ghost(g))
        .step(860310000, -18000, 3600, "EDT", Ghost(g))
        .step(877845600, -18000, 0, "EST", Ghost(g))
        .step(891759600, -18000, 3600, "EDT", Ghost(g))
        .step(909295200, -18000, 0, "EST", Ghost(g))
        .step(923209200, -18000, 3600, "EDT", Ghost(g))
        .step(941349600, -21600, 0, "CST", Ghost(g))
        .step(954662400, -21600, 3600, "CDT", Ghost(g))
        .step(972802800, -18000, 0, "EST", Ghost(g))
        .step(986108400, -18000, 3600, "EDT", Ghost(g))
        .step(1004248800, -18000, 0, "EST", Ghost(g))
        .step(1018162800, -18000, 3600, "EDT", Ghost(g))
        .step(1035698400, -18000, 0, "EST", Ghost(g))
        .step(1049612400, -18000, 3600, "EDT", Ghost(g))
        .step(1067148000, -18000, 0, "EST", Ghost(g))
        .step(1081062000, -18000, 3600, "EDT", Ghost(g))
        .step(1099202400, -18000, 0, "EST", Ghost(g))
        .step(1112511600, -18000, 3600, "EDT", Ghost(g))
        .step(1130652000, -18000, 0, "EST", Ghost(g))
        .step(1143961200, -18000, 3600, "EDT", Ghost(g))
        .step(1162101600, -18000, 0, "EST", Ghost(g))
        .step(1173596400, -18000, 3600, "EDT", Ghost(g))
        .step(1194156000, -18000, 0, "EST", Ghost(g))
        .step(1205046000, -18000, 3600, "EDT", Ghost(g))
        .step(1225605600, -18000, 0, "EST", Ghost(g))
        .step(1236495600, -18000, 3600, "EDT", Ghost(g))
        .step(1257055200, -18000, 0, "EST", Ghost(g))
        .step(1268550000, -18000, 3600, "EDT", Ghost(g))
        .step(1289109600, -18000, 0, "EST", Ghost(g))
        .step(1299999600, -18000, 3600, "EDT", Ghost(g))
        .step(1320559200, -18000, 0, "EST", Ghost(g))
        .step(1331449200, -18000, 3600, "EDT", Ghost(g))
        .step(1352008800, -18000, 0, "EST", Ghost(g))
        .step(1362898800, -18000, 3600, "EDT", Ghost(g))
        .step(1383458400, -18000, 0, "EST", Ghost(g))
        .step(1394348400, -18000, 3600, "EDT", Ghost(g))
        .step(1414908000, -18000, 0, "EST", Ghost(g))
        .step(1425798000, -18000, 3600, "EDT", Ghost(g))
        .step(1446357600, -18000, 0, "EST", Ghost(g))
        .step(1457852400, -18000, 3600, "EDT", Ghost(g))
        .step(1478412000, -18000, 0, "EST", Ghost(g))
        .step(1489302000, -18000, 3600, "EDT", Ghost(g))
        .step(1509861600, -18000, 0, "EST", Ghost(g))
        .step(1520751600, -18000, 3600, "EDT", Ghost(g))
        .step(1541311200, -18000, 0, "EST", Ghost(g))
        .step(1552201200, -18000, 3600, "EDT", Ghost(g))
        .step(1572760800, -18000, 0, "EST", Ghost(g))
        .step(1583650800, -18000, 3600, "EDT", Ghost(g))
        .step(1604210400, -18000, 0, "EST", Ghost(g))
        .step(1615705200, -18000, 3600, "EDT", Ghost(g))
        .step(1636264800, -18000, 0, "EST", Ghost(g))
        .step(1647154800, -18000, 3600, "EDT", Ghost(g))
        .step(1667714400, -18000, 0, "EST", Ghost(g))
        .step(1678604400, -18000, 3600, "EDT", Ghost(g))
        .step(1699164000, -18000, 0, "EST", Ghost(g))
        .step(1710054000, -18000, 3600, "EDT", Ghost(g))
        .step(1730613600, -18000, 0, "EST", Ghost(g))
        .step(1741503600, -18000, 3600, "EDT", Ghost(g))
        .step(1762063200, -18000, 0, "EST", Ghost(g))
        .step(1772953200, -18000, 3600, "EDT", Ghost(g))
        .step(1793512800, -18000, 0, "EST", Ghost(g))
        .step(1805007600, -18000, 3600, "EDT", Ghost(g))
        .step(1825567200, -18000, 0, "EST", Ghost(g))
        .step(1836457200, -18000, 3600, "EDT", Ghost(g))
        .step(1857016800, -18000, 0, "EST", Ghost(g))
        .step(1867906800, -18000, 3600, "EDT", Ghost(g))
        .step(1888466400, -18000, 0, "EST", Ghost(g))
        .step(1899356400, -18000, 3600, "EDT", Ghost(g))
        .step(1919916000, -18000, 0, "EST", Ghost(g))
        .step(1930806000, -18000, 3600, "EDT", Ghost(g))
        .step(1951365600, -18000, 0, "EST", Ghost(g))
        .step(1962860400, -18000, 3600, "EDT", Ghost(g))
        .step(1983420000, -18000, 0, "EST", Ghost(g))
        .step(1994310000, -18000, 3600, "EDT", Ghost(g))
        .step(2014869600, -18000, 0, "EST", Ghost(g))
        .step(2025759600, -18000, 3600, "EDT", Ghost(g))
        .step(2046319200, -18000, 0, "EST", Ghost(g))
        .step(2057209200, -18000, 3600, "EDT", Ghost(g))
        .step(2077768800, -18000, 0, "EST", Ghost(g))
        .step(2088658800, -18000, 3600, "EDT", Ghost(g))
        .step(2109218400, -18000, 0, "EST", Ghost(g))
        .step(2120108400, -18000, 3600, "EDT", Ghost(g))
        .step(2140668000, -18000, 0, "EST", Ghost(g))
        .finish(Ghost(g))
}

/// The zone `America/Jamaica`.
pub fn jamaica() -> (r: Tz)
    ensures
        r.wf(),
        r.zone_name() == "America/Jamaica"@,
        r.table() == tables::america::jamaica(),
{
    let ghost g = tables::america::jamaica_rows();
    FixedTimespanSet::begin("America/Jamaica", -18430, 0, "LMT", Ghost(g))
        .step(-2524503170, -18430, 0, "KMT", Ghost(g))
        .step(-1827687170, -18000, 0, "EST", Ghost(g))
        .step(126687600, -18000, 3600, "EDT", Ghost(g))
        .step(152085600, -18000, 0, "EST", Ghost(g))
        .step(162370800, -18000, 3600, "EDT", Ghost(g))
        .step(183535200, -18000, 0, "EST", Ghost(g))
        .step(199263600, -18000, 3600, "EDT", Ghost(g))
        .step(215589600, -18000, 0, "EST", Ghost(g))
        .step(230713200, -18000, 3600, "EDT", Ghost(g))
        .step(247039200, -18000, 0, "EST", Ghost(g))
        .step(262767600, -18000, 3600, "EDT", Ghost(g))
        .step(278488800, -18000, 0, "EST", Ghost(g))
        .step(294217200, -18000, 3600, "EDT", Ghost(g))
        .step(309938400, -18000, 0, "EST", Ghost(g))
        .step(325666800, -18000, 3600, "EDT", Ghost(g))
        .step(341388000, -18000, 0, "EST", Ghost(g))
        .step(357116400, -18000, 3600, "EDT", Ghost(g))
        .step(372837600, -18000, 0, "EST", Ghost(g))
        .step(388566000, -18000, 3600, "EDT", Ghost(g))
        .step(404892000, -18000, 0, "EST", Ghost(g))
        .step(420015600, -18000, 3600, "EDT", Ghost(g))
        .step(436341600, -18000, 0, "EST", Ghost(g))
        .finish(Ghost(g))
}

/// The zone `America/Jujuy`.
pub fn jujuy() -> (r: Tz)
    ensures
        r.wf(),
        r.zone_name() == "America/Jujuy"@,
        r.table() == tables::america::jujuy(),
{
    let ghost g = tables::america::jujuy_rows();
    FixedTimespanSet::begin("America/Jujuy", -15672, 0, "LMT", Ghost(g))
        .step(-2372096328, -15408, 0, "CMT", Ghost(g))
        .step(-1567453392, -14400, 0, "-04", Ghost(g))
        .step(-1233432000, -14400, 3600, "-03", Ghost(g))
        .step(-1222981200, -14400, 0, "-04", Ghost(g))
        .step(-1205956800, -14400, 3600, "-03", Ghost(g))
        .step(-1194037200, -14400, 0, "-04", Ghost(g))
        .step(-1172865600, -14400, 3600, "-03", Ghost(g))
        .step(-1162501200, -14400, 0, "-04", Ghost(g))
        .step(-1141329600, -14400, 3600, "-03", Ghost(g))
        .step(-1130965200, -14400, 0, "-04", Ghost(g))
        .step(-1109793600, -14400, 3600, "-03", Ghost(g))
        .step(-1099429200, -14400, 0, "-04", Ghost(g))
        .step(-1078257600, -14400, 3600, "-03", Ghost(g))
        .step(-1067806800, -14400, 0, "-04", Ghost(g))
        .step(-1046635200, -14400, 3600, "-03", Ghost(g))
        .step(-1036270800, -14400, 0, "-04", Ghost(g))
        .step(-1015099200, -14400, 3600, "-03", Ghost(g))
        .step(-1004734800, -14400, 0, "-04", Ghost(g))
        .step(-983563200, -14400, 3600, "-03", Ghost(g))
        .step(-973198800, -14400, 0, "-04", Ghost(g))
        .step(-952027200, -14400, 3600, "-03", Ghost(g))
        .step(-941576400, -14400, 0, "-04", Ghost(g))
        .step(-931032000, -14400, 3600, "-03", Ghost(g))
        .step(-900882000, -14400, 0, "-04", Ghost(g))
        .step(-890337600, -14400, 3600, "-03", Ghost(g))
        .step(-833749200, -14400, 0, "-04", Ghost(g))
        .step(-827265600, -14400, 3600, "-03", Ghost(g))
        .step(-752274000, -14400, 0, "-04", Ghost(g))
        .step(-733780800, -14400, 3600, "-03", Ghost(g))
        .step(-197326800, -14400, 0, "-04", Ghost(g))
        .step(-190843200, -14400, 3600, "-03", Ghost(g))
        .step(-184194000, -14400, 0, "-04", Ghost(g))
        .step(-164491200, -14400, 3600, "-03", Ghost(g))
        .step(-152658000, -14400, 0, "-04", Ghost(g))
        .step(-132955200, -14400, 3600, "-03", Ghost(g))
        .step(-121122000, -14400, 0, "-04", Ghost(g))
        .step(-101419200, -14400, 3600, "-03", Ghost(g))
        .step(-86821200, -14400, 0, "-04", Ghost(g))
        .step(-71092800, -14400, 3600, "-03", Ghost(g))
        .step(-54766800, -14400, 0, "-04", Ghost(g))
        .step(-39038400, -14400, 3600, "-03", Ghost(g))
        .step(-23317200, -14400, 0, "-04", Ghost(g))
        .step(-7588800, -10800, 0, "-03", Ghost(g))
        .step(128142000, -10800, 3600, "-02", Ghost(g))
        .step(136605600, -10800, 0, "-03", Ghost(g))
        .step(596948400, -10800, 3600, "-02", Ghost(g))
        .step(605066400, -10800, 0, "-03", Ghost(g))
        .step(624423600, -10800, 3600, "-02", Ghost(g))
        .step(636516000, -14400, 0, "-04", Ghost(g))
        .step(657086400, -14400, 3600, "-03", Ghost(g))
        .step(669178800, -14400, 0, "-04", Ghost(g))
        .step(686721600, -14400, 7200, "-02", Ghost(g))
        .step(699415200, -10800, 0, "-03", Ghost(g))
        .step(719377200, -10800, 3600, "-02", Ghost(g))
        .step(731469600, -10800, 0, "-03", Ghost(g))
        .step(938919600, -14400, 3600, "-03", Ghost(g))
        .step(952052400, -10800, 0, "-03", Ghost(g))
        .step(1198983600, -10800, 3600, "-02", Ghost(g))
        .step(1205632800, -10800, 0, "-03", Ghost(g))
        .step(2147483647, -10800, 0, "-03", Ghost(g))
        .finish(Ghost(g))
}

/// The zone `America/Juneau`.
pub fn juneau() -> (r: Tz)
    ensures
        r.wf(),
        r.zone_name() == "America/Juneau"@,
        r.table() == tables::america::juneau(),
{
    let ghost g = tables::america::juneau_rows();
    FixedTimespanSet::begin("America/Juneau", 54139, 0, "LMT", Ghost(g))
        .step(-3225223727, -32261, 0, "LMT", Ghost(g))
        .step(-2188954939, -28800, 0, "PST", Ghost(g))
        .step(-880207200, -28800, 3600, "PWT", Ghost(g))
        .step(-769395600, -28800, 3600, "PPT", Ghost(g))
        .step(-765385200, -28800, 0, "PST", Ghost(g))
        .step(-21477600, -28800, 3600, "PDT", Ghost(g))
        .step(-5756400, -28800, 0, "PST", Ghost(g))
        .step(9972000, -28800, 3600, "PDT", Ghost(g))
        .step(25693200, -28800, 0, "PST", Ghost(g))
        .step(41421600, -28800, 3600, "PDT", Ghost(g))
        .step(57747600, -28800, 0, "PST", Ghost(g))
        .step(73476000, -28800, 3600, "PDT", Ghost(g))
        .step(89197200, -28800, 0, "PST", Ghost(g))
        .step(104925600, -28800, 3600, "PDT", Ghost(g))
        .step(120646800, -28800, 0, "PST", Ghost(g))
        .step(126698400, -28800, 3600, "PDT", Ghost(g))
        .step(152096400, -28800, 0, "PST", Ghost(g))
        .step(162381600, -28800, 3600, "PDT", Ghost(g))
        .step(183546000, -28800, 0, "PST", Ghost(g))
        .step(199274400, -28800, 3600, "PDT", Ghost(g))
        .step(215600400, -28800, 0, "PST", Ghost(g))
        .step(230724000, -28800, 3600, "PDT", Ghost(g))
        .step(247050000, -28800, 0, "PST", Ghost(g))
        .step(262778400, -28800, 3600, "PDT", Ghost(g))
        .step(278499600, -28800, 0, "PST", Ghost(g))
        .step(294228000, -28800, 3600, "PDT", Ghost(g))
        .step(309949200, -28800, 0, "PST", Ghost(g))
        .step(325677600, -32400, 3600, "YDT", Ghost(g))
        .step(341402400, -28800, 0, "PST", Ghost(g))
        .step(357127200, -28800, 3600, "PDT", Ghost(g))
        .step(372848400, -28800, 0, "PST", Ghost(g))
        .step(388576800, -28800, 3600, "PDT", Ghost(g))
        .step(404902800, -28800, 0, "PST", Ghost(g))
        .step(420026400, -28800, 3600, "PDT", Ghost(g))
        .step(436352400, -32400, 0, "YST", Ghost(g))
        .step(439030800, -32400, 0, "AKST", Ghost(g))
        .step(452084400, -32400, 3600, "AKDT", Ghost(g))
        .step(467805600, -32400, 0, "AKST", Ghost(g))
        .step(483534000, -32400, 3600, "AKDT", Ghost(g))
        .step(499255200, -32400, 0, "AKST", Ghost(g))
        .step(514983600, -32400, 3600, "AKDT", Ghost(g))
        .step(530704800, -32400, 0, "AKST", Ghost(g))
        .step(544618800, -32400, 3600, "AKDT", Ghost(g))
        .step(562154400, -32400, 0, "AKST", Ghost(g))
        .step(576068400, -32400, 3600, "AKDT", Ghost(g))
        .step(594208800, -32400, 0, "AKST", Ghost(g))
        .step(607518000, -32400, 3600, "AKDT", Ghost(g))
        .step(625658400, -32400, 0, "AKST", Ghost(g))
        .step(638967600, -32400, 3600, "AKDT", Ghost(g))
        .step(657108000, -32400, 0, "AKST", Ghost(g))
        .step(671022000, -32400, 3600, "AKDT", Ghost(g))
        .step(688557600, -32400, 0, "AKST", Ghost(g))
        .step(702471600, -32400, 3600, "AKDT", Ghost(g))
        .step(720007200, -32400, 0, "AKST", Ghost(g))
        .step(733921200, -32400, 3600, "AKDT", Ghost(g))
        .step(752061600, -32400, 0, "AKST", Ghost(g))
        .step(765370800, -32400, 3600, "AKDT", Ghost(g))
        .step(783511200, -32400, 0, "AKST", Ghost(g))
        .step(796820400, -32400, 3600, "AKDT", Ghost(g))
        .step(814960800, -32400, 0, "AKST", Ghost(g))
        .step(828874800, -32400, 3600, "AKDT", Ghost(g))
        .step(846410400, -32400, 0, "AKST", Ghost(g))
        .step(860324400, -32400, 3600, "AKDT", Ghost(g))
        .step(877860000, -32400, 0, "AKST", Ghost(g))
        .step(891774000, -32400, 3600, "AKDT", Ghost(g))
        .step(909309600, -32400, 0, "AKST", Ghost(g))
        .step(923223600, -32400, 3600, "AKDT", Ghost(g))
        .step(941364000, -32400, 0, "AKST", Ghost(g))
        .step(954673200, -32400, 3600, "AKDT", Ghost(g))
        .step(972813600, -32400, 0, "AKST", Ghost(g))
        .step(986122800, -32400, 3600, "AKDT", Ghost(g))
        .step(1004263200, -32400, 0, "AKST", Ghost(g))
        .step(1018177200, -32400, 3600, "AKDT", Ghost(g))
        .step(1035712800, -32400, 0, "AKST", Ghost(g))
        .step(1049626800, -32400, 3600, "AKDT", Ghost(g))
        .step(1067162400, -32400, 0, "AKST", Ghost(g))
        .step(1081076400, -32400, 3600, "AKDT", Ghost(g))
        .step(1099216800, -32400, 0, "AKST", Ghost(g))
        .step(1112526000, -32400, 3600, "AKDT", Ghost(g))
        .step(1130666400, -32400, 0, "AKST", Ghost(g))
        .step(1143975600, -32400, 3600, "AKDT", Ghost(g))
        .step(1162116000, -32400, 0, "AKST", Ghost(g))
        .step(1173610800, -32400, 3600, "AKDT", Ghost(g))
        .step(1194170400, -32400, 0, "AKST", Ghost(g))
        .step(1205060400, -32400, 3600, "AKDT", Ghost(g))
        .step(1225620000, -32400, 0, "AKST", Ghost(g))
        .step(1236510000, -32400, 3600, "AKDT", Ghost(g))
        .step(1257069600, -32400, 0, "AKST", Ghost(g))
        .step(1268564400, -32400, 3600, "AKDT", Ghost(g))
        .step(1289124000, -32400, 0, "AKST", Ghost(g))
        .step(1300014000, -32400, 3600, "AKDT", Ghost(g))
        .step(1320573600, -32400, 0, "AKST", Ghost(g))
        .step(1331463600, -32400, 3600, "AKDT", Ghost(g))
        .step(1352023200, -32400, 0, "AKST", Ghost(g))
        .step(1362913200, -32400, 3600, "AKDT", Ghost(g))
        .step(1383472800, -32400, 0, "AKST", Ghost(g))
        .step(1394362800, -32400, 3600, "AKDT", Ghost(g))
        .step(1414922400, -32400, 0, "AKST", Ghost(g))
        .step(1425812400, -32400, 3600, "AKDT", Ghost(g))
        .step(1446372000, -32400, 0, "AKST", Ghost(g))
        .step(1457866800, -32400, 3600, "AKDT", Ghost(g))
        .step(1478426400, -32400, 0, "AKST", Ghost(g))
        .step(1489316400, -32400, 3600, "AKDT", Ghost(g))
        .step(1509876000, -32400, 0, "AKST", Ghost(g))
        .step(1520766000, -32400, 3600, "AKDT", Ghost(g))
        .step(1541325600, -32400, 0, "AKST", Ghost(g))
        .step(1552215600, -32400, 3600, "AKDT", Ghost(g))
        .step(1572775200, -32400, 0, "AKST", Ghost(g))
        .step(1583665200, -32400, 3600, "AKDT", Ghost(g))
        .step(1604224800, -32400, 0, "AKST", Ghost(g))
        .step(1615719600, -32400, 3600, "AKDT", Ghost(g))
        .step(1636279200, -32400, 0, "AKST", Ghost(g))
        .step(1647169200, -32400, 3600, "AKDT", Ghost(g))
        .step(1667728800, -32400, 0, "AKST", Ghost(g))
        .step(1678618800, -32400, 3600, "AKDT", Ghost(g))
        .step(1699178400, -32400, 0, "AKST", Ghost(g))
        .step(1710068400, -32400, 3600, "AKDT", Ghost(g))
        .step(1730628000, -32400, 0, "AKST", Ghost(g))
        .step(1741518000, -32400, 3600, "AKDT", Ghost(g))
        .step(1762077600, -32400, 0, "AKST", Ghost(g))
        .step(1772967600, -32400, 3600, "AKDT", Ghost(g))
        .step(1793527200, -32400, 0, "AKST", Ghost(g))
        .step(1805022000, -32400, 3600, "AKDT", Ghost(g))
        .step(1825581600, -32400, 0, "AKST", Ghost(g))
        .step(1836471600, -32400, 3600, "AKDT", Ghost(g))
        .step(1857031200, -32400, 0, "AKST", Ghost(g))
        .step(1867921200, -32400, 3600, "AKDT", Ghost(g))
        .step(1888480800, -32400, 0, "AKST", Ghost(g))
        .step(1899370800, -32400, 3600, "AKDT", Ghost(g))
        .step(1919930400, -32400, 0, "AKST", Ghost(g))
        .step(1930820400, -32400, 3600, "AKDT", Ghost(g))
        .step(1951380000, -32400, 0, "AKST", Ghost(g))
        .step(1962874800, -32400, 3600, "AKDT", Ghost(g))
        .step(1983434400, -32400, 0, "AKST", Ghost(g))
        .step(1994324400, -32400, 3600, "AKDT", Ghost(g))
        .step(2014884000, -32400, 0, "AKST", Ghost(g))
        .step(2025774000, -32400, 3600, "AKDT", Ghost(g))
        .step(2046333600, -32400, 0, "AKST", Ghost(g))
        .step(2057223600, -32400, 3600, "AKDT", Ghost(g))
        .step(2077783200, -32400, 0, "AKST", Ghost(g))
        .step(2088673200, -32400, 3600, "AKDT", Ghost(g))
        .step(2109232800, -32400, 0, "AKST", Ghost(g))
        .step(2120122800, -32400, 3600, "AKDT", Ghost(g))
        .step(2140682400, -32400, 0, "AKST", Ghost(g))
        .finish(Ghost(g))
}

/// The zone `America/Kentucky/Louisville`.
pub fn kentucky_louisville() -> (r: Tz)
    ensures
        r.wf(),
        r.zone_name() == "America/Kentucky/Louisville"@,
        r.table() == tables::america::kentucky_louisville(),
{
    let ghost g = tables::america::kentucky_louisville_rows();
    FixedTimespanSet::begin("America/Kentucky/Louisville", -20582, 0, "LMT", Ghost(g))
        .step(-2717647200, -21600, 0, "CST", Ghost(g))
        .step(-1633276800, -21600, 3600, "CDT", Ghost(g))
        .step(-1615136400, -21600, 0, "CST", Ghost(g))
        .step(-1601827200, -21600, 3600, "CDT", Ghost(g))
        .step(-1583686800, -21600, 0, "CST", Ghost(g))
        .step(-1535904000, -21600, 3600, "CDT", Ghost(g))
        .step(-1525280400, -21600, 0, "CST", Ghost(g))
        .step(-905097600, -21600, 3600, "CDT", Ghost(g))
        .step(-891795600, -21600, 0, "CST", Ghost(g))
        .step(-880214400, -21600, 3600, "CWT", Ghost(g))
        .step(-769395600, -21600, 3600, "CPT", Ghost(g))
        .step(-765392400, -21600, 0, "CST", Ghost(g))
        .step(-747251940, -21600, 3600, "CDT", Ghost(g))
        .step(-744224400, -21600, 0, "CST", Ghost(g))
        .step(-620841600, -21600, 3600, "CDT", Ghost(g))
        .step(-608144400, -21600, 0, "CST", Ghost(g))
        .step(-589392000, -21600, 3600, "CDT", Ghost(g))
        .step(-576090000, -21600, 0, "CST", Ghost(g))
        .step(-557942400, -21600, 3600, "CDT", Ghost(g))
        .step(-544640400, -21600, 0, "CST", Ghost(g))
        .step(-526492800, -21600, 3600, "CDT", Ghost(g))
        .step(-513190800, -21600, 0, "CST", Ghost(g))
        .step(-495043200, -21600, 3600, "CDT", Ghost(g))
        .step(-481741200, -21600, 0, "CST", Ghost(g))
        .step(-463593600, -21600, 3600, "CDT", Ghost(g))
        .step(-450291600, -21600, 0, "CST", Ghost(g))
        .step(-431539200, -21600, 3600, "CDT", Ghost(g))
        .step(-415818000, -21600, 0, "CST", Ghost(g))
        .step(-400089600, -21600, 3600, "CDT", Ghost(g))
        .step(-384368400, -21600, 0, "CST", Ghost(g))
        .step(-368640000, -21600, 3600, "CDT", Ghost(g))
        .step(-352918800, -21600, 0, "CST", Ghost(g))
        .step(-337190400, -21600, 3600, "CDT", Ghost(g))
        .step(-321469200, -21600, 0, "CST", Ghost(g))
        .step(-305740800, -21600, 3600, "CDT", Ghost(g))
        .step(-289414800, -21600, 0, "CST", Ghost(g))
        .step(-273686400, -21600, 3600, "CDT", Ghost(g))
        .step(-266432400, -18000, 0, "EST", Ghost(g))
        .step(-52938000, -18000, 3600, "EDT", Ghost(g))
        .step(-37216800, -18000, 0, "EST", Ghost(g))
        .step(-21488400, -18000, 3600, "EDT", Ghost(g))
        .step(-5767200, -18000, 0, "EST", Ghost(g))
        .step(9961200, -18000, 3600, "EDT", Ghost(g))
        .step(25682400, -18000, 0, "EST", Ghost(g))
        .step(41410800, -18000, 3600, "EDT", Ghost(g))
        .step(57736800, -18000, 0, "EST", Ghost(g))
        .step(73465200, -18000, 3600, "EDT", Ghost(g))
        .step(89186400, -18000, 0, "EST", Ghost(g))
        .step(104914800, -18000, 3600, "EDT", Ghost(g))
        .step(120636000, -18000, 0, "EST", Ghost(g))
        .step(126687600, -21600, 3600, "CDT", Ghost(g))
        .step(152089200, -18000, 0, "EST", Ghost(g))
        .step(162370800, -18000, 3600, "EDT", Ghost(g))
        .step(183535200, -18000, 0, "EST", Ghost(g))
        .step(199263600, -18000, 3600, "EDT", Ghost(g))
        .step(215589600, -18000, 0, "EST", Ghost(g))
        .step(230713200, -18000, 3600, "EDT", Ghost(g))
        .step(247039200, -18000, 0, "EST", Ghost(g))
        .step(262767600, -18000, 3600, "EDT", Ghost(g))
        .step(278488800, -18000, 0, "EST", Ghost(g))
        .step(294217200, -18000, 3600, "EDT", Ghost(g))
        .step(309938400, -18000, 0, "EST", Ghost(g))
        .step(325666800, -18000, 3600, "EDT", Ghost(g))
        .step(341388000, -18000, 0, "EST", Ghost(g))
        .step(357116400, -18000, 3600, "EDT", Ghost(g))
        .step(372837600, -18000, 0, "EST", Ghost(g))
        .step(388566000, -18000, 3600, "EDT", Ghost(g))
        .step(404892000, -18000, 0, "EST", Ghost(g))
        .step(420015600, -18000, 3600, "EDT", Ghost(g))
        .step(436341600, -18000, 0, "EST", Ghost(g))
        .step(452070000, -18000, 3600, "EDT", Ghost(g))
        .step(467791200, -18000, 0, "EST", Ghost(g))
        .step(483519600, -18000, 3600, "EDT", Ghost(g))
        .step(499240800, -18000, 0, "EST", Ghost(g))
        .step(514969200, -18000, 3600, "EDT", Ghost(g))
        .step(530690400, -18000, 0, "EST", Ghost(g))
        .step(544604400, -18000, 3600, "EDT", Ghost(g))
        .step(562140000, -18000, 0, "EST", Ghost(g))
        .step(576054000, -18000, 3600, "EDT", Ghost(g))
        .step(594194400, -18000, 0, "EST", Ghost(g))
        .step(607503600, -18000, 3600, "EDT", Ghost(g))
        .step(625644000, -18000, 0, "EST", Ghost(g))
        .step(638953200, -18000, 3600, "EDT", Ghost(g))
        .step(657093600, -18000, 0, "EST", Ghost(g))
        .step(671007600, -18000, 3600, "EDT", Ghost(g))
        .step(688543200, -18000, 0, "EST", Ghost(g))
        .step(702457200, -18000, 3600, "EDT", Ghost(g))
        .step(719992800, -18000, 0, "EST", Ghost(g))
        .step(733906800, -18000, 3600, "EDT", Ghost(g))
        .step(752047200, -18000, 0, "EST", Ghost(g))
        .step(765356400, -18000, 3600, "EDT", Ghost(g))
        .step(783496800, -18000, 0, "EST", Ghost(g))
        .step(796806000, -18000, 3600, "EDT", Ghost(g))
        .step(814946400, -18000, 0, "EST", Ghost(g))
        .step(828860400, -18000, 3600, "EDT", Ghost(g))
        .step(846396000, -18000, 0, "EST", Ghost(g))
        .step(860310000, -18000, 3600, "EDT", Ghost(g))
        .step(877845600, -18000, 0, "EST", Ghost(g))
        .step(891759600, -18000, 3600, "EDT", Ghost(g))
        .step(909295200, -18000, 0, "EST", Ghost(g))
        .step(923209200, -18000, 3600, "EDT", Ghost(g))
        .step(941349600, -18000, 0, "EST", Ghost(g))
        .step(954658800, -18000, 3600, "EDT", Ghost(g))
        .step(972799200, -18000, 0, "EST", Ghost(g))
        .step(986108400, -18000, 3600, "EDT", Ghost(g))
        .step(1004248800, -18000, 0, "EST", Ghost(g))
        .step(1018162800, -18000, 3600, "EDT", Ghost(g))
        .step(1035698400, -18000, 0, "EST", Ghost(g))
        .step(1049612400, -18000, 3600, "EDT", Ghost(g))
        .step(1067148000, -18000, 0, "EST", Ghost(g))
        .step(1081062000, -18000, 3600, "EDT", Ghost(g))
        .step(1099202400, -18000, 0, "EST", Ghost(g))
        .step(1112511600, -18000, 3600, "EDT", Ghost(g))
        .step(1130652000, -18000, 0, "EST", Ghost(g))
        .step(1143961200, -18000, 3600, "EDT", Ghost(g))
        .step(1162101600, -18000, 0, "EST", Ghost(g))
        .step(1173596400, -18000, 3600, "EDT", Ghost(g))
        .step(1194156000, -18000, 0, "EST", Ghost(g))
        .step(1205046000, -18000, 3600, "EDT", Ghost(g))
        .step(1225605600, -18000, 0, "EST", Ghost(g))
        .step(1236495600, -18000, 3600, "EDT", Ghost(g))
        .step(1257055200, -18000, 0, "EST", Ghost(g))
        .step(1268550000, -18000, 3600, "EDT", Ghost(g))
        .step(1289109600, -18000, 0, "EST", Ghost(g))
        .step(1299999600, -18000, 3600, "EDT", Ghost(g))
        .step(1320559200, -18000, 0, "EST", Ghost(g))
        .step(1331449200, -18000, 3600, "EDT", Ghost(g))
        .step(1352008800, -18000, 0, "EST", Ghost(g))
        .step(1362898800, -18000, 3600, "EDT", Ghost(g))
        .step(1383458400, -18000, 0, "EST", Ghost(g))
        .step(1394348400, -18000, 3600, "EDT", Ghost(g))
        .step(1414908000, -18000, 0, "EST", Ghost(g))
        .step(1425798000, -18000, 3600, "EDT", Ghost(g))
        .step(1446357600, -18000, 0, "EST", Ghost(g))
        .step(1457852400, -18000, 3600, "EDT", Ghost(g))
        .step(1478412000, -18000, 0, "EST", Ghost(g))
        .step(1489302000, -18000, 3600, "EDT", Ghost(g))
        .step(1509861600, -18000, 0, "EST", Ghost(g))
        .step(1520751600, -18000, 3600, "EDT", Ghost(g))
        .step(1541311200, -18000, 0, "EST", Ghost(g))
        .step(1552201200, -18000, 3600, "EDT", Ghost(g))
        .step(1572760800, -18000, 0, "EST", Ghost(g))
        .step(1583650800, -18000, 3600, "EDT", Ghost(g))
        .step(1604210400, -18000, 0, "EST", Ghost(g))
        .step(1615705200, -18000, 3600, "EDT", Ghost(g))
        .step(1636264800, -18000, 0, "EST", Ghost(g))
        .step(1647154800, -18000, 3600, "EDT", Ghost(g))
        .step(1667714400, -18000, 0, "EST", Ghost(g))
        .step(1678604400, -18000, 3600, "EDT", Ghost(g))
        .step(1699164000, -18000, 0, "EST", Ghost(g))
        .step(1710054000, -18000, 3600, "EDT", Ghost(g))
        .step(1730613600, -18000, 0, "EST", Ghost(g))
        .step(1741503600, -18000, 3600, "EDT", Ghost(g))
        .step(1762063200, -18000, 0, "EST", Ghost(g))
        .step(1772953200, -18000, 3600, "EDT", Ghost(g))
        .step(1793512800, -18000, 0, "EST", Ghost(g))
        .step(1805007600, -18000, 3600, "EDT", Ghost(g))
        .step(1825567200, -18000, 0, "EST", Ghost(g))
        .step(1836457200, -18000, 3600, "EDT", Ghost(g))
        .step(1857016800, -18000, 0, "EST", Ghost(g))
        .step(1867906800, -18000, 3600, "EDT", Ghost(g))
        .step(1888466400, -18000, 0, "EST", Ghost(g))
        .step(1899356400, -18000, 3600, "EDT", Ghost(g))
        .step(1919916000, -18000, 0, "EST", Ghost(g))
        .step(1930806000, -18000, 3600, "EDT", Ghost(g))
        .step(1951365600, -18000, 0, "EST", Ghost(g))
        .step(1962860400, -18000, 3600, "EDT", Ghost(g))
        .step(1983420000, -18000, 0, "EST", Ghost(g))
        .step(1994310000, -18000, 3600, "EDT", Ghost(g))
        .step(2014869600, -18000, 0, "EST", Ghost(g))
        .step(2025759600, -18000, 3600, "EDT", Ghost(g))
        .step(2046319200, -18000, 0, "EST", Ghost(g))
        .step(2057209200, -18000, 3600, "EDT", Ghost(g))
        .step(2077768800, -18000, 0, "EST", Ghost(g))
        .step(2088658800, -18000, 3600, "EDT", Ghost(g))
        .step(2109218400, -18000, 0, "EST", Ghost(g))
        .step(2120108400, -18000, 3600, "EDT", Ghost(g))
        .step(2140668000, -18000, 0, "EST", Ghost(g))
        .finish(Ghost(g))
}

/// The zone `America/Kentucky/Monticello`.
pub fn kentucky_monticello() -> (r: Tz)
    ensures
        r.wf(),
        r.zone_name() == "America/Kentucky/Monticello"@,
        r.table() == tables::america::kentucky_monticello(),
{
    let ghost g = tables::america::kentucky_monticello_rows();
    FixedTimespanSet::begin("America/Kentucky/Monticello", -20364, 0, "LMT", Ghost(g))
        .step(-2717647200, -21600, 0, "CST", Ghost(g))
        .step(-1633276800, -21600, 3600, "CDT", Ghost(g))
        .step(-1615136400, -21600, 0, "CST", Ghost(g))
        .step(-1601827200, -21600, 3600, "CDT", Ghost(g))
        .step(-1583686800, -21600, 0, "CST", Ghost(g))
        .step(-880214400, -21600, 3600, "CWT", Ghost(g))
        .step(-769395600, -21600, 3600, "CPT", Ghost(g))
        .step(-765392400, -21600, 0, "CST", Ghost(g))
        .step(-52934400, -21600, 3600, "CDT", Ghost(g))
        .step(-37213200, -21600, 0, "CST", Ghost(g))
        .step(-21484800, -21600, 3600, "CDT", Ghost(g))
        .step(-5763600, -21600, 0, "CST", Ghost(g))
        .step(9964800, -21600, 3600, "CDT", Ghost(g))
        .step(25686000, -21600, 0, "CST", Ghost(g))
        .step(41414400, -21600, 3600, "CDT", Ghost(g))
        .step(57740400, -21600, 0, "CST", Ghost(g))
        .step(73468800, -21600, 3600, "CDT", Ghost(g))
        .step(89190000, -21600, 0, "CST", Ghost(g))
        .step(104918400, -21600, 3600, "CDT", Ghost(g))
        .step(120639600, -21600, 0, "CST", Ghost(g))
        .step(126691200, -21600, 3600, "CDT", Ghost(g))
        .step(152089200, -21600, 0, "CST", Ghost(g))
        .step(162374400, -21600, 3600, "CDT", Ghost(g))
        .step(183538800, -21600, 0, "CST", Ghost(g))
        .step(199267200, -21600, 3600, "CDT", Ghost(g))
        .step(215593200, -21600, 0, "CST", Ghost(g))
        .step(230716800, -21600, 3600, "CDT", Ghost(g))
        .step(247042800, -21600, 0, "CST", Ghost(g))
        .step(262771200, -21600, 3600, "CDT", Ghost(g))
        .step(278492400, -21600, 0, "CST", Ghost(g))
        .step(294220800, -21600, 3600, "CDT", Ghost(g))
        .step(309942000, -21600, 0, "CST", Ghost(g))
        .step(325670400, -21600, 3600, "CDT", Ghost(g))
        .step(341391600, -21600, 0, "CST", Ghost(g))
        .step(357120000, -21600, 3600, "CDT", Ghost(g))
        .step(372841200, -21600, 0, "CST", Ghost(g))
        .step(388569600, -21600, 3600, "CDT", Ghost(g))
        .step(404895600, -21600, 0, "CST", Ghost(g))
        .step(420019200, -21600, 3600, "CDT", Ghost(g))
        .step(436345200, -21600, 0, "CST", Ghost(g))
        .step(452073600, -21600, 3600, "CDT", Ghost(g))
        .step(467794800, -21600, 0, "CST", Ghost(g))
        .step(483523200, -21600, 3600, "CDT", Ghost(g))
        .step(499244400, -21600, 0, "CST", Ghost(g))
        .step(514972800, -21600, 3600, "CDT", Ghost(g))
        .step(530694000, -21600, 0, "CST", Ghost(g))
        .step(544608000, -21600, 3600, "CDT", Ghost(g))
        .step(562143600, -21600, 0, "CST", Ghost(g))
        .step(576057600, -21600, 3600, "CDT", Ghost(g))
        .step(594198000, -21600, 0, "CST", Ghost(g))
        .step(607507200, -21600, 3600, "CDT", Ghost(g))
        .step(625647600, -21600, 0, "CST", Ghost(g))
        .step(638956800, -21600, 3600, "CDT", Ghost(g))
        .step(657097200, -21600, 0, "CST", Ghost(g))
        .step(671011200, -21600, 3600, "CDT", Ghost(g))
        .step(688546800, -21600, 0, "CST", Ghost(g))
        .step(702460800, -21600, 3600, "CDT", Ghost(g))
        .step(719996400, -21600, 0, "CST", Ghost(g))
        .step(733910400, -21600, 3600, "CDT", Ghost(g))
        .step(752050800, -21600, 0, "CST", Ghost(g))
        .step(765360000, -21600, 3600, "CDT", Ghost(g))
        .step(783500400, -21600, 0, "CST", Ghost(g))
        .step(796809600, -21600, 3600, "CDT", Ghost(g))
        .step(814950000, -21600, 0, "CST", Ghost(g))
        .step(828864000, -21600, 3600, "CDT", Ghost(g))
        .step(846399600, -21600, 0, "CST", Ghost(g))
        .step(860313600, -21600, 3600, "CDT", Ghost(g))
        .step(877849200, -21600, 0, "CST", Ghost(g))
        .step(891763200, -21600, 3600, "CDT", Ghost(g))
        .step(909298800, -21600, 0, "CST", Ghost(g))
        .step(923212800, -21600, 3600, "CDT", Ghost(g))
        .step(941353200, -21600, 0, "CST", Ghost(g))
        .step(954662400, -21600, 3600, "CDT", Ghost(g))
        .step(972802800, -18000, 0, "EST", Ghost(g))
        .step(986108400, -18000, 3600, "EDT", Ghost(g))
        .step(1004248800, -18000, 0, "EST", Ghost(g))
        .step(1018162800, -18000, 3600, "EDT", Ghost(g))
        .step(1035698400, -18000, 0, "EST", Ghost(g))
        .step(1049612400, -18000, 3600, "EDT", Ghost(g))
        .step(1067148000, -18000, 0, "EST", Ghost(g))
        .step(1081062000, -18000, 3600, "EDT", Ghost(g))
        .step(1099202400, -18000, 0, "EST", Ghost(g))
        .step(1112511600, -18000, 3600, "EDT", Ghost(g))
        .step(1130652000, -18000, 0, "EST", Ghost(g))
        .step(1143961200, -18000, 3600, "EDT", Ghost(g))
        .step(1162101600, -18000, 0, "EST", Ghost(g))
        .step(1173596400, -18000, 3600, "EDT", Ghost(g))
        .step(1194156000, -18000, 0, "EST", Ghost(g))
        .step(1205046000, -18000, 3600, "EDT", Ghost(g))
        .step(1225605600, -18000, 0, "EST", Ghost(g))
        .step(1236495600, -18000, 3600, "EDT", Ghost(g))
        .step(1257055200, -18000, 0, "EST", Ghost(g))
        .step(1268550000, -18000, 3600, "EDT", Ghost(g))
        .step(1289109600, -18000, 0, "EST", Ghost(g))
        .step(1299999600, -18000, 3600, "EDT", Ghost(g))
        .step(1320559200, -18000, 0, "EST", Ghost(g))
        .step(1331449200, -18000, 3600, "EDT", Ghost(g))
        .step(1352008800, -18000, 0, "EST", Ghost(g))
        .step(1362898800, -18000, 3600, "EDT", Ghost(g))
        .step(1383458400, -18000, 0, "EST", Ghost(g))
        .step(1394348400, -18000, 3600, "EDT", Ghost(g))
        .step(1414908000, -18000, 0, "EST", Ghost(g))
        .step(1425798000, -18000, 3600, "EDT", Ghost(g))
        .step(1446357600, -18000, 0, "EST", Ghost(g))
        .step(1457852400, -18000, 3600, "EDT", Ghost(g))
        .step(1478412000, -18000, 0, "EST", Ghost(g))
        .step(1489302000, -18000, 3600, "EDT", Ghost(g))
        .step(1509861600, -18000, 0, "EST", Ghost(g))
        .step(1520751600, -18000, 3600, "EDT", Ghost(g))
        .step(1541311200, -18000, 0, "EST", Ghost(g))
        .step(1552201200, -18000, 3600, "EDT", Ghost(g))
        .step(1572760800, -18000, 0, "EST", Ghost(g))
        .step(1583650800, -18000, 3600, "EDT", Ghost(g))
        .step(1604210400, -18000, 0, "EST", Ghost(g))
        .step(1615705200, -18000, 3600, "EDT", Ghost(g))
        .step(1636264800, -18000, 0, "EST", Ghost(g))
        .step(1647154800, -18000, 3600, "EDT", Ghost(g))
        .step(1667714400, -18000, 0, "EST", Ghost(g))
        .step(1678604400, -18000, 3600, "EDT", Ghost(g))
        .step(1699164000, -18000, 0, "EST", Ghost(g))
        .step(1710054000, -18000, 3600, "EDT", Ghost(g))
        .step(1730613600, -18000, 0, "EST", Ghost(g))
        .step(1741503600, -18000, 3600, "EDT", Ghost(g))
        .step(1762063200, -18000, 0, "EST", Ghost(g))
        .step(1772953200, -18000, 3600, "EDT", Ghost(g))
        .step(1793512800, -18000, 0, "EST", Ghost(g))
        .step(1805007600, -18000, 3600, "EDT", Ghost(g))
        .step(1825567200, -18000, 0, "EST", Ghost(g))
        .step(1836457200, -18000, 3600, "EDT", Ghost(g))
        .step(1857016800, -18000, 0, "EST", Ghost(g))
        .step(1867906800, -18000, 3600, "EDT", Ghost(g))
        .step(1888466400, -18000, 0, "EST", Ghost(g))
        .step(1899356400, -18000, 3600, "EDT", Ghost(g))
        .step(1919916000, -18000, 0, "EST", Ghost(g))
        .step(1930806000, -18000, 3600, "EDT", Ghost(g))
        .step(1951365600, -18000, 0, "EST", Ghost(g))
        .step(1962860400, -18000, 3600, "EDT", Ghost(g))
        .step(1983420000, -18000, 0, "EST", Ghost(g))
        .step(1994310000, -18000, 3600, "EDT", Ghost(g))
        .step(2014869600, -18000, 0, "EST", Ghost(g))
        .step(2025759600, -18000, 3600, "EDT", Ghost(g))
        .step(2046319200, -18000, 0, "EST", Ghost(g))
        .step(2057209200, -18000, 3600, "EDT", Ghost(g))
        .step(2077768800, -18000, 0, "EST", Ghost(g))
        .step(2088658800, -18000, 3600, "EDT", Ghost(g))
        .step(2109218400, -18000, 0, "EST", Ghost(g))
        .step(2120108400, -18000, 3600, "EDT", Ghost(g))
        .step(2140668000, -18000, 0, "EST", Ghost(g))
        .finish(Ghost(g))
}

/// The zone `America/Knox_IN`.
pub fn knox_in() -> (r: Tz)
    ensures
        r.wf(),
        r.zone_name() == "America/Knox_IN"@,
        r.table() == tables::america::knox_in(),
{
    let ghost g = tables::america::knox_in_rows();
    FixedTimespanSet::begin("America/Knox_IN", -20790, 0, "LMT", Ghost(g))
        .step(-2717647200, -21600, 0, "CST", Ghost(g))
        .step(-1633276800, -21600, 3600, "CDT", Ghost(g))
        .step(-1615136400, -21600, 0, "CST", Ghost(g))
        .step(-1601827200, -21600, 3600, "CDT", Ghost(g))
        .step(-1583686800, -21600, 0, "CST", Ghost(g))
        .step(-880214400, -21600, 3600, "CWT", Ghost(g))
        .step(-769395600, -21600, 3600, "CPT", Ghost(g))
        .step(-765392400, -21600, 0, "CST", Ghost(g))
        .step(-715795200, -21600, 3600, "CDT", Ghost(g))
        .step(-702493200, -21600, 0, "CST", Ghost(g))
        .step(-684345600, -21600, 3600, "CDT", Ghost(g))
        .step(-671043600, -21600, 0, "CST", Ghost(g))
        .step(-652896000, -21600, 3600, "CDT", Ghost(g))
        .step(-639594000, -21600, 0, "CST", Ghost(g))
        .step(-620841600, -21600, 3600, "CDT", Ghost(g))
        .step(-608144400, -21600, 0, "CST", Ghost(g))
        .step(-589392000, -21600, 3600, "CDT", Ghost(g))
        .step(-576090000, -21600, 0, "CST", Ghost(g))
        .step(-557942400, -21600, 3600, "CDT", Ghost(g))
        .step(-544640400, -21600, 0, "CST", Ghost(g))
        .step(-526492800, -21600, 3600, "CDT", Ghost(g))
        .step(-513190800, -21600, 0, "CST", Ghost(g))
        .step(-495043200, -21600, 3600, "CDT", Ghost(g))
        .step(-481741200, -21600, 0, "CST", Ghost(g))
        .step(-463593600, -21600, 3600, "CDT", Ghost(g))
        .step(-447267600, -21600, 0, "CST", Ghost(g))
        .step(-431539200, -21600, 3600, "CDT", Ghost(g))
        .step(-415818000, -21600, 0, "CST", Ghost(g))
        .step(-400089600, -21600, 3600, "CDT", Ghost(g))
        .step(-386787600, -21600, 0, "CST", Ghost(g))
        .step(-368640000, -21600, 3600, "CDT", Ghost(g))
        .step(-355338000, -21600, 0, "CST", Ghost(g))
        .step(-337190400, -21600, 3600, "CDT", Ghost(g))
        .step(-321469200, -21600, 0, "CST", Ghost(g))
        .step(-305740800, -21600, 3600, "CDT", Ghost(g))
        .step(-289414800, -21600, 0, "CST", Ghost(g))
        .step(-273686400, -21600, 3600, "CDT", Ghost(g))
        .step(-257965200, -21600, 0, "CST", Ghost(g))
        .step(-242236800, -18000, 0, "EST", Ghost(g))
        .step(-195066000, -21600, 0, "CST", Ghost(g))
        .step(-84384000, -21600, 3600, "CDT", Ghost(g))
        .step(-68662800, -21600, 0, "CST", Ghost(g))
        .step(-52934400, -21600, 3600, "CDT", Ghost(g))
        .step(-37213200, -21600, 0, "CST", Ghost(g))
        .step(-21484800, -21600, 3600, "CDT", Ghost(g))
        .step(-5763600, -21600, 0, "CST", Ghost(g))
        .step(9964800, -21600, 3600, "CDT", Ghost(g))
        .step(25686000, -21600, 0, "CST", Ghost(g))
        .step(41414400, -21600, 3600, "CDT", Ghost(g))
        .step(57740400, -21600, 0, "CST", Ghost(g))
        .step(73468800, -21600, 3600, "CDT", Ghost(g))
        .step(89190000, -21600, 0, "CST", Ghost(g))
        .step(104918400, -21600, 3600, "CDT", Ghost(g))
        .step(120639600, -21600, 0, "CST", Ghost(g))
        .step(126691200, -21600, 3600, "CDT", Ghost(g))
        .step(152089200, -21600, 0, "CST", Ghost(g))
        .step(162374400, -21600, 3600, "CDT", Ghost(g))
        .step(183538800, -21600, 0, "CST", Ghost(g))
        .step(199267200, -21600, 3600, "CDT", Ghost(g))
        .step(215593200, -21600, 0, "CST", Ghost(g))
        .step(230716800, -21600, 3600, "CDT", Ghost(g))
        .step(247042800, -21600, 0, "CST", Ghost(g))
        .step(262771200, -21600, 3600, "CDT", Ghost(g))
        .step(278492400, -21600, 0, "CST", Ghost(g))
        .step(294220800, -21600, 3600, "CDT", Ghost(g))
        .step(309942000, -21600, 0, "CST", Ghost(g))
        .step(325670400, -21600, 3600, "CDT", Ghost(g))
        .step(341391600, -21600, 0, "CST", Ghost(g))
        .step(357120000, -21600, 3600, "CDT", Ghost(g))
        .step(372841200, -21600, 0, "CST", Ghost(g))
        .step(388569600, -21600, 3600, "CDT", Ghost(g))
        .step(404895600, -21600, 0, "CST", Ghost(g))
        .step(420019200, -21600, 3600, "CDT", Ghost(g))
        .step(436345200, -21600, 0, "CST", Ghost(g))
        .step(452073600, -21600, 3600, "CDT", Ghost(g))
        .step(467794800, -21600, 0, "CST", Ghost(g))
        .step(483523200, -21600, 3600, "CDT", Ghost(g))
        .step(499244400, -21600, 0, "CST", Ghost(g))
        .step(514972800, -21600, 3600, "CDT", Ghost(g))
        .step(530694000, -21600, 0, "CST", Ghost(g))
        .step(544608000, -21600, 3600, "CDT", Ghost(g))
        .step(562143600, -21600, 0, "CST", Ghost(g))
        .step(576057600, -21600, 3600, "CDT", Ghost(g))
        .step(594198000, -21600, 0, "CST", Ghost(g))
        .step(607507200, -21600, 3600, "CDT", Ghost(g))
        .step(625647600, -21600, 0, "CST", Ghost(g))
        .step(638956800, -21600, 3600, "CDT", Ghost(g))
        .step(657097200, -21600, 0, "CST", Ghost(g))
        .step(671011200, -21600, 3600, "CDT", Ghost(g))
        .step(688546800, -18000, 0, "EST", Ghost(g))
        .step(1143961200, -21600, 3600, "CDT", Ghost(g))
        .step(1162105200, -21600, 0, "CST", Ghost(g))
        .step(1173600000, -21600, 3600, "CDT", Ghost(g))
        .step(1194159600, -21600, 0, "CST", Ghost(g))
        .step(1205049600, -21600, 3600, "CDT", Ghost(g))
        .step(1225609200, -21600, 0, "CST", Ghost(g))
        .step(1236499200, -21600, 3600, "CDT", Ghost(g))
        .step(1257058800, -21600, 0, "CST", Ghost(g))
        .step(1268553600, -21600, 3600, "CDT", Ghost(g))
        .step(1289113200, -21600, 0, "CST", Ghost(g))
        .step(1300003200, -21600, 3600, "CDT", Ghost(g))
        .step(1320562800, -21600, 0, "CST", Ghost(g))
        .step(1331452800, -21600, 3600, "CDT", Ghost(g))
        .step(1352012400, -21600, 0, "CST", Ghost(g))
        .step(1362902400, -21600, 3600, "CDT", Ghost(g))
        .step(1383462000, -21600, 0, "CST", Ghost(g))
        .step(1394352000, -21600, 3600, "CDT", Ghost(g))
        .step(1414911600, -21600, 0, "CST", Ghost(g))
        .step(1425801600, -21600, 3600, "CDT", Ghost(g))
        .step(1446361200, -21600, 0, "CST", Ghost(g))
        .step(1457856000, -21600, 3600, "CDT", Ghost(g))
        .step(1478415600, -21600, 0, "CST", Ghost(g))
        .step(1489305600, -21600, 3600, "CDT", Ghost(g))
        .step(1509865200, -21600, 0, "CST", Ghost(g))
        .step(1520755200, -21600, 3600, "CDT", Ghost(g))
        .step(1541314800, -21600, 0, "CST", Ghost(g))
        .step(1552204800, -21600, 3600, "CDT", Ghost(g))
        .step(1572764400, -21600, 0, "CST", Ghost(g))
        .step(1583654400, -21600, 3600, "CDT", Ghost(g))
        .step(1604214000, -21600, 0, "CST", Ghost(g))
        .step(1615708800, -21600, 3600, "CDT", Ghost(g))
        .step(1636268400, -21600, 0, "CST", Ghost(g))
        .step(1647158400, -21600, 3600, "CDT", Ghost(g))
        .step(1667718000, -21600, 0, "CST", Ghost(g))
        .step(1678608000, -21600, 3600, "CDT", Ghost(g))
        .step(1699167600, -21600, 0, "CST", Ghost(g))
        .step(1710057600, -21600, 3600, "CDT", Ghost(g))
        .step(1730617200, -21600, 0, "CST", Ghost(g))
        .step(1741507200, -21600, 3600, "CDT", Ghost(g))
        .step(1762066800, -21600, 0, "CST", Ghost(g))
        .step(1772956800, -21600, 3600, "CDT", Ghost(g))
        .step(1793516400, -21600, 0, "CST", Ghost(g))
        .step(1805011200, -21600, 3600, "CDT", Ghost(g))
        .step(1825570800, -21600, 0, "CST", Ghost(g))
        .step(1836460800, -21600, 3600, "CDT", Ghost(g))
        .step(1857020400, -21600, 0, "CST", Ghost(g))
        .step(1867910400, -21600, 3600, "CDT", Ghost(g))
        .step(1888470000, -21600, 0, "CST", Ghost(g))
        .step(1899360000, -21600, 3600, "CDT", Ghost(g))
        .step(1919919600, -21600, 0, "CST", Ghost(g))
        .step(1930809600, -21600, 3600, "CDT", Ghost(g))
        .step(1951369200, -21600, 0, "CST", Ghost(g))
        .step(1962864000, -21600, 3600, "CDT", Ghost(g))
        .step(1983423600, -21600, 0, "CST", Ghost(g))
        .step(1994313600, -21600, 3600, "CDT", Ghost(g))
        .step(2014873200, -21600, 0, "CST", Ghost(g))
        .step(2025763200, -21600, 3600, "CDT", Ghost(g))
        .step(2046322800, -21600, 0, "CST", Ghost(g))
        .step(2057212800, -21600, 3600, "CDT", Ghost(g))
        .step(2077772400, -21600, 0, "CST", Ghost(g))
        .step(2088662400, -21600, 3600, "CDT", Ghost(g))
        .step(2109222000, -21600, 0, "CST", Ghost(g))
        .step(2120112000, -21600, 3600, "CDT", Ghost(g))
        .step(2140671600, -21600, 0, "CST", Ghost(g))
        .finish(Ghost(g))
}

/// The zone `America/Kralendijk`.
pub fn kralendijk() -> (r: Tz)
    ensures
        r.wf(),
        r.zone_name() == "America/Kralendijk"@,
        r.table() == tables::america::kralendijk(),
{
    let ghost g = tables::america::kralendijk_rows();
    FixedTimespanSet::begin("America/Kralendijk", -15865, 0, "LMT", Ghost(g))
        .step(-2233035335, -14400, 0, "AST", Ghost(g))
        .step(-873057600, -14400, 3600, "AWT", Ghost(g))
        .step(-769395600, -14400, 3600, "APT", Ghost(g))
        .step(-765399600, -14400, 0, "AST", Ghost(g))
        .finish(Ghost(g))
}

/// The zone `America/La_Paz`.
pub fn la_paz() -> (r: Tz)
    ensures
        r.wf(),
        r.zone_name() == "America/La_Paz"@,
        r.table() == tables::america::la_paz(),
{
    let ghost g = tables::america::la_paz_rows();
    FixedTimespanSet::begin("America/La_Paz", -16356, 0, "LMT", Ghost(g))
        .step(-2524505244, -16356, 0, "CMT", Ghost(g))
        .step(-1205954844, -16356, 3600, "BST", Ghost(g))
        .step(-1192307244, -14400, 0, "-04", Ghost(g))
        .step(2147483647, -14400, 0, "-04", Ghost(g))
        .finish(Ghost(g))
}

/// The zone `America/Lima`.
pub fn lima() -> (r: Tz)
    ensures
        r.wf(),
        r.zone_name() == "America/Lima"@,
        r.table() == tables::america::lima(),
{
    let ghost g = tables::america::lima_rows();
    FixedTimespanSet::begin("America/Lima", -18492, 0, "LMT", Ghost(g))
        .step(-2524503108, -18516, 0, "LMT", Ghost(g))
        .step(-1938538284, -18000, 0, "-05", Ghost(g))
        .step(-1009825200, -18000, 3600, "-04", Ghost(g))
        .step(-1002052800, -18000, 0, "-05", Ghost(g))
        .step(-986756400, -18000, 3600, "-04", Ghost(g))
        .step(-971035200, -18000, 0, "-05", Ghost(g))
        .step(-955306800, -18000, 3600, "-04", Ghost(g))
        .step(-939585600, -18000, 0, "-05", Ghost(g))
        .step(504939600, -18000, 3600, "-04", Ghost(g))
        .step(512712000, -18000, 0, "-05", Ghost(g))
        .step(536475600, -18000, 3600, "-04", Ghost(g))
        .step(544248000, -18000, 0, "-05", Ghost(g))
        .step(631170000, -18000, 3600, "-04", Ghost(g))
        .step(638942400, -18000, 0, "-05", Ghost(g))
        .step(757400400, -18000, 3600, "-04", Ghost(g))
        .step(765172800, -18000, 0, "-05", Ghost(g))
        .step(2147483647, -18000, 0, "-05", Ghost(g))
        .finish(Ghost(g))
}

/// The zone `America/Los_Angeles`.
pub fn los_angeles() -> (r: Tz)
    ensures
        r.wf(),
        r.zone_name() == "America/Los_Angeles"@,
        r.table() == tables::america::los_angeles(),
{
    let ghost g = tables::america::los_angeles_rows();
    FixedTimespanSet::begin("America/Los_Angeles", -28378, 0, "LMT", Ghost(g))
        .step(-2717640000, -28800, 0, "PST", Ghost(g))
        .step(-1633269600, -28800, 3600, "PDT", Ghost(g))
        .step(-1615129200, -28800, 0, "PST", Ghost(g))
        .step(-1601820000, -28800, 3600, "PDT", Ghost(g))
        .step(-1583679600, -28800, 0, "PST", Ghost(g))
        .step(-880207200, -28800, 3600, "PWT", Ghost(g))
        .step(-769395600, -28800, 3600, "PPT", Ghost(g))
        .step(-765385200, -28800, 0, "PST", Ghost(g))
        .step(-687967140, -28800, 3600, "PDT", Ghost(g))
        .step(-662655600, -28800, 0, "PST", Ghost(g))
        .step(-620838000, -28800, 3600, "PDT", Ghost(g))
        .step(-608137200, -28800, 0, "PST", Ghost(g))
        .step(-589388400, -28800, 3600, "PDT", Ghost(g))
        .step(-576082800, -28800, 0, "PST", Ghost(g))
        .step(-557938800, -28800, 3600, "PDT", Ghost(g))
        .step(-544633200, -28800, 0, "PST", Ghost(g))
        .step(-526489200, -28800, 3600, "PDT", Ghost(g))
        .step(-513183600, -28800, 0, "PST", Ghost(g))
        .step(-495039600, -28800, 3600, "PDT", Ghost(g))
        .step(-481734000, -28800, 0, "PST", Ghost(g))
        .step(-463590000, -28800, 3600, "PDT", Ghost(g))
        .step(-450284400, -28800, 0, "PST", Ghost(g))
        .step(-431535600, -28800, 3600, "PDT", Ghost(g))
        .step(-418230000, -28800, 0, "PST", Ghost(g))
        .step(-400086000, -28800, 3600, "PDT", Ghost(g))
        .step(-386780400, -28800, 0, "PST", Ghost(g))
        .step(-368636400, -28800, 3600, "PDT", Ghost(g))
        .step(-355330800, -28800, 0, "PST", Ghost(g))
        .step(-337186800, -28800, 3600, "PDT", Ghost(g))
        .step(-323881200, -28800, 0, "PST", Ghost(g))
        .step(-305737200, -28800, 3600, "PDT", Ghost(g))
        .step(-292431600, -28800, 0, "PST", Ghost(g))
        .step(-273682800, -28800, 3600, "PDT", Ghost(g))
        .step(-260982000, -28800, 0, "PST", Ghost(g))
        .step(-242233200, -28800, 3600, "PDT", Ghost(g))
        .step(-226508400, -28800, 0, "PST", Ghost(g))
        .step(-210783600, -28800, 3600, "PDT", Ghost(g))
        .step(-195058800, -28800, 0, "PST", Ghost(g))
        .step(-179334000, -28800, 3600, "PDT", Ghost(g))
        .step(-163609200, -28800, 0, "PST", Ghost(g))
        .step(-147884400, -28800, 3600, "PDT", Ghost(g))
        .step(-131554800, -28800, 0, "PST", Ghost(g))
        .step(-116434800, -28800, 3600, "PDT", Ghost(g))
        .step(-100105200, -28800, 0, "PST", Ghost(g))
        .step(-84376800, -28800, 3600, "PDT", Ghost(g))
        .step(-68655600, -28800, 0, "PST", Ghost(g))
        .step(-52927200, -28800, 3600, "PDT", Ghost(g))
        .step(-37206000, -28800, 0, "PST", Ghost(g))
        .step(-21477600, -28800, 3600, "PDT", Ghost(g))
        .step(-5756400, -28800, 0, "PST", Ghost(g))
        .step(9972000, -28800, 3600, "PDT", Ghost(g))
        .step(25693200, -28800, 0, "PST", Ghost(g))
        .step(41421600, -28800, 3600, "PDT", Ghost(g))
        .step(57747600, -28800, 0, "PST", Ghost(g))
        .step(73476000, -28800, 3600, "PDT", Ghost(g))
        .step(89197200, -28800, 0, "PST", Ghost(g))
        .step(104925600, -28800, 3600, "PDT", Ghost(g))
        .step(120646800, -28800, 0, "PST", Ghost(g))
        .step(126698400, -28800, 3600, "PDT", Ghost(g))
        .step(152096400, -28800, 0, "PST", Ghost(g))
        .step(162381600, -28800, 3600, "PDT", Ghost(g))
        .step(183546000, -28800, 0, "PST", Ghost(g))
        .step(199274400, -28800, 3600, "PDT", Ghost(g))
        .step(215600400, -28800, 0, "PST", Ghost(g))
        .step(230724000, -28800, 3600, "PDT", Ghost(g))
        .step(247050000, -28800, 0, "PST", Ghost(g))
        .step(262778400, -28800, 3600, "PDT", Ghost(g))
        .step(278499600, -28800, 0, "PST", Ghost(g))
        .step(294228000, -28800, 3600, "PDT", Ghost(g))
        .step(309949200, -28800, 0, "PST", Ghost(g))
        .step(325677600, -28800, 3600, "PDT", Ghost(g))
        .step(341398800, -28800, 0, "PST", Ghost(g))
        .step(357127200, -28800, 3600, "PDT", Ghost(g))
        .step(372848400, -28800, 0, "PST", Ghost(g))
        .step(388576800, -28800, 3600, "PDT", Ghost(g))
        .step(404902800, -28800, 0, "PST", Ghost(g))
        .step(420026400, -28800, 3600, "PDT", Ghost(g))
        .step(436352400, -28800, 0, "PST", Ghost(g))
        .step(452080800, -28800, 3600, "PDT", Ghost(g))
        .step(467802000, -28800, 0, "PST", Ghost(g))
        .step(483530400, -28800, 3600, "PDT", Ghost(g))
        .step(499251600, -28800, 0, "PST", Ghost(g))
        .step(514980000, -28800, 3600, "PDT", Ghost(g))
        .step(530701200, -28800, 0, "PST", Ghost(g))
        .step(544615200, -28800, 3600, "PDT", Ghost(g))
        .step(562150800, -28800, 0, "PST", Ghost(g))
        .step(576064800, -28800, 3600, "PDT", Ghost(g))
        .step(594205200, -28800, 0, "PST", Ghost(g))
        .step(607514400, -28800, 3600, "PDT", Ghost(g))
        .step(625654800, -28800, 0, "PST", Ghost(g))
        .step(638964000, -28800, 3600, "PDT", Ghost(g))
        .step(657104400, -28800, 0, "PST", Ghost(g))
        .step(671018400, -28800, 3600, "PDT", Ghost(g))
        .step(688554000, -28800, 0, "PST", Ghost(g))
        .step(702468000, -28800, 3600, "PDT", Ghost(g))
        .step(720003600, -28800, 0, "PST", Ghost(g))
        .step(733917600, -28800, 3600, "PDT", Ghost(g))
        .step(752058000, -28800, 0, "PST", Ghost(g))
        .step(765367200, -28800, 3600, "PDT", Ghost(g))
        .step(783507600, -28800, 0, "PST", Ghost(g))
        .step(796816800, -28800, 3600, "PDT", Ghost(g))
        .step(814957200, -28800, 0, "PST", Ghost(g))
        .step(828871200, -28800, 3600, "PDT", Ghost(g))
        .step(846406800, -28800, 0, "PST", Ghost(g))
        .step(860320800, -28800, 3600, "PDT", Ghost(g))
        .step(877856400, -28800, 0, "PST", Ghost(g))
        .step(891770400, -28800, 3600, "PDT", Ghost(g))
        .step(909306000, -28800, 0, "PST", Ghost(g))
        .step(923220000, -28800, 3600, "PDT", Ghost(g))
        .step(941360400, -28800, 0, "PST", Ghost(g))
        .step(954669600, -28800, 3600, "PDT", Ghost(g))
        .step(972810000, -28800, 0, "PST", Ghost(g))
        .step(986119200, -28800, 3600, "PDT", Ghost(g))
        .step(1004259600, -28800, 0, "PST", Ghost(g))
        .step(1018173600, -28800, 3600, "PDT", Ghost(g))
        .step(1035709200, -28800, 0, "PST", Ghost(g))
        .step(1049623200, -28800, 3600, "PDT", Ghost(g))
        .step(1067158800, -28800, 0, "PST", Ghost(g))
        .step(1081072800, -28800, 3600, "PDT", Ghost(g))
        .step(1099213200, -28800, 0, "PST", Ghost(g))
        .step(1112522400, -28800, 3600, "PDT", Ghost(g))
        .step(1130662800, -28800, 0, "PST", Ghost(g))
        .step(1143972000, -28800, 3600, "PDT", Ghost(g))
        .step(1162112400, -28800, 0, "PST", Ghost(g))
        .step(1173607200, -28800, 3600, "PDT", Ghost(g))
        .step(1194166800, -28800, 0, "PST", Ghost(g))
        .step(1205056800, -28800, 3600, "PDT", Ghost(g))
        .step(1225616400, -28800, 0, "PST", Ghost(g))
        .step(1236506400, -28800, 3600, "PDT", Ghost(g))
        .step(1257066000, -28800, 0, "PST", Ghost(g))
        .step(1268560800, -28800, 3600, "PDT", Ghost(g))
        .step(1289120400, -28800, 0, "PST", Ghost(g))
        .step(1300010400, -28800, 3600, "PDT", Ghost(g))
        .step(1320570000, -28800, 0, "PST", Ghost(g))
        .step(1331460000, -28800, 3600, "PDT", Ghost(g))
        .step(1352019600, -28800, 0, "PST", Ghost(g))
        .step(1362909600, -28800, 3600, "PDT", Ghost(g))
        .step(1383469200, -28800, 0, "PST", Ghost(g))
        .step(1394359200, -28800, 3600, "PDT", Ghost(g))
        .step(1414918800, -28800, 0, "PST", Ghost(g))
        .step(1425808800, -28800, 3600, "PDT", Ghost(g))
        .step(1446368400, -28800, 0, "PST", Ghost(g))
        .step(1457863200, -28800, 3600, "PDT", Ghost(g))
        .step(1478422800, -28800, 0, "PST", Ghost(g))
        .step(1489312800, -28800, 3600, "PDT", Ghost(g))
        .step(1509872400, -28800, 0, "PST", Ghost(g))
        .step(1520762400, -28800, 3600, "PDT", Ghost(g))
        .step(1541322000, -28800, 0, "PST", Ghost(g))
        .step(1552212000, -28800, 3600, "PDT", Ghost(g))
        .step(1572771600, -28800, 0, "PST", Ghost(g))
        .step(1583661600, -28800, 3600, "PDT", Ghost(g))
        .step(1604221200, -28800, 0, "PST", Ghost(g))
        .step(1615716000, -28800, 3600, "PDT", Ghost(g))
        .step(1636275600, -28800, 0, "PST", Ghost(g))
        .step(1647165600, -28800, 3600, "PDT", Ghost(g))
        .step(1667725200, -28800, 0, "PST", Ghost(g))
        .step(1678615200, -28800, 3600, "PDT", Ghost(g))
        .step(1699174800, -28800, 0, "PST", Ghost(g))
        .step(1710064800, -28800, 3600, "PDT", Ghost(g))
        .step(1730624400, -28800, 0, "PST", Ghost(g))
        .step(1741514400, -28800, 3600, "PDT", Ghost(g))
        .step(1762074000, -28800, 0, "PST", Ghost(g))
        .step(1772964000, -28800, 3600, "PDT", Ghost(g))
        .step(1793523600, -28800, 0, "PST", Ghost(g))
        .step(1805018400, -28800, 3600, "PDT", Ghost(g))
        .step(1825578000, -28800, 0, "PST", Ghost(g))
        .step(1836468000, -28800, 3600, "PDT", Ghost(g))
        .step(1857027600, -28800, 0, "PST", Ghost(g))
        .step(1867917600, -28800, 3600, "PDT", Ghost(g))
        .step(1888477200, -28800, 0, "PST", Ghost(g))
        .step(1899367200, -28800, 3600, "PDT", Ghost(g))
        .step(1919926800, -28800, 0, "PST", Ghost(g))
        .step(1930816800, -28800, 3600, "PDT", Ghost(g))
        .step(1951376400, -28800, 0, "PST", Ghost(g))
        .step(1962871200, -28800, 3600, "PDT", Ghost(g))
        .step(1983430800, -28800, 0, "PST", Ghost(g))
        .step(1994320800, -28800, 3600, "PDT", Ghost(g))
        .step(2014880400, -28800, 0, "PST", Ghost(g))
        .step(2025770400, -28800, 3600, "PDT", Ghost(g))
        .step(2046330000, -28800, 0, "PST", Ghost(g))
        .step(2057220000, -28800, 3600, "PDT", Ghost(g))
        .step(2077779600, -28800, 0, "PST", Ghost(g))
        .step(2088669600, -28800, 3600, "PDT", Ghost(g))
        .step(2109229200, -28800, 0, "PST", Ghost(g))
        .step(2120119200, -28800, 3600, "PDT", Ghost(g))
        .step(2140678800, -28800, 0, "PST", Ghost(g))
        .finish(Ghost(g))
}

/// The zone `America/Louisville`.
pub fn louisville() -> (r: Tz)
    ensures
        r.wf(),
        r.zone_name() == "America/Louisville"@,
        r.table() == tables::america::louisville(),
{
    let ghost g = tables::america::louisville_rows();
    FixedTimespanSet::begin("America/Louisville", -20582, 0, "LMT", Ghost(g))
        .step(-2717647200, -21600, 0, "CST", Ghost(g))
        .step(-1633276800, -21600, 3600, "CDT", Ghost(g))
        .step(-1615136400, -21600, 0, "CST", Ghost(g))
        .step(-1601827200, -21600, 3600, "CDT", Ghost(g))
        .step(-1583686800, -21600, 0, "CST", Ghost(g))
        .step(-1535904000, -21600, 3600, "CDT", Ghost(g))
        .step(-1525280400, -21600, 0, "CST", Ghost(g))
        .step(-905097600, -21600, 3600, "CDT", Ghost(g))
        .step(-891795600, -21600, 0, "CST", Ghost(g))
        .step(-880214400, -21600, 3600, "CWT", Ghost(g))
        .step(-769395600, -21600, 3600, "CPT", Ghost(g))
        .step(-765392400, -21600, 0, "CST", Ghost(g))
        .step(-747251940, -21600, 3600, "CDT", Ghost(g))
        .step(-744224400, -21600, 0, "CST", Ghost(g))
        .step(-620841600, -21600, 3600, "CDT", Ghost(g))
        .step(-608144400, -21600, 0, "CST", Ghost(g))
        .step(-589392000, -21600, 3600, "CDT", Ghost(g))
        .step(-576090000, -21600, 0, "CST", Ghost(g))
        .step(-557942400, -21600, 3600, "CDT", Ghost(g))
        .step(-544640400, -21600, 0, "CST", Ghost(g))
        .step(-526492800, -21600, 3600, "CDT", Ghost(g))
        .step(-513190800, -21600, 0, "CST", Ghost(g))
        .step(-495043200, -21600, 3600, "CDT", Ghost(g))
        .step(-481741200, -21600, 0, "CST", Ghost(g))
        .step(-463593600, -21600, 3600, "CDT", Ghost(g))
        .step(-450291600, -21600, 0, "CST", Ghost(g))
        .step(-431539200, -21600, 3600, "CDT", Ghost(g))
        .step(-415818000, -21600, 0, "CST", Ghost(g))
        .step(-400089600, -21600, 3600, "CDT", Ghost(g))
        .step(-384368400, -21600, 0, "CST", Ghost(g))
        .step(-368640000, -21600, 3600, "CDT", Ghost(g))
        .step(-352918800, -21600, 0, "CST", Ghost(g))
        .step(-337190400, -21600, 3600, "CDT", Ghost(g))
        .step(-321469200, -21600, 0, "CST", Ghost(g))
        .step(-305740800, -21600, 3600, "CDT", Ghost(g))
        .step(-289414800, -21600, 0, "CST", Ghost(g))
        .step(-273686400, -21600, 3600, "CDT", Ghost(g))
        .step(-266432400, -18000, 0, "EST", Ghost(g))
        .step(-52938000, -18000, 3600, "EDT", Ghost(g))
        .step(-37216800, -18000, 0, "EST", Ghost(g))
        .step(-21488400, -18000, 3600, "EDT", Ghost(g))
        .step(-5767200, -18000, 0, "EST", Ghost(g))
        .step(9961200, -18000, 3600, "EDT", Ghost(g))
        .step(25682400, -18000, 0, "EST", Ghost(g))
        .step(41410800, -18000, 3600, "EDT", Ghost(g))
        .step(57736800, -18000, 0, "EST", Ghost(g))
        .step(73465200, -18000, 3600, "EDT", Ghost(g))
        .step(89186400, -18000, 0, "EST", Ghost(g))
        .step(104914800, -18000, 3600, "EDT", Ghost(g))
        .step(120636000, -18000, 0, "EST", Ghost(g))
        .step(126687600, -21600, 3600, "CDT", Ghost(g))
        .step(152089200, -18000, 0, "EST", Ghost(g))
        .step(162370800, -18000, 3600, "EDT", Ghost(g))
        .step(183535200, -18000, 0, "EST", Ghost(g))
        .step(199263600, -18000, 3600, "EDT", Ghost(g))
        .step(215589600, -18000, 0, "EST", Ghost(g))
        .step(230713200, -18000, 3600, "EDT", Ghost(g))
        .step(247039200, -18000, 0, "EST", Ghost(g))
        .step(262767600, -18000, 3600, "EDT", Ghost(g))
        .step(278488800, -18000, 0, "EST", Ghost(g))
        .step(294217200, -18000, 3600, "EDT", Ghost(g))
        .step(309938400, -18000, 0, "EST", Ghost(g))
        .step(325666800, -18000, 3600, "EDT", Ghost(g))
        .step(341388000, -18000, 0, "EST", Ghost(g))
        .step(357116400, -18000, 3600, "EDT", Ghost(g))
        .step(372837600, -18000, 0, "EST", Ghost(g))
        .step(388566000, -18000, 3600, "EDT", Ghost(g))
        .step(404892000, -18000, 0, "EST", Ghost(g))
        .step(420015600, -18000, 3600, "EDT", Ghost(g))
        .step(436341600, -18000, 0, "EST", Ghost(g))
        .step(452070000, -18000, 3600, "EDT", Ghost(g))
        .step(467791200, -18000, 0, "EST", Ghost(g))
        .step(483519600, -18000, 3600, "EDT", Ghost(g))
        .step(499240800, -18000, 0, "EST", Ghost(g))
        .step(514969200, -18000, 3600, "EDT", Ghost(g))
        .step(530690400, -18000, 0, "EST", Ghost(g))
        .step(544604400, -18000, 3600, "EDT", Ghost(g))
        .step(562140000, -18000, 0, "EST", Ghost(g))
        .step(576054000, -18000, 3600, "EDT", Ghost(g))
        .step(594194400, -18000, 0, "EST", Ghost(g))
        .step(607503600, -18000, 3600, "EDT", Ghost(g))
        .step(625644000, -18000, 0, "EST", Ghost(g))
        .step(638953200, -18000, 3600, "EDT", Ghost(g))
        .step(657093600, -18000, 0, "EST", Ghost(g))
        .step(671007600, -18000, 3600, "EDT", Ghost(g))
        .step(688543200, -18000, 0, "EST", Ghost(g))
        .step(702457200, -18000, 3600, "EDT", Ghost(g))
        .step(719992800, -18000, 0, "EST", Ghost(g))
        .step(733906800, -18000, 3600, "EDT", Ghost(g))
        .step(752047200, -18000, 0, "EST", Ghost(g))
        .step(765356400, -18000, 3600, "EDT", Ghost(g))
        .step(783496800, -18000, 0, "EST", Ghost(g))
        .step(796806000, -18000, 3600, "EDT", Ghost(g))
        .step(814946400, -18000, 0, "EST", Ghost(g))
        .step(828860400, -18000, 3600, "EDT", Ghost(g))
        .step(846396000, -18000, 0, "EST", Ghost(g))
        .step(860310000, -18000, 3600, "EDT", Ghost(g))
        .step(877845600, -18000, 0, "EST", Ghost(g))
        .step(891759600, -18000, 3600, "EDT", Ghost(g))
        .step(909295200, -18000, 0, "EST", Ghost(g))
        .step(923209200, -18000, 3600, "EDT", Ghost(g))
        .step(941349600, -18000, 0, "EST", Ghost(g))
        .step(954658800, -18000, 3600, "EDT", Ghost(g))
        .step(972799200, -18000, 0, "EST", Ghost(g))
        .step(986108400, -18000, 3600, "EDT", Ghost(g))
        .step(1004248800, -18000, 0, "EST", Ghost(g))
        .step(1018162800, -18000, 3600, "EDT", Ghost(g))
        .step(1035698400, -18000, 0, "EST", Ghost(g))
        .step(1049612400, -18000, 3600, "EDT", Ghost(g))
        .step(1067148000, -18000, 0, "EST", Ghost(g))
        .step(1081062000, -18000, 3600, "EDT", Ghost(g))
        .step(1099202400, -18000, 0, "EST", Ghost(g))
        .step(1112511600, -18000, 3600, "EDT", Ghost(g))
        .step(1130652000, -18000, 0, "EST", Ghost(g))
        .step(1143961200, -18000, 3600, "EDT", Ghost(g))
        .step(1162101600, -18000, 0, "EST", Ghost(g))
        .step(1173596400, -18000, 3600, "EDT", Ghost(g))
        .step(1194156000, -18000, 0, "EST", Ghost(g))
        .step(1205046000, -18000, 3600, "EDT", Ghost(g))
        .step(1225605600, -18000, 0, "EST", Ghost(g))
        .step(1236495600, -18000, 3600, "EDT", Ghost(g))
        .step(1257055200, -18000, 0, "EST", Ghost(g))
        .step(1268550000, -18000, 3600, "EDT", Ghost(g))
        .step(1289109600, -18000, 0, "EST", Ghost(g))
        .step(1299999600, -18000, 3600, "EDT", Ghost(g))
        .step(1320559200, -18000, 0, "EST", Ghost(g))
        .step(1331449200, -18000, 3600, "EDT", Ghost(g))
        .step(1352008800, -18000, 0, "EST", Ghost(g))
        .step(1362898800, -18000, 3600, "EDT", Ghost(g))
        .step(1383458400, -18000, 0, "EST", Ghost(g))
        .step(1394348400, -18000, 3600, "EDT", Ghost(g))
        .step(1414908000, -18000, 0, "EST", Ghost(g))
        .step(1425798000, -18000, 3600, "EDT", Ghost(g))
        .step(1446357600, -18000, 0, "EST", Ghost(g))
        .step(1457852400, -18000, 3600, "EDT", Ghost(g))
        .step(1478412000, -18000, 0, "EST", Ghost(g))
        .step(1489302000, -18000, 3600, "EDT", Ghost(g))
        .step(1509861600, -18000, 0, "EST", Ghost(g))
        .step(1520751600, -18000, 3600, "EDT", Ghost(g))
        .step(1541311200, -18000, 0, "EST", Ghost(g))
        .step(1552201200, -18000, 3600, "EDT", Ghost(g))
        .step(1572760800, -18000, 0, "EST", Ghost(g))
        .step(1583650800, -18000, 3600, "EDT", Ghost(g))
        .step(1604210400, -18000, 0, "EST", Ghost(g))
        .step(1615705200, -18000, 3600, "EDT", Ghost(g))
        .step(1636264800, -18000, 0, "EST", Ghost(g))
        .step(1647154800, -18000, 3600, "EDT", Ghost(g))
        .step(1667714400, -18000, 0, "EST", Ghost(g))
        .step(1678604400, -18000, 3600, "EDT", Ghost(g))
        .step(1699164000, -18000, 0, "EST", Ghost(g))
        .step(1710054000, -18000, 3600, "EDT", Ghost(g))
        .step(1730613600, -18000, 0, "EST", Ghost(g))
        .step(1741503600, -18000, 3600, "EDT", Ghost(g))
        .step(1762063200, -18000, 0, "EST", Ghost(g))
        .step(1772953200, -18000, 3600, "EDT", Ghost(g))
        .step(1793512800, -18000, 0, "EST", Ghost(g))
        .step(1805007600, -18000, 3600, "EDT", Ghost(g))
        .step(1825567200, -18000, 0, "EST", Ghost(g))
        .step(1836457200, -18000, 3600, "EDT", Ghost(g))
        .step(1857016800, -18000, 0, "EST", Ghost(g))
        .step(1867906800, -18000, 3600, "EDT", Ghost(g))
        .step(1888466400, -18000, 0, "EST", Ghost(g))
        .step(1899356400, -18000, 3600, "EDT", Ghost(g))
        .step(1919916000, -18000, 0, "EST", Ghost(g))
        .step(1930806000, -18000, 3600, "EDT", Ghost(g))
        .step(1951365600, -18000, 0, "EST", Ghost(g))
        .step(1962860400, -18000, 3600, "EDT", Ghost(g))
        .step(1983420000, -18000, 0, "EST", Ghost(g))
        .step(1994310000, -18000, 3600, "EDT", Ghost(g))
        .step(2014869600, -18000, 0, "EST", Ghost(g))
        .step(2025759600, -18000, 3600, "EDT", Ghost(g))
        .step(2046319200, -18000, 0, "EST", Ghost(g))
        .step(2057209200, -18000, 3600, "EDT", Ghost(g))
        .step(2077768800, -18000, 0, "EST", Ghost(g))
        .step(2088658800, -18000, 3600, "EDT", Ghost(g))
        .step(2109218400, -18000, 0, "EST", Ghost(g))
        .step(2120108400, -18000, 3600, "EDT", Ghost(g))
        .step(2140668000, -18000, 0, "EST", Ghost(g))
        .finish(Ghost(g))
}

/// The zone `America/Lower_Princes`.
pub fn lower_princes() -> (r: Tz)
    ensures
        r.wf(),
        r.zone_name() == "America/Lower_Princes"@,
        r.table() == tables::america::lower_princes(),
{
    let ghost g = tables::america::lower_princes_rows();
    FixedTimespanSet::begin("America/Lower_Princes", -15865, 0, "LMT", Ghost(g))
        .step(-2233035335, -14400, 0, "AST", Ghost(g))
        .step(-873057600, -14400, 3600, "AWT", Ghost(g))
        .step(-769395600, -14400, 3600, "APT", Ghost(g))
        .step(-765399600, -14400, 0, "AST", Ghost(g))
        .finish(Ghost(g))
}

/// The zone `America/Maceio`.
pub fn maceio() -> (r: Tz)
    ensures
        r.wf(),
        r.zone_name() == "America/Maceio"@,
        r.table() == tables::america::maceio(),
{
    let ghost g = tables::america::maceio_rows();
    FixedTimespanSet::begin("America/Maceio", -8572, 0, "LMT", Ghost(g))
        .step(-1767217028, -10800, 0, "-03", Ghost(g))
        .step(-1206957600, -10800, 3600, "-02", Ghost(g))
        .step(-1191362400, -10800, 0, "-03", Ghost(g))
        .step(-1175374800, -10800, 3600, "-02", Ghost(g))
        .step(-1159826400, -10800, 0, "-03", Ghost(g))
        .step(-633819600, -10800, 3600, "-02", Ghost(g))
        .step(-622069200, -10800, 0, "-03", Ghost(g))
        .step(-602283600, -10800, 3600, "-02", Ghost(g))
        .step(-591832800, -10800, 0, "-03", Ghost(g))
        .step(-570747600, -10800, 3600, "-02", Ghost(g))
        .step(-560210400, -10800, 0, "-03", Ghost(g))
        .step(-539125200, -10800, 3600, "-02", Ghost(g))
        .step(-531352800, -10800, 0, "-03", Ghost(g))
        .step(-191365200, -10800, 3600, "-02", Ghost(g))
        .step(-184197600, -10800, 0, "-03", Ghost(g))
        .step(-155163600, -10800, 3600, "-02", Ghost(g))
        .step(-150069600, -10800, 0, "-03", Ghost(g))
        .step(-128898000, -10800, 3600, "-02", Ghost(g))
        .step(-121125600, -10800, 0, "-03", Ghost(g))
        .step(-99954000, -10800, 3600, "-02", Ghost(g))
        .step(-89589600, -10800, 0, "-03", Ghost(g))
        .step(-68418000, -10800, 3600, "-02", Ghost(g))
        .step(-57967200, -10800, 0, "-03", Ghost(g))
        .step(499748400, -10800, 3600, "-02", Ghost(g))
        .step(511236000, -10800, 0, "-03", Ghost(g))
        .step(530593200, -10800, 3600, "-02", Ghost(g))
        .step(540266400, -10800, 0, "-03", Ghost(g))
        .step(562129200, -10800, 3600, "-02", Ghost(g))
        .step(571197600, -10800, 0, "-03", Ghost(g))
        .step(592974000, -10800, 3600, "-02", Ghost(g))
        .step(602042400, -10800, 0, "-03", Ghost(g))
        .step(624423600, -10800, 3600, "-02", Ghost(g))
        .step(634701600, -10800, 0, "-03", Ghost(g))
        .step(813726000, -10800, 3600, "-02", Ghost(g))
        .step(824004000, -10800, 0, "-03", Ghost(g))
        .step(938919600, -10800, 3600, "-02", Ghost(g))
        .step(951616800, -10800, 0, "-03", Ghost(g))
        .step(970974000, -10800, 3600, "-02", Ghost(g))
        .step(972180000, -10800, 0, "-03", Ghost(g))
        .step(1003028400, -10800, 3600, "-02", Ghost(g))
        .step(1013911200, -10800, 0, "-03", Ghost(g))
        .step(2147483647, -10800, 0, "-03", Ghost(g))
        .finish(Ghost(g))
}

/// The zone `America/Managua`.
pub fn managua() -> (r: Tz)
    ensures
        r.wf(),
        r.zone_name() == "America/Managua"@,
        r.table() == tables::america::managua(),
{
    let ghost g = tables::america::managua_rows();
    FixedTimespanSet::begin("America/Managua", -20708, 0, "LMT", Ghost(g))
        .step(-2524500892, -20712, 0, "MMT", Ghost(g))
        .step(-1121105688, -21600, 0, "CST", Ghost(g))
        .step(105084000, -18000, 0, "EST", Ghost(g))
        .step(161758800, -21600, 0, "CST", Ghost(g))
        .step(290584800, -21600, 3600, "CDT", Ghost(g))
        .step(299134800, -21600, 0, "CST", Ghost(g))
        .step(322034400, -21600, 3600, "CDT", Ghost(g))
        .step(330584400, -21600, 0, "CST", Ghost(g))
        .step(694260000, -18000, 0, "EST", Ghost(g))
        .step(717310800, -21600, 0, "CST", Ghost(g))
        .step(725868000, -18000, 0, "EST", Ghost(g))
        .step(852094800, -21600, 0, "CST", Ghost(g))
        .step(1113112800, -21600, 3600, "CDT", Ghost(g))
        .step(1128229200, -21600, 0, "CST", Ghost(g))
        .step(1146384000, -21600, 3600, "CDT", Ghost(g))
        .step(1159682400, -21600, 0, "CST", Ghost(g))
        .finish(Ghost(g))
}

/// The zone `America/Manaus`.
pub fn manaus() -> (r: Tz)
    ensures
        r.wf(),
        r.zone_name() == "America/Manaus"@,
        r.table() == tables::america::manaus(),
{
    let ghost g = tables::america::manaus_rows();
    FixedTimespanSet::begin("America/Manaus", -14404, 0, "LMT", Ghost(g))
        .step(-1767211196, -14400, 0, "-04", Ghost(g))
        .step(-1206954000, -14400, 3600, "-03", Ghost(g))
        .step(-1191358800, -14400, 0, "-04", Ghost(g))
        .step(-1175371200, -14400, 3600, "-03", Ghost(g))
        .step(-1159822800, -14400, 0, "-04", Ghost(g))
        .step(-633816000, -14400, 3600, "-03", Ghost(g))
        .step(-622065600, -14400, 0, "-04", Ghost(g))
        .step(-602280000, -14400, 3600, "-03", Ghost(g))
        .step(-591829200, -14400, 0, "-04", Ghost(g))
        .step(-570744000, -14400, 3600, "-03", Ghost(g))
        .step(-560206800, -14400, 0, "-04", Ghost(g))
        .step(-539121600, -14400, 3600, "-03", Ghost(g))
        .step(-531349200, -14400, 0, "-04", Ghost(g))
        .step(-191361600, -14400, 3600, "-03", Ghost(g))
        .step(-184194000, -14400, 0, "-04", Ghost(g))
        .step(-155160000, -14400, 3600, "-03", Ghost(g))
        .step(-150066000, -14400, 0, "-04", Ghost(g))
        .step(-128894400, -14400, 3600, "-03", Ghost(g))
        .step(-121122000, -14400, 0, "-04", Ghost(g))
        .step(-99950400, -14400, 3600, "-03", Ghost(g))
        .step(-89586000, -14400, 0, "-04", Ghost(g))
        .step(-68414400, -14400, 3600, "-03", Ghost(g))
        .step(-57963600, -14400, 0, "-04", Ghost(g))
        .step(499752000, -14400, 3600, "-03", Ghost(g))
        .step(511239600, -14400, 0, "-04", Ghost(g))
        .step(530596800, -14400, 3600, "-03", Ghost(g))
        .step(540270000, -14400, 0, "-04", Ghost(g))
        .step(562132800, -14400, 3600, "-03", Ghost(g))
        .step(571201200, -14400, 0, "-04", Ghost(g))
        .step(750830400, -14400, 3600, "-03", Ghost(g))
        .step(761713200, -14400, 0, "-04", Ghost(g))
        .step(2147483647, -14400, 0, "-04", Ghost(g))
        .finish(Ghost(g))
}

/// The zone `America/Marigot`.
pub fn marigot() -> (r: Tz)
    ensures
        r.wf(),
        r.zone_name() == "America/Marigot"@,
        r.table() == tables::america::marigot(),
{
    let ghost g = tables::america::marigot_rows();
    FixedTimespanSet::begin("America/Marigot", -15865, 0, "LMT", Ghost(g))
        .step(-2233035335, -14400, 0, "AST", Ghost(g))
        .step(-873057600, -14400, 3600, "AWT", Ghost(g))
        .step(-769395600, -14400, 3600, "APT", Ghost(g))
        .step(-765399600, -14400, 0, "AST", Ghost(g))
        .finish(Ghost(g))
}

/// The zone `America/Martinique`.
pub fn martinique() -> (r: Tz)
    ensures
        r.wf(),
        r.zone_name() == "America/Martinique"@,
        r.table() == tables::america::martinique(),
{
    let ghost g = tables::america::martinique_rows();
    FixedTimespanSet::begin("America/Martinique", -14660, 0, "LMT", Ghost(g))
        .step(-2524506940, -14660, 0, "FFMT", Ghost(g))
        .step(-1851537340, -14400, 0, "AST", Ghost(g))
        .step(323841600, -14400, 3600, "ADT", Ghost(g))
        .step(338958000, -14400, 0, "AST", Ghost(g))
        .finish(Ghost(g))
}

/// The zone `America/Matamoros`.
pub fn matamoros() -> (r: Tz)
    ensures
        r.wf(),
        r.zone_name() == "America/Matamoros"@,
        r.table() == tables::america::matamoros(),
{
    let ghost g = tables::america::matamoros_rows();
    FixedTimespanSet::begin("America/Matamoros", -23400, 0, "LMT", Ghost(g))
        .step(-1514743200, -21600, 0, "CST", Ghost(g))
        .step(576057600, -21600, 3600, "CDT", Ghost(g))
        .step(594198000, -21600, 0, "CST", Ghost(g))
        .step(828864000, -21600, 3600, "CDT", Ghost(g))
        .step(846399600, -21600, 0, "CST", Ghost(g))
        .step(860313600, -21600, 3600, "CDT", Ghost(g))
        .step(877849200, -21600, 0, "CST", Ghost(g))
        .step(891763200, -21600, 3600, "CDT", Ghost(g))
        .step(909298800, -21600, 0, "CST", Ghost(g))
        .step(923212800, -21600, 3600, "CDT", Ghost(g))
        .step(941353200, -21600, 0, "CST", Ghost(g))
        .step(954662400, -21600, 3600, "CDT", Ghost(g))
        .step(972802800, -21600, 0, "CST", Ghost(g))
        .step(989136000, -21600, 3600, "CDT", Ghost(g))
        .step(1001833200, -21600, 0, "CST", Ghost(g))
        .step(1018166400, -21600, 3600, "CDT", Ghost(g))
        .step(1035702000, -21600, 0, "CST", Ghost(g))
        .step(1049616000, -21600, 3600, "CDT", Ghost(g))
        .step(1067151600, -21600, 0, "CST", Ghost(g))
        .step(1081065600, -21600, 3600, "CDT", Ghost(g))
        .step(1099206000, -21600, 0, "CST", Ghost(g))
        .step(1112515200, -21600, 3600, "CDT", Ghost(g))
        .step(1130655600, -21600, 0, "CST", Ghost(g))
        .step(1143964800, -21600, 3600, "CDT", Ghost(g))
        .step(1162105200, -21600, 0, "CST", Ghost(g))
        .step(1175414400, -21600, 3600, "CDT", Ghost(g))
        .step(1193554800, -21600, 0, "CST", Ghost(g))
        .step(1207468800, -21600, 3600, "CDT", Ghost(g))
        .step(1225004400, -21600, 0, "CST", Ghost(g))
        .step(1238918400, -21600, 3600, "CDT", Ghost(g))
        .step(1256454000, -21600, 0, "CST", Ghost(g))
        .step(1268553600, -21600, 3600, "CDT", Ghost(g))
        .step(1289113200, -21600, 0, "CST", Ghost(g))
        .step(1300003200, -21600, 3600, "CDT", Ghost(g))
        .step(1320562800, -21600, 0, "CST", Ghost(g))
        .step(1331452800, -21600, 3600, "CDT", Ghost(g))
        .step(1352012400, -21600, 0, "CST", Ghost(g))
        .step(1362902400, -21600, 3600, "CDT", Ghost(g))
        .step(1383462000, -21600, 0, "CST", Ghost(g))
        .step(1394352000, -21600, 3600, "CDT", Ghost(g))
        .step(1414911600, -21600, 0, "CST", Ghost(g))
        .step(1425801600, -21600, 3600, "CDT", Ghost(g))
        .step(1446361200, -21600, 0, "CST", Ghost(g))
        .step(1457856000, -21600, 3600, "CDT", Ghost(g))
        .step(1478415600, -21600, 0, "CST", Ghost(g))
        .step(1489305600, -21600, 3600, "CDT", Ghost(g))
        .step(1509865200, -21600, 0, "CST", Ghost(g))
        .step(1520755200, -21600, 3600, "CDT", Ghost(g))
        .step(1541314800, -21600, 0, "CST", Ghost(g))
        .step(1552204800, -21600, 3600, "CDT", Ghost(g))
        .step(1572764400, -21600, 0, "CST", Ghost(g))
        .step(1583654400, -21600, 3600, "CDT", Ghost(g))
        .step(1604214000, -21600, 0, "CST", Ghost(g))
        .step(1615708800, -21600, 3600, "CDT", Ghost(g))
        .step(1636268400, -21600, 0, "CST", Ghost(g))
        .step(1647158400, -21600, 3600, "CDT", Ghost(g))
        .step(1667718000, -21600, 0, "CST", Ghost(g))
        .step(1678608000, -21600, 3600, "CDT", Ghost(g))
        .step(1699167600, -21600, 0, "CST", Ghost(g))
        .step(1710057600, -21600, 3600, "CDT", Ghost(g))
        .step(1730617200, -21600, 0, "CST", Ghost(g))
        .step(1741507200, -21600, 3600, "CDT", Ghost(g))
        .step(1762066800, -21600, 0, "CST", Ghost(g))
        .step(1772956800, -21600, 3600, "CDT", Ghost(g))
        .step(1793516400, -21600, 0, "CST", Ghost(g))
        .step(1805011200, -21600, 3600, "CDT", Ghost(g))
        .step(1825570800, -21600, 0, "CST", Ghost(g))
        .step(1836460800, -21600, 3600, "CDT", Ghost(g))
        .step(1857020400, -21600, 0, "CST", Ghost(g))
        .step(1867910400, -21600, 3600, "CDT", Ghost(g))
        .step(1888470000, -21600, 0, "CST", Ghost(g))
        .step(1899360000, -21600, 3600, "CDT", Ghost(g))
        .step(1919919600, -21600, 0, "CST", Ghost(g))
        .step(1930809600, -21600, 3600, "CDT", Ghost(g))
        .step(1951369200, -21600, 0, "CST", Ghost(g))
        .step(1962864000, -21600, 3600, "CDT", Ghost(g))
        .step(1983423600, -21600, 0, "CST", Ghost(g))
        .step(1994313600, -21600, 3600, "CDT", Ghost(g))
        .step(2014873200, -21600, 0, "CST", Ghost(g))
        .step(2025763200, -21600, 3600, "CDT", Ghost(g))
        .step(2046322800, -21600, 0, "CST", Ghost(g))
        .step(2057212800, -21600, 3600, "CDT", Ghost(g))
        .step(2077772400, -21600, 0, "CST", Ghost(g))
        .step(2088662400, -21600, 3600, "CDT", Ghost(g))
        .step(2109222000, -21600, 0, "CST", Ghost(g))
        .step(2120112000, -21600, 3600, "CDT", Ghost(g))
        .step(2140671600, -21600, 0, "CST", Ghost(g))
        .finish(Ghost(g))
}

/// The zone `America/Mazatlan`.
pub fn mazatlan() -> (r: Tz)
    ensures
        r.wf(),
        r.zone_name() == "America/Mazatlan"@,
        r.table() == tables::america::mazatlan(),
{
    let ghost g = tables::america::mazatlan_rows();
    FixedTimespanSet::begin("America/Mazatlan", -25540, 0, "LMT", Ghost(g))
        .step(-1514739600, -25200, 0, "MST", Ghost(g))
        .step(-1343149200, -21600, 0, "CST", Ghost(g))
        .step(-1234807200, -25200, 0, "MST", Ghost(g))
        .step(-1220461200, -25200, 3600, "MDT", Ghost(g))
        .step(-1207159200, -25200, 0, "MST", Ghost(g))
        .step(-1191344400, -21600, 0, "CST", Ghost(g))
        .step(-873828000, -25200, 0, "MST", Ghost(g))
        .step(828867600, -25200, 3600, "MDT", Ghost(g))
        .step(846403200, -25200, 0, "MST", Ghost(g))
        .step(860317200, -25200, 3600, "MDT", Ghost(g))
        .step(877852800, -25200, 0, "MST", Ghost(g))
        .step(891766800, -25200, 3600, "MDT", Ghost(g))
        .step(909302400, -25200, 0, "MST", Ghost(g))
        .step(923216400, -25200, 3600, "MDT", Ghost(g))
        .step(941356800, -25200, 0, "MST", Ghost(g))
        .step(954666000, -25200, 3600, "MDT", Ghost(g))
        .step(972806400, -25200, 0, "MST", Ghost(g))
        .step(989139600, -25200, 3600, "MDT", Ghost(g))
        .step(1001836800, -25200, 0, "MST", Ghost(g))
        .step(1018170000, -25200, 3600, "MDT", Ghost(g))
        .step(1035705600, -25200, 0, "MST", Ghost(g))
        .step(1049619600, -25200, 3600, "MDT", Ghost(g))
        .step(1067155200, -25200, 0, "MST", Ghost(g))
        .step(1081069200, -25200, 3600, "MDT", Ghost(g))
        .step(1099209600, -25200, 0, "MST", Ghost(g))
        .step(1112518800, -25200, 3600, "MDT", Ghost(g))
        .step(1130659200, -25200, 0, "MST", Ghost(g))
        .step(1143968400, -25200, 3600, "MDT", Ghost(g))
        .step(1162108800, -25200, 0, "MST", Ghost(g))
        .step(1175418000, -25200, 3600, "MDT", Ghost(g))
        .step(1193558400, -25200, 0, "MST", Ghost(g))
        .step(1207472400, -25200, 3600, "MDT", Ghost(g))
        .step(1225008000, -25200, 0, "MST", Ghost(g))
        .step(1238922000, -25200, 3600, "MDT", Ghost(g))
        .step(1256457600, -25200, 0, "MST", Ghost(g))
        .step(1270371600, -25200, 3600, "MDT", Ghost(g))
        .step(1288512000, -25200, 0, "MST", Ghost(g))
        .step(1301821200, -25200, 3600, "MDT", Ghost(g))
        .step(1319961600, -25200, 0, "MST", Ghost(g))
        .step(1333270800, -25200, 3600, "MDT", Ghost(g))
        .step(1351411200, -25200, 0, "MST", Ghost(g))
        .step(1365325200, -25200, 3600, "MDT", Ghost(g))
        .step(1382860800, -25200, 0, "MST", Ghost(g))
        .step(1396774800, -25200, 3600, "MDT", Ghost(g))
        .step(1414310400, -25200, 0, "MST", Ghost(g))
        .step(1428224400, -25200, 3600, "MDT", Ghost(g))
        .step(1445760000, -25200, 0, "MST", Ghost(g))
        .step(1459674000, -25200, 3600, "MDT", Ghost(g))
        .step(1477814400, -25200, 0, "MST", Ghost(g))
        .step(1491123600, -25200, 3600, "MDT", Ghost(g))
        .step(1509264000, -25200, 0, "MST", Ghost(g))
        .step(1522573200, -25200, 3600, "MDT", Ghost(g))
        .step(1540713600, -25200, 0, "MST", Ghost(g))
        .step(1554627600, -25200, 3600, "MDT", Ghost(g))
        .step(1572163200, -25200, 0, "MST", Ghost(g))
        .step(1586077200, -25200, 3600, "MDT", Ghost(g))
        .step(1603612800, -25200, 0, "MST", Ghost(g))
        .step(1617526800, -25200, 3600, "MDT", Ghost(g))
        .step(1635667200, -25200, 0, "MST", Ghost(g))
        .step(1648976400, -25200, 3600, "MDT", Ghost(g))
        .step(1667116800, -25200, 0, "MST", Ghost(g))
        .finish(Ghost(g))
}

/// The zone `America/Mendoza`.
pub fn mendoza() -> (r: Tz)
    ensures
        r.wf(),
        r.zone_name() == "America/Mendoza"@,
        r.table() == tables::america::mendoza(),
{
    let ghost g = tables::america::mendoza_rows();
    FixedTimespanSet::begin("America/Mendoza", -16516, 0, "LMT", Ghost(g))
        .step(-2372095484, -15408, 0, "CMT", Ghost(g))
        .step(-1567453392, -14400, 0, "-04", Ghost(g))
        .step(-1233432000, -14400, 3600, "-03", Ghost(g))
        .step(-1222981200, -14400, 0, "-04", Ghost(g))
        .step(-1205956800, -14400, 3600, "-03", Ghost(g))
        .step(-1194037200, -14400, 0, "-04", Ghost(g))
        .step(-1172865600, -14400, 3600, "-03", Ghost(g))
        .step(-1162501200, -14400, 0, "-04", Ghost(g))
        .step(-1141329600, -14400, 3600, "-03", Ghost(g))
        .step(-1130965200, -14400, 0, "-04", Ghost(g))
        .step(-1109793600, -14400, 3600, "-03", Ghost(g))
        .step(-1099429200, -14400, 0, "-04", Ghost(g))
        .step(-1078257600, -14400, 3600, "-03", Ghost(g))
        .step(-1067806800, -14400, 0, "-04", Ghost(g))
        .step(-1046635200, -14400, 3600, "-03", Ghost(g))
        .step(-1036270800, -14400, 0, "-04", Ghost(g))
        .step(-1015099200, -14400, 3600, "-03", Ghost(g))
        .step(-1004734800, -14400, 0, "-04", Ghost(g))
        .step(-983563200, -14400, 3600, "-03", Ghost(g))
        .step(-973198800, -14400, 0, "-04", Ghost(g))
        .step(-952027200, -14400, 3600, "-03", Ghost(g))
        .step(-941576400, -14400, 0, "-04", Ghost(g))
        .step(-931032000, -14400, 3600, "-03", Ghost(g))
        .step(-900882000, -14400, 0, "-04", Ghost(g))
        .step(-890337600, -14400, 3600, "-03", Ghost(g))
        .step(-833749200, -14400, 0, "-04", Ghost(g))
        .step(-827265600, -14400, 3600, "-03", Ghost(g))
        .step(-752274000, -14400, 0, "-04", Ghost(g))
        .step(-733780800, -14400, 3600, "-03", Ghost(g))
        .step(-197326800, -14400, 0, "-04", Ghost(g))
        .step(-190843200, -14400, 3600, "-03", Ghost(g))
        .step(-184194000, -14400, 0, "-04", Ghost(g))
        .step(-164491200, -14400, 3600, "-03", Ghost(g))
        .step(-152658000, -14400, 0, "-04", Ghost(g))
        .step(-132955200, -14400, 3600, "-03", Ghost(g))
        .step(-121122000, -14400, 0, "-04", Ghost(g))
        .step(-101419200, -14400, 3600, "-03", Ghost(g))
        .step(-86821200, -14400, 0, "-04", Ghost(g))
        .step(-71092800, -14400, 3600, "-03", Ghost(g))
        .step(-54766800, -14400, 0, "-04", Ghost(g))
        .step(-39038400, -14400, 3600, "-03", Ghost(g))
        .step(-23317200, -14400, 0, "-04", Ghost(g))
        .step(-7588800, -10800, 0, "-03", Ghost(g))
        .step(128142000, -10800, 3600, "-02", Ghost(g))
        .step(136605600, -10800, 0, "-03", Ghost(g))
        .step(596948400, -10800, 3600, "-02", Ghost(g))
        .step(605066400, -10800, 0, "-03", Ghost(g))
        .step(624423600, -10800, 3600, "-02", Ghost(g))
        .step(636516000, -14400, 0, "-04", Ghost(g))
        .step(655963200, -14400, 3600, "-03", Ghost(g))
        .step(667796400, -14400, 0, "-04", Ghost(g))
        .step(687499200, -14400, 3600, "-03", Ghost(g))
        .step(699418800, -14400, 0, "-04", Ghost(g))
        .step(719380800, -14400, 7200, "-02", Ghost(g))
        .step(731469600, -10800, 0, "-03", Ghost(g))
        .step(938919600, -14400, 3600, "-03", Ghost(g))
        .step(952052400, -10800, 0, "-03", Ghost(g))
        .step(1085281200, -14400, 0, "-04", Ghost(g))
        .step(1096171200, -10800, 0, "-03", Ghost(g))
        .step(1198983600, -10800, 3600, "-02", Ghost(g))
        .step(1205632800, -10800, 0, "-03", Ghost(g))
        .step(2147483647, -10800, 0, "-03", Ghost(g))
        .finish(Ghost(g))
}

/// The zone `America/Menominee`.
pub fn menominee() -> (r: Tz)
    ensures
        r.wf(),
        r.zone_name() == "America/Menominee"@,
        r.table() == tables::america::menominee(),
{
    let ghost g = tables::america::menominee_rows();
    FixedTimespanSet::begin("America/Menominee", -21027, 0, "LMT", Ghost(g))
        .step(-2659759773, -21600, 0, "CST", Ghost(g))
        .step(-1633276800, -21600, 3600, "CDT", Ghost(g))
        .step(-1615136400, -21600, 0, "CST", Ghost(g))
        .step(-1601827200, -21600, 3600, "CDT", Ghost(g))
        .step(-1583686800, -21600, 0, "CST", Ghost(g))
        .step(-880214400, -21600, 3600, "CWT", Ghost(g))
        .step(-769395600, -21600, 3600, "CPT", Ghost(g))
        .step(-765392400, -21600, 0, "CST", Ghost(g))
        .step(-747244800, -21600, 3600, "CDT", Ghost(g))
        .step(-733942800, -21600, 0, "CST", Ghost(g))
        .step(-116438400, -21600, 3600, "CDT", Ghost(g))
        .step(-100112400, -21600, 0, "CST", Ghost(g))
        .step(-21484800, -18000, 0, "EST", Ghost(g))
        .step(104914800, -21600, 3600, "CDT", Ghost(g))
        .step(120639600, -21600, 0, "CST", Ghost(g))
        .step(126691200, -21600, 3600, "CDT", Ghost(g))
        .step(152089200, -21600, 0, "CST", Ghost(g))
        .step(162374400, -21600, 3600, "CDT", Ghost(g))
        .step(183538800, -21600, 0, "CST", Ghost(g))
        .step(199267200, -21600, 3600, "CDT", Ghost(g))
        .step(215593200, -21600, 0, "CST", Ghost(g))
        .step(230716800, -21600, 3600, "CDT", Ghost(g))
        .step(247042800, -21600, 0, "CST", Ghost(g))
        .step(262771200, -21600, 3600, "CDT", Ghost(g))
        .step(278492400, -21600, 0, "CST", Ghost(g))
        .step(294220800, -21600, 3600, "CDT", Ghost(g))
        .step(309942000, -21600, 0, "CST", Ghost(g))
        .step(325670400, -21600, 3600, "CDT", Ghost(g))
        .step(341391600, -21600, 0, "CST", Ghost(g))
        .step(357120000, -21600, 3600, "CDT", Ghost(g))
        .step(372841200, -21600, 0, "CST", Ghost(g))
        .step(388569600, -21600, 3600, "CDT", Ghost(g))
        .step(404895600, -21600, 0, "CST", Ghost(g))
        .step(420019200, -21600, 3600, "CDT", Ghost(g))
        .step(436345200, -21600, 0, "CST", Ghost(g))
        .step(452073600, -21600, 3600, "CDT", Ghost(g))
        .step(467794800, -21600, 0, "CST", Ghost(g))
        .step(483523200, -21600, 3600, "CDT", Ghost(g))
        .step(499244400, -21600, 0, "CST", Ghost(g))
        .step(514972800, -21600, 3600, "CDT", Ghost(g))
        .step(530694000, -21600, 0, "CST", Ghost(g))
        .step(544608000, -21600, 3600, "CDT", Ghost(g))
        .step(562143600, -21600, 0, "CST", Ghost(g))
        .step(576057600, -21600, 3600, "CDT", Ghost(g))
        .step(594198000, -21600, 0, "CST", Ghost(g))
        .step(607507200, -21600, 3600, "CDT", Ghost(g))
        .step(625647600, -21600, 0, "CST", Ghost(g))
        .step(638956800, -21600, 3600, "CDT", Ghost(g))
        .step(657097200, -21600, 0, "CST", Ghost(g))
        .step(671011200, -21600, 3600, "CDT", Ghost(g))
        .step(688546800, -21600, 0, "CST", Ghost(g))
        .step(702460800, -21600, 3600, "CDT", Ghost(g))
        .step(719996400, -21600, 0, "CST", Ghost(g))
        .step(733910400, -21600, 3600, "CDT", Ghost(g))
        .step(752050800, -21600, 0, "CST", Ghost(g))
        .step(765360000, -21600, 3600, "CDT", Ghost(g))
        .step(783500400, -21600, 0, "CST", Ghost(g))
        .step(796809600, -21600, 3600, "CDT", Ghost(g))
        .step(814950000, -21600, 0, "CST", Ghost(g))
        .step(828864000, -21600, 3600, "CDT", Ghost(g))
        .step(846399600, -21600, 0, "CST", Ghost(g))
        .step(860313600, -21600, 3600, "CDT", Ghost(g))
        .step(877849200, -21600, 0, "CST", Ghost(g))
        .step(891763200, -21600, 3600, "CDT", Ghost(g))
        .step(909298800, -21600, 0, "CST", Ghost(g))
        .step(923212800, -21600, 3600, "CDT", Ghost(g))
        .step(941353200, -21600, 0, "CST", Ghost(g))
        .step(954662400, -21600, 3600, "CDT", Ghost(g))
        .step(972802800, -21600, 0, "CST", Ghost(g))
        .step(986112000, -21600, 3600, "CDT", Ghost(g))
        .step(1004252400, -21600, 0, "CST", Ghost(g))
        .step(1018166400, -21600, 3600, "CDT", Ghost(g))
        .step(1035702000, -21600, 0, "CST", Ghost(g))
        .step(1049616000, -21600, 3600, "CDT", Ghost(g))
        .step(1067151600, -21600, 0, "CST", Ghost(g))
        .step(1081065600, -21600, 3600, "CDT", Ghost(g))
        .step(1099206000, -21600, 0, "CST", Ghost(g))
        .step(1112515200, -21600, 3600, "CDT", Ghost(g))
        .step(1130655600, -21600, 0, "CST", Ghost(g))
        .step(1143964800, -21600, 3600, "CDT", Ghost(g))
        .step(1162105200, -21600, 0, "CST", Ghost(g))
        .step(1173600000, -21600, 3600, "CDT", Ghost(g))
        .step(1194159600, -21600, 0, "CST", Ghost(g))
        .step(1205049600, -21600, 3600, "CDT", Ghost(g))
        .step(1225609200, -21600, 0, "CST", Ghost(g))
        .step(1236499200, -21600, 3600, "CDT", Ghost(g))
        .step(1257058800, -21600, 0, "CST", Ghost(g))
        .step(1268553600, -21600, 3600, "CDT", Ghost(g))
        .step(1289113200, -21600, 0, "CST", Ghost(g))
        .step(1300003200, -21600, 3600, "CDT", Ghost(g))
        .step(1320562800, -21600, 0, "CST", Ghost(g))
        .step(1331452800, -21600, 3600, "CDT", Ghost(g))
        .step(1352012400, -21600, 0, "CST", Ghost(g))
        .step(1362902400, -21600, 3600, "CDT", Ghost(g))
        .step(1383462000, -21600, 0, "CST", Ghost(g))
        .step(1394352000, -21600, 3600, "CDT", Ghost(g))
        .step(1414911600, -21600, 0, "CST", Ghost(g))
        .step(1425801600, -21600, 3600, "CDT", Ghost(g))
        .step(1446361200, -21600, 0, "CST", Ghost(g))
        .step(1457856000, -21600, 3600, "CDT", Ghost(g))
        .step(1478415600, -21600, 0, "CST", Ghost(g))
        .step(1489305600, -21600, 3600, "CDT", Ghost(g))
        .step(1509865200, -21600, 0, "CST", Ghost(g))
        .step(1520755200, -21600, 3600, "CDT", Ghost(g))
        .step(1541314800, -21600, 0, "CST", Ghost(g))
        .step(1552204800, -21600, 3600, "CDT", Ghost(g))
        .step(1572764400, -21600, 0, "CST", Ghost(g))
        .step(1583654400, -21600, 3600, "CDT", Ghost(g))
        .step(1604214000, -21600, 0, "CST", Ghost(g))
        .step(1615708800, -21600, 3600, "CDT", Ghost(g))
        .step(1636268400, -21600, 0, "CST", Ghost(g))
        .step(1647158400, -21600, 3600, "CDT", Ghost(g))
        .step(1667718000, -21600, 0, "CST", Ghost(g))
        .step(1678608000, -21600, 3600, "CDT", Ghost(g))
        .step(1699167600, -21600, 0, "CST", Ghost(g))
        .step(1710057600, -21600, 3600, "CDT", Ghost(g))
        .step(1730617200, -21600, 0, "CST", Ghost(g))
        .step(1741507200, -21600, 3600, "CDT", Ghost(g))
        .step(1762066800, -21600, 0, "CST", Ghost(g))
        .step(1772956800, -21600, 3600, "CDT", Ghost(g))
        .step(1793516400, -21600, 0, "CST", Ghost(g))
        .step(1805011200, -21600, 3600, "CDT", Ghost(g))
        .step(1825570800, -21600, 0, "CST", Ghost(g))
        .step(1836460800, -21600, 3600, "CDT", Ghost(g))
        .step(1857020400, -21600, 0, "CST", Ghost(g))
        .step(1867910400, -21600, 3600, "CDT", Ghost(g))
        .step(1888470000, -21600, 0, "CST", Ghost(g))
        .step(1899360000, -21600, 3600, "CDT", Ghost(g))
        .step(1919919600, -21600, 0, "CST", Ghost(g))
        .step(1930809600, -21600, 3600, "CDT", Ghost(g))
        .step(1951369200, -21600, 0, "CST", Ghost(g))
        .step(1962864000, -21600, 3600, "CDT", Ghost(g))
        .step(1983423600, -21600, 0, "CST", Ghost(g))
        .step(1994313600, -21600, 3600, "CDT", Ghost(g))
        .step(2014873200, -21600, 0, "CST", Ghost(g))
        .step(2025763200, -21600, 3600, "CDT", Ghost(g))
        .step(2046322800, -21600, 0, "CST", Ghost(g))
        .step(2057212800, -21600, 3600, "CDT", Ghost(g))
        .step(2077772400, -21600, 0, "CST", Ghost(g))
        .step(2088662400, -21600, 3600, "CDT", Ghost(g))
        .step(2109222000, -21600, 0, "CST", Ghost(g))
        .step(2120112000, -21600, 3600, "CDT", Ghost(g))
        .step(2140671600, -21600, 0, "CST", Ghost(g))
        .finish(Ghost(g))
}

/// The zone `America/Merida`.
pub fn merida() -> (r: Tz)
    ensures
        r.wf(),
        r.zone_name() == "America/Merida"@,
        r.table() == tables::america::merida(),
{
    let ghost g = tables::america::merida_rows();
    FixedTimespanSet::begin("America/Merida", -21508, 0, "LMT", Ghost(g))
        .step(-1514743200, -21600, 0, "CST", Ghost(g))
        .step(378201600, -18000, 0, "EST", Ghost(g))
        .step(405068400, -21600, 0, "CST", Ghost(g))
        .step(828864000, -21600, 3600, "CDT", Ghost(g))
        .step(846399600, -21600, 0, "CST", Ghost(g))
        .step(860313600, -21600, 3600, "CDT", Ghost(g))
        .step(877849200, -21600, 0, "CST", Ghost(g))
        .step(891763200, -21600, 3600, "CDT", Ghost(g))
        .step(909298800, -21600, 0, "CST", Ghost(g))
        .step(923212800, -21600, 3600, "CDT", Ghost(g))
        .step(941353200, -21600, 0, "CST", Ghost(g))
        .step(954662400, -21600, 3600, "CDT", Ghost(g))
        .step(972802800, -21600, 0, "CST", Ghost(g))
        .step(989136000, -21600, 3600, "CDT", Ghost(g))
        .step(1001833200, -21600, 0, "CST", Ghost(g))
        .step(1018166400, -21600, 3600, "CDT", Ghost(g))
        .step(1035702000, -21600, 0, "CST", Ghost(g))
        .step(1049616000, -21600, 3600, "CDT", Ghost(g))
        .step(1067151600, -21600, 0, "CST", Ghost(g))
        .step(1081065600, -21600, 3600, "CDT", Ghost(g))
        .step(1099206000, -21600, 0, "CST", Ghost(g))
        .step(1112515200, -21600, 3600, "CDT", Ghost(g))
        .step(1130655600, -21600, 0, "CST", Ghost(g))
        .step(1143964800, -21600, 3600, "CDT", Ghost(g))
        .step(1162105200, -21600, 0, "CST", Ghost(g))
        .step(1175414400, -21600, 3600, "CDT", Ghost(g))
        .step(1193554800, -21600, 0, "CST", Ghost(g))
        .step(1207468800, -21600, 3600, "CDT", Ghost(g))
        .step(1225004400, -21600, 0, "CST", Ghost(g))
        .step(1238918400, -21600, 3600, "CDT", Ghost(g))
        .step(1256454000, -21600, 0, "CST", Ghost(g))
        .step(1270368000, -21600, 3600, "CDT", Ghost(g))
        .step(1288508400, -21600, 0, "CST", Ghost(g))
        .step(1301817600, -21600, 3600, "CDT", Ghost(g))
        .step(1319958000, -21600, 0, "CST", Ghost(g))
        .step(1333267200, -21600, 3600, "CDT", Ghost(g))
        .step(1351407600, -21600, 0, "CST", Ghost(g))
        .step(1365321600, -21600, 3600, "CDT", Ghost(g))
        .step(1382857200, -21600, 0, "CST", Ghost(g))
        .step(1396771200, -21600, 3600, "CDT", Ghost(g))
        .step(1414306800, -21600, 0, "CST", Ghost(g))
        .step(1428220800, -21600, 3600, "CDT", Ghost(g))
        .step(1445756400, -21600, 0, "CST", Ghost(g))
        .step(1459670400, -21600, 3600, "CDT", Ghost(g))
        .step(1477810800, -21600, 0, "CST", Ghost(g))
        .step(1491120000, -21600, 3600, "CDT", Ghost(g))
        .step(1509260400, -21600, 0, "CST", Ghost(g))
        .step(1522569600, -21600, 3600, "CDT", Ghost(g))
        .step(1540710000, -21600, 0, "CST", Ghost(g))
        .step(1554624000, -21600, 3600, "CDT", Ghost(g))
        .step(1572159600, -21600, 0, "CST", Ghost(g))
        .step(1586073600, -21600, 3600, "CDT", Ghost(g))
        .step(1603609200, -21600, 0, "CST", Ghost(g))
        .step(1617523200, -21600, 3600, "CDT", Ghost(g))
        .step(1635663600, -21600, 0, "CST", Ghost(g))
        .step(1648972800, -21600, 3600, "CDT", Ghost(g))
        .step(1667113200, -21600, 0, "CST", Ghost(g))
        .finish(Ghost(g))
}

/// The zone `America/Metlakatla`.
pub fn metlakatla() -> (r: Tz)
    ensures
        r.wf(),
        r.zone_name() == "America/Metlakatla"@,
        r.table() == tables::america::metlakatla(),
{
    let ghost g = tables::america::metlakatla_rows();
    FixedTimespanSet::begin("America/Metlakatla", 54822, 0, "LMT", Ghost(g))
        .step(-3225223727, -31578, 0, "LMT", Ghost(g))
        .step(-2188955622, -28800, 0, "PST", Ghost(g))
        .step(-880207200, -28800, 3600, "PWT", Ghost(g))
        .step(-769395600, -28800, 3600, "PPT", Ghost(g))
        .step(-765385200, -28800, 0, "PST", Ghost(g))
        .step(-21477600, -28800, 3600, "PDT", Ghost(g))
        .step(-5756400, -28800, 0, "PST", Ghost(g))
        .step(9972000, -28800, 3600, "PDT", Ghost(g))
        .step(25693200, -28800, 0, "PST", Ghost(g))
        .step(41421600, -28800, 3600, "PDT", Ghost(g))
        .step(57747600, -28800, 0, "PST", Ghost(g))
        .step(73476000, -28800, 3600, "PDT", Ghost(g))
        .step(89197200, -28800, 0, "PST", Ghost(g))
        .step(104925600, -28800, 3600, "PDT", Ghost(g))
        .step(120646800, -28800, 0, "PST", Ghost(g))
        .step(126698400, -28800, 3600, "PDT", Ghost(g))
        .step(152096400, -28800, 0, "PST", Ghost(g))
        .step(162381600, -28800, 3600, "PDT", Ghost(g))
        .step(183546000, -28800, 0, "PST", Ghost(g))
        .step(199274400, -28800, 3600, "PDT", Ghost(g))
        .step(215600400, -28800, 0, "PST", Ghost(g))
        .step(230724000, -28800, 3600, "PDT", Ghost(g))
        .step(247050000, -28800, 0, "PST", Ghost(g))
        .step(262778400, -28800, 3600, "PDT", Ghost(g))
        .step(278499600, -28800, 0, "PST", Ghost(g))
        .step(294228000, -28800, 3600, "PDT", Ghost(g))
        .step(309949200, -28800, 0, "PST", Ghost(g))
        .step(325677600, -28800, 3600, "PDT", Ghost(g))
        .step(341398800, -28800, 0, "PST", Ghost(g))
        .step(357127200, -28800, 3600, "PDT", Ghost(g))
        .step(372848400, -28800, 0, "PST", Ghost(g))
        .step(388576800, -28800, 3600, "PDT", Ghost(g))
        .step(404902800, -28800, 0, "PST", Ghost(g))
        .step(420026400, -28800, 3600, "PDT", Ghost(g))
        .step(436352400, -28800, 0, "PST", Ghost(g))
        .step(1446372000, -32400, 0, "AKST", Ghost(g))
        .step(1457866800, -32400, 3600, "AKDT", Ghost(g))
        .step(1478426400, -32400, 0, "AKST", Ghost(g))
        .step(1489316400, -32400, 3600, "AKDT", Ghost(g))
        .step(1509876000, -32400, 0, "AKST", Ghost(g))
        .step(1520766000, -32400, 3600, "AKDT", Ghost(g))
        .step(1541325600, -28800, 0, "PST", Ghost(g))
        .step(1547978400, -32400, 0, "AKST", Ghost(g))
        .step(1552215600, -32400, 3600, "AKDT", Ghost(g))
        .step(1572775200, -32400, 0, "AKST", Ghost(g))
        .step(1583665200, -32400, 3600, "AKDT", Ghost(g))
        .step(1604224800, -32400, 0, "AKST", Ghost(g))
        .step(1615719600, -32400, 3600, "AKDT", Ghost(g))
        .step(1636279200, -32400, 0, "AKST", Ghost(g))
        .step(1647169200, -32400, 3600, "AKDT", Ghost(g))
        .step(1667728800, -32400, 0, "AKST", Ghost(g))
        .step(1678618800, -32400, 3600, "AKDT", Ghost(g))
        .step(1699178400, -32400, 0, "AKST", Ghost(g))
        .step(1710068400, -32400, 3600, "AKDT", Ghost(g))
        .step(1730628000, -32400, 0, "AKST", Ghost(g))
        .step(1741518000, -32400, 3600, "AKDT", Ghost(g))
        .step(1762077600, -32400, 0, "AKST", Ghost(g))
        .step(1772967600, -32400, 3600, "AKDT", Ghost(g))
        .step(1793527200, -32400, 0, "AKST", Ghost(g))
        .step(1805022000, -32400, 3600, "AKDT", Ghost(g))
        .step(1825581600, -32400, 0, "AKST", Ghost(g))
        .step(1836471600, -32400, 3600, "AKDT", Ghost(g))
        .step(1857031200, -32400, 0, "AKST", Ghost(g))
        .step(1867921200, -32400, 3600, "AKDT", Ghost(g))
        .step(1888480800, -32400, 0, "AKST", Ghost(g))
        .step(1899370800, -32400, 3600, "AKDT", Ghost(g))
        .step(1919930400, -32400, 0, "AKST", Ghost(g))
        .step(1930820400, -32400, 3600, "AKDT", Ghost(g))
        .step(1951380000, -32400, 0, "AKST", Ghost(g))
        .step(1962874800, -32400, 3600, "AKDT", Ghost(g))
        .step(1983434400, -32400, 0, "AKST", Ghost(g))
        .step(1994324400, -32400, 3600, "AKDT", Ghost(g))
        .step(2014884000, -32400, 0, "AKST", Ghost(g))
        .step(2025774000, -32400, 3600, "AKDT", Ghost(g))
        .step(2046333600, -32400, 0, "AKST", Ghost(g))
        .step(2057223600, -32400, 3600, "AKDT", Ghost(g))
        .step(2077783200, -32400, 0, "AKST", Ghost(g))
        .step(2088673200, -32400, 3600, "AKDT", Ghost(g))
        .step(2109232800, -32400, 0, "AKST", Ghost(g))
        .step(2120122800, -32400, 3600, "AKDT", Ghost(g))
        .step(2140682400, -32400, 0, "AKST", Ghost(g))
        .finish(Ghost(g))
}

/// The zone `America/Mexico_City`.
pub fn mexico_city() -> (r: Tz)
    ensures
        r.wf(),
        r.zone_name() == "America/Mexico_City"@,
        r.table() == tables::america::mexico_city(),
{
    let ghost g = tables::america::mexico_city_rows();
    FixedTimespanSet::begin("America/Mexico_City", -23796, 0, "LMT", Ghost(g))
        .step(-1514739600, -25200, 0, "MST", Ghost(g))
        .step(-1343149200, -21600, 0, "CST", Ghost(g))
        .step(-1234807200, -25200, 0, "MST", Ghost(g))
        .step(-1220461200, -25200, 3600, "MDT", Ghost(g))
        .step(-1207159200, -25200, 0, "MST", Ghost(g))
        .step(-1191344400, -21600, 0, "CST", Ghost(g))
        .step(-975261600, -21600, 3600, "CDT", Ghost(g))
        .step(-963169200, -21600, 0, "CST", Ghost(g))
        .step(-917114400, -21600, 3600, "CDT", Ghost(g))
        .step(-907354800, -21600, 0, "CST", Ghost(g))
        .step(-821901600, -21600, 3600, "CWT", Ghost(g))
        .step(-810068400, -21600, 0, "CST", Ghost(g))
        .step(-627501600, -21600, 3600, "CDT", Ghost(g))
        .step(-612990000, -21600, 0, "CST", Ghost(g))
        .step(828864000, -21600, 3600, "CDT", Ghost(g))
        .step(846399600, -21600, 0, "CST", Ghost(g))
        .step(860313600, -21600, 3600, "CDT", Ghost(g))
        .step(877849200, -21600, 0, "CST", Ghost(g))
        .step(891763200, -21600, 3600, "CDT", Ghost(g))
        .step(909298800, -21600, 0, "CST", Ghost(g))
        .step(923212800, -21600, 3600, "CDT", Ghost(g))
        .step(941353200, -21600, 0, "CST", Ghost(g))
        .step(954662400, -21600, 3600, "CDT", Ghost(g))
        .step(972802800, -21600, 0, "CST", Ghost(g))
        .step(989136000, -21600, 3600, "CDT", Ghost(g))
        .step(1001833200, -21600, 0, "CST", Ghost(g))
        .step(1018166400, -21600, 3600, "CDT", Ghost(g))
        .step(1035702000, -21600, 0, "CST", Ghost(g))
        .step(1049616000, -21600, 3600, "CDT", Ghost(g))
        .step(1067151600, -21600, 0, "CST", Ghost(g))
        .step(1081065600, -21600, 3600, "CDT", Ghost(g))
        .step(1099206000, -21600, 0, "CST", Ghost(g))
        .step(1112515200, -21600, 3600, "CDT", Ghost(g))
        .step(1130655600, -21600, 0, "CST", Ghost(g))
        .step(1143964800, -21600, 3600, "CDT", Ghost(g))
        .step(1162105200, -21600, 0, "CST", Ghost(g))
        .step(1175414400, -21600, 3600, "CDT", Ghost(g))
        .step(1193554800, -21600, 0, "CST", Ghost(g))
        .step(1207468800, -21600, 3600, "CDT", Ghost(g))
        .step(1225004400, -21600, 0, "CST", Ghost(g))
        .step(1238918400, -21600, 3600, "CDT", Ghost(g))
        .step(1256454000, -21600, 0, "CST", Ghost(g))
        .step(1270368000, -21600, 3600, "CDT", Ghost(g))
        .step(1288508400, -21600, 0, "CST", Ghost(g))
        .step(1301817600, -21600, 3600, "CDT", Ghost(g))
        .step(1319958000, -21600, 0, "CST", Ghost(g))
        .step(1333267200, -21600, 3600, "CDT", Ghost(g))
        .step(1351407600, -21600, 0, "CST", Ghost(g))
        .step(1365321600, -21600, 3600, "CDT", Ghost(g))
        .step(1382857200, -21600, 0, "CST", Ghost(g))
        .step(1396771200, -21600, 3600, "CDT", Ghost(g))
        .step(1414306800, -21600, 0, "CST", Ghost(g))
        .step(1428220800, -21600, 3600, "CDT", Ghost(g))
        .step(1445756400, -21600, 0, "CST", Ghost(g))
        .step(1459670400, -21600, 3600, "CDT", Ghost(g))
        .step(1477810800, -21600, 0, "CST", Ghost(g))
        .step(1491120000, -21600, 3600, "CDT", Ghost(g))
        .step(1509260400, -21600, 0, "CST", Ghost(g))
        .step(1522569600, -21600, 3600, "CDT", Ghost(g))
        .step(1540710000, -21600, 0, "CST", Ghost(g))
        .step(1554624000, -21600, 3600, "CDT", Ghost(g))
        .step(1572159600, -21600, 0, "CST", Ghost(g))
        .step(1586073600, -21600, 3600, "CDT", Ghost(g))
        .step(1603609200, -21600, 0, "CST", Ghost(g))
        .step(1617523200, -21600, 3600, "CDT", Ghost(g))
        .step(1635663600, -21600, 0, "CST", Ghost(g))
        .step(1648972800, -21600, 3600, "CDT", Ghost(g))
        .step(1667113200, -21600, 0, "CST", Ghost(g))
        .finish(Ghost(g))
}

/// The zone `America/Miquelon`.
pub fn miquelon() -> (r: Tz)
    ensures
        r.wf(),
        r.zone_name() == "America/Miquelon"@,
        r.table() == tables::america::miquelon(),
{
    let ghost g = tables::america::miquelon_rows();
    FixedTimespanSet::begin("America/Miquelon", -13480, 0, "LMT", Ghost(g))
        .step(-1847650520, -14400, 0, "AST", Ghost(g))
        .step(326001600, -10800, 0, "-03", Ghost(g))
        .step(544597200, -10800, 3600, "-02", Ghost(g))
        .step(562132800, -10800, 0, "-03", Ghost(g))
        .step(576046800, -10800, 3600, "-02", Ghost(g))
        .step(594187200, -10800, 0, "-03", Ghost(g))
        .step(607496400, -10800, 3600, "-02", Ghost(g))
        .step(625636800, -10800, 0, "-03", Ghost(g))
        .step(638946000, -10800, 3600, "-02", Ghost(g))
        .step(657086400, -10800, 0, "-03", Ghost(g))
        .step(671000400, -10800, 3600, "-02", Ghost(g))
        .step(688536000, -10800, 0, "-03", Ghost(g))
        .step(702450000, -10800, 3600, "-02", Ghost(g))
        .step(719985600, -10800, 0, "-03", Ghost(g))
        .step(733899600, -10800, 3600, "-02", Ghost(g))
        .step(752040000, -10800, 0, "-03", Ghost(g))
        .step(765349200, -10800, 3600, "-02", Ghost(g))
        .step(783489600, -10800, 0, "-03", Ghost(g))
        .step(796798800, -10800, 3600, "-02", Ghost(g))
        .step(814939200, -10800, 0, "-03", Ghost(g))
        .step(828853200, -10800, 3600, "-02", Ghost(g))
        .step(846388800, -10800, 0, "-03", Ghost(g))
        .step(860302800, -10800, 3600, "-02", Ghost(g))
        .step(877838400, -10800, 0, "-03", Ghost(g))
        .step(891752400, -10800, 3600, "-02", Ghost(g))
        .step(909288000, -10800, 0, "-03", Ghost(g))
        .step(923202000, -10800, 3600, "-02", Ghost(g))
        .step(941342400, -10800, 0, "-03", Ghost(g))
        .step(954651600, -10800, 3600, "-02", Ghost(g))
        .step(972792000, -10800, 0, "-03", Ghost(g))
        .step(986101200, -10800, 3600, "-02", Ghost(g))
        .step(1004241600, -10800, 0, "-03", Ghost(g))
        .step(1018155600, -10800, 3600, "-02", Ghost(g))
        .step(1035691200, -10800, 0, "-03", Ghost(g))
        .step(1049605200, -10800, 3600, "-02", Ghost(g))
        .step(1067140800, -10800, 0, "-03", Ghost(g))
        .step(1081054800, -10800, 3600, "-02", Ghost(g))
        .step(1099195200, -10800, 0, "-03", Ghost(g))
        .step(1112504400, -10800, 3600, "-02", Ghost(g))
        .step(1130644800, -10800, 0, "-03", Ghost(g))
        .step(1143954000, -10800, 3600, "-02", Ghost(g))
        .step(1162094400, -10800, 0, "-03", Ghost(g))
        .step(1173589200, -10800, 3600, "-02", Ghost(g))
        .step(1194148800, -10800, 0, "-03", Ghost(g))
        .step(1205038800, -10800, 3600, "-02", Ghost(g))
        .step(1225598400, -10800, 0, "-03", Ghost(g))
        .step(1236488400, -10800, 3600, "-02", Ghost(g))
        .step(1257048000, -10800, 0, "-03", Ghost(g))
        .step(1268542800, -10800, 3600, "-02", Ghost(g))
        .step(1289102400, -10800, 0, "-03", Ghost(g))
        .step(1299992400, -10800, 3600, "-02", Ghost(g))
        .step(1320552000, -10800, 0, "-03", Ghost(g))
        .step(1331442000, -10800, 3600, "-02", Ghost(g))
        .step(1352001600, -10800, 0, "-03", Ghost(g))
        .step(1362891600, -10800, 3600, "-02", Ghost(g))
        .step(1383451200, -10800, 0, "-03", Ghost(g))
        .step(1394341200, -10800, 3600, "-02", Ghost(g))
        .step(1414900800, -10800, 0, "-03", Ghost(g))
        .step(1425790800, -10800, 3600, "-02", Ghost(g))
        .step(1446350400, -10800, 0, "-03", Ghost(g))
        .step(1457845200, -10800, 3600, "-02", Ghost(g))
        .step(1478404800, -10800, 0, "-03", Ghost(g))
        .step(1489294800, -10800, 3600, "-02", Ghost(g))
        .step(1509854400, -10800, 0, "-03", Ghost(g))
        .step(1520744400, -10800, 3600, "-02", Ghost(g))
        .step(1541304000, -10800, 0, "-03", Ghost(g))
        .step(1552194000, -10800, 3600, "-02", Ghost(g))
        .step(1572753600, -10800, 0, "-03", Ghost(g))
        .step(1583643600, -10800, 3600, "-02", Ghost(g))
        .step(1604203200, -10800, 0, "-03", Ghost(g))
        .step(1615698000, -10800, 3600, "-02", Ghost(g))
        .step(1636257600, -10800, 0, "-03", Ghost(g))
        .step(1647147600, -10800, 3600, "-02", Ghost(g))
        .step(1667707200, -10800, 0, "-03", Ghost(g))
        .step(1678597200, -10800, 3600, "-02", Ghost(g))
        .step(1699156800, -10800, 0, "-03", Ghost(g))
        .step(1710046800, -10800, 3600, "-02", Ghost(g))
        .step(1730606400, -10800, 0, "-03", Ghost(g))
        .step(1741496400, -10800, 3600, "-02", Ghost(g))
        .step(1762056000, -10800, 0, "-03", Ghost(g))
        .step(1772946000, -10800, 3600, "-02", Ghost(g))
        .step(1793505600, -10800, 0, "-03", Ghost(g))
        .step(1805000400, -10800, 3600, "-02", Ghost(g))
        .step(1825560000, -10800, 0, "-03", Ghost(g))
        .step(1836450000, -10800, 3600, "-02", Ghost(g))
        .step(1857009600, -10800, 0, "-03", Ghost(g))
        .step(1867899600, -10800, 3600, "-02", Ghost(g))
        .step(1888459200, -10800, 0, "-03", Ghost(g))
        .step(1899349200, -10800, 3600, "-02", Ghost(g))
        .step(1919908800, -10800, 0, "-03", Ghost(g))
        .step(1930798800, -10800, 3600, "-02", Ghost(g))
        .step(1951358400, -10800, 0, "-03", Ghost(g))
        .step(1962853200, -10800, 3600, "-02", Ghost(g))
        .step(1983412800, -10800, 0, "-03", Ghost(g))
        .step(1994302800, -10800, 3600, "-02", Ghost(g))
        .step(2014862400, -10800, 0, "-03", Ghost(g))
        .step(2025752400, -10800, 3600, "-02", Ghost(g))
        .step(2046312000, -10800, 0, "-03", Ghost(g))
        .step(2057202000, -10800, 3600, "-02", Ghost(g))
        .step(2077761600, -10800, 0, "-03", Ghost(g))
        .step(2088651600, -10800, 3600, "-02", Ghost(g))
        .step(2109211200, -10800, 0, "-03", Ghost(g))
        .step(2120101200, -10800, 3600, "-02", Ghost(g))
        .step(2140660800, -10800, 0, "-03", Ghost(g))
        .step(2147483647, -10800, 0, "-03", Ghost(g))
        .finish(Ghost(g))
}

/// The zone `America/Moncton`.
pub fn moncton() -> (r: Tz)
    ensures
        r.wf(),
        r.zone_name() == "America/Moncton"@,
        r.table() == tables::america::moncton(),
{
    let ghost g = tables::america::moncton_rows();
    FixedTimespanSet::begin("America/Moncton", -15548, 0, "LMT", Ghost(g))
        .step(-2715882052, -18000, 0, "EST", Ghost(g))
        .step(-2131642800, -14400, 0, "AST", Ghost(g))
        .step(-1632074400, -14400, 3600, "ADT", Ghost(g))
        .step(-1615143600, -14400, 0, "AST", Ghost(g))
        .step(-1153681200, -14400, 3600, "ADT", Ghost(g))
        .step(-1145822400, -14400, 0, "AST", Ghost(g))
        .step(-1122231600, -14400, 3600, "ADT", Ghost(g))
        .step(-1114372800, -14400, 0, "AST", Ghost(g))
        .step(-1090782000, -14400, 3600, "ADT", Ghost(g))
        .step(-1082923200, -14400, 0, "AST", Ghost(g))
        .step(-1059332400, -14400, 3600, "ADT", Ghost(g))
        .step(-1051473600, -14400, 0, "AST", Ghost(g))
        .step(-1027882800, -14400, 3600, "ADT", Ghost(g))
        .step(-1020024000, -14400, 0, "AST", Ghost(g))
        .step(-996433200, -14400, 3600, "ADT", Ghost(g))
        .step(-988574400, -14400, 0, "AST", Ghost(g))
        .step(-965674800, -14400, 3600, "ADT", Ghost(g))
        .step(-955396800, -14400, 0, "AST", Ghost(g))
        .step(-934743600, -14400, 3600, "ADT", Ghost(g))
        .step(-923947200, -14400, 0, "AST", Ghost(g))
        .step(-904503600, -14400, 3600, "ADT", Ghost(g))
        .step(-891892800, -14400, 0, "AST", Ghost(g))
        .step(-880221600, -14400, 3600, "AWT", Ghost(g))
        .step(-769395600, -14400, 3600, "APT", Ghost(g))
        .step(-765399600, -14400, 0, "AST", Ghost(g))
        .step(-747252000, -14400, 3600, "ADT", Ghost(g))
        .step(-733950000, -14400, 0, "AST", Ghost(g))
        .step(-715802400, -14400, 3600, "ADT", Ghost(g))
        .step(-702500400, -14400, 0, "AST", Ghost(g))
        .step(-684352800, -14400, 3600, "ADT", Ghost(g))
        .step(-671050800, -14400, 0, "AST", Ghost(g))
        .step(-652903200, -14400, 3600, "ADT", Ghost(g))
        .step(-639601200, -14400, 0, "AST", Ghost(g))
        .step(-620848800, -14400, 3600, "ADT", Ghost(g))
        .step(-608151600, -14400, 0, "AST", Ghost(g))
        .step(-589399200, -14400, 3600, "ADT", Ghost(g))
        .step(-576097200, -14400, 0, "AST", Ghost(g))
        .step(-557949600, -14400, 3600, "ADT", Ghost(g))
        .step(-544647600, -14400, 0, "AST", Ghost(g))
        .step(-526500000, -14400, 3600, "ADT", Ghost(g))
        .step(-513198000, -14400, 0, "AST", Ghost(g))
        .step(-495050400, -14400, 3600, "ADT", Ghost(g))
        .step(-481748400, -14400, 0, "AST", Ghost(g))
        .step(-463600800, -14400, 3600, "ADT", Ghost(g))
        .step(-450298800, -14400, 0, "AST", Ghost(g))
        .step(-431546400, -14400, 3600, "ADT", Ghost(g))
        .step(-418244400, -14400, 0, "AST", Ghost(g))
        .step(-400096800, -14400, 3600, "ADT", Ghost(g))
        .step(-384375600, -14400, 0, "AST", Ghost(g))
        .step(-368647200, -14400, 3600, "ADT", Ghost(g))
        .step(-352926000, -14400, 0, "AST", Ghost(g))
        .step(-337197600, -14400, 3600, "ADT", Ghost(g))
        .step(-321476400, -14400, 0, "AST", Ghost(g))
        .step(-305748000, -14400, 3600, "ADT", Ghost(g))
        .step(-289422000, -14400, 0, "AST", Ghost(g))
        .step(-273693600, -14400, 3600, "ADT", Ghost(g))
        .step(-257972400, -14400, 0, "AST", Ghost(g))
        .step(-242244000, -14400, 3600, "ADT", Ghost(g))
        .step(-226522800, -14400, 0, "AST", Ghost(g))
        .step(-210794400, -14400, 3600, "ADT", Ghost(g))
        .step(-195073200, -14400, 0, "AST", Ghost(g))
        .step(-179344800, -14400, 3600, "ADT", Ghost(g))
        .step(-163623600, -14400, 0, "AST", Ghost(g))
        .step(-147895200, -14400, 3600, "ADT", Ghost(g))
        .step(-131569200, -14400, 0, "AST", Ghost(g))
        .step(-116445600, -14400, 3600, "ADT", Ghost(g))
        .step(-100119600, -14400, 0, "AST", Ghost(g))
        .step(-84391200, -14400, 3600, "ADT", Ghost(g))
        .step(-68670000, -14400, 0, "AST", Ghost(g))
        .step(-52941600, -14400, 3600, "ADT", Ghost(g))
        .step(-37220400, -14400, 0, "AST", Ghost(g))
        .step(-21492000, -14400, 3600, "ADT", Ghost(g))
        .step(-5770800, -14400, 0, "AST", Ghost(g))
        .step(9957600, -14400, 3600, "ADT", Ghost(g))
        .step(25678800, -14400, 0, "AST", Ghost(g))
        .step(41407200, -14400, 3600, "ADT", Ghost(g))
        .step(57733200, -14400, 0, "AST", Ghost(g))
        .step(73461600, -14400, 3600, "ADT", Ghost(g))
        .step(89182800, -14400, 0, "AST", Ghost(g))
        .step(136360800, -14400, 3600, "ADT", Ghost(g))
        .step(152082000, -14400, 0, "AST", Ghost(g))
        .step(167810400, -14400, 3600, "ADT", Ghost(g))
        .step(183531600, -14400, 0, "AST", Ghost(g))
        .step(199260000, -14400, 3600, "ADT", Ghost(g))
        .step(215586000, -14400, 0, "AST", Ghost(g))
        .step(230709600, -14400, 3600, "ADT", Ghost(g))
        .step(247035600, -14400, 0, "AST", Ghost(g))
        .step(262764000, -14400, 3600, "ADT", Ghost(g))
        .step(278485200, -14400, 0, "AST", Ghost(g))
        .step(294213600, -14400, 3600, "ADT", Ghost(g))
        .step(309934800, -14400, 0, "AST", Ghost(g))
        .step(325663200, -14400, 3600, "ADT", Ghost(g))
        .step(341384400, -14400, 0, "AST", Ghost(g))
        .step(357112800, -14400, 3600, "ADT", Ghost(g))
        .step(372834000, -14400, 0, "AST", Ghost(g))
        .step(388562400, -14400, 3600, "ADT", Ghost(g))
        .step(404888400, -14400, 0, "AST", Ghost(g))
        .step(420012000, -14400, 3600, "ADT", Ghost(g))
        .step(436338000, -14400, 0, "AST", Ghost(g))
        .step(452066400, -14400, 3600, "ADT", Ghost(g))
        .step(467787600, -14400, 0, "AST", Ghost(g))
        .step(483516000, -14400, 3600, "ADT", Ghost(g))
        .step(499237200, -14400, 0, "AST", Ghost(g))
        .step(514965600, -14400, 3600, "ADT", Ghost(g))
        .step(530686800, -14400, 0, "AST", Ghost(g))
        .step(544600800, -14400, 3600, "ADT", Ghost(g))
        .step(562136400, -14400, 0, "AST", Ghost(g))
        .step(576050400, -14400, 3600, "ADT", Ghost(g))
        .step(594190800, -14400, 0, "AST", Ghost(g))
        .step(607500000, -14400, 3600, "ADT", Ghost(g))
        .step(625640400, -14400, 0, "AST", Ghost(g))
        .step(638949600, -14400, 3600, "ADT", Ghost(g))
        .step(657090000, -14400, 0, "AST", Ghost(g))
        .step(671004000, -14400, 3600, "ADT", Ghost(g))
        .step(688539600, -14400, 0, "AST", Ghost(g))
        .step(702453600, -14400, 3600, "ADT", Ghost(g))
        .step(719989200, -14400, 0, "AST", Ghost(g))
        .step(733896060, -14400, 3600, "ADT", Ghost(g))
        .step(752036460, -14400, 0, "AST", Ghost(g))
        .step(765345660, -14400, 3600, "ADT", Ghost(g))
        .step(783486060, -14400, 0, "AST", Ghost(g))
        .step(796795260, -14400, 3600, "ADT", Ghost(g))
        .step(814935660, -14400, 0, "AST", Ghost(g))
        .step(828849660, -14400, 3600, "ADT", Ghost(g))
        .step(846385260, -14400, 0, "AST", Ghost(g))
        .step(860299260, -14400, 3600, "ADT", Ghost(g))
        .step(877834860, -14400, 0, "AST", Ghost(g))
        .step(891748860, -14400, 3600, "ADT", Ghost(g))
        .step(909284460, -14400, 0, "AST", Ghost(g))
        .step(923198460, -14400, 3600, "ADT", Ghost(g))
        .step(941338860, -14400, 0, "AST", Ghost(g))
        .step(954648060, -14400, 3600, "ADT", Ghost(g))
        .step(972788460, -14400, 0, "AST", Ghost(g))
        .step(986097660, -14400, 3600, "ADT", Ghost(g))
        .step(1004238060, -14400, 0, "AST", Ghost(g))
        .step(1018152060, -14400, 3600, "ADT", Ghost(g))
        .step(1035687660, -14400, 0, "AST", Ghost(g))
        .step(1049601660, -14400, 3600, "ADT", Ghost(g))
        .step(1067137260, -14400, 0, "AST", Ghost(g))
        .step(1081051260, -14400, 3600, "ADT", Ghost(g))
        .step(1099191660, -14400, 0, "AST", Ghost(g))
        .step(1112500860, -14400, 3600, "ADT", Ghost(g))
        .step(1130641260, -14400, 0, "AST", Ghost(g))
        .step(1143950460, -14400, 3600, "ADT", Ghost(g))
        .step(1162090860, -14400, 0, "AST", Ghost(g))
        .step(1173592800, -14400, 3600, "ADT", Ghost(g))
        .step(1194152400, -14400, 0, "AST", Ghost(g))
        .step(1205042400, -14400, 3600, "ADT", Ghost(g))
        .step(1225602000, -14400, 0, "AST", Ghost(g))
        .step(1236492000, -14400, 3600, "ADT", Ghost(g))
        .step(1257051600, -14400, 0, "AST", Ghost(g))
        .step(1268546400, -14400, 3600, "ADT", Ghost(g))
        .step(1289106000, -14400, 0, "AST", Ghost(g))
        .step(1299996000, -14400, 3600, "ADT", Ghost(g))
        .step(1320555600, -14400, 0, "AST", Ghost(g))
        .step(1331445600, -14400, 3600, "ADT", Ghost(g))
        .step(1352005200, -14400, 0, "AST", Ghost(g))
        .step(1362895200, -14400, 3600, "ADT", Ghost(g))
        .step(1383454800, -14400, 0, "AST", Ghost(g))
        .step(1394344800, -14400, 3600, "ADT", Ghost(g))
        .step(1414904400, -14400, 0, "AST", Ghost(g))
        .step(1425794400, -14400, 3600, "ADT", Ghost(g))
        .step(1446354000, -14400, 0, "AST", Ghost(g))
        .step(1457848800, -14400, 3600, "ADT", Ghost(g))
        .step(1478408400, -14400, 0, "AST", Ghost(g))
        .step(1489298400, -14400, 3600, "ADT", Ghost(g))
        .step(1509858000, -14400, 0, "AST", Ghost(g))
        .step(1520748000, -14400, 3600, "ADT", Ghost(g))
        .step(1541307600, -14400, 0, "AST", Ghost(g))
        .step(1552197600, -14400, 3600, "ADT", Ghost(g))
        .step(1572757200, -14400, 0, "AST", Ghost(g))
        .step(1583647200, -14400, 3600, "ADT", Ghost(g))
        .step(1604206800, -14400, 0, "AST", Ghost(g))
        .step(1615701600, -14400, 3600, "ADT", Ghost(g))
        .step(1636261200, -14400, 0, "AST", Ghost(g))
        .step(1647151200, -14400, 3600, "ADT", Ghost(g))
        .step(1667710800, -14400, 0, "AST", Ghost(g))
        .step(1678600800, -14400, 3600, "ADT", Ghost(g))
        .step(1699160400, -14400, 0, "AST", Ghost(g))
        .step(1710050400, -14400, 3600, "ADT", Ghost(g))
        .step(1730610000, -14400, 0, "AST", Ghost(g))
        .step(1741500000, -14400, 3600, "ADT", Ghost(g))
        .step(1762059600, -14400, 0, "AST", Ghost(g))
        .step(1772949600, -14400, 3600, "ADT", Ghost(g))
        .step(1793509200, -14400, 0, "AST", Ghost(g))
        .step(1805004000, -14400, 3600, "ADT", Ghost(g))
        .step(1825563600, -14400, 0, "AST", Ghost(g))
        .step(1836453600, -14400, 3600, "ADT", Ghost(g))
        .step(1857013200, -14400, 0, "AST", Ghost(g))
        .step(1867903200, -14400, 3600, "ADT", Ghost(g))
        .step(1888462800, -14400, 0, "AST", Ghost(g))
        .step(1899352800, -14400, 3600, "ADT", Ghost(g))
        .step(1919912400, -14400, 0, "AST", Ghost(g))
        .step(1930802400, -14400, 3600, "ADT", Ghost(g))
        .step(1951362000, -14400, 0, "AST", Ghost(g))
        .step(1962856800, -14400, 3600, "ADT", Ghost(g))
        .step(1983416400, -14400, 0, "AST", Ghost(g))
        .step(1994306400, -14400, 3600, "ADT", Ghost(g))
        .step(2014866000, -14400, 0, "AST", Ghost(g))
        .step(2025756000, -14400, 3600, "ADT", Ghost(g))
        .step(2046315600, -14400, 0, "AST", Ghost(g))
        .step(2057205600, -14400, 3600, "ADT", Ghost(g))
        .step(2077765200, -14400, 0, "AST", Ghost(g))
        .step(2088655200, -14400, 3600, "ADT", Ghost(g))
        .step(2109214800, -14400, 0, "AST", Ghost(g))
        .step(2120104800, -14400, 3600, "ADT", Ghost(g))
        .step(2140664400, -14400, 0, "AST", Ghost(g))
        .finish(Ghost(g))
}

/// The zone `America/Monterrey`.
pub fn monterrey() -> (r: Tz)
    ensures
        r.wf(),
        r.zone_name() == "America/Monterrey"@,
        r.table() == tables::america::monterrey(),
{
    let ghost g = tables::america::monterrey_rows();
    FixedTimespanSet::begin("America/Monterrey", -24076, 0, "LMT", Ghost(g))
        .step(-1514743200, -25200, 0, "MST", Ghost(g))
        .step(-1343149200, -21600, 0, "CST", Ghost(g))
        .step(-1234807200, -25200, 0, "MST", Ghost(g))
        .step(-1220461200, -25200, 3600, "MDT", Ghost(g))
        .step(-1207159200, -25200, 0, "MST", Ghost(g))
        .step(-1191344400, -21600, 0, "CST", Ghost(g))
        .step(576057600, -21600, 3600, "CDT", Ghost(g))
        .step(594198000, -21600, 0, "CST", Ghost(g))
        .step(828864000, -21600, 3600, "CDT", Ghost(g))
        .step(846399600, -21600, 0, "CST", Ghost(g))
        .step(860313600, -21600, 3600, "CDT", Ghost(g))
        .step(877849200, -21600, 0, "CST", Ghost(g))
        .step(891763200, -21600, 3600, "CDT", Ghost(g))
        .step(909298800, -21600, 0, "CST", Ghost(g))
        .step(923212800, -21600, 3600, "CDT", Ghost(g))
        .step(941353200, -21600, 0, "CST", Ghost(g))
        .step(954662400, -21600, 3600, "CDT", Ghost(g))
        .step(972802800, -21600, 0, "CST", Ghost(g))
        .step(989136000, -21600, 3600, "CDT", Ghost(g))
        .step(1001833200, -21600, 0, "CST", Ghost(g))
        .step(1018166400, -21600, 3600, "CDT", Ghost(g))
        .step(1035702000, -21600, 0, "CST", Ghost(g))
        .step(1049616000, -21600, 3600, "CDT", Ghost(g))
        .step(1067151600, -21600, 0, "CST", Ghost(g))
        .step(1081065600, -21600, 3600, "CDT", Ghost(g))
        .step(1099206000, -21600, 0, "CST", Ghost(g))
        .step(1112515200, -21600, 3600, "CDT", Ghost(g))
        .step(1130655600, -21600, 0, "CST", Ghost(g))
        .step(1143964800, -21600, 3600, "CDT", Ghost(g))
        .step(1162105200, -21600, 0, "CST", Ghost(g))
        .step(1175414400, -21600, 3600, "CDT", Ghost(g))
        .step(1193554800, -21600, 0, "CST", Ghost(g))
        .step(1207468800, -21600, 3600, "CDT", Ghost(g))
        .step(1225004400, -21600, 0, "CST", Ghost(g))
        .step(1238918400, -21600, 3600, "CDT", Ghost(g))
        .step(1256454000, -21600, 0, "CST", Ghost(g))
        .step(1270368000, -21600, 3600, "CDT", Ghost(g))
        .step(1288508400, -21600, 0, "CST", Ghost(g))
        .step(1301817600, -21600, 3600, "CDT", Ghost(g))
        .step(1319958000, -21600, 0, "CST", Ghost(g))
        .step(1333267200, -21600, 3600, "CDT", Ghost(g))
        .step(1351407600, -21600, 0, "CST", Ghost(g))
        .step(1365321600, -21600, 3600, "CDT", Ghost(g))
        .step(1382857200, -21600, 0, "CST", Ghost(g))
        .step(1396771200, -21600, 3600, "CDT", Ghost(g))
        .step(1414306800, -21600, 0, "CST", Ghost(g))
        .step(1428220800, -21600, 3600, "CDT", Ghost(g))
        .step(1445756400, -21600, 0, "CST", Ghost(g))
        .step(1459670400, -21600, 3600, "CDT", Ghost(g))
        .step(1477810800, -21600, 0, "CST", Ghost(g))
        .step(1491120000, -21600, 3600, "CDT", Ghost(g))
        .step(1509260400, -21600, 0, "CST", Ghost(g))
        .step(1522569600, -21600, 3600, "CDT", Ghost(g))
        .step(1540710000, -21600, 0, "CST", Ghost(g))
        .step(1554624000, -21600, 3600, "CDT", Ghost(g))
        .step(1572159600, -21600, 0, "CST", Ghost(g))
        .step(1586073600, -21600, 3600, "CDT", Ghost(g))
        .step(1603609200, -21600, 0, "CST", Ghost(g))
        .step(1617523200, -21600, 3600, "CDT", Ghost(g))
        .step(1635663600, -21600, 0, "CST", Ghost(g))
        .step(1648972800, -21600, 3600, "CDT", Ghost(g))
        .step(1667113200, -21600, 0, "CST", Ghost(g))
        .finish(Ghost(g))
}

/// The zone `America/Montevideo`.
pub fn montevideo() -> (r: Tz)
    ensures
        r.wf(),
        r.zone_name() == "America/Montevideo"@,
        r.table() == tables::america::montevideo(),
{
    let ghost g = tables::america::montevideo_rows();
    FixedTimespanSet::begin("America/Montevideo", -13491, 0, "LMT", Ghost(g))
        .step(-1942690509, -13491, 0, "MMT", Ghost(g))
        .step(-1567455309, -14400, 0, "-04", Ghost(g))
        .step(-1459627200, -14400, 3600, "-03", Ghost(g))
        .step(-1443819600, -12600, 0, "-0330", Ghost(g))
        .step(-1428006600, -12600, 1800, "-03", Ghost(g))
        .step(-1412283600, -12600, 0, "-0330", Ghost(g))
        .step(-1396470600, -12600, 1800, "-03", Ghost(g))
        .step(-1380747600, -12600, 0, "-0330", Ghost(g))
        .step(-1141590600, -12600, 1800, "-03", Ghost(g))
        .step(-1128286800, -12600, 0, "-0330", Ghost(g))
        .step(-1110141000, -12600, 1800, "-03", Ghost(g))
        .step(-1096837200, -12600, 0, "-0330", Ghost(g))
        .step(-1078691400, -12600, 1800, "-03", Ghost(g))
        .step(-1065387600, -12600, 0, "-0330", Ghost(g))
        .step(-1047241800, -12600, 1800, "-03", Ghost(g))
        .step(-1033938000, -12600, 0, "-0330", Ghost(g))
        .step(-1015187400, -12600, 1800, "-03", Ghost(g))
        .step(-1002488400, -12600, 0, "-0330", Ghost(g))
        .step(-983737800, -12600, 1800, "-03", Ghost(g))
        .step(-971038800, -12600, 0, "-0330", Ghost(g))
        .step(-954707400, -12600, 1800, "-03", Ghost(g))
        .step(-938984400, -12600, 0, "-0330", Ghost(g))
        .step(-920838600, -12600, 1800, "-03", Ghost(g))
        .step(-907534800, -12600, 0, "-0330", Ghost(g))
        .step(-896819400, -12600, 1800, "-03", Ghost(g))
        .step(-853621200, -12600, 3600, "-0230", Ghost(g))
        .step(-845847000, -10800, 0, "-03", Ghost(g))
        .step(-334789200, -10800, 1800, "-0230", Ghost(g))
        .step(-319671000, -10800, 0, "-03", Ghost(g))
        .step(-314226000, -10800, 3600, "-02", Ghost(g))
        .step(-309996000, -10800, 0, "-03", Ghost(g))
        .step(-149720400, -10800, 3600, "-02", Ghost(g))
        .step(-134604000, -10800, 0, "-03", Ghost(g))
        .step(-50446800, -10800, 1800, "-0230", Ghost(g))
        .step(-34205400, -10800, 0, "-03", Ghost(g))
        .step(9860400, -10800, 3600, "-02", Ghost(g))
        .step(14176800, -10800, 0, "-03", Ghost(g))
        .step(72846000, -10800, 3600, "-02", Ghost(g))
        .step(80100000, -10800, 0, "-03", Ghost(g))
        .step(127278000, -10800, 5400, "-0130", Ghost(g))
        .step(132111000, -10800, 1800, "-0230", Ghost(g))
        .step(147234600, -10800, 0, "-03", Ghost(g))
        .step(156913200, -10800, 3600, "-02", Ghost(g))
        .step(165376800, -10800, 0, "-03", Ghost(g))
        .step(219812400, -10800, 3600, "-02", Ghost(g))
        .step(226461600, -10800, 0, "-03", Ghost(g))
        .step(250052400, -10800, 3600, "-02", Ghost(g))
        .step(257911200, -10800, 0, "-03", Ghost(g))
        .step(282711600, -10800, 3600, "-02", Ghost(g))
        .step(289360800, -10800, 0, "-03", Ghost(g))
        .step(294202800, -10800, 3600, "-02", Ghost(g))
        .step(322020000, -10800, 0, "-03", Ghost(g))
        .step(566449200, -10800, 3600, "-02", Ghost(g))
        .step(573012000, -10800, 0, "-03", Ghost(g))
        .step(597812400, -10800, 3600, "-02", Ghost(g))
        .step(605066400, -10800, 0, "-03", Ghost(g))
        .step(625633200, -10800, 3600, "-02", Ghost(g))
        .step(635911200, -10800, 0, "-03", Ghost(g))
        .step(656478000, -10800, 3600, "-02", Ghost(g))
        .step(667965600, -10800, 0, "-03", Ghost(g))
        .step(688532400, -10800, 3600, "-02", Ghost(g))
        .step(699415200, -10800, 0, "-03", Ghost(g))
        .step(719377200, -10800, 3600, "-02", Ghost(g))
        .step(730864800, -10800, 0, "-03", Ghost(g))
        .step(1095562800, -10800, 3600, "-02", Ghost(g))
        .step(1111896000, -10800, 0, "-03", Ghost(g))
        .step(1128834000, -10800, 3600, "-02", Ghost(g))
        .step(1142136000, -10800, 0, "-03", Ghost(g))
        .step(1159678800, -10800, 3600, "-02", Ghost(g))
        .step(1173585600, -10800, 0, "-03", Ghost(g))
        .step(1191733200, -10800, 3600, "-02", Ghost(g))
        .step(1205035200, -10800, 0, "-03", Ghost(g))
        .step(1223182800, -10800, 3600, "-02", Ghost(g))
        .step(1236484800, -10800, 0, "-03", Ghost(g))
        .step(1254632400, -10800, 3600, "-02", Ghost(g))
        .step(1268539200, -10800, 0, "-03", Ghost(g))
        .step(1286082000, -10800, 3600, "-02", Ghost(g))
        .step(1299988800, -10800, 0, "-03", Ghost(g))
        .step(1317531600, -10800, 3600, "-02", Ghost(g))
        .step(1331438400, -10800, 0, "-03", Ghost(g))
        .step(1349586000, -10800, 3600, "-02", Ghost(g))
        .step(1362888000, -10800, 0, "-03", Ghost(g))
        .step(1381035600, -10800, 3600, "-02", Ghost(g))
        .step(1394337600, -10800, 0, "-03", Ghost(g))
        .step(1412485200, -10800, 3600, "-02", Ghost(g))
        .step(1425787200, -10800, 0, "-03", Ghost(g))
        .step(2147483647, -10800, 0, "-03", Ghost(g))
        .finish(Ghost(g))
}

/// The zone `America/Montreal`.
pub fn montreal() -> (r: Tz)
    ensures
        r.wf(),
        r.zone_name() == "America/Montreal"@,
        r.table() == tables::america::montreal(),
{
    let ghost g = tables::america::montreal_rows();
    FixedTimespanSet::begin("America/Montreal", -19052, 0, "LMT", Ghost(g))
        .step(-2366736148, -18000, 0, "EST", Ghost(g))
        .step(-1632070800, -18000, 3600, "EDT", Ghost(g))
        .step(-1615140000, -18000, 0, "EST", Ghost(g))
        .step(-1601753400, -18000, 3600, "EDT", Ghost(g))
        .step(-1583697600, -18000, 0, "EST", Ghost(g))
        .step(-1567357200, -18000, 3600, "EDT", Ghost(g))
        .step(-1554667200, -18000, 0, "EST", Ghost(g))
        .step(-1534698000, -18000, 3600, "EDT", Ghost(g))
        .step(-1524074400, -18000, 0, "EST", Ghost(g))
        .step(-1503248400, -18000, 3600, "EDT", Ghost(g))
        .step(-1492365600, -18000, 0, "EST", Ghost(g))
        .step(-1471798800, -18000, 3600, "EDT", Ghost(g))
        .step(-1460916000, -18000, 0, "EST", Ghost(g))
        .step(-1440954000, -18000, 3600, "EDT", Ghost(g))
        .step(-1428861600, -18000, 0, "EST", Ghost(g))
        .step(-1409504400, -18000, 3600, "EDT", Ghost(g))
        .step(-1397412000, -18000, 0, "EST", Ghost(g))
        .step(-1378054800, -18000, 3600, "EDT", Ghost(g))
        .step(-1365962400, -18000, 0, "EST", Ghost(g))
        .step(-1346605200, -18000, 3600, "EDT", Ghost(g))
        .step(-1333908000, -18000, 0, "EST", Ghost(g))
        .step(-1315155600, -18000, 3600, "EDT", Ghost(g))
        .step(-1301853600, -18000, 0, "EST", Ghost(g))
        .step(-1283706000, -18000, 3600, "EDT", Ghost(g))
        .step(-1270404000, -18000, 0, "EST", Ghost(g))
        .step(-1252256400, -18000, 3600, "EDT", Ghost(g))
        .step(-1238954400, -18000, 0, "EST", Ghost(g))
        .step(-1220806800, -18000, 3600, "EDT", Ghost(g))
        .step(-1207504800, -18000, 0, "EST", Ghost(g))
        .step(-1188752400, -18000, 3600, "EDT", Ghost(g))
        .step(-1176055200, -18000, 0, "EST", Ghost(g))
        .step(-1157302800, -18000, 3600, "EDT", Ghost(g))
        .step(-1144000800, -18000, 0, "EST", Ghost(g))
        .step(-1125853200, -18000, 3600, "EDT", Ghost(g))
        .step(-1112551200, -18000, 0, "EST", Ghost(g))
        .step(-1094403600, -18000, 3600, "EDT", Ghost(g))
        .step(-1081101600, -18000, 0, "EST", Ghost(g))
        .step(-1062954000, -18000, 3600, "EDT", Ghost(g))
        .step(-1049652000, -18000, 0, "EST", Ghost(g))
        .step(-1031504400, -18000, 3600, "EDT", Ghost(g))
        .step(-1018202400, -18000, 0, "EST", Ghost(g))
        .step(-1000054800, -18000, 3600, "EDT", Ghost(g))
        .step(-986752800, -18000, 0, "EST", Ghost(g))
        .step(-968000400, -18000, 3600, "EDT", Ghost(g))
        .step(-955303200, -18000, 0, "EST", Ghost(g))
        .step(-936550800, -18000, 3600, "EDT", Ghost(g))
        .step(-880218000, -18000, 3600, "EWT", Ghost(g))
        .step(-769395600, -18000, 3600, "EPT", Ghost(g))
        .step(-765396000, -18000, 0, "EST", Ghost(g))
        .step(-747248400, -18000, 3600, "EDT", Ghost(g))
        .step(-733946400, -18000, 0, "EST", Ghost(g))
        .step(-715798800, -18000, 3600, "EDT", Ghost(g))
        .step(-702496800, -18000, 0, "EST", Ghost(g))
        .step(-684349200, -18000, 3600, "EDT", Ghost(g))
        .step(-671047200, -18000, 0, "EST", Ghost(g))
        .step(-652899600, -18000, 3600, "EDT", Ghost(g))
        .step(-634154400, -18000, 0, "EST", Ghost(g))
        .step(-620845200, -18000, 3600, "EDT", Ghost(g))
        .step(-602704800, -18000, 0, "EST", Ghost(g))
        .step(-589395600, -18000, 3600, "EDT", Ghost(g))
        .step(-576093600, -18000, 0, "EST", Ghost(g))
        .step(-557946000, -18000, 3600, "EDT", Ghost(g))
        .step(-544644000, -18000, 0, "EST", Ghost(g))
        .step(-526496400, -18000, 3600, "EDT", Ghost(g))
        .step(-513194400, -18000, 0, "EST", Ghost(g))
        .step(-495046800, -18000, 3600, "EDT", Ghost(g))
        .step(-481744800, -18000, 0, "EST", Ghost(g))
        .step(-463597200, -18000, 3600, "EDT", Ghost(g))
        .step(-450295200, -18000, 0, "EST", Ghost(g))
        .step(-431542800, -18000, 3600, "EDT", Ghost(g))
        .step(-418240800, -18000, 0, "EST", Ghost(g))
        .step(-400093200, -18000, 3600, "EDT", Ghost(g))
        .step(-384372000, -18000, 0, "EST", Ghost(g))
        .step(-368643600, -18000, 3600, "EDT", Ghost(g))
        .step(-352922400, -18000, 0, "EST", Ghost(g))
        .step(-337194000, -18000, 3600, "EDT", Ghost(g))
        .step(-321472800, -18000, 0, "EST", Ghost(g))
        .step(-305744400, -18000, 3600, "EDT", Ghost(g))
        .step(-289418400, -18000, 0, "EST", Ghost(g))
        .step(-273690000, -18000, 3600, "EDT", Ghost(g))
        .step(-257968800, -18000, 0, "EST", Ghost(g))
        .step(-242240400, -18000, 3600, "EDT", Ghost(g))
        .step(-226519200, -18000, 0, "EST", Ghost(g))
        .step(-210790800, -18000, 3600, "EDT", Ghost(g))
        .step(-195069600, -18000, 0, "EST", Ghost(g))
        .step(-179341200, -18000, 3600, "EDT", Ghost(g))
        .step(-163620000, -18000, 0, "EST", Ghost(g))
        .step(-147891600, -18000, 3600, "EDT", Ghost(g))
        .step(-131565600, -18000, 0, "EST", Ghost(g))
        .step(-116442000, -18000, 3600, "EDT", Ghost(g))
        .step(-100116000, -18000, 0, "EST", Ghost(g))
        .step(-84387600, -18000, 3600, "EDT", Ghost(g))
        .step(-68666400, -18000, 0, "EST", Ghost(g))
        .step(-52938000, -18000, 3600, "EDT", Ghost(g))
        .step(-37216800, -18000, 0, "EST", Ghost(g))
        .step(-21488400, -18000, 3600, "EDT", Ghost(g))
        .step(-5767200, -18000, 0, "EST", Ghost(g))
        .step(9961200, -18000, 3600, "EDT", Ghost(g))
        .step(25682400, -18000, 0, "EST", Ghost(g))
        .step(41410800, -18000, 3600, "EDT", Ghost(g))
        .step(57736800, -18000, 0, "EST", Ghost(g))
        .step(73465200, -18000, 3600, "EDT", Ghost(g))
        .step(89186400, -18000, 0, "EST", Ghost(g))
        .step(104914800, -18000, 3600, "EDT", Ghost(g))
        .step(120636000, -18000, 0, "EST", Ghost(g))
        .step(136364400, -18000, 3600, "EDT", Ghost(g))
        .step(152085600, -18000, 0, "EST", Ghost(g))
        .step(167814000, -18000, 3600, "EDT", Ghost(g))
        .step(183535200, -18000, 0, "EST", Ghost(g))
        .step(199263600, -18000, 3600, "EDT", Ghost(g))
        .step(215589600, -18000, 0, "EST", Ghost(g))
        .step(230713200, -18000, 3600, "EDT", Ghost(g))
        .step(247039200, -18000, 0, "EST", Ghost(g))
        .step(262767600, -18000, 3600, "EDT", Ghost(g))
        .step(278488800, -18000, 0, "EST", Ghost(g))
        .step(294217200, -18000, 3600, "EDT", Ghost(g))
        .step(309938400, -18000, 0, "EST", Ghost(g))
        .step(325666800, -18000, 3600, "EDT", Ghost(g))
        .step(341388000, -18000, 0, "EST", Ghost(g))
        .step(357116400, -18000, 3600, "EDT", Ghost(g))
        .step(372837600, -18000, 0, "EST", Ghost(g))
        .step(388566000, -18000, 3600, "EDT", Ghost(g))
        .step(404892000, -18000, 0, "EST", Ghost(g))
        .step(420015600, -18000, 3600, "EDT", Ghost(g))
        .step(436341600, -18000, 0, "EST", Ghost(g))
        .step(452070000, -18000, 3600, "EDT", Ghost(g))
        .step(467791200, -18000, 0, "EST", Ghost(g))
        .step(483519600, -18000, 3600, "EDT", Ghost(g))
        .step(499240800, -18000, 0, "EST", Ghost(g))
        .step(514969200, -18000, 3600, "EDT", Ghost(g))
        .step(530690400, -18000, 0, "EST", Ghost(g))
        .step(544604400, -18000, 3600, "EDT", Ghost(g))
        .step(562140000, -18000, 0, "EST", Ghost(g))
        .step(576054000, -18000, 3600, "EDT", Ghost(g))
        .step(594194400, -18000, 0, "EST", Ghost(g))
        .step(607503600, -18000, 3600, "EDT", Ghost(g))
        .step(625644000, -18000, 0, "EST", Ghost(g))
        .step(638953200, -18000, 3600, "EDT", Ghost(g))
        .step(657093600, -18000, 0, "EST", Ghost(g))
        .step(671007600, -18000, 3600, "EDT", Ghost(g))
        .step(688543200, -18000, 0, "EST", Ghost(g))
        .step(702457200, -18000, 3600, "EDT", Ghost(g))
        .step(719992800, -18000, 0, "EST", Ghost(g))
        .step(733906800, -18000, 3600, "EDT", Ghost(g))
        .step(752047200, -18000, 0, "EST", Ghost(g))
        .step(765356400, -18000, 3600, "EDT", Ghost(g))
        .step(783496800, -18000, 0, "EST", Ghost(g))
        .step(796806000, -18000, 3600, "EDT", Ghost(g))
        .step(814946400, -18000, 0, "EST", Ghost(g))
        .step(828860400, -18000, 3600, "EDT", Ghost(g))
        .step(846396000, -18000, 0, "EST", Ghost(g))
        .step(860310000, -18000, 3600, "EDT", Ghost(g))
        .step(877845600, -18000, 0, "EST", Ghost(g))
        .step(891759600, -18000, 3600, "EDT", Ghost(g))
        .step(909295200, -18000, 0, "EST", Ghost(g))
        .step(923209200, -18000, 3600, "EDT", Ghost(g))
        .step(941349600, -18000, 0, "EST", Ghost(g))
        .step(954658800, -18000, 3600, "EDT", Ghost(g))
        .step(972799200, -18000, 0, "EST", Ghost(g))
        .step(986108400, -18000, 3600, "EDT", Ghost(g))
        .step(1004248800, -18000, 0, "EST", Ghost(g))
        .step(1018162800, -18000, 3600, "EDT", Ghost(g))
        .step(1035698400, -18000, 0, "EST", Ghost(g))
        .step(1049612400, -18000, 3600, "EDT", Ghost(g))
        .step(1067148000, -18000, 0, "EST", Ghost(g))
        .step(1081062000, -18000, 3600, "EDT", Ghost(g))
        .step(1099202400, -18000, 0, "EST", Ghost(g))
        .step(1112511600, -18000, 3600, "EDT", Ghost(g))
        .step(1130652000, -18000, 0, "EST", Ghost(g))
        .step(1143961200, -18000, 3600, "EDT", Ghost(g))
        .step(1162101600, -18000, 0, "EST", Ghost(g))
        .step(1173596400, -18000, 3600, "EDT", Ghost(g))
        .step(1194156000, -18000, 0, "EST", Ghost(g))
        .step(1205046000, -18000, 3600, "EDT", Ghost(g))
        .step(1225605600, -18000, 0, "EST", Ghost(g))
        .step(1236495600, -18000, 3600, "EDT", Ghost(g))
        .step(1257055200, -18000, 0, "EST", Ghost(g))
        .step(1268550000, -18000, 3600, "EDT", Ghost(g))
        .step(1289109600, -18000, 0, "EST", Ghost(g))
        .step(1299999600, -18000, 3600, "EDT", Ghost(g))
        .step(1320559200, -18000, 0, "EST", Ghost(g))
        .step(1331449200, -18000, 3600, "EDT", Ghost(g))
        .step(1352008800, -18000, 0, "EST", Ghost(g))
        .step(1362898800, -18000, 3600, "EDT", Ghost(g))
        .step(1383458400, -18000, 0, "EST", Ghost(g))
        .step(1394348400, -18000, 3600, "EDT", Ghost(g))
        .step(1414908000, -18000, 0, "EST", Ghost(g))
        .step(1425798000, -18000, 3600, "EDT", Ghost(g))
        .step(1446357600, -18000, 0, "EST", Ghost(g))
        .step(1457852400, -18000, 3600, "EDT", Ghost(g))
        .step(1478412000, -18000, 0, "EST", Ghost(g))
        .step(1489302000, -18000, 3600, "EDT", Ghost(g))
        .step(1509861600, -18000, 0, "EST", Ghost(g))
        .step(1520751600, -18000, 3600, "EDT", Ghost(g))
        .step(1541311200, -18000, 0, "EST", Ghost(g))
        .step(1552201200, -18000, 3600, "EDT", Ghost(g))
        .step(1572760800, -18000, 0, "EST", Ghost(g))
        .step(1583650800, -18000, 3600, "EDT", Ghost(g))
        .step(1604210400, -18000, 0, "EST", Ghost(g))
        .step(1615705200, -18000, 3600, "EDT", Ghost(g))
        .step(1636264800, -18000, 0, "EST", Ghost(g))
        .step(1647154800, -18000, 3600, "EDT", Ghost(g))
        .step(1667714400, -18000, 0, "EST", Ghost(g))
        .step(1678604400, -18000, 3600, "EDT", Ghost(g))
        .step(1699164000, -18000, 0, "EST", Ghost(g))
        .step(1710054000, -18000, 3600, "EDT", Ghost(g))
        .step(1730613600, -18000, 0, "EST", Ghost(g))
        .step(1741503600, -18000, 3600, "EDT", Ghost(g))
        .step(1762063200, -18000, 0, "EST", Ghost(g))
        .step(1772953200, -18000, 3600, "EDT", Ghost(g))
        .step(1793512800, -18000, 0, "EST", Ghost(g))
        .step(1805007600, -18000, 3600, "EDT", Ghost(g))
        .step(1825567200, -18000, 0, "EST", Ghost(g))
        .step(1836457200, -18000, 3600, "EDT", Ghost(g))
        .step(1857016800, -18000, 0, "EST", Ghost(g))
        .step(1867906800, -18000, 3600, "EDT", Ghost(g))
        .step(1888466400, -18000, 0, "EST", Ghost(g))
        .step(1899356400, -18000, 3600, "EDT", Ghost(g))
        .step(1919916000, -18000, 0, "EST", Ghost(g))
        .step(1930806000, -18000, 3600, "EDT", Ghost(g))
        .step(1951365600, -18000, 0, "EST", Ghost(g))
        .step(1962860400, -18000, 3600, "EDT", Ghost(g))
        .step(1983420000, -18000, 0, "EST", Ghost(g))
        .step(1994310000, -18000, 3600, "EDT", Ghost(g))
        .step(2014869600, -18000, 0, "EST", Ghost(g))
        .step(2025759600, -18000, 3600, "EDT", Ghost(g))
        .step(2046319200, -18000, 0, "EST", Ghost(g))
        .step(2057209200, -18000, 3600, "EDT", Ghost(g))
        .step(2077768800, -18000, 0, "EST", Ghost(g))
        .step(2088658800, -18000, 3600, "EDT", Ghost(g))
        .step(2109218400, -18000, 0, "EST", Ghost(g))
        .step(2120108400, -18000, 3600, "EDT", Ghost(g))
        .step(2140668000, -18000, 0, "EST", Ghost(g))
        .finish(Ghost(g))
}

/// The zone `America/Montserrat`.
pub fn montserrat() -> (r: Tz)
    ensures
        r.wf(),
        r.zone_name() == "America/Montserrat"@,
        r.table() == tables::america::montserrat(),
{
    let ghost g = tables::america::montserrat_rows();
    FixedTimespanSet::begin("America/Montserrat", -14932, 0, "LMT", Ghost(g))
        .step(-1846266608, -14400, 0, "AST", Ghost(g))
        .finish(Ghost(g))
}

/// The zone `America/Nassau`.
pub fn nassau() -> (r: Tz)
    ensures
        r.wf(),
        r.zone_name() == "America/Nassau"@,
        r.table() == tables::america::nassau(),
{
    let ghost g = tables::america::nassau_rows();
    FixedTimespanSet::begin("America/Nassau", -18570, 0, "LMT", Ghost(g))
        .step(-1825095030, -18000, 0, "EST", Ghost(g))
        .step(-873140400, -18000, 3600, "EWT", Ghost(g))
        .step(-788904000, -18000, 0, "EST", Ghost(g))
        .step(-786222000, -18000, 3600, "EWT", Ghost(g))
        .step(-769395600, -18000, 3600, "EPT", Ghost(g))
        .step(-763848000, -18000, 0, "EST", Ghost(g))
        .step(-179341200, -18000, 3600, "EDT", Ghost(g))
        .step(-163620000, -18000, 0, "EST", Ghost(g))
        .step(-147891600, -18000, 3600, "EDT", Ghost(g))
        .step(-131565600, -18000, 0, "EST", Ghost(g))
        .step(-116442000, -18000, 3600, "EDT", Ghost(g))
        .step(-100116000, -18000, 0, "EST", Ghost(g))
        .step(-84387600, -18000, 3600, "EDT", Ghost(g))
        .step(-68666400, -18000, 0, "EST", Ghost(g))
        .step(-52938000, -18000, 3600, "EDT", Ghost(g))
        .step(-37216800, -18000, 0, "EST", Ghost(g))
        .step(-21488400, -18000, 3600, "EDT", Ghost(g))
        .step(-5767200, -18000, 0, "EST", Ghost(g))
        .step(9961200, -18000, 3600, "EDT", Ghost(g))
        .step(25682400, -18000, 0, "EST", Ghost(g))
        .step(41410800, -18000, 3600, "EDT", Ghost(g))
        .step(57736800, -18000, 0, "EST", Ghost(g))
        .step(73465200, -18000, 3600, "EDT", Ghost(g))
        .step(89186400, -18000, 0, "EST", Ghost(g))
        .step(104914800, -18000, 3600, "EDT", Ghost(g))
        .step(120636000, -18000, 0, "EST", Ghost(g))
        .step(136364400, -18000, 3600, "EDT", Ghost(g))
        .step(152085600, -18000, 0, "EST", Ghost(g))
        .step(167814000, -18000, 3600, "EDT", Ghost(g))
        .step(183535200, -18000, 0, "EST", Ghost(g))
        .step(199263600, -18000, 3600, "EDT", Ghost(g))
        .step(215589600, -18000, 0, "EST", Ghost(g))
        .step(230713200, -18000, 3600, "EDT", Ghost(g))
        .step(247039200, -18000, 0, "EST", Ghost(g))
        .step(262767600, -18000, 3600, "EDT", Ghost(g))
        .step(278488800, -18000, 0, "EST", Ghost(g))
        .step(294217200, -18000, 3600, "EDT", Ghost(g))
        .step(309938400, -18000, 0, "EST", Ghost(g))
        .step(325666800, -18000, 3600, "EDT", Ghost(g))
        .step(341388000, -18000, 0, "EST", Ghost(g))
        .step(357116400, -18000, 3600, "EDT", Ghost(g))
        .step(372837600, -18000, 0, "EST", Ghost(g))
        .step(388566000, -18000, 3600, "EDT", Ghost(g))
        .step(404892000, -18000, 0, "EST", Ghost(g))
        .step(420015600, -18000, 3600, "EDT", Ghost(g))
        .step(436341600, -18000, 0, "EST", Ghost(g))
        .step(452070000, -18000, 3600, "EDT", Ghost(g))
        .step(467791200, -18000, 0, "EST", Ghost(g))
        .step(483519600, -18000, 3600, "EDT", Ghost(g))
        .step(499240800, -18000, 0, "EST", Ghost(g))
        .step(514969200, -18000, 3600, "EDT", Ghost(g))
        .step(530690400, -18000, 0, "EST", Ghost(g))
        .step(544604400, -18000, 3600, "EDT", Ghost(g))
        .step(562140000, -18000, 0, "EST", Ghost(g))
        .step(576054000, -18000, 3600, "EDT", Ghost(g))
        .step(594194400, -18000, 0, "EST", Ghost(g))
        .step(607503600, -18000, 3600, "EDT", Ghost(g))
        .step(625644000, -18000, 0, "EST", Ghost(g))
        .step(638953200, -18000, 3600, "EDT", Ghost(g))
        .step(657093600, -18000, 0, "EST", Ghost(g))
        .step(671007600, -18000, 3600, "EDT", Ghost(g))
        .step(688543200, -18000, 0, "EST", Ghost(g))
        .step(702457200, -18000, 3600, "EDT", Ghost(g))
        .step(719992800, -18000, 0, "EST", Ghost(g))
        .step(733906800, -18000, 3600, "EDT", Ghost(g))
        .step(752047200, -18000, 0, "EST", Ghost(g))
        .step(765356400, -18000, 3600, "EDT", Ghost(g))
        .step(783496800, -18000, 0, "EST", Ghost(g))
        .step(796806000, -18000, 3600, "EDT", Ghost(g))
        .step(814946400, -18000, 0, "EST", Ghost(g))
        .step(828860400, -18000, 3600, "EDT", Ghost(g))
        .step(846396000, -18000, 0, "EST", Ghost(g))
        .step(860310000, -18000, 3600, "EDT", Ghost(g))
        .step(877845600, -18000, 0, "EST", Ghost(g))
        .step(891759600, -18000, 3600, "EDT", Ghost(g))
        .step(909295200, -18000, 0, "EST", Ghost(g))
        .step(923209200, -18000, 3600, "EDT", Ghost(g))
        .step(941349600, -18000, 0, "EST", Ghost(g))
        .step(954658800, -18000, 3600, "EDT", Ghost(g))
        .step(972799200, -18000, 0, "EST", Ghost(g))
        .step(986108400, -18000, 3600, "EDT", Ghost(g))
        .step(1004248800, -18000, 0, "EST", Ghost(g))
        .step(1018162800, -18000, 3600, "EDT", Ghost(g))
        .step(1035698400, -18000, 0, "EST", Ghost(g))
        .step(1049612400, -18000, 3600, "EDT", Ghost(g))
        .step(1067148000, -18000, 0, "EST", Ghost(g))
        .step(1081062000, -18000, 3600, "EDT", Ghost(g))
        .step(1099202400, -18000, 0, "EST", Ghost(g))
        .step(1112511600, -18000, 3600, "EDT", Ghost(g))
        .step(1130652000, -18000, 0, "EST", Ghost(g))
        .step(1143961200, -18000, 3600, "EDT", Ghost(g))
        .step(1162101600, -18000, 0, "EST", Ghost(g))
        .step(1173596400, -18000, 3600, "EDT", Ghost(g))
        .step(1194156000, -18000, 0, "EST", Ghost(g))
        .step(1205046000, -18000, 3600, "EDT", Ghost(g))
        .step(1225605600, -18000, 0, "EST", Ghost(g))
        .step(1236495600, -18000, 3600, "EDT", Ghost(g))
        .step(1257055200, -18000, 0, "EST", Ghost(g))
        .step(1268550000, -18000, 3600, "EDT", Ghost(g))
        .step(1289109600, -18000, 0, "EST", Ghost(g))
        .step(1299999600, -18000, 3600, "EDT", Ghost(g))
        .step(1320559200, -18000, 0, "EST", Ghost(g))
        .step(1331449200, -18000, 3600, "EDT", Ghost(g))
        .step(1352008800, -18000, 0, "EST", Ghost(g))
        .step(1362898800, -18000, 3600, "EDT", Ghost(g))
        .step(1383458400, -18000, 0, "EST", Ghost(g))
        .step(1394348400, -18000, 3600, "EDT", Ghost(g))
        .step(1414908000, -18000, 0, "EST", Ghost(g))
        .step(1425798000, -18000, 3600, "EDT", Ghost(g))
        .step(1446357600, -18000, 0, "EST", Ghost(g))
        .step(1457852400, -18000, 3600, "EDT", Ghost(g))
        .step(1478412000, -18000, 0, "EST", Ghost(g))
        .step(1489302000, -18000, 3600, "EDT", Ghost(g))
        .step(1509861600, -18000, 0, "EST", Ghost(g))
        .step(1520751600, -18000, 3600, "EDT", Ghost(g))
        .step(1541311200, -18000, 0, "EST", Ghost(g))
        .step(1552201200, -18000, 3600, "EDT", Ghost(g))
        .step(1572760800, -18000, 0, "EST", Ghost(g))
        .step(1583650800, -18000, 3600, "EDT", Ghost(g))
        .step(1604210400, -18000, 0, "EST", Ghost(g))
        .step(1615705200, -18000, 3600, "EDT", Ghost(g))
        .step(1636264800, -18000, 0, "EST", Ghost(g))
        .step(1647154800, -18000, 3600, "EDT", Ghost(g))
        .step(1667714400, -18000, 0, "EST", Ghost(g))
        .step(1678604400, -18000, 3600, "EDT", Ghost(g))
        .step(1699164000, -18000, 0, "EST", Ghost(g))
        .step(1710054000, -18000, 3600, "EDT", Ghost(g))
        .step(1730613600, -18000, 0, "EST", Ghost(g))
        .step(1741503600, -18000, 3600, "EDT", Ghost(g))
        .step(1762063200, -18000, 0, "EST", Ghost(g))
        .step(1772953200, -18000, 3600, "EDT", Ghost(g))
        .step(1793512800, -18000, 0, "EST", Ghost(g))
        .step(1805007600, -18000, 3600, "EDT", Ghost(g))
        .step(1825567200, -18000, 0, "EST", Ghost(g))
        .step(1836457200, -18000, 3600, "EDT", Ghost(g))
        .step(1857016800, -18000, 0, "EST", Ghost(g))
        .step(1867906800, -18000, 3600, "EDT", Ghost(g))
        .step(1888466400, -18000, 0, "EST", Ghost(g))
        .step(1899356400, -18000, 3600, "EDT", Ghost(g))
        .step(1919916000, -18000, 0, "EST", Ghost(g))
        .step(1930806000, -18000, 3600, "EDT", Ghost(g))
        .step(1951365600, -18000, 0, "EST", Ghost(g))
        .step(1962860400, -18000, 3600, "EDT", Ghost(g))
        .step(1983420000, -18000, 0, "EST", Ghost(g))
        .step(1994310000, -18000, 3600, "EDT", Ghost(g))
        .step(2014869600, -18000, 0, "EST", Ghost(g))
        .step(2025759600, -18000, 3600, "EDT", Ghost(g))
        .step(2046319200, -18000, 0, "EST", Ghost(g))
        .step(2057209200, -18000, 3600, "EDT", Ghost(g))
        .step(2077768800, -18000, 0, "EST", Ghost(g))
        .step(2088658800, -18000, 3600, "EDT", Ghost(g))
        .step(2109218400, -18000, 0, "EST", Ghost(g))
        .step(2120108400, -18000, 3600, "EDT", Ghost(g))
        .step(2140668000, -18000, 0, "EST", Ghost(g))
        .finish(Ghost(g))
}

/// The zone `America/New_York`.
pub fn new_york() -> (r: Tz)
    ensures
        r.wf(),
        r.zone_name() == "America/New_York"@,
        r.table() == tables::america::new_york(),
{
    let ghost g = tables::america::new_york_rows();
    FixedTimespanSet::begin("America/New_York", -17762, 0, "LMT", Ghost(g))
        .step(-2717650800, -18000, 0, "EST", Ghost(g))
        .step(-1633280400, -18000, 3600, "EDT", Ghost(g))
        .step(-1615140000, -18000, 0, "EST", Ghost(g))
        .step(-1601830800, -18000, 3600, "EDT", Ghost(g))
        .step(-1583690400, -18000, 0, "EST", Ghost(g))
        .step(-1570381200, -18000, 3600, "EDT", Ghost(g))
        .step(-1551636000, -18000, 0, "EST", Ghost(g))
        .step(-1536512400, -18000, 3600, "EDT", Ghost(g))
        .step(-1523210400, -18000, 0, "EST", Ghost(g))
        .step(-1504458000, -18000, 3600, "EDT", Ghost(g))
        .step(-1491760800, -18000, 0, "EST", Ghost(g))
        .step(-1473008400, -18000, 3600, "EDT", Ghost(g))
        .step(-1459706400, -18000, 0, "EST", Ghost(g))
        .step(-1441558800, -18000, 3600, "EDT", Ghost(g))
        .step(-1428256800, -18000, 0, "EST", Ghost(g))
        .step(-1410109200, -18000, 3600, "EDT", Ghost(g))
        .step(-1396807200, -18000, 0, "EST", Ghost(g))
        .step(-1378659600, -18000, 3600, "EDT", Ghost(g))
        .step(-1365357600, -18000, 0, "EST", Ghost(g))
        .step(-1347210000, -18000, 3600, "EDT", Ghost(g))
        .step(-1333908000, -18000, 0, "EST", Ghost(g))
        .step(-1315155600, -18000, 3600, "EDT", Ghost(g))
        .step(-1301853600, -18000, 0, "EST", Ghost(g))
        .step(-1283706000, -18000, 3600, "EDT", Ghost(g))
        .step(-1270404000, -18000, 0, "EST", Ghost(g))
        .step(-1252256400, -18000, 3600, "EDT", Ghost(g))
        .step(-1238954400, -18000, 0, "EST", Ghost(g))
        .step(-1220806800, -18000, 3600, "EDT", Ghost(g))
        .step(-1207504800, -18000, 0, "EST", Ghost(g))
        .step(-1189357200, -18000, 3600, "EDT", Ghost(g))
        .step(-1176055200, -18000, 0, "EST", Ghost(g))
        .step(-1157302800, -18000, 3600, "EDT", Ghost(g))
        .step(-1144605600, -18000, 0, "EST", Ghost(g))
        .step(-1125853200, -18000, 3600, "EDT", Ghost(g))
        .step(-1112551200, -18000, 0, "EST", Ghost(g))
        .step(-1094403600, -18000, 3600, "EDT", Ghost(g))
        .step(-1081101600, -18000, 0, "EST", Ghost(g))
        .step(-1062954000, -18000, 3600, "EDT", Ghost(g))
        .step(-1049652000, -18000, 0, "EST", Ghost(g))
        .step(-1031504400, -18000, 3600, "EDT", Ghost(g))
        .step(-1018202400, -18000, 0, "EST", Ghost(g))
        .step(-1000054800, -18000, 3600, "EDT", Ghost(g))
        .step(-986752800, -18000, 0, "EST", Ghost(g))
        .step(-968000400, -18000, 3600, "EDT", Ghost(g))
        .step(-955303200, -18000, 0, "EST", Ghost(g))
        .step(-936550800, -18000, 3600, "EDT", Ghost(g))
        .step(-923248800, -18000, 0, "EST", Ghost(g))
        .step(-905101200, -18000, 3600, "EDT", Ghost(g))
        .step(-891799200, -18000, 0, "EST", Ghost(g))
        .step(-880218000, -18000, 3600, "EWT", Ghost(g))
        .step(-769395600, -18000, 3600, "EPT", Ghost(g))
        .step(-765396000, -18000, 0, "EST", Ghost(g))
        .step(-747248400, -18000, 3600, "EDT", Ghost(g))
        .step(-733946400, -18000, 0, "EST", Ghost(g))
        .step(-715798800, -18000, 3600, "EDT", Ghost(g))
        .step(-702496800, -18000, 0, "EST", Ghost(g))
        .step(-684349200, -18000, 3600, "EDT", Ghost(g))
        .step(-671047200, -18000, 0, "EST", Ghost(g))
        .step(-652899600, -18000, 3600, "EDT", Ghost(g))
        .step(-639597600, -18000, 0, "EST", Ghost(g))
        .step(-620845200, -18000, 3600, "EDT", Ghost(g))
        .step(-608148000, -18000, 0, "EST", Ghost(g))
        .step(-589395600, -18000, 3600, "EDT", Ghost(g))
        .step(-576093600, -18000, 0, "EST", Ghost(g))
        .step(-557946000, -18000, 3600, "EDT", Ghost(g))
        .step(-544644000, -18000, 0, "EST", Ghost(g))
        .step(-526496400, -18000, 3600, "EDT", Ghost(g))
        .step(-513194400, -18000, 0, "EST", Ghost(g))
        .step(-495046800, -18000, 3600, "EDT", Ghost(g))
        .step(-481744800, -18000, 0, "EST", Ghost(g))
        .step(-463597200, -18000, 3600, "EDT", Ghost(g))
        .step(-447271200, -18000, 0, "EST", Ghost(g))
        .step(-431542800, -18000, 3600, "EDT", Ghost(g))
        .step(-415821600, -18000, 0, "EST", Ghost(g))
        .step(-400093200, -18000, 3600, "EDT", Ghost(g))
        .step(-384372000, -18000, 0, "EST", Ghost(g))
        .step(-368643600, -18000, 3600, "EDT", Ghost(g))
        .step(-352922400, -18000, 0, "EST", Ghost(g))
        .step(-337194000, -18000, 3600, "EDT", Ghost(g))
        .step(-321472800, -18000, 0, "EST", Ghost(g))
        .step(-305744400, -18000, 3600, "EDT", Ghost(g))
        .step(-289418400, -18000, 0, "EST", Ghost(g))
        .step(-273690000, -18000, 3600, "EDT", Ghost(g))
        .step(-257968800, -18000, 0, "EST", Ghost(g))
        .step(-242240400, -18000, 3600, "EDT", Ghost(g))
        .step(-226519200, -18000, 0, "EST", Ghost(g))
        .step(-210790800, -18000, 3600, "EDT", Ghost(g))
        .step(-195069600, -18000, 0, "EST", Ghost(g))
        .step(-179341200, -18000, 3600, "EDT", Ghost(g))
        .step(-163620000, -18000, 0, "EST", Ghost(g))
        .step(-147891600, -18000, 3600, "EDT", Ghost(g))
        .step(-131565600, -18000, 0, "EST", Ghost(g))
        .step(-116442000, -18000, 3600, "EDT", Ghost(g))
        .step(-100116000, -18000, 0, "EST", Ghost(g))
        .step(-84387600, -18000, 3600, "EDT", Ghost(g))
        .step(-68666400, -18000, 0, "EST", Ghost(g))
        .step(-52938000, -18000, 3600, "EDT", Ghost(g))
        .step(-37216800, -18000, 0, "EST", Ghost(g))
        .step(-21488400, -18000, 3600, "EDT", Ghost(g))
        .step(-5767200, -18000, 0, "EST", Ghost(g))
        .step(9961200, -18000, 3600, "EDT", Ghost(g))
        .step(25682400, -18000, 0, "EST", Ghost(g))
        .step(41410800, -18000, 3600, "EDT", Ghost(g))
        .step(57736800, -18000, 0, "EST", Ghost(g))
        .step(73465200, -18000, 3600, "EDT", Ghost(g))
        .step(89186400, -18000, 0, "EST", Ghost(g))
        .step(104914800, -18000, 3600, "EDT", Ghost(g))
        .step(120636000, -18000, 0, "EST", Ghost(g))
        .step(126687600, -18000, 3600, "EDT", Ghost(g))
        .step(152085600, -18000, 0, "EST", Ghost(g))
        .step(162370800, -18000, 3600, "EDT", Ghost(g))
        .step(183535200, -18000, 0, "EST", Ghost(g))
        .step(199263600, -18000, 3600, "EDT", Ghost(g))
        .step(215589600, -18000, 0, "EST", Ghost(g))
        .step(230713200, -18000, 3600, "EDT", Ghost(g))
        .step(247039200, -18000, 0, "EST", Ghost(g))
        .step(262767600, -18000, 3600, "EDT", Ghost(g))
        .step(278488800, -18000, 0, "EST", Ghost(g))
        .step(294217200, -18000, 3600, "EDT", Ghost(g))
        .step(309938400, -18000, 0, "EST", Ghost(g))
        .step(325666800, -18000, 3600, "EDT", Ghost(g))
        .step(341388000, -18000, 0, "EST", Ghost(g))
        .step(357116400, -18000, 3600, "EDT", Ghost(g))
        .step(372837600, -18000, 0, "EST", Ghost(g))
        .step(388566000, -18000, 3600, "EDT", Ghost(g))
        .step(404892000, -18000, 0, "EST", Ghost(g))
        .step(420015600, -18000, 3600, "EDT", Ghost(g))
        .step(436341600, -18000, 0, "EST", Ghost(g))
        .step(452070000, -18000, 3600, "EDT", Ghost(g))
        .step(467791200, -18000, 0, "EST", Ghost(g))
        .step(483519600, -18000, 3600, "EDT", Ghost(g))
        .step(499240800, -18000, 0, "EST", Ghost(g))
        .step(514969200, -18000, 3600, "EDT", Ghost(g))
        .step(530690400, -18000, 0, "EST", Ghost(g))
        .step(544604400, -18000, 3600, "EDT", Ghost(g))
        .step(562140000, -18000, 0, "EST", Ghost(g))
        .step(576054000, -18000, 3600, "EDT", Ghost(g))
        .step(594194400, -18000, 0, "EST", Ghost(g))
        .step(607503600, -18000, 3600, "EDT", Ghost(g))
        .step(625644000, -18000, 0, "EST", Ghost(g))
        .step(638953200, -18000, 3600, "EDT", Ghost(g))
        .step(657093600, -18000, 0, "EST", Ghost(g))
        .step(671007600, -18000, 3600, "EDT", Ghost(g))
        .step(688543200, -18000, 0, "EST", Ghost(g))
        .step(702457200, -18000, 3600, "EDT", Ghost(g))
        .step(719992800, -18000, 0, "EST", Ghost(g))
        .step(733906800, -18000, 3600, "EDT", Ghost(g))
        .step(752047200, -18000, 0, "EST", Ghost(g))
        .step(765356400, -18000, 3600, "EDT", Ghost(g))
        .step(783496800, -18000, 0, "EST", Ghost(g))
        .step(796806000, -18000, 3600, "EDT", Ghost(g))
        .step(814946400, -18000, 0, "EST", Ghost(g))
        .step(828860400, -18000, 3600, "EDT", Ghost(g))
        .step(846396000, -18000, 0, "EST", Ghost(g))
        .step(860310000, -18000, 3600, "EDT", Ghost(g))
        .step(877845600, -18000, 0, "EST", Ghost(g))
        .step(891759600, -18000, 3600, "EDT", Ghost(g))
        .step(909295200, -18000, 0, "EST", Ghost(g))
        .step(923209200, -18000, 3600, "EDT", Ghost(g))
        .step(941349600, -18000, 0, "EST", Ghost(g))
        .step(954658800, -18000, 3600, "EDT", Ghost(g))
        .step(972799200, -18000, 0, "EST", Ghost(g))
        .step(986108400, -18000, 3600, "EDT", Ghost(g))
        .step(1004248800, -18000, 0, "EST", Ghost(g))
        .step(1018162800, -18000, 3600, "EDT", Ghost(g))
        .step(1035698400, -18000, 0, "EST", Ghost(g))
        .step(1049612400, -18000, 3600, "EDT", Ghost(g))
        .step(1067148000, -18000, 0, "EST", Ghost(g))
        .step(1081062000, -18000, 3600, "EDT", Ghost(g))
        .step(1099202400, -18000, 0, "EST", Ghost(g))
        .step(1112511600, -18000, 3600, "EDT", Ghost(g))
        .step(1130652000, -18000, 0, "EST", Ghost(g))
        .step(1143961200, -18000, 3600, "EDT", Ghost(g))
        .step(1162101600, -18000, 0, "EST", Ghost(g))
        .step(1173596400, -18000, 3600, "EDT", Ghost(g))
        .step(1194156000, -18000, 0, "EST", Ghost(g))
        .step(1205046000, -18000, 3600, "EDT", Ghost(g))
        .step(1225605600, -18000, 0, "EST", Ghost(g))
        .step(1236495600, -18000, 3600, "EDT", Ghost(g))
        .step(1257055200, -18000, 0, "EST", Ghost(g))
        .step(1268550000, -18000, 3600, "EDT", Ghost(g))
        .step(1289109600, -18000, 0, "EST", Ghost(g))
        .step(1299999600, -18000, 3600, "EDT", Ghost(g))
        .step(1320559200, -18000, 0, "EST", Ghost(g))
        .step(1331449200, -18000, 3600, "EDT", Ghost(g))
        .step(1352008800, -18000, 0, "EST", Ghost(g))
        .step(1362898800, -18000, 3600, "EDT", Ghost(g))
        .step(1383458400, -18000, 0, "EST", Ghost(g))
        .step(1394348400, -18000, 3600, "EDT", Ghost(g))
        .step(1414908000, -18000, 0, "EST", Ghost(g))
        .step(1425798000, -18000, 3600, "EDT", Ghost(g))
        .step(1446357600, -18000, 0, "EST", Ghost(g))
        .step(1457852400, -18000, 3600, "EDT", Ghost(g))
        .step(1478412000, -18000, 0, "EST", Ghost(g))
        .step(1489302000, -18000, 3600, "EDT", Ghost(g))
        .step(1509861600, -18000, 0, "EST", Ghost(g))
        .step(1520751600, -18000, 3600, "EDT", Ghost(g))
        .step(1541311200, -18000, 0, "EST", Ghost(g))
        .step(1552201200, -18000, 3600, "EDT", Ghost(g))
        .step(1572760800, -18000, 0, "EST", Ghost(g))
        .step(1583650800, -18000, 3600, "EDT", Ghost(g))
        .step(1604210400, -18000, 0, "EST", Ghost(g))
        .step(1615705200, -18000, 3600, "EDT", Ghost(g))
        .step(1636264800, -18000, 0, "EST", Ghost(g))
        .step(1647154800, -18000, 3600, "EDT", Ghost(g))
        .step(1667714400, -18000, 0, "EST", Ghost(g))
        .step(1678604400, -18000, 3600, "EDT", Ghost(g))
        .step(1699164000, -18000, 0, "EST", Ghost(g))
        .step(1710054000, -18000, 3600, "EDT", Ghost(g))
        .step(1730613600, -18000, 0, "EST", Ghost(g))
        .step(1741503600, -18000, 3600, "EDT", Ghost(g))
        .step(1762063200, -18000, 0, "EST", Ghost(g))
        .step(1772953200, -18000, 3600, "EDT", Ghost(g))
        .step(1793512800, -18000, 0, "EST", Ghost(g))
        .step(1805007600, -18000, 3600, "EDT", Ghost(g))
        .step(1825567200, -18000, 0, "EST", Ghost(g))
        .step(1836457200, -18000, 3600, "EDT", Ghost(g))
        .step(1857016800, -18000, 0, "EST", Ghost(g))
        .step(1867906800, -18000, 3600, "EDT", Ghost(g))
        .step(1888466400, -18000, 0, "EST", Ghost(g))
        .step(1899356400, -18000, 3600, "EDT", Ghost(g))
        .step(1919916000, -18000, 0, "EST", Ghost(g))
        .step(1930806000, -18000, 3600, "EDT", Ghost(g))
        .step(1951365600, -18000, 0, "EST", Ghost(g))
        .step(1962860400, -18000, 3600, "EDT", Ghost(g))
        .step(1983420000, -18000, 0, "EST", Ghost(g))
        .step(1994310000, -18000, 3600, "EDT", Ghost(g))
        .step(2014869600, -18000, 0, "EST", Ghost(g))
        .step(2025759600, -18000, 3600, "EDT", Ghost(g))
        .step(2046319200, -18000, 0, "EST", Ghost(g))
        .step(2057209200, -18000, 3600, "EDT", Ghost(g))
        .step(2077768800, -18000, 0, "EST", Ghost(g))
        .step(2088658800, -18000, 3600, "EDT", Ghost(g))
        .step(2109218400, -18000, 0, "EST", Ghost(g))
        .step(2120108400, -18000, 3600, "EDT", Ghost(g))
        .step(2140668000, -18000, 0, "EST", Ghost(g))
        .finish(Ghost(g))
}

/// The zone `America/Nipigon`.
pub fn nipigon() -> (r: Tz)
    ensures
        r.wf(),
        r.zone_name() == "America/Nipigon"@,
        r.table() == tables::america::nipigon(),
{
    let ghost g = tables::america::nipigon_rows();
    FixedTimespanSet::begin("America/Nipigon", -19052, 0, "LMT", Ghost(g))
        .step(-2366736148, -18000, 0, "EST", Ghost(g))
        .step(-1632070800, -18000, 3600, "EDT", Ghost(g))
        .step(-1615140000, -18000, 0, "EST", Ghost(g))
        .step(-1601753400, -18000, 3600, "EDT", Ghost(g))
        .step(-1583697600, -18000, 0, "EST", Ghost(g))
        .step(-1567357200, -18000, 3600, "EDT", Ghost(g))
        .step(-1554667200, -18000, 0, "EST", Ghost(g))
        .step(-1534698000, -18000, 3600, "EDT", Ghost(g))
        .step(-1524074400, -18000, 0, "EST", Ghost(g))
        .step(-1503248400, -18000, 3600, "EDT", Ghost(g))
        .step(-1492365600, -18000, 0, "EST", Ghost(g))
        .step(-1471798800, -18000, 3600, "EDT", Ghost(g))
        .step(-1460916000, -18000, 0, "EST", Ghost(g))
        .step(-1440954000, -18000, 3600, "EDT", Ghost(g))
        .step(-1428861600, -18000, 0, "EST", Ghost(g))
        .step(-1409504400, -18000, 3600, "EDT", Ghost(g))
        .step(-1397412000, -18000, 0, "EST", Ghost(g))
        .step(-1378054800, -18000, 3600, "EDT", Ghost(g))
        .step(-1365962400, -18000, 0, "EST", Ghost(g))
        .step(-1346605200, -18000, 3600, "EDT", Ghost(g))
        .step(-1333908000, -18000, 0, "EST", Ghost(g))
        .step(-1315155600, -18000, 3600, "EDT", Ghost(g))
        .step(-1301853600, -18000, 0, "EST", Ghost(g))
        .step(-1283706000, -18000, 3600, "EDT", Ghost(g))
        .step(-1270404000, -18000, 0, "EST", Ghost(g))
        .step(-1252256400, -18000, 3600, "EDT", Ghost(g))
        .step(-1238954400, -18000, 0, "EST", Ghost(g))
        .step(-1220806800, -18000, 3600, "EDT", Ghost(g))
        .step(-1207504800, -18000, 0, "EST", Ghost(g))
        .step(-1188752400, -18000, 3600, "EDT", Ghost(g))
        .step(-1176055200, -18000, 0, "EST", Ghost(g))
        .step(-1157302800, -18000, 3600, "EDT", Ghost(g))
        .step(-1144000800, -18000, 0, "EST", Ghost(g))
        .step(-1125853200, -18000, 3600, "EDT", Ghost(g))
        .step(-1112551200, -18000, 0, "EST", Ghost(g))
        .step(-1094403600, -18000, 3600, "EDT", Ghost(g))
        .step(-1081101600, -18000, 0, "EST", Ghost(g))
        .step(-1062954000, -18000, 3600, "EDT", Ghost(g))
        .step(-1049652000, -18000, 0, "EST", Ghost(g))
        .step(-1031504400, -18000, 3600, "EDT", Ghost(g))
        .step(-1018202400, -18000, 0, "EST", Ghost(g))
        .step(-1000054800, -18000, 3600, "EDT", Ghost(g))
        .step(-986752800, -18000, 0, "EST", Ghost(g))
        .step(-968000400, -18000, 3600, "EDT", Ghost(g))
        .step(-955303200, -18000, 0, "EST", Ghost(g))
        .step(-936550800, -18000, 3600, "EDT", Ghost(g))
        .step(-880218000, -18000, 3600, "EWT", Ghost(g))
        .step(-769395600, -18000, 3600, "EPT", Ghost(g))
        .step(-765396000, -18000, 0, "EST", Ghost(g))
        .step(-747248400, -18000, 3600, "EDT", Ghost(g))
        .step(-733946400, -18000, 0, "EST", Ghost(g))
        .step(-715798800, -18000, 3600, "EDT", Ghost(g))
        .step(-702496800, -18000, 0, "EST", Ghost(g))
        .step(-684349200, -18000, 3600, "EDT", Ghost(g))
        .step(-671047200, -18000, 0, "EST", Ghost(g))
        .step(-652899600, -18000, 3600, "EDT", Ghost(g))
        .step(-634154400, -18000, 0, "EST", Ghost(g))
        .step(-620845200, -18000, 3600, "EDT", Ghost(g))
        .step(-602704800, -18000, 0, "EST", Ghost(g))
        .step(-589395600, -18000, 3600, "EDT", Ghost(g))
        .step(-576093600, -18000, 0, "EST", Ghost(g))
        .step(-557946000, -18000, 3600, "EDT", Ghost(g))
        .step(-544644000, -18000, 0, "EST", Ghost(g))
        .step(-526496400, -18000, 3600, "EDT", Ghost(g))
        .step(-513194400, -18000, 0, "EST", Ghost(g))
        .step(-495046800, -18000, 3600, "EDT", Ghost(g))
        .step(-481744800, -18000, 0, "EST", Ghost(g))
        .step(-463597200, -18000, 3600, "EDT", Ghost(g))
        .step(-450295200, -18000, 0, "EST", Ghost(g))
        .step(-431542800, -18000, 3600, "EDT", Ghost(g))
        .step(-418240800, -18000, 0, "EST", Ghost(g))
        .step(-400093200, -18000, 3600, "EDT", Ghost(g))
        .step(-384372000, -18000, 0, "EST", Ghost(g))
        .step(-368643600, -18000, 3600, "EDT", Ghost(g))
        .step(-352922400, -18000, 0, "EST", Ghost(g))
        .step(-337194000, -18000, 3600, "EDT", Ghost(g))
        .step(-321472800, -18000, 0, "EST", Ghost(g))
        .step(-305744400, -18000, 3600, "EDT", Ghost(g))
        .step(-289418400, -18000, 0, "EST", Ghost(g))
        .step(-273690000, -18000, 3600, "EDT", Ghost(g))
        .step(-257968800, -18000, 0, "EST", Ghost(g))
        .step(-242240400, -18000, 3600, "EDT", Ghost(g))
        .step(-226519200, -18000, 0, "EST", Ghost(g))
        .step(-210790800, -18000, 3600, "EDT", Ghost(g))
        .step(-195069600, -18000, 0, "EST", Ghost(g))
        .step(-179341200, -18000, 3600, "EDT", Ghost(g))
        .step(-163620000, -18000, 0, "EST", Ghost(g))
        .step(-147891600, -18000, 3600, "EDT", Ghost(g))
        .step(-131565600, -18000, 0, "EST", Ghost(g))
        .step(-116442000, -18000, 3600, "EDT", Ghost(g))
        .step(-100116000, -18000, 0, "EST", Ghost(g))
        .step(-84387600, -18000, 3600, "EDT", Ghost(g))
        .step(-68666400, -18000, 0, "EST", Ghost(g))
        .step(-52938000, -18000, 3600, "EDT", Ghost(g))
        .step(-37216800, -18000, 0, "EST", Ghost(g))
        .step(-21488400, -18000, 3600, "EDT", Ghost(g))
        .step(-5767200, -18000, 0, "EST", Ghost(g))
        .step(9961200, -18000, 3600, "EDT", Ghost(g))
        .step(25682400, -18000, 0, "EST", Ghost(g))
        .step(41410800, -18000, 3600, "EDT", Ghost(g))
        .step(57736800, -18000, 0, "EST", Ghost(g))
        .step(73465200, -18000, 3600, "EDT", Ghost(g))
        .step(89186400, -18000, 0, "EST", Ghost(g))
        .step(104914800, -18000, 3600, "EDT", Ghost(g))
        .step(120636000, -18000, 0, "EST", Ghost(g))
        .step(136364400, -18000, 3600, "EDT", Ghost(g))
        .step(152085600, -18000, 0, "EST", Ghost(g))
        .step(167814000, -18000, 3600, "EDT", Ghost(g))
        .step(183535200, -18000, 0, "EST", Ghost(g))
        .step(199263600, -18000, 3600, "EDT", Ghost(g))
        .step(215589600, -18000, 0, "EST", Ghost(g))
        .step(230713200, -18000, 3600, "EDT", Ghost(g))
        .step(247039200, -18000, 0, "EST", Ghost(g))
        .step(262767600, -18000, 3600, "EDT", Ghost(g))
        .step(278488800, -18000, 0, "EST", Ghost(g))
        .step(294217200, -18000, 3600, "EDT", Ghost(g))
        .step(309938400, -18000, 0, "EST", Ghost(g))
        .step(325666800, -18000, 3600, "EDT", Ghost(g))
        .step(341388000, -18000, 0, "EST", Ghost(g))
        .step(357116400, -18000, 3600, "EDT", Ghost(g))
        .step(372837600, -18000, 0, "EST", Ghost(g))
        .step(388566000, -18000, 3600, "EDT", Ghost(g))
        .step(404892000, -18000, 0, "EST", Ghost(g))
        .step(420015600, -18000, 3600, "EDT", Ghost(g))
        .step(436341600, -18000, 0, "EST", Ghost(g))
        .step(452070000, -18000, 3600, "EDT", Ghost(g))
        .step(467791200, -18000, 0, "EST", Ghost(g))
        .step(483519600, -18000, 3600, "EDT", Ghost(g))
        .step(499240800, -18000, 0, "EST", Ghost(g))
        .step(514969200, -18000, 3600, "EDT", Ghost(g))
        .step(530690400, -18000, 0, "EST", Ghost(g))
        .step(544604400, -18000, 3600, "EDT", Ghost(g))
        .step(562140000, -18000, 0, "EST", Ghost(g))
        .step(576054000, -18000, 3600, "EDT", Ghost(g))
        .step(594194400, -18000, 0, "EST", Ghost(g))
        .step(607503600, -18000, 3600, "EDT", Ghost(g))
        .step(625644000, -18000, 0, "EST", Ghost(g))
        .step(638953200, -18000, 3600, "EDT", Ghost(g))
        .step(657093600, -18000, 0, "EST", Ghost(g))
        .step(671007600, -18000, 3600, "EDT", Ghost(g))
        .step(688543200, -18000, 0, "EST", Ghost(g))
        .step(702457200, -18000, 3600, "EDT", Ghost(g))
        .step(719992800, -18000, 0, "EST", Ghost(g))
        .step(733906800, -18000, 3600, "EDT", Ghost(g))
        .step(752047200, -18000, 0, "EST", Ghost(g))
        .step(765356400, -18000, 3600, "EDT", Ghost(g))
        .step(783496800, -18000, 0, "EST", Ghost(g))
        .step(796806000, -18000, 3600, "EDT", Ghost(g))
        .step(814946400, -18000, 0, "EST", Ghost(g))
        .step(828860400, -18000, 3600, "EDT", Ghost(g))
        .step(846396000, -18000, 0, "EST", Ghost(g))
        .step(860310000, -18000, 3600, "EDT", Ghost(g))
        .step(877845600, -18000, 0, "EST", Ghost(g))
        .step(891759600, -18000, 3600, "EDT", Ghost(g))
        .step(909295200, -18000, 0, "EST", Ghost(g))
        .step(923209200, -18000, 3600, "EDT", Ghost(g))
        .step(941349600, -18000, 0, "EST", Ghost(g))
        .step(954658800, -18000, 3600, "EDT", Ghost(g))
        .step(972799200, -18000, 0, "EST", Ghost(g))
        .step(986108400, -18000, 3600, "EDT", Ghost(g))
        .step(1004248800, -18000, 0, "EST", Ghost(g))
        .step(1018162800, -18000, 3600, "EDT", Ghost(g))
        .step(1035698400, -18000, 0, "EST", Ghost(g))
        .step(1049612400, -18000, 3600, "EDT", Ghost(g))
        .step(1067148000, -18000, 0, "EST", Ghost(g))
        .step(1081062000, -18000, 3600, "EDT", Ghost(g))
        .step(1099202400, -18000, 0, "EST", Ghost(g))
        .step(1112511600, -18000, 3600, "EDT", Ghost(g))
        .step(1130652000, -18000, 0, "EST", Ghost(g))
        .step(1143961200, -18000, 3600, "EDT", Ghost(g))
        .step(1162101600, -18000, 0, "EST", Ghost(g))
        .step(1173596400, -18000, 3600, "EDT", Ghost(g))
        .step(1194156000, -18000, 0, "EST", Ghost(g))
        .step(1205046000, -18000, 3600, "EDT", Ghost(g))
        .step(1225605600, -18000, 0, "EST", Ghost(g))
        .step(1236495600, -18000, 3600, "EDT", Ghost(g))
        .step(1257055200, -18000, 0, "EST", Ghost(g))
        .step(1268550000, -18000, 3600, "EDT", Ghost(g))
        .step(1289109600, -18000, 0, "EST", Ghost(g))
        .step(1299999600, -18000, 3600, "EDT", Ghost(g))
        .step(1320559200, -18000, 0, "EST", Ghost(g))
        .step(1331449200, -18000, 3600, "EDT", Ghost(g))
        .step(1352008800, -18000, 0, "EST", Ghost(g))
        .step(1362898800, -18000, 3600, "EDT", Ghost(g))
        .step(1383458400, -18000, 0, "EST", Ghost(g))
        .step(1394348400, -18000, 3600, "EDT", Ghost(g))
        .step(1414908000, -18000, 0, "EST", Ghost(g))
        .step(1425798000, -18000, 3600, "EDT", Ghost(g))
        .step(1446357600, -18000, 0, "EST", Ghost(g))
        .step(1457852400, -18000, 3600, "EDT", Ghost(g))
        .step(1478412000, -18000, 0, "EST", Ghost(g))
        .step(1489302000, -18000, 3600, "EDT", Ghost(g))
        .step(1509861600, -18000, 0, "EST", Ghost(g))
        .step(1520751600, -18000, 3600, "EDT", Ghost(g))
        .step(1541311200, -18000, 0, "EST", Ghost(g))
        .step(1552201200, -18000, 3600, "EDT", Ghost(g))
        .step(1572760800, -18000, 0, "EST", Ghost(g))
        .step(1583650800, -18000, 3600, "EDT", Ghost(g))
        .step(1604210400, -18000, 0, "EST", Ghost(g))
        .step(1615705200, -18000, 3600, "EDT", Ghost(g))
        .step(1636264800, -18000, 0, "EST", Ghost(g))
        .step(1647154800, -18000, 3600, "EDT", Ghost(g))
        .step(1667714400, -18000, 0, "EST", Ghost(g))
        .step(1678604400, -18000, 3600, "EDT", Ghost(g))
        .step(1699164000, -18000, 0, "EST", Ghost(g))
        .step(1710054000, -18000, 3600, "EDT", Ghost(g))
        .step(1730613600, -18000, 0, "EST", Ghost(g))
        .step(1741503600, -18000, 3600, "EDT", Ghost(g))
        .step(1762063200, -18000, 0, "EST", Ghost(g))
        .step(1772953200, -18000, 3600, "EDT", Ghost(g))
        .step(1793512800, -18000, 0, "EST", Ghost(g))
        .step(1805007600, -18000, 3600, "EDT", Ghost(g))
        .step(1825567200, -18000, 0, "EST", Ghost(g))
        .step(1836457200, -18000, 3600, "EDT", Ghost(g))
        .step(1857016800, -18000, 0, "EST", Ghost(g))
        .step(1867906800, -18000, 3600, "EDT", Ghost(g))
        .step(1888466400, -18000, 0, "EST", Ghost(g))
        .step(1899356400, -18000, 3600, "EDT", Ghost(g))
        .step(1919916000, -18000, 0, "EST", Ghost(g))
        .step(1930806000, -18000, 3600, "EDT", Ghost(g))
        .step(1951365600, -18000, 0, "EST", Ghost(g))
        .step(1962860400, -18000, 3600, "EDT", Ghost(g))
        .step(1983420000, -18000, 0, "EST", Ghost(g))
        .step(1994310000, -18000, 3600, "EDT", Ghost(g))
        .step(2014869600, -18000, 0, "EST", Ghost(g))
        .step(2025759600, -18000, 3600, "EDT", Ghost(g))
        .step(2046319200, -18000, 0, "EST", Ghost(g))
        .step(2057209200, -18000, 3600, "EDT", Ghost(g))
        .step(2077768800, -18000, 0, "EST", Ghost(g))
        .step(2088658800, -18000, 3600, "EDT", Ghost(g))
        .step(2109218400, -18000, 0, "EST", Ghost(g))
        .step(2120108400, -18000, 3600, "EDT", Ghost(g))
        .step(2140668000, -18000, 0, "EST", Ghost(g))
        .finish(Ghost(g))
}

/// The zone `America/Nome`.
pub fn nome() -> (r: Tz)
    ensures
        r.wf(),
        r.zone_name() == "America/Nome"@,
        r.table() == tables::america::nome(),
{
    let ghost g = tables::america::nome_rows();
    FixedTimespanSet::begin("America/Nome", 46702, 0, "LMT", Ghost(g))
        .step(-3225223727, -39698, 0, "LMT", Ghost(g))
        .step(-2188947502, -39600, 0, "NST", Ghost(g))
        .step(-880196400, -39600, 3600, "NWT", Ghost(g))
        .step(-769395600, -39600, 3600, "NPT", Ghost(g))
        .step(-765374400, -39600, 0, "NST", Ghost(g))
        .step(-86878800, -39600, 0, "BST", Ghost(g))
        .step(-21466800, -39600, 3600, "BDT", Ghost(g))
        .step(-5745600, -39600, 0, "BST", Ghost(g))
        .step(9982800, -39600, 3600, "BDT", Ghost(g))
        .step(25704000, -39600, 0, "BST", Ghost(g))
        .step(41432400, -39600, 3600, "BDT", Ghost(g))
        .step(57758400, -39600, 0, "BST", Ghost(g))
        .step(73486800, -39600, 3600, "BDT", Ghost(g))
        .step(89208000, -39600, 0, "BST", Ghost(g))
        .step(104936400, -39600, 3600, "BDT", Ghost(g))
        .step(120657600, -39600, 0, "BST", Ghost(g))
        .step(126709200, -39600, 3600, "BDT", Ghost(g))
        .step(152107200, -39600, 0, "BST", Ghost(g))
        .step(162392400, -39600, 3600, "BDT", Ghost(g))
        .step(183556800, -39600, 0, "BST", Ghost(g))
        .step(199285200, -39600, 3600, "BDT", Ghost(g))
        .step(215611200, -39600, 0, "BST", Ghost(g))
        .step(230734800, -39600, 3600, "BDT", Ghost(g))
        .step(247060800, -39600, 0, "BST", Ghost(g))
        .step(262789200, -39600, 3600, "BDT", Ghost(g))
        .step(278510400, -39600, 0, "BST", Ghost(g))
        .step(294238800, -39600, 3600, "BDT", Ghost(g))
        .step(309960000, -39600, 0, "BST", Ghost(g))
        .step(325688400, -39600, 3600, "BDT", Ghost(g))
        .step(341409600, -39600, 0, "BST", Ghost(g))
        .step(357138000, -39600, 3600, "BDT", Ghost(g))
        .step(372859200, -39600, 0, "BST", Ghost(g))
        .step(388587600, -39600, 3600, "BDT", Ghost(g))
        .step(404913600, -39600, 0, "BST", Ghost(g))
        .step(420037200, -39600, 3600, "BDT", Ghost(g))
        .step(436363200, -32400, 0, "YST", Ghost(g))
        .step(439030800, -32400, 0, "AKST", Ghost(g))
        .step(452084400, -32400, 3600, "AKDT", Ghost(g))
        .step(467805600, -32400, 0, "AKST", Ghost(g))
        .step(483534000, -32400, 3600, "AKDT", Ghost(g))
        .step(499255200, -32400, 0, "AKST", Ghost(g))
        .step(514983600, -32400, 3600, "AKDT", Ghost(g))
        .step(530704800, -32400, 0, "AKST", Ghost(g))
        .step(544618800, -32400, 3600, "AKDT", Ghost(g))
        .step(562154400, -32400, 0, "AKST", Ghost(g))
        .step(576068400, -32400, 3600, "AKDT", Ghost(g))
        .step(594208800, -32400, 0, "AKST", Ghost(g))
        .step(607518000, -32400, 3600, "AKDT", Ghost(g))
        .step(625658400, -32400, 0, "AKST", Ghost(g))
        .step(638967600, -32400, 3600, "AKDT", Ghost(g))
        .step(657108000, -32400, 0, "AKST", Ghost(g))
        .step(671022000, -32400, 3600, "AKDT", Ghost(g))
        .step(688557600, -32400, 0, "AKST", Ghost(g))
        .step(702471600, -32400, 3600, "AKDT", Ghost(g))
        .step(720007200, -32400, 0, "AKST", Ghost(g))
        .step(733921200, -32400, 3600, "AKDT", Ghost(g))
        .step(752061600, -32400, 0, "AKST", Ghost(g))
        .step(765370800, -32400, 3600, "AKDT", Ghost(g))
        .step(783511200, -32400, 0, "AKST", Ghost(g))
        .step(796820400, -32400, 3600, "AKDT", Ghost(g))
        .step(814960800, -32400, 0, "AKST", Ghost(g))
        .step(828874800, -32400, 3600, "AKDT", Ghost(g))
        .step(846410400, -32400, 0, "AKST", Ghost(g))
        .step(860324400, -32400, 3600, "AKDT", Ghost(g))
        .step(877860000, -32400, 0, "AKST", Ghost(g))
        .step(891774000, -32400, 3600, "AKDT", Ghost(g))
        .step(909309600, -32400, 0, "AKST", Ghost(g))
        .step(923223600, -32400, 3600, "AKDT", Ghost(g))
        .step(941364000, -32400, 0, "AKST", Ghost(g))
        .step(954673200, -32400, 3600, "AKDT", Ghost(g))
        .step(972813600, -32400, 0, "AKST", Ghost(g))
        .step(986122800, -32400, 3600, "AKDT", Ghost(g))
        .step(1004263200, -32400, 0, "AKST", Ghost(g))
        .step(1018177200, -32400, 3600, "AKDT", Ghost(g))
        .step(1035712800, -32400, 0, "AKST", Ghost(g))
        .step(1049626800, -32400, 3600, "AKDT", Ghost(g))
        .step(1067162400, -32400, 0, "AKST", Ghost(g))
        .step(1081076400, -32400, 3600, "AKDT", Ghost(g))
        .step(1099216800, -32400, 0, "AKST", Ghost(g))
        .step(1112526000, -32400, 3600, "AKDT", Ghost(g))
        .step(1130666400, -32400, 0, "AKST", Ghost(g))
        .step(1143975600, -32400, 3600, "AKDT", Ghost(g))
        .step(1162116000, -32400, 0, "AKST", Ghost(g))
        .step(1173610800, -32400, 3600, "AKDT", Ghost(g))
        .step(1194170400, -32400, 0, "AKST", Ghost(g))
        .step(1205060400, -32400, 3600, "AKDT", Ghost(g))
        .step(1225620000, -32400, 0, "AKST", Ghost(g))
        .step(1236510000, -32400, 3600, "AKDT", Ghost(g))
        .step(1257069600, -32400, 0, "AKST", Ghost(g))
        .step(1268564400, -32400, 3600, "AKDT", Ghost(g))
        .step(1289124000, -32400, 0, "AKST", Ghost(g))
        .step(1300014000, -32400, 3600, "AKDT", Ghost(g))
        .step(1320573600, -32400, 0, "AKST", Ghost(g))
        .step(1331463600, -32400, 3600, "AKDT", Ghost(g))
        .step(1352023200, -32400, 0, "AKST", Ghost(g))
        .step(1362913200, -32400, 3600, "AKDT", Ghost(g))
        .step(1383472800, -32400, 0, "AKST", Ghost(g))
        .step(1394362800, -32400, 3600, "AKDT", Ghost(g))
        .step(1414922400, -32400, 0, "AKST", Ghost(g))
        .step(1425812400, -32400, 3600, "AKDT", Ghost(g))
        .step(1446372000, -32400, 0, "AKST", Ghost(g))
        .step(1457866800, -32400, 3600, "AKDT", Ghost(g))
        .step(1478426400, -32400, 0, "AKST", Ghost(g))
        .step(1489316400, -32400, 3600, "AKDT", Ghost(g))
        .step(1509876000, -32400, 0, "AKST", Ghost(g))
        .step(1520766000, -32400, 3600, "AKDT", Ghost(g))
        .step(1541325600, -32400, 0, "AKST", Ghost(g))
        .step(1552215600, -32400, 3600, "AKDT", Ghost(g))
        .step(1572775200, -32400, 0, "AKST", Ghost(g))
        .step(1583665200, -32400, 3600, "AKDT", Ghost(g))
        .step(1604224800, -32400, 0, "AKST", Ghost(g))
        .step(1615719600, -32400, 3600, "AKDT", Ghost(g))
        .step(1636279200, -32400, 0, "AKST", Ghost(g))
        .step(1647169200, -32400, 3600, "AKDT", Ghost(g))
        .step(1667728800, -32400, 0, "AKST", Ghost(g))
        .step(1678618800, -32400, 3600, "AKDT", Ghost(g))
        .step(1699178400, -32400, 0, "AKST", Ghost(g))
        .step(1710068400, -32400, 3600, "AKDT", Ghost(g))
        .step(1730628000, -32400, 0, "AKST", Ghost(g))
        .step(1741518000, -32400, 3600, "AKDT", Ghost(g))
        .step(1762077600, -32400, 0, "AKST", Ghost(g))
        .step(1772967600, -32400, 3600, "AKDT", Ghost(g))
        .step(1793527200, -32400, 0, "AKST", Ghost(g))
        .step(1805022000, -32400, 3600, "AKDT", Ghost(g))
        .step(1825581600, -32400, 0, "AKST", Ghost(g))
        .step(1836471600, -32400, 3600, "AKDT", Ghost(g))
        .step(1857031200, -32400, 0, "AKST", Ghost(g))
        .step(1867921200, -32400, 3600, "AKDT", Ghost(g))
        .step(1888480800, -32400, 0, "AKST", Ghost(g))
        .step(1899370800, -32400, 3600, "AKDT", Ghost(g))
        .step(1919930400, -32400, 0, "AKST", Ghost(g))
        .step(1930820400, -32400, 3600, "AKDT", Ghost(g))
        .step(1951380000, -32400, 0, "AKST", Ghost(g))
        .step(1962874800, -32400, 3600, "AKDT", Ghost(g))
        .step(1983434400, -32400, 0, "AKST", Ghost(g))
        .step(1994324400, -32400, 3600, "AKDT", Ghost(g))
        .step(2014884000, -32400, 0, "AKST", Ghost(g))
        .step(2025774000, -32400, 3600, "AKDT", Ghost(g))
        .step(2046333600, -32400, 0, "AKST", Ghost(g))
        .step(2057223600, -32400, 3600, "AKDT", Ghost(g))
        .step(2077783200, -32400, 0, "AKST", Ghost(g))
        .step(2088673200, -32400, 3600, "AKDT", Ghost(g))
        .step(2109232800, -32400, 0, "AKST", Ghost(g))
        .step(2120122800, -32400, 3600, "AKDT", Ghost(g))
        .step(2140682400, -32400, 0, "AKST", Ghost(g))
        .finish(Ghost(g))
}

/// The zone `America/Noronha`.
pub fn noronha() -> (r: Tz)
    ensures
        r.wf(),
        r.zone_name() == "America/Noronha"@,
        r.table() == tables::america::noronha(),
{
    let ghost g = tables::america::noronha_rows();
    FixedTimespanSet::begin("America/Noronha", -7780, 0, "LMT", Ghost(g))
        .step(-1767217820, -7200, 0, "-02", Ghost(g))
        .step(-1206961200, -7200, 3600, "-01", Ghost(g))
        .step(-1191366000, -7200, 0, "-02", Ghost(g))
        .step(-1175378400, -7200, 3600, "-01", Ghost(g))
        .step(-1159830000, -7200, 0, "-02", Ghost(g))
        .step(-633823200, -7200, 3600, "-01", Ghost(g))
        .step(-622072800, -7200, 0, "-02", Ghost(g))
        .step(-602287200, -7200, 3600, "-01", Ghost(g))
        .step(-591836400, -7200, 0, "-02", Ghost(g))
        .step(-570751200, -7200, 3600, "-01", Ghost(g))
        .step(-560214000, -7200, 0, "-02", Ghost(g))
        .step(-539128800, -7200, 3600, "-01", Ghost(g))
        .step(-531356400, -7200, 0, "-02", Ghost(g))
        .step(-191368800, -7200, 3600, "-01", Ghost(g))
        .step(-184201200, -7200, 0, "-02", Ghost(g))
        .step(-155167200, -7200, 3600, "-01", Ghost(g))
        .step(-150073200, -7200, 0, "-02", Ghost(g))
        .step(-128901600, -7200, 3600, "-01", Ghost(g))
        .step(-121129200, -7200, 0, "-02", Ghost(g))
        .step(-99957600, -7200, 3600, "-01", Ghost(g))
        .step(-89593200, -7200, 0, "-02", Ghost(g))
        .step(-68421600, -7200, 3600, "-01", Ghost(g))
        .step(-57970800, -7200, 0, "-02", Ghost(g))
        .step(499744800, -7200, 3600, "-01", Ghost(g))
        .step(511232400, -7200, 0, "-02", Ghost(g))
        .step(530589600, -7200, 3600, "-01", Ghost(g))
        .step(540262800, -7200, 0, "-02", Ghost(g))
        .step(562125600, -7200, 3600, "-01", Ghost(g))
        .step(571194000, -7200, 0, "-02", Ghost(g))
        .step(592970400, -7200, 3600, "-01", Ghost(g))
        .step(602038800, -7200, 0, "-02", Ghost(g))
        .step(624420000, -7200, 3600, "-01", Ghost(g))
        .step(634698000, -7200, 0, "-02", Ghost(g))
        .step(938916000, -7200, 3600, "-01", Ghost(g))
        .step(951613200, -7200, 0, "-02", Ghost(g))
        .step(970970400, -7200, 3600, "-01", Ghost(g))
        .step(971571600, -7200, 0, "-02", Ghost(g))
        .step(1003024800, -7200, 3600, "-01", Ghost(g))
        .step(1013907600, -7200, 0, "-02", Ghost(g))
        .step(2147483647, -7200, 0, "-02", Ghost(g))
        .finish(Ghost(g))
}

/// The zone `America/North_Dakota/Beulah`.
pub fn north_dakota_beulah() -> (r: Tz)
    ensures
        r.wf(),
        r.zone_name() == "America/North_Dakota/Beulah"@,
        r.table() == tables::america::north_dakota_beulah(),
{
    let ghost g = tables::america::north_dakota_beulah_rows();
    FixedTimespanSet::begin("America/North_Dakota/Beulah", -24427, 0, "LMT", Ghost(g))
        .step(-2717643600, -25200, 0, "MST", Ghost(g))
        .step(-1633273200, -25200, 3600, "MDT", Ghost(g))
        .step(-1615132800, -25200, 0, "MST", Ghost(g))
        .step(-1601823600, -25200, 3600, "MDT", Ghost(g))
        .step(-1583683200, -25200, 0, "MST", Ghost(g))
        .step(-880210800, -25200, 3600, "MWT", Ghost(g))
        .step(-769395600, -25200, 3600, "MPT", Ghost(g))
        .step(-765388800, -25200, 0, "MST", Ghost(g))
        .step(-84380400, -25200, 3600, "MDT", Ghost(g))
        .step(-68659200, -25200, 0, "MST", Ghost(g))
        .step(-52930800, -25200, 3600, "MDT", Ghost(g))
        .step(-37209600, -25200, 0, "MST", Ghost(g))
        .step(-21481200, -25200, 3600, "MDT", Ghost(g))
        .step(-5760000, -25200, 0, "MST", Ghost(g))
        .step(9968400, -25200, 3600, "MDT", Ghost(g))
        .step(25689600, -25200, 0, "MST", Ghost(g))
        .step(41418000, -25200, 3600, "MDT", Ghost(g))
        .step(57744000, -25200, 0, "MST", Ghost(g))
        .step(73472400, -25200, 3600, "MDT", Ghost(g))
        .step(89193600, -25200, 0, "MST", Ghost(g))
        .step(104922000, -25200, 3600, "MDT", Ghost(g))
        .step(120643200, -25200, 0, "MST", Ghost(g))
        .step(126694800, -25200, 3600, "MDT", Ghost(g))
        .step(152092800, -25200, 0, "MST", Ghost(g))
        .step(162378000, -25200, 3600, "MDT", Ghost(g))
        .step(183542400, -25200, 0, "MST", Ghost(g))
        .step(199270800, -25200, 3600, "MDT", Ghost(g))
        .step(215596800, -25200, 0, "MST", Ghost(g))
        .step(230720400, -25200, 3600, "MDT", Ghost(g))
        .step(247046400, -25200, 0, "MST", Ghost(g))
        .step(262774800, -25200, 3600, "MDT", Ghost(g))
        .step(278496000, -25200, 0, "MST", Ghost(g))
        .step(294224400, -25200, 3600, "MDT", Ghost(g))
        .step(309945600, -25200, 0, "MST", Ghost(g))
        .step(325674000, -25200, 3600, "MDT", Ghost(g))
        .step(341395200, -25200, 0, "MST", Ghost(g))
        .step(357123600, -25200, 3600, "MDT", Ghost(g))
        .step(372844800, -25200, 0, "MST", Ghost(g))
        .step(388573200, -25200, 3600, "MDT", Ghost(g))
        .step(404899200, -25200, 0, "MST", Ghost(g))
        .step(420022800, -25200, 3600, "MDT", Ghost(g))
        .step(436348800, -25200, 0, "MST", Ghost(g))
        .step(452077200, -25200, 3600, "MDT", Ghost(g))
        .step(467798400, -25200, 0, "MST", Ghost(g))
        .step(483526800, -25200, 3600, "MDT", Ghost(g))
        .step(499248000, -25200, 0, "MST", Ghost(g))
        .step(514976400, -25200, 3600, "MDT", Ghost(g))
        .step(530697600, -25200, 0, "MST", Ghost(g))
        .step(544611600, -25200, 3600, "MDT", Ghost(g))
        .step(562147200, -25200, 0, "MST", Ghost(g))
        .step(576061200, -25200, 3600, "MDT", Ghost(g))
        .step(594201600, -25200, 0, "MST", Ghost(g))
        .step(607510800, -25200, 3600, "MDT", Ghost(g))
        .step(625651200, -25200, 0, "MST", Ghost(g))
        .step(638960400, -25200, 3600, "MDT", Ghost(g))
        .step(657100800, -25200, 0, "MST", Ghost(g))
        .step(671014800, -25200, 3600, "MDT", Ghost(g))
        .step(688550400, -25200, 0, "MST", Ghost(g))
        .step(702464400, -25200, 3600, "MDT", Ghost(g))
        .step(720000000, -25200, 0, "MST", Ghost(g))
        .step(733914000, -25200, 3600, "MDT", Ghost(g))
        .step(752054400, -25200, 0, "MST", Ghost(g))
        .step(765363600, -25200, 3600, "MDT", Ghost(g))
        .step(783504000, -25200, 0, "MST", Ghost(g))
        .step(796813200, -25200, 3600, "MDT", Ghost(g))
        .step(814953600, -25200, 0, "MST", Ghost(g))
        .step(828867600, -25200, 3600, "MDT", Ghost(g))
        .step(846403200, -25200, 0, "MST", Ghost(g))
        .step(860317200, -25200, 3600, "MDT", Ghost(g))
        .step(877852800, -25200, 0, "MST", Ghost(g))
        .step(891766800, -25200, 3600, "MDT", Ghost(g))
        .step(909302400, -25200, 0, "MST", Ghost(g))
        .step(923216400, -25200, 3600, "MDT", Ghost(g))
        .step(941356800, -25200, 0, "MST", Ghost(g))
        .step(954666000, -25200, 3600, "MDT", Ghost(g))
        .step(972806400, -25200, 0, "MST", Ghost(g))
        .step(986115600, -25200, 3600, "MDT", Ghost(g))
        .step(1004256000, -25200, 0, "MST", Ghost(g))
        .step(1018170000, -25200, 3600, "MDT", Ghost(g))
        .step(1035705600, -25200, 0, "MST", Ghost(g))
        .step(1049619600, -25200, 3600, "MDT", Ghost(g))
        .step(1067155200, -25200, 0, "MST", Ghost(g))
        .step(1081069200, -25200, 3600, "MDT", Ghost(g))
        .step(1099209600, -25200, 0, "MST", Ghost(g))
        .step(1112518800, -25200, 3600, "MDT", Ghost(g))
        .step(1130659200, -25200, 0, "MST", Ghost(g))
        .step(1143968400, -25200, 3600, "MDT", Ghost(g))
        .step(1162108800, -25200, 0, "MST", Ghost(g))
        .step(1173603600, -25200, 3600, "MDT", Ghost(g))
        .step(1194163200, -25200, 0, "MST", Ghost(g))
        .step(1205053200, -25200, 3600, "MDT", Ghost(g))
        .step(1225612800, -25200, 0, "MST", Ghost(g))
        .step(1236502800, -25200, 3600, "MDT", Ghost(g))
        .step(1257062400, -25200, 0, "MST", Ghost(g))
        .step(1268557200, -25200, 3600, "MDT", Ghost(g))
        .step(1289116800, -21600, 0, "CST", Ghost(g))
        .step(1300003200, -21600, 3600, "CDT", Ghost(g))
        .step(1320562800, -21600, 0, "CST", Ghost(g))
        .step(1331452800, -21600, 3600, "CDT", Ghost(g))
        .step(1352012400, -21600, 0, "CST", Ghost(g))
        .step(1362902400, -21600, 3600, "CDT", Ghost(g))
        .step(1383462000, -21600, 0, "CST", Ghost(g))
        .step(1394352000, -21600, 3600, "CDT", Ghost(g))
        .step(1414911600, -21600, 0, "CST", Ghost(g))
        .step(1425801600, -21600, 3600, "CDT", Ghost(g))
        .step(1446361200, -21600, 0, "CST", Ghost(g))
        .step(1457856000, -21600, 3600, "CDT", Ghost(g))
        .step(1478415600, -21600, 0, "CST", Ghost(g))
        .step(1489305600, -21600, 3600, "CDT", Ghost(g))
        .step(1509865200, -21600, 0, "CST", Ghost(g))
        .step(1520755200, -21600, 3600, "CDT", Ghost(g))
        .step(1541314800, -21600, 0, "CST", Ghost(g))
        .step(1552204800, -21600, 3600, "CDT", Ghost(g))
        .step(1572764400, -21600, 0, "CST", Ghost(g))
        .step(1583654400, -21600, 3600, "CDT", Ghost(g))
        .step(1604214000, -21600, 0, "CST", Ghost(g))
        .step(1615708800, -21600, 3600, "CDT", Ghost(g))
        .step(1636268400, -21600, 0, "CST", Ghost(g))
        .step(1647158400, -21600, 3600, "CDT", Ghost(g))
        .step(1667718000, -21600, 0, "CST", Ghost(g))
        .step(1678608000, -21600, 3600, "CDT", Ghost(g))
        .step(1699167600, -21600, 0, "CST", Ghost(g))
        .step(1710057600, -21600, 3600, "CDT", Ghost(g))
        .step(1730617200, -21600, 0, "CST", Ghost(g))
        .step(1741507200, -21600, 3600, "CDT", Ghost(g))
        .step(1762066800, -21600, 0, "CST", Ghost(g))
        .step(1772956800, -21600, 3600, "CDT", Ghost(g))
        .step(1793516400, -21600, 0, "CST", Ghost(g))
        .step(1805011200, -21600, 3600, "CDT", Ghost(g))
        .step(1825570800, -21600, 0, "CST", Ghost(g))
        .step(1836460800, -21600, 3600, "CDT", Ghost(g))
        .step(1857020400, -21600, 0, "CST", Ghost(g))
        .step(1867910400, -21600, 3600, "CDT", Ghost(g))
        .step(1888470000, -21600, 0, "CST", Ghost(g))
        .step(1899360000, -21600, 3600, "CDT", Ghost(g))
        .step(1919919600, -21600, 0, "CST", Ghost(g))
        .step(1930809600, -21600, 3600, "CDT", Ghost(g))
        .step(1951369200, -21600, 0, "CST", Ghost(g))
        .step(1962864000, -21600, 3600, "CDT", Ghost(g))
        .step(1983423600, -21600, 0, "CST", Ghost(g))
        .step(1994313600, -21600, 3600, "CDT", Ghost(g))
        .step(2014873200, -21600, 0, "CST", Ghost(g))
        .step(2025763200, -21600, 3600, "CDT", Ghost(g))
        .step(2046322800, -21600, 0, "CST", Ghost(g))
        .step(2057212800, -21600, 3600, "CDT", Ghost(g))
        .step(2077772400, -21600, 0, "CST", Ghost(g))
        .step(2088662400, -21600, 3600, "CDT", Ghost(g))
        .step(2109222000, -21600, 0, "CST", Ghost(g))
        .step(2120112000, -21600, 3600, "CDT", Ghost(g))
        .step(2140671600, -21600, 0, "CST", Ghost(g))
        .finish(Ghost(g))
}

/// The zone `America/North_Dakota/Center`.
pub fn north_dakota_center() -> (r: Tz)
    ensures
        r.wf(),
        r.zone_name() == "America/North_Dakota/Center"@,
        r.table() == tables::america::north_dakota_center(),
{
    let ghost g = tables::america::north_dakota_center_rows();
    FixedTimespanSet::begin("America/North_Dakota/Center", -24312, 0, "LMT", Ghost(g))
        .step(-2717643600, -25200, 0, "MST", Ghost(g))
        .step(-1633273200, -25200, 3600, "MDT", Ghost(g))
        .step(-1615132800, -25200, 0, "MST", Ghost(g))
        .step(-1601823600, -25200, 3600, "MDT", Ghost(g))
        .step(-1583683200, -25200, 0, "MST", Ghost(g))
        .step(-880210800, -25200, 3600, "MWT", Ghost(g))
        .step(-769395600, -25200, 3600, "MPT", Ghost(g))
        .step(-765388800, -25200, 0, "MST", Ghost(g))
        .step(-84380400, -25200, 3600, "MDT", Ghost(g))
        .step(-68659200, -25200, 0, "MST", Ghost(g))
        .step(-52930800, -25200, 3600, "MDT", Ghost(g))
        .step(-37209600, -25200, 0, "MST", Ghost(g))
        .step(-21481200, -25200, 3600, "MDT", Ghost(g))
        .step(-5760000, -25200, 0, "MST", Ghost(g))
        .step(9968400, -25200, 3600, "MDT", Ghost(g))
        .step(25689600, -25200, 0, "MST", Ghost(g))
        .step(41418000, -25200, 3600, "MDT", Ghost(g))
        .step(57744000, -25200, 0, "MST", Ghost(g))
        .step(73472400, -25200, 3600, "MDT", Ghost(g))
        .step(89193600, -25200, 0, "MST", Ghost(g))
        .step(104922000, -25200, 3600, "MDT", Ghost(g))
        .step(120643200, -25200, 0, "MST", Ghost(g))
        .step(126694800, -25200, 3600, "MDT", Ghost(g))
        .step(152092800, -25200, 0, "MST", Ghost(g))
        .step(162378000, -25200, 3600, "MDT", Ghost(g))
        .step(183542400, -25200, 0, "MST", Ghost(g))
        .step(199270800, -25200, 3600, "MDT", Ghost(g))
        .step(215596800, -25200, 0, "MST", Ghost(g))
        .step(230720400, -25200, 3600, "MDT", Ghost(g))
        .step(247046400, -25200, 0, "MST", Ghost(g))
        .step(262774800, -25200, 3600, "MDT", Ghost(g))
        .step(278496000, -25200, 0, "MST", Ghost(g))
        .step(294224400, -25200, 3600, "MDT", Ghost(g))
        .step(309945600, -25200, 0, "MST", Ghost(g))
        .step(325674000, -25200, 3600, "MDT", Ghost(g))
        .step(341395200, -25200, 0, "MST", Ghost(g))
        .step(357123600, -25200, 3600, "MDT", Ghost(g))
        .step(372844800, -25200, 0, "MST", Ghost(g))
        .step(388573200, -25200, 3600, "MDT", Ghost(g))
        .step(404899200, -25200, 0, "MST", Ghost(g))
        .step(420022800, -25200, 3600, "MDT", Ghost(g))
        .step(436348800, -25200, 0, "MST", Ghost(g))
        .step(452077200, -25200, 3600, "MDT", Ghost(g))
        .step(467798400, -25200, 0, "MST", Ghost(g))
        .step(483526800, -25200, 3600, "MDT", Ghost(g))
        .step(499248000, -25200, 0, "MST", Ghost(g))
        .step(514976400, -25200, 3600, "MDT", Ghost(g))
        .step(530697600, -25200, 0, "MST", Ghost(g))
        .step(544611600, -25200, 3600, "MDT", Ghost(g))
        .step(562147200, -25200, 0, "MST", Ghost(g))
        .step(576061200, -25200, 3600, "MDT", Ghost(g))
        .step(594201600, -25200, 0, "MST", Ghost(g))
        .step(607510800, -25200, 3600, "MDT", Ghost(g))
        .step(625651200, -25200, 0, "MST", Ghost(g))
        .step(638960400, -25200, 3600, "MDT", Ghost(g))
        .step(657100800, -25200, 0, "MST", Ghost(g))
        .step(671014800, -25200, 3600, "MDT", Ghost(g))
        .step(688550400, -25200, 0, "MST", Ghost(g))
        .step(702464400, -25200, 3600, "MDT", Ghost(g))
        .step(720000000, -21600, 0, "CST", Ghost(g))
        .step(733910400, -21600, 3600, "CDT", Ghost(g))
        .step(752050800, -21600, 0, "CST", Ghost(g))
        .step(765360000, -21600, 3600, "CDT", Ghost(g))
        .step(783500400, -21600, 0, "CST", Ghost(g))
        .step(796809600, -21600, 3600, "CDT", Ghost(g))
        .step(814950000, -21600, 0, "CST", Ghost(g))
        .step(828864000, -21600, 3600, "CDT", Ghost(g))
        .step(846399600, -21600, 0, "CST", Ghost(g))
        .step(860313600, -21600, 3600, "CDT", Ghost(g))
        .step(877849200, -21600, 0, "CST", Ghost(g))
        .step(891763200, -21600, 3600, "CDT", Ghost(g))
        .step(909298800, -21600, 0, "CST", Ghost(g))
        .step(923212800, -21600, 3600, "CDT", Ghost(g))
        .step(941353200, -21600, 0, "CST", Ghost(g))
        .step(954662400, -21600, 3600, "CDT", Ghost(g))
        .step(972802800, -21600, 0, "CST", Ghost(g))
        .step(986112000, -21600, 3600, "CDT", Ghost(g))
        .step(1004252400, -21600, 0, "CST", Ghost(g))
        .step(1018166400, -21600, 3600, "CDT", Ghost(g))
        .step(1035702000, -21600, 0, "CST", Ghost(g))
        .step(1049616000, -21600, 3600, "CDT", Ghost(g))
        .step(1067151600, -21600, 0, "CST", Ghost(g))
        .step(1081065600, -21600, 3600, "CDT", Ghost(g))
        .step(1099206000, -21600, 0, "CST", Ghost(g))
        .step(1112515200, -21600, 3600, "CDT", Ghost(g))
        .step(1130655600, -21600, 0, "CST", Ghost(g))
        .step(1143964800, -21600, 3600, "CDT", Ghost(g))
        .step(1162105200, -21600, 0, "CST", Ghost(g))
        .step(1173600000, -21600, 3600, "CDT", Ghost(g))
        .step(1194159600, -21600, 0, "CST", Ghost(g))
        .step(1205049600, -21600, 3600, "CDT", Ghost(g))
        .step(1225609200, -21600, 0, "CST", Ghost(g))
        .step(1236499200, -21600, 3600, "CDT", Ghost(g))
        .step(1257058800, -21600, 0, "CST", Ghost(g))
        .step(1268553600, -21600, 3600, "CDT", Ghost(g))
        .step(1289113200, -21600, 0, "CST", Ghost(g))
        .step(1300003200, -21600, 3600, "CDT", Ghost(g))
        .step(1320562800, -21600, 0, "CST", Ghost(g))
        .step(1331452800, -21600, 3600, "CDT", Ghost(g))
        .step(1352012400, -21600, 0, "CST", Ghost(g))
        .step(1362902400, -21600, 3600, "CDT", Ghost(g))
        .step(1383462000, -21600, 0, "CST", Ghost(g))
        .step(1394352000, -21600, 3600, "CDT", Ghost(g))
        .step(1414911600, -21600, 0, "CST", Ghost(g))
        .step(1425801600, -21600, 3600, "CDT", Ghost(g))
        .step(1446361200, -21600, 0, "CST", Ghost(g))
        .step(1457856000, -21600, 3600, "CDT", Ghost(g))
        .step(1478415600, -21600, 0, "CST", Ghost(g))
        .step(1489305600, -21600, 3600, "CDT", Ghost(g))
        .step(1509865200, -21600, 0, "CST", Ghost(g))
        .step(1520755200, -21600, 3600, "CDT", Ghost(g))
        .step(1541314800, -21600, 0, "CST", Ghost(g))
        .step(1552204800, -21600, 3600, "CDT", Ghost(g))
        .step(1572764400, -21600, 0, "CST", Ghost(g))
        .step(1583654400, -21600, 3600, "CDT", Ghost(g))
        .step(1604214000, -21600, 0, "CST", Ghost(g))
        .step(1615708800, -21600, 3600, "CDT", Ghost(g))
        .step(1636268400, -21600, 0, "CST", Ghost(g))
        .step(1647158400, -21600, 3600, "CDT", Ghost(g))
        .step(1667718000, -21600, 0, "CST", Ghost(g))
        .step(1678608000, -21600, 3600, "CDT", Ghost(g))
        .step(1699167600, -21600, 0, "CST", Ghost(g))
        .step(1710057600, -21600, 3600, "CDT", Ghost(g))
        .step(1730617200, -21600, 0, "CST", Ghost(g))
        .step(1741507200, -21600, 3600, "CDT", Ghost(g))
        .step(1762066800, -21600, 0, "CST", Ghost(g))
        .step(1772956800, -21600, 3600, "CDT", Ghost(g))
        .step(1793516400, -21600, 0, "CST", Ghost(g))
        .step(1805011200, -21600, 3600, "CDT", Ghost(g))
        .step(1825570800, -21600, 0, "CST", Ghost(g))
        .step(1836460800, -21600, 3600, "CDT", Ghost(g))
        .step(1857020400, -21600, 0, "CST", Ghost(g))
        .step(1867910400, -21600, 3600, "CDT", Ghost(g))
        .step(1888470000, -21600, 0, "CST", Ghost(g))
        .step(1899360000, -21600, 3600, "CDT", Ghost(g))
        .step(1919919600, -21600, 0, "CST", Ghost(g))
        .step(1930809600, -21600, 3600, "CDT", Ghost(g))
        .step(1951369200, -21600, 0, "CST", Ghost(g))
        .step(1962864000, -21600, 3600, "CDT", Ghost(g))
        .step(1983423600, -21600, 0, "CST", Ghost(g))
        .step(1994313600, -21600, 3600, "CDT", Ghost(g))
        .step(2014873200, -21600, 0, "CST", Ghost(g))
        .step(2025763200, -21600, 3600, "CDT", Ghost(g))
        .step(2046322800, -21600, 0, "CST", Ghost(g))
        .step(2057212800, -21600, 3600, "CDT", Ghost(g))
        .step(2077772400, -21600, 0, "CST", Ghost(g))
        .step(2088662400, -21600, 3600, "CDT", Ghost(g))
        .step(2109222000, -21600, 0, "CST", Ghost(g))
        .step(2120112000, -21600, 3600, "CDT", Ghost(g))
        .step(2140671600, -21600, 0, "CST", Ghost(g))
        .finish(Ghost(g))
}

/// The zone `America/North_Dakota/New_Salem`.
pub fn north_dakota_new_salem() -> (r: Tz)
    ensures
        r.wf(),
        r.zone_name() == "America/North_Dakota/New_Salem"@,
        r.table() == tables::america::north_dakota_new_salem(),
{
    let ghost g = tables::america::north_dakota_new_salem_rows();
    FixedTimespanSet::begin("America/North_Dakota/New_Salem", -24339, 0, "LMT", Ghost(g))
        .step(-2717643600, -25200, 0, "MST", Ghost(g))
        .step(-1633273200, -25200, 3600, "MDT", Ghost(g))
        .step(-1615132800, -25200, 0, "MST", Ghost(g))
        .step(-1601823600, -25200, 3600, "MDT", Ghost(g))
        .step(-1583683200, -25200, 0, "MST", Ghost(g))
        .step(-880210800, -25200, 3600, "MWT", Ghost(g))
        .step(-769395600, -25200, 3600, "MPT", Ghost(g))
        .step(-765388800, -25200, 0, "MST", Ghost(g))
        .step(-84380400, -25200, 3600, "MDT", Ghost(g))
        .step(-68659200, -25200, 0, "MST", Ghost(g))
        .step(-52930800, -25200, 3600, "MDT", Ghost(g))
        .step(-37209600, -25200, 0, "MST", Ghost(g))
        .step(-21481200, -25200, 3600, "MDT", Ghost(g))
        .step(-5760000, -25200, 0, "MST", Ghost(g))
        .step(9968400, -25200, 3600, "MDT", Ghost(g))
        .step(25689600, -25200, 0, "MST", Ghost(g))
        .step(41418000, -25200, 3600, "MDT", Ghost(g))
        .step(57744000, -25200, 0, "MST", Ghost(g))
        .step(73472400, -25200, 3600, "MDT", Ghost(g))
        .step(89193600, -25200, 0, "MST", Ghost(g))
        .step(104922000, -25200, 3600, "MDT", Ghost(g))
        .step(120643200, -25200, 0, "MST", Ghost(g))
        .step(126694800, -25200, 3600, "MDT", Ghost(g))
        .step(152092800, -25200, 0, "MST", Ghost(g))
        .step(162378000, -25200, 3600, "MDT", Ghost(g))
        .step(183542400, -25200, 0, "MST", Ghost(g))
        .step(199270800, -25200, 3600, "MDT", Ghost(g))
        .step(215596800, -25200, 0, "MST", Ghost(g))
        .step(230720400, -25200, 3600, "MDT", Ghost(g))
        .step(247046400, -25200, 0, "MST", Ghost(g))
        .step(262774800, -25200, 3600, "MDT", Ghost(g))
        .step(278496000, -25200, 0, "MST", Ghost(g))
        .step(294224400, -25200, 3600, "MDT", Ghost(g))
        .step(309945600, -25200, 0, "MST", Ghost(g))
        .step(325674000, -25200, 3600, "MDT", Ghost(g))
        .step(341395200, -25200, 0, "MST", Ghost(g))
        .step(357123600, -25200, 3600, "MDT", Ghost(g))
        .step(372844800, -25200, 0, "MST", Ghost(g))
        .step(388573200, -25200, 3600, "MDT", Ghost(g))
        .step(404899200, -25200, 0, "MST", Ghost(g))
        .step(420022800, -25200, 3600, "MDT", Ghost(g))
        .step(436348800, -25200, 0, "MST", Ghost(g))
        .step(452077200, -25200, 3600, "MDT", Ghost(g))
        .step(467798400, -25200, 0, "MST", Ghost(g))
        .step(483526800, -25200, 3600, "MDT", Ghost(g))
        .step(499248000, -25200, 0, "MST", Ghost(g))
        .step(514976400, -25200, 3600, "MDT", Ghost(g))
        .step(530697600, -25200, 0, "MST", Ghost(g))
        .step(544611600, -25200, 3600, "MDT", Ghost(g))
        .step(562147200, -25200, 0, "MST", Ghost(g))
        .step(576061200, -25200, 3600, "MDT", Ghost(g))
        .step(594201600, -25200, 0, "MST", Ghost(g))
        .step(607510800, -25200, 3600, "MDT", Ghost(g))
        .step(625651200, -25200, 0, "MST", Ghost(g))
        .step(638960400, -25200, 3600, "MDT", Ghost(g))
        .step(657100800, -25200, 0, "MST", Ghost(g))
        .step(671014800, -25200, 3600, "MDT", Ghost(g))
        .step(688550400, -25200, 0, "MST", Ghost(g))
        .step(702464400, -25200, 3600, "MDT", Ghost(g))
        .step(720000000, -25200, 0, "MST", Ghost(g))
        .step(733914000, -25200, 3600, "MDT", Ghost(g))
        .step(752054400, -25200, 0, "MST", Ghost(g))
        .step(765363600, -25200, 3600, "MDT", Ghost(g))
        .step(783504000, -25200, 0, "MST", Ghost(g))
        .step(796813200, -25200, 3600, "MDT", Ghost(g))
        .step(814953600, -25200, 0, "MST", Ghost(g))
        .step(828867600, -25200, 3600, "MDT", Ghost(g))
        .step(846403200, -25200, 0, "MST", Ghost(g))
        .step(860317200, -25200, 3600, "MDT", Ghost(g))
        .step(877852800, -25200, 0, "MST", Ghost(g))
        .step(891766800, -25200, 3600, "MDT", Ghost(g))
        .step(909302400, -25200, 0, "MST", Ghost(g))
        .step(923216400, -25200, 3600, "MDT", Ghost(g))
        .step(941356800, -25200, 0, "MST", Ghost(g))
        .step(954666000, -25200, 3600, "MDT", Ghost(g))
        .step(972806400, -25200, 0, "MST", Ghost(g))
        .step(986115600, -25200, 3600, "MDT", Ghost(g))
        .step(1004256000, -25200, 0, "MST", Ghost(g))
        .step(1018170000, -25200, 3600, "MDT", Ghost(g))
        .step(1035705600, -25200, 0, "MST", Ghost(g))
        .step(1049619600, -25200, 3600, "MDT", Ghost(g))
        .step(1067155200, -21600, 0, "CST", Ghost(g))
        .step(1081065600, -21600, 3600, "CDT", Ghost(g))
        .step(1099206000, -21600, 0, "CST", Ghost(g))
        .step(1112515200, -21600, 3600, "CDT", Ghost(g))
        .step(1130655600, -21600, 0, "CST", Ghost(g))
        .step(1143964800, -21600, 3600, "CDT", Ghost(g))
        .step(1162105200, -21600, 0, "CST", Ghost(g))
        .step(1173600000, -21600, 3600, "CDT", Ghost(g))
        .step(1194159600, -21600, 0, "CST", Ghost(g))
        .step(1205049600, -21600, 3600, "CDT", Ghost(g))
        .step(1225609200, -21600, 0, "CST", Ghost(g))
        .step(1236499200, -21600, 3600, "CDT", Ghost(g))
        .step(1257058800, -21600, 0, "CST", Ghost(g))
        .step(1268553600, -21600, 3600, "CDT", Ghost(g))
        .step(1289113200, -21600, 0, "CST", Ghost(g))
        .step(1300003200, -21600, 3600, "CDT", Ghost(g))
        .step(1320562800, -21600, 0, "CST", Ghost(g))
        .step(1331452800, -21600, 3600, "CDT", Ghost(g))
        .step(1352012400, -21600, 0, "CST", Ghost(g))
        .step(1362902400, -21600, 3600, "CDT", Ghost(g))
        .step(1383462000, -21600, 0, "CST", Ghost(g))
        .step(1394352000, -21600, 3600, "CDT", Ghost(g))
        .step(1414911600, -21600, 0, "CST", Ghost(g))
        .step(1425801600, -21600, 3600, "CDT", Ghost(g))
        .step(1446361200, -21600, 0, "CST", Ghost(g))
        .step(1457856000, -21600, 3600, "CDT", Ghost(g))
        .step(1478415600, -21600, 0, "CST", Ghost(g))
        .step(1489305600, -21600, 3600, "CDT", Ghost(g))
        .step(1509865200, -21600, 0, "CST", Ghost(g))
        .step(1520755200, -21600, 3600, "CDT", Ghost(g))
        .step(1541314800, -21600, 0, "CST", Ghost(g))
        .step(1552204800, -21600, 3600, "CDT", Ghost(g))
        .step(1572764400, -21600, 0, "CST", Ghost(g))
        .step(1583654400, -21600, 3600, "CDT", Ghost(g))
        .step(1604214000, -21600, 0, "CST", Ghost(g))
        .step(1615708800, -21600, 3600, "CDT", Ghost(g))
        .step(1636268400, -21600, 0, "CST", Ghost(g))
        .step(1647158400, -21600, 3600, "CDT", Ghost(g))
        .step(1667718000, -21600, 0, "CST", Ghost(g))
        .step(1678608000, -21600, 3600, "CDT", Ghost(g))
        .step(1699167600, -21600, 0, "CST", Ghost(g))
        .step(1710057600, -21600, 3600, "CDT", Ghost(g))
        .step(1730617200, -21600, 0, "CST", Ghost(g))
        .step(1741507200, -21600, 3600, "CDT", Ghost(g))
        .step(1762066800, -21600, 0, "CST", Ghost(g))
        .step(1772956800, -21600, 3600, "CDT", Ghost(g))
        .step(1793516400, -21600, 0, "CST", Ghost(g))
        .step(1805011200, -21600, 3600, "CDT", Ghost(g))
        .step(1825570800, -21600, 0, "CST", Ghost(g))
        .step(1836460800, -21600, 3600, "CDT", Ghost(g))
        .step(1857020400, -21600, 0, "CST", Ghost(g))
        .step(1867910400, -21600, 3600, "CDT", Ghost(g))
        .step(1888470000, -21600, 0, "CST", Ghost(g))
        .step(1899360000, -21600, 3600, "CDT", Ghost(g))
        .step(1919919600, -21600, 0, "CST", Ghost(g))
        .step(1930809600, -21600, 3600, "CDT", Ghost(g))
        .step(1951369200, -21600, 0, "CST", Ghost(g))
        .step(1962864000, -21600, 3600, "CDT", Ghost(g))
        .step(1983423600, -21600, 0, "CST", Ghost(g))
        .step(1994313600, -21600, 3600, "CDT", Ghost(g))
        .step(2014873200, -21600, 0, "CST", Ghost(g))
        .step(2025763200, -21600, 3600, "CDT", Ghost(g))
        .step(2046322800, -21600, 0, "CST", Ghost(g))
        .step(2057212800, -21600, 3600, "CDT", Ghost(g))
        .step(2077772400, -21600, 0, "CST", Ghost(g))
        .step(2088662400, -21600, 3600, "CDT", Ghost(g))
        .step(2109222000, -21600, 0, "CST", Ghost(g))
        .step(2120112000, -21600, 3600, "CDT", Ghost(g))
        .step(2140671600, -21600, 0, "CST", Ghost(g))
        .finish(Ghost(g))
}

/// The zone `America/Nuuk`.
pub fn nuuk() -> (r: Tz)
    ensures
        r.wf(),
        r.zone_name() == "America/Nuuk"@,
        r.table() == tables::america::nuuk(),
{
    let ghost g = tables::america::nuuk_rows();
    FixedTimespanSet::begin("America/Nuuk", -12416, 0, "LMT", Ghost(g))
        .step(-1686083584, -10800, 0, "-03", Ghost(g))
        .step(323845200, -10800, 3600, "-02", Ghost(g))
        .step(338950800, -10800, 0, "-03", Ghost(g))
        .step(354675600, -10800, 3600, "-02", Ghost(g))
        .step(370400400, -10800, 0, "-03", Ghost(g))
        .step(386125200, -10800, 3600, "-02", Ghost(g))
        .step(401850000, -10800, 0, "-03", Ghost(g))
        .step(417574800, -10800, 3600, "-02", Ghost(g))
        .step(433299600, -10800, 0, "-03", Ghost(g))
        .step(449024400, -10800, 3600, "-02", Ghost(g))
        .step(465354000, -10800, 0, "-03", Ghost(g))
        .step(481078800, -10800, 3600, "-02", Ghost(g))
        .step(496803600, -10800, 0, "-03", Ghost(g))
        .step(512528400, -10800, 3600, "-02", Ghost(g))
        .step(528253200, -10800, 0, "-03", Ghost(g))
        .step(543978000, -10800, 3600, "-02", Ghost(g))
        .step(559702800, -10800, 0, "-03", Ghost(g))
        .step(575427600, -10800, 3600, "-02", Ghost(g))
        .step(591152400, -10800, 0, "-03", Ghost(g))
        .step(606877200, -10800, 3600, "-02", Ghost(g))
        .step(622602000, -10800, 0, "-03", Ghost(g))
        .step(638326800, -10800, 3600, "-02", Ghost(g))
        .step(654656400, -10800, 0, "-03", Ghost(g))
        .step(670381200, -10800, 3600, "-02", Ghost(g))
        .step(686106000, -10800, 0, "-03", Ghost(g))
        .step(701830800, -10800, 3600, "-02", Ghost(g))
        .step(717555600, -10800, 0, "-03", Ghost(g))
        .step(733280400, -10800, 3600, "-02", Ghost(g))
        .step(749005200, -10800, 0, "-03", Ghost(g))
        .step(764730000, -10800, 3600, "-02", Ghost(g))
        .step(780454800, -10800, 0, "-03", Ghost(g))
        .step(796179600, -10800, 3600, "-02", Ghost(g))
        .step(811904400, -10800, 0, "-03", Ghost(g))
        .step(828234000, -10800, 3600, "-02", Ghost(g))
        .step(846378000, -10800, 0, "-03", Ghost(g))
        .step(859683600, -10800, 3600, "-02", Ghost(g))
        .step(877827600, -10800, 0, "-03", Ghost(g))
        .step(891133200, -10800, 3600, "-02", Ghost(g))
        .step(909277200, -10800, 0, "-03", Ghost(g))
        .step(922582800, -10800, 3600, "-02", Ghost(g))
        .step(941331600, -10800, 0, "-03", Ghost(g))
        .step(954032400, -10800, 3600, "-02", Ghost(g))
        .step(972781200, -10800, 0, "-03", Ghost(g))
        .step(985482000, -10800, 3600, "-02", Ghost(g))
        .step(1004230800, -10800, 0, "-03", Ghost(g))
        .step(1017536400, -10800, 3600, "-02", Ghost(g))
        .step(1035680400, -10800, 0, "-03", Ghost(g))
        .step(1048986000, -10800, 3600, "-02", Ghost(g))
        .step(1067130000, -10800, 0, "-03", Ghost(g))
        .step(1080435600, -10800, 3600, "-02", Ghost(g))
        .step(1099184400, -10800, 0, "-03", Ghost(g))
        .step(1111885200, -10800, 3600, "-02", Ghost(g))
        .step(1130634000, -10800, 0, "-03", Ghost(g))
        .step(1143334800, -10800, 3600, "-02", Ghost(g))
        .step(1162083600, -10800, 0, "-03", Ghost(g))
        .step(1174784400, -10800, 3600, "-02", Ghost(g))
        .step(1193533200, -10800, 0, "-03", Ghost(g))
        .step(1206838800, -10800, 3600, "-02", Ghost(g))
        .step(1224982800, -10800, 0, "-03", Ghost(g))
        .step(1238288400, -10800, 3600, "-02", Ghost(g))
        .step(1256432400, -10800, 0, "-03", Ghost(g))
        .step(1269738000, -10800, 3600, "-02", Ghost(g))
        .step(1288486800, -10800, 0, "-03", Ghost(g))
        .step(1301187600, -10800, 3600, "-02", Ghost(g))
        .step(1319936400, -10800, 0, "-03", Ghost(g))
        .step(1332637200, -10800, 3600, "-02", Ghost(g))
        .step(1351386000, -10800, 0, "-03", Ghost(g))
        .step(1364691600, -10800, 3600, "-02", Ghost(g))
        .step(1382835600, -10800, 0, "-03", Ghost(g))
        .step(1396141200, -10800, 3600, "-02", Ghost(g))
        .step(1414285200, -10800, 0, "-03", Ghost(g))
        .step(1427590800, -10800, 3600, "-02", Ghost(g))
        .step(1445734800, -10800, 0, "-03", Ghost(g))
        .step(1459040400, -10800, 3600, "-02", Ghost(g))
        .step(1477789200, -10800, 0, "-03", Ghost(g))
        .step(1490490000, -10800, 3600, "-02", Ghost(g))
        .step(1509238800, -10800, 0, "-03", Ghost(g))
        .step(1521939600, -10800, 3600, "-02", Ghost(g))
        .step(1540688400, -10800, 0, "-03", Ghost(g))
        .step(1553994000, -10800, 3600, "-02", Ghost(g))
        .step(1572138000, -10800, 0, "-03", Ghost(g))
        .step(1585443600, -10800, 3600, "-02", Ghost(g))
        .step(1603587600, -10800, 0, "-03", Ghost(g))
        .step(1616893200, -10800, 3600, "-02", Ghost(g))
        .step(1635642000, -10800, 0, "-03", Ghost(g))
        .step(1648342800, -10800, 3600, "-02", Ghost(g))
        .step(1667091600, -10800, 0, "-03", Ghost(g))
        .step(1679792400, -7200, 0, "-02", Ghost(g))
        .step(1711846800, -7200, 3600, "-01", Ghost(g))
        .step(1729990800, -7200, 0, "-02", Ghost(g))
        .step(1743296400, -7200, 3600, "-01", Ghost(g))
        .step(1761440400, -7200, 0, "-02", Ghost(g))
        .step(1774746000, -7200, 3600, "-01", Ghost(g))
        .step(1792890000, -7200, 0, "-02", Ghost(g))
        .step(1806195600, -7200, 3600, "-01", Ghost(g))
        .step(1824944400, -7200, 0, "-02", Ghost(g))
        .step(1837645200, -7200, 3600, "-01", Ghost(g))
        .step(1856394000, -7200, 0, "-02", Ghost(g))
        .step(1869094800, -7200, 3600, "-01", Ghost(g))
        .step(1887843600, -7200, 0, "-02", Ghost(g))
        .step(1901149200, -7200, 3600, "-01", Ghost(g))
        .step(1919293200, -7200, 0, "-02", Ghost(g))
        .step(1932598800, -7200, 3600, "-01", Ghost(g))
        .step(1950742800, -7200, 0, "-02", Ghost(g))
        .step(1964048400, -7200, 3600, "-01", Ghost(g))
        .step(1982797200, -7200, 0, "-02", Ghost(g))
        .step(1995498000, -7200, 3600, "-01", Ghost(g))
        .step(2014246800, -7200, 0, "-02", Ghost(g))
        .step(2026947600, -7200, 3600, "-01", Ghost(g))
        .step(2045696400, -7200, 0, "-02", Ghost(g))
        .step(2058397200, -7200, 3600, "-01", Ghost(g))
        .step(2077146000, -7200, 0, "-02", Ghost(g))
        .step(2090451600, -7200, 3600, "-01", Ghost(g))
        .step(2108595600, -7200, 0, "-02", Ghost(g))
        .step(2121901200, -7200, 3600, "-01", Ghost(g))
        .step(2140045200, -7200, 0, "-02", Ghost(g))
        .step(2147483647, -7200, 0, "-02", Ghost(g))
        .finish(Ghost(g))
}

/// The zone `America/Ojinaga`.
pub fn ojinaga() -> (r: Tz)
    ensures
        r.wf(),
        r.zone_name() == "America/Ojinaga"@,
        r.table() == tables::america::ojinaga(),
{
    let ghost g = tables::america::ojinaga_rows();
    FixedTimespanSet::begin("America/Ojinaga", -25060, 0, "LMT", Ghost(g))
        .step(-1514739600, -25200, 0, "MST", Ghost(g))
        .step(-1343149200, -21600, 0, "CST", Ghost(g))
        .step(-1234807200, -25200, 0, "MST", Ghost(g))
        .step(-1220461200, -25200, 3600, "MDT", Ghost(g))
        .step(-1207159200, -25200, 0, "MST", Ghost(g))
        .step(-1191344400, -21600, 0, "CST", Ghost(g))
        .step(828864000, -21600, 3600, "CDT", Ghost(g))
        .step(846399600, -21600, 0, "CST", Ghost(g))
        .step(860313600, -21600, 3600, "CDT", Ghost(g))
        .step(877849200, -21600, 0, "CST", Ghost(g))
        .step(891766800, -25200, 3600, "MDT", Ghost(g))
        .step(909302400, -25200, 0, "MST", Ghost(g))
        .step(923216400, -25200, 3600, "MDT", Ghost(g))
        .step(941356800, -25200, 0, "MST", Ghost(g))
        .step(954666000, -25200, 3600, "MDT", Ghost(g))
        .step(972806400, -25200, 0, "MST", Ghost(g))
        .step(989139600, -25200, 3600, "MDT", Ghost(g))
        .step(1001836800, -25200, 0, "MST", Ghost(g))
        .step(1018170000, -25200, 3600, "MDT", Ghost(g))
        .step(1035705600, -25200, 0, "MST", Ghost(g))
        .step(1049619600, -25200, 3600, "MDT", Ghost(g))
        .step(1067155200, -25200, 0, "MST", Ghost(g))
        .step(1081069200, -25200, 3600, "MDT", Ghost(g))
        .step(1099209600, -25200, 0, "MST", Ghost(g))
        .step(1112518800, -25200, 3600, "MDT", Ghost(g))
        .step(1130659200, -25200, 0, "MST", Ghost(g))
        .step(1143968400, -25200, 3600, "MDT", Ghost(g))
        .step(1162108800, -25200, 0, "MST", Ghost(g))
        .step(1175418000, -25200, 3600, "MDT", Ghost(g))
        .step(1193558400, -25200, 0, "MST", Ghost(g))
        .step(1207472400, -25200, 3600, "MDT", Ghost(g))
        .step(1225008000, -25200, 0, "MST", Ghost(g))
        .step(1238922000, -25200, 3600, "MDT", Ghost(g))
        .step(1256457600, -25200, 0, "MST", Ghost(g))
        .step(1268557200, -25200, 3600, "MDT", Ghost(g))
        .step(1289116800, -25200, 0, "MST", Ghost(g))
        .step(1300006800, -25200, 3600, "MDT", Ghost(g))
        .step(1320566400, -25200, 0, "MST", Ghost(g))
        .step(1331456400, -25200, 3600, "MDT", Ghost(g))
        .step(1352016000, -25200, 0, "MST", Ghost(g))
        .step(1362906000, -25200, 3600, "MDT", Ghost(g))
        .step(1383465600, -25200, 0, "MST", Ghost(g))
        .step(1394355600, -25200, 3600, "MDT", Ghost(g))
        .step(1414915200, -25200, 0, "MST", Ghost(g))
        .step(1425805200, -25200, 3600, "MDT", Ghost(g))
        .step(1446364800, -25200, 0, "MST", Ghost(g))
        .step(1457859600, -25200, 3600, "MDT", Ghost(g))
        .step(1478419200, -25200, 0, "MST", Ghost(g))
        .step(1489309200, -25200, 3600, "MDT", Ghost(g))
        .step(1509868800, -25200, 0, "MST", Ghost(g))
        .step(1520758800, -25200, 3600, "MDT", Ghost(g))
        .step(1541318400, -25200, 0, "MST", Ghost(g))
        .step(1552208400, -25200, 3600, "MDT", Ghost(g))
        .step(1572768000, -25200, 0, "MST", Ghost(g))
        .step(1583658000, -25200, 3600, "MDT", Ghost(g))
        .step(1604217600, -25200, 0, "MST", Ghost(g))
        .step(1615712400, -25200, 3600, "MDT", Ghost(g))
        .step(1636272000, -25200, 0, "MST", Ghost(g))
        .step(1647162000, -25200, 3600, "MDT", Ghost(g))
        .step(1667116800, -21600, 0, "CST", Ghost(g))
        .step(1678608000, -21600, 3600, "CDT", Ghost(g))
        .step(1699167600, -21600, 0, "CST", Ghost(g))
        .step(1710057600, -21600, 3600, "CDT", Ghost(g))
        .step(1730617200, -21600, 0, "CST", Ghost(g))
        .step(1741507200, -21600, 3600, "CDT", Ghost(g))
        .step(1762066800, -21600, 0, "CST", Ghost(g))
        .step(1772956800, -21600, 3600, "CDT", Ghost(g))
        .step(1793516400, -21600, 0, "CST", Ghost(g))
        .step(1805011200, -21600, 3600, "CDT", Ghost(g))
        .step(1825570800, -21600, 0, "CST", Ghost(g))
        .step(1836460800, -21600, 3600, "CDT", Ghost(g))
        .step(1857020400, -21600, 0, "CST", Ghost(g))
        .step(1867910400, -21600, 3600, "CDT", Ghost(g))
        .step(1888470000, -21600, 0, "CST", Ghost(g))
        .step(1899360000, -21600, 3600, "CDT", Ghost(g))
        .step(1919919600, -21600, 0, "CST", Ghost(g))
        .step(1930809600, -21600, 3600, "CDT", Ghost(g))
        .step(1951369200, -21600, 0, "CST", Ghost(g))
        .step(1962864000, -21600, 3600, "CDT", Ghost(g))
        .step(1983423600, -21600, 0, "CST", Ghost(g))
        .step(1994313600, -21600, 3600, "CDT", Ghost(g))
        .step(2014873200, -21600, 0, "CST", Ghost(g))
        .step(2025763200, -21600, 3600, "CDT", Ghost(g))
        .step(2046322800, -21600, 0, "CST", Ghost(g))
        .step(2057212800, -21600, 3600, "CDT", Ghost(g))
        .step(2077772400, -21600, 0, "CST", Ghost(g))
        .step(2088662400, -21600, 3600, "CDT", Ghost(g))
        .step(2109222000, -21600, 0, "CST", Ghost(g))
        .step(2120112000, -21600, 3600, "CDT", Ghost(g))
        .step(2140671600, -21600, 0, "CST", Ghost(g))
        .finish(Ghost(g))
}

/// The zone `America/Panama`.
pub fn panama() -> (r: Tz)
    ensures
        r.wf(),
        r.zone_name() == "America/Panama"@,
        r.table() == tables::america::panama(),
{
    let ghost g = tables::america::panama_rows();
    FixedTimespanSet::begin("America/Panama", -19088, 0, "LMT", Ghost(g))
        .step(-2524502512, -19176, 0, "CMT", Ghost(g))
        .step(-1946918424, -18000, 0, "EST", Ghost(g))
        .finish(Ghost(g))
}

/// The zone `America/Pangnirtung`.
pub fn pangnirtung() -> (r: Tz)
    ensures
        r.wf(),
        r.zone_name() == "America/Pangnirtung"@,
        r.table() == tables::america::pangnirtung(),
{
    let ghost g = tables::america::pangnirtung_rows();
    FixedTimespanSet::begin("America/Pangnirtung", 0, 0, "-00", Ghost(g))
        .step(-865296000, -18000, 3600, "EWT", Ghost(g))
        .step(-769395600, -18000, 3600, "EPT", Ghost(g))
        .step(-765396000, -18000, 0, "EST", Ghost(g))
        .step(73465200, -18000, 3600, "EDT", Ghost(g))
        .step(89186400, -18000, 0, "EST", Ghost(g))
        .step(104914800, -18000, 3600, "EDT", Ghost(g))
        .step(120636000, -18000, 0, "EST", Ghost(g))
        .step(136364400, -18000, 3600, "EDT", Ghost(g))
        .step(152085600, -18000, 0, "EST", Ghost(g))
        .step(167814000, -18000, 3600, "EDT", Ghost(g))
        .step(183535200, -18000, 0, "EST", Ghost(g))
        .step(199263600, -18000, 3600, "EDT", Ghost(g))
        .step(215589600, -18000, 0, "EST", Ghost(g))
        .step(230713200, -18000, 3600, "EDT", Ghost(g))
        .step(247039200, -18000, 0, "EST", Ghost(g))
        .step(262767600, -18000, 3600, "EDT", Ghost(g))
        .step(278488800, -18000, 0, "EST", Ghost(g))
        .step(294217200, -18000, 3600, "EDT", Ghost(g))
        .step(309938400, -18000, 0, "EST", Ghost(g))
        .step(325666800, -18000, 3600, "EDT", Ghost(g))
        .step(341388000, -18000, 0, "EST", Ghost(g))
        .step(357116400, -18000, 3600, "EDT", Ghost(g))
        .step(372837600, -18000, 0, "EST", Ghost(g))
        .step(388566000, -18000, 3600, "EDT", Ghost(g))
        .step(404892000, -18000, 0, "EST", Ghost(g))
        .step(420015600, -18000, 3600, "EDT", Ghost(g))
        .step(436341600, -18000, 0, "EST", Ghost(g))
        .step(452070000, -18000, 3600, "EDT", Ghost(g))
        .step(467791200, -18000, 0, "EST", Ghost(g))
        .step(483519600, -18000, 3600, "EDT", Ghost(g))
        .step(499240800, -18000, 0, "EST", Ghost(g))
        .step(514969200, -18000, 3600, "EDT", Ghost(g))
        .step(530690400, -18000, 0, "EST", Ghost(g))
        .step(544604400, -18000, 3600, "EDT", Ghost(g))
        .step(562140000, -18000, 0, "EST", Ghost(g))
        .step(576054000, -18000, 3600, "EDT", Ghost(g))
        .step(594194400, -18000, 0, "EST", Ghost(g))
        .step(607503600, -18000, 3600, "EDT", Ghost(g))
        .step(625644000, -18000, 0, "EST", Ghost(g))
        .step(638953200, -18000, 3600, "EDT", Ghost(g))
        .step(657093600, -18000, 0, "EST", Ghost(g))
        .step(671007600, -18000, 3600, "EDT", Ghost(g))
        .step(688543200, -18000, 0, "EST", Ghost(g))
        .step(702457200, -18000, 3600, "EDT", Ghost(g))
        .step(719992800, -18000, 0, "EST", Ghost(g))
        .step(733906800, -18000, 3600, "EDT", Ghost(g))
        .step(752047200, -18000, 0, "EST", Ghost(g))
        .step(765356400, -18000, 3600, "EDT", Ghost(g))
        .step(783496800, -18000, 0, "EST", Ghost(g))
        .step(796806000, -18000, 3600, "EDT", Ghost(g))
        .step(814946400, -18000, 0, "EST", Ghost(g))
        .step(828860400, -18000, 3600, "EDT", Ghost(g))
        .step(846396000, -18000, 0, "EST", Ghost(g))
        .step(860310000, -18000, 3600, "EDT", Ghost(g))
        .step(877845600, -18000, 0, "EST", Ghost(g))
        .step(891759600, -18000, 3600, "EDT", Ghost(g))
        .step(909295200, -18000, 0, "EST", Ghost(g))
        .step(923209200, -18000, 3600, "EDT", Ghost(g))
        .step(941349600, -21600, 0, "CST", Ghost(g))
        .step(954662400, -21600, 3600, "CDT", Ghost(g))
        .step(972802800, -18000, 0, "EST", Ghost(g))
        .step(986108400, -18000, 3600, "EDT", Ghost(g))
        .step(1004248800, -18000, 0, "EST", Ghost(g))
        .step(1018162800, -18000, 3600, "EDT", Ghost(g))
        .step(1035698400, -18000, 0, "EST", Ghost(g))
        .step(1049612400, -18000, 3600, "EDT", Ghost(g))
        .step(1067148000, -18000, 0, "EST", Ghost(g))
        .step(1081062000, -18000, 3600, "EDT", Ghost(g))
        .step(1099202400, -18000, 0, "EST", Ghost(g))
        .step(1112511600, -18000, 3600, "EDT", Ghost(g))
        .step(1130652000, -18000, 0, "EST", Ghost(g))
        .step(1143961200, -18000, 3600, "EDT", Ghost(g))
        .step(1162101600, -18000, 0, "EST", Ghost(g))
        .step(1173596400, -18000, 3600, "EDT", Ghost(g))
        .step(1194156000, -18000, 0, "EST", Ghost(g))
        .step(1205046000, -18000, 3600, "EDT", Ghost(g))
        .step(1225605600, -18000, 0, "EST", Ghost(g))
        .step(1236495600, -18000, 3600, "EDT", Ghost(g))
        .step(1257055200, -18000, 0, "EST", Ghost(g))
        .step(1268550000, -18000, 3600, "EDT", Ghost(g))
        .step(1289109600, -18000, 0, "EST", Ghost(g))
        .step(1299999600, -18000, 3600, "EDT", Ghost(g))
        .step(1320559200, -18000, 0, "EST", Ghost(g))
        .step(1331449200, -18000, 3600, "EDT", Ghost(g))
        .step(1352008800, -18000, 0, "EST", Ghost(g))
        .step(1362898800, -18000, 3600, "EDT", Ghost(g))
        .step(1383458400, -18000, 0, "EST", Ghost(g))
        .step(1394348400, -18000, 3600, "EDT", Ghost(g))
        .step(1414908000, -18000, 0, "EST", Ghost(g))
        .step(1425798000, -18000, 3600, "EDT", Ghost(g))
        .step(1446357600, -18000, 0, "EST", Ghost(g))
        .step(1457852400, -18000, 3600, "EDT", Ghost(g))
        .step(1478412000, -18000, 0, "EST", Ghost(g))
        .step(1489302000, -18000, 3600, "EDT", Ghost(g))
        .step(1509861600, -18000, 0, "EST", Ghost(g))
        .step(1520751600, -18000, 3600, "EDT", Ghost(g))
        .step(1541311200, -18000, 0, "EST", Ghost(g))
        .step(1552201200, -18000, 3600, "EDT", Ghost(g))
        .step(1572760800, -18000, 0, "EST", Ghost(g))
        .step(1583650800, -18000, 3600, "EDT", Ghost(g))
        .step(1604210400, -18000, 0, "EST", Ghost(g))
        .step(1615705200, -18000, 3600, "EDT", Ghost(g))
        .step(1636264800, -18000, 0, "EST", Ghost(g))
        .step(1647154800, -18000, 3600, "EDT", Ghost(g))
        .step(1667714400, -18000, 0, "EST", Ghost(g))
        .step(1678604400, -18000, 3600, "EDT", Ghost(g))
        .step(1699164000, -18000, 0, "EST", Ghost(g))
        .step(1710054000, -18000, 3600, "EDT", Ghost(g))
        .step(1730613600, -18000, 0, "EST", Ghost(g))
        .step(1741503600, -18000, 3600, "EDT", Ghost(g))
        .step(1762063200, -18000, 0, "EST", Ghost(g))
        .step(1772953200, -18000, 3600, "EDT", Ghost(g))
        .step(1793512800, -18000, 0, "EST", Ghost(g))
        .step(1805007600, -18000, 3600, "EDT", Ghost(g))
        .step(1825567200, -18000, 0, "EST", Ghost(g))
        .step(1836457200, -18000, 3600, "EDT", Ghost(g))
        .step(1857016800, -18000, 0, "EST", Ghost(g))
        .step(1867906800, -18000, 3600, "EDT", Ghost(g))
        .step(1888466400, -18000, 0, "EST", Ghost(g))
        .step(1899356400, -18000, 3600, "EDT", Ghost(g))
        .step(1919916000, -18000, 0, "EST", Ghost(g))
        .step(1930806000, -18000, 3600, "EDT", Ghost(g))
        .step(1951365600, -18000, 0, "EST", Ghost(g))
        .step(1962860400, -18000, 3600, "EDT", Ghost(g))
        .step(1983420000, -18000, 0, "EST", Ghost(g))
        .step(1994310000, -18000, 3600, "EDT", Ghost(g))
        .step(2014869600, -18000, 0, "EST", Ghost(g))
        .step(2025759600, -18000, 3600, "EDT", Ghost(g))
        .step(2046319200, -18000, 0, "EST", Ghost(g))
        .step(2057209200, -18000, 3600, "EDT", Ghost(g))
        .step(2077768800, -18000, 0, "EST", Ghost(g))
        .step(2088658800, -18000, 3600, "EDT", Ghost(g))
        .step(2109218400, -18000, 0, "EST", Ghost(g))
        .step(2120108400, -18000, 3600, "EDT", Ghost(g))
        .step(2140668000, -18000, 0, "EST", Ghost(g))
        .finish(Ghost(g))
}

/// The zone `America/Paramaribo`.
pub fn paramaribo() -> (r: Tz)
    ensures
        r.wf(),
        r.zone_name() == "America/Paramaribo"@,
        r.table() == tables::america::paramaribo(),
{
    let ghost g = tables::america::paramaribo_rows();
    FixedTimespanSet::begin("America/Paramaribo", -13240, 0, "LMT", Ghost(g))
        .step(-1861906760, -13252, 0, "PMT", Ghost(g))
        .step(-1104524348, -13236, 0, "PMT", Ghost(g))
        .step(-765317964, -12600, 0, "-0330", Ghost(g))
        .step(465449400, -10800, 0, "-03", Ghost(g))
        .step(2147483647, -10800, 0, "-03", Ghost(g))
        .finish(Ghost(g))
}

/// The zone `America/Phoenix`.
pub fn phoenix() -> (r: Tz)
    ensures
        r.wf(),
        r.zone_name() == "America/Phoenix"@,
        r.table() == tables::america::phoenix(),
{
    let ghost g = tables::america::phoenix_rows();
    FixedTimespanSet::begin("America/Phoenix", -26898, 0, "LMT", Ghost(g))
        .step(-2717643600, -25200, 0, "MST", Ghost(g))
        .step(-1633273200, -25200, 3600, "MDT", Ghost(g))
        .step(-1615132800, -25200, 0, "MST", Ghost(g))
        .step(-1601823600, -25200, 3600, "MDT", Ghost(g))
        .step(-1583683200, -25200, 0, "MST", Ghost(g))
        .step(-880210800, -25200, 3600, "MWT", Ghost(g))
        .step(-820519140, -25200, 0, "MST", Ghost(g))
        .step(-812653140, -25200, 3600, "MWT", Ghost(g))
        .step(-796845540, -25200, 0, "MST", Ghost(g))
        .step(-84380400, -25200, 3600, "MDT", Ghost(g))
        .step(-68659200, -25200, 0, "MST", Ghost(g))
        .finish(Ghost(g))
}

/// The zone `America/Port-au-Prince`.
pub fn port_au_prince() -> (r: Tz)
    ensures
        r.wf(),
        r.zone_name() == "America/Port-au-Prince"@,
        r.table() == tables::america::port_au_prince(),
{
    let ghost g = tables::america::port_au_prince_rows();
    FixedTimespanSet::begin("America/Port-au-Prince", -17360, 0, "LMT", Ghost(g))
        .step(-2524504240, -17340, 0, "PPMT", Ghost(g))
        .step(-1670483460, -18000, 0, "EST", Ghost(g))
        .step(421218000, -18000, 3600, "EDT", Ghost(g))
        .step(436334400, -18000, 0, "EST", Ghost(g))
        .step(452062800, -18000, 3600, "EDT", Ghost(g))
        .step(467784000, -18000, 0, "EST", Ghost(g))
        .step(483512400, -18000, 3600, "EDT", Ghost(g))
        .step(499233600, -18000, 0, "EST", Ghost(g))
        .step(514962000, -18000, 3600, "EDT", Ghost(g))
        .step(530683200, -18000, 0, "EST", Ghost(g))
        .step(546411600, -18000, 3600, "EDT", Ghost(g))
        .step(562132800, -18000, 0, "EST", Ghost(g))
        .step(576050400, -18000, 3600, "EDT", Ghost(g))
        .step(594194400, -18000, 0, "EST", Ghost(g))
        .step(607500000, -18000, 3600, "EDT", Ghost(g))
        .step(625644000, -18000, 0, "EST", Ghost(g))
        .step(638949600, -18000, 3600, "EDT", Ghost(g))
        .step(657093600, -18000, 0, "EST", Ghost(g))
        .step(671004000, -18000, 3600, "EDT", Ghost(g))
        .step(688543200, -18000, 0, "EST", Ghost(g))
        .step(702453600, -18000, 3600, "EDT", Ghost(g))
        .step(719992800, -18000, 0, "EST", Ghost(g))
        .step(733903200, -18000, 3600, "EDT", Ghost(g))
        .step(752047200, -18000, 0, "EST", Ghost(g))
        .step(765352800, -18000, 3600, "EDT", Ghost(g))
        .step(783496800, -18000, 0, "EST", Ghost(g))
        .step(796802400, -18000, 3600, "EDT", Ghost(g))
        .step(814946400, -18000, 0, "EST", Ghost(g))
        .step(828856800, -18000, 3600, "EDT", Ghost(g))
        .step(846396000, -18000, 0, "EST", Ghost(g))
        .step(860306400, -18000, 3600, "EDT", Ghost(g))
        .step(877845600, -18000, 0, "EST", Ghost(g))
        .step(1112504400, -18000, 3600, "EDT", Ghost(g))
        .step(1130644800, -18000, 0, "EST", Ghost(g))
        .step(1143954000, -18000, 3600, "EDT", Ghost(g))
        .step(1162094400, -18000, 0, "EST", Ghost(g))
        .step(1331449200, -18000, 3600, "EDT", Ghost(g))
        .step(1352008800, -18000, 0, "EST", Ghost(g))
        .step(1362898800, -18000, 3600, "EDT", Ghost(g))
        .step(1383458400, -18000, 0, "EST", Ghost(g))
        .step(1394348400, -18000, 3600, "EDT", Ghost(g))
        .step(1414908000, -18000, 0, "EST", Ghost(g))
        .step(1425798000, -18000, 3600, "EDT", Ghost(g))
        .step(1446357600, -18000, 0, "EST", Ghost(g))
        .step(1489302000, -18000, 3600, "EDT", Ghost(g))
        .step(1509861600, -18000, 0, "EST", Ghost(g))
        .step(1520751600, -18000, 3600, "EDT", Ghost(g))
        .step(1541311200, -18000, 0, "EST", Ghost(g))
        .step(1552201200, -18000, 3600, "EDT", Ghost(g))
        .step(1572760800, -18000, 0, "EST", Ghost(g))
        .step(1583650800, -18000, 3600, "EDT", Ghost(g))
        .step(1604210400, -18000, 0, "EST", Ghost(g))
        .step(1615705200, -18000, 3600, "EDT", Ghost(g))
        .step(1636264800, -18000, 0, "EST", Ghost(g))
        .step(1647154800, -18000, 3600, "EDT", Ghost(g))
        .step(1667714400, -18000, 0, "EST", Ghost(g))
        .step(1678604400, -18000, 3600, "EDT", Ghost(g))
        .step(1699164000, -18000, 0, "EST", Ghost(g))
        .step(1710054000, -18000, 3600, "EDT", Ghost(g))
        .step(1730613600, -18000, 0, "EST", Ghost(g))
        .step(1741503600, -18000, 3600, "EDT", Ghost(g))
        .step(1762063200, -18000, 0, "EST", Ghost(g))
        .step(1772953200, -18000, 3600, "EDT", Ghost(g))
        .step(1793512800, -18000, 0, "EST", Ghost(g))
        .step(1805007600, -18000, 3600, "EDT", Ghost(g))
        .step(1825567200, -18000, 0, "EST", Ghost(g))
        .step(1836457200, -18000, 3600, "EDT", Ghost(g))
        .step(1857016800, -18000, 0, "EST", Ghost(g))
        .step(1867906800, -18000, 3600, "EDT", Ghost(g))
        .step(1888466400, -18000, 0, "EST", Ghost(g))
        .step(1899356400, -18000, 3600, "EDT", Ghost(g))
        .step(1919916000, -18000, 0, "EST", Ghost(g))
        .step(1930806000, -18000, 3600, "EDT", Ghost(g))
        .step(1951365600, -18000, 0, "EST", Ghost(g))
        .step(1962860400, -18000, 3600, "EDT", Ghost(g))
        .step(1983420000, -18000, 0, "EST", Ghost(g))
        .step(1994310000, -18000, 3600, "EDT", Ghost(g))
        .step(2014869600, -18000, 0, "EST", Ghost(g))
        .step(2025759600, -18000, 3600, "EDT", Ghost(g))
        .step(2046319200, -18000, 0, "EST", Ghost(g))
        .step(2057209200, -18000, 3600, "EDT", Ghost(g))
        .step(2077768800, -18000, 0, "EST", Ghost(g))
        .step(2088658800, -18000, 3600, "EDT", Ghost(g))
        .step(2109218400, -18000, 0, "EST", Ghost(g))
        .step(2120108400, -18000, 3600, "EDT", Ghost(g))
        .step(2140668000, -18000, 0, "EST", Ghost(g))
        .finish(Ghost(g))
}

/// The zone `America/Port_of_Spain`.
pub fn port_of_spain() -> (r: Tz)
    ensures
        r.wf(),
        r.zone_name() == "America/Port_of_Spain"@,
        r.table() == tables::america::port_of_spain(),
{
    let ghost g = tables::america::port_of_spain_rows();
    FixedTimespanSet::begin("America/Port_of_Spain", -14764, 0, "LMT", Ghost(g))
        .step(-1825098836, -14400, 0, "AST", Ghost(g))
        .finish(Ghost(g))
}

/// The zone `America/Porto_Acre`.
pub fn porto_acre() -> (r: Tz)
    ensures
        r.wf(),
        r.zone_name() == "America/Porto_Acre"@,
        r.table() == tables::america::porto_acre(),
{
    let ghost g = tables::america::porto_acre_rows();
    FixedTimespanSet::begin("America/Porto_Acre", -16272, 0, "LMT", Ghost(g))
        .step(-1767209328, -18000, 0, "-05", Ghost(g))
        .step(-1206950400, -18000, 3600, "-04", Ghost(g))
        .step(-1191355200, -18000, 0, "-05", Ghost(g))
        .step(-1175367600, -18000, 3600, "-04", Ghost(g))
        .step(-1159819200, -18000, 0, "-05", Ghost(g))
        .step(-633812400, -18000, 3600, "-04", Ghost(g))
        .step(-622062000, -18000, 0, "-05", Ghost(g))
        .step(-602276400, -18000, 3600, "-04", Ghost(g))
        .step(-591825600, -18000, 0, "-05", Ghost(g))
        .step(-570740400, -18000, 3600, "-04", Ghost(g))
        .step(-560203200, -18000, 0, "-05", Ghost(g))
        .step(-539118000, -18000, 3600, "-04", Ghost(g))
        .step(-531345600, -18000, 0, "-05", Ghost(g))
        .step(-191358000, -18000, 3600, "-04", Ghost(g))
        .step(-184190400, -18000, 0, "-05", Ghost(g))
        .step(-155156400, -18000, 3600, "-04", Ghost(g))
        .step(-150062400, -18000, 0, "-05", Ghost(g))
        .step(-128890800, -18000, 3600, "-04", Ghost(g))
        .step(-121118400, -18000, 0, "-05", Ghost(g))
        .step(-99946800, -18000, 3600, "-04", Ghost(g))
        .step(-89582400, -18000, 0, "-05", Ghost(g))
        .step(-68410800, -18000, 3600, "-04", Ghost(g))
        .step(-57960000, -18000, 0, "-05", Ghost(g))
        .step(499755600, -18000, 3600, "-04", Ghost(g))
        .step(511243200, -18000, 0, "-05", Ghost(g))
        .step(530600400, -18000, 3600, "-04", Ghost(g))
        .step(540273600, -18000, 0, "-05", Ghost(g))
        .step(562136400, -18000, 3600, "-04", Ghost(g))
        .step(571204800, -18000, 0, "-05", Ghost(g))
        .step(1214283600, -14400, 0, "-04", Ghost(g))
        .step(1384056000, -18000, 0, "-05", Ghost(g))
        .step(2147483647, -18000, 0, "-05", Ghost(g))
        .finish(Ghost(g))
}

/// The zone `America/Porto_Velho`.
pub fn porto_velho() -> (r: Tz)
    ensures
        r.wf(),
        r.zone_name() == "America/Porto_Velho"@,
        r.table() == tables::america::porto_velho(),
{
    let ghost g = tables::america::porto_velho_rows();
    FixedTimespanSet::begin("America/Porto_Velho", -15336, 0, "LMT", Ghost(g))
        .step(-1767210264, -14400, 0, "-04", Ghost(g))
        .step(-1206954000, -14400, 3600, "-03", Ghost(g))
        .step(-1191358800, -14400, 0, "-04", Ghost(g))
        .step(-1175371200, -14400, 3600, "-03", Ghost(g))
        .step(-1159822800, -14400, 0, "-04", Ghost(g))
        .step(-633816000, -14400, 3600, "-03", Ghost(g))
        .step(-622065600, -14400, 0, "-04", Ghost(g))
        .step(-602280000, -14400, 3600, "-03", Ghost(g))
        .step(-591829200, -14400, 0, "-04", Ghost(g))
        .step(-570744000, -14400, 3600, "-03", Ghost(g))
        .step(-560206800, -14400, 0, "-04", Ghost(g))
        .step(-539121600, -14400, 3600, "-03", Ghost(g))
        .step(-531349200, -14400, 0, "-04", Ghost(g))
        .step(-191361600, -14400, 3600, "-03", Ghost(g))
        .step(-184194000, -14400, 0, "-04", Ghost(g))
        .step(-155160000, -14400, 3600, "-03", Ghost(g))
        .step(-150066000, -14400, 0, "-04", Ghost(g))
        .step(-128894400, -14400, 3600, "-03", Ghost(g))
        .step(-121122000, -14400, 0, "-04", Ghost(g))
        .step(-99950400, -14400, 3600, "-03", Ghost(g))
        .step(-89586000, -14400, 0, "-04", Ghost(g))
        .step(-68414400, -14400, 3600, "-03", Ghost(g))
        .step(-57963600, -14400, 0, "-04", Ghost(g))
        .step(499752000, -14400, 3600, "-03", Ghost(g))
        .step(511239600, -14400, 0, "-04", Ghost(g))
        .step(530596800, -14400, 3600, "-03", Ghost(g))
        .step(540270000, -14400, 0, "-04", Ghost(g))
        .step(562132800, -14400, 3600, "-03", Ghost(g))
        .step(571201200, -14400, 0, "-04", Ghost(g))
        .step(2147483647, -14400, 0, "-04", Ghost(g))
        .finish(Ghost(g))
}

/// The zone `America/Puerto_Rico`.
pub fn puerto_rico() -> (r: Tz)
    ensures
        r.wf(),
        r.zone_name() == "America/Puerto_Rico"@,
        r.table() == tables::america::puerto_rico(),
{
    let ghost g = tables::america::puerto_rico_rows();
    FixedTimespanSet::begin("America/Puerto_Rico", -15865, 0, "LMT", Ghost(g))
        .step(-2233035335, -14400, 0, "AST", Ghost(g))
        .step(-873057600, -14400, 3600, "AWT", Ghost(g))
        .step(-769395600, -14400, 3600, "APT", Ghost(g))
        .step(-765399600, -14400, 0, "AST", Ghost(g))
        .finish(Ghost(g))
}

/// The zone `America/Punta_Arenas`.
pub fn punta_arenas() -> (r: Tz)
    ensures
        r.wf(),
        r.zone_name() == "America/Punta_Arenas"@,
        r.table() == tables::america::punta_arenas(),
{
    let ghost g = tables::america::punta_arenas_rows();
    FixedTimespanSet::begin("America/Punta_Arenas", -17020, 0, "LMT", Ghost(g))
        .step(-2524504580, -16965, 0, "SMT", Ghost(g))
        .step(-1892661435, -18000, 0, "-05", Ghost(g))
        .step(-1688410800, -16965, 0, "SMT", Ghost(g))
        .step(-1619205435, -14400, 0, "-04", Ghost(g))
        .step(-1593806400, -16965, 0, "SMT", Ghost(g))
        .step(-1335986235, -16965, 2565, "-04", Ghost(g))
        .step(-1317585600, -18000, 0, "-05", Ghost(g))
        .step(-1304362800, -18000, 3600, "-04", Ghost(g))
        .step(-1286049600, -18000, 0, "-05", Ghost(g))
        .step(-1272826800, -18000, 3600, "-04", Ghost(g))
        .step(-1254513600, -18000, 0, "-05", Ghost(g))
        .step(-1241290800, -18000, 3600, "-04", Ghost(g))
        .step(-1222977600, -18000, 0, "-05", Ghost(g))
        .step(-1209754800, -18000, 3600, "-04", Ghost(g))
        .step(-1191355200, -18000, 0, "-05", Ghost(g))
        .step(-1178132400, -14400, 0, "-04", Ghost(g))
        .step(-870552000, -18000, 0, "-05", Ghost(g))
        .step(-865278000, -14400, 0, "-04", Ghost(g))
        .step(-736632000, -18000, 3600, "-04", Ghost(g))
        .step(-718056000, -18000, 0, "-05", Ghost(g))
        .step(-713649600, -14400, 0, "-04", Ghost(g))
        .step(-36619200, -14400, 3600, "-03", Ghost(g))
        .step(-23922000, -14400, 0, "-04", Ghost(g))
        .step(-3355200, -14400, 3600, "-03", Ghost(g))
        .step(7527600, -14400, 0, "-04", Ghost(g))
        .step(24465600, -14400, 3600, "-03", Ghost(g))
        .step(37767600, -14400, 0, "-04", Ghost(g))
        .step(55915200, -14400, 3600, "-03", Ghost(g))
        .step(69217200, -14400, 0, "-04", Ghost(g))
        .step(87969600, -14400, 3600, "-03", Ghost(g))
        .step(100666800, -14400, 0, "-04", Ghost(g))
        .step(118209600, -14400, 3600, "-03", Ghost(g))
        .step(132116400, -14400, 0, "-04", Ghost(g))
        .step(150868800, -14400, 3600, "-03", Ghost(g))
        .step(163566000, -14400, 0, "-04", Ghost(g))
        .step(182318400, -14400, 3600, "-03", Ghost(g))
        .step(195620400, -14400, 0, "-04", Ghost(g))
        .step(213768000, -14400, 3600, "-03", Ghost(g))
        .step(227070000, -14400, 0, "-04", Ghost(g))
        .step(245217600, -14400, 3600, "-03", Ghost(g))
        .step(258519600, -14400, 0, "-04", Ghost(g))
        .step(277272000, -14400, 3600, "-03", Ghost(g))
        .step(289969200, -14400, 0, "-04", Ghost(g))
        .step(308721600, -14400, 3600, "-03", Ghost(g))
        .step(321418800, -14400, 0, "-04", Ghost(g))
        .step(340171200, -14400, 3600, "-03", Ghost(g))
        .step(353473200, -14400, 0, "-04", Ghost(g))
        .step(371620800, -14400, 3600, "-03", Ghost(g))
        .step(384922800, -14400, 0, "-04", Ghost(g))
        .step(403070400, -14400, 3600, "-03", Ghost(g))
        .step(416372400, -14400, 0, "-04", Ghost(g))
        .step(434520000, -14400, 3600, "-03", Ghost(g))
        .step(447822000, -14400, 0, "-04", Ghost(g))
        .step(466574400, -14400, 3600, "-03", Ghost(g))
        .step(479271600, -14400, 0, "-04", Ghost(g))
        .step(498024000, -14400, 3600, "-03", Ghost(g))
        .step(510721200, -14400, 0, "-04", Ghost(g))
        .step(529473600, -14400, 3600, "-03", Ghost(g))
        .step(545194800, -14400, 0, "-04", Ghost(g))
        .step(560923200, -14400, 3600, "-03", Ghost(g))
        .step(574225200, -14400, 0, "-04", Ghost(g))
        .step(592372800, -14400, 3600, "-03", Ghost(g))
        .step(605674800, -14400, 0, "-04", Ghost(g))
        .step(624427200, -14400, 3600, "-03", Ghost(g))
        .step(637124400, -14400, 0, "-04", Ghost(g))
        .step(653457600, -14400, 3600, "-03", Ghost(g))
        .step(668574000, -14400, 0, "-04", Ghost(g))
        .step(687326400, -14400, 3600, "-03", Ghost(g))
        .step(700628400, -14400, 0, "-04", Ghost(g))
        .step(718776000, -14400, 3600, "-03", Ghost(g))
        .step(732078000, -14400, 0, "-04", Ghost(g))
        .step(750225600, -14400, 3600, "-03", Ghost(g))
        .step(763527600, -14400, 0, "-04", Ghost(g))
        .step(781675200, -14400, 3600, "-03", Ghost(g))
        .step(794977200, -14400, 0, "-04", Ghost(g))
        .step(813729600, -14400, 3600, "-03", Ghost(g))
        .step(826426800, -14400, 0, "-04", Ghost(g))
        .step(845179200, -14400, 3600, "-03", Ghost(g))
        .step(859690800, -14400, 0, "-04", Ghost(g))
        .step(876628800, -14400, 3600, "-03", Ghost(g))
        .step(889930800, -14400, 0, "-04", Ghost(g))
        .step(906868800, -14400, 3600, "-03", Ghost(g))
        .step(923194800, -14400, 0, "-04", Ghost(g))
        .step(939528000, -14400, 3600, "-03", Ghost(g))
        .step(952830000, -14400, 0, "-04", Ghost(g))
        .step(971582400, -14400, 3600, "-03", Ghost(g))
        .step(984279600, -14400, 0, "-04", Ghost(g))
        .step(1003032000, -14400, 3600, "-03", Ghost(g))
        .step(1015729200, -14400, 0, "-04", Ghost(g))
        .step(1034481600, -14400, 3600, "-03", Ghost(g))
        .step(1047178800, -14400, 0, "-04", Ghost(g))
        .step(1065931200, -14400, 3600, "-03", Ghost(g))
        .step(1079233200, -14400, 0, "-04", Ghost(g))
        .step(1097380800, -14400, 3600, "-03", Ghost(g))
        .step(1110682800, -14400, 0, "-04", Ghost(g))
        .step(1128830400, -14400, 3600, "-03", Ghost(g))
        .step(1142132400, -14400, 0, "-04", Ghost(g))
        .step(1160884800, -14400, 3600, "-03", Ghost(g))
        .step(1173582000, -14400, 0, "-04", Ghost(g))
        .step(1192334400, -14400, 3600, "-03", Ghost(g))
        .step(1206846000, -14400, 0, "-04", Ghost(g))
        .step(1223784000, -14400, 3600, "-03", Ghost(g))
        .step(1237086000, -14400, 0, "-04", Ghost(g))
        .step(1255233600, -14400, 3600, "-03", Ghost(g))
        .step(1270350000, -14400, 0, "-04", Ghost(g))
        .step(1286683200, -14400, 3600, "-03", Ghost(g))
        .step(1304823600, -14400, 0, "-04", Ghost(g))
        .step(1313899200, -14400, 3600, "-03", Ghost(g))
        .step(1335668400, -14400, 0, "-04", Ghost(g))
        .step(1346558400, -14400, 3600, "-03", Ghost(g))
        .step(1367118000, -14400, 0, "-04", Ghost(g))
        .step(1378612800, -14400, 3600, "-03", Ghost(g))
        .step(1398567600, -14400, 0, "-04", Ghost(g))
        .step(1410062400, -14400, 3600, "-03", Ghost(g))
        .step(1463281200, -14400, 0, "-04", Ghost(g))
        .step(1471147200, -14400, 3600, "-03", Ghost(g))
        .step(1480820400, -10800, 0, "-03", Ghost(g))
        .step(2147483647, -10800, 0, "-03", Ghost(g))
        .finish(Ghost(g))
}

/// The zone `America/Rainy_River`.
pub fn rainy_river() -> (r: Tz)
    ensures
        r.wf(),
        r.zone_name() == "America/Rainy_River"@,
        r.table() == tables::america::rainy_river(),
{
    let ghost g = tables::america::rainy_river_rows();
    FixedTimespanSet::begin("America/Rainy_River", -23316, 0, "LMT", Ghost(g))
        .step(-2602258284, -21600, 0, "CST", Ghost(g))
        .step(-1694368800, -21600, 3600, "CDT", Ghost(g))
        .step(-1681671600, -21600, 0, "CST", Ghost(g))
        .step(-1632067200, -21600, 3600, "CDT", Ghost(g))
        .step(-1615136400, -21600, 0, "CST", Ghost(g))
        .step(-1029686400, -21600, 3600, "CDT", Ghost(g))
        .step(-1018198800, -21600, 0, "CST", Ghost(g))
        .step(-880214400, -21600, 3600, "CWT", Ghost(g))
        .step(-769395600, -21600, 3600, "CPT", Ghost(g))
        .step(-765392400, -21600, 0, "CST", Ghost(g))
        .step(-746035200, -21600, 3600, "CDT", Ghost(g))
        .step(-732733200, -21600, 0, "CST", Ghost(g))
        .step(-715795200, -21600, 3600, "CDT", Ghost(g))
        .step(-702493200, -21600, 0, "CST", Ghost(g))
        .step(-684345600, -21600, 3600, "CDT", Ghost(g))
        .step(-671043600, -21600, 0, "CST", Ghost(g))
        .step(-652896000, -21600, 3600, "CDT", Ghost(g))
        .step(-639594000, -21600, 0, "CST", Ghost(g))
        .step(-620755200, -21600, 3600, "CDT", Ghost(g))
        .step(-607626000, -21600, 0, "CST", Ghost(g))
        .step(-589392000, -21600, 3600, "CDT", Ghost(g))
        .step(-576090000, -21600, 0, "CST", Ghost(g))
        .step(-557942400, -21600, 3600, "CDT", Ghost(g))
        .step(-544640400, -21600, 0, "CST", Ghost(g))
        .step(-526492800, -21600, 3600, "CDT", Ghost(g))
        .step(-513190800, -21600, 0, "CST", Ghost(g))
        .step(-495043200, -21600, 3600, "CDT", Ghost(g))
        .step(-481741200, -21600, 0, "CST", Ghost(g))
        .step(-463593600, -21600, 3600, "CDT", Ghost(g))
        .step(-450291600, -21600, 0, "CST", Ghost(g))
        .step(-431539200, -21600, 3600, "CDT", Ghost(g))
        .step(-418237200, -21600, 0, "CST", Ghost(g))
        .step(-400089600, -21600, 3600, "CDT", Ghost(g))
        .step(-386787600, -21600, 0, "CST", Ghost(g))
        .step(-368640000, -21600, 3600, "CDT", Ghost(g))
        .step(-355338000, -21600, 0, "CST", Ghost(g))
        .step(-337190400, -21600, 3600, "CDT", Ghost(g))
        .step(-321469200, -21600, 0, "CST", Ghost(g))
        .step(-305740800, -21600, 3600, "CDT", Ghost(g))
        .step(-292438800, -21600, 0, "CST", Ghost(g))
        .step(-210787200, -21600, 3600, "CDT", Ghost(g))
        .step(-198090000, -21600, 0, "CST", Ghost(g))
        .step(-116438400, -21600, 3600, "CDT", Ghost(g))
        .step(-100108800, -21600, 0, "CST", Ghost(g))
        .step(-84384000, -21600, 3600, "CDT", Ghost(g))
        .step(-68659200, -21600, 0, "CST", Ghost(g))
        .step(-52934400, -21600, 3600, "CDT", Ghost(g))
        .step(-37209600, -21600, 0, "CST", Ghost(g))
        .step(-21484800, -21600, 3600, "CDT", Ghost(g))
        .step(-5760000, -21600, 0, "CST", Ghost(g))
        .step(9964800, -21600, 3600, "CDT", Ghost(g))
        .step(25689600, -21600, 0, "CST", Ghost(g))
        .step(41414400, -21600, 3600, "CDT", Ghost(g))
        .step(57744000, -21600, 0, "CST", Ghost(g))
        .step(73468800, -21600, 3600, "CDT", Ghost(g))
        .step(89193600, -21600, 0, "CST", Ghost(g))
        .step(104918400, -21600, 3600, "CDT", Ghost(g))
        .step(120643200, -21600, 0, "CST", Ghost(g))
        .step(136368000, -21600, 3600, "CDT", Ghost(g))
        .step(152092800, -21600, 0, "CST", Ghost(g))
        .step(167817600, -21600, 3600, "CDT", Ghost(g))
        .step(183542400, -21600, 0, "CST", Ghost(g))
        .step(199267200, -21600, 3600, "CDT", Ghost(g))
        .step(215596800, -21600, 0, "CST", Ghost(g))
        .step(230716800, -21600, 3600, "CDT", Ghost(g))
        .step(247046400, -21600, 0, "CST", Ghost(g))
        .step(262771200, -21600, 3600, "CDT", Ghost(g))
        .step(278496000, -21600, 0, "CST", Ghost(g))
        .step(294220800, -21600, 3600, "CDT", Ghost(g))
        .step(309945600, -21600, 0, "CST", Ghost(g))
        .step(325670400, -21600, 3600, "CDT", Ghost(g))
        .step(341395200, -21600, 0, "CST", Ghost(g))
        .step(357120000, -21600, 3600, "CDT", Ghost(g))
        .step(372844800, -21600, 0, "CST", Ghost(g))
        .step(388569600, -21600, 3600, "CDT", Ghost(g))
        .step(404899200, -21600, 0, "CST", Ghost(g))
        .step(420019200, -21600, 3600, "CDT", Ghost(g))
        .step(436348800, -21600, 0, "CST", Ghost(g))
        .step(452073600, -21600, 3600, "CDT", Ghost(g))
        .step(467798400, -21600, 0, "CST", Ghost(g))
        .step(483523200, -21600, 3600, "CDT", Ghost(g))
        .step(499248000, -21600, 0, "CST", Ghost(g))
        .step(514972800, -21600, 3600, "CDT", Ghost(g))
        .step(530697600, -21600, 0, "CST", Ghost(g))
        .step(544608000, -21600, 3600, "CDT", Ghost(g))
        .step(562147200, -21600, 0, "CST", Ghost(g))
        .step(576057600, -21600, 3600, "CDT", Ghost(g))
        .step(594201600, -21600, 0, "CST", Ghost(g))
        .step(607507200, -21600, 3600, "CDT", Ghost(g))
        .step(625651200, -21600, 0, "CST", Ghost(g))
        .step(638956800, -21600, 3600, "CDT", Ghost(g))
        .step(657100800, -21600, 0, "CST", Ghost(g))
        .step(671011200, -21600, 3600, "CDT", Ghost(g))
        .step(688550400, -21600, 0, "CST", Ghost(g))
        .step(702460800, -21600, 3600, "CDT", Ghost(g))
        .step(720000000, -21600, 0, "CST", Ghost(g))
        .step(733910400, -21600, 3600, "CDT", Ghost(g))
        .step(752054400, -21600, 0, "CST", Ghost(g))
        .step(765360000, -21600, 3600, "CDT", Ghost(g))
        .step(783504000, -21600, 0, "CST", Ghost(g))
        .step(796809600, -21600, 3600, "CDT", Ghost(g))
        .step(814953600, -21600, 0, "CST", Ghost(g))
        .step(828864000, -21600, 3600, "CDT", Ghost(g))
        .step(846403200, -21600, 0, "CST", Ghost(g))
        .step(860313600, -21600, 3600, "CDT", Ghost(g))
        .step(877852800, -21600, 0, "CST", Ghost(g))
        .step(891763200, -21600, 3600, "CDT", Ghost(g))
        .step(909302400, -21600, 0, "CST", Ghost(g))
        .step(923212800, -21600, 3600, "CDT", Ghost(g))
        .step(941356800, -21600, 0, "CST", Ghost(g))
        .step(954662400, -21600, 3600, "CDT", Ghost(g))
        .step(972806400, -21600, 0, "CST", Ghost(g))
        .step(986112000, -21600, 3600, "CDT", Ghost(g))
        .step(1004256000, -21600, 0, "CST", Ghost(g))
        .step(1018166400, -21600, 3600, "CDT", Ghost(g))
        .step(1035705600, -21600, 0, "CST", Ghost(g))
        .step(1049616000, -21600, 3600, "CDT", Ghost(g))
        .step(1067155200, -21600, 0, "CST", Ghost(g))
        .step(1081065600, -21600, 3600, "CDT", Ghost(g))
        .step(1099209600, -21600, 0, "CST", Ghost(g))
        .step(1112515200, -21600, 3600, "CDT", Ghost(g))
        .step(1130659200, -21600, 0, "CST", Ghost(g))
        .step(1143964800, -21600, 3600, "CDT", Ghost(g))
        .step(1162105200, -21600, 0, "CST", Ghost(g))
        .step(1173600000, -21600, 3600, "CDT", Ghost(g))
        .step(1194159600, -21600, 0, "CST", Ghost(g))
        .step(1205049600, -21600, 3600, "CDT", Ghost(g))
        .step(1225609200, -21600, 0, "CST", Ghost(g))
        .step(1236499200, -21600, 3600, "CDT", Ghost(g))
        .step(1257058800, -21600, 0, "CST", Ghost(g))
        .step(1268553600, -21600, 3600, "CDT", Ghost(g))
        .step(1289113200, -21600, 0, "CST", Ghost(g))
        .step(1300003200, -21600, 3600, "CDT", Ghost(g))
        .step(1320562800, -21600, 0, "CST", Ghost(g))
        .step(1331452800, -21600, 3600, "CDT", Ghost(g))
        .step(1352012400, -21600, 0, "CST", Ghost(g))
        .step(1362902400, -21600, 3600, "CDT", Ghost(g))
        .step(1383462000, -21600, 0, "CST", Ghost(g))
        .step(1394352000, -21600, 3600, "CDT", Ghost(g))
        .step(1414911600, -21600, 0, "CST", Ghost(g))
        .step(1425801600, -21600, 3600, "CDT", Ghost(g))
        .step(1446361200, -21600, 0, "CST", Ghost(g))
        .step(1457856000, -21600, 3600, "CDT", Ghost(g))
        .step(1478415600, -21600, 0, "CST", Ghost(g))
        .step(1489305600, -21600, 3600, "CDT", Ghost(g))
        .step(1509865200, -21600, 0, "CST", Ghost(g))
        .step(1520755200, -21600, 3600, "CDT", Ghost(g))
        .step(1541314800, -21600, 0, "CST", Ghost(g))
        .step(1552204800, -21600, 3600, "CDT", Ghost(g))
        .step(1572764400, -21600, 0, "CST", Ghost(g))
        .step(1583654400, -21600, 3600, "CDT", Ghost(g))
        .step(1604214000, -21600, 0, "CST", Ghost(g))
        .step(1615708800, -21600, 3600, "CDT", Ghost(g))
        .step(1636268400, -21600, 0, "CST", Ghost(g))
        .step(1647158400, -21600, 3600, "CDT", Ghost(g))
        .step(1667718000, -21600, 0, "CST", Ghost(g))
        .step(1678608000, -21600, 3600, "CDT", Ghost(g))
        .step(1699167600, -21600, 0, "CST", Ghost(g))
        .step(1710057600, -21600, 3600, "CDT", Ghost(g))
        .step(1730617200, -21600, 0, "CST", Ghost(g))
        .step(1741507200, -21600, 3600, "CDT", Ghost(g))
        .step(1762066800, -21600, 0, "CST", Ghost(g))
        .step(1772956800, -21600, 3600, "CDT", Ghost(g))
        .step(1793516400, -21600, 0, "CST", Ghost(g))
        .step(1805011200, -21600, 3600, "CDT", Ghost(g))
        .step(1825570800, -21600, 0, "CST", Ghost(g))
        .step(1836460800, -21600, 3600, "CDT", Ghost(g))
        .step(1857020400, -21600, 0, "CST", Ghost(g))
        .step(1867910400, -21600, 3600, "CDT", Ghost(g))
        .step(1888470000, -21600, 0, "CST", Ghost(g))
        .step(1899360000, -21600, 3600, "CDT", Ghost(g))
        .step(1919919600, -21600, 0, "CST", Ghost(g))
        .step(1930809600, -21600, 3600, "CDT", Ghost(g))
        .step(1951369200, -21600, 0, "CST", Ghost(g))
        .step(1962864000, -21600, 3600, "CDT", Ghost(g))
        .step(1983423600, -21600, 0, "CST", Ghost(g))
        .step(1994313600, -21600, 3600, "CDT", Ghost(g))
        .step(2014873200, -21600, 0, "CST", Ghost(g))
        .step(2025763200, -21600, 3600, "CDT", Ghost(g))
        .step(2046322800, -21600, 0, "CST", Ghost(g))
        .step(2057212800, -21600, 3600, "CDT", Ghost(g))
        .step(2077772400, -21600, 0, "CST", Ghost(g))
        .step(2088662400, -21600, 3600, "CDT", Ghost(g))
        .step(2109222000, -21600, 0, "CST", Ghost(g))
        .step(2120112000, -21600, 3600, "CDT", Ghost(g))
        .step(2140671600, -21600, 0, "CST", Ghost(g))
        .finish(Ghost(g))
}

/// The zone `America/Rankin_Inlet`.
pub fn rankin_inlet() -> (r: Tz)
    ensures
        r.wf(),
        r.zone_name() == "America/Rankin_Inlet"@,
        r.table() == tables::america::rankin_inlet(),
{
    let ghost g = tables::america::rankin_inlet_rows();
    FixedTimespanSet::begin("America/Rankin_Inlet", 0, 0, "-00", Ghost(g))
        .step(-410227200, -21600, 0, "CST", Ghost(g))
        .step(73468800, -21600, 3600, "CDT", Ghost(g))
        .step(89190000, -21600, 0, "CST", Ghost(g))
        .step(104918400, -21600, 3600, "CDT", Ghost(g))
        .step(120639600, -21600, 0, "CST", Ghost(g))
        .step(136368000, -21600, 3600, "CDT", Ghost(g))
        .step(152089200, -21600, 0, "CST", Ghost(g))
        .step(167817600, -21600, 3600, "CDT", Ghost(g))
        .step(183538800, -21600, 0, "CST", Ghost(g))
        .step(199267200, -21600, 3600, "CDT", Ghost(g))
        .step(215593200, -21600, 0, "CST", Ghost(g))
        .step(230716800, -21600, 3600, "CDT", Ghost(g))
        .step(247042800, -21600, 0, "CST", Ghost(g))
        .step(262771200, -21600, 3600, "CDT", Ghost(g))
        .step(278492400, -21600, 0, "CST", Ghost(g))
        .step(294220800, -21600, 3600, "CDT", Ghost(g))
        .step(309942000, -21600, 0, "CST", Ghost(g))
        .step(325670400, -21600, 3600, "CDT", Ghost(g))
        .step(341391600, -21600, 0, "CST", Ghost(g))
        .step(357120000, -21600, 3600, "CDT", Ghost(g))
        .step(372841200, -21600, 0, "CST", Ghost(g))
        .step(388569600, -21600, 3600, "CDT", Ghost(g))
        .step(404895600, -21600, 0, "CST", Ghost(g))
        .step(420019200, -21600, 3600, "CDT", Ghost(g))
        .step(436345200, -21600, 0, "CST", Ghost(g))
        .step(452073600, -21600, 3600, "CDT", Ghost(g))
        .step(467794800, -21600, 0, "CST", Ghost(g))
        .step(483523200, -21600, 3600, "CDT", Ghost(g))
        .step(499244400, -21600, 0, "CST", Ghost(g))
        .step(514972800, -21600, 3600, "CDT", Ghost(g))
        .step(530694000, -21600, 0, "CST", Ghost(g))
        .step(544608000, -21600, 3600, "CDT", Ghost(g))
        .step(562143600, -21600, 0, "CST", Ghost(g))
        .step(576057600, -21600, 3600, "CDT", Ghost(g))
        .step(594198000, -21600, 0, "CST", Ghost(g))
        .step(607507200, -21600, 3600, "CDT", Ghost(g))
        .step(625647600, -21600, 0, "CST", Ghost(g))
        .step(638956800, -21600, 3600, "CDT", Ghost(g))
        .step(657097200, -21600, 0, "CST", Ghost(g))
        .step(671011200, -21600, 3600, "CDT", Ghost(g))
        .step(688546800, -21600, 0, "CST", Ghost(g))
        .step(702460800, -21600, 3600, "CDT", Ghost(g))
        .step(719996400, -21600, 0, "CST", Ghost(g))
        .step(733910400, -21600, 3600, "CDT", Ghost(g))
        .step(752050800, -21600, 0, "CST", Ghost(g))
        .step(765360000, -21600, 3600, "CDT", Ghost(g))
        .step(783500400, -21600, 0, "CST", Ghost(g))
        .step(796809600, -21600, 3600, "CDT", Ghost(g))
        .step(814950000, -21600, 0, "CST", Ghost(g))
        .step(828864000, -21600, 3600, "CDT", Ghost(g))
        .step(846399600, -21600, 0, "CST", Ghost(g))
        .step(860313600, -21600, 3600, "CDT", Ghost(g))
        .step(877849200, -21600, 0, "CST", Ghost(g))
        .step(891763200, -21600, 3600, "CDT", Ghost(g))
        .step(909298800, -21600, 0, "CST", Ghost(g))
        .step(923212800, -21600, 3600, "CDT", Ghost(g))
        .step(941353200, -21600, 0, "CST", Ghost(g))
        .step(954662400, -21600, 3600, "CDT", Ghost(g))
        .step(972802800, -18000, 0, "EST", Ghost(g))
        .step(986112000, -21600, 3600, "CDT", Ghost(g))
        .step(1004252400, -21600, 0, "CST", Ghost(g))
        .step(1018166400, -21600, 3600, "CDT", Ghost(g))
        .step(1035702000, -21600, 0, "CST", Ghost(g))
        .step(1049616000, -21600, 3600, "CDT", Ghost(g))
        .step(1067151600, -21600, 0, "CST", Ghost(g))
        .step(1081065600, -21600, 3600, "CDT", Ghost(g))
        .step(1099206000, -21600, 0, "CST", Ghost(g))
        .step(1112515200, -21600, 3600, "CDT", Ghost(g))
        .step(1130655600, -21600, 0, "CST", Ghost(g))
        .step(1143964800, -21600, 3600, "CDT", Ghost(g))
        .step(1162105200, -21600, 0, "CST", Ghost(g))
        .step(1173600000, -21600, 3600, "CDT", Ghost(g))
        .step(1194159600, -21600, 0, "CST", Ghost(g))
        .step(1205049600, -21600, 3600, "CDT", Ghost(g))
        .step(1225609200, -21600, 0, "CST", Ghost(g))
        .step(1236499200, -21600, 3600, "CDT", Ghost(g))
        .step(1257058800, -21600, 0, "CST", Ghost(g))
        .step(1268553600, -21600, 3600, "CDT", Ghost(g))
        .step(1289113200, -21600, 0, "CST", Ghost(g))
        .step(1300003200, -21600, 3600, "CDT", Ghost(g))
        .step(1320562800, -21600, 0, "CST", Ghost(g))
        .step(1331452800, -21600, 3600, "CDT", Ghost(g))
        .step(1352012400, -21600, 0, "CST", Ghost(g))
        .step(1362902400, -21600, 3600, "CDT", Ghost(g))
        .step(1383462000, -21600, 0, "CST", Ghost(g))
        .step(1394352000, -21600, 3600, "CDT", Ghost(g))
        .step(1414911600, -21600, 0, "CST", Ghost(g))
        .step(1425801600, -21600, 3600, "CDT", Ghost(g))
        .step(1446361200, -21600, 0, "CST", Ghost(g))
        .step(1457856000, -21600, 3600, "CDT", Ghost(g))
        .step(1478415600, -21600, 0, "CST", Ghost(g))
        .step(1489305600, -21600, 3600, "CDT", Ghost(g))
        .step(1509865200, -21600, 0, "CST", Ghost(g))
        .step(1520755200, -21600, 3600, "CDT", Ghost(g))
        .step(1541314800, -21600, 0, "CST", Ghost(g))
        .step(1552204800, -21600, 3600, "CDT", Ghost(g))
        .step(1572764400, -21600, 0, "CST", Ghost(g))
        .step(1583654400, -21600, 3600, "CDT", Ghost(g))
        .step(1604214000, -21600, 0, "CST", Ghost(g))
        .step(1615708800, -21600, 3600, "CDT", Ghost(g))
        .step(1636268400, -21600, 0, "CST", Ghost(g))
        .step(1647158400, -21600, 3600, "CDT", Ghost(g))
        .step(1667718000, -21600, 0, "CST", Ghost(g))
        .step(1678608000, -21600, 3600, "CDT", Ghost(g))
        .step(1699167600, -21600, 0, "CST", Ghost(g))
        .step(1710057600, -21600, 3600, "CDT", Ghost(g))
        .step(1730617200, -21600, 0, "CST", Ghost(g))
        .step(1741507200, -21600, 3600, "CDT", Ghost(g))
        .step(1762066800, -21600, 0, "CST", Ghost(g))
        .step(1772956800, -21600, 3600, "CDT", Ghost(g))
        .step(1793516400, -21600, 0, "CST", Ghost(g))
        .step(1805011200, -21600, 3600, "CDT", Ghost(g))
        .step(1825570800, -21600, 0, "CST", Ghost(g))
        .step(1836460800, -21600, 3600, "CDT", Ghost(g))
        .step(1857020400, -21600, 0, "CST", Ghost(g))
        .step(1867910400, -21600, 3600, "CDT", Ghost(g))
        .step(1888470000, -21600, 0, "CST", Ghost(g))
        .step(1899360000, -21600, 3600, "CDT", Ghost(g))
        .step(1919919600, -21600, 0, "CST", Ghost(g))
        .step(1930809600, -21600, 3600, "CDT", Ghost(g))
        .step(1951369200, -21600, 0, "CST", Ghost(g))
        .step(1962864000, -21600, 3600, "CDT", Ghost(g))
        .step(1983423600, -21600, 0, "CST", Ghost(g))
        .step(1994313600, -21600, 3600, "CDT", Ghost(g))
        .step(2014873200, -21600, 0, "CST", Ghost(g))
        .step(2025763200, -21600, 3600, "CDT", Ghost(g))
        .step(2046322800, -21600, 0, "CST", Ghost(g))
        .step(2057212800, -21600, 3600, "CDT", Ghost(g))
        .step(2077772400, -21600, 0, "CST", Ghost(g))
        .step(2088662400, -21600, 3600, "CDT", Ghost(g))
        .step(2109222000, -21600, 0, "CST", Ghost(g))
        .step(2120112000, -21600, 3600, "CDT", Ghost(g))
        .step(2140671600, -21600, 0, "CST", Ghost(g))
        .finish(Ghost(g))
}

/// The zone `America/Recife`.
pub fn recife() -> (r: Tz)
    ensures
        r.wf(),
        r.zone_name() == "America/Recife"@,
        r.table() == tables::america::recife(),
{
    let ghost g = tables::america::recife_rows();
    FixedTimespanSet::begin("America/Recife", -8376, 0, "LMT", Ghost(g))
        .step(-1767217224, -10800, 0, "-03", Ghost(g))
        .step(-1206957600, -10800, 3600, "-02", Ghost(g))
        .step(-1191362400, -10800, 0, "-03", Ghost(g))
        .step(-1175374800, -10800, 3600, "-02", Ghost(g))
        .step(-1159826400, -10800, 0, "-03", Ghost(g))
        .step(-633819600, -10800, 3600, "-02", Ghost(g))
        .step(-622069200, -10800, 0, "-03", Ghost(g))
        .step(-602283600, -10800, 3600, "-02", Ghost(g))
        .step(-591832800, -10800, 0, "-03", Ghost(g))
        .step(-570747600, -10800, 3600, "-02", Ghost(g))
        .step(-560210400, -10800, 0, "-03", Ghost(g))
        .step(-539125200, -10800, 3600, "-02", Ghost(g))
        .step(-531352800, -10800, 0, "-03", Ghost(g))
        .step(-191365200, -10800, 3600, "-02", Ghost(g))
        .step(-184197600, -10800, 0, "-03", Ghost(g))
        .step(-155163600, -10800, 3600, "-02", Ghost(g))
        .step(-150069600, -10800, 0, "-03", Ghost(g))
        .step(-128898000, -10800, 3600, "-02", Ghost(g))
        .step(-121125600, -10800, 0, "-03", Ghost(g))
        .step(-99954000, -10800, 3600, "-02", Ghost(g))
        .step(-89589600, -10800, 0, "-03", Ghost(g))
        .step(-68418000, -10800, 3600, "-02", Ghost(g))
        .step(-57967200, -10800, 0, "-03", Ghost(g))
        .step(499748400, -10800, 3600, "-02", Ghost(g))
        .step(511236000, -10800, 0, "-03", Ghost(g))
        .step(530593200, -10800, 3600, "-02", Ghost(g))
        .step(540266400, -10800, 0, "-03", Ghost(g))
        .step(562129200, -10800, 3600, "-02", Ghost(g))
        .step(571197600, -10800, 0, "-03", Ghost(g))
        .step(592974000, -10800, 3600, "-02", Ghost(g))
        .step(602042400, -10800, 0, "-03", Ghost(g))
        .step(624423600, -10800, 3600, "-02", Ghost(g))
        .step(634701600, -10800, 0, "-03", Ghost(g))
        .step(938919600, -10800, 3600, "-02", Ghost(g))
        .step(951616800, -10800, 0, "-03", Ghost(g))
        .step(970974000, -10800, 3600, "-02", Ghost(g))
        .step(971575200, -10800, 0, "-03", Ghost(g))
        .step(1003028400, -10800, 3600, "-02", Ghost(g))
        .step(1013911200, -10800, 0, "-03", Ghost(g))
        .step(2147483647, -10800, 0, "-03", Ghost(g))
        .finish(Ghost(g))
}

/// The zone `America/Regina`.
pub fn regina() -> (r: Tz)
    ensures
        r.wf(),
        r.zone_name() == "America/Regina"@,
        r.table() == tables::america::regina(),
{
    let ghost g = tables::america::regina_rows();
    FixedTimespanSet::begin("America/Regina", -25116, 0, "LMT", Ghost(g))
        .step(-2030202084, -25200, 0, "MST", Ghost(g))
        .step(-1632063600, -25200, 3600, "MDT", Ghost(g))
        .step(-1615132800, -25200, 0, "MST", Ghost(g))
        .step(-1251651600, -25200, 3600, "MDT", Ghost(g))
        .step(-1238349600, -25200, 0, "MST", Ghost(g))
        .step(-1220202000, -25200, 3600, "MDT", Ghost(g))
        .step(-1206900000, -25200, 0, "MST", Ghost(g))
        .step(-1188752400, -25200, 3600, "MDT", Ghost(g))
        .step(-1175450400, -25200, 0, "MST", Ghost(g))
        .step(-1156698000, -25200, 3600, "MDT", Ghost(g))
        .step(-1144000800, -25200, 0, "MST", Ghost(g))
        .step(-1125248400, -25200, 3600, "MDT", Ghost(g))
        .step(-1111946400, -25200, 0, "MST", Ghost(g))
        .step(-1032714000, -25200, 3600, "MDT", Ghost(g))
        .step(-1016992800, -25200, 0, "MST", Ghost(g))
        .step(-1001264400, -25200, 3600, "MDT", Ghost(g))
        .step(-986148000, -25200, 0, "MST", Ghost(g))
        .step(-969814800, -25200, 3600, "MDT", Ghost(g))
        .step(-954093600, -25200, 0, "MST", Ghost(g))
        .step(-937760400, -25200, 3600, "MDT", Ghost(g))
        .step(-922039200, -25200, 0, "MST", Ghost(g))
        .step(-906310800, -25200, 3600, "MDT", Ghost(g))
        .step(-890589600, -25200, 0, "MST", Ghost(g))
        .step(-880210800, -25200, 3600, "MWT", Ghost(g))
        .step(-769395600, -25200, 3600, "MPT", Ghost(g))
        .step(-765388800, -25200, 0, "MST", Ghost(g))
        .step(-748450800, -25200, 3600, "MDT", Ghost(g))
        .step(-732729600, -25200, 0, "MST", Ghost(g))
        .step(-715791600, -25200, 3600, "MDT", Ghost(g))
        .step(-702489600, -25200, 0, "MST", Ghost(g))
        .step(-684342000, -25200, 3600, "MDT", Ghost(g))
        .step(-671040000, -25200, 0, "MST", Ghost(g))
        .step(-652892400, -25200, 3600, "MDT", Ghost(g))
        .step(-639590400, -25200, 0, "MST", Ghost(g))
        .step(-620838000, -25200, 3600, "MDT", Ghost(g))
        .step(-608140800, -25200, 0, "MST", Ghost(g))
        .step(-589388400, -25200, 3600, "MDT", Ghost(g))
        .step(-576086400, -25200, 0, "MST", Ghost(g))
        .step(-557938800, -25200, 3600, "MDT", Ghost(g))
        .step(-544636800, -25200, 0, "MST", Ghost(g))
        .step(-526489200, -25200, 3600, "MDT", Ghost(g))
        .step(-513187200, -25200, 0, "MST", Ghost(g))
        .step(-495039600, -25200, 3600, "MDT", Ghost(g))
        .step(-481737600, -25200, 0, "MST", Ghost(g))
        .step(-463590000, -25200, 3600, "MDT", Ghost(g))
        .step(-450288000, -25200, 0, "MST", Ghost(g))
        .step(-431535600, -25200, 3600, "MDT", Ghost(g))
        .step(-418233600, -25200, 0, "MST", Ghost(g))
        .step(-400086000, -25200, 3600, "MDT", Ghost(g))
        .step(-386784000, -25200, 0, "MST", Ghost(g))
        .step(-337186800, -25200, 3600, "MDT", Ghost(g))
        .step(-321465600, -25200, 0, "MST", Ghost(g))
        .step(-305737200, -21600, 0, "CST", Ghost(g))
        .finish(Ghost(g))
}

/// The zone `America/Resolute`.
pub fn resolute() -> (r: Tz)
    ensures
        r.wf(),
        r.zone_name() == "America/Resolute"@,
        r.table() == tables::america::resolute(),
{
    let ghost g = tables::america::resolute_rows();
    FixedTimespanSet::begin("America/Resolute", 0, 0, "-00", Ghost(g))
        .step(-704937600, -21600, 0, "CST", Ghost(g))
        .step(73468800, -21600, 3600, "CDT", Ghost(g))
        .step(89190000, -21600, 0, "CST", Ghost(g))
        .step(104918400, -21600, 3600, "CDT", Ghost(g))
        .step(120639600, -21600, 0, "CST", Ghost(g))
        .step(136368000, -21600, 3600, "CDT", Ghost(g))
        .step(152089200, -21600, 0, "CST", Ghost(g))
        .step(167817600, -21600, 3600, "CDT", Ghost(g))
        .step(183538800, -21600, 0, "CST", Ghost(g))
        .step(199267200, -21600, 3600, "CDT", Ghost(g))
        .step(215593200, -21600, 0, "CST", Ghost(g))
        .step(230716800, -21600, 3600, "CDT", Ghost(g))
        .step(247042800, -21600, 0, "CST", Ghost(g))
        .step(262771200, -21600, 3600, "CDT", Ghost(g))
        .step(278492400, -21600, 0, "CST", Ghost(g))
        .step(294220800, -21600, 3600, "CDT", Ghost(g))
        .step(309942000, -21600, 0, "CST", Ghost(g))
        .step(325670400, -21600, 3600, "CDT", Ghost(g))
        .step(341391600, -21600, 0, "CST", Ghost(g))
        .step(357120000, -21600, 3600, "CDT", Ghost(g))
        .step(372841200, -21600, 0, "CST", Ghost(g))
        .step(388569600, -21600, 3600, "CDT", Ghost(g))
        .step(404895600, -21600, 0, "CST", Ghost(g))
        .step(420019200, -21600, 3600, "CDT", Ghost(g))
        .step(436345200, -21600, 0, "CST", Ghost(g))
        .step(452073600, -21600, 3600, "CDT", Ghost(g))
        .step(467794800, -21600, 0, "CST", Ghost(g))
        .step(483523200, -21600, 3600, "CDT", Ghost(g))
        .step(499244400, -21600, 0, "CST", Ghost(g))
        .step(514972800, -21600, 3600, "CDT", Ghost(g))
        .step(530694000, -21600, 0, "CST", Ghost(g))
        .step(544608000, -21600, 3600, "CDT", Ghost(g))
        .step(562143600, -21600, 0, "CST", Ghost(g))
        .step(576057600, -21600, 3600, "CDT", Ghost(g))
        .step(594198000, -21600, 0, "CST", Ghost(g))
        .step(607507200, -21600, 3600, "CDT", Ghost(g))
        .step(625647600, -21600, 0, "CST", Ghost(g))
        .step(638956800, -21600, 3600, "CDT", Ghost(g))
        .step(657097200, -21600, 0, "CST", Ghost(g))
        .step(671011200, -21600, 3600, "CDT", Ghost(g))
        .step(688546800, -21600, 0, "CST", Ghost(g))
        .step(702460800, -21600, 3600, "CDT", Ghost(g))
        .step(719996400, -21600, 0, "CST", Ghost(g))
        .step(733910400, -21600, 3600, "CDT", Ghost(g))
        .step(752050800, -21600, 0, "CST", Ghost(g))
        .step(765360000, -21600, 3600, "CDT", Ghost(g))
        .step(783500400, -21600, 0, "CST", Ghost(g))
        .step(796809600, -21600, 3600, "CDT", Ghost(g))
        .step(814950000, -21600, 0, "CST", Ghost(g))
        .step(828864000, -21600, 3600, "CDT", Ghost(g))
        .step(846399600, -21600, 0, "CST", Ghost(g))
        .step(860313600, -21600, 3600, "CDT", Ghost(g))
        .step(877849200, -21600, 0, "CST", Ghost(g))
        .step(891763200, -21600, 3600, "CDT", Ghost(g))
        .step(909298800, -21600, 0, "CST", Ghost(g))
        .step(923212800, -21600, 3600, "CDT", Ghost(g))
        .step(941353200, -21600, 0, "CST", Ghost(g))
        .step(954662400, -21600, 3600, "CDT", Ghost(g))
        .step(972802800, -18000, 0, "EST", Ghost(g))
        .step(986112000, -21600, 3600, "CDT", Ghost(g))
        .step(1004252400, -21600, 0, "CST", Ghost(g))
        .step(1018166400, -21600, 3600, "CDT", Ghost(g))
        .step(1035702000, -21600, 0, "CST", Ghost(g))
        .step(1049616000, -21600, 3600, "CDT", Ghost(g))
        .step(1067151600, -21600, 0, "CST", Ghost(g))
        .step(1081065600, -21600, 3600, "CDT", Ghost(g))
        .step(1099206000, -21600, 0, "CST", Ghost(g))
        .step(1112515200, -21600, 3600, "CDT", Ghost(g))
        .step(1130655600, -21600, 0, "CST", Ghost(g))
        .step(1143964800, -21600, 3600, "CDT", Ghost(g))
        .step(1162105200, -18000, 0, "EST", Ghost(g))
        .step(1173600000, -21600, 3600, "CDT", Ghost(g))
        .step(1194159600, -21600, 0, "CST", Ghost(g))
        .step(1205049600, -21600, 3600, "CDT", Ghost(g))
        .step(1225609200, -21600, 0, "CST", Ghost(g))
        .step(1236499200, -21600, 3600, "CDT", Ghost(g))
        .step(1257058800, -21600, 0, "CST", Ghost(g))
        .step(1268553600, -21600, 3600, "CDT", Ghost(g))
        .step(1289113200, -21600, 0, "CST", Ghost(g))
        .step(1300003200, -21600, 3600, "CDT", Ghost(g))
        .step(1320562800, -21600, 0, "CST", Ghost(g))
        .step(1331452800, -21600, 3600, "CDT", Ghost(g))
        .step(1352012400, -21600, 0, "CST", Ghost(g))
        .step(1362902400, -21600, 3600, "CDT", Ghost(g))
        .step(1383462000, -21600, 0, "CST", Ghost(g))
        .step(1394352000, -21600, 3600, "CDT", Ghost(g))
        .step(1414911600, -21600, 0, "CST", Ghost(g))
        .step(1425801600, -21600, 3600, "CDT", Ghost(g))
        .step(1446361200, -21600, 0, "CST", Ghost(g))
        .step(1457856000, -21600, 3600, "CDT", Ghost(g))
        .step(1478415600, -21600, 0, "CST", Ghost(g))
        .step(1489305600, -21600, 3600, "CDT", Ghost(g))
        .step(1509865200, -21600, 0, "CST", Ghost(g))
        .step(1520755200, -21600, 3600, "CDT", Ghost(g))
        .step(1541314800, -21600, 0, "CST", Ghost(g))
        .step(1552204800, -21600, 3600, "CDT", Ghost(g))
        .step(1572764400, -21600, 0, "CST", Ghost(g))
        .step(1583654400, -21600, 3600, "CDT", Ghost(g))
        .step(1604214000, -21600, 0, "CST", Ghost(g))
        .step(1615708800, -21600, 3600, "CDT", Ghost(g))
        .step(1636268400, -21600, 0, "CST", Ghost(g))
        .step(1647158400, -21600, 3600, "CDT", Ghost(g))
        .step(1667718000, -21600, 0, "CST", Ghost(g))
        .step(1678608000, -21600, 3600, "CDT", Ghost(g))
        .step(1699167600, -21600, 0, "CST", Ghost(g))
        .step(1710057600, -21600, 3600, "CDT", Ghost(g))
        .step(1730617200, -21600, 0, "CST", Ghost(g))
        .step(1741507200, -21600, 3600, "CDT", Ghost(g))
        .step(1762066800, -21600, 0, "CST", Ghost(g))
        .step(1772956800, -21600, 3600, "CDT", Ghost(g))
        .step(1793516400, -21600, 0, "CST", Ghost(g))
        .step(1805011200, -21600, 3600, "CDT", Ghost(g))
        .step(1825570800, -21600, 0, "CST", Ghost(g))
        .step(1836460800, -21600, 3600, "CDT", Ghost(g))
        .step(1857020400, -21600, 0, "CST", Ghost(g))
        .step(1867910400, -21600, 3600, "CDT", Ghost(g))
        .step(1888470000, -21600, 0, "CST", Ghost(g))
        .step(1899360000, -21600, 3600, "CDT", Ghost(g))
        .step(1919919600, -21600, 0, "CST", Ghost(g))
        .step(1930809600, -21600, 3600, "CDT", Ghost(g))
        .step(1951369200, -21600, 0, "CST", Ghost(g))
        .step(1962864000, -21600, 3600, "CDT", Ghost(g))
        .step(1983423600, -21600, 0, "CST", Ghost(g))
        .step(1994313600, -21600, 3600, "CDT", Ghost(g))
        .step(2014873200, -21600, 0, "CST", Ghost(g))
        .step(2025763200, -21600, 3600, "CDT", Ghost(g))
        .step(2046322800, -21600, 0, "CST", Ghost(g))
        .step(2057212800, -21600, 3600, "CDT", Ghost(g))
        .step(2077772400, -21600, 0, "CST", Ghost(g))
        .step(2088662400, -21600, 3600, "CDT", Ghost(g))
        .step(2109222000, -21600, 0, "CST", Ghost(g))
        .step(2120112000, -21600, 3600, "CDT", Ghost(g))
        .step(2140671600, -21600, 0, "CST", Ghost(g))
        .finish(Ghost(g))
}

/// The zone `America/Rio_Branco`.
pub fn rio_branco() -> (r: Tz)
    ensures
        r.wf(),
        r.zone_name() == "America/Rio_Branco"@,
        r.table() == tables::america::rio_branco(),
{
    let ghost g = tables::america::rio_branco_rows();
    FixedTimespanSet::begin("America/Rio_Branco", -16272, 0, "LMT", Ghost(g))
        .step(-1767209328, -18000, 0, "-05", Ghost(g))
        .step(-1206950400, -18000, 3600, "-04", Ghost(g))
        .step(-1191355200, -18000, 0, "-05", Ghost(g))
        .step(-1175367600, -18000, 3600, "-04", Ghost(g))
        .step(-1159819200, -18000, 0, "-05", Ghost(g))
        .step(-633812400, -18000, 3600, "-04", Ghost(g))
        .step(-622062000, -18000, 0, "-05", Ghost(g))
        .step(-602276400, -18000, 3600, "-04", Ghost(g))
        .step(-591825600, -18000, 0, "-05", Ghost(g))
        .step(-570740400, -18000, 3600, "-04", Ghost(g))
        .step(-560203200, -18000, 0, "-05", Ghost(g))
        .step(-539118000, -18000, 3600, "-04", Ghost(g))
        .step(-531345600, -18000, 0, "-05", Ghost(g))
        .step(-191358000, -18000, 3600, "-04", Ghost(g))
        .step(-184190400, -18000, 0, "-05", Ghost(g))
        .step(-155156400, -18000, 3600, "-04", Ghost(g))
        .step(-150062400, -18000, 0, "-05", Ghost(g))
        .step(-128890800, -18000, 3600, "-04", Ghost(g))
        .step(-121118400, -18000, 0, "-05", Ghost(g))
        .step(-99946800, -18000, 3600, "-04", Ghost(g))
        .step(-89582400, -18000, 0, "-05", Ghost(g))
        .step(-68410800, -18000, 3600, "-04", Ghost(g))
        .step(-57960000, -18000, 0, "-05", Ghost(g))
        .step(499755600, -18000, 3600, "-04", Ghost(g))
        .step(511243200, -18000, 0, "-05", Ghost(g))
        .step(530600400, -18000, 3600, "-04", Ghost(g))
        .step(540273600, -18000, 0, "-05", Ghost(g))
        .step(562136400, -18000, 3600, "-04", Ghost(g))
        .step(571204800, -18000, 0, "-05", Ghost(g))
        .step(1214283600, -14400, 0, "-04", Ghost(g))
        .step(1384056000, -18000, 0, "-05", Ghost(g))
        .step(2147483647, -18000, 0, "-05", Ghost(g))
        .finish(Ghost(g))
}

/// The zone `America/Rosario`.
pub fn rosario() -> (r: Tz)
    ensures
        r.wf(),
        r.zone_name() == "America/Rosario"@,
        r.table() == tables::america::rosario(),
{
    let ghost g = tables::america::rosario_rows();
    FixedTimespanSet::begin("America/Rosario", -15408, 0, "LMT", Ghost(g))
        .step(-2372096592, -15408, 0, "CMT", Ghost(g))
        .step(-1567453392, -14400, 0, "-04", Ghost(g))
        .step(-1233432000, -14400, 3600, "-03", Ghost(g))
        .step(-1222981200, -14400, 0, "-04", Ghost(g))
        .step(-1205956800, -14400, 3600, "-03", Ghost(g))
        .step(-1194037200, -14400, 0, "-04", Ghost(g))
        .step(-1172865600, -14400, 3600, "-03", Ghost(g))
        .step(-1162501200, -14400, 0, "-04", Ghost(g))
        .step(-1141329600, -14400, 3600, "-03", Ghost(g))
        .step(-1130965200, -14400, 0, "-04", Ghost(g))
        .step(-1109793600, -14400, 3600, "-03", Ghost(g))
        .step(-1099429200, -14400, 0, "-04", Ghost(g))
        .step(-1078257600, -14400, 3600, "-03", Ghost(g))
        .step(-1067806800, -14400, 0, "-04", Ghost(g))
        .step(-1046635200, -14400, 3600, "-03", Ghost(g))
        .step(-1036270800, -14400, 0, "-04", Ghost(g))
        .step(-1015099200, -14400, 3600, "-03", Ghost(g))
        .step(-1004734800, -14400, 0, "-04", Ghost(g))
        .step(-983563200, -14400, 3600, "-03", Ghost(g))
        .step(-973198800, -14400, 0, "-04", Ghost(g))
        .step(-952027200, -14400, 3600, "-03", Ghost(g))
        .step(-941576400, -14400, 0, "-04", Ghost(g))
        .step(-931032000, -14400, 3600, "-03", Ghost(g))
        .step(-900882000, -14400, 0, "-04", Ghost(g))
        .step(-890337600, -14400, 3600, "-03", Ghost(g))
        .step(-833749200, -14400, 0, "-04", Ghost(g))
        .step(-827265600, -14400, 3600, "-03", Ghost(g))
        .step(-752274000, -14400, 0, "-04", Ghost(g))
        .step(-733780800, -14400, 3600, "-03", Ghost(g))
        .step(-197326800, -14400, 0, "-04", Ghost(g))
        .step(-190843200, -14400, 3600, "-03", Ghost(g))
        .step(-184194000, -14400, 0, "-04", Ghost(g))
        .step(-164491200, -14400, 3600, "-03", Ghost(g))
        .step(-152658000, -14400, 0, "-04", Ghost(g))
        .step(-132955200, -14400, 3600, "-03", Ghost(g))
        .step(-121122000, -14400, 0, "-04", Ghost(g))
        .step(-101419200, -14400, 3600, "-03", Ghost(g))
        .step(-86821200, -14400, 0, "-04", Ghost(g))
        .step(-71092800, -14400, 3600, "-03", Ghost(g))
        .step(-54766800, -14400, 0, "-04", Ghost(g))
        .step(-39038400, -14400, 3600, "-03", Ghost(g))
        .step(-23317200, -14400, 0, "-04", Ghost(g))
        .step(-7588800, -10800, 0, "-03", Ghost(g))
        .step(128142000, -10800, 3600, "-02", Ghost(g))
        .step(136605600, -10800, 0, "-03", Ghost(g))
        .step(596948400, -10800, 3600, "-02", Ghost(g))
        .step(605066400, -10800, 0, "-03", Ghost(g))
        .step(624423600, -10800, 3600, "-02", Ghost(g))
        .step(636516000, -10800, 0, "-03", Ghost(g))
        .step(656478000, -10800, 3600, "-02", Ghost(g))
        .step(667965600, -14400, 0, "-04", Ghost(g))
        .step(687931200, -14400, 7200, "-02", Ghost(g))
        .step(699415200, -10800, 0, "-03", Ghost(g))
        .step(719377200, -10800, 3600, "-02", Ghost(g))
        .step(731469600, -10800, 0, "-03", Ghost(g))
        .step(938919600, -14400, 3600, "-03", Ghost(g))
        .step(952052400, -10800, 0, "-03", Ghost(g))
        .step(1198983600, -10800, 3600, "-02", Ghost(g))
        .step(1205632800, -10800, 0, "-03", Ghost(g))
        .step(1224385200, -10800, 3600, "-02", Ghost(g))
        .step(1237082400, -10800, 0, "-03", Ghost(g))
        .step(2147483647, -10800, 0, "-03", Ghost(g))
        .finish(Ghost(g))
}

/// The zone `America/Santa_Isabel`.
pub fn santa_isabel() -> (r: Tz)
    ensures
        r.wf(),
        r.zone_name() == "America/Santa_Isabel"@,
        r.table() == tables::america::santa_isabel(),
{
    let ghost g = tables::america::santa_isabel_rows();
    FixedTimespanSet::begin("America/Santa_Isabel", -28084, 0, "LMT", Ghost(g))
        .step(-1514739600, -25200, 0, "MST", Ghost(g))
        .step(-1451667600, -28800, 0, "PST", Ghost(g))
        .step(-1343145600, -25200, 0, "MST", Ghost(g))
        .step(-1234803600, -28800, 0, "PST", Ghost(g))
        .step(-1222963200, -28800, 3600, "PDT", Ghost(g))
        .step(-1207242000, -28800, 0, "PST", Ghost(g))
        .step(-873820800, -28800, 3600, "PWT", Ghost(g))
        .step(-769395600, -28800, 3600, "PPT", Ghost(g))
        .step(-761418000, -28800, 0, "PST", Ghost(g))
        .step(-686073600, -28800, 3600, "PDT", Ghost(g))
        .step(-661539600, -28800, 0, "PST", Ghost(g))
        .step(-620755200, -28800, 3600, "PDT", Ghost(g))
        .step(-608144400, -28800, 0, "PST", Ghost(g))
        .step(-589384800, -28800, 3600, "PDT", Ghost(g))
        .step(-576082800, -28800, 0, "PST", Ghost(g))
        .step(-557935200, -28800, 3600, "PDT", Ghost(g))
        .step(-544633200, -28800, 0, "PST", Ghost(g))
        .step(-495039600, -28800, 3600, "PDT", Ghost(g))
        .step(-481734000, -28800, 0, "PST", Ghost(g))
        .step(-463590000, -28800, 3600, "PDT", Ghost(g))
        .step(-450284400, -28800, 0, "PST", Ghost(g))
        .step(-431535600, -28800, 3600, "PDT", Ghost(g))
        .step(-418230000, -28800, 0, "PST", Ghost(g))
        .step(-400086000, -28800, 3600, "PDT", Ghost(g))
        .step(-386780400, -28800, 0, "PST", Ghost(g))
        .step(-368636400, -28800, 3600, "PDT", Ghost(g))
        .step(-355330800, -28800, 0, "PST", Ghost(g))
        .step(-337186800, -28800, 3600, "PDT", Ghost(g))
        .step(-323881200, -28800, 0, "PST", Ghost(g))
        .step(-305737200, -28800, 3600, "PDT", Ghost(g))
        .step(-292431600, -28800, 0, "PST", Ghost(g))
        .step(199274400, -28800, 3600, "PDT", Ghost(g))
        .step(215600400, -28800, 0, "PST", Ghost(g))
        .step(230724000, -28800, 3600, "PDT", Ghost(g))
        .step(247050000, -28800, 0, "PST", Ghost(g))
        .step(262778400, -28800, 3600, "PDT", Ghost(g))
        .step(278499600, -28800, 0, "PST", Ghost(g))
        .step(294228000, -28800, 3600, "PDT", Ghost(g))
        .step(309949200, -28800, 0, "PST", Ghost(g))
        .step(325677600, -28800, 3600, "PDT", Ghost(g))
        .step(341398800, -28800, 0, "PST", Ghost(g))
        .step(357127200, -28800, 3600, "PDT", Ghost(g))
        .step(372848400, -28800, 0, "PST", Ghost(g))
        .step(388576800, -28800, 3600, "PDT", Ghost(g))
        .step(404902800, -28800, 0, "PST", Ghost(g))
        .step(420026400, -28800, 3600, "PDT", Ghost(g))
        .step(436352400, -28800, 0, "PST", Ghost(g))
        .step(452080800, -28800, 3600, "PDT", Ghost(g))
        .step(467802000, -28800, 0, "PST", Ghost(g))
        .step(483530400, -28800, 3600, "PDT", Ghost(g))
        .step(499251600, -28800, 0, "PST", Ghost(g))
        .step(514980000, -28800, 3600, "PDT", Ghost(g))
        .step(530701200, -28800, 0, "PST", Ghost(g))
        .step(544615200, -28800, 3600, "PDT", Ghost(g))
        .step(562150800, -28800, 0, "PST", Ghost(g))
        .step(576064800, -28800, 3600, "PDT", Ghost(g))
        .step(594205200, -28800, 0, "PST", Ghost(g))
        .step(607514400, -28800, 3600, "PDT", Ghost(g))
        .step(625654800, -28800, 0, "PST", Ghost(g))
        .step(638964000, -28800, 3600, "PDT", Ghost(g))
        .step(657104400, -28800, 0, "PST", Ghost(g))
        .step(671018400, -28800, 3600, "PDT", Ghost(g))
        .step(688554000, -28800, 0, "PST", Ghost(g))
        .step(702468000, -28800, 3600, "PDT", Ghost(g))
        .step(720003600, -28800, 0, "PST", Ghost(g))
        .step(733917600, -28800, 3600, "PDT", Ghost(g))
        .step(752058000, -28800, 0, "PST", Ghost(g))
        .step(765367200, -28800, 3600, "PDT", Ghost(g))
        .step(783507600, -28800, 0, "PST", Ghost(g))
        .step(796816800, -28800, 3600, "PDT", Ghost(g))
        .step(814957200, -28800, 0, "PST", Ghost(g))
        .step(828871200, -28800, 3600, "PDT", Ghost(g))
        .step(846406800, -28800, 0, "PST", Ghost(g))
        .step(860320800, -28800, 3600, "PDT", Ghost(g))
        .step(877856400, -28800, 0, "PST", Ghost(g))
        .step(891770400, -28800, 3600, "PDT", Ghost(g))
        .step(909306000, -28800, 0, "PST", Ghost(g))
        .step(923220000, -28800, 3600, "PDT", Ghost(g))
        .step(941360400, -28800, 0, "PST", Ghost(g))
        .step(954669600, -28800, 3600, "PDT", Ghost(g))
        .step(972810000, -28800, 0, "PST", Ghost(g))
        .step(986119200, -28800, 3600, "PDT", Ghost(g))
        .step(1004259600, -28800, 0, "PST", Ghost(g))
        .step(1018173600, -28800, 3600, "PDT", Ghost(g))
        .step(1035709200, -28800, 0, "PST", Ghost(g))
        .step(1049623200, -28800, 3600, "PDT", Ghost(g))
        .step(1067158800, -28800, 0, "PST", Ghost(g))
        .step(1081072800, -28800, 3600, "PDT", Ghost(g))
        .step(1099213200, -28800, 0, "PST", Ghost(g))
        .step(1112522400, -28800, 3600, "PDT", Ghost(g))
        .step(1130662800, -28800, 0, "PST", Ghost(g))
        .step(1143972000, -28800, 3600, "PDT", Ghost(g))
        .step(1162112400, -28800, 0, "PST", Ghost(g))
        .step(1175421600, -28800, 3600, "PDT", Ghost(g))
        .step(1193562000, -28800, 0, "PST", Ghost(g))
        .step(1207476000, -28800, 3600, "PDT", Ghost(g))
        .step(1225011600, -28800, 0, "PST", Ghost(g))
        .step(1238925600, -28800, 3600, "PDT", Ghost(g))
        .step(1256461200, -28800, 0, "PST", Ghost(g))
        .step(1268560800, -28800, 3600, "PDT", Ghost(g))
        .step(1289120400, -28800, 0, "PST", Ghost(g))
        .step(1300010400, -28800, 3600, "PDT", Ghost(g))
        .step(1320570000, -28800, 0, "PST", Ghost(g))
        .step(1331460000, -28800, 3600, "PDT", Ghost(g))
        .step(1352019600, -28800, 0, "PST", Ghost(g))
        .step(1362909600, -28800, 3600, "PDT", Ghost(g))
        .step(1383469200, -28800, 0, "PST", Ghost(g))
        .step(1394359200, -28800, 3600, "PDT", Ghost(g))
        .step(1414918800, -28800, 0, "PST", Ghost(g))
        .step(1425808800, -28800, 3600, "PDT", Ghost(g))
        .step(1446368400, -28800, 0, "PST", Ghost(g))
        .step(1457863200, -28800, 3600, "PDT", Ghost(g))
        .step(1478422800, -28800, 0, "PST", Ghost(g))
        .step(1489312800, -28800, 3600, "PDT", Ghost(g))
        .step(1509872400, -28800, 0, "PST", Ghost(g))
        .step(1520762400, -28800, 3600, "PDT", Ghost(g))
        .step(1541322000, -28800, 0, "PST", Ghost(g))
        .step(1552212000, -28800, 3600, "PDT", Ghost(g))
        .step(1572771600, -28800, 0, "PST", Ghost(g))
        .step(1583661600, -28800, 3600, "PDT", Ghost(g))
        .step(1604221200, -28800, 0, "PST", Ghost(g))
        .step(1615716000, -28800, 3600, "PDT", Ghost(g))
        .step(1636275600, -28800, 0, "PST", Ghost(g))
        .step(1647165600, -28800, 3600, "PDT", Ghost(g))
        .step(1667725200, -28800, 0, "PST", Ghost(g))
        .step(1678615200, -28800, 3600, "PDT", Ghost(g))
        .step(1699174800, -28800, 0, "PST", Ghost(g))
        .step(1710064800, -28800, 3600, "PDT", Ghost(g))
        .step(1730624400, -28800, 0, "PST", Ghost(g))
        .step(1741514400, -28800, 3600, "PDT", Ghost(g))
        .step(1762074000, -28800, 0, "PST", Ghost(g))
        .step(1772964000, -28800, 3600, "PDT", Ghost(g))
        .step(1793523600, -28800, 0, "PST", Ghost(g))
        .step(1805018400, -28800, 3600, "PDT", Ghost(g))
        .step(1825578000, -28800, 0, "PST", Ghost(g))
        .step(1836468000, -28800, 3600, "PDT", Ghost(g))
        .step(1857027600, -28800, 0, "PST", Ghost(g))
        .step(1867917600, -28800, 3600, "PDT", Ghost(g))
        .step(1888477200, -28800, 0, "PST", Ghost(g))
        .step(1899367200, -28800, 3600, "PDT", Ghost(g))
        .step(1919926800, -28800, 0, "PST", Ghost(g))
        .step(1930816800, -28800, 3600, "PDT", Ghost(g))
        .step(1951376400, -28800, 0, "PST", Ghost(g))
        .step(1962871200, -28800, 3600, "PDT", Ghost(g))
        .step(1983430800, -28800, 0, "PST", Ghost(g))
        .step(1994320800, -28800, 3600, "PDT", Ghost(g))
        .step(2014880400, -28800, 0, "PST", Ghost(g))
        .step(2025770400, -28800, 3600, "PDT", Ghost(g))
        .step(2046330000, -28800, 0, "PST", Ghost(g))
        .step(2057220000, -28800, 3600, "PDT", Ghost(g))
        .step(2077779600, -28800, 0, "PST", Ghost(g))
        .step(2088669600, -28800, 3600, "PDT", Ghost(g))
        .step(2109229200, -28800, 0, "PST", Ghost(g))
        .step(2120119200, -28800, 3600, "PDT", Ghost(g))
        .step(2140678800, -28800, 0, "PST", Ghost(g))
        .finish(Ghost(g))
}

/// The zone `America/Santarem`.
pub fn santarem() -> (r: Tz)
    ensures
        r.wf(),
        r.zone_name() == "America/Santarem"@,
        r.table() == tables::america::santarem(),
{
    let ghost g = tables::america::santarem_rows();
    FixedTimespanSet::begin("America/Santarem", -13128, 0, "LMT", Ghost(g))
        .step(-1767212472, -14400, 0, "-04", Ghost(g))
        .step(-1206954000, -14400, 3600, "-03", Ghost(g))
        .step(-1191358800, -14400, 0, "-04", Ghost(g))
        .step(-1175371200, -14400, 3600, "-03", Ghost(g))
        .step(-1159822800, -14400, 0, "-04", Ghost(g))
        .step(-633816000, -14400, 3600, "-03", Ghost(g))
        .step(-622065600, -14400, 0, "-04", Ghost(g))
        .step(-602280000, -14400, 3600, "-03", Ghost(g))
        .step(-591829200, -14400, 0, "-04", Ghost(g))
        .step(-570744000, -14400, 3600, "-03", Ghost(g))
        .step(-560206800, -14400, 0, "-04", Ghost(g))
        .step(-539121600, -14400, 3600, "-03", Ghost(g))
        .step(-531349200, -14400, 0, "-04", Ghost(g))
        .step(-191361600, -14400, 3600, "-03", Ghost(g))
        .step(-184194000, -14400, 0, "-04", Ghost(g))
        .step(-155160000, -14400, 3600, "-03", Ghost(g))
        .step(-150066000, -14400, 0, "-04", Ghost(g))
        .step(-128894400, -14400, 3600, "-03", Ghost(g))
        .step(-121122000, -14400, 0, "-04", Ghost(g))
        .step(-99950400, -14400, 3600, "-03", Ghost(g))
        .step(-89586000, -14400, 0, "-04", Ghost(g))
        .step(-68414400, -14400, 3600, "-03", Ghost(g))
        .step(-57963600, -14400, 0, "-04", Ghost(g))
        .step(499752000, -14400, 3600, "-03", Ghost(g))
        .step(511239600, -14400, 0, "-04", Ghost(g))
        .step(530596800, -14400, 3600, "-03", Ghost(g))
        .step(540270000, -14400, 0, "-04", Ghost(g))
        .step(562132800, -14400, 3600, "-03", Ghost(g))
        .step(571201200, -14400, 0, "-04", Ghost(g))
        .step(1214280000, -10800, 0, "-03", Ghost(g))
        .step(2147483647, -10800, 0, "-03", Ghost(g))
        .finish(Ghost(g))
}

/// The zone `America/Santiago`.
pub fn santiago() -> (r: Tz)
    ensures
        r.wf(),
        r.zone_name() == "America/Santiago"@,
        r.table() == tables::america::santiago(),
{
    let ghost g = tables::america::santiago_rows();
    FixedTimespanSet::begin("America/Santiago", -16965, 0, "LMT", Ghost(g))
        .step(-2524504635, -16965, 0, "SMT", Ghost(g))
        .step(-1892661435, -18000, 0, "-05", Ghost(g))
        .step(-1688410800, -16965, 0, "SMT", Ghost(g))
        .step(-1619205435, -14400, 0, "-04", Ghost(g))
        .step(-1593806400, -16965, 0, "SMT", Ghost(g))
        .step(-1335986235, -16965, 2565, "-04", Ghost(g))
        .step(-1317585600, -18000, 0, "-05", Ghost(g))
        .step(-1304362800, -18000, 3600, "-04", Ghost(g))
        .step(-1286049600, -18000, 0, "-05", Ghost(g))
        .step(-1272826800, -18000, 3600, "-04", Ghost(g))
        .step(-1254513600, -18000, 0, "-05", Ghost(g))
        .step(-1241290800, -18000, 3600, "-04", Ghost(g))
        .step(-1222977600, -18000, 0, "-05", Ghost(g))
        .step(-1209754800, -18000, 3600, "-04", Ghost(g))
        .step(-1191355200, -18000, 0, "-05", Ghost(g))
        .step(-1178132400, -14400, 0, "-04", Ghost(g))
        .step(-870552000, -18000, 0, "-05", Ghost(g))
        .step(-865278000, -14400, 0, "-04", Ghost(g))
        .step(-740520000, -14400, 3600, "-03", Ghost(g))
        .step(-736635600, -18000, 3600, "-04", Ghost(g))
        .step(-718056000, -18000, 0, "-05", Ghost(g))
        .step(-713649600, -14400, 0, "-04", Ghost(g))
        .step(-36619200, -14400, 3600, "-03", Ghost(g))
        .step(-23922000, -14400, 0, "-04", Ghost(g))
        .step(-3355200, -14400, 3600, "-03", Ghost(g))
        .step(7527600, -14400, 0, "-04", Ghost(g))
        .step(24465600, -14400, 3600, "-03", Ghost(g))
        .step(37767600, -14400, 0, "-04", Ghost(g))
        .step(55915200, -14400, 3600, "-03", Ghost(g))
        .step(69217200, -14400, 0, "-04", Ghost(g))
        .step(87969600, -14400, 3600, "-03", Ghost(g))
        .step(100666800, -14400, 0, "-04", Ghost(g))
        .step(118209600, -14400, 3600, "-03", Ghost(g))
        .step(132116400, -14400, 0, "-04", Ghost(g))
        .step(150868800, -14400, 3600, "-03", Ghost(g))
        .step(163566000, -14400, 0, "-04", Ghost(g))
        .step(182318400, -14400, 3600, "-03", Ghost(g))
        .step(195620400, -14400, 0, "-04", Ghost(g))
        .step(213768000, -14400, 3600, "-03", Ghost(g))
        .step(227070000, -14400, 0, "-04", Ghost(g))
        .step(245217600, -14400, 3600, "-03", Ghost(g))
        .step(258519600, -14400, 0, "-04", Ghost(g))
        .step(277272000, -14400, 3600, "-03", Ghost(g))
        .step(289969200, -14400, 0, "-04", Ghost(g))
        .step(308721600, -14400, 3600, "-03", Ghost(g))
        .step(321418800, -14400, 0, "-04", Ghost(g))
        .step(340171200, -14400, 3600, "-03", Ghost(g))
        .step(353473200, -14400, 0, "-04", Ghost(g))
        .step(371620800, -14400, 3600, "-03", Ghost(g))
        .step(384922800, -14400, 0, "-04", Ghost(g))
        .step(403070400, -14400, 3600, "-03", Ghost(g))
        .step(416372400, -14400, 0, "-04", Ghost(g))
        .step(434520000, -14400, 3600, "-03", Ghost(g))
        .step(447822000, -14400, 0, "-04", Ghost(g))
        .step(466574400, -14400, 3600, "-03", Ghost(g))
        .step(479271600, -14400, 0, "-04", Ghost(g))
        .step(498024000, -14400, 3600, "-03", Ghost(g))
        .step(510721200, -14400, 0, "-04", Ghost(g))
        .step(529473600, -14400, 3600, "-03", Ghost(g))
        .step(545194800, -14400, 0, "-04", Ghost(g))
        .step(560923200, -14400, 3600, "-03", Ghost(g))
        .step(574225200, -14400, 0, "-04", Ghost(g))
        .step(592372800, -14400, 3600, "-03", Ghost(g))
        .step(605674800, -14400, 0, "-04", Ghost(g))
        .step(624427200, -14400, 3600, "-03", Ghost(g))
        .step(637124400, -14400, 0, "-04", Ghost(g))
        .step(653457600, -14400, 3600, "-03", Ghost(g))
        .step(668574000, -14400, 0, "-04", Ghost(g))
        .step(687326400, -14400, 3600, "-03", Ghost(g))
        .step(700628400, -14400, 0, "-04", Ghost(g))
        .step(718776000, -14400, 3600, "-03", Ghost(g))
        .step(732078000, -14400, 0, "-04", Ghost(g))
        .step(750225600, -14400, 3600, "-03", Ghost(g))
        .step(763527600, -14400, 0, "-04", Ghost(g))
        .step(781675200, -14400, 3600, "-03", Ghost(g))
        .step(794977200, -14400, 0, "-04", Ghost(g))
        .step(813729600, -14400, 3600, "-03", Ghost(g))
        .step(826426800, -14400, 0, "-04", Ghost(g))
        .step(845179200, -14400, 3600, "-03", Ghost(g))
        .step(859690800, -14400, 0, "-04", Ghost(g))
        .step(876628800, -14400, 3600, "-03", Ghost(g))
        .step(889930800, -14400, 0, "-04", Ghost(g))
        .step(906868800, -14400, 3600, "-03", Ghost(g))
        .step(923194800, -14400, 0, "-04", Ghost(g))
        .step(939528000, -14400, 3600, "-03", Ghost(g))
        .step(952830000, -14400, 0, "-04", Ghost(g))
        .step(971582400, -14400, 3600, "-03", Ghost(g))
        .step(984279600, -14400, 0, "-04", Ghost(g))
        .step(1003032000, -14400, 3600, "-03", Ghost(g))
        .step(1015729200, -14400, 0, "-04", Ghost(g))
        .step(1034481600, -14400, 3600, "-03", Ghost(g))
        .step(1047178800, -14400, 0, "-04", Ghost(g))
        .step(1065931200, -14400, 3600, "-03", Ghost(g))
        .step(1079233200, -14400, 0, "-04", Ghost(g))
        .step(1097380800, -14400, 3600, "-03", Ghost(g))
        .step(1110682800, -14400, 0, "-04", Ghost(g))
        .step(1128830400, -14400, 3600, "-03", Ghost(g))
        .step(1142132400, -14400, 0, "-04", Ghost(g))
        .step(1160884800, -14400, 3600, "-03", Ghost(g))
        .step(1173582000, -14400, 0, "-04", Ghost(g))
        .step(1192334400, -14400, 3600, "-03", Ghost(g))
        .step(1206846000, -14400, 0, "-04", Ghost(g))
        .step(1223784000, -14400, 3600, "-03", Ghost(g))
        .step(1237086000, -14400, 0, "-04", Ghost(g))
        .step(1255233600, -14400, 3600, "-03", Ghost(g))
        .step(1270350000, -14400, 0, "-04", Ghost(g))
        .step(1286683200, -14400, 3600, "-03", Ghost(g))
        .step(1304823600, -14400, 0, "-04", Ghost(g))
        .step(1313899200, -14400, 3600, "-03", Ghost(g))
        .step(1335668400, -14400, 0, "-04", Ghost(g))
        .step(1346558400, -14400, 3600, "-03", Ghost(g))
        .step(1367118000, -14400, 0, "-04", Ghost(g))
        .step(1378612800, -14400, 3600, "-03", Ghost(g))
        .step(1398567600, -14400, 0, "-04", Ghost(g))
        .step(1410062400, -14400, 3600, "-03", Ghost(g))
        .step(1463281200, -14400, 0, "-04", Ghost(g))
        .step(1471147200, -14400, 3600, "-03", Ghost(g))
        .step(1494730800, -14400, 0, "-04", Ghost(g))
        .step(1502596800, -14400, 3600, "-03", Ghost(g))
        .step(1526180400, -14400, 0, "-04", Ghost(g))
        .step(1534046400, -14400, 3600, "-03", Ghost(g))
        .step(1554606000, -14400, 0, "-04", Ghost(g))
        .step(1567915200, -14400, 3600, "-03", Ghost(g))
        .step(1586055600, -14400, 0, "-04", Ghost(g))
        .step(1599364800, -14400, 3600, "-03", Ghost(g))
        .step(1617505200, -14400, 0, "-04", Ghost(g))
        .step(1630814400, -14400, 3600, "-03", Ghost(g))
        .step(1648954800, -14400, 0, "-04", Ghost(g))
        .step(1662868800, -14400, 3600, "-03", Ghost(g))
        .step(1680404400, -14400, 0, "-04", Ghost(g))
        .step(1693713600, -14400, 3600, "-03", Ghost(g))
        .step(1712458800, -14400, 0, "-04", Ghost(g))
        .step(1725768000, -14400, 3600, "-03", Ghost(g))
        .step(1743908400, -14400, 0, "-04", Ghost(g))
        .step(1757217600, -14400, 3600, "-03", Ghost(g))
        .step(1775358000, -14400, 0, "-04", Ghost(g))
        .step(1788667200, -14400, 3600, "-03", Ghost(g))
        .step(1806807600, -14400, 0, "-04", Ghost(g))
        .step(1820116800, -14400, 3600, "-03", Ghost(g))
        .step(1838257200, -14400, 0, "-04", Ghost(g))
        .step(1851566400, -14400, 3600, "-03", Ghost(g))
        .step(1870311600, -14400, 0, "-04", Ghost(g))
        .step(1883016000, -14400, 3600, "-03", Ghost(g))
        .step(1901761200, -14400, 0, "-04", Ghost(g))
        .step(1915070400, -14400, 3600, "-03", Ghost(g))
        .step(1933210800, -14400, 0, "-04", Ghost(g))
        .step(1946520000, -14400, 3600, "-03", Ghost(g))
        .step(1964660400, -14400, 0, "-04", Ghost(g))
        .step(1977969600, -14400, 3600, "-03", Ghost(g))
        .step(1996110000, -14400, 0, "-04", Ghost(g))
        .step(2009419200, -14400, 3600, "-03", Ghost(g))
        .step(2027559600, -14400, 0, "-04", Ghost(g))
        .step(2040868800, -14400, 3600, "-03", Ghost(g))
        .step(2059614000, -14400, 0, "-04", Ghost(g))
        .step(2072318400, -14400, 3600, "-03", Ghost(g))
        .step(2091063600, -14400, 0, "-04", Ghost(g))
        .step(2104372800, -14400, 3600, "-03", Ghost(g))
        .step(2122513200, -14400, 0, "-04", Ghost(g))
        .step(2135822400, -14400, 3600, "-03", Ghost(g))
        .step(2147483647, -14400, 3600, "-03", Ghost(g))
        .finish(Ghost(g))
}

/// The zone `America/Santo_Domingo`.
pub fn santo_domingo() -> (r: Tz)
    ensures
        r.wf(),
        r.zone_name() == "America/Santo_Domingo"@,
        r.table() == tables::america::santo_domingo(),
{
    let ghost g = tables::america::santo_domingo_rows();
    FixedTimespanSet::begin("America/Santo_Domingo", -16776, 0, "LMT", Ghost(g))
        .step(-2524504824, -16800, 0, "SDMT", Ghost(g))
        .step(-1159773600, -18000, 0, "EST", Ghost(g))
        .step(-100119600, -18000, 3600, "EDT", Ghost(g))
        .step(-89668800, -18000, 0, "EST", Ghost(g))
        .step(-5770800, -18000, 1800, "-0430", Ghost(g))
        .step(4422600, -18000, 0, "EST", Ghost(g))
        .step(25678800, -18000, 1800, "-0430", Ghost(g))
        .step(33193800, -18000, 0, "EST", Ghost(g))
        .step(57733200, -18000, 1800, "-0430", Ghost(g))
        .step(64816200, -18000, 0, "EST", Ghost(g))
        .step(89182800, -18000, 1800, "-0430", Ghost(g))
        .step(96438600, -18000, 0, "EST", Ghost(g))
        .step(120632400, -18000, 1800, "-0430", Ghost(g))
        .step(127974600, -18000, 0, "EST", Ghost(g))
        .step(152082000, -14400, 0, "AST", Ghost(g))
        .step(972799200, -18000, 0, "EST", Ghost(g))
        .step(975823200, -14400, 0, "AST", Ghost(g))
        .finish(Ghost(g))
}

/// The zone `America/Sao_Paulo`.
pub fn sao_paulo() -> (r: Tz)
    ensures
        r.wf(),
        r.zone_name() == "America/Sao_Paulo"@,
        r.table() == tables::america::sao_paulo(),
{
    let ghost g = tables::america::sao_paulo_rows();
    FixedTimespanSet::begin("America/Sao_Paulo", -11188, 0, "LMT", Ghost(g))
        .step(-1767214412, -10800, 0, "-03", Ghost(g))
        .step(-1206957600, -10800, 3600, "-02", Ghost(g))
        .step(-1191362400, -10800, 0, "-03", Ghost(g))
        .step(-1175374800, -10800, 3600, "-02", Ghost(g))
        .step(-1159826400, -10800, 0, "-03", Ghost(g))
        .step(-633819600, -10800, 3600, "-02", Ghost(g))
        .step(-622069200, -10800, 0, "-03", Ghost(g))
        .step(-602283600, -10800, 3600, "-02", Ghost(g))
        .step(-591832800, -10800, 0, "-03", Ghost(g))
        .step(-570747600, -10800, 3600, "-02", Ghost(g))
        .step(-560210400, -10800, 0, "-03", Ghost(g))
        .step(-539125200, -10800, 3600, "-02", Ghost(g))
        .step(-531352800, -10800, 0, "-03", Ghost(g))
        .step(-195426000, -10800, 3600, "-02", Ghost(g))
        .step(-184197600, -10800, 0, "-03", Ghost(g))
        .step(-155163600, -10800, 3600, "-02", Ghost(g))
        .step(-150069600, -10800, 0, "-03", Ghost(g))
        .step(-128898000, -10800, 3600, "-02", Ghost(g))
        .step(-121125600, -10800, 0, "-03", Ghost(g))
        .step(-99954000, -10800, 3600, "-02", Ghost(g))
        .step(-89589600, -10800, 0, "-03", Ghost(g))
        .step(-68418000, -10800, 3600, "-02", Ghost(g))
        .step(-57967200, -10800, 0, "-03", Ghost(g))
        .step(499748400, -10800, 3600, "-02", Ghost(g))
        .step(511236000, -10800, 0, "-03", Ghost(g))
        .step(530593200, -10800, 3600, "-02", Ghost(g))
        .step(540266400, -10800, 0, "-03", Ghost(g))
        .step(562129200, -10800, 3600, "-02", Ghost(g))
        .step(571197600, -10800, 0, "-03", Ghost(g))
        .step(592974000, -10800, 3600, "-02", Ghost(g))
        .step(602042400, -10800, 0, "-03", Ghost(g))
        .step(624423600, -10800, 3600, "-02", Ghost(g))
        .step(634701600, -10800, 0, "-03", Ghost(g))
        .step(656478000, -10800, 3600, "-02", Ghost(g))
        .step(666756000, -10800, 0, "-03", Ghost(g))
        .step(687927600, -10800, 3600, "-02", Ghost(g))
        .step(697600800, -10800, 0, "-03", Ghost(g))
        .step(719982000, -10800, 3600, "-02", Ghost(g))
        .step(728445600, -10800, 0, "-03", Ghost(g))
        .step(750826800, -10800, 3600, "-02", Ghost(g))
        .step(761709600, -10800, 0, "-03", Ghost(g))
        .step(782276400, -10800, 3600, "-02", Ghost(g))
        .step(793159200, -10800, 0, "-03", Ghost(g))
        .step(813726000, -10800, 3600, "-02", Ghost(g))
        .step(824004000, -10800, 0, "-03", Ghost(g))
        .step(844570800, -10800, 3600, "-02", Ghost(g))
        .step(856058400, -10800, 0, "-03", Ghost(g))
        .step(876106800, -10800, 3600, "-02", Ghost(g))
        .step(888717600, -10800, 0, "-03", Ghost(g))
        .step(908074800, -10800, 3600, "-02", Ghost(g))
        .step(919562400, -10800, 0, "-03", Ghost(g))
        .step(938919600, -10800, 3600, "-02", Ghost(g))
        .step(951616800, -10800, 0, "-03", Ghost(g))
        .step(970974000, -10800, 3600, "-02", Ghost(g))
        .step(982461600, -10800, 0, "-03", Ghost(g))
        .step(1003028400, -10800, 3600, "-02", Ghost(g))
        .step(1013911200, -10800, 0, "-03", Ghost(g))
        .step(1036292400, -10800, 3600, "-02", Ghost(g))
        .step(1045360800, -10800, 0, "-03", Ghost(g))
        .step(1066532400, -10800, 3600, "-02", Ghost(g))
        .step(1076810400, -10800, 0, "-03", Ghost(g))
        .step(1099364400, -10800, 3600, "-02", Ghost(g))
        .step(1108864800, -10800, 0, "-03", Ghost(g))
        .step(1129431600, -10800, 3600, "-02", Ghost(g))
        .step(1140314400, -10800, 0, "-03", Ghost(g))
        .step(1162695600, -10800, 3600, "-02", Ghost(g))
        .step(1172368800, -10800, 0, "-03", Ghost(g))
        .step(1192330800, -10800, 3600, "-02", Ghost(g))
        .step(1203213600, -10800, 0, "-03", Ghost(g))
        .step(1224385200, -10800, 3600, "-02", Ghost(g))
        .step(1234663200, -10800, 0, "-03", Ghost(g))
        .step(1255834800, -10800, 3600, "-02", Ghost(g))
        .step(1266717600, -10800, 0, "-03", Ghost(g))
        .step(1287284400, -10800, 3600, "-02", Ghost(g))
        .step(1298167200, -10800, 0, "-03", Ghost(g))
        .step(1318734000, -10800, 3600, "-02", Ghost(g))
        .step(1330221600, -10800, 0, "-03", Ghost(g))
        .step(1350788400, -10800, 3600, "-02", Ghost(g))
        .step(1361066400, -10800, 0, "-03", Ghost(g))
        .step(1382238000, -10800, 3600, "-02", Ghost(g))
        .step(1392516000, -10800, 0, "-03", Ghost(g))
        .step(1413687600, -10800, 3600, "-02", Ghost(g))
        .step(1424570400, -10800, 0, "-03", Ghost(g))
        .step(1445137200, -10800, 3600, "-02", Ghost(g))
        .step(1456020000, -10800, 0, "-03", Ghost(g))
        .step(1476586800, -10800, 3600, "-02", Ghost(g))
        .step(1487469600, -10800, 0, "-03", Ghost(g))
        .step(1508036400, -10800, 3600, "-02", Ghost(g))
        .step(1518919200, -10800, 0, "-03", Ghost(g))
        .step(1541300400, -10800, 3600, "-02", Ghost(g))
        .step(1550368800, -10800, 0, "-03", Ghost(g))
        .step(2147483647, -10800, 0, "-03", Ghost(g))
        .finish(Ghost(g))
}

/// The zone `America/Scoresbysund`.
pub fn scoresbysund() -> (r: Tz)
    ensures
        r.wf(),
        r.zone_name() == "America/Scoresbysund"@,
        r.table() == tables::america::scoresbysund(),
{
    let ghost g = tables::america::scoresbysund_rows();
    FixedTimespanSet::begin("America/Scoresbysund", -5272, 0, "LMT", Ghost(g))
        .step(-1686090728, -7200, 0, "-02", Ghost(g))
        .step(323841600, -7200, 3600, "-01", Ghost(g))
        .step(338961600, -7200, 0, "-02", Ghost(g))
        .step(354679200, -7200, 7200, "+00", Ghost(g))
        .step(370400400, -3600, 0, "-01", Ghost(g))
        .step(386125200, -3600, 3600, "+00", Ghost(g))
        .step(401850000, -3600, 0, "-01", Ghost(g))
        .step(417574800, -3600, 3600, "+00", Ghost(g))
        .step(433299600, -3600, 0, "-01", Ghost(g))
        .step(449024400, -3600, 3600, "+00", Ghost(g))
        .step(465354000, -3600, 0, "-01", Ghost(g))
        .step(481078800, -3600, 3600, "+00", Ghost(g))
        .step(496803600, -3600, 0, "-01", Ghost(g))
        .step(512528400, -3600, 3600, "+00", Ghost(g))
        .step(528253200, -3600, 0, "-01", Ghost(g))
        .step(543978000, -3600, 3600, "+00", Ghost(g))
        .step(559702800, -3600, 0, "-01", Ghost(g))
        .step(575427600, -3600, 3600, "+00", Ghost(g))
        .step(591152400, -3600, 0, "-01", Ghost(g))
        .step(606877200, -3600, 3600, "+00", Ghost(g))
        .step(622602000, -3600, 0, "-01", Ghost(g))
        .step(638326800, -3600, 3600, "+00", Ghost(g))
        .step(654656400, -3600, 0, "-01", Ghost(g))
        .step(670381200, -3600, 3600, "+00", Ghost(g))
        .step(686106000, -3600, 0, "-01", Ghost(g))
        .step(701830800, -3600, 3600, "+00", Ghost(g))
        .step(717555600, -3600, 0, "-01", Ghost(g))
        .step(733280400, -3600, 3600, "+00", Ghost(g))
        .step(749005200, -3600, 0, "-01", Ghost(g))
        .step(764730000, -3600, 3600, "+00", Ghost(g))
        .step(780454800, -3600, 0, "-01", Ghost(g))
        .step(796179600, -3600, 3600, "+00", Ghost(g))
        .step(811904400, -3600, 0, "-01", Ghost(g))
        .step(828234000, -3600, 3600, "+00", Ghost(g))
        .step(846378000, -3600, 0, "-01", Ghost(g))
        .step(859683600, -3600, 3600, "+00", Ghost(g))
        .step(877827600, -3600, 0, "-01", Ghost(g))
        .step(891133200, -3600, 3600, "+00", Ghost(g))
        .step(909277200, -3600, 0, "-01", Ghost(g))
        .step(922582800, -3600, 3600, "+00", Ghost(g))
        .step(941331600, -3600, 0, "-01", Ghost(g))
        .step(954032400, -3600, 3600, "+00", Ghost(g))
        .step(972781200, -3600, 0, "-01", Ghost(g))
        .step(985482000, -3600, 3600, "+00", Ghost(g))
        .step(1004230800, -3600, 0, "-01", Ghost(g))
        .step(1017536400, -3600, 3600, "+00", Ghost(g))
        .step(1035680400, -3600, 0, "-01", Ghost(g))
        .step(1048986000, -3600, 3600, "+00", Ghost(g))
        .step(1067130000, -3600, 0, "-01", Ghost(g))
        .step(1080435600, -3600, 3600, "+00", Ghost(g))
        .step(1099184400, -3600, 0, "-01", Ghost(g))
        .step(1111885200, -3600, 3600, "+00", Ghost(g))
        .step(1130634000, -3600, 0, "-01", Ghost(g))
        .step(1143334800, -3600, 3600, "+00", Ghost(g))
        .step(1162083600, -3600, 0, "-01", Ghost(g))
        .step(1174784400, -3600, 3600, "+00", Ghost(g))
        .step(1193533200, -3600, 0, "-01", Ghost(g))
        .step(1206838800, -3600, 3600, "+00", Ghost(g))
        .step(1224982800, -3600, 0, "-01", Ghost(g))
        .step(1238288400, -3600, 3600, "+00", Ghost(g))
        .step(1256432400, -3600, 0, "-01", Ghost(g))
        .step(1269738000, -3600, 3600, "+00", Ghost(g))
        .step(1288486800, -3600, 0, "-01", Ghost(g))
        .step(1301187600, -3600, 3600, "+00", Ghost(g))
        .step(1319936400, -3600, 0, "-01", Ghost(g))
        .step(1332637200, -3600, 3600, "+00", Ghost(g))
        .step(1351386000, -3600, 0, "-01", Ghost(g))
        .step(1364691600, -3600, 3600, "+00", Ghost(g))
        .step(1382835600, -3600, 0, "-01", Ghost(g))
        .step(1396141200, -3600, 3600, "+00", Ghost(g))
        .step(1414285200, -3600, 0, "-01", Ghost(g))
        .step(1427590800, -3600, 3600, "+00", Ghost(g))
        .step(1445734800, -3600, 0, "-01", Ghost(g))
        .step(1459040400, -3600, 3600, "+00", Ghost(g))
        .step(1477789200, -3600, 0, "-01", Ghost(g))
        .step(1490490000, -3600, 3600, "+00", Ghost(g))
        .step(1509238800, -3600, 0, "-01", Ghost(g))
        .step(1521939600, -3600, 3600, "+00", Ghost(g))
        .step(1540688400, -3600, 0, "-01", Ghost(g))
        .step(1553994000, -3600, 3600, "+00", Ghost(g))
        .step(1572138000, -3600, 0, "-01", Ghost(g))
        .step(1585443600, -3600, 3600, "+00", Ghost(g))
        .step(1603587600, -3600, 0, "-01", Ghost(g))
        .step(1616893200, -3600, 3600, "+00", Ghost(g))
        .step(1635642000, -3600, 0, "-01", Ghost(g))
        .step(1648342800, -3600, 3600, "+00", Ghost(g))
        .step(1667091600, -3600, 0, "-01", Ghost(g))
        .step(1679792400, -3600, 3600, "+00", Ghost(g))
        .step(1698541200, -3600, 0, "-01", Ghost(g))
        .step(1711846800, -7200, 3600, "-01", Ghost(g))
        .step(1729990800, -7200, 0, "-02", Ghost(g))
        .step(1743296400, -7200, 3600, "-01", Ghost(g))
        .step(1761440400, -7200, 0, "-02", Ghost(g))
        .step(1774746000, -7200, 3600, "-01", Ghost(g))
        .step(1792890000, -7200, 0, "-02", Ghost(g))
        .step(1806195600, -7200, 3600, "-01", Ghost(g))
        .step(1824944400, -7200, 0, "-02", Ghost(g))
        .step(1837645200, -7200, 3600, "-01", Ghost(g))
        .step(1856394000, -7200, 0, "-02", Ghost(g))
        .step(1869094800, -7200, 3600, "-01", Ghost(g))
        .step(1887843600, -7200, 0, "-02", Ghost(g))
        .step(1901149200, -7200, 3600, "-01", Ghost(g))
        .step(1919293200, -7200, 0, "-02", Ghost(g))
        .step(1932598800, -7200, 3600, "-01", Ghost(g))
        .step(1950742800, -7200, 0, "-02", Ghost(g))
        .step(1964048400, -7200, 3600, "-01", Ghost(g))
        .step(1982797200, -7200, 0, "-02", Ghost(g))
        .step(1995498000, -7200, 3600, "-01", Ghost(g))
        .step(2014246800, -7200, 0, "-02", Ghost(g))
        .step(2026947600, -7200, 3600, "-01", Ghost(g))
        .step(2045696400, -7200, 0, "-02", Ghost(g))
        .step(2058397200, -7200, 3600, "-01", Ghost(g))
        .step(2077146000, -7200, 0, "-02", Ghost(g))
        .step(2090451600, -7200, 3600, "-01", Ghost(g))
        .step(2108595600, -7200, 0, "-02", Ghost(g))
        .step(2121901200, -7200, 3600, "-01", Ghost(g))
        .step(2140045200, -7200, 0, "-02", Ghost(g))
        .step(2147483647, -7200, 0, "-02", Ghost(g))
        .finish(Ghost(g))
}

/// The zone `America/Shiprock`.
pub fn shiprock() -> (r: Tz)
    ensures
        r.wf(),
        r.zone_name() == "America/Shiprock"@,
        r.table() == tables::america::shiprock(),
{
    let ghost g = tables::america::shiprock_rows();
    FixedTimespanSet::begin("America/Shiprock", -25196, 0, "LMT", Ghost(g))
        .step(-2717643600, -25200, 0, "MST", Ghost(g))
        .step(-1633273200, -25200, 3600, "MDT", Ghost(g))
        .step(-1615132800, -25200, 0, "MST", Ghost(g))
        .step(-1601823600, -25200, 3600, "MDT", Ghost(g))
        .step(-1583683200, -25200, 0, "MST", Ghost(g))
        .step(-1570374000, -25200, 3600, "MDT", Ghost(g))
        .step(-1551628800, -25200, 0, "MST", Ghost(g))
        .step(-1538924400, -25200, 3600, "MDT", Ghost(g))
        .step(-1534089600, -25200, 0, "MST", Ghost(g))
        .step(-880210800, -25200, 3600, "MWT", Ghost(g))
        .step(-769395600, -25200, 3600, "MPT", Ghost(g))
        .step(-765388800, -25200, 0, "MST", Ghost(g))
        .step(-147884400, -25200, 3600, "MDT", Ghost(g))
        .step(-131558400, -25200, 0, "MST", Ghost(g))
        .step(-116434800, -25200, 3600, "MDT", Ghost(g))
        .step(-100108800, -25200, 0, "MST", Ghost(g))
        .step(-84380400, -25200, 3600, "MDT", Ghost(g))
        .step(-68659200, -25200, 0, "MST", Ghost(g))
        .step(-52930800, -25200, 3600, "MDT", Ghost(g))
        .step(-37209600, -25200, 0, "MST", Ghost(g))
        .step(-21481200, -25200, 3600, "MDT", Ghost(g))
        .step(-5760000, -25200, 0, "MST", Ghost(g))
        .step(9968400, -25200, 3600, "MDT", Ghost(g))
        .step(25689600, -25200, 0, "MST", Ghost(g))
        .step(41418000, -25200, 3600, "MDT", Ghost(g))
        .step(57744000, -25200, 0, "MST", Ghost(g))
        .step(73472400, -25200, 3600, "MDT", Ghost(g))
        .step(89193600, -25200, 0, "MST", Ghost(g))
        .step(104922000, -25200, 3600, "MDT", Ghost(g))
        .step(120643200, -25200, 0, "MST", Ghost(g))
        .step(126694800, -25200, 3600, "MDT", Ghost(g))
        .step(152092800, -25200, 0, "MST", Ghost(g))
        .step(162378000, -25200, 3600, "MDT", Ghost(g))
        .step(183542400, -25200, 0, "MST", Ghost(g))
        .step(199270800, -25200, 3600, "MDT", Ghost(g))
        .step(215596800, -25200, 0, "MST", Ghost(g))
        .step(230720400, -25200, 3600, "MDT", Ghost(g))
        .step(247046400, -25200, 0, "MST", Ghost(g))
        .step(262774800, -25200, 3600, "MDT", Ghost(g))
        .step(278496000, -25200, 0, "MST", Ghost(g))
        .step(294224400, -25200, 3600, "MDT", Ghost(g))
        .step(309945600, -25200, 0, "MST", Ghost(g))
        .step(325674000, -25200, 3600, "MDT", Ghost(g))
        .step(341395200, -25200, 0, "MST", Ghost(g))
        .step(357123600, -25200, 3600, "MDT", Ghost(g))
        .step(372844800, -25200, 0, "MST", Ghost(g))
        .step(388573200, -25200, 3600, "MDT", Ghost(g))
        .step(404899200, -25200, 0, "MST", Ghost(g))
        .step(420022800, -25200, 3600, "MDT", Ghost(g))
        .step(436348800, -25200, 0, "MST", Ghost(g))
        .step(452077200, -25200, 3600, "MDT", Ghost(g))
        .step(467798400, -25200, 0, "MST", Ghost(g))
        .step(483526800, -25200, 3600, "MDT", Ghost(g))
        .step(499248000, -25200, 0, "MST", Ghost(g))
        .step(514976400, -25200, 3600, "MDT", Ghost(g))
        .step(530697600, -25200, 0, "MST", Ghost(g))
        .step(544611600, -25200, 3600, "MDT", Ghost(g))
        .step(562147200, -25200, 0, "MST", Ghost(g))
        .step(576061200, -25200, 3600, "MDT", Ghost(g))
        .step(594201600, -25200, 0, "MST", Ghost(g))
        .step(607510800, -25200, 3600, "MDT", Ghost(g))
        .step(625651200, -25200, 0, "MST", Ghost(g))
        .step(638960400, -25200, 3600, "MDT", Ghost(g))
        .step(657100800, -25200, 0, "MST", Ghost(g))
        .step(671014800, -25200, 3600, "MDT", Ghost(g))
        .step(688550400, -25200, 0, "MST", Ghost(g))
        .step(702464400, -25200, 3600, "MDT", Ghost(g))
        .step(720000000, -25200, 0, "MST", Ghost(g))
        .step(733914000, -25200, 3600, "MDT", Ghost(g))
        .step(752054400, -25200, 0, "MST", Ghost(g))
        .step(765363600, -25200, 3600, "MDT", Ghost(g))
        .step(783504000, -25200, 0, "MST", Ghost(g))
        .step(796813200, -25200, 3600, "MDT", Ghost(g))
        .step(814953600, -25200, 0, "MST", Ghost(g))
        .step(828867600, -25200, 3600, "MDT", Ghost(g))
        .step(846403200, -25200, 0, "MST", Ghost(g))
        .step(860317200, -25200, 3600, "MDT", Ghost(g))
        .step(877852800, -25200, 0, "MST", Ghost(g))
        .step(891766800, -25200, 3600, "MDT", Ghost(g))
        .step(909302400, -25200, 0, "MST", Ghost(g))
        .step(923216400, -25200, 3600, "MDT", Ghost(g))
        .step(941356800, -25200, 0, "MST", Ghost(g))
        .step(954666000, -25200, 3600, "MDT", Ghost(g))
        .step(972806400, -25200, 0, "MST", Ghost(g))
        .step(986115600, -25200, 3600, "MDT", Ghost(g))
        .step(1004256000, -25200, 0, "MST", Ghost(g))
        .step(1018170000, -25200, 3600, "MDT", Ghost(g))
        .step(1035705600, -25200, 0, "MST", Ghost(g))
        .step(1049619600, -25200, 3600, "MDT", Ghost(g))
        .step(1067155200, -25200, 0, "MST", Ghost(g))
        .step(1081069200, -25200, 3600, "MDT", Ghost(g))
        .step(1099209600, -25200, 0, "MST", Ghost(g))
        .step(1112518800, -25200, 3600, "MDT", Ghost(g))
        .step(1130659200, -25200, 0, "MST", Ghost(g))
        .step(1143968400, -25200, 3600, "MDT", Ghost(g))
        .step(1162108800, -25200, 0, "MST", Ghost(g))
        .step(1173603600, -25200, 3600, "MDT", Ghost(g))
        .step(1194163200, -25200, 0, "MST", Ghost(g))
        .step(1205053200, -25200, 3600, "MDT", Ghost(g))
        .step(1225612800, -25200, 0, "MST", Ghost(g))
        .step(1236502800, -25200, 3600, "MDT", Ghost(g))
        .step(1257062400, -25200, 0, "MST", Ghost(g))
        .step(1268557200, -25200, 3600, "MDT", Ghost(g))
        .step(1289116800, -25200, 0, "MST", Ghost(g))
        .step(1300006800, -25200, 3600, "MDT", Ghost(g))
        .step(1320566400, -25200, 0, "MST", Ghost(g))
        .step(1331456400, -25200, 3600, "MDT", Ghost(g))
        .step(1352016000, -25200, 0, "MST", Ghost(g))
        .step(1362906000, -25200, 3600, "MDT", Ghost(g))
        .step(1383465600, -25200, 0, "MST", Ghost(g))
        .step(1394355600, -25200, 3600, "MDT", Ghost(g))
        .step(1414915200, -25200, 0, "MST", Ghost(g))
        .step(1425805200, -25200, 3600, "MDT", Ghost(g))
        .step(1446364800, -25200, 0, "MST", Ghost(g))
        .step(1457859600, -25200, 3600, "MDT", Ghost(g))
        .step(1478419200, -25200, 0, "MST", Ghost(g))
        .step(1489309200, -25200, 3600, "MDT", Ghost(g))
        .step(1509868800, -25200, 0, "MST", Ghost(g))
        .step(1520758800, -25200, 3600, "MDT", Ghost(g))
        .step(1541318400, -25200, 0, "MST", Ghost(g))
        .step(1552208400, -25200, 3600, "MDT", Ghost(g))
        .step(1572768000, -25200, 0, "MST", Ghost(g))
        .step(1583658000, -25200, 3600, "MDT", Ghost(g))
        .step(1604217600, -25200, 0, "MST", Ghost(g))
        .step(1615712400, -25200, 3600, "MDT", Ghost(g))
        .step(1636272000, -25200, 0, "MST", Ghost(g))
        .step(1647162000, -25200, 3600, "MDT", Ghost(g))
        .step(1667721600, -25200, 0, "MST", Ghost(g))
        .step(1678611600, -25200, 3600, "MDT", Ghost(g))
        .step(1699171200, -25200, 0, "MST", Ghost(g))
        .step(1710061200, -25200, 3600, "MDT", Ghost(g))
        .step(1730620800, -25200, 0, "MST", Ghost(g))
        .step(1741510800, -25200, 3600, "MDT", Ghost(g))
        .step(1762070400, -25200, 0, "MST", Ghost(g))
        .step(1772960400, -25200, 3600, "MDT", Ghost(g))
        .step(1793520000, -25200, 0, "MST", Ghost(g))
        .step(1805014800, -25200, 3600, "MDT", Ghost(g))
        .step(1825574400, -25200, 0, "MST", Ghost(g))
        .step(1836464400, -25200, 3600, "MDT", Ghost(g))
        .step(1857024000, -25200, 0, "MST", Ghost(g))
        .step(1867914000, -25200, 3600, "MDT", Ghost(g))
        .step(1888473600, -25200, 0, "MST", Ghost(g))
        .step(1899363600, -25200, 3600, "MDT", Ghost(g))
        .step(1919923200, -25200, 0, "MST", Ghost(g))
        .step(1930813200, -25200, 3600, "MDT", Ghost(g))
        .step(1951372800, -25200, 0, "MST", Ghost(g))
        .step(1962867600, -25200, 3600, "MDT", Ghost(g))
        .step(1983427200, -25200, 0, "MST", Ghost(g))
        .step(1994317200, -25200, 3600, "MDT", Ghost(g))
        .step(2014876800, -25200, 0, "MST", Ghost(g))
        .step(2025766800, -25200, 3600, "MDT", Ghost(g))
        .step(2046326400, -25200, 0, "MST", Ghost(g))
        .step(2057216400, -25200, 3600, "MDT", Ghost(g))
        .step(2077776000, -25200, 0, "MST", Ghost(g))
        .step(2088666000, -25200, 3600, "MDT", Ghost(g))
        .step(2109225600, -25200, 0, "MST", Ghost(g))
        .step(2120115600, -25200, 3600, "MDT", Ghost(g))
        .step(2140675200, -25200, 0, "MST", Ghost(g))
        .finish(Ghost(g))
}

/// The zone `America/Sitka`.
pub fn sitka() -> (r: Tz)
    ensures
        r.wf(),
        r.zone_name() == "America/Sitka"@,
        r.table() == tables::america::sitka(),
{
    let ghost g = tables::america::sitka_rows();
    FixedTimespanSet::begin("America/Sitka", 53927, 0, "LMT", Ghost(g))
        .step(-3225223727, -32473, 0, "LMT", Ghost(g))
        .step(-2188954727, -28800, 0, "PST", Ghost(g))
        .step(-880207200, -28800, 3600, "PWT", Ghost(g))
        .step(-769395600, -28800, 3600, "PPT", Ghost(g))
        .step(-765385200, -28800, 0, "PST", Ghost(g))
        .step(-21477600, -28800, 3600, "PDT", Ghost(g))
        .step(-5756400, -28800, 0, "PST", Ghost(g))
        .step(9972000, -28800, 3600, "PDT", Ghost(g))
        .step(25693200, -28800, 0, "PST", Ghost(g))
        .step(41421600, -28800, 3600, "PDT", Ghost(g))
        .step(57747600, -28800, 0, "PST", Ghost(g))
        .step(73476000, -28800, 3600, "PDT", Ghost(g))
        .step(89197200, -28800, 0, "PST", Ghost(g))
        .step(104925600, -28800, 3600, "PDT", Ghost(g))
        .step(120646800, -28800, 0, "PST", Ghost(g))
        .step(126698400, -28800, 3600, "PDT", Ghost(g))
        .step(152096400, -28800, 0, "PST", Ghost(g))
        .step(162381600, -28800, 3600, "PDT", Ghost(g))
        .step(183546000, -28800, 0, "PST", Ghost(g))
        .step(199274400, -28800, 3600, "PDT", Ghost(g))
        .step(215600400, -28800, 0, "PST", Ghost(g))
        .step(230724000, -28800, 3600, "PDT", Ghost(g))
        .step(247050000, -28800, 0, "PST", Ghost(g))
        .step(262778400, -28800, 3600, "PDT", Ghost(g))
        .step(278499600, -28800, 0, "PST", Ghost(g))
        .step(294228000, -28800, 3600, "PDT", Ghost(g))
        .step(309949200, -28800, 0, "PST", Ghost(g))
        .step(325677600, -28800, 3600, "PDT", Ghost(g))
        .step(341398800, -28800, 0, "PST", Ghost(g))
        .step(357127200, -28800, 3600, "PDT", Ghost(g))
        .step(372848400, -28800, 0, "PST", Ghost(g))
        .step(388576800, -28800, 3600, "PDT", Ghost(g))
        .step(404902800, -28800, 0, "PST", Ghost(g))
        .step(420026400, -28800, 3600, "PDT", Ghost(g))
        .step(436352400, -32400, 0, "YST", Ghost(g))
        .step(439030800, -32400, 0, "AKST", Ghost(g))
        .step(452084400, -32400, 3600, "AKDT", Ghost(g))
        .step(467805600, -32400, 0, "AKST", Ghost(g))
        .step(483534000, -32400, 3600, "AKDT", Ghost(g))
        .step(499255200, -32400, 0, "AKST", Ghost(g))
        .step(514983600, -32400, 3600, "AKDT", Ghost(g))
        .step(530704800, -32400, 0, "AKST", Ghost(g))
        .step(544618800, -32400, 3600, "AKDT", Ghost(g))
        .step(562154400, -32400, 0, "AKST", Ghost(g))
        .step(576068400, -32400, 3600, "AKDT", Ghost(g))
        .step(594208800, -32400, 0, "AKST", Ghost(g))
        .step(607518000, -32400, 3600, "AKDT", Ghost(g))
        .step(625658400, -32400, 0, "AKST", Ghost(g))
        .step(638967600, -32400, 3600, "AKDT", Ghost(g))
        .step(657108000, -32400, 0, "AKST", Ghost(g))
        .step(671022000, -32400, 3600, "AKDT", Ghost(g))
        .step(688557600, -32400, 0, "AKST", Ghost(g))
        .step(702471600, -32400, 3600, "AKDT", Ghost(g))
        .step(720007200, -32400, 0, "AKST", Ghost(g))
        .step(733921200, -32400, 3600, "AKDT", Ghost(g))
        .step(752061600, -32400, 0, "AKST", Ghost(g))
        .step(765370800, -32400, 3600, "AKDT", Ghost(g))
        .step(783511200, -32400, 0, "AKST", Ghost(g))
        .step(796820400, -32400, 3600, "AKDT", Ghost(g))
        .step(814960800, -32400, 0, "AKST", Ghost(g))
        .step(828874800, -32400, 3600, "AKDT", Ghost(g))
        .step(846410400, -32400, 0, "AKST", Ghost(g))
        .step(860324400, -32400, 3600, "AKDT", Ghost(g))
        .step(877860000, -32400, 0, "AKST", Ghost(g))
        .step(891774000, -32400, 3600, "AKDT", Ghost(g))
        .step(909309600, -32400, 0, "AKST", Ghost(g))
        .step(923223600, -32400, 3600, "AKDT", Ghost(g))
        .step(941364000, -32400, 0, "AKST", Ghost(g))
        .step(954673200, -32400, 3600, "AKDT", Ghost(g))
        .step(972813600, -32400, 0, "AKST", Ghost(g))
        .step(986122800, -32400, 3600, "AKDT", Ghost(g))
        .step(1004263200, -32400, 0, "AKST", Ghost(g))
        .step(1018177200, -32400, 3600, "AKDT", Ghost(g))
        .step(1035712800, -32400, 0, "AKST", Ghost(g))
        .step(1049626800, -32400, 3600, "AKDT", Ghost(g))
        .step(1067162400, -32400, 0, "AKST", Ghost(g))
        .step(1081076400, -32400, 3600, "AKDT", Ghost(g))
        .step(1099216800, -32400, 0, "AKST", Ghost(g))
        .step(1112526000, -32400, 3600, "AKDT", Ghost(g))
        .step(1130666400, -32400, 0, "AKST", Ghost(g))
        .step(1143975600, -32400, 3600, "AKDT", Ghost(g))
        .step(1162116000, -32400, 0, "AKST", Ghost(g))
        .step(1173610800, -32400, 3600, "AKDT", Ghost(g))
        .step(1194170400, -32400, 0, "AKST", Ghost(g))
        .step(1205060400, -32400, 3600, "AKDT", Ghost(g))
        .step(1225620000, -32400, 0, "AKST", Ghost(g))
        .step(1236510000, -32400, 3600, "AKDT", Ghost(g))
        .step(1257069600, -32400, 0, "AKST", Ghost(g))
        .step(1268564400, -32400, 3600, "AKDT", Ghost(g))
        .step(1289124000, -32400, 0, "AKST", Ghost(g))
        .step(1300014000, -32400, 3600, "AKDT", Ghost(g))
        .step(1320573600, -32400, 0, "AKST", Ghost(g))
        .step(1331463600, -32400, 3600, "AKDT", Ghost(g))
        .step(1352023200, -32400, 0, "AKST", Ghost(g))
        .step(1362913200, -32400, 3600, "AKDT", Ghost(g))
        .step(1383472800, -32400, 0, "AKST", Ghost(g))
        .step(1394362800, -32400, 3600, "AKDT", Ghost(g))
        .step(1414922400, -32400, 0, "AKST", Ghost(g))
        .step(1425812400, -32400, 3600, "AKDT", Ghost(g))
        .step(1446372000, -32400, 0, "AKST", Ghost(g))
        .step(1457866800, -32400, 3600, "AKDT", Ghost(g))
        .step(1478426400, -32400, 0, "AKST", Ghost(g))
        .step(1489316400, -32400, 3600, "AKDT", Ghost(g))
        .step(1509876000, -32400, 0, "AKST", Ghost(g))
        .step(1520766000, -32400, 3600, "AKDT", Ghost(g))
        .step(1541325600, -32400, 0, "AKST", Ghost(g))
        .step(1552215600, -32400, 3600, "AKDT", Ghost(g))
        .step(1572775200, -32400, 0, "AKST", Ghost(g))
        .step(1583665200, -32400, 3600, "AKDT", Ghost(g))
        .step(1604224800, -32400, 0, "AKST", Ghost(g))
        .step(1615719600, -32400, 3600, "AKDT", Ghost(g))
        .step(1636279200, -32400, 0, "AKST", Ghost(g))
        .step(1647169200, -32400, 3600, "AKDT", Ghost(g))
        .step(1667728800, -32400, 0, "AKST", Ghost(g))
        .step(1678618800, -32400, 3600, "AKDT", Ghost(g))
        .step(1699178400, -32400, 0, "AKST", Ghost(g))
        .step(1710068400, -32400, 3600, "AKDT", Ghost(g))
        .step(1730628000, -32400, 0, "AKST", Ghost(g))
        .step(1741518000, -32400, 3600, "AKDT", Ghost(g))
        .step(1762077600, -32400, 0, "AKST", Ghost(g))
        .step(1772967600, -32400, 3600, "AKDT", Ghost(g))
        .step(1793527200, -32400, 0, "AKST", Ghost(g))
        .step(1805022000, -32400, 3600, "AKDT", Ghost(g))
        .step(1825581600, -32400, 0, "AKST", Ghost(g))
        .step(1836471600, -32400, 3600, "AKDT", Ghost(g))
        .step(1857031200, -32400, 0, "AKST", Ghost(g))
        .step(1867921200, -32400, 3600, "AKDT", Ghost(g))
        .step(1888480800, -32400, 0, "AKST", Ghost(g))
        .step(1899370800, -32400, 3600, "AKDT", Ghost(g))
        .step(1919930400, -32400, 0, "AKST", Ghost(g))
        .step(1930820400, -32400, 3600, "AKDT", Ghost(g))
        .step(1951380000, -32400, 0, "AKST", Ghost(g))
        .step(1962874800, -32400, 3600, "AKDT", Ghost(g))
        .step(1983434400, -32400, 0, "AKST", Ghost(g))
        .step(1994324400, -32400, 3600, "AKDT", Ghost(g))
        .step(2014884000, -32400, 0, "AKST", Ghost(g))
        .step(2025774000, -32400, 3600, "AKDT", Ghost(g))
        .step(2046333600, -32400, 0, "AKST", Ghost(g))
        .step(2057223600, -32400, 3600, "AKDT", Ghost(g))
        .step(2077783200, -32400, 0, "AKST", Ghost(g))
        .step(2088673200, -32400, 3600, "AKDT", Ghost(g))
        .step(2109232800, -32400, 0, "AKST", Ghost(g))
        .step(2120122800, -32400, 3600, "AKDT", Ghost(g))
        .step(2140682400, -32400, 0, "AKST", Ghost(g))
        .finish(Ghost(g))
}

/// The zone `America/St_Barthelemy`.
pub fn st_barthelemy() -> (r: Tz)
    ensures
        r.wf(),
        r.zone_name() == "America/St_Barthelemy"@,
        r.table() == tables::america::st_barthelemy(),
{
    let ghost g = tables::america::st_barthelemy_rows();
    FixedTimespanSet::begin("America/St_Barthelemy", -15865, 0, "LMT", Ghost(g))
        .step(-2233035335, -14400, 0, "AST", Ghost(g))
        .step(-873057600, -14400, 3600, "AWT", Ghost(g))
        .step(-769395600, -14400, 3600, "APT", Ghost(g))
        .step(-765399600, -14400, 0, "AST", Ghost(g))
        .finish(Ghost(g))
}

/// The zone `America/St_Johns`.
pub fn st_johns() -> (r: Tz)
    ensures
        r.wf(),
        r.zone_name() == "America/St_Johns"@,
        r.table() == tables::america::st_johns(),
{
    let ghost g = tables::america::st_johns_rows();
    FixedTimespanSet::begin("America/St_Johns", -12652, 0, "LMT", Ghost(g))
        .step(-2713897748, -12652, 0, "NST", Ghost(g))
        .step(-1664130548, -12652, 3600, "NDT", Ghost(g))
        .step(-1650137348, -12652, 0, "NST", Ghost(g))
        .step(-1632076148, -12652, 3600, "NDT", Ghost(g))
        .step(-1615145348, -12652, 0, "NST", Ghost(g))
        .step(-1598650148, -12652, 3600, "NDT", Ghost(g))
        .step(-1590100148, -12652, 0, "NST", Ghost(g))
        .step(-1567286948, -12652, 3600, "NDT", Ghost(g))
        .step(-1551565748, -12652, 0, "NST", Ghost(g))
        .step(-1535837348, -12652, 3600, "NDT", Ghost(g))
        .step(-1520116148, -12652, 0, "NST", Ghost(g))
        .step(-1503782948, -12652, 3600, "NDT", Ghost(g))
        .step(-1488666548, -12652, 0, "NST", Ghost(g))
        .step(-1472333348, -12652, 3600, "NDT", Ghost(g))
        .step(-1457216948, -12652, 0, "NST", Ghost(g))
        .step(-1440883748, -12652, 3600, "NDT", Ghost(g))
        .step(-1425767348, -12652, 0, "NST", Ghost(g))
        .step(-1409434148, -12652, 3600, "NDT", Ghost(g))
        .step(-1394317748, -12652, 0, "NST", Ghost(g))
        .step(-1377984548, -12652, 3600, "NDT", Ghost(g))
        .step(-1362263348, -12652, 0, "NST", Ghost(g))
        .step(-1346534948, -12652, 3600, "NDT", Ghost(g))
        .step(-1330813748, -12652, 0, "NST", Ghost(g))
        .step(-1314480548, -12652, 3600, "NDT", Ghost(g))
        .step(-1299364148, -12652, 0, "NST", Ghost(g))
        .step(-1283030948, -12652, 3600, "NDT", Ghost(g))
        .step(-1267914548, -12652, 0, "NST", Ghost(g))
        .step(-1251581348, -12652, 3600, "NDT", Ghost(g))
        .step(-1236464948, -12652, 0, "NST", Ghost(g))
        .step(-1220131748, -12652, 3600, "NDT", Ghost(g))
        .step(-1205015348, -12652, 0, "NST", Ghost(g))
        .step(-1188682148, -12652, 3600, "NDT", Ghost(g))
        .step(-1172960948, -12652, 0, "NST", Ghost(g))
        .step(-1156627748, -12652, 3600, "NDT", Ghost(g))
        .step(-1141511348, -12652, 0, "NST", Ghost(g))
        .step(-1125178148, -12652, 3600, "NDT", Ghost(g))
        .step(-1110061748, -12652, 0, "NST", Ghost(g))
        .step(-1096921748, -12600, 0, "NST", Ghost(g))
        .step(-1093728600, -12600, 3600, "NDT", Ghost(g))
        .step(-1078612200, -12600, 0, "NST", Ghost(g))
        .step(-1061670600, -12600, 3600, "NDT", Ghost(g))
        .step(-1048973400, -12600, 0, "NST", Ghost(g))
        .step(-1030221000, -12600, 3600, "NDT", Ghost(g))
        .step(-1017523800, -12600, 0, "NST", Ghost(g))
        .step(-998771400, -12600, 3600, "NDT", Ghost(g))
        .step(-986074200, -12600, 0, "NST", Ghost(g))
        .step(-966717000, -12600, 3600, "NDT", Ghost(g))
        .step(-954624600, -12600, 0, "NST", Ghost(g))
        .step(-935267400, -12600, 3600, "NDT", Ghost(g))
        .step(-922570200, -12600, 0, "NST", Ghost(g))
        .step(-903817800, -12600, 3600, "NDT", Ghost(g))
        .step(-891120600, -12600, 0, "NST", Ghost(g))
        .step(-872368200, -12600, 3600, "NWT", Ghost(g))
        .step(-769395600, -12600, 3600, "NPT", Ghost(g))
        .step(-765401400, -12600, 0, "NST", Ghost(g))
        .step(-746044200, -12600, 3600, "NDT", Ghost(g))
        .step(-733347000, -12600, 0, "NST", Ghost(g))
        .step(-714594600, -12600, 3600, "NDT", Ghost(g))
        .step(-701897400, -12600, 0, "NST", Ghost(g))
        .step(-683145000, -12600, 3600, "NDT", Ghost(g))
        .step(-670447800, -12600, 0, "NST", Ghost(g))
        .step(-651695400, -12600, 3600, "NDT", Ghost(g))
        .step(-638998200, -12600, 0, "NST", Ghost(g))
        .step(-619641000, -12600, 3600, "NDT", Ghost(g))
        .step(-606943800, -12600, 0, "NST", Ghost(g))
        .step(-589401000, -12600, 3600, "NDT", Ghost(g))
        .step(-576099000, -12600, 0, "NST", Ghost(g))
        .step(-557951400, -12600, 3600, "NDT", Ghost(g))
        .step(-544649400, -12600, 0, "NST", Ghost(g))
        .step(-526501800, -12600, 3600, "NDT", Ghost(g))
        .step(-513199800, -12600, 0, "NST", Ghost(g))
        .step(-495052200, -12600, 3600, "NDT", Ghost(g))
        .step(-481750200, -12600, 0, "NST", Ghost(g))
        .step(-463602600, -12600, 3600, "NDT", Ghost(g))
        .step(-450300600, -12600, 0, "NST", Ghost(g))
        .step(-431548200, -12600, 3600, "NDT", Ghost(g))
        .step(-418246200, -12600, 0, "NST", Ghost(g))
        .step(-400098600, -12600, 3600, "NDT", Ghost(g))
        .step(-386796600, -12600, 0, "NST", Ghost(g))
        .step(-368649000, -12600, 3600, "NDT", Ghost(g))
        .step(-355347000, -12600, 0, "NST", Ghost(g))
        .step(-337199400, -12600, 3600, "NDT", Ghost(g))
        .step(-323897400, -12600, 0, "NST", Ghost(g))
        .step(-305749800, -12600, 3600, "NDT", Ghost(g))
        .step(-289423800, -12600, 0, "NST", Ghost(g))
        .step(-273695400, -12600, 3600, "NDT", Ghost(g))
        .step(-257974200, -12600, 0, "NST", Ghost(g))
        .step(-242245800, -12600, 3600, "NDT", Ghost(g))
        .step(-226524600, -12600, 0, "NST", Ghost(g))
        .step(-210796200, -12600, 3600, "NDT", Ghost(g))
        .step(-195075000, -12600, 0, "NST", Ghost(g))
        .step(-179346600, -12600, 3600, "NDT", Ghost(g))
        .step(-163625400, -12600, 0, "NST", Ghost(g))
        .step(-147897000, -12600, 3600, "NDT", Ghost(g))
        .step(-131571000, -12600, 0, "NST", Ghost(g))
        .step(-116447400, -12600, 3600, "NDT", Ghost(g))
        .step(-100121400, -12600, 0, "NST", Ghost(g))
        .step(-84393000, -12600, 3600, "NDT", Ghost(g))
        .step(-68671800, -12600, 0, "NST", Ghost(g))
        .step(-52943400, -12600, 3600, "NDT", Ghost(g))
        .step(-37222200, -12600, 0, "NST", Ghost(g))
        .step(-21493800, -12600, 3600, "NDT", Ghost(g))
        .step(-5772600, -12600, 0, "NST", Ghost(g))
        .step(9955800, -12600, 3600, "NDT", Ghost(g))
        .step(25677000, -12600, 0, "NST", Ghost(g))
        .step(41405400, -12600, 3600, "NDT", Ghost(g))
        .step(57731400, -12600, 0, "NST", Ghost(g))
        .step(73459800, -12600, 3600, "NDT", Ghost(g))
        .step(89181000, -12600, 0, "NST", Ghost(g))
        .step(104909400, -12600, 3600, "NDT", Ghost(g))
        .step(120630600, -12600, 0, "NST", Ghost(g))
        .step(136359000, -12600, 3600, "NDT", Ghost(g))
        .step(152080200, -12600, 0, "NST", Ghost(g))
        .step(167808600, -12600, 3600, "NDT", Ghost(g))
        .step(183529800, -12600, 0, "NST", Ghost(g))
        .step(199258200, -12600, 3600, "NDT", Ghost(g))
        .step(215584200, -12600, 0, "NST", Ghost(g))
        .step(230707800, -12600, 3600, "NDT", Ghost(g))
        .step(247033800, -12600, 0, "NST", Ghost(g))
        .step(262762200, -12600, 3600, "NDT", Ghost(g))
        .step(278483400, -12600, 0, "NST", Ghost(g))
        .step(294211800, -12600, 3600, "NDT", Ghost(g))
        .step(309933000, -12600, 0, "NST", Ghost(g))
        .step(325661400, -12600, 3600, "NDT", Ghost(g))
        .step(341382600, -12600, 0, "NST", Ghost(g))
        .step(357111000, -12600, 3600, "NDT", Ghost(g))
        .step(372832200, -12600, 0, "NST", Ghost(g))
        .step(388560600, -12600, 3600, "NDT", Ghost(g))
        .step(404886600, -12600, 0, "NST", Ghost(g))
        .step(420010200, -12600, 3600, "NDT", Ghost(g))
        .step(436336200, -12600, 0, "NST", Ghost(g))
        .step(452064600, -12600, 3600, "NDT", Ghost(g))
        .step(467785800, -12600, 0, "NST", Ghost(g))
        .step(483514200, -12600, 3600, "NDT", Ghost(g))
        .step(499235400, -12600, 0, "NST", Ghost(g))
        .step(514963800, -12600, 3600, "NDT", Ghost(g))
        .step(530685000, -12600, 0, "NST", Ghost(g))
        .step(544591860, -12600, 3600, "NDT", Ghost(g))
        .step(562127460, -12600, 0, "NST", Ghost(g))
        .step(576041460, -12600, 7200, "NDDT", Ghost(g))
        .step(594178260, -12600, 0, "NST", Ghost(g))
        .step(607491060, -12600, 3600, "NDT", Ghost(g))
        .step(625631460, -12600, 0, "NST", Ghost(g))
        .step(638940660, -12600, 3600, "NDT", Ghost(g))
        .step(657081060, -12600, 0, "NST", Ghost(g))
        .step(670995060, -12600, 3600, "NDT", Ghost(g))
        .step(688530660, -12600, 0, "NST", Ghost(g))
        .step(702444660, -12600, 3600, "NDT", Ghost(g))
        .step(719980260, -12600, 0, "NST", Ghost(g))
        .step(733894260, -12600, 3600, "NDT", Ghost(g))
        .step(752034660, -12600, 0, "NST", Ghost(g))
        .step(765343860, -12600, 3600, "NDT", Ghost(g))
        .step(783484260, -12600, 0, "NST", Ghost(g))
        .step(796793460, -12600, 3600, "NDT", Ghost(g))
        .step(814933860, -12600, 0, "NST", Ghost(g))
        .step(828847860, -12600, 3600, "NDT", Ghost(g))
        .step(846383460, -12600, 0, "NST", Ghost(g))
        .step(860297460, -12600, 3600, "NDT", Ghost(g))
        .step(877833060, -12600, 0, "NST", Ghost(g))
        .step(891747060, -12600, 3600, "NDT", Ghost(g))
        .step(909282660, -12600, 0, "NST", Ghost(g))
        .step(923196660, -12600, 3600, "NDT", Ghost(g))
        .step(941337060, -12600, 0, "NST", Ghost(g))
        .step(954646260, -12600, 3600, "NDT", Ghost(g))
        .step(972786660, -12600, 0, "NST", Ghost(g))
        .step(986095860, -12600, 3600, "NDT", Ghost(g))
        .step(1004236260, -12600, 0, "NST", Ghost(g))
        .step(1018150260, -12600, 3600, "NDT", Ghost(g))
        .step(1035685860, -12600, 0, "NST", Ghost(g))
        .step(1049599860, -12600, 3600, "NDT", Ghost(g))
        .step(1067135460, -12600, 0, "NST", Ghost(g))
        .step(1081049460, -12600, 3600, "NDT", Ghost(g))
        .step(1099189860, -12600, 0, "NST", Ghost(g))
        .step(1112499060, -12600, 3600, "NDT", Ghost(g))
        .step(1130639460, -12600, 0, "NST", Ghost(g))
        .step(1143948660, -12600, 3600, "NDT", Ghost(g))
        .step(1162089060, -12600, 0, "NST", Ghost(g))
        .step(1173583860, -12600, 3600, "NDT", Ghost(g))
        .step(1194143460, -12600, 0, "NST", Ghost(g))
        .step(1205033460, -12600, 3600, "NDT", Ghost(g))
        .step(1225593060, -12600, 0, "NST", Ghost(g))
        .step(1236483060, -12600, 3600, "NDT", Ghost(g))
        .step(1257042660, -12600, 0, "NST", Ghost(g))
        .step(1268537460, -12600, 3600, "NDT", Ghost(g))
        .step(1289097060, -12600, 0, "NST", Ghost(g))
        .step(1299987060, -12600, 3600, "NDT", Ghost(g))
        .step(1320553800, -12600, 0, "NST", Ghost(g))
        .step(1331443800, -12600, 3600, "NDT", Ghost(g))
        .step(1352003400, -12600, 0, "NST", Ghost(g))
        .step(1362893400, -12600, 3600, "NDT", Ghost(g))
        .step(1383453000, -12600, 0, "NST", Ghost(g))
        .step(1394343000, -12600, 3600, "NDT", Ghost(g))
        .step(1414902600, -12600, 0, "NST", Ghost(g))
        .step(1425792600, -12600, 3600, "NDT", Ghost(g))
        .step(1446352200, -12600, 0, "NST", Ghost(g))
        .step(1457847000, -12600, 3600, "NDT", Ghost(g))
        .step(1478406600, -12600, 0, "NST", Ghost(g))
        .step(1489296600, -12600, 3600, "NDT", Ghost(g))
        .step(1509856200, -12600, 0, "NST", Ghost(g))
        .step(1520746200, -12600, 3600, "NDT", Ghost(g))
        .step(1541305800, -12600, 0, "NST", Ghost(g))
        .step(1552195800, -12600, 3600, "NDT", Ghost(g))
        .step(1572755400, -12600, 0, "NST", Ghost(g))
        .step(1583645400, -12600, 3600, "NDT", Ghost(g))
        .step(1604205000, -12600, 0, "NST", Ghost(g))
        .step(1615699800, -12600, 3600, "NDT", Ghost(g))
        .step(1636259400, -12600, 0, "NST", Ghost(g))
        .step(1647149400, -12600, 3600, "NDT", Ghost(g))
        .step(1667709000, -12600, 0, "NST", Ghost(g))
        .step(1678599000, -12600, 3600, "NDT", Ghost(g))
        .step(1699158600, -12600, 0, "NST", Ghost(g))
        .step(1710048600, -12600, 3600, "NDT", Ghost(g))
        .step(1730608200, -12600, 0, "NST", Ghost(g))
        .step(1741498200, -12600, 3600, "NDT", Ghost(g))
        .step(1762057800, -12600, 0, "NST", Ghost(g))
        .step(1772947800, -12600, 3600, "NDT", Ghost(g))
        .step(1793507400, -12600, 0, "NST", Ghost(g))
        .step(1805002200, -12600, 3600, "NDT", Ghost(g))
        .step(1825561800, -12600, 0, "NST", Ghost(g))
        .step(1836451800, -12600, 3600, "NDT", Ghost(g))
        .step(1857011400, -12600, 0, "NST", Ghost(g))
        .step(1867901400, -12600, 3600, "NDT", Ghost(g))
        .step(1888461000, -12600, 0, "NST", Ghost(g))
        .step(1899351000, -12600, 3600, "NDT", Ghost(g))
        .step(1919910600, -12600, 0, "NST", Ghost(g))
        .step(1930800600, -12600, 3600, "NDT", Ghost(g))
        .step(1951360200, -12600, 0, "NST", Ghost(g))
        .step(1962855000, -12600, 3600, "NDT", Ghost(g))
        .step(1983414600, -12600, 0, "NST", Ghost(g))
        .step(1994304600, -12600, 3600, "NDT", Ghost(g))
        .step(2014864200, -12600, 0, "NST", Ghost(g))
        .step(2025754200, -12600, 3600, "NDT", Ghost(g))
        .step(2046313800, -12600, 0, "NST", Ghost(g))
        .step(2057203800, -12600, 3600, "NDT", Ghost(g))
        .step(2077763400, -12600, 0, "NST", Ghost(g))
        .step(2088653400, -12600, 3600, "NDT", Ghost(g))
        .step(2109213000, -12600, 0, "NST", Ghost(g))
        .step(2120103000, -12600, 3600, "NDT", Ghost(g))
        .step(2140662600, -12600, 0, "NST", Ghost(g))
        .finish(Ghost(g))
}

/// The zone `America/St_Kitts`.
pub fn st_kitts() -> (r: Tz)
    ensures
        r.wf(),
        r.zone_name() == "America/St_Kitts"@,
        r.table() == tables::america::st_kitts(),
{
    let ghost g = tables::america::st_kitts_rows();
    FixedTimespanSet::begin("America/St_Kitts", -15052, 0, "LMT", Ghost(g))
        .step(-1825098548, -14400, 0, "AST", Ghost(g))
        .finish(Ghost(g))
}

/// The zone `America/St_Lucia`.
pub fn st_lucia() -> (r: Tz)
    ensures
        r.wf(),
        r.zone_name() == "America/St_Lucia"@,
        r.table() == tables::america::st_lucia(),
{
    let ghost g = tables::america::st_lucia_rows();
    FixedTimespanSet::begin("America/St_Lucia", -14640, 0, "LMT", Ghost(g))
        .step(-2524506960, -14640, 0, "CMT", Ghost(g))
        .step(-1830369360, -14400, 0, "AST", Ghost(g))
        .finish(Ghost(g))
}

/// The zone `America/St_Thomas`.
pub fn st_thomas() -> (r: Tz)
    ensures
        r.wf(),
        r.zone_name() == "America/St_Thomas"@,
        r.table() == tables::america::st_thomas(),
{
    let ghost g = tables::america::st_thomas_rows();
    FixedTimespanSet::begin("America/St_Thomas", -15584, 0, "LMT", Ghost(g))
        .step(-1846266016, -14400, 0, "AST", Ghost(g))
        .finish(Ghost(g))
}

/// The zone `America/St_Vincent`.
pub fn st_vincent() -> (r: Tz)
    ensures
        r.wf(),
        r.zone_name() == "America/St_Vincent"@,
        r.table() == tables::america::st_vincent(),
{
    let ghost g = tables::america::st_vincent_rows();
    FixedTimespanSet::begin("America/St_Vincent", -14696, 0, "LMT", Ghost(g))
        .step(-2524506904, -14696, 0, "KMT", Ghost(g))
        .step(-1830369304, -14400, 0, "AST", Ghost(g))
        .finish(Ghost(g))
}

/// The zone `America/Swift_Current`.
pub fn swift_current() -> (r: Tz)
    ensures
        r.wf(),
        r.zone_name() == "America/Swift_Current"@,
        r.table() == tables::america::swift_current(),
{
    let ghost g = tables::america::swift_current_rows();
    FixedTimespanSet::begin("America/Swift_Current", -25880, 0, "LMT", Ghost(g))
        .step(-2030201320, -25200, 0, "MST", Ghost(g))
        .step(-1632063600, -25200, 3600, "MDT", Ghost(g))
        .step(-1615132800, -25200, 0, "MST", Ghost(g))
        .step(-880210800, -25200, 3600, "MWT", Ghost(g))
        .step(-769395600, -25200, 3600, "MPT", Ghost(g))
        .step(-765388800, -25200, 0, "MST", Ghost(g))
        .step(-747241200, -25200, 3600, "MDT", Ghost(g))
        .step(-732729600, -25200, 0, "MST", Ghost(g))
        .step(-715791600, -25200, 3600, "MDT", Ghost(g))
        .step(-702489600, -25200, 0, "MST", Ghost(g))
        .step(-684342000, -25200, 3600, "MDT", Ghost(g))
        .step(-671040000, -25200, 0, "MST", Ghost(g))
        .step(-652892400, -25200, 3600, "MDT", Ghost(g))
        .step(-639590400, -25200, 0, "MST", Ghost(g))
        .step(-400086000, -25200, 3600, "MDT", Ghost(g))
        .step(-384364800, -25200, 0, "MST", Ghost(g))
        .step(-337186800, -25200, 3600, "MDT", Ghost(g))
        .step(-321465600, -25200, 0, "MST", Ghost(g))
        .step(-305737200, -25200, 3600, "MDT", Ghost(g))
        .step(-292435200, -25200, 0, "MST", Ghost(g))
        .step(-273682800, -25200, 3600, "MDT", Ghost(g))
        .step(-260985600, -25200, 0, "MST", Ghost(g))
        .step(73472400, -21600, 0, "CST", Ghost(g))
        .finish(Ghost(g))
}

/// The zone `America/Tegucigalpa`.
pub fn tegucigalpa() -> (r: Tz)
    ensures
        r.wf(),
        r.zone_name() == "America/Tegucigalpa"@,
        r.table() == tables::america::tegucigalpa(),
{
    let ghost g = tables::america::tegucigalpa_rows();
    FixedTimespanSet::begin("America/Tegucigalpa", -20932, 0, "LMT", Ghost(g))
        .step(-1538503868, -21600, 0, "CST", Ghost(g))
        .step(547020000, -21600, 3600, "CDT", Ghost(g))
        .step(559717200, -21600, 0, "CST", Ghost(g))
        .step(578469600, -21600, 3600, "CDT", Ghost(g))
        .step(591166800, -21600, 0, "CST", Ghost(g))
        .step(1146981600, -21600, 3600, "CDT", Ghost(g))
        .step(1154926800, -21600, 0, "CST", Ghost(g))
        .finish(Ghost(g))
}

/// The zone `America/Thule`.
pub fn thule() -> (r: Tz)
    ensures
        r.wf(),
        r.zone_name() == "America/Thule"@,
        r.table() == tables::america::thule(),
{
    let ghost g = tables::america::thule_rows();
    FixedTimespanSet::begin("America/Thule", -16508, 0, "LMT", Ghost(g))
        .step(-1686079492, -14400, 0, "AST", Ghost(g))
        .step(670399200, -14400, 3600, "ADT", Ghost(g))
        .step(686120400, -14400, 0, "AST", Ghost(g))
        .step(701848800, -14400, 3600, "ADT", Ghost(g))
        .step(717570000, -14400, 0, "AST", Ghost(g))
        .step(733903200, -14400, 3600, "ADT", Ghost(g))
        .step(752043600, -14400, 0, "AST", Ghost(g))
        .step(765352800, -14400, 3600, "ADT", Ghost(g))
        .step(783493200, -14400, 0, "AST", Ghost(g))
        .step(796802400, -14400, 3600, "ADT", Ghost(g))
        .step(814942800, -14400, 0, "AST", Ghost(g))
        .step(828856800, -14400, 3600, "ADT", Ghost(g))
        .step(846392400, -14400, 0, "AST", Ghost(g))
        .step(860306400, -14400, 3600, "ADT", Ghost(g))
        .step(877842000, -14400, 0, "AST", Ghost(g))
        .step(891756000, -14400, 3600, "ADT", Ghost(g))
        .step(909291600, -14400, 0, "AST", Ghost(g))
        .step(923205600, -14400, 3600, "ADT", Ghost(g))
        .step(941346000, -14400, 0, "AST", Ghost(g))
        .step(954655200, -14400, 3600, "ADT", Ghost(g))
        .step(972795600, -14400, 0, "AST", Ghost(g))
        .step(986104800, -14400, 3600, "ADT", Ghost(g))
        .step(1004245200, -14400, 0, "AST", Ghost(g))
        .step(1018159200, -14400, 3600, "ADT", Ghost(g))
        .step(1035694800, -14400, 0, "AST", Ghost(g))
        .step(1049608800, -14400, 3600, "ADT", Ghost(g))
        .step(1067144400, -14400, 0, "AST", Ghost(g))
        .step(1081058400, -14400, 3600, "ADT", Ghost(g))
        .step(1099198800, -14400, 0, "AST", Ghost(g))
        .step(1112508000, -14400, 3600, "ADT", Ghost(g))
        .step(1130648400, -14400, 0, "AST", Ghost(g))
        .step(1143957600, -14400, 3600, "ADT", Ghost(g))
        .step(1162098000, -14400, 0, "AST", Ghost(g))
        .step(1173592800, -14400, 3600, "ADT", Ghost(g))
        .step(1194152400, -14400, 0, "AST", Ghost(g))
        .step(1205042400, -14400, 3600, "ADT", Ghost(g))
        .step(1225602000, -14400, 0, "AST", Ghost(g))
        .step(1236492000, -14400, 3600, "ADT", Ghost(g))
        .step(1257051600, -14400, 0, "AST", Ghost(g))
        .step(1268546400, -14400, 3600, "ADT", Ghost(g))
        .step(1289106000, -14400, 0, "AST", Ghost(g))
        .step(1299996000, -14400, 3600, "ADT", Ghost(g))
        .step(1320555600, -14400, 0, "AST", Ghost(g))
        .step(1331445600, -14400, 3600, "ADT", Ghost(g))
        .step(1352005200, -14400, 0, "AST", Ghost(g))
        .step(1362895200, -14400, 3600, "ADT", Ghost(g))
        .step(1383454800, -14400, 0, "AST", Ghost(g))
        .step(1394344800, -14400, 3600, "ADT", Ghost(g))
        .step(1414904400, -14400, 0, "AST", Ghost(g))
        .step(1425794400, -14400, 3600, "ADT", Ghost(g))
        .step(1446354000, -14400, 0, "AST", Ghost(g))
        .step(1457848800, -14400, 3600, "ADT", Ghost(g))
        .step(1478408400, -14400, 0, "AST", Ghost(g))
        .step(1489298400, -14400, 3600, "ADT", Ghost(g))
        .step(1509858000, -14400, 0, "AST", Ghost(g))
        .step(1520748000, -14400, 3600, "ADT", Ghost(g))
        .step(1541307600, -14400, 0, "AST", Ghost(g))
        .step(1552197600, -14400, 3600, "ADT", Ghost(g))
        .step(1572757200, -14400, 0, "AST", Ghost(g))
        .step(1583647200, -14400, 3600, "ADT", Ghost(g))
        .step(1604206800, -14400, 0, "AST", Ghost(g))
        .step(1615701600, -14400, 3600, "ADT", Ghost(g))
        .step(1636261200, -14400, 0, "AST", Ghost(g))
        .step(1647151200, -14400, 3600, "ADT", Ghost(g))
        .step(1667710800, -14400, 0, "AST", Ghost(g))
        .step(1678600800, -14400, 3600, "ADT", Ghost(g))
        .step(1699160400, -14400, 0, "AST", Ghost(g))
        .step(1710050400, -14400, 3600, "ADT", Ghost(g))
        .step(1730610000, -14400, 0, "AST", Ghost(g))
        .step(1741500000, -14400, 3600, "ADT", Ghost(g))
        .step(1762059600, -14400, 0, "AST", Ghost(g))
        .step(1772949600, -14400, 3600, "ADT", Ghost(g))
        .step(1793509200, -14400, 0, "AST", Ghost(g))
        .step(1805004000, -14400, 3600, "ADT", Ghost(g))
        .step(1825563600, -14400, 0, "AST", Ghost(g))
        .step(1836453600, -14400, 3600, "ADT", Ghost(g))
        .step(1857013200, -14400, 0, "AST", Ghost(g))
        .step(1867903200, -14400, 3600, "ADT", Ghost(g))
        .step(1888462800, -14400, 0, "AST", Ghost(g))
        .step(1899352800, -14400, 3600, "ADT", Ghost(g))
        .step(1919912400, -14400, 0, "AST", Ghost(g))
        .step(1930802400, -14400, 3600, "ADT", Ghost(g))
        .step(1951362000, -14400, 0, "AST", Ghost(g))
        .step(1962856800, -14400, 3600, "ADT", Ghost(g))
        .step(1983416400, -14400, 0, "AST", Ghost(g))
        .step(1994306400, -14400, 3600, "ADT", Ghost(g))
        .step(2014866000, -14400, 0, "AST", Ghost(g))
        .step(2025756000, -14400, 3600, "ADT", Ghost(g))
        .step(2046315600, -14400, 0, "AST", Ghost(g))
        .step(2057205600, -14400, 3600, "ADT", Ghost(g))
        .step(2077765200, -14400, 0, "AST", Ghost(g))
        .step(2088655200, -14400, 3600, "ADT", Ghost(g))
        .step(2109214800, -14400, 0, "AST", Ghost(g))
        .step(2120104800, -14400, 3600, "ADT", Ghost(g))
        .step(2140664400, -14400, 0, "AST", Ghost(g))
        .finish(Ghost(g))
}

/// The zone `America/Thunder_Bay`.
pub fn thunder_bay() -> (r: Tz)
    ensures
        r.wf(),
        r.zone_name() == "America/Thunder_Bay"@,
        r.table() == tables::america::thunder_bay(),
{
    let ghost g = tables::america::thunder_bay_rows();
    FixedTimespanSet::begin("America/Thunder_Bay", -19052, 0, "LMT", Ghost(g))
        .step(-2366736148, -18000, 0, "EST", Ghost(g))
        .step(-1632070800, -18000, 3600, "EDT", Ghost(g))
        .step(-1615140000, -18000, 0, "EST", Ghost(g))
        .step(-1601753400, -18000, 3600, "EDT", Ghost(g))
        .step(-1583697600, -18000, 0, "EST", Ghost(g))
        .step(-1567357200, -18000, 3600, "EDT", Ghost(g))
        .step(-1554667200, -18000, 0, "EST", Ghost(g))
        .step(-1534698000, -18000, 3600, "EDT", Ghost(g))
        .step(-1524074400, -18000, 0, "EST", Ghost(g))
        .step(-1503248400, -18000, 3600, "EDT", Ghost(g))
        .step(-1492365600, -18000, 0, "EST", Ghost(g))
        .step(-1471798800, -18000, 3600, "EDT", Ghost(g))
        .step(-1460916000, -18000, 0, "EST", Ghost(g))
        .step(-1440954000, -18000, 3600, "EDT", Ghost(g))
        .step(-1428861600, -18000, 0, "EST", Ghost(g))
        .step(-1409504400, -18000, 3600, "EDT", Ghost(g))
        .step(-1397412000, -18000, 0, "EST", Ghost(g))
        .step(-1378054800, -18000, 3600, "EDT", Ghost(g))
        .step(-1365962400, -18000, 0, "EST", Ghost(g))
        .step(-1346605200, -18000, 3600, "EDT", Ghost(g))
        .step(-1333908000, -18000, 0, "EST", Ghost(g))
        .step(-1315155600, -18000, 3600, "EDT", Ghost(g))
        .step(-1301853600, -18000, 0, "EST", Ghost(g))
        .step(-1283706000, -18000, 3600, "EDT", Ghost(g))
        .step(-1270404000, -18000, 0, "EST", Ghost(g))
        .step(-1252256400, -18000, 3600, "EDT", Ghost(g))
        .step(-1238954400, -18000, 0, "EST", Ghost(g))
        .step(-1220806800, -18000, 3600, "EDT", Ghost(g))
        .step(-1207504800, -18000, 0, "EST", Ghost(g))
        .step(-1188752400, -18000, 3600, "EDT", Ghost(g))
        .step(-1176055200, -18000, 0, "EST", Ghost(g))
        .step(-1157302800, -18000, 3600, "EDT", Ghost(g))
        .step(-1144000800, -18000, 0, "EST", Ghost(g))
        .step(-1125853200, -18000, 3600, "EDT", Ghost(g))
        .step(-1112551200, -18000, 0, "EST", Ghost(g))
        .step(-1094403600, -18000, 3600, "EDT", Ghost(g))
        .step(-1081101600, -18000, 0, "EST", Ghost(g))
        .step(-1062954000, -18000, 3600, "EDT", Ghost(g))
        .step(-1049652000, -18000, 0, "EST", Ghost(g))
        .step(-1031504400, -18000, 3600, "EDT", Ghost(g))
        .step(-1018202400, -18000, 0, "EST", Ghost(g))
        .step(-1000054800, -18000, 3600, "EDT", Ghost(g))
        .step(-986752800, -18000, 0, "EST", Ghost(g))
        .step(-968000400, -18000, 3600, "EDT", Ghost(g))
        .step(-955303200, -18000, 0, "EST", Ghost(g))
        .step(-936550800, -18000, 3600, "EDT", Ghost(g))
        .step(-880218000, -18000, 3600, "EWT", Ghost(g))
        .step(-769395600, -18000, 3600, "EPT", Ghost(g))
        .step(-765396000, -18000, 0, "EST", Ghost(g))
        .step(-747248400, -18000, 3600, "EDT", Ghost(g))
        .step(-733946400, -18000, 0, "EST", Ghost(g))
        .step(-715798800, -18000, 3600, "EDT", Ghost(g))
        .step(-702496800, -18000, 0, "EST", Ghost(g))
        .step(-684349200, -18000, 3600, "EDT", Ghost(g))
        .step(-671047200, -18000, 0, "EST", Ghost(g))
        .step(-652899600, -18000, 3600, "EDT", Ghost(g))
        .step(-634154400, -18000, 0, "EST", Ghost(g))
        .step(-620845200, -18000, 3600, "EDT", Ghost(g))
        .step(-602704800, -18000, 0, "EST", Ghost(g))
        .step(-589395600, -18000, 3600, "EDT", Ghost(g))
        .step(-576093600, -18000, 0, "EST", Ghost(g))
        .step(-557946000, -18000, 3600, "EDT", Ghost(g))
        .step(-544644000, -18000, 0, "EST", Ghost(g))
        .step(-526496400, -18000, 3600, "EDT", Ghost(g))
        .step(-513194400, -18000, 0, "EST", Ghost(g))
        .step(-495046800, -18000, 3600, "EDT", Ghost(g))
        .step(-481744800, -18000, 0, "EST", Ghost(g))
        .step(-463597200, -18000, 3600, "EDT", Ghost(g))
        .step(-450295200, -18000, 0, "EST", Ghost(g))
        .step(-431542800, -18000, 3600, "EDT", Ghost(g))
        .step(-418240800, -18000, 0, "EST", Ghost(g))
        .step(-400093200, -18000, 3600, "EDT", Ghost(g))
        .step(-384372000, -18000, 0, "EST", Ghost(g))
        .step(-368643600, -18000, 3600, "EDT", Ghost(g))
        .step(-352922400, -18000, 0, "EST", Ghost(g))
        .step(-337194000, -18000, 3600, "EDT", Ghost(g))
        .step(-321472800, -18000, 0, "EST", Ghost(g))
        .step(-305744400, -18000, 3600, "EDT", Ghost(g))
        .step(-289418400, -18000, 0, "EST", Ghost(g))
        .step(-273690000, -18000, 3600, "EDT", Ghost(g))
        .step(-257968800, -18000, 0, "EST", Ghost(g))
        .step(-242240400, -18000, 3600, "EDT", Ghost(g))
        .step(-226519200, -18000, 0, "EST", Ghost(g))
        .step(-210790800, -18000, 3600, "EDT", Ghost(g))
        .step(-195069600, -18000, 0, "EST", Ghost(g))
        .step(-179341200, -18000, 3600, "EDT", Ghost(g))
        .step(-163620000, -18000, 0, "EST", Ghost(g))
        .step(-147891600, -18000, 3600, "EDT", Ghost(g))
        .step(-131565600, -18000, 0, "EST", Ghost(g))
        .step(-116442000, -18000, 3600, "EDT", Ghost(g))
        .step(-100116000, -18000, 0, "EST", Ghost(g))
        .step(-84387600, -18000, 3600, "EDT", Ghost(g))
        .step(-68666400, -18000, 0, "EST", Ghost(g))
        .step(-52938000, -18000, 3600, "EDT", Ghost(g))
        .step(-37216800, -18000, 0, "EST", Ghost(g))
        .step(-21488400, -18000, 3600, "EDT", Ghost(g))
        .step(-5767200, -18000, 0, "EST", Ghost(g))
        .step(9961200, -18000, 3600, "EDT", Ghost(g))
        .step(25682400, -18000, 0, "EST", Ghost(g))
        .step(41410800, -18000, 3600, "EDT", Ghost(g))
        .step(57736800, -18000, 0, "EST", Ghost(g))
        .step(73465200, -18000, 3600, "EDT", Ghost(g))
        .step(89186400, -18000, 0, "EST", Ghost(g))
        .step(104914800, -18000, 3600, "EDT", Ghost(g))
        .step(120636000, -18000, 0, "EST", Ghost(g))
        .step(136364400, -18000, 3600, "EDT", Ghost(g))
        .step(152085600, -18000, 0, "EST", Ghost(g))
        .step(167814000, -18000, 3600, "EDT", Ghost(g))
        .step(183535200, -18000, 0, "EST", Ghost(g))
        .step(199263600, -18000, 3600, "EDT", Ghost(g))
        .step(215589600, -18000, 0, "EST", Ghost(g))
        .step(230713200, -18000, 3600, "EDT", Ghost(g))
        .step(247039200, -18000, 0, "EST", Ghost(g))
        .step(262767600, -18000, 3600, "EDT", Ghost(g))
        .step(278488800, -18000, 0, "EST", Ghost(g))
        .step(294217200, -18000, 3600, "EDT", Ghost(g))
        .step(309938400, -18000, 0, "EST", Ghost(g))
        .step(325666800, -18000, 3600, "EDT", Ghost(g))
        .step(341388000, -18000, 0, "EST", Ghost(g))
        .step(357116400, -18000, 3600, "EDT", Ghost(g))
        .step(372837600, -18000, 0, "EST", Ghost(g))
        .step(388566000, -18000, 3600, "EDT", Ghost(g))
        .step(404892000, -18000, 0, "EST", Ghost(g))
        .step(420015600, -18000, 3600, "EDT", Ghost(g))
        .step(436341600, -18000, 0, "EST", Ghost(g))
        .step(452070000, -18000, 3600, "EDT", Ghost(g))
        .step(467791200, -18000, 0, "EST", Ghost(g))
        .step(483519600, -18000, 3600, "EDT", Ghost(g))
        .step(499240800, -18000, 0, "EST", Ghost(g))
        .step(514969200, -18000, 3600, "EDT", Ghost(g))
        .step(530690400, -18000, 0, "EST", Ghost(g))
        .step(544604400, -18000, 3600, "EDT", Ghost(g))
        .step(562140000, -18000, 0, "EST", Ghost(g))
        .step(576054000, -18000, 3600, "EDT", Ghost(g))
        .step(594194400, -18000, 0, "EST", Ghost(g))
        .step(607503600, -18000, 3600, "EDT", Ghost(g))
        .step(625644000, -18000, 0, "EST", Ghost(g))
        .step(638953200, -18000, 3600, "EDT", Ghost(g))
        .step(657093600, -18000, 0, "EST", Ghost(g))
        .step(671007600, -18000, 3600, "EDT", Ghost(g))
        .step(688543200, -18000, 0, "EST", Ghost(g))
        .step(702457200, -18000, 3600, "EDT", Ghost(g))
        .step(719992800, -18000, 0, "EST", Ghost(g))
        .step(733906800, -18000, 3600, "EDT", Ghost(g))
        .step(752047200, -18000, 0, "EST", Ghost(g))
        .step(765356400, -18000, 3600, "EDT", Ghost(g))
        .step(783496800, -18000, 0, "EST", Ghost(g))
        .step(796806000, -18000, 3600, "EDT", Ghost(g))
        .step(814946400, -18000, 0, "EST", Ghost(g))
        .step(828860400, -18000, 3600, "EDT", Ghost(g))
        .step(846396000, -18000, 0, "EST", Ghost(g))
        .step(860310000, -18000, 3600, "EDT", Ghost(g))
        .step(877845600, -18000, 0, "EST", Ghost(g))
        .step(891759600, -18000, 3600, "EDT", Ghost(g))
        .step(909295200, -18000, 0, "EST", Ghost(g))
        .step(923209200, -18000, 3600, "EDT", Ghost(g))
        .step(941349600, -18000, 0, "EST", Ghost(g))
        .step(954658800, -18000, 3600, "EDT", Ghost(g))
        .step(972799200, -18000, 0, "EST", Ghost(g))
        .step(986108400, -18000, 3600, "EDT", Ghost(g))
        .step(1004248800, -18000, 0, "EST", Ghost(g))
        .step(1018162800, -18000, 3600, "EDT", Ghost(g))
        .step(1035698400, -18000, 0, "EST", Ghost(g))
        .step(1049612400, -18000, 3600, "EDT", Ghost(g))
        .step(1067148000, -18000, 0, "EST", Ghost(g))
        .step(1081062000, -18000, 3600, "EDT", Ghost(g))
        .step(1099202400, -18000, 0, "EST", Ghost(g))
        .step(1112511600, -18000, 3600, "EDT", Ghost(g))
        .step(1130652000, -18000, 0, "EST", Ghost(g))
        .step(1143961200, -18000, 3600, "EDT", Ghost(g))
        .step(1162101600, -18000, 0, "EST", Ghost(g))
        .step(1173596400, -18000, 3600, "EDT", Ghost(g))
        .step(1194156000, -18000, 0, "EST", Ghost(g))
        .step(1205046000, -18000, 3600, "EDT", Ghost(g))
        .step(1225605600, -18000, 0, "EST", Ghost(g))
        .step(1236495600, -18000, 3600, "EDT", Ghost(g))
        .step(1257055200, -18000, 0, "EST", Ghost(g))
        .step(1268550000, -18000, 3600, "EDT", Ghost(g))
        .step(1289109600, -18000, 0, "EST", Ghost(g))
        .step(1299999600, -18000, 3600, "EDT", Ghost(g))
        .step(1320559200, -18000, 0, "EST", Ghost(g))
        .step(1331449200, -18000, 3600, "EDT", Ghost(g))
        .step(1352008800, -18000, 0, "EST", Ghost(g))
        .step(1362898800, -18000, 3600, "EDT", Ghost(g))
        .step(1383458400, -18000, 0, "EST", Ghost(g))
        .step(1394348400, -18000, 3600, "EDT", Ghost(g))
        .step(1414908000, -18000, 0, "EST", Ghost(g))
        .step(1425798000, -18000, 3600, "EDT", Ghost(g))
        .step(1446357600, -18000, 0, "EST", Ghost(g))
        .step(1457852400, -18000, 3600, "EDT", Ghost(g))
        .step(1478412000, -18000, 0, "EST", Ghost(g))
        .step(1489302000, -18000, 3600, "EDT", Ghost(g))
        .step(1509861600, -18000, 0, "EST", Ghost(g))
        .step(1520751600, -18000, 3600, "EDT", Ghost(g))
        .step(1541311200, -18000, 0, "EST", Ghost(g))
        .step(1552201200, -18000, 3600, "EDT", Ghost(g))
        .step(1572760800, -18000, 0, "EST", Ghost(g))
        .step(1583650800, -18000, 3600, "EDT", Ghost(g))
        .step(1604210400, -18000, 0, "EST", Ghost(g))
        .step(1615705200, -18000, 3600, "EDT", Ghost(g))
        .step(1636264800, -18000, 0, "EST", Ghost(g))
        .step(1647154800, -18000, 3600, "EDT", Ghost(g))
        .step(1667714400, -18000, 0, "EST", Ghost(g))
        .step(1678604400, -18000, 3600, "EDT", Ghost(g))
        .step(1699164000, -18000, 0, "EST", Ghost(g))
        .step(1710054000, -18000, 3600, "EDT", Ghost(g))
        .step(1730613600, -18000, 0, "EST", Ghost(g))
        .step(1741503600, -18000, 3600, "EDT", Ghost(g))
        .step(1762063200, -18000, 0, "EST", Ghost(g))
        .step(1772953200, -18000, 3600, "EDT", Ghost(g))
        .step(1793512800, -18000, 0, "EST", Ghost(g))
        .step(1805007600, -18000, 3600, "EDT", Ghost(g))
        .step(1825567200, -18000, 0, "EST", Ghost(g))
        .step(1836457200, -18000, 3600, "EDT", Ghost(g))
        .step(1857016800, -18000, 0, "EST", Ghost(g))
        .step(1867906800, -18000, 3600, "EDT", Ghost(g))
        .step(1888466400, -18000, 0, "EST", Ghost(g))
        .step(1899356400, -18000, 3600, "EDT", Ghost(g))
        .step(1919916000, -18000, 0, "EST", Ghost(g))
        .step(1930806000, -18000, 3600, "EDT", Ghost(g))
        .step(1951365600, -18000, 0, "EST", Ghost(g))
        .step(1962860400, -18000, 3600, "EDT", Ghost(g))
        .step(1983420000, -18000, 0, "EST", Ghost(g))
        .step(1994310000, -18000, 3600, "EDT", Ghost(g))
        .step(2014869600, -18000, 0, "EST", Ghost(g))
        .step(2025759600, -18000, 3600, "EDT", Ghost(g))
        .step(2046319200, -18000, 0, "EST", Ghost(g))
        .step(2057209200, -18000, 3600, "EDT", Ghost(g))
        .step(2077768800, -18000, 0, "EST", Ghost(g))
        .step(2088658800, -18000, 3600, "EDT", Ghost(g))
        .step(2109218400, -18000, 0, "EST", Ghost(g))
        .step(2120108400, -18000, 3600, "EDT", Ghost(g))
        .step(2140668000, -18000, 0, "EST", Ghost(g))
        .finish(Ghost(g))
}

/// The zone `America/Tijuana`.
pub fn tijuana() -> (r: Tz)
    ensures
        r.wf(),
        r.zone_name() == "America/Tijuana"@,
        r.table() == tables::america::tijuana(),
{
    let ghost g = tables::america::tijuana_rows();
    FixedTimespanSet::begin("America/Tijuana", -28084, 0, "LMT", Ghost(g))
        .step(-1514739600, -25200, 0, "MST", Ghost(g))
        .step(-1451667600, -28800, 0, "PST", Ghost(g))
        .step(-1343145600, -25200, 0, "MST", Ghost(g))
        .step(-1234803600, -28800, 0, "PST", Ghost(g))
        .step(-1222963200, -28800, 3600, "PDT", Ghost(g))
        .step(-1207242000, -28800, 0, "PST", Ghost(g))
        .step(-873820800, -28800, 3600, "PWT", Ghost(g))
        .step(-769395600, -28800, 3600, "PPT", Ghost(g))
        .step(-761418000, -28800, 0, "PST", Ghost(g))
        .step(-686073600, -28800, 3600, "PDT", Ghost(g))
        .step(-661539600, -28800, 0, "PST", Ghost(g))
        .step(-620755200, -28800, 3600, "PDT", Ghost(g))
        .step(-608144400, -28800, 0, "PST", Ghost(g))
        .step(-589384800, -28800, 3600, "PDT", Ghost(g))
        .step(-576082800, -28800, 0, "PST", Ghost(g))
        .step(-557935200, -28800, 3600, "PDT", Ghost(g))
        .step(-544633200, -28800, 0, "PST", Ghost(g))
        .step(-495039600, -28800, 3600, "PDT", Ghost(g))
        .step(-481734000, -28800, 0, "PST", Ghost(g))
        .step(-463590000, -28800, 3600, "PDT", Ghost(g))
        .step(-450284400, -28800, 0, "PST", Ghost(g))
        .step(-431535600, -28800, 3600, "PDT", Ghost(g))
        .step(-418230000, -28800, 0, "PST", Ghost(g))
        .step(-400086000, -28800, 3600, "PDT", Ghost(g))
        .step(-386780400, -28800, 0, "PST", Ghost(g))
        .step(-368636400, -28800, 3600, "PDT", Ghost(g))
        .step(-355330800, -28800, 0, "PST", Ghost(g))
        .step(-337186800, -28800, 3600, "PDT", Ghost(g))
        .step(-323881200, -28800, 0, "PST", Ghost(g))
        .step(-305737200, -28800, 3600, "PDT", Ghost(g))
        .step(-292431600, -28800, 0, "PST", Ghost(g))
        .step(199274400, -28800, 3600, "PDT", Ghost(g))
        .step(215600400, -28800, 0, "PST", Ghost(g))
        .step(230724000, -28800, 3600, "PDT", Ghost(g))
        .step(247050000, -28800, 0, "PST", Ghost(g))
        .step(262778400, -28800, 3600, "PDT", Ghost(g))
        .step(278499600, -28800, 0, "PST", Ghost(g))
        .step(294228000, -28800, 3600, "PDT", Ghost(g))
        .step(309949200, -28800, 0, "PST", Ghost(g))
        .step(325677600, -28800, 3600, "PDT", Ghost(g))
        .step(341398800, -28800, 0, "PST", Ghost(g))
        .step(357127200, -28800, 3600, "PDT", Ghost(g))
        .step(372848400, -28800, 0, "PST", Ghost(g))
        .step(388576800, -28800, 3600, "PDT", Ghost(g))
        .step(404902800, -28800, 0, "PST", Ghost(g))
        .step(420026400, -28800, 3600, "PDT", Ghost(g))
        .step(436352400, -28800, 0, "PST", Ghost(g))
        .step(452080800, -28800, 3600, "PDT", Ghost(g))
        .step(467802000, -28800, 0, "PST", Ghost(g))
        .step(483530400, -28800, 3600, "PDT", Ghost(g))
        .step(499251600, -28800, 0, "PST", Ghost(g))
        .step(514980000, -28800, 3600, "PDT", Ghost(g))
        .step(530701200, -28800, 0, "PST", Ghost(g))
        .step(544615200, -28800, 3600, "PDT", Ghost(g))
        .step(562150800, -28800, 0, "PST", Ghost(g))
        .step(576064800, -28800, 3600, "PDT", Ghost(g))
        .step(594205200, -28800, 0, "PST", Ghost(g))
        .step(607514400, -28800, 3600, "PDT", Ghost(g))
        .step(625654800, -28800, 0, "PST", Ghost(g))
        .step(638964000, -28800, 3600, "PDT", Ghost(g))
        .step(657104400, -28800, 0, "PST", Ghost(g))
        .step(671018400, -28800, 3600, "PDT", Ghost(g))
        .step(688554000, -28800, 0, "PST", Ghost(g))
        .step(702468000, -28800, 3600, "PDT", Ghost(g))
        .step(720003600, -28800, 0, "PST", Ghost(g))
        .step(733917600, -28800, 3600, "PDT", Ghost(g))
        .step(752058000, -28800, 0, "PST", Ghost(g))
        .step(765367200, -28800, 3600, "PDT", Ghost(g))
        .step(783507600, -28800, 0, "PST", Ghost(g))
        .step(796816800, -28800, 3600, "PDT", Ghost(g))
        .step(814957200, -28800, 0, "PST", Ghost(g))
        .step(828871200, -28800, 3600, "PDT", Ghost(g))
        .step(846406800, -28800, 0, "PST", Ghost(g))
        .step(860320800, -28800, 3600, "PDT", Ghost(g))
        .step(877856400, -28800, 0, "PST", Ghost(g))
        .step(891770400, -28800, 3600, "PDT", Ghost(g))
        .step(909306000, -28800, 0, "PST", Ghost(g))
        .step(923220000, -28800, 3600, "PDT", Ghost(g))
        .step(941360400, -28800, 0, "PST", Ghost(g))
        .step(954669600, -28800, 3600, "PDT", Ghost(g))
        .step(972810000, -28800, 0, "PST", Ghost(g))
        .step(986119200, -28800, 3600, "PDT", Ghost(g))
        .step(1004259600, -28800, 0, "PST", Ghost(g))
        .step(1018173600, -28800, 3600, "PDT", Ghost(g))
        .step(1035709200, -28800, 0, "PST", Ghost(g))
        .step(1049623200, -28800, 3600, "PDT", Ghost(g))
        .step(1067158800, -28800, 0, "PST", Ghost(g))
        .step(1081072800, -28800, 3600, "PDT", Ghost(g))
        .step(1099213200, -28800, 0, "PST", Ghost(g))
        .step(1112522400, -28800, 3600, "PDT", Ghost(g))
        .step(1130662800, -28800, 0, "PST", Ghost(g))
        .step(1143972000, -28800, 3600, "PDT", Ghost(g))
        .step(1162112400, -28800, 0, "PST", Ghost(g))
        .step(1175421600, -28800, 3600, "PDT", Ghost(g))
        .step(1193562000, -28800, 0, "PST", Ghost(g))
        .step(1207476000, -28800, 3600, "PDT", Ghost(g))
        .step(1225011600, -28800, 0, "PST", Ghost(g))
        .step(1238925600, -28800, 3600, "PDT", Ghost(g))
        .step(1256461200, -28800, 0, "PST", Ghost(g))
        .step(1268560800, -28800, 3600, "PDT", Ghost(g))
        .step(1289120400, -28800, 0, "PST", Ghost(g))
        .step(1300010400, -28800, 3600, "PDT", Ghost(g))
        .step(1320570000, -28800, 0, "PST", Ghost(g))
        .step(1331460000, -28800, 3600, "PDT", Ghost(g))
        .step(1352019600, -28800, 0, "PST", Ghost(g))
        .step(1362909600, -28800, 3600, "PDT", Ghost(g))
        .step(1383469200, -28800, 0, "PST", Ghost(g))
        .step(1394359200, -28800, 3600, "PDT", Ghost(g))
        .step(1414918800, -28800, 0, "PST", Ghost(g))
        .step(1425808800, -28800, 3600, "PDT", Ghost(g))
        .step(1446368400, -28800, 0, "PST", Ghost(g))
        .step(1457863200, -28800, 3600, "PDT", Ghost(g))
        .step(1478422800, -28800, 0, "PST", Ghost(g))
        .step(1489312800, -28800, 3600, "PDT", Ghost(g))
        .step(1509872400, -28800, 0, "PST", Ghost(g))
        .step(1520762400, -28800, 3600, "PDT", Ghost(g))
        .step(1541322000, -28800, 0, "PST", Ghost(g))
        .step(1552212000, -28800, 3600, "PDT", Ghost(g))
        .step(1572771600, -28800, 0, "PST", Ghost(g))
        .step(1583661600, -28800, 3600, "PDT", Ghost(g))
        .step(1604221200, -28800, 0, "PST", Ghost(g))
        .step(1615716000, -28800, 3600, "PDT", Ghost(g))
        .step(1636275600, -28800, 0, "PST", Ghost(g))
        .step(1647165600, -28800, 3600, "PDT", Ghost(g))
        .step(1667725200, -28800, 0, "PST", Ghost(g))
        .step(1678615200, -28800, 3600, "PDT", Ghost(g))
        .step(1699174800, -28800, 0, "PST", Ghost(g))
        .step(1710064800, -28800, 3600, "PDT", Ghost(g))
        .step(1730624400, -28800, 0, "PST", Ghost(g))
        .step(1741514400, -28800, 3600, "PDT", Ghost(g))
        .step(1762074000, -28800, 0, "PST", Ghost(g))
        .step(1772964000, -28800, 3600, "PDT", Ghost(g))
        .step(1793523600, -28800, 0, "PST", Ghost(g))
        .step(1805018400, -28800, 3600, "PDT", Ghost(g))
        .step(1825578000, -28800, 0, "PST", Ghost(g))
        .step(1836468000, -28800, 3600, "PDT", Ghost(g))
        .step(1857027600, -28800, 0, "PST", Ghost(g))
        .step(1867917600, -28800, 3600, "PDT", Ghost(g))
        .step(1888477200, -28800, 0, "PST", Ghost(g))
        .step(1899367200, -28800, 3600, "PDT", Ghost(g))
        .step(1919926800, -28800, 0, "PST", Ghost(g))
        .step(1930816800, -28800, 3600, "PDT", Ghost(g))
        .step(1951376400, -28800, 0, "PST", Ghost(g))
        .step(1962871200, -28800, 3600, "PDT", Ghost(g))
        .step(1983430800, -28800, 0, "PST", Ghost(g))
        .step(1994320800, -28800, 3600, "PDT", Ghost(g))
        .step(2014880400, -28800, 0, "PST", Ghost(g))
        .step(2025770400, -28800, 3600, "PDT", Ghost(g))
        .step(2046330000, -28800, 0, "PST", Ghost(g))
        .step(2057220000, -28800, 3600, "PDT", Ghost(g))
        .step(2077779600, -28800, 0, "PST", Ghost(g))
        .step(2088669600, -28800, 3600, "PDT", Ghost(g))
        .step(2109229200, -28800, 0, "PST", Ghost(g))
        .step(2120119200, -28800, 3600, "PDT", Ghost(g))
        .step(2140678800, -28800, 0, "PST", Ghost(g))
        .finish(Ghost(g))
}

/// The zone `America/Toronto`.
pub fn toronto() -> (r: Tz)
    ensures
        r.wf(),
        r.zone_name() == "America/Toronto"@,
        r.table() == tables::america::toronto(),
{
    let ghost g = tables::america::toronto_rows();
    FixedTimespanSet::begin("America/Toronto", -19052, 0, "LMT", Ghost(g))
        .step(-2366736148, -18000, 0, "EST", Ghost(g))
        .step(-1632070800, -18000, 3600, "EDT", Ghost(g))
        .step(-1615140000, -18000, 0, "EST", Ghost(g))
        .step(-1601753400, -18000, 3600, "EDT", Ghost(g))
        .step(-1583697600, -18000, 0, "EST", Ghost(g))
        .step(-1567357200, -18000, 3600, "EDT", Ghost(g))
        .step(-1554667200, -18000, 0, "EST", Ghost(g))
        .step(-1534698000, -18000, 3600, "EDT", Ghost(g))
        .step(-1524074400, -18000, 0, "EST", Ghost(g))
        .step(-1503248400, -18000, 3600, "EDT", Ghost(g))
        .step(-1492365600, -18000, 0, "EST", Ghost(g))
        .step(-1471798800, -18000, 3600, "EDT", Ghost(g))
        .step(-1460916000, -18000, 0, "EST", Ghost(g))
        .step(-1440954000, -18000, 3600, "EDT", Ghost(g))
        .step(-1428861600, -18000, 0, "EST", Ghost(g))
        .step(-1409504400, -18000, 3600, "EDT", Ghost(g))
        .step(-1397412000, -18000, 0, "EST", Ghost(g))
        .step(-1378054800, -18000, 3600, "EDT", Ghost(g))
        .step(-1365962400, -18000, 0, "EST", Ghost(g))
        .step(-1346605200, -18000, 3600, "EDT", Ghost(g))
        .step(-1333908000, -18000, 0, "EST", Ghost(g))
        .step(-1315155600, -18000, 3600, "EDT", Ghost(g))
        .step(-1301853600, -18000, 0, "EST", Ghost(g))
        .step(-1283706000, -18000, 3600, "EDT", Ghost(g))
        .step(-1270404000, -18000, 0, "EST", Ghost(g))
        .step(-1252256400, -18000, 3600, "EDT", Ghost(g))
        .step(-1238954400, -18000, 0, "EST", Ghost(g))
        .step(-1220806800, -18000, 3600, "EDT", Ghost(g))
        .step(-1207504800, -18000, 0, "EST", Ghost(g))
        .step(-1188752400, -18000, 3600, "EDT", Ghost(g))
        .step(-1176055200, -18000, 0, "EST", Ghost(g))
        .step(-1157302800, -18000, 3600, "EDT", Ghost(g))
        .step(-1144000800, -18000, 0, "EST", Ghost(g))
        .step(-1125853200, -18000, 3600, "EDT", Ghost(g))
        .step(-1112551200, -18000, 0, "EST", Ghost(g))
        .step(-1094403600, -18000, 3600, "EDT", Ghost(g))
        .step(-1081101600, -18000, 0, "EST", Ghost(g))
        .step(-1062954000, -18000, 3600, "EDT", Ghost(g))
        .step(-1049652000, -18000, 0, "EST", Ghost(g))
        .step(-1031504400, -18000, 3600, "EDT", Ghost(g))
        .step(-1018202400, -18000, 0, "EST", Ghost(g))
        .step(-1000054800, -18000, 3600, "EDT", Ghost(g))
        .step(-986752800, -18000, 0, "EST", Ghost(g))
        .step(-968000400, -18000, 3600, "EDT", Ghost(g))
        .step(-955303200, -18000, 0, "EST", Ghost(g))
        .step(-936550800, -18000, 3600, "EDT", Ghost(g))
        .step(-880218000, -18000, 3600, "EWT", Ghost(g))
        .step(-769395600, -18000, 3600, "EPT", Ghost(g))
        .step(-765396000, -18000, 0, "EST", Ghost(g))
        .step(-747248400, -18000, 3600, "EDT", Ghost(g))
        .step(-733946400, -18000, 0, "EST", Ghost(g))
        .step(-715798800, -18000, 3600, "EDT", Ghost(g))
        .step(-702496800, -18000, 0, "EST", Ghost(g))
        .step(-684349200, -18000, 3600, "EDT", Ghost(g))
        .step(-671047200, -18000, 0, "EST", Ghost(g))
        .step(-652899600, -18000, 3600, "EDT", Ghost(g))
        .step(-634154400, -18000, 0, "EST", Ghost(g))
        .step(-620845200, -18000, 3600, "EDT", Ghost(g))
        .step(-602704800, -18000, 0, "EST", Ghost(g))
        .step(-589395600, -18000, 3600, "EDT", Ghost(g))
        .step(-576093600, -18000, 0, "EST", Ghost(g))
        .step(-557946000, -18000, 3600, "EDT", Ghost(g))
        .step(-544644000, -18000, 0, "EST", Ghost(g))
        .step(-526496400, -18000, 3600, "EDT", Ghost(g))
        .step(-513194400, -18000, 0, "EST", Ghost(g))
        .step(-495046800, -18000, 3600, "EDT", Ghost(g))
        .step(-481744800, -18000, 0, "EST", Ghost(g))
        .step(-463597200, -18000, 3600, "EDT", Ghost(g))
        .step(-450295200, -18000, 0, "EST", Ghost(g))
        .step(-431542800, -18000, 3600, "EDT", Ghost(g))
        .step(-418240800, -18000, 0, "EST", Ghost(g))
        .step(-400093200, -18000, 3600, "EDT", Ghost(g))
        .step(-384372000, -18000, 0, "EST", Ghost(g))
        .step(-368643600, -18000, 3600, "EDT", Ghost(g))
        .step(-352922400, -18000, 0, "EST", Ghost(g))
        .step(-337194000, -18000, 3600, "EDT", Ghost(g))
        .step(-321472800, -18000, 0, "EST", Ghost(g))
        .step(-305744400, -18000, 3600, "EDT", Ghost(g))
        .step(-289418400, -18000, 0, "EST", Ghost(g))
        .step(-273690000, -18000, 3600, "EDT", Ghost(g))
        .step(-257968800, -18000, 0, "EST", Ghost(g))
        .step(-242240400, -18000, 3600, "EDT", Ghost(g))
        .step(-226519200, -18000, 0, "EST", Ghost(g))
        .step(-210790800, -18000, 3600, "EDT", Ghost(g))
        .step(-195069600, -18000, 0, "EST", Ghost(g))
        .step(-179341200, -18000, 3600, "EDT", Ghost(g))
        .step(-163620000, -18000, 0, "EST", Ghost(g))
        .step(-147891600, -18000, 3600, "EDT", Ghost(g))
        .step(-131565600, -18000, 0, "EST", Ghost(g))
        .step(-116442000, -18000, 3600, "EDT", Ghost(g))
        .step(-100116000, -18000, 0, "EST", Ghost(g))
        .step(-84387600, -18000, 3600, "EDT", Ghost(g))
        .step(-68666400, -18000, 0, "EST", Ghost(g))
        .step(-52938000, -18000, 3600, "EDT", Ghost(g))
        .step(-37216800, -18000, 0, "EST", Ghost(g))
        .step(-21488400, -18000, 3600, "EDT", Ghost(g))
        .step(-5767200, -18000, 0, "EST", Ghost(g))
        .step(9961200, -18000, 3600, "EDT", Ghost(g))
        .step(25682400, -18000, 0, "EST", Ghost(g))
        .step(41410800, -18000, 3600, "EDT", Ghost(g))
        .step(57736800, -18000, 0, "EST", Ghost(g))
        .step(73465200, -18000, 3600, "EDT", Ghost(g))
        .step(89186400, -18000, 0, "EST", Ghost(g))
        .step(104914800, -18000, 3600, "EDT", Ghost(g))
        .step(120636000, -18000, 0, "EST", Ghost(g))
        .step(136364400, -18000, 3600, "EDT", Ghost(g))
        .step(152085600, -18000, 0, "EST", Ghost(g))
        .step(167814000, -18000, 3600, "EDT", Ghost(g))
        .step(183535200, -18000, 0, "EST", Ghost(g))
        .step(199263600, -18000, 3600, "EDT", Ghost(g))
        .step(215589600, -18000, 0, "EST", Ghost(g))
        .step(230713200, -18000, 3600, "EDT", Ghost(g))
        .step(247039200, -18000, 0, "EST", Ghost(g))
        .step(262767600, -18000, 3600, "EDT", Ghost(g))
        .step(278488800, -18000, 0, "EST", Ghost(g))
        .step(294217200, -18000, 3600, "EDT", Ghost(g))
        .step(309938400, -18000, 0, "EST", Ghost(g))
        .step(325666800, -18000, 3600, "EDT", Ghost(g))
        .step(341388000, -18000, 0, "EST", Ghost(g))
        .step(357116400, -18000, 3600, "EDT", Ghost(g))
        .step(372837600, -18000, 0, "EST", Ghost(g))
        .step(388566000, -18000, 3600, "EDT", Ghost(g))
        .step(404892000, -18000, 0, "EST", Ghost(g))
        .step(420015600, -18000, 3600, "EDT", Ghost(g))
        .step(436341600, -18000, 0, "EST", Ghost(g))
        .step(452070000, -18000, 3600, "EDT", Ghost(g))
        .step(467791200, -18000, 0, "EST", Ghost(g))
        .step(483519600, -18000, 3600, "EDT", Ghost(g))
        .step(499240800, -18000, 0, "EST", Ghost(g))
        .step(514969200, -18000, 3600, "EDT", Ghost(g))
        .step(530690400, -18000, 0, "EST", Ghost(g))
        .step(544604400, -18000, 3600, "EDT", Ghost(g))
        .step(562140000, -18000, 0, "EST", Ghost(g))
        .step(576054000, -18000, 3600, "EDT", Ghost(g))
        .step(594194400, -18000, 0, "EST", Ghost(g))
        .step(607503600, -18000, 3600, "EDT", Ghost(g))
        .step(625644000, -18000, 0, "EST", Ghost(g))
        .step(638953200, -18000, 3600, "EDT", Ghost(g))
        .step(657093600, -18000, 0, "EST", Ghost(g))
        .step(671007600, -18000, 3600, "EDT", Ghost(g))
        .step(688543200, -18000, 0, "EST", Ghost(g))
        .step(702457200, -18000, 3600, "EDT", Ghost(g))
        .step(719992800, -18000, 0, "EST", Ghost(g))
        .step(733906800, -18000, 3600, "EDT", Ghost(g))
        .step(752047200, -18000, 0, "EST", Ghost(g))
        .step(765356400, -18000, 3600, "EDT", Ghost(g))
        .step(783496800, -18000, 0, "EST", Ghost(g))
        .step(796806000, -18000, 3600, "EDT", Ghost(g))
        .step(814946400, -18000, 0, "EST", Ghost(g))
        .step(828860400, -18000, 3600, "EDT", Ghost(g))
        .step(846396000, -18000, 0, "EST", Ghost(g))
        .step(860310000, -18000, 3600, "EDT", Ghost(g))
        .step(877845600, -18000, 0, "EST", Ghost(g))
        .step(891759600, -18000, 3600, "EDT", Ghost(g))
        .step(909295200, -18000, 0, "EST", Ghost(g))
        .step(923209200, -18000, 3600, "EDT", Ghost(g))
        .step(941349600, -18000, 0, "EST", Ghost(g))
        .step(954658800, -18000, 3600, "EDT", Ghost(g))
        .step(972799200, -18000, 0, "EST", Ghost(g))
        .step(986108400, -18000, 3600, "EDT", Ghost(g))
        .step(1004248800, -18000, 0, "EST", Ghost(g))
        .step(1018162800, -18000, 3600, "EDT", Ghost(g))
        .step(1035698400, -18000, 0, "EST", Ghost(g))
        .step(1049612400, -18000, 3600, "EDT", Ghost(g))
        .step(1067148000, -18000, 0, "EST", Ghost(g))
        .step(1081062000, -18000, 3600, "EDT", Ghost(g))
        .step(1099202400, -18000, 0, "EST", Ghost(g))
        .step(1112511600, -18000, 3600, "EDT", Ghost(g))
        .step(1130652000, -18000, 0, "EST", Ghost(g))
        .step(1143961200, -18000, 3600, "EDT", Ghost(g))
        .step(1162101600, -18000, 0, "EST", Ghost(g))
        .step(1173596400, -18000, 3600, "EDT", Ghost(g))
        .step(1194156000, -18000, 0, "EST", Ghost(g))
        .step(1205046000, -18000, 3600, "EDT", Ghost(g))
        .step(1225605600, -18000, 0, "EST", Ghost(g))
        .step(1236495600, -18000, 3600, "EDT", Ghost(g))
        .step(1257055200, -18000, 0, "EST", Ghost(g))
        .step(1268550000, -18000, 3600, "EDT", Ghost(g))
        .step(1289109600, -18000, 0, "EST", Ghost(g))
        .step(1299999600, -18000, 3600, "EDT", Ghost(g))
        .step(1320559200, -18000, 0, "EST", Ghost(g))
        .step(1331449200, -18000, 3600, "EDT", Ghost(g))
        .step(1352008800, -18000, 0, "EST", Ghost(g))
        .step(1362898800, -18000, 3600, "EDT", Ghost(g))
        .step(1383458400, -18000, 0, "EST", Ghost(g))
        .step(1394348400, -18000, 3600, "EDT", Ghost(g))
        .step(1414908000, -18000, 0, "EST", Ghost(g))
        .step(1425798000, -18000, 3600, "EDT", Ghost(g))
        .step(1446357600, -18000, 0, "EST", Ghost(g))
        .step(1457852400, -18000, 3600, "EDT", Ghost(g))
        .step(1478412000, -18000, 0, "EST", Ghost(g))
        .step(1489302000, -18000, 3600, "EDT", Ghost(g))
        .step(1509861600, -18000, 0, "EST", Ghost(g))
        .step(1520751600, -18000, 3600, "EDT", Ghost(g))
        .step(1541311200, -18000, 0, "EST", Ghost(g))
        .step(1552201200, -18000, 3600, "EDT", Ghost(g))
        .step(1572760800, -18000, 0, "EST", Ghost(g))
        .step(1583650800, -18000, 3600, "EDT", Ghost(g))
        .step(1604210400, -18000, 0, "EST", Ghost(g))
        .step(1615705200, -18000, 3600, "EDT", Ghost(g))
        .step(1636264800, -18000, 0, "EST", Ghost(g))
        .step(1647154800, -18000, 3600, "EDT", Ghost(g))
        .step(1667714400, -18000, 0, "EST", Ghost(g))
        .step(1678604400, -18000, 3600, "EDT", Ghost(g))
        .step(1699164000, -18000, 0, "EST", Ghost(g))
        .step(1710054000, -18000, 3600, "EDT", Ghost(g))
        .step(1730613600, -18000, 0, "EST", Ghost(g))
        .step(1741503600, -18000, 3600, "EDT", Ghost(g))
        .step(1762063200, -18000, 0, "EST", Ghost(g))
        .step(1772953200, -18000, 3600, "EDT", Ghost(g))
        .step(1793512800, -18000, 0, "EST", Ghost(g))
        .step(1805007600, -18000, 3600, "EDT", Ghost(g))
        .step(1825567200, -18000, 0, "EST", Ghost(g))
        .step(1836457200, -18000, 3600, "EDT", Ghost(g))
        .step(1857016800, -18000, 0, "EST", Ghost(g))
        .step(1867906800, -18000, 3600, "EDT", Ghost(g))
        .step(1888466400, -18000, 0, "EST", Ghost(g))
        .step(1899356400, -18000, 3600, "EDT", Ghost(g))
        .step(1919916000, -18000, 0, "EST", Ghost(g))
        .step(1930806000, -18000, 3600, "EDT", Ghost(g))
        .step(1951365600, -18000, 0, "EST", Ghost(g))
        .step(1962860400, -18000, 3600, "EDT", Ghost(g))
        .step(1983420000, -18000, 0, "EST", Ghost(g))
        .step(1994310000, -18000, 3600, "EDT", Ghost(g))
        .step(2014869600, -18000, 0, "EST", Ghost(g))
        .step(2025759600, -18000, 3600, "EDT", Ghost(g))
        .step(2046319200, -18000, 0, "EST", Ghost(g))
        .step(2057209200, -18000, 3600, "EDT", Ghost(g))
        .step(2077768800, -18000, 0, "EST", Ghost(g))
        .step(2088658800, -18000, 3600, "EDT", Ghost(g))
        .step(2109218400, -18000, 0, "EST", Ghost(g))
        .step(2120108400, -18000, 3600, "EDT", Ghost(g))
        .step(2140668000, -18000, 0, "EST", Ghost(g))
        .finish(Ghost(g))
}

/// The zone `America/Tortola`.
pub fn tortola() -> (r: Tz)
    ensures
        r.wf(),
        r.zone_name() == "America/Tortola"@,
        r.table() == tables::america::tortola(),
{
    let ghost g = tables::america::tortola_rows();
    FixedTimespanSet::begin("America/Tortola", -15508, 0, "LMT", Ghost(g))
        .step(-1846266092, -14400, 0, "AST", Ghost(g))
        .finish(Ghost(g))
}

/// The zone `America/Vancouver`.
pub fn vancouver() -> (r: Tz)
    ensures
        r.wf(),
        r.zone_name() == "America/Vancouver"@,
        r.table() == tables::america::vancouver(),
{
    let ghost g = tables::america::vancouver_rows();
    FixedTimespanSet::begin("America/Vancouver", -29548, 0, "LMT", Ghost(g))
        .step(-2713880852, -28800, 0, "PST", Ghost(g))
        .step(-1632060000, -28800, 3600, "PDT", Ghost(g))
        .step(-1615129200, -28800, 0, "PST", Ghost(g))
        .step(-880207200, -28800, 3600, "PWT", Ghost(g))
        .step(-769395600, -28800, 3600, "PPT", Ghost(g))
        .step(-765385200, -28800, 0, "PST", Ghost(g))
        .step(-747237600, -28800, 3600, "PDT", Ghost(g))
        .step(-733935600, -28800, 0, "PST", Ghost(g))
        .step(-715788000, -28800, 3600, "PDT", Ghost(g))
        .step(-702486000, -28800, 0, "PST", Ghost(g))
        .step(-684338400, -28800, 3600, "PDT", Ghost(g))
        .step(-671036400, -28800, 0, "PST", Ghost(g))
        .step(-652888800, -28800, 3600, "PDT", Ghost(g))
        .step(-639586800, -28800, 0, "PST", Ghost(g))
        .step(-620834400, -28800, 3600, "PDT", Ghost(g))
        .step(-608137200, -28800, 0, "PST", Ghost(g))
        .step(-589384800, -28800, 3600, "PDT", Ghost(g))
        .step(-576082800, -28800, 0, "PST", Ghost(g))
        .step(-557935200, -28800, 3600, "PDT", Ghost(g))
        .step(-544633200, -28800, 0, "PST", Ghost(g))
        .step(-526485600, -28800, 3600, "PDT", Ghost(g))
        .step(-513183600, -28800, 0, "PST", Ghost(g))
        .step(-495036000, -28800, 3600, "PDT", Ghost(g))
        .step(-481734000, -28800, 0, "PST", Ghost(g))
        .step(-463586400, -28800, 3600, "PDT", Ghost(g))
        .step(-450284400, -28800, 0, "PST", Ghost(g))
        .step(-431532000, -28800, 3600, "PDT", Ghost(g))
        .step(-418230000, -28800, 0, "PST", Ghost(g))
        .step(-400082400, -28800, 3600, "PDT", Ghost(g))
        .step(-386780400, -28800, 0, "PST", Ghost(g))
        .step(-368632800, -28800, 3600, "PDT", Ghost(g))
        .step(-355330800, -28800, 0, "PST", Ghost(g))
        .step(-337183200, -28800, 3600, "PDT", Ghost(g))
        .step(-323881200, -28800, 0, "PST", Ghost(g))
        .step(-305733600, -28800, 3600, "PDT", Ghost(g))
        .step(-292431600, -28800, 0, "PST", Ghost(g))
        .step(-273679200, -28800, 3600, "PDT", Ghost(g))
        .step(-260982000, -28800, 0, "PST", Ghost(g))
        .step(-242229600, -28800, 3600, "PDT", Ghost(g))
        .step(-226508400, -28800, 0, "PST", Ghost(g))
        .step(-210780000, -28800, 3600, "PDT", Ghost(g))
        .step(-195058800, -28800, 0, "PST", Ghost(g))
        .step(-179330400, -28800, 3600, "PDT", Ghost(g))
        .step(-163609200, -28800, 0, "PST", Ghost(g))
        .step(-147880800, -28800, 3600, "PDT", Ghost(g))
        .step(-131554800, -28800, 0, "PST", Ghost(g))
        .step(-116431200, -28800, 3600, "PDT", Ghost(g))
        .step(-100105200, -28800, 0, "PST", Ghost(g))
        .step(-84376800, -28800, 3600, "PDT", Ghost(g))
        .step(-68655600, -28800, 0, "PST", Ghost(g))
        .step(-52927200, -28800, 3600, "PDT", Ghost(g))
        .step(-37206000, -28800, 0, "PST", Ghost(g))
        .step(-21477600, -28800, 3600, "PDT", Ghost(g))
        .step(-5756400, -28800, 0, "PST", Ghost(g))
        .step(9972000, -28800, 3600, "PDT", Ghost(g))
        .step(25693200, -28800, 0, "PST", Ghost(g))
        .step(41421600, -28800, 3600, "PDT", Ghost(g))
        .step(57747600, -28800, 0, "PST", Ghost(g))
        .step(73476000, -28800, 3600, "PDT", Ghost(g))
        .step(89197200, -28800, 0, "PST", Ghost(g))
        .step(104925600, -28800, 3600, "PDT", Ghost(g))
        .step(120646800, -28800, 0, "PST", Ghost(g))
        .step(136375200, -28800, 3600, "PDT", Ghost(g))
        .step(152096400, -28800, 0, "PST", Ghost(g))
        .step(167824800, -28800, 3600, "PDT", Ghost(g))
        .step(183546000, -28800, 0, "PST", Ghost(g))
        .step(199274400, -28800, 3600, "PDT", Ghost(g))
        .step(215600400, -28800, 0, "PST", Ghost(g))
        .step(230724000, -28800, 3600, "PDT", Ghost(g))
        .step(247050000, -28800, 0, "PST", Ghost(g))
        .step(262778400, -28800, 3600, "PDT", Ghost(g))
        .step(278499600, -28800, 0, "PST", Ghost(g))
        .step(294228000, -28800, 3600, "PDT", Ghost(g))
        .step(309949200, -28800, 0, "PST", Ghost(g))
        .step(325677600, -28800, 3600, "PDT", Ghost(g))
        .step(341398800, -28800, 0, "PST", Ghost(g))
        .step(357127200, -28800, 3600, "PDT", Ghost(g))
        .step(372848400, -28800, 0, "PST", Ghost(g))
        .step(388576800, -28800, 3600, "PDT", Ghost(g))
        .step(404902800, -28800, 0, "PST", Ghost(g))
        .step(420026400, -28800, 3600, "PDT", Ghost(g))
        .step(436352400, -28800, 0, "PST", Ghost(g))
        .step(452080800, -28800, 3600, "PDT", Ghost(g))
        .step(467802000, -28800, 0, "PST", Ghost(g))
        .step(483530400, -28800, 3600, "PDT", Ghost(g))
        .step(499251600, -28800, 0, "PST", Ghost(g))
        .step(514980000, -28800, 3600, "PDT", Ghost(g))
        .step(530701200, -28800, 0, "PST", Ghost(g))
        .step(544615200, -28800, 3600, "PDT", Ghost(g))
        .step(562150800, -28800, 0, "PST", Ghost(g))
        .step(576064800, -28800, 3600, "PDT", Ghost(g))
        .step(594205200, -28800, 0, "PST", Ghost(g))
        .step(607514400, -28800, 3600, "PDT", Ghost(g))
        .step(625654800, -28800, 0, "PST", Ghost(g))
        .step(638964000, -28800, 3600, "PDT", Ghost(g))
        .step(657104400, -28800, 0, "PST", Ghost(g))
        .step(671018400, -28800, 3600, "PDT", Ghost(g))
        .step(688554000, -28800, 0, "PST", Ghost(g))
        .step(702468000, -28800, 3600, "PDT", Ghost(g))
        .step(720003600, -28800, 0, "PST", Ghost(g))
        .step(733917600, -28800, 3600, "PDT", Ghost(g))
        .step(752058000, -28800, 0, "PST", Ghost(g))
        .step(765367200, -28800, 3600, "PDT", Ghost(g))
        .step(783507600, -28800, 0, "PST", Ghost(g))
        .step(796816800, -28800, 3600, "PDT", Ghost(g))
        .step(814957200, -28800, 0, "PST", Ghost(g))
        .step(828871200, -28800, 3600, "PDT", Ghost(g))
        .step(846406800, -28800, 0, "PST", Ghost(g))
        .step(860320800, -28800, 3600, "PDT", Ghost(g))
        .step(877856400, -28800, 0, "PST", Ghost(g))
        .step(891770400, -28800, 3600, "PDT", Ghost(g))
        .step(909306000, -28800, 0, "PST", Ghost(g))
        .step(923220000, -28800, 3600, "PDT", Ghost(g))
        .step(941360400, -28800, 0, "PST", Ghost(g))
        .step(954669600, -28800, 3600, "PDT", Ghost(g))
        .step(972810000, -28800, 0, "PST", Ghost(g))
        .step(986119200, -28800, 3600, "PDT", Ghost(g))
        .step(1004259600, -28800, 0, "PST", Ghost(g))
        .step(1018173600, -28800, 3600, "PDT", Ghost(g))
        .step(1035709200, -28800, 0, "PST", Ghost(g))
        .step(1049623200, -28800, 3600, "PDT", Ghost(g))
        .step(1067158800, -28800, 0, "PST", Ghost(g))
        .step(1081072800, -28800, 3600, "PDT", Ghost(g))
        .step(1099213200, -28800, 0, "PST", Ghost(g))
        .step(1112522400, -28800, 3600, "PDT", Ghost(g))
        .step(1130662800, -28800, 0, "PST", Ghost(g))
        .step(1143972000, -28800, 3600, "PDT", Ghost(g))
        .step(1162112400, -28800, 0, "PST", Ghost(g))
        .step(1173607200, -28800, 3600, "PDT", Ghost(g))
        .step(1194166800, -28800, 0, "PST", Ghost(g))
        .step(1205056800, -28800, 3600, "PDT", Ghost(g))
        .step(1225616400, -28800, 0, "PST", Ghost(g))
        .step(1236506400, -28800, 3600, "PDT", Ghost(g))
        .step(1257066000, -28800, 0, "PST", Ghost(g))
        .step(1268560800, -28800, 3600, "PDT", Ghost(g))
        .step(1289120400, -28800, 0, "PST", Ghost(g))
        .step(1300010400, -28800, 3600, "PDT", Ghost(g))
        .step(1320570000, -28800, 0, "PST", Ghost(g))
        .step(1331460000, -28800, 3600, "PDT", Ghost(g))
        .step(1352019600, -28800, 0, "PST", Ghost(g))
        .step(1362909600, -28800, 3600, "PDT", Ghost(g))
        .step(1383469200, -28800, 0, "PST", Ghost(g))
        .step(1394359200, -28800, 3600, "PDT", Ghost(g))
        .step(1414918800, -28800, 0, "PST", Ghost(g))
        .step(1425808800, -28800, 3600, "PDT", Ghost(g))
        .step(1446368400, -28800, 0, "PST", Ghost(g))
        .step(1457863200, -28800, 3600, "PDT", Ghost(g))
        .step(1478422800, -28800, 0, "PST", Ghost(g))
        .step(1489312800, -28800, 3600, "PDT", Ghost(g))
        .step(1509872400, -28800, 0, "PST", Ghost(g))
        .step(1520762400, -28800, 3600, "PDT", Ghost(g))
        .step(1541322000, -28800, 0, "PST", Ghost(g))
        .step(1552212000, -28800, 3600, "PDT", Ghost(g))
        .step(1572771600, -28800, 0, "PST", Ghost(g))
        .step(1583661600, -28800, 3600, "PDT", Ghost(g))
        .step(1604221200, -28800, 0, "PST", Ghost(g))
        .step(1615716000, -28800, 3600, "PDT", Ghost(g))
        .step(1636275600, -28800, 0, "PST", Ghost(g))
        .step(1647165600, -28800, 3600, "PDT", Ghost(g))
        .step(1667725200, -28800, 0, "PST", Ghost(g))
        .step(1678615200, -28800, 3600, "PDT", Ghost(g))
        .step(1699174800, -28800, 0, "PST", Ghost(g))
        .step(1710064800, -28800, 3600, "PDT", Ghost(g))
        .step(1730624400, -28800, 0, "PST", Ghost(g))
        .step(1741514400, -28800, 3600, "PDT", Ghost(g))
        .step(1762074000, -28800, 0, "PST", Ghost(g))
        .step(1772964000, -28800, 3600, "PDT", Ghost(g))
        .step(1793523600, -28800, 0, "PST", Ghost(g))
        .step(1805018400, -28800, 3600, "PDT", Ghost(g))
        .step(1825578000, -28800, 0, "PST", Ghost(g))
        .step(1836468000, -28800, 3600, "PDT", Ghost(g))
        .step(1857027600, -28800, 0, "PST", Ghost(g))
        .step(1867917600, -28800, 3600, "PDT", Ghost(g))
        .step(1888477200, -28800, 0, "PST", Ghost(g))
        .step(1899367200, -28800, 3600, "PDT", Ghost(g))
        .step(1919926800, -28800, 0, "PST", Ghost(g))
        .step(1930816800, -28800, 3600, "PDT", Ghost(g))
        .step(1951376400, -28800, 0, "PST", Ghost(g))
        .step(1962871200, -28800, 3600, "PDT", Ghost(g))
        .step(1983430800, -28800, 0, "PST", Ghost(g))
        .step(1994320800, -28800, 3600, "PDT", Ghost(g))
        .step(2014880400, -28800, 0, "PST", Ghost(g))
        .step(2025770400, -28800, 3600, "PDT", Ghost(g))
        .step(2046330000, -28800, 0, "PST", Ghost(g))
        .step(2057220000, -28800, 3600, "PDT", Ghost(g))
        .step(2077779600, -28800, 0, "PST", Ghost(g))
        .step(2088669600, -28800, 3600, "PDT", Ghost(g))
        .step(2109229200, -28800, 0, "PST", Ghost(g))
        .step(2120119200, -28800, 3600, "PDT", Ghost(g))
        .step(2140678800, -28800, 0, "PST", Ghost(g))
        .finish(Ghost(g))
}

/// The zone `America/Virgin`.
pub fn virgin() -> (r: Tz)
    ensures
        r.wf(),
        r.zone_name() == "America/Virgin"@,
        r.table() == tables::america::virgin(),
{
    let ghost g = tables::america::virgin_rows();
    FixedTimespanSet::begin("America/Virgin", -15865, 0, "LMT", Ghost(g))
        .step(-2233035335, -14400, 0, "AST", Ghost(g))
        .step(-873057600, -14400, 3600, "AWT", Ghost(g))
        .step(-769395600, -14400, 3600, "APT", Ghost(g))
        .step(-765399600, -14400, 0, "AST", Ghost(g))
        .finish(Ghost(g))
}

/// The zone `America/Whitehorse`.
pub fn whitehorse() -> (r: Tz)
    ensures
        r.wf(),
        r.zone_name() == "America/Whitehorse"@,
        r.table() == tables::america::whitehorse(),
{
    let ghost g = tables::america::whitehorse_rows();
    FixedTimespanSet::begin("America/Whitehorse", -32412, 0, "LMT", Ghost(g))
        .step(-2188997988, -32400, 0, "YST", Ghost(g))
        .step(-1632056400, -32400, 3600, "YDT", Ghost(g))
        .step(-1615125600, -32400, 0, "YST", Ghost(g))
        .step(-1596978000, -32400, 3600, "YDT", Ghost(g))
        .step(-1583164800, -32400, 0, "YST", Ghost(g))
        .step(-880203600, -32400, 3600, "YWT", Ghost(g))
        .step(-769395600, -32400, 3600, "YPT", Ghost(g))
        .step(-765381600, -32400, 0, "YST", Ghost(g))
        .step(-147884400, -32400, 7200, "YDDT", Ghost(g))
        .step(-131554800, -32400, 0, "YST", Ghost(g))
        .step(-121273200, -28800, 0, "PST", Ghost(g))
        .step(325677600, -28800, 3600, "PDT", Ghost(g))
        .step(341398800, -28800, 0, "PST", Ghost(g))
        .step(357127200, -28800, 3600, "PDT", Ghost(g))
        .step(372848400, -28800, 0, "PST", Ghost(g))
        .step(388576800, -28800, 3600, "PDT", Ghost(g))
        .step(404902800, -28800, 0, "PST", Ghost(g))
        .step(420026400, -28800, 3600, "PDT", Ghost(g))
        .step(436352400, -28800, 0, "PST", Ghost(g))
        .step(452080800, -28800, 3600, "PDT", Ghost(g))
        .step(467802000, -28800, 0, "PST", Ghost(g))
        .step(483530400, -28800, 3600, "PDT", Ghost(g))
        .step(499251600, -28800, 0, "PST", Ghost(g))
        .step(514980000, -28800, 3600, "PDT", Ghost(g))
        .step(530701200, -28800, 0, "PST", Ghost(g))
        .step(544615200, -28800, 3600, "PDT", Ghost(g))
        .step(562150800, -28800, 0, "PST", Ghost(g))
        .step(576064800, -28800, 3600, "PDT", Ghost(g))
        .step(594205200, -28800, 0, "PST", Ghost(g))
        .step(607514400, -28800, 3600, "PDT", Ghost(g))
        .step(625654800, -28800, 0, "PST", Ghost(g))
        .step(638964000, -28800, 3600, "PDT", Ghost(g))
        .step(657104400, -28800, 0, "PST", Ghost(g))
        .step(671018400, -28800, 3600, "PDT", Ghost(g))
        .step(688554000, -28800, 0, "PST", Ghost(g))
        .step(702468000, -28800, 3600, "PDT", Ghost(g))
        .step(720003600, -28800, 0, "PST", Ghost(g))
        .step(733917600, -28800, 3600, "PDT", Ghost(g))
        .step(752058000, -28800, 0, "PST", Ghost(g))
        .step(765367200, -28800, 3600, "PDT", Ghost(g))
        .step(783507600, -28800, 0, "PST", Ghost(g))
        .step(796816800, -28800, 3600, "PDT", Ghost(g))
        .step(814957200, -28800, 0, "PST", Ghost(g))
        .step(828871200, -28800, 3600, "PDT", Ghost(g))
        .step(846406800, -28800, 0, "PST", Ghost(g))
        .step(860320800, -28800, 3600, "PDT", Ghost(g))
        .step(877856400, -28800, 0, "PST", Ghost(g))
        .step(891770400, -28800, 3600, "PDT", Ghost(g))
        .step(909306000, -28800, 0, "PST", Ghost(g))
        .step(923220000, -28800, 3600, "PDT", Ghost(g))
        .step(941360400, -28800, 0, "PST", Ghost(g))
        .step(954669600, -28800, 3600, "PDT", Ghost(g))
        .step(972810000, -28800, 0, "PST", Ghost(g))
        .step(986119200, -28800, 3600, "PDT", Ghost(g))
        .step(1004259600, -28800, 0, "PST", Ghost(g))
        .step(1018173600, -28800, 3600, "PDT", Ghost(g))
        .step(1035709200, -28800, 0, "PST", Ghost(g))
        .step(1049623200, -28800, 3600, "PDT", Ghost(g))
        .step(1067158800, -28800, 0, "PST", Ghost(g))
        .step(1081072800, -28800, 3600, "PDT", Ghost(g))
        .step(1099213200, -28800, 0, "PST", Ghost(g))
        .step(1112522400, -28800, 3600, "PDT", Ghost(g))
        .step(1130662800, -28800, 0, "PST", Ghost(g))
        .step(1143972000, -28800, 3600, "PDT", Ghost(g))
        .step(1162112400, -28800, 0, "PST", Ghost(g))
        .step(1173607200, -28800, 3600, "PDT", Ghost(g))
        .step(1194166800, -28800, 0, "PST", Ghost(g))
        .step(1205056800, -28800, 3600, "PDT", Ghost(g))
        .step(1225616400, -28800, 0, "PST", Ghost(g))
        .step(1236506400, -28800, 3600, "PDT", Ghost(g))
        .step(1257066000, -28800, 0, "PST", Ghost(g))
        .step(1268560800, -28800, 3600, "PDT", Ghost(g))
        .step(1289120400, -28800, 0, "PST", Ghost(g))
        .step(1300010400, -28800, 3600, "PDT", Ghost(g))
        .step(1320570000, -28800, 0, "PST", Ghost(g))
        .step(1331460000, -28800, 3600, "PDT", Ghost(g))
        .step(1352019600, -28800, 0, "PST", Ghost(g))
        .step(1362909600, -28800, 3600, "PDT", Ghost(g))
        .step(1383469200, -28800, 0, "PST", Ghost(g))
        .step(1394359200, -28800, 3600, "PDT", Ghost(g))
        .step(1414918800, -28800, 0, "PST", Ghost(g))
        .step(1425808800, -28800, 3600, "PDT", Ghost(g))
        .step(1446368400, -28800, 0, "PST", Ghost(g))
        .step(1457863200, -28800, 3600, "PDT", Ghost(g))
        .step(1478422800, -28800, 0, "PST", Ghost(g))
        .step(1489312800, -28800, 3600, "PDT", Ghost(g))
        .step(1509872400, -28800, 0, "PST", Ghost(g))
        .step(1520762400, -28800, 3600, "PDT", Ghost(g))
        .step(1541322000, -28800, 0, "PST", Ghost(g))
        .step(1552212000, -28800, 3600, "PDT", Ghost(g))
        .step(1572771600, -28800, 0, "PST", Ghost(g))
        .step(1583661600, -28800, 3600, "PDT", Ghost(g))
        .step(1604214000, -25200, 0, "MST", Ghost(g))
        .finish(Ghost(g))
}

/// The zone `America/Winnipeg`.
pub fn winnipeg() -> (r: Tz)
    ensures
        r.wf(),
        r.zone_name() == "America/Winnipeg"@,
        r.table() == tables::america::winnipeg(),
{
    let ghost g = tables::america::winnipeg_rows();
    FixedTimespanSet::begin("America/Winnipeg", -23316, 0, "LMT", Ghost(g))
        .step(-2602258284, -21600, 0, "CST", Ghost(g))
        .step(-1694368800, -21600, 3600, "CDT", Ghost(g))
        .step(-1681671600, -21600, 0, "CST", Ghost(g))
        .step(-1632067200, -21600, 3600, "CDT", Ghost(g))
        .step(-1615136400, -21600, 0, "CST", Ghost(g))
        .step(-1029686400, -21600, 3600, "CDT", Ghost(g))
        .step(-1018198800, -21600, 0, "CST", Ghost(g))
        .step(-880214400, -21600, 3600, "CWT", Ghost(g))
        .step(-769395600, -21600, 3600, "CPT", Ghost(g))
        .step(-765392400, -21600, 0, "CST", Ghost(g))
        .step(-746035200, -21600, 3600, "CDT", Ghost(g))
        .step(-732733200, -21600, 0, "CST", Ghost(g))
        .step(-715795200, -21600, 3600, "CDT", Ghost(g))
        .step(-702493200, -21600, 0, "CST", Ghost(g))
        .step(-684345600, -21600, 3600, "CDT", Ghost(g))
        .step(-671043600, -21600, 0, "CST", Ghost(g))
        .step(-652896000, -21600, 3600, "CDT", Ghost(g))
        .step(-639594000, -21600, 0, "CST", Ghost(g))
        .step(-620755200, -21600, 3600, "CDT", Ghost(g))
        .step(-607626000, -21600, 0, "CST", Ghost(g))
        .step(-589392000, -21600, 3600, "CDT", Ghost(g))
        .step(-576090000, -21600, 0, "CST", Ghost(g))
        .step(-557942400, -21600, 3600, "CDT", Ghost(g))
        .step(-544640400, -21600, 0, "CST", Ghost(g))
        .step(-526492800, -21600, 3600, "CDT", Ghost(g))
        .step(-513190800, -21600, 0, "CST", Ghost(g))
        .step(-495043200, -21600, 3600, "CDT", Ghost(g))
        .step(-481741200, -21600, 0, "CST", Ghost(g))
        .step(-463593600, -21600, 3600, "CDT", Ghost(g))
        .step(-450291600, -21600, 0, "CST", Ghost(g))
        .step(-431539200, -21600, 3600, "CDT", Ghost(g))
        .step(-418237200, -21600, 0, "CST", Ghost(g))
        .step(-400089600, -21600, 3600, "CDT", Ghost(g))
        .step(-386787600, -21600, 0, "CST", Ghost(g))
        .step(-368640000, -21600, 3600, "CDT", Ghost(g))
        .step(-355338000, -21600, 0, "CST", Ghost(g))
        .step(-337190400, -21600, 3600, "CDT", Ghost(g))
        .step(-321469200, -21600, 0, "CST", Ghost(g))
        .step(-305740800, -21600, 3600, "CDT", Ghost(g))
        .step(-292438800, -21600, 0, "CST", Ghost(g))
        .step(-210787200, -21600, 3600, "CDT", Ghost(g))
        .step(-198090000, -21600, 0, "CST", Ghost(g))
        .step(-116438400, -21600, 3600, "CDT", Ghost(g))
        .step(-100108800, -21600, 0, "CST", Ghost(g))
        .step(-84384000, -21600, 3600, "CDT", Ghost(g))
        .step(-68659200, -21600, 0, "CST", Ghost(g))
        .step(-52934400, -21600, 3600, "CDT", Ghost(g))
        .step(-37209600, -21600, 0, "CST", Ghost(g))
        .step(-21484800, -21600, 3600, "CDT", Ghost(g))
        .step(-5760000, -21600, 0, "CST", Ghost(g))
        .step(9964800, -21600, 3600, "CDT", Ghost(g))
        .step(25689600, -21600, 0, "CST", Ghost(g))
        .step(41414400, -21600, 3600, "CDT", Ghost(g))
        .step(57744000, -21600, 0, "CST", Ghost(g))
        .step(73468800, -21600, 3600, "CDT", Ghost(g))
        .step(89193600, -21600, 0, "CST", Ghost(g))
        .step(104918400, -21600, 3600, "CDT", Ghost(g))
        .step(120643200, -21600, 0, "CST", Ghost(g))
        .step(136368000, -21600, 3600, "CDT", Ghost(g))
        .step(152092800, -21600, 0, "CST", Ghost(g))
        .step(167817600, -21600, 3600, "CDT", Ghost(g))
        .step(183542400, -21600, 0, "CST", Ghost(g))
        .step(199267200, -21600, 3600, "CDT", Ghost(g))
        .step(215596800, -21600, 0, "CST", Ghost(g))
        .step(230716800, -21600, 3600, "CDT", Ghost(g))
        .step(247046400, -21600, 0, "CST", Ghost(g))
        .step(262771200, -21600, 3600, "CDT", Ghost(g))
        .step(278496000, -21600, 0, "CST", Ghost(g))
        .step(294220800, -21600, 3600, "CDT", Ghost(g))
        .step(309945600, -21600, 0, "CST", Ghost(g))
        .step(325670400, -21600, 3600, "CDT", Ghost(g))
        .step(341395200, -21600, 0, "CST", Ghost(g))
        .step(357120000, -21600, 3600, "CDT", Ghost(g))
        .step(372844800, -21600, 0, "CST", Ghost(g))
        .step(388569600, -21600, 3600, "CDT", Ghost(g))
        .step(404899200, -21600, 0, "CST", Ghost(g))
        .step(420019200, -21600, 3600, "CDT", Ghost(g))
        .step(436348800, -21600, 0, "CST", Ghost(g))
        .step(452073600, -21600, 3600, "CDT", Ghost(g))
        .step(467798400, -21600, 0, "CST", Ghost(g))
        .step(483523200, -21600, 3600, "CDT", Ghost(g))
        .step(499248000, -21600, 0, "CST", Ghost(g))
        .step(514972800, -21600, 3600, "CDT", Ghost(g))
        .step(530697600, -21600, 0, "CST", Ghost(g))
        .step(544608000, -21600, 3600, "CDT", Ghost(g))
        .step(562147200, -21600, 0, "CST", Ghost(g))
        .step(576057600, -21600, 3600, "CDT", Ghost(g))
        .step(594201600, -21600, 0, "CST", Ghost(g))
        .step(607507200, -21600, 3600, "CDT", Ghost(g))
        .step(625651200, -21600, 0, "CST", Ghost(g))
        .step(638956800, -21600, 3600, "CDT", Ghost(g))
        .step(657100800, -21600, 0, "CST", Ghost(g))
        .step(671011200, -21600, 3600, "CDT", Ghost(g))
        .step(688550400, -21600, 0, "CST", Ghost(g))
        .step(702460800, -21600, 3600, "CDT", Ghost(g))
        .step(720000000, -21600, 0, "CST", Ghost(g))
        .step(733910400, -21600, 3600, "CDT", Ghost(g))
        .step(752054400, -21600, 0, "CST", Ghost(g))
        .step(765360000, -21600, 3600, "CDT", Ghost(g))
        .step(783504000, -21600, 0, "CST", Ghost(g))
        .step(796809600, -21600, 3600, "CDT", Ghost(g))
        .step(814953600, -21600, 0, "CST", Ghost(g))
        .step(828864000, -21600, 3600, "CDT", Ghost(g))
        .step(846403200, -21600, 0, "CST", Ghost(g))
        .step(860313600, -21600, 3600, "CDT", Ghost(g))
        .step(877852800, -21600, 0, "CST", Ghost(g))
        .step(891763200, -21600, 3600, "CDT", Ghost(g))
        .step(909302400, -21600, 0, "CST", Ghost(g))
        .step(923212800, -21600, 3600, "CDT", Ghost(g))
        .step(941356800, -21600, 0, "CST", Ghost(g))
        .step(954662400, -21600, 3600, "CDT", Ghost(g))
        .step(972806400, -21600, 0, "CST", Ghost(g))
        .step(986112000, -21600, 3600, "CDT", Ghost(g))
        .step(1004256000, -21600, 0, "CST", Ghost(g))
        .step(1018166400, -21600, 3600, "CDT", Ghost(g))
        .step(1035705600, -21600, 0, "CST", Ghost(g))
        .step(1049616000, -21600, 3600, "CDT", Ghost(g))
        .step(1067155200, -21600, 0, "CST", Ghost(g))
        .step(1081065600, -21600, 3600, "CDT", Ghost(g))
        .step(1099209600, -21600, 0, "CST", Ghost(g))
        .step(1112515200, -21600, 3600, "CDT", Ghost(g))
        .step(1130659200, -21600, 0, "CST", Ghost(g))
        .step(1143964800, -21600, 3600, "CDT", Ghost(g))
        .step(1162105200, -21600, 0, "CST", Ghost(g))
        .step(1173600000, -21600, 3600, "CDT", Ghost(g))
        .step(1194159600, -21600, 0, "CST", Ghost(g))
        .step(1205049600, -21600, 3600, "CDT", Ghost(g))
        .step(1225609200, -21600, 0, "CST", Ghost(g))
        .step(1236499200, -21600, 3600, "CDT", Ghost(g))
        .step(1257058800, -21600, 0, "CST", Ghost(g))
        .step(1268553600, -21600, 3600, "CDT", Ghost(g))
        .step(1289113200, -21600, 0, "CST", Ghost(g))
        .step(1300003200, -21600, 3600, "CDT", Ghost(g))
        .step(1320562800, -21600, 0, "CST", Ghost(g))
        .step(1331452800, -21600, 3600, "CDT", Ghost(g))
        .step(1352012400, -21600, 0, "CST", Ghost(g))
        .step(1362902400, -21600, 3600, "CDT", Ghost(g))
        .step(1383462000, -21600, 0, "CST", Ghost(g))
        .step(1394352000, -21600, 3600, "CDT", Ghost(g))
        .step(1414911600, -21600, 0, "CST", Ghost(g))
        .step(1425801600, -21600, 3600, "CDT", Ghost(g))
        .step(1446361200, -21600, 0, "CST", Ghost(g))
        .step(1457856000, -21600, 3600, "CDT", Ghost(g))
        .step(1478415600, -21600, 0, "CST", Ghost(g))
        .step(1489305600, -21600, 3600, "CDT", Ghost(g))
        .step(1509865200, -21600, 0, "CST", Ghost(g))
        .step(1520755200, -21600, 3600, "CDT", Ghost(g))
        .step(1541314800, -21600, 0, "CST", Ghost(g))
        .step(1552204800, -21600, 3600, "CDT", Ghost(g))
        .step(1572764400, -21600, 0, "CST", Ghost(g))
        .step(1583654400, -21600, 3600, "CDT", Ghost(g))
        .step(1604214000, -21600, 0, "CST", Ghost(g))
        .step(1615708800, -21600, 3600, "CDT", Ghost(g))
        .step(1636268400, -21600, 0, "CST", Ghost(g))
        .step(1647158400, -21600, 3600, "CDT", Ghost(g))
        .step(1667718000, -21600, 0, "CST", Ghost(g))
        .step(1678608000, -21600, 3600, "CDT", Ghost(g))
        .step(1699167600, -21600, 0, "CST", Ghost(g))
        .step(1710057600, -21600, 3600, "CDT", Ghost(g))
        .step(1730617200, -21600, 0, "CST", Ghost(g))
        .step(1741507200, -21600, 3600, "CDT", Ghost(g))
        .step(1762066800, -21600, 0, "CST", Ghost(g))
        .step(1772956800, -21600, 3600, "CDT", Ghost(g))
        .step(1793516400, -21600, 0, "CST", Ghost(g))
        .step(1805011200, -21600, 3600, "CDT", Ghost(g))
        .step(1825570800, -21600, 0, "CST", Ghost(g))
        .step(1836460800, -21600, 3600, "CDT", Ghost(g))
        .step(1857020400, -21600, 0, "CST", Ghost(g))
        .step(1867910400, -21600, 3600, "CDT", Ghost(g))
        .step(1888470000, -21600, 0, "CST", Ghost(g))
        .step(1899360000, -21600, 3600, "CDT", Ghost(g))
        .step(1919919600, -21600, 0, "CST", Ghost(g))
        .step(1930809600, -21600, 3600, "CDT", Ghost(g))
        .step(1951369200, -21600, 0, "CST", Ghost(g))
        .step(1962864000, -21600, 3600, "CDT", Ghost(g))
        .step(1983423600, -21600, 0, "CST", Ghost(g))
        .step(1994313600, -21600, 3600, "CDT", Ghost(g))
        .step(2014873200, -21600, 0, "CST", Ghost(g))
        .step(2025763200, -21600, 3600, "CDT", Ghost(g))
        .step(2046322800, -21600, 0, "CST", Ghost(g))
        .step(2057212800, -21600, 3600, "CDT", Ghost(g))
        .step(2077772400, -21600, 0, "CST", Ghost(g))
        .step(2088662400, -21600, 3600, "CDT", Ghost(g))
        .step(2109222000, -21600, 0, "CST", Ghost(g))
        .step(2120112000, -21600, 3600, "CDT", Ghost(g))
        .step(2140671600, -21600, 0, "CST", Ghost(g))
        .finish(Ghost(g))
}

/// The zone `America/Yakutat`.
pub fn yakutat() -> (r: Tz)
    ensures
        r.wf(),
        r.zone_name() == "America/Yakutat"@,
        r.table() == tables::america::yakutat(),
{
    let ghost g = tables::america::yakutat_rows();
    FixedTimespanSet::begin("America/Yakutat", 52865, 0, "LMT", Ghost(g))
        .step(-3225223727, -33535, 0, "LMT", Ghost(g))
        .step(-2188953665, -32400, 0, "YST", Ghost(g))
        .step(-880203600, -32400, 3600, "YWT", Ghost(g))
        .step(-769395600, -32400, 3600, "YPT", Ghost(g))
        .step(-765381600, -32400, 0, "YST", Ghost(g))
        .step(-21474000, -32400, 3600, "YDT", Ghost(g))
        .step(-5752800, -32400, 0, "YST", Ghost(g))
        .step(9975600, -32400, 3600, "YDT", Ghost(g))
        .step(25696800, -32400, 0, "YST", Ghost(g))
        .step(41425200, -32400, 3600, "YDT", Ghost(g))
        .step(57751200, -32400, 0, "YST", Ghost(g))
        .step(73479600, -32400, 3600, "YDT", Ghost(g))
        .step(89200800, -32400, 0, "YST", Ghost(g))
        .step(104929200, -32400, 3600, "YDT", Ghost(g))
        .step(120650400, -32400, 0, "YST", Ghost(g))
        .step(126702000, -32400, 3600, "YDT", Ghost(g))
        .step(152100000, -32400, 0, "YST", Ghost(g))
        .step(162385200, -32400, 3600, "YDT", Ghost(g))
        .step(183549600, -32400, 0, "YST", Ghost(g))
        .step(199278000, -32400, 3600, "YDT", Ghost(g))
        .step(215604000, -32400, 0, "YST", Ghost(g))
        .step(230727600, -32400, 3600, "YDT", Ghost(g))
        .step(247053600, -32400, 0, "YST", Ghost(g))
        .step(262782000, -32400, 3600, "YDT", Ghost(g))
        .step(278503200, -32400, 0, "YST", Ghost(g))
        .step(294231600, -32400, 3600, "YDT", Ghost(g))
        .step(309952800, -32400, 0, "YST", Ghost(g))
        .step(325681200, -32400, 3600, "YDT", Ghost(g))
        .step(341402400, -32400, 0, "YST", Ghost(g))
        .step(357130800, -32400, 3600, "YDT", Ghost(g))
        .step(372852000, -32400, 0, "YST", Ghost(g))
        .step(388580400, -32400, 3600, "YDT", Ghost(g))
        .step(404906400, -32400, 0, "YST", Ghost(g))
        .step(420030000, -32400, 3600, "YDT", Ghost(g))
        .step(436356000, -32400, 0, "YST", Ghost(g))
        .step(439030800, -32400, 0, "AKST", Ghost(g))
        .step(452084400, -32400, 3600, "AKDT", Ghost(g))
        .step(467805600, -32400, 0, "AKST", Ghost(g))
        .step(483534000, -32400, 3600, "AKDT", Ghost(g))
        .step(499255200, -32400, 0, "AKST", Ghost(g))
        .step(514983600, -32400, 3600, "AKDT", Ghost(g))
        .step(530704800, -32400, 0, "AKST", Ghost(g))
        .step(544618800, -32400, 3600, "AKDT", Ghost(g))
        .step(562154400, -32400, 0, "AKST", Ghost(g))
        .step(576068400, -32400, 3600, "AKDT", Ghost(g))
        .step(594208800, -32400, 0, "AKST", Ghost(g))
        .step(607518000, -32400, 3600, "AKDT", Ghost(g))
        .step(625658400, -32400, 0, "AKST", Ghost(g))
        .step(638967600, -32400, 3600, "AKDT", Ghost(g))
        .step(657108000, -32400, 0, "AKST", Ghost(g))
        .step(671022000, -32400, 3600, "AKDT", Ghost(g))
        .step(688557600, -32400, 0, "AKST", Ghost(g))
        .step(702471600, -32400, 3600, "AKDT", Ghost(g))
        .step(720007200, -32400, 0, "AKST", Ghost(g))
        .step(733921200, -32400, 3600, "AKDT", Ghost(g))
        .step(752061600, -32400, 0, "AKST", Ghost(g))
        .step(765370800, -32400, 3600, "AKDT", Ghost(g))
        .step(783511200, -32400, 0, "AKST", Ghost(g))
        .step(796820400, -32400, 3600, "AKDT", Ghost(g))
        .step(814960800, -32400, 0, "AKST", Ghost(g))
        .step(828874800, -32400, 3600, "AKDT", Ghost(g))
        .step(846410400, -32400, 0, "AKST", Ghost(g))
        .step(860324400, -32400, 3600, "AKDT", Ghost(g))
        .step(877860000, -32400, 0, "AKST", Ghost(g))
        .step(891774000, -32400, 3600, "AKDT", Ghost(g))
        .step(909309600, -32400, 0, "AKST", Ghost(g))
        .step(923223600, -32400, 3600, "AKDT", Ghost(g))
        .step(941364000, -32400, 0, "AKST", Ghost(g))
        .step(954673200, -32400, 3600, "AKDT", Ghost(g))
        .step(972813600, -32400, 0, "AKST", Ghost(g))
        .step(986122800, -32400, 3600, "AKDT", Ghost(g))
        .step(1004263200, -32400, 0, "AKST", Ghost(g))
        .step(1018177200, -32400, 3600, "AKDT", Ghost(g))
        .step(1035712800, -32400, 0, "AKST", Ghost(g))
        .step(1049626800, -32400, 3600, "AKDT", Ghost(g))
        .step(1067162400, -32400, 0, "AKST", Ghost(g))
        .step(1081076400, -32400, 3600, "AKDT", Ghost(g))
        .step(1099216800, -32400, 0, "AKST", Ghost(g))
        .step(1112526000, -32400, 3600, "AKDT", Ghost(g))
        .step(1130666400, -32400, 0, "AKST", Ghost(g))
        .step(1143975600, -32400, 3600, "AKDT", Ghost(g))
        .step(1162116000, -32400, 0, "AKST", Ghost(g))
        .step(1173610800, -32400, 3600, "AKDT", Ghost(g))
        .step(1194170400, -32400, 0, "AKST", Ghost(g))
        .step(1205060400, -32400, 3600, "AKDT", Ghost(g))
        .step(1225620000, -32400, 0, "AKST", Ghost(g))
        .step(1236510000, -32400, 3600, "AKDT", Ghost(g))
        .step(1257069600, -32400, 0, "AKST", Ghost(g))
        .step(1268564400, -32400, 3600, "AKDT", Ghost(g))
        .step(1289124000, -32400, 0, "AKST", Ghost(g))
        .step(1300014000, -32400, 3600, "AKDT", Ghost(g))
        .step(1320573600, -32400, 0, "AKST", Ghost(g))
        .step(1331463600, -32400, 3600, "AKDT", Ghost(g))
        .step(1352023200, -32400, 0, "AKST", Ghost(g))
        .step(1362913200, -32400, 3600, "AKDT", Ghost(g))
        .step(1383472800, -32400, 0, "AKST", Ghost(g))
        .step(1394362800, -32400, 3600, "AKDT", Ghost(g))
        .step(1414922400, -32400, 0, "AKST", Ghost(g))
        .step(1425812400, -32400, 3600, "AKDT", Ghost(g))
        .step(1446372000, -32400, 0, "AKST", Ghost(g))
        .step(1457866800, -32400, 3600, "AKDT", Ghost(g))
        .step(1478426400, -32400, 0, "AKST", Ghost(g))
        .step(1489316400, -32400, 3600, "AKDT", Ghost(g))
        .step(1509876000, -32400, 0, "AKST", Ghost(g))
        .step(1520766000, -32400, 3600, "AKDT", Ghost(g))
        .step(1541325600, -32400, 0, "AKST", Ghost(g))
        .step(1552215600, -32400, 3600, "AKDT", Ghost(g))
        .step(1572775200, -32400, 0, "AKST", Ghost(g))
        .step(1583665200, -32400, 3600, "AKDT", Ghost(g))
        .step(1604224800, -32400, 0, "AKST", Ghost(g))
        .step(1615719600, -32400, 3600, "AKDT", Ghost(g))
        .step(1636279200, -32400, 0, "AKST", Ghost(g))
        .step(1647169200, -32400, 3600, "AKDT", Ghost(g))
        .step(1667728800, -32400, 0, "AKST", Ghost(g))
        .step(1678618800, -32400, 3600, "AKDT", Ghost(g))
        .step(1699178400, -32400, 0, "AKST", Ghost(g))
        .step(1710068400, -32400, 3600, "AKDT", Ghost(g))
        .step(1730628000, -32400, 0, "AKST", Ghost(g))
        .step(1741518000, -32400, 3600, "AKDT", Ghost(g))
        .step(1762077600, -32400, 0, "AKST", Ghost(g))
        .step(1772967600, -32400, 3600, "AKDT", Ghost(g))
        .step(1793527200, -32400, 0, "AKST", Ghost(g))
        .step(1805022000, -32400, 3600, "AKDT", Ghost(g))
        .step(1825581600, -32400, 0, "AKST", Ghost(g))
        .step(1836471600, -32400, 3600, "AKDT", Ghost(g))
        .step(1857031200, -32400, 0, "AKST", Ghost(g))
        .step(1867921200, -32400, 3600, "AKDT", Ghost(g))
        .step(1888480800, -32400, 0, "AKST", Ghost(g))
        .step(1899370800, -32400, 3600, "AKDT", Ghost(g))
        .step(1919930400, -32400, 0, "AKST", Ghost(g))
        .step(1930820400, -32400, 3600, "AKDT", Ghost(g))
        .step(1951380000, -32400, 0, "AKST", Ghost(g))
        .step(1962874800, -32400, 3600, "AKDT", Ghost(g))
        .step(1983434400, -32400, 0, "AKST", Ghost(g))
        .step(1994324400, -32400, 3600, "AKDT", Ghost(g))
        .step(2014884000, -32400, 0, "AKST", Ghost(g))
        .step(2025774000, -32400, 3600, "AKDT", Ghost(g))
        .step(2046333600, -32400, 0, "AKST", Ghost(g))
        .step(2057223600, -32400, 3600, "AKDT", Ghost(g))
        .step(2077783200, -32400, 0, "AKST", Ghost(g))
        .step(2088673200, -32400, 3600, "AKDT", Ghost(g))
        .step(2109232800, -32400, 0, "AKST", Ghost(g))
        .step(2120122800, -32400, 3600, "AKDT", Ghost(g))
        .step(2140682400, -32400, 0, "AKST", Ghost(g))
        .finish(Ghost(g))
}

/// The zone `America/Yellowknife`.
pub fn yellowknife() -> (r: Tz)
    ensures
        r.wf(),
        r.zone_name() == "America/Yellowknife"@,
        r.table() == tables::america::yellowknife(),
{
    let ghost g = tables::america::yellowknife_rows();
    FixedTimespanSet::begin("America/Yellowknife", -27232, 0, "LMT", Ghost(g))
        .step(-1998663968, -25200, 0, "MST", Ghost(g))
        .step(-1632063600, -25200, 3600, "MDT", Ghost(g))
        .step(-1615132800, -25200, 0, "MST", Ghost(g))
        .step(-1600614000, -25200, 3600, "MDT", Ghost(g))
        .step(-1596816000, -25200, 0, "MST", Ghost(g))
        .step(-1567954800, -25200, 3600, "MDT", Ghost(g))
        .step(-1551628800, -25200, 0, "MST", Ghost(g))
        .step(-1536505200, -25200, 3600, "MDT", Ghost(g))
        .step(-1523203200, -25200, 0, "MST", Ghost(g))
        .step(-1504450800, -25200, 3600, "MDT", Ghost(g))
        .step(-1491753600, -25200, 0, "MST", Ghost(g))
        .step(-1473001200, -25200, 3600, "MDT", Ghost(g))
        .step(-1459699200, -25200, 0, "MST", Ghost(g))
        .step(-880210800, -25200, 3600, "MWT", Ghost(g))
        .step(-769395600, -25200, 3600, "MPT", Ghost(g))
        .step(-765388800, -25200, 0, "MST", Ghost(g))
        .step(-715791600, -25200, 3600, "MDT", Ghost(g))
        .step(-702489600, -25200, 0, "MST", Ghost(g))
        .step(73472400, -25200, 3600, "MDT", Ghost(g))
        .step(89193600, -25200, 0, "MST", Ghost(g))
        .step(104922000, -25200, 3600, "MDT", Ghost(g))
        .step(120643200, -25200, 0, "MST", Ghost(g))
        .step(136371600, -25200, 3600, "MDT", Ghost(g))
        .step(152092800, -25200, 0, "MST", Ghost(g))
        .step(167821200, -25200, 3600, "MDT", Ghost(g))
        .step(183542400, -25200, 0, "MST", Ghost(g))
        .step(199270800, -25200, 3600, "MDT", Ghost(g))
        .step(215596800, -25200, 0, "MST", Ghost(g))
        .step(230720400, -25200, 3600, "MDT", Ghost(g))
        .step(247046400, -25200, 0, "MST", Ghost(g))
        .step(262774800, -25200, 3600, "MDT", Ghost(g))
        .step(278496000, -25200, 0, "MST", Ghost(g))
        .step(294224400, -25200, 3600, "MDT", Ghost(g))
        .step(309945600, -25200, 0, "MST", Ghost(g))
        .step(325674000, -25200, 3600, "MDT", Ghost(g))
        .step(341395200, -25200, 0, "MST", Ghost(g))
        .step(357123600, -25200, 3600, "MDT", Ghost(g))
        .step(372844800, -25200, 0, "MST", Ghost(g))
        .step(388573200, -25200, 3600, "MDT", Ghost(g))
        .step(404899200, -25200, 0, "MST", Ghost(g))
        .step(420022800, -25200, 3600, "MDT", Ghost(g))
        .step(436348800, -25200, 0, "MST", Ghost(g))
        .step(452077200, -25200, 3600, "MDT", Ghost(g))
        .step(467798400, -25200, 0, "MST", Ghost(g))
        .step(483526800, -25200, 3600, "MDT", Ghost(g))
        .step(499248000, -25200, 0, "MST", Ghost(g))
        .step(514976400, -25200, 3600, "MDT", Ghost(g))
        .step(530697600, -25200, 0, "MST", Ghost(g))
        .step(544611600, -25200, 3600, "MDT", Ghost(g))
        .step(562147200, -25200, 0, "MST", Ghost(g))
        .step(576061200, -25200, 3600, "MDT", Ghost(g))
        .step(594201600, -25200, 0, "MST", Ghost(g))
        .step(607510800, -25200, 3600, "MDT", Ghost(g))
        .step(625651200, -25200, 0, "MST", Ghost(g))
        .step(638960400, -25200, 3600, "MDT", Ghost(g))
        .step(657100800, -25200, 0, "MST", Ghost(g))
        .step(671014800, -25200, 3600, "MDT", Ghost(g))
        .step(688550400, -25200, 0, "MST", Ghost(g))
        .step(702464400, -25200, 3600, "MDT", Ghost(g))
        .step(720000000, -25200, 0, "MST", Ghost(g))
        .step(733914000, -25200, 3600, "MDT", Ghost(g))
        .step(752054400, -25200, 0, "MST", Ghost(g))
        .step(765363600, -25200, 3600, "MDT", Ghost(g))
        .step(783504000, -25200, 0, "MST", Ghost(g))
        .step(796813200, -25200, 3600, "MDT", Ghost(g))
        .step(814953600, -25200, 0, "MST", Ghost(g))
        .step(828867600, -25200, 3600, "MDT", Ghost(g))
        .step(846403200, -25200, 0, "MST", Ghost(g))
        .step(860317200, -25200, 3600, "MDT", Ghost(g))
        .step(877852800, -25200, 0, "MST", Ghost(g))
        .step(891766800, -25200, 3600, "MDT", Ghost(g))
        .step(909302400, -25200, 0, "MST", Ghost(g))
        .step(923216400, -25200, 3600, "MDT", Ghost(g))
        .step(941356800, -25200, 0, "MST", Ghost(g))
        .step(954666000, -25200, 3600, "MDT", Ghost(g))
        .step(972806400, -25200, 0, "MST", Ghost(g))
        .step(986115600, -25200, 3600, "MDT", Ghost(g))
        .step(1004256000, -25200, 0, "MST", Ghost(g))
        .step(1018170000, -25200, 3600, "MDT", Ghost(g))
        .step(1035705600, -25200, 0, "MST", Ghost(g))
        .step(1049619600, -25200, 3600, "MDT", Ghost(g))
        .step(1067155200, -25200, 0, "MST", Ghost(g))
        .step(1081069200, -25200, 3600, "MDT", Ghost(g))
        .step(1099209600, -25200, 0, "MST", Ghost(g))
        .step(1112518800, -25200, 3600, "MDT", Ghost(g))
        .step(1130659200, -25200, 0, "MST", Ghost(g))
        .step(1143968400, -25200, 3600, "MDT", Ghost(g))
        .step(1162108800, -25200, 0, "MST", Ghost(g))
        .step(1173603600, -25200, 3600, "MDT", Ghost(g))
        .step(1194163200, -25200, 0, "MST", Ghost(g))
        .step(1205053200, -25200, 3600, "MDT", Ghost(g))
        .step(1225612800, -25200, 0, "MST", Ghost(g))
        .step(1236502800, -25200, 3600, "MDT", Ghost(g))
        .step(1257062400, -25200, 0, "MST", Ghost(g))
        .step(1268557200, -25200, 3600, "MDT", Ghost(g))
        .step(1289116800, -25200, 0, "MST", Ghost(g))
        .step(1300006800, -25200, 3600, "MDT", Ghost(g))
        .step(1320566400, -25200, 0, "MST", Ghost(g))
        .step(1331456400, -25200, 3600, "MDT", Ghost(g))
        .step(1352016000, -25200, 0, "MST", Ghost(g))
        .step(1362906000, -25200, 3600, "MDT", Ghost(g))
        .step(1383465600, -25200, 0, "MST", Ghost(g))
        .step(1394355600, -25200, 3600, "MDT", Ghost(g))
        .step(1414915200, -25200, 0, "MST", Ghost(g))
        .step(1425805200, -25200, 3600, "MDT", Ghost(g))
        .step(1446364800, -25200, 0, "MST", Ghost(g))
        .step(1457859600, -25200, 3600, "MDT", Ghost(g))
        .step(1478419200, -25200, 0, "MST", Ghost(g))
        .step(1489309200, -25200, 3600, "MDT", Ghost(g))
        .step(1509868800, -25200, 0, "MST", Ghost(g))
        .step(1520758800, -25200, 3600, "MDT", Ghost(g))
        .step(1541318400, -25200, 0, "MST", Ghost(g))
        .step(1552208400, -25200, 3600, "MDT", Ghost(g))
        .step(1572768000, -25200, 0, "MST", Ghost(g))
        .step(1583658000, -25200, 3600, "MDT", Ghost(g))
        .step(1604217600, -25200, 0, "MST", Ghost(g))
        .step(1615712400, -25200, 3600, "MDT", Ghost(g))
        .step(1636272000, -25200, 0, "MST", Ghost(g))
        .step(1647162000, -25200, 3600, "MDT", Ghost(g))
        .step(1667721600, -25200, 0, "MST", Ghost(g))
        .step(1678611600, -25200, 3600, "MDT", Ghost(g))
        .step(1699171200, -25200, 0, "MST", Ghost(g))
        .step(1710061200, -25200, 3600, "MDT", Ghost(g))
        .step(1730620800, -25200, 0, "MST", Ghost(g))
        .step(1741510800, -25200, 3600, "MDT", Ghost(g))
        .step(1762070400, -25200, 0, "MST", Ghost(g))
        .step(1772960400, -25200, 3600, "MDT", Ghost(g))
        .step(1793520000, -25200, 0, "MST", Ghost(g))
        .step(1805014800, -25200, 3600, "MDT", Ghost(g))
        .step(1825574400, -25200, 0, "MST", Ghost(g))
        .step(1836464400, -25200, 3600, "MDT", Ghost(g))
        .step(1857024000, -25200, 0, "MST", Ghost(g))
        .step(1867914000, -25200, 3600, "MDT", Ghost(g))
        .step(1888473600, -25200, 0, "MST", Ghost(g))
        .step(1899363600, -25200, 3600, "MDT", Ghost(g))
        .step(1919923200, -25200, 0, "MST", Ghost(g))
        .step(1930813200, -25200, 3600, "MDT", Ghost(g))
        .step(1951372800, -25200, 0, "MST", Ghost(g))
        .step(1962867600, -25200, 3600, "MDT", Ghost(g))
        .step(1983427200, -25200, 0, "MST", Ghost(g))
        .step(1994317200, -25200, 3600, "MDT", Ghost(g))
        .step(2014876800, -25200, 0, "MST", Ghost(g))
        .step(2025766800, -25200, 3600, "MDT", Ghost(g))
        .step(2046326400, -25200, 0, "MST", Ghost(g))
        .step(2057216400, -25200, 3600, "MDT", Ghost(g))
        .step(2077776000, -25200, 0, "MST", Ghost(g))
        .step(2088666000, -25200, 3600, "MDT", Ghost(g))
        .step(2109225600, -25200, 0, "MST", Ghost(g))
        .step(2120115600, -25200, 3600, "MDT", Ghost(g))
        .step(2140675200, -25200, 0, "MST", Ghost(g))
        .finish(Ghost(g))
}

} // verus!
