//! Zones of the United States, under their older names.

use crate::interface::TimeZone;
use crate::timezone_impl::{FixedTimespanSet, Tz};
use crate::timezones::tables;
use vstd::prelude::*;

verus! {

/// The zone `US/Alaska`.
pub fn alaska() -> (r: Tz)
    ensures
        r.wf(),
        r.zone_name() == "US/Alaska"@,
        r.table() == tables::us::alaska(),
{
    let ghost g = tables::us::alaska_rows();
    FixedTimespanSet::begin("US/Alaska", 50424, 0, "LMT", Ghost(g))
        .step(-3225223727, -35976, 0, "LMT", Ghost(g))
        .step(-2188951224, -36000, 0, "AST", Ghost(g))
        .step(-880200000, -36000, 3600, "AWT", Ghost(g))
        .step(-769395600, -36000, 3600, "APT", Ghost(g))
        .step(-765378000, -36000, 0, "AST", Ghost(g))
        .step(-86882400, -36000, 0, "AHST", Ghost(g))
        .step(-21470400, -36000, 3600, "AHDT", Ghost(g))
        .step(-5749200, -36000, 0, "AHST", Ghost(g))
        .step(9979200, -36000, 3600, "AHDT", Ghost(g))
        .step(25700400, -36000, 0, "AHST", Ghost(g))
        .step(41428800, -36000, 3600, "AHDT", Ghost(g))
        .step(57754800, -36000, 0, "AHST", Ghost(g))
        .step(73483200, -36000, 3600, "AHDT", Ghost(g))
        .step(89204400, -36000, 0, "AHST", Ghost(g))
        .step(104932800, -36000, 3600, "AHDT", Ghost(g))
        .step(120654000, -36000, 0, "AHST", Ghost(g))
        .step(126705600, -36000, 3600, "AHDT", Ghost(g))
        .step(152103600, -36000, 0, "AHST", Ghost(g))
        .step(162388800, -36000, 3600, "AHDT", Ghost(g))
        .step(183553200, -36000, 0, "AHST", Ghost(g))
        .step(199281600, -36000, 3600, "AHDT", Ghost(g))
        .step(215607600, -36000, 0, "AHST", Ghost(g))
        .step(230731200, -36000, 3600, "AHDT", Ghost(g))
        .step(247057200, -36000, 0, "AHST", Ghost(g))
        .step(262785600, -36000, 3600, "AHDT", Ghost(g))
        .step(278506800, -36000, 0, "AHST", Ghost(g))
        .step(294235200, -36000, 3600, "AHDT", Ghost(g))
        .step(309956400, -36000, 0, "AHST", Ghost(g))
        .step(325684800, -36000, 3600, "AHDT", Ghost(g))
        .step(341406000, -36000, 0, "AHST", Ghost(g))
        .step(357134400, -36000, 3600, "AHDT", Ghost(g))
        .step(372855600, -36000, 0, "AHST", Ghost(g))
        .step(388584000, -36000, 3600, "AHDT", Ghost(g))
        .step(404910000, -36000, 0, "AHST", Ghost(g))
        .step(420033600, -36000, 3600, "AHDT", Ghost(g))
        .step(436359600, -32400, 0, "YST", Ghost(g))
        .step(439030800, -32400, 0, "AKST", Ghost(g))
        .step(452084400, -32400, 3600, "AKDT", Ghost(g))
        .step(467805600, -32400, 0, "AKST", Ghost(g))
        .step(483534000, -32400, 3600, "AKDT", Ghost(g))
        .step(499255200, -32400, 0, "AKST", Ghost(g))
        .step(514983600, -32400, 3600, "AKDT", Ghost(g))
        .step(530704800, -32400, 0, "AKST", Ghost(g))
        .step(544618800, -32400, 3600, "AKDT", Ghost(g))
        .step(562154400, -32400, 0, "AKST", Ghost(g))
        .step(576068400, -32400, 3600, "AKDT", Ghost(g))
        .step(594208800, -32400, 0, "AKST", Ghost(g))
        .step(607518000, -32400, 3600, "AKDT", Ghost(g))
        .step(625658400, -32400, 0, "AKST", Ghost(g))
        .step(638967600, -32400, 3600, "AKDT", Ghost(g))
        .step(657108000, -32400, 0, "AKST", Ghost(g))
        .step(671022000, -32400, 3600, "AKDT", Ghost(g))
        .step(688557600, -32400, 0, "AKST", Ghost(g))
        .step(702471600, -32400, 3600, "AKDT", Ghost(g))
        .step(720007200, -32400, 0, "AKST", Ghost(g))
        .step(733921200, -32400, 3600, "AKDT", Ghost(g))
        .step(752061600, -32400, 0, "AKST", Ghost(g))
        .step(765370800, -32400, 3600, "AKDT", Ghost(g))
        .step(783511200, -32400, 0, "AKST", Ghost(g))
        .step(796820400, -32400, 3600, "AKDT", Ghost(g))
        .step(814960800, -32400, 0, "AKST", Ghost(g))
        .step(828874800, -32400, 3600, "AKDT", Ghost(g))
        .step(846410400, -32400, 0, "AKST", Ghost(g))
        .step(860324400, -32400, 3600, "AKDT", Ghost(g))
        .step(877860000, -32400, 0, "AKST", Ghost(g))
        .step(891774000, -32400, 3600, "AKDT", Ghost(g))
        .step(909309600, -32400, 0, "AKST", Ghost(g))
        .step(923223600, -32400, 3600, "AKDT", Ghost(g))
        .step(941364000, -32400, 0, "AKST", Ghost(g))
        .step(954673200, -32400, 3600, "AKDT", Ghost(g))
        .step(972813600, -32400, 0, "AKST", Ghost(g))
        .step(986122800, -32400, 3600, "AKDT", Ghost(g))
        .step(1004263200, -32400, 0, "AKST", Ghost(g))
        .step(1018177200, -32400, 3600, "AKDT", Ghost(g))
        .step(1035712800, -32400, 0, "AKST", Ghost(g))
        .step(1049626800, -32400, 3600, "AKDT", Ghost(g))
        .step(1067162400, -32400, 0, "AKST", Ghost(g))
        .step(1081076400, -32400, 3600, "AKDT", Ghost(g))
        .step(1099216800, -32400, 0, "AKST", Ghost(g))
        .step(1112526000, -32400, 3600, "AKDT", Ghost(g))
        .step(1130666400, -32400, 0, "AKST", Ghost(g))
        .step(1143975600, -32400, 3600, "AKDT", Ghost(g))
        .step(1162116000, -32400, 0, "AKST", Ghost(g))
        .step(1173610800, -32400, 3600, "AKDT", Ghost(g))
        .step(1194170400, -32400, 0, "AKST", Ghost(g))
        .step(1205060400, -32400, 3600, "AKDT", Ghost(g))
        .step(1225620000, -32400, 0, "AKST", Ghost(g))
        .step(1236510000, -32400, 3600, "AKDT", Ghost(g))
        .step(1257069600, -32400, 0, "AKST", Ghost(g))
        .step(1268564400, -32400, 3600, "AKDT", Ghost(g))
        .step(1289124000, -32400, 0, "AKST", Ghost(g))
        .step(1300014000, -32400, 3600, "AKDT", Ghost(g))
        .step(1320573600, -32400, 0, "AKST", Ghost(g))
        .step(1331463600, -32400, 3600, "AKDT", Ghost(g))
        .step(1352023200, -32400, 0, "AKST", Ghost(g))
        .step(1362913200, -32400, 3600, "AKDT", Ghost(g))
        .step(1383472800, -32400, 0, "AKST", Ghost(g))
        .step(1394362800, -32400, 3600, "AKDT", Ghost(g))
        .step(1414922400, -32400, 0, "AKST", Ghost(g))
        .step(1425812400, -32400, 3600, "AKDT", Ghost(g))
        .step(1446372000, -32400, 0, "AKST", Ghost(g))
        .step(1457866800, -32400, 3600, "AKDT", Ghost(g))
        .step(1478426400, -32400, 0, "AKST", Ghost(g))
        .step(1489316400, -32400, 3600, "AKDT", Ghost(g))
        .step(1509876000, -32400, 0, "AKST", Ghost(g))
        .step(1520766000, -32400, 3600, "AKDT", Ghost(g))
        .step(1541325600, -32400, 0, "AKST", Ghost(g))
        .step(1552215600, -32400, 3600, "AKDT", Ghost(g))
        .step(1572775200, -32400, 0, "AKST", Ghost(g))
        .step(1583665200, -32400, 3600, "AKDT", Ghost(g))
        .step(1604224800, -32400, 0, "AKST", Ghost(g))
        .step(1615719600, -32400, 3600, "AKDT", Ghost(g))
        .step(1636279200, -32400, 0, "AKST", Ghost(g))
        .step(1647169200, -32400, 3600, "AKDT", Ghost(g))
        .step(1667728800, -32400, 0, "AKST", Ghost(g))
        .step(1678618800, -32400, 3600, "AKDT", Ghost(g))
        .step(1699178400, -32400, 0, "AKST", Ghost(g))
        .step(1710068400, -32400, 3600, "AKDT", Ghost(g))
        .step(1730628000, -32400, 0, "AKST", Ghost(g))
        .step(1741518000, -32400, 3600, "AKDT", Ghost(g))
        .step(1762077600, -32400, 0, "AKST", Ghost(g))
        .step(1772967600, -32400, 3600, "AKDT", Ghost(g))
        .step(1793527200, -32400, 0, "AKST", Ghost(g))
        .step(1805022000, -32400, 3600, "AKDT", Ghost(g))
        .step(1825581600, -32400, 0, "AKST", Ghost(g))
        .step(1836471600, -32400, 3600, "AKDT", Ghost(g))
        .step(1857031200, -32400, 0, "AKST", Ghost(g))
        .step(1867921200, -32400, 3600, "AKDT", Ghost(g))
        .step(1888480800, -32400, 0, "AKST", Ghost(g))
        .step(1899370800, -32400, 3600, "AKDT", Ghost(g))
        .step(1919930400, -32400, 0, "AKST", Ghost(g))
        .step(1930820400, -32400, 3600, "AKDT", Ghost(g))
        .step(1951380000, -32400, 0, "AKST", Ghost(g))
        .step(1962874800, -32400, 3600, "AKDT", Ghost(g))
        .step(1983434400, -32400, 0, "AKST", Ghost(g))
        .step(1994324400, -32400, 3600, "AKDT", Ghost(g))
        .step(2014884000, -32400, 0, "AKST", Ghost(g))
        .step(2025774000, -32400, 3600, "AKDT", Ghost(g))
        .step(2046333600, -32400, 0, "AKST", Ghost(g))
        .step(2057223600, -32400, 3600, "AKDT", Ghost(g))
        .step(2077783200, -32400, 0, "AKST", Ghost(g))
        .step(2088673200, -32400, 3600, "AKDT", Ghost(g))
        .step(2109232800, -32400, 0, "AKST", Ghost(g))
        .step(2120122800, -32400, 3600, "AKDT", Ghost(g))
        .step(2140682400, -32400, 0, "AKST", Ghost(g))
        .finish(Ghost(g))
}

/// The zone `US/Aleutian`.
pub fn aleutian() -> (r: Tz)
    ensures
        r.wf(),
        r.zone_name() == "US/Aleutian"@,
        r.table() == tables::us::aleutian(),
{
    let ghost g = tables::us::aleutian_rows();
    FixedTimespanSet::begin("US/Aleutian", 44002, 0, "LMT", Ghost(g))
        .step(-3225223727, -42398, 0, "LMT", Ghost(g))
        .step(-2188944802, -39600, 0, "NST", Ghost(g))
        .step(-880196400, -39600, 3600, "NWT", Ghost(g))
        .step(-769395600, -39600, 3600, "NPT", Ghost(g))
        .step(-765374400, -39600, 0, "NST", Ghost(g))
        .step(-86878800, -39600, 0, "BST", Ghost(g))
        .step(-21466800, -39600, 3600, "BDT", Ghost(g))
        .step(-5745600, -39600, 0, "BST", Ghost(g))
        .step(9982800, -39600, 3600, "BDT", Ghost(g))
        .step(25704000, -39600, 0, "BST", Ghost(g))
        .step(41432400, -39600, 3600, "BDT", Ghost(g))
        .step(57758400, -39600, 0, "BST", Ghost(g))
        .step(73486800, -39600, 3600, "BDT", Ghost(g))
        .step(89208000, -39600, 0, "BST", Ghost(g))
        .step(104936400, -39600, 3600, "BDT", Ghost(g))
        .step(120657600, -39600, 0, "BST", Ghost(g))
        .step(126709200, -39600, 3600, "BDT", Ghost(g))
        .step(152107200, -39600, 0, "BST", Ghost(g))
        .step(162392400, -39600, 3600, "BDT", Ghost(g))
        .step(183556800, -39600, 0, "BST", Ghost(g))
        .step(199285200, -39600, 3600, "BDT", Ghost(g))
        .step(215611200, -39600, 0, "BST", Ghost(g))
        .step(230734800, -39600, 3600, "BDT", Ghost(g))
        .step(247060800, -39600, 0, "BST", Ghost(g))
        .step(262789200, -39600, 3600, "BDT", Ghost(g))
        .step(278510400, -39600, 0, "BST", Ghost(g))
        .step(294238800, -39600, 3600, "BDT", Ghost(g))
        .step(309960000, -39600, 0, "BST", Ghost(g))
        .step(325688400, -39600, 3600, "BDT", Ghost(g))
        .step(341409600, -39600, 0, "BST", Ghost(g))
        .step(357138000, -39600, 3600, "BDT", Ghost(g))
        .step(372859200, -39600, 0, "BST", Ghost(g))
        .step(388587600, -39600, 3600, "BDT", Ghost(g))
        .step(404913600, -39600, 0, "BST", Ghost(g))
        .step(420037200, -39600, 3600, "BDT", Ghost(g))
        .step(436363200, -36000, 0, "AHST", Ghost(g))
        .step(439034400, -36000, 0, "HST", Ghost(g))
        .step(452088000, -36000, 3600, "HDT", Ghost(g))
        .step(467809200, -36000, 0, "HST", Ghost(g))
        .step(483537600, -36000, 3600, "HDT", Ghost(g))
        .step(499258800, -36000, 0, "HST", Ghost(g))
        .step(514987200, -36000, 3600, "HDT", Ghost(g))
        .step(530708400, -36000, 0, "HST", Ghost(g))
        .step(544622400, -36000, 3600, "HDT", Ghost(g))
        .step(562158000, -36000, 0, "HST", Ghost(g))
        .step(576072000, -36000, 3600, "HDT", Ghost(g))
        .step(594212400, -36000, 0, "HST", Ghost(g))
        .step(607521600, -36000, 3600, "HDT", Ghost(g))
        .step(625662000, -36000, 0, "HST", Ghost(g))
        .step(638971200, -36000, 3600, "HDT", Ghost(g))
        .step(657111600, -36000, 0, "HST", Ghost(g))
        .step(671025600, -36000, 3600, "HDT", Ghost(g))
        .step(688561200, -36000, 0, "HST", Ghost(g))
        .step(702475200, -36000, 3600, "HDT", Ghost(g))
        .step(720010800, -36000, 0, "HST", Ghost(g))
        .step(733924800, -36000, 3600, "HDT", Ghost(g))
        .step(752065200, -36000, 0, "HST", Ghost(g))
        .step(765374400, -36000, 3600, "HDT", Ghost(g))
        .step(783514800, -36000, 0, "HST", Ghost(g))
        .step(796824000, -36000, 3600, "HDT", Ghost(g))
        .step(814964400, -36000, 0, "HST", Ghost(g))
        .step(828878400, -36000, 3600, "HDT", Ghost(g))
        .step(846414000, -36000, 0, "HST", Ghost(g))
        .step(860328000, -36000, 3600, "HDT", Ghost(g))
        .step(877863600, -36000, 0, "HST", Ghost(g))
        .step(891777600, -36000, 3600, "HDT", Ghost(g))
        .step(909313200, -36000, 0, "HST", Ghost(g))
        .step(923227200, -36000, 3600, "HDT", Ghost(g))
        .step(941367600, -36000, 0, "HST", Ghost(g))
        .step(954676800, -36000, 3600, "HDT", Ghost(g))
        .step(972817200, -36000, 0, "HST", Ghost(g))
        .step(986126400, -36000, 3600, "HDT", Ghost(g))
        .step(1004266800, -36000, 0, "HST", Ghost(g))
        .step(1018180800, -36000, 3600, "HDT", Ghost(g))
        .step(1035716400, -36000, 0, "HST", Ghost(g))
        .step(1049630400, -36000, 3600, "HDT", Ghost(g))
        .step(1067166000, -36000, 0, "HST", Ghost(g))
        .step(1081080000, -36000, 3600, "HDT", Ghost(g))
        .step(1099220400, -36000, 0, "HST", Ghost(g))
        .step(1112529600, -36000, 3600, "HDT", Ghost(g))
        .step(1130670000, -36000, 0, "HST", Ghost(g))
        .step(1143979200, -36000, 3600, "HDT", Ghost(g))
        .step(1162119600, -36000, 0, "HST", Ghost(g))
        .step(1173614400, -36000, 3600, "HDT", Ghost(g))
        .step(1194174000, -36000, 0, "HST", Ghost(g))
        .step(1205064000, -36000, 3600, "HDT", Ghost(g))
        .step(1225623600, -36000, 0, "HST", Ghost(g))
        .step(1236513600, -36000, 3600, "HDT", Ghost(g))
        .step(1257073200, -36000, 0, "HST", Ghost(g))
        .step(1268568000, -36000, 3600, "HDT", Ghost(g))
        .step(1289127600, -36000, 0, "HST", Ghost(g))
        .step(1300017600, -36000, 3600, "HDT", Ghost(g))
        .step(1320577200, -36000, 0, "HST", Ghost(g))
        .step(1331467200, -36000, 3600, "HDT", Ghost(g))
        .step(1352026800, -36000, 0, "HST", Ghost(g))
        .step(1362916800, -36000, 3600, "HDT", Ghost(g))
        .step(1383476400, -36000, 0, "HST", Ghost(g))
        .step(1394366400, -36000, 3600, "HDT", Ghost(g))
        .step(1414926000, -36000, 0, "HST", Ghost(g))
        .step(1425816000, -36000, 3600, "HDT", Ghost(g))
        .step(1446375600, -36000, 0, "HST", Ghost(g))
        .step(1457870400, -36000, 3600, "HDT", Ghost(g))
        .step(1478430000, -36000, 0, "HST", Ghost(g))
        .step(1489320000, -36000, 3600, "HDT", Ghost(g))
        .step(1509879600, -36000, 0, "HST", Ghost(g))
        .step(1520769600, -36000, 3600, "HDT", Ghost(g))
        .step(1541329200, -36000, 0, "HST", Ghost(g))
        .step(1552219200, -36000, 3600, "HDT", Ghost(g))
        .step(1572778800, -36000, 0, "HST", Ghost(g))
        .step(1583668800, -36000, 3600, "HDT", Ghost(g))
        .step(1604228400, -36000, 0, "HST", Ghost(g))
        .step(1615723200, -36000, 3600, "HDT", Ghost(g))
        .step(1636282800, -36000, 0, "HST", Ghost(g))
        .step(1647172800, -36000, 3600, "HDT", Ghost(g))
        .step(1667732400, -36000, 0, "HST", Ghost(g))
        .step(1678622400, -36000, 3600, "HDT", Ghost(g))
        .step(1699182000, -36000, 0, "HST", Ghost(g))
        .step(1710072000, -36000, 3600, "HDT", Ghost(g))
        .step(1730631600, -36000, 0, "HST", Ghost(g))
        .step(1741521600, -36000, 3600, "HDT", Ghost(g))
        .step(1762081200, -36000, 0, "HST", Ghost(g))
        .step(1772971200, -36000, 3600, "HDT", Ghost(g))
        .step(1793530800, -36000, 0, "HST", Ghost(g))
        .step(1805025600, -36000, 3600, "HDT", Ghost(g))
        .step(1825585200, -36000, 0, "HST", Ghost(g))
        .step(1836475200, -36000, 3600, "HDT", Ghost(g))
        .step(1857034800, -36000, 0, "HST", Ghost(g))
        .step(1867924800, -36000, 3600, "HDT", Ghost(g))
        .step(1888484400, -36000, 0, "HST", Ghost(g))
        .step(1899374400, -36000, 3600, "HDT", Ghost(g))
        .step(1919934000, -36000, 0, "HST", Ghost(g))
        .step(1930824000, -36000, 3600, "HDT", Ghost(g))
        .step(1951383600, -36000, 0, "HST", Ghost(g))
        .step(1962878400, -36000, 3600, "HDT", Ghost(g))
        .step(1983438000, -36000, 0, "HST", Ghost(g))
        .step(1994328000, -36000, 3600, "HDT", Ghost(g))
        .step(2014887600, -36000, 0, "HST", Ghost(g))
        .step(2025777600, -36000, 3600, "HDT", Ghost(g))
        .step(2046337200, -36000, 0, "HST", Ghost(g))
        .step(2057227200, -36000, 3600, "HDT", Ghost(g))
        .step(2077786800, -36000, 0, "HST", Ghost(g))
        .step(2088676800, -36000, 3600, "HDT", Ghost(g))
        .step(2109236400, -36000, 0, "HST", Ghost(g))
        .step(2120126400, -36000, 3600, "HDT", Ghost(g))
        .step(2140686000, -36000, 0, "HST", Ghost(g))
        .finish(Ghost(g))
}

/// The zone `US/Arizona`.
pub fn arizona() -> (r: Tz)
    ensures
        r.wf(),
        r.zone_name() == "US/Arizona"@,
        r.table() == tables::us::arizona(),
{
    let ghost g = tables::us::arizona_rows();
    FixedTimespanSet::begin("US/Arizona", -26898, 0, "LMT", Ghost(g))
        .step(-2717643600, -25200, 0, "MST", Ghost(g))
        .step(-1633273200, -25200, 3600, "MDT", Ghost(g))
        .step(-1615132800, -25200, 0, "MST", Ghost(g))
        .step(-1601823600, -25200, 3600, "MDT", Ghost(g))
        .step(-1583683200, -25200, 0, "MST", Ghost(g))
        .step(-880210800, -25200, 3600, "MWT", Ghost(g))
        .step(-820519140, -25200, 0, "MST", Ghost(g))
        .step(-812653140, -25200, 3600, "MWT", Ghost(g))
        .step(-796845540, -25200, 0, "MST", Ghost(g))
        .step(-84380400, -25200, 3600, "MDT", Ghost(g))
        .step(-68659200, -25200, 0, "MST", Ghost(g))
        .finish(Ghost(g))
}

/// The zone `US/Central`.
pub fn central() -> (r: Tz)
    ensures
        r.wf(),
        r.zone_name() == "US/Central"@,
        r.table() == tables::us::central(),
{
    let ghost g = tables::us::central_rows();
    FixedTimespanSet::begin("US/Central", -21036, 0, "LMT", Ghost(g))
        .step(-2717647200, -21600, 0, "CST", Ghost(g))
        .step(-1633276800, -21600, 3600, "CDT", Ghost(g))
        .step(-1615136400, -21600, 0, "CST", Ghost(g))
        .step(-1601827200, -21600, 3600, "CDT", Ghost(g))
        .step(-1583686800, -21600, 0, "CST", Ghost(g))
        .step(-1563724800, -21600, 3600, "CDT", Ghost(g))
        .step(-1551632400, -21600, 0, "CST", Ghost(g))
        .step(-1538928000, -21600, 3600, "CDT", Ghost(g))
        .step(-1520182800, -21600, 0, "CST", Ghost(g))
        .step(-1504454400, -21600, 3600, "CDT", Ghost(g))
        .step(-1491757200, -21600, 0, "CST", Ghost(g))
        .step(-1473004800, -21600, 3600, "CDT", Ghost(g))
        .step(-1459702800, -21600, 0, "CST", Ghost(g))
        .step(-1441555200, -21600, 3600, "CDT", Ghost(g))
        .step(-1428253200, -21600, 0, "CST", Ghost(g))
        .step(-1410105600, -21600, 3600, "CDT", Ghost(g))
        .step(-1396803600, -21600, 0, "CST", Ghost(g))
        .step(-1378656000, -21600, 3600, "CDT", Ghost(g))
        .step(-1365354000, -21600, 0, "CST", Ghost(g))
        .step(-1347206400, -21600, 3600, "CDT", Ghost(g))
        .step(-1333904400, -21600, 0, "CST", Ghost(g))
        .step(-1315152000, -21600, 3600, "CDT", Ghost(g))
        .step(-1301850000, -21600, 0, "CST", Ghost(g))
        .step(-1283702400, -21600, 3600, "CDT", Ghost(g))
        .step(-1270400400, -21600, 0, "CST", Ghost(g))
        .step(-1252252800, -21600, 3600, "CDT", Ghost(g))
        .step(-1238950800, -21600, 0, "CST", Ghost(g))
        .step(-1220803200, -21600, 3600, "CDT", Ghost(g))
        .step(-1207501200, -21600, 0, "CST", Ghost(g))
        .step(-1189353600, -21600, 3600, "CDT", Ghost(g))
        .step(-1176051600, -21600, 0, "CST", Ghost(g))
        .step(-1157299200, -21600, 3600, "CDT", Ghost(g))
        .step(-1144602000, -21600, 0, "CST", Ghost(g))
        .step(-1125849600, -21600, 3600, "CDT", Ghost(g))
        .step(-1112547600, -21600, 0, "CST", Ghost(g))
        .step(-1094400000, -21600, 3600, "CDT", Ghost(g))
        .step(-1081098000, -21600, 0, "CST", Ghost(g))
        .step(-1067788800, -18000, 0, "EST", Ghost(g))
        .step(-1045414800, -21600, 0, "CST", Ghost(g))
        .step(-1031500800, -21600, 3600, "CDT", Ghost(g))
        .step(-1018198800, -21600, 0, "CST", Ghost(g))
        .step(-1000051200, -21600, 3600, "CDT", Ghost(g))
        .step(-986749200, -21600, 0, "CST", Ghost(g))
        .step(-967996800, -21600, 3600, "CDT", Ghost(g))
        .step(-955299600, -21600, 0, "CST", Ghost(g))
        .step(-936547200, -21600, 3600, "CDT", Ghost(g))
        .step(-923245200, -21600, 0, "CST", Ghost(g))
        .step(-905097600, -21600, 3600, "CDT", Ghost(g))
        .step(-891795600, -21600, 0, "CST", Ghost(g))
        .step(-880214400, -21600, 3600, "CWT", Ghost(g))
        .step(-769395600, -21600, 3600, "CPT", Ghost(g))
        .step(-765392400, -21600, 0, "CST", Ghost(g))
        .step(-747244800, -21600, 3600, "CDT", Ghost(g))
        .step(-733942800, -21600, 0, "CST", Ghost(g))
        .step(-715795200, -21600, 3600, "CDT", Ghost(g))
        .step(-702493200, -21600, 0, "CST", Ghost(g))
        .step(-684345600, -21600, 3600, "CDT", Ghost(g))
        .step(-671043600, -21600, 0, "CST", Ghost(g))
        .step(-652896000, -21600, 3600, "CDT", Ghost(g))
        .step(-639594000, -21600, 0, "CST", Ghost(g))
        .step(-620841600, -21600, 3600, "CDT", Ghost(g))
        .step(-608144400, -21600, 0, "CST", Ghost(g))
        .step(-589392000, -21600, 3600, "CDT", Ghost(g))
        .step(-576090000, -21600, 0, "CST", Ghost(g))
        .step(-557942400, -21600, 3600, "CDT", Ghost(g))
        .step(-544640400, -21600, 0, "CST", Ghost(g))
        .step(-526492800, -21600, 3600, "CDT", Ghost(g))
        .step(-513190800, -21600, 0, "CST", Ghost(g))
        .step(-495043200, -21600, 3600, "CDT", Ghost(g))
        .step(-481741200, -21600, 0, "CST", Ghost(g))
        .step(-463593600, -21600, 3600, "CDT", Ghost(g))
        .step(-447267600, -21600, 0, "CST", Ghost(g))
        .step(-431539200, -21600, 3600, "CDT", Ghost(g))
        .step(-415818000, -21600, 0, "CST", Ghost(g))
        .step(-400089600, -21600, 3600, "CDT", Ghost(g))
        .step(-384368400, -21600, 0, "CST", Ghost(g))
        .step(-368640000, -21600, 3600, "CDT", Ghost(g))
        .step(-352918800, -21600, 0, "CST", Ghost(g))
        .step(-337190400, -21600, 3600, "CDT", Ghost(g))
        .step(-321469200, -21600, 0, "CST", Ghost(g))
        .step(-305740800, -21600, 3600, "CDT", Ghost(g))
        .step(-289414800, -21600, 0, "CST", Ghost(g))
        .step(-273686400, -21600, 3600, "CDT", Ghost(g))
        .step(-257965200, -21600, 0, "CST", Ghost(g))
        .step(-242236800, -21600, 3600, "CDT", Ghost(g))
        .step(-226515600, -21600, 0, "CST", Ghost(g))
        .step(-210787200, -21600, 3600, "CDT", Ghost(g))
        .step(-195066000, -21600, 0, "CST", Ghost(g))
        .step(-179337600, -21600, 3600, "CDT", Ghost(g))
        .step(-163616400, -21600, 0, "CST", Ghost(g))
        .step(-147888000, -21600, 3600, "CDT", Ghost(g))
        .step(-131562000, -21600, 0, "CST", Ghost(g))
        .step(-116438400, -21600, 3600, "CDT", Ghost(g))
        .step(-100112400, -21600, 0, "CST", Ghost(g))
        .step(-84384000, -21600, 3600, "CDT", Ghost(g))
        .step(-68662800, -21600, 0, "CST", Ghost(g))
        .step(-52934400, -21600, 3600, "CDT", Ghost(g))
        .step(-37213200, -21600, 0, "CST", Ghost(g))
        .step(-21484800, -21600, 3600, "CDT", Ghost(g))
        .step(-5763600, -21600, 0, "CST", Ghost(g))
        .step(9964800, -21600, 3600, "CDT", Ghost(g))
        .step(25686000, -21600, 0, "CST", Ghost(g))
        .step(41414400, -21600, 3600, "CDT", Ghost(g))
        .step(57740400, -21600, 0, "CST", Ghost(g))
        .step(73468800, -21600, 3600, "CDT", Ghost(g))
        .step(89190000, -21600, 0, "CST", Ghost(g))
        .step(104918400, -21600, 3600, "CDT", Ghost(g))
        .step(120639600, -21600, 0, "CST", Ghost(g))
        .step(126691200, -21600, 3600, "CDT", Ghost(g))
        .step(152089200, -21600, 0, "CST", Ghost(g))
        .step(162374400, -21600, 3600, "CDT", Ghost(g))
        .step(183538800, -21600, 0, "CST", Ghost(g))
        .step(199267200, -21600, 3600, "CDT", Ghost(g))
        .step(215593200, -21600, 0, "CST", Ghost(g))
        .step(230716800, -21600, 3600, "CDT", Ghost(g))
        .step(247042800, -21600, 0, "CST", Ghost(g))
        .step(262771200, -21600, 3600, "CDT", Ghost(g))
        .step(278492400, -21600, 0, "CST", Ghost(g))
        .step(294220800, -21600, 3600, "CDT", Ghost(g))
        .step(309942000, -21600, 0, "CST", Ghost(g))
        .step(325670400, -21600, 3600, "CDT", Ghost(g))
        .step(341391600, -21600, 0, "CST", Ghost(g))
        .step(357120000, -21600, 3600, "CDT", Ghost(g))
        .step(372841200, -21600, 0, "CST", Ghost(g))
        .step(388569600, -21600, 3600, "CDT", Ghost(g))
        .step(404895600, -21600, 0, "CST", Ghost(g))
        .step(420019200, -21600, 3600, "CDT", Ghost(g))
        .step(436345200, -21600, 0, "CST", Ghost(g))
        .step(452073600, -21600, 3600, "CDT", Ghost(g))
        .step(467794800, -21600, 0, "CST", Ghost(g))
        .step(483523200, -21600, 3600, "CDT", Ghost(g))
        .step(499244400, -21600, 0, "CST", Ghost(g))
        .step(514972800, -21600, 3600, "CDT", Ghost(g))
        .step(530694000, -21600, 0, "CST", Ghost(g))
        .step(544608000, -21600, 3600, "CDT", Ghost(g))
        .step(562143600, -21600, 0, "CST", Ghost(g))
        .step(576057600, -21600, 3600, "CDT", Ghost(g))
        .step(594198000, -21600, 0, "CST", Ghost(g))
        .step(607507200, -21600, 3600, "CDT", Ghost(g))
        .step(625647600, -21600, 0, "CST", Ghost(g))
        .step(638956800, -21600, 3600, "CDT", Ghost(g))
        .step(657097200, -21600, 0, "CST", Ghost(g))
        .step(671011200, -21600, 3600, "CDT", Ghost(g))
        .step(688546800, -21600, 0, "CST", Ghost(g))
        .step(702460800, -21600, 3600, "CDT", Ghost(g))
        .step(719996400, -21600, 0, "CST", Ghost(g))
        .step(733910400, -21600, 3600, "CDT", Ghost(g))
        .step(752050800, -21600, 0, "CST", Ghost(g))
        .step(765360000, -21600, 3600, "CDT", Ghost(g))
        .step(783500400, -21600, 0, "CST", Ghost(g))
        .step(796809600, -21600, 3600, "CDT", Ghost(g))
        .step(814950000, -21600, 0, "CST", Ghost(g))
        .step(828864000, -21600, 3600, "CDT", Ghost(g))
        .step(846399600, -21600, 0, "CST", Ghost(g))
        .step(860313600, -21600, 3600, "CDT", Ghost(g))
        .step(877849200, -21600, 0, "CST", Ghost(g))
        .step(891763200, -21600, 3600, "CDT", Ghost(g))
        .step(909298800, -21600, 0, "CST", Ghost(g))
        .step(923212800, -21600, 3600, "CDT", Ghost(g))
        .step(941353200, -21600, 0, "CST", Ghost(g))
        .step(954662400, -21600, 3600, "CDT", Ghost(g))
        .step(972802800, -21600, 0, "CST", Ghost(g))
        .step(986112000, -21600, 3600, "CDT", Ghost(g))
        .step(1004252400, -21600, 0, "CST", Ghost(g))
        .step(1018166400, -21600, 3600, "CDT", Ghost(g))
        .step(1035702000, -21600, 0, "CST", Ghost(g))
        .step(1049616000, -21600, 3600, "CDT", Ghost(g))
        .step(1067151600, -21600, 0, "CST", Ghost(g))
        .step(1081065600, -21600, 3600, "CDT", Ghost(g))
        .step(1099206000, -21600, 0, "CST", Ghost(g))
        .step(1112515200, -21600, 3600, "CDT", Ghost(g))
        .step(1130655600, -21600, 0, "CST", Ghost(g))
        .step(1143964800, -21600, 3600, "CDT", Ghost(g))
        .step(1162105200, -21600, 0, "CST", Ghost(g))
        .step(1173600000, -21600, 3600, "CDT", Ghost(g))
        .step(1194159600, -21600, 0, "CST", Ghost(g))
        .step(1205049600, -21600, 3600, "CDT", Ghost(g))
        .step(1225609200, -21600, 0, "CST", Ghost(g))
        .step(1236499200, -21600, 3600, "CDT", Ghost(g))
        .step(1257058800, -21600, 0, "CST", Ghost(g))
        .step(1268553600, -21600, 3600, "CDT", Ghost(g))
        .step(1289113200, -21600, 0, "CST", Ghost(g))
        .step(1300003200, -21600, 3600, "CDT", Ghost(g))
        .step(1320562800, -21600, 0, "CST", Ghost(g))
        .step(1331452800, -21600, 3600, "CDT", Ghost(g))
        .step(1352012400, -21600, 0, "CST", Ghost(g))
        .step(1362902400, -21600, 3600, "CDT", Ghost(g))
        .step(1383462000, -21600, 0, "CST", Ghost(g))
        .step(1394352000, -21600, 3600, "CDT", Ghost(g))
        .step(1414911600, -21600, 0, "CST", Ghost(g))
        .step(1425801600, -21600, 3600, "CDT", Ghost(g))
        .step(1446361200, -21600, 0, "CST", Ghost(g))
        .step(1457856000, -21600, 3600, "CDT", Ghost(g))
        .step(1478415600, -21600, 0, "CST", Ghost(g))
        .step(1489305600, -21600, 3600, "CDT", Ghost(g))
        .step(1509865200, -21600, 0, "CST", Ghost(g))
        .step(1520755200, -21600, 3600, "CDT", Ghost(g))
        .step(1541314800, -21600, 0, "CST", Ghost(g))
        .step(1552204800, -21600, 3600, "CDT", Ghost(g))
        .step(1572764400, -21600, 0, "CST", Ghost(g))
        .step(1583654400, -21600, 3600, "CDT", Ghost(g))
        .step(1604214000, -21600, 0, "CST", Ghost(g))
        .step(1615708800, -21600, 3600, "CDT", Ghost(g))
        .step(1636268400, -21600, 0, "CST", Ghost(g))
        .step(1647158400, -21600, 3600, "CDT", Ghost(g))
        .step(1667718000, -21600, 0, "CST", Ghost(g))
        .step(1678608000, -21600, 3600, "CDT", Ghost(g))
        .step(1699167600, -21600, 0, "CST", Ghost(g))
        .step(1710057600, -21600, 3600, "CDT", Ghost(g))
        .step(1730617200, -21600, 0, "CST", Ghost(g))
        .step(1741507200, -21600, 3600, "CDT", Ghost(g))
        .step(1762066800, -21600, 0, "CST", Ghost(g))
        .step(1772956800, -21600, 3600, "CDT", Ghost(g))
        .step(1793516400, -21600, 0, "CST", Ghost(g))
        .step(1805011200, -21600, 3600, "CDT", Ghost(g))
        .step(1825570800, -21600, 0, "CST", Ghost(g))
        .step(1836460800, -21600, 3600, "CDT", Ghost(g))
        .step(1857020400, -21600, 0, "CST", Ghost(g))
        .step(1867910400, -21600, 3600, "CDT", Ghost(g))
        .step(1888470000, -21600, 0, "CST", Ghost(g))
        .step(1899360000, -21600, 3600, "CDT", Ghost(g))
        .step(1919919600, -21600, 0, "CST", Ghost(g))
        .step(1930809600, -21600, 3600, "CDT", Ghost(g))
        .step(1951369200, -21600, 0, "CST", Ghost(g))
        .step(1962864000, -21600, 3600, "CDT", Ghost(g))
        .step(1983423600, -21600, 0, "CST", Ghost(g))
        .step(1994313600, -21600, 3600, "CDT", Ghost(g))
        .step(2014873200, -21600, 0, "CST", Ghost(g))
        .step(2025763200, -21600, 3600, "CDT", Ghost(g))
        .step(2046322800, -21600, 0, "CST", Ghost(g))
        .step(2057212800, -21600, 3600, "CDT", Ghost(g))
        .step(2077772400, -21600, 0, "CST", Ghost(g))
        .step(2088662400, -21600, 3600, "CDT", Ghost(g))
        .step(2109222000, -21600, 0, "CST", Ghost(g))
        .step(2120112000, -21600, 3600, "CDT", Ghost(g))
        .step(2140671600, -21600, 0, "CST", Ghost(g))
        .finish(Ghost(g))
}

/// The zone `US/East-Indiana`.
pub fn east_indiana() -> (r: Tz)
    ensures
        r.wf(),
        r.zone_name() == "US/East-Indiana"@,
        r.table() == tables::us::east_indiana(),
{
    let ghost g = tables::us::east_indiana_rows();
    FixedTimespanSet::begin("US/East-Indiana", -20678, 0, "LMT", Ghost(g))
        .step(-2717647200, -21600, 0, "CST", Ghost(g))
        .step(-1633276800, -21600, 3600, "CDT", Ghost(g))
        .step(-1615136400, -21600, 0, "CST", Ghost(g))
        .step(-1601827200, -21600, 3600, "CDT", Ghost(g))
        .step(-1583686800, -21600, 0, "CST", Ghost(g))
        .step(-900259200, -21600, 3600, "CDT", Ghost(g))
        .step(-891795600, -21600, 0, "CST", Ghost(g))
        .step(-880214400, -21600, 3600, "CWT", Ghost(g))
        .step(-769395600, -21600, 3600, "CPT", Ghost(g))
        .step(-765392400, -21600, 0, "CST", Ghost(g))
        .step(-747244800, -21600, 3600, "CDT", Ghost(g))
        .step(-733942800, -21600, 0, "CST", Ghost(g))
        .step(-715795200, -21600, 3600, "CDT", Ghost(g))
        .step(-702493200, -21600, 0, "CST", Ghost(g))
        .step(-684345600, -21600, 3600, "CDT", Ghost(g))
        .step(-671043600, -21600, 0, "CST", Ghost(g))
        .step(-652896000, -21600, 3600, "CDT", Ghost(g))
        .step(-639594000, -21600, 0, "CST", Ghost(g))
        .step(-620841600, -21600, 3600, "CDT", Ghost(g))
        .step(-608144400, -21600, 0, "CST", Ghost(g))
        .step(-589392000, -21600, 3600, "CDT", Ghost(g))
        .step(-576090000, -21600, 0, "CST", Ghost(g))
        .step(-557942400, -21600, 3600, "CDT", Ghost(g))
        .step(-544640400, -21600, 0, "CST", Ghost(g))
        .step(-526492800, -21600, 3600, "CDT", Ghost(g))
        .step(-513190800, -21600, 0, "CST", Ghost(g))
        .step(-495043200, -21600, 3600, "CDT", Ghost(g))
        .step(-481741200, -21600, 0, "CST", Ghost(g))
        .step(-463593600, -18000, 0, "EST", Ghost(g))
        .step(-386787600, -21600, 0, "CST", Ghost(g))
        .step(-368640000, -18000, 0, "EST", Ghost(g))
        .step(-21488400, -18000, 3600, "EDT", Ghost(g))
        .step(-5767200, -18000, 0, "EST", Ghost(g))
        .step(9961200, -18000, 3600, "EDT", Ghost(g))
        .step(25682400, -18000, 0, "EST", Ghost(g))
        .step(1143961200, -18000, 3600, "EDT", Ghost(g))
        .step(1162101600, -18000, 0, "EST", Ghost(g))
        .step(1173596400, -18000, 3600, "EDT", Ghost(g))
        .step(1194156000, -18000, 0, "EST", Ghost(g))
        .step(1205046000, -18000, 3600, "EDT", Ghost(g))
        .step(1225605600, -18000, 0, "EST", Ghost(g))
        .step(1236495600, -18000, 3600, "EDT", Ghost(g))
        .step(1257055200, -18000, 0, "EST", Ghost(g))
        .step(1268550000, -18000, 3600, "EDT", Ghost(g))
        .step(1289109600, -18000, 0, "EST", Ghost(g))
        .step(1299999600, -18000, 3600, "EDT", Ghost(g))
        .step(1320559200, -18000, 0, "EST", Ghost(g))
        .step(1331449200, -18000, 3600, "EDT", Ghost(g))
        .step(1352008800, -18000, 0, "EST", Ghost(g))
        .step(1362898800, -18000, 3600, "EDT", Ghost(g))
        .step(1383458400, -18000, 0, "EST", Ghost(g))
        .step(1394348400, -18000, 3600, "EDT", Ghost(g))
        .step(1414908000, -18000, 0, "EST", Ghost(g))
        .step(1425798000, -18000, 3600, "EDT", Ghost(g))
        .step(1446357600, -18000, 0, "EST", Ghost(g))
        .step(1457852400, -18000, 3600, "EDT", Ghost(g))
        .step(1478412000, -18000, 0, "EST", Ghost(g))
        .step(1489302000, -18000, 3600, "EDT", Ghost(g))
        .step(1509861600, -18000, 0, "EST", Ghost(g))
        .step(1520751600, -18000, 3600, "EDT", Ghost(g))
        .step(1541311200, -18000, 0, "EST", Ghost(g))
        .step(1552201200, -18000, 3600, "EDT", Ghost(g))
        .step(1572760800, -18000, 0, "EST", Ghost(g))
        .step(1583650800, -18000, 3600, "EDT", Ghost(g))
        .step(1604210400, -18000, 0, "EST", Ghost(g))
        .step(1615705200, -18000, 3600, "EDT", Ghost(g))
        .step(1636264800, -18000, 0, "EST", Ghost(g))
        .step(1647154800, -18000, 3600, "EDT", Ghost(g))
        .step(1667714400, -18000, 0, "EST", Ghost(g))
        .step(1678604400, -18000, 3600, "EDT", Ghost(g))
        .step(1699164000, -18000, 0, "EST", Ghost(g))
        .step(1710054000, -18000, 3600, "EDT", Ghost(g))
        .step(1730613600, -18000, 0, "EST", Ghost(g))
        .step(1741503600, -18000, 3600, "EDT", Ghost(g))
        .step(1762063200, -18000, 0, "EST", Ghost(g))
        .step(1772953200, -18000, 3600, "EDT", Ghost(g))
        .step(1793512800, -18000, 0, "EST", Ghost(g))
        .step(1805007600, -18000, 3600, "EDT", Ghost(g))
        .step(1825567200, -18000, 0, "EST", Ghost(g))
        .step(1836457200, -18000, 3600, "EDT", Ghost(g))
        .step(1857016800, -18000, 0, "EST", Ghost(g))
        .step(1867906800, -18000, 3600, "EDT", Ghost(g))
        .step(1888466400, -18000, 0, "EST", Ghost(g))
        .step(1899356400, -18000, 3600, "EDT", Ghost(g))
        .step(1919916000, -18000, 0, "EST", Ghost(g))
        .step(1930806000, -18000, 3600, "EDT", Ghost(g))
        .step(1951365600, -18000, 0, "EST", Ghost(g))
        .step(1962860400, -18000, 3600, "EDT", Ghost(g))
        .step(1983420000, -18000, 0, "EST", Ghost(g))
        .step(1994310000, -18000, 3600, "EDT", Ghost(g))
        .step(2014869600, -18000, 0, "EST", Ghost(g))
        .step(2025759600, -18000, 3600, "EDT", Ghost(g))
        .step(2046319200, -18000, 0, "EST", Ghost(g))
        .step(2057209200, -18000, 3600, "EDT", Ghost(g))
        .step(2077768800, -18000, 0, "EST", Ghost(g))
        .step(2088658800, -18000, 3600, "EDT", Ghost(g))
        .step(2109218400, -18000, 0, "EST", Ghost(g))
        .step(2120108400, -18000, 3600, "EDT", Ghost(g))
        .step(2140668000, -18000, 0, "EST", Ghost(g))
        .finish(Ghost(g))
}

/// The zone `US/Eastern`.
pub fn eastern() -> (r: Tz)
    ensures
        r.wf(),
        r.zone_name() == "US/Eastern"@,
        r.table() == tables::us::eastern(),
{
    let ghost g = tables::us::eastern_rows();
    FixedTimespanSet::begin("US/Eastern", -17762, 0, "LMT", Ghost(g))
        .step(-2717650800, -18000, 0, "EST", Ghost(g))
        .step(-1633280400, -18000, 3600, "EDT", Ghost(g))
        .step(-1615140000, -18000, 0, "EST", Ghost(g))
        .step(-1601830800, -18000, 3600, "EDT", Ghost(g))
        .step(-1583690400, -18000, 0, "EST", Ghost(g))
        .step(-1570381200, -18000, 3600, "EDT", Ghost(g))
        .step(-1551636000, -18000, 0, "EST", Ghost(g))
        .step(-1536512400, -18000, 3600, "EDT", Ghost(g))
        .step(-1523210400, -18000, 0, "EST", Ghost(g))
        .step(-1504458000, -18000, 3600, "EDT", Ghost(g))
        .step(-1491760800, -18000, 0, "EST", Ghost(g))
        .step(-1473008400, -18000, 3600, "EDT", Ghost(g))
        .step(-1459706400, -18000, 0, "EST", Ghost(g))
        .step(-1441558800, -18000, 3600, "EDT", Ghost(g))
        .step(-1428256800, -18000, 0, "EST", Ghost(g))
        .step(-1410109200, -18000, 3600, "EDT", Ghost(g))
        .step(-1396807200, -18000, 0, "EST", Ghost(g))
        .step(-1378659600, -18000, 3600, "EDT", Ghost(g))
        .step(-1365357600, -18000, 0, "EST", Ghost(g))
        .step(-1347210000, -18000, 3600, "EDT", Ghost(g))
        .step(-1333908000, -18000, 0, "EST", Ghost(g))
        .step(-1315155600, -18000, 3600, "EDT", Ghost(g))
        .step(-1301853600, -18000, 0, "EST", Ghost(g))
        .step(-1283706000, -18000, 3600, "EDT", Ghost(g))
        .step(-1270404000, -18000, 0, "EST", Ghost(g))
        .step(-1252256400, -18000, 3600, "EDT", Ghost(g))
        .step(-1238954400, -18000, 0, "EST", Ghost(g))
        .step(-1220806800, -18000, 3600, "EDT", Ghost(g))
        .step(-1207504800, -18000, 0, "EST", Ghost(g))
        .step(-1189357200, -18000, 3600, "EDT", Ghost(g))
        .step(-1176055200, -18000, 0, "EST", Ghost(g))
        .step(-1157302800, -18000, 3600, "EDT", Ghost(g))
        .step(-1144605600, -18000, 0, "EST", Ghost(g))
        .step(-1125853200, -18000, 3600, "EDT", Ghost(g))
        .step(-1112551200, -18000, 0, "EST", Ghost(g))
        .step(-1094403600, -18000, 3600, "EDT", Ghost(g))
        .step(-1081101600, -18000, 0, "EST", Ghost(g))
        .step(-1062954000, -18000, 3600, "EDT", Ghost(g))
        .step(-1049652000, -18000, 0, "EST", Ghost(g))
        .step(-1031504400, -18000, 3600, "EDT", Ghost(g))
        .step(-1018202400, -18000, 0, "EST", Ghost(g))
        .step(-1000054800, -18000, 3600, "EDT", Ghost(g))
        .step(-986752800, -18000, 0, "EST", Ghost(g))
        .step(-968000400, -18000, 3600, "EDT", Ghost(g))
        .step(-955303200, -18000, 0, "EST", Ghost(g))
        .step(-936550800, -18000, 3600, "EDT", Ghost(g))
        .step(-923248800, -18000, 0, "EST", Ghost(g))
        .step(-905101200, -18000, 3600, "EDT", Ghost(g))
        .step(-891799200, -18000, 0, "EST", Ghost(g))
        .step(-880218000, -18000, 3600, "EWT", Ghost(g))
        .step(-769395600, -18000, 3600, "EPT", Ghost(g))
        .step(-765396000, -18000, 0, "EST", Ghost(g))
        .step(-747248400, -18000, 3600, "EDT", Ghost(g))
        .step(-733946400, -18000, 0, "EST", Ghost(g))
        .step(-715798800, -18000, 3600, "EDT", Ghost(g))
        .step(-702496800, -18000, 0, "EST", Ghost(g))
        .step(-684349200, -18000, 3600, "EDT", Ghost(g))
        .step(-671047200, -18000, 0, "EST", Ghost(g))
        .step(-652899600, -18000, 3600, "EDT", Ghost(g))
        .step(-639597600, -18000, 0, "EST", Ghost(g))
        .step(-620845200, -18000, 3600, "EDT", Ghost(g))
        .step(-608148000, -18000, 0, "EST", Ghost(g))
        .step(-589395600, -18000, 3600, "EDT", Ghost(g))
        .step(-576093600, -18000, 0, "EST", Ghost(g))
        .step(-557946000, -18000, 3600, "EDT", Ghost(g))
        .step(-544644000, -18000, 0, "EST", Ghost(g))
        .step(-526496400, -18000, 3600, "EDT", Ghost(g))
        .step(-513194400, -18000, 0, "EST", Ghost(g))
        .step(-495046800, -18000, 3600, "EDT", Ghost(g))
        .step(-481744800, -18000, 0, "EST", Ghost(g))
        .step(-463597200, -18000, 3600, "EDT", Ghost(g))
        .step(-447271200, -18000, 0, "EST", Ghost(g))
        .step(-431542800, -18000, 3600, "EDT", Ghost(g))
        .step(-415821600, -18000, 0, "EST", Ghost(g))
        .step(-400093200, -18000, 3600, "EDT", Ghost(g))
        .step(-384372000, -18000, 0, "EST", Ghost(g))
        .step(-368643600, -18000, 3600, "EDT", Ghost(g))
        .step(-352922400, -18000, 0, "EST", Ghost(g))
        .step(-337194000, -18000, 3600, "EDT", Ghost(g))
        .step(-321472800, -18000, 0, "EST", Ghost(g))
        .step(-305744400, -18000, 3600, "EDT", Ghost(g))
        .step(-289418400, -18000, 0, "EST", Ghost(g))
        .step(-273690000, -18000, 3600, "EDT", Ghost(g))
        .step(-257968800, -18000, 0, "EST", Ghost(g))
        .step(-242240400, -18000, 3600, "EDT", Ghost(g))
        .step(-226519200, -18000, 0, "EST", Ghost(g))
        .step(-210790800, -18000, 3600, "EDT", Ghost(g))
        .step(-195069600, -18000, 0, "EST", Ghost(g))
        .step(-179341200, -18000, 3600, "EDT", Ghost(g))
        .step(-163620000, -18000, 0, "EST", Ghost(g))
        .step(-147891600, -18000, 3600, "EDT", Ghost(g))
        .step(-131565600, -18000, 0, "EST", Ghost(g))
        .step(-116442000, -18000, 3600, "EDT", Ghost(g))
        .step(-100116000, -18000, 0, "EST", Ghost(g))
        .step(-84387600, -18000, 3600, "EDT", Ghost(g))
        .step(-68666400, -18000, 0, "EST", Ghost(g))
        .step(-52938000, -18000, 3600, "EDT", Ghost(g))
        .step(-37216800, -18000, 0, "EST", Ghost(g))
        .step(-21488400, -18000, 3600, "EDT", Ghost(g))
        .step(-5767200, -18000, 0, "EST", Ghost(g))
        .step(9961200, -18000, 3600, "EDT", Ghost(g))
        .step(25682400, -18000, 0, "EST", Ghost(g))
        .step(41410800, -18000, 3600, "EDT", Ghost(g))
        .step(57736800, -18000, 0, "EST", Ghost(g))
        .step(73465200, -18000, 3600, "EDT", Ghost(g))
        .step(89186400, -18000, 0, "EST", Ghost(g))
        .step(104914800, -18000, 3600, "EDT", Ghost(g))
        .step(120636000, -18000, 0, "EST", Ghost(g))
        .step(126687600, -18000, 3600, "EDT", Ghost(g))
        .step(152085600, -18000, 0, "EST", Ghost(g))
        .step(162370800, -18000, 3600, "EDT", Ghost(g))
        .step(183535200, -18000, 0, "EST", Ghost(g))
        .step(199263600, -18000, 3600, "EDT", Ghost(g))
        .step(215589600, -18000, 0, "EST", Ghost(g))
        .step(230713200, -18000, 3600, "EDT", Ghost(g))
        .step(247039200, -18000, 0, "EST", Ghost(g))
        .step(262767600, -18000, 3600, "EDT", Ghost(g))
        .step(278488800, -18000, 0, "EST", Ghost(g))
        .step(294217200, -18000, 3600, "EDT", Ghost(g))
        .step(309938400, -18000, 0, "EST", Ghost(g))
        .step(325666800, -18000, 3600, "EDT", Ghost(g))
        .step(341388000, -18000, 0, "EST", Ghost(g))
        .step(357116400, -18000, 3600, "EDT", Ghost(g))
        .step(372837600, -18000, 0, "EST", Ghost(g))
        .step(388566000, -18000, 3600, "EDT", Ghost(g))
        .step(404892000, -18000, 0, "EST", Ghost(g))
        .step(420015600, -18000, 3600, "EDT", Ghost(g))
        .step(436341600, -18000, 0, "EST", Ghost(g))
        .step(452070000, -18000, 3600, "EDT", Ghost(g))
        .step(467791200, -18000, 0, "EST", Ghost(g))
        .step(483519600, -18000, 3600, "EDT", Ghost(g))
        .step(499240800, -18000, 0, "EST", Ghost(g))
        .step(514969200, -18000, 3600, "EDT", Ghost(g))
        .step(530690400, -18000, 0, "EST", Ghost(g))
        .step(544604400, -18000, 3600, "EDT", Ghost(g))
        .step(562140000, -18000, 0, "EST", Ghost(g))
        .step(576054000, -18000, 3600, "EDT", Ghost(g))
        .step(594194400, -18000, 0, "EST", Ghost(g))
        .step(607503600, -18000, 3600, "EDT", Ghost(g))
        .step(625644000, -18000, 0, "EST", Ghost(g))
        .step(638953200, -18000, 3600, "EDT", Ghost(g))
        .step(657093600, -18000, 0, "EST", Ghost(g))
        .step(671007600, -18000, 3600, "EDT", Ghost(g))
        .step(688543200, -18000, 0, "EST", Ghost(g))
        .step(702457200, -18000, 3600, "EDT", Ghost(g))
        .step(719992800, -18000, 0, "EST", Ghost(g))
        .step(733906800, -18000, 3600, "EDT", Ghost(g))
        .step(752047200, -18000, 0, "EST", Ghost(g))
        .step(765356400, -18000, 3600, "EDT", Ghost(g))
        .step(783496800, -18000, 0, "EST", Ghost(g))
        .step(796806000, -18000, 3600, "EDT", Ghost(g))
        .step(814946400, -18000, 0, "EST", Ghost(g))
        .step(828860400, -18000, 3600, "EDT", Ghost(g))
        .step(846396000, -18000, 0, "EST", Ghost(g))
        .step(860310000, -18000, 3600, "EDT", Ghost(g))
        .step(877845600, -18000, 0, "EST", Ghost(g))
        .step(891759600, -18000, 3600, "EDT", Ghost(g))
        .step(909295200, -18000, 0, "EST", Ghost(g))
        .step(923209200, -18000, 3600, "EDT", Ghost(g))
        .step(941349600, -18000, 0, "EST", Ghost(g))
        .step(954658800, -18000, 3600, "EDT", Ghost(g))
        .step(972799200, -18000, 0, "EST", Ghost(g))
        .step(986108400, -18000, 3600, "EDT", Ghost(g))
        .step(1004248800, -18000, 0, "EST", Ghost(g))
        .step(1018162800, -18000, 3600, "EDT", Ghost(g))
        .step(1035698400, -18000, 0, "EST", Ghost(g))
        .step(1049612400, -18000, 3600, "EDT", Ghost(g))
        .step(1067148000, -18000, 0, "EST", Ghost(g))
        .step(1081062000, -18000, 3600, "EDT", Ghost(g))
        .step(1099202400, -18000, 0, "EST", Ghost(g))
        .step(1112511600, -18000, 3600, "EDT", Ghost(g))
        .step(1130652000, -18000, 0, "EST", Ghost(g))
        .step(1143961200, -18000, 3600, "EDT", Ghost(g))
        .step(1162101600, -18000, 0, "EST", Ghost(g))
        .step(1173596400, -18000, 3600, "EDT", Ghost(g))
        .step(1194156000, -18000, 0, "EST", Ghost(g))
        .step(1205046000, -18000, 3600, "EDT", Ghost(g))
        .step(1225605600, -18000, 0, "EST", Ghost(g))
        .step(1236495600, -18000, 3600, "EDT", Ghost(g))
        .step(1257055200, -18000, 0, "EST", Ghost(g))
        .step(1268550000, -18000, 3600, "EDT", Ghost(g))
        .step(1289109600, -18000, 0, "EST", Ghost(g))
        .step(1299999600, -18000, 3600, "EDT", Ghost(g))
        .step(1320559200, -18000, 0, "EST", Ghost(g))
        .step(1331449200, -18000, 3600, "EDT", Ghost(g))
        .step(1352008800, -18000, 0, "EST", Ghost(g))
        .step(1362898800, -18000, 3600, "EDT", Ghost(g))
        .step(1383458400, -18000, 0, "EST", Ghost(g))
        .step(1394348400, -18000, 3600, "EDT", Ghost(g))
        .step(1414908000, -18000, 0, "EST", Ghost(g))
        .step(1425798000, -18000, 3600, "EDT", Ghost(g))
        .step(1446357600, -18000, 0, "EST", Ghost(g))
        .step(1457852400, -18000, 3600, "EDT", Ghost(g))
        .step(1478412000, -18000, 0, "EST", Ghost(g))
        .step(1489302000, -18000, 3600, "EDT", Ghost(g))
        .step(1509861600, -18000, 0, "EST", Ghost(g))
        .step(1520751600, -18000, 3600, "EDT", Ghost(g))
        .step(1541311200, -18000, 0, "EST", Ghost(g))
        .step(1552201200, -18000, 3600, "EDT", Ghost(g))
        .step(1572760800, -18000, 0, "EST", Ghost(g))
        .step(1583650800, -18000, 3600, "EDT", Ghost(g))
        .step(1604210400, -18000, 0, "EST", Ghost(g))
        .step(1615705200, -18000, 3600, "EDT", Ghost(g))
        .step(1636264800, -18000, 0, "EST", Ghost(g))
        .step(1647154800, -18000, 3600, "EDT", Ghost(g))
        .step(1667714400, -18000, 0, "EST", Ghost(g))
        .step(1678604400, -18000, 3600, "EDT", Ghost(g))
        .step(1699164000, -18000, 0, "EST", Ghost(g))
        .step(1710054000, -18000, 3600, "EDT", Ghost(g))
        .step(1730613600, -18000, 0, "EST", Ghost(g))
        .step(1741503600, -18000, 3600, "EDT", Ghost(g))
        .step(1762063200, -18000, 0, "EST", Ghost(g))
        .step(1772953200, -18000, 3600, "EDT", Ghost(g))
        .step(1793512800, -18000, 0, "EST", Ghost(g))
        .step(1805007600, -18000, 3600, "EDT", Ghost(g))
        .step(1825567200, -18000, 0, "EST", Ghost(g))
        .step(1836457200, -18000, 3600, "EDT", Ghost(g))
        .step(1857016800, -18000, 0, "EST", Ghost(g))
        .step(1867906800, -18000, 3600, "EDT", Ghost(g))
        .step(1888466400, -18000, 0, "EST", Ghost(g))
        .step(1899356400, -18000, 3600, "EDT", Ghost(g))
        .step(1919916000, -18000, 0, "EST", Ghost(g))
        .step(1930806000, -18000, 3600, "EDT", Ghost(g))
        .step(1951365600, -18000, 0, "EST", Ghost(g))
        .step(1962860400, -18000, 3600, "EDT", Ghost(g))
        .step(1983420000, -18000, 0, "EST", Ghost(g))
        .step(1994310000, -18000, 3600, "EDT", Ghost(g))
        .step(2014869600, -18000, 0, "EST", Ghost(g))
        .step(2025759600, -18000, 3600, "EDT", Ghost(g))
        .step(2046319200, -18000, 0, "EST", Ghost(g))
        .step(2057209200, -18000, 3600, "EDT", Ghost(g))
        .step(2077768800, -18000, 0, "EST", Ghost(g))
        .step(2088658800, -18000, 3600, "EDT", Ghost(g))
        .step(2109218400, -18000, 0, "EST", Ghost(g))
        .step(2120108400, -18000, 3600, "EDT", Ghost(g))
        .step(2140668000, -18000, 0, "EST", Ghost(g))
        .finish(Ghost(g))
}

/// The zone `US/Hawaii`.
pub fn hawaii() -> (r: Tz)
    ensures
        r.wf(),
        r.zone_name() == "US/Hawaii"@,
        r.table() == tables::us::hawaii(),
{
    let ghost g = tables::us::hawaii_rows();
    FixedTimespanSet::begin("US/Hawaii", -37886, 0, "LMT", Ghost(g))
        .step(-2334101314, -37800, 0, "HST", Ghost(g))
        .step(-1157283000, -37800, 3600, "HDT", Ghost(g))
        .step(-1155436200, -37800, 0, "HST", Ghost(g))
        .step(-880198200, -37800, 3600, "HWT", Ghost(g))
        .step(-769395600, -37800, 3600, "HPT", Ghost(g))
        .step(-765376200, -37800, 0, "HST", Ghost(g))
        .step(-712150200, -36000, 0, "HST", Ghost(g))
        .finish(Ghost(g))
}

/// The zone `US/Indiana-Starke`.
pub fn indiana_starke() -> (r: Tz)
    ensures
        r.wf(),
        r.zone_name() == "US/Indiana-Starke"@,
        r.table() == tables::us::indiana_starke(),
{
    let ghost g = tables::us::indiana_starke_rows();
    FixedTimespanSet::begin("US/Indiana-Starke", -20790, 0, "LMT", Ghost(g))
        .step(-2717647200, -21600, 0, "CST", Ghost(g))
        .step(-1633276800, -21600, 3600, "CDT", Ghost(g))
        .step(-1615136400, -21600, 0, "CST", Ghost(g))
        .step(-1601827200, -21600, 3600, "CDT", Ghost(g))
        .step(-1583686800, -21600, 0, "CST", Ghost(g))
        .step(-880214400, -21600, 3600, "CWT", Ghost(g))
        .step(-769395600, -21600, 3600, "CPT", Ghost(g))
        .step(-765392400, -21600, 0, "CST", Ghost(g))
        .step(-715795200, -21600, 3600, "CDT", Ghost(g))
        .step(-702493200, -21600, 0, "CST", Ghost(g))
        .step(-684345600, -21600, 3600, "CDT", Ghost(g))
        .step(-671043600, -21600, 0, "CST", Ghost(g))
        .step(-652896000, -21600, 3600, "CDT", Ghost(g))
        .step(-639594000, -21600, 0, "CST", Ghost(g))
        .step(-620841600, -21600, 3600, "CDT", Ghost(g))
        .step(-608144400, -21600, 0, "CST", Ghost(g))
        .step(-589392000, -21600, 3600, "CDT", Ghost(g))
        .step(-576090000, -21600, 0, "CST", Ghost(g))
        .step(-557942400, -21600, 3600, "CDT", Ghost(g))
        .step(-544640400, -21600, 0, "CST", Ghost(g))
        .step(-526492800, -21600, 3600, "CDT", Ghost(g))
        .step(-513190800, -21600, 0, "CST", Ghost(g))
        .step(-495043200, -21600, 3600, "CDT", Ghost(g))
        .step(-481741200, -21600, 0, "CST", Ghost(g))
        .step(-463593600, -21600, 3600, "CDT", Ghost(g))
        .step(-447267600, -21600, 0, "CST", Ghost(g))
        .step(-431539200, -21600, 3600, "CDT", Ghost(g))
        .step(-415818000, -21600, 0, "CST", Ghost(g))
        .step(-400089600, -21600, 3600, "CDT", Ghost(g))
        .step(-386787600, -21600, 0, "CST", Ghost(g))
        .step(-368640000, -21600, 3600, "CDT", Ghost(g))
        .step(-355338000, -21600, 0, "CST", Ghost(g))
        .step(-337190400, -21600, 3600, "CDT", Ghost(g))
        .step(-321469200, -21600, 0, "CST", Ghost(g))
        .step(-305740800, -21600, 3600, "CDT", Ghost(g))
        .step(-289414800, -21600, 0, "CST", Ghost(g))
        .step(-273686400, -21600, 3600, "CDT", Ghost(g))
        .step(-257965200, -21600, 0, "CST", Ghost(g))
        .step(-242236800, -18000, 0, "EST", Ghost(g))
        .step(-195066000, -21600, 0, "CST", Ghost(g))
        .step(-84384000, -21600, 3600, "CDT", Ghost(g))
        .step(-68662800, -21600, 0, "CST", Ghost(g))
        .step(-52934400, -21600, 3600, "CDT", Ghost(g))
        .step(-37213200, -21600, 0, "CST", Ghost(g))
        .step(-21484800, -21600, 3600, "CDT", Ghost(g))
        .step(-5763600, -21600, 0, "CST", Ghost(g))
        .step(9964800, -21600, 3600, "CDT", Ghost(g))
        .step(25686000, -21600, 0, "CST", Ghost(g))
        .step(41414400, -21600, 3600, "CDT", Ghost(g))
        .step(57740400, -21600, 0, "CST", Ghost(g))
        .step(73468800, -21600, 3600, "CDT", Ghost(g))
        .step(89190000, -21600, 0, "CST", Ghost(g))
        .step(104918400, -21600, 3600, "CDT", Ghost(g))
        .step(120639600, -21600, 0, "CST", Ghost(g))
        .step(126691200, -21600, 3600, "CDT", Ghost(g))
        .step(152089200, -21600, 0, "CST", Ghost(g))
        .step(162374400, -21600, 3600, "CDT", Ghost(g))
        .step(183538800, -21600, 0, "CST", Ghost(g))
        .step(199267200, -21600, 3600, "CDT", Ghost(g))
        .step(215593200, -21600, 0, "CST", Ghost(g))
        .step(230716800, -21600, 3600, "CDT", Ghost(g))
        .step(247042800, -21600, 0, "CST", Ghost(g))
        .step(262771200, -21600, 3600, "CDT", Ghost(g))
        .step(278492400, -21600, 0, "CST", Ghost(g))
        .step(294220800, -21600, 3600, "CDT", Ghost(g))
        .step(309942000, -21600, 0, "CST", Ghost(g))
        .step(325670400, -21600, 3600, "CDT", Ghost(g))
        .step(341391600, -21600, 0, "CST", Ghost(g))
        .step(357120000, -21600, 3600, "CDT", Ghost(g))
        .step(372841200, -21600, 0, "CST", Ghost(g))
        .step(388569600, -21600, 3600, "CDT", Ghost(g))
        .step(404895600, -21600, 0, "CST", Ghost(g))
        .step(420019200, -21600, 3600, "CDT", Ghost(g))
        .step(436345200, -21600, 0, "CST", Ghost(g))
        .step(452073600, -21600, 3600, "CDT", Ghost(g))
        .step(467794800, -21600, 0, "CST", Ghost(g))
        .step(483523200, -21600, 3600, "CDT", Ghost(g))
        .step(499244400, -21600, 0, "CST", Ghost(g))
        .step(514972800, -21600, 3600, "CDT", Ghost(g))
        .step(530694000, -21600, 0, "CST", Ghost(g))
        .step(544608000, -21600, 3600, "CDT", Ghost(g))
        .step(562143600, -21600, 0, "CST", Ghost(g))
        .step(576057600, -21600, 3600, "CDT", Ghost(g))
        .step(594198000, -21600, 0, "CST", Ghost(g))
        .step(607507200, -21600, 3600, "CDT", Ghost(g))
        .step(625647600, -21600, 0, "CST", Ghost(g))
        .step(638956800, -21600, 3600, "CDT", Ghost(g))
        .step(657097200, -21600, 0, "CST", Ghost(g))
        .step(671011200, -21600, 3600, "CDT", Ghost(g))
        .step(688546800, -18000, 0, "EST", Ghost(g))
        .step(1143961200, -21600, 3600, "CDT", Ghost(g))
        .step(1162105200, -21600, 0, "CST", Ghost(g))
        .step(1173600000, -21600, 3600, "CDT", Ghost(g))
        .step(1194159600, -21600, 0, "CST", Ghost(g))
        .step(1205049600, -21600, 3600, "CDT", Ghost(g))
        .step(1225609200, -21600, 0, "CST", Ghost(g))
        .step(1236499200, -21600, 3600, "CDT", Ghost(g))
        .step(1257058800, -21600, 0, "CST", Ghost(g))
        .step(1268553600, -21600, 3600, "CDT", Ghost(g))
        .step(1289113200, -21600, 0, "CST", Ghost(g))
        .step(1300003200, -21600, 3600, "CDT", Ghost(g))
        .step(1320562800, -21600, 0, "CST", Ghost(g))
        .step(1331452800, -21600, 3600, "CDT", Ghost(g))
        .step(1352012400, -21600, 0, "CST", Ghost(g))
        .step(1362902400, -21600, 3600, "CDT", Ghost(g))
        .step(1383462000, -21600, 0, "CST", Ghost(g))
        .step(1394352000, -21600, 3600, "CDT", Ghost(g))
        .step(1414911600, -21600, 0, "CST", Ghost(g))
        .step(1425801600, -21600, 3600, "CDT", Ghost(g))
        .step(1446361200, -21600, 0, "CST", Ghost(g))
        .step(1457856000, -21600, 3600, "CDT", Ghost(g))
        .step(1478415600, -21600, 0, "CST", Ghost(g))
        .step(1489305600, -21600, 3600, "CDT", Ghost(g))
        .step(1509865200, -21600, 0, "CST", Ghost(g))
        .step(1520755200, -21600, 3600, "CDT", Ghost(g))
        .step(1541314800, -21600, 0, "CST", Ghost(g))
        .step(1552204800, -21600, 3600, "CDT", Ghost(g))
        .step(1572764400, -21600, 0, "CST", Ghost(g))
        .step(1583654400, -21600, 3600, "CDT", Ghost(g))
        .step(1604214000, -21600, 0, "CST", Ghost(g))
        .step(1615708800, -21600, 3600, "CDT", Ghost(g))
        .step(1636268400, -21600, 0, "CST", Ghost(g))
        .step(1647158400, -21600, 3600, "CDT", Ghost(g))
        .step(1667718000, -21600, 0, "CST", Ghost(g))
        .step(1678608000, -21600, 3600, "CDT", Ghost(g))
        .step(1699167600, -21600, 0, "CST", Ghost(g))
        .step(1710057600, -21600, 3600, "CDT", Ghost(g))
        .step(1730617200, -21600, 0, "CST", Ghost(g))
        .step(1741507200, -21600, 3600, "CDT", Ghost(g))
        .step(1762066800, -21600, 0, "CST", Ghost(g))
        .step(1772956800, -21600, 3600, "CDT", Ghost(g))
        .step(1793516400, -21600, 0, "CST", Ghost(g))
        .step(1805011200, -21600, 3600, "CDT", Ghost(g))
        .step(1825570800, -21600, 0, "CST", Ghost(g))
        .step(1836460800, -21600, 3600, "CDT", Ghost(g))
        .step(1857020400, -21600, 0, "CST", Ghost(g))
        .step(1867910400, -21600, 3600, "CDT", Ghost(g))
        .step(1888470000, -21600, 0, "CST", Ghost(g))
        .step(1899360000, -21600, 3600, "CDT", Ghost(g))
        .step(1919919600, -21600, 0, "CST", Ghost(g))
        .step(1930809600, -21600, 3600, "CDT", Ghost(g))
        .step(1951369200, -21600, 0, "CST", Ghost(g))
        .step(1962864000, -21600, 3600, "CDT", Ghost(g))
        .step(1983423600, -21600, 0, "CST", Ghost(g))
        .step(1994313600, -21600, 3600, "CDT", Ghost(g))
        .step(2014873200, -21600, 0, "CST", Ghost(g))
        .step(2025763200, -21600, 3600, "CDT", Ghost(g))
        .step(2046322800, -21600, 0, "CST", Ghost(g))
        .step(2057212800, -21600, 3600, "CDT", Ghost(g))
        .step(2077772400, -21600, 0, "CST", Ghost(g))
        .step(2088662400, -21600, 3600, "CDT", Ghost(g))
        .step(2109222000, -21600, 0, "CST", Ghost(g))
        .step(2120112000, -21600, 3600, "CDT", Ghost(g))
        .step(2140671600, -21600, 0, "CST", Ghost(g))
        .finish(Ghost(g))
}

/// The zone `US/Michigan`.
pub fn michigan() -> (r: Tz)
    ensures
        r.wf(),
        r.zone_name() == "US/Michigan"@,
        r.table() == tables::us::michigan(),
{
    let ghost g = tables::us::michigan_rows();
    FixedTimespanSet::begin("US/Michigan", -19931, 0, "LMT", Ghost(g))
        .step(-2051202469, -21600, 0, "CST", Ghost(g))
        .step(-1724083200, -18000, 0, "EST", Ghost(g))
        .step(-880218000, -18000, 3600, "EWT", Ghost(g))
        .step(-769395600, -18000, 3600, "EPT", Ghost(g))
        .step(-765396000, -18000, 0, "EST", Ghost(g))
        .step(-684349200, -18000, 3600, "EDT", Ghost(g))
        .step(-671047200, -18000, 0, "EST", Ghost(g))
        .step(-80506740, -18000, 3600, "EDT", Ghost(g))
        .step(-68666400, -18000, 0, "EST", Ghost(g))
        .step(-52938000, -18000, 3600, "EDT", Ghost(g))
        .step(-37216800, -18000, 0, "EST", Ghost(g))
        .step(104914800, -18000, 3600, "EDT", Ghost(g))
        .step(120636000, -18000, 0, "EST", Ghost(g))
        .step(126687600, -18000, 3600, "EDT", Ghost(g))
        .step(152085600, -18000, 0, "EST", Ghost(g))
        .step(167814000, -18000, 3600, "EDT", Ghost(g))
        .step(183535200, -18000, 0, "EST", Ghost(g))
        .step(199263600, -18000, 3600, "EDT", Ghost(g))
        .step(215589600, -18000, 0, "EST", Ghost(g))
        .step(230713200, -18000, 3600, "EDT", Ghost(g))
        .step(247039200, -18000, 0, "EST", Ghost(g))
        .step(262767600, -18000, 3600, "EDT", Ghost(g))
        .step(278488800, -18000, 0, "EST", Ghost(g))
        .step(294217200, -18000, 3600, "EDT", Ghost(g))
        .step(309938400, -18000, 0, "EST", Ghost(g))
        .step(325666800, -18000, 3600, "EDT", Ghost(g))
        .step(341388000, -18000, 0, "EST", Ghost(g))
        .step(357116400, -18000, 3600, "EDT", Ghost(g))
        .step(372837600, -18000, 0, "EST", Ghost(g))
        .step(388566000, -18000, 3600, "EDT", Ghost(g))
        .step(404892000, -18000, 0, "EST", Ghost(g))
        .step(420015600, -18000, 3600, "EDT", Ghost(g))
        .step(436341600, -18000, 0, "EST", Ghost(g))
        .step(452070000, -18000, 3600, "EDT", Ghost(g))
        .step(467791200, -18000, 0, "EST", Ghost(g))
        .step(483519600, -18000, 3600, "EDT", Ghost(g))
        .step(499240800, -18000, 0, "EST", Ghost(g))
        .step(514969200, -18000, 3600, "EDT", Ghost(g))
        .step(530690400, -18000, 0, "EST", Ghost(g))
        .step(544604400, -18000, 3600, "EDT", Ghost(g))
        .step(562140000, -18000, 0, "EST", Ghost(g))
        .step(576054000, -18000, 3600, "EDT", Ghost(g))
        .step(594194400, -18000, 0, "EST", Ghost(g))
        .step(607503600, -18000, 3600, "EDT", Ghost(g))
        .step(625644000, -18000, 0, "EST", Ghost(g))
        .step(638953200, -18000, 3600, "EDT", Ghost(g))
        .step(657093600, -18000, 0, "EST", Ghost(g))
        .step(671007600, -18000, 3600, "EDT", Ghost(g))
        .step(688543200, -18000, 0, "EST", Ghost(g))
        .step(702457200, -18000, 3600, "EDT", Ghost(g))
        .step(719992800, -18000, 0, "EST", Ghost(g))
        .step(733906800, -18000, 3600, "EDT", Ghost(g))
        .step(752047200, -18000, 0, "EST", Ghost(g))
        .step(765356400, -18000, 3600, "EDT", Ghost(g))
        .step(783496800, -18000, 0, "EST", Ghost(g))
        .step(796806000, -18000, 3600, "EDT", Ghost(g))
        .step(814946400, -18000, 0, "EST", Ghost(g))
        .step(828860400, -18000, 3600, "EDT", Ghost(g))
        .step(846396000, -18000, 0, "EST", Ghost(g))
        .step(860310000, -18000, 3600, "EDT", Ghost(g))
        .step(877845600, -18000, 0, "EST", Ghost(g))
        .step(891759600, -18000, 3600, "EDT", Ghost(g))
        .step(909295200, -18000, 0, "EST", Ghost(g))
        .step(923209200, -18000, 3600, "EDT", Ghost(g))
        .step(941349600, -18000, 0, "EST", Ghost(g))
        .step(954658800, -18000, 3600, "EDT", Ghost(g))
        .step(972799200, -18000, 0, "EST", Ghost(g))
        .step(986108400, -18000, 3600, "EDT", Ghost(g))
        .step(1004248800, -18000, 0, "EST", Ghost(g))
        .step(1018162800, -18000, 3600, "EDT", Ghost(g))
        .step(1035698400, -18000, 0, "EST", Ghost(g))
        .step(1049612400, -18000, 3600, "EDT", Ghost(g))
        .step(1067148000, -18000, 0, "EST", Ghost(g))
        .step(1081062000, -18000, 3600, "EDT", Ghost(g))
        .step(1099202400, -18000, 0, "EST", Ghost(g))
        .step(1112511600, -18000, 3600, "EDT", Ghost(g))
        .step(1130652000, -18000, 0, "EST", Ghost(g))
        .step(1143961200, -18000, 3600, "EDT", Ghost(g))
        .step(1162101600, -18000, 0, "EST", Ghost(g))
        .step(1173596400, -18000, 3600, "EDT", Ghost(g))
        .step(1194156000, -18000, 0, "EST", Ghost(g))
        .step(1205046000, -18000, 3600, "EDT", Ghost(g))
        .step(1225605600, -18000, 0, "EST", Ghost(g))
        .step(1236495600, -18000, 3600, "EDT", Ghost(g))
        .step(1257055200, -18000, 0, "EST", Ghost(g))
        .step(1268550000, -18000, 3600, "EDT", Ghost(g))
        .step(1289109600, -18000, 0, "EST", Ghost(g))
        .step(1299999600, -18000, 3600, "EDT", Ghost(g))
        .step(1320559200, -18000, 0, "EST", Ghost(g))
        .step(1331449200, -18000, 3600, "EDT", Ghost(g))
        .step(1352008800, -18000, 0, "EST", Ghost(g))
        .step(1362898800, -18000, 3600, "EDT", Ghost(g))
        .step(1383458400, -18000, 0, "EST", Ghost(g))
        .step(1394348400, -18000, 3600, "EDT", Ghost(g))
        .step(1414908000, -18000, 0, "EST", Ghost(g))
        .step(1425798000, -18000, 3600, "EDT", Ghost(g))
        .step(1446357600, -18000, 0, "EST", Ghost(g))
        .step(1457852400, -18000, 3600, "EDT", Ghost(g))
        .step(1478412000, -18000, 0, "EST", Ghost(g))
        .step(1489302000, -18000, 3600, "EDT", Ghost(g))
        .step(1509861600, -18000, 0, "EST", Ghost(g))
        .step(1520751600, -18000, 3600, "EDT", Ghost(g))
        .step(1541311200, -18000, 0, "EST", Ghost(g))
        .step(1552201200, -18000, 3600, "EDT", Ghost(g))
        .step(1572760800, -18000, 0, "EST", Ghost(g))
        .step(1583650800, -18000, 3600, "EDT", Ghost(g))
        .step(1604210400, -18000, 0, "EST", Ghost(g))
        .step(1615705200, -18000, 3600, "EDT", Ghost(g))
        .step(1636264800, -18000, 0, "EST", Ghost(g))
        .step(1647154800, -18000, 3600, "EDT", Ghost(g))
        .step(1667714400, -18000, 0, "EST", Ghost(g))
        .step(1678604400, -18000, 3600, "EDT", Ghost(g))
        .step(1699164000, -18000, 0, "EST", Ghost(g))
        .step(1710054000, -18000, 3600, "EDT", Ghost(g))
        .step(1730613600, -18000, 0, "EST", Ghost(g))
        .step(1741503600, -18000, 3600, "EDT", Ghost(g))
        .step(1762063200, -18000, 0, "EST", Ghost(g))
        .step(1772953200, -18000, 3600, "EDT", Ghost(g))
        .step(1793512800, -18000, 0, "EST", Ghost(g))
        .step(1805007600, -18000, 3600, "EDT", Ghost(g))
        .step(1825567200, -18000, 0, "EST", Ghost(g))
        .step(1836457200, -18000, 3600, "EDT", Ghost(g))
        .step(1857016800, -18000, 0, "EST", Ghost(g))
        .step(1867906800, -18000, 3600, "EDT", Ghost(g))
        .step(1888466400, -18000, 0, "EST", Ghost(g))
        .step(1899356400, -18000, 3600, "EDT", Ghost(g))
        .step(1919916000, -18000, 0, "EST", Ghost(g))
        .step(1930806000, -18000, 3600, "EDT", Ghost(g))
        .step(1951365600, -18000, 0, "EST", Ghost(g))
        .step(1962860400, -18000, 3600, "EDT", Ghost(g))
        .step(1983420000, -18000, 0, "EST", Ghost(g))
        .step(1994310000, -18000, 3600, "EDT", Ghost(g))
        .step(2014869600, -18000, 0, "EST", Ghost(g))
        .step(2025759600, -18000, 3600, "EDT", Ghost(g))
        .step(2046319200, -18000, 0, "EST", Ghost(g))
        .step(2057209200, -18000, 3600, "EDT", Ghost(g))
        .step(2077768800, -18000, 0, "EST", Ghost(g))
        .step(2088658800, -18000, 3600, "EDT", Ghost(g))
        .step(2109218400, -18000, 0, "EST", Ghost(g))
        .step(2120108400, -18000, 3600, "EDT", Ghost(g))
        .step(2140668000, -18000, 0, "EST", Ghost(g))
        .finish(Ghost(g))
}

/// The zone `US/Mountain`.
pub fn mountain() -> (r: Tz)
    ensures
        r.wf(),
        r.zone_name() == "US/Mountain"@,
        r.table() == tables::us::mountain(),
{
    let ghost g = tables::us::mountain_rows();
    FixedTimespanSet::begin("US/Mountain", -25196, 0, "LMT", Ghost(g))
        .step(-2717643600, -25200, 0, "MST", Ghost(g))
        .step(-1633273200, -25200, 3600, "MDT", Ghost(g))
        .step(-1615132800, -25200, 0, "MST", Ghost(g))
        .step(-1601823600, -25200, 3600, "MDT", Ghost(g))
        .step(-1583683200, -25200, 0, "MST", Ghost(g))
        .step(-1570374000, -25200, 3600, "MDT", Ghost(g))
        .step(-1551628800, -25200, 0, "MST", Ghost(g))
        .step(-1538924400, -25200, 3600, "MDT", Ghost(g))
        .step(-1534089600, -25200, 0, "MST", Ghost(g))
        .step(-880210800, -25200, 3600, "MWT", Ghost(g))
        .step(-769395600, -25200, 3600, "MPT", Ghost(g))
        .step(-765388800, -25200, 0, "MST", Ghost(g))
        .step(-147884400, -25200, 3600, "MDT", Ghost(g))
        .step(-131558400, -25200, 0, "MST", Ghost(g))
        .step(-116434800, -25200, 3600, "MDT", Ghost(g))
        .step(-100108800, -25200, 0, "MST", Ghost(g))
        .step(-84380400, -25200, 3600, "MDT", Ghost(g))
        .step(-68659200, -25200, 0, "MST", Ghost(g))
        .step(-52930800, -25200, 3600, "MDT", Ghost(g))
        .step(-37209600, -25200, 0, "MST", Ghost(g))
        .step(-21481200, -25200, 3600, "MDT", Ghost(g))
        .step(-5760000, -25200, 0, "MST", Ghost(g))
        .step(9968400, -25200, 3600, "MDT", Ghost(g))
        .step(25689600, -25200, 0, "MST", Ghost(g))
        .step(41418000, -25200, 3600, "MDT", Ghost(g))
        .step(57744000, -25200, 0, "MST", Ghost(g))
        .step(73472400, -25200, 3600, "MDT", Ghost(g))
        .step(89193600, -25200, 0, "MST", Ghost(g))
        .step(104922000, -25200, 3600, "MDT", Ghost(g))
        .step(120643200, -25200, 0, "MST", Ghost(g))
        .step(126694800, -25200, 3600, "MDT", Ghost(g))
        .step(152092800, -25200, 0, "MST", Ghost(g))
        .step(162378000, -25200, 3600, "MDT", Ghost(g))
        .step(183542400, -25200, 0, "MST", Ghost(g))
        .step(199270800, -25200, 3600, "MDT", Ghost(g))
        .step(215596800, -25200, 0, "MST", Ghost(g))
        .step(230720400, -25200, 3600, "MDT", Ghost(g))
        .step(247046400, -25200, 0, "MST", Ghost(g))
        .step(262774800, -25200, 3600, "MDT", Ghost(g))
        .step(278496000, -25200, 0, "MST", Ghost(g))
        .step(294224400, -25200, 3600, "MDT", Ghost(g))
        .step(309945600, -25200, 0, "MST", Ghost(g))
        .step(325674000, -25200, 3600, "MDT", Ghost(g))
        .step(341395200, -25200, 0, "MST", Ghost(g))
        .step(357123600, -25200, 3600, "MDT", Ghost(g))
        .step(372844800, -25200, 0, "MST", Ghost(g))
        .step(388573200, -25200, 3600, "MDT", Ghost(g))
        .step(404899200, -25200, 0, "MST", Ghost(g))
        .step(420022800, -25200, 3600, "MDT", Ghost(g))
        .step(436348800, -25200, 0, "MST", Ghost(g))
        .step(452077200, -25200, 3600, "MDT", Ghost(g))
        .step(467798400, -25200, 0, "MST", Ghost(g))
        .step(483526800, -25200, 3600, "MDT", Ghost(g))
        .step(499248000, -25200, 0, "MST", Ghost(g))
        .step(514976400, -25200, 3600, "MDT", Ghost(g))
        .step(530697600, -25200, 0, "MST", Ghost(g))
        .step(544611600, -25200, 3600, "MDT", Ghost(g))
        .step(562147200, -25200, 0, "MST", Ghost(g))
        .step(576061200, -25200, 3600, "MDT", Ghost(g))
        .step(594201600, -25200, 0, "MST", Ghost(g))
        .step(607510800, -25200, 3600, "MDT", Ghost(g))
        .step(625651200, -25200, 0, "MST", Ghost(g))
        .step(638960400, -25200, 3600, "MDT", Ghost(g))
        .step(657100800, -25200, 0, "MST", Ghost(g))
        .step(671014800, -25200, 3600, "MDT", Ghost(g))
        .step(688550400, -25200, 0, "MST", Ghost(g))
        .step(702464400, -25200, 3600, "MDT", Ghost(g))
        .step(720000000, -25200, 0, "MST", Ghost(g))
        .step(733914000, -25200, 3600, "MDT", Ghost(g))
        .step(752054400, -25200, 0, "MST", Ghost(g))
        .step(765363600, -25200, 3600, "MDT", Ghost(g))
        .step(783504000, -25200, 0, "MST", Ghost(g))
        .step(796813200, -25200, 3600, "MDT", Ghost(g))
        .step(814953600, -25200, 0, "MST", Ghost(g))
        .step(828867600, -25200, 3600, "MDT", Ghost(g))
        .step(846403200, -25200, 0, "MST", Ghost(g))
        .step(860317200, -25200, 3600, "MDT", Ghost(g))
        .step(877852800, -25200, 0, "MST", Ghost(g))
        .step(891766800, -25200, 3600, "MDT", Ghost(g))
        .step(909302400, -25200, 0, "MST", Ghost(g))
        .step(923216400, -25200, 3600, "MDT", Ghost(g))
        .step(941356800, -25200, 0, "MST", Ghost(g))
        .step(954666000, -25200, 3600, "MDT", Ghost(g))
        .step(972806400, -25200, 0, "MST", Ghost(g))
        .step(986115600, -25200, 3600, "MDT", Ghost(g))
        .step(1004256000, -25200, 0, "MST", Ghost(g))
        .step(1018170000, -25200, 3600, "MDT", Ghost(g))
        .step(1035705600, -25200, 0, "MST", Ghost(g))
        .step(1049619600, -25200, 3600, "MDT", Ghost(g))
        .step(1067155200, -25200, 0, "MST", Ghost(g))
        .step(1081069200, -25200, 3600, "MDT", Ghost(g))
        .step(1099209600, -25200, 0, "MST", Ghost(g))
        .step(1112518800, -25200, 3600, "MDT", Ghost(g))
        .step(1130659200, -25200, 0, "MST", Ghost(g))
        .step(1143968400, -25200, 3600, "MDT", Ghost(g))
        .step(1162108800, -25200, 0, "MST", Ghost(g))
        .step(1173603600, -25200, 3600, "MDT", Ghost(g))
        .step(1194163200, -25200, 0, "MST", Ghost(g))
        .step(1205053200, -25200, 3600, "MDT", Ghost(g))
        .step(1225612800, -25200, 0, "MST", Ghost(g))
        .step(1236502800, -25200, 3600, "MDT", Ghost(g))
        .step(1257062400, -25200, 0, "MST", Ghost(g))
        .step(1268557200, -25200, 3600, "MDT", Ghost(g))
        .step(1289116800, -25200, 0, "MST", Ghost(g))
        .step(1300006800, -25200, 3600, "MDT", Ghost(g))
        .step(1320566400, -25200, 0, "MST", Ghost(g))
        .step(1331456400, -25200, 3600, "MDT", Ghost(g))
        .step(1352016000, -25200, 0, "MST", Ghost(g))
        .step(1362906000, -25200, 3600, "MDT", Ghost(g))
        .step(1383465600, -25200, 0, "MST", Ghost(g))
        .step(1394355600, -25200, 3600, "MDT", Ghost(g))
        .step(1414915200, -25200, 0, "MST", Ghost(g))
        .step(1425805200, -25200, 3600, "MDT", Ghost(g))
        .step(1446364800, -25200, 0, "MST", Ghost(g))
        .step(1457859600, -25200, 3600, "MDT", Ghost(g))
        .step(1478419200, -25200, 0, "MST", Ghost(g))
        .step(1489309200, -25200, 3600, "MDT", Ghost(g))
        .step(1509868800, -25200, 0, "MST", Ghost(g))
        .step(1520758800, -25200, 3600, "MDT", Ghost(g))
        .step(1541318400, -25200, 0, "MST", Ghost(g))
        .step(1552208400, -25200, 3600, "MDT", Ghost(g))
        .step(1572768000, -25200, 0, "MST", Ghost(g))
        .step(1583658000, -25200, 3600, "MDT", Ghost(g))
        .step(1604217600, -25200, 0, "MST", Ghost(g))
        .step(1615712400, -25200, 3600, "MDT", Ghost(g))
        .step(1636272000, -25200, 0, "MST", Ghost(g))
        .step(1647162000, -25200, 3600, "MDT", Ghost(g))
        .step(1667721600, -25200, 0, "MST", Ghost(g))
        .step(1678611600, -25200, 3600, "MDT", Ghost(g))
        .step(1699171200, -25200, 0, "MST", Ghost(g))
        .step(1710061200, -25200, 3600, "MDT", Ghost(g))
        .step(1730620800, -25200, 0, "MST", Ghost(g))
        .step(1741510800, -25200, 3600, "MDT", Ghost(g))
        .step(1762070400, -25200, 0, "MST", Ghost(g))
        .step(1772960400, -25200, 3600, "MDT", Ghost(g))
        .step(1793520000, -25200, 0, "MST", Ghost(g))
        .step(1805014800, -25200, 3600, "MDT", Ghost(g))
        .step(1825574400, -25200, 0, "MST", Ghost(g))
        .step(1836464400, -25200, 3600, "MDT", Ghost(g))
        .step(1857024000, -25200, 0, "MST", Ghost(g))
        .step(1867914000, -25200, 3600, "MDT", Ghost(g))
        .step(1888473600, -25200, 0, "MST", Ghost(g))
        .step(1899363600, -25200, 3600, "MDT", Ghost(g))
        .step(1919923200, -25200, 0, "MST", Ghost(g))
        .step(1930813200, -25200, 3600, "MDT", Ghost(g))
        .step(1951372800, -25200, 0, "MST", Ghost(g))
        .step(1962867600, -25200, 3600, "MDT", Ghost(g))
        .step(1983427200, -25200, 0, "MST", Ghost(g))
        .step(1994317200, -25200, 3600, "MDT", Ghost(g))
        .step(2014876800, -25200, 0, "MST", Ghost(g))
        .step(2025766800, -25200, 3600, "MDT", Ghost(g))
        .step(2046326400, -25200, 0, "MST", Ghost(g))
        .step(2057216400, -25200, 3600, "MDT", Ghost(g))
        .step(2077776000, -25200, 0, "MST", Ghost(g))
        .step(2088666000, -25200, 3600, "MDT", Ghost(g))
        .step(2109225600, -25200, 0, "MST", Ghost(g))
        .step(2120115600, -25200, 3600, "MDT", Ghost(g))
        .step(2140675200, -25200, 0, "MST", Ghost(g))
        .finish(Ghost(g))
}

/// The zone `US/Pacific`.
pub fn pacific() -> (r: Tz)
    ensures
        r.wf(),
        r.zone_name() == "US/Pacific"@,
        r.table() == tables::us::pacific(),
{
    let ghost g = tables::us::pacific_rows();
    FixedTimespanSet::begin("US/Pacific", -28378, 0, "LMT", Ghost(g))
        .step(-2717640000, -28800, 0, "PST", Ghost(g))
        .step(-1633269600, -28800, 3600, "PDT", Ghost(g))
        .step(-1615129200, -28800, 0, "PST", Ghost(g))
        .step(-1601820000, -28800, 3600, "PDT", Ghost(g))
        .step(-1583679600, -28800, 0, "PST", Ghost(g))
        .step(-880207200, -28800, 3600, "PWT", Ghost(g))
        .step(-769395600, -28800, 3600, "PPT", Ghost(g))
        .step(-765385200, -28800, 0, "PST", Ghost(g))
        .step(-687967140, -28800, 3600, "PDT", Ghost(g))
        .step(-662655600, -28800, 0, "PST", Ghost(g))
        .step(-620838000, -28800, 3600, "PDT", Ghost(g))
        .step(-608137200, -28800, 0, "PST", Ghost(g))
        .step(-589388400, -28800, 3600, "PDT", Ghost(g))
        .step(-576082800, -28800, 0, "PST", Ghost(g))
        .step(-557938800, -28800, 3600, "PDT", Ghost(g))
        .step(-544633200, -28800, 0, "PST", Ghost(g))
        .step(-526489200, -28800, 3600, "PDT", Ghost(g))
        .step(-513183600, -28800, 0, "PST", Ghost(g))
        .step(-495039600, -28800, 3600, "PDT", Ghost(g))
        .step(-481734000, -28800, 0, "PST", Ghost(g))
        .step(-463590000, -28800, 3600, "PDT", Ghost(g))
        .step(-450284400, -28800, 0, "PST", Ghost(g))
        .step(-431535600, -28800, 3600, "PDT", Ghost(g))
        .step(-418230000, -28800, 0, "PST", Ghost(g))
        .step(-400086000, -28800, 3600, "PDT", Ghost(g))
        .step(-386780400, -28800, 0, "PST", Ghost(g))
        .step(-368636400, -28800, 3600, "PDT", Ghost(g))
        .step(-355330800, -28800, 0, "PST", Ghost(g))
        .step(-337186800, -28800, 3600, "PDT", Ghost(g))
        .step(-323881200, -28800, 0, "PST", Ghost(g))
        .step(-305737200, -28800, 3600, "PDT", Ghost(g))
        .step(-292431600, -28800, 0, "PST", Ghost(g))
        .step(-273682800, -28800, 3600, "PDT", Ghost(g))
        .step(-260982000, -28800, 0, "PST", Ghost(g))
        .step(-242233200, -28800, 3600, "PDT", Ghost(g))
        .step(-226508400, -28800, 0, "PST", Ghost(g))
        .step(-210783600, -28800, 3600, "PDT", Ghost(g))
        .step(-195058800, -28800, 0, "PST", Ghost(g))
        .step(-179334000, -28800, 3600, "PDT", Ghost(g))
        .step(-163609200, -28800, 0, "PST", Ghost(g))
        .step(-147884400, -28800, 3600, "PDT", Ghost(g))
        .step(-131554800, -28800, 0, "PST", Ghost(g))
        .step(-116434800, -28800, 3600, "PDT", Ghost(g))
        .step(-100105200, -28800, 0, "PST", Ghost(g))
        .step(-84376800, -28800, 3600, "PDT", Ghost(g))
        .step(-68655600, -28800, 0, "PST", Ghost(g))
        .step(-52927200, -28800, 3600, "PDT", Ghost(g))
        .step(-37206000, -28800, 0, "PST", Ghost(g))
        .step(-21477600, -28800, 3600, "PDT", Ghost(g))
        .step(-5756400, -28800, 0, "PST", Ghost(g))
        .step(9972000, -28800, 3600, "PDT", Ghost(g))
        .step(25693200, -28800, 0, "PST", Ghost(g))
        .step(41421600, -28800, 3600, "PDT", Ghost(g))
        .step(57747600, -28800, 0, "PST", Ghost(g))
        .step(73476000, -28800, 3600, "PDT", Ghost(g))
        .step(89197200, -28800, 0, "PST", Ghost(g))
        .step(104925600, -28800, 3600, "PDT", Ghost(g))
        .step(120646800, -28800, 0, "PST", Ghost(g))
        .step(126698400, -28800, 3600, "PDT", Ghost(g))
        .step(152096400, -28800, 0, "PST", Ghost(g))
        .step(162381600, -28800, 3600, "PDT", Ghost(g))
        .step(183546000, -28800, 0, "PST", Ghost(g))
        .step(199274400, -28800, 3600, "PDT", Ghost(g))
        .step(215600400, -28800, 0, "PST", Ghost(g))
        .step(230724000, -28800, 3600, "PDT", Ghost(g))
        .step(247050000, -28800, 0, "PST", Ghost(g))
        .step(262778400, -28800, 3600, "PDT", Ghost(g))
        .step(278499600, -28800, 0, "PST", Ghost(g))
        .step(294228000, -28800, 3600, "PDT", Ghost(g))
        .step(309949200, -28800, 0, "PST", Ghost(g))
        .step(325677600, -28800, 3600, "PDT", Ghost(g))
        .step(341398800, -28800, 0, "PST", Ghost(g))
        .step(357127200, -28800, 3600, "PDT", Ghost(g))
        .step(372848400, -28800, 0, "PST", Ghost(g))
        .step(388576800, -28800, 3600, "PDT", Ghost(g))
        .step(404902800, -28800, 0, "PST", Ghost(g))
        .step(420026400, -28800, 3600, "PDT", Ghost(g))
        .step(436352400, -28800, 0, "PST", Ghost(g))
        .step(452080800, -28800, 3600, "PDT", Ghost(g))
        .step(467802000, -28800, 0, "PST", Ghost(g))
        .step(483530400, -28800, 3600, "PDT", Ghost(g))
        .step(499251600, -28800, 0, "PST", Ghost(g))
        .step(514980000, -28800, 3600, "PDT", Ghost(g))
        .step(530701200, -28800, 0, "PST", Ghost(g))
        .step(544615200, -28800, 3600, "PDT", Ghost(g))
        .step(562150800, -28800, 0, "PST", Ghost(g))
        .step(576064800, -28800, 3600, "PDT", Ghost(g))
        .step(594205200, -28800, 0, "PST", Ghost(g))
        .step(607514400, -28800, 3600, "PDT", Ghost(g))
        .step(625654800, -28800, 0, "PST", Ghost(g))
        .step(638964000, -28800, 3600, "PDT", Ghost(g))
        .step(657104400, -28800, 0, "PST", Ghost(g))
        .step(671018400, -28800, 3600, "PDT", Ghost(g))
        .step(688554000, -28800, 0, "PST", Ghost(g))
        .step(702468000, -28800, 3600, "PDT", Ghost(g))
        .step(720003600, -28800, 0, "PST", Ghost(g))
        .step(733917600, -28800, 3600, "PDT", Ghost(g))
        .step(752058000, -28800, 0, "PST", Ghost(g))
        .step(765367200, -28800, 3600, "PDT", Ghost(g))
        .step(783507600, -28800, 0, "PST", Ghost(g))
        .step(796816800, -28800, 3600, "PDT", Ghost(g))
        .step(814957200, -28800, 0, "PST", Ghost(g))
        .step(828871200, -28800, 3600, "PDT", Ghost(g))
        .step(846406800, -28800, 0, "PST", Ghost(g))
        .step(860320800, -28800, 3600, "PDT", Ghost(g))
        .step(877856400, -28800, 0, "PST", Ghost(g))
        .step(891770400, -28800, 3600, "PDT", Ghost(g))
        .step(909306000, -28800, 0, "PST", Ghost(g))
        .step(923220000, -28800, 3600, "PDT", Ghost(g))
        .step(941360400, -28800, 0, "PST", Ghost(g))
        .step(954669600, -28800, 3600, "PDT", Ghost(g))
        .step(972810000, -28800, 0, "PST", Ghost(g))
        .step(986119200, -28800, 3600, "PDT", Ghost(g))
        .step(1004259600, -28800, 0, "PST", Ghost(g))
        .step(1018173600, -28800, 3600, "PDT", Ghost(g))
        .step(1035709200, -28800, 0, "PST", Ghost(g))
        .step(1049623200, -28800, 3600, "PDT", Ghost(g))
        .step(1067158800, -28800, 0, "PST", Ghost(g))
        .step(1081072800, -28800, 3600, "PDT", Ghost(g))
        .step(1099213200, -28800, 0, "PST", Ghost(g))
        .step(1112522400, -28800, 3600, "PDT", Ghost(g))
        .step(1130662800, -28800, 0, "PST", Ghost(g))
        .step(1143972000, -28800, 3600, "PDT", Ghost(g))
        .step(1162112400, -28800, 0, "PST", Ghost(g))
        .step(1173607200, -28800, 3600, "PDT", Ghost(g))
        .step(1194166800, -28800, 0, "PST", Ghost(g))
        .step(1205056800, -28800, 3600, "PDT", Ghost(g))
        .step(1225616400, -28800, 0, "PST", Ghost(g))
        .step(1236506400, -28800, 3600, "PDT", Ghost(g))
        .step(1257066000, -28800, 0, "PST", Ghost(g))
        .step(1268560800, -28800, 3600, "PDT", Ghost(g))
        .step(1289120400, -28800, 0, "PST", Ghost(g))
        .step(1300010400, -28800, 3600, "PDT", Ghost(g))
        .step(1320570000, -28800, 0, "PST", Ghost(g))
        .step(1331460000, -28800, 3600, "PDT", Ghost(g))
        .step(1352019600, -28800, 0, "PST", Ghost(g))
        .step(1362909600, -28800, 3600, "PDT", Ghost(g))
        .step(1383469200, -28800, 0, "PST", Ghost(g))
        .step(1394359200, -28800, 3600, "PDT", Ghost(g))
        .step(1414918800, -28800, 0, "PST", Ghost(g))
        .step(1425808800, -28800, 3600, "PDT", Ghost(g))
        .step(1446368400, -28800, 0, "PST", Ghost(g))
        .step(1457863200, -28800, 3600, "PDT", Ghost(g))
        .step(1478422800, -28800, 0, "PST", Ghost(g))
        .step(1489312800, -28800, 3600, "PDT", Ghost(g))
        .step(1509872400, -28800, 0, "PST", Ghost(g))
        .step(1520762400, -28800, 3600, "PDT", Ghost(g))
        .step(1541322000, -28800, 0, "PST", Ghost(g))
        .step(1552212000, -28800, 3600, "PDT", Ghost(g))
        .step(1572771600, -28800, 0, "PST", Ghost(g))
        .step(1583661600, -28800, 3600, "PDT", Ghost(g))
        .step(1604221200, -28800, 0, "PST", Ghost(g))
        .step(1615716000, -28800, 3600, "PDT", Ghost(g))
        .step(1636275600, -28800, 0, "PST", Ghost(g))
        .step(1647165600, -28800, 3600, "PDT", Ghost(g))
        .step(1667725200, -28800, 0, "PST", Ghost(g))
        .step(1678615200, -28800, 3600, "PDT", Ghost(g))
        .step(1699174800, -28800, 0, "PST", Ghost(g))
        .step(1710064800, -28800, 3600, "PDT", Ghost(g))
        .step(1730624400, -28800, 0, "PST", Ghost(g))
        .step(1741514400, -28800, 3600, "PDT", Ghost(g))
        .step(1762074000, -28800, 0, "PST", Ghost(g))
        .step(1772964000, -28800, 3600, "PDT", Ghost(g))
        .step(1793523600, -28800, 0, "PST", Ghost(g))
        .step(1805018400, -28800, 3600, "PDT", Ghost(g))
        .step(1825578000, -28800, 0, "PST", Ghost(g))
        .step(1836468000, -28800, 3600, "PDT", Ghost(g))
        .step(1857027600, -28800, 0, "PST", Ghost(g))
        .step(1867917600, -28800, 3600, "PDT", Ghost(g))
        .step(1888477200, -28800, 0, "PST", Ghost(g))
        .step(1899367200, -28800, 3600, "PDT", Ghost(g))
        .step(1919926800, -28800, 0, "PST", Ghost(g))
        .step(1930816800, -28800, 3600, "PDT", Ghost(g))
        .step(1951376400, -28800, 0, "PST", Ghost(g))
        .step(1962871200, -28800, 3600, "PDT", Ghost(g))
        .step(1983430800, -28800, 0, "PST", Ghost(g))
        .step(1994320800, -28800, 3600, "PDT", Ghost(g))
        .step(2014880400, -28800, 0, "PST", Ghost(g))
        .step(2025770400, -28800, 3600, "PDT", Ghost(g))
        .step(2046330000, -28800, 0, "PST", Ghost(g))
        .step(2057220000, -28800, 3600, "PDT", Ghost(g))
        .step(2077779600, -28800, 0, "PST", Ghost(g))
        .step(2088669600, -28800, 3600, "PDT", Ghost(g))
        .step(2109229200, -28800, 0, "PST", Ghost(g))
        .step(2120119200, -28800, 3600, "PDT", Ghost(g))
        .step(2140678800, -28800, 0, "PST", Ghost(g))
        .finish(Ghost(g))
}

/// The zone `US/Samoa`.
pub fn samoa() -> (r: Tz)
    ensures
        r.wf(),
        r.zone_name() == "US/Samoa"@,
        r.table() == tables::us::samoa(),
{
    let ghost g = tables::us::samoa_rows();
    FixedTimespanSet::begin("US/Samoa", 45432, 0, "LMT", Ghost(g))
        .step(-2445424632, -40968, 0, "LMT", Ghost(g))
        .step(-1861879032, -39600, 0, "SST", Ghost(g))
        .finish(Ghost(g))
}

} // verus!
