//! Zones of Chile, under their older names.

use crate::interface::TimeZone;
use crate::timezone_impl::{FixedTimespanSet, Tz};
use crate::timezones::tables;
use vstd::prelude::*;

verus! {

/// The zone `Chile/Continental`.
pub fn continental() -> (r: Tz)
    ensures
        r.wf(),
        r.zone_name() == "Chile/Continental"@,
        r.table() == tables::chile::continental(),
{
    let ghost g = tables::chile::continental_rows();
    FixedTimespanSet::begin("Chile/Continental", -16965, 0, "LMT", Ghost(g))
        .step(-2524504635, -16965, 0, "SMT", Ghost(g))
        .step(-1892661435, -18000, 0, "-05", Ghost(g))
        .step(-1688410800, -16965, 0, "SMT", Ghost(g))
        .step(-1619205435, -14400, 0, "-04", Ghost(g))
        .step(-1593806400, -16965, 0, "SMT", Ghost(g))
        .step(-1335986235, -16965, 2565, "-04", Ghost(g))
        .step(-1317585600, -18000, 0, "-05", Ghost(g))
        .step(-1304362800, -18000, 3600, "-04", Ghost(g))
        .step(-1286049600, -18000, 0, "-05", Ghost(g))
        .step(-1272826800, -18000, 3600, "-04", Ghost(g))
        .step(-1254513600, -18000, 0, "-05", Ghost(g))
        .step(-1241290800, -18000, 3600, "-04", Ghost(g))
        .step(-1222977600, -18000, 0, "-05", Ghost(g))
        .step(-1209754800, -18000, 3600, "-04", Ghost(g))
        .step(-1191355200, -18000, 0, "-05", Ghost(g))
        .step(-1178132400, -14400, 0, "-04", Ghost(g))
        .step(-870552000, -18000, 0, "-05", Ghost(g))
        .step(-865278000, -14400, 0, "-04", Ghost(g))
        .step(-740520000, -14400, 3600, "-03", Ghost(g))
        .step(-736635600, -18000, 3600, "-04", Ghost(g))
        .step(-718056000, -18000, 0, "-05", Ghost(g))
        .step(-713649600, -14400, 0, "-04", Ghost(g))
        .step(-36619200, -14400, 3600, "-03", Ghost(g))
        .step(-23922000, -14400, 0, "-04", Ghost(g))
        .step(-3355200, -14400, 3600, "-03", Ghost(g))
        .step(7527600, -14400, 0, "-04", Ghost(g))
        .step(24465600, -14400, 3600, "-03", Ghost(g))
        .step(37767600, -14400, 0, "-04", Ghost(g))
        .step(55915200, -14400, 3600, "-03", Ghost(g))
        .step(69217200, -14400, 0, "-04", Ghost(g))
        .step(87969600, -14400, 3600, "-03", Ghost(g))
        .step(100666800, -14400, 0, "-04", Ghost(g))
        .step(118209600, -14400, 3600, "-03", Ghost(g))
        .step(132116400, -14400, 0, "-04", Ghost(g))
        .step(150868800, -14400, 3600, "-03", Ghost(g))
        .step(163566000, -14400, 0, "-04", Ghost(g))
        .step(182318400, -14400, 3600, "-03", Ghost(g))
        .step(195620400, -14400, 0, "-04", Ghost(g))
        .step(213768000, -14400, 3600, "-03", Ghost(g))
        .step(227070000, -14400, 0, "-04", Ghost(g))
        .step(245217600, -14400, 3600, "-03", Ghost(g))
        .step(258519600, -14400, 0, "-04", Ghost(g))
        .step(277272000, -14400, 3600, "-03", Ghost(g))
        .step(289969200, -14400, 0, "-04", Ghost(g))
        .step(308721600, -14400, 3600, "-03", Ghost(g))
        .step(321418800, -14400, 0, "-04", Ghost(g))
        .step(340171200, -14400, 3600, "-03", Ghost(g))
        .step(353473200, -14400, 0, "-04", Ghost(g))
        .step(371620800, -14400, 3600, "-03", Ghost(g))
        .step(384922800, -14400, 0, "-04", Ghost(g))
        .step(403070400, -14400, 3600, "-03", Ghost(g))
        .step(416372400, -14400, 0, "-04", Ghost(g))
        .step(434520000, -14400, 3600, "-03", Ghost(g))
        .step(447822000, -14400, 0, "-04", Ghost(g))
        .step(466574400, -14400, 3600, "-03", Ghost(g))
        .step(479271600, -14400, 0, "-04", Ghost(g))
        .step(498024000, -14400, 3600, "-03", Ghost(g))
        .step(510721200, -14400, 0, "-04", Ghost(g))
        .step(529473600, -14400, 3600, "-03", Ghost(g))
        .step(545194800, -14400, 0, "-04", Ghost(g))
        .step(560923200, -14400, 3600, "-03", Ghost(g))
        .step(574225200, -14400, 0, "-04", Ghost(g))
        .step(592372800, -14400, 3600, "-03", Ghost(g))
        .step(605674800, -14400, 0, "-04", Ghost(g))
        .step(624427200, -14400, 3600, "-03", Ghost(g))
        .step(637124400, -14400, 0, "-04", Ghost(g))
        .step(653457600, -14400, 3600, "-03", Ghost(g))
        .step(668574000, -14400, 0, "-04", Ghost(g))
        .step(687326400, -14400, 3600, "-03", Ghost(g))
        .step(700628400, -14400, 0, "-04", Ghost(g))
        .step(718776000, -14400, 3600, "-03", Ghost(g))
        .step(732078000, -14400, 0, "-04", Ghost(g))
        .step(750225600, -14400, 3600, "-03", Ghost(g))
        .step(763527600, -14400, 0, "-04", Ghost(g))
        .step(781675200, -14400, 3600, "-03", Ghost(g))
        .step(794977200, -14400, 0, "-04", Ghost(g))
        .step(813729600, -14400, 3600, "-03", Ghost(g))
        .step(826426800, -14400, 0, "-04", Ghost(g))
        .step(845179200, -14400, 3600, "-03", Ghost(g))
        .step(859690800, -14400, 0, "-04", Ghost(g))
        .step(876628800, -14400, 3600, "-03", Ghost(g))
        .step(889930800, -14400, 0, "-04", Ghost(g))
        .step(906868800, -14400, 3600, "-03", Ghost(g))
        .step(923194800, -14400, 0, "-04", Ghost(g))
        .step(939528000, -14400, 3600, "-03", Ghost(g))
        .step(952830000, -14400, 0, "-04", Ghost(g))
        .step(971582400, -14400, 3600, "-03", Ghost(g))
        .step(984279600, -14400, 0, "-04", Ghost(g))
        .step(1003032000, -14400, 3600, "-03", Ghost(g))
        .step(1015729200, -14400, 0, "-04", Ghost(g))
        .step(1034481600, -14400, 3600, "-03", Ghost(g))
        .step(1047178800, -14400, 0, "-04", Ghost(g))
        .step(1065931200, -14400, 3600, "-03", Ghost(g))
        .step(1079233200, -14400, 0, "-04", Ghost(g))
        .step(1097380800, -14400, 3600, "-03", Ghost(g))
        .step(1110682800, -14400, 0, "-04", Ghost(g))
        .step(1128830400, -14400, 3600, "-03", Ghost(g))
        .step(1142132400, -14400, 0, "-04", Ghost(g))
        .step(1160884800, -14400, 3600, "-03", Ghost(g))
        .step(1173582000, -14400, 0, "-04", Ghost(g))
        .step(1192334400, -14400, 3600, "-03", Ghost(g))
        .step(1206846000, -14400, 0, "-04", Ghost(g))
        .step(1223784000, -14400, 3600, "-03", Ghost(g))
        .step(1237086000, -14400, 0, "-04", Ghost(g))
        .step(1255233600, -14400, 3600, "-03", Ghost(g))
        .step(1270350000, -14400, 0, "-04", Ghost(g))
        .step(1286683200, -14400, 3600, "-03", Ghost(g))
        .step(1304823600, -14400, 0, "-04", Ghost(g))
        .step(1313899200, -14400, 3600, "-03", Ghost(g))
        .step(1335668400, -14400, 0, "-04", Ghost(g))
        .step(1346558400, -14400, 3600, "-03", Ghost(g))
        .step(1367118000, -14400, 0, "-04", Ghost(g))
        .step(1378612800, -14400, 3600, "-03", Ghost(g))
        .step(1398567600, -14400, 0, "-04", Ghost(g))
        .step(1410062400, -14400, 3600, "-03", Ghost(g))
        .step(1463281200, -14400, 0, "-04", Ghost(g))
        .step(1471147200, -14400, 3600, "-03", Ghost(g))
        .step(1494730800, -14400, 0, "-04", Ghost(g))
        .step(1502596800, -14400, 3600, "-03", Ghost(g))
        .step(1526180400, -14400, 0, "-04", Ghost(g))
        .step(1534046400, -14400, 3600, "-03", Ghost(g))
        .step(1554606000, -14400, 0, "-04", Ghost(g))
        .step(1567915200, -14400, 3600, "-03", Ghost(g))
        .step(1586055600, -14400, 0, "-04", Ghost(g))
        .step(1599364800, -14400, 3600, "-03", Ghost(g))
        .step(1617505200, -14400, 0, "-04", Ghost(g))
        .step(1630814400, -14400, 3600, "-03", Ghost(g))
        .step(1648954800, -14400, 0, "-04", Ghost(g))
        .step(1662868800, -14400, 3600, "-03", Ghost(g))
        .step(1680404400, -14400, 0, "-04", Ghost(g))
        .step(1693713600, -14400, 3600, "-03", Ghost(g))
        .step(1712458800, -14400, 0, "-04", Ghost(g))
        .step(1725768000, -14400, 3600, "-03", Ghost(g))
        .step(1743908400, -14400, 0, "-04", Ghost(g))
        .step(1757217600, -14400, 3600, "-03", Ghost(g))
        .step(1775358000, -14400, 0, "-04", Ghost(g))
        .step(1788667200, -14400, 3600, "-03", Ghost(g))
        .step(1806807600, -14400, 0, "-04", Ghost(g))
        .step(1820116800, -14400, 3600, "-03", Ghost(g))
        .step(1838257200, -14400, 0, "-04", Ghost(g))
        .step(1851566400, -14400, 3600, "-03", Ghost(g))
        .step(1870311600, -14400, 0, "-04", Ghost(g))
        .step(1883016000, -14400, 3600, "-03", Ghost(g))
        .step(1901761200, -14400, 0, "-04", Ghost(g))
        .step(1915070400, -14400, 3600, "-03", Ghost(g))
        .step(1933210800, -14400, 0, "-04", Ghost(g))
        .step(1946520000, -14400, 3600, "-03", Ghost(g))
        .step(1964660400, -14400, 0, "-04", Ghost(g))
        .step(1977969600, -14400, 3600, "-03", Ghost(g))
        .step(1996110000, -14400, 0, "-04", Ghost(g))
        .step(2009419200, -14400, 3600, "-03", Ghost(g))
        .step(2027559600, -14400, 0, "-04", Ghost(g))
        .step(2040868800, -14400, 3600, "-03", Ghost(g))
        .step(2059614000, -14400, 0, "-04", Ghost(g))
        .step(2072318400, -14400, 3600, "-03", Ghost(g))
        .step(2091063600, -14400, 0, "-04", Ghost(g))
        .step(2104372800, -14400, 3600, "-03", Ghost(g))
        .step(2122513200, -14400, 0, "-04", Ghost(g))
        .step(2135822400, -14400, 3600, "-03", Ghost(g))
        .step(2147483647, -14400, 3600, "-03", Ghost(g))
        .finish(Ghost(g))
}

/// The zone `Chile/EasterIsland`.
pub fn easterisland() -> (r: Tz)
    ensures
        r.wf(),
        r.zone_name() == "Chile/EasterIsland"@,
        r.table() == tables::chile::easterisland(),
{
    let ghost g = tables::chile::easterisland_rows();
    FixedTimespanSet::begin("Chile/EasterIsland", -26248, 0, "LMT", Ghost(g))
        .step(-2524495352, -26248, 0, "EMT", Ghost(g))
        .step(-1178124152, -25200, 0, "-07", Ghost(g))
        .step(-36619200, -25200, 3600, "-06", Ghost(g))
        .step(-23922000, -25200, 0, "-07", Ghost(g))
        .step(-3355200, -25200, 3600, "-06", Ghost(g))
        .step(7527600, -25200, 0, "-07", Ghost(g))
        .step(24465600, -25200, 3600, "-06", Ghost(g))
        .step(37767600, -25200, 0, "-07", Ghost(g))
        .step(55915200, -25200, 3600, "-06", Ghost(g))
        .step(69217200, -25200, 0, "-07", Ghost(g))
        .step(87969600, -25200, 3600, "-06", Ghost(g))
        .step(100666800, -25200, 0, "-07", Ghost(g))
        .step(118209600, -25200, 3600, "-06", Ghost(g))
        .step(132116400, -25200, 0, "-07", Ghost(g))
        .step(150868800, -25200, 3600, "-06", Ghost(g))
        .step(163566000, -25200, 0, "-07", Ghost(g))
        .step(182318400, -25200, 3600, "-06", Ghost(g))
        .step(195620400, -25200, 0, "-07", Ghost(g))
        .step(213768000, -25200, 3600, "-06", Ghost(g))
        .step(227070000, -25200, 0, "-07", Ghost(g))
        .step(245217600, -25200, 3600, "-06", Ghost(g))
        .step(258519600, -25200, 0, "-07", Ghost(g))
        .step(277272000, -25200, 3600, "-06", Ghost(g))
        .step(289969200, -25200, 0, "-07", Ghost(g))
        .step(308721600, -25200, 3600, "-06", Ghost(g))
        .step(321418800, -25200, 0, "-07", Ghost(g))
        .step(340171200, -25200, 3600, "-06", Ghost(g))
        .step(353473200, -25200, 0, "-07", Ghost(g))
        .step(371620800, -25200, 3600, "-06", Ghost(g))
        .step(384922800, -21600, 0, "-06", Ghost(g))
        .step(403070400, -21600, 3600, "-05", Ghost(g))
        .step(416372400, -21600, 0, "-06", Ghost(g))
        .step(434520000, -21600, 3600, "-05", Ghost(g))
        .step(447822000, -21600, 0, "-06", Ghost(g))
        .step(466574400, -21600, 3600, "-05", Ghost(g))
        .step(479271600, -21600, 0, "-06", Ghost(g))
        .step(498024000, -21600, 3600, "-05", Ghost(g))
        .step(510721200, -21600, 0, "-06", Ghost(g))
        .step(529473600, -21600, 3600, "-05", Ghost(g))
        .step(545194800, -21600, 0, "-06", Ghost(g))
        .step(560923200, -21600, 3600, "-05", Ghost(g))
        .step(574225200, -21600, 0, "-06", Ghost(g))
        .step(592372800, -21600, 3600, "-05", Ghost(g))
        .step(605674800, -21600, 0, "-06", Ghost(g))
        .step(624427200, -21600, 3600, "-05", Ghost(g))
        .step(637124400, -21600, 0, "-06", Ghost(g))
        .step(653457600, -21600, 3600, "-05", Ghost(g))
        .step(668574000, -21600, 0, "-06", Ghost(g))
        .step(687326400, -21600, 3600, "-05", Ghost(g))
        .step(700628400, -21600, 0, "-06", Ghost(g))
        .step(718776000, -21600, 3600, "-05", Ghost(g))
        .step(732078000, -21600, 0, "-06", Ghost(g))
        .step(750225600, -21600, 3600, "-05", Ghost(g))
        .step(763527600, -21600, 0, "-06", Ghost(g))
        .step(781675200, -21600, 3600, "-05", Ghost(g))
        .step(794977200, -21600, 0, "-06", Ghost(g))
        .step(813729600, -21600, 3600, "-05", Ghost(g))
        .step(826426800, -21600, 0, "-06", Ghost(g))
        .step(845179200, -21600, 3600, "-05", Ghost(g))
        .step(859690800, -21600, 0, "-06", Ghost(g))
        .step(876628800, -21600, 3600, "-05", Ghost(g))
        .step(889930800, -21600, 0, "-06", Ghost(g))
        .step(906868800, -21600, 3600, "-05", Ghost(g))
        .step(923194800, -21600, 0, "-06", Ghost(g))
        .step(939528000, -21600, 3600, "-05", Ghost(g))
        .step(952830000, -21600, 0, "-06", Ghost(g))
        .step(971582400, -21600, 3600, "-05", Ghost(g))
        .step(984279600, -21600, 0, "-06", Ghost(g))
        .step(1003032000, -21600, 3600, "-05", Ghost(g))
        .step(1015729200, -21600, 0, "-06", Ghost(g))
        .step(1034481600, -21600, 3600, "-05", Ghost(g))
        .step(1047178800, -21600, 0, "-06", Ghost(g))
        .step(1065931200, -21600, 3600, "-05", Ghost(g))
        .step(1079233200, -21600, 0, "-06", Ghost(g))
        .step(1097380800, -21600, 3600, "-05", Ghost(g))
        .step(1110682800, -21600, 0, "-06", Ghost(g))
        .step(1128830400, -21600, 3600, "-05", Ghost(g))
        .step(1142132400, -21600, 0, "-06", Ghost(g))
        .step(1160884800, -21600, 3600, "-05", Ghost(g))
        .step(1173582000, -21600, 0, "-06", Ghost(g))
        .step(1192334400, -21600, 3600, "-05", Ghost(g))
        .step(1206846000, -21600, 0, "-06", Ghost(g))
        .step(1223784000, -21600, 3600, "-05", Ghost(g))
        .step(1237086000, -21600, 0, "-06", Ghost(g))
        .step(1255233600, -21600, 3600, "-05", Ghost(g))
        .step(1270350000, -21600, 0, "-06", Ghost(g))
        .step(1286683200, -21600, 3600, "-05", Ghost(g))
        .step(1304823600, -21600, 0, "-06", Ghost(g))
        .step(1313899200, -21600, 3600, "-05", Ghost(g))
        .step(1335668400, -21600, 0, "-06", Ghost(g))
        .step(1346558400, -21600, 3600, "-05", Ghost(g))
        .step(1367118000, -21600, 0, "-06", Ghost(g))
        .step(1378612800, -21600, 3600, "-05", Ghost(g))
        .step(1398567600, -21600, 0, "-06", Ghost(g))
        .step(1410062400, -21600, 3600, "-05", Ghost(g))
        .step(1463281200, -21600, 0, "-06", Ghost(g))
        .step(1471147200, -21600, 3600, "-05", Ghost(g))
        .step(1494730800, -21600, 0, "-06", Ghost(g))
        .step(1502596800, -21600, 3600, "-05", Ghost(g))
        .step(1526180400, -21600, 0, "-06", Ghost(g))
        .step(1534046400, -21600, 3600, "-05", Ghost(g))
        .step(1554606000, -21600, 0, "-06", Ghost(g))
        .step(1567915200, -21600, 3600, "-05", Ghost(g))
        .step(1586055600, -21600, 0, "-06", Ghost(g))
        .step(1599364800, -21600, 3600, "-05", Ghost(g))
        .step(1617505200, -21600, 0, "-06", Ghost(g))
        .step(1630814400, -21600, 3600, "-05", Ghost(g))
        .step(1648954800, -21600, 0, "-06", Ghost(g))
        .step(1662868800, -21600, 3600, "-05", Ghost(g))
        .step(1680404400, -21600, 0, "-06", Ghost(g))
        .step(1693713600, -21600, 3600, "-05", Ghost(g))
        .step(1712458800, -21600, 0, "-06", Ghost(g))
        .step(1725768000, -21600, 3600, "-05", Ghost(g))
        .step(1743908400, -21600, 0, "-06", Ghost(g))
        .step(1757217600, -21600, 3600, "-05", Ghost(g))
        .step(1775358000, -21600, 0, "-06", Ghost(g))
        .step(1788667200, -21600, 3600, "-05", Ghost(g))
        .step(1806807600, -21600, 0, "-06", Ghost(g))
        .step(1820116800, -21600, 3600, "-05", Ghost(g))
        .step(1838257200, -21600, 0, "-06", Ghost(g))
        .step(1851566400, -21600, 3600, "-05", Ghost(g))
        .step(1870311600, -21600, 0, "-06", Ghost(g))
        .step(1883016000, -21600, 3600, "-05", Ghost(g))
        .step(1901761200, -21600, 0, "-06", Ghost(g))
        .step(1915070400, -21600, 3600, "-05", Ghost(g))
        .step(1933210800, -21600, 0, "-06", Ghost(g))
        .step(1946520000, -21600, 3600, "-05", Ghost(g))
        .step(1964660400, -21600, 0, "-06", Ghost(g))
        .step(1977969600, -21600, 3600, "-05", Ghost(g))
        .step(1996110000, -21600, 0, "-06", Ghost(g))
        .step(2009419200, -21600, 3600, "-05", Ghost(g))
        .step(2027559600, -21600, 0, "-06", Ghost(g))
        .step(2040868800, -21600, 3600, "-05", Ghost(g))
        .step(2059614000, -21600, 0, "-06", Ghost(g))
        .step(2072318400, -21600, 3600, "-05", Ghost(g))
        .step(2091063600, -21600, 0, "-06", Ghost(g))
        .step(2104372800, -21600, 3600, "-05", Ghost(g))
        .step(2122513200, -21600, 0, "-06", Ghost(g))
        .step(2135822400, -21600, 3600, "-05", Ghost(g))
        .step(2147483647, -21600, 3600, "-05", Ghost(g))
        .finish(Ghost(g))
}

} // verus!
