//! Zones of Brazil, under their older names.

use crate::interface::TimeZone;
use crate::timezone_impl::{FixedTimespanSet, Tz};
use crate::timezones::tables;
use vstd::prelude::*;

verus! {

/// The zone `Brazil/Acre`.
pub fn acre() -> (r: Tz)
    ensures
        r.wf(),
        r.zone_name() == "Brazil/Acre"@,
        r.table() == tables::brazil::acre(),
{
    let ghost g = tables::brazil::acre_rows();
    FixedTimespanSet::begin("Brazil/Acre", -16272, 0, "LMT", Ghost(g))
        .step(-1767209328, -18000, 0, "-05", Ghost(g))
        .step(-1206950400, -18000, 3600, "-04", Ghost(g))
        .step(-1191355200, -18000, 0, "-05", Ghost(g))
        .step(-1175367600, -18000, 3600, "-04", Ghost(g))
        .step(-1159819200, -18000, 0, "-05", Ghost(g))
        .step(-633812400, -18000, 3600, "-04", Ghost(g))
        .step(-622062000, -18000, 0, "-05", Ghost(g))
        .step(-602276400, -18000, 3600, "-04", Ghost(g))
        .step(-591825600, -18000, 0, "-05", Ghost(g))
        .step(-570740400, -18000, 3600, "-04", Ghost(g))
        .step(-560203200, -18000, 0, "-05", Ghost(g))
        .step(-539118000, -18000, 3600, "-04", Ghost(g))
        .step(-531345600, -18000, 0, "-05", Ghost(g))
        .step(-191358000, -18000, 3600, "-04", Ghost(g))
        .step(-184190400, -18000, 0, "-05", Ghost(g))
        .step(-155156400, -18000, 3600, "-04", Ghost(g))
        .step(-150062400, -18000, 0, "-05", Ghost(g))
        .step(-128890800, -18000, 3600, "-04", Ghost(g))
        .step(-121118400, -18000, 0, "-05", Ghost(g))
        .step(-99946800, -18000, 3600, "-04", Ghost(g))
        .step(-89582400, -18000, 0, "-05", Ghost(g))
        .step(-68410800, -18000, 3600, "-04", Ghost(g))
        .step(-57960000, -18000, 0, "-05", Ghost(g))
        .step(499755600, -18000, 3600, "-04", Ghost(g))
        .step(511243200, -18000, 0, "-05", Ghost(g))
        .step(530600400, -18000, 3600, "-04", Ghost(g))
        .step(540273600, -18000, 0, "-05", Ghost(g))
        .step(562136400, -18000, 3600, "-04", Ghost(g))
        .step(571204800, -18000, 0, "-05", Ghost(g))
        .step(1214283600, -14400, 0, "-04", Ghost(g))
        .step(1384056000, -18000, 0, "-05", Ghost(g))
        .step(2147483647, -18000, 0, "-05", Ghost(g))
        .finish(Ghost(g))
}

/// The zone `Brazil/DeNoronha`.
pub fn denoronha() -> (r: Tz)
    ensures
        r.wf(),
        r.zone_name() == "Brazil/DeNoronha"@,
        r.table() == tables::brazil::denoronha(),
{
    let ghost g = tables::brazil::denoronha_rows();
    FixedTimespanSet::begin("Brazil/DeNoronha", -7780, 0, "LMT", Ghost(g))
        .step(-1767217820, -7200, 0, "-02", Ghost(g))
        .step(-1206961200, -7200, 3600, "-01", Ghost(g))
        .step(-1191366000, -7200, 0, "-02", Ghost(g))
        .step(-1175378400, -7200, 3600, "-01", Ghost(g))
        .step(-1159830000, -7200, 0, "-02", Ghost(g))
        .step(-633823200, -7200, 3600, "-01", Ghost(g))
        .step(-622072800, -7200, 0, "-02", Ghost(g))
        .step(-602287200, -7200, 3600, "-01", Ghost(g))
        .step(-591836400, -7200, 0, "-02", Ghost(g))
        .step(-570751200, -7200, 3600, "-01", Ghost(g))
        .step(-560214000, -7200, 0, "-02", Ghost(g))
        .step(-539128800, -7200, 3600, "-01", Ghost(g))
        .step(-531356400, -7200, 0, "-02", Ghost(g))
        .step(-191368800, -7200, 3600, "-01", Ghost(g))
        .step(-184201200, -7200, 0, "-02", Ghost(g))
        .step(-155167200, -7200, 3600, "-01", Ghost(g))
        .step(-150073200, -7200, 0, "-02", Ghost(g))
        .step(-128901600, -7200, 3600, "-01", Ghost(g))
        .step(-121129200, -7200, 0, "-02", Ghost(g))
        .step(-99957600, -7200, 3600, "-01", Ghost(g))
        .step(-89593200, -7200, 0, "-02", Ghost(g))
        .step(-68421600, -7200, 3600, "-01", Ghost(g))
        .step(-57970800, -7200, 0, "-02", Ghost(g))
        .step(499744800, -7200, 3600, "-01", Ghost(g))
        .step(511232400, -7200, 0, "-02", Ghost(g))
        .step(530589600, -7200, 3600, "-01", Ghost(g))
        .step(540262800, -7200, 0, "-02", Ghost(g))
        .step(562125600, -7200, 3600, "-01", Ghost(g))
        .step(571194000, -7200, 0, "-02", Ghost(g))
        .step(592970400, -7200, 3600, "-01", Ghost(g))
        .step(602038800, -7200, 0, "-02", Ghost(g))
        .step(624420000, -7200, 3600, "-01", Ghost(g))
        .step(634698000, -7200, 0, "-02", Ghost(g))
        .step(938916000, -7200, 3600, "-01", Ghost(g))
        .step(951613200, -7200, 0, "-02", Ghost(g))
        .step(970970400, -7200, 3600, "-01", Ghost(g))
        .step(971571600, -7200, 0, "-02", Ghost(g))
        .step(1003024800, -7200, 3600, "-01", Ghost(g))
        .step(1013907600, -7200, 0, "-02", Ghost(g))
        .step(2147483647, -7200, 0, "-02", Ghost(g))
        .finish(Ghost(g))
}

/// The zone `Brazil/East`.
pub fn east() -> (r: Tz)
    ensures
        r.wf(),
        r.zone_name() == "Brazil/East"@,
        r.table() == tables::brazil::east(),
{
    let ghost g = tables::brazil::east_rows();
    FixedTimespanSet::begin("Brazil/East", -11188, 0, "LMT", Ghost(g))
        .step(-1767214412, -10800, 0, "-03", Ghost(g))
        .step(-1206957600, -10800, 3600, "-02", Ghost(g))
        .step(-1191362400, -10800, 0, "-03", Ghost(g))
        .step(-1175374800, -10800, 3600, "-02", Ghost(g))
        .step(-1159826400, -10800, 0, "-03", Ghost(g))
        .step(-633819600, -10800, 3600, "-02", Ghost(g))
        .step(-622069200, -10800, 0, "-03", Ghost(g))
        .step(-602283600, -10800, 3600, "-02", Ghost(g))
        .step(-591832800, -10800, 0, "-03", Ghost(g))
        .step(-570747600, -10800, 3600, "-02", Ghost(g))
        .step(-560210400, -10800, 0, "-03", Ghost(g))
        .step(-539125200, -10800, 3600, "-02", Ghost(g))
        .step(-531352800, -10800, 0, "-03", Ghost(g))
        .step(-195426000, -10800, 3600, "-02", Ghost(g))
        .step(-184197600, -10800, 0, "-03", Ghost(g))
        .step(-155163600, -10800, 3600, "-02", Ghost(g))
        .step(-150069600, -10800, 0, "-03", Ghost(g))
        .step(-128898000, -10800, 3600, "-02", Ghost(g))
        .step(-121125600, -10800, 0, "-03", Ghost(g))
        .step(-99954000, -10800, 3600, "-02", Ghost(g))
        .step(-89589600, -10800, 0, "-03", Ghost(g))
        .step(-68418000, -10800, 3600, "-02", Ghost(g))
        .step(-57967200, -10800, 0, "-03", Ghost(g))
        .step(499748400, -10800, 3600, "-02", Ghost(g))
        .step(511236000, -10800, 0, "-03", Ghost(g))
        .step(530593200, -10800, 3600, "-02", Ghost(g))
        .step(540266400, -10800, 0, "-03", Ghost(g))
        .step(562129200, -10800, 3600, "-02", Ghost(g))
        .step(571197600, -10800, 0, "-03", Ghost(g))
        .step(592974000, -10800, 3600, "-02", Ghost(g))
        .step(602042400, -10800, 0, "-03", Ghost(g))
        .step(624423600, -10800, 3600, "-02", Ghost(g))
        .step(634701600, -10800, 0, "-03", Ghost(g))
        .step(656478000, -10800, 3600, "-02", Ghost(g))
        .step(666756000, -10800, 0, "-03", Ghost(g))
        .step(687927600, -10800, 3600, "-02", Ghost(g))
        .step(697600800, -10800, 0, "-03", Ghost(g))
        .step(719982000, -10800, 3600, "-02", Ghost(g))
        .step(728445600, -10800, 0, "-03", Ghost(g))
        .step(750826800, -10800, 3600, "-02", Ghost(g))
        .step(761709600, -10800, 0, "-03", Ghost(g))
        .step(782276400, -10800, 3600, "-02", Ghost(g))
        .step(793159200, -10800, 0, "-03", Ghost(g))
        .step(813726000, -10800, 3600, "-02", Ghost(g))
        .step(824004000, -10800, 0, "-03", Ghost(g))
        .step(844570800, -10800, 3600, "-02", Ghost(g))
        .step(856058400, -10800, 0, "-03", Ghost(g))
        .step(876106800, -10800, 3600, "-02", Ghost(g))
        .step(888717600, -10800, 0, "-03", Ghost(g))
        .step(908074800, -10800, 3600, "-02", Ghost(g))
        .step(919562400, -10800, 0, "-03", Ghost(g))
        .step(938919600, -10800, 3600, "-02", Ghost(g))
        .step(951616800, -10800, 0, "-03", Ghost(g))
        .step(970974000, -10800, 3600, "-02", Ghost(g))
        .step(982461600, -10800, 0, "-03", Ghost(g))
        .step(1003028400, -10800, 3600, "-02", Ghost(g))
        .step(1013911200, -10800, 0, "-03", Ghost(g))
        .step(1036292400, -10800, 3600, "-02", Ghost(g))
        .step(1045360800, -10800, 0, "-03", Ghost(g))
        .step(1066532400, -10800, 3600, "-02", Ghost(g))
        .step(1076810400, -10800, 0, "-03", Ghost(g))
        .step(1099364400, -10800, 3600, "-02", Ghost(g))
        .step(1108864800, -10800, 0, "-03", Ghost(g))
        .step(1129431600, -10800, 3600, "-02", Ghost(g))
        .step(1140314400, -10800, 0, "-03", Ghost(g))
        .step(1162695600, -10800, 3600, "-02", Ghost(g))
        .step(1172368800, -10800, 0, "-03", Ghost(g))
        .step(1192330800, -10800, 3600, "-02", Ghost(g))
        .step(1203213600, -10800, 0, "-03", Ghost(g))
        .step(1224385200, -10800, 3600, "-02", Ghost(g))
        .step(1234663200, -10800, 0, "-03", Ghost(g))
        .step(1255834800, -10800, 3600, "-02", Ghost(g))
        .step(1266717600, -10800, 0, "-03", Ghost(g))
        .step(1287284400, -10800, 3600, "-02", Ghost(g))
        .step(1298167200, -10800, 0, "-03", Ghost(g))
        .step(1318734000, -10800, 3600, "-02", Ghost(g))
        .step(1330221600, -10800, 0, "-03", Ghost(g))
        .step(1350788400, -10800, 3600, "-02", Ghost(g))
        .step(1361066400, -10800, 0, "-03", Ghost(g))
        .step(1382238000, -10800, 3600, "-02", Ghost(g))
        .step(1392516000, -10800, 0, "-03", Ghost(g))
        .step(1413687600, -10800, 3600, "-02", Ghost(g))
        .step(1424570400, -10800, 0, "-03", Ghost(g))
        .step(1445137200, -10800, 3600, "-02", Ghost(g))
        .step(1456020000, -10800, 0, "-03", Ghost(g))
        .step(1476586800, -10800, 3600, "-02", Ghost(g))
        .step(1487469600, -10800, 0, "-03", Ghost(g))
        .step(1508036400, -10800, 3600, "-02", Ghost(g))
        .step(1518919200, -10800, 0, "-03", Ghost(g))
        .step(1541300400, -10800, 3600, "-02", Ghost(g))
        .step(1550368800, -10800, 0, "-03", Ghost(g))
        .step(2147483647, -10800, 0, "-03", Ghost(g))
        .finish(Ghost(g))
}

/// The zone `Brazil/West`.
pub fn west() -> (r: Tz)
    ensures
        r.wf(),
        r.zone_name() == "Brazil/West"@,
        r.table() == tables::brazil::west(),
{
    let ghost g = tables::brazil::west_rows();
    FixedTimespanSet::begin("Brazil/West", -14404, 0, "LMT", Ghost(g))
        .step(-1767211196, -14400, 0, "-04", Ghost(g))
        .step(-1206954000, -14400, 3600, "-03", Ghost(g))
        .step(-1191358800, -14400, 0, "-04", Ghost(g))
        .step(-1175371200, -14400, 3600, "-03", Ghost(g))
        .step(-1159822800, -14400, 0, "-04", Ghost(g))
        .step(-633816000, -14400, 3600, "-03", Ghost(g))
        .step(-622065600, -14400, 0, "-04", Ghost(g))
        .step(-602280000, -14400, 3600, "-03", Ghost(g))
        .step(-591829200, -14400, 0, "-04", Ghost(g))
        .step(-570744000, -14400, 3600, "-03", Ghost(g))
        .step(-560206800, -14400, 0, "-04", Ghost(g))
        .step(-539121600, -14400, 3600, "-03", Ghost(g))
        .step(-531349200, -14400, 0, "-04", Ghost(g))
        .step(-191361600, -14400, 3600, "-03", Ghost(g))
        .step(-184194000, -14400, 0, "-04", Ghost(g))
        .step(-155160000, -14400, 3600, "-03", Ghost(g))
        .step(-150066000, -14400, 0, "-04", Ghost(g))
        .step(-128894400, -14400, 3600, "-03", Ghost(g))
        .step(-121122000, -14400, 0, "-04", Ghost(g))
        .step(-99950400, -14400, 3600, "-03", Ghost(g))
        .step(-89586000, -14400, 0, "-04", Ghost(g))
        .step(-68414400, -14400, 3600, "-03", Ghost(g))
        .step(-57963600, -14400, 0, "-04", Ghost(g))
        .step(499752000, -14400, 3600, "-03", Ghost(g))
        .step(511239600, -14400, 0, "-04", Ghost(g))
        .step(530596800, -14400, 3600, "-03", Ghost(g))
        .step(540270000, -14400, 0, "-04", Ghost(g))
        .step(562132800, -14400, 3600, "-03", Ghost(g))
        .step(571201200, -14400, 0, "-04", Ghost(g))
        .step(750830400, -14400, 3600, "-03", Ghost(g))
        .step(761713200, -14400, 0, "-04", Ghost(g))
        .step(2147483647, -14400, 0, "-04", Ghost(g))
        .finish(Ghost(g))
}

} // verus!
