//! Zones of Canada, under their older names.

use crate::interface::TimeZone;
use crate::timezone_impl::{FixedTimespanSet, Tz};
use crate::timezones::tables;
use vstd::prelude::*;

verus! {

/// The zone `Canada/Atlantic`.
pub fn atlantic() -> (r: Tz)
    ensures
        r.wf(),
        r.zone_name() == "Canada/Atlantic"@,
        r.table() == tables::canada::atlantic(),
{
    let ghost g = tables::canada::atlantic_rows();
    FixedTimespanSet::begin("Canada/Atlantic", -15264, 0, "LMT", Ghost(g))
        .step(-2131645536, -14400, 0, "AST", Ghost(g))
        .step(-1696276800, -14400, 3600, "ADT", Ghost(g))
        .step(-1680469200, -14400, 0, "AST", Ghost(g))
        .step(-1632074400, -14400, 3600, "ADT", Ghost(g))
        .step(-1615143600, -14400, 0, "AST", Ghost(g))
        .step(-1566763200, -14400, 3600, "ADT", Ghost(g))
        .step(-1557090000, -14400, 0, "AST", Ghost(g))
        .step(-1535486400, -14400, 3600, "ADT", Ghost(g))
        .step(-1524949200, -14400, 0, "AST", Ghost(g))
        .step(-1504468800, -14400, 3600, "ADT", Ghost(g))
        .step(-1493413200, -14400, 0, "AST", Ghost(g))
        .step(-1472414400, -14400, 3600, "ADT", Ghost(g))
        .step(-1461963600, -14400, 0, "AST", Ghost(g))
        .step(-1440964800, -14400, 3600, "ADT", Ghost(g))
        .step(-1429390800, -14400, 0, "AST", Ghost(g))
        .step(-1409515200, -14400, 3600, "ADT", Ghost(g))
        .step(-1396731600, -14400, 0, "AST", Ghost(g))
        .step(-1376856000, -14400, 3600, "ADT", Ghost(g))
        .step(-1366491600, -14400, 0, "AST", Ghost(g))
        .step(-1346616000, -14400, 3600, "ADT", Ghost(g))
        .step(-1333832400, -14400, 0, "AST", Ghost(g))
        .step(-1313956800, -14400, 3600, "ADT", Ghost(g))
        .step(-1303678800, -14400, 0, "AST", Ghost(g))
        .step(-1282507200, -14400, 3600, "ADT", Ghost(g))
        .step(-1272661200, -14400, 0, "AST", Ghost(g))
        .step(-1251057600, -14400, 3600, "ADT", Ghost(g))
        .step(-1240088400, -14400, 0, "AST", Ghost(g))
        .step(-1219608000, -14400, 3600, "ADT", Ghost(g))
        .step(-1207429200, -14400, 0, "AST", Ghost(g))
        .step(-1188763200, -14400, 3600, "ADT", Ghost(g))
        .step(-1175979600, -14400, 0, "AST", Ghost(g))
        .step(-1157313600, -14400, 3600, "ADT", Ghost(g))
        .step(-1143925200, -14400, 0, "AST", Ghost(g))
        .step(-1124049600, -14400, 3600, "ADT", Ghost(g))
        .step(-1113771600, -14400, 0, "AST", Ghost(g))
        .step(-1091390400, -14400, 3600, "ADT", Ghost(g))
        .step(-1081026000, -14400, 0, "AST", Ghost(g))
        .step(-1059854400, -14400, 3600, "ADT", Ghost(g))
        .step(-1050786000, -14400, 0, "AST", Ghost(g))
        .step(-1030910400, -14400, 3600, "ADT", Ghost(g))
        .step(-1018126800, -14400, 0, "AST", Ghost(g))
        .step(-999460800, -14400, 3600, "ADT", Ghost(g))
        .step(-986677200, -14400, 0, "AST", Ghost(g))
        .step(-965592000, -14400, 3600, "ADT", Ghost(g))
        .step(-955227600, -14400, 0, "AST", Ghost(g))
        .step(-935956800, -14400, 3600, "ADT", Ghost(g))
        .step(-923173200, -14400, 0, "AST", Ghost(g))
        .step(-904507200, -14400, 3600, "ADT", Ghost(g))
        .step(-891723600, -14400, 0, "AST", Ghost(g))
        .step(-880221600, -14400, 3600, "AWT", Ghost(g))
        .step(-769395600, -14400, 3600, "APT", Ghost(g))
        .step(-765399600, -14400, 0, "AST", Ghost(g))
        .step(-747252000, -14400, 3600, "ADT", Ghost(g))
        .step(-733950000, -14400, 0, "AST", Ghost(g))
        .step(-715802400, -14400, 3600, "ADT", Ghost(g))
        .step(-702500400, -14400, 0, "AST", Ghost(g))
        .step(-684352800, -14400, 3600, "ADT", Ghost(g))
        .step(-671050800, -14400, 0, "AST", Ghost(g))
        .step(-652903200, -14400, 3600, "ADT", Ghost(g))
        .step(-639601200, -14400, 0, "AST", Ghost(g))
        .step(-589399200, -14400, 3600, "ADT", Ghost(g))
        .step(-576097200, -14400, 0, "AST", Ghost(g))
        .step(-557949600, -14400, 3600, "ADT", Ghost(g))
        .step(-544647600, -14400, 0, "AST", Ghost(g))
        .step(-526500000, -14400, 3600, "ADT", Ghost(g))
        .step(-513198000, -14400, 0, "AST", Ghost(g))
        .step(-495050400, -14400, 3600, "ADT", Ghost(g))
        .step(-481748400, -14400, 0, "AST", Ghost(g))
        .step(-431546400, -14400, 3600, "ADT", Ghost(g))
        .step(-418244400, -14400, 0, "AST", Ghost(g))
        .step(-400096800, -14400, 3600, "ADT", Ghost(g))
        .step(-386794800, -14400, 0, "AST", Ghost(g))
        .step(-368647200, -14400, 3600, "ADT", Ghost(g))
        .step(-355345200, -14400, 0, "AST", Ghost(g))
        .step(-337197600, -14400, 3600, "ADT", Ghost(g))
        .step(-323895600, -14400, 0, "AST", Ghost(g))
        .step(-242244000, -14400, 3600, "ADT", Ghost(g))
        .step(-226522800, -14400, 0, "AST", Ghost(g))
        .step(-210794400, -14400, 3600, "ADT", Ghost(g))
        .step(-195073200, -14400, 0, "AST", Ghost(g))
        .step(-179344800, -14400, 3600, "ADT", Ghost(g))
        .step(-163623600, -14400, 0, "AST", Ghost(g))
        .step(-147895200, -14400, 3600, "ADT", Ghost(g))
        .step(-131569200, -14400, 0, "AST", Ghost(g))
        .step(-116445600, -14400, 3600, "ADT", Ghost(g))
        .step(-100119600, -14400, 0, "AST", Ghost(g))
        .step(-84391200, -14400, 3600, "ADT", Ghost(g))
        .step(-68670000, -14400, 0, "AST", Ghost(g))
        .step(-52941600, -14400, 3600, "ADT", Ghost(g))
        .step(-37220400, -14400, 0, "AST", Ghost(g))
        .step(-21492000, -14400, 3600, "ADT", Ghost(g))
        .step(-5770800, -14400, 0, "AST", Ghost(g))
        .step(9957600, -14400, 3600, "ADT", Ghost(g))
        .step(25678800, -14400, 0, "AST", Ghost(g))
        .step(41407200, -14400, 3600, "ADT", Ghost(g))
        .step(57733200, -14400, 0, "AST", Ghost(g))
        .step(73461600, -14400, 3600, "ADT", Ghost(g))
        .step(89182800, -14400, 0, "AST", Ghost(g))
        .step(104911200, -14400, 3600, "ADT", Ghost(g))
        .step(120632400, -14400, 0, "AST", Ghost(g))
        .step(136360800, -14400, 3600, "ADT", Ghost(g))
        .step(152082000, -14400, 0, "AST", Ghost(g))
        .step(167810400, -14400, 3600, "ADT", Ghost(g))
        .step(183531600, -14400, 0, "AST", Ghost(g))
        .step(199260000, -14400, 3600, "ADT", Ghost(g))
        .step(215586000, -14400, 0, "AST", Ghost(g))
        .step(230709600, -14400, 3600, "ADT", Ghost(g))
        .step(247035600, -14400, 0, "AST", Ghost(g))
        .step(262764000, -14400, 3600, "ADT", Ghost(g))
        .step(278485200, -14400, 0, "AST", Ghost(g))
        .step(294213600, -14400, 3600, "ADT", Ghost(g))
        .step(309934800, -14400, 0, "AST", Ghost(g))
        .step(325663200, -14400, 3600, "ADT", Ghost(g))
        .step(341384400, -14400, 0, "AST", Ghost(g))
        .step(357112800, -14400, 3600, "ADT", Ghost(g))
        .step(372834000, -14400, 0, "AST", Ghost(g))
        .step(388562400, -14400, 3600, "ADT", Ghost(g))
        .step(404888400, -14400, 0, "AST", Ghost(g))
        .step(420012000, -14400, 3600, "ADT", Ghost(g))
        .step(436338000, -14400, 0, "AST", Ghost(g))
        .step(452066400, -14400, 3600, "ADT", Ghost(g))
        .step(467787600, -14400, 0, "AST", Ghost(g))
        .step(483516000, -14400, 3600, "ADT", Ghost(g))
        .step(499237200, -14400, 0, "AST", Ghost(g))
        .step(514965600, -14400, 3600, "ADT", Ghost(g))
        .step(530686800, -14400, 0, "AST", Ghost(g))
        .step(544600800, -14400, 3600, "ADT", Ghost(g))
        .step(562136400, -14400, 0, "AST", Ghost(g))
        .step(576050400, -14400, 3600, "ADT", Ghost(g))
        .step(594190800, -14400, 0, "AST", Ghost(g))
        .step(607500000, -14400, 3600, "ADT", Ghost(g))
        .step(625640400, -14400, 0, "AST", Ghost(g))
        .step(638949600, -14400, 3600, "ADT", Ghost(g))
        .step(657090000, -14400, 0, "AST", Ghost(g))
        .step(671004000, -14400, 3600, "ADT", Ghost(g))
        .step(688539600, -14400, 0, "AST", Ghost(g))
        .step(702453600, -14400, 3600, "ADT", Ghost(g))
        .step(719989200, -14400, 0, "AST", Ghost(g))
        .step(733903200, -14400, 3600, "ADT", Ghost(g))
        .step(752043600, -14400, 0, "AST", Ghost(g))
        .step(765352800, -14400, 3600, "ADT", Ghost(g))
        .step(783493200, -14400, 0, "AST", Ghost(g))
        .step(796802400, -14400, 3600, "ADT", Ghost(g))
        .step(814942800, -14400, 0, "AST", Ghost(g))
        .step(828856800, -14400, 3600, "ADT", Ghost(g))
        .step(846392400, -14400, 0, "AST", Ghost(g))
        .step(860306400, -14400, 3600, "ADT", Ghost(g))
        .step(877842000, -14400, 0, "AST", Ghost(g))
        .step(891756000, -14400, 3600, "ADT", Ghost(g))
        .step(909291600, -14400, 0, "AST", Ghost(g))
        .step(923205600, -14400, 3600, "ADT", Ghost(g))
        .step(941346000, -14400, 0, "AST", Ghost(g))
        .step(954655200, -14400, 3600, "ADT", Ghost(g))
        .step(972795600, -14400, 0, "AST", Ghost(g))
        .step(986104800, -14400, 3600, "ADT", Ghost(g))
        .step(1004245200, -14400, 0, "AST", Ghost(g))
        .step(1018159200, -14400, 3600, "ADT", Ghost(g))
        .step(1035694800, -14400, 0, "AST", Ghost(g))
        .step(1049608800, -14400, 3600, "ADT", Ghost(g))
        .step(1067144400, -14400, 0, "AST", Ghost(g))
        .step(1081058400, -14400, 3600, "ADT", Ghost(g))
        .step(1099198800, -14400, 0, "AST", Ghost(g))
        .step(1112508000, -14400, 3600, "ADT", Ghost(g))
        .step(1130648400, -14400, 0, "AST", Ghost(g))
        .step(1143957600, -14400, 3600, "ADT", Ghost(g))
        .step(1162098000, -14400, 0, "AST", Ghost(g))
        .step(1173592800, -14400, 3600, "ADT", Ghost(g))
        .step(1194152400, -14400, 0, "AST", Ghost(g))
        .step(1205042400, -14400, 3600, "ADT", Ghost(g))
        .step(1225602000, -14400, 0, "AST", Ghost(g))
        .step(1236492000, -14400, 3600, "ADT", Ghost(g))
        .step(1257051600, -14400, 0, "AST", Ghost(g))
        .step(1268546400, -14400, 3600, "ADT", Ghost(g))
        .step(1289106000, -14400, 0, "AST", Ghost(g))
        .step(1299996000, -14400, 3600, "ADT", Ghost(g))
        .step(1320555600, -14400, 0, "AST", Ghost(g))
        .step(1331445600, -14400, 3600, "ADT", Ghost(g))
        .step(1352005200, -14400, 0, "AST", Ghost(g))
        .step(1362895200, -14400, 3600, "ADT", Ghost(g))
        .step(1383454800, -14400, 0, "AST", Ghost(g))
        .step(1394344800, -14400, 3600, "ADT", Ghost(g))
        .step(1414904400, -14400, 0, "AST", Ghost(g))
        .step(1425794400, -14400, 3600, "ADT", Ghost(g))
        .step(1446354000, -14400, 0, "AST", Ghost(g))
        .step(1457848800, -14400, 3600, "ADT", Ghost(g))
        .step(1478408400, -14400, 0, "AST", Ghost(g))
        .step(1489298400, -14400, 3600, "ADT", Ghost(g))
        .step(1509858000, -14400, 0, "AST", Ghost(g))
        .step(1520748000, -14400, 3600, "ADT", Ghost(g))
        .step(1541307600, -14400, 0, "AST", Ghost(g))
        .step(1552197600, -14400, 3600, "ADT", Ghost(g))
        .step(1572757200, -14400, 0, "AST", Ghost(g))
        .step(1583647200, -14400, 3600, "ADT", Ghost(g))
        .step(1604206800, -14400, 0, "AST", Ghost(g))
        .step(1615701600, -14400, 3600, "ADT", Ghost(g))
        .step(1636261200, -14400, 0, "AST", Ghost(g))
        .step(1647151200, -14400, 3600, "ADT", Ghost(g))
        .step(1667710800, -14400, 0, "AST", Ghost(g))
        .step(1678600800, -14400, 3600, "ADT", Ghost(g))
        .step(1699160400, -14400, 0, "AST", Ghost(g))
        .step(1710050400, -14400, 3600, "ADT", Ghost(g))
        .step(1730610000, -14400, 0, "AST", Ghost(g))
        .step(1741500000, -14400, 3600, "ADT", Ghost(g))
        .step(1762059600, -14400, 0, "AST", Ghost(g))
        .step(1772949600, -14400, 3600, "ADT", Ghost(g))
        .step(1793509200, -14400, 0, "AST", Ghost(g))
        .step(1805004000, -14400, 3600, "ADT", Ghost(g))
        .step(1825563600, -14400, 0, "AST", Ghost(g))
        .step(1836453600, -14400, 3600, "ADT", Ghost(g))
        .step(1857013200, -14400, 0, "AST", Ghost(g))
        .step(1867903200, -14400, 3600, "ADT", Ghost(g))
        .step(1888462800, -14400, 0, "AST", Ghost(g))
        .step(1899352800, -14400, 3600, "ADT", Ghost(g))
        .step(1919912400, -14400, 0, "AST", Ghost(g))
        .step(1930802400, -14400, 3600, "ADT", Ghost(g))
        .step(1951362000, -14400, 0, "AST", Ghost(g))
        .step(1962856800, -14400, 3600, "ADT", Ghost(g))
        .step(1983416400, -14400, 0, "AST", Ghost(g))
        .step(1994306400, -14400, 3600, "ADT", Ghost(g))
        .step(2014866000, -14400, 0, "AST", Ghost(g))
        .step(2025756000, -14400, 3600, "ADT", Ghost(g))
        .step(2046315600, -14400, 0, "AST", Ghost(g))
        .step(2057205600, -14400, 3600, "ADT", Ghost(g))
        .step(2077765200, -14400, 0, "AST", Ghost(g))
        .step(2088655200, -14400, 3600, "ADT", Ghost(g))
        .step(2109214800, -14400, 0, "AST", Ghost(g))
        .step(2120104800, -14400, 3600, "ADT", Ghost(g))
        .step(2140664400, -14400, 0, "AST", Ghost(g))
        .finish(Ghost(g))
}

/// The zone `Canada/Central`.
pub fn central() -> (r: Tz)
    ensures
        r.wf(),
        r.zone_name() == "Canada/Central"@,
        r.table() == tables::canada::central(),
{
    let ghost g = tables::canada::central_rows();
    FixedTimespanSet::begin("Canada/Central", -23316, 0, "LMT", Ghost(g))
        .step(-2602258284, -21600, 0, "CST", Ghost(g))
        .step(-1694368800, -21600, 3600, "CDT", Ghost(g))
        .step(-1681671600, -21600, 0, "CST", Ghost(g))
        .step(-1632067200, -21600, 3600, "CDT", Ghost(g))
        .step(-1615136400, -21600, 0, "CST", Ghost(g))
        .step(-1029686400, -21600, 3600, "CDT", Ghost(g))
        .step(-1018198800, -21600, 0, "CST", Ghost(g))
        .step(-880214400, -21600, 3600, "CWT", Ghost(g))
        .step(-769395600, -21600, 3600, "CPT", Ghost(g))
        .step(-765392400, -21600, 0, "CST", Ghost(g))
        .step(-746035200, -21600, 3600, "CDT", Ghost(g))
        .step(-732733200, -21600, 0, "CST", Ghost(g))
        .step(-715795200, -21600, 3600, "CDT", Ghost(g))
        .step(-702493200, -21600, 0, "CST", Ghost(g))
        .step(-684345600, -21600, 3600, "CDT", Ghost(g))
        .step(-671043600, -21600, 0, "CST", Ghost(g))
        .step(-652896000, -21600, 3600, "CDT", Ghost(g))
        .step(-639594000, -21600, 0, "CST", Ghost(g))
        .step(-620755200, -21600, 3600, "CDT", Ghost(g))
        .step(-607626000, -21600, 0, "CST", Ghost(g))
        .step(-589392000, -21600, 3600, "CDT", Ghost(g))
        .step(-576090000, -21600, 0, "CST", Ghost(g))
        .step(-557942400, -21600, 3600, "CDT", Ghost(g))
        .step(-544640400, -21600, 0, "CST", Ghost(g))
        .step(-526492800, -21600, 3600, "CDT", Ghost(g))
        .step(-513190800, -21600, 0, "CST", Ghost(g))
        .step(-495043200, -21600, 3600, "CDT", Ghost(g))
        .step(-481741200, -21600, 0, "CST", Ghost(g))
        .step(-463593600, -21600, 3600, "CDT", Ghost(g))
        .step(-450291600, -21600, 0, "CST", Ghost(g))
        .step(-431539200, -21600, 3600, "CDT", Ghost(g))
        .step(-418237200, -21600, 0, "CST", Ghost(g))
        .step(-400089600, -21600, 3600, "CDT", Ghost(g))
        .step(-386787600, -21600, 0, "CST", Ghost(g))
        .step(-368640000, -21600, 3600, "CDT", Ghost(g))
        .step(-355338000, -21600, 0, "CST", Ghost(g))
        .step(-337190400, -21600, 3600, "CDT", Ghost(g))
        .step(-321469200, -21600, 0, "CST", Ghost(g))
        .step(-305740800, -21600, 3600, "CDT", Ghost(g))
        .step(-292438800, -21600, 0, "CST", Ghost(g))
        .step(-210787200, -21600, 3600, "CDT", Ghost(g))
        .step(-198090000, -21600, 0, "CST", Ghost(g))
        .step(-116438400, -21600, 3600, "CDT", Ghost(g))
        .step(-100108800, -21600, 0, "CST", Ghost(g))
        .step(-84384000, -21600, 3600, "CDT", Ghost(g))
        .step(-68659200, -21600, 0, "CST", Ghost(g))
        .step(-52934400, -21600, 3600, "CDT", Ghost(g))
        .step(-37209600, -21600, 0, "CST", Ghost(g))
        .step(-21484800, -21600, 3600, "CDT", Ghost(g))
        .step(-5760000, -21600, 0, "CST", Ghost(g))
        .step(9964800, -21600, 3600, "CDT", Ghost(g))
        .step(25689600, -21600, 0, "CST", Ghost(g))
        .step(41414400, -21600, 3600, "CDT", Ghost(g))
        .step(57744000, -21600, 0, "CST", Ghost(g))
        .step(73468800, -21600, 3600, "CDT", Ghost(g))
        .step(89193600, -21600, 0, "CST", Ghost(g))
        .step(104918400, -21600, 3600, "CDT", Ghost(g))
        .step(120643200, -21600, 0, "CST", Ghost(g))
        .step(136368000, -21600, 3600, "CDT", Ghost(g))
        .step(152092800, -21600, 0, "CST", Ghost(g))
        .step(167817600, -21600, 3600, "CDT", Ghost(g))
        .step(183542400, -21600, 0, "CST", Ghost(g))
        .step(199267200, -21600, 3600, "CDT", Ghost(g))
        .step(215596800, -21600, 0, "CST", Ghost(g))
        .step(230716800, -21600, 3600, "CDT", Ghost(g))
        .step(247046400, -21600, 0, "CST", Ghost(g))
        .step(262771200, -21600, 3600, "CDT", Ghost(g))
        .step(278496000, -21600, 0, "CST", Ghost(g))
        .step(294220800, -21600, 3600, "CDT", Ghost(g))
        .step(309945600, -21600, 0, "CST", Ghost(g))
        .step(325670400, -21600, 3600, "CDT", Ghost(g))
        .step(341395200, -21600, 0, "CST", Ghost(g))
        .step(357120000, -21600, 3600, "CDT", Ghost(g))
        .step(372844800, -21600, 0, "CST", Ghost(g))
        .step(388569600, -21600, 3600, "CDT", Ghost(g))
        .step(404899200, -21600, 0, "CST", Ghost(g))
        .step(420019200, -21600, 3600, "CDT", Ghost(g))
        .step(436348800, -21600, 0, "CST", Ghost(g))
        .step(452073600, -21600, 3600, "CDT", Ghost(g))
        .step(467798400, -21600, 0, "CST", Ghost(g))
        .step(483523200, -21600, 3600, "CDT", Ghost(g))
        .step(499248000, -21600, 0, "CST", Ghost(g))
        .step(514972800, -21600, 3600, "CDT", Ghost(g))
        .step(530697600, -21600, 0, "CST", Ghost(g))
        .step(544608000, -21600, 3600, "CDT", Ghost(g))
        .step(562147200, -21600, 0, "CST", Ghost(g))
        .step(576057600, -21600, 3600, "CDT", Ghost(g))
        .step(594201600, -21600, 0, "CST", Ghost(g))
        .step(607507200, -21600, 3600, "CDT", Ghost(g))
        .step(625651200, -21600, 0, "CST", Ghost(g))
        .step(638956800, -21600, 3600, "CDT", Ghost(g))
        .step(657100800, -21600, 0, "CST", Ghost(g))
        .step(671011200, -21600, 3600, "CDT", Ghost(g))
        .step(688550400, -21600, 0, "CST", Ghost(g))
        .step(702460800, -21600, 3600, "CDT", Ghost(g))
        .step(720000000, -21600, 0, "CST", Ghost(g))
        .step(733910400, -21600, 3600, "CDT", Ghost(g))
        .step(752054400, -21600, 0, "CST", Ghost(g))
        .step(765360000, -21600, 3600, "CDT", Ghost(g))
        .step(783504000, -21600, 0, "CST", Ghost(g))
        .step(796809600, -21600, 3600, "CDT", Ghost(g))
        .step(814953600, -21600, 0, "CST", Ghost(g))
        .step(828864000, -21600, 3600, "CDT", Ghost(g))
        .step(846403200, -21600, 0, "CST", Ghost(g))
        .step(860313600, -21600, 3600, "CDT", Ghost(g))
        .step(877852800, -21600, 0, "CST", Ghost(g))
        .step(891763200, -21600, 3600, "CDT", Ghost(g))
        .step(909302400, -21600, 0, "CST", Ghost(g))
        .step(923212800, -21600, 3600, "CDT", Ghost(g))
        .step(941356800, -21600, 0, "CST", Ghost(g))
        .step(954662400, -21600, 3600, "CDT", Ghost(g))
        .step(972806400, -21600, 0, "CST", Ghost(g))
        .step(986112000, -21600, 3600, "CDT", Ghost(g))
        .step(1004256000, -21600, 0, "CST", Ghost(g))
        .step(1018166400, -21600, 3600, "CDT", Ghost(g))
        .step(1035705600, -21600, 0, "CST", Ghost(g))
        .step(1049616000, -21600, 3600, "CDT", Ghost(g))
        .step(1067155200, -21600, 0, "CST", Ghost(g))
        .step(1081065600, -21600, 3600, "CDT", Ghost(g))
        .step(1099209600, -21600, 0, "CST", Ghost(g))
        .step(1112515200, -21600, 3600, "CDT", Ghost(g))
        .step(1130659200, -21600, 0, "CST", Ghost(g))
        .step(1143964800, -21600, 3600, "CDT", Ghost(g))
        .step(1162105200, -21600, 0, "CST", Ghost(g))
        .step(1173600000, -21600, 3600, "CDT", Ghost(g))
        .step(1194159600, -21600, 0, "CST", Ghost(g))
        .step(1205049600, -21600, 3600, "CDT", Ghost(g))
        .step(1225609200, -21600, 0, "CST", Ghost(g))
        .step(1236499200, -21600, 3600, "CDT", Ghost(g))
        .step(1257058800, -21600, 0, "CST", Ghost(g))
        .step(1268553600, -21600, 3600, "CDT", Ghost(g))
        .step(1289113200, -21600, 0, "CST", Ghost(g))
        .step(1300003200, -21600, 3600, "CDT", Ghost(g))
        .step(1320562800, -21600, 0, "CST", Ghost(g))
        .step(1331452800, -21600, 3600, "CDT", Ghost(g))
        .step(1352012400, -21600, 0, "CST", Ghost(g))
        .step(1362902400, -21600, 3600, "CDT", Ghost(g))
        .step(1383462000, -21600, 0, "CST", Ghost(g))
        .step(1394352000, -21600, 3600, "CDT", Ghost(g))
        .step(1414911600, -21600, 0, "CST", Ghost(g))
        .step(1425801600, -21600, 3600, "CDT", Ghost(g))
        .step(1446361200, -21600, 0, "CST", Ghost(g))
        .step(1457856000, -21600, 3600, "CDT", Ghost(g))
        .step(1478415600, -21600, 0, "CST", Ghost(g))
        .step(1489305600, -21600, 3600, "CDT", Ghost(g))
        .step(1509865200, -21600, 0, "CST", Ghost(g))
        .step(1520755200, -21600, 3600, "CDT", Ghost(g))
        .step(1541314800, -21600, 0, "CST", Ghost(g))
        .step(1552204800, -21600, 3600, "CDT", Ghost(g))
        .step(1572764400, -21600, 0, "CST", Ghost(g))
        .step(1583654400, -21600, 3600, "CDT", Ghost(g))
        .step(1604214000, -21600, 0, "CST", Ghost(g))
        .step(1615708800, -21600, 3600, "CDT", Ghost(g))
        .step(1636268400, -21600, 0, "CST", Ghost(g))
        .step(1647158400, -21600, 3600, "CDT", Ghost(g))
        .step(1667718000, -21600, 0, "CST", Ghost(g))
        .step(1678608000, -21600, 3600, "CDT", Ghost(g))
        .step(1699167600, -21600, 0, "CST", Ghost(g))
        .step(1710057600, -21600, 3600, "CDT", Ghost(g))
        .step(1730617200, -21600, 0, "CST", Ghost(g))
        .step(1741507200, -21600, 3600, "CDT", Ghost(g))
        .step(1762066800, -21600, 0, "CST", Ghost(g))
        .step(1772956800, -21600, 3600, "CDT", Ghost(g))
        .step(1793516400, -21600, 0, "CST", Ghost(g))
        .step(1805011200, -21600, 3600, "CDT", Ghost(g))
        .step(1825570800, -21600, 0, "CST", Ghost(g))
        .step(1836460800, -21600, 3600, "CDT", Ghost(g))
        .step(1857020400, -21600, 0, "CST", Ghost(g))
        .step(1867910400, -21600, 3600, "CDT", Ghost(g))
        .step(1888470000, -21600, 0, "CST", Ghost(g))
        .step(1899360000, -21600, 3600, "CDT", Ghost(g))
        .step(1919919600, -21600, 0, "CST", Ghost(g))
        .step(1930809600, -21600, 3600, "CDT", Ghost(g))
        .step(1951369200, -21600, 0, "CST", Ghost(g))
        .step(1962864000, -21600, 3600, "CDT", Ghost(g))
        .step(1983423600, -21600, 0, "CST", Ghost(g))
        .step(1994313600, -21600, 3600, "CDT", Ghost(g))
        .step(2014873200, -21600, 0, "CST", Ghost(g))
        .step(2025763200, -21600, 3600, "CDT", Ghost(g))
        .step(2046322800, -21600, 0, "CST", Ghost(g))
        .step(2057212800, -21600, 3600, "CDT", Ghost(g))
        .step(2077772400, -21600, 0, "CST", Ghost(g))
        .step(2088662400, -21600, 3600, "CDT", Ghost(g))
        .step(2109222000, -21600, 0, "CST", Ghost(g))
        .step(2120112000, -21600, 3600, "CDT", Ghost(g))
        .step(2140671600, -21600, 0, "CST", Ghost(g))
        .finish(Ghost(g))
}

/// The zone `Canada/Eastern`.
pub fn eastern() -> (r: Tz)
    ensures
        r.wf(),
        r.zone_name() == "Canada/Eastern"@,
        r.table() == tables::canada::eastern(),
{
    let ghost g = tables::canada::eastern_rows();
    FixedTimespanSet::begin("Canada/Eastern", -19052, 0, "LMT", Ghost(g))
        .step(-2366736148, -18000, 0, "EST", Ghost(g))
        .step(-1632070800, -18000, 3600, "EDT", Ghost(g))
        .step(-1615140000, -18000, 0, "EST", Ghost(g))
        .step(-1601753400, -18000, 3600, "EDT", Ghost(g))
        .step(-1583697600, -18000, 0, "EST", Ghost(g))
        .step(-1567357200, -18000, 3600, "EDT", Ghost(g))
        .step(-1554667200, -18000, 0, "EST", Ghost(g))
        .step(-1534698000, -18000, 3600, "EDT", Ghost(g))
        .step(-1524074400, -18000, 0, "EST", Ghost(g))
        .step(-1503248400, -18000, 3600, "EDT", Ghost(g))
        .step(-1492365600, -18000, 0, "EST", Ghost(g))
        .step(-1471798800, -18000, 3600, "EDT", Ghost(g))
        .step(-1460916000, -18000, 0, "EST", Ghost(g))
        .step(-1440954000, -18000, 3600, "EDT", Ghost(g))
        .step(-1428861600, -18000, 0, "EST", Ghost(g))
        .step(-1409504400, -18000, 3600, "EDT", Ghost(g))
        .step(-1397412000, -18000, 0, "EST", Ghost(g))
        .step(-1378054800, -18000, 3600, "EDT", Ghost(g))
        .step(-1365962400, -18000, 0, "EST", Ghost(g))
        .step(-1346605200, -18000, 3600, "EDT", Ghost(g))
        .step(-1333908000, -18000, 0, "EST", Ghost(g))
        .step(-1315155600, -18000, 3600, "EDT", Ghost(g))
        .step(-1301853600, -18000, 0, "EST", Ghost(g))
        .step(-1283706000, -18000, 3600, "EDT", Ghost(g))
        .step(-1270404000, -18000, 0, "EST", Ghost(g))
        .step(-1252256400, -18000, 3600, "EDT", Ghost(g))
        .step(-1238954400, -18000, 0, "EST", Ghost(g))
        .step(-1220806800, -18000, 3600, "EDT", Ghost(g))
        .step(-1207504800, -18000, 0, "EST", Ghost(g))
        .step(-1188752400, -18000, 3600, "EDT", Ghost(g))
        .step(-1176055200, -18000, 0, "EST", Ghost(g))
        .step(-1157302800, -18000, 3600, "EDT", Ghost(g))
        .step(-1144000800, -18000, 0, "EST", Ghost(g))
        .step(-1125853200, -18000, 3600, "EDT", Ghost(g))
        .step(-1112551200, -18000, 0, "EST", Ghost(g))
        .step(-1094403600, -18000, 3600, "EDT", Ghost(g))
        .step(-1081101600, -18000, 0, "EST", Ghost(g))
        .step(-1062954000, -18000, 3600, "EDT", Ghost(g))
        .step(-1049652000, -18000, 0, "EST", Ghost(g))
        .step(-1031504400, -18000, 3600, "EDT", Ghost(g))
        .step(-1018202400, -18000, 0, "EST", Ghost(g))
        .step(-1000054800, -18000, 3600, "EDT", Ghost(g))
        .step(-986752800, -18000, 0, "EST", Ghost(g))
        .step(-968000400, -18000, 3600, "EDT", Ghost(g))
        .step(-955303200, -18000, 0, "EST", Ghost(g))
        .step(-936550800, -18000, 3600, "EDT", Ghost(g))
        .step(-880218000, -18000, 3600, "EWT", Ghost(g))
        .step(-769395600, -18000, 3600, "EPT", Ghost(g))
        .step(-765396000, -18000, 0, "EST", Ghost(g))
        .step(-747248400, -18000, 3600, "EDT", Ghost(g))
        .step(-733946400, -18000, 0, "EST", Ghost(g))
        .step(-715798800, -18000, 3600, "EDT", Ghost(g))
        .step(-702496800, -18000, 0, "EST", Ghost(g))
        .step(-684349200, -18000, 3600, "EDT", Ghost(g))
        .step(-671047200, -18000, 0, "EST", Ghost(g))
        .step(-652899600, -18000, 3600, "EDT", Ghost(g))
        .step(-634154400, -18000, 0, "EST", Ghost(g))
        .step(-620845200, -18000, 3600, "EDT", Ghost(g))
        .step(-602704800, -18000, 0, "EST", Ghost(g))
        .step(-589395600, -18000, 3600, "EDT", Ghost(g))
        .step(-576093600, -18000, 0, "EST", Ghost(g))
        .step(-557946000, -18000, 3600, "EDT", Ghost(g))
        .step(-544644000, -18000, 0, "EST", Ghost(g))
        .step(-526496400, -18000, 3600, "EDT", Ghost(g))
        .step(-513194400, -18000, 0, "EST", Ghost(g))
        .step(-495046800, -18000, 3600, "EDT", Ghost(g))
        .step(-481744800, -18000, 0, "EST", Ghost(g))
        .step(-463597200, -18000, 3600, "EDT", Ghost(g))
        .step(-450295200, -18000, 0, "EST", Ghost(g))
        .step(-431542800, -18000, 3600, "EDT", Ghost(g))
        .step(-418240800, -18000, 0, "EST", Ghost(g))
        .step(-400093200, -18000, 3600, "EDT", Ghost(g))
        .step(-384372000, -18000, 0, "EST", Ghost(g))
        .step(-368643600, -18000, 3600, "EDT", Ghost(g))
        .step(-352922400, -18000, 0, "EST", Ghost(g))
        .step(-337194000, -18000, 3600, "EDT", Ghost(g))
        .step(-321472800, -18000, 0, "EST", Ghost(g))
        .step(-305744400, -18000, 3600, "EDT", Ghost(g))
        .step(-289418400, -18000, 0, "EST", Ghost(g))
        .step(-273690000, -18000, 3600, "EDT", Ghost(g))
        .step(-257968800, -18000, 0, "EST", Ghost(g))
        .step(-242240400, -18000, 3600, "EDT", Ghost(g))
        .step(-226519200, -18000, 0, "EST", Ghost(g))
        .step(-210790800, -18000, 3600, "EDT", Ghost(g))
        .step(-195069600, -18000, 0, "EST", Ghost(g))
        .step(-179341200, -18000, 3600, "EDT", Ghost(g))
        .step(-163620000, -18000, 0, "EST", Ghost(g))
        .step(-147891600, -18000, 3600, "EDT", Ghost(g))
        .step(-131565600, -18000, 0, "EST", Ghost(g))
        .step(-116442000, -18000, 3600, "EDT", Ghost(g))
        .step(-100116000, -18000, 0, "EST", Ghost(g))
        .step(-84387600, -18000, 3600, "EDT", Ghost(g))
        .step(-68666400, -18000, 0, "EST", Ghost(g))
        .step(-52938000, -18000, 3600, "EDT", Ghost(g))
        .step(-37216800, -18000, 0, "EST", Ghost(g))
        .step(-21488400, -18000, 3600, "EDT", Ghost(g))
        .step(-5767200, -18000, 0, "EST", Ghost(g))
        .step(9961200, -18000, 3600, "EDT", Ghost(g))
        .step(25682400, -18000, 0, "EST", Ghost(g))
        .step(41410800, -18000, 3600, "EDT", Ghost(g))
        .step(57736800, -18000, 0, "EST", Ghost(g))
        .step(73465200, -18000, 3600, "EDT", Ghost(g))
        .step(89186400, -18000, 0, "EST", Ghost(g))
        .step(104914800, -18000, 3600, "EDT", Ghost(g))
        .step(120636000, -18000, 0, "EST", Ghost(g))
        .step(136364400, -18000, 3600, "EDT", Ghost(g))
        .step(152085600, -18000, 0, "EST", Ghost(g))
        .step(167814000, -18000, 3600, "EDT", Ghost(g))
        .step(183535200, -18000, 0, "EST", Ghost(g))
        .step(199263600, -18000, 3600, "EDT", Ghost(g))
        .step(215589600, -18000, 0, "EST", Ghost(g))
        .step(230713200, -18000, 3600, "EDT", Ghost(g))
        .step(247039200, -18000, 0, "EST", Ghost(g))
        .step(262767600, -18000, 3600, "EDT", Ghost(g))
        .step(278488800, -18000, 0, "EST", Ghost(g))
        .step(294217200, -18000, 3600, "EDT", Ghost(g))
        .step(309938400, -18000, 0, "EST", Ghost(g))
        .step(325666800, -18000, 3600, "EDT", Ghost(g))
        .step(341388000, -18000, 0, "EST", Ghost(g))
        .step(357116400, -18000, 3600, "EDT", Ghost(g))
        .step(372837600, -18000, 0, "EST", Ghost(g))
        .step(388566000, -18000, 3600, "EDT", Ghost(g))
        .step(404892000, -18000, 0, "EST", Ghost(g))
        .step(420015600, -18000, 3600, "EDT", Ghost(g))
        .step(436341600, -18000, 0, "EST", Ghost(g))
        .step(452070000, -18000, 3600, "EDT", Ghost(g))
        .step(467791200, -18000, 0, "EST", Ghost(g))
        .step(483519600, -18000, 3600, "EDT", Ghost(g))
        .step(499240800, -18000, 0, "EST", Ghost(g))
        .step(514969200, -18000, 3600, "EDT", Ghost(g))
        .step(530690400, -18000, 0, "EST", Ghost(g))
        .step(544604400, -18000, 3600, "EDT", Ghost(g))
        .step(562140000, -18000, 0, "EST", Ghost(g))
        .step(576054000, -18000, 3600, "EDT", Ghost(g))
        .step(594194400, -18000, 0, "EST", Ghost(g))
        .step(607503600, -18000, 3600, "EDT", Ghost(g))
        .step(625644000, -18000, 0, "EST", Ghost(g))
        .step(638953200, -18000, 3600, "EDT", Ghost(g))
        .step(657093600, -18000, 0, "EST", Ghost(g))
        .step(671007600, -18000, 3600, "EDT", Ghost(g))
        .step(688543200, -18000, 0, "EST", Ghost(g))
        .step(702457200, -18000, 3600, "EDT", Ghost(g))
        .step(719992800, -18000, 0, "EST", Ghost(g))
        .step(733906800, -18000, 3600, "EDT", Ghost(g))
        .step(752047200, -18000, 0, "EST", Ghost(g))
        .step(765356400, -18000, 3600, "EDT", Ghost(g))
        .step(783496800, -18000, 0, "EST", Ghost(g))
        .step(796806000, -18000, 3600, "EDT", Ghost(g))
        .step(814946400, -18000, 0, "EST", Ghost(g))
        .step(828860400, -18000, 3600, "EDT", Ghost(g))
        .step(846396000, -18000, 0, "EST", Ghost(g))
        .step(860310000, -18000, 3600, "EDT", Ghost(g))
        .step(877845600, -18000, 0, "EST", Ghost(g))
        .step(891759600, -18000, 3600, "EDT", Ghost(g))
        .step(909295200, -18000, 0, "EST", Ghost(g))
        .step(923209200, -18000, 3600, "EDT", Ghost(g))
        .step(941349600, -18000, 0, "EST", Ghost(g))
        .step(954658800, -18000, 3600, "EDT", Ghost(g))
        .step(972799200, -18000, 0, "EST", Ghost(g))
        .step(986108400, -18000, 3600, "EDT", Ghost(g))
        .step(1004248800, -18000, 0, "EST", Ghost(g))
        .step(1018162800, -18000, 3600, "EDT", Ghost(g))
        .step(1035698400, -18000, 0, "EST", Ghost(g))
        .step(1049612400, -18000, 3600, "EDT", Ghost(g))
        .step(1067148000, -18000, 0, "EST", Ghost(g))
        .step(1081062000, -18000, 3600, "EDT", Ghost(g))
        .step(1099202400, -18000, 0, "EST", Ghost(g))
        .step(1112511600, -18000, 3600, "EDT", Ghost(g))
        .step(1130652000, -18000, 0, "EST", Ghost(g))
        .step(1143961200, -18000, 3600, "EDT", Ghost(g))
        .step(1162101600, -18000, 0, "EST", Ghost(g))
        .step(1173596400, -18000, 3600, "EDT", Ghost(g))
        .step(1194156000, -18000, 0, "EST", Ghost(g))
        .step(1205046000, -18000, 3600, "EDT", Ghost(g))
        .step(1225605600, -18000, 0, "EST", Ghost(g))
        .step(1236495600, -18000, 3600, "EDT", Ghost(g))
        .step(1257055200, -18000, 0, "EST", Ghost(g))
        .step(1268550000, -18000, 3600, "EDT", Ghost(g))
        .step(1289109600, -18000, 0, "EST", Ghost(g))
        .step(1299999600, -18000, 3600, "EDT", Ghost(g))
        .step(1320559200, -18000, 0, "EST", Ghost(g))
        .step(1331449200, -18000, 3600, "EDT", Ghost(g))
        .step(1352008800, -18000, 0, "EST", Ghost(g))
        .step(1362898800, -18000, 3600, "EDT", Ghost(g))
        .step(1383458400, -18000, 0, "EST", Ghost(g))
        .step(1394348400, -18000, 3600, "EDT", Ghost(g))
        .step(1414908000, -18000, 0, "EST", Ghost(g))
        .step(1425798000, -18000, 3600, "EDT", Ghost(g))
        .step(1446357600, -18000, 0, "EST", Ghost(g))
        .step(1457852400, -18000, 3600, "EDT", Ghost(g))
        .step(1478412000, -18000, 0, "EST", Ghost(g))
        .step(1489302000, -18000, 3600, "EDT", Ghost(g))
        .step(1509861600, -18000, 0, "EST", Ghost(g))
        .step(1520751600, -18000, 3600, "EDT", Ghost(g))
        .step(1541311200, -18000, 0, "EST", Ghost(g))
        .step(1552201200, -18000, 3600, "EDT", Ghost(g))
        .step(1572760800, -18000, 0, "EST", Ghost(g))
        .step(1583650800, -18000, 3600, "EDT", Ghost(g))
        .step(1604210400, -18000, 0, "EST", Ghost(g))
        .step(1615705200, -18000, 3600, "EDT", Ghost(g))
        .step(1636264800, -18000, 0, "EST", Ghost(g))
        .step(1647154800, -18000, 3600, "EDT", Ghost(g))
        .step(1667714400, -18000, 0, "EST", Ghost(g))
        .step(1678604400, -18000, 3600, "EDT", Ghost(g))
        .step(1699164000, -18000, 0, "EST", Ghost(g))
        .step(1710054000, -18000, 3600, "EDT", Ghost(g))
        .step(1730613600, -18000, 0, "EST", Ghost(g))
        .step(1741503600, -18000, 3600, "EDT", Ghost(g))
        .step(1762063200, -18000, 0, "EST", Ghost(g))
        .step(1772953200, -18000, 3600, "EDT", Ghost(g))
        .step(1793512800, -18000, 0, "EST", Ghost(g))
        .step(1805007600, -18000, 3600, "EDT", Ghost(g))
        .step(1825567200, -18000, 0, "EST", Ghost(g))
        .step(1836457200, -18000, 3600, "EDT", Ghost(g))
        .step(1857016800, -18000, 0, "EST", Ghost(g))
        .step(1867906800, -18000, 3600, "EDT", Ghost(g))
        .step(1888466400, -18000, 0, "EST", Ghost(g))
        .step(1899356400, -18000, 3600, "EDT", Ghost(g))
        .step(1919916000, -18000, 0, "EST", Ghost(g))
        .step(1930806000, -18000, 3600, "EDT", Ghost(g))
        .step(1951365600, -18000, 0, "EST", Ghost(g))
        .step(1962860400, -18000, 3600, "EDT", Ghost(g))
        .step(1983420000, -18000, 0, "EST", Ghost(g))
        .step(1994310000, -18000, 3600, "EDT", Ghost(g))
        .step(2014869600, -18000, 0, "EST", Ghost(g))
        .step(2025759600, -18000, 3600, "EDT", Ghost(g))
        .step(2046319200, -18000, 0, "EST", Ghost(g))
        .step(2057209200, -18000, 3600, "EDT", Ghost(g))
        .step(2077768800, -18000, 0, "EST", Ghost(g))
        .step(2088658800, -18000, 3600, "EDT", Ghost(g))
        .step(2109218400, -18000, 0, "EST", Ghost(g))
        .step(2120108400, -18000, 3600, "EDT", Ghost(g))
        .step(2140668000, -18000, 0, "EST", Ghost(g))
        .finish(Ghost(g))
}

/// The zone `Canada/Mountain`.
pub fn mountain() -> (r: Tz)
    ensures
        r.wf(),
        r.zone_name() == "Canada/Mountain"@,
        r.table() == tables::canada::mountain(),
{
    let ghost g = tables::canada::mountain_rows();
    FixedTimespanSet::begin("Canada/Mountain", -27232, 0, "LMT", Ghost(g))
        .step(-1998663968, -25200, 0, "MST", Ghost(g))
        .step(-1632063600, -25200, 3600, "MDT", Ghost(g))
        .step(-1615132800, -25200, 0, "MST", Ghost(g))
        .step(-1600614000, -25200, 3600, "MDT", Ghost(g))
        .step(-1596816000, -25200, 0, "MST", Ghost(g))
        .step(-1567954800, -25200, 3600, "MDT", Ghost(g))
        .step(-1551628800, -25200, 0, "MST", Ghost(g))
        .step(-1536505200, -25200, 3600, "MDT", Ghost(g))
        .step(-1523203200, -25200, 0, "MST", Ghost(g))
        .step(-1504450800, -25200, 3600, "MDT", Ghost(g))
        .step(-1491753600, -25200, 0, "MST", Ghost(g))
        .step(-1473001200, -25200, 3600, "MDT", Ghost(g))
        .step(-1459699200, -25200, 0, "MST", Ghost(g))
        .step(-880210800, -25200, 3600, "MWT", Ghost(g))
        .step(-769395600, -25200, 3600, "MPT", Ghost(g))
        .step(-765388800, -25200, 0, "MST", Ghost(g))
        .step(-715791600, -25200, 3600, "MDT", Ghost(g))
        .step(-702489600, -25200, 0, "MST", Ghost(g))
        .step(73472400, -25200, 3600, "MDT", Ghost(g))
        .step(89193600, -25200, 0, "MST", Ghost(g))
        .step(104922000, -25200, 3600, "MDT", Ghost(g))
        .step(120643200, -25200, 0, "MST", Ghost(g))
        .step(136371600, -25200, 3600, "MDT", Ghost(g))
        .step(152092800, -25200, 0, "MST", Ghost(g))
        .step(167821200, -25200, 3600, "MDT", Ghost(g))
        .step(183542400, -25200, 0, "MST", Ghost(g))
        .step(199270800, -25200, 3600, "MDT", Ghost(g))
        .step(215596800, -25200, 0, "MST", Ghost(g))
        .step(230720400, -25200, 3600, "MDT", Ghost(g))
        .step(247046400, -25200, 0, "MST", Ghost(g))
        .step(262774800, -25200, 3600, "MDT", Ghost(g))
        .step(278496000, -25200, 0, "MST", Ghost(g))
        .step(294224400, -25200, 3600, "MDT", Ghost(g))
        .step(309945600, -25200, 0, "MST", Ghost(g))
        .step(325674000, -25200, 3600, "MDT", Ghost(g))
        .step(341395200, -25200, 0, "MST", Ghost(g))
        .step(357123600, -25200, 3600, "MDT", Ghost(g))
        .step(372844800, -25200, 0, "MST", Ghost(g))
        .step(388573200, -25200, 3600, "MDT", Ghost(g))
        .step(404899200, -25200, 0, "MST", Ghost(g))
        .step(420022800, -25200, 3600, "MDT", Ghost(g))
        .step(436348800, -25200, 0, "MST", Ghost(g))
        .step(452077200, -25200, 3600, "MDT", Ghost(g))
        .step(467798400, -25200, 0, "MST", Ghost(g))
        .step(483526800, -25200, 3600, "MDT", Ghost(g))
        .step(499248000, -25200, 0, "MST", Ghost(g))
        .step(514976400, -25200, 3600, "MDT", Ghost(g))
        .step(530697600, -25200, 0, "MST", Ghost(g))
        .step(544611600, -25200, 3600, "MDT", Ghost(g))
        .step(562147200, -25200, 0, "MST", Ghost(g))
        .step(576061200, -25200, 3600, "MDT", Ghost(g))
        .step(594201600, -25200, 0, "MST", Ghost(g))
        .step(607510800, -25200, 3600, "MDT", Ghost(g))
        .step(625651200, -25200, 0, "MST", Ghost(g))
        .step(638960400, -25200, 3600, "MDT", Ghost(g))
        .step(657100800, -25200, 0, "MST", Ghost(g))
        .step(671014800, -25200, 3600, "MDT", Ghost(g))
        .step(688550400, -25200, 0, "MST", Ghost(g))
        .step(702464400, -25200, 3600, "MDT", Ghost(g))
        .step(720000000, -25200, 0, "MST", Ghost(g))
        .step(733914000, -25200, 3600, "MDT", Ghost(g))
        .step(752054400, -25200, 0, "MST", Ghost(g))
        .step(765363600, -25200, 3600, "MDT", Ghost(g))
        .step(783504000, -25200, 0, "MST", Ghost(g))
        .step(796813200, -25200, 3600, "MDT", Ghost(g))
        .step(814953600, -25200, 0, "MST", Ghost(g))
        .step(828867600, -25200, 3600, "MDT", Ghost(g))
        .step(846403200, -25200, 0, "MST", Ghost(g))
        .step(860317200, -25200, 3600, "MDT", Ghost(g))
        .step(877852800, -25200, 0, "MST", Ghost(g))
        .step(891766800, -25200, 3600, "MDT", Ghost(g))
        .step(909302400, -25200, 0, "MST", Ghost(g))
        .step(923216400, -25200, 3600, "MDT", Ghost(g))
        .step(941356800, -25200, 0, "MST", Ghost(g))
        .step(954666000, -25200, 3600, "MDT", Ghost(g))
        .step(972806400, -25200, 0, "MST", Ghost(g))
        .step(986115600, -25200, 3600, "MDT", Ghost(g))
        .step(1004256000, -25200, 0, "MST", Ghost(g))
        .step(1018170000, -25200, 3600, "MDT", Ghost(g))
        .step(1035705600, -25200, 0, "MST", Ghost(g))
        .step(1049619600, -25200, 3600, "MDT", Ghost(g))
        .step(1067155200, -25200, 0, "MST", Ghost(g))
        .step(1081069200, -25200, 3600, "MDT", Ghost(g))
        .step(1099209600, -25200, 0, "MST", Ghost(g))
        .step(1112518800, -25200, 3600, "MDT", Ghost(g))
        .step(1130659200, -25200, 0, "MST", Ghost(g))
        .step(1143968400, -25200, 3600, "MDT", Ghost(g))
        .step(1162108800, -25200, 0, "MST", Ghost(g))
        .step(1173603600, -25200, 3600, "MDT", Ghost(g))
        .step(1194163200, -25200, 0, "MST", Ghost(g))
        .step(1205053200, -25200, 3600, "MDT", Ghost(g))
        .step(1225612800, -25200, 0, "MST", Ghost(g))
        .step(1236502800, -25200, 3600, "MDT", Ghost(g))
        .step(1257062400, -25200, 0, "MST", Ghost(g))
        .step(1268557200, -25200, 3600, "MDT", Ghost(g))
        .step(1289116800, -25200, 0, "MST", Ghost(g))
        .step(1300006800, -25200, 3600, "MDT", Ghost(g))
        .step(1320566400, -25200, 0, "MST", Ghost(g))
        .step(1331456400, -25200, 3600, "MDT", Ghost(g))
        .step(1352016000, -25200, 0, "MST", Ghost(g))
        .step(1362906000, -25200, 3600, "MDT", Ghost(g))
        .step(1383465600, -25200, 0, "MST", Ghost(g))
        .step(1394355600, -25200, 3600, "MDT", Ghost(g))
        .step(1414915200, -25200, 0, "MST", Ghost(g))
        .step(1425805200, -25200, 3600, "MDT", Ghost(g))
        .step(1446364800, -25200, 0, "MST", Ghost(g))
        .step(1457859600, -25200, 3600, "MDT", Ghost(g))
        .step(1478419200, -25200, 0, "MST", Ghost(g))
        .step(1489309200, -25200, 3600, "MDT", Ghost(g))
        .step(1509868800, -25200, 0, "MST", Ghost(g))
        .step(1520758800, -25200, 3600, "MDT", Ghost(g))
        .step(1541318400, -25200, 0, "MST", Ghost(g))
        .step(1552208400, -25200, 3600, "MDT", Ghost(g))
        .step(1572768000, -25200, 0, "MST", Ghost(g))
        .step(1583658000, -25200, 3600, "MDT", Ghost(g))
        .step(1604217600, -25200, 0, "MST", Ghost(g))
        .step(1615712400, -25200, 3600, "MDT", Ghost(g))
        .step(1636272000, -25200, 0, "MST", Ghost(g))
        .step(1647162000, -25200, 3600, "MDT", Ghost(g))
        .step(1667721600, -25200, 0, "MST", Ghost(g))
        .step(1678611600, -25200, 3600, "MDT", Ghost(g))
        .step(1699171200, -25200, 0, "MST", Ghost(g))
        .step(1710061200, -25200, 3600, "MDT", Ghost(g))
        .step(1730620800, -25200, 0, "MST", Ghost(g))
        .step(1741510800, -25200, 3600, "MDT", Ghost(g))
        .step(1762070400, -25200, 0, "MST", Ghost(g))
        .step(1772960400, -25200, 3600, "MDT", Ghost(g))
        .step(1793520000, -25200, 0, "MST", Ghost(g))
        .step(1805014800, -25200, 3600, "MDT", Ghost(g))
        .step(1825574400, -25200, 0, "MST", Ghost(g))
        .step(1836464400, -25200, 3600, "MDT", Ghost(g))
        .step(1857024000, -25200, 0, "MST", Ghost(g))
        .step(1867914000, -25200, 3600, "MDT", Ghost(g))
        .step(1888473600, -25200, 0, "MST", Ghost(g))
        .step(1899363600, -25200, 3600, "MDT", Ghost(g))
        .step(1919923200, -25200, 0, "MST", Ghost(g))
        .step(1930813200, -25200, 3600, "MDT", Ghost(g))
        .step(1951372800, -25200, 0, "MST", Ghost(g))
        .step(1962867600, -25200, 3600, "MDT", Ghost(g))
        .step(1983427200, -25200, 0, "MST", Ghost(g))
        .step(1994317200, -25200, 3600, "MDT", Ghost(g))
        .step(2014876800, -25200, 0, "MST", Ghost(g))
        .step(2025766800, -25200, 3600, "MDT", Ghost(g))
        .step(2046326400, -25200, 0, "MST", Ghost(g))
        .step(2057216400, -25200, 3600, "MDT", Ghost(g))
        .step(2077776000, -25200, 0, "MST", Ghost(g))
        .step(2088666000, -25200, 3600, "MDT", Ghost(g))
        .step(2109225600, -25200, 0, "MST", Ghost(g))
        .step(2120115600, -25200, 3600, "MDT", Ghost(g))
        .step(2140675200, -25200, 0, "MST", Ghost(g))
        .finish(Ghost(g))
}

/// The zone `Canada/Newfoundland`.
pub fn newfoundland() -> (r: Tz)
    ensures
        r.wf(),
        r.zone_name() == "Canada/Newfoundland"@,
        r.table() == tables::canada::newfoundland(),
{
    let ghost g = tables::canada::newfoundland_rows();
    FixedTimespanSet::begin("Canada/Newfoundland", -12652, 0, "LMT", Ghost(g))
        .step(-2713897748, -12652, 0, "NST", Ghost(g))
        .step(-1664130548, -12652, 3600, "NDT", Ghost(g))
        .step(-1650137348, -12652, 0, "NST", Ghost(g))
        .step(-1632076148, -12652, 3600, "NDT", Ghost(g))
        .step(-1615145348, -12652, 0, "NST", Ghost(g))
        .step(-1598650148, -12652, 3600, "NDT", Ghost(g))
        .step(-1590100148, -12652, 0, "NST", Ghost(g))
        .step(-1567286948, -12652, 3600, "NDT", Ghost(g))
        .step(-1551565748, -12652, 0, "NST", Ghost(g))
        .step(-1535837348, -12652, 3600, "NDT", Ghost(g))
        .step(-1520116148, -12652, 0, "NST", Ghost(g))
        .step(-1503782948, -12652, 3600, "NDT", Ghost(g))
        .step(-1488666548, -12652, 0, "NST", Ghost(g))
        .step(-1472333348, -12652, 3600, "NDT", Ghost(g))
        .step(-1457216948, -12652, 0, "NST", Ghost(g))
        .step(-1440883748, -12652, 3600, "NDT", Ghost(g))
        .step(-1425767348, -12652, 0, "NST", Ghost(g))
        .step(-1409434148, -12652, 3600, "NDT", Ghost(g))
        .step(-1394317748, -12652, 0, "NST", Ghost(g))
        .step(-1377984548, -12652, 3600, "NDT", Ghost(g))
        .step(-1362263348, -12652, 0, "NST", Ghost(g))
        .step(-1346534948, -12652, 3600, "NDT", Ghost(g))
        .step(-1330813748, -12652, 0, "NST", Ghost(g))
        .step(-1314480548, -12652, 3600, "NDT", Ghost(g))
        .step(-1299364148, -12652, 0, "NST", Ghost(g))
        .step(-1283030948, -12652, 3600, "NDT", Ghost(g))
        .step(-1267914548, -12652, 0, "NST", Ghost(g))
        .step(-1251581348, -12652, 3600, "NDT", Ghost(g))
        .step(-1236464948, -12652, 0, "NST", Ghost(g))
        .step(-1220131748, -12652, 3600, "NDT", Ghost(g))
        .step(-1205015348, -12652, 0, "NST", Ghost(g))
        .step(-1188682148, -12652, 3600, "NDT", Ghost(g))
        .step(-1172960948, -12652, 0, "NST", Ghost(g))
        .step(-1156627748, -12652, 3600, "NDT", Ghost(g))
        .step(-1141511348, -12652, 0, "NST", Ghost(g))
        .step(-1125178148, -12652, 3600, "NDT", Ghost(g))
        .step(-1110061748, -12652, 0, "NST", Ghost(g))
        .step(-1096921748, -12600, 0, "NST", Ghost(g))
        .step(-1093728600, -12600, 3600, "NDT", Ghost(g))
        .step(-1078612200, -12600, 0, "NST", Ghost(g))
        .step(-1061670600, -12600, 3600, "NDT", Ghost(g))
        .step(-1048973400, -12600, 0, "NST", Ghost(g))
        .step(-1030221000, -12600, 3600, "NDT", Ghost(g))
        .step(-1017523800, -12600, 0, "NST", Ghost(g))
        .step(-998771400, -12600, 3600, "NDT", Ghost(g))
        .step(-986074200, -12600, 0, "NST", Ghost(g))
        .step(-966717000, -12600, 3600, "NDT", Ghost(g))
        .step(-954624600, -12600, 0, "NST", Ghost(g))
        .step(-935267400, -12600, 3600, "NDT", Ghost(g))
        .step(-922570200, -12600, 0, "NST", Ghost(g))
        .step(-903817800, -12600, 3600, "NDT", Ghost(g))
        .step(-891120600, -12600, 0, "NST", Ghost(g))
        .step(-872368200, -12600, 3600, "NWT", Ghost(g))
        .step(-769395600, -12600, 3600, "NPT", Ghost(g))
        .step(-765401400, -12600, 0, "NST", Ghost(g))
        .step(-746044200, -12600, 3600, "NDT", Ghost(g))
        .step(-733347000, -12600, 0, "NST", Ghost(g))
        .step(-714594600, -12600, 3600, "NDT", Ghost(g))
        .step(-701897400, -12600, 0, "NST", Ghost(g))
        .step(-683145000, -12600, 3600, "NDT", Ghost(g))
        .step(-670447800, -12600, 0, "NST", Ghost(g))
        .step(-651695400, -12600, 3600, "NDT", Ghost(g))
        .step(-638998200, -12600, 0, "NST", Ghost(g))
        .step(-619641000, -12600, 3600, "NDT", Ghost(g))
        .step(-606943800, -12600, 0, "NST", Ghost(g))
        .step(-589401000, -12600, 3600, "NDT", Ghost(g))
        .step(-576099000, -12600, 0, "NST", Ghost(g))
        .step(-557951400, -12600, 3600, "NDT", Ghost(g))
        .step(-544649400, -12600, 0, "NST", Ghost(g))
        .step(-526501800, -12600, 3600, "NDT", Ghost(g))
        .step(-513199800, -12600, 0, "NST", Ghost(g))
        .step(-495052200, -12600, 3600, "NDT", Ghost(g))
        .step(-481750200, -12600, 0, "NST", Ghost(g))
        .step(-463602600, -12600, 3600, "NDT", Ghost(g))
        .step(-450300600, -12600, 0, "NST", Ghost(g))
        .step(-431548200, -12600, 3600, "NDT", Ghost(g))
        .step(-418246200, -12600, 0, "NST", Ghost(g))
        .step(-400098600, -12600, 3600, "NDT", Ghost(g))
        .step(-386796600, -12600, 0, "NST", Ghost(g))
        .step(-368649000, -12600, 3600, "NDT", Ghost(g))
        .step(-355347000, -12600, 0, "NST", Ghost(g))
        .step(-337199400, -12600, 3600, "NDT", Ghost(g))
        .step(-323897400, -12600, 0, "NST", Ghost(g))
        .step(-305749800, -12600, 3600, "NDT", Ghost(g))
        .step(-289423800, -12600, 0, "NST", Ghost(g))
        .step(-273695400, -12600, 3600, "NDT", Ghost(g))
        .step(-257974200, -12600, 0, "NST", Ghost(g))
        .step(-242245800, -12600, 3600, "NDT", Ghost(g))
        .step(-226524600, -12600, 0, "NST", Ghost(g))
        .step(-210796200, -12600, 3600, "NDT", Ghost(g))
        .step(-195075000, -12600, 0, "NST", Ghost(g))
        .step(-179346600, -12600, 3600, "NDT", Ghost(g))
        .step(-163625400, -12600, 0, "NST", Ghost(g))
        .step(-147897000, -12600, 3600, "NDT", Ghost(g))
        .step(-131571000, -12600, 0, "NST", Ghost(g))
        .step(-116447400, -12600, 3600, "NDT", Ghost(g))
        .step(-100121400, -12600, 0, "NST", Ghost(g))
        .step(-84393000, -12600, 3600, "NDT", Ghost(g))
        .step(-68671800, -12600, 0, "NST", Ghost(g))
        .step(-52943400, -12600, 3600, "NDT", Ghost(g))
        .step(-37222200, -12600, 0, "NST", Ghost(g))
        .step(-21493800, -12600, 3600, "NDT", Ghost(g))
        .step(-5772600, -12600, 0, "NST", Ghost(g))
        .step(9955800, -12600, 3600, "NDT", Ghost(g))
        .step(25677000, -12600, 0, "NST", Ghost(g))
        .step(41405400, -12600, 3600, "NDT", Ghost(g))
        .step(57731400, -12600, 0, "NST", Ghost(g))
        .step(73459800, -12600, 3600, "NDT", Ghost(g))
        .step(89181000, -12600, 0, "NST", Ghost(g))
        .step(104909400, -12600, 3600, "NDT", Ghost(g))
        .step(120630600, -12600, 0, "NST", Ghost(g))
        .step(136359000, -12600, 3600, "NDT", Ghost(g))
        .step(152080200, -12600, 0, "NST", Ghost(g))
        .step(167808600, -12600, 3600, "NDT", Ghost(g))
        .step(183529800, -12600, 0, "NST", Ghost(g))
        .step(199258200, -12600, 3600, "NDT", Ghost(g))
        .step(215584200, -12600, 0, "NST", Ghost(g))
        .step(230707800, -12600, 3600, "NDT", Ghost(g))
        .step(247033800, -12600, 0, "NST", Ghost(g))
        .step(262762200, -12600, 3600, "NDT", Ghost(g))
        .step(278483400, -12600, 0, "NST", Ghost(g))
        .step(294211800, -12600, 3600, "NDT", Ghost(g))
        .step(309933000, -12600, 0, "NST", Ghost(g))
        .step(325661400, -12600, 3600, "NDT", Ghost(g))
        .step(341382600, -12600, 0, "NST", Ghost(g))
        .step(357111000, -12600, 3600, "NDT", Ghost(g))
        .step(372832200, -12600, 0, "NST", Ghost(g))
        .step(388560600, -12600, 3600, "NDT", Ghost(g))
        .step(404886600, -12600, 0, "NST", Ghost(g))
        .step(420010200, -12600, 3600, "NDT", Ghost(g))
        .step(436336200, -12600, 0, "NST", Ghost(g))
        .step(452064600, -12600, 3600, "NDT", Ghost(g))
        .step(467785800, -12600, 0, "NST", Ghost(g))
        .step(483514200, -12600, 3600, "NDT", Ghost(g))
        .step(499235400, -12600, 0, "NST", Ghost(g))
        .step(514963800, -12600, 3600, "NDT", Ghost(g))
        .step(530685000, -12600, 0, "NST", Ghost(g))
        .step(544591860, -12600, 3600, "NDT", Ghost(g))
        .step(562127460, -12600, 0, "NST", Ghost(g))
        .step(576041460, -12600, 7200, "NDDT", Ghost(g))
        .step(594178260, -12600, 0, "NST", Ghost(g))
        .step(607491060, -12600, 3600, "NDT", Ghost(g))
        .step(625631460, -12600, 0, "NST", Ghost(g))
        .step(638940660, -12600, 3600, "NDT", Ghost(g))
        .step(657081060, -12600, 0, "NST", Ghost(g))
        .step(670995060, -12600, 3600, "NDT", Ghost(g))
        .step(688530660, -12600, 0, "NST", Ghost(g))
        .step(702444660, -12600, 3600, "NDT", Ghost(g))
        .step(719980260, -12600, 0, "NST", Ghost(g))
        .step(733894260, -12600, 3600, "NDT", Ghost(g))
        .step(752034660, -12600, 0, "NST", Ghost(g))
        .step(765343860, -12600, 3600, "NDT", Ghost(g))
        .step(783484260, -12600, 0, "NST", Ghost(g))
        .step(796793460, -12600, 3600, "NDT", Ghost(g))
        .step(814933860, -12600, 0, "NST", Ghost(g))
        .step(828847860, -12600, 3600, "NDT", Ghost(g))
        .step(846383460, -12600, 0, "NST", Ghost(g))
        .step(860297460, -12600, 3600, "NDT", Ghost(g))
        .step(877833060, -12600, 0, "NST", Ghost(g))
        .step(891747060, -12600, 3600, "NDT", Ghost(g))
        .step(909282660, -12600, 0, "NST", Ghost(g))
        .step(923196660, -12600, 3600, "NDT", Ghost(g))
        .step(941337060, -12600, 0, "NST", Ghost(g))
        .step(954646260, -12600, 3600, "NDT", Ghost(g))
        .step(972786660, -12600, 0, "NST", Ghost(g))
        .step(986095860, -12600, 3600, "NDT", Ghost(g))
        .step(1004236260, -12600, 0, "NST", Ghost(g))
        .step(1018150260, -12600, 3600, "NDT", Ghost(g))
        .step(1035685860, -12600, 0, "NST", Ghost(g))
        .step(1049599860, -12600, 3600, "NDT", Ghost(g))
        .step(1067135460, -12600, 0, "NST", Ghost(g))
        .step(1081049460, -12600, 3600, "NDT", Ghost(g))
        .step(1099189860, -12600, 0, "NST", Ghost(g))
        .step(1112499060, -12600, 3600, "NDT", Ghost(g))
        .step(1130639460, -12600, 0, "NST", Ghost(g))
        .step(1143948660, -12600, 3600, "NDT", Ghost(g))
        .step(1162089060, -12600, 0, "NST", Ghost(g))
        .step(1173583860, -12600, 3600, "NDT", Ghost(g))
        .step(1194143460, -12600, 0, "NST", Ghost(g))
        .step(1205033460, -12600, 3600, "NDT", Ghost(g))
        .step(1225593060, -12600, 0, "NST", Ghost(g))
        .step(1236483060, -12600, 3600, "NDT", Ghost(g))
        .step(1257042660, -12600, 0, "NST", Ghost(g))
        .step(1268537460, -12600, 3600, "NDT", Ghost(g))
        .step(1289097060, -12600, 0, "NST", Ghost(g))
        .step(1299987060, -12600, 3600, "NDT", Ghost(g))
        .step(1320553800, -12600, 0, "NST", Ghost(g))
        .step(1331443800, -12600, 3600, "NDT", Ghost(g))
        .step(1352003400, -12600, 0, "NST", Ghost(g))
        .step(1362893400, -12600, 3600, "NDT", Ghost(g))
        .step(1383453000, -12600, 0, "NST", Ghost(g))
        .step(1394343000, -12600, 3600, "NDT", Ghost(g))
        .step(1414902600, -12600, 0, "NST", Ghost(g))
        .step(1425792600, -12600, 3600, "NDT", Ghost(g))
        .step(1446352200, -12600, 0, "NST", Ghost(g))
        .step(1457847000, -12600, 3600, "NDT", Ghost(g))
        .step(1478406600, -12600, 0, "NST", Ghost(g))
        .step(1489296600, -12600, 3600, "NDT", Ghost(g))
        .step(1509856200, -12600, 0, "NST", Ghost(g))
        .step(1520746200, -12600, 3600, "NDT", Ghost(g))
        .step(1541305800, -12600, 0, "NST", Ghost(g))
        .step(1552195800, -12600, 3600, "NDT", Ghost(g))
        .step(1572755400, -12600, 0, "NST", Ghost(g))
        .step(1583645400, -12600, 3600, "NDT", Ghost(g))
        .step(1604205000, -12600, 0, "NST", Ghost(g))
        .step(1615699800, -12600, 3600, "NDT", Ghost(g))
        .step(1636259400, -12600, 0, "NST", Ghost(g))
        .step(1647149400, -12600, 3600, "NDT", Ghost(g))
        .step(1667709000, -12600, 0, "NST", Ghost(g))
        .step(1678599000, -12600, 3600, "NDT", Ghost(g))
        .step(1699158600, -12600, 0, "NST", Ghost(g))
        .step(1710048600, -12600, 3600, "NDT", Ghost(g))
        .step(1730608200, -12600, 0, "NST", Ghost(g))
        .step(1741498200, -12600, 3600, "NDT", Ghost(g))
        .step(1762057800, -12600, 0, "NST", Ghost(g))
        .step(1772947800, -12600, 3600, "NDT", Ghost(g))
        .step(1793507400, -12600, 0, "NST", Ghost(g))
        .step(1805002200, -12600, 3600, "NDT", Ghost(g))
        .step(1825561800, -12600, 0, "NST", Ghost(g))
        .step(1836451800, -12600, 3600, "NDT", Ghost(g))
        .step(1857011400, -12600, 0, "NST", Ghost(g))
        .step(1867901400, -12600, 3600, "NDT", Ghost(g))
        .step(1888461000, -12600, 0, "NST", Ghost(g))
        .step(1899351000, -12600, 3600, "NDT", Ghost(g))
        .step(1919910600, -12600, 0, "NST", Ghost(g))
        .step(1930800600, -12600, 3600, "NDT", Ghost(g))
        .step(1951360200, -12600, 0, "NST", Ghost(g))
        .step(1962855000, -12600, 3600, "NDT", Ghost(g))
        .step(1983414600, -12600, 0, "NST", Ghost(g))
        .step(1994304600, -12600, 3600, "NDT", Ghost(g))
        .step(2014864200, -12600, 0, "NST", Ghost(g))
        .step(2025754200, -12600, 3600, "NDT", Ghost(g))
        .step(2046313800, -12600, 0, "NST", Ghost(g))
        .step(2057203800, -12600, 3600, "NDT", Ghost(g))
        .step(2077763400, -12600, 0, "NST", Ghost(g))
        .step(2088653400, -12600, 3600, "NDT", Ghost(g))
        .step(2109213000, -12600, 0, "NST", Ghost(g))
        .step(2120103000, -12600, 3600, "NDT", Ghost(g))
        .step(2140662600, -12600, 0, "NST", Ghost(g))
        .finish(Ghost(g))
}

/// The zone `Canada/Pacific`.
pub fn pacific() -> (r: Tz)
    ensures
        r.wf(),
        r.zone_name() == "Canada/Pacific"@,
        r.table() == tables::canada::pacific(),
{
    let ghost g = tables::canada::pacific_rows();
    FixedTimespanSet::begin("Canada/Pacific", -29548, 0, "LMT", Ghost(g))
        .step(-2713880852, -28800, 0, "PST", Ghost(g))
        .step(-1632060000, -28800, 3600, "PDT", Ghost(g))
        .step(-1615129200, -28800, 0, "PST", Ghost(g))
        .step(-880207200, -28800, 3600, "PWT", Ghost(g))
        .step(-769395600, -28800, 3600, "PPT", Ghost(g))
        .step(-765385200, -28800, 0, "PST", Ghost(g))
        .step(-747237600, -28800, 3600, "PDT", Ghost(g))
        .step(-733935600, -28800, 0, "PST", Ghost(g))
        .step(-715788000, -28800, 3600, "PDT", Ghost(g))
        .step(-702486000, -28800, 0, "PST", Ghost(g))
        .step(-684338400, -28800, 3600, "PDT", Ghost(g))
        .step(-671036400, -28800, 0, "PST", Ghost(g))
        .step(-652888800, -28800, 3600, "PDT", Ghost(g))
        .step(-639586800, -28800, 0, "PST", Ghost(g))
        .step(-620834400, -28800, 3600, "PDT", Ghost(g))
        .step(-608137200, -28800, 0, "PST", Ghost(g))
        .step(-589384800, -28800, 3600, "PDT", Ghost(g))
        .step(-576082800, -28800, 0, "PST", Ghost(g))
        .step(-557935200, -28800, 3600, "PDT", Ghost(g))
        .step(-544633200, -28800, 0, "PST", Ghost(g))
        .step(-526485600, -28800, 3600, "PDT", Ghost(g))
        .step(-513183600, -28800, 0, "PST", Ghost(g))
        .step(-495036000, -28800, 3600, "PDT", Ghost(g))
        .step(-481734000, -28800, 0, "PST", Ghost(g))
        .step(-463586400, -28800, 3600, "PDT", Ghost(g))
        .step(-450284400, -28800, 0, "PST", Ghost(g))
        .step(-431532000, -28800, 3600, "PDT", Ghost(g))
        .step(-418230000, -28800, 0, "PST", Ghost(g))
        .step(-400082400, -28800, 3600, "PDT", Ghost(g))
        .step(-386780400, -28800, 0, "PST", Ghost(g))
        .step(-368632800, -28800, 3600, "PDT", Ghost(g))
        .step(-355330800, -28800, 0, "PST", Ghost(g))
        .step(-337183200, -28800, 3600, "PDT", Ghost(g))
        .step(-323881200, -28800, 0, "PST", Ghost(g))
        .step(-305733600, -28800, 3600, "PDT", Ghost(g))
        .step(-292431600, -28800, 0, "PST", Ghost(g))
        .step(-273679200, -28800, 3600, "PDT", Ghost(g))
        .step(-260982000, -28800, 0, "PST", Ghost(g))
        .step(-242229600, -28800, 3600, "PDT", Ghost(g))
        .step(-226508400, -28800, 0, "PST", Ghost(g))
        .step(-210780000, -28800, 3600, "PDT", Ghost(g))
        .step(-195058800, -28800, 0, "PST", Ghost(g))
        .step(-179330400, -28800, 3600, "PDT", Ghost(g))
        .step(-163609200, -28800, 0, "PST", Ghost(g))
        .step(-147880800, -28800, 3600, "PDT", Ghost(g))
        .step(-131554800, -28800, 0, "PST", Ghost(g))
        .step(-116431200, -28800, 3600, "PDT", Ghost(g))
        .step(-100105200, -28800, 0, "PST", Ghost(g))
        .step(-84376800, -28800, 3600, "PDT", Ghost(g))
        .step(-68655600, -28800, 0, "PST", Ghost(g))
        .step(-52927200, -28800, 3600, "PDT", Ghost(g))
        .step(-37206000, -28800, 0, "PST", Ghost(g))
        .step(-21477600, -28800, 3600, "PDT", Ghost(g))
        .step(-5756400, -28800, 0, "PST", Ghost(g))
        .step(9972000, -28800, 3600, "PDT", Ghost(g))
        .step(25693200, -28800, 0, "PST", Ghost(g))
        .step(41421600, -28800, 3600, "PDT", Ghost(g))
        .step(57747600, -28800, 0, "PST", Ghost(g))
        .step(73476000, -28800, 3600, "PDT", Ghost(g))
        .step(89197200, -28800, 0, "PST", Ghost(g))
        .step(104925600, -28800, 3600, "PDT", Ghost(g))
        .step(120646800, -28800, 0, "PST", Ghost(g))
        .step(136375200, -28800, 3600, "PDT", Ghost(g))
        .step(152096400, -28800, 0, "PST", Ghost(g))
        .step(167824800, -28800, 3600, "PDT", Ghost(g))
        .step(183546000, -28800, 0, "PST", Ghost(g))
        .step(199274400, -28800, 3600, "PDT", Ghost(g))
        .step(215600400, -28800, 0, "PST", Ghost(g))
        .step(230724000, -28800, 3600, "PDT", Ghost(g))
        .step(247050000, -28800, 0, "PST", Ghost(g))
        .step(262778400, -28800, 3600, "PDT", Ghost(g))
        .step(278499600, -28800, 0, "PST", Ghost(g))
        .step(294228000, -28800, 3600, "PDT", Ghost(g))
        .step(309949200, -28800, 0, "PST", Ghost(g))
        .step(325677600, -28800, 3600, "PDT", Ghost(g))
        .step(341398800, -28800, 0, "PST", Ghost(g))
        .step(357127200, -28800, 3600, "PDT", Ghost(g))
        .step(372848400, -28800, 0, "PST", Ghost(g))
        .step(388576800, -28800, 3600, "PDT", Ghost(g))
        .step(404902800, -28800, 0, "PST", Ghost(g))
        .step(420026400, -28800, 3600, "PDT", Ghost(g))
        .step(436352400, -28800, 0, "PST", Ghost(g))
        .step(452080800, -28800, 3600, "PDT", Ghost(g))
        .step(467802000, -28800, 0, "PST", Ghost(g))
        .step(483530400, -28800, 3600, "PDT", Ghost(g))
        .step(499251600, -28800, 0, "PST", Ghost(g))
        .step(514980000, -28800, 3600, "PDT", Ghost(g))
        .step(530701200, -28800, 0, "PST", Ghost(g))
        .step(544615200, -28800, 3600, "PDT", Ghost(g))
        .step(562150800, -28800, 0, "PST", Ghost(g))
        .step(576064800, -28800, 3600, "PDT", Ghost(g))
        .step(594205200, -28800, 0, "PST", Ghost(g))
        .step(607514400, -28800, 3600, "PDT", Ghost(g))
        .step(625654800, -28800, 0, "PST", Ghost(g))
        .step(638964000, -28800, 3600, "PDT", Ghost(g))
        .step(657104400, -28800, 0, "PST", Ghost(g))
        .step(671018400, -28800, 3600, "PDT", Ghost(g))
        .step(688554000, -28800, 0, "PST", Ghost(g))
        .step(702468000, -28800, 3600, "PDT", Ghost(g))
        .step(720003600, -28800, 0, "PST", Ghost(g))
        .step(733917600, -28800, 3600, "PDT", Ghost(g))
        .step(752058000, -28800, 0, "PST", Ghost(g))
        .step(765367200, -28800, 3600, "PDT", Ghost(g))
        .step(783507600, -28800, 0, "PST", Ghost(g))
        .step(796816800, -28800, 3600, "PDT", Ghost(g))
        .step(814957200, -28800, 0, "PST", Ghost(g))
        .step(828871200, -28800, 3600, "PDT", Ghost(g))
        .step(846406800, -28800, 0, "PST", Ghost(g))
        .step(860320800, -28800, 3600, "PDT", Ghost(g))
        .step(877856400, -28800, 0, "PST", Ghost(g))
        .step(891770400, -28800, 3600, "PDT", Ghost(g))
        .step(909306000, -28800, 0, "PST", Ghost(g))
        .step(923220000, -28800, 3600, "PDT", Ghost(g))
        .step(941360400, -28800, 0, "PST", Ghost(g))
        .step(954669600, -28800, 3600, "PDT", Ghost(g))
        .step(972810000, -28800, 0, "PST", Ghost(g))
        .step(986119200, -28800, 3600, "PDT", Ghost(g))
        .step(1004259600, -28800, 0, "PST", Ghost(g))
        .step(1018173600, -28800, 3600, "PDT", Ghost(g))
        .step(1035709200, -28800, 0, "PST", Ghost(g))
        .step(1049623200, -28800, 3600, "PDT", Ghost(g))
        .step(1067158800, -28800, 0, "PST", Ghost(g))
        .step(1081072800, -28800, 3600, "PDT", Ghost(g))
        .step(1099213200, -28800, 0, "PST", Ghost(g))
        .step(1112522400, -28800, 3600, "PDT", Ghost(g))
        .step(1130662800, -28800, 0, "PST", Ghost(g))
        .step(1143972000, -28800, 3600, "PDT", Ghost(g))
        .step(1162112400, -28800, 0, "PST", Ghost(g))
        .step(1173607200, -28800, 3600, "PDT", Ghost(g))
        .step(1194166800, -28800, 0, "PST", Ghost(g))
        .step(1205056800, -28800, 3600, "PDT", Ghost(g))
        .step(1225616400, -28800, 0, "PST", Ghost(g))
        .step(1236506400, -28800, 3600, "PDT", Ghost(g))
        .step(1257066000, -28800, 0, "PST", Ghost(g))
        .step(1268560800, -28800, 3600, "PDT", Ghost(g))
        .step(1289120400, -28800, 0, "PST", Ghost(g))
        .step(1300010400, -28800, 3600, "PDT", Ghost(g))
        .step(1320570000, -28800, 0, "PST", Ghost(g))
        .step(1331460000, -28800, 3600, "PDT", Ghost(g))
        .step(1352019600, -28800, 0, "PST", Ghost(g))
        .step(1362909600, -28800, 3600, "PDT", Ghost(g))
        .step(1383469200, -28800, 0, "PST", Ghost(g))
        .step(1394359200, -28800, 3600, "PDT", Ghost(g))
        .step(1414918800, -28800, 0, "PST", Ghost(g))
        .step(1425808800, -28800, 3600, "PDT", Ghost(g))
        .step(1446368400, -28800, 0, "PST", Ghost(g))
        .step(1457863200, -28800, 3600, "PDT", Ghost(g))
        .step(1478422800, -28800, 0, "PST", Ghost(g))
        .step(1489312800, -28800, 3600, "PDT", Ghost(g))
        .step(1509872400, -28800, 0, "PST", Ghost(g))
        .step(1520762400, -28800, 3600, "PDT", Ghost(g))
        .step(1541322000, -28800, 0, "PST", Ghost(g))
        .step(1552212000, -28800, 3600, "PDT", Ghost(g))
        .step(1572771600, -28800, 0, "PST", Ghost(g))
        .step(1583661600, -28800, 3600, "PDT", Ghost(g))
        .step(1604221200, -28800, 0, "PST", Ghost(g))
        .step(1615716000, -28800, 3600, "PDT", Ghost(g))
        .step(1636275600, -28800, 0, "PST", Ghost(g))
        .step(1647165600, -28800, 3600, "PDT", Ghost(g))
        .step(1667725200, -28800, 0, "PST", Ghost(g))
        .step(1678615200, -28800, 3600, "PDT", Ghost(g))
        .step(1699174800, -28800, 0, "PST", Ghost(g))
        .step(1710064800, -28800, 3600, "PDT", Ghost(g))
        .step(1730624400, -28800, 0, "PST", Ghost(g))
        .step(1741514400, -28800, 3600, "PDT", Ghost(g))
        .step(1762074000, -28800, 0, "PST", Ghost(g))
        .step(1772964000, -28800, 3600, "PDT", Ghost(g))
        .step(1793523600, -28800, 0, "PST", Ghost(g))
        .step(1805018400, -28800, 3600, "PDT", Ghost(g))
        .step(1825578000, -28800, 0, "PST", Ghost(g))
        .step(1836468000, -28800, 3600, "PDT", Ghost(g))
        .step(1857027600, -28800, 0, "PST", Ghost(g))
        .step(1867917600, -28800, 3600, "PDT", Ghost(g))
        .step(1888477200, -28800, 0, "PST", Ghost(g))
        .step(1899367200, -28800, 3600, "PDT", Ghost(g))
        .step(1919926800, -28800, 0, "PST", Ghost(g))
        .step(1930816800, -28800, 3600, "PDT", Ghost(g))
        .step(1951376400, -28800, 0, "PST", Ghost(g))
        .step(1962871200, -28800, 3600, "PDT", Ghost(g))
        .step(1983430800, -28800, 0, "PST", Ghost(g))
        .step(1994320800, -28800, 3600, "PDT", Ghost(g))
        .step(2014880400, -28800, 0, "PST", Ghost(g))
        .step(2025770400, -28800, 3600, "PDT", Ghost(g))
        .step(2046330000, -28800, 0, "PST", Ghost(g))
        .step(2057220000, -28800, 3600, "PDT", Ghost(g))
        .step(2077779600, -28800, 0, "PST", Ghost(g))
        .step(2088669600, -28800, 3600, "PDT", Ghost(g))
        .step(2109229200, -28800, 0, "PST", Ghost(g))
        .step(2120119200, -28800, 3600, "PDT", Ghost(g))
        .step(2140678800, -28800, 0, "PST", Ghost(g))
        .finish(Ghost(g))
}

/// The zone `Canada/Saskatchewan`.
pub fn saskatchewan() -> (r: Tz)
    ensures
        r.wf(),
        r.zone_name() == "Canada/Saskatchewan"@,
        r.table() == tables::canada::saskatchewan(),
{
    let ghost g = tables::canada::saskatchewan_rows();
    FixedTimespanSet::begin("Canada/Saskatchewan", -25116, 0, "LMT", Ghost(g))
        .step(-2030202084, -25200, 0, "MST", Ghost(g))
        .step(-1632063600, -25200, 3600, "MDT", Ghost(g))
        .step(-1615132800, -25200, 0, "MST", Ghost(g))
        .step(-1251651600, -25200, 3600, "MDT", Ghost(g))
        .step(-1238349600, -25200, 0, "MST", Ghost(g))
        .step(-1220202000, -25200, 3600, "MDT", Ghost(g))
        .step(-1206900000, -25200, 0, "MST", Ghost(g))
        .step(-1188752400, -25200, 3600, "MDT", Ghost(g))
        .step(-1175450400, -25200, 0, "MST", Ghost(g))
        .step(-1156698000, -25200, 3600, "MDT", Ghost(g))
        .step(-1144000800, -25200, 0, "MST", Ghost(g))
        .step(-1125248400, -25200, 3600, "MDT", Ghost(g))
        .step(-1111946400, -25200, 0, "MST", Ghost(g))
        .step(-1032714000, -25200, 3600, "MDT", Ghost(g))
        .step(-1016992800, -25200, 0, "MST", Ghost(g))
        .step(-1001264400, -25200, 3600, "MDT", Ghost(g))
        .step(-986148000, -25200, 0, "MST", Ghost(g))
        .step(-969814800, -25200, 3600, "MDT", Ghost(g))
        .step(-954093600, -25200, 0, "MST", Ghost(g))
        .step(-937760400, -25200, 3600, "MDT", Ghost(g))
        .step(-922039200, -25200, 0, "MST", Ghost(g))
        .step(-906310800, -25200, 3600, "MDT", Ghost(g))
        .step(-890589600, -25200, 0, "MST", Ghost(g))
        .step(-880210800, -25200, 3600, "MWT", Ghost(g))
        .step(-769395600, -25200, 3600, "MPT", Ghost(g))
        .step(-765388800, -25200, 0, "MST", Ghost(g))
        .step(-748450800, -25200, 3600, "MDT", Ghost(g))
        .step(-732729600, -25200, 0, "MST", Ghost(g))
        .step(-715791600, -25200, 3600, "MDT", Ghost(g))
        .step(-702489600, -25200, 0, "MST", Ghost(g))
        .step(-684342000, -25200, 3600, "MDT", Ghost(g))
        .step(-671040000, -25200, 0, "MST", Ghost(g))
        .step(-652892400, -25200, 3600, "MDT", Ghost(g))
        .step(-639590400, -25200, 0, "MST", Ghost(g))
        .step(-620838000, -25200, 3600, "MDT", Ghost(g))
        .step(-608140800, -25200, 0, "MST", Ghost(g))
        .step(-589388400, -25200, 3600, "MDT", Ghost(g))
        .step(-576086400, -25200, 0, "MST", Ghost(g))
        .step(-557938800, -25200, 3600, "MDT", Ghost(g))
        .step(-544636800, -25200, 0, "MST", Ghost(g))
        .step(-526489200, -25200, 3600, "MDT", Ghost(g))
        .step(-513187200, -25200, 0, "MST", Ghost(g))
        .step(-495039600, -25200, 3600, "MDT", Ghost(g))
        .step(-481737600, -25200, 0, "MST", Ghost(g))
        .step(-463590000, -25200, 3600, "MDT", Ghost(g))
        .step(-450288000, -25200, 0, "MST", Ghost(g))
        .step(-431535600, -25200, 3600, "MDT", Ghost(g))
        .step(-418233600, -25200, 0, "MST", Ghost(g))
        .step(-400086000, -25200, 3600, "MDT", Ghost(g))
        .step(-386784000, -25200, 0, "MST", Ghost(g))
        .step(-337186800, -25200, 3600, "MDT", Ghost(g))
        .step(-321465600, -25200, 0, "MST", Ghost(g))
        .step(-305737200, -21600, 0, "CST", Ghost(g))
        .finish(Ghost(g))
}

/// The zone `Canada/Yukon`.
pub fn yukon() -> (r: Tz)
    ensures
        r.wf(),
        r.zone_name() == "Canada/Yukon"@,
        r.table() == tables::canada::yukon(),
{
    let ghost g = tables::canada::yukon_rows();
    FixedTimespanSet::begin("Canada/Yukon", -32412, 0, "LMT", Ghost(g))
        .step(-2188997988, -32400, 0, "YST", Ghost(g))
        .step(-1632056400, -32400, 3600, "YDT", Ghost(g))
        .step(-1615125600, -32400, 0, "YST", Ghost(g))
        .step(-1596978000, -32400, 3600, "YDT", Ghost(g))
        .step(-1583164800, -32400, 0, "YST", Ghost(g))
        .step(-880203600, -32400, 3600, "YWT", Ghost(g))
        .step(-769395600, -32400, 3600, "YPT", Ghost(g))
        .step(-765381600, -32400, 0, "YST", Ghost(g))
        .step(-147884400, -32400, 7200, "YDDT", Ghost(g))
        .step(-131554800, -32400, 0, "YST", Ghost(g))
        .step(-121273200, -28800, 0, "PST", Ghost(g))
        .step(325677600, -28800, 3600, "PDT", Ghost(g))
        .step(341398800, -28800, 0, "PST", Ghost(g))
        .step(357127200, -28800, 3600, "PDT", Ghost(g))
        .step(372848400, -28800, 0, "PST", Ghost(g))
        .step(388576800, -28800, 3600, "PDT", Ghost(g))
        .step(404902800, -28800, 0, "PST", Ghost(g))
        .step(420026400, -28800, 3600, "PDT", Ghost(g))
        .step(436352400, -28800, 0, "PST", Ghost(g))
        .step(452080800, -28800, 3600, "PDT", Ghost(g))
        .step(467802000, -28800, 0, "PST", Ghost(g))
        .step(483530400, -28800, 3600, "PDT", Ghost(g))
        .step(499251600, -28800, 0, "PST", Ghost(g))
        .step(514980000, -28800, 3600, "PDT", Ghost(g))
        .step(530701200, -28800, 0, "PST", Ghost(g))
        .step(544615200, -28800, 3600, "PDT", Ghost(g))
        .step(562150800, -28800, 0, "PST", Ghost(g))
        .step(576064800, -28800, 3600, "PDT", Ghost(g))
        .step(594205200, -28800, 0, "PST", Ghost(g))
        .step(607514400, -28800, 3600, "PDT", Ghost(g))
        .step(625654800, -28800, 0, "PST", Ghost(g))
        .step(638964000, -28800, 3600, "PDT", Ghost(g))
        .step(657104400, -28800, 0, "PST", Ghost(g))
        .step(671018400, -28800, 3600, "PDT", Ghost(g))
        .step(688554000, -28800, 0, "PST", Ghost(g))
        .step(702468000, -28800, 3600, "PDT", Ghost(g))
        .step(720003600, -28800, 0, "PST", Ghost(g))
        .step(733917600, -28800, 3600, "PDT", Ghost(g))
        .step(752058000, -28800, 0, "PST", Ghost(g))
        .step(765367200, -28800, 3600, "PDT", Ghost(g))
        .step(783507600, -28800, 0, "PST", Ghost(g))
        .step(796816800, -28800, 3600, "PDT", Ghost(g))
        .step(814957200, -28800, 0, "PST", Ghost(g))
        .step(828871200, -28800, 3600, "PDT", Ghost(g))
        .step(846406800, -28800, 0, "PST", Ghost(g))
        .step(860320800, -28800, 3600, "PDT", Ghost(g))
        .step(877856400, -28800, 0, "PST", Ghost(g))
        .step(891770400, -28800, 3600, "PDT", Ghost(g))
        .step(909306000, -28800, 0, "PST", Ghost(g))
        .step(923220000, -28800, 3600, "PDT", Ghost(g))
        .step(941360400, -28800, 0, "PST", Ghost(g))
        .step(954669600, -28800, 3600, "PDT", Ghost(g))
        .step(972810000, -28800, 0, "PST", Ghost(g))
        .step(986119200, -28800, 3600, "PDT", Ghost(g))
        .step(1004259600, -28800, 0, "PST", Ghost(g))
        .step(1018173600, -28800, 3600, "PDT", Ghost(g))
        .step(1035709200, -28800, 0, "PST", Ghost(g))
        .step(1049623200, -28800, 3600, "PDT", Ghost(g))
        .step(1067158800, -28800, 0, "PST", Ghost(g))
        .step(1081072800, -28800, 3600, "PDT", Ghost(g))
        .step(1099213200, -28800, 0, "PST", Ghost(g))
        .step(1112522400, -28800, 3600, "PDT", Ghost(g))
        .step(1130662800, -28800, 0, "PST", Ghost(g))
        .step(1143972000, -28800, 3600, "PDT", Ghost(g))
        .step(1162112400, -28800, 0, "PST", Ghost(g))
        .step(1173607200, -28800, 3600, "PDT", Ghost(g))
        .step(1194166800, -28800, 0, "PST", Ghost(g))
        .step(1205056800, -28800, 3600, "PDT", Ghost(g))
        .step(1225616400, -28800, 0, "PST", Ghost(g))
        .step(1236506400, -28800, 3600, "PDT", Ghost(g))
        .step(1257066000, -28800, 0, "PST", Ghost(g))
        .step(1268560800, -28800, 3600, "PDT", Ghost(g))
        .step(1289120400, -28800, 0, "PST", Ghost(g))
        .step(1300010400, -28800, 3600, "PDT", Ghost(g))
        .step(1320570000, -28800, 0, "PST", Ghost(g))
        .step(1331460000, -28800, 3600, "PDT", Ghost(g))
        .step(1352019600, -28800, 0, "PST", Ghost(g))
        .step(1362909600, -28800, 3600, "PDT", Ghost(g))
        .step(1383469200, -28800, 0, "PST", Ghost(g))
        .step(1394359200, -28800, 3600, "PDT", Ghost(g))
        .step(1414918800, -28800, 0, "PST", Ghost(g))
        .step(1425808800, -28800, 3600, "PDT", Ghost(g))
        .step(1446368400, -28800, 0, "PST", Ghost(g))
        .step(1457863200, -28800, 3600, "PDT", Ghost(g))
        .step(1478422800, -28800, 0, "PST", Ghost(g))
        .step(1489312800, -28800, 3600, "PDT", Ghost(g))
        .step(1509872400, -28800, 0, "PST", Ghost(g))
        .step(1520762400, -28800, 3600, "PDT", Ghost(g))
        .step(1541322000, -28800, 0, "PST", Ghost(g))
        .step(1552212000, -28800, 3600, "PDT", Ghost(g))
        .step(1572771600, -28800, 0, "PST", Ghost(g))
        .step(1583661600, -28800, 3600, "PDT", Ghost(g))
        .step(1604214000, -25200, 0, "MST", Ghost(g))
        .finish(Ghost(g))
}

} // verus!
