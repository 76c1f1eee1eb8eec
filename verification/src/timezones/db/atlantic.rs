//! Zones of the Atlantic.

use crate::interface::TimeZone;
use crate::timezone_impl::{FixedTimespanSet, Tz};
use crate::timezones::tables;
use vstd::prelude::*;

verus! {

/// The zone `Atlantic/Azores`.
pub fn azores() -> (r: Tz)
    ensures
        r.wf(),
        r.zone_name() == "Atlantic/Azores"@,
        r.table() == tables::atlantic::azores(),
{
    let ghost g = tables::atlantic::azores_rows();
    FixedTimespanSet::begin("Atlantic/Azores", -6160, 0, "LMT", Ghost(g))
        .step(-2713904240, -6872, 0, "HMT", Ghost(g))
        .step(-1830376800, -7200, 0, "-02", Ghost(g))
        .step(-1689548400, -7200, 3600, "-01", Ghost(g))
        .step(-1677794400, -7200, 0, "-02", Ghost(g))
        .step(-1667426400, -7200, 3600, "-01", Ghost(g))
        .step(-1647730800, -7200, 0, "-02", Ghost(g))
        .step(-1635890400, -7200, 3600, "-01", Ghost(g))
        .step(-1616194800, -7200, 0, "-02", Ghost(g))
        .step(-1604354400, -7200, 3600, "-01", Ghost(g))
        .step(-1584658800, -7200, 0, "-02", Ghost(g))
        .step(-1572732000, -7200, 3600, "-01", Ghost(g))
        .step(-1553036400, -7200, 0, "-02", Ghost(g))
        .step(-1541196000, -7200, 3600, "-01", Ghost(g))
        .step(-1521500400, -7200, 0, "-02", Ghost(g))
        .step(-1442444400, -7200, 3600, "-01", Ghost(g))
        .step(-1427670000, -7200, 0, "-02", Ghost(g))
        .step(-1379286000, -7200, 3600, "-01", Ghost(g))
        .step(-1364770800, -7200, 0, "-02", Ghost(g))
        .step(-1348441200, -7200, 3600, "-01", Ghost(g))
        .step(-1333321200, -7200, 0, "-02", Ghost(g))
        .step(-1316386800, -7200, 3600, "-01", Ghost(g))
        .step(-1301266800, -7200, 0, "-02", Ghost(g))
        .step(-1284332400, -7200, 3600, "-01", Ghost(g))
        .step(-1269817200, -7200, 0, "-02", Ghost(g))
        .step(-1221433200, -7200, 3600, "-01", Ghost(g))
        .step(-1206918000, -7200, 0, "-02", Ghost(g))
        .step(-1191193200, -7200, 3600, "-01", Ghost(g))
        .step(-1175468400, -7200, 0, "-02", Ghost(g))
        .step(-1127689200, -7200, 3600, "-01", Ghost(g))
        .step(-1111964400, -7200, 0, "-02", Ghost(g))
        .step(-1096844400, -7200, 3600, "-01", Ghost(g))
        .step(-1080514800, -7200, 0, "-02", Ghost(g))
        .step(-1063580400, -7200, 3600, "-01", Ghost(g))
        .step(-1049065200, -7200, 0, "-02", Ghost(g))
        .step(-1033340400, -7200, 3600, "-01", Ghost(g))
        .step(-1017615600, -7200, 0, "-02", Ghost(g))
        .step(-1002495600, -7200, 3600, "-01", Ghost(g))
        .step(-986166000, -7200, 0, "-02", Ghost(g))
        .step(-969231600, -7200, 3600, "-01", Ghost(g))
        .step(-950482800, -7200, 0, "-02", Ghost(g))
        .step(-942015600, -7200, 3600, "-01", Ghost(g))
        .step(-922489200, -7200, 0, "-02", Ghost(g))
        .step(-906937200, -7200, 3600, "-01", Ghost(g))
        .step(-891126000, -7200, 0, "-02", Ghost(g))
        .step(-877302000, -7200, 3600, "-01", Ghost(g))
        .step(-873676800, -7200, 7200, "+00", Ghost(g))
        .step(-864000000, -7200, 3600, "-01", Ghost(g))
        .step(-857948400, -7200, 0, "-02", Ghost(g))
        .step(-845852400, -7200, 3600, "-01", Ghost(g))
        .step(-842832000, -7200, 7200, "+00", Ghost(g))
        .step(-831340800, -7200, 3600, "-01", Ghost(g))
        .step(-825894000, -7200, 0, "-02", Ghost(g))
        .step(-814402800, -7200, 3600, "-01", Ghost(g))
        .step(-810777600, -7200, 7200, "+00", Ghost(g))
        .step(-799891200, -7200, 3600, "-01", Ghost(g))
        .step(-794444400, -7200, 0, "-02", Ghost(g))
        .step(-782953200, -7200, 3600, "-01", Ghost(g))
        .step(-779328000, -7200, 7200, "+00", Ghost(g))
        .step(-768441600, -7200, 3600, "-01", Ghost(g))
        .step(-762994800, -7200, 0, "-02", Ghost(g))
        .step(-749084400, -7200, 3600, "-01", Ghost(g))
        .step(-733359600, -7200, 0, "-02", Ghost(g))
        .step(-717624000, -7200, 3600, "-01", Ghost(g))
        .step(-701899200, -7200, 0, "-02", Ghost(g))
        .step(-686174400, -7200, 3600, "-01", Ghost(g))
        .step(-670449600, -7200, 0, "-02", Ghost(g))
        .step(-654724800, -7200, 3600, "-01", Ghost(g))
        .step(-639000000, -7200, 0, "-02", Ghost(g))
        .step(-623275200, -7200, 3600, "-01", Ghost(g))
        .step(-607550400, -7200, 0, "-02", Ghost(g))
        .step(-591825600, -7200, 3600, "-01", Ghost(g))
        .step(-575496000, -7200, 0, "-02", Ghost(g))
        .step(-559771200, -7200, 3600, "-01", Ghost(g))
        .step(-544046400, -7200, 0, "-02", Ghost(g))
        .step(-528321600, -7200, 3600, "-01", Ghost(g))
        .step(-512596800, -7200, 0, "-02", Ghost(g))
        .step(-496872000, -7200, 3600, "-01", Ghost(g))
        .step(-481147200, -7200, 0, "-02", Ghost(g))
        .step(-465422400, -7200, 3600, "-01", Ghost(g))
        .step(-449697600, -7200, 0, "-02", Ghost(g))
        .step(-433972800, -7200, 3600, "-01", Ghost(g))
        .step(-417643200, -7200, 0, "-02", Ghost(g))
        .step(-401918400, -7200, 3600, "-01", Ghost(g))
        .step(-386193600, -7200, 0, "-02", Ghost(g))
        .step(-370468800, -7200, 3600, "-01", Ghost(g))
        .step(-354744000, -7200, 0, "-02", Ghost(g))
        .step(-339019200, -7200, 3600, "-01", Ghost(g))
        .step(-323294400, -7200, 0, "-02", Ghost(g))
        .step(-307569600, -7200, 3600, "-01", Ghost(g))
        .step(-291844800, -7200, 0, "-02", Ghost(g))
        .step(-276120000, -7200, 3600, "-01", Ghost(g))
        .step(-260395200, -7200, 0, "-02", Ghost(g))
        .step(-244670400, -7200, 3600, "-01", Ghost(g))
        .step(-228340800, -7200, 0, "-02", Ghost(g))
        .step(-212616000, -7200, 3600, "-01", Ghost(g))
        .step(-196891200, -7200, 0, "-02", Ghost(g))
        .step(-181166400, -7200, 3600, "-01", Ghost(g))
        .step(-165441600, -7200, 0, "-02", Ghost(g))
        .step(-149716800, -7200, 3600, "-01", Ghost(g))
        .step(-133992000, -7200, 0, "-02", Ghost(g))
        .step(-118267200, -7200, 3600, "-01", Ghost(g))
        .step(-102542400, -3600, 0, "-01", Ghost(g))
        .step(386125200, -3600, 3600, "+00", Ghost(g))
        .step(401850000, -3600, 0, "-01", Ghost(g))
        .step(417574800, -3600, 3600, "+00", Ghost(g))
        .step(433299600, -3600, 0, "-01", Ghost(g))
        .step(449024400, -3600, 3600, "+00", Ghost(g))
        .step(465354000, -3600, 0, "-01", Ghost(g))
        .step(481078800, -3600, 3600, "+00", Ghost(g))
        .step(496803600, -3600, 0, "-01", Ghost(g))
        .step(512528400, -3600, 3600, "+00", Ghost(g))
        .step(528253200, -3600, 0, "-01", Ghost(g))
        .step(543978000, -3600, 3600, "+00", Ghost(g))
        .step(559702800, -3600, 0, "-01", Ghost(g))
        .step(575427600, -3600, 3600, "+00", Ghost(g))
        .step(591152400, -3600, 0, "-01", Ghost(g))
        .step(606877200, -3600, 3600, "+00", Ghost(g))
        .step(622602000, -3600, 0, "-01", Ghost(g))
        .step(638326800, -3600, 3600, "+00", Ghost(g))
        .step(654656400, -3600, 0, "-01", Ghost(g))
        .step(670381200, -3600, 3600, "+00", Ghost(g))
        .step(686106000, -3600, 0, "-01", Ghost(g))
        .step(701830800, -3600, 3600, "+00", Ghost(g))
        .step(717555600, -3600, 0, "-01", Ghost(g))
        .step(725421600, 0, 0, "WET", Ghost(g))
        .step(733280400, 0, 3600, "WEST", Ghost(g))
        .step(740278800, -3600, 3600, "+00", Ghost(g))
        .step(749005200, -3600, 0, "-01", Ghost(g))
        .step(764730000, -3600, 3600, "+00", Ghost(g))
        .step(780454800, -3600, 0, "-01", Ghost(g))
        .step(796179600, -3600, 3600, "+00", Ghost(g))
        .step(811904400, -3600, 0, "-01", Ghost(g))
        .step(828234000, -3600, 3600, "+00", Ghost(g))
        .step(846378000, -3600, 0, "-01", Ghost(g))
        .step(859683600, -3600, 3600, "+00", Ghost(g))
        .step(877827600, -3600, 0, "-01", Ghost(g))
        .step(891133200, -3600, 3600, "+00", Ghost(g))
        .step(909277200, -3600, 0, "-01", Ghost(g))
        .step(922582800, -3600, 3600, "+00", Ghost(g))
        .step(941331600, -3600, 0, "-01", Ghost(g))
        .step(954032400, -3600, 3600, "+00", Ghost(g))
        .step(972781200, -3600, 0, "-01", Ghost(g))
        .step(985482000, -3600, 3600, "+00", Ghost(g))
        .step(1004230800, -3600, 0, "-01", Ghost(g))
        .step(1017536400, -3600, 3600, "+00", Ghost(g))
        .step(1035680400, -3600, 0, "-01", Ghost(g))
        .step(1048986000, -3600, 3600, "+00", Ghost(g))
        .step(1067130000, -3600, 0, "-01", Ghost(g))
        .step(1080435600, -3600, 3600, "+00", Ghost(g))
        .step(1099184400, -3600, 0, "-01", Ghost(g))
        .step(1111885200, -3600, 3600, "+00", Ghost(g))
        .step(1130634000, -3600, 0, "-01", Ghost(g))
        .step(1143334800, -3600, 3600, "+00", Ghost(g))
        .step(1162083600, -3600, 0, "-01", Ghost(g))
        .step(1174784400, -3600, 3600, "+00", Ghost(g))
        .step(1193533200, -3600, 0, "-01", Ghost(g))
        .step(1206838800, -3600, 3600, "+00", Ghost(g))
        .step(1224982800, -3600, 0, "-01", Ghost(g))
        .step(1238288400, -3600, 3600, "+00", Ghost(g))
        .step(1256432400, -3600, 0, "-01", Ghost(g))
        .step(1269738000, -3600, 3600, "+00", Ghost(g))
        .step(1288486800, -3600, 0, "-01", Ghost(g))
        .step(1301187600, -3600, 3600, "+00", Ghost(g))
        .step(1319936400, -3600, 0, "-01", Ghost(g))
        .step(1332637200, -3600, 3600, "+00", Ghost(g))
        .step(1351386000, -3600, 0, "-01", Ghost(g))
        .step(1364691600, -3600, 3600, "+00", Ghost(g))
        .step(1382835600, -3600, 0, "-01", Ghost(g))
        .step(1396141200, -3600, 3600, "+00", Ghost(g))
        .step(1414285200, -3600, 0, "-01", Ghost(g))
        .step(1427590800, -3600, 3600, "+00", Ghost(g))
        .step(1445734800, -3600, 0, "-01", Ghost(g))
        .step(1459040400, -3600, 3600, "+00", Ghost(g))
        .step(1477789200, -3600, 0, "-01", Ghost(g))
        .step(1490490000, -3600, 3600, "+00", Ghost(g))
        .step(1509238800, -3600, 0, "-01", Ghost(g))
        .step(1521939600, -3600, 3600, "+00", Ghost(g))
        .step(1540688400, -3600, 0, "-01", Ghost(g))
        .step(1553994000, -3600, 3600, "+00", Ghost(g))
        .step(1572138000, -3600, 0, "-01", Ghost(g))
        .step(1585443600, -3600, 3600, "+00", Ghost(g))
        .step(1603587600, -3600, 0, "-01", Ghost(g))
        .step(1616893200, -3600, 3600, "+00", Ghost(g))
        .step(1635642000, -3600, 0, "-01", Ghost(g))
        .step(1648342800, -3600, 3600, "+00", Ghost(g))
        .step(1667091600, -3600, 0, "-01", Ghost(g))
        .step(1679792400, -3600, 3600, "+00", Ghost(g))
        .step(1698541200, -3600, 0, "-01", Ghost(g))
        .step(1711846800, -3600, 3600, "+00", Ghost(g))
        .step(1729990800, -3600, 0, "-01", Ghost(g))
        .step(1743296400, -3600, 3600, "+00", Ghost(g))
        .step(1761440400, -3600, 0, "-01", Ghost(g))
        .step(1774746000, -3600, 3600, "+00", Ghost(g))
        .step(1792890000, -3600, 0, "-01", Ghost(g))
        .step(1806195600, -3600, 3600, "+00", Ghost(g))
        .step(1824944400, -3600, 0, "-01", Ghost(g))
        .step(1837645200, -3600, 3600, "+00", Ghost(g))
        .step(1856394000, -3600, 0, "-01", Ghost(g))
        .step(1869094800, -3600, 3600, "+00", Ghost(g))
        .step(1887843600, -3600, 0, "-01", Ghost(g))
        .step(1901149200, -3600, 3600, "+00", Ghost(g))
        .step(1919293200, -3600, 0, "-01", Ghost(g))
        .step(1932598800, -3600, 3600, "+00", Ghost(g))
        .step(1950742800, -3600, 0, "-01", Ghost(g))
        .step(1964048400, -3600, 3600, "+00", Ghost(g))
        .step(1982797200, -3600, 0, "-01", Ghost(g))
        .step(1995498000, -3600, 3600, "+00", Ghost(g))
        .step(2014246800, -3600, 0, "-01", Ghost(g))
        .step(2026947600, -3600, 3600, "+00", Ghost(g))
        .step(2045696400, -3600, 0, "-01", Ghost(g))
        .step(2058397200, -3600, 3600, "+00", Ghost(g))
        .step(2077146000, -3600, 0, "-01", Ghost(g))
        .step(2090451600, -3600, 3600, "+00", Ghost(g))
        .step(2108595600, -3600, 0, "-01", Ghost(g))
        .step(2121901200, -3600, 3600, "+00", Ghost(g))
        .step(2140045200, -3600, 0, "-01", Ghost(g))
        .step(2147483647, -3600, 0, "-01", Ghost(g))
        .finish(Ghost(g))
}

/// The zone `Atlantic/Bermuda`.
pub fn bermuda() -> (r: Tz)
    ensures
        r.wf(),
        r.zone_name() == "Atlantic/Bermuda"@,
        r.table() == tables::atlantic::bermuda(),
{
    let ghost g = tables::atlantic::bermuda_rows();
    FixedTimespanSet::begin("Atlantic/Bermuda", -15558, 0, "LMT", Ghost(g))
        .step(-2524506042, -15558, 0, "BMT", Ghost(g))
        .step(-1664307642, -15558, 3600, "BST", Ghost(g))
        .step(-1648932042, -15558, 0, "BMT", Ghost(g))
        .step(-1632080442, -15558, 3600, "BST", Ghost(g))
        .step(-1618692042, -15558, 0, "BMT", Ghost(g))
        .step(-1262281242, -14400, 0, "AST", Ghost(g))
        .step(-882727200, -14400, 3600, "ADT", Ghost(g))
        .step(-858538800, -14400, 0, "AST", Ghost(g))
        .step(-845229600, -14400, 3600, "ADT", Ghost(g))
        .step(-825879600, -14400, 0, "AST", Ghost(g))
        .step(-814384800, -14400, 3600, "ADT", Ghost(g))
        .step(-793825200, -14400, 0, "AST", Ghost(g))
        .step(-782935200, -14400, 3600, "ADT", Ghost(g))
        .step(-762375600, -14400, 0, "AST", Ghost(g))
        .step(-713988000, -14400, 3600, "ADT", Ghost(g))
        .step(-703710000, -14400, 0, "AST", Ghost(g))
        .step(-681933600, -14400, 3600, "ADT", Ghost(g))
        .step(-672865200, -14400, 0, "AST", Ghost(g))
        .step(-650484000, -14400, 3600, "ADT", Ghost(g))
        .step(-641415600, -14400, 0, "AST", Ghost(g))
        .step(-618429600, -14400, 3600, "ADT", Ghost(g))
        .step(-609966000, -14400, 0, "AST", Ghost(g))
        .step(-586980000, -14400, 3600, "ADT", Ghost(g))
        .step(-578516400, -14400, 0, "AST", Ghost(g))
        .step(-555530400, -14400, 3600, "ADT", Ghost(g))
        .step(-546462000, -14400, 0, "AST", Ghost(g))
        .step(-429127200, -14400, 3600, "ADT", Ghost(g))
        .step(-415825200, -14400, 0, "AST", Ghost(g))
        .step(136360800, -14400, 3600, "ADT", Ghost(g))
        .step(152082000, -14400, 0, "AST", Ghost(g))
        .step(167810400, -14400, 3600, "ADT", Ghost(g))
        .step(183531600, -14400, 0, "AST", Ghost(g))
        .step(199260000, -14400, 3600, "ADT", Ghost(g))
        .step(215586000, -14400, 0, "AST", Ghost(g))
        .step(230709600, -14400, 3600, "ADT", Ghost(g))
        .step(247035600, -14400, 0, "AST", Ghost(g))
        .step(262764000, -14400, 3600, "ADT", Ghost(g))
        .step(278485200, -14400, 0, "AST", Ghost(g))
        .step(294213600, -14400, 3600, "ADT", Ghost(g))
        .step(309934800, -14400, 0, "AST", Ghost(g))
        .step(325663200, -14400, 3600, "ADT", Ghost(g))
        .step(341384400, -14400, 0, "AST", Ghost(g))
        .step(357112800, -14400, 3600, "ADT", Ghost(g))
        .step(372834000, -14400, 0, "AST", Ghost(g))
        .step(388562400, -14400, 3600, "ADT", Ghost(g))
        .step(404888400, -14400, 0, "AST", Ghost(g))
        .step(420012000, -14400, 3600, "ADT", Ghost(g))
        .step(436338000, -14400, 0, "AST", Ghost(g))
        .step(452066400, -14400, 3600, "ADT", Ghost(g))
        .step(467787600, -14400, 0, "AST", Ghost(g))
        .step(483516000, -14400, 3600, "ADT", Ghost(g))
        .step(499237200, -14400, 0, "AST", Ghost(g))
        .step(514965600, -14400, 3600, "ADT", Ghost(g))
        .step(530686800, -14400, 0, "AST", Ghost(g))
        .step(544600800, -14400, 3600, "ADT", Ghost(g))
        .step(562136400, -14400, 0, "AST", Ghost(g))
        .step(576050400, -14400, 3600, "ADT", Ghost(g))
        .step(594190800, -14400, 0, "AST", Ghost(g))
        .step(607500000, -14400, 3600, "ADT", Ghost(g))
        .step(625640400, -14400, 0, "AST", Ghost(g))
        .step(638949600, -14400, 3600, "ADT", Ghost(g))
        .step(657090000, -14400, 0, "AST", Ghost(g))
        .step(671004000, -14400, 3600, "ADT", Ghost(g))
        .step(688539600, -14400, 0, "AST", Ghost(g))
        .step(702453600, -14400, 3600, "ADT", Ghost(g))
        .step(719989200, -14400, 0, "AST", Ghost(g))
        .step(733903200, -14400, 3600, "ADT", Ghost(g))
        .step(752043600, -14400, 0, "AST", Ghost(g))
        .step(765352800, -14400, 3600, "ADT", Ghost(g))
        .step(783493200, -14400, 0, "AST", Ghost(g))
        .step(796802400, -14400, 3600, "ADT", Ghost(g))
        .step(814942800, -14400, 0, "AST", Ghost(g))
        .step(828856800, -14400, 3600, "ADT", Ghost(g))
        .step(846392400, -14400, 0, "AST", Ghost(g))
        .step(860306400, -14400, 3600, "ADT", Ghost(g))
        .step(877842000, -14400, 0, "AST", Ghost(g))
        .step(891756000, -14400, 3600, "ADT", Ghost(g))
        .step(909291600, -14400, 0, "AST", Ghost(g))
        .step(923205600, -14400, 3600, "ADT", Ghost(g))
        .step(941346000, -14400, 0, "AST", Ghost(g))
        .step(954655200, -14400, 3600, "ADT", Ghost(g))
        .step(972795600, -14400, 0, "AST", Ghost(g))
        .step(986104800, -14400, 3600, "ADT", Ghost(g))
        .step(1004245200, -14400, 0, "AST", Ghost(g))
        .step(1018159200, -14400, 3600, "ADT", Ghost(g))
        .step(1035694800, -14400, 0, "AST", Ghost(g))
        .step(1049608800, -14400, 3600, "ADT", Ghost(g))
        .step(1067144400, -14400, 0, "AST", Ghost(g))
        .step(1081058400, -14400, 3600, "ADT", Ghost(g))
        .step(1099198800, -14400, 0, "AST", Ghost(g))
        .step(1112508000, -14400, 3600, "ADT", Ghost(g))
        .step(1130648400, -14400, 0, "AST", Ghost(g))
        .step(1143957600, -14400, 3600, "ADT", Ghost(g))
        .step(1162098000, -14400, 0, "AST", Ghost(g))
        .step(1173592800, -14400, 3600, "ADT", Ghost(g))
        .step(1194152400, -14400, 0, "AST", Ghost(g))
        .step(1205042400, -14400, 3600, "ADT", Ghost(g))
        .step(1225602000, -14400, 0, "AST", Ghost(g))
        .step(1236492000, -14400, 3600, "ADT", Ghost(g))
        .step(1257051600, -14400, 0, "AST", Ghost(g))
        .step(1268546400, -14400, 3600, "ADT", Ghost(g))
        .step(1289106000, -14400, 0, "AST", Ghost(g))
        .step(1299996000, -14400, 3600, "ADT", Ghost(g))
        .step(1320555600, -14400, 0, "AST", Ghost(g))
        .step(1331445600, -14400, 3600, "ADT", Ghost(g))
        .step(1352005200, -14400, 0, "AST", Ghost(g))
        .step(1362895200, -14400, 3600, "ADT", Ghost(g))
        .step(1383454800, -14400, 0, "AST", Ghost(g))
        .step(1394344800, -14400, 3600, "ADT", Ghost(g))
        .step(1414904400, -14400, 0, "AST", Ghost(g))
        .step(1425794400, -14400, 3600, "ADT", Ghost(g))
        .step(1446354000, -14400, 0, "AST", Ghost(g))
        .step(1457848800, -14400, 3600, "ADT", Ghost(g))
        .step(1478408400, -14400, 0, "AST", Ghost(g))
        .step(1489298400, -14400, 3600, "ADT", Ghost(g))
        .step(1509858000, -14400, 0, "AST", Ghost(g))
        .step(1520748000, -14400, 3600, "ADT", Ghost(g))
        .step(1541307600, -14400, 0, "AST", Ghost(g))
        .step(1552197600, -14400, 3600, "ADT", Ghost(g))
        .step(1572757200, -14400, 0, "AST", Ghost(g))
        .step(1583647200, -14400, 3600, "ADT", Ghost(g))
        .step(1604206800, -14400, 0, "AST", Ghost(g))
        .step(1615701600, -14400, 3600, "ADT", Ghost(g))
        .step(1636261200, -14400, 0, "AST", Ghost(g))
        .step(1647151200, -14400, 3600, "ADT", Ghost(g))
        .step(1667710800, -14400, 0, "AST", Ghost(g))
        .step(1678600800, -14400, 3600, "ADT", Ghost(g))
        .step(1699160400, -14400, 0, "AST", Ghost(g))
        .step(1710050400, -14400, 3600, "ADT", Ghost(g))
        .step(1730610000, -14400, 0, "AST", Ghost(g))
        .step(1741500000, -14400, 3600, "ADT", Ghost(g))
        .step(1762059600, -14400, 0, "AST", Ghost(g))
        .step(1772949600, -14400, 3600, "ADT", Ghost(g))
        .step(1793509200, -14400, 0, "AST", Ghost(g))
        .step(1805004000, -14400, 3600, "ADT", Ghost(g))
        .step(1825563600, -14400, 0, "AST", Ghost(g))
        .step(1836453600, -14400, 3600, "ADT", Ghost(g))
        .step(1857013200, -14400, 0, "AST", Ghost(g))
        .step(1867903200, -14400, 3600, "ADT", Ghost(g))
        .step(1888462800, -14400, 0, "AST", Ghost(g))
        .step(1899352800, -14400, 3600, "ADT", Ghost(g))
        .step(1919912400, -14400, 0, "AST", Ghost(g))
        .step(1930802400, -14400, 3600, "ADT", Ghost(g))
        .step(1951362000, -14400, 0, "AST", Ghost(g))
        .step(1962856800, -14400, 3600, "ADT", Ghost(g))
        .step(1983416400, -14400, 0, "AST", Ghost(g))
        .step(1994306400, -14400, 3600, "ADT", Ghost(g))
        .step(2014866000, -14400, 0, "AST", Ghost(g))
        .step(2025756000, -14400, 3600, "ADT", Ghost(g))
        .step(2046315600, -14400, 0, "AST", Ghost(g))
        .step(2057205600, -14400, 3600, "ADT", Ghost(g))
        .step(2077765200, -14400, 0, "AST", Ghost(g))
        .step(2088655200, -14400, 3600, "ADT", Ghost(g))
        .step(2109214800, -14400, 0, "AST", Ghost(g))
        .step(2120104800, -14400, 3600, "ADT", Ghost(g))
        .step(2140664400, -14400, 0, "AST", Ghost(g))
        .finish(Ghost(g))
}

/// The zone `Atlantic/Canary`.
pub fn canary() -> (r: Tz)
    ensures
        r.wf(),
        r.zone_name() == "Atlantic/Canary"@,
        r.table() == tables::atlantic::canary(),
{
    let ghost g = tables::atlantic::canary_rows();
    FixedTimespanSet::begin("Atlantic/Canary", -3696, 0, "LMT", Ghost(g))
        .step(-1509663504, -3600, 0, "-01", Ghost(g))
        .step(-733874400, 0, 0, "WET", Ghost(g))
        .step(323827200, 0, 3600, "WEST", Ghost(g))
        .step(338950800, 0, 0, "WET", Ghost(g))
        .step(354675600, 0, 3600, "WEST", Ghost(g))
        .step(370400400, 0, 0, "WET", Ghost(g))
        .step(386125200, 0, 3600, "WEST", Ghost(g))
        .step(401850000, 0, 0, "WET", Ghost(g))
        .step(417574800, 0, 3600, "WEST", Ghost(g))
        .step(433299600, 0, 0, "WET", Ghost(g))
        .step(449024400, 0, 3600, "WEST", Ghost(g))
        .step(465354000, 0, 0, "WET", Ghost(g))
        .step(481078800, 0, 3600, "WEST", Ghost(g))
        .step(496803600, 0, 0, "WET", Ghost(g))
        .step(512528400, 0, 3600, "WEST", Ghost(g))
        .step(528253200, 0, 0, "WET", Ghost(g))
        .step(543978000, 0, 3600, "WEST", Ghost(g))
        .step(559702800, 0, 0, "WET", Ghost(g))
        .step(575427600, 0, 3600, "WEST", Ghost(g))
        .step(591152400, 0, 0, "WET", Ghost(g))
        .step(606877200, 0, 3600, "WEST", Ghost(g))
        .step(622602000, 0, 0, "WET", Ghost(g))
        .step(638326800, 0, 3600, "WEST", Ghost(g))
        .step(654656400, 0, 0, "WET", Ghost(g))
        .step(670381200, 0, 3600, "WEST", Ghost(g))
        .step(686106000, 0, 0, "WET", Ghost(g))
        .step(701830800, 0, 3600, "WEST", Ghost(g))
        .step(717555600, 0, 0, "WET", Ghost(g))
        .step(733280400, 0, 3600, "WEST", Ghost(g))
        .step(749005200, 0, 0, "WET", Ghost(g))
        .step(764730000, 0, 3600, "WEST", Ghost(g))
        .step(780454800, 0, 0, "WET", Ghost(g))
        .step(796179600, 0, 3600, "WEST", Ghost(g))
        .step(811904400, 0, 0, "WET", Ghost(g))
        .step(828234000, 0, 3600, "WEST", Ghost(g))
        .step(846378000, 0, 0, "WET", Ghost(g))
        .step(859683600, 0, 3600, "WEST", Ghost(g))
        .step(877827600, 0, 0, "WET", Ghost(g))
        .step(891133200, 0, 3600, "WEST", Ghost(g))
        .step(909277200, 0, 0, "WET", Ghost(g))
        .step(922582800, 0, 3600, "WEST", Ghost(g))
        .step(941331600, 0, 0, "WET", Ghost(g))
        .step(954032400, 0, 3600, "WEST", Ghost(g))
        .step(972781200, 0, 0, "WET", Ghost(g))
        .step(985482000, 0, 3600, "WEST", Ghost(g))
        .step(1004230800, 0, 0, "WET", Ghost(g))
        .step(1017536400, 0, 3600, "WEST", Ghost(g))
        .step(1035680400, 0, 0, "WET", Ghost(g))
        .step(1048986000, 0, 3600, "WEST", Ghost(g))
        .step(1067130000, 0, 0, "WET", Ghost(g))
        .step(1080435600, 0, 3600, "WEST", Ghost(g))
        .step(1099184400, 0, 0, "WET", Ghost(g))
        .step(1111885200, 0, 3600, "WEST", Ghost(g))
        .step(1130634000, 0, 0, "WET", Ghost(g))
        .step(1143334800, 0, 3600, "WEST", Ghost(g))
        .step(1162083600, 0, 0, "WET", Ghost(g))
        .step(1174784400, 0, 3600, "WEST", Ghost(g))
        .step(1193533200, 0, 0, "WET", Ghost(g))
        .step(1206838800, 0, 3600, "WEST", Ghost(g))
        .step(1224982800, 0, 0, "WET", Ghost(g))
        .step(1238288400, 0, 3600, "WEST", Ghost(g))
        .step(1256432400, 0, 0, "WET", Ghost(g))
        .step(1269738000, 0, 3600, "WEST", Ghost(g))
        .step(1288486800, 0, 0, "WET", Ghost(g))
        .step(1301187600, 0, 3600, "WEST", Ghost(g))
        .step(1319936400, 0, 0, "WET", Ghost(g))
        .step(1332637200, 0, 3600, "WEST", Ghost(g))
        .step(1351386000, 0, 0, "WET", Ghost(g))
        .step(1364691600, 0, 3600, "WEST", Ghost(g))
        .step(1382835600, 0, 0, "WET", Ghost(g))
        .step(1396141200, 0, 3600, "WEST", Ghost(g))
        .step(1414285200, 0, 0, "WET", Ghost(g))
        .step(1427590800, 0, 3600, "WEST", Ghost(g))
        .step(1445734800, 0, 0, "WET", Ghost(g))
        .step(1459040400, 0, 3600, "WEST", Ghost(g))
        .step(1477789200, 0, 0, "WET", Ghost(g))
        .step(1490490000, 0, 3600, "WEST", Ghost(g))
        .step(1509238800, 0, 0, "WET", Ghost(g))
        .step(1521939600, 0, 3600, "WEST", Ghost(g))
        .step(1540688400, 0, 0, "WET", Ghost(g))
        .step(1553994000, 0, 3600, "WEST", Ghost(g))
        .step(1572138000, 0, 0, "WET", Ghost(g))
        .step(1585443600, 0, 3600, "WEST", Ghost(g))
        .step(1603587600, 0, 0, "WET", Ghost(g))
        .step(1616893200, 0, 3600, "WEST", Ghost(g))
        .step(1635642000, 0, 0, "WET", Ghost(g))
        .step(1648342800, 0, 3600, "WEST", Ghost(g))
        .step(1667091600, 0, 0, "WET", Ghost(g))
        .step(1679792400, 0, 3600, "WEST", Ghost(g))
        .step(1698541200, 0, 0, "WET", Ghost(g))
        .step(1711846800, 0, 3600, "WEST", Ghost(g))
        .step(1729990800, 0, 0, "WET", Ghost(g))
        .step(1743296400, 0, 3600, "WEST", Ghost(g))
        .step(1761440400, 0, 0, "WET", Ghost(g))
        .step(1774746000, 0, 3600, "WEST", Ghost(g))
        .step(1792890000, 0, 0, "WET", Ghost(g))
        .step(1806195600, 0, 3600, "WEST", Ghost(g))
        .step(1824944400, 0, 0, "WET", Ghost(g))
        .step(1837645200, 0, 3600, "WEST", Ghost(g))
        .step(1856394000, 0, 0, "WET", Ghost(g))
        .step(1869094800, 0, 3600, "WEST", Ghost(g))
        .step(1887843600, 0, 0, "WET", Ghost(g))
        .step(1901149200, 0, 3600, "WEST", Ghost(g))
        .step(1919293200, 0, 0, "WET", Ghost(g))
        .step(1932598800, 0, 3600, "WEST", Ghost(g))
        .step(1950742800, 0, 0, "WET", Ghost(g))
        .step(1964048400, 0, 3600, "WEST", Ghost(g))
        .step(1982797200, 0, 0, "WET", Ghost(g))
        .step(1995498000, 0, 3600, "WEST", Ghost(g))
        .step(2014246800, 0, 0, "WET", Ghost(g))
        .step(2026947600, 0, 3600, "WEST", Ghost(g))
        .step(2045696400, 0, 0, "WET", Ghost(g))
        .step(2058397200, 0, 3600, "WEST", Ghost(g))
        .step(2077146000, 0, 0, "WET", Ghost(g))
        .step(2090451600, 0, 3600, "WEST", Ghost(g))
        .step(2108595600, 0, 0, "WET", Ghost(g))
        .step(2121901200, 0, 3600, "WEST", Ghost(g))
        .step(2140045200, 0, 0, "WET", Ghost(g))
        .finish(Ghost(g))
}

/// The zone `Atlantic/Cape_Verde`.
pub fn cape_verde() -> (r: Tz)
    ensures
        r.wf(),
        r.zone_name() == "Atlantic/Cape_Verde"@,
        r.table() == tables::atlantic::cape_verde(),
{
    let ghost g = tables::atlantic::cape_verde_rows();
    FixedTimespanSet::begin("Atlantic/Cape_Verde", -5644, 0, "LMT", Ghost(g))
        .step(-1830376800, -7200, 0, "-02", Ghost(g))
        .step(-862610400, -7200, 3600, "-01", Ghost(g))
        .step(-764118000, -7200, 0, "-02", Ghost(g))
        .step(186120000, -3600, 0, "-01", Ghost(g))
        .step(2147483647, -3600, 0, "-01", Ghost(g))
        .finish(Ghost(g))
}

/// The zone `Atlantic/Faeroe`.
pub fn faeroe() -> (r: Tz)
    ensures
        r.wf(),
        r.zone_name() == "Atlantic/Faeroe"@,
        r.table() == tables::atlantic::faeroe(),
{
    let ghost g = tables::atlantic::faeroe_rows();
    FixedTimespanSet::begin("Atlantic/Faeroe", -1624, 0, "LMT", Ghost(g))
        .step(-1955748776, 0, 0, "WET", Ghost(g))
        .step(354675600, 0, 3600, "WEST", Ghost(g))
        .step(370400400, 0, 0, "WET", Ghost(g))
        .step(386125200, 0, 3600, "WEST", Ghost(g))
        .step(401850000, 0, 0, "WET", Ghost(g))
        .step(417574800, 0, 3600, "WEST", Ghost(g))
        .step(433299600, 0, 0, "WET", Ghost(g))
        .step(449024400, 0, 3600, "WEST", Ghost(g))
        .step(465354000, 0, 0, "WET", Ghost(g))
        .step(481078800, 0, 3600, "WEST", Ghost(g))
        .step(496803600, 0, 0, "WET", Ghost(g))
        .step(512528400, 0, 3600, "WEST", Ghost(g))
        .step(528253200, 0, 0, "WET", Ghost(g))
        .step(543978000, 0, 3600, "WEST", Ghost(g))
        .step(559702800, 0, 0, "WET", Ghost(g))
        .step(575427600, 0, 3600, "WEST", Ghost(g))
        .step(591152400, 0, 0, "WET", Ghost(g))
        .step(606877200, 0, 3600, "WEST", Ghost(g))
        .step(622602000, 0, 0, "WET", Ghost(g))
        .step(638326800, 0, 3600, "WEST", Ghost(g))
        .step(654656400, 0, 0, "WET", Ghost(g))
        .step(670381200, 0, 3600, "WEST", Ghost(g))
        .step(686106000, 0, 0, "WET", Ghost(g))
        .step(701830800, 0, 3600, "WEST", Ghost(g))
        .step(717555600, 0, 0, "WET", Ghost(g))
        .step(733280400, 0, 3600, "WEST", Ghost(g))
        .step(749005200, 0, 0, "WET", Ghost(g))
        .step(764730000, 0, 3600, "WEST", Ghost(g))
        .step(780454800, 0, 0, "WET", Ghost(g))
        .step(796179600, 0, 3600, "WEST", Ghost(g))
        .step(811904400, 0, 0, "WET", Ghost(g))
        .step(828234000, 0, 3600, "WEST", Ghost(g))
        .step(846378000, 0, 0, "WET", Ghost(g))
        .step(859683600, 0, 3600, "WEST", Ghost(g))
        .step(877827600, 0, 0, "WET", Ghost(g))
        .step(891133200, 0, 3600, "WEST", Ghost(g))
        .step(909277200, 0, 0, "WET", Ghost(g))
        .step(922582800, 0, 3600, "WEST", Ghost(g))
        .step(941331600, 0, 0, "WET", Ghost(g))
        .step(954032400, 0, 3600, "WEST", Ghost(g))
        .step(972781200, 0, 0, "WET", Ghost(g))
        .step(985482000, 0, 3600, "WEST", Ghost(g))
        .step(1004230800, 0, 0, "WET", Ghost(g))
        .step(1017536400, 0, 3600, "WEST", Ghost(g))
        .step(1035680400, 0, 0, "WET", Ghost(g))
        .step(1048986000, 0, 3600, "WEST", Ghost(g))
        .step(1067130000, 0, 0, "WET", Ghost(g))
        .step(1080435600, 0, 3600, "WEST", Ghost(g))
        .step(1099184400, 0, 0, "WET", Ghost(g))
        .step(1111885200, 0, 3600, "WEST", Ghost(g))
        .step(1130634000, 0, 0, "WET", Ghost(g))
        .step(1143334800, 0, 3600, "WEST", Ghost(g))
        .step(1162083600, 0, 0, "WET", Ghost(g))
        .step(1174784400, 0, 3600, "WEST", Ghost(g))
        .step(1193533200, 0, 0, "WET", Ghost(g))
        .step(1206838800, 0, 3600, "WEST", Ghost(g))
        .step(1224982800, 0, 0, "WET", Ghost(g))
        .step(1238288400, 0, 3600, "WEST", Ghost(g))
        .step(1256432400, 0, 0, "WET", Ghost(g))
        .step(1269738000, 0, 3600, "WEST", Ghost(g))
        .step(1288486800, 0, 0, "WET", Ghost(g))
        .step(1301187600, 0, 3600, "WEST", Ghost(g))
        .step(1319936400, 0, 0, "WET", Ghost(g))
        .step(1332637200, 0, 3600, "WEST", Ghost(g))
        .step(1351386000, 0, 0, "WET", Ghost(g))
        .step(1364691600, 0, 3600, "WEST", Ghost(g))
        .step(1382835600, 0, 0, "WET", Ghost(g))
        .step(1396141200, 0, 3600, "WEST", Ghost(g))
        .step(1414285200, 0, 0, "WET", Ghost(g))
        .step(1427590800, 0, 3600, "WEST", Ghost(g))
        .step(1445734800, 0, 0, "WET", Ghost(g))
        .step(1459040400, 0, 3600, "WEST", Ghost(g))
        .step(1477789200, 0, 0, "WET", Ghost(g))
        .step(1490490000, 0, 3600, "WEST", Ghost(g))
        .step(1509238800, 0, 0, "WET", Ghost(g))
        .step(1521939600, 0, 3600, "WEST", Ghost(g))
        .step(1540688400, 0, 0, "WET", Ghost(g))
        .step(1553994000, 0, 3600, "WEST", Ghost(g))
        .step(1572138000, 0, 0, "WET", Ghost(g))
        .step(1585443600, 0, 3600, "WEST", Ghost(g))
        .step(1603587600, 0, 0, "WET", Ghost(g))
        .step(1616893200, 0, 3600, "WEST", Ghost(g))
        .step(1635642000, 0, 0, "WET", Ghost(g))
        .step(1648342800, 0, 3600, "WEST", Ghost(g))
        .step(1667091600, 0, 0, "WET", Ghost(g))
        .step(1679792400, 0, 3600, "WEST", Ghost(g))
        .step(1698541200, 0, 0, "WET", Ghost(g))
        .step(1711846800, 0, 3600, "WEST", Ghost(g))
        .step(1729990800, 0, 0, "WET", Ghost(g))
        .step(1743296400, 0, 3600, "WEST", Ghost(g))
        .step(1761440400, 0, 0, "WET", Ghost(g))
        .step(1774746000, 0, 3600, "WEST", Ghost(g))
        .step(1792890000, 0, 0, "WET", Ghost(g))
        .step(1806195600, 0, 3600, "WEST", Ghost(g))
        .step(1824944400, 0, 0, "WET", Ghost(g))
        .step(1837645200, 0, 3600, "WEST", Ghost(g))
        .step(1856394000, 0, 0, "WET", Ghost(g))
        .step(1869094800, 0, 3600, "WEST", Ghost(g))
        .step(1887843600, 0, 0, "WET", Ghost(g))
        .step(1901149200, 0, 3600, "WEST", Ghost(g))
        .step(1919293200, 0, 0, "WET", Ghost(g))
        .step(1932598800, 0, 3600, "WEST", Ghost(g))
        .step(1950742800, 0, 0, "WET", Ghost(g))
        .step(1964048400, 0, 3600, "WEST", Ghost(g))
        .step(1982797200, 0, 0, "WET", Ghost(g))
        .step(1995498000, 0, 3600, "WEST", Ghost(g))
        .step(2014246800, 0, 0, "WET", Ghost(g))
        .step(2026947600, 0, 3600, "WEST", Ghost(g))
        .step(2045696400, 0, 0, "WET", Ghost(g))
        .step(2058397200, 0, 3600, "WEST", Ghost(g))
        .step(2077146000, 0, 0, "WET", Ghost(g))
        .step(2090451600, 0, 3600, "WEST", Ghost(g))
        .step(2108595600, 0, 0, "WET", Ghost(g))
        .step(2121901200, 0, 3600, "WEST", Ghost(g))
        .step(2140045200, 0, 0, "WET", Ghost(g))
        .finish(Ghost(g))
}

/// The zone `Atlantic/Faroe`.
pub fn faroe() -> (r: Tz)
    ensures
        r.wf(),
        r.zone_name() == "Atlantic/Faroe"@,
        r.table() == tables::atlantic::faroe(),
{
    let ghost g = tables::atlantic::faroe_rows();
    FixedTimespanSet::begin("Atlantic/Faroe", -1624, 0, "LMT", Ghost(g))
        .step(-1955748776, 0, 0, "WET", Ghost(g))
        .step(354675600, 0, 3600, "WEST", Ghost(g))
        .step(370400400, 0, 0, "WET", Ghost(g))
        .step(386125200, 0, 3600, "WEST", Ghost(g))
        .step(401850000, 0, 0, "WET", Ghost(g))
        .step(417574800, 0, 3600, "WEST", Ghost(g))
        .step(433299600, 0, 0, "WET", Ghost(g))
        .step(449024400, 0, 3600, "WEST", Ghost(g))
        .step(465354000, 0, 0, "WET", Ghost(g))
        .step(481078800, 0, 3600, "WEST", Ghost(g))
        .step(496803600, 0, 0, "WET", Ghost(g))
        .step(512528400, 0, 3600, "WEST", Ghost(g))
        .step(528253200, 0, 0, "WET", Ghost(g))
        .step(543978000, 0, 3600, "WEST", Ghost(g))
        .step(559702800, 0, 0, "WET", Ghost(g))
        .step(575427600, 0, 3600, "WEST", Ghost(g))
        .step(591152400, 0, 0, "WET", Ghost(g))
        .step(606877200, 0, 3600, "WEST", Ghost(g))
        .step(622602000, 0, 0, "WET", Ghost(g))
        .step(638326800, 0, 3600, "WEST", Ghost(g))
        .step(654656400, 0, 0, "WET", Ghost(g))
        .step(670381200, 0, 3600, "WEST", Ghost(g))
        .step(686106000, 0, 0, "WET", Ghost(g))
        .step(701830800, 0, 3600, "WEST", Ghost(g))
        .step(717555600, 0, 0, "WET", Ghost(g))
        .step(733280400, 0, 3600, "WEST", Ghost(g))
        .step(749005200, 0, 0, "WET", Ghost(g))
        .step(764730000, 0, 3600, "WEST", Ghost(g))
        .step(780454800, 0, 0, "WET", Ghost(g))
        .step(796179600, 0, 3600, "WEST", Ghost(g))
        .step(811904400, 0, 0, "WET", Ghost(g))
        .step(828234000, 0, 3600, "WEST", Ghost(g))
        .step(846378000, 0, 0, "WET", Ghost(g))
        .step(859683600, 0, 3600, "WEST", Ghost(g))
        .step(877827600, 0, 0, "WET", Ghost(g))
        .step(891133200, 0, 3600, "WEST", Ghost(g))
        .step(909277200, 0, 0, "WET", Ghost(g))
        .step(922582800, 0, 3600, "WEST", Ghost(g))
        .step(941331600, 0, 0, "WET", Ghost(g))
        .step(954032400, 0, 3600, "WEST", Ghost(g))
        .step(972781200, 0, 0, "WET", Ghost(g))
        .step(985482000, 0, 3600, "WEST", Ghost(g))
        .step(1004230800, 0, 0, "WET", Ghost(g))
        .step(1017536400, 0, 3600, "WEST", Ghost(g))
        .step(1035680400, 0, 0, "WET", Ghost(g))
        .step(1048986000, 0, 3600, "WEST", Ghost(g))
        .step(1067130000, 0, 0, "WET", Ghost(g))
        .step(1080435600, 0, 3600, "WEST", Ghost(g))
        .step(1099184400, 0, 0, "WET", Ghost(g))
        .step(1111885200, 0, 3600, "WEST", Ghost(g))
        .step(1130634000, 0, 0, "WET", Ghost(g))
        .step(1143334800, 0, 3600, "WEST", Ghost(g))
        .step(1162083600, 0, 0, "WET", Ghost(g))
        .step(1174784400, 0, 3600, "WEST", Ghost(g))
        .step(1193533200, 0, 0, "WET", Ghost(g))
        .step(1206838800, 0, 3600, "WEST", Ghost(g))
        .step(1224982800, 0, 0, "WET", Ghost(g))
        .step(1238288400, 0, 3600, "WEST", Ghost(g))
        .step(1256432400, 0, 0, "WET", Ghost(g))
        .step(1269738000, 0, 3600, "WEST", Ghost(g))
        .step(1288486800, 0, 0, "WET", Ghost(g))
        .step(1301187600, 0, 3600, "WEST", Ghost(g))
        .step(1319936400, 0, 0, "WET", Ghost(g))
        .step(1332637200, 0, 3600, "WEST", Ghost(g))
        .step(1351386000, 0, 0, "WET", Ghost(g))
        .step(1364691600, 0, 3600, "WEST", Ghost(g))
        .step(1382835600, 0, 0, "WET", Ghost(g))
        .step(1396141200, 0, 3600, "WEST", Ghost(g))
        .step(1414285200, 0, 0, "WET", Ghost(g))
        .step(1427590800, 0, 3600, "WEST", Ghost(g))
        .step(1445734800, 0, 0, "WET", Ghost(g))
        .step(1459040400, 0, 3600, "WEST", Ghost(g))
        .step(1477789200, 0, 0, "WET", Ghost(g))
        .step(1490490000, 0, 3600, "WEST", Ghost(g))
        .step(1509238800, 0, 0, "WET", Ghost(g))
        .step(1521939600, 0, 3600, "WEST", Ghost(g))
        .step(1540688400, 0, 0, "WET", Ghost(g))
        .step(1553994000, 0, 3600, "WEST", Ghost(g))
        .step(1572138000, 0, 0, "WET", Ghost(g))
        .step(1585443600, 0, 3600, "WEST", Ghost(g))
        .step(1603587600, 0, 0, "WET", Ghost(g))
        .step(1616893200, 0, 3600, "WEST", Ghost(g))
        .step(1635642000, 0, 0, "WET", Ghost(g))
        .step(1648342800, 0, 3600, "WEST", Ghost(g))
        .step(1667091600, 0, 0, "WET", Ghost(g))
        .step(1679792400, 0, 3600, "WEST", Ghost(g))
        .step(1698541200, 0, 0, "WET", Ghost(g))
        .step(1711846800, 0, 3600, "WEST", Ghost(g))
        .step(1729990800, 0, 0, "WET", Ghost(g))
        .step(1743296400, 0, 3600, "WEST", Ghost(g))
        .step(1761440400, 0, 0, "WET", Ghost(g))
        .step(1774746000, 0, 3600, "WEST", Ghost(g))
        .step(1792890000, 0, 0, "WET", Ghost(g))
        .step(1806195600, 0, 3600, "WEST", Ghost(g))
        .step(1824944400, 0, 0, "WET", Ghost(g))
        .step(1837645200, 0, 3600, "WEST", Ghost(g))
        .step(1856394000, 0, 0, "WET", Ghost(g))
        .step(1869094800, 0, 3600, "WEST", Ghost(g))
        .step(1887843600, 0, 0, "WET", Ghost(g))
        .step(1901149200, 0, 3600, "WEST", Ghost(g))
        .step(1919293200, 0, 0, "WET", Ghost(g))
        .step(1932598800, 0, 3600, "WEST", Ghost(g))
        .step(1950742800, 0, 0, "WET", Ghost(g))
        .step(1964048400, 0, 3600, "WEST", Ghost(g))
        .step(1982797200, 0, 0, "WET", Ghost(g))
        .step(1995498000, 0, 3600, "WEST", Ghost(g))
        .step(2014246800, 0, 0, "WET", Ghost(g))
        .step(2026947600, 0, 3600, "WEST", Ghost(g))
        .step(2045696400, 0, 0, "WET", Ghost(g))
        .step(2058397200, 0, 3600, "WEST", Ghost(g))
        .step(2077146000, 0, 0, "WET", Ghost(g))
        .step(2090451600, 0, 3600, "WEST", Ghost(g))
        .step(2108595600, 0, 0, "WET", Ghost(g))
        .step(2121901200, 0, 3600, "WEST", Ghost(g))
        .step(2140045200, 0, 0, "WET", Ghost(g))
        .finish(Ghost(g))
}

/// The zone `Atlantic/Jan_Mayen`.
pub fn jan_mayen() -> (r: Tz)
    ensures
        r.wf(),
        r.zone_name() == "Atlantic/Jan_Mayen"@,
        r.table() == tables::atlantic::jan_mayen(),
{
    let ghost g = tables::atlantic::jan_mayen_rows();
    FixedTimespanSet::begin("Atlantic/Jan_Mayen", 3208, 0, "LMT", Ghost(g))
        .step(-2422054408, 3600, 0, "CET", Ghost(g))
        .step(-1693706400, 3600, 3600, "CEST", Ghost(g))
        .step(-1680483600, 3600, 0, "CET", Ghost(g))
        .step(-1663455600, 3600, 3600, "CEST", Ghost(g))
        .step(-1650150000, 3600, 0, "CET", Ghost(g))
        .step(-1632006000, 3600, 3600, "CEST", Ghost(g))
        .step(-1618700400, 3600, 0, "CET", Ghost(g))
        .step(-938905200, 3600, 3600, "CEST", Ghost(g))
        .step(-857257200, 3600, 0, "CET", Ghost(g))
        .step(-844556400, 3600, 3600, "CEST", Ghost(g))
        .step(-828226800, 3600, 0, "CET", Ghost(g))
        .step(-812502000, 3600, 3600, "CEST", Ghost(g))
        .step(-796777200, 3600, 0, "CET", Ghost(g))
        .step(-781052400, 3600, 3600, "CEST", Ghost(g))
        .step(-776563200, 3600, 7200, "CEMT", Ghost(g))
        .step(-765936000, 3600, 3600, "CEST", Ghost(g))
        .step(-761180400, 3600, 0, "CET", Ghost(g))
        .step(-748479600, 3600, 3600, "CEST", Ghost(g))
        .step(-733273200, 3600, 0, "CET", Ghost(g))
        .step(-717631200, 3600, 3600, "CEST", Ghost(g))
        .step(-714610800, 3600, 7200, "CEMT", Ghost(g))
        .step(-710380800, 3600, 3600, "CEST", Ghost(g))
        .step(-701910000, 3600, 0, "CET", Ghost(g))
        .step(-684975600, 3600, 3600, "CEST", Ghost(g))
        .step(-670460400, 3600, 0, "CET", Ghost(g))
        .step(-654130800, 3600, 3600, "CEST", Ghost(g))
        .step(-639010800, 3600, 0, "CET", Ghost(g))
        .step(323830800, 3600, 3600, "CEST", Ghost(g))
        .step(338950800, 3600, 0, "CET", Ghost(g))
        .step(354675600, 3600, 3600, "CEST", Ghost(g))
        .step(370400400, 3600, 0, "CET", Ghost(g))
        .step(386125200, 3600, 3600, "CEST", Ghost(g))
        .step(401850000, 3600, 0, "CET", Ghost(g))
        .step(417574800, 3600, 3600, "CEST", Ghost(g))
        .step(433299600, 3600, 0, "CET", Ghost(g))
        .step(449024400, 3600, 3600, "CEST", Ghost(g))
        .step(465354000, 3600, 0, "CET", Ghost(g))
        .step(481078800, 3600, 3600, "CEST", Ghost(g))
        .step(496803600, 3600, 0, "CET", Ghost(g))
        .step(512528400, 3600, 3600, "CEST", Ghost(g))
        .step(528253200, 3600, 0, "CET", Ghost(g))
        .step(543978000, 3600, 3600, "CEST", Ghost(g))
        .step(559702800, 3600, 0, "CET", Ghost(g))
        .step(575427600, 3600, 3600, "CEST", Ghost(g))
        .step(591152400, 3600, 0, "CET", Ghost(g))
        .step(606877200, 3600, 3600, "CEST", Ghost(g))
        .step(622602000, 3600, 0, "CET", Ghost(g))
        .step(638326800, 3600, 3600, "CEST", Ghost(g))
        .step(654656400, 3600, 0, "CET", Ghost(g))
        .step(670381200, 3600, 3600, "CEST", Ghost(g))
        .step(686106000, 3600, 0, "CET", Ghost(g))
        .step(701830800, 3600, 3600, "CEST", Ghost(g))
        .step(717555600, 3600, 0, "CET", Ghost(g))
        .step(733280400, 3600, 3600, "CEST", Ghost(g))
        .step(749005200, 3600, 0, "CET", Ghost(g))
        .step(764730000, 3600, 3600, "CEST", Ghost(g))
        .step(780454800, 3600, 0, "CET", Ghost(g))
        .step(796179600, 3600, 3600, "CEST", Ghost(g))
        .step(811904400, 3600, 0, "CET", Ghost(g))
        .step(828234000, 3600, 3600, "CEST", Ghost(g))
        .step(846378000, 3600, 0, "CET", Ghost(g))
        .step(859683600, 3600, 3600, "CEST", Ghost(g))
        .step(877827600, 3600, 0, "CET", Ghost(g))
        .step(891133200, 3600, 3600, "CEST", Ghost(g))
        .step(909277200, 3600, 0, "CET", Ghost(g))
        .step(922582800, 3600, 3600, "CEST", Ghost(g))
        .step(941331600, 3600, 0, "CET", Ghost(g))
        .step(954032400, 3600, 3600, "CEST", Ghost(g))
        .step(972781200, 3600, 0, "CET", Ghost(g))
        .step(985482000, 3600, 3600, "CEST", Ghost(g))
        .step(1004230800, 3600, 0, "CET", Ghost(g))
        .step(1017536400, 3600, 3600, "CEST", Ghost(g))
        .step(1035680400, 3600, 0, "CET", Ghost(g))
        .step(1048986000, 3600, 3600, "CEST", Ghost(g))
        .step(1067130000, 3600, 0, "CET", Ghost(g))
        .step(1080435600, 3600, 3600, "CEST", Ghost(g))
        .step(1099184400, 3600, 0, "CET", Ghost(g))
        .step(1111885200, 3600, 3600, "CEST", Ghost(g))
        .step(1130634000, 3600, 0, "CET", Ghost(g))
        .step(1143334800, 3600, 3600, "CEST", Ghost(g))
        .step(1162083600, 3600, 0, "CET", Ghost(g))
        .step(1174784400, 3600, 3600, "CEST", Ghost(g))
        .step(1193533200, 3600, 0, "CET", Ghost(g))
        .step(1206838800, 3600, 3600, "CEST", Ghost(g))
        .step(1224982800, 3600, 0, "CET", Ghost(g))
        .step(1238288400, 3600, 3600, "CEST", Ghost(g))
        .step(1256432400, 3600, 0, "CET", Ghost(g))
        .step(1269738000, 3600, 3600, "CEST", Ghost(g))
        .step(1288486800, 3600, 0, "CET", Ghost(g))
        .step(1301187600, 3600, 3600, "CEST", Ghost(g))
        .step(1319936400, 3600, 0, "CET", Ghost(g))
        .step(1332637200, 3600, 3600, "CEST", Ghost(g))
        .step(1351386000, 3600, 0, "CET", Ghost(g))
        .step(1364691600, 3600, 3600, "CEST", Ghost(g))
        .step(1382835600, 3600, 0, "CET", Ghost(g))
        .step(1396141200, 3600, 3600, "CEST", Ghost(g))
        .step(1414285200, 3600, 0, "CET", Ghost(g))
        .step(1427590800, 3600, 3600, "CEST", Ghost(g))
        .step(1445734800, 3600, 0, "CET", Ghost(g))
        .step(1459040400, 3600, 3600, "CEST", Ghost(g))
        .step(1477789200, 3600, 0, "CET", Ghost(g))
        .step(1490490000, 3600, 3600, "CEST", Ghost(g))
        .step(1509238800, 3600, 0, "CET", Ghost(g))
        .step(1521939600, 3600, 3600, "CEST", Ghost(g))
        .step(1540688400, 3600, 0, "CET", Ghost(g))
        .step(1553994000, 3600, 3600, "CEST", Ghost(g))
        .step(1572138000, 3600, 0, "CET", Ghost(g))
        .step(1585443600, 3600, 3600, "CEST", Ghost(g))
        .step(1603587600, 3600, 0, "CET", Ghost(g))
        .step(1616893200, 3600, 3600, "CEST", Ghost(g))
        .step(1635642000, 3600, 0, "CET", Ghost(g))
        .step(1648342800, 3600, 3600, "CEST", Ghost(g))
        .step(1667091600, 3600, 0, "CET", Ghost(g))
        .step(1679792400, 3600, 3600, "CEST", Ghost(g))
        .step(1698541200, 3600, 0, "CET", Ghost(g))
        .step(1711846800, 3600, 3600, "CEST", Ghost(g))
        .step(1729990800, 3600, 0, "CET", Ghost(g))
        .step(1743296400, 3600, 3600, "CEST", Ghost(g))
        .step(1761440400, 3600, 0, "CET", Ghost(g))
        .step(1774746000, 3600, 3600, "CEST", Ghost(g))
        .step(1792890000, 3600, 0, "CET", Ghost(g))
        .step(1806195600, 3600, 3600, "CEST", Ghost(g))
        .step(1824944400, 3600, 0, "CET", Ghost(g))
        .step(1837645200, 3600, 3600, "CEST", Ghost(g))
        .step(1856394000, 3600, 0, "CET", Ghost(g))
        .step(1869094800, 3600, 3600, "CEST", Ghost(g))
        .step(1887843600, 3600, 0, "CET", Ghost(g))
        .step(1901149200, 3600, 3600, "CEST", Ghost(g))
        .step(1919293200, 3600, 0, "CET", Ghost(g))
        .step(1932598800, 3600, 3600, "CEST", Ghost(g))
        .step(1950742800, 3600, 0, "CET", Ghost(g))
        .step(1964048400, 3600, 3600, "CEST", Ghost(g))
        .step(1982797200, 3600, 0, "CET", Ghost(g))
        .step(1995498000, 3600, 3600, "CEST", Ghost(g))
        .step(2014246800, 3600, 0, "CET", Ghost(g))
        .step(2026947600, 3600, 3600, "CEST", Ghost(g))
        .step(2045696400, 3600, 0, "CET", Ghost(g))
        .step(2058397200, 3600, 3600, "CEST", Ghost(g))
        .step(2077146000, 3600, 0, "CET", Ghost(g))
        .step(2090451600, 3600, 3600, "CEST", Ghost(g))
        .step(2108595600, 3600, 0, "CET", Ghost(g))
        .step(2121901200, 3600, 3600, "CEST", Ghost(g))
        .step(2140045200, 3600, 0, "CET", Ghost(g))
        .finish(Ghost(g))
}

/// The zone `Atlantic/Madeira`.
pub fn madeira() -> (r: Tz)
    ensures
        r.wf(),
        r.zone_name() == "Atlantic/Madeira"@,
        r.table() == tables::atlantic::madeira(),
{
    let ghost g = tables::atlantic::madeira_rows();
    FixedTimespanSet::begin("Atlantic/Madeira", -4056, 0, "LMT", Ghost(g))
        .step(-2713906344, -4056, 0, "FMT", Ghost(g))
        .step(-1830380400, -3600, 0, "-01", Ghost(g))
        .step(-1689552000, -3600, 3600, "+00", Ghost(g))
        .step(-1677798000, -3600, 0, "-01", Ghost(g))
        .step(-1667430000, -3600, 3600, "+00", Ghost(g))
        .step(-1647734400, -3600, 0, "-01", Ghost(g))
        .step(-1635894000, -3600, 3600, "+00", Ghost(g))
        .step(-1616198400, -3600, 0, "-01", Ghost(g))
        .step(-1604358000, -3600, 3600, "+00", Ghost(g))
        .step(-1584662400, -3600, 0, "-01", Ghost(g))
        .step(-1572735600, -3600, 3600, "+00", Ghost(g))
        .step(-1553040000, -3600, 0, "-01", Ghost(g))
        .step(-1541199600, -3600, 3600, "+00", Ghost(g))
        .step(-1521504000, -3600, 0, "-01", Ghost(g))
        .step(-1442448000, -3600, 3600, "+00", Ghost(g))
        .step(-1427673600, -3600, 0, "-01", Ghost(g))
        .step(-1379289600, -3600, 3600, "+00", Ghost(g))
        .step(-1364774400, -3600, 0, "-01", Ghost(g))
        .step(-1348444800, -3600, 3600, "+00", Ghost(g))
        .step(-1333324800, -3600, 0, "-01", Ghost(g))
        .step(-1316390400, -3600, 3600, "+00", Ghost(g))
        .step(-1301270400, -3600, 0, "-01", Ghost(g))
        .step(-1284336000, -3600, 3600, "+00", Ghost(g))
        .step(-1269820800, -3600, 0, "-01", Ghost(g))
        .step(-1221436800, -3600, 3600, "+00", Ghost(g))
        .step(-1206921600, -3600, 0, "-01", Ghost(g))
        .step(-1191196800, -3600, 3600, "+00", Ghost(g))
        .step(-1175472000, -3600, 0, "-01", Ghost(g))
        .step(-1127692800, -3600, 3600, "+00", Ghost(g))
        .step(-1111968000, -3600, 0, "-01", Ghost(g))
        .step(-1096848000, -3600, 3600, "+00", Ghost(g))
        .step(-1080518400, -3600, 0, "-01", Ghost(g))
        .step(-1063584000, -3600, 3600, "+00", Ghost(g))
        .step(-1049068800, -3600, 0, "-01", Ghost(g))
        .step(-1033344000, -3600, 3600, "+00", Ghost(g))
        .step(-1017619200, -3600, 0, "-01", Ghost(g))
        .step(-1002499200, -3600, 3600, "+00", Ghost(g))
        .step(-986169600, -3600, 0, "-01", Ghost(g))
        .step(-969235200, -3600, 3600, "+00", Ghost(g))
        .step(-950486400, -3600, 0, "-01", Ghost(g))
        .step(-942019200, -3600, 3600, "+00", Ghost(g))
        .step(-922492800, -3600, 0, "-01", Ghost(g))
        .step(-906940800, -3600, 3600, "+00", Ghost(g))
        .step(-891129600, -3600, 0, "-01", Ghost(g))
        .step(-877305600, -3600, 3600, "+00", Ghost(g))
        .step(-873680400, -3600, 7200, "+01", Ghost(g))
        .step(-864003600, -3600, 3600, "+00", Ghost(g))
        .step(-857952000, -3600, 0, "-01", Ghost(g))
        .step(-845856000, -3600, 3600, "+00", Ghost(g))
        .step(-842835600, -3600, 7200, "+01", Ghost(g))
        .step(-831344400, -3600, 3600, "+00", Ghost(g))
        .step(-825897600, -3600, 0, "-01", Ghost(g))
        .step(-814406400, -3600, 3600, "+00", Ghost(g))
        .step(-810781200, -3600, 7200, "+01", Ghost(g))
        .step(-799894800, -3600, 3600, "+00", Ghost(g))
        .step(-794448000, -3600, 0, "-01", Ghost(g))
        .step(-782956800, -3600, 3600, "+00", Ghost(g))
        .step(-779331600, -3600, 7200, "+01", Ghost(g))
        .step(-768445200, -3600, 3600, "+00", Ghost(g))
        .step(-762998400, -3600, 0, "-01", Ghost(g))
        .step(-749088000, -3600, 3600, "+00", Ghost(g))
        .step(-733363200, -3600, 0, "-01", Ghost(g))
        .step(-717627600, -3600, 3600, "+00", Ghost(g))
        .step(-701902800, -3600, 0, "-01", Ghost(g))
        .step(-686178000, -3600, 3600, "+00", Ghost(g))
        .step(-670453200, -3600, 0, "-01", Ghost(g))
        .step(-654728400, -3600, 3600, "+00", Ghost(g))
        .step(-639003600, -3600, 0, "-01", Ghost(g))
        .step(-623278800, -3600, 3600, "+00", Ghost(g))
        .step(-607554000, -3600, 0, "-01", Ghost(g))
        .step(-591829200, -3600, 3600, "+00", Ghost(g))
        .step(-575499600, -3600, 0, "-01", Ghost(g))
        .step(-559774800, -3600, 3600, "+00", Ghost(g))
        .step(-544050000, -3600, 0, "-01", Ghost(g))
        .step(-528325200, -3600, 3600, "+00", Ghost(g))
        .step(-512600400, -3600, 0, "-01", Ghost(g))
        .step(-496875600, -3600, 3600, "+00", Ghost(g))
        .step(-481150800, -3600, 0, "-01", Ghost(g))
        .step(-465426000, -3600, 3600, "+00", Ghost(g))
        .step(-449701200, -3600, 0, "-01", Ghost(g))
        .step(-433976400, -3600, 3600, "+00", Ghost(g))
        .step(-417646800, -3600, 0, "-01", Ghost(g))
        .step(-401922000, -3600, 3600, "+00", Ghost(g))
        .step(-386197200, -3600, 0, "-01", Ghost(g))
        .step(-370472400, -3600, 3600, "+00", Ghost(g))
        .step(-354747600, -3600, 0, "-01", Ghost(g))
        .step(-339022800, -3600, 3600, "+00", Ghost(g))
        .step(-323298000, -3600, 0, "-01", Ghost(g))
        .step(-307573200, -3600, 3600, "+00", Ghost(g))
        .step(-291848400, -3600, 0, "-01", Ghost(g))
        .step(-276123600, -3600, 3600, "+00", Ghost(g))
        .step(-260398800, -3600, 0, "-01", Ghost(g))
        .step(-244674000, -3600, 3600, "+00", Ghost(g))
        .step(-228344400, -3600, 0, "-01", Ghost(g))
        .step(-212619600, -3600, 3600, "+00", Ghost(g))
        .step(-196894800, -3600, 0, "-01", Ghost(g))
        .step(-181170000, -3600, 3600, "+00", Ghost(g))
        .step(-165445200, -3600, 0, "-01", Ghost(g))
        .step(-149720400, -3600, 3600, "+00", Ghost(g))
        .step(-133995600, -3600, 0, "-01", Ghost(g))
        .step(-118270800, -3600, 3600, "+00", Ghost(g))
        .step(-102546000, 0, 0, "WET", Ghost(g))
        .step(386726400, 0, 3600, "WEST", Ghost(g))
        .step(401846400, 0, 0, "WET", Ghost(g))
        .step(417571200, 0, 3600, "WEST", Ghost(g))
        .step(433296000, 0, 0, "WET", Ghost(g))
        .step(449020800, 0, 3600, "WEST", Ghost(g))
        .step(465350400, 0, 0, "WET", Ghost(g))
        .step(481075200, 0, 3600, "WEST", Ghost(g))
        .step(496800000, 0, 0, "WET", Ghost(g))
        .step(512524800, 0, 3600, "WEST", Ghost(g))
        .step(528253200, 0, 0, "WET", Ghost(g))
        .step(543978000, 0, 3600, "WEST", Ghost(g))
        .step(559702800, 0, 0, "WET", Ghost(g))
        .step(575427600, 0, 3600, "WEST", Ghost(g))
        .step(591152400, 0, 0, "WET", Ghost(g))
        .step(606877200, 0, 3600, "WEST", Ghost(g))
        .step(622602000, 0, 0, "WET", Ghost(g))
        .step(638326800, 0, 3600, "WEST", Ghost(g))
        .step(654656400, 0, 0, "WET", Ghost(g))
        .step(670381200, 0, 3600, "WEST", Ghost(g))
        .step(686106000, 0, 0, "WET", Ghost(g))
        .step(701830800, 0, 3600, "WEST", Ghost(g))
        .step(717555600, 0, 0, "WET", Ghost(g))
        .step(733280400, 0, 3600, "WEST", Ghost(g))
        .step(749005200, 0, 0, "WET", Ghost(g))
        .step(764730000, 0, 3600, "WEST", Ghost(g))
        .step(780454800, 0, 0, "WET", Ghost(g))
        .step(796179600, 0, 3600, "WEST", Ghost(g))
        .step(811904400, 0, 0, "WET", Ghost(g))
        .step(828234000, 0, 3600, "WEST", Ghost(g))
        .step(846378000, 0, 0, "WET", Ghost(g))
        .step(859683600, 0, 3600, "WEST", Ghost(g))
        .step(877827600, 0, 0, "WET", Ghost(g))
        .step(891133200, 0, 3600, "WEST", Ghost(g))
        .step(909277200, 0, 0, "WET", Ghost(g))
        .step(922582800, 0, 3600, "WEST", Ghost(g))
        .step(941331600, 0, 0, "WET", Ghost(g))
        .step(954032400, 0, 3600, "WEST", Ghost(g))
        .step(972781200, 0, 0, "WET", Ghost(g))
        .step(985482000, 0, 3600, "WEST", Ghost(g))
        .step(1004230800, 0, 0, "WET", Ghost(g))
        .step(1017536400, 0, 3600, "WEST", Ghost(g))
        .step(1035680400, 0, 0, "WET", Ghost(g))
        .step(1048986000, 0, 3600, "WEST", Ghost(g))
        .step(1067130000, 0, 0, "WET", Ghost(g))
        .step(1080435600, 0, 3600, "WEST", Ghost(g))
        .step(1099184400, 0, 0, "WET", Ghost(g))
        .step(1111885200, 0, 3600, "WEST", Ghost(g))
        .step(1130634000, 0, 0, "WET", Ghost(g))
        .step(1143334800, 0, 3600, "WEST", Ghost(g))
        .step(1162083600, 0, 0, "WET", Ghost(g))
        .step(1174784400, 0, 3600, "WEST", Ghost(g))
        .step(1193533200, 0, 0, "WET", Ghost(g))
        .step(1206838800, 0, 3600, "WEST", Ghost(g))
        .step(1224982800, 0, 0, "WET", Ghost(g))
        .step(1238288400, 0, 3600, "WEST", Ghost(g))
        .step(1256432400, 0, 0, "WET", Ghost(g))
        .step(1269738000, 0, 3600, "WEST", Ghost(g))
        .step(1288486800, 0, 0, "WET", Ghost(g))
        .step(1301187600, 0, 3600, "WEST", Ghost(g))
        .step(1319936400, 0, 0, "WET", Ghost(g))
        .step(1332637200, 0, 3600, "WEST", Ghost(g))
        .step(1351386000, 0, 0, "WET", Ghost(g))
        .step(1364691600, 0, 3600, "WEST", Ghost(g))
        .step(1382835600, 0, 0, "WET", Ghost(g))
        .step(1396141200, 0, 3600, "WEST", Ghost(g))
        .step(1414285200, 0, 0, "WET", Ghost(g))
        .step(1427590800, 0, 3600, "WEST", Ghost(g))
        .step(1445734800, 0, 0, "WET", Ghost(g))
        .step(1459040400, 0, 3600, "WEST", Ghost(g))
        .step(1477789200, 0, 0, "WET", Ghost(g))
        .step(1490490000, 0, 3600, "WEST", Ghost(g))
        .step(1509238800, 0, 0, "WET", Ghost(g))
        .step(1521939600, 0, 3600, "WEST", Ghost(g))
        .step(1540688400, 0, 0, "WET", Ghost(g))
        .step(1553994000, 0, 3600, "WEST", Ghost(g))
        .step(1572138000, 0, 0, "WET", Ghost(g))
        .step(1585443600, 0, 3600, "WEST", Ghost(g))
        .step(1603587600, 0, 0, "WET", Ghost(g))
        .step(1616893200, 0, 3600, "WEST", Ghost(g))
        .step(1635642000, 0, 0, "WET", Ghost(g))
        .step(1648342800, 0, 3600, "WEST", Ghost(g))
        .step(1667091600, 0, 0, "WET", Ghost(g))
        .step(1679792400, 0, 3600, "WEST", Ghost(g))
        .step(1698541200, 0, 0, "WET", Ghost(g))
        .step(1711846800, 0, 3600, "WEST", Ghost(g))
        .step(1729990800, 0, 0, "WET", Ghost(g))
        .step(1743296400, 0, 3600, "WEST", Ghost(g))
        .step(1761440400, 0, 0, "WET", Ghost(g))
        .step(1774746000, 0, 3600, "WEST", Ghost(g))
        .step(1792890000, 0, 0, "WET", Ghost(g))
        .step(1806195600, 0, 3600, "WEST", Ghost(g))
        .step(1824944400, 0, 0, "WET", Ghost(g))
        .step(1837645200, 0, 3600, "WEST", Ghost(g))
        .step(1856394000, 0, 0, "WET", Ghost(g))
        .step(1869094800, 0, 3600, "WEST", Ghost(g))
        .step(1887843600, 0, 0, "WET", Ghost(g))
        .step(1901149200, 0, 3600, "WEST", Ghost(g))
        .step(1919293200, 0, 0, "WET", Ghost(g))
        .step(1932598800, 0, 3600, "WEST", Ghost(g))
        .step(1950742800, 0, 0, "WET", Ghost(g))
        .step(1964048400, 0, 3600, "WEST", Ghost(g))
        .step(1982797200, 0, 0, "WET", Ghost(g))
        .step(1995498000, 0, 3600, "WEST", Ghost(g))
        .step(2014246800, 0, 0, "WET", Ghost(g))
        .step(2026947600, 0, 3600, "WEST", Ghost(g))
        .step(2045696400, 0, 0, "WET", Ghost(g))
        .step(2058397200, 0, 3600, "WEST", Ghost(g))
        .step(2077146000, 0, 0, "WET", Ghost(g))
        .step(2090451600, 0, 3600, "WEST", Ghost(g))
        .step(2108595600, 0, 0, "WET", Ghost(g))
        .step(2121901200, 0, 3600, "WEST", Ghost(g))
        .step(2140045200, 0, 0, "WET", Ghost(g))
        .finish(Ghost(g))
}

/// The zone `Atlantic/Reykjavik`.
pub fn reykjavik() -> (r: Tz)
    ensures
        r.wf(),
        r.zone_name() == "Atlantic/Reykjavik"@,
        r.table() == tables::atlantic::reykjavik(),
{
    let ghost g = tables::atlantic::reykjavik_rows();
    FixedTimespanSet::begin("Atlantic/Reykjavik", -5280, 0, "LMT", Ghost(g))
        .step(-1956609120, -3600, 0, "-01", Ghost(g))
        .step(-1668211200, -3600, 3600, "+00", Ghost(g))
        .step(-1647212400, -3600, 0, "-01", Ghost(g))
        .step(-1636675200, -3600, 3600, "+00", Ghost(g))
        .step(-1613430000, -3600, 0, "-01", Ghost(g))
        .step(-1605139200, -3600, 3600, "+00", Ghost(g))
        .step(-1581894000, -3600, 0, "-01", Ghost(g))
        .step(-1539561600, -3600, 3600, "+00", Ghost(g))
        .step(-1531350000, -3600, 0, "-01", Ghost(g))
        .step(-968025600, -3600, 3600, "+00", Ghost(g))
        .step(-952293600, -3600, 0, "-01", Ghost(g))
        .step(-942008400, -3600, 3600, "+00", Ghost(g))
        .step(-920239200, -3600, 0, "-01", Ghost(g))
        .step(-909957600, -3600, 3600, "+00", Ghost(g))
        .step(-888789600, -3600, 0, "-01", Ghost(g))
        .step(-877903200, -3600, 3600, "+00", Ghost(g))
        .step(-857944800, -3600, 0, "-01", Ghost(g))
        .step(-846453600, -3600, 3600, "+00", Ghost(g))
        .step(-826495200, -3600, 0, "-01", Ghost(g))
        .step(-815004000, -3600, 3600, "+00", Ghost(g))
        .step(-795045600, -3600, 0, "-01", Ghost(g))
        .step(-783554400, -3600, 3600, "+00", Ghost(g))
        .step(-762991200, -3600, 0, "-01", Ghost(g))
        .step(-752104800, -3600, 3600, "+00", Ghost(g))
        .step(-731541600, -3600, 0, "-01", Ghost(g))
        .step(-717631200, -3600, 3600, "+00", Ghost(g))
        .step(-700092000, -3600, 0, "-01", Ghost(g))
        .step(-686181600, -3600, 3600, "+00", Ghost(g))
        .step(-668642400, -3600, 0, "-01", Ghost(g))
        .step(-654732000, -3600, 3600, "+00", Ghost(g))
        .step(-636588000, -3600, 0, "-01", Ghost(g))
        .step(-623282400, -3600, 3600, "+00", Ghost(g))
        .step(-605743200, -3600, 0, "-01", Ghost(g))
        .step(-591832800, -3600, 3600, "+00", Ghost(g))
        .step(-573688800, -3600, 0, "-01", Ghost(g))
        .step(-559778400, -3600, 3600, "+00", Ghost(g))
        .step(-542239200, -3600, 0, "-01", Ghost(g))
        .step(-528328800, -3600, 3600, "+00", Ghost(g))
        .step(-510789600, -3600, 0, "-01", Ghost(g))
        .step(-496879200, -3600, 3600, "+00", Ghost(g))
        .step(-479340000, -3600, 0, "-01", Ghost(g))
        .step(-465429600, -3600, 3600, "+00", Ghost(g))
        .step(-447890400, -3600, 0, "-01", Ghost(g))
        .step(-433980000, -3600, 3600, "+00", Ghost(g))
        .step(-415836000, -3600, 0, "-01", Ghost(g))
        .step(-401925600, -3600, 3600, "+00", Ghost(g))
        .step(-384386400, -3600, 0, "-01", Ghost(g))
        .step(-370476000, -3600, 3600, "+00", Ghost(g))
        .step(-352936800, -3600, 0, "-01", Ghost(g))
        .step(-339026400, -3600, 3600, "+00", Ghost(g))
        .step(-321487200, -3600, 0, "-01", Ghost(g))
        .step(-307576800, -3600, 3600, "+00", Ghost(g))
        .step(-290037600, -3600, 0, "-01", Ghost(g))
        .step(-276127200, -3600, 3600, "+00", Ghost(g))
        .step(-258588000, -3600, 0, "-01", Ghost(g))
        .step(-244677600, -3600, 3600, "+00", Ghost(g))
        .step(-226533600, -3600, 0, "-01", Ghost(g))
        .step(-212623200, -3600, 3600, "+00", Ghost(g))
        .step(-195084000, -3600, 0, "-01", Ghost(g))
        .step(-181173600, -3600, 3600, "+00", Ghost(g))
        .step(-163634400, -3600, 0, "-01", Ghost(g))
        .step(-149724000, -3600, 3600, "+00", Ghost(g))
        .step(-132184800, -3600, 0, "-01", Ghost(g))
        .step(-118274400, -3600, 3600, "+00", Ghost(g))
        .step(-100735200, -3600, 0, "-01", Ghost(g))
        .step(-86824800, -3600, 3600, "+00", Ghost(g))
        .step(-68680800, -3600, 0, "-01", Ghost(g))
        .step(-54770400, 0, 0, "GMT", Ghost(g))
        .finish(Ghost(g))
}

/// The zone `Atlantic/South_Georgia`.
pub fn south_georgia() -> (r: Tz)
    ensures
        r.wf(),
        r.zone_name() == "Atlantic/South_Georgia"@,
        r.table() == tables::atlantic::south_georgia(),
{
    let ghost g = tables::atlantic::south_georgia_rows();
    FixedTimespanSet::begin("Atlantic/South_Georgia", -8768, 0, "LMT", Ghost(g))
        .step(-2524512832, -7200, 0, "-02", Ghost(g))
        .step(2147483647, -7200, 0, "-02", Ghost(g))
        .finish(Ghost(g))
}

/// The zone `Atlantic/St_Helena`.
pub fn st_helena() -> (r: Tz)
    ensures
        r.wf(),
        r.zone_name() == "Atlantic/St_Helena"@,
        r.table() == tables::atlantic::st_helena(),
{
    let ghost g = tables::atlantic::st_helena_rows();
    FixedTimespanSet::begin("Atlantic/St_Helena", -1368, 0, "LMT", Ghost(g))
        .step(-2524520232, -1368, 0, "JMT", Ghost(g))
        .step(-599614632, 0, 0, "GMT", Ghost(g))
        .finish(Ghost(g))
}

/// The zone `Atlantic/Stanley`.
pub fn stanley() -> (r: Tz)
    ensures
        r.wf(),
        r.zone_name() == "Atlantic/Stanley"@,
        r.table() == tables::atlantic::stanley(),
{
    let ghost g = tables::atlantic::stanley_rows();
    FixedTimespanSet::begin("Atlantic/Stanley", -13884, 0, "LMT", Ghost(g))
        .step(-2524507716, -13884, 0, "SMT", Ghost(g))
        .step(-1824235716, -14400, 0, "-04", Ghost(g))
        .step(-1018209600, -14400, 3600, "-03", Ghost(g))
        .step(-1003093200, -14400, 0, "-04", Ghost(g))
        .step(-986760000, -14400, 3600, "-03", Ghost(g))
        .step(-971643600, -14400, 0, "-04", Ghost(g))
        .step(-954705600, -14400, 3600, "-03", Ghost(g))
        .step(-939589200, -14400, 0, "-04", Ghost(g))
        .step(-923256000, -14400, 3600, "-03", Ghost(g))
        .step(-908139600, -14400, 0, "-04", Ghost(g))
        .step(-891806400, -14400, 3600, "-03", Ghost(g))
        .step(-876690000, -14400, 0, "-04", Ghost(g))
        .step(-860356800, -14400, 3600, "-03", Ghost(g))
        .step(-852066000, -14400, 0, "-04", Ghost(g))
        .step(420609600, -10800, 0, "-03", Ghost(g))
        .step(433306800, -10800, 3600, "-02", Ghost(g))
        .step(452052000, -10800, 0, "-03", Ghost(g))
        .step(464151600, -10800, 3600, "-02", Ghost(g))
        .step(483501600, -10800, 0, "-03", Ghost(g))
        .step(495601200, -14400, 3600, "-03", Ghost(g))
        .step(514350000, -14400, 0, "-04", Ghost(g))
        .step(527054400, -14400, 3600, "-03", Ghost(g))
        .step(545799600, -14400, 0, "-04", Ghost(g))
        .step(558504000, -14400, 3600, "-03", Ghost(g))
        .step(577249200, -14400, 0, "-04", Ghost(g))
        .step(589953600, -14400, 3600, "-03", Ghost(g))
        .step(608698800, -14400, 0, "-04", Ghost(g))
        .step(621403200, -14400, 3600, "-03", Ghost(g))
        .step(640753200, -14400, 0, "-04", Ghost(g))
        .step(652852800, -14400, 3600, "-03", Ghost(g))
        .step(672202800, -14400, 0, "-04", Ghost(g))
        .step(684907200, -14400, 3600, "-03", Ghost(g))
        .step(703652400, -14400, 0, "-04", Ghost(g))
        .step(716356800, -14400, 3600, "-03", Ghost(g))
        .step(735102000, -14400, 0, "-04", Ghost(g))
        .step(747806400, -14400, 3600, "-03", Ghost(g))
        .step(766551600, -14400, 0, "-04", Ghost(g))
        .step(779256000, -14400, 3600, "-03", Ghost(g))
        .step(798001200, -14400, 0, "-04", Ghost(g))
        .step(810705600, -14400, 3600, "-03", Ghost(g))
        .step(830055600, -14400, 0, "-04", Ghost(g))
        .step(842760000, -14400, 3600, "-03", Ghost(g))
        .step(861505200, -14400, 0, "-04", Ghost(g))
        .step(874209600, -14400, 3600, "-03", Ghost(g))
        .step(892954800, -14400, 0, "-04", Ghost(g))
        .step(905659200, -14400, 3600, "-03", Ghost(g))
        .step(924404400, -14400, 0, "-04", Ghost(g))
        .step(937108800, -14400, 3600, "-03", Ghost(g))
        .step(955854000, -14400, 0, "-04", Ghost(g))
        .step(968558400, -14400, 3600, "-03", Ghost(g))
        .step(987310800, -14400, 0, "-04", Ghost(g))
        .step(999410400, -14400, 3600, "-03", Ghost(g))
        .step(1019365200, -14400, 0, "-04", Ghost(g))
        .step(1030860000, -14400, 3600, "-03", Ghost(g))
        .step(1050814800, -14400, 0, "-04", Ghost(g))
        .step(1062914400, -14400, 3600, "-03", Ghost(g))
        .step(1082264400, -14400, 0, "-04", Ghost(g))
        .step(1094364000, -14400, 3600, "-03", Ghost(g))
        .step(1113714000, -14400, 0, "-04", Ghost(g))
        .step(1125813600, -14400, 3600, "-03", Ghost(g))
        .step(1145163600, -14400, 0, "-04", Ghost(g))
        .step(1157263200, -14400, 3600, "-03", Ghost(g))
        .step(1176613200, -14400, 0, "-04", Ghost(g))
        .step(1188712800, -14400, 3600, "-03", Ghost(g))
        .step(1208667600, -14400, 0, "-04", Ghost(g))
        .step(1220767200, -14400, 3600, "-03", Ghost(g))
        .step(1240117200, -14400, 0, "-04", Ghost(g))
        .step(1252216800, -14400, 3600, "-03", Ghost(g))
        .step(1271566800, -14400, 0, "-04", Ghost(g))
        .step(1283666400, -10800, 0, "-03", Ghost(g))
        .step(2147483647, -10800, 0, "-03", Ghost(g))
        .finish(Ghost(g))
}

} // verus!
