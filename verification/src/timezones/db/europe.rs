//! Zones of Europe.

use crate::interface::TimeZone;
use crate::timezone_impl::{FixedTimespanSet, Tz};
use crate::timezones::tables;
use vstd::prelude::*;

verus! {

/// The zone `Europe/Amsterdam`.
pub fn amsterdam() -> (r: Tz)
    ensures
        r.wf(),
        r.zone_name() == "Europe/Amsterdam"@,
        r.table() == tables::europe::amsterdam(),
{
    let ghost g = tables::europe::amsterdam_rows();
    FixedTimespanSet::begin("Europe/Amsterdam", 1172, 0, "LMT", Ghost(g))
        .step(-4260212372, 1172, 0, "AMT", Ghost(g))
        .step(-1693700372, 1172, 3600, "NST", Ghost(g))
        .step(-1680484772, 1172, 0, "AMT", Ghost(g))
        .step(-1663453172, 1172, 3600, "NST", Ghost(g))
        .step(-1650147572, 1172, 0, "AMT", Ghost(g))
        .step(-1633213172, 1172, 3600, "NST", Ghost(g))
        .step(-1617488372, 1172, 0, "AMT", Ghost(g))
        .step(-1601158772, 1172, 3600, "NST", Ghost(g))
        .step(-1586038772, 1172, 0, "AMT", Ghost(g))
        .step(-1569709172, 1172, 3600, "NST", Ghost(g))
        .step(-1554589172, 1172, 0, "AMT", Ghost(g))
        .step(-1538259572, 1172, 3600, "NST", Ghost(g))
        .step(-1523139572, 1172, 0, "AMT", Ghost(g))
        .step(-1507501172, 1172, 3600, "NST", Ghost(g))
        .step(-1490566772, 1172, 0, "AMT", Ghost(g))
        .step(-1470176372, 1172, 3600, "NST", Ghost(g))
        .step(-1459117172, 1172, 0, "AMT", Ghost(g))
        .step(-1443997172, 1172, 3600, "NST", Ghost(g))
        .step(-1427667572, 1172, 0, "AMT", Ghost(g))
        .step(-1406672372, 1172, 3600, "NST", Ghost(g))
        .step(-1396217972, 1172, 0, "AMT", Ghost(g))
        .step(-1376950772, 1172, 3600, "NST", Ghost(g))
        .step(-1364768372, 1172, 0, "AMT", Ghost(g))
        .step(-1345414772, 1172, 3600, "NST", Ghost(g))
        .step(-1333318772, 1172, 0, "AMT", Ghost(g))
        .step(-1313792372, 1172, 3600, "NST", Ghost(g))
        .step(-1301264372, 1172, 0, "AMT", Ghost(g))
        .step(-1282256372, 1172, 3600, "NST", Ghost(g))
        .step(-1269814772, 1172, 0, "AMT", Ghost(g))
        .step(-1250720372, 1172, 3600, "NST", Ghost(g))
        .step(-1238365172, 1172, 0, "AMT", Ghost(g))
        .step(-1219184372, 1172, 3600, "NST", Ghost(g))
        .step(-1206915572, 1172, 0, "AMT", Ghost(g))
        .step(-1186957172, 1172, 3600, "NST", Ghost(g))
        .step(-1175465972, 1172, 0, "AMT", Ghost(g))
        .step(-1156025972, 1172, 3600, "NST", Ghost(g))
        .step(-1143411572, 1172, 0, "AMT", Ghost(g))
        .step(-1124489972, 1172, 3600, "NST", Ghost(g))
        .step(-1111961972, 1172, 0, "AMT", Ghost(g))
        .step(-1092953972, 1172, 3600, "NST", Ghost(g))
        .step(-1080512372, 1172, 0, "AMT", Ghost(g))
        .step(-1061331572, 1172, 3600, "NST", Ghost(g))
        .step(-1049062772, 1172, 0, "AMT", Ghost(g))
        .step(-1029190772, 1172, 3600, "NST", Ghost(g))
        .step(-1025745572, 1172, 3628, "+0120", Ghost(g))
        .step(-1017613200, 1200, 0, "+0020", Ghost(g))
        .step(-998259600, 1200, 3600, "+0120", Ghost(g))
        .step(-986163600, 1200, 0, "+0020", Ghost(g))
        .step(-966723600, 1200, 3600, "+0120", Ghost(g))
        .step(-954109200, 1200, 0, "+0020", Ghost(g))
        .step(-935022000, 1200, 6000, "CEST", Ghost(g))
        .step(-857257200, 3600, 0, "CET", Ghost(g))
        .step(-844556400, 3600, 3600, "CEST", Ghost(g))
        .step(-828226800, 3600, 0, "CET", Ghost(g))
        .step(-812502000, 3600, 3600, "CEST", Ghost(g))
        .step(-796777200, 3600, 0, "CET", Ghost(g))
        .step(-781052400, 3600, 3600, "CEST", Ghost(g))
        .step(-766623600, 3600, 0, "CET", Ghost(g))
        .step(228877200, 3600, 3600, "CEST", Ghost(g))
        .step(243997200, 3600, 0, "CET", Ghost(g))
        .step(260326800, 3600, 3600, "CEST", Ghost(g))
        .step(276051600, 3600, 0, "CET", Ghost(g))
        .step(291776400, 3600, 3600, "CEST", Ghost(g))
        .step(307501200, 3600, 0, "CET", Ghost(g))
        .step(323830800, 3600, 3600, "CEST", Ghost(g))
        .step(338950800, 3600, 0, "CET", Ghost(g))
        .step(354675600, 3600, 3600, "CEST", Ghost(g))
        .step(370400400, 3600, 0, "CET", Ghost(g))
        .step(386125200, 3600, 3600, "CEST", Ghost(g))
        .step(401850000, 3600, 0, "CET", Ghost(g))
        .step(417574800, 3600, 3600, "CEST", Ghost(g))
        .step(433299600, 3600, 0, "CET", Ghost(g))
        .step(449024400, 3600, 3600, "CEST", Ghost(g))
        .step(465354000, 3600, 0, "CET", Ghost(g))
        .step(481078800, 3600, 3600, "CEST", Ghost(g))
        .step(496803600, 3600, 0, "CET", Ghost(g))
        .step(512528400, 3600, 3600, "CEST", Ghost(g))
        .step(528253200, 3600, 0, "CET", Ghost(g))
        .step(543978000, 3600, 3600, "CEST", Ghost(g))
        .step(559702800, 3600, 0, "CET", Ghost(g))
        .step(575427600, 3600, 3600, "CEST", Ghost(g))
        .step(591152400, 3600, 0, "CET", Ghost(g))
        .step(606877200, 3600, 3600, "CEST", Ghost(g))
        .step(622602000, 3600, 0, "CET", Ghost(g))
        .step(638326800, 3600, 3600, "CEST", Ghost(g))
        .step(654656400, 3600, 0, "CET", Ghost(g))
        .step(670381200, 3600, 3600, "CEST", Ghost(g))
        .step(686106000, 3600, 0, "CET", Ghost(g))
        .step(701830800, 3600, 3600, "CEST", Ghost(g))
        .step(717555600, 3600, 0, "CET", Ghost(g))
        .step(733280400, 3600, 3600, "CEST", Ghost(g))
        .step(749005200, 3600, 0, "CET", Ghost(g))
        .step(764730000, 3600, 3600, "CEST", Ghost(g))
        .step(780454800, 3600, 0, "CET", Ghost(g))
        .step(796179600, 3600, 3600, "CEST", Ghost(g))
        .step(811904400, 3600, 0, "CET", Ghost(g))
        .step(828234000, 3600, 3600, "CEST", Ghost(g))
        .step(846378000, 3600, 0, "CET", Ghost(g))
        .step(859683600, 3600, 3600, "CEST", Ghost(g))
        .step(877827600, 3600, 0, "CET", Ghost(g))
        .step(891133200, 3600, 3600, "CEST", Ghost(g))
        .step(909277200, 3600, 0, "CET", Ghost(g))
        .step(922582800, 3600, 3600, "CEST", Ghost(g))
        .step(941331600, 3600, 0, "CET", Ghost(g))
        .step(954032400, 3600, 3600, "CEST", Ghost(g))
        .step(972781200, 3600, 0, "CET", Ghost(g))
        .step(985482000, 3600, 3600, "CEST", Ghost(g))
        .step(1004230800, 3600, 0, "CET", Ghost(g))
        .step(1017536400, 3600, 3600, "CEST", Ghost(g))
        .step(1035680400, 3600, 0, "CET", Ghost(g))
        .step(1048986000, 3600, 3600, "CEST", Ghost(g))
        .step(1067130000, 3600, 0, "CET", Ghost(g))
        .step(1080435600, 3600, 3600, "CEST", Ghost(g))
        .step(1099184400, 3600, 0, "CET", Ghost(g))
        .step(1111885200, 3600, 3600, "CEST", Ghost(g))
        .step(1130634000, 3600, 0, "CET", Ghost(g))
        .step(1143334800, 3600, 3600, "CEST", Ghost(g))
        .step(1162083600, 3600, 0, "CET", Ghost(g))
        .step(1174784400, 3600, 3600, "CEST", Ghost(g))
        .step(1193533200, 3600, 0, "CET", Ghost(g))
        .step(1206838800, 3600, 3600, "CEST", Ghost(g))
        .step(1224982800, 3600, 0, "CET", Ghost(g))
        .step(1238288400, 3600, 3600, "CEST", Ghost(g))
        .step(1256432400, 3600, 0, "CET", Ghost(g))
        .step(1269738000, 3600, 3600, "CEST", Ghost(g))
        .step(1288486800, 3600, 0, "CET", Ghost(g))
        .step(1301187600, 3600, 3600, "CEST", Ghost(g))
        .step(1319936400, 3600, 0, "CET", Ghost(g))
        .step(1332637200, 3600, 3600, "CEST", Ghost(g))
        .step(1351386000, 3600, 0, "CET", Ghost(g))
        .step(1364691600, 3600, 3600, "CEST", Ghost(g))
        .step(1382835600, 3600, 0, "CET", Ghost(g))
        .step(1396141200, 3600, 3600, "CEST", Ghost(g))
        .step(1414285200, 3600, 0, "CET", Ghost(g))
        .step(1427590800, 3600, 3600, "CEST", Ghost(g))
        .step(1445734800, 3600, 0, "CET", Ghost(g))
        .step(1459040400, 3600, 3600, "CEST", Ghost(g))
        .step(1477789200, 3600, 0, "CET", Ghost(g))
        .step(1490490000, 3600, 3600, "CEST", Ghost(g))
        .step(1509238800, 3600, 0, "CET", Ghost(g))
        .step(1521939600, 3600, 3600, "CEST", Ghost(g))
        .step(1540688400, 3600, 0, "CET", Ghost(g))
        .step(1553994000, 3600, 3600, "CEST", Ghost(g))
        .step(1572138000, 3600, 0, "CET", Ghost(g))
        .step(1585443600, 3600, 3600, "CEST", Ghost(g))
        .step(1603587600, 3600, 0, "CET", Ghost(g))
        .step(1616893200, 3600, 3600, "CEST", Ghost(g))
        .step(1635642000, 3600, 0, "CET", Ghost(g))
        .step(1648342800, 3600, 3600, "CEST", Ghost(g))
        .step(1667091600, 3600, 0, "CET", Ghost(g))
        .step(1679792400, 3600, 3600, "CEST", Ghost(g))
        .step(1698541200, 3600, 0, "CET", Ghost(g))
        .step(1711846800, 3600, 3600, "CEST", Ghost(g))
        .step(1729990800, 3600, 0, "CET", Ghost(g))
        .step(1743296400, 3600, 3600, "CEST", Ghost(g))
        .step(1761440400, 3600, 0, "CET", Ghost(g))
        .step(1774746000, 3600, 3600, "CEST", Ghost(g))
        .step(1792890000, 3600, 0, "CET", Ghost(g))
        .step(1806195600, 3600, 3600, "CEST", Ghost(g))
        .step(1824944400, 3600, 0, "CET", Ghost(g))
        .step(1837645200, 3600, 3600, "CEST", Ghost(g))
        .step(1856394000, 3600, 0, "CET", Ghost(g))
        .step(1869094800, 3600, 3600, "CEST", Ghost(g))
        .step(1887843600, 3600, 0, "CET", Ghost(g))
        .step(1901149200, 3600, 3600, "CEST", Ghost(g))
        .step(1919293200, 3600, 0, "CET", Ghost(g))
        .step(1932598800, 3600, 3600, "CEST", Ghost(g))
        .step(1950742800, 3600, 0, "CET", Ghost(g))
        .step(1964048400, 3600, 3600, "CEST", Ghost(g))
        .step(1982797200, 3600, 0, "CET", Ghost(g))
        .step(1995498000, 3600, 3600, "CEST", Ghost(g))
        .step(2014246800, 3600, 0, "CET", Ghost(g))
        .step(2026947600, 3600, 3600, "CEST", Ghost(g))
        .step(2045696400, 3600, 0, "CET", Ghost(g))
        .step(2058397200, 3600, 3600, "CEST", Ghost(g))
        .step(2077146000, 3600, 0, "CET", Ghost(g))
        .step(2090451600, 3600, 3600, "CEST", Ghost(g))
        .step(2108595600, 3600, 0, "CET", Ghost(g))
        .step(2121901200, 3600, 3600, "CEST", Ghost(g))
        .step(2140045200, 3600, 0, "CET", Ghost(g))
        .finish(Ghost(g))
}

/// The zone `Europe/Andorra`.
pub fn andorra() -> (r: Tz)
    ensures
        r.wf(),
        r.zone_name() == "Europe/Andorra"@,
        r.table() == tables::europe::andorra(),
{
    let ghost g = tables::europe::andorra_rows();
    FixedTimespanSet::begin("Europe/Andorra", 364, 0, "LMT", Ghost(g))
        .step(-2177453164, 0, 0, "WET", Ghost(g))
        .step(-733881600, 3600, 0, "CET", Ghost(g))
        .step(481078800, 3600, 3600, "CEST", Ghost(g))
        .step(496803600, 3600, 0, "CET", Ghost(g))
        .step(512528400, 3600, 3600, "CEST", Ghost(g))
        .step(528253200, 3600, 0, "CET", Ghost(g))
        .step(543978000, 3600, 3600, "CEST", Ghost(g))
        .step(559702800, 3600, 0, "CET", Ghost(g))
        .step(575427600, 3600, 3600, "CEST", Ghost(g))
        .step(591152400, 3600, 0, "CET", Ghost(g))
        .step(606877200, 3600, 3600, "CEST", Ghost(g))
        .step(622602000, 3600, 0, "CET", Ghost(g))
        .step(638326800, 3600, 3600, "CEST", Ghost(g))
        .step(654656400, 3600, 0, "CET", Ghost(g))
        .step(670381200, 3600, 3600, "CEST", Ghost(g))
        .step(686106000, 3600, 0, "CET", Ghost(g))
        .step(701830800, 3600, 3600, "CEST", Ghost(g))
        .step(717555600, 3600, 0, "CET", Ghost(g))
        .step(733280400, 3600, 3600, "CEST", Ghost(g))
        .step(749005200, 3600, 0, "CET", Ghost(g))
        .step(764730000, 3600, 3600, "CEST", Ghost(g))
        .step(780454800, 3600, 0, "CET", Ghost(g))
        .step(796179600, 3600, 3600, "CEST", Ghost(g))
        .step(811904400, 3600, 0, "CET", Ghost(g))
        .step(828234000, 3600, 3600, "CEST", Ghost(g))
        .step(846378000, 3600, 0, "CET", Ghost(g))
        .step(859683600, 3600, 3600, "CEST", Ghost(g))
        .step(877827600, 3600, 0, "CET", Ghost(g))
        .step(891133200, 3600, 3600, "CEST", Ghost(g))
        .step(909277200, 3600, 0, "CET", Ghost(g))
        .step(922582800, 3600, 3600, "CEST", Ghost(g))
        .step(941331600, 3600, 0, "CET", Ghost(g))
        .step(954032400, 3600, 3600, "CEST", Ghost(g))
        .step(972781200, 3600, 0, "CET", Ghost(g))
        .step(985482000, 3600, 3600, "CEST", Ghost(g))
        .step(1004230800, 3600, 0, "CET", Ghost(g))
        .step(1017536400, 3600, 3600, "CEST", Ghost(g))
        .step(1035680400, 3600, 0, "CET", Ghost(g))
        .step(1048986000, 3600, 3600, "CEST", Ghost(g))
        .step(1067130000, 3600, 0, "CET", Ghost(g))
        .step(1080435600, 3600, 3600, "CEST", Ghost(g))
        .step(1099184400, 3600, 0, "CET", Ghost(g))
        .step(1111885200, 3600, 3600, "CEST", Ghost(g))
        .step(1130634000, 3600, 0, "CET", Ghost(g))
        .step(1143334800, 3600, 3600, "CEST", Ghost(g))
        .step(1162083600, 3600, 0, "CET", Ghost(g))
        .step(1174784400, 3600, 3600, "CEST", Ghost(g))
        .step(1193533200, 3600, 0, "CET", Ghost(g))
        .step(1206838800, 3600, 3600, "CEST", Ghost(g))
        .step(1224982800, 3600, 0, "CET", Ghost(g))
        .step(1238288400, 3600, 3600, "CEST", Ghost(g))
        .step(1256432400, 3600, 0, "CET", Ghost(g))
        .step(1269738000, 3600, 3600, "CEST", Ghost(g))
        .step(1288486800, 3600, 0, "CET", Ghost(g))
        .step(1301187600, 3600, 3600, "CEST", Ghost(g))
        .step(1319936400, 3600, 0, "CET", Ghost(g))
        .step(1332637200, 3600, 3600, "CEST", Ghost(g))
        .step(1351386000, 3600, 0, "CET", Ghost(g))
        .step(1364691600, 3600, 3600, "CEST", Ghost(g))
        .step(1382835600, 3600, 0, "CET", Ghost(g))
        .step(1396141200, 3600, 3600, "CEST", Ghost(g))
        .step(1414285200, 3600, 0, "CET", Ghost(g))
        .step(1427590800, 3600, 3600, "CEST", Ghost(g))
        .step(1445734800, 3600, 0, "CET", Ghost(g))
        .step(1459040400, 3600, 3600, "CEST", Ghost(g))
        .step(1477789200, 3600, 0, "CET", Ghost(g))
        .step(1490490000, 3600, 3600, "CEST", Ghost(g))
        .step(1509238800, 3600, 0, "CET", Ghost(g))
        .step(1521939600, 3600, 3600, "CEST", Ghost(g))
        .step(1540688400, 3600, 0, "CET", Ghost(g))
        .step(1553994000, 3600, 3600, "CEST", Ghost(g))
        .step(1572138000, 3600, 0, "CET", Ghost(g))
        .step(1585443600, 3600, 3600, "CEST", Ghost(g))
        .step(1603587600, 3600, 0, "CET", Ghost(g))
        .step(1616893200, 3600, 3600, "CEST", Ghost(g))
        .step(1635642000, 3600, 0, "CET", Ghost(g))
        .step(1648342800, 3600, 3600, "CEST", Ghost(g))
        .step(1667091600, 3600, 0, "CET", Ghost(g))
        .step(1679792400, 3600, 3600, "CEST", Ghost(g))
        .step(1698541200, 3600, 0, "CET", Ghost(g))
        .step(1711846800, 3600, 3600, "CEST", Ghost(g))
        .step(1729990800, 3600, 0, "CET", Ghost(g))
        .step(1743296400, 3600, 3600, "CEST", Ghost(g))
        .step(1761440400, 3600, 0, "CET", Ghost(g))
        .step(1774746000, 3600, 3600, "CEST", Ghost(g))
        .step(1792890000, 3600, 0, "CET", Ghost(g))
        .step(1806195600, 3600, 3600, "CEST", Ghost(g))
        .step(1824944400, 3600, 0, "CET", Ghost(g))
        .step(1837645200, 3600, 3600, "CEST", Ghost(g))
        .step(1856394000, 3600, 0, "CET", Ghost(g))
        .step(1869094800, 3600, 3600, "CEST", Ghost(g))
        .step(1887843600, 3600, 0, "CET", Ghost(g))
        .step(1901149200, 3600, 3600, "CEST", Ghost(g))
        .step(1919293200, 3600, 0, "CET", Ghost(g))
        .step(1932598800, 3600, 3600, "CEST", Ghost(g))
        .step(1950742800, 3600, 0, "CET", Ghost(g))
        .step(1964048400, 3600, 3600, "CEST", Ghost(g))
        .step(1982797200, 3600, 0, "CET", Ghost(g))
        .step(1995498000, 3600, 3600, "CEST", Ghost(g))
        .step(2014246800, 3600, 0, "CET", Ghost(g))
        .step(2026947600, 3600, 3600, "CEST", Ghost(g))
        .step(2045696400, 3600, 0, "CET", Ghost(g))
        .step(2058397200, 3600, 3600, "CEST", Ghost(g))
        .step(2077146000, 3600, 0, "CET", Ghost(g))
        .step(2090451600, 3600, 3600, "CEST", Ghost(g))
        .step(2108595600, 3600, 0, "CET", Ghost(g))
        .step(2121901200, 3600, 3600, "CEST", Ghost(g))
        .step(2140045200, 3600, 0, "CET", Ghost(g))
        .finish(Ghost(g))
}

/// The zone `Europe/Astrakhan`.
pub fn astrakhan() -> (r: Tz)
    ensures
        r.wf(),
        r.zone_name() == "Europe/Astrakhan"@,
        r.table() == tables::europe::astrakhan(),
{
    let ghost g = tables::europe::astrakhan_rows();
    FixedTimespanSet::begin("Europe/Astrakhan", 11532, 0, "LMT", Ghost(g))
        .step(-1441249932, 10800, 0, "+03", Ghost(g))
        .step(-1247540400, 14400, 0, "+04", Ghost(g))
        .step(354916800, 14400, 3600, "+05", Ghost(g))
        .step(370724400, 14400, 0, "+04", Ghost(g))
        .step(386452800, 14400, 3600, "+05", Ghost(g))
        .step(402260400, 14400, 0, "+04", Ghost(g))
        .step(417988800, 14400, 3600, "+05", Ghost(g))
        .step(433796400, 14400, 0, "+04", Ghost(g))
        .step(449611200, 14400, 3600, "+05", Ghost(g))
        .step(465343200, 14400, 0, "+04", Ghost(g))
        .step(481068000, 14400, 3600, "+05", Ghost(g))
        .step(496792800, 14400, 0, "+04", Ghost(g))
        .step(512517600, 14400, 3600, "+05", Ghost(g))
        .step(528242400, 14400, 0, "+04", Ghost(g))
        .step(543967200, 14400, 3600, "+05", Ghost(g))
        .step(559692000, 14400, 0, "+04", Ghost(g))
        .step(575416800, 14400, 3600, "+05", Ghost(g))
        .step(591141600, 14400, 0, "+04", Ghost(g))
        .step(606866400, 10800, 3600, "+04", Ghost(g))
        .step(622594800, 10800, 0, "+03", Ghost(g))
        .step(638319600, 10800, 3600, "+04", Ghost(g))
        .step(654649200, 10800, 0, "+03", Ghost(g))
        .step(670374000, 14400, 0, "+04", Ghost(g))
        .step(701820000, 10800, 3600, "+04", Ghost(g))
        .step(717548400, 10800, 0, "+03", Ghost(g))
        .step(733273200, 10800, 3600, "+04", Ghost(g))
        .step(748998000, 10800, 0, "+03", Ghost(g))
        .step(764722800, 10800, 3600, "+04", Ghost(g))
        .step(780447600, 10800, 0, "+03", Ghost(g))
        .step(796172400, 10800, 3600, "+04", Ghost(g))
        .step(811897200, 10800, 0, "+03", Ghost(g))
        .step(828226800, 10800, 3600, "+04", Ghost(g))
        .step(846370800, 10800, 0, "+03", Ghost(g))
        .step(859676400, 10800, 3600, "+04", Ghost(g))
        .step(877820400, 10800, 0, "+03", Ghost(g))
        .step(891126000, 10800, 3600, "+04", Ghost(g))
        .step(909270000, 10800, 0, "+03", Ghost(g))
        .step(922575600, 10800, 3600, "+04", Ghost(g))
        .step(941324400, 10800, 0, "+03", Ghost(g))
        .step(954025200, 10800, 3600, "+04", Ghost(g))
        .step(972774000, 10800, 0, "+03", Ghost(g))
        .step(985474800, 10800, 3600, "+04", Ghost(g))
        .step(1004223600, 10800, 0, "+03", Ghost(g))
        .step(1017529200, 10800, 3600, "+04", Ghost(g))
        .step(1035673200, 10800, 0, "+03", Ghost(g))
        .step(1048978800, 10800, 3600, "+04", Ghost(g))
        .step(1067122800, 10800, 0, "+03", Ghost(g))
        .step(1080428400, 10800, 3600, "+04", Ghost(g))
        .step(1099177200, 10800, 0, "+03", Ghost(g))
        .step(1111878000, 10800, 3600, "+04", Ghost(g))
        .step(1130626800, 10800, 0, "+03", Ghost(g))
        .step(1143327600, 10800, 3600, "+04", Ghost(g))
        .step(1162076400, 10800, 0, "+03", Ghost(g))
        .step(1174777200, 10800, 3600, "+04", Ghost(g))
        .step(1193526000, 10800, 0, "+03", Ghost(g))
        .step(1206831600, 10800, 3600, "+04", Ghost(g))
        .step(1224975600, 10800, 0, "+03", Ghost(g))
        .step(1238281200, 10800, 3600, "+04", Ghost(g))
        .step(1256425200, 10800, 0, "+03", Ghost(g))
        .step(1269730800, 10800, 3600, "+04", Ghost(g))
        .step(1288479600, 10800, 0, "+03", Ghost(g))
        .step(1301180400, 14400, 0, "+04", Ghost(g))
        .step(1414274400, 10800, 0, "+03", Ghost(g))
        .step(1459033200, 14400, 0, "+04", Ghost(g))
        .step(2147483647, 14400, 0, "+04", Ghost(g))
        .finish(Ghost(g))
}

/// The zone `Europe/Athens`.
pub fn athens() -> (r: Tz)
    ensures
        r.wf(),
        r.zone_name() == "Europe/Athens"@,
        r.table() == tables::europe::athens(),
{
    let ghost g = tables::europe::athens_rows();
    FixedTimespanSet::begin("Europe/Athens", 5692, 0, "LMT", Ghost(g))
        .step(-2344642492, 5692, 0, "AMT", Ghost(g))
        .step(-1686101632, 7200, 0, "EET", Ghost(g))
        .step(-1182996000, 7200, 3600, "EEST", Ghost(g))
        .step(-1178161200, 7200, 0, "EET", Ghost(g))
        .step(-906861600, 7200, 3600, "EEST", Ghost(g))
        .step(-904878000, 3600, 3600, "CEST", Ghost(g))
        .step(-857257200, 3600, 0, "CET", Ghost(g))
        .step(-844477200, 3600, 3600, "CEST", Ghost(g))
        .step(-828237600, 3600, 0, "CET", Ghost(g))
        .step(-812422800, 7200, 0, "EET", Ghost(g))
        .step(-552362400, 7200, 3600, "EEST", Ghost(g))
        .step(-541652400, 7200, 0, "EET", Ghost(g))
        .step(166485600, 7200, 3600, "EEST", Ghost(g))
        .step(186184800, 7200, 0, "EET", Ghost(g))
        .step(198028800, 7200, 3600, "EEST", Ghost(g))
        .step(213753600, 7200, 0, "EET", Ghost(g))
        .step(228873600, 7200, 3600, "EEST", Ghost(g))
        .step(244080000, 7200, 0, "EET", Ghost(g))
        .step(260323200, 7200, 3600, "EEST", Ghost(g))
        .step(275446800, 7200, 0, "EET", Ghost(g))
        .step(291798000, 7200, 3600, "EEST", Ghost(g))
        .step(307407600, 7200, 0, "EET", Ghost(g))
        .step(323388000, 7200, 3600, "EEST", Ghost(g))
        .step(338936400, 7200, 0, "EET", Ghost(g))
        .step(354675600, 7200, 3600, "EEST", Ghost(g))
        .step(370400400, 7200, 0, "EET", Ghost(g))
        .step(386125200, 7200, 3600, "EEST", Ghost(g))
        .step(401850000, 7200, 0, "EET", Ghost(g))
        .step(417574800, 7200, 3600, "EEST", Ghost(g))
        .step(433299600, 7200, 0, "EET", Ghost(g))
        .step(449024400, 7200, 3600, "EEST", Ghost(g))
        .step(465354000, 7200, 0, "EET", Ghost(g))
        .step(481078800, 7200, 3600, "EEST", Ghost(g))
        .step(496803600, 7200, 0, "EET", Ghost(g))
        .step(512528400, 7200, 3600, "EEST", Ghost(g))
        .step(528253200, 7200, 0, "EET", Ghost(g))
        .step(543978000, 7200, 3600, "EEST", Ghost(g))
        .step(559702800, 7200, 0, "EET", Ghost(g))
        .step(575427600, 7200, 3600, "EEST", Ghost(g))
        .step(591152400, 7200, 0, "EET", Ghost(g))
        .step(606877200, 7200, 3600, "EEST", Ghost(g))
        .step(622602000, 7200, 0, "EET", Ghost(g))
        .step(638326800, 7200, 3600, "EEST", Ghost(g))
        .step(654656400, 7200, 0, "EET", Ghost(g))
        .step(670381200, 7200, 3600, "EEST", Ghost(g))
        .step(686106000, 7200, 0, "EET", Ghost(g))
        .step(701830800, 7200, 3600, "EEST", Ghost(g))
        .step(717555600, 7200, 0, "EET", Ghost(g))
        .step(733280400, 7200, 3600, "EEST", Ghost(g))
        .step(749005200, 7200, 0, "EET", Ghost(g))
        .step(764730000, 7200, 3600, "EEST", Ghost(g))
        .step(780454800, 7200, 0, "EET", Ghost(g))
        .step(796179600, 7200, 3600, "EEST", Ghost(g))
        .step(811904400, 7200, 0, "EET", Ghost(g))
        .step(828234000, 7200, 3600, "EEST", Ghost(g))
        .step(846378000, 7200, 0, "EET", Ghost(g))
        .step(859683600, 7200, 3600, "EEST", Ghost(g))
        .step(877827600, 7200, 0, "EET", Ghost(g))
        .step(891133200, 7200, 3600, "EEST", Ghost(g))
        .step(909277200, 7200, 0, "EET", Ghost(g))
        .step(922582800, 7200, 3600, "EEST", Ghost(g))
        .step(941331600, 7200, 0, "EET", Ghost(g))
        .step(954032400, 7200, 3600, "EEST", Ghost(g))
        .step(972781200, 7200, 0, "EET", Ghost(g))
        .step(985482000, 7200, 3600, "EEST", Ghost(g))
        .step(1004230800, 7200, 0, "EET", Ghost(g))
        .step(1017536400, 7200, 3600, "EEST", Ghost(g))
        .step(1035680400, 7200, 0, "EET", Ghost(g))
        .step(1048986000, 7200, 3600, "EEST", Ghost(g))
        .step(1067130000, 7200, 0, "EET", Ghost(g))
        .step(1080435600, 7200, 3600, "EEST", Ghost(g))
        .step(1099184400, 7200, 0, "EET", Ghost(g))
        .step(1111885200, 7200, 3600, "EEST", Ghost(g))
        .step(1130634000, 7200, 0, "EET", Ghost(g))
        .step(1143334800, 7200, 3600, "EEST", Ghost(g))
        .step(1162083600, 7200, 0, "EET", Ghost(g))
        .step(1174784400, 7200, 3600, "EEST", Ghost(g))
        .step(1193533200, 7200, 0, "EET", Ghost(g))
        .step(1206838800, 7200, 3600, "EEST", Ghost(g))
        .step(1224982800, 7200, 0, "EET", Ghost(g))
        .step(1238288400, 7200, 3600, "EEST", Ghost(g))
        .step(1256432400, 7200, 0, "EET", Ghost(g))
        .step(1269738000, 7200, 3600, "EEST", Ghost(g))
        .step(1288486800, 7200, 0, "EET", Ghost(g))
        .step(1301187600, 7200, 3600, "EEST", Ghost(g))
        .step(1319936400, 7200, 0, "EET", Ghost(g))
        .step(1332637200, 7200, 3600, "EEST", Ghost(g))
        .step(1351386000, 7200, 0, "EET", Ghost(g))
        .step(1364691600, 7200, 3600, "EEST", Ghost(g))
        .step(1382835600, 7200, 0, "EET", Ghost(g))
        .step(1396141200, 7200, 3600, "EEST", Ghost(g))
        .step(1414285200, 7200, 0, "EET", Ghost(g))
        .step(1427590800, 7200, 3600, "EEST", Ghost(g))
        .step(1445734800, 7200, 0, "EET", Ghost(g))
        .step(1459040400, 7200, 3600, "EEST", Ghost(g))
        .step(1477789200, 7200, 0, "EET", Ghost(g))
        .step(1490490000, 7200, 3600, "EEST", Ghost(g))
        .step(1509238800, 7200, 0, "EET", Ghost(g))
        .step(1521939600, 7200, 3600, "EEST", Ghost(g))
        .step(1540688400, 7200, 0, "EET", Ghost(g))
        .step(1553994000, 7200, 3600, "EEST", Ghost(g))
        .step(1572138000, 7200, 0, "EET", Ghost(g))
        .step(1585443600, 7200, 3600, "EEST", Ghost(g))
        .step(1603587600, 7200, 0, "EET", Ghost(g))
        .step(1616893200, 7200, 3600, "EEST", Ghost(g))
        .step(1635642000, 7200, 0, "EET", Ghost(g))
        .step(1648342800, 7200, 3600, "EEST", Ghost(g))
        .step(1667091600, 7200, 0, "EET", Ghost(g))
        .step(1679792400, 7200, 3600, "EEST", Ghost(g))
        .step(1698541200, 7200, 0, "EET", Ghost(g))
        .step(1711846800, 7200, 3600, "EEST", Ghost(g))
        .step(1729990800, 7200, 0, "EET", Ghost(g))
        .step(1743296400, 7200, 3600, "EEST", Ghost(g))
        .step(1761440400, 7200, 0, "EET", Ghost(g))
        .step(1774746000, 7200, 3600, "EEST", Ghost(g))
        .step(1792890000, 7200, 0, "EET", Ghost(g))
        .step(1806195600, 7200, 3600, "EEST", Ghost(g))
        .step(1824944400, 7200, 0, "EET", Ghost(g))
        .step(1837645200, 7200, 3600, "EEST", Ghost(g))
        .step(1856394000, 7200, 0, "EET", Ghost(g))
        .step(1869094800, 7200, 3600, "EEST", Ghost(g))
        .step(1887843600, 7200, 0, "EET", Ghost(g))
        .step(1901149200, 7200, 3600, "EEST", Ghost(g))
        .step(1919293200, 7200, 0, "EET", Ghost(g))
        .step(1932598800, 7200, 3600, "EEST", Ghost(g))
        .step(1950742800, 7200, 0, "EET", Ghost(g))
        .step(1964048400, 7200, 3600, "EEST", Ghost(g))
        .step(1982797200, 7200, 0, "EET", Ghost(g))
        .step(1995498000, 7200, 3600, "EEST", Ghost(g))
        .step(2014246800, 7200, 0, "EET", Ghost(g))
        .step(2026947600, 7200, 3600, "EEST", Ghost(g))
        .step(2045696400, 7200, 0, "EET", Ghost(g))
        .step(2058397200, 7200, 3600, "EEST", Ghost(g))
        .step(2077146000, 7200, 0, "EET", Ghost(g))
        .step(2090451600, 7200, 3600, "EEST", Ghost(g))
        .step(2108595600, 7200, 0, "EET", Ghost(g))
        .step(2121901200, 7200, 3600, "EEST", Ghost(g))
        .step(2140045200, 7200, 0, "EET", Ghost(g))
        .finish(Ghost(g))
}

/// The zone `Europe/Belfast`.
pub fn belfast() -> (r: Tz)
    ensures
        r.wf(),
        r.zone_name() == "Europe/Belfast"@,
        r.table() == tables::europe::belfast(),
{
    let ghost g = tables::europe::belfast_rows();
    FixedTimespanSet::begin("Europe/Belfast", -75, 0, "LMT", Ghost(g))
        .step(-3852662325, 0, 0, "GMT", Ghost(g))
        .step(-1691964000, 0, 3600, "BST", Ghost(g))
        .step(-1680472800, 0, 0, "GMT", Ghost(g))
        .step(-1664143200, 0, 3600, "BST", Ghost(g))
        .step(-1650146400, 0, 0, "GMT", Ghost(g))
        .step(-1633903200, 0, 3600, "BST", Ghost(g))
        .step(-1617487200, 0, 0, "GMT", Ghost(g))
        .step(-1601848800, 0, 3600, "BST", Ghost(g))
        .step(-1586037600, 0, 0, "GMT", Ghost(g))
        .step(-1570399200, 0, 3600, "BST", Ghost(g))
        .step(-1552168800, 0, 0, "GMT", Ghost(g))
        .step(-1538344800, 0, 3600, "BST", Ghost(g))
        .step(-1522533600, 0, 0, "GMT", Ghost(g))
        .step(-1507500000, 0, 3600, "BST", Ghost(g))
        .step(-1490565600, 0, 0, "GMT", Ghost(g))
        .step(-1473631200, 0, 3600, "BST", Ghost(g))
        .step(-1460930400, 0, 0, "GMT", Ghost(g))
        .step(-1442786400, 0, 3600, "BST", Ghost(g))
        .step(-1428876000, 0, 0, "GMT", Ghost(g))
        .step(-1410732000, 0, 3600, "BST", Ghost(g))
        .step(-1396216800, 0, 0, "GMT", Ghost(g))
        .step(-1379282400, 0, 3600, "BST", Ghost(g))
        .step(-1364767200, 0, 0, "GMT", Ghost(g))
        .step(-1348437600, 0, 3600, "BST", Ghost(g))
        .step(-1333317600, 0, 0, "GMT", Ghost(g))
        .step(-1315778400, 0, 3600, "BST", Ghost(g))
        .step(-1301263200, 0, 0, "GMT", Ghost(g))
        .step(-1284328800, 0, 3600, "BST", Ghost(g))
        .step(-1269813600, 0, 0, "GMT", Ghost(g))
        .step(-1253484000, 0, 3600, "BST", Ghost(g))
        .step(-1238364000, 0, 0, "GMT", Ghost(g))
        .step(-1221429600, 0, 3600, "BST", Ghost(g))
        .step(-1206914400, 0, 0, "GMT", Ghost(g))
        .step(-1189980000, 0, 3600, "BST", Ghost(g))
        .step(-1175464800, 0, 0, "GMT", Ghost(g))
        .step(-1159135200, 0, 3600, "BST", Ghost(g))
        .step(-1143410400, 0, 0, "GMT", Ghost(g))
        .step(-1126476000, 0, 3600, "BST", Ghost(g))
        .step(-1111960800, 0, 0, "GMT", Ghost(g))
        .step(-1095631200, 0, 3600, "BST", Ghost(g))
        .step(-1080511200, 0, 0, "GMT", Ghost(g))
        .step(-1063576800, 0, 3600, "BST", Ghost(g))
        .step(-1049061600, 0, 0, "GMT", Ghost(g))
        .step(-1032127200, 0, 3600, "BST", Ghost(g))
        .step(-1017612000, 0, 0, "GMT", Ghost(g))
        .step(-1001282400, 0, 3600, "BST", Ghost(g))
        .step(-986162400, 0, 0, "GMT", Ghost(g))
        .step(-969228000, 0, 3600, "BST", Ghost(g))
        .step(-950479200, 0, 0, "GMT", Ghost(g))
        .step(-942012000, 0, 3600, "BST", Ghost(g))
        .step(-904518000, 0, 7200, "BDST", Ghost(g))
        .step(-896050800, 0, 3600, "BST", Ghost(g))
        .step(-875487600, 0, 7200, "BDST", Ghost(g))
        .step(-864601200, 0, 3600, "BST", Ghost(g))
        .step(-844038000, 0, 7200, "BDST", Ghost(g))
        .step(-832546800, 0, 3600, "BST", Ghost(g))
        .step(-812588400, 0, 7200, "BDST", Ghost(g))
        .step(-798073200, 0, 3600, "BST", Ghost(g))
        .step(-781052400, 0, 7200, "BDST", Ghost(g))
        .step(-772066800, 0, 3600, "BST", Ghost(g))
        .step(-764805600, 0, 0, "GMT", Ghost(g))
        .step(-748476000, 0, 3600, "BST", Ghost(g))
        .step(-733356000, 0, 0, "GMT", Ghost(g))
        .step(-719445600, 0, 3600, "BST", Ghost(g))
        .step(-717030000, 0, 7200, "BDST", Ghost(g))
        .step(-706748400, 0, 3600, "BST", Ghost(g))
        .step(-699487200, 0, 0, "GMT", Ghost(g))
        .step(-687996000, 0, 3600, "BST", Ghost(g))
        .step(-668037600, 0, 0, "GMT", Ghost(g))
        .step(-654732000, 0, 3600, "BST", Ghost(g))
        .step(-636588000, 0, 0, "GMT", Ghost(g))
        .step(-622072800, 0, 3600, "BST", Ghost(g))
        .step(-605743200, 0, 0, "GMT", Ghost(g))
        .step(-590623200, 0, 3600, "BST", Ghost(g))
        .step(-574293600, 0, 0, "GMT", Ghost(g))
        .step(-558568800, 0, 3600, "BST", Ghost(g))
        .step(-542239200, 0, 0, "GMT", Ghost(g))
        .step(-527119200, 0, 3600, "BST", Ghost(g))
        .step(-512604000, 0, 0, "GMT", Ghost(g))
        .step(-496274400, 0, 3600, "BST", Ghost(g))
        .step(-481154400, 0, 0, "GMT", Ghost(g))
        .step(-464220000, 0, 3600, "BST", Ghost(g))
        .step(-449704800, 0, 0, "GMT", Ghost(g))
        .step(-432165600, 0, 3600, "BST", Ghost(g))
        .step(-417650400, 0, 0, "GMT", Ghost(g))
        .step(-401320800, 0, 3600, "BST", Ghost(g))
        .step(-386200800, 0, 0, "GMT", Ghost(g))
        .step(-369266400, 0, 3600, "BST", Ghost(g))
        .step(-354751200, 0, 0, "GMT", Ghost(g))
        .step(-337816800, 0, 3600, "BST", Ghost(g))
        .step(-323301600, 0, 0, "GMT", Ghost(g))
        .step(-306972000, 0, 3600, "BST", Ghost(g))
        .step(-291852000, 0, 0, "GMT", Ghost(g))
        .step(-276732000, 0, 3600, "BST", Ghost(g))
        .step(-257983200, 0, 0, "GMT", Ghost(g))
        .step(-245282400, 0, 3600, "BST", Ghost(g))
        .step(-226533600, 0, 0, "GMT", Ghost(g))
        .step(-213228000, 0, 3600, "BST", Ghost(g))
        .step(-195084000, 0, 0, "GMT", Ghost(g))
        .step(-182383200, 0, 3600, "BST", Ghost(g))
        .step(-163634400, 0, 0, "GMT", Ghost(g))
        .step(-150933600, 0, 3600, "BST", Ghost(g))
        .step(-132184800, 0, 0, "GMT", Ghost(g))
        .step(-119484000, 0, 3600, "BST", Ghost(g))
        .step(-100735200, 0, 0, "GMT", Ghost(g))
        .step(-88034400, 0, 3600, "BST", Ghost(g))
        .step(-68680800, 0, 0, "GMT", Ghost(g))
        .step(-59004000, 0, 3600, "BST", Ghost(g))
        .step(-37242000, 3600, 0, "BST", Ghost(g))
        .step(57722400, 0, 0, "GMT", Ghost(g))
        .step(69818400, 0, 3600, "BST", Ghost(g))
        .step(89172000, 0, 0, "GMT", Ghost(g))
        .step(101268000, 0, 3600, "BST", Ghost(g))
        .step(120621600, 0, 0, "GMT", Ghost(g))
        .step(132717600, 0, 3600, "BST", Ghost(g))
        .step(152071200, 0, 0, "GMT", Ghost(g))
        .step(164167200, 0, 3600, "BST", Ghost(g))
        .step(183520800, 0, 0, "GMT", Ghost(g))
        .step(196221600, 0, 3600, "BST", Ghost(g))
        .step(214970400, 0, 0, "GMT", Ghost(g))
        .step(227671200, 0, 3600, "BST", Ghost(g))
        .step(246420000, 0, 0, "GMT", Ghost(g))
        .step(259120800, 0, 3600, "BST", Ghost(g))
        .step(278474400, 0, 0, "GMT", Ghost(g))
        .step(290570400, 0, 3600, "BST", Ghost(g))
        .step(309924000, 0, 0, "GMT", Ghost(g))
        .step(322020000, 0, 3600, "BST", Ghost(g))
        .step(341373600, 0, 0, "GMT", Ghost(g))
        .step(354675600, 0, 3600, "BST", Ghost(g))
        .step(372819600, 0, 0, "GMT", Ghost(g))
        .step(386125200, 0, 3600, "BST", Ghost(g))
        .step(404269200, 0, 0, "GMT", Ghost(g))
        .step(417574800, 0, 3600, "BST", Ghost(g))
        .step(435718800, 0, 0, "GMT", Ghost(g))
        .step(449024400, 0, 3600, "BST", Ghost(g))
        .step(467773200, 0, 0, "GMT", Ghost(g))
        .step(481078800, 0, 3600, "BST", Ghost(g))
        .step(499222800, 0, 0, "GMT", Ghost(g))
        .step(512528400, 0, 3600, "BST", Ghost(g))
        .step(530672400, 0, 0, "GMT", Ghost(g))
        .step(543978000, 0, 3600, "BST", Ghost(g))
        .step(562122000, 0, 0, "GMT", Ghost(g))
        .step(575427600, 0, 3600, "BST", Ghost(g))
        .step(593571600, 0, 0, "GMT", Ghost(g))
        .step(606877200, 0, 3600, "BST", Ghost(g))
        .step(625626000, 0, 0, "GMT", Ghost(g))
        .step(638326800, 0, 3600, "BST", Ghost(g))
        .step(657075600, 0, 0, "GMT", Ghost(g))
        .step(670381200, 0, 3600, "BST", Ghost(g))
        .step(688525200, 0, 0, "GMT", Ghost(g))
        .step(701830800, 0, 3600, "BST", Ghost(g))
        .step(719974800, 0, 0, "GMT", Ghost(g))
        .step(733280400, 0, 3600, "BST", Ghost(g))
        .step(751424400, 0, 0, "GMT", Ghost(g))
        .step(764730000, 0, 3600, "BST", Ghost(g))
        .step(782874000, 0, 0, "GMT", Ghost(g))
        .step(796179600, 0, 3600, "BST", Ghost(g))
        .step(814323600, 0, 0, "GMT", Ghost(g))
        .step(828234000, 0, 3600, "BST", Ghost(g))
        .step(846378000, 0, 0, "GMT", Ghost(g))
        .step(859683600, 0, 3600, "BST", Ghost(g))
        .step(877827600, 0, 0, "GMT", Ghost(g))
        .step(891133200, 0, 3600, "BST", Ghost(g))
        .step(909277200, 0, 0, "GMT", Ghost(g))
        .step(922582800, 0, 3600, "BST", Ghost(g))
        .step(941331600, 0, 0, "GMT", Ghost(g))
        .step(954032400, 0, 3600, "BST", Ghost(g))
        .step(972781200, 0, 0, "GMT", Ghost(g))
        .step(985482000, 0, 3600, "BST", Ghost(g))
        .step(1004230800, 0, 0, "GMT", Ghost(g))
        .step(1017536400, 0, 3600, "BST", Ghost(g))
        .step(1035680400, 0, 0, "GMT", Ghost(g))
        .step(1048986000, 0, 3600, "BST", Ghost(g))
        .step(1067130000, 0, 0, "GMT", Ghost(g))
        .step(1080435600, 0, 3600, "BST", Ghost(g))
        .step(1099184400, 0, 0, "GMT", Ghost(g))
        .step(1111885200, 0, 3600, "BST", Ghost(g))
        .step(1130634000, 0, 0, "GMT", Ghost(g))
        .step(1143334800, 0, 3600, "BST", Ghost(g))
        .step(1162083600, 0, 0, "GMT", Ghost(g))
        .step(1174784400, 0, 3600, "BST", Ghost(g))
        .step(1193533200, 0, 0, "GMT", Ghost(g))
        .step(1206838800, 0, 3600, "BST", Ghost(g))
        .step(1224982800, 0, 0, "GMT", Ghost(g))
        .step(1238288400, 0, 3600, "BST", Ghost(g))
        .step(1256432400, 0, 0, "GMT", Ghost(g))
        .step(1269738000, 0, 3600, "BST", Ghost(g))
        .step(1288486800, 0, 0, "GMT", Ghost(g))
        .step(1301187600, 0, 3600, "BST", Ghost(g))
        .step(1319936400, 0, 0, "GMT", Ghost(g))
        .step(1332637200, 0, 3600, "BST", Ghost(g))
        .step(1351386000, 0, 0, "GMT", Ghost(g))
        .step(1364691600, 0, 3600, "BST", Ghost(g))
        .step(1382835600, 0, 0, "GMT", Ghost(g))
        .step(1396141200, 0, 3600, "BST", Ghost(g))
        .step(1414285200, 0, 0, "GMT", Ghost(g))
        .step(1427590800, 0, 3600, "BST", Ghost(g))
        .step(1445734800, 0, 0, "GMT", Ghost(g))
        .step(1459040400, 0, 3600, "BST", Ghost(g))
        .step(1477789200, 0, 0, "GMT", Ghost(g))
        .step(1490490000, 0, 3600, "BST", Ghost(g))
        .step(1509238800, 0, 0, "GMT", Ghost(g))
        .step(1521939600, 0, 3600, "BST", Ghost(g))
        .step(1540688400, 0, 0, "GMT", Ghost(g))
        .step(1553994000, 0, 3600, "BST", Ghost(g))
        .step(1572138000, 0, 0, "GMT", Ghost(g))
        .step(1585443600, 0, 3600, "BST", Ghost(g))
        .step(1603587600, 0, 0, "GMT", Ghost(g))
        .step(1616893200, 0, 3600, "BST", Ghost(g))
        .step(1635642000, 0, 0, "GMT", Ghost(g))
        .step(1648342800, 0, 3600, "BST", Ghost(g))
        .step(1667091600, 0, 0, "GMT", Ghost(g))
        .step(1679792400, 0, 3600, "BST", Ghost(g))
        .step(1698541200, 0, 0, "GMT", Ghost(g))
        .step(1711846800, 0, 3600, "BST", Ghost(g))
        .step(1729990800, 0, 0, "GMT", Ghost(g))
        .step(1743296400, 0, 3600, "BST", Ghost(g))
        .step(1761440400, 0, 0, "GMT", Ghost(g))
        .step(1774746000, 0, 3600, "BST", Ghost(g))
        .step(1792890000, 0, 0, "GMT", Ghost(g))
        .step(1806195600, 0, 3600, "BST", Ghost(g))
        .step(1824944400, 0, 0, "GMT", Ghost(g))
        .step(1837645200, 0, 3600, "BST", Ghost(g))
        .step(1856394000, 0, 0, "GMT", Ghost(g))
        .step(1869094800, 0, 3600, "BST", Ghost(g))
        .step(1887843600, 0, 0, "GMT", Ghost(g))
        .step(1901149200, 0, 3600, "BST", Ghost(g))
        .step(1919293200, 0, 0, "GMT", Ghost(g))
        .step(1932598800, 0, 3600, "BST", Ghost(g))
        .step(1950742800, 0, 0, "GMT", Ghost(g))
        .step(1964048400, 0, 3600, "BST", Ghost(g))
        .step(1982797200, 0, 0, "GMT", Ghost(g))
        .step(1995498000, 0, 3600, "BST", Ghost(g))
        .step(2014246800, 0, 0, "GMT", Ghost(g))
        .step(2026947600, 0, 3600, "BST", Ghost(g))
        .step(2045696400, 0, 0, "GMT", Ghost(g))
        .step(2058397200, 0, 3600, "BST", Ghost(g))
        .step(2077146000, 0, 0, "GMT", Ghost(g))
        .step(2090451600, 0, 3600, "BST", Ghost(g))
        .step(2108595600, 0, 0, "GMT", Ghost(g))
        .step(2121901200, 0, 3600, "BST", Ghost(g))
        .step(2140045200, 0, 0, "GMT", Ghost(g))
        .finish(Ghost(g))
}

/// The zone `Europe/Belgrade`.
pub fn belgrade() -> (r: Tz)
    ensures
        r.wf(),
        r.zone_name() == "Europe/Belgrade"@,
        r.table() == tables::europe::belgrade(),
{
    let ghost g = tables::europe::belgrade_rows();
    FixedTimespanSet::begin("Europe/Belgrade", 4920, 0, "LMT", Ghost(g))
        .step(-2713915320, 3600, 0, "CET", Ghost(g))
        .step(-905824800, 3600, 3600, "CEST", Ghost(g))
        .step(-857257200, 3600, 0, "CET", Ghost(g))
        .step(-844556400, 3600, 3600, "CEST", Ghost(g))
        .step(-828226800, 3600, 0, "CET", Ghost(g))
        .step(-812502000, 3600, 3600, "CEST", Ghost(g))
        .step(-796777200, 3600, 0, "CET", Ghost(g))
        .step(-777942000, 3600, 3600, "CEST", Ghost(g))
        .step(-766623600, 3600, 0, "CET", Ghost(g))
        .step(417574800, 3600, 3600, "CEST", Ghost(g))
        .step(433299600, 3600, 0, "CET", Ghost(g))
        .step(449024400, 3600, 3600, "CEST", Ghost(g))
        .step(465354000, 3600, 0, "CET", Ghost(g))
        .step(481078800, 3600, 3600, "CEST", Ghost(g))
        .step(496803600, 3600, 0, "CET", Ghost(g))
        .step(512528400, 3600, 3600, "CEST", Ghost(g))
        .step(528253200, 3600, 0, "CET", Ghost(g))
        .step(543978000, 3600, 3600, "CEST", Ghost(g))
        .step(559702800, 3600, 0, "CET", Ghost(g))
        .step(575427600, 3600, 3600, "CEST", Ghost(g))
        .step(591152400, 3600, 0, "CET", Ghost(g))
        .step(606877200, 3600, 3600, "CEST", Ghost(g))
        .step(622602000, 3600, 0, "CET", Ghost(g))
        .step(638326800, 3600, 3600, "CEST", Ghost(g))
        .step(654656400, 3600, 0, "CET", Ghost(g))
        .step(670381200, 3600, 3600, "CEST", Ghost(g))
        .step(686106000, 3600, 0, "CET", Ghost(g))
        .step(701830800, 3600, 3600, "CEST", Ghost(g))
        .step(717555600, 3600, 0, "CET", Ghost(g))
        .step(733280400, 3600, 3600, "CEST", Ghost(g))
        .step(749005200, 3600, 0, "CET", Ghost(g))
        .step(764730000, 3600, 3600, "CEST", Ghost(g))
        .step(780454800, 3600, 0, "CET", Ghost(g))
        .step(796179600, 3600, 3600, "CEST", Ghost(g))
        .step(811904400, 3600, 0, "CET", Ghost(g))
        .step(828234000, 3600, 3600, "CEST", Ghost(g))
        .step(846378000, 3600, 0, "CET", Ghost(g))
        .step(859683600, 3600, 3600, "CEST", Ghost(g))
        .step(877827600, 3600, 0, "CET", Ghost(g))
        .step(891133200, 3600, 3600, "CEST", Ghost(g))
        .step(909277200, 3600, 0, "CET", Ghost(g))
        .step(922582800, 3600, 3600, "CEST", Ghost(g))
        .step(941331600, 3600, 0, "CET", Ghost(g))
        .step(954032400, 3600, 3600, "CEST", Ghost(g))
        .step(972781200, 3600, 0, "CET", Ghost(g))
        .step(985482000, 3600, 3600, "CEST", Ghost(g))
        .step(1004230800, 3600, 0, "CET", Ghost(g))
        .step(1017536400, 3600, 3600, "CEST", Ghost(g))
        .step(1035680400, 3600, 0, "CET", Ghost(g))
        .step(1048986000, 3600, 3600, "CEST", Ghost(g))
        .step(1067130000, 3600, 0, "CET", Ghost(g))
        .step(1080435600, 3600, 3600, "CEST", Ghost(g))
        .step(1099184400, 3600, 0, "CET", Ghost(g))
        .step(1111885200, 3600, 3600, "CEST", Ghost(g))
        .step(1130634000, 3600, 0, "CET", Ghost(g))
        .step(1143334800, 3600, 3600, "CEST", Ghost(g))
        .step(1162083600, 3600, 0, "CET", Ghost(g))
        .step(1174784400, 3600, 3600, "CEST", Ghost(g))
        .step(1193533200, 3600, 0, "CET", Ghost(g))
        .step(1206838800, 3600, 3600, "CEST", Ghost(g))
        .step(1224982800, 3600, 0, "CET", Ghost(g))
        .step(1238288400, 3600, 3600, "CEST", Ghost(g))
        .step(1256432400, 3600, 0, "CET", Ghost(g))
        .step(1269738000, 3600, 3600, "CEST", Ghost(g))
        .step(1288486800, 3600, 0, "CET", Ghost(g))
        .step(1301187600, 3600, 3600, "CEST", Ghost(g))
        .step(1319936400, 3600, 0, "CET", Ghost(g))
        .step(1332637200, 3600, 3600, "CEST", Ghost(g))
        .step(1351386000, 3600, 0, "CET", Ghost(g))
        .step(1364691600, 3600, 3600, "CEST", Ghost(g))
        .step(1382835600, 3600, 0, "CET", Ghost(g))
        .step(1396141200, 3600, 3600, "CEST", Ghost(g))
        .step(1414285200, 3600, 0, "CET", Ghost(g))
        .step(1427590800, 3600, 3600, "CEST", Ghost(g))
        .step(1445734800, 3600, 0, "CET", Ghost(g))
        .step(1459040400, 3600, 3600, "CEST", Ghost(g))
        .step(1477789200, 3600, 0, "CET", Ghost(g))
        .step(1490490000, 3600, 3600, "CEST", Ghost(g))
        .step(1509238800, 3600, 0, "CET", Ghost(g))
        .step(1521939600, 3600, 3600, "CEST", Ghost(g))
        .step(1540688400, 3600, 0, "CET", Ghost(g))
        .step(1553994000, 3600, 3600, "CEST", Ghost(g))
        .step(1572138000, 3600, 0, "CET", Ghost(g))
        .step(1585443600, 3600, 3600, "CEST", Ghost(g))
        .step(1603587600, 3600, 0, "CET", Ghost(g))
        .step(1616893200, 3600, 3600, "CEST", Ghost(g))
        .step(1635642000, 3600, 0, "CET", Ghost(g))
        .step(1648342800, 3600, 3600, "CEST", Ghost(g))
        .step(1667091600, 3600, 0, "CET", Ghost(g))
        .step(1679792400, 3600, 3600, "CEST", Ghost(g))
        .step(1698541200, 3600, 0, "CET", Ghost(g))
        .step(1711846800, 3600, 3600, "CEST", Ghost(g))
        .step(1729990800, 3600, 0, "CET", Ghost(g))
        .step(1743296400, 3600, 3600, "CEST", Ghost(g))
        .step(1761440400, 3600, 0, "CET", Ghost(g))
        .step(1774746000, 3600, 3600, "CEST", Ghost(g))
        .step(1792890000, 3600, 0, "CET", Ghost(g))
        .step(1806195600, 3600, 3600, "CEST", Ghost(g))
        .step(1824944400, 3600, 0, "CET", Ghost(g))
        .step(1837645200, 3600, 3600, "CEST", Ghost(g))
        .step(1856394000, 3600, 0, "CET", Ghost(g))
        .step(1869094800, 3600, 3600, "CEST", Ghost(g))
        .step(1887843600, 3600, 0, "CET", Ghost(g))
        .step(1901149200, 3600, 3600, "CEST", Ghost(g))
        .step(1919293200, 3600, 0, "CET", Ghost(g))
        .step(1932598800, 3600, 3600, "CEST", Ghost(g))
        .step(1950742800, 3600, 0, "CET", Ghost(g))
        .step(1964048400, 3600, 3600, "CEST", Ghost(g))
        .step(1982797200, 3600, 0, "CET", Ghost(g))
        .step(1995498000, 3600, 3600, "CEST", Ghost(g))
        .step(2014246800, 3600, 0, "CET", Ghost(g))
        .step(2026947600, 3600, 3600, "CEST", Ghost(g))
        .step(2045696400, 3600, 0, "CET", Ghost(g))
        .step(2058397200, 3600, 3600, "CEST", Ghost(g))
        .step(2077146000, 3600, 0, "CET", Ghost(g))
        .step(2090451600, 3600, 3600, "CEST", Ghost(g))
        .step(2108595600, 3600, 0, "CET", Ghost(g))
        .step(2121901200, 3600, 3600, "CEST", Ghost(g))
        .step(2140045200, 3600, 0, "CET", Ghost(g))
        .finish(Ghost(g))
}

/// The zone `Europe/Berlin`.
pub fn berlin() -> (r: Tz)
    ensures
        r.wf(),
        r.zone_name() == "Europe/Berlin"@,
        r.table() == tables::europe::berlin(),
{
    let ghost g = tables::europe::berlin_rows();
    FixedTimespanSet::begin("Europe/Berlin", 3208, 0, "LMT", Ghost(g))
        .step(-2422054408, 3600, 0, "CET", Ghost(g))
        .step(-1693706400, 3600, 3600, "CEST", Ghost(g))
        .step(-1680483600, 3600, 0, "CET", Ghost(g))
        .step(-1663455600, 3600, 3600, "CEST", Ghost(g))
        .step(-1650150000, 3600, 0, "CET", Ghost(g))
        .step(-1632006000, 3600, 3600, "CEST", Ghost(g))
        .step(-1618700400, 3600, 0, "CET", Ghost(g))
        .step(-938905200, 3600, 3600, "CEST", Ghost(g))
        .step(-857257200, 3600, 0, "CET", Ghost(g))
        .step(-844556400, 3600, 3600, "CEST", Ghost(g))
        .step(-828226800, 3600, 0, "CET", Ghost(g))
        .step(-812502000, 3600, 3600, "CEST", Ghost(g))
        .step(-796777200, 3600, 0, "CET", Ghost(g))
        .step(-781052400, 3600, 3600, "CEST", Ghost(g))
        .step(-776563200, 3600, 7200, "CEMT", Ghost(g))
        .step(-765936000, 3600, 3600, "CEST", Ghost(g))
        .step(-761180400, 3600, 0, "CET", Ghost(g))
        .step(-748479600, 3600, 3600, "CEST", Ghost(g))
        .step(-733273200, 3600, 0, "CET", Ghost(g))
        .step(-717631200, 3600, 3600, "CEST", Ghost(g))
        .step(-714610800, 3600, 7200, "CEMT", Ghost(g))
        .step(-710380800, 3600, 3600, "CEST", Ghost(g))
        .step(-701910000, 3600, 0, "CET", Ghost(g))
        .step(-684975600, 3600, 3600, "CEST", Ghost(g))
        .step(-670460400, 3600, 0, "CET", Ghost(g))
        .step(-654130800, 3600, 3600, "CEST", Ghost(g))
        .step(-639010800, 3600, 0, "CET", Ghost(g))
        .step(323830800, 3600, 3600, "CEST", Ghost(g))
        .step(338950800, 3600, 0, "CET", Ghost(g))
        .step(354675600, 3600, 3600, "CEST", Ghost(g))
        .step(370400400, 3600, 0, "CET", Ghost(g))
        .step(386125200, 3600, 3600, "CEST", Ghost(g))
        .step(401850000, 3600, 0, "CET", Ghost(g))
        .step(417574800, 3600, 3600, "CEST", Ghost(g))
        .step(433299600, 3600, 0, "CET", Ghost(g))
        .step(449024400, 3600, 3600, "CEST", Ghost(g))
        .step(465354000, 3600, 0, "CET", Ghost(g))
        .step(481078800, 3600, 3600, "CEST", Ghost(g))
        .step(496803600, 3600, 0, "CET", Ghost(g))
        .step(512528400, 3600, 3600, "CEST", Ghost(g))
        .step(528253200, 3600, 0, "CET", Ghost(g))
        .step(543978000, 3600, 3600, "CEST", Ghost(g))
        .step(559702800, 3600, 0, "CET", Ghost(g))
        .step(575427600, 3600, 3600, "CEST", Ghost(g))
        .step(591152400, 3600, 0, "CET", Ghost(g))
        .step(606877200, 3600, 3600, "CEST", Ghost(g))
        .step(622602000, 3600, 0, "CET", Ghost(g))
        .step(638326800, 3600, 3600, "CEST", Ghost(g))
        .step(654656400, 3600, 0, "CET", Ghost(g))
        .step(670381200, 3600, 3600, "CEST", Ghost(g))
        .step(686106000, 3600, 0, "CET", Ghost(g))
        .step(701830800, 3600, 3600, "CEST", Ghost(g))
        .step(717555600, 3600, 0, "CET", Ghost(g))
        .step(733280400, 3600, 3600, "CEST", Ghost(g))
        .step(749005200, 3600, 0, "CET", Ghost(g))
        .step(764730000, 3600, 3600, "CEST", Ghost(g))
        .step(780454800, 3600, 0, "CET", Ghost(g))
        .step(796179600, 3600, 3600, "CEST", Ghost(g))
        .step(811904400, 3600, 0, "CET", Ghost(g))
        .step(828234000, 3600, 3600, "CEST", Ghost(g))
        .step(846378000, 3600, 0, "CET", Ghost(g))
        .step(859683600, 3600, 3600, "CEST", Ghost(g))
        .step(877827600, 3600, 0, "CET", Ghost(g))
        .step(891133200, 3600, 3600, "CEST", Ghost(g))
        .step(909277200, 3600, 0, "CET", Ghost(g))
        .step(922582800, 3600, 3600, "CEST", Ghost(g))
        .step(941331600, 3600, 0, "CET", Ghost(g))
        .step(954032400, 3600, 3600, "CEST", Ghost(g))
        .step(972781200, 3600, 0, "CET", Ghost(g))
        .step(985482000, 3600, 3600, "CEST", Ghost(g))
        .step(1004230800, 3600, 0, "CET", Ghost(g))
        .step(1017536400, 3600, 3600, "CEST", Ghost(g))
        .step(1035680400, 3600, 0, "CET", Ghost(g))
        .step(1048986000, 3600, 3600, "CEST", Ghost(g))
        .step(1067130000, 3600, 0, "CET", Ghost(g))
        .step(1080435600, 3600, 3600, "CEST", Ghost(g))
        .step(1099184400, 3600, 0, "CET", Ghost(g))
        .step(1111885200, 3600, 3600, "CEST", Ghost(g))
        .step(1130634000, 3600, 0, "CET", Ghost(g))
        .step(1143334800, 3600, 3600, "CEST", Ghost(g))
        .step(1162083600, 3600, 0, "CET", Ghost(g))
        .step(1174784400, 3600, 3600, "CEST", Ghost(g))
        .step(1193533200, 3600, 0, "CET", Ghost(g))
        .step(1206838800, 3600, 3600, "CEST", Ghost(g))
        .step(1224982800, 3600, 0, "CET", Ghost(g))
        .step(1238288400, 3600, 3600, "CEST", Ghost(g))
        .step(1256432400, 3600, 0, "CET", Ghost(g))
        .step(1269738000, 3600, 3600, "CEST", Ghost(g))
        .step(1288486800, 3600, 0, "CET", Ghost(g))
        .step(1301187600, 3600, 3600, "CEST", Ghost(g))
        .step(1319936400, 3600, 0, "CET", Ghost(g))
        .step(1332637200, 3600, 3600, "CEST", Ghost(g))
        .step(1351386000, 3600, 0, "CET", Ghost(g))
        .step(1364691600, 3600, 3600, "CEST", Ghost(g))
        .step(1382835600, 3600, 0, "CET", Ghost(g))
        .step(1396141200, 3600, 3600, "CEST", Ghost(g))
        .step(1414285200, 3600, 0, "CET", Ghost(g))
        .step(1427590800, 3600, 3600, "CEST", Ghost(g))
        .step(1445734800, 3600, 0, "CET", Ghost(g))
        .step(1459040400, 3600, 3600, "CEST", Ghost(g))
        .step(1477789200, 3600, 0, "CET", Ghost(g))
        .step(1490490000, 3600, 3600, "CEST", Ghost(g))
        .step(1509238800, 3600, 0, "CET", Ghost(g))
        .step(1521939600, 3600, 3600, "CEST", Ghost(g))
        .step(1540688400, 3600, 0, "CET", Ghost(g))
        .step(1553994000, 3600, 3600, "CEST", Ghost(g))
        .step(1572138000, 3600, 0, "CET", Ghost(g))
        .step(1585443600, 3600, 3600, "CEST", Ghost(g))
        .step(1603587600, 3600, 0, "CET", Ghost(g))
        .step(1616893200, 3600, 3600, "CEST", Ghost(g))
        .step(1635642000, 3600, 0, "CET", Ghost(g))
        .step(1648342800, 3600, 3600, "CEST", Ghost(g))
        .step(1667091600, 3600, 0, "CET", Ghost(g))
        .step(1679792400, 3600, 3600, "CEST", Ghost(g))
        .step(1698541200, 3600, 0, "CET", Ghost(g))
        .step(1711846800, 3600, 3600, "CEST", Ghost(g))
        .step(1729990800, 3600, 0, "CET", Ghost(g))
        .step(1743296400, 3600, 3600, "CEST", Ghost(g))
        .step(1761440400, 3600, 0, "CET", Ghost(g))
        .step(1774746000, 3600, 3600, "CEST", Ghost(g))
        .step(1792890000, 3600, 0, "CET", Ghost(g))
        .step(1806195600, 3600, 3600, "CEST", Ghost(g))
        .step(1824944400, 3600, 0, "CET", Ghost(g))
        .step(1837645200, 3600, 3600, "CEST", Ghost(g))
        .step(1856394000, 3600, 0, "CET", Ghost(g))
        .step(1869094800, 3600, 3600, "CEST", Ghost(g))
        .step(1887843600, 3600, 0, "CET", Ghost(g))
        .step(1901149200, 3600, 3600, "CEST", Ghost(g))
        .step(1919293200, 3600, 0, "CET", Ghost(g))
        .step(1932598800, 3600, 3600, "CEST", Ghost(g))
        .step(1950742800, 3600, 0, "CET", Ghost(g))
        .step(1964048400, 3600, 3600, "CEST", Ghost(g))
        .step(1982797200, 3600, 0, "CET", Ghost(g))
        .step(1995498000, 3600, 3600, "CEST", Ghost(g))
        .step(2014246800, 3600, 0, "CET", Ghost(g))
        .step(2026947600, 3600, 3600, "CEST", Ghost(g))
        .step(2045696400, 3600, 0, "CET", Ghost(g))
        .step(2058397200, 3600, 3600, "CEST", Ghost(g))
        .step(2077146000, 3600, 0, "CET", Ghost(g))
        .step(2090451600, 3600, 3600, "CEST", Ghost(g))
        .step(2108595600, 3600, 0, "CET", Ghost(g))
        .step(2121901200, 3600, 3600, "CEST", Ghost(g))
        .step(2140045200, 3600, 0, "CET", Ghost(g))
        .finish(Ghost(g))
}

/// The zone `Europe/Bratislava`.
pub fn bratislava() -> (r: Tz)
    ensures
        r.wf(),
        r.zone_name() == "Europe/Bratislava"@,
        r.table() == tables::europe::bratislava(),
{
    let ghost g = tables::europe::bratislava_rows();
    FixedTimespanSet::begin("Europe/Bratislava", 3464, 0, "LMT", Ghost(g))
        .step(-3786829064, 3464, 0, "PMT", Ghost(g))
        .step(-2469401864, 3600, 0, "CET", Ghost(g))
        .step(-1693706400, 3600, 3600, "CEST", Ghost(g))
        .step(-1680483600, 3600, 0, "CET", Ghost(g))
        .step(-1663455600, 3600, 3600, "CEST", Ghost(g))
        .step(-1650150000, 3600, 0, "CET", Ghost(g))
        .step(-1632006000, 3600, 3600, "CEST", Ghost(g))
        .step(-1618700400, 3600, 0, "CET", Ghost(g))
        .step(-938905200, 3600, 3600, "CEST", Ghost(g))
        .step(-857257200, 3600, 0, "CET", Ghost(g))
        .step(-844556400, 3600, 3600, "CEST", Ghost(g))
        .step(-828226800, 3600, 0, "CET", Ghost(g))
        .step(-812502000, 3600, 3600, "CEST", Ghost(g))
        .step(-796777200, 3600, 0, "CET", Ghost(g))
        .step(-781052400, 3600, 3600, "CEST", Ghost(g))
        .step(-765327600, 3600, 0, "CET", Ghost(g))
        .step(-746578800, 3600, 3600, "CEST", Ghost(g))
        .step(-733359600, 3600, 0, "CET", Ghost(g))
        .step(-728517600, -3600, 3600, "GMT", Ghost(g))
        .step(-721260000, 3600, 0, "CET", Ghost(g))
        .step(-716425200, 3600, 3600, "CEST", Ghost(g))
        .step(-701910000, 3600, 0, "CET", Ghost(g))
        .step(-684975600, 3600, 3600, "CEST", Ghost(g))
        .step(-670460400, 3600, 0, "CET", Ghost(g))
        .step(-654217200, 3600, 3600, "CEST", Ghost(g))
        .step(-639010800, 3600, 0, "CET", Ghost(g))
        .step(291776400, 3600, 3600, "CEST", Ghost(g))
        .step(307501200, 3600, 0, "CET", Ghost(g))
        .step(323830800, 3600, 3600, "CEST", Ghost(g))
        .step(338950800, 3600, 0, "CET", Ghost(g))
        .step(354675600, 3600, 3600, "CEST", Ghost(g))
        .step(370400400, 3600, 0, "CET", Ghost(g))
        .step(386125200, 3600, 3600, "CEST", Ghost(g))
        .step(401850000, 3600, 0, "CET", Ghost(g))
        .step(417574800, 3600, 3600, "CEST", Ghost(g))
        .step(433299600, 3600, 0, "CET", Ghost(g))
        .step(449024400, 3600, 3600, "CEST", Ghost(g))
        .step(465354000, 3600, 0, "CET", Ghost(g))
        .step(481078800, 3600, 3600, "CEST", Ghost(g))
        .step(496803600, 3600, 0, "CET", Ghost(g))
        .step(512528400, 3600, 3600, "CEST", Ghost(g))
        .step(528253200, 3600, 0, "CET", Ghost(g))
        .step(543978000, 3600, 3600, "CEST", Ghost(g))
        .step(559702800, 3600, 0, "CET", Ghost(g))
        .step(575427600, 3600, 3600, "CEST", Ghost(g))
        .step(591152400, 3600, 0, "CET", Ghost(g))
        .step(606877200, 3600, 3600, "CEST", Ghost(g))
        .step(622602000, 3600, 0, "CET", Ghost(g))
        .step(638326800, 3600, 3600, "CEST", Ghost(g))
        .step(654656400, 3600, 0, "CET", Ghost(g))
        .step(670381200, 3600, 3600, "CEST", Ghost(g))
        .step(686106000, 3600, 0, "CET", Ghost(g))
        .step(701830800, 3600, 3600, "CEST", Ghost(g))
        .step(717555600, 3600, 0, "CET", Ghost(g))
        .step(733280400, 3600, 3600, "CEST", Ghost(g))
        .step(749005200, 3600, 0, "CET", Ghost(g))
        .step(764730000, 3600, 3600, "CEST", Ghost(g))
        .step(780454800, 3600, 0, "CET", Ghost(g))
        .step(796179600, 3600, 3600, "CEST", Ghost(g))
        .step(811904400, 3600, 0, "CET", Ghost(g))
        .step(828234000, 3600, 3600, "CEST", Ghost(g))
        .step(846378000, 3600, 0, "CET", Ghost(g))
        .step(859683600, 3600, 3600, "CEST", Ghost(g))
        .step(877827600, 3600, 0, "CET", Ghost(g))
        .step(891133200, 3600, 3600, "CEST", Ghost(g))
        .step(909277200, 3600, 0, "CET", Ghost(g))
        .step(922582800, 3600, 3600, "CEST", Ghost(g))
        .step(941331600, 3600, 0, "CET", Ghost(g))
        .step(954032400, 3600, 3600, "CEST", Ghost(g))
        .step(972781200, 3600, 0, "CET", Ghost(g))
        .step(985482000, 3600, 3600, "CEST", Ghost(g))
        .step(1004230800, 3600, 0, "CET", Ghost(g))
        .step(1017536400, 3600, 3600, "CEST", Ghost(g))
        .step(1035680400, 3600, 0, "CET", Ghost(g))
        .step(1048986000, 3600, 3600, "CEST", Ghost(g))
        .step(1067130000, 3600, 0, "CET", Ghost(g))
        .step(1080435600, 3600, 3600, "CEST", Ghost(g))
        .step(1099184400, 3600, 0, "CET", Ghost(g))
        .step(1111885200, 3600, 3600, "CEST", Ghost(g))
        .step(1130634000, 3600, 0, "CET", Ghost(g))
        .step(1143334800, 3600, 3600, "CEST", Ghost(g))
        .step(1162083600, 3600, 0, "CET", Ghost(g))
        .step(1174784400, 3600, 3600, "CEST", Ghost(g))
        .step(1193533200, 3600, 0, "CET", Ghost(g))
        .step(1206838800, 3600, 3600, "CEST", Ghost(g))
        .step(1224982800, 3600, 0, "CET", Ghost(g))
        .step(1238288400, 3600, 3600, "CEST", Ghost(g))
        .step(1256432400, 3600, 0, "CET", Ghost(g))
        .step(1269738000, 3600, 3600, "CEST", Ghost(g))
        .step(1288486800, 3600, 0, "CET", Ghost(g))
        .step(1301187600, 3600, 3600, "CEST", Ghost(g))
        .step(1319936400, 3600, 0, "CET", Ghost(g))
        .step(1332637200, 3600, 3600, "CEST", Ghost(g))
        .step(1351386000, 3600, 0, "CET", Ghost(g))
        .step(1364691600, 3600, 3600, "CEST", Ghost(g))
        .step(1382835600, 3600, 0, "CET", Ghost(g))
        .step(1396141200, 3600, 3600, "CEST", Ghost(g))
        .step(1414285200, 3600, 0, "CET", Ghost(g))
        .step(1427590800, 3600, 3600, "CEST", Ghost(g))
        .step(1445734800, 3600, 0, "CET", Ghost(g))
        .step(1459040400, 3600, 3600, "CEST", Ghost(g))
        .step(1477789200, 3600, 0, "CET", Ghost(g))
        .step(1490490000, 3600, 3600, "CEST", Ghost(g))
        .step(1509238800, 3600, 0, "CET", Ghost(g))
        .step(1521939600, 3600, 3600, "CEST", Ghost(g))
        .step(1540688400, 3600, 0, "CET", Ghost(g))
        .step(1553994000, 3600, 3600, "CEST", Ghost(g))
        .step(1572138000, 3600, 0, "CET", Ghost(g))
        .step(1585443600, 3600, 3600, "CEST", Ghost(g))
        .step(1603587600, 3600, 0, "CET", Ghost(g))
        .step(1616893200, 3600, 3600, "CEST", Ghost(g))
        .step(1635642000, 3600, 0, "CET", Ghost(g))
        .step(1648342800, 3600, 3600, "CEST", Ghost(g))
        .step(1667091600, 3600, 0, "CET", Ghost(g))
        .step(1679792400, 3600, 3600, "CEST", Ghost(g))
        .step(1698541200, 3600, 0, "CET", Ghost(g))
        .step(1711846800, 3600, 3600, "CEST", Ghost(g))
        .step(1729990800, 3600, 0, "CET", Ghost(g))
        .step(1743296400, 3600, 3600, "CEST", Ghost(g))
        .step(1761440400, 3600, 0, "CET", Ghost(g))
        .step(1774746000, 3600, 3600, "CEST", Ghost(g))
        .step(1792890000, 3600, 0, "CET", Ghost(g))
        .step(1806195600, 3600, 3600, "CEST", Ghost(g))
        .step(1824944400, 3600, 0, "CET", Ghost(g))
        .step(1837645200, 3600, 3600, "CEST", Ghost(g))
        .step(1856394000, 3600, 0, "CET", Ghost(g))
        .step(1869094800, 3600, 3600, "CEST", Ghost(g))
        .step(1887843600, 3600, 0, "CET", Ghost(g))
        .step(1901149200, 3600, 3600, "CEST", Ghost(g))
        .step(1919293200, 3600, 0, "CET", Ghost(g))
        .step(1932598800, 3600, 3600, "CEST", Ghost(g))
        .step(1950742800, 3600, 0, "CET", Ghost(g))
        .step(1964048400, 3600, 3600, "CEST", Ghost(g))
        .step(1982797200, 3600, 0, "CET", Ghost(g))
        .step(1995498000, 3600, 3600, "CEST", Ghost(g))
        .step(2014246800, 3600, 0, "CET", Ghost(g))
        .step(2026947600, 3600, 3600, "CEST", Ghost(g))
        .step(2045696400, 3600, 0, "CET", Ghost(g))
        .step(2058397200, 3600, 3600, "CEST", Ghost(g))
        .step(2077146000, 3600, 0, "CET", Ghost(g))
        .step(2090451600, 3600, 3600, "CEST", Ghost(g))
        .step(2108595600, 3600, 0, "CET", Ghost(g))
        .step(2121901200, 3600, 3600, "CEST", Ghost(g))
        .step(2140045200, 3600, 0, "CET", Ghost(g))
        .finish(Ghost(g))
}

/// The zone `Europe/Brussels`.
pub fn brussels() -> (r: Tz)
    ensures
        r.wf(),
        r.zone_name() == "Europe/Brussels"@,
        r.table() == tables::europe::brussels(),
{
    let ghost g = tables::europe::brussels_rows();
    FixedTimespanSet::begin("Europe/Brussels", 1050, 0, "LMT", Ghost(g))
        .step(-2840141850, 1050, 0, "BMT", Ghost(g))
        .step(-2450995200, 0, 0, "WET", Ghost(g))
        .step(-1740355200, 3600, 0, "CET", Ghost(g))
        .step(-1693702800, 3600, 3600, "CEST", Ghost(g))
        .step(-1680483600, 3600, 0, "CET", Ghost(g))
        .step(-1663455600, 3600, 3600, "CEST", Ghost(g))
        .step(-1650150000, 3600, 0, "CET", Ghost(g))
        .step(-1632006000, 3600, 3600, "CEST", Ghost(g))
        .step(-1618700400, 3600, 0, "CET", Ghost(g))
        .step(-1613826000, 0, 0, "WET", Ghost(g))
        .step(-1604278800, 0, 3600, "WEST", Ghost(g))
        .step(-1585530000, 0, 0, "WET", Ghost(g))
        .step(-1574038800, 0, 3600, "WEST", Ghost(g))
        .step(-1552266000, 0, 0, "WET", Ghost(g))
        .step(-1539997200, 0, 3600, "WEST", Ghost(g))
        .step(-1520557200, 0, 0, "WET", Ghost(g))
        .step(-1507510800, 0, 3600, "WEST", Ghost(g))
        .step(-1490576400, 0, 0, "WET", Ghost(g))
        .step(-1473642000, 0, 3600, "WEST", Ghost(g))
        .step(-1459126800, 0, 0, "WET", Ghost(g))
        .step(-1444006800, 0, 3600, "WEST", Ghost(g))
        .step(-1427677200, 0, 0, "WET", Ghost(g))
        .step(-1411952400, 0, 3600, "WEST", Ghost(g))
        .step(-1396227600, 0, 0, "WET", Ghost(g))
        .step(-1379293200, 0, 3600, "WEST", Ghost(g))
        .step(-1364778000, 0, 0, "WET", Ghost(g))
        .step(-1348448400, 0, 3600, "WEST", Ghost(g))
        .step(-1333328400, 0, 0, "WET", Ghost(g))
        .step(-1316394000, 0, 3600, "WEST", Ghost(g))
        .step(-1301263200, 0, 0, "WET", Ghost(g))
        .step(-1284328800, 0, 3600, "WEST", Ghost(g))
        .step(-1269813600, 0, 0, "WET", Ghost(g))
        .step(-1253484000, 0, 3600, "WEST", Ghost(g))
        .step(-1238364000, 0, 0, "WET", Ghost(g))
        .step(-1221429600, 0, 3600, "WEST", Ghost(g))
        .step(-1206914400, 0, 0, "WET", Ghost(g))
        .step(-1191189600, 0, 3600, "WEST", Ghost(g))
        .step(-1175464800, 0, 0, "WET", Ghost(g))
        .step(-1160344800, 0, 3600, "WEST", Ghost(g))
        .step(-1143410400, 0, 0, "WET", Ghost(g))
        .step(-1127685600, 0, 3600, "WEST", Ghost(g))
        .step(-1111960800, 0, 0, "WET", Ghost(g))
        .step(-1096840800, 0, 3600, "WEST", Ghost(g))
        .step(-1080511200, 0, 0, "WET", Ghost(g))
        .step(-1063576800, 0, 3600, "WEST", Ghost(g))
        .step(-1049061600, 0, 0, "WET", Ghost(g))
        .step(-1033336800, 0, 3600, "WEST", Ghost(g))
        .step(-1017612000, 0, 0, "WET", Ghost(g))
        .step(-1002492000, 0, 3600, "WEST", Ghost(g))
        .step(-986162400, 0, 0, "WET", Ghost(g))
        .step(-969228000, 0, 3600, "WEST", Ghost(g))
        .step(-950479200, 0, 0, "WET", Ghost(g))
        .step(-942012000, 0, 3600, "WEST", Ghost(g))
        .step(-934668000, 0, 7200, "CEST", Ghost(g))
        .step(-857257200, 3600, 0, "CET", Ghost(g))
        .step(-844556400, 3600, 3600, "CEST", Ghost(g))
        .step(-828226800, 3600, 0, "CET", Ghost(g))
        .step(-812502000, 3600, 3600, "CEST", Ghost(g))
        .step(-798073200, 3600, 0, "CET", Ghost(g))
        .step(-781052400, 3600, 3600, "CEST", Ghost(g))
        .step(-766623600, 3600, 0, "CET", Ghost(g))
        .step(-745455600, 3600, 3600, "CEST", Ghost(g))
        .step(-733273200, 3600, 0, "CET", Ghost(g))
        .step(228877200, 3600, 3600, "CEST", Ghost(g))
        .step(243997200, 3600, 0, "CET", Ghost(g))
        .step(260326800, 3600, 3600, "CEST", Ghost(g))
        .step(276051600, 3600, 0, "CET", Ghost(g))
        .step(291776400, 3600, 3600, "CEST", Ghost(g))
        .step(307501200, 3600, 0, "CET", Ghost(g))
        .step(323830800, 3600, 3600, "CEST", Ghost(g))
        .step(338950800, 3600, 0, "CET", Ghost(g))
        .step(354675600, 3600, 3600, "CEST", Ghost(g))
        .step(370400400, 3600, 0, "CET", Ghost(g))
        .step(386125200, 3600, 3600, "CEST", Ghost(g))
        .step(401850000, 3600, 0, "CET", Ghost(g))
        .step(417574800, 3600, 3600, "CEST", Ghost(g))
        .step(433299600, 3600, 0, "CET", Ghost(g))
        .step(449024400, 3600, 3600, "CEST", Ghost(g))
        .step(465354000, 3600, 0, "CET", Ghost(g))
        .step(481078800, 3600, 3600, "CEST", Ghost(g))
        .step(496803600, 3600, 0, "CET", Ghost(g))
        .step(512528400, 3600, 3600, "CEST", Ghost(g))
        .step(528253200, 3600, 0, "CET", Ghost(g))
        .step(543978000, 3600, 3600, "CEST", Ghost(g))
        .step(559702800, 3600, 0, "CET", Ghost(g))
        .step(575427600, 3600, 3600, "CEST", Ghost(g))
        .step(591152400, 3600, 0, "CET", Ghost(g))
        .step(606877200, 3600, 3600, "CEST", Ghost(g))
        .step(622602000, 3600, 0, "CET", Ghost(g))
        .step(638326800, 3600, 3600, "CEST", Ghost(g))
        .step(654656400, 3600, 0, "CET", Ghost(g))
        .step(670381200, 3600, 3600, "CEST", Ghost(g))
        .step(686106000, 3600, 0, "CET", Ghost(g))
        .step(701830800, 3600, 3600, "CEST", Ghost(g))
        .step(717555600, 3600, 0, "CET", Ghost(g))
        .step(733280400, 3600, 3600, "CEST", Ghost(g))
        .step(749005200, 3600, 0, "CET", Ghost(g))
        .step(764730000, 3600, 3600, "CEST", Ghost(g))
        .step(780454800, 3600, 0, "CET", Ghost(g))
        .step(796179600, 3600, 3600, "CEST", Ghost(g))
        .step(811904400, 3600, 0, "CET", Ghost(g))
        .step(828234000, 3600, 3600, "CEST", Ghost(g))
        .step(846378000, 3600, 0, "CET", Ghost(g))
        .step(859683600, 3600, 3600, "CEST", Ghost(g))
        .step(877827600, 3600, 0, "CET", Ghost(g))
        .step(891133200, 3600, 3600, "CEST", Ghost(g))
        .step(909277200, 3600, 0, "CET", Ghost(g))
        .step(922582800, 3600, 3600, "CEST", Ghost(g))
        .step(941331600, 3600, 0, "CET", Ghost(g))
        .step(954032400, 3600, 3600, "CEST", Ghost(g))
        .step(972781200, 3600, 0, "CET", Ghost(g))
        .step(985482000, 3600, 3600, "CEST", Ghost(g))
        .step(1004230800, 3600, 0, "CET", Ghost(g))
        .step(1017536400, 3600, 3600, "CEST", Ghost(g))
        .step(1035680400, 3600, 0, "CET", Ghost(g))
        .step(1048986000, 3600, 3600, "CEST", Ghost(g))
        .step(1067130000, 3600, 0, "CET", Ghost(g))
        .step(1080435600, 3600, 3600, "CEST", Ghost(g))
        .step(1099184400, 3600, 0, "CET", Ghost(g))
        .step(1111885200, 3600, 3600, "CEST", Ghost(g))
        .step(1130634000, 3600, 0, "CET", Ghost(g))
        .step(1143334800, 3600, 3600, "CEST", Ghost(g))
        .step(1162083600, 3600, 0, "CET", Ghost(g))
        .step(1174784400, 3600, 3600, "CEST", Ghost(g))
        .step(1193533200, 3600, 0, "CET", Ghost(g))
        .step(1206838800, 3600, 3600, "CEST", Ghost(g))
        .step(1224982800, 3600, 0, "CET", Ghost(g))
        .step(1238288400, 3600, 3600, "CEST", Ghost(g))
        .step(1256432400, 3600, 0, "CET", Ghost(g))
        .step(1269738000, 3600, 3600, "CEST", Ghost(g))
        .step(1288486800, 3600, 0, "CET", Ghost(g))
        .step(1301187600, 3600, 3600, "CEST", Ghost(g))
        .step(1319936400, 3600, 0, "CET", Ghost(g))
        .step(1332637200, 3600, 3600, "CEST", Ghost(g))
        .step(1351386000, 3600, 0, "CET", Ghost(g))
        .step(1364691600, 3600, 3600, "CEST", Ghost(g))
        .step(1382835600, 3600, 0, "CET", Ghost(g))
        .step(1396141200, 3600, 3600, "CEST", Ghost(g))
        .step(1414285200, 3600, 0, "CET", Ghost(g))
        .step(1427590800, 3600, 3600, "CEST", Ghost(g))
        .step(1445734800, 3600, 0, "CET", Ghost(g))
        .step(1459040400, 3600, 3600, "CEST", Ghost(g))
        .step(1477789200, 3600, 0, "CET", Ghost(g))
        .step(1490490000, 3600, 3600, "CEST", Ghost(g))
        .step(1509238800, 3600, 0, "CET", Ghost(g))
        .step(1521939600, 3600, 3600, "CEST", Ghost(g))
        .step(1540688400, 3600, 0, "CET", Ghost(g))
        .step(1553994000, 3600, 3600, "CEST", Ghost(g))
        .step(1572138000, 3600, 0, "CET", Ghost(g))
        .step(1585443600, 3600, 3600, "CEST", Ghost(g))
        .step(1603587600, 3600, 0, "CET", Ghost(g))
        .step(1616893200, 3600, 3600, "CEST", Ghost(g))
        .step(1635642000, 3600, 0, "CET", Ghost(g))
        .step(1648342800, 3600, 3600, "CEST", Ghost(g))
        .step(1667091600, 3600, 0, "CET", Ghost(g))
        .step(1679792400, 3600, 3600, "CEST", Ghost(g))
        .step(1698541200, 3600, 0, "CET", Ghost(g))
        .step(1711846800, 3600, 3600, "CEST", Ghost(g))
        .step(1729990800, 3600, 0, "CET", Ghost(g))
        .step(1743296400, 3600, 3600, "CEST", Ghost(g))
        .step(1761440400, 3600, 0, "CET", Ghost(g))
        .step(1774746000, 3600, 3600, "CEST", Ghost(g))
        .step(1792890000, 3600, 0, "CET", Ghost(g))
        .step(1806195600, 3600, 3600, "CEST", Ghost(g))
        .step(1824944400, 3600, 0, "CET", Ghost(g))
        .step(1837645200, 3600, 3600, "CEST", Ghost(g))
        .step(1856394000, 3600, 0, "CET", Ghost(g))
        .step(1869094800, 3600, 3600, "CEST", Ghost(g))
        .step(1887843600, 3600, 0, "CET", Ghost(g))
        .step(1901149200, 3600, 3600, "CEST", Ghost(g))
        .step(1919293200, 3600, 0, "CET", Ghost(g))
        .step(1932598800, 3600, 3600, "CEST", Ghost(g))
        .step(1950742800, 3600, 0, "CET", Ghost(g))
        .step(1964048400, 3600, 3600, "CEST", Ghost(g))
        .step(1982797200, 3600, 0, "CET", Ghost(g))
        .step(1995498000, 3600, 3600, "CEST", Ghost(g))
        .step(2014246800, 3600, 0, "CET", Ghost(g))
        .step(2026947600, 3600, 3600, "CEST", Ghost(g))
        .step(2045696400, 3600, 0, "CET", Ghost(g))
        .step(2058397200, 3600, 3600, "CEST", Ghost(g))
        .step(2077146000, 3600, 0, "CET", Ghost(g))
        .step(2090451600, 3600, 3600, "CEST", Ghost(g))
        .step(2108595600, 3600, 0, "CET", Ghost(g))
        .step(2121901200, 3600, 3600, "CEST", Ghost(g))
        .step(2140045200, 3600, 0, "CET", Ghost(g))
        .finish(Ghost(g))
}

/// The zone `Europe/Bucharest`.
pub fn bucharest() -> (r: Tz)
    ensures
        r.wf(),
        r.zone_name() == "Europe/Bucharest"@,
        r.table() == tables::europe::bucharest(),
{
    let ghost g = tables::europe::bucharest_rows();
    FixedTimespanSet::begin("Europe/Bucharest", 6264, 0, "LMT", Ghost(g))
        .step(-2469404664, 6264, 0, "BMT", Ghost(g))
        .step(-1213148664, 7200, 0, "EET", Ghost(g))
        .step(-1187056800, 7200, 3600, "EEST", Ghost(g))
        .step(-1175479200, 7200, 0, "EET", Ghost(g))
        .step(-1159754400, 7200, 3600, "EEST", Ghost(g))
        .step(-1144029600, 7200, 0, "EET", Ghost(g))
        .step(-1127700000, 7200, 3600, "EEST", Ghost(g))
        .step(-1111975200, 7200, 0, "EET", Ghost(g))
        .step(-1096250400, 7200, 3600, "EEST", Ghost(g))
        .step(-1080525600, 7200, 0, "EET", Ghost(g))
        .step(-1064800800, 7200, 3600, "EEST", Ghost(g))
        .step(-1049076000, 7200, 0, "EET", Ghost(g))
        .step(-1033351200, 7200, 3600, "EEST", Ghost(g))
        .step(-1017626400, 7200, 0, "EET", Ghost(g))
        .step(-1001901600, 7200, 3600, "EEST", Ghost(g))
        .step(-986176800, 7200, 0, "EET", Ghost(g))
        .step(-970452000, 7200, 3600, "EEST", Ghost(g))
        .step(-954727200, 7200, 0, "EET", Ghost(g))
        .step(296604000, 7200, 3600, "EEST", Ghost(g))
        .step(307486800, 7200, 0, "EET", Ghost(g))
        .step(323816400, 7200, 3600, "EEST", Ghost(g))
        .step(338940000, 7200, 0, "EET", Ghost(g))
        .step(354672000, 7200, 3600, "EEST", Ghost(g))
        .step(370396800, 7200, 0, "EET", Ghost(g))
        .step(386121600, 7200, 3600, "EEST", Ghost(g))
        .step(401846400, 7200, 0, "EET", Ghost(g))
        .step(417571200, 7200, 3600, "EEST", Ghost(g))
        .step(433296000, 7200, 0, "EET", Ghost(g))
        .step(449020800, 7200, 3600, "EEST", Ghost(g))
        .step(465350400, 7200, 0, "EET", Ghost(g))
        .step(481075200, 7200, 3600, "EEST", Ghost(g))
        .step(496800000, 7200, 0, "EET", Ghost(g))
        .step(512524800, 7200, 3600, "EEST", Ghost(g))
        .step(528249600, 7200, 0, "EET", Ghost(g))
        .step(543974400, 7200, 3600, "EEST", Ghost(g))
        .step(559699200, 7200, 0, "EET", Ghost(g))
        .step(575424000, 7200, 3600, "EEST", Ghost(g))
        .step(591148800, 7200, 0, "EET", Ghost(g))
        .step(606873600, 7200, 3600, "EEST", Ghost(g))
        .step(622598400, 7200, 0, "EET", Ghost(g))
        .step(638323200, 7200, 3600, "EEST", Ghost(g))
        .step(654652800, 7200, 0, "EET", Ghost(g))
        .step(670370400, 7200, 3600, "EEST", Ghost(g))
        .step(686095200, 7200, 0, "EET", Ghost(g))
        .step(701820000, 7200, 3600, "EEST", Ghost(g))
        .step(717544800, 7200, 0, "EET", Ghost(g))
        .step(733269600, 7200, 3600, "EEST", Ghost(g))
        .step(748994400, 7200, 0, "EET", Ghost(g))
        .step(764719200, 7200, 3600, "EEST", Ghost(g))
        .step(780440400, 7200, 0, "EET", Ghost(g))
        .step(796168800, 7200, 3600, "EEST", Ghost(g))
        .step(811890000, 7200, 0, "EET", Ghost(g))
        .step(828223200, 7200, 3600, "EEST", Ghost(g))
        .step(846363600, 7200, 0, "EET", Ghost(g))
        .step(859683600, 7200, 3600, "EEST", Ghost(g))
        .step(877827600, 7200, 0, "EET", Ghost(g))
        .step(891133200, 7200, 3600, "EEST", Ghost(g))
        .step(909277200, 7200, 0, "EET", Ghost(g))
        .step(922582800, 7200, 3600, "EEST", Ghost(g))
        .step(941331600, 7200, 0, "EET", Ghost(g))
        .step(954032400, 7200, 3600, "EEST", Ghost(g))
        .step(972781200, 7200, 0, "EET", Ghost(g))
        .step(985482000, 7200, 3600, "EEST", Ghost(g))
        .step(1004230800, 7200, 0, "EET", Ghost(g))
        .step(1017536400, 7200, 3600, "EEST", Ghost(g))
        .step(1035680400, 7200, 0, "EET", Ghost(g))
        .step(1048986000, 7200, 3600, "EEST", Ghost(g))
        .step(1067130000, 7200, 0, "EET", Ghost(g))
        .step(1080435600, 7200, 3600, "EEST", Ghost(g))
        .step(1099184400, 7200, 0, "EET", Ghost(g))
        .step(1111885200, 7200, 3600, "EEST", Ghost(g))
        .step(1130634000, 7200, 0, "EET", Ghost(g))
        .step(1143334800, 7200, 3600, "EEST", Ghost(g))
        .step(1162083600, 7200, 0, "EET", Ghost(g))
        .step(1174784400, 7200, 3600, "EEST", Ghost(g))
        .step(1193533200, 7200, 0, "EET", Ghost(g))
        .step(1206838800, 7200, 3600, "EEST", Ghost(g))
        .step(1224982800, 7200, 0, "EET", Ghost(g))
        .step(1238288400, 7200, 3600, "EEST", Ghost(g))
        .step(1256432400, 7200, 0, "EET", Ghost(g))
        .step(1269738000, 7200, 3600, "EEST", Ghost(g))
        .step(1288486800, 7200, 0, "EET", Ghost(g))
        .step(1301187600, 7200, 3600, "EEST", Ghost(g))
        .step(1319936400, 7200, 0, "EET", Ghost(g))
        .step(1332637200, 7200, 3600, "EEST", Ghost(g))
        .step(1351386000, 7200, 0, "EET", Ghost(g))
        .step(1364691600, 7200, 3600, "EEST", Ghost(g))
        .step(1382835600, 7200, 0, "EET", Ghost(g))
        .step(1396141200, 7200, 3600, "EEST", Ghost(g))
        .step(1414285200, 7200, 0, "EET", Ghost(g))
        .step(1427590800, 7200, 3600, "EEST", Ghost(g))
        .step(1445734800, 7200, 0, "EET", Ghost(g))
        .step(1459040400, 7200, 3600, "EEST", Ghost(g))
        .step(1477789200, 7200, 0, "EET", Ghost(g))
        .step(1490490000, 7200, 3600, "EEST", Ghost(g))
        .step(1509238800, 7200, 0, "EET", Ghost(g))
        .step(1521939600, 7200, 3600, "EEST", Ghost(g))
        .step(1540688400, 7200, 0, "EET", Ghost(g))
        .step(1553994000, 7200, 3600, "EEST", Ghost(g))
        .step(1572138000, 7200, 0, "EET", Ghost(g))
        .step(1585443600, 7200, 3600, "EEST", Ghost(g))
        .step(1603587600, 7200, 0, "EET", Ghost(g))
        .step(1616893200, 7200, 3600, "EEST", Ghost(g))
        .step(1635642000, 7200, 0, "EET", Ghost(g))
        .step(1648342800, 7200, 3600, "EEST", Ghost(g))
        .step(1667091600, 7200, 0, "EET", Ghost(g))
        .step(1679792400, 7200, 3600, "EEST", Ghost(g))
        .step(1698541200, 7200, 0, "EET", Ghost(g))
        .step(1711846800, 7200, 3600, "EEST", Ghost(g))
        .step(1729990800, 7200, 0, "EET", Ghost(g))
        .step(1743296400, 7200, 3600, "EEST", Ghost(g))
        .step(1761440400, 7200, 0, "EET", Ghost(g))
        .step(1774746000, 7200, 3600, "EEST", Ghost(g))
        .step(1792890000, 7200, 0, "EET", Ghost(g))
        .step(1806195600, 7200, 3600, "EEST", Ghost(g))
        .step(1824944400, 7200, 0, "EET", Ghost(g))
        .step(1837645200, 7200, 3600, "EEST", Ghost(g))
        .step(1856394000, 7200, 0, "EET", Ghost(g))
        .step(1869094800, 7200, 3600, "EEST", Ghost(g))
        .step(1887843600, 7200, 0, "EET", Ghost(g))
        .step(1901149200, 7200, 3600, "EEST", Ghost(g))
        .step(1919293200, 7200, 0, "EET", Ghost(g))
        .step(1932598800, 7200, 3600, "EEST", Ghost(g))
        .step(1950742800, 7200, 0, "EET", Ghost(g))
        .step(1964048400, 7200, 3600, "EEST", Ghost(g))
        .step(1982797200, 7200, 0, "EET", Ghost(g))
        .step(1995498000, 7200, 3600, "EEST", Ghost(g))
        .step(2014246800, 7200, 0, "EET", Ghost(g))
        .step(2026947600, 7200, 3600, "EEST", Ghost(g))
        .step(2045696400, 7200, 0, "EET", Ghost(g))
        .step(2058397200, 7200, 3600, "EEST", Ghost(g))
        .step(2077146000, 7200, 0, "EET", Ghost(g))
        .step(2090451600, 7200, 3600, "EEST", Ghost(g))
        .step(2108595600, 7200, 0, "EET", Ghost(g))
        .step(2121901200, 7200, 3600, "EEST", Ghost(g))
        .step(2140045200, 7200, 0, "EET", Ghost(g))
        .finish(Ghost(g))
}

/// The zone `Europe/Budapest`.
pub fn budapest() -> (r: Tz)
    ensures
        r.wf(),
        r.zone_name() == "Europe/Budapest"@,
        r.table() == tables::europe::budapest(),
{
    let ghost g = tables::europe::budapest_rows();
    FixedTimespanSet::begin("Europe/Budapest", 4580, 0, "LMT", Ghost(g))
        .step(-2498260580, 3600, 0, "CET", Ghost(g))
        .step(-1693706400, 3600, 3600, "CEST", Ghost(g))
        .step(-1680483600, 3600, 0, "CET", Ghost(g))
        .step(-1663455600, 3600, 3600, "CEST", Ghost(g))
        .step(-1650150000, 3600, 0, "CET", Ghost(g))
        .step(-1632006000, 3600, 3600, "CEST", Ghost(g))
        .step(-1618700400, 3600, 0, "CET", Ghost(g))
        .step(-1600470000, 3600, 3600, "CEST", Ghost(g))
        .step(-1587250800, 3600, 0, "CET", Ghost(g))
        .step(-1569711600, 3600, 3600, "CEST", Ghost(g))
        .step(-1555196400, 3600, 0, "CET", Ghost(g))
        .step(-906775200, 3600, 3600, "CEST", Ghost(g))
        .step(-857257200, 3600, 0, "CET", Ghost(g))
        .step(-844556400, 3600, 3600, "CEST", Ghost(g))
        .step(-828226800, 3600, 0, "CET", Ghost(g))
        .step(-812502000, 3600, 3600, "CEST", Ghost(g))
        .step(-796777200, 3600, 0, "CET", Ghost(g))
        .step(-778471200, 3600, 3600, "CEST", Ghost(g))
        .step(-762656400, 3600, 0, "CET", Ghost(g))
        .step(-749689200, 3600, 3600, "CEST", Ghost(g))
        .step(-733276800, 3600, 0, "CET", Ghost(g))
        .step(-717634800, 3600, 3600, "CEST", Ghost(g))
        .step(-701910000, 3600, 0, "CET", Ghost(g))
        .step(-686185200, 3600, 3600, "CEST", Ghost(g))
        .step(-670460400, 3600, 0, "CET", Ghost(g))
        .step(-654130800, 3600, 3600, "CEST", Ghost(g))
        .step(-639010800, 3600, 0, "CET", Ghost(g))
        .step(-492656400, 3600, 3600, "CEST", Ghost(g))
        .step(-481168800, 3600, 0, "CET", Ghost(g))
        .step(-461199600, 3600, 3600, "CEST", Ghost(g))
        .step(-449708400, 3600, 0, "CET", Ghost(g))
        .step(-428540400, 3600, 3600, "CEST", Ghost(g))
        .step(-418258800, 3600, 0, "CET", Ghost(g))
        .step(-397090800, 3600, 3600, "CEST", Ghost(g))
        .step(-386809200, 3600, 0, "CET", Ghost(g))
        .step(323823600, 3600, 3600, "CEST", Ghost(g))
        .step(338943600, 3600, 0, "CET", Ghost(g))
        .step(354668400, 3600, 3600, "CEST", Ghost(g))
        .step(370393200, 3600, 0, "CET", Ghost(g))
        .step(386118000, 3600, 3600, "CEST", Ghost(g))
        .step(401842800, 3600, 0, "CET", Ghost(g))
        .step(417567600, 3600, 3600, "CEST", Ghost(g))
        .step(433292400, 3600, 0, "CET", Ghost(g))
        .step(449024400, 3600, 3600, "CEST", Ghost(g))
        .step(465354000, 3600, 0, "CET", Ghost(g))
        .step(481078800, 3600, 3600, "CEST", Ghost(g))
        .step(496803600, 3600, 0, "CET", Ghost(g))
        .step(512528400, 3600, 3600, "CEST", Ghost(g))
        .step(528253200, 3600, 0, "CET", Ghost(g))
        .step(543978000, 3600, 3600, "CEST", Ghost(g))
        .step(559702800, 3600, 0, "CET", Ghost(g))
        .step(575427600, 3600, 3600, "CEST", Ghost(g))
        .step(591152400, 3600, 0, "CET", Ghost(g))
        .step(606877200, 3600, 3600, "CEST", Ghost(g))
        .step(622602000, 3600, 0, "CET", Ghost(g))
        .step(638326800, 3600, 3600, "CEST", Ghost(g))
        .step(654656400, 3600, 0, "CET", Ghost(g))
        .step(670381200, 3600, 3600, "CEST", Ghost(g))
        .step(686106000, 3600, 0, "CET", Ghost(g))
        .step(701830800, 3600, 3600, "CEST", Ghost(g))
        .step(717555600, 3600, 0, "CET", Ghost(g))
        .step(733280400, 3600, 3600, "CEST", Ghost(g))
        .step(749005200, 3600, 0, "CET", Ghost(g))
        .step(764730000, 3600, 3600, "CEST", Ghost(g))
        .step(780454800, 3600, 0, "CET", Ghost(g))
        .step(796179600, 3600, 3600, "CEST", Ghost(g))
        .step(811904400, 3600, 0, "CET", Ghost(g))
        .step(828234000, 3600, 3600, "CEST", Ghost(g))
        .step(846378000, 3600, 0, "CET", Ghost(g))
        .step(859683600, 3600, 3600, "CEST", Ghost(g))
        .step(877827600, 3600, 0, "CET", Ghost(g))
        .step(891133200, 3600, 3600, "CEST", Ghost(g))
        .step(909277200, 3600, 0, "CET", Ghost(g))
        .step(922582800, 3600, 3600, "CEST", Ghost(g))
        .step(941331600, 3600, 0, "CET", Ghost(g))
        .step(954032400, 3600, 3600, "CEST", Ghost(g))
        .step(972781200, 3600, 0, "CET", Ghost(g))
        .step(985482000, 3600, 3600, "CEST", Ghost(g))
        .step(1004230800, 3600, 0, "CET", Ghost(g))
        .step(1017536400, 3600, 3600, "CEST", Ghost(g))
        .step(1035680400, 3600, 0, "CET", Ghost(g))
        .step(1048986000, 3600, 3600, "CEST", Ghost(g))
        .step(1067130000, 3600, 0, "CET", Ghost(g))
        .step(1080435600, 3600, 3600, "CEST", Ghost(g))
        .step(1099184400, 3600, 0, "CET", Ghost(g))
        .step(1111885200, 3600, 3600, "CEST", Ghost(g))
        .step(1130634000, 3600, 0, "CET", Ghost(g))
        .step(1143334800, 3600, 3600, "CEST", Ghost(g))
        .step(1162083600, 3600, 0, "CET", Ghost(g))
        .step(1174784400, 3600, 3600, "CEST", Ghost(g))
        .step(1193533200, 3600, 0, "CET", Ghost(g))
        .step(1206838800, 3600, 3600, "CEST", Ghost(g))
        .step(1224982800, 3600, 0, "CET", Ghost(g))
        .step(1238288400, 3600, 3600, "CEST", Ghost(g))
        .step(1256432400, 3600, 0, "CET", Ghost(g))
        .step(1269738000, 3600, 3600, "CEST", Ghost(g))
        .step(1288486800, 3600, 0, "CET", Ghost(g))
        .step(1301187600, 3600, 3600, "CEST", Ghost(g))
        .step(1319936400, 3600, 0, "CET", Ghost(g))
        .step(1332637200, 3600, 3600, "CEST", Ghost(g))
        .step(1351386000, 3600, 0, "CET", Ghost(g))
        .step(1364691600, 3600, 3600, "CEST", Ghost(g))
        .step(1382835600, 3600, 0, "CET", Ghost(g))
        .step(1396141200, 3600, 3600, "CEST", Ghost(g))
        .step(1414285200, 3600, 0, "CET", Ghost(g))
        .step(1427590800, 3600, 3600, "CEST", Ghost(g))
        .step(1445734800, 3600, 0, "CET", Ghost(g))
        .step(1459040400, 3600, 3600, "CEST", Ghost(g))
        .step(1477789200, 3600, 0, "CET", Ghost(g))
        .step(1490490000, 3600, 3600, "CEST", Ghost(g))
        .step(1509238800, 3600, 0, "CET", Ghost(g))
        .step(1521939600, 3600, 3600, "CEST", Ghost(g))
        .step(1540688400, 3600, 0, "CET", Ghost(g))
        .step(1553994000, 3600, 3600, "CEST", Ghost(g))
        .step(1572138000, 3600, 0, "CET", Ghost(g))
        .step(1585443600, 3600, 3600, "CEST", Ghost(g))
        .step(1603587600, 3600, 0, "CET", Ghost(g))
        .step(1616893200, 3600, 3600, "CEST", Ghost(g))
        .step(1635642000, 3600, 0, "CET", Ghost(g))
        .step(1648342800, 3600, 3600, "CEST", Ghost(g))
        .step(1667091600, 3600, 0, "CET", Ghost(g))
        .step(1679792400, 3600, 3600, "CEST", Ghost(g))
        .step(1698541200, 3600, 0, "CET", Ghost(g))
        .step(1711846800, 3600, 3600, "CEST", Ghost(g))
        .step(1729990800, 3600, 0, "CET", Ghost(g))
        .step(1743296400, 3600, 3600, "CEST", Ghost(g))
        .step(1761440400, 3600, 0, "CET", Ghost(g))
        .step(1774746000, 3600, 3600, "CEST", Ghost(g))
        .step(1792890000, 3600, 0, "CET", Ghost(g))
        .step(1806195600, 3600, 3600, "CEST", Ghost(g))
        .step(1824944400, 3600, 0, "CET", Ghost(g))
        .step(1837645200, 3600, 3600, "CEST", Ghost(g))
        .step(1856394000, 3600, 0, "CET", Ghost(g))
        .step(1869094800, 3600, 3600, "CEST", Ghost(g))
        .step(1887843600, 3600, 0, "CET", Ghost(g))
        .step(1901149200, 3600, 3600, "CEST", Ghost(g))
        .step(1919293200, 3600, 0, "CET", Ghost(g))
        .step(1932598800, 3600, 3600, "CEST", Ghost(g))
        .step(1950742800, 3600, 0, "CET", Ghost(g))
        .step(1964048400, 3600, 3600, "CEST", Ghost(g))
        .step(1982797200, 3600, 0, "CET", Ghost(g))
        .step(1995498000, 3600, 3600, "CEST", Ghost(g))
        .step(2014246800, 3600, 0, "CET", Ghost(g))
        .step(2026947600, 3600, 3600, "CEST", Ghost(g))
        .step(2045696400, 3600, 0, "CET", Ghost(g))
        .step(2058397200, 3600, 3600, "CEST", Ghost(g))
        .step(2077146000, 3600, 0, "CET", Ghost(g))
        .step(2090451600, 3600, 3600, "CEST", Ghost(g))
        .step(2108595600, 3600, 0, "CET", Ghost(g))
        .step(2121901200, 3600, 3600, "CEST", Ghost(g))
        .step(2140045200, 3600, 0, "CET", Ghost(g))
        .finish(Ghost(g))
}

/// The zone `Europe/Busingen`.
pub fn busingen() -> (r: Tz)
    ensures
        r.wf(),
        r.zone_name() == "Europe/Busingen"@,
        r.table() == tables::europe::busingen(),
{
    let ghost g = tables::europe::busingen_rows();
    FixedTimespanSet::begin("Europe/Busingen", 2048, 0, "LMT", Ghost(g))
        .step(-3675198848, 1786, 0, "BMT", Ghost(g))
        .step(-2385246586, 3600, 0, "CET", Ghost(g))
        .step(-904435200, 3600, 3600, "CEST", Ghost(g))
        .step(-891129600, 3600, 0, "CET", Ghost(g))
        .step(-872985600, 3600, 3600, "CEST", Ghost(g))
        .step(-859680000, 3600, 0, "CET", Ghost(g))
        .step(354675600, 3600, 3600, "CEST", Ghost(g))
        .step(370400400, 3600, 0, "CET", Ghost(g))
        .step(386125200, 3600, 3600, "CEST", Ghost(g))
        .step(401850000, 3600, 0, "CET", Ghost(g))
        .step(417574800, 3600, 3600, "CEST", Ghost(g))
        .step(433299600, 3600, 0, "CET", Ghost(g))
        .step(449024400, 3600, 3600, "CEST", Ghost(g))
        .step(465354000, 3600, 0, "CET", Ghost(g))
        .step(481078800, 3600, 3600, "CEST", Ghost(g))
        .step(496803600, 3600, 0, "CET", Ghost(g))
        .step(512528400, 3600, 3600, "CEST", Ghost(g))
        .step(528253200, 3600, 0, "CET", Ghost(g))
        .step(543978000, 3600, 3600, "CEST", Ghost(g))
        .step(559702800, 3600, 0, "CET", Ghost(g))
        .step(575427600, 3600, 3600, "CEST", Ghost(g))
        .step(591152400, 3600, 0, "CET", Ghost(g))
        .step(606877200, 3600, 3600, "CEST", Ghost(g))
        .step(622602000, 3600, 0, "CET", Ghost(g))
        .step(638326800, 3600, 3600, "CEST", Ghost(g))
        .step(654656400, 3600, 0, "CET", Ghost(g))
        .step(670381200, 3600, 3600, "CEST", Ghost(g))
        .step(686106000, 3600, 0, "CET", Ghost(g))
        .step(701830800, 3600, 3600, "CEST", Ghost(g))
        .step(717555600, 3600, 0, "CET", Ghost(g))
        .step(733280400, 3600, 3600, "CEST", Ghost(g))
        .step(749005200, 3600, 0, "CET", Ghost(g))
        .step(764730000, 3600, 3600, "CEST", Ghost(g))
        .step(780454800, 3600, 0, "CET", Ghost(g))
        .step(796179600, 3600, 3600, "CEST", Ghost(g))
        .step(811904400, 3600, 0, "CET", Ghost(g))
        .step(828234000, 3600, 3600, "CEST", Ghost(g))
        .step(846378000, 3600, 0, "CET", Ghost(g))
        .step(859683600, 3600, 3600, "CEST", Ghost(g))
        .step(877827600, 3600, 0, "CET", Ghost(g))
        .step(891133200, 3600, 3600, "CEST", Ghost(g))
        .step(909277200, 3600, 0, "CET", Ghost(g))
        .step(922582800, 3600, 3600, "CEST", Ghost(g))
        .step(941331600, 3600, 0, "CET", Ghost(g))
        .step(954032400, 3600, 3600, "CEST", Ghost(g))
        .step(972781200, 3600, 0, "CET", Ghost(g))
        .step(985482000, 3600, 3600, "CEST", Ghost(g))
        .step(1004230800, 3600, 0, "CET", Ghost(g))
        .step(1017536400, 3600, 3600, "CEST", Ghost(g))
        .step(1035680400, 3600, 0, "CET", Ghost(g))
        .step(1048986000, 3600, 3600, "CEST", Ghost(g))
        .step(1067130000, 3600, 0, "CET", Ghost(g))
        .step(1080435600, 3600, 3600, "CEST", Ghost(g))
        .step(1099184400, 3600, 0, "CET", Ghost(g))
        .step(1111885200, 3600, 3600, "CEST", Ghost(g))
        .step(1130634000, 3600, 0, "CET", Ghost(g))
        .step(1143334800, 3600, 3600, "CEST", Ghost(g))
        .step(1162083600, 3600, 0, "CET", Ghost(g))
        .step(1174784400, 3600, 3600, "CEST", Ghost(g))
        .step(1193533200, 3600, 0, "CET", Ghost(g))
        .step(1206838800, 3600, 3600, "CEST", Ghost(g))
        .step(1224982800, 3600, 0, "CET", Ghost(g))
        .step(1238288400, 3600, 3600, "CEST", Ghost(g))
        .step(1256432400, 3600, 0, "CET", Ghost(g))
        .step(1269738000, 3600, 3600, "CEST", Ghost(g))
        .step(1288486800, 3600, 0, "CET", Ghost(g))
        .step(1301187600, 3600, 3600, "CEST", Ghost(g))
        .step(1319936400, 3600, 0, "CET", Ghost(g))
        .step(1332637200, 3600, 3600, "CEST", Ghost(g))
        .step(1351386000, 3600, 0, "CET", Ghost(g))
        .step(1364691600, 3600, 3600, "CEST", Ghost(g))
        .step(1382835600, 3600, 0, "CET", Ghost(g))
        .step(1396141200, 3600, 3600, "CEST", Ghost(g))
        .step(1414285200, 3600, 0, "CET", Ghost(g))
        .step(1427590800, 3600, 3600, "CEST", Ghost(g))
        .step(1445734800, 3600, 0, "CET", Ghost(g))
        .step(1459040400, 3600, 3600, "CEST", Ghost(g))
        .step(1477789200, 3600, 0, "CET", Ghost(g))
        .step(1490490000, 3600, 3600, "CEST", Ghost(g))
        .step(1509238800, 3600, 0, "CET", Ghost(g))
        .step(1521939600, 3600, 3600, "CEST", Ghost(g))
        .step(1540688400, 3600, 0, "CET", Ghost(g))
        .step(1553994000, 3600, 3600, "CEST", Ghost(g))
        .step(1572138000, 3600, 0, "CET", Ghost(g))
        .step(1585443600, 3600, 3600, "CEST", Ghost(g))
        .step(1603587600, 3600, 0, "CET", Ghost(g))
        .step(1616893200, 3600, 3600, "CEST", Ghost(g))
        .step(1635642000, 3600, 0, "CET", Ghost(g))
        .step(1648342800, 3600, 3600, "CEST", Ghost(g))
        .step(1667091600, 3600, 0, "CET", Ghost(g))
        .step(1679792400, 3600, 3600, "CEST", Ghost(g))
        .step(1698541200, 3600, 0, "CET", Ghost(g))
        .step(1711846800, 3600, 3600, "CEST", Ghost(g))
        .step(1729990800, 3600, 0, "CET", Ghost(g))
        .step(1743296400, 3600, 3600, "CEST", Ghost(g))
        .step(1761440400, 3600, 0, "CET", Ghost(g))
        .step(1774746000, 3600, 3600, "CEST", Ghost(g))
        .step(1792890000, 3600, 0, "CET", Ghost(g))
        .step(1806195600, 3600, 3600, "CEST", Ghost(g))
        .step(1824944400, 3600, 0, "CET", Ghost(g))
        .step(1837645200, 3600, 3600, "CEST", Ghost(g))
        .step(1856394000, 3600, 0, "CET", Ghost(g))
        .step(1869094800, 3600, 3600, "CEST", Ghost(g))
        .step(1887843600, 3600, 0, "CET", Ghost(g))
        .step(1901149200, 3600, 3600, "CEST", Ghost(g))
        .step(1919293200, 3600, 0, "CET", Ghost(g))
        .step(1932598800, 3600, 3600, "CEST", Ghost(g))
        .step(1950742800, 3600, 0, "CET", Ghost(g))
        .step(1964048400, 3600, 3600, "CEST", Ghost(g))
        .step(1982797200, 3600, 0, "CET", Ghost(g))
        .step(1995498000, 3600, 3600, "CEST", Ghost(g))
        .step(2014246800, 3600, 0, "CET", Ghost(g))
        .step(2026947600, 3600, 3600, "CEST", Ghost(g))
        .step(2045696400, 3600, 0, "CET", Ghost(g))
        .step(2058397200, 3600, 3600, "CEST", Ghost(g))
        .step(2077146000, 3600, 0, "CET", Ghost(g))
        .step(2090451600, 3600, 3600, "CEST", Ghost(g))
        .step(2108595600, 3600, 0, "CET", Ghost(g))
        .step(2121901200, 3600, 3600, "CEST", Ghost(g))
        .step(2140045200, 3600, 0, "CET", Ghost(g))
        .finish(Ghost(g))
}

/// The zone `Europe/Chisinau`.
pub fn chisinau() -> (r: Tz)
    ensures
        r.wf(),
        r.zone_name() == "Europe/Chisinau"@,
        r.table() == tables::europe::chisinau(),
{
    let ghost g = tables::europe::chisinau_rows();
    FixedTimespanSet::begin("Europe/Chisinau", 6920, 0, "LMT", Ghost(g))
        .step(-2840147720, 6900, 0, "CMT", Ghost(g))
        .step(-1637114100, 6264, 0, "BMT", Ghost(g))
        .step(-1213148664, 7200, 0, "EET", Ghost(g))
        .step(-1187056800, 7200, 3600, "EEST", Ghost(g))
        .step(-1175479200, 7200, 0, "EET", Ghost(g))
        .step(-1159754400, 7200, 3600, "EEST", Ghost(g))
        .step(-1144029600, 7200, 0, "EET", Ghost(g))
        .step(-1127700000, 7200, 3600, "EEST", Ghost(g))
        .step(-1111975200, 7200, 0, "EET", Ghost(g))
        .step(-1096250400, 7200, 3600, "EEST", Ghost(g))
        .step(-1080525600, 7200, 0, "EET", Ghost(g))
        .step(-1064800800, 7200, 3600, "EEST", Ghost(g))
        .step(-1049076000, 7200, 0, "EET", Ghost(g))
        .step(-1033351200, 7200, 3600, "EEST", Ghost(g))
        .step(-1017626400, 7200, 0, "EET", Ghost(g))
        .step(-1001901600, 7200, 3600, "EEST", Ghost(g))
        .step(-986176800, 7200, 0, "EET", Ghost(g))
        .step(-970452000, 7200, 3600, "EEST", Ghost(g))
        .step(-954727200, 7200, 0, "EET", Ghost(g))
        .step(-927165600, 7200, 3600, "EEST", Ghost(g))
        .step(-898138800, 3600, 3600, "CEST", Ghost(g))
        .step(-857257200, 3600, 0, "CET", Ghost(g))
        .step(-844556400, 3600, 3600, "CEST", Ghost(g))
        .step(-828226800, 3600, 0, "CET", Ghost(g))
        .step(-812502000, 3600, 3600, "CEST", Ghost(g))
        .step(-800157600, 10800, 0, "MSK", Ghost(g))
        .step(354920400, 10800, 3600, "MSD", Ghost(g))
        .step(370728000, 10800, 0, "MSK", Ghost(g))
        .step(386456400, 10800, 3600, "MSD", Ghost(g))
        .step(402264000, 10800, 0, "MSK", Ghost(g))
        .step(417992400, 10800, 3600, "MSD", Ghost(g))
        .step(433800000, 10800, 0, "MSK", Ghost(g))
        .step(449614800, 10800, 3600, "MSD", Ghost(g))
        .step(465346800, 10800, 0, "MSK", Ghost(g))
        .step(481071600, 10800, 3600, "MSD", Ghost(g))
        .step(496796400, 10800, 0, "MSK", Ghost(g))
        .step(512521200, 10800, 3600, "MSD", Ghost(g))
        .step(528246000, 10800, 0, "MSK", Ghost(g))
        .step(543970800, 10800, 3600, "MSD", Ghost(g))
        .step(559695600, 10800, 0, "MSK", Ghost(g))
        .step(575420400, 10800, 3600, "MSD", Ghost(g))
        .step(591145200, 10800, 0, "MSK", Ghost(g))
        .step(606870000, 10800, 3600, "MSD", Ghost(g))
        .step(622594800, 10800, 0, "MSK", Ghost(g))
        .step(638319600, 10800, 3600, "MSD", Ghost(g))
        .step(641944800, 7200, 3600, "EEST", Ghost(g))
        .step(654652800, 7200, 0, "EET", Ghost(g))
        .step(670377600, 7200, 3600, "EEST", Ghost(g))
        .step(686102400, 7200, 0, "EET", Ghost(g))
        .step(701820000, 7200, 3600, "EEST", Ghost(g))
        .step(717541200, 7200, 0, "EET", Ghost(g))
        .step(733269600, 7200, 3600, "EEST", Ghost(g))
        .step(748990800, 7200, 0, "EET", Ghost(g))
        .step(764719200, 7200, 3600, "EEST", Ghost(g))
        .step(780440400, 7200, 0, "EET", Ghost(g))
        .step(796168800, 7200, 3600, "EEST", Ghost(g))
        .step(811890000, 7200, 0, "EET", Ghost(g))
        .step(828223200, 7200, 3600, "EEST", Ghost(g))
        .step(846363600, 7200, 0, "EET", Ghost(g))
        .step(859680000, 7200, 3600, "EEST", Ghost(g))
        .step(877824000, 7200, 0, "EET", Ghost(g))
        .step(891129600, 7200, 3600, "EEST", Ghost(g))
        .step(909273600, 7200, 0, "EET", Ghost(g))
        .step(922579200, 7200, 3600, "EEST", Ghost(g))
        .step(941328000, 7200, 0, "EET", Ghost(g))
        .step(954028800, 7200, 3600, "EEST", Ghost(g))
        .step(972777600, 7200, 0, "EET", Ghost(g))
        .step(985478400, 7200, 3600, "EEST", Ghost(g))
        .step(1004227200, 7200, 0, "EET", Ghost(g))
        .step(1017532800, 7200, 3600, "EEST", Ghost(g))
        .step(1035676800, 7200, 0, "EET", Ghost(g))
        .step(1048982400, 7200, 3600, "EEST", Ghost(g))
        .step(1067126400, 7200, 0, "EET", Ghost(g))
        .step(1080432000, 7200, 3600, "EEST", Ghost(g))
        .step(1099180800, 7200, 0, "EET", Ghost(g))
        .step(1111881600, 7200, 3600, "EEST", Ghost(g))
        .step(1130630400, 7200, 0, "EET", Ghost(g))
        .step(1143331200, 7200, 3600, "EEST", Ghost(g))
        .step(1162080000, 7200, 0, "EET", Ghost(g))
        .step(1174780800, 7200, 3600, "EEST", Ghost(g))
        .step(1193529600, 7200, 0, "EET", Ghost(g))
        .step(1206835200, 7200, 3600, "EEST", Ghost(g))
        .step(1224979200, 7200, 0, "EET", Ghost(g))
        .step(1238284800, 7200, 3600, "EEST", Ghost(g))
        .step(1256428800, 7200, 0, "EET", Ghost(g))
        .step(1269734400, 7200, 3600, "EEST", Ghost(g))
        .step(1288483200, 7200, 0, "EET", Ghost(g))
        .step(1301184000, 7200, 3600, "EEST", Ghost(g))
        .step(1319932800, 7200, 0, "EET", Ghost(g))
        .step(1332633600, 7200, 3600, "EEST", Ghost(g))
        .step(1351382400, 7200, 0, "EET", Ghost(g))
        .step(1364688000, 7200, 3600, "EEST", Ghost(g))
        .step(1382832000, 7200, 0, "EET", Ghost(g))
        .step(1396137600, 7200, 3600, "EEST", Ghost(g))
        .step(1414281600, 7200, 0, "EET", Ghost(g))
        .step(1427587200, 7200, 3600, "EEST", Ghost(g))
        .step(1445731200, 7200, 0, "EET", Ghost(g))
        .step(1459036800, 7200, 3600, "EEST", Ghost(g))
        .step(1477785600, 7200, 0, "EET", Ghost(g))
        .step(1490486400, 7200, 3600, "EEST", Ghost(g))
        .step(1509235200, 7200, 0, "EET", Ghost(g))
        .step(1521936000, 7200, 3600, "EEST", Ghost(g))
        .step(1540684800, 7200, 0, "EET", Ghost(g))
        .step(1553990400, 7200, 3600, "EEST", Ghost(g))
        .step(1572134400, 7200, 0, "EET", Ghost(g))
        .step(1585440000, 7200, 3600, "EEST", Ghost(g))
        .step(1603584000, 7200, 0, "EET", Ghost(g))
        .step(1616889600, 7200, 3600, "EEST", Ghost(g))
        .step(1635638400, 7200, 0, "EET", Ghost(g))
        .step(1648339200, 7200, 3600, "EEST", Ghost(g))
        .step(1667088000, 7200, 0, "EET", Ghost(g))
        .step(1679788800, 7200, 3600, "EEST", Ghost(g))
        .step(1698537600, 7200, 0, "EET", Ghost(g))
        .step(1711843200, 7200, 3600, "EEST", Ghost(g))
        .step(1729987200, 7200, 0, "EET", Ghost(g))
        .step(1743292800, 7200, 3600, "EEST", Ghost(g))
        .step(1761436800, 7200, 0, "EET", Ghost(g))
        .step(1774742400, 7200, 3600, "EEST", Ghost(g))
        .step(1792886400, 7200, 0, "EET", Ghost(g))
        .step(1806192000, 7200, 3600, "EEST", Ghost(g))
        .step(1824940800, 7200, 0, "EET", Ghost(g))
        .step(1837641600, 7200, 3600, "EEST", Ghost(g))
        .step(1856390400, 7200, 0, "EET", Ghost(g))
        .step(1869091200, 7200, 3600, "EEST", Ghost(g))
        .step(1887840000, 7200, 0, "EET", Ghost(g))
        .step(1901145600, 7200, 3600, "EEST", Ghost(g))
        .step(1919289600, 7200, 0, "EET", Ghost(g))
        .step(1932595200, 7200, 3600, "EEST", Ghost(g))
        .step(1950739200, 7200, 0, "EET", Ghost(g))
        .step(1964044800, 7200, 3600, "EEST", Ghost(g))
        .step(1982793600, 7200, 0, "EET", Ghost(g))
        .step(1995494400, 7200, 3600, "EEST", Ghost(g))
        .step(2014243200, 7200, 0, "EET", Ghost(g))
        .step(2026944000, 7200, 3600, "EEST", Ghost(g))
        .step(2045692800, 7200, 0, "EET", Ghost(g))
        .step(2058393600, 7200, 3600, "EEST", Ghost(g))
        .step(2077142400, 7200, 0, "EET", Ghost(g))
        .step(2090448000, 7200, 3600, "EEST", Ghost(g))
        .step(2108592000, 7200, 0, "EET", Ghost(g))
        .step(2121897600, 7200, 3600, "EEST", Ghost(g))
        .step(2140041600, 7200, 0, "EET", Ghost(g))
        .finish(Ghost(g))
}

/// The zone `Europe/Copenhagen`.
pub fn copenhagen() -> (r: Tz)
    ensures
        r.wf(),
        r.zone_name() == "Europe/Copenhagen"@,
        r.table() == tables::europe::copenhagen(),
{
    let ghost g = tables::europe::copenhagen_rows();
    FixedTimespanSet::begin("Europe/Copenhagen", 3020, 0, "LMT", Ghost(g))
        .step(-2524524620, 3020, 0, "CMT", Ghost(g))
        .step(-2398294220, 3600, 0, "CET", Ghost(g))
        .step(-1692496800, 3600, 3600, "CEST", Ghost(g))
        .step(-1680490800, 3600, 0, "CET", Ghost(g))
        .step(-935110800, 3600, 3600, "CEST", Ghost(g))
        .step(-857257200, 3600, 0, "CET", Ghost(g))
        .step(-844556400, 3600, 3600, "CEST", Ghost(g))
        .step(-828226800, 3600, 0, "CET", Ghost(g))
        .step(-812502000, 3600, 3600, "CEST", Ghost(g))
        .step(-796777200, 3600, 0, "CET", Ghost(g))
        .step(-781052400, 3600, 3600, "CEST", Ghost(g))
        .step(-769388400, 3600, 0, "CET", Ghost(g))
        .step(-747010800, 3600, 3600, "CEST", Ghost(g))
        .step(-736383600, 3600, 0, "CET", Ghost(g))
        .step(-715215600, 3600, 3600, "CEST", Ghost(g))
        .step(-706748400, 3600, 0, "CET", Ghost(g))
        .step(-683161200, 3600, 3600, "CEST", Ghost(g))
        .step(-675298800, 3600, 0, "CET", Ghost(g))
        .step(323830800, 3600, 3600, "CEST", Ghost(g))
        .step(338950800, 3600, 0, "CET", Ghost(g))
        .step(354675600, 3600, 3600, "CEST", Ghost(g))
        .step(370400400, 3600, 0, "CET", Ghost(g))
        .step(386125200, 3600, 3600, "CEST", Ghost(g))
        .step(401850000, 3600, 0, "CET", Ghost(g))
        .step(417574800, 3600, 3600, "CEST", Ghost(g))
        .step(433299600, 3600, 0, "CET", Ghost(g))
        .step(449024400, 3600, 3600, "CEST", Ghost(g))
        .step(465354000, 3600, 0, "CET", Ghost(g))
        .step(481078800, 3600, 3600, "CEST", Ghost(g))
        .step(496803600, 3600, 0, "CET", Ghost(g))
        .step(512528400, 3600, 3600, "CEST", Ghost(g))
        .step(528253200, 3600, 0, "CET", Ghost(g))
        .step(543978000, 3600, 3600, "CEST", Ghost(g))
        .step(559702800, 3600, 0, "CET", Ghost(g))
        .step(575427600, 3600, 3600, "CEST", Ghost(g))
        .step(591152400, 3600, 0, "CET", Ghost(g))
        .step(606877200, 3600, 3600, "CEST", Ghost(g))
        .step(622602000, 3600, 0, "CET", Ghost(g))
        .step(638326800, 3600, 3600, "CEST", Ghost(g))
        .step(654656400, 3600, 0, "CET", Ghost(g))
        .step(670381200, 3600, 3600, "CEST", Ghost(g))
        .step(686106000, 3600, 0, "CET", Ghost(g))
        .step(701830800, 3600, 3600, "CEST", Ghost(g))
        .step(717555600, 3600, 0, "CET", Ghost(g))
        .step(733280400, 3600, 3600, "CEST", Ghost(g))
        .step(749005200, 3600, 0, "CET", Ghost(g))
        .step(764730000, 3600, 3600, "CEST", Ghost(g))
        .step(780454800, 3600, 0, "CET", Ghost(g))
        .step(796179600, 3600, 3600, "CEST", Ghost(g))
        .step(811904400, 3600, 0, "CET", Ghost(g))
        .step(828234000, 3600, 3600, "CEST", Ghost(g))
        .step(846378000, 3600, 0, "CET", Ghost(g))
        .step(859683600, 3600, 3600, "CEST", Ghost(g))
        .step(877827600, 3600, 0, "CET", Ghost(g))
        .step(891133200, 3600, 3600, "CEST", Ghost(g))
        .step(909277200, 3600, 0, "CET", Ghost(g))
        .step(922582800, 3600, 3600, "CEST", Ghost(g))
        .step(941331600, 3600, 0, "CET", Ghost(g))
        .step(954032400, 3600, 3600, "CEST", Ghost(g))
        .step(972781200, 3600, 0, "CET", Ghost(g))
        .step(985482000, 3600, 3600, "CEST", Ghost(g))
        .step(1004230800, 3600, 0, "CET", Ghost(g))
        .step(1017536400, 3600, 3600, "CEST", Ghost(g))
        .step(1035680400, 3600, 0, "CET", Ghost(g))
        .step(1048986000, 3600, 3600, "CEST", Ghost(g))
        .step(1067130000, 3600, 0, "CET", Ghost(g))
        .step(1080435600, 3600, 3600, "CEST", Ghost(g))
        .step(1099184400, 3600, 0, "CET", Ghost(g))
        .step(1111885200, 3600, 3600, "CEST", Ghost(g))
        .step(1130634000, 3600, 0, "CET", Ghost(g))
        .step(1143334800, 3600, 3600, "CEST", Ghost(g))
        .step(1162083600, 3600, 0, "CET", Ghost(g))
        .step(1174784400, 3600, 3600, "CEST", Ghost(g))
        .step(1193533200, 3600, 0, "CET", Ghost(g))
        .step(1206838800, 3600, 3600, "CEST", Ghost(g))
        .step(1224982800, 3600, 0, "CET", Ghost(g))
        .step(1238288400, 3600, 3600, "CEST", Ghost(g))
        .step(1256432400, 3600, 0, "CET", Ghost(g))
        .step(1269738000, 3600, 3600, "CEST", Ghost(g))
        .step(1288486800, 3600, 0, "CET", Ghost(g))
        .step(1301187600, 3600, 3600, "CEST", Ghost(g))
        .step(1319936400, 3600, 0, "CET", Ghost(g))
        .step(1332637200, 3600, 3600, "CEST", Ghost(g))
        .step(1351386000, 3600, 0, "CET", Ghost(g))
        .step(1364691600, 3600, 3600, "CEST", Ghost(g))
        .step(1382835600, 3600, 0, "CET", Ghost(g))
        .step(1396141200, 3600, 3600, "CEST", Ghost(g))
        .step(1414285200, 3600, 0, "CET", Ghost(g))
        .step(1427590800, 3600, 3600, "CEST", Ghost(g))
        .step(1445734800, 3600, 0, "CET", Ghost(g))
        .step(1459040400, 3600, 3600, "CEST", Ghost(g))
        .step(1477789200, 3600, 0, "CET", Ghost(g))
        .step(1490490000, 3600, 3600, "CEST", Ghost(g))
        .step(1509238800, 3600, 0, "CET", Ghost(g))
        .step(1521939600, 3600, 3600, "CEST", Ghost(g))
        .step(1540688400, 3600, 0, "CET", Ghost(g))
        .step(1553994000, 3600, 3600, "CEST", Ghost(g))
        .step(1572138000, 3600, 0, "CET", Ghost(g))
        .step(1585443600, 3600, 3600, "CEST", Ghost(g))
        .step(1603587600, 3600, 0, "CET", Ghost(g))
        .step(1616893200, 3600, 3600, "CEST", Ghost(g))
        .step(1635642000, 3600, 0, "CET", Ghost(g))
        .step(1648342800, 3600, 3600, "CEST", Ghost(g))
        .step(1667091600, 3600, 0, "CET", Ghost(g))
        .step(1679792400, 3600, 3600, "CEST", Ghost(g))
        .step(1698541200, 3600, 0, "CET", Ghost(g))
        .step(1711846800, 3600, 3600, "CEST", Ghost(g))
        .step(1729990800, 3600, 0, "CET", Ghost(g))
        .step(1743296400, 3600, 3600, "CEST", Ghost(g))
        .step(1761440400, 3600, 0, "CET", Ghost(g))
        .step(1774746000, 3600, 3600, "CEST", Ghost(g))
        .step(1792890000, 3600, 0, "CET", Ghost(g))
        .step(1806195600, 3600, 3600, "CEST", Ghost(g))
        .step(1824944400, 3600, 0, "CET", Ghost(g))
        .step(1837645200, 3600, 3600, "CEST", Ghost(g))
        .step(1856394000, 3600, 0, "CET", Ghost(g))
        .step(1869094800, 3600, 3600, "CEST", Ghost(g))
        .step(1887843600, 3600, 0, "CET", Ghost(g))
        .step(1901149200, 3600, 3600, "CEST", Ghost(g))
        .step(1919293200, 3600, 0, "CET", Ghost(g))
        .step(1932598800, 3600, 3600, "CEST", Ghost(g))
        .step(1950742800, 3600, 0, "CET", Ghost(g))
        .step(1964048400, 3600, 3600, "CEST", Ghost(g))
        .step(1982797200, 3600, 0, "CET", Ghost(g))
        .step(1995498000, 3600, 3600, "CEST", Ghost(g))
        .step(2014246800, 3600, 0, "CET", Ghost(g))
        .step(2026947600, 3600, 3600, "CEST", Ghost(g))
        .step(2045696400, 3600, 0, "CET", Ghost(g))
        .step(2058397200, 3600, 3600, "CEST", Ghost(g))
        .step(2077146000, 3600, 0, "CET", Ghost(g))
        .step(2090451600, 3600, 3600, "CEST", Ghost(g))
        .step(2108595600, 3600, 0, "CET", Ghost(g))
        .step(2121901200, 3600, 3600, "CEST", Ghost(g))
        .step(2140045200, 3600, 0, "CET", Ghost(g))
        .finish(Ghost(g))
}

/// The zone `Europe/Dublin`.
pub fn dublin() -> (r: Tz)
    ensures
        r.wf(),
        r.zone_name() == "Europe/Dublin"@,
        r.table() == tables::europe::dublin(),
{
    let ghost g = tables::europe::dublin_rows();
    FixedTimespanSet::begin("Europe/Dublin", -1521, 0, "LMT", Ghost(g))
        .step(-2821649679, -1521, 0, "DMT", Ghost(g))
        .step(-1691962479, -1521, 3600, "IST", Ghost(g))
        .step(-1680471279, 0, 0, "GMT", Ghost(g))
        .step(-1664143200, 0, 3600, "BST", Ghost(g))
        .step(-1650146400, 0, 0, "GMT", Ghost(g))
        .step(-1633903200, 0, 3600, "BST", Ghost(g))
        .step(-1617487200, 0, 0, "GMT", Ghost(g))
        .step(-1601848800, 0, 3600, "BST", Ghost(g))
        .step(-1586037600, 0, 0, "GMT", Ghost(g))
        .step(-1570399200, 0, 3600, "BST", Ghost(g))
        .step(-1552168800, 0, 0, "GMT", Ghost(g))
        .step(-1538344800, 0, 3600, "BST", Ghost(g))
        .step(-1522533600, 0, 0, "GMT", Ghost(g))
        .step(-1507500000, 0, 3600, "IST", Ghost(g))
        .step(-1490565600, 0, 0, "GMT", Ghost(g))
        .step(-1473631200, 0, 3600, "IST", Ghost(g))
        .step(-1460930400, 0, 0, "GMT", Ghost(g))
        .step(-1442786400, 0, 3600, "IST", Ghost(g))
        .step(-1428876000, 0, 0, "GMT", Ghost(g))
        .step(-1410732000, 0, 3600, "IST", Ghost(g))
        .step(-1396216800, 0, 0, "GMT", Ghost(g))
        .step(-1379282400, 0, 3600, "IST", Ghost(g))
        .step(-1364767200, 0, 0, "GMT", Ghost(g))
        .step(-1348437600, 0, 3600, "IST", Ghost(g))
        .step(-1333317600, 0, 0, "GMT", Ghost(g))
        .step(-1315778400, 0, 3600, "IST", Ghost(g))
        .step(-1301263200, 0, 0, "GMT", Ghost(g))
        .step(-1284328800, 0, 3600, "IST", Ghost(g))
        .step(-1269813600, 0, 0, "GMT", Ghost(g))
        .step(-1253484000, 0, 3600, "IST", Ghost(g))
        .step(-1238364000, 0, 0, "GMT", Ghost(g))
        .step(-1221429600, 0, 3600, "IST", Ghost(g))
        .step(-1206914400, 0, 0, "GMT", Ghost(g))
        .step(-1189980000, 0, 3600, "IST", Ghost(g))
        .step(-1175464800, 0, 0, "GMT", Ghost(g))
        .step(-1159135200, 0, 3600, "IST", Ghost(g))
        .step(-1143410400, 0, 0, "GMT", Ghost(g))
        .step(-1126476000, 0, 3600, "IST", Ghost(g))
        .step(-1111960800, 0, 0, "GMT", Ghost(g))
        .step(-1095631200, 0, 3600, "IST", Ghost(g))
        .step(-1080511200, 0, 0, "GMT", Ghost(g))
        .step(-1063576800, 0, 3600, "IST", Ghost(g))
        .step(-1049061600, 0, 0, "GMT", Ghost(g))
        .step(-1032127200, 0, 3600, "IST", Ghost(g))
        .step(-1017612000, 0, 0, "GMT", Ghost(g))
        .step(-1001282400, 0, 3600, "IST", Ghost(g))
        .step(-986162400, 0, 0, "GMT", Ghost(g))
        .step(-969228000, 0, 3600, "IST", Ghost(g))
        .step(-950479200, 0, 0, "GMT", Ghost(g))
        .step(-942012000, 0, 3600, "IST", Ghost(g))
        .step(-733356000, 0, 0, "GMT", Ghost(g))
        .step(-719445600, 0, 3600, "IST", Ghost(g))
        .step(-699487200, 0, 0, "GMT", Ghost(g))
        .step(-684972000, 0, 3600, "IST", Ghost(g))
        .step(-668037600, 0, 0, "GMT", Ghost(g))
        .step(-654732000, 0, 3600, "IST", Ghost(g))
        .step(-636588000, 0, 0, "GMT", Ghost(g))
        .step(-622072800, 0, 3600, "IST", Ghost(g))
        .step(-605743200, 0, 0, "GMT", Ghost(g))
        .step(-590623200, 0, 3600, "IST", Ghost(g))
        .step(-574293600, 0, 0, "GMT", Ghost(g))
        .step(-558568800, 0, 3600, "IST", Ghost(g))
        .step(-542239200, 0, 0, "GMT", Ghost(g))
        .step(-527119200, 0, 3600, "IST", Ghost(g))
        .step(-512604000, 0, 0, "GMT", Ghost(g))
        .step(-496274400, 0, 3600, "IST", Ghost(g))
        .step(-481154400, 0, 0, "GMT", Ghost(g))
        .step(-464220000, 0, 3600, "IST", Ghost(g))
        .step(-449704800, 0, 0, "GMT", Ghost(g))
        .step(-432165600, 0, 3600, "IST", Ghost(g))
        .step(-417650400, 0, 0, "GMT", Ghost(g))
        .step(-401320800, 0, 3600, "IST", Ghost(g))
        .step(-386200800, 0, 0, "GMT", Ghost(g))
        .step(-369266400, 0, 3600, "IST", Ghost(g))
        .step(-354751200, 0, 0, "GMT", Ghost(g))
        .step(-337816800, 0, 3600, "IST", Ghost(g))
        .step(-323301600, 0, 0, "GMT", Ghost(g))
        .step(-306972000, 0, 3600, "IST", Ghost(g))
        .step(-291852000, 0, 0, "GMT", Ghost(g))
        .step(-276732000, 0, 3600, "IST", Ghost(g))
        .step(-257983200, 0, 0, "GMT", Ghost(g))
        .step(-245282400, 0, 3600, "IST", Ghost(g))
        .step(-226533600, 0, 0, "GMT", Ghost(g))
        .step(-213228000, 0, 3600, "IST", Ghost(g))
        .step(-195084000, 0, 0, "GMT", Ghost(g))
        .step(-182383200, 0, 3600, "IST", Ghost(g))
        .step(-163634400, 0, 0, "GMT", Ghost(g))
        .step(-150933600, 0, 3600, "IST", Ghost(g))
        .step(-132184800, 0, 0, "GMT", Ghost(g))
        .step(-119484000, 0, 3600, "IST", Ghost(g))
        .step(-100735200, 0, 0, "GMT", Ghost(g))
        .step(-88034400, 0, 3600, "IST", Ghost(g))
        .step(-68680800, 0, 0, "GMT", Ghost(g))
        .step(-59004000, 0, 3600, "IST", Ghost(g))
        .step(-37242000, 3600, 0, "IST", Ghost(g))
        .step(57722400, -3600, 3600, "GMT", Ghost(g))
        .step(69818400, 3600, 0, "IST", Ghost(g))
        .step(89172000, -3600, 3600, "GMT", Ghost(g))
        .step(101268000, 3600, 0, "IST", Ghost(g))
        .step(120621600, -3600, 3600, "GMT", Ghost(g))
        .step(132717600, 3600, 0, "IST", Ghost(g))
        .step(152071200, -3600, 3600, "GMT", Ghost(g))
        .step(164167200, 3600, 0, "IST", Ghost(g))
        .step(183520800, -3600, 3600, "GMT", Ghost(g))
        .step(196221600, 3600, 0, "IST", Ghost(g))
        .step(214970400, -3600, 3600, "GMT", Ghost(g))
        .step(227671200, 3600, 0, "IST", Ghost(g))
        .step(246420000, -3600, 3600, "GMT", Ghost(g))
        .step(259120800, 3600, 0, "IST", Ghost(g))
        .step(278474400, -3600, 3600, "GMT", Ghost(g))
        .step(290570400, 3600, 0, "IST", Ghost(g))
        .step(309924000, -3600, 3600, "GMT", Ghost(g))
        .step(322020000, 3600, 0, "IST", Ghost(g))
        .step(341373600, -3600, 3600, "GMT", Ghost(g))
        .step(354675600, 3600, 0, "IST", Ghost(g))
        .step(372819600, -3600, 3600, "GMT", Ghost(g))
        .step(386125200, 3600, 0, "IST", Ghost(g))
        .step(404269200, -3600, 3600, "GMT", Ghost(g))
        .step(417574800, 3600, 0, "IST", Ghost(g))
        .step(435718800, -3600, 3600, "GMT", Ghost(g))
        .step(449024400, 3600, 0, "IST", Ghost(g))
        .step(467773200, -3600, 3600, "GMT", Ghost(g))
        .step(481078800, 3600, 0, "IST", Ghost(g))
        .step(499222800, -3600, 3600, "GMT", Ghost(g))
        .step(512528400, 3600, 0, "IST", Ghost(g))
        .step(530672400, -3600, 3600, "GMT", Ghost(g))
        .step(543978000, 3600, 0, "IST", Ghost(g))
        .step(562122000, -3600, 3600, "GMT", Ghost(g))
        .step(575427600, 3600, 0, "IST", Ghost(g))
        .step(593571600, -3600, 3600, "GMT", Ghost(g))
        .step(606877200, 3600, 0, "IST", Ghost(g))
        .step(625626000, -3600, 3600, "GMT", Ghost(g))
        .step(638326800, 3600, 0, "IST", Ghost(g))
        .step(657075600, -3600, 3600, "GMT", Ghost(g))
        .step(670381200, 3600, 0, "IST", Ghost(g))
        .step(688525200, -3600, 3600, "GMT", Ghost(g))
        .step(701830800, 3600, 0, "IST", Ghost(g))
        .step(719974800, -3600, 3600, "GMT", Ghost(g))
        .step(733280400, 3600, 0, "IST", Ghost(g))
        .step(751424400, -3600, 3600, "GMT", Ghost(g))
        .step(764730000, 3600, 0, "IST", Ghost(g))
        .step(782874000, -3600, 3600, "GMT", Ghost(g))
        .step(796179600, 3600, 0, "IST", Ghost(g))
        .step(814323600, -3600, 3600, "GMT", Ghost(g))
        .step(828234000, 3600, 0, "IST", Ghost(g))
        .step(846378000, -3600, 3600, "GMT", Ghost(g))
        .step(859683600, 3600, 0, "IST", Ghost(g))
        .step(877827600, -3600, 3600, "GMT", Ghost(g))
        .step(891133200, 3600, 0, "IST", Ghost(g))
        .step(909277200, -3600, 3600, "GMT", Ghost(g))
        .step(922582800, 3600, 0, "IST", Ghost(g))
        .step(941331600, -3600, 3600, "GMT", Ghost(g))
        .step(954032400, 3600, 0, "IST", Ghost(g))
        .step(972781200, -3600, 3600, "GMT", Ghost(g))
        .step(985482000, 3600, 0, "IST", Ghost(g))
        .step(1004230800, -3600, 3600, "GMT", Ghost(g))
        .step(1017536400, 3600, 0, "IST", Ghost(g))
        .step(1035680400, -3600, 3600, "GMT", Ghost(g))
        .step(1048986000, 3600, 0, "IST", Ghost(g))
        .step(1067130000, -3600, 3600, "GMT", Ghost(g))
        .step(1080435600, 3600, 0, "IST", Ghost(g))
        .step(1099184400, -3600, 3600, "GMT", Ghost(g))
        .step(1111885200, 3600, 0, "IST", Ghost(g))
        .step(1130634000, -3600, 3600, "GMT", Ghost(g))
        .step(1143334800, 3600, 0, "IST", Ghost(g))
        .step(1162083600, -3600, 3600, "GMT", Ghost(g))
        .step(1174784400, 3600, 0, "IST", Ghost(g))
        .step(1193533200, -3600, 3600, "GMT", Ghost(g))
        .step(1206838800, 3600, 0, "IST", Ghost(g))
        .step(1224982800, -3600, 3600, "GMT", Ghost(g))
        .step(1238288400, 3600, 0, "IST", Ghost(g))
        .step(1256432400, -3600, 3600, "GMT", Ghost(g))
        .step(1269738000, 3600, 0, "IST", Ghost(g))
        .step(1288486800, -3600, 3600, "GMT", Ghost(g))
        .step(1301187600, 3600, 0, "IST", Ghost(g))
        .step(1319936400, -3600, 3600, "GMT", Ghost(g))
        .step(1332637200, 3600, 0, "IST", Ghost(g))
        .step(1351386000, -3600, 3600, "GMT", Ghost(g))
        .step(1364691600, 3600, 0, "IST", Ghost(g))
        .step(1382835600, -3600, 3600, "GMT", Ghost(g))
        .step(1396141200, 3600, 0, "IST", Ghost(g))
        .step(1414285200, -3600, 3600, "GMT", Ghost(g))
        .step(1427590800, 3600, 0, "IST", Ghost(g))
        .step(1445734800, -3600, 3600, "GMT", Ghost(g))
        .step(1459040400, 3600, 0, "IST", Ghost(g))
        .step(1477789200, -3600, 3600, "GMT", Ghost(g))
        .step(1490490000, 3600, 0, "IST", Ghost(g))
        .step(1509238800, -3600, 3600, "GMT", Ghost(g))
        .step(1521939600, 3600, 0, "IST", Ghost(g))
        .step(1540688400, -3600, 3600, "GMT", Ghost(g))
        .step(1553994000, 3600, 0, "IST", Ghost(g))
        .step(1572138000, -3600, 3600, "GMT", Ghost(g))
        .step(1585443600, 3600, 0, "IST", Ghost(g))
        .step(1603587600, -3600, 3600, "GMT", Ghost(g))
        .step(1616893200, 3600, 0, "IST", Ghost(g))
        .step(1635642000, -3600, 3600, "GMT", Ghost(g))
        .step(1648342800, 3600, 0, "IST", Ghost(g))
        .step(1667091600, -3600, 3600, "GMT", Ghost(g))
        .step(1679792400, 3600, 0, "IST", Ghost(g))
        .step(1698541200, -3600, 3600, "GMT", Ghost(g))
        .step(1711846800, 3600, 0, "IST", Ghost(g))
        .step(1729990800, -3600, 3600, "GMT", Ghost(g))
        .step(1743296400, 3600, 0, "IST", Ghost(g))
        .step(1761440400, -3600, 3600, "GMT", Ghost(g))
        .step(1774746000, 3600, 0, "IST", Ghost(g))
        .step(1792890000, -3600, 3600, "GMT", Ghost(g))
        .step(1806195600, 3600, 0, "IST", Ghost(g))
        .step(1824944400, -3600, 3600, "GMT", Ghost(g))
        .step(1837645200, 3600, 0, "IST", Ghost(g))
        .step(1856394000, -3600, 3600, "GMT", Ghost(g))
        .step(1869094800, 3600, 0, "IST", Ghost(g))
        .step(1887843600, -3600, 3600, "GMT", Ghost(g))
        .step(1901149200, 3600, 0, "IST", Ghost(g))
        .step(1919293200, -3600, 3600, "GMT", Ghost(g))
        .step(1932598800, 3600, 0, "IST", Ghost(g))
        .step(1950742800, -3600, 3600, "GMT", Ghost(g))
        .step(1964048400, 3600, 0, "IST", Ghost(g))
        .step(1982797200, -3600, 3600, "GMT", Ghost(g))
        .step(1995498000, 3600, 0, "IST", Ghost(g))
        .step(2014246800, -3600, 3600, "GMT", Ghost(g))
        .step(2026947600, 3600, 0, "IST", Ghost(g))
        .step(2045696400, -3600, 3600, "GMT", Ghost(g))
        .step(2058397200, 3600, 0, "IST", Ghost(g))
        .step(2077146000, -3600, 3600, "GMT", Ghost(g))
        .step(2090451600, 3600, 0, "IST", Ghost(g))
        .step(2108595600, -3600, 3600, "GMT", Ghost(g))
        .step(2121901200, 3600, 0, "IST", Ghost(g))
        .step(2140045200, -3600, 3600, "GMT", Ghost(g))
        .finish(Ghost(g))
}

/// The zone `Europe/Gibraltar`.
pub fn gibraltar() -> (r: Tz)
    ensures
        r.wf(),
        r.zone_name() == "Europe/Gibraltar"@,
        r.table() == tables::europe::gibraltar(),
{
    let ghost g = tables::europe::gibraltar_rows();
    FixedTimespanSet::begin("Europe/Gibraltar", -1284, 0, "LMT", Ghost(g))
        .step(-2821649916, 0, 0, "GMT", Ghost(g))
        .step(-1691964000, 0, 3600, "BST", Ghost(g))
        .step(-1680472800, 0, 0, "GMT", Ghost(g))
        .step(-1664143200, 0, 3600, "BST", Ghost(g))
        .step(-1650146400, 0, 0, "GMT", Ghost(g))
        .step(-1633903200, 0, 3600, "BST", Ghost(g))
        .step(-1617487200, 0, 0, "GMT", Ghost(g))
        .step(-1601848800, 0, 3600, "BST", Ghost(g))
        .step(-1586037600, 0, 0, "GMT", Ghost(g))
        .step(-1570399200, 0, 3600, "BST", Ghost(g))
        .step(-1552168800, 0, 0, "GMT", Ghost(g))
        .step(-1538344800, 0, 3600, "BST", Ghost(g))
        .step(-1522533600, 0, 0, "GMT", Ghost(g))
        .step(-1507500000, 0, 3600, "BST", Ghost(g))
        .step(-1490565600, 0, 0, "GMT", Ghost(g))
        .step(-1473631200, 0, 3600, "BST", Ghost(g))
        .step(-1460930400, 0, 0, "GMT", Ghost(g))
        .step(-1442786400, 0, 3600, "BST", Ghost(g))
        .step(-1428876000, 0, 0, "GMT", Ghost(g))
        .step(-1410732000, 0, 3600, "BST", Ghost(g))
        .step(-1396216800, 0, 0, "GMT", Ghost(g))
        .step(-1379282400, 0, 3600, "BST", Ghost(g))
        .step(-1364767200, 0, 0, "GMT", Ghost(g))
        .step(-1348437600, 0, 3600, "BST", Ghost(g))
        .step(-1333317600, 0, 0, "GMT", Ghost(g))
        .step(-1315778400, 0, 3600, "BST", Ghost(g))
        .step(-1301263200, 0, 0, "GMT", Ghost(g))
        .step(-1284328800, 0, 3600, "BST", Ghost(g))
        .step(-1269813600, 0, 0, "GMT", Ghost(g))
        .step(-1253484000, 0, 3600, "BST", Ghost(g))
        .step(-1238364000, 0, 0, "GMT", Ghost(g))
        .step(-1221429600, 0, 3600, "BST", Ghost(g))
        .step(-1206914400, 0, 0, "GMT", Ghost(g))
        .step(-1189980000, 0, 3600, "BST", Ghost(g))
        .step(-1175464800, 0, 0, "GMT", Ghost(g))
        .step(-1159135200, 0, 3600, "BST", Ghost(g))
        .step(-1143410400, 0, 0, "GMT", Ghost(g))
        .step(-1126476000, 0, 3600, "BST", Ghost(g))
        .step(-1111960800, 0, 0, "GMT", Ghost(g))
        .step(-1095631200, 0, 3600, "BST", Ghost(g))
        .step(-1080511200, 0, 0, "GMT", Ghost(g))
        .step(-1063576800, 0, 3600, "BST", Ghost(g))
        .step(-1049061600, 0, 0, "GMT", Ghost(g))
        .step(-1032127200, 0, 3600, "BST", Ghost(g))
        .step(-1017612000, 0, 0, "GMT", Ghost(g))
        .step(-1001282400, 0, 3600, "BST", Ghost(g))
        .step(-986162400, 0, 0, "GMT", Ghost(g))
        .step(-969228000, 0, 3600, "BST", Ghost(g))
        .step(-950479200, 0, 0, "GMT", Ghost(g))
        .step(-942012000, 0, 3600, "BST", Ghost(g))
        .step(-904518000, 0, 7200, "BDST", Ghost(g))
        .step(-896050800, 0, 3600, "BST", Ghost(g))
        .step(-875487600, 0, 7200, "BDST", Ghost(g))
        .step(-864601200, 0, 3600, "BST", Ghost(g))
        .step(-844038000, 0, 7200, "BDST", Ghost(g))
        .step(-832546800, 0, 3600, "BST", Ghost(g))
        .step(-812588400, 0, 7200, "BDST", Ghost(g))
        .step(-798073200, 0, 3600, "BST", Ghost(g))
        .step(-781052400, 0, 7200, "BDST", Ghost(g))
        .step(-772066800, 0, 3600, "BST", Ghost(g))
        .step(-764805600, 0, 0, "GMT", Ghost(g))
        .step(-748476000, 0, 3600, "BST", Ghost(g))
        .step(-733356000, 0, 0, "GMT", Ghost(g))
        .step(-719445600, 0, 3600, "BST", Ghost(g))
        .step(-717030000, 0, 7200, "BDST", Ghost(g))
        .step(-706748400, 0, 3600, "BST", Ghost(g))
        .step(-699487200, 0, 0, "GMT", Ghost(g))
        .step(-687996000, 0, 3600, "BST", Ghost(g))
        .step(-668037600, 0, 0, "GMT", Ghost(g))
        .step(-654732000, 0, 3600, "BST", Ghost(g))
        .step(-636588000, 0, 0, "GMT", Ghost(g))
        .step(-622072800, 0, 3600, "BST", Ghost(g))
        .step(-605743200, 0, 0, "GMT", Ghost(g))
        .step(-590623200, 0, 3600, "BST", Ghost(g))
        .step(-574293600, 0, 0, "GMT", Ghost(g))
        .step(-558568800, 0, 3600, "BST", Ghost(g))
        .step(-542239200, 0, 0, "GMT", Ghost(g))
        .step(-527119200, 0, 3600, "BST", Ghost(g))
        .step(-512604000, 0, 0, "GMT", Ghost(g))
        .step(-496274400, 0, 3600, "BST", Ghost(g))
        .step(-481154400, 0, 0, "GMT", Ghost(g))
        .step(-464220000, 0, 3600, "BST", Ghost(g))
        .step(-449704800, 0, 0, "GMT", Ghost(g))
        .step(-432165600, 0, 3600, "BST", Ghost(g))
        .step(-417650400, 0, 0, "GMT", Ghost(g))
        .step(-401320800, 3600, 0, "CET", Ghost(g))
        .step(386125200, 3600, 3600, "CEST", Ghost(g))
        .step(401850000, 3600, 0, "CET", Ghost(g))
        .step(417574800, 3600, 3600, "CEST", Ghost(g))
        .step(433299600, 3600, 0, "CET", Ghost(g))
        .step(449024400, 3600, 3600, "CEST", Ghost(g))
        .step(465354000, 3600, 0, "CET", Ghost(g))
        .step(481078800, 3600, 3600, "CEST", Ghost(g))
        .step(496803600, 3600, 0, "CET", Ghost(g))
        .step(512528400, 3600, 3600, "CEST", Ghost(g))
        .step(528253200, 3600, 0, "CET", Ghost(g))
        .step(543978000, 3600, 3600, "CEST", Ghost(g))
        .step(559702800, 3600, 0, "CET", Ghost(g))
        .step(575427600, 3600, 3600, "CEST", Ghost(g))
        .step(591152400, 3600, 0, "CET", Ghost(g))
        .step(606877200, 3600, 3600, "CEST", Ghost(g))
        .step(622602000, 3600, 0, "CET", Ghost(g))
        .step(638326800, 3600, 3600, "CEST", Ghost(g))
        .step(654656400, 3600, 0, "CET", Ghost(g))
        .step(670381200, 3600, 3600, "CEST", Ghost(g))
        .step(686106000, 3600, 0, "CET", Ghost(g))
        .step(701830800, 3600, 3600, "CEST", Ghost(g))
        .step(717555600, 3600, 0, "CET", Ghost(g))
        .step(733280400, 3600, 3600, "CEST", Ghost(g))
        .step(749005200, 3600, 0, "CET", Ghost(g))
        .step(764730000, 3600, 3600, "CEST", Ghost(g))
        .step(780454800, 3600, 0, "CET", Ghost(g))
        .step(796179600, 3600, 3600, "CEST", Ghost(g))
        .step(811904400, 3600, 0, "CET", Ghost(g))
        .step(828234000, 3600, 3600, "CEST", Ghost(g))
        .step(846378000, 3600, 0, "CET", Ghost(g))
        .step(859683600, 3600, 3600, "CEST", Ghost(g))
        .step(877827600, 3600, 0, "CET", Ghost(g))
        .step(891133200, 3600, 3600, "CEST", Ghost(g))
        .step(909277200, 3600, 0, "CET", Ghost(g))
        .step(922582800, 3600, 3600, "CEST", Ghost(g))
        .step(941331600, 3600, 0, "CET", Ghost(g))
        .step(954032400, 3600, 3600, "CEST", Ghost(g))
        .step(972781200, 3600, 0, "CET", Ghost(g))
        .step(985482000, 3600, 3600, "CEST", Ghost(g))
        .step(1004230800, 3600, 0, "CET", Ghost(g))
        .step(1017536400, 3600, 3600, "CEST", Ghost(g))
        .step(1035680400, 3600, 0, "CET", Ghost(g))
        .step(1048986000, 3600, 3600, "CEST", Ghost(g))
        .step(1067130000, 3600, 0, "CET", Ghost(g))
        .step(1080435600, 3600, 3600, "CEST", Ghost(g))
        .step(1099184400, 3600, 0, "CET", Ghost(g))
        .step(1111885200, 3600, 3600, "CEST", Ghost(g))
        .step(1130634000, 3600, 0, "CET", Ghost(g))
        .step(1143334800, 3600, 3600, "CEST", Ghost(g))
        .step(1162083600, 3600, 0, "CET", Ghost(g))
        .step(1174784400, 3600, 3600, "CEST", Ghost(g))
        .step(1193533200, 3600, 0, "CET", Ghost(g))
        .step(1206838800, 3600, 3600, "CEST", Ghost(g))
        .step(1224982800, 3600, 0, "CET", Ghost(g))
        .step(1238288400, 3600, 3600, "CEST", Ghost(g))
        .step(1256432400, 3600, 0, "CET", Ghost(g))
        .step(1269738000, 3600, 3600, "CEST", Ghost(g))
        .step(1288486800, 3600, 0, "CET", Ghost(g))
        .step(1301187600, 3600, 3600, "CEST", Ghost(g))
        .step(1319936400, 3600, 0, "CET", Ghost(g))
        .step(1332637200, 3600, 3600, "CEST", Ghost(g))
        .step(1351386000, 3600, 0, "CET", Ghost(g))
        .step(1364691600, 3600, 3600, "CEST", Ghost(g))
        .step(1382835600, 3600, 0, "CET", Ghost(g))
        .step(1396141200, 3600, 3600, "CEST", Ghost(g))
        .step(1414285200, 3600, 0, "CET", Ghost(g))
        .step(1427590800, 3600, 3600, "CEST", Ghost(g))
        .step(1445734800, 3600, 0, "CET", Ghost(g))
        .step(1459040400, 3600, 3600, "CEST", Ghost(g))
        .step(1477789200, 3600, 0, "CET", Ghost(g))
        .step(1490490000, 3600, 3600, "CEST", Ghost(g))
        .step(1509238800, 3600, 0, "CET", Ghost(g))
        .step(1521939600, 3600, 3600, "CEST", Ghost(g))
        .step(1540688400, 3600, 0, "CET", Ghost(g))
        .step(1553994000, 3600, 3600, "CEST", Ghost(g))
        .step(1572138000, 3600, 0, "CET", Ghost(g))
        .step(1585443600, 3600, 3600, "CEST", Ghost(g))
        .step(1603587600, 3600, 0, "CET", Ghost(g))
        .step(1616893200, 3600, 3600, "CEST", Ghost(g))
        .step(1635642000, 3600, 0, "CET", Ghost(g))
        .step(1648342800, 3600, 3600, "CEST", Ghost(g))
        .step(1667091600, 3600, 0, "CET", Ghost(g))
        .step(1679792400, 3600, 3600, "CEST", Ghost(g))
        .step(1698541200, 3600, 0, "CET", Ghost(g))
        .step(1711846800, 3600, 3600, "CEST", Ghost(g))
        .step(1729990800, 3600, 0, "CET", Ghost(g))
        .step(1743296400, 3600, 3600, "CEST", Ghost(g))
        .step(1761440400, 3600, 0, "CET", Ghost(g))
        .step(1774746000, 3600, 3600, "CEST", Ghost(g))
        .step(1792890000, 3600, 0, "CET", Ghost(g))
        .step(1806195600, 3600, 3600, "CEST", Ghost(g))
        .step(1824944400, 3600, 0, "CET", Ghost(g))
        .step(1837645200, 3600, 3600, "CEST", Ghost(g))
        .step(1856394000, 3600, 0, "CET", Ghost(g))
        .step(1869094800, 3600, 3600, "CEST", Ghost(g))
        .step(1887843600, 3600, 0, "CET", Ghost(g))
        .step(1901149200, 3600, 3600, "CEST", Ghost(g))
        .step(1919293200, 3600, 0, "CET", Ghost(g))
        .step(1932598800, 3600, 3600, "CEST", Ghost(g))
        .step(1950742800, 3600, 0, "CET", Ghost(g))
        .step(1964048400, 3600, 3600, "CEST", Ghost(g))
        .step(1982797200, 3600, 0, "CET", Ghost(g))
        .step(1995498000, 3600, 3600, "CEST", Ghost(g))
        .step(2014246800, 3600, 0, "CET", Ghost(g))
        .step(2026947600, 3600, 3600, "CEST", Ghost(g))
        .step(2045696400, 3600, 0, "CET", Ghost(g))
        .step(2058397200, 3600, 3600, "CEST", Ghost(g))
        .step(2077146000, 3600, 0, "CET", Ghost(g))
        .step(2090451600, 3600, 3600, "CEST", Ghost(g))
        .step(2108595600, 3600, 0, "CET", Ghost(g))
        .step(2121901200, 3600, 3600, "CEST", Ghost(g))
        .step(2140045200, 3600, 0, "CET", Ghost(g))
        .finish(Ghost(g))
}

/// The zone `Europe/Guernsey`.
pub fn guernsey() -> (r: Tz)
    ensures
        r.wf(),
        r.zone_name() == "Europe/Guernsey"@,
        r.table() == tables::europe::guernsey(),
{
    let ghost g = tables::europe::guernsey_rows();
    FixedTimespanSet::begin("Europe/Guernsey", -609, 0, "LMT", Ghost(g))
        .step(-1784245791, 0, 0, "GMT", Ghost(g))
        .step(-1691964000, 0, 3600, "BST", Ghost(g))
        .step(-1680472800, 0, 0, "GMT", Ghost(g))
        .step(-1664143200, 0, 3600, "BST", Ghost(g))
        .step(-1650146400, 0, 0, "GMT", Ghost(g))
        .step(-1633903200, 0, 3600, "BST", Ghost(g))
        .step(-1617487200, 0, 0, "GMT", Ghost(g))
        .step(-1601848800, 0, 3600, "BST", Ghost(g))
        .step(-1586037600, 0, 0, "GMT", Ghost(g))
        .step(-1570399200, 0, 3600, "BST", Ghost(g))
        .step(-1552168800, 0, 0, "GMT", Ghost(g))
        .step(-1538344800, 0, 3600, "BST", Ghost(g))
        .step(-1522533600, 0, 0, "GMT", Ghost(g))
        .step(-1507500000, 0, 3600, "BST", Ghost(g))
        .step(-1490565600, 0, 0, "GMT", Ghost(g))
        .step(-1473631200, 0, 3600, "BST", Ghost(g))
        .step(-1460930400, 0, 0, "GMT", Ghost(g))
        .step(-1442786400, 0, 3600, "BST", Ghost(g))
        .step(-1428876000, 0, 0, "GMT", Ghost(g))
        .step(-1410732000, 0, 3600, "BST", Ghost(g))
        .step(-1396216800, 0, 0, "GMT", Ghost(g))
        .step(-1379282400, 0, 3600, "BST", Ghost(g))
        .step(-1364767200, 0, 0, "GMT", Ghost(g))
        .step(-1348437600, 0, 3600, "BST", Ghost(g))
        .step(-1333317600, 0, 0, "GMT", Ghost(g))
        .step(-1315778400, 0, 3600, "BST", Ghost(g))
        .step(-1301263200, 0, 0, "GMT", Ghost(g))
        .step(-1284328800, 0, 3600, "BST", Ghost(g))
        .step(-1269813600, 0, 0, "GMT", Ghost(g))
        .step(-1253484000, 0, 3600, "BST", Ghost(g))
        .step(-1238364000, 0, 0, "GMT", Ghost(g))
        .step(-1221429600, 0, 3600, "BST", Ghost(g))
        .step(-1206914400, 0, 0, "GMT", Ghost(g))
        .step(-1189980000, 0, 3600, "BST", Ghost(g))
        .step(-1175464800, 0, 0, "GMT", Ghost(g))
        .step(-1159135200, 0, 3600, "BST", Ghost(g))
        .step(-1143410400, 0, 0, "GMT", Ghost(g))
        .step(-1126476000, 0, 3600, "BST", Ghost(g))
        .step(-1111960800, 0, 0, "GMT", Ghost(g))
        .step(-1095631200, 0, 3600, "BST", Ghost(g))
        .step(-1080511200, 0, 0, "GMT", Ghost(g))
        .step(-1063576800, 0, 3600, "BST", Ghost(g))
        .step(-1049061600, 0, 0, "GMT", Ghost(g))
        .step(-1032127200, 0, 3600, "BST", Ghost(g))
        .step(-1017612000, 0, 0, "GMT", Ghost(g))
        .step(-1001282400, 0, 3600, "BST", Ghost(g))
        .step(-986162400, 0, 0, "GMT", Ghost(g))
        .step(-969228000, 0, 3600, "BST", Ghost(g))
        .step(-950479200, 0, 0, "GMT", Ghost(g))
        .step(-942012000, 0, 3600, "BST", Ghost(g))
        .step(-930963600, 0, 7200, "CEST", Ghost(g))
        .step(-857257200, 3600, 0, "CET", Ghost(g))
        .step(-844556400, 3600, 3600, "CEST", Ghost(g))
        .step(-828226800, 3600, 0, "CET", Ghost(g))
        .step(-812502000, 3600, 3600, "CEST", Ghost(g))
        .step(-796777200, 3600, 0, "CET", Ghost(g))
        .step(-781052400, 3600, 3600, "CEST", Ghost(g))
        .step(-777952800, 3600, 3600, "BDST", Ghost(g))
        .step(-772066800, 0, 3600, "BST", Ghost(g))
        .step(-764805600, 0, 0, "GMT", Ghost(g))
        .step(-748476000, 0, 3600, "BST", Ghost(g))
        .step(-733356000, 0, 0, "GMT", Ghost(g))
        .step(-719445600, 0, 3600, "BST", Ghost(g))
        .step(-717030000, 0, 7200, "BDST", Ghost(g))
        .step(-706748400, 0, 3600, "BST", Ghost(g))
        .step(-699487200, 0, 0, "GMT", Ghost(g))
        .step(-687996000, 0, 3600, "BST", Ghost(g))
        .step(-668037600, 0, 0, "GMT", Ghost(g))
        .step(-654732000, 0, 3600, "BST", Ghost(g))
        .step(-636588000, 0, 0, "GMT", Ghost(g))
        .step(-622072800, 0, 3600, "BST", Ghost(g))
        .step(-605743200, 0, 0, "GMT", Ghost(g))
        .step(-590623200, 0, 3600, "BST", Ghost(g))
        .step(-574293600, 0, 0, "GMT", Ghost(g))
        .step(-558568800, 0, 3600, "BST", Ghost(g))
        .step(-542239200, 0, 0, "GMT", Ghost(g))
        .step(-527119200, 0, 3600, "BST", Ghost(g))
        .step(-512604000, 0, 0, "GMT", Ghost(g))
        .step(-496274400, 0, 3600, "BST", Ghost(g))
        .step(-481154400, 0, 0, "GMT", Ghost(g))
        .step(-464220000, 0, 3600, "BST", Ghost(g))
        .step(-449704800, 0, 0, "GMT", Ghost(g))
        .step(-432165600, 0, 3600, "BST", Ghost(g))
        .step(-417650400, 0, 0, "GMT", Ghost(g))
        .step(-401320800, 0, 3600, "BST", Ghost(g))
        .step(-386200800, 0, 0, "GMT", Ghost(g))
        .step(-369266400, 0, 3600, "BST", Ghost(g))
        .step(-354751200, 0, 0, "GMT", Ghost(g))
        .step(-337816800, 0, 3600, "BST", Ghost(g))
        .step(-323301600, 0, 0, "GMT", Ghost(g))
        .step(-306972000, 0, 3600, "BST", Ghost(g))
        .step(-291852000, 0, 0, "GMT", Ghost(g))
        .step(-276732000, 0, 3600, "BST", Ghost(g))
        .step(-257983200, 0, 0, "GMT", Ghost(g))
        .step(-245282400, 0, 3600, "BST", Ghost(g))
        .step(-226533600, 0, 0, "GMT", Ghost(g))
        .step(-213228000, 0, 3600, "BST", Ghost(g))
        .step(-195084000, 0, 0, "GMT", Ghost(g))
        .step(-182383200, 0, 3600, "BST", Ghost(g))
        .step(-163634400, 0, 0, "GMT", Ghost(g))
        .step(-150933600, 0, 3600, "BST", Ghost(g))
        .step(-132184800, 0, 0, "GMT", Ghost(g))
        .step(-119484000, 0, 3600, "BST", Ghost(g))
        .step(-100735200, 0, 0, "GMT", Ghost(g))
        .step(-88034400, 0, 3600, "BST", Ghost(g))
        .step(-68680800, 0, 0, "GMT", Ghost(g))
        .step(-59004000, 0, 3600, "BST", Ghost(g))
        .step(-37242000, 3600, 0, "BST", Ghost(g))
        .step(57722400, 0, 0, "GMT", Ghost(g))
        .step(69818400, 0, 3600, "BST", Ghost(g))
        .step(89172000, 0, 0, "GMT", Ghost(g))
        .step(101268000, 0, 3600, "BST", Ghost(g))
        .step(120621600, 0, 0, "GMT", Ghost(g))
        .step(132717600, 0, 3600, "BST", Ghost(g))
        .step(152071200, 0, 0, "GMT", Ghost(g))
        .step(164167200, 0, 3600, "BST", Ghost(g))
        .step(183520800, 0, 0, "GMT", Ghost(g))
        .step(196221600, 0, 3600, "BST", Ghost(g))
        .step(214970400, 0, 0, "GMT", Ghost(g))
        .step(227671200, 0, 3600, "BST", Ghost(g))
        .step(246420000, 0, 0, "GMT", Ghost(g))
        .step(259120800, 0, 3600, "BST", Ghost(g))
        .step(278474400, 0, 0, "GMT", Ghost(g))
        .step(290570400, 0, 3600, "BST", Ghost(g))
        .step(309924000, 0, 0, "GMT", Ghost(g))
        .step(322020000, 0, 3600, "BST", Ghost(g))
        .step(341373600, 0, 0, "GMT", Ghost(g))
        .step(354675600, 0, 3600, "BST", Ghost(g))
        .step(372819600, 0, 0, "GMT", Ghost(g))
        .step(386125200, 0, 3600, "BST", Ghost(g))
        .step(404269200, 0, 0, "GMT", Ghost(g))
        .step(417574800, 0, 3600, "BST", Ghost(g))
        .step(435718800, 0, 0, "GMT", Ghost(g))
        .step(449024400, 0, 3600, "BST", Ghost(g))
        .step(467773200, 0, 0, "GMT", Ghost(g))
        .step(481078800, 0, 3600, "BST", Ghost(g))
        .step(499222800, 0, 0, "GMT", Ghost(g))
        .step(512528400, 0, 3600, "BST", Ghost(g))
        .step(530672400, 0, 0, "GMT", Ghost(g))
        .step(543978000, 0, 3600, "BST", Ghost(g))
        .step(562122000, 0, 0, "GMT", Ghost(g))
        .step(575427600, 0, 3600, "BST", Ghost(g))
        .step(593571600, 0, 0, "GMT", Ghost(g))
        .step(606877200, 0, 3600, "BST", Ghost(g))
        .step(625626000, 0, 0, "GMT", Ghost(g))
        .step(638326800, 0, 3600, "BST", Ghost(g))
        .step(657075600, 0, 0, "GMT", Ghost(g))
        .step(670381200, 0, 3600, "BST", Ghost(g))
        .step(688525200, 0, 0, "GMT", Ghost(g))
        .step(701830800, 0, 3600, "BST", Ghost(g))
        .step(719974800, 0, 0, "GMT", Ghost(g))
        .step(733280400, 0, 3600, "BST", Ghost(g))
        .step(751424400, 0, 0, "GMT", Ghost(g))
        .step(764730000, 0, 3600, "BST", Ghost(g))
        .step(782874000, 0, 0, "GMT", Ghost(g))
        .step(796179600, 0, 3600, "BST", Ghost(g))
        .step(814323600, 0, 0, "GMT", Ghost(g))
        .step(828234000, 0, 3600, "BST", Ghost(g))
        .step(846378000, 0, 0, "GMT", Ghost(g))
        .step(859683600, 0, 3600, "BST", Ghost(g))
        .step(877827600, 0, 0, "GMT", Ghost(g))
        .step(891133200, 0, 3600, "BST", Ghost(g))
        .step(909277200, 0, 0, "GMT", Ghost(g))
        .step(922582800, 0, 3600, "BST", Ghost(g))
        .step(941331600, 0, 0, "GMT", Ghost(g))
        .step(954032400, 0, 3600, "BST", Ghost(g))
        .step(972781200, 0, 0, "GMT", Ghost(g))
        .step(985482000, 0, 3600, "BST", Ghost(g))
        .step(1004230800, 0, 0, "GMT", Ghost(g))
        .step(1017536400, 0, 3600, "BST", Ghost(g))
        .step(1035680400, 0, 0, "GMT", Ghost(g))
        .step(1048986000, 0, 3600, "BST", Ghost(g))
        .step(1067130000, 0, 0, "GMT", Ghost(g))
        .step(1080435600, 0, 3600, "BST", Ghost(g))
        .step(1099184400, 0, 0, "GMT", Ghost(g))
        .step(1111885200, 0, 3600, "BST", Ghost(g))
        .step(1130634000, 0, 0, "GMT", Ghost(g))
        .step(1143334800, 0, 3600, "BST", Ghost(g))
        .step(1162083600, 0, 0, "GMT", Ghost(g))
        .step(1174784400, 0, 3600, "BST", Ghost(g))
        .step(1193533200, 0, 0, "GMT", Ghost(g))
        .step(1206838800, 0, 3600, "BST", Ghost(g))
        .step(1224982800, 0, 0, "GMT", Ghost(g))
        .step(1238288400, 0, 3600, "BST", Ghost(g))
        .step(1256432400, 0, 0, "GMT", Ghost(g))
        .step(1269738000, 0, 3600, "BST", Ghost(g))
        .step(1288486800, 0, 0, "GMT", Ghost(g))
        .step(1301187600, 0, 3600, "BST", Ghost(g))
        .step(1319936400, 0, 0, "GMT", Ghost(g))
        .step(1332637200, 0, 3600, "BST", Ghost(g))
        .step(1351386000, 0, 0, "GMT", Ghost(g))
        .step(1364691600, 0, 3600, "BST", Ghost(g))
        .step(1382835600, 0, 0, "GMT", Ghost(g))
        .step(1396141200, 0, 3600, "BST", Ghost(g))
        .step(1414285200, 0, 0, "GMT", Ghost(g))
        .step(1427590800, 0, 3600, "BST", Ghost(g))
        .step(1445734800, 0, 0, "GMT", Ghost(g))
        .step(1459040400, 0, 3600, "BST", Ghost(g))
        .step(1477789200, 0, 0, "GMT", Ghost(g))
        .step(1490490000, 0, 3600, "BST", Ghost(g))
        .step(1509238800, 0, 0, "GMT", Ghost(g))
        .step(1521939600, 0, 3600, "BST", Ghost(g))
        .step(1540688400, 0, 0, "GMT", Ghost(g))
        .step(1553994000, 0, 3600, "BST", Ghost(g))
        .step(1572138000, 0, 0, "GMT", Ghost(g))
        .step(1585443600, 0, 3600, "BST", Ghost(g))
        .step(1603587600, 0, 0, "GMT", Ghost(g))
        .step(1616893200, 0, 3600, "BST", Ghost(g))
        .step(1635642000, 0, 0, "GMT", Ghost(g))
        .step(1648342800, 0, 3600, "BST", Ghost(g))
        .step(1667091600, 0, 0, "GMT", Ghost(g))
        .step(1679792400, 0, 3600, "BST", Ghost(g))
        .step(1698541200, 0, 0, "GMT", Ghost(g))
        .step(1711846800, 0, 3600, "BST", Ghost(g))
        .step(1729990800, 0, 0, "GMT", Ghost(g))
        .step(1743296400, 0, 3600, "BST", Ghost(g))
        .step(1761440400, 0, 0, "GMT", Ghost(g))
        .step(1774746000, 0, 3600, "BST", Ghost(g))
        .step(1792890000, 0, 0, "GMT", Ghost(g))
        .step(1806195600, 0, 3600, "BST", Ghost(g))
        .step(1824944400, 0, 0, "GMT", Ghost(g))
        .step(1837645200, 0, 3600, "BST", Ghost(g))
        .step(1856394000, 0, 0, "GMT", Ghost(g))
        .step(1869094800, 0, 3600, "BST", Ghost(g))
        .step(1887843600, 0, 0, "GMT", Ghost(g))
        .step(1901149200, 0, 3600, "BST", Ghost(g))
        .step(1919293200, 0, 0, "GMT", Ghost(g))
        .step(1932598800, 0, 3600, "BST", Ghost(g))
        .step(1950742800, 0, 0, "GMT", Ghost(g))
        .step(1964048400, 0, 3600, "BST", Ghost(g))
        .step(1982797200, 0, 0, "GMT", Ghost(g))
        .step(1995498000, 0, 3600, "BST", Ghost(g))
        .step(2014246800, 0, 0, "GMT", Ghost(g))
        .step(2026947600, 0, 3600, "BST", Ghost(g))
        .step(2045696400, 0, 0, "GMT", Ghost(g))
        .step(2058397200, 0, 3600, "BST", Ghost(g))
        .step(2077146000, 0, 0, "GMT", Ghost(g))
        .step(2090451600, 0, 3600, "BST", Ghost(g))
        .step(2108595600, 0, 0, "GMT", Ghost(g))
        .step(2121901200, 0, 3600, "BST", Ghost(g))
        .step(2140045200, 0, 0, "GMT", Ghost(g))
        .finish(Ghost(g))
}

/// The zone `Europe/Helsinki`.
pub fn helsinki() -> (r: Tz)
    ensures
        r.wf(),
        r.zone_name() == "Europe/Helsinki"@,
        r.table() == tables::europe::helsinki(),
{
    let ghost g = tables::europe::helsinki_rows();
    FixedTimespanSet::begin("Europe/Helsinki", 5989, 0, "LMT", Ghost(g))
        .step(-2890258789, 5989, 0, "HMT", Ghost(g))
        .step(-1535938789, 7200, 0, "EET", Ghost(g))
        .step(-875671200, 7200, 3600, "EEST", Ghost(g))
        .step(-859773600, 7200, 0, "EET", Ghost(g))
        .step(354672000, 7200, 3600, "EEST", Ghost(g))
        .step(370396800, 7200, 0, "EET", Ghost(g))
        .step(386121600, 7200, 3600, "EEST", Ghost(g))
        .step(401846400, 7200, 0, "EET", Ghost(g))
        .step(417574800, 7200, 3600, "EEST", Ghost(g))
        .step(433299600, 7200, 0, "EET", Ghost(g))
        .step(449024400, 7200, 3600, "EEST", Ghost(g))
        .step(465354000, 7200, 0, "EET", Ghost(g))
        .step(481078800, 7200, 3600, "EEST", Ghost(g))
        .step(496803600, 7200, 0, "EET", Ghost(g))
        .step(512528400, 7200, 3600, "EEST", Ghost(g))
        .step(528253200, 7200, 0, "EET", Ghost(g))
        .step(543978000, 7200, 3600, "EEST", Ghost(g))
        .step(559702800, 7200, 0, "EET", Ghost(g))
        .step(575427600, 7200, 3600, "EEST", Ghost(g))
        .step(591152400, 7200, 0, "EET", Ghost(g))
        .step(606877200, 7200, 3600, "EEST", Ghost(g))
        .step(622602000, 7200, 0, "EET", Ghost(g))
        .step(638326800, 7200, 3600, "EEST", Ghost(g))
        .step(654656400, 7200, 0, "EET", Ghost(g))
        .step(670381200, 7200, 3600, "EEST", Ghost(g))
        .step(686106000, 7200, 0, "EET", Ghost(g))
        .step(701830800, 7200, 3600, "EEST", Ghost(g))
        .step(717555600, 7200, 0, "EET", Ghost(g))
        .step(733280400, 7200, 3600, "EEST", Ghost(g))
        .step(749005200, 7200, 0, "EET", Ghost(g))
        .step(764730000, 7200, 3600, "EEST", Ghost(g))
        .step(780454800, 7200, 0, "EET", Ghost(g))
        .step(796179600, 7200, 3600, "EEST", Ghost(g))
        .step(811904400, 7200, 0, "EET", Ghost(g))
        .step(828234000, 7200, 3600, "EEST", Ghost(g))
        .step(846378000, 7200, 0, "EET", Ghost(g))
        .step(859683600, 7200, 3600, "EEST", Ghost(g))
        .step(877827600, 7200, 0, "EET", Ghost(g))
        .step(891133200, 7200, 3600, "EEST", Ghost(g))
        .step(909277200, 7200, 0, "EET", Ghost(g))
        .step(922582800, 7200, 3600, "EEST", Ghost(g))
        .step(941331600, 7200, 0, "EET", Ghost(g))
        .step(954032400, 7200, 3600, "EEST", Ghost(g))
        .step(972781200, 7200, 0, "EET", Ghost(g))
        .step(985482000, 7200, 3600, "EEST", Ghost(g))
        .step(1004230800, 7200, 0, "EET", Ghost(g))
        .step(1017536400, 7200, 3600, "EEST", Ghost(g))
        .step(1035680400, 7200, 0, "EET", Ghost(g))
        .step(1048986000, 7200, 3600, "EEST", Ghost(g))
        .step(1067130000, 7200, 0, "EET", Ghost(g))
        .step(1080435600, 7200, 3600, "EEST", Ghost(g))
        .step(1099184400, 7200, 0, "EET", Ghost(g))
        .step(1111885200, 7200, 3600, "EEST", Ghost(g))
        .step(1130634000, 7200, 0, "EET", Ghost(g))
        .step(1143334800, 7200, 3600, "EEST", Ghost(g))
        .step(1162083600, 7200, 0, "EET", Ghost(g))
        .step(1174784400, 7200, 3600, "EEST", Ghost(g))
        .step(1193533200, 7200, 0, "EET", Ghost(g))
        .step(1206838800, 7200, 3600, "EEST", Ghost(g))
        .step(1224982800, 7200, 0, "EET", Ghost(g))
        .step(1238288400, 7200, 3600, "EEST", Ghost(g))
        .step(1256432400, 7200, 0, "EET", Ghost(g))
        .step(1269738000, 7200, 3600, "EEST", Ghost(g))
        .step(1288486800, 7200, 0, "EET", Ghost(g))
        .step(1301187600, 7200, 3600, "EEST", Ghost(g))
        .step(1319936400, 7200, 0, "EET", Ghost(g))
        .step(1332637200, 7200, 3600, "EEST", Ghost(g))
        .step(1351386000, 7200, 0, "EET", Ghost(g))
        .step(1364691600, 7200, 3600, "EEST", Ghost(g))
        .step(1382835600, 7200, 0, "EET", Ghost(g))
        .step(1396141200, 7200, 3600, "EEST", Ghost(g))
        .step(1414285200, 7200, 0, "EET", Ghost(g))
        .step(1427590800, 7200, 3600, "EEST", Ghost(g))
        .step(1445734800, 7200, 0, "EET", Ghost(g))
        .step(1459040400, 7200, 3600, "EEST", Ghost(g))
        .step(1477789200, 7200, 0, "EET", Ghost(g))
        .step(1490490000, 7200, 3600, "EEST", Ghost(g))
        .step(1509238800, 7200, 0, "EET", Ghost(g))
        .step(1521939600, 7200, 3600, "EEST", Ghost(g))
        .step(1540688400, 7200, 0, "EET", Ghost(g))
        .step(1553994000, 7200, 3600, "EEST", Ghost(g))
        .step(1572138000, 7200, 0, "EET", Ghost(g))
        .step(1585443600, 7200, 3600, "EEST", Ghost(g))
        .step(1603587600, 7200, 0, "EET", Ghost(g))
        .step(1616893200, 7200, 3600, "EEST", Ghost(g))
        .step(1635642000, 7200, 0, "EET", Ghost(g))
        .step(1648342800, 7200, 3600, "EEST", Ghost(g))
        .step(1667091600, 7200, 0, "EET", Ghost(g))
        .step(1679792400, 7200, 3600, "EEST", Ghost(g))
        .step(1698541200, 7200, 0, "EET", Ghost(g))
        .step(1711846800, 7200, 3600, "EEST", Ghost(g))
        .step(1729990800, 7200, 0, "EET", Ghost(g))
        .step(1743296400, 7200, 3600, "EEST", Ghost(g))
        .step(1761440400, 7200, 0, "EET", Ghost(g))
        .step(1774746000, 7200, 3600, "EEST", Ghost(g))
        .step(1792890000, 7200, 0, "EET", Ghost(g))
        .step(1806195600, 7200, 3600, "EEST", Ghost(g))
        .step(1824944400, 7200, 0, "EET", Ghost(g))
        .step(1837645200, 7200, 3600, "EEST", Ghost(g))
        .step(1856394000, 7200, 0, "EET", Ghost(g))
        .step(1869094800, 7200, 3600, "EEST", Ghost(g))
        .step(1887843600, 7200, 0, "EET", Ghost(g))
        .step(1901149200, 7200, 3600, "EEST", Ghost(g))
        .step(1919293200, 7200, 0, "EET", Ghost(g))
        .step(1932598800, 7200, 3600, "EEST", Ghost(g))
        .step(1950742800, 7200, 0, "EET", Ghost(g))
        .step(1964048400, 7200, 3600, "EEST", Ghost(g))
        .step(1982797200, 7200, 0, "EET", Ghost(g))
        .step(1995498000, 7200, 3600, "EEST", Ghost(g))
        .step(2014246800, 7200, 0, "EET", Ghost(g))
        .step(2026947600, 7200, 3600, "EEST", Ghost(g))
        .step(2045696400, 7200, 0, "EET", Ghost(g))
        .step(2058397200, 7200, 3600, "EEST", Ghost(g))
        .step(2077146000, 7200, 0, "EET", Ghost(g))
        .step(2090451600, 7200, 3600, "EEST", Ghost(g))
        .step(2108595600, 7200, 0, "EET", Ghost(g))
        .step(2121901200, 7200, 3600, "EEST", Ghost(g))
        .step(2140045200, 7200, 0, "EET", Ghost(g))
        .finish(Ghost(g))
}

/// The zone `Europe/Isle_of_Man`.
pub fn isle_of_man() -> (r: Tz)
    ensures
        r.wf(),
        r.zone_name() == "Europe/Isle_of_Man"@,
        r.table() == tables::europe::isle_of_man(),
{
    let ghost g = tables::europe::isle_of_man_rows();
    FixedTimespanSet::begin("Europe/Isle_of_Man", -1075, 0, "LMT", Ghost(g))
        .step(-2737842125, 0, 0, "GMT", Ghost(g))
        .step(-1691964000, 0, 3600, "BST", Ghost(g))
        .step(-1680472800, 0, 0, "GMT", Ghost(g))
        .step(-1664143200, 0, 3600, "BST", Ghost(g))
        .step(-1650146400, 0, 0, "GMT", Ghost(g))
        .step(-1633903200, 0, 3600, "BST", Ghost(g))
        .step(-1617487200, 0, 0, "GMT", Ghost(g))
        .step(-1601848800, 0, 3600, "BST", Ghost(g))
        .step(-1586037600, 0, 0, "GMT", Ghost(g))
        .step(-1570399200, 0, 3600, "BST", Ghost(g))
        .step(-1552168800, 0, 0, "GMT", Ghost(g))
        .step(-1538344800, 0, 3600, "BST", Ghost(g))
        .step(-1522533600, 0, 0, "GMT", Ghost(g))
        .step(-1507500000, 0, 3600, "BST", Ghost(g))
        .step(-1490565600, 0, 0, "GMT", Ghost(g))
        .step(-1473631200, 0, 3600, "BST", Ghost(g))
        .step(-1460930400, 0, 0, "GMT", Ghost(g))
        .step(-1442786400, 0, 3600, "BST", Ghost(g))
        .step(-1428876000, 0, 0, "GMT", Ghost(g))
        .step(-1410732000, 0, 3600, "BST", Ghost(g))
        .step(-1396216800, 0, 0, "GMT", Ghost(g))
        .step(-1379282400, 0, 3600, "BST", Ghost(g))
        .step(-1364767200, 0, 0, "GMT", Ghost(g))
        .step(-1348437600, 0, 3600, "BST", Ghost(g))
        .step(-1333317600, 0, 0, "GMT", Ghost(g))
        .step(-1315778400, 0, 3600, "BST", Ghost(g))
        .step(-1301263200, 0, 0, "GMT", Ghost(g))
        .step(-1284328800, 0, 3600, "BST", Ghost(g))
        .step(-1269813600, 0, 0, "GMT", Ghost(g))
        .step(-1253484000, 0, 3600, "BST", Ghost(g))
        .step(-1238364000, 0, 0, "GMT", Ghost(g))
        .step(-1221429600, 0, 3600, "BST", Ghost(g))
        .step(-1206914400, 0, 0, "GMT", Ghost(g))
        .step(-1189980000, 0, 3600, "BST", Ghost(g))
        .step(-1175464800, 0, 0, "GMT", Ghost(g))
        .step(-1159135200, 0, 3600, "BST", Ghost(g))
        .step(-1143410400, 0, 0, "GMT", Ghost(g))
        .step(-1126476000, 0, 3600, "BST", Ghost(g))
        .step(-1111960800, 0, 0, "GMT", Ghost(g))
        .step(-1095631200, 0, 3600, "BST", Ghost(g))
        .step(-1080511200, 0, 0, "GMT", Ghost(g))
        .step(-1063576800, 0, 3600, "BST", Ghost(g))
        .step(-1049061600, 0, 0, "GMT", Ghost(g))
        .step(-1032127200, 0, 3600, "BST", Ghost(g))
        .step(-1017612000, 0, 0, "GMT", Ghost(g))
        .step(-1001282400, 0, 3600, "BST", Ghost(g))
        .step(-986162400, 0, 0, "GMT", Ghost(g))
        .step(-969228000, 0, 3600, "BST", Ghost(g))
        .step(-950479200, 0, 0, "GMT", Ghost(g))
        .step(-942012000, 0, 3600, "BST", Ghost(g))
        .step(-904518000, 0, 7200, "BDST", Ghost(g))
        .step(-896050800, 0, 3600, "BST", Ghost(g))
        .step(-875487600, 0, 7200, "BDST", Ghost(g))
        .step(-864601200, 0, 3600, "BST", Ghost(g))
        .step(-844038000, 0, 7200, "BDST", Ghost(g))
        .step(-832546800, 0, 3600, "BST", Ghost(g))
        .step(-812588400, 0, 7200, "BDST", Ghost(g))
        .step(-798073200, 0, 3600, "BST", Ghost(g))
        .step(-781052400, 0, 7200, "BDST", Ghost(g))
        .step(-772066800, 0, 3600, "BST", Ghost(g))
        .step(-764805600, 0, 0, "GMT", Ghost(g))
        .step(-748476000, 0, 3600, "BST", Ghost(g))
        .step(-733356000, 0, 0, "GMT", Ghost(g))
        .step(-719445600, 0, 3600, "BST", Ghost(g))
        .step(-717030000, 0, 7200, "BDST", Ghost(g))
        .step(-706748400, 0, 3600, "BST", Ghost(g))
        .step(-699487200, 0, 0, "GMT", Ghost(g))
        .step(-687996000, 0, 3600, "BST", Ghost(g))
        .step(-668037600, 0, 0, "GMT", Ghost(g))
        .step(-654732000, 0, 3600, "BST", Ghost(g))
        .step(-636588000, 0, 0, "GMT", Ghost(g))
        .step(-622072800, 0, 3600, "BST", Ghost(g))
        .step(-605743200, 0, 0, "GMT", Ghost(g))
        .step(-590623200, 0, 3600, "BST", Ghost(g))
        .step(-574293600, 0, 0, "GMT", Ghost(g))
        .step(-558568800, 0, 3600, "BST", Ghost(g))
        .step(-542239200, 0, 0, "GMT", Ghost(g))
        .step(-527119200, 0, 3600, "BST", Ghost(g))
        .step(-512604000, 0, 0, "GMT", Ghost(g))
        .step(-496274400, 0, 3600, "BST", Ghost(g))
        .step(-481154400, 0, 0, "GMT", Ghost(g))
        .step(-464220000, 0, 3600, "BST", Ghost(g))
        .step(-449704800, 0, 0, "GMT", Ghost(g))
        .step(-432165600, 0, 3600, "BST", Ghost(g))
        .step(-417650400, 0, 0, "GMT", Ghost(g))
        .step(-401320800, 0, 3600, "BST", Ghost(g))
        .step(-386200800, 0, 0, "GMT", Ghost(g))
        .step(-369266400, 0, 3600, "BST", Ghost(g))
        .step(-354751200, 0, 0, "GMT", Ghost(g))
        .step(-337816800, 0, 3600, "BST", Ghost(g))
        .step(-323301600, 0, 0, "GMT", Ghost(g))
        .step(-306972000, 0, 3600, "BST", Ghost(g))
        .step(-291852000, 0, 0, "GMT", Ghost(g))
        .step(-276732000, 0, 3600, "BST", Ghost(g))
        .step(-257983200, 0, 0, "GMT", Ghost(g))
        .step(-245282400, 0, 3600, "BST", Ghost(g))
        .step(-226533600, 0, 0, "GMT", Ghost(g))
        .step(-213228000, 0, 3600, "BST", Ghost(g))
        .step(-195084000, 0, 0, "GMT", Ghost(g))
        .step(-182383200, 0, 3600, "BST", Ghost(g))
        .step(-163634400, 0, 0, "GMT", Ghost(g))
        .step(-150933600, 0, 3600, "BST", Ghost(g))
        .step(-132184800, 0, 0, "GMT", Ghost(g))
        .step(-119484000, 0, 3600, "BST", Ghost(g))
        .step(-100735200, 0, 0, "GMT", Ghost(g))
        .step(-88034400, 0, 3600, "BST", Ghost(g))
        .step(-68680800, 0, 0, "GMT", Ghost(g))
        .step(-59004000, 0, 3600, "BST", Ghost(g))
        .step(-37242000, 3600, 0, "BST", Ghost(g))
        .step(57722400, 0, 0, "GMT", Ghost(g))
        .step(69818400, 0, 3600, "BST", Ghost(g))
        .step(89172000, 0, 0, "GMT", Ghost(g))
        .step(101268000, 0, 3600, "BST", Ghost(g))
        .step(120621600, 0, 0, "GMT", Ghost(g))
        .step(132717600, 0, 3600, "BST", Ghost(g))
        .step(152071200, 0, 0, "GMT", Ghost(g))
        .step(164167200, 0, 3600, "BST", Ghost(g))
        .step(183520800, 0, 0, "GMT", Ghost(g))
        .step(196221600, 0, 3600, "BST", Ghost(g))
        .step(214970400, 0, 0, "GMT", Ghost(g))
        .step(227671200, 0, 3600, "BST", Ghost(g))
        .step(246420000, 0, 0, "GMT", Ghost(g))
        .step(259120800, 0, 3600, "BST", Ghost(g))
        .step(278474400, 0, 0, "GMT", Ghost(g))
        .step(290570400, 0, 3600, "BST", Ghost(g))
        .step(309924000, 0, 0, "GMT", Ghost(g))
        .step(322020000, 0, 3600, "BST", Ghost(g))
        .step(341373600, 0, 0, "GMT", Ghost(g))
        .step(354675600, 0, 3600, "BST", Ghost(g))
        .step(372819600, 0, 0, "GMT", Ghost(g))
        .step(386125200, 0, 3600, "BST", Ghost(g))
        .step(404269200, 0, 0, "GMT", Ghost(g))
        .step(417574800, 0, 3600, "BST", Ghost(g))
        .step(435718800, 0, 0, "GMT", Ghost(g))
        .step(449024400, 0, 3600, "BST", Ghost(g))
        .step(467773200, 0, 0, "GMT", Ghost(g))
        .step(481078800, 0, 3600, "BST", Ghost(g))
        .step(499222800, 0, 0, "GMT", Ghost(g))
        .step(512528400, 0, 3600, "BST", Ghost(g))
        .step(530672400, 0, 0, "GMT", Ghost(g))
        .step(543978000, 0, 3600, "BST", Ghost(g))
        .step(562122000, 0, 0, "GMT", Ghost(g))
        .step(575427600, 0, 3600, "BST", Ghost(g))
        .step(593571600, 0, 0, "GMT", Ghost(g))
        .step(606877200, 0, 3600, "BST", Ghost(g))
        .step(625626000, 0, 0, "GMT", Ghost(g))
        .step(638326800, 0, 3600, "BST", Ghost(g))
        .step(657075600, 0, 0, "GMT", Ghost(g))
        .step(670381200, 0, 3600, "BST", Ghost(g))
        .step(688525200, 0, 0, "GMT", Ghost(g))
        .step(701830800, 0, 3600, "BST", Ghost(g))
        .step(719974800, 0, 0, "GMT", Ghost(g))
        .step(733280400, 0, 3600, "BST", Ghost(g))
        .step(751424400, 0, 0, "GMT", Ghost(g))
        .step(764730000, 0, 3600, "BST", Ghost(g))
        .step(782874000, 0, 0, "GMT", Ghost(g))
        .step(796179600, 0, 3600, "BST", Ghost(g))
        .step(814323600, 0, 0, "GMT", Ghost(g))
        .step(828234000, 0, 3600, "BST", Ghost(g))
        .step(846378000, 0, 0, "GMT", Ghost(g))
        .step(859683600, 0, 3600, "BST", Ghost(g))
        .step(877827600, 0, 0, "GMT", Ghost(g))
        .step(891133200, 0, 3600, "BST", Ghost(g))
        .step(909277200, 0, 0, "GMT", Ghost(g))
        .step(922582800, 0, 3600, "BST", Ghost(g))
        .step(941331600, 0, 0, "GMT", Ghost(g))
        .step(954032400, 0, 3600, "BST", Ghost(g))
        .step(972781200, 0, 0, "GMT", Ghost(g))
        .step(985482000, 0, 3600, "BST", Ghost(g))
        .step(1004230800, 0, 0, "GMT", Ghost(g))
        .step(1017536400, 0, 3600, "BST", Ghost(g))
        .step(1035680400, 0, 0, "GMT", Ghost(g))
        .step(1048986000, 0, 3600, "BST", Ghost(g))
        .step(1067130000, 0, 0, "GMT", Ghost(g))
        .step(1080435600, 0, 3600, "BST", Ghost(g))
        .step(1099184400, 0, 0, "GMT", Ghost(g))
        .step(1111885200, 0, 3600, "BST", Ghost(g))
        .step(1130634000, 0, 0, "GMT", Ghost(g))
        .step(1143334800, 0, 3600, "BST", Ghost(g))
        .step(1162083600, 0, 0, "GMT", Ghost(g))
        .step(1174784400, 0, 3600, "BST", Ghost(g))
        .step(1193533200, 0, 0, "GMT", Ghost(g))
        .step(1206838800, 0, 3600, "BST", Ghost(g))
        .step(1224982800, 0, 0, "GMT", Ghost(g))
        .step(1238288400, 0, 3600, "BST", Ghost(g))
        .step(1256432400, 0, 0, "GMT", Ghost(g))
        .step(1269738000, 0, 3600, "BST", Ghost(g))
        .step(1288486800, 0, 0, "GMT", Ghost(g))
        .step(1301187600, 0, 3600, "BST", Ghost(g))
        .step(1319936400, 0, 0, "GMT", Ghost(g))
        .step(1332637200, 0, 3600, "BST", Ghost(g))
        .step(1351386000, 0, 0, "GMT", Ghost(g))
        .step(1364691600, 0, 3600, "BST", Ghost(g))
        .step(1382835600, 0, 0, "GMT", Ghost(g))
        .step(1396141200, 0, 3600, "BST", Ghost(g))
        .step(1414285200, 0, 0, "GMT", Ghost(g))
        .step(1427590800, 0, 3600, "BST", Ghost(g))
        .step(1445734800, 0, 0, "GMT", Ghost(g))
        .step(1459040400, 0, 3600, "BST", Ghost(g))
        .step(1477789200, 0, 0, "GMT", Ghost(g))
        .step(1490490000, 0, 3600, "BST", Ghost(g))
        .step(1509238800, 0, 0, "GMT", Ghost(g))
        .step(1521939600, 0, 3600, "BST", Ghost(g))
        .step(1540688400, 0, 0, "GMT", Ghost(g))
        .step(1553994000, 0, 3600, "BST", Ghost(g))
        .step(1572138000, 0, 0, "GMT", Ghost(g))
        .step(1585443600, 0, 3600, "BST", Ghost(g))
        .step(1603587600, 0, 0, "GMT", Ghost(g))
        .step(1616893200, 0, 3600, "BST", Ghost(g))
        .step(1635642000, 0, 0, "GMT", Ghost(g))
        .step(1648342800, 0, 3600, "BST", Ghost(g))
        .step(1667091600, 0, 0, "GMT", Ghost(g))
        .step(1679792400, 0, 3600, "BST", Ghost(g))
        .step(1698541200, 0, 0, "GMT", Ghost(g))
        .step(1711846800, 0, 3600, "BST", Ghost(g))
        .step(1729990800, 0, 0, "GMT", Ghost(g))
        .step(1743296400, 0, 3600, "BST", Ghost(g))
        .step(1761440400, 0, 0, "GMT", Ghost(g))
        .step(1774746000, 0, 3600, "BST", Ghost(g))
        .step(1792890000, 0, 0, "GMT", Ghost(g))
        .step(1806195600, 0, 3600, "BST", Ghost(g))
        .step(1824944400, 0, 0, "GMT", Ghost(g))
        .step(1837645200, 0, 3600, "BST", Ghost(g))
        .step(1856394000, 0, 0, "GMT", Ghost(g))
        .step(1869094800, 0, 3600, "BST", Ghost(g))
        .step(1887843600, 0, 0, "GMT", Ghost(g))
        .step(1901149200, 0, 3600, "BST", Ghost(g))
        .step(1919293200, 0, 0, "GMT", Ghost(g))
        .step(1932598800, 0, 3600, "BST", Ghost(g))
        .step(1950742800, 0, 0, "GMT", Ghost(g))
        .step(1964048400, 0, 3600, "BST", Ghost(g))
        .step(1982797200, 0, 0, "GMT", Ghost(g))
        .step(1995498000, 0, 3600, "BST", Ghost(g))
        .step(2014246800, 0, 0, "GMT", Ghost(g))
        .step(2026947600, 0, 3600, "BST", Ghost(g))
        .step(2045696400, 0, 0, "GMT", Ghost(g))
        .step(2058397200, 0, 3600, "BST", Ghost(g))
        .step(2077146000, 0, 0, "GMT", Ghost(g))
        .step(2090451600, 0, 3600, "BST", Ghost(g))
        .step(2108595600, 0, 0, "GMT", Ghost(g))
        .step(2121901200, 0, 3600, "BST", Ghost(g))
        .step(2140045200, 0, 0, "GMT", Ghost(g))
        .finish(Ghost(g))
}

/// The zone `Europe/Istanbul`.
pub fn istanbul() -> (r: Tz)
    ensures
        r.wf(),
        r.zone_name() == "Europe/Istanbul"@,
        r.table() == tables::europe::istanbul(),
{
    let ghost g = tables::europe::istanbul_rows();
    FixedTimespanSet::begin("Europe/Istanbul", 6952, 0, "LMT", Ghost(g))
        .step(-2840147752, 7016, 0, "IMT", Ghost(g))
        .step(-1869875816, 7200, 0, "EET", Ghost(g))
        .step(-1693706400, 7200, 3600, "EEST", Ghost(g))
        .step(-1680490800, 7200, 0, "EET", Ghost(g))
        .step(-1570413600, 7200, 3600, "EEST", Ghost(g))
        .step(-1552186800, 7200, 0, "EET", Ghost(g))
        .step(-1538359200, 7200, 3600, "EEST", Ghost(g))
        .step(-1522551600, 7200, 0, "EET", Ghost(g))
        .step(-1507514400, 7200, 3600, "EEST", Ghost(g))
        .step(-1490583600, 7200, 0, "EET", Ghost(g))
        .step(-1440208800, 7200, 3600, "EEST", Ghost(g))
        .step(-1428030000, 7200, 0, "EET", Ghost(g))
        .step(-1409709600, 7200, 3600, "EEST", Ghost(g))
        .step(-1396494000, 7200, 0, "EET", Ghost(g))
        .step(-931053600, 7200, 3600, "EEST", Ghost(g))
        .step(-922676400, 7200, 0, "EET", Ghost(g))
        .step(-917834400, 7200, 3600, "EEST", Ghost(g))
        .step(-892436400, 7200, 0, "EET", Ghost(g))
        .step(-875844000, 7200, 3600, "EEST", Ghost(g))
        .step(-764737200, 7200, 0, "EET", Ghost(g))
        .step(-744343200, 7200, 3600, "EEST", Ghost(g))
        .step(-733806000, 7200, 0, "EET", Ghost(g))
        .step(-716436000, 7200, 3600, "EEST", Ghost(g))
        .step(-701924400, 7200, 0, "EET", Ghost(g))
        .step(-684986400, 7200, 3600, "EEST", Ghost(g))
        .step(-670474800, 7200, 0, "EET", Ghost(g))
        .step(-654141600, 7200, 3600, "EEST", Ghost(g))
        .step(-639025200, 7200, 0, "EET", Ghost(g))
        .step(-622087200, 7200, 3600, "EEST", Ghost(g))
        .step(-606970800, 7200, 0, "EET", Ghost(g))
        .step(-590032800, 7200, 3600, "EEST", Ghost(g))
        .step(-575521200, 7200, 0, "EET", Ghost(g))
        .step(-235620000, 7200, 3600, "EEST", Ghost(g))
        .step(-194842800, 7200, 0, "EET", Ghost(g))
        .step(-177732000, 7200, 3600, "EEST", Ghost(g))
        .step(-165726000, 7200, 0, "EET", Ghost(g))
        .step(107910000, 7200, 3600, "EEST", Ghost(g))
        .step(121215600, 7200, 0, "EET", Ghost(g))
        .step(133920000, 7200, 3600, "EEST", Ghost(g))
        .step(152665200, 7200, 0, "EET", Ghost(g))
        .step(164678400, 7200, 3600, "EEST", Ghost(g))
        .step(184114800, 7200, 0, "EET", Ghost(g))
        .step(196214400, 7200, 3600, "EEST", Ghost(g))
        .step(215564400, 7200, 0, "EET", Ghost(g))
        .step(228873600, 7200, 3600, "EEST", Ghost(g))
        .step(245804400, 7200, 0, "EET", Ghost(g))
        .step(260323200, 7200, 3600, "EEST", Ghost(g))
        .step(267915600, 10800, 0, "+03", Ghost(g))
        .step(428454000, 10800, 3600, "+04", Ghost(g))
        .step(433893600, 10800, 0, "+03", Ghost(g))
        .step(468111600, 7200, 0, "EET", Ghost(g))
        .step(482799600, 7200, 3600, "EEST", Ghost(g))
        .step(496710000, 7200, 0, "EET", Ghost(g))
        .step(512521200, 7200, 3600, "EEST", Ghost(g))
        .step(528246000, 7200, 0, "EET", Ghost(g))
        .step(543970800, 7200, 3600, "EEST", Ghost(g))
        .step(559695600, 7200, 0, "EET", Ghost(g))
        .step(575420400, 7200, 3600, "EEST", Ghost(g))
        .step(591145200, 7200, 0, "EET", Ghost(g))
        .step(606870000, 7200, 3600, "EEST", Ghost(g))
        .step(622594800, 7200, 0, "EET", Ghost(g))
        .step(638319600, 7200, 3600, "EEST", Ghost(g))
        .step(654649200, 7200, 0, "EET", Ghost(g))
        .step(670374000, 7200, 3600, "EEST", Ghost(g))
        .step(686098800, 7200, 0, "EET", Ghost(g))
        .step(701823600, 7200, 3600, "EEST", Ghost(g))
        .step(717548400, 7200, 0, "EET", Ghost(g))
        .step(733273200, 7200, 3600, "EEST", Ghost(g))
        .step(748998000, 7200, 0, "EET", Ghost(g))
        .step(764118000, 7200, 3600, "EEST", Ghost(g))
        .step(780447600, 7200, 0, "EET", Ghost(g))
        .step(796172400, 7200, 3600, "EEST", Ghost(g))
        .step(811897200, 7200, 0, "EET", Ghost(g))
        .step(828226800, 7200, 3600, "EEST", Ghost(g))
        .step(846370800, 7200, 0, "EET", Ghost(g))
        .step(859676400, 7200, 3600, "EEST", Ghost(g))
        .step(877820400, 7200, 0, "EET", Ghost(g))
        .step(891126000, 7200, 3600, "EEST", Ghost(g))
        .step(909270000, 7200, 0, "EET", Ghost(g))
        .step(922575600, 7200, 3600, "EEST", Ghost(g))
        .step(941324400, 7200, 0, "EET", Ghost(g))
        .step(954025200, 7200, 3600, "EEST", Ghost(g))
        .step(972774000, 7200, 0, "EET", Ghost(g))
        .step(985474800, 7200, 3600, "EEST", Ghost(g))
        .step(1004223600, 7200, 0, "EET", Ghost(g))
        .step(1017529200, 7200, 3600, "EEST", Ghost(g))
        .step(1035673200, 7200, 0, "EET", Ghost(g))
        .step(1048978800, 7200, 3600, "EEST", Ghost(g))
        .step(1067122800, 7200, 0, "EET", Ghost(g))
        .step(1080428400, 7200, 3600, "EEST", Ghost(g))
        .step(1099177200, 7200, 0, "EET", Ghost(g))
        .step(1111878000, 7200, 3600, "EEST", Ghost(g))
        .step(1130626800, 7200, 0, "EET", Ghost(g))
        .step(1143327600, 7200, 3600, "EEST", Ghost(g))
        .step(1162076400, 7200, 0, "EET", Ghost(g))
        .step(1174784400, 7200, 3600, "EEST", Ghost(g))
        .step(1193533200, 7200, 0, "EET", Ghost(g))
        .step(1206838800, 7200, 3600, "EEST", Ghost(g))
        .step(1224982800, 7200, 0, "EET", Ghost(g))
        .step(1238288400, 7200, 3600, "EEST", Ghost(g))
        .step(1256432400, 7200, 0, "EET", Ghost(g))
        .step(1269738000, 7200, 3600, "EEST", Ghost(g))
        .step(1288486800, 7200, 0, "EET", Ghost(g))
        .step(1301274000, 7200, 3600, "EEST", Ghost(g))
        .step(1319936400, 7200, 0, "EET", Ghost(g))
        .step(1332637200, 7200, 3600, "EEST", Ghost(g))
        .step(1351386000, 7200, 0, "EET", Ghost(g))
        .step(1364691600, 7200, 3600, "EEST", Ghost(g))
        .step(1382835600, 7200, 0, "EET", Ghost(g))
        .step(1396227600, 7200, 3600, "EEST", Ghost(g))
        .step(1414285200, 7200, 0, "EET", Ghost(g))
        .step(1427590800, 7200, 3600, "EEST", Ghost(g))
        .step(1446944400, 7200, 0, "EET", Ghost(g))
        .step(1459040400, 7200, 3600, "EEST", Ghost(g))
        .step(1473195600, 10800, 0, "+03", Ghost(g))
        .step(2147483647, 10800, 0, "+03", Ghost(g))
        .finish(Ghost(g))
}

/// The zone `Europe/Jersey`.
pub fn jersey() -> (r: Tz)
    ensures
        r.wf(),
        r.zone_name() == "Europe/Jersey"@,
        r.table() == tables::europe::jersey(),
{
    let ghost g = tables::europe::jersey_rows();
    FixedTimespanSet::begin("Europe/Jersey", -506, 0, "LMT", Ghost(g))
        .step(-2258092800, 0, 0, "GMT", Ghost(g))
        .step(-1691964000, 0, 3600, "BST", Ghost(g))
        .step(-1680472800, 0, 0, "GMT", Ghost(g))
        .step(-1664143200, 0, 3600, "BST", Ghost(g))
        .step(-1650146400, 0, 0, "GMT", Ghost(g))
        .step(-1633903200, 0, 3600, "BST", Ghost(g))
        .step(-1617487200, 0, 0, "GMT", Ghost(g))
        .step(-1601848800, 0, 3600, "BST", Ghost(g))
        .step(-1586037600, 0, 0, "GMT", Ghost(g))
        .step(-1570399200, 0, 3600, "BST", Ghost(g))
        .step(-1552168800, 0, 0, "GMT", Ghost(g))
        .step(-1538344800, 0, 3600, "BST", Ghost(g))
        .step(-1522533600, 0, 0, "GMT", Ghost(g))
        .step(-1507500000, 0, 3600, "BST", Ghost(g))
        .step(-1490565600, 0, 0, "GMT", Ghost(g))
        .step(-1473631200, 0, 3600, "BST", Ghost(g))
        .step(-1460930400, 0, 0, "GMT", Ghost(g))
        .step(-1442786400, 0, 3600, "BST", Ghost(g))
        .step(-1428876000, 0, 0, "GMT", Ghost(g))
        .step(-1410732000, 0, 3600, "BST", Ghost(g))
        .step(-1396216800, 0, 0, "GMT", Ghost(g))
        .step(-1379282400, 0, 3600, "BST", Ghost(g))
        .step(-1364767200, 0, 0, "GMT", Ghost(g))
        .step(-1348437600, 0, 3600, "BST", Ghost(g))
        .step(-1333317600, 0, 0, "GMT", Ghost(g))
        .step(-1315778400, 0, 3600, "BST", Ghost(g))
        .step(-1301263200, 0, 0, "GMT", Ghost(g))
        .step(-1284328800, 0, 3600, "BST", Ghost(g))
        .step(-1269813600, 0, 0, "GMT", Ghost(g))
        .step(-1253484000, 0, 3600, "BST", Ghost(g))
        .step(-1238364000, 0, 0, "GMT", Ghost(g))
        .step(-1221429600, 0, 3600, "BST", Ghost(g))
        .step(-1206914400, 0, 0, "GMT", Ghost(g))
        .step(-1189980000, 0, 3600, "BST", Ghost(g))
        .step(-1175464800, 0, 0, "GMT", Ghost(g))
        .step(-1159135200, 0, 3600, "BST", Ghost(g))
        .step(-1143410400, 0, 0, "GMT", Ghost(g))
        .step(-1126476000, 0, 3600, "BST", Ghost(g))
        .step(-1111960800, 0, 0, "GMT", Ghost(g))
        .step(-1095631200, 0, 3600, "BST", Ghost(g))
        .step(-1080511200, 0, 0, "GMT", Ghost(g))
        .step(-1063576800, 0, 3600, "BST", Ghost(g))
        .step(-1049061600, 0, 0, "GMT", Ghost(g))
        .step(-1032127200, 0, 3600, "BST", Ghost(g))
        .step(-1017612000, 0, 0, "GMT", Ghost(g))
        .step(-1001282400, 0, 3600, "BST", Ghost(g))
        .step(-986162400, 0, 0, "GMT", Ghost(g))
        .step(-969228000, 0, 3600, "BST", Ghost(g))
        .step(-950479200, 0, 0, "GMT", Ghost(g))
        .step(-942012000, 0, 3600, "BST", Ghost(g))
        .step(-930963600, 0, 7200, "CEST", Ghost(g))
        .step(-857257200, 3600, 0, "CET", Ghost(g))
        .step(-844556400, 3600, 3600, "CEST", Ghost(g))
        .step(-828226800, 3600, 0, "CET", Ghost(g))
        .step(-812502000, 3600, 3600, "CEST", Ghost(g))
        .step(-796777200, 3600, 0, "CET", Ghost(g))
        .step(-781052400, 3600, 3600, "CEST", Ghost(g))
        .step(-777952800, 3600, 3600, "BDST", Ghost(g))
        .step(-772066800, 0, 3600, "BST", Ghost(g))
        .step(-764805600, 0, 0, "GMT", Ghost(g))
        .step(-748476000, 0, 3600, "BST", Ghost(g))
        .step(-733356000, 0, 0, "GMT", Ghost(g))
        .step(-719445600, 0, 3600, "BST", Ghost(g))
        .step(-717030000, 0, 7200, "BDST", Ghost(g))
        .step(-706748400, 0, 3600, "BST", Ghost(g))
        .step(-699487200, 0, 0, "GMT", Ghost(g))
        .step(-687996000, 0, 3600, "BST", Ghost(g))
        .step(-668037600, 0, 0, "GMT", Ghost(g))
        .step(-654732000, 0, 3600, "BST", Ghost(g))
        .step(-636588000, 0, 0, "GMT", Ghost(g))
        .step(-622072800, 0, 3600, "BST", Ghost(g))
        .step(-605743200, 0, 0, "GMT", Ghost(g))
        .step(-590623200, 0, 3600, "BST", Ghost(g))
        .step(-574293600, 0, 0, "GMT", Ghost(g))
        .step(-558568800, 0, 3600, "BST", Ghost(g))
        .step(-542239200, 0, 0, "GMT", Ghost(g))
        .step(-527119200, 0, 3600, "BST", Ghost(g))
        .step(-512604000, 0, 0, "GMT", Ghost(g))
        .step(-496274400, 0, 3600, "BST", Ghost(g))
        .step(-481154400, 0, 0, "GMT", Ghost(g))
        .step(-464220000, 0, 3600, "BST", Ghost(g))
        .step(-449704800, 0, 0, "GMT", Ghost(g))
        .step(-432165600, 0, 3600, "BST", Ghost(g))
        .step(-417650400, 0, 0, "GMT", Ghost(g))
        .step(-401320800, 0, 3600, "BST", Ghost(g))
        .step(-386200800, 0, 0, "GMT", Ghost(g))
        .step(-369266400, 0, 3600, "BST", Ghost(g))
        .step(-354751200, 0, 0, "GMT", Ghost(g))
        .step(-337816800, 0, 3600, "BST", Ghost(g))
        .step(-323301600, 0, 0, "GMT", Ghost(g))
        .step(-306972000, 0, 3600, "BST", Ghost(g))
        .step(-291852000, 0, 0, "GMT", Ghost(g))
        .step(-276732000, 0, 3600, "BST", Ghost(g))
        .step(-257983200, 0, 0, "GMT", Ghost(g))
        .step(-245282400, 0, 3600, "BST", Ghost(g))
        .step(-226533600, 0, 0, "GMT", Ghost(g))
        .step(-213228000, 0, 3600, "BST", Ghost(g))
        .step(-195084000, 0, 0, "GMT", Ghost(g))
        .step(-182383200, 0, 3600, "BST", Ghost(g))
        .step(-163634400, 0, 0, "GMT", Ghost(g))
        .step(-150933600, 0, 3600, "BST", Ghost(g))
        .step(-132184800, 0, 0, "GMT", Ghost(g))
        .step(-119484000, 0, 3600, "BST", Ghost(g))
        .step(-100735200, 0, 0, "GMT", Ghost(g))
        .step(-88034400, 0, 3600, "BST", Ghost(g))
        .step(-68680800, 0, 0, "GMT", Ghost(g))
        .step(-59004000, 0, 3600, "BST", Ghost(g))
        .step(-37242000, 3600, 0, "BST", Ghost(g))
        .step(57722400, 0, 0, "GMT", Ghost(g))
        .step(69818400, 0, 3600, "BST", Ghost(g))
        .step(89172000, 0, 0, "GMT", Ghost(g))
        .step(101268000, 0, 3600, "BST", Ghost(g))
        .step(120621600, 0, 0, "GMT", Ghost(g))
        .step(132717600, 0, 3600, "BST", Ghost(g))
        .step(152071200, 0, 0, "GMT", Ghost(g))
        .step(164167200, 0, 3600, "BST", Ghost(g))
        .step(183520800, 0, 0, "GMT", Ghost(g))
        .step(196221600, 0, 3600, "BST", Ghost(g))
        .step(214970400, 0, 0, "GMT", Ghost(g))
        .step(227671200, 0, 3600, "BST", Ghost(g))
        .step(246420000, 0, 0, "GMT", Ghost(g))
        .step(259120800, 0, 3600, "BST", Ghost(g))
        .step(278474400, 0, 0, "GMT", Ghost(g))
        .step(290570400, 0, 3600, "BST", Ghost(g))
        .step(309924000, 0, 0, "GMT", Ghost(g))
        .step(322020000, 0, 3600, "BST", Ghost(g))
        .step(341373600, 0, 0, "GMT", Ghost(g))
        .step(354675600, 0, 3600, "BST", Ghost(g))
        .step(372819600, 0, 0, "GMT", Ghost(g))
        .step(386125200, 0, 3600, "BST", Ghost(g))
        .step(404269200, 0, 0, "GMT", Ghost(g))
        .step(417574800, 0, 3600, "BST", Ghost(g))
        .step(435718800, 0, 0, "GMT", Ghost(g))
        .step(449024400, 0, 3600, "BST", Ghost(g))
        .step(467773200, 0, 0, "GMT", Ghost(g))
        .step(481078800, 0, 3600, "BST", Ghost(g))
        .step(499222800, 0, 0, "GMT", Ghost(g))
        .step(512528400, 0, 3600, "BST", Ghost(g))
        .step(530672400, 0, 0, "GMT", Ghost(g))
        .step(543978000, 0, 3600, "BST", Ghost(g))
        .step(562122000, 0, 0, "GMT", Ghost(g))
        .step(575427600, 0, 3600, "BST", Ghost(g))
        .step(593571600, 0, 0, "GMT", Ghost(g))
        .step(606877200, 0, 3600, "BST", Ghost(g))
        .step(625626000, 0, 0, "GMT", Ghost(g))
        .step(638326800, 0, 3600, "BST", Ghost(g))
        .step(657075600, 0, 0, "GMT", Ghost(g))
        .step(670381200, 0, 3600, "BST", Ghost(g))
        .step(688525200, 0, 0, "GMT", Ghost(g))
        .step(701830800, 0, 3600, "BST", Ghost(g))
        .step(719974800, 0, 0, "GMT", Ghost(g))
        .step(733280400, 0, 3600, "BST", Ghost(g))
        .step(751424400, 0, 0, "GMT", Ghost(g))
        .step(764730000, 0, 3600, "BST", Ghost(g))
        .step(782874000, 0, 0, "GMT", Ghost(g))
        .step(796179600, 0, 3600, "BST", Ghost(g))
        .step(814323600, 0, 0, "GMT", Ghost(g))
        .step(828234000, 0, 3600, "BST", Ghost(g))
        .step(846378000, 0, 0, "GMT", Ghost(g))
        .step(859683600, 0, 3600, "BST", Ghost(g))
        .step(877827600, 0, 0, "GMT", Ghost(g))
        .step(891133200, 0, 3600, "BST", Ghost(g))
        .step(909277200, 0, 0, "GMT", Ghost(g))
        .step(922582800, 0, 3600, "BST", Ghost(g))
        .step(941331600, 0, 0, "GMT", Ghost(g))
        .step(954032400, 0, 3600, "BST", Ghost(g))
        .step(972781200, 0, 0, "GMT", Ghost(g))
        .step(985482000, 0, 3600, "BST", Ghost(g))
        .step(1004230800, 0, 0, "GMT", Ghost(g))
        .step(1017536400, 0, 3600, "BST", Ghost(g))
        .step(1035680400, 0, 0, "GMT", Ghost(g))
        .step(1048986000, 0, 3600, "BST", Ghost(g))
        .step(1067130000, 0, 0, "GMT", Ghost(g))
        .step(1080435600, 0, 3600, "BST", Ghost(g))
        .step(1099184400, 0, 0, "GMT", Ghost(g))
        .step(1111885200, 0, 3600, "BST", Ghost(g))
        .step(1130634000, 0, 0, "GMT", Ghost(g))
        .step(1143334800, 0, 3600, "BST", Ghost(g))
        .step(1162083600, 0, 0, "GMT", Ghost(g))
        .step(1174784400, 0, 3600, "BST", Ghost(g))
        .step(1193533200, 0, 0, "GMT", Ghost(g))
        .step(1206838800, 0, 3600, "BST", Ghost(g))
        .step(1224982800, 0, 0, "GMT", Ghost(g))
        .step(1238288400, 0, 3600, "BST", Ghost(g))
        .step(1256432400, 0, 0, "GMT", Ghost(g))
        .step(1269738000, 0, 3600, "BST", Ghost(g))
        .step(1288486800, 0, 0, "GMT", Ghost(g))
        .step(1301187600, 0, 3600, "BST", Ghost(g))
        .step(1319936400, 0, 0, "GMT", Ghost(g))
        .step(1332637200, 0, 3600, "BST", Ghost(g))
        .step(1351386000, 0, 0, "GMT", Ghost(g))
        .step(1364691600, 0, 3600, "BST", Ghost(g))
        .step(1382835600, 0, 0, "GMT", Ghost(g))
        .step(1396141200, 0, 3600, "BST", Ghost(g))
        .step(1414285200, 0, 0, "GMT", Ghost(g))
        .step(1427590800, 0, 3600, "BST", Ghost(g))
        .step(1445734800, 0, 0, "GMT", Ghost(g))
        .step(1459040400, 0, 3600, "BST", Ghost(g))
        .step(1477789200, 0, 0, "GMT", Ghost(g))
        .step(1490490000, 0, 3600, "BST", Ghost(g))
        .step(1509238800, 0, 0, "GMT", Ghost(g))
        .step(1521939600, 0, 3600, "BST", Ghost(g))
        .step(1540688400, 0, 0, "GMT", Ghost(g))
        .step(1553994000, 0, 3600, "BST", Ghost(g))
        .step(1572138000, 0, 0, "GMT", Ghost(g))
        .step(1585443600, 0, 3600, "BST", Ghost(g))
        .step(1603587600, 0, 0, "GMT", Ghost(g))
        .step(1616893200, 0, 3600, "BST", Ghost(g))
        .step(1635642000, 0, 0, "GMT", Ghost(g))
        .step(1648342800, 0, 3600, "BST", Ghost(g))
        .step(1667091600, 0, 0, "GMT", Ghost(g))
        .step(1679792400, 0, 3600, "BST", Ghost(g))
        .step(1698541200, 0, 0, "GMT", Ghost(g))
        .step(1711846800, 0, 3600, "BST", Ghost(g))
        .step(1729990800, 0, 0, "GMT", Ghost(g))
        .step(1743296400, 0, 3600, "BST", Ghost(g))
        .step(1761440400, 0, 0, "GMT", Ghost(g))
        .step(1774746000, 0, 3600, "BST", Ghost(g))
        .step(1792890000, 0, 0, "GMT", Ghost(g))
        .step(1806195600, 0, 3600, "BST", Ghost(g))
        .step(1824944400, 0, 0, "GMT", Ghost(g))
        .step(1837645200, 0, 3600, "BST", Ghost(g))
        .step(1856394000, 0, 0, "GMT", Ghost(g))
        .step(1869094800, 0, 3600, "BST", Ghost(g))
        .step(1887843600, 0, 0, "GMT", Ghost(g))
        .step(1901149200, 0, 3600, "BST", Ghost(g))
        .step(1919293200, 0, 0, "GMT", Ghost(g))
        .step(1932598800, 0, 3600, "BST", Ghost(g))
        .step(1950742800, 0, 0, "GMT", Ghost(g))
        .step(1964048400, 0, 3600, "BST", Ghost(g))
        .step(1982797200, 0, 0, "GMT", Ghost(g))
        .step(1995498000, 0, 3600, "BST", Ghost(g))
        .step(2014246800, 0, 0, "GMT", Ghost(g))
        .step(2026947600, 0, 3600, "BST", Ghost(g))
        .step(2045696400, 0, 0, "GMT", Ghost(g))
        .step(2058397200, 0, 3600, "BST", Ghost(g))
        .step(2077146000, 0, 0, "GMT", Ghost(g))
        .step(2090451600, 0, 3600, "BST", Ghost(g))
        .step(2108595600, 0, 0, "GMT", Ghost(g))
        .step(2121901200, 0, 3600, "BST", Ghost(g))
        .step(2140045200, 0, 0, "GMT", Ghost(g))
        .finish(Ghost(g))
}

/// The zone `Europe/Kaliningrad`.
pub fn kaliningrad() -> (r: Tz)
    ensures
        r.wf(),
        r.zone_name() == "Europe/Kaliningrad"@,
        r.table() == tables::europe::kaliningrad(),
{
    let ghost g = tables::europe::kaliningrad_rows();
    FixedTimespanSet::begin("Europe/Kaliningrad", 4920, 0, "LMT", Ghost(g))
        .step(-2422056120, 3600, 0, "CET", Ghost(g))
        .step(-1693706400, 3600, 3600, "CEST", Ghost(g))
        .step(-1680483600, 3600, 0, "CET", Ghost(g))
        .step(-1663455600, 3600, 3600, "CEST", Ghost(g))
        .step(-1650150000, 3600, 0, "CET", Ghost(g))
        .step(-1632006000, 3600, 3600, "CEST", Ghost(g))
        .step(-1618700400, 3600, 0, "CET", Ghost(g))
        .step(-938905200, 3600, 3600, "CEST", Ghost(g))
        .step(-857257200, 3600, 0, "CET", Ghost(g))
        .step(-844556400, 3600, 3600, "CEST", Ghost(g))
        .step(-828226800, 3600, 0, "CET", Ghost(g))
        .step(-812502000, 3600, 3600, "CEST", Ghost(g))
        .step(-796777200, 3600, 0, "CET", Ghost(g))
        .step(-781052400, 3600, 3600, "CEST", Ghost(g))
        .step(-780372000, 7200, 0, "EET", Ghost(g))
        .step(-778730400, 7200, 3600, "EEST", Ghost(g))
        .step(-762663600, 7200, 0, "EET", Ghost(g))
        .step(-749095200, 10800, 0, "MSK", Ghost(g))
        .step(354920400, 10800, 3600, "MSD", Ghost(g))
        .step(370728000, 10800, 0, "MSK", Ghost(g))
        .step(386456400, 10800, 3600, "MSD", Ghost(g))
        .step(402264000, 10800, 0, "MSK", Ghost(g))
        .step(417992400, 10800, 3600, "MSD", Ghost(g))
        .step(433800000, 10800, 0, "MSK", Ghost(g))
        .step(449614800, 10800, 3600, "MSD", Ghost(g))
        .step(465346800, 10800, 0, "MSK", Ghost(g))
        .step(481071600, 10800, 3600, "MSD", Ghost(g))
        .step(496796400, 10800, 0, "MSK", Ghost(g))
        .step(512521200, 10800, 3600, "MSD", Ghost(g))
        .step(528246000, 10800, 0, "MSK", Ghost(g))
        .step(543970800, 10800, 3600, "MSD", Ghost(g))
        .step(559695600, 10800, 0, "MSK", Ghost(g))
        .step(575420400, 10800, 3600, "MSD", Ghost(g))
        .step(591145200, 10800, 0, "MSK", Ghost(g))
        .step(606870000, 7200, 3600, "EEST", Ghost(g))
        .step(622598400, 7200, 0, "EET", Ghost(g))
        .step(638323200, 7200, 3600, "EEST", Ghost(g))
        .step(654652800, 7200, 0, "EET", Ghost(g))
        .step(670377600, 7200, 3600, "EEST", Ghost(g))
        .step(686102400, 7200, 0, "EET", Ghost(g))
        .step(701827200, 7200, 3600, "EEST", Ghost(g))
        .step(717552000, 7200, 0, "EET", Ghost(g))
        .step(733276800, 7200, 3600, "EEST", Ghost(g))
        .step(749001600, 7200, 0, "EET", Ghost(g))
        .step(764726400, 7200, 3600, "EEST", Ghost(g))
        .step(780451200, 7200, 0, "EET", Ghost(g))
        .step(796176000, 7200, 3600, "EEST", Ghost(g))
        .step(811900800, 7200, 0, "EET", Ghost(g))
        .step(828230400, 7200, 3600, "EEST", Ghost(g))
        .step(846374400, 7200, 0, "EET", Ghost(g))
        .step(859680000, 7200, 3600, "EEST", Ghost(g))
        .step(877824000, 7200, 0, "EET", Ghost(g))
        .step(891129600, 7200, 3600, "EEST", Ghost(g))
        .step(909273600, 7200, 0, "EET", Ghost(g))
        .step(922579200, 7200, 3600, "EEST", Ghost(g))
        .step(941328000, 7200, 0, "EET", Ghost(g))
        .step(954028800, 7200, 3600, "EEST", Ghost(g))
        .step(972777600, 7200, 0, "EET", Ghost(g))
        .step(985478400, 7200, 3600, "EEST", Ghost(g))
        .step(1004227200, 7200, 0, "EET", Ghost(g))
        .step(1017532800, 7200, 3600, "EEST", Ghost(g))
        .step(1035676800, 7200, 0, "EET", Ghost(g))
        .step(1048982400, 7200, 3600, "EEST", Ghost(g))
        .step(1067126400, 7200, 0, "EET", Ghost(g))
        .step(1080432000, 7200, 3600, "EEST", Ghost(g))
        .step(1099180800, 7200, 0, "EET", Ghost(g))
        .step(1111881600, 7200, 3600, "EEST", Ghost(g))
        .step(1130630400, 7200, 0, "EET", Ghost(g))
        .step(1143331200, 7200, 3600, "EEST", Ghost(g))
        .step(1162080000, 7200, 0, "EET", Ghost(g))
        .step(1174780800, 7200, 3600, "EEST", Ghost(g))
        .step(1193529600, 7200, 0, "EET", Ghost(g))
        .step(1206835200, 7200, 3600, "EEST", Ghost(g))
        .step(1224979200, 7200, 0, "EET", Ghost(g))
        .step(1238284800, 7200, 3600, "EEST", Ghost(g))
        .step(1256428800, 7200, 0, "EET", Ghost(g))
        .step(1269734400, 7200, 3600, "EEST", Ghost(g))
        .step(1288483200, 7200, 0, "EET", Ghost(g))
        .step(1301184000, 10800, 0, "+03", Ghost(g))
        .step(1414278000, 7200, 0, "EET", Ghost(g))
        .finish(Ghost(g))
}

/// The zone `Europe/Kiev`.
pub fn kiev() -> (r: Tz)
    ensures
        r.wf(),
        r.zone_name() == "Europe/Kiev"@,
        r.table() == tables::europe::kiev(),
{
    let ghost g = tables::europe::kiev_rows();
    FixedTimespanSet::begin("Europe/Kiev", 7324, 0, "LMT", Ghost(g))
        .step(-2840148124, 7324, 0, "KMT", Ghost(g))
        .step(-1441159324, 7200, 0, "EET", Ghost(g))
        .step(-1247536800, 10800, 0, "MSK", Ghost(g))
        .step(-892522800, 3600, 3600, "CEST", Ghost(g))
        .step(-857257200, 3600, 0, "CET", Ghost(g))
        .step(-844556400, 3600, 3600, "CEST", Ghost(g))
        .step(-828226800, 3600, 0, "CET", Ghost(g))
        .step(-825382800, 10800, 0, "MSK", Ghost(g))
        .step(354920400, 10800, 3600, "MSD", Ghost(g))
        .step(370728000, 10800, 0, "MSK", Ghost(g))
        .step(386456400, 10800, 3600, "MSD", Ghost(g))
        .step(402264000, 10800, 0, "MSK", Ghost(g))
        .step(417992400, 10800, 3600, "MSD", Ghost(g))
        .step(433800000, 10800, 0, "MSK", Ghost(g))
        .step(449614800, 10800, 3600, "MSD", Ghost(g))
        .step(465346800, 10800, 0, "MSK", Ghost(g))
        .step(481071600, 10800, 3600, "MSD", Ghost(g))
        .step(496796400, 10800, 0, "MSK", Ghost(g))
        .step(512521200, 10800, 3600, "MSD", Ghost(g))
        .step(528246000, 10800, 0, "MSK", Ghost(g))
        .step(543970800, 10800, 3600, "MSD", Ghost(g))
        .step(559695600, 10800, 0, "MSK", Ghost(g))
        .step(575420400, 10800, 3600, "MSD", Ghost(g))
        .step(591145200, 10800, 0, "MSK", Ghost(g))
        .step(606870000, 10800, 3600, "MSD", Ghost(g))
        .step(622594800, 10800, 0, "MSK", Ghost(g))
        .step(638319600, 10800, 3600, "MSD", Ghost(g))
        .step(646783200, 7200, 3600, "EEST", Ghost(g))
        .step(686102400, 7200, 0, "EET", Ghost(g))
        .step(701827200, 7200, 3600, "EEST", Ghost(g))
        .step(717552000, 7200, 0, "EET", Ghost(g))
        .step(733276800, 7200, 3600, "EEST", Ghost(g))
        .step(749001600, 7200, 0, "EET", Ghost(g))
        .step(764726400, 7200, 3600, "EEST", Ghost(g))
        .step(780451200, 7200, 0, "EET", Ghost(g))
        .step(796176000, 7200, 3600, "EEST", Ghost(g))
        .step(811900800, 7200, 0, "EET", Ghost(g))
        .step(828230400, 7200, 3600, "EEST", Ghost(g))
        .step(846378000, 7200, 0, "EET", Ghost(g))
        .step(859683600, 7200, 3600, "EEST", Ghost(g))
        .step(877827600, 7200, 0, "EET", Ghost(g))
        .step(891133200, 7200, 3600, "EEST", Ghost(g))
        .step(909277200, 7200, 0, "EET", Ghost(g))
        .step(922582800, 7200, 3600, "EEST", Ghost(g))
        .step(941331600, 7200, 0, "EET", Ghost(g))
        .step(954032400, 7200, 3600, "EEST", Ghost(g))
        .step(972781200, 7200, 0, "EET", Ghost(g))
        .step(985482000, 7200, 3600, "EEST", Ghost(g))
        .step(1004230800, 7200, 0, "EET", Ghost(g))
        .step(1017536400, 7200, 3600, "EEST", Ghost(g))
        .step(1035680400, 7200, 0, "EET", Ghost(g))
        .step(1048986000, 7200, 3600, "EEST", Ghost(g))
        .step(1067130000, 7200, 0, "EET", Ghost(g))
        .step(1080435600, 7200, 3600, "EEST", Ghost(g))
        .step(1099184400, 7200, 0, "EET", Ghost(g))
        .step(1111885200, 7200, 3600, "EEST", Ghost(g))
        .step(1130634000, 7200, 0, "EET", Ghost(g))
        .step(1143334800, 7200, 3600, "EEST", Ghost(g))
        .step(1162083600, 7200, 0, "EET", Ghost(g))
        .step(1174784400, 7200, 3600, "EEST", Ghost(g))
        .step(1193533200, 7200, 0, "EET", Ghost(g))
        .step(1206838800, 7200, 3600, "EEST", Ghost(g))
        .step(1224982800, 7200, 0, "EET", Ghost(g))
        .step(1238288400, 7200, 3600, "EEST", Ghost(g))
        .step(1256432400, 7200, 0, "EET", Ghost(g))
        .step(1269738000, 7200, 3600, "EEST", Ghost(g))
        .step(1288486800, 7200, 0, "EET", Ghost(g))
        .step(1301187600, 7200, 3600, "EEST", Ghost(g))
        .step(1319936400, 7200, 0, "EET", Ghost(g))
        .step(1332637200, 7200, 3600, "EEST", Ghost(g))
        .step(1351386000, 7200, 0, "EET", Ghost(g))
        .step(1364691600, 7200, 3600, "EEST", Ghost(g))
        .step(1382835600, 7200, 0, "EET", Ghost(g))
        .step(1396141200, 7200, 3600, "EEST", Ghost(g))
        .step(1414285200, 7200, 0, "EET", Ghost(g))
        .step(1427590800, 7200, 3600, "EEST", Ghost(g))
        .step(1445734800, 7200, 0, "EET", Ghost(g))
        .step(1459040400, 7200, 3600, "EEST", Ghost(g))
        .step(1477789200, 7200, 0, "EET", Ghost(g))
        .step(1490490000, 7200, 3600, "EEST", Ghost(g))
        .step(1509238800, 7200, 0, "EET", Ghost(g))
        .step(1521939600, 7200, 3600, "EEST", Ghost(g))
        .step(1540688400, 7200, 0, "EET", Ghost(g))
        .step(1553994000, 7200, 3600, "EEST", Ghost(g))
        .step(1572138000, 7200, 0, "EET", Ghost(g))
        .step(1585443600, 7200, 3600, "EEST", Ghost(g))
        .step(1603587600, 7200, 0, "EET", Ghost(g))
        .step(1616893200, 7200, 3600, "EEST", Ghost(g))
        .step(1635642000, 7200, 0, "EET", Ghost(g))
        .step(1648342800, 7200, 3600, "EEST", Ghost(g))
        .step(1667091600, 7200, 0, "EET", Ghost(g))
        .step(1679792400, 7200, 3600, "EEST", Ghost(g))
        .step(1698541200, 7200, 0, "EET", Ghost(g))
        .step(1711846800, 7200, 3600, "EEST", Ghost(g))
        .step(1729990800, 7200, 0, "EET", Ghost(g))
        .step(1743296400, 7200, 3600, "EEST", Ghost(g))
        .step(1761440400, 7200, 0, "EET", Ghost(g))
        .step(1774746000, 7200, 3600, "EEST", Ghost(g))
        .step(1792890000, 7200, 0, "EET", Ghost(g))
        .step(1806195600, 7200, 3600, "EEST", Ghost(g))
        .step(1824944400, 7200, 0, "EET", Ghost(g))
        .step(1837645200, 7200, 3600, "EEST", Ghost(g))
        .step(1856394000, 7200, 0, "EET", Ghost(g))
        .step(1869094800, 7200, 3600, "EEST", Ghost(g))
        .step(1887843600, 7200, 0, "EET", Ghost(g))
        .step(1901149200, 7200, 3600, "EEST", Ghost(g))
        .step(1919293200, 7200, 0, "EET", Ghost(g))
        .step(1932598800, 7200, 3600, "EEST", Ghost(g))
        .step(1950742800, 7200, 0, "EET", Ghost(g))
        .step(1964048400, 7200, 3600, "EEST", Ghost(g))
        .step(1982797200, 7200, 0, "EET", Ghost(g))
        .step(1995498000, 7200, 3600, "EEST", Ghost(g))
        .step(2014246800, 7200, 0, "EET", Ghost(g))
        .step(2026947600, 7200, 3600, "EEST", Ghost(g))
        .step(2045696400, 7200, 0, "EET", Ghost(g))
        .step(2058397200, 7200, 3600, "EEST", Ghost(g))
        .step(2077146000, 7200, 0, "EET", Ghost(g))
        .step(2090451600, 7200, 3600, "EEST", Ghost(g))
        .step(2108595600, 7200, 0, "EET", Ghost(g))
        .step(2121901200, 7200, 3600, "EEST", Ghost(g))
        .step(2140045200, 7200, 0, "EET", Ghost(g))
        .finish(Ghost(g))
}

/// The zone `Europe/Kirov`.
pub fn kirov() -> (r: Tz)
    ensures
        r.wf(),
        r.zone_name() == "Europe/Kirov"@,
        r.table() == tables::europe::kirov(),
{
    let ghost g = tables::europe::kirov_rows();
    FixedTimespanSet::begin("Europe/Kirov", 11928, 0, "LMT", Ghost(g))
        .step(-1593820800, 10800, 0, "+03", Ghost(g))
        .step(-1247540400, 14400, 0, "+04", Ghost(g))
        .step(354916800, 14400, 3600, "+05", Ghost(g))
        .step(370724400, 14400, 0, "+04", Ghost(g))
        .step(386452800, 14400, 3600, "+05", Ghost(g))
        .step(402260400, 14400, 0, "+04", Ghost(g))
        .step(417988800, 14400, 3600, "+05", Ghost(g))
        .step(433796400, 14400, 0, "+04", Ghost(g))
        .step(449611200, 14400, 3600, "+05", Ghost(g))
        .step(465343200, 14400, 0, "+04", Ghost(g))
        .step(481068000, 14400, 3600, "+05", Ghost(g))
        .step(496792800, 14400, 0, "+04", Ghost(g))
        .step(512517600, 14400, 3600, "+05", Ghost(g))
        .step(528242400, 14400, 0, "+04", Ghost(g))
        .step(543967200, 14400, 3600, "+05", Ghost(g))
        .step(559692000, 14400, 0, "+04", Ghost(g))
        .step(575416800, 14400, 3600, "+05", Ghost(g))
        .step(591141600, 14400, 0, "+04", Ghost(g))
        .step(606866400, 10800, 3600, "MSD", Ghost(g))
        .step(622594800, 10800, 0, "MSK", Ghost(g))
        .step(638319600, 10800, 3600, "MSD", Ghost(g))
        .step(654649200, 10800, 0, "MSK", Ghost(g))
        .step(670374000, 14400, 0, "+04", Ghost(g))
        .step(701820000, 10800, 3600, "MSD", Ghost(g))
        .step(717548400, 10800, 0, "MSK", Ghost(g))
        .step(733273200, 10800, 3600, "MSD", Ghost(g))
        .step(748998000, 10800, 0, "MSK", Ghost(g))
        .step(764722800, 10800, 3600, "MSD", Ghost(g))
        .step(780447600, 10800, 0, "MSK", Ghost(g))
        .step(796172400, 10800, 3600, "MSD", Ghost(g))
        .step(811897200, 10800, 0, "MSK", Ghost(g))
        .step(828226800, 10800, 3600, "MSD", Ghost(g))
        .step(846370800, 10800, 0, "MSK", Ghost(g))
        .step(859676400, 10800, 3600, "MSD", Ghost(g))
        .step(877820400, 10800, 0, "MSK", Ghost(g))
        .step(891126000, 10800, 3600, "MSD", Ghost(g))
        .step(909270000, 10800, 0, "MSK", Ghost(g))
        .step(922575600, 10800, 3600, "MSD", Ghost(g))
        .step(941324400, 10800, 0, "MSK", Ghost(g))
        .step(954025200, 10800, 3600, "MSD", Ghost(g))
        .step(972774000, 10800, 0, "MSK", Ghost(g))
        .step(985474800, 10800, 3600, "MSD", Ghost(g))
        .step(1004223600, 10800, 0, "MSK", Ghost(g))
        .step(1017529200, 10800, 3600, "MSD", Ghost(g))
        .step(1035673200, 10800, 0, "MSK", Ghost(g))
        .step(1048978800, 10800, 3600, "MSD", Ghost(g))
        .step(1067122800, 10800, 0, "MSK", Ghost(g))
        .step(1080428400, 10800, 3600, "MSD", Ghost(g))
        .step(1099177200, 10800, 0, "MSK", Ghost(g))
        .step(1111878000, 10800, 3600, "MSD", Ghost(g))
        .step(1130626800, 10800, 0, "MSK", Ghost(g))
        .step(1143327600, 10800, 3600, "MSD", Ghost(g))
        .step(1162076400, 10800, 0, "MSK", Ghost(g))
        .step(1174777200, 10800, 3600, "MSD", Ghost(g))
        .step(1193526000, 10800, 0, "MSK", Ghost(g))
        .step(1206831600, 10800, 3600, "MSD", Ghost(g))
        .step(1224975600, 10800, 0, "MSK", Ghost(g))
        .step(1238281200, 10800, 3600, "MSD", Ghost(g))
        .step(1256425200, 10800, 0, "MSK", Ghost(g))
        .step(1269730800, 10800, 3600, "MSD", Ghost(g))
        .step(1288479600, 10800, 0, "MSK", Ghost(g))
        .step(1301180400, 14400, 0, "MSK", Ghost(g))
        .step(1414274400, 10800, 0, "MSK", Ghost(g))
        .finish(Ghost(g))
}

/// The zone `Europe/Kyiv`.
pub fn kyiv() -> (r: Tz)
    ensures
        r.wf(),
        r.zone_name() == "Europe/Kyiv"@,
        r.table() == tables::europe::kyiv(),
{
    let ghost g = tables::europe::kyiv_rows();
    FixedTimespanSet::begin("Europe/Kyiv", 7324, 0, "LMT", Ghost(g))
        .step(-2840148124, 7324, 0, "KMT", Ghost(g))
        .step(-1441159324, 7200, 0, "EET", Ghost(g))
        .step(-1247536800, 10800, 0, "MSK", Ghost(g))
        .step(-892522800, 3600, 3600, "CEST", Ghost(g))
        .step(-857257200, 3600, 0, "CET", Ghost(g))
        .step(-844556400, 3600, 3600, "CEST", Ghost(g))
        .step(-828226800, 3600, 0, "CET", Ghost(g))
        .step(-825382800, 10800, 0, "MSK", Ghost(g))
        .step(354920400, 10800, 3600, "MSD", Ghost(g))
        .step(370728000, 10800, 0, "MSK", Ghost(g))
        .step(386456400, 10800, 3600, "MSD", Ghost(g))
        .step(402264000, 10800, 0, "MSK", Ghost(g))
        .step(417992400, 10800, 3600, "MSD", Ghost(g))
        .step(433800000, 10800, 0, "MSK", Ghost(g))
        .step(449614800, 10800, 3600, "MSD", Ghost(g))
        .step(465346800, 10800, 0, "MSK", Ghost(g))
        .step(481071600, 10800, 3600, "MSD", Ghost(g))
        .step(496796400, 10800, 0, "MSK", Ghost(g))
        .step(512521200, 10800, 3600, "MSD", Ghost(g))
        .step(528246000, 10800, 0, "MSK", Ghost(g))
        .step(543970800, 10800, 3600, "MSD", Ghost(g))
        .step(559695600, 10800, 0, "MSK", Ghost(g))
        .step(575420400, 10800, 3600, "MSD", Ghost(g))
        .step(591145200, 10800, 0, "MSK", Ghost(g))
        .step(606870000, 10800, 3600, "MSD", Ghost(g))
        .step(622594800, 10800, 0, "MSK", Ghost(g))
        .step(638319600, 10800, 3600, "MSD", Ghost(g))
        .step(646783200, 7200, 3600, "EEST", Ghost(g))
        .step(686102400, 7200, 0, "EET", Ghost(g))
        .step(701827200, 7200, 3600, "EEST", Ghost(g))
        .step(717552000, 7200, 0, "EET", Ghost(g))
        .step(733276800, 7200, 3600, "EEST", Ghost(g))
        .step(749001600, 7200, 0, "EET", Ghost(g))
        .step(764726400, 7200, 3600, "EEST", Ghost(g))
        .step(780451200, 7200, 0, "EET", Ghost(g))
        .step(796176000, 7200, 3600, "EEST", Ghost(g))
        .step(811900800, 7200, 0, "EET", Ghost(g))
        .step(828230400, 7200, 3600, "EEST", Ghost(g))
        .step(846378000, 7200, 0, "EET", Ghost(g))
        .step(859683600, 7200, 3600, "EEST", Ghost(g))
        .step(877827600, 7200, 0, "EET", Ghost(g))
        .step(891133200, 7200, 3600, "EEST", Ghost(g))
        .step(909277200, 7200, 0, "EET", Ghost(g))
        .step(922582800, 7200, 3600, "EEST", Ghost(g))
        .step(941331600, 7200, 0, "EET", Ghost(g))
        .step(954032400, 7200, 3600, "EEST", Ghost(g))
        .step(972781200, 7200, 0, "EET", Ghost(g))
        .step(985482000, 7200, 3600, "EEST", Ghost(g))
        .step(1004230800, 7200, 0, "EET", Ghost(g))
        .step(1017536400, 7200, 3600, "EEST", Ghost(g))
        .step(1035680400, 7200, 0, "EET", Ghost(g))
        .step(1048986000, 7200, 3600, "EEST", Ghost(g))
        .step(1067130000, 7200, 0, "EET", Ghost(g))
        .step(1080435600, 7200, 3600, "EEST", Ghost(g))
        .step(1099184400, 7200, 0, "EET", Ghost(g))
        .step(1111885200, 7200, 3600, "EEST", Ghost(g))
        .step(1130634000, 7200, 0, "EET", Ghost(g))
        .step(1143334800, 7200, 3600, "EEST", Ghost(g))
        .step(1162083600, 7200, 0, "EET", Ghost(g))
        .step(1174784400, 7200, 3600, "EEST", Ghost(g))
        .step(1193533200, 7200, 0, "EET", Ghost(g))
        .step(1206838800, 7200, 3600, "EEST", Ghost(g))
        .step(1224982800, 7200, 0, "EET", Ghost(g))
        .step(1238288400, 7200, 3600, "EEST", Ghost(g))
        .step(1256432400, 7200, 0, "EET", Ghost(g))
        .step(1269738000, 7200, 3600, "EEST", Ghost(g))
        .step(1288486800, 7200, 0, "EET", Ghost(g))
        .step(1301187600, 7200, 3600, "EEST", Ghost(g))
        .step(1319936400, 7200, 0, "EET", Ghost(g))
        .step(1332637200, 7200, 3600, "EEST", Ghost(g))
        .step(1351386000, 7200, 0, "EET", Ghost(g))
        .step(1364691600, 7200, 3600, "EEST", Ghost(g))
        .step(1382835600, 7200, 0, "EET", Ghost(g))
        .step(1396141200, 7200, 3600, "EEST", Ghost(g))
        .step(1414285200, 7200, 0, "EET", Ghost(g))
        .step(1427590800, 7200, 3600, "EEST", Ghost(g))
        .step(1445734800, 7200, 0, "EET", Ghost(g))
        .step(1459040400, 7200, 3600, "EEST", Ghost(g))
        .step(1477789200, 7200, 0, "EET", Ghost(g))
        .step(1490490000, 7200, 3600, "EEST", Ghost(g))
        .step(1509238800, 7200, 0, "EET", Ghost(g))
        .step(1521939600, 7200, 3600, "EEST", Ghost(g))
        .step(1540688400, 7200, 0, "EET", Ghost(g))
        .step(1553994000, 7200, 3600, "EEST", Ghost(g))
        .step(1572138000, 7200, 0, "EET", Ghost(g))
        .step(1585443600, 7200, 3600, "EEST", Ghost(g))
        .step(1603587600, 7200, 0, "EET", Ghost(g))
        .step(1616893200, 7200, 3600, "EEST", Ghost(g))
        .step(1635642000, 7200, 0, "EET", Ghost(g))
        .step(1648342800, 7200, 3600, "EEST", Ghost(g))
        .step(1667091600, 7200, 0, "EET", Ghost(g))
        .step(1679792400, 7200, 3600, "EEST", Ghost(g))
        .step(1698541200, 7200, 0, "EET", Ghost(g))
        .step(1711846800, 7200, 3600, "EEST", Ghost(g))
        .step(1729990800, 7200, 0, "EET", Ghost(g))
        .step(1743296400, 7200, 3600, "EEST", Ghost(g))
        .step(1761440400, 7200, 0, "EET", Ghost(g))
        .step(1774746000, 7200, 3600, "EEST", Ghost(g))
        .step(1792890000, 7200, 0, "EET", Ghost(g))
        .step(1806195600, 7200, 3600, "EEST", Ghost(g))
        .step(1824944400, 7200, 0, "EET", Ghost(g))
        .step(1837645200, 7200, 3600, "EEST", Ghost(g))
        .step(1856394000, 7200, 0, "EET", Ghost(g))
        .step(1869094800, 7200, 3600, "EEST", Ghost(g))
        .step(1887843600, 7200, 0, "EET", Ghost(g))
        .step(1901149200, 7200, 3600, "EEST", Ghost(g))
        .step(1919293200, 7200, 0, "EET", Ghost(g))
        .step(1932598800, 7200, 3600, "EEST", Ghost(g))
        .step(1950742800, 7200, 0, "EET", Ghost(g))
        .step(1964048400, 7200, 3600, "EEST", Ghost(g))
        .step(1982797200, 7200, 0, "EET", Ghost(g))
        .step(1995498000, 7200, 3600, "EEST", Ghost(g))
        .step(2014246800, 7200, 0, "EET", Ghost(g))
        .step(2026947600, 7200, 3600, "EEST", Ghost(g))
        .step(2045696400, 7200, 0, "EET", Ghost(g))
        .step(2058397200, 7200, 3600, "EEST", Ghost(g))
        .step(2077146000, 7200, 0, "EET", Ghost(g))
        .step(2090451600, 7200, 3600, "EEST", Ghost(g))
        .step(2108595600, 7200, 0, "EET", Ghost(g))
        .step(2121901200, 7200, 3600, "EEST", Ghost(g))
        .step(2140045200, 7200, 0, "EET", Ghost(g))
        .finish(Ghost(g))
}

/// The zone `Europe/Lisbon`.
pub fn lisbon() -> (r: Tz)
    ensures
        r.wf(),
        r.zone_name() == "Europe/Lisbon"@,
        r.table() == tables::europe::lisbon(),
{
    let ghost g = tables::europe::lisbon_rows();
    FixedTimespanSet::begin("Europe/Lisbon", -2205, 0, "LMT", Ghost(g))
        .step(-2713908195, -2205, 0, "LMT", Ghost(g))
        .step(-1830384000, 0, 0, "WET", Ghost(g))
        .step(-1689555600, 0, 3600, "WEST", Ghost(g))
        .step(-1677801600, 0, 0, "WET", Ghost(g))
        .step(-1667433600, 0, 3600, "WEST", Ghost(g))
        .step(-1647738000, 0, 0, "WET", Ghost(g))
        .step(-1635897600, 0, 3600, "WEST", Ghost(g))
        .step(-1616202000, 0, 0, "WET", Ghost(g))
        .step(-1604361600, 0, 3600, "WEST", Ghost(g))
        .step(-1584666000, 0, 0, "WET", Ghost(g))
        .step(-1572739200, 0, 3600, "WEST", Ghost(g))
        .step(-1553043600, 0, 0, "WET", Ghost(g))
        .step(-1541203200, 0, 3600, "WEST", Ghost(g))
        .step(-1521507600, 0, 0, "WET", Ghost(g))
        .step(-1442451600, 0, 3600, "WEST", Ghost(g))
        .step(-1427677200, 0, 0, "WET", Ghost(g))
        .step(-1379293200, 0, 3600, "WEST", Ghost(g))
        .step(-1364778000, 0, 0, "WET", Ghost(g))
        .step(-1348448400, 0, 3600, "WEST", Ghost(g))
        .step(-1333328400, 0, 0, "WET", Ghost(g))
        .step(-1316394000, 0, 3600, "WEST", Ghost(g))
        .step(-1301274000, 0, 0, "WET", Ghost(g))
        .step(-1284339600, 0, 3600, "WEST", Ghost(g))
        .step(-1269824400, 0, 0, "WET", Ghost(g))
        .step(-1221440400, 0, 3600, "WEST", Ghost(g))
        .step(-1206925200, 0, 0, "WET", Ghost(g))
        .step(-1191200400, 0, 3600, "WEST", Ghost(g))
        .step(-1175475600, 0, 0, "WET", Ghost(g))
        .step(-1127696400, 0, 3600, "WEST", Ghost(g))
        .step(-1111971600, 0, 0, "WET", Ghost(g))
        .step(-1096851600, 0, 3600, "WEST", Ghost(g))
        .step(-1080522000, 0, 0, "WET", Ghost(g))
        .step(-1063587600, 0, 3600, "WEST", Ghost(g))
        .step(-1049072400, 0, 0, "WET", Ghost(g))
        .step(-1033347600, 0, 3600, "WEST", Ghost(g))
        .step(-1017622800, 0, 0, "WET", Ghost(g))
        .step(-1002502800, 0, 3600, "WEST", Ghost(g))
        .step(-986173200, 0, 0, "WET", Ghost(g))
        .step(-969238800, 0, 3600, "WEST", Ghost(g))
        .step(-950490000, 0, 0, "WET", Ghost(g))
        .step(-942022800, 0, 3600, "WEST", Ghost(g))
        .step(-922496400, 0, 0, "WET", Ghost(g))
        .step(-906944400, 0, 3600, "WEST", Ghost(g))
        .step(-891133200, 0, 0, "WET", Ghost(g))
        .step(-877309200, 0, 3600, "WEST", Ghost(g))
        .step(-873684000, 0, 7200, "WEMT", Ghost(g))
        .step(-864007200, 0, 3600, "WEST", Ghost(g))
        .step(-857955600, 0, 0, "WET", Ghost(g))
        .step(-845859600, 0, 3600, "WEST", Ghost(g))
        .step(-842839200, 0, 7200, "WEMT", Ghost(g))
        .step(-831348000, 0, 3600, "WEST", Ghost(g))
        .step(-825901200, 0, 0, "WET", Ghost(g))
        .step(-814410000, 0, 3600, "WEST", Ghost(g))
        .step(-810784800, 0, 7200, "WEMT", Ghost(g))
        .step(-799898400, 0, 3600, "WEST", Ghost(g))
        .step(-794451600, 0, 0, "WET", Ghost(g))
        .step(-782960400, 0, 3600, "WEST", Ghost(g))
        .step(-779335200, 0, 7200, "WEMT", Ghost(g))
        .step(-768448800, 0, 3600, "WEST", Ghost(g))
        .step(-763002000, 0, 0, "WET", Ghost(g))
        .step(-749091600, 0, 3600, "WEST", Ghost(g))
        .step(-733366800, 0, 0, "WET", Ghost(g))
        .step(-717631200, 0, 3600, "WEST", Ghost(g))
        .step(-701906400, 0, 0, "WET", Ghost(g))
        .step(-686181600, 0, 3600, "WEST", Ghost(g))
        .step(-670456800, 0, 0, "WET", Ghost(g))
        .step(-654732000, 0, 3600, "WEST", Ghost(g))
        .step(-639007200, 0, 0, "WET", Ghost(g))
        .step(-623282400, 0, 3600, "WEST", Ghost(g))
        .step(-607557600, 0, 0, "WET", Ghost(g))
        .step(-591832800, 0, 3600, "WEST", Ghost(g))
        .step(-575503200, 0, 0, "WET", Ghost(g))
        .step(-559778400, 0, 3600, "WEST", Ghost(g))
        .step(-544053600, 0, 0, "WET", Ghost(g))
        .step(-528328800, 0, 3600, "WEST", Ghost(g))
        .step(-512604000, 0, 0, "WET", Ghost(g))
        .step(-496879200, 0, 3600, "WEST", Ghost(g))
        .step(-481154400, 0, 0, "WET", Ghost(g))
        .step(-465429600, 0, 3600, "WEST", Ghost(g))
        .step(-449704800, 0, 0, "WET", Ghost(g))
        .step(-433980000, 0, 3600, "WEST", Ghost(g))
        .step(-417650400, 0, 0, "WET", Ghost(g))
        .step(-401925600, 0, 3600, "WEST", Ghost(g))
        .step(-386200800, 0, 0, "WET", Ghost(g))
        .step(-370476000, 0, 3600, "WEST", Ghost(g))
        .step(-354751200, 0, 0, "WET", Ghost(g))
        .step(-339026400, 0, 3600, "WEST", Ghost(g))
        .step(-323301600, 0, 0, "WET", Ghost(g))
        .step(-307576800, 0, 3600, "WEST", Ghost(g))
        .step(-291852000, 0, 0, "WET", Ghost(g))
        .step(-276127200, 0, 3600, "WEST", Ghost(g))
        .step(-260402400, 0, 0, "WET", Ghost(g))
        .step(-244677600, 0, 3600, "WEST", Ghost(g))
        .step(-228348000, 0, 0, "WET", Ghost(g))
        .step(-212623200, 0, 3600, "WEST", Ghost(g))
        .step(-196898400, 0, 0, "WET", Ghost(g))
        .step(-181173600, 0, 3600, "WEST", Ghost(g))
        .step(-165448800, 0, 0, "WET", Ghost(g))
        .step(-149724000, 0, 3600, "WEST", Ghost(g))
        .step(-133999200, 0, 0, "WET", Ghost(g))
        .step(-118274400, 0, 3600, "WEST", Ghost(g))
        .step(-102549600, 3600, 0, "CET", Ghost(g))
        .step(212544000, 0, 0, "WET", Ghost(g))
        .step(228268800, 0, 3600, "WEST", Ghost(g))
        .step(243993600, 0, 0, "WET", Ghost(g))
        .step(260326800, 0, 3600, "WEST", Ghost(g))
        .step(276051600, 0, 0, "WET", Ghost(g))
        .step(291776400, 0, 3600, "WEST", Ghost(g))
        .step(307501200, 0, 0, "WET", Ghost(g))
        .step(323830800, 0, 3600, "WEST", Ghost(g))
        .step(338950800, 0, 0, "WET", Ghost(g))
        .step(354672000, 0, 3600, "WEST", Ghost(g))
        .step(370396800, 0, 0, "WET", Ghost(g))
        .step(386121600, 0, 3600, "WEST", Ghost(g))
        .step(401846400, 0, 0, "WET", Ghost(g))
        .step(417571200, 0, 3600, "WEST", Ghost(g))
        .step(433296000, 0, 0, "WET", Ghost(g))
        .step(449020800, 0, 3600, "WEST", Ghost(g))
        .step(465350400, 0, 0, "WET", Ghost(g))
        .step(481075200, 0, 3600, "WEST", Ghost(g))
        .step(496800000, 0, 0, "WET", Ghost(g))
        .step(512528400, 0, 3600, "WEST", Ghost(g))
        .step(528253200, 0, 0, "WET", Ghost(g))
        .step(543978000, 0, 3600, "WEST", Ghost(g))
        .step(559702800, 0, 0, "WET", Ghost(g))
        .step(575427600, 0, 3600, "WEST", Ghost(g))
        .step(591152400, 0, 0, "WET", Ghost(g))
        .step(606877200, 0, 3600, "WEST", Ghost(g))
        .step(622602000, 0, 0, "WET", Ghost(g))
        .step(638326800, 0, 3600, "WEST", Ghost(g))
        .step(654656400, 0, 0, "WET", Ghost(g))
        .step(670381200, 0, 3600, "WEST", Ghost(g))
        .step(686106000, 0, 0, "WET", Ghost(g))
        .step(701830800, 0, 3600, "WEST", Ghost(g))
        .step(717555600, 3600, 0, "CET", Ghost(g))
        .step(733280400, 3600, 3600, "CEST", Ghost(g))
        .step(749005200, 3600, 0, "CET", Ghost(g))
        .step(764730000, 3600, 3600, "CEST", Ghost(g))
        .step(780454800, 3600, 0, "CET", Ghost(g))
        .step(796179600, 3600, 3600, "CEST", Ghost(g))
        .step(811904400, 3600, 0, "CET", Ghost(g))
        .step(828234000, 0, 3600, "WEST", Ghost(g))
        .step(846378000, 0, 0, "WET", Ghost(g))
        .step(859683600, 0, 3600, "WEST", Ghost(g))
        .step(877827600, 0, 0, "WET", Ghost(g))
        .step(891133200, 0, 3600, "WEST", Ghost(g))
        .step(909277200, 0, 0, "WET", Ghost(g))
        .step(922582800, 0, 3600, "WEST", Ghost(g))
        .step(941331600, 0, 0, "WET", Ghost(g))
        .step(954032400, 0, 3600, "WEST", Ghost(g))
        .step(972781200, 0, 0, "WET", Ghost(g))
        .step(985482000, 0, 3600, "WEST", Ghost(g))
        .step(1004230800, 0, 0, "WET", Ghost(g))
        .step(1017536400, 0, 3600, "WEST", Ghost(g))
        .step(1035680400, 0, 0, "WET", Ghost(g))
        .step(1048986000, 0, 3600, "WEST", Ghost(g))
        .step(1067130000, 0, 0, "WET", Ghost(g))
        .step(1080435600, 0, 3600, "WEST", Ghost(g))
        .step(1099184400, 0, 0, "WET", Ghost(g))
        .step(1111885200, 0, 3600, "WEST", Ghost(g))
        .step(1130634000, 0, 0, "WET", Ghost(g))
        .step(1143334800, 0, 3600, "WEST", Ghost(g))
        .step(1162083600, 0, 0, "WET", Ghost(g))
        .step(1174784400, 0, 3600, "WEST", Ghost(g))
        .step(1193533200, 0, 0, "WET", Ghost(g))
        .step(1206838800, 0, 3600, "WEST", Ghost(g))
        .step(1224982800, 0, 0, "WET", Ghost(g))
        .step(1238288400, 0, 3600, "WEST", Ghost(g))
        .step(1256432400, 0, 0, "WET", Ghost(g))
        .step(1269738000, 0, 3600, "WEST", Ghost(g))
        .step(1288486800, 0, 0, "WET", Ghost(g))
        .step(1301187600, 0, 3600, "WEST", Ghost(g))
        .step(1319936400, 0, 0, "WET", Ghost(g))
        .step(1332637200, 0, 3600, "WEST", Ghost(g))
        .step(1351386000, 0, 0, "WET", Ghost(g))
        .step(1364691600, 0, 3600, "WEST", Ghost(g))
        .step(1382835600, 0, 0, "WET", Ghost(g))
        .step(1396141200, 0, 3600, "WEST", Ghost(g))
        .step(1414285200, 0, 0, "WET", Ghost(g))
        .step(1427590800, 0, 3600, "WEST", Ghost(g))
        .step(1445734800, 0, 0, "WET", Ghost(g))
        .step(1459040400, 0, 3600, "WEST", Ghost(g))
        .step(1477789200, 0, 0, "WET", Ghost(g))
        .step(1490490000, 0, 3600, "WEST", Ghost(g))
        .step(1509238800, 0, 0, "WET", Ghost(g))
        .step(1521939600, 0, 3600, "WEST", Ghost(g))
        .step(1540688400, 0, 0, "WET", Ghost(g))
        .step(1553994000, 0, 3600, "WEST", Ghost(g))
        .step(1572138000, 0, 0, "WET", Ghost(g))
        .step(1585443600, 0, 3600, "WEST", Ghost(g))
        .step(1603587600, 0, 0, "WET", Ghost(g))
        .step(1616893200, 0, 3600, "WEST", Ghost(g))
        .step(1635642000, 0, 0, "WET", Ghost(g))
        .step(1648342800, 0, 3600, "WEST", Ghost(g))
        .step(1667091600, 0, 0, "WET", Ghost(g))
        .step(1679792400, 0, 3600, "WEST", Ghost(g))
        .step(1698541200, 0, 0, "WET", Ghost(g))
        .step(1711846800, 0, 3600, "WEST", Ghost(g))
        .step(1729990800, 0, 0, "WET", Ghost(g))
        .step(1743296400, 0, 3600, "WEST", Ghost(g))
        .step(1761440400, 0, 0, "WET", Ghost(g))
        .step(1774746000, 0, 3600, "WEST", Ghost(g))
        .step(1792890000, 0, 0, "WET", Ghost(g))
        .step(1806195600, 0, 3600, "WEST", Ghost(g))
        .step(1824944400, 0, 0, "WET", Ghost(g))
        .step(1837645200, 0, 3600, "WEST", Ghost(g))
        .step(1856394000, 0, 0, "WET", Ghost(g))
        .step(1869094800, 0, 3600, "WEST", Ghost(g))
        .step(1887843600, 0, 0, "WET", Ghost(g))
        .step(1901149200, 0, 3600, "WEST", Ghost(g))
        .step(1919293200, 0, 0, "WET", Ghost(g))
        .step(1932598800, 0, 3600, "WEST", Ghost(g))
        .step(1950742800, 0, 0, "WET", Ghost(g))
        .step(1964048400, 0, 3600, "WEST", Ghost(g))
        .step(1982797200, 0, 0, "WET", Ghost(g))
        .step(1995498000, 0, 3600, "WEST", Ghost(g))
        .step(2014246800, 0, 0, "WET", Ghost(g))
        .step(2026947600, 0, 3600, "WEST", Ghost(g))
        .step(2045696400, 0, 0, "WET", Ghost(g))
        .step(2058397200, 0, 3600, "WEST", Ghost(g))
        .step(2077146000, 0, 0, "WET", Ghost(g))
        .step(2090451600, 0, 3600, "WEST", Ghost(g))
        .step(2108595600, 0, 0, "WET", Ghost(g))
        .step(2121901200, 0, 3600, "WEST", Ghost(g))
        .step(2140045200, 0, 0, "WET", Ghost(g))
        .finish(Ghost(g))
}

/// The zone `Europe/Ljubljana`.
pub fn ljubljana() -> (r: Tz)
    ensures
        r.wf(),
        r.zone_name() == "Europe/Ljubljana"@,
        r.table() == tables::europe::ljubljana(),
{
    let ghost g = tables::europe::ljubljana_rows();
    FixedTimespanSet::begin("Europe/Ljubljana", 3484, 0, "LMT", Ghost(g))
        .step(-2713913884, 3600, 0, "CET", Ghost(g))
        .step(-905824800, 3600, 3600, "CEST", Ghost(g))
        .step(-857257200, 3600, 0, "CET", Ghost(g))
        .step(-844556400, 3600, 3600, "CEST", Ghost(g))
        .step(-828226800, 3600, 0, "CET", Ghost(g))
        .step(-812502000, 3600, 3600, "CEST", Ghost(g))
        .step(-796777200, 3600, 0, "CET", Ghost(g))
        .step(-781052400, 3600, 3600, "CEST", Ghost(g))
        .step(-766623600, 3600, 0, "CET", Ghost(g))
        .step(417574800, 3600, 3600, "CEST", Ghost(g))
        .step(433299600, 3600, 0, "CET", Ghost(g))
        .step(449024400, 3600, 3600, "CEST", Ghost(g))
        .step(465354000, 3600, 0, "CET", Ghost(g))
        .step(481078800, 3600, 3600, "CEST", Ghost(g))
        .step(496803600, 3600, 0, "CET", Ghost(g))
        .step(512528400, 3600, 3600, "CEST", Ghost(g))
        .step(528253200, 3600, 0, "CET", Ghost(g))
        .step(543978000, 3600, 3600, "CEST", Ghost(g))
        .step(559702800, 3600, 0, "CET", Ghost(g))
        .step(575427600, 3600, 3600, "CEST", Ghost(g))
        .step(591152400, 3600, 0, "CET", Ghost(g))
        .step(606877200, 3600, 3600, "CEST", Ghost(g))
        .step(622602000, 3600, 0, "CET", Ghost(g))
        .step(638326800, 3600, 3600, "CEST", Ghost(g))
        .step(654656400, 3600, 0, "CET", Ghost(g))
        .step(670381200, 3600, 3600, "CEST", Ghost(g))
        .step(686106000, 3600, 0, "CET", Ghost(g))
        .step(701830800, 3600, 3600, "CEST", Ghost(g))
        .step(717555600, 3600, 0, "CET", Ghost(g))
        .step(733280400, 3600, 3600, "CEST", Ghost(g))
        .step(749005200, 3600, 0, "CET", Ghost(g))
        .step(764730000, 3600, 3600, "CEST", Ghost(g))
        .step(780454800, 3600, 0, "CET", Ghost(g))
        .step(796179600, 3600, 3600, "CEST", Ghost(g))
        .step(811904400, 3600, 0, "CET", Ghost(g))
        .step(828234000, 3600, 3600, "CEST", Ghost(g))
        .step(846378000, 3600, 0, "CET", Ghost(g))
        .step(859683600, 3600, 3600, "CEST", Ghost(g))
        .step(877827600, 3600, 0, "CET", Ghost(g))
        .step(891133200, 3600, 3600, "CEST", Ghost(g))
        .step(909277200, 3600, 0, "CET", Ghost(g))
        .step(922582800, 3600, 3600, "CEST", Ghost(g))
        .step(941331600, 3600, 0, "CET", Ghost(g))
        .step(954032400, 3600, 3600, "CEST", Ghost(g))
        .step(972781200, 3600, 0, "CET", Ghost(g))
        .step(985482000, 3600, 3600, "CEST", Ghost(g))
        .step(1004230800, 3600, 0, "CET", Ghost(g))
        .step(1017536400, 3600, 3600, "CEST", Ghost(g))
        .step(1035680400, 3600, 0, "CET", Ghost(g))
        .step(1048986000, 3600, 3600, "CEST", Ghost(g))
        .step(1067130000, 3600, 0, "CET", Ghost(g))
        .step(1080435600, 3600, 3600, "CEST", Ghost(g))
        .step(1099184400, 3600, 0, "CET", Ghost(g))
        .step(1111885200, 3600, 3600, "CEST", Ghost(g))
        .step(1130634000, 3600, 0, "CET", Ghost(g))
        .step(1143334800, 3600, 3600, "CEST", Ghost(g))
        .step(1162083600, 3600, 0, "CET", Ghost(g))
        .step(1174784400, 3600, 3600, "CEST", Ghost(g))
        .step(1193533200, 3600, 0, "CET", Ghost(g))
        .step(1206838800, 3600, 3600, "CEST", Ghost(g))
        .step(1224982800, 3600, 0, "CET", Ghost(g))
        .step(1238288400, 3600, 3600, "CEST", Ghost(g))
        .step(1256432400, 3600, 0, "CET", Ghost(g))
        .step(1269738000, 3600, 3600, "CEST", Ghost(g))
        .step(1288486800, 3600, 0, "CET", Ghost(g))
        .step(1301187600, 3600, 3600, "CEST", Ghost(g))
        .step(1319936400, 3600, 0, "CET", Ghost(g))
        .step(1332637200, 3600, 3600, "CEST", Ghost(g))
        .step(1351386000, 3600, 0, "CET", Ghost(g))
        .step(1364691600, 3600, 3600, "CEST", Ghost(g))
        .step(1382835600, 3600, 0, "CET", Ghost(g))
        .step(1396141200, 3600, 3600, "CEST", Ghost(g))
        .step(1414285200, 3600, 0, "CET", Ghost(g))
        .step(1427590800, 3600, 3600, "CEST", Ghost(g))
        .step(1445734800, 3600, 0, "CET", Ghost(g))
        .step(1459040400, 3600, 3600, "CEST", Ghost(g))
        .step(1477789200, 3600, 0, "CET", Ghost(g))
        .step(1490490000, 3600, 3600, "CEST", Ghost(g))
        .step(1509238800, 3600, 0, "CET", Ghost(g))
        .step(1521939600, 3600, 3600, "CEST", Ghost(g))
        .step(1540688400, 3600, 0, "CET", Ghost(g))
        .step(1553994000, 3600, 3600, "CEST", Ghost(g))
        .step(1572138000, 3600, 0, "CET", Ghost(g))
        .step(1585443600, 3600, 3600, "CEST", Ghost(g))
        .step(1603587600, 3600, 0, "CET", Ghost(g))
        .step(1616893200, 3600, 3600, "CEST", Ghost(g))
        .step(1635642000, 3600, 0, "CET", Ghost(g))
        .step(1648342800, 3600, 3600, "CEST", Ghost(g))
        .step(1667091600, 3600, 0, "CET", Ghost(g))
        .step(1679792400, 3600, 3600, "CEST", Ghost(g))
        .step(1698541200, 3600, 0, "CET", Ghost(g))
        .step(1711846800, 3600, 3600, "CEST", Ghost(g))
        .step(1729990800, 3600, 0, "CET", Ghost(g))
        .step(1743296400, 3600, 3600, "CEST", Ghost(g))
        .step(1761440400, 3600, 0, "CET", Ghost(g))
        .step(1774746000, 3600, 3600, "CEST", Ghost(g))
        .step(1792890000, 3600, 0, "CET", Ghost(g))
        .step(1806195600, 3600, 3600, "CEST", Ghost(g))
        .step(1824944400, 3600, 0, "CET", Ghost(g))
        .step(1837645200, 3600, 3600, "CEST", Ghost(g))
        .step(1856394000, 3600, 0, "CET", Ghost(g))
        .step(1869094800, 3600, 3600, "CEST", Ghost(g))
        .step(1887843600, 3600, 0, "CET", Ghost(g))
        .step(1901149200, 3600, 3600, "CEST", Ghost(g))
        .step(1919293200, 3600, 0, "CET", Ghost(g))
        .step(1932598800, 3600, 3600, "CEST", Ghost(g))
        .step(1950742800, 3600, 0, "CET", Ghost(g))
        .step(1964048400, 3600, 3600, "CEST", Ghost(g))
        .step(1982797200, 3600, 0, "CET", Ghost(g))
        .step(1995498000, 3600, 3600, "CEST", Ghost(g))
        .step(2014246800, 3600, 0, "CET", Ghost(g))
        .step(2026947600, 3600, 3600, "CEST", Ghost(g))
        .step(2045696400, 3600, 0, "CET", Ghost(g))
        .step(2058397200, 3600, 3600, "CEST", Ghost(g))
        .step(2077146000, 3600, 0, "CET", Ghost(g))
        .step(2090451600, 3600, 3600, "CEST", Ghost(g))
        .step(2108595600, 3600, 0, "CET", Ghost(g))
        .step(2121901200, 3600, 3600, "CEST", Ghost(g))
        .step(2140045200, 3600, 0, "CET", Ghost(g))
        .finish(Ghost(g))
}

/// The zone `Europe/London`.
pub fn london() -> (r: Tz)
    ensures
        r.wf(),
        r.zone_name() == "Europe/London"@,
        r.table() == tables::europe::london(),
{
    let ghost g = tables::europe::london_rows();
    FixedTimespanSet::begin("Europe/London", -75, 0, "LMT", Ghost(g))
        .step(-3852662325, 0, 0, "GMT", Ghost(g))
        .step(-1691964000, 0, 3600, "BST", Ghost(g))
        .step(-1680472800, 0, 0, "GMT", Ghost(g))
        .step(-1664143200, 0, 3600, "BST", Ghost(g))
        .step(-1650146400, 0, 0, "GMT", Ghost(g))
        .step(-1633903200, 0, 3600, "BST", Ghost(g))
        .step(-1617487200, 0, 0, "GMT", Ghost(g))
        .step(-1601848800, 0, 3600, "BST", Ghost(g))
        .step(-1586037600, 0, 0, "GMT", Ghost(g))
        .step(-1570399200, 0, 3600, "BST", Ghost(g))
        .step(-1552168800, 0, 0, "GMT", Ghost(g))
        .step(-1538344800, 0, 3600, "BST", Ghost(g))
        .step(-1522533600, 0, 0, "GMT", Ghost(g))
        .step(-1507500000, 0, 3600, "BST", Ghost(g))
        .step(-1490565600, 0, 0, "GMT", Ghost(g))
        .step(-1473631200, 0, 3600, "BST", Ghost(g))
        .step(-1460930400, 0, 0, "GMT", Ghost(g))
        .step(-1442786400, 0, 3600, "BST", Ghost(g))
        .step(-1428876000, 0, 0, "GMT", Ghost(g))
        .step(-1410732000, 0, 3600, "BST", Ghost(g))
        .step(-1396216800, 0, 0, "GMT", Ghost(g))
        .step(-1379282400, 0, 3600, "BST", Ghost(g))
        .step(-1364767200, 0, 0, "GMT", Ghost(g))
        .step(-1348437600, 0, 3600, "BST", Ghost(g))
        .step(-1333317600, 0, 0, "GMT", Ghost(g))
        .step(-1315778400, 0, 3600, "BST", Ghost(g))
        .step(-1301263200, 0, 0, "GMT", Ghost(g))
        .step(-1284328800, 0, 3600, "BST", Ghost(g))
        .step(-1269813600, 0, 0, "GMT", Ghost(g))
        .step(-1253484000, 0, 3600, "BST", Ghost(g))
        .step(-1238364000, 0, 0, "GMT", Ghost(g))
        .step(-1221429600, 0, 3600, "BST", Ghost(g))
        .step(-1206914400, 0, 0, "GMT", Ghost(g))
        .step(-1189980000, 0, 3600, "BST", Ghost(g))
        .step(-1175464800, 0, 0, "GMT", Ghost(g))
        .step(-1159135200, 0, 3600, "BST", Ghost(g))
        .step(-1143410400, 0, 0, "GMT", Ghost(g))
        .step(-1126476000, 0, 3600, "BST", Ghost(g))
        .step(-1111960800, 0, 0, "GMT", Ghost(g))
        .step(-1095631200, 0, 3600, "BST", Ghost(g))
        .step(-1080511200, 0, 0, "GMT", Ghost(g))
        .step(-1063576800, 0, 3600, "BST", Ghost(g))
        .step(-1049061600, 0, 0, "GMT", Ghost(g))
        .step(-1032127200, 0, 3600, "BST", Ghost(g))
        .step(-1017612000, 0, 0, "GMT", Ghost(g))
        .step(-1001282400, 0, 3600, "BST", Ghost(g))
        .step(-986162400, 0, 0, "GMT", Ghost(g))
        .step(-969228000, 0, 3600, "BST", Ghost(g))
        .step(-950479200, 0, 0, "GMT", Ghost(g))
        .step(-942012000, 0, 3600, "BST", Ghost(g))
        .step(-904518000, 0, 7200, "BDST", Ghost(g))
        .step(-896050800, 0, 3600, "BST", Ghost(g))
        .step(-875487600, 0, 7200, "BDST", Ghost(g))
        .step(-864601200, 0, 3600, "BST", Ghost(g))
        .step(-844038000, 0, 7200, "BDST", Ghost(g))
        .step(-832546800, 0, 3600, "BST", Ghost(g))
        .step(-812588400, 0, 7200, "BDST", Ghost(g))
        .step(-798073200, 0, 3600, "BST", Ghost(g))
        .step(-781052400, 0, 7200, "BDST", Ghost(g))
        .step(-772066800, 0, 3600, "BST", Ghost(g))
        .step(-764805600, 0, 0, "GMT", Ghost(g))
        .step(-748476000, 0, 3600, "BST", Ghost(g))
        .step(-733356000, 0, 0, "GMT", Ghost(g))
        .step(-719445600, 0, 3600, "BST", Ghost(g))
        .step(-717030000, 0, 7200, "BDST", Ghost(g))
        .step(-706748400, 0, 3600, "BST", Ghost(g))
        .step(-699487200, 0, 0, "GMT", Ghost(g))
        .step(-687996000, 0, 3600, "BST", Ghost(g))
        .step(-668037600, 0, 0, "GMT", Ghost(g))
        .step(-654732000, 0, 3600, "BST", Ghost(g))
        .step(-636588000, 0, 0, "GMT", Ghost(g))
        .step(-622072800, 0, 3600, "BST", Ghost(g))
        .step(-605743200, 0, 0, "GMT", Ghost(g))
        .step(-590623200, 0, 3600, "BST", Ghost(g))
        .step(-574293600, 0, 0, "GMT", Ghost(g))
        .step(-558568800, 0, 3600, "BST", Ghost(g))
        .step(-542239200, 0, 0, "GMT", Ghost(g))
        .step(-527119200, 0, 3600, "BST", Ghost(g))
        .step(-512604000, 0, 0, "GMT", Ghost(g))
        .step(-496274400, 0, 3600, "BST", Ghost(g))
        .step(-481154400, 0, 0, "GMT", Ghost(g))
        .step(-464220000, 0, 3600, "BST", Ghost(g))
        .step(-449704800, 0, 0, "GMT", Ghost(g))
        .step(-432165600, 0, 3600, "BST", Ghost(g))
        .step(-417650400, 0, 0, "GMT", Ghost(g))
        .step(-401320800, 0, 3600, "BST", Ghost(g))
        .step(-386200800, 0, 0, "GMT", Ghost(g))
        .step(-369266400, 0, 3600, "BST", Ghost(g))
        .step(-354751200, 0, 0, "GMT", Ghost(g))
        .step(-337816800, 0, 3600, "BST", Ghost(g))
        .step(-323301600, 0, 0, "GMT", Ghost(g))
        .step(-306972000, 0, 3600, "BST", Ghost(g))
        .step(-291852000, 0, 0, "GMT", Ghost(g))
        .step(-276732000, 0, 3600, "BST", Ghost(g))
        .step(-257983200, 0, 0, "GMT", Ghost(g))
        .step(-245282400, 0, 3600, "BST", Ghost(g))
        .step(-226533600, 0, 0, "GMT", Ghost(g))
        .step(-213228000, 0, 3600, "BST", Ghost(g))
        .step(-195084000, 0, 0, "GMT", Ghost(g))
        .step(-182383200, 0, 3600, "BST", Ghost(g))
        .step(-163634400, 0, 0, "GMT", Ghost(g))
        .step(-150933600, 0, 3600, "BST", Ghost(g))
        .step(-132184800, 0, 0, "GMT", Ghost(g))
        .step(-119484000, 0, 3600, "BST", Ghost(g))
        .step(-100735200, 0, 0, "GMT", Ghost(g))
        .step(-88034400, 0, 3600, "BST", Ghost(g))
        .step(-68680800, 0, 0, "GMT", Ghost(g))
        .step(-59004000, 0, 3600, "BST", Ghost(g))
        .step(-37242000, 3600, 0, "BST", Ghost(g))
        .step(57722400, 0, 0, "GMT", Ghost(g))
        .step(69818400, 0, 3600, "BST", Ghost(g))
        .step(89172000, 0, 0, "GMT", Ghost(g))
        .step(101268000, 0, 3600, "BST", Ghost(g))
        .step(120621600, 0, 0, "GMT", Ghost(g))
        .step(132717600, 0, 3600, "BST", Ghost(g))
        .step(152071200, 0, 0, "GMT", Ghost(g))
        .step(164167200, 0, 3600, "BST", Ghost(g))
        .step(183520800, 0, 0, "GMT", Ghost(g))
        .step(196221600, 0, 3600, "BST", Ghost(g))
        .step(214970400, 0, 0, "GMT", Ghost(g))
        .step(227671200, 0, 3600, "BST", Ghost(g))
        .step(246420000, 0, 0, "GMT", Ghost(g))
        .step(259120800, 0, 3600, "BST", Ghost(g))
        .step(278474400, 0, 0, "GMT", Ghost(g))
        .step(290570400, 0, 3600, "BST", Ghost(g))
        .step(309924000, 0, 0, "GMT", Ghost(g))
        .step(322020000, 0, 3600, "BST", Ghost(g))
        .step(341373600, 0, 0, "GMT", Ghost(g))
        .step(354675600, 0, 3600, "BST", Ghost(g))
        .step(372819600, 0, 0, "GMT", Ghost(g))
        .step(386125200, 0, 3600, "BST", Ghost(g))
        .step(404269200, 0, 0, "GMT", Ghost(g))
        .step(417574800, 0, 3600, "BST", Ghost(g))
        .step(435718800, 0, 0, "GMT", Ghost(g))
        .step(449024400, 0, 3600, "BST", Ghost(g))
        .step(467773200, 0, 0, "GMT", Ghost(g))
        .step(481078800, 0, 3600, "BST", Ghost(g))
        .step(499222800, 0, 0, "GMT", Ghost(g))
        .step(512528400, 0, 3600, "BST", Ghost(g))
        .step(530672400, 0, 0, "GMT", Ghost(g))
        .step(543978000, 0, 3600, "BST", Ghost(g))
        .step(562122000, 0, 0, "GMT", Ghost(g))
        .step(575427600, 0, 3600, "BST", Ghost(g))
        .step(593571600, 0, 0, "GMT", Ghost(g))
        .step(606877200, 0, 3600, "BST", Ghost(g))
        .step(625626000, 0, 0, "GMT", Ghost(g))
        .step(638326800, 0, 3600, "BST", Ghost(g))
        .step(657075600, 0, 0, "GMT", Ghost(g))
        .step(670381200, 0, 3600, "BST", Ghost(g))
        .step(688525200, 0, 0, "GMT", Ghost(g))
        .step(701830800, 0, 3600, "BST", Ghost(g))
        .step(719974800, 0, 0, "GMT", Ghost(g))
        .step(733280400, 0, 3600, "BST", Ghost(g))
        .step(751424400, 0, 0, "GMT", Ghost(g))
        .step(764730000, 0, 3600, "BST", Ghost(g))
        .step(782874000, 0, 0, "GMT", Ghost(g))
        .step(796179600, 0, 3600, "BST", Ghost(g))
        .step(814323600, 0, 0, "GMT", Ghost(g))
        .step(828234000, 0, 3600, "BST", Ghost(g))
        .step(846378000, 0, 0, "GMT", Ghost(g))
        .step(859683600, 0, 3600, "BST", Ghost(g))
        .step(877827600, 0, 0, "GMT", Ghost(g))
        .step(891133200, 0, 3600, "BST", Ghost(g))
        .step(909277200, 0, 0, "GMT", Ghost(g))
        .step(922582800, 0, 3600, "BST", Ghost(g))
        .step(941331600, 0, 0, "GMT", Ghost(g))
        .step(954032400, 0, 3600, "BST", Ghost(g))
        .step(972781200, 0, 0, "GMT", Ghost(g))
        .step(985482000, 0, 3600, "BST", Ghost(g))
        .step(1004230800, 0, 0, "GMT", Ghost(g))
        .step(1017536400, 0, 3600, "BST", Ghost(g))
        .step(1035680400, 0, 0, "GMT", Ghost(g))
        .step(1048986000, 0, 3600, "BST", Ghost(g))
        .step(1067130000, 0, 0, "GMT", Ghost(g))
        .step(1080435600, 0, 3600, "BST", Ghost(g))
        .step(1099184400, 0, 0, "GMT", Ghost(g))
        .step(1111885200, 0, 3600, "BST", Ghost(g))
        .step(1130634000, 0, 0, "GMT", Ghost(g))
        .step(1143334800, 0, 3600, "BST", Ghost(g))
        .step(1162083600, 0, 0, "GMT", Ghost(g))
        .step(1174784400, 0, 3600, "BST", Ghost(g))
        .step(1193533200, 0, 0, "GMT", Ghost(g))
        .step(1206838800, 0, 3600, "BST", Ghost(g))
        .step(1224982800, 0, 0, "GMT", Ghost(g))
        .step(1238288400, 0, 3600, "BST", Ghost(g))
        .step(1256432400, 0, 0, "GMT", Ghost(g))
        .step(1269738000, 0, 3600, "BST", Ghost(g))
        .step(1288486800, 0, 0, "GMT", Ghost(g))
        .step(1301187600, 0, 3600, "BST", Ghost(g))
        .step(1319936400, 0, 0, "GMT", Ghost(g))
        .step(1332637200, 0, 3600, "BST", Ghost(g))
        .step(1351386000, 0, 0, "GMT", Ghost(g))
        .step(1364691600, 0, 3600, "BST", Ghost(g))
        .step(1382835600, 0, 0, "GMT", Ghost(g))
        .step(1396141200, 0, 3600, "BST", Ghost(g))
        .step(1414285200, 0, 0, "GMT", Ghost(g))
        .step(1427590800, 0, 3600, "BST", Ghost(g))
        .step(1445734800, 0, 0, "GMT", Ghost(g))
        .step(1459040400, 0, 3600, "BST", Ghost(g))
        .step(1477789200, 0, 0, "GMT", Ghost(g))
        .step(1490490000, 0, 3600, "BST", Ghost(g))
        .step(1509238800, 0, 0, "GMT", Ghost(g))
        .step(1521939600, 0, 3600, "BST", Ghost(g))
        .step(1540688400, 0, 0, "GMT", Ghost(g))
        .step(1553994000, 0, 3600, "BST", Ghost(g))
        .step(1572138000, 0, 0, "GMT", Ghost(g))
        .step(1585443600, 0, 3600, "BST", Ghost(g))
        .step(1603587600, 0, 0, "GMT", Ghost(g))
        .step(1616893200, 0, 3600, "BST", Ghost(g))
        .step(1635642000, 0, 0, "GMT", Ghost(g))
        .step(1648342800, 0, 3600, "BST", Ghost(g))
        .step(1667091600, 0, 0, "GMT", Ghost(g))
        .step(1679792400, 0, 3600, "BST", Ghost(g))
        .step(1698541200, 0, 0, "GMT", Ghost(g))
        .step(1711846800, 0, 3600, "BST", Ghost(g))
        .step(1729990800, 0, 0, "GMT", Ghost(g))
        .step(1743296400, 0, 3600, "BST", Ghost(g))
        .step(1761440400, 0, 0, "GMT", Ghost(g))
        .step(1774746000, 0, 3600, "BST", Ghost(g))
        .step(1792890000, 0, 0, "GMT", Ghost(g))
        .step(1806195600, 0, 3600, "BST", Ghost(g))
        .step(1824944400, 0, 0, "GMT", Ghost(g))
        .step(1837645200, 0, 3600, "BST", Ghost(g))
        .step(1856394000, 0, 0, "GMT", Ghost(g))
        .step(1869094800, 0, 3600, "BST", Ghost(g))
        .step(1887843600, 0, 0, "GMT", Ghost(g))
        .step(1901149200, 0, 3600, "BST", Ghost(g))
        .step(1919293200, 0, 0, "GMT", Ghost(g))
        .step(1932598800, 0, 3600, "BST", Ghost(g))
        .step(1950742800, 0, 0, "GMT", Ghost(g))
        .step(1964048400, 0, 3600, "BST", Ghost(g))
        .step(1982797200, 0, 0, "GMT", Ghost(g))
        .step(1995498000, 0, 3600, "BST", Ghost(g))
        .step(2014246800, 0, 0, "GMT", Ghost(g))
        .step(2026947600, 0, 3600, "BST", Ghost(g))
        .step(2045696400, 0, 0, "GMT", Ghost(g))
        .step(2058397200, 0, 3600, "BST", Ghost(g))
        .step(2077146000, 0, 0, "GMT", Ghost(g))
        .step(2090451600, 0, 3600, "BST", Ghost(g))
        .step(2108595600, 0, 0, "GMT", Ghost(g))
        .step(2121901200, 0, 3600, "BST", Ghost(g))
        .step(2140045200, 0, 0, "GMT", Ghost(g))
        .finish(Ghost(g))
}

/// The zone `Europe/Luxembourg`.
pub fn luxembourg() -> (r: Tz)
    ensures
        r.wf(),
        r.zone_name() == "Europe/Luxembourg"@,
        r.table() == tables::europe::luxembourg(),
{
    let ghost g = tables::europe::luxembourg_rows();
    FixedTimespanSet::begin("Europe/Luxembourg", 1476, 0, "LMT", Ghost(g))
        .step(-2069713476, 3600, 0, "CET", Ghost(g))
        .step(-1692496800, 3600, 3600, "CEST", Ghost(g))
        .step(-1680483600, 3600, 0, "CET", Ghost(g))
        .step(-1662343200, 3600, 3600, "CEST", Ghost(g))
        .step(-1650157200, 3600, 0, "CET", Ghost(g))
        .step(-1632006000, 3600, 3600, "CEST", Ghost(g))
        .step(-1618700400, 3600, 0, "CET", Ghost(g))
        .step(-1612659600, 0, 0, "WET", Ghost(g))
        .step(-1604278800, 0, 3600, "WEST", Ghost(g))
        .step(-1585519200, 0, 0, "WET", Ghost(g))
        .step(-1574038800, 0, 3600, "WEST", Ghost(g))
        .step(-1552258800, 0, 0, "WET", Ghost(g))
        .step(-1539997200, 0, 3600, "WEST", Ghost(g))
        .step(-1520550000, 0, 0, "WET", Ghost(g))
        .step(-1507510800, 0, 3600, "WEST", Ghost(g))
        .step(-1490572800, 0, 0, "WET", Ghost(g))
        .step(-1473642000, 0, 3600, "WEST", Ghost(g))
        .step(-1459119600, 0, 0, "WET", Ghost(g))
        .step(-1444006800, 0, 3600, "WEST", Ghost(g))
        .step(-1427673600, 0, 0, "WET", Ghost(g))
        .step(-1411866000, 0, 3600, "WEST", Ghost(g))
        .step(-1396224000, 0, 0, "WET", Ghost(g))
        .step(-1379293200, 0, 3600, "WEST", Ghost(g))
        .step(-1364774400, 0, 0, "WET", Ghost(g))
        .step(-1348448400, 0, 3600, "WEST", Ghost(g))
        .step(-1333324800, 0, 0, "WET", Ghost(g))
        .step(-1316394000, 0, 3600, "WEST", Ghost(g))
        .step(-1301270400, 0, 0, "WET", Ghost(g))
        .step(-1284339600, 0, 3600, "WEST", Ghost(g))
        .step(-1269813600, 0, 0, "WET", Ghost(g))
        .step(-1253484000, 0, 3600, "WEST", Ghost(g))
        .step(-1238364000, 0, 0, "WET", Ghost(g))
        .step(-1221429600, 0, 3600, "WEST", Ghost(g))
        .step(-1206914400, 0, 0, "WET", Ghost(g))
        .step(-1191189600, 0, 3600, "WEST", Ghost(g))
        .step(-1175464800, 0, 0, "WET", Ghost(g))
        .step(-1160344800, 0, 3600, "WEST", Ghost(g))
        .step(-1143410400, 0, 0, "WET", Ghost(g))
        .step(-1127685600, 0, 3600, "WEST", Ghost(g))
        .step(-1111960800, 0, 0, "WET", Ghost(g))
        .step(-1096840800, 0, 3600, "WEST", Ghost(g))
        .step(-1080511200, 0, 0, "WET", Ghost(g))
        .step(-1063576800, 0, 3600, "WEST", Ghost(g))
        .step(-1049061600, 0, 0, "WET", Ghost(g))
        .step(-1033336800, 0, 3600, "WEST", Ghost(g))
        .step(-1017612000, 0, 0, "WET", Ghost(g))
        .step(-1002492000, 0, 3600, "WEST", Ghost(g))
        .step(-986162400, 0, 0, "WET", Ghost(g))
        .step(-969228000, 0, 3600, "WEST", Ghost(g))
        .step(-950479200, 0, 0, "WET", Ghost(g))
        .step(-942012000, 0, 3600, "WEST", Ghost(g))
        .step(-935186400, 0, 7200, "WEST", Ghost(g))
        .step(-857257200, 3600, 0, "WET", Ghost(g))
        .step(-844556400, 3600, 3600, "WEST", Ghost(g))
        .step(-828226800, 3600, 0, "WET", Ghost(g))
        .step(-812502000, 3600, 3600, "WEST", Ghost(g))
        .step(-797986800, 3600, 0, "CET", Ghost(g))
        .step(-781052400, 3600, 3600, "CEST", Ghost(g))
        .step(-766623600, 3600, 0, "CET", Ghost(g))
        .step(-745455600, 3600, 3600, "CEST", Ghost(g))
        .step(-733273200, 3600, 0, "CET", Ghost(g))
        .step(228877200, 3600, 3600, "CEST", Ghost(g))
        .step(243997200, 3600, 0, "CET", Ghost(g))
        .step(260326800, 3600, 3600, "CEST", Ghost(g))
        .step(276051600, 3600, 0, "CET", Ghost(g))
        .step(291776400, 3600, 3600, "CEST", Ghost(g))
        .step(307501200, 3600, 0, "CET", Ghost(g))
        .step(323830800, 3600, 3600, "CEST", Ghost(g))
        .step(338950800, 3600, 0, "CET", Ghost(g))
        .step(354675600, 3600, 3600, "CEST", Ghost(g))
        .step(370400400, 3600, 0, "CET", Ghost(g))
        .step(386125200, 3600, 3600, "CEST", Ghost(g))
        .step(401850000, 3600, 0, "CET", Ghost(g))
        .step(417574800, 3600, 3600, "CEST", Ghost(g))
        .step(433299600, 3600, 0, "CET", Ghost(g))
        .step(449024400, 3600, 3600, "CEST", Ghost(g))
        .step(465354000, 3600, 0, "CET", Ghost(g))
        .step(481078800, 3600, 3600, "CEST", Ghost(g))
        .step(496803600, 3600, 0, "CET", Ghost(g))
        .step(512528400, 3600, 3600, "CEST", Ghost(g))
        .step(528253200, 3600, 0, "CET", Ghost(g))
        .step(543978000, 3600, 3600, "CEST", Ghost(g))
        .step(559702800, 3600, 0, "CET", Ghost(g))
        .step(575427600, 3600, 3600, "CEST", Ghost(g))
        .step(591152400, 3600, 0, "CET", Ghost(g))
        .step(606877200, 3600, 3600, "CEST", Ghost(g))
        .step(622602000, 3600, 0, "CET", Ghost(g))
        .step(638326800, 3600, 3600, "CEST", Ghost(g))
        .step(654656400, 3600, 0, "CET", Ghost(g))
        .step(670381200, 3600, 3600, "CEST", Ghost(g))
        .step(686106000, 3600, 0, "CET", Ghost(g))
        .step(701830800, 3600, 3600, "CEST", Ghost(g))
        .step(717555600, 3600, 0, "CET", Ghost(g))
        .step(733280400, 3600, 3600, "CEST", Ghost(g))
        .step(749005200, 3600, 0, "CET", Ghost(g))
        .step(764730000, 3600, 3600, "CEST", Ghost(g))
        .step(780454800, 3600, 0, "CET", Ghost(g))
        .step(796179600, 3600, 3600, "CEST", Ghost(g))
        .step(811904400, 3600, 0, "CET", Ghost(g))
        .step(828234000, 3600, 3600, "CEST", Ghost(g))
        .step(846378000, 3600, 0, "CET", Ghost(g))
        .step(859683600, 3600, 3600, "CEST", Ghost(g))
        .step(877827600, 3600, 0, "CET", Ghost(g))
        .step(891133200, 3600, 3600, "CEST", Ghost(g))
        .step(909277200, 3600, 0, "CET", Ghost(g))
        .step(922582800, 3600, 3600, "CEST", Ghost(g))
        .step(941331600, 3600, 0, "CET", Ghost(g))
        .step(954032400, 3600, 3600, "CEST", Ghost(g))
        .step(972781200, 3600, 0, "CET", Ghost(g))
        .step(985482000, 3600, 3600, "CEST", Ghost(g))
        .step(1004230800, 3600, 0, "CET", Ghost(g))
        .step(1017536400, 3600, 3600, "CEST", Ghost(g))
        .step(1035680400, 3600, 0, "CET", Ghost(g))
        .step(1048986000, 3600, 3600, "CEST", Ghost(g))
        .step(1067130000, 3600, 0, "CET", Ghost(g))
        .step(1080435600, 3600, 3600, "CEST", Ghost(g))
        .step(1099184400, 3600, 0, "CET", Ghost(g))
        .step(1111885200, 3600, 3600, "CEST", Ghost(g))
        .step(1130634000, 3600, 0, "CET", Ghost(g))
        .step(1143334800, 3600, 3600, "CEST", Ghost(g))
        .step(1162083600, 3600, 0, "CET", Ghost(g))
        .step(1174784400, 3600, 3600, "CEST", Ghost(g))
        .step(1193533200, 3600, 0, "CET", Ghost(g))
        .step(1206838800, 3600, 3600, "CEST", Ghost(g))
        .step(1224982800, 3600, 0, "CET", Ghost(g))
        .step(1238288400, 3600, 3600, "CEST", Ghost(g))
        .step(1256432400, 3600, 0, "CET", Ghost(g))
        .step(1269738000, 3600, 3600, "CEST", Ghost(g))
        .step(1288486800, 3600, 0, "CET", Ghost(g))
        .step(1301187600, 3600, 3600, "CEST", Ghost(g))
        .step(1319936400, 3600, 0, "CET", Ghost(g))
        .step(1332637200, 3600, 3600, "CEST", Ghost(g))
        .step(1351386000, 3600, 0, "CET", Ghost(g))
        .step(1364691600, 3600, 3600, "CEST", Ghost(g))
        .step(1382835600, 3600, 0, "CET", Ghost(g))
        .step(1396141200, 3600, 3600, "CEST", Ghost(g))
        .step(1414285200, 3600, 0, "CET", Ghost(g))
        .step(1427590800, 3600, 3600, "CEST", Ghost(g))
        .step(1445734800, 3600, 0, "CET", Ghost(g))
        .step(1459040400, 3600, 3600, "CEST", Ghost(g))
        .step(1477789200, 3600, 0, "CET", Ghost(g))
        .step(1490490000, 3600, 3600, "CEST", Ghost(g))
        .step(1509238800, 3600, 0, "CET", Ghost(g))
        .step(1521939600, 3600, 3600, "CEST", Ghost(g))
        .step(1540688400, 3600, 0, "CET", Ghost(g))
        .step(1553994000, 3600, 3600, "CEST", Ghost(g))
        .step(1572138000, 3600, 0, "CET", Ghost(g))
        .step(1585443600, 3600, 3600, "CEST", Ghost(g))
        .step(1603587600, 3600, 0, "CET", Ghost(g))
        .step(1616893200, 3600, 3600, "CEST", Ghost(g))
        .step(1635642000, 3600, 0, "CET", Ghost(g))
        .step(1648342800, 3600, 3600, "CEST", Ghost(g))
        .step(1667091600, 3600, 0, "CET", Ghost(g))
        .step(1679792400, 3600, 3600, "CEST", Ghost(g))
        .step(1698541200, 3600, 0, "CET", Ghost(g))
        .step(1711846800, 3600, 3600, "CEST", Ghost(g))
        .step(1729990800, 3600, 0, "CET", Ghost(g))
        .step(1743296400, 3600, 3600, "CEST", Ghost(g))
        .step(1761440400, 3600, 0, "CET", Ghost(g))
        .step(1774746000, 3600, 3600, "CEST", Ghost(g))
        .step(1792890000, 3600, 0, "CET", Ghost(g))
        .step(1806195600, 3600, 3600, "CEST", Ghost(g))
        .step(1824944400, 3600, 0, "CET", Ghost(g))
        .step(1837645200, 3600, 3600, "CEST", Ghost(g))
        .step(1856394000, 3600, 0, "CET", Ghost(g))
        .step(1869094800, 3600, 3600, "CEST", Ghost(g))
        .step(1887843600, 3600, 0, "CET", Ghost(g))
        .step(1901149200, 3600, 3600, "CEST", Ghost(g))
        .step(1919293200, 3600, 0, "CET", Ghost(g))
        .step(1932598800, 3600, 3600, "CEST", Ghost(g))
        .step(1950742800, 3600, 0, "CET", Ghost(g))
        .step(1964048400, 3600, 3600, "CEST", Ghost(g))
        .step(1982797200, 3600, 0, "CET", Ghost(g))
        .step(1995498000, 3600, 3600, "CEST", Ghost(g))
        .step(2014246800, 3600, 0, "CET", Ghost(g))
        .step(2026947600, 3600, 3600, "CEST", Ghost(g))
        .step(2045696400, 3600, 0, "CET", Ghost(g))
        .step(2058397200, 3600, 3600, "CEST", Ghost(g))
        .step(2077146000, 3600, 0, "CET", Ghost(g))
        .step(2090451600, 3600, 3600, "CEST", Ghost(g))
        .step(2108595600, 3600, 0, "CET", Ghost(g))
        .step(2121901200, 3600, 3600, "CEST", Ghost(g))
        .step(2140045200, 3600, 0, "CET", Ghost(g))
        .finish(Ghost(g))
}

/// The zone `Europe/Madrid`.
pub fn madrid() -> (r: Tz)
    ensures
        r.wf(),
        r.zone_name() == "Europe/Madrid"@,
        r.table() == tables::europe::madrid(),
{
    let ghost g = tables::europe::madrid_rows();
    FixedTimespanSet::begin("Europe/Madrid", -884, 0, "LMT", Ghost(g))
        .step(-2177452800, 0, 0, "WET", Ghost(g))
        .step(-1631926800, 0, 3600, "WEST", Ghost(g))
        .step(-1616889600, 0, 0, "WET", Ghost(g))
        .step(-1601168400, 0, 3600, "WEST", Ghost(g))
        .step(-1585353600, 0, 0, "WET", Ghost(g))
        .step(-1442451600, 0, 3600, "WEST", Ghost(g))
        .step(-1427673600, 0, 0, "WET", Ghost(g))
        .step(-1379293200, 0, 3600, "WEST", Ghost(g))
        .step(-1364774400, 0, 0, "WET", Ghost(g))
        .step(-1348448400, 0, 3600, "WEST", Ghost(g))
        .step(-1333324800, 0, 0, "WET", Ghost(g))
        .step(-1316390400, 0, 3600, "WEST", Ghost(g))
        .step(-1301270400, 0, 0, "WET", Ghost(g))
        .step(-1284339600, 0, 3600, "WEST", Ghost(g))
        .step(-1269820800, 0, 0, "WET", Ghost(g))
        .step(-1026954000, 0, 3600, "WEST", Ghost(g))
        .step(-1017619200, 0, 0, "WET", Ghost(g))
        .step(-1001898000, 0, 3600, "WEST", Ghost(g))
        .step(-999482400, 0, 7200, "WEMT", Ghost(g))
        .step(-986090400, 0, 3600, "WEST", Ghost(g))
        .step(-954115200, 0, 0, "WET", Ghost(g))
        .step(-940208400, 3600, 0, "CET", Ghost(g))
        .step(-873079200, 3600, 3600, "CEST", Ghost(g))
        .step(-862621200, 3600, 0, "CET", Ghost(g))
        .step(-842839200, 3600, 3600, "CEST", Ghost(g))
        .step(-828320400, 3600, 0, "CET", Ghost(g))
        .step(-811389600, 3600, 3600, "CEST", Ghost(g))
        .step(-796870800, 3600, 0, "CET", Ghost(g))
        .step(-779940000, 3600, 3600, "CEST", Ghost(g))
        .step(-765421200, 3600, 0, "CET", Ghost(g))
        .step(-748490400, 3600, 3600, "CEST", Ghost(g))
        .step(-733971600, 3600, 0, "CET", Ghost(g))
        .step(-652327200, 3600, 3600, "CEST", Ghost(g))
        .step(-639018000, 3600, 0, "CET", Ghost(g))
        .step(135122400, 3600, 3600, "CEST", Ghost(g))
        .step(150246000, 3600, 0, "CET", Ghost(g))
        .step(166572000, 3600, 3600, "CEST", Ghost(g))
        .step(181695600, 3600, 0, "CET", Ghost(g))
        .step(196812000, 3600, 3600, "CEST", Ghost(g))
        .step(212540400, 3600, 0, "CET", Ghost(g))
        .step(228866400, 3600, 3600, "CEST", Ghost(g))
        .step(243990000, 3600, 0, "CET", Ghost(g))
        .step(260326800, 3600, 3600, "CEST", Ghost(g))
        .step(276051600, 3600, 0, "CET", Ghost(g))
        .step(291776400, 3600, 3600, "CEST", Ghost(g))
        .step(307501200, 3600, 0, "CET", Ghost(g))
        .step(323830800, 3600, 3600, "CEST", Ghost(g))
        .step(338950800, 3600, 0, "CET", Ghost(g))
        .step(354675600, 3600, 3600, "CEST", Ghost(g))
        .step(370400400, 3600, 0, "CET", Ghost(g))
        .step(386125200, 3600, 3600, "CEST", Ghost(g))
        .step(401850000, 3600, 0, "CET", Ghost(g))
        .step(417574800, 3600, 3600, "CEST", Ghost(g))
        .step(433299600, 3600, 0, "CET", Ghost(g))
        .step(449024400, 3600, 3600, "CEST", Ghost(g))
        .step(465354000, 3600, 0, "CET", Ghost(g))
        .step(481078800, 3600, 3600, "CEST", Ghost(g))
        .step(496803600, 3600, 0, "CET", Ghost(g))
        .step(512528400, 3600, 3600, "CEST", Ghost(g))
        .step(528253200, 3600, 0, "CET", Ghost(g))
        .step(543978000, 3600, 3600, "CEST", Ghost(g))
        .step(559702800, 3600, 0, "CET", Ghost(g))
        .step(575427600, 3600, 3600, "CEST", Ghost(g))
        .step(591152400, 3600, 0, "CET", Ghost(g))
        .step(606877200, 3600, 3600, "CEST", Ghost(g))
        .step(622602000, 3600, 0, "CET", Ghost(g))
        .step(638326800, 3600, 3600, "CEST", Ghost(g))
        .step(654656400, 3600, 0, "CET", Ghost(g))
        .step(670381200, 3600, 3600, "CEST", Ghost(g))
        .step(686106000, 3600, 0, "CET", Ghost(g))
        .step(701830800, 3600, 3600, "CEST", Ghost(g))
        .step(717555600, 3600, 0, "CET", Ghost(g))
        .step(733280400, 3600, 3600, "CEST", Ghost(g))
        .step(749005200, 3600, 0, "CET", Ghost(g))
        .step(764730000, 3600, 3600, "CEST", Ghost(g))
        .step(780454800, 3600, 0, "CET", Ghost(g))
        .step(796179600, 3600, 3600, "CEST", Ghost(g))
        .step(811904400, 3600, 0, "CET", Ghost(g))
        .step(828234000, 3600, 3600, "CEST", Ghost(g))
        .step(846378000, 3600, 0, "CET", Ghost(g))
        .step(859683600, 3600, 3600, "CEST", Ghost(g))
        .step(877827600, 3600, 0, "CET", Ghost(g))
        .step(891133200, 3600, 3600, "CEST", Ghost(g))
        .step(909277200, 3600, 0, "CET", Ghost(g))
        .step(922582800, 3600, 3600, "CEST", Ghost(g))
        .step(941331600, 3600, 0, "CET", Ghost(g))
        .step(954032400, 3600, 3600, "CEST", Ghost(g))
        .step(972781200, 3600, 0, "CET", Ghost(g))
        .step(985482000, 3600, 3600, "CEST", Ghost(g))
        .step(1004230800, 3600, 0, "CET", Ghost(g))
        .step(1017536400, 3600, 3600, "CEST", Ghost(g))
        .step(1035680400, 3600, 0, "CET", Ghost(g))
        .step(1048986000, 3600, 3600, "CEST", Ghost(g))
        .step(1067130000, 3600, 0, "CET", Ghost(g))
        .step(1080435600, 3600, 3600, "CEST", Ghost(g))
        .step(1099184400, 3600, 0, "CET", Ghost(g))
        .step(1111885200, 3600, 3600, "CEST", Ghost(g))
        .step(1130634000, 3600, 0, "CET", Ghost(g))
        .step(1143334800, 3600, 3600, "CEST", Ghost(g))
        .step(1162083600, 3600, 0, "CET", Ghost(g))
        .step(1174784400, 3600, 3600, "CEST", Ghost(g))
        .step(1193533200, 3600, 0, "CET", Ghost(g))
        .step(1206838800, 3600, 3600, "CEST", Ghost(g))
        .step(1224982800, 3600, 0, "CET", Ghost(g))
        .step(1238288400, 3600, 3600, "CEST", Ghost(g))
        .step(1256432400, 3600, 0, "CET", Ghost(g))
        .step(1269738000, 3600, 3600, "CEST", Ghost(g))
        .step(1288486800, 3600, 0, "CET", Ghost(g))
        .step(1301187600, 3600, 3600, "CEST", Ghost(g))
        .step(1319936400, 3600, 0, "CET", Ghost(g))
        .step(1332637200, 3600, 3600, "CEST", Ghost(g))
        .step(1351386000, 3600, 0, "CET", Ghost(g))
        .step(1364691600, 3600, 3600, "CEST", Ghost(g))
        .step(1382835600, 3600, 0, "CET", Ghost(g))
        .step(1396141200, 3600, 3600, "CEST", Ghost(g))
        .step(1414285200, 3600, 0, "CET", Ghost(g))
        .step(1427590800, 3600, 3600, "CEST", Ghost(g))
        .step(1445734800, 3600, 0, "CET", Ghost(g))
        .step(1459040400, 3600, 3600, "CEST", Ghost(g))
        .step(1477789200, 3600, 0, "CET", Ghost(g))
        .step(1490490000, 3600, 3600, "CEST", Ghost(g))
        .step(1509238800, 3600, 0, "CET", Ghost(g))
        .step(1521939600, 3600, 3600, "CEST", Ghost(g))
        .step(1540688400, 3600, 0, "CET", Ghost(g))
        .step(1553994000, 3600, 3600, "CEST", Ghost(g))
        .step(1572138000, 3600, 0, "CET", Ghost(g))
        .step(1585443600, 3600, 3600, "CEST", Ghost(g))
        .step(1603587600, 3600, 0, "CET", Ghost(g))
        .step(1616893200, 3600, 3600, "CEST", Ghost(g))
        .step(1635642000, 3600, 0, "CET", Ghost(g))
        .step(1648342800, 3600, 3600, "CEST", Ghost(g))
        .step(1667091600, 3600, 0, "CET", Ghost(g))
        .step(1679792400, 3600, 3600, "CEST", Ghost(g))
        .step(1698541200, 3600, 0, "CET", Ghost(g))
        .step(1711846800, 3600, 3600, "CEST", Ghost(g))
        .step(1729990800, 3600, 0, "CET", Ghost(g))
        .step(1743296400, 3600, 3600, "CEST", Ghost(g))
        .step(1761440400, 3600, 0, "CET", Ghost(g))
        .step(1774746000, 3600, 3600, "CEST", Ghost(g))
        .step(1792890000, 3600, 0, "CET", Ghost(g))
        .step(1806195600, 3600, 3600, "CEST", Ghost(g))
        .step(1824944400, 3600, 0, "CET", Ghost(g))
        .step(1837645200, 3600, 3600, "CEST", Ghost(g))
        .step(1856394000, 3600, 0, "CET", Ghost(g))
        .step(1869094800, 3600, 3600, "CEST", Ghost(g))
        .step(1887843600, 3600, 0, "CET", Ghost(g))
        .step(1901149200, 3600, 3600, "CEST", Ghost(g))
        .step(1919293200, 3600, 0, "CET", Ghost(g))
        .step(1932598800, 3600, 3600, "CEST", Ghost(g))
        .step(1950742800, 3600, 0, "CET", Ghost(g))
        .step(1964048400, 3600, 3600, "CEST", Ghost(g))
        .step(1982797200, 3600, 0, "CET", Ghost(g))
        .step(1995498000, 3600, 3600, "CEST", Ghost(g))
        .step(2014246800, 3600, 0, "CET", Ghost(g))
        .step(2026947600, 3600, 3600, "CEST", Ghost(g))
        .step(2045696400, 3600, 0, "CET", Ghost(g))
        .step(2058397200, 3600, 3600, "CEST", Ghost(g))
        .step(2077146000, 3600, 0, "CET", Ghost(g))
        .step(2090451600, 3600, 3600, "CEST", Ghost(g))
        .step(2108595600, 3600, 0, "CET", Ghost(g))
        .step(2121901200, 3600, 3600, "CEST", Ghost(g))
        .step(2140045200, 3600, 0, "CET", Ghost(g))
        .finish(Ghost(g))
}

/// The zone `Europe/Malta`.
pub fn malta() -> (r: Tz)
    ensures
        r.wf(),
        r.zone_name() == "Europe/Malta"@,
        r.table() == tables::europe::malta(),
{
    let ghost g = tables::europe::malta_rows();
    FixedTimespanSet::begin("Europe/Malta", 3484, 0, "LMT", Ghost(g))
        .step(-2403478684, 3600, 0, "CET", Ghost(g))
        .step(-1690765200, 3600, 3600, "CEST", Ghost(g))
        .step(-1680487200, 3600, 0, "CET", Ghost(g))
        .step(-1664758800, 3600, 3600, "CEST", Ghost(g))
        .step(-1648951200, 3600, 0, "CET", Ghost(g))
        .step(-1635123600, 3600, 3600, "CEST", Ghost(g))
        .step(-1616896800, 3600, 0, "CET", Ghost(g))
        .step(-1604278800, 3600, 3600, "CEST", Ghost(g))
        .step(-1585533600, 3600, 0, "CET", Ghost(g))
        .step(-1571014800, 3600, 3600, "CEST", Ghost(g))
        .step(-1555293600, 3600, 0, "CET", Ghost(g))
        .step(-932432400, 3600, 3600, "CEST", Ghost(g))
        .step(-857257200, 3600, 0, "CET", Ghost(g))
        .step(-844556400, 3600, 3600, "CEST", Ghost(g))
        .step(-828226800, 3600, 0, "CET", Ghost(g))
        .step(-812588400, 3600, 3600, "CEST", Ghost(g))
        .step(-798073200, 3600, 0, "CET", Ghost(g))
        .step(-781052400, 3600, 3600, "CEST", Ghost(g))
        .step(-766717200, 3600, 0, "CET", Ghost(g))
        .step(-750898800, 3600, 3600, "CEST", Ghost(g))
        .step(-733359600, 3600, 0, "CET", Ghost(g))
        .step(-719456400, 3600, 3600, "CEST", Ghost(g))
        .step(-701917200, 3600, 0, "CET", Ghost(g))
        .step(-689209200, 3600, 3600, "CEST", Ghost(g))
        .step(-670460400, 3600, 0, "CET", Ghost(g))
        .step(-114051600, 3600, 3600, "CEST", Ghost(g))
        .step(-103168800, 3600, 0, "CET", Ghost(g))
        .step(-81997200, 3600, 3600, "CEST", Ghost(g))
        .step(-71715600, 3600, 0, "CET", Ghost(g))
        .step(-50547600, 3600, 3600, "CEST", Ghost(g))
        .step(-40266000, 3600, 0, "CET", Ghost(g))
        .step(-18493200, 3600, 3600, "CEST", Ghost(g))
        .step(-8211600, 3600, 0, "CET", Ghost(g))
        .step(12956400, 3600, 3600, "CEST", Ghost(g))
        .step(23238000, 3600, 0, "CET", Ghost(g))
        .step(43801200, 3600, 3600, "CEST", Ghost(g))
        .step(54687600, 3600, 0, "CET", Ghost(g))
        .step(75855600, 3600, 3600, "CEST", Ghost(g))
        .step(86742000, 3600, 0, "CET", Ghost(g))
        .step(102380400, 3600, 3600, "CEST", Ghost(g))
        .step(118105200, 3600, 0, "CET", Ghost(g))
        .step(135730800, 3600, 3600, "CEST", Ghost(g))
        .step(148518000, 3600, 0, "CET", Ghost(g))
        .step(167187600, 3600, 3600, "CEST", Ghost(g))
        .step(180489600, 3600, 0, "CET", Ghost(g))
        .step(198637200, 3600, 3600, "CEST", Ghost(g))
        .step(211939200, 3600, 0, "CET", Ghost(g))
        .step(230086800, 3600, 3600, "CEST", Ghost(g))
        .step(243388800, 3600, 0, "CET", Ghost(g))
        .step(261536400, 3600, 3600, "CEST", Ghost(g))
        .step(274838400, 3600, 0, "CET", Ghost(g))
        .step(292986000, 3600, 3600, "CEST", Ghost(g))
        .step(306288000, 3600, 0, "CET", Ghost(g))
        .step(323312400, 3600, 3600, "CEST", Ghost(g))
        .step(338342400, 3600, 0, "CET", Ghost(g))
        .step(354675600, 3600, 3600, "CEST", Ghost(g))
        .step(370400400, 3600, 0, "CET", Ghost(g))
        .step(386125200, 3600, 3600, "CEST", Ghost(g))
        .step(401850000, 3600, 0, "CET", Ghost(g))
        .step(417574800, 3600, 3600, "CEST", Ghost(g))
        .step(433299600, 3600, 0, "CET", Ghost(g))
        .step(449024400, 3600, 3600, "CEST", Ghost(g))
        .step(465354000, 3600, 0, "CET", Ghost(g))
        .step(481078800, 3600, 3600, "CEST", Ghost(g))
        .step(496803600, 3600, 0, "CET", Ghost(g))
        .step(512528400, 3600, 3600, "CEST", Ghost(g))
        .step(528253200, 3600, 0, "CET", Ghost(g))
        .step(543978000, 3600, 3600, "CEST", Ghost(g))
        .step(559702800, 3600, 0, "CET", Ghost(g))
        .step(575427600, 3600, 3600, "CEST", Ghost(g))
        .step(591152400, 3600, 0, "CET", Ghost(g))
        .step(606877200, 3600, 3600, "CEST", Ghost(g))
        .step(622602000, 3600, 0, "CET", Ghost(g))
        .step(638326800, 3600, 3600, "CEST", Ghost(g))
        .step(654656400, 3600, 0, "CET", Ghost(g))
        .step(670381200, 3600, 3600, "CEST", Ghost(g))
        .step(686106000, 3600, 0, "CET", Ghost(g))
        .step(701830800, 3600, 3600, "CEST", Ghost(g))
        .step(717555600, 3600, 0, "CET", Ghost(g))
        .step(733280400, 3600, 3600, "CEST", Ghost(g))
        .step(749005200, 3600, 0, "CET", Ghost(g))
        .step(764730000, 3600, 3600, "CEST", Ghost(g))
        .step(780454800, 3600, 0, "CET", Ghost(g))
        .step(796179600, 3600, 3600, "CEST", Ghost(g))
        .step(811904400, 3600, 0, "CET", Ghost(g))
        .step(828234000, 3600, 3600, "CEST", Ghost(g))
        .step(846378000, 3600, 0, "CET", Ghost(g))
        .step(859683600, 3600, 3600, "CEST", Ghost(g))
        .step(877827600, 3600, 0, "CET", Ghost(g))
        .step(891133200, 3600, 3600, "CEST", Ghost(g))
        .step(909277200, 3600, 0, "CET", Ghost(g))
        .step(922582800, 3600, 3600, "CEST", Ghost(g))
        .step(941331600, 3600, 0, "CET", Ghost(g))
        .step(954032400, 3600, 3600, "CEST", Ghost(g))
        .step(972781200, 3600, 0, "CET", Ghost(g))
        .step(985482000, 3600, 3600, "CEST", Ghost(g))
        .step(1004230800, 3600, 0, "CET", Ghost(g))
        .step(1017536400, 3600, 3600, "CEST", Ghost(g))
        .step(1035680400, 3600, 0, "CET", Ghost(g))
        .step(1048986000, 3600, 3600, "CEST", Ghost(g))
        .step(1067130000, 3600, 0, "CET", Ghost(g))
        .step(1080435600, 3600, 3600, "CEST", Ghost(g))
        .step(1099184400, 3600, 0, "CET", Ghost(g))
        .step(1111885200, 3600, 3600, "CEST", Ghost(g))
        .step(1130634000, 3600, 0, "CET", Ghost(g))
        .step(1143334800, 3600, 3600, "CEST", Ghost(g))
        .step(1162083600, 3600, 0, "CET", Ghost(g))
        .step(1174784400, 3600, 3600, "CEST", Ghost(g))
        .step(1193533200, 3600, 0, "CET", Ghost(g))
        .step(1206838800, 3600, 3600, "CEST", Ghost(g))
        .step(1224982800, 3600, 0, "CET", Ghost(g))
        .step(1238288400, 3600, 3600, "CEST", Ghost(g))
        .step(1256432400, 3600, 0, "CET", Ghost(g))
        .step(1269738000, 3600, 3600, "CEST", Ghost(g))
        .step(1288486800, 3600, 0, "CET", Ghost(g))
        .step(1301187600, 3600, 3600, "CEST", Ghost(g))
        .step(1319936400, 3600, 0, "CET", Ghost(g))
        .step(1332637200, 3600, 3600, "CEST", Ghost(g))
        .step(1351386000, 3600, 0, "CET", Ghost(g))
        .step(1364691600, 3600, 3600, "CEST", Ghost(g))
        .step(1382835600, 3600, 0, "CET", Ghost(g))
        .step(1396141200, 3600, 3600, "CEST", Ghost(g))
        .step(1414285200, 3600, 0, "CET", Ghost(g))
        .step(1427590800, 3600, 3600, "CEST", Ghost(g))
        .step(1445734800, 3600, 0, "CET", Ghost(g))
        .step(1459040400, 3600, 3600, "CEST", Ghost(g))
        .step(1477789200, 3600, 0, "CET", Ghost(g))
        .step(1490490000, 3600, 3600, "CEST", Ghost(g))
        .step(1509238800, 3600, 0, "CET", Ghost(g))
        .step(1521939600, 3600, 3600, "CEST", Ghost(g))
        .step(1540688400, 3600, 0, "CET", Ghost(g))
        .step(1553994000, 3600, 3600, "CEST", Ghost(g))
        .step(1572138000, 3600, 0, "CET", Ghost(g))
        .step(1585443600, 3600, 3600, "CEST", Ghost(g))
        .step(1603587600, 3600, 0, "CET", Ghost(g))
        .step(1616893200, 3600, 3600, "CEST", Ghost(g))
        .step(1635642000, 3600, 0, "CET", Ghost(g))
        .step(1648342800, 3600, 3600, "CEST", Ghost(g))
        .step(1667091600, 3600, 0, "CET", Ghost(g))
        .step(1679792400, 3600, 3600, "CEST", Ghost(g))
        .step(1698541200, 3600, 0, "CET", Ghost(g))
        .step(1711846800, 3600, 3600, "CEST", Ghost(g))
        .step(1729990800, 3600, 0, "CET", Ghost(g))
        .step(1743296400, 3600, 3600, "CEST", Ghost(g))
        .step(1761440400, 3600, 0, "CET", Ghost(g))
        .step(1774746000, 3600, 3600, "CEST", Ghost(g))
        .step(1792890000, 3600, 0, "CET", Ghost(g))
        .step(1806195600, 3600, 3600, "CEST", Ghost(g))
        .step(1824944400, 3600, 0, "CET", Ghost(g))
        .step(1837645200, 3600, 3600, "CEST", Ghost(g))
        .step(1856394000, 3600, 0, "CET", Ghost(g))
        .step(1869094800, 3600, 3600, "CEST", Ghost(g))
        .step(1887843600, 3600, 0, "CET", Ghost(g))
        .step(1901149200, 3600, 3600, "CEST", Ghost(g))
        .step(1919293200, 3600, 0, "CET", Ghost(g))
        .step(1932598800, 3600, 3600, "CEST", Ghost(g))
        .step(1950742800, 3600, 0, "CET", Ghost(g))
        .step(1964048400, 3600, 3600, "CEST", Ghost(g))
        .step(1982797200, 3600, 0, "CET", Ghost(g))
        .step(1995498000, 3600, 3600, "CEST", Ghost(g))
        .step(2014246800, 3600, 0, "CET", Ghost(g))
        .step(2026947600, 3600, 3600, "CEST", Ghost(g))
        .step(2045696400, 3600, 0, "CET", Ghost(g))
        .step(2058397200, 3600, 3600, "CEST", Ghost(g))
        .step(2077146000, 3600, 0, "CET", Ghost(g))
        .step(2090451600, 3600, 3600, "CEST", Ghost(g))
        .step(2108595600, 3600, 0, "CET", Ghost(g))
        .step(2121901200, 3600, 3600, "CEST", Ghost(g))
        .step(2140045200, 3600, 0, "CET", Ghost(g))
        .finish(Ghost(g))
}

/// The zone `Europe/Mariehamn`.
pub fn mariehamn() -> (r: Tz)
    ensures
        r.wf(),
        r.zone_name() == "Europe/Mariehamn"@,
        r.table() == tables::europe::mariehamn(),
{
    let ghost g = tables::europe::mariehamn_rows();
    FixedTimespanSet::begin("Europe/Mariehamn", 5989, 0, "LMT", Ghost(g))
        .step(-2890258789, 5989, 0, "HMT", Ghost(g))
        .step(-1535938789, 7200, 0, "EET", Ghost(g))
        .step(-875671200, 7200, 3600, "EEST", Ghost(g))
        .step(-859773600, 7200, 0, "EET", Ghost(g))
        .step(354672000, 7200, 3600, "EEST", Ghost(g))
        .step(370396800, 7200, 0, "EET", Ghost(g))
        .step(386121600, 7200, 3600, "EEST", Ghost(g))
        .step(401846400, 7200, 0, "EET", Ghost(g))
        .step(417574800, 7200, 3600, "EEST", Ghost(g))
        .step(433299600, 7200, 0, "EET", Ghost(g))
        .step(449024400, 7200, 3600, "EEST", Ghost(g))
        .step(465354000, 7200, 0, "EET", Ghost(g))
        .step(481078800, 7200, 3600, "EEST", Ghost(g))
        .step(496803600, 7200, 0, "EET", Ghost(g))
        .step(512528400, 7200, 3600, "EEST", Ghost(g))
        .step(528253200, 7200, 0, "EET", Ghost(g))
        .step(543978000, 7200, 3600, "EEST", Ghost(g))
        .step(559702800, 7200, 0, "EET", Ghost(g))
        .step(575427600, 7200, 3600, "EEST", Ghost(g))
        .step(591152400, 7200, 0, "EET", Ghost(g))
        .step(606877200, 7200, 3600, "EEST", Ghost(g))
        .step(622602000, 7200, 0, "EET", Ghost(g))
        .step(638326800, 7200, 3600, "EEST", Ghost(g))
        .step(654656400, 7200, 0, "EET", Ghost(g))
        .step(670381200, 7200, 3600, "EEST", Ghost(g))
        .step(686106000, 7200, 0, "EET", Ghost(g))
        .step(701830800, 7200, 3600, "EEST", Ghost(g))
        .step(717555600, 7200, 0, "EET", Ghost(g))
        .step(733280400, 7200, 3600, "EEST", Ghost(g))
        .step(749005200, 7200, 0, "EET", Ghost(g))
        .step(764730000, 7200, 3600, "EEST", Ghost(g))
        .step(780454800, 7200, 0, "EET", Ghost(g))
        .step(796179600, 7200, 3600, "EEST", Ghost(g))
        .step(811904400, 7200, 0, "EET", Ghost(g))
        .step(828234000, 7200, 3600, "EEST", Ghost(g))
        .step(846378000, 7200, 0, "EET", Ghost(g))
        .step(859683600, 7200, 3600, "EEST", Ghost(g))
        .step(877827600, 7200, 0, "EET", Ghost(g))
        .step(891133200, 7200, 3600, "EEST", Ghost(g))
        .step(909277200, 7200, 0, "EET", Ghost(g))
        .step(922582800, 7200, 3600, "EEST", Ghost(g))
        .step(941331600, 7200, 0, "EET", Ghost(g))
        .step(954032400, 7200, 3600, "EEST", Ghost(g))
        .step(972781200, 7200, 0, "EET", Ghost(g))
        .step(985482000, 7200, 3600, "EEST", Ghost(g))
        .step(1004230800, 7200, 0, "EET", Ghost(g))
        .step(1017536400, 7200, 3600, "EEST", Ghost(g))
        .step(1035680400, 7200, 0, "EET", Ghost(g))
        .step(1048986000, 7200, 3600, "EEST", Ghost(g))
        .step(1067130000, 7200, 0, "EET", Ghost(g))
        .step(1080435600, 7200, 3600, "EEST", Ghost(g))
        .step(1099184400, 7200, 0, "EET", Ghost(g))
        .step(1111885200, 7200, 3600, "EEST", Ghost(g))
        .step(1130634000, 7200, 0, "EET", Ghost(g))
        .step(1143334800, 7200, 3600, "EEST", Ghost(g))
        .step(1162083600, 7200, 0, "EET", Ghost(g))
        .step(1174784400, 7200, 3600, "EEST", Ghost(g))
        .step(1193533200, 7200, 0, "EET", Ghost(g))
        .step(1206838800, 7200, 3600, "EEST", Ghost(g))
        .step(1224982800, 7200, 0, "EET", Ghost(g))
        .step(1238288400, 7200, 3600, "EEST", Ghost(g))
        .step(1256432400, 7200, 0, "EET", Ghost(g))
        .step(1269738000, 7200, 3600, "EEST", Ghost(g))
        .step(1288486800, 7200, 0, "EET", Ghost(g))
        .step(1301187600, 7200, 3600, "EEST", Ghost(g))
        .step(1319936400, 7200, 0, "EET", Ghost(g))
        .step(1332637200, 7200, 3600, "EEST", Ghost(g))
        .step(1351386000, 7200, 0, "EET", Ghost(g))
        .step(1364691600, 7200, 3600, "EEST", Ghost(g))
        .step(1382835600, 7200, 0, "EET", Ghost(g))
        .step(1396141200, 7200, 3600, "EEST", Ghost(g))
        .step(1414285200, 7200, 0, "EET", Ghost(g))
        .step(1427590800, 7200, 3600, "EEST", Ghost(g))
        .step(1445734800, 7200, 0, "EET", Ghost(g))
        .step(1459040400, 7200, 3600, "EEST", Ghost(g))
        .step(1477789200, 7200, 0, "EET", Ghost(g))
        .step(1490490000, 7200, 3600, "EEST", Ghost(g))
        .step(1509238800, 7200, 0, "EET", Ghost(g))
        .step(1521939600, 7200, 3600, "EEST", Ghost(g))
        .step(1540688400, 7200, 0, "EET", Ghost(g))
        .step(1553994000, 7200, 3600, "EEST", Ghost(g))
        .step(1572138000, 7200, 0, "EET", Ghost(g))
        .step(1585443600, 7200, 3600, "EEST", Ghost(g))
        .step(1603587600, 7200, 0, "EET", Ghost(g))
        .step(1616893200, 7200, 3600, "EEST", Ghost(g))
        .step(1635642000, 7200, 0, "EET", Ghost(g))
        .step(1648342800, 7200, 3600, "EEST", Ghost(g))
        .step(1667091600, 7200, 0, "EET", Ghost(g))
        .step(1679792400, 7200, 3600, "EEST", Ghost(g))
        .step(1698541200, 7200, 0, "EET", Ghost(g))
        .step(1711846800, 7200, 3600, "EEST", Ghost(g))
        .step(1729990800, 7200, 0, "EET", Ghost(g))
        .step(1743296400, 7200, 3600, "EEST", Ghost(g))
        .step(1761440400, 7200, 0, "EET", Ghost(g))
        .step(1774746000, 7200, 3600, "EEST", Ghost(g))
        .step(1792890000, 7200, 0, "EET", Ghost(g))
        .step(1806195600, 7200, 3600, "EEST", Ghost(g))
        .step(1824944400, 7200, 0, "EET", Ghost(g))
        .step(1837645200, 7200, 3600, "EEST", Ghost(g))
        .step(1856394000, 7200, 0, "EET", Ghost(g))
        .step(1869094800, 7200, 3600, "EEST", Ghost(g))
        .step(1887843600, 7200, 0, "EET", Ghost(g))
        .step(1901149200, 7200, 3600, "EEST", Ghost(g))
        .step(1919293200, 7200, 0, "EET", Ghost(g))
        .step(1932598800, 7200, 3600, "EEST", Ghost(g))
        .step(1950742800, 7200, 0, "EET", Ghost(g))
        .step(1964048400, 7200, 3600, "EEST", Ghost(g))
        .step(1982797200, 7200, 0, "EET", Ghost(g))
        .step(1995498000, 7200, 3600, "EEST", Ghost(g))
        .step(2014246800, 7200, 0, "EET", Ghost(g))
        .step(2026947600, 7200, 3600, "EEST", Ghost(g))
        .step(2045696400, 7200, 0, "EET", Ghost(g))
        .step(2058397200, 7200, 3600, "EEST", Ghost(g))
        .step(2077146000, 7200, 0, "EET", Ghost(g))
        .step(2090451600, 7200, 3600, "EEST", Ghost(g))
        .step(2108595600, 7200, 0, "EET", Ghost(g))
        .step(2121901200, 7200, 3600, "EEST", Ghost(g))
        .step(2140045200, 7200, 0, "EET", Ghost(g))
        .finish(Ghost(g))
}

/// The zone `Europe/Minsk`.
pub fn minsk() -> (r: Tz)
    ensures
        r.wf(),
        r.zone_name() == "Europe/Minsk"@,
        r.table() == tables::europe::minsk(),
{
    let ghost g = tables::europe::minsk_rows();
    FixedTimespanSet::begin("Europe/Minsk", 6616, 0, "LMT", Ghost(g))
        .step(-2840147416, 6600, 0, "MMT", Ghost(g))
        .step(-1441158600, 7200, 0, "EET", Ghost(g))
        .step(-1247536800, 10800, 0, "MSK", Ghost(g))
        .step(-899780400, 3600, 3600, "CEST", Ghost(g))
        .step(-857257200, 3600, 0, "CET", Ghost(g))
        .step(-844556400, 3600, 3600, "CEST", Ghost(g))
        .step(-828226800, 3600, 0, "CET", Ghost(g))
        .step(-812502000, 3600, 3600, "CEST", Ghost(g))
        .step(-804650400, 10800, 0, "MSK", Ghost(g))
        .step(354920400, 10800, 3600, "MSD", Ghost(g))
        .step(370728000, 10800, 0, "MSK", Ghost(g))
        .step(386456400, 10800, 3600, "MSD", Ghost(g))
        .step(402264000, 10800, 0, "MSK", Ghost(g))
        .step(417992400, 10800, 3600, "MSD", Ghost(g))
        .step(433800000, 10800, 0, "MSK", Ghost(g))
        .step(449614800, 10800, 3600, "MSD", Ghost(g))
        .step(465346800, 10800, 0, "MSK", Ghost(g))
        .step(481071600, 10800, 3600, "MSD", Ghost(g))
        .step(496796400, 10800, 0, "MSK", Ghost(g))
        .step(512521200, 10800, 3600, "MSD", Ghost(g))
        .step(528246000, 10800, 0, "MSK", Ghost(g))
        .step(543970800, 10800, 3600, "MSD", Ghost(g))
        .step(559695600, 10800, 0, "MSK", Ghost(g))
        .step(575420400, 10800, 3600, "MSD", Ghost(g))
        .step(591145200, 10800, 0, "MSK", Ghost(g))
        .step(606870000, 10800, 3600, "MSD", Ghost(g))
        .step(622594800, 10800, 0, "MSK", Ghost(g))
        .step(670374000, 7200, 3600, "EEST", Ghost(g))
        .step(686102400, 7200, 0, "EET", Ghost(g))
        .step(701827200, 7200, 3600, "EEST", Ghost(g))
        .step(717552000, 7200, 0, "EET", Ghost(g))
        .step(733276800, 7200, 3600, "EEST", Ghost(g))
        .step(749001600, 7200, 0, "EET", Ghost(g))
        .step(764726400, 7200, 3600, "EEST", Ghost(g))
        .step(780451200, 7200, 0, "EET", Ghost(g))
        .step(796176000, 7200, 3600, "EEST", Ghost(g))
        .step(811900800, 7200, 0, "EET", Ghost(g))
        .step(828230400, 7200, 3600, "EEST", Ghost(g))
        .step(846374400, 7200, 0, "EET", Ghost(g))
        .step(859680000, 7200, 3600, "EEST", Ghost(g))
        .step(877824000, 7200, 0, "EET", Ghost(g))
        .step(891129600, 7200, 3600, "EEST", Ghost(g))
        .step(909273600, 7200, 0, "EET", Ghost(g))
        .step(922579200, 7200, 3600, "EEST", Ghost(g))
        .step(941328000, 7200, 0, "EET", Ghost(g))
        .step(954028800, 7200, 3600, "EEST", Ghost(g))
        .step(972777600, 7200, 0, "EET", Ghost(g))
        .step(985478400, 7200, 3600, "EEST", Ghost(g))
        .step(1004227200, 7200, 0, "EET", Ghost(g))
        .step(1017532800, 7200, 3600, "EEST", Ghost(g))
        .step(1035676800, 7200, 0, "EET", Ghost(g))
        .step(1048982400, 7200, 3600, "EEST", Ghost(g))
        .step(1067126400, 7200, 0, "EET", Ghost(g))
        .step(1080432000, 7200, 3600, "EEST", Ghost(g))
        .step(1099180800, 7200, 0, "EET", Ghost(g))
        .step(1111881600, 7200, 3600, "EEST", Ghost(g))
        .step(1130630400, 7200, 0, "EET", Ghost(g))
        .step(1143331200, 7200, 3600, "EEST", Ghost(g))
        .step(1162080000, 7200, 0, "EET", Ghost(g))
        .step(1174780800, 7200, 3600, "EEST", Ghost(g))
        .step(1193529600, 7200, 0, "EET", Ghost(g))
        .step(1206835200, 7200, 3600, "EEST", Ghost(g))
        .step(1224979200, 7200, 0, "EET", Ghost(g))
        .step(1238284800, 7200, 3600, "EEST", Ghost(g))
        .step(1256428800, 7200, 0, "EET", Ghost(g))
        .step(1269734400, 7200, 3600, "EEST", Ghost(g))
        .step(1288483200, 7200, 0, "EET", Ghost(g))
        .step(1301184000, 10800, 0, "+03", Ghost(g))
        .step(2147483647, 10800, 0, "+03", Ghost(g))
        .finish(Ghost(g))
}

/// The zone `Europe/Monaco`.
pub fn monaco() -> (r: Tz)
    ensures
        r.wf(),
        r.zone_name() == "Europe/Monaco"@,
        r.table() == tables::europe::monaco(),
{
    let ghost g = tables::europe::monaco_rows();
    FixedTimespanSet::begin("Europe/Monaco", 1772, 0, "LMT", Ghost(g))
        .step(-2448318572, 561, 0, "PMT", Ghost(g))
        .step(-1854403761, 0, 0, "WET", Ghost(g))
        .step(-1689814800, 0, 3600, "WEST", Ghost(g))
        .step(-1680397200, 0, 0, "WET", Ghost(g))
        .step(-1665363600, 0, 3600, "WEST", Ghost(g))
        .step(-1648342800, 0, 0, "WET", Ghost(g))
        .step(-1635123600, 0, 3600, "WEST", Ghost(g))
        .step(-1616893200, 0, 0, "WET", Ghost(g))
        .step(-1604278800, 0, 3600, "WEST", Ghost(g))
        .step(-1585443600, 0, 0, "WET", Ghost(g))
        .step(-1574038800, 0, 3600, "WEST", Ghost(g))
        .step(-1552266000, 0, 0, "WET", Ghost(g))
        .step(-1539997200, 0, 3600, "WEST", Ghost(g))
        .step(-1520557200, 0, 0, "WET", Ghost(g))
        .step(-1507510800, 0, 3600, "WEST", Ghost(g))
        .step(-1490576400, 0, 0, "WET", Ghost(g))
        .step(-1470618000, 0, 3600, "WEST", Ghost(g))
        .step(-1459126800, 0, 0, "WET", Ghost(g))
        .step(-1444006800, 0, 3600, "WEST", Ghost(g))
        .step(-1427677200, 0, 0, "WET", Ghost(g))
        .step(-1411952400, 0, 3600, "WEST", Ghost(g))
        .step(-1396227600, 0, 0, "WET", Ghost(g))
        .step(-1379293200, 0, 3600, "WEST", Ghost(g))
        .step(-1364778000, 0, 0, "WET", Ghost(g))
        .step(-1348448400, 0, 3600, "WEST", Ghost(g))
        .step(-1333328400, 0, 0, "WET", Ghost(g))
        .step(-1316394000, 0, 3600, "WEST", Ghost(g))
        .step(-1301274000, 0, 0, "WET", Ghost(g))
        .step(-1284339600, 0, 3600, "WEST", Ghost(g))
        .step(-1269824400, 0, 0, "WET", Ghost(g))
        .step(-1253494800, 0, 3600, "WEST", Ghost(g))
        .step(-1238374800, 0, 0, "WET", Ghost(g))
        .step(-1221440400, 0, 3600, "WEST", Ghost(g))
        .step(-1206925200, 0, 0, "WET", Ghost(g))
        .step(-1191200400, 0, 3600, "WEST", Ghost(g))
        .step(-1175475600, 0, 0, "WET", Ghost(g))
        .step(-1160355600, 0, 3600, "WEST", Ghost(g))
        .step(-1143421200, 0, 0, "WET", Ghost(g))
        .step(-1127696400, 0, 3600, "WEST", Ghost(g))
        .step(-1111971600, 0, 0, "WET", Ghost(g))
        .step(-1096851600, 0, 3600, "WEST", Ghost(g))
        .step(-1080522000, 0, 0, "WET", Ghost(g))
        .step(-1063587600, 0, 3600, "WEST", Ghost(g))
        .step(-1049072400, 0, 0, "WET", Ghost(g))
        .step(-1033347600, 0, 3600, "WEST", Ghost(g))
        .step(-1017622800, 0, 0, "WET", Ghost(g))
        .step(-1002502800, 0, 3600, "WEST", Ghost(g))
        .step(-986173200, 0, 0, "WET", Ghost(g))
        .step(-969238800, 0, 3600, "WEST", Ghost(g))
        .step(-950490000, 0, 0, "WET", Ghost(g))
        .step(-942012000, 0, 3600, "WEST", Ghost(g))
        .step(-904438800, 0, 7200, "WEMT", Ghost(g))
        .step(-891136800, 0, 3600, "WEST", Ghost(g))
        .step(-877827600, 0, 7200, "WEMT", Ghost(g))
        .step(-857257200, 0, 3600, "WEST", Ghost(g))
        .step(-844556400, 0, 7200, "WEMT", Ghost(g))
        .step(-828226800, 0, 3600, "WEST", Ghost(g))
        .step(-812502000, 0, 7200, "WEMT", Ghost(g))
        .step(-796266000, 0, 3600, "WEST", Ghost(g))
        .step(-781052400, 0, 7200, "WEMT", Ghost(g))
        .step(-766623600, 3600, 0, "CET", Ghost(g))
        .step(196819200, 3600, 3600, "CEST", Ghost(g))
        .step(212540400, 3600, 0, "CET", Ghost(g))
        .step(228877200, 3600, 3600, "CEST", Ghost(g))
        .step(243997200, 3600, 0, "CET", Ghost(g))
        .step(260326800, 3600, 3600, "CEST", Ghost(g))
        .step(276051600, 3600, 0, "CET", Ghost(g))
        .step(291776400, 3600, 3600, "CEST", Ghost(g))
        .step(307501200, 3600, 0, "CET", Ghost(g))
        .step(323830800, 3600, 3600, "CEST", Ghost(g))
        .step(338950800, 3600, 0, "CET", Ghost(g))
        .step(354675600, 3600, 3600, "CEST", Ghost(g))
        .step(370400400, 3600, 0, "CET", Ghost(g))
        .step(386125200, 3600, 3600, "CEST", Ghost(g))
        .step(401850000, 3600, 0, "CET", Ghost(g))
        .step(417574800, 3600, 3600, "CEST", Ghost(g))
        .step(433299600, 3600, 0, "CET", Ghost(g))
        .step(449024400, 3600, 3600, "CEST", Ghost(g))
        .step(465354000, 3600, 0, "CET", Ghost(g))
        .step(481078800, 3600, 3600, "CEST", Ghost(g))
        .step(496803600, 3600, 0, "CET", Ghost(g))
        .step(512528400, 3600, 3600, "CEST", Ghost(g))
        .step(528253200, 3600, 0, "CET", Ghost(g))
        .step(543978000, 3600, 3600, "CEST", Ghost(g))
        .step(559702800, 3600, 0, "CET", Ghost(g))
        .step(575427600, 3600, 3600, "CEST", Ghost(g))
        .step(591152400, 3600, 0, "CET", Ghost(g))
        .step(606877200, 3600, 3600, "CEST", Ghost(g))
        .step(622602000, 3600, 0, "CET", Ghost(g))
        .step(638326800, 3600, 3600, "CEST", Ghost(g))
        .step(654656400, 3600, 0, "CET", Ghost(g))
        .step(670381200, 3600, 3600, "CEST", Ghost(g))
        .step(686106000, 3600, 0, "CET", Ghost(g))
        .step(701830800, 3600, 3600, "CEST", Ghost(g))
        .step(717555600, 3600, 0, "CET", Ghost(g))
        .step(733280400, 3600, 3600, "CEST", Ghost(g))
        .step(749005200, 3600, 0, "CET", Ghost(g))
        .step(764730000, 3600, 3600, "CEST", Ghost(g))
        .step(780454800, 3600, 0, "CET", Ghost(g))
        .step(796179600, 3600, 3600, "CEST", Ghost(g))
        .step(811904400, 3600, 0, "CET", Ghost(g))
        .step(828234000, 3600, 3600, "CEST", Ghost(g))
        .step(846378000, 3600, 0, "CET", Ghost(g))
        .step(859683600, 3600, 3600, "CEST", Ghost(g))
        .step(877827600, 3600, 0, "CET", Ghost(g))
        .step(891133200, 3600, 3600, "CEST", Ghost(g))
        .step(909277200, 3600, 0, "CET", Ghost(g))
        .step(922582800, 3600, 3600, "CEST", Ghost(g))
        .step(941331600, 3600, 0, "CET", Ghost(g))
        .step(954032400, 3600, 3600, "CEST", Ghost(g))
        .step(972781200, 3600, 0, "CET", Ghost(g))
        .step(985482000, 3600, 3600, "CEST", Ghost(g))
        .step(1004230800, 3600, 0, "CET", Ghost(g))
        .step(1017536400, 3600, 3600, "CEST", Ghost(g))
        .step(1035680400, 3600, 0, "CET", Ghost(g))
        .step(1048986000, 3600, 3600, "CEST", Ghost(g))
        .step(1067130000, 3600, 0, "CET", Ghost(g))
        .step(1080435600, 3600, 3600, "CEST", Ghost(g))
        .step(1099184400, 3600, 0, "CET", Ghost(g))
        .step(1111885200, 3600, 3600, "CEST", Ghost(g))
        .step(1130634000, 3600, 0, "CET", Ghost(g))
        .step(1143334800, 3600, 3600, "CEST", Ghost(g))
        .step(1162083600, 3600, 0, "CET", Ghost(g))
        .step(1174784400, 3600, 3600, "CEST", Ghost(g))
        .step(1193533200, 3600, 0, "CET", Ghost(g))
        .step(1206838800, 3600, 3600, "CEST", Ghost(g))
        .step(1224982800, 3600, 0, "CET", Ghost(g))
        .step(1238288400, 3600, 3600, "CEST", Ghost(g))
        .step(1256432400, 3600, 0, "CET", Ghost(g))
        .step(1269738000, 3600, 3600, "CEST", Ghost(g))
        .step(1288486800, 3600, 0, "CET", Ghost(g))
        .step(1301187600, 3600, 3600, "CEST", Ghost(g))
        .step(1319936400, 3600, 0, "CET", Ghost(g))
        .step(1332637200, 3600, 3600, "CEST", Ghost(g))
        .step(1351386000, 3600, 0, "CET", Ghost(g))
        .step(1364691600, 3600, 3600, "CEST", Ghost(g))
        .step(1382835600, 3600, 0, "CET", Ghost(g))
        .step(1396141200, 3600, 3600, "CEST", Ghost(g))
        .step(1414285200, 3600, 0, "CET", Ghost(g))
        .step(1427590800, 3600, 3600, "CEST", Ghost(g))
        .step(1445734800, 3600, 0, "CET", Ghost(g))
        .step(1459040400, 3600, 3600, "CEST", Ghost(g))
        .step(1477789200, 3600, 0, "CET", Ghost(g))
        .step(1490490000, 3600, 3600, "CEST", Ghost(g))
        .step(1509238800, 3600, 0, "CET", Ghost(g))
        .step(1521939600, 3600, 3600, "CEST", Ghost(g))
        .step(1540688400, 3600, 0, "CET", Ghost(g))
        .step(1553994000, 3600, 3600, "CEST", Ghost(g))
        .step(1572138000, 3600, 0, "CET", Ghost(g))
        .step(1585443600, 3600, 3600, "CEST", Ghost(g))
        .step(1603587600, 3600, 0, "CET", Ghost(g))
        .step(1616893200, 3600, 3600, "CEST", Ghost(g))
        .step(1635642000, 3600, 0, "CET", Ghost(g))
        .step(1648342800, 3600, 3600, "CEST", Ghost(g))
        .step(1667091600, 3600, 0, "CET", Ghost(g))
        .step(1679792400, 3600, 3600, "CEST", Ghost(g))
        .step(1698541200, 3600, 0, "CET", Ghost(g))
        .step(1711846800, 3600, 3600, "CEST", Ghost(g))
        .step(1729990800, 3600, 0, "CET", Ghost(g))
        .step(1743296400, 3600, 3600, "CEST", Ghost(g))
        .step(1761440400, 3600, 0, "CET", Ghost(g))
        .step(1774746000, 3600, 3600, "CEST", Ghost(g))
        .step(1792890000, 3600, 0, "CET", Ghost(g))
        .step(1806195600, 3600, 3600, "CEST", Ghost(g))
        .step(1824944400, 3600, 0, "CET", Ghost(g))
        .step(1837645200, 3600, 3600, "CEST", Ghost(g))
        .step(1856394000, 3600, 0, "CET", Ghost(g))
        .step(1869094800, 3600, 3600, "CEST", Ghost(g))
        .step(1887843600, 3600, 0, "CET", Ghost(g))
        .step(1901149200, 3600, 3600, "CEST", Ghost(g))
        .step(1919293200, 3600, 0, "CET", Ghost(g))
        .step(1932598800, 3600, 3600, "CEST", Ghost(g))
        .step(1950742800, 3600, 0, "CET", Ghost(g))
        .step(1964048400, 3600, 3600, "CEST", Ghost(g))
        .step(1982797200, 3600, 0, "CET", Ghost(g))
        .step(1995498000, 3600, 3600, "CEST", Ghost(g))
        .step(2014246800, 3600, 0, "CET", Ghost(g))
        .step(2026947600, 3600, 3600, "CEST", Ghost(g))
        .step(2045696400, 3600, 0, "CET", Ghost(g))
        .step(2058397200, 3600, 3600, "CEST", Ghost(g))
        .step(2077146000, 3600, 0, "CET", Ghost(g))
        .step(2090451600, 3600, 3600, "CEST", Ghost(g))
        .step(2108595600, 3600, 0, "CET", Ghost(g))
        .step(2121901200, 3600, 3600, "CEST", Ghost(g))
        .step(2140045200, 3600, 0, "CET", Ghost(g))
        .finish(Ghost(g))
}

/// The zone `Europe/Moscow`.
pub fn moscow() -> (r: Tz)
    ensures
        r.wf(),
        r.zone_name() == "Europe/Moscow"@,
        r.table() == tables::europe::moscow(),
{
    let ghost g = tables::europe::moscow_rows();
    FixedTimespanSet::begin("Europe/Moscow", 9017, 0, "LMT", Ghost(g))
        .step(-2840149817, 9017, 0, "MMT", Ghost(g))
        .step(-1688265017, 9079, 0, "MMT", Ghost(g))
        .step(-1656819079, 9079, 3600, "MST", Ghost(g))
        .step(-1641353479, 9079, 0, "MMT", Ghost(g))
        .step(-1627965079, 9079, 7200, "MDST", Ghost(g))
        .step(-1618716679, 9079, 3600, "MST", Ghost(g))
        .step(-1596429079, 9079, 7200, "MDST", Ghost(g))
        .step(-1593820800, 9079, 5321, "MSD", Ghost(g))
        .step(-1589860800, 10800, 0, "MSK", Ghost(g))
        .step(-1542427200, 10800, 3600, "MSD", Ghost(g))
        .step(-1539493200, 10800, 7200, "+05", Ghost(g))
        .step(-1525323600, 10800, 3600, "MSD", Ghost(g))
        .step(-1522728000, 10800, 0, "MSK", Ghost(g))
        .step(-1491188400, 7200, 0, "EET", Ghost(g))
        .step(-1247536800, 10800, 0, "MSK", Ghost(g))
        .step(354920400, 10800, 3600, "MSD", Ghost(g))
        .step(370728000, 10800, 0, "MSK", Ghost(g))
        .step(386456400, 10800, 3600, "MSD", Ghost(g))
        .step(402264000, 10800, 0, "MSK", Ghost(g))
        .step(417992400, 10800, 3600, "MSD", Ghost(g))
        .step(433800000, 10800, 0, "MSK", Ghost(g))
        .step(449614800, 10800, 3600, "MSD", Ghost(g))
        .step(465346800, 10800, 0, "MSK", Ghost(g))
        .step(481071600, 10800, 3600, "MSD", Ghost(g))
        .step(496796400, 10800, 0, "MSK", Ghost(g))
        .step(512521200, 10800, 3600, "MSD", Ghost(g))
        .step(528246000, 10800, 0, "MSK", Ghost(g))
        .step(543970800, 10800, 3600, "MSD", Ghost(g))
        .step(559695600, 10800, 0, "MSK", Ghost(g))
        .step(575420400, 10800, 3600, "MSD", Ghost(g))
        .step(591145200, 10800, 0, "MSK", Ghost(g))
        .step(606870000, 10800, 3600, "MSD", Ghost(g))
        .step(622594800, 10800, 0, "MSK", Ghost(g))
        .step(638319600, 10800, 3600, "MSD", Ghost(g))
        .step(654649200, 10800, 0, "MSK", Ghost(g))
        .step(670374000, 7200, 3600, "EEST", Ghost(g))
        .step(686102400, 7200, 0, "EET", Ghost(g))
        .step(695779200, 10800, 0, "MSK", Ghost(g))
        .step(701823600, 10800, 3600, "MSD", Ghost(g))
        .step(717548400, 10800, 0, "MSK", Ghost(g))
        .step(733273200, 10800, 3600, "MSD", Ghost(g))
        .step(748998000, 10800, 0, "MSK", Ghost(g))
        .step(764722800, 10800, 3600, "MSD", Ghost(g))
        .step(780447600, 10800, 0, "MSK", Ghost(g))
        .step(796172400, 10800, 3600, "MSD", Ghost(g))
        .step(811897200, 10800, 0, "MSK", Ghost(g))
        .step(828226800, 10800, 3600, "MSD", Ghost(g))
        .step(846370800, 10800, 0, "MSK", Ghost(g))
        .step(859676400, 10800, 3600, "MSD", Ghost(g))
        .step(877820400, 10800, 0, "MSK", Ghost(g))
        .step(891126000, 10800, 3600, "MSD", Ghost(g))
        .step(909270000, 10800, 0, "MSK", Ghost(g))
        .step(922575600, 10800, 3600, "MSD", Ghost(g))
        .step(941324400, 10800, 0, "MSK", Ghost(g))
        .step(954025200, 10800, 3600, "MSD", Ghost(g))
        .step(972774000, 10800, 0, "MSK", Ghost(g))
        .step(985474800, 10800, 3600, "MSD", Ghost(g))
        .step(1004223600, 10800, 0, "MSK", Ghost(g))
        .step(1017529200, 10800, 3600, "MSD", Ghost(g))
        .step(1035673200, 10800, 0, "MSK", Ghost(g))
        .step(1048978800, 10800, 3600, "MSD", Ghost(g))
        .step(1067122800, 10800, 0, "MSK", Ghost(g))
        .step(1080428400, 10800, 3600, "MSD", Ghost(g))
        .step(1099177200, 10800, 0, "MSK", Ghost(g))
        .step(1111878000, 10800, 3600, "MSD", Ghost(g))
        .step(1130626800, 10800, 0, "MSK", Ghost(g))
        .step(1143327600, 10800, 3600, "MSD", Ghost(g))
        .step(1162076400, 10800, 0, "MSK", Ghost(g))
        .step(1174777200, 10800, 3600, "MSD", Ghost(g))
        .step(1193526000, 10800, 0, "MSK", Ghost(g))
        .step(1206831600, 10800, 3600, "MSD", Ghost(g))
        .step(1224975600, 10800, 0, "MSK", Ghost(g))
        .step(1238281200, 10800, 3600, "MSD", Ghost(g))
        .step(1256425200, 10800, 0, "MSK", Ghost(g))
        .step(1269730800, 10800, 3600, "MSD", Ghost(g))
        .step(1288479600, 10800, 0, "MSK", Ghost(g))
        .step(1301180400, 14400, 0, "MSK", Ghost(g))
        .step(1414274400, 10800, 0, "MSK", Ghost(g))
        .finish(Ghost(g))
}

/// The zone `Europe/Nicosia`.
pub fn nicosia() -> (r: Tz)
    ensures
        r.wf(),
        r.zone_name() == "Europe/Nicosia"@,
        r.table() == tables::europe::nicosia(),
{
    let ghost g = tables::europe::nicosia_rows();
    FixedTimespanSet::begin("Europe/Nicosia", 8008, 0, "LMT", Ghost(g))
        .step(-1518920008, 7200, 0, "EET", Ghost(g))
        .step(166572000, 7200, 3600, "EEST", Ghost(g))
        .step(182293200, 7200, 0, "EET", Ghost(g))
        .step(200959200, 7200, 3600, "EEST", Ghost(g))
        .step(213829200, 7200, 0, "EET", Ghost(g))
        .step(228866400, 7200, 3600, "EEST", Ghost(g))
        .step(243982800, 7200, 0, "EET", Ghost(g))
        .step(260316000, 7200, 3600, "EEST", Ghost(g))
        .step(276123600, 7200, 0, "EET", Ghost(g))
        .step(291765600, 7200, 3600, "EEST", Ghost(g))
        .step(307486800, 7200, 0, "EET", Ghost(g))
        .step(323820000, 7200, 3600, "EEST", Ghost(g))
        .step(338936400, 7200, 0, "EET", Ghost(g))
        .step(354664800, 7200, 3600, "EEST", Ghost(g))
        .step(370386000, 7200, 0, "EET", Ghost(g))
        .step(386114400, 7200, 3600, "EEST", Ghost(g))
        .step(401835600, 7200, 0, "EET", Ghost(g))
        .step(417564000, 7200, 3600, "EEST", Ghost(g))
        .step(433285200, 7200, 0, "EET", Ghost(g))
        .step(449013600, 7200, 3600, "EEST", Ghost(g))
        .step(465339600, 7200, 0, "EET", Ghost(g))
        .step(481068000, 7200, 3600, "EEST", Ghost(g))
        .step(496789200, 7200, 0, "EET", Ghost(g))
        .step(512517600, 7200, 3600, "EEST", Ghost(g))
        .step(528238800, 7200, 0, "EET", Ghost(g))
        .step(543967200, 7200, 3600, "EEST", Ghost(g))
        .step(559688400, 7200, 0, "EET", Ghost(g))
        .step(575416800, 7200, 3600, "EEST", Ghost(g))
        .step(591138000, 7200, 0, "EET", Ghost(g))
        .step(606866400, 7200, 3600, "EEST", Ghost(g))
        .step(622587600, 7200, 0, "EET", Ghost(g))
        .step(638316000, 7200, 3600, "EEST", Ghost(g))
        .step(654642000, 7200, 0, "EET", Ghost(g))
        .step(670370400, 7200, 3600, "EEST", Ghost(g))
        .step(686091600, 7200, 0, "EET", Ghost(g))
        .step(701820000, 7200, 3600, "EEST", Ghost(g))
        .step(717541200, 7200, 0, "EET", Ghost(g))
        .step(733269600, 7200, 3600, "EEST", Ghost(g))
        .step(748990800, 7200, 0, "EET", Ghost(g))
        .step(764719200, 7200, 3600, "EEST", Ghost(g))
        .step(780440400, 7200, 0, "EET", Ghost(g))
        .step(796168800, 7200, 3600, "EEST", Ghost(g))
        .step(811890000, 7200, 0, "EET", Ghost(g))
        .step(828223200, 7200, 3600, "EEST", Ghost(g))
        .step(843944400, 7200, 0, "EET", Ghost(g))
        .step(859672800, 7200, 3600, "EEST", Ghost(g))
        .step(875394000, 7200, 0, "EET", Ghost(g))
        .step(891122400, 7200, 3600, "EEST", Ghost(g))
        .step(909277200, 7200, 0, "EET", Ghost(g))
        .step(922582800, 7200, 3600, "EEST", Ghost(g))
        .step(941331600, 7200, 0, "EET", Ghost(g))
        .step(954032400, 7200, 3600, "EEST", Ghost(g))
        .step(972781200, 7200, 0, "EET", Ghost(g))
        .step(985482000, 7200, 3600, "EEST", Ghost(g))
        .step(1004230800, 7200, 0, "EET", Ghost(g))
        .step(1017536400, 7200, 3600, "EEST", Ghost(g))
        .step(1035680400, 7200, 0, "EET", Ghost(g))
        .step(1048986000, 7200, 3600, "EEST", Ghost(g))
        .step(1067130000, 7200, 0, "EET", Ghost(g))
        .step(1080435600, 7200, 3600, "EEST", Ghost(g))
        .step(1099184400, 7200, 0, "EET", Ghost(g))
        .step(1111885200, 7200, 3600, "EEST", Ghost(g))
        .step(1130634000, 7200, 0, "EET", Ghost(g))
        .step(1143334800, 7200, 3600, "EEST", Ghost(g))
        .step(1162083600, 7200, 0, "EET", Ghost(g))
        .step(1174784400, 7200, 3600, "EEST", Ghost(g))
        .step(1193533200, 7200, 0, "EET", Ghost(g))
        .step(1206838800, 7200, 3600, "EEST", Ghost(g))
        .step(1224982800, 7200, 0, "EET", Ghost(g))
        .step(1238288400, 7200, 3600, "EEST", Ghost(g))
        .step(1256432400, 7200, 0, "EET", Ghost(g))
        .step(1269738000, 7200, 3600, "EEST", Ghost(g))
        .step(1288486800, 7200, 0, "EET", Ghost(g))
        .step(1301187600, 7200, 3600, "EEST", Ghost(g))
        .step(1319936400, 7200, 0, "EET", Ghost(g))
        .step(1332637200, 7200, 3600, "EEST", Ghost(g))
        .step(1351386000, 7200, 0, "EET", Ghost(g))
        .step(1364691600, 7200, 3600, "EEST", Ghost(g))
        .step(1382835600, 7200, 0, "EET", Ghost(g))
        .step(1396141200, 7200, 3600, "EEST", Ghost(g))
        .step(1414285200, 7200, 0, "EET", Ghost(g))
        .step(1427590800, 7200, 3600, "EEST", Ghost(g))
        .step(1445734800, 7200, 0, "EET", Ghost(g))
        .step(1459040400, 7200, 3600, "EEST", Ghost(g))
        .step(1477789200, 7200, 0, "EET", Ghost(g))
        .step(1490490000, 7200, 3600, "EEST", Ghost(g))
        .step(1509238800, 7200, 0, "EET", Ghost(g))
        .step(1521939600, 7200, 3600, "EEST", Ghost(g))
        .step(1540688400, 7200, 0, "EET", Ghost(g))
        .step(1553994000, 7200, 3600, "EEST", Ghost(g))
        .step(1572138000, 7200, 0, "EET", Ghost(g))
        .step(1585443600, 7200, 3600, "EEST", Ghost(g))
        .step(1603587600, 7200, 0, "EET", Ghost(g))
        .step(1616893200, 7200, 3600, "EEST", Ghost(g))
        .step(1635642000, 7200, 0, "EET", Ghost(g))
        .step(1648342800, 7200, 3600, "EEST", Ghost(g))
        .step(1667091600, 7200, 0, "EET", Ghost(g))
        .step(1679792400, 7200, 3600, "EEST", Ghost(g))
        .step(1698541200, 7200, 0, "EET", Ghost(g))
        .step(1711846800, 7200, 3600, "EEST", Ghost(g))
        .step(1729990800, 7200, 0, "EET", Ghost(g))
        .step(1743296400, 7200, 3600, "EEST", Ghost(g))
        .step(1761440400, 7200, 0, "EET", Ghost(g))
        .step(1774746000, 7200, 3600, "EEST", Ghost(g))
        .step(1792890000, 7200, 0, "EET", Ghost(g))
        .step(1806195600, 7200, 3600, "EEST", Ghost(g))
        .step(1824944400, 7200, 0, "EET", Ghost(g))
        .step(1837645200, 7200, 3600, "EEST", Ghost(g))
        .step(1856394000, 7200, 0, "EET", Ghost(g))
        .step(1869094800, 7200, 3600, "EEST", Ghost(g))
        .step(1887843600, 7200, 0, "EET", Ghost(g))
        .step(1901149200, 7200, 3600, "EEST", Ghost(g))
        .step(1919293200, 7200, 0, "EET", Ghost(g))
        .step(1932598800, 7200, 3600, "EEST", Ghost(g))
        .step(1950742800, 7200, 0, "EET", Ghost(g))
        .step(1964048400, 7200, 3600, "EEST", Ghost(g))
        .step(1982797200, 7200, 0, "EET", Ghost(g))
        .step(1995498000, 7200, 3600, "EEST", Ghost(g))
        .step(2014246800, 7200, 0, "EET", Ghost(g))
        .step(2026947600, 7200, 3600, "EEST", Ghost(g))
        .step(2045696400, 7200, 0, "EET", Ghost(g))
        .step(2058397200, 7200, 3600, "EEST", Ghost(g))
        .step(2077146000, 7200, 0, "EET", Ghost(g))
        .step(2090451600, 7200, 3600, "EEST", Ghost(g))
        .step(2108595600, 7200, 0, "EET", Ghost(g))
        .step(2121901200, 7200, 3600, "EEST", Ghost(g))
        .step(2140045200, 7200, 0, "EET", Ghost(g))
        .finish(Ghost(g))
}

/// The zone `Europe/Oslo`.
pub fn oslo() -> (r: Tz)
    ensures
        r.wf(),
        r.zone_name() == "Europe/Oslo"@,
        r.table() == tables::europe::oslo(),
{
    let ghost g = tables::europe::oslo_rows();
    FixedTimespanSet::begin("Europe/Oslo", 2580, 0, "LMT", Ghost(g))
        .step(-2366757780, 3600, 0, "CET", Ghost(g))
        .step(-1691884800, 3600, 3600, "CEST", Ghost(g))
        .step(-1680573600, 3600, 0, "CET", Ghost(g))
        .step(-927511200, 3600, 3600, "CEST", Ghost(g))
        .step(-857257200, 3600, 0, "CET", Ghost(g))
        .step(-844556400, 3600, 3600, "CEST", Ghost(g))
        .step(-828226800, 3600, 0, "CET", Ghost(g))
        .step(-812502000, 3600, 3600, "CEST", Ghost(g))
        .step(-796777200, 3600, 0, "CET", Ghost(g))
        .step(-781052400, 3600, 3600, "CEST", Ghost(g))
        .step(-765327600, 3600, 0, "CET", Ghost(g))
        .step(-340844400, 3600, 3600, "CEST", Ghost(g))
        .step(-324514800, 3600, 0, "CET", Ghost(g))
        .step(-308790000, 3600, 3600, "CEST", Ghost(g))
        .step(-293065200, 3600, 0, "CET", Ghost(g))
        .step(-277340400, 3600, 3600, "CEST", Ghost(g))
        .step(-261615600, 3600, 0, "CET", Ghost(g))
        .step(-245890800, 3600, 3600, "CEST", Ghost(g))
        .step(-230166000, 3600, 0, "CET", Ghost(g))
        .step(-214441200, 3600, 3600, "CEST", Ghost(g))
        .step(-198716400, 3600, 0, "CET", Ghost(g))
        .step(-182991600, 3600, 3600, "CEST", Ghost(g))
        .step(-166662000, 3600, 0, "CET", Ghost(g))
        .step(-147913200, 3600, 3600, "CEST", Ghost(g))
        .step(-135212400, 3600, 0, "CET", Ghost(g))
        .step(323830800, 3600, 3600, "CEST", Ghost(g))
        .step(338950800, 3600, 0, "CET", Ghost(g))
        .step(354675600, 3600, 3600, "CEST", Ghost(g))
        .step(370400400, 3600, 0, "CET", Ghost(g))
        .step(386125200, 3600, 3600, "CEST", Ghost(g))
        .step(401850000, 3600, 0, "CET", Ghost(g))
        .step(417574800, 3600, 3600, "CEST", Ghost(g))
        .step(433299600, 3600, 0, "CET", Ghost(g))
        .step(449024400, 3600, 3600, "CEST", Ghost(g))
        .step(465354000, 3600, 0, "CET", Ghost(g))
        .step(481078800, 3600, 3600, "CEST", Ghost(g))
        .step(496803600, 3600, 0, "CET", Ghost(g))
        .step(512528400, 3600, 3600, "CEST", Ghost(g))
        .step(528253200, 3600, 0, "CET", Ghost(g))
        .step(543978000, 3600, 3600, "CEST", Ghost(g))
        .step(559702800, 3600, 0, "CET", Ghost(g))
        .step(575427600, 3600, 3600, "CEST", Ghost(g))
        .step(591152400, 3600, 0, "CET", Ghost(g))
        .step(606877200, 3600, 3600, "CEST", Ghost(g))
        .step(622602000, 3600, 0, "CET", Ghost(g))
        .step(638326800, 3600, 3600, "CEST", Ghost(g))
        .step(654656400, 3600, 0, "CET", Ghost(g))
        .step(670381200, 3600, 3600, "CEST", Ghost(g))
        .step(686106000, 3600, 0, "CET", Ghost(g))
        .step(701830800, 3600, 3600, "CEST", Ghost(g))
        .step(717555600, 3600, 0, "CET", Ghost(g))
        .step(733280400, 3600, 3600, "CEST", Ghost(g))
        .step(749005200, 3600, 0, "CET", Ghost(g))
        .step(764730000, 3600, 3600, "CEST", Ghost(g))
        .step(780454800, 3600, 0, "CET", Ghost(g))
        .step(796179600, 3600, 3600, "CEST", Ghost(g))
        .step(811904400, 3600, 0, "CET", Ghost(g))
        .step(828234000, 3600, 3600, "CEST", Ghost(g))
        .step(846378000, 3600, 0, "CET", Ghost(g))
        .step(859683600, 3600, 3600, "CEST", Ghost(g))
        .step(877827600, 3600, 0, "CET", Ghost(g))
        .step(891133200, 3600, 3600, "CEST", Ghost(g))
        .step(909277200, 3600, 0, "CET", Ghost(g))
        .step(922582800, 3600, 3600, "CEST", Ghost(g))
        .step(941331600, 3600, 0, "CET", Ghost(g))
        .step(954032400, 3600, 3600, "CEST", Ghost(g))
        .step(972781200, 3600, 0, "CET", Ghost(g))
        .step(985482000, 3600, 3600, "CEST", Ghost(g))
        .step(1004230800, 3600, 0, "CET", Ghost(g))
        .step(1017536400, 3600, 3600, "CEST", Ghost(g))
        .step(1035680400, 3600, 0, "CET", Ghost(g))
        .step(1048986000, 3600, 3600, "CEST", Ghost(g))
        .step(1067130000, 3600, 0, "CET", Ghost(g))
        .step(1080435600, 3600, 3600, "CEST", Ghost(g))
        .step(1099184400, 3600, 0, "CET", Ghost(g))
        .step(1111885200, 3600, 3600, "CEST", Ghost(g))
        .step(1130634000, 3600, 0, "CET", Ghost(g))
        .step(1143334800, 3600, 3600, "CEST", Ghost(g))
        .step(1162083600, 3600, 0, "CET", Ghost(g))
        .step(1174784400, 3600, 3600, "CEST", Ghost(g))
        .step(1193533200, 3600, 0, "CET", Ghost(g))
        .step(1206838800, 3600, 3600, "CEST", Ghost(g))
        .step(1224982800, 3600, 0, "CET", Ghost(g))
        .step(1238288400, 3600, 3600, "CEST", Ghost(g))
        .step(1256432400, 3600, 0, "CET", Ghost(g))
        .step(1269738000, 3600, 3600, "CEST", Ghost(g))
        .step(1288486800, 3600, 0, "CET", Ghost(g))
        .step(1301187600, 3600, 3600, "CEST", Ghost(g))
        .step(1319936400, 3600, 0, "CET", Ghost(g))
        .step(1332637200, 3600, 3600, "CEST", Ghost(g))
        .step(1351386000, 3600, 0, "CET", Ghost(g))
        .step(1364691600, 3600, 3600, "CEST", Ghost(g))
        .step(1382835600, 3600, 0, "CET", Ghost(g))
        .step(1396141200, 3600, 3600, "CEST", Ghost(g))
        .step(1414285200, 3600, 0, "CET", Ghost(g))
        .step(1427590800, 3600, 3600, "CEST", Ghost(g))
        .step(1445734800, 3600, 0, "CET", Ghost(g))
        .step(1459040400, 3600, 3600, "CEST", Ghost(g))
        .step(1477789200, 3600, 0, "CET", Ghost(g))
        .step(1490490000, 3600, 3600, "CEST", Ghost(g))
        .step(1509238800, 3600, 0, "CET", Ghost(g))
        .step(1521939600, 3600, 3600, "CEST", Ghost(g))
        .step(1540688400, 3600, 0, "CET", Ghost(g))
        .step(1553994000, 3600, 3600, "CEST", Ghost(g))
        .step(1572138000, 3600, 0, "CET", Ghost(g))
        .step(1585443600, 3600, 3600, "CEST", Ghost(g))
        .step(1603587600, 3600, 0, "CET", Ghost(g))
        .step(1616893200, 3600, 3600, "CEST", Ghost(g))
        .step(1635642000, 3600, 0, "CET", Ghost(g))
        .step(1648342800, 3600, 3600, "CEST", Ghost(g))
        .step(1667091600, 3600, 0, "CET", Ghost(g))
        .step(1679792400, 3600, 3600, "CEST", Ghost(g))
        .step(1698541200, 3600, 0, "CET", Ghost(g))
        .step(1711846800, 3600, 3600, "CEST", Ghost(g))
        .step(1729990800, 3600, 0, "CET", Ghost(g))
        .step(1743296400, 3600, 3600, "CEST", Ghost(g))
        .step(1761440400, 3600, 0, "CET", Ghost(g))
        .step(1774746000, 3600, 3600, "CEST", Ghost(g))
        .step(1792890000, 3600, 0, "CET", Ghost(g))
        .step(1806195600, 3600, 3600, "CEST", Ghost(g))
        .step(1824944400, 3600, 0, "CET", Ghost(g))
        .step(1837645200, 3600, 3600, "CEST", Ghost(g))
        .step(1856394000, 3600, 0, "CET", Ghost(g))
        .step(1869094800, 3600, 3600, "CEST", Ghost(g))
        .step(1887843600, 3600, 0, "CET", Ghost(g))
        .step(1901149200, 3600, 3600, "CEST", Ghost(g))
        .step(1919293200, 3600, 0, "CET", Ghost(g))
        .step(1932598800, 3600, 3600, "CEST", Ghost(g))
        .step(1950742800, 3600, 0, "CET", Ghost(g))
        .step(1964048400, 3600, 3600, "CEST", Ghost(g))
        .step(1982797200, 3600, 0, "CET", Ghost(g))
        .step(1995498000, 3600, 3600, "CEST", Ghost(g))
        .step(2014246800, 3600, 0, "CET", Ghost(g))
        .step(2026947600, 3600, 3600, "CEST", Ghost(g))
        .step(2045696400, 3600, 0, "CET", Ghost(g))
        .step(2058397200, 3600, 3600, "CEST", Ghost(g))
        .step(2077146000, 3600, 0, "CET", Ghost(g))
        .step(2090451600, 3600, 3600, "CEST", Ghost(g))
        .step(2108595600, 3600, 0, "CET", Ghost(g))
        .step(2121901200, 3600, 3600, "CEST", Ghost(g))
        .step(2140045200, 3600, 0, "CET", Ghost(g))
        .finish(Ghost(g))
}

/// The zone `Europe/Paris`.
pub fn paris() -> (r: Tz)
    ensures
        r.wf(),
        r.zone_name() == "Europe/Paris"@,
        r.table() == tables::europe::paris(),
{
    let ghost g = tables::europe::paris_rows();
    FixedTimespanSet::begin("Europe/Paris", 561, 0, "LMT", Ghost(g))
        .step(-2486592561, 561, 0, "PMT", Ghost(g))
        .step(-1855958961, 0, 0, "WET", Ghost(g))
        .step(-1689814800, 0, 3600, "WEST", Ghost(g))
        .step(-1680397200, 0, 0, "WET", Ghost(g))
        .step(-1665363600, 0, 3600, "WEST", Ghost(g))
        .step(-1648342800, 0, 0, "WET", Ghost(g))
        .step(-1635123600, 0, 3600, "WEST", Ghost(g))
        .step(-1616893200, 0, 0, "WET", Ghost(g))
        .step(-1604278800, 0, 3600, "WEST", Ghost(g))
        .step(-1585443600, 0, 0, "WET", Ghost(g))
        .step(-1574038800, 0, 3600, "WEST", Ghost(g))
        .step(-1552266000, 0, 0, "WET", Ghost(g))
        .step(-1539997200, 0, 3600, "WEST", Ghost(g))
        .step(-1520557200, 0, 0, "WET", Ghost(g))
        .step(-1507510800, 0, 3600, "WEST", Ghost(g))
        .step(-1490576400, 0, 0, "WET", Ghost(g))
        .step(-1470618000, 0, 3600, "WEST", Ghost(g))
        .step(-1459126800, 0, 0, "WET", Ghost(g))
        .step(-1444006800, 0, 3600, "WEST", Ghost(g))
        .step(-1427677200, 0, 0, "WET", Ghost(g))
        .step(-1411952400, 0, 3600, "WEST", Ghost(g))
        .step(-1396227600, 0, 0, "WET", Ghost(g))
        .step(-1379293200, 0, 3600, "WEST", Ghost(g))
        .step(-1364778000, 0, 0, "WET", Ghost(g))
        .step(-1348448400, 0, 3600, "WEST", Ghost(g))
        .step(-1333328400, 0, 0, "WET", Ghost(g))
        .step(-1316394000, 0, 3600, "WEST", Ghost(g))
        .step(-1301274000, 0, 0, "WET", Ghost(g))
        .step(-1284339600, 0, 3600, "WEST", Ghost(g))
        .step(-1269824400, 0, 0, "WET", Ghost(g))
        .step(-1253494800, 0, 3600, "WEST", Ghost(g))
        .step(-1238374800, 0, 0, "WET", Ghost(g))
        .step(-1221440400, 0, 3600, "WEST", Ghost(g))
        .step(-1206925200, 0, 0, "WET", Ghost(g))
        .step(-1191200400, 0, 3600, "WEST", Ghost(g))
        .step(-1175475600, 0, 0, "WET", Ghost(g))
        .step(-1160355600, 0, 3600, "WEST", Ghost(g))
        .step(-1143421200, 0, 0, "WET", Ghost(g))
        .step(-1127696400, 0, 3600, "WEST", Ghost(g))
        .step(-1111971600, 0, 0, "WET", Ghost(g))
        .step(-1096851600, 0, 3600, "WEST", Ghost(g))
        .step(-1080522000, 0, 0, "WET", Ghost(g))
        .step(-1063587600, 0, 3600, "WEST", Ghost(g))
        .step(-1049072400, 0, 0, "WET", Ghost(g))
        .step(-1033347600, 0, 3600, "WEST", Ghost(g))
        .step(-1017622800, 0, 0, "WET", Ghost(g))
        .step(-1002502800, 0, 3600, "WEST", Ghost(g))
        .step(-986173200, 0, 0, "WET", Ghost(g))
        .step(-969238800, 0, 3600, "WEST", Ghost(g))
        .step(-950490000, 0, 0, "WET", Ghost(g))
        .step(-942012000, 0, 3600, "WEST", Ghost(g))
        .step(-932436000, 0, 7200, "CEST", Ghost(g))
        .step(-857257200, 3600, 0, "CET", Ghost(g))
        .step(-844556400, 3600, 3600, "CEST", Ghost(g))
        .step(-828226800, 3600, 0, "CET", Ghost(g))
        .step(-812502000, 3600, 3600, "CEST", Ghost(g))
        .step(-800071200, 3600, 3600, "WEMT", Ghost(g))
        .step(-796266000, 0, 3600, "WEST", Ghost(g))
        .step(-781052400, 3600, 3600, "WEMT", Ghost(g))
        .step(-766623600, 3600, 0, "CET", Ghost(g))
        .step(196819200, 3600, 3600, "CEST", Ghost(g))
        .step(212540400, 3600, 0, "CET", Ghost(g))
        .step(228877200, 3600, 3600, "CEST", Ghost(g))
        .step(243997200, 3600, 0, "CET", Ghost(g))
        .step(260326800, 3600, 3600, "CEST", Ghost(g))
        .step(276051600, 3600, 0, "CET", Ghost(g))
        .step(291776400, 3600, 3600, "CEST", Ghost(g))
        .step(307501200, 3600, 0, "CET", Ghost(g))
        .step(323830800, 3600, 3600, "CEST", Ghost(g))
        .step(338950800, 3600, 0, "CET", Ghost(g))
        .step(354675600, 3600, 3600, "CEST", Ghost(g))
        .step(370400400, 3600, 0, "CET", Ghost(g))
        .step(386125200, 3600, 3600, "CEST", Ghost(g))
        .step(401850000, 3600, 0, "CET", Ghost(g))
        .step(417574800, 3600, 3600, "CEST", Ghost(g))
        .step(433299600, 3600, 0, "CET", Ghost(g))
        .step(449024400, 3600, 3600, "CEST", Ghost(g))
        .step(465354000, 3600, 0, "CET", Ghost(g))
        .step(481078800, 3600, 3600, "CEST", Ghost(g))
        .step(496803600, 3600, 0, "CET", Ghost(g))
        .step(512528400, 3600, 3600, "CEST", Ghost(g))
        .step(528253200, 3600, 0, "CET", Ghost(g))
        .step(543978000, 3600, 3600, "CEST", Ghost(g))
        .step(559702800, 3600, 0, "CET", Ghost(g))
        .step(575427600, 3600, 3600, "CEST", Ghost(g))
        .step(591152400, 3600, 0, "CET", Ghost(g))
        .step(606877200, 3600, 3600, "CEST", Ghost(g))
        .step(622602000, 3600, 0, "CET", Ghost(g))
        .step(638326800, 3600, 3600, "CEST", Ghost(g))
        .step(654656400, 3600, 0, "CET", Ghost(g))
        .step(670381200, 3600, 3600, "CEST", Ghost(g))
        .step(686106000, 3600, 0, "CET", Ghost(g))
        .step(701830800, 3600, 3600, "CEST", Ghost(g))
        .step(717555600, 3600, 0, "CET", Ghost(g))
        .step(733280400, 3600, 3600, "CEST", Ghost(g))
        .step(749005200, 3600, 0, "CET", Ghost(g))
        .step(764730000, 3600, 3600, "CEST", Ghost(g))
        .step(780454800, 3600, 0, "CET", Ghost(g))
        .step(796179600, 3600, 3600, "CEST", Ghost(g))
        .step(811904400, 3600, 0, "CET", Ghost(g))
        .step(828234000, 3600, 3600, "CEST", Ghost(g))
        .step(846378000, 3600, 0, "CET", Ghost(g))
        .step(859683600, 3600, 3600, "CEST", Ghost(g))
        .step(877827600, 3600, 0, "CET", Ghost(g))
        .step(891133200, 3600, 3600, "CEST", Ghost(g))
        .step(909277200, 3600, 0, "CET", Ghost(g))
        .step(922582800, 3600, 3600, "CEST", Ghost(g))
        .step(941331600, 3600, 0, "CET", Ghost(g))
        .step(954032400, 3600, 3600, "CEST", Ghost(g))
        .step(972781200, 3600, 0, "CET", Ghost(g))
        .step(985482000, 3600, 3600, "CEST", Ghost(g))
        .step(1004230800, 3600, 0, "CET", Ghost(g))
        .step(1017536400, 3600, 3600, "CEST", Ghost(g))
        .step(1035680400, 3600, 0, "CET", Ghost(g))
        .step(1048986000, 3600, 3600, "CEST", Ghost(g))
        .step(1067130000, 3600, 0, "CET", Ghost(g))
        .step(1080435600, 3600, 3600, "CEST", Ghost(g))
        .step(1099184400, 3600, 0, "CET", Ghost(g))
        .step(1111885200, 3600, 3600, "CEST", Ghost(g))
        .step(1130634000, 3600, 0, "CET", Ghost(g))
        .step(1143334800, 3600, 3600, "CEST", Ghost(g))
        .step(1162083600, 3600, 0, "CET", Ghost(g))
        .step(1174784400, 3600, 3600, "CEST", Ghost(g))
        .step(1193533200, 3600, 0, "CET", Ghost(g))
        .step(1206838800, 3600, 3600, "CEST", Ghost(g))
        .step(1224982800, 3600, 0, "CET", Ghost(g))
        .step(1238288400, 3600, 3600, "CEST", Ghost(g))
        .step(1256432400, 3600, 0, "CET", Ghost(g))
        .step(1269738000, 3600, 3600, "CEST", Ghost(g))
        .step(1288486800, 3600, 0, "CET", Ghost(g))
        .step(1301187600, 3600, 3600, "CEST", Ghost(g))
        .step(1319936400, 3600, 0, "CET", Ghost(g))
        .step(1332637200, 3600, 3600, "CEST", Ghost(g))
        .step(1351386000, 3600, 0, "CET", Ghost(g))
        .step(1364691600, 3600, 3600, "CEST", Ghost(g))
        .step(1382835600, 3600, 0, "CET", Ghost(g))
        .step(1396141200, 3600, 3600, "CEST", Ghost(g))
        .step(1414285200, 3600, 0, "CET", Ghost(g))
        .step(1427590800, 3600, 3600, "CEST", Ghost(g))
        .step(1445734800, 3600, 0, "CET", Ghost(g))
        .step(1459040400, 3600, 3600, "CEST", Ghost(g))
        .step(1477789200, 3600, 0, "CET", Ghost(g))
        .step(1490490000, 3600, 3600, "CEST", Ghost(g))
        .step(1509238800, 3600, 0, "CET", Ghost(g))
        .step(1521939600, 3600, 3600, "CEST", Ghost(g))
        .step(1540688400, 3600, 0, "CET", Ghost(g))
        .step(1553994000, 3600, 3600, "CEST", Ghost(g))
        .step(1572138000, 3600, 0, "CET", Ghost(g))
        .step(1585443600, 3600, 3600, "CEST", Ghost(g))
        .step(1603587600, 3600, 0, "CET", Ghost(g))
        .step(1616893200, 3600, 3600, "CEST", Ghost(g))
        .step(1635642000, 3600, 0, "CET", Ghost(g))
        .step(1648342800, 3600, 3600, "CEST", Ghost(g))
        .step(1667091600, 3600, 0, "CET", Ghost(g))
        .step(1679792400, 3600, 3600, "CEST", Ghost(g))
        .step(1698541200, 3600, 0, "CET", Ghost(g))
        .step(1711846800, 3600, 3600, "CEST", Ghost(g))
        .step(1729990800, 3600, 0, "CET", Ghost(g))
        .step(1743296400, 3600, 3600, "CEST", Ghost(g))
        .step(1761440400, 3600, 0, "CET", Ghost(g))
        .step(1774746000, 3600, 3600, "CEST", Ghost(g))
        .step(1792890000, 3600, 0, "CET", Ghost(g))
        .step(1806195600, 3600, 3600, "CEST", Ghost(g))
        .step(1824944400, 3600, 0, "CET", Ghost(g))
        .step(1837645200, 3600, 3600, "CEST", Ghost(g))
        .step(1856394000, 3600, 0, "CET", Ghost(g))
        .step(1869094800, 3600, 3600, "CEST", Ghost(g))
        .step(1887843600, 3600, 0, "CET", Ghost(g))
        .step(1901149200, 3600, 3600, "CEST", Ghost(g))
        .step(1919293200, 3600, 0, "CET", Ghost(g))
        .step(1932598800, 3600, 3600, "CEST", Ghost(g))
        .step(1950742800, 3600, 0, "CET", Ghost(g))
        .step(1964048400, 3600, 3600, "CEST", Ghost(g))
        .step(1982797200, 3600, 0, "CET", Ghost(g))
        .step(1995498000, 3600, 3600, "CEST", Ghost(g))
        .step(2014246800, 3600, 0, "CET", Ghost(g))
        .step(2026947600, 3600, 3600, "CEST", Ghost(g))
        .step(2045696400, 3600, 0, "CET", Ghost(g))
        .step(2058397200, 3600, 3600, "CEST", Ghost(g))
        .step(2077146000, 3600, 0, "CET", Ghost(g))
        .step(2090451600, 3600, 3600, "CEST", Ghost(g))
        .step(2108595600, 3600, 0, "CET", Ghost(g))
        .step(2121901200, 3600, 3600, "CEST", Ghost(g))
        .step(2140045200, 3600, 0, "CET", Ghost(g))
        .finish(Ghost(g))
}

/// The zone `Europe/Podgorica`.
pub fn podgorica() -> (r: Tz)
    ensures
        r.wf(),
        r.zone_name() == "Europe/Podgorica"@,
        r.table() == tables::europe::podgorica(),
{
    let ghost g = tables::europe::podgorica_rows();
    FixedTimespanSet::begin("Europe/Podgorica", 4920, 0, "LMT", Ghost(g))
        .step(-2713915320, 3600, 0, "CET", Ghost(g))
        .step(-905824800, 3600, 3600, "CEST", Ghost(g))
        .step(-857257200, 3600, 0, "CET", Ghost(g))
        .step(-844556400, 3600, 3600, "CEST", Ghost(g))
        .step(-828226800, 3600, 0, "CET", Ghost(g))
        .step(-812502000, 3600, 3600, "CEST", Ghost(g))
        .step(-796777200, 3600, 0, "CET", Ghost(g))
        .step(-777942000, 3600, 3600, "CEST", Ghost(g))
        .step(-766623600, 3600, 0, "CET", Ghost(g))
        .step(417574800, 3600, 3600, "CEST", Ghost(g))
        .step(433299600, 3600, 0, "CET", Ghost(g))
        .step(449024400, 3600, 3600, "CEST", Ghost(g))
        .step(465354000, 3600, 0, "CET", Ghost(g))
        .step(481078800, 3600, 3600, "CEST", Ghost(g))
        .step(496803600, 3600, 0, "CET", Ghost(g))
        .step(512528400, 3600, 3600, "CEST", Ghost(g))
        .step(528253200, 3600, 0, "CET", Ghost(g))
        .step(543978000, 3600, 3600, "CEST", Ghost(g))
        .step(559702800, 3600, 0, "CET", Ghost(g))
        .step(575427600, 3600, 3600, "CEST", Ghost(g))
        .step(591152400, 3600, 0, "CET", Ghost(g))
        .step(606877200, 3600, 3600, "CEST", Ghost(g))
        .step(622602000, 3600, 0, "CET", Ghost(g))
        .step(638326800, 3600, 3600, "CEST", Ghost(g))
        .step(654656400, 3600, 0, "CET", Ghost(g))
        .step(670381200, 3600, 3600, "CEST", Ghost(g))
        .step(686106000, 3600, 0, "CET", Ghost(g))
        .step(701830800, 3600, 3600, "CEST", Ghost(g))
        .step(717555600, 3600, 0, "CET", Ghost(g))
        .step(733280400, 3600, 3600, "CEST", Ghost(g))
        .step(749005200, 3600, 0, "CET", Ghost(g))
        .step(764730000, 3600, 3600, "CEST", Ghost(g))
        .step(780454800, 3600, 0, "CET", Ghost(g))
        .step(796179600, 3600, 3600, "CEST", Ghost(g))
        .step(811904400, 3600, 0, "CET", Ghost(g))
        .step(828234000, 3600, 3600, "CEST", Ghost(g))
        .step(846378000, 3600, 0, "CET", Ghost(g))
        .step(859683600, 3600, 3600, "CEST", Ghost(g))
        .step(877827600, 3600, 0, "CET", Ghost(g))
        .step(891133200, 3600, 3600, "CEST", Ghost(g))
        .step(909277200, 3600, 0, "CET", Ghost(g))
        .step(922582800, 3600, 3600, "CEST", Ghost(g))
        .step(941331600, 3600, 0, "CET", Ghost(g))
        .step(954032400, 3600, 3600, "CEST", Ghost(g))
        .step(972781200, 3600, 0, "CET", Ghost(g))
        .step(985482000, 3600, 3600, "CEST", Ghost(g))
        .step(1004230800, 3600, 0, "CET", Ghost(g))
        .step(1017536400, 3600, 3600, "CEST", Ghost(g))
        .step(1035680400, 3600, 0, "CET", Ghost(g))
        .step(1048986000, 3600, 3600, "CEST", Ghost(g))
        .step(1067130000, 3600, 0, "CET", Ghost(g))
        .step(1080435600, 3600, 3600, "CEST", Ghost(g))
        .step(1099184400, 3600, 0, "CET", Ghost(g))
        .step(1111885200, 3600, 3600, "CEST", Ghost(g))
        .step(1130634000, 3600, 0, "CET", Ghost(g))
        .step(1143334800, 3600, 3600, "CEST", Ghost(g))
        .step(1162083600, 3600, 0, "CET", Ghost(g))
        .step(1174784400, 3600, 3600, "CEST", Ghost(g))
        .step(1193533200, 3600, 0, "CET", Ghost(g))
        .step(1206838800, 3600, 3600, "CEST", Ghost(g))
        .step(1224982800, 3600, 0, "CET", Ghost(g))
        .step(1238288400, 3600, 3600, "CEST", Ghost(g))
        .step(1256432400, 3600, 0, "CET", Ghost(g))
        .step(1269738000, 3600, 3600, "CEST", Ghost(g))
        .step(1288486800, 3600, 0, "CET", Ghost(g))
        .step(1301187600, 3600, 3600, "CEST", Ghost(g))
        .step(1319936400, 3600, 0, "CET", Ghost(g))
        .step(1332637200, 3600, 3600, "CEST", Ghost(g))
        .step(1351386000, 3600, 0, "CET", Ghost(g))
        .step(1364691600, 3600, 3600, "CEST", Ghost(g))
        .step(1382835600, 3600, 0, "CET", Ghost(g))
        .step(1396141200, 3600, 3600, "CEST", Ghost(g))
        .step(1414285200, 3600, 0, "CET", Ghost(g))
        .step(1427590800, 3600, 3600, "CEST", Ghost(g))
        .step(1445734800, 3600, 0, "CET", Ghost(g))
        .step(1459040400, 3600, 3600, "CEST", Ghost(g))
        .step(1477789200, 3600, 0, "CET", Ghost(g))
        .step(1490490000, 3600, 3600, "CEST", Ghost(g))
        .step(1509238800, 3600, 0, "CET", Ghost(g))
        .step(1521939600, 3600, 3600, "CEST", Ghost(g))
        .step(1540688400, 3600, 0, "CET", Ghost(g))
        .step(1553994000, 3600, 3600, "CEST", Ghost(g))
        .step(1572138000, 3600, 0, "CET", Ghost(g))
        .step(1585443600, 3600, 3600, "CEST", Ghost(g))
        .step(1603587600, 3600, 0, "CET", Ghost(g))
        .step(1616893200, 3600, 3600, "CEST", Ghost(g))
        .step(1635642000, 3600, 0, "CET", Ghost(g))
        .step(1648342800, 3600, 3600, "CEST", Ghost(g))
        .step(1667091600, 3600, 0, "CET", Ghost(g))
        .step(1679792400, 3600, 3600, "CEST", Ghost(g))
        .step(1698541200, 3600, 0, "CET", Ghost(g))
        .step(1711846800, 3600, 3600, "CEST", Ghost(g))
        .step(1729990800, 3600, 0, "CET", Ghost(g))
        .step(1743296400, 3600, 3600, "CEST", Ghost(g))
        .step(1761440400, 3600, 0, "CET", Ghost(g))
        .step(1774746000, 3600, 3600, "CEST", Ghost(g))
        .step(1792890000, 3600, 0, "CET", Ghost(g))
        .step(1806195600, 3600, 3600, "CEST", Ghost(g))
        .step(1824944400, 3600, 0, "CET", Ghost(g))
        .step(1837645200, 3600, 3600, "CEST", Ghost(g))
        .step(1856394000, 3600, 0, "CET", Ghost(g))
        .step(1869094800, 3600, 3600, "CEST", Ghost(g))
        .step(1887843600, 3600, 0, "CET", Ghost(g))
        .step(1901149200, 3600, 3600, "CEST", Ghost(g))
        .step(1919293200, 3600, 0, "CET", Ghost(g))
        .step(1932598800, 3600, 3600, "CEST", Ghost(g))
        .step(1950742800, 3600, 0, "CET", Ghost(g))
        .step(1964048400, 3600, 3600, "CEST", Ghost(g))
        .step(1982797200, 3600, 0, "CET", Ghost(g))
        .step(1995498000, 3600, 3600, "CEST", Ghost(g))
        .step(2014246800, 3600, 0, "CET", Ghost(g))
        .step(2026947600, 3600, 3600, "CEST", Ghost(g))
        .step(2045696400, 3600, 0, "CET", Ghost(g))
        .step(2058397200, 3600, 3600, "CEST", Ghost(g))
        .step(2077146000, 3600, 0, "CET", Ghost(g))
        .step(2090451600, 3600, 3600, "CEST", Ghost(g))
        .step(2108595600, 3600, 0, "CET", Ghost(g))
        .step(2121901200, 3600, 3600, "CEST", Ghost(g))
        .step(2140045200, 3600, 0, "CET", Ghost(g))
        .finish(Ghost(g))
}

/// The zone `Europe/Prague`.
pub fn prague() -> (r: Tz)
    ensures
        r.wf(),
        r.zone_name() == "Europe/Prague"@,
        r.table() == tables::europe::prague(),
{
    let ghost g = tables::europe::prague_rows();
    FixedTimespanSet::begin("Europe/Prague", 3464, 0, "LMT", Ghost(g))
        .step(-3786829064, 3464, 0, "PMT", Ghost(g))
        .step(-2469401864, 3600, 0, "CET", Ghost(g))
        .step(-1693706400, 3600, 3600, "CEST", Ghost(g))
        .step(-1680483600, 3600, 0, "CET", Ghost(g))
        .step(-1663455600, 3600, 3600, "CEST", Ghost(g))
        .step(-1650150000, 3600, 0, "CET", Ghost(g))
        .step(-1632006000, 3600, 3600, "CEST", Ghost(g))
        .step(-1618700400, 3600, 0, "CET", Ghost(g))
        .step(-938905200, 3600, 3600, "CEST", Ghost(g))
        .step(-857257200, 3600, 0, "CET", Ghost(g))
        .step(-844556400, 3600, 3600, "CEST", Ghost(g))
        .step(-828226800, 3600, 0, "CET", Ghost(g))
        .step(-812502000, 3600, 3600, "CEST", Ghost(g))
        .step(-796777200, 3600, 0, "CET", Ghost(g))
        .step(-781052400, 3600, 3600, "CEST", Ghost(g))
        .step(-765327600, 3600, 0, "CET", Ghost(g))
        .step(-746578800, 3600, 3600, "CEST", Ghost(g))
        .step(-733359600, 3600, 0, "CET", Ghost(g))
        .step(-728517600, -3600, 3600, "GMT", Ghost(g))
        .step(-721260000, 3600, 0, "CET", Ghost(g))
        .step(-716425200, 3600, 3600, "CEST", Ghost(g))
        .step(-701910000, 3600, 0, "CET", Ghost(g))
        .step(-684975600, 3600, 3600, "CEST", Ghost(g))
        .step(-670460400, 3600, 0, "CET", Ghost(g))
        .step(-654217200, 3600, 3600, "CEST", Ghost(g))
        .step(-639010800, 3600, 0, "CET", Ghost(g))
        .step(291776400, 3600, 3600, "CEST", Ghost(g))
        .step(307501200, 3600, 0, "CET", Ghost(g))
        .step(323830800, 3600, 3600, "CEST", Ghost(g))
        .step(338950800, 3600, 0, "CET", Ghost(g))
        .step(354675600, 3600, 3600, "CEST", Ghost(g))
        .step(370400400, 3600, 0, "CET", Ghost(g))
        .step(386125200, 3600, 3600, "CEST", Ghost(g))
        .step(401850000, 3600, 0, "CET", Ghost(g))
        .step(417574800, 3600, 3600, "CEST", Ghost(g))
        .step(433299600, 3600, 0, "CET", Ghost(g))
        .step(449024400, 3600, 3600, "CEST", Ghost(g))
        .step(465354000, 3600, 0, "CET", Ghost(g))
        .step(481078800, 3600, 3600, "CEST", Ghost(g))
        .step(496803600, 3600, 0, "CET", Ghost(g))
        .step(512528400, 3600, 3600, "CEST", Ghost(g))
        .step(528253200, 3600, 0, "CET", Ghost(g))
        .step(543978000, 3600, 3600, "CEST", Ghost(g))
        .step(559702800, 3600, 0, "CET", Ghost(g))
        .step(575427600, 3600, 3600, "CEST", Ghost(g))
        .step(591152400, 3600, 0, "CET", Ghost(g))
        .step(606877200, 3600, 3600, "CEST", Ghost(g))
        .step(622602000, 3600, 0, "CET", Ghost(g))
        .step(638326800, 3600, 3600, "CEST", Ghost(g))
        .step(654656400, 3600, 0, "CET", Ghost(g))
        .step(670381200, 3600, 3600, "CEST", Ghost(g))
        .step(686106000, 3600, 0, "CET", Ghost(g))
        .step(701830800, 3600, 3600, "CEST", Ghost(g))
        .step(717555600, 3600, 0, "CET", Ghost(g))
        .step(733280400, 3600, 3600, "CEST", Ghost(g))
        .step(749005200, 3600, 0, "CET", Ghost(g))
        .step(764730000, 3600, 3600, "CEST", Ghost(g))
        .step(780454800, 3600, 0, "CET", Ghost(g))
        .step(796179600, 3600, 3600, "CEST", Ghost(g))
        .step(811904400, 3600, 0, "CET", Ghost(g))
        .step(828234000, 3600, 3600, "CEST", Ghost(g))
        .step(846378000, 3600, 0, "CET", Ghost(g))
        .step(859683600, 3600, 3600, "CEST", Ghost(g))
        .step(877827600, 3600, 0, "CET", Ghost(g))
        .step(891133200, 3600, 3600, "CEST", Ghost(g))
        .step(909277200, 3600, 0, "CET", Ghost(g))
        .step(922582800, 3600, 3600, "CEST", Ghost(g))
        .step(941331600, 3600, 0, "CET", Ghost(g))
        .step(954032400, 3600, 3600, "CEST", Ghost(g))
        .step(972781200, 3600, 0, "CET", Ghost(g))
        .step(985482000, 3600, 3600, "CEST", Ghost(g))
        .step(1004230800, 3600, 0, "CET", Ghost(g))
        .step(1017536400, 3600, 3600, "CEST", Ghost(g))
        .step(1035680400, 3600, 0, "CET", Ghost(g))
        .step(1048986000, 3600, 3600, "CEST", Ghost(g))
        .step(1067130000, 3600, 0, "CET", Ghost(g))
        .step(1080435600, 3600, 3600, "CEST", Ghost(g))
        .step(1099184400, 3600, 0, "CET", Ghost(g))
        .step(1111885200, 3600, 3600, "CEST", Ghost(g))
        .step(1130634000, 3600, 0, "CET", Ghost(g))
        .step(1143334800, 3600, 3600, "CEST", Ghost(g))
        .step(1162083600, 3600, 0, "CET", Ghost(g))
        .step(1174784400, 3600, 3600, "CEST", Ghost(g))
        .step(1193533200, 3600, 0, "CET", Ghost(g))
        .step(1206838800, 3600, 3600, "CEST", Ghost(g))
        .step(1224982800, 3600, 0, "CET", Ghost(g))
        .step(1238288400, 3600, 3600, "CEST", Ghost(g))
        .step(1256432400, 3600, 0, "CET", Ghost(g))
        .step(1269738000, 3600, 3600, "CEST", Ghost(g))
        .step(1288486800, 3600, 0, "CET", Ghost(g))
        .step(1301187600, 3600, 3600, "CEST", Ghost(g))
        .step(1319936400, 3600, 0, "CET", Ghost(g))
        .step(1332637200, 3600, 3600, "CEST", Ghost(g))
        .step(1351386000, 3600, 0, "CET", Ghost(g))
        .step(1364691600, 3600, 3600, "CEST", Ghost(g))
        .step(1382835600, 3600, 0, "CET", Ghost(g))
        .step(1396141200, 3600, 3600, "CEST", Ghost(g))
        .step(1414285200, 3600, 0, "CET", Ghost(g))
        .step(1427590800, 3600, 3600, "CEST", Ghost(g))
        .step(1445734800, 3600, 0, "CET", Ghost(g))
        .step(1459040400, 3600, 3600, "CEST", Ghost(g))
        .step(1477789200, 3600, 0, "CET", Ghost(g))
        .step(1490490000, 3600, 3600, "CEST", Ghost(g))
        .step(1509238800, 3600, 0, "CET", Ghost(g))
        .step(1521939600, 3600, 3600, "CEST", Ghost(g))
        .step(1540688400, 3600, 0, "CET", Ghost(g))
        .step(1553994000, 3600, 3600, "CEST", Ghost(g))
        .step(1572138000, 3600, 0, "CET", Ghost(g))
        .step(1585443600, 3600, 3600, "CEST", Ghost(g))
        .step(1603587600, 3600, 0, "CET", Ghost(g))
        .step(1616893200, 3600, 3600, "CEST", Ghost(g))
        .step(1635642000, 3600, 0, "CET", Ghost(g))
        .step(1648342800, 3600, 3600, "CEST", Ghost(g))
        .step(1667091600, 3600, 0, "CET", Ghost(g))
        .step(1679792400, 3600, 3600, "CEST", Ghost(g))
        .step(1698541200, 3600, 0, "CET", Ghost(g))
        .step(1711846800, 3600, 3600, "CEST", Ghost(g))
        .step(1729990800, 3600, 0, "CET", Ghost(g))
        .step(1743296400, 3600, 3600, "CEST", Ghost(g))
        .step(1761440400, 3600, 0, "CET", Ghost(g))
        .step(1774746000, 3600, 3600, "CEST", Ghost(g))
        .step(1792890000, 3600, 0, "CET", Ghost(g))
        .step(1806195600, 3600, 3600, "CEST", Ghost(g))
        .step(1824944400, 3600, 0, "CET", Ghost(g))
        .step(1837645200, 3600, 3600, "CEST", Ghost(g))
        .step(1856394000, 3600, 0, "CET", Ghost(g))
        .step(1869094800, 3600, 3600, "CEST", Ghost(g))
        .step(1887843600, 3600, 0, "CET", Ghost(g))
        .step(1901149200, 3600, 3600, "CEST", Ghost(g))
        .step(1919293200, 3600, 0, "CET", Ghost(g))
        .step(1932598800, 3600, 3600, "CEST", Ghost(g))
        .step(1950742800, 3600, 0, "CET", Ghost(g))
        .step(1964048400, 3600, 3600, "CEST", Ghost(g))
        .step(1982797200, 3600, 0, "CET", Ghost(g))
        .step(1995498000, 3600, 3600, "CEST", Ghost(g))
        .step(2014246800, 3600, 0, "CET", Ghost(g))
        .step(2026947600, 3600, 3600, "CEST", Ghost(g))
        .step(2045696400, 3600, 0, "CET", Ghost(g))
        .step(2058397200, 3600, 3600, "CEST", Ghost(g))
        .step(2077146000, 3600, 0, "CET", Ghost(g))
        .step(2090451600, 3600, 3600, "CEST", Ghost(g))
        .step(2108595600, 3600, 0, "CET", Ghost(g))
        .step(2121901200, 3600, 3600, "CEST", Ghost(g))
        .step(2140045200, 3600, 0, "CET", Ghost(g))
        .finish(Ghost(g))
}

/// The zone `Europe/Riga`.
pub fn riga() -> (r: Tz)
    ensures
        r.wf(),
        r.zone_name() == "Europe/Riga"@,
        r.table() == tables::europe::riga(),
{
    let ghost g = tables::europe::riga_rows();
    FixedTimespanSet::begin("Europe/Riga", 5794, 0, "LMT", Ghost(g))
        .step(-2840146594, 5794, 0, "RMT", Ghost(g))
        .step(-1632008194, 5794, 3600, "LST", Ghost(g))
        .step(-1618702594, 5794, 0, "RMT", Ghost(g))
        .step(-1601681794, 5794, 3600, "LST", Ghost(g))
        .step(-1597275394, 5794, 0, "RMT", Ghost(g))
        .step(-1377308194, 7200, 0, "EET", Ghost(g))
        .step(-928029600, 10800, 0, "MSK", Ghost(g))
        .step(-899521200, 3600, 3600, "CEST", Ghost(g))
        .step(-857257200, 3600, 0, "CET", Ghost(g))
        .step(-844556400, 3600, 3600, "CEST", Ghost(g))
        .step(-828226800, 3600, 0, "CET", Ghost(g))
        .step(-812502000, 3600, 3600, "CEST", Ghost(g))
        .step(-796777200, 3600, 0, "CET", Ghost(g))
        .step(-795834000, 10800, 0, "MSK", Ghost(g))
        .step(354920400, 10800, 3600, "MSD", Ghost(g))
        .step(370728000, 10800, 0, "MSK", Ghost(g))
        .step(386456400, 10800, 3600, "MSD", Ghost(g))
        .step(402264000, 10800, 0, "MSK", Ghost(g))
        .step(417992400, 10800, 3600, "MSD", Ghost(g))
        .step(433800000, 10800, 0, "MSK", Ghost(g))
        .step(449614800, 10800, 3600, "MSD", Ghost(g))
        .step(465346800, 10800, 0, "MSK", Ghost(g))
        .step(481071600, 10800, 3600, "MSD", Ghost(g))
        .step(496796400, 10800, 0, "MSK", Ghost(g))
        .step(512521200, 10800, 3600, "MSD", Ghost(g))
        .step(528246000, 10800, 0, "MSK", Ghost(g))
        .step(543970800, 10800, 3600, "MSD", Ghost(g))
        .step(559695600, 10800, 0, "MSK", Ghost(g))
        .step(575420400, 10800, 3600, "MSD", Ghost(g))
        .step(591145200, 10800, 0, "MSK", Ghost(g))
        .step(606870000, 7200, 3600, "EEST", Ghost(g))
        .step(622598400, 7200, 0, "EET", Ghost(g))
        .step(638323200, 7200, 3600, "EEST", Ghost(g))
        .step(654652800, 7200, 0, "EET", Ghost(g))
        .step(670377600, 7200, 3600, "EEST", Ghost(g))
        .step(686102400, 7200, 0, "EET", Ghost(g))
        .step(701827200, 7200, 3600, "EEST", Ghost(g))
        .step(717552000, 7200, 0, "EET", Ghost(g))
        .step(733276800, 7200, 3600, "EEST", Ghost(g))
        .step(749001600, 7200, 0, "EET", Ghost(g))
        .step(764726400, 7200, 3600, "EEST", Ghost(g))
        .step(780451200, 7200, 0, "EET", Ghost(g))
        .step(796176000, 7200, 3600, "EEST", Ghost(g))
        .step(811900800, 7200, 0, "EET", Ghost(g))
        .step(828230400, 7200, 3600, "EEST", Ghost(g))
        .step(843955200, 7200, 0, "EET", Ghost(g))
        .step(859683600, 7200, 3600, "EEST", Ghost(g))
        .step(877827600, 7200, 0, "EET", Ghost(g))
        .step(891133200, 7200, 3600, "EEST", Ghost(g))
        .step(909277200, 7200, 0, "EET", Ghost(g))
        .step(922582800, 7200, 3600, "EEST", Ghost(g))
        .step(941331600, 7200, 0, "EET", Ghost(g))
        .step(985482000, 7200, 3600, "EEST", Ghost(g))
        .step(1004230800, 7200, 0, "EET", Ghost(g))
        .step(1017536400, 7200, 3600, "EEST", Ghost(g))
        .step(1035680400, 7200, 0, "EET", Ghost(g))
        .step(1048986000, 7200, 3600, "EEST", Ghost(g))
        .step(1067130000, 7200, 0, "EET", Ghost(g))
        .step(1080435600, 7200, 3600, "EEST", Ghost(g))
        .step(1099184400, 7200, 0, "EET", Ghost(g))
        .step(1111885200, 7200, 3600, "EEST", Ghost(g))
        .step(1130634000, 7200, 0, "EET", Ghost(g))
        .step(1143334800, 7200, 3600, "EEST", Ghost(g))
        .step(1162083600, 7200, 0, "EET", Ghost(g))
        .step(1174784400, 7200, 3600, "EEST", Ghost(g))
        .step(1193533200, 7200, 0, "EET", Ghost(g))
        .step(1206838800, 7200, 3600, "EEST", Ghost(g))
        .step(1224982800, 7200, 0, "EET", Ghost(g))
        .step(1238288400, 7200, 3600, "EEST", Ghost(g))
        .step(1256432400, 7200, 0, "EET", Ghost(g))
        .step(1269738000, 7200, 3600, "EEST", Ghost(g))
        .step(1288486800, 7200, 0, "EET", Ghost(g))
        .step(1301187600, 7200, 3600, "EEST", Ghost(g))
        .step(1319936400, 7200, 0, "EET", Ghost(g))
        .step(1332637200, 7200, 3600, "EEST", Ghost(g))
        .step(1351386000, 7200, 0, "EET", Ghost(g))
        .step(1364691600, 7200, 3600, "EEST", Ghost(g))
        .step(1382835600, 7200, 0, "EET", Ghost(g))
        .step(1396141200, 7200, 3600, "EEST", Ghost(g))
        .step(1414285200, 7200, 0, "EET", Ghost(g))
        .step(1427590800, 7200, 3600, "EEST", Ghost(g))
        .step(1445734800, 7200, 0, "EET", Ghost(g))
        .step(1459040400, 7200, 3600, "EEST", Ghost(g))
        .step(1477789200, 7200, 0, "EET", Ghost(g))
        .step(1490490000, 7200, 3600, "EEST", Ghost(g))
        .step(1509238800, 7200, 0, "EET", Ghost(g))
        .step(1521939600, 7200, 3600, "EEST", Ghost(g))
        .step(1540688400, 7200, 0, "EET", Ghost(g))
        .step(1553994000, 7200, 3600, "EEST", Ghost(g))
        .step(1572138000, 7200, 0, "EET", Ghost(g))
        .step(1585443600, 7200, 3600, "EEST", Ghost(g))
        .step(1603587600, 7200, 0, "EET", Ghost(g))
        .step(1616893200, 7200, 3600, "EEST", Ghost(g))
        .step(1635642000, 7200, 0, "EET", Ghost(g))
        .step(1648342800, 7200, 3600, "EEST", Ghost(g))
        .step(1667091600, 7200, 0, "EET", Ghost(g))
        .step(1679792400, 7200, 3600, "EEST", Ghost(g))
        .step(1698541200, 7200, 0, "EET", Ghost(g))
        .step(1711846800, 7200, 3600, "EEST", Ghost(g))
        .step(1729990800, 7200, 0, "EET", Ghost(g))
        .step(1743296400, 7200, 3600, "EEST", Ghost(g))
        .step(1761440400, 7200, 0, "EET", Ghost(g))
        .step(1774746000, 7200, 3600, "EEST", Ghost(g))
        .step(1792890000, 7200, 0, "EET", Ghost(g))
        .step(1806195600, 7200, 3600, "EEST", Ghost(g))
        .step(1824944400, 7200, 0, "EET", Ghost(g))
        .step(1837645200, 7200, 3600, "EEST", Ghost(g))
        .step(1856394000, 7200, 0, "EET", Ghost(g))
        .step(1869094800, 7200, 3600, "EEST", Ghost(g))
        .step(1887843600, 7200, 0, "EET", Ghost(g))
        .step(1901149200, 7200, 3600, "EEST", Ghost(g))
        .step(1919293200, 7200, 0, "EET", Ghost(g))
        .step(1932598800, 7200, 3600, "EEST", Ghost(g))
        .step(1950742800, 7200, 0, "EET", Ghost(g))
        .step(1964048400, 7200, 3600, "EEST", Ghost(g))
        .step(1982797200, 7200, 0, "EET", Ghost(g))
        .step(1995498000, 7200, 3600, "EEST", Ghost(g))
        .step(2014246800, 7200, 0, "EET", Ghost(g))
        .step(2026947600, 7200, 3600, "EEST", Ghost(g))
        .step(2045696400, 7200, 0, "EET", Ghost(g))
        .step(2058397200, 7200, 3600, "EEST", Ghost(g))
        .step(2077146000, 7200, 0, "EET", Ghost(g))
        .step(2090451600, 7200, 3600, "EEST", Ghost(g))
        .step(2108595600, 7200, 0, "EET", Ghost(g))
        .step(2121901200, 7200, 3600, "EEST", Ghost(g))
        .step(2140045200, 7200, 0, "EET", Ghost(g))
        .finish(Ghost(g))
}

/// The zone `Europe/Rome`.
pub fn rome() -> (r: Tz)
    ensures
        r.wf(),
        r.zone_name() == "Europe/Rome"@,
        r.table() == tables::europe::rome(),
{
    let ghost g = tables::europe::rome_rows();
    FixedTimespanSet::begin("Europe/Rome", 2996, 0, "LMT", Ghost(g))
        .step(-3252098996, 2996, 0, "RMT", Ghost(g))
        .step(-2403565200, 3600, 0, "CET", Ghost(g))
        .step(-1690765200, 3600, 3600, "CEST", Ghost(g))
        .step(-1680487200, 3600, 0, "CET", Ghost(g))
        .step(-1664758800, 3600, 3600, "CEST", Ghost(g))
        .step(-1648951200, 3600, 0, "CET", Ghost(g))
        .step(-1635123600, 3600, 3600, "CEST", Ghost(g))
        .step(-1616896800, 3600, 0, "CET", Ghost(g))
        .step(-1604278800, 3600, 3600, "CEST", Ghost(g))
        .step(-1585533600, 3600, 0, "CET", Ghost(g))
        .step(-1571014800, 3600, 3600, "CEST", Ghost(g))
        .step(-1555293600, 3600, 0, "CET", Ghost(g))
        .step(-932432400, 3600, 3600, "CEST", Ghost(g))
        .step(-857257200, 3600, 0, "CET", Ghost(g))
        .step(-844556400, 3600, 3600, "CEST", Ghost(g))
        .step(-828226800, 3600, 0, "CET", Ghost(g))
        .step(-812502000, 3600, 3600, "CEST", Ghost(g))
        .step(-798073200, 3600, 0, "CET", Ghost(g))
        .step(-781052400, 3600, 3600, "CEST", Ghost(g))
        .step(-766717200, 3600, 0, "CET", Ghost(g))
        .step(-750898800, 3600, 3600, "CEST", Ghost(g))
        .step(-733359600, 3600, 0, "CET", Ghost(g))
        .step(-719456400, 3600, 3600, "CEST", Ghost(g))
        .step(-701917200, 3600, 0, "CET", Ghost(g))
        .step(-689209200, 3600, 3600, "CEST", Ghost(g))
        .step(-670460400, 3600, 0, "CET", Ghost(g))
        .step(-114051600, 3600, 3600, "CEST", Ghost(g))
        .step(-103168800, 3600, 0, "CET", Ghost(g))
        .step(-81997200, 3600, 3600, "CEST", Ghost(g))
        .step(-71715600, 3600, 0, "CET", Ghost(g))
        .step(-50547600, 3600, 3600, "CEST", Ghost(g))
        .step(-40266000, 3600, 0, "CET", Ghost(g))
        .step(-18493200, 3600, 3600, "CEST", Ghost(g))
        .step(-8211600, 3600, 0, "CET", Ghost(g))
        .step(12956400, 3600, 3600, "CEST", Ghost(g))
        .step(23238000, 3600, 0, "CET", Ghost(g))
        .step(43801200, 3600, 3600, "CEST", Ghost(g))
        .step(54687600, 3600, 0, "CET", Ghost(g))
        .step(75855600, 3600, 3600, "CEST", Ghost(g))
        .step(86742000, 3600, 0, "CET", Ghost(g))
        .step(107910000, 3600, 3600, "CEST", Ghost(g))
        .step(118191600, 3600, 0, "CET", Ghost(g))
        .step(138754800, 3600, 3600, "CEST", Ghost(g))
        .step(149641200, 3600, 0, "CET", Ghost(g))
        .step(170809200, 3600, 3600, "CEST", Ghost(g))
        .step(181090800, 3600, 0, "CET", Ghost(g))
        .step(202258800, 3600, 3600, "CEST", Ghost(g))
        .step(212540400, 3600, 0, "CET", Ghost(g))
        .step(233103600, 3600, 3600, "CEST", Ghost(g))
        .step(243990000, 3600, 0, "CET", Ghost(g))
        .step(265158000, 3600, 3600, "CEST", Ghost(g))
        .step(276044400, 3600, 0, "CET", Ghost(g))
        .step(296607600, 3600, 3600, "CEST", Ghost(g))
        .step(307494000, 3600, 0, "CET", Ghost(g))
        .step(323830800, 3600, 3600, "CEST", Ghost(g))
        .step(338950800, 3600, 0, "CET", Ghost(g))
        .step(354675600, 3600, 3600, "CEST", Ghost(g))
        .step(370400400, 3600, 0, "CET", Ghost(g))
        .step(386125200, 3600, 3600, "CEST", Ghost(g))
        .step(401850000, 3600, 0, "CET", Ghost(g))
        .step(417574800, 3600, 3600, "CEST", Ghost(g))
        .step(433299600, 3600, 0, "CET", Ghost(g))
        .step(449024400, 3600, 3600, "CEST", Ghost(g))
        .step(465354000, 3600, 0, "CET", Ghost(g))
        .step(481078800, 3600, 3600, "CEST", Ghost(g))
        .step(496803600, 3600, 0, "CET", Ghost(g))
        .step(512528400, 3600, 3600, "CEST", Ghost(g))
        .step(528253200, 3600, 0, "CET", Ghost(g))
        .step(543978000, 3600, 3600, "CEST", Ghost(g))
        .step(559702800, 3600, 0, "CET", Ghost(g))
        .step(575427600, 3600, 3600, "CEST", Ghost(g))
        .step(591152400, 3600, 0, "CET", Ghost(g))
        .step(606877200, 3600, 3600, "CEST", Ghost(g))
        .step(622602000, 3600, 0, "CET", Ghost(g))
        .step(638326800, 3600, 3600, "CEST", Ghost(g))
        .step(654656400, 3600, 0, "CET", Ghost(g))
        .step(670381200, 3600, 3600, "CEST", Ghost(g))
        .step(686106000, 3600, 0, "CET", Ghost(g))
        .step(701830800, 3600, 3600, "CEST", Ghost(g))
        .step(717555600, 3600, 0, "CET", Ghost(g))
        .step(733280400, 3600, 3600, "CEST", Ghost(g))
        .step(749005200, 3600, 0, "CET", Ghost(g))
        .step(764730000, 3600, 3600, "CEST", Ghost(g))
        .step(780454800, 3600, 0, "CET", Ghost(g))
        .step(796179600, 3600, 3600, "CEST", Ghost(g))
        .step(811904400, 3600, 0, "CET", Ghost(g))
        .step(828234000, 3600, 3600, "CEST", Ghost(g))
        .step(846378000, 3600, 0, "CET", Ghost(g))
        .step(859683600, 3600, 3600, "CEST", Ghost(g))
        .step(877827600, 3600, 0, "CET", Ghost(g))
        .step(891133200, 3600, 3600, "CEST", Ghost(g))
        .step(909277200, 3600, 0, "CET", Ghost(g))
        .step(922582800, 3600, 3600, "CEST", Ghost(g))
        .step(941331600, 3600, 0, "CET", Ghost(g))
        .step(954032400, 3600, 3600, "CEST", Ghost(g))
        .step(972781200, 3600, 0, "CET", Ghost(g))
        .step(985482000, 3600, 3600, "CEST", Ghost(g))
        .step(1004230800, 3600, 0, "CET", Ghost(g))
        .step(1017536400, 3600, 3600, "CEST", Ghost(g))
        .step(1035680400, 3600, 0, "CET", Ghost(g))
        .step(1048986000, 3600, 3600, "CEST", Ghost(g))
        .step(1067130000, 3600, 0, "CET", Ghost(g))
        .step(1080435600, 3600, 3600, "CEST", Ghost(g))
        .step(1099184400, 3600, 0, "CET", Ghost(g))
        .step(1111885200, 3600, 3600, "CEST", Ghost(g))
        .step(1130634000, 3600, 0, "CET", Ghost(g))
        .step(1143334800, 3600, 3600, "CEST", Ghost(g))
        .step(1162083600, 3600, 0, "CET", Ghost(g))
        .step(1174784400, 3600, 3600, "CEST", Ghost(g))
        .step(1193533200, 3600, 0, "CET", Ghost(g))
        .step(1206838800, 3600, 3600, "CEST", Ghost(g))
        .step(1224982800, 3600, 0, "CET", Ghost(g))
        .step(1238288400, 3600, 3600, "CEST", Ghost(g))
        .step(1256432400, 3600, 0, "CET", Ghost(g))
        .step(1269738000, 3600, 3600, "CEST", Ghost(g))
        .step(1288486800, 3600, 0, "CET", Ghost(g))
        .step(1301187600, 3600, 3600, "CEST", Ghost(g))
        .step(1319936400, 3600, 0, "CET", Ghost(g))
        .step(1332637200, 3600, 3600, "CEST", Ghost(g))
        .step(1351386000, 3600, 0, "CET", Ghost(g))
        .step(1364691600, 3600, 3600, "CEST", Ghost(g))
        .step(1382835600, 3600, 0, "CET", Ghost(g))
        .step(1396141200, 3600, 3600, "CEST", Ghost(g))
        .step(1414285200, 3600, 0, "CET", Ghost(g))
        .step(1427590800, 3600, 3600, "CEST", Ghost(g))
        .step(1445734800, 3600, 0, "CET", Ghost(g))
        .step(1459040400, 3600, 3600, "CEST", Ghost(g))
        .step(1477789200, 3600, 0, "CET", Ghost(g))
        .step(1490490000, 3600, 3600, "CEST", Ghost(g))
        .step(1509238800, 3600, 0, "CET", Ghost(g))
        .step(1521939600, 3600, 3600, "CEST", Ghost(g))
        .step(1540688400, 3600, 0, "CET", Ghost(g))
        .step(1553994000, 3600, 3600, "CEST", Ghost(g))
        .step(1572138000, 3600, 0, "CET", Ghost(g))
        .step(1585443600, 3600, 3600, "CEST", Ghost(g))
        .step(1603587600, 3600, 0, "CET", Ghost(g))
        .step(1616893200, 3600, 3600, "CEST", Ghost(g))
        .step(1635642000, 3600, 0, "CET", Ghost(g))
        .step(1648342800, 3600, 3600, "CEST", Ghost(g))
        .step(1667091600, 3600, 0, "CET", Ghost(g))
        .step(1679792400, 3600, 3600, "CEST", Ghost(g))
        .step(1698541200, 3600, 0, "CET", Ghost(g))
        .step(1711846800, 3600, 3600, "CEST", Ghost(g))
        .step(1729990800, 3600, 0, "CET", Ghost(g))
        .step(1743296400, 3600, 3600, "CEST", Ghost(g))
        .step(1761440400, 3600, 0, "CET", Ghost(g))
        .step(1774746000, 3600, 3600, "CEST", Ghost(g))
        .step(1792890000, 3600, 0, "CET", Ghost(g))
        .step(1806195600, 3600, 3600, "CEST", Ghost(g))
        .step(1824944400, 3600, 0, "CET", Ghost(g))
        .step(1837645200, 3600, 3600, "CEST", Ghost(g))
        .step(1856394000, 3600, 0, "CET", Ghost(g))
        .step(1869094800, 3600, 3600, "CEST", Ghost(g))
        .step(1887843600, 3600, 0, "CET", Ghost(g))
        .step(1901149200, 3600, 3600, "CEST", Ghost(g))
        .step(1919293200, 3600, 0, "CET", Ghost(g))
        .step(1932598800, 3600, 3600, "CEST", Ghost(g))
        .step(1950742800, 3600, 0, "CET", Ghost(g))
        .step(1964048400, 3600, 3600, "CEST", Ghost(g))
        .step(1982797200, 3600, 0, "CET", Ghost(g))
        .step(1995498000, 3600, 3600, "CEST", Ghost(g))
        .step(2014246800, 3600, 0, "CET", Ghost(g))
        .step(2026947600, 3600, 3600, "CEST", Ghost(g))
        .step(2045696400, 3600, 0, "CET", Ghost(g))
        .step(2058397200, 3600, 3600, "CEST", Ghost(g))
        .step(2077146000, 3600, 0, "CET", Ghost(g))
        .step(2090451600, 3600, 3600, "CEST", Ghost(g))
        .step(2108595600, 3600, 0, "CET", Ghost(g))
        .step(2121901200, 3600, 3600, "CEST", Ghost(g))
        .step(2140045200, 3600, 0, "CET", Ghost(g))
        .finish(Ghost(g))
}

/// The zone `Europe/Samara`.
pub fn samara() -> (r: Tz)
    ensures
        r.wf(),
        r.zone_name() == "Europe/Samara"@,
        r.table() == tables::europe::samara(),
{
    let ghost g = tables::europe::samara_rows();
    FixedTimespanSet::begin("Europe/Samara", 12020, 0, "LMT", Ghost(g))
        .step(-1593820800, 10800, 0, "+03", Ghost(g))
        .step(-1247540400, 14400, 0, "+04", Ghost(g))
        .step(354916800, 14400, 3600, "+05", Ghost(g))
        .step(370724400, 14400, 0, "+04", Ghost(g))
        .step(386452800, 14400, 3600, "+05", Ghost(g))
        .step(402260400, 14400, 0, "+04", Ghost(g))
        .step(417988800, 14400, 3600, "+05", Ghost(g))
        .step(433796400, 14400, 0, "+04", Ghost(g))
        .step(449611200, 14400, 3600, "+05", Ghost(g))
        .step(465343200, 14400, 0, "+04", Ghost(g))
        .step(481068000, 14400, 3600, "+05", Ghost(g))
        .step(496792800, 14400, 0, "+04", Ghost(g))
        .step(512517600, 14400, 3600, "+05", Ghost(g))
        .step(528242400, 14400, 0, "+04", Ghost(g))
        .step(543967200, 14400, 3600, "+05", Ghost(g))
        .step(559692000, 14400, 0, "+04", Ghost(g))
        .step(575416800, 14400, 3600, "+05", Ghost(g))
        .step(591141600, 14400, 0, "+04", Ghost(g))
        .step(606866400, 10800, 3600, "+04", Ghost(g))
        .step(622594800, 10800, 0, "+03", Ghost(g))
        .step(638319600, 10800, 3600, "+04", Ghost(g))
        .step(654649200, 10800, 0, "+03", Ghost(g))
        .step(670374000, 7200, 3600, "+03", Ghost(g))
        .step(686102400, 10800, 0, "+03", Ghost(g))
        .step(687916800, 14400, 0, "+04", Ghost(g))
        .step(701820000, 14400, 3600, "+05", Ghost(g))
        .step(717544800, 14400, 0, "+04", Ghost(g))
        .step(733269600, 14400, 3600, "+05", Ghost(g))
        .step(748994400, 14400, 0, "+04", Ghost(g))
        .step(764719200, 14400, 3600, "+05", Ghost(g))
        .step(780444000, 14400, 0, "+04", Ghost(g))
        .step(796168800, 14400, 3600, "+05", Ghost(g))
        .step(811893600, 14400, 0, "+04", Ghost(g))
        .step(828223200, 14400, 3600, "+05", Ghost(g))
        .step(846367200, 14400, 0, "+04", Ghost(g))
        .step(859672800, 14400, 3600, "+05", Ghost(g))
        .step(877816800, 14400, 0, "+04", Ghost(g))
        .step(891122400, 14400, 3600, "+05", Ghost(g))
        .step(909266400, 14400, 0, "+04", Ghost(g))
        .step(922572000, 14400, 3600, "+05", Ghost(g))
        .step(941320800, 14400, 0, "+04", Ghost(g))
        .step(954021600, 14400, 3600, "+05", Ghost(g))
        .step(972770400, 14400, 0, "+04", Ghost(g))
        .step(985471200, 14400, 3600, "+05", Ghost(g))
        .step(1004220000, 14400, 0, "+04", Ghost(g))
        .step(1017525600, 14400, 3600, "+05", Ghost(g))
        .step(1035669600, 14400, 0, "+04", Ghost(g))
        .step(1048975200, 14400, 3600, "+05", Ghost(g))
        .step(1067119200, 14400, 0, "+04", Ghost(g))
        .step(1080424800, 14400, 3600, "+05", Ghost(g))
        .step(1099173600, 14400, 0, "+04", Ghost(g))
        .step(1111874400, 14400, 3600, "+05", Ghost(g))
        .step(1130623200, 14400, 0, "+04", Ghost(g))
        .step(1143324000, 14400, 3600, "+05", Ghost(g))
        .step(1162072800, 14400, 0, "+04", Ghost(g))
        .step(1174773600, 14400, 3600, "+05", Ghost(g))
        .step(1193522400, 14400, 0, "+04", Ghost(g))
        .step(1206828000, 14400, 3600, "+05", Ghost(g))
        .step(1224972000, 14400, 0, "+04", Ghost(g))
        .step(1238277600, 14400, 3600, "+05", Ghost(g))
        .step(1256421600, 14400, 0, "+04", Ghost(g))
        .step(1269727200, 10800, 3600, "+04", Ghost(g))
        .step(1288479600, 10800, 0, "+03", Ghost(g))
        .step(1301180400, 14400, 0, "+04", Ghost(g))
        .step(2147483647, 14400, 0, "+04", Ghost(g))
        .finish(Ghost(g))
}

/// The zone `Europe/San_Marino`.
pub fn san_marino() -> (r: Tz)
    ensures
        r.wf(),
        r.zone_name() == "Europe/San_Marino"@,
        r.table() == tables::europe::san_marino(),
{
    let ghost g = tables::europe::san_marino_rows();
    FixedTimespanSet::begin("Europe/San_Marino", 2996, 0, "LMT", Ghost(g))
        .step(-3252098996, 2996, 0, "RMT", Ghost(g))
        .step(-2403565200, 3600, 0, "CET", Ghost(g))
        .step(-1690765200, 3600, 3600, "CEST", Ghost(g))
        .step(-1680487200, 3600, 0, "CET", Ghost(g))
        .step(-1664758800, 3600, 3600, "CEST", Ghost(g))
        .step(-1648951200, 3600, 0, "CET", Ghost(g))
        .step(-1635123600, 3600, 3600, "CEST", Ghost(g))
        .step(-1616896800, 3600, 0, "CET", Ghost(g))
        .step(-1604278800, 3600, 3600, "CEST", Ghost(g))
        .step(-1585533600, 3600, 0, "CET", Ghost(g))
        .step(-1571014800, 3600, 3600, "CEST", Ghost(g))
        .step(-1555293600, 3600, 0, "CET", Ghost(g))
        .step(-932432400, 3600, 3600, "CEST", Ghost(g))
        .step(-857257200, 3600, 0, "CET", Ghost(g))
        .step(-844556400, 3600, 3600, "CEST", Ghost(g))
        .step(-828226800, 3600, 0, "CET", Ghost(g))
        .step(-812502000, 3600, 3600, "CEST", Ghost(g))
        .step(-798073200, 3600, 0, "CET", Ghost(g))
        .step(-781052400, 3600, 3600, "CEST", Ghost(g))
        .step(-766717200, 3600, 0, "CET", Ghost(g))
        .step(-750898800, 3600, 3600, "CEST", Ghost(g))
        .step(-733359600, 3600, 0, "CET", Ghost(g))
        .step(-719456400, 3600, 3600, "CEST", Ghost(g))
        .step(-701917200, 3600, 0, "CET", Ghost(g))
        .step(-689209200, 3600, 3600, "CEST", Ghost(g))
        .step(-670460400, 3600, 0, "CET", Ghost(g))
        .step(-114051600, 3600, 3600, "CEST", Ghost(g))
        .step(-103168800, 3600, 0, "CET", Ghost(g))
        .step(-81997200, 3600, 3600, "CEST", Ghost(g))
        .step(-71715600, 3600, 0, "CET", Ghost(g))
        .step(-50547600, 3600, 3600, "CEST", Ghost(g))
        .step(-40266000, 3600, 0, "CET", Ghost(g))
        .step(-18493200, 3600, 3600, "CEST", Ghost(g))
        .step(-8211600, 3600, 0, "CET", Ghost(g))
        .step(12956400, 3600, 3600, "CEST", Ghost(g))
        .step(23238000, 3600, 0, "CET", Ghost(g))
        .step(43801200, 3600, 3600, "CEST", Ghost(g))
        .step(54687600, 3600, 0, "CET", Ghost(g))
        .step(75855600, 3600, 3600, "CEST", Ghost(g))
        .step(86742000, 3600, 0, "CET", Ghost(g))
        .step(107910000, 3600, 3600, "CEST", Ghost(g))
        .step(118191600, 3600, 0, "CET", Ghost(g))
        .step(138754800, 3600, 3600, "CEST", Ghost(g))
        .step(149641200, 3600, 0, "CET", Ghost(g))
        .step(170809200, 3600, 3600, "CEST", Ghost(g))
        .step(181090800, 3600, 0, "CET", Ghost(g))
        .step(202258800, 3600, 3600, "CEST", Ghost(g))
        .step(212540400, 3600, 0, "CET", Ghost(g))
        .step(233103600, 3600, 3600, "CEST", Ghost(g))
        .step(243990000, 3600, 0, "CET", Ghost(g))
        .step(265158000, 3600, 3600, "CEST", Ghost(g))
        .step(276044400, 3600, 0, "CET", Ghost(g))
        .step(296607600, 3600, 3600, "CEST", Ghost(g))
        .step(307494000, 3600, 0, "CET", Ghost(g))
        .step(323830800, 3600, 3600, "CEST", Ghost(g))
        .step(338950800, 3600, 0, "CET", Ghost(g))
        .step(354675600, 3600, 3600, "CEST", Ghost(g))
        .step(370400400, 3600, 0, "CET", Ghost(g))
        .step(386125200, 3600, 3600, "CEST", Ghost(g))
        .step(401850000, 3600, 0, "CET", Ghost(g))
        .step(417574800, 3600, 3600, "CEST", Ghost(g))
        .step(433299600, 3600, 0, "CET", Ghost(g))
        .step(449024400, 3600, 3600, "CEST", Ghost(g))
        .step(465354000, 3600, 0, "CET", Ghost(g))
        .step(481078800, 3600, 3600, "CEST", Ghost(g))
        .step(496803600, 3600, 0, "CET", Ghost(g))
        .step(512528400, 3600, 3600, "CEST", Ghost(g))
        .step(528253200, 3600, 0, "CET", Ghost(g))
        .step(543978000, 3600, 3600, "CEST", Ghost(g))
        .step(559702800, 3600, 0, "CET", Ghost(g))
        .step(575427600, 3600, 3600, "CEST", Ghost(g))
        .step(591152400, 3600, 0, "CET", Ghost(g))
        .step(606877200, 3600, 3600, "CEST", Ghost(g))
        .step(622602000, 3600, 0, "CET", Ghost(g))
        .step(638326800, 3600, 3600, "CEST", Ghost(g))
        .step(654656400, 3600, 0, "CET", Ghost(g))
        .step(670381200, 3600, 3600, "CEST", Ghost(g))
        .step(686106000, 3600, 0, "CET", Ghost(g))
        .step(701830800, 3600, 3600, "CEST", Ghost(g))
        .step(717555600, 3600, 0, "CET", Ghost(g))
        .step(733280400, 3600, 3600, "CEST", Ghost(g))
        .step(749005200, 3600, 0, "CET", Ghost(g))
        .step(764730000, 3600, 3600, "CEST", Ghost(g))
        .step(780454800, 3600, 0, "CET", Ghost(g))
        .step(796179600, 3600, 3600, "CEST", Ghost(g))
        .step(811904400, 3600, 0, "CET", Ghost(g))
        .step(828234000, 3600, 3600, "CEST", Ghost(g))
        .step(846378000, 3600, 0, "CET", Ghost(g))
        .step(859683600, 3600, 3600, "CEST", Ghost(g))
        .step(877827600, 3600, 0, "CET", Ghost(g))
        .step(891133200, 3600, 3600, "CEST", Ghost(g))
        .step(909277200, 3600, 0, "CET", Ghost(g))
        .step(922582800, 3600, 3600, "CEST", Ghost(g))
        .step(941331600, 3600, 0, "CET", Ghost(g))
        .step(954032400, 3600, 3600, "CEST", Ghost(g))
        .step(972781200, 3600, 0, "CET", Ghost(g))
        .step(985482000, 3600, 3600, "CEST", Ghost(g))
        .step(1004230800, 3600, 0, "CET", Ghost(g))
        .step(1017536400, 3600, 3600, "CEST", Ghost(g))
        .step(1035680400, 3600, 0, "CET", Ghost(g))
        .step(1048986000, 3600, 3600, "CEST", Ghost(g))
        .step(1067130000, 3600, 0, "CET", Ghost(g))
        .step(1080435600, 3600, 3600, "CEST", Ghost(g))
        .step(1099184400, 3600, 0, "CET", Ghost(g))
        .step(1111885200, 3600, 3600, "CEST", Ghost(g))
        .step(1130634000, 3600, 0, "CET", Ghost(g))
        .step(1143334800, 3600, 3600, "CEST", Ghost(g))
        .step(1162083600, 3600, 0, "CET", Ghost(g))
        .step(1174784400, 3600, 3600, "CEST", Ghost(g))
        .step(1193533200, 3600, 0, "CET", Ghost(g))
        .step(1206838800, 3600, 3600, "CEST", Ghost(g))
        .step(1224982800, 3600, 0, "CET", Ghost(g))
        .step(1238288400, 3600, 3600, "CEST", Ghost(g))
        .step(1256432400, 3600, 0, "CET", Ghost(g))
        .step(1269738000, 3600, 3600, "CEST", Ghost(g))
        .step(1288486800, 3600, 0, "CET", Ghost(g))
        .step(1301187600, 3600, 3600, "CEST", Ghost(g))
        .step(1319936400, 3600, 0, "CET", Ghost(g))
        .step(1332637200, 3600, 3600, "CEST", Ghost(g))
        .step(1351386000, 3600, 0, "CET", Ghost(g))
        .step(1364691600, 3600, 3600, "CEST", Ghost(g))
        .step(1382835600, 3600, 0, "CET", Ghost(g))
        .step(1396141200, 3600, 3600, "CEST", Ghost(g))
        .step(1414285200, 3600, 0, "CET", Ghost(g))
        .step(1427590800, 3600, 3600, "CEST", Ghost(g))
        .step(1445734800, 3600, 0, "CET", Ghost(g))
        .step(1459040400, 3600, 3600, "CEST", Ghost(g))
        .step(1477789200, 3600, 0, "CET", Ghost(g))
        .step(1490490000, 3600, 3600, "CEST", Ghost(g))
        .step(1509238800, 3600, 0, "CET", Ghost(g))
        .step(1521939600, 3600, 3600, "CEST", Ghost(g))
        .step(1540688400, 3600, 0, "CET", Ghost(g))
        .step(1553994000, 3600, 3600, "CEST", Ghost(g))
        .step(1572138000, 3600, 0, "CET", Ghost(g))
        .step(1585443600, 3600, 3600, "CEST", Ghost(g))
        .step(1603587600, 3600, 0, "CET", Ghost(g))
        .step(1616893200, 3600, 3600, "CEST", Ghost(g))
        .step(1635642000, 3600, 0, "CET", Ghost(g))
        .step(1648342800, 3600, 3600, "CEST", Ghost(g))
        .step(1667091600, 3600, 0, "CET", Ghost(g))
        .step(1679792400, 3600, 3600, "CEST", Ghost(g))
        .step(1698541200, 3600, 0, "CET", Ghost(g))
        .step(1711846800, 3600, 3600, "CEST", Ghost(g))
        .step(1729990800, 3600, 0, "CET", Ghost(g))
        .step(1743296400, 3600, 3600, "CEST", Ghost(g))
        .step(1761440400, 3600, 0, "CET", Ghost(g))
        .step(1774746000, 3600, 3600, "CEST", Ghost(g))
        .step(1792890000, 3600, 0, "CET", Ghost(g))
        .step(1806195600, 3600, 3600, "CEST", Ghost(g))
        .step(1824944400, 3600, 0, "CET", Ghost(g))
        .step(1837645200, 3600, 3600, "CEST", Ghost(g))
        .step(1856394000, 3600, 0, "CET", Ghost(g))
        .step(1869094800, 3600, 3600, "CEST", Ghost(g))
        .step(1887843600, 3600, 0, "CET", Ghost(g))
        .step(1901149200, 3600, 3600, "CEST", Ghost(g))
        .step(1919293200, 3600, 0, "CET", Ghost(g))
        .step(1932598800, 3600, 3600, "CEST", Ghost(g))
        .step(1950742800, 3600, 0, "CET", Ghost(g))
        .step(1964048400, 3600, 3600, "CEST", Ghost(g))
        .step(1982797200, 3600, 0, "CET", Ghost(g))
        .step(1995498000, 3600, 3600, "CEST", Ghost(g))
        .step(2014246800, 3600, 0, "CET", Ghost(g))
        .step(2026947600, 3600, 3600, "CEST", Ghost(g))
        .step(2045696400, 3600, 0, "CET", Ghost(g))
        .step(2058397200, 3600, 3600, "CEST", Ghost(g))
        .step(2077146000, 3600, 0, "CET", Ghost(g))
        .step(2090451600, 3600, 3600, "CEST", Ghost(g))
        .step(2108595600, 3600, 0, "CET", Ghost(g))
        .step(2121901200, 3600, 3600, "CEST", Ghost(g))
        .step(2140045200, 3600, 0, "CET", Ghost(g))
        .finish(Ghost(g))
}

/// The zone `Europe/Sarajevo`.
pub fn sarajevo() -> (r: Tz)
    ensures
        r.wf(),
        r.zone_name() == "Europe/Sarajevo"@,
        r.table() == tables::europe::sarajevo(),
{
    let ghost g = tables::europe::sarajevo_rows();
    FixedTimespanSet::begin("Europe/Sarajevo", 4420, 0, "LMT", Ghost(g))
        .step(-2713914820, 3600, 0, "CET", Ghost(g))
        .step(-905824800, 3600, 3600, "CEST", Ghost(g))
        .step(-857257200, 3600, 0, "CET", Ghost(g))
        .step(-844556400, 3600, 3600, "CEST", Ghost(g))
        .step(-828226800, 3600, 0, "CET", Ghost(g))
        .step(-812502000, 3600, 3600, "CEST", Ghost(g))
        .step(-796777200, 3600, 0, "CET", Ghost(g))
        .step(-781052400, 3600, 3600, "CEST", Ghost(g))
        .step(-766623600, 3600, 0, "CET", Ghost(g))
        .step(417574800, 3600, 3600, "CEST", Ghost(g))
        .step(433299600, 3600, 0, "CET", Ghost(g))
        .step(449024400, 3600, 3600, "CEST", Ghost(g))
        .step(465354000, 3600, 0, "CET", Ghost(g))
        .step(481078800, 3600, 3600, "CEST", Ghost(g))
        .step(496803600, 3600, 0, "CET", Ghost(g))
        .step(512528400, 3600, 3600, "CEST", Ghost(g))
        .step(528253200, 3600, 0, "CET", Ghost(g))
        .step(543978000, 3600, 3600, "CEST", Ghost(g))
        .step(559702800, 3600, 0, "CET", Ghost(g))
        .step(575427600, 3600, 3600, "CEST", Ghost(g))
        .step(591152400, 3600, 0, "CET", Ghost(g))
        .step(606877200, 3600, 3600, "CEST", Ghost(g))
        .step(622602000, 3600, 0, "CET", Ghost(g))
        .step(638326800, 3600, 3600, "CEST", Ghost(g))
        .step(654656400, 3600, 0, "CET", Ghost(g))
        .step(670381200, 3600, 3600, "CEST", Ghost(g))
        .step(686106000, 3600, 0, "CET", Ghost(g))
        .step(701830800, 3600, 3600, "CEST", Ghost(g))
        .step(717555600, 3600, 0, "CET", Ghost(g))
        .step(733280400, 3600, 3600, "CEST", Ghost(g))
        .step(749005200, 3600, 0, "CET", Ghost(g))
        .step(764730000, 3600, 3600, "CEST", Ghost(g))
        .step(780454800, 3600, 0, "CET", Ghost(g))
        .step(796179600, 3600, 3600, "CEST", Ghost(g))
        .step(811904400, 3600, 0, "CET", Ghost(g))
        .step(828234000, 3600, 3600, "CEST", Ghost(g))
        .step(846378000, 3600, 0, "CET", Ghost(g))
        .step(859683600, 3600, 3600, "CEST", Ghost(g))
        .step(877827600, 3600, 0, "CET", Ghost(g))
        .step(891133200, 3600, 3600, "CEST", Ghost(g))
        .step(909277200, 3600, 0, "CET", Ghost(g))
        .step(922582800, 3600, 3600, "CEST", Ghost(g))
        .step(941331600, 3600, 0, "CET", Ghost(g))
        .step(954032400, 3600, 3600, "CEST", Ghost(g))
        .step(972781200, 3600, 0, "CET", Ghost(g))
        .step(985482000, 3600, 3600, "CEST", Ghost(g))
        .step(1004230800, 3600, 0, "CET", Ghost(g))
        .step(1017536400, 3600, 3600, "CEST", Ghost(g))
        .step(1035680400, 3600, 0, "CET", Ghost(g))
        .step(1048986000, 3600, 3600, "CEST", Ghost(g))
        .step(1067130000, 3600, 0, "CET", Ghost(g))
        .step(1080435600, 3600, 3600, "CEST", Ghost(g))
        .step(1099184400, 3600, 0, "CET", Ghost(g))
        .step(1111885200, 3600, 3600, "CEST", Ghost(g))
        .step(1130634000, 3600, 0, "CET", Ghost(g))
        .step(1143334800, 3600, 3600, "CEST", Ghost(g))
        .step(1162083600, 3600, 0, "CET", Ghost(g))
        .step(1174784400, 3600, 3600, "CEST", Ghost(g))
        .step(1193533200, 3600, 0, "CET", Ghost(g))
        .step(1206838800, 3600, 3600, "CEST", Ghost(g))
        .step(1224982800, 3600, 0, "CET", Ghost(g))
        .step(1238288400, 3600, 3600, "CEST", Ghost(g))
        .step(1256432400, 3600, 0, "CET", Ghost(g))
        .step(1269738000, 3600, 3600, "CEST", Ghost(g))
        .step(1288486800, 3600, 0, "CET", Ghost(g))
        .step(1301187600, 3600, 3600, "CEST", Ghost(g))
        .step(1319936400, 3600, 0, "CET", Ghost(g))
        .step(1332637200, 3600, 3600, "CEST", Ghost(g))
        .step(1351386000, 3600, 0, "CET", Ghost(g))
        .step(1364691600, 3600, 3600, "CEST", Ghost(g))
        .step(1382835600, 3600, 0, "CET", Ghost(g))
        .step(1396141200, 3600, 3600, "CEST", Ghost(g))
        .step(1414285200, 3600, 0, "CET", Ghost(g))
        .step(1427590800, 3600, 3600, "CEST", Ghost(g))
        .step(1445734800, 3600, 0, "CET", Ghost(g))
        .step(1459040400, 3600, 3600, "CEST", Ghost(g))
        .step(1477789200, 3600, 0, "CET", Ghost(g))
        .step(1490490000, 3600, 3600, "CEST", Ghost(g))
        .step(1509238800, 3600, 0, "CET", Ghost(g))
        .step(1521939600, 3600, 3600, "CEST", Ghost(g))
        .step(1540688400, 3600, 0, "CET", Ghost(g))
        .step(1553994000, 3600, 3600, "CEST", Ghost(g))
        .step(1572138000, 3600, 0, "CET", Ghost(g))
        .step(1585443600, 3600, 3600, "CEST", Ghost(g))
        .step(1603587600, 3600, 0, "CET", Ghost(g))
        .step(1616893200, 3600, 3600, "CEST", Ghost(g))
        .step(1635642000, 3600, 0, "CET", Ghost(g))
        .step(1648342800, 3600, 3600, "CEST", Ghost(g))
        .step(1667091600, 3600, 0, "CET", Ghost(g))
        .step(1679792400, 3600, 3600, "CEST", Ghost(g))
        .step(1698541200, 3600, 0, "CET", Ghost(g))
        .step(1711846800, 3600, 3600, "CEST", Ghost(g))
        .step(1729990800, 3600, 0, "CET", Ghost(g))
        .step(1743296400, 3600, 3600, "CEST", Ghost(g))
        .step(1761440400, 3600, 0, "CET", Ghost(g))
        .step(1774746000, 3600, 3600, "CEST", Ghost(g))
        .step(1792890000, 3600, 0, "CET", Ghost(g))
        .step(1806195600, 3600, 3600, "CEST", Ghost(g))
        .step(1824944400, 3600, 0, "CET", Ghost(g))
        .step(1837645200, 3600, 3600, "CEST", Ghost(g))
        .step(1856394000, 3600, 0, "CET", Ghost(g))
        .step(1869094800, 3600, 3600, "CEST", Ghost(g))
        .step(1887843600, 3600, 0, "CET", Ghost(g))
        .step(1901149200, 3600, 3600, "CEST", Ghost(g))
        .step(1919293200, 3600, 0, "CET", Ghost(g))
        .step(1932598800, 3600, 3600, "CEST", Ghost(g))
        .step(1950742800, 3600, 0, "CET", Ghost(g))
        .step(1964048400, 3600, 3600, "CEST", Ghost(g))
        .step(1982797200, 3600, 0, "CET", Ghost(g))
        .step(1995498000, 3600, 3600, "CEST", Ghost(g))
        .step(2014246800, 3600, 0, "CET", Ghost(g))
        .step(2026947600, 3600, 3600, "CEST", Ghost(g))
        .step(2045696400, 3600, 0, "CET", Ghost(g))
        .step(2058397200, 3600, 3600, "CEST", Ghost(g))
        .step(2077146000, 3600, 0, "CET", Ghost(g))
        .step(2090451600, 3600, 3600, "CEST", Ghost(g))
        .step(2108595600, 3600, 0, "CET", Ghost(g))
        .step(2121901200, 3600, 3600, "CEST", Ghost(g))
        .step(2140045200, 3600, 0, "CET", Ghost(g))
        .finish(Ghost(g))
}

/// The zone `Europe/Saratov`.
pub fn saratov() -> (r: Tz)
    ensures
        r.wf(),
        r.zone_name() == "Europe/Saratov"@,
        r.table() == tables::europe::saratov(),
{
    let ghost g = tables::europe::saratov_rows();
    FixedTimespanSet::begin("Europe/Saratov", 11058, 0, "LMT", Ghost(g))
        .step(-1593820800, 10800, 0, "+03", Ghost(g))
        .step(-1247540400, 14400, 0, "+04", Ghost(g))
        .step(354916800, 14400, 3600, "+05", Ghost(g))
        .step(370724400, 14400, 0, "+04", Ghost(g))
        .step(386452800, 14400, 3600, "+05", Ghost(g))
        .step(402260400, 14400, 0, "+04", Ghost(g))
        .step(417988800, 14400, 3600, "+05", Ghost(g))
        .step(433796400, 14400, 0, "+04", Ghost(g))
        .step(449611200, 14400, 3600, "+05", Ghost(g))
        .step(465343200, 14400, 0, "+04", Ghost(g))
        .step(481068000, 14400, 3600, "+05", Ghost(g))
        .step(496792800, 14400, 0, "+04", Ghost(g))
        .step(512517600, 14400, 3600, "+05", Ghost(g))
        .step(528242400, 14400, 0, "+04", Ghost(g))
        .step(543967200, 14400, 3600, "+05", Ghost(g))
        .step(559692000, 14400, 0, "+04", Ghost(g))
        .step(575416800, 10800, 3600, "+04", Ghost(g))
        .step(591145200, 10800, 0, "+03", Ghost(g))
        .step(606870000, 10800, 3600, "+04", Ghost(g))
        .step(622594800, 10800, 0, "+03", Ghost(g))
        .step(638319600, 10800, 3600, "+04", Ghost(g))
        .step(654649200, 10800, 0, "+03", Ghost(g))
        .step(670374000, 14400, 0, "+04", Ghost(g))
        .step(701820000, 10800, 3600, "+04", Ghost(g))
        .step(717548400, 10800, 0, "+03", Ghost(g))
        .step(733273200, 10800, 3600, "+04", Ghost(g))
        .step(748998000, 10800, 0, "+03", Ghost(g))
        .step(764722800, 10800, 3600, "+04", Ghost(g))
        .step(780447600, 10800, 0, "+03", Ghost(g))
        .step(796172400, 10800, 3600, "+04", Ghost(g))
        .step(811897200, 10800, 0, "+03", Ghost(g))
        .step(828226800, 10800, 3600, "+04", Ghost(g))
        .step(846370800, 10800, 0, "+03", Ghost(g))
        .step(859676400, 10800, 3600, "+04", Ghost(g))
        .step(877820400, 10800, 0, "+03", Ghost(g))
        .step(891126000, 10800, 3600, "+04", Ghost(g))
        .step(909270000, 10800, 0, "+03", Ghost(g))
        .step(922575600, 10800, 3600, "+04", Ghost(g))
        .step(941324400, 10800, 0, "+03", Ghost(g))
        .step(954025200, 10800, 3600, "+04", Ghost(g))
        .step(972774000, 10800, 0, "+03", Ghost(g))
        .step(985474800, 10800, 3600, "+04", Ghost(g))
        .step(1004223600, 10800, 0, "+03", Ghost(g))
        .step(1017529200, 10800, 3600, "+04", Ghost(g))
        .step(1035673200, 10800, 0, "+03", Ghost(g))
        .step(1048978800, 10800, 3600, "+04", Ghost(g))
        .step(1067122800, 10800, 0, "+03", Ghost(g))
        .step(1080428400, 10800, 3600, "+04", Ghost(g))
        .step(1099177200, 10800, 0, "+03", Ghost(g))
        .step(1111878000, 10800, 3600, "+04", Ghost(g))
        .step(1130626800, 10800, 0, "+03", Ghost(g))
        .step(1143327600, 10800, 3600, "+04", Ghost(g))
        .step(1162076400, 10800, 0, "+03", Ghost(g))
        .step(1174777200, 10800, 3600, "+04", Ghost(g))
        .step(1193526000, 10800, 0, "+03", Ghost(g))
        .step(1206831600, 10800, 3600, "+04", Ghost(g))
        .step(1224975600, 10800, 0, "+03", Ghost(g))
        .step(1238281200, 10800, 3600, "+04", Ghost(g))
        .step(1256425200, 10800, 0, "+03", Ghost(g))
        .step(1269730800, 10800, 3600, "+04", Ghost(g))
        .step(1288479600, 10800, 0, "+03", Ghost(g))
        .step(1301180400, 14400, 0, "+04", Ghost(g))
        .step(1414274400, 10800, 0, "+03", Ghost(g))
        .step(1480806000, 14400, 0, "+04", Ghost(g))
        .step(2147483647, 14400, 0, "+04", Ghost(g))
        .finish(Ghost(g))
}

/// The zone `Europe/Simferopol`.
pub fn simferopol() -> (r: Tz)
    ensures
        r.wf(),
        r.zone_name() == "Europe/Simferopol"@,
        r.table() == tables::europe::simferopol(),
{
    let ghost g = tables::europe::simferopol_rows();
    FixedTimespanSet::begin("Europe/Simferopol", 8184, 0, "LMT", Ghost(g))
        .step(-2840148984, 8160, 0, "SMT", Ghost(g))
        .step(-1441160160, 7200, 0, "EET", Ghost(g))
        .step(-1247536800, 10800, 0, "MSK", Ghost(g))
        .step(-888894000, 3600, 3600, "CEST", Ghost(g))
        .step(-857257200, 3600, 0, "CET", Ghost(g))
        .step(-844556400, 3600, 3600, "CEST", Ghost(g))
        .step(-828226800, 3600, 0, "CET", Ghost(g))
        .step(-812502000, 3600, 3600, "CEST", Ghost(g))
        .step(-811648800, 10800, 0, "MSK", Ghost(g))
        .step(354920400, 10800, 3600, "MSD", Ghost(g))
        .step(370728000, 10800, 0, "MSK", Ghost(g))
        .step(386456400, 10800, 3600, "MSD", Ghost(g))
        .step(402264000, 10800, 0, "MSK", Ghost(g))
        .step(417992400, 10800, 3600, "MSD", Ghost(g))
        .step(433800000, 10800, 0, "MSK", Ghost(g))
        .step(449614800, 10800, 3600, "MSD", Ghost(g))
        .step(465346800, 10800, 0, "MSK", Ghost(g))
        .step(481071600, 10800, 3600, "MSD", Ghost(g))
        .step(496796400, 10800, 0, "MSK", Ghost(g))
        .step(512521200, 10800, 3600, "MSD", Ghost(g))
        .step(528246000, 10800, 0, "MSK", Ghost(g))
        .step(543970800, 10800, 3600, "MSD", Ghost(g))
        .step(559695600, 10800, 0, "MSK", Ghost(g))
        .step(575420400, 10800, 3600, "MSD", Ghost(g))
        .step(591145200, 10800, 0, "MSK", Ghost(g))
        .step(606870000, 10800, 3600, "MSD", Ghost(g))
        .step(622594800, 10800, 0, "MSK", Ghost(g))
        .step(646786800, 7200, 0, "EET", Ghost(g))
        .step(701827200, 7200, 3600, "EEST", Ghost(g))
        .step(717552000, 7200, 0, "EET", Ghost(g))
        .step(733276800, 7200, 3600, "EEST", Ghost(g))
        .step(749001600, 7200, 0, "EET", Ghost(g))
        .step(764726400, 7200, 3600, "EEST", Ghost(g))
        .step(767739600, 7200, 7200, "MSD", Ghost(g))
        .step(780447600, 10800, 0, "MSK", Ghost(g))
        .step(796172400, 10800, 3600, "MSD", Ghost(g))
        .step(811897200, 10800, 0, "MSK", Ghost(g))
        .step(828219600, 10800, 3600, "MSD", Ghost(g))
        .step(846374400, 10800, 0, "MSK", Ghost(g))
        .step(859683600, 7200, 3600, "EEST", Ghost(g))
        .step(877827600, 7200, 0, "EET", Ghost(g))
        .step(891133200, 7200, 3600, "EEST", Ghost(g))
        .step(909277200, 7200, 0, "EET", Ghost(g))
        .step(922582800, 7200, 3600, "EEST", Ghost(g))
        .step(941331600, 7200, 0, "EET", Ghost(g))
        .step(954032400, 7200, 3600, "EEST", Ghost(g))
        .step(972781200, 7200, 0, "EET", Ghost(g))
        .step(985482000, 7200, 3600, "EEST", Ghost(g))
        .step(1004230800, 7200, 0, "EET", Ghost(g))
        .step(1017536400, 7200, 3600, "EEST", Ghost(g))
        .step(1035680400, 7200, 0, "EET", Ghost(g))
        .step(1048986000, 7200, 3600, "EEST", Ghost(g))
        .step(1067130000, 7200, 0, "EET", Ghost(g))
        .step(1080435600, 7200, 3600, "EEST", Ghost(g))
        .step(1099184400, 7200, 0, "EET", Ghost(g))
        .step(1111885200, 7200, 3600, "EEST", Ghost(g))
        .step(1130634000, 7200, 0, "EET", Ghost(g))
        .step(1143334800, 7200, 3600, "EEST", Ghost(g))
        .step(1162083600, 7200, 0, "EET", Ghost(g))
        .step(1174784400, 7200, 3600, "EEST", Ghost(g))
        .step(1193533200, 7200, 0, "EET", Ghost(g))
        .step(1206838800, 7200, 3600, "EEST", Ghost(g))
        .step(1224982800, 7200, 0, "EET", Ghost(g))
        .step(1238288400, 7200, 3600, "EEST", Ghost(g))
        .step(1256432400, 7200, 0, "EET", Ghost(g))
        .step(1269738000, 7200, 3600, "EEST", Ghost(g))
        .step(1288486800, 7200, 0, "EET", Ghost(g))
        .step(1301187600, 7200, 3600, "EEST", Ghost(g))
        .step(1319936400, 7200, 0, "EET", Ghost(g))
        .step(1332637200, 7200, 3600, "EEST", Ghost(g))
        .step(1351386000, 7200, 0, "EET", Ghost(g))
        .step(1364691600, 7200, 3600, "EEST", Ghost(g))
        .step(1382835600, 7200, 0, "EET", Ghost(g))
        .step(1396137600, 14400, 0, "MSK", Ghost(g))
        .step(1414274400, 10800, 0, "MSK", Ghost(g))
        .finish(Ghost(g))
}

/// The zone `Europe/Skopje`.
pub fn skopje() -> (r: Tz)
    ensures
        r.wf(),
        r.zone_name() == "Europe/Skopje"@,
        r.table() == tables::europe::skopje(),
{
    let ghost g = tables::europe::skopje_rows();
    FixedTimespanSet::begin("Europe/Skopje", 5144, 0, "LMT", Ghost(g))
        .step(-2713915544, 3600, 0, "CET", Ghost(g))
        .step(-905824800, 3600, 3600, "CEST", Ghost(g))
        .step(-857257200, 3600, 0, "CET", Ghost(g))
        .step(-844556400, 3600, 3600, "CEST", Ghost(g))
        .step(-828226800, 3600, 0, "CET", Ghost(g))
        .step(-812502000, 3600, 3600, "CEST", Ghost(g))
        .step(-796777200, 3600, 0, "CET", Ghost(g))
        .step(-781052400, 3600, 3600, "CEST", Ghost(g))
        .step(-766623600, 3600, 0, "CET", Ghost(g))
        .step(417574800, 3600, 3600, "CEST", Ghost(g))
        .step(433299600, 3600, 0, "CET", Ghost(g))
        .step(449024400, 3600, 3600, "CEST", Ghost(g))
        .step(465354000, 3600, 0, "CET", Ghost(g))
        .step(481078800, 3600, 3600, "CEST", Ghost(g))
        .step(496803600, 3600, 0, "CET", Ghost(g))
        .step(512528400, 3600, 3600, "CEST", Ghost(g))
        .step(528253200, 3600, 0, "CET", Ghost(g))
        .step(543978000, 3600, 3600, "CEST", Ghost(g))
        .step(559702800, 3600, 0, "CET", Ghost(g))
        .step(575427600, 3600, 3600, "CEST", Ghost(g))
        .step(591152400, 3600, 0, "CET", Ghost(g))
        .step(606877200, 3600, 3600, "CEST", Ghost(g))
        .step(622602000, 3600, 0, "CET", Ghost(g))
        .step(638326800, 3600, 3600, "CEST", Ghost(g))
        .step(654656400, 3600, 0, "CET", Ghost(g))
        .step(670381200, 3600, 3600, "CEST", Ghost(g))
        .step(686106000, 3600, 0, "CET", Ghost(g))
        .step(701830800, 3600, 3600, "CEST", Ghost(g))
        .step(717555600, 3600, 0, "CET", Ghost(g))
        .step(733280400, 3600, 3600, "CEST", Ghost(g))
        .step(749005200, 3600, 0, "CET", Ghost(g))
        .step(764730000, 3600, 3600, "CEST", Ghost(g))
        .step(780454800, 3600, 0, "CET", Ghost(g))
        .step(796179600, 3600, 3600, "CEST", Ghost(g))
        .step(811904400, 3600, 0, "CET", Ghost(g))
        .step(828234000, 3600, 3600, "CEST", Ghost(g))
        .step(846378000, 3600, 0, "CET", Ghost(g))
        .step(859683600, 3600, 3600, "CEST", Ghost(g))
        .step(877827600, 3600, 0, "CET", Ghost(g))
        .step(891133200, 3600, 3600, "CEST", Ghost(g))
        .step(909277200, 3600, 0, "CET", Ghost(g))
        .step(922582800, 3600, 3600, "CEST", Ghost(g))
        .step(941331600, 3600, 0, "CET", Ghost(g))
        .step(954032400, 3600, 3600, "CEST", Ghost(g))
        .step(972781200, 3600, 0, "CET", Ghost(g))
        .step(985482000, 3600, 3600, "CEST", Ghost(g))
        .step(1004230800, 3600, 0, "CET", Ghost(g))
        .step(1017536400, 3600, 3600, "CEST", Ghost(g))
        .step(1035680400, 3600, 0, "CET", Ghost(g))
        .step(1048986000, 3600, 3600, "CEST", Ghost(g))
        .step(1067130000, 3600, 0, "CET", Ghost(g))
        .step(1080435600, 3600, 3600, "CEST", Ghost(g))
        .step(1099184400, 3600, 0, "CET", Ghost(g))
        .step(1111885200, 3600, 3600, "CEST", Ghost(g))
        .step(1130634000, 3600, 0, "CET", Ghost(g))
        .step(1143334800, 3600, 3600, "CEST", Ghost(g))
        .step(1162083600, 3600, 0, "CET", Ghost(g))
        .step(1174784400, 3600, 3600, "CEST", Ghost(g))
        .step(1193533200, 3600, 0, "CET", Ghost(g))
        .step(1206838800, 3600, 3600, "CEST", Ghost(g))
        .step(1224982800, 3600, 0, "CET", Ghost(g))
        .step(1238288400, 3600, 3600, "CEST", Ghost(g))
        .step(1256432400, 3600, 0, "CET", Ghost(g))
        .step(1269738000, 3600, 3600, "CEST", Ghost(g))
        .step(1288486800, 3600, 0, "CET", Ghost(g))
        .step(1301187600, 3600, 3600, "CEST", Ghost(g))
        .step(1319936400, 3600, 0, "CET", Ghost(g))
        .step(1332637200, 3600, 3600, "CEST", Ghost(g))
        .step(1351386000, 3600, 0, "CET", Ghost(g))
        .step(1364691600, 3600, 3600, "CEST", Ghost(g))
        .step(1382835600, 3600, 0, "CET", Ghost(g))
        .step(1396141200, 3600, 3600, "CEST", Ghost(g))
        .step(1414285200, 3600, 0, "CET", Ghost(g))
        .step(1427590800, 3600, 3600, "CEST", Ghost(g))
        .step(1445734800, 3600, 0, "CET", Ghost(g))
        .step(1459040400, 3600, 3600, "CEST", Ghost(g))
        .step(1477789200, 3600, 0, "CET", Ghost(g))
        .step(1490490000, 3600, 3600, "CEST", Ghost(g))
        .step(1509238800, 3600, 0, "CET", Ghost(g))
        .step(1521939600, 3600, 3600, "CEST", Ghost(g))
        .step(1540688400, 3600, 0, "CET", Ghost(g))
        .step(1553994000, 3600, 3600, "CEST", Ghost(g))
        .step(1572138000, 3600, 0, "CET", Ghost(g))
        .step(1585443600, 3600, 3600, "CEST", Ghost(g))
        .step(1603587600, 3600, 0, "CET", Ghost(g))
        .step(1616893200, 3600, 3600, "CEST", Ghost(g))
        .step(1635642000, 3600, 0, "CET", Ghost(g))
        .step(1648342800, 3600, 3600, "CEST", Ghost(g))
        .step(1667091600, 3600, 0, "CET", Ghost(g))
        .step(1679792400, 3600, 3600, "CEST", Ghost(g))
        .step(1698541200, 3600, 0, "CET", Ghost(g))
        .step(1711846800, 3600, 3600, "CEST", Ghost(g))
        .step(1729990800, 3600, 0, "CET", Ghost(g))
        .step(1743296400, 3600, 3600, "CEST", Ghost(g))
        .step(1761440400, 3600, 0, "CET", Ghost(g))
        .step(1774746000, 3600, 3600, "CEST", Ghost(g))
        .step(1792890000, 3600, 0, "CET", Ghost(g))
        .step(1806195600, 3600, 3600, "CEST", Ghost(g))
        .step(1824944400, 3600, 0, "CET", Ghost(g))
        .step(1837645200, 3600, 3600, "CEST", Ghost(g))
        .step(1856394000, 3600, 0, "CET", Ghost(g))
        .step(1869094800, 3600, 3600, "CEST", Ghost(g))
        .step(1887843600, 3600, 0, "CET", Ghost(g))
        .step(1901149200, 3600, 3600, "CEST", Ghost(g))
        .step(1919293200, 3600, 0, "CET", Ghost(g))
        .step(1932598800, 3600, 3600, "CEST", Ghost(g))
        .step(1950742800, 3600, 0, "CET", Ghost(g))
        .step(1964048400, 3600, 3600, "CEST", Ghost(g))
        .step(1982797200, 3600, 0, "CET", Ghost(g))
        .step(1995498000, 3600, 3600, "CEST", Ghost(g))
        .step(2014246800, 3600, 0, "CET", Ghost(g))
        .step(2026947600, 3600, 3600, "CEST", Ghost(g))
        .step(2045696400, 3600, 0, "CET", Ghost(g))
        .step(2058397200, 3600, 3600, "CEST", Ghost(g))
        .step(2077146000, 3600, 0, "CET", Ghost(g))
        .step(2090451600, 3600, 3600, "CEST", Ghost(g))
        .step(2108595600, 3600, 0, "CET", Ghost(g))
        .step(2121901200, 3600, 3600, "CEST", Ghost(g))
        .step(2140045200, 3600, 0, "CET", Ghost(g))
        .finish(Ghost(g))
}

/// The zone `Europe/Sofia`.
pub fn sofia() -> (r: Tz)
    ensures
        r.wf(),
        r.zone_name() == "Europe/Sofia"@,
        r.table() == tables::europe::sofia(),
{
    let ghost g = tables::europe::sofia_rows();
    FixedTimespanSet::begin("Europe/Sofia", 5596, 0, "LMT", Ghost(g))
        .step(-2840146396, 7016, 0, "IMT", Ghost(g))
        .step(-2369527016, 7200, 0, "EET", Ghost(g))
        .step(-857257200, 3600, 0, "CET", Ghost(g))
        .step(-844556400, 3600, 3600, "CEST", Ghost(g))
        .step(-828226800, 3600, 0, "CET", Ghost(g))
        .step(-812502000, 3600, 3600, "CEST", Ghost(g))
        .step(-796777200, 3600, 0, "CET", Ghost(g))
        .step(-781048800, 7200, 0, "EET", Ghost(g))
        .step(291762000, 7200, 3600, "EEST", Ghost(g))
        .step(307576800, 7200, 0, "EET", Ghost(g))
        .step(323816400, 7200, 3600, "EEST", Ghost(g))
        .step(339026400, 7200, 0, "EET", Ghost(g))
        .step(355266000, 7200, 3600, "EEST", Ghost(g))
        .step(370393200, 7200, 0, "EET", Ghost(g))
        .step(386715600, 7200, 3600, "EEST", Ghost(g))
        .step(401846400, 7200, 0, "EET", Ghost(g))
        .step(417571200, 7200, 3600, "EEST", Ghost(g))
        .step(433296000, 7200, 0, "EET", Ghost(g))
        .step(449020800, 7200, 3600, "EEST", Ghost(g))
        .step(465350400, 7200, 0, "EET", Ghost(g))
        .step(481075200, 7200, 3600, "EEST", Ghost(g))
        .step(496800000, 7200, 0, "EET", Ghost(g))
        .step(512524800, 7200, 3600, "EEST", Ghost(g))
        .step(528249600, 7200, 0, "EET", Ghost(g))
        .step(543974400, 7200, 3600, "EEST", Ghost(g))
        .step(559699200, 7200, 0, "EET", Ghost(g))
        .step(575424000, 7200, 3600, "EEST", Ghost(g))
        .step(591148800, 7200, 0, "EET", Ghost(g))
        .step(606873600, 7200, 3600, "EEST", Ghost(g))
        .step(622598400, 7200, 0, "EET", Ghost(g))
        .step(638323200, 7200, 3600, "EEST", Ghost(g))
        .step(654652800, 7200, 0, "EET", Ghost(g))
        .step(670370400, 7200, 3600, "EEST", Ghost(g))
        .step(686091600, 7200, 0, "EET", Ghost(g))
        .step(701820000, 7200, 3600, "EEST", Ghost(g))
        .step(717541200, 7200, 0, "EET", Ghost(g))
        .step(733269600, 7200, 3600, "EEST", Ghost(g))
        .step(748990800, 7200, 0, "EET", Ghost(g))
        .step(764719200, 7200, 3600, "EEST", Ghost(g))
        .step(780440400, 7200, 0, "EET", Ghost(g))
        .step(796168800, 7200, 3600, "EEST", Ghost(g))
        .step(811890000, 7200, 0, "EET", Ghost(g))
        .step(828223200, 7200, 3600, "EEST", Ghost(g))
        .step(846363600, 7200, 0, "EET", Ghost(g))
        .step(859683600, 7200, 3600, "EEST", Ghost(g))
        .step(877827600, 7200, 0, "EET", Ghost(g))
        .step(891133200, 7200, 3600, "EEST", Ghost(g))
        .step(909277200, 7200, 0, "EET", Ghost(g))
        .step(922582800, 7200, 3600, "EEST", Ghost(g))
        .step(941331600, 7200, 0, "EET", Ghost(g))
        .step(954032400, 7200, 3600, "EEST", Ghost(g))
        .step(972781200, 7200, 0, "EET", Ghost(g))
        .step(985482000, 7200, 3600, "EEST", Ghost(g))
        .step(1004230800, 7200, 0, "EET", Ghost(g))
        .step(1017536400, 7200, 3600, "EEST", Ghost(g))
        .step(1035680400, 7200, 0, "EET", Ghost(g))
        .step(1048986000, 7200, 3600, "EEST", Ghost(g))
        .step(1067130000, 7200, 0, "EET", Ghost(g))
        .step(1080435600, 7200, 3600, "EEST", Ghost(g))
        .step(1099184400, 7200, 0, "EET", Ghost(g))
        .step(1111885200, 7200, 3600, "EEST", Ghost(g))
        .step(1130634000, 7200, 0, "EET", Ghost(g))
        .step(1143334800, 7200, 3600, "EEST", Ghost(g))
        .step(1162083600, 7200, 0, "EET", Ghost(g))
        .step(1174784400, 7200, 3600, "EEST", Ghost(g))
        .step(1193533200, 7200, 0, "EET", Ghost(g))
        .step(1206838800, 7200, 3600, "EEST", Ghost(g))
        .step(1224982800, 7200, 0, "EET", Ghost(g))
        .step(1238288400, 7200, 3600, "EEST", Ghost(g))
        .step(1256432400, 7200, 0, "EET", Ghost(g))
        .step(1269738000, 7200, 3600, "EEST", Ghost(g))
        .step(1288486800, 7200, 0, "EET", Ghost(g))
        .step(1301187600, 7200, 3600, "EEST", Ghost(g))
        .step(1319936400, 7200, 0, "EET", Ghost(g))
        .step(1332637200, 7200, 3600, "EEST", Ghost(g))
        .step(1351386000, 7200, 0, "EET", Ghost(g))
        .step(1364691600, 7200, 3600, "EEST", Ghost(g))
        .step(1382835600, 7200, 0, "EET", Ghost(g))
        .step(1396141200, 7200, 3600, "EEST", Ghost(g))
        .step(1414285200, 7200, 0, "EET", Ghost(g))
        .step(1427590800, 7200, 3600, "EEST", Ghost(g))
        .step(1445734800, 7200, 0, "EET", Ghost(g))
        .step(1459040400, 7200, 3600, "EEST", Ghost(g))
        .step(1477789200, 7200, 0, "EET", Ghost(g))
        .step(1490490000, 7200, 3600, "EEST", Ghost(g))
        .step(1509238800, 7200, 0, "EET", Ghost(g))
        .step(1521939600, 7200, 3600, "EEST", Ghost(g))
        .step(1540688400, 7200, 0, "EET", Ghost(g))
        .step(1553994000, 7200, 3600, "EEST", Ghost(g))
        .step(1572138000, 7200, 0, "EET", Ghost(g))
        .step(1585443600, 7200, 3600, "EEST", Ghost(g))
        .step(1603587600, 7200, 0, "EET", Ghost(g))
        .step(1616893200, 7200, 3600, "EEST", Ghost(g))
        .step(1635642000, 7200, 0, "EET", Ghost(g))
        .step(1648342800, 7200, 3600, "EEST", Ghost(g))
        .step(1667091600, 7200, 0, "EET", Ghost(g))
        .step(1679792400, 7200, 3600, "EEST", Ghost(g))
        .step(1698541200, 7200, 0, "EET", Ghost(g))
        .step(1711846800, 7200, 3600, "EEST", Ghost(g))
        .step(1729990800, 7200, 0, "EET", Ghost(g))
        .step(1743296400, 7200, 3600, "EEST", Ghost(g))
        .step(1761440400, 7200, 0, "EET", Ghost(g))
        .step(1774746000, 7200, 3600, "EEST", Ghost(g))
        .step(1792890000, 7200, 0, "EET", Ghost(g))
        .step(1806195600, 7200, 3600, "EEST", Ghost(g))
        .step(1824944400, 7200, 0, "EET", Ghost(g))
        .step(1837645200, 7200, 3600, "EEST", Ghost(g))
        .step(1856394000, 7200, 0, "EET", Ghost(g))
        .step(1869094800, 7200, 3600, "EEST", Ghost(g))
        .step(1887843600, 7200, 0, "EET", Ghost(g))
        .step(1901149200, 7200, 3600, "EEST", Ghost(g))
        .step(1919293200, 7200, 0, "EET", Ghost(g))
        .step(1932598800, 7200, 3600, "EEST", Ghost(g))
        .step(1950742800, 7200, 0, "EET", Ghost(g))
        .step(1964048400, 7200, 3600, "EEST", Ghost(g))
        .step(1982797200, 7200, 0, "EET", Ghost(g))
        .step(1995498000, 7200, 3600, "EEST", Ghost(g))
        .step(2014246800, 7200, 0, "EET", Ghost(g))
        .step(2026947600, 7200, 3600, "EEST", Ghost(g))
        .step(2045696400, 7200, 0, "EET", Ghost(g))
        .step(2058397200, 7200, 3600, "EEST", Ghost(g))
        .step(2077146000, 7200, 0, "EET", Ghost(g))
        .step(2090451600, 7200, 3600, "EEST", Ghost(g))
        .step(2108595600, 7200, 0, "EET", Ghost(g))
        .step(2121901200, 7200, 3600, "EEST", Ghost(g))
        .step(2140045200, 7200, 0, "EET", Ghost(g))
        .finish(Ghost(g))
}

/// The zone `Europe/Stockholm`.
pub fn stockholm() -> (r: Tz)
    ensures
        r.wf(),
        r.zone_name() == "Europe/Stockholm"@,
        r.table() == tables::europe::stockholm(),
{
    let ghost g = tables::europe::stockholm_rows();
    FixedTimespanSet::begin("Europe/Stockholm", 4332, 0, "LMT", Ghost(g))
        .step(-2871681132, 3614, 0, "SET", Ghost(g))
        .step(-2208992414, 3600, 0, "CET", Ghost(g))
        .step(-1692496800, 3600, 3600, "CEST", Ghost(g))
        .step(-1680483600, 3600, 0, "CET", Ghost(g))
        .step(323830800, 3600, 3600, "CEST", Ghost(g))
        .step(338950800, 3600, 0, "CET", Ghost(g))
        .step(354675600, 3600, 3600, "CEST", Ghost(g))
        .step(370400400, 3600, 0, "CET", Ghost(g))
        .step(386125200, 3600, 3600, "CEST", Ghost(g))
        .step(401850000, 3600, 0, "CET", Ghost(g))
        .step(417574800, 3600, 3600, "CEST", Ghost(g))
        .step(433299600, 3600, 0, "CET", Ghost(g))
        .step(449024400, 3600, 3600, "CEST", Ghost(g))
        .step(465354000, 3600, 0, "CET", Ghost(g))
        .step(481078800, 3600, 3600, "CEST", Ghost(g))
        .step(496803600, 3600, 0, "CET", Ghost(g))
        .step(512528400, 3600, 3600, "CEST", Ghost(g))
        .step(528253200, 3600, 0, "CET", Ghost(g))
        .step(543978000, 3600, 3600, "CEST", Ghost(g))
        .step(559702800, 3600, 0, "CET", Ghost(g))
        .step(575427600, 3600, 3600, "CEST", Ghost(g))
        .step(591152400, 3600, 0, "CET", Ghost(g))
        .step(606877200, 3600, 3600, "CEST", Ghost(g))
        .step(622602000, 3600, 0, "CET", Ghost(g))
        .step(638326800, 3600, 3600, "CEST", Ghost(g))
        .step(654656400, 3600, 0, "CET", Ghost(g))
        .step(670381200, 3600, 3600, "CEST", Ghost(g))
        .step(686106000, 3600, 0, "CET", Ghost(g))
        .step(701830800, 3600, 3600, "CEST", Ghost(g))
        .step(717555600, 3600, 0, "CET", Ghost(g))
        .step(733280400, 3600, 3600, "CEST", Ghost(g))
        .step(749005200, 3600, 0, "CET", Ghost(g))
        .step(764730000, 3600, 3600, "CEST", Ghost(g))
        .step(780454800, 3600, 0, "CET", Ghost(g))
        .step(796179600, 3600, 3600, "CEST", Ghost(g))
        .step(811904400, 3600, 0, "CET", Ghost(g))
        .step(828234000, 3600, 3600, "CEST", Ghost(g))
        .step(846378000, 3600, 0, "CET", Ghost(g))
        .step(859683600, 3600, 3600, "CEST", Ghost(g))
        .step(877827600, 3600, 0, "CET", Ghost(g))
        .step(891133200, 3600, 3600, "CEST", Ghost(g))
        .step(909277200, 3600, 0, "CET", Ghost(g))
        .step(922582800, 3600, 3600, "CEST", Ghost(g))
        .step(941331600, 3600, 0, "CET", Ghost(g))
        .step(954032400, 3600, 3600, "CEST", Ghost(g))
        .step(972781200, 3600, 0, "CET", Ghost(g))
        .step(985482000, 3600, 3600, "CEST", Ghost(g))
        .step(1004230800, 3600, 0, "CET", Ghost(g))
        .step(1017536400, 3600, 3600, "CEST", Ghost(g))
        .step(1035680400, 3600, 0, "CET", Ghost(g))
        .step(1048986000, 3600, 3600, "CEST", Ghost(g))
        .step(1067130000, 3600, 0, "CET", Ghost(g))
        .step(1080435600, 3600, 3600, "CEST", Ghost(g))
        .step(1099184400, 3600, 0, "CET", Ghost(g))
        .step(1111885200, 3600, 3600, "CEST", Ghost(g))
        .step(1130634000, 3600, 0, "CET", Ghost(g))
        .step(1143334800, 3600, 3600, "CEST", Ghost(g))
        .step(1162083600, 3600, 0, "CET", Ghost(g))
        .step(1174784400, 3600, 3600, "CEST", Ghost(g))
        .step(1193533200, 3600, 0, "CET", Ghost(g))
        .step(1206838800, 3600, 3600, "CEST", Ghost(g))
        .step(1224982800, 3600, 0, "CET", Ghost(g))
        .step(1238288400, 3600, 3600, "CEST", Ghost(g))
        .step(1256432400, 3600, 0, "CET", Ghost(g))
        .step(1269738000, 3600, 3600, "CEST", Ghost(g))
        .step(1288486800, 3600, 0, "CET", Ghost(g))
        .step(1301187600, 3600, 3600, "CEST", Ghost(g))
        .step(1319936400, 3600, 0, "CET", Ghost(g))
        .step(1332637200, 3600, 3600, "CEST", Ghost(g))
        .step(1351386000, 3600, 0, "CET", Ghost(g))
        .step(1364691600, 3600, 3600, "CEST", Ghost(g))
        .step(1382835600, 3600, 0, "CET", Ghost(g))
        .step(1396141200, 3600, 3600, "CEST", Ghost(g))
        .step(1414285200, 3600, 0, "CET", Ghost(g))
        .step(1427590800, 3600, 3600, "CEST", Ghost(g))
        .step(1445734800, 3600, 0, "CET", Ghost(g))
        .step(1459040400, 3600, 3600, "CEST", Ghost(g))
        .step(1477789200, 3600, 0, "CET", Ghost(g))
        .step(1490490000, 3600, 3600, "CEST", Ghost(g))
        .step(1509238800, 3600, 0, "CET", Ghost(g))
        .step(1521939600, 3600, 3600, "CEST", Ghost(g))
        .step(1540688400, 3600, 0, "CET", Ghost(g))
        .step(1553994000, 3600, 3600, "CEST", Ghost(g))
        .step(1572138000, 3600, 0, "CET", Ghost(g))
        .step(1585443600, 3600, 3600, "CEST", Ghost(g))
        .step(1603587600, 3600, 0, "CET", Ghost(g))
        .step(1616893200, 3600, 3600, "CEST", Ghost(g))
        .step(1635642000, 3600, 0, "CET", Ghost(g))
        .step(1648342800, 3600, 3600, "CEST", Ghost(g))
        .step(1667091600, 3600, 0, "CET", Ghost(g))
        .step(1679792400, 3600, 3600, "CEST", Ghost(g))
        .step(1698541200, 3600, 0, "CET", Ghost(g))
        .step(1711846800, 3600, 3600, "CEST", Ghost(g))
        .step(1729990800, 3600, 0, "CET", Ghost(g))
        .step(1743296400, 3600, 3600, "CEST", Ghost(g))
        .step(1761440400, 3600, 0, "CET", Ghost(g))
        .step(1774746000, 3600, 3600, "CEST", Ghost(g))
        .step(1792890000, 3600, 0, "CET", Ghost(g))
        .step(1806195600, 3600, 3600, "CEST", Ghost(g))
        .step(1824944400, 3600, 0, "CET", Ghost(g))
        .step(1837645200, 3600, 3600, "CEST", Ghost(g))
        .step(1856394000, 3600, 0, "CET", Ghost(g))
        .step(1869094800, 3600, 3600, "CEST", Ghost(g))
        .step(1887843600, 3600, 0, "CET", Ghost(g))
        .step(1901149200, 3600, 3600, "CEST", Ghost(g))
        .step(1919293200, 3600, 0, "CET", Ghost(g))
        .step(1932598800, 3600, 3600, "CEST", Ghost(g))
        .step(1950742800, 3600, 0, "CET", Ghost(g))
        .step(1964048400, 3600, 3600, "CEST", Ghost(g))
        .step(1982797200, 3600, 0, "CET", Ghost(g))
        .step(1995498000, 3600, 3600, "CEST", Ghost(g))
        .step(2014246800, 3600, 0, "CET", Ghost(g))
        .step(2026947600, 3600, 3600, "CEST", Ghost(g))
        .step(2045696400, 3600, 0, "CET", Ghost(g))
        .step(2058397200, 3600, 3600, "CEST", Ghost(g))
        .step(2077146000, 3600, 0, "CET", Ghost(g))
        .step(2090451600, 3600, 3600, "CEST", Ghost(g))
        .step(2108595600, 3600, 0, "CET", Ghost(g))
        .step(2121901200, 3600, 3600, "CEST", Ghost(g))
        .step(2140045200, 3600, 0, "CET", Ghost(g))
        .finish(Ghost(g))
}

/// The zone `Europe/Tallinn`.
pub fn tallinn() -> (r: Tz)
    ensures
        r.wf(),
        r.zone_name() == "Europe/Tallinn"@,
        r.table() == tables::europe::tallinn(),
{
    let ghost g = tables::europe::tallinn_rows();
    FixedTimespanSet::begin("Europe/Tallinn", 5940, 0, "LMT", Ghost(g))
        .step(-2840146740, 5940, 0, "TMT", Ghost(g))
        .step(-1638322740, 3600, 0, "CET", Ghost(g))
        .step(-1632006000, 3600, 3600, "CEST", Ghost(g))
        .step(-1618700400, 3600, 0, "CET", Ghost(g))
        .step(-1593824400, 5940, 0, "TMT", Ghost(g))
        .step(-1535938740, 7200, 0, "EET", Ghost(g))
        .step(-927943200, 10800, 0, "MSK", Ghost(g))
        .step(-892954800, 3600, 3600, "CEST", Ghost(g))
        .step(-857257200, 3600, 0, "CET", Ghost(g))
        .step(-844556400, 3600, 3600, "CEST", Ghost(g))
        .step(-828226800, 3600, 0, "CET", Ghost(g))
        .step(-812502000, 3600, 3600, "CEST", Ghost(g))
        .step(-797652000, 10800, 0, "MSK", Ghost(g))
        .step(354920400, 10800, 3600, "MSD", Ghost(g))
        .step(370728000, 10800, 0, "MSK", Ghost(g))
        .step(386456400, 10800, 3600, "MSD", Ghost(g))
        .step(402264000, 10800, 0, "MSK", Ghost(g))
        .step(417992400, 10800, 3600, "MSD", Ghost(g))
        .step(433800000, 10800, 0, "MSK", Ghost(g))
        .step(449614800, 10800, 3600, "MSD", Ghost(g))
        .step(465346800, 10800, 0, "MSK", Ghost(g))
        .step(481071600, 10800, 3600, "MSD", Ghost(g))
        .step(496796400, 10800, 0, "MSK", Ghost(g))
        .step(512521200, 10800, 3600, "MSD", Ghost(g))
        .step(528246000, 10800, 0, "MSK", Ghost(g))
        .step(543970800, 10800, 3600, "MSD", Ghost(g))
        .step(559695600, 10800, 0, "MSK", Ghost(g))
        .step(575420400, 10800, 3600, "MSD", Ghost(g))
        .step(591145200, 10800, 0, "MSK", Ghost(g))
        .step(606870000, 7200, 3600, "EEST", Ghost(g))
        .step(622598400, 7200, 0, "EET", Ghost(g))
        .step(638323200, 7200, 3600, "EEST", Ghost(g))
        .step(654652800, 7200, 0, "EET", Ghost(g))
        .step(670377600, 7200, 3600, "EEST", Ghost(g))
        .step(686102400, 7200, 0, "EET", Ghost(g))
        .step(701827200, 7200, 3600, "EEST", Ghost(g))
        .step(717552000, 7200, 0, "EET", Ghost(g))
        .step(733276800, 7200, 3600, "EEST", Ghost(g))
        .step(749001600, 7200, 0, "EET", Ghost(g))
        .step(764726400, 7200, 3600, "EEST", Ghost(g))
        .step(780451200, 7200, 0, "EET", Ghost(g))
        .step(796176000, 7200, 3600, "EEST", Ghost(g))
        .step(811900800, 7200, 0, "EET", Ghost(g))
        .step(828230400, 7200, 3600, "EEST", Ghost(g))
        .step(846374400, 7200, 0, "EET", Ghost(g))
        .step(859680000, 7200, 3600, "EEST", Ghost(g))
        .step(877824000, 7200, 0, "EET", Ghost(g))
        .step(891129600, 7200, 3600, "EEST", Ghost(g))
        .step(909277200, 7200, 0, "EET", Ghost(g))
        .step(922582800, 7200, 3600, "EEST", Ghost(g))
        .step(941331600, 7200, 0, "EET", Ghost(g))
        .step(1017536400, 7200, 3600, "EEST", Ghost(g))
        .step(1035680400, 7200, 0, "EET", Ghost(g))
        .step(1048986000, 7200, 3600, "EEST", Ghost(g))
        .step(1067130000, 7200, 0, "EET", Ghost(g))
        .step(1080435600, 7200, 3600, "EEST", Ghost(g))
        .step(1099184400, 7200, 0, "EET", Ghost(g))
        .step(1111885200, 7200, 3600, "EEST", Ghost(g))
        .step(1130634000, 7200, 0, "EET", Ghost(g))
        .step(1143334800, 7200, 3600, "EEST", Ghost(g))
        .step(1162083600, 7200, 0, "EET", Ghost(g))
        .step(1174784400, 7200, 3600, "EEST", Ghost(g))
        .step(1193533200, 7200, 0, "EET", Ghost(g))
        .step(1206838800, 7200, 3600, "EEST", Ghost(g))
        .step(1224982800, 7200, 0, "EET", Ghost(g))
        .step(1238288400, 7200, 3600, "EEST", Ghost(g))
        .step(1256432400, 7200, 0, "EET", Ghost(g))
        .step(1269738000, 7200, 3600, "EEST", Ghost(g))
        .step(1288486800, 7200, 0, "EET", Ghost(g))
        .step(1301187600, 7200, 3600, "EEST", Ghost(g))
        .step(1319936400, 7200, 0, "EET", Ghost(g))
        .step(1332637200, 7200, 3600, "EEST", Ghost(g))
        .step(1351386000, 7200, 0, "EET", Ghost(g))
        .step(1364691600, 7200, 3600, "EEST", Ghost(g))
        .step(1382835600, 7200, 0, "EET", Ghost(g))
        .step(1396141200, 7200, 3600, "EEST", Ghost(g))
        .step(1414285200, 7200, 0, "EET", Ghost(g))
        .step(1427590800, 7200, 3600, "EEST", Ghost(g))
        .step(1445734800, 7200, 0, "EET", Ghost(g))
        .step(1459040400, 7200, 3600, "EEST", Ghost(g))
        .step(1477789200, 7200, 0, "EET", Ghost(g))
        .step(1490490000, 7200, 3600, "EEST", Ghost(g))
        .step(1509238800, 7200, 0, "EET", Ghost(g))
        .step(1521939600, 7200, 3600, "EEST", Ghost(g))
        .step(1540688400, 7200, 0, "EET", Ghost(g))
        .step(1553994000, 7200, 3600, "EEST", Ghost(g))
        .step(1572138000, 7200, 0, "EET", Ghost(g))
        .step(1585443600, 7200, 3600, "EEST", Ghost(g))
        .step(1603587600, 7200, 0, "EET", Ghost(g))
        .step(1616893200, 7200, 3600, "EEST", Ghost(g))
        .step(1635642000, 7200, 0, "EET", Ghost(g))
        .step(1648342800, 7200, 3600, "EEST", Ghost(g))
        .step(1667091600, 7200, 0, "EET", Ghost(g))
        .step(1679792400, 7200, 3600, "EEST", Ghost(g))
        .step(1698541200, 7200, 0, "EET", Ghost(g))
        .step(1711846800, 7200, 3600, "EEST", Ghost(g))
        .step(1729990800, 7200, 0, "EET", Ghost(g))
        .step(1743296400, 7200, 3600, "EEST", Ghost(g))
        .step(1761440400, 7200, 0, "EET", Ghost(g))
        .step(1774746000, 7200, 3600, "EEST", Ghost(g))
        .step(1792890000, 7200, 0, "EET", Ghost(g))
        .step(1806195600, 7200, 3600, "EEST", Ghost(g))
        .step(1824944400, 7200, 0, "EET", Ghost(g))
        .step(1837645200, 7200, 3600, "EEST", Ghost(g))
        .step(1856394000, 7200, 0, "EET", Ghost(g))
        .step(1869094800, 7200, 3600, "EEST", Ghost(g))
        .step(1887843600, 7200, 0, "EET", Ghost(g))
        .step(1901149200, 7200, 3600, "EEST", Ghost(g))
        .step(1919293200, 7200, 0, "EET", Ghost(g))
        .step(1932598800, 7200, 3600, "EEST", Ghost(g))
        .step(1950742800, 7200, 0, "EET", Ghost(g))
        .step(1964048400, 7200, 3600, "EEST", Ghost(g))
        .step(1982797200, 7200, 0, "EET", Ghost(g))
        .step(1995498000, 7200, 3600, "EEST", Ghost(g))
        .step(2014246800, 7200, 0, "EET", Ghost(g))
        .step(2026947600, 7200, 3600, "EEST", Ghost(g))
        .step(2045696400, 7200, 0, "EET", Ghost(g))
        .step(2058397200, 7200, 3600, "EEST", Ghost(g))
        .step(2077146000, 7200, 0, "EET", Ghost(g))
        .step(2090451600, 7200, 3600, "EEST", Ghost(g))
        .step(2108595600, 7200, 0, "EET", Ghost(g))
        .step(2121901200, 7200, 3600, "EEST", Ghost(g))
        .step(2140045200, 7200, 0, "EET", Ghost(g))
        .finish(Ghost(g))
}

/// The zone `Europe/Tirane`.
pub fn tirane() -> (r: Tz)
    ensures
        r.wf(),
        r.zone_name() == "Europe/Tirane"@,
        r.table() == tables::europe::tirane(),
{
    let ghost g = tables::europe::tirane_rows();
    FixedTimespanSet::begin("Europe/Tirane", 4760, 0, "LMT", Ghost(g))
        .step(-1767230360, 3600, 0, "CET", Ghost(g))
        .step(-932346000, 3600, 3600, "CEST", Ghost(g))
        .step(-857257200, 3600, 0, "CET", Ghost(g))
        .step(-844556400, 3600, 3600, "CEST", Ghost(g))
        .step(-843519600, 3600, 0, "CET", Ghost(g))
        .step(136854000, 3600, 3600, "CEST", Ghost(g))
        .step(149896800, 3600, 0, "CET", Ghost(g))
        .step(168130800, 3600, 3600, "CEST", Ghost(g))
        .step(181432800, 3600, 0, "CET", Ghost(g))
        .step(199839600, 3600, 3600, "CEST", Ghost(g))
        .step(213141600, 3600, 0, "CET", Ghost(g))
        .step(231894000, 3600, 3600, "CEST", Ghost(g))
        .step(244591200, 3600, 0, "CET", Ghost(g))
        .step(263257200, 3600, 3600, "CEST", Ghost(g))
        .step(276040800, 3600, 0, "CET", Ghost(g))
        .step(294706800, 3600, 3600, "CEST", Ghost(g))
        .step(307490400, 3600, 0, "CET", Ghost(g))
        .step(326156400, 3600, 3600, "CEST", Ghost(g))
        .step(339458400, 3600, 0, "CET", Ghost(g))
        .step(357087600, 3600, 3600, "CEST", Ghost(g))
        .step(370389600, 3600, 0, "CET", Ghost(g))
        .step(389142000, 3600, 3600, "CEST", Ghost(g))
        .step(402444000, 3600, 0, "CET", Ghost(g))
        .step(419468400, 3600, 3600, "CEST", Ghost(g))
        .step(433807200, 3600, 0, "CET", Ghost(g))
        .step(449622000, 3600, 3600, "CEST", Ghost(g))
        .step(465354000, 3600, 0, "CET", Ghost(g))
        .step(481078800, 3600, 3600, "CEST", Ghost(g))
        .step(496803600, 3600, 0, "CET", Ghost(g))
        .step(512528400, 3600, 3600, "CEST", Ghost(g))
        .step(528253200, 3600, 0, "CET", Ghost(g))
        .step(543978000, 3600, 3600, "CEST", Ghost(g))
        .step(559702800, 3600, 0, "CET", Ghost(g))
        .step(575427600, 3600, 3600, "CEST", Ghost(g))
        .step(591152400, 3600, 0, "CET", Ghost(g))
        .step(606877200, 3600, 3600, "CEST", Ghost(g))
        .step(622602000, 3600, 0, "CET", Ghost(g))
        .step(638326800, 3600, 3600, "CEST", Ghost(g))
        .step(654656400, 3600, 0, "CET", Ghost(g))
        .step(670381200, 3600, 3600, "CEST", Ghost(g))
        .step(686106000, 3600, 0, "CET", Ghost(g))
        .step(701830800, 3600, 3600, "CEST", Ghost(g))
        .step(717555600, 3600, 0, "CET", Ghost(g))
        .step(733280400, 3600, 3600, "CEST", Ghost(g))
        .step(749005200, 3600, 0, "CET", Ghost(g))
        .step(764730000, 3600, 3600, "CEST", Ghost(g))
        .step(780454800, 3600, 0, "CET", Ghost(g))
        .step(796179600, 3600, 3600, "CEST", Ghost(g))
        .step(811904400, 3600, 0, "CET", Ghost(g))
        .step(828234000, 3600, 3600, "CEST", Ghost(g))
        .step(846378000, 3600, 0, "CET", Ghost(g))
        .step(859683600, 3600, 3600, "CEST", Ghost(g))
        .step(877827600, 3600, 0, "CET", Ghost(g))
        .step(891133200, 3600, 3600, "CEST", Ghost(g))
        .step(909277200, 3600, 0, "CET", Ghost(g))
        .step(922582800, 3600, 3600, "CEST", Ghost(g))
        .step(941331600, 3600, 0, "CET", Ghost(g))
        .step(954032400, 3600, 3600, "CEST", Ghost(g))
        .step(972781200, 3600, 0, "CET", Ghost(g))
        .step(985482000, 3600, 3600, "CEST", Ghost(g))
        .step(1004230800, 3600, 0, "CET", Ghost(g))
        .step(1017536400, 3600, 3600, "CEST", Ghost(g))
        .step(1035680400, 3600, 0, "CET", Ghost(g))
        .step(1048986000, 3600, 3600, "CEST", Ghost(g))
        .step(1067130000, 3600, 0, "CET", Ghost(g))
        .step(1080435600, 3600, 3600, "CEST", Ghost(g))
        .step(1099184400, 3600, 0, "CET", Ghost(g))
        .step(1111885200, 3600, 3600, "CEST", Ghost(g))
        .step(1130634000, 3600, 0, "CET", Ghost(g))
        .step(1143334800, 3600, 3600, "CEST", Ghost(g))
        .step(1162083600, 3600, 0, "CET", Ghost(g))
        .step(1174784400, 3600, 3600, "CEST", Ghost(g))
        .step(1193533200, 3600, 0, "CET", Ghost(g))
        .step(1206838800, 3600, 3600, "CEST", Ghost(g))
        .step(1224982800, 3600, 0, "CET", Ghost(g))
        .step(1238288400, 3600, 3600, "CEST", Ghost(g))
        .step(1256432400, 3600, 0, "CET", Ghost(g))
        .step(1269738000, 3600, 3600, "CEST", Ghost(g))
        .step(1288486800, 3600, 0, "CET", Ghost(g))
        .step(1301187600, 3600, 3600, "CEST", Ghost(g))
        .step(1319936400, 3600, 0, "CET", Ghost(g))
        .step(1332637200, 3600, 3600, "CEST", Ghost(g))
        .step(1351386000, 3600, 0, "CET", Ghost(g))
        .step(1364691600, 3600, 3600, "CEST", Ghost(g))
        .step(1382835600, 3600, 0, "CET", Ghost(g))
        .step(1396141200, 3600, 3600, "CEST", Ghost(g))
        .step(1414285200, 3600, 0, "CET", Ghost(g))
        .step(1427590800, 3600, 3600, "CEST", Ghost(g))
        .step(1445734800, 3600, 0, "CET", Ghost(g))
        .step(1459040400, 3600, 3600, "CEST", Ghost(g))
        .step(1477789200, 3600, 0, "CET", Ghost(g))
        .step(1490490000, 3600, 3600, "CEST", Ghost(g))
        .step(1509238800, 3600, 0, "CET", Ghost(g))
        .step(1521939600, 3600, 3600, "CEST", Ghost(g))
        .step(1540688400, 3600, 0, "CET", Ghost(g))
        .step(1553994000, 3600, 3600, "CEST", Ghost(g))
        .step(1572138000, 3600, 0, "CET", Ghost(g))
        .step(1585443600, 3600, 3600, "CEST", Ghost(g))
        .step(1603587600, 3600, 0, "CET", Ghost(g))
        .step(1616893200, 3600, 3600, "CEST", Ghost(g))
        .step(1635642000, 3600, 0, "CET", Ghost(g))
        .step(1648342800, 3600, 3600, "CEST", Ghost(g))
        .step(1667091600, 3600, 0, "CET", Ghost(g))
        .step(1679792400, 3600, 3600, "CEST", Ghost(g))
        .step(1698541200, 3600, 0, "CET", Ghost(g))
        .step(1711846800, 3600, 3600, "CEST", Ghost(g))
        .step(1729990800, 3600, 0, "CET", Ghost(g))
        .step(1743296400, 3600, 3600, "CEST", Ghost(g))
        .step(1761440400, 3600, 0, "CET", Ghost(g))
        .step(1774746000, 3600, 3600, "CEST", Ghost(g))
        .step(1792890000, 3600, 0, "CET", Ghost(g))
        .step(1806195600, 3600, 3600, "CEST", Ghost(g))
        .step(1824944400, 3600, 0, "CET", Ghost(g))
        .step(1837645200, 3600, 3600, "CEST", Ghost(g))
        .step(1856394000, 3600, 0, "CET", Ghost(g))
        .step(1869094800, 3600, 3600, "CEST", Ghost(g))
        .step(1887843600, 3600, 0, "CET", Ghost(g))
        .step(1901149200, 3600, 3600, "CEST", Ghost(g))
        .step(1919293200, 3600, 0, "CET", Ghost(g))
        .step(1932598800, 3600, 3600, "CEST", Ghost(g))
        .step(1950742800, 3600, 0, "CET", Ghost(g))
        .step(1964048400, 3600, 3600, "CEST", Ghost(g))
        .step(1982797200, 3600, 0, "CET", Ghost(g))
        .step(1995498000, 3600, 3600, "CEST", Ghost(g))
        .step(2014246800, 3600, 0, "CET", Ghost(g))
        .step(2026947600, 3600, 3600, "CEST", Ghost(g))
        .step(2045696400, 3600, 0, "CET", Ghost(g))
        .step(2058397200, 3600, 3600, "CEST", Ghost(g))
        .step(2077146000, 3600, 0, "CET", Ghost(g))
        .step(2090451600, 3600, 3600, "CEST", Ghost(g))
        .step(2108595600, 3600, 0, "CET", Ghost(g))
        .step(2121901200, 3600, 3600, "CEST", Ghost(g))
        .step(2140045200, 3600, 0, "CET", Ghost(g))
        .finish(Ghost(g))
}

/// The zone `Europe/Tiraspol`.
pub fn tiraspol() -> (r: Tz)
    ensures
        r.wf(),
        r.zone_name() == "Europe/Tiraspol"@,
        r.table() == tables::europe::tiraspol(),
{
    let ghost g = tables::europe::tiraspol_rows();
    FixedTimespanSet::begin("Europe/Tiraspol", 6920, 0, "LMT", Ghost(g))
        .step(-2840147720, 6900, 0, "CMT", Ghost(g))
        .step(-1637114100, 6264, 0, "BMT", Ghost(g))
        .step(-1213148664, 7200, 0, "EET", Ghost(g))
        .step(-1187056800, 7200, 3600, "EEST", Ghost(g))
        .step(-1175479200, 7200, 0, "EET", Ghost(g))
        .step(-1159754400, 7200, 3600, "EEST", Ghost(g))
        .step(-1144029600, 7200, 0, "EET", Ghost(g))
        .step(-1127700000, 7200, 3600, "EEST", Ghost(g))
        .step(-1111975200, 7200, 0, "EET", Ghost(g))
        .step(-1096250400, 7200, 3600, "EEST", Ghost(g))
        .step(-1080525600, 7200, 0, "EET", Ghost(g))
        .step(-1064800800, 7200, 3600, "EEST", Ghost(g))
        .step(-1049076000, 7200, 0, "EET", Ghost(g))
        .step(-1033351200, 7200, 3600, "EEST", Ghost(g))
        .step(-1017626400, 7200, 0, "EET", Ghost(g))
        .step(-1001901600, 7200, 3600, "EEST", Ghost(g))
        .step(-986176800, 7200, 0, "EET", Ghost(g))
        .step(-970452000, 7200, 3600, "EEST", Ghost(g))
        .step(-954727200, 7200, 0, "EET", Ghost(g))
        .step(-927165600, 7200, 3600, "EEST", Ghost(g))
        .step(-898138800, 3600, 3600, "CEST", Ghost(g))
        .step(-857257200, 3600, 0, "CET", Ghost(g))
        .step(-844556400, 3600, 3600, "CEST", Ghost(g))
        .step(-828226800, 3600, 0, "CET", Ghost(g))
        .step(-812502000, 3600, 3600, "CEST", Ghost(g))
        .step(-800157600, 10800, 0, "MSK", Ghost(g))
        .step(354920400, 10800, 3600, "MSD", Ghost(g))
        .step(370728000, 10800, 0, "MSK", Ghost(g))
        .step(386456400, 10800, 3600, "MSD", Ghost(g))
        .step(402264000, 10800, 0, "MSK", Ghost(g))
        .step(417992400, 10800, 3600, "MSD", Ghost(g))
        .step(433800000, 10800, 0, "MSK", Ghost(g))
        .step(449614800, 10800, 3600, "MSD", Ghost(g))
        .step(465346800, 10800, 0, "MSK", Ghost(g))
        .step(481071600, 10800, 3600, "MSD", Ghost(g))
        .step(496796400, 10800, 0, "MSK", Ghost(g))
        .step(512521200, 10800, 3600, "MSD", Ghost(g))
        .step(528246000, 10800, 0, "MSK", Ghost(g))
        .step(543970800, 10800, 3600, "MSD", Ghost(g))
        .step(559695600, 10800, 0, "MSK", Ghost(g))
        .step(575420400, 10800, 3600, "MSD", Ghost(g))
        .step(591145200, 10800, 0, "MSK", Ghost(g))
        .step(606870000, 10800, 3600, "MSD", Ghost(g))
        .step(622594800, 10800, 0, "MSK", Ghost(g))
        .step(638319600, 10800, 3600, "MSD", Ghost(g))
        .step(641944800, 7200, 3600, "EEST", Ghost(g))
        .step(654652800, 7200, 0, "EET", Ghost(g))
        .step(670377600, 7200, 3600, "EEST", Ghost(g))
        .step(686102400, 7200, 0, "EET", Ghost(g))
        .step(701820000, 7200, 3600, "EEST", Ghost(g))
        .step(717541200, 7200, 0, "EET", Ghost(g))
        .step(733269600, 7200, 3600, "EEST", Ghost(g))
        .step(748990800, 7200, 0, "EET", Ghost(g))
        .step(764719200, 7200, 3600, "EEST", Ghost(g))
        .step(780440400, 7200, 0, "EET", Ghost(g))
        .step(796168800, 7200, 3600, "EEST", Ghost(g))
        .step(811890000, 7200, 0, "EET", Ghost(g))
        .step(828223200, 7200, 3600, "EEST", Ghost(g))
        .step(846363600, 7200, 0, "EET", Ghost(g))
        .step(859680000, 7200, 3600, "EEST", Ghost(g))
        .step(877824000, 7200, 0, "EET", Ghost(g))
        .step(891129600, 7200, 3600, "EEST", Ghost(g))
        .step(909273600, 7200, 0, "EET", Ghost(g))
        .step(922579200, 7200, 3600, "EEST", Ghost(g))
        .step(941328000, 7200, 0, "EET", Ghost(g))
        .step(954028800, 7200, 3600, "EEST", Ghost(g))
        .step(972777600, 7200, 0, "EET", Ghost(g))
        .step(985478400, 7200, 3600, "EEST", Ghost(g))
        .step(1004227200, 7200, 0, "EET", Ghost(g))
        .step(1017532800, 7200, 3600, "EEST", Ghost(g))
        .step(1035676800, 7200, 0, "EET", Ghost(g))
        .step(1048982400, 7200, 3600, "EEST", Ghost(g))
        .step(1067126400, 7200, 0, "EET", Ghost(g))
        .step(1080432000, 7200, 3600, "EEST", Ghost(g))
        .step(1099180800, 7200, 0, "EET", Ghost(g))
        .step(1111881600, 7200, 3600, "EEST", Ghost(g))
        .step(1130630400, 7200, 0, "EET", Ghost(g))
        .step(1143331200, 7200, 3600, "EEST", Ghost(g))
        .step(1162080000, 7200, 0, "EET", Ghost(g))
        .step(1174780800, 7200, 3600, "EEST", Ghost(g))
        .step(1193529600, 7200, 0, "EET", Ghost(g))
        .step(1206835200, 7200, 3600, "EEST", Ghost(g))
        .step(1224979200, 7200, 0, "EET", Ghost(g))
        .step(1238284800, 7200, 3600, "EEST", Ghost(g))
        .step(1256428800, 7200, 0, "EET", Ghost(g))
        .step(1269734400, 7200, 3600, "EEST", Ghost(g))
        .step(1288483200, 7200, 0, "EET", Ghost(g))
        .step(1301184000, 7200, 3600, "EEST", Ghost(g))
        .step(1319932800, 7200, 0, "EET", Ghost(g))
        .step(1332633600, 7200, 3600, "EEST", Ghost(g))
        .step(1351382400, 7200, 0, "EET", Ghost(g))
        .step(1364688000, 7200, 3600, "EEST", Ghost(g))
        .step(1382832000, 7200, 0, "EET", Ghost(g))
        .step(1396137600, 7200, 3600, "EEST", Ghost(g))
        .step(1414281600, 7200, 0, "EET", Ghost(g))
        .step(1427587200, 7200, 3600, "EEST", Ghost(g))
        .step(1445731200, 7200, 0, "EET", Ghost(g))
        .step(1459036800, 7200, 3600, "EEST", Ghost(g))
        .step(1477785600, 7200, 0, "EET", Ghost(g))
        .step(1490486400, 7200, 3600, "EEST", Ghost(g))
        .step(1509235200, 7200, 0, "EET", Ghost(g))
        .step(1521936000, 7200, 3600, "EEST", Ghost(g))
        .step(1540684800, 7200, 0, "EET", Ghost(g))
        .step(1553990400, 7200, 3600, "EEST", Ghost(g))
        .step(1572134400, 7200, 0, "EET", Ghost(g))
        .step(1585440000, 7200, 3600, "EEST", Ghost(g))
        .step(1603584000, 7200, 0, "EET", Ghost(g))
        .step(1616889600, 7200, 3600, "EEST", Ghost(g))
        .step(1635638400, 7200, 0, "EET", Ghost(g))
        .step(1648339200, 7200, 3600, "EEST", Ghost(g))
        .step(1667088000, 7200, 0, "EET", Ghost(g))
        .step(1679788800, 7200, 3600, "EEST", Ghost(g))
        .step(1698537600, 7200, 0, "EET", Ghost(g))
        .step(1711843200, 7200, 3600, "EEST", Ghost(g))
        .step(1729987200, 7200, 0, "EET", Ghost(g))
        .step(1743292800, 7200, 3600, "EEST", Ghost(g))
        .step(1761436800, 7200, 0, "EET", Ghost(g))
        .step(1774742400, 7200, 3600, "EEST", Ghost(g))
        .step(1792886400, 7200, 0, "EET", Ghost(g))
        .step(1806192000, 7200, 3600, "EEST", Ghost(g))
        .step(1824940800, 7200, 0, "EET", Ghost(g))
        .step(1837641600, 7200, 3600, "EEST", Ghost(g))
        .step(1856390400, 7200, 0, "EET", Ghost(g))
        .step(1869091200, 7200, 3600, "EEST", Ghost(g))
        .step(1887840000, 7200, 0, "EET", Ghost(g))
        .step(1901145600, 7200, 3600, "EEST", Ghost(g))
        .step(1919289600, 7200, 0, "EET", Ghost(g))
        .step(1932595200, 7200, 3600, "EEST", Ghost(g))
        .step(1950739200, 7200, 0, "EET", Ghost(g))
        .step(1964044800, 7200, 3600, "EEST", Ghost(g))
        .step(1982793600, 7200, 0, "EET", Ghost(g))
        .step(1995494400, 7200, 3600, "EEST", Ghost(g))
        .step(2014243200, 7200, 0, "EET", Ghost(g))
        .step(2026944000, 7200, 3600, "EEST", Ghost(g))
        .step(2045692800, 7200, 0, "EET", Ghost(g))
        .step(2058393600, 7200, 3600, "EEST", Ghost(g))
        .step(2077142400, 7200, 0, "EET", Ghost(g))
        .step(2090448000, 7200, 3600, "EEST", Ghost(g))
        .step(2108592000, 7200, 0, "EET", Ghost(g))
        .step(2121897600, 7200, 3600, "EEST", Ghost(g))
        .step(2140041600, 7200, 0, "EET", Ghost(g))
        .finish(Ghost(g))
}

/// The zone `Europe/Ulyanovsk`.
pub fn ulyanovsk() -> (r: Tz)
    ensures
        r.wf(),
        r.zone_name() == "Europe/Ulyanovsk"@,
        r.table() == tables::europe::ulyanovsk(),
{
    let ghost g = tables::europe::ulyanovsk_rows();
    FixedTimespanSet::begin("Europe/Ulyanovsk", 11616, 0, "LMT", Ghost(g))
        .step(-1593820800, 10800, 0, "+03", Ghost(g))
        .step(-1247540400, 14400, 0, "+04", Ghost(g))
        .step(354916800, 14400, 3600, "+05", Ghost(g))
        .step(370724400, 14400, 0, "+04", Ghost(g))
        .step(386452800, 14400, 3600, "+05", Ghost(g))
        .step(402260400, 14400, 0, "+04", Ghost(g))
        .step(417988800, 14400, 3600, "+05", Ghost(g))
        .step(433796400, 14400, 0, "+04", Ghost(g))
        .step(449611200, 14400, 3600, "+05", Ghost(g))
        .step(465343200, 14400, 0, "+04", Ghost(g))
        .step(481068000, 14400, 3600, "+05", Ghost(g))
        .step(496792800, 14400, 0, "+04", Ghost(g))
        .step(512517600, 14400, 3600, "+05", Ghost(g))
        .step(528242400, 14400, 0, "+04", Ghost(g))
        .step(543967200, 14400, 3600, "+05", Ghost(g))
        .step(559692000, 14400, 0, "+04", Ghost(g))
        .step(575416800, 14400, 3600, "+05", Ghost(g))
        .step(591141600, 14400, 0, "+04", Ghost(g))
        .step(606866400, 10800, 3600, "+04", Ghost(g))
        .step(622594800, 10800, 0, "+03", Ghost(g))
        .step(638319600, 10800, 3600, "+04", Ghost(g))
        .step(654649200, 10800, 0, "+03", Ghost(g))
        .step(670374000, 7200, 3600, "+03", Ghost(g))
        .step(686102400, 7200, 0, "+02", Ghost(g))
        .step(695779200, 10800, 0, "+03", Ghost(g))
        .step(701823600, 10800, 3600, "+04", Ghost(g))
        .step(717548400, 10800, 0, "+03", Ghost(g))
        .step(733273200, 10800, 3600, "+04", Ghost(g))
        .step(748998000, 10800, 0, "+03", Ghost(g))
        .step(764722800, 10800, 3600, "+04", Ghost(g))
        .step(780447600, 10800, 0, "+03", Ghost(g))
        .step(796172400, 10800, 3600, "+04", Ghost(g))
        .step(811897200, 10800, 0, "+03", Ghost(g))
        .step(828226800, 10800, 3600, "+04", Ghost(g))
        .step(846370800, 10800, 0, "+03", Ghost(g))
        .step(859676400, 10800, 3600, "+04", Ghost(g))
        .step(877820400, 10800, 0, "+03", Ghost(g))
        .step(891126000, 10800, 3600, "+04", Ghost(g))
        .step(909270000, 10800, 0, "+03", Ghost(g))
        .step(922575600, 10800, 3600, "+04", Ghost(g))
        .step(941324400, 10800, 0, "+03", Ghost(g))
        .step(954025200, 10800, 3600, "+04", Ghost(g))
        .step(972774000, 10800, 0, "+03", Ghost(g))
        .step(985474800, 10800, 3600, "+04", Ghost(g))
        .step(1004223600, 10800, 0, "+03", Ghost(g))
        .step(1017529200, 10800, 3600, "+04", Ghost(g))
        .step(1035673200, 10800, 0, "+03", Ghost(g))
        .step(1048978800, 10800, 3600, "+04", Ghost(g))
        .step(1067122800, 10800, 0, "+03", Ghost(g))
        .step(1080428400, 10800, 3600, "+04", Ghost(g))
        .step(1099177200, 10800, 0, "+03", Ghost(g))
        .step(1111878000, 10800, 3600, "+04", Ghost(g))
        .step(1130626800, 10800, 0, "+03", Ghost(g))
        .step(1143327600, 10800, 3600, "+04", Ghost(g))
        .step(1162076400, 10800, 0, "+03", Ghost(g))
        .step(1174777200, 10800, 3600, "+04", Ghost(g))
        .step(1193526000, 10800, 0, "+03", Ghost(g))
        .step(1206831600, 10800, 3600, "+04", Ghost(g))
        .step(1224975600, 10800, 0, "+03", Ghost(g))
        .step(1238281200, 10800, 3600, "+04", Ghost(g))
        .step(1256425200, 10800, 0, "+03", Ghost(g))
        .step(1269730800, 10800, 3600, "+04", Ghost(g))
        .step(1288479600, 10800, 0, "+03", Ghost(g))
        .step(1301180400, 14400, 0, "+04", Ghost(g))
        .step(1414274400, 10800, 0, "+03", Ghost(g))
        .step(1459033200, 14400, 0, "+04", Ghost(g))
        .step(2147483647, 14400, 0, "+04", Ghost(g))
        .finish(Ghost(g))
}

/// The zone `Europe/Uzhgorod`.
pub fn uzhgorod() -> (r: Tz)
    ensures
        r.wf(),
        r.zone_name() == "Europe/Uzhgorod"@,
        r.table() == tables::europe::uzhgorod(),
{
    let ghost g = tables::europe::uzhgorod_rows();
    FixedTimespanSet::begin("Europe/Uzhgorod", 7324, 0, "LMT", Ghost(g))
        .step(-2840148124, 7324, 0, "KMT", Ghost(g))
        .step(-1441159324, 7200, 0, "EET", Ghost(g))
        .step(-1247536800, 10800, 0, "MSK", Ghost(g))
        .step(-892522800, 3600, 3600, "CEST", Ghost(g))
        .step(-857257200, 3600, 0, "CET", Ghost(g))
        .step(-844556400, 3600, 3600, "CEST", Ghost(g))
        .step(-828226800, 3600, 0, "CET", Ghost(g))
        .step(-825382800, 10800, 0, "MSK", Ghost(g))
        .step(354920400, 10800, 3600, "MSD", Ghost(g))
        .step(370728000, 10800, 0, "MSK", Ghost(g))
        .step(386456400, 10800, 3600, "MSD", Ghost(g))
        .step(402264000, 10800, 0, "MSK", Ghost(g))
        .step(417992400, 10800, 3600, "MSD", Ghost(g))
        .step(433800000, 10800, 0, "MSK", Ghost(g))
        .step(449614800, 10800, 3600, "MSD", Ghost(g))
        .step(465346800, 10800, 0, "MSK", Ghost(g))
        .step(481071600, 10800, 3600, "MSD", Ghost(g))
        .step(496796400, 10800, 0, "MSK", Ghost(g))
        .step(512521200, 10800, 3600, "MSD", Ghost(g))
        .step(528246000, 10800, 0, "MSK", Ghost(g))
        .step(543970800, 10800, 3600, "MSD", Ghost(g))
        .step(559695600, 10800, 0, "MSK", Ghost(g))
        .step(575420400, 10800, 3600, "MSD", Ghost(g))
        .step(591145200, 10800, 0, "MSK", Ghost(g))
        .step(606870000, 10800, 3600, "MSD", Ghost(g))
        .step(622594800, 10800, 0, "MSK", Ghost(g))
        .step(638319600, 10800, 3600, "MSD", Ghost(g))
        .step(646783200, 7200, 3600, "EEST", Ghost(g))
        .step(686102400, 7200, 0, "EET", Ghost(g))
        .step(701827200, 7200, 3600, "EEST", Ghost(g))
        .step(717552000, 7200, 0, "EET", Ghost(g))
        .step(733276800, 7200, 3600, "EEST", Ghost(g))
        .step(749001600, 7200, 0, "EET", Ghost(g))
        .step(764726400, 7200, 3600, "EEST", Ghost(g))
        .step(780451200, 7200, 0, "EET", Ghost(g))
        .step(796176000, 7200, 3600, "EEST", Ghost(g))
        .step(811900800, 7200, 0, "EET", Ghost(g))
        .step(828230400, 7200, 3600, "EEST", Ghost(g))
        .step(846378000, 7200, 0, "EET", Ghost(g))
        .step(859683600, 7200, 3600, "EEST", Ghost(g))
        .step(877827600, 7200, 0, "EET", Ghost(g))
        .step(891133200, 7200, 3600, "EEST", Ghost(g))
        .step(909277200, 7200, 0, "EET", Ghost(g))
        .step(922582800, 7200, 3600, "EEST", Ghost(g))
        .step(941331600, 7200, 0, "EET", Ghost(g))
        .step(954032400, 7200, 3600, "EEST", Ghost(g))
        .step(972781200, 7200, 0, "EET", Ghost(g))
        .step(985482000, 7200, 3600, "EEST", Ghost(g))
        .step(1004230800, 7200, 0, "EET", Ghost(g))
        .step(1017536400, 7200, 3600, "EEST", Ghost(g))
        .step(1035680400, 7200, 0, "EET", Ghost(g))
        .step(1048986000, 7200, 3600, "EEST", Ghost(g))
        .step(1067130000, 7200, 0, "EET", Ghost(g))
        .step(1080435600, 7200, 3600, "EEST", Ghost(g))
        .step(1099184400, 7200, 0, "EET", Ghost(g))
        .step(1111885200, 7200, 3600, "EEST", Ghost(g))
        .step(1130634000, 7200, 0, "EET", Ghost(g))
        .step(1143334800, 7200, 3600, "EEST", Ghost(g))
        .step(1162083600, 7200, 0, "EET", Ghost(g))
        .step(1174784400, 7200, 3600, "EEST", Ghost(g))
        .step(1193533200, 7200, 0, "EET", Ghost(g))
        .step(1206838800, 7200, 3600, "EEST", Ghost(g))
        .step(1224982800, 7200, 0, "EET", Ghost(g))
        .step(1238288400, 7200, 3600, "EEST", Ghost(g))
        .step(1256432400, 7200, 0, "EET", Ghost(g))
        .step(1269738000, 7200, 3600, "EEST", Ghost(g))
        .step(1288486800, 7200, 0, "EET", Ghost(g))
        .step(1301187600, 7200, 3600, "EEST", Ghost(g))
        .step(1319936400, 7200, 0, "EET", Ghost(g))
        .step(1332637200, 7200, 3600, "EEST", Ghost(g))
        .step(1351386000, 7200, 0, "EET", Ghost(g))
        .step(1364691600, 7200, 3600, "EEST", Ghost(g))
        .step(1382835600, 7200, 0, "EET", Ghost(g))
        .step(1396141200, 7200, 3600, "EEST", Ghost(g))
        .step(1414285200, 7200, 0, "EET", Ghost(g))
        .step(1427590800, 7200, 3600, "EEST", Ghost(g))
        .step(1445734800, 7200, 0, "EET", Ghost(g))
        .step(1459040400, 7200, 3600, "EEST", Ghost(g))
        .step(1477789200, 7200, 0, "EET", Ghost(g))
        .step(1490490000, 7200, 3600, "EEST", Ghost(g))
        .step(1509238800, 7200, 0, "EET", Ghost(g))
        .step(1521939600, 7200, 3600, "EEST", Ghost(g))
        .step(1540688400, 7200, 0, "EET", Ghost(g))
        .step(1553994000, 7200, 3600, "EEST", Ghost(g))
        .step(1572138000, 7200, 0, "EET", Ghost(g))
        .step(1585443600, 7200, 3600, "EEST", Ghost(g))
        .step(1603587600, 7200, 0, "EET", Ghost(g))
        .step(1616893200, 7200, 3600, "EEST", Ghost(g))
        .step(1635642000, 7200, 0, "EET", Ghost(g))
        .step(1648342800, 7200, 3600, "EEST", Ghost(g))
        .step(1667091600, 7200, 0, "EET", Ghost(g))
        .step(1679792400, 7200, 3600, "EEST", Ghost(g))
        .step(1698541200, 7200, 0, "EET", Ghost(g))
        .step(1711846800, 7200, 3600, "EEST", Ghost(g))
        .step(1729990800, 7200, 0, "EET", Ghost(g))
        .step(1743296400, 7200, 3600, "EEST", Ghost(g))
        .step(1761440400, 7200, 0, "EET", Ghost(g))
        .step(1774746000, 7200, 3600, "EEST", Ghost(g))
        .step(1792890000, 7200, 0, "EET", Ghost(g))
        .step(1806195600, 7200, 3600, "EEST", Ghost(g))
        .step(1824944400, 7200, 0, "EET", Ghost(g))
        .step(1837645200, 7200, 3600, "EEST", Ghost(g))
        .step(1856394000, 7200, 0, "EET", Ghost(g))
        .step(1869094800, 7200, 3600, "EEST", Ghost(g))
        .step(1887843600, 7200, 0, "EET", Ghost(g))
        .step(1901149200, 7200, 3600, "EEST", Ghost(g))
        .step(1919293200, 7200, 0, "EET", Ghost(g))
        .step(1932598800, 7200, 3600, "EEST", Ghost(g))
        .step(1950742800, 7200, 0, "EET", Ghost(g))
        .step(1964048400, 7200, 3600, "EEST", Ghost(g))
        .step(1982797200, 7200, 0, "EET", Ghost(g))
        .step(1995498000, 7200, 3600, "EEST", Ghost(g))
        .step(2014246800, 7200, 0, "EET", Ghost(g))
        .step(2026947600, 7200, 3600, "EEST", Ghost(g))
        .step(2045696400, 7200, 0, "EET", Ghost(g))
        .step(2058397200, 7200, 3600, "EEST", Ghost(g))
        .step(2077146000, 7200, 0, "EET", Ghost(g))
        .step(2090451600, 7200, 3600, "EEST", Ghost(g))
        .step(2108595600, 7200, 0, "EET", Ghost(g))
        .step(2121901200, 7200, 3600, "EEST", Ghost(g))
        .step(2140045200, 7200, 0, "EET", Ghost(g))
        .finish(Ghost(g))
}

/// The zone `Europe/Vaduz`.
pub fn vaduz() -> (r: Tz)
    ensures
        r.wf(),
        r.zone_name() == "Europe/Vaduz"@,
        r.table() == tables::europe::vaduz(),
{
    let ghost g = tables::europe::vaduz_rows();
    FixedTimespanSet::begin("Europe/Vaduz", 2284, 0, "LMT", Ghost(g))
        .step(-2385247084, 3600, 0, "CET", Ghost(g))
        .step(-904435200, 3600, 3600, "CEST", Ghost(g))
        .step(-891129600, 3600, 0, "CET", Ghost(g))
        .step(-872985600, 3600, 3600, "CEST", Ghost(g))
        .step(-859680000, 3600, 0, "CET", Ghost(g))
        .step(354675600, 3600, 3600, "CEST", Ghost(g))
        .step(370400400, 3600, 0, "CET", Ghost(g))
        .step(386125200, 3600, 3600, "CEST", Ghost(g))
        .step(401850000, 3600, 0, "CET", Ghost(g))
        .step(417574800, 3600, 3600, "CEST", Ghost(g))
        .step(433299600, 3600, 0, "CET", Ghost(g))
        .step(449024400, 3600, 3600, "CEST", Ghost(g))
        .step(465354000, 3600, 0, "CET", Ghost(g))
        .step(481078800, 3600, 3600, "CEST", Ghost(g))
        .step(496803600, 3600, 0, "CET", Ghost(g))
        .step(512528400, 3600, 3600, "CEST", Ghost(g))
        .step(528253200, 3600, 0, "CET", Ghost(g))
        .step(543978000, 3600, 3600, "CEST", Ghost(g))
        .step(559702800, 3600, 0, "CET", Ghost(g))
        .step(575427600, 3600, 3600, "CEST", Ghost(g))
        .step(591152400, 3600, 0, "CET", Ghost(g))
        .step(606877200, 3600, 3600, "CEST", Ghost(g))
        .step(622602000, 3600, 0, "CET", Ghost(g))
        .step(638326800, 3600, 3600, "CEST", Ghost(g))
        .step(654656400, 3600, 0, "CET", Ghost(g))
        .step(670381200, 3600, 3600, "CEST", Ghost(g))
        .step(686106000, 3600, 0, "CET", Ghost(g))
        .step(701830800, 3600, 3600, "CEST", Ghost(g))
        .step(717555600, 3600, 0, "CET", Ghost(g))
        .step(733280400, 3600, 3600, "CEST", Ghost(g))
        .step(749005200, 3600, 0, "CET", Ghost(g))
        .step(764730000, 3600, 3600, "CEST", Ghost(g))
        .step(780454800, 3600, 0, "CET", Ghost(g))
        .step(796179600, 3600, 3600, "CEST", Ghost(g))
        .step(811904400, 3600, 0, "CET", Ghost(g))
        .step(828234000, 3600, 3600, "CEST", Ghost(g))
        .step(846378000, 3600, 0, "CET", Ghost(g))
        .step(859683600, 3600, 3600, "CEST", Ghost(g))
        .step(877827600, 3600, 0, "CET", Ghost(g))
        .step(891133200, 3600, 3600, "CEST", Ghost(g))
        .step(909277200, 3600, 0, "CET", Ghost(g))
        .step(922582800, 3600, 3600, "CEST", Ghost(g))
        .step(941331600, 3600, 0, "CET", Ghost(g))
        .step(954032400, 3600, 3600, "CEST", Ghost(g))
        .step(972781200, 3600, 0, "CET", Ghost(g))
        .step(985482000, 3600, 3600, "CEST", Ghost(g))
        .step(1004230800, 3600, 0, "CET", Ghost(g))
        .step(1017536400, 3600, 3600, "CEST", Ghost(g))
        .step(1035680400, 3600, 0, "CET", Ghost(g))
        .step(1048986000, 3600, 3600, "CEST", Ghost(g))
        .step(1067130000, 3600, 0, "CET", Ghost(g))
        .step(1080435600, 3600, 3600, "CEST", Ghost(g))
        .step(1099184400, 3600, 0, "CET", Ghost(g))
        .step(1111885200, 3600, 3600, "CEST", Ghost(g))
        .step(1130634000, 3600, 0, "CET", Ghost(g))
        .step(1143334800, 3600, 3600, "CEST", Ghost(g))
        .step(1162083600, 3600, 0, "CET", Ghost(g))
        .step(1174784400, 3600, 3600, "CEST", Ghost(g))
        .step(1193533200, 3600, 0, "CET", Ghost(g))
        .step(1206838800, 3600, 3600, "CEST", Ghost(g))
        .step(1224982800, 3600, 0, "CET", Ghost(g))
        .step(1238288400, 3600, 3600, "CEST", Ghost(g))
        .step(1256432400, 3600, 0, "CET", Ghost(g))
        .step(1269738000, 3600, 3600, "CEST", Ghost(g))
        .step(1288486800, 3600, 0, "CET", Ghost(g))
        .step(1301187600, 3600, 3600, "CEST", Ghost(g))
        .step(1319936400, 3600, 0, "CET", Ghost(g))
        .step(1332637200, 3600, 3600, "CEST", Ghost(g))
        .step(1351386000, 3600, 0, "CET", Ghost(g))
        .step(1364691600, 3600, 3600, "CEST", Ghost(g))
        .step(1382835600, 3600, 0, "CET", Ghost(g))
        .step(1396141200, 3600, 3600, "CEST", Ghost(g))
        .step(1414285200, 3600, 0, "CET", Ghost(g))
        .step(1427590800, 3600, 3600, "CEST", Ghost(g))
        .step(1445734800, 3600, 0, "CET", Ghost(g))
        .step(1459040400, 3600, 3600, "CEST", Ghost(g))
        .step(1477789200, 3600, 0, "CET", Ghost(g))
        .step(1490490000, 3600, 3600, "CEST", Ghost(g))
        .step(1509238800, 3600, 0, "CET", Ghost(g))
        .step(1521939600, 3600, 3600, "CEST", Ghost(g))
        .step(1540688400, 3600, 0, "CET", Ghost(g))
        .step(1553994000, 3600, 3600, "CEST", Ghost(g))
        .step(1572138000, 3600, 0, "CET", Ghost(g))
        .step(1585443600, 3600, 3600, "CEST", Ghost(g))
        .step(1603587600, 3600, 0, "CET", Ghost(g))
        .step(1616893200, 3600, 3600, "CEST", Ghost(g))
        .step(1635642000, 3600, 0, "CET", Ghost(g))
        .step(1648342800, 3600, 3600, "CEST", Ghost(g))
        .step(1667091600, 3600, 0, "CET", Ghost(g))
        .step(1679792400, 3600, 3600, "CEST", Ghost(g))
        .step(1698541200, 3600, 0, "CET", Ghost(g))
        .step(1711846800, 3600, 3600, "CEST", Ghost(g))
        .step(1729990800, 3600, 0, "CET", Ghost(g))
        .step(1743296400, 3600, 3600, "CEST", Ghost(g))
        .step(1761440400, 3600, 0, "CET", Ghost(g))
        .step(1774746000, 3600, 3600, "CEST", Ghost(g))
        .step(1792890000, 3600, 0, "CET", Ghost(g))
        .step(1806195600, 3600, 3600, "CEST", Ghost(g))
        .step(1824944400, 3600, 0, "CET", Ghost(g))
        .step(1837645200, 3600, 3600, "CEST", Ghost(g))
        .step(1856394000, 3600, 0, "CET", Ghost(g))
        .step(1869094800, 3600, 3600, "CEST", Ghost(g))
        .step(1887843600, 3600, 0, "CET", Ghost(g))
        .step(1901149200, 3600, 3600, "CEST", Ghost(g))
        .step(1919293200, 3600, 0, "CET", Ghost(g))
        .step(1932598800, 3600, 3600, "CEST", Ghost(g))
        .step(1950742800, 3600, 0, "CET", Ghost(g))
        .step(1964048400, 3600, 3600, "CEST", Ghost(g))
        .step(1982797200, 3600, 0, "CET", Ghost(g))
        .step(1995498000, 3600, 3600, "CEST", Ghost(g))
        .step(2014246800, 3600, 0, "CET", Ghost(g))
        .step(2026947600, 3600, 3600, "CEST", Ghost(g))
        .step(2045696400, 3600, 0, "CET", Ghost(g))
        .step(2058397200, 3600, 3600, "CEST", Ghost(g))
        .step(2077146000, 3600, 0, "CET", Ghost(g))
        .step(2090451600, 3600, 3600, "CEST", Ghost(g))
        .step(2108595600, 3600, 0, "CET", Ghost(g))
        .step(2121901200, 3600, 3600, "CEST", Ghost(g))
        .step(2140045200, 3600, 0, "CET", Ghost(g))
        .finish(Ghost(g))
}

/// The zone `Europe/Vatican`.
pub fn vatican() -> (r: Tz)
    ensures
        r.wf(),
        r.zone_name() == "Europe/Vatican"@,
        r.table() == tables::europe::vatican(),
{
    let ghost g = tables::europe::vatican_rows();
    FixedTimespanSet::begin("Europe/Vatican", 2996, 0, "LMT", Ghost(g))
        .step(-3252098996, 2996, 0, "RMT", Ghost(g))
        .step(-2403565200, 3600, 0, "CET", Ghost(g))
        .step(-1690765200, 3600, 3600, "CEST", Ghost(g))
        .step(-1680487200, 3600, 0, "CET", Ghost(g))
        .step(-1664758800, 3600, 3600, "CEST", Ghost(g))
        .step(-1648951200, 3600, 0, "CET", Ghost(g))
        .step(-1635123600, 3600, 3600, "CEST", Ghost(g))
        .step(-1616896800, 3600, 0, "CET", Ghost(g))
        .step(-1604278800, 3600, 3600, "CEST", Ghost(g))
        .step(-1585533600, 3600, 0, "CET", Ghost(g))
        .step(-1571014800, 3600, 3600, "CEST", Ghost(g))
        .step(-1555293600, 3600, 0, "CET", Ghost(g))
        .step(-932432400, 3600, 3600, "CEST", Ghost(g))
        .step(-857257200, 3600, 0, "CET", Ghost(g))
        .step(-844556400, 3600, 3600, "CEST", Ghost(g))
        .step(-828226800, 3600, 0, "CET", Ghost(g))
        .step(-812502000, 3600, 3600, "CEST", Ghost(g))
        .step(-798073200, 3600, 0, "CET", Ghost(g))
        .step(-781052400, 3600, 3600, "CEST", Ghost(g))
        .step(-766717200, 3600, 0, "CET", Ghost(g))
        .step(-750898800, 3600, 3600, "CEST", Ghost(g))
        .step(-733359600, 3600, 0, "CET", Ghost(g))
        .step(-719456400, 3600, 3600, "CEST", Ghost(g))
        .step(-701917200, 3600, 0, "CET", Ghost(g))
        .step(-689209200, 3600, 3600, "CEST", Ghost(g))
        .step(-670460400, 3600, 0, "CET", Ghost(g))
        .step(-114051600, 3600, 3600, "CEST", Ghost(g))
        .step(-103168800, 3600, 0, "CET", Ghost(g))
        .step(-81997200, 3600, 3600, "CEST", Ghost(g))
        .step(-71715600, 3600, 0, "CET", Ghost(g))
        .step(-50547600, 3600, 3600, "CEST", Ghost(g))
        .step(-40266000, 3600, 0, "CET", Ghost(g))
        .step(-18493200, 3600, 3600, "CEST", Ghost(g))
        .step(-8211600, 3600, 0, "CET", Ghost(g))
        .step(12956400, 3600, 3600, "CEST", Ghost(g))
        .step(23238000, 3600, 0, "CET", Ghost(g))
        .step(43801200, 3600, 3600, "CEST", Ghost(g))
        .step(54687600, 3600, 0, "CET", Ghost(g))
        .step(75855600, 3600, 3600, "CEST", Ghost(g))
        .step(86742000, 3600, 0, "CET", Ghost(g))
        .step(107910000, 3600, 3600, "CEST", Ghost(g))
        .step(118191600, 3600, 0, "CET", Ghost(g))
        .step(138754800, 3600, 3600, "CEST", Ghost(g))
        .step(149641200, 3600, 0, "CET", Ghost(g))
        .step(170809200, 3600, 3600, "CEST", Ghost(g))
        .step(181090800, 3600, 0, "CET", Ghost(g))
        .step(202258800, 3600, 3600, "CEST", Ghost(g))
        .step(212540400, 3600, 0, "CET", Ghost(g))
        .step(233103600, 3600, 3600, "CEST", Ghost(g))
        .step(243990000, 3600, 0, "CET", Ghost(g))
        .step(265158000, 3600, 3600, "CEST", Ghost(g))
        .step(276044400, 3600, 0, "CET", Ghost(g))
        .step(296607600, 3600, 3600, "CEST", Ghost(g))
        .step(307494000, 3600, 0, "CET", Ghost(g))
        .step(323830800, 3600, 3600, "CEST", Ghost(g))
        .step(338950800, 3600, 0, "CET", Ghost(g))
        .step(354675600, 3600, 3600, "CEST", Ghost(g))
        .step(370400400, 3600, 0, "CET", Ghost(g))
        .step(386125200, 3600, 3600, "CEST", Ghost(g))
        .step(401850000, 3600, 0, "CET", Ghost(g))
        .step(417574800, 3600, 3600, "CEST", Ghost(g))
        .step(433299600, 3600, 0, "CET", Ghost(g))
        .step(449024400, 3600, 3600, "CEST", Ghost(g))
        .step(465354000, 3600, 0, "CET", Ghost(g))
        .step(481078800, 3600, 3600, "CEST", Ghost(g))
        .step(496803600, 3600, 0, "CET", Ghost(g))
        .step(512528400, 3600, 3600, "CEST", Ghost(g))
        .step(528253200, 3600, 0, "CET", Ghost(g))
        .step(543978000, 3600, 3600, "CEST", Ghost(g))
        .step(559702800, 3600, 0, "CET", Ghost(g))
        .step(575427600, 3600, 3600, "CEST", Ghost(g))
        .step(591152400, 3600, 0, "CET", Ghost(g))
        .step(606877200, 3600, 3600, "CEST", Ghost(g))
        .step(622602000, 3600, 0, "CET", Ghost(g))
        .step(638326800, 3600, 3600, "CEST", Ghost(g))
        .step(654656400, 3600, 0, "CET", Ghost(g))
        .step(670381200, 3600, 3600, "CEST", Ghost(g))
        .step(686106000, 3600, 0, "CET", Ghost(g))
        .step(701830800, 3600, 3600, "CEST", Ghost(g))
        .step(717555600, 3600, 0, "CET", Ghost(g))
        .step(733280400, 3600, 3600, "CEST", Ghost(g))
        .step(749005200, 3600, 0, "CET", Ghost(g))
        .step(764730000, 3600, 3600, "CEST", Ghost(g))
        .step(780454800, 3600, 0, "CET", Ghost(g))
        .step(796179600, 3600, 3600, "CEST", Ghost(g))
        .step(811904400, 3600, 0, "CET", Ghost(g))
        .step(828234000, 3600, 3600, "CEST", Ghost(g))
        .step(846378000, 3600, 0, "CET", Ghost(g))
        .step(859683600, 3600, 3600, "CEST", Ghost(g))
        .step(877827600, 3600, 0, "CET", Ghost(g))
        .step(891133200, 3600, 3600, "CEST", Ghost(g))
        .step(909277200, 3600, 0, "CET", Ghost(g))
        .step(922582800, 3600, 3600, "CEST", Ghost(g))
        .step(941331600, 3600, 0, "CET", Ghost(g))
        .step(954032400, 3600, 3600, "CEST", Ghost(g))
        .step(972781200, 3600, 0, "CET", Ghost(g))
        .step(985482000, 3600, 3600, "CEST", Ghost(g))
        .step(1004230800, 3600, 0, "CET", Ghost(g))
        .step(1017536400, 3600, 3600, "CEST", Ghost(g))
        .step(1035680400, 3600, 0, "CET", Ghost(g))
        .step(1048986000, 3600, 3600, "CEST", Ghost(g))
        .step(1067130000, 3600, 0, "CET", Ghost(g))
        .step(1080435600, 3600, 3600, "CEST", Ghost(g))
        .step(1099184400, 3600, 0, "CET", Ghost(g))
        .step(1111885200, 3600, 3600, "CEST", Ghost(g))
        .step(1130634000, 3600, 0, "CET", Ghost(g))
        .step(1143334800, 3600, 3600, "CEST", Ghost(g))
        .step(1162083600, 3600, 0, "CET", Ghost(g))
        .step(1174784400, 3600, 3600, "CEST", Ghost(g))
        .step(1193533200, 3600, 0, "CET", Ghost(g))
        .step(1206838800, 3600, 3600, "CEST", Ghost(g))
        .step(1224982800, 3600, 0, "CET", Ghost(g))
        .step(1238288400, 3600, 3600, "CEST", Ghost(g))
        .step(1256432400, 3600, 0, "CET", Ghost(g))
        .step(1269738000, 3600, 3600, "CEST", Ghost(g))
        .step(1288486800, 3600, 0, "CET", Ghost(g))
        .step(1301187600, 3600, 3600, "CEST", Ghost(g))
        .step(1319936400, 3600, 0, "CET", Ghost(g))
        .step(1332637200, 3600, 3600, "CEST", Ghost(g))
        .step(1351386000, 3600, 0, "CET", Ghost(g))
        .step(1364691600, 3600, 3600, "CEST", Ghost(g))
        .step(1382835600, 3600, 0, "CET", Ghost(g))
        .step(1396141200, 3600, 3600, "CEST", Ghost(g))
        .step(1414285200, 3600, 0, "CET", Ghost(g))
        .step(1427590800, 3600, 3600, "CEST", Ghost(g))
        .step(1445734800, 3600, 0, "CET", Ghost(g))
        .step(1459040400, 3600, 3600, "CEST", Ghost(g))
        .step(1477789200, 3600, 0, "CET", Ghost(g))
        .step(1490490000, 3600, 3600, "CEST", Ghost(g))
        .step(1509238800, 3600, 0, "CET", Ghost(g))
        .step(1521939600, 3600, 3600, "CEST", Ghost(g))
        .step(1540688400, 3600, 0, "CET", Ghost(g))
        .step(1553994000, 3600, 3600, "CEST", Ghost(g))
        .step(1572138000, 3600, 0, "CET", Ghost(g))
        .step(1585443600, 3600, 3600, "CEST", Ghost(g))
        .step(1603587600, 3600, 0, "CET", Ghost(g))
        .step(1616893200, 3600, 3600, "CEST", Ghost(g))
        .step(1635642000, 3600, 0, "CET", Ghost(g))
        .step(1648342800, 3600, 3600, "CEST", Ghost(g))
        .step(1667091600, 3600, 0, "CET", Ghost(g))
        .step(1679792400, 3600, 3600, "CEST", Ghost(g))
        .step(1698541200, 3600, 0, "CET", Ghost(g))
        .step(1711846800, 3600, 3600, "CEST", Ghost(g))
        .step(1729990800, 3600, 0, "CET", Ghost(g))
        .step(1743296400, 3600, 3600, "CEST", Ghost(g))
        .step(1761440400, 3600, 0, "CET", Ghost(g))
        .step(1774746000, 3600, 3600, "CEST", Ghost(g))
        .step(1792890000, 3600, 0, "CET", Ghost(g))
        .step(1806195600, 3600, 3600, "CEST", Ghost(g))
        .step(1824944400, 3600, 0, "CET", Ghost(g))
        .step(1837645200, 3600, 3600, "CEST", Ghost(g))
        .step(1856394000, 3600, 0, "CET", Ghost(g))
        .step(1869094800, 3600, 3600, "CEST", Ghost(g))
        .step(1887843600, 3600, 0, "CET", Ghost(g))
        .step(1901149200, 3600, 3600, "CEST", Ghost(g))
        .step(1919293200, 3600, 0, "CET", Ghost(g))
        .step(1932598800, 3600, 3600, "CEST", Ghost(g))
        .step(1950742800, 3600, 0, "CET", Ghost(g))
        .step(1964048400, 3600, 3600, "CEST", Ghost(g))
        .step(1982797200, 3600, 0, "CET", Ghost(g))
        .step(1995498000, 3600, 3600, "CEST", Ghost(g))
        .step(2014246800, 3600, 0, "CET", Ghost(g))
        .step(2026947600, 3600, 3600, "CEST", Ghost(g))
        .step(2045696400, 3600, 0, "CET", Ghost(g))
        .step(2058397200, 3600, 3600, "CEST", Ghost(g))
        .step(2077146000, 3600, 0, "CET", Ghost(g))
        .step(2090451600, 3600, 3600, "CEST", Ghost(g))
        .step(2108595600, 3600, 0, "CET", Ghost(g))
        .step(2121901200, 3600, 3600, "CEST", Ghost(g))
        .step(2140045200, 3600, 0, "CET", Ghost(g))
        .finish(Ghost(g))
}

/// The zone `Europe/Vienna`.
pub fn vienna() -> (r: Tz)
    ensures
        r.wf(),
        r.zone_name() == "Europe/Vienna"@,
        r.table() == tables::europe::vienna(),
{
    let ghost g = tables::europe::vienna_rows();
    FixedTimespanSet::begin("Europe/Vienna", 3921, 0, "LMT", Ghost(g))
        .step(-2422055121, 3600, 0, "CET", Ghost(g))
        .step(-1693706400, 3600, 3600, "CEST", Ghost(g))
        .step(-1680483600, 3600, 0, "CET", Ghost(g))
        .step(-1663455600, 3600, 3600, "CEST", Ghost(g))
        .step(-1650150000, 3600, 0, "CET", Ghost(g))
        .step(-1632006000, 3600, 3600, "CEST", Ghost(g))
        .step(-1618700400, 3600, 0, "CET", Ghost(g))
        .step(-1569711600, 3600, 3600, "CEST", Ghost(g))
        .step(-1555801200, 3600, 0, "CET", Ghost(g))
        .step(-938905200, 3600, 3600, "CEST", Ghost(g))
        .step(-857257200, 3600, 0, "CET", Ghost(g))
        .step(-844556400, 3600, 3600, "CEST", Ghost(g))
        .step(-828226800, 3600, 0, "CET", Ghost(g))
        .step(-812502000, 3600, 3600, "CEST", Ghost(g))
        .step(-796777200, 3600, 0, "CET", Ghost(g))
        .step(-781052400, 3600, 3600, "CEST", Ghost(g))
        .step(-780188400, 3600, 0, "CET", Ghost(g))
        .step(-748479600, 3600, 3600, "CEST", Ghost(g))
        .step(-733273200, 3600, 0, "CET", Ghost(g))
        .step(-717634800, 3600, 3600, "CEST", Ghost(g))
        .step(-701910000, 3600, 0, "CET", Ghost(g))
        .step(-684975600, 3600, 3600, "CEST", Ghost(g))
        .step(-670460400, 3600, 0, "CET", Ghost(g))
        .step(323823600, 3600, 3600, "CEST", Ghost(g))
        .step(338940000, 3600, 0, "CET", Ghost(g))
        .step(354675600, 3600, 3600, "CEST", Ghost(g))
        .step(370400400, 3600, 0, "CET", Ghost(g))
        .step(386125200, 3600, 3600, "CEST", Ghost(g))
        .step(401850000, 3600, 0, "CET", Ghost(g))
        .step(417574800, 3600, 3600, "CEST", Ghost(g))
        .step(433299600, 3600, 0, "CET", Ghost(g))
        .step(449024400, 3600, 3600, "CEST", Ghost(g))
        .step(465354000, 3600, 0, "CET", Ghost(g))
        .step(481078800, 3600, 3600, "CEST", Ghost(g))
        .step(496803600, 3600, 0, "CET", Ghost(g))
        .step(512528400, 3600, 3600, "CEST", Ghost(g))
        .step(528253200, 3600, 0, "CET", Ghost(g))
        .step(543978000, 3600, 3600, "CEST", Ghost(g))
        .step(559702800, 3600, 0, "CET", Ghost(g))
        .step(575427600, 3600, 3600, "CEST", Ghost(g))
        .step(591152400, 3600, 0, "CET", Ghost(g))
        .step(606877200, 3600, 3600, "CEST", Ghost(g))
        .step(622602000, 3600, 0, "CET", Ghost(g))
        .step(638326800, 3600, 3600, "CEST", Ghost(g))
        .step(654656400, 3600, 0, "CET", Ghost(g))
        .step(670381200, 3600, 3600, "CEST", Ghost(g))
        .step(686106000, 3600, 0, "CET", Ghost(g))
        .step(701830800, 3600, 3600, "CEST", Ghost(g))
        .step(717555600, 3600, 0, "CET", Ghost(g))
        .step(733280400, 3600, 3600, "CEST", Ghost(g))
        .step(749005200, 3600, 0, "CET", Ghost(g))
        .step(764730000, 3600, 3600, "CEST", Ghost(g))
        .step(780454800, 3600, 0, "CET", Ghost(g))
        .step(796179600, 3600, 3600, "CEST", Ghost(g))
        .step(811904400, 3600, 0, "CET", Ghost(g))
        .step(828234000, 3600, 3600, "CEST", Ghost(g))
        .step(846378000, 3600, 0, "CET", Ghost(g))
        .step(859683600, 3600, 3600, "CEST", Ghost(g))
        .step(877827600, 3600, 0, "CET", Ghost(g))
        .step(891133200, 3600, 3600, "CEST", Ghost(g))
        .step(909277200, 3600, 0, "CET", Ghost(g))
        .step(922582800, 3600, 3600, "CEST", Ghost(g))
        .step(941331600, 3600, 0, "CET", Ghost(g))
        .step(954032400, 3600, 3600, "CEST", Ghost(g))
        .step(972781200, 3600, 0, "CET", Ghost(g))
        .step(985482000, 3600, 3600, "CEST", Ghost(g))
        .step(1004230800, 3600, 0, "CET", Ghost(g))
        .step(1017536400, 3600, 3600, "CEST", Ghost(g))
        .step(1035680400, 3600, 0, "CET", Ghost(g))
        .step(1048986000, 3600, 3600, "CEST", Ghost(g))
        .step(1067130000, 3600, 0, "CET", Ghost(g))
        .step(1080435600, 3600, 3600, "CEST", Ghost(g))
        .step(1099184400, 3600, 0, "CET", Ghost(g))
        .step(1111885200, 3600, 3600, "CEST", Ghost(g))
        .step(1130634000, 3600, 0, "CET", Ghost(g))
        .step(1143334800, 3600, 3600, "CEST", Ghost(g))
        .step(1162083600, 3600, 0, "CET", Ghost(g))
        .step(1174784400, 3600, 3600, "CEST", Ghost(g))
        .step(1193533200, 3600, 0, "CET", Ghost(g))
        .step(1206838800, 3600, 3600, "CEST", Ghost(g))
        .step(1224982800, 3600, 0, "CET", Ghost(g))
        .step(1238288400, 3600, 3600, "CEST", Ghost(g))
        .step(1256432400, 3600, 0, "CET", Ghost(g))
        .step(1269738000, 3600, 3600, "CEST", Ghost(g))
        .step(1288486800, 3600, 0, "CET", Ghost(g))
        .step(1301187600, 3600, 3600, "CEST", Ghost(g))
        .step(1319936400, 3600, 0, "CET", Ghost(g))
        .step(1332637200, 3600, 3600, "CEST", Ghost(g))
        .step(1351386000, 3600, 0, "CET", Ghost(g))
        .step(1364691600, 3600, 3600, "CEST", Ghost(g))
        .step(1382835600, 3600, 0, "CET", Ghost(g))
        .step(1396141200, 3600, 3600, "CEST", Ghost(g))
        .step(1414285200, 3600, 0, "CET", Ghost(g))
        .step(1427590800, 3600, 3600, "CEST", Ghost(g))
        .step(1445734800, 3600, 0, "CET", Ghost(g))
        .step(1459040400, 3600, 3600, "CEST", Ghost(g))
        .step(1477789200, 3600, 0, "CET", Ghost(g))
        .step(1490490000, 3600, 3600, "CEST", Ghost(g))
        .step(1509238800, 3600, 0, "CET", Ghost(g))
        .step(1521939600, 3600, 3600, "CEST", Ghost(g))
        .step(1540688400, 3600, 0, "CET", Ghost(g))
        .step(1553994000, 3600, 3600, "CEST", Ghost(g))
        .step(1572138000, 3600, 0, "CET", Ghost(g))
        .step(1585443600, 3600, 3600, "CEST", Ghost(g))
        .step(1603587600, 3600, 0, "CET", Ghost(g))
        .step(1616893200, 3600, 3600, "CEST", Ghost(g))
        .step(1635642000, 3600, 0, "CET", Ghost(g))
        .step(1648342800, 3600, 3600, "CEST", Ghost(g))
        .step(1667091600, 3600, 0, "CET", Ghost(g))
        .step(1679792400, 3600, 3600, "CEST", Ghost(g))
        .step(1698541200, 3600, 0, "CET", Ghost(g))
        .step(1711846800, 3600, 3600, "CEST", Ghost(g))
        .step(1729990800, 3600, 0, "CET", Ghost(g))
        .step(1743296400, 3600, 3600, "CEST", Ghost(g))
        .step(1761440400, 3600, 0, "CET", Ghost(g))
        .step(1774746000, 3600, 3600, "CEST", Ghost(g))
        .step(1792890000, 3600, 0, "CET", Ghost(g))
        .step(1806195600, 3600, 3600, "CEST", Ghost(g))
        .step(1824944400, 3600, 0, "CET", Ghost(g))
        .step(1837645200, 3600, 3600, "CEST", Ghost(g))
        .step(1856394000, 3600, 0, "CET", Ghost(g))
        .step(1869094800, 3600, 3600, "CEST", Ghost(g))
        .step(1887843600, 3600, 0, "CET", Ghost(g))
        .step(1901149200, 3600, 3600, "CEST", Ghost(g))
        .step(1919293200, 3600, 0, "CET", Ghost(g))
        .step(1932598800, 3600, 3600, "CEST", Ghost(g))
        .step(1950742800, 3600, 0, "CET", Ghost(g))
        .step(1964048400, 3600, 3600, "CEST", Ghost(g))
        .step(1982797200, 3600, 0, "CET", Ghost(g))
        .step(1995498000, 3600, 3600, "CEST", Ghost(g))
        .step(2014246800, 3600, 0, "CET", Ghost(g))
        .step(2026947600, 3600, 3600, "CEST", Ghost(g))
        .step(2045696400, 3600, 0, "CET", Ghost(g))
        .step(2058397200, 3600, 3600, "CEST", Ghost(g))
        .step(2077146000, 3600, 0, "CET", Ghost(g))
        .step(2090451600, 3600, 3600, "CEST", Ghost(g))
        .step(2108595600, 3600, 0, "CET", Ghost(g))
        .step(2121901200, 3600, 3600, "CEST", Ghost(g))
        .step(2140045200, 3600, 0, "CET", Ghost(g))
        .finish(Ghost(g))
}

/// The zone `Europe/Vilnius`.
pub fn vilnius() -> (r: Tz)
    ensures
        r.wf(),
        r.zone_name() == "Europe/Vilnius"@,
        r.table() == tables::europe::vilnius(),
{
    let ghost g = tables::europe::vilnius_rows();
    FixedTimespanSet::begin("Europe/Vilnius", 6076, 0, "LMT", Ghost(g))
        .step(-2840146876, 5040, 0, "WMT", Ghost(g))
        .step(-1672536240, 5736, 0, "KMT", Ghost(g))
        .step(-1585100136, 3600, 0, "CET", Ghost(g))
        .step(-1561251600, 7200, 0, "EET", Ghost(g))
        .step(-1553565600, 3600, 0, "CET", Ghost(g))
        .step(-928198800, 10800, 0, "MSK", Ghost(g))
        .step(-900126000, 3600, 3600, "CEST", Ghost(g))
        .step(-857257200, 3600, 0, "CET", Ghost(g))
        .step(-844556400, 3600, 3600, "CEST", Ghost(g))
        .step(-828226800, 3600, 0, "CET", Ghost(g))
        .step(-812502000, 3600, 3600, "CEST", Ghost(g))
        .step(-802144800, 10800, 0, "MSK", Ghost(g))
        .step(354920400, 10800, 3600, "MSD", Ghost(g))
        .step(370728000, 10800, 0, "MSK", Ghost(g))
        .step(386456400, 10800, 3600, "MSD", Ghost(g))
        .step(402264000, 10800, 0, "MSK", Ghost(g))
        .step(417992400, 10800, 3600, "MSD", Ghost(g))
        .step(433800000, 10800, 0, "MSK", Ghost(g))
        .step(449614800, 10800, 3600, "MSD", Ghost(g))
        .step(465346800, 10800, 0, "MSK", Ghost(g))
        .step(481071600, 10800, 3600, "MSD", Ghost(g))
        .step(496796400, 10800, 0, "MSK", Ghost(g))
        .step(512521200, 10800, 3600, "MSD", Ghost(g))
        .step(528246000, 10800, 0, "MSK", Ghost(g))
        .step(543970800, 10800, 3600, "MSD", Ghost(g))
        .step(559695600, 10800, 0, "MSK", Ghost(g))
        .step(575420400, 10800, 3600, "MSD", Ghost(g))
        .step(591145200, 10800, 0, "MSK", Ghost(g))
        .step(606870000, 7200, 3600, "EEST", Ghost(g))
        .step(622598400, 7200, 0, "EET", Ghost(g))
        .step(638323200, 7200, 3600, "EEST", Ghost(g))
        .step(654652800, 7200, 0, "EET", Ghost(g))
        .step(670377600, 7200, 3600, "EEST", Ghost(g))
        .step(686102400, 7200, 0, "EET", Ghost(g))
        .step(701827200, 7200, 3600, "EEST", Ghost(g))
        .step(717552000, 7200, 0, "EET", Ghost(g))
        .step(733276800, 7200, 3600, "EEST", Ghost(g))
        .step(749001600, 7200, 0, "EET", Ghost(g))
        .step(764726400, 7200, 3600, "EEST", Ghost(g))
        .step(780451200, 7200, 0, "EET", Ghost(g))
        .step(796176000, 7200, 3600, "EEST", Ghost(g))
        .step(811900800, 7200, 0, "EET", Ghost(g))
        .step(828230400, 7200, 3600, "EEST", Ghost(g))
        .step(846374400, 7200, 0, "EET", Ghost(g))
        .step(859680000, 7200, 3600, "EEST", Ghost(g))
        .step(877824000, 7200, 0, "EET", Ghost(g))
        .step(891133200, 3600, 3600, "CEST", Ghost(g))
        .step(909277200, 3600, 0, "CET", Ghost(g))
        .step(922582800, 3600, 3600, "CEST", Ghost(g))
        .step(941331600, 7200, 0, "EET", Ghost(g))
        .step(1048986000, 7200, 3600, "EEST", Ghost(g))
        .step(1067130000, 7200, 0, "EET", Ghost(g))
        .step(1080435600, 7200, 3600, "EEST", Ghost(g))
        .step(1099184400, 7200, 0, "EET", Ghost(g))
        .step(1111885200, 7200, 3600, "EEST", Ghost(g))
        .step(1130634000, 7200, 0, "EET", Ghost(g))
        .step(1143334800, 7200, 3600, "EEST", Ghost(g))
        .step(1162083600, 7200, 0, "EET", Ghost(g))
        .step(1174784400, 7200, 3600, "EEST", Ghost(g))
        .step(1193533200, 7200, 0, "EET", Ghost(g))
        .step(1206838800, 7200, 3600, "EEST", Ghost(g))
        .step(1224982800, 7200, 0, "EET", Ghost(g))
        .step(1238288400, 7200, 3600, "EEST", Ghost(g))
        .step(1256432400, 7200, 0, "EET", Ghost(g))
        .step(1269738000, 7200, 3600, "EEST", Ghost(g))
        .step(1288486800, 7200, 0, "EET", Ghost(g))
        .step(1301187600, 7200, 3600, "EEST", Ghost(g))
        .step(1319936400, 7200, 0, "EET", Ghost(g))
        .step(1332637200, 7200, 3600, "EEST", Ghost(g))
        .step(1351386000, 7200, 0, "EET", Ghost(g))
        .step(1364691600, 7200, 3600, "EEST", Ghost(g))
        .step(1382835600, 7200, 0, "EET", Ghost(g))
        .step(1396141200, 7200, 3600, "EEST", Ghost(g))
        .step(1414285200, 7200, 0, "EET", Ghost(g))
        .step(1427590800, 7200, 3600, "EEST", Ghost(g))
        .step(1445734800, 7200, 0, "EET", Ghost(g))
        .step(1459040400, 7200, 3600, "EEST", Ghost(g))
        .step(1477789200, 7200, 0, "EET", Ghost(g))
        .step(1490490000, 7200, 3600, "EEST", Ghost(g))
        .step(1509238800, 7200, 0, "EET", Ghost(g))
        .step(1521939600, 7200, 3600, "EEST", Ghost(g))
        .step(1540688400, 7200, 0, "EET", Ghost(g))
        .step(1553994000, 7200, 3600, "EEST", Ghost(g))
        .step(1572138000, 7200, 0, "EET", Ghost(g))
        .step(1585443600, 7200, 3600, "EEST", Ghost(g))
        .step(1603587600, 7200, 0, "EET", Ghost(g))
        .step(1616893200, 7200, 3600, "EEST", Ghost(g))
        .step(1635642000, 7200, 0, "EET", Ghost(g))
        .step(1648342800, 7200, 3600, "EEST", Ghost(g))
        .step(1667091600, 7200, 0, "EET", Ghost(g))
        .step(1679792400, 7200, 3600, "EEST", Ghost(g))
        .step(1698541200, 7200, 0, "EET", Ghost(g))
        .step(1711846800, 7200, 3600, "EEST", Ghost(g))
        .step(1729990800, 7200, 0, "EET", Ghost(g))
        .step(1743296400, 7200, 3600, "EEST", Ghost(g))
        .step(1761440400, 7200, 0, "EET", Ghost(g))
        .step(1774746000, 7200, 3600, "EEST", Ghost(g))
        .step(1792890000, 7200, 0, "EET", Ghost(g))
        .step(1806195600, 7200, 3600, "EEST", Ghost(g))
        .step(1824944400, 7200, 0, "EET", Ghost(g))
        .step(1837645200, 7200, 3600, "EEST", Ghost(g))
        .step(1856394000, 7200, 0, "EET", Ghost(g))
        .step(1869094800, 7200, 3600, "EEST", Ghost(g))
        .step(1887843600, 7200, 0, "EET", Ghost(g))
        .step(1901149200, 7200, 3600, "EEST", Ghost(g))
        .step(1919293200, 7200, 0, "EET", Ghost(g))
        .step(1932598800, 7200, 3600, "EEST", Ghost(g))
        .step(1950742800, 7200, 0, "EET", Ghost(g))
        .step(1964048400, 7200, 3600, "EEST", Ghost(g))
        .step(1982797200, 7200, 0, "EET", Ghost(g))
        .step(1995498000, 7200, 3600, "EEST", Ghost(g))
        .step(2014246800, 7200, 0, "EET", Ghost(g))
        .step(2026947600, 7200, 3600, "EEST", Ghost(g))
        .step(2045696400, 7200, 0, "EET", Ghost(g))
        .step(2058397200, 7200, 3600, "EEST", Ghost(g))
        .step(2077146000, 7200, 0, "EET", Ghost(g))
        .step(2090451600, 7200, 3600, "EEST", Ghost(g))
        .step(2108595600, 7200, 0, "EET", Ghost(g))
        .step(2121901200, 7200, 3600, "EEST", Ghost(g))
        .step(2140045200, 7200, 0, "EET", Ghost(g))
        .finish(Ghost(g))
}

/// The zone `Europe/Volgograd`.
pub fn volgograd() -> (r: Tz)
    ensures
        r.wf(),
        r.zone_name() == "Europe/Volgograd"@,
        r.table() == tables::europe::volgograd(),
{
    let ghost g = tables::europe::volgograd_rows();
    FixedTimespanSet::begin("Europe/Volgograd", 10660, 0, "LMT", Ghost(g))
        .step(-1577761060, 10800, 0, "+03", Ghost(g))
        .step(-1247540400, 14400, 0, "+04", Ghost(g))
        .step(354916800, 14400, 3600, "+05", Ghost(g))
        .step(370724400, 14400, 0, "+04", Ghost(g))
        .step(386452800, 14400, 3600, "+05", Ghost(g))
        .step(402260400, 14400, 0, "+04", Ghost(g))
        .step(417988800, 14400, 3600, "+05", Ghost(g))
        .step(433796400, 14400, 0, "+04", Ghost(g))
        .step(449611200, 14400, 3600, "+05", Ghost(g))
        .step(465343200, 14400, 0, "+04", Ghost(g))
        .step(481068000, 14400, 3600, "+05", Ghost(g))
        .step(496792800, 14400, 0, "+04", Ghost(g))
        .step(512517600, 14400, 3600, "+05", Ghost(g))
        .step(528242400, 14400, 0, "+04", Ghost(g))
        .step(543967200, 14400, 3600, "+05", Ghost(g))
        .step(559692000, 14400, 0, "+04", Ghost(g))
        .step(575416800, 10800, 3600, "MSD", Ghost(g))
        .step(591145200, 10800, 0, "MSK", Ghost(g))
        .step(606870000, 10800, 3600, "MSD", Ghost(g))
        .step(622594800, 10800, 0, "MSK", Ghost(g))
        .step(638319600, 10800, 3600, "MSD", Ghost(g))
        .step(654649200, 10800, 0, "MSK", Ghost(g))
        .step(670374000, 14400, 0, "+04", Ghost(g))
        .step(701820000, 10800, 3600, "MSD", Ghost(g))
        .step(717548400, 10800, 0, "MSK", Ghost(g))
        .step(733273200, 10800, 3600, "MSD", Ghost(g))
        .step(748998000, 10800, 0, "MSK", Ghost(g))
        .step(764722800, 10800, 3600, "MSD", Ghost(g))
        .step(780447600, 10800, 0, "MSK", Ghost(g))
        .step(796172400, 10800, 3600, "MSD", Ghost(g))
        .step(811897200, 10800, 0, "MSK", Ghost(g))
        .step(828226800, 10800, 3600, "MSD", Ghost(g))
        .step(846370800, 10800, 0, "MSK", Ghost(g))
        .step(859676400, 10800, 3600, "MSD", Ghost(g))
        .step(877820400, 10800, 0, "MSK", Ghost(g))
        .step(891126000, 10800, 3600, "MSD", Ghost(g))
        .step(909270000, 10800, 0, "MSK", Ghost(g))
        .step(922575600, 10800, 3600, "MSD", Ghost(g))
        .step(941324400, 10800, 0, "MSK", Ghost(g))
        .step(954025200, 10800, 3600, "MSD", Ghost(g))
        .step(972774000, 10800, 0, "MSK", Ghost(g))
        .step(985474800, 10800, 3600, "MSD", Ghost(g))
        .step(1004223600, 10800, 0, "MSK", Ghost(g))
        .step(1017529200, 10800, 3600, "MSD", Ghost(g))
        .step(1035673200, 10800, 0, "MSK", Ghost(g))
        .step(1048978800, 10800, 3600, "MSD", Ghost(g))
        .step(1067122800, 10800, 0, "MSK", Ghost(g))
        .step(1080428400, 10800, 3600, "MSD", Ghost(g))
        .step(1099177200, 10800, 0, "MSK", Ghost(g))
        .step(1111878000, 10800, 3600, "MSD", Ghost(g))
        .step(1130626800, 10800, 0, "MSK", Ghost(g))
        .step(1143327600, 10800, 3600, "MSD", Ghost(g))
        .step(1162076400, 10800, 0, "MSK", Ghost(g))
        .step(1174777200, 10800, 3600, "MSD", Ghost(g))
        .step(1193526000, 10800, 0, "MSK", Ghost(g))
        .step(1206831600, 10800, 3600, "MSD", Ghost(g))
        .step(1224975600, 10800, 0, "MSK", Ghost(g))
        .step(1238281200, 10800, 3600, "MSD", Ghost(g))
        .step(1256425200, 10800, 0, "MSK", Ghost(g))
        .step(1269730800, 10800, 3600, "MSD", Ghost(g))
        .step(1288479600, 10800, 0, "MSK", Ghost(g))
        .step(1301180400, 14400, 0, "MSK", Ghost(g))
        .step(1414274400, 10800, 0, "MSK", Ghost(g))
        .step(1540681200, 14400, 0, "+04", Ghost(g))
        .step(1609020000, 10800, 0, "MSK", Ghost(g))
        .finish(Ghost(g))
}

/// The zone `Europe/Warsaw`.
pub fn warsaw() -> (r: Tz)
    ensures
        r.wf(),
        r.zone_name() == "Europe/Warsaw"@,
        r.table() == tables::europe::warsaw(),
{
    let ghost g = tables::europe::warsaw_rows();
    FixedTimespanSet::begin("Europe/Warsaw", 5040, 0, "LMT", Ghost(g))
        .step(-2840145840, 5040, 0, "WMT", Ghost(g))
        .step(-1717032240, 3600, 0, "CET", Ghost(g))
        .step(-1693706400, 3600, 3600, "CEST", Ghost(g))
        .step(-1680483600, 3600, 0, "CET", Ghost(g))
        .step(-1663455600, 3600, 3600, "CEST", Ghost(g))
        .step(-1650150000, 3600, 0, "CET", Ghost(g))
        .step(-1632006000, 3600, 3600, "CEST", Ghost(g))
        .step(-1618700400, 7200, 0, "EET", Ghost(g))
        .step(-1600473600, 7200, 3600, "EEST", Ghost(g))
        .step(-1587168000, 7200, 0, "EET", Ghost(g))
        .step(-1501725600, 3600, 0, "CET", Ghost(g))
        .step(-931734000, 3600, 3600, "CEST", Ghost(g))
        .step(-857257200, 3600, 0, "CET", Ghost(g))
        .step(-844556400, 3600, 3600, "CEST", Ghost(g))
        .step(-828226800, 3600, 0, "CET", Ghost(g))
        .step(-812502000, 3600, 3600, "CEST", Ghost(g))
        .step(-796608000, 3600, 0, "CET", Ghost(g))
        .step(-778726800, 3600, 3600, "CEST", Ghost(g))
        .step(-762660000, 3600, 0, "CET", Ghost(g))
        .step(-748486800, 3600, 3600, "CEST", Ghost(g))
        .step(-733273200, 3600, 0, "CET", Ghost(g))
        .step(-715215600, 3600, 3600, "CEST", Ghost(g))
        .step(-701910000, 3600, 0, "CET", Ghost(g))
        .step(-684975600, 3600, 3600, "CEST", Ghost(g))
        .step(-670460400, 3600, 0, "CET", Ghost(g))
        .step(-654130800, 3600, 3600, "CEST", Ghost(g))
        .step(-639010800, 3600, 0, "CET", Ghost(g))
        .step(-397094400, 3600, 3600, "CEST", Ghost(g))
        .step(-386812800, 3600, 0, "CET", Ghost(g))
        .step(-371088000, 3600, 3600, "CEST", Ghost(g))
        .step(-355363200, 3600, 0, "CET", Ghost(g))
        .step(-334195200, 3600, 3600, "CEST", Ghost(g))
        .step(-323308800, 3600, 0, "CET", Ghost(g))
        .step(-307584000, 3600, 3600, "CEST", Ghost(g))
        .step(-291859200, 3600, 0, "CET", Ghost(g))
        .step(-271296000, 3600, 3600, "CEST", Ghost(g))
        .step(-260409600, 3600, 0, "CET", Ghost(g))
        .step(-239846400, 3600, 3600, "CEST", Ghost(g))
        .step(-228960000, 3600, 0, "CET", Ghost(g))
        .step(-208396800, 3600, 3600, "CEST", Ghost(g))
        .step(-197510400, 3600, 0, "CET", Ghost(g))
        .step(-176342400, 3600, 3600, "CEST", Ghost(g))
        .step(-166060800, 3600, 0, "CET", Ghost(g))
        .step(228873600, 3600, 3600, "CEST", Ghost(g))
        .step(243993600, 3600, 0, "CET", Ghost(g))
        .step(260323200, 3600, 3600, "CEST", Ghost(g))
        .step(276048000, 3600, 0, "CET", Ghost(g))
        .step(291772800, 3600, 3600, "CEST", Ghost(g))
        .step(307497600, 3600, 0, "CET", Ghost(g))
        .step(323827200, 3600, 3600, "CEST", Ghost(g))
        .step(338947200, 3600, 0, "CET", Ghost(g))
        .step(354672000, 3600, 3600, "CEST", Ghost(g))
        .step(370396800, 3600, 0, "CET", Ghost(g))
        .step(386121600, 3600, 3600, "CEST", Ghost(g))
        .step(401846400, 3600, 0, "CET", Ghost(g))
        .step(417571200, 3600, 3600, "CEST", Ghost(g))
        .step(433296000, 3600, 0, "CET", Ghost(g))
        .step(449020800, 3600, 3600, "CEST", Ghost(g))
        .step(465350400, 3600, 0, "CET", Ghost(g))
        .step(481075200, 3600, 3600, "CEST", Ghost(g))
        .step(496800000, 3600, 0, "CET", Ghost(g))
        .step(512524800, 3600, 3600, "CEST", Ghost(g))
        .step(528249600, 3600, 0, "CET", Ghost(g))
        .step(543974400, 3600, 3600, "CEST", Ghost(g))
        .step(559699200, 3600, 0, "CET", Ghost(g))
        .step(575427600, 3600, 3600, "CEST", Ghost(g))
        .step(591152400, 3600, 0, "CET", Ghost(g))
        .step(606877200, 3600, 3600, "CEST", Ghost(g))
        .step(622602000, 3600, 0, "CET", Ghost(g))
        .step(638326800, 3600, 3600, "CEST", Ghost(g))
        .step(654656400, 3600, 0, "CET", Ghost(g))
        .step(670381200, 3600, 3600, "CEST", Ghost(g))
        .step(686106000, 3600, 0, "CET", Ghost(g))
        .step(701830800, 3600, 3600, "CEST", Ghost(g))
        .step(717555600, 3600, 0, "CET", Ghost(g))
        .step(733280400, 3600, 3600, "CEST", Ghost(g))
        .step(749005200, 3600, 0, "CET", Ghost(g))
        .step(764730000, 3600, 3600, "CEST", Ghost(g))
        .step(780454800, 3600, 0, "CET", Ghost(g))
        .step(796179600, 3600, 3600, "CEST", Ghost(g))
        .step(811904400, 3600, 0, "CET", Ghost(g))
        .step(828234000, 3600, 3600, "CEST", Ghost(g))
        .step(846378000, 3600, 0, "CET", Ghost(g))
        .step(859683600, 3600, 3600, "CEST", Ghost(g))
        .step(877827600, 3600, 0, "CET", Ghost(g))
        .step(891133200, 3600, 3600, "CEST", Ghost(g))
        .step(909277200, 3600, 0, "CET", Ghost(g))
        .step(922582800, 3600, 3600, "CEST", Ghost(g))
        .step(941331600, 3600, 0, "CET", Ghost(g))
        .step(954032400, 3600, 3600, "CEST", Ghost(g))
        .step(972781200, 3600, 0, "CET", Ghost(g))
        .step(985482000, 3600, 3600, "CEST", Ghost(g))
        .step(1004230800, 3600, 0, "CET", Ghost(g))
        .step(1017536400, 3600, 3600, "CEST", Ghost(g))
        .step(1035680400, 3600, 0, "CET", Ghost(g))
        .step(1048986000, 3600, 3600, "CEST", Ghost(g))
        .step(1067130000, 3600, 0, "CET", Ghost(g))
        .step(1080435600, 3600, 3600, "CEST", Ghost(g))
        .step(1099184400, 3600, 0, "CET", Ghost(g))
        .step(1111885200, 3600, 3600, "CEST", Ghost(g))
        .step(1130634000, 3600, 0, "CET", Ghost(g))
        .step(1143334800, 3600, 3600, "CEST", Ghost(g))
        .step(1162083600, 3600, 0, "CET", Ghost(g))
        .step(1174784400, 3600, 3600, "CEST", Ghost(g))
        .step(1193533200, 3600, 0, "CET", Ghost(g))
        .step(1206838800, 3600, 3600, "CEST", Ghost(g))
        .step(1224982800, 3600, 0, "CET", Ghost(g))
        .step(1238288400, 3600, 3600, "CEST", Ghost(g))
        .step(1256432400, 3600, 0, "CET", Ghost(g))
        .step(1269738000, 3600, 3600, "CEST", Ghost(g))
        .step(1288486800, 3600, 0, "CET", Ghost(g))
        .step(1301187600, 3600, 3600, "CEST", Ghost(g))
        .step(1319936400, 3600, 0, "CET", Ghost(g))
        .step(1332637200, 3600, 3600, "CEST", Ghost(g))
        .step(1351386000, 3600, 0, "CET", Ghost(g))
        .step(1364691600, 3600, 3600, "CEST", Ghost(g))
        .step(1382835600, 3600, 0, "CET", Ghost(g))
        .step(1396141200, 3600, 3600, "CEST", Ghost(g))
        .step(1414285200, 3600, 0, "CET", Ghost(g))
        .step(1427590800, 3600, 3600, "CEST", Ghost(g))
        .step(1445734800, 3600, 0, "CET", Ghost(g))
        .step(1459040400, 3600, 3600, "CEST", Ghost(g))
        .step(1477789200, 3600, 0, "CET", Ghost(g))
        .step(1490490000, 3600, 3600, "CEST", Ghost(g))
        .step(1509238800, 3600, 0, "CET", Ghost(g))
        .step(1521939600, 3600, 3600, "CEST", Ghost(g))
        .step(1540688400, 3600, 0, "CET", Ghost(g))
        .step(1553994000, 3600, 3600, "CEST", Ghost(g))
        .step(1572138000, 3600, 0, "CET", Ghost(g))
        .step(1585443600, 3600, 3600, "CEST", Ghost(g))
        .step(1603587600, 3600, 0, "CET", Ghost(g))
        .step(1616893200, 3600, 3600, "CEST", Ghost(g))
        .step(1635642000, 3600, 0, "CET", Ghost(g))
        .step(1648342800, 3600, 3600, "CEST", Ghost(g))
        .step(1667091600, 3600, 0, "CET", Ghost(g))
        .step(1679792400, 3600, 3600, "CEST", Ghost(g))
        .step(1698541200, 3600, 0, "CET", Ghost(g))
        .step(1711846800, 3600, 3600, "CEST", Ghost(g))
        .step(1729990800, 3600, 0, "CET", Ghost(g))
        .step(1743296400, 3600, 3600, "CEST", Ghost(g))
        .step(1761440400, 3600, 0, "CET", Ghost(g))
        .step(1774746000, 3600, 3600, "CEST", Ghost(g))
        .step(1792890000, 3600, 0, "CET", Ghost(g))
        .step(1806195600, 3600, 3600, "CEST", Ghost(g))
        .step(1824944400, 3600, 0, "CET", Ghost(g))
        .step(1837645200, 3600, 3600, "CEST", Ghost(g))
        .step(1856394000, 3600, 0, "CET", Ghost(g))
        .step(1869094800, 3600, 3600, "CEST", Ghost(g))
        .step(1887843600, 3600, 0, "CET", Ghost(g))
        .step(1901149200, 3600, 3600, "CEST", Ghost(g))
        .step(1919293200, 3600, 0, "CET", Ghost(g))
        .step(1932598800, 3600, 3600, "CEST", Ghost(g))
        .step(1950742800, 3600, 0, "CET", Ghost(g))
        .step(1964048400, 3600, 3600, "CEST", Ghost(g))
        .step(1982797200, 3600, 0, "CET", Ghost(g))
        .step(1995498000, 3600, 3600, "CEST", Ghost(g))
        .step(2014246800, 3600, 0, "CET", Ghost(g))
        .step(2026947600, 3600, 3600, "CEST", Ghost(g))
        .step(2045696400, 3600, 0, "CET", Ghost(g))
        .step(2058397200, 3600, 3600, "CEST", Ghost(g))
        .step(2077146000, 3600, 0, "CET", Ghost(g))
        .step(2090451600, 3600, 3600, "CEST", Ghost(g))
        .step(2108595600, 3600, 0, "CET", Ghost(g))
        .step(2121901200, 3600, 3600, "CEST", Ghost(g))
        .step(2140045200, 3600, 0, "CET", Ghost(g))
        .finish(Ghost(g))
}

/// The zone `Europe/Zagreb`.
pub fn zagreb() -> (r: Tz)
    ensures
        r.wf(),
        r.zone_name() == "Europe/Zagreb"@,
        r.table() == tables::europe::zagreb(),
{
    let ghost g = tables::europe::zagreb_rows();
    FixedTimespanSet::begin("Europe/Zagreb", 3832, 0, "LMT", Ghost(g))
        .step(-2713914232, 3600, 0, "CET", Ghost(g))
        .step(-905824800, 3600, 3600, "CEST", Ghost(g))
        .step(-857257200, 3600, 0, "CET", Ghost(g))
        .step(-844556400, 3600, 3600, "CEST", Ghost(g))
        .step(-828226800, 3600, 0, "CET", Ghost(g))
        .step(-812502000, 3600, 3600, "CEST", Ghost(g))
        .step(-796777200, 3600, 0, "CET", Ghost(g))
        .step(-781052400, 3600, 3600, "CEST", Ghost(g))
        .step(-766623600, 3600, 0, "CET", Ghost(g))
        .step(417574800, 3600, 3600, "CEST", Ghost(g))
        .step(433299600, 3600, 0, "CET", Ghost(g))
        .step(449024400, 3600, 3600, "CEST", Ghost(g))
        .step(465354000, 3600, 0, "CET", Ghost(g))
        .step(481078800, 3600, 3600, "CEST", Ghost(g))
        .step(496803600, 3600, 0, "CET", Ghost(g))
        .step(512528400, 3600, 3600, "CEST", Ghost(g))
        .step(528253200, 3600, 0, "CET", Ghost(g))
        .step(543978000, 3600, 3600, "CEST", Ghost(g))
        .step(559702800, 3600, 0, "CET", Ghost(g))
        .step(575427600, 3600, 3600, "CEST", Ghost(g))
        .step(591152400, 3600, 0, "CET", Ghost(g))
        .step(606877200, 3600, 3600, "CEST", Ghost(g))
        .step(622602000, 3600, 0, "CET", Ghost(g))
        .step(638326800, 3600, 3600, "CEST", Ghost(g))
        .step(654656400, 3600, 0, "CET", Ghost(g))
        .step(670381200, 3600, 3600, "CEST", Ghost(g))
        .step(686106000, 3600, 0, "CET", Ghost(g))
        .step(701830800, 3600, 3600, "CEST", Ghost(g))
        .step(717555600, 3600, 0, "CET", Ghost(g))
        .step(733280400, 3600, 3600, "CEST", Ghost(g))
        .step(749005200, 3600, 0, "CET", Ghost(g))
        .step(764730000, 3600, 3600, "CEST", Ghost(g))
        .step(780454800, 3600, 0, "CET", Ghost(g))
        .step(796179600, 3600, 3600, "CEST", Ghost(g))
        .step(811904400, 3600, 0, "CET", Ghost(g))
        .step(828234000, 3600, 3600, "CEST", Ghost(g))
        .step(846378000, 3600, 0, "CET", Ghost(g))
        .step(859683600, 3600, 3600, "CEST", Ghost(g))
        .step(877827600, 3600, 0, "CET", Ghost(g))
        .step(891133200, 3600, 3600, "CEST", Ghost(g))
        .step(909277200, 3600, 0, "CET", Ghost(g))
        .step(922582800, 3600, 3600, "CEST", Ghost(g))
        .step(941331600, 3600, 0, "CET", Ghost(g))
        .step(954032400, 3600, 3600, "CEST", Ghost(g))
        .step(972781200, 3600, 0, "CET", Ghost(g))
        .step(985482000, 3600, 3600, "CEST", Ghost(g))
        .step(1004230800, 3600, 0, "CET", Ghost(g))
        .step(1017536400, 3600, 3600, "CEST", Ghost(g))
        .step(1035680400, 3600, 0, "CET", Ghost(g))
        .step(1048986000, 3600, 3600, "CEST", Ghost(g))
        .step(1067130000, 3600, 0, "CET", Ghost(g))
        .step(1080435600, 3600, 3600, "CEST", Ghost(g))
        .step(1099184400, 3600, 0, "CET", Ghost(g))
        .step(1111885200, 3600, 3600, "CEST", Ghost(g))
        .step(1130634000, 3600, 0, "CET", Ghost(g))
        .step(1143334800, 3600, 3600, "CEST", Ghost(g))
        .step(1162083600, 3600, 0, "CET", Ghost(g))
        .step(1174784400, 3600, 3600, "CEST", Ghost(g))
        .step(1193533200, 3600, 0, "CET", Ghost(g))
        .step(1206838800, 3600, 3600, "CEST", Ghost(g))
        .step(1224982800, 3600, 0, "CET", Ghost(g))
        .step(1238288400, 3600, 3600, "CEST", Ghost(g))
        .step(1256432400, 3600, 0, "CET", Ghost(g))
        .step(1269738000, 3600, 3600, "CEST", Ghost(g))
        .step(1288486800, 3600, 0, "CET", Ghost(g))
        .step(1301187600, 3600, 3600, "CEST", Ghost(g))
        .step(1319936400, 3600, 0, "CET", Ghost(g))
        .step(1332637200, 3600, 3600, "CEST", Ghost(g))
        .step(1351386000, 3600, 0, "CET", Ghost(g))
        .step(1364691600, 3600, 3600, "CEST", Ghost(g))
        .step(1382835600, 3600, 0, "CET", Ghost(g))
        .step(1396141200, 3600, 3600, "CEST", Ghost(g))
        .step(1414285200, 3600, 0, "CET", Ghost(g))
        .step(1427590800, 3600, 3600, "CEST", Ghost(g))
        .step(1445734800, 3600, 0, "CET", Ghost(g))
        .step(1459040400, 3600, 3600, "CEST", Ghost(g))
        .step(1477789200, 3600, 0, "CET", Ghost(g))
        .step(1490490000, 3600, 3600, "CEST", Ghost(g))
        .step(1509238800, 3600, 0, "CET", Ghost(g))
        .step(1521939600, 3600, 3600, "CEST", Ghost(g))
        .step(1540688400, 3600, 0, "CET", Ghost(g))
        .step(1553994000, 3600, 3600, "CEST", Ghost(g))
        .step(1572138000, 3600, 0, "CET", Ghost(g))
        .step(1585443600, 3600, 3600, "CEST", Ghost(g))
        .step(1603587600, 3600, 0, "CET", Ghost(g))
        .step(1616893200, 3600, 3600, "CEST", Ghost(g))
        .step(1635642000, 3600, 0, "CET", Ghost(g))
        .step(1648342800, 3600, 3600, "CEST", Ghost(g))
        .step(1667091600, 3600, 0, "CET", Ghost(g))
        .step(1679792400, 3600, 3600, "CEST", Ghost(g))
        .step(1698541200, 3600, 0, "CET", Ghost(g))
        .step(1711846800, 3600, 3600, "CEST", Ghost(g))
        .step(1729990800, 3600, 0, "CET", Ghost(g))
        .step(1743296400, 3600, 3600, "CEST", Ghost(g))
        .step(1761440400, 3600, 0, "CET", Ghost(g))
        .step(1774746000, 3600, 3600, "CEST", Ghost(g))
        .step(1792890000, 3600, 0, "CET", Ghost(g))
        .step(1806195600, 3600, 3600, "CEST", Ghost(g))
        .step(1824944400, 3600, 0, "CET", Ghost(g))
        .step(1837645200, 3600, 3600, "CEST", Ghost(g))
        .step(1856394000, 3600, 0, "CET", Ghost(g))
        .step(1869094800, 3600, 3600, "CEST", Ghost(g))
        .step(1887843600, 3600, 0, "CET", Ghost(g))
        .step(1901149200, 3600, 3600, "CEST", Ghost(g))
        .step(1919293200, 3600, 0, "CET", Ghost(g))
        .step(1932598800, 3600, 3600, "CEST", Ghost(g))
        .step(1950742800, 3600, 0, "CET", Ghost(g))
        .step(1964048400, 3600, 3600, "CEST", Ghost(g))
        .step(1982797200, 3600, 0, "CET", Ghost(g))
        .step(1995498000, 3600, 3600, "CEST", Ghost(g))
        .step(2014246800, 3600, 0, "CET", Ghost(g))
        .step(2026947600, 3600, 3600, "CEST", Ghost(g))
        .step(2045696400, 3600, 0, "CET", Ghost(g))
        .step(2058397200, 3600, 3600, "CEST", Ghost(g))
        .step(2077146000, 3600, 0, "CET", Ghost(g))
        .step(2090451600, 3600, 3600, "CEST", Ghost(g))
        .step(2108595600, 3600, 0, "CET", Ghost(g))
        .step(2121901200, 3600, 3600, "CEST", Ghost(g))
        .step(2140045200, 3600, 0, "CET", Ghost(g))
        .finish(Ghost(g))
}

/// The zone `Europe/Zaporozhye`.
pub fn zaporozhye() -> (r: Tz)
    ensures
        r.wf(),
        r.zone_name() == "Europe/Zaporozhye"@,
        r.table() == tables::europe::zaporozhye(),
{
    let ghost g = tables::europe::zaporozhye_rows();
    FixedTimespanSet::begin("Europe/Zaporozhye", 7324, 0, "LMT", Ghost(g))
        .step(-2840148124, 7324, 0, "KMT", Ghost(g))
        .step(-1441159324, 7200, 0, "EET", Ghost(g))
        .step(-1247536800, 10800, 0, "MSK", Ghost(g))
        .step(-892522800, 3600, 3600, "CEST", Ghost(g))
        .step(-857257200, 3600, 0, "CET", Ghost(g))
        .step(-844556400, 3600, 3600, "CEST", Ghost(g))
        .step(-828226800, 3600, 0, "CET", Ghost(g))
        .step(-825382800, 10800, 0, "MSK", Ghost(g))
        .step(354920400, 10800, 3600, "MSD", Ghost(g))
        .step(370728000, 10800, 0, "MSK", Ghost(g))
        .step(386456400, 10800, 3600, "MSD", Ghost(g))
        .step(402264000, 10800, 0, "MSK", Ghost(g))
        .step(417992400, 10800, 3600, "MSD", Ghost(g))
        .step(433800000, 10800, 0, "MSK", Ghost(g))
        .step(449614800, 10800, 3600, "MSD", Ghost(g))
        .step(465346800, 10800, 0, "MSK", Ghost(g))
        .step(481071600, 10800, 3600, "MSD", Ghost(g))
        .step(496796400, 10800, 0, "MSK", Ghost(g))
        .step(512521200, 10800, 3600, "MSD", Ghost(g))
        .step(528246000, 10800, 0, "MSK", Ghost(g))
        .step(543970800, 10800, 3600, "MSD", Ghost(g))
        .step(559695600, 10800, 0, "MSK", Ghost(g))
        .step(575420400, 10800, 3600, "MSD", Ghost(g))
        .step(591145200, 10800, 0, "MSK", Ghost(g))
        .step(606870000, 10800, 3600, "MSD", Ghost(g))
        .step(622594800, 10800, 0, "MSK", Ghost(g))
        .step(638319600, 10800, 3600, "MSD", Ghost(g))
        .step(646783200, 7200, 3600, "EEST", Ghost(g))
        .step(686102400, 7200, 0, "EET", Ghost(g))
        .step(701827200, 7200, 3600, "EEST", Ghost(g))
        .step(717552000, 7200, 0, "EET", Ghost(g))
        .step(733276800, 7200, 3600, "EEST", Ghost(g))
        .step(749001600, 7200, 0, "EET", Ghost(g))
        .step(764726400, 7200, 3600, "EEST", Ghost(g))
        .step(780451200, 7200, 0, "EET", Ghost(g))
        .step(796176000, 7200, 3600, "EEST", Ghost(g))
        .step(811900800, 7200, 0, "EET", Ghost(g))
        .step(828230400, 7200, 3600, "EEST", Ghost(g))
        .step(846378000, 7200, 0, "EET", Ghost(g))
        .step(859683600, 7200, 3600, "EEST", Ghost(g))
        .step(877827600, 7200, 0, "EET", Ghost(g))
        .step(891133200, 7200, 3600, "EEST", Ghost(g))
        .step(909277200, 7200, 0, "EET", Ghost(g))
        .step(922582800, 7200, 3600, "EEST", Ghost(g))
        .step(941331600, 7200, 0, "EET", Ghost(g))
        .step(954032400, 7200, 3600, "EEST", Ghost(g))
        .step(972781200, 7200, 0, "EET", Ghost(g))
        .step(985482000, 7200, 3600, "EEST", Ghost(g))
        .step(1004230800, 7200, 0, "EET", Ghost(g))
        .step(1017536400, 7200, 3600, "EEST", Ghost(g))
        .step(1035680400, 7200, 0, "EET", Ghost(g))
        .step(1048986000, 7200, 3600, "EEST", Ghost(g))
        .step(1067130000, 7200, 0, "EET", Ghost(g))
        .step(1080435600, 7200, 3600, "EEST", Ghost(g))
        .step(1099184400, 7200, 0, "EET", Ghost(g))
        .step(1111885200, 7200, 3600, "EEST", Ghost(g))
        .step(1130634000, 7200, 0, "EET", Ghost(g))
        .step(1143334800, 7200, 3600, "EEST", Ghost(g))
        .step(1162083600, 7200, 0, "EET", Ghost(g))
        .step(1174784400, 7200, 3600, "EEST", Ghost(g))
        .step(1193533200, 7200, 0, "EET", Ghost(g))
        .step(1206838800, 7200, 3600, "EEST", Ghost(g))
        .step(1224982800, 7200, 0, "EET", Ghost(g))
        .step(1238288400, 7200, 3600, "EEST", Ghost(g))
        .step(1256432400, 7200, 0, "EET", Ghost(g))
        .step(1269738000, 7200, 3600, "EEST", Ghost(g))
        .step(1288486800, 7200, 0, "EET", Ghost(g))
        .step(1301187600, 7200, 3600, "EEST", Ghost(g))
        .step(1319936400, 7200, 0, "EET", Ghost(g))
        .step(1332637200, 7200, 3600, "EEST", Ghost(g))
        .step(1351386000, 7200, 0, "EET", Ghost(g))
        .step(1364691600, 7200, 3600, "EEST", Ghost(g))
        .step(1382835600, 7200, 0, "EET", Ghost(g))
        .step(1396141200, 7200, 3600, "EEST", Ghost(g))
        .step(1414285200, 7200, 0, "EET", Ghost(g))
        .step(1427590800, 7200, 3600, "EEST", Ghost(g))
        .step(1445734800, 7200, 0, "EET", Ghost(g))
        .step(1459040400, 7200, 3600, "EEST", Ghost(g))
        .step(1477789200, 7200, 0, "EET", Ghost(g))
        .step(1490490000, 7200, 3600, "EEST", Ghost(g))
        .step(1509238800, 7200, 0, "EET", Ghost(g))
        .step(1521939600, 7200, 3600, "EEST", Ghost(g))
        .step(1540688400, 7200, 0, "EET", Ghost(g))
        .step(1553994000, 7200, 3600, "EEST", Ghost(g))
        .step(1572138000, 7200, 0, "EET", Ghost(g))
        .step(1585443600, 7200, 3600, "EEST", Ghost(g))
        .step(1603587600, 7200, 0, "EET", Ghost(g))
        .step(1616893200, 7200, 3600, "EEST", Ghost(g))
        .step(1635642000, 7200, 0, "EET", Ghost(g))
        .step(1648342800, 7200, 3600, "EEST", Ghost(g))
        .step(1667091600, 7200, 0, "EET", Ghost(g))
        .step(1679792400, 7200, 3600, "EEST", Ghost(g))
        .step(1698541200, 7200, 0, "EET", Ghost(g))
        .step(1711846800, 7200, 3600, "EEST", Ghost(g))
        .step(1729990800, 7200, 0, "EET", Ghost(g))
        .step(1743296400, 7200, 3600, "EEST", Ghost(g))
        .step(1761440400, 7200, 0, "EET", Ghost(g))
        .step(1774746000, 7200, 3600, "EEST", Ghost(g))
        .step(1792890000, 7200, 0, "EET", Ghost(g))
        .step(1806195600, 7200, 3600, "EEST", Ghost(g))
        .step(1824944400, 7200, 0, "EET", Ghost(g))
        .step(1837645200, 7200, 3600, "EEST", Ghost(g))
        .step(1856394000, 7200, 0, "EET", Ghost(g))
        .step(1869094800, 7200, 3600, "EEST", Ghost(g))
        .step(1887843600, 7200, 0, "EET", Ghost(g))
        .step(1901149200, 7200, 3600, "EEST", Ghost(g))
        .step(1919293200, 7200, 0, "EET", Ghost(g))
        .step(1932598800, 7200, 3600, "EEST", Ghost(g))
        .step(1950742800, 7200, 0, "EET", Ghost(g))
        .step(1964048400, 7200, 3600, "EEST", Ghost(g))
        .step(1982797200, 7200, 0, "EET", Ghost(g))
        .step(1995498000, 7200, 3600, "EEST", Ghost(g))
        .step(2014246800, 7200, 0, "EET", Ghost(g))
        .step(2026947600, 7200, 3600, "EEST", Ghost(g))
        .step(2045696400, 7200, 0, "EET", Ghost(g))
        .step(2058397200, 7200, 3600, "EEST", Ghost(g))
        .step(2077146000, 7200, 0, "EET", Ghost(g))
        .step(2090451600, 7200, 3600, "EEST", Ghost(g))
        .step(2108595600, 7200, 0, "EET", Ghost(g))
        .step(2121901200, 7200, 3600, "EEST", Ghost(g))
        .step(2140045200, 7200, 0, "EET", Ghost(g))
        .finish(Ghost(g))
}

/// The zone `Europe/Zurich`.
pub fn zurich() -> (r: Tz)
    ensures
        r.wf(),
        r.zone_name() == "Europe/Zurich"@,
        r.table() == tables::europe::zurich(),
{
    let ghost g = tables::europe::zurich_rows();
    FixedTimespanSet::begin("Europe/Zurich", 2048, 0, "LMT", Ghost(g))
        .step(-3675198848, 1786, 0, "BMT", Ghost(g))
        .step(-2385246586, 3600, 0, "CET", Ghost(g))
        .step(-904435200, 3600, 3600, "CEST", Ghost(g))
        .step(-891129600, 3600, 0, "CET", Ghost(g))
        .step(-872985600, 3600, 3600, "CEST", Ghost(g))
        .step(-859680000, 3600, 0, "CET", Ghost(g))
        .step(354675600, 3600, 3600, "CEST", Ghost(g))
        .step(370400400, 3600, 0, "CET", Ghost(g))
        .step(386125200, 3600, 3600, "CEST", Ghost(g))
        .step(401850000, 3600, 0, "CET", Ghost(g))
        .step(417574800, 3600, 3600, "CEST", Ghost(g))
        .step(433299600, 3600, 0, "CET", Ghost(g))
        .step(449024400, 3600, 3600, "CEST", Ghost(g))
        .step(465354000, 3600, 0, "CET", Ghost(g))
        .step(481078800, 3600, 3600, "CEST", Ghost(g))
        .step(496803600, 3600, 0, "CET", Ghost(g))
        .step(512528400, 3600, 3600, "CEST", Ghost(g))
        .step(528253200, 3600, 0, "CET", Ghost(g))
        .step(543978000, 3600, 3600, "CEST", Ghost(g))
        .step(559702800, 3600, 0, "CET", Ghost(g))
        .step(575427600, 3600, 3600, "CEST", Ghost(g))
        .step(591152400, 3600, 0, "CET", Ghost(g))
        .step(606877200, 3600, 3600, "CEST", Ghost(g))
        .step(622602000, 3600, 0, "CET", Ghost(g))
        .step(638326800, 3600, 3600, "CEST", Ghost(g))
        .step(654656400, 3600, 0, "CET", Ghost(g))
        .step(670381200, 3600, 3600, "CEST", Ghost(g))
        .step(686106000, 3600, 0, "CET", Ghost(g))
        .step(701830800, 3600, 3600, "CEST", Ghost(g))
        .step(717555600, 3600, 0, "CET", Ghost(g))
        .step(733280400, 3600, 3600, "CEST", Ghost(g))
        .step(749005200, 3600, 0, "CET", Ghost(g))
        .step(764730000, 3600, 3600, "CEST", Ghost(g))
        .step(780454800, 3600, 0, "CET", Ghost(g))
        .step(796179600, 3600, 3600, "CEST", Ghost(g))
        .step(811904400, 3600, 0, "CET", Ghost(g))
        .step(828234000, 3600, 3600, "CEST", Ghost(g))
        .step(846378000, 3600, 0, "CET", Ghost(g))
        .step(859683600, 3600, 3600, "CEST", Ghost(g))
        .step(877827600, 3600, 0, "CET", Ghost(g))
        .step(891133200, 3600, 3600, "CEST", Ghost(g))
        .step(909277200, 3600, 0, "CET", Ghost(g))
        .step(922582800, 3600, 3600, "CEST", Ghost(g))
        .step(941331600, 3600, 0, "CET", Ghost(g))
        .step(954032400, 3600, 3600, "CEST", Ghost(g))
        .step(972781200, 3600, 0, "CET", Ghost(g))
        .step(985482000, 3600, 3600, "CEST", Ghost(g))
        .step(1004230800, 3600, 0, "CET", Ghost(g))
        .step(1017536400, 3600, 3600, "CEST", Ghost(g))
        .step(1035680400, 3600, 0, "CET", Ghost(g))
        .step(1048986000, 3600, 3600, "CEST", Ghost(g))
        .step(1067130000, 3600, 0, "CET", Ghost(g))
        .step(1080435600, 3600, 3600, "CEST", Ghost(g))
        .step(1099184400, 3600, 0, "CET", Ghost(g))
        .step(1111885200, 3600, 3600, "CEST", Ghost(g))
        .step(1130634000, 3600, 0, "CET", Ghost(g))
        .step(1143334800, 3600, 3600, "CEST", Ghost(g))
        .step(1162083600, 3600, 0, "CET", Ghost(g))
        .step(1174784400, 3600, 3600, "CEST", Ghost(g))
        .step(1193533200, 3600, 0, "CET", Ghost(g))
        .step(1206838800, 3600, 3600, "CEST", Ghost(g))
        .step(1224982800, 3600, 0, "CET", Ghost(g))
        .step(1238288400, 3600, 3600, "CEST", Ghost(g))
        .step(1256432400, 3600, 0, "CET", Ghost(g))
        .step(1269738000, 3600, 3600, "CEST", Ghost(g))
        .step(1288486800, 3600, 0, "CET", Ghost(g))
        .step(1301187600, 3600, 3600, "CEST", Ghost(g))
        .step(1319936400, 3600, 0, "CET", Ghost(g))
        .step(1332637200, 3600, 3600, "CEST", Ghost(g))
        .step(1351386000, 3600, 0, "CET", Ghost(g))
        .step(1364691600, 3600, 3600, "CEST", Ghost(g))
        .step(1382835600, 3600, 0, "CET", Ghost(g))
        .step(1396141200, 3600, 3600, "CEST", Ghost(g))
        .step(1414285200, 3600, 0, "CET", Ghost(g))
        .step(1427590800, 3600, 3600, "CEST", Ghost(g))
        .step(1445734800, 3600, 0, "CET", Ghost(g))
        .step(1459040400, 3600, 3600, "CEST", Ghost(g))
        .step(1477789200, 3600, 0, "CET", Ghost(g))
        .step(1490490000, 3600, 3600, "CEST", Ghost(g))
        .step(1509238800, 3600, 0, "CET", Ghost(g))
        .step(1521939600, 3600, 3600, "CEST", Ghost(g))
        .step(1540688400, 3600, 0, "CET", Ghost(g))
        .step(1553994000, 3600, 3600, "CEST", Ghost(g))
        .step(1572138000, 3600, 0, "CET", Ghost(g))
        .step(1585443600, 3600, 3600, "CEST", Ghost(g))
        .step(1603587600, 3600, 0, "CET", Ghost(g))
        .step(1616893200, 3600, 3600, "CEST", Ghost(g))
        .step(1635642000, 3600, 0, "CET", Ghost(g))
        .step(1648342800, 3600, 3600, "CEST", Ghost(g))
        .step(1667091600, 3600, 0, "CET", Ghost(g))
        .step(1679792400, 3600, 3600, "CEST", Ghost(g))
        .step(1698541200, 3600, 0, "CET", Ghost(g))
        .step(1711846800, 3600, 3600, "CEST", Ghost(g))
        .step(1729990800, 3600, 0, "CET", Ghost(g))
        .step(1743296400, 3600, 3600, "CEST", Ghost(g))
        .step(1761440400, 3600, 0, "CET", Ghost(g))
        .step(1774746000, 3600, 3600, "CEST", Ghost(g))
        .step(1792890000, 3600, 0, "CET", Ghost(g))
        .step(1806195600, 3600, 3600, "CEST", Ghost(g))
        .step(1824944400, 3600, 0, "CET", Ghost(g))
        .step(1837645200, 3600, 3600, "CEST", Ghost(g))
        .step(1856394000, 3600, 0, "CET", Ghost(g))
        .step(1869094800, 3600, 3600, "CEST", Ghost(g))
        .step(1887843600, 3600, 0, "CET", Ghost(g))
        .step(1901149200, 3600, 3600, "CEST", Ghost(g))
        .step(1919293200, 3600, 0, "CET", Ghost(g))
        .step(1932598800, 3600, 3600, "CEST", Ghost(g))
        .step(1950742800, 3600, 0, "CET", Ghost(g))
        .step(1964048400, 3600, 3600, "CEST", Ghost(g))
        .step(1982797200, 3600, 0, "CET", Ghost(g))
        .step(1995498000, 3600, 3600, "CEST", Ghost(g))
        .step(2014246800, 3600, 0, "CET", Ghost(g))
        .step(2026947600, 3600, 3600, "CEST", Ghost(g))
        .step(2045696400, 3600, 0, "CET", Ghost(g))
        .step(2058397200, 3600, 3600, "CEST", Ghost(g))
        .step(2077146000, 3600, 0, "CET", Ghost(g))
        .step(2090451600, 3600, 3600, "CEST", Ghost(g))
        .step(2108595600, 3600, 0, "CET", Ghost(g))
        .step(2121901200, 3600, 3600, "CEST", Ghost(g))
        .step(2140045200, 3600, 0, "CET", Ghost(g))
        .finish(Ghost(g))
}

} // verus!
