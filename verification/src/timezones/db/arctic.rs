//! Zones of the Arctic.

use crate::interface::TimeZone;
use crate::timezone_impl::{FixedTimespanSet, Tz};
use crate::timezones::tables;
use vstd::prelude::*;

verus! {

/// The zone `Arctic/Longyearbyen`.
pub fn longyearbyen() -> (r: Tz)
    ensures
        r.wf(),
        r.zone_name() == "Arctic/Longyearbyen"@,
        r.table() == tables::arctic::longyearbyen(),
{
    let ghost g = tables::arctic::longyearbyen_rows();
    FixedTimespanSet::begin("Arctic/Longyearbyen", 3208, 0, "LMT", Ghost(g))
        .step(-2422054408, 3600, 0, "CET", Ghost(g))
        .step(-1693706400, 3600, 3600, "CEST", Ghost(g))
        .step(-1680483600, 3600, 0, "CET", Ghost(g))
        .step(-1663455600, 3600, 3600, "CEST", Ghost(g))
        .step(-1650150000, 3600, 0, "CET", Ghost(g))
        .step(-1632006000, 3600, 3600, "CEST", Ghost(g))
        .step(-1618700400, 3600, 0, "CET", Ghost(g))
        .step(-938905200, 3600, 3600, "CEST", Ghost(g))
        .step(-857257200, 3600, 0, "CET", Ghost(g))
        .step(-844556400, 3600, 3600, "CEST", Ghost(g))
        .step(-828226800, 3600, 0, "CET", Ghost(g))
        .step(-812502000, 3600, 3600, "CEST", Ghost(g))
        .step(-796777200, 3600, 0, "CET", Ghost(g))
        .step(-781052400, 3600, 3600, "CEST", Ghost(g))
        .step(-776563200, 3600, 7200, "CEMT", Ghost(g))
        .step(-765936000, 3600, 3600, "CEST", Ghost(g))
        .step(-761180400, 3600, 0, "CET", Ghost(g))
        .step(-748479600, 3600, 3600, "CEST", Ghost(g))
        .step(-733273200, 3600, 0, "CET", Ghost(g))
        .step(-717631200, 3600, 3600, "CEST", Ghost(g))
        .step(-714610800, 3600, 7200, "CEMT", Ghost(g))
        .step(-710380800, 3600, 3600, "CEST", Ghost(g))
        .step(-701910000, 3600, 0, "CET", Ghost(g))
        .step(-684975600, 3600, 3600, "CEST", Ghost(g))
        .step(-670460400, 3600, 0, "CET", Ghost(g))
        .step(-654130800, 3600, 3600, "CEST", Ghost(g))
        .step(-639010800, 3600, 0, "CET", Ghost(g))
        .step(323830800, 3600, 3600, "CEST", Ghost(g))
        .step(338950800, 3600, 0, "CET", Ghost(g))
        .step(354675600, 3600, 3600, "CEST", Ghost(g))
        .step(370400400, 3600, 0, "CET", Ghost(g))
        .step(386125200, 3600, 3600, "CEST", Ghost(g))
        .step(401850000, 3600, 0, "CET", Ghost(g))
        .step(417574800, 3600, 3600, "CEST", Ghost(g))
        .step(433299600, 3600, 0, "CET", Ghost(g))
        .step(449024400, 3600, 3600, "CEST", Ghost(g))
        .step(465354000, 3600, 0, "CET", Ghost(g))
        .step(481078800, 3600, 3600, "CEST", Ghost(g))
        .step(496803600, 3600, 0, "CET", Ghost(g))
        .step(512528400, 3600, 3600, "CEST", Ghost(g))
        .step(528253200, 3600, 0, "CET", Ghost(g))
        .step(543978000, 3600, 3600, "CEST", Ghost(g))
        .step(559702800, 3600, 0, "CET", Ghost(g))
        .step(575427600, 3600, 3600, "CEST", Ghost(g))
        .step(591152400, 3600, 0, "CET", Ghost(g))
        .step(606877200, 3600, 3600, "CEST", Ghost(g))
        .step(622602000, 3600, 0, "CET", Ghost(g))
        .step(638326800, 3600, 3600, "CEST", Ghost(g))
        .step(654656400, 3600, 0, "CET", Ghost(g))
        .step(670381200, 3600, 3600, "CEST", Ghost(g))
        .step(686106000, 3600, 0, "CET", Ghost(g))
        .step(701830800, 3600, 3600, "CEST", Ghost(g))
        .step(717555600, 3600, 0, "CET", Ghost(g))
        .step(733280400, 3600, 3600, "CEST", Ghost(g))
        .step(749005200, 3600, 0, "CET", Ghost(g))
        .step(764730000, 3600, 3600, "CEST", Ghost(g))
        .step(780454800, 3600, 0, "CET", Ghost(g))
        .step(796179600, 3600, 3600, "CEST", Ghost(g))
        .step(811904400, 3600, 0, "CET", Ghost(g))
        .step(828234000, 3600, 3600, "CEST", Ghost(g))
        .step(846378000, 3600, 0, "CET", Ghost(g))
        .step(859683600, 3600, 3600, "CEST", Ghost(g))
        .step(877827600, 3600, 0, "CET", Ghost(g))
        .step(891133200, 3600, 3600, "CEST", Ghost(g))
        .step(909277200, 3600, 0, "CET", Ghost(g))
        .step(922582800, 3600, 3600, "CEST", Ghost(g))
        .step(941331600, 3600, 0, "CET", Ghost(g))
        .step(954032400, 3600, 3600, "CEST", Ghost(g))
        .step(972781200, 3600, 0, "CET", Ghost(g))
        .step(985482000, 3600, 3600, "CEST", Ghost(g))
        .step(1004230800, 3600, 0, "CET", Ghost(g))
        .step(1017536400, 3600, 3600, "CEST", Ghost(g))
        .step(1035680400, 3600, 0, "CET", Ghost(g))
        .step(1048986000, 3600, 3600, "CEST", Ghost(g))
        .step(1067130000, 3600, 0, "CET", Ghost(g))
        .step(1080435600, 3600, 3600, "CEST", Ghost(g))
        .step(1099184400, 3600, 0, "CET", Ghost(g))
        .step(1111885200, 3600, 3600, "CEST", Ghost(g))
        .step(1130634000, 3600, 0, "CET", Ghost(g))
        .step(1143334800, 3600, 3600, "CEST", Ghost(g))
        .step(1162083600, 3600, 0, "CET", Ghost(g))
        .step(1174784400, 3600, 3600, "CEST", Ghost(g))
        .step(1193533200, 3600, 0, "CET", Ghost(g))
        .step(1206838800, 3600, 3600, "CEST", Ghost(g))
        .step(1224982800, 3600, 0, "CET", Ghost(g))
        .step(1238288400, 3600, 3600, "CEST", Ghost(g))
        .step(1256432400, 3600, 0, "CET", Ghost(g))
        .step(1269738000, 3600, 3600, "CEST", Ghost(g))
        .step(1288486800, 3600, 0, "CET", Ghost(g))
        .step(1301187600, 3600, 3600, "CEST", Ghost(g))
        .step(1319936400, 3600, 0, "CET", Ghost(g))
        .step(1332637200, 3600, 3600, "CEST", Ghost(g))
        .step(1351386000, 3600, 0, "CET", Ghost(g))
        .step(1364691600, 3600, 3600, "CEST", Ghost(g))
        .step(1382835600, 3600, 0, "CET", Ghost(g))
        .step(1396141200, 3600, 3600, "CEST", Ghost(g))
        .step(1414285200, 3600, 0, "CET", Ghost(g))
        .step(1427590800, 3600, 3600, "CEST", Ghost(g))
        .step(1445734800, 3600, 0, "CET", Ghost(g))
        .step(1459040400, 3600, 3600, "CEST", Ghost(g))
        .step(1477789200, 3600, 0, "CET", Ghost(g))
        .step(1490490000, 3600, 3600, "CEST", Ghost(g))
        .step(1509238800, 3600, 0, "CET", Ghost(g))
        .step(1521939600, 3600, 3600, "CEST", Ghost(g))
        .step(1540688400, 3600, 0, "CET", Ghost(g))
        .step(1553994000, 3600, 3600, "CEST", Ghost(g))
        .step(1572138000, 3600, 0, "CET", Ghost(g))
        .step(1585443600, 3600, 3600, "CEST", Ghost(g))
        .step(1603587600, 3600, 0, "CET", Ghost(g))
        .step(1616893200, 3600, 3600, "CEST", Ghost(g))
        .step(1635642000, 3600, 0, "CET", Ghost(g))
        .step(1648342800, 3600, 3600, "CEST", Ghost(g))
        .step(1667091600, 3600, 0, "CET", Ghost(g))
        .step(1679792400, 3600, 3600, "CEST", Ghost(g))
        .step(1698541200, 3600, 0, "CET", Ghost(g))
        .step(1711846800, 3600, 3600, "CEST", Ghost(g))
        .step(1729990800, 3600, 0, "CET", Ghost(g))
        .step(1743296400, 3600, 3600, "CEST", Ghost(g))
        .step(1761440400, 3600, 0, "CET", Ghost(g))
        .step(1774746000, 3600, 3600, "CEST", Ghost(g))
        .step(1792890000, 3600, 0, "CET", Ghost(g))
        .step(1806195600, 3600, 3600, "CEST", Ghost(g))
        .step(1824944400, 3600, 0, "CET", Ghost(g))
        .step(1837645200, 3600, 3600, "CEST", Ghost(g))
        .step(1856394000, 3600, 0, "CET", Ghost(g))
        .step(1869094800, 3600, 3600, "CEST", Ghost(g))
        .step(1887843600, 3600, 0, "CET", Ghost(g))
        .step(1901149200, 3600, 3600, "CEST", Ghost(g))
        .step(1919293200, 3600, 0, "CET", Ghost(g))
        .step(1932598800, 3600, 3600, "CEST", Ghost(g))
        .step(1950742800, 3600, 0, "CET", Ghost(g))
        .step(1964048400, 3600, 3600, "CEST", Ghost(g))
        .step(1982797200, 3600, 0, "CET", Ghost(g))
        .step(1995498000, 3600, 3600, "CEST", Ghost(g))
        .step(2014246800, 3600, 0, "CET", Ghost(g))
        .step(2026947600, 3600, 3600, "CEST", Ghost(g))
        .step(2045696400, 3600, 0, "CET", Ghost(g))
        .step(2058397200, 3600, 3600, "CEST", Ghost(g))
        .step(2077146000, 3600, 0, "CET", Ghost(g))
        .step(2090451600, 3600, 3600, "CEST", Ghost(g))
        .step(2108595600, 3600, 0, "CET", Ghost(g))
        .step(2121901200, 3600, 3600, "CEST", Ghost(g))
        .step(2140045200, 3600, 0, "CET", Ghost(g))
        .finish(Ghost(g))
}

} // verus!
