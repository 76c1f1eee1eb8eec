//! The tables of the zones: those of a region in the region's module, the
//! others here.

pub mod africa;
pub mod america;
pub mod antarctica;
pub mod arctic;
pub mod asia;
pub mod atlantic;
pub mod australia;
pub mod brazil;
pub mod canada;
pub mod chile;
pub mod etc;
pub mod europe;
pub mod indian;
pub mod mexico;
pub mod pacific;
pub mod us;

use crate::interface::TimeZone;
use crate::timezone_impl::{FixedTimespanSet, Tz};
use crate::timezones::tables;
use vstd::prelude::*;

verus! {

/// The zone `CET`.
pub fn cet() -> (r: Tz)
    ensures
        r.wf(),
        r.zone_name() == "CET"@,
        r.table() == tables::cet(),
{
    let ghost g = tables::cet_rows();
    FixedTimespanSet::begin("CET", 3600, 0, "CET", Ghost(g))
        .step(-1693706400, 3600, 3600, "CEST", Ghost(g))
        .step(-1680483600, 3600, 0, "CET", Ghost(g))
        .step(-1663455600, 3600, 3600, "CEST", Ghost(g))
        .step(-1650150000, 3600, 0, "CET", Ghost(g))
        .step(-1632006000, 3600, 3600, "CEST", Ghost(g))
        .step(-1618700400, 3600, 0, "CET", Ghost(g))
        .step(-938905200, 3600, 3600, "CEST", Ghost(g))
        .step(-857257200, 3600, 0, "CET", Ghost(g))
        .step(-844556400, 3600, 3600, "CEST", Ghost(g))
        .step(-828226800, 3600, 0, "CET", Ghost(g))
        .step(-812502000, 3600, 3600, "CEST", Ghost(g))
        .step(-796777200, 3600, 0, "CET", Ghost(g))
        .step(-781052400, 3600, 3600, "CEST", Ghost(g))
        .step(-766623600, 3600, 0, "CET", Ghost(g))
        .step(228877200, 3600, 3600, "CEST", Ghost(g))
        .step(243997200, 3600, 0, "CET", Ghost(g))
        .step(260326800, 3600, 3600, "CEST", Ghost(g))
        .step(276051600, 3600, 0, "CET", Ghost(g))
        .step(291776400, 3600, 3600, "CEST", Ghost(g))
        .step(307501200, 3600, 0, "CET", Ghost(g))
        .step(323830800, 3600, 3600, "CEST", Ghost(g))
        .step(338950800, 3600, 0, "CET", Ghost(g))
        .step(354675600, 3600, 3600, "CEST", Ghost(g))
        .step(370400400, 3600, 0, "CET", Ghost(g))
        .step(386125200, 3600, 3600, "CEST", Ghost(g))
        .step(401850000, 3600, 0, "CET", Ghost(g))
        .step(417574800, 3600, 3600, "CEST", Ghost(g))
        .step(433299600, 3600, 0, "CET", Ghost(g))
        .step(449024400, 3600, 3600, "CEST", Ghost(g))
        .step(465354000, 3600, 0, "CET", Ghost(g))
        .step(481078800, 3600, 3600, "CEST", Ghost(g))
        .step(496803600, 3600, 0, "CET", Ghost(g))
        .step(512528400, 3600, 3600, "CEST", Ghost(g))
        .step(528253200, 3600, 0, "CET", Ghost(g))
        .step(543978000, 3600, 3600, "CEST", Ghost(g))
        .step(559702800, 3600, 0, "CET", Ghost(g))
        .step(575427600, 3600, 3600, "CEST", Ghost(g))
        .step(591152400, 3600, 0, "CET", Ghost(g))
        .step(606877200, 3600, 3600, "CEST", Ghost(g))
        .step(622602000, 3600, 0, "CET", Ghost(g))
        .step(638326800, 3600, 3600, "CEST", Ghost(g))
        .step(654656400, 3600, 0, "CET", Ghost(g))
        .step(670381200, 3600, 3600, "CEST", Ghost(g))
        .step(686106000, 3600, 0, "CET", Ghost(g))
        .step(701830800, 3600, 3600, "CEST", Ghost(g))
        .step(717555600, 3600, 0, "CET", Ghost(g))
        .step(733280400, 3600, 3600, "CEST", Ghost(g))
        .step(749005200, 3600, 0, "CET", Ghost(g))
        .step(764730000, 3600, 3600, "CEST", Ghost(g))
        .step(780454800, 3600, 0, "CET", Ghost(g))
        .step(796179600, 3600, 3600, "CEST", Ghost(g))
        .step(811904400, 3600, 0, "CET", Ghost(g))
        .step(828234000, 3600, 3600, "CEST", Ghost(g))
        .step(846378000, 3600, 0, "CET", Ghost(g))
        .step(859683600, 3600, 3600, "CEST", Ghost(g))
        .step(877827600, 3600, 0, "CET", Ghost(g))
        .step(891133200, 3600, 3600, "CEST", Ghost(g))
        .step(909277200, 3600, 0, "CET", Ghost(g))
        .step(922582800, 3600, 3600, "CEST", Ghost(g))
        .step(941331600, 3600, 0, "CET", Ghost(g))
        .step(954032400, 3600, 3600, "CEST", Ghost(g))
        .step(972781200, 3600, 0, "CET", Ghost(g))
        .step(985482000, 3600, 3600, "CEST", Ghost(g))
        .step(1004230800, 3600, 0, "CET", Ghost(g))
        .step(1017536400, 3600, 3600, "CEST", Ghost(g))
        .step(1035680400, 3600, 0, "CET", Ghost(g))
        .step(1048986000, 3600, 3600, "CEST", Ghost(g))
        .step(1067130000, 3600, 0, "CET", Ghost(g))
        .step(1080435600, 3600, 3600, "CEST", Ghost(g))
        .step(1099184400, 3600, 0, "CET", Ghost(g))
        .step(1111885200, 3600, 3600, "CEST", Ghost(g))
        .step(1130634000, 3600, 0, "CET", Ghost(g))
        .step(1143334800, 3600, 3600, "CEST", Ghost(g))
        .step(1162083600, 3600, 0, "CET", Ghost(g))
        .step(1174784400, 3600, 3600, "CEST", Ghost(g))
        .step(1193533200, 3600, 0, "CET", Ghost(g))
        .step(1206838800, 3600, 3600, "CEST", Ghost(g))
        .step(1224982800, 3600, 0, "CET", Ghost(g))
        .step(1238288400, 3600, 3600, "CEST", Ghost(g))
        .step(1256432400, 3600, 0, "CET", Ghost(g))
        .step(1269738000, 3600, 3600, "CEST", Ghost(g))
        .step(1288486800, 3600, 0, "CET", Ghost(g))
        .step(1301187600, 3600, 3600, "CEST", Ghost(g))
        .step(1319936400, 3600, 0, "CET", Ghost(g))
        .step(1332637200, 3600, 3600, "CEST", Ghost(g))
        .step(1351386000, 3600, 0, "CET", Ghost(g))
        .step(1364691600, 3600, 3600, "CEST", Ghost(g))
        .step(1382835600, 3600, 0, "CET", Ghost(g))
        .step(1396141200, 3600, 3600, "CEST", Ghost(g))
        .step(1414285200, 3600, 0, "CET", Ghost(g))
        .step(1427590800, 3600, 3600, "CEST", Ghost(g))
        .step(1445734800, 3600, 0, "CET", Ghost(g))
        .step(1459040400, 3600, 3600, "CEST", Ghost(g))
        .step(1477789200, 3600, 0, "CET", Ghost(g))
        .step(1490490000, 3600, 3600, "CEST", Ghost(g))
        .step(1509238800, 3600, 0, "CET", Ghost(g))
        .step(1521939600, 3600, 3600, "CEST", Ghost(g))
        .step(1540688400, 3600, 0, "CET", Ghost(g))
        .step(1553994000, 3600, 3600, "CEST", Ghost(g))
        .step(1572138000, 3600, 0, "CET", Ghost(g))
        .step(1585443600, 3600, 3600, "CEST", Ghost(g))
        .step(1603587600, 3600, 0, "CET", Ghost(g))
        .step(1616893200, 3600, 3600, "CEST", Ghost(g))
        .step(1635642000, 3600, 0, "CET", Ghost(g))
        .step(1648342800, 3600, 3600, "CEST", Ghost(g))
        .step(1667091600, 3600, 0, "CET", Ghost(g))
        .step(1679792400, 3600, 3600, "CEST", Ghost(g))
        .step(1698541200, 3600, 0, "CET", Ghost(g))
        .step(1711846800, 3600, 3600, "CEST", Ghost(g))
        .step(1729990800, 3600, 0, "CET", Ghost(g))
        .step(1743296400, 3600, 3600, "CEST", Ghost(g))
        .step(1761440400, 3600, 0, "CET", Ghost(g))
        .step(1774746000, 3600, 3600, "CEST", Ghost(g))
        .step(1792890000, 3600, 0, "CET", Ghost(g))
        .step(1806195600, 3600, 3600, "CEST", Ghost(g))
        .step(1824944400, 3600, 0, "CET", Ghost(g))
        .step(1837645200, 3600, 3600, "CEST", Ghost(g))
        .step(1856394000, 3600, 0, "CET", Ghost(g))
        .step(1869094800, 3600, 3600, "CEST", Ghost(g))
        .step(1887843600, 3600, 0, "CET", Ghost(g))
        .step(1901149200, 3600, 3600, "CEST", Ghost(g))
        .step(1919293200, 3600, 0, "CET", Ghost(g))
        .step(1932598800, 3600, 3600, "CEST", Ghost(g))
        .step(1950742800, 3600, 0, "CET", Ghost(g))
        .step(1964048400, 3600, 3600, "CEST", Ghost(g))
        .step(1982797200, 3600, 0, "CET", Ghost(g))
        .step(1995498000, 3600, 3600, "CEST", Ghost(g))
        .step(2014246800, 3600, 0, "CET", Ghost(g))
        .step(2026947600, 3600, 3600, "CEST", Ghost(g))
        .step(2045696400, 3600, 0, "CET", Ghost(g))
        .step(2058397200, 3600, 3600, "CEST", Ghost(g))
        .step(2077146000, 3600, 0, "CET", Ghost(g))
        .step(2090451600, 3600, 3600, "CEST", Ghost(g))
        .step(2108595600, 3600, 0, "CET", Ghost(g))
        .step(2121901200, 3600, 3600, "CEST", Ghost(g))
        .step(2140045200, 3600, 0, "CET", Ghost(g))
        .finish(Ghost(g))
}

/// The zone `CST6CDT`.
pub fn cst6cdt() -> (r: Tz)
    ensures
        r.wf(),
        r.zone_name() == "CST6CDT"@,
        r.table() == tables::cst6cdt(),
{
    let ghost g = tables::cst6cdt_rows();
    FixedTimespanSet::begin("CST6CDT", -21600, 0, "CST", Ghost(g))
        .step(-1633276800, -21600, 3600, "CDT", Ghost(g))
        .step(-1615136400, -21600, 0, "CST", Ghost(g))
        .step(-1601827200, -21600, 3600, "CDT", Ghost(g))
        .step(-1583686800, -21600, 0, "CST", Ghost(g))
        .step(-880214400, -21600, 3600, "CWT", Ghost(g))
        .step(-769395600, -21600, 3600, "CPT", Ghost(g))
        .step(-765392400, -21600, 0, "CST", Ghost(g))
        .step(-84384000, -21600, 3600, "CDT", Ghost(g))
        .step(-68662800, -21600, 0, "CST", Ghost(g))
        .step(-52934400, -21600, 3600, "CDT", Ghost(g))
        .step(-37213200, -21600, 0, "CST", Ghost(g))
        .step(-21484800, -21600, 3600, "CDT", Ghost(g))
        .step(-5763600, -21600, 0, "CST", Ghost(g))
        .step(9964800, -21600, 3600, "CDT", Ghost(g))
        .step(25686000, -21600, 0, "CST", Ghost(g))
        .step(41414400, -21600, 3600, "CDT", Ghost(g))
        .step(57740400, -21600, 0, "CST", Ghost(g))
        .step(73468800, -21600, 3600, "CDT", Ghost(g))
        .step(89190000, -21600, 0, "CST", Ghost(g))
        .step(104918400, -21600, 3600, "CDT", Ghost(g))
        .step(120639600, -21600, 0, "CST", Ghost(g))
        .step(126691200, -21600, 3600, "CDT", Ghost(g))
        .step(152089200, -21600, 0, "CST", Ghost(g))
        .step(162374400, -21600, 3600, "CDT", Ghost(g))
        .step(183538800, -21600, 0, "CST", Ghost(g))
        .step(199267200, -21600, 3600, "CDT", Ghost(g))
        .step(215593200, -21600, 0, "CST", Ghost(g))
        .step(230716800, -21600, 3600, "CDT", Ghost(g))
        .step(247042800, -21600, 0, "CST", Ghost(g))
        .step(262771200, -21600, 3600, "CDT", Ghost(g))
        .step(278492400, -21600, 0, "CST", Ghost(g))
        .step(294220800, -21600, 3600, "CDT", Ghost(g))
        .step(309942000, -21600, 0, "CST", Ghost(g))
        .step(325670400, -21600, 3600, "CDT", Ghost(g))
        .step(341391600, -21600, 0, "CST", Ghost(g))
        .step(357120000, -21600, 3600, "CDT", Ghost(g))
        .step(372841200, -21600, 0, "CST", Ghost(g))
        .step(388569600, -21600, 3600, "CDT", Ghost(g))
        .step(404895600, -21600, 0, "CST", Ghost(g))
        .step(420019200, -21600, 3600, "CDT", Ghost(g))
        .step(436345200, -21600, 0, "CST", Ghost(g))
        .step(452073600, -21600, 3600, "CDT", Ghost(g))
        .step(467794800, -21600, 0, "CST", Ghost(g))
        .step(483523200, -21600, 3600, "CDT", Ghost(g))
        .step(499244400, -21600, 0, "CST", Ghost(g))
        .step(514972800, -21600, 3600, "CDT", Ghost(g))
        .step(530694000, -21600, 0, "CST", Ghost(g))
        .step(544608000, -21600, 3600, "CDT", Ghost(g))
        .step(562143600, -21600, 0, "CST", Ghost(g))
        .step(576057600, -21600, 3600, "CDT", Ghost(g))
        .step(594198000, -21600, 0, "CST", Ghost(g))
        .step(607507200, -21600, 3600, "CDT", Ghost(g))
        .step(625647600, -21600, 0, "CST", Ghost(g))
        .step(638956800, -21600, 3600, "CDT", Ghost(g))
        .step(657097200, -21600, 0, "CST", Ghost(g))
        .step(671011200, -21600, 3600, "CDT", Ghost(g))
        .step(688546800, -21600, 0, "CST", Ghost(g))
        .step(702460800, -21600, 3600, "CDT", Ghost(g))
        .step(719996400, -21600, 0, "CST", Ghost(g))
        .step(733910400, -21600, 3600, "CDT", Ghost(g))
        .step(752050800, -21600, 0, "CST", Ghost(g))
        .step(765360000, -21600, 3600, "CDT", Ghost(g))
        .step(783500400, -21600, 0, "CST", Ghost(g))
        .step(796809600, -21600, 3600, "CDT", Ghost(g))
        .step(814950000, -21600, 0, "CST", Ghost(g))
        .step(828864000, -21600, 3600, "CDT", Ghost(g))
        .step(846399600, -21600, 0, "CST", Ghost(g))
        .step(860313600, -21600, 3600, "CDT", Ghost(g))
        .step(877849200, -21600, 0, "CST", Ghost(g))
        .step(891763200, -21600, 3600, "CDT", Ghost(g))
        .step(909298800, -21600, 0, "CST", Ghost(g))
        .step(923212800, -21600, 3600, "CDT", Ghost(g))
        .step(941353200, -21600, 0, "CST", Ghost(g))
        .step(954662400, -21600, 3600, "CDT", Ghost(g))
        .step(972802800, -21600, 0, "CST", Ghost(g))
        .step(986112000, -21600, 3600, "CDT", Ghost(g))
        .step(1004252400, -21600, 0, "CST", Ghost(g))
        .step(1018166400, -21600, 3600, "CDT", Ghost(g))
        .step(1035702000, -21600, 0, "CST", Ghost(g))
        .step(1049616000, -21600, 3600, "CDT", Ghost(g))
        .step(1067151600, -21600, 0, "CST", Ghost(g))
        .step(1081065600, -21600, 3600, "CDT", Ghost(g))
        .step(1099206000, -21600, 0, "CST", Ghost(g))
        .step(1112515200, -21600, 3600, "CDT", Ghost(g))
        .step(1130655600, -21600, 0, "CST", Ghost(g))
        .step(1143964800, -21600, 3600, "CDT", Ghost(g))
        .step(1162105200, -21600, 0, "CST", Ghost(g))
        .step(1173600000, -21600, 3600, "CDT", Ghost(g))
        .step(1194159600, -21600, 0, "CST", Ghost(g))
        .step(1205049600, -21600, 3600, "CDT", Ghost(g))
        .step(1225609200, -21600, 0, "CST", Ghost(g))
        .step(1236499200, -21600, 3600, "CDT", Ghost(g))
        .step(1257058800, -21600, 0, "CST", Ghost(g))
        .step(1268553600, -21600, 3600, "CDT", Ghost(g))
        .step(1289113200, -21600, 0, "CST", Ghost(g))
        .step(1300003200, -21600, 3600, "CDT", Ghost(g))
        .step(1320562800, -21600, 0, "CST", Ghost(g))
        .step(1331452800, -21600, 3600, "CDT", Ghost(g))
        .step(1352012400, -21600, 0, "CST", Ghost(g))
        .step(1362902400, -21600, 3600, "CDT", Ghost(g))
        .step(1383462000, -21600, 0, "CST", Ghost(g))
        .step(1394352000, -21600, 3600, "CDT", Ghost(g))
        .step(1414911600, -21600, 0, "CST", Ghost(g))
        .step(1425801600, -21600, 3600, "CDT", Ghost(g))
        .step(1446361200, -21600, 0, "CST", Ghost(g))
        .step(1457856000, -21600, 3600, "CDT", Ghost(g))
        .step(1478415600, -21600, 0, "CST", Ghost(g))
        .step(1489305600, -21600, 3600, "CDT", Ghost(g))
        .step(1509865200, -21600, 0, "CST", Ghost(g))
        .step(1520755200, -21600, 3600, "CDT", Ghost(g))
        .step(1541314800, -21600, 0, "CST", Ghost(g))
        .step(1552204800, -21600, 3600, "CDT", Ghost(g))
        .step(1572764400, -21600, 0, "CST", Ghost(g))
        .step(1583654400, -21600, 3600, "CDT", Ghost(g))
        .step(1604214000, -21600, 0, "CST", Ghost(g))
        .step(1615708800, -21600, 3600, "CDT", Ghost(g))
        .step(1636268400, -21600, 0, "CST", Ghost(g))
        .step(1647158400, -21600, 3600, "CDT", Ghost(g))
        .step(1667718000, -21600, 0, "CST", Ghost(g))
        .step(1678608000, -21600, 3600, "CDT", Ghost(g))
        .step(1699167600, -21600, 0, "CST", Ghost(g))
        .step(1710057600, -21600, 3600, "CDT", Ghost(g))
        .step(1730617200, -21600, 0, "CST", Ghost(g))
        .step(1741507200, -21600, 3600, "CDT", Ghost(g))
        .step(1762066800, -21600, 0, "CST", Ghost(g))
        .step(1772956800, -21600, 3600, "CDT", Ghost(g))
        .step(1793516400, -21600, 0, "CST", Ghost(g))
        .step(1805011200, -21600, 3600, "CDT", Ghost(g))
        .step(1825570800, -21600, 0, "CST", Ghost(g))
        .step(1836460800, -21600, 3600, "CDT", Ghost(g))
        .step(1857020400, -21600, 0, "CST", Ghost(g))
        .step(1867910400, -21600, 3600, "CDT", Ghost(g))
        .step(1888470000, -21600, 0, "CST", Ghost(g))
        .step(1899360000, -21600, 3600, "CDT", Ghost(g))
        .step(1919919600, -21600, 0, "CST", Ghost(g))
        .step(1930809600, -21600, 3600, "CDT", Ghost(g))
        .step(1951369200, -21600, 0, "CST", Ghost(g))
        .step(1962864000, -21600, 3600, "CDT", Ghost(g))
        .step(1983423600, -21600, 0, "CST", Ghost(g))
        .step(1994313600, -21600, 3600, "CDT", Ghost(g))
        .step(2014873200, -21600, 0, "CST", Ghost(g))
        .step(2025763200, -21600, 3600, "CDT", Ghost(g))
        .step(2046322800, -21600, 0, "CST", Ghost(g))
        .step(2057212800, -21600, 3600, "CDT", Ghost(g))
        .step(2077772400, -21600, 0, "CST", Ghost(g))
        .step(2088662400, -21600, 3600, "CDT", Ghost(g))
        .step(2109222000, -21600, 0, "CST", Ghost(g))
        .step(2120112000, -21600, 3600, "CDT", Ghost(g))
        .step(2140671600, -21600, 0, "CST", Ghost(g))
        .finish(Ghost(g))
}

/// The zone `Cuba`.
pub fn cuba() -> (r: Tz)
    ensures
        r.wf(),
        r.zone_name() == "Cuba"@,
        r.table() == tables::cuba(),
{
    let ghost g = tables::cuba_rows();
    FixedTimespanSet::begin("Cuba", -19768, 0, "LMT", Ghost(g))
        .step(-2524501832, -19776, 0, "HMT", Ghost(g))
        .step(-1402813824, -18000, 0, "CST", Ghost(g))
        .step(-1311534000, -18000, 3600, "CDT", Ghost(g))
        .step(-1300996800, -18000, 0, "CST", Ghost(g))
        .step(-933534000, -18000, 3600, "CDT", Ghost(g))
        .step(-925675200, -18000, 0, "CST", Ghost(g))
        .step(-902084400, -18000, 3600, "CDT", Ghost(g))
        .step(-893620800, -18000, 0, "CST", Ghost(g))
        .step(-870030000, -18000, 3600, "CDT", Ghost(g))
        .step(-862171200, -18000, 0, "CST", Ghost(g))
        .step(-775681200, -18000, 3600, "CDT", Ghost(g))
        .step(-767822400, -18000, 0, "CST", Ghost(g))
        .step(-744231600, -18000, 3600, "CDT", Ghost(g))
        .step(-736372800, -18000, 0, "CST", Ghost(g))
        .step(-144702000, -18000, 3600, "CDT", Ghost(g))
        .step(-134251200, -18000, 0, "CST", Ghost(g))
        .step(-113425200, -18000, 3600, "CDT", Ghost(g))
        .step(-102542400, -18000, 0, "CST", Ghost(g))
        .step(-86295600, -18000, 3600, "CDT", Ghost(g))
        .step(-72907200, -18000, 0, "CST", Ghost(g))
        .step(-54154800, -18000, 3600, "CDT", Ghost(g))
        .step(-41457600, -18000, 0, "CST", Ghost(g))
        .step(-21495600, -18000, 3600, "CDT", Ghost(g))
        .step(-5774400, -18000, 0, "CST", Ghost(g))
        .step(9954000, -18000, 3600, "CDT", Ghost(g))
        .step(25675200, -18000, 0, "CST", Ghost(g))
        .step(41403600, -18000, 3600, "CDT", Ghost(g))
        .step(57729600, -18000, 0, "CST", Ghost(g))
        .step(73458000, -18000, 3600, "CDT", Ghost(g))
        .step(87364800, -18000, 0, "CST", Ghost(g))
        .step(104907600, -18000, 3600, "CDT", Ghost(g))
        .step(118900800, -18000, 0, "CST", Ghost(g))
        .step(136357200, -18000, 3600, "CDT", Ghost(g))
        .step(150436800, -18000, 0, "CST", Ghost(g))
        .step(167806800, -18000, 3600, "CDT", Ghost(g))
        .step(183528000, -18000, 0, "CST", Ghost(g))
        .step(199256400, -18000, 3600, "CDT", Ghost(g))
        .step(215582400, -18000, 0, "CST", Ghost(g))
        .step(230706000, -18000, 3600, "CDT", Ghost(g))
        .step(247032000, -18000, 0, "CST", Ghost(g))
        .step(263365200, -18000, 3600, "CDT", Ghost(g))
        .step(276667200, -18000, 0, "CST", Ghost(g))
        .step(290581200, -18000, 3600, "CDT", Ghost(g))
        .step(308721600, -18000, 0, "CST", Ghost(g))
        .step(322030800, -18000, 3600, "CDT", Ghost(g))
        .step(340171200, -18000, 0, "CST", Ghost(g))
        .step(358318800, -18000, 3600, "CDT", Ghost(g))
        .step(371620800, -18000, 0, "CST", Ghost(g))
        .step(389768400, -18000, 3600, "CDT", Ghost(g))
        .step(403070400, -18000, 0, "CST", Ghost(g))
        .step(421218000, -18000, 3600, "CDT", Ghost(g))
        .step(434520000, -18000, 0, "CST", Ghost(g))
        .step(452667600, -18000, 3600, "CDT", Ghost(g))
        .step(466574400, -18000, 0, "CST", Ghost(g))
        .step(484117200, -18000, 3600, "CDT", Ghost(g))
        .step(498024000, -18000, 0, "CST", Ghost(g))
        .step(511333200, -18000, 3600, "CDT", Ghost(g))
        .step(529473600, -18000, 0, "CST", Ghost(g))
        .step(542782800, -18000, 3600, "CDT", Ghost(g))
        .step(560923200, -18000, 0, "CST", Ghost(g))
        .step(574837200, -18000, 3600, "CDT", Ghost(g))
        .step(592372800, -18000, 0, "CST", Ghost(g))
        .step(606286800, -18000, 3600, "CDT", Ghost(g))
        .step(623822400, -18000, 0, "CST", Ghost(g))
        .step(638946000, -18000, 3600, "CDT", Ghost(g))
        .step(655876800, -18000, 0, "CST", Ghost(g))
        .step(671000400, -18000, 3600, "CDT", Ghost(g))
        .step(687330000, -18000, 0, "CST", Ghost(g))
        .step(702450000, -18000, 3600, "CDT", Ghost(g))
        .step(718779600, -18000, 0, "CST", Ghost(g))
        .step(733899600, -18000, 3600, "CDT", Ghost(g))
        .step(750229200, -18000, 0, "CST", Ghost(g))
        .step(765349200, -18000, 3600, "CDT", Ghost(g))
        .step(781678800, -18000, 0, "CST", Ghost(g))
        .step(796798800, -18000, 3600, "CDT", Ghost(g))
        .step(813128400, -18000, 0, "CST", Ghost(g))
        .step(828853200, -18000, 3600, "CDT", Ghost(g))
        .step(844578000, -18000, 0, "CST", Ghost(g))
        .step(860302800, -18000, 3600, "CDT", Ghost(g))
        .step(876632400, -18000, 0, "CST", Ghost(g))
        .step(891147600, -18000, 3600, "CDT", Ghost(g))
        .step(909291600, -18000, 0, "CST", Ghost(g))
        .step(922597200, -18000, 3600, "CDT", Ghost(g))
        .step(941346000, -18000, 0, "CST", Ghost(g))
        .step(954651600, -18000, 3600, "CDT", Ghost(g))
        .step(972795600, -18000, 0, "CST", Ghost(g))
        .step(986101200, -18000, 3600, "CDT", Ghost(g))
        .step(1004245200, -18000, 0, "CST", Ghost(g))
        .step(1018155600, -18000, 3600, "CDT", Ghost(g))
        .step(1035694800, -18000, 0, "CST", Ghost(g))
        .step(1049605200, -18000, 3600, "CDT", Ghost(g))
        .step(1067144400, -18000, 0, "CST", Ghost(g))
        .step(1080450000, -18000, 3600, "CDT", Ghost(g))
        .step(1162098000, -18000, 0, "CST", Ghost(g))
        .step(1173589200, -18000, 3600, "CDT", Ghost(g))
        .step(1193547600, -18000, 0, "CST", Ghost(g))
        .step(1205643600, -18000, 3600, "CDT", Ghost(g))
        .step(1224997200, -18000, 0, "CST", Ghost(g))
        .step(1236488400, -18000, 3600, "CDT", Ghost(g))
        .step(1256446800, -18000, 0, "CST", Ghost(g))
        .step(1268542800, -18000, 3600, "CDT", Ghost(g))
        .step(1288501200, -18000, 0, "CST", Ghost(g))
        .step(1300597200, -18000, 3600, "CDT", Ghost(g))
        .step(1321160400, -18000, 0, "CST", Ghost(g))
        .step(1333256400, -18000, 3600, "CDT", Ghost(g))
        .step(1352005200, -18000, 0, "CST", Ghost(g))
        .step(1362891600, -18000, 3600, "CDT", Ghost(g))
        .step(1383454800, -18000, 0, "CST", Ghost(g))
        .step(1394341200, -18000, 3600, "CDT", Ghost(g))
        .step(1414904400, -18000, 0, "CST", Ghost(g))
        .step(1425790800, -18000, 3600, "CDT", Ghost(g))
        .step(1446354000, -18000, 0, "CST", Ghost(g))
        .step(1457845200, -18000, 3600, "CDT", Ghost(g))
        .step(1478408400, -18000, 0, "CST", Ghost(g))
        .step(1489294800, -18000, 3600, "CDT", Ghost(g))
        .step(1509858000, -18000, 0, "CST", Ghost(g))
        .step(1520744400, -18000, 3600, "CDT", Ghost(g))
        .step(1541307600, -18000, 0, "CST", Ghost(g))
        .step(1552194000, -18000, 3600, "CDT", Ghost(g))
        .step(1572757200, -18000, 0, "CST", Ghost(g))
        .step(1583643600, -18000, 3600, "CDT", Ghost(g))
        .step(1604206800, -18000, 0, "CST", Ghost(g))
        .step(1615698000, -18000, 3600, "CDT", Ghost(g))
        .step(1636261200, -18000, 0, "CST", Ghost(g))
        .step(1647147600, -18000, 3600, "CDT", Ghost(g))
        .step(1667710800, -18000, 0, "CST", Ghost(g))
        .step(1678597200, -18000, 3600, "CDT", Ghost(g))
        .step(1699160400, -18000, 0, "CST", Ghost(g))
        .step(1710046800, -18000, 3600, "CDT", Ghost(g))
        .step(1730610000, -18000, 0, "CST", Ghost(g))
        .step(1741496400, -18000, 3600, "CDT", Ghost(g))
        .step(1762059600, -18000, 0, "CST", Ghost(g))
        .step(1772946000, -18000, 3600, "CDT", Ghost(g))
        .step(1793509200, -18000, 0, "CST", Ghost(g))
        .step(1805000400, -18000, 3600, "CDT", Ghost(g))
        .step(1825563600, -18000, 0, "CST", Ghost(g))
        .step(1836450000, -18000, 3600, "CDT", Ghost(g))
        .step(1857013200, -18000, 0, "CST", Ghost(g))
        .step(1867899600, -18000, 3600, "CDT", Ghost(g))
        .step(1888462800, -18000, 0, "CST", Ghost(g))
        .step(1899349200, -18000, 3600, "CDT", Ghost(g))
        .step(1919912400, -18000, 0, "CST", Ghost(g))
        .step(1930798800, -18000, 3600, "CDT", Ghost(g))
        .step(1951362000, -18000, 0, "CST", Ghost(g))
        .step(1962853200, -18000, 3600, "CDT", Ghost(g))
        .step(1983416400, -18000, 0, "CST", Ghost(g))
        .step(1994302800, -18000, 3600, "CDT", Ghost(g))
        .step(2014866000, -18000, 0, "CST", Ghost(g))
        .step(2025752400, -18000, 3600, "CDT", Ghost(g))
        .step(2046315600, -18000, 0, "CST", Ghost(g))
        .step(2057202000, -18000, 3600, "CDT", Ghost(g))
        .step(2077765200, -18000, 0, "CST", Ghost(g))
        .step(2088651600, -18000, 3600, "CDT", Ghost(g))
        .step(2109214800, -18000, 0, "CST", Ghost(g))
        .step(2120101200, -18000, 3600, "CDT", Ghost(g))
        .step(2140664400, -18000, 0, "CST", Ghost(g))
        .finish(Ghost(g))
}

/// The zone `EET`.
pub fn eet() -> (r: Tz)
    ensures
        r.wf(),
        r.zone_name() == "EET"@,
        r.table() == tables::eet(),
{
    let ghost g = tables::eet_rows();
    FixedTimespanSet::begin("EET", 7200, 0, "EET", Ghost(g))
        .step(228877200, 7200, 3600, "EEST", Ghost(g))
        .step(243997200, 7200, 0, "EET", Ghost(g))
        .step(260326800, 7200, 3600, "EEST", Ghost(g))
        .step(276051600, 7200, 0, "EET", Ghost(g))
        .step(291776400, 7200, 3600, "EEST", Ghost(g))
        .step(307501200, 7200, 0, "EET", Ghost(g))
        .step(323830800, 7200, 3600, "EEST", Ghost(g))
        .step(338950800, 7200, 0, "EET", Ghost(g))
        .step(354675600, 7200, 3600, "EEST", Ghost(g))
        .step(370400400, 7200, 0, "EET", Ghost(g))
        .step(386125200, 7200, 3600, "EEST", Ghost(g))
        .step(401850000, 7200, 0, "EET", Ghost(g))
        .step(417574800, 7200, 3600, "EEST", Ghost(g))
        .step(433299600, 7200, 0, "EET", Ghost(g))
        .step(449024400, 7200, 3600, "EEST", Ghost(g))
        .step(465354000, 7200, 0, "EET", Ghost(g))
        .step(481078800, 7200, 3600, "EEST", Ghost(g))
        .step(496803600, 7200, 0, "EET", Ghost(g))
        .step(512528400, 7200, 3600, "EEST", Ghost(g))
        .step(528253200, 7200, 0, "EET", Ghost(g))
        .step(543978000, 7200, 3600, "EEST", Ghost(g))
        .step(559702800, 7200, 0, "EET", Ghost(g))
        .step(575427600, 7200, 3600, "EEST", Ghost(g))
        .step(591152400, 7200, 0, "EET", Ghost(g))
        .step(606877200, 7200, 3600, "EEST", Ghost(g))
        .step(622602000, 7200, 0, "EET", Ghost(g))
        .step(638326800, 7200, 3600, "EEST", Ghost(g))
        .step(654656400, 7200, 0, "EET", Ghost(g))
        .step(670381200, 7200, 3600, "EEST", Ghost(g))
        .step(686106000, 7200, 0, "EET", Ghost(g))
        .step(701830800, 7200, 3600, "EEST", Ghost(g))
        .step(717555600, 7200, 0, "EET", Ghost(g))
        .step(733280400, 7200, 3600, "EEST", Ghost(g))
        .step(749005200, 7200, 0, "EET", Ghost(g))
        .step(764730000, 7200, 3600, "EEST", Ghost(g))
        .step(780454800, 7200, 0, "EET", Ghost(g))
        .step(796179600, 7200, 3600, "EEST", Ghost(g))
        .step(811904400, 7200, 0, "EET", Ghost(g))
        .step(828234000, 7200, 3600, "EEST", Ghost(g))
        .step(846378000, 7200, 0, "EET", Ghost(g))
        .step(859683600, 7200, 3600, "EEST", Ghost(g))
        .step(877827600, 7200, 0, "EET", Ghost(g))
        .step(891133200, 7200, 3600, "EEST", Ghost(g))
        .step(909277200, 7200, 0, "EET", Ghost(g))
        .step(922582800, 7200, 3600, "EEST", Ghost(g))
        .step(941331600, 7200, 0, "EET", Ghost(g))
        .step(954032400, 7200, 3600, "EEST", Ghost(g))
        .step(972781200, 7200, 0, "EET", Ghost(g))
        .step(985482000, 7200, 3600, "EEST", Ghost(g))
        .step(1004230800, 7200, 0, "EET", Ghost(g))
        .step(1017536400, 7200, 3600, "EEST", Ghost(g))
        .step(1035680400, 7200, 0, "EET", Ghost(g))
        .step(1048986000, 7200, 3600, "EEST", Ghost(g))
        .step(1067130000, 7200, 0, "EET", Ghost(g))
        .step(1080435600, 7200, 3600, "EEST", Ghost(g))
        .step(1099184400, 7200, 0, "EET", Ghost(g))
        .step(1111885200, 7200, 3600, "EEST", Ghost(g))
        .step(1130634000, 7200, 0, "EET", Ghost(g))
        .step(1143334800, 7200, 3600, "EEST", Ghost(g))
        .step(1162083600, 7200, 0, "EET", Ghost(g))
        .step(1174784400, 7200, 3600, "EEST", Ghost(g))
        .step(1193533200, 7200, 0, "EET", Ghost(g))
        .step(1206838800, 7200, 3600, "EEST", Ghost(g))
        .step(1224982800, 7200, 0, "EET", Ghost(g))
        .step(1238288400, 7200, 3600, "EEST", Ghost(g))
        .step(1256432400, 7200, 0, "EET", Ghost(g))
        .step(1269738000, 7200, 3600, "EEST", Ghost(g))
        .step(1288486800, 7200, 0, "EET", Ghost(g))
        .step(1301187600, 7200, 3600, "EEST", Ghost(g))
        .step(1319936400, 7200, 0, "EET", Ghost(g))
        .step(1332637200, 7200, 3600, "EEST", Ghost(g))
        .step(1351386000, 7200, 0, "EET", Ghost(g))
        .step(1364691600, 7200, 3600, "EEST", Ghost(g))
        .step(1382835600, 7200, 0, "EET", Ghost(g))
        .step(1396141200, 7200, 3600, "EEST", Ghost(g))
        .step(1414285200, 7200, 0, "EET", Ghost(g))
        .step(1427590800, 7200, 3600, "EEST", Ghost(g))
        .step(1445734800, 7200, 0, "EET", Ghost(g))
        .step(1459040400, 7200, 3600, "EEST", Ghost(g))
        .step(1477789200, 7200, 0, "EET", Ghost(g))
        .step(1490490000, 7200, 3600, "EEST", Ghost(g))
        .step(1509238800, 7200, 0, "EET", Ghost(g))
        .step(1521939600, 7200, 3600, "EEST", Ghost(g))
        .step(1540688400, 7200, 0, "EET", Ghost(g))
        .step(1553994000, 7200, 3600, "EEST", Ghost(g))
        .step(1572138000, 7200, 0, "EET", Ghost(g))
        .step(1585443600, 7200, 3600, "EEST", Ghost(g))
        .step(1603587600, 7200, 0, "EET", Ghost(g))
        .step(1616893200, 7200, 3600, "EEST", Ghost(g))
        .step(1635642000, 7200, 0, "EET", Ghost(g))
        .step(1648342800, 7200, 3600, "EEST", Ghost(g))
        .step(1667091600, 7200, 0, "EET", Ghost(g))
        .step(1679792400, 7200, 3600, "EEST", Ghost(g))
        .step(1698541200, 7200, 0, "EET", Ghost(g))
        .step(1711846800, 7200, 3600, "EEST", Ghost(g))
        .step(1729990800, 7200, 0, "EET", Ghost(g))
        .step(1743296400, 7200, 3600, "EEST", Ghost(g))
        .step(1761440400, 7200, 0, "EET", Ghost(g))
        .step(1774746000, 7200, 3600, "EEST", Ghost(g))
        .step(1792890000, 7200, 0, "EET", Ghost(g))
        .step(1806195600, 7200, 3600, "EEST", Ghost(g))
        .step(1824944400, 7200, 0, "EET", Ghost(g))
        .step(1837645200, 7200, 3600, "EEST", Ghost(g))
        .step(1856394000, 7200, 0, "EET", Ghost(g))
        .step(1869094800, 7200, 3600, "EEST", Ghost(g))
        .step(1887843600, 7200, 0, "EET", Ghost(g))
        .step(1901149200, 7200, 3600, "EEST", Ghost(g))
        .step(1919293200, 7200, 0, "EET", Ghost(g))
        .step(1932598800, 7200, 3600, "EEST", Ghost(g))
        .step(1950742800, 7200, 0, "EET", Ghost(g))
        .step(1964048400, 7200, 3600, "EEST", Ghost(g))
        .step(1982797200, 7200, 0, "EET", Ghost(g))
        .step(1995498000, 7200, 3600, "EEST", Ghost(g))
        .step(2014246800, 7200, 0, "EET", Ghost(g))
        .step(2026947600, 7200, 3600, "EEST", Ghost(g))
        .step(2045696400, 7200, 0, "EET", Ghost(g))
        .step(2058397200, 7200, 3600, "EEST", Ghost(g))
        .step(2077146000, 7200, 0, "EET", Ghost(g))
        .step(2090451600, 7200, 3600, "EEST", Ghost(g))
        .step(2108595600, 7200, 0, "EET", Ghost(g))
        .step(2121901200, 7200, 3600, "EEST", Ghost(g))
        .step(2140045200, 7200, 0, "EET", Ghost(g))
        .finish(Ghost(g))
}

/// The zone `EST`.
pub fn est() -> (r: Tz)
    ensures
        r.wf(),
        r.zone_name() == "EST"@,
        r.table() == tables::est(),
{
    let ghost g = tables::est_rows();
    FixedTimespanSet::begin("EST", -18000, 0, "EST", Ghost(g))
        .finish(Ghost(g))
}

/// The zone `EST5EDT`.
pub fn est5edt() -> (r: Tz)
    ensures
        r.wf(),
        r.zone_name() == "EST5EDT"@,
        r.table() == tables::est5edt(),
{
    let ghost g = tables::est5edt_rows();
    FixedTimespanSet::begin("EST5EDT", -18000, 0, "EST", Ghost(g))
        .step(-1633280400, -18000, 3600, "EDT", Ghost(g))
        .step(-1615140000, -18000, 0, "EST", Ghost(g))
        .step(-1601830800, -18000, 3600, "EDT", Ghost(g))
        .step(-1583690400, -18000, 0, "EST", Ghost(g))
        .step(-880218000, -18000, 3600, "EWT", Ghost(g))
        .step(-769395600, -18000, 3600, "EPT", Ghost(g))
        .step(-765396000, -18000, 0, "EST", Ghost(g))
        .step(-84387600, -18000, 3600, "EDT", Ghost(g))
        .step(-68666400, -18000, 0, "EST", Ghost(g))
        .step(-52938000, -18000, 3600, "EDT", Ghost(g))
        .step(-37216800, -18000, 0, "EST", Ghost(g))
        .step(-21488400, -18000, 3600, "EDT", Ghost(g))
        .step(-5767200, -18000, 0, "EST", Ghost(g))
        .step(9961200, -18000, 3600, "EDT", Ghost(g))
        .step(25682400, -18000, 0, "EST", Ghost(g))
        .step(41410800, -18000, 3600, "EDT", Ghost(g))
        .step(57736800, -18000, 0, "EST", Ghost(g))
        .step(73465200, -18000, 3600, "EDT", Ghost(g))
        .step(89186400, -18000, 0, "EST", Ghost(g))
        .step(104914800, -18000, 3600, "EDT", Ghost(g))
        .step(120636000, -18000, 0, "EST", Ghost(g))
        .step(126687600, -18000, 3600, "EDT", Ghost(g))
        .step(152085600, -18000, 0, "EST", Ghost(g))
        .step(162370800, -18000, 3600, "EDT", Ghost(g))
        .step(183535200, -18000, 0, "EST", Ghost(g))
        .step(199263600, -18000, 3600, "EDT", Ghost(g))
        .step(215589600, -18000, 0, "EST", Ghost(g))
        .step(230713200, -18000, 3600, "EDT", Ghost(g))
        .step(247039200, -18000, 0, "EST", Ghost(g))
        .step(262767600, -18000, 3600, "EDT", Ghost(g))
        .step(278488800, -18000, 0, "EST", Ghost(g))
        .step(294217200, -18000, 3600, "EDT", Ghost(g))
        .step(309938400, -18000, 0, "EST", Ghost(g))
        .step(325666800, -18000, 3600, "EDT", Ghost(g))
        .step(341388000, -18000, 0, "EST", Ghost(g))
        .step(357116400, -18000, 3600, "EDT", Ghost(g))
        .step(372837600, -18000, 0, "EST", Ghost(g))
        .step(388566000, -18000, 3600, "EDT", Ghost(g))
        .step(404892000, -18000, 0, "EST", Ghost(g))
        .step(420015600, -18000, 3600, "EDT", Ghost(g))
        .step(436341600, -18000, 0, "EST", Ghost(g))
        .step(452070000, -18000, 3600, "EDT", Ghost(g))
        .step(467791200, -18000, 0, "EST", Ghost(g))
        .step(483519600, -18000, 3600, "EDT", Ghost(g))
        .step(499240800, -18000, 0, "EST", Ghost(g))
        .step(514969200, -18000, 3600, "EDT", Ghost(g))
        .step(530690400, -18000, 0, "EST", Ghost(g))
        .step(544604400, -18000, 3600, "EDT", Ghost(g))
        .step(562140000, -18000, 0, "EST", Ghost(g))
        .step(576054000, -18000, 3600, "EDT", Ghost(g))
        .step(594194400, -18000, 0, "EST", Ghost(g))
        .step(607503600, -18000, 3600, "EDT", Ghost(g))
        .step(625644000, -18000, 0, "EST", Ghost(g))
        .step(638953200, -18000, 3600, "EDT", Ghost(g))
        .step(657093600, -18000, 0, "EST", Ghost(g))
        .step(671007600, -18000, 3600, "EDT", Ghost(g))
        .step(688543200, -18000, 0, "EST", Ghost(g))
        .step(702457200, -18000, 3600, "EDT", Ghost(g))
        .step(719992800, -18000, 0, "EST", Ghost(g))
        .step(733906800, -18000, 3600, "EDT", Ghost(g))
        .step(752047200, -18000, 0, "EST", Ghost(g))
        .step(765356400, -18000, 3600, "EDT", Ghost(g))
        .step(783496800, -18000, 0, "EST", Ghost(g))
        .step(796806000, -18000, 3600, "EDT", Ghost(g))
        .step(814946400, -18000, 0, "EST", Ghost(g))
        .step(828860400, -18000, 3600, "EDT", Ghost(g))
        .step(846396000, -18000, 0, "EST", Ghost(g))
        .step(860310000, -18000, 3600, "EDT", Ghost(g))
        .step(877845600, -18000, 0, "EST", Ghost(g))
        .step(891759600, -18000, 3600, "EDT", Ghost(g))
        .step(909295200, -18000, 0, "EST", Ghost(g))
        .step(923209200, -18000, 3600, "EDT", Ghost(g))
        .step(941349600, -18000, 0, "EST", Ghost(g))
        .step(954658800, -18000, 3600, "EDT", Ghost(g))
        .step(972799200, -18000, 0, "EST", Ghost(g))
        .step(986108400, -18000, 3600, "EDT", Ghost(g))
        .step(1004248800, -18000, 0, "EST", Ghost(g))
        .step(1018162800, -18000, 3600, "EDT", Ghost(g))
        .step(1035698400, -18000, 0, "EST", Ghost(g))
        .step(1049612400, -18000, 3600, "EDT", Ghost(g))
        .step(1067148000, -18000, 0, "EST", Ghost(g))
        .step(1081062000, -18000, 3600, "EDT", Ghost(g))
        .step(1099202400, -18000, 0, "EST", Ghost(g))
        .step(1112511600, -18000, 3600, "EDT", Ghost(g))
        .step(1130652000, -18000, 0, "EST", Ghost(g))
        .step(1143961200, -18000, 3600, "EDT", Ghost(g))
        .step(1162101600, -18000, 0, "EST", Ghost(g))
        .step(1173596400, -18000, 3600, "EDT", Ghost(g))
        .step(1194156000, -18000, 0, "EST", Ghost(g))
        .step(1205046000, -18000, 3600, "EDT", Ghost(g))
        .step(1225605600, -18000, 0, "EST", Ghost(g))
        .step(1236495600, -18000, 3600, "EDT", Ghost(g))
        .step(1257055200, -18000, 0, "EST", Ghost(g))
        .step(1268550000, -18000, 3600, "EDT", Ghost(g))
        .step(1289109600, -18000, 0, "EST", Ghost(g))
        .step(1299999600, -18000, 3600, "EDT", Ghost(g))
        .step(1320559200, -18000, 0, "EST", Ghost(g))
        .step(1331449200, -18000, 3600, "EDT", Ghost(g))
        .step(1352008800, -18000, 0, "EST", Ghost(g))
        .step(1362898800, -18000, 3600, "EDT", Ghost(g))
        .step(1383458400, -18000, 0, "EST", Ghost(g))
        .step(1394348400, -18000, 3600, "EDT", Ghost(g))
        .step(1414908000, -18000, 0, "EST", Ghost(g))
        .step(1425798000, -18000, 3600, "EDT", Ghost(g))
        .step(1446357600, -18000, 0, "EST", Ghost(g))
        .step(1457852400, -18000, 3600, "EDT", Ghost(g))
        .step(1478412000, -18000, 0, "EST", Ghost(g))
        .step(1489302000, -18000, 3600, "EDT", Ghost(g))
        .step(1509861600, -18000, 0, "EST", Ghost(g))
        .step(1520751600, -18000, 3600, "EDT", Ghost(g))
        .step(1541311200, -18000, 0, "EST", Ghost(g))
        .step(1552201200, -18000, 3600, "EDT", Ghost(g))
        .step(1572760800, -18000, 0, "EST", Ghost(g))
        .step(1583650800, -18000, 3600, "EDT", Ghost(g))
        .step(1604210400, -18000, 0, "EST", Ghost(g))
        .step(1615705200, -18000, 3600, "EDT", Ghost(g))
        .step(1636264800, -18000, 0, "EST", Ghost(g))
        .step(1647154800, -18000, 3600, "EDT", Ghost(g))
        .step(1667714400, -18000, 0, "EST", Ghost(g))
        .step(1678604400, -18000, 3600, "EDT", Ghost(g))
        .step(1699164000, -18000, 0, "EST", Ghost(g))
        .step(1710054000, -18000, 3600, "EDT", Ghost(g))
        .step(1730613600, -18000, 0, "EST", Ghost(g))
        .step(1741503600, -18000, 3600, "EDT", Ghost(g))
        .step(1762063200, -18000, 0, "EST", Ghost(g))
        .step(1772953200, -18000, 3600, "EDT", Ghost(g))
        .step(1793512800, -18000, 0, "EST", Ghost(g))
        .step(1805007600, -18000, 3600, "EDT", Ghost(g))
        .step(1825567200, -18000, 0, "EST", Ghost(g))
        .step(1836457200, -18000, 3600, "EDT", Ghost(g))
        .step(1857016800, -18000, 0, "EST", Ghost(g))
        .step(1867906800, -18000, 3600, "EDT", Ghost(g))
        .step(1888466400, -18000, 0, "EST", Ghost(g))
        .step(1899356400, -18000, 3600, "EDT", Ghost(g))
        .step(1919916000, -18000, 0, "EST", Ghost(g))
        .step(1930806000, -18000, 3600, "EDT", Ghost(g))
        .step(1951365600, -18000, 0, "EST", Ghost(g))
        .step(1962860400, -18000, 3600, "EDT", Ghost(g))
        .step(1983420000, -18000, 0, "EST", Ghost(g))
        .step(1994310000, -18000, 3600, "EDT", Ghost(g))
        .step(2014869600, -18000, 0, "EST", Ghost(g))
        .step(2025759600, -18000, 3600, "EDT", Ghost(g))
        .step(2046319200, -18000, 0, "EST", Ghost(g))
        .step(2057209200, -18000, 3600, "EDT", Ghost(g))
        .step(2077768800, -18000, 0, "EST", Ghost(g))
        .step(2088658800, -18000, 3600, "EDT", Ghost(g))
        .step(2109218400, -18000, 0, "EST", Ghost(g))
        .step(2120108400, -18000, 3600, "EDT", Ghost(g))
        .step(2140668000, -18000, 0, "EST", Ghost(g))
        .finish(Ghost(g))
}

/// The zone `Egypt`.
pub fn egypt() -> (r: Tz)
    ensures
        r.wf(),
        r.zone_name() == "Egypt"@,
        r.table() == tables::egypt(),
{
    let ghost g = tables::egypt_rows();
    FixedTimespanSet::begin("Egypt", 7509, 0, "LMT", Ghost(g))
        .step(-2185409109, 7200, 0, "EET", Ghost(g))
        .step(-929844000, 7200, 3600, "EEST", Ghost(g))
        .step(-923108400, 7200, 0, "EET", Ghost(g))
        .step(-906170400, 7200, 3600, "EEST", Ghost(g))
        .step(-892868400, 7200, 0, "EET", Ghost(g))
        .step(-875844000, 7200, 3600, "EEST", Ghost(g))
        .step(-857790000, 7200, 0, "EET", Ghost(g))
        .step(-844308000, 7200, 3600, "EEST", Ghost(g))
        .step(-825822000, 7200, 0, "EET", Ghost(g))
        .step(-812685600, 7200, 3600, "EEST", Ghost(g))
        .step(-794199600, 7200, 0, "EET", Ghost(g))
        .step(-779853600, 7200, 3600, "EEST", Ghost(g))
        .step(-762663600, 7200, 0, "EET", Ghost(g))
        .step(-399088800, 7200, 3600, "EEST", Ghost(g))
        .step(-386650800, 7200, 0, "EET", Ghost(g))
        .step(-368330400, 7200, 3600, "EEST", Ghost(g))
        .step(-355114800, 7200, 0, "EET", Ghost(g))
        .step(-336790800, 7200, 3600, "EEST", Ghost(g))
        .step(-323654400, 7200, 0, "EET", Ghost(g))
        .step(-305168400, 7200, 3600, "EEST", Ghost(g))
        .step(-292032000, 7200, 0, "EET", Ghost(g))
        .step(-273632400, 7200, 3600, "EEST", Ghost(g))
        .step(-260496000, 7200, 0, "EET", Ghost(g))
        .step(-242096400, 7200, 3600, "EEST", Ghost(g))
        .step(-228960000, 7200, 0, "EET", Ghost(g))
        .step(-210560400, 7200, 3600, "EEST", Ghost(g))
        .step(-197424000, 7200, 0, "EET", Ghost(g))
        .step(-178938000, 7200, 3600, "EEST", Ghost(g))
        .step(-165801600, 7200, 0, "EET", Ghost(g))
        .step(-147402000, 7200, 3600, "EEST", Ghost(g))
        .step(-134265600, 7200, 0, "EET", Ghost(g))
        .step(-115866000, 7200, 3600, "EEST", Ghost(g))
        .step(-102643200, 7200, 0, "EET", Ghost(g))
        .step(-84330000, 7200, 3600, "EEST", Ghost(g))
        .step(-71107200, 7200, 0, "EET", Ghost(g))
        .step(-52707600, 7200, 3600, "EEST", Ghost(g))
        .step(-39484800, 7200, 0, "EET", Ghost(g))
        .step(-21171600, 7200, 3600, "EEST", Ghost(g))
        .step(-7948800, 7200, 0, "EET", Ghost(g))
        .step(10364400, 7200, 3600, "EEST", Ghost(g))
        .step(23587200, 7200, 0, "EET", Ghost(g))
        .step(41900400, 7200, 3600, "EEST", Ghost(g))
        .step(55123200, 7200, 0, "EET", Ghost(g))
        .step(73522800, 7200, 3600, "EEST", Ghost(g))
        .step(86745600, 7200, 0, "EET", Ghost(g))
        .step(105058800, 7200, 3600, "EEST", Ghost(g))
        .step(118281600, 7200, 0, "EET", Ghost(g))
        .step(136594800, 7200, 3600, "EEST", Ghost(g))
        .step(149817600, 7200, 0, "EET", Ghost(g))
        .step(168130800, 7200, 3600, "EEST", Ghost(g))
        .step(181353600, 7200, 0, "EET", Ghost(g))
        .step(199753200, 7200, 3600, "EEST", Ghost(g))
        .step(212976000, 7200, 0, "EET", Ghost(g))
        .step(231289200, 7200, 3600, "EEST", Ghost(g))
        .step(244512000, 7200, 0, "EET", Ghost(g))
        .step(262825200, 7200, 3600, "EEST", Ghost(g))
        .step(276048000, 7200, 0, "EET", Ghost(g))
        .step(294361200, 7200, 3600, "EEST", Ghost(g))
        .step(307584000, 7200, 0, "EET", Ghost(g))
        .step(325983600, 7200, 3600, "EEST", Ghost(g))
        .step(339206400, 7200, 0, "EET", Ghost(g))
        .step(357519600, 7200, 3600, "EEST", Ghost(g))
        .step(370742400, 7200, 0, "EET", Ghost(g))
        .step(396399600, 7200, 3600, "EEST", Ghost(g))
        .step(402278400, 7200, 0, "EET", Ghost(g))
        .step(426812400, 7200, 3600, "EEST", Ghost(g))
        .step(433814400, 7200, 0, "EET", Ghost(g))
        .step(452214000, 7200, 3600, "EEST", Ghost(g))
        .step(465436800, 7200, 0, "EET", Ghost(g))
        .step(483750000, 7200, 3600, "EEST", Ghost(g))
        .step(496972800, 7200, 0, "EET", Ghost(g))
        .step(515286000, 7200, 3600, "EEST", Ghost(g))
        .step(528508800, 7200, 0, "EET", Ghost(g))
        .step(546822000, 7200, 3600, "EEST", Ghost(g))
        .step(560044800, 7200, 0, "EET", Ghost(g))
        .step(578444400, 7200, 3600, "EEST", Ghost(g))
        .step(591667200, 7200, 0, "EET", Ghost(g))
        .step(610412400, 7200, 3600, "EEST", Ghost(g))
        .step(623203200, 7200, 0, "EET", Ghost(g))
        .step(641516400, 7200, 3600, "EEST", Ghost(g))
        .step(654739200, 7200, 0, "EET", Ghost(g))
        .step(673052400, 7200, 3600, "EEST", Ghost(g))
        .step(686275200, 7200, 0, "EET", Ghost(g))
        .step(704674800, 7200, 3600, "EEST", Ghost(g))
        .step(717897600, 7200, 0, "EET", Ghost(g))
        .step(736210800, 7200, 3600, "EEST", Ghost(g))
        .step(749433600, 7200, 0, "EET", Ghost(g))
        .step(767746800, 7200, 3600, "EEST", Ghost(g))
        .step(780969600, 7200, 0, "EET", Ghost(g))
        .step(799020000, 7200, 3600, "EEST", Ghost(g))
        .step(812322000, 7200, 0, "EET", Ghost(g))
        .step(830469600, 7200, 3600, "EEST", Ghost(g))
        .step(843771600, 7200, 0, "EET", Ghost(g))
        .step(861919200, 7200, 3600, "EEST", Ghost(g))
        .step(875221200, 7200, 0, "EET", Ghost(g))
        .step(893368800, 7200, 3600, "EEST", Ghost(g))
        .step(906670800, 7200, 0, "EET", Ghost(g))
        .step(925423200, 7200, 3600, "EEST", Ghost(g))
        .step(938725200, 7200, 0, "EET", Ghost(g))
        .step(956872800, 7200, 3600, "EEST", Ghost(g))
        .step(970174800, 7200, 0, "EET", Ghost(g))
        .step(988322400, 7200, 3600, "EEST", Ghost(g))
        .step(1001624400, 7200, 0, "EET", Ghost(g))
        .step(1019772000, 7200, 3600, "EEST", Ghost(g))
        .step(1033074000, 7200, 0, "EET", Ghost(g))
        .step(1051221600, 7200, 3600, "EEST", Ghost(g))
        .step(1064523600, 7200, 0, "EET", Ghost(g))
        .step(1083276000, 7200, 3600, "EEST", Ghost(g))
        .step(1096578000, 7200, 0, "EET", Ghost(g))
        .step(1114725600, 7200, 3600, "EEST", Ghost(g))
        .step(1128027600, 7200, 0, "EET", Ghost(g))
        .step(1146175200, 7200, 3600, "EEST", Ghost(g))
        .step(1158872400, 7200, 0, "EET", Ghost(g))
        .step(1177624800, 7200, 3600, "EEST", Ghost(g))
        .step(1189112400, 7200, 0, "EET", Ghost(g))
        .step(1209074400, 7200, 3600, "EEST", Ghost(g))
        .step(1219957200, 7200, 0, "EET", Ghost(g))
        .step(1240524000, 7200, 3600, "EEST", Ghost(g))
        .step(1250802000, 7200, 0, "EET", Ghost(g))
        .step(1272578400, 7200, 3600, "EEST", Ghost(g))
        .step(1281474000, 7200, 0, "EET", Ghost(g))
        .step(1284069600, 7200, 3600, "EEST", Ghost(g))
        .step(1285880400, 7200, 0, "EET", Ghost(g))
        .step(1400191200, 7200, 3600, "EEST", Ghost(g))
        .step(1403816400, 7200, 0, "EET", Ghost(g))
        .step(1406844000, 7200, 3600, "EEST", Ghost(g))
        .step(1411678800, 7200, 0, "EET", Ghost(g))
        .step(1682632800, 7200, 3600, "EEST", Ghost(g))
        .step(1698354000, 7200, 0, "EET", Ghost(g))
        .step(1714082400, 7200, 3600, "EEST", Ghost(g))
        .step(1730408400, 7200, 0, "EET", Ghost(g))
        .step(1745532000, 7200, 3600, "EEST", Ghost(g))
        .step(1761858000, 7200, 0, "EET", Ghost(g))
        .step(1776981600, 7200, 3600, "EEST", Ghost(g))
        .step(1793307600, 7200, 0, "EET", Ghost(g))
        .step(1809036000, 7200, 3600, "EEST", Ghost(g))
        .step(1824757200, 7200, 0, "EET", Ghost(g))
        .step(1840485600, 7200, 3600, "EEST", Ghost(g))
        .step(1856206800, 7200, 0, "EET", Ghost(g))
        .step(1871935200, 7200, 3600, "EEST", Ghost(g))
        .step(1887656400, 7200, 0, "EET", Ghost(g))
        .step(1903384800, 7200, 3600, "EEST", Ghost(g))
        .step(1919710800, 7200, 0, "EET", Ghost(g))
        .step(1934834400, 7200, 3600, "EEST", Ghost(g))
        .step(1951160400, 7200, 0, "EET", Ghost(g))
        .step(1966888800, 7200, 3600, "EEST", Ghost(g))
        .step(1982610000, 7200, 0, "EET", Ghost(g))
        .step(1998338400, 7200, 3600, "EEST", Ghost(g))
        .step(2014059600, 7200, 0, "EET", Ghost(g))
        .step(2029788000, 7200, 3600, "EEST", Ghost(g))
        .step(2045509200, 7200, 0, "EET", Ghost(g))
        .step(2061237600, 7200, 3600, "EEST", Ghost(g))
        .step(2076958800, 7200, 0, "EET", Ghost(g))
        .step(2092687200, 7200, 3600, "EEST", Ghost(g))
        .step(2109013200, 7200, 0, "EET", Ghost(g))
        .step(2124136800, 7200, 3600, "EEST", Ghost(g))
        .step(2140462800, 7200, 0, "EET", Ghost(g))
        .finish(Ghost(g))
}

/// The zone `Eire`.
pub fn eire() -> (r: Tz)
    ensures
        r.wf(),
        r.zone_name() == "Eire"@,
        r.table() == tables::eire(),
{
    let ghost g = tables::eire_rows();
    FixedTimespanSet::begin("Eire", -1521, 0, "LMT", Ghost(g))
        .step(-2821649679, -1521, 0, "DMT", Ghost(g))
        .step(-1691962479, -1521, 3600, "IST", Ghost(g))
        .step(-1680471279, 0, 0, "GMT", Ghost(g))
        .step(-1664143200, 0, 3600, "BST", Ghost(g))
        .step(-1650146400, 0, 0, "GMT", Ghost(g))
        .step(-1633903200, 0, 3600, "BST", Ghost(g))
        .step(-1617487200, 0, 0, "GMT", Ghost(g))
        .step(-1601848800, 0, 3600, "BST", Ghost(g))
        .step(-1586037600, 0, 0, "GMT", Ghost(g))
        .step(-1570399200, 0, 3600, "BST", Ghost(g))
        .step(-1552168800, 0, 0, "GMT", Ghost(g))
        .step(-1538344800, 0, 3600, "BST", Ghost(g))
        .step(-1522533600, 0, 0, "GMT", Ghost(g))
        .step(-1507500000, 0, 3600, "IST", Ghost(g))
        .step(-1490565600, 0, 0, "GMT", Ghost(g))
        .step(-1473631200, 0, 3600, "IST", Ghost(g))
        .step(-1460930400, 0, 0, "GMT", Ghost(g))
        .step(-1442786400, 0, 3600, "IST", Ghost(g))
        .step(-1428876000, 0, 0, "GMT", Ghost(g))
        .step(-1410732000, 0, 3600, "IST", Ghost(g))
        .step(-1396216800, 0, 0, "GMT", Ghost(g))
        .step(-1379282400, 0, 3600, "IST", Ghost(g))
        .step(-1364767200, 0, 0, "GMT", Ghost(g))
        .step(-1348437600, 0, 3600, "IST", Ghost(g))
        .step(-1333317600, 0, 0, "GMT", Ghost(g))
        .step(-1315778400, 0, 3600, "IST", Ghost(g))
        .step(-1301263200, 0, 0, "GMT", Ghost(g))
        .step(-1284328800, 0, 3600, "IST", Ghost(g))
        .step(-1269813600, 0, 0, "GMT", Ghost(g))
        .step(-1253484000, 0, 3600, "IST", Ghost(g))
        .step(-1238364000, 0, 0, "GMT", Ghost(g))
        .step(-1221429600, 0, 3600, "IST", Ghost(g))
        .step(-1206914400, 0, 0, "GMT", Ghost(g))
        .step(-1189980000, 0, 3600, "IST", Ghost(g))
        .step(-1175464800, 0, 0, "GMT", Ghost(g))
        .step(-1159135200, 0, 3600, "IST", Ghost(g))
        .step(-1143410400, 0, 0, "GMT", Ghost(g))
        .step(-1126476000, 0, 3600, "IST", Ghost(g))
        .step(-1111960800, 0, 0, "GMT", Ghost(g))
        .step(-1095631200, 0, 3600, "IST", Ghost(g))
        .step(-1080511200, 0, 0, "GMT", Ghost(g))
        .step(-1063576800, 0, 3600, "IST", Ghost(g))
        .step(-1049061600, 0, 0, "GMT", Ghost(g))
        .step(-1032127200, 0, 3600, "IST", Ghost(g))
        .step(-1017612000, 0, 0, "GMT", Ghost(g))
        .step(-1001282400, 0, 3600, "IST", Ghost(g))
        .step(-986162400, 0, 0, "GMT", Ghost(g))
        .step(-969228000, 0, 3600, "IST", Ghost(g))
        .step(-950479200, 0, 0, "GMT", Ghost(g))
        .step(-942012000, 0, 3600, "IST", Ghost(g))
        .step(-733356000, 0, 0, "GMT", Ghost(g))
        .step(-719445600, 0, 3600, "IST", Ghost(g))
        .step(-699487200, 0, 0, "GMT", Ghost(g))
        .step(-684972000, 0, 3600, "IST", Ghost(g))
        .step(-668037600, 0, 0, "GMT", Ghost(g))
        .step(-654732000, 0, 3600, "IST", Ghost(g))
        .step(-636588000, 0, 0, "GMT", Ghost(g))
        .step(-622072800, 0, 3600, "IST", Ghost(g))
        .step(-605743200, 0, 0, "GMT", Ghost(g))
        .step(-590623200, 0, 3600, "IST", Ghost(g))
        .step(-574293600, 0, 0, "GMT", Ghost(g))
        .step(-558568800, 0, 3600, "IST", Ghost(g))
        .step(-542239200, 0, 0, "GMT", Ghost(g))
        .step(-527119200, 0, 3600, "IST", Ghost(g))
        .step(-512604000, 0, 0, "GMT", Ghost(g))
        .step(-496274400, 0, 3600, "IST", Ghost(g))
        .step(-481154400, 0, 0, "GMT", Ghost(g))
        .step(-464220000, 0, 3600, "IST", Ghost(g))
        .step(-449704800, 0, 0, "GMT", Ghost(g))
        .step(-432165600, 0, 3600, "IST", Ghost(g))
        .step(-417650400, 0, 0, "GMT", Ghost(g))
        .step(-401320800, 0, 3600, "IST", Ghost(g))
        .step(-386200800, 0, 0, "GMT", Ghost(g))
        .step(-369266400, 0, 3600, "IST", Ghost(g))
        .step(-354751200, 0, 0, "GMT", Ghost(g))
        .step(-337816800, 0, 3600, "IST", Ghost(g))
        .step(-323301600, 0, 0, "GMT", Ghost(g))
        .step(-306972000, 0, 3600, "IST", Ghost(g))
        .step(-291852000, 0, 0, "GMT", Ghost(g))
        .step(-276732000, 0, 3600, "IST", Ghost(g))
        .step(-257983200, 0, 0, "GMT", Ghost(g))
        .step(-245282400, 0, 3600, "IST", Ghost(g))
        .step(-226533600, 0, 0, "GMT", Ghost(g))
        .step(-213228000, 0, 3600, "IST", Ghost(g))
        .step(-195084000, 0, 0, "GMT", Ghost(g))
        .step(-182383200, 0, 3600, "IST", Ghost(g))
        .step(-163634400, 0, 0, "GMT", Ghost(g))
        .step(-150933600, 0, 3600, "IST", Ghost(g))
        .step(-132184800, 0, 0, "GMT", Ghost(g))
        .step(-119484000, 0, 3600, "IST", Ghost(g))
        .step(-100735200, 0, 0, "GMT", Ghost(g))
        .step(-88034400, 0, 3600, "IST", Ghost(g))
        .step(-68680800, 0, 0, "GMT", Ghost(g))
        .step(-59004000, 0, 3600, "IST", Ghost(g))
        .step(-37242000, 3600, 0, "IST", Ghost(g))
        .step(57722400, -3600, 3600, "GMT", Ghost(g))
        .step(69818400, 3600, 0, "IST", Ghost(g))
        .step(89172000, -3600, 3600, "GMT", Ghost(g))
        .step(101268000, 3600, 0, "IST", Ghost(g))
        .step(120621600, -3600, 3600, "GMT", Ghost(g))
        .step(132717600, 3600, 0, "IST", Ghost(g))
        .step(152071200, -3600, 3600, "GMT", Ghost(g))
        .step(164167200, 3600, 0, "IST", Ghost(g))
        .step(183520800, -3600, 3600, "GMT", Ghost(g))
        .step(196221600, 3600, 0, "IST", Ghost(g))
        .step(214970400, -3600, 3600, "GMT", Ghost(g))
        .step(227671200, 3600, 0, "IST", Ghost(g))
        .step(246420000, -3600, 3600, "GMT", Ghost(g))
        .step(259120800, 3600, 0, "IST", Ghost(g))
        .step(278474400, -3600, 3600, "GMT", Ghost(g))
        .step(290570400, 3600, 0, "IST", Ghost(g))
        .step(309924000, -3600, 3600, "GMT", Ghost(g))
        .step(322020000, 3600, 0, "IST", Ghost(g))
        .step(341373600, -3600, 3600, "GMT", Ghost(g))
        .step(354675600, 3600, 0, "IST", Ghost(g))
        .step(372819600, -3600, 3600, "GMT", Ghost(g))
        .step(386125200, 3600, 0, "IST", Ghost(g))
        .step(404269200, -3600, 3600, "GMT", Ghost(g))
        .step(417574800, 3600, 0, "IST", Ghost(g))
        .step(435718800, -3600, 3600, "GMT", Ghost(g))
        .step(449024400, 3600, 0, "IST", Ghost(g))
        .step(467773200, -3600, 3600, "GMT", Ghost(g))
        .step(481078800, 3600, 0, "IST", Ghost(g))
        .step(499222800, -3600, 3600, "GMT", Ghost(g))
        .step(512528400, 3600, 0, "IST", Ghost(g))
        .step(530672400, -3600, 3600, "GMT", Ghost(g))
        .step(543978000, 3600, 0, "IST", Ghost(g))
        .step(562122000, -3600, 3600, "GMT", Ghost(g))
        .step(575427600, 3600, 0, "IST", Ghost(g))
        .step(593571600, -3600, 3600, "GMT", Ghost(g))
        .step(606877200, 3600, 0, "IST", Ghost(g))
        .step(625626000, -3600, 3600, "GMT", Ghost(g))
        .step(638326800, 3600, 0, "IST", Ghost(g))
        .step(657075600, -3600, 3600, "GMT", Ghost(g))
        .step(670381200, 3600, 0, "IST", Ghost(g))
        .step(688525200, -3600, 3600, "GMT", Ghost(g))
        .step(701830800, 3600, 0, "IST", Ghost(g))
        .step(719974800, -3600, 3600, "GMT", Ghost(g))
        .step(733280400, 3600, 0, "IST", Ghost(g))
        .step(751424400, -3600, 3600, "GMT", Ghost(g))
        .step(764730000, 3600, 0, "IST", Ghost(g))
        .step(782874000, -3600, 3600, "GMT", Ghost(g))
        .step(796179600, 3600, 0, "IST", Ghost(g))
        .step(814323600, -3600, 3600, "GMT", Ghost(g))
        .step(828234000, 3600, 0, "IST", Ghost(g))
        .step(846378000, -3600, 3600, "GMT", Ghost(g))
        .step(859683600, 3600, 0, "IST", Ghost(g))
        .step(877827600, -3600, 3600, "GMT", Ghost(g))
        .step(891133200, 3600, 0, "IST", Ghost(g))
        .step(909277200, -3600, 3600, "GMT", Ghost(g))
        .step(922582800, 3600, 0, "IST", Ghost(g))
        .step(941331600, -3600, 3600, "GMT", Ghost(g))
        .step(954032400, 3600, 0, "IST", Ghost(g))
        .step(972781200, -3600, 3600, "GMT", Ghost(g))
        .step(985482000, 3600, 0, "IST", Ghost(g))
        .step(1004230800, -3600, 3600, "GMT", Ghost(g))
        .step(1017536400, 3600, 0, "IST", Ghost(g))
        .step(1035680400, -3600, 3600, "GMT", Ghost(g))
        .step(1048986000, 3600, 0, "IST", Ghost(g))
        .step(1067130000, -3600, 3600, "GMT", Ghost(g))
        .step(1080435600, 3600, 0, "IST", Ghost(g))
        .step(1099184400, -3600, 3600, "GMT", Ghost(g))
        .step(1111885200, 3600, 0, "IST", Ghost(g))
        .step(1130634000, -3600, 3600, "GMT", Ghost(g))
        .step(1143334800, 3600, 0, "IST", Ghost(g))
        .step(1162083600, -3600, 3600, "GMT", Ghost(g))
        .step(1174784400, 3600, 0, "IST", Ghost(g))
        .step(1193533200, -3600, 3600, "GMT", Ghost(g))
        .step(1206838800, 3600, 0, "IST", Ghost(g))
        .step(1224982800, -3600, 3600, "GMT", Ghost(g))
        .step(1238288400, 3600, 0, "IST", Ghost(g))
        .step(1256432400, -3600, 3600, "GMT", Ghost(g))
        .step(1269738000, 3600, 0, "IST", Ghost(g))
        .step(1288486800, -3600, 3600, "GMT", Ghost(g))
        .step(1301187600, 3600, 0, "IST", Ghost(g))
        .step(1319936400, -3600, 3600, "GMT", Ghost(g))
        .step(1332637200, 3600, 0, "IST", Ghost(g))
        .step(1351386000, -3600, 3600, "GMT", Ghost(g))
        .step(1364691600, 3600, 0, "IST", Ghost(g))
        .step(1382835600, -3600, 3600, "GMT", Ghost(g))
        .step(1396141200, 3600, 0, "IST", Ghost(g))
        .step(1414285200, -3600, 3600, "GMT", Ghost(g))
        .step(1427590800, 3600, 0, "IST", Ghost(g))
        .step(1445734800, -3600, 3600, "GMT", Ghost(g))
        .step(1459040400, 3600, 0, "IST", Ghost(g))
        .step(1477789200, -3600, 3600, "GMT", Ghost(g))
        .step(1490490000, 3600, 0, "IST", Ghost(g))
        .step(1509238800, -3600, 3600, "GMT", Ghost(g))
        .step(1521939600, 3600, 0, "IST", Ghost(g))
        .step(1540688400, -3600, 3600, "GMT", Ghost(g))
        .step(1553994000, 3600, 0, "IST", Ghost(g))
        .step(1572138000, -3600, 3600, "GMT", Ghost(g))
        .step(1585443600, 3600, 0, "IST", Ghost(g))
        .step(1603587600, -3600, 3600, "GMT", Ghost(g))
        .step(1616893200, 3600, 0, "IST", Ghost(g))
        .step(1635642000, -3600, 3600, "GMT", Ghost(g))
        .step(1648342800, 3600, 0, "IST", Ghost(g))
        .step(1667091600, -3600, 3600, "GMT", Ghost(g))
        .step(1679792400, 3600, 0, "IST", Ghost(g))
        .step(1698541200, -3600, 3600, "GMT", Ghost(g))
        .step(1711846800, 3600, 0, "IST", Ghost(g))
        .step(1729990800, -3600, 3600, "GMT", Ghost(g))
        .step(1743296400, 3600, 0, "IST", Ghost(g))
        .step(1761440400, -3600, 3600, "GMT", Ghost(g))
        .step(1774746000, 3600, 0, "IST", Ghost(g))
        .step(1792890000, -3600, 3600, "GMT", Ghost(g))
        .step(1806195600, 3600, 0, "IST", Ghost(g))
        .step(1824944400, -3600, 3600, "GMT", Ghost(g))
        .step(1837645200, 3600, 0, "IST", Ghost(g))
        .step(1856394000, -3600, 3600, "GMT", Ghost(g))
        .step(1869094800, 3600, 0, "IST", Ghost(g))
        .step(1887843600, -3600, 3600, "GMT", Ghost(g))
        .step(1901149200, 3600, 0, "IST", Ghost(g))
        .step(1919293200, -3600, 3600, "GMT", Ghost(g))
        .step(1932598800, 3600, 0, "IST", Ghost(g))
        .step(1950742800, -3600, 3600, "GMT", Ghost(g))
        .step(1964048400, 3600, 0, "IST", Ghost(g))
        .step(1982797200, -3600, 3600, "GMT", Ghost(g))
        .step(1995498000, 3600, 0, "IST", Ghost(g))
        .step(2014246800, -3600, 3600, "GMT", Ghost(g))
        .step(2026947600, 3600, 0, "IST", Ghost(g))
        .step(2045696400, -3600, 3600, "GMT", Ghost(g))
        .step(2058397200, 3600, 0, "IST", Ghost(g))
        .step(2077146000, -3600, 3600, "GMT", Ghost(g))
        .step(2090451600, 3600, 0, "IST", Ghost(g))
        .step(2108595600, -3600, 3600, "GMT", Ghost(g))
        .step(2121901200, 3600, 0, "IST", Ghost(g))
        .step(2140045200, -3600, 3600, "GMT", Ghost(g))
        .finish(Ghost(g))
}

/// The zone `GB`.
pub fn gb() -> (r: Tz)
    ensures
        r.wf(),
        r.zone_name() == "GB"@,
        r.table() == tables::gb(),
{
    let ghost g = tables::gb_rows();
    FixedTimespanSet::begin("GB", -75, 0, "LMT", Ghost(g))
        .step(-3852662325, 0, 0, "GMT", Ghost(g))
        .step(-1691964000, 0, 3600, "BST", Ghost(g))
        .step(-1680472800, 0, 0, "GMT", Ghost(g))
        .step(-1664143200, 0, 3600, "BST", Ghost(g))
        .step(-1650146400, 0, 0, "GMT", Ghost(g))
        .step(-1633903200, 0, 3600, "BST", Ghost(g))
        .step(-1617487200, 0, 0, "GMT", Ghost(g))
        .step(-1601848800, 0, 3600, "BST", Ghost(g))
        .step(-1586037600, 0, 0, "GMT", Ghost(g))
        .step(-1570399200, 0, 3600, "BST", Ghost(g))
        .step(-1552168800, 0, 0, "GMT", Ghost(g))
        .step(-1538344800, 0, 3600, "BST", Ghost(g))
        .step(-1522533600, 0, 0, "GMT", Ghost(g))
        .step(-1507500000, 0, 3600, "BST", Ghost(g))
        .step(-1490565600, 0, 0, "GMT", Ghost(g))
        .step(-1473631200, 0, 3600, "BST", Ghost(g))
        .step(-1460930400, 0, 0, "GMT", Ghost(g))
        .step(-1442786400, 0, 3600, "BST", Ghost(g))
        .step(-1428876000, 0, 0, "GMT", Ghost(g))
        .step(-1410732000, 0, 3600, "BST", Ghost(g))
        .step(-1396216800, 0, 0, "GMT", Ghost(g))
        .step(-1379282400, 0, 3600, "BST", Ghost(g))
        .step(-1364767200, 0, 0, "GMT", Ghost(g))
        .step(-1348437600, 0, 3600, "BST", Ghost(g))
        .step(-1333317600, 0, 0, "GMT", Ghost(g))
        .step(-1315778400, 0, 3600, "BST", Ghost(g))
        .step(-1301263200, 0, 0, "GMT", Ghost(g))
        .step(-1284328800, 0, 3600, "BST", Ghost(g))
        .step(-1269813600, 0, 0, "GMT", Ghost(g))
        .step(-1253484000, 0, 3600, "BST", Ghost(g))
        .step(-1238364000, 0, 0, "GMT", Ghost(g))
        .step(-1221429600, 0, 3600, "BST", Ghost(g))
        .step(-1206914400, 0, 0, "GMT", Ghost(g))
        .step(-1189980000, 0, 3600, "BST", Ghost(g))
        .step(-1175464800, 0, 0, "GMT", Ghost(g))
        .step(-1159135200, 0, 3600, "BST", Ghost(g))
        .step(-1143410400, 0, 0, "GMT", Ghost(g))
        .step(-1126476000, 0, 3600, "BST", Ghost(g))
        .step(-1111960800, 0, 0, "GMT", Ghost(g))
        .step(-1095631200, 0, 3600, "BST", Ghost(g))
        .step(-1080511200, 0, 0, "GMT", Ghost(g))
        .step(-1063576800, 0, 3600, "BST", Ghost(g))
        .step(-1049061600, 0, 0, "GMT", Ghost(g))
        .step(-1032127200, 0, 3600, "BST", Ghost(g))
        .step(-1017612000, 0, 0, "GMT", Ghost(g))
        .step(-1001282400, 0, 3600, "BST", Ghost(g))
        .step(-986162400, 0, 0, "GMT", Ghost(g))
        .step(-969228000, 0, 3600, "BST", Ghost(g))
        .step(-950479200, 0, 0, "GMT", Ghost(g))
        .step(-942012000, 0, 3600, "BST", Ghost(g))
        .step(-904518000, 0, 7200, "BDST", Ghost(g))
        .step(-896050800, 0, 3600, "BST", Ghost(g))
        .step(-875487600, 0, 7200, "BDST", Ghost(g))
        .step(-864601200, 0, 3600, "BST", Ghost(g))
        .step(-844038000, 0, 7200, "BDST", Ghost(g))
        .step(-832546800, 0, 3600, "BST", Ghost(g))
        .step(-812588400, 0, 7200, "BDST", Ghost(g))
        .step(-798073200, 0, 3600, "BST", Ghost(g))
        .step(-781052400, 0, 7200, "BDST", Ghost(g))
        .step(-772066800, 0, 3600, "BST", Ghost(g))
        .step(-764805600, 0, 0, "GMT", Ghost(g))
        .step(-748476000, 0, 3600, "BST", Ghost(g))
        .step(-733356000, 0, 0, "GMT", Ghost(g))
        .step(-719445600, 0, 3600, "BST", Ghost(g))
        .step(-717030000, 0, 7200, "BDST", Ghost(g))
        .step(-706748400, 0, 3600, "BST", Ghost(g))
        .step(-699487200, 0, 0, "GMT", Ghost(g))
        .step(-687996000, 0, 3600, "BST", Ghost(g))
        .step(-668037600, 0, 0, "GMT", Ghost(g))
        .step(-654732000, 0, 3600, "BST", Ghost(g))
        .step(-636588000, 0, 0, "GMT", Ghost(g))
        .step(-622072800, 0, 3600, "BST", Ghost(g))
        .step(-605743200, 0, 0, "GMT", Ghost(g))
        .step(-590623200, 0, 3600, "BST", Ghost(g))
        .step(-574293600, 0, 0, "GMT", Ghost(g))
        .step(-558568800, 0, 3600, "BST", Ghost(g))
        .step(-542239200, 0, 0, "GMT", Ghost(g))
        .step(-527119200, 0, 3600, "BST", Ghost(g))
        .step(-512604000, 0, 0, "GMT", Ghost(g))
        .step(-496274400, 0, 3600, "BST", Ghost(g))
        .step(-481154400, 0, 0, "GMT", Ghost(g))
        .step(-464220000, 0, 3600, "BST", Ghost(g))
        .step(-449704800, 0, 0, "GMT", Ghost(g))
        .step(-432165600, 0, 3600, "BST", Ghost(g))
        .step(-417650400, 0, 0, "GMT", Ghost(g))
        .step(-401320800, 0, 3600, "BST", Ghost(g))
        .step(-386200800, 0, 0, "GMT", Ghost(g))
        .step(-369266400, 0, 3600, "BST", Ghost(g))
        .step(-354751200, 0, 0, "GMT", Ghost(g))
        .step(-337816800, 0, 3600, "BST", Ghost(g))
        .step(-323301600, 0, 0, "GMT", Ghost(g))
        .step(-306972000, 0, 3600, "BST", Ghost(g))
        .step(-291852000, 0, 0, "GMT", Ghost(g))
        .step(-276732000, 0, 3600, "BST", Ghost(g))
        .step(-257983200, 0, 0, "GMT", Ghost(g))
        .step(-245282400, 0, 3600, "BST", Ghost(g))
        .step(-226533600, 0, 0, "GMT", Ghost(g))
        .step(-213228000, 0, 3600, "BST", Ghost(g))
        .step(-195084000, 0, 0, "GMT", Ghost(g))
        .step(-182383200, 0, 3600, "BST", Ghost(g))
        .step(-163634400, 0, 0, "GMT", Ghost(g))
        .step(-150933600, 0, 3600, "BST", Ghost(g))
        .step(-132184800, 0, 0, "GMT", Ghost(g))
        .step(-119484000, 0, 3600, "BST", Ghost(g))
        .step(-100735200, 0, 0, "GMT", Ghost(g))
        .step(-88034400, 0, 3600, "BST", Ghost(g))
        .step(-68680800, 0, 0, "GMT", Ghost(g))
        .step(-59004000, 0, 3600, "BST", Ghost(g))
        .step(-37242000, 3600, 0, "BST", Ghost(g))
        .step(57722400, 0, 0, "GMT", Ghost(g))
        .step(69818400, 0, 3600, "BST", Ghost(g))
        .step(89172000, 0, 0, "GMT", Ghost(g))
        .step(101268000, 0, 3600, "BST", Ghost(g))
        .step(120621600, 0, 0, "GMT", Ghost(g))
        .step(132717600, 0, 3600, "BST", Ghost(g))
        .step(152071200, 0, 0, "GMT", Ghost(g))
        .step(164167200, 0, 3600, "BST", Ghost(g))
        .step(183520800, 0, 0, "GMT", Ghost(g))
        .step(196221600, 0, 3600, "BST", Ghost(g))
        .step(214970400, 0, 0, "GMT", Ghost(g))
        .step(227671200, 0, 3600, "BST", Ghost(g))
        .step(246420000, 0, 0, "GMT", Ghost(g))
        .step(259120800, 0, 3600, "BST", Ghost(g))
        .step(278474400, 0, 0, "GMT", Ghost(g))
        .step(290570400, 0, 3600, "BST", Ghost(g))
        .step(309924000, 0, 0, "GMT", Ghost(g))
        .step(322020000, 0, 3600, "BST", Ghost(g))
        .step(341373600, 0, 0, "GMT", Ghost(g))
        .step(354675600, 0, 3600, "BST", Ghost(g))
        .step(372819600, 0, 0, "GMT", Ghost(g))
        .step(386125200, 0, 3600, "BST", Ghost(g))
        .step(404269200, 0, 0, "GMT", Ghost(g))
        .step(417574800, 0, 3600, "BST", Ghost(g))
        .step(435718800, 0, 0, "GMT", Ghost(g))
        .step(449024400, 0, 3600, "BST", Ghost(g))
        .step(467773200, 0, 0, "GMT", Ghost(g))
        .step(481078800, 0, 3600, "BST", Ghost(g))
        .step(499222800, 0, 0, "GMT", Ghost(g))
        .step(512528400, 0, 3600, "BST", Ghost(g))
        .step(530672400, 0, 0, "GMT", Ghost(g))
        .step(543978000, 0, 3600, "BST", Ghost(g))
        .step(562122000, 0, 0, "GMT", Ghost(g))
        .step(575427600, 0, 3600, "BST", Ghost(g))
        .step(593571600, 0, 0, "GMT", Ghost(g))
        .step(606877200, 0, 3600, "BST", Ghost(g))
        .step(625626000, 0, 0, "GMT", Ghost(g))
        .step(638326800, 0, 3600, "BST", Ghost(g))
        .step(657075600, 0, 0, "GMT", Ghost(g))
        .step(670381200, 0, 3600, "BST", Ghost(g))
        .step(688525200, 0, 0, "GMT", Ghost(g))
        .step(701830800, 0, 3600, "BST", Ghost(g))
        .step(719974800, 0, 0, "GMT", Ghost(g))
        .step(733280400, 0, 3600, "BST", Ghost(g))
        .step(751424400, 0, 0, "GMT", Ghost(g))
        .step(764730000, 0, 3600, "BST", Ghost(g))
        .step(782874000, 0, 0, "GMT", Ghost(g))
        .step(796179600, 0, 3600, "BST", Ghost(g))
        .step(814323600, 0, 0, "GMT", Ghost(g))
        .step(828234000, 0, 3600, "BST", Ghost(g))
        .step(846378000, 0, 0, "GMT", Ghost(g))
        .step(859683600, 0, 3600, "BST", Ghost(g))
        .step(877827600, 0, 0, "GMT", Ghost(g))
        .step(891133200, 0, 3600, "BST", Ghost(g))
        .step(909277200, 0, 0, "GMT", Ghost(g))
        .step(922582800, 0, 3600, "BST", Ghost(g))
        .step(941331600, 0, 0, "GMT", Ghost(g))
        .step(954032400, 0, 3600, "BST", Ghost(g))
        .step(972781200, 0, 0, "GMT", Ghost(g))
        .step(985482000, 0, 3600, "BST", Ghost(g))
        .step(1004230800, 0, 0, "GMT", Ghost(g))
        .step(1017536400, 0, 3600, "BST", Ghost(g))
        .step(1035680400, 0, 0, "GMT", Ghost(g))
        .step(1048986000, 0, 3600, "BST", Ghost(g))
        .step(1067130000, 0, 0, "GMT", Ghost(g))
        .step(1080435600, 0, 3600, "BST", Ghost(g))
        .step(1099184400, 0, 0, "GMT", Ghost(g))
        .step(1111885200, 0, 3600, "BST", Ghost(g))
        .step(1130634000, 0, 0, "GMT", Ghost(g))
        .step(1143334800, 0, 3600, "BST", Ghost(g))
        .step(1162083600, 0, 0, "GMT", Ghost(g))
        .step(1174784400, 0, 3600, "BST", Ghost(g))
        .step(1193533200, 0, 0, "GMT", Ghost(g))
        .step(1206838800, 0, 3600, "BST", Ghost(g))
        .step(1224982800, 0, 0, "GMT", Ghost(g))
        .step(1238288400, 0, 3600, "BST", Ghost(g))
        .step(1256432400, 0, 0, "GMT", Ghost(g))
        .step(1269738000, 0, 3600, "BST", Ghost(g))
        .step(1288486800, 0, 0, "GMT", Ghost(g))
        .step(1301187600, 0, 3600, "BST", Ghost(g))
        .step(1319936400, 0, 0, "GMT", Ghost(g))
        .step(1332637200, 0, 3600, "BST", Ghost(g))
        .step(1351386000, 0, 0, "GMT", Ghost(g))
        .step(1364691600, 0, 3600, "BST", Ghost(g))
        .step(1382835600, 0, 0, "GMT", Ghost(g))
        .step(1396141200, 0, 3600, "BST", Ghost(g))
        .step(1414285200, 0, 0, "GMT", Ghost(g))
        .step(1427590800, 0, 3600, "BST", Ghost(g))
        .step(1445734800, 0, 0, "GMT", Ghost(g))
        .step(1459040400, 0, 3600, "BST", Ghost(g))
        .step(1477789200, 0, 0, "GMT", Ghost(g))
        .step(1490490000, 0, 3600, "BST", Ghost(g))
        .step(1509238800, 0, 0, "GMT", Ghost(g))
        .step(1521939600, 0, 3600, "BST", Ghost(g))
        .step(1540688400, 0, 0, "GMT", Ghost(g))
        .step(1553994000, 0, 3600, "BST", Ghost(g))
        .step(1572138000, 0, 0, "GMT", Ghost(g))
        .step(1585443600, 0, 3600, "BST", Ghost(g))
        .step(1603587600, 0, 0, "GMT", Ghost(g))
        .step(1616893200, 0, 3600, "BST", Ghost(g))
        .step(1635642000, 0, 0, "GMT", Ghost(g))
        .step(1648342800, 0, 3600, "BST", Ghost(g))
        .step(1667091600, 0, 0, "GMT", Ghost(g))
        .step(1679792400, 0, 3600, "BST", Ghost(g))
        .step(1698541200, 0, 0, "GMT", Ghost(g))
        .step(1711846800, 0, 3600, "BST", Ghost(g))
        .step(1729990800, 0, 0, "GMT", Ghost(g))
        .step(1743296400, 0, 3600, "BST", Ghost(g))
        .step(1761440400, 0, 0, "GMT", Ghost(g))
        .step(1774746000, 0, 3600, "BST", Ghost(g))
        .step(1792890000, 0, 0, "GMT", Ghost(g))
        .step(1806195600, 0, 3600, "BST", Ghost(g))
        .step(1824944400, 0, 0, "GMT", Ghost(g))
        .step(1837645200, 0, 3600, "BST", Ghost(g))
        .step(1856394000, 0, 0, "GMT", Ghost(g))
        .step(1869094800, 0, 3600, "BST", Ghost(g))
        .step(1887843600, 0, 0, "GMT", Ghost(g))
        .step(1901149200, 0, 3600, "BST", Ghost(g))
        .step(1919293200, 0, 0, "GMT", Ghost(g))
        .step(1932598800, 0, 3600, "BST", Ghost(g))
        .step(1950742800, 0, 0, "GMT", Ghost(g))
        .step(1964048400, 0, 3600, "BST", Ghost(g))
        .step(1982797200, 0, 0, "GMT", Ghost(g))
        .step(1995498000, 0, 3600, "BST", Ghost(g))
        .step(2014246800, 0, 0, "GMT", Ghost(g))
        .step(2026947600, 0, 3600, "BST", Ghost(g))
        .step(2045696400, 0, 0, "GMT", Ghost(g))
        .step(2058397200, 0, 3600, "BST", Ghost(g))
        .step(2077146000, 0, 0, "GMT", Ghost(g))
        .step(2090451600, 0, 3600, "BST", Ghost(g))
        .step(2108595600, 0, 0, "GMT", Ghost(g))
        .step(2121901200, 0, 3600, "BST", Ghost(g))
        .step(2140045200, 0, 0, "GMT", Ghost(g))
        .finish(Ghost(g))
}

/// The zone `GB-Eire`.
pub fn gb_eire() -> (r: Tz)
    ensures
        r.wf(),
        r.zone_name() == "GB-Eire"@,
        r.table() == tables::gb_eire(),
{
    let ghost g = tables::gb_eire_rows();
    FixedTimespanSet::begin("GB-Eire", -75, 0, "LMT", Ghost(g))
        .step(-3852662325, 0, 0, "GMT", Ghost(g))
        .step(-1691964000, 0, 3600, "BST", Ghost(g))
        .step(-1680472800, 0, 0, "GMT", Ghost(g))
        .step(-1664143200, 0, 3600, "BST", Ghost(g))
        .step(-1650146400, 0, 0, "GMT", Ghost(g))
        .step(-1633903200, 0, 3600, "BST", Ghost(g))
        .step(-1617487200, 0, 0, "GMT", Ghost(g))
        .step(-1601848800, 0, 3600, "BST", Ghost(g))
        .step(-1586037600, 0, 0, "GMT", Ghost(g))
        .step(-1570399200, 0, 3600, "BST", Ghost(g))
        .step(-1552168800, 0, 0, "GMT", Ghost(g))
        .step(-1538344800, 0, 3600, "BST", Ghost(g))
        .step(-1522533600, 0, 0, "GMT", Ghost(g))
        .step(-1507500000, 0, 3600, "BST", Ghost(g))
        .step(-1490565600, 0, 0, "GMT", Ghost(g))
        .step(-1473631200, 0, 3600, "BST", Ghost(g))
        .step(-1460930400, 0, 0, "GMT", Ghost(g))
        .step(-1442786400, 0, 3600, "BST", Ghost(g))
        .step(-1428876000, 0, 0, "GMT", Ghost(g))
        .step(-1410732000, 0, 3600, "BST", Ghost(g))
        .step(-1396216800, 0, 0, "GMT", Ghost(g))
        .step(-1379282400, 0, 3600, "BST", Ghost(g))
        .step(-1364767200, 0, 0, "GMT", Ghost(g))
        .step(-1348437600, 0, 3600, "BST", Ghost(g))
        .step(-1333317600, 0, 0, "GMT", Ghost(g))
        .step(-1315778400, 0, 3600, "BST", Ghost(g))
        .step(-1301263200, 0, 0, "GMT", Ghost(g))
        .step(-1284328800, 0, 3600, "BST", Ghost(g))
        .step(-1269813600, 0, 0, "GMT", Ghost(g))
        .step(-1253484000, 0, 3600, "BST", Ghost(g))
        .step(-1238364000, 0, 0, "GMT", Ghost(g))
        .step(-1221429600, 0, 3600, "BST", Ghost(g))
        .step(-1206914400, 0, 0, "GMT", Ghost(g))
        .step(-1189980000, 0, 3600, "BST", Ghost(g))
        .step(-1175464800, 0, 0, "GMT", Ghost(g))
        .step(-1159135200, 0, 3600, "BST", Ghost(g))
        .step(-1143410400, 0, 0, "GMT", Ghost(g))
        .step(-1126476000, 0, 3600, "BST", Ghost(g))
        .step(-1111960800, 0, 0, "GMT", Ghost(g))
        .step(-1095631200, 0, 3600, "BST", Ghost(g))
        .step(-1080511200, 0, 0, "GMT", Ghost(g))
        .step(-1063576800, 0, 3600, "BST", Ghost(g))
        .step(-1049061600, 0, 0, "GMT", Ghost(g))
        .step(-1032127200, 0, 3600, "BST", Ghost(g))
        .step(-1017612000, 0, 0, "GMT", Ghost(g))
        .step(-1001282400, 0, 3600, "BST", Ghost(g))
        .step(-986162400, 0, 0, "GMT", Ghost(g))
        .step(-969228000, 0, 3600, "BST", Ghost(g))
        .step(-950479200, 0, 0, "GMT", Ghost(g))
        .step(-942012000, 0, 3600, "BST", Ghost(g))
        .step(-904518000, 0, 7200, "BDST", Ghost(g))
        .step(-896050800, 0, 3600, "BST", Ghost(g))
        .step(-875487600, 0, 7200, "BDST", Ghost(g))
        .step(-864601200, 0, 3600, "BST", Ghost(g))
        .step(-844038000, 0, 7200, "BDST", Ghost(g))
        .step(-832546800, 0, 3600, "BST", Ghost(g))
        .step(-812588400, 0, 7200, "BDST", Ghost(g))
        .step(-798073200, 0, 3600, "BST", Ghost(g))
        .step(-781052400, 0, 7200, "BDST", Ghost(g))
        .step(-772066800, 0, 3600, "BST", Ghost(g))
        .step(-764805600, 0, 0, "GMT", Ghost(g))
        .step(-748476000, 0, 3600, "BST", Ghost(g))
        .step(-733356000, 0, 0, "GMT", Ghost(g))
        .step(-719445600, 0, 3600, "BST", Ghost(g))
        .step(-717030000, 0, 7200, "BDST", Ghost(g))
        .step(-706748400, 0, 3600, "BST", Ghost(g))
        .step(-699487200, 0, 0, "GMT", Ghost(g))
        .step(-687996000, 0, 3600, "BST", Ghost(g))
        .step(-668037600, 0, 0, "GMT", Ghost(g))
        .step(-654732000, 0, 3600, "BST", Ghost(g))
        .step(-636588000, 0, 0, "GMT", Ghost(g))
        .step(-622072800, 0, 3600, "BST", Ghost(g))
        .step(-605743200, 0, 0, "GMT", Ghost(g))
        .step(-590623200, 0, 3600, "BST", Ghost(g))
        .step(-574293600, 0, 0, "GMT", Ghost(g))
        .step(-558568800, 0, 3600, "BST", Ghost(g))
        .step(-542239200, 0, 0, "GMT", Ghost(g))
        .step(-527119200, 0, 3600, "BST", Ghost(g))
        .step(-512604000, 0, 0, "GMT", Ghost(g))
        .step(-496274400, 0, 3600, "BST", Ghost(g))
        .step(-481154400, 0, 0, "GMT", Ghost(g))
        .step(-464220000, 0, 3600, "BST", Ghost(g))
        .step(-449704800, 0, 0, "GMT", Ghost(g))
        .step(-432165600, 0, 3600, "BST", Ghost(g))
        .step(-417650400, 0, 0, "GMT", Ghost(g))
        .step(-401320800, 0, 3600, "BST", Ghost(g))
        .step(-386200800, 0, 0, "GMT", Ghost(g))
        .step(-369266400, 0, 3600, "BST", Ghost(g))
        .step(-354751200, 0, 0, "GMT", Ghost(g))
        .step(-337816800, 0, 3600, "BST", Ghost(g))
        .step(-323301600, 0, 0, "GMT", Ghost(g))
        .step(-306972000, 0, 3600, "BST", Ghost(g))
        .step(-291852000, 0, 0, "GMT", Ghost(g))
        .step(-276732000, 0, 3600, "BST", Ghost(g))
        .step(-257983200, 0, 0, "GMT", Ghost(g))
        .step(-245282400, 0, 3600, "BST", Ghost(g))
        .step(-226533600, 0, 0, "GMT", Ghost(g))
        .step(-213228000, 0, 3600, "BST", Ghost(g))
        .step(-195084000, 0, 0, "GMT", Ghost(g))
        .step(-182383200, 0, 3600, "BST", Ghost(g))
        .step(-163634400, 0, 0, "GMT", Ghost(g))
        .step(-150933600, 0, 3600, "BST", Ghost(g))
        .step(-132184800, 0, 0, "GMT", Ghost(g))
        .step(-119484000, 0, 3600, "BST", Ghost(g))
        .step(-100735200, 0, 0, "GMT", Ghost(g))
        .step(-88034400, 0, 3600, "BST", Ghost(g))
        .step(-68680800, 0, 0, "GMT", Ghost(g))
        .step(-59004000, 0, 3600, "BST", Ghost(g))
        .step(-37242000, 3600, 0, "BST", Ghost(g))
        .step(57722400, 0, 0, "GMT", Ghost(g))
        .step(69818400, 0, 3600, "BST", Ghost(g))
        .step(89172000, 0, 0, "GMT", Ghost(g))
        .step(101268000, 0, 3600, "BST", Ghost(g))
        .step(120621600, 0, 0, "GMT", Ghost(g))
        .step(132717600, 0, 3600, "BST", Ghost(g))
        .step(152071200, 0, 0, "GMT", Ghost(g))
        .step(164167200, 0, 3600, "BST", Ghost(g))
        .step(183520800, 0, 0, "GMT", Ghost(g))
        .step(196221600, 0, 3600, "BST", Ghost(g))
        .step(214970400, 0, 0, "GMT", Ghost(g))
        .step(227671200, 0, 3600, "BST", Ghost(g))
        .step(246420000, 0, 0, "GMT", Ghost(g))
        .step(259120800, 0, 3600, "BST", Ghost(g))
        .step(278474400, 0, 0, "GMT", Ghost(g))
        .step(290570400, 0, 3600, "BST", Ghost(g))
        .step(309924000, 0, 0, "GMT", Ghost(g))
        .step(322020000, 0, 3600, "BST", Ghost(g))
        .step(341373600, 0, 0, "GMT", Ghost(g))
        .step(354675600, 0, 3600, "BST", Ghost(g))
        .step(372819600, 0, 0, "GMT", Ghost(g))
        .step(386125200, 0, 3600, "BST", Ghost(g))
        .step(404269200, 0, 0, "GMT", Ghost(g))
        .step(417574800, 0, 3600, "BST", Ghost(g))
        .step(435718800, 0, 0, "GMT", Ghost(g))
        .step(449024400, 0, 3600, "BST", Ghost(g))
        .step(467773200, 0, 0, "GMT", Ghost(g))
        .step(481078800, 0, 3600, "BST", Ghost(g))
        .step(499222800, 0, 0, "GMT", Ghost(g))
        .step(512528400, 0, 3600, "BST", Ghost(g))
        .step(530672400, 0, 0, "GMT", Ghost(g))
        .step(543978000, 0, 3600, "BST", Ghost(g))
        .step(562122000, 0, 0, "GMT", Ghost(g))
        .step(575427600, 0, 3600, "BST", Ghost(g))
        .step(593571600, 0, 0, "GMT", Ghost(g))
        .step(606877200, 0, 3600, "BST", Ghost(g))
        .step(625626000, 0, 0, "GMT", Ghost(g))
        .step(638326800, 0, 3600, "BST", Ghost(g))
        .step(657075600, 0, 0, "GMT", Ghost(g))
        .step(670381200, 0, 3600, "BST", Ghost(g))
        .step(688525200, 0, 0, "GMT", Ghost(g))
        .step(701830800, 0, 3600, "BST", Ghost(g))
        .step(719974800, 0, 0, "GMT", Ghost(g))
        .step(733280400, 0, 3600, "BST", Ghost(g))
        .step(751424400, 0, 0, "GMT", Ghost(g))
        .step(764730000, 0, 3600, "BST", Ghost(g))
        .step(782874000, 0, 0, "GMT", Ghost(g))
        .step(796179600, 0, 3600, "BST", Ghost(g))
        .step(814323600, 0, 0, "GMT", Ghost(g))
        .step(828234000, 0, 3600, "BST", Ghost(g))
        .step(846378000, 0, 0, "GMT", Ghost(g))
        .step(859683600, 0, 3600, "BST", Ghost(g))
        .step(877827600, 0, 0, "GMT", Ghost(g))
        .step(891133200, 0, 3600, "BST", Ghost(g))
        .step(909277200, 0, 0, "GMT", Ghost(g))
        .step(922582800, 0, 3600, "BST", Ghost(g))
        .step(941331600, 0, 0, "GMT", Ghost(g))
        .step(954032400, 0, 3600, "BST", Ghost(g))
        .step(972781200, 0, 0, "GMT", Ghost(g))
        .step(985482000, 0, 3600, "BST", Ghost(g))
        .step(1004230800, 0, 0, "GMT", Ghost(g))
        .step(1017536400, 0, 3600, "BST", Ghost(g))
        .step(1035680400, 0, 0, "GMT", Ghost(g))
        .step(1048986000, 0, 3600, "BST", Ghost(g))
        .step(1067130000, 0, 0, "GMT", Ghost(g))
        .step(1080435600, 0, 3600, "BST", Ghost(g))
        .step(1099184400, 0, 0, "GMT", Ghost(g))
        .step(1111885200, 0, 3600, "BST", Ghost(g))
        .step(1130634000, 0, 0, "GMT", Ghost(g))
        .step(1143334800, 0, 3600, "BST", Ghost(g))
        .step(1162083600, 0, 0, "GMT", Ghost(g))
        .step(1174784400, 0, 3600, "BST", Ghost(g))
        .step(1193533200, 0, 0, "GMT", Ghost(g))
        .step(1206838800, 0, 3600, "BST", Ghost(g))
        .step(1224982800, 0, 0, "GMT", Ghost(g))
        .step(1238288400, 0, 3600, "BST", Ghost(g))
        .step(1256432400, 0, 0, "GMT", Ghost(g))
        .step(1269738000, 0, 3600, "BST", Ghost(g))
        .step(1288486800, 0, 0, "GMT", Ghost(g))
        .step(1301187600, 0, 3600, "BST", Ghost(g))
        .step(1319936400, 0, 0, "GMT", Ghost(g))
        .step(1332637200, 0, 3600, "BST", Ghost(g))
        .step(1351386000, 0, 0, "GMT", Ghost(g))
        .step(1364691600, 0, 3600, "BST", Ghost(g))
        .step(1382835600, 0, 0, "GMT", Ghost(g))
        .step(1396141200, 0, 3600, "BST", Ghost(g))
        .step(1414285200, 0, 0, "GMT", Ghost(g))
        .step(1427590800, 0, 3600, "BST", Ghost(g))
        .step(1445734800, 0, 0, "GMT", Ghost(g))
        .step(1459040400, 0, 3600, "BST", Ghost(g))
        .step(1477789200, 0, 0, "GMT", Ghost(g))
        .step(1490490000, 0, 3600, "BST", Ghost(g))
        .step(1509238800, 0, 0, "GMT", Ghost(g))
        .step(1521939600, 0, 3600, "BST", Ghost(g))
        .step(1540688400, 0, 0, "GMT", Ghost(g))
        .step(1553994000, 0, 3600, "BST", Ghost(g))
        .step(1572138000, 0, 0, "GMT", Ghost(g))
        .step(1585443600, 0, 3600, "BST", Ghost(g))
        .step(1603587600, 0, 0, "GMT", Ghost(g))
        .step(1616893200, 0, 3600, "BST", Ghost(g))
        .step(1635642000, 0, 0, "GMT", Ghost(g))
        .step(1648342800, 0, 3600, "BST", Ghost(g))
        .step(1667091600, 0, 0, "GMT", Ghost(g))
        .step(1679792400, 0, 3600, "BST", Ghost(g))
        .step(1698541200, 0, 0, "GMT", Ghost(g))
        .step(1711846800, 0, 3600, "BST", Ghost(g))
        .step(1729990800, 0, 0, "GMT", Ghost(g))
        .step(1743296400, 0, 3600, "BST", Ghost(g))
        .step(1761440400, 0, 0, "GMT", Ghost(g))
        .step(1774746000, 0, 3600, "BST", Ghost(g))
        .step(1792890000, 0, 0, "GMT", Ghost(g))
        .step(1806195600, 0, 3600, "BST", Ghost(g))
        .step(1824944400, 0, 0, "GMT", Ghost(g))
        .step(1837645200, 0, 3600, "BST", Ghost(g))
        .step(1856394000, 0, 0, "GMT", Ghost(g))
        .step(1869094800, 0, 3600, "BST", Ghost(g))
        .step(1887843600, 0, 0, "GMT", Ghost(g))
        .step(1901149200, 0, 3600, "BST", Ghost(g))
        .step(1919293200, 0, 0, "GMT", Ghost(g))
        .step(1932598800, 0, 3600, "BST", Ghost(g))
        .step(1950742800, 0, 0, "GMT", Ghost(g))
        .step(1964048400, 0, 3600, "BST", Ghost(g))
        .step(1982797200, 0, 0, "GMT", Ghost(g))
        .step(1995498000, 0, 3600, "BST", Ghost(g))
        .step(2014246800, 0, 0, "GMT", Ghost(g))
        .step(2026947600, 0, 3600, "BST", Ghost(g))
        .step(2045696400, 0, 0, "GMT", Ghost(g))
        .step(2058397200, 0, 3600, "BST", Ghost(g))
        .step(2077146000, 0, 0, "GMT", Ghost(g))
        .step(2090451600, 0, 3600, "BST", Ghost(g))
        .step(2108595600, 0, 0, "GMT", Ghost(g))
        .step(2121901200, 0, 3600, "BST", Ghost(g))
        .step(2140045200, 0, 0, "GMT", Ghost(g))
        .finish(Ghost(g))
}

/// The zone `GMT`.
pub fn gmt() -> (r: Tz)
    ensures
        r.wf(),
        r.zone_name() == "GMT"@,
        r.table() == tables::gmt(),
{
    let ghost g = tables::gmt_rows();
    FixedTimespanSet::begin("GMT", 0, 0, "GMT", Ghost(g))
        .finish(Ghost(g))
}

/// The zone `GMT+0`.
pub fn gmt_plus_0() -> (r: Tz)
    ensures
        r.wf(),
        r.zone_name() == "GMT+0"@,
        r.table() == tables::gmt_plus_0(),
{
    let ghost g = tables::gmt_plus_0_rows();
    FixedTimespanSet::begin("GMT+0", 0, 0, "GMT", Ghost(g))
        .finish(Ghost(g))
}

/// The zone `GMT-0`.
pub fn gmt_minus_0() -> (r: Tz)
    ensures
        r.wf(),
        r.zone_name() == "GMT-0"@,
        r.table() == tables::gmt_minus_0(),
{
    let ghost g = tables::gmt_minus_0_rows();
    FixedTimespanSet::begin("GMT-0", 0, 0, "GMT", Ghost(g))
        .finish(Ghost(g))
}

/// The zone `GMT0`.
pub fn gmt0() -> (r: Tz)
    ensures
        r.wf(),
        r.zone_name() == "GMT0"@,
        r.table() == tables::gmt0(),
{
    let ghost g = tables::gmt0_rows();
    FixedTimespanSet::begin("GMT0", 0, 0, "GMT", Ghost(g))
        .finish(Ghost(g))
}

/// The zone `Greenwich`.
pub fn greenwich() -> (r: Tz)
    ensures
        r.wf(),
        r.zone_name() == "Greenwich"@,
        r.table() == tables::greenwich(),
{
    let ghost g = tables::greenwich_rows();
    FixedTimespanSet::begin("Greenwich", 0, 0, "GMT", Ghost(g))
        .finish(Ghost(g))
}

/// The zone `HST`.
pub fn hst() -> (r: Tz)
    ensures
        r.wf(),
        r.zone_name() == "HST"@,
        r.table() == tables::hst(),
{
    let ghost g = tables::hst_rows();
    FixedTimespanSet::begin("HST", -36000, 0, "HST", Ghost(g))
        .finish(Ghost(g))
}

/// The zone `Hongkong`.
pub fn hongkong() -> (r: Tz)
    ensures
        r.wf(),
        r.zone_name() == "Hongkong"@,
        r.table() == tables::hongkong(),
{
    let ghost g = tables::hongkong_rows();
    FixedTimespanSet::begin("Hongkong", 27402, 0, "LMT", Ghost(g))
        .step(-2056690800, 28800, 0, "HKT", Ghost(g))
        .step(-900910800, 28800, 3600, "HKST", Ghost(g))
        .step(-891579600, 28800, 1800, "HKWT", Ghost(g))
        .step(-884248200, 32400, 0, "JST", Ghost(g))
        .step(-761209200, 28800, 0, "HKT", Ghost(g))
        .step(-747907200, 28800, 3600, "HKST", Ghost(g))
        .step(-728541000, 28800, 0, "HKT", Ghost(g))
        .step(-717049800, 28800, 3600, "HKST", Ghost(g))
        .step(-697091400, 28800, 0, "HKT", Ghost(g))
        .step(-683785800, 28800, 3600, "HKST", Ghost(g))
        .step(-668061000, 28800, 0, "HKT", Ghost(g))
        .step(-654755400, 28800, 3600, "HKST", Ghost(g))
        .step(-636611400, 28800, 0, "HKT", Ghost(g))
        .step(-623305800, 28800, 3600, "HKST", Ghost(g))
        .step(-605161800, 28800, 0, "HKT", Ghost(g))
        .step(-591856200, 28800, 3600, "HKST", Ghost(g))
        .step(-573712200, 28800, 0, "HKT", Ghost(g))
        .step(-559801800, 28800, 3600, "HKST", Ghost(g))
        .step(-541657800, 28800, 0, "HKT", Ghost(g))
        .step(-528352200, 28800, 3600, "HKST", Ghost(g))
        .step(-510211800, 28800, 0, "HKT", Ghost(g))
        .step(-498112200, 28800, 3600, "HKST", Ghost(g))
        .step(-478762200, 28800, 0, "HKT", Ghost(g))
        .step(-466662600, 28800, 3600, "HKST", Ghost(g))
        .step(-446707800, 28800, 0, "HKT", Ghost(g))
        .step(-435213000, 28800, 3600, "HKST", Ghost(g))
        .step(-415258200, 28800, 0, "HKT", Ghost(g))
        .step(-403158600, 28800, 3600, "HKST", Ghost(g))
        .step(-383808600, 28800, 0, "HKT", Ghost(g))
        .step(-371709000, 28800, 3600, "HKST", Ghost(g))
        .step(-352359000, 28800, 0, "HKT", Ghost(g))
        .step(-340259400, 28800, 3600, "HKST", Ghost(g))
        .step(-320909400, 28800, 0, "HKT", Ghost(g))
        .step(-308809800, 28800, 3600, "HKST", Ghost(g))
        .step(-288855000, 28800, 0, "HKT", Ghost(g))
        .step(-277360200, 28800, 3600, "HKST", Ghost(g))
        .step(-257405400, 28800, 0, "HKT", Ghost(g))
        .step(-245910600, 28800, 3600, "HKST", Ghost(g))
        .step(-225955800, 28800, 0, "HKT", Ghost(g))
        .step(-213856200, 28800, 3600, "HKST", Ghost(g))
        .step(-194506200, 28800, 0, "HKT", Ghost(g))
        .step(-182406600, 28800, 3600, "HKST", Ghost(g))
        .step(-163056600, 28800, 0, "HKT", Ghost(g))
        .step(-148537800, 28800, 3600, "HKST", Ghost(g))
        .step(-132816600, 28800, 0, "HKT", Ghost(g))
        .step(-117088200, 28800, 3600, "HKST", Ghost(g))
        .step(-101367000, 28800, 0, "HKT", Ghost(g))
        .step(-85638600, 28800, 3600, "HKST", Ghost(g))
        .step(-69312600, 28800, 0, "HKT", Ghost(g))
        .step(-53584200, 28800, 3600, "HKST", Ghost(g))
        .step(-37863000, 28800, 0, "HKT", Ghost(g))
        .step(-22134600, 28800, 3600, "HKST", Ghost(g))
        .step(-6413400, 28800, 0, "HKT", Ghost(g))
        .step(9315000, 28800, 3600, "HKST", Ghost(g))
        .step(25036200, 28800, 0, "HKT", Ghost(g))
        .step(40764600, 28800, 3600, "HKST", Ghost(g))
        .step(56485800, 28800, 0, "HKT", Ghost(g))
        .step(72214200, 28800, 3600, "HKST", Ghost(g))
        .step(88540200, 28800, 0, "HKT", Ghost(g))
        .step(104268600, 28800, 3600, "HKST", Ghost(g))
        .step(119989800, 28800, 0, "HKT", Ghost(g))
        .step(126041400, 28800, 3600, "HKST", Ghost(g))
        .step(151439400, 28800, 0, "HKT", Ghost(g))
        .step(167167800, 28800, 3600, "HKST", Ghost(g))
        .step(182889000, 28800, 0, "HKT", Ghost(g))
        .step(198617400, 28800, 3600, "HKST", Ghost(g))
        .step(214338600, 28800, 0, "HKT", Ghost(g))
        .step(295385400, 28800, 3600, "HKST", Ghost(g))
        .step(309292200, 28800, 0, "HKT", Ghost(g))
        .finish(Ghost(g))
}

/// The zone `Iceland`.
pub fn iceland() -> (r: Tz)
    ensures
        r.wf(),
        r.zone_name() == "Iceland"@,
        r.table() == tables::iceland(),
{
    let ghost g = tables::iceland_rows();
    FixedTimespanSet::begin("Iceland", -968, 0, "LMT", Ghost(g))
        .step(-1830383032, 0, 0, "GMT", Ghost(g))
        .finish(Ghost(g))
}

/// The zone `Iran`.
pub fn iran() -> (r: Tz)
    ensures
        r.wf(),
        r.zone_name() == "Iran"@,
        r.table() == tables::iran(),
{
    let ghost g = tables::iran_rows();
    FixedTimespanSet::begin("Iran", 12344, 0, "LMT", Ghost(g))
        .step(-1704165944, 12344, 0, "TMT", Ghost(g))
        .step(-1090466744, 12600, 0, "+0330", Ghost(g))
        .step(227820600, 12600, 3600, "+0430", Ghost(g))
        .step(246223800, 14400, 0, "+04", Ghost(g))
        .step(259617600, 14400, 3600, "+05", Ghost(g))
        .step(271108800, 14400, 0, "+04", Ghost(g))
        .step(279576000, 12600, 0, "+0330", Ghost(g))
        .step(296598600, 12600, 3600, "+0430", Ghost(g))
        .step(306531000, 12600, 0, "+0330", Ghost(g))
        .step(322432200, 12600, 3600, "+0430", Ghost(g))
        .step(338499000, 12600, 0, "+0330", Ghost(g))
        .step(673216200, 12600, 3600, "+0430", Ghost(g))
        .step(685481400, 12600, 0, "+0330", Ghost(g))
        .step(701209800, 12600, 3600, "+0430", Ghost(g))
        .step(717103800, 12600, 0, "+0330", Ghost(g))
        .step(732745800, 12600, 3600, "+0430", Ghost(g))
        .step(748639800, 12600, 0, "+0330", Ghost(g))
        .step(764281800, 12600, 3600, "+0430", Ghost(g))
        .step(780175800, 12600, 0, "+0330", Ghost(g))
        .step(795817800, 12600, 3600, "+0430", Ghost(g))
        .step(811711800, 12600, 0, "+0330", Ghost(g))
        .step(827353800, 12600, 3600, "+0430", Ghost(g))
        .step(843247800, 12600, 0, "+0330", Ghost(g))
        .step(858976200, 12600, 3600, "+0430", Ghost(g))
        .step(874870200, 12600, 0, "+0330", Ghost(g))
        .step(890512200, 12600, 3600, "+0430", Ghost(g))
        .step(906406200, 12600, 0, "+0330", Ghost(g))
        .step(922048200, 12600, 3600, "+0430", Ghost(g))
        .step(937942200, 12600, 0, "+0330", Ghost(g))
        .step(953584200, 12600, 3600, "+0430", Ghost(g))
        .step(969478200, 12600, 0, "+0330", Ghost(g))
        .step(985206600, 12600, 3600, "+0430", Ghost(g))
        .step(1001100600, 12600, 0, "+0330", Ghost(g))
        .step(1016742600, 12600, 3600, "+0430", Ghost(g))
        .step(1032636600, 12600, 0, "+0330", Ghost(g))
        .step(1048278600, 12600, 3600, "+0430", Ghost(g))
        .step(1064172600, 12600, 0, "+0330", Ghost(g))
        .step(1079814600, 12600, 3600, "+0430", Ghost(g))
        .step(1095708600, 12600, 0, "+0330", Ghost(g))
        .step(1111437000, 12600, 3600, "+0430", Ghost(g))
        .step(1127331000, 12600, 0, "+0330", Ghost(g))
        .step(1206045000, 12600, 3600, "+0430", Ghost(g))
        .step(1221939000, 12600, 0, "+0330", Ghost(g))
        .step(1237667400, 12600, 3600, "+0430", Ghost(g))
        .step(1253561400, 12600, 0, "+0330", Ghost(g))
        .step(1269203400, 12600, 3600, "+0430", Ghost(g))
        .step(1285097400, 12600, 0, "+0330", Ghost(g))
        .step(1300739400, 12600, 3600, "+0430", Ghost(g))
        .step(1316633400, 12600, 0, "+0330", Ghost(g))
        .step(1332275400, 12600, 3600, "+0430", Ghost(g))
        .step(1348169400, 12600, 0, "+0330", Ghost(g))
        .step(1363897800, 12600, 3600, "+0430", Ghost(g))
        .step(1379791800, 12600, 0, "+0330", Ghost(g))
        .step(1395433800, 12600, 3600, "+0430", Ghost(g))
        .step(1411327800, 12600, 0, "+0330", Ghost(g))
        .step(1426969800, 12600, 3600, "+0430", Ghost(g))
        .step(1442863800, 12600, 0, "+0330", Ghost(g))
        .step(1458505800, 12600, 3600, "+0430", Ghost(g))
        .step(1474399800, 12600, 0, "+0330", Ghost(g))
        .step(1490128200, 12600, 3600, "+0430", Ghost(g))
        .step(1506022200, 12600, 0, "+0330", Ghost(g))
        .step(1521664200, 12600, 3600, "+0430", Ghost(g))
        .step(1537558200, 12600, 0, "+0330", Ghost(g))
        .step(1553200200, 12600, 3600, "+0430", Ghost(g))
        .step(1569094200, 12600, 0, "+0330", Ghost(g))
        .step(1584736200, 12600, 3600, "+0430", Ghost(g))
        .step(1600630200, 12600, 0, "+0330", Ghost(g))
        .step(1616358600, 12600, 3600, "+0430", Ghost(g))
        .step(1632252600, 12600, 0, "+0330", Ghost(g))
        .step(1647894600, 12600, 3600, "+0430", Ghost(g))
        .step(1663788600, 12600, 0, "+0330", Ghost(g))
        .step(2147483647, 12600, 0, "+0330", Ghost(g))
        .finish(Ghost(g))
}

/// The zone `Israel`.
pub fn israel() -> (r: Tz)
    ensures
        r.wf(),
        r.zone_name() == "Israel"@,
        r.table() == tables::israel(),
{
    let ghost g = tables::israel_rows();
    FixedTimespanSet::begin("Israel", 8454, 0, "LMT", Ghost(g))
        .step(-2840149254, 8440, 0, "JMT", Ghost(g))
        .step(-1641003640, 7200, 0, "IST", Ghost(g))
        .step(-933638400, 7200, 3600, "IDT", Ghost(g))
        .step(-923097600, 7200, 0, "IST", Ghost(g))
        .step(-919036800, 7200, 3600, "IDT", Ghost(g))
        .step(-857347200, 7200, 0, "IST", Ghost(g))
        .step(-844300800, 7200, 3600, "IDT", Ghost(g))
        .step(-825811200, 7200, 0, "IST", Ghost(g))
        .step(-812678400, 7200, 3600, "IDT", Ghost(g))
        .step(-794188800, 7200, 0, "IST", Ghost(g))
        .step(-779846400, 7200, 3600, "IDT", Ghost(g))
        .step(-762652800, 7200, 0, "IST", Ghost(g))
        .step(-748310400, 7200, 3600, "IDT", Ghost(g))
        .step(-731116800, 7200, 0, "IST", Ghost(g))
        .step(-681955200, 7200, 7200, "IDDT", Ghost(g))
        .step(-673228800, 7200, 3600, "IDT", Ghost(g))
        .step(-667958400, 7200, 0, "IST", Ghost(g))
        .step(-652320000, 7200, 3600, "IDT", Ghost(g))
        .step(-636422400, 7200, 0, "IST", Ghost(g))
        .step(-622080000, 7200, 3600, "IDT", Ghost(g))
        .step(-608947200, 7200, 0, "IST", Ghost(g))
        .step(-591840000, 7200, 3600, "IDT", Ghost(g))
        .step(-572486400, 7200, 0, "IST", Ghost(g))
        .step(-558576000, 7200, 3600, "IDT", Ghost(g))
        .step(-542851200, 7200, 0, "IST", Ghost(g))
        .step(-527731200, 7200, 3600, "IDT", Ghost(g))
        .step(-514425600, 7200, 0, "IST", Ghost(g))
        .step(-490838400, 7200, 3600, "IDT", Ghost(g))
        .step(-482976000, 7200, 0, "IST", Ghost(g))
        .step(-459388800, 7200, 3600, "IDT", Ghost(g))
        .step(-451526400, 7200, 0, "IST", Ghost(g))
        .step(-428544000, 7200, 3600, "IDT", Ghost(g))
        .step(-418262400, 7200, 0, "IST", Ghost(g))
        .step(-400118400, 7200, 3600, "IDT", Ghost(g))
        .step(-387417600, 7200, 0, "IST", Ghost(g))
        .step(142380000, 7200, 3600, "IDT", Ghost(g))
        .step(150843600, 7200, 0, "IST", Ghost(g))
        .step(167176800, 7200, 3600, "IDT", Ghost(g))
        .step(178664400, 7200, 0, "IST", Ghost(g))
        .step(334101600, 7200, 3600, "IDT", Ghost(g))
        .step(337730400, 7200, 0, "IST", Ghost(g))
        .step(452642400, 7200, 3600, "IDT", Ghost(g))
        .step(462319200, 7200, 0, "IST", Ghost(g))
        .step(482277600, 7200, 3600, "IDT", Ghost(g))
        .step(494370000, 7200, 0, "IST", Ghost(g))
        .step(516751200, 7200, 3600, "IDT", Ghost(g))
        .step(526424400, 7200, 0, "IST", Ghost(g))
        .step(545436000, 7200, 3600, "IDT", Ghost(g))
        .step(558478800, 7200, 0, "IST", Ghost(g))
        .step(576626400, 7200, 3600, "IDT", Ghost(g))
        .step(589323600, 7200, 0, "IST", Ghost(g))
        .step(609890400, 7200, 3600, "IDT", Ghost(g))
        .step(620773200, 7200, 0, "IST", Ghost(g))
        .step(638316000, 7200, 3600, "IDT", Ghost(g))
        .step(651618000, 7200, 0, "IST", Ghost(g))
        .step(669765600, 7200, 3600, "IDT", Ghost(g))
        .step(683672400, 7200, 0, "IST", Ghost(g))
        .step(701820000, 7200, 3600, "IDT", Ghost(g))
        .step(715726800, 7200, 0, "IST", Ghost(g))
        .step(733701600, 7200, 3600, "IDT", Ghost(g))
        .step(747176400, 7200, 0, "IST", Ghost(g))
        .step(765151200, 7200, 3600, "IDT", Ghost(g))
        .step(778021200, 7200, 0, "IST", Ghost(g))
        .step(796600800, 7200, 3600, "IDT", Ghost(g))
        .step(810075600, 7200, 0, "IST", Ghost(g))
        .step(826840800, 7200, 3600, "IDT", Ghost(g))
        .step(842821200, 7200, 0, "IST", Ghost(g))
        .step(858895200, 7200, 3600, "IDT", Ghost(g))
        .step(874184400, 7200, 0, "IST", Ghost(g))
        .step(890344800, 7200, 3600, "IDT", Ghost(g))
        .step(905029200, 7200, 0, "IST", Ghost(g))
        .step(923011200, 7200, 3600, "IDT", Ghost(g))
        .step(936313200, 7200, 0, "IST", Ghost(g))
        .step(955670400, 7200, 3600, "IDT", Ghost(g))
        .step(970783200, 7200, 0, "IST", Ghost(g))
        .step(986770800, 7200, 3600, "IDT", Ghost(g))
        .step(1001282400, 7200, 0, "IST", Ghost(g))
        .step(1017356400, 7200, 3600, "IDT", Ghost(g))
        .step(1033941600, 7200, 0, "IST", Ghost(g))
        .step(1048806000, 7200, 3600, "IDT", Ghost(g))
        .step(1065132000, 7200, 0, "IST", Ghost(g))
        .step(1081292400, 7200, 3600, "IDT", Ghost(g))
        .step(1095804000, 7200, 0, "IST", Ghost(g))
        .step(1112313600, 7200, 3600, "IDT", Ghost(g))
        .step(1128812400, 7200, 0, "IST", Ghost(g))
        .step(1143763200, 7200, 3600, "IDT", Ghost(g))
        .step(1159657200, 7200, 0, "IST", Ghost(g))
        .step(1175212800, 7200, 3600, "IDT", Ghost(g))
        .step(1189897200, 7200, 0, "IST", Ghost(g))
        .step(1206662400, 7200, 3600, "IDT", Ghost(g))
        .step(1223161200, 7200, 0, "IST", Ghost(g))
        .step(1238112000, 7200, 3600, "IDT", Ghost(g))
        .step(1254006000, 7200, 0, "IST", Ghost(g))
        .step(1269561600, 7200, 3600, "IDT", Ghost(g))
        .step(1284246000, 7200, 0, "IST", Ghost(g))
        .step(1301616000, 7200, 3600, "IDT", Ghost(g))
        .step(1317510000, 7200, 0, "IST", Ghost(g))
        .step(1333065600, 7200, 3600, "IDT", Ghost(g))
        .step(1348354800, 7200, 0, "IST", Ghost(g))
        .step(1364515200, 7200, 3600, "IDT", Ghost(g))
        .step(1382828400, 7200, 0, "IST", Ghost(g))
        .step(1395964800, 7200, 3600, "IDT", Ghost(g))
        .step(1414278000, 7200, 0, "IST", Ghost(g))
        .step(1427414400, 7200, 3600, "IDT", Ghost(g))
        .step(1445727600, 7200, 0, "IST", Ghost(g))
        .step(1458864000, 7200, 3600, "IDT", Ghost(g))
        .step(1477782000, 7200, 0, "IST", Ghost(g))
        .step(1490313600, 7200, 3600, "IDT", Ghost(g))
        .step(1509231600, 7200, 0, "IST", Ghost(g))
        .step(1521763200, 7200, 3600, "IDT", Ghost(g))
        .step(1540681200, 7200, 0, "IST", Ghost(g))
        .step(1553817600, 7200, 3600, "IDT", Ghost(g))
        .step(1572130800, 7200, 0, "IST", Ghost(g))
        .step(1585267200, 7200, 3600, "IDT", Ghost(g))
        .step(1603580400, 7200, 0, "IST", Ghost(g))
        .step(1616716800, 7200, 3600, "IDT", Ghost(g))
        .step(1635634800, 7200, 0, "IST", Ghost(g))
        .step(1648166400, 7200, 3600, "IDT", Ghost(g))
        .step(1667084400, 7200, 0, "IST", Ghost(g))
        .step(1679616000, 7200, 3600, "IDT", Ghost(g))
        .step(1698534000, 7200, 0, "IST", Ghost(g))
        .step(1711670400, 7200, 3600, "IDT", Ghost(g))
        .step(1729983600, 7200, 0, "IST", Ghost(g))
        .step(1743120000, 7200, 3600, "IDT", Ghost(g))
        .step(1761433200, 7200, 0, "IST", Ghost(g))
        .step(1774569600, 7200, 3600, "IDT", Ghost(g))
        .step(1792882800, 7200, 0, "IST", Ghost(g))
        .step(1806019200, 7200, 3600, "IDT", Ghost(g))
        .step(1824937200, 7200, 0, "IST", Ghost(g))
        .step(1837468800, 7200, 3600, "IDT", Ghost(g))
        .step(1856386800, 7200, 0, "IST", Ghost(g))
        .step(1868918400, 7200, 3600, "IDT", Ghost(g))
        .step(1887836400, 7200, 0, "IST", Ghost(g))
        .step(1900972800, 7200, 3600, "IDT", Ghost(g))
        .step(1919286000, 7200, 0, "IST", Ghost(g))
        .step(1932422400, 7200, 3600, "IDT", Ghost(g))
        .step(1950735600, 7200, 0, "IST", Ghost(g))
        .step(1963872000, 7200, 3600, "IDT", Ghost(g))
        .step(1982790000, 7200, 0, "IST", Ghost(g))
        .step(1995321600, 7200, 3600, "IDT", Ghost(g))
        .step(2014239600, 7200, 0, "IST", Ghost(g))
        .step(2026771200, 7200, 3600, "IDT", Ghost(g))
        .step(2045689200, 7200, 0, "IST", Ghost(g))
        .step(2058220800, 7200, 3600, "IDT", Ghost(g))
        .step(2077138800, 7200, 0, "IST", Ghost(g))
        .step(2090275200, 7200, 3600, "IDT", Ghost(g))
        .step(2108588400, 7200, 0, "IST", Ghost(g))
        .step(2121724800, 7200, 3600, "IDT", Ghost(g))
        .step(2140038000, 7200, 0, "IST", Ghost(g))
        .finish(Ghost(g))
}

/// The zone `Jamaica`.
pub fn jamaica() -> (r: Tz)
    ensures
        r.wf(),
        r.zone_name() == "Jamaica"@,
        r.table() == tables::jamaica(),
{
    let ghost g = tables::jamaica_rows();
    FixedTimespanSet::begin("Jamaica", -18430, 0, "LMT", Ghost(g))
        .step(-2524503170, -18430, 0, "KMT", Ghost(g))
        .step(-1827687170, -18000, 0, "EST", Ghost(g))
        .step(126687600, -18000, 3600, "EDT", Ghost(g))
        .step(152085600, -18000, 0, "EST", Ghost(g))
        .step(162370800, -18000, 3600, "EDT", Ghost(g))
        .step(183535200, -18000, 0, "EST", Ghost(g))
        .step(199263600, -18000, 3600, "EDT", Ghost(g))
        .step(215589600, -18000, 0, "EST", Ghost(g))
        .step(230713200, -18000, 3600, "EDT", Ghost(g))
        .step(247039200, -18000, 0, "EST", Ghost(g))
        .step(262767600, -18000, 3600, "EDT", Ghost(g))
        .step(278488800, -18000, 0, "EST", Ghost(g))
        .step(294217200, -18000, 3600, "EDT", Ghost(g))
        .step(309938400, -18000, 0, "EST", Ghost(g))
        .step(325666800, -18000, 3600, "EDT", Ghost(g))
        .step(341388000, -18000, 0, "EST", Ghost(g))
        .step(357116400, -18000, 3600, "EDT", Ghost(g))
        .step(372837600, -18000, 0, "EST", Ghost(g))
        .step(388566000, -18000, 3600, "EDT", Ghost(g))
        .step(404892000, -18000, 0, "EST", Ghost(g))
        .step(420015600, -18000, 3600, "EDT", Ghost(g))
        .step(436341600, -18000, 0, "EST", Ghost(g))
        .finish(Ghost(g))
}

/// The zone `Japan`.
pub fn japan() -> (r: Tz)
    ensures
        r.wf(),
        r.zone_name() == "Japan"@,
        r.table() == tables::japan(),
{
    let ghost g = tables::japan_rows();
    FixedTimespanSet::begin("Japan", 33539, 0, "LMT", Ghost(g))
        .step(-2587712400, 32400, 0, "JST", Ghost(g))
        .step(-683802000, 32400, 3600, "JDT", Ghost(g))
        .step(-672310800, 32400, 0, "JST", Ghost(g))
        .step(-654771600, 32400, 3600, "JDT", Ghost(g))
        .step(-640861200, 32400, 0, "JST", Ghost(g))
        .step(-620298000, 32400, 3600, "JDT", Ghost(g))
        .step(-609411600, 32400, 0, "JST", Ghost(g))
        .step(-588848400, 32400, 3600, "JDT", Ghost(g))
        .step(-577962000, 32400, 0, "JST", Ghost(g))
        .finish(Ghost(g))
}

/// The zone `Kwajalein`.
pub fn kwajalein() -> (r: Tz)
    ensures
        r.wf(),
        r.zone_name() == "Kwajalein"@,
        r.table() == tables::kwajalein(),
{
    let ghost g = tables::kwajalein_rows();
    FixedTimespanSet::begin("Kwajalein", 40160, 0, "LMT", Ghost(g))
        .step(-2177492960, 39600, 0, "+11", Ghost(g))
        .step(-1041418800, 36000, 0, "+10", Ghost(g))
        .step(-907408800, 32400, 0, "+09", Ghost(g))
        .step(-817462800, 39600, 0, "+11", Ghost(g))
        .step(-7988400, -43200, 0, "-12", Ghost(g))
        .step(745934400, 43200, 0, "+12", Ghost(g))
        .step(2147483647, 43200, 0, "+12", Ghost(g))
        .finish(Ghost(g))
}

/// The zone `Libya`.
pub fn libya() -> (r: Tz)
    ensures
        r.wf(),
        r.zone_name() == "Libya"@,
        r.table() == tables::libya(),
{
    let ghost g = tables::libya_rows();
    FixedTimespanSet::begin("Libya", 3164, 0, "LMT", Ghost(g))
        .step(-1577926364, 3600, 0, "CET", Ghost(g))
        .step(-574902000, 3600, 3600, "CEST", Ghost(g))
        .step(-568087200, 3600, 0, "CET", Ghost(g))
        .step(-512175600, 3600, 3600, "CEST", Ghost(g))
        .step(-504928800, 3600, 0, "CET", Ghost(g))
        .step(-449888400, 3600, 3600, "CEST", Ghost(g))
        .step(-441856800, 3600, 0, "CET", Ghost(g))
        .step(-347158800, 7200, 0, "EET", Ghost(g))
        .step(378684000, 3600, 0, "CET", Ghost(g))
        .step(386463600, 3600, 3600, "CEST", Ghost(g))
        .step(402271200, 3600, 0, "CET", Ghost(g))
        .step(417999600, 3600, 3600, "CEST", Ghost(g))
        .step(433807200, 3600, 0, "CET", Ghost(g))
        .step(449622000, 3600, 3600, "CEST", Ghost(g))
        .step(465429600, 3600, 0, "CET", Ghost(g))
        .step(481590000, 3600, 3600, "CEST", Ghost(g))
        .step(496965600, 3600, 0, "CET", Ghost(g))
        .step(512953200, 3600, 3600, "CEST", Ghost(g))
        .step(528674400, 3600, 0, "CET", Ghost(g))
        .step(544230000, 3600, 3600, "CEST", Ghost(g))
        .step(560037600, 3600, 0, "CET", Ghost(g))
        .step(575852400, 3600, 3600, "CEST", Ghost(g))
        .step(591660000, 3600, 0, "CET", Ghost(g))
        .step(607388400, 3600, 3600, "CEST", Ghost(g))
        .step(623196000, 3600, 0, "CET", Ghost(g))
        .step(641775600, 7200, 0, "EET", Ghost(g))
        .step(844034400, 3600, 0, "CET", Ghost(g))
        .step(860108400, 3600, 3600, "CEST", Ghost(g))
        .step(875916000, 7200, 0, "EET", Ghost(g))
        .step(1352505600, 3600, 0, "CET", Ghost(g))
        .step(1364515200, 3600, 3600, "CEST", Ghost(g))
        .step(1382659200, 7200, 0, "EET", Ghost(g))
        .finish(Ghost(g))
}

/// The zone `MET`.
pub fn met() -> (r: Tz)
    ensures
        r.wf(),
        r.zone_name() == "MET"@,
        r.table() == tables::met(),
{
    let ghost g = tables::met_rows();
    FixedTimespanSet::begin("MET", 3600, 0, "MET", Ghost(g))
        .step(-1693706400, 3600, 3600, "MEST", Ghost(g))
        .step(-1680483600, 3600, 0, "MET", Ghost(g))
        .step(-1663455600, 3600, 3600, "MEST", Ghost(g))
        .step(-1650150000, 3600, 0, "MET", Ghost(g))
        .step(-1632006000, 3600, 3600, "MEST", Ghost(g))
        .step(-1618700400, 3600, 0, "MET", Ghost(g))
        .step(-938905200, 3600, 3600, "MEST", Ghost(g))
        .step(-857257200, 3600, 0, "MET", Ghost(g))
        .step(-844556400, 3600, 3600, "MEST", Ghost(g))
        .step(-828226800, 3600, 0, "MET", Ghost(g))
        .step(-812502000, 3600, 3600, "MEST", Ghost(g))
        .step(-796777200, 3600, 0, "MET", Ghost(g))
        .step(-781052400, 3600, 3600, "MEST", Ghost(g))
        .step(-766623600, 3600, 0, "MET", Ghost(g))
        .step(228877200, 3600, 3600, "MEST", Ghost(g))
        .step(243997200, 3600, 0, "MET", Ghost(g))
        .step(260326800, 3600, 3600, "MEST", Ghost(g))
        .step(276051600, 3600, 0, "MET", Ghost(g))
        .step(291776400, 3600, 3600, "MEST", Ghost(g))
        .step(307501200, 3600, 0, "MET", Ghost(g))
        .step(323830800, 3600, 3600, "MEST", Ghost(g))
        .step(338950800, 3600, 0, "MET", Ghost(g))
        .step(354675600, 3600, 3600, "MEST", Ghost(g))
        .step(370400400, 3600, 0, "MET", Ghost(g))
        .step(386125200, 3600, 3600, "MEST", Ghost(g))
        .step(401850000, 3600, 0, "MET", Ghost(g))
        .step(417574800, 3600, 3600, "MEST", Ghost(g))
        .step(433299600, 3600, 0, "MET", Ghost(g))
        .step(449024400, 3600, 3600, "MEST", Ghost(g))
        .step(465354000, 3600, 0, "MET", Ghost(g))
        .step(481078800, 3600, 3600, "MEST", Ghost(g))
        .step(496803600, 3600, 0, "MET", Ghost(g))
        .step(512528400, 3600, 3600, "MEST", Ghost(g))
        .step(528253200, 3600, 0, "MET", Ghost(g))
        .step(543978000, 3600, 3600, "MEST", Ghost(g))
        .step(559702800, 3600, 0, "MET", Ghost(g))
        .step(575427600, 3600, 3600, "MEST", Ghost(g))
        .step(591152400, 3600, 0, "MET", Ghost(g))
        .step(606877200, 3600, 3600, "MEST", Ghost(g))
        .step(622602000, 3600, 0, "MET", Ghost(g))
        .step(638326800, 3600, 3600, "MEST", Ghost(g))
        .step(654656400, 3600, 0, "MET", Ghost(g))
        .step(670381200, 3600, 3600, "MEST", Ghost(g))
        .step(686106000, 3600, 0, "MET", Ghost(g))
        .step(701830800, 3600, 3600, "MEST", Ghost(g))
        .step(717555600, 3600, 0, "MET", Ghost(g))
        .step(733280400, 3600, 3600, "MEST", Ghost(g))
        .step(749005200, 3600, 0, "MET", Ghost(g))
        .step(764730000, 3600, 3600, "MEST", Ghost(g))
        .step(780454800, 3600, 0, "MET", Ghost(g))
        .step(796179600, 3600, 3600, "MEST", Ghost(g))
        .step(811904400, 3600, 0, "MET", Ghost(g))
        .step(828234000, 3600, 3600, "MEST", Ghost(g))
        .step(846378000, 3600, 0, "MET", Ghost(g))
        .step(859683600, 3600, 3600, "MEST", Ghost(g))
        .step(877827600, 3600, 0, "MET", Ghost(g))
        .step(891133200, 3600, 3600, "MEST", Ghost(g))
        .step(909277200, 3600, 0, "MET", Ghost(g))
        .step(922582800, 3600, 3600, "MEST", Ghost(g))
        .step(941331600, 3600, 0, "MET", Ghost(g))
        .step(954032400, 3600, 3600, "MEST", Ghost(g))
        .step(972781200, 3600, 0, "MET", Ghost(g))
        .step(985482000, 3600, 3600, "MEST", Ghost(g))
        .step(1004230800, 3600, 0, "MET", Ghost(g))
        .step(1017536400, 3600, 3600, "MEST", Ghost(g))
        .step(1035680400, 3600, 0, "MET", Ghost(g))
        .step(1048986000, 3600, 3600, "MEST", Ghost(g))
        .step(1067130000, 3600, 0, "MET", Ghost(g))
        .step(1080435600, 3600, 3600, "MEST", Ghost(g))
        .step(1099184400, 3600, 0, "MET", Ghost(g))
        .step(1111885200, 3600, 3600, "MEST", Ghost(g))
        .step(1130634000, 3600, 0, "MET", Ghost(g))
        .step(1143334800, 3600, 3600, "MEST", Ghost(g))
        .step(1162083600, 3600, 0, "MET", Ghost(g))
        .step(1174784400, 3600, 3600, "MEST", Ghost(g))
        .step(1193533200, 3600, 0, "MET", Ghost(g))
        .step(1206838800, 3600, 3600, "MEST", Ghost(g))
        .step(1224982800, 3600, 0, "MET", Ghost(g))
        .step(1238288400, 3600, 3600, "MEST", Ghost(g))
        .step(1256432400, 3600, 0, "MET", Ghost(g))
        .step(1269738000, 3600, 3600, "MEST", Ghost(g))
        .step(1288486800, 3600, 0, "MET", Ghost(g))
        .step(1301187600, 3600, 3600, "MEST", Ghost(g))
        .step(1319936400, 3600, 0, "MET", Ghost(g))
        .step(1332637200, 3600, 3600, "MEST", Ghost(g))
        .step(1351386000, 3600, 0, "MET", Ghost(g))
        .step(1364691600, 3600, 3600, "MEST", Ghost(g))
        .step(1382835600, 3600, 0, "MET", Ghost(g))
        .step(1396141200, 3600, 3600, "MEST", Ghost(g))
        .step(1414285200, 3600, 0, "MET", Ghost(g))
        .step(1427590800, 3600, 3600, "MEST", Ghost(g))
        .step(1445734800, 3600, 0, "MET", Ghost(g))
        .step(1459040400, 3600, 3600, "MEST", Ghost(g))
        .step(1477789200, 3600, 0, "MET", Ghost(g))
        .step(1490490000, 3600, 3600, "MEST", Ghost(g))
        .step(1509238800, 3600, 0, "MET", Ghost(g))
        .step(1521939600, 3600, 3600, "MEST", Ghost(g))
        .step(1540688400, 3600, 0, "MET", Ghost(g))
        .step(1553994000, 3600, 3600, "MEST", Ghost(g))
        .step(1572138000, 3600, 0, "MET", Ghost(g))
        .step(1585443600, 3600, 3600, "MEST", Ghost(g))
        .step(1603587600, 3600, 0, "MET", Ghost(g))
        .step(1616893200, 3600, 3600, "MEST", Ghost(g))
        .step(1635642000, 3600, 0, "MET", Ghost(g))
        .step(1648342800, 3600, 3600, "MEST", Ghost(g))
        .step(1667091600, 3600, 0, "MET", Ghost(g))
        .step(1679792400, 3600, 3600, "MEST", Ghost(g))
        .step(1698541200, 3600, 0, "MET", Ghost(g))
        .step(1711846800, 3600, 3600, "MEST", Ghost(g))
        .step(1729990800, 3600, 0, "MET", Ghost(g))
        .step(1743296400, 3600, 3600, "MEST", Ghost(g))
        .step(1761440400, 3600, 0, "MET", Ghost(g))
        .step(1774746000, 3600, 3600, "MEST", Ghost(g))
        .step(1792890000, 3600, 0, "MET", Ghost(g))
        .step(1806195600, 3600, 3600, "MEST", Ghost(g))
        .step(1824944400, 3600, 0, "MET", Ghost(g))
        .step(1837645200, 3600, 3600, "MEST", Ghost(g))
        .step(1856394000, 3600, 0, "MET", Ghost(g))
        .step(1869094800, 3600, 3600, "MEST", Ghost(g))
        .step(1887843600, 3600, 0, "MET", Ghost(g))
        .step(1901149200, 3600, 3600, "MEST", Ghost(g))
        .step(1919293200, 3600, 0, "MET", Ghost(g))
        .step(1932598800, 3600, 3600, "MEST", Ghost(g))
        .step(1950742800, 3600, 0, "MET", Ghost(g))
        .step(1964048400, 3600, 3600, "MEST", Ghost(g))
        .step(1982797200, 3600, 0, "MET", Ghost(g))
        .step(1995498000, 3600, 3600, "MEST", Ghost(g))
        .step(2014246800, 3600, 0, "MET", Ghost(g))
        .step(2026947600, 3600, 3600, "MEST", Ghost(g))
        .step(2045696400, 3600, 0, "MET", Ghost(g))
        .step(2058397200, 3600, 3600, "MEST", Ghost(g))
        .step(2077146000, 3600, 0, "MET", Ghost(g))
        .step(2090451600, 3600, 3600, "MEST", Ghost(g))
        .step(2108595600, 3600, 0, "MET", Ghost(g))
        .step(2121901200, 3600, 3600, "MEST", Ghost(g))
        .step(2140045200, 3600, 0, "MET", Ghost(g))
        .finish(Ghost(g))
}

/// The zone `MST`.
pub fn mst() -> (r: Tz)
    ensures
        r.wf(),
        r.zone_name() == "MST"@,
        r.table() == tables::mst(),
{
    let ghost g = tables::mst_rows();
    FixedTimespanSet::begin("MST", -25200, 0, "MST", Ghost(g))
        .finish(Ghost(g))
}

/// The zone `MST7MDT`.
pub fn mst7mdt() -> (r: Tz)
    ensures
        r.wf(),
        r.zone_name() == "MST7MDT"@,
        r.table() == tables::mst7mdt(),
{
    let ghost g = tables::mst7mdt_rows();
    FixedTimespanSet::begin("MST7MDT", -25200, 0, "MST", Ghost(g))
        .step(-1633273200, -25200, 3600, "MDT", Ghost(g))
        .step(-1615132800, -25200, 0, "MST", Ghost(g))
        .step(-1601823600, -25200, 3600, "MDT", Ghost(g))
        .step(-1583683200, -25200, 0, "MST", Ghost(g))
        .step(-880210800, -25200, 3600, "MWT", Ghost(g))
        .step(-769395600, -25200, 3600, "MPT", Ghost(g))
        .step(-765388800, -25200, 0, "MST", Ghost(g))
        .step(-84380400, -25200, 3600, "MDT", Ghost(g))
        .step(-68659200, -25200, 0, "MST", Ghost(g))
        .step(-52930800, -25200, 3600, "MDT", Ghost(g))
        .step(-37209600, -25200, 0, "MST", Ghost(g))
        .step(-21481200, -25200, 3600, "MDT", Ghost(g))
        .step(-5760000, -25200, 0, "MST", Ghost(g))
        .step(9968400, -25200, 3600, "MDT", Ghost(g))
        .step(25689600, -25200, 0, "MST", Ghost(g))
        .step(41418000, -25200, 3600, "MDT", Ghost(g))
        .step(57744000, -25200, 0, "MST", Ghost(g))
        .step(73472400, -25200, 3600, "MDT", Ghost(g))
        .step(89193600, -25200, 0, "MST", Ghost(g))
        .step(104922000, -25200, 3600, "MDT", Ghost(g))
        .step(120643200, -25200, 0, "MST", Ghost(g))
        .step(126694800, -25200, 3600, "MDT", Ghost(g))
        .step(152092800, -25200, 0, "MST", Ghost(g))
        .step(162378000, -25200, 3600, "MDT", Ghost(g))
        .step(183542400, -25200, 0, "MST", Ghost(g))
        .step(199270800, -25200, 3600, "MDT", Ghost(g))
        .step(215596800, -25200, 0, "MST", Ghost(g))
        .step(230720400, -25200, 3600, "MDT", Ghost(g))
        .step(247046400, -25200, 0, "MST", Ghost(g))
        .step(262774800, -25200, 3600, "MDT", Ghost(g))
        .step(278496000, -25200, 0, "MST", Ghost(g))
        .step(294224400, -25200, 3600, "MDT", Ghost(g))
        .step(309945600, -25200, 0, "MST", Ghost(g))
        .step(325674000, -25200, 3600, "MDT", Ghost(g))
        .step(341395200, -25200, 0, "MST", Ghost(g))
        .step(357123600, -25200, 3600, "MDT", Ghost(g))
        .step(372844800, -25200, 0, "MST", Ghost(g))
        .step(388573200, -25200, 3600, "MDT", Ghost(g))
        .step(404899200, -25200, 0, "MST", Ghost(g))
        .step(420022800, -25200, 3600, "MDT", Ghost(g))
        .step(436348800, -25200, 0, "MST", Ghost(g))
        .step(452077200, -25200, 3600, "MDT", Ghost(g))
        .step(467798400, -25200, 0, "MST", Ghost(g))
        .step(483526800, -25200, 3600, "MDT", Ghost(g))
        .step(499248000, -25200, 0, "MST", Ghost(g))
        .step(514976400, -25200, 3600, "MDT", Ghost(g))
        .step(530697600, -25200, 0, "MST", Ghost(g))
        .step(544611600, -25200, 3600, "MDT", Ghost(g))
        .step(562147200, -25200, 0, "MST", Ghost(g))
        .step(576061200, -25200, 3600, "MDT", Ghost(g))
        .step(594201600, -25200, 0, "MST", Ghost(g))
        .step(607510800, -25200, 3600, "MDT", Ghost(g))
        .step(625651200, -25200, 0, "MST", Ghost(g))
        .step(638960400, -25200, 3600, "MDT", Ghost(g))
        .step(657100800, -25200, 0, "MST", Ghost(g))
        .step(671014800, -25200, 3600, "MDT", Ghost(g))
        .step(688550400, -25200, 0, "MST", Ghost(g))
        .step(702464400, -25200, 3600, "MDT", Ghost(g))
        .step(720000000, -25200, 0, "MST", Ghost(g))
        .step(733914000, -25200, 3600, "MDT", Ghost(g))
        .step(752054400, -25200, 0, "MST", Ghost(g))
        .step(765363600, -25200, 3600, "MDT", Ghost(g))
        .step(783504000, -25200, 0, "MST", Ghost(g))
        .step(796813200, -25200, 3600, "MDT", Ghost(g))
        .step(814953600, -25200, 0, "MST", Ghost(g))
        .step(828867600, -25200, 3600, "MDT", Ghost(g))
        .step(846403200, -25200, 0, "MST", Ghost(g))
        .step(860317200, -25200, 3600, "MDT", Ghost(g))
        .step(877852800, -25200, 0, "MST", Ghost(g))
        .step(891766800, -25200, 3600, "MDT", Ghost(g))
        .step(909302400, -25200, 0, "MST", Ghost(g))
        .step(923216400, -25200, 3600, "MDT", Ghost(g))
        .step(941356800, -25200, 0, "MST", Ghost(g))
        .step(954666000, -25200, 3600, "MDT", Ghost(g))
        .step(972806400, -25200, 0, "MST", Ghost(g))
        .step(986115600, -25200, 3600, "MDT", Ghost(g))
        .step(1004256000, -25200, 0, "MST", Ghost(g))
        .step(1018170000, -25200, 3600, "MDT", Ghost(g))
        .step(1035705600, -25200, 0, "MST", Ghost(g))
        .step(1049619600, -25200, 3600, "MDT", Ghost(g))
        .step(1067155200, -25200, 0, "MST", Ghost(g))
        .step(1081069200, -25200, 3600, "MDT", Ghost(g))
        .step(1099209600, -25200, 0, "MST", Ghost(g))
        .step(1112518800, -25200, 3600, "MDT", Ghost(g))
        .step(1130659200, -25200, 0, "MST", Ghost(g))
        .step(1143968400, -25200, 3600, "MDT", Ghost(g))
        .step(1162108800, -25200, 0, "MST", Ghost(g))
        .step(1173603600, -25200, 3600, "MDT", Ghost(g))
        .step(1194163200, -25200, 0, "MST", Ghost(g))
        .step(1205053200, -25200, 3600, "MDT", Ghost(g))
        .step(1225612800, -25200, 0, "MST", Ghost(g))
        .step(1236502800, -25200, 3600, "MDT", Ghost(g))
        .step(1257062400, -25200, 0, "MST", Ghost(g))
        .step(1268557200, -25200, 3600, "MDT", Ghost(g))
        .step(1289116800, -25200, 0, "MST", Ghost(g))
        .step(1300006800, -25200, 3600, "MDT", Ghost(g))
        .step(1320566400, -25200, 0, "MST", Ghost(g))
        .step(1331456400, -25200, 3600, "MDT", Ghost(g))
        .step(1352016000, -25200, 0, "MST", Ghost(g))
        .step(1362906000, -25200, 3600, "MDT", Ghost(g))
        .step(1383465600, -25200, 0, "MST", Ghost(g))
        .step(1394355600, -25200, 3600, "MDT", Ghost(g))
        .step(1414915200, -25200, 0, "MST", Ghost(g))
        .step(1425805200, -25200, 3600, "MDT", Ghost(g))
        .step(1446364800, -25200, 0, "MST", Ghost(g))
        .step(1457859600, -25200, 3600, "MDT", Ghost(g))
        .step(1478419200, -25200, 0, "MST", Ghost(g))
        .step(1489309200, -25200, 3600, "MDT", Ghost(g))
        .step(1509868800, -25200, 0, "MST", Ghost(g))
        .step(1520758800, -25200, 3600, "MDT", Ghost(g))
        .step(1541318400, -25200, 0, "MST", Ghost(g))
        .step(1552208400, -25200, 3600, "MDT", Ghost(g))
        .step(1572768000, -25200, 0, "MST", Ghost(g))
        .step(1583658000, -25200, 3600, "MDT", Ghost(g))
        .step(1604217600, -25200, 0, "MST", Ghost(g))
        .step(1615712400, -25200, 3600, "MDT", Ghost(g))
        .step(1636272000, -25200, 0, "MST", Ghost(g))
        .step(1647162000, -25200, 3600, "MDT", Ghost(g))
        .step(1667721600, -25200, 0, "MST", Ghost(g))
        .step(1678611600, -25200, 3600, "MDT", Ghost(g))
        .step(1699171200, -25200, 0, "MST", Ghost(g))
        .step(1710061200, -25200, 3600, "MDT", Ghost(g))
        .step(1730620800, -25200, 0, "MST", Ghost(g))
        .step(1741510800, -25200, 3600, "MDT", Ghost(g))
        .step(1762070400, -25200, 0, "MST", Ghost(g))
        .step(1772960400, -25200, 3600, "MDT", Ghost(g))
        .step(1793520000, -25200, 0, "MST", Ghost(g))
        .step(1805014800, -25200, 3600, "MDT", Ghost(g))
        .step(1825574400, -25200, 0, "MST", Ghost(g))
        .step(1836464400, -25200, 3600, "MDT", Ghost(g))
        .step(1857024000, -25200, 0, "MST", Ghost(g))
        .step(1867914000, -25200, 3600, "MDT", Ghost(g))
        .step(1888473600, -25200, 0, "MST", Ghost(g))
        .step(1899363600, -25200, 3600, "MDT", Ghost(g))
        .step(1919923200, -25200, 0, "MST", Ghost(g))
        .step(1930813200, -25200, 3600, "MDT", Ghost(g))
        .step(1951372800, -25200, 0, "MST", Ghost(g))
        .step(1962867600, -25200, 3600, "MDT", Ghost(g))
        .step(1983427200, -25200, 0, "MST", Ghost(g))
        .step(1994317200, -25200, 3600, "MDT", Ghost(g))
        .step(2014876800, -25200, 0, "MST", Ghost(g))
        .step(2025766800, -25200, 3600, "MDT", Ghost(g))
        .step(2046326400, -25200, 0, "MST", Ghost(g))
        .step(2057216400, -25200, 3600, "MDT", Ghost(g))
        .step(2077776000, -25200, 0, "MST", Ghost(g))
        .step(2088666000, -25200, 3600, "MDT", Ghost(g))
        .step(2109225600, -25200, 0, "MST", Ghost(g))
        .step(2120115600, -25200, 3600, "MDT", Ghost(g))
        .step(2140675200, -25200, 0, "MST", Ghost(g))
        .finish(Ghost(g))
}

/// The zone `NZ`.
pub fn nz() -> (r: Tz)
    ensures
        r.wf(),
        r.zone_name() == "NZ"@,
        r.table() == tables::nz(),
{
    let ghost g = tables::nz_rows();
    FixedTimespanSet::begin("NZ", 41944, 0, "LMT", Ghost(g))
        .step(-3192435544, 41400, 0, "NZMT", Ghost(g))
        .step(-1330335000, 41400, 3600, "NZST", Ghost(g))
        .step(-1320057000, 41400, 0, "NZMT", Ghost(g))
        .step(-1300699800, 41400, 1800, "NZST", Ghost(g))
        .step(-1287396000, 41400, 0, "NZMT", Ghost(g))
        .step(-1269250200, 41400, 1800, "NZST", Ghost(g))
        .step(-1255946400, 41400, 0, "NZMT", Ghost(g))
        .step(-1237800600, 41400, 1800, "NZST", Ghost(g))
        .step(-1224496800, 41400, 0, "NZMT", Ghost(g))
        .step(-1206351000, 41400, 1800, "NZST", Ghost(g))
        .step(-1192442400, 41400, 0, "NZMT", Ghost(g))
        .step(-1174901400, 41400, 1800, "NZST", Ghost(g))
        .step(-1160992800, 41400, 0, "NZMT", Ghost(g))
        .step(-1143451800, 41400, 1800, "NZST", Ghost(g))
        .step(-1125914400, 41400, 0, "NZMT", Ghost(g))
        .step(-1112607000, 41400, 1800, "NZST", Ghost(g))
        .step(-1094464800, 41400, 0, "NZMT", Ghost(g))
        .step(-1081157400, 41400, 1800, "NZST", Ghost(g))
        .step(-1063015200, 41400, 0, "NZMT", Ghost(g))
        .step(-1049707800, 41400, 1800, "NZST", Ghost(g))
        .step(-1031565600, 41400, 0, "NZMT", Ghost(g))
        .step(-1018258200, 41400, 1800, "NZST", Ghost(g))
        .step(-1000116000, 41400, 0, "NZMT", Ghost(g))
        .step(-986808600, 41400, 1800, "NZST", Ghost(g))
        .step(-968061600, 41400, 0, "NZMT", Ghost(g))
        .step(-955359000, 41400, 1800, "NZST", Ghost(g))
        .step(-936612000, 41400, 0, "NZMT", Ghost(g))
        .step(-923304600, 41400, 1800, "NZST", Ghost(g))
        .step(-757425600, 43200, 0, "NZST", Ghost(g))
        .step(152632800, 43200, 3600, "NZDT", Ghost(g))
        .step(162309600, 43200, 0, "NZST", Ghost(g))
        .step(183477600, 43200, 3600, "NZDT", Ghost(g))
        .step(194968800, 43200, 0, "NZST", Ghost(g))
        .step(215532000, 43200, 3600, "NZDT", Ghost(g))
        .step(226418400, 43200, 0, "NZST", Ghost(g))
        .step(246981600, 43200, 3600, "NZDT", Ghost(g))
        .step(257868000, 43200, 0, "NZST", Ghost(g))
        .step(278431200, 43200, 3600, "NZDT", Ghost(g))
        .step(289317600, 43200, 0, "NZST", Ghost(g))
        .step(309880800, 43200, 3600, "NZDT", Ghost(g))
        .step(320767200, 43200, 0, "NZST", Ghost(g))
        .step(341330400, 43200, 3600, "NZDT", Ghost(g))
        .step(352216800, 43200, 0, "NZST", Ghost(g))
        .step(372780000, 43200, 3600, "NZDT", Ghost(g))
        .step(384271200, 43200, 0, "NZST", Ghost(g))
        .step(404834400, 43200, 3600, "NZDT", Ghost(g))
        .step(415720800, 43200, 0, "NZST", Ghost(g))
        .step(436284000, 43200, 3600, "NZDT", Ghost(g))
        .step(447170400, 43200, 0, "NZST", Ghost(g))
        .step(467733600, 43200, 3600, "NZDT", Ghost(g))
        .step(478620000, 43200, 0, "NZST", Ghost(g))
        .step(499183200, 43200, 3600, "NZDT", Ghost(g))
        .step(510069600, 43200, 0, "NZST", Ghost(g))
        .step(530632800, 43200, 3600, "NZDT", Ghost(g))
        .step(541519200, 43200, 0, "NZST", Ghost(g))
        .step(562082400, 43200, 3600, "NZDT", Ghost(g))
        .step(573573600, 43200, 0, "NZST", Ghost(g))
        .step(594136800, 43200, 3600, "NZDT", Ghost(g))
        .step(605023200, 43200, 0, "NZST", Ghost(g))
        .step(623772000, 43200, 3600, "NZDT", Ghost(g))
        .step(637682400, 43200, 0, "NZST", Ghost(g))
        .step(655221600, 43200, 3600, "NZDT", Ghost(g))
        .step(669132000, 43200, 0, "NZST", Ghost(g))
        .step(686671200, 43200, 3600, "NZDT", Ghost(g))
        .step(700581600, 43200, 0, "NZST", Ghost(g))
        .step(718120800, 43200, 3600, "NZDT", Ghost(g))
        .step(732636000, 43200, 0, "NZST", Ghost(g))
        .step(749570400, 43200, 3600, "NZDT", Ghost(g))
        .step(764085600, 43200, 0, "NZST", Ghost(g))
        .step(781020000, 43200, 3600, "NZDT", Ghost(g))
        .step(795535200, 43200, 0, "NZST", Ghost(g))
        .step(812469600, 43200, 3600, "NZDT", Ghost(g))
        .step(826984800, 43200, 0, "NZST", Ghost(g))
        .step(844524000, 43200, 3600, "NZDT", Ghost(g))
        .step(858434400, 43200, 0, "NZST", Ghost(g))
        .step(875973600, 43200, 3600, "NZDT", Ghost(g))
        .step(889884000, 43200, 0, "NZST", Ghost(g))
        .step(907423200, 43200, 3600, "NZDT", Ghost(g))
        .step(921938400, 43200, 0, "NZST", Ghost(g))
        .step(938872800, 43200, 3600, "NZDT", Ghost(g))
        .step(953388000, 43200, 0, "NZST", Ghost(g))
        .step(970322400, 43200, 3600, "NZDT", Ghost(g))
        .step(984837600, 43200, 0, "NZST", Ghost(g))
        .step(1002376800, 43200, 3600, "NZDT", Ghost(g))
        .step(1016287200, 43200, 0, "NZST", Ghost(g))
        .step(1033826400, 43200, 3600, "NZDT", Ghost(g))
        .step(1047736800, 43200, 0, "NZST", Ghost(g))
        .step(1065276000, 43200, 3600, "NZDT", Ghost(g))
        .step(1079791200, 43200, 0, "NZST", Ghost(g))
        .step(1096725600, 43200, 3600, "NZDT", Ghost(g))
        .step(1111240800, 43200, 0, "NZST", Ghost(g))
        .step(1128175200, 43200, 3600, "NZDT", Ghost(g))
        .step(1142690400, 43200, 0, "NZST", Ghost(g))
        .step(1159624800, 43200, 3600, "NZDT", Ghost(g))
        .step(1174140000, 43200, 0, "NZST", Ghost(g))
        .step(1191074400, 43200, 3600, "NZDT", Ghost(g))
        .step(1207404000, 43200, 0, "NZST", Ghost(g))
        .step(1222524000, 43200, 3600, "NZDT", Ghost(g))
        .step(1238853600, 43200, 0, "NZST", Ghost(g))
        .step(1253973600, 43200, 3600, "NZDT", Ghost(g))
        .step(1270303200, 43200, 0, "NZST", Ghost(g))
        .step(1285423200, 43200, 3600, "NZDT", Ghost(g))
        .step(1301752800, 43200, 0, "NZST", Ghost(g))
        .step(1316872800, 43200, 3600, "NZDT", Ghost(g))
        .step(1333202400, 43200, 0, "NZST", Ghost(g))
        .step(1348927200, 43200, 3600, "NZDT", Ghost(g))
        .step(1365256800, 43200, 0, "NZST", Ghost(g))
        .step(1380376800, 43200, 3600, "NZDT", Ghost(g))
        .step(1396706400, 43200, 0, "NZST", Ghost(g))
        .step(1411826400, 43200, 3600, "NZDT", Ghost(g))
        .step(1428156000, 43200, 0, "NZST", Ghost(g))
        .step(1443276000, 43200, 3600, "NZDT", Ghost(g))
        .step(1459605600, 43200, 0, "NZST", Ghost(g))
        .step(1474725600, 43200, 3600, "NZDT", Ghost(g))
        .step(1491055200, 43200, 0, "NZST", Ghost(g))
        .step(1506175200, 43200, 3600, "NZDT", Ghost(g))
        .step(1522504800, 43200, 0, "NZST", Ghost(g))
        .step(1538229600, 43200, 3600, "NZDT", Ghost(g))
        .step(1554559200, 43200, 0, "NZST", Ghost(g))
        .step(1569679200, 43200, 3600, "NZDT", Ghost(g))
        .step(1586008800, 43200, 0, "NZST", Ghost(g))
        .step(1601128800, 43200, 3600, "NZDT", Ghost(g))
        .step(1617458400, 43200, 0, "NZST", Ghost(g))
        .step(1632578400, 43200, 3600, "NZDT", Ghost(g))
        .step(1648908000, 43200, 0, "NZST", Ghost(g))
        .step(1664028000, 43200, 3600, "NZDT", Ghost(g))
        .step(1680357600, 43200, 0, "NZST", Ghost(g))
        .step(1695477600, 43200, 3600, "NZDT", Ghost(g))
        .step(1712412000, 43200, 0, "NZST", Ghost(g))
        .step(1727532000, 43200, 3600, "NZDT", Ghost(g))
        .step(1743861600, 43200, 0, "NZST", Ghost(g))
        .step(1758981600, 43200, 3600, "NZDT", Ghost(g))
        .step(1775311200, 43200, 0, "NZST", Ghost(g))
        .step(1790431200, 43200, 3600, "NZDT", Ghost(g))
        .step(1806760800, 43200, 0, "NZST", Ghost(g))
        .step(1821880800, 43200, 3600, "NZDT", Ghost(g))
        .step(1838210400, 43200, 0, "NZST", Ghost(g))
        .step(1853330400, 43200, 3600, "NZDT", Ghost(g))
        .step(1869660000, 43200, 0, "NZST", Ghost(g))
        .step(1885384800, 43200, 3600, "NZDT", Ghost(g))
        .step(1901714400, 43200, 0, "NZST", Ghost(g))
        .step(1916834400, 43200, 3600, "NZDT", Ghost(g))
        .step(1933164000, 43200, 0, "NZST", Ghost(g))
        .step(1948284000, 43200, 3600, "NZDT", Ghost(g))
        .step(1964613600, 43200, 0, "NZST", Ghost(g))
        .step(1979733600, 43200, 3600, "NZDT", Ghost(g))
        .step(1996063200, 43200, 0, "NZST", Ghost(g))
        .step(2011183200, 43200, 3600, "NZDT", Ghost(g))
        .step(2027512800, 43200, 0, "NZST", Ghost(g))
        .step(2042632800, 43200, 3600, "NZDT", Ghost(g))
        .step(2058962400, 43200, 0, "NZST", Ghost(g))
        .step(2074687200, 43200, 3600, "NZDT", Ghost(g))
        .step(2091016800, 43200, 0, "NZST", Ghost(g))
        .step(2106136800, 43200, 3600, "NZDT", Ghost(g))
        .step(2122466400, 43200, 0, "NZST", Ghost(g))
        .step(2137586400, 43200, 3600, "NZDT", Ghost(g))
        .finish(Ghost(g))
}

/// The zone `NZ-CHAT`.
pub fn nz_chat() -> (r: Tz)
    ensures
        r.wf(),
        r.zone_name() == "NZ-CHAT"@,
        r.table() == tables::nz_chat(),
{
    let ghost g = tables::nz_chat_rows();
    FixedTimespanSet::begin("NZ-CHAT", 44028, 0, "LMT", Ghost(g))
        .step(-3192437628, 44100, 0, "+1215", Ghost(g))
        .step(-757426500, 45900, 0, "+1245", Ghost(g))
        .step(152632800, 45900, 3600, "+1345", Ghost(g))
        .step(162309600, 45900, 0, "+1245", Ghost(g))
        .step(183477600, 45900, 3600, "+1345", Ghost(g))
        .step(194968800, 45900, 0, "+1245", Ghost(g))
        .step(215532000, 45900, 3600, "+1345", Ghost(g))
        .step(226418400, 45900, 0, "+1245", Ghost(g))
        .step(246981600, 45900, 3600, "+1345", Ghost(g))
        .step(257868000, 45900, 0, "+1245", Ghost(g))
        .step(278431200, 45900, 3600, "+1345", Ghost(g))
        .step(289317600, 45900, 0, "+1245", Ghost(g))
        .step(309880800, 45900, 3600, "+1345", Ghost(g))
        .step(320767200, 45900, 0, "+1245", Ghost(g))
        .step(341330400, 45900, 3600, "+1345", Ghost(g))
        .step(352216800, 45900, 0, "+1245", Ghost(g))
        .step(372780000, 45900, 3600, "+1345", Ghost(g))
        .step(384271200, 45900, 0, "+1245", Ghost(g))
        .step(404834400, 45900, 3600, "+1345", Ghost(g))
        .step(415720800, 45900, 0, "+1245", Ghost(g))
        .step(436284000, 45900, 3600, "+1345", Ghost(g))
        .step(447170400, 45900, 0, "+1245", Ghost(g))
        .step(467733600, 45900, 3600, "+1345", Ghost(g))
        .step(478620000, 45900, 0, "+1245", Ghost(g))
        .step(499183200, 45900, 3600, "+1345", Ghost(g))
        .step(510069600, 45900, 0, "+1245", Ghost(g))
        .step(530632800, 45900, 3600, "+1345", Ghost(g))
        .step(541519200, 45900, 0, "+1245", Ghost(g))
        .step(562082400, 45900, 3600, "+1345", Ghost(g))
        .step(573573600, 45900, 0, "+1245", Ghost(g))
        .step(594136800, 45900, 3600, "+1345", Ghost(g))
        .step(605023200, 45900, 0, "+1245", Ghost(g))
        .step(623772000, 45900, 3600, "+1345", Ghost(g))
        .step(637682400, 45900, 0, "+1245", Ghost(g))
        .step(655221600, 45900, 3600, "+1345", Ghost(g))
        .step(669132000, 45900, 0, "+1245", Ghost(g))
        .step(686671200, 45900, 3600, "+1345", Ghost(g))
        .step(700581600, 45900, 0, "+1245", Ghost(g))
        .step(718120800, 45900, 3600, "+1345", Ghost(g))
        .step(732636000, 45900, 0, "+1245", Ghost(g))
        .step(749570400, 45900, 3600, "+1345", Ghost(g))
        .step(764085600, 45900, 0, "+1245", Ghost(g))
        .step(781020000, 45900, 3600, "+1345", Ghost(g))
        .step(795535200, 45900, 0, "+1245", Ghost(g))
        .step(812469600, 45900, 3600, "+1345", Ghost(g))
        .step(826984800, 45900, 0, "+1245", Ghost(g))
        .step(844524000, 45900, 3600, "+1345", Ghost(g))
        .step(858434400, 45900, 0, "+1245", Ghost(g))
        .step(875973600, 45900, 3600, "+1345", Ghost(g))
        .step(889884000, 45900, 0, "+1245", Ghost(g))
        .step(907423200, 45900, 3600, "+1345", Ghost(g))
        .step(921938400, 45900, 0, "+1245", Ghost(g))
        .step(938872800, 45900, 3600, "+1345", Ghost(g))
        .step(953388000, 45900, 0, "+1245", Ghost(g))
        .step(970322400, 45900, 3600, "+1345", Ghost(g))
        .step(984837600, 45900, 0, "+1245", Ghost(g))
        .step(1002376800, 45900, 3600, "+1345", Ghost(g))
        .step(1016287200, 45900, 0, "+1245", Ghost(g))
        .step(1033826400, 45900, 3600, "+1345", Ghost(g))
        .step(1047736800, 45900, 0, "+1245", Ghost(g))
        .step(1065276000, 45900, 3600, "+1345", Ghost(g))
        .step(1079791200, 45900, 0, "+1245", Ghost(g))
        .step(1096725600, 45900, 3600, "+1345", Ghost(g))
        .step(1111240800, 45900, 0, "+1245", Ghost(g))
        .step(1128175200, 45900, 3600, "+1345", Ghost(g))
        .step(1142690400, 45900, 0, "+1245", Ghost(g))
        .step(1159624800, 45900, 3600, "+1345", Ghost(g))
        .step(1174140000, 45900, 0, "+1245", Ghost(g))
        .step(1191074400, 45900, 3600, "+1345", Ghost(g))
        .step(1207404000, 45900, 0, "+1245", Ghost(g))
        .step(1222524000, 45900, 3600, "+1345", Ghost(g))
        .step(1238853600, 45900, 0, "+1245", Ghost(g))
        .step(1253973600, 45900, 3600, "+1345", Ghost(g))
        .step(1270303200, 45900, 0, "+1245", Ghost(g))
        .step(1285423200, 45900, 3600, "+1345", Ghost(g))
        .step(1301752800, 45900, 0, "+1245", Ghost(g))
        .step(1316872800, 45900, 3600, "+1345", Ghost(g))
        .step(1333202400, 45900, 0, "+1245", Ghost(g))
        .step(1348927200, 45900, 3600, "+1345", Ghost(g))
        .step(1365256800, 45900, 0, "+1245", Ghost(g))
        .step(1380376800, 45900, 3600, "+1345", Ghost(g))
        .step(1396706400, 45900, 0, "+1245", Ghost(g))
        .step(1411826400, 45900, 3600, "+1345", Ghost(g))
        .step(1428156000, 45900, 0, "+1245", Ghost(g))
        .step(1443276000, 45900, 3600, "+1345", Ghost(g))
        .step(1459605600, 45900, 0, "+1245", Ghost(g))
        .step(1474725600, 45900, 3600, "+1345", Ghost(g))
        .step(1491055200, 45900, 0, "+1245", Ghost(g))
        .step(1506175200, 45900, 3600, "+1345", Ghost(g))
        .step(1522504800, 45900, 0, "+1245", Ghost(g))
        .step(1538229600, 45900, 3600, "+1345", Ghost(g))
        .step(1554559200, 45900, 0, "+1245", Ghost(g))
        .step(1569679200, 45900, 3600, "+1345", Ghost(g))
        .step(1586008800, 45900, 0, "+1245", Ghost(g))
        .step(1601128800, 45900, 3600, "+1345", Ghost(g))
        .step(1617458400, 45900, 0, "+1245", Ghost(g))
        .step(1632578400, 45900, 3600, "+1345", Ghost(g))
        .step(1648908000, 45900, 0, "+1245", Ghost(g))
        .step(1664028000, 45900, 3600, "+1345", Ghost(g))
        .step(1680357600, 45900, 0, "+1245", Ghost(g))
        .step(1695477600, 45900, 3600, "+1345", Ghost(g))
        .step(1712412000, 45900, 0, "+1245", Ghost(g))
        .step(1727532000, 45900, 3600, "+1345", Ghost(g))
        .step(1743861600, 45900, 0, "+1245", Ghost(g))
        .step(1758981600, 45900, 3600, "+1345", Ghost(g))
        .step(1775311200, 45900, 0, "+1245", Ghost(g))
        .step(1790431200, 45900, 3600, "+1345", Ghost(g))
        .step(1806760800, 45900, 0, "+1245", Ghost(g))
        .step(1821880800, 45900, 3600, "+1345", Ghost(g))
        .step(1838210400, 45900, 0, "+1245", Ghost(g))
        .step(1853330400, 45900, 3600, "+1345", Ghost(g))
        .step(1869660000, 45900, 0, "+1245", Ghost(g))
        .step(1885384800, 45900, 3600, "+1345", Ghost(g))
        .step(1901714400, 45900, 0, "+1245", Ghost(g))
        .step(1916834400, 45900, 3600, "+1345", Ghost(g))
        .step(1933164000, 45900, 0, "+1245", Ghost(g))
        .step(1948284000, 45900, 3600, "+1345", Ghost(g))
        .step(1964613600, 45900, 0, "+1245", Ghost(g))
        .step(1979733600, 45900, 3600, "+1345", Ghost(g))
        .step(1996063200, 45900, 0, "+1245", Ghost(g))
        .step(2011183200, 45900, 3600, "+1345", Ghost(g))
        .step(2027512800, 45900, 0, "+1245", Ghost(g))
        .step(2042632800, 45900, 3600, "+1345", Ghost(g))
        .step(2058962400, 45900, 0, "+1245", Ghost(g))
        .step(2074687200, 45900, 3600, "+1345", Ghost(g))
        .step(2091016800, 45900, 0, "+1245", Ghost(g))
        .step(2106136800, 45900, 3600, "+1345", Ghost(g))
        .step(2122466400, 45900, 0, "+1245", Ghost(g))
        .step(2137586400, 45900, 3600, "+1345", Ghost(g))
        .step(2147483647, 45900, 3600, "+1345", Ghost(g))
        .finish(Ghost(g))
}

/// The zone `Navajo`.
pub fn navajo() -> (r: Tz)
    ensures
        r.wf(),
        r.zone_name() == "Navajo"@,
        r.table() == tables::navajo(),
{
    let ghost g = tables::navajo_rows();
    FixedTimespanSet::begin("Navajo", -25196, 0, "LMT", Ghost(g))
        .step(-2717643600, -25200, 0, "MST", Ghost(g))
        .step(-1633273200, -25200, 3600, "MDT", Ghost(g))
        .step(-1615132800, -25200, 0, "MST", Ghost(g))
        .step(-1601823600, -25200, 3600, "MDT", Ghost(g))
        .step(-1583683200, -25200, 0, "MST", Ghost(g))
        .step(-1570374000, -25200, 3600, "MDT", Ghost(g))
        .step(-1551628800, -25200, 0, "MST", Ghost(g))
        .step(-1538924400, -25200, 3600, "MDT", Ghost(g))
        .step(-1534089600, -25200, 0, "MST", Ghost(g))
        .step(-880210800, -25200, 3600, "MWT", Ghost(g))
        .step(-769395600, -25200, 3600, "MPT", Ghost(g))
        .step(-765388800, -25200, 0, "MST", Ghost(g))
        .step(-147884400, -25200, 3600, "MDT", Ghost(g))
        .step(-131558400, -25200, 0, "MST", Ghost(g))
        .step(-116434800, -25200, 3600, "MDT", Ghost(g))
        .step(-100108800, -25200, 0, "MST", Ghost(g))
        .step(-84380400, -25200, 3600, "MDT", Ghost(g))
        .step(-68659200, -25200, 0, "MST", Ghost(g))
        .step(-52930800, -25200, 3600, "MDT", Ghost(g))
        .step(-37209600, -25200, 0, "MST", Ghost(g))
        .step(-21481200, -25200, 3600, "MDT", Ghost(g))
        .step(-5760000, -25200, 0, "MST", Ghost(g))
        .step(9968400, -25200, 3600, "MDT", Ghost(g))
        .step(25689600, -25200, 0, "MST", Ghost(g))
        .step(41418000, -25200, 3600, "MDT", Ghost(g))
        .step(57744000, -25200, 0, "MST", Ghost(g))
        .step(73472400, -25200, 3600, "MDT", Ghost(g))
        .step(89193600, -25200, 0, "MST", Ghost(g))
        .step(104922000, -25200, 3600, "MDT", Ghost(g))
        .step(120643200, -25200, 0, "MST", Ghost(g))
        .step(126694800, -25200, 3600, "MDT", Ghost(g))
        .step(152092800, -25200, 0, "MST", Ghost(g))
        .step(162378000, -25200, 3600, "MDT", Ghost(g))
        .step(183542400, -25200, 0, "MST", Ghost(g))
        .step(199270800, -25200, 3600, "MDT", Ghost(g))
        .step(215596800, -25200, 0, "MST", Ghost(g))
        .step(230720400, -25200, 3600, "MDT", Ghost(g))
        .step(247046400, -25200, 0, "MST", Ghost(g))
        .step(262774800, -25200, 3600, "MDT", Ghost(g))
        .step(278496000, -25200, 0, "MST", Ghost(g))
        .step(294224400, -25200, 3600, "MDT", Ghost(g))
        .step(309945600, -25200, 0, "MST", Ghost(g))
        .step(325674000, -25200, 3600, "MDT", Ghost(g))
        .step(341395200, -25200, 0, "MST", Ghost(g))
        .step(357123600, -25200, 3600, "MDT", Ghost(g))
        .step(372844800, -25200, 0, "MST", Ghost(g))
        .step(388573200, -25200, 3600, "MDT", Ghost(g))
        .step(404899200, -25200, 0, "MST", Ghost(g))
        .step(420022800, -25200, 3600, "MDT", Ghost(g))
        .step(436348800, -25200, 0, "MST", Ghost(g))
        .step(452077200, -25200, 3600, "MDT", Ghost(g))
        .step(467798400, -25200, 0, "MST", Ghost(g))
        .step(483526800, -25200, 3600, "MDT", Ghost(g))
        .step(499248000, -25200, 0, "MST", Ghost(g))
        .step(514976400, -25200, 3600, "MDT", Ghost(g))
        .step(530697600, -25200, 0, "MST", Ghost(g))
        .step(544611600, -25200, 3600, "MDT", Ghost(g))
        .step(562147200, -25200, 0, "MST", Ghost(g))
        .step(576061200, -25200, 3600, "MDT", Ghost(g))
        .step(594201600, -25200, 0, "MST", Ghost(g))
        .step(607510800, -25200, 3600, "MDT", Ghost(g))
        .step(625651200, -25200, 0, "MST", Ghost(g))
        .step(638960400, -25200, 3600, "MDT", Ghost(g))
        .step(657100800, -25200, 0, "MST", Ghost(g))
        .step(671014800, -25200, 3600, "MDT", Ghost(g))
        .step(688550400, -25200, 0, "MST", Ghost(g))
        .step(702464400, -25200, 3600, "MDT", Ghost(g))
        .step(720000000, -25200, 0, "MST", Ghost(g))
        .step(733914000, -25200, 3600, "MDT", Ghost(g))
        .step(752054400, -25200, 0, "MST", Ghost(g))
        .step(765363600, -25200, 3600, "MDT", Ghost(g))
        .step(783504000, -25200, 0, "MST", Ghost(g))
        .step(796813200, -25200, 3600, "MDT", Ghost(g))
        .step(814953600, -25200, 0, "MST", Ghost(g))
        .step(828867600, -25200, 3600, "MDT", Ghost(g))
        .step(846403200, -25200, 0, "MST", Ghost(g))
        .step(860317200, -25200, 3600, "MDT", Ghost(g))
        .step(877852800, -25200, 0, "MST", Ghost(g))
        .step(891766800, -25200, 3600, "MDT", Ghost(g))
        .step(909302400, -25200, 0, "MST", Ghost(g))
        .step(923216400, -25200, 3600, "MDT", Ghost(g))
        .step(941356800, -25200, 0, "MST", Ghost(g))
        .step(954666000, -25200, 3600, "MDT", Ghost(g))
        .step(972806400, -25200, 0, "MST", Ghost(g))
        .step(986115600, -25200, 3600, "MDT", Ghost(g))
        .step(1004256000, -25200, 0, "MST", Ghost(g))
        .step(1018170000, -25200, 3600, "MDT", Ghost(g))
        .step(1035705600, -25200, 0, "MST", Ghost(g))
        .step(1049619600, -25200, 3600, "MDT", Ghost(g))
        .step(1067155200, -25200, 0, "MST", Ghost(g))
        .step(1081069200, -25200, 3600, "MDT", Ghost(g))
        .step(1099209600, -25200, 0, "MST", Ghost(g))
        .step(1112518800, -25200, 3600, "MDT", Ghost(g))
        .step(1130659200, -25200, 0, "MST", Ghost(g))
        .step(1143968400, -25200, 3600, "MDT", Ghost(g))
        .step(1162108800, -25200, 0, "MST", Ghost(g))
        .step(1173603600, -25200, 3600, "MDT", Ghost(g))
        .step(1194163200, -25200, 0, "MST", Ghost(g))
        .step(1205053200, -25200, 3600, "MDT", Ghost(g))
        .step(1225612800, -25200, 0, "MST", Ghost(g))
        .step(1236502800, -25200, 3600, "MDT", Ghost(g))
        .step(1257062400, -25200, 0, "MST", Ghost(g))
        .step(1268557200, -25200, 3600, "MDT", Ghost(g))
        .step(1289116800, -25200, 0, "MST", Ghost(g))
        .step(1300006800, -25200, 3600, "MDT", Ghost(g))
        .step(1320566400, -25200, 0, "MST", Ghost(g))
        .step(1331456400, -25200, 3600, "MDT", Ghost(g))
        .step(1352016000, -25200, 0, "MST", Ghost(g))
        .step(1362906000, -25200, 3600, "MDT", Ghost(g))
        .step(1383465600, -25200, 0, "MST", Ghost(g))
        .step(1394355600, -25200, 3600, "MDT", Ghost(g))
        .step(1414915200, -25200, 0, "MST", Ghost(g))
        .step(1425805200, -25200, 3600, "MDT", Ghost(g))
        .step(1446364800, -25200, 0, "MST", Ghost(g))
        .step(1457859600, -25200, 3600, "MDT", Ghost(g))
        .step(1478419200, -25200, 0, "MST", Ghost(g))
        .step(1489309200, -25200, 3600, "MDT", Ghost(g))
        .step(1509868800, -25200, 0, "MST", Ghost(g))
        .step(1520758800, -25200, 3600, "MDT", Ghost(g))
        .step(1541318400, -25200, 0, "MST", Ghost(g))
        .step(1552208400, -25200, 3600, "MDT", Ghost(g))
        .step(1572768000, -25200, 0, "MST", Ghost(g))
        .step(1583658000, -25200, 3600, "MDT", Ghost(g))
        .step(1604217600, -25200, 0, "MST", Ghost(g))
        .step(1615712400, -25200, 3600, "MDT", Ghost(g))
        .step(1636272000, -25200, 0, "MST", Ghost(g))
        .step(1647162000, -25200, 3600, "MDT", Ghost(g))
        .step(1667721600, -25200, 0, "MST", Ghost(g))
        .step(1678611600, -25200, 3600, "MDT", Ghost(g))
        .step(1699171200, -25200, 0, "MST", Ghost(g))
        .step(1710061200, -25200, 3600, "MDT", Ghost(g))
        .step(1730620800, -25200, 0, "MST", Ghost(g))
        .step(1741510800, -25200, 3600, "MDT", Ghost(g))
        .step(1762070400, -25200, 0, "MST", Ghost(g))
        .step(1772960400, -25200, 3600, "MDT", Ghost(g))
        .step(1793520000, -25200, 0, "MST", Ghost(g))
        .step(1805014800, -25200, 3600, "MDT", Ghost(g))
        .step(1825574400, -25200, 0, "MST", Ghost(g))
        .step(1836464400, -25200, 3600, "MDT", Ghost(g))
        .step(1857024000, -25200, 0, "MST", Ghost(g))
        .step(1867914000, -25200, 3600, "MDT", Ghost(g))
        .step(1888473600, -25200, 0, "MST", Ghost(g))
        .step(1899363600, -25200, 3600, "MDT", Ghost(g))
        .step(1919923200, -25200, 0, "MST", Ghost(g))
        .step(1930813200, -25200, 3600, "MDT", Ghost(g))
        .step(1951372800, -25200, 0, "MST", Ghost(g))
        .step(1962867600, -25200, 3600, "MDT", Ghost(g))
        .step(1983427200, -25200, 0, "MST", Ghost(g))
        .step(1994317200, -25200, 3600, "MDT", Ghost(g))
        .step(2014876800, -25200, 0, "MST", Ghost(g))
        .step(2025766800, -25200, 3600, "MDT", Ghost(g))
        .step(2046326400, -25200, 0, "MST", Ghost(g))
        .step(2057216400, -25200, 3600, "MDT", Ghost(g))
        .step(2077776000, -25200, 0, "MST", Ghost(g))
        .step(2088666000, -25200, 3600, "MDT", Ghost(g))
        .step(2109225600, -25200, 0, "MST", Ghost(g))
        .step(2120115600, -25200, 3600, "MDT", Ghost(g))
        .step(2140675200, -25200, 0, "MST", Ghost(g))
        .finish(Ghost(g))
}

/// The zone `PRC`.
pub fn prc() -> (r: Tz)
    ensures
        r.wf(),
        r.zone_name() == "PRC"@,
        r.table() == tables::prc(),
{
    let ghost g = tables::prc_rows();
    FixedTimespanSet::begin("PRC", 29143, 0, "LMT", Ghost(g))
        .step(-2177481943, 28800, 0, "CST", Ghost(g))
        .step(-1600675200, 28800, 3600, "CDT", Ghost(g))
        .step(-1585904400, 28800, 0, "CST", Ghost(g))
        .step(-933667200, 28800, 3600, "CDT", Ghost(g))
        .step(-922093200, 28800, 0, "CST", Ghost(g))
        .step(-908870400, 28800, 3600, "CDT", Ghost(g))
        .step(-888829200, 28800, 0, "CST", Ghost(g))
        .step(-881049600, 28800, 3600, "CDT", Ghost(g))
        .step(-767869200, 28800, 0, "CST", Ghost(g))
        .step(-745833600, 28800, 3600, "CDT", Ghost(g))
        .step(-733827600, 28800, 0, "CST", Ghost(g))
        .step(-716889600, 28800, 3600, "CDT", Ghost(g))
        .step(-699613200, 28800, 0, "CST", Ghost(g))
        .step(-683884800, 28800, 3600, "CDT", Ghost(g))
        .step(-670669200, 28800, 0, "CST", Ghost(g))
        .step(-652348800, 28800, 3600, "CDT", Ghost(g))
        .step(-650019600, 28800, 0, "CST", Ghost(g))
        .step(515527200, 28800, 3600, "CDT", Ghost(g))
        .step(527014800, 28800, 0, "CST", Ghost(g))
        .step(545162400, 28800, 3600, "CDT", Ghost(g))
        .step(558464400, 28800, 0, "CST", Ghost(g))
        .step(577216800, 28800, 3600, "CDT", Ghost(g))
        .step(589914000, 28800, 0, "CST", Ghost(g))
        .step(608666400, 28800, 3600, "CDT", Ghost(g))
        .step(621968400, 28800, 0, "CST", Ghost(g))
        .step(640116000, 28800, 3600, "CDT", Ghost(g))
        .step(653418000, 28800, 0, "CST", Ghost(g))
        .step(671565600, 28800, 3600, "CDT", Ghost(g))
        .step(684867600, 28800, 0, "CST", Ghost(g))
        .finish(Ghost(g))
}

/// The zone `PST8PDT`.
pub fn pst8pdt() -> (r: Tz)
    ensures
        r.wf(),
        r.zone_name() == "PST8PDT"@,
        r.table() == tables::pst8pdt(),
{
    let ghost g = tables::pst8pdt_rows();
    FixedTimespanSet::begin("PST8PDT", -28800, 0, "PST", Ghost(g))
        .step(-1633269600, -28800, 3600, "PDT", Ghost(g))
        .step(-1615129200, -28800, 0, "PST", Ghost(g))
        .step(-1601820000, -28800, 3600, "PDT", Ghost(g))
        .step(-1583679600, -28800, 0, "PST", Ghost(g))
        .step(-880207200, -28800, 3600, "PWT", Ghost(g))
        .step(-769395600, -28800, 3600, "PPT", Ghost(g))
        .step(-765385200, -28800, 0, "PST", Ghost(g))
        .step(-84376800, -28800, 3600, "PDT", Ghost(g))
        .step(-68655600, -28800, 0, "PST", Ghost(g))
        .step(-52927200, -28800, 3600, "PDT", Ghost(g))
        .step(-37206000, -28800, 0, "PST", Ghost(g))
        .step(-21477600, -28800, 3600, "PDT", Ghost(g))
        .step(-5756400, -28800, 0, "PST", Ghost(g))
        .step(9972000, -28800, 3600, "PDT", Ghost(g))
        .step(25693200, -28800, 0, "PST", Ghost(g))
        .step(41421600, -28800, 3600, "PDT", Ghost(g))
        .step(57747600, -28800, 0, "PST", Ghost(g))
        .step(73476000, -28800, 3600, "PDT", Ghost(g))
        .step(89197200, -28800, 0, "PST", Ghost(g))
        .step(104925600, -28800, 3600, "PDT", Ghost(g))
        .step(120646800, -28800, 0, "PST", Ghost(g))
        .step(126698400, -28800, 3600, "PDT", Ghost(g))
        .step(152096400, -28800, 0, "PST", Ghost(g))
        .step(162381600, -28800, 3600, "PDT", Ghost(g))
        .step(183546000, -28800, 0, "PST", Ghost(g))
        .step(199274400, -28800, 3600, "PDT", Ghost(g))
        .step(215600400, -28800, 0, "PST", Ghost(g))
        .step(230724000, -28800, 3600, "PDT", Ghost(g))
        .step(247050000, -28800, 0, "PST", Ghost(g))
        .step(262778400, -28800, 3600, "PDT", Ghost(g))
        .step(278499600, -28800, 0, "PST", Ghost(g))
        .step(294228000, -28800, 3600, "PDT", Ghost(g))
        .step(309949200, -28800, 0, "PST", Ghost(g))
        .step(325677600, -28800, 3600, "PDT", Ghost(g))
        .step(341398800, -28800, 0, "PST", Ghost(g))
        .step(357127200, -28800, 3600, "PDT", Ghost(g))
        .step(372848400, -28800, 0, "PST", Ghost(g))
        .step(388576800, -28800, 3600, "PDT", Ghost(g))
        .step(404902800, -28800, 0, "PST", Ghost(g))
        .step(420026400, -28800, 3600, "PDT", Ghost(g))
        .step(436352400, -28800, 0, "PST", Ghost(g))
        .step(452080800, -28800, 3600, "PDT", Ghost(g))
        .step(467802000, -28800, 0, "PST", Ghost(g))
        .step(483530400, -28800, 3600, "PDT", Ghost(g))
        .step(499251600, -28800, 0, "PST", Ghost(g))
        .step(514980000, -28800, 3600, "PDT", Ghost(g))
        .step(530701200, -28800, 0, "PST", Ghost(g))
        .step(544615200, -28800, 3600, "PDT", Ghost(g))
        .step(562150800, -28800, 0, "PST", Ghost(g))
        .step(576064800, -28800, 3600, "PDT", Ghost(g))
        .step(594205200, -28800, 0, "PST", Ghost(g))
        .step(607514400, -28800, 3600, "PDT", Ghost(g))
        .step(625654800, -28800, 0, "PST", Ghost(g))
        .step(638964000, -28800, 3600, "PDT", Ghost(g))
        .step(657104400, -28800, 0, "PST", Ghost(g))
        .step(671018400, -28800, 3600, "PDT", Ghost(g))
        .step(688554000, -28800, 0, "PST", Ghost(g))
        .step(702468000, -28800, 3600, "PDT", Ghost(g))
        .step(720003600, -28800, 0, "PST", Ghost(g))
        .step(733917600, -28800, 3600, "PDT", Ghost(g))
        .step(752058000, -28800, 0, "PST", Ghost(g))
        .step(765367200, -28800, 3600, "PDT", Ghost(g))
        .step(783507600, -28800, 0, "PST", Ghost(g))
        .step(796816800, -28800, 3600, "PDT", Ghost(g))
        .step(814957200, -28800, 0, "PST", Ghost(g))
        .step(828871200, -28800, 3600, "PDT", Ghost(g))
        .step(846406800, -28800, 0, "PST", Ghost(g))
        .step(860320800, -28800, 3600, "PDT", Ghost(g))
        .step(877856400, -28800, 0, "PST", Ghost(g))
        .step(891770400, -28800, 3600, "PDT", Ghost(g))
        .step(909306000, -28800, 0, "PST", Ghost(g))
        .step(923220000, -28800, 3600, "PDT", Ghost(g))
        .step(941360400, -28800, 0, "PST", Ghost(g))
        .step(954669600, -28800, 3600, "PDT", Ghost(g))
        .step(972810000, -28800, 0, "PST", Ghost(g))
        .step(986119200, -28800, 3600, "PDT", Ghost(g))
        .step(1004259600, -28800, 0, "PST", Ghost(g))
        .step(1018173600, -28800, 3600, "PDT", Ghost(g))
        .step(1035709200, -28800, 0, "PST", Ghost(g))
        .step(1049623200, -28800, 3600, "PDT", Ghost(g))
        .step(1067158800, -28800, 0, "PST", Ghost(g))
        .step(1081072800, -28800, 3600, "PDT", Ghost(g))
        .step(1099213200, -28800, 0, "PST", Ghost(g))
        .step(1112522400, -28800, 3600, "PDT", Ghost(g))
        .step(1130662800, -28800, 0, "PST", Ghost(g))
        .step(1143972000, -28800, 3600, "PDT", Ghost(g))
        .step(1162112400, -28800, 0, "PST", Ghost(g))
        .step(1173607200, -28800, 3600, "PDT", Ghost(g))
        .step(1194166800, -28800, 0, "PST", Ghost(g))
        .step(1205056800, -28800, 3600, "PDT", Ghost(g))
        .step(1225616400, -28800, 0, "PST", Ghost(g))
        .step(1236506400, -28800, 3600, "PDT", Ghost(g))
        .step(1257066000, -28800, 0, "PST", Ghost(g))
        .step(1268560800, -28800, 3600, "PDT", Ghost(g))
        .step(1289120400, -28800, 0, "PST", Ghost(g))
        .step(1300010400, -28800, 3600, "PDT", Ghost(g))
        .step(1320570000, -28800, 0, "PST", Ghost(g))
        .step(1331460000, -28800, 3600, "PDT", Ghost(g))
        .step(1352019600, -28800, 0, "PST", Ghost(g))
        .step(1362909600, -28800, 3600, "PDT", Ghost(g))
        .step(1383469200, -28800, 0, "PST", Ghost(g))
        .step(1394359200, -28800, 3600, "PDT", Ghost(g))
        .step(1414918800, -28800, 0, "PST", Ghost(g))
        .step(1425808800, -28800, 3600, "PDT", Ghost(g))
        .step(1446368400, -28800, 0, "PST", Ghost(g))
        .step(1457863200, -28800, 3600, "PDT", Ghost(g))
        .step(1478422800, -28800, 0, "PST", Ghost(g))
        .step(1489312800, -28800, 3600, "PDT", Ghost(g))
        .step(1509872400, -28800, 0, "PST", Ghost(g))
        .step(1520762400, -28800, 3600, "PDT", Ghost(g))
        .step(1541322000, -28800, 0, "PST", Ghost(g))
        .step(1552212000, -28800, 3600, "PDT", Ghost(g))
        .step(1572771600, -28800, 0, "PST", Ghost(g))
        .step(1583661600, -28800, 3600, "PDT", Ghost(g))
        .step(1604221200, -28800, 0, "PST", Ghost(g))
        .step(1615716000, -28800, 3600, "PDT", Ghost(g))
        .step(1636275600, -28800, 0, "PST", Ghost(g))
        .step(1647165600, -28800, 3600, "PDT", Ghost(g))
        .step(1667725200, -28800, 0, "PST", Ghost(g))
        .step(1678615200, -28800, 3600, "PDT", Ghost(g))
        .step(1699174800, -28800, 0, "PST", Ghost(g))
        .step(1710064800, -28800, 3600, "PDT", Ghost(g))
        .step(1730624400, -28800, 0, "PST", Ghost(g))
        .step(1741514400, -28800, 3600, "PDT", Ghost(g))
        .step(1762074000, -28800, 0, "PST", Ghost(g))
        .step(1772964000, -28800, 3600, "PDT", Ghost(g))
        .step(1793523600, -28800, 0, "PST", Ghost(g))
        .step(1805018400, -28800, 3600, "PDT", Ghost(g))
        .step(1825578000, -28800, 0, "PST", Ghost(g))
        .step(1836468000, -28800, 3600, "PDT", Ghost(g))
        .step(1857027600, -28800, 0, "PST", Ghost(g))
        .step(1867917600, -28800, 3600, "PDT", Ghost(g))
        .step(1888477200, -28800, 0, "PST", Ghost(g))
        .step(1899367200, -28800, 3600, "PDT", Ghost(g))
        .step(1919926800, -28800, 0, "PST", Ghost(g))
        .step(1930816800, -28800, 3600, "PDT", Ghost(g))
        .step(1951376400, -28800, 0, "PST", Ghost(g))
        .step(1962871200, -28800, 3600, "PDT", Ghost(g))
        .step(1983430800, -28800, 0, "PST", Ghost(g))
        .step(1994320800, -28800, 3600, "PDT", Ghost(g))
        .step(2014880400, -28800, 0, "PST", Ghost(g))
        .step(2025770400, -28800, 3600, "PDT", Ghost(g))
        .step(2046330000, -28800, 0, "PST", Ghost(g))
        .step(2057220000, -28800, 3600, "PDT", Ghost(g))
        .step(2077779600, -28800, 0, "PST", Ghost(g))
        .step(2088669600, -28800, 3600, "PDT", Ghost(g))
        .step(2109229200, -28800, 0, "PST", Ghost(g))
        .step(2120119200, -28800, 3600, "PDT", Ghost(g))
        .step(2140678800, -28800, 0, "PST", Ghost(g))
        .finish(Ghost(g))
}

/// The zone `Poland`.
pub fn poland() -> (r: Tz)
    ensures
        r.wf(),
        r.zone_name() == "Poland"@,
        r.table() == tables::poland(),
{
    let ghost g = tables::poland_rows();
    FixedTimespanSet::begin("Poland", 5040, 0, "LMT", Ghost(g))
        .step(-2840145840, 5040, 0, "WMT", Ghost(g))
        .step(-1717032240, 3600, 0, "CET", Ghost(g))
        .step(-1693706400, 3600, 3600, "CEST", Ghost(g))
        .step(-1680483600, 3600, 0, "CET", Ghost(g))
        .step(-1663455600, 3600, 3600, "CEST", Ghost(g))
        .step(-1650150000, 3600, 0, "CET", Ghost(g))
        .step(-1632006000, 3600, 3600, "CEST", Ghost(g))
        .step(-1618700400, 7200, 0, "EET", Ghost(g))
        .step(-1600473600, 7200, 3600, "EEST", Ghost(g))
        .step(-1587168000, 7200, 0, "EET", Ghost(g))
        .step(-1501725600, 3600, 0, "CET", Ghost(g))
        .step(-931734000, 3600, 3600, "CEST", Ghost(g))
        .step(-857257200, 3600, 0, "CET", Ghost(g))
        .step(-844556400, 3600, 3600, "CEST", Ghost(g))
        .step(-828226800, 3600, 0, "CET", Ghost(g))
        .step(-812502000, 3600, 3600, "CEST", Ghost(g))
        .step(-796608000, 3600, 0, "CET", Ghost(g))
        .step(-778726800, 3600, 3600, "CEST", Ghost(g))
        .step(-762660000, 3600, 0, "CET", Ghost(g))
        .step(-748486800, 3600, 3600, "CEST", Ghost(g))
        .step(-733273200, 3600, 0, "CET", Ghost(g))
        .step(-715215600, 3600, 3600, "CEST", Ghost(g))
        .step(-701910000, 3600, 0, "CET", Ghost(g))
        .step(-684975600, 3600, 3600, "CEST", Ghost(g))
        .step(-670460400, 3600, 0, "CET", Ghost(g))
        .step(-654130800, 3600, 3600, "CEST", Ghost(g))
        .step(-639010800, 3600, 0, "CET", Ghost(g))
        .step(-397094400, 3600, 3600, "CEST", Ghost(g))
        .step(-386812800, 3600, 0, "CET", Ghost(g))
        .step(-371088000, 3600, 3600, "CEST", Ghost(g))
        .step(-355363200, 3600, 0, "CET", Ghost(g))
        .step(-334195200, 3600, 3600, "CEST", Ghost(g))
        .step(-323308800, 3600, 0, "CET", Ghost(g))
        .step(-307584000, 3600, 3600, "CEST", Ghost(g))
        .step(-291859200, 3600, 0, "CET", Ghost(g))
        .step(-271296000, 3600, 3600, "CEST", Ghost(g))
        .step(-260409600, 3600, 0, "CET", Ghost(g))
        .step(-239846400, 3600, 3600, "CEST", Ghost(g))
        .step(-228960000, 3600, 0, "CET", Ghost(g))
        .step(-208396800, 3600, 3600, "CEST", Ghost(g))
        .step(-197510400, 3600, 0, "CET", Ghost(g))
        .step(-176342400, 3600, 3600, "CEST", Ghost(g))
        .step(-166060800, 3600, 0, "CET", Ghost(g))
        .step(228873600, 3600, 3600, "CEST", Ghost(g))
        .step(243993600, 3600, 0, "CET", Ghost(g))
        .step(260323200, 3600, 3600, "CEST", Ghost(g))
        .step(276048000, 3600, 0, "CET", Ghost(g))
        .step(291772800, 3600, 3600, "CEST", Ghost(g))
        .step(307497600, 3600, 0, "CET", Ghost(g))
        .step(323827200, 3600, 3600, "CEST", Ghost(g))
        .step(338947200, 3600, 0, "CET", Ghost(g))
        .step(354672000, 3600, 3600, "CEST", Ghost(g))
        .step(370396800, 3600, 0, "CET", Ghost(g))
        .step(386121600, 3600, 3600, "CEST", Ghost(g))
        .step(401846400, 3600, 0, "CET", Ghost(g))
        .step(417571200, 3600, 3600, "CEST", Ghost(g))
        .step(433296000, 3600, 0, "CET", Ghost(g))
        .step(449020800, 3600, 3600, "CEST", Ghost(g))
        .step(465350400, 3600, 0, "CET", Ghost(g))
        .step(481075200, 3600, 3600, "CEST", Ghost(g))
        .step(496800000, 3600, 0, "CET", Ghost(g))
        .step(512524800, 3600, 3600, "CEST", Ghost(g))
        .step(528249600, 3600, 0, "CET", Ghost(g))
        .step(543974400, 3600, 3600, "CEST", Ghost(g))
        .step(559699200, 3600, 0, "CET", Ghost(g))
        .step(575427600, 3600, 3600, "CEST", Ghost(g))
        .step(591152400, 3600, 0, "CET", Ghost(g))
        .step(606877200, 3600, 3600, "CEST", Ghost(g))
        .step(622602000, 3600, 0, "CET", Ghost(g))
        .step(638326800, 3600, 3600, "CEST", Ghost(g))
        .step(654656400, 3600, 0, "CET", Ghost(g))
        .step(670381200, 3600, 3600, "CEST", Ghost(g))
        .step(686106000, 3600, 0, "CET", Ghost(g))
        .step(701830800, 3600, 3600, "CEST", Ghost(g))
        .step(717555600, 3600, 0, "CET", Ghost(g))
        .step(733280400, 3600, 3600, "CEST", Ghost(g))
        .step(749005200, 3600, 0, "CET", Ghost(g))
        .step(764730000, 3600, 3600, "CEST", Ghost(g))
        .step(780454800, 3600, 0, "CET", Ghost(g))
        .step(796179600, 3600, 3600, "CEST", Ghost(g))
        .step(811904400, 3600, 0, "CET", Ghost(g))
        .step(828234000, 3600, 3600, "CEST", Ghost(g))
        .step(846378000, 3600, 0, "CET", Ghost(g))
        .step(859683600, 3600, 3600, "CEST", Ghost(g))
        .step(877827600, 3600, 0, "CET", Ghost(g))
        .step(891133200, 3600, 3600, "CEST", Ghost(g))
        .step(909277200, 3600, 0, "CET", Ghost(g))
        .step(922582800, 3600, 3600, "CEST", Ghost(g))
        .step(941331600, 3600, 0, "CET", Ghost(g))
        .step(954032400, 3600, 3600, "CEST", Ghost(g))
        .step(972781200, 3600, 0, "CET", Ghost(g))
        .step(985482000, 3600, 3600, "CEST", Ghost(g))
        .step(1004230800, 3600, 0, "CET", Ghost(g))
        .step(1017536400, 3600, 3600, "CEST", Ghost(g))
        .step(1035680400, 3600, 0, "CET", Ghost(g))
        .step(1048986000, 3600, 3600, "CEST", Ghost(g))
        .step(1067130000, 3600, 0, "CET", Ghost(g))
        .step(1080435600, 3600, 3600, "CEST", Ghost(g))
        .step(1099184400, 3600, 0, "CET", Ghost(g))
        .step(1111885200, 3600, 3600, "CEST", Ghost(g))
        .step(1130634000, 3600, 0, "CET", Ghost(g))
        .step(1143334800, 3600, 3600, "CEST", Ghost(g))
        .step(1162083600, 3600, 0, "CET", Ghost(g))
        .step(1174784400, 3600, 3600, "CEST", Ghost(g))
        .step(1193533200, 3600, 0, "CET", Ghost(g))
        .step(1206838800, 3600, 3600, "CEST", Ghost(g))
        .step(1224982800, 3600, 0, "CET", Ghost(g))
        .step(1238288400, 3600, 3600, "CEST", Ghost(g))
        .step(1256432400, 3600, 0, "CET", Ghost(g))
        .step(1269738000, 3600, 3600, "CEST", Ghost(g))
        .step(1288486800, 3600, 0, "CET", Ghost(g))
        .step(1301187600, 3600, 3600, "CEST", Ghost(g))
        .step(1319936400, 3600, 0, "CET", Ghost(g))
        .step(1332637200, 3600, 3600, "CEST", Ghost(g))
        .step(1351386000, 3600, 0, "CET", Ghost(g))
        .step(1364691600, 3600, 3600, "CEST", Ghost(g))
        .step(1382835600, 3600, 0, "CET", Ghost(g))
        .step(1396141200, 3600, 3600, "CEST", Ghost(g))
        .step(1414285200, 3600, 0, "CET", Ghost(g))
        .step(1427590800, 3600, 3600, "CEST", Ghost(g))
        .step(1445734800, 3600, 0, "CET", Ghost(g))
        .step(1459040400, 3600, 3600, "CEST", Ghost(g))
        .step(1477789200, 3600, 0, "CET", Ghost(g))
        .step(1490490000, 3600, 3600, "CEST", Ghost(g))
        .step(1509238800, 3600, 0, "CET", Ghost(g))
        .step(1521939600, 3600, 3600, "CEST", Ghost(g))
        .step(1540688400, 3600, 0, "CET", Ghost(g))
        .step(1553994000, 3600, 3600, "CEST", Ghost(g))
        .step(1572138000, 3600, 0, "CET", Ghost(g))
        .step(1585443600, 3600, 3600, "CEST", Ghost(g))
        .step(1603587600, 3600, 0, "CET", Ghost(g))
        .step(1616893200, 3600, 3600, "CEST", Ghost(g))
        .step(1635642000, 3600, 0, "CET", Ghost(g))
        .step(1648342800, 3600, 3600, "CEST", Ghost(g))
        .step(1667091600, 3600, 0, "CET", Ghost(g))
        .step(1679792400, 3600, 3600, "CEST", Ghost(g))
        .step(1698541200, 3600, 0, "CET", Ghost(g))
        .step(1711846800, 3600, 3600, "CEST", Ghost(g))
        .step(1729990800, 3600, 0, "CET", Ghost(g))
        .step(1743296400, 3600, 3600, "CEST", Ghost(g))
        .step(1761440400, 3600, 0, "CET", Ghost(g))
        .step(1774746000, 3600, 3600, "CEST", Ghost(g))
        .step(1792890000, 3600, 0, "CET", Ghost(g))
        .step(1806195600, 3600, 3600, "CEST", Ghost(g))
        .step(1824944400, 3600, 0, "CET", Ghost(g))
        .step(1837645200, 3600, 3600, "CEST", Ghost(g))
        .step(1856394000, 3600, 0, "CET", Ghost(g))
        .step(1869094800, 3600, 3600, "CEST", Ghost(g))
        .step(1887843600, 3600, 0, "CET", Ghost(g))
        .step(1901149200, 3600, 3600, "CEST", Ghost(g))
        .step(1919293200, 3600, 0, "CET", Ghost(g))
        .step(1932598800, 3600, 3600, "CEST", Ghost(g))
        .step(1950742800, 3600, 0, "CET", Ghost(g))
        .step(1964048400, 3600, 3600, "CEST", Ghost(g))
        .step(1982797200, 3600, 0, "CET", Ghost(g))
        .step(1995498000, 3600, 3600, "CEST", Ghost(g))
        .step(2014246800, 3600, 0, "CET", Ghost(g))
        .step(2026947600, 3600, 3600, "CEST", Ghost(g))
        .step(2045696400, 3600, 0, "CET", Ghost(g))
        .step(2058397200, 3600, 3600, "CEST", Ghost(g))
        .step(2077146000, 3600, 0, "CET", Ghost(g))
        .step(2090451600, 3600, 3600, "CEST", Ghost(g))
        .step(2108595600, 3600, 0, "CET", Ghost(g))
        .step(2121901200, 3600, 3600, "CEST", Ghost(g))
        .step(2140045200, 3600, 0, "CET", Ghost(g))
        .finish(Ghost(g))
}

/// The zone `Portugal`.
pub fn portugal() -> (r: Tz)
    ensures
        r.wf(),
        r.zone_name() == "Portugal"@,
        r.table() == tables::portugal(),
{
    let ghost g = tables::portugal_rows();
    FixedTimespanSet::begin("Portugal", -2205, 0, "LMT", Ghost(g))
        .step(-2713908195, -2205, 0, "LMT", Ghost(g))
        .step(-1830384000, 0, 0, "WET", Ghost(g))
        .step(-1689555600, 0, 3600, "WEST", Ghost(g))
        .step(-1677801600, 0, 0, "WET", Ghost(g))
        .step(-1667433600, 0, 3600, "WEST", Ghost(g))
        .step(-1647738000, 0, 0, "WET", Ghost(g))
        .step(-1635897600, 0, 3600, "WEST", Ghost(g))
        .step(-1616202000, 0, 0, "WET", Ghost(g))
        .step(-1604361600, 0, 3600, "WEST", Ghost(g))
        .step(-1584666000, 0, 0, "WET", Ghost(g))
        .step(-1572739200, 0, 3600, "WEST", Ghost(g))
        .step(-1553043600, 0, 0, "WET", Ghost(g))
        .step(-1541203200, 0, 3600, "WEST", Ghost(g))
        .step(-1521507600, 0, 0, "WET", Ghost(g))
        .step(-1442451600, 0, 3600, "WEST", Ghost(g))
        .step(-1427677200, 0, 0, "WET", Ghost(g))
        .step(-1379293200, 0, 3600, "WEST", Ghost(g))
        .step(-1364778000, 0, 0, "WET", Ghost(g))
        .step(-1348448400, 0, 3600, "WEST", Ghost(g))
        .step(-1333328400, 0, 0, "WET", Ghost(g))
        .step(-1316394000, 0, 3600, "WEST", Ghost(g))
        .step(-1301274000, 0, 0, "WET", Ghost(g))
        .step(-1284339600, 0, 3600, "WEST", Ghost(g))
        .step(-1269824400, 0, 0, "WET", Ghost(g))
        .step(-1221440400, 0, 3600, "WEST", Ghost(g))
        .step(-1206925200, 0, 0, "WET", Ghost(g))
        .step(-1191200400, 0, 3600, "WEST", Ghost(g))
        .step(-1175475600, 0, 0, "WET", Ghost(g))
        .step(-1127696400, 0, 3600, "WEST", Ghost(g))
        .step(-1111971600, 0, 0, "WET", Ghost(g))
        .step(-1096851600, 0, 3600, "WEST", Ghost(g))
        .step(-1080522000, 0, 0, "WET", Ghost(g))
        .step(-1063587600, 0, 3600, "WEST", Ghost(g))
        .step(-1049072400, 0, 0, "WET", Ghost(g))
        .step(-1033347600, 0, 3600, "WEST", Ghost(g))
        .step(-1017622800, 0, 0, "WET", Ghost(g))
        .step(-1002502800, 0, 3600, "WEST", Ghost(g))
        .step(-986173200, 0, 0, "WET", Ghost(g))
        .step(-969238800, 0, 3600, "WEST", Ghost(g))
        .step(-950490000, 0, 0, "WET", Ghost(g))
        .step(-942022800, 0, 3600, "WEST", Ghost(g))
        .step(-922496400, 0, 0, "WET", Ghost(g))
        .step(-906944400, 0, 3600, "WEST", Ghost(g))
        .step(-891133200, 0, 0, "WET", Ghost(g))
        .step(-877309200, 0, 3600, "WEST", Ghost(g))
        .step(-873684000, 0, 7200, "WEMT", Ghost(g))
        .step(-864007200, 0, 3600, "WEST", Ghost(g))
        .step(-857955600, 0, 0, "WET", Ghost(g))
        .step(-845859600, 0, 3600, "WEST", Ghost(g))
        .step(-842839200, 0, 7200, "WEMT", Ghost(g))
        .step(-831348000, 0, 3600, "WEST", Ghost(g))
        .step(-825901200, 0, 0, "WET", Ghost(g))
        .step(-814410000, 0, 3600, "WEST", Ghost(g))
        .step(-810784800, 0, 7200, "WEMT", Ghost(g))
        .step(-799898400, 0, 3600, "WEST", Ghost(g))
        .step(-794451600, 0, 0, "WET", Ghost(g))
        .step(-782960400, 0, 3600, "WEST", Ghost(g))
        .step(-779335200, 0, 7200, "WEMT", Ghost(g))
        .step(-768448800, 0, 3600, "WEST", Ghost(g))
        .step(-763002000, 0, 0, "WET", Ghost(g))
        .step(-749091600, 0, 3600, "WEST", Ghost(g))
        .step(-733366800, 0, 0, "WET", Ghost(g))
        .step(-717631200, 0, 3600, "WEST", Ghost(g))
        .step(-701906400, 0, 0, "WET", Ghost(g))
        .step(-686181600, 0, 3600, "WEST", Ghost(g))
        .step(-670456800, 0, 0, "WET", Ghost(g))
        .step(-654732000, 0, 3600, "WEST", Ghost(g))
        .step(-639007200, 0, 0, "WET", Ghost(g))
        .step(-623282400, 0, 3600, "WEST", Ghost(g))
        .step(-607557600, 0, 0, "WET", Ghost(g))
        .step(-591832800, 0, 3600, "WEST", Ghost(g))
        .step(-575503200, 0, 0, "WET", Ghost(g))
        .step(-559778400, 0, 3600, "WEST", Ghost(g))
        .step(-544053600, 0, 0, "WET", Ghost(g))
        .step(-528328800, 0, 3600, "WEST", Ghost(g))
        .step(-512604000, 0, 0, "WET", Ghost(g))
        .step(-496879200, 0, 3600, "WEST", Ghost(g))
        .step(-481154400, 0, 0, "WET", Ghost(g))
        .step(-465429600, 0, 3600, "WEST", Ghost(g))
        .step(-449704800, 0, 0, "WET", Ghost(g))
        .step(-433980000, 0, 3600, "WEST", Ghost(g))
        .step(-417650400, 0, 0, "WET", Ghost(g))
        .step(-401925600, 0, 3600, "WEST", Ghost(g))
        .step(-386200800, 0, 0, "WET", Ghost(g))
        .step(-370476000, 0, 3600, "WEST", Ghost(g))
        .step(-354751200, 0, 0, "WET", Ghost(g))
        .step(-339026400, 0, 3600, "WEST", Ghost(g))
        .step(-323301600, 0, 0, "WET", Ghost(g))
        .step(-307576800, 0, 3600, "WEST", Ghost(g))
        .step(-291852000, 0, 0, "WET", Ghost(g))
        .step(-276127200, 0, 3600, "WEST", Ghost(g))
        .step(-260402400, 0, 0, "WET", Ghost(g))
        .step(-244677600, 0, 3600, "WEST", Ghost(g))
        .step(-228348000, 0, 0, "WET", Ghost(g))
        .step(-212623200, 0, 3600, "WEST", Ghost(g))
        .step(-196898400, 0, 0, "WET", Ghost(g))
        .step(-181173600, 0, 3600, "WEST", Ghost(g))
        .step(-165448800, 0, 0, "WET", Ghost(g))
        .step(-149724000, 0, 3600, "WEST", Ghost(g))
        .step(-133999200, 0, 0, "WET", Ghost(g))
        .step(-118274400, 0, 3600, "WEST", Ghost(g))
        .step(-102549600, 3600, 0, "CET", Ghost(g))
        .step(212544000, 0, 0, "WET", Ghost(g))
        .step(228268800, 0, 3600, "WEST", Ghost(g))
        .step(243993600, 0, 0, "WET", Ghost(g))
        .step(260326800, 0, 3600, "WEST", Ghost(g))
        .step(276051600, 0, 0, "WET", Ghost(g))
        .step(291776400, 0, 3600, "WEST", Ghost(g))
        .step(307501200, 0, 0, "WET", Ghost(g))
        .step(323830800, 0, 3600, "WEST", Ghost(g))
        .step(338950800, 0, 0, "WET", Ghost(g))
        .step(354672000, 0, 3600, "WEST", Ghost(g))
        .step(370396800, 0, 0, "WET", Ghost(g))
        .step(386121600, 0, 3600, "WEST", Ghost(g))
        .step(401846400, 0, 0, "WET", Ghost(g))
        .step(417571200, 0, 3600, "WEST", Ghost(g))
        .step(433296000, 0, 0, "WET", Ghost(g))
        .step(449020800, 0, 3600, "WEST", Ghost(g))
        .step(465350400, 0, 0, "WET", Ghost(g))
        .step(481075200, 0, 3600, "WEST", Ghost(g))
        .step(496800000, 0, 0, "WET", Ghost(g))
        .step(512528400, 0, 3600, "WEST", Ghost(g))
        .step(528253200, 0, 0, "WET", Ghost(g))
        .step(543978000, 0, 3600, "WEST", Ghost(g))
        .step(559702800, 0, 0, "WET", Ghost(g))
        .step(575427600, 0, 3600, "WEST", Ghost(g))
        .step(591152400, 0, 0, "WET", Ghost(g))
        .step(606877200, 0, 3600, "WEST", Ghost(g))
        .step(622602000, 0, 0, "WET", Ghost(g))
        .step(638326800, 0, 3600, "WEST", Ghost(g))
        .step(654656400, 0, 0, "WET", Ghost(g))
        .step(670381200, 0, 3600, "WEST", Ghost(g))
        .step(686106000, 0, 0, "WET", Ghost(g))
        .step(701830800, 0, 3600, "WEST", Ghost(g))
        .step(717555600, 3600, 0, "CET", Ghost(g))
        .step(733280400, 3600, 3600, "CEST", Ghost(g))
        .step(749005200, 3600, 0, "CET", Ghost(g))
        .step(764730000, 3600, 3600, "CEST", Ghost(g))
        .step(780454800, 3600, 0, "CET", Ghost(g))
        .step(796179600, 3600, 3600, "CEST", Ghost(g))
        .step(811904400, 3600, 0, "CET", Ghost(g))
        .step(828234000, 0, 3600, "WEST", Ghost(g))
        .step(846378000, 0, 0, "WET", Ghost(g))
        .step(859683600, 0, 3600, "WEST", Ghost(g))
        .step(877827600, 0, 0, "WET", Ghost(g))
        .step(891133200, 0, 3600, "WEST", Ghost(g))
        .step(909277200, 0, 0, "WET", Ghost(g))
        .step(922582800, 0, 3600, "WEST", Ghost(g))
        .step(941331600, 0, 0, "WET", Ghost(g))
        .step(954032400, 0, 3600, "WEST", Ghost(g))
        .step(972781200, 0, 0, "WET", Ghost(g))
        .step(985482000, 0, 3600, "WEST", Ghost(g))
        .step(1004230800, 0, 0, "WET", Ghost(g))
        .step(1017536400, 0, 3600, "WEST", Ghost(g))
        .step(1035680400, 0, 0, "WET", Ghost(g))
        .step(1048986000, 0, 3600, "WEST", Ghost(g))
        .step(1067130000, 0, 0, "WET", Ghost(g))
        .step(1080435600, 0, 3600, "WEST", Ghost(g))
        .step(1099184400, 0, 0, "WET", Ghost(g))
        .step(1111885200, 0, 3600, "WEST", Ghost(g))
        .step(1130634000, 0, 0, "WET", Ghost(g))
        .step(1143334800, 0, 3600, "WEST", Ghost(g))
        .step(1162083600, 0, 0, "WET", Ghost(g))
        .step(1174784400, 0, 3600, "WEST", Ghost(g))
        .step(1193533200, 0, 0, "WET", Ghost(g))
        .step(1206838800, 0, 3600, "WEST", Ghost(g))
        .step(1224982800, 0, 0, "WET", Ghost(g))
        .step(1238288400, 0, 3600, "WEST", Ghost(g))
        .step(1256432400, 0, 0, "WET", Ghost(g))
        .step(1269738000, 0, 3600, "WEST", Ghost(g))
        .step(1288486800, 0, 0, "WET", Ghost(g))
        .step(1301187600, 0, 3600, "WEST", Ghost(g))
        .step(1319936400, 0, 0, "WET", Ghost(g))
        .step(1332637200, 0, 3600, "WEST", Ghost(g))
        .step(1351386000, 0, 0, "WET", Ghost(g))
        .step(1364691600, 0, 3600, "WEST", Ghost(g))
        .step(1382835600, 0, 0, "WET", Ghost(g))
        .step(1396141200, 0, 3600, "WEST", Ghost(g))
        .step(1414285200, 0, 0, "WET", Ghost(g))
        .step(1427590800, 0, 3600, "WEST", Ghost(g))
        .step(1445734800, 0, 0, "WET", Ghost(g))
        .step(1459040400, 0, 3600, "WEST", Ghost(g))
        .step(1477789200, 0, 0, "WET", Ghost(g))
        .step(1490490000, 0, 3600, "WEST", Ghost(g))
        .step(1509238800, 0, 0, "WET", Ghost(g))
        .step(1521939600, 0, 3600, "WEST", Ghost(g))
        .step(1540688400, 0, 0, "WET", Ghost(g))
        .step(1553994000, 0, 3600, "WEST", Ghost(g))
        .step(1572138000, 0, 0, "WET", Ghost(g))
        .step(1585443600, 0, 3600, "WEST", Ghost(g))
        .step(1603587600, 0, 0, "WET", Ghost(g))
        .step(1616893200, 0, 3600, "WEST", Ghost(g))
        .step(1635642000, 0, 0, "WET", Ghost(g))
        .step(1648342800, 0, 3600, "WEST", Ghost(g))
        .step(1667091600, 0, 0, "WET", Ghost(g))
        .step(1679792400, 0, 3600, "WEST", Ghost(g))
        .step(1698541200, 0, 0, "WET", Ghost(g))
        .step(1711846800, 0, 3600, "WEST", Ghost(g))
        .step(1729990800, 0, 0, "WET", Ghost(g))
        .step(1743296400, 0, 3600, "WEST", Ghost(g))
        .step(1761440400, 0, 0, "WET", Ghost(g))
        .step(1774746000, 0, 3600, "WEST", Ghost(g))
        .step(1792890000, 0, 0, "WET", Ghost(g))
        .step(1806195600, 0, 3600, "WEST", Ghost(g))
        .step(1824944400, 0, 0, "WET", Ghost(g))
        .step(1837645200, 0, 3600, "WEST", Ghost(g))
        .step(1856394000, 0, 0, "WET", Ghost(g))
        .step(1869094800, 0, 3600, "WEST", Ghost(g))
        .step(1887843600, 0, 0, "WET", Ghost(g))
        .step(1901149200, 0, 3600, "WEST", Ghost(g))
        .step(1919293200, 0, 0, "WET", Ghost(g))
        .step(1932598800, 0, 3600, "WEST", Ghost(g))
        .step(1950742800, 0, 0, "WET", Ghost(g))
        .step(1964048400, 0, 3600, "WEST", Ghost(g))
        .step(1982797200, 0, 0, "WET", Ghost(g))
        .step(1995498000, 0, 3600, "WEST", Ghost(g))
        .step(2014246800, 0, 0, "WET", Ghost(g))
        .step(2026947600, 0, 3600, "WEST", Ghost(g))
        .step(2045696400, 0, 0, "WET", Ghost(g))
        .step(2058397200, 0, 3600, "WEST", Ghost(g))
        .step(2077146000, 0, 0, "WET", Ghost(g))
        .step(2090451600, 0, 3600, "WEST", Ghost(g))
        .step(2108595600, 0, 0, "WET", Ghost(g))
        .step(2121901200, 0, 3600, "WEST", Ghost(g))
        .step(2140045200, 0, 0, "WET", Ghost(g))
        .finish(Ghost(g))
}

/// The zone `ROC`.
pub fn roc() -> (r: Tz)
    ensures
        r.wf(),
        r.zone_name() == "ROC"@,
        r.table() == tables::roc(),
{
    let ghost g = tables::roc_rows();
    FixedTimespanSet::begin("ROC", 29160, 0, "LMT", Ghost(g))
        .step(-2335248360, 28800, 0, "CST", Ghost(g))
        .step(-1017820800, 32400, 0, "JST", Ghost(g))
        .step(-766224000, 28800, 0, "CST", Ghost(g))
        .step(-745833600, 28800, 3600, "CDT", Ghost(g))
        .step(-733827600, 28800, 0, "CST", Ghost(g))
        .step(-716889600, 28800, 3600, "CDT", Ghost(g))
        .step(-699613200, 28800, 0, "CST", Ghost(g))
        .step(-683884800, 28800, 3600, "CDT", Ghost(g))
        .step(-670669200, 28800, 0, "CST", Ghost(g))
        .step(-652348800, 28800, 3600, "CDT", Ghost(g))
        .step(-639133200, 28800, 0, "CST", Ghost(g))
        .step(-620812800, 28800, 3600, "CDT", Ghost(g))
        .step(-607597200, 28800, 0, "CST", Ghost(g))
        .step(-589276800, 28800, 3600, "CDT", Ghost(g))
        .step(-576061200, 28800, 0, "CST", Ghost(g))
        .step(-562924800, 28800, 3600, "CDT", Ghost(g))
        .step(-541760400, 28800, 0, "CST", Ghost(g))
        .step(-528710400, 28800, 3600, "CDT", Ghost(g))
        .step(-510224400, 28800, 0, "CST", Ghost(g))
        .step(-497174400, 28800, 3600, "CDT", Ghost(g))
        .step(-478688400, 28800, 0, "CST", Ghost(g))
        .step(-465638400, 28800, 3600, "CDT", Ghost(g))
        .step(-449830800, 28800, 0, "CST", Ghost(g))
        .step(-434016000, 28800, 3600, "CDT", Ghost(g))
        .step(-418208400, 28800, 0, "CST", Ghost(g))
        .step(-402480000, 28800, 3600, "CDT", Ghost(g))
        .step(-386672400, 28800, 0, "CST", Ghost(g))
        .step(-370944000, 28800, 3600, "CDT", Ghost(g))
        .step(-355136400, 28800, 0, "CST", Ghost(g))
        .step(-339408000, 28800, 3600, "CDT", Ghost(g))
        .step(-323600400, 28800, 0, "CST", Ghost(g))
        .step(-302515200, 28800, 3600, "CDT", Ghost(g))
        .step(-291978000, 28800, 0, "CST", Ghost(g))
        .step(-270979200, 28800, 3600, "CDT", Ghost(g))
        .step(-260442000, 28800, 0, "CST", Ghost(g))
        .step(133977600, 28800, 3600, "CDT", Ghost(g))
        .step(149785200, 28800, 0, "CST", Ghost(g))
        .step(165513600, 28800, 3600, "CDT", Ghost(g))
        .step(181321200, 28800, 0, "CST", Ghost(g))
        .step(299606400, 28800, 3600, "CDT", Ghost(g))
        .step(307551600, 28800, 0, "CST", Ghost(g))
        .finish(Ghost(g))
}

/// The zone `ROK`.
pub fn rok() -> (r: Tz)
    ensures
        r.wf(),
        r.zone_name() == "ROK"@,
        r.table() == tables::rok(),
{
    let ghost g = tables::rok_rows();
    FixedTimespanSet::begin("ROK", 30472, 0, "LMT", Ghost(g))
        .step(-1948782472, 30600, 0, "KST", Ghost(g))
        .step(-1830414600, 32400, 0, "JST", Ghost(g))
        .step(-767350800, 32400, 0, "KST", Ghost(g))
        .step(-681210000, 32400, 3600, "KDT", Ghost(g))
        .step(-672228000, 32400, 0, "KST", Ghost(g))
        .step(-654771600, 32400, 3600, "KDT", Ghost(g))
        .step(-640864800, 32400, 0, "KST", Ghost(g))
        .step(-623408400, 32400, 3600, "KDT", Ghost(g))
        .step(-609415200, 32400, 0, "KST", Ghost(g))
        .step(-588848400, 32400, 3600, "KDT", Ghost(g))
        .step(-577965600, 32400, 0, "KST", Ghost(g))
        .step(-498128400, 30600, 0, "KST", Ghost(g))
        .step(-462702600, 30600, 3600, "KDT", Ghost(g))
        .step(-451733400, 30600, 0, "KST", Ghost(g))
        .step(-429784200, 30600, 3600, "KDT", Ghost(g))
        .step(-418296600, 30600, 0, "KST", Ghost(g))
        .step(-399544200, 30600, 3600, "KDT", Ghost(g))
        .step(-387451800, 30600, 0, "KST", Ghost(g))
        .step(-368094600, 30600, 3600, "KDT", Ghost(g))
        .step(-356002200, 30600, 0, "KST", Ghost(g))
        .step(-336645000, 30600, 3600, "KDT", Ghost(g))
        .step(-324552600, 30600, 0, "KST", Ghost(g))
        .step(-305195400, 30600, 3600, "KDT", Ghost(g))
        .step(-293103000, 30600, 0, "KST", Ghost(g))
        .step(-264933000, 32400, 0, "KST", Ghost(g))
        .step(547578000, 32400, 3600, "KDT", Ghost(g))
        .step(560883600, 32400, 0, "KST", Ghost(g))
        .step(579027600, 32400, 3600, "KDT", Ghost(g))
        .step(592333200, 32400, 0, "KST", Ghost(g))
        .finish(Ghost(g))
}

/// The zone `Singapore`.
pub fn singapore() -> (r: Tz)
    ensures
        r.wf(),
        r.zone_name() == "Singapore"@,
        r.table() == tables::singapore(),
{
    let ghost g = tables::singapore_rows();
    FixedTimespanSet::begin("Singapore", 24925, 0, "LMT", Ghost(g))
        .step(-2177477725, 24925, 0, "SMT", Ghost(g))
        .step(-2038200925, 25200, 0, "+07", Ghost(g))
        .step(-1167634800, 25200, 1200, "+0720", Ghost(g))
        .step(-1073028000, 26400, 0, "+0720", Ghost(g))
        .step(-894180000, 27000, 0, "+0730", Ghost(g))
        .step(-879665400, 32400, 0, "+09", Ghost(g))
        .step(-767005200, 27000, 0, "+0730", Ghost(g))
        .step(378662400, 28800, 0, "+08", Ghost(g))
        .step(2147483647, 28800, 0, "+08", Ghost(g))
        .finish(Ghost(g))
}

/// The zone `Turkey`.
pub fn turkey() -> (r: Tz)
    ensures
        r.wf(),
        r.zone_name() == "Turkey"@,
        r.table() == tables::turkey(),
{
    let ghost g = tables::turkey_rows();
    FixedTimespanSet::begin("Turkey", 6952, 0, "LMT", Ghost(g))
        .step(-2840147752, 7016, 0, "IMT", Ghost(g))
        .step(-1869875816, 7200, 0, "EET", Ghost(g))
        .step(-1693706400, 7200, 3600, "EEST", Ghost(g))
        .step(-1680490800, 7200, 0, "EET", Ghost(g))
        .step(-1570413600, 7200, 3600, "EEST", Ghost(g))
        .step(-1552186800, 7200, 0, "EET", Ghost(g))
        .step(-1538359200, 7200, 3600, "EEST", Ghost(g))
        .step(-1522551600, 7200, 0, "EET", Ghost(g))
        .step(-1507514400, 7200, 3600, "EEST", Ghost(g))
        .step(-1490583600, 7200, 0, "EET", Ghost(g))
        .step(-1440208800, 7200, 3600, "EEST", Ghost(g))
        .step(-1428030000, 7200, 0, "EET", Ghost(g))
        .step(-1409709600, 7200, 3600, "EEST", Ghost(g))
        .step(-1396494000, 7200, 0, "EET", Ghost(g))
        .step(-931053600, 7200, 3600, "EEST", Ghost(g))
        .step(-922676400, 7200, 0, "EET", Ghost(g))
        .step(-917834400, 7200, 3600, "EEST", Ghost(g))
        .step(-892436400, 7200, 0, "EET", Ghost(g))
        .step(-875844000, 7200, 3600, "EEST", Ghost(g))
        .step(-764737200, 7200, 0, "EET", Ghost(g))
        .step(-744343200, 7200, 3600, "EEST", Ghost(g))
        .step(-733806000, 7200, 0, "EET", Ghost(g))
        .step(-716436000, 7200, 3600, "EEST", Ghost(g))
        .step(-701924400, 7200, 0, "EET", Ghost(g))
        .step(-684986400, 7200, 3600, "EEST", Ghost(g))
        .step(-670474800, 7200, 0, "EET", Ghost(g))
        .step(-654141600, 7200, 3600, "EEST", Ghost(g))
        .step(-639025200, 7200, 0, "EET", Ghost(g))
        .step(-622087200, 7200, 3600, "EEST", Ghost(g))
        .step(-606970800, 7200, 0, "EET", Ghost(g))
        .step(-590032800, 7200, 3600, "EEST", Ghost(g))
        .step(-575521200, 7200, 0, "EET", Ghost(g))
        .step(-235620000, 7200, 3600, "EEST", Ghost(g))
        .step(-194842800, 7200, 0, "EET", Ghost(g))
        .step(-177732000, 7200, 3600, "EEST", Ghost(g))
        .step(-165726000, 7200, 0, "EET", Ghost(g))
        .step(107910000, 7200, 3600, "EEST", Ghost(g))
        .step(121215600, 7200, 0, "EET", Ghost(g))
        .step(133920000, 7200, 3600, "EEST", Ghost(g))
        .step(152665200, 7200, 0, "EET", Ghost(g))
        .step(164678400, 7200, 3600, "EEST", Ghost(g))
        .step(184114800, 7200, 0, "EET", Ghost(g))
        .step(196214400, 7200, 3600, "EEST", Ghost(g))
        .step(215564400, 7200, 0, "EET", Ghost(g))
        .step(228873600, 7200, 3600, "EEST", Ghost(g))
        .step(245804400, 7200, 0, "EET", Ghost(g))
        .step(260323200, 7200, 3600, "EEST", Ghost(g))
        .step(267915600, 10800, 0, "+03", Ghost(g))
        .step(428454000, 10800, 3600, "+04", Ghost(g))
        .step(433893600, 10800, 0, "+03", Ghost(g))
        .step(468111600, 7200, 0, "EET", Ghost(g))
        .step(482799600, 7200, 3600, "EEST", Ghost(g))
        .step(496710000, 7200, 0, "EET", Ghost(g))
        .step(512521200, 7200, 3600, "EEST", Ghost(g))
        .step(528246000, 7200, 0, "EET", Ghost(g))
        .step(543970800, 7200, 3600, "EEST", Ghost(g))
        .step(559695600, 7200, 0, "EET", Ghost(g))
        .step(575420400, 7200, 3600, "EEST", Ghost(g))
        .step(591145200, 7200, 0, "EET", Ghost(g))
        .step(606870000, 7200, 3600, "EEST", Ghost(g))
        .step(622594800, 7200, 0, "EET", Ghost(g))
        .step(638319600, 7200, 3600, "EEST", Ghost(g))
        .step(654649200, 7200, 0, "EET", Ghost(g))
        .step(670374000, 7200, 3600, "EEST", Ghost(g))
        .step(686098800, 7200, 0, "EET", Ghost(g))
        .step(701823600, 7200, 3600, "EEST", Ghost(g))
        .step(717548400, 7200, 0, "EET", Ghost(g))
        .step(733273200, 7200, 3600, "EEST", Ghost(g))
        .step(748998000, 7200, 0, "EET", Ghost(g))
        .step(764118000, 7200, 3600, "EEST", Ghost(g))
        .step(780447600, 7200, 0, "EET", Ghost(g))
        .step(796172400, 7200, 3600, "EEST", Ghost(g))
        .step(811897200, 7200, 0, "EET", Ghost(g))
        .step(828226800, 7200, 3600, "EEST", Ghost(g))
        .step(846370800, 7200, 0, "EET", Ghost(g))
        .step(859676400, 7200, 3600, "EEST", Ghost(g))
        .step(877820400, 7200, 0, "EET", Ghost(g))
        .step(891126000, 7200, 3600, "EEST", Ghost(g))
        .step(909270000, 7200, 0, "EET", Ghost(g))
        .step(922575600, 7200, 3600, "EEST", Ghost(g))
        .step(941324400, 7200, 0, "EET", Ghost(g))
        .step(954025200, 7200, 3600, "EEST", Ghost(g))
        .step(972774000, 7200, 0, "EET", Ghost(g))
        .step(985474800, 7200, 3600, "EEST", Ghost(g))
        .step(1004223600, 7200, 0, "EET", Ghost(g))
        .step(1017529200, 7200, 3600, "EEST", Ghost(g))
        .step(1035673200, 7200, 0, "EET", Ghost(g))
        .step(1048978800, 7200, 3600, "EEST", Ghost(g))
        .step(1067122800, 7200, 0, "EET", Ghost(g))
        .step(1080428400, 7200, 3600, "EEST", Ghost(g))
        .step(1099177200, 7200, 0, "EET", Ghost(g))
        .step(1111878000, 7200, 3600, "EEST", Ghost(g))
        .step(1130626800, 7200, 0, "EET", Ghost(g))
        .step(1143327600, 7200, 3600, "EEST", Ghost(g))
        .step(1162076400, 7200, 0, "EET", Ghost(g))
        .step(1174784400, 7200, 3600, "EEST", Ghost(g))
        .step(1193533200, 7200, 0, "EET", Ghost(g))
        .step(1206838800, 7200, 3600, "EEST", Ghost(g))
        .step(1224982800, 7200, 0, "EET", Ghost(g))
        .step(1238288400, 7200, 3600, "EEST", Ghost(g))
        .step(1256432400, 7200, 0, "EET", Ghost(g))
        .step(1269738000, 7200, 3600, "EEST", Ghost(g))
        .step(1288486800, 7200, 0, "EET", Ghost(g))
        .step(1301274000, 7200, 3600, "EEST", Ghost(g))
        .step(1319936400, 7200, 0, "EET", Ghost(g))
        .step(1332637200, 7200, 3600, "EEST", Ghost(g))
        .step(1351386000, 7200, 0, "EET", Ghost(g))
        .step(1364691600, 7200, 3600, "EEST", Ghost(g))
        .step(1382835600, 7200, 0, "EET", Ghost(g))
        .step(1396227600, 7200, 3600, "EEST", Ghost(g))
        .step(1414285200, 7200, 0, "EET", Ghost(g))
        .step(1427590800, 7200, 3600, "EEST", Ghost(g))
        .step(1446944400, 7200, 0, "EET", Ghost(g))
        .step(1459040400, 7200, 3600, "EEST", Ghost(g))
        .step(1473195600, 10800, 0, "+03", Ghost(g))
        .step(2147483647, 10800, 0, "+03", Ghost(g))
        .finish(Ghost(g))
}

/// The zone `UCT`.
pub fn uct() -> (r: Tz)
    ensures
        r.wf(),
        r.zone_name() == "UCT"@,
        r.table() == tables::uct(),
{
    let ghost g = tables::uct_rows();
    FixedTimespanSet::begin("UCT", 0, 0, "UTC", Ghost(g))
        .finish(Ghost(g))
}

/// The zone `UTC`.
pub fn utc() -> (r: Tz)
    ensures
        r.wf(),
        r.zone_name() == "UTC"@,
        r.table() == tables::utc(),
{
    let ghost g = tables::utc_rows();
    FixedTimespanSet::begin("UTC", 0, 0, "UTC", Ghost(g))
        .finish(Ghost(g))
}

/// The zone `Universal`.
pub fn universal() -> (r: Tz)
    ensures
        r.wf(),
        r.zone_name() == "Universal"@,
        r.table() == tables::universal(),
{
    let ghost g = tables::universal_rows();
    FixedTimespanSet::begin("Universal", 0, 0, "UTC", Ghost(g))
        .finish(Ghost(g))
}

/// The zone `W-SU`.
pub fn w_su() -> (r: Tz)
    ensures
        r.wf(),
        r.zone_name() == "W-SU"@,
        r.table() == tables::w_su(),
{
    let ghost g = tables::w_su_rows();
    FixedTimespanSet::begin("W-SU", 9017, 0, "LMT", Ghost(g))
        .step(-2840149817, 9017, 0, "MMT", Ghost(g))
        .step(-1688265017, 9079, 0, "MMT", Ghost(g))
        .step(-1656819079, 9079, 3600, "MST", Ghost(g))
        .step(-1641353479, 9079, 0, "MMT", Ghost(g))
        .step(-1627965079, 9079, 7200, "MDST", Ghost(g))
        .step(-1618716679, 9079, 3600, "MST", Ghost(g))
        .step(-1596429079, 9079, 7200, "MDST", Ghost(g))
        .step(-1593820800, 9079, 5321, "MSD", Ghost(g))
        .step(-1589860800, 10800, 0, "MSK", Ghost(g))
        .step(-1542427200, 10800, 3600, "MSD", Ghost(g))
        .step(-1539493200, 10800, 7200, "+05", Ghost(g))
        .step(-1525323600, 10800, 3600, "MSD", Ghost(g))
        .step(-1522728000, 10800, 0, "MSK", Ghost(g))
        .step(-1491188400, 7200, 0, "EET", Ghost(g))
        .step(-1247536800, 10800, 0, "MSK", Ghost(g))
        .step(354920400, 10800, 3600, "MSD", Ghost(g))
        .step(370728000, 10800, 0, "MSK", Ghost(g))
        .step(386456400, 10800, 3600, "MSD", Ghost(g))
        .step(402264000, 10800, 0, "MSK", Ghost(g))
        .step(417992400, 10800, 3600, "MSD", Ghost(g))
        .step(433800000, 10800, 0, "MSK", Ghost(g))
        .step(449614800, 10800, 3600, "MSD", Ghost(g))
        .step(465346800, 10800, 0, "MSK", Ghost(g))
        .step(481071600, 10800, 3600, "MSD", Ghost(g))
        .step(496796400, 10800, 0, "MSK", Ghost(g))
        .step(512521200, 10800, 3600, "MSD", Ghost(g))
        .step(528246000, 10800, 0, "MSK", Ghost(g))
        .step(543970800, 10800, 3600, "MSD", Ghost(g))
        .step(559695600, 10800, 0, "MSK", Ghost(g))
        .step(575420400, 10800, 3600, "MSD", Ghost(g))
        .step(591145200, 10800, 0, "MSK", Ghost(g))
        .step(606870000, 10800, 3600, "MSD", Ghost(g))
        .step(622594800, 10800, 0, "MSK", Ghost(g))
        .step(638319600, 10800, 3600, "MSD", Ghost(g))
        .step(654649200, 10800, 0, "MSK", Ghost(g))
        .step(670374000, 7200, 3600, "EEST", Ghost(g))
        .step(686102400, 7200, 0, "EET", Ghost(g))
        .step(695779200, 10800, 0, "MSK", Ghost(g))
        .step(701823600, 10800, 3600, "MSD", Ghost(g))
        .step(717548400, 10800, 0, "MSK", Ghost(g))
        .step(733273200, 10800, 3600, "MSD", Ghost(g))
        .step(748998000, 10800, 0, "MSK", Ghost(g))
        .step(764722800, 10800, 3600, "MSD", Ghost(g))
        .step(780447600, 10800, 0, "MSK", Ghost(g))
        .step(796172400, 10800, 3600, "MSD", Ghost(g))
        .step(811897200, 10800, 0, "MSK", Ghost(g))
        .step(828226800, 10800, 3600, "MSD", Ghost(g))
        .step(846370800, 10800, 0, "MSK", Ghost(g))
        .step(859676400, 10800, 3600, "MSD", Ghost(g))
        .step(877820400, 10800, 0, "MSK", Ghost(g))
        .step(891126000, 10800, 3600, "MSD", Ghost(g))
        .step(909270000, 10800, 0, "MSK", Ghost(g))
        .step(922575600, 10800, 3600, "MSD", Ghost(g))
        .step(941324400, 10800, 0, "MSK", Ghost(g))
        .step(954025200, 10800, 3600, "MSD", Ghost(g))
        .step(972774000, 10800, 0, "MSK", Ghost(g))
        .step(985474800, 10800, 3600, "MSD", Ghost(g))
        .step(1004223600, 10800, 0, "MSK", Ghost(g))
        .step(1017529200, 10800, 3600, "MSD", Ghost(g))
        .step(1035673200, 10800, 0, "MSK", Ghost(g))
        .step(1048978800, 10800, 3600, "MSD", Ghost(g))
        .step(1067122800, 10800, 0, "MSK", Ghost(g))
        .step(1080428400, 10800, 3600, "MSD", Ghost(g))
        .step(1099177200, 10800, 0, "MSK", Ghost(g))
        .step(1111878000, 10800, 3600, "MSD", Ghost(g))
        .step(1130626800, 10800, 0, "MSK", Ghost(g))
        .step(1143327600, 10800, 3600, "MSD", Ghost(g))
        .step(1162076400, 10800, 0, "MSK", Ghost(g))
        .step(1174777200, 10800, 3600, "MSD", Ghost(g))
        .step(1193526000, 10800, 0, "MSK", Ghost(g))
        .step(1206831600, 10800, 3600, "MSD", Ghost(g))
        .step(1224975600, 10800, 0, "MSK", Ghost(g))
        .step(1238281200, 10800, 3600, "MSD", Ghost(g))
        .step(1256425200, 10800, 0, "MSK", Ghost(g))
        .step(1269730800, 10800, 3600, "MSD", Ghost(g))
        .step(1288479600, 10800, 0, "MSK", Ghost(g))
        .step(1301180400, 14400, 0, "MSK", Ghost(g))
        .step(1414274400, 10800, 0, "MSK", Ghost(g))
        .finish(Ghost(g))
}

/// The zone `WET`.
pub fn wet() -> (r: Tz)
    ensures
        r.wf(),
        r.zone_name() == "WET"@,
        r.table() == tables::wet(),
{
    let ghost g = tables::wet_rows();
    FixedTimespanSet::begin("WET", 0, 0, "WET", Ghost(g))
        .step(228877200, 0, 3600, "WEST", Ghost(g))
        .step(243997200, 0, 0, "WET", Ghost(g))
        .step(260326800, 0, 3600, "WEST", Ghost(g))
        .step(276051600, 0, 0, "WET", Ghost(g))
        .step(291776400, 0, 3600, "WEST", Ghost(g))
        .step(307501200, 0, 0, "WET", Ghost(g))
        .step(323830800, 0, 3600, "WEST", Ghost(g))
        .step(338950800, 0, 0, "WET", Ghost(g))
        .step(354675600, 0, 3600, "WEST", Ghost(g))
        .step(370400400, 0, 0, "WET", Ghost(g))
        .step(386125200, 0, 3600, "WEST", Ghost(g))
        .step(401850000, 0, 0, "WET", Ghost(g))
        .step(417574800, 0, 3600, "WEST", Ghost(g))
        .step(433299600, 0, 0, "WET", Ghost(g))
        .step(449024400, 0, 3600, "WEST", Ghost(g))
        .step(465354000, 0, 0, "WET", Ghost(g))
        .step(481078800, 0, 3600, "WEST", Ghost(g))
        .step(496803600, 0, 0, "WET", Ghost(g))
        .step(512528400, 0, 3600, "WEST", Ghost(g))
        .step(528253200, 0, 0, "WET", Ghost(g))
        .step(543978000, 0, 3600, "WEST", Ghost(g))
        .step(559702800, 0, 0, "WET", Ghost(g))
        .step(575427600, 0, 3600, "WEST", Ghost(g))
        .step(591152400, 0, 0, "WET", Ghost(g))
        .step(606877200, 0, 3600, "WEST", Ghost(g))
        .step(622602000, 0, 0, "WET", Ghost(g))
        .step(638326800, 0, 3600, "WEST", Ghost(g))
        .step(654656400, 0, 0, "WET", Ghost(g))
        .step(670381200, 0, 3600, "WEST", Ghost(g))
        .step(686106000, 0, 0, "WET", Ghost(g))
        .step(701830800, 0, 3600, "WEST", Ghost(g))
        .step(717555600, 0, 0, "WET", Ghost(g))
        .step(733280400, 0, 3600, "WEST", Ghost(g))
        .step(749005200, 0, 0, "WET", Ghost(g))
        .step(764730000, 0, 3600, "WEST", Ghost(g))
        .step(780454800, 0, 0, "WET", Ghost(g))
        .step(796179600, 0, 3600, "WEST", Ghost(g))
        .step(811904400, 0, 0, "WET", Ghost(g))
        .step(828234000, 0, 3600, "WEST", Ghost(g))
        .step(846378000, 0, 0, "WET", Ghost(g))
        .step(859683600, 0, 3600, "WEST", Ghost(g))
        .step(877827600, 0, 0, "WET", Ghost(g))
        .step(891133200, 0, 3600, "WEST", Ghost(g))
        .step(909277200, 0, 0, "WET", Ghost(g))
        .step(922582800, 0, 3600, "WEST", Ghost(g))
        .step(941331600, 0, 0, "WET", Ghost(g))
        .step(954032400, 0, 3600, "WEST", Ghost(g))
        .step(972781200, 0, 0, "WET", Ghost(g))
        .step(985482000, 0, 3600, "WEST", Ghost(g))
        .step(1004230800, 0, 0, "WET", Ghost(g))
        .step(1017536400, 0, 3600, "WEST", Ghost(g))
        .step(1035680400, 0, 0, "WET", Ghost(g))
        .step(1048986000, 0, 3600, "WEST", Ghost(g))
        .step(1067130000, 0, 0, "WET", Ghost(g))
        .step(1080435600, 0, 3600, "WEST", Ghost(g))
        .step(1099184400, 0, 0, "WET", Ghost(g))
        .step(1111885200, 0, 3600, "WEST", Ghost(g))
        .step(1130634000, 0, 0, "WET", Ghost(g))
        .step(1143334800, 0, 3600, "WEST", Ghost(g))
        .step(1162083600, 0, 0, "WET", Ghost(g))
        .step(1174784400, 0, 3600, "WEST", Ghost(g))
        .step(1193533200, 0, 0, "WET", Ghost(g))
        .step(1206838800, 0, 3600, "WEST", Ghost(g))
        .step(1224982800, 0, 0, "WET", Ghost(g))
        .step(1238288400, 0, 3600, "WEST", Ghost(g))
        .step(1256432400, 0, 0, "WET", Ghost(g))
        .step(1269738000, 0, 3600, "WEST", Ghost(g))
        .step(1288486800, 0, 0, "WET", Ghost(g))
        .step(1301187600, 0, 3600, "WEST", Ghost(g))
        .step(1319936400, 0, 0, "WET", Ghost(g))
        .step(1332637200, 0, 3600, "WEST", Ghost(g))
        .step(1351386000, 0, 0, "WET", Ghost(g))
        .step(1364691600, 0, 3600, "WEST", Ghost(g))
        .step(1382835600, 0, 0, "WET", Ghost(g))
        .step(1396141200, 0, 3600, "WEST", Ghost(g))
        .step(1414285200, 0, 0, "WET", Ghost(g))
        .step(1427590800, 0, 3600, "WEST", Ghost(g))
        .step(1445734800, 0, 0, "WET", Ghost(g))
        .step(1459040400, 0, 3600, "WEST", Ghost(g))
        .step(1477789200, 0, 0, "WET", Ghost(g))
        .step(1490490000, 0, 3600, "WEST", Ghost(g))
        .step(1509238800, 0, 0, "WET", Ghost(g))
        .step(1521939600, 0, 3600, "WEST", Ghost(g))
        .step(1540688400, 0, 0, "WET", Ghost(g))
        .step(1553994000, 0, 3600, "WEST", Ghost(g))
        .step(1572138000, 0, 0, "WET", Ghost(g))
        .step(1585443600, 0, 3600, "WEST", Ghost(g))
        .step(1603587600, 0, 0, "WET", Ghost(g))
        .step(1616893200, 0, 3600, "WEST", Ghost(g))
        .step(1635642000, 0, 0, "WET", Ghost(g))
        .step(1648342800, 0, 3600, "WEST", Ghost(g))
        .step(1667091600, 0, 0, "WET", Ghost(g))
        .step(1679792400, 0, 3600, "WEST", Ghost(g))
        .step(1698541200, 0, 0, "WET", Ghost(g))
        .step(1711846800, 0, 3600, "WEST", Ghost(g))
        .step(1729990800, 0, 0, "WET", Ghost(g))
        .step(1743296400, 0, 3600, "WEST", Ghost(g))
        .step(1761440400, 0, 0, "WET", Ghost(g))
        .step(1774746000, 0, 3600, "WEST", Ghost(g))
        .step(1792890000, 0, 0, "WET", Ghost(g))
        .step(1806195600, 0, 3600, "WEST", Ghost(g))
        .step(1824944400, 0, 0, "WET", Ghost(g))
        .step(1837645200, 0, 3600, "WEST", Ghost(g))
        .step(1856394000, 0, 0, "WET", Ghost(g))
        .step(1869094800, 0, 3600, "WEST", Ghost(g))
        .step(1887843600, 0, 0, "WET", Ghost(g))
        .step(1901149200, 0, 3600, "WEST", Ghost(g))
        .step(1919293200, 0, 0, "WET", Ghost(g))
        .step(1932598800, 0, 3600, "WEST", Ghost(g))
        .step(1950742800, 0, 0, "WET", Ghost(g))
        .step(1964048400, 0, 3600, "WEST", Ghost(g))
        .step(1982797200, 0, 0, "WET", Ghost(g))
        .step(1995498000, 0, 3600, "WEST", Ghost(g))
        .step(2014246800, 0, 0, "WET", Ghost(g))
        .step(2026947600, 0, 3600, "WEST", Ghost(g))
        .step(2045696400, 0, 0, "WET", Ghost(g))
        .step(2058397200, 0, 3600, "WEST", Ghost(g))
        .step(2077146000, 0, 0, "WET", Ghost(g))
        .step(2090451600, 0, 3600, "WEST", Ghost(g))
        .step(2108595600, 0, 0, "WET", Ghost(g))
        .step(2121901200, 0, 3600, "WEST", Ghost(g))
        .step(2140045200, 0, 0, "WET", Ghost(g))
        .finish(Ghost(g))
}

/// The zone `Zulu`.
pub fn zulu() -> (r: Tz)
    ensures
        r.wf(),
        r.zone_name() == "Zulu"@,
        r.table() == tables::zulu(),
{
    let ghost g = tables::zulu_rows();
    FixedTimespanSet::begin("Zulu", 0, 0, "UTC", Ghost(g))
        .finish(Ghost(g))
}

} // verus!
