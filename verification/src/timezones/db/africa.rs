//! Zones of Africa.

use crate::interface::TimeZone;
use crate::timezone_impl::{FixedTimespanSet, Tz};
use crate::timezones::tables;
use vstd::prelude::*;

verus! {

/// The zone `Africa/Abidjan`.
pub fn abidjan() -> (r: Tz)
    ensures
        r.wf(),
        r.zone_name() == "Africa/Abidjan"@,
        r.table() == tables::africa::abidjan(),
{
    let ghost g = tables::africa::abidjan_rows();
    FixedTimespanSet::begin("Africa/Abidjan", -968, 0, "LMT", Ghost(g))
        .step(-1830383032, 0, 0, "GMT", Ghost(g))
        .finish(Ghost(g))
}

/// The zone `Africa/Accra`.
pub fn accra() -> (r: Tz)
    ensures
        r.wf(),
        r.zone_name() == "Africa/Accra"@,
        r.table() == tables::africa::accra(),
{
    let ghost g = tables::africa::accra_rows();
    FixedTimespanSet::begin("Africa/Accra", -52, 0, "LMT", Ghost(g))
        .step(-1709337548, 0, 0, "GMT", Ghost(g))
        .step(-1581206400, 0, 1200, "+0020", Ghost(g))
        .step(-1577917200, 0, 0, "GMT", Ghost(g))
        .step(-1556834400, 0, 1200, "+0020", Ghost(g))
        .step(-1546294800, 0, 0, "GMT", Ghost(g))
        .step(-1525298400, 0, 1200, "+0020", Ghost(g))
        .step(-1514758800, 0, 0, "GMT", Ghost(g))
        .step(-1493762400, 0, 1200, "+0020", Ghost(g))
        .step(-1483222800, 0, 0, "GMT", Ghost(g))
        .step(-1462226400, 0, 1200, "+0020", Ghost(g))
        .step(-1451686800, 0, 0, "GMT", Ghost(g))
        .step(-1430604000, 0, 1200, "+0020", Ghost(g))
        .step(-1420064400, 0, 0, "GMT", Ghost(g))
        .step(-1399068000, 0, 1200, "+0020", Ghost(g))
        .step(-1388528400, 0, 0, "GMT", Ghost(g))
        .step(-1367532000, 0, 1200, "+0020", Ghost(g))
        .step(-1356992400, 0, 0, "GMT", Ghost(g))
        .step(-1335996000, 0, 1200, "+0020", Ghost(g))
        .step(-1325456400, 0, 0, "GMT", Ghost(g))
        .step(-1304373600, 0, 1200, "+0020", Ghost(g))
        .step(-1293834000, 0, 0, "GMT", Ghost(g))
        .step(-1272837600, 0, 1200, "+0020", Ghost(g))
        .step(-1262298000, 0, 0, "GMT", Ghost(g))
        .step(-1241301600, 0, 1200, "+0020", Ghost(g))
        .step(-1230762000, 0, 0, "GMT", Ghost(g))
        .step(-1209765600, 0, 1200, "+0020", Ghost(g))
        .step(-1199226000, 0, 0, "GMT", Ghost(g))
        .step(-1178143200, 0, 1200, "+0020", Ghost(g))
        .step(-1167603600, 0, 0, "GMT", Ghost(g))
        .step(-1146607200, 0, 1200, "+0020", Ghost(g))
        .step(-1136067600, 0, 0, "GMT", Ghost(g))
        .step(-1115071200, 0, 1200, "+0020", Ghost(g))
        .step(-1104531600, 0, 0, "GMT", Ghost(g))
        .step(-1083535200, 0, 1200, "+0020", Ghost(g))
        .step(-1072995600, 0, 0, "GMT", Ghost(g))
        .step(-1051912800, 0, 1200, "+0020", Ghost(g))
        .step(-1041373200, 0, 0, "GMT", Ghost(g))
        .step(-1020376800, 0, 1200, "+0020", Ghost(g))
        .step(-1009837200, 0, 0, "GMT", Ghost(g))
        .step(-988840800, 0, 1200, "+0020", Ghost(g))
        .step(-978301200, 0, 0, "GMT", Ghost(g))
        .step(-957304800, 0, 1200, "+0020", Ghost(g))
        .step(-946765200, 0, 0, "GMT", Ghost(g))
        .step(-936309600, 0, 1200, "+0020", Ghost(g))
        .step(-915142800, 0, 0, "GMT", Ghost(g))
        .step(-904773600, 0, 1200, "+0020", Ghost(g))
        .step(-883606800, 0, 0, "GMT", Ghost(g))
        .step(-880329600, 1800, 0, "+0030", Ghost(g))
        .step(-756952200, 0, 0, "GMT", Ghost(g))
        .step(-610149600, 0, 1800, "+0030", Ghost(g))
        .step(-599610600, 0, 0, "GMT", Ghost(g))
        .step(-578613600, 0, 1800, "+0030", Ghost(g))
        .step(-568074600, 0, 0, "GMT", Ghost(g))
        .step(-546991200, 0, 1800, "+0030", Ghost(g))
        .step(-536452200, 0, 0, "GMT", Ghost(g))
        .step(-515455200, 0, 1800, "+0030", Ghost(g))
        .step(-504916200, 0, 0, "GMT", Ghost(g))
        .step(-483919200, 0, 1800, "+0030", Ghost(g))
        .step(-473380200, 0, 0, "GMT", Ghost(g))
        .step(-452383200, 0, 1800, "+0030", Ghost(g))
        .step(-441844200, 0, 0, "GMT", Ghost(g))
        .finish(Ghost(g))
}

/// The zone `Africa/Addis_Ababa`.
pub fn addis_ababa() -> (r: Tz)
    ensures
        r.wf(),
        r.zone_name() == "Africa/Addis_Ababa"@,
        r.table() == tables::africa::addis_ababa(),
{
    let ghost g = tables::africa::addis_ababa_rows();
    FixedTimespanSet::begin("Africa/Addis_Ababa", 9288, 0, "LMT", Ghost(g))
        .step(-3155682888, 9320, 0, "ADMT", Ghost(g))
        .step(-1062210920, 10800, 0, "EAT", Ghost(g))
        .finish(Ghost(g))
}

/// The zone `Africa/Algiers`.
pub fn algiers() -> (r: Tz)
    ensures
        r.wf(),
        r.zone_name() == "Africa/Algiers"@,
        r.table() == tables::africa::algiers(),
{
    let ghost g = tables::africa::algiers_rows();
    FixedTimespanSet::begin("Africa/Algiers", 732, 0, "LMT", Ghost(g))
        .step(-2486592732, 561, 0, "PMT", Ghost(g))
        .step(-1855958961, 0, 0, "WET", Ghost(g))
        .step(-1689814800, 0, 3600, "WEST", Ghost(g))
        .step(-1680397200, 0, 0, "WET", Ghost(g))
        .step(-1665363600, 0, 3600, "WEST", Ghost(g))
        .step(-1648342800, 0, 0, "WET", Ghost(g))
        .step(-1635123600, 0, 3600, "WEST", Ghost(g))
        .step(-1616893200, 0, 0, "WET", Ghost(g))
        .step(-1604278800, 0, 3600, "WEST", Ghost(g))
        .step(-1585443600, 0, 0, "WET", Ghost(g))
        .step(-1574038800, 0, 3600, "WEST", Ghost(g))
        .step(-1552266000, 0, 0, "WET", Ghost(g))
        .step(-1539997200, 0, 3600, "WEST", Ghost(g))
        .step(-1531443600, 0, 0, "WET", Ghost(g))
        .step(-956365200, 0, 3600, "WEST", Ghost(g))
        .step(-950486400, 0, 0, "WET", Ghost(g))
        .step(-942012000, 3600, 0, "CET", Ghost(g))
        .step(-812502000, 3600, 3600, "CEST", Ghost(g))
        .step(-796262400, 3600, 0, "CET", Ghost(g))
        .step(-781052400, 3600, 3600, "CEST", Ghost(g))
        .step(-766630800, 3600, 0, "CET", Ghost(g))
        .step(-733280400, 0, 0, "WET", Ghost(g))
        .step(-439430400, 3600, 0, "CET", Ghost(g))
        .step(-212029200, 0, 0, "WET", Ghost(g))
        .step(41468400, 0, 3600, "WEST", Ghost(g))
        .step(54774000, 0, 0, "WET", Ghost(g))
        .step(231724800, 0, 3600, "WEST", Ghost(g))
        .step(246236400, 3600, 0, "CET", Ghost(g))
        .step(259545600, 3600, 3600, "CEST", Ghost(g))
        .step(275274000, 3600, 0, "CET", Ghost(g))
        .step(309740400, 0, 0, "WET", Ghost(g))
        .step(325468800, 0, 3600, "WEST", Ghost(g))
        .step(341802000, 0, 0, "WET", Ghost(g))
        .step(357523200, 3600, 0, "CET", Ghost(g))
        .finish(Ghost(g))
}

/// The zone `Africa/Asmara`.
pub fn asmara() -> (r: Tz)
    ensures
        r.wf(),
        r.zone_name() == "Africa/Asmara"@,
        r.table() == tables::africa::asmara(),
{
    let ghost g = tables::africa::asmara_rows();
    FixedTimespanSet::begin("Africa/Asmara", 9332, 0, "LMT", Ghost(g))
        .step(-3155682932, 9332, 0, "AMT", Ghost(g))
        .step(-2524530932, 9320, 0, "ADMT", Ghost(g))
        .step(-1062210920, 10800, 0, "EAT", Ghost(g))
        .finish(Ghost(g))
}

/// The zone `Africa/Asmera`.
pub fn asmera() -> (r: Tz)
    ensures
        r.wf(),
        r.zone_name() == "Africa/Asmera"@,
        r.table() == tables::africa::asmera(),
{
    let ghost g = tables::africa::asmera_rows();
    FixedTimespanSet::begin("Africa/Asmera", 8836, 0, "LMT", Ghost(g))
        .step(-1946168836, 9000, 0, "+0230", Ghost(g))
        .step(-1309746600, 10800, 0, "EAT", Ghost(g))
        .step(-1261969200, 9000, 0, "+0230", Ghost(g))
        .step(-1041388200, 9900, 0, "+0245", Ghost(g))
        .step(-865305900, 10800, 0, "EAT", Ghost(g))
        .finish(Ghost(g))
}

/// The zone `Africa/Bamako`.
pub fn bamako() -> (r: Tz)
    ensures
        r.wf(),
        r.zone_name() == "Africa/Bamako"@,
        r.table() == tables::africa::bamako(),
{
    let ghost g = tables::africa::bamako_rows();
    FixedTimespanSet::begin("Africa/Bamako", -1920, 0, "LMT", Ghost(g))
        .step(-1830382080, 0, 0, "GMT", Ghost(g))
        .step(-1131235200, -3600, 0, "-01", Ghost(g))
        .step(-300841200, 0, 0, "GMT", Ghost(g))
        .finish(Ghost(g))
}

/// The zone `Africa/Bangui`.
pub fn bangui() -> (r: Tz)
    ensures
        r.wf(),
        r.zone_name() == "Africa/Bangui"@,
        r.table() == tables::africa::bangui(),
{
    let ghost g = tables::africa::bangui_rows();
    FixedTimespanSet::begin("Africa/Bangui", 4460, 0, "LMT", Ghost(g))
        .step(-1830388460, 3600, 0, "WAT", Ghost(g))
        .finish(Ghost(g))
}

/// The zone `Africa/Banjul`.
pub fn banjul() -> (r: Tz)
    ensures
        r.wf(),
        r.zone_name() == "Africa/Banjul"@,
        r.table() == tables::africa::banjul(),
{
    let ghost g = tables::africa::banjul_rows();
    FixedTimespanSet::begin("Africa/Banjul", -3996, 0, "LMT", Ghost(g))
        .step(-1830380004, -3996, 0, "BMT", Ghost(g))
        .step(-1159829604, -3600, 0, "-01", Ghost(g))
        .step(-880930800, 0, 0, "GMT", Ghost(g))
        .finish(Ghost(g))
}

/// The zone `Africa/Bissau`.
pub fn bissau() -> (r: Tz)
    ensures
        r.wf(),
        r.zone_name() == "Africa/Bissau"@,
        r.table() == tables::africa::bissau(),
{
    let ghost g = tables::africa::bissau_rows();
    FixedTimespanSet::begin("Africa/Bissau", -3740, 0, "LMT", Ghost(g))
        .step(-1830380400, -3600, 0, "-01", Ghost(g))
        .step(157770000, 0, 0, "GMT", Ghost(g))
        .finish(Ghost(g))
}

/// The zone `Africa/Blantyre`.
pub fn blantyre() -> (r: Tz)
    ensures
        r.wf(),
        r.zone_name() == "Africa/Blantyre"@,
        r.table() == tables::africa::blantyre(),
{
    let ghost g = tables::africa::blantyre_rows();
    FixedTimespanSet::begin("Africa/Blantyre", 8400, 0, "LMT", Ghost(g))
        .step(-1844302800, 8470, 0, "ZMT", Ghost(g))
        .step(-1751682070, 8460, 0, "ZMT", Ghost(g))
        .step(-1404440460, 7200, 0, "CAT", Ghost(g))
        .finish(Ghost(g))
}

/// The zone `Africa/Brazzaville`.
pub fn brazzaville() -> (r: Tz)
    ensures
        r.wf(),
        r.zone_name() == "Africa/Brazzaville"@,
        r.table() == tables::africa::brazzaville(),
{
    let ghost g = tables::africa::brazzaville_rows();
    FixedTimespanSet::begin("Africa/Brazzaville", 3668, 0, "LMT", Ghost(g))
        .step(-1830387668, 3600, 0, "WAT", Ghost(g))
        .finish(Ghost(g))
}

/// The zone `Africa/Bujumbura`.
pub fn bujumbura() -> (r: Tz)
    ensures
        r.wf(),
        r.zone_name() == "Africa/Bujumbura"@,
        r.table() == tables::africa::bujumbura(),
{
    let ghost g = tables::africa::bujumbura_rows();
    FixedTimespanSet::begin("Africa/Bujumbura", 7048, 0, "LMT", Ghost(g))
        .step(-2524528648, 7200, 0, "CAT", Ghost(g))
        .finish(Ghost(g))
}

/// The zone `Africa/Cairo`.
pub fn cairo() -> (r: Tz)
    ensures
        r.wf(),
        r.zone_name() == "Africa/Cairo"@,
        r.table() == tables::africa::cairo(),
{
    let ghost g = tables::africa::cairo_rows();
    FixedTimespanSet::begin("Africa/Cairo", 7509, 0, "LMT", Ghost(g))
        .step(-2185409109, 7200, 0, "EET", Ghost(g))
        .step(-929844000, 7200, 3600, "EEST", Ghost(g))
        .step(-923108400, 7200, 0, "EET", Ghost(g))
        .step(-906170400, 7200, 3600, "EEST", Ghost(g))
        .step(-892868400, 7200, 0, "EET", Ghost(g))
        .step(-875844000, 7200, 3600, "EEST", Ghost(g))
        .step(-857790000, 7200, 0, "EET", Ghost(g))
        .step(-844308000, 7200, 3600, "EEST", Ghost(g))
        .step(-825822000, 7200, 0, "EET", Ghost(g))
        .step(-812685600, 7200, 3600, "EEST", Ghost(g))
        .step(-794199600, 7200, 0, "EET", Ghost(g))
        .step(-779853600, 7200, 3600, "EEST", Ghost(g))
        .step(-762663600, 7200, 0, "EET", Ghost(g))
        .step(-399088800, 7200, 3600, "EEST", Ghost(g))
        .step(-386650800, 7200, 0, "EET", Ghost(g))
        .step(-368330400, 7200, 3600, "EEST", Ghost(g))
        .step(-355114800, 7200, 0, "EET", Ghost(g))
        .step(-336790800, 7200, 3600, "EEST", Ghost(g))
        .step(-323654400, 7200, 0, "EET", Ghost(g))
        .step(-305168400, 7200, 3600, "EEST", Ghost(g))
        .step(-292032000, 7200, 0, "EET", Ghost(g))
        .step(-273632400, 7200, 3600, "EEST", Ghost(g))
        .step(-260496000, 7200, 0, "EET", Ghost(g))
        .step(-242096400, 7200, 3600, "EEST", Ghost(g))
        .step(-228960000, 7200, 0, "EET", Ghost(g))
        .step(-210560400, 7200, 3600, "EEST", Ghost(g))
        .step(-197424000, 7200, 0, "EET", Ghost(g))
        .step(-178938000, 7200, 3600, "EEST", Ghost(g))
        .step(-165801600, 7200, 0, "EET", Ghost(g))
        .step(-147402000, 7200, 3600, "EEST", Ghost(g))
        .step(-134265600, 7200, 0, "EET", Ghost(g))
        .step(-115866000, 7200, 3600, "EEST", Ghost(g))
        .step(-102643200, 7200, 0, "EET", Ghost(g))
        .step(-84330000, 7200, 3600, "EEST", Ghost(g))
        .step(-71107200, 7200, 0, "EET", Ghost(g))
        .step(-52707600, 7200, 3600, "EEST", Ghost(g))
        .step(-39484800, 7200, 0, "EET", Ghost(g))
        .step(-21171600, 7200, 3600, "EEST", Ghost(g))
        .step(-7948800, 7200, 0, "EET", Ghost(g))
        .step(10364400, 7200, 3600, "EEST", Ghost(g))
        .step(23587200, 7200, 0, "EET", Ghost(g))
        .step(41900400, 7200, 3600, "EEST", Ghost(g))
        .step(55123200, 7200, 0, "EET", Ghost(g))
        .step(73522800, 7200, 3600, "EEST", Ghost(g))
        .step(86745600, 7200, 0, "EET", Ghost(g))
        .step(105058800, 7200, 3600, "EEST", Ghost(g))
        .step(118281600, 7200, 0, "EET", Ghost(g))
        .step(136594800, 7200, 3600, "EEST", Ghost(g))
        .step(149817600, 7200, 0, "EET", Ghost(g))
        .step(168130800, 7200, 3600, "EEST", Ghost(g))
        .step(181353600, 7200, 0, "EET", Ghost(g))
        .step(199753200, 7200, 3600, "EEST", Ghost(g))
        .step(212976000, 7200, 0, "EET", Ghost(g))
        .step(231289200, 7200, 3600, "EEST", Ghost(g))
        .step(244512000, 7200, 0, "EET", Ghost(g))
        .step(262825200, 7200, 3600, "EEST", Ghost(g))
        .step(276048000, 7200, 0, "EET", Ghost(g))
        .step(294361200, 7200, 3600, "EEST", Ghost(g))
        .step(307584000, 7200, 0, "EET", Ghost(g))
        .step(325983600, 7200, 3600, "EEST", Ghost(g))
        .step(339206400, 7200, 0, "EET", Ghost(g))
        .step(357519600, 7200, 3600, "EEST", Ghost(g))
        .step(370742400, 7200, 0, "EET", Ghost(g))
        .step(396399600, 7200, 3600, "EEST", Ghost(g))
        .step(402278400, 7200, 0, "EET", Ghost(g))
        .step(426812400, 7200, 3600, "EEST", Ghost(g))
        .step(433814400, 7200, 0, "EET", Ghost(g))
        .step(452214000, 7200, 3600, "EEST", Ghost(g))
        .step(465436800, 7200, 0, "EET", Ghost(g))
        .step(483750000, 7200, 3600, "EEST", Ghost(g))
        .step(496972800, 7200, 0, "EET", Ghost(g))
        .step(515286000, 7200, 3600, "EEST", Ghost(g))
        .step(528508800, 7200, 0, "EET", Ghost(g))
        .step(546822000, 7200, 3600, "EEST", Ghost(g))
        .step(560044800, 7200, 0, "EET", Ghost(g))
        .step(578444400, 7200, 3600, "EEST", Ghost(g))
        .step(591667200, 7200, 0, "EET", Ghost(g))
        .step(610412400, 7200, 3600, "EEST", Ghost(g))
        .step(623203200, 7200, 0, "EET", Ghost(g))
        .step(641516400, 7200, 3600, "EEST", Ghost(g))
        .step(654739200, 7200, 0, "EET", Ghost(g))
        .step(673052400, 7200, 3600, "EEST", Ghost(g))
        .step(686275200, 7200, 0, "EET", Ghost(g))
        .step(704674800, 7200, 3600, "EEST", Ghost(g))
        .step(717897600, 7200, 0, "EET", Ghost(g))
        .step(736210800, 7200, 3600, "EEST", Ghost(g))
        .step(749433600, 7200, 0, "EET", Ghost(g))
        .step(767746800, 7200, 3600, "EEST", Ghost(g))
        .step(780969600, 7200, 0, "EET", Ghost(g))
        .step(799020000, 7200, 3600, "EEST", Ghost(g))
        .step(812322000, 7200, 0, "EET", Ghost(g))
        .step(830469600, 7200, 3600, "EEST", Ghost(g))
        .step(843771600, 7200, 0, "EET", Ghost(g))
        .step(861919200, 7200, 3600, "EEST", Ghost(g))
        .step(875221200, 7200, 0, "EET", Ghost(g))
        .step(893368800, 7200, 3600, "EEST", Ghost(g))
        .step(906670800, 7200, 0, "EET", Ghost(g))
        .step(925423200, 7200, 3600, "EEST", Ghost(g))
        .step(938725200, 7200, 0, "EET", Ghost(g))
        .step(956872800, 7200, 3600, "EEST", Ghost(g))
        .step(970174800, 7200, 0, "EET", Ghost(g))
        .step(988322400, 7200, 3600, "EEST", Ghost(g))
        .step(1001624400, 7200, 0, "EET", Ghost(g))
        .step(1019772000, 7200, 3600, "EEST", Ghost(g))
        .step(1033074000, 7200, 0, "EET", Ghost(g))
        .step(1051221600, 7200, 3600, "EEST", Ghost(g))
        .step(1064523600, 7200, 0, "EET", Ghost(g))
        .step(1083276000, 7200, 3600, "EEST", Ghost(g))
        .step(1096578000, 7200, 0, "EET", Ghost(g))
        .step(1114725600, 7200, 3600, "EEST", Ghost(g))
        .step(1128027600, 7200, 0, "EET", Ghost(g))
        .step(1146175200, 7200, 3600, "EEST", Ghost(g))
        .step(1158872400, 7200, 0, "EET", Ghost(g))
        .step(1177624800, 7200, 3600, "EEST", Ghost(g))
        .step(1189112400, 7200, 0, "EET", Ghost(g))
        .step(1209074400, 7200, 3600, "EEST", Ghost(g))
        .step(1219957200, 7200, 0, "EET", Ghost(g))
        .step(1240524000, 7200, 3600, "EEST", Ghost(g))
        .step(1250802000, 7200, 0, "EET", Ghost(g))
        .step(1272578400, 7200, 3600, "EEST", Ghost(g))
        .step(1281474000, 7200, 0, "EET", Ghost(g))
        .step(1284069600, 7200, 3600, "EEST", Ghost(g))
        .step(1285880400, 7200, 0, "EET", Ghost(g))
        .step(1400191200, 7200, 3600, "EEST", Ghost(g))
        .step(1403816400, 7200, 0, "EET", Ghost(g))
        .step(1406844000, 7200, 3600, "EEST", Ghost(g))
        .step(1411678800, 7200, 0, "EET", Ghost(g))
        .step(1682632800, 7200, 3600, "EEST", Ghost(g))
        .step(1698354000, 7200, 0, "EET", Ghost(g))
        .step(1714082400, 7200, 3600, "EEST", Ghost(g))
        .step(1730408400, 7200, 0, "EET", Ghost(g))
        .step(1745532000, 7200, 3600, "EEST", Ghost(g))
        .step(1761858000, 7200, 0, "EET", Ghost(g))
        .step(1776981600, 7200, 3600, "EEST", Ghost(g))
        .step(1793307600, 7200, 0, "EET", Ghost(g))
        .step(1809036000, 7200, 3600, "EEST", Ghost(g))
        .step(1824757200, 7200, 0, "EET", Ghost(g))
        .step(1840485600, 7200, 3600, "EEST", Ghost(g))
        .step(1856206800, 7200, 0, "EET", Ghost(g))
        .step(1871935200, 7200, 3600, "EEST", Ghost(g))
        .step(1887656400, 7200, 0, "EET", Ghost(g))
        .step(1903384800, 7200, 3600, "EEST", Ghost(g))
        .step(1919710800, 7200, 0, "EET", Ghost(g))
        .step(1934834400, 7200, 3600, "EEST", Ghost(g))
        .step(1951160400, 7200, 0, "EET", Ghost(g))
        .step(1966888800, 7200, 3600, "EEST", Ghost(g))
        .step(1982610000, 7200, 0, "EET", Ghost(g))
        .step(1998338400, 7200, 3600, "EEST", Ghost(g))
        .step(2014059600, 7200, 0, "EET", Ghost(g))
        .step(2029788000, 7200, 3600, "EEST", Ghost(g))
        .step(2045509200, 7200, 0, "EET", Ghost(g))
        .step(2061237600, 7200, 3600, "EEST", Ghost(g))
        .step(2076958800, 7200, 0, "EET", Ghost(g))
        .step(2092687200, 7200, 3600, "EEST", Ghost(g))
        .step(2109013200, 7200, 0, "EET", Ghost(g))
        .step(2124136800, 7200, 3600, "EEST", Ghost(g))
        .step(2140462800, 7200, 0, "EET", Ghost(g))
        .finish(Ghost(g))
}

/// The zone `Africa/Casablanca`.
pub fn casablanca() -> (r: Tz)
    ensures
        r.wf(),
        r.zone_name() == "Africa/Casablanca"@,
        r.table() == tables::africa::casablanca(),
{
    let ghost g = tables::africa::casablanca_rows();
    FixedTimespanSet::begin("Africa/Casablanca", -1820, 0, "LMT", Ghost(g))
        .step(-1773012580, 0, 0, "+00", Ghost(g))
        .step(-956361600, 0, 3600, "+01", Ghost(g))
        .step(-950490000, 0, 0, "+00", Ghost(g))
        .step(-942019200, 0, 3600, "+01", Ghost(g))
        .step(-761187600, 0, 0, "+00", Ghost(g))
        .step(-617241600, 0, 3600, "+01", Ghost(g))
        .step(-605149200, 0, 0, "+00", Ghost(g))
        .step(-81432000, 0, 3600, "+01", Ghost(g))
        .step(-71110800, 0, 0, "+00", Ghost(g))
        .step(141264000, 0, 3600, "+01", Ghost(g))
        .step(147222000, 0, 0, "+00", Ghost(g))
        .step(199756800, 0, 3600, "+01", Ghost(g))
        .step(207702000, 0, 0, "+00", Ghost(g))
        .step(231292800, 0, 3600, "+01", Ghost(g))
        .step(244249200, 0, 0, "+00", Ghost(g))
        .step(265507200, 0, 3600, "+01", Ghost(g))
        .step(271033200, 0, 0, "+00", Ghost(g))
        .step(448243200, 3600, 0, "+01", Ghost(g))
        .step(504918000, 0, 0, "+00", Ghost(g))
        .step(1212278400, 0, 3600, "+01", Ghost(g))
        .step(1220223600, 0, 0, "+00", Ghost(g))
        .step(1243814400, 0, 3600, "+01", Ghost(g))
        .step(1250809200, 0, 0, "+00", Ghost(g))
        .step(1272758400, 0, 3600, "+01", Ghost(g))
        .step(1281222000, 0, 0, "+00", Ghost(g))
        .step(1301788800, 0, 3600, "+01", Ghost(g))
        .step(1312066800, 0, 0, "+00", Ghost(g))
        .step(1335664800, 0, 3600, "+01", Ghost(g))
        .step(1342749600, 0, 0, "+00", Ghost(g))
        .step(1345428000, 0, 3600, "+01", Ghost(g))
        .step(1348970400, 0, 0, "+00", Ghost(g))
        .step(1367114400, 0, 3600, "+01", Ghost(g))
        .step(1373162400, 0, 0, "+00", Ghost(g))
        .step(1376100000, 0, 3600, "+01", Ghost(g))
        .step(1382839200, 0, 0, "+00", Ghost(g))
        .step(1396144800, 0, 3600, "+01", Ghost(g))
        .step(1403920800, 0, 0, "+00", Ghost(g))
        .step(1406944800, 0, 3600, "+01", Ghost(g))
        .step(1414288800, 0, 0, "+00", Ghost(g))
        .step(1427594400, 0, 3600, "+01", Ghost(g))
        .step(1434247200, 0, 0, "+00", Ghost(g))
        .step(1437271200, 0, 3600, "+01", Ghost(g))
        .step(1445738400, 0, 0, "+00", Ghost(g))
        .step(1459044000, 0, 3600, "+01", Ghost(g))
        .step(1465092000, 0, 0, "+00", Ghost(g))
        .step(1468116000, 0, 3600, "+01", Ghost(g))
        .step(1477792800, 0, 0, "+00", Ghost(g))
        .step(1490493600, 0, 3600, "+01", Ghost(g))
        .step(1495332000, 0, 0, "+00", Ghost(g))
        .step(1498960800, 0, 3600, "+01", Ghost(g))
        .step(1509242400, 0, 0, "+00", Ghost(g))
        .step(1521943200, 0, 3600, "+01", Ghost(g))
        .step(1526176800, 0, 0, "+00", Ghost(g))
        .step(1529200800, 0, 3600, "+01", Ghost(g))
        .step(1540692000, 3600, 0, "+01", Ghost(g))
        .step(1557021600, -3600, 3600, "+00", Ghost(g))
        .step(1560045600, 3600, 0, "+01", Ghost(g))
        .step(1587261600, -3600, 3600, "+00", Ghost(g))
        .step(1590890400, 3600, 0, "+01", Ghost(g))
        .step(1618106400, -3600, 3600, "+00", Ghost(g))
        .step(1621130400, 3600, 0, "+01", Ghost(g))
        .step(1648346400, -3600, 3600, "+00", Ghost(g))
        .step(1651975200, 3600, 0, "+01", Ghost(g))
        .step(1679191200, -3600, 3600, "+00", Ghost(g))
        .step(1682215200, 3600, 0, "+01", Ghost(g))
        .step(1710036000, -3600, 3600, "+00", Ghost(g))
        .step(1713060000, 3600, 0, "+01", Ghost(g))
        .step(1740276000, -3600, 3600, "+00", Ghost(g))
        .step(1743904800, 3600, 0, "+01", Ghost(g))
        .step(1771120800, -3600, 3600, "+00", Ghost(g))
        .step(1774144800, 3600, 0, "+01", Ghost(g))
        .step(1801965600, -3600, 3600, "+00", Ghost(g))
        .step(1804989600, 3600, 0, "+01", Ghost(g))
        .step(1832205600, -3600, 3600, "+00", Ghost(g))
        .step(1835834400, 3600, 0, "+01", Ghost(g))
        .step(1863050400, -3600, 3600, "+00", Ghost(g))
        .step(1866074400, 3600, 0, "+01", Ghost(g))
        .step(1893290400, -3600, 3600, "+00", Ghost(g))
        .step(1896919200, 3600, 0, "+01", Ghost(g))
        .step(1924135200, -3600, 3600, "+00", Ghost(g))
        .step(1927159200, 3600, 0, "+01", Ghost(g))
        .step(1954980000, -3600, 3600, "+00", Ghost(g))
        .step(1958004000, 3600, 0, "+01", Ghost(g))
        .step(1985220000, -3600, 3600, "+00", Ghost(g))
        .step(1988848800, 3600, 0, "+01", Ghost(g))
        .step(2016064800, -3600, 3600, "+00", Ghost(g))
        .step(2019088800, 3600, 0, "+01", Ghost(g))
        .step(2046304800, -3600, 3600, "+00", Ghost(g))
        .step(2049933600, 3600, 0, "+01", Ghost(g))
        .step(2077149600, -3600, 3600, "+00", Ghost(g))
        .step(2080778400, 3600, 0, "+01", Ghost(g))
        .step(2107994400, -3600, 3600, "+00", Ghost(g))
        .step(2111018400, 3600, 0, "+01", Ghost(g))
        .step(2138234400, -3600, 3600, "+00", Ghost(g))
        .step(2141863200, 3600, 0, "+01", Ghost(g))
        .step(2169079200, -3600, 3600, "+00", Ghost(g))
        .step(2172103200, 3600, 0, "+01", Ghost(g))
        .step(2199924000, -3600, 3600, "+00", Ghost(g))
        .step(2202948000, 3600, 0, "+01", Ghost(g))
        .step(2230164000, -3600, 3600, "+00", Ghost(g))
        .step(2233792800, 3600, 0, "+01", Ghost(g))
        .step(2261008800, -3600, 3600, "+00", Ghost(g))
        .step(2264032800, 3600, 0, "+01", Ghost(g))
        .step(2291248800, -3600, 3600, "+00", Ghost(g))
        .step(2294877600, 3600, 0, "+01", Ghost(g))
        .step(2322093600, -3600, 3600, "+00", Ghost(g))
        .step(2325722400, 3600, 0, "+01", Ghost(g))
        .step(2352938400, -3600, 3600, "+00", Ghost(g))
        .step(2355962400, 3600, 0, "+01", Ghost(g))
        .step(2383178400, -3600, 3600, "+00", Ghost(g))
        .step(2386807200, 3600, 0, "+01", Ghost(g))
        .step(2414023200, -3600, 3600, "+00", Ghost(g))
        .step(2417047200, 3600, 0, "+01", Ghost(g))
        .step(2444868000, -3600, 3600, "+00", Ghost(g))
        .step(2447892000, 3600, 0, "+01", Ghost(g))
        .step(2475108000, -3600, 3600, "+00", Ghost(g))
        .step(2478736800, 3600, 0, "+01", Ghost(g))
        .step(2505952800, -3600, 3600, "+00", Ghost(g))
        .step(2508976800, 3600, 0, "+01", Ghost(g))
        .step(2536192800, -3600, 3600, "+00", Ghost(g))
        .step(2539821600, 3600, 0, "+01", Ghost(g))
        .step(2567037600, -3600, 3600, "+00", Ghost(g))
        .step(2570666400, 3600, 0, "+01", Ghost(g))
        .step(2597882400, -3600, 3600, "+00", Ghost(g))
        .step(2600906400, 3600, 0, "+01", Ghost(g))
        .step(2628122400, -3600, 3600, "+00", Ghost(g))
        .step(2631751200, 3600, 0, "+01", Ghost(g))
        .step(2658967200, -3600, 3600, "+00", Ghost(g))
        .step(2661991200, 3600, 0, "+01", Ghost(g))
        .step(2689812000, -3600, 3600, "+00", Ghost(g))
        .step(2692836000, 3600, 0, "+01", Ghost(g))
        .step(2720052000, -3600, 3600, "+00", Ghost(g))
        .step(2723680800, 3600, 0, "+01", Ghost(g))
        .step(2750896800, -3600, 3600, "+00", Ghost(g))
        .step(2753920800, 3600, 0, "+01", Ghost(g))
        .step(2781136800, -3600, 3600, "+00", Ghost(g))
        .step(2784765600, 3600, 0, "+01", Ghost(g))
        .step(2811981600, -3600, 3600, "+00", Ghost(g))
        .step(2815610400, 3600, 0, "+01", Ghost(g))
        .step(2842826400, -3600, 3600, "+00", Ghost(g))
        .step(2845850400, 3600, 0, "+01", Ghost(g))
        .step(2873066400, -3600, 3600, "+00", Ghost(g))
        .step(2876695200, 3600, 0, "+01", Ghost(g))
        .step(2903911200, -3600, 3600, "+00", Ghost(g))
        .step(2906935200, 3600, 0, "+01", Ghost(g))
        .step(2934756000, -3600, 3600, "+00", Ghost(g))
        .step(2937780000, 3600, 0, "+01", Ghost(g))
        .step(2964996000, -3600, 3600, "+00", Ghost(g))
        .step(2968624800, 3600, 0, "+01", Ghost(g))
        .step(2995840800, -3600, 3600, "+00", Ghost(g))
        .step(2998864800, 3600, 0, "+01", Ghost(g))
        .step(3026080800, -3600, 3600, "+00", Ghost(g))
        .step(3029709600, 3600, 0, "+01", Ghost(g))
        .step(3056925600, -3600, 3600, "+00", Ghost(g))
        .step(3060554400, 3600, 0, "+01", Ghost(g))
        .step(3087770400, -3600, 3600, "+00", Ghost(g))
        .step(3090794400, 3600, 0, "+01", Ghost(g))
        .step(3118010400, -3600, 3600, "+00", Ghost(g))
        .step(3121639200, 3600, 0, "+01", Ghost(g))
        .step(3148855200, -3600, 3600, "+00", Ghost(g))
        .step(3151879200, 3600, 0, "+01", Ghost(g))
        .step(3179700000, -3600, 3600, "+00", Ghost(g))
        .step(3182724000, 3600, 0, "+01", Ghost(g))
        .step(3209940000, -3600, 3600, "+00", Ghost(g))
        .step(3213568800, 3600, 0, "+01", Ghost(g))
        .step(3240784800, -3600, 3600, "+00", Ghost(g))
        .step(3243808800, 3600, 0, "+01", Ghost(g))
        .step(3271024800, -3600, 3600, "+00", Ghost(g))
        .step(3274653600, 3600, 0, "+01", Ghost(g))
        .step(3301869600, -3600, 3600, "+00", Ghost(g))
        .step(3305498400, 3600, 0, "+01", Ghost(g))
        .step(3332714400, -3600, 3600, "+00", Ghost(g))
        .step(3335738400, 3600, 0, "+01", Ghost(g))
        .step(3362954400, -3600, 3600, "+00", Ghost(g))
        .step(3366583200, 3600, 0, "+01", Ghost(g))
        .step(3393799200, -3600, 3600, "+00", Ghost(g))
        .step(3396823200, 3600, 0, "+01", Ghost(g))
        .step(3424644000, -3600, 3600, "+00", Ghost(g))
        .step(3427668000, 3600, 0, "+01", Ghost(g))
        .step(3454884000, -3600, 3600, "+00", Ghost(g))
        .step(3458512800, 3600, 0, "+01", Ghost(g))
        .step(3485728800, -3600, 3600, "+00", Ghost(g))
        .step(3488752800, 3600, 0, "+01", Ghost(g))
        .step(3515968800, -3600, 3600, "+00", Ghost(g))
        .step(3519597600, 3600, 0, "+01", Ghost(g))
        .step(3546813600, -3600, 3600, "+00", Ghost(g))
        .step(3549837600, 3600, 0, "+01", Ghost(g))
        .step(3577658400, -3600, 3600, "+00", Ghost(g))
        .step(3580682400, 3600, 0, "+01", Ghost(g))
        .step(3607898400, -3600, 3600, "+00", Ghost(g))
        .step(3611527200, 3600, 0, "+01", Ghost(g))
        .step(3638743200, -3600, 3600, "+00", Ghost(g))
        .step(3641767200, 3600, 0, "+01", Ghost(g))
        .step(3669588000, -3600, 3600, "+00", Ghost(g))
        .step(3672612000, 3600, 0, "+01", Ghost(g))
        .step(3699828000, -3600, 3600, "+00", Ghost(g))
        .step(3703456800, 3600, 0, "+01", Ghost(g))
        .finish(Ghost(g))
}

/// The zone `Africa/Ceuta`.
pub fn ceuta() -> (r: Tz)
    ensures
        r.wf(),
        r.zone_name() == "Africa/Ceuta"@,
        r.table() == tables::africa::ceuta(),
{
    let ghost g = tables::africa::ceuta_rows();
    FixedTimespanSet::begin("Africa/Ceuta", -1276, 0, "LMT", Ghost(g))
        .step(-2177452800, 0, 0, "WET", Ghost(g))
        .step(-1630112400, 0, 3600, "WEST", Ghost(g))
        .step(-1616810400, 0, 0, "WET", Ghost(g))
        .step(-1442451600, 0, 3600, "WEST", Ghost(g))
        .step(-1427673600, 0, 0, "WET", Ghost(g))
        .step(-1379293200, 0, 3600, "WEST", Ghost(g))
        .step(-1364774400, 0, 0, "WET", Ghost(g))
        .step(-1348448400, 0, 3600, "WEST", Ghost(g))
        .step(-1333324800, 0, 0, "WET", Ghost(g))
        .step(-1316390400, 0, 3600, "WEST", Ghost(g))
        .step(-1301270400, 0, 0, "WET", Ghost(g))
        .step(-81432000, 0, 3600, "WEST", Ghost(g))
        .step(-71110800, 0, 0, "WET", Ghost(g))
        .step(141264000, 0, 3600, "WEST", Ghost(g))
        .step(147222000, 0, 0, "WET", Ghost(g))
        .step(199756800, 0, 3600, "WEST", Ghost(g))
        .step(207702000, 0, 0, "WET", Ghost(g))
        .step(231292800, 0, 3600, "WEST", Ghost(g))
        .step(244249200, 0, 0, "WET", Ghost(g))
        .step(265507200, 0, 3600, "WEST", Ghost(g))
        .step(271033200, 0, 0, "WET", Ghost(g))
        .step(448243200, 3600, 0, "CET", Ghost(g))
        .step(512528400, 3600, 3600, "CEST", Ghost(g))
        .step(528253200, 3600, 0, "CET", Ghost(g))
        .step(543978000, 3600, 3600, "CEST", Ghost(g))
        .step(559702800, 3600, 0, "CET", Ghost(g))
        .step(575427600, 3600, 3600, "CEST", Ghost(g))
        .step(591152400, 3600, 0, "CET", Ghost(g))
        .step(606877200, 3600, 3600, "CEST", Ghost(g))
        .step(622602000, 3600, 0, "CET", Ghost(g))
        .step(638326800, 3600, 3600, "CEST", Ghost(g))
        .step(654656400, 3600, 0, "CET", Ghost(g))
        .step(670381200, 3600, 3600, "CEST", Ghost(g))
        .step(686106000, 3600, 0, "CET", Ghost(g))
        .step(701830800, 3600, 3600, "CEST", Ghost(g))
        .step(717555600, 3600, 0, "CET", Ghost(g))
        .step(733280400, 3600, 3600, "CEST", Ghost(g))
        .step(749005200, 3600, 0, "CET", Ghost(g))
        .step(764730000, 3600, 3600, "CEST", Ghost(g))
        .step(780454800, 3600, 0, "CET", Ghost(g))
        .step(796179600, 3600, 3600, "CEST", Ghost(g))
        .step(811904400, 3600, 0, "CET", Ghost(g))
        .step(828234000, 3600, 3600, "CEST", Ghost(g))
        .step(846378000, 3600, 0, "CET", Ghost(g))
        .step(859683600, 3600, 3600, "CEST", Ghost(g))
        .step(877827600, 3600, 0, "CET", Ghost(g))
        .step(891133200, 3600, 3600, "CEST", Ghost(g))
        .step(909277200, 3600, 0, "CET", Ghost(g))
        .step(922582800, 3600, 3600, "CEST", Ghost(g))
        .step(941331600, 3600, 0, "CET", Ghost(g))
        .step(954032400, 3600, 3600, "CEST", Ghost(g))
        .step(972781200, 3600, 0, "CET", Ghost(g))
        .step(985482000, 3600, 3600, "CEST", Ghost(g))
        .step(1004230800, 3600, 0, "CET", Ghost(g))
        .step(1017536400, 3600, 3600, "CEST", Ghost(g))
        .step(1035680400, 3600, 0, "CET", Ghost(g))
        .step(1048986000, 3600, 3600, "CEST", Ghost(g))
        .step(1067130000, 3600, 0, "CET", Ghost(g))
        .step(1080435600, 3600, 3600, "CEST", Ghost(g))
        .step(1099184400, 3600, 0, "CET", Ghost(g))
        .step(1111885200, 3600, 3600, "CEST", Ghost(g))
        .step(1130634000, 3600, 0, "CET", Ghost(g))
        .step(1143334800, 3600, 3600, "CEST", Ghost(g))
        .step(1162083600, 3600, 0, "CET", Ghost(g))
        .step(1174784400, 3600, 3600, "CEST", Ghost(g))
        .step(1193533200, 3600, 0, "CET", Ghost(g))
        .step(1206838800, 3600, 3600, "CEST", Ghost(g))
        .step(1224982800, 3600, 0, "CET", Ghost(g))
        .step(1238288400, 3600, 3600, "CEST", Ghost(g))
        .step(1256432400, 3600, 0, "CET", Ghost(g))
        .step(1269738000, 3600, 3600, "CEST", Ghost(g))
        .step(1288486800, 3600, 0, "CET", Ghost(g))
        .step(1301187600, 3600, 3600, "CEST", Ghost(g))
        .step(1319936400, 3600, 0, "CET", Ghost(g))
        .step(1332637200, 3600, 3600, "CEST", Ghost(g))
        .step(1351386000, 3600, 0, "CET", Ghost(g))
        .step(1364691600, 3600, 3600, "CEST", Ghost(g))
        .step(1382835600, 3600, 0, "CET", Ghost(g))
        .step(1396141200, 3600, 3600, "CEST", Ghost(g))
        .step(1414285200, 3600, 0, "CET", Ghost(g))
        .step(1427590800, 3600, 3600, "CEST", Ghost(g))
        .step(1445734800, 3600, 0, "CET", Ghost(g))
        .step(1459040400, 3600, 3600, "CEST", Ghost(g))
        .step(1477789200, 3600, 0, "CET", Ghost(g))
        .step(1490490000, 3600, 3600, "CEST", Ghost(g))
        .step(1509238800, 3600, 0, "CET", Ghost(g))
        .step(1521939600, 3600, 3600, "CEST", Ghost(g))
        .step(1540688400, 3600, 0, "CET", Ghost(g))
        .step(1553994000, 3600, 3600, "CEST", Ghost(g))
        .step(1572138000, 3600, 0, "CET", Ghost(g))
        .step(1585443600, 3600, 3600, "CEST", Ghost(g))
        .step(1603587600, 3600, 0, "CET", Ghost(g))
        .step(1616893200, 3600, 3600, "CEST", Ghost(g))
        .step(1635642000, 3600, 0, "CET", Ghost(g))
        .step(1648342800, 3600, 3600, "CEST", Ghost(g))
        .step(1667091600, 3600, 0, "CET", Ghost(g))
        .step(1679792400, 3600, 3600, "CEST", Ghost(g))
        .step(1698541200, 3600, 0, "CET", Ghost(g))
        .step(1711846800, 3600, 3600, "CEST", Ghost(g))
        .step(1729990800, 3600, 0, "CET", Ghost(g))
        .step(1743296400, 3600, 3600, "CEST", Ghost(g))
        .step(1761440400, 3600, 0, "CET", Ghost(g))
        .step(1774746000, 3600, 3600, "CEST", Ghost(g))
        .step(1792890000, 3600, 0, "CET", Ghost(g))
        .step(1806195600, 3600, 3600, "CEST", Ghost(g))
        .step(1824944400, 3600, 0, "CET", Ghost(g))
        .step(1837645200, 3600, 3600, "CEST", Ghost(g))
        .step(1856394000, 3600, 0, "CET", Ghost(g))
        .step(1869094800, 3600, 3600, "CEST", Ghost(g))
        .step(1887843600, 3600, 0, "CET", Ghost(g))
        .step(1901149200, 3600, 3600, "CEST", Ghost(g))
        .step(1919293200, 3600, 0, "CET", Ghost(g))
        .step(1932598800, 3600, 3600, "CEST", Ghost(g))
        .step(1950742800, 3600, 0, "CET", Ghost(g))
        .step(1964048400, 3600, 3600, "CEST", Ghost(g))
        .step(1982797200, 3600, 0, "CET", Ghost(g))
        .step(1995498000, 3600, 3600, "CEST", Ghost(g))
        .step(2014246800, 3600, 0, "CET", Ghost(g))
        .step(2026947600, 3600, 3600, "CEST", Ghost(g))
        .step(2045696400, 3600, 0, "CET", Ghost(g))
        .step(2058397200, 3600, 3600, "CEST", Ghost(g))
        .step(2077146000, 3600, 0, "CET", Ghost(g))
        .step(2090451600, 3600, 3600, "CEST", Ghost(g))
        .step(2108595600, 3600, 0, "CET", Ghost(g))
        .step(2121901200, 3600, 3600, "CEST", Ghost(g))
        .step(2140045200, 3600, 0, "CET", Ghost(g))
        .finish(Ghost(g))
}

/// The zone `Africa/Conakry`.
pub fn conakry() -> (r: Tz)
    ensures
        r.wf(),
        r.zone_name() == "Africa/Conakry"@,
        r.table() == tables::africa::conakry(),
{
    let ghost g = tables::africa::conakry_rows();
    FixedTimespanSet::begin("Africa/Conakry", -3292, 0, "LMT", Ghost(g))
        .step(-1830380708, 0, 0, "GMT", Ghost(g))
        .step(-1131235200, -3600, 0, "-01", Ghost(g))
        .step(-315615600, 0, 0, "GMT", Ghost(g))
        .finish(Ghost(g))
}

/// The zone `Africa/Dakar`.
pub fn dakar() -> (r: Tz)
    ensures
        r.wf(),
        r.zone_name() == "Africa/Dakar"@,
        r.table() == tables::africa::dakar(),
{
    let ghost g = tables::africa::dakar_rows();
    FixedTimespanSet::begin("Africa/Dakar", -4184, 0, "LMT", Ghost(g))
        .step(-1830379816, -3600, 0, "-01", Ghost(g))
        .step(-902098800, 0, 0, "GMT", Ghost(g))
        .finish(Ghost(g))
}

/// The zone `Africa/Dar_es_Salaam`.
pub fn dar_es_salaam() -> (r: Tz)
    ensures
        r.wf(),
        r.zone_name() == "Africa/Dar_es_Salaam"@,
        r.table() == tables::africa::dar_es_salaam(),
{
    let ghost g = tables::africa::dar_es_salaam_rows();
    FixedTimespanSet::begin("Africa/Dar_es_Salaam", 9428, 0, "LMT", Ghost(g))
        .step(-1230777428, 10800, 0, "EAT", Ghost(g))
        .step(-694321200, 9900, 0, "+0245", Ghost(g))
        .step(-284006700, 10800, 0, "EAT", Ghost(g))
        .finish(Ghost(g))
}

/// The zone `Africa/Djibouti`.
pub fn djibouti() -> (r: Tz)
    ensures
        r.wf(),
        r.zone_name() == "Africa/Djibouti"@,
        r.table() == tables::africa::djibouti(),
{
    let ghost g = tables::africa::djibouti_rows();
    FixedTimespanSet::begin("Africa/Djibouti", 10356, 0, "LMT", Ghost(g))
        .step(-1846291956, 10800, 0, "EAT", Ghost(g))
        .finish(Ghost(g))
}

/// The zone `Africa/Douala`.
pub fn douala() -> (r: Tz)
    ensures
        r.wf(),
        r.zone_name() == "Africa/Douala"@,
        r.table() == tables::africa::douala(),
{
    let ghost g = tables::africa::douala_rows();
    FixedTimespanSet::begin("Africa/Douala", 2328, 0, "LMT", Ghost(g))
        .step(-1830386328, 3600, 0, "WAT", Ghost(g))
        .finish(Ghost(g))
}

/// The zone `Africa/El_Aaiun`.
pub fn el_aaiun() -> (r: Tz)
    ensures
        r.wf(),
        r.zone_name() == "Africa/El_Aaiun"@,
        r.table() == tables::africa::el_aaiun(),
{
    let ghost g = tables::africa::el_aaiun_rows();
    FixedTimespanSet::begin("Africa/El_Aaiun", -3168, 0, "LMT", Ghost(g))
        .step(-1136070432, -3600, 0, "-01", Ghost(g))
        .step(198291600, 0, 0, "+00", Ghost(g))
        .step(199756800, 0, 3600, "+01", Ghost(g))
        .step(207702000, 0, 0, "+00", Ghost(g))
        .step(231292800, 0, 3600, "+01", Ghost(g))
        .step(244249200, 0, 0, "+00", Ghost(g))
        .step(265507200, 0, 3600, "+01", Ghost(g))
        .step(271033200, 0, 0, "+00", Ghost(g))
        .step(1212278400, 0, 3600, "+01", Ghost(g))
        .step(1220223600, 0, 0, "+00", Ghost(g))
        .step(1243814400, 0, 3600, "+01", Ghost(g))
        .step(1250809200, 0, 0, "+00", Ghost(g))
        .step(1272758400, 0, 3600, "+01", Ghost(g))
        .step(1281222000, 0, 0, "+00", Ghost(g))
        .step(1301788800, 0, 3600, "+01", Ghost(g))
        .step(1312066800, 0, 0, "+00", Ghost(g))
        .step(1335664800, 0, 3600, "+01", Ghost(g))
        .step(1342749600, 0, 0, "+00", Ghost(g))
        .step(1345428000, 0, 3600, "+01", Ghost(g))
        .step(1348970400, 0, 0, "+00", Ghost(g))
        .step(1367114400, 0, 3600, "+01", Ghost(g))
        .step(1373162400, 0, 0, "+00", Ghost(g))
        .step(1376100000, 0, 3600, "+01", Ghost(g))
        .step(1382839200, 0, 0, "+00", Ghost(g))
        .step(1396144800, 0, 3600, "+01", Ghost(g))
        .step(1403920800, 0, 0, "+00", Ghost(g))
        .step(1406944800, 0, 3600, "+01", Ghost(g))
        .step(1414288800, 0, 0, "+00", Ghost(g))
        .step(1427594400, 0, 3600, "+01", Ghost(g))
        .step(1434247200, 0, 0, "+00", Ghost(g))
        .step(1437271200, 0, 3600, "+01", Ghost(g))
        .step(1445738400, 0, 0, "+00", Ghost(g))
        .step(1459044000, 0, 3600, "+01", Ghost(g))
        .step(1465092000, 0, 0, "+00", Ghost(g))
        .step(1468116000, 0, 3600, "+01", Ghost(g))
        .step(1477792800, 0, 0, "+00", Ghost(g))
        .step(1490493600, 0, 3600, "+01", Ghost(g))
        .step(1495332000, 0, 0, "+00", Ghost(g))
        .step(1498960800, 0, 3600, "+01", Ghost(g))
        .step(1509242400, 0, 0, "+00", Ghost(g))
        .step(1521943200, 0, 3600, "+01", Ghost(g))
        .step(1526176800, 0, 0, "+00", Ghost(g))
        .step(1529200800, 0, 3600, "+01", Ghost(g))
        .step(1540692000, 3600, 0, "+01", Ghost(g))
        .step(1557021600, -3600, 3600, "+00", Ghost(g))
        .step(1560045600, 3600, 0, "+01", Ghost(g))
        .step(1587261600, -3600, 3600, "+00", Ghost(g))
        .step(1590890400, 3600, 0, "+01", Ghost(g))
        .step(1618106400, -3600, 3600, "+00", Ghost(g))
        .step(1621130400, 3600, 0, "+01", Ghost(g))
        .step(1648346400, -3600, 3600, "+00", Ghost(g))
        .step(1651975200, 3600, 0, "+01", Ghost(g))
        .step(1679191200, -3600, 3600, "+00", Ghost(g))
        .step(1682215200, 3600, 0, "+01", Ghost(g))
        .step(1710036000, -3600, 3600, "+00", Ghost(g))
        .step(1713060000, 3600, 0, "+01", Ghost(g))
        .step(1740276000, -3600, 3600, "+00", Ghost(g))
        .step(1743904800, 3600, 0, "+01", Ghost(g))
        .step(1771120800, -3600, 3600, "+00", Ghost(g))
        .step(1774144800, 3600, 0, "+01", Ghost(g))
        .step(1801965600, -3600, 3600, "+00", Ghost(g))
        .step(1804989600, 3600, 0, "+01", Ghost(g))
        .step(1832205600, -3600, 3600, "+00", Ghost(g))
        .step(1835834400, 3600, 0, "+01", Ghost(g))
        .step(1863050400, -3600, 3600, "+00", Ghost(g))
        .step(1866074400, 3600, 0, "+01", Ghost(g))
        .step(1893290400, -3600, 3600, "+00", Ghost(g))
        .step(1896919200, 3600, 0, "+01", Ghost(g))
        .step(1924135200, -3600, 3600, "+00", Ghost(g))
        .step(1927159200, 3600, 0, "+01", Ghost(g))
        .step(1954980000, -3600, 3600, "+00", Ghost(g))
        .step(1958004000, 3600, 0, "+01", Ghost(g))
        .step(1985220000, -3600, 3600, "+00", Ghost(g))
        .step(1988848800, 3600, 0, "+01", Ghost(g))
        .step(2016064800, -3600, 3600, "+00", Ghost(g))
        .step(2019088800, 3600, 0, "+01", Ghost(g))
        .step(2046304800, -3600, 3600, "+00", Ghost(g))
        .step(2049933600, 3600, 0, "+01", Ghost(g))
        .step(2077149600, -3600, 3600, "+00", Ghost(g))
        .step(2080778400, 3600, 0, "+01", Ghost(g))
        .step(2107994400, -3600, 3600, "+00", Ghost(g))
        .step(2111018400, 3600, 0, "+01", Ghost(g))
        .step(2138234400, -3600, 3600, "+00", Ghost(g))
        .step(2141863200, 3600, 0, "+01", Ghost(g))
        .step(2169079200, -3600, 3600, "+00", Ghost(g))
        .step(2172103200, 3600, 0, "+01", Ghost(g))
        .step(2199924000, -3600, 3600, "+00", Ghost(g))
        .step(2202948000, 3600, 0, "+01", Ghost(g))
        .step(2230164000, -3600, 3600, "+00", Ghost(g))
        .step(2233792800, 3600, 0, "+01", Ghost(g))
        .step(2261008800, -3600, 3600, "+00", Ghost(g))
        .step(2264032800, 3600, 0, "+01", Ghost(g))
        .step(2291248800, -3600, 3600, "+00", Ghost(g))
        .step(2294877600, 3600, 0, "+01", Ghost(g))
        .step(2322093600, -3600, 3600, "+00", Ghost(g))
        .step(2325722400, 3600, 0, "+01", Ghost(g))
        .step(2352938400, -3600, 3600, "+00", Ghost(g))
        .step(2355962400, 3600, 0, "+01", Ghost(g))
        .step(2383178400, -3600, 3600, "+00", Ghost(g))
        .step(2386807200, 3600, 0, "+01", Ghost(g))
        .step(2414023200, -3600, 3600, "+00", Ghost(g))
        .step(2417047200, 3600, 0, "+01", Ghost(g))
        .step(2444868000, -3600, 3600, "+00", Ghost(g))
        .step(2447892000, 3600, 0, "+01", Ghost(g))
        .step(2475108000, -3600, 3600, "+00", Ghost(g))
        .step(2478736800, 3600, 0, "+01", Ghost(g))
        .step(2505952800, -3600, 3600, "+00", Ghost(g))
        .step(2508976800, 3600, 0, "+01", Ghost(g))
        .step(2536192800, -3600, 3600, "+00", Ghost(g))
        .step(2539821600, 3600, 0, "+01", Ghost(g))
        .step(2567037600, -3600, 3600, "+00", Ghost(g))
        .step(2570666400, 3600, 0, "+01", Ghost(g))
        .step(2597882400, -3600, 3600, "+00", Ghost(g))
        .step(2600906400, 3600, 0, "+01", Ghost(g))
        .step(2628122400, -3600, 3600, "+00", Ghost(g))
        .step(2631751200, 3600, 0, "+01", Ghost(g))
        .step(2658967200, -3600, 3600, "+00", Ghost(g))
        .step(2661991200, 3600, 0, "+01", Ghost(g))
        .step(2689812000, -3600, 3600, "+00", Ghost(g))
        .step(2692836000, 3600, 0, "+01", Ghost(g))
        .step(2720052000, -3600, 3600, "+00", Ghost(g))
        .step(2723680800, 3600, 0, "+01", Ghost(g))
        .step(2750896800, -3600, 3600, "+00", Ghost(g))
        .step(2753920800, 3600, 0, "+01", Ghost(g))
        .step(2781136800, -3600, 3600, "+00", Ghost(g))
        .step(2784765600, 3600, 0, "+01", Ghost(g))
        .step(2811981600, -3600, 3600, "+00", Ghost(g))
        .step(2815610400, 3600, 0, "+01", Ghost(g))
        .step(2842826400, -3600, 3600, "+00", Ghost(g))
        .step(2845850400, 3600, 0, "+01", Ghost(g))
        .step(2873066400, -3600, 3600, "+00", Ghost(g))
        .step(2876695200, 3600, 0, "+01", Ghost(g))
        .step(2903911200, -3600, 3600, "+00", Ghost(g))
        .step(2906935200, 3600, 0, "+01", Ghost(g))
        .step(2934756000, -3600, 3600, "+00", Ghost(g))
        .step(2937780000, 3600, 0, "+01", Ghost(g))
        .step(2964996000, -3600, 3600, "+00", Ghost(g))
        .step(2968624800, 3600, 0, "+01", Ghost(g))
        .step(2995840800, -3600, 3600, "+00", Ghost(g))
        .step(2998864800, 3600, 0, "+01", Ghost(g))
        .step(3026080800, -3600, 3600, "+00", Ghost(g))
        .step(3029709600, 3600, 0, "+01", Ghost(g))
        .step(3056925600, -3600, 3600, "+00", Ghost(g))
        .step(3060554400, 3600, 0, "+01", Ghost(g))
        .step(3087770400, -3600, 3600, "+00", Ghost(g))
        .step(3090794400, 3600, 0, "+01", Ghost(g))
        .step(3118010400, -3600, 3600, "+00", Ghost(g))
        .step(3121639200, 3600, 0, "+01", Ghost(g))
        .step(3148855200, -3600, 3600, "+00", Ghost(g))
        .step(3151879200, 3600, 0, "+01", Ghost(g))
        .step(3179700000, -3600, 3600, "+00", Ghost(g))
        .step(3182724000, 3600, 0, "+01", Ghost(g))
        .step(3209940000, -3600, 3600, "+00", Ghost(g))
        .step(3213568800, 3600, 0, "+01", Ghost(g))
        .step(3240784800, -3600, 3600, "+00", Ghost(g))
        .step(3243808800, 3600, 0, "+01", Ghost(g))
        .step(3271024800, -3600, 3600, "+00", Ghost(g))
        .step(3274653600, 3600, 0, "+01", Ghost(g))
        .step(3301869600, -3600, 3600, "+00", Ghost(g))
        .step(3305498400, 3600, 0, "+01", Ghost(g))
        .step(3332714400, -3600, 3600, "+00", Ghost(g))
        .step(3335738400, 3600, 0, "+01", Ghost(g))
        .step(3362954400, -3600, 3600, "+00", Ghost(g))
        .step(3366583200, 3600, 0, "+01", Ghost(g))
        .step(3393799200, -3600, 3600, "+00", Ghost(g))
        .step(3396823200, 3600, 0, "+01", Ghost(g))
        .step(3424644000, -3600, 3600, "+00", Ghost(g))
        .step(3427668000, 3600, 0, "+01", Ghost(g))
        .step(3454884000, -3600, 3600, "+00", Ghost(g))
        .step(3458512800, 3600, 0, "+01", Ghost(g))
        .step(3485728800, -3600, 3600, "+00", Ghost(g))
        .step(3488752800, 3600, 0, "+01", Ghost(g))
        .step(3515968800, -3600, 3600, "+00", Ghost(g))
        .step(3519597600, 3600, 0, "+01", Ghost(g))
        .step(3546813600, -3600, 3600, "+00", Ghost(g))
        .step(3549837600, 3600, 0, "+01", Ghost(g))
        .step(3577658400, -3600, 3600, "+00", Ghost(g))
        .step(3580682400, 3600, 0, "+01", Ghost(g))
        .step(3607898400, -3600, 3600, "+00", Ghost(g))
        .step(3611527200, 3600, 0, "+01", Ghost(g))
        .step(3638743200, -3600, 3600, "+00", Ghost(g))
        .step(3641767200, 3600, 0, "+01", Ghost(g))
        .step(3669588000, -3600, 3600, "+00", Ghost(g))
        .step(3672612000, 3600, 0, "+01", Ghost(g))
        .step(3699828000, -3600, 3600, "+00", Ghost(g))
        .step(3703456800, 3600, 0, "+01", Ghost(g))
        .finish(Ghost(g))
}

/// The zone `Africa/Freetown`.
pub fn freetown() -> (r: Tz)
    ensures
        r.wf(),
        r.zone_name() == "Africa/Freetown"@,
        r.table() == tables::africa::freetown(),
{
    let ghost g = tables::africa::freetown_rows();
    FixedTimespanSet::begin("Africa/Freetown", -3180, 0, "LMT", Ghost(g))
        .step(-2776979220, -3180, 0, "FMT", Ghost(g))
        .step(-1783120020, -3600, 0, "-01", Ghost(g))
        .step(-1170284400, -3600, 1200, "-0040", Ghost(g))
        .step(-1159831200, -3600, 0, "-01", Ghost(g))
        .step(-1146610800, -3600, 1200, "-0040", Ghost(g))
        .step(-1128295200, -3600, 0, "-01", Ghost(g))
        .step(-1115074800, -3600, 1200, "-0040", Ghost(g))
        .step(-1096759200, -3600, 0, "-01", Ghost(g))
        .step(-1083538800, -3600, 1200, "-0040", Ghost(g))
        .step(-1065136800, -3600, 0, "-01", Ghost(g))
        .step(-1051916400, -3600, 1200, "-0040", Ghost(g))
        .step(-1033600800, -3600, 0, "-01", Ghost(g))
        .step(-1020380400, -3600, 1200, "-0040", Ghost(g))
        .step(-1002064800, -3600, 0, "-01", Ghost(g))
        .step(-988844400, -3600, 1200, "-0040", Ghost(g))
        .step(-965258400, -3600, 0, "-01", Ghost(g))
        .step(-957308400, -3600, 1200, "-0040", Ghost(g))
        .step(-956964000, -3600, 0, "-01", Ghost(g))
        .step(-885769200, 0, 0, "GMT", Ghost(g))
        .finish(Ghost(g))
}

/// The zone `Africa/Gaborone`.
pub fn gaborone() -> (r: Tz)
    ensures
        r.wf(),
        r.zone_name() == "Africa/Gaborone"@,
        r.table() == tables::africa::gaborone(),
{
    let ghost g = tables::africa::gaborone_rows();
    FixedTimespanSet::begin("Africa/Gaborone", 6220, 0, "LMT", Ghost(g))
        .step(-2682294220, 5400, 0, "SAST", Ghost(g))
        .step(-2109288600, 7200, 0, "CAT", Ghost(g))
        .step(-829526400, 7200, 3600, "CAST", Ghost(g))
        .step(-813805200, 7200, 0, "CAT", Ghost(g))
        .finish(Ghost(g))
}

/// The zone `Africa/Harare`.
pub fn harare() -> (r: Tz)
    ensures
        r.wf(),
        r.zone_name() == "Africa/Harare"@,
        r.table() == tables::africa::harare(),
{
    let ghost g = tables::africa::harare_rows();
    FixedTimespanSet::begin("Africa/Harare", 7452, 0, "LMT", Ghost(g))
        .step(-2109290652, 7200, 0, "CAT", Ghost(g))
        .finish(Ghost(g))
}

/// The zone `Africa/Johannesburg`.
pub fn johannesburg() -> (r: Tz)
    ensures
        r.wf(),
        r.zone_name() == "Africa/Johannesburg"@,
        r.table() == tables::africa::johannesburg(),
{
    let ghost g = tables::africa::johannesburg_rows();
    FixedTimespanSet::begin("Africa/Johannesburg", 6720, 0, "LMT", Ghost(g))
        .step(-2458173120, 5400, 0, "SAST", Ghost(g))
        .step(-2109288600, 7200, 0, "SAST", Ghost(g))
        .step(-860976000, 7200, 3600, "SAST", Ghost(g))
        .step(-845254800, 7200, 0, "SAST", Ghost(g))
        .step(-829526400, 7200, 3600, "SAST", Ghost(g))
        .step(-813805200, 7200, 0, "SAST", Ghost(g))
        .finish(Ghost(g))
}

/// The zone `Africa/Juba`.
pub fn juba() -> (r: Tz)
    ensures
        r.wf(),
        r.zone_name() == "Africa/Juba"@,
        r.table() == tables::africa::juba(),
{
    let ghost g = tables::africa::juba_rows();
    FixedTimespanSet::begin("Africa/Juba", 7588, 0, "LMT", Ghost(g))
        .step(-1230775588, 7200, 0, "CAT", Ghost(g))
        .step(10360800, 7200, 3600, "CAST", Ghost(g))
        .step(24786000, 7200, 0, "CAT", Ghost(g))
        .step(41810400, 7200, 3600, "CAST", Ghost(g))
        .step(56322000, 7200, 0, "CAT", Ghost(g))
        .step(73432800, 7200, 3600, "CAST", Ghost(g))
        .step(87944400, 7200, 0, "CAT", Ghost(g))
        .step(104882400, 7200, 3600, "CAST", Ghost(g))
        .step(119480400, 7200, 0, "CAT", Ghost(g))
        .step(136332000, 7200, 3600, "CAST", Ghost(g))
        .step(151016400, 7200, 0, "CAT", Ghost(g))
        .step(167781600, 7200, 3600, "CAST", Ghost(g))
        .step(182552400, 7200, 0, "CAT", Ghost(g))
        .step(199231200, 7200, 3600, "CAST", Ghost(g))
        .step(214174800, 7200, 0, "CAT", Ghost(g))
        .step(230680800, 7200, 3600, "CAST", Ghost(g))
        .step(245710800, 7200, 0, "CAT", Ghost(g))
        .step(262735200, 7200, 3600, "CAST", Ghost(g))
        .step(277246800, 7200, 0, "CAT", Ghost(g))
        .step(294184800, 7200, 3600, "CAST", Ghost(g))
        .step(308782800, 7200, 0, "CAT", Ghost(g))
        .step(325634400, 7200, 3600, "CAST", Ghost(g))
        .step(340405200, 7200, 0, "CAT", Ghost(g))
        .step(357084000, 7200, 3600, "CAST", Ghost(g))
        .step(371941200, 7200, 0, "CAT", Ghost(g))
        .step(388533600, 7200, 3600, "CAST", Ghost(g))
        .step(403477200, 7200, 0, "CAT", Ghost(g))
        .step(419983200, 7200, 3600, "CAST", Ghost(g))
        .step(435013200, 7200, 0, "CAT", Ghost(g))
        .step(452037600, 7200, 3600, "CAST", Ghost(g))
        .step(466635600, 7200, 0, "CAT", Ghost(g))
        .step(483487200, 7200, 3600, "CAST", Ghost(g))
        .step(498171600, 7200, 0, "CAT", Ghost(g))
        .step(947930400, 10800, 0, "EAT", Ghost(g))
        .step(1612126800, 7200, 0, "CAT", Ghost(g))
        .finish(Ghost(g))
}

/// The zone `Africa/Kampala`.
pub fn kampala() -> (r: Tz)
    ensures
        r.wf(),
        r.zone_name() == "Africa/Kampala"@,
        r.table() == tables::africa::kampala(),
{
    let ghost g = tables::africa::kampala_rows();
    FixedTimespanSet::begin("Africa/Kampala", 7780, 0, "LMT", Ghost(g))
        .step(-1309745380, 10800, 0, "EAT", Ghost(g))
        .step(-1262314800, 9000, 0, "+0230", Ghost(g))
        .step(-694319400, 9900, 0, "+0245", Ghost(g))
        .step(-410237100, 10800, 0, "EAT", Ghost(g))
        .finish(Ghost(g))
}

/// The zone `Africa/Khartoum`.
pub fn khartoum() -> (r: Tz)
    ensures
        r.wf(),
        r.zone_name() == "Africa/Khartoum"@,
        r.table() == tables::africa::khartoum(),
{
    let ghost g = tables::africa::khartoum_rows();
    FixedTimespanSet::begin("Africa/Khartoum", 7808, 0, "LMT", Ghost(g))
        .step(-1230775808, 7200, 0, "CAT", Ghost(g))
        .step(10360800, 7200, 3600, "CAST", Ghost(g))
        .step(24786000, 7200, 0, "CAT", Ghost(g))
        .step(41810400, 7200, 3600, "CAST", Ghost(g))
        .step(56322000, 7200, 0, "CAT", Ghost(g))
        .step(73432800, 7200, 3600, "CAST", Ghost(g))
        .step(87944400, 7200, 0, "CAT", Ghost(g))
        .step(104882400, 7200, 3600, "CAST", Ghost(g))
        .step(119480400, 7200, 0, "CAT", Ghost(g))
        .step(136332000, 7200, 3600, "CAST", Ghost(g))
        .step(151016400, 7200, 0, "CAT", Ghost(g))
        .step(167781600, 7200, 3600, "CAST", Ghost(g))
        .step(182552400, 7200, 0, "CAT", Ghost(g))
        .step(199231200, 7200, 3600, "CAST", Ghost(g))
        .step(214174800, 7200, 0, "CAT", Ghost(g))
        .step(230680800, 7200, 3600, "CAST", Ghost(g))
        .step(245710800, 7200, 0, "CAT", Ghost(g))
        .step(262735200, 7200, 3600, "CAST", Ghost(g))
        .step(277246800, 7200, 0, "CAT", Ghost(g))
        .step(294184800, 7200, 3600, "CAST", Ghost(g))
        .step(308782800, 7200, 0, "CAT", Ghost(g))
        .step(325634400, 7200, 3600, "CAST", Ghost(g))
        .step(340405200, 7200, 0, "CAT", Ghost(g))
        .step(357084000, 7200, 3600, "CAST", Ghost(g))
        .step(371941200, 7200, 0, "CAT", Ghost(g))
        .step(388533600, 7200, 3600, "CAST", Ghost(g))
        .step(403477200, 7200, 0, "CAT", Ghost(g))
        .step(419983200, 7200, 3600, "CAST", Ghost(g))
        .step(435013200, 7200, 0, "CAT", Ghost(g))
        .step(452037600, 7200, 3600, "CAST", Ghost(g))
        .step(466635600, 7200, 0, "CAT", Ghost(g))
        .step(483487200, 7200, 3600, "CAST", Ghost(g))
        .step(498171600, 7200, 0, "CAT", Ghost(g))
        .step(947930400, 10800, 0, "EAT", Ghost(g))
        .step(1509483600, 7200, 0, "CAT", Ghost(g))
        .finish(Ghost(g))
}

/// The zone `Africa/Kigali`.
pub fn kigali() -> (r: Tz)
    ensures
        r.wf(),
        r.zone_name() == "Africa/Kigali"@,
        r.table() == tables::africa::kigali(),
{
    let ghost g = tables::africa::kigali_rows();
    FixedTimespanSet::begin("Africa/Kigali", 7216, 0, "LMT", Ghost(g))
        .step(-1091498416, 7200, 0, "CAT", Ghost(g))
        .finish(Ghost(g))
}

/// The zone `Africa/Kinshasa`.
pub fn kinshasa() -> (r: Tz)
    ensures
        r.wf(),
        r.zone_name() == "Africa/Kinshasa"@,
        r.table() == tables::africa::kinshasa(),
{
    let ghost g = tables::africa::kinshasa_rows();
    FixedTimespanSet::begin("Africa/Kinshasa", 3672, 0, "LMT", Ghost(g))
        .step(-2276643672, 3600, 0, "WAT", Ghost(g))
        .finish(Ghost(g))
}

/// The zone `Africa/Lagos`.
pub fn lagos() -> (r: Tz)
    ensures
        r.wf(),
        r.zone_name() == "Africa/Lagos"@,
        r.table() == tables::africa::lagos(),
{
    let ghost g = tables::africa::lagos_rows();
    FixedTimespanSet::begin("Africa/Lagos", 815, 0, "LMT", Ghost(g))
        .step(-2035584815, 0, 0, "GMT", Ghost(g))
        .step(-1940889600, 815, 0, "LMT", Ghost(g))
        .step(-1767226415, 1800, 0, "+0030", Ghost(g))
        .step(-1588465800, 3600, 0, "WAT", Ghost(g))
        .finish(Ghost(g))
}

/// The zone `Africa/Libreville`.
pub fn libreville() -> (r: Tz)
    ensures
        r.wf(),
        r.zone_name() == "Africa/Libreville"@,
        r.table() == tables::africa::libreville(),
{
    let ghost g = tables::africa::libreville_rows();
    FixedTimespanSet::begin("Africa/Libreville", 2268, 0, "LMT", Ghost(g))
        .step(-1830386268, 3600, 0, "WAT", Ghost(g))
        .finish(Ghost(g))
}

/// The zone `Africa/Lome`.
pub fn lome() -> (r: Tz)
    ensures
        r.wf(),
        r.zone_name() == "Africa/Lome"@,
        r.table() == tables::africa::lome(),
{
    let ghost g = tables::africa::lome_rows();
    FixedTimespanSet::begin("Africa/Lome", 292, 0, "LMT", Ghost(g))
        .step(-2429827492, 0, 0, "GMT", Ghost(g))
        .finish(Ghost(g))
}

/// The zone `Africa/Luanda`.
pub fn luanda() -> (r: Tz)
    ensures
        r.wf(),
        r.zone_name() == "Africa/Luanda"@,
        r.table() == tables::africa::luanda(),
{
    let ghost g = tables::africa::luanda_rows();
    FixedTimespanSet::begin("Africa/Luanda", 3176, 0, "LMT", Ghost(g))
        .step(-2461452776, 3124, 0, "LMT", Ghost(g))
        .step(-1830387600, 3600, 0, "WAT", Ghost(g))
        .finish(Ghost(g))
}

/// The zone `Africa/Lubumbashi`.
pub fn lubumbashi() -> (r: Tz)
    ensures
        r.wf(),
        r.zone_name() == "Africa/Lubumbashi"@,
        r.table() == tables::africa::lubumbashi(),
{
    let ghost g = tables::africa::lubumbashi_rows();
    FixedTimespanSet::begin("Africa/Lubumbashi", 6592, 0, "LMT", Ghost(g))
        .step(-2276646592, 3600, 0, "WAT", Ghost(g))
        .step(-1567990800, 7200, 0, "CAT", Ghost(g))
        .finish(Ghost(g))
}

/// The zone `Africa/Lusaka`.
pub fn lusaka() -> (r: Tz)
    ensures
        r.wf(),
        r.zone_name() == "Africa/Lusaka"@,
        r.table() == tables::africa::lusaka(),
{
    let ghost g = tables::africa::lusaka_rows();
    FixedTimespanSet::begin("Africa/Lusaka", 6788, 0, "LMT", Ghost(g))
        .step(-2109289988, 7200, 0, "CAT", Ghost(g))
        .finish(Ghost(g))
}

/// The zone `Africa/Malabo`.
pub fn malabo() -> (r: Tz)
    ensures
        r.wf(),
        r.zone_name() == "Africa/Malabo"@,
        r.table() == tables::africa::malabo(),
{
    let ghost g = tables::africa::malabo_rows();
    FixedTimespanSet::begin("Africa/Malabo", 2108, 0, "LMT", Ghost(g))
        .step(-1830386108, 0, 0, "GMT", Ghost(g))
        .step(-190857600, 3600, 0, "WAT", Ghost(g))
        .finish(Ghost(g))
}

/// The zone `Africa/Maputo`.
pub fn maputo() -> (r: Tz)
    ensures
        r.wf(),
        r.zone_name() == "Africa/Maputo"@,
        r.table() == tables::africa::maputo(),
{
    let ghost g = tables::africa::maputo_rows();
    FixedTimespanSet::begin("Africa/Maputo", 7818, 0, "LMT", Ghost(g))
        .step(-1924999818, 7200, 0, "CAT", Ghost(g))
        .finish(Ghost(g))
}

/// The zone `Africa/Maseru`.
pub fn maseru() -> (r: Tz)
    ensures
        r.wf(),
        r.zone_name() == "Africa/Maseru"@,
        r.table() == tables::africa::maseru(),
{
    let ghost g = tables::africa::maseru_rows();
    FixedTimespanSet::begin("Africa/Maseru", 6600, 0, "LMT", Ghost(g))
        .step(-2109289800, 7200, 0, "SAST", Ghost(g))
        .step(-829526400, 7200, 3600, "SAST", Ghost(g))
        .step(-813805200, 7200, 0, "SAST", Ghost(g))
        .finish(Ghost(g))
}

/// The zone `Africa/Mbabane`.
pub fn mbabane() -> (r: Tz)
    ensures
        r.wf(),
        r.zone_name() == "Africa/Mbabane"@,
        r.table() == tables::africa::mbabane(),
{
    let ghost g = tables::africa::mbabane_rows();
    FixedTimespanSet::begin("Africa/Mbabane", 7464, 0, "LMT", Ghost(g))
        .step(-2109290664, 7200, 0, "SAST", Ghost(g))
        .finish(Ghost(g))
}

/// The zone `Africa/Mogadishu`.
pub fn mogadishu() -> (r: Tz)
    ensures
        r.wf(),
        r.zone_name() == "Africa/Mogadishu"@,
        r.table() == tables::africa::mogadishu(),
{
    let ghost g = tables::africa::mogadishu_rows();
    FixedTimespanSet::begin("Africa/Mogadishu", 10888, 0, "LMT", Ghost(g))
        .step(-2403572488, 10800, 0, "EAT", Ghost(g))
        .step(-1230778800, 9000, 0, "+0230", Ghost(g))
        .step(-410236200, 10800, 0, "EAT", Ghost(g))
        .finish(Ghost(g))
}

/// The zone `Africa/Monrovia`.
pub fn monrovia() -> (r: Tz)
    ensures
        r.wf(),
        r.zone_name() == "Africa/Monrovia"@,
        r.table() == tables::africa::monrovia(),
{
    let ghost g = tables::africa::monrovia_rows();
    FixedTimespanSet::begin("Africa/Monrovia", -2588, 0, "LMT", Ghost(g))
        .step(-2776979812, -2588, 0, "MMT", Ghost(g))
        .step(-1604359012, -2670, 0, "MMT", Ghost(g))
        .step(63593070, 0, 0, "GMT", Ghost(g))
        .finish(Ghost(g))
}

/// The zone `Africa/Nairobi`.
pub fn nairobi() -> (r: Tz)
    ensures
        r.wf(),
        r.zone_name() == "Africa/Nairobi"@,
        r.table() == tables::africa::nairobi(),
{
    let ghost g = tables::africa::nairobi_rows();
    FixedTimespanSet::begin("Africa/Nairobi", 8836, 0, "LMT", Ghost(g))
        .step(-1946168836, 9000, 0, "+0230", Ghost(g))
        .step(-1309746600, 10800, 0, "EAT", Ghost(g))
        .step(-1261969200, 9000, 0, "+0230", Ghost(g))
        .step(-1041388200, 9900, 0, "+0245", Ghost(g))
        .step(-865305900, 10800, 0, "EAT", Ghost(g))
        .finish(Ghost(g))
}

/// The zone `Africa/Ndjamena`.
pub fn ndjamena() -> (r: Tz)
    ensures
        r.wf(),
        r.zone_name() == "Africa/Ndjamena"@,
        r.table() == tables::africa::ndjamena(),
{
    let ghost g = tables::africa::ndjamena_rows();
    FixedTimespanSet::begin("Africa/Ndjamena", 3612, 0, "LMT", Ghost(g))
        .step(-1830387612, 3600, 0, "WAT", Ghost(g))
        .step(308703600, 3600, 3600, "WAST", Ghost(g))
        .step(321314400, 3600, 0, "WAT", Ghost(g))
        .finish(Ghost(g))
}

/// The zone `Africa/Niamey`.
pub fn niamey() -> (r: Tz)
    ensures
        r.wf(),
        r.zone_name() == "Africa/Niamey"@,
        r.table() == tables::africa::niamey(),
{
    let ghost g = tables::africa::niamey_rows();
    FixedTimespanSet::begin("Africa/Niamey", 508, 0, "LMT", Ghost(g))
        .step(-1830384508, -3600, 0, "-01", Ghost(g))
        .step(-1131231600, 0, 0, "GMT", Ghost(g))
        .step(-315619200, 3600, 0, "WAT", Ghost(g))
        .finish(Ghost(g))
}

/// The zone `Africa/Nouakchott`.
pub fn nouakchott() -> (r: Tz)
    ensures
        r.wf(),
        r.zone_name() == "Africa/Nouakchott"@,
        r.table() == tables::africa::nouakchott(),
{
    let ghost g = tables::africa::nouakchott_rows();
    FixedTimespanSet::begin("Africa/Nouakchott", -3828, 0, "LMT", Ghost(g))
        .step(-1830380172, 0, 0, "GMT", Ghost(g))
        .step(-1131235200, -3600, 0, "-01", Ghost(g))
        .step(-286930800, 0, 0, "GMT", Ghost(g))
        .finish(Ghost(g))
}

/// The zone `Africa/Ouagadougou`.
pub fn ouagadougou() -> (r: Tz)
    ensures
        r.wf(),
        r.zone_name() == "Africa/Ouagadougou"@,
        r.table() == tables::africa::ouagadougou(),
{
    let ghost g = tables::africa::ouagadougou_rows();
    FixedTimespanSet::begin("Africa/Ouagadougou", -364, 0, "LMT", Ghost(g))
        .step(-1830383636, 0, 0, "GMT", Ghost(g))
        .finish(Ghost(g))
}

/// The zone `Africa/Porto-Novo`.
pub fn porto_novo() -> (r: Tz)
    ensures
        r.wf(),
        r.zone_name() == "Africa/Porto-Novo"@,
        r.table() == tables::africa::porto_novo(),
{
    let ghost g = tables::africa::porto_novo_rows();
    FixedTimespanSet::begin("Africa/Porto-Novo", 628, 0, "LMT", Ghost(g))
        .step(-1830384628, 0, 0, "GMT", Ghost(g))
        .step(-1131235200, 3600, 0, "WAT", Ghost(g))
        .finish(Ghost(g))
}

/// The zone `Africa/Sao_Tome`.
pub fn sao_tome() -> (r: Tz)
    ensures
        r.wf(),
        r.zone_name() == "Africa/Sao_Tome"@,
        r.table() == tables::africa::sao_tome(),
{
    let ghost g = tables::africa::sao_tome_rows();
    FixedTimespanSet::begin("Africa/Sao_Tome", 1616, 0, "LMT", Ghost(g))
        .step(-2713912016, -2205, 0, "LMT", Ghost(g))
        .step(-1830384000, 0, 0, "GMT", Ghost(g))
        .step(1514768400, 3600, 0, "WAT", Ghost(g))
        .step(1546304400, 0, 0, "GMT", Ghost(g))
        .finish(Ghost(g))
}

/// The zone `Africa/Timbuktu`.
pub fn timbuktu() -> (r: Tz)
    ensures
        r.wf(),
        r.zone_name() == "Africa/Timbuktu"@,
        r.table() == tables::africa::timbuktu(),
{
    let ghost g = tables::africa::timbuktu_rows();
    FixedTimespanSet::begin("Africa/Timbuktu", -968, 0, "LMT", Ghost(g))
        .step(-1830383032, 0, 0, "GMT", Ghost(g))
        .finish(Ghost(g))
}

/// The zone `Africa/Tripoli`.
pub fn tripoli() -> (r: Tz)
    ensures
        r.wf(),
        r.zone_name() == "Africa/Tripoli"@,
        r.table() == tables::africa::tripoli(),
{
    let ghost g = tables::africa::tripoli_rows();
    FixedTimespanSet::begin("Africa/Tripoli", 3164, 0, "LMT", Ghost(g))
        .step(-1577926364, 3600, 0, "CET", Ghost(g))
        .step(-574902000, 3600, 3600, "CEST", Ghost(g))
        .step(-568087200, 3600, 0, "CET", Ghost(g))
        .step(-512175600, 3600, 3600, "CEST", Ghost(g))
        .step(-504928800, 3600, 0, "CET", Ghost(g))
        .step(-449888400, 3600, 3600, "CEST", Ghost(g))
        .step(-441856800, 3600, 0, "CET", Ghost(g))
        .step(-347158800, 7200, 0, "EET", Ghost(g))
        .step(378684000, 3600, 0, "CET", Ghost(g))
        .step(386463600, 3600, 3600, "CEST", Ghost(g))
        .step(402271200, 3600, 0, "CET", Ghost(g))
        .step(417999600, 3600, 3600, "CEST", Ghost(g))
        .step(433807200, 3600, 0, "CET", Ghost(g))
        .step(449622000, 3600, 3600, "CEST", Ghost(g))
        .step(465429600, 3600, 0, "CET", Ghost(g))
        .step(481590000, 3600, 3600, "CEST", Ghost(g))
        .step(496965600, 3600, 0, "CET", Ghost(g))
        .step(512953200, 3600, 3600, "CEST", Ghost(g))
        .step(528674400, 3600, 0, "CET", Ghost(g))
        .step(544230000, 3600, 3600, "CEST", Ghost(g))
        .step(560037600, 3600, 0, "CET", Ghost(g))
        .step(575852400, 3600, 3600, "CEST", Ghost(g))
        .step(591660000, 3600, 0, "CET", Ghost(g))
        .step(607388400, 3600, 3600, "CEST", Ghost(g))
        .step(623196000, 3600, 0, "CET", Ghost(g))
        .step(641775600, 7200, 0, "EET", Ghost(g))
        .step(844034400, 3600, 0, "CET", Ghost(g))
        .step(860108400, 3600, 3600, "CEST", Ghost(g))
        .step(875916000, 7200, 0, "EET", Ghost(g))
        .step(1352505600, 3600, 0, "CET", Ghost(g))
        .step(1364515200, 3600, 3600, "CEST", Ghost(g))
        .step(1382659200, 7200, 0, "EET", Ghost(g))
        .finish(Ghost(g))
}

/// The zone `Africa/Tunis`.
pub fn tunis() -> (r: Tz)
    ensures
        r.wf(),
        r.zone_name() == "Africa/Tunis"@,
        r.table() == tables::africa::tunis(),
{
    let ghost g = tables::africa::tunis_rows();
    FixedTimespanSet::begin("Africa/Tunis", 2444, 0, "LMT", Ghost(g))
        .step(-2797202444, 561, 0, "PMT", Ghost(g))
        .step(-1855958961, 3600, 0, "CET", Ghost(g))
        .step(-969242400, 3600, 3600, "CEST", Ghost(g))
        .step(-950493600, 3600, 0, "CET", Ghost(g))
        .step(-941940000, 3600, 3600, "CEST", Ghost(g))
        .step(-891136800, 3600, 0, "CET", Ghost(g))
        .step(-877827600, 3600, 3600, "CEST", Ghost(g))
        .step(-857257200, 3600, 0, "CET", Ghost(g))
        .step(-844556400, 3600, 3600, "CEST", Ghost(g))
        .step(-842918400, 3600, 0, "CET", Ghost(g))
        .step(-842223600, 3600, 3600, "CEST", Ghost(g))
        .step(-828230400, 3600, 0, "CET", Ghost(g))
        .step(-812502000, 3600, 3600, "CEST", Ghost(g))
        .step(-796269600, 3600, 0, "CET", Ghost(g))
        .step(-781052400, 3600, 3600, "CEST", Ghost(g))
        .step(-766634400, 3600, 0, "CET", Ghost(g))
        .step(231202800, 3600, 3600, "CEST", Ghost(g))
        .step(243903600, 3600, 0, "CET", Ghost(g))
        .step(262825200, 3600, 3600, "CEST", Ghost(g))
        .step(276044400, 3600, 0, "CET", Ghost(g))
        .step(581122800, 3600, 3600, "CEST", Ghost(g))
        .step(591145200, 3600, 0, "CET", Ghost(g))
        .step(606870000, 3600, 3600, "CEST", Ghost(g))
        .step(622594800, 3600, 0, "CET", Ghost(g))
        .step(641516400, 3600, 3600, "CEST", Ghost(g))
        .step(654649200, 3600, 0, "CET", Ghost(g))
        .step(1114902000, 3600, 3600, "CEST", Ghost(g))
        .step(1128038400, 3600, 0, "CET", Ghost(g))
        .step(1143334800, 3600, 3600, "CEST", Ghost(g))
        .step(1162083600, 3600, 0, "CET", Ghost(g))
        .step(1174784400, 3600, 3600, "CEST", Ghost(g))
        .step(1193533200, 3600, 0, "CET", Ghost(g))
        .step(1206838800, 3600, 3600, "CEST", Ghost(g))
        .step(1224982800, 3600, 0, "CET", Ghost(g))
        .finish(Ghost(g))
}

/// The zone `Africa/Windhoek`.
pub fn windhoek() -> (r: Tz)
    ensures
        r.wf(),
        r.zone_name() == "Africa/Windhoek"@,
        r.table() == tables::africa::windhoek(),
{
    let ghost g = tables::africa::windhoek_rows();
    FixedTimespanSet::begin("Africa/Windhoek", 4104, 0, "LMT", Ghost(g))
        .step(-2458170504, 5400, 0, "+0130", Ghost(g))
        .step(-2109288600, 7200, 0, "SAST", Ghost(g))
        .step(-860976000, 7200, 3600, "SAST", Ghost(g))
        .step(-845254800, 7200, 0, "SAST", Ghost(g))
        .step(637970400, 7200, 0, "CAT", Ghost(g))
        .step(764200800, 0, 3600, "WAT", Ghost(g))
        .step(778640400, 7200, 0, "CAT", Ghost(g))
        .step(796780800, 0, 3600, "WAT", Ghost(g))
        .step(810090000, 7200, 0, "CAT", Ghost(g))
        .step(828835200, 0, 3600, "WAT", Ghost(g))
        .step(841539600, 7200, 0, "CAT", Ghost(g))
        .step(860284800, 0, 3600, "WAT", Ghost(g))
        .step(873594000, 7200, 0, "CAT", Ghost(g))
        .step(891734400, 0, 3600, "WAT", Ghost(g))
        .step(905043600, 7200, 0, "CAT", Ghost(g))
        .step(923184000, 0, 3600, "WAT", Ghost(g))
        .step(936493200, 7200, 0, "CAT", Ghost(g))
        .step(954633600, 0, 3600, "WAT", Ghost(g))
        .step(967942800, 7200, 0, "CAT", Ghost(g))
        .step(986083200, 0, 3600, "WAT", Ghost(g))
        .step(999392400, 7200, 0, "CAT", Ghost(g))
        .step(1018137600, 0, 3600, "WAT", Ghost(g))
        .step(1030842000, 7200, 0, "CAT", Ghost(g))
        .step(1049587200, 0, 3600, "WAT", Ghost(g))
        .step(1062896400, 7200, 0, "CAT", Ghost(g))
        .step(1081036800, 0, 3600, "WAT", Ghost(g))
        .step(1094346000, 7200, 0, "CAT", Ghost(g))
        .step(1112486400, 0, 3600, "WAT", Ghost(g))
        .step(1125795600, 7200, 0, "CAT", Ghost(g))
        .step(1143936000, 0, 3600, "WAT", Ghost(g))
        .step(1157245200, 7200, 0, "CAT", Ghost(g))
        .step(1175385600, 0, 3600, "WAT", Ghost(g))
        .step(1188694800, 7200, 0, "CAT", Ghost(g))
        .step(1207440000, 0, 3600, "WAT", Ghost(g))
        .step(1220749200, 7200, 0, "CAT", Ghost(g))
        .step(1238889600, 0, 3600, "WAT", Ghost(g))
        .step(1252198800, 7200, 0, "CAT", Ghost(g))
        .step(1270339200, 0, 3600, "WAT", Ghost(g))
        .step(1283648400, 7200, 0, "CAT", Ghost(g))
        .step(1301788800, 0, 3600, "WAT", Ghost(g))
        .step(1315098000, 7200, 0, "CAT", Ghost(g))
        .step(1333238400, 0, 3600, "WAT", Ghost(g))
        .step(1346547600, 7200, 0, "CAT", Ghost(g))
        .step(1365292800, 0, 3600, "WAT", Ghost(g))
        .step(1377997200, 7200, 0, "CAT", Ghost(g))
        .step(1396742400, 0, 3600, "WAT", Ghost(g))
        .step(1410051600, 7200, 0, "CAT", Ghost(g))
        .step(1428192000, 0, 3600, "WAT", Ghost(g))
        .step(1441501200, 7200, 0, "CAT", Ghost(g))
        .step(1459641600, 0, 3600, "WAT", Ghost(g))
        .step(1472950800, 7200, 0, "CAT", Ghost(g))
        .step(1491091200, 0, 3600, "WAT", Ghost(g))
        .step(1504400400, 7200, 0, "CAT", Ghost(g))
        .finish(Ghost(g))
}

} // verus!
