//! Zones of Asia.

use crate::interface::TimeZone;
use crate::timezone_impl::{FixedTimespanSet, Tz};
use crate::timezones::tables;
use vstd::prelude::*;

verus! {

/// The zone `Asia/Aden`.
pub fn aden() -> (r: Tz)
    ensures
        r.wf(),
        r.zone_name() == "Asia/Aden"@,
        r.table() == tables::asia::aden(),
{
    let ghost g = tables::asia::aden_rows();
    FixedTimespanSet::begin("Asia/Aden", 10794, 0, "LMT", Ghost(g))
        .step(-631162794, 10800, 0, "+03", Ghost(g))
        .step(2147483647, 10800, 0, "+03", Ghost(g))
        .finish(Ghost(g))
}

/// The zone `Asia/Almaty`.
pub fn almaty() -> (r: Tz)
    ensures
        r.wf(),
        r.zone_name() == "Asia/Almaty"@,
        r.table() == tables::asia::almaty(),
{
    let ghost g = tables::asia::almaty_rows();
    FixedTimespanSet::begin("Asia/Almaty", 18468, 0, "LMT", Ghost(g))
        .step(-1441170468, 18000, 0, "+05", Ghost(g))
        .step(-1247547600, 21600, 0, "+06", Ghost(g))
        .step(354909600, 21600, 3600, "+07", Ghost(g))
        .step(370717200, 21600, 0, "+06", Ghost(g))
        .step(386445600, 21600, 3600, "+07", Ghost(g))
        .step(402253200, 21600, 0, "+06", Ghost(g))
        .step(417981600, 21600, 3600, "+07", Ghost(g))
        .step(433789200, 21600, 0, "+06", Ghost(g))
        .step(449604000, 21600, 3600, "+07", Ghost(g))
        .step(465336000, 21600, 0, "+06", Ghost(g))
        .step(481060800, 21600, 3600, "+07", Ghost(g))
        .step(496785600, 21600, 0, "+06", Ghost(g))
        .step(512510400, 21600, 3600, "+07", Ghost(g))
        .step(528235200, 21600, 0, "+06", Ghost(g))
        .step(543960000, 21600, 3600, "+07", Ghost(g))
        .step(559684800, 21600, 0, "+06", Ghost(g))
        .step(575409600, 21600, 3600, "+07", Ghost(g))
        .step(591134400, 21600, 0, "+06", Ghost(g))
        .step(606859200, 21600, 3600, "+07", Ghost(g))
        .step(622584000, 21600, 0, "+06", Ghost(g))
        .step(638308800, 21600, 3600, "+07", Ghost(g))
        .step(654638400, 21600, 0, "+06", Ghost(g))
        .step(670363200, 18000, 3600, "+06", Ghost(g))
        .step(686091600, 18000, 0, "+05", Ghost(g))
        .step(695768400, 21600, 0, "+06", Ghost(g))
        .step(701812800, 21600, 3600, "+07", Ghost(g))
        .step(717537600, 21600, 0, "+06", Ghost(g))
        .step(733262400, 21600, 3600, "+07", Ghost(g))
        .step(748987200, 21600, 0, "+06", Ghost(g))
        .step(764712000, 21600, 3600, "+07", Ghost(g))
        .step(780436800, 21600, 0, "+06", Ghost(g))
        .step(796161600, 21600, 3600, "+07", Ghost(g))
        .step(811886400, 21600, 0, "+06", Ghost(g))
        .step(828216000, 21600, 3600, "+07", Ghost(g))
        .step(846360000, 21600, 0, "+06", Ghost(g))
        .step(859665600, 21600, 3600, "+07", Ghost(g))
        .step(877809600, 21600, 0, "+06", Ghost(g))
        .step(891115200, 21600, 3600, "+07", Ghost(g))
        .step(909259200, 21600, 0, "+06", Ghost(g))
        .step(922564800, 21600, 3600, "+07", Ghost(g))
        .step(941313600, 21600, 0, "+06", Ghost(g))
        .step(954014400, 21600, 3600, "+07", Ghost(g))
        .step(972763200, 21600, 0, "+06", Ghost(g))
        .step(985464000, 21600, 3600, "+07", Ghost(g))
        .step(1004212800, 21600, 0, "+06", Ghost(g))
        .step(1017518400, 21600, 3600, "+07", Ghost(g))
        .step(1035662400, 21600, 0, "+06", Ghost(g))
        .step(1048968000, 21600, 3600, "+07", Ghost(g))
        .step(1067112000, 21600, 0, "+06", Ghost(g))
        .step(1080417600, 21600, 3600, "+07", Ghost(g))
        .step(1099166400, 21600, 0, "+06", Ghost(g))
        .step(1709229600, 18000, 0, "+05", Ghost(g))
        .step(2147483647, 18000, 0, "+05", Ghost(g))
        .finish(Ghost(g))
}

/// The zone `Asia/Amman`.
pub fn amman() -> (r: Tz)
    ensures
        r.wf(),
        r.zone_name() == "Asia/Amman"@,
        r.table() == tables::asia::amman(),
{
    let ghost g = tables::asia::amman_rows();
    FixedTimespanSet::begin("Asia/Amman", 8624, 0, "LMT", Ghost(g))
        .step(-1230776624, 7200, 0, "EET", Ghost(g))
        .step(108165600, 7200, 3600, "EEST", Ghost(g))
        .step(118270800, 7200, 0, "EET", Ghost(g))
        .step(136591200, 7200, 3600, "EEST", Ghost(g))
        .step(149806800, 7200, 0, "EET", Ghost(g))
        .step(168127200, 7200, 3600, "EEST", Ghost(g))
        .step(181342800, 7200, 0, "EET", Ghost(g))
        .step(199749600, 7200, 3600, "EEST", Ghost(g))
        .step(215643600, 7200, 0, "EET", Ghost(g))
        .step(231285600, 7200, 3600, "EEST", Ghost(g))
        .step(244501200, 7200, 0, "EET", Ghost(g))
        .step(262735200, 7200, 3600, "EEST", Ghost(g))
        .step(275950800, 7200, 0, "EET", Ghost(g))
        .step(481154400, 7200, 3600, "EEST", Ghost(g))
        .step(496962000, 7200, 0, "EET", Ghost(g))
        .step(512949600, 7200, 3600, "EEST", Ghost(g))
        .step(528670800, 7200, 0, "EET", Ghost(g))
        .step(544399200, 7200, 3600, "EEST", Ghost(g))
        .step(560120400, 7200, 0, "EET", Ghost(g))
        .step(575848800, 7200, 3600, "EEST", Ghost(g))
        .step(592174800, 7200, 0, "EET", Ghost(g))
        .step(610581600, 7200, 3600, "EEST", Ghost(g))
        .step(623624400, 7200, 0, "EET", Ghost(g))
        .step(641167200, 7200, 3600, "EEST", Ghost(g))
        .step(655074000, 7200, 0, "EET", Ghost(g))
        .step(671839200, 7200, 3600, "EEST", Ghost(g))
        .step(685918800, 7200, 0, "EET", Ghost(g))
        .step(702856800, 7200, 3600, "EEST", Ghost(g))
        .step(717973200, 7200, 0, "EET", Ghost(g))
        .step(733701600, 7200, 3600, "EEST", Ghost(g))
        .step(749422800, 7200, 0, "EET", Ghost(g))
        .step(765151200, 7200, 3600, "EEST", Ghost(g))
        .step(779662800, 7200, 0, "EET", Ghost(g))
        .step(797205600, 7200, 3600, "EEST", Ghost(g))
        .step(811116000, 7200, 0, "EET", Ghost(g))
        .step(828655200, 7200, 3600, "EEST", Ghost(g))
        .step(843170400, 7200, 0, "EET", Ghost(g))
        .step(860104800, 7200, 3600, "EEST", Ghost(g))
        .step(874620000, 7200, 0, "EET", Ghost(g))
        .step(891554400, 7200, 3600, "EEST", Ghost(g))
        .step(906069600, 7200, 0, "EET", Ghost(g))
        .step(930780000, 7200, 3600, "EEST", Ghost(g))
        .step(938124000, 7200, 0, "EET", Ghost(g))
        .step(954367200, 7200, 3600, "EEST", Ghost(g))
        .step(970178400, 7200, 0, "EET", Ghost(g))
        .step(985816800, 7200, 3600, "EEST", Ghost(g))
        .step(1001628000, 7200, 0, "EET", Ghost(g))
        .step(1017352800, 7200, 3600, "EEST", Ghost(g))
        .step(1033077600, 7200, 0, "EET", Ghost(g))
        .step(1048802400, 7200, 3600, "EEST", Ghost(g))
        .step(1066946400, 7200, 0, "EET", Ghost(g))
        .step(1080252000, 7200, 3600, "EEST", Ghost(g))
        .step(1097791200, 7200, 0, "EET", Ghost(g))
        .step(1112306400, 7200, 3600, "EEST", Ghost(g))
        .step(1128031200, 7200, 0, "EET", Ghost(g))
        .step(1143756000, 7200, 3600, "EEST", Ghost(g))
        .step(1161900000, 7200, 0, "EET", Ghost(g))
        .step(1175205600, 7200, 3600, "EEST", Ghost(g))
        .step(1193349600, 7200, 0, "EET", Ghost(g))
        .step(1206655200, 7200, 3600, "EEST", Ghost(g))
        .step(1225404000, 7200, 0, "EET", Ghost(g))
        .step(1238104800, 7200, 3600, "EEST", Ghost(g))
        .step(1256853600, 7200, 0, "EET", Ghost(g))
        .step(1269554400, 7200, 3600, "EEST", Ghost(g))
        .step(1288303200, 7200, 0, "EET", Ghost(g))
        .step(1301608800, 7200, 3600, "EEST", Ghost(g))
        .step(1319752800, 7200, 0, "EET", Ghost(g))
        .step(1333058400, 7200, 3600, "EEST", Ghost(g))
        .step(1387486800, 7200, 0, "EET", Ghost(g))
        .step(1395957600, 7200, 3600, "EEST", Ghost(g))
        .step(1414706400, 7200, 0, "EET", Ghost(g))
        .step(1427407200, 7200, 3600, "EEST", Ghost(g))
        .step(1446156000, 7200, 0, "EET", Ghost(g))
        .step(1459461600, 7200, 3600, "EEST", Ghost(g))
        .step(1477605600, 7200, 0, "EET", Ghost(g))
        .step(1490911200, 7200, 3600, "EEST", Ghost(g))
        .step(1509055200, 7200, 0, "EET", Ghost(g))
        .step(1522360800, 7200, 3600, "EEST", Ghost(g))
        .step(1540504800, 7200, 0, "EET", Ghost(g))
        .step(1553810400, 7200, 3600, "EEST", Ghost(g))
        .step(1571954400, 7200, 0, "EET", Ghost(g))
        .step(1585260000, 7200, 3600, "EEST", Ghost(g))
        .step(1604008800, 7200, 0, "EET", Ghost(g))
        .step(1616709600, 7200, 3600, "EEST", Ghost(g))
        .step(1635458400, 7200, 0, "EET", Ghost(g))
        .step(1645740000, 7200, 3600, "EEST", Ghost(g))
        .step(1666908000, 10800, 0, "+03", Ghost(g))
        .step(2147483647, 10800, 0, "+03", Ghost(g))
        .finish(Ghost(g))
}

/// The zone `Asia/Anadyr`.
pub fn anadyr() -> (r: Tz)
    ensures
        r.wf(),
        r.zone_name() == "Asia/Anadyr"@,
        r.table() == tables::asia::anadyr(),
{
    let ghost g = tables::asia::anadyr_rows();
    FixedTimespanSet::begin("Asia/Anadyr", 42596, 0, "LMT", Ghost(g))
        .step(-1441194596, 43200, 0, "+12", Ghost(g))
        .step(-1247572800, 46800, 0, "+13", Ghost(g))
        .step(354884400, 46800, 3600, "+14", Ghost(g))
        .step(370692000, 46800, 0, "+13", Ghost(g))
        .step(386420400, 43200, 3600, "+13", Ghost(g))
        .step(402231600, 43200, 0, "+12", Ghost(g))
        .step(417960000, 43200, 3600, "+13", Ghost(g))
        .step(433767600, 43200, 0, "+12", Ghost(g))
        .step(449582400, 43200, 3600, "+13", Ghost(g))
        .step(465314400, 43200, 0, "+12", Ghost(g))
        .step(481039200, 43200, 3600, "+13", Ghost(g))
        .step(496764000, 43200, 0, "+12", Ghost(g))
        .step(512488800, 43200, 3600, "+13", Ghost(g))
        .step(528213600, 43200, 0, "+12", Ghost(g))
        .step(543938400, 43200, 3600, "+13", Ghost(g))
        .step(559663200, 43200, 0, "+12", Ghost(g))
        .step(575388000, 43200, 3600, "+13", Ghost(g))
        .step(591112800, 43200, 0, "+12", Ghost(g))
        .step(606837600, 43200, 3600, "+13", Ghost(g))
        .step(622562400, 43200, 0, "+12", Ghost(g))
        .step(638287200, 43200, 3600, "+13", Ghost(g))
        .step(654616800, 43200, 0, "+12", Ghost(g))
        .step(670341600, 39600, 3600, "+12", Ghost(g))
        .step(686070000, 39600, 0, "+11", Ghost(g))
        .step(695746800, 43200, 0, "+12", Ghost(g))
        .step(701791200, 43200, 3600, "+13", Ghost(g))
        .step(717516000, 43200, 0, "+12", Ghost(g))
        .step(733240800, 43200, 3600, "+13", Ghost(g))
        .step(748965600, 43200, 0, "+12", Ghost(g))
        .step(764690400, 43200, 3600, "+13", Ghost(g))
        .step(780415200, 43200, 0, "+12", Ghost(g))
        .step(796140000, 43200, 3600, "+13", Ghost(g))
        .step(811864800, 43200, 0, "+12", Ghost(g))
        .step(828194400, 43200, 3600, "+13", Ghost(g))
        .step(846338400, 43200, 0, "+12", Ghost(g))
        .step(859644000, 43200, 3600, "+13", Ghost(g))
        .step(877788000, 43200, 0, "+12", Ghost(g))
        .step(891093600, 43200, 3600, "+13", Ghost(g))
        .step(909237600, 43200, 0, "+12", Ghost(g))
        .step(922543200, 43200, 3600, "+13", Ghost(g))
        .step(941292000, 43200, 0, "+12", Ghost(g))
        .step(953992800, 43200, 3600, "+13", Ghost(g))
        .step(972741600, 43200, 0, "+12", Ghost(g))
        .step(985442400, 43200, 3600, "+13", Ghost(g))
        .step(1004191200, 43200, 0, "+12", Ghost(g))
        .step(1017496800, 43200, 3600, "+13", Ghost(g))
        .step(1035640800, 43200, 0, "+12", Ghost(g))
        .step(1048946400, 43200, 3600, "+13", Ghost(g))
        .step(1067090400, 43200, 0, "+12", Ghost(g))
        .step(1080396000, 43200, 3600, "+13", Ghost(g))
        .step(1099144800, 43200, 0, "+12", Ghost(g))
        .step(1111845600, 43200, 3600, "+13", Ghost(g))
        .step(1130594400, 43200, 0, "+12", Ghost(g))
        .step(1143295200, 43200, 3600, "+13", Ghost(g))
        .step(1162044000, 43200, 0, "+12", Ghost(g))
        .step(1174744800, 43200, 3600, "+13", Ghost(g))
        .step(1193493600, 43200, 0, "+12", Ghost(g))
        .step(1206799200, 43200, 3600, "+13", Ghost(g))
        .step(1224943200, 43200, 0, "+12", Ghost(g))
        .step(1238248800, 43200, 3600, "+13", Ghost(g))
        .step(1256392800, 43200, 0, "+12", Ghost(g))
        .step(1269698400, 39600, 3600, "+12", Ghost(g))
        .step(1288450800, 39600, 0, "+11", Ghost(g))
        .step(1301151600, 43200, 0, "+12", Ghost(g))
        .step(2147483647, 43200, 0, "+12", Ghost(g))
        .finish(Ghost(g))
}

/// The zone `Asia/Aqtau`.
pub fn aqtau() -> (r: Tz)
    ensures
        r.wf(),
        r.zone_name() == "Asia/Aqtau"@,
        r.table() == tables::asia::aqtau(),
{
    let ghost g = tables::asia::aqtau_rows();
    FixedTimespanSet::begin("Asia/Aqtau", 12064, 0, "LMT", Ghost(g))
        .step(-1441164064, 14400, 0, "+04", Ghost(g))
        .step(-1247544000, 18000, 0, "+05", Ghost(g))
        .step(370724400, 21600, 0, "+06", Ghost(g))
        .step(386445600, 18000, 3600, "+06", Ghost(g))
        .step(402256800, 18000, 0, "+05", Ghost(g))
        .step(417985200, 18000, 3600, "+06", Ghost(g))
        .step(433792800, 18000, 0, "+05", Ghost(g))
        .step(449607600, 18000, 3600, "+06", Ghost(g))
        .step(465339600, 18000, 0, "+05", Ghost(g))
        .step(481064400, 18000, 3600, "+06", Ghost(g))
        .step(496789200, 18000, 0, "+05", Ghost(g))
        .step(512514000, 18000, 3600, "+06", Ghost(g))
        .step(528238800, 18000, 0, "+05", Ghost(g))
        .step(543963600, 18000, 3600, "+06", Ghost(g))
        .step(559688400, 18000, 0, "+05", Ghost(g))
        .step(575413200, 18000, 3600, "+06", Ghost(g))
        .step(591138000, 18000, 0, "+05", Ghost(g))
        .step(606862800, 18000, 3600, "+06", Ghost(g))
        .step(622587600, 18000, 0, "+05", Ghost(g))
        .step(638312400, 18000, 3600, "+06", Ghost(g))
        .step(654642000, 18000, 0, "+05", Ghost(g))
        .step(670366800, 14400, 3600, "+05", Ghost(g))
        .step(686095200, 14400, 0, "+04", Ghost(g))
        .step(695772000, 18000, 0, "+05", Ghost(g))
        .step(701816400, 18000, 3600, "+06", Ghost(g))
        .step(717541200, 18000, 0, "+05", Ghost(g))
        .step(733266000, 18000, 3600, "+06", Ghost(g))
        .step(748990800, 18000, 0, "+05", Ghost(g))
        .step(764715600, 18000, 3600, "+06", Ghost(g))
        .step(780440400, 14400, 0, "+04", Ghost(g))
        .step(796168800, 14400, 3600, "+05", Ghost(g))
        .step(811893600, 14400, 0, "+04", Ghost(g))
        .step(828223200, 14400, 3600, "+05", Ghost(g))
        .step(846367200, 14400, 0, "+04", Ghost(g))
        .step(859672800, 14400, 3600, "+05", Ghost(g))
        .step(877816800, 14400, 0, "+04", Ghost(g))
        .step(891122400, 14400, 3600, "+05", Ghost(g))
        .step(909266400, 14400, 0, "+04", Ghost(g))
        .step(922572000, 14400, 3600, "+05", Ghost(g))
        .step(941320800, 14400, 0, "+04", Ghost(g))
        .step(954021600, 14400, 3600, "+05", Ghost(g))
        .step(972770400, 14400, 0, "+04", Ghost(g))
        .step(985471200, 14400, 3600, "+05", Ghost(g))
        .step(1004220000, 14400, 0, "+04", Ghost(g))
        .step(1017525600, 14400, 3600, "+05", Ghost(g))
        .step(1035669600, 14400, 0, "+04", Ghost(g))
        .step(1048975200, 14400, 3600, "+05", Ghost(g))
        .step(1067119200, 14400, 0, "+04", Ghost(g))
        .step(1080424800, 14400, 3600, "+05", Ghost(g))
        .step(1099173600, 18000, 0, "+05", Ghost(g))
        .step(2147483647, 18000, 0, "+05", Ghost(g))
        .finish(Ghost(g))
}

/// The zone `Asia/Aqtobe`.
pub fn aqtobe() -> (r: Tz)
    ensures
        r.wf(),
        r.zone_name() == "Asia/Aqtobe"@,
        r.table() == tables::asia::aqtobe(),
{
    let ghost g = tables::asia::aqtobe_rows();
    FixedTimespanSet::begin("Asia/Aqtobe", 13720, 0, "LMT", Ghost(g))
        .step(-1441165720, 14400, 0, "+04", Ghost(g))
        .step(-1247544000, 18000, 0, "+05", Ghost(g))
        .step(354913200, 18000, 3600, "+06", Ghost(g))
        .step(370720800, 21600, 0, "+06", Ghost(g))
        .step(386445600, 18000, 3600, "+06", Ghost(g))
        .step(402256800, 18000, 0, "+05", Ghost(g))
        .step(417985200, 18000, 3600, "+06", Ghost(g))
        .step(433792800, 18000, 0, "+05", Ghost(g))
        .step(449607600, 18000, 3600, "+06", Ghost(g))
        .step(465339600, 18000, 0, "+05", Ghost(g))
        .step(481064400, 18000, 3600, "+06", Ghost(g))
        .step(496789200, 18000, 0, "+05", Ghost(g))
        .step(512514000, 18000, 3600, "+06", Ghost(g))
        .step(528238800, 18000, 0, "+05", Ghost(g))
        .step(543963600, 18000, 3600, "+06", Ghost(g))
        .step(559688400, 18000, 0, "+05", Ghost(g))
        .step(575413200, 18000, 3600, "+06", Ghost(g))
        .step(591138000, 18000, 0, "+05", Ghost(g))
        .step(606862800, 18000, 3600, "+06", Ghost(g))
        .step(622587600, 18000, 0, "+05", Ghost(g))
        .step(638312400, 18000, 3600, "+06", Ghost(g))
        .step(654642000, 18000, 0, "+05", Ghost(g))
        .step(670366800, 14400, 3600, "+05", Ghost(g))
        .step(686095200, 14400, 0, "+04", Ghost(g))
        .step(695772000, 18000, 0, "+05", Ghost(g))
        .step(701816400, 18000, 3600, "+06", Ghost(g))
        .step(717541200, 18000, 0, "+05", Ghost(g))
        .step(733266000, 18000, 3600, "+06", Ghost(g))
        .step(748990800, 18000, 0, "+05", Ghost(g))
        .step(764715600, 18000, 3600, "+06", Ghost(g))
        .step(780440400, 18000, 0, "+05", Ghost(g))
        .step(796165200, 18000, 3600, "+06", Ghost(g))
        .step(811890000, 18000, 0, "+05", Ghost(g))
        .step(828219600, 18000, 3600, "+06", Ghost(g))
        .step(846363600, 18000, 0, "+05", Ghost(g))
        .step(859669200, 18000, 3600, "+06", Ghost(g))
        .step(877813200, 18000, 0, "+05", Ghost(g))
        .step(891118800, 18000, 3600, "+06", Ghost(g))
        .step(909262800, 18000, 0, "+05", Ghost(g))
        .step(922568400, 18000, 3600, "+06", Ghost(g))
        .step(941317200, 18000, 0, "+05", Ghost(g))
        .step(954018000, 18000, 3600, "+06", Ghost(g))
        .step(972766800, 18000, 0, "+05", Ghost(g))
        .step(985467600, 18000, 3600, "+06", Ghost(g))
        .step(1004216400, 18000, 0, "+05", Ghost(g))
        .step(1017522000, 18000, 3600, "+06", Ghost(g))
        .step(1035666000, 18000, 0, "+05", Ghost(g))
        .step(1048971600, 18000, 3600, "+06", Ghost(g))
        .step(1067115600, 18000, 0, "+05", Ghost(g))
        .step(1080421200, 18000, 3600, "+06", Ghost(g))
        .step(1099170000, 18000, 0, "+05", Ghost(g))
        .step(2147483647, 18000, 0, "+05", Ghost(g))
        .finish(Ghost(g))
}

/// The zone `Asia/Ashgabat`.
pub fn ashgabat() -> (r: Tz)
    ensures
        r.wf(),
        r.zone_name() == "Asia/Ashgabat"@,
        r.table() == tables::asia::ashgabat(),
{
    let ghost g = tables::asia::ashgabat_rows();
    FixedTimespanSet::begin("Asia/Ashgabat", 14012, 0, "LMT", Ghost(g))
        .step(-1441166012, 14400, 0, "+04", Ghost(g))
        .step(-1247544000, 18000, 0, "+05", Ghost(g))
        .step(354913200, 18000, 3600, "+06", Ghost(g))
        .step(370720800, 18000, 0, "+05", Ghost(g))
        .step(386449200, 18000, 3600, "+06", Ghost(g))
        .step(402256800, 18000, 0, "+05", Ghost(g))
        .step(417985200, 18000, 3600, "+06", Ghost(g))
        .step(433792800, 18000, 0, "+05", Ghost(g))
        .step(449607600, 18000, 3600, "+06", Ghost(g))
        .step(465339600, 18000, 0, "+05", Ghost(g))
        .step(481064400, 18000, 3600, "+06", Ghost(g))
        .step(496789200, 18000, 0, "+05", Ghost(g))
        .step(512514000, 18000, 3600, "+06", Ghost(g))
        .step(528238800, 18000, 0, "+05", Ghost(g))
        .step(543963600, 18000, 3600, "+06", Ghost(g))
        .step(559688400, 18000, 0, "+05", Ghost(g))
        .step(575413200, 18000, 3600, "+06", Ghost(g))
        .step(591138000, 18000, 0, "+05", Ghost(g))
        .step(606862800, 18000, 3600, "+06", Ghost(g))
        .step(622587600, 18000, 0, "+05", Ghost(g))
        .step(638312400, 18000, 3600, "+06", Ghost(g))
        .step(654642000, 18000, 0, "+05", Ghost(g))
        .step(670366800, 14400, 3600, "+05", Ghost(g))
        .step(686095200, 14400, 0, "+04", Ghost(g))
        .step(695772000, 18000, 0, "+05", Ghost(g))
        .step(2147483647, 18000, 0, "+05", Ghost(g))
        .finish(Ghost(g))
}

/// The zone `Asia/Ashkhabad`.
pub fn ashkhabad() -> (r: Tz)
    ensures
        r.wf(),
        r.zone_name() == "Asia/Ashkhabad"@,
        r.table() == tables::asia::ashkhabad(),
{
    let ghost g = tables::asia::ashkhabad_rows();
    FixedTimespanSet::begin("Asia/Ashkhabad", 14012, 0, "LMT", Ghost(g))
        .step(-1441166012, 14400, 0, "+04", Ghost(g))
        .step(-1247544000, 18000, 0, "+05", Ghost(g))
        .step(354913200, 18000, 3600, "+06", Ghost(g))
        .step(370720800, 18000, 0, "+05", Ghost(g))
        .step(386449200, 18000, 3600, "+06", Ghost(g))
        .step(402256800, 18000, 0, "+05", Ghost(g))
        .step(417985200, 18000, 3600, "+06", Ghost(g))
        .step(433792800, 18000, 0, "+05", Ghost(g))
        .step(449607600, 18000, 3600, "+06", Ghost(g))
        .step(465339600, 18000, 0, "+05", Ghost(g))
        .step(481064400, 18000, 3600, "+06", Ghost(g))
        .step(496789200, 18000, 0, "+05", Ghost(g))
        .step(512514000, 18000, 3600, "+06", Ghost(g))
        .step(528238800, 18000, 0, "+05", Ghost(g))
        .step(543963600, 18000, 3600, "+06", Ghost(g))
        .step(559688400, 18000, 0, "+05", Ghost(g))
        .step(575413200, 18000, 3600, "+06", Ghost(g))
        .step(591138000, 18000, 0, "+05", Ghost(g))
        .step(606862800, 18000, 3600, "+06", Ghost(g))
        .step(622587600, 18000, 0, "+05", Ghost(g))
        .step(638312400, 18000, 3600, "+06", Ghost(g))
        .step(654642000, 18000, 0, "+05", Ghost(g))
        .step(670366800, 14400, 3600, "+05", Ghost(g))
        .step(686095200, 14400, 0, "+04", Ghost(g))
        .step(695772000, 18000, 0, "+05", Ghost(g))
        .step(2147483647, 18000, 0, "+05", Ghost(g))
        .finish(Ghost(g))
}

/// The zone `Asia/Atyrau`.
pub fn atyrau() -> (r: Tz)
    ensures
        r.wf(),
        r.zone_name() == "Asia/Atyrau"@,
        r.table() == tables::asia::atyrau(),
{
    let ghost g = tables::asia::atyrau_rows();
    FixedTimespanSet::begin("Asia/Atyrau", 12464, 0, "LMT", Ghost(g))
        .step(-1441164464, 10800, 0, "+03", Ghost(g))
        .step(-1247540400, 18000, 0, "+05", Ghost(g))
        .step(370724400, 21600, 0, "+06", Ghost(g))
        .step(386445600, 18000, 3600, "+06", Ghost(g))
        .step(402256800, 18000, 0, "+05", Ghost(g))
        .step(417985200, 18000, 3600, "+06", Ghost(g))
        .step(433792800, 18000, 0, "+05", Ghost(g))
        .step(449607600, 18000, 3600, "+06", Ghost(g))
        .step(465339600, 18000, 0, "+05", Ghost(g))
        .step(481064400, 18000, 3600, "+06", Ghost(g))
        .step(496789200, 18000, 0, "+05", Ghost(g))
        .step(512514000, 18000, 3600, "+06", Ghost(g))
        .step(528238800, 18000, 0, "+05", Ghost(g))
        .step(543963600, 18000, 3600, "+06", Ghost(g))
        .step(559688400, 18000, 0, "+05", Ghost(g))
        .step(575413200, 18000, 3600, "+06", Ghost(g))
        .step(591138000, 18000, 0, "+05", Ghost(g))
        .step(606862800, 18000, 3600, "+06", Ghost(g))
        .step(622587600, 18000, 0, "+05", Ghost(g))
        .step(638312400, 18000, 3600, "+06", Ghost(g))
        .step(654642000, 18000, 0, "+05", Ghost(g))
        .step(670366800, 14400, 3600, "+05", Ghost(g))
        .step(686095200, 14400, 0, "+04", Ghost(g))
        .step(695772000, 18000, 0, "+05", Ghost(g))
        .step(701816400, 18000, 3600, "+06", Ghost(g))
        .step(717541200, 18000, 0, "+05", Ghost(g))
        .step(733266000, 18000, 3600, "+06", Ghost(g))
        .step(748990800, 18000, 0, "+05", Ghost(g))
        .step(764715600, 18000, 3600, "+06", Ghost(g))
        .step(780440400, 18000, 0, "+05", Ghost(g))
        .step(796165200, 18000, 3600, "+06", Ghost(g))
        .step(811890000, 18000, 0, "+05", Ghost(g))
        .step(828219600, 18000, 3600, "+06", Ghost(g))
        .step(846363600, 18000, 0, "+05", Ghost(g))
        .step(859669200, 18000, 3600, "+06", Ghost(g))
        .step(877813200, 18000, 0, "+05", Ghost(g))
        .step(891118800, 18000, 3600, "+06", Ghost(g))
        .step(909262800, 18000, 0, "+05", Ghost(g))
        .step(922568400, 14400, 3600, "+05", Ghost(g))
        .step(941320800, 14400, 0, "+04", Ghost(g))
        .step(954021600, 14400, 3600, "+05", Ghost(g))
        .step(972770400, 14400, 0, "+04", Ghost(g))
        .step(985471200, 14400, 3600, "+05", Ghost(g))
        .step(1004220000, 14400, 0, "+04", Ghost(g))
        .step(1017525600, 14400, 3600, "+05", Ghost(g))
        .step(1035669600, 14400, 0, "+04", Ghost(g))
        .step(1048975200, 14400, 3600, "+05", Ghost(g))
        .step(1067119200, 14400, 0, "+04", Ghost(g))
        .step(1080424800, 14400, 3600, "+05", Ghost(g))
        .step(1099173600, 18000, 0, "+05", Ghost(g))
        .step(2147483647, 18000, 0, "+05", Ghost(g))
        .finish(Ghost(g))
}

/// The zone `Asia/Baghdad`.
pub fn baghdad() -> (r: Tz)
    ensures
        r.wf(),
        r.zone_name() == "Asia/Baghdad"@,
        r.table() == tables::asia::baghdad(),
{
    let ghost g = tables::asia::baghdad_rows();
    FixedTimespanSet::begin("Asia/Baghdad", 10660, 0, "LMT", Ghost(g))
        .step(-2524532260, 10656, 0, "BMT", Ghost(g))
        .step(-1641005856, 10800, 0, "+03", Ghost(g))
        .step(389048400, 10800, 3600, "+04", Ghost(g))
        .step(402264000, 10800, 0, "+03", Ghost(g))
        .step(417906000, 10800, 3600, "+04", Ghost(g))
        .step(433800000, 10800, 0, "+03", Ghost(g))
        .step(449614800, 10800, 3600, "+04", Ghost(g))
        .step(465422400, 10800, 0, "+03", Ghost(g))
        .step(481150800, 10800, 3600, "+04", Ghost(g))
        .step(496792800, 10800, 0, "+03", Ghost(g))
        .step(512517600, 10800, 3600, "+04", Ghost(g))
        .step(528242400, 10800, 0, "+03", Ghost(g))
        .step(543967200, 10800, 3600, "+04", Ghost(g))
        .step(559692000, 10800, 0, "+03", Ghost(g))
        .step(575416800, 10800, 3600, "+04", Ghost(g))
        .step(591141600, 10800, 0, "+03", Ghost(g))
        .step(606866400, 10800, 3600, "+04", Ghost(g))
        .step(622591200, 10800, 0, "+03", Ghost(g))
        .step(638316000, 10800, 3600, "+04", Ghost(g))
        .step(654645600, 10800, 0, "+03", Ghost(g))
        .step(670464000, 10800, 3600, "+04", Ghost(g))
        .step(686275200, 10800, 0, "+03", Ghost(g))
        .step(702086400, 10800, 3600, "+04", Ghost(g))
        .step(717897600, 10800, 0, "+03", Ghost(g))
        .step(733622400, 10800, 3600, "+04", Ghost(g))
        .step(749433600, 10800, 0, "+03", Ghost(g))
        .step(765158400, 10800, 3600, "+04", Ghost(g))
        .step(780969600, 10800, 0, "+03", Ghost(g))
        .step(796694400, 10800, 3600, "+04", Ghost(g))
        .step(812505600, 10800, 0, "+03", Ghost(g))
        .step(828316800, 10800, 3600, "+04", Ghost(g))
        .step(844128000, 10800, 0, "+03", Ghost(g))
        .step(859852800, 10800, 3600, "+04", Ghost(g))
        .step(875664000, 10800, 0, "+03", Ghost(g))
        .step(891388800, 10800, 3600, "+04", Ghost(g))
        .step(907200000, 10800, 0, "+03", Ghost(g))
        .step(922924800, 10800, 3600, "+04", Ghost(g))
        .step(938736000, 10800, 0, "+03", Ghost(g))
        .step(954547200, 10800, 3600, "+04", Ghost(g))
        .step(970358400, 10800, 0, "+03", Ghost(g))
        .step(986083200, 10800, 3600, "+04", Ghost(g))
        .step(1001894400, 10800, 0, "+03", Ghost(g))
        .step(1017619200, 10800, 3600, "+04", Ghost(g))
        .step(1033430400, 10800, 0, "+03", Ghost(g))
        .step(1049155200, 10800, 3600, "+04", Ghost(g))
        .step(1064966400, 10800, 0, "+03", Ghost(g))
        .step(1080777600, 10800, 3600, "+04", Ghost(g))
        .step(1096588800, 10800, 0, "+03", Ghost(g))
        .step(1112313600, 10800, 3600, "+04", Ghost(g))
        .step(1128124800, 10800, 0, "+03", Ghost(g))
        .step(1143849600, 10800, 3600, "+04", Ghost(g))
        .step(1159660800, 10800, 0, "+03", Ghost(g))
        .step(1175385600, 10800, 3600, "+04", Ghost(g))
        .step(1191196800, 10800, 0, "+03", Ghost(g))
        .step(2147483647, 10800, 0, "+03", Ghost(g))
        .finish(Ghost(g))
}

/// The zone `Asia/Bahrain`.
pub fn bahrain() -> (r: Tz)
    ensures
        r.wf(),
        r.zone_name() == "Asia/Bahrain"@,
        r.table() == tables::asia::bahrain(),
{
    let ghost g = tables::asia::bahrain_rows();
    FixedTimespanSet::begin("Asia/Bahrain", 12140, 0, "LMT", Ghost(g))
        .step(-897880940, 12600, 0, "+0330", Ghost(g))
        .step(-820553400, 14400, 0, "+04", Ghost(g))
        .step(76190400, 10800, 0, "+03", Ghost(g))
        .step(2147483647, 10800, 0, "+03", Ghost(g))
        .finish(Ghost(g))
}

/// The zone `Asia/Baku`.
pub fn baku() -> (r: Tz)
    ensures
        r.wf(),
        r.zone_name() == "Asia/Baku"@,
        r.table() == tables::asia::baku(),
{
    let ghost g = tables::asia::baku_rows();
    FixedTimespanSet::begin("Asia/Baku", 11964, 0, "LMT", Ghost(g))
        .step(-1441163964, 10800, 0, "+03", Ghost(g))
        .step(-405140400, 14400, 0, "+04", Ghost(g))
        .step(354916800, 14400, 3600, "+05", Ghost(g))
        .step(370724400, 14400, 0, "+04", Ghost(g))
        .step(386452800, 14400, 3600, "+05", Ghost(g))
        .step(402260400, 14400, 0, "+04", Ghost(g))
        .step(417988800, 14400, 3600, "+05", Ghost(g))
        .step(433796400, 14400, 0, "+04", Ghost(g))
        .step(449611200, 14400, 3600, "+05", Ghost(g))
        .step(465343200, 14400, 0, "+04", Ghost(g))
        .step(481068000, 14400, 3600, "+05", Ghost(g))
        .step(496792800, 14400, 0, "+04", Ghost(g))
        .step(512517600, 14400, 3600, "+05", Ghost(g))
        .step(528242400, 14400, 0, "+04", Ghost(g))
        .step(543967200, 14400, 3600, "+05", Ghost(g))
        .step(559692000, 14400, 0, "+04", Ghost(g))
        .step(575416800, 14400, 3600, "+05", Ghost(g))
        .step(591141600, 14400, 0, "+04", Ghost(g))
        .step(606866400, 14400, 3600, "+05", Ghost(g))
        .step(622591200, 14400, 0, "+04", Ghost(g))
        .step(638316000, 14400, 3600, "+05", Ghost(g))
        .step(654645600, 14400, 0, "+04", Ghost(g))
        .step(670370400, 10800, 3600, "+04", Ghost(g))
        .step(686098800, 10800, 0, "+03", Ghost(g))
        .step(701823600, 10800, 3600, "+04", Ghost(g))
        .step(717548400, 14400, 0, "+04", Ghost(g))
        .step(828234000, 14400, 3600, "+05", Ghost(g))
        .step(846378000, 14400, 0, "+04", Ghost(g))
        .step(859680000, 14400, 3600, "+05", Ghost(g))
        .step(877824000, 14400, 0, "+04", Ghost(g))
        .step(891129600, 14400, 3600, "+05", Ghost(g))
        .step(909273600, 14400, 0, "+04", Ghost(g))
        .step(922579200, 14400, 3600, "+05", Ghost(g))
        .step(941328000, 14400, 0, "+04", Ghost(g))
        .step(954028800, 14400, 3600, "+05", Ghost(g))
        .step(972777600, 14400, 0, "+04", Ghost(g))
        .step(985478400, 14400, 3600, "+05", Ghost(g))
        .step(1004227200, 14400, 0, "+04", Ghost(g))
        .step(1017532800, 14400, 3600, "+05", Ghost(g))
        .step(1035676800, 14400, 0, "+04", Ghost(g))
        .step(1048982400, 14400, 3600, "+05", Ghost(g))
        .step(1067126400, 14400, 0, "+04", Ghost(g))
        .step(1080432000, 14400, 3600, "+05", Ghost(g))
        .step(1099180800, 14400, 0, "+04", Ghost(g))
        .step(1111881600, 14400, 3600, "+05", Ghost(g))
        .step(1130630400, 14400, 0, "+04", Ghost(g))
        .step(1143331200, 14400, 3600, "+05", Ghost(g))
        .step(1162080000, 14400, 0, "+04", Ghost(g))
        .step(1174780800, 14400, 3600, "+05", Ghost(g))
        .step(1193529600, 14400, 0, "+04", Ghost(g))
        .step(1206835200, 14400, 3600, "+05", Ghost(g))
        .step(1224979200, 14400, 0, "+04", Ghost(g))
        .step(1238284800, 14400, 3600, "+05", Ghost(g))
        .step(1256428800, 14400, 0, "+04", Ghost(g))
        .step(1269734400, 14400, 3600, "+05", Ghost(g))
        .step(1288483200, 14400, 0, "+04", Ghost(g))
        .step(1301184000, 14400, 3600, "+05", Ghost(g))
        .step(1319932800, 14400, 0, "+04", Ghost(g))
        .step(1332633600, 14400, 3600, "+05", Ghost(g))
        .step(1351382400, 14400, 0, "+04", Ghost(g))
        .step(1364688000, 14400, 3600, "+05", Ghost(g))
        .step(1382832000, 14400, 0, "+04", Ghost(g))
        .step(1396137600, 14400, 3600, "+05", Ghost(g))
        .step(1414281600, 14400, 0, "+04", Ghost(g))
        .step(1427587200, 14400, 3600, "+05", Ghost(g))
        .step(1445731200, 14400, 0, "+04", Ghost(g))
        .step(2147483647, 14400, 0, "+04", Ghost(g))
        .finish(Ghost(g))
}

/// The zone `Asia/Bangkok`.
pub fn bangkok() -> (r: Tz)
    ensures
        r.wf(),
        r.zone_name() == "Asia/Bangkok"@,
        r.table() == tables::asia::bangkok(),
{
    let ghost g = tables::asia::bangkok_rows();
    FixedTimespanSet::begin("Asia/Bangkok", 24124, 0, "LMT", Ghost(g))
        .step(-2840164924, 24124, 0, "BMT", Ghost(g))
        .step(-1570084924, 25200, 0, "+07", Ghost(g))
        .step(2147483647, 25200, 0, "+07", Ghost(g))
        .finish(Ghost(g))
}

/// The zone `Asia/Barnaul`.
pub fn barnaul() -> (r: Tz)
    ensures
        r.wf(),
        r.zone_name() == "Asia/Barnaul"@,
        r.table() == tables::asia::barnaul(),
{
    let ghost g = tables::asia::barnaul_rows();
    FixedTimespanSet::begin("Asia/Barnaul", 20100, 0, "LMT", Ghost(g))
        .step(-1579844100, 21600, 0, "+06", Ghost(g))
        .step(-1247551200, 25200, 0, "+07", Ghost(g))
        .step(354906000, 25200, 3600, "+08", Ghost(g))
        .step(370713600, 25200, 0, "+07", Ghost(g))
        .step(386442000, 25200, 3600, "+08", Ghost(g))
        .step(402249600, 25200, 0, "+07", Ghost(g))
        .step(417978000, 25200, 3600, "+08", Ghost(g))
        .step(433785600, 25200, 0, "+07", Ghost(g))
        .step(449600400, 25200, 3600, "+08", Ghost(g))
        .step(465332400, 25200, 0, "+07", Ghost(g))
        .step(481057200, 25200, 3600, "+08", Ghost(g))
        .step(496782000, 25200, 0, "+07", Ghost(g))
        .step(512506800, 25200, 3600, "+08", Ghost(g))
        .step(528231600, 25200, 0, "+07", Ghost(g))
        .step(543956400, 25200, 3600, "+08", Ghost(g))
        .step(559681200, 25200, 0, "+07", Ghost(g))
        .step(575406000, 25200, 3600, "+08", Ghost(g))
        .step(591130800, 25200, 0, "+07", Ghost(g))
        .step(606855600, 25200, 3600, "+08", Ghost(g))
        .step(622580400, 25200, 0, "+07", Ghost(g))
        .step(638305200, 25200, 3600, "+08", Ghost(g))
        .step(654634800, 25200, 0, "+07", Ghost(g))
        .step(670359600, 21600, 3600, "+07", Ghost(g))
        .step(686088000, 21600, 0, "+06", Ghost(g))
        .step(695764800, 25200, 0, "+07", Ghost(g))
        .step(701809200, 25200, 3600, "+08", Ghost(g))
        .step(717534000, 25200, 0, "+07", Ghost(g))
        .step(733258800, 25200, 3600, "+08", Ghost(g))
        .step(748983600, 25200, 0, "+07", Ghost(g))
        .step(764708400, 25200, 3600, "+08", Ghost(g))
        .step(780433200, 25200, 0, "+07", Ghost(g))
        .step(796158000, 25200, 3600, "+08", Ghost(g))
        .step(801590400, 21600, 3600, "+07", Ghost(g))
        .step(811886400, 21600, 0, "+06", Ghost(g))
        .step(828216000, 21600, 3600, "+07", Ghost(g))
        .step(846360000, 21600, 0, "+06", Ghost(g))
        .step(859665600, 21600, 3600, "+07", Ghost(g))
        .step(877809600, 21600, 0, "+06", Ghost(g))
        .step(891115200, 21600, 3600, "+07", Ghost(g))
        .step(909259200, 21600, 0, "+06", Ghost(g))
        .step(922564800, 21600, 3600, "+07", Ghost(g))
        .step(941313600, 21600, 0, "+06", Ghost(g))
        .step(954014400, 21600, 3600, "+07", Ghost(g))
        .step(972763200, 21600, 0, "+06", Ghost(g))
        .step(985464000, 21600, 3600, "+07", Ghost(g))
        .step(1004212800, 21600, 0, "+06", Ghost(g))
        .step(1017518400, 21600, 3600, "+07", Ghost(g))
        .step(1035662400, 21600, 0, "+06", Ghost(g))
        .step(1048968000, 21600, 3600, "+07", Ghost(g))
        .step(1067112000, 21600, 0, "+06", Ghost(g))
        .step(1080417600, 21600, 3600, "+07", Ghost(g))
        .step(1099166400, 21600, 0, "+06", Ghost(g))
        .step(1111867200, 21600, 3600, "+07", Ghost(g))
        .step(1130616000, 21600, 0, "+06", Ghost(g))
        .step(1143316800, 21600, 3600, "+07", Ghost(g))
        .step(1162065600, 21600, 0, "+06", Ghost(g))
        .step(1174766400, 21600, 3600, "+07", Ghost(g))
        .step(1193515200, 21600, 0, "+06", Ghost(g))
        .step(1206820800, 21600, 3600, "+07", Ghost(g))
        .step(1224964800, 21600, 0, "+06", Ghost(g))
        .step(1238270400, 21600, 3600, "+07", Ghost(g))
        .step(1256414400, 21600, 0, "+06", Ghost(g))
        .step(1269720000, 21600, 3600, "+07", Ghost(g))
        .step(1288468800, 21600, 0, "+06", Ghost(g))
        .step(1301169600, 25200, 0, "+07", Ghost(g))
        .step(1414263600, 21600, 0, "+06", Ghost(g))
        .step(1459022400, 25200, 0, "+07", Ghost(g))
        .step(2147483647, 25200, 0, "+07", Ghost(g))
        .finish(Ghost(g))
}

/// The zone `Asia/Beirut`.
pub fn beirut() -> (r: Tz)
    ensures
        r.wf(),
        r.zone_name() == "Asia/Beirut"@,
        r.table() == tables::asia::beirut(),
{
    let ghost g = tables::asia::beirut_rows();
    FixedTimespanSet::begin("Asia/Beirut", 8520, 0, "LMT", Ghost(g))
        .step(-2840149320, 7200, 0, "EET", Ghost(g))
        .step(-1570413600, 7200, 3600, "EEST", Ghost(g))
        .step(-1552186800, 7200, 0, "EET", Ghost(g))
        .step(-1538359200, 7200, 3600, "EEST", Ghost(g))
        .step(-1522551600, 7200, 0, "EET", Ghost(g))
        .step(-1507514400, 7200, 3600, "EEST", Ghost(g))
        .step(-1490583600, 7200, 0, "EET", Ghost(g))
        .step(-1473645600, 7200, 3600, "EEST", Ghost(g))
        .step(-1460948400, 7200, 0, "EET", Ghost(g))
        .step(-399866400, 7200, 3600, "EEST", Ghost(g))
        .step(-386650800, 7200, 0, "EET", Ghost(g))
        .step(-368330400, 7200, 3600, "EEST", Ghost(g))
        .step(-355114800, 7200, 0, "EET", Ghost(g))
        .step(-336794400, 7200, 3600, "EEST", Ghost(g))
        .step(-323578800, 7200, 0, "EET", Ghost(g))
        .step(-305172000, 7200, 3600, "EEST", Ghost(g))
        .step(-291956400, 7200, 0, "EET", Ghost(g))
        .step(-273636000, 7200, 3600, "EEST", Ghost(g))
        .step(-260420400, 7200, 0, "EET", Ghost(g))
        .step(78012000, 7200, 3600, "EEST", Ghost(g))
        .step(86734800, 7200, 0, "EET", Ghost(g))
        .step(105055200, 7200, 3600, "EEST", Ghost(g))
        .step(118270800, 7200, 0, "EET", Ghost(g))
        .step(136591200, 7200, 3600, "EEST", Ghost(g))
        .step(149806800, 7200, 0, "EET", Ghost(g))
        .step(168127200, 7200, 3600, "EEST", Ghost(g))
        .step(181342800, 7200, 0, "EET", Ghost(g))
        .step(199749600, 7200, 3600, "EEST", Ghost(g))
        .step(212965200, 7200, 0, "EET", Ghost(g))
        .step(231285600, 7200, 3600, "EEST", Ghost(g))
        .step(244501200, 7200, 0, "EET", Ghost(g))
        .step(262735200, 7200, 3600, "EEST", Ghost(g))
        .step(275950800, 7200, 0, "EET", Ghost(g))
        .step(452210400, 7200, 3600, "EEST", Ghost(g))
        .step(466722000, 7200, 0, "EET", Ghost(g))
        .step(483746400, 7200, 3600, "EEST", Ghost(g))
        .step(498258000, 7200, 0, "EET", Ghost(g))
        .step(515282400, 7200, 3600, "EEST", Ghost(g))
        .step(529794000, 7200, 0, "EET", Ghost(g))
        .step(546818400, 7200, 3600, "EEST", Ghost(g))
        .step(561330000, 7200, 0, "EET", Ghost(g))
        .step(581119200, 7200, 3600, "EEST", Ghost(g))
        .step(592952400, 7200, 0, "EET", Ghost(g))
        .step(610754400, 7200, 3600, "EEST", Ghost(g))
        .step(624488400, 7200, 0, "EET", Ghost(g))
        .step(641512800, 7200, 3600, "EEST", Ghost(g))
        .step(656024400, 7200, 0, "EET", Ghost(g))
        .step(673048800, 7200, 3600, "EEST", Ghost(g))
        .step(687560400, 7200, 0, "EET", Ghost(g))
        .step(704671200, 7200, 3600, "EEST", Ghost(g))
        .step(718146000, 7200, 0, "EET", Ghost(g))
        .step(733269600, 7200, 3600, "EEST", Ghost(g))
        .step(748990800, 7200, 0, "EET", Ghost(g))
        .step(764719200, 7200, 3600, "EEST", Ghost(g))
        .step(780440400, 7200, 0, "EET", Ghost(g))
        .step(796168800, 7200, 3600, "EEST", Ghost(g))
        .step(811890000, 7200, 0, "EET", Ghost(g))
        .step(828223200, 7200, 3600, "EEST", Ghost(g))
        .step(843944400, 7200, 0, "EET", Ghost(g))
        .step(859672800, 7200, 3600, "EEST", Ghost(g))
        .step(875394000, 7200, 0, "EET", Ghost(g))
        .step(891122400, 7200, 3600, "EEST", Ghost(g))
        .step(906843600, 7200, 0, "EET", Ghost(g))
        .step(922572000, 7200, 3600, "EEST", Ghost(g))
        .step(941317200, 7200, 0, "EET", Ghost(g))
        .step(954021600, 7200, 3600, "EEST", Ghost(g))
        .step(972766800, 7200, 0, "EET", Ghost(g))
        .step(985471200, 7200, 3600, "EEST", Ghost(g))
        .step(1004216400, 7200, 0, "EET", Ghost(g))
        .step(1017525600, 7200, 3600, "EEST", Ghost(g))
        .step(1035666000, 7200, 0, "EET", Ghost(g))
        .step(1048975200, 7200, 3600, "EEST", Ghost(g))
        .step(1067115600, 7200, 0, "EET", Ghost(g))
        .step(1080424800, 7200, 3600, "EEST", Ghost(g))
        .step(1099170000, 7200, 0, "EET", Ghost(g))
        .step(1111874400, 7200, 3600, "EEST", Ghost(g))
        .step(1130619600, 7200, 0, "EET", Ghost(g))
        .step(1143324000, 7200, 3600, "EEST", Ghost(g))
        .step(1162069200, 7200, 0, "EET", Ghost(g))
        .step(1174773600, 7200, 3600, "EEST", Ghost(g))
        .step(1193518800, 7200, 0, "EET", Ghost(g))
        .step(1206828000, 7200, 3600, "EEST", Ghost(g))
        .step(1224968400, 7200, 0, "EET", Ghost(g))
        .step(1238277600, 7200, 3600, "EEST", Ghost(g))
        .step(1256418000, 7200, 0, "EET", Ghost(g))
        .step(1269727200, 7200, 3600, "EEST", Ghost(g))
        .step(1288472400, 7200, 0, "EET", Ghost(g))
        .step(1301176800, 7200, 3600, "EEST", Ghost(g))
        .step(1319922000, 7200, 0, "EET", Ghost(g))
        .step(1332626400, 7200, 3600, "EEST", Ghost(g))
        .step(1351371600, 7200, 0, "EET", Ghost(g))
        .step(1364680800, 7200, 3600, "EEST", Ghost(g))
        .step(1382821200, 7200, 0, "EET", Ghost(g))
        .step(1396130400, 7200, 3600, "EEST", Ghost(g))
        .step(1414270800, 7200, 0, "EET", Ghost(g))
        .step(1427580000, 7200, 3600, "EEST", Ghost(g))
        .step(1445720400, 7200, 0, "EET", Ghost(g))
        .step(1459029600, 7200, 3600, "EEST", Ghost(g))
        .step(1477774800, 7200, 0, "EET", Ghost(g))
        .step(1490479200, 7200, 3600, "EEST", Ghost(g))
        .step(1509224400, 7200, 0, "EET", Ghost(g))
        .step(1521928800, 7200, 3600, "EEST", Ghost(g))
        .step(1540674000, 7200, 0, "EET", Ghost(g))
        .step(1553983200, 7200, 3600, "EEST", Ghost(g))
        .step(1572123600, 7200, 0, "EET", Ghost(g))
        .step(1585432800, 7200, 3600, "EEST", Ghost(g))
        .step(1603573200, 7200, 0, "EET", Ghost(g))
        .step(1616882400, 7200, 3600, "EEST", Ghost(g))
        .step(1635627600, 7200, 0, "EET", Ghost(g))
        .step(1648332000, 7200, 3600, "EEST", Ghost(g))
        .step(1667077200, 7200, 0, "EET", Ghost(g))
        .step(1679781600, 7200, 3600, "EEST", Ghost(g))
        .step(1698526800, 7200, 0, "EET", Ghost(g))
        .step(1711836000, 7200, 3600, "EEST", Ghost(g))
        .step(1729976400, 7200, 0, "EET", Ghost(g))
        .step(1743285600, 7200, 3600, "EEST", Ghost(g))
        .step(1761426000, 7200, 0, "EET", Ghost(g))
        .step(1774735200, 7200, 3600, "EEST", Ghost(g))
        .step(1792875600, 7200, 0, "EET", Ghost(g))
        .step(1806184800, 7200, 3600, "EEST", Ghost(g))
        .step(1824930000, 7200, 0, "EET", Ghost(g))
        .step(1837634400, 7200, 3600, "EEST", Ghost(g))
        .step(1856379600, 7200, 0, "EET", Ghost(g))
        .step(1869084000, 7200, 3600, "EEST", Ghost(g))
        .step(1887829200, 7200, 0, "EET", Ghost(g))
        .step(1901138400, 7200, 3600, "EEST", Ghost(g))
        .step(1919278800, 7200, 0, "EET", Ghost(g))
        .step(1932588000, 7200, 3600, "EEST", Ghost(g))
        .step(1950728400, 7200, 0, "EET", Ghost(g))
        .step(1964037600, 7200, 3600, "EEST", Ghost(g))
        .step(1982782800, 7200, 0, "EET", Ghost(g))
        .step(1995487200, 7200, 3600, "EEST", Ghost(g))
        .step(2014232400, 7200, 0, "EET", Ghost(g))
        .step(2026936800, 7200, 3600, "EEST", Ghost(g))
        .step(2045682000, 7200, 0, "EET", Ghost(g))
        .step(2058386400, 7200, 3600, "EEST", Ghost(g))
        .step(2077131600, 7200, 0, "EET", Ghost(g))
        .step(2090440800, 7200, 3600, "EEST", Ghost(g))
        .step(2108581200, 7200, 0, "EET", Ghost(g))
        .step(2121890400, 7200, 3600, "EEST", Ghost(g))
        .step(2140030800, 7200, 0, "EET", Ghost(g))
        .finish(Ghost(g))
}

/// The zone `Asia/Bishkek`.
pub fn bishkek() -> (r: Tz)
    ensures
        r.wf(),
        r.zone_name() == "Asia/Bishkek"@,
        r.table() == tables::asia::bishkek(),
{
    let ghost g = tables::asia::bishkek_rows();
    FixedTimespanSet::begin("Asia/Bishkek", 17904, 0, "LMT", Ghost(g))
        .step(-1441169904, 18000, 0, "+05", Ghost(g))
        .step(-1247547600, 21600, 0, "+06", Ghost(g))
        .step(354909600, 21600, 3600, "+07", Ghost(g))
        .step(370717200, 21600, 0, "+06", Ghost(g))
        .step(386445600, 21600, 3600, "+07", Ghost(g))
        .step(402253200, 21600, 0, "+06", Ghost(g))
        .step(417981600, 21600, 3600, "+07", Ghost(g))
        .step(433789200, 21600, 0, "+06", Ghost(g))
        .step(449604000, 21600, 3600, "+07", Ghost(g))
        .step(465336000, 21600, 0, "+06", Ghost(g))
        .step(481060800, 21600, 3600, "+07", Ghost(g))
        .step(496785600, 21600, 0, "+06", Ghost(g))
        .step(512510400, 21600, 3600, "+07", Ghost(g))
        .step(528235200, 21600, 0, "+06", Ghost(g))
        .step(543960000, 21600, 3600, "+07", Ghost(g))
        .step(559684800, 21600, 0, "+06", Ghost(g))
        .step(575409600, 21600, 3600, "+07", Ghost(g))
        .step(591134400, 21600, 0, "+06", Ghost(g))
        .step(606859200, 21600, 3600, "+07", Ghost(g))
        .step(622584000, 21600, 0, "+06", Ghost(g))
        .step(638308800, 21600, 3600, "+07", Ghost(g))
        .step(654638400, 21600, 0, "+06", Ghost(g))
        .step(670363200, 18000, 3600, "+06", Ghost(g))
        .step(683582400, 18000, 0, "+05", Ghost(g))
        .step(703018800, 18000, 3600, "+06", Ghost(g))
        .step(717530400, 18000, 0, "+05", Ghost(g))
        .step(734468400, 18000, 3600, "+06", Ghost(g))
        .step(748980000, 18000, 0, "+05", Ghost(g))
        .step(765918000, 18000, 3600, "+06", Ghost(g))
        .step(780429600, 18000, 0, "+05", Ghost(g))
        .step(797367600, 18000, 3600, "+06", Ghost(g))
        .step(811879200, 18000, 0, "+05", Ghost(g))
        .step(828817200, 18000, 3600, "+06", Ghost(g))
        .step(843933600, 18000, 0, "+05", Ghost(g))
        .step(859671000, 18000, 3600, "+06", Ghost(g))
        .step(877811400, 18000, 0, "+05", Ghost(g))
        .step(891120600, 18000, 3600, "+06", Ghost(g))
        .step(909261000, 18000, 0, "+05", Ghost(g))
        .step(922570200, 18000, 3600, "+06", Ghost(g))
        .step(941315400, 18000, 0, "+05", Ghost(g))
        .step(954019800, 18000, 3600, "+06", Ghost(g))
        .step(972765000, 18000, 0, "+05", Ghost(g))
        .step(985469400, 18000, 3600, "+06", Ghost(g))
        .step(1004214600, 18000, 0, "+05", Ghost(g))
        .step(1017523800, 18000, 3600, "+06", Ghost(g))
        .step(1035664200, 18000, 0, "+05", Ghost(g))
        .step(1048973400, 18000, 3600, "+06", Ghost(g))
        .step(1067113800, 18000, 0, "+05", Ghost(g))
        .step(1080423000, 18000, 3600, "+06", Ghost(g))
        .step(1099168200, 18000, 0, "+05", Ghost(g))
        .step(1111872600, 18000, 3600, "+06", Ghost(g))
        .step(1123783200, 21600, 0, "+06", Ghost(g))
        .step(2147483647, 21600, 0, "+06", Ghost(g))
        .finish(Ghost(g))
}

/// The zone `Asia/Brunei`.
pub fn brunei() -> (r: Tz)
    ensures
        r.wf(),
        r.zone_name() == "Asia/Brunei"@,
        r.table() == tables::asia::brunei(),
{
    let ghost g = tables::asia::brunei_rows();
    FixedTimespanSet::begin("Asia/Brunei", 27580, 0, "LMT", Ghost(g))
        .step(-1383464380, 27000, 0, "+0730", Ghost(g))
        .step(-1167636600, 28800, 0, "+08", Ghost(g))
        .step(2147483647, 28800, 0, "+08", Ghost(g))
        .finish(Ghost(g))
}

/// The zone `Asia/Calcutta`.
pub fn calcutta() -> (r: Tz)
    ensures
        r.wf(),
        r.zone_name() == "Asia/Calcutta"@,
        r.table() == tables::asia::calcutta(),
{
    let ghost g = tables::asia::calcutta_rows();
    FixedTimespanSet::begin("Asia/Calcutta", 21208, 0, "LMT", Ghost(g))
        .step(-3645237208, 21200, 0, "HMT", Ghost(g))
        .step(-3155694800, 19270, 0, "MMT", Ghost(g))
        .step(-2019705670, 19800, 0, "IST", Ghost(g))
        .step(-891581400, 19800, 3600, "+0630", Ghost(g))
        .step(-872058600, 19800, 0, "IST", Ghost(g))
        .step(-862637400, 19800, 3600, "+0630", Ghost(g))
        .step(-764145000, 19800, 0, "IST", Ghost(g))
        .finish(Ghost(g))
}

/// The zone `Asia/Chita`.
pub fn chita() -> (r: Tz)
    ensures
        r.wf(),
        r.zone_name() == "Asia/Chita"@,
        r.table() == tables::asia::chita(),
{
    let ghost g = tables::asia::chita_rows();
    FixedTimespanSet::begin("Asia/Chita", 27232, 0, "LMT", Ghost(g))
        .step(-1579419232, 28800, 0, "+08", Ghost(g))
        .step(-1247558400, 32400, 0, "+09", Ghost(g))
        .step(354898800, 32400, 3600, "+10", Ghost(g))
        .step(370706400, 32400, 0, "+09", Ghost(g))
        .step(386434800, 32400, 3600, "+10", Ghost(g))
        .step(402242400, 32400, 0, "+09", Ghost(g))
        .step(417970800, 32400, 3600, "+10", Ghost(g))
        .step(433778400, 32400, 0, "+09", Ghost(g))
        .step(449593200, 32400, 3600, "+10", Ghost(g))
        .step(465325200, 32400, 0, "+09", Ghost(g))
        .step(481050000, 32400, 3600, "+10", Ghost(g))
        .step(496774800, 32400, 0, "+09", Ghost(g))
        .step(512499600, 32400, 3600, "+10", Ghost(g))
        .step(528224400, 32400, 0, "+09", Ghost(g))
        .step(543949200, 32400, 3600, "+10", Ghost(g))
        .step(559674000, 32400, 0, "+09", Ghost(g))
        .step(575398800, 32400, 3600, "+10", Ghost(g))
        .step(591123600, 32400, 0, "+09", Ghost(g))
        .step(606848400, 32400, 3600, "+10", Ghost(g))
        .step(622573200, 32400, 0, "+09", Ghost(g))
        .step(638298000, 32400, 3600, "+10", Ghost(g))
        .step(654627600, 32400, 0, "+09", Ghost(g))
        .step(670352400, 28800, 3600, "+09", Ghost(g))
        .step(686080800, 28800, 0, "+08", Ghost(g))
        .step(695757600, 32400, 0, "+09", Ghost(g))
        .step(701802000, 32400, 3600, "+10", Ghost(g))
        .step(717526800, 32400, 0, "+09", Ghost(g))
        .step(733251600, 32400, 3600, "+10", Ghost(g))
        .step(748976400, 32400, 0, "+09", Ghost(g))
        .step(764701200, 32400, 3600, "+10", Ghost(g))
        .step(780426000, 32400, 0, "+09", Ghost(g))
        .step(796150800, 32400, 3600, "+10", Ghost(g))
        .step(811875600, 32400, 0, "+09", Ghost(g))
        .step(828205200, 32400, 3600, "+10", Ghost(g))
        .step(846349200, 32400, 0, "+09", Ghost(g))
        .step(859654800, 32400, 3600, "+10", Ghost(g))
        .step(877798800, 32400, 0, "+09", Ghost(g))
        .step(891104400, 32400, 3600, "+10", Ghost(g))
        .step(909248400, 32400, 0, "+09", Ghost(g))
        .step(922554000, 32400, 3600, "+10", Ghost(g))
        .step(941302800, 32400, 0, "+09", Ghost(g))
        .step(954003600, 32400, 3600, "+10", Ghost(g))
        .step(972752400, 32400, 0, "+09", Ghost(g))
        .step(985453200, 32400, 3600, "+10", Ghost(g))
        .step(1004202000, 32400, 0, "+09", Ghost(g))
        .step(1017507600, 32400, 3600, "+10", Ghost(g))
        .step(1035651600, 32400, 0, "+09", Ghost(g))
        .step(1048957200, 32400, 3600, "+10", Ghost(g))
        .step(1067101200, 32400, 0, "+09", Ghost(g))
        .step(1080406800, 32400, 3600, "+10", Ghost(g))
        .step(1099155600, 32400, 0, "+09", Ghost(g))
        .step(1111856400, 32400, 3600, "+10", Ghost(g))
        .step(1130605200, 32400, 0, "+09", Ghost(g))
        .step(1143306000, 32400, 3600, "+10", Ghost(g))
        .step(1162054800, 32400, 0, "+09", Ghost(g))
        .step(1174755600, 32400, 3600, "+10", Ghost(g))
        .step(1193504400, 32400, 0, "+09", Ghost(g))
        .step(1206810000, 32400, 3600, "+10", Ghost(g))
        .step(1224954000, 32400, 0, "+09", Ghost(g))
        .step(1238259600, 32400, 3600, "+10", Ghost(g))
        .step(1256403600, 32400, 0, "+09", Ghost(g))
        .step(1269709200, 32400, 3600, "+10", Ghost(g))
        .step(1288458000, 32400, 0, "+09", Ghost(g))
        .step(1301158800, 36000, 0, "+10", Ghost(g))
        .step(1414252800, 28800, 0, "+08", Ghost(g))
        .step(1459015200, 32400, 0, "+09", Ghost(g))
        .step(2147483647, 32400, 0, "+09", Ghost(g))
        .finish(Ghost(g))
}

/// The zone `Asia/Choibalsan`.
pub fn choibalsan() -> (r: Tz)
    ensures
        r.wf(),
        r.zone_name() == "Asia/Choibalsan"@,
        r.table() == tables::asia::choibalsan(),
{
    let ghost g = tables::asia::choibalsan_rows();
    FixedTimespanSet::begin("Asia/Choibalsan", 25652, 0, "LMT", Ghost(g))
        .step(-2032931252, 25200, 0, "+07", Ghost(g))
        .step(252435600, 28800, 0, "+08", Ghost(g))
        .step(417974400, 28800, 3600, "+09", Ghost(g))
        .step(433782000, 28800, 0, "+08", Ghost(g))
        .step(449596800, 28800, 3600, "+09", Ghost(g))
        .step(465318000, 28800, 0, "+08", Ghost(g))
        .step(481046400, 28800, 3600, "+09", Ghost(g))
        .step(496767600, 28800, 0, "+08", Ghost(g))
        .step(512496000, 28800, 3600, "+09", Ghost(g))
        .step(528217200, 28800, 0, "+08", Ghost(g))
        .step(543945600, 28800, 3600, "+09", Ghost(g))
        .step(559666800, 28800, 0, "+08", Ghost(g))
        .step(575395200, 28800, 3600, "+09", Ghost(g))
        .step(591116400, 28800, 0, "+08", Ghost(g))
        .step(606844800, 28800, 3600, "+09", Ghost(g))
        .step(622566000, 28800, 0, "+08", Ghost(g))
        .step(638294400, 28800, 3600, "+09", Ghost(g))
        .step(654620400, 28800, 0, "+08", Ghost(g))
        .step(670348800, 28800, 3600, "+09", Ghost(g))
        .step(686070000, 28800, 0, "+08", Ghost(g))
        .step(701798400, 28800, 3600, "+09", Ghost(g))
        .step(717519600, 28800, 0, "+08", Ghost(g))
        .step(733248000, 28800, 3600, "+09", Ghost(g))
        .step(748969200, 28800, 0, "+08", Ghost(g))
        .step(764697600, 28800, 3600, "+09", Ghost(g))
        .step(780418800, 28800, 0, "+08", Ghost(g))
        .step(796147200, 28800, 3600, "+09", Ghost(g))
        .step(811868400, 28800, 0, "+08", Ghost(g))
        .step(828201600, 28800, 3600, "+09", Ghost(g))
        .step(843922800, 28800, 0, "+08", Ghost(g))
        .step(859651200, 28800, 3600, "+09", Ghost(g))
        .step(875372400, 28800, 0, "+08", Ghost(g))
        .step(891100800, 28800, 3600, "+09", Ghost(g))
        .step(906822000, 28800, 0, "+08", Ghost(g))
        .step(988394400, 28800, 3600, "+09", Ghost(g))
        .step(1001696400, 28800, 0, "+08", Ghost(g))
        .step(1017424800, 28800, 3600, "+09", Ghost(g))
        .step(1033146000, 28800, 0, "+08", Ghost(g))
        .step(1048874400, 28800, 3600, "+09", Ghost(g))
        .step(1064595600, 28800, 0, "+08", Ghost(g))
        .step(1080324000, 28800, 3600, "+09", Ghost(g))
        .step(1096045200, 28800, 0, "+08", Ghost(g))
        .step(1111773600, 28800, 3600, "+09", Ghost(g))
        .step(1127494800, 28800, 0, "+08", Ghost(g))
        .step(1143223200, 28800, 3600, "+09", Ghost(g))
        .step(1159549200, 28800, 0, "+08", Ghost(g))
        .step(1427479200, 28800, 3600, "+09", Ghost(g))
        .step(1443193200, 28800, 0, "+08", Ghost(g))
        .step(1458928800, 28800, 3600, "+09", Ghost(g))
        .step(1474642800, 28800, 0, "+08", Ghost(g))
        .step(2147483647, 28800, 0, "+08", Ghost(g))
        .finish(Ghost(g))
}

/// The zone `Asia/Chongqing`.
pub fn chongqing() -> (r: Tz)
    ensures
        r.wf(),
        r.zone_name() == "Asia/Chongqing"@,
        r.table() == tables::asia::chongqing(),
{
    let ghost g = tables::asia::chongqing_rows();
    FixedTimespanSet::begin("Asia/Chongqing", 29143, 0, "LMT", Ghost(g))
        .step(-2177481943, 28800, 0, "CST", Ghost(g))
        .step(-1600675200, 28800, 3600, "CDT", Ghost(g))
        .step(-1585904400, 28800, 0, "CST", Ghost(g))
        .step(-933667200, 28800, 3600, "CDT", Ghost(g))
        .step(-922093200, 28800, 0, "CST", Ghost(g))
        .step(-908870400, 28800, 3600, "CDT", Ghost(g))
        .step(-888829200, 28800, 0, "CST", Ghost(g))
        .step(-881049600, 28800, 3600, "CDT", Ghost(g))
        .step(-767869200, 28800, 0, "CST", Ghost(g))
        .step(-745833600, 28800, 3600, "CDT", Ghost(g))
        .step(-733827600, 28800, 0, "CST", Ghost(g))
        .step(-716889600, 28800, 3600, "CDT", Ghost(g))
        .step(-699613200, 28800, 0, "CST", Ghost(g))
        .step(-683884800, 28800, 3600, "CDT", Ghost(g))
        .step(-670669200, 28800, 0, "CST", Ghost(g))
        .step(-652348800, 28800, 3600, "CDT", Ghost(g))
        .step(-650019600, 28800, 0, "CST", Ghost(g))
        .step(515527200, 28800, 3600, "CDT", Ghost(g))
        .step(527014800, 28800, 0, "CST", Ghost(g))
        .step(545162400, 28800, 3600, "CDT", Ghost(g))
        .step(558464400, 28800, 0, "CST", Ghost(g))
        .step(577216800, 28800, 3600, "CDT", Ghost(g))
        .step(589914000, 28800, 0, "CST", Ghost(g))
        .step(608666400, 28800, 3600, "CDT", Ghost(g))
        .step(621968400, 28800, 0, "CST", Ghost(g))
        .step(640116000, 28800, 3600, "CDT", Ghost(g))
        .step(653418000, 28800, 0, "CST", Ghost(g))
        .step(671565600, 28800, 3600, "CDT", Ghost(g))
        .step(684867600, 28800, 0, "CST", Ghost(g))
        .finish(Ghost(g))
}

/// The zone `Asia/Chungking`.
pub fn chungking() -> (r: Tz)
    ensures
        r.wf(),
        r.zone_name() == "Asia/Chungking"@,
        r.table() == tables::asia::chungking(),
{
    let ghost g = tables::asia::chungking_rows();
    FixedTimespanSet::begin("Asia/Chungking", 29143, 0, "LMT", Ghost(g))
        .step(-2177481943, 28800, 0, "CST", Ghost(g))
        .step(-1600675200, 28800, 3600, "CDT", Ghost(g))
        .step(-1585904400, 28800, 0, "CST", Ghost(g))
        .step(-933667200, 28800, 3600, "CDT", Ghost(g))
        .step(-922093200, 28800, 0, "CST", Ghost(g))
        .step(-908870400, 28800, 3600, "CDT", Ghost(g))
        .step(-888829200, 28800, 0, "CST", Ghost(g))
        .step(-881049600, 28800, 3600, "CDT", Ghost(g))
        .step(-767869200, 28800, 0, "CST", Ghost(g))
        .step(-745833600, 28800, 3600, "CDT", Ghost(g))
        .step(-733827600, 28800, 0, "CST", Ghost(g))
        .step(-716889600, 28800, 3600, "CDT", Ghost(g))
        .step(-699613200, 28800, 0, "CST", Ghost(g))
        .step(-683884800, 28800, 3600, "CDT", Ghost(g))
        .step(-670669200, 28800, 0, "CST", Ghost(g))
        .step(-652348800, 28800, 3600, "CDT", Ghost(g))
        .step(-650019600, 28800, 0, "CST", Ghost(g))
        .step(515527200, 28800, 3600, "CDT", Ghost(g))
        .step(527014800, 28800, 0, "CST", Ghost(g))
        .step(545162400, 28800, 3600, "CDT", Ghost(g))
        .step(558464400, 28800, 0, "CST", Ghost(g))
        .step(577216800, 28800, 3600, "CDT", Ghost(g))
        .step(589914000, 28800, 0, "CST", Ghost(g))
        .step(608666400, 28800, 3600, "CDT", Ghost(g))
        .step(621968400, 28800, 0, "CST", Ghost(g))
        .step(640116000, 28800, 3600, "CDT", Ghost(g))
        .step(653418000, 28800, 0, "CST", Ghost(g))
        .step(671565600, 28800, 3600, "CDT", Ghost(g))
        .step(684867600, 28800, 0, "CST", Ghost(g))
        .finish(Ghost(g))
}

/// The zone `Asia/Colombo`.
pub fn colombo() -> (r: Tz)
    ensures
        r.wf(),
        r.zone_name() == "Asia/Colombo"@,
        r.table() == tables::asia::colombo(),
{
    let ghost g = tables::asia::colombo_rows();
    FixedTimespanSet::begin("Asia/Colombo", 19164, 0, "LMT", Ghost(g))
        .step(-2840159964, 19172, 0, "MMT", Ghost(g))
        .step(-2019705572, 19800, 0, "+0530", Ghost(g))
        .step(-883287000, 19800, 1800, "+06", Ghost(g))
        .step(-862639200, 19800, 3600, "+0630", Ghost(g))
        .step(-764051400, 19800, 0, "+0530", Ghost(g))
        .step(832962600, 23400, 0, "+0630", Ghost(g))
        .step(846266400, 21600, 0, "+06", Ghost(g))
        .step(1145039400, 19800, 0, "+0530", Ghost(g))
        .step(2147483647, 19800, 0, "+0530", Ghost(g))
        .finish(Ghost(g))
}

/// The zone `Asia/Dacca`.
pub fn dacca() -> (r: Tz)
    ensures
        r.wf(),
        r.zone_name() == "Asia/Dacca"@,
        r.table() == tables::asia::dacca(),
{
    let ghost g = tables::asia::dacca_rows();
    FixedTimespanSet::begin("Asia/Dacca", 21700, 0, "LMT", Ghost(g))
        .step(-2524543300, 21200, 0, "HMT", Ghost(g))
        .step(-891582800, 23400, 0, "+0630", Ghost(g))
        .step(-872058600, 19800, 0, "+0530", Ghost(g))
        .step(-862637400, 23400, 0, "+0630", Ghost(g))
        .step(-576138600, 21600, 0, "+06", Ghost(g))
        .step(1245430800, 21600, 3600, "+07", Ghost(g))
        .step(1262278800, 21600, 0, "+06", Ghost(g))
        .step(2147483647, 21600, 0, "+06", Ghost(g))
        .finish(Ghost(g))
}

/// The zone `Asia/Damascus`.
pub fn damascus() -> (r: Tz)
    ensures
        r.wf(),
        r.zone_name() == "Asia/Damascus"@,
        r.table() == tables::asia::damascus(),
{
    let ghost g = tables::asia::damascus_rows();
    FixedTimespanSet::begin("Asia/Damascus", 8712, 0, "LMT", Ghost(g))
        .step(-1577931912, 7200, 0, "EET", Ghost(g))
        .step(-1568592000, 7200, 3600, "EEST", Ghost(g))
        .step(-1554080400, 7200, 0, "EET", Ghost(g))
        .step(-1537142400, 7200, 3600, "EEST", Ghost(g))
        .step(-1522630800, 7200, 0, "EET", Ghost(g))
        .step(-1505692800, 7200, 3600, "EEST", Ghost(g))
        .step(-1491181200, 7200, 0, "EET", Ghost(g))
        .step(-1474243200, 7200, 3600, "EEST", Ghost(g))
        .step(-1459126800, 7200, 0, "EET", Ghost(g))
        .step(-242265600, 7200, 3600, "EEST", Ghost(g))
        .step(-228877200, 7200, 0, "EET", Ghost(g))
        .step(-210556800, 7200, 3600, "EEST", Ghost(g))
        .step(-197427600, 7200, 0, "EET", Ghost(g))
        .step(-178934400, 7200, 3600, "EEST", Ghost(g))
        .step(-165718800, 7200, 0, "EET", Ghost(g))
        .step(-147398400, 7200, 3600, "EEST", Ghost(g))
        .step(-134269200, 7200, 0, "EET", Ghost(g))
        .step(-116467200, 7200, 3600, "EEST", Ghost(g))
        .step(-102646800, 7200, 0, "EET", Ghost(g))
        .step(-84326400, 7200, 3600, "EEST", Ghost(g))
        .step(-71110800, 7200, 0, "EET", Ghost(g))
        .step(-52704000, 7200, 3600, "EEST", Ghost(g))
        .step(-39488400, 7200, 0, "EET", Ghost(g))
        .step(-21168000, 7200, 3600, "EEST", Ghost(g))
        .step(-7952400, 7200, 0, "EET", Ghost(g))
        .step(10368000, 7200, 3600, "EEST", Ghost(g))
        .step(23583600, 7200, 0, "EET", Ghost(g))
        .step(41904000, 7200, 3600, "EEST", Ghost(g))
        .step(55119600, 7200, 0, "EET", Ghost(g))
        .step(73526400, 7200, 3600, "EEST", Ghost(g))
        .step(86742000, 7200, 0, "EET", Ghost(g))
        .step(105062400, 7200, 3600, "EEST", Ghost(g))
        .step(118278000, 7200, 0, "EET", Ghost(g))
        .step(136598400, 7200, 3600, "EEST", Ghost(g))
        .step(149814000, 7200, 0, "EET", Ghost(g))
        .step(168134400, 7200, 3600, "EEST", Ghost(g))
        .step(181350000, 7200, 0, "EET", Ghost(g))
        .step(199756800, 7200, 3600, "EEST", Ghost(g))
        .step(212972400, 7200, 0, "EET", Ghost(g))
        .step(231292800, 7200, 3600, "EEST", Ghost(g))
        .step(241916400, 7200, 0, "EET", Ghost(g))
        .step(262828800, 7200, 3600, "EEST", Ghost(g))
        .step(273452400, 7200, 0, "EET", Ghost(g))
        .step(418694400, 7200, 3600, "EEST", Ghost(g))
        .step(433810800, 7200, 0, "EET", Ghost(g))
        .step(450316800, 7200, 3600, "EEST", Ghost(g))
        .step(465433200, 7200, 0, "EET", Ghost(g))
        .step(508896000, 7200, 3600, "EEST", Ghost(g))
        .step(529196400, 7200, 0, "EET", Ghost(g))
        .step(541555200, 7200, 3600, "EEST", Ghost(g))
        .step(562633200, 7200, 0, "EET", Ghost(g))
        .step(574387200, 7200, 3600, "EEST", Ghost(g))
        .step(594255600, 7200, 0, "EET", Ghost(g))
        .step(607305600, 7200, 3600, "EEST", Ghost(g))
        .step(623199600, 7200, 0, "EET", Ghost(g))
        .step(638928000, 7200, 3600, "EEST", Ghost(g))
        .step(654649200, 7200, 0, "EET", Ghost(g))
        .step(670456800, 7200, 3600, "EEST", Ghost(g))
        .step(686264400, 7200, 0, "EET", Ghost(g))
        .step(702684000, 7200, 3600, "EEST", Ghost(g))
        .step(717886800, 7200, 0, "EET", Ghost(g))
        .step(733096800, 7200, 3600, "EEST", Ghost(g))
        .step(748904400, 7200, 0, "EET", Ghost(g))
        .step(765151200, 7200, 3600, "EEST", Ghost(g))
        .step(780958800, 7200, 0, "EET", Ghost(g))
        .step(796687200, 7200, 3600, "EEST", Ghost(g))
        .step(812494800, 7200, 0, "EET", Ghost(g))
        .step(828309600, 7200, 3600, "EEST", Ghost(g))
        .step(844117200, 7200, 0, "EET", Ghost(g))
        .step(859759200, 7200, 3600, "EEST", Ghost(g))
        .step(875653200, 7200, 0, "EET", Ghost(g))
        .step(891208800, 7200, 3600, "EEST", Ghost(g))
        .step(907189200, 7200, 0, "EET", Ghost(g))
        .step(922917600, 7200, 3600, "EEST", Ghost(g))
        .step(938725200, 7200, 0, "EET", Ghost(g))
        .step(954540000, 7200, 3600, "EEST", Ghost(g))
        .step(970347600, 7200, 0, "EET", Ghost(g))
        .step(986076000, 7200, 3600, "EEST", Ghost(g))
        .step(1001883600, 7200, 0, "EET", Ghost(g))
        .step(1017612000, 7200, 3600, "EEST", Ghost(g))
        .step(1033419600, 7200, 0, "EET", Ghost(g))
        .step(1049148000, 7200, 3600, "EEST", Ghost(g))
        .step(1064955600, 7200, 0, "EET", Ghost(g))
        .step(1080770400, 7200, 3600, "EEST", Ghost(g))
        .step(1096578000, 7200, 0, "EET", Ghost(g))
        .step(1112306400, 7200, 3600, "EEST", Ghost(g))
        .step(1128114000, 7200, 0, "EET", Ghost(g))
        .step(1143842400, 7200, 3600, "EEST", Ghost(g))
        .step(1158872400, 7200, 0, "EET", Ghost(g))
        .step(1175205600, 7200, 3600, "EEST", Ghost(g))
        .step(1193950800, 7200, 0, "EET", Ghost(g))
        .step(1207260000, 7200, 3600, "EEST", Ghost(g))
        .step(1225486800, 7200, 0, "EET", Ghost(g))
        .step(1238104800, 7200, 3600, "EEST", Ghost(g))
        .step(1256850000, 7200, 0, "EET", Ghost(g))
        .step(1270159200, 7200, 3600, "EEST", Ghost(g))
        .step(1288299600, 7200, 0, "EET", Ghost(g))
        .step(1301608800, 7200, 3600, "EEST", Ghost(g))
        .step(1319749200, 7200, 0, "EET", Ghost(g))
        .step(1333058400, 7200, 3600, "EEST", Ghost(g))
        .step(1351198800, 7200, 0, "EET", Ghost(g))
        .step(1364508000, 7200, 3600, "EEST", Ghost(g))
        .step(1382648400, 7200, 0, "EET", Ghost(g))
        .step(1395957600, 7200, 3600, "EEST", Ghost(g))
        .step(1414702800, 7200, 0, "EET", Ghost(g))
        .step(1427407200, 7200, 3600, "EEST", Ghost(g))
        .step(1446152400, 7200, 0, "EET", Ghost(g))
        .step(1458856800, 7200, 3600, "EEST", Ghost(g))
        .step(1477602000, 7200, 0, "EET", Ghost(g))
        .step(1490911200, 7200, 3600, "EEST", Ghost(g))
        .step(1509051600, 7200, 0, "EET", Ghost(g))
        .step(1522360800, 7200, 3600, "EEST", Ghost(g))
        .step(1540501200, 7200, 0, "EET", Ghost(g))
        .step(1553810400, 7200, 3600, "EEST", Ghost(g))
        .step(1571950800, 7200, 0, "EET", Ghost(g))
        .step(1585260000, 7200, 3600, "EEST", Ghost(g))
        .step(1604005200, 7200, 0, "EET", Ghost(g))
        .step(1616709600, 7200, 3600, "EEST", Ghost(g))
        .step(1635454800, 7200, 0, "EET", Ghost(g))
        .step(1648159200, 7200, 3600, "EEST", Ghost(g))
        .step(1666904400, 10800, 0, "+03", Ghost(g))
        .step(2147483647, 10800, 0, "+03", Ghost(g))
        .finish(Ghost(g))
}

/// The zone `Asia/Dhaka`.
pub fn dhaka() -> (r: Tz)
    ensures
        r.wf(),
        r.zone_name() == "Asia/Dhaka"@,
        r.table() == tables::asia::dhaka(),
{
    let ghost g = tables::asia::dhaka_rows();
    FixedTimespanSet::begin("Asia/Dhaka", 21700, 0, "LMT", Ghost(g))
        .step(-2524543300, 21200, 0, "HMT", Ghost(g))
        .step(-891582800, 23400, 0, "+0630", Ghost(g))
        .step(-872058600, 19800, 0, "+0530", Ghost(g))
        .step(-862637400, 23400, 0, "+0630", Ghost(g))
        .step(-576138600, 21600, 0, "+06", Ghost(g))
        .step(1245430800, 21600, 3600, "+07", Ghost(g))
        .step(1262278800, 21600, 0, "+06", Ghost(g))
        .step(2147483647, 21600, 0, "+06", Ghost(g))
        .finish(Ghost(g))
}

/// The zone `Asia/Dili`.
pub fn dili() -> (r: Tz)
    ensures
        r.wf(),
        r.zone_name() == "Asia/Dili"@,
        r.table() == tables::asia::dili(),
{
    let ghost g = tables::asia::dili_rows();
    FixedTimespanSet::begin("Asia/Dili", 30140, 0, "LMT", Ghost(g))
        .step(-1830412800, 28800, 0, "+08", Ghost(g))
        .step(-879152400, 32400, 0, "+09", Ghost(g))
        .step(199897200, 28800, 0, "+08", Ghost(g))
        .step(969120000, 32400, 0, "+09", Ghost(g))
        .step(2147483647, 32400, 0, "+09", Ghost(g))
        .finish(Ghost(g))
}

/// The zone `Asia/Dubai`.
pub fn dubai() -> (r: Tz)
    ensures
        r.wf(),
        r.zone_name() == "Asia/Dubai"@,
        r.table() == tables::asia::dubai(),
{
    let ghost g = tables::asia::dubai_rows();
    FixedTimespanSet::begin("Asia/Dubai", 13272, 0, "LMT", Ghost(g))
        .step(-1577936472, 14400, 0, "+04", Ghost(g))
        .step(2147483647, 14400, 0, "+04", Ghost(g))
        .finish(Ghost(g))
}

/// The zone `Asia/Dushanbe`.
pub fn dushanbe() -> (r: Tz)
    ensures
        r.wf(),
        r.zone_name() == "Asia/Dushanbe"@,
        r.table() == tables::asia::dushanbe(),
{
    let ghost g = tables::asia::dushanbe_rows();
    FixedTimespanSet::begin("Asia/Dushanbe", 16512, 0, "LMT", Ghost(g))
        .step(-1441168512, 18000, 0, "+05", Ghost(g))
        .step(-1247547600, 21600, 0, "+06", Ghost(g))
        .step(354909600, 21600, 3600, "+07", Ghost(g))
        .step(370717200, 21600, 0, "+06", Ghost(g))
        .step(386445600, 21600, 3600, "+07", Ghost(g))
        .step(402253200, 21600, 0, "+06", Ghost(g))
        .step(417981600, 21600, 3600, "+07", Ghost(g))
        .step(433789200, 21600, 0, "+06", Ghost(g))
        .step(449604000, 21600, 3600, "+07", Ghost(g))
        .step(465336000, 21600, 0, "+06", Ghost(g))
        .step(481060800, 21600, 3600, "+07", Ghost(g))
        .step(496785600, 21600, 0, "+06", Ghost(g))
        .step(512510400, 21600, 3600, "+07", Ghost(g))
        .step(528235200, 21600, 0, "+06", Ghost(g))
        .step(543960000, 21600, 3600, "+07", Ghost(g))
        .step(559684800, 21600, 0, "+06", Ghost(g))
        .step(575409600, 21600, 3600, "+07", Ghost(g))
        .step(591134400, 21600, 0, "+06", Ghost(g))
        .step(606859200, 21600, 3600, "+07", Ghost(g))
        .step(622584000, 21600, 0, "+06", Ghost(g))
        .step(638308800, 21600, 3600, "+07", Ghost(g))
        .step(654638400, 21600, 0, "+06", Ghost(g))
        .step(670363200, 18000, 3600, "+06", Ghost(g))
        .step(684363600, 18000, 0, "+05", Ghost(g))
        .step(2147483647, 18000, 0, "+05", Ghost(g))
        .finish(Ghost(g))
}

/// The zone `Asia/Famagusta`.
pub fn famagusta() -> (r: Tz)
    ensures
        r.wf(),
        r.zone_name() == "Asia/Famagusta"@,
        r.table() == tables::asia::famagusta(),
{
    let ghost g = tables::asia::famagusta_rows();
    FixedTimespanSet::begin("Asia/Famagusta", 8148, 0, "LMT", Ghost(g))
        .step(-1518920148, 7200, 0, "EET", Ghost(g))
        .step(166572000, 7200, 3600, "EEST", Ghost(g))
        .step(182293200, 7200, 0, "EET", Ghost(g))
        .step(200959200, 7200, 3600, "EEST", Ghost(g))
        .step(213829200, 7200, 0, "EET", Ghost(g))
        .step(228866400, 7200, 3600, "EEST", Ghost(g))
        .step(243982800, 7200, 0, "EET", Ghost(g))
        .step(260316000, 7200, 3600, "EEST", Ghost(g))
        .step(276123600, 7200, 0, "EET", Ghost(g))
        .step(291765600, 7200, 3600, "EEST", Ghost(g))
        .step(307486800, 7200, 0, "EET", Ghost(g))
        .step(323820000, 7200, 3600, "EEST", Ghost(g))
        .step(338936400, 7200, 0, "EET", Ghost(g))
        .step(354664800, 7200, 3600, "EEST", Ghost(g))
        .step(370386000, 7200, 0, "EET", Ghost(g))
        .step(386114400, 7200, 3600, "EEST", Ghost(g))
        .step(401835600, 7200, 0, "EET", Ghost(g))
        .step(417564000, 7200, 3600, "EEST", Ghost(g))
        .step(433285200, 7200, 0, "EET", Ghost(g))
        .step(449013600, 7200, 3600, "EEST", Ghost(g))
        .step(465339600, 7200, 0, "EET", Ghost(g))
        .step(481068000, 7200, 3600, "EEST", Ghost(g))
        .step(496789200, 7200, 0, "EET", Ghost(g))
        .step(512517600, 7200, 3600, "EEST", Ghost(g))
        .step(528238800, 7200, 0, "EET", Ghost(g))
        .step(543967200, 7200, 3600, "EEST", Ghost(g))
        .step(559688400, 7200, 0, "EET", Ghost(g))
        .step(575416800, 7200, 3600, "EEST", Ghost(g))
        .step(591138000, 7200, 0, "EET", Ghost(g))
        .step(606866400, 7200, 3600, "EEST", Ghost(g))
        .step(622587600, 7200, 0, "EET", Ghost(g))
        .step(638316000, 7200, 3600, "EEST", Ghost(g))
        .step(654642000, 7200, 0, "EET", Ghost(g))
        .step(670370400, 7200, 3600, "EEST", Ghost(g))
        .step(686091600, 7200, 0, "EET", Ghost(g))
        .step(701820000, 7200, 3600, "EEST", Ghost(g))
        .step(717541200, 7200, 0, "EET", Ghost(g))
        .step(733269600, 7200, 3600, "EEST", Ghost(g))
        .step(748990800, 7200, 0, "EET", Ghost(g))
        .step(764719200, 7200, 3600, "EEST", Ghost(g))
        .step(780440400, 7200, 0, "EET", Ghost(g))
        .step(796168800, 7200, 3600, "EEST", Ghost(g))
        .step(811890000, 7200, 0, "EET", Ghost(g))
        .step(828223200, 7200, 3600, "EEST", Ghost(g))
        .step(843944400, 7200, 0, "EET", Ghost(g))
        .step(859672800, 7200, 3600, "EEST", Ghost(g))
        .step(875394000, 7200, 0, "EET", Ghost(g))
        .step(891122400, 7200, 3600, "EEST", Ghost(g))
        .step(909277200, 7200, 0, "EET", Ghost(g))
        .step(922582800, 7200, 3600, "EEST", Ghost(g))
        .step(941331600, 7200, 0, "EET", Ghost(g))
        .step(954032400, 7200, 3600, "EEST", Ghost(g))
        .step(972781200, 7200, 0, "EET", Ghost(g))
        .step(985482000, 7200, 3600, "EEST", Ghost(g))
        .step(1004230800, 7200, 0, "EET", Ghost(g))
        .step(1017536400, 7200, 3600, "EEST", Ghost(g))
        .step(1035680400, 7200, 0, "EET", Ghost(g))
        .step(1048986000, 7200, 3600, "EEST", Ghost(g))
        .step(1067130000, 7200, 0, "EET", Ghost(g))
        .step(1080435600, 7200, 3600, "EEST", Ghost(g))
        .step(1099184400, 7200, 0, "EET", Ghost(g))
        .step(1111885200, 7200, 3600, "EEST", Ghost(g))
        .step(1130634000, 7200, 0, "EET", Ghost(g))
        .step(1143334800, 7200, 3600, "EEST", Ghost(g))
        .step(1162083600, 7200, 0, "EET", Ghost(g))
        .step(1174784400, 7200, 3600, "EEST", Ghost(g))
        .step(1193533200, 7200, 0, "EET", Ghost(g))
        .step(1206838800, 7200, 3600, "EEST", Ghost(g))
        .step(1224982800, 7200, 0, "EET", Ghost(g))
        .step(1238288400, 7200, 3600, "EEST", Ghost(g))
        .step(1256432400, 7200, 0, "EET", Ghost(g))
        .step(1269738000, 7200, 3600, "EEST", Ghost(g))
        .step(1288486800, 7200, 0, "EET", Ghost(g))
        .step(1301187600, 7200, 3600, "EEST", Ghost(g))
        .step(1319936400, 7200, 0, "EET", Ghost(g))
        .step(1332637200, 7200, 3600, "EEST", Ghost(g))
        .step(1351386000, 7200, 0, "EET", Ghost(g))
        .step(1364691600, 7200, 3600, "EEST", Ghost(g))
        .step(1382835600, 7200, 0, "EET", Ghost(g))
        .step(1396141200, 7200, 3600, "EEST", Ghost(g))
        .step(1414285200, 7200, 0, "EET", Ghost(g))
        .step(1427590800, 7200, 3600, "EEST", Ghost(g))
        .step(1445734800, 7200, 0, "EET", Ghost(g))
        .step(1459040400, 7200, 3600, "EEST", Ghost(g))
        .step(1473282000, 10800, 0, "+03", Ghost(g))
        .step(1509238800, 7200, 0, "EET", Ghost(g))
        .step(1521939600, 7200, 3600, "EEST", Ghost(g))
        .step(1540688400, 7200, 0, "EET", Ghost(g))
        .step(1553994000, 7200, 3600, "EEST", Ghost(g))
        .step(1572138000, 7200, 0, "EET", Ghost(g))
        .step(1585443600, 7200, 3600, "EEST", Ghost(g))
        .step(1603587600, 7200, 0, "EET", Ghost(g))
        .step(1616893200, 7200, 3600, "EEST", Ghost(g))
        .step(1635642000, 7200, 0, "EET", Ghost(g))
        .step(1648342800, 7200, 3600, "EEST", Ghost(g))
        .step(1667091600, 7200, 0, "EET", Ghost(g))
        .step(1679792400, 7200, 3600, "EEST", Ghost(g))
        .step(1698541200, 7200, 0, "EET", Ghost(g))
        .step(1711846800, 7200, 3600, "EEST", Ghost(g))
        .step(1729990800, 7200, 0, "EET", Ghost(g))
        .step(1743296400, 7200, 3600, "EEST", Ghost(g))
        .step(1761440400, 7200, 0, "EET", Ghost(g))
        .step(1774746000, 7200, 3600, "EEST", Ghost(g))
        .step(1792890000, 7200, 0, "EET", Ghost(g))
        .step(1806195600, 7200, 3600, "EEST", Ghost(g))
        .step(1824944400, 7200, 0, "EET", Ghost(g))
        .step(1837645200, 7200, 3600, "EEST", Ghost(g))
        .step(1856394000, 7200, 0, "EET", Ghost(g))
        .step(1869094800, 7200, 3600, "EEST", Ghost(g))
        .step(1887843600, 7200, 0, "EET", Ghost(g))
        .step(1901149200, 7200, 3600, "EEST", Ghost(g))
        .step(1919293200, 7200, 0, "EET", Ghost(g))
        .step(1932598800, 7200, 3600, "EEST", Ghost(g))
        .step(1950742800, 7200, 0, "EET", Ghost(g))
        .step(1964048400, 7200, 3600, "EEST", Ghost(g))
        .step(1982797200, 7200, 0, "EET", Ghost(g))
        .step(1995498000, 7200, 3600, "EEST", Ghost(g))
        .step(2014246800, 7200, 0, "EET", Ghost(g))
        .step(2026947600, 7200, 3600, "EEST", Ghost(g))
        .step(2045696400, 7200, 0, "EET", Ghost(g))
        .step(2058397200, 7200, 3600, "EEST", Ghost(g))
        .step(2077146000, 7200, 0, "EET", Ghost(g))
        .step(2090451600, 7200, 3600, "EEST", Ghost(g))
        .step(2108595600, 7200, 0, "EET", Ghost(g))
        .step(2121901200, 7200, 3600, "EEST", Ghost(g))
        .step(2140045200, 7200, 0, "EET", Ghost(g))
        .finish(Ghost(g))
}

/// The zone `Asia/Gaza`.
pub fn gaza() -> (r: Tz)
    ensures
        r.wf(),
        r.zone_name() == "Asia/Gaza"@,
        r.table() == tables::asia::gaza(),
{
    let ghost g = tables::asia::gaza_rows();
    FixedTimespanSet::begin("Asia/Gaza", 8272, 0, "LMT", Ghost(g))
        .step(-2185409872, 7200, 0, "EET", Ghost(g))
        .step(-933638400, 7200, 3600, "EEST", Ghost(g))
        .step(-923097600, 7200, 0, "EET", Ghost(g))
        .step(-919036800, 7200, 3600, "EEST", Ghost(g))
        .step(-857347200, 7200, 0, "EET", Ghost(g))
        .step(-844300800, 7200, 3600, "EEST", Ghost(g))
        .step(-825811200, 7200, 0, "EET", Ghost(g))
        .step(-812678400, 7200, 3600, "EEST", Ghost(g))
        .step(-794188800, 7200, 0, "EET", Ghost(g))
        .step(-779846400, 7200, 3600, "EEST", Ghost(g))
        .step(-762652800, 7200, 0, "EET", Ghost(g))
        .step(-748310400, 7200, 3600, "EEST", Ghost(g))
        .step(-731116800, 7200, 0, "EET", Ghost(g))
        .step(-399088800, 7200, 3600, "EEST", Ghost(g))
        .step(-386650800, 7200, 0, "EET", Ghost(g))
        .step(-368330400, 7200, 3600, "EEST", Ghost(g))
        .step(-355114800, 7200, 0, "EET", Ghost(g))
        .step(-336790800, 7200, 3600, "EEST", Ghost(g))
        .step(-323654400, 7200, 0, "EET", Ghost(g))
        .step(-305168400, 7200, 3600, "EEST", Ghost(g))
        .step(-292032000, 7200, 0, "EET", Ghost(g))
        .step(-273632400, 7200, 3600, "EEST", Ghost(g))
        .step(-260496000, 7200, 0, "EET", Ghost(g))
        .step(-242096400, 7200, 3600, "EEST", Ghost(g))
        .step(-228960000, 7200, 0, "EET", Ghost(g))
        .step(-210560400, 7200, 3600, "EEST", Ghost(g))
        .step(-197424000, 7200, 0, "EET", Ghost(g))
        .step(-178938000, 7200, 3600, "EEST", Ghost(g))
        .step(-165801600, 7200, 0, "EET", Ghost(g))
        .step(-147402000, 7200, 3600, "EEST", Ghost(g))
        .step(-134265600, 7200, 0, "EET", Ghost(g))
        .step(-115866000, 7200, 3600, "EEST", Ghost(g))
        .step(-102643200, 7200, 0, "EET", Ghost(g))
        .step(-84330000, 7200, 3600, "EEST", Ghost(g))
        .step(-81313200, 7200, 0, "IST", Ghost(g))
        .step(142380000, 7200, 3600, "IDT", Ghost(g))
        .step(150843600, 7200, 0, "IST", Ghost(g))
        .step(167176800, 7200, 3600, "IDT", Ghost(g))
        .step(178664400, 7200, 0, "IST", Ghost(g))
        .step(334101600, 7200, 3600, "IDT", Ghost(g))
        .step(337730400, 7200, 0, "IST", Ghost(g))
        .step(452642400, 7200, 3600, "IDT", Ghost(g))
        .step(462319200, 7200, 0, "IST", Ghost(g))
        .step(482277600, 7200, 3600, "IDT", Ghost(g))
        .step(494370000, 7200, 0, "IST", Ghost(g))
        .step(516751200, 7200, 3600, "IDT", Ghost(g))
        .step(526424400, 7200, 0, "IST", Ghost(g))
        .step(545436000, 7200, 3600, "IDT", Ghost(g))
        .step(558478800, 7200, 0, "IST", Ghost(g))
        .step(576626400, 7200, 3600, "IDT", Ghost(g))
        .step(589323600, 7200, 0, "IST", Ghost(g))
        .step(609890400, 7200, 3600, "IDT", Ghost(g))
        .step(620773200, 7200, 0, "IST", Ghost(g))
        .step(638316000, 7200, 3600, "IDT", Ghost(g))
        .step(651618000, 7200, 0, "IST", Ghost(g))
        .step(669765600, 7200, 3600, "IDT", Ghost(g))
        .step(683672400, 7200, 0, "IST", Ghost(g))
        .step(701820000, 7200, 3600, "IDT", Ghost(g))
        .step(715726800, 7200, 0, "IST", Ghost(g))
        .step(733701600, 7200, 3600, "IDT", Ghost(g))
        .step(747176400, 7200, 0, "IST", Ghost(g))
        .step(765151200, 7200, 3600, "IDT", Ghost(g))
        .step(778021200, 7200, 0, "IST", Ghost(g))
        .step(796600800, 7200, 3600, "IDT", Ghost(g))
        .step(810075600, 7200, 0, "IST", Ghost(g))
        .step(820447200, 7200, 0, "EET", Ghost(g))
        .step(828655200, 7200, 3600, "EEST", Ghost(g))
        .step(843170400, 7200, 0, "EET", Ghost(g))
        .step(860104800, 7200, 3600, "EEST", Ghost(g))
        .step(874620000, 7200, 0, "EET", Ghost(g))
        .step(891554400, 7200, 3600, "EEST", Ghost(g))
        .step(906069600, 7200, 0, "EET", Ghost(g))
        .step(924213600, 7200, 3600, "EEST", Ghost(g))
        .step(939934800, 7200, 0, "EET", Ghost(g))
        .step(956268000, 7200, 3600, "EEST", Ghost(g))
        .step(971989200, 7200, 0, "EET", Ghost(g))
        .step(987717600, 7200, 3600, "EEST", Ghost(g))
        .step(1003438800, 7200, 0, "EET", Ghost(g))
        .step(1019167200, 7200, 3600, "EEST", Ghost(g))
        .step(1034888400, 7200, 0, "EET", Ghost(g))
        .step(1050616800, 7200, 3600, "EEST", Ghost(g))
        .step(1066338000, 7200, 0, "EET", Ghost(g))
        .step(1082066400, 7200, 3600, "EEST", Ghost(g))
        .step(1096581600, 7200, 0, "EET", Ghost(g))
        .step(1113516000, 7200, 3600, "EEST", Ghost(g))
        .step(1128380400, 7200, 0, "EET", Ghost(g))
        .step(1143842400, 7200, 3600, "EEST", Ghost(g))
        .step(1158872400, 7200, 0, "EET", Ghost(g))
        .step(1175378400, 7200, 3600, "EEST", Ghost(g))
        .step(1189638000, 7200, 0, "EET", Ghost(g))
        .step(1206655200, 7200, 3600, "EEST", Ghost(g))
        .step(1219957200, 7200, 0, "EET", Ghost(g))
        .step(1238104800, 7200, 3600, "EEST", Ghost(g))
        .step(1252015200, 7200, 0, "EET", Ghost(g))
        .step(1269640860, 7200, 3600, "EEST", Ghost(g))
        .step(1281474000, 7200, 0, "EET", Ghost(g))
        .step(1301608860, 7200, 3600, "EEST", Ghost(g))
        .step(1312146000, 7200, 0, "EET", Ghost(g))
        .step(1333058400, 7200, 3600, "EEST", Ghost(g))
        .step(1348178400, 7200, 0, "EET", Ghost(g))
        .step(1364508000, 7200, 3600, "EEST", Ghost(g))
        .step(1380229200, 7200, 0, "EET", Ghost(g))
        .step(1395957600, 7200, 3600, "EEST", Ghost(g))
        .step(1414098000, 7200, 0, "EET", Ghost(g))
        .step(1427493600, 7200, 3600, "EEST", Ghost(g))
        .step(1445551200, 7200, 0, "EET", Ghost(g))
        .step(1458946800, 7200, 3600, "EEST", Ghost(g))
        .step(1477692000, 7200, 0, "EET", Ghost(g))
        .step(1490396400, 7200, 3600, "EEST", Ghost(g))
        .step(1509141600, 7200, 0, "EET", Ghost(g))
        .step(1521846000, 7200, 3600, "EEST", Ghost(g))
        .step(1540591200, 7200, 0, "EET", Ghost(g))
        .step(1553810400, 7200, 3600, "EEST", Ghost(g))
        .step(1572037200, 7200, 0, "EET", Ghost(g))
        .step(1585346400, 7200, 3600, "EEST", Ghost(g))
        .step(1603490400, 7200, 0, "EET", Ghost(g))
        .step(1616796000, 7200, 3600, "EEST", Ghost(g))
        .step(1635458400, 7200, 0, "EET", Ghost(g))
        .step(1648332000, 7200, 3600, "EEST", Ghost(g))
        .step(1666998000, 7200, 0, "EET", Ghost(g))
        .step(1682726400, 7200, 3600, "EEST", Ghost(g))
        .step(1698447600, 7200, 0, "EET", Ghost(g))
        .step(1713571200, 7200, 3600, "EEST", Ghost(g))
        .step(1729897200, 7200, 0, "EET", Ghost(g))
        .step(1744416000, 7200, 3600, "EEST", Ghost(g))
        .step(1761346800, 7200, 0, "EET", Ghost(g))
        .step(1774656000, 7200, 3600, "EEST", Ghost(g))
        .step(1792796400, 7200, 0, "EET", Ghost(g))
        .step(1806105600, 7200, 3600, "EEST", Ghost(g))
        .step(1824850800, 7200, 0, "EET", Ghost(g))
        .step(1837555200, 7200, 3600, "EEST", Ghost(g))
        .step(1856300400, 7200, 0, "EET", Ghost(g))
        .step(1869004800, 7200, 3600, "EEST", Ghost(g))
        .step(1887750000, 7200, 0, "EET", Ghost(g))
        .step(1901059200, 7200, 3600, "EEST", Ghost(g))
        .step(1919199600, 7200, 0, "EET", Ghost(g))
        .step(1932508800, 7200, 3600, "EEST", Ghost(g))
        .step(1950649200, 7200, 0, "EET", Ghost(g))
        .step(1963958400, 7200, 3600, "EEST", Ghost(g))
        .step(1982703600, 7200, 0, "EET", Ghost(g))
        .step(1995408000, 7200, 3600, "EEST", Ghost(g))
        .step(2014153200, 7200, 0, "EET", Ghost(g))
        .step(2026857600, 7200, 3600, "EEST", Ghost(g))
        .step(2045602800, 7200, 0, "EET", Ghost(g))
        .step(2058307200, 7200, 3600, "EEST", Ghost(g))
        .step(2077052400, 7200, 0, "EET", Ghost(g))
        .step(2090361600, 7200, 3600, "EEST", Ghost(g))
        .step(2107897200, 7200, 0, "EET", Ghost(g))
        .step(2121811200, 7200, 3600, "EEST", Ghost(g))
        .step(2138742000, 7200, 0, "EET", Ghost(g))
        .step(2153260800, 7200, 3600, "EEST", Ghost(g))
        .step(2168982000, 7200, 0, "EET", Ghost(g))
        .step(2184710400, 7200, 3600, "EEST", Ghost(g))
        .step(2199826800, 7200, 0, "EET", Ghost(g))
        .step(2216160000, 7200, 3600, "EEST", Ghost(g))
        .step(2230066800, 7200, 0, "EET", Ghost(g))
        .step(2234304000, 7200, 3600, "EEST", Ghost(g))
        .step(2234905200, 7200, 0, "EET", Ghost(g))
        .step(2248214400, 7200, 3600, "EEST", Ghost(g))
        .step(2260911600, 7200, 0, "EET", Ghost(g))
        .step(2264544000, 7200, 3600, "EEST", Ghost(g))
        .step(2266354800, 7200, 0, "EET", Ghost(g))
        .step(2279664000, 7200, 3600, "EEST", Ghost(g))
        .step(2291756400, 7200, 0, "EET", Ghost(g))
        .step(2295388800, 7200, 3600, "EEST", Ghost(g))
        .step(2297804400, 7200, 0, "EET", Ghost(g))
        .step(2311113600, 7200, 3600, "EEST", Ghost(g))
        .step(2321996400, 7200, 0, "EET", Ghost(g))
        .step(2326233600, 7200, 3600, "EEST", Ghost(g))
        .step(2329254000, 7200, 0, "EET", Ghost(g))
        .step(2342563200, 7200, 3600, "EEST", Ghost(g))
        .step(2352841200, 7200, 0, "EET", Ghost(g))
        .step(2356473600, 7200, 3600, "EEST", Ghost(g))
        .step(2361308400, 7200, 0, "EET", Ghost(g))
        .step(2374012800, 7200, 3600, "EEST", Ghost(g))
        .step(2383686000, 7200, 0, "EET", Ghost(g))
        .step(2387318400, 7200, 3600, "EEST", Ghost(g))
        .step(2392758000, 7200, 0, "EET", Ghost(g))
        .step(2405462400, 7200, 3600, "EEST", Ghost(g))
        .step(2413926000, 7200, 0, "EET", Ghost(g))
        .step(2418163200, 7200, 3600, "EEST", Ghost(g))
        .step(2424207600, 7200, 0, "EET", Ghost(g))
        .step(2437516800, 7200, 3600, "EEST", Ghost(g))
        .step(2444770800, 7200, 0, "EET", Ghost(g))
        .step(2448403200, 7200, 3600, "EEST", Ghost(g))
        .step(2455657200, 7200, 0, "EET", Ghost(g))
        .step(2468966400, 7200, 3600, "EEST", Ghost(g))
        .step(2475010800, 7200, 0, "EET", Ghost(g))
        .step(2479248000, 7200, 3600, "EEST", Ghost(g))
        .step(2487106800, 7200, 0, "EET", Ghost(g))
        .step(2500416000, 7200, 3600, "EEST", Ghost(g))
        .step(2505855600, 7200, 0, "EET", Ghost(g))
        .step(2509488000, 7200, 3600, "EEST", Ghost(g))
        .step(2519161200, 7200, 0, "EET", Ghost(g))
        .step(2531865600, 7200, 3600, "EEST", Ghost(g))
        .step(2536700400, 7200, 0, "EET", Ghost(g))
        .step(2540332800, 7200, 3600, "EEST", Ghost(g))
        .step(2550610800, 7200, 0, "EET", Ghost(g))
        .step(2563315200, 7200, 3600, "EEST", Ghost(g))
        .step(2566940400, 7200, 0, "EET", Ghost(g))
        .step(2571177600, 7200, 3600, "EEST", Ghost(g))
        .step(2582060400, 7200, 0, "EET", Ghost(g))
        .step(2595369600, 7200, 3600, "EEST", Ghost(g))
        .step(2597785200, 7200, 0, "EET", Ghost(g))
        .step(2601417600, 7200, 3600, "EEST", Ghost(g))
        .step(2613510000, 7200, 0, "EET", Ghost(g))
        .step(2626819200, 7200, 3600, "EEST", Ghost(g))
        .step(2628025200, 7200, 0, "EET", Ghost(g))
        .step(2632262400, 7200, 3600, "EEST", Ghost(g))
        .step(2644959600, 7200, 0, "EET", Ghost(g))
        .step(2658268800, 7200, 3600, "EEST", Ghost(g))
        .step(2658870000, 7200, 0, "EET", Ghost(g))
        .step(2663107200, 7200, 3600, "EEST", Ghost(g))
        .step(2676409200, 7200, 0, "EET", Ghost(g))
        .step(2693347200, 7200, 3600, "EEST", Ghost(g))
        .step(2708463600, 7200, 0, "EET", Ghost(g))
        .step(2724192000, 7200, 3600, "EEST", Ghost(g))
        .step(2739913200, 7200, 0, "EET", Ghost(g))
        .step(2754432000, 7200, 3600, "EEST", Ghost(g))
        .step(2771362800, 7200, 0, "EET", Ghost(g))
        .step(2785276800, 7200, 3600, "EEST", Ghost(g))
        .step(2802812400, 7200, 0, "EET", Ghost(g))
        .step(2816121600, 7200, 3600, "EEST", Ghost(g))
        .step(2834262000, 7200, 0, "EET", Ghost(g))
        .step(2847571200, 7200, 3600, "EEST", Ghost(g))
        .step(2866316400, 7200, 0, "EET", Ghost(g))
        .step(2879020800, 7200, 3600, "EEST", Ghost(g))
        .step(2897766000, 7200, 0, "EET", Ghost(g))
        .step(2910470400, 7200, 3600, "EEST", Ghost(g))
        .step(2929215600, 7200, 0, "EET", Ghost(g))
        .step(2941920000, 7200, 3600, "EEST", Ghost(g))
        .step(2960665200, 7200, 0, "EET", Ghost(g))
        .step(2973974400, 7200, 3600, "EEST", Ghost(g))
        .step(2992114800, 7200, 0, "EET", Ghost(g))
        .step(3005424000, 7200, 3600, "EEST", Ghost(g))
        .step(3023564400, 7200, 0, "EET", Ghost(g))
        .step(3036873600, 7200, 3600, "EEST", Ghost(g))
        .step(3055618800, 7200, 0, "EET", Ghost(g))
        .step(3068323200, 7200, 3600, "EEST", Ghost(g))
        .step(3087068400, 7200, 0, "EET", Ghost(g))
        .step(3099772800, 7200, 3600, "EEST", Ghost(g))
        .step(3117913200, 7200, 0, "EET", Ghost(g))
        .step(3131827200, 7200, 3600, "EEST", Ghost(g))
        .step(3148758000, 7200, 0, "EET", Ghost(g))
        .step(3163276800, 7200, 3600, "EEST", Ghost(g))
        .step(3179602800, 7200, 0, "EET", Ghost(g))
        .step(3194726400, 7200, 3600, "EEST", Ghost(g))
        .step(3209842800, 7200, 0, "EET", Ghost(g))
        .step(3226176000, 7200, 3600, "EEST", Ghost(g))
        .step(3240687600, 7200, 0, "EET", Ghost(g))
        .step(3244320000, 7200, 3600, "EEST", Ghost(g))
        .step(3244921200, 7200, 0, "EET", Ghost(g))
        .step(3257625600, 7200, 3600, "EEST", Ghost(g))
        .step(3271532400, 7200, 0, "EET", Ghost(g))
        .step(3275164800, 7200, 3600, "EEST", Ghost(g))
        .step(3276370800, 7200, 0, "EET", Ghost(g))
        .step(3289075200, 7200, 3600, "EEST", Ghost(g))
        .step(3301772400, 7200, 0, "EET", Ghost(g))
        .step(3306009600, 7200, 3600, "EEST", Ghost(g))
        .step(3307820400, 7200, 0, "EET", Ghost(g))
        .step(3321129600, 7200, 3600, "EEST", Ghost(g))
        .step(3332617200, 7200, 0, "EET", Ghost(g))
        .step(3336249600, 7200, 3600, "EEST", Ghost(g))
        .step(3339270000, 7200, 0, "EET", Ghost(g))
        .step(3352579200, 7200, 3600, "EEST", Ghost(g))
        .step(3362857200, 7200, 0, "EET", Ghost(g))
        .step(3367094400, 7200, 3600, "EEST", Ghost(g))
        .step(3370719600, 7200, 0, "EET", Ghost(g))
        .step(3384028800, 7200, 3600, "EEST", Ghost(g))
        .step(3393702000, 7200, 0, "EET", Ghost(g))
        .step(3397939200, 7200, 3600, "EEST", Ghost(g))
        .step(3402774000, 7200, 0, "EET", Ghost(g))
        .step(3415478400, 7200, 3600, "EEST", Ghost(g))
        .step(3424546800, 7200, 0, "EET", Ghost(g))
        .step(3428179200, 7200, 3600, "EEST", Ghost(g))
        .step(3434223600, 7200, 0, "EET", Ghost(g))
        .step(3446928000, 7200, 3600, "EEST", Ghost(g))
        .step(3454786800, 7200, 0, "EET", Ghost(g))
        .step(3459024000, 7200, 3600, "EEST", Ghost(g))
        .step(3465673200, 7200, 0, "EET", Ghost(g))
        .step(3478982400, 7200, 3600, "EEST", Ghost(g))
        .step(3485631600, 7200, 0, "EET", Ghost(g))
        .step(3489264000, 7200, 3600, "EEST", Ghost(g))
        .step(3497122800, 7200, 0, "EET", Ghost(g))
        .step(3510432000, 7200, 3600, "EEST", Ghost(g))
        .step(3516476400, 7200, 0, "EET", Ghost(g))
        .step(3520108800, 7200, 3600, "EEST", Ghost(g))
        .step(3528572400, 7200, 0, "EET", Ghost(g))
        .step(3541881600, 7200, 3600, "EEST", Ghost(g))
        .step(3546716400, 7200, 0, "EET", Ghost(g))
        .step(3550953600, 7200, 3600, "EEST", Ghost(g))
        .step(3560022000, 7200, 0, "EET", Ghost(g))
        .step(3573331200, 7200, 3600, "EEST", Ghost(g))
        .step(3577561200, 7200, 0, "EET", Ghost(g))
        .step(3581193600, 7200, 3600, "EEST", Ghost(g))
        .step(3592076400, 7200, 0, "EET", Ghost(g))
        .step(3604780800, 7200, 3600, "EEST", Ghost(g))
        .step(3607801200, 7200, 0, "EET", Ghost(g))
        .step(3612038400, 7200, 3600, "EEST", Ghost(g))
        .step(3623526000, 7200, 0, "EET", Ghost(g))
        .step(3636230400, 7200, 3600, "EEST", Ghost(g))
        .step(3638646000, 7200, 0, "EET", Ghost(g))
        .step(3642883200, 7200, 3600, "EEST", Ghost(g))
        .step(3654975600, 7200, 0, "EET", Ghost(g))
        .step(3668284800, 7200, 3600, "EEST", Ghost(g))
        .step(3669490800, 7200, 0, "EET", Ghost(g))
        .step(3673123200, 7200, 3600, "EEST", Ghost(g))
        .step(3686425200, 7200, 0, "EET", Ghost(g))
        .finish(Ghost(g))
}

/// The zone `Asia/Harbin`.
pub fn harbin() -> (r: Tz)
    ensures
        r.wf(),
        r.zone_name() == "Asia/Harbin"@,
        r.table() == tables::asia::harbin(),
{
    let ghost g = tables::asia::harbin_rows();
    FixedTimespanSet::begin("Asia/Harbin", 29143, 0, "LMT", Ghost(g))
        .step(-2177481943, 28800, 0, "CST", Ghost(g))
        .step(-1600675200, 28800, 3600, "CDT", Ghost(g))
        .step(-1585904400, 28800, 0, "CST", Ghost(g))
        .step(-933667200, 28800, 3600, "CDT", Ghost(g))
        .step(-922093200, 28800, 0, "CST", Ghost(g))
        .step(-908870400, 28800, 3600, "CDT", Ghost(g))
        .step(-888829200, 28800, 0, "CST", Ghost(g))
        .step(-881049600, 28800, 3600, "CDT", Ghost(g))
        .step(-767869200, 28800, 0, "CST", Ghost(g))
        .step(-745833600, 28800, 3600, "CDT", Ghost(g))
        .step(-733827600, 28800, 0, "CST", Ghost(g))
        .step(-716889600, 28800, 3600, "CDT", Ghost(g))
        .step(-699613200, 28800, 0, "CST", Ghost(g))
        .step(-683884800, 28800, 3600, "CDT", Ghost(g))
        .step(-670669200, 28800, 0, "CST", Ghost(g))
        .step(-652348800, 28800, 3600, "CDT", Ghost(g))
        .step(-650019600, 28800, 0, "CST", Ghost(g))
        .step(515527200, 28800, 3600, "CDT", Ghost(g))
        .step(527014800, 28800, 0, "CST", Ghost(g))
        .step(545162400, 28800, 3600, "CDT", Ghost(g))
        .step(558464400, 28800, 0, "CST", Ghost(g))
        .step(577216800, 28800, 3600, "CDT", Ghost(g))
        .step(589914000, 28800, 0, "CST", Ghost(g))
        .step(608666400, 28800, 3600, "CDT", Ghost(g))
        .step(621968400, 28800, 0, "CST", Ghost(g))
        .step(640116000, 28800, 3600, "CDT", Ghost(g))
        .step(653418000, 28800, 0, "CST", Ghost(g))
        .step(671565600, 28800, 3600, "CDT", Ghost(g))
        .step(684867600, 28800, 0, "CST", Ghost(g))
        .finish(Ghost(g))
}

/// The zone `Asia/Hebron`.
pub fn hebron() -> (r: Tz)
    ensures
        r.wf(),
        r.zone_name() == "Asia/Hebron"@,
        r.table() == tables::asia::hebron(),
{
    let ghost g = tables::asia::hebron_rows();
    FixedTimespanSet::begin("Asia/Hebron", 8423, 0, "LMT", Ghost(g))
        .step(-2185410023, 7200, 0, "EET", Ghost(g))
        .step(-933638400, 7200, 3600, "EEST", Ghost(g))
        .step(-923097600, 7200, 0, "EET", Ghost(g))
        .step(-919036800, 7200, 3600, "EEST", Ghost(g))
        .step(-857347200, 7200, 0, "EET", Ghost(g))
        .step(-844300800, 7200, 3600, "EEST", Ghost(g))
        .step(-825811200, 7200, 0, "EET", Ghost(g))
        .step(-812678400, 7200, 3600, "EEST", Ghost(g))
        .step(-794188800, 7200, 0, "EET", Ghost(g))
        .step(-779846400, 7200, 3600, "EEST", Ghost(g))
        .step(-762652800, 7200, 0, "EET", Ghost(g))
        .step(-748310400, 7200, 3600, "EEST", Ghost(g))
        .step(-731116800, 7200, 0, "EET", Ghost(g))
        .step(-399088800, 7200, 3600, "EEST", Ghost(g))
        .step(-386650800, 7200, 0, "EET", Ghost(g))
        .step(-368330400, 7200, 3600, "EEST", Ghost(g))
        .step(-355114800, 7200, 0, "EET", Ghost(g))
        .step(-336790800, 7200, 3600, "EEST", Ghost(g))
        .step(-323654400, 7200, 0, "EET", Ghost(g))
        .step(-305168400, 7200, 3600, "EEST", Ghost(g))
        .step(-292032000, 7200, 0, "EET", Ghost(g))
        .step(-273632400, 7200, 3600, "EEST", Ghost(g))
        .step(-260496000, 7200, 0, "EET", Ghost(g))
        .step(-242096400, 7200, 3600, "EEST", Ghost(g))
        .step(-228960000, 7200, 0, "EET", Ghost(g))
        .step(-210560400, 7200, 3600, "EEST", Ghost(g))
        .step(-197424000, 7200, 0, "EET", Ghost(g))
        .step(-178938000, 7200, 3600, "EEST", Ghost(g))
        .step(-165801600, 7200, 0, "EET", Ghost(g))
        .step(-147402000, 7200, 3600, "EEST", Ghost(g))
        .step(-134265600, 7200, 0, "EET", Ghost(g))
        .step(-115866000, 7200, 3600, "EEST", Ghost(g))
        .step(-102643200, 7200, 0, "EET", Ghost(g))
        .step(-84330000, 7200, 3600, "EEST", Ghost(g))
        .step(-81313200, 7200, 0, "IST", Ghost(g))
        .step(142380000, 7200, 3600, "IDT", Ghost(g))
        .step(150843600, 7200, 0, "IST", Ghost(g))
        .step(167176800, 7200, 3600, "IDT", Ghost(g))
        .step(178664400, 7200, 0, "IST", Ghost(g))
        .step(334101600, 7200, 3600, "IDT", Ghost(g))
        .step(337730400, 7200, 0, "IST", Ghost(g))
        .step(452642400, 7200, 3600, "IDT", Ghost(g))
        .step(462319200, 7200, 0, "IST", Ghost(g))
        .step(482277600, 7200, 3600, "IDT", Ghost(g))
        .step(494370000, 7200, 0, "IST", Ghost(g))
        .step(516751200, 7200, 3600, "IDT", Ghost(g))
        .step(526424400, 7200, 0, "IST", Ghost(g))
        .step(545436000, 7200, 3600, "IDT", Ghost(g))
        .step(558478800, 7200, 0, "IST", Ghost(g))
        .step(576626400, 7200, 3600, "IDT", Ghost(g))
        .step(589323600, 7200, 0, "IST", Ghost(g))
        .step(609890400, 7200, 3600, "IDT", Ghost(g))
        .step(620773200, 7200, 0, "IST", Ghost(g))
        .step(638316000, 7200, 3600, "IDT", Ghost(g))
        .step(651618000, 7200, 0, "IST", Ghost(g))
        .step(669765600, 7200, 3600, "IDT", Ghost(g))
        .step(683672400, 7200, 0, "IST", Ghost(g))
        .step(701820000, 7200, 3600, "IDT", Ghost(g))
        .step(715726800, 7200, 0, "IST", Ghost(g))
        .step(733701600, 7200, 3600, "IDT", Ghost(g))
        .step(747176400, 7200, 0, "IST", Ghost(g))
        .step(765151200, 7200, 3600, "IDT", Ghost(g))
        .step(778021200, 7200, 0, "IST", Ghost(g))
        .step(796600800, 7200, 3600, "IDT", Ghost(g))
        .step(810075600, 7200, 0, "IST", Ghost(g))
        .step(820447200, 7200, 0, "EET", Ghost(g))
        .step(828655200, 7200, 3600, "EEST", Ghost(g))
        .step(843170400, 7200, 0, "EET", Ghost(g))
        .step(860104800, 7200, 3600, "EEST", Ghost(g))
        .step(874620000, 7200, 0, "EET", Ghost(g))
        .step(891554400, 7200, 3600, "EEST", Ghost(g))
        .step(906069600, 7200, 0, "EET", Ghost(g))
        .step(924213600, 7200, 3600, "EEST", Ghost(g))
        .step(939934800, 7200, 0, "EET", Ghost(g))
        .step(956268000, 7200, 3600, "EEST", Ghost(g))
        .step(971989200, 7200, 0, "EET", Ghost(g))
        .step(987717600, 7200, 3600, "EEST", Ghost(g))
        .step(1003438800, 7200, 0, "EET", Ghost(g))
        .step(1019167200, 7200, 3600, "EEST", Ghost(g))
        .step(1034888400, 7200, 0, "EET", Ghost(g))
        .step(1050616800, 7200, 3600, "EEST", Ghost(g))
        .step(1066338000, 7200, 0, "EET", Ghost(g))
        .step(1082066400, 7200, 3600, "EEST", Ghost(g))
        .step(1096581600, 7200, 0, "EET", Ghost(g))
        .step(1113516000, 7200, 3600, "EEST", Ghost(g))
        .step(1128380400, 7200, 0, "EET", Ghost(g))
        .step(1143842400, 7200, 3600, "EEST", Ghost(g))
        .step(1158872400, 7200, 0, "EET", Ghost(g))
        .step(1175378400, 7200, 3600, "EEST", Ghost(g))
        .step(1189638000, 7200, 0, "EET", Ghost(g))
        .step(1206655200, 7200, 3600, "EEST", Ghost(g))
        .step(1220216400, 7200, 0, "EET", Ghost(g))
        .step(1238104800, 7200, 3600, "EEST", Ghost(g))
        .step(1252015200, 7200, 0, "EET", Ghost(g))
        .step(1269554400, 7200, 3600, "EEST", Ghost(g))
        .step(1281474000, 7200, 0, "EET", Ghost(g))
        .step(1301608860, 7200, 3600, "EEST", Ghost(g))
        .step(1312146000, 7200, 0, "EET", Ghost(g))
        .step(1314655200, 7200, 3600, "EEST", Ghost(g))
        .step(1317330000, 7200, 0, "EET", Ghost(g))
        .step(1333058400, 7200, 3600, "EEST", Ghost(g))
        .step(1348178400, 7200, 0, "EET", Ghost(g))
        .step(1364508000, 7200, 3600, "EEST", Ghost(g))
        .step(1380229200, 7200, 0, "EET", Ghost(g))
        .step(1395957600, 7200, 3600, "EEST", Ghost(g))
        .step(1414098000, 7200, 0, "EET", Ghost(g))
        .step(1427493600, 7200, 3600, "EEST", Ghost(g))
        .step(1445551200, 7200, 0, "EET", Ghost(g))
        .step(1458946800, 7200, 3600, "EEST", Ghost(g))
        .step(1477692000, 7200, 0, "EET", Ghost(g))
        .step(1490396400, 7200, 3600, "EEST", Ghost(g))
        .step(1509141600, 7200, 0, "EET", Ghost(g))
        .step(1521846000, 7200, 3600, "EEST", Ghost(g))
        .step(1540591200, 7200, 0, "EET", Ghost(g))
        .step(1553810400, 7200, 3600, "EEST", Ghost(g))
        .step(1572037200, 7200, 0, "EET", Ghost(g))
        .step(1585346400, 7200, 3600, "EEST", Ghost(g))
        .step(1603490400, 7200, 0, "EET", Ghost(g))
        .step(1616796000, 7200, 3600, "EEST", Ghost(g))
        .step(1635458400, 7200, 0, "EET", Ghost(g))
        .step(1648332000, 7200, 3600, "EEST", Ghost(g))
        .step(1666998000, 7200, 0, "EET", Ghost(g))
        .step(1682726400, 7200, 3600, "EEST", Ghost(g))
        .step(1698447600, 7200, 0, "EET", Ghost(g))
        .step(1713571200, 7200, 3600, "EEST", Ghost(g))
        .step(1729897200, 7200, 0, "EET", Ghost(g))
        .step(1744416000, 7200, 3600, "EEST", Ghost(g))
        .step(1761346800, 7200, 0, "EET", Ghost(g))
        .step(1774656000, 7200, 3600, "EEST", Ghost(g))
        .step(1792796400, 7200, 0, "EET", Ghost(g))
        .step(1806105600, 7200, 3600, "EEST", Ghost(g))
        .step(1824850800, 7200, 0, "EET", Ghost(g))
        .step(1837555200, 7200, 3600, "EEST", Ghost(g))
        .step(1856300400, 7200, 0, "EET", Ghost(g))
        .step(1869004800, 7200, 3600, "EEST", Ghost(g))
        .step(1887750000, 7200, 0, "EET", Ghost(g))
        .step(1901059200, 7200, 3600, "EEST", Ghost(g))
        .step(1919199600, 7200, 0, "EET", Ghost(g))
        .step(1932508800, 7200, 3600, "EEST", Ghost(g))
        .step(1950649200, 7200, 0, "EET", Ghost(g))
        .step(1963958400, 7200, 3600, "EEST", Ghost(g))
        .step(1982703600, 7200, 0, "EET", Ghost(g))
        .step(1995408000, 7200, 3600, "EEST", Ghost(g))
        .step(2014153200, 7200, 0, "EET", Ghost(g))
        .step(2026857600, 7200, 3600, "EEST", Ghost(g))
        .step(2045602800, 7200, 0, "EET", Ghost(g))
        .step(2058307200, 7200, 3600, "EEST", Ghost(g))
        .step(2077052400, 7200, 0, "EET", Ghost(g))
        .step(2090361600, 7200, 3600, "EEST", Ghost(g))
        .step(2107897200, 7200, 0, "EET", Ghost(g))
        .step(2121811200, 7200, 3600, "EEST", Ghost(g))
        .step(2138742000, 7200, 0, "EET", Ghost(g))
        .step(2153260800, 7200, 3600, "EEST", Ghost(g))
        .step(2168982000, 7200, 0, "EET", Ghost(g))
        .step(2184710400, 7200, 3600, "EEST", Ghost(g))
        .step(2199826800, 7200, 0, "EET", Ghost(g))
        .step(2216160000, 7200, 3600, "EEST", Ghost(g))
        .step(2230066800, 7200, 0, "EET", Ghost(g))
        .step(2234304000, 7200, 3600, "EEST", Ghost(g))
        .step(2234905200, 7200, 0, "EET", Ghost(g))
        .step(2248214400, 7200, 3600, "EEST", Ghost(g))
        .step(2260911600, 7200, 0, "EET", Ghost(g))
        .step(2264544000, 7200, 3600, "EEST", Ghost(g))
        .step(2266354800, 7200, 0, "EET", Ghost(g))
        .step(2279664000, 7200, 3600, "EEST", Ghost(g))
        .step(2291756400, 7200, 0, "EET", Ghost(g))
        .step(2295388800, 7200, 3600, "EEST", Ghost(g))
        .step(2297804400, 7200, 0, "EET", Ghost(g))
        .step(2311113600, 7200, 3600, "EEST", Ghost(g))
        .step(2321996400, 7200, 0, "EET", Ghost(g))
        .step(2326233600, 7200, 3600, "EEST", Ghost(g))
        .step(2329254000, 7200, 0, "EET", Ghost(g))
        .step(2342563200, 7200, 3600, "EEST", Ghost(g))
        .step(2352841200, 7200, 0, "EET", Ghost(g))
        .step(2356473600, 7200, 3600, "EEST", Ghost(g))
        .step(2361308400, 7200, 0, "EET", Ghost(g))
        .step(2374012800, 7200, 3600, "EEST", Ghost(g))
        .step(2383686000, 7200, 0, "EET", Ghost(g))
        .step(2387318400, 7200, 3600, "EEST", Ghost(g))
        .step(2392758000, 7200, 0, "EET", Ghost(g))
        .step(2405462400, 7200, 3600, "EEST", Ghost(g))
        .step(2413926000, 7200, 0, "EET", Ghost(g))
        .step(2418163200, 7200, 3600, "EEST", Ghost(g))
        .step(2424207600, 7200, 0, "EET", Ghost(g))
        .step(2437516800, 7200, 3600, "EEST", Ghost(g))
        .step(2444770800, 7200, 0, "EET", Ghost(g))
        .step(2448403200, 7200, 3600, "EEST", Ghost(g))
        .step(2455657200, 7200, 0, "EET", Ghost(g))
        .step(2468966400, 7200, 3600, "EEST", Ghost(g))
        .step(2475010800, 7200, 0, "EET", Ghost(g))
        .step(2479248000, 7200, 3600, "EEST", Ghost(g))
        .step(2487106800, 7200, 0, "EET", Ghost(g))
        .step(2500416000, 7200, 3600, "EEST", Ghost(g))
        .step(2505855600, 7200, 0, "EET", Ghost(g))
        .step(2509488000, 7200, 3600, "EEST", Ghost(g))
        .step(2519161200, 7200, 0, "EET", Ghost(g))
        .step(2531865600, 7200, 3600, "EEST", Ghost(g))
        .step(2536700400, 7200, 0, "EET", Ghost(g))
        .step(2540332800, 7200, 3600, "EEST", Ghost(g))
        .step(2550610800, 7200, 0, "EET", Ghost(g))
        .step(2563315200, 7200, 3600, "EEST", Ghost(g))
        .step(2566940400, 7200, 0, "EET", Ghost(g))
        .step(2571177600, 7200, 3600, "EEST", Ghost(g))
        .step(2582060400, 7200, 0, "EET", Ghost(g))
        .step(2595369600, 7200, 3600, "EEST", Ghost(g))
        .step(2597785200, 7200, 0, "EET", Ghost(g))
        .step(2601417600, 7200, 3600, "EEST", Ghost(g))
        .step(2613510000, 7200, 0, "EET", Ghost(g))
        .step(2626819200, 7200, 3600, "EEST", Ghost(g))
        .step(2628025200, 7200, 0, "EET", Ghost(g))
        .step(2632262400, 7200, 3600, "EEST", Ghost(g))
        .step(2644959600, 7200, 0, "EET", Ghost(g))
        .step(2658268800, 7200, 3600, "EEST", Ghost(g))
        .step(2658870000, 7200, 0, "EET", Ghost(g))
        .step(2663107200, 7200, 3600, "EEST", Ghost(g))
        .step(2676409200, 7200, 0, "EET", Ghost(g))
        .step(2693347200, 7200, 3600, "EEST", Ghost(g))
        .step(2708463600, 7200, 0, "EET", Ghost(g))
        .step(2724192000, 7200, 3600, "EEST", Ghost(g))
        .step(2739913200, 7200, 0, "EET", Ghost(g))
        .step(2754432000, 7200, 3600, "EEST", Ghost(g))
        .step(2771362800, 7200, 0, "EET", Ghost(g))
        .step(2785276800, 7200, 3600, "EEST", Ghost(g))
        .step(2802812400, 7200, 0, "EET", Ghost(g))
        .step(2816121600, 7200, 3600, "EEST", Ghost(g))
        .step(2834262000, 7200, 0, "EET", Ghost(g))
        .step(2847571200, 7200, 3600, "EEST", Ghost(g))
        .step(2866316400, 7200, 0, "EET", Ghost(g))
        .step(2879020800, 7200, 3600, "EEST", Ghost(g))
        .step(2897766000, 7200, 0, "EET", Ghost(g))
        .step(2910470400, 7200, 3600, "EEST", Ghost(g))
        .step(2929215600, 7200, 0, "EET", Ghost(g))
        .step(2941920000, 7200, 3600, "EEST", Ghost(g))
        .step(2960665200, 7200, 0, "EET", Ghost(g))
        .step(2973974400, 7200, 3600, "EEST", Ghost(g))
        .step(2992114800, 7200, 0, "EET", Ghost(g))
        .step(3005424000, 7200, 3600, "EEST", Ghost(g))
        .step(3023564400, 7200, 0, "EET", Ghost(g))
        .step(3036873600, 7200, 3600, "EEST", Ghost(g))
        .step(3055618800, 7200, 0, "EET", Ghost(g))
        .step(3068323200, 7200, 3600, "EEST", Ghost(g))
        .step(3087068400, 7200, 0, "EET", Ghost(g))
        .step(3099772800, 7200, 3600, "EEST", Ghost(g))
        .step(3117913200, 7200, 0, "EET", Ghost(g))
        .step(3131827200, 7200, 3600, "EEST", Ghost(g))
        .step(3148758000, 7200, 0, "EET", Ghost(g))
        .step(3163276800, 7200, 3600, "EEST", Ghost(g))
        .step(3179602800, 7200, 0, "EET", Ghost(g))
        .step(3194726400, 7200, 3600, "EEST", Ghost(g))
        .step(3209842800, 7200, 0, "EET", Ghost(g))
        .step(3226176000, 7200, 3600, "EEST", Ghost(g))
        .step(3240687600, 7200, 0, "EET", Ghost(g))
        .step(3244320000, 7200, 3600, "EEST", Ghost(g))
        .step(3244921200, 7200, 0, "EET", Ghost(g))
        .step(3257625600, 7200, 3600, "EEST", Ghost(g))
        .step(3271532400, 7200, 0, "EET", Ghost(g))
        .step(3275164800, 7200, 3600, "EEST", Ghost(g))
        .step(3276370800, 7200, 0, "EET", Ghost(g))
        .step(3289075200, 7200, 3600, "EEST", Ghost(g))
        .step(3301772400, 7200, 0, "EET", Ghost(g))
        .step(3306009600, 7200, 3600, "EEST", Ghost(g))
        .step(3307820400, 7200, 0, "EET", Ghost(g))
        .step(3321129600, 7200, 3600, "EEST", Ghost(g))
        .step(3332617200, 7200, 0, "EET", Ghost(g))
        .step(3336249600, 7200, 3600, "EEST", Ghost(g))
        .step(3339270000, 7200, 0, "EET", Ghost(g))
        .step(3352579200, 7200, 3600, "EEST", Ghost(g))
        .step(3362857200, 7200, 0, "EET", Ghost(g))
        .step(3367094400, 7200, 3600, "EEST", Ghost(g))
        .step(3370719600, 7200, 0, "EET", Ghost(g))
        .step(3384028800, 7200, 3600, "EEST", Ghost(g))
        .step(3393702000, 7200, 0, "EET", Ghost(g))
        .step(3397939200, 7200, 3600, "EEST", Ghost(g))
        .step(3402774000, 7200, 0, "EET", Ghost(g))
        .step(3415478400, 7200, 3600, "EEST", Ghost(g))
        .step(3424546800, 7200, 0, "EET", Ghost(g))
        .step(3428179200, 7200, 3600, "EEST", Ghost(g))
        .step(3434223600, 7200, 0, "EET", Ghost(g))
        .step(3446928000, 7200, 3600, "EEST", Ghost(g))
        .step(3454786800, 7200, 0, "EET", Ghost(g))
        .step(3459024000, 7200, 3600, "EEST", Ghost(g))
        .step(3465673200, 7200, 0, "EET", Ghost(g))
        .step(3478982400, 7200, 3600, "EEST", Ghost(g))
        .step(3485631600, 7200, 0, "EET", Ghost(g))
        .step(3489264000, 7200, 3600, "EEST", Ghost(g))
        .step(3497122800, 7200, 0, "EET", Ghost(g))
        .step(3510432000, 7200, 3600, "EEST", Ghost(g))
        .step(3516476400, 7200, 0, "EET", Ghost(g))
        .step(3520108800, 7200, 3600, "EEST", Ghost(g))
        .step(3528572400, 7200, 0, "EET", Ghost(g))
        .step(3541881600, 7200, 3600, "EEST", Ghost(g))
        .step(3546716400, 7200, 0, "EET", Ghost(g))
        .step(3550953600, 7200, 3600, "EEST", Ghost(g))
        .step(3560022000, 7200, 0, "EET", Ghost(g))
        .step(3573331200, 7200, 3600, "EEST", Ghost(g))
        .step(3577561200, 7200, 0, "EET", Ghost(g))
        .step(3581193600, 7200, 3600, "EEST", Ghost(g))
        .step(3592076400, 7200, 0, "EET", Ghost(g))
        .step(3604780800, 7200, 3600, "EEST", Ghost(g))
        .step(3607801200, 7200, 0, "EET", Ghost(g))
        .step(3612038400, 7200, 3600, "EEST", Ghost(g))
        .step(3623526000, 7200, 0, "EET", Ghost(g))
        .step(3636230400, 7200, 3600, "EEST", Ghost(g))
        .step(3638646000, 7200, 0, "EET", Ghost(g))
        .step(3642883200, 7200, 3600, "EEST", Ghost(g))
        .step(3654975600, 7200, 0, "EET", Ghost(g))
        .step(3668284800, 7200, 3600, "EEST", Ghost(g))
        .step(3669490800, 7200, 0, "EET", Ghost(g))
        .step(3673123200, 7200, 3600, "EEST", Ghost(g))
        .step(3686425200, 7200, 0, "EET", Ghost(g))
        .finish(Ghost(g))
}

/// The zone `Asia/Ho_Chi_Minh`.
pub fn ho_chi_minh() -> (r: Tz)
    ensures
        r.wf(),
        r.zone_name() == "Asia/Ho_Chi_Minh"@,
        r.table() == tables::asia::ho_chi_minh(),
{
    let ghost g = tables::asia::ho_chi_minh_rows();
    FixedTimespanSet::begin("Asia/Ho_Chi_Minh", 25590, 0, "LMT", Ghost(g))
        .step(-2004073590, 25590, 0, "PLMT", Ghost(g))
        .step(-1851577590, 25200, 0, "+07", Ghost(g))
        .step(-852105600, 28800, 0, "+08", Ghost(g))
        .step(-782643600, 32400, 0, "+09", Ghost(g))
        .step(-767869200, 25200, 0, "+07", Ghost(g))
        .step(-718095600, 28800, 0, "+08", Ghost(g))
        .step(-457772400, 25200, 0, "+07", Ghost(g))
        .step(-315648000, 28800, 0, "+08", Ghost(g))
        .step(171820800, 25200, 0, "+07", Ghost(g))
        .step(2147483647, 25200, 0, "+07", Ghost(g))
        .finish(Ghost(g))
}

/// The zone `Asia/Hong_Kong`.
pub fn hong_kong() -> (r: Tz)
    ensures
        r.wf(),
        r.zone_name() == "Asia/Hong_Kong"@,
        r.table() == tables::asia::hong_kong(),
{
    let ghost g = tables::asia::hong_kong_rows();
    FixedTimespanSet::begin("Asia/Hong_Kong", 27402, 0, "LMT", Ghost(g))
        .step(-2056690800, 28800, 0, "HKT", Ghost(g))
        .step(-900910800, 28800, 3600, "HKST", Ghost(g))
        .step(-891579600, 28800, 1800, "HKWT", Ghost(g))
        .step(-884248200, 32400, 0, "JST", Ghost(g))
        .step(-761209200, 28800, 0, "HKT", Ghost(g))
        .step(-747907200, 28800, 3600, "HKST", Ghost(g))
        .step(-728541000, 28800, 0, "HKT", Ghost(g))
        .step(-717049800, 28800, 3600, "HKST", Ghost(g))
        .step(-697091400, 28800, 0, "HKT", Ghost(g))
        .step(-683785800, 28800, 3600, "HKST", Ghost(g))
        .step(-668061000, 28800, 0, "HKT", Ghost(g))
        .step(-654755400, 28800, 3600, "HKST", Ghost(g))
        .step(-636611400, 28800, 0, "HKT", Ghost(g))
        .step(-623305800, 28800, 3600, "HKST", Ghost(g))
        .step(-605161800, 28800, 0, "HKT", Ghost(g))
        .step(-591856200, 28800, 3600, "HKST", Ghost(g))
        .step(-573712200, 28800, 0, "HKT", Ghost(g))
        .step(-559801800, 28800, 3600, "HKST", Ghost(g))
        .step(-541657800, 28800, 0, "HKT", Ghost(g))
        .step(-528352200, 28800, 3600, "HKST", Ghost(g))
        .step(-510211800, 28800, 0, "HKT", Ghost(g))
        .step(-498112200, 28800, 3600, "HKST", Ghost(g))
        .step(-478762200, 28800, 0, "HKT", Ghost(g))
        .step(-466662600, 28800, 3600, "HKST", Ghost(g))
        .step(-446707800, 28800, 0, "HKT", Ghost(g))
        .step(-435213000, 28800, 3600, "HKST", Ghost(g))
        .step(-415258200, 28800, 0, "HKT", Ghost(g))
        .step(-403158600, 28800, 3600, "HKST", Ghost(g))
        .step(-383808600, 28800, 0, "HKT", Ghost(g))
        .step(-371709000, 28800, 3600, "HKST", Ghost(g))
        .step(-352359000, 28800, 0, "HKT", Ghost(g))
        .step(-340259400, 28800, 3600, "HKST", Ghost(g))
        .step(-320909400, 28800, 0, "HKT", Ghost(g))
        .step(-308809800, 28800, 3600, "HKST", Ghost(g))
        .step(-288855000, 28800, 0, "HKT", Ghost(g))
        .step(-277360200, 28800, 3600, "HKST", Ghost(g))
        .step(-257405400, 28800, 0, "HKT", Ghost(g))
        .step(-245910600, 28800, 3600, "HKST", Ghost(g))
        .step(-225955800, 28800, 0, "HKT", Ghost(g))
        .step(-213856200, 28800, 3600, "HKST", Ghost(g))
        .step(-194506200, 28800, 0, "HKT", Ghost(g))
        .step(-182406600, 28800, 3600, "HKST", Ghost(g))
        .step(-163056600, 28800, 0, "HKT", Ghost(g))
        .step(-148537800, 28800, 3600, "HKST", Ghost(g))
        .step(-132816600, 28800, 0, "HKT", Ghost(g))
        .step(-117088200, 28800, 3600, "HKST", Ghost(g))
        .step(-101367000, 28800, 0, "HKT", Ghost(g))
        .step(-85638600, 28800, 3600, "HKST", Ghost(g))
        .step(-69312600, 28800, 0, "HKT", Ghost(g))
        .step(-53584200, 28800, 3600, "HKST", Ghost(g))
        .step(-37863000, 28800, 0, "HKT", Ghost(g))
        .step(-22134600, 28800, 3600, "HKST", Ghost(g))
        .step(-6413400, 28800, 0, "HKT", Ghost(g))
        .step(9315000, 28800, 3600, "HKST", Ghost(g))
        .step(25036200, 28800, 0, "HKT", Ghost(g))
        .step(40764600, 28800, 3600, "HKST", Ghost(g))
        .step(56485800, 28800, 0, "HKT", Ghost(g))
        .step(72214200, 28800, 3600, "HKST", Ghost(g))
        .step(88540200, 28800, 0, "HKT", Ghost(g))
        .step(104268600, 28800, 3600, "HKST", Ghost(g))
        .step(119989800, 28800, 0, "HKT", Ghost(g))
        .step(126041400, 28800, 3600, "HKST", Ghost(g))
        .step(151439400, 28800, 0, "HKT", Ghost(g))
        .step(167167800, 28800, 3600, "HKST", Ghost(g))
        .step(182889000, 28800, 0, "HKT", Ghost(g))
        .step(198617400, 28800, 3600, "HKST", Ghost(g))
        .step(214338600, 28800, 0, "HKT", Ghost(g))
        .step(295385400, 28800, 3600, "HKST", Ghost(g))
        .step(309292200, 28800, 0, "HKT", Ghost(g))
        .finish(Ghost(g))
}

/// The zone `Asia/Hovd`.
pub fn hovd() -> (r: Tz)
    ensures
        r.wf(),
        r.zone_name() == "Asia/Hovd"@,
        r.table() == tables::asia::hovd(),
{
    let ghost g = tables::asia::hovd_rows();
    FixedTimespanSet::begin("Asia/Hovd", 21996, 0, "LMT", Ghost(g))
        .step(-2032927596, 21600, 0, "+06", Ghost(g))
        .step(252439200, 25200, 0, "+07", Ghost(g))
        .step(417978000, 25200, 3600, "+08", Ghost(g))
        .step(433785600, 25200, 0, "+07", Ghost(g))
        .step(449600400, 25200, 3600, "+08", Ghost(g))
        .step(465321600, 25200, 0, "+07", Ghost(g))
        .step(481050000, 25200, 3600, "+08", Ghost(g))
        .step(496771200, 25200, 0, "+07", Ghost(g))
        .step(512499600, 25200, 3600, "+08", Ghost(g))
        .step(528220800, 25200, 0, "+07", Ghost(g))
        .step(543949200, 25200, 3600, "+08", Ghost(g))
        .step(559670400, 25200, 0, "+07", Ghost(g))
        .step(575398800, 25200, 3600, "+08", Ghost(g))
        .step(591120000, 25200, 0, "+07", Ghost(g))
        .step(606848400, 25200, 3600, "+08", Ghost(g))
        .step(622569600, 25200, 0, "+07", Ghost(g))
        .step(638298000, 25200, 3600, "+08", Ghost(g))
        .step(654624000, 25200, 0, "+07", Ghost(g))
        .step(670352400, 25200, 3600, "+08", Ghost(g))
        .step(686073600, 25200, 0, "+07", Ghost(g))
        .step(701802000, 25200, 3600, "+08", Ghost(g))
        .step(717523200, 25200, 0, "+07", Ghost(g))
        .step(733251600, 25200, 3600, "+08", Ghost(g))
        .step(748972800, 25200, 0, "+07", Ghost(g))
        .step(764701200, 25200, 3600, "+08", Ghost(g))
        .step(780422400, 25200, 0, "+07", Ghost(g))
        .step(796150800, 25200, 3600, "+08", Ghost(g))
        .step(811872000, 25200, 0, "+07", Ghost(g))
        .step(828205200, 25200, 3600, "+08", Ghost(g))
        .step(843926400, 25200, 0, "+07", Ghost(g))
        .step(859654800, 25200, 3600, "+08", Ghost(g))
        .step(875376000, 25200, 0, "+07", Ghost(g))
        .step(891104400, 25200, 3600, "+08", Ghost(g))
        .step(906825600, 25200, 0, "+07", Ghost(g))
        .step(988398000, 25200, 3600, "+08", Ghost(g))
        .step(1001700000, 25200, 0, "+07", Ghost(g))
        .step(1017428400, 25200, 3600, "+08", Ghost(g))
        .step(1033149600, 25200, 0, "+07", Ghost(g))
        .step(1048878000, 25200, 3600, "+08", Ghost(g))
        .step(1064599200, 25200, 0, "+07", Ghost(g))
        .step(1080327600, 25200, 3600, "+08", Ghost(g))
        .step(1096048800, 25200, 0, "+07", Ghost(g))
        .step(1111777200, 25200, 3600, "+08", Ghost(g))
        .step(1127498400, 25200, 0, "+07", Ghost(g))
        .step(1143226800, 25200, 3600, "+08", Ghost(g))
        .step(1159552800, 25200, 0, "+07", Ghost(g))
        .step(1427482800, 25200, 3600, "+08", Ghost(g))
        .step(1443196800, 25200, 0, "+07", Ghost(g))
        .step(1458932400, 25200, 3600, "+08", Ghost(g))
        .step(1474646400, 25200, 0, "+07", Ghost(g))
        .step(2147483647, 25200, 0, "+07", Ghost(g))
        .finish(Ghost(g))
}

/// The zone `Asia/Irkutsk`.
pub fn irkutsk() -> (r: Tz)
    ensures
        r.wf(),
        r.zone_name() == "Asia/Irkutsk"@,
        r.table() == tables::asia::irkutsk(),
{
    let ghost g = tables::asia::irkutsk_rows();
    FixedTimespanSet::begin("Asia/Irkutsk", 25025, 0, "LMT", Ghost(g))
        .step(-2840165825, 25025, 0, "IMT", Ghost(g))
        .step(-1575874625, 25200, 0, "+07", Ghost(g))
        .step(-1247554800, 28800, 0, "+08", Ghost(g))
        .step(354902400, 28800, 3600, "+09", Ghost(g))
        .step(370710000, 28800, 0, "+08", Ghost(g))
        .step(386438400, 28800, 3600, "+09", Ghost(g))
        .step(402246000, 28800, 0, "+08", Ghost(g))
        .step(417974400, 28800, 3600, "+09", Ghost(g))
        .step(433782000, 28800, 0, "+08", Ghost(g))
        .step(449596800, 28800, 3600, "+09", Ghost(g))
        .step(465328800, 28800, 0, "+08", Ghost(g))
        .step(481053600, 28800, 3600, "+09", Ghost(g))
        .step(496778400, 28800, 0, "+08", Ghost(g))
        .step(512503200, 28800, 3600, "+09", Ghost(g))
        .step(528228000, 28800, 0, "+08", Ghost(g))
        .step(543952800, 28800, 3600, "+09", Ghost(g))
        .step(559677600, 28800, 0, "+08", Ghost(g))
        .step(575402400, 28800, 3600, "+09", Ghost(g))
        .step(591127200, 28800, 0, "+08", Ghost(g))
        .step(606852000, 28800, 3600, "+09", Ghost(g))
        .step(622576800, 28800, 0, "+08", Ghost(g))
        .step(638301600, 28800, 3600, "+09", Ghost(g))
        .step(654631200, 28800, 0, "+08", Ghost(g))
        .step(670356000, 25200, 3600, "+08", Ghost(g))
        .step(686084400, 25200, 0, "+07", Ghost(g))
        .step(695761200, 28800, 0, "+08", Ghost(g))
        .step(701805600, 28800, 3600, "+09", Ghost(g))
        .step(717530400, 28800, 0, "+08", Ghost(g))
        .step(733255200, 28800, 3600, "+09", Ghost(g))
        .step(748980000, 28800, 0, "+08", Ghost(g))
        .step(764704800, 28800, 3600, "+09", Ghost(g))
        .step(780429600, 28800, 0, "+08", Ghost(g))
        .step(796154400, 28800, 3600, "+09", Ghost(g))
        .step(811879200, 28800, 0, "+08", Ghost(g))
        .step(828208800, 28800, 3600, "+09", Ghost(g))
        .step(846352800, 28800, 0, "+08", Ghost(g))
        .step(859658400, 28800, 3600, "+09", Ghost(g))
        .step(877802400, 28800, 0, "+08", Ghost(g))
        .step(891108000, 28800, 3600, "+09", Ghost(g))
        .step(909252000, 28800, 0, "+08", Ghost(g))
        .step(922557600, 28800, 3600, "+09", Ghost(g))
        .step(941306400, 28800, 0, "+08", Ghost(g))
        .step(954007200, 28800, 3600, "+09", Ghost(g))
        .step(972756000, 28800, 0, "+08", Ghost(g))
        .step(985456800, 28800, 3600, "+09", Ghost(g))
        .step(1004205600, 28800, 0, "+08", Ghost(g))
        .step(1017511200, 28800, 3600, "+09", Ghost(g))
        .step(1035655200, 28800, 0, "+08", Ghost(g))
        .step(1048960800, 28800, 3600, "+09", Ghost(g))
        .step(1067104800, 28800, 0, "+08", Ghost(g))
        .step(1080410400, 28800, 3600, "+09", Ghost(g))
        .step(1099159200, 28800, 0, "+08", Ghost(g))
        .step(1111860000, 28800, 3600, "+09", Ghost(g))
        .step(1130608800, 28800, 0, "+08", Ghost(g))
        .step(1143309600, 28800, 3600, "+09", Ghost(g))
        .step(1162058400, 28800, 0, "+08", Ghost(g))
        .step(1174759200, 28800, 3600, "+09", Ghost(g))
        .step(1193508000, 28800, 0, "+08", Ghost(g))
        .step(1206813600, 28800, 3600, "+09", Ghost(g))
        .step(1224957600, 28800, 0, "+08", Ghost(g))
        .step(1238263200, 28800, 3600, "+09", Ghost(g))
        .step(1256407200, 28800, 0, "+08", Ghost(g))
        .step(1269712800, 28800, 3600, "+09", Ghost(g))
        .step(1288461600, 28800, 0, "+08", Ghost(g))
        .step(1301162400, 32400, 0, "+09", Ghost(g))
        .step(1414256400, 28800, 0, "+08", Ghost(g))
        .step(2147483647, 28800, 0, "+08", Ghost(g))
        .finish(Ghost(g))
}

/// The zone `Asia/Istanbul`.
pub fn istanbul() -> (r: Tz)
    ensures
        r.wf(),
        r.zone_name() == "Asia/Istanbul"@,
        r.table() == tables::asia::istanbul(),
{
    let ghost g = tables::asia::istanbul_rows();
    FixedTimespanSet::begin("Asia/Istanbul", 6952, 0, "LMT", Ghost(g))
        .step(-2840147752, 7016, 0, "IMT", Ghost(g))
        .step(-1869875816, 7200, 0, "EET", Ghost(g))
        .step(-1693706400, 7200, 3600, "EEST", Ghost(g))
        .step(-1680490800, 7200, 0, "EET", Ghost(g))
        .step(-1570413600, 7200, 3600, "EEST", Ghost(g))
        .step(-1552186800, 7200, 0, "EET", Ghost(g))
        .step(-1538359200, 7200, 3600, "EEST", Ghost(g))
        .step(-1522551600, 7200, 0, "EET", Ghost(g))
        .step(-1507514400, 7200, 3600, "EEST", Ghost(g))
        .step(-1490583600, 7200, 0, "EET", Ghost(g))
        .step(-1440208800, 7200, 3600, "EEST", Ghost(g))
        .step(-1428030000, 7200, 0, "EET", Ghost(g))
        .step(-1409709600, 7200, 3600, "EEST", Ghost(g))
        .step(-1396494000, 7200, 0, "EET", Ghost(g))
        .step(-931053600, 7200, 3600, "EEST", Ghost(g))
        .step(-922676400, 7200, 0, "EET", Ghost(g))
        .step(-917834400, 7200, 3600, "EEST", Ghost(g))
        .step(-892436400, 7200, 0, "EET", Ghost(g))
        .step(-875844000, 7200, 3600, "EEST", Ghost(g))
        .step(-764737200, 7200, 0, "EET", Ghost(g))
        .step(-744343200, 7200, 3600, "EEST", Ghost(g))
        .step(-733806000, 7200, 0, "EET", Ghost(g))
        .step(-716436000, 7200, 3600, "EEST", Ghost(g))
        .step(-701924400, 7200, 0, "EET", Ghost(g))
        .step(-684986400, 7200, 3600, "EEST", Ghost(g))
        .step(-670474800, 7200, 0, "EET", Ghost(g))
        .step(-654141600, 7200, 3600, "EEST", Ghost(g))
        .step(-639025200, 7200, 0, "EET", Ghost(g))
        .step(-622087200, 7200, 3600, "EEST", Ghost(g))
        .step(-606970800, 7200, 0, "EET", Ghost(g))
        .step(-590032800, 7200, 3600, "EEST", Ghost(g))
        .step(-575521200, 7200, 0, "EET", Ghost(g))
        .step(-235620000, 7200, 3600, "EEST", Ghost(g))
        .step(-194842800, 7200, 0, "EET", Ghost(g))
        .step(-177732000, 7200, 3600, "EEST", Ghost(g))
        .step(-165726000, 7200, 0, "EET", Ghost(g))
        .step(107910000, 7200, 3600, "EEST", Ghost(g))
        .step(121215600, 7200, 0, "EET", Ghost(g))
        .step(133920000, 7200, 3600, "EEST", Ghost(g))
        .step(152665200, 7200, 0, "EET", Ghost(g))
        .step(164678400, 7200, 3600, "EEST", Ghost(g))
        .step(184114800, 7200, 0, "EET", Ghost(g))
        .step(196214400, 7200, 3600, "EEST", Ghost(g))
        .step(215564400, 7200, 0, "EET", Ghost(g))
        .step(228873600, 7200, 3600, "EEST", Ghost(g))
        .step(245804400, 7200, 0, "EET", Ghost(g))
        .step(260323200, 7200, 3600, "EEST", Ghost(g))
        .step(267915600, 10800, 0, "+03", Ghost(g))
        .step(428454000, 10800, 3600, "+04", Ghost(g))
        .step(433893600, 10800, 0, "+03", Ghost(g))
        .step(468111600, 7200, 0, "EET", Ghost(g))
        .step(482799600, 7200, 3600, "EEST", Ghost(g))
        .step(496710000, 7200, 0, "EET", Ghost(g))
        .step(512521200, 7200, 3600, "EEST", Ghost(g))
        .step(528246000, 7200, 0, "EET", Ghost(g))
        .step(543970800, 7200, 3600, "EEST", Ghost(g))
        .step(559695600, 7200, 0, "EET", Ghost(g))
        .step(575420400, 7200, 3600, "EEST", Ghost(g))
        .step(591145200, 7200, 0, "EET", Ghost(g))
        .step(606870000, 7200, 3600, "EEST", Ghost(g))
        .step(622594800, 7200, 0, "EET", Ghost(g))
        .step(638319600, 7200, 3600, "EEST", Ghost(g))
        .step(654649200, 7200, 0, "EET", Ghost(g))
        .step(670374000, 7200, 3600, "EEST", Ghost(g))
        .step(686098800, 7200, 0, "EET", Ghost(g))
        .step(701823600, 7200, 3600, "EEST", Ghost(g))
        .step(717548400, 7200, 0, "EET", Ghost(g))
        .step(733273200, 7200, 3600, "EEST", Ghost(g))
        .step(748998000, 7200, 0, "EET", Ghost(g))
        .step(764118000, 7200, 3600, "EEST", Ghost(g))
        .step(780447600, 7200, 0, "EET", Ghost(g))
        .step(796172400, 7200, 3600, "EEST", Ghost(g))
        .step(811897200, 7200, 0, "EET", Ghost(g))
        .step(828226800, 7200, 3600, "EEST", Ghost(g))
        .step(846370800, 7200, 0, "EET", Ghost(g))
        .step(859676400, 7200, 3600, "EEST", Ghost(g))
        .step(877820400, 7200, 0, "EET", Ghost(g))
        .step(891126000, 7200, 3600, "EEST", Ghost(g))
        .step(909270000, 7200, 0, "EET", Ghost(g))
        .step(922575600, 7200, 3600, "EEST", Ghost(g))
        .step(941324400, 7200, 0, "EET", Ghost(g))
        .step(954025200, 7200, 3600, "EEST", Ghost(g))
        .step(972774000, 7200, 0, "EET", Ghost(g))
        .step(985474800, 7200, 3600, "EEST", Ghost(g))
        .step(1004223600, 7200, 0, "EET", Ghost(g))
        .step(1017529200, 7200, 3600, "EEST", Ghost(g))
        .step(1035673200, 7200, 0, "EET", Ghost(g))
        .step(1048978800, 7200, 3600, "EEST", Ghost(g))
        .step(1067122800, 7200, 0, "EET", Ghost(g))
        .step(1080428400, 7200, 3600, "EEST", Ghost(g))
        .step(1099177200, 7200, 0, "EET", Ghost(g))
        .step(1111878000, 7200, 3600, "EEST", Ghost(g))
        .step(1130626800, 7200, 0, "EET", Ghost(g))
        .step(1143327600, 7200, 3600, "EEST", Ghost(g))
        .step(1162076400, 7200, 0, "EET", Ghost(g))
        .step(1174784400, 7200, 3600, "EEST", Ghost(g))
        .step(1193533200, 7200, 0, "EET", Ghost(g))
        .step(1206838800, 7200, 3600, "EEST", Ghost(g))
        .step(1224982800, 7200, 0, "EET", Ghost(g))
        .step(1238288400, 7200, 3600, "EEST", Ghost(g))
        .step(1256432400, 7200, 0, "EET", Ghost(g))
        .step(1269738000, 7200, 3600, "EEST", Ghost(g))
        .step(1288486800, 7200, 0, "EET", Ghost(g))
        .step(1301274000, 7200, 3600, "EEST", Ghost(g))
        .step(1319936400, 7200, 0, "EET", Ghost(g))
        .step(1332637200, 7200, 3600, "EEST", Ghost(g))
        .step(1351386000, 7200, 0, "EET", Ghost(g))
        .step(1364691600, 7200, 3600, "EEST", Ghost(g))
        .step(1382835600, 7200, 0, "EET", Ghost(g))
        .step(1396227600, 7200, 3600, "EEST", Ghost(g))
        .step(1414285200, 7200, 0, "EET", Ghost(g))
        .step(1427590800, 7200, 3600, "EEST", Ghost(g))
        .step(1446944400, 7200, 0, "EET", Ghost(g))
        .step(1459040400, 7200, 3600, "EEST", Ghost(g))
        .step(1473195600, 10800, 0, "+03", Ghost(g))
        .step(2147483647, 10800, 0, "+03", Ghost(g))
        .finish(Ghost(g))
}

/// The zone `Asia/Jakarta`.
pub fn jakarta() -> (r: Tz)
    ensures
        r.wf(),
        r.zone_name() == "Asia/Jakarta"@,
        r.table() == tables::asia::jakarta(),
{
    let ghost g = tables::asia::jakarta_rows();
    FixedTimespanSet::begin("Asia/Jakarta", 25632, 0, "LMT", Ghost(g))
        .step(-3231299232, 25632, 0, "BMT", Ghost(g))
        .step(-1451719200, 26400, 0, "+0720", Ghost(g))
        .step(-1172906400, 27000, 0, "+0730", Ghost(g))
        .step(-876641400, 32400, 0, "+09", Ghost(g))
        .step(-766054800, 27000, 0, "+0730", Ghost(g))
        .step(-683883000, 28800, 0, "+08", Ghost(g))
        .step(-620812800, 27000, 0, "+0730", Ghost(g))
        .step(-189415800, 25200, 0, "WIB", Ghost(g))
        .finish(Ghost(g))
}

/// The zone `Asia/Jayapura`.
pub fn jayapura() -> (r: Tz)
    ensures
        r.wf(),
        r.zone_name() == "Asia/Jayapura"@,
        r.table() == tables::asia::jayapura(),
{
    let ghost g = tables::asia::jayapura_rows();
    FixedTimespanSet::begin("Asia/Jayapura", 33768, 0, "LMT", Ghost(g))
        .step(-1172913768, 32400, 0, "+09", Ghost(g))
        .step(-799491600, 34200, 0, "+0930", Ghost(g))
        .step(-189423000, 32400, 0, "WIT", Ghost(g))
        .finish(Ghost(g))
}

/// The zone `Asia/Jerusalem`.
pub fn jerusalem() -> (r: Tz)
    ensures
        r.wf(),
        r.zone_name() == "Asia/Jerusalem"@,
        r.table() == tables::asia::jerusalem(),
{
    let ghost g = tables::asia::jerusalem_rows();
    FixedTimespanSet::begin("Asia/Jerusalem", 8454, 0, "LMT", Ghost(g))
        .step(-2840149254, 8440, 0, "JMT", Ghost(g))
        .step(-1641003640, 7200, 0, "IST", Ghost(g))
        .step(-933638400, 7200, 3600, "IDT", Ghost(g))
        .step(-923097600, 7200, 0, "IST", Ghost(g))
        .step(-919036800, 7200, 3600, "IDT", Ghost(g))
        .step(-857347200, 7200, 0, "IST", Ghost(g))
        .step(-844300800, 7200, 3600, "IDT", Ghost(g))
        .step(-825811200, 7200, 0, "IST", Ghost(g))
        .step(-812678400, 7200, 3600, "IDT", Ghost(g))
        .step(-794188800, 7200, 0, "IST", Ghost(g))
        .step(-779846400, 7200, 3600, "IDT", Ghost(g))
        .step(-762652800, 7200, 0, "IST", Ghost(g))
        .step(-748310400, 7200, 3600, "IDT", Ghost(g))
        .step(-731116800, 7200, 0, "IST", Ghost(g))
        .step(-681955200, 7200, 7200, "IDDT", Ghost(g))
        .step(-673228800, 7200, 3600, "IDT", Ghost(g))
        .step(-667958400, 7200, 0, "IST", Ghost(g))
        .step(-652320000, 7200, 3600, "IDT", Ghost(g))
        .step(-636422400, 7200, 0, "IST", Ghost(g))
        .step(-622080000, 7200, 3600, "IDT", Ghost(g))
        .step(-608947200, 7200, 0, "IST", Ghost(g))
        .step(-591840000, 7200, 3600, "IDT", Ghost(g))
        .step(-572486400, 7200, 0, "IST", Ghost(g))
        .step(-558576000, 7200, 3600, "IDT", Ghost(g))
        .step(-542851200, 7200, 0, "IST", Ghost(g))
        .step(-527731200, 7200, 3600, "IDT", Ghost(g))
        .step(-514425600, 7200, 0, "IST", Ghost(g))
        .step(-490838400, 7200, 3600, "IDT", Ghost(g))
        .step(-482976000, 7200, 0, "IST", Ghost(g))
        .step(-459388800, 7200, 3600, "IDT", Ghost(g))
        .step(-451526400, 7200, 0, "IST", Ghost(g))
        .step(-428544000, 7200, 3600, "IDT", Ghost(g))
        .step(-418262400, 7200, 0, "IST", Ghost(g))
        .step(-400118400, 7200, 3600, "IDT", Ghost(g))
        .step(-387417600, 7200, 0, "IST", Ghost(g))
        .step(142380000, 7200, 3600, "IDT", Ghost(g))
        .step(150843600, 7200, 0, "IST", Ghost(g))
        .step(167176800, 7200, 3600, "IDT", Ghost(g))
        .step(178664400, 7200, 0, "IST", Ghost(g))
        .step(334101600, 7200, 3600, "IDT", Ghost(g))
        .step(337730400, 7200, 0, "IST", Ghost(g))
        .step(452642400, 7200, 3600, "IDT", Ghost(g))
        .step(462319200, 7200, 0, "IST", Ghost(g))
        .step(482277600, 7200, 3600, "IDT", Ghost(g))
        .step(494370000, 7200, 0, "IST", Ghost(g))
        .step(516751200, 7200, 3600, "IDT", Ghost(g))
        .step(526424400, 7200, 0, "IST", Ghost(g))
        .step(545436000, 7200, 3600, "IDT", Ghost(g))
        .step(558478800, 7200, 0, "IST", Ghost(g))
        .step(576626400, 7200, 3600, "IDT", Ghost(g))
        .step(589323600, 7200, 0, "IST", Ghost(g))
        .step(609890400, 7200, 3600, "IDT", Ghost(g))
        .step(620773200, 7200, 0, "IST", Ghost(g))
        .step(638316000, 7200, 3600, "IDT", Ghost(g))
        .step(651618000, 7200, 0, "IST", Ghost(g))
        .step(669765600, 7200, 3600, "IDT", Ghost(g))
        .step(683672400, 7200, 0, "IST", Ghost(g))
        .step(701820000, 7200, 3600, "IDT", Ghost(g))
        .step(715726800, 7200, 0, "IST", Ghost(g))
        .step(733701600, 7200, 3600, "IDT", Ghost(g))
        .step(747176400, 7200, 0, "IST", Ghost(g))
        .step(765151200, 7200, 3600, "IDT", Ghost(g))
        .step(778021200, 7200, 0, "IST", Ghost(g))
        .step(796600800, 7200, 3600, "IDT", Ghost(g))
        .step(810075600, 7200, 0, "IST", Ghost(g))
        .step(826840800, 7200, 3600, "IDT", Ghost(g))
        .step(842821200, 7200, 0, "IST", Ghost(g))
        .step(858895200, 7200, 3600, "IDT", Ghost(g))
        .step(874184400, 7200, 0, "IST", Ghost(g))
        .step(890344800, 7200, 3600, "IDT", Ghost(g))
        .step(905029200, 7200, 0, "IST", Ghost(g))
        .step(923011200, 7200, 3600, "IDT", Ghost(g))
        .step(936313200, 7200, 0, "IST", Ghost(g))
        .step(955670400, 7200, 3600, "IDT", Ghost(g))
        .step(970783200, 7200, 0, "IST", Ghost(g))
        .step(986770800, 7200, 3600, "IDT", Ghost(g))
        .step(1001282400, 7200, 0, "IST", Ghost(g))
        .step(1017356400, 7200, 3600, "IDT", Ghost(g))
        .step(1033941600, 7200, 0, "IST", Ghost(g))
        .step(1048806000, 7200, 3600, "IDT", Ghost(g))
        .step(1065132000, 7200, 0, "IST", Ghost(g))
        .step(1081292400, 7200, 3600, "IDT", Ghost(g))
        .step(1095804000, 7200, 0, "IST", Ghost(g))
        .step(1112313600, 7200, 3600, "IDT", Ghost(g))
        .step(1128812400, 7200, 0, "IST", Ghost(g))
        .step(1143763200, 7200, 3600, "IDT", Ghost(g))
        .step(1159657200, 7200, 0, "IST", Ghost(g))
        .step(1175212800, 7200, 3600, "IDT", Ghost(g))
        .step(1189897200, 7200, 0, "IST", Ghost(g))
        .step(1206662400, 7200, 3600, "IDT", Ghost(g))
        .step(1223161200, 7200, 0, "IST", Ghost(g))
        .step(1238112000, 7200, 3600, "IDT", Ghost(g))
        .step(1254006000, 7200, 0, "IST", Ghost(g))
        .step(1269561600, 7200, 3600, "IDT", Ghost(g))
        .step(1284246000, 7200, 0, "IST", Ghost(g))
        .step(1301616000, 7200, 3600, "IDT", Ghost(g))
        .step(1317510000, 7200, 0, "IST", Ghost(g))
        .step(1333065600, 7200, 3600, "IDT", Ghost(g))
        .step(1348354800, 7200, 0, "IST", Ghost(g))
        .step(1364515200, 7200, 3600, "IDT", Ghost(g))
        .step(1382828400, 7200, 0, "IST", Ghost(g))
        .step(1395964800, 7200, 3600, "IDT", Ghost(g))
        .step(1414278000, 7200, 0, "IST", Ghost(g))
        .step(1427414400, 7200, 3600, "IDT", Ghost(g))
        .step(1445727600, 7200, 0, "IST", Ghost(g))
        .step(1458864000, 7200, 3600, "IDT", Ghost(g))
        .step(1477782000, 7200, 0, "IST", Ghost(g))
        .step(1490313600, 7200, 3600, "IDT", Ghost(g))
        .step(1509231600, 7200, 0, "IST", Ghost(g))
        .step(1521763200, 7200, 3600, "IDT", Ghost(g))
        .step(1540681200, 7200, 0, "IST", Ghost(g))
        .step(1553817600, 7200, 3600, "IDT", Ghost(g))
        .step(1572130800, 7200, 0, "IST", Ghost(g))
        .step(1585267200, 7200, 3600, "IDT", Ghost(g))
        .step(1603580400, 7200, 0, "IST", Ghost(g))
        .step(1616716800, 7200, 3600, "IDT", Ghost(g))
        .step(1635634800, 7200, 0, "IST", Ghost(g))
        .step(1648166400, 7200, 3600, "IDT", Ghost(g))
        .step(1667084400, 7200, 0, "IST", Ghost(g))
        .step(1679616000, 7200, 3600, "IDT", Ghost(g))
        .step(1698534000, 7200, 0, "IST", Ghost(g))
        .step(1711670400, 7200, 3600, "IDT", Ghost(g))
        .step(1729983600, 7200, 0, "IST", Ghost(g))
        .step(1743120000, 7200, 3600, "IDT", Ghost(g))
        .step(1761433200, 7200, 0, "IST", Ghost(g))
        .step(1774569600, 7200, 3600, "IDT", Ghost(g))
        .step(1792882800, 7200, 0, "IST", Ghost(g))
        .step(1806019200, 7200, 3600, "IDT", Ghost(g))
        .step(1824937200, 7200, 0, "IST", Ghost(g))
        .step(1837468800, 7200, 3600, "IDT", Ghost(g))
        .step(1856386800, 7200, 0, "IST", Ghost(g))
        .step(1868918400, 7200, 3600, "IDT", Ghost(g))
        .step(1887836400, 7200, 0, "IST", Ghost(g))
        .step(1900972800, 7200, 3600, "IDT", Ghost(g))
        .step(1919286000, 7200, 0, "IST", Ghost(g))
        .step(1932422400, 7200, 3600, "IDT", Ghost(g))
        .step(1950735600, 7200, 0, "IST", Ghost(g))
        .step(1963872000, 7200, 3600, "IDT", Ghost(g))
        .step(1982790000, 7200, 0, "IST", Ghost(g))
        .step(1995321600, 7200, 3600, "IDT", Ghost(g))
        .step(2014239600, 7200, 0, "IST", Ghost(g))
        .step(2026771200, 7200, 3600, "IDT", Ghost(g))
        .step(2045689200, 7200, 0, "IST", Ghost(g))
        .step(2058220800, 7200, 3600, "IDT", Ghost(g))
        .step(2077138800, 7200, 0, "IST", Ghost(g))
        .step(2090275200, 7200, 3600, "IDT", Ghost(g))
        .step(2108588400, 7200, 0, "IST", Ghost(g))
        .step(2121724800, 7200, 3600, "IDT", Ghost(g))
        .step(2140038000, 7200, 0, "IST", Ghost(g))
        .finish(Ghost(g))
}

/// The zone `Asia/Kabul`.
pub fn kabul() -> (r: Tz)
    ensures
        r.wf(),
        r.zone_name() == "Asia/Kabul"@,
        r.table() == tables::asia::kabul(),
{
    let ghost g = tables::asia::kabul_rows();
    FixedTimespanSet::begin("Asia/Kabul", 16608, 0, "LMT", Ghost(g))
        .step(-2524538208, 14400, 0, "+04", Ghost(g))
        .step(-788932800, 16200, 0, "+0430", Ghost(g))
        .step(2147483647, 16200, 0, "+0430", Ghost(g))
        .finish(Ghost(g))
}

/// The zone `Asia/Kamchatka`.
pub fn kamchatka() -> (r: Tz)
    ensures
        r.wf(),
        r.zone_name() == "Asia/Kamchatka"@,
        r.table() == tables::asia::kamchatka(),
{
    let ghost g = tables::asia::kamchatka_rows();
    FixedTimespanSet::begin("Asia/Kamchatka", 38076, 0, "LMT", Ghost(g))
        .step(-1487759676, 39600, 0, "+11", Ghost(g))
        .step(-1247569200, 43200, 0, "+12", Ghost(g))
        .step(354888000, 43200, 3600, "+13", Ghost(g))
        .step(370695600, 43200, 0, "+12", Ghost(g))
        .step(386424000, 43200, 3600, "+13", Ghost(g))
        .step(402231600, 43200, 0, "+12", Ghost(g))
        .step(417960000, 43200, 3600, "+13", Ghost(g))
        .step(433767600, 43200, 0, "+12", Ghost(g))
        .step(449582400, 43200, 3600, "+13", Ghost(g))
        .step(465314400, 43200, 0, "+12", Ghost(g))
        .step(481039200, 43200, 3600, "+13", Ghost(g))
        .step(496764000, 43200, 0, "+12", Ghost(g))
        .step(512488800, 43200, 3600, "+13", Ghost(g))
        .step(528213600, 43200, 0, "+12", Ghost(g))
        .step(543938400, 43200, 3600, "+13", Ghost(g))
        .step(559663200, 43200, 0, "+12", Ghost(g))
        .step(575388000, 43200, 3600, "+13", Ghost(g))
        .step(591112800, 43200, 0, "+12", Ghost(g))
        .step(606837600, 43200, 3600, "+13", Ghost(g))
        .step(622562400, 43200, 0, "+12", Ghost(g))
        .step(638287200, 43200, 3600, "+13", Ghost(g))
        .step(654616800, 43200, 0, "+12", Ghost(g))
        .step(670341600, 39600, 3600, "+12", Ghost(g))
        .step(686070000, 39600, 0, "+11", Ghost(g))
        .step(695746800, 43200, 0, "+12", Ghost(g))
        .step(701791200, 43200, 3600, "+13", Ghost(g))
        .step(717516000, 43200, 0, "+12", Ghost(g))
        .step(733240800, 43200, 3600, "+13", Ghost(g))
        .step(748965600, 43200, 0, "+12", Ghost(g))
        .step(764690400, 43200, 3600, "+13", Ghost(g))
        .step(780415200, 43200, 0, "+12", Ghost(g))
        .step(796140000, 43200, 3600, "+13", Ghost(g))
        .step(811864800, 43200, 0, "+12", Ghost(g))
        .step(828194400, 43200, 3600, "+13", Ghost(g))
        .step(846338400, 43200, 0, "+12", Ghost(g))
        .step(859644000, 43200, 3600, "+13", Ghost(g))
        .step(877788000, 43200, 0, "+12", Ghost(g))
        .step(891093600, 43200, 3600, "+13", Ghost(g))
        .step(909237600, 43200, 0, "+12", Ghost(g))
        .step(922543200, 43200, 3600, "+13", Ghost(g))
        .step(941292000, 43200, 0, "+12", Ghost(g))
        .step(953992800, 43200, 3600, "+13", Ghost(g))
        .step(972741600, 43200, 0, "+12", Ghost(g))
        .step(985442400, 43200, 3600, "+13", Ghost(g))
        .step(1004191200, 43200, 0, "+12", Ghost(g))
        .step(1017496800, 43200, 3600, "+13", Ghost(g))
        .step(1035640800, 43200, 0, "+12", Ghost(g))
        .step(1048946400, 43200, 3600, "+13", Ghost(g))
        .step(1067090400, 43200, 0, "+12", Ghost(g))
        .step(1080396000, 43200, 3600, "+13", Ghost(g))
        .step(1099144800, 43200, 0, "+12", Ghost(g))
        .step(1111845600, 43200, 3600, "+13", Ghost(g))
        .step(1130594400, 43200, 0, "+12", Ghost(g))
        .step(1143295200, 43200, 3600, "+13", Ghost(g))
        .step(1162044000, 43200, 0, "+12", Ghost(g))
        .step(1174744800, 43200, 3600, "+13", Ghost(g))
        .step(1193493600, 43200, 0, "+12", Ghost(g))
        .step(1206799200, 43200, 3600, "+13", Ghost(g))
        .step(1224943200, 43200, 0, "+12", Ghost(g))
        .step(1238248800, 43200, 3600, "+13", Ghost(g))
        .step(1256392800, 43200, 0, "+12", Ghost(g))
        .step(1269698400, 39600, 3600, "+12", Ghost(g))
        .step(1288450800, 39600, 0, "+11", Ghost(g))
        .step(1301151600, 43200, 0, "+12", Ghost(g))
        .step(2147483647, 43200, 0, "+12", Ghost(g))
        .finish(Ghost(g))
}

/// The zone `Asia/Karachi`.
pub fn karachi() -> (r: Tz)
    ensures
        r.wf(),
        r.zone_name() == "Asia/Karachi"@,
        r.table() == tables::asia::karachi(),
{
    let ghost g = tables::asia::karachi_rows();
    FixedTimespanSet::begin("Asia/Karachi", 16092, 0, "LMT", Ghost(g))
        .step(-1988166492, 19800, 0, "+0530", Ghost(g))
        .step(-862637400, 19800, 3600, "+0630", Ghost(g))
        .step(-764145000, 19800, 0, "+0530", Ghost(g))
        .step(-576135000, 18000, 0, "+05", Ghost(g))
        .step(38775600, 18000, 0, "PKT", Ghost(g))
        .step(1018119600, 18000, 3600, "PKST", Ghost(g))
        .step(1033840800, 18000, 0, "PKT", Ghost(g))
        .step(1212260400, 18000, 3600, "PKST", Ghost(g))
        .step(1225476000, 18000, 0, "PKT", Ghost(g))
        .step(1239735600, 18000, 3600, "PKST", Ghost(g))
        .step(1257012000, 18000, 0, "PKT", Ghost(g))
        .finish(Ghost(g))
}

/// The zone `Asia/Kashgar`.
pub fn kashgar() -> (r: Tz)
    ensures
        r.wf(),
        r.zone_name() == "Asia/Kashgar"@,
        r.table() == tables::asia::kashgar(),
{
    let ghost g = tables::asia::kashgar_rows();
    FixedTimespanSet::begin("Asia/Kashgar", 21020, 0, "LMT", Ghost(g))
        .step(-1325483420, 21600, 0, "+06", Ghost(g))
        .step(2147483647, 21600, 0, "+06", Ghost(g))
        .finish(Ghost(g))
}

/// The zone `Asia/Kathmandu`.
pub fn kathmandu() -> (r: Tz)
    ensures
        r.wf(),
        r.zone_name() == "Asia/Kathmandu"@,
        r.table() == tables::asia::kathmandu(),
{
    let ghost g = tables::asia::kathmandu_rows();
    FixedTimespanSet::begin("Asia/Kathmandu", 20476, 0, "LMT", Ghost(g))
        .step(-1577943676, 19800, 0, "+0530", Ghost(g))
        .step(504901800, 20700, 0, "+0545", Ghost(g))
        .step(2147483647, 20700, 0, "+0545", Ghost(g))
        .finish(Ghost(g))
}

/// The zone `Asia/Katmandu`.
pub fn katmandu() -> (r: Tz)
    ensures
        r.wf(),
        r.zone_name() == "Asia/Katmandu"@,
        r.table() == tables::asia::katmandu(),
{
    let ghost g = tables::asia::katmandu_rows();
    FixedTimespanSet::begin("Asia/Katmandu", 20476, 0, "LMT", Ghost(g))
        .step(-1577943676, 19800, 0, "+0530", Ghost(g))
        .step(504901800, 20700, 0, "+0545", Ghost(g))
        .step(2147483647, 20700, 0, "+0545", Ghost(g))
        .finish(Ghost(g))
}

/// The zone `Asia/Khandyga`.
pub fn khandyga() -> (r: Tz)
    ensures
        r.wf(),
        r.zone_name() == "Asia/Khandyga"@,
        r.table() == tables::asia::khandyga(),
{
    let ghost g = tables::asia::khandyga_rows();
    FixedTimespanSet::begin("Asia/Khandyga", 32533, 0, "LMT", Ghost(g))
        .step(-1579424533, 28800, 0, "+08", Ghost(g))
        .step(-1247558400, 32400, 0, "+09", Ghost(g))
        .step(354898800, 32400, 3600, "+10", Ghost(g))
        .step(370706400, 32400, 0, "+09", Ghost(g))
        .step(386434800, 32400, 3600, "+10", Ghost(g))
        .step(402242400, 32400, 0, "+09", Ghost(g))
        .step(417970800, 32400, 3600, "+10", Ghost(g))
        .step(433778400, 32400, 0, "+09", Ghost(g))
        .step(449593200, 32400, 3600, "+10", Ghost(g))
        .step(465325200, 32400, 0, "+09", Ghost(g))
        .step(481050000, 32400, 3600, "+10", Ghost(g))
        .step(496774800, 32400, 0, "+09", Ghost(g))
        .step(512499600, 32400, 3600, "+10", Ghost(g))
        .step(528224400, 32400, 0, "+09", Ghost(g))
        .step(543949200, 32400, 3600, "+10", Ghost(g))
        .step(559674000, 32400, 0, "+09", Ghost(g))
        .step(575398800, 32400, 3600, "+10", Ghost(g))
        .step(591123600, 32400, 0, "+09", Ghost(g))
        .step(606848400, 32400, 3600, "+10", Ghost(g))
        .step(622573200, 32400, 0, "+09", Ghost(g))
        .step(638298000, 32400, 3600, "+10", Ghost(g))
        .step(654627600, 32400, 0, "+09", Ghost(g))
        .step(670352400, 28800, 3600, "+09", Ghost(g))
        .step(686080800, 28800, 0, "+08", Ghost(g))
        .step(695757600, 32400, 0, "+09", Ghost(g))
        .step(701802000, 32400, 3600, "+10", Ghost(g))
        .step(717526800, 32400, 0, "+09", Ghost(g))
        .step(733251600, 32400, 3600, "+10", Ghost(g))
        .step(748976400, 32400, 0, "+09", Ghost(g))
        .step(764701200, 32400, 3600, "+10", Ghost(g))
        .step(780426000, 32400, 0, "+09", Ghost(g))
        .step(796150800, 32400, 3600, "+10", Ghost(g))
        .step(811875600, 32400, 0, "+09", Ghost(g))
        .step(828205200, 32400, 3600, "+10", Ghost(g))
        .step(846349200, 32400, 0, "+09", Ghost(g))
        .step(859654800, 32400, 3600, "+10", Ghost(g))
        .step(877798800, 32400, 0, "+09", Ghost(g))
        .step(891104400, 32400, 3600, "+10", Ghost(g))
        .step(909248400, 32400, 0, "+09", Ghost(g))
        .step(922554000, 32400, 3600, "+10", Ghost(g))
        .step(941302800, 32400, 0, "+09", Ghost(g))
        .step(954003600, 32400, 3600, "+10", Ghost(g))
        .step(972752400, 32400, 0, "+09", Ghost(g))
        .step(985453200, 32400, 3600, "+10", Ghost(g))
        .step(1004202000, 32400, 0, "+09", Ghost(g))
        .step(1017507600, 32400, 3600, "+10", Ghost(g))
        .step(1035651600, 32400, 0, "+09", Ghost(g))
        .step(1048957200, 32400, 3600, "+10", Ghost(g))
        .step(1067101200, 32400, 0, "+09", Ghost(g))
        .step(1072882800, 36000, 0, "+10", Ghost(g))
        .step(1080403200, 36000, 3600, "+11", Ghost(g))
        .step(1099152000, 36000, 0, "+10", Ghost(g))
        .step(1111852800, 36000, 3600, "+11", Ghost(g))
        .step(1130601600, 36000, 0, "+10", Ghost(g))
        .step(1143302400, 36000, 3600, "+11", Ghost(g))
        .step(1162051200, 36000, 0, "+10", Ghost(g))
        .step(1174752000, 36000, 3600, "+11", Ghost(g))
        .step(1193500800, 36000, 0, "+10", Ghost(g))
        .step(1206806400, 36000, 3600, "+11", Ghost(g))
        .step(1224950400, 36000, 0, "+10", Ghost(g))
        .step(1238256000, 36000, 3600, "+11", Ghost(g))
        .step(1256400000, 36000, 0, "+10", Ghost(g))
        .step(1269705600, 36000, 3600, "+11", Ghost(g))
        .step(1288454400, 36000, 0, "+10", Ghost(g))
        .step(1301155200, 39600, 0, "+11", Ghost(g))
        .step(1315832400, 36000, 0, "+10", Ghost(g))
        .step(1414252800, 32400, 0, "+09", Ghost(g))
        .step(2147483647, 32400, 0, "+09", Ghost(g))
        .finish(Ghost(g))
}

/// The zone `Asia/Kolkata`.
pub fn kolkata() -> (r: Tz)
    ensures
        r.wf(),
        r.zone_name() == "Asia/Kolkata"@,
        r.table() == tables::asia::kolkata(),
{
    let ghost g = tables::asia::kolkata_rows();
    FixedTimespanSet::begin("Asia/Kolkata", 21208, 0, "LMT", Ghost(g))
        .step(-3645237208, 21200, 0, "HMT", Ghost(g))
        .step(-3155694800, 19270, 0, "MMT", Ghost(g))
        .step(-2019705670, 19800, 0, "IST", Ghost(g))
        .step(-891581400, 19800, 3600, "+0630", Ghost(g))
        .step(-872058600, 19800, 0, "IST", Ghost(g))
        .step(-862637400, 19800, 3600, "+0630", Ghost(g))
        .step(-764145000, 19800, 0, "IST", Ghost(g))
        .finish(Ghost(g))
}

/// The zone `Asia/Krasnoyarsk`.
pub fn krasnoyarsk() -> (r: Tz)
    ensures
        r.wf(),
        r.zone_name() == "Asia/Krasnoyarsk"@,
        r.table() == tables::asia::krasnoyarsk(),
{
    let ghost g = tables::asia::krasnoyarsk_rows();
    FixedTimespanSet::begin("Asia/Krasnoyarsk", 22286, 0, "LMT", Ghost(g))
        .step(-1577513486, 21600, 0, "+06", Ghost(g))
        .step(-1247551200, 25200, 0, "+07", Ghost(g))
        .step(354906000, 25200, 3600, "+08", Ghost(g))
        .step(370713600, 25200, 0, "+07", Ghost(g))
        .step(386442000, 25200, 3600, "+08", Ghost(g))
        .step(402249600, 25200, 0, "+07", Ghost(g))
        .step(417978000, 25200, 3600, "+08", Ghost(g))
        .step(433785600, 25200, 0, "+07", Ghost(g))
        .step(449600400, 25200, 3600, "+08", Ghost(g))
        .step(465332400, 25200, 0, "+07", Ghost(g))
        .step(481057200, 25200, 3600, "+08", Ghost(g))
        .step(496782000, 25200, 0, "+07", Ghost(g))
        .step(512506800, 25200, 3600, "+08", Ghost(g))
        .step(528231600, 25200, 0, "+07", Ghost(g))
        .step(543956400, 25200, 3600, "+08", Ghost(g))
        .step(559681200, 25200, 0, "+07", Ghost(g))
        .step(575406000, 25200, 3600, "+08", Ghost(g))
        .step(591130800, 25200, 0, "+07", Ghost(g))
        .step(606855600, 25200, 3600, "+08", Ghost(g))
        .step(622580400, 25200, 0, "+07", Ghost(g))
        .step(638305200, 25200, 3600, "+08", Ghost(g))
        .step(654634800, 25200, 0, "+07", Ghost(g))
        .step(670359600, 21600, 3600, "+07", Ghost(g))
        .step(686088000, 21600, 0, "+06", Ghost(g))
        .step(695764800, 25200, 0, "+07", Ghost(g))
        .step(701809200, 25200, 3600, "+08", Ghost(g))
        .step(717534000, 25200, 0, "+07", Ghost(g))
        .step(733258800, 25200, 3600, "+08", Ghost(g))
        .step(748983600, 25200, 0, "+07", Ghost(g))
        .step(764708400, 25200, 3600, "+08", Ghost(g))
        .step(780433200, 25200, 0, "+07", Ghost(g))
        .step(796158000, 25200, 3600, "+08", Ghost(g))
        .step(811882800, 25200, 0, "+07", Ghost(g))
        .step(828212400, 25200, 3600, "+08", Ghost(g))
        .step(846356400, 25200, 0, "+07", Ghost(g))
        .step(859662000, 25200, 3600, "+08", Ghost(g))
        .step(877806000, 25200, 0, "+07", Ghost(g))
        .step(891111600, 25200, 3600, "+08", Ghost(g))
        .step(909255600, 25200, 0, "+07", Ghost(g))
        .step(922561200, 25200, 3600, "+08", Ghost(g))
        .step(941310000, 25200, 0, "+07", Ghost(g))
        .step(954010800, 25200, 3600, "+08", Ghost(g))
        .step(972759600, 25200, 0, "+07", Ghost(g))
        .step(985460400, 25200, 3600, "+08", Ghost(g))
        .step(1004209200, 25200, 0, "+07", Ghost(g))
        .step(1017514800, 25200, 3600, "+08", Ghost(g))
        .step(1035658800, 25200, 0, "+07", Ghost(g))
        .step(1048964400, 25200, 3600, "+08", Ghost(g))
        .step(1067108400, 25200, 0, "+07", Ghost(g))
        .step(1080414000, 25200, 3600, "+08", Ghost(g))
        .step(1099162800, 25200, 0, "+07", Ghost(g))
        .step(1111863600, 25200, 3600, "+08", Ghost(g))
        .step(1130612400, 25200, 0, "+07", Ghost(g))
        .step(1143313200, 25200, 3600, "+08", Ghost(g))
        .step(1162062000, 25200, 0, "+07", Ghost(g))
        .step(1174762800, 25200, 3600, "+08", Ghost(g))
        .step(1193511600, 25200, 0, "+07", Ghost(g))
        .step(1206817200, 25200, 3600, "+08", Ghost(g))
        .step(1224961200, 25200, 0, "+07", Ghost(g))
        .step(1238266800, 25200, 3600, "+08", Ghost(g))
        .step(1256410800, 25200, 0, "+07", Ghost(g))
        .step(1269716400, 25200, 3600, "+08", Ghost(g))
        .step(1288465200, 25200, 0, "+07", Ghost(g))
        .step(1301166000, 28800, 0, "+08", Ghost(g))
        .step(1414260000, 25200, 0, "+07", Ghost(g))
        .step(2147483647, 25200, 0, "+07", Ghost(g))
        .finish(Ghost(g))
}

/// The zone `Asia/Kuala_Lumpur`.
pub fn kuala_lumpur() -> (r: Tz)
    ensures
        r.wf(),
        r.zone_name() == "Asia/Kuala_Lumpur"@,
        r.table() == tables::asia::kuala_lumpur(),
{
    let ghost g = tables::asia::kuala_lumpur_rows();
    FixedTimespanSet::begin("Asia/Kuala_Lumpur", 24406, 0, "LMT", Ghost(g))
        .step(-2177477206, 24925, 0, "SMT", Ghost(g))
        .step(-2038200925, 25200, 0, "+07", Ghost(g))
        .step(-1167634800, 25200, 1200, "+0720", Ghost(g))
        .step(-1073028000, 26400, 0, "+0720", Ghost(g))
        .step(-894180000, 27000, 0, "+0730", Ghost(g))
        .step(-879665400, 32400, 0, "+09", Ghost(g))
        .step(-767005200, 27000, 0, "+0730", Ghost(g))
        .step(378662400, 28800, 0, "+08", Ghost(g))
        .step(2147483647, 28800, 0, "+08", Ghost(g))
        .finish(Ghost(g))
}

/// The zone `Asia/Kuching`.
pub fn kuching() -> (r: Tz)
    ensures
        r.wf(),
        r.zone_name() == "Asia/Kuching"@,
        r.table() == tables::asia::kuching(),
{
    let ghost g = tables::asia::kuching_rows();
    FixedTimespanSet::begin("Asia/Kuching", 26480, 0, "LMT", Ghost(g))
        .step(-1383463280, 27000, 0, "+0730", Ghost(g))
        .step(-1167636600, 28800, 0, "+08", Ghost(g))
        .step(-1082448000, 28800, 1200, "+0820", Ghost(g))
        .step(-1074586800, 28800, 0, "+08", Ghost(g))
        .step(-1050825600, 28800, 1200, "+0820", Ghost(g))
        .step(-1042964400, 28800, 0, "+08", Ghost(g))
        .step(-1019289600, 28800, 1200, "+0820", Ghost(g))
        .step(-1011428400, 28800, 0, "+08", Ghost(g))
        .step(-987753600, 28800, 1200, "+0820", Ghost(g))
        .step(-979892400, 28800, 0, "+08", Ghost(g))
        .step(-956217600, 28800, 1200, "+0820", Ghost(g))
        .step(-948356400, 28800, 0, "+08", Ghost(g))
        .step(-924595200, 28800, 1200, "+0820", Ghost(g))
        .step(-916734000, 28800, 0, "+08", Ghost(g))
        .step(-893059200, 28800, 1200, "+0820", Ghost(g))
        .step(-885198000, 28800, 0, "+08", Ghost(g))
        .step(-879667200, 32400, 0, "+09", Ghost(g))
        .step(-767005200, 28800, 0, "+08", Ghost(g))
        .step(2147483647, 28800, 0, "+08", Ghost(g))
        .finish(Ghost(g))
}

/// The zone `Asia/Kuwait`.
pub fn kuwait() -> (r: Tz)
    ensures
        r.wf(),
        r.zone_name() == "Asia/Kuwait"@,
        r.table() == tables::asia::kuwait(),
{
    let ghost g = tables::asia::kuwait_rows();
    FixedTimespanSet::begin("Asia/Kuwait", 11516, 0, "LMT", Ghost(g))
        .step(-631163516, 10800, 0, "+03", Ghost(g))
        .step(2147483647, 10800, 0, "+03", Ghost(g))
        .finish(Ghost(g))
}

/// The zone `Asia/Macao`.
pub fn macao() -> (r: Tz)
    ensures
        r.wf(),
        r.zone_name() == "Asia/Macao"@,
        r.table() == tables::asia::macao(),
{
    let ghost g = tables::asia::macao_rows();
    FixedTimespanSet::begin("Asia/Macao", 27250, 0, "LMT", Ghost(g))
        .step(-2056692850, 28800, 0, "CST", Ghost(g))
        .step(-884509200, 32400, 0, "+09", Ghost(g))
        .step(-873280800, 32400, 3600, "+10", Ghost(g))
        .step(-855918000, 32400, 0, "+09", Ghost(g))
        .step(-841744800, 32400, 3600, "+10", Ghost(g))
        .step(-828529200, 32400, 0, "+09", Ghost(g))
        .step(-765363600, 28800, 0, "CST", Ghost(g))
        .step(-747046800, 28800, 3600, "CDT", Ghost(g))
        .step(-733827600, 28800, 0, "CST", Ghost(g))
        .step(-716461200, 28800, 3600, "CDT", Ghost(g))
        .step(-697021200, 28800, 0, "CST", Ghost(g))
        .step(-683715600, 28800, 3600, "CDT", Ghost(g))
        .step(-667990800, 28800, 0, "CST", Ghost(g))
        .step(-654771600, 28800, 3600, "CDT", Ghost(g))
        .step(-636627600, 28800, 0, "CST", Ghost(g))
        .step(-623322000, 28800, 3600, "CDT", Ghost(g))
        .step(-605178000, 28800, 0, "CST", Ghost(g))
        .step(-591872400, 28800, 3600, "CDT", Ghost(g))
        .step(-573642000, 28800, 0, "CST", Ghost(g))
        .step(-559818000, 28800, 3600, "CDT", Ghost(g))
        .step(-541674000, 28800, 0, "CST", Ghost(g))
        .step(-528368400, 28800, 3600, "CDT", Ghost(g))
        .step(-510224400, 28800, 0, "CST", Ghost(g))
        .step(-498128400, 28800, 3600, "CDT", Ghost(g))
        .step(-478774800, 28800, 0, "CST", Ghost(g))
        .step(-466678800, 28800, 3600, "CDT", Ghost(g))
        .step(-446720400, 28800, 0, "CST", Ghost(g))
        .step(-435229200, 28800, 3600, "CDT", Ghost(g))
        .step(-415258200, 28800, 0, "CST", Ghost(g))
        .step(-403158600, 28800, 3600, "CDT", Ghost(g))
        .step(-383808600, 28800, 0, "CST", Ghost(g))
        .step(-371709000, 28800, 3600, "CDT", Ghost(g))
        .step(-352359000, 28800, 0, "CST", Ghost(g))
        .step(-340259400, 28800, 3600, "CDT", Ghost(g))
        .step(-320909400, 28800, 0, "CST", Ghost(g))
        .step(-308809800, 28800, 3600, "CDT", Ghost(g))
        .step(-288855000, 28800, 0, "CST", Ghost(g))
        .step(-277360200, 28800, 3600, "CDT", Ghost(g))
        .step(-257405400, 28800, 0, "CST", Ghost(g))
        .step(-245910600, 28800, 3600, "CDT", Ghost(g))
        .step(-225955800, 28800, 0, "CST", Ghost(g))
        .step(-213856200, 28800, 3600, "CDT", Ghost(g))
        .step(-194506200, 28800, 0, "CST", Ghost(g))
        .step(-182406600, 28800, 3600, "CDT", Ghost(g))
        .step(-163056600, 28800, 0, "CST", Ghost(g))
        .step(-148537800, 28800, 3600, "CDT", Ghost(g))
        .step(-132820200, 28800, 0, "CST", Ghost(g))
        .step(-117088200, 28800, 3600, "CDT", Ghost(g))
        .step(-101370600, 28800, 0, "CST", Ghost(g))
        .step(-85638600, 28800, 3600, "CDT", Ghost(g))
        .step(-69312600, 28800, 0, "CST", Ghost(g))
        .step(-53584200, 28800, 3600, "CDT", Ghost(g))
        .step(-37863000, 28800, 0, "CST", Ghost(g))
        .step(-22134600, 28800, 3600, "CDT", Ghost(g))
        .step(-6413400, 28800, 0, "CST", Ghost(g))
        .step(9315000, 28800, 3600, "CDT", Ghost(g))
        .step(25036200, 28800, 0, "CST", Ghost(g))
        .step(40764600, 28800, 3600, "CDT", Ghost(g))
        .step(56485800, 28800, 0, "CST", Ghost(g))
        .step(72214200, 28800, 3600, "CDT", Ghost(g))
        .step(88540200, 28800, 0, "CST", Ghost(g))
        .step(104268600, 28800, 3600, "CDT", Ghost(g))
        .step(119989800, 28800, 0, "CST", Ghost(g))
        .step(126041400, 28800, 3600, "CDT", Ghost(g))
        .step(151439400, 28800, 0, "CST", Ghost(g))
        .step(167167800, 28800, 3600, "CDT", Ghost(g))
        .step(182889000, 28800, 0, "CST", Ghost(g))
        .step(198617400, 28800, 3600, "CDT", Ghost(g))
        .step(214338600, 28800, 0, "CST", Ghost(g))
        .step(295385400, 28800, 3600, "CDT", Ghost(g))
        .step(309292200, 28800, 0, "CST", Ghost(g))
        .finish(Ghost(g))
}

/// The zone `Asia/Macau`.
pub fn macau() -> (r: Tz)
    ensures
        r.wf(),
        r.zone_name() == "Asia/Macau"@,
        r.table() == tables::asia::macau(),
{
    let ghost g = tables::asia::macau_rows();
    FixedTimespanSet::begin("Asia/Macau", 27250, 0, "LMT", Ghost(g))
        .step(-2056692850, 28800, 0, "CST", Ghost(g))
        .step(-884509200, 32400, 0, "+09", Ghost(g))
        .step(-873280800, 32400, 3600, "+10", Ghost(g))
        .step(-855918000, 32400, 0, "+09", Ghost(g))
        .step(-841744800, 32400, 3600, "+10", Ghost(g))
        .step(-828529200, 32400, 0, "+09", Ghost(g))
        .step(-765363600, 28800, 0, "CST", Ghost(g))
        .step(-747046800, 28800, 3600, "CDT", Ghost(g))
        .step(-733827600, 28800, 0, "CST", Ghost(g))
        .step(-716461200, 28800, 3600, "CDT", Ghost(g))
        .step(-697021200, 28800, 0, "CST", Ghost(g))
        .step(-683715600, 28800, 3600, "CDT", Ghost(g))
        .step(-667990800, 28800, 0, "CST", Ghost(g))
        .step(-654771600, 28800, 3600, "CDT", Ghost(g))
        .step(-636627600, 28800, 0, "CST", Ghost(g))
        .step(-623322000, 28800, 3600, "CDT", Ghost(g))
        .step(-605178000, 28800, 0, "CST", Ghost(g))
        .step(-591872400, 28800, 3600, "CDT", Ghost(g))
        .step(-573642000, 28800, 0, "CST", Ghost(g))
        .step(-559818000, 28800, 3600, "CDT", Ghost(g))
        .step(-541674000, 28800, 0, "CST", Ghost(g))
        .step(-528368400, 28800, 3600, "CDT", Ghost(g))
        .step(-510224400, 28800, 0, "CST", Ghost(g))
        .step(-498128400, 28800, 3600, "CDT", Ghost(g))
        .step(-478774800, 28800, 0, "CST", Ghost(g))
        .step(-466678800, 28800, 3600, "CDT", Ghost(g))
        .step(-446720400, 28800, 0, "CST", Ghost(g))
        .step(-435229200, 28800, 3600, "CDT", Ghost(g))
        .step(-415258200, 28800, 0, "CST", Ghost(g))
        .step(-403158600, 28800, 3600, "CDT", Ghost(g))
        .step(-383808600, 28800, 0, "CST", Ghost(g))
        .step(-371709000, 28800, 3600, "CDT", Ghost(g))
        .step(-352359000, 28800, 0, "CST", Ghost(g))
        .step(-340259400, 28800, 3600, "CDT", Ghost(g))
        .step(-320909400, 28800, 0, "CST", Ghost(g))
        .step(-308809800, 28800, 3600, "CDT", Ghost(g))
        .step(-288855000, 28800, 0, "CST", Ghost(g))
        .step(-277360200, 28800, 3600, "CDT", Ghost(g))
        .step(-257405400, 28800, 0, "CST", Ghost(g))
        .step(-245910600, 28800, 3600, "CDT", Ghost(g))
        .step(-225955800, 28800, 0, "CST", Ghost(g))
        .step(-213856200, 28800, 3600, "CDT", Ghost(g))
        .step(-194506200, 28800, 0, "CST", Ghost(g))
        .step(-182406600, 28800, 3600, "CDT", Ghost(g))
        .step(-163056600, 28800, 0, "CST", Ghost(g))
        .step(-148537800, 28800, 3600, "CDT", Ghost(g))
        .step(-132820200, 28800, 0, "CST", Ghost(g))
        .step(-117088200, 28800, 3600, "CDT", Ghost(g))
        .step(-101370600, 28800, 0, "CST", Ghost(g))
        .step(-85638600, 28800, 3600, "CDT", Ghost(g))
        .step(-69312600, 28800, 0, "CST", Ghost(g))
        .step(-53584200, 28800, 3600, "CDT", Ghost(g))
        .step(-37863000, 28800, 0, "CST", Ghost(g))
        .step(-22134600, 28800, 3600, "CDT", Ghost(g))
        .step(-6413400, 28800, 0, "CST", Ghost(g))
        .step(9315000, 28800, 3600, "CDT", Ghost(g))
        .step(25036200, 28800, 0, "CST", Ghost(g))
        .step(40764600, 28800, 3600, "CDT", Ghost(g))
        .step(56485800, 28800, 0, "CST", Ghost(g))
        .step(72214200, 28800, 3600, "CDT", Ghost(g))
        .step(88540200, 28800, 0, "CST", Ghost(g))
        .step(104268600, 28800, 3600, "CDT", Ghost(g))
        .step(119989800, 28800, 0, "CST", Ghost(g))
        .step(126041400, 28800, 3600, "CDT", Ghost(g))
        .step(151439400, 28800, 0, "CST", Ghost(g))
        .step(167167800, 28800, 3600, "CDT", Ghost(g))
        .step(182889000, 28800, 0, "CST", Ghost(g))
        .step(198617400, 28800, 3600, "CDT", Ghost(g))
        .step(214338600, 28800, 0, "CST", Ghost(g))
        .step(295385400, 28800, 3600, "CDT", Ghost(g))
        .step(309292200, 28800, 0, "CST", Ghost(g))
        .finish(Ghost(g))
}

/// The zone `Asia/Magadan`.
pub fn magadan() -> (r: Tz)
    ensures
        r.wf(),
        r.zone_name() == "Asia/Magadan"@,
        r.table() == tables::asia::magadan(),
{
    let ghost g = tables::asia::magadan_rows();
    FixedTimespanSet::begin("Asia/Magadan", 36192, 0, "LMT", Ghost(g))
        .step(-1441188192, 36000, 0, "+10", Ghost(g))
        .step(-1247565600, 39600, 0, "+11", Ghost(g))
        .step(354891600, 39600, 3600, "+12", Ghost(g))
        .step(370699200, 39600, 0, "+11", Ghost(g))
        .step(386427600, 39600, 3600, "+12", Ghost(g))
        .step(402235200, 39600, 0, "+11", Ghost(g))
        .step(417963600, 39600, 3600, "+12", Ghost(g))
        .step(433771200, 39600, 0, "+11", Ghost(g))
        .step(449586000, 39600, 3600, "+12", Ghost(g))
        .step(465318000, 39600, 0, "+11", Ghost(g))
        .step(481042800, 39600, 3600, "+12", Ghost(g))
        .step(496767600, 39600, 0, "+11", Ghost(g))
        .step(512492400, 39600, 3600, "+12", Ghost(g))
        .step(528217200, 39600, 0, "+11", Ghost(g))
        .step(543942000, 39600, 3600, "+12", Ghost(g))
        .step(559666800, 39600, 0, "+11", Ghost(g))
        .step(575391600, 39600, 3600, "+12", Ghost(g))
        .step(591116400, 39600, 0, "+11", Ghost(g))
        .step(606841200, 39600, 3600, "+12", Ghost(g))
        .step(622566000, 39600, 0, "+11", Ghost(g))
        .step(638290800, 39600, 3600, "+12", Ghost(g))
        .step(654620400, 39600, 0, "+11", Ghost(g))
        .step(670345200, 36000, 3600, "+11", Ghost(g))
        .step(686073600, 36000, 0, "+10", Ghost(g))
        .step(695750400, 39600, 0, "+11", Ghost(g))
        .step(701794800, 39600, 3600, "+12", Ghost(g))
        .step(717519600, 39600, 0, "+11", Ghost(g))
        .step(733244400, 39600, 3600, "+12", Ghost(g))
        .step(748969200, 39600, 0, "+11", Ghost(g))
        .step(764694000, 39600, 3600, "+12", Ghost(g))
        .step(780418800, 39600, 0, "+11", Ghost(g))
        .step(796143600, 39600, 3600, "+12", Ghost(g))
        .step(811868400, 39600, 0, "+11", Ghost(g))
        .step(828198000, 39600, 3600, "+12", Ghost(g))
        .step(846342000, 39600, 0, "+11", Ghost(g))
        .step(859647600, 39600, 3600, "+12", Ghost(g))
        .step(877791600, 39600, 0, "+11", Ghost(g))
        .step(891097200, 39600, 3600, "+12", Ghost(g))
        .step(909241200, 39600, 0, "+11", Ghost(g))
        .step(922546800, 39600, 3600, "+12", Ghost(g))
        .step(941295600, 39600, 0, "+11", Ghost(g))
        .step(953996400, 39600, 3600, "+12", Ghost(g))
        .step(972745200, 39600, 0, "+11", Ghost(g))
        .step(985446000, 39600, 3600, "+12", Ghost(g))
        .step(1004194800, 39600, 0, "+11", Ghost(g))
        .step(1017500400, 39600, 3600, "+12", Ghost(g))
        .step(1035644400, 39600, 0, "+11", Ghost(g))
        .step(1048950000, 39600, 3600, "+12", Ghost(g))
        .step(1067094000, 39600, 0, "+11", Ghost(g))
        .step(1080399600, 39600, 3600, "+12", Ghost(g))
        .step(1099148400, 39600, 0, "+11", Ghost(g))
        .step(1111849200, 39600, 3600, "+12", Ghost(g))
        .step(1130598000, 39600, 0, "+11", Ghost(g))
        .step(1143298800, 39600, 3600, "+12", Ghost(g))
        .step(1162047600, 39600, 0, "+11", Ghost(g))
        .step(1174748400, 39600, 3600, "+12", Ghost(g))
        .step(1193497200, 39600, 0, "+11", Ghost(g))
        .step(1206802800, 39600, 3600, "+12", Ghost(g))
        .step(1224946800, 39600, 0, "+11", Ghost(g))
        .step(1238252400, 39600, 3600, "+12", Ghost(g))
        .step(1256396400, 39600, 0, "+11", Ghost(g))
        .step(1269702000, 39600, 3600, "+12", Ghost(g))
        .step(1288450800, 39600, 0, "+11", Ghost(g))
        .step(1301151600, 43200, 0, "+12", Ghost(g))
        .step(1414245600, 36000, 0, "+10", Ghost(g))
        .step(1461427200, 39600, 0, "+11", Ghost(g))
        .step(2147483647, 39600, 0, "+11", Ghost(g))
        .finish(Ghost(g))
}

/// The zone `Asia/Makassar`.
pub fn makassar() -> (r: Tz)
    ensures
        r.wf(),
        r.zone_name() == "Asia/Makassar"@,
        r.table() == tables::asia::makassar(),
{
    let ghost g = tables::asia::makassar_rows();
    FixedTimespanSet::begin("Asia/Makassar", 28656, 0, "LMT", Ghost(g))
        .step(-1577951856, 28656, 0, "MMT", Ghost(g))
        .step(-1172908656, 28800, 0, "+08", Ghost(g))
        .step(-880272000, 32400, 0, "+09", Ghost(g))
        .step(-766054800, 28800, 0, "WITA", Ghost(g))
        .finish(Ghost(g))
}

/// The zone `Asia/Manila`.
pub fn manila() -> (r: Tz)
    ensures
        r.wf(),
        r.zone_name() == "Asia/Manila"@,
        r.table() == tables::asia::manila(),
{
    let ghost g = tables::asia::manila_rows();
    FixedTimespanSet::begin("Asia/Manila", -57368, 0, "LMT", Ghost(g))
        .step(-3944621032, 29032, 0, "LMT", Ghost(g))
        .step(-2219083200, 28800, 0, "PST", Ghost(g))
        .step(-1046678400, 28800, 3600, "PDT", Ghost(g))
        .step(-1040115600, 28800, 0, "PST", Ghost(g))
        .step(-885024000, 28800, 3600, "PDT", Ghost(g))
        .step(-880016400, 32400, 0, "JST", Ghost(g))
        .step(-783594000, 28800, 3600, "PDT", Ghost(g))
        .step(-760093200, 28800, 0, "PST", Ghost(g))
        .step(-496224000, 28800, 3600, "PDT", Ghost(g))
        .step(-491562000, 28800, 0, "PST", Ghost(g))
        .step(228326400, 28800, 3600, "PDT", Ghost(g))
        .step(243702000, 28800, 0, "PST", Ghost(g))
        .step(643219200, 28800, 3600, "PDT", Ghost(g))
        .step(649177200, 28800, 0, "PST", Ghost(g))
        .finish(Ghost(g))
}

/// The zone `Asia/Muscat`.
pub fn muscat() -> (r: Tz)
    ensures
        r.wf(),
        r.zone_name() == "Asia/Muscat"@,
        r.table() == tables::asia::muscat(),
{
    let ghost g = tables::asia::muscat_rows();
    FixedTimespanSet::begin("Asia/Muscat", 14064, 0, "LMT", Ghost(g))
        .step(-1577937264, 14400, 0, "+04", Ghost(g))
        .step(2147483647, 14400, 0, "+04", Ghost(g))
        .finish(Ghost(g))
}

/// The zone `Asia/Nicosia`.
pub fn nicosia() -> (r: Tz)
    ensures
        r.wf(),
        r.zone_name() == "Asia/Nicosia"@,
        r.table() == tables::asia::nicosia(),
{
    let ghost g = tables::asia::nicosia_rows();
    FixedTimespanSet::begin("Asia/Nicosia", 8008, 0, "LMT", Ghost(g))
        .step(-1518920008, 7200, 0, "EET", Ghost(g))
        .step(166572000, 7200, 3600, "EEST", Ghost(g))
        .step(182293200, 7200, 0, "EET", Ghost(g))
        .step(200959200, 7200, 3600, "EEST", Ghost(g))
        .step(213829200, 7200, 0, "EET", Ghost(g))
        .step(228866400, 7200, 3600, "EEST", Ghost(g))
        .step(243982800, 7200, 0, "EET", Ghost(g))
        .step(260316000, 7200, 3600, "EEST", Ghost(g))
        .step(276123600, 7200, 0, "EET", Ghost(g))
        .step(291765600, 7200, 3600, "EEST", Ghost(g))
        .step(307486800, 7200, 0, "EET", Ghost(g))
        .step(323820000, 7200, 3600, "EEST", Ghost(g))
        .step(338936400, 7200, 0, "EET", Ghost(g))
        .step(354664800, 7200, 3600, "EEST", Ghost(g))
        .step(370386000, 7200, 0, "EET", Ghost(g))
        .step(386114400, 7200, 3600, "EEST", Ghost(g))
        .step(401835600, 7200, 0, "EET", Ghost(g))
        .step(417564000, 7200, 3600, "EEST", Ghost(g))
        .step(433285200, 7200, 0, "EET", Ghost(g))
        .step(449013600, 7200, 3600, "EEST", Ghost(g))
        .step(465339600, 7200, 0, "EET", Ghost(g))
        .step(481068000, 7200, 3600, "EEST", Ghost(g))
        .step(496789200, 7200, 0, "EET", Ghost(g))
        .step(512517600, 7200, 3600, "EEST", Ghost(g))
        .step(528238800, 7200, 0, "EET", Ghost(g))
        .step(543967200, 7200, 3600, "EEST", Ghost(g))
        .step(559688400, 7200, 0, "EET", Ghost(g))
        .step(575416800, 7200, 3600, "EEST", Ghost(g))
        .step(591138000, 7200, 0, "EET", Ghost(g))
        .step(606866400, 7200, 3600, "EEST", Ghost(g))
        .step(622587600, 7200, 0, "EET", Ghost(g))
        .step(638316000, 7200, 3600, "EEST", Ghost(g))
        .step(654642000, 7200, 0, "EET", Ghost(g))
        .step(670370400, 7200, 3600, "EEST", Ghost(g))
        .step(686091600, 7200, 0, "EET", Ghost(g))
        .step(701820000, 7200, 3600, "EEST", Ghost(g))
        .step(717541200, 7200, 0, "EET", Ghost(g))
        .step(733269600, 7200, 3600, "EEST", Ghost(g))
        .step(748990800, 7200, 0, "EET", Ghost(g))
        .step(764719200, 7200, 3600, "EEST", Ghost(g))
        .step(780440400, 7200, 0, "EET", Ghost(g))
        .step(796168800, 7200, 3600, "EEST", Ghost(g))
        .step(811890000, 7200, 0, "EET", Ghost(g))
        .step(828223200, 7200, 3600, "EEST", Ghost(g))
        .step(843944400, 7200, 0, "EET", Ghost(g))
        .step(859672800, 7200, 3600, "EEST", Ghost(g))
        .step(875394000, 7200, 0, "EET", Ghost(g))
        .step(891122400, 7200, 3600, "EEST", Ghost(g))
        .step(909277200, 7200, 0, "EET", Ghost(g))
        .step(922582800, 7200, 3600, "EEST", Ghost(g))
        .step(941331600, 7200, 0, "EET", Ghost(g))
        .step(954032400, 7200, 3600, "EEST", Ghost(g))
        .step(972781200, 7200, 0, "EET", Ghost(g))
        .step(985482000, 7200, 3600, "EEST", Ghost(g))
        .step(1004230800, 7200, 0, "EET", Ghost(g))
        .step(1017536400, 7200, 3600, "EEST", Ghost(g))
        .step(1035680400, 7200, 0, "EET", Ghost(g))
        .step(1048986000, 7200, 3600, "EEST", Ghost(g))
        .step(1067130000, 7200, 0, "EET", Ghost(g))
        .step(1080435600, 7200, 3600, "EEST", Ghost(g))
        .step(1099184400, 7200, 0, "EET", Ghost(g))
        .step(1111885200, 7200, 3600, "EEST", Ghost(g))
        .step(1130634000, 7200, 0, "EET", Ghost(g))
        .step(1143334800, 7200, 3600, "EEST", Ghost(g))
        .step(1162083600, 7200, 0, "EET", Ghost(g))
        .step(1174784400, 7200, 3600, "EEST", Ghost(g))
        .step(1193533200, 7200, 0, "EET", Ghost(g))
        .step(1206838800, 7200, 3600, "EEST", Ghost(g))
        .step(1224982800, 7200, 0, "EET", Ghost(g))
        .step(1238288400, 7200, 3600, "EEST", Ghost(g))
        .step(1256432400, 7200, 0, "EET", Ghost(g))
        .step(1269738000, 7200, 3600, "EEST", Ghost(g))
        .step(1288486800, 7200, 0, "EET", Ghost(g))
        .step(1301187600, 7200, 3600, "EEST", Ghost(g))
        .step(1319936400, 7200, 0, "EET", Ghost(g))
        .step(1332637200, 7200, 3600, "EEST", Ghost(g))
        .step(1351386000, 7200, 0, "EET", Ghost(g))
        .step(1364691600, 7200, 3600, "EEST", Ghost(g))
        .step(1382835600, 7200, 0, "EET", Ghost(g))
        .step(1396141200, 7200, 3600, "EEST", Ghost(g))
        .step(1414285200, 7200, 0, "EET", Ghost(g))
        .step(1427590800, 7200, 3600, "EEST", Ghost(g))
        .step(1445734800, 7200, 0, "EET", Ghost(g))
        .step(1459040400, 7200, 3600, "EEST", Ghost(g))
        .step(1477789200, 7200, 0, "EET", Ghost(g))
        .step(1490490000, 7200, 3600, "EEST", Ghost(g))
        .step(1509238800, 7200, 0, "EET", Ghost(g))
        .step(1521939600, 7200, 3600, "EEST", Ghost(g))
        .step(1540688400, 7200, 0, "EET", Ghost(g))
        .step(1553994000, 7200, 3600, "EEST", Ghost(g))
        .step(1572138000, 7200, 0, "EET", Ghost(g))
        .step(1585443600, 7200, 3600, "EEST", Ghost(g))
        .step(1603587600, 7200, 0, "EET", Ghost(g))
        .step(1616893200, 7200, 3600, "EEST", Ghost(g))
        .step(1635642000, 7200, 0, "EET", Ghost(g))
        .step(1648342800, 7200, 3600, "EEST", Ghost(g))
        .step(1667091600, 7200, 0, "EET", Ghost(g))
        .step(1679792400, 7200, 3600, "EEST", Ghost(g))
        .step(1698541200, 7200, 0, "EET", Ghost(g))
        .step(1711846800, 7200, 3600, "EEST", Ghost(g))
        .step(1729990800, 7200, 0, "EET", Ghost(g))
        .step(1743296400, 7200, 3600, "EEST", Ghost(g))
        .step(1761440400, 7200, 0, "EET", Ghost(g))
        .step(1774746000, 7200, 3600, "EEST", Ghost(g))
        .step(1792890000, 7200, 0, "EET", Ghost(g))
        .step(1806195600, 7200, 3600, "EEST", Ghost(g))
        .step(1824944400, 7200, 0, "EET", Ghost(g))
        .step(1837645200, 7200, 3600, "EEST", Ghost(g))
        .step(1856394000, 7200, 0, "EET", Ghost(g))
        .step(1869094800, 7200, 3600, "EEST", Ghost(g))
        .step(1887843600, 7200, 0, "EET", Ghost(g))
        .step(1901149200, 7200, 3600, "EEST", Ghost(g))
        .step(1919293200, 7200, 0, "EET", Ghost(g))
        .step(1932598800, 7200, 3600, "EEST", Ghost(g))
        .step(1950742800, 7200, 0, "EET", Ghost(g))
        .step(1964048400, 7200, 3600, "EEST", Ghost(g))
        .step(1982797200, 7200, 0, "EET", Ghost(g))
        .step(1995498000, 7200, 3600, "EEST", Ghost(g))
        .step(2014246800, 7200, 0, "EET", Ghost(g))
        .step(2026947600, 7200, 3600, "EEST", Ghost(g))
        .step(2045696400, 7200, 0, "EET", Ghost(g))
        .step(2058397200, 7200, 3600, "EEST", Ghost(g))
        .step(2077146000, 7200, 0, "EET", Ghost(g))
        .step(2090451600, 7200, 3600, "EEST", Ghost(g))
        .step(2108595600, 7200, 0, "EET", Ghost(g))
        .step(2121901200, 7200, 3600, "EEST", Ghost(g))
        .step(2140045200, 7200, 0, "EET", Ghost(g))
        .finish(Ghost(g))
}

/// The zone `Asia/Novokuznetsk`.
pub fn novokuznetsk() -> (r: Tz)
    ensures
        r.wf(),
        r.zone_name() == "Asia/Novokuznetsk"@,
        r.table() == tables::asia::novokuznetsk(),
{
    let ghost g = tables::asia::novokuznetsk_rows();
    FixedTimespanSet::begin("Asia/Novokuznetsk", 20928, 0, "LMT", Ghost(g))
        .step(-1441259328, 21600, 0, "+06", Ghost(g))
        .step(-1247551200, 25200, 0, "+07", Ghost(g))
        .step(354906000, 25200, 3600, "+08", Ghost(g))
        .step(370713600, 25200, 0, "+07", Ghost(g))
        .step(386442000, 25200, 3600, "+08", Ghost(g))
        .step(402249600, 25200, 0, "+07", Ghost(g))
        .step(417978000, 25200, 3600, "+08", Ghost(g))
        .step(433785600, 25200, 0, "+07", Ghost(g))
        .step(449600400, 25200, 3600, "+08", Ghost(g))
        .step(465332400, 25200, 0, "+07", Ghost(g))
        .step(481057200, 25200, 3600, "+08", Ghost(g))
        .step(496782000, 25200, 0, "+07", Ghost(g))
        .step(512506800, 25200, 3600, "+08", Ghost(g))
        .step(528231600, 25200, 0, "+07", Ghost(g))
        .step(543956400, 25200, 3600, "+08", Ghost(g))
        .step(559681200, 25200, 0, "+07", Ghost(g))
        .step(575406000, 25200, 3600, "+08", Ghost(g))
        .step(591130800, 25200, 0, "+07", Ghost(g))
        .step(606855600, 25200, 3600, "+08", Ghost(g))
        .step(622580400, 25200, 0, "+07", Ghost(g))
        .step(638305200, 25200, 3600, "+08", Ghost(g))
        .step(654634800, 25200, 0, "+07", Ghost(g))
        .step(670359600, 21600, 3600, "+07", Ghost(g))
        .step(686088000, 21600, 0, "+06", Ghost(g))
        .step(695764800, 25200, 0, "+07", Ghost(g))
        .step(701809200, 25200, 3600, "+08", Ghost(g))
        .step(717534000, 25200, 0, "+07", Ghost(g))
        .step(733258800, 25200, 3600, "+08", Ghost(g))
        .step(748983600, 25200, 0, "+07", Ghost(g))
        .step(764708400, 25200, 3600, "+08", Ghost(g))
        .step(780433200, 25200, 0, "+07", Ghost(g))
        .step(796158000, 25200, 3600, "+08", Ghost(g))
        .step(811882800, 25200, 0, "+07", Ghost(g))
        .step(828212400, 25200, 3600, "+08", Ghost(g))
        .step(846356400, 25200, 0, "+07", Ghost(g))
        .step(859662000, 25200, 3600, "+08", Ghost(g))
        .step(877806000, 25200, 0, "+07", Ghost(g))
        .step(891111600, 25200, 3600, "+08", Ghost(g))
        .step(909255600, 25200, 0, "+07", Ghost(g))
        .step(922561200, 25200, 3600, "+08", Ghost(g))
        .step(941310000, 25200, 0, "+07", Ghost(g))
        .step(954010800, 25200, 3600, "+08", Ghost(g))
        .step(972759600, 25200, 0, "+07", Ghost(g))
        .step(985460400, 25200, 3600, "+08", Ghost(g))
        .step(1004209200, 25200, 0, "+07", Ghost(g))
        .step(1017514800, 25200, 3600, "+08", Ghost(g))
        .step(1035658800, 25200, 0, "+07", Ghost(g))
        .step(1048964400, 25200, 3600, "+08", Ghost(g))
        .step(1067108400, 25200, 0, "+07", Ghost(g))
        .step(1080414000, 25200, 3600, "+08", Ghost(g))
        .step(1099162800, 25200, 0, "+07", Ghost(g))
        .step(1111863600, 25200, 3600, "+08", Ghost(g))
        .step(1130612400, 25200, 0, "+07", Ghost(g))
        .step(1143313200, 25200, 3600, "+08", Ghost(g))
        .step(1162062000, 25200, 0, "+07", Ghost(g))
        .step(1174762800, 25200, 3600, "+08", Ghost(g))
        .step(1193511600, 25200, 0, "+07", Ghost(g))
        .step(1206817200, 25200, 3600, "+08", Ghost(g))
        .step(1224961200, 25200, 0, "+07", Ghost(g))
        .step(1238266800, 25200, 3600, "+08", Ghost(g))
        .step(1256410800, 25200, 0, "+07", Ghost(g))
        .step(1269716400, 21600, 3600, "+07", Ghost(g))
        .step(1288468800, 21600, 0, "+06", Ghost(g))
        .step(1301169600, 25200, 0, "+07", Ghost(g))
        .step(2147483647, 25200, 0, "+07", Ghost(g))
        .finish(Ghost(g))
}

/// The zone `Asia/Novosibirsk`.
pub fn novosibirsk() -> (r: Tz)
    ensures
        r.wf(),
        r.zone_name() == "Asia/Novosibirsk"@,
        r.table() == tables::asia::novosibirsk(),
{
    let ghost g = tables::asia::novosibirsk_rows();
    FixedTimespanSet::begin("Asia/Novosibirsk", 19900, 0, "LMT", Ghost(g))
        .step(-1579476700, 21600, 0, "+06", Ghost(g))
        .step(-1247551200, 25200, 0, "+07", Ghost(g))
        .step(354906000, 25200, 3600, "+08", Ghost(g))
        .step(370713600, 25200, 0, "+07", Ghost(g))
        .step(386442000, 25200, 3600, "+08", Ghost(g))
        .step(402249600, 25200, 0, "+07", Ghost(g))
        .step(417978000, 25200, 3600, "+08", Ghost(g))
        .step(433785600, 25200, 0, "+07", Ghost(g))
        .step(449600400, 25200, 3600, "+08", Ghost(g))
        .step(465332400, 25200, 0, "+07", Ghost(g))
        .step(481057200, 25200, 3600, "+08", Ghost(g))
        .step(496782000, 25200, 0, "+07", Ghost(g))
        .step(512506800, 25200, 3600, "+08", Ghost(g))
        .step(528231600, 25200, 0, "+07", Ghost(g))
        .step(543956400, 25200, 3600, "+08", Ghost(g))
        .step(559681200, 25200, 0, "+07", Ghost(g))
        .step(575406000, 25200, 3600, "+08", Ghost(g))
        .step(591130800, 25200, 0, "+07", Ghost(g))
        .step(606855600, 25200, 3600, "+08", Ghost(g))
        .step(622580400, 25200, 0, "+07", Ghost(g))
        .step(638305200, 25200, 3600, "+08", Ghost(g))
        .step(654634800, 25200, 0, "+07", Ghost(g))
        .step(670359600, 21600, 3600, "+07", Ghost(g))
        .step(686088000, 21600, 0, "+06", Ghost(g))
        .step(695764800, 25200, 0, "+07", Ghost(g))
        .step(701809200, 25200, 3600, "+08", Ghost(g))
        .step(717534000, 25200, 0, "+07", Ghost(g))
        .step(733258800, 25200, 3600, "+08", Ghost(g))
        .step(738086400, 21600, 3600, "+07", Ghost(g))
        .step(748987200, 21600, 0, "+06", Ghost(g))
        .step(764712000, 21600, 3600, "+07", Ghost(g))
        .step(780436800, 21600, 0, "+06", Ghost(g))
        .step(796161600, 21600, 3600, "+07", Ghost(g))
        .step(811886400, 21600, 0, "+06", Ghost(g))
        .step(828216000, 21600, 3600, "+07", Ghost(g))
        .step(846360000, 21600, 0, "+06", Ghost(g))
        .step(859665600, 21600, 3600, "+07", Ghost(g))
        .step(877809600, 21600, 0, "+06", Ghost(g))
        .step(891115200, 21600, 3600, "+07", Ghost(g))
        .step(909259200, 21600, 0, "+06", Ghost(g))
        .step(922564800, 21600, 3600, "+07", Ghost(g))
        .step(941313600, 21600, 0, "+06", Ghost(g))
        .step(954014400, 21600, 3600, "+07", Ghost(g))
        .step(972763200, 21600, 0, "+06", Ghost(g))
        .step(985464000, 21600, 3600, "+07", Ghost(g))
        .step(1004212800, 21600, 0, "+06", Ghost(g))
        .step(1017518400, 21600, 3600, "+07", Ghost(g))
        .step(1035662400, 21600, 0, "+06", Ghost(g))
        .step(1048968000, 21600, 3600, "+07", Ghost(g))
        .step(1067112000, 21600, 0, "+06", Ghost(g))
        .step(1080417600, 21600, 3600, "+07", Ghost(g))
        .step(1099166400, 21600, 0, "+06", Ghost(g))
        .step(1111867200, 21600, 3600, "+07", Ghost(g))
        .step(1130616000, 21600, 0, "+06", Ghost(g))
        .step(1143316800, 21600, 3600, "+07", Ghost(g))
        .step(1162065600, 21600, 0, "+06", Ghost(g))
        .step(1174766400, 21600, 3600, "+07", Ghost(g))
        .step(1193515200, 21600, 0, "+06", Ghost(g))
        .step(1206820800, 21600, 3600, "+07", Ghost(g))
        .step(1224964800, 21600, 0, "+06", Ghost(g))
        .step(1238270400, 21600, 3600, "+07", Ghost(g))
        .step(1256414400, 21600, 0, "+06", Ghost(g))
        .step(1269720000, 21600, 3600, "+07", Ghost(g))
        .step(1288468800, 21600, 0, "+06", Ghost(g))
        .step(1301169600, 25200, 0, "+07", Ghost(g))
        .step(1414263600, 21600, 0, "+06", Ghost(g))
        .step(1469304000, 25200, 0, "+07", Ghost(g))
        .step(2147483647, 25200, 0, "+07", Ghost(g))
        .finish(Ghost(g))
}

/// The zone `Asia/Omsk`.
pub fn omsk() -> (r: Tz)
    ensures
        r.wf(),
        r.zone_name() == "Asia/Omsk"@,
        r.table() == tables::asia::omsk(),
{
    let ghost g = tables::asia::omsk_rows();
    FixedTimespanSet::begin("Asia/Omsk", 17610, 0, "LMT", Ghost(g))
        .step(-1582088010, 18000, 0, "+05", Ghost(g))
        .step(-1247547600, 21600, 0, "+06", Ghost(g))
        .step(354909600, 21600, 3600, "+07", Ghost(g))
        .step(370717200, 21600, 0, "+06", Ghost(g))
        .step(386445600, 21600, 3600, "+07", Ghost(g))
        .step(402253200, 21600, 0, "+06", Ghost(g))
        .step(417981600, 21600, 3600, "+07", Ghost(g))
        .step(433789200, 21600, 0, "+06", Ghost(g))
        .step(449604000, 21600, 3600, "+07", Ghost(g))
        .step(465336000, 21600, 0, "+06", Ghost(g))
        .step(481060800, 21600, 3600, "+07", Ghost(g))
        .step(496785600, 21600, 0, "+06", Ghost(g))
        .step(512510400, 21600, 3600, "+07", Ghost(g))
        .step(528235200, 21600, 0, "+06", Ghost(g))
        .step(543960000, 21600, 3600, "+07", Ghost(g))
        .step(559684800, 21600, 0, "+06", Ghost(g))
        .step(575409600, 21600, 3600, "+07", Ghost(g))
        .step(591134400, 21600, 0, "+06", Ghost(g))
        .step(606859200, 21600, 3600, "+07", Ghost(g))
        .step(622584000, 21600, 0, "+06", Ghost(g))
        .step(638308800, 21600, 3600, "+07", Ghost(g))
        .step(654638400, 21600, 0, "+06", Ghost(g))
        .step(670363200, 18000, 3600, "+06", Ghost(g))
        .step(686091600, 18000, 0, "+05", Ghost(g))
        .step(695768400, 21600, 0, "+06", Ghost(g))
        .step(701812800, 21600, 3600, "+07", Ghost(g))
        .step(717537600, 21600, 0, "+06", Ghost(g))
        .step(733262400, 21600, 3600, "+07", Ghost(g))
        .step(748987200, 21600, 0, "+06", Ghost(g))
        .step(764712000, 21600, 3600, "+07", Ghost(g))
        .step(780436800, 21600, 0, "+06", Ghost(g))
        .step(796161600, 21600, 3600, "+07", Ghost(g))
        .step(811886400, 21600, 0, "+06", Ghost(g))
        .step(828216000, 21600, 3600, "+07", Ghost(g))
        .step(846360000, 21600, 0, "+06", Ghost(g))
        .step(859665600, 21600, 3600, "+07", Ghost(g))
        .step(877809600, 21600, 0, "+06", Ghost(g))
        .step(891115200, 21600, 3600, "+07", Ghost(g))
        .step(909259200, 21600, 0, "+06", Ghost(g))
        .step(922564800, 21600, 3600, "+07", Ghost(g))
        .step(941313600, 21600, 0, "+06", Ghost(g))
        .step(954014400, 21600, 3600, "+07", Ghost(g))
        .step(972763200, 21600, 0, "+06", Ghost(g))
        .step(985464000, 21600, 3600, "+07", Ghost(g))
        .step(1004212800, 21600, 0, "+06", Ghost(g))
        .step(1017518400, 21600, 3600, "+07", Ghost(g))
        .step(1035662400, 21600, 0, "+06", Ghost(g))
        .step(1048968000, 21600, 3600, "+07", Ghost(g))
        .step(1067112000, 21600, 0, "+06", Ghost(g))
        .step(1080417600, 21600, 3600, "+07", Ghost(g))
        .step(1099166400, 21600, 0, "+06", Ghost(g))
        .step(1111867200, 21600, 3600, "+07", Ghost(g))
        .step(1130616000, 21600, 0, "+06", Ghost(g))
        .step(1143316800, 21600, 3600, "+07", Ghost(g))
        .step(1162065600, 21600, 0, "+06", Ghost(g))
        .step(1174766400, 21600, 3600, "+07", Ghost(g))
        .step(1193515200, 21600, 0, "+06", Ghost(g))
        .step(1206820800, 21600, 3600, "+07", Ghost(g))
        .step(1224964800, 21600, 0, "+06", Ghost(g))
        .step(1238270400, 21600, 3600, "+07", Ghost(g))
        .step(1256414400, 21600, 0, "+06", Ghost(g))
        .step(1269720000, 21600, 3600, "+07", Ghost(g))
        .step(1288468800, 21600, 0, "+06", Ghost(g))
        .step(1301169600, 25200, 0, "+07", Ghost(g))
        .step(1414263600, 21600, 0, "+06", Ghost(g))
        .step(2147483647, 21600, 0, "+06", Ghost(g))
        .finish(Ghost(g))
}

/// The zone `Asia/Oral`.
pub fn oral() -> (r: Tz)
    ensures
        r.wf(),
        r.zone_name() == "Asia/Oral"@,
        r.table() == tables::asia::oral(),
{
    let ghost g = tables::asia::oral_rows();
    FixedTimespanSet::begin("Asia/Oral", 12324, 0, "LMT", Ghost(g))
        .step(-1441164324, 10800, 0, "+03", Ghost(g))
        .step(-1247540400, 18000, 0, "+05", Ghost(g))
        .step(354913200, 18000, 3600, "+06", Ghost(g))
        .step(370720800, 21600, 0, "+06", Ghost(g))
        .step(386445600, 18000, 3600, "+06", Ghost(g))
        .step(402256800, 18000, 0, "+05", Ghost(g))
        .step(417985200, 18000, 3600, "+06", Ghost(g))
        .step(433792800, 18000, 0, "+05", Ghost(g))
        .step(449607600, 18000, 3600, "+06", Ghost(g))
        .step(465339600, 18000, 0, "+05", Ghost(g))
        .step(481064400, 18000, 3600, "+06", Ghost(g))
        .step(496789200, 18000, 0, "+05", Ghost(g))
        .step(512514000, 18000, 3600, "+06", Ghost(g))
        .step(528238800, 18000, 0, "+05", Ghost(g))
        .step(543963600, 18000, 3600, "+06", Ghost(g))
        .step(559688400, 18000, 0, "+05", Ghost(g))
        .step(575413200, 18000, 3600, "+06", Ghost(g))
        .step(591138000, 18000, 0, "+05", Ghost(g))
        .step(606862800, 14400, 3600, "+05", Ghost(g))
        .step(622591200, 14400, 0, "+04", Ghost(g))
        .step(638316000, 14400, 3600, "+05", Ghost(g))
        .step(654645600, 14400, 0, "+04", Ghost(g))
        .step(670370400, 14400, 3600, "+05", Ghost(g))
        .step(686095200, 14400, 0, "+04", Ghost(g))
        .step(695772000, 18000, 0, "+05", Ghost(g))
        .step(701816400, 14400, 3600, "+05", Ghost(g))
        .step(717544800, 14400, 0, "+04", Ghost(g))
        .step(733269600, 14400, 3600, "+05", Ghost(g))
        .step(748994400, 14400, 0, "+04", Ghost(g))
        .step(764719200, 14400, 3600, "+05", Ghost(g))
        .step(780444000, 14400, 0, "+04", Ghost(g))
        .step(796168800, 14400, 3600, "+05", Ghost(g))
        .step(811893600, 14400, 0, "+04", Ghost(g))
        .step(828223200, 14400, 3600, "+05", Ghost(g))
        .step(846367200, 14400, 0, "+04", Ghost(g))
        .step(859672800, 14400, 3600, "+05", Ghost(g))
        .step(877816800, 14400, 0, "+04", Ghost(g))
        .step(891122400, 14400, 3600, "+05", Ghost(g))
        .step(909266400, 14400, 0, "+04", Ghost(g))
        .step(922572000, 14400, 3600, "+05", Ghost(g))
        .step(941320800, 14400, 0, "+04", Ghost(g))
        .step(954021600, 14400, 3600, "+05", Ghost(g))
        .step(972770400, 14400, 0, "+04", Ghost(g))
        .step(985471200, 14400, 3600, "+05", Ghost(g))
        .step(1004220000, 14400, 0, "+04", Ghost(g))
        .step(1017525600, 14400, 3600, "+05", Ghost(g))
        .step(1035669600, 14400, 0, "+04", Ghost(g))
        .step(1048975200, 14400, 3600, "+05", Ghost(g))
        .step(1067119200, 14400, 0, "+04", Ghost(g))
        .step(1080424800, 14400, 3600, "+05", Ghost(g))
        .step(1099173600, 18000, 0, "+05", Ghost(g))
        .step(2147483647, 18000, 0, "+05", Ghost(g))
        .finish(Ghost(g))
}

/// The zone `Asia/Phnom_Penh`.
pub fn phnom_penh() -> (r: Tz)
    ensures
        r.wf(),
        r.zone_name() == "Asia/Phnom_Penh"@,
        r.table() == tables::asia::phnom_penh(),
{
    let ghost g = tables::asia::phnom_penh_rows();
    FixedTimespanSet::begin("Asia/Phnom_Penh", 25180, 0, "LMT", Ghost(g))
        .step(-2004073180, 25590, 0, "PLMT", Ghost(g))
        .step(-1851577590, 25200, 0, "+07", Ghost(g))
        .step(-852105600, 28800, 0, "+08", Ghost(g))
        .step(-782643600, 32400, 0, "+09", Ghost(g))
        .step(-767869200, 25200, 0, "+07", Ghost(g))
        .step(2147483647, 25200, 0, "+07", Ghost(g))
        .finish(Ghost(g))
}

/// The zone `Asia/Pontianak`.
pub fn pontianak() -> (r: Tz)
    ensures
        r.wf(),
        r.zone_name() == "Asia/Pontianak"@,
        r.table() == tables::asia::pontianak(),
{
    let ghost g = tables::asia::pontianak_rows();
    FixedTimespanSet::begin("Asia/Pontianak", 26240, 0, "LMT", Ghost(g))
        .step(-1946186240, 26240, 0, "PMT", Ghost(g))
        .step(-1172906240, 27000, 0, "+0730", Ghost(g))
        .step(-881220600, 32400, 0, "+09", Ghost(g))
        .step(-766054800, 27000, 0, "+0730", Ghost(g))
        .step(-683883000, 28800, 0, "+08", Ghost(g))
        .step(-620812800, 27000, 0, "+0730", Ghost(g))
        .step(-189415800, 28800, 0, "WITA", Ghost(g))
        .step(567964800, 25200, 0, "WIB", Ghost(g))
        .finish(Ghost(g))
}

/// The zone `Asia/Pyongyang`.
pub fn pyongyang() -> (r: Tz)
    ensures
        r.wf(),
        r.zone_name() == "Asia/Pyongyang"@,
        r.table() == tables::asia::pyongyang(),
{
    let ghost g = tables::asia::pyongyang_rows();
    FixedTimespanSet::begin("Asia/Pyongyang", 30180, 0, "LMT", Ghost(g))
        .step(-1948782180, 30600, 0, "KST", Ghost(g))
        .step(-1830414600, 32400, 0, "JST", Ghost(g))
        .step(-768646800, 32400, 0, "KST", Ghost(g))
        .step(1439564400, 30600, 0, "KST", Ghost(g))
        .step(1525446000, 32400, 0, "KST", Ghost(g))
        .finish(Ghost(g))
}

/// The zone `Asia/Qatar`.
pub fn qatar() -> (r: Tz)
    ensures
        r.wf(),
        r.zone_name() == "Asia/Qatar"@,
        r.table() == tables::asia::qatar(),
{
    let ghost g = tables::asia::qatar_rows();
    FixedTimespanSet::begin("Asia/Qatar", 12368, 0, "LMT", Ghost(g))
        .step(-1577935568, 14400, 0, "+04", Ghost(g))
        .step(76190400, 10800, 0, "+03", Ghost(g))
        .step(2147483647, 10800, 0, "+03", Ghost(g))
        .finish(Ghost(g))
}

/// The zone `Asia/Qostanay`.
pub fn qostanay() -> (r: Tz)
    ensures
        r.wf(),
        r.zone_name() == "Asia/Qostanay"@,
        r.table() == tables::asia::qostanay(),
{
    let ghost g = tables::asia::qostanay_rows();
    FixedTimespanSet::begin("Asia/Qostanay", 15268, 0, "LMT", Ghost(g))
        .step(-1441167268, 14400, 0, "+04", Ghost(g))
        .step(-1247544000, 18000, 0, "+05", Ghost(g))
        .step(354913200, 18000, 3600, "+06", Ghost(g))
        .step(370720800, 21600, 0, "+06", Ghost(g))
        .step(386445600, 18000, 3600, "+06", Ghost(g))
        .step(402256800, 18000, 0, "+05", Ghost(g))
        .step(417985200, 18000, 3600, "+06", Ghost(g))
        .step(433792800, 18000, 0, "+05", Ghost(g))
        .step(449607600, 18000, 3600, "+06", Ghost(g))
        .step(465339600, 18000, 0, "+05", Ghost(g))
        .step(481064400, 18000, 3600, "+06", Ghost(g))
        .step(496789200, 18000, 0, "+05", Ghost(g))
        .step(512514000, 18000, 3600, "+06", Ghost(g))
        .step(528238800, 18000, 0, "+05", Ghost(g))
        .step(543963600, 18000, 3600, "+06", Ghost(g))
        .step(559688400, 18000, 0, "+05", Ghost(g))
        .step(575413200, 18000, 3600, "+06", Ghost(g))
        .step(591138000, 18000, 0, "+05", Ghost(g))
        .step(606862800, 18000, 3600, "+06", Ghost(g))
        .step(622587600, 18000, 0, "+05", Ghost(g))
        .step(638312400, 18000, 3600, "+06", Ghost(g))
        .step(654642000, 18000, 0, "+05", Ghost(g))
        .step(670366800, 14400, 3600, "+05", Ghost(g))
        .step(686095200, 14400, 0, "+04", Ghost(g))
        .step(695772000, 18000, 0, "+05", Ghost(g))
        .step(701816400, 18000, 3600, "+06", Ghost(g))
        .step(717541200, 18000, 0, "+05", Ghost(g))
        .step(733266000, 18000, 3600, "+06", Ghost(g))
        .step(748990800, 18000, 0, "+05", Ghost(g))
        .step(764715600, 18000, 3600, "+06", Ghost(g))
        .step(780440400, 18000, 0, "+05", Ghost(g))
        .step(796165200, 18000, 3600, "+06", Ghost(g))
        .step(811890000, 18000, 0, "+05", Ghost(g))
        .step(828219600, 18000, 3600, "+06", Ghost(g))
        .step(846363600, 18000, 0, "+05", Ghost(g))
        .step(859669200, 18000, 3600, "+06", Ghost(g))
        .step(877813200, 18000, 0, "+05", Ghost(g))
        .step(891118800, 18000, 3600, "+06", Ghost(g))
        .step(909262800, 18000, 0, "+05", Ghost(g))
        .step(922568400, 18000, 3600, "+06", Ghost(g))
        .step(941317200, 18000, 0, "+05", Ghost(g))
        .step(954018000, 18000, 3600, "+06", Ghost(g))
        .step(972766800, 18000, 0, "+05", Ghost(g))
        .step(985467600, 18000, 3600, "+06", Ghost(g))
        .step(1004216400, 18000, 0, "+05", Ghost(g))
        .step(1017522000, 18000, 3600, "+06", Ghost(g))
        .step(1035666000, 18000, 0, "+05", Ghost(g))
        .step(1048971600, 18000, 3600, "+06", Ghost(g))
        .step(1067115600, 18000, 0, "+05", Ghost(g))
        .step(1080421200, 18000, 3600, "+06", Ghost(g))
        .step(1099170000, 21600, 0, "+06", Ghost(g))
        .step(1709229600, 18000, 0, "+05", Ghost(g))
        .step(2147483647, 18000, 0, "+05", Ghost(g))
        .finish(Ghost(g))
}

/// The zone `Asia/Qyzylorda`.
pub fn qyzylorda() -> (r: Tz)
    ensures
        r.wf(),
        r.zone_name() == "Asia/Qyzylorda"@,
        r.table() == tables::asia::qyzylorda(),
{
    let ghost g = tables::asia::qyzylorda_rows();
    FixedTimespanSet::begin("Asia/Qyzylorda", 15712, 0, "LMT", Ghost(g))
        .step(-1441167712, 14400, 0, "+04", Ghost(g))
        .step(-1247544000, 18000, 0, "+05", Ghost(g))
        .step(354913200, 18000, 3600, "+06", Ghost(g))
        .step(370720800, 21600, 0, "+06", Ghost(g))
        .step(386445600, 18000, 3600, "+06", Ghost(g))
        .step(402256800, 18000, 0, "+05", Ghost(g))
        .step(417985200, 18000, 3600, "+06", Ghost(g))
        .step(433792800, 18000, 0, "+05", Ghost(g))
        .step(449607600, 18000, 3600, "+06", Ghost(g))
        .step(465339600, 18000, 0, "+05", Ghost(g))
        .step(481064400, 18000, 3600, "+06", Ghost(g))
        .step(496789200, 18000, 0, "+05", Ghost(g))
        .step(512514000, 18000, 3600, "+06", Ghost(g))
        .step(528238800, 18000, 0, "+05", Ghost(g))
        .step(543963600, 18000, 3600, "+06", Ghost(g))
        .step(559688400, 18000, 0, "+05", Ghost(g))
        .step(575413200, 18000, 3600, "+06", Ghost(g))
        .step(591138000, 18000, 0, "+05", Ghost(g))
        .step(606862800, 18000, 3600, "+06", Ghost(g))
        .step(622587600, 18000, 0, "+05", Ghost(g))
        .step(638312400, 18000, 3600, "+06", Ghost(g))
        .step(654642000, 18000, 0, "+05", Ghost(g))
        .step(670366800, 14400, 3600, "+05", Ghost(g))
        .step(686095200, 18000, 0, "+05", Ghost(g))
        .step(695768400, 21600, 0, "+06", Ghost(g))
        .step(701812800, 18000, 3600, "+06", Ghost(g))
        .step(717541200, 18000, 0, "+05", Ghost(g))
        .step(733266000, 18000, 3600, "+06", Ghost(g))
        .step(748990800, 18000, 0, "+05", Ghost(g))
        .step(764715600, 18000, 3600, "+06", Ghost(g))
        .step(780440400, 18000, 0, "+05", Ghost(g))
        .step(796165200, 18000, 3600, "+06", Ghost(g))
        .step(811890000, 18000, 0, "+05", Ghost(g))
        .step(828219600, 18000, 3600, "+06", Ghost(g))
        .step(846363600, 18000, 0, "+05", Ghost(g))
        .step(859669200, 18000, 3600, "+06", Ghost(g))
        .step(877813200, 18000, 0, "+05", Ghost(g))
        .step(891118800, 18000, 3600, "+06", Ghost(g))
        .step(909262800, 18000, 0, "+05", Ghost(g))
        .step(922568400, 18000, 3600, "+06", Ghost(g))
        .step(941317200, 18000, 0, "+05", Ghost(g))
        .step(954018000, 18000, 3600, "+06", Ghost(g))
        .step(972766800, 18000, 0, "+05", Ghost(g))
        .step(985467600, 18000, 3600, "+06", Ghost(g))
        .step(1004216400, 18000, 0, "+05", Ghost(g))
        .step(1017522000, 18000, 3600, "+06", Ghost(g))
        .step(1035666000, 18000, 0, "+05", Ghost(g))
        .step(1048971600, 18000, 3600, "+06", Ghost(g))
        .step(1067115600, 18000, 0, "+05", Ghost(g))
        .step(1080421200, 18000, 3600, "+06", Ghost(g))
        .step(1099170000, 21600, 0, "+06", Ghost(g))
        .step(1545328800, 18000, 0, "+05", Ghost(g))
        .step(2147483647, 18000, 0, "+05", Ghost(g))
        .finish(Ghost(g))
}

/// The zone `Asia/Rangoon`.
pub fn rangoon() -> (r: Tz)
    ensures
        r.wf(),
        r.zone_name() == "Asia/Rangoon"@,
        r.table() == tables::asia::rangoon(),
{
    let ghost g = tables::asia::rangoon_rows();
    FixedTimespanSet::begin("Asia/Rangoon", 23087, 0, "LMT", Ghost(g))
        .step(-2840163887, 23087, 0, "RMT", Ghost(g))
        .step(-1577946287, 23400, 0, "+0630", Ghost(g))
        .step(-873268200, 32400, 0, "+09", Ghost(g))
        .step(-778410000, 23400, 0, "+0630", Ghost(g))
        .step(2147483647, 23400, 0, "+0630", Ghost(g))
        .finish(Ghost(g))
}

/// The zone `Asia/Riyadh`.
pub fn riyadh() -> (r: Tz)
    ensures
        r.wf(),
        r.zone_name() == "Asia/Riyadh"@,
        r.table() == tables::asia::riyadh(),
{
    let ghost g = tables::asia::riyadh_rows();
    FixedTimespanSet::begin("Asia/Riyadh", 11212, 0, "LMT", Ghost(g))
        .step(-719636812, 10800, 0, "+03", Ghost(g))
        .step(2147483647, 10800, 0, "+03", Ghost(g))
        .finish(Ghost(g))
}

/// The zone `Asia/Saigon`.
pub fn saigon() -> (r: Tz)
    ensures
        r.wf(),
        r.zone_name() == "Asia/Saigon"@,
        r.table() == tables::asia::saigon(),
{
    let ghost g = tables::asia::saigon_rows();
    FixedTimespanSet::begin("Asia/Saigon", 25590, 0, "LMT", Ghost(g))
        .step(-2004073590, 25590, 0, "PLMT", Ghost(g))
        .step(-1851577590, 25200, 0, "+07", Ghost(g))
        .step(-852105600, 28800, 0, "+08", Ghost(g))
        .step(-782643600, 32400, 0, "+09", Ghost(g))
        .step(-767869200, 25200, 0, "+07", Ghost(g))
        .step(-718095600, 28800, 0, "+08", Ghost(g))
        .step(-457772400, 25200, 0, "+07", Ghost(g))
        .step(-315648000, 28800, 0, "+08", Ghost(g))
        .step(171820800, 25200, 0, "+07", Ghost(g))
        .step(2147483647, 25200, 0, "+07", Ghost(g))
        .finish(Ghost(g))
}

/// The zone `Asia/Sakhalin`.
pub fn sakhalin() -> (r: Tz)
    ensures
        r.wf(),
        r.zone_name() == "Asia/Sakhalin"@,
        r.table() == tables::asia::sakhalin(),
{
    let ghost g = tables::asia::sakhalin_rows();
    FixedTimespanSet::begin("Asia/Sakhalin", 34248, 0, "LMT", Ghost(g))
        .step(-2031039048, 32400, 0, "+09", Ghost(g))
        .step(-768560400, 39600, 0, "+11", Ghost(g))
        .step(354891600, 39600, 3600, "+12", Ghost(g))
        .step(370699200, 39600, 0, "+11", Ghost(g))
        .step(386427600, 39600, 3600, "+12", Ghost(g))
        .step(402235200, 39600, 0, "+11", Ghost(g))
        .step(417963600, 39600, 3600, "+12", Ghost(g))
        .step(433771200, 39600, 0, "+11", Ghost(g))
        .step(449586000, 39600, 3600, "+12", Ghost(g))
        .step(465318000, 39600, 0, "+11", Ghost(g))
        .step(481042800, 39600, 3600, "+12", Ghost(g))
        .step(496767600, 39600, 0, "+11", Ghost(g))
        .step(512492400, 39600, 3600, "+12", Ghost(g))
        .step(528217200, 39600, 0, "+11", Ghost(g))
        .step(543942000, 39600, 3600, "+12", Ghost(g))
        .step(559666800, 39600, 0, "+11", Ghost(g))
        .step(575391600, 39600, 3600, "+12", Ghost(g))
        .step(591116400, 39600, 0, "+11", Ghost(g))
        .step(606841200, 39600, 3600, "+12", Ghost(g))
        .step(622566000, 39600, 0, "+11", Ghost(g))
        .step(638290800, 39600, 3600, "+12", Ghost(g))
        .step(654620400, 39600, 0, "+11", Ghost(g))
        .step(670345200, 36000, 3600, "+11", Ghost(g))
        .step(686073600, 36000, 0, "+10", Ghost(g))
        .step(695750400, 39600, 0, "+11", Ghost(g))
        .step(701794800, 39600, 3600, "+12", Ghost(g))
        .step(717519600, 39600, 0, "+11", Ghost(g))
        .step(733244400, 39600, 3600, "+12", Ghost(g))
        .step(748969200, 39600, 0, "+11", Ghost(g))
        .step(764694000, 39600, 3600, "+12", Ghost(g))
        .step(780418800, 39600, 0, "+11", Ghost(g))
        .step(796143600, 39600, 3600, "+12", Ghost(g))
        .step(811868400, 39600, 0, "+11", Ghost(g))
        .step(828198000, 39600, 3600, "+12", Ghost(g))
        .step(846342000, 39600, 0, "+11", Ghost(g))
        .step(859647600, 36000, 3600, "+11", Ghost(g))
        .step(877795200, 36000, 0, "+10", Ghost(g))
        .step(891100800, 36000, 3600, "+11", Ghost(g))
        .step(909244800, 36000, 0, "+10", Ghost(g))
        .step(922550400, 36000, 3600, "+11", Ghost(g))
        .step(941299200, 36000, 0, "+10", Ghost(g))
        .step(954000000, 36000, 3600, "+11", Ghost(g))
        .step(972748800, 36000, 0, "+10", Ghost(g))
        .step(985449600, 36000, 3600, "+11", Ghost(g))
        .step(1004198400, 36000, 0, "+10", Ghost(g))
        .step(1017504000, 36000, 3600, "+11", Ghost(g))
        .step(1035648000, 36000, 0, "+10", Ghost(g))
        .step(1048953600, 36000, 3600, "+11", Ghost(g))
        .step(1067097600, 36000, 0, "+10", Ghost(g))
        .step(1080403200, 36000, 3600, "+11", Ghost(g))
        .step(1099152000, 36000, 0, "+10", Ghost(g))
        .step(1111852800, 36000, 3600, "+11", Ghost(g))
        .step(1130601600, 36000, 0, "+10", Ghost(g))
        .step(1143302400, 36000, 3600, "+11", Ghost(g))
        .step(1162051200, 36000, 0, "+10", Ghost(g))
        .step(1174752000, 36000, 3600, "+11", Ghost(g))
        .step(1193500800, 36000, 0, "+10", Ghost(g))
        .step(1206806400, 36000, 3600, "+11", Ghost(g))
        .step(1224950400, 36000, 0, "+10", Ghost(g))
        .step(1238256000, 36000, 3600, "+11", Ghost(g))
        .step(1256400000, 36000, 0, "+10", Ghost(g))
        .step(1269705600, 36000, 3600, "+11", Ghost(g))
        .step(1288454400, 36000, 0, "+10", Ghost(g))
        .step(1301155200, 39600, 0, "+11", Ghost(g))
        .step(1414249200, 36000, 0, "+10", Ghost(g))
        .step(1459008000, 39600, 0, "+11", Ghost(g))
        .step(2147483647, 39600, 0, "+11", Ghost(g))
        .finish(Ghost(g))
}

/// The zone `Asia/Samarkand`.
pub fn samarkand() -> (r: Tz)
    ensures
        r.wf(),
        r.zone_name() == "Asia/Samarkand"@,
        r.table() == tables::asia::samarkand(),
{
    let ghost g = tables::asia::samarkand_rows();
    FixedTimespanSet::begin("Asia/Samarkand", 16073, 0, "LMT", Ghost(g))
        .step(-1441168073, 14400, 0, "+04", Ghost(g))
        .step(-1247544000, 18000, 0, "+05", Ghost(g))
        .step(354913200, 18000, 3600, "+06", Ghost(g))
        .step(370720800, 21600, 0, "+06", Ghost(g))
        .step(386445600, 18000, 3600, "+06", Ghost(g))
        .step(402256800, 18000, 0, "+05", Ghost(g))
        .step(417985200, 18000, 3600, "+06", Ghost(g))
        .step(433792800, 18000, 0, "+05", Ghost(g))
        .step(449607600, 18000, 3600, "+06", Ghost(g))
        .step(465339600, 18000, 0, "+05", Ghost(g))
        .step(481064400, 18000, 3600, "+06", Ghost(g))
        .step(496789200, 18000, 0, "+05", Ghost(g))
        .step(512514000, 18000, 3600, "+06", Ghost(g))
        .step(528238800, 18000, 0, "+05", Ghost(g))
        .step(543963600, 18000, 3600, "+06", Ghost(g))
        .step(559688400, 18000, 0, "+05", Ghost(g))
        .step(575413200, 18000, 3600, "+06", Ghost(g))
        .step(591138000, 18000, 0, "+05", Ghost(g))
        .step(606862800, 18000, 3600, "+06", Ghost(g))
        .step(622587600, 18000, 0, "+05", Ghost(g))
        .step(638312400, 18000, 3600, "+06", Ghost(g))
        .step(654642000, 18000, 0, "+05", Ghost(g))
        .step(670366800, 18000, 3600, "+06", Ghost(g))
        .step(686091600, 18000, 0, "+05", Ghost(g))
        .step(2147483647, 18000, 0, "+05", Ghost(g))
        .finish(Ghost(g))
}

/// The zone `Asia/Seoul`.
pub fn seoul() -> (r: Tz)
    ensures
        r.wf(),
        r.zone_name() == "Asia/Seoul"@,
        r.table() == tables::asia::seoul(),
{
    let ghost g = tables::asia::seoul_rows();
    FixedTimespanSet::begin("Asia/Seoul", 30472, 0, "LMT", Ghost(g))
        .step(-1948782472, 30600, 0, "KST", Ghost(g))
        .step(-1830414600, 32400, 0, "JST", Ghost(g))
        .step(-767350800, 32400, 0, "KST", Ghost(g))
        .step(-681210000, 32400, 3600, "KDT", Ghost(g))
        .step(-672228000, 32400, 0, "KST", Ghost(g))
        .step(-654771600, 32400, 3600, "KDT", Ghost(g))
        .step(-640864800, 32400, 0, "KST", Ghost(g))
        .step(-623408400, 32400, 3600, "KDT", Ghost(g))
        .step(-609415200, 32400, 0, "KST", Ghost(g))
        .step(-588848400, 32400, 3600, "KDT", Ghost(g))
        .step(-577965600, 32400, 0, "KST", Ghost(g))
        .step(-498128400, 30600, 0, "KST", Ghost(g))
        .step(-462702600, 30600, 3600, "KDT", Ghost(g))
        .step(-451733400, 30600, 0, "KST", Ghost(g))
        .step(-429784200, 30600, 3600, "KDT", Ghost(g))
        .step(-418296600, 30600, 0, "KST", Ghost(g))
        .step(-399544200, 30600, 3600, "KDT", Ghost(g))
        .step(-387451800, 30600, 0, "KST", Ghost(g))
        .step(-368094600, 30600, 3600, "KDT", Ghost(g))
        .step(-356002200, 30600, 0, "KST", Ghost(g))
        .step(-336645000, 30600, 3600, "KDT", Ghost(g))
        .step(-324552600, 30600, 0, "KST", Ghost(g))
        .step(-305195400, 30600, 3600, "KDT", Ghost(g))
        .step(-293103000, 30600, 0, "KST", Ghost(g))
        .step(-264933000, 32400, 0, "KST", Ghost(g))
        .step(547578000, 32400, 3600, "KDT", Ghost(g))
        .step(560883600, 32400, 0, "KST", Ghost(g))
        .step(579027600, 32400, 3600, "KDT", Ghost(g))
        .step(592333200, 32400, 0, "KST", Ghost(g))
        .finish(Ghost(g))
}

/// The zone `Asia/Shanghai`.
pub fn shanghai() -> (r: Tz)
    ensures
        r.wf(),
        r.zone_name() == "Asia/Shanghai"@,
        r.table() == tables::asia::shanghai(),
{
    let ghost g = tables::asia::shanghai_rows();
    FixedTimespanSet::begin("Asia/Shanghai", 29143, 0, "LMT", Ghost(g))
        .step(-2177481943, 28800, 0, "CST", Ghost(g))
        .step(-1600675200, 28800, 3600, "CDT", Ghost(g))
        .step(-1585904400, 28800, 0, "CST", Ghost(g))
        .step(-933667200, 28800, 3600, "CDT", Ghost(g))
        .step(-922093200, 28800, 0, "CST", Ghost(g))
        .step(-908870400, 28800, 3600, "CDT", Ghost(g))
        .step(-888829200, 28800, 0, "CST", Ghost(g))
        .step(-881049600, 28800, 3600, "CDT", Ghost(g))
        .step(-767869200, 28800, 0, "CST", Ghost(g))
        .step(-745833600, 28800, 3600, "CDT", Ghost(g))
        .step(-733827600, 28800, 0, "CST", Ghost(g))
        .step(-716889600, 28800, 3600, "CDT", Ghost(g))
        .step(-699613200, 28800, 0, "CST", Ghost(g))
        .step(-683884800, 28800, 3600, "CDT", Ghost(g))
        .step(-670669200, 28800, 0, "CST", Ghost(g))
        .step(-652348800, 28800, 3600, "CDT", Ghost(g))
        .step(-650019600, 28800, 0, "CST", Ghost(g))
        .step(515527200, 28800, 3600, "CDT", Ghost(g))
        .step(527014800, 28800, 0, "CST", Ghost(g))
        .step(545162400, 28800, 3600, "CDT", Ghost(g))
        .step(558464400, 28800, 0, "CST", Ghost(g))
        .step(577216800, 28800, 3600, "CDT", Ghost(g))
        .step(589914000, 28800, 0, "CST", Ghost(g))
        .step(608666400, 28800, 3600, "CDT", Ghost(g))
        .step(621968400, 28800, 0, "CST", Ghost(g))
        .step(640116000, 28800, 3600, "CDT", Ghost(g))
        .step(653418000, 28800, 0, "CST", Ghost(g))
        .step(671565600, 28800, 3600, "CDT", Ghost(g))
        .step(684867600, 28800, 0, "CST", Ghost(g))
        .finish(Ghost(g))
}

/// The zone `Asia/Singapore`.
pub fn singapore() -> (r: Tz)
    ensures
        r.wf(),
        r.zone_name() == "Asia/Singapore"@,
        r.table() == tables::asia::singapore(),
{
    let ghost g = tables::asia::singapore_rows();
    FixedTimespanSet::begin("Asia/Singapore", 24925, 0, "LMT", Ghost(g))
        .step(-2177477725, 24925, 0, "SMT", Ghost(g))
        .step(-2038200925, 25200, 0, "+07", Ghost(g))
        .step(-1167634800, 25200, 1200, "+0720", Ghost(g))
        .step(-1073028000, 26400, 0, "+0720", Ghost(g))
        .step(-894180000, 27000, 0, "+0730", Ghost(g))
        .step(-879665400, 32400, 0, "+09", Ghost(g))
        .step(-767005200, 27000, 0, "+0730", Ghost(g))
        .step(378662400, 28800, 0, "+08", Ghost(g))
        .step(2147483647, 28800, 0, "+08", Ghost(g))
        .finish(Ghost(g))
}

/// The zone `Asia/Srednekolymsk`.
pub fn srednekolymsk() -> (r: Tz)
    ensures
        r.wf(),
        r.zone_name() == "Asia/Srednekolymsk"@,
        r.table() == tables::asia::srednekolymsk(),
{
    let ghost g = tables::asia::srednekolymsk_rows();
    FixedTimespanSet::begin("Asia/Srednekolymsk", 36892, 0, "LMT", Ghost(g))
        .step(-1441188892, 36000, 0, "+10", Ghost(g))
        .step(-1247565600, 39600, 0, "+11", Ghost(g))
        .step(354891600, 39600, 3600, "+12", Ghost(g))
        .step(370699200, 39600, 0, "+11", Ghost(g))
        .step(386427600, 39600, 3600, "+12", Ghost(g))
        .step(402235200, 39600, 0, "+11", Ghost(g))
        .step(417963600, 39600, 3600, "+12", Ghost(g))
        .step(433771200, 39600, 0, "+11", Ghost(g))
        .step(449586000, 39600, 3600, "+12", Ghost(g))
        .step(465318000, 39600, 0, "+11", Ghost(g))
        .step(481042800, 39600, 3600, "+12", Ghost(g))
        .step(496767600, 39600, 0, "+11", Ghost(g))
        .step(512492400, 39600, 3600, "+12", Ghost(g))
        .step(528217200, 39600, 0, "+11", Ghost(g))
        .step(543942000, 39600, 3600, "+12", Ghost(g))
        .step(559666800, 39600, 0, "+11", Ghost(g))
        .step(575391600, 39600, 3600, "+12", Ghost(g))
        .step(591116400, 39600, 0, "+11", Ghost(g))
        .step(606841200, 39600, 3600, "+12", Ghost(g))
        .step(622566000, 39600, 0, "+11", Ghost(g))
        .step(638290800, 39600, 3600, "+12", Ghost(g))
        .step(654620400, 39600, 0, "+11", Ghost(g))
        .step(670345200, 36000, 3600, "+11", Ghost(g))
        .step(686073600, 36000, 0, "+10", Ghost(g))
        .step(695750400, 39600, 0, "+11", Ghost(g))
        .step(701794800, 39600, 3600, "+12", Ghost(g))
        .step(717519600, 39600, 0, "+11", Ghost(g))
        .step(733244400, 39600, 3600, "+12", Ghost(g))
        .step(748969200, 39600, 0, "+11", Ghost(g))
        .step(764694000, 39600, 3600, "+12", Ghost(g))
        .step(780418800, 39600, 0, "+11", Ghost(g))
        .step(796143600, 39600, 3600, "+12", Ghost(g))
        .step(811868400, 39600, 0, "+11", Ghost(g))
        .step(828198000, 39600, 3600, "+12", Ghost(g))
        .step(846342000, 39600, 0, "+11", Ghost(g))
        .step(859647600, 39600, 3600, "+12", Ghost(g))
        .step(877791600, 39600, 0, "+11", Ghost(g))
        .step(891097200, 39600, 3600, "+12", Ghost(g))
        .step(909241200, 39600, 0, "+11", Ghost(g))
        .step(922546800, 39600, 3600, "+12", Ghost(g))
        .step(941295600, 39600, 0, "+11", Ghost(g))
        .step(953996400, 39600, 3600, "+12", Ghost(g))
        .step(972745200, 39600, 0, "+11", Ghost(g))
        .step(985446000, 39600, 3600, "+12", Ghost(g))
        .step(1004194800, 39600, 0, "+11", Ghost(g))
        .step(1017500400, 39600, 3600, "+12", Ghost(g))
        .step(1035644400, 39600, 0, "+11", Ghost(g))
        .step(1048950000, 39600, 3600, "+12", Ghost(g))
        .step(1067094000, 39600, 0, "+11", Ghost(g))
        .step(1080399600, 39600, 3600, "+12", Ghost(g))
        .step(1099148400, 39600, 0, "+11", Ghost(g))
        .step(1111849200, 39600, 3600, "+12", Ghost(g))
        .step(1130598000, 39600, 0, "+11", Ghost(g))
        .step(1143298800, 39600, 3600, "+12", Ghost(g))
        .step(1162047600, 39600, 0, "+11", Ghost(g))
        .step(1174748400, 39600, 3600, "+12", Ghost(g))
        .step(1193497200, 39600, 0, "+11", Ghost(g))
        .step(1206802800, 39600, 3600, "+12", Ghost(g))
        .step(1224946800, 39600, 0, "+11", Ghost(g))
        .step(1238252400, 39600, 3600, "+12", Ghost(g))
        .step(1256396400, 39600, 0, "+11", Ghost(g))
        .step(1269702000, 39600, 3600, "+12", Ghost(g))
        .step(1288450800, 39600, 0, "+11", Ghost(g))
        .step(1301151600, 43200, 0, "+12", Ghost(g))
        .step(1414245600, 39600, 0, "+11", Ghost(g))
        .step(2147483647, 39600, 0, "+11", Ghost(g))
        .finish(Ghost(g))
}

/// The zone `Asia/Taipei`.
pub fn taipei() -> (r: Tz)
    ensures
        r.wf(),
        r.zone_name() == "Asia/Taipei"@,
        r.table() == tables::asia::taipei(),
{
    let ghost g = tables::asia::taipei_rows();
    FixedTimespanSet::begin("Asia/Taipei", 29160, 0, "LMT", Ghost(g))
        .step(-2335248360, 28800, 0, "CST", Ghost(g))
        .step(-1017820800, 32400, 0, "JST", Ghost(g))
        .step(-766224000, 28800, 0, "CST", Ghost(g))
        .step(-745833600, 28800, 3600, "CDT", Ghost(g))
        .step(-733827600, 28800, 0, "CST", Ghost(g))
        .step(-716889600, 28800, 3600, "CDT", Ghost(g))
        .step(-699613200, 28800, 0, "CST", Ghost(g))
        .step(-683884800, 28800, 3600, "CDT", Ghost(g))
        .step(-670669200, 28800, 0, "CST", Ghost(g))
        .step(-652348800, 28800, 3600, "CDT", Ghost(g))
        .step(-639133200, 28800, 0, "CST", Ghost(g))
        .step(-620812800, 28800, 3600, "CDT", Ghost(g))
        .step(-607597200, 28800, 0, "CST", Ghost(g))
        .step(-589276800, 28800, 3600, "CDT", Ghost(g))
        .step(-576061200, 28800, 0, "CST", Ghost(g))
        .step(-562924800, 28800, 3600, "CDT", Ghost(g))
        .step(-541760400, 28800, 0, "CST", Ghost(g))
        .step(-528710400, 28800, 3600, "CDT", Ghost(g))
        .step(-510224400, 28800, 0, "CST", Ghost(g))
        .step(-497174400, 28800, 3600, "CDT", Ghost(g))
        .step(-478688400, 28800, 0, "CST", Ghost(g))
        .step(-465638400, 28800, 3600, "CDT", Ghost(g))
        .step(-449830800, 28800, 0, "CST", Ghost(g))
        .step(-434016000, 28800, 3600, "CDT", Ghost(g))
        .step(-418208400, 28800, 0, "CST", Ghost(g))
        .step(-402480000, 28800, 3600, "CDT", Ghost(g))
        .step(-386672400, 28800, 0, "CST", Ghost(g))
        .step(-370944000, 28800, 3600, "CDT", Ghost(g))
        .step(-355136400, 28800, 0, "CST", Ghost(g))
        .step(-339408000, 28800, 3600, "CDT", Ghost(g))
        .step(-323600400, 28800, 0, "CST", Ghost(g))
        .step(-302515200, 28800, 3600, "CDT", Ghost(g))
        .step(-291978000, 28800, 0, "CST", Ghost(g))
        .step(-270979200, 28800, 3600, "CDT", Ghost(g))
        .step(-260442000, 28800, 0, "CST", Ghost(g))
        .step(133977600, 28800, 3600, "CDT", Ghost(g))
        .step(149785200, 28800, 0, "CST", Ghost(g))
        .step(165513600, 28800, 3600, "CDT", Ghost(g))
        .step(181321200, 28800, 0, "CST", Ghost(g))
        .step(299606400, 28800, 3600, "CDT", Ghost(g))
        .step(307551600, 28800, 0, "CST", Ghost(g))
        .finish(Ghost(g))
}

/// The zone `Asia/Tashkent`.
pub fn tashkent() -> (r: Tz)
    ensures
        r.wf(),
        r.zone_name() == "Asia/Tashkent"@,
        r.table() == tables::asia::tashkent(),
{
    let ghost g = tables::asia::tashkent_rows();
    FixedTimespanSet::begin("Asia/Tashkent", 16631, 0, "LMT", Ghost(g))
        .step(-1441168631, 18000, 0, "+05", Ghost(g))
        .step(-1247547600, 21600, 0, "+06", Ghost(g))
        .step(354909600, 21600, 3600, "+07", Ghost(g))
        .step(370717200, 21600, 0, "+06", Ghost(g))
        .step(386445600, 21600, 3600, "+07", Ghost(g))
        .step(402253200, 21600, 0, "+06", Ghost(g))
        .step(417981600, 21600, 3600, "+07", Ghost(g))
        .step(433789200, 21600, 0, "+06", Ghost(g))
        .step(449604000, 21600, 3600, "+07", Ghost(g))
        .step(465336000, 21600, 0, "+06", Ghost(g))
        .step(481060800, 21600, 3600, "+07", Ghost(g))
        .step(496785600, 21600, 0, "+06", Ghost(g))
        .step(512510400, 21600, 3600, "+07", Ghost(g))
        .step(528235200, 21600, 0, "+06", Ghost(g))
        .step(543960000, 21600, 3600, "+07", Ghost(g))
        .step(559684800, 21600, 0, "+06", Ghost(g))
        .step(575409600, 21600, 3600, "+07", Ghost(g))
        .step(591134400, 21600, 0, "+06", Ghost(g))
        .step(606859200, 21600, 3600, "+07", Ghost(g))
        .step(622584000, 21600, 0, "+06", Ghost(g))
        .step(638308800, 21600, 3600, "+07", Ghost(g))
        .step(654638400, 21600, 0, "+06", Ghost(g))
        .step(670363200, 18000, 3600, "+06", Ghost(g))
        .step(686091600, 18000, 0, "+05", Ghost(g))
        .step(2147483647, 18000, 0, "+05", Ghost(g))
        .finish(Ghost(g))
}

/// The zone `Asia/Tbilisi`.
pub fn tbilisi() -> (r: Tz)
    ensures
        r.wf(),
        r.zone_name() == "Asia/Tbilisi"@,
        r.table() == tables::asia::tbilisi(),
{
    let ghost g = tables::asia::tbilisi_rows();
    FixedTimespanSet::begin("Asia/Tbilisi", 10751, 0, "LMT", Ghost(g))
        .step(-2840151551, 10751, 0, "TBMT", Ghost(g))
        .step(-1441162751, 10800, 0, "+03", Ghost(g))
        .step(-405140400, 14400, 0, "+04", Ghost(g))
        .step(354916800, 14400, 3600, "+05", Ghost(g))
        .step(370724400, 14400, 0, "+04", Ghost(g))
        .step(386452800, 14400, 3600, "+05", Ghost(g))
        .step(402260400, 14400, 0, "+04", Ghost(g))
        .step(417988800, 14400, 3600, "+05", Ghost(g))
        .step(433796400, 14400, 0, "+04", Ghost(g))
        .step(449611200, 14400, 3600, "+05", Ghost(g))
        .step(465343200, 14400, 0, "+04", Ghost(g))
        .step(481068000, 14400, 3600, "+05", Ghost(g))
        .step(496792800, 14400, 0, "+04", Ghost(g))
        .step(512517600, 14400, 3600, "+05", Ghost(g))
        .step(528242400, 14400, 0, "+04", Ghost(g))
        .step(543967200, 14400, 3600, "+05", Ghost(g))
        .step(559692000, 14400, 0, "+04", Ghost(g))
        .step(575416800, 14400, 3600, "+05", Ghost(g))
        .step(591141600, 14400, 0, "+04", Ghost(g))
        .step(606866400, 14400, 3600, "+05", Ghost(g))
        .step(622591200, 14400, 0, "+04", Ghost(g))
        .step(638316000, 14400, 3600, "+05", Ghost(g))
        .step(654645600, 14400, 0, "+04", Ghost(g))
        .step(670370400, 10800, 3600, "+04", Ghost(g))
        .step(686098800, 10800, 0, "+03", Ghost(g))
        .step(701816400, 10800, 3600, "+04", Ghost(g))
        .step(717537600, 10800, 0, "+03", Ghost(g))
        .step(733266000, 10800, 3600, "+04", Ghost(g))
        .step(748987200, 10800, 0, "+03", Ghost(g))
        .step(764715600, 10800, 3600, "+04", Ghost(g))
        .step(780436800, 14400, 0, "+04", Ghost(g))
        .step(796161600, 14400, 3600, "+05", Ghost(g))
        .step(811882800, 14400, 0, "+04", Ghost(g))
        .step(828216000, 14400, 3600, "+05", Ghost(g))
        .step(859662000, 14400, 3600, "+05", Ghost(g))
        .step(877806000, 14400, 0, "+04", Ghost(g))
        .step(891115200, 14400, 3600, "+05", Ghost(g))
        .step(909255600, 14400, 0, "+04", Ghost(g))
        .step(922564800, 14400, 3600, "+05", Ghost(g))
        .step(941310000, 14400, 0, "+04", Ghost(g))
        .step(954014400, 14400, 3600, "+05", Ghost(g))
        .step(972759600, 14400, 0, "+04", Ghost(g))
        .step(985464000, 14400, 3600, "+05", Ghost(g))
        .step(1004209200, 14400, 0, "+04", Ghost(g))
        .step(1017518400, 14400, 3600, "+05", Ghost(g))
        .step(1035658800, 14400, 0, "+04", Ghost(g))
        .step(1048968000, 14400, 3600, "+05", Ghost(g))
        .step(1067108400, 14400, 0, "+04", Ghost(g))
        .step(1080417600, 14400, 3600, "+05", Ghost(g))
        .step(1088276400, 10800, 3600, "+04", Ghost(g))
        .step(1099177200, 10800, 0, "+03", Ghost(g))
        .step(1111878000, 14400, 0, "+04", Ghost(g))
        .step(2147483647, 14400, 0, "+04", Ghost(g))
        .finish(Ghost(g))
}

/// The zone `Asia/Tehran`.
pub fn tehran() -> (r: Tz)
    ensures
        r.wf(),
        r.zone_name() == "Asia/Tehran"@,
        r.table() == tables::asia::tehran(),
{
    let ghost g = tables::asia::tehran_rows();
    FixedTimespanSet::begin("Asia/Tehran", 12344, 0, "LMT", Ghost(g))
        .step(-1704165944, 12344, 0, "TMT", Ghost(g))
        .step(-1090466744, 12600, 0, "+0330", Ghost(g))
        .step(227820600, 12600, 3600, "+0430", Ghost(g))
        .step(246223800, 14400, 0, "+04", Ghost(g))
        .step(259617600, 14400, 3600, "+05", Ghost(g))
        .step(271108800, 14400, 0, "+04", Ghost(g))
        .step(279576000, 12600, 0, "+0330", Ghost(g))
        .step(296598600, 12600, 3600, "+0430", Ghost(g))
        .step(306531000, 12600, 0, "+0330", Ghost(g))
        .step(322432200, 12600, 3600, "+0430", Ghost(g))
        .step(338499000, 12600, 0, "+0330", Ghost(g))
        .step(673216200, 12600, 3600, "+0430", Ghost(g))
        .step(685481400, 12600, 0, "+0330", Ghost(g))
        .step(701209800, 12600, 3600, "+0430", Ghost(g))
        .step(717103800, 12600, 0, "+0330", Ghost(g))
        .step(732745800, 12600, 3600, "+0430", Ghost(g))
        .step(748639800, 12600, 0, "+0330", Ghost(g))
        .step(764281800, 12600, 3600, "+0430", Ghost(g))
        .step(780175800, 12600, 0, "+0330", Ghost(g))
        .step(795817800, 12600, 3600, "+0430", Ghost(g))
        .step(811711800, 12600, 0, "+0330", Ghost(g))
        .step(827353800, 12600, 3600, "+0430", Ghost(g))
        .step(843247800, 12600, 0, "+0330", Ghost(g))
        .step(858976200, 12600, 3600, "+0430", Ghost(g))
        .step(874870200, 12600, 0, "+0330", Ghost(g))
        .step(890512200, 12600, 3600, "+0430", Ghost(g))
        .step(906406200, 12600, 0, "+0330", Ghost(g))
        .step(922048200, 12600, 3600, "+0430", Ghost(g))
        .step(937942200, 12600, 0, "+0330", Ghost(g))
        .step(953584200, 12600, 3600, "+0430", Ghost(g))
        .step(969478200, 12600, 0, "+0330", Ghost(g))
        .step(985206600, 12600, 3600, "+0430", Ghost(g))
        .step(1001100600, 12600, 0, "+0330", Ghost(g))
        .step(1016742600, 12600, 3600, "+0430", Ghost(g))
        .step(1032636600, 12600, 0, "+0330", Ghost(g))
        .step(1048278600, 12600, 3600, "+0430", Ghost(g))
        .step(1064172600, 12600, 0, "+0330", Ghost(g))
        .step(1079814600, 12600, 3600, "+0430", Ghost(g))
        .step(1095708600, 12600, 0, "+0330", Ghost(g))
        .step(1111437000, 12600, 3600, "+0430", Ghost(g))
        .step(1127331000, 12600, 0, "+0330", Ghost(g))
        .step(1206045000, 12600, 3600, "+0430", Ghost(g))
        .step(1221939000, 12600, 0, "+0330", Ghost(g))
        .step(1237667400, 12600, 3600, "+0430", Ghost(g))
        .step(1253561400, 12600, 0, "+0330", Ghost(g))
        .step(1269203400, 12600, 3600, "+0430", Ghost(g))
        .step(1285097400, 12600, 0, "+0330", Ghost(g))
        .step(1300739400, 12600, 3600, "+0430", Ghost(g))
        .step(1316633400, 12600, 0, "+0330", Ghost(g))
        .step(1332275400, 12600, 3600, "+0430", Ghost(g))
        .step(1348169400, 12600, 0, "+0330", Ghost(g))
        .step(1363897800, 12600, 3600, "+0430", Ghost(g))
        .step(1379791800, 12600, 0, "+0330", Ghost(g))
        .step(1395433800, 12600, 3600, "+0430", Ghost(g))
        .step(1411327800, 12600, 0, "+0330", Ghost(g))
        .step(1426969800, 12600, 3600, "+0430", Ghost(g))
        .step(1442863800, 12600, 0, "+0330", Ghost(g))
        .step(1458505800, 12600, 3600, "+0430", Ghost(g))
        .step(1474399800, 12600, 0, "+0330", Ghost(g))
        .step(1490128200, 12600, 3600, "+0430", Ghost(g))
        .step(1506022200, 12600, 0, "+0330", Ghost(g))
        .step(1521664200, 12600, 3600, "+0430", Ghost(g))
        .step(1537558200, 12600, 0, "+0330", Ghost(g))
        .step(1553200200, 12600, 3600, "+0430", Ghost(g))
        .step(1569094200, 12600, 0, "+0330", Ghost(g))
        .step(1584736200, 12600, 3600, "+0430", Ghost(g))
        .step(1600630200, 12600, 0, "+0330", Ghost(g))
        .step(1616358600, 12600, 3600, "+0430", Ghost(g))
        .step(1632252600, 12600, 0, "+0330", Ghost(g))
        .step(1647894600, 12600, 3600, "+0430", Ghost(g))
        .step(1663788600, 12600, 0, "+0330", Ghost(g))
        .step(2147483647, 12600, 0, "+0330", Ghost(g))
        .finish(Ghost(g))
}

/// The zone `Asia/Tel_Aviv`.
pub fn tel_aviv() -> (r: Tz)
    ensures
        r.wf(),
        r.zone_name() == "Asia/Tel_Aviv"@,
        r.table() == tables::asia::tel_aviv(),
{
    let ghost g = tables::asia::tel_aviv_rows();
    FixedTimespanSet::begin("Asia/Tel_Aviv", 8454, 0, "LMT", Ghost(g))
        .step(-2840149254, 8440, 0, "JMT", Ghost(g))
        .step(-1641003640, 7200, 0, "IST", Ghost(g))
        .step(-933638400, 7200, 3600, "IDT", Ghost(g))
        .step(-923097600, 7200, 0, "IST", Ghost(g))
        .step(-919036800, 7200, 3600, "IDT", Ghost(g))
        .step(-857347200, 7200, 0, "IST", Ghost(g))
        .step(-844300800, 7200, 3600, "IDT", Ghost(g))
        .step(-825811200, 7200, 0, "IST", Ghost(g))
        .step(-812678400, 7200, 3600, "IDT", Ghost(g))
        .step(-794188800, 7200, 0, "IST", Ghost(g))
        .step(-779846400, 7200, 3600, "IDT", Ghost(g))
        .step(-762652800, 7200, 0, "IST", Ghost(g))
        .step(-748310400, 7200, 3600, "IDT", Ghost(g))
        .step(-731116800, 7200, 0, "IST", Ghost(g))
        .step(-681955200, 7200, 7200, "IDDT", Ghost(g))
        .step(-673228800, 7200, 3600, "IDT", Ghost(g))
        .step(-667958400, 7200, 0, "IST", Ghost(g))
        .step(-652320000, 7200, 3600, "IDT", Ghost(g))
        .step(-636422400, 7200, 0, "IST", Ghost(g))
        .step(-622080000, 7200, 3600, "IDT", Ghost(g))
        .step(-608947200, 7200, 0, "IST", Ghost(g))
        .step(-591840000, 7200, 3600, "IDT", Ghost(g))
        .step(-572486400, 7200, 0, "IST", Ghost(g))
        .step(-558576000, 7200, 3600, "IDT", Ghost(g))
        .step(-542851200, 7200, 0, "IST", Ghost(g))
        .step(-527731200, 7200, 3600, "IDT", Ghost(g))
        .step(-514425600, 7200, 0, "IST", Ghost(g))
        .step(-490838400, 7200, 3600, "IDT", Ghost(g))
        .step(-482976000, 7200, 0, "IST", Ghost(g))
        .step(-459388800, 7200, 3600, "IDT", Ghost(g))
        .step(-451526400, 7200, 0, "IST", Ghost(g))
        .step(-428544000, 7200, 3600, "IDT", Ghost(g))
        .step(-418262400, 7200, 0, "IST", Ghost(g))
        .step(-400118400, 7200, 3600, "IDT", Ghost(g))
        .step(-387417600, 7200, 0, "IST", Ghost(g))
        .step(142380000, 7200, 3600, "IDT", Ghost(g))
        .step(150843600, 7200, 0, "IST", Ghost(g))
        .step(167176800, 7200, 3600, "IDT", Ghost(g))
        .step(178664400, 7200, 0, "IST", Ghost(g))
        .step(334101600, 7200, 3600, "IDT", Ghost(g))
        .step(337730400, 7200, 0, "IST", Ghost(g))
        .step(452642400, 7200, 3600, "IDT", Ghost(g))
        .step(462319200, 7200, 0, "IST", Ghost(g))
        .step(482277600, 7200, 3600, "IDT", Ghost(g))
        .step(494370000, 7200, 0, "IST", Ghost(g))
        .step(516751200, 7200, 3600, "IDT", Ghost(g))
        .step(526424400, 7200, 0, "IST", Ghost(g))
        .step(545436000, 7200, 3600, "IDT", Ghost(g))
        .step(558478800, 7200, 0, "IST", Ghost(g))
        .step(576626400, 7200, 3600, "IDT", Ghost(g))
        .step(589323600, 7200, 0, "IST", Ghost(g))
        .step(609890400, 7200, 3600, "IDT", Ghost(g))
        .step(620773200, 7200, 0, "IST", Ghost(g))
        .step(638316000, 7200, 3600, "IDT", Ghost(g))
        .step(651618000, 7200, 0, "IST", Ghost(g))
        .step(669765600, 7200, 3600, "IDT", Ghost(g))
        .step(683672400, 7200, 0, "IST", Ghost(g))
        .step(701820000, 7200, 3600, "IDT", Ghost(g))
        .step(715726800, 7200, 0, "IST", Ghost(g))
        .step(733701600, 7200, 3600, "IDT", Ghost(g))
        .step(747176400, 7200, 0, "IST", Ghost(g))
        .step(765151200, 7200, 3600, "IDT", Ghost(g))
        .step(778021200, 7200, 0, "IST", Ghost(g))
        .step(796600800, 7200, 3600, "IDT", Ghost(g))
        .step(810075600, 7200, 0, "IST", Ghost(g))
        .step(826840800, 7200, 3600, "IDT", Ghost(g))
        .step(842821200, 7200, 0, "IST", Ghost(g))
        .step(858895200, 7200, 3600, "IDT", Ghost(g))
        .step(874184400, 7200, 0, "IST", Ghost(g))
        .step(890344800, 7200, 3600, "IDT", Ghost(g))
        .step(905029200, 7200, 0, "IST", Ghost(g))
        .step(923011200, 7200, 3600, "IDT", Ghost(g))
        .step(936313200, 7200, 0, "IST", Ghost(g))
        .step(955670400, 7200, 3600, "IDT", Ghost(g))
        .step(970783200, 7200, 0, "IST", Ghost(g))
        .step(986770800, 7200, 3600, "IDT", Ghost(g))
        .step(1001282400, 7200, 0, "IST", Ghost(g))
        .step(1017356400, 7200, 3600, "IDT", Ghost(g))
        .step(1033941600, 7200, 0, "IST", Ghost(g))
        .step(1048806000, 7200, 3600, "IDT", Ghost(g))
        .step(1065132000, 7200, 0, "IST", Ghost(g))
        .step(1081292400, 7200, 3600, "IDT", Ghost(g))
        .step(1095804000, 7200, 0, "IST", Ghost(g))
        .step(1112313600, 7200, 3600, "IDT", Ghost(g))
        .step(1128812400, 7200, 0, "IST", Ghost(g))
        .step(1143763200, 7200, 3600, "IDT", Ghost(g))
        .step(1159657200, 7200, 0, "IST", Ghost(g))
        .step(1175212800, 7200, 3600, "IDT", Ghost(g))
        .step(1189897200, 7200, 0, "IST", Ghost(g))
        .step(1206662400, 7200, 3600, "IDT", Ghost(g))
        .step(1223161200, 7200, 0, "IST", Ghost(g))
        .step(1238112000, 7200, 3600, "IDT", Ghost(g))
        .step(1254006000, 7200, 0, "IST", Ghost(g))
        .step(1269561600, 7200, 3600, "IDT", Ghost(g))
        .step(1284246000, 7200, 0, "IST", Ghost(g))
        .step(1301616000, 7200, 3600, "IDT", Ghost(g))
        .step(1317510000, 7200, 0, "IST", Ghost(g))
        .step(1333065600, 7200, 3600, "IDT", Ghost(g))
        .step(1348354800, 7200, 0, "IST", Ghost(g))
        .step(1364515200, 7200, 3600, "IDT", Ghost(g))
        .step(1382828400, 7200, 0, "IST", Ghost(g))
        .step(1395964800, 7200, 3600, "IDT", Ghost(g))
        .step(1414278000, 7200, 0, "IST", Ghost(g))
        .step(1427414400, 7200, 3600, "IDT", Ghost(g))
        .step(1445727600, 7200, 0, "IST", Ghost(g))
        .step(1458864000, 7200, 3600, "IDT", Ghost(g))
        .step(1477782000, 7200, 0, "IST", Ghost(g))
        .step(1490313600, 7200, 3600, "IDT", Ghost(g))
        .step(1509231600, 7200, 0, "IST", Ghost(g))
        .step(1521763200, 7200, 3600, "IDT", Ghost(g))
        .step(1540681200, 7200, 0, "IST", Ghost(g))
        .step(1553817600, 7200, 3600, "IDT", Ghost(g))
        .step(1572130800, 7200, 0, "IST", Ghost(g))
        .step(1585267200, 7200, 3600, "IDT", Ghost(g))
        .step(1603580400, 7200, 0, "IST", Ghost(g))
        .step(1616716800, 7200, 3600, "IDT", Ghost(g))
        .step(1635634800, 7200, 0, "IST", Ghost(g))
        .step(1648166400, 7200, 3600, "IDT", Ghost(g))
        .step(1667084400, 7200, 0, "IST", Ghost(g))
        .step(1679616000, 7200, 3600, "IDT", Ghost(g))
        .step(1698534000, 7200, 0, "IST", Ghost(g))
        .step(1711670400, 7200, 3600, "IDT", Ghost(g))
        .step(1729983600, 7200, 0, "IST", Ghost(g))
        .step(1743120000, 7200, 3600, "IDT", Ghost(g))
        .step(1761433200, 7200, 0, "IST", Ghost(g))
        .step(1774569600, 7200, 3600, "IDT", Ghost(g))
        .step(1792882800, 7200, 0, "IST", Ghost(g))
        .step(1806019200, 7200, 3600, "IDT", Ghost(g))
        .step(1824937200, 7200, 0, "IST", Ghost(g))
        .step(1837468800, 7200, 3600, "IDT", Ghost(g))
        .step(1856386800, 7200, 0, "IST", Ghost(g))
        .step(1868918400, 7200, 3600, "IDT", Ghost(g))
        .step(1887836400, 7200, 0, "IST", Ghost(g))
        .step(1900972800, 7200, 3600, "IDT", Ghost(g))
        .step(1919286000, 7200, 0, "IST", Ghost(g))
        .step(1932422400, 7200, 3600, "IDT", Ghost(g))
        .step(1950735600, 7200, 0, "IST", Ghost(g))
        .step(1963872000, 7200, 3600, "IDT", Ghost(g))
        .step(1982790000, 7200, 0, "IST", Ghost(g))
        .step(1995321600, 7200, 3600, "IDT", Ghost(g))
        .step(2014239600, 7200, 0, "IST", Ghost(g))
        .step(2026771200, 7200, 3600, "IDT", Ghost(g))
        .step(2045689200, 7200, 0, "IST", Ghost(g))
        .step(2058220800, 7200, 3600, "IDT", Ghost(g))
        .step(2077138800, 7200, 0, "IST", Ghost(g))
        .step(2090275200, 7200, 3600, "IDT", Ghost(g))
        .step(2108588400, 7200, 0, "IST", Ghost(g))
        .step(2121724800, 7200, 3600, "IDT", Ghost(g))
        .step(2140038000, 7200, 0, "IST", Ghost(g))
        .finish(Ghost(g))
}

/// The zone `Asia/Thimbu`.
pub fn thimbu() -> (r: Tz)
    ensures
        r.wf(),
        r.zone_name() == "Asia/Thimbu"@,
        r.table() == tables::asia::thimbu(),
{
    let ghost g = tables::asia::thimbu_rows();
    FixedTimespanSet::begin("Asia/Thimbu", 21516, 0, "LMT", Ghost(g))
        .step(-706341516, 19800, 0, "+0530", Ghost(g))
        .step(560025000, 21600, 0, "+06", Ghost(g))
        .step(2147483647, 21600, 0, "+06", Ghost(g))
        .finish(Ghost(g))
}

/// The zone `Asia/Thimphu`.
pub fn thimphu() -> (r: Tz)
    ensures
        r.wf(),
        r.zone_name() == "Asia/Thimphu"@,
        r.table() == tables::asia::thimphu(),
{
    let ghost g = tables::asia::thimphu_rows();
    FixedTimespanSet::begin("Asia/Thimphu", 21516, 0, "LMT", Ghost(g))
        .step(-706341516, 19800, 0, "+0530", Ghost(g))
        .step(560025000, 21600, 0, "+06", Ghost(g))
        .step(2147483647, 21600, 0, "+06", Ghost(g))
        .finish(Ghost(g))
}

/// The zone `Asia/Tokyo`.
pub fn tokyo() -> (r: Tz)
    ensures
        r.wf(),
        r.zone_name() == "Asia/Tokyo"@,
        r.table() == tables::asia::tokyo(),
{
    let ghost g = tables::asia::tokyo_rows();
    FixedTimespanSet::begin("Asia/Tokyo", 33539, 0, "LMT", Ghost(g))
        .step(-2587712400, 32400, 0, "JST", Ghost(g))
        .step(-683802000, 32400, 3600, "JDT", Ghost(g))
        .step(-672310800, 32400, 0, "JST", Ghost(g))
        .step(-654771600, 32400, 3600, "JDT", Ghost(g))
        .step(-640861200, 32400, 0, "JST", Ghost(g))
        .step(-620298000, 32400, 3600, "JDT", Ghost(g))
        .step(-609411600, 32400, 0, "JST", Ghost(g))
        .step(-588848400, 32400, 3600, "JDT", Ghost(g))
        .step(-577962000, 32400, 0, "JST", Ghost(g))
        .finish(Ghost(g))
}

/// The zone `Asia/Tomsk`.
pub fn tomsk() -> (r: Tz)
    ensures
        r.wf(),
        r.zone_name() == "Asia/Tomsk"@,
        r.table() == tables::asia::tomsk(),
{
    let ghost g = tables::asia::tomsk_rows();
    FixedTimespanSet::begin("Asia/Tomsk", 20391, 0, "LMT", Ghost(g))
        .step(-1578807591, 21600, 0, "+06", Ghost(g))
        .step(-1247551200, 25200, 0, "+07", Ghost(g))
        .step(354906000, 25200, 3600, "+08", Ghost(g))
        .step(370713600, 25200, 0, "+07", Ghost(g))
        .step(386442000, 25200, 3600, "+08", Ghost(g))
        .step(402249600, 25200, 0, "+07", Ghost(g))
        .step(417978000, 25200, 3600, "+08", Ghost(g))
        .step(433785600, 25200, 0, "+07", Ghost(g))
        .step(449600400, 25200, 3600, "+08", Ghost(g))
        .step(465332400, 25200, 0, "+07", Ghost(g))
        .step(481057200, 25200, 3600, "+08", Ghost(g))
        .step(496782000, 25200, 0, "+07", Ghost(g))
        .step(512506800, 25200, 3600, "+08", Ghost(g))
        .step(528231600, 25200, 0, "+07", Ghost(g))
        .step(543956400, 25200, 3600, "+08", Ghost(g))
        .step(559681200, 25200, 0, "+07", Ghost(g))
        .step(575406000, 25200, 3600, "+08", Ghost(g))
        .step(591130800, 25200, 0, "+07", Ghost(g))
        .step(606855600, 25200, 3600, "+08", Ghost(g))
        .step(622580400, 25200, 0, "+07", Ghost(g))
        .step(638305200, 25200, 3600, "+08", Ghost(g))
        .step(654634800, 25200, 0, "+07", Ghost(g))
        .step(670359600, 21600, 3600, "+07", Ghost(g))
        .step(686088000, 21600, 0, "+06", Ghost(g))
        .step(695764800, 25200, 0, "+07", Ghost(g))
        .step(701809200, 25200, 3600, "+08", Ghost(g))
        .step(717534000, 25200, 0, "+07", Ghost(g))
        .step(733258800, 25200, 3600, "+08", Ghost(g))
        .step(748983600, 25200, 0, "+07", Ghost(g))
        .step(764708400, 25200, 3600, "+08", Ghost(g))
        .step(780433200, 25200, 0, "+07", Ghost(g))
        .step(796158000, 25200, 3600, "+08", Ghost(g))
        .step(811882800, 25200, 0, "+07", Ghost(g))
        .step(828212400, 25200, 3600, "+08", Ghost(g))
        .step(846356400, 25200, 0, "+07", Ghost(g))
        .step(859662000, 25200, 3600, "+08", Ghost(g))
        .step(877806000, 25200, 0, "+07", Ghost(g))
        .step(891111600, 25200, 3600, "+08", Ghost(g))
        .step(909255600, 25200, 0, "+07", Ghost(g))
        .step(922561200, 25200, 3600, "+08", Ghost(g))
        .step(941310000, 25200, 0, "+07", Ghost(g))
        .step(954010800, 25200, 3600, "+08", Ghost(g))
        .step(972759600, 25200, 0, "+07", Ghost(g))
        .step(985460400, 25200, 3600, "+08", Ghost(g))
        .step(1004209200, 25200, 0, "+07", Ghost(g))
        .step(1017514800, 25200, 3600, "+08", Ghost(g))
        .step(1020193200, 21600, 3600, "+07", Ghost(g))
        .step(1035662400, 21600, 0, "+06", Ghost(g))
        .step(1048968000, 21600, 3600, "+07", Ghost(g))
        .step(1067112000, 21600, 0, "+06", Ghost(g))
        .step(1080417600, 21600, 3600, "+07", Ghost(g))
        .step(1099166400, 21600, 0, "+06", Ghost(g))
        .step(1111867200, 21600, 3600, "+07", Ghost(g))
        .step(1130616000, 21600, 0, "+06", Ghost(g))
        .step(1143316800, 21600, 3600, "+07", Ghost(g))
        .step(1162065600, 21600, 0, "+06", Ghost(g))
        .step(1174766400, 21600, 3600, "+07", Ghost(g))
        .step(1193515200, 21600, 0, "+06", Ghost(g))
        .step(1206820800, 21600, 3600, "+07", Ghost(g))
        .step(1224964800, 21600, 0, "+06", Ghost(g))
        .step(1238270400, 21600, 3600, "+07", Ghost(g))
        .step(1256414400, 21600, 0, "+06", Ghost(g))
        .step(1269720000, 21600, 3600, "+07", Ghost(g))
        .step(1288468800, 21600, 0, "+06", Ghost(g))
        .step(1301169600, 25200, 0, "+07", Ghost(g))
        .step(1414263600, 21600, 0, "+06", Ghost(g))
        .step(1464465600, 25200, 0, "+07", Ghost(g))
        .step(2147483647, 25200, 0, "+07", Ghost(g))
        .finish(Ghost(g))
}

/// The zone `Asia/Ujung_Pandang`.
pub fn ujung_pandang() -> (r: Tz)
    ensures
        r.wf(),
        r.zone_name() == "Asia/Ujung_Pandang"@,
        r.table() == tables::asia::ujung_pandang(),
{
    let ghost g = tables::asia::ujung_pandang_rows();
    FixedTimespanSet::begin("Asia/Ujung_Pandang", 28656, 0, "LMT", Ghost(g))
        .step(-1577951856, 28656, 0, "MMT", Ghost(g))
        .step(-1172908656, 28800, 0, "+08", Ghost(g))
        .step(-880272000, 32400, 0, "+09", Ghost(g))
        .step(-766054800, 28800, 0, "WITA", Ghost(g))
        .finish(Ghost(g))
}

/// The zone `Asia/Ulaanbaatar`.
pub fn ulaanbaatar() -> (r: Tz)
    ensures
        r.wf(),
        r.zone_name() == "Asia/Ulaanbaatar"@,
        r.table() == tables::asia::ulaanbaatar(),
{
    let ghost g = tables::asia::ulaanbaatar_rows();
    FixedTimespanSet::begin("Asia/Ulaanbaatar", 25652, 0, "LMT", Ghost(g))
        .step(-2032931252, 25200, 0, "+07", Ghost(g))
        .step(252435600, 28800, 0, "+08", Ghost(g))
        .step(417974400, 28800, 3600, "+09", Ghost(g))
        .step(433782000, 28800, 0, "+08", Ghost(g))
        .step(449596800, 28800, 3600, "+09", Ghost(g))
        .step(465318000, 28800, 0, "+08", Ghost(g))
        .step(481046400, 28800, 3600, "+09", Ghost(g))
        .step(496767600, 28800, 0, "+08", Ghost(g))
        .step(512496000, 28800, 3600, "+09", Ghost(g))
        .step(528217200, 28800, 0, "+08", Ghost(g))
        .step(543945600, 28800, 3600, "+09", Ghost(g))
        .step(559666800, 28800, 0, "+08", Ghost(g))
        .step(575395200, 28800, 3600, "+09", Ghost(g))
        .step(591116400, 28800, 0, "+08", Ghost(g))
        .step(606844800, 28800, 3600, "+09", Ghost(g))
        .step(622566000, 28800, 0, "+08", Ghost(g))
        .step(638294400, 28800, 3600, "+09", Ghost(g))
        .step(654620400, 28800, 0, "+08", Ghost(g))
        .step(670348800, 28800, 3600, "+09", Ghost(g))
        .step(686070000, 28800, 0, "+08", Ghost(g))
        .step(701798400, 28800, 3600, "+09", Ghost(g))
        .step(717519600, 28800, 0, "+08", Ghost(g))
        .step(733248000, 28800, 3600, "+09", Ghost(g))
        .step(748969200, 28800, 0, "+08", Ghost(g))
        .step(764697600, 28800, 3600, "+09", Ghost(g))
        .step(780418800, 28800, 0, "+08", Ghost(g))
        .step(796147200, 28800, 3600, "+09", Ghost(g))
        .step(811868400, 28800, 0, "+08", Ghost(g))
        .step(828201600, 28800, 3600, "+09", Ghost(g))
        .step(843922800, 28800, 0, "+08", Ghost(g))
        .step(859651200, 28800, 3600, "+09", Ghost(g))
        .step(875372400, 28800, 0, "+08", Ghost(g))
        .step(891100800, 28800, 3600, "+09", Ghost(g))
        .step(906822000, 28800, 0, "+08", Ghost(g))
        .step(988394400, 28800, 3600, "+09", Ghost(g))
        .step(1001696400, 28800, 0, "+08", Ghost(g))
        .step(1017424800, 28800, 3600, "+09", Ghost(g))
        .step(1033146000, 28800, 0, "+08", Ghost(g))
        .step(1048874400, 28800, 3600, "+09", Ghost(g))
        .step(1064595600, 28800, 0, "+08", Ghost(g))
        .step(1080324000, 28800, 3600, "+09", Ghost(g))
        .step(1096045200, 28800, 0, "+08", Ghost(g))
        .step(1111773600, 28800, 3600, "+09", Ghost(g))
        .step(1127494800, 28800, 0, "+08", Ghost(g))
        .step(1143223200, 28800, 3600, "+09", Ghost(g))
        .step(1159549200, 28800, 0, "+08", Ghost(g))
        .step(1427479200, 28800, 3600, "+09", Ghost(g))
        .step(1443193200, 28800, 0, "+08", Ghost(g))
        .step(1458928800, 28800, 3600, "+09", Ghost(g))
        .step(1474642800, 28800, 0, "+08", Ghost(g))
        .step(2147483647, 28800, 0, "+08", Ghost(g))
        .finish(Ghost(g))
}

/// The zone `Asia/Ulan_Bator`.
pub fn ulan_bator() -> (r: Tz)
    ensures
        r.wf(),
        r.zone_name() == "Asia/Ulan_Bator"@,
        r.table() == tables::asia::ulan_bator(),
{
    let ghost g = tables::asia::ulan_bator_rows();
    FixedTimespanSet::begin("Asia/Ulan_Bator", 25652, 0, "LMT", Ghost(g))
        .step(-2032931252, 25200, 0, "+07", Ghost(g))
        .step(252435600, 28800, 0, "+08", Ghost(g))
        .step(417974400, 28800, 3600, "+09", Ghost(g))
        .step(433782000, 28800, 0, "+08", Ghost(g))
        .step(449596800, 28800, 3600, "+09", Ghost(g))
        .step(465318000, 28800, 0, "+08", Ghost(g))
        .step(481046400, 28800, 3600, "+09", Ghost(g))
        .step(496767600, 28800, 0, "+08", Ghost(g))
        .step(512496000, 28800, 3600, "+09", Ghost(g))
        .step(528217200, 28800, 0, "+08", Ghost(g))
        .step(543945600, 28800, 3600, "+09", Ghost(g))
        .step(559666800, 28800, 0, "+08", Ghost(g))
        .step(575395200, 28800, 3600, "+09", Ghost(g))
        .step(591116400, 28800, 0, "+08", Ghost(g))
        .step(606844800, 28800, 3600, "+09", Ghost(g))
        .step(622566000, 28800, 0, "+08", Ghost(g))
        .step(638294400, 28800, 3600, "+09", Ghost(g))
        .step(654620400, 28800, 0, "+08", Ghost(g))
        .step(670348800, 28800, 3600, "+09", Ghost(g))
        .step(686070000, 28800, 0, "+08", Ghost(g))
        .step(701798400, 28800, 3600, "+09", Ghost(g))
        .step(717519600, 28800, 0, "+08", Ghost(g))
        .step(733248000, 28800, 3600, "+09", Ghost(g))
        .step(748969200, 28800, 0, "+08", Ghost(g))
        .step(764697600, 28800, 3600, "+09", Ghost(g))
        .step(780418800, 28800, 0, "+08", Ghost(g))
        .step(796147200, 28800, 3600, "+09", Ghost(g))
        .step(811868400, 28800, 0, "+08", Ghost(g))
        .step(828201600, 28800, 3600, "+09", Ghost(g))
        .step(843922800, 28800, 0, "+08", Ghost(g))
        .step(859651200, 28800, 3600, "+09", Ghost(g))
        .step(875372400, 28800, 0, "+08", Ghost(g))
        .step(891100800, 28800, 3600, "+09", Ghost(g))
        .step(906822000, 28800, 0, "+08", Ghost(g))
        .step(988394400, 28800, 3600, "+09", Ghost(g))
        .step(1001696400, 28800, 0, "+08", Ghost(g))
        .step(1017424800, 28800, 3600, "+09", Ghost(g))
        .step(1033146000, 28800, 0, "+08", Ghost(g))
        .step(1048874400, 28800, 3600, "+09", Ghost(g))
        .step(1064595600, 28800, 0, "+08", Ghost(g))
        .step(1080324000, 28800, 3600, "+09", Ghost(g))
        .step(1096045200, 28800, 0, "+08", Ghost(g))
        .step(1111773600, 28800, 3600, "+09", Ghost(g))
        .step(1127494800, 28800, 0, "+08", Ghost(g))
        .step(1143223200, 28800, 3600, "+09", Ghost(g))
        .step(1159549200, 28800, 0, "+08", Ghost(g))
        .step(1427479200, 28800, 3600, "+09", Ghost(g))
        .step(1443193200, 28800, 0, "+08", Ghost(g))
        .step(1458928800, 28800, 3600, "+09", Ghost(g))
        .step(1474642800, 28800, 0, "+08", Ghost(g))
        .step(2147483647, 28800, 0, "+08", Ghost(g))
        .finish(Ghost(g))
}

/// The zone `Asia/Urumqi`.
pub fn urumqi() -> (r: Tz)
    ensures
        r.wf(),
        r.zone_name() == "Asia/Urumqi"@,
        r.table() == tables::asia::urumqi(),
{
    let ghost g = tables::asia::urumqi_rows();
    FixedTimespanSet::begin("Asia/Urumqi", 21020, 0, "LMT", Ghost(g))
        .step(-1325483420, 21600, 0, "+06", Ghost(g))
        .step(2147483647, 21600, 0, "+06", Ghost(g))
        .finish(Ghost(g))
}

/// The zone `Asia/Ust-Nera`.
pub fn ust_nera() -> (r: Tz)
    ensures
        r.wf(),
        r.zone_name() == "Asia/Ust-Nera"@,
        r.table() == tables::asia::ust_nera(),
{
    let ghost g = tables::asia::ust_nera_rows();
    FixedTimespanSet::begin("Asia/Ust-Nera", 34374, 0, "LMT", Ghost(g))
        .step(-1579426374, 28800, 0, "+08", Ghost(g))
        .step(-1247558400, 32400, 0, "+09", Ghost(g))
        .step(354898800, 32400, 10800, "+12", Ghost(g))
        .step(370699200, 39600, 0, "+11", Ghost(g))
        .step(386427600, 39600, 3600, "+12", Ghost(g))
        .step(402235200, 39600, 0, "+11", Ghost(g))
        .step(417963600, 39600, 3600, "+12", Ghost(g))
        .step(433771200, 39600, 0, "+11", Ghost(g))
        .step(449586000, 39600, 3600, "+12", Ghost(g))
        .step(465318000, 39600, 0, "+11", Ghost(g))
        .step(481042800, 39600, 3600, "+12", Ghost(g))
        .step(496767600, 39600, 0, "+11", Ghost(g))
        .step(512492400, 39600, 3600, "+12", Ghost(g))
        .step(528217200, 39600, 0, "+11", Ghost(g))
        .step(543942000, 39600, 3600, "+12", Ghost(g))
        .step(559666800, 39600, 0, "+11", Ghost(g))
        .step(575391600, 39600, 3600, "+12", Ghost(g))
        .step(591116400, 39600, 0, "+11", Ghost(g))
        .step(606841200, 39600, 3600, "+12", Ghost(g))
        .step(622566000, 39600, 0, "+11", Ghost(g))
        .step(638290800, 39600, 3600, "+12", Ghost(g))
        .step(654620400, 39600, 0, "+11", Ghost(g))
        .step(670345200, 36000, 3600, "+11", Ghost(g))
        .step(686073600, 36000, 0, "+10", Ghost(g))
        .step(695750400, 39600, 0, "+11", Ghost(g))
        .step(701794800, 39600, 3600, "+12", Ghost(g))
        .step(717519600, 39600, 0, "+11", Ghost(g))
        .step(733244400, 39600, 3600, "+12", Ghost(g))
        .step(748969200, 39600, 0, "+11", Ghost(g))
        .step(764694000, 39600, 3600, "+12", Ghost(g))
        .step(780418800, 39600, 0, "+11", Ghost(g))
        .step(796143600, 39600, 3600, "+12", Ghost(g))
        .step(811868400, 39600, 0, "+11", Ghost(g))
        .step(828198000, 39600, 3600, "+12", Ghost(g))
        .step(846342000, 39600, 0, "+11", Ghost(g))
        .step(859647600, 39600, 3600, "+12", Ghost(g))
        .step(877791600, 39600, 0, "+11", Ghost(g))
        .step(891097200, 39600, 3600, "+12", Ghost(g))
        .step(909241200, 39600, 0, "+11", Ghost(g))
        .step(922546800, 39600, 3600, "+12", Ghost(g))
        .step(941295600, 39600, 0, "+11", Ghost(g))
        .step(953996400, 39600, 3600, "+12", Ghost(g))
        .step(972745200, 39600, 0, "+11", Ghost(g))
        .step(985446000, 39600, 3600, "+12", Ghost(g))
        .step(1004194800, 39600, 0, "+11", Ghost(g))
        .step(1017500400, 39600, 3600, "+12", Ghost(g))
        .step(1035644400, 39600, 0, "+11", Ghost(g))
        .step(1048950000, 39600, 3600, "+12", Ghost(g))
        .step(1067094000, 39600, 0, "+11", Ghost(g))
        .step(1080399600, 39600, 3600, "+12", Ghost(g))
        .step(1099148400, 39600, 0, "+11", Ghost(g))
        .step(1111849200, 39600, 3600, "+12", Ghost(g))
        .step(1130598000, 39600, 0, "+11", Ghost(g))
        .step(1143298800, 39600, 3600, "+12", Ghost(g))
        .step(1162047600, 39600, 0, "+11", Ghost(g))
        .step(1174748400, 39600, 3600, "+12", Ghost(g))
        .step(1193497200, 39600, 0, "+11", Ghost(g))
        .step(1206802800, 39600, 3600, "+12", Ghost(g))
        .step(1224946800, 39600, 0, "+11", Ghost(g))
        .step(1238252400, 39600, 3600, "+12", Ghost(g))
        .step(1256396400, 39600, 0, "+11", Ghost(g))
        .step(1269702000, 39600, 3600, "+12", Ghost(g))
        .step(1288450800, 39600, 0, "+11", Ghost(g))
        .step(1301151600, 43200, 0, "+12", Ghost(g))
        .step(1315828800, 39600, 0, "+11", Ghost(g))
        .step(1414249200, 36000, 0, "+10", Ghost(g))
        .step(2147483647, 36000, 0, "+10", Ghost(g))
        .finish(Ghost(g))
}

/// The zone `Asia/Vientiane`.
pub fn vientiane() -> (r: Tz)
    ensures
        r.wf(),
        r.zone_name() == "Asia/Vientiane"@,
        r.table() == tables::asia::vientiane(),
{
    let ghost g = tables::asia::vientiane_rows();
    FixedTimespanSet::begin("Asia/Vientiane", 24624, 0, "LMT", Ghost(g))
        .step(-2004072624, 25590, 0, "PLMT", Ghost(g))
        .step(-1851577590, 25200, 0, "+07", Ghost(g))
        .step(-852105600, 28800, 0, "+08", Ghost(g))
        .step(-782643600, 32400, 0, "+09", Ghost(g))
        .step(-767869200, 25200, 0, "+07", Ghost(g))
        .step(-718095600, 28800, 0, "+08", Ghost(g))
        .step(-464428800, 25200, 0, "+07", Ghost(g))
        .step(2147483647, 25200, 0, "+07", Ghost(g))
        .finish(Ghost(g))
}

/// The zone `Asia/Vladivostok`.
pub fn vladivostok() -> (r: Tz)
    ensures
        r.wf(),
        r.zone_name() == "Asia/Vladivostok"@,
        r.table() == tables::asia::vladivostok(),
{
    let ghost g = tables::asia::vladivostok_rows();
    FixedTimespanSet::begin("Asia/Vladivostok", 31651, 0, "LMT", Ghost(g))
        .step(-1487321251, 32400, 0, "+09", Ghost(g))
        .step(-1247562000, 36000, 0, "+10", Ghost(g))
        .step(354895200, 36000, 3600, "+11", Ghost(g))
        .step(370702800, 36000, 0, "+10", Ghost(g))
        .step(386431200, 36000, 3600, "+11", Ghost(g))
        .step(402238800, 36000, 0, "+10", Ghost(g))
        .step(417967200, 36000, 3600, "+11", Ghost(g))
        .step(433774800, 36000, 0, "+10", Ghost(g))
        .step(449589600, 36000, 3600, "+11", Ghost(g))
        .step(465321600, 36000, 0, "+10", Ghost(g))
        .step(481046400, 36000, 3600, "+11", Ghost(g))
        .step(496771200, 36000, 0, "+10", Ghost(g))
        .step(512496000, 36000, 3600, "+11", Ghost(g))
        .step(528220800, 36000, 0, "+10", Ghost(g))
        .step(543945600, 36000, 3600, "+11", Ghost(g))
        .step(559670400, 36000, 0, "+10", Ghost(g))
        .step(575395200, 36000, 3600, "+11", Ghost(g))
        .step(591120000, 36000, 0, "+10", Ghost(g))
        .step(606844800, 36000, 3600, "+11", Ghost(g))
        .step(622569600, 36000, 0, "+10", Ghost(g))
        .step(638294400, 36000, 3600, "+11", Ghost(g))
        .step(654624000, 36000, 0, "+10", Ghost(g))
        .step(670348800, 32400, 3600, "+10", Ghost(g))
        .step(686077200, 32400, 0, "+09", Ghost(g))
        .step(695754000, 36000, 0, "+10", Ghost(g))
        .step(701798400, 36000, 3600, "+11", Ghost(g))
        .step(717523200, 36000, 0, "+10", Ghost(g))
        .step(733248000, 36000, 3600, "+11", Ghost(g))
        .step(748972800, 36000, 0, "+10", Ghost(g))
        .step(764697600, 36000, 3600, "+11", Ghost(g))
        .step(780422400, 36000, 0, "+10", Ghost(g))
        .step(796147200, 36000, 3600, "+11", Ghost(g))
        .step(811872000, 36000, 0, "+10", Ghost(g))
        .step(828201600, 36000, 3600, "+11", Ghost(g))
        .step(846345600, 36000, 0, "+10", Ghost(g))
        .step(859651200, 36000, 3600, "+11", Ghost(g))
        .step(877795200, 36000, 0, "+10", Ghost(g))
        .step(891100800, 36000, 3600, "+11", Ghost(g))
        .step(909244800, 36000, 0, "+10", Ghost(g))
        .step(922550400, 36000, 3600, "+11", Ghost(g))
        .step(941299200, 36000, 0, "+10", Ghost(g))
        .step(954000000, 36000, 3600, "+11", Ghost(g))
        .step(972748800, 36000, 0, "+10", Ghost(g))
        .step(985449600, 36000, 3600, "+11", Ghost(g))
        .step(1004198400, 36000, 0, "+10", Ghost(g))
        .step(1017504000, 36000, 3600, "+11", Ghost(g))
        .step(1035648000, 36000, 0, "+10", Ghost(g))
        .step(1048953600, 36000, 3600, "+11", Ghost(g))
        .step(1067097600, 36000, 0, "+10", Ghost(g))
        .step(1080403200, 36000, 3600, "+11", Ghost(g))
        .step(1099152000, 36000, 0, "+10", Ghost(g))
        .step(1111852800, 36000, 3600, "+11", Ghost(g))
        .step(1130601600, 36000, 0, "+10", Ghost(g))
        .step(1143302400, 36000, 3600, "+11", Ghost(g))
        .step(1162051200, 36000, 0, "+10", Ghost(g))
        .step(1174752000, 36000, 3600, "+11", Ghost(g))
        .step(1193500800, 36000, 0, "+10", Ghost(g))
        .step(1206806400, 36000, 3600, "+11", Ghost(g))
        .step(1224950400, 36000, 0, "+10", Ghost(g))
        .step(1238256000, 36000, 3600, "+11", Ghost(g))
        .step(1256400000, 36000, 0, "+10", Ghost(g))
        .step(1269705600, 36000, 3600, "+11", Ghost(g))
        .step(1288454400, 36000, 0, "+10", Ghost(g))
        .step(1301155200, 39600, 0, "+11", Ghost(g))
        .step(1414249200, 36000, 0, "+10", Ghost(g))
        .step(2147483647, 36000, 0, "+10", Ghost(g))
        .finish(Ghost(g))
}

/// The zone `Asia/Yakutsk`.
pub fn yakutsk() -> (r: Tz)
    ensures
        r.wf(),
        r.zone_name() == "Asia/Yakutsk"@,
        r.table() == tables::asia::yakutsk(),
{
    let ghost g = tables::asia::yakutsk_rows();
    FixedTimespanSet::begin("Asia/Yakutsk", 31138, 0, "LMT", Ghost(g))
        .step(-1579423138, 28800, 0, "+08", Ghost(g))
        .step(-1247558400, 32400, 0, "+09", Ghost(g))
        .step(354898800, 32400, 3600, "+10", Ghost(g))
        .step(370706400, 32400, 0, "+09", Ghost(g))
        .step(386434800, 32400, 3600, "+10", Ghost(g))
        .step(402242400, 32400, 0, "+09", Ghost(g))
        .step(417970800, 32400, 3600, "+10", Ghost(g))
        .step(433778400, 32400, 0, "+09", Ghost(g))
        .step(449593200, 32400, 3600, "+10", Ghost(g))
        .step(465325200, 32400, 0, "+09", Ghost(g))
        .step(481050000, 32400, 3600, "+10", Ghost(g))
        .step(496774800, 32400, 0, "+09", Ghost(g))
        .step(512499600, 32400, 3600, "+10", Ghost(g))
        .step(528224400, 32400, 0, "+09", Ghost(g))
        .step(543949200, 32400, 3600, "+10", Ghost(g))
        .step(559674000, 32400, 0, "+09", Ghost(g))
        .step(575398800, 32400, 3600, "+10", Ghost(g))
        .step(591123600, 32400, 0, "+09", Ghost(g))
        .step(606848400, 32400, 3600, "+10", Ghost(g))
        .step(622573200, 32400, 0, "+09", Ghost(g))
        .step(638298000, 32400, 3600, "+10", Ghost(g))
        .step(654627600, 32400, 0, "+09", Ghost(g))
        .step(670352400, 28800, 3600, "+09", Ghost(g))
        .step(686080800, 28800, 0, "+08", Ghost(g))
        .step(695757600, 32400, 0, "+09", Ghost(g))
        .step(701802000, 32400, 3600, "+10", Ghost(g))
        .step(717526800, 32400, 0, "+09", Ghost(g))
        .step(733251600, 32400, 3600, "+10", Ghost(g))
        .step(748976400, 32400, 0, "+09", Ghost(g))
        .step(764701200, 32400, 3600, "+10", Ghost(g))
        .step(780426000, 32400, 0, "+09", Ghost(g))
        .step(796150800, 32400, 3600, "+10", Ghost(g))
        .step(811875600, 32400, 0, "+09", Ghost(g))
        .step(828205200, 32400, 3600, "+10", Ghost(g))
        .step(846349200, 32400, 0, "+09", Ghost(g))
        .step(859654800, 32400, 3600, "+10", Ghost(g))
        .step(877798800, 32400, 0, "+09", Ghost(g))
        .step(891104400, 32400, 3600, "+10", Ghost(g))
        .step(909248400, 32400, 0, "+09", Ghost(g))
        .step(922554000, 32400, 3600, "+10", Ghost(g))
        .step(941302800, 32400, 0, "+09", Ghost(g))
        .step(954003600, 32400, 3600, "+10", Ghost(g))
        .step(972752400, 32400, 0, "+09", Ghost(g))
        .step(985453200, 32400, 3600, "+10", Ghost(g))
        .step(1004202000, 32400, 0, "+09", Ghost(g))
        .step(1017507600, 32400, 3600, "+10", Ghost(g))
        .step(1035651600, 32400, 0, "+09", Ghost(g))
        .step(1048957200, 32400, 3600, "+10", Ghost(g))
        .step(1067101200, 32400, 0, "+09", Ghost(g))
        .step(1080406800, 32400, 3600, "+10", Ghost(g))
        .step(1099155600, 32400, 0, "+09", Ghost(g))
        .step(1111856400, 32400, 3600, "+10", Ghost(g))
        .step(1130605200, 32400, 0, "+09", Ghost(g))
        .step(1143306000, 32400, 3600, "+10", Ghost(g))
        .step(1162054800, 32400, 0, "+09", Ghost(g))
        .step(1174755600, 32400, 3600, "+10", Ghost(g))
        .step(1193504400, 32400, 0, "+09", Ghost(g))
        .step(1206810000, 32400, 3600, "+10", Ghost(g))
        .step(1224954000, 32400, 0, "+09", Ghost(g))
        .step(1238259600, 32400, 3600, "+10", Ghost(g))
        .step(1256403600, 32400, 0, "+09", Ghost(g))
        .step(1269709200, 32400, 3600, "+10", Ghost(g))
        .step(1288458000, 32400, 0, "+09", Ghost(g))
        .step(1301158800, 36000, 0, "+10", Ghost(g))
        .step(1414252800, 32400, 0, "+09", Ghost(g))
        .step(2147483647, 32400, 0, "+09", Ghost(g))
        .finish(Ghost(g))
}

/// The zone `Asia/Yangon`.
pub fn yangon() -> (r: Tz)
    ensures
        r.wf(),
        r.zone_name() == "Asia/Yangon"@,
        r.table() == tables::asia::yangon(),
{
    let ghost g = tables::asia::yangon_rows();
    FixedTimespanSet::begin("Asia/Yangon", 23087, 0, "LMT", Ghost(g))
        .step(-2840163887, 23087, 0, "RMT", Ghost(g))
        .step(-1577946287, 23400, 0, "+0630", Ghost(g))
        .step(-873268200, 32400, 0, "+09", Ghost(g))
        .step(-778410000, 23400, 0, "+0630", Ghost(g))
        .step(2147483647, 23400, 0, "+0630", Ghost(g))
        .finish(Ghost(g))
}

/// The zone `Asia/Yekaterinburg`.
pub fn yekaterinburg() -> (r: Tz)
    ensures
        r.wf(),
        r.zone_name() == "Asia/Yekaterinburg"@,
        r.table() == tables::asia::yekaterinburg(),
{
    let ghost g = tables::asia::yekaterinburg_rows();
    FixedTimespanSet::begin("Asia/Yekaterinburg", 14553, 0, "LMT", Ghost(g))
        .step(-1688270553, 13505, 0, "PMT", Ghost(g))
        .step(-1592610305, 14400, 0, "+04", Ghost(g))
        .step(-1247544000, 18000, 0, "+05", Ghost(g))
        .step(354913200, 18000, 3600, "+06", Ghost(g))
        .step(370720800, 18000, 0, "+05", Ghost(g))
        .step(386449200, 18000, 3600, "+06", Ghost(g))
        .step(402256800, 18000, 0, "+05", Ghost(g))
        .step(417985200, 18000, 3600, "+06", Ghost(g))
        .step(433792800, 18000, 0, "+05", Ghost(g))
        .step(449607600, 18000, 3600, "+06", Ghost(g))
        .step(465339600, 18000, 0, "+05", Ghost(g))
        .step(481064400, 18000, 3600, "+06", Ghost(g))
        .step(496789200, 18000, 0, "+05", Ghost(g))
        .step(512514000, 18000, 3600, "+06", Ghost(g))
        .step(528238800, 18000, 0, "+05", Ghost(g))
        .step(543963600, 18000, 3600, "+06", Ghost(g))
        .step(559688400, 18000, 0, "+05", Ghost(g))
        .step(575413200, 18000, 3600, "+06", Ghost(g))
        .step(591138000, 18000, 0, "+05", Ghost(g))
        .step(606862800, 18000, 3600, "+06", Ghost(g))
        .step(622587600, 18000, 0, "+05", Ghost(g))
        .step(638312400, 18000, 3600, "+06", Ghost(g))
        .step(654642000, 18000, 0, "+05", Ghost(g))
        .step(670366800, 14400, 3600, "+05", Ghost(g))
        .step(686095200, 14400, 0, "+04", Ghost(g))
        .step(695772000, 18000, 0, "+05", Ghost(g))
        .step(701816400, 18000, 3600, "+06", Ghost(g))
        .step(717541200, 18000, 0, "+05", Ghost(g))
        .step(733266000, 18000, 3600, "+06", Ghost(g))
        .step(748990800, 18000, 0, "+05", Ghost(g))
        .step(764715600, 18000, 3600, "+06", Ghost(g))
        .step(780440400, 18000, 0, "+05", Ghost(g))
        .step(796165200, 18000, 3600, "+06", Ghost(g))
        .step(811890000, 18000, 0, "+05", Ghost(g))
        .step(828219600, 18000, 3600, "+06", Ghost(g))
        .step(846363600, 18000, 0, "+05", Ghost(g))
        .step(859669200, 18000, 3600, "+06", Ghost(g))
        .step(877813200, 18000, 0, "+05", Ghost(g))
        .step(891118800, 18000, 3600, "+06", Ghost(g))
        .step(909262800, 18000, 0, "+05", Ghost(g))
        .step(922568400, 18000, 3600, "+06", Ghost(g))
        .step(941317200, 18000, 0, "+05", Ghost(g))
        .step(954018000, 18000, 3600, "+06", Ghost(g))
        .step(972766800, 18000, 0, "+05", Ghost(g))
        .step(985467600, 18000, 3600, "+06", Ghost(g))
        .step(1004216400, 18000, 0, "+05", Ghost(g))
        .step(1017522000, 18000, 3600, "+06", Ghost(g))
        .step(1035666000, 18000, 0, "+05", Ghost(g))
        .step(1048971600, 18000, 3600, "+06", Ghost(g))
        .step(1067115600, 18000, 0, "+05", Ghost(g))
        .step(1080421200, 18000, 3600, "+06", Ghost(g))
        .step(1099170000, 18000, 0, "+05", Ghost(g))
        .step(1111870800, 18000, 3600, "+06", Ghost(g))
        .step(1130619600, 18000, 0, "+05", Ghost(g))
        .step(1143320400, 18000, 3600, "+06", Ghost(g))
        .step(1162069200, 18000, 0, "+05", Ghost(g))
        .step(1174770000, 18000, 3600, "+06", Ghost(g))
        .step(1193518800, 18000, 0, "+05", Ghost(g))
        .step(1206824400, 18000, 3600, "+06", Ghost(g))
        .step(1224968400, 18000, 0, "+05", Ghost(g))
        .step(1238274000, 18000, 3600, "+06", Ghost(g))
        .step(1256418000, 18000, 0, "+05", Ghost(g))
        .step(1269723600, 18000, 3600, "+06", Ghost(g))
        .step(1288472400, 18000, 0, "+05", Ghost(g))
        .step(1301173200, 21600, 0, "+06", Ghost(g))
        .step(1414267200, 18000, 0, "+05", Ghost(g))
        .step(2147483647, 18000, 0, "+05", Ghost(g))
        .finish(Ghost(g))
}

/// The zone `Asia/Yerevan`.
pub fn yerevan() -> (r: Tz)
    ensures
        r.wf(),
        r.zone_name() == "Asia/Yerevan"@,
        r.table() == tables::asia::yerevan(),
{
    let ghost g = tables::asia::yerevan_rows();
    FixedTimespanSet::begin("Asia/Yerevan", 10680, 0, "LMT", Ghost(g))
        .step(-1441162680, 10800, 0, "+03", Ghost(g))
        .step(-405140400, 14400, 0, "+04", Ghost(g))
        .step(354916800, 14400, 3600, "+05", Ghost(g))
        .step(370724400, 14400, 0, "+04", Ghost(g))
        .step(386452800, 14400, 3600, "+05", Ghost(g))
        .step(402260400, 14400, 0, "+04", Ghost(g))
        .step(417988800, 14400, 3600, "+05", Ghost(g))
        .step(433796400, 14400, 0, "+04", Ghost(g))
        .step(449611200, 14400, 3600, "+05", Ghost(g))
        .step(465343200, 14400, 0, "+04", Ghost(g))
        .step(481068000, 14400, 3600, "+05", Ghost(g))
        .step(496792800, 14400, 0, "+04", Ghost(g))
        .step(512517600, 14400, 3600, "+05", Ghost(g))
        .step(528242400, 14400, 0, "+04", Ghost(g))
        .step(543967200, 14400, 3600, "+05", Ghost(g))
        .step(559692000, 14400, 0, "+04", Ghost(g))
        .step(575416800, 14400, 3600, "+05", Ghost(g))
        .step(591141600, 14400, 0, "+04", Ghost(g))
        .step(606866400, 14400, 3600, "+05", Ghost(g))
        .step(622591200, 14400, 0, "+04", Ghost(g))
        .step(638316000, 14400, 3600, "+05", Ghost(g))
        .step(654645600, 14400, 0, "+04", Ghost(g))
        .step(670370400, 10800, 3600, "+04", Ghost(g))
        .step(686098800, 10800, 0, "+03", Ghost(g))
        .step(701823600, 10800, 3600, "+04", Ghost(g))
        .step(717548400, 10800, 0, "+03", Ghost(g))
        .step(733273200, 10800, 3600, "+04", Ghost(g))
        .step(748998000, 10800, 0, "+03", Ghost(g))
        .step(764722800, 10800, 3600, "+04", Ghost(g))
        .step(780447600, 10800, 0, "+03", Ghost(g))
        .step(796172400, 10800, 3600, "+04", Ghost(g))
        .step(811897200, 14400, 0, "+04", Ghost(g))
        .step(859672800, 14400, 3600, "+05", Ghost(g))
        .step(877816800, 14400, 0, "+04", Ghost(g))
        .step(891122400, 14400, 3600, "+05", Ghost(g))
        .step(909266400, 14400, 0, "+04", Ghost(g))
        .step(922572000, 14400, 3600, "+05", Ghost(g))
        .step(941320800, 14400, 0, "+04", Ghost(g))
        .step(954021600, 14400, 3600, "+05", Ghost(g))
        .step(972770400, 14400, 0, "+04", Ghost(g))
        .step(985471200, 14400, 3600, "+05", Ghost(g))
        .step(1004220000, 14400, 0, "+04", Ghost(g))
        .step(1017525600, 14400, 3600, "+05", Ghost(g))
        .step(1035669600, 14400, 0, "+04", Ghost(g))
        .step(1048975200, 14400, 3600, "+05", Ghost(g))
        .step(1067119200, 14400, 0, "+04", Ghost(g))
        .step(1080424800, 14400, 3600, "+05", Ghost(g))
        .step(1099173600, 14400, 0, "+04", Ghost(g))
        .step(1111874400, 14400, 3600, "+05", Ghost(g))
        .step(1130623200, 14400, 0, "+04", Ghost(g))
        .step(1143324000, 14400, 3600, "+05", Ghost(g))
        .step(1162072800, 14400, 0, "+04", Ghost(g))
        .step(1174773600, 14400, 3600, "+05", Ghost(g))
        .step(1193522400, 14400, 0, "+04", Ghost(g))
        .step(1206828000, 14400, 3600, "+05", Ghost(g))
        .step(1224972000, 14400, 0, "+04", Ghost(g))
        .step(1238277600, 14400, 3600, "+05", Ghost(g))
        .step(1256421600, 14400, 0, "+04", Ghost(g))
        .step(1269727200, 14400, 3600, "+05", Ghost(g))
        .step(1288476000, 14400, 0, "+04", Ghost(g))
        .step(1301176800, 14400, 3600, "+05", Ghost(g))
        .step(1319925600, 14400, 0, "+04", Ghost(g))
        .step(2147483647, 14400, 0, "+04", Ghost(g))
        .finish(Ghost(g))
}

} // verus!
