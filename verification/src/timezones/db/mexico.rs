//! Zones of Mexico, under their older names.

use crate::interface::TimeZone;
use crate::timezone_impl::{FixedTimespanSet, Tz};
use crate::timezones::tables;
use vstd::prelude::*;

verus! {

/// The zone `Mexico/BajaNorte`.
pub fn bajanorte() -> (r: Tz)
    ensures
        r.wf(),
        r.zone_name() == "Mexico/BajaNorte"@,
        r.table() == tables::mexico::bajanorte(),
{
    let ghost g = tables::mexico::bajanorte_rows();
    FixedTimespanSet::begin("Mexico/BajaNorte", -28084, 0, "LMT", Ghost(g))
        .step(-1514739600, -25200, 0, "MST", Ghost(g))
        .step(-1451667600, -28800, 0, "PST", Ghost(g))
        .step(-1343145600, -25200, 0, "MST", Ghost(g))
        .step(-1234803600, -28800, 0, "PST", Ghost(g))
        .step(-1222963200, -28800, 3600, "PDT", Ghost(g))
        .step(-1207242000, -28800, 0, "PST", Ghost(g))
        .step(-873820800, -28800, 3600, "PWT", Ghost(g))
        .step(-769395600, -28800, 3600, "PPT", Ghost(g))
        .step(-761418000, -28800, 0, "PST", Ghost(g))
        .step(-686073600, -28800, 3600, "PDT", Ghost(g))
        .step(-661539600, -28800, 0, "PST", Ghost(g))
        .step(-620755200, -28800, 3600, "PDT", Ghost(g))
        .step(-608144400, -28800, 0, "PST", Ghost(g))
        .step(-589384800, -28800, 3600, "PDT", Ghost(g))
        .step(-576082800, -28800, 0, "PST", Ghost(g))
        .step(-557935200, -28800, 3600, "PDT", Ghost(g))
        .step(-544633200, -28800, 0, "PST", Ghost(g))
        .step(-495039600, -28800, 3600, "PDT", Ghost(g))
        .step(-481734000, -28800, 0, "PST", Ghost(g))
        .step(-463590000, -28800, 3600, "PDT", Ghost(g))
        .step(-450284400, -28800, 0, "PST", Ghost(g))
        .step(-431535600, -28800, 3600, "PDT", Ghost(g))
        .step(-418230000, -28800, 0, "PST", Ghost(g))
        .step(-400086000, -28800, 3600, "PDT", Ghost(g))
        .step(-386780400, -28800, 0, "PST", Ghost(g))
        .step(-368636400, -28800, 3600, "PDT", Ghost(g))
        .step(-355330800, -28800, 0, "PST", Ghost(g))
        .step(-337186800, -28800, 3600, "PDT", Ghost(g))
        .step(-323881200, -28800, 0, "PST", Ghost(g))
        .step(-305737200, -28800, 3600, "PDT", Ghost(g))
        .step(-292431600, -28800, 0, "PST", Ghost(g))
        .step(199274400, -28800, 3600, "PDT", Ghost(g))
        .step(215600400, -28800, 0, "PST", Ghost(g))
        .step(230724000, -28800, 3600, "PDT", Ghost(g))
        .step(247050000, -28800, 0, "PST", Ghost(g))
        .step(262778400, -28800, 3600, "PDT", Ghost(g))
        .step(278499600, -28800, 0, "PST", Ghost(g))
        .step(294228000, -28800, 3600, "PDT", Ghost(g))
        .step(309949200, -28800, 0, "PST", Ghost(g))
        .step(325677600, -28800, 3600, "PDT", Ghost(g))
        .step(341398800, -28800, 0, "PST", Ghost(g))
        .step(357127200, -28800, 3600, "PDT", Ghost(g))
        .step(372848400, -28800, 0, "PST", Ghost(g))
        .step(388576800, -28800, 3600, "PDT", Ghost(g))
        .step(404902800, -28800, 0, "PST", Ghost(g))
        .step(420026400, -28800, 3600, "PDT", Ghost(g))
        .step(436352400, -28800, 0, "PST", Ghost(g))
        .step(452080800, -28800, 3600, "PDT", Ghost(g))
        .step(467802000, -28800, 0, "PST", Ghost(g))
        .step(483530400, -28800, 3600, "PDT", Ghost(g))
        .step(499251600, -28800, 0, "PST", Ghost(g))
        .step(514980000, -28800, 3600, "PDT", Ghost(g))
        .step(530701200, -28800, 0, "PST", Ghost(g))
        .step(544615200, -28800, 3600, "PDT", Ghost(g))
        .step(562150800, -28800, 0, "PST", Ghost(g))
        .step(576064800, -28800, 3600, "PDT", Ghost(g))
        .step(594205200, -28800, 0, "PST", Ghost(g))
        .step(607514400, -28800, 3600, "PDT", Ghost(g))
        .step(625654800, -28800, 0, "PST", Ghost(g))
        .step(638964000, -28800, 3600, "PDT", Ghost(g))
        .step(657104400, -28800, 0, "PST", Ghost(g))
        .step(671018400, -28800, 3600, "PDT", Ghost(g))
        .step(688554000, -28800, 0, "PST", Ghost(g))
        .step(702468000, -28800, 3600, "PDT", Ghost(g))
        .step(720003600, -28800, 0, "PST", Ghost(g))
        .step(733917600, -28800, 3600, "PDT", Ghost(g))
        .step(752058000, -28800, 0, "PST", Ghost(g))
        .step(765367200, -28800, 3600, "PDT", Ghost(g))
        .step(783507600, -28800, 0, "PST", Ghost(g))
        .step(796816800, -28800, 3600, "PDT", Ghost(g))
        .step(814957200, -28800, 0, "PST", Ghost(g))
        .step(828871200, -28800, 3600, "PDT", Ghost(g))
        .step(846406800, -28800, 0, "PST", Ghost(g))
        .step(860320800, -28800, 3600, "PDT", Ghost(g))
        .step(877856400, -28800, 0, "PST", Ghost(g))
        .step(891770400, -28800, 3600, "PDT", Ghost(g))
        .step(909306000, -28800, 0, "PST", Ghost(g))
        .step(923220000, -28800, 3600, "PDT", Ghost(g))
        .step(941360400, -28800, 0, "PST", Ghost(g))
        .step(954669600, -28800, 3600, "PDT", Ghost(g))
        .step(972810000, -28800, 0, "PST", Ghost(g))
        .step(986119200, -28800, 3600, "PDT", Ghost(g))
        .step(1004259600, -28800, 0, "PST", Ghost(g))
        .step(1018173600, -28800, 3600, "PDT", Ghost(g))
        .step(1035709200, -28800, 0, "PST", Ghost(g))
        .step(1049623200, -28800, 3600, "PDT", Ghost(g))
        .step(1067158800, -28800, 0, "PST", Ghost(g))
        .step(1081072800, -28800, 3600, "PDT", Ghost(g))
        .step(1099213200, -28800, 0, "PST", Ghost(g))
        .step(1112522400, -28800, 3600, "PDT", Ghost(g))
        .step(1130662800, -28800, 0, "PST", Ghost(g))
        .step(1143972000, -28800, 3600, "PDT", Ghost(g))
        .step(1162112400, -28800, 0, "PST", Ghost(g))
        .step(1175421600, -28800, 3600, "PDT", Ghost(g))
        .step(1193562000, -28800, 0, "PST", Ghost(g))
        .step(1207476000, -28800, 3600, "PDT", Ghost(g))
        .step(1225011600, -28800, 0, "PST", Ghost(g))
        .step(1238925600, -28800, 3600, "PDT", Ghost(g))
        .step(1256461200, -28800, 0, "PST", Ghost(g))
        .step(1268560800, -28800, 3600, "PDT", Ghost(g))
        .step(1289120400, -28800, 0, "PST", Ghost(g))
        .step(1300010400, -28800, 3600, "PDT", Ghost(g))
        .step(1320570000, -28800, 0, "PST", Ghost(g))
        .step(1331460000, -28800, 3600, "PDT", Ghost(g))
        .step(1352019600, -28800, 0, "PST", Ghost(g))
        .step(1362909600, -28800, 3600, "PDT", Ghost(g))
        .step(1383469200, -28800, 0, "PST", Ghost(g))
        .step(1394359200, -28800, 3600, "PDT", Ghost(g))
        .step(1414918800, -28800, 0, "PST", Ghost(g))
        .step(1425808800, -28800, 3600, "PDT", Ghost(g))
        .step(1446368400, -28800, 0, "PST", Ghost(g))
        .step(1457863200, -28800, 3600, "PDT", Ghost(g))
        .step(1478422800, -28800, 0, "PST", Ghost(g))
        .step(1489312800, -28800, 3600, "PDT", Ghost(g))
        .step(1509872400, -28800, 0, "PST", Ghost(g))
        .step(1520762400, -28800, 3600, "PDT", Ghost(g))
        .step(1541322000, -28800, 0, "PST", Ghost(g))
        .step(1552212000, -28800, 3600, "PDT", Ghost(g))
        .step(1572771600, -28800, 0, "PST", Ghost(g))
        .step(1583661600, -28800, 3600, "PDT", Ghost(g))
        .step(1604221200, -28800, 0, "PST", Ghost(g))
        .step(1615716000, -28800, 3600, "PDT", Ghost(g))
        .step(1636275600, -28800, 0, "PST", Ghost(g))
        .step(1647165600, -28800, 3600, "PDT", Ghost(g))
        .step(1667725200, -28800, 0, "PST", Ghost(g))
        .step(1678615200, -28800, 3600, "PDT", Ghost(g))
        .step(1699174800, -28800, 0, "PST", Ghost(g))
        .step(1710064800, -28800, 3600, "PDT", Ghost(g))
        .step(1730624400, -28800, 0, "PST", Ghost(g))
        .step(1741514400, -28800, 3600, "PDT", Ghost(g))
        .step(1762074000, -28800, 0, "PST", Ghost(g))
        .step(1772964000, -28800, 3600, "PDT", Ghost(g))
        .step(1793523600, -28800, 0, "PST", Ghost(g))
        .step(1805018400, -28800, 3600, "PDT", Ghost(g))
        .step(1825578000, -28800, 0, "PST", Ghost(g))
        .step(1836468000, -28800, 3600, "PDT", Ghost(g))
        .step(1857027600, -28800, 0, "PST", Ghost(g))
        .step(1867917600, -28800, 3600, "PDT", Ghost(g))
        .step(1888477200, -28800, 0, "PST", Ghost(g))
        .step(1899367200, -28800, 3600, "PDT", Ghost(g))
        .step(1919926800, -28800, 0, "PST", Ghost(g))
        .step(1930816800, -28800, 3600, "PDT", Ghost(g))
        .step(1951376400, -28800, 0, "PST", Ghost(g))
        .step(1962871200, -28800, 3600, "PDT", Ghost(g))
        .step(1983430800, -28800, 0, "PST", Ghost(g))
        .step(1994320800, -28800, 3600, "PDT", Ghost(g))
        .step(2014880400, -28800, 0, "PST", Ghost(g))
        .step(2025770400, -28800, 3600, "PDT", Ghost(g))
        .step(2046330000, -28800, 0, "PST", Ghost(g))
        .step(2057220000, -28800, 3600, "PDT", Ghost(g))
        .step(2077779600, -28800, 0, "PST", Ghost(g))
        .step(2088669600, -28800, 3600, "PDT", Ghost(g))
        .step(2109229200, -28800, 0, "PST", Ghost(g))
        .step(2120119200, -28800, 3600, "PDT", Ghost(g))
        .step(2140678800, -28800, 0, "PST", Ghost(g))
        .finish(Ghost(g))
}

/// The zone `Mexico/BajaSur`.
pub fn bajasur() -> (r: Tz)
    ensures
        r.wf(),
        r.zone_name() == "Mexico/BajaSur"@,
        r.table() == tables::mexico::bajasur(),
{
    let ghost g = tables::mexico::bajasur_rows();
    FixedTimespanSet::begin("Mexico/BajaSur", -25540, 0, "LMT", Ghost(g))
        .step(-1514739600, -25200, 0, "MST", Ghost(g))
        .step(-1343149200, -21600, 0, "CST", Ghost(g))
        .step(-1234807200, -25200, 0, "MST", Ghost(g))
        .step(-1220461200, -25200, 3600, "MDT", Ghost(g))
        .step(-1207159200, -25200, 0, "MST", Ghost(g))
        .step(-1191344400, -21600, 0, "CST", Ghost(g))
        .step(-873828000, -25200, 0, "MST", Ghost(g))
        .step(828867600, -25200, 3600, "MDT", Ghost(g))
        .step(846403200, -25200, 0, "MST", Ghost(g))
        .step(860317200, -25200, 3600, "MDT", Ghost(g))
        .step(877852800, -25200, 0, "MST", Ghost(g))
        .step(891766800, -25200, 3600, "MDT", Ghost(g))
        .step(909302400, -25200, 0, "MST", Ghost(g))
        .step(923216400, -25200, 3600, "MDT", Ghost(g))
        .step(941356800, -25200, 0, "MST", Ghost(g))
        .step(954666000, -25200, 3600, "MDT", Ghost(g))
        .step(972806400, -25200, 0, "MST", Ghost(g))
        .step(989139600, -25200, 3600, "MDT", Ghost(g))
        .step(1001836800, -25200, 0, "MST", Ghost(g))
        .step(1018170000, -25200, 3600, "MDT", Ghost(g))
        .step(1035705600, -25200, 0, "MST", Ghost(g))
        .step(1049619600, -25200, 3600, "MDT", Ghost(g))
        .step(1067155200, -25200, 0, "MST", Ghost(g))
        .step(1081069200, -25200, 3600, "MDT", Ghost(g))
        .step(1099209600, -25200, 0, "MST", Ghost(g))
        .step(1112518800, -25200, 3600, "MDT", Ghost(g))
        .step(1130659200, -25200, 0, "MST", Ghost(g))
        .step(1143968400, -25200, 3600, "MDT", Ghost(g))
        .step(1162108800, -25200, 0, "MST", Ghost(g))
        .step(1175418000, -25200, 3600, "MDT", Ghost(g))
        .step(1193558400, -25200, 0, "MST", Ghost(g))
        .step(1207472400, -25200, 3600, "MDT", Ghost(g))
        .step(1225008000, -25200, 0, "MST", Ghost(g))
        .step(1238922000, -25200, 3600, "MDT", Ghost(g))
        .step(1256457600, -25200, 0, "MST", Ghost(g))
        .step(1270371600, -25200, 3600, "MDT", Ghost(g))
        .step(1288512000, -25200, 0, "MST", Ghost(g))
        .step(1301821200, -25200, 3600, "MDT", Ghost(g))
        .step(1319961600, -25200, 0, "MST", Ghost(g))
        .step(1333270800, -25200, 3600, "MDT", Ghost(g))
        .step(1351411200, -25200, 0, "MST", Ghost(g))
        .step(1365325200, -25200, 3600, "MDT", Ghost(g))
        .step(1382860800, -25200, 0, "MST", Ghost(g))
        .step(1396774800, -25200, 3600, "MDT", Ghost(g))
        .step(1414310400, -25200, 0, "MST", Ghost(g))
        .step(1428224400, -25200, 3600, "MDT", Ghost(g))
        .step(1445760000, -25200, 0, "MST", Ghost(g))
        .step(1459674000, -25200, 3600, "MDT", Ghost(g))
        .step(1477814400, -25200, 0, "MST", Ghost(g))
        .step(1491123600, -25200, 3600, "MDT", Ghost(g))
        .step(1509264000, -25200, 0, "MST", Ghost(g))
        .step(1522573200, -25200, 3600, "MDT", Ghost(g))
        .step(1540713600, -25200, 0, "MST", Ghost(g))
        .step(1554627600, -25200, 3600, "MDT", Ghost(g))
        .step(1572163200, -25200, 0, "MST", Ghost(g))
        .step(1586077200, -25200, 3600, "MDT", Ghost(g))
        .step(1603612800, -25200, 0, "MST", Ghost(g))
        .step(1617526800, -25200, 3600, "MDT", Ghost(g))
        .step(1635667200, -25200, 0, "MST", Ghost(g))
        .step(1648976400, -25200, 3600, "MDT", Ghost(g))
        .step(1667116800, -25200, 0, "MST", Ghost(g))
        .finish(Ghost(g))
}

/// The zone `Mexico/General`.
pub fn general() -> (r: Tz)
    ensures
        r.wf(),
        r.zone_name() == "Mexico/General"@,
        r.table() == tables::mexico::general(),
{
    let ghost g = tables::mexico::general_rows();
    FixedTimespanSet::begin("Mexico/General", -23796, 0, "LMT", Ghost(g))
        .step(-1514739600, -25200, 0, "MST", Ghost(g))
        .step(-1343149200, -21600, 0, "CST", Ghost(g))
        .step(-1234807200, -25200, 0, "MST", Ghost(g))
        .step(-1220461200, -25200, 3600, "MDT", Ghost(g))
        .step(-1207159200, -25200, 0, "MST", Ghost(g))
        .step(-1191344400, -21600, 0, "CST", Ghost(g))
        .step(-975261600, -21600, 3600, "CDT", Ghost(g))
        .step(-963169200, -21600, 0, "CST", Ghost(g))
        .step(-917114400, -21600, 3600, "CDT", Ghost(g))
        .step(-907354800, -21600, 0, "CST", Ghost(g))
        .step(-821901600, -21600, 3600, "CWT", Ghost(g))
        .step(-810068400, -21600, 0, "CST", Ghost(g))
        .step(-627501600, -21600, 3600, "CDT", Ghost(g))
        .step(-612990000, -21600, 0, "CST", Ghost(g))
        .step(828864000, -21600, 3600, "CDT", Ghost(g))
        .step(846399600, -21600, 0, "CST", Ghost(g))
        .step(860313600, -21600, 3600, "CDT", Ghost(g))
        .step(877849200, -21600, 0, "CST", Ghost(g))
        .step(891763200, -21600, 3600, "CDT", Ghost(g))
        .step(909298800, -21600, 0, "CST", Ghost(g))
        .step(923212800, -21600, 3600, "CDT", Ghost(g))
        .step(941353200, -21600, 0, "CST", Ghost(g))
        .step(954662400, -21600, 3600, "CDT", Ghost(g))
        .step(972802800, -21600, 0, "CST", Ghost(g))
        .step(989136000, -21600, 3600, "CDT", Ghost(g))
        .step(1001833200, -21600, 0, "CST", Ghost(g))
        .step(1018166400, -21600, 3600, "CDT", Ghost(g))
        .step(1035702000, -21600, 0, "CST", Ghost(g))
        .step(1049616000, -21600, 3600, "CDT", Ghost(g))
        .step(1067151600, -21600, 0, "CST", Ghost(g))
        .step(1081065600, -21600, 3600, "CDT", Ghost(g))
        .step(1099206000, -21600, 0, "CST", Ghost(g))
        .step(1112515200, -21600, 3600, "CDT", Ghost(g))
        .step(1130655600, -21600, 0, "CST", Ghost(g))
        .step(1143964800, -21600, 3600, "CDT", Ghost(g))
        .step(1162105200, -21600, 0, "CST", Ghost(g))
        .step(1175414400, -21600, 3600, "CDT", Ghost(g))
        .step(1193554800, -21600, 0, "CST", Ghost(g))
        .step(1207468800, -21600, 3600, "CDT", Ghost(g))
        .step(1225004400, -21600, 0, "CST", Ghost(g))
        .step(1238918400, -21600, 3600, "CDT", Ghost(g))
        .step(1256454000, -21600, 0, "CST", Ghost(g))
        .step(1270368000, -21600, 3600, "CDT", Ghost(g))
        .step(1288508400, -21600, 0, "CST", Ghost(g))
        .step(1301817600, -21600, 3600, "CDT", Ghost(g))
        .step(1319958000, -21600, 0, "CST", Ghost(g))
        .step(1333267200, -21600, 3600, "CDT", Ghost(g))
        .step(1351407600, -21600, 0, "CST", Ghost(g))
        .step(1365321600, -21600, 3600, "CDT", Ghost(g))
        .step(1382857200, -21600, 0, "CST", Ghost(g))
        .step(1396771200, -21600, 3600, "CDT", Ghost(g))
        .step(1414306800, -21600, 0, "CST", Ghost(g))
        .step(1428220800, -21600, 3600, "CDT", Ghost(g))
        .step(1445756400, -21600, 0, "CST", Ghost(g))
        .step(1459670400, -21600, 3600, "CDT", Ghost(g))
        .step(1477810800, -21600, 0, "CST", Ghost(g))
        .step(1491120000, -21600, 3600, "CDT", Ghost(g))
        .step(1509260400, -21600, 0, "CST", Ghost(g))
        .step(1522569600, -21600, 3600, "CDT", Ghost(g))
        .step(1540710000, -21600, 0, "CST", Ghost(g))
        .step(1554624000, -21600, 3600, "CDT", Ghost(g))
        .step(1572159600, -21600, 0, "CST", Ghost(g))
        .step(1586073600, -21600, 3600, "CDT", Ghost(g))
        .step(1603609200, -21600, 0, "CST", Ghost(g))
        .step(1617523200, -21600, 3600, "CDT", Ghost(g))
        .step(1635663600, -21600, 0, "CST", Ghost(g))
        .step(1648972800, -21600, 3600, "CDT", Ghost(g))
        .step(1667113200, -21600, 0, "CST", Ghost(g))
        .finish(Ghost(g))
}

} // verus!
