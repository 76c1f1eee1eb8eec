use time_tz::datetime::OffsetDateTime;
use time_tz::timezones;
use time_tz::{Offset, TimeZone};

// For every zone the offset and the abbreviation at five instants: in 1900,
// 1975, 2000, 2021 and 2030.
const INSTANTS: [i64; 5] = [-2208988800, 173404800, 946684800, 1624000000, 1900000000];

const EXPECTED: [(&str, [(i32, &str); 5]); 597] = [
    ("Africa/Abidjan", [(-968, "LMT"), (0, "GMT"), (0, "GMT"), (0, "GMT"), (0, "GMT")]),
    ("Africa/Accra", [(-52, "LMT"), (0, "GMT"), (0, "GMT"), (0, "GMT"), (0, "GMT")]),
    ("Africa/Addis_Ababa", [(9320, "ADMT"), (10800, "EAT"), (10800, "EAT"), (10800, "EAT"), (10800, "EAT")]),
    ("Africa/Algiers", [(561, "PMT"), (0, "WET"), (3600, "CET"), (3600, "CET"), (3600, "CET")]),
    ("Africa/Asmara", [(9320, "ADMT"), (10800, "EAT"), (10800, "EAT"), (10800, "EAT"), (10800, "EAT")]),
    ("Africa/Asmera", [(8836, "LMT"), (10800, "EAT"), (10800, "EAT"), (10800, "EAT"), (10800, "EAT")]),
    ("Africa/Bamako", [(-1920, "LMT"), (0, "GMT"), (0, "GMT"), (0, "GMT"), (0, "GMT")]),
    ("Africa/Bangui", [(4460, "LMT"), (3600, "WAT"), (3600, "WAT"), (3600, "WAT"), (3600, "WAT")]),
    ("Africa/Banjul", [(-3996, "LMT"), (0, "GMT"), (0, "GMT"), (0, "GMT"), (0, "GMT")]),
    ("Africa/Bissau", [(-3740, "LMT"), (0, "GMT"), (0, "GMT"), (0, "GMT"), (0, "GMT")]),
    ("Africa/Blantyre", [(8400, "LMT"), (7200, "CAT"), (7200, "CAT"), (7200, "CAT"), (7200, "CAT")]),
    ("Africa/Brazzaville", [(3668, "LMT"), (3600, "WAT"), (3600, "WAT"), (3600, "WAT"), (3600, "WAT")]),
    ("Africa/Bujumbura", [(7200, "CAT"), (7200, "CAT"), (7200, "CAT"), (7200, "CAT"), (7200, "CAT")]),
    ("Africa/Cairo", [(7509, "LMT"), (10800, "EEST"), (7200, "EET"), (7200, "EET"), (7200, "EET")]),
    ("Africa/Casablanca", [(-1820, "LMT"), (0, "+00"), (0, "+00"), (3600, "+01"), (3600, "+01")]),
    ("Africa/Ceuta", [(-1276, "LMT"), (0, "WET"), (3600, "CET"), (7200, "CEST"), (3600, "CET")]),
    ("Africa/Conakry", [(-3292, "LMT"), (0, "GMT"), (0, "GMT"), (0, "GMT"), (0, "GMT")]),
    ("Africa/Dakar", [(-4184, "LMT"), (0, "GMT"), (0, "GMT"), (0, "GMT"), (0, "GMT")]),
    ("Africa/Dar_es_Salaam", [(9428, "LMT"), (10800, "EAT"), (10800, "EAT"), (10800, "EAT"), (10800, "EAT")]),
    ("Africa/Djibouti", [(10356, "LMT"), (10800, "EAT"), (10800, "EAT"), (10800, "EAT"), (10800, "EAT")]),
    ("Africa/Douala", [(2328, "LMT"), (3600, "WAT"), (3600, "WAT"), (3600, "WAT"), (3600, "WAT")]),
    ("Africa/El_Aaiun", [(-3168, "LMT"), (-3600, "-01"), (0, "+00"), (3600, "+01"), (3600, "+01")]),
    ("Africa/Freetown", [(-3180, "FMT"), (0, "GMT"), (0, "GMT"), (0, "GMT"), (0, "GMT")]),
    ("Africa/Gaborone", [(5400, "SAST"), (7200, "CAT"), (7200, "CAT"), (7200, "CAT"), (7200, "CAT")]),
    ("Africa/Harare", [(7452, "LMT"), (7200, "CAT"), (7200, "CAT"), (7200, "CAT"), (7200, "CAT")]),
    ("Africa/Johannesburg", [(5400, "SAST"), (7200, "SAST"), (7200, "SAST"), (7200, "SAST"), (7200, "SAST")]),
    ("Africa/Juba", [(7588, "LMT"), (10800, "CAST"), (7200, "CAT"), (7200, "CAT"), (7200, "CAT")]),
    ("Africa/Kampala", [(7780, "LMT"), (10800, "EAT"), (10800, "EAT"), (10800, "EAT"), (10800, "EAT")]),
    ("Africa/Khartoum", [(7808, "LMT"), (10800, "CAST"), (7200, "CAT"), (7200, "CAT"), (7200, "CAT")]),
    ("Africa/Kigali", [(7216, "LMT"), (7200, "CAT"), (7200, "CAT"), (7200, "CAT"), (7200, "CAT")]),
    ("Africa/Kinshasa", [(3600, "WAT"), (3600, "WAT"), (3600, "WAT"), (3600, "WAT"), (3600, "WAT")]),
    ("Africa/Lagos", [(815, "LMT"), (3600, "WAT"), (3600, "WAT"), (3600, "WAT"), (3600, "WAT")]),
    ("Africa/Libreville", [(2268, "LMT"), (3600, "WAT"), (3600, "WAT"), (3600, "WAT"), (3600, "WAT")]),
    ("Africa/Lome", [(0, "GMT"), (0, "GMT"), (0, "GMT"), (0, "GMT"), (0, "GMT")]),
    ("Africa/Luanda", [(3124, "LMT"), (3600, "WAT"), (3600, "WAT"), (3600, "WAT"), (3600, "WAT")]),
    ("Africa/Lubumbashi", [(3600, "WAT"), (7200, "CAT"), (7200, "CAT"), (7200, "CAT"), (7200, "CAT")]),
    ("Africa/Lusaka", [(6788, "LMT"), (7200, "CAT"), (7200, "CAT"), (7200, "CAT"), (7200, "CAT")]),
    ("Africa/Malabo", [(2108, "LMT"), (3600, "WAT"), (3600, "WAT"), (3600, "WAT"), (3600, "WAT")]),
    ("Africa/Maputo", [(7818, "LMT"), (7200, "CAT"), (7200, "CAT"), (7200, "CAT"), (7200, "CAT")]),
    ("Africa/Maseru", [(6600, "LMT"), (7200, "SAST"), (7200, "SAST"), (7200, "SAST"), (7200, "SAST")]),
    ("Africa/Mbabane", [(7464, "LMT"), (7200, "SAST"), (7200, "SAST"), (7200, "SAST"), (7200, "SAST")]),
    ("Africa/Mogadishu", [(10800, "EAT"), (10800, "EAT"), (10800, "EAT"), (10800, "EAT"), (10800, "EAT")]),
    ("Africa/Monrovia", [(-2588, "MMT"), (0, "GMT"), (0, "GMT"), (0, "GMT"), (0, "GMT")]),
    ("Africa/Nairobi", [(8836, "LMT"), (10800, "EAT"), (10800, "EAT"), (10800, "EAT"), (10800, "EAT")]),
    ("Africa/Ndjamena", [(3612, "LMT"), (3600, "WAT"), (3600, "WAT"), (3600, "WAT"), (3600, "WAT")]),
    ("Africa/Niamey", [(508, "LMT"), (3600, "WAT"), (3600, "WAT"), (3600, "WAT"), (3600, "WAT")]),
    ("Africa/Nouakchott", [(-3828, "LMT"), (0, "GMT"), (0, "GMT"), (0, "GMT"), (0, "GMT")]),
    ("Africa/Ouagadougou", [(-364, "LMT"), (0, "GMT"), (0, "GMT"), (0, "GMT"), (0, "GMT")]),
    ("Africa/Porto-Novo", [(628, "LMT"), (3600, "WAT"), (3600, "WAT"), (3600, "WAT"), (3600, "WAT")]),
    ("Africa/Sao_Tome", [(-2205, "LMT"), (0, "GMT"), (0, "GMT"), (0, "GMT"), (0, "GMT")]),
    ("Africa/Timbuktu", [(-968, "LMT"), (0, "GMT"), (0, "GMT"), (0, "GMT"), (0, "GMT")]),
    ("Africa/Tripoli", [(3164, "LMT"), (7200, "EET"), (7200, "EET"), (7200, "EET"), (7200, "EET")]),
    ("Africa/Tunis", [(561, "PMT"), (3600, "CET"), (3600, "CET"), (3600, "CET"), (3600, "CET")]),
    ("Africa/Windhoek", [(5400, "+0130"), (7200, "SAST"), (7200, "CAT"), (7200, "CAT"), (7200, "CAT")]),
    ("America/Adak", [(-42398, "LMT"), (-36000, "BDT"), (-36000, "HST"), (-32400, "HDT"), (-32400, "HDT")]),
    ("America/Anchorage", [(-35976, "LMT"), (-32400, "AHDT"), (-32400, "AKST"), (-28800, "AKDT"), (-28800, "AKDT")]),
    ("America/Anguilla", [(-15136, "LMT"), (-14400, "AST"), (-14400, "AST"), (-14400, "AST"), (-14400, "AST")]),
    ("America/Antigua", [(-14832, "LMT"), (-14400, "AST"), (-14400, "AST"), (-14400, "AST"), (-14400, "AST")]),
    ("America/Araguaina", [(-11568, "LMT"), (-10800, "-03"), (-7200, "-02"), (-10800, "-03"), (-10800, "-03")]),
    ("America/Argentina/Buenos_Aires", [(-15408, "CMT"), (-10800, "-03"), (-10800, "-03"), (-10800, "-03"), (-10800, "-03")]),
    ("America/Argentina/Catamarca", [(-15408, "CMT"), (-10800, "-03"), (-10800, "-03"), (-10800, "-03"), (-10800, "-03")]),
    ("America/Argentina/ComodRivadavia", [(-15408, "CMT"), (-10800, "-03"), (-10800, "-03"), (-10800, "-03"), (-10800, "-03")]),
    ("America/Argentina/Cordoba", [(-15408, "CMT"), (-10800, "-03"), (-10800, "-03"), (-10800, "-03"), (-10800, "-03")]),
    ("America/Argentina/Jujuy", [(-15408, "CMT"), (-10800, "-03"), (-10800, "-03"), (-10800, "-03"), (-10800, "-03")]),
    ("America/Argentina/La_Rioja", [(-15408, "CMT"), (-10800, "-03"), (-10800, "-03"), (-10800, "-03"), (-10800, "-03")]),
    ("America/Argentina/Mendoza", [(-15408, "CMT"), (-10800, "-03"), (-10800, "-03"), (-10800, "-03"), (-10800, "-03")]),
    ("America/Argentina/Rio_Gallegos", [(-15408, "CMT"), (-10800, "-03"), (-10800, "-03"), (-10800, "-03"), (-10800, "-03")]),
    ("America/Argentina/Salta", [(-15408, "CMT"), (-10800, "-03"), (-10800, "-03"), (-10800, "-03"), (-10800, "-03")]),
    ("America/Argentina/San_Juan", [(-15408, "CMT"), (-10800, "-03"), (-10800, "-03"), (-10800, "-03"), (-10800, "-03")]),
    ("America/Argentina/San_Luis", [(-15408, "CMT"), (-10800, "-03"), (-10800, "-03"), (-10800, "-03"), (-10800, "-03")]),
    ("America/Argentina/Tucuman", [(-15408, "CMT"), (-10800, "-03"), (-10800, "-03"), (-10800, "-03"), (-10800, "-03")]),
    ("America/Argentina/Ushuaia", [(-15408, "CMT"), (-10800, "-03"), (-10800, "-03"), (-10800, "-03"), (-10800, "-03")]),
    ("America/Aruba", [(-16824, "LMT"), (-14400, "AST"), (-14400, "AST"), (-14400, "AST"), (-14400, "AST")]),
    ("America/Asuncion", [(-13840, "AMT"), (-14400, "-04"), (-10800, "-03"), (-14400, "-04"), (-10800, "-03")]),
    ("America/Atikokan", [(-21600, "CST"), (-18000, "EST"), (-18000, "EST"), (-18000, "EST"), (-18000, "EST")]),
    ("America/Atka", [(-42398, "LMT"), (-36000, "BDT"), (-36000, "HST"), (-32400, "HDT"), (-32400, "HDT")]),
    ("America/Bahia", [(-9244, "LMT"), (-10800, "-03"), (-7200, "-02"), (-10800, "-03"), (-10800, "-03")]),
    ("America/Bahia_Banderas", [(-25260, "LMT"), (-25200, "MST"), (-25200, "MST"), (-18000, "CDT"), (-21600, "CST")]),
    ("America/Barbados", [(-14309, "LMT"), (-14400, "AST"), (-14400, "AST"), (-14400, "AST"), (-14400, "AST")]),
    ("America/Belem", [(-11636, "LMT"), (-10800, "-03"), (-10800, "-03"), (-10800, "-03"), (-10800, "-03")]),
    ("America/Belize", [(-21168, "LMT"), (-21600, "CST"), (-21600, "CST"), (-21600, "CST"), (-21600, "CST")]),
    ("America/Blanc-Sablon", [(-14400, "AST"), (-14400, "AST"), (-14400, "AST"), (-14400, "AST"), (-14400, "AST")]),
    ("America/Boa_Vista", [(-14560, "LMT"), (-14400, "-04"), (-10800, "-03"), (-14400, "-04"), (-14400, "-04")]),
    ("America/Bogota", [(-17776, "BMT"), (-18000, "-05"), (-18000, "-05"), (-18000, "-05"), (-18000, "-05")]),
    ("America/Boise", [(-28800, "PST"), (-21600, "MDT"), (-25200, "MST"), (-21600, "MDT"), (-21600, "MDT")]),
    ("America/Buenos_Aires", [(-15408, "CMT"), (-10800, "-03"), (-10800, "-03"), (-10800, "-03"), (-10800, "-03")]),
    ("America/Cambridge_Bay", [(0, "-00"), (-21600, "MDT"), (-21600, "CST"), (-21600, "MDT"), (-21600, "MDT")]),
    ("America/Campo_Grande", [(-13108, "LMT"), (-14400, "-04"), (-10800, "-03"), (-14400, "-04"), (-14400, "-04")]),
    ("America/Cancun", [(-20824, "LMT"), (-21600, "CST"), (-21600, "CST"), (-18000, "EST"), (-18000, "EST")]),
    ("America/Caracas", [(-16060, "CMT"), (-14400, "-04"), (-14400, "-04"), (-14400, "-04"), (-14400, "-04")]),
    ("America/Catamarca", [(-15408, "CMT"), (-10800, "-03"), (-10800, "-03"), (-10800, "-03"), (-10800, "-03")]),
    ("America/Cayenne", [(-12560, "LMT"), (-10800, "-03"), (-10800, "-03"), (-10800, "-03"), (-10800, "-03")]),
    ("America/Cayman", [(-18430, "KMT"), (-18000, "EST"), (-18000, "EST"), (-18000, "EST"), (-18000, "EST")]),
    ("America/Chicago", [(-21600, "CST"), (-18000, "CDT"), (-21600, "CST"), (-18000, "CDT"), (-18000, "CDT")]),
    ("America/Chihuahua", [(-25460, "LMT"), (-21600, "CST"), (-25200, "MST"), (-21600, "MDT"), (-21600, "CST")]),
    ("America/Ciudad_Juarez", [(-25556, "LMT"), (-21600, "CST"), (-25200, "MST"), (-21600, "MDT"), (-21600, "MDT")]),
    ("America/Coral_Harbour", [(-19176, "CMT"), (-18000, "EST"), (-18000, "EST"), (-18000, "EST"), (-18000, "EST")]),
    ("America/Cordoba", [(-15408, "CMT"), (-10800, "-03"), (-10800, "-03"), (-10800, "-03"), (-10800, "-03")]),
    ("America/Costa_Rica", [(-20173, "SJMT"), (-21600, "CST"), (-21600, "CST"), (-21600, "CST"), (-21600, "CST")]),
    ("America/Coyhaique", [(-16965, "SMT"), (-14400, "-04"), (-10800, "-03"), (-14400, "-04"), (-10800, "-03")]),
    ("America/Creston", [(-25200, "MST"), (-25200, "MST"), (-25200, "MST"), (-25200, "MST"), (-25200, "MST")]),
    ("America/Cuiaba", [(-13460, "LMT"), (-14400, "-04"), (-10800, "-03"), (-14400, "-04"), (-14400, "-04")]),
    ("America/Curacao", [(-16547, "LMT"), (-14400, "AST"), (-14400, "AST"), (-14400, "AST"), (-14400, "AST")]),
    ("America/Danmarkshavn", [(-4480, "LMT"), (-10800, "-03"), (0, "GMT"), (0, "GMT"), (0, "GMT")]),
    ("America/Dawson", [(-33460, "LMT"), (-28800, "PST"), (-28800, "PST"), (-25200, "MST"), (-25200, "MST")]),
    ("America/Dawson_Creek", [(-28800, "PST"), (-25200, "MST"), (-25200, "MST"), (-25200, "MST"), (-25200, "MST")]),
    ("America/Denver", [(-25200, "MST"), (-21600, "MDT"), (-25200, "MST"), (-21600, "MDT"), (-21600, "MDT")]),
    ("America/Detroit", [(-19931, "LMT"), (-14400, "EDT"), (-18000, "EST"), (-14400, "EDT"), (-14400, "EDT")]),
    ("America/Dominica", [(-14736, "LMT"), (-14400, "AST"), (-14400, "AST"), (-14400, "AST"), (-14400, "AST")]),
    ("America/Edmonton", [(-27232, "LMT"), (-21600, "MDT"), (-25200, "MST"), (-21600, "MDT"), (-21600, "MDT")]),
    ("America/Eirunepe", [(-16768, "LMT"), (-18000, "-05"), (-18000, "-05"), (-18000, "-05"), (-18000, "-05")]),
    ("America/El_Salvador", [(-21408, "LMT"), (-21600, "CST"), (-21600, "CST"), (-21600, "CST"), (-21600, "CST")]),
    ("America/Ensenada", [(-28084, "LMT"), (-28800, "PST"), (-28800, "PST"), (-25200, "PDT"), (-25200, "PDT")]),
    ("America/Fort_Nelson", [(-28800, "PST"), (-25200, "PDT"), (-28800, "PST"), (-25200, "MST"), (-25200, "MST")]),
    ("America/Fort_Wayne", [(-21600, "CST"), (-18000, "EST"), (-18000, "EST"), (-14400, "EDT"), (-14400, "EDT")]),
    ("America/Fortaleza", [(-9240, "LMT"), (-10800, "-03"), (-7200, "-02"), (-10800, "-03"), (-10800, "-03")]),
    ("America/Glace_Bay", [(-14388, "LMT"), (-10800, "ADT"), (-14400, "AST"), (-10800, "ADT"), (-10800, "ADT")]),
    ("America/Godthab", [(-12416, "LMT"), (-10800, "-03"), (-10800, "-03"), (-7200, "-02"), (-7200, "-02")]),
    ("America/Goose_Bay", [(-12652, "NST"), (-10800, "ADT"), (-14400, "AST"), (-10800, "ADT"), (-10800, "ADT")]),
    ("America/Grand_Turk", [(-18430, "KMT"), (-18000, "EST"), (-18000, "EST"), (-14400, "EDT"), (-14400, "EDT")]),
    ("America/Grenada", [(-14820, "LMT"), (-14400, "AST"), (-14400, "AST"), (-14400, "AST"), (-14400, "AST")]),
    ("America/Guadeloupe", [(-14768, "LMT"), (-14400, "AST"), (-14400, "AST"), (-14400, "AST"), (-14400, "AST")]),
    ("America/Guatemala", [(-21724, "LMT"), (-21600, "CST"), (-21600, "CST"), (-21600, "CST"), (-21600, "CST")]),
    ("America/Guayaquil", [(-18840, "QMT"), (-18000, "-05"), (-18000, "-05"), (-18000, "-05"), (-18000, "-05")]),
    ("America/Guyana", [(-13959, "LMT"), (-13500, "-0345"), (-14400, "-04"), (-14400, "-04"), (-14400, "-04")]),
    ("America/Halifax", [(-15264, "LMT"), (-10800, "ADT"), (-14400, "AST"), (-10800, "ADT"), (-10800, "ADT")]),
    ("America/Havana", [(-19776, "HMT"), (-14400, "CDT"), (-18000, "CST"), (-14400, "CDT"), (-14400, "CDT")]),
    ("America/Hermosillo", [(-26632, "LMT"), (-25200, "MST"), (-25200, "MST"), (-25200, "MST"), (-25200, "MST")]),
    ("America/Indiana/Indianapolis", [(-21600, "CST"), (-18000, "EST"), (-18000, "EST"), (-14400, "EDT"), (-14400, "EDT")]),
    ("America/Indiana/Knox", [(-21600, "CST"), (-18000, "CDT"), (-18000, "EST"), (-18000, "CDT"), (-18000, "CDT")]),
    ("America/Indiana/Marengo", [(-21600, "CST"), (-14400, "EDT"), (-18000, "EST"), (-14400, "EDT"), (-14400, "EDT")]),
    ("America/Indiana/Petersburg", [(-21600, "CST"), (-18000, "CDT"), (-18000, "EST"), (-14400, "EDT"), (-14400, "EDT")]),
    ("America/Indiana/Tell_City", [(-21600, "CST"), (-18000, "EST"), (-18000, "EST"), (-18000, "CDT"), (-18000, "CDT")]),
    ("America/Indiana/Vevay", [(-21600, "CST"), (-18000, "EST"), (-18000, "EST"), (-14400, "EDT"), (-14400, "EDT")]),
    ("America/Indiana/Vincennes", [(-21600, "CST"), (-18000, "EST"), (-18000, "EST"), (-14400, "EDT"), (-14400, "EDT")]),
    ("America/Indiana/Winamac", [(-21600, "CST"), (-18000, "EST"), (-18000, "EST"), (-14400, "EDT"), (-14400, "EDT")]),
    ("America/Indianapolis", [(-21600, "CST"), (-18000, "EST"), (-18000, "EST"), (-14400, "EDT"), (-14400, "EDT")]),
    ("America/Inuvik", [(0, "-00"), (-25200, "PDT"), (-25200, "MST"), (-21600, "MDT"), (-21600, "MDT")]),
    ("America/Iqaluit", [(0, "-00"), (-14400, "EDT"), (-21600, "CST"), (-14400, "EDT"), (-14400, "EDT")]),
    ("America/Jamaica", [(-18430, "KMT"), (-14400, "EDT"), (-18000, "EST"), (-18000, "EST"), (-18000, "EST")]),
    ("America/Jujuy", [(-15408, "CMT"), (-10800, "-03"), (-10800, "-03"), (-10800, "-03"), (-10800, "-03")]),
    ("America/Juneau", [(-32261, "LMT"), (-25200, "PDT"), (-32400, "AKST"), (-28800, "AKDT"), (-28800, "AKDT")]),
    ("America/Kentucky/Louisville", [(-21600, "CST"), (-14400, "EDT"), (-18000, "EST"), (-14400, "EDT"), (-14400, "EDT")]),
    ("America/Kentucky/Monticello", [(-21600, "CST"), (-18000, "CDT"), (-21600, "CST"), (-14400, "EDT"), (-14400, "EDT")]),
    ("America/Knox_IN", [(-21600, "CST"), (-18000, "CDT"), (-18000, "EST"), (-18000, "CDT"), (-18000, "CDT")]),
    ("America/Kralendijk", [(-14400, "AST"), (-14400, "AST"), (-14400, "AST"), (-14400, "AST"), (-14400, "AST")]),
    ("America/La_Paz", [(-16356, "CMT"), (-14400, "-04"), (-14400, "-04"), (-14400, "-04"), (-14400, "-04")]),
    ("America/Lima", [(-18516, "LMT"), (-18000, "-05"), (-18000, "-05"), (-18000, "-05"), (-18000, "-05")]),
    ("America/Los_Angeles", [(-28800, "PST"), (-25200, "PDT"), (-28800, "PST"), (-25200, "PDT"), (-25200, "PDT")]),
    ("America/Louisville", [(-21600, "CST"), (-14400, "EDT"), (-18000, "EST"), (-14400, "EDT"), (-14400, "EDT")]),
    ("America/Lower_Princes", [(-14400, "AST"), (-14400, "AST"), (-14400, "AST"), (-14400, "AST"), (-14400, "AST")]),
    ("America/Maceio", [(-8572, "LMT"), (-10800, "-03"), (-7200, "-02"), (-10800, "-03"), (-10800, "-03")]),
    ("America/Managua", [(-20712, "MMT"), (-21600, "CST"), (-21600, "CST"), (-21600, "CST"), (-21600, "CST")]),
    ("America/Manaus", [(-14404, "LMT"), (-14400, "-04"), (-14400, "-04"), (-14400, "-04"), (-14400, "-04")]),
    ("America/Marigot", [(-14400, "AST"), (-14400, "AST"), (-14400, "AST"), (-14400, "AST"), (-14400, "AST")]),
    ("America/Martinique", [(-14660, "FFMT"), (-14400, "AST"), (-14400, "AST"), (-14400, "AST"), (-14400, "AST")]),
    ("America/Matamoros", [(-23400, "LMT"), (-21600, "CST"), (-21600, "CST"), (-18000, "CDT"), (-18000, "CDT")]),
    ("America/Mazatlan", [(-25540, "LMT"), (-25200, "MST"), (-25200, "MST"), (-21600, "MDT"), (-25200, "MST")]),
    ("America/Mendoza", [(-15408, "CMT"), (-10800, "-03"), (-10800, "-03"), (-10800, "-03"), (-10800, "-03")]),
    ("America/Menominee", [(-21600, "CST"), (-18000, "CDT"), (-21600, "CST"), (-18000, "CDT"), (-18000, "CDT")]),
    ("America/Merida", [(-21508, "LMT"), (-21600, "CST"), (-21600, "CST"), (-18000, "CDT"), (-21600, "CST")]),
    ("America/Metlakatla", [(-31578, "LMT"), (-25200, "PDT"), (-28800, "PST"), (-28800, "AKDT"), (-28800, "AKDT")]),
    ("America/Mexico_City", [(-23796, "LMT"), (-21600, "CST"), (-21600, "CST"), (-18000, "CDT"), (-21600, "CST")]),
    ("America/Miquelon", [(-13480, "LMT"), (-14400, "AST"), (-10800, "-03"), (-7200, "-02"), (-7200, "-02")]),
    ("America/Moncton", [(-18000, "EST"), (-10800, "ADT"), (-14400, "AST"), (-10800, "ADT"), (-10800, "ADT")]),
    ("America/Monterrey", [(-24076, "LMT"), (-21600, "CST"), (-21600, "CST"), (-18000, "CDT"), (-21600, "CST")]),
    ("America/Montevideo", [(-13491, "LMT"), (-10800, "-03"), (-10800, "-03"), (-10800, "-03"), (-10800, "-03")]),
    ("America/Montreal", [(-18000, "EST"), (-14400, "EDT"), (-18000, "EST"), (-14400, "EDT"), (-14400, "EDT")]),
    ("America/Montserrat", [(-14932, "LMT"), (-14400, "AST"), (-14400, "AST"), (-14400, "AST"), (-14400, "AST")]),
    ("America/Nassau", [(-18570, "LMT"), (-14400, "EDT"), (-18000, "EST"), (-14400, "EDT"), (-14400, "EDT")]),
    ("America/New_York", [(-18000, "EST"), (-14400, "EDT"), (-18000, "EST"), (-14400, "EDT"), (-14400, "EDT")]),
    ("America/Nipigon", [(-18000, "EST"), (-14400, "EDT"), (-18000, "EST"), (-14400, "EDT"), (-14400, "EDT")]),
    ("America/Nome", [(-39698, "LMT"), (-36000, "BDT"), (-32400, "AKST"), (-28800, "AKDT"), (-28800, "AKDT")]),
    ("America/Noronha", [(-7780, "LMT"), (-7200, "-02"), (-3600, "-01"), (-7200, "-02"), (-7200, "-02")]),
    ("America/North_Dakota/Beulah", [(-25200, "MST"), (-21600, "MDT"), (-25200, "MST"), (-18000, "CDT"), (-18000, "CDT")]),
    ("America/North_Dakota/Center", [(-25200, "MST"), (-21600, "MDT"), (-21600, "CST"), (-18000, "CDT"), (-18000, "CDT")]),
    ("America/North_Dakota/New_Salem", [(-25200, "MST"), (-21600, "MDT"), (-25200, "MST"), (-18000, "CDT"), (-18000, "CDT")]),
    ("America/Nuuk", [(-12416, "LMT"), (-10800, "-03"), (-10800, "-03"), (-7200, "-02"), (-7200, "-02")]),
    ("America/Ojinaga", [(-25060, "LMT"), (-21600, "CST"), (-25200, "MST"), (-21600, "MDT"), (-18000, "CDT")]),
    ("America/Panama", [(-19176, "CMT"), (-18000, "EST"), (-18000, "EST"), (-18000, "EST"), (-18000, "EST")]),
    ("America/Pangnirtung", [(0, "-00"), (-14400, "EDT"), (-21600, "CST"), (-14400, "EDT"), (-14400, "EDT")]),
    ("America/Paramaribo", [(-13240, "LMT"), (-12600, "-0330"), (-10800, "-03"), (-10800, "-03"), (-10800, "-03")]),
    ("America/Phoenix", [(-25200, "MST"), (-25200, "MST"), (-25200, "MST"), (-25200, "MST"), (-25200, "MST")]),
    ("America/Port-au-Prince", [(-17340, "PPMT"), (-18000, "EST"), (-18000, "EST"), (-14400, "EDT"), (-14400, "EDT")]),
    ("America/Port_of_Spain", [(-14764, "LMT"), (-14400, "AST"), (-14400, "AST"), (-14400, "AST"), (-14400, "AST")]),
    ("America/Porto_Acre", [(-16272, "LMT"), (-18000, "-05"), (-18000, "-05"), (-18000, "-05"), (-18000, "-05")]),
    ("America/Porto_Velho", [(-15336, "LMT"), (-14400, "-04"), (-14400, "-04"), (-14400, "-04"), (-14400, "-04")]),
    ("America/Puerto_Rico", [(-14400, "AST"), (-14400, "AST"), (-14400, "AST"), (-14400, "AST"), (-14400, "AST")]),
    ("America/Punta_Arenas", [(-16965, "SMT"), (-14400, "-04"), (-10800, "-03"), (-10800, "-03"), (-10800, "-03")]),
    ("America/Rainy_River", [(-21600, "CST"), (-18000, "CDT"), (-21600, "CST"), (-18000, "CDT"), (-18000, "CDT")]),
    ("America/Rankin_Inlet", [(0, "-00"), (-18000, "CDT"), (-21600, "CST"), (-18000, "CDT"), (-18000, "CDT")]),
    ("America/Recife", [(-8376, "LMT"), (-10800, "-03"), (-7200, "-02"), (-10800, "-03"), (-10800, "-03")]),
    ("America/Regina", [(-25116, "LMT"), (-21600, "CST"), (-21600, "CST"), (-21600, "CST"), (-21600, "CST")]),
    ("America/Resolute", [(0, "-00"), (-18000, "CDT"), (-21600, "CST"), (-18000, "CDT"), (-18000, "CDT")]),
    ("America/Rio_Branco", [(-16272, "LMT"), (-18000, "-05"), (-18000, "-05"), (-18000, "-05"), (-18000, "-05")]),
    ("America/Rosario", [(-15408, "CMT"), (-10800, "-03"), (-10800, "-03"), (-10800, "-03"), (-10800, "-03")]),
    ("America/Santa_Isabel", [(-28084, "LMT"), (-28800, "PST"), (-28800, "PST"), (-25200, "PDT"), (-25200, "PDT")]),
    ("America/Santarem", [(-13128, "LMT"), (-14400, "-04"), (-14400, "-04"), (-10800, "-03"), (-10800, "-03")]),
    ("America/Santiago", [(-16965, "SMT"), (-14400, "-04"), (-10800, "-03"), (-14400, "-04"), (-10800, "-03")]),
    ("America/Santo_Domingo", [(-16800, "SDMT"), (-14400, "AST"), (-14400, "AST"), (-14400, "AST"), (-14400, "AST")]),
    ("America/Sao_Paulo", [(-11188, "LMT"), (-10800, "-03"), (-7200, "-02"), (-10800, "-03"), (-10800, "-03")]),
    ("America/Scoresbysund", [(-5272, "LMT"), (-7200, "-02"), (-3600, "-01"), (0, "+00"), (-7200, "-02")]),
    ("America/Shiprock", [(-25200, "MST"), (-21600, "MDT"), (-25200, "MST"), (-21600, "MDT"), (-21600, "MDT")]),
    ("America/Sitka", [(-32473, "LMT"), (-25200, "PDT"), (-32400, "AKST"), (-28800, "AKDT"), (-28800, "AKDT")]),
    ("America/St_Barthelemy", [(-14400, "AST"), (-14400, "AST"), (-14400, "AST"), (-14400, "AST"), (-14400, "AST")]),
    ("America/St_Johns", [(-12652, "NST"), (-9000, "NDT"), (-12600, "NST"), (-9000, "NDT"), (-9000, "NDT")]),
    ("America/St_Kitts", [(-15052, "LMT"), (-14400, "AST"), (-14400, "AST"), (-14400, "AST"), (-14400, "AST")]),
    ("America/St_Lucia", [(-14640, "CMT"), (-14400, "AST"), (-14400, "AST"), (-14400, "AST"), (-14400, "AST")]),
    ("America/St_Thomas", [(-15584, "LMT"), (-14400, "AST"), (-14400, "AST"), (-14400, "AST"), (-14400, "AST")]),
    ("America/St_Vincent", [(-14696, "KMT"), (-14400, "AST"), (-14400, "AST"), (-14400, "AST"), (-14400, "AST")]),
    ("America/Swift_Current", [(-25880, "LMT"), (-21600, "CST"), (-21600, "CST"), (-21600, "CST"), (-21600, "CST")]),
    ("America/Tegucigalpa", [(-20932, "LMT"), (-21600, "CST"), (-21600, "CST"), (-21600, "CST"), (-21600, "CST")]),
    ("America/Thule", [(-16508, "LMT"), (-14400, "AST"), (-14400, "AST"), (-10800, "ADT"), (-10800, "ADT")]),
    ("America/Thunder_Bay", [(-18000, "EST"), (-14400, "EDT"), (-18000, "EST"), (-14400, "EDT"), (-14400, "EDT")]),
    ("America/Tijuana", [(-28084, "LMT"), (-28800, "PST"), (-28800, "PST"), (-25200, "PDT"), (-25200, "PDT")]),
    ("America/Toronto", [(-18000, "EST"), (-14400, "EDT"), (-18000, "EST"), (-14400, "EDT"), (-14400, "EDT")]),
    ("America/Tortola", [(-15508, "LMT"), (-14400, "AST"), (-14400, "AST"), (-14400, "AST"), (-14400, "AST")]),
    ("America/Vancouver", [(-28800, "PST"), (-25200, "PDT"), (-28800, "PST"), (-25200, "PDT"), (-25200, "PDT")]),
    ("America/Virgin", [(-14400, "AST"), (-14400, "AST"), (-14400, "AST"), (-14400, "AST"), (-14400, "AST")]),
    ("America/Whitehorse", [(-32412, "LMT"), (-28800, "PST"), (-28800, "PST"), (-25200, "MST"), (-25200, "MST")]),
    ("America/Winnipeg", [(-21600, "CST"), (-18000, "CDT"), (-21600, "CST"), (-18000, "CDT"), (-18000, "CDT")]),
    ("America/Yakutat", [(-33535, "LMT"), (-28800, "YDT"), (-32400, "AKST"), (-28800, "AKDT"), (-28800, "AKDT")]),
    ("America/Yellowknife", [(-27232, "LMT"), (-21600, "MDT"), (-25200, "MST"), (-21600, "MDT"), (-21600, "MDT")]),
    ("Antarctica/Casey", [(0, "-00"), (28800, "+08"), (28800, "+08"), (28800, "+08"), (28800, "+08")]),
    ("Antarctica/Davis", [(0, "-00"), (25200, "+07"), (25200, "+07"), (25200, "+07"), (25200, "+07")]),
    ("Antarctica/DumontDUrville", [(0, "-00"), (36000, "+10"), (36000, "+10"), (36000, "+10"), (36000, "+10")]),
    ("Antarctica/Macquarie", [(36000, "AEST"), (36000, "AEST"), (39600, "AEDT"), (36000, "AEST"), (39600, "AEDT")]),
    ("Antarctica/Mawson", [(0, "-00"), (21600, "+06"), (21600, "+06"), (18000, "+05"), (18000, "+05")]),
    ("Antarctica/McMurdo", [(0, "-00"), (43200, "NZST"), (46800, "NZDT"), (43200, "NZST"), (46800, "NZDT")]),
    ("Antarctica/Palmer", [(0, "-00"), (-10800, "-03"), (-10800, "-03"), (-10800, "-03"), (-10800, "-03")]),
    ("Antarctica/Rothera", [(0, "-00"), (0, "-00"), (-10800, "-03"), (-10800, "-03"), (-10800, "-03")]),
    ("Antarctica/South_Pole", [(41400, "NZMT"), (43200, "NZST"), (46800, "NZDT"), (43200, "NZST"), (46800, "NZDT")]),
    ("Antarctica/Syowa", [(0, "-00"), (10800, "+03"), (10800, "+03"), (10800, "+03"), (10800, "+03")]),
    ("Antarctica/Troll", [(0, "-00"), (0, "-00"), (0, "-00"), (7200, "+02"), (0, "+00")]),
    ("Antarctica/Vostok", [(0, "-00"), (25200, "+07"), (25200, "+07"), (25200, "+07"), (18000, "+05")]),
    ("Arctic/Longyearbyen", [(3600, "CET"), (3600, "CET"), (3600, "CET"), (7200, "CEST"), (3600, "CET")]),
    ("Asia/Aden", [(10794, "LMT"), (10800, "+03"), (10800, "+03"), (10800, "+03"), (10800, "+03")]),
    ("Asia/Almaty", [(18468, "LMT"), (21600, "+06"), (21600, "+06"), (21600, "+06"), (18000, "+05")]),
    ("Asia/Amman", [(8624, "LMT"), (10800, "EEST"), (7200, "EET"), (10800, "EEST"), (10800, "+03")]),
    ("Asia/Anadyr", [(42596, "LMT"), (46800, "+13"), (43200, "+12"), (43200, "+12"), (43200, "+12")]),
    ("Asia/Aqtau", [(12064, "LMT"), (18000, "+05"), (14400, "+04"), (18000, "+05"), (18000, "+05")]),
    ("Asia/Aqtobe", [(13720, "LMT"), (18000, "+05"), (18000, "+05"), (18000, "+05"), (18000, "+05")]),
    ("Asia/Ashgabat", [(14012, "LMT"), (18000, "+05"), (18000, "+05"), (18000, "+05"), (18000, "+05")]),
    ("Asia/Ashkhabad", [(14012, "LMT"), (18000, "+05"), (18000, "+05"), (18000, "+05"), (18000, "+05")]),
    ("Asia/Atyrau", [(12464, "LMT"), (18000, "+05"), (14400, "+04"), (18000, "+05"), (18000, "+05")]),
    ("Asia/Baghdad", [(10656, "BMT"), (10800, "+03"), (10800, "+03"), (10800, "+03"), (10800, "+03")]),
    ("Asia/Bahrain", [(12140, "LMT"), (10800, "+03"), (10800, "+03"), (10800, "+03"), (10800, "+03")]),
    ("Asia/Baku", [(11964, "LMT"), (14400, "+04"), (14400, "+04"), (14400, "+04"), (14400, "+04")]),
    ("Asia/Bangkok", [(24124, "BMT"), (25200, "+07"), (25200, "+07"), (25200, "+07"), (25200, "+07")]),
    ("Asia/Barnaul", [(20100, "LMT"), (25200, "+07"), (21600, "+06"), (25200, "+07"), (25200, "+07")]),
    ("Asia/Beirut", [(7200, "EET"), (10800, "EEST"), (7200, "EET"), (10800, "EEST"), (7200, "EET")]),
    ("Asia/Bishkek", [(17904, "LMT"), (21600, "+06"), (18000, "+05"), (21600, "+06"), (21600, "+06")]),
    ("Asia/Brunei", [(27580, "LMT"), (28800, "+08"), (28800, "+08"), (28800, "+08"), (28800, "+08")]),
    ("Asia/Calcutta", [(19270, "MMT"), (19800, "IST"), (19800, "IST"), (19800, "IST"), (19800, "IST")]),
    ("Asia/Chita", [(27232, "LMT"), (32400, "+09"), (32400, "+09"), (32400, "+09"), (32400, "+09")]),
    ("Asia/Choibalsan", [(25652, "LMT"), (25200, "+07"), (28800, "+08"), (28800, "+08"), (28800, "+08")]),
    ("Asia/Chongqing", [(29143, "LMT"), (28800, "CST"), (28800, "CST"), (28800, "CST"), (28800, "CST")]),
    ("Asia/Chungking", [(29143, "LMT"), (28800, "CST"), (28800, "CST"), (28800, "CST"), (28800, "CST")]),
    ("Asia/Colombo", [(19172, "MMT"), (19800, "+0530"), (21600, "+06"), (19800, "+0530"), (19800, "+0530")]),
    ("Asia/Dacca", [(21200, "HMT"), (21600, "+06"), (21600, "+06"), (21600, "+06"), (21600, "+06")]),
    ("Asia/Damascus", [(8712, "LMT"), (10800, "EEST"), (7200, "EET"), (10800, "EEST"), (10800, "+03")]),
    ("Asia/Dhaka", [(21200, "HMT"), (21600, "+06"), (21600, "+06"), (21600, "+06"), (21600, "+06")]),
    ("Asia/Dili", [(30140, "LMT"), (32400, "+09"), (28800, "+08"), (32400, "+09"), (32400, "+09")]),
    ("Asia/Dubai", [(13272, "LMT"), (14400, "+04"), (14400, "+04"), (14400, "+04"), (14400, "+04")]),
    ("Asia/Dushanbe", [(16512, "LMT"), (21600, "+06"), (18000, "+05"), (18000, "+05"), (18000, "+05")]),
    ("Asia/Famagusta", [(8148, "LMT"), (10800, "EEST"), (7200, "EET"), (10800, "EEST"), (7200, "EET")]),
    ("Asia/Gaza", [(8272, "LMT"), (10800, "IDT"), (7200, "EET"), (10800, "EEST"), (7200, "EET")]),
    ("Asia/Harbin", [(29143, "LMT"), (28800, "CST"), (28800, "CST"), (28800, "CST"), (28800, "CST")]),
    ("Asia/Hebron", [(8423, "LMT"), (10800, "IDT"), (7200, "EET"), (10800, "EEST"), (7200, "EET")]),
    ("Asia/Ho_Chi_Minh", [(25590, "LMT"), (25200, "+07"), (25200, "+07"), (25200, "+07"), (25200, "+07")]),
    ("Asia/Hong_Kong", [(27402, "LMT"), (32400, "HKST"), (28800, "HKT"), (28800, "HKT"), (28800, "HKT")]),
    ("Asia/Hovd", [(21996, "LMT"), (21600, "+06"), (25200, "+07"), (25200, "+07"), (25200, "+07")]),
    ("Asia/Irkutsk", [(25025, "IMT"), (28800, "+08"), (28800, "+08"), (28800, "+08"), (28800, "+08")]),
    ("Asia/Istanbul", [(7016, "IMT"), (10800, "EEST"), (7200, "EET"), (10800, "+03"), (10800, "+03")]),
    ("Asia/Jakarta", [(25632, "BMT"), (25200, "WIB"), (25200, "WIB"), (25200, "WIB"), (25200, "WIB")]),
    ("Asia/Jayapura", [(33768, "LMT"), (32400, "WIT"), (32400, "WIT"), (32400, "WIT"), (32400, "WIT")]),
    ("Asia/Jerusalem", [(8440, "JMT"), (10800, "IDT"), (7200, "IST"), (10800, "IDT"), (7200, "IST")]),
    ("Asia/Kabul", [(14400, "+04"), (16200, "+0430"), (16200, "+0430"), (16200, "+0430"), (16200, "+0430")]),
    ("Asia/Kamchatka", [(38076, "LMT"), (43200, "+12"), (43200, "+12"), (43200, "+12"), (43200, "+12")]),
    ("Asia/Karachi", [(16092, "LMT"), (18000, "PKT"), (18000, "PKT"), (18000, "PKT"), (18000, "PKT")]),
    ("Asia/Kashgar", [(21020, "LMT"), (21600, "+06"), (21600, "+06"), (21600, "+06"), (21600, "+06")]),
    ("Asia/Kathmandu", [(20476, "LMT"), (19800, "+0530"), (20700, "+0545"), (20700, "+0545"), (20700, "+0545")]),
    ("Asia/Katmandu", [(20476, "LMT"), (19800, "+0530"), (20700, "+0545"), (20700, "+0545"), (20700, "+0545")]),
    ("Asia/Khandyga", [(32533, "LMT"), (32400, "+09"), (32400, "+09"), (32400, "+09"), (32400, "+09")]),
    ("Asia/Kolkata", [(19270, "MMT"), (19800, "IST"), (19800, "IST"), (19800, "IST"), (19800, "IST")]),
    ("Asia/Krasnoyarsk", [(22286, "LMT"), (25200, "+07"), (25200, "+07"), (25200, "+07"), (25200, "+07")]),
    ("Asia/Kuala_Lumpur", [(24406, "LMT"), (27000, "+0730"), (28800, "+08"), (28800, "+08"), (28800, "+08")]),
    ("Asia/Kuching", [(26480, "LMT"), (28800, "+08"), (28800, "+08"), (28800, "+08"), (28800, "+08")]),
    ("Asia/Kuwait", [(11516, "LMT"), (10800, "+03"), (10800, "+03"), (10800, "+03"), (10800, "+03")]),
    ("Asia/Macao", [(27250, "LMT"), (32400, "CDT"), (28800, "CST"), (28800, "CST"), (28800, "CST")]),
    ("Asia/Macau", [(27250, "LMT"), (32400, "CDT"), (28800, "CST"), (28800, "CST"), (28800, "CST")]),
    ("Asia/Magadan", [(36192, "LMT"), (39600, "+11"), (39600, "+11"), (39600, "+11"), (39600, "+11")]),
    ("Asia/Makassar", [(28656, "LMT"), (28800, "WITA"), (28800, "WITA"), (28800, "WITA"), (28800, "WITA")]),
    ("Asia/Manila", [(28800, "PST"), (28800, "PST"), (28800, "PST"), (28800, "PST"), (28800, "PST")]),
    ("Asia/Muscat", [(14064, "LMT"), (14400, "+04"), (14400, "+04"), (14400, "+04"), (14400, "+04")]),
    ("Asia/Nicosia", [(8008, "LMT"), (10800, "EEST"), (7200, "EET"), (10800, "EEST"), (7200, "EET")]),
    ("Asia/Novokuznetsk", [(20928, "LMT"), (25200, "+07"), (25200, "+07"), (25200, "+07"), (25200, "+07")]),
    ("Asia/Novosibirsk", [(19900, "LMT"), (25200, "+07"), (21600, "+06"), (25200, "+07"), (25200, "+07")]),
    ("Asia/Omsk", [(17610, "LMT"), (21600, "+06"), (21600, "+06"), (21600, "+06"), (21600, "+06")]),
    ("Asia/Oral", [(12324, "LMT"), (18000, "+05"), (14400, "+04"), (18000, "+05"), (18000, "+05")]),
    ("Asia/Phnom_Penh", [(25180, "LMT"), (25200, "+07"), (25200, "+07"), (25200, "+07"), (25200, "+07")]),
    ("Asia/Pontianak", [(26240, "LMT"), (28800, "WITA"), (25200, "WIB"), (25200, "WIB"), (25200, "WIB")]),
    ("Asia/Pyongyang", [(30180, "LMT"), (32400, "KST"), (32400, "KST"), (32400, "KST"), (32400, "KST")]),
    ("Asia/Qatar", [(12368, "LMT"), (10800, "+03"), (10800, "+03"), (10800, "+03"), (10800, "+03")]),
    ("Asia/Qostanay", [(15268, "LMT"), (18000, "+05"), (18000, "+05"), (21600, "+06"), (18000, "+05")]),
    ("Asia/Qyzylorda", [(15712, "LMT"), (18000, "+05"), (18000, "+05"), (18000, "+05"), (18000, "+05")]),
    ("Asia/Rangoon", [(23087, "RMT"), (23400, "+0630"), (23400, "+0630"), (23400, "+0630"), (23400, "+0630")]),
    ("Asia/Riyadh", [(11212, "LMT"), (10800, "+03"), (10800, "+03"), (10800, "+03"), (10800, "+03")]),
    ("Asia/Saigon", [(25590, "LMT"), (25200, "+07"), (25200, "+07"), (25200, "+07"), (25200, "+07")]),
    ("Asia/Sakhalin", [(34248, "LMT"), (39600, "+11"), (36000, "+10"), (39600, "+11"), (39600, "+11")]),
    ("Asia/Samarkand", [(16073, "LMT"), (18000, "+05"), (18000, "+05"), (18000, "+05"), (18000, "+05")]),
    ("Asia/Seoul", [(30472, "LMT"), (32400, "KST"), (32400, "KST"), (32400, "KST"), (32400, "KST")]),
    ("Asia/Shanghai", [(29143, "LMT"), (28800, "CST"), (28800, "CST"), (28800, "CST"), (28800, "CST")]),
    ("Asia/Singapore", [(24925, "LMT"), (27000, "+0730"), (28800, "+08"), (28800, "+08"), (28800, "+08")]),
    ("Asia/Srednekolymsk", [(36892, "LMT"), (39600, "+11"), (39600, "+11"), (39600, "+11"), (39600, "+11")]),
    ("Asia/Taipei", [(28800, "CST"), (32400, "CDT"), (28800, "CST"), (28800, "CST"), (28800, "CST")]),
    ("Asia/Tashkent", [(16631, "LMT"), (21600, "+06"), (18000, "+05"), (18000, "+05"), (18000, "+05")]),
    ("Asia/Tbilisi", [(10751, "TBMT"), (14400, "+04"), (14400, "+04"), (14400, "+04"), (14400, "+04")]),
    ("Asia/Tehran", [(12344, "LMT"), (12600, "+0330"), (12600, "+0330"), (16200, "+0430"), (12600, "+0330")]),
    ("Asia/Tel_Aviv", [(8440, "JMT"), (10800, "IDT"), (7200, "IST"), (10800, "IDT"), (7200, "IST")]),
    ("Asia/Thimbu", [(21516, "LMT"), (19800, "+0530"), (21600, "+06"), (21600, "+06"), (21600, "+06")]),
    ("Asia/Thimphu", [(21516, "LMT"), (19800, "+0530"), (21600, "+06"), (21600, "+06"), (21600, "+06")]),
    ("Asia/Tokyo", [(32400, "JST"), (32400, "JST"), (32400, "JST"), (32400, "JST"), (32400, "JST")]),
    ("Asia/Tomsk", [(20391, "LMT"), (25200, "+07"), (25200, "+07"), (25200, "+07"), (25200, "+07")]),
    ("Asia/Ujung_Pandang", [(28656, "LMT"), (28800, "WITA"), (28800, "WITA"), (28800, "WITA"), (28800, "WITA")]),
    ("Asia/Ulaanbaatar", [(25652, "LMT"), (25200, "+07"), (28800, "+08"), (28800, "+08"), (28800, "+08")]),
    ("Asia/Ulan_Bator", [(25652, "LMT"), (25200, "+07"), (28800, "+08"), (28800, "+08"), (28800, "+08")]),
    ("Asia/Urumqi", [(21020, "LMT"), (21600, "+06"), (21600, "+06"), (21600, "+06"), (21600, "+06")]),
    ("Asia/Ust-Nera", [(34374, "LMT"), (32400, "+09"), (39600, "+11"), (36000, "+10"), (36000, "+10")]),
    ("Asia/Vientiane", [(24624, "LMT"), (25200, "+07"), (25200, "+07"), (25200, "+07"), (25200, "+07")]),
    ("Asia/Vladivostok", [(31651, "LMT"), (36000, "+10"), (36000, "+10"), (36000, "+10"), (36000, "+10")]),
    ("Asia/Yakutsk", [(31138, "LMT"), (32400, "+09"), (32400, "+09"), (32400, "+09"), (32400, "+09")]),
    ("Asia/Yangon", [(23087, "RMT"), (23400, "+0630"), (23400, "+0630"), (23400, "+0630"), (23400, "+0630")]),
    ("Asia/Yekaterinburg", [(14553, "LMT"), (18000, "+05"), (18000, "+05"), (18000, "+05"), (18000, "+05")]),
    ("Asia/Yerevan", [(10680, "LMT"), (14400, "+04"), (14400, "+04"), (14400, "+04"), (14400, "+04")]),
    ("Atlantic/Azores", [(-6872, "HMT"), (-3600, "-01"), (-3600, "-01"), (0, "+00"), (-3600, "-01")]),
    ("Atlantic/Bermuda", [(-15558, "BMT"), (-10800, "ADT"), (-14400, "AST"), (-10800, "ADT"), (-10800, "ADT")]),
    ("Atlantic/Canary", [(-3696, "LMT"), (0, "WET"), (0, "WET"), (3600, "WEST"), (0, "WET")]),
    ("Atlantic/Cape_Verde", [(-5644, "LMT"), (-7200, "-02"), (-3600, "-01"), (-3600, "-01"), (-3600, "-01")]),
    ("Atlantic/Faeroe", [(-1624, "LMT"), (0, "WET"), (0, "WET"), (3600, "WEST"), (0, "WET")]),
    ("Atlantic/Faroe", [(-1624, "LMT"), (0, "WET"), (0, "WET"), (3600, "WEST"), (0, "WET")]),
    ("Atlantic/Jan_Mayen", [(3600, "CET"), (3600, "CET"), (3600, "CET"), (7200, "CEST"), (3600, "CET")]),
    ("Atlantic/Madeira", [(-4056, "FMT"), (0, "WET"), (0, "WET"), (3600, "WEST"), (0, "WET")]),
    ("Atlantic/Reykjavik", [(-5280, "LMT"), (0, "GMT"), (0, "GMT"), (0, "GMT"), (0, "GMT")]),
    ("Atlantic/South_Georgia", [(-7200, "-02"), (-7200, "-02"), (-7200, "-02"), (-7200, "-02"), (-7200, "-02")]),
    ("Atlantic/St_Helena", [(-1368, "JMT"), (0, "GMT"), (0, "GMT"), (0, "GMT"), (0, "GMT")]),
    ("Atlantic/Stanley", [(-13884, "SMT"), (-14400, "-04"), (-10800, "-03"), (-10800, "-03"), (-10800, "-03")]),
    ("Australia/ACT", [(36000, "AEST"), (36000, "AEST"), (39600, "AEDT"), (36000, "AEST"), (39600, "AEDT")]),
    ("Australia/Adelaide", [(34200, "ACST"), (34200, "ACST"), (37800, "ACDT"), (34200, "ACST"), (37800, "ACDT")]),
    ("Australia/Brisbane", [(36000, "AEST"), (36000, "AEST"), (36000, "AEST"), (36000, "AEST"), (36000, "AEST")]),
    ("Australia/Broken_Hill", [(34200, "ACST"), (34200, "ACST"), (37800, "ACDT"), (34200, "ACST"), (37800, "ACDT")]),
    ("Australia/Canberra", [(36000, "AEST"), (36000, "AEST"), (39600, "AEDT"), (36000, "AEST"), (39600, "AEDT")]),
    ("Australia/Currie", [(36000, "AEST"), (36000, "AEST"), (39600, "AEDT"), (36000, "AEST"), (39600, "AEDT")]),
    ("Australia/Darwin", [(34200, "ACST"), (34200, "ACST"), (34200, "ACST"), (34200, "ACST"), (34200, "ACST")]),
    ("Australia/Eucla", [(31500, "+0845"), (31500, "+0845"), (31500, "+0845"), (31500, "+0845"), (31500, "+0845")]),
    ("Australia/Hobart", [(36000, "AEST"), (36000, "AEST"), (39600, "AEDT"), (36000, "AEST"), (39600, "AEDT")]),
    ("Australia/LHI", [(36000, "AEST"), (36000, "AEST"), (39600, "+11"), (37800, "+1030"), (39600, "+11")]),
    ("Australia/Lindeman", [(36000, "AEST"), (36000, "AEST"), (36000, "AEST"), (36000, "AEST"), (36000, "AEST")]),
    ("Australia/Lord_Howe", [(36000, "AEST"), (36000, "AEST"), (39600, "+11"), (37800, "+1030"), (39600, "+11")]),
    ("Australia/Melbourne", [(36000, "AEST"), (36000, "AEST"), (39600, "AEDT"), (36000, "AEST"), (39600, "AEDT")]),
    ("Australia/NSW", [(36000, "AEST"), (36000, "AEST"), (39600, "AEDT"), (36000, "AEST"), (39600, "AEDT")]),
    ("Australia/North", [(34200, "ACST"), (34200, "ACST"), (34200, "ACST"), (34200, "ACST"), (34200, "ACST")]),
    ("Australia/Perth", [(28800, "AWST"), (28800, "AWST"), (28800, "AWST"), (28800, "AWST"), (28800, "AWST")]),
    ("Australia/Queensland", [(36000, "AEST"), (36000, "AEST"), (36000, "AEST"), (36000, "AEST"), (36000, "AEST")]),
    ("Australia/South", [(34200, "ACST"), (34200, "ACST"), (37800, "ACDT"), (34200, "ACST"), (37800, "ACDT")]),
    ("Australia/Sydney", [(36000, "AEST"), (36000, "AEST"), (39600, "AEDT"), (36000, "AEST"), (39600, "AEDT")]),
    ("Australia/Tasmania", [(36000, "AEST"), (36000, "AEST"), (39600, "AEDT"), (36000, "AEST"), (39600, "AEDT")]),
    ("Australia/Victoria", [(36000, "AEST"), (36000, "AEST"), (39600, "AEDT"), (36000, "AEST"), (39600, "AEDT")]),
    ("Australia/West", [(28800, "AWST"), (28800, "AWST"), (28800, "AWST"), (28800, "AWST"), (28800, "AWST")]),
    ("Australia/Yancowinna", [(34200, "ACST"), (34200, "ACST"), (37800, "ACDT"), (34200, "ACST"), (37800, "ACDT")]),
    ("Brazil/Acre", [(-16272, "LMT"), (-18000, "-05"), (-18000, "-05"), (-18000, "-05"), (-18000, "-05")]),
    ("Brazil/DeNoronha", [(-7780, "LMT"), (-7200, "-02"), (-3600, "-01"), (-7200, "-02"), (-7200, "-02")]),
    ("Brazil/East", [(-11188, "LMT"), (-10800, "-03"), (-7200, "-02"), (-10800, "-03"), (-10800, "-03")]),
    ("Brazil/West", [(-14404, "LMT"), (-14400, "-04"), (-14400, "-04"), (-14400, "-04"), (-14400, "-04")]),
    ("CET", [(3600, "CET"), (3600, "CET"), (3600, "CET"), (7200, "CEST"), (3600, "CET")]),
    ("CST6CDT", [(-21600, "CST"), (-18000, "CDT"), (-21600, "CST"), (-18000, "CDT"), (-18000, "CDT")]),
    ("Canada/Atlantic", [(-15264, "LMT"), (-10800, "ADT"), (-14400, "AST"), (-10800, "ADT"), (-10800, "ADT")]),
    ("Canada/Central", [(-21600, "CST"), (-18000, "CDT"), (-21600, "CST"), (-18000, "CDT"), (-18000, "CDT")]),
    ("Canada/Eastern", [(-18000, "EST"), (-14400, "EDT"), (-18000, "EST"), (-14400, "EDT"), (-14400, "EDT")]),
    ("Canada/Mountain", [(-27232, "LMT"), (-21600, "MDT"), (-25200, "MST"), (-21600, "MDT"), (-21600, "MDT")]),
    ("Canada/Newfoundland", [(-12652, "NST"), (-9000, "NDT"), (-12600, "NST"), (-9000, "NDT"), (-9000, "NDT")]),
    ("Canada/Pacific", [(-28800, "PST"), (-25200, "PDT"), (-28800, "PST"), (-25200, "PDT"), (-25200, "PDT")]),
    ("Canada/Saskatchewan", [(-25116, "LMT"), (-21600, "CST"), (-21600, "CST"), (-21600, "CST"), (-21600, "CST")]),
    ("Canada/Yukon", [(-32412, "LMT"), (-28800, "PST"), (-28800, "PST"), (-25200, "MST"), (-25200, "MST")]),
    ("Chile/Continental", [(-16965, "SMT"), (-14400, "-04"), (-10800, "-03"), (-14400, "-04"), (-10800, "-03")]),
    ("Chile/EasterIsland", [(-26248, "EMT"), (-25200, "-07"), (-18000, "-05"), (-21600, "-06"), (-18000, "-05")]),
    ("Cuba", [(-19776, "HMT"), (-14400, "CDT"), (-18000, "CST"), (-14400, "CDT"), (-14400, "CDT")]),
    ("EET", [(7200, "EET"), (7200, "EET"), (7200, "EET"), (10800, "EEST"), (7200, "EET")]),
    ("EST", [(-18000, "EST"), (-18000, "EST"), (-18000, "EST"), (-18000, "EST"), (-18000, "EST")]),
    ("EST5EDT", [(-18000, "EST"), (-14400, "EDT"), (-18000, "EST"), (-14400, "EDT"), (-14400, "EDT")]),
    ("Egypt", [(7509, "LMT"), (10800, "EEST"), (7200, "EET"), (7200, "EET"), (7200, "EET")]),
    ("Eire", [(-1521, "DMT"), (3600, "IST"), (0, "GMT"), (3600, "IST"), (0, "GMT")]),
    ("Etc/GMT", [(0, "GMT"), (0, "GMT"), (0, "GMT"), (0, "GMT"), (0, "GMT")]),
    ("Etc/GMT+0", [(0, "GMT"), (0, "GMT"), (0, "GMT"), (0, "GMT"), (0, "GMT")]),
    ("Etc/GMT+1", [(-3600, "-01"), (-3600, "-01"), (-3600, "-01"), (-3600, "-01"), (-3600, "-01")]),
    ("Etc/GMT+10", [(-36000, "-10"), (-36000, "-10"), (-36000, "-10"), (-36000, "-10"), (-36000, "-10")]),
    ("Etc/GMT+11", [(-39600, "-11"), (-39600, "-11"), (-39600, "-11"), (-39600, "-11"), (-39600, "-11")]),
    ("Etc/GMT+12", [(-43200, "-12"), (-43200, "-12"), (-43200, "-12"), (-43200, "-12"), (-43200, "-12")]),
    ("Etc/GMT+2", [(-7200, "-02"), (-7200, "-02"), (-7200, "-02"), (-7200, "-02"), (-7200, "-02")]),
    ("Etc/GMT+3", [(-10800, "-03"), (-10800, "-03"), (-10800, "-03"), (-10800, "-03"), (-10800, "-03")]),
    ("Etc/GMT+4", [(-14400, "-04"), (-14400, "-04"), (-14400, "-04"), (-14400, "-04"), (-14400, "-04")]),
    ("Etc/GMT+5", [(-18000, "-05"), (-18000, "-05"), (-18000, "-05"), (-18000, "-05"), (-18000, "-05")]),
    ("Etc/GMT+6", [(-21600, "-06"), (-21600, "-06"), (-21600, "-06"), (-21600, "-06"), (-21600, "-06")]),
    ("Etc/GMT+7", [(-25200, "-07"), (-25200, "-07"), (-25200, "-07"), (-25200, "-07"), (-25200, "-07")]),
    ("Etc/GMT+8", [(-28800, "-08"), (-28800, "-08"), (-28800, "-08"), (-28800, "-08"), (-28800, "-08")]),
    ("Etc/GMT+9", [(-32400, "-09"), (-32400, "-09"), (-32400, "-09"), (-32400, "-09"), (-32400, "-09")]),
    ("Etc/GMT-0", [(0, "GMT"), (0, "GMT"), (0, "GMT"), (0, "GMT"), (0, "GMT")]),
    ("Etc/GMT-1", [(3600, "+01"), (3600, "+01"), (3600, "+01"), (3600, "+01"), (3600, "+01")]),
    ("Etc/GMT-10", [(36000, "+10"), (36000, "+10"), (36000, "+10"), (36000, "+10"), (36000, "+10")]),
    ("Etc/GMT-11", [(39600, "+11"), (39600, "+11"), (39600, "+11"), (39600, "+11"), (39600, "+11")]),
    ("Etc/GMT-12", [(43200, "+12"), (43200, "+12"), (43200, "+12"), (43200, "+12"), (43200, "+12")]),
    ("Etc/GMT-13", [(46800, "+13"), (46800, "+13"), (46800, "+13"), (46800, "+13"), (46800, "+13")]),
    ("Etc/GMT-14", [(50400, "+14"), (50400, "+14"), (50400, "+14"), (50400, "+14"), (50400, "+14")]),
    ("Etc/GMT-2", [(7200, "+02"), (7200, "+02"), (7200, "+02"), (7200, "+02"), (7200, "+02")]),
    ("Etc/GMT-3", [(10800, "+03"), (10800, "+03"), (10800, "+03"), (10800, "+03"), (10800, "+03")]),
    ("Etc/GMT-4", [(14400, "+04"), (14400, "+04"), (14400, "+04"), (14400, "+04"), (14400, "+04")]),
    ("Etc/GMT-5", [(18000, "+05"), (18000, "+05"), (18000, "+05"), (18000, "+05"), (18000, "+05")]),
    ("Etc/GMT-6", [(21600, "+06"), (21600, "+06"), (21600, "+06"), (21600, "+06"), (21600, "+06")]),
    ("Etc/GMT-7", [(25200, "+07"), (25200, "+07"), (25200, "+07"), (25200, "+07"), (25200, "+07")]),
    ("Etc/GMT-8", [(28800, "+08"), (28800, "+08"), (28800, "+08"), (28800, "+08"), (28800, "+08")]),
    ("Etc/GMT-9", [(32400, "+09"), (32400, "+09"), (32400, "+09"), (32400, "+09"), (32400, "+09")]),
    ("Etc/GMT0", [(0, "GMT"), (0, "GMT"), (0, "GMT"), (0, "GMT"), (0, "GMT")]),
    ("Etc/Greenwich", [(0, "GMT"), (0, "GMT"), (0, "GMT"), (0, "GMT"), (0, "GMT")]),
    ("Etc/UCT", [(0, "UTC"), (0, "UTC"), (0, "UTC"), (0, "UTC"), (0, "UTC")]),
    ("Etc/UTC", [(0, "UTC"), (0, "UTC"), (0, "UTC"), (0, "UTC"), (0, "UTC")]),
    ("Etc/Universal", [(0, "UTC"), (0, "UTC"), (0, "UTC"), (0, "UTC"), (0, "UTC")]),
    ("Etc/Zulu", [(0, "UTC"), (0, "UTC"), (0, "UTC"), (0, "UTC"), (0, "UTC")]),
    ("Europe/Amsterdam", [(1172, "AMT"), (3600, "CET"), (3600, "CET"), (7200, "CEST"), (3600, "CET")]),
    ("Europe/Andorra", [(364, "LMT"), (3600, "CET"), (3600, "CET"), (7200, "CEST"), (3600, "CET")]),
    ("Europe/Astrakhan", [(11532, "LMT"), (14400, "+04"), (10800, "+03"), (14400, "+04"), (14400, "+04")]),
    ("Europe/Athens", [(5692, "AMT"), (10800, "EEST"), (7200, "EET"), (10800, "EEST"), (7200, "EET")]),
    ("Europe/Belfast", [(0, "GMT"), (3600, "BST"), (0, "GMT"), (3600, "BST"), (0, "GMT")]),
    ("Europe/Belgrade", [(3600, "CET"), (3600, "CET"), (3600, "CET"), (7200, "CEST"), (3600, "CET")]),
    ("Europe/Berlin", [(3600, "CET"), (3600, "CET"), (3600, "CET"), (7200, "CEST"), (3600, "CET")]),
    ("Europe/Bratislava", [(3600, "CET"), (3600, "CET"), (3600, "CET"), (7200, "CEST"), (3600, "CET")]),
    ("Europe/Brussels", [(0, "WET"), (3600, "CET"), (3600, "CET"), (7200, "CEST"), (3600, "CET")]),
    ("Europe/Bucharest", [(6264, "BMT"), (7200, "EET"), (7200, "EET"), (10800, "EEST"), (7200, "EET")]),
    ("Europe/Budapest", [(3600, "CET"), (3600, "CET"), (3600, "CET"), (7200, "CEST"), (3600, "CET")]),
    ("Europe/Busingen", [(3600, "CET"), (3600, "CET"), (3600, "CET"), (7200, "CEST"), (3600, "CET")]),
    ("Europe/Chisinau", [(6900, "CMT"), (10800, "MSK"), (7200, "EET"), (10800, "EEST"), (7200, "EET")]),
    ("Europe/Copenhagen", [(3600, "CET"), (3600, "CET"), (3600, "CET"), (7200, "CEST"), (3600, "CET")]),
    ("Europe/Dublin", [(-1521, "DMT"), (3600, "IST"), (0, "GMT"), (3600, "IST"), (0, "GMT")]),
    ("Europe/Gibraltar", [(0, "GMT"), (3600, "CET"), (3600, "CET"), (7200, "CEST"), (3600, "CET")]),
    ("Europe/Guernsey", [(-609, "LMT"), (3600, "BST"), (0, "GMT"), (3600, "BST"), (0, "GMT")]),
    ("Europe/Helsinki", [(5989, "HMT"), (7200, "EET"), (7200, "EET"), (10800, "EEST"), (7200, "EET")]),
    ("Europe/Isle_of_Man", [(0, "GMT"), (3600, "BST"), (0, "GMT"), (3600, "BST"), (0, "GMT")]),
    ("Europe/Istanbul", [(7016, "IMT"), (10800, "EEST"), (7200, "EET"), (10800, "+03"), (10800, "+03")]),
    ("Europe/Jersey", [(0, "GMT"), (3600, "BST"), (0, "GMT"), (3600, "BST"), (0, "GMT")]),
    ("Europe/Kaliningrad", [(3600, "CET"), (10800, "MSK"), (7200, "EET"), (7200, "EET"), (7200, "EET")]),
    ("Europe/Kiev", [(7324, "KMT"), (10800, "MSK"), (7200, "EET"), (10800, "EEST"), (7200, "EET")]),
    ("Europe/Kirov", [(11928, "LMT"), (14400, "+04"), (10800, "MSK"), (10800, "MSK"), (10800, "MSK")]),
    ("Europe/Kyiv", [(7324, "KMT"), (10800, "MSK"), (7200, "EET"), (10800, "EEST"), (7200, "EET")]),
    ("Europe/Lisbon", [(-2205, "LMT"), (3600, "CET"), (0, "WET"), (3600, "WEST"), (0, "WET")]),
    ("Europe/Ljubljana", [(3600, "CET"), (3600, "CET"), (3600, "CET"), (7200, "CEST"), (3600, "CET")]),
    ("Europe/London", [(0, "GMT"), (3600, "BST"), (0, "GMT"), (3600, "BST"), (0, "GMT")]),
    ("Europe/Luxembourg", [(1476, "LMT"), (3600, "CET"), (3600, "CET"), (7200, "CEST"), (3600, "CET")]),
    ("Europe/Madrid", [(-884, "LMT"), (7200, "CEST"), (3600, "CET"), (7200, "CEST"), (3600, "CET")]),
    ("Europe/Malta", [(3600, "CET"), (7200, "CEST"), (3600, "CET"), (7200, "CEST"), (3600, "CET")]),
    ("Europe/Mariehamn", [(5989, "HMT"), (7200, "EET"), (7200, "EET"), (10800, "EEST"), (7200, "EET")]),
    ("Europe/Minsk", [(6600, "MMT"), (10800, "MSK"), (7200, "EET"), (10800, "+03"), (10800, "+03")]),
    ("Europe/Monaco", [(561, "PMT"), (3600, "CET"), (3600, "CET"), (7200, "CEST"), (3600, "CET")]),
    ("Europe/Moscow", [(9017, "MMT"), (10800, "MSK"), (10800, "MSK"), (10800, "MSK"), (10800, "MSK")]),
    ("Europe/Nicosia", [(8008, "LMT"), (10800, "EEST"), (7200, "EET"), (10800, "EEST"), (7200, "EET")]),
    ("Europe/Oslo", [(3600, "CET"), (3600, "CET"), (3600, "CET"), (7200, "CEST"), (3600, "CET")]),
    ("Europe/Paris", [(561, "PMT"), (3600, "CET"), (3600, "CET"), (7200, "CEST"), (3600, "CET")]),
    ("Europe/Podgorica", [(3600, "CET"), (3600, "CET"), (3600, "CET"), (7200, "CEST"), (3600, "CET")]),
    ("Europe/Prague", [(3600, "CET"), (3600, "CET"), (3600, "CET"), (7200, "CEST"), (3600, "CET")]),
    ("Europe/Riga", [(5794, "RMT"), (10800, "MSK"), (7200, "EET"), (10800, "EEST"), (7200, "EET")]),
    ("Europe/Rome", [(3600, "CET"), (7200, "CEST"), (3600, "CET"), (7200, "CEST"), (3600, "CET")]),
    ("Europe/Samara", [(12020, "LMT"), (14400, "+04"), (14400, "+04"), (14400, "+04"), (14400, "+04")]),
    ("Europe/San_Marino", [(3600, "CET"), (7200, "CEST"), (3600, "CET"), (7200, "CEST"), (3600, "CET")]),
    ("Europe/Sarajevo", [(3600, "CET"), (3600, "CET"), (3600, "CET"), (7200, "CEST"), (3600, "CET")]),
    ("Europe/Saratov", [(11058, "LMT"), (14400, "+04"), (10800, "+03"), (14400, "+04"), (14400, "+04")]),
    ("Europe/Simferopol", [(8160, "SMT"), (10800, "MSK"), (7200, "EET"), (10800, "MSK"), (10800, "MSK")]),
    ("Europe/Skopje", [(3600, "CET"), (3600, "CET"), (3600, "CET"), (7200, "CEST"), (3600, "CET")]),
    ("Europe/Sofia", [(7200, "EET"), (7200, "EET"), (7200, "EET"), (10800, "EEST"), (7200, "EET")]),
    ("Europe/Stockholm", [(3600, "CET"), (3600, "CET"), (3600, "CET"), (7200, "CEST"), (3600, "CET")]),
    ("Europe/Tallinn", [(5940, "TMT"), (10800, "MSK"), (7200, "EET"), (10800, "EEST"), (7200, "EET")]),
    ("Europe/Tirane", [(4760, "LMT"), (7200, "CEST"), (3600, "CET"), (7200, "CEST"), (3600, "CET")]),
    ("Europe/Tiraspol", [(6900, "CMT"), (10800, "MSK"), (7200, "EET"), (10800, "EEST"), (7200, "EET")]),
    ("Europe/Ulyanovsk", [(11616, "LMT"), (14400, "+04"), (10800, "+03"), (14400, "+04"), (14400, "+04")]),
    ("Europe/Uzhgorod", [(7324, "KMT"), (10800, "MSK"), (7200, "EET"), (10800, "EEST"), (7200, "EET")]),
    ("Europe/Vaduz", [(3600, "CET"), (3600, "CET"), (3600, "CET"), (7200, "CEST"), (3600, "CET")]),
    ("Europe/Vatican", [(3600, "CET"), (7200, "CEST"), (3600, "CET"), (7200, "CEST"), (3600, "CET")]),
    ("Europe/Vienna", [(3600, "CET"), (3600, "CET"), (3600, "CET"), (7200, "CEST"), (3600, "CET")]),
    ("Europe/Vilnius", [(5040, "WMT"), (10800, "MSK"), (7200, "EET"), (10800, "EEST"), (7200, "EET")]),
    ("Europe/Volgograd", [(10660, "LMT"), (14400, "+04"), (10800, "MSK"), (10800, "MSK"), (10800, "MSK")]),
    ("Europe/Warsaw", [(5040, "WMT"), (3600, "CET"), (3600, "CET"), (7200, "CEST"), (3600, "CET")]),
    ("Europe/Zagreb", [(3600, "CET"), (3600, "CET"), (3600, "CET"), (7200, "CEST"), (3600, "CET")]),
    ("Europe/Zaporozhye", [(7324, "KMT"), (10800, "MSK"), (7200, "EET"), (10800, "EEST"), (7200, "EET")]),
    ("Europe/Zurich", [(3600, "CET"), (3600, "CET"), (3600, "CET"), (7200, "CEST"), (3600, "CET")]),
    ("GB", [(0, "GMT"), (3600, "BST"), (0, "GMT"), (3600, "BST"), (0, "GMT")]),
    ("GB-Eire", [(0, "GMT"), (3600, "BST"), (0, "GMT"), (3600, "BST"), (0, "GMT")]),
    ("GMT", [(0, "GMT"), (0, "GMT"), (0, "GMT"), (0, "GMT"), (0, "GMT")]),
    ("GMT+0", [(0, "GMT"), (0, "GMT"), (0, "GMT"), (0, "GMT"), (0, "GMT")]),
    ("GMT-0", [(0, "GMT"), (0, "GMT"), (0, "GMT"), (0, "GMT"), (0, "GMT")]),
    ("GMT0", [(0, "GMT"), (0, "GMT"), (0, "GMT"), (0, "GMT"), (0, "GMT")]),
    ("Greenwich", [(0, "GMT"), (0, "GMT"), (0, "GMT"), (0, "GMT"), (0, "GMT")]),
    ("HST", [(-36000, "HST"), (-36000, "HST"), (-36000, "HST"), (-36000, "HST"), (-36000, "HST")]),
    ("Hongkong", [(27402, "LMT"), (32400, "HKST"), (28800, "HKT"), (28800, "HKT"), (28800, "HKT")]),
    ("Iceland", [(-968, "LMT"), (0, "GMT"), (0, "GMT"), (0, "GMT"), (0, "GMT")]),
    ("Indian/Antananarivo", [(11404, "LMT"), (10800, "EAT"), (10800, "EAT"), (10800, "EAT"), (10800, "EAT")]),
    ("Indian/Chagos", [(17380, "LMT"), (18000, "+05"), (21600, "+06"), (21600, "+06"), (21600, "+06")]),
    ("Indian/Christmas", [(25200, "+07"), (25200, "+07"), (25200, "+07"), (25200, "+07"), (25200, "+07")]),
    ("Indian/Cocos", [(23400, "+0630"), (23400, "+0630"), (23400, "+0630"), (23400, "+0630"), (23400, "+0630")]),
    ("Indian/Comoro", [(10384, "LMT"), (10800, "EAT"), (10800, "EAT"), (10800, "EAT"), (10800, "EAT")]),
    ("Indian/Kerguelen", [(0, "-00"), (18000, "+05"), (18000, "+05"), (18000, "+05"), (18000, "+05")]),
    ("Indian/Mahe", [(13308, "LMT"), (14400, "+04"), (14400, "+04"), (14400, "+04"), (14400, "+04")]),
    ("Indian/Maldives", [(17640, "MMT"), (18000, "+05"), (18000, "+05"), (18000, "+05"), (18000, "+05")]),
    ("Indian/Mauritius", [(13800, "LMT"), (14400, "+04"), (14400, "+04"), (14400, "+04"), (14400, "+04")]),
    ("Indian/Mayotte", [(10856, "LMT"), (10800, "EAT"), (10800, "EAT"), (10800, "EAT"), (10800, "EAT")]),
    ("Indian/Reunion", [(13312, "LMT"), (14400, "+04"), (14400, "+04"), (14400, "+04"), (14400, "+04")]),
    ("Iran", [(12344, "LMT"), (12600, "+0330"), (12600, "+0330"), (16200, "+0430"), (12600, "+0330")]),
    ("Israel", [(8440, "JMT"), (10800, "IDT"), (7200, "IST"), (10800, "IDT"), (7200, "IST")]),
    ("Jamaica", [(-18430, "KMT"), (-14400, "EDT"), (-18000, "EST"), (-18000, "EST"), (-18000, "EST")]),
    ("Japan", [(32400, "JST"), (32400, "JST"), (32400, "JST"), (32400, "JST"), (32400, "JST")]),
    ("Kwajalein", [(40160, "LMT"), (-43200, "-12"), (43200, "+12"), (43200, "+12"), (43200, "+12")]),
    ("Libya", [(3164, "LMT"), (7200, "EET"), (7200, "EET"), (7200, "EET"), (7200, "EET")]),
    ("MET", [(3600, "MET"), (3600, "MET"), (3600, "MET"), (7200, "MEST"), (3600, "MET")]),
    ("MST", [(-25200, "MST"), (-25200, "MST"), (-25200, "MST"), (-25200, "MST"), (-25200, "MST")]),
    ("MST7MDT", [(-25200, "MST"), (-21600, "MDT"), (-25200, "MST"), (-21600, "MDT"), (-21600, "MDT")]),
    ("Mexico/BajaNorte", [(-28084, "LMT"), (-28800, "PST"), (-28800, "PST"), (-25200, "PDT"), (-25200, "PDT")]),
    ("Mexico/BajaSur", [(-25540, "LMT"), (-25200, "MST"), (-25200, "MST"), (-21600, "MDT"), (-25200, "MST")]),
    ("Mexico/General", [(-23796, "LMT"), (-21600, "CST"), (-21600, "CST"), (-18000, "CDT"), (-21600, "CST")]),
    ("NZ", [(41400, "NZMT"), (43200, "NZST"), (46800, "NZDT"), (43200, "NZST"), (46800, "NZDT")]),
    ("NZ-CHAT", [(44100, "+1215"), (45900, "+1245"), (49500, "+1345"), (45900, "+1245"), (49500, "+1345")]),
    ("Navajo", [(-25200, "MST"), (-21600, "MDT"), (-25200, "MST"), (-21600, "MDT"), (-21600, "MDT")]),
    ("PRC", [(29143, "LMT"), (28800, "CST"), (28800, "CST"), (28800, "CST"), (28800, "CST")]),
    ("PST8PDT", [(-28800, "PST"), (-25200, "PDT"), (-28800, "PST"), (-25200, "PDT"), (-25200, "PDT")]),
    ("Pacific/Apia", [(-41216, "LMT"), (-39600, "-11"), (-39600, "-11"), (46800, "+13"), (46800, "+13")]),
    ("Pacific/Auckland", [(41400, "NZMT"), (43200, "NZST"), (46800, "NZDT"), (43200, "NZST"), (46800, "NZDT")]),
    ("Pacific/Bougainville", [(36000, "+10"), (36000, "+10"), (36000, "+10"), (39600, "+11"), (39600, "+11")]),
    ("Pacific/Chatham", [(44100, "+1215"), (45900, "+1245"), (49500, "+1345"), (45900, "+1245"), (49500, "+1345")]),
    ("Pacific/Chuuk", [(36428, "LMT"), (36000, "+10"), (36000, "+10"), (36000, "+10"), (36000, "+10")]),
    ("Pacific/Easter", [(-26248, "EMT"), (-25200, "-07"), (-18000, "-05"), (-21600, "-06"), (-18000, "-05")]),
    ("Pacific/Efate", [(40396, "LMT"), (39600, "+11"), (39600, "+11"), (39600, "+11"), (39600, "+11")]),
    ("Pacific/Enderbury", [(0, "-00"), (-43200, "-12"), (46800, "+13"), (46800, "+13"), (46800, "+13")]),
    ("Pacific/Fakaofo", [(-41096, "LMT"), (-39600, "-11"), (-39600, "-11"), (46800, "+13"), (46800, "+13")]),
    ("Pacific/Fiji", [(42944, "LMT"), (43200, "+12"), (46800, "+13"), (43200, "+12"), (43200, "+12")]),
    ("Pacific/Funafuti", [(43012, "LMT"), (43200, "+12"), (43200, "+12"), (43200, "+12"), (43200, "+12")]),
    ("Pacific/Galapagos", [(-21504, "LMT"), (-18000, "-05"), (-21600, "-06"), (-21600, "-06"), (-21600, "-06")]),
    ("Pacific/Gambier", [(-32388, "LMT"), (-32400, "-09"), (-32400, "-09"), (-32400, "-09"), (-32400, "-09")]),
    ("Pacific/Guadalcanal", [(38388, "LMT"), (39600, "+11"), (39600, "+11"), (39600, "+11"), (39600, "+11")]),
    ("Pacific/Guam", [(34740, "LMT"), (36000, "GST"), (36000, "GST"), (36000, "ChST"), (36000, "ChST")]),
    ("Pacific/Honolulu", [(-37800, "HST"), (-36000, "HST"), (-36000, "HST"), (-36000, "HST"), (-36000, "HST")]),
    ("Pacific/Johnston", [(-37800, "HST"), (-36000, "HST"), (-36000, "HST"), (-36000, "HST"), (-36000, "HST")]),
    ("Pacific/Kanton", [(0, "-00"), (-43200, "-12"), (46800, "+13"), (46800, "+13"), (46800, "+13")]),
    ("Pacific/Kiritimati", [(-37760, "LMT"), (-38400, "-1040"), (50400, "+14"), (50400, "+14"), (50400, "+14")]),
    ("Pacific/Kosrae", [(39116, "LMT"), (43200, "+12"), (39600, "+11"), (39600, "+11"), (39600, "+11")]),
    ("Pacific/Kwajalein", [(40160, "LMT"), (-43200, "-12"), (43200, "+12"), (43200, "+12"), (43200, "+12")]),
    ("Pacific/Majuro", [(41088, "LMT"), (43200, "+12"), (43200, "+12"), (43200, "+12"), (43200, "+12")]),
    ("Pacific/Marquesas", [(-33480, "LMT"), (-34200, "-0930"), (-34200, "-0930"), (-34200, "-0930"), (-34200, "-0930")]),
    ("Pacific/Midway", [(-42568, "LMT"), (-39600, "SST"), (-39600, "SST"), (-39600, "SST"), (-39600, "SST")]),
    ("Pacific/Nauru", [(40060, "LMT"), (41400, "+1130"), (43200, "+12"), (43200, "+12"), (43200, "+12")]),
    ("Pacific/Niue", [(-40780, "LMT"), (-39600, "-11"), (-39600, "-11"), (-39600, "-11"), (-39600, "-11")]),
    ("Pacific/Norfolk", [(40312, "LMT"), (41400, "+1130"), (41400, "+1130"), (39600, "+11"), (43200, "+12")]),
    ("Pacific/Noumea", [(39948, "LMT"), (39600, "+11"), (39600, "+11"), (39600, "+11"), (39600, "+11")]),
    ("Pacific/Pago_Pago", [(-40968, "LMT"), (-39600, "SST"), (-39600, "SST"), (-39600, "SST"), (-39600, "SST")]),
    ("Pacific/Palau", [(32276, "LMT"), (32400, "+09"), (32400, "+09"), (32400, "+09"), (32400, "+09")]),
    ("Pacific/Pitcairn", [(-31220, "LMT"), (-30600, "-0830"), (-28800, "-08"), (-28800, "-08"), (-28800, "-08")]),
    ("Pacific/Pohnpei", [(37972, "LMT"), (39600, "+11"), (39600, "+11"), (39600, "+11"), (39600, "+11")]),
    ("Pacific/Ponape", [(38388, "LMT"), (39600, "+11"), (39600, "+11"), (39600, "+11"), (39600, "+11")]),
    ("Pacific/Port_Moresby", [(36000, "+10"), (36000, "+10"), (36000, "+10"), (36000, "+10"), (36000, "+10")]),
    ("Pacific/Rarotonga", [(-38344, "LMT"), (-37800, "-1030"), (-36000, "-10"), (-36000, "-10"), (-36000, "-10")]),
    ("Pacific/Saipan", [(34980, "LMT"), (36000, "GST"), (36000, "GST"), (36000, "ChST"), (36000, "ChST")]),
    ("Pacific/Samoa", [(-40968, "LMT"), (-39600, "SST"), (-39600, "SST"), (-39600, "SST"), (-39600, "SST")]),
    ("Pacific/Tahiti", [(-35896, "LMT"), (-36000, "-10"), (-36000, "-10"), (-36000, "-10"), (-36000, "-10")]),
    ("Pacific/Tarawa", [(41524, "LMT"), (43200, "+12"), (43200, "+12"), (43200, "+12"), (43200, "+12")]),
    ("Pacific/Tongatapu", [(44352, "LMT"), (46800, "+13"), (50400, "+14"), (46800, "+13"), (46800, "+13")]),
    ("Pacific/Truk", [(36000, "+10"), (36000, "+10"), (36000, "+10"), (36000, "+10"), (36000, "+10")]),
    ("Pacific/Wake", [(39988, "LMT"), (43200, "+12"), (43200, "+12"), (43200, "+12"), (43200, "+12")]),
    ("Pacific/Wallis", [(44120, "LMT"), (43200, "+12"), (43200, "+12"), (43200, "+12"), (43200, "+12")]),
    ("Pacific/Yap", [(36000, "+10"), (36000, "+10"), (36000, "+10"), (36000, "+10"), (36000, "+10")]),
    ("Poland", [(5040, "WMT"), (3600, "CET"), (3600, "CET"), (7200, "CEST"), (3600, "CET")]),
    ("Portugal", [(-2205, "LMT"), (3600, "CET"), (0, "WET"), (3600, "WEST"), (0, "WET")]),
    ("ROC", [(28800, "CST"), (32400, "CDT"), (28800, "CST"), (28800, "CST"), (28800, "CST")]),
    ("ROK", [(30472, "LMT"), (32400, "KST"), (32400, "KST"), (32400, "KST"), (32400, "KST")]),
    ("Singapore", [(24925, "LMT"), (27000, "+0730"), (28800, "+08"), (28800, "+08"), (28800, "+08")]),
    ("Turkey", [(7016, "IMT"), (10800, "EEST"), (7200, "EET"), (10800, "+03"), (10800, "+03")]),
    ("UCT", [(0, "UTC"), (0, "UTC"), (0, "UTC"), (0, "UTC"), (0, "UTC")]),
    ("US/Alaska", [(-35976, "LMT"), (-32400, "AHDT"), (-32400, "AKST"), (-28800, "AKDT"), (-28800, "AKDT")]),
    ("US/Aleutian", [(-42398, "LMT"), (-36000, "BDT"), (-36000, "HST"), (-32400, "HDT"), (-32400, "HDT")]),
    ("US/Arizona", [(-25200, "MST"), (-25200, "MST"), (-25200, "MST"), (-25200, "MST"), (-25200, "MST")]),
    ("US/Central", [(-21600, "CST"), (-18000, "CDT"), (-21600, "CST"), (-18000, "CDT"), (-18000, "CDT")]),
    ("US/East-Indiana", [(-21600, "CST"), (-18000, "EST"), (-18000, "EST"), (-14400, "EDT"), (-14400, "EDT")]),
    ("US/Eastern", [(-18000, "EST"), (-14400, "EDT"), (-18000, "EST"), (-14400, "EDT"), (-14400, "EDT")]),
    ("US/Hawaii", [(-37800, "HST"), (-36000, "HST"), (-36000, "HST"), (-36000, "HST"), (-36000, "HST")]),
    ("US/Indiana-Starke", [(-21600, "CST"), (-18000, "CDT"), (-18000, "EST"), (-18000, "CDT"), (-18000, "CDT")]),
    ("US/Michigan", [(-19931, "LMT"), (-14400, "EDT"), (-18000, "EST"), (-14400, "EDT"), (-14400, "EDT")]),
    ("US/Mountain", [(-25200, "MST"), (-21600, "MDT"), (-25200, "MST"), (-21600, "MDT"), (-21600, "MDT")]),
    ("US/Pacific", [(-28800, "PST"), (-25200, "PDT"), (-28800, "PST"), (-25200, "PDT"), (-25200, "PDT")]),
    ("US/Samoa", [(-40968, "LMT"), (-39600, "SST"), (-39600, "SST"), (-39600, "SST"), (-39600, "SST")]),
    ("UTC", [(0, "UTC"), (0, "UTC"), (0, "UTC"), (0, "UTC"), (0, "UTC")]),
    ("Universal", [(0, "UTC"), (0, "UTC"), (0, "UTC"), (0, "UTC"), (0, "UTC")]),
    ("W-SU", [(9017, "MMT"), (10800, "MSK"), (10800, "MSK"), (10800, "MSK"), (10800, "MSK")]),
    ("WET", [(0, "WET"), (0, "WET"), (0, "WET"), (3600, "WEST"), (0, "WET")]),
    ("Zulu", [(0, "UTC"), (0, "UTC"), (0, "UTC"), (0, "UTC"), (0, "UTC")]),
];

#[test]
fn every_zone_has_its_offsets() {
    assert_eq!(timezones::iter().len(), EXPECTED.len());
    for (zone, (name, expected)) in timezones::iter().iter().zip(EXPECTED.iter()) {
        assert_eq!(zone.name(), *name);
        for (instant, (seconds, abbreviation)) in INSTANTS.iter().zip(expected.iter()) {
            let at = OffsetDateTime::from_unix_timestamp(*instant).unwrap();
            let offset = zone.get_offset_utc(&at);
            assert_eq!(offset.to_utc().whole_seconds(), *seconds, "{} at {}", name, instant);
            assert_eq!(offset.name(), *abbreviation, "{} at {}", name, instant);
        }
    }
}
