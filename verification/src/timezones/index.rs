//! The list of the zones and of the vendor names, in the order of their
//! names.

use crate::interface::TimeZone;
use crate::timezone_impl::{Table, Tz};
use crate::timezones::db;
use crate::timezones::tables;
use vstd::prelude::*;

verus! {

/// Number of zones.
pub const ZONE_COUNT: usize = 597;

/// Number of vendor names.
pub const VENDOR_COUNT: usize = 137;

/// The name of zone `i`.
pub open spec fn name_at(i: int) -> Seq<char> {
    if i < 298 {
        if i < 149 {
            if i < 74 {
                if i < 37 {
                    if i < 18 {
                        if i < 9 {
                            if i < 4 {
                                if i < 2 {
                                    if i < 1 {
                                        "Africa/Abidjan"@
                                    } else {
                                        "Africa/Accra"@
                                    }
                                } else {
                                    if i < 3 {
                                        "Africa/Addis_Ababa"@
                                    } else {
                                        "Africa/Algiers"@
                                    }
                                }
                            } else {
                                if i < 6 {
                                    if i < 5 {
                                        "Africa/Asmara"@
                                    } else {
                                        "Africa/Asmera"@
                                    }
                                } else {
                                    if i < 7 {
                                        "Africa/Bamako"@
                                    } else {
                                        if i < 8 {
                                            "Africa/Bangui"@
                                        } else {
                                            "Africa/Banjul"@
                                        }
                                    }
                                }
                            }
                        } else {
                            if i < 13 {
                                if i < 11 {
                                    if i < 10 {
                                        "Africa/Bissau"@
                                    } else {
                                        "Africa/Blantyre"@
                                    }
                                } else {
                                    if i < 12 {
                                        "Africa/Brazzaville"@
                                    } else {
                                        "Africa/Bujumbura"@
                                    }
                                }
                            } else {
                                if i < 15 {
                                    if i < 14 {
                                        "Africa/Cairo"@
                                    } else {
                                        "Africa/Casablanca"@
                                    }
                                } else {
                                    if i < 16 {
                                        "Africa/Ceuta"@
                                    } else {
                                        if i < 17 {
                                            "Africa/Conakry"@
                                        } else {
                                            "Africa/Dakar"@
                                        }
                                    }
                                }
                            }
                        }
                    } else {
                        if i < 27 {
                            if i < 22 {
                                if i < 20 {
                                    if i < 19 {
                                        "Africa/Dar_es_Salaam"@
                                    } else {
                                        "Africa/Djibouti"@
                                    }
                                } else {
                                    if i < 21 {
                                        "Africa/Douala"@
                                    } else {
                                        "Africa/El_Aaiun"@
                                    }
                                }
                            } else {
                                if i < 24 {
                                    if i < 23 {
                                        "Africa/Freetown"@
                                    } else {
                                        "Africa/Gaborone"@
                                    }
                                } else {
                                    if i < 25 {
                                        "Africa/Harare"@
                                    } else {
                                        if i < 26 {
                                            "Africa/Johannesburg"@
                                        } else {
                                            "Africa/Juba"@
                                        }
                                    }
                                }
                            }
                        } else {
                            if i < 32 {
                                if i < 29 {
                                    if i < 28 {
                                        "Africa/Kampala"@
                                    } else {
                                        "Africa/Khartoum"@
                                    }
                                } else {
                                    if i < 30 {
                                        "Africa/Kigali"@
                                    } else {
                                        if i < 31 {
                                            "Africa/Kinshasa"@
                                        } else {
                                            "Africa/Lagos"@
                                        }
                                    }
                                }
                            } else {
                                if i < 34 {
                                    if i < 33 {
                                        "Africa/Libreville"@
                                    } else {
                                        "Africa/Lome"@
                                    }
                                } else {
                                    if i < 35 {
                                        "Africa/Luanda"@
                                    } else {
                                        if i < 36 {
                                            "Africa/Lubumbashi"@
                                        } else {
                                            "Africa/Lusaka"@
                                        }
                                    }
                                }
                            }
                        }
                    }
                } else {
                    if i < 55 {
                        if i < 46 {
                            if i < 41 {
                                if i < 39 {
                                    if i < 38 {
                                        "Africa/Malabo"@
                                    } else {
                                        "Africa/Maputo"@
                                    }
                                } else {
                                    if i < 40 {
                                        "Africa/Maseru"@
                                    } else {
                                        "Africa/Mbabane"@
                                    }
                                }
                            } else {
                                if i < 43 {
                                    if i < 42 {
                                        "Africa/Mogadishu"@
                                    } else {
                                        "Africa/Monrovia"@
                                    }
                                } else {
                                    if i < 44 {
                                        "Africa/Nairobi"@
                                    } else {
                                        if i < 45 {
                                            "Africa/Ndjamena"@
                                        } else {
                                            "Africa/Niamey"@
                                        }
                                    }
                                }
                            }
                        } else {
                            if i < 50 {
                                if i < 48 {
                                    if i < 47 {
                                        "Africa/Nouakchott"@
                                    } else {
                                        "Africa/Ouagadougou"@
                                    }
                                } else {
                                    if i < 49 {
                                        "Africa/Porto-Novo"@
                                    } else {
                                        "Africa/Sao_Tome"@
                                    }
                                }
                            } else {
                                if i < 52 {
                                    if i < 51 {
                                        "Africa/Timbuktu"@
                                    } else {
                                        "Africa/Tripoli"@
                                    }
                                } else {
                                    if i < 53 {
                                        "Africa/Tunis"@
                                    } else {
                                        if i < 54 {
                                            "Africa/Windhoek"@
                                        } else {
                                            "America/Adak"@
                                        }
                                    }
                                }
                            }
                        }
                    } else {
                        if i < 64 {
                            if i < 59 {
                                if i < 57 {
                                    if i < 56 {
                                        "America/Anchorage"@
                                    } else {
                                        "America/Anguilla"@
                                    }
                                } else {
                                    if i < 58 {
                                        "America/Antigua"@
                                    } else {
                                        "America/Araguaina"@
                                    }
                                }
                            } else {
                                if i < 61 {
                                    if i < 60 {
                                        "America/Argentina/Buenos_Aires"@
                                    } else {
                                        "America/Argentina/Catamarca"@
                                    }
                                } else {
                                    if i < 62 {
                                        "America/Argentina/ComodRivadavia"@
                                    } else {
                                        if i < 63 {
                                            "America/Argentina/Cordoba"@
                                        } else {
                                            "America/Argentina/Jujuy"@
                                        }
                                    }
                                }
                            }
                        } else {
                            if i < 69 {
                                if i < 66 {
                                    if i < 65 {
                                        "America/Argentina/La_Rioja"@
                                    } else {
                                        "America/Argentina/Mendoza"@
                                    }
                                } else {
                                    if i < 67 {
                                        "America/Argentina/Rio_Gallegos"@
                                    } else {
                                        if i < 68 {
                                            "America/Argentina/Salta"@
                                        } else {
                                            "America/Argentina/San_Juan"@
                                        }
                                    }
                                }
                            } else {
                                if i < 71 {
                                    if i < 70 {
                                        "America/Argentina/San_Luis"@
                                    } else {
                                        "America/Argentina/Tucuman"@
                                    }
                                } else {
                                    if i < 72 {
                                        "America/Argentina/Ushuaia"@
                                    } else {
                                        if i < 73 {
                                            "America/Aruba"@
                                        } else {
                                            "America/Asuncion"@
                                        }
                                    }
                                }
                            }
                        }
                    }
                }
            } else {
                if i < 111 {
                    if i < 92 {
                        if i < 83 {
                            if i < 78 {
                                if i < 76 {
                                    if i < 75 {
                                        "America/Atikokan"@
                                    } else {
                                        "America/Atka"@
                                    }
                                } else {
                                    if i < 77 {
                                        "America/Bahia"@
                                    } else {
                                        "America/Bahia_Banderas"@
                                    }
                                }
                            } else {
                                if i < 80 {
                                    if i < 79 {
                                        "America/Barbados"@
                                    } else {
                                        "America/Belem"@
                                    }
                                } else {
                                    if i < 81 {
                                        "America/Belize"@
                                    } else {
                                        if i < 82 {
                                            "America/Blanc-Sablon"@
                                        } else {
                                            "America/Boa_Vista"@
                                        }
                                    }
                                }
                            }
                        } else {
                            if i < 87 {
                                if i < 85 {
                                    if i < 84 {
                                        "America/Bogota"@
                                    } else {
                                        "America/Boise"@
                                    }
                                } else {
                                    if i < 86 {
                                        "America/Buenos_Aires"@
                                    } else {
                                        "America/Cambridge_Bay"@
                                    }
                                }
                            } else {
                                if i < 89 {
                                    if i < 88 {
                                        "America/Campo_Grande"@
                                    } else {
                                        "America/Cancun"@
                                    }
                                } else {
                                    if i < 90 {
                                        "America/Caracas"@
                                    } else {
                                        if i < 91 {
                                            "America/Catamarca"@
                                        } else {
                                            "America/Cayenne"@
                                        }
                                    }
                                }
                            }
                        }
                    } else {
                        if i < 101 {
                            if i < 96 {
                                if i < 94 {
                                    if i < 93 {
                                        "America/Cayman"@
                                    } else {
                                        "America/Chicago"@
                                    }
                                } else {
                                    if i < 95 {
                                        "America/Chihuahua"@
                                    } else {
                                        "America/Ciudad_Juarez"@
                                    }
                                }
                            } else {
                                if i < 98 {
                                    if i < 97 {
                                        "America/Coral_Harbour"@
                                    } else {
                                        "America/Cordoba"@
                                    }
                                } else {
                                    if i < 99 {
                                        "America/Costa_Rica"@
                                    } else {
                                        if i < 100 {
                                            "America/Coyhaique"@
                                        } else {
                                            "America/Creston"@
                                        }
                                    }
                                }
                            }
                        } else {
                            if i < 106 {
                                if i < 103 {
                                    if i < 102 {
                                        "America/Cuiaba"@
                                    } else {
                                        "America/Curacao"@
                                    }
                                } else {
                                    if i < 104 {
                                        "America/Danmarkshavn"@
                                    } else {
                                        if i < 105 {
                                            "America/Dawson"@
                                        } else {
                                            "America/Dawson_Creek"@
                                        }
                                    }
                                }
                            } else {
                                if i < 108 {
                                    if i < 107 {
                                        "America/Denver"@
                                    } else {
                                        "America/Detroit"@
                                    }
                                } else {
                                    if i < 109 {
                                        "America/Dominica"@
                                    } else {
                                        if i < 110 {
                                            "America/Edmonton"@
                                        } else {
                                            "America/Eirunepe"@
                                        }
                                    }
                                }
                            }
                        }
                    }
                } else {
                    if i < 130 {
                        if i < 120 {
                            if i < 115 {
                                if i < 113 {
                                    if i < 112 {
                                        "America/El_Salvador"@
                                    } else {
                                        "America/Ensenada"@
                                    }
                                } else {
                                    if i < 114 {
                                        "America/Fort_Nelson"@
                                    } else {
                                        "America/Fort_Wayne"@
                                    }
                                }
                            } else {
                                if i < 117 {
                                    if i < 116 {
                                        "America/Fortaleza"@
                                    } else {
                                        "America/Glace_Bay"@
                                    }
                                } else {
                                    if i < 118 {
                                        "America/Godthab"@
                                    } else {
                                        if i < 119 {
                                            "America/Goose_Bay"@
                                        } else {
                                            "America/Grand_Turk"@
                                        }
                                    }
                                }
                            }
                        } else {
                            if i < 125 {
                                if i < 122 {
                                    if i < 121 {
                                        "America/Grenada"@
                                    } else {
                                        "America/Guadeloupe"@
                                    }
                                } else {
                                    if i < 123 {
                                        "America/Guatemala"@
                                    } else {
                                        if i < 124 {
                                            "America/Guayaquil"@
                                        } else {
                                            "America/Guyana"@
                                        }
                                    }
                                }
                            } else {
                                if i < 127 {
                                    if i < 126 {
                                        "America/Halifax"@
                                    } else {
                                        "America/Havana"@
                                    }
                                } else {
                                    if i < 128 {
                                        "America/Hermosillo"@
                                    } else {
                                        if i < 129 {
                                            "America/Indiana/Indianapolis"@
                                        } else {
                                            "America/Indiana/Knox"@
                                        }
                                    }
                                }
                            }
                        }
                    } else {
                        if i < 139 {
                            if i < 134 {
                                if i < 132 {
                                    if i < 131 {
                                        "America/Indiana/Marengo"@
                                    } else {
                                        "America/Indiana/Petersburg"@
                                    }
                                } else {
                                    if i < 133 {
                                        "America/Indiana/Tell_City"@
                                    } else {
                                        "America/Indiana/Vevay"@
                                    }
                                }
                            } else {
                                if i < 136 {
                                    if i < 135 {
                                        "America/Indiana/Vincennes"@
                                    } else {
                                        "America/Indiana/Winamac"@
                                    }
                                } else {
                                    if i < 137 {
                                        "America/Indianapolis"@
                                    } else {
                                        if i < 138 {
                                            "America/Inuvik"@
                                        } else {
                                            "America/Iqaluit"@
                                        }
                                    }
                                }
                            }
                        } else {
                            if i < 144 {
                                if i < 141 {
                                    if i < 140 {
                                        "America/Jamaica"@
                                    } else {
                                        "America/Jujuy"@
                                    }
                                } else {
                                    if i < 142 {
                                        "America/Juneau"@
                                    } else {
                                        if i < 143 {
                                            "America/Kentucky/Louisville"@
                                        } else {
                                            "America/Kentucky/Monticello"@
                                        }
                                    }
                                }
                            } else {
                                if i < 146 {
                                    if i < 145 {
                                        "America/Knox_IN"@
                                    } else {
                                        "America/Kralendijk"@
                                    }
                                } else {
                                    if i < 147 {
                                        "America/La_Paz"@
                                    } else {
                                        if i < 148 {
                                            "America/Lima"@
                                        } else {
                                            "America/Los_Angeles"@
                                        }
                                    }
                                }
                            }
                        }
                    }
                }
            }
        } else {
            if i < 223 {
                if i < 186 {
                    if i < 167 {
                        if i < 158 {
                            if i < 153 {
                                if i < 151 {
                                    if i < 150 {
                                        "America/Louisville"@
                                    } else {
                                        "America/Lower_Princes"@
                                    }
                                } else {
                                    if i < 152 {
                                        "America/Maceio"@
                                    } else {
                                        "America/Managua"@
                                    }
                                }
                            } else {
                                if i < 155 {
                                    if i < 154 {
                                        "America/Manaus"@
                                    } else {
                                        "America/Marigot"@
                                    }
                                } else {
                                    if i < 156 {
                                        "America/Martinique"@
                                    } else {
                                        if i < 157 {
                                            "America/Matamoros"@
                                        } else {
                                            "America/Mazatlan"@
                                        }
                                    }
                                }
                            }
                        } else {
                            if i < 162 {
                                if i < 160 {
                                    if i < 159 {
                                        "America/Mendoza"@
                                    } else {
                                        "America/Menominee"@
                                    }
                                } else {
                                    if i < 161 {
                                        "America/Merida"@
                                    } else {
                                        "America/Metlakatla"@
                                    }
                                }
                            } else {
                                if i < 164 {
                                    if i < 163 {
                                        "America/Mexico_City"@
                                    } else {
                                        "America/Miquelon"@
                                    }
                                } else {
                                    if i < 165 {
                                        "America/Moncton"@
                                    } else {
                                        if i < 166 {
                                            "America/Monterrey"@
                                        } else {
                                            "America/Montevideo"@
                                        }
                                    }
                                }
                            }
                        }
                    } else {
                        if i < 176 {
                            if i < 171 {
                                if i < 169 {
                                    if i < 168 {
                                        "America/Montreal"@
                                    } else {
                                        "America/Montserrat"@
                                    }
                                } else {
                                    if i < 170 {
                                        "America/Nassau"@
                                    } else {
                                        "America/New_York"@
                                    }
                                }
                            } else {
                                if i < 173 {
                                    if i < 172 {
                                        "America/Nipigon"@
                                    } else {
                                        "America/Nome"@
                                    }
                                } else {
                                    if i < 174 {
                                        "America/Noronha"@
                                    } else {
                                        if i < 175 {
                                            "America/North_Dakota/Beulah"@
                                        } else {
                                            "America/North_Dakota/Center"@
                                        }
                                    }
                                }
                            }
                        } else {
                            if i < 181 {
                                if i < 178 {
                                    if i < 177 {
                                        "America/North_Dakota/New_Salem"@
                                    } else {
                                        "America/Nuuk"@
                                    }
                                } else {
                                    if i < 179 {
                                        "America/Ojinaga"@
                                    } else {
                                        if i < 180 {
                                            "America/Panama"@
                                        } else {
                                            "America/Pangnirtung"@
                                        }
                                    }
                                }
                            } else {
                                if i < 183 {
                                    if i < 182 {
                                        "America/Paramaribo"@
                                    } else {
                                        "America/Phoenix"@
                                    }
                                } else {
                                    if i < 184 {
                                        "America/Port-au-Prince"@
                                    } else {
                                        if i < 185 {
                                            "America/Port_of_Spain"@
                                        } else {
                                            "America/Porto_Acre"@
                                        }
                                    }
                                }
                            }
                        }
                    }
                } else {
                    if i < 204 {
                        if i < 195 {
                            if i < 190 {
                                if i < 188 {
                                    if i < 187 {
                                        "America/Porto_Velho"@
                                    } else {
                                        "America/Puerto_Rico"@
                                    }
                                } else {
                                    if i < 189 {
                                        "America/Punta_Arenas"@
                                    } else {
                                        "America/Rainy_River"@
                                    }
                                }
                            } else {
                                if i < 192 {
                                    if i < 191 {
                                        "America/Rankin_Inlet"@
                                    } else {
                                        "America/Recife"@
                                    }
                                } else {
                                    if i < 193 {
                                        "America/Regina"@
                                    } else {
                                        if i < 194 {
                                            "America/Resolute"@
                                        } else {
                                            "America/Rio_Branco"@
                                        }
                                    }
                                }
                            }
                        } else {
                            if i < 199 {
                                if i < 197 {
                                    if i < 196 {
                                        "America/Rosario"@
                                    } else {
                                        "America/Santa_Isabel"@
                                    }
                                } else {
                                    if i < 198 {
                                        "America/Santarem"@
                                    } else {
                                        "America/Santiago"@
                                    }
                                }
                            } else {
                                if i < 201 {
                                    if i < 200 {
                                        "America/Santo_Domingo"@
                                    } else {
                                        "America/Sao_Paulo"@
                                    }
                                } else {
                                    if i < 202 {
                                        "America/Scoresbysund"@
                                    } else {
                                        if i < 203 {
                                            "America/Shiprock"@
                                        } else {
                                            "America/Sitka"@
                                        }
                                    }
                                }
                            }
                        }
                    } else {
                        if i < 213 {
                            if i < 208 {
                                if i < 206 {
                                    if i < 205 {
                                        "America/St_Barthelemy"@
                                    } else {
                                        "America/St_Johns"@
                                    }
                                } else {
                                    if i < 207 {
                                        "America/St_Kitts"@
                                    } else {
                                        "America/St_Lucia"@
                                    }
                                }
                            } else {
                                if i < 210 {
                                    if i < 209 {
                                        "America/St_Thomas"@
                                    } else {
                                        "America/St_Vincent"@
                                    }
                                } else {
                                    if i < 211 {
                                        "America/Swift_Current"@
                                    } else {
                                        if i < 212 {
                                            "America/Tegucigalpa"@
                                        } else {
                                            "America/Thule"@
                                        }
                                    }
                                }
                            }
                        } else {
                            if i < 218 {
                                if i < 215 {
                                    if i < 214 {
                                        "America/Thunder_Bay"@
                                    } else {
                                        "America/Tijuana"@
                                    }
                                } else {
                                    if i < 216 {
                                        "America/Toronto"@
                                    } else {
                                        if i < 217 {
                                            "America/Tortola"@
                                        } else {
                                            "America/Vancouver"@
                                        }
                                    }
                                }
                            } else {
                                if i < 220 {
                                    if i < 219 {
                                        "America/Virgin"@
                                    } else {
                                        "America/Whitehorse"@
                                    }
                                } else {
                                    if i < 221 {
                                        "America/Winnipeg"@
                                    } else {
                                        if i < 222 {
                                            "America/Yakutat"@
                                        } else {
                                            "America/Yellowknife"@
                                        }
                                    }
                                }
                            }
                        }
                    }
                }
            } else {
                if i < 260 {
                    if i < 241 {
                        if i < 232 {
                            if i < 227 {
                                if i < 225 {
                                    if i < 224 {
                                        "Antarctica/Casey"@
                                    } else {
                                        "Antarctica/Davis"@
                                    }
                                } else {
                                    if i < 226 {
                                        "Antarctica/DumontDUrville"@
                                    } else {
                                        "Antarctica/Macquarie"@
                                    }
                                }
                            } else {
                                if i < 229 {
                                    if i < 228 {
                                        "Antarctica/Mawson"@
                                    } else {
                                        "Antarctica/McMurdo"@
                                    }
                                } else {
                                    if i < 230 {
                                        "Antarctica/Palmer"@
                                    } else {
                                        if i < 231 {
                                            "Antarctica/Rothera"@
                                        } else {
                                            "Antarctica/South_Pole"@
                                        }
                                    }
                                }
                            }
                        } else {
                            if i < 236 {
                                if i < 234 {
                                    if i < 233 {
                                        "Antarctica/Syowa"@
                                    } else {
                                        "Antarctica/Troll"@
                                    }
                                } else {
                                    if i < 235 {
                                        "Antarctica/Vostok"@
                                    } else {
                                        "Arctic/Longyearbyen"@
                                    }
                                }
                            } else {
                                if i < 238 {
                                    if i < 237 {
                                        "Asia/Aden"@
                                    } else {
                                        "Asia/Almaty"@
                                    }
                                } else {
                                    if i < 239 {
                                        "Asia/Amman"@
                                    } else {
                                        if i < 240 {
                                            "Asia/Anadyr"@
                                        } else {
                                            "Asia/Aqtau"@
                                        }
                                    }
                                }
                            }
                        }
                    } else {
                        if i < 250 {
                            if i < 245 {
                                if i < 243 {
                                    if i < 242 {
                                        "Asia/Aqtobe"@
                                    } else {
                                        "Asia/Ashgabat"@
                                    }
                                } else {
                                    if i < 244 {
                                        "Asia/Ashkhabad"@
                                    } else {
                                        "Asia/Atyrau"@
                                    }
                                }
                            } else {
                                if i < 247 {
                                    if i < 246 {
                                        "Asia/Baghdad"@
                                    } else {
                                        "Asia/Bahrain"@
                                    }
                                } else {
                                    if i < 248 {
                                        "Asia/Baku"@
                                    } else {
                                        if i < 249 {
                                            "Asia/Bangkok"@
                                        } else {
                                            "Asia/Barnaul"@
                                        }
                                    }
                                }
                            }
                        } else {
                            if i < 255 {
                                if i < 252 {
                                    if i < 251 {
                                        "Asia/Beirut"@
                                    } else {
                                        "Asia/Bishkek"@
                                    }
                                } else {
                                    if i < 253 {
                                        "Asia/Brunei"@
                                    } else {
                                        if i < 254 {
                                            "Asia/Calcutta"@
                                        } else {
                                            "Asia/Chita"@
                                        }
                                    }
                                }
                            } else {
                                if i < 257 {
                                    if i < 256 {
                                        "Asia/Choibalsan"@
                                    } else {
                                        "Asia/Chongqing"@
                                    }
                                } else {
                                    if i < 258 {
                                        "Asia/Chungking"@
                                    } else {
                                        if i < 259 {
                                            "Asia/Colombo"@
                                        } else {
                                            "Asia/Dacca"@
                                        }
                                    }
                                }
                            }
                        }
                    }
                } else {
                    if i < 279 {
                        if i < 269 {
                            if i < 264 {
                                if i < 262 {
                                    if i < 261 {
                                        "Asia/Damascus"@
                                    } else {
                                        "Asia/Dhaka"@
                                    }
                                } else {
                                    if i < 263 {
                                        "Asia/Dili"@
                                    } else {
                                        "Asia/Dubai"@
                                    }
                                }
                            } else {
                                if i < 266 {
                                    if i < 265 {
                                        "Asia/Dushanbe"@
                                    } else {
                                        "Asia/Famagusta"@
                                    }
                                } else {
                                    if i < 267 {
                                        "Asia/Gaza"@
                                    } else {
                                        if i < 268 {
                                            "Asia/Harbin"@
                                        } else {
                                            "Asia/Hebron"@
                                        }
                                    }
                                }
                            }
                        } else {
                            if i < 274 {
                                if i < 271 {
                                    if i < 270 {
                                        "Asia/Ho_Chi_Minh"@
                                    } else {
                                        "Asia/Hong_Kong"@
                                    }
                                } else {
                                    if i < 272 {
                                        "Asia/Hovd"@
                                    } else {
                                        if i < 273 {
                                            "Asia/Irkutsk"@
                                        } else {
                                            "Asia/Istanbul"@
                                        }
                                    }
                                }
                            } else {
                                if i < 276 {
                                    if i < 275 {
                                        "Asia/Jakarta"@
                                    } else {
                                        "Asia/Jayapura"@
                                    }
                                } else {
                                    if i < 277 {
                                        "Asia/Jerusalem"@
                                    } else {
                                        if i < 278 {
                                            "Asia/Kabul"@
                                        } else {
                                            "Asia/Kamchatka"@
                                        }
                                    }
                                }
                            }
                        }
                    } else {
                        if i < 288 {
                            if i < 283 {
                                if i < 281 {
                                    if i < 280 {
                                        "Asia/Karachi"@
                                    } else {
                                        "Asia/Kashgar"@
                                    }
                                } else {
                                    if i < 282 {
                                        "Asia/Kathmandu"@
                                    } else {
                                        "Asia/Katmandu"@
                                    }
                                }
                            } else {
                                if i < 285 {
                                    if i < 284 {
                                        "Asia/Khandyga"@
                                    } else {
                                        "Asia/Kolkata"@
                                    }
                                } else {
                                    if i < 286 {
                                        "Asia/Krasnoyarsk"@
                                    } else {
                                        if i < 287 {
                                            "Asia/Kuala_Lumpur"@
                                        } else {
                                            "Asia/Kuching"@
                                        }
                                    }
                                }
                            }
                        } else {
                            if i < 293 {
                                if i < 290 {
                                    if i < 289 {
                                        "Asia/Kuwait"@
                                    } else {
                                        "Asia/Macao"@
                                    }
                                } else {
                                    if i < 291 {
                                        "Asia/Macau"@
                                    } else {
                                        if i < 292 {
                                            "Asia/Magadan"@
                                        } else {
                                            "Asia/Makassar"@
                                        }
                                    }
                                }
                            } else {
                                if i < 295 {
                                    if i < 294 {
                                        "Asia/Manila"@
                                    } else {
                                        "Asia/Muscat"@
                                    }
                                } else {
                                    if i < 296 {
                                        "Asia/Nicosia"@
                                    } else {
                                        if i < 297 {
                                            "Asia/Novokuznetsk"@
                                        } else {
                                            "Asia/Novosibirsk"@
                                        }
                                    }
                                }
                            }
                        }
                    }
                }
            }
        }
    } else {
        if i < 447 {
            if i < 372 {
                if i < 335 {
                    if i < 316 {
                        if i < 307 {
                            if i < 302 {
                                if i < 300 {
                                    if i < 299 {
                                        "Asia/Omsk"@
                                    } else {
                                        "Asia/Oral"@
                                    }
                                } else {
                                    if i < 301 {
                                        "Asia/Phnom_Penh"@
                                    } else {
                                        "Asia/Pontianak"@
                                    }
                                }
                            } else {
                                if i < 304 {
                                    if i < 303 {
                                        "Asia/Pyongyang"@
                                    } else {
                                        "Asia/Qatar"@
                                    }
                                } else {
                                    if i < 305 {
                                        "Asia/Qostanay"@
                                    } else {
                                        if i < 306 {
                                            "Asia/Qyzylorda"@
                                        } else {
                                            "Asia/Rangoon"@
                                        }
                                    }
                                }
                            }
                        } else {
                            if i < 311 {
                                if i < 309 {
                                    if i < 308 {
                                        "Asia/Riyadh"@
                                    } else {
                                        "Asia/Saigon"@
                                    }
                                } else {
                                    if i < 310 {
                                        "Asia/Sakhalin"@
                                    } else {
                                        "Asia/Samarkand"@
                                    }
                                }
                            } else {
                                if i < 313 {
                                    if i < 312 {
                                        "Asia/Seoul"@
                                    } else {
                                        "Asia/Shanghai"@
                                    }
                                } else {
                                    if i < 314 {
                                        "Asia/Singapore"@
                                    } else {
                                        if i < 315 {
                                            "Asia/Srednekolymsk"@
                                        } else {
                                            "Asia/Taipei"@
                                        }
                                    }
                                }
                            }
                        }
                    } else {
                        if i < 325 {
                            if i < 320 {
                                if i < 318 {
                                    if i < 317 {
                                        "Asia/Tashkent"@
                                    } else {
                                        "Asia/Tbilisi"@
                                    }
                                } else {
                                    if i < 319 {
                                        "Asia/Tehran"@
                                    } else {
                                        "Asia/Tel_Aviv"@
                                    }
                                }
                            } else {
                                if i < 322 {
                                    if i < 321 {
                                        "Asia/Thimbu"@
                                    } else {
                                        "Asia/Thimphu"@
                                    }
                                } else {
                                    if i < 323 {
                                        "Asia/Tokyo"@
                                    } else {
                                        if i < 324 {
                                            "Asia/Tomsk"@
                                        } else {
                                            "Asia/Ujung_Pandang"@
                                        }
                                    }
                                }
                            }
                        } else {
                            if i < 330 {
                                if i < 327 {
                                    if i < 326 {
                                        "Asia/Ulaanbaatar"@
                                    } else {
                                        "Asia/Ulan_Bator"@
                                    }
                                } else {
                                    if i < 328 {
                                        "Asia/Urumqi"@
                                    } else {
                                        if i < 329 {
                                            "Asia/Ust-Nera"@
                                        } else {
                                            "Asia/Vientiane"@
                                        }
                                    }
                                }
                            } else {
                                if i < 332 {
                                    if i < 331 {
                                        "Asia/Vladivostok"@
                                    } else {
                                        "Asia/Yakutsk"@
                                    }
                                } else {
                                    if i < 333 {
                                        "Asia/Yangon"@
                                    } else {
                                        if i < 334 {
                                            "Asia/Yekaterinburg"@
                                        } else {
                                            "Asia/Yerevan"@
                                        }
                                    }
                                }
                            }
                        }
                    }
                } else {
                    if i < 353 {
                        if i < 344 {
                            if i < 339 {
                                if i < 337 {
                                    if i < 336 {
                                        "Atlantic/Azores"@
                                    } else {
                                        "Atlantic/Bermuda"@
                                    }
                                } else {
                                    if i < 338 {
                                        "Atlantic/Canary"@
                                    } else {
                                        "Atlantic/Cape_Verde"@
                                    }
                                }
                            } else {
                                if i < 341 {
                                    if i < 340 {
                                        "Atlantic/Faeroe"@
                                    } else {
                                        "Atlantic/Faroe"@
                                    }
                                } else {
                                    if i < 342 {
                                        "Atlantic/Jan_Mayen"@
                                    } else {
                                        if i < 343 {
                                            "Atlantic/Madeira"@
                                        } else {
                                            "Atlantic/Reykjavik"@
                                        }
                                    }
                                }
                            }
                        } else {
                            if i < 348 {
                                if i < 346 {
                                    if i < 345 {
                                        "Atlantic/South_Georgia"@
                                    } else {
                                        "Atlantic/St_Helena"@
                                    }
                                } else {
                                    if i < 347 {
                                        "Atlantic/Stanley"@
                                    } else {
                                        "Australia/ACT"@
                                    }
                                }
                            } else {
                                if i < 350 {
                                    if i < 349 {
                                        "Australia/Adelaide"@
                                    } else {
                                        "Australia/Brisbane"@
                                    }
                                } else {
                                    if i < 351 {
                                        "Australia/Broken_Hill"@
                                    } else {
                                        if i < 352 {
                                            "Australia/Canberra"@
                                        } else {
                                            "Australia/Currie"@
                                        }
                                    }
                                }
                            }
                        }
                    } else {
                        if i < 362 {
                            if i < 357 {
                                if i < 355 {
                                    if i < 354 {
                                        "Australia/Darwin"@
                                    } else {
                                        "Australia/Eucla"@
                                    }
                                } else {
                                    if i < 356 {
                                        "Australia/Hobart"@
                                    } else {
                                        "Australia/LHI"@
                                    }
                                }
                            } else {
                                if i < 359 {
                                    if i < 358 {
                                        "Australia/Lindeman"@
                                    } else {
                                        "Australia/Lord_Howe"@
                                    }
                                } else {
                                    if i < 360 {
                                        "Australia/Melbourne"@
                                    } else {
                                        if i < 361 {
                                            "Australia/NSW"@
                                        } else {
                                            "Australia/North"@
                                        }
                                    }
                                }
                            }
                        } else {
                            if i < 367 {
                                if i < 364 {
                                    if i < 363 {
                                        "Australia/Perth"@
                                    } else {
                                        "Australia/Queensland"@
                                    }
                                } else {
                                    if i < 365 {
                                        "Australia/South"@
                                    } else {
                                        if i < 366 {
                                            "Australia/Sydney"@
                                        } else {
                                            "Australia/Tasmania"@
                                        }
                                    }
                                }
                            } else {
                                if i < 369 {
                                    if i < 368 {
                                        "Australia/Victoria"@
                                    } else {
                                        "Australia/West"@
                                    }
                                } else {
                                    if i < 370 {
                                        "Australia/Yancowinna"@
                                    } else {
                                        if i < 371 {
                                            "Brazil/Acre"@
                                        } else {
                                            "Brazil/DeNoronha"@
                                        }
                                    }
                                }
                            }
                        }
                    }
                }
            } else {
                if i < 409 {
                    if i < 390 {
                        if i < 381 {
                            if i < 376 {
                                if i < 374 {
                                    if i < 373 {
                                        "Brazil/East"@
                                    } else {
                                        "Brazil/West"@
                                    }
                                } else {
                                    if i < 375 {
                                        "CET"@
                                    } else {
                                        "CST6CDT"@
                                    }
                                }
                            } else {
                                if i < 378 {
                                    if i < 377 {
                                        "Canada/Atlantic"@
                                    } else {
                                        "Canada/Central"@
                                    }
                                } else {
                                    if i < 379 {
                                        "Canada/Eastern"@
                                    } else {
                                        if i < 380 {
                                            "Canada/Mountain"@
                                        } else {
                                            "Canada/Newfoundland"@
                                        }
                                    }
                                }
                            }
                        } else {
                            if i < 385 {
                                if i < 383 {
                                    if i < 382 {
                                        "Canada/Pacific"@
                                    } else {
                                        "Canada/Saskatchewan"@
                                    }
                                } else {
                                    if i < 384 {
                                        "Canada/Yukon"@
                                    } else {
                                        "Chile/Continental"@
                                    }
                                }
                            } else {
                                if i < 387 {
                                    if i < 386 {
                                        "Chile/EasterIsland"@
                                    } else {
                                        "Cuba"@
                                    }
                                } else {
                                    if i < 388 {
                                        "EET"@
                                    } else {
                                        if i < 389 {
                                            "EST"@
                                        } else {
                                            "EST5EDT"@
                                        }
                                    }
                                }
                            }
                        }
                    } else {
                        if i < 399 {
                            if i < 394 {
                                if i < 392 {
                                    if i < 391 {
                                        "Egypt"@
                                    } else {
                                        "Eire"@
                                    }
                                } else {
                                    if i < 393 {
                                        "Etc/GMT"@
                                    } else {
                                        "Etc/GMT+0"@
                                    }
                                }
                            } else {
                                if i < 396 {
                                    if i < 395 {
                                        "Etc/GMT+1"@
                                    } else {
                                        "Etc/GMT+10"@
                                    }
                                } else {
                                    if i < 397 {
                                        "Etc/GMT+11"@
                                    } else {
                                        if i < 398 {
                                            "Etc/GMT+12"@
                                        } else {
                                            "Etc/GMT+2"@
                                        }
                                    }
                                }
                            }
                        } else {
                            if i < 404 {
                                if i < 401 {
                                    if i < 400 {
                                        "Etc/GMT+3"@
                                    } else {
                                        "Etc/GMT+4"@
                                    }
                                } else {
                                    if i < 402 {
                                        "Etc/GMT+5"@
                                    } else {
                                        if i < 403 {
                                            "Etc/GMT+6"@
                                        } else {
                                            "Etc/GMT+7"@
                                        }
                                    }
                                }
                            } else {
                                if i < 406 {
                                    if i < 405 {
                                        "Etc/GMT+8"@
                                    } else {
                                        "Etc/GMT+9"@
                                    }
                                } else {
                                    if i < 407 {
                                        "Etc/GMT-0"@
                                    } else {
                                        if i < 408 {
                                            "Etc/GMT-1"@
                                        } else {
                                            "Etc/GMT-10"@
                                        }
                                    }
                                }
                            }
                        }
                    }
                } else {
                    if i < 428 {
                        if i < 418 {
                            if i < 413 {
                                if i < 411 {
                                    if i < 410 {
                                        "Etc/GMT-11"@
                                    } else {
                                        "Etc/GMT-12"@
                                    }
                                } else {
                                    if i < 412 {
                                        "Etc/GMT-13"@
                                    } else {
                                        "Etc/GMT-14"@
                                    }
                                }
                            } else {
                                if i < 415 {
                                    if i < 414 {
                                        "Etc/GMT-2"@
                                    } else {
                                        "Etc/GMT-3"@
                                    }
                                } else {
                                    if i < 416 {
                                        "Etc/GMT-4"@
                                    } else {
                                        if i < 417 {
                                            "Etc/GMT-5"@
                                        } else {
                                            "Etc/GMT-6"@
                                        }
                                    }
                                }
                            }
                        } else {
                            if i < 423 {
                                if i < 420 {
                                    if i < 419 {
                                        "Etc/GMT-7"@
                                    } else {
                                        "Etc/GMT-8"@
                                    }
                                } else {
                                    if i < 421 {
                                        "Etc/GMT-9"@
                                    } else {
                                        if i < 422 {
                                            "Etc/GMT0"@
                                        } else {
                                            "Etc/Greenwich"@
                                        }
                                    }
                                }
                            } else {
                                if i < 425 {
                                    if i < 424 {
                                        "Etc/UCT"@
                                    } else {
                                        "Etc/UTC"@
                                    }
                                } else {
                                    if i < 426 {
                                        "Etc/Universal"@
                                    } else {
                                        if i < 427 {
                                            "Etc/Zulu"@
                                        } else {
                                            "Europe/Amsterdam"@
                                        }
                                    }
                                }
                            }
                        }
                    } else {
                        if i < 437 {
                            if i < 432 {
                                if i < 430 {
                                    if i < 429 {
                                        "Europe/Andorra"@
                                    } else {
                                        "Europe/Astrakhan"@
                                    }
                                } else {
                                    if i < 431 {
                                        "Europe/Athens"@
                                    } else {
                                        "Europe/Belfast"@
                                    }
                                }
                            } else {
                                if i < 434 {
                                    if i < 433 {
                                        "Europe/Belgrade"@
                                    } else {
                                        "Europe/Berlin"@
                                    }
                                } else {
                                    if i < 435 {
                                        "Europe/Bratislava"@
                                    } else {
                                        if i < 436 {
                                            "Europe/Brussels"@
                                        } else {
                                            "Europe/Bucharest"@
                                        }
                                    }
                                }
                            }
                        } else {
                            if i < 442 {
                                if i < 439 {
                                    if i < 438 {
                                        "Europe/Budapest"@
                                    } else {
                                        "Europe/Busingen"@
                                    }
                                } else {
                                    if i < 440 {
                                        "Europe/Chisinau"@
                                    } else {
                                        if i < 441 {
                                            "Europe/Copenhagen"@
                                        } else {
                                            "Europe/Dublin"@
                                        }
                                    }
                                }
                            } else {
                                if i < 444 {
                                    if i < 443 {
                                        "Europe/Gibraltar"@
                                    } else {
                                        "Europe/Guernsey"@
                                    }
                                } else {
                                    if i < 445 {
                                        "Europe/Helsinki"@
                                    } else {
                                        if i < 446 {
                                            "Europe/Isle_of_Man"@
                                        } else {
                                            "Europe/Istanbul"@
                                        }
                                    }
                                }
                            }
                        }
                    }
                }
            }
        } else {
            if i < 522 {
                if i < 484 {
                    if i < 465 {
                        if i < 456 {
                            if i < 451 {
                                if i < 449 {
                                    if i < 448 {
                                        "Europe/Jersey"@
                                    } else {
                                        "Europe/Kaliningrad"@
                                    }
                                } else {
                                    if i < 450 {
                                        "Europe/Kiev"@
                                    } else {
                                        "Europe/Kirov"@
                                    }
                                }
                            } else {
                                if i < 453 {
                                    if i < 452 {
                                        "Europe/Kyiv"@
                                    } else {
                                        "Europe/Lisbon"@
                                    }
                                } else {
                                    if i < 454 {
                                        "Europe/Ljubljana"@
                                    } else {
                                        if i < 455 {
                                            "Europe/London"@
                                        } else {
                                            "Europe/Luxembourg"@
                                        }
                                    }
                                }
                            }
                        } else {
                            if i < 460 {
                                if i < 458 {
                                    if i < 457 {
                                        "Europe/Madrid"@
                                    } else {
                                        "Europe/Malta"@
                                    }
                                } else {
                                    if i < 459 {
                                        "Europe/Mariehamn"@
                                    } else {
                                        "Europe/Minsk"@
                                    }
                                }
                            } else {
                                if i < 462 {
                                    if i < 461 {
                                        "Europe/Monaco"@
                                    } else {
                                        "Europe/Moscow"@
                                    }
                                } else {
                                    if i < 463 {
                                        "Europe/Nicosia"@
                                    } else {
                                        if i < 464 {
                                            "Europe/Oslo"@
                                        } else {
                                            "Europe/Paris"@
                                        }
                                    }
                                }
                            }
                        }
                    } else {
                        if i < 474 {
                            if i < 469 {
                                if i < 467 {
                                    if i < 466 {
                                        "Europe/Podgorica"@
                                    } else {
                                        "Europe/Prague"@
                                    }
                                } else {
                                    if i < 468 {
                                        "Europe/Riga"@
                                    } else {
                                        "Europe/Rome"@
                                    }
                                }
                            } else {
                                if i < 471 {
                                    if i < 470 {
                                        "Europe/Samara"@
                                    } else {
                                        "Europe/San_Marino"@
                                    }
                                } else {
                                    if i < 472 {
                                        "Europe/Sarajevo"@
                                    } else {
                                        if i < 473 {
                                            "Europe/Saratov"@
                                        } else {
                                            "Europe/Simferopol"@
                                        }
                                    }
                                }
                            }
                        } else {
                            if i < 479 {
                                if i < 476 {
                                    if i < 475 {
                                        "Europe/Skopje"@
                                    } else {
                                        "Europe/Sofia"@
                                    }
                                } else {
                                    if i < 477 {
                                        "Europe/Stockholm"@
                                    } else {
                                        if i < 478 {
                                            "Europe/Tallinn"@
                                        } else {
                                            "Europe/Tirane"@
                                        }
                                    }
                                }
                            } else {
                                if i < 481 {
                                    if i < 480 {
                                        "Europe/Tiraspol"@
                                    } else {
                                        "Europe/Ulyanovsk"@
                                    }
                                } else {
                                    if i < 482 {
                                        "Europe/Uzhgorod"@
                                    } else {
                                        if i < 483 {
                                            "Europe/Vaduz"@
                                        } else {
                                            "Europe/Vatican"@
                                        }
                                    }
                                }
                            }
                        }
                    }
                } else {
                    if i < 503 {
                        if i < 493 {
                            if i < 488 {
                                if i < 486 {
                                    if i < 485 {
                                        "Europe/Vienna"@
                                    } else {
                                        "Europe/Vilnius"@
                                    }
                                } else {
                                    if i < 487 {
                                        "Europe/Volgograd"@
                                    } else {
                                        "Europe/Warsaw"@
                                    }
                                }
                            } else {
                                if i < 490 {
                                    if i < 489 {
                                        "Europe/Zagreb"@
                                    } else {
                                        "Europe/Zaporozhye"@
                                    }
                                } else {
                                    if i < 491 {
                                        "Europe/Zurich"@
                                    } else {
                                        if i < 492 {
                                            "GB"@
                                        } else {
                                            "GB-Eire"@
                                        }
                                    }
                                }
                            }
                        } else {
                            if i < 498 {
                                if i < 495 {
                                    if i < 494 {
                                        "GMT"@
                                    } else {
                                        "GMT+0"@
                                    }
                                } else {
                                    if i < 496 {
                                        "GMT-0"@
                                    } else {
                                        if i < 497 {
                                            "GMT0"@
                                        } else {
                                            "Greenwich"@
                                        }
                                    }
                                }
                            } else {
                                if i < 500 {
                                    if i < 499 {
                                        "HST"@
                                    } else {
                                        "Hongkong"@
                                    }
                                } else {
                                    if i < 501 {
                                        "Iceland"@
                                    } else {
                                        if i < 502 {
                                            "Indian/Antananarivo"@
                                        } else {
                                            "Indian/Chagos"@
                                        }
                                    }
                                }
                            }
                        }
                    } else {
                        if i < 512 {
                            if i < 507 {
                                if i < 505 {
                                    if i < 504 {
                                        "Indian/Christmas"@
                                    } else {
                                        "Indian/Cocos"@
                                    }
                                } else {
                                    if i < 506 {
                                        "Indian/Comoro"@
                                    } else {
                                        "Indian/Kerguelen"@
                                    }
                                }
                            } else {
                                if i < 509 {
                                    if i < 508 {
                                        "Indian/Mahe"@
                                    } else {
                                        "Indian/Maldives"@
                                    }
                                } else {
                                    if i < 510 {
                                        "Indian/Mauritius"@
                                    } else {
                                        if i < 511 {
                                            "Indian/Mayotte"@
                                        } else {
                                            "Indian/Reunion"@
                                        }
                                    }
                                }
                            }
                        } else {
                            if i < 517 {
                                if i < 514 {
                                    if i < 513 {
                                        "Iran"@
                                    } else {
                                        "Israel"@
                                    }
                                } else {
                                    if i < 515 {
                                        "Jamaica"@
                                    } else {
                                        if i < 516 {
                                            "Japan"@
                                        } else {
                                            "Kwajalein"@
                                        }
                                    }
                                }
                            } else {
                                if i < 519 {
                                    if i < 518 {
                                        "Libya"@
                                    } else {
                                        "MET"@
                                    }
                                } else {
                                    if i < 520 {
                                        "MST"@
                                    } else {
                                        if i < 521 {
                                            "MST7MDT"@
                                        } else {
                                            "Mexico/BajaNorte"@
                                        }
                                    }
                                }
                            }
                        }
                    }
                }
            } else {
                if i < 559 {
                    if i < 540 {
                        if i < 531 {
                            if i < 526 {
                                if i < 524 {
                                    if i < 523 {
                                        "Mexico/BajaSur"@
                                    } else {
                                        "Mexico/General"@
                                    }
                                } else {
                                    if i < 525 {
                                        "NZ"@
                                    } else {
                                        "NZ-CHAT"@
                                    }
                                }
                            } else {
                                if i < 528 {
                                    if i < 527 {
                                        "Navajo"@
                                    } else {
                                        "PRC"@
                                    }
                                } else {
                                    if i < 529 {
                                        "PST8PDT"@
                                    } else {
                                        if i < 530 {
                                            "Pacific/Apia"@
                                        } else {
                                            "Pacific/Auckland"@
                                        }
                                    }
                                }
                            }
                        } else {
                            if i < 535 {
                                if i < 533 {
                                    if i < 532 {
                                        "Pacific/Bougainville"@
                                    } else {
                                        "Pacific/Chatham"@
                                    }
                                } else {
                                    if i < 534 {
                                        "Pacific/Chuuk"@
                                    } else {
                                        "Pacific/Easter"@
                                    }
                                }
                            } else {
                                if i < 537 {
                                    if i < 536 {
                                        "Pacific/Efate"@
                                    } else {
                                        "Pacific/Enderbury"@
                                    }
                                } else {
                                    if i < 538 {
                                        "Pacific/Fakaofo"@
                                    } else {
                                        if i < 539 {
                                            "Pacific/Fiji"@
                                        } else {
                                            "Pacific/Funafuti"@
                                        }
                                    }
                                }
                            }
                        }
                    } else {
                        if i < 549 {
                            if i < 544 {
                                if i < 542 {
                                    if i < 541 {
                                        "Pacific/Galapagos"@
                                    } else {
                                        "Pacific/Gambier"@
                                    }
                                } else {
                                    if i < 543 {
                                        "Pacific/Guadalcanal"@
                                    } else {
                                        "Pacific/Guam"@
                                    }
                                }
                            } else {
                                if i < 546 {
                                    if i < 545 {
                                        "Pacific/Honolulu"@
                                    } else {
                                        "Pacific/Johnston"@
                                    }
                                } else {
                                    if i < 547 {
                                        "Pacific/Kanton"@
                                    } else {
                                        if i < 548 {
                                            "Pacific/Kiritimati"@
                                        } else {
                                            "Pacific/Kosrae"@
                                        }
                                    }
                                }
                            }
                        } else {
                            if i < 554 {
                                if i < 551 {
                                    if i < 550 {
                                        "Pacific/Kwajalein"@
                                    } else {
                                        "Pacific/Majuro"@
                                    }
                                } else {
                                    if i < 552 {
                                        "Pacific/Marquesas"@
                                    } else {
                                        if i < 553 {
                                            "Pacific/Midway"@
                                        } else {
                                            "Pacific/Nauru"@
                                        }
                                    }
                                }
                            } else {
                                if i < 556 {
                                    if i < 555 {
                                        "Pacific/Niue"@
                                    } else {
                                        "Pacific/Norfolk"@
                                    }
                                } else {
                                    if i < 557 {
                                        "Pacific/Noumea"@
                                    } else {
                                        if i < 558 {
                                            "Pacific/Pago_Pago"@
                                        } else {
                                            "Pacific/Palau"@
                                        }
                                    }
                                }
                            }
                        }
                    }
                } else {
                    if i < 578 {
                        if i < 568 {
                            if i < 563 {
                                if i < 561 {
                                    if i < 560 {
                                        "Pacific/Pitcairn"@
                                    } else {
                                        "Pacific/Pohnpei"@
                                    }
                                } else {
                                    if i < 562 {
                                        "Pacific/Ponape"@
                                    } else {
                                        "Pacific/Port_Moresby"@
                                    }
                                }
                            } else {
                                if i < 565 {
                                    if i < 564 {
                                        "Pacific/Rarotonga"@
                                    } else {
                                        "Pacific/Saipan"@
                                    }
                                } else {
                                    if i < 566 {
                                        "Pacific/Samoa"@
                                    } else {
                                        if i < 567 {
                                            "Pacific/Tahiti"@
                                        } else {
                                            "Pacific/Tarawa"@
                                        }
                                    }
                                }
                            }
                        } else {
                            if i < 573 {
                                if i < 570 {
                                    if i < 569 {
                                        "Pacific/Tongatapu"@
                                    } else {
                                        "Pacific/Truk"@
                                    }
                                } else {
                                    if i < 571 {
                                        "Pacific/Wake"@
                                    } else {
                                        if i < 572 {
                                            "Pacific/Wallis"@
                                        } else {
                                            "Pacific/Yap"@
                                        }
                                    }
                                }
                            } else {
                                if i < 575 {
                                    if i < 574 {
                                        "Poland"@
                                    } else {
                                        "Portugal"@
                                    }
                                } else {
                                    if i < 576 {
                                        "ROC"@
                                    } else {
                                        if i < 577 {
                                            "ROK"@
                                        } else {
                                            "Singapore"@
                                        }
                                    }
                                }
                            }
                        }
                    } else {
                        if i < 587 {
                            if i < 582 {
                                if i < 580 {
                                    if i < 579 {
                                        "Turkey"@
                                    } else {
                                        "UCT"@
                                    }
                                } else {
                                    if i < 581 {
                                        "US/Alaska"@
                                    } else {
                                        "US/Aleutian"@
                                    }
                                }
                            } else {
                                if i < 584 {
                                    if i < 583 {
                                        "US/Arizona"@
                                    } else {
                                        "US/Central"@
                                    }
                                } else {
                                    if i < 585 {
                                        "US/East-Indiana"@
                                    } else {
                                        if i < 586 {
                                            "US/Eastern"@
                                        } else {
                                            "US/Hawaii"@
                                        }
                                    }
                                }
                            }
                        } else {
                            if i < 592 {
                                if i < 589 {
                                    if i < 588 {
                                        "US/Indiana-Starke"@
                                    } else {
                                        "US/Michigan"@
                                    }
                                } else {
                                    if i < 590 {
                                        "US/Mountain"@
                                    } else {
                                        if i < 591 {
                                            "US/Pacific"@
                                        } else {
                                            "US/Samoa"@
                                        }
                                    }
                                }
                            } else {
                                if i < 594 {
                                    if i < 593 {
                                        "UTC"@
                                    } else {
                                        "Universal"@
                                    }
                                } else {
                                    if i < 595 {
                                        "W-SU"@
                                    } else {
                                        if i < 596 {
                                            "WET"@
                                        } else {
                                            "Zulu"@
                                        }
                                    }
                                }
                            }
                        }
                    }
                }
            }
        }
    }
}

/// The table of zone `i`.
pub open spec fn table_at(i: int) -> Table {
    if i < 298 {
        if i < 149 {
            if i < 74 {
                if i < 37 {
                    if i < 18 {
                        if i < 9 {
                            if i < 4 {
                                if i < 2 {
                                    if i < 1 {
                                        tables::africa::abidjan()
                                    } else {
                                        tables::africa::accra()
                                    }
                                } else {
                                    if i < 3 {
                                        tables::africa::addis_ababa()
                                    } else {
                                        tables::africa::algiers()
                                    }
                                }
                            } else {
                                if i < 6 {
                                    if i < 5 {
                                        tables::africa::asmara()
                                    } else {
                                        tables::africa::asmera()
                                    }
                                } else {
                                    if i < 7 {
                                        tables::africa::bamako()
                                    } else {
                                        if i < 8 {
                                            tables::africa::bangui()
                                        } else {
                                            tables::africa::banjul()
                                        }
                                    }
                                }
                            }
                        } else {
                            if i < 13 {
                                if i < 11 {
                                    if i < 10 {
                                        tables::africa::bissau()
                                    } else {
                                        tables::africa::blantyre()
                                    }
                                } else {
                                    if i < 12 {
                                        tables::africa::brazzaville()
                                    } else {
                                        tables::africa::bujumbura()
                                    }
                                }
                            } else {
                                if i < 15 {
                                    if i < 14 {
                                        tables::africa::cairo()
                                    } else {
                                        tables::africa::casablanca()
                                    }
                                } else {
                                    if i < 16 {
                                        tables::africa::ceuta()
                                    } else {
                                        if i < 17 {
                                            tables::africa::conakry()
                                        } else {
                                            tables::africa::dakar()
                                        }
                                    }
                                }
                            }
                        }
                    } else {
                        if i < 27 {
                            if i < 22 {
                                if i < 20 {
                                    if i < 19 {
                                        tables::africa::dar_es_salaam()
                                    } else {
                                        tables::africa::djibouti()
                                    }
                                } else {
                                    if i < 21 {
                                        tables::africa::douala()
                                    } else {
                                        tables::africa::el_aaiun()
                                    }
                                }
                            } else {
                                if i < 24 {
                                    if i < 23 {
                                        tables::africa::freetown()
                                    } else {
                                        tables::africa::gaborone()
                                    }
                                } else {
                                    if i < 25 {
                                        tables::africa::harare()
                                    } else {
                                        if i < 26 {
                                            tables::africa::johannesburg()
                                        } else {
                                            tables::africa::juba()
                                        }
                                    }
                                }
                            }
                        } else {
                            if i < 32 {
                                if i < 29 {
                                    if i < 28 {
                                        tables::africa::kampala()
                                    } else {
                                        tables::africa::khartoum()
                                    }
                                } else {
                                    if i < 30 {
                                        tables::africa::kigali()
                                    } else {
                                        if i < 31 {
                                            tables::africa::kinshasa()
                                        } else {
                                            tables::africa::lagos()
                                        }
                                    }
                                }
                            } else {
                                if i < 34 {
                                    if i < 33 {
                                        tables::africa::libreville()
                                    } else {
                                        tables::africa::lome()
                                    }
                                } else {
                                    if i < 35 {
                                        tables::africa::luanda()
                                    } else {
                                        if i < 36 {
                                            tables::africa::lubumbashi()
                                        } else {
                                            tables::africa::lusaka()
                                        }
                                    }
                                }
                            }
                        }
                    }
                } else {
                    if i < 55 {
                        if i < 46 {
                            if i < 41 {
                                if i < 39 {
                                    if i < 38 {
                                        tables::africa::malabo()
                                    } else {
                                        tables::africa::maputo()
                                    }
                                } else {
                                    if i < 40 {
                                        tables::africa::maseru()
                                    } else {
                                        tables::africa::mbabane()
                                    }
                                }
                            } else {
                                if i < 43 {
                                    if i < 42 {
                                        tables::africa::mogadishu()
                                    } else {
                                        tables::africa::monrovia()
                                    }
                                } else {
                                    if i < 44 {
                                        tables::africa::nairobi()
                                    } else {
                                        if i < 45 {
                                            tables::africa::ndjamena()
                                        } else {
                                            tables::africa::niamey()
                                        }
                                    }
                                }
                            }
                        } else {
                            if i < 50 {
                                if i < 48 {
                                    if i < 47 {
                                        tables::africa::nouakchott()
                                    } else {
                                        tables::africa::ouagadougou()
                                    }
                                } else {
                                    if i < 49 {
                                        tables::africa::porto_novo()
                                    } else {
                                        tables::africa::sao_tome()
                                    }
                                }
                            } else {
                                if i < 52 {
                                    if i < 51 {
                                        tables::africa::timbuktu()
                                    } else {
                                        tables::africa::tripoli()
                                    }
                                } else {
                                    if i < 53 {
                                        tables::africa::tunis()
                                    } else {
                                        if i < 54 {
                                            tables::africa::windhoek()
                                        } else {
                                            tables::america::adak()
                                        }
                                    }
                                }
                            }
                        }
                    } else {
                        if i < 64 {
                            if i < 59 {
                                if i < 57 {
                                    if i < 56 {
                                        tables::america::anchorage()
                                    } else {
                                        tables::america::anguilla()
                                    }
                                } else {
                                    if i < 58 {
                                        tables::america::antigua()
                                    } else {
                                        tables::america::araguaina()
                                    }
                                }
                            } else {
                                if i < 61 {
                                    if i < 60 {
                                        tables::america::argentina_buenos_aires()
                                    } else {
                                        tables::america::argentina_catamarca()
                                    }
                                } else {
                                    if i < 62 {
                                        tables::america::argentina_comodrivadavia()
                                    } else {
                                        if i < 63 {
                                            tables::america::argentina_cordoba()
                                        } else {
                                            tables::america::argentina_jujuy()
                                        }
                                    }
                                }
                            }
                        } else {
                            if i < 69 {
                                if i < 66 {
                                    if i < 65 {
                                        tables::america::argentina_la_rioja()
                                    } else {
                                        tables::america::argentina_mendoza()
                                    }
                                } else {
                                    if i < 67 {
                                        tables::america::argentina_rio_gallegos()
                                    } else {
                                        if i < 68 {
                                            tables::america::argentina_salta()
                                        } else {
                                            tables::america::argentina_san_juan()
                                        }
                                    }
                                }
                            } else {
                                if i < 71 {
                                    if i < 70 {
                                        tables::america::argentina_san_luis()
                                    } else {
                                        tables::america::argentina_tucuman()
                                    }
                                } else {
                                    if i < 72 {
                                        tables::america::argentina_ushuaia()
                                    } else {
                                        if i < 73 {
                                            tables::america::aruba()
                                        } else {
                                            tables::america::asuncion()
                                        }
                                    }
                                }
                            }
                        }
                    }
                }
            } else {
                if i < 111 {
                    if i < 92 {
                        if i < 83 {
                            if i < 78 {
                                if i < 76 {
                                    if i < 75 {
                                        tables::america::atikokan()
                                    } else {
                                        tables::america::atka()
                                    }
                                } else {
                                    if i < 77 {
                                        tables::america::bahia()
                                    } else {
                                        tables::america::bahia_banderas()
                                    }
                                }
                            } else {
                                if i < 80 {
                                    if i < 79 {
                                        tables::america::barbados()
                                    } else {
                                        tables::america::belem()
                                    }
                                } else {
                                    if i < 81 {
                                        tables::america::belize()
                                    } else {
                                        if i < 82 {
                                            tables::america::blanc_sablon()
                                        } else {
                                            tables::america::boa_vista()
                                        }
                                    }
                                }
                            }
                        } else {
                            if i < 87 {
                                if i < 85 {
                                    if i < 84 {
                                        tables::america::bogota()
                                    } else {
                                        tables::america::boise()
                                    }
                                } else {
                                    if i < 86 {
                                        tables::america::buenos_aires()
                                    } else {
                                        tables::america::cambridge_bay()
                                    }
                                }
                            } else {
                                if i < 89 {
                                    if i < 88 {
                                        tables::america::campo_grande()
                                    } else {
                                        tables::america::cancun()
                                    }
                                } else {
                                    if i < 90 {
                                        tables::america::caracas()
                                    } else {
                                        if i < 91 {
                                            tables::america::catamarca()
                                        } else {
                                            tables::america::cayenne()
                                        }
                                    }
                                }
                            }
                        }
                    } else {
                        if i < 101 {
                            if i < 96 {
                                if i < 94 {
                                    if i < 93 {
                                        tables::america::cayman()
                                    } else {
                                        tables::america::chicago()
                                    }
                                } else {
                                    if i < 95 {
                                        tables::america::chihuahua()
                                    } else {
                                        tables::america::ciudad_juarez()
                                    }
                                }
                            } else {
                                if i < 98 {
                                    if i < 97 {
                                        tables::america::coral_harbour()
                                    } else {
                                        tables::america::cordoba()
                                    }
                                } else {
                                    if i < 99 {
                                        tables::america::costa_rica()
                                    } else {
                                        if i < 100 {
                                            tables::america::coyhaique()
                                        } else {
                                            tables::america::creston()
                                        }
                                    }
                                }
                            }
                        } else {
                            if i < 106 {
                                if i < 103 {
                                    if i < 102 {
                                        tables::america::cuiaba()
                                    } else {
                                        tables::america::curacao()
                                    }
                                } else {
                                    if i < 104 {
                                        tables::america::danmarkshavn()
                                    } else {
                                        if i < 105 {
                                            tables::america::dawson()
                                        } else {
                                            tables::america::dawson_creek()
                                        }
                                    }
                                }
                            } else {
                                if i < 108 {
                                    if i < 107 {
                                        tables::america::denver()
                                    } else {
                                        tables::america::detroit()
                                    }
                                } else {
                                    if i < 109 {
                                        tables::america::dominica()
                                    } else {
                                        if i < 110 {
                                            tables::america::edmonton()
                                        } else {
                                            tables::america::eirunepe()
                                        }
                                    }
                                }
                            }
                        }
                    }
                } else {
                    if i < 130 {
                        if i < 120 {
                            if i < 115 {
                                if i < 113 {
                                    if i < 112 {
                                        tables::america::el_salvador()
                                    } else {
                                        tables::america::ensenada()
                                    }
                                } else {
                                    if i < 114 {
                                        tables::america::fort_nelson()
                                    } else {
                                        tables::america::fort_wayne()
                                    }
                                }
                            } else {
                                if i < 117 {
                                    if i < 116 {
                                        tables::america::fortaleza()
                                    } else {
                                        tables::america::glace_bay()
                                    }
                                } else {
                                    if i < 118 {
                                        tables::america::godthab()
                                    } else {
                                        if i < 119 {
                                            tables::america::goose_bay()
                                        } else {
                                            tables::america::grand_turk()
                                        }
                                    }
                                }
                            }
                        } else {
                            if i < 125 {
                                if i < 122 {
                                    if i < 121 {
                                        tables::america::grenada()
                                    } else {
                                        tables::america::guadeloupe()
                                    }
                                } else {
                                    if i < 123 {
                                        tables::america::guatemala()
                                    } else {
                                        if i < 124 {
                                            tables::america::guayaquil()
                                        } else {
                                            tables::america::guyana()
                                        }
                                    }
                                }
                            } else {
                                if i < 127 {
                                    if i < 126 {
                                        tables::america::halifax()
                                    } else {
                                        tables::america::havana()
                                    }
                                } else {
                                    if i < 128 {
                                        tables::america::hermosillo()
                                    } else {
                                        if i < 129 {
                                            tables::america::indiana_indianapolis()
                                        } else {
                                            tables::america::indiana_knox()
                                        }
                                    }
                                }
                            }
                        }
                    } else {
                        if i < 139 {
                            if i < 134 {
                                if i < 132 {
                                    if i < 131 {
                                        tables::america::indiana_marengo()
                                    } else {
                                        tables::america::indiana_petersburg()
                                    }
                                } else {
                                    if i < 133 {
                                        tables::america::indiana_tell_city()
                                    } else {
                                        tables::america::indiana_vevay()
                                    }
                                }
                            } else {
                                if i < 136 {
                                    if i < 135 {
                                        tables::america::indiana_vincennes()
                                    } else {
                                        tables::america::indiana_winamac()
                                    }
                                } else {
                                    if i < 137 {
                                        tables::america::indianapolis()
                                    } else {
                                        if i < 138 {
                                            tables::america::inuvik()
                                        } else {
                                            tables::america::iqaluit()
                                        }
                                    }
                                }
                            }
                        } else {
                            if i < 144 {
                                if i < 141 {
                                    if i < 140 {
                                        tables::america::jamaica()
                                    } else {
                                        tables::america::jujuy()
                                    }
                                } else {
                                    if i < 142 {
                                        tables::america::juneau()
                                    } else {
                                        if i < 143 {
                                            tables::america::kentucky_louisville()
                                        } else {
                                            tables::america::kentucky_monticello()
                                        }
                                    }
                                }
                            } else {
                                if i < 146 {
                                    if i < 145 {
                                        tables::america::knox_in()
                                    } else {
                                        tables::america::kralendijk()
                                    }
                                } else {
                                    if i < 147 {
                                        tables::america::la_paz()
                                    } else {
                                        if i < 148 {
                                            tables::america::lima()
                                        } else {
                                            tables::america::los_angeles()
                                        }
                                    }
                                }
                            }
                        }
                    }
                }
            }
        } else {
            if i < 223 {
                if i < 186 {
                    if i < 167 {
                        if i < 158 {
                            if i < 153 {
                                if i < 151 {
                                    if i < 150 {
                                        tables::america::louisville()
                                    } else {
                                        tables::america::lower_princes()
                                    }
                                } else {
                                    if i < 152 {
                                        tables::america::maceio()
                                    } else {
                                        tables::america::managua()
                                    }
                                }
                            } else {
                                if i < 155 {
                                    if i < 154 {
                                        tables::america::manaus()
                                    } else {
                                        tables::america::marigot()
                                    }
                                } else {
                                    if i < 156 {
                                        tables::america::martinique()
                                    } else {
                                        if i < 157 {
                                            tables::america::matamoros()
                                        } else {
                                            tables::america::mazatlan()
                                        }
                                    }
                                }
                            }
                        } else {
                            if i < 162 {
                                if i < 160 {
                                    if i < 159 {
                                        tables::america::mendoza()
                                    } else {
                                        tables::america::menominee()
                                    }
                                } else {
                                    if i < 161 {
                                        tables::america::merida()
                                    } else {
                                        tables::america::metlakatla()
                                    }
                                }
                            } else {
                                if i < 164 {
                                    if i < 163 {
                                        tables::america::mexico_city()
                                    } else {
                                        tables::america::miquelon()
                                    }
                                } else {
                                    if i < 165 {
                                        tables::america::moncton()
                                    } else {
                                        if i < 166 {
                                            tables::america::monterrey()
                                        } else {
                                            tables::america::montevideo()
                                        }
                                    }
                                }
                            }
                        }
                    } else {
                        if i < 176 {
                            if i < 171 {
                                if i < 169 {
                                    if i < 168 {
                                        tables::america::montreal()
                                    } else {
                                        tables::america::montserrat()
                                    }
                                } else {
                                    if i < 170 {
                                        tables::america::nassau()
                                    } else {
                                        tables::america::new_york()
                                    }
                                }
                            } else {
                                if i < 173 {
                                    if i < 172 {
                                        tables::america::nipigon()
                                    } else {
                                        tables::america::nome()
                                    }
                                } else {
                                    if i < 174 {
                                        tables::america::noronha()
                                    } else {
                                        if i < 175 {
                                            tables::america::north_dakota_beulah()
                                        } else {
                                            tables::america::north_dakota_center()
                                        }
                                    }
                                }
                            }
                        } else {
                            if i < 181 {
                                if i < 178 {
                                    if i < 177 {
                                        tables::america::north_dakota_new_salem()
                                    } else {
                                        tables::america::nuuk()
                                    }
                                } else {
                                    if i < 179 {
                                        tables::america::ojinaga()
                                    } else {
                                        if i < 180 {
                                            tables::america::panama()
                                        } else {
                                            tables::america::pangnirtung()
                                        }
                                    }
                                }
                            } else {
                                if i < 183 {
                                    if i < 182 {
                                        tables::america::paramaribo()
                                    } else {
                                        tables::america::phoenix()
                                    }
                                } else {
                                    if i < 184 {
                                        tables::america::port_au_prince()
                                    } else {
                                        if i < 185 {
                                            tables::america::port_of_spain()
                                        } else {
                                            tables::america::porto_acre()
                                        }
                                    }
                                }
                            }
                        }
                    }
                } else {
                    if i < 204 {
                        if i < 195 {
                            if i < 190 {
                                if i < 188 {
                                    if i < 187 {
                                        tables::america::porto_velho()
                                    } else {
                                        tables::america::puerto_rico()
                                    }
                                } else {
                                    if i < 189 {
                                        tables::america::punta_arenas()
                                    } else {
                                        tables::america::rainy_river()
                                    }
                                }
                            } else {
                                if i < 192 {
                                    if i < 191 {
                                        tables::america::rankin_inlet()
                                    } else {
                                        tables::america::recife()
                                    }
                                } else {
                                    if i < 193 {
                                        tables::america::regina()
                                    } else {
                                        if i < 194 {
                                            tables::america::resolute()
                                        } else {
                                            tables::america::rio_branco()
                                        }
                                    }
                                }
                            }
                        } else {
                            if i < 199 {
                                if i < 197 {
                                    if i < 196 {
                                        tables::america::rosario()
                                    } else {
                                        tables::america::santa_isabel()
                                    }
                                } else {
                                    if i < 198 {
                                        tables::america::santarem()
                                    } else {
                                        tables::america::santiago()
                                    }
                                }
                            } else {
                                if i < 201 {
                                    if i < 200 {
                                        tables::america::santo_domingo()
                                    } else {
                                        tables::america::sao_paulo()
                                    }
                                } else {
                                    if i < 202 {
                                        tables::america::scoresbysund()
                                    } else {
                                        if i < 203 {
                                            tables::america::shiprock()
                                        } else {
                                            tables::america::sitka()
                                        }
                                    }
                                }
                            }
                        }
                    } else {
                        if i < 213 {
                            if i < 208 {
                                if i < 206 {
                                    if i < 205 {
                                        tables::america::st_barthelemy()
                                    } else {
                                        tables::america::st_johns()
                                    }
                                } else {
                                    if i < 207 {
                                        tables::america::st_kitts()
                                    } else {
                                        tables::america::st_lucia()
                                    }
                                }
                            } else {
                                if i < 210 {
                                    if i < 209 {
                                        tables::america::st_thomas()
                                    } else {
                                        tables::america::st_vincent()
                                    }
                                } else {
                                    if i < 211 {
                                        tables::america::swift_current()
                                    } else {
                                        if i < 212 {
                                            tables::america::tegucigalpa()
                                        } else {
                                            tables::america::thule()
                                        }
                                    }
                                }
                            }
                        } else {
                            if i < 218 {
                                if i < 215 {
                                    if i < 214 {
                                        tables::america::thunder_bay()
                                    } else {
                                        tables::america::tijuana()
                                    }
                                } else {
                                    if i < 216 {
                                        tables::america::toronto()
                                    } else {
                                        if i < 217 {
                                            tables::america::tortola()
                                        } else {
                                            tables::america::vancouver()
                                        }
                                    }
                                }
                            } else {
                                if i < 220 {
                                    if i < 219 {
                                        tables::america::virgin()
                                    } else {
                                        tables::america::whitehorse()
                                    }
                                } else {
                                    if i < 221 {
                                        tables::america::winnipeg()
                                    } else {
                                        if i < 222 {
                                            tables::america::yakutat()
                                        } else {
                                            tables::america::yellowknife()
                                        }
                                    }
                                }
                            }
                        }
                    }
                }
            } else {
                if i < 260 {
                    if i < 241 {
                        if i < 232 {
                            if i < 227 {
                                if i < 225 {
                                    if i < 224 {
                                        tables::antarctica::casey()
                                    } else {
                                        tables::antarctica::davis()
                                    }
                                } else {
                                    if i < 226 {
                                        tables::antarctica::dumontdurville()
                                    } else {
                                        tables::antarctica::macquarie()
                                    }
                                }
                            } else {
                                if i < 229 {
                                    if i < 228 {
                                        tables::antarctica::mawson()
                                    } else {
                                        tables::antarctica::mcmurdo()
                                    }
                                } else {
                                    if i < 230 {
                                        tables::antarctica::palmer()
                                    } else {
                                        if i < 231 {
                                            tables::antarctica::rothera()
                                        } else {
                                            tables::antarctica::south_pole()
                                        }
                                    }
                                }
                            }
                        } else {
                            if i < 236 {
                                if i < 234 {
                                    if i < 233 {
                                        tables::antarctica::syowa()
                                    } else {
                                        tables::antarctica::troll()
                                    }
                                } else {
                                    if i < 235 {
                                        tables::antarctica::vostok()
                                    } else {
                                        tables::arctic::longyearbyen()
                                    }
                                }
                            } else {
                                if i < 238 {
                                    if i < 237 {
                                        tables::asia::aden()
                                    } else {
                                        tables::asia::almaty()
                                    }
                                } else {
                                    if i < 239 {
                                        tables::asia::amman()
                                    } else {
                                        if i < 240 {
                                            tables::asia::anadyr()
                                        } else {
                                            tables::asia::aqtau()
                                        }
                                    }
                                }
                            }
                        }
                    } else {
                        if i < 250 {
                            if i < 245 {
                                if i < 243 {
                                    if i < 242 {
                                        tables::asia::aqtobe()
                                    } else {
                                        tables::asia::ashgabat()
                                    }
                                } else {
                                    if i < 244 {
                                        tables::asia::ashkhabad()
                                    } else {
                                        tables::asia::atyrau()
                                    }
                                }
                            } else {
                                if i < 247 {
                                    if i < 246 {
                                        tables::asia::baghdad()
                                    } else {
                                        tables::asia::bahrain()
                                    }
                                } else {
                                    if i < 248 {
                                        tables::asia::baku()
                                    } else {
                                        if i < 249 {
                                            tables::asia::bangkok()
                                        } else {
                                            tables::asia::barnaul()
                                        }
                                    }
                                }
                            }
                        } else {
                            if i < 255 {
                                if i < 252 {
                                    if i < 251 {
                                        tables::asia::beirut()
                                    } else {
                                        tables::asia::bishkek()
                                    }
                                } else {
                                    if i < 253 {
                                        tables::asia::brunei()
                                    } else {
                                        if i < 254 {
                                            tables::asia::calcutta()
                                        } else {
                                            tables::asia::chita()
                                        }
                                    }
                                }
                            } else {
                                if i < 257 {
                                    if i < 256 {
                                        tables::asia::choibalsan()
                                    } else {
                                        tables::asia::chongqing()
                                    }
                                } else {
                                    if i < 258 {
                                        tables::asia::chungking()
                                    } else {
                                        if i < 259 {
                                            tables::asia::colombo()
                                        } else {
                                            tables::asia::dacca()
                                        }
                                    }
                                }
                            }
                        }
                    }
                } else {
                    if i < 279 {
                        if i < 269 {
                            if i < 264 {
                                if i < 262 {
                                    if i < 261 {
                                        tables::asia::damascus()
                                    } else {
                                        tables::asia::dhaka()
                                    }
                                } else {
                                    if i < 263 {
                                        tables::asia::dili()
                                    } else {
                                        tables::asia::dubai()
                                    }
                                }
                            } else {
                                if i < 266 {
                                    if i < 265 {
                                        tables::asia::dushanbe()
                                    } else {
                                        tables::asia::famagusta()
                                    }
                                } else {
                                    if i < 267 {
                                        tables::asia::gaza()
                                    } else {
                                        if i < 268 {
                                            tables::asia::harbin()
                                        } else {
                                            tables::asia::hebron()
                                        }
                                    }
                                }
                            }
                        } else {
                            if i < 274 {
                                if i < 271 {
                                    if i < 270 {
                                        tables::asia::ho_chi_minh()
                                    } else {
                                        tables::asia::hong_kong()
                                    }
                                } else {
                                    if i < 272 {
                                        tables::asia::hovd()
                                    } else {
                                        if i < 273 {
                                            tables::asia::irkutsk()
                                        } else {
                                            tables::asia::istanbul()
                                        }
                                    }
                                }
                            } else {
                                if i < 276 {
                                    if i < 275 {
                                        tables::asia::jakarta()
                                    } else {
                                        tables::asia::jayapura()
                                    }
                                } else {
                                    if i < 277 {
                                        tables::asia::jerusalem()
                                    } else {
                                        if i < 278 {
                                            tables::asia::kabul()
                                        } else {
                                            tables::asia::kamchatka()
                                        }
                                    }
                                }
                            }
                        }
                    } else {
                        if i < 288 {
                            if i < 283 {
                                if i < 281 {
                                    if i < 280 {
                                        tables::asia::karachi()
                                    } else {
                                        tables::asia::kashgar()
                                    }
                                } else {
                                    if i < 282 {
                                        tables::asia::kathmandu()
                                    } else {
                                        tables::asia::katmandu()
                                    }
                                }
                            } else {
                                if i < 285 {
                                    if i < 284 {
                                        tables::asia::khandyga()
                                    } else {
                                        tables::asia::kolkata()
                                    }
                                } else {
                                    if i < 286 {
                                        tables::asia::krasnoyarsk()
                                    } else {
                                        if i < 287 {
                                            tables::asia::kuala_lumpur()
                                        } else {
                                            tables::asia::kuching()
                                        }
                                    }
                                }
                            }
                        } else {
                            if i < 293 {
                                if i < 290 {
                                    if i < 289 {
                                        tables::asia::kuwait()
                                    } else {
                                        tables::asia::macao()
                                    }
                                } else {
                                    if i < 291 {
                                        tables::asia::macau()
                                    } else {
                                        if i < 292 {
                                            tables::asia::magadan()
                                        } else {
                                            tables::asia::makassar()
                                        }
                                    }
                                }
                            } else {
                                if i < 295 {
                                    if i < 294 {
                                        tables::asia::manila()
                                    } else {
                                        tables::asia::muscat()
                                    }
                                } else {
                                    if i < 296 {
                                        tables::asia::nicosia()
                                    } else {
                                        if i < 297 {
                                            tables::asia::novokuznetsk()
                                        } else {
                                            tables::asia::novosibirsk()
                                        }
                                    }
                                }
                            }
                        }
                    }
                }
            }
        }
    } else {
        if i < 447 {
            if i < 372 {
                if i < 335 {
                    if i < 316 {
                        if i < 307 {
                            if i < 302 {
                                if i < 300 {
                                    if i < 299 {
                                        tables::asia::omsk()
                                    } else {
                                        tables::asia::oral()
                                    }
                                } else {
                                    if i < 301 {
                                        tables::asia::phnom_penh()
                                    } else {
                                        tables::asia::pontianak()
                                    }
                                }
                            } else {
                                if i < 304 {
                                    if i < 303 {
                                        tables::asia::pyongyang()
                                    } else {
                                        tables::asia::qatar()
                                    }
                                } else {
                                    if i < 305 {
                                        tables::asia::qostanay()
                                    } else {
                                        if i < 306 {
                                            tables::asia::qyzylorda()
                                        } else {
                                            tables::asia::rangoon()
                                        }
                                    }
                                }
                            }
                        } else {
                            if i < 311 {
                                if i < 309 {
                                    if i < 308 {
                                        tables::asia::riyadh()
                                    } else {
                                        tables::asia::saigon()
                                    }
                                } else {
                                    if i < 310 {
                                        tables::asia::sakhalin()
                                    } else {
                                        tables::asia::samarkand()
                                    }
                                }
                            } else {
                                if i < 313 {
                                    if i < 312 {
                                        tables::asia::seoul()
                                    } else {
                                        tables::asia::shanghai()
                                    }
                                } else {
                                    if i < 314 {
                                        tables::asia::singapore()
                                    } else {
                                        if i < 315 {
                                            tables::asia::srednekolymsk()
                                        } else {
                                            tables::asia::taipei()
                                        }
                                    }
                                }
                            }
                        }
                    } else {
                        if i < 325 {
                            if i < 320 {
                                if i < 318 {
                                    if i < 317 {
                                        tables::asia::tashkent()
                                    } else {
                                        tables::asia::tbilisi()
                                    }
                                } else {
                                    if i < 319 {
                                        tables::asia::tehran()
                                    } else {
                                        tables::asia::tel_aviv()
                                    }
                                }
                            } else {
                                if i < 322 {
                                    if i < 321 {
                                        tables::asia::thimbu()
                                    } else {
                                        tables::asia::thimphu()
                                    }
                                } else {
                                    if i < 323 {
                                        tables::asia::tokyo()
                                    } else {
                                        if i < 324 {
                                            tables::asia::tomsk()
                                        } else {
                                            tables::asia::ujung_pandang()
                                        }
                                    }
                                }
                            }
                        } else {
                            if i < 330 {
                                if i < 327 {
                                    if i < 326 {
                                        tables::asia::ulaanbaatar()
                                    } else {
                                        tables::asia::ulan_bator()
                                    }
                                } else {
                                    if i < 328 {
                                        tables::asia::urumqi()
                                    } else {
                                        if i < 329 {
                                            tables::asia::ust_nera()
                                        } else {
                                            tables::asia::vientiane()
                                        }
                                    }
                                }
                            } else {
                                if i < 332 {
                                    if i < 331 {
                                        tables::asia::vladivostok()
                                    } else {
                                        tables::asia::yakutsk()
                                    }
                                } else {
                                    if i < 333 {
                                        tables::asia::yangon()
                                    } else {
                                        if i < 334 {
                                            tables::asia::yekaterinburg()
                                        } else {
                                            tables::asia::yerevan()
                                        }
                                    }
                                }
                            }
                        }
                    }
                } else {
                    if i < 353 {
                        if i < 344 {
                            if i < 339 {
                                if i < 337 {
                                    if i < 336 {
                                        tables::atlantic::azores()
                                    } else {
                                        tables::atlantic::bermuda()
                                    }
                                } else {
                                    if i < 338 {
                                        tables::atlantic::canary()
                                    } else {
                                        tables::atlantic::cape_verde()
                                    }
                                }
                            } else {
                                if i < 341 {
                                    if i < 340 {
                                        tables::atlantic::faeroe()
                                    } else {
                                        tables::atlantic::faroe()
                                    }
                                } else {
                                    if i < 342 {
                                        tables::atlantic::jan_mayen()
                                    } else {
                                        if i < 343 {
                                            tables::atlantic::madeira()
                                        } else {
                                            tables::atlantic::reykjavik()
                                        }
                                    }
                                }
                            }
                        } else {
                            if i < 348 {
                                if i < 346 {
                                    if i < 345 {
                                        tables::atlantic::south_georgia()
                                    } else {
                                        tables::atlantic::st_helena()
                                    }
                                } else {
                                    if i < 347 {
                                        tables::atlantic::stanley()
                                    } else {
                                        tables::australia::act()
                                    }
                                }
                            } else {
                                if i < 350 {
                                    if i < 349 {
                                        tables::australia::adelaide()
                                    } else {
                                        tables::australia::brisbane()
                                    }
                                } else {
                                    if i < 351 {
                                        tables::australia::broken_hill()
                                    } else {
                                        if i < 352 {
                                            tables::australia::canberra()
                                        } else {
                                            tables::australia::currie()
                                        }
                                    }
                                }
                            }
                        }
                    } else {
                        if i < 362 {
                            if i < 357 {
                                if i < 355 {
                                    if i < 354 {
                                        tables::australia::darwin()
                                    } else {
                                        tables::australia::eucla()
                                    }
                                } else {
                                    if i < 356 {
                                        tables::australia::hobart()
                                    } else {
                                        tables::australia::lhi()
                                    }
                                }
                            } else {
                                if i < 359 {
                                    if i < 358 {
                                        tables::australia::lindeman()
                                    } else {
                                        tables::australia::lord_howe()
                                    }
                                } else {
                                    if i < 360 {
                                        tables::australia::melbourne()
                                    } else {
                                        if i < 361 {
                                            tables::australia::nsw()
                                        } else {
                                            tables::australia::north()
                                        }
                                    }
                                }
                            }
                        } else {
                            if i < 367 {
                                if i < 364 {
                                    if i < 363 {
                                        tables::australia::perth()
                                    } else {
                                        tables::australia::queensland()
                                    }
                                } else {
                                    if i < 365 {
                                        tables::australia::south()
                                    } else {
                                        if i < 366 {
                                            tables::australia::sydney()
                                        } else {
                                            tables::australia::tasmania()
                                        }
                                    }
                                }
                            } else {
                                if i < 369 {
                                    if i < 368 {
                                        tables::australia::victoria()
                                    } else {
                                        tables::australia::west()
                                    }
                                } else {
                                    if i < 370 {
                                        tables::australia::yancowinna()
                                    } else {
                                        if i < 371 {
                                            tables::brazil::acre()
                                        } else {
                                            tables::brazil::denoronha()
                                        }
                                    }
                                }
                            }
                        }
                    }
                }
            } else {
                if i < 409 {
                    if i < 390 {
                        if i < 381 {
                            if i < 376 {
                                if i < 374 {
                                    if i < 373 {
                                        tables::brazil::east()
                                    } else {
                                        tables::brazil::west()
                                    }
                                } else {
                                    if i < 375 {
                                        tables::cet()
                                    } else {
                                        tables::cst6cdt()
                                    }
                                }
                            } else {
                                if i < 378 {
                                    if i < 377 {
                                        tables::canada::atlantic()
                                    } else {
                                        tables::canada::central()
                                    }
                                } else {
                                    if i < 379 {
                                        tables::canada::eastern()
                                    } else {
                                        if i < 380 {
                                            tables::canada::mountain()
                                        } else {
                                            tables::canada::newfoundland()
                                        }
                                    }
                                }
                            }
                        } else {
                            if i < 385 {
                                if i < 383 {
                                    if i < 382 {
                                        tables::canada::pacific()
                                    } else {
                                        tables::canada::saskatchewan()
                                    }
                                } else {
                                    if i < 384 {
                                        tables::canada::yukon()
                                    } else {
                                        tables::chile::continental()
                                    }
                                }
                            } else {
                                if i < 387 {
                                    if i < 386 {
                                        tables::chile::easterisland()
                                    } else {
                                        tables::cuba()
                                    }
                                } else {
                                    if i < 388 {
                                        tables::eet()
                                    } else {
                                        if i < 389 {
                                            tables::est()
                                        } else {
                                            tables::est5edt()
                                        }
                                    }
                                }
                            }
                        }
                    } else {
                        if i < 399 {
                            if i < 394 {
                                if i < 392 {
                                    if i < 391 {
                                        tables::egypt()
                                    } else {
                                        tables::eire()
                                    }
                                } else {
                                    if i < 393 {
                                        tables::etc::gmt()
                                    } else {
                                        tables::etc::gmt_plus_0()
                                    }
                                }
                            } else {
                                if i < 396 {
                                    if i < 395 {
                                        tables::etc::gmt_plus_1()
                                    } else {
                                        tables::etc::gmt_plus_10()
                                    }
                                } else {
                                    if i < 397 {
                                        tables::etc::gmt_plus_11()
                                    } else {
                                        if i < 398 {
                                            tables::etc::gmt_plus_12()
                                        } else {
                                            tables::etc::gmt_plus_2()
                                        }
                                    }
                                }
                            }
                        } else {
                            if i < 404 {
                                if i < 401 {
                                    if i < 400 {
                                        tables::etc::gmt_plus_3()
                                    } else {
                                        tables::etc::gmt_plus_4()
                                    }
                                } else {
                                    if i < 402 {
                                        tables::etc::gmt_plus_5()
                                    } else {
                                        if i < 403 {
                                            tables::etc::gmt_plus_6()
                                        } else {
                                            tables::etc::gmt_plus_7()
                                        }
                                    }
                                }
                            } else {
                                if i < 406 {
                                    if i < 405 {
                                        tables::etc::gmt_plus_8()
                                    } else {
                                        tables::etc::gmt_plus_9()
                                    }
                                } else {
                                    if i < 407 {
                                        tables::etc::gmt_minus_0()
                                    } else {
                                        if i < 408 {
                                            tables::etc::gmt_minus_1()
                                        } else {
                                            tables::etc::gmt_minus_10()
                                        }
                                    }
                                }
                            }
                        }
                    }
                } else {
                    if i < 428 {
                        if i < 418 {
                            if i < 413 {
                                if i < 411 {
                                    if i < 410 {
                                        tables::etc::gmt_minus_11()
                                    } else {
                                        tables::etc::gmt_minus_12()
                                    }
                                } else {
                                    if i < 412 {
                                        tables::etc::gmt_minus_13()
                                    } else {
                                        tables::etc::gmt_minus_14()
                                    }
                                }
                            } else {
                                if i < 415 {
                                    if i < 414 {
                                        tables::etc::gmt_minus_2()
                                    } else {
                                        tables::etc::gmt_minus_3()
                                    }
                                } else {
                                    if i < 416 {
                                        tables::etc::gmt_minus_4()
                                    } else {
                                        if i < 417 {
                                            tables::etc::gmt_minus_5()
                                        } else {
                                            tables::etc::gmt_minus_6()
                                        }
                                    }
                                }
                            }
                        } else {
                            if i < 423 {
                                if i < 420 {
                                    if i < 419 {
                                        tables::etc::gmt_minus_7()
                                    } else {
                                        tables::etc::gmt_minus_8()
                                    }
                                } else {
                                    if i < 421 {
                                        tables::etc::gmt_minus_9()
                                    } else {
                                        if i < 422 {
                                            tables::etc::gmt0()
                                        } else {
                                            tables::etc::greenwich()
                                        }
                                    }
                                }
                            } else {
                                if i < 425 {
                                    if i < 424 {
                                        tables::etc::uct()
                                    } else {
                                        tables::etc::utc()
                                    }
                                } else {
                                    if i < 426 {
                                        tables::etc::universal()
                                    } else {
                                        if i < 427 {
                                            tables::etc::zulu()
                                        } else {
                                            tables::europe::amsterdam()
                                        }
                                    }
                                }
                            }
                        }
                    } else {
                        if i < 437 {
                            if i < 432 {
                                if i < 430 {
                                    if i < 429 {
                                        tables::europe::andorra()
                                    } else {
                                        tables::europe::astrakhan()
                                    }
                                } else {
                                    if i < 431 {
                                        tables::europe::athens()
                                    } else {
                                        tables::europe::belfast()
                                    }
                                }
                            } else {
                                if i < 434 {
                                    if i < 433 {
                                        tables::europe::belgrade()
                                    } else {
                                        tables::europe::berlin()
                                    }
                                } else {
                                    if i < 435 {
                                        tables::europe::bratislava()
                                    } else {
                                        if i < 436 {
                                            tables::europe::brussels()
                                        } else {
                                            tables::europe::bucharest()
                                        }
                                    }
                                }
                            }
                        } else {
                            if i < 442 {
                                if i < 439 {
                                    if i < 438 {
                                        tables::europe::budapest()
                                    } else {
                                        tables::europe::busingen()
                                    }
                                } else {
                                    if i < 440 {
                                        tables::europe::chisinau()
                                    } else {
                                        if i < 441 {
                                            tables::europe::copenhagen()
                                        } else {
                                            tables::europe::dublin()
                                        }
                                    }
                                }
                            } else {
                                if i < 444 {
                                    if i < 443 {
                                        tables::europe::gibraltar()
                                    } else {
                                        tables::europe::guernsey()
                                    }
                                } else {
                                    if i < 445 {
                                        tables::europe::helsinki()
                                    } else {
                                        if i < 446 {
                                            tables::europe::isle_of_man()
                                        } else {
                                            tables::europe::istanbul()
                                        }
                                    }
                                }
                            }
                        }
                    }
                }
            }
        } else {
            if i < 522 {
                if i < 484 {
                    if i < 465 {
                        if i < 456 {
                            if i < 451 {
                                if i < 449 {
                                    if i < 448 {
                                        tables::europe::jersey()
                                    } else {
                                        tables::europe::kaliningrad()
                                    }
                                } else {
                                    if i < 450 {
                                        tables::europe::kiev()
                                    } else {
                                        tables::europe::kirov()
                                    }
                                }
                            } else {
                                if i < 453 {
                                    if i < 452 {
                                        tables::europe::kyiv()
                                    } else {
                                        tables::europe::lisbon()
                                    }
                                } else {
                                    if i < 454 {
                                        tables::europe::ljubljana()
                                    } else {
                                        if i < 455 {
                                            tables::europe::london()
                                        } else {
                                            tables::europe::luxembourg()
                                        }
                                    }
                                }
                            }
                        } else {
                            if i < 460 {
                                if i < 458 {
                                    if i < 457 {
                                        tables::europe::madrid()
                                    } else {
                                        tables::europe::malta()
                                    }
                                } else {
                                    if i < 459 {
                                        tables::europe::mariehamn()
                                    } else {
                                        tables::europe::minsk()
                                    }
                                }
                            } else {
                                if i < 462 {
                                    if i < 461 {
                                        tables::europe::monaco()
                                    } else {
                                        tables::europe::moscow()
                                    }
                                } else {
                                    if i < 463 {
                                        tables::europe::nicosia()
                                    } else {
                                        if i < 464 {
                                            tables::europe::oslo()
                                        } else {
                                            tables::europe::paris()
                                        }
                                    }
                                }
                            }
                        }
                    } else {
                        if i < 474 {
                            if i < 469 {
                                if i < 467 {
                                    if i < 466 {
                                        tables::europe::podgorica()
                                    } else {
                                        tables::europe::prague()
                                    }
                                } else {
                                    if i < 468 {
                                        tables::europe::riga()
                                    } else {
                                        tables::europe::rome()
                                    }
                                }
                            } else {
                                if i < 471 {
                                    if i < 470 {
                                        tables::europe::samara()
                                    } else {
                                        tables::europe::san_marino()
                                    }
                                } else {
                                    if i < 472 {
                                        tables::europe::sarajevo()
                                    } else {
                                        if i < 473 {
                                            tables::europe::saratov()
                                        } else {
                                            tables::europe::simferopol()
                                        }
                                    }
                                }
                            }
                        } else {
                            if i < 479 {
                                if i < 476 {
                                    if i < 475 {
                                        tables::europe::skopje()
                                    } else {
                                        tables::europe::sofia()
                                    }
                                } else {
                                    if i < 477 {
                                        tables::europe::stockholm()
                                    } else {
                                        if i < 478 {
                                            tables::europe::tallinn()
                                        } else {
                                            tables::europe::tirane()
                                        }
                                    }
                                }
                            } else {
                                if i < 481 {
                                    if i < 480 {
                                        tables::europe::tiraspol()
                                    } else {
                                        tables::europe::ulyanovsk()
                                    }
                                } else {
                                    if i < 482 {
                                        tables::europe::uzhgorod()
                                    } else {
                                        if i < 483 {
                                            tables::europe::vaduz()
                                        } else {
                                            tables::europe::vatican()
                                        }
                                    }
                                }
                            }
                        }
                    }
                } else {
                    if i < 503 {
                        if i < 493 {
                            if i < 488 {
                                if i < 486 {
                                    if i < 485 {
                                        tables::europe::vienna()
                                    } else {
                                        tables::europe::vilnius()
                                    }
                                } else {
                                    if i < 487 {
                                        tables::europe::volgograd()
                                    } else {
                                        tables::europe::warsaw()
                                    }
                                }
                            } else {
                                if i < 490 {
                                    if i < 489 {
                                        tables::europe::zagreb()
                                    } else {
                                        tables::europe::zaporozhye()
                                    }
                                } else {
                                    if i < 491 {
                                        tables::europe::zurich()
                                    } else {
                                        if i < 492 {
                                            tables::gb()
                                        } else {
                                            tables::gb_eire()
                                        }
                                    }
                                }
                            }
                        } else {
                            if i < 498 {
                                if i < 495 {
                                    if i < 494 {
                                        tables::gmt()
                                    } else {
                                        tables::gmt_plus_0()
                                    }
                                } else {
                                    if i < 496 {
                                        tables::gmt_minus_0()
                                    } else {
                                        if i < 497 {
                                            tables::gmt0()
                                        } else {
                                            tables::greenwich()
                                        }
                                    }
                                }
                            } else {
                                if i < 500 {
                                    if i < 499 {
                                        tables::hst()
                                    } else {
                                        tables::hongkong()
                                    }
                                } else {
                                    if i < 501 {
                                        tables::iceland()
                                    } else {
                                        if i < 502 {
                                            tables::indian::antananarivo()
                                        } else {
                                            tables::indian::chagos()
                                        }
                                    }
                                }
                            }
                        }
                    } else {
                        if i < 512 {
                            if i < 507 {
                                if i < 505 {
                                    if i < 504 {
                                        tables::indian::christmas()
                                    } else {
                                        tables::indian::cocos()
                                    }
                                } else {
                                    if i < 506 {
                                        tables::indian::comoro()
                                    } else {
                                        tables::indian::kerguelen()
                                    }
                                }
                            } else {
                                if i < 509 {
                                    if i < 508 {
                                        tables::indian::mahe()
                                    } else {
                                        tables::indian::maldives()
                                    }
                                } else {
                                    if i < 510 {
                                        tables::indian::mauritius()
                                    } else {
                                        if i < 511 {
                                            tables::indian::mayotte()
                                        } else {
                                            tables::indian::reunion()
                                        }
                                    }
                                }
                            }
                        } else {
                            if i < 517 {
                                if i < 514 {
                                    if i < 513 {
                                        tables::iran()
                                    } else {
                                        tables::israel()
                                    }
                                } else {
                                    if i < 515 {
                                        tables::jamaica()
                                    } else {
                                        if i < 516 {
                                            tables::japan()
                                        } else {
                                            tables::kwajalein()
                                        }
                                    }
                                }
                            } else {
                                if i < 519 {
                                    if i < 518 {
                                        tables::libya()
                                    } else {
                                        tables::met()
                                    }
                                } else {
                                    if i < 520 {
                                        tables::mst()
                                    } else {
                                        if i < 521 {
                                            tables::mst7mdt()
                                        } else {
                                            tables::mexico::bajanorte()
                                        }
                                    }
                                }
                            }
                        }
                    }
                }
            } else {
                if i < 559 {
                    if i < 540 {
                        if i < 531 {
                            if i < 526 {
                                if i < 524 {
                                    if i < 523 {
                                        tables::mexico::bajasur()
                                    } else {
                                        tables::mexico::general()
                                    }
                                } else {
                                    if i < 525 {
                                        tables::nz()
                                    } else {
                                        tables::nz_chat()
                                    }
                                }
                            } else {
                                if i < 528 {
                                    if i < 527 {
                                        tables::navajo()
                                    } else {
                                        tables::prc()
                                    }
                                } else {
                                    if i < 529 {
                                        tables::pst8pdt()
                                    } else {
                                        if i < 530 {
                                            tables::pacific::apia()
                                        } else {
                                            tables::pacific::auckland()
                                        }
                                    }
                                }
                            }
                        } else {
                            if i < 535 {
                                if i < 533 {
                                    if i < 532 {
                                        tables::pacific::bougainville()
                                    } else {
                                        tables::pacific::chatham()
                                    }
                                } else {
                                    if i < 534 {
                                        tables::pacific::chuuk()
                                    } else {
                                        tables::pacific::easter()
                                    }
                                }
                            } else {
                                if i < 537 {
                                    if i < 536 {
                                        tables::pacific::efate()
                                    } else {
                                        tables::pacific::enderbury()
                                    }
                                } else {
                                    if i < 538 {
                                        tables::pacific::fakaofo()
                                    } else {
                                        if i < 539 {
                                            tables::pacific::fiji()
                                        } else {
                                            tables::pacific::funafuti()
                                        }
                                    }
                                }
                            }
                        }
                    } else {
                        if i < 549 {
                            if i < 544 {
                                if i < 542 {
                                    if i < 541 {
                                        tables::pacific::galapagos()
                                    } else {
                                        tables::pacific::gambier()
                                    }
                                } else {
                                    if i < 543 {
                                        tables::pacific::guadalcanal()
                                    } else {
                                        tables::pacific::guam()
                                    }
                                }
                            } else {
                                if i < 546 {
                                    if i < 545 {
                                        tables::pacific::honolulu()
                                    } else {
                                        tables::pacific::johnston()
                                    }
                                } else {
                                    if i < 547 {
                                        tables::pacific::kanton()
                                    } else {
                                        if i < 548 {
                                            tables::pacific::kiritimati()
                                        } else {
                                            tables::pacific::kosrae()
                                        }
                                    }
                                }
                            }
                        } else {
                            if i < 554 {
                                if i < 551 {
                                    if i < 550 {
                                        tables::pacific::kwajalein()
                                    } else {
                                        tables::pacific::majuro()
                                    }
                                } else {
                                    if i < 552 {
                                        tables::pacific::marquesas()
                                    } else {
                                        if i < 553 {
                                            tables::pacific::midway()
                                        } else {
                                            tables::pacific::nauru()
                                        }
                                    }
                                }
                            } else {
                                if i < 556 {
                                    if i < 555 {
                                        tables::pacific::niue()
                                    } else {
                                        tables::pacific::norfolk()
                                    }
                                } else {
                                    if i < 557 {
                                        tables::pacific::noumea()
                                    } else {
                                        if i < 558 {
                                            tables::pacific::pago_pago()
                                        } else {
                                            tables::pacific::palau()
                                        }
                                    }
                                }
                            }
                        }
                    }
                } else {
                    if i < 578 {
                        if i < 568 {
                            if i < 563 {
                                if i < 561 {
                                    if i < 560 {
                                        tables::pacific::pitcairn()
                                    } else {
                                        tables::pacific::pohnpei()
                                    }
                                } else {
                                    if i < 562 {
                                        tables::pacific::ponape()
                                    } else {
                                        tables::pacific::port_moresby()
                                    }
                                }
                            } else {
                                if i < 565 {
                                    if i < 564 {
                                        tables::pacific::rarotonga()
                                    } else {
                                        tables::pacific::saipan()
                                    }
                                } else {
                                    if i < 566 {
                                        tables::pacific::samoa()
                                    } else {
                                        if i < 567 {
                                            tables::pacific::tahiti()
                                        } else {
                                            tables::pacific::tarawa()
                                        }
                                    }
                                }
                            }
                        } else {
                            if i < 573 {
                                if i < 570 {
                                    if i < 569 {
                                        tables::pacific::tongatapu()
                                    } else {
                                        tables::pacific::truk()
                                    }
                                } else {
                                    if i < 571 {
                                        tables::pacific::wake()
                                    } else {
                                        if i < 572 {
                                            tables::pacific::wallis()
                                        } else {
                                            tables::pacific::yap()
                                        }
                                    }
                                }
                            } else {
                                if i < 575 {
                                    if i < 574 {
                                        tables::poland()
                                    } else {
                                        tables::portugal()
                                    }
                                } else {
                                    if i < 576 {
                                        tables::roc()
                                    } else {
                                        if i < 577 {
                                            tables::rok()
                                        } else {
                                            tables::singapore()
                                        }
                                    }
                                }
                            }
                        }
                    } else {
                        if i < 587 {
                            if i < 582 {
                                if i < 580 {
                                    if i < 579 {
                                        tables::turkey()
                                    } else {
                                        tables::uct()
                                    }
                                } else {
                                    if i < 581 {
                                        tables::us::alaska()
                                    } else {
                                        tables::us::aleutian()
                                    }
                                }
                            } else {
                                if i < 584 {
                                    if i < 583 {
                                        tables::us::arizona()
                                    } else {
                                        tables::us::central()
                                    }
                                } else {
                                    if i < 585 {
                                        tables::us::east_indiana()
                                    } else {
                                        if i < 586 {
                                            tables::us::eastern()
                                        } else {
                                            tables::us::hawaii()
                                        }
                                    }
                                }
                            }
                        } else {
                            if i < 592 {
                                if i < 589 {
                                    if i < 588 {
                                        tables::us::indiana_starke()
                                    } else {
                                        tables::us::michigan()
                                    }
                                } else {
                                    if i < 590 {
                                        tables::us::mountain()
                                    } else {
                                        if i < 591 {
                                            tables::us::pacific()
                                        } else {
                                            tables::us::samoa()
                                        }
                                    }
                                }
                            } else {
                                if i < 594 {
                                    if i < 593 {
                                        tables::utc()
                                    } else {
                                        tables::universal()
                                    }
                                } else {
                                    if i < 595 {
                                        tables::w_su()
                                    } else {
                                        if i < 596 {
                                            tables::wet()
                                        } else {
                                            tables::zulu()
                                        }
                                    }
                                }
                            }
                        }
                    }
                }
            }
        }
    }
}

/// The names of the zones, in the order of the list.
pub open spec fn names() -> Seq<Seq<char>> {
    Seq::new(ZONE_COUNT as nat, |i: int| name_at(i))
}

/// Vendor name `v`.
pub open spec fn vendor_name_at(v: int) -> Seq<char> {
    if v < 68 {
        if v < 34 {
            if v < 17 {
                if v < 8 {
                    if v < 4 {
                        if v < 2 {
                            if v < 1 {
                                "AUS Central Standard Time"@
                            } else {
                                "AUS Eastern Standard Time"@
                            }
                        } else {
                            if v < 3 {
                                "Afghanistan Standard Time"@
                            } else {
                                "Alaskan Standard Time"@
                            }
                        }
                    } else {
                        if v < 6 {
                            if v < 5 {
                                "Aleutian Standard Time"@
                            } else {
                                "Altai Standard Time"@
                            }
                        } else {
                            if v < 7 {
                                "Arab Standard Time"@
                            } else {
                                "Arabian Standard Time"@
                            }
                        }
                    }
                } else {
                    if v < 12 {
                        if v < 10 {
                            if v < 9 {
                                "Arabic Standard Time"@
                            } else {
                                "Argentina Standard Time"@
                            }
                        } else {
                            if v < 11 {
                                "Astrakhan Standard Time"@
                            } else {
                                "Atlantic Standard Time"@
                            }
                        }
                    } else {
                        if v < 14 {
                            if v < 13 {
                                "Aus Central W. Standard Time"@
                            } else {
                                "Azerbaijan Standard Time"@
                            }
                        } else {
                            if v < 15 {
                                "Azores Standard Time"@
                            } else {
                                if v < 16 {
                                    "Bahia Standard Time"@
                                } else {
                                    "Bangladesh Standard Time"@
                                }
                            }
                        }
                    }
                }
            } else {
                if v < 25 {
                    if v < 21 {
                        if v < 19 {
                            if v < 18 {
                                "Belarus Standard Time"@
                            } else {
                                "Bougainville Standard Time"@
                            }
                        } else {
                            if v < 20 {
                                "Canada Central Standard Time"@
                            } else {
                                "Cape Verde Standard Time"@
                            }
                        }
                    } else {
                        if v < 23 {
                            if v < 22 {
                                "Caucasus Standard Time"@
                            } else {
                                "Cen. Australia Standard Time"@
                            }
                        } else {
                            if v < 24 {
                                "Central America Standard Time"@
                            } else {
                                "Central Brazilian Standard Time"@
                            }
                        }
                    }
                } else {
                    if v < 29 {
                        if v < 27 {
                            if v < 26 {
                                "Central Europe Standard Time"@
                            } else {
                                "Central European Standard Time"@
                            }
                        } else {
                            if v < 28 {
                                "Central Pacific Standard Time"@
                            } else {
                                "Central Standard Time"@
                            }
                        }
                    } else {
                        if v < 31 {
                            if v < 30 {
                                "Central Standard Time (Mexico)"@
                            } else {
                                "Chatham Islands Standard Time"@
                            }
                        } else {
                            if v < 32 {
                                "China Standard Time"@
                            } else {
                                if v < 33 {
                                    "Cuba Standard Time"@
                                } else {
                                    "Dateline Standard Time"@
                                }
                            }
                        }
                    }
                }
            }
        } else {
            if v < 51 {
                if v < 42 {
                    if v < 38 {
                        if v < 36 {
                            if v < 35 {
                                "E. Africa Standard Time"@
                            } else {
                                "E. Australia Standard Time"@
                            }
                        } else {
                            if v < 37 {
                                "E. Europe Standard Time"@
                            } else {
                                "E. South America Standard Time"@
                            }
                        }
                    } else {
                        if v < 40 {
                            if v < 39 {
                                "Easter Island Standard Time"@
                            } else {
                                "Eastern Standard Time"@
                            }
                        } else {
                            if v < 41 {
                                "Eastern Standard Time (Mexico)"@
                            } else {
                                "Egypt Standard Time"@
                            }
                        }
                    }
                } else {
                    if v < 46 {
                        if v < 44 {
                            if v < 43 {
                                "Ekaterinburg Standard Time"@
                            } else {
                                "FLE Standard Time"@
                            }
                        } else {
                            if v < 45 {
                                "Fiji Standard Time"@
                            } else {
                                "GMT Standard Time"@
                            }
                        }
                    } else {
                        if v < 48 {
                            if v < 47 {
                                "GTB Standard Time"@
                            } else {
                                "Georgian Standard Time"@
                            }
                        } else {
                            if v < 49 {
                                "Greenland Standard Time"@
                            } else {
                                if v < 50 {
                                    "Greenwich Standard Time"@
                                } else {
                                    "Haiti Standard Time"@
                                }
                            }
                        }
                    }
                }
            } else {
                if v < 59 {
                    if v < 55 {
                        if v < 53 {
                            if v < 52 {
                                "Hawaiian Standard Time"@
                            } else {
                                "India Standard Time"@
                            }
                        } else {
                            if v < 54 {
                                "Iran Standard Time"@
                            } else {
                                "Israel Standard Time"@
                            }
                        }
                    } else {
                        if v < 57 {
                            if v < 56 {
                                "Jordan Standard Time"@
                            } else {
                                "Kaliningrad Standard Time"@
                            }
                        } else {
                            if v < 58 {
                                "Korea Standard Time"@
                            } else {
                                "Libya Standard Time"@
                            }
                        }
                    }
                } else {
                    if v < 63 {
                        if v < 61 {
                            if v < 60 {
                                "Line Islands Standard Time"@
                            } else {
                                "Lord Howe Standard Time"@
                            }
                        } else {
                            if v < 62 {
                                "Magadan Standard Time"@
                            } else {
                                "Magallanes Standard Time"@
                            }
                        }
                    } else {
                        if v < 65 {
                            if v < 64 {
                                "Marquesas Standard Time"@
                            } else {
                                "Mauritius Standard Time"@
                            }
                        } else {
                            if v < 66 {
                                "Middle East Standard Time"@
                            } else {
                                if v < 67 {
                                    "Montevideo Standard Time"@
                                } else {
                                    "Morocco Standard Time"@
                                }
                            }
                        }
                    }
                }
            }
        }
    } else {
        if v < 102 {
            if v < 85 {
                if v < 76 {
                    if v < 72 {
                        if v < 70 {
                            if v < 69 {
                                "Mountain Standard Time"@
                            } else {
                                "Myanmar Standard Time"@
                            }
                        } else {
                            if v < 71 {
                                "N. Central Asia Standard Time"@
                            } else {
                                "Namibia Standard Time"@
                            }
                        }
                    } else {
                        if v < 74 {
                            if v < 73 {
                                "Nepal Standard Time"@
                            } else {
                                "New Zealand Standard Time"@
                            }
                        } else {
                            if v < 75 {
                                "Newfoundland Standard Time"@
                            } else {
                                "Norfolk Standard Time"@
                            }
                        }
                    }
                } else {
                    if v < 80 {
                        if v < 78 {
                            if v < 77 {
                                "North Asia East Standard Time"@
                            } else {
                                "North Asia Standard Time"@
                            }
                        } else {
                            if v < 79 {
                                "North Korea Standard Time"@
                            } else {
                                "Omsk Standard Time"@
                            }
                        }
                    } else {
                        if v < 82 {
                            if v < 81 {
                                "Pacific SA Standard Time"@
                            } else {
                                "Pacific Standard Time"@
                            }
                        } else {
                            if v < 83 {
                                "Pacific Standard Time (Mexico)"@
                            } else {
                                if v < 84 {
                                    "Pakistan Standard Time"@
                                } else {
                                    "Paraguay Standard Time"@
                                }
                            }
                        }
                    }
                }
            } else {
                if v < 93 {
                    if v < 89 {
                        if v < 87 {
                            if v < 86 {
                                "Qyzylorda Standard Time"@
                            } else {
                                "Romance Standard Time"@
                            }
                        } else {
                            if v < 88 {
                                "Russia Time Zone 10"@
                            } else {
                                "Russia Time Zone 11"@
                            }
                        }
                    } else {
                        if v < 91 {
                            if v < 90 {
                                "Russia Time Zone 3"@
                            } else {
                                "Russian Standard Time"@
                            }
                        } else {
                            if v < 92 {
                                "SA Eastern Standard Time"@
                            } else {
                                "SA Pacific Standard Time"@
                            }
                        }
                    }
                } else {
                    if v < 97 {
                        if v < 95 {
                            if v < 94 {
                                "SA Western Standard Time"@
                            } else {
                                "SE Asia Standard Time"@
                            }
                        } else {
                            if v < 96 {
                                "Saint Pierre Standard Time"@
                            } else {
                                "Sakhalin Standard Time"@
                            }
                        }
                    } else {
                        if v < 99 {
                            if v < 98 {
                                "Samoa Standard Time"@
                            } else {
                                "Sao Tome Standard Time"@
                            }
                        } else {
                            if v < 100 {
                                "Saratov Standard Time"@
                            } else {
                                if v < 101 {
                                    "Singapore Standard Time"@
                                } else {
                                    "South Africa Standard Time"@
                                }
                            }
                        }
                    }
                }
            }
        } else {
            if v < 119 {
                if v < 110 {
                    if v < 106 {
                        if v < 104 {
                            if v < 103 {
                                "South Sudan Standard Time"@
                            } else {
                                "Sri Lanka Standard Time"@
                            }
                        } else {
                            if v < 105 {
                                "Sudan Standard Time"@
                            } else {
                                "Syria Standard Time"@
                            }
                        }
                    } else {
                        if v < 108 {
                            if v < 107 {
                                "Taipei Standard Time"@
                            } else {
                                "Tasmania Standard Time"@
                            }
                        } else {
                            if v < 109 {
                                "Tocantins Standard Time"@
                            } else {
                                "Tokyo Standard Time"@
                            }
                        }
                    }
                } else {
                    if v < 114 {
                        if v < 112 {
                            if v < 111 {
                                "Tomsk Standard Time"@
                            } else {
                                "Tonga Standard Time"@
                            }
                        } else {
                            if v < 113 {
                                "Transbaikal Standard Time"@
                            } else {
                                "Turkey Standard Time"@
                            }
                        }
                    } else {
                        if v < 116 {
                            if v < 115 {
                                "Turks And Caicos Standard Time"@
                            } else {
                                "US Eastern Standard Time"@
                            }
                        } else {
                            if v < 117 {
                                "US Mountain Standard Time"@
                            } else {
                                if v < 118 {
                                    "UTC"@
                                } else {
                                    "UTC+12"@
                                }
                            }
                        }
                    }
                }
            } else {
                if v < 128 {
                    if v < 123 {
                        if v < 121 {
                            if v < 120 {
                                "UTC+13"@
                            } else {
                                "UTC-02"@
                            }
                        } else {
                            if v < 122 {
                                "UTC-08"@
                            } else {
                                "UTC-09"@
                            }
                        }
                    } else {
                        if v < 125 {
                            if v < 124 {
                                "UTC-11"@
                            } else {
                                "Ulaanbaatar Standard Time"@
                            }
                        } else {
                            if v < 126 {
                                "Venezuela Standard Time"@
                            } else {
                                if v < 127 {
                                    "Vladivostok Standard Time"@
                                } else {
                                    "Volgograd Standard Time"@
                                }
                            }
                        }
                    }
                } else {
                    if v < 132 {
                        if v < 130 {
                            if v < 129 {
                                "W. Australia Standard Time"@
                            } else {
                                "W. Central Africa Standard Time"@
                            }
                        } else {
                            if v < 131 {
                                "W. Europe Standard Time"@
                            } else {
                                "W. Mongolia Standard Time"@
                            }
                        }
                    } else {
                        if v < 134 {
                            if v < 133 {
                                "West Asia Standard Time"@
                            } else {
                                "West Bank Standard Time"@
                            }
                        } else {
                            if v < 135 {
                                "West Pacific Standard Time"@
                            } else {
                                if v < 136 {
                                    "Yakutsk Standard Time"@
                                } else {
                                    "Yukon Standard Time"@
                                }
                            }
                        }
                    }
                }
            }
        }
    }
}

/// The vendor names, in the order of the list.
pub open spec fn vendor_names() -> Seq<Seq<char>> {
    Seq::new(VENDOR_COUNT as nat, |v: int| vendor_name_at(v))
}

/// The zones that vendor name `v` stands for, as places in the list of
/// zones.
pub open spec fn vendor_zones_at(v: int) -> Seq<int> {
    if v < 68 {
        if v < 34 {
            if v < 17 {
                if v < 8 {
                    if v < 4 {
                        if v < 2 {
                            if v < 1 {
                                seq![353int]
                            } else {
                                seq![365int]
                            }
                        } else {
                            if v < 3 {
                                seq![277int]
                            } else {
                                seq![55int]
                            }
                        }
                    } else {
                        if v < 6 {
                            if v < 5 {
                                seq![54int]
                            } else {
                                seq![249int]
                            }
                        } else {
                            if v < 7 {
                                seq![307int]
                            } else {
                                seq![263int]
                            }
                        }
                    }
                } else {
                    if v < 12 {
                        if v < 10 {
                            if v < 9 {
                                seq![245int]
                            } else {
                                seq![85int]
                            }
                        } else {
                            if v < 11 {
                                seq![429int]
                            } else {
                                seq![125int]
                            }
                        }
                    } else {
                        if v < 14 {
                            if v < 13 {
                                seq![354int]
                            } else {
                                seq![247int]
                            }
                        } else {
                            if v < 15 {
                                seq![335int]
                            } else {
                                if v < 16 {
                                    seq![76int]
                                } else {
                                    seq![261int]
                                }
                            }
                        }
                    }
                }
            } else {
                if v < 25 {
                    if v < 21 {
                        if v < 19 {
                            if v < 18 {
                                seq![459int]
                            } else {
                                seq![531int]
                            }
                        } else {
                            if v < 20 {
                                seq![192int]
                            } else {
                                seq![338int]
                            }
                        }
                    } else {
                        if v < 23 {
                            if v < 22 {
                                seq![334int]
                            } else {
                                seq![348int]
                            }
                        } else {
                            if v < 24 {
                                seq![122int]
                            } else {
                                seq![101int]
                            }
                        }
                    }
                } else {
                    if v < 29 {
                        if v < 27 {
                            if v < 26 {
                                seq![437int]
                            } else {
                                seq![487int]
                            }
                        } else {
                            if v < 28 {
                                seq![542int]
                            } else {
                                seq![93int]
                            }
                        }
                    } else {
                        if v < 31 {
                            if v < 30 {
                                seq![162int]
                            } else {
                                seq![532int]
                            }
                        } else {
                            if v < 32 {
                                seq![312int]
                            } else {
                                if v < 33 {
                                    seq![126int]
                                } else {
                                    seq![397int]
                                }
                            }
                        }
                    }
                }
            }
        } else {
            if v < 51 {
                if v < 42 {
                    if v < 38 {
                        if v < 36 {
                            if v < 35 {
                                seq![43int]
                            } else {
                                seq![349int]
                            }
                        } else {
                            if v < 37 {
                                seq![439int]
                            } else {
                                seq![200int]
                            }
                        }
                    } else {
                        if v < 40 {
                            if v < 39 {
                                seq![534int]
                            } else {
                                seq![170int]
                            }
                        } else {
                            if v < 41 {
                                seq![88int]
                            } else {
                                seq![13int]
                            }
                        }
                    }
                } else {
                    if v < 46 {
                        if v < 44 {
                            if v < 43 {
                                seq![333int]
                            } else {
                                seq![449int]
                            }
                        } else {
                            if v < 45 {
                                seq![538int]
                            } else {
                                seq![454int]
                            }
                        }
                    } else {
                        if v < 48 {
                            if v < 47 {
                                seq![436int]
                            } else {
                                seq![317int]
                            }
                        } else {
                            if v < 49 {
                                seq![117int]
                            } else {
                                if v < 50 {
                                    seq![343int]
                                } else {
                                    seq![183int]
                                }
                            }
                        }
                    }
                }
            } else {
                if v < 59 {
                    if v < 55 {
                        if v < 53 {
                            if v < 52 {
                                seq![544int]
                            } else {
                                seq![253int]
                            }
                        } else {
                            if v < 54 {
                                seq![318int]
                            } else {
                                seq![276int]
                            }
                        }
                    } else {
                        if v < 57 {
                            if v < 56 {
                                seq![238int]
                            } else {
                                seq![448int]
                            }
                        } else {
                            if v < 58 {
                                seq![311int]
                            } else {
                                seq![51int]
                            }
                        }
                    }
                } else {
                    if v < 63 {
                        if v < 61 {
                            if v < 60 {
                                seq![547int]
                            } else {
                                seq![358int]
                            }
                        } else {
                            if v < 62 {
                                seq![291int]
                            } else {
                                seq![188int]
                            }
                        }
                    } else {
                        if v < 65 {
                            if v < 64 {
                                seq![551int]
                            } else {
                                seq![509int]
                            }
                        } else {
                            if v < 66 {
                                seq![250int]
                            } else {
                                if v < 67 {
                                    seq![166int]
                                } else {
                                    seq![14int]
                                }
                            }
                        }
                    }
                }
            }
        }
    } else {
        if v < 102 {
            if v < 85 {
                if v < 76 {
                    if v < 72 {
                        if v < 70 {
                            if v < 69 {
                                seq![106int]
                            } else {
                                seq![306int]
                            }
                        } else {
                            if v < 71 {
                                seq![297int]
                            } else {
                                seq![53int]
                            }
                        }
                    } else {
                        if v < 74 {
                            if v < 73 {
                                seq![282int]
                            } else {
                                seq![530int]
                            }
                        } else {
                            if v < 75 {
                                seq![205int]
                            } else {
                                seq![555int]
                            }
                        }
                    }
                } else {
                    if v < 80 {
                        if v < 78 {
                            if v < 77 {
                                seq![272int]
                            } else {
                                seq![285int]
                            }
                        } else {
                            if v < 79 {
                                seq![302int]
                            } else {
                                seq![298int]
                            }
                        }
                    } else {
                        if v < 82 {
                            if v < 81 {
                                seq![198int]
                            } else {
                                seq![148int]
                            }
                        } else {
                            if v < 83 {
                                seq![214int]
                            } else {
                                if v < 84 {
                                    seq![279int]
                                } else {
                                    seq![73int]
                                }
                            }
                        }
                    }
                }
            } else {
                if v < 93 {
                    if v < 89 {
                        if v < 87 {
                            if v < 86 {
                                seq![305int]
                            } else {
                                seq![464int]
                            }
                        } else {
                            if v < 88 {
                                seq![314int]
                            } else {
                                seq![278int]
                            }
                        }
                    } else {
                        if v < 91 {
                            if v < 90 {
                                seq![469int]
                            } else {
                                seq![461int]
                            }
                        } else {
                            if v < 92 {
                                seq![91int]
                            } else {
                                seq![83int]
                            }
                        }
                    }
                } else {
                    if v < 97 {
                        if v < 95 {
                            if v < 94 {
                                seq![146int]
                            } else {
                                seq![248int]
                            }
                        } else {
                            if v < 96 {
                                seq![163int]
                            } else {
                                seq![309int]
                            }
                        }
                    } else {
                        if v < 99 {
                            if v < 98 {
                                seq![529int]
                            } else {
                                seq![49int]
                            }
                        } else {
                            if v < 100 {
                                seq![472int]
                            } else {
                                if v < 101 {
                                    seq![313int]
                                } else {
                                    seq![25int]
                                }
                            }
                        }
                    }
                }
            }
        } else {
            if v < 119 {
                if v < 110 {
                    if v < 106 {
                        if v < 104 {
                            if v < 103 {
                                seq![26int]
                            } else {
                                seq![258int]
                            }
                        } else {
                            if v < 105 {
                                seq![28int]
                            } else {
                                seq![260int]
                            }
                        }
                    } else {
                        if v < 108 {
                            if v < 107 {
                                seq![315int]
                            } else {
                                seq![355int]
                            }
                        } else {
                            if v < 109 {
                                seq![58int]
                            } else {
                                seq![322int]
                            }
                        }
                    }
                } else {
                    if v < 114 {
                        if v < 112 {
                            if v < 111 {
                                seq![323int]
                            } else {
                                seq![568int]
                            }
                        } else {
                            if v < 113 {
                                seq![254int]
                            } else {
                                seq![446int]
                            }
                        }
                    } else {
                        if v < 116 {
                            if v < 115 {
                                seq![119int]
                            } else {
                                seq![136int]
                            }
                        } else {
                            if v < 117 {
                                seq![182int]
                            } else {
                                if v < 118 {
                                    seq![424int]
                                } else {
                                    seq![410int]
                                }
                            }
                        }
                    }
                }
            } else {
                if v < 128 {
                    if v < 123 {
                        if v < 121 {
                            if v < 120 {
                                seq![411int]
                            } else {
                                seq![398int]
                            }
                        } else {
                            if v < 122 {
                                seq![404int]
                            } else {
                                seq![405int]
                            }
                        }
                    } else {
                        if v < 125 {
                            if v < 124 {
                                seq![396int]
                            } else {
                                seq![325int]
                            }
                        } else {
                            if v < 126 {
                                seq![89int]
                            } else {
                                if v < 127 {
                                    seq![330int]
                                } else {
                                    seq![486int]
                                }
                            }
                        }
                    }
                } else {
                    if v < 132 {
                        if v < 130 {
                            if v < 129 {
                                seq![362int]
                            } else {
                                seq![31int]
                            }
                        } else {
                            if v < 131 {
                                seq![433int]
                            } else {
                                seq![271int]
                            }
                        }
                    } else {
                        if v < 134 {
                            if v < 133 {
                                seq![316int]
                            } else {
                                seq![268int]
                            }
                        } else {
                            if v < 135 {
                                seq![562int]
                            } else {
                                if v < 136 {
                                    seq![331int]
                                } else {
                                    seq![219int]
                                }
                            }
                        }
                    }
                }
            }
        }
    }
}

/// For each vendor name the zones it stands for, as places in the list of
/// zones.
pub open spec fn vendor_zones() -> Seq<Seq<int>> {
    Seq::new(VENDOR_COUNT as nat, |v: int| vendor_zones_at(v))
}

/// The name of zone `i`.
pub fn zone_name(i: usize) -> (r: &'static str)
    requires
        i < ZONE_COUNT,
    ensures
        r@ == names()[i as int],
{
    if i < 298 {
        if i < 149 {
            if i < 74 {
                if i < 37 {
                    if i < 18 {
                        if i < 9 {
                            if i < 4 {
                                if i < 2 {
                                    if i < 1 {
                                        "Africa/Abidjan"
                                    } else {
                                        "Africa/Accra"
                                    }
                                } else {
                                    if i < 3 {
                                        "Africa/Addis_Ababa"
                                    } else {
                                        "Africa/Algiers"
                                    }
                                }
                            } else {
                                if i < 6 {
                                    if i < 5 {
                                        "Africa/Asmara"
                                    } else {
                                        "Africa/Asmera"
                                    }
                                } else {
                                    if i < 7 {
                                        "Africa/Bamako"
                                    } else {
                                        if i < 8 {
                                            "Africa/Bangui"
                                        } else {
                                            "Africa/Banjul"
                                        }
                                    }
                                }
                            }
                        } else {
                            if i < 13 {
                                if i < 11 {
                                    if i < 10 {
                                        "Africa/Bissau"
                                    } else {
                                        "Africa/Blantyre"
                                    }
                                } else {
                                    if i < 12 {
                                        "Africa/Brazzaville"
                                    } else {
                                        "Africa/Bujumbura"
                                    }
                                }
                            } else {
                                if i < 15 {
                                    if i < 14 {
                                        "Africa/Cairo"
                                    } else {
                                        "Africa/Casablanca"
                                    }
                                } else {
                                    if i < 16 {
                                        "Africa/Ceuta"
                                    } else {
                                        if i < 17 {
                                            "Africa/Conakry"
                                        } else {
                                            "Africa/Dakar"
                                        }
                                    }
                                }
                            }
                        }
                    } else {
                        if i < 27 {
                            if i < 22 {
                                if i < 20 {
                                    if i < 19 {
                                        "Africa/Dar_es_Salaam"
                                    } else {
                                        "Africa/Djibouti"
                                    }
                                } else {
                                    if i < 21 {
                                        "Africa/Douala"
                                    } else {
                                        "Africa/El_Aaiun"
                                    }
                                }
                            } else {
                                if i < 24 {
                                    if i < 23 {
                                        "Africa/Freetown"
                                    } else {
                                        "Africa/Gaborone"
                                    }
                                } else {
                                    if i < 25 {
                                        "Africa/Harare"
                                    } else {
                                        if i < 26 {
                                            "Africa/Johannesburg"
                                        } else {
                                            "Africa/Juba"
                                        }
                                    }
                                }
                            }
                        } else {
                            if i < 32 {
                                if i < 29 {
                                    if i < 28 {
                                        "Africa/Kampala"
                                    } else {
                                        "Africa/Khartoum"
                                    }
                                } else {
                                    if i < 30 {
                                        "Africa/Kigali"
                                    } else {
                                        if i < 31 {
                                            "Africa/Kinshasa"
                                        } else {
                                            "Africa/Lagos"
                                        }
                                    }
                                }
                            } else {
                                if i < 34 {
                                    if i < 33 {
                                        "Africa/Libreville"
                                    } else {
                                        "Africa/Lome"
                                    }
                                } else {
                                    if i < 35 {
                                        "Africa/Luanda"
                                    } else {
                                        if i < 36 {
                                            "Africa/Lubumbashi"
                                        } else {
                                            "Africa/Lusaka"
                                        }
                                    }
                                }
                            }
                        }
                    }
                } else {
                    if i < 55 {
                        if i < 46 {
                            if i < 41 {
                                if i < 39 {
                                    if i < 38 {
                                        "Africa/Malabo"
                                    } else {
                                        "Africa/Maputo"
                                    }
                                } else {
                                    if i < 40 {
                                        "Africa/Maseru"
                                    } else {
                                        "Africa/Mbabane"
                                    }
                                }
                            } else {
                                if i < 43 {
                                    if i < 42 {
                                        "Africa/Mogadishu"
                                    } else {
                                        "Africa/Monrovia"
                                    }
                                } else {
                                    if i < 44 {
                                        "Africa/Nairobi"
                                    } else {
                                        if i < 45 {
                                            "Africa/Ndjamena"
                                        } else {
                                            "Africa/Niamey"
                                        }
                                    }
                                }
                            }
                        } else {
                            if i < 50 {
                                if i < 48 {
                                    if i < 47 {
                                        "Africa/Nouakchott"
                                    } else {
                                        "Africa/Ouagadougou"
                                    }
                                } else {
                                    if i < 49 {
                                        "Africa/Porto-Novo"
                                    } else {
                                        "Africa/Sao_Tome"
                                    }
                                }
                            } else {
                                if i < 52 {
                                    if i < 51 {
                                        "Africa/Timbuktu"
                                    } else {
                                        "Africa/Tripoli"
                                    }
                                } else {
                                    if i < 53 {
                                        "Africa/Tunis"
                                    } else {
                                        if i < 54 {
                                            "Africa/Windhoek"
                                        } else {
                                            "America/Adak"
                                        }
                                    }
                                }
                            }
                        }
                    } else {
                        if i < 64 {
                            if i < 59 {
                                if i < 57 {
                                    if i < 56 {
                                        "America/Anchorage"
                                    } else {
                                        "America/Anguilla"
                                    }
                                } else {
                                    if i < 58 {
                                        "America/Antigua"
                                    } else {
                                        "America/Araguaina"
                                    }
                                }
                            } else {
                                if i < 61 {
                                    if i < 60 {
                                        "America/Argentina/Buenos_Aires"
                                    } else {
                                        "America/Argentina/Catamarca"
                                    }
                                } else {
                                    if i < 62 {
                                        "America/Argentina/ComodRivadavia"
                                    } else {
                                        if i < 63 {
                                            "America/Argentina/Cordoba"
                                        } else {
                                            "America/Argentina/Jujuy"
                                        }
                                    }
                                }
                            }
                        } else {
                            if i < 69 {
                                if i < 66 {
                                    if i < 65 {
                                        "America/Argentina/La_Rioja"
                                    } else {
                                        "America/Argentina/Mendoza"
                                    }
                                } else {
                                    if i < 67 {
                                        "America/Argentina/Rio_Gallegos"
                                    } else {
                                        if i < 68 {
                                            "America/Argentina/Salta"
                                        } else {
                                            "America/Argentina/San_Juan"
                                        }
                                    }
                                }
                            } else {
                                if i < 71 {
                                    if i < 70 {
                                        "America/Argentina/San_Luis"
                                    } else {
                                        "America/Argentina/Tucuman"
                                    }
                                } else {
                                    if i < 72 {
                                        "America/Argentina/Ushuaia"
                                    } else {
                                        if i < 73 {
                                            "America/Aruba"
                                        } else {
                                            "America/Asuncion"
                                        }
                                    }
                                }
                            }
                        }
                    }
                }
            } else {
                if i < 111 {
                    if i < 92 {
                        if i < 83 {
                            if i < 78 {
                                if i < 76 {
                                    if i < 75 {
                                        "America/Atikokan"
                                    } else {
                                        "America/Atka"
                                    }
                                } else {
                                    if i < 77 {
                                        "America/Bahia"
                                    } else {
                                        "America/Bahia_Banderas"
                                    }
                                }
                            } else {
                                if i < 80 {
                                    if i < 79 {
                                        "America/Barbados"
                                    } else {
                                        "America/Belem"
                                    }
                                } else {
                                    if i < 81 {
                                        "America/Belize"
                                    } else {
                                        if i < 82 {
                                            "America/Blanc-Sablon"
                                        } else {
                                            "America/Boa_Vista"
                                        }
                                    }
                                }
                            }
                        } else {
                            if i < 87 {
                                if i < 85 {
                                    if i < 84 {
                                        "America/Bogota"
                                    } else {
                                        "America/Boise"
                                    }
                                } else {
                                    if i < 86 {
                                        "America/Buenos_Aires"
                                    } else {
                                        "America/Cambridge_Bay"
                                    }
                                }
                            } else {
                                if i < 89 {
                                    if i < 88 {
                                        "America/Campo_Grande"
                                    } else {
                                        "America/Cancun"
                                    }
                                } else {
                                    if i < 90 {
                                        "America/Caracas"
                                    } else {
                                        if i < 91 {
                                            "America/Catamarca"
                                        } else {
                                            "America/Cayenne"
                                        }
                                    }
                                }
                            }
                        }
                    } else {
                        if i < 101 {
                            if i < 96 {
                                if i < 94 {
                                    if i < 93 {
                                        "America/Cayman"
                                    } else {
                                        "America/Chicago"
                                    }
                                } else {
                                    if i < 95 {
                                        "America/Chihuahua"
                                    } else {
                                        "America/Ciudad_Juarez"
                                    }
                                }
                            } else {
                                if i < 98 {
                                    if i < 97 {
                                        "America/Coral_Harbour"
                                    } else {
                                        "America/Cordoba"
                                    }
                                } else {
                                    if i < 99 {
                                        "America/Costa_Rica"
                                    } else {
                                        if i < 100 {
                                            "America/Coyhaique"
                                        } else {
                                            "America/Creston"
                                        }
                                    }
                                }
                            }
                        } else {
                            if i < 106 {
                                if i < 103 {
                                    if i < 102 {
                                        "America/Cuiaba"
                                    } else {
                                        "America/Curacao"
                                    }
                                } else {
                                    if i < 104 {
                                        "America/Danmarkshavn"
                                    } else {
                                        if i < 105 {
                                            "America/Dawson"
                                        } else {
                                            "America/Dawson_Creek"
                                        }
                                    }
                                }
                            } else {
                                if i < 108 {
                                    if i < 107 {
                                        "America/Denver"
                                    } else {
                                        "America/Detroit"
                                    }
                                } else {
                                    if i < 109 {
                                        "America/Dominica"
                                    } else {
                                        if i < 110 {
                                            "America/Edmonton"
                                        } else {
                                            "America/Eirunepe"
                                        }
                                    }
                                }
                            }
                        }
                    }
                } else {
                    if i < 130 {
                        if i < 120 {
                            if i < 115 {
                                if i < 113 {
                                    if i < 112 {
                                        "America/El_Salvador"
                                    } else {
                                        "America/Ensenada"
                                    }
                                } else {
                                    if i < 114 {
                                        "America/Fort_Nelson"
                                    } else {
                                        "America/Fort_Wayne"
                                    }
                                }
                            } else {
                                if i < 117 {
                                    if i < 116 {
                                        "America/Fortaleza"
                                    } else {
                                        "America/Glace_Bay"
                                    }
                                } else {
                                    if i < 118 {
                                        "America/Godthab"
                                    } else {
                                        if i < 119 {
                                            "America/Goose_Bay"
                                        } else {
                                            "America/Grand_Turk"
                                        }
                                    }
                                }
                            }
                        } else {
                            if i < 125 {
                                if i < 122 {
                                    if i < 121 {
                                        "America/Grenada"
                                    } else {
                                        "America/Guadeloupe"
                                    }
                                } else {
                                    if i < 123 {
                                        "America/Guatemala"
                                    } else {
                                        if i < 124 {
                                            "America/Guayaquil"
                                        } else {
                                            "America/Guyana"
                                        }
                                    }
                                }
                            } else {
                                if i < 127 {
                                    if i < 126 {
                                        "America/Halifax"
                                    } else {
                                        "America/Havana"
                                    }
                                } else {
                                    if i < 128 {
                                        "America/Hermosillo"
                                    } else {
                                        if i < 129 {
                                            "America/Indiana/Indianapolis"
                                        } else {
                                            "America/Indiana/Knox"
                                        }
                                    }
                                }
                            }
                        }
                    } else {
                        if i < 139 {
                            if i < 134 {
                                if i < 132 {
                                    if i < 131 {
                                        "America/Indiana/Marengo"
                                    } else {
                                        "America/Indiana/Petersburg"
                                    }
                                } else {
                                    if i < 133 {
                                        "America/Indiana/Tell_City"
                                    } else {
                                        "America/Indiana/Vevay"
                                    }
                                }
                            } else {
                                if i < 136 {
                                    if i < 135 {
                                        "America/Indiana/Vincennes"
                                    } else {
                                        "America/Indiana/Winamac"
                                    }
                                } else {
                                    if i < 137 {
                                        "America/Indianapolis"
                                    } else {
                                        if i < 138 {
                                            "America/Inuvik"
                                        } else {
                                            "America/Iqaluit"
                                        }
                                    }
                                }
                            }
                        } else {
                            if i < 144 {
                                if i < 141 {
                                    if i < 140 {
                                        "America/Jamaica"
                                    } else {
                                        "America/Jujuy"
                                    }
                                } else {
                                    if i < 142 {
                                        "America/Juneau"
                                    } else {
                                        if i < 143 {
                                            "America/Kentucky/Louisville"
                                        } else {
                                            "America/Kentucky/Monticello"
                                        }
                                    }
                                }
                            } else {
                                if i < 146 {
                                    if i < 145 {
                                        "America/Knox_IN"
                                    } else {
                                        "America/Kralendijk"
                                    }
                                } else {
                                    if i < 147 {
                                        "America/La_Paz"
                                    } else {
                                        if i < 148 {
                                            "America/Lima"
                                        } else {
                                            "America/Los_Angeles"
                                        }
                                    }
                                }
                            }
                        }
                    }
                }
            }
        } else {
            if i < 223 {
                if i < 186 {
                    if i < 167 {
                        if i < 158 {
                            if i < 153 {
                                if i < 151 {
                                    if i < 150 {
                                        "America/Louisville"
                                    } else {
                                        "America/Lower_Princes"
                                    }
                                } else {
                                    if i < 152 {
                                        "America/Maceio"
                                    } else {
                                        "America/Managua"
                                    }
                                }
                            } else {
                                if i < 155 {
                                    if i < 154 {
                                        "America/Manaus"
                                    } else {
                                        "America/Marigot"
                                    }
                                } else {
                                    if i < 156 {
                                        "America/Martinique"
                                    } else {
                                        if i < 157 {
                                            "America/Matamoros"
                                        } else {
                                            "America/Mazatlan"
                                        }
                                    }
                                }
                            }
                        } else {
                            if i < 162 {
                                if i < 160 {
                                    if i < 159 {
                                        "America/Mendoza"
                                    } else {
                                        "America/Menominee"
                                    }
                                } else {
                                    if i < 161 {
                                        "America/Merida"
                                    } else {
                                        "America/Metlakatla"
                                    }
                                }
                            } else {
                                if i < 164 {
                                    if i < 163 {
                                        "America/Mexico_City"
                                    } else {
                                        "America/Miquelon"
                                    }
                                } else {
                                    if i < 165 {
                                        "America/Moncton"
                                    } else {
                                        if i < 166 {
                                            "America/Monterrey"
                                        } else {
                                            "America/Montevideo"
                                        }
                                    }
                                }
                            }
                        }
                    } else {
                        if i < 176 {
                            if i < 171 {
                                if i < 169 {
                                    if i < 168 {
                                        "America/Montreal"
                                    } else {
                                        "America/Montserrat"
                                    }
                                } else {
                                    if i < 170 {
                                        "America/Nassau"
                                    } else {
                                        "America/New_York"
                                    }
                                }
                            } else {
                                if i < 173 {
                                    if i < 172 {
                                        "America/Nipigon"
                                    } else {
                                        "America/Nome"
                                    }
                                } else {
                                    if i < 174 {
                                        "America/Noronha"
                                    } else {
                                        if i < 175 {
                                            "America/North_Dakota/Beulah"
                                        } else {
                                            "America/North_Dakota/Center"
                                        }
                                    }
                                }
                            }
                        } else {
                            if i < 181 {
                                if i < 178 {
                                    if i < 177 {
                                        "America/North_Dakota/New_Salem"
                                    } else {
                                        "America/Nuuk"
                                    }
                                } else {
                                    if i < 179 {
                                        "America/Ojinaga"
                                    } else {
                                        if i < 180 {
                                            "America/Panama"
                                        } else {
                                            "America/Pangnirtung"
                                        }
                                    }
                                }
                            } else {
                                if i < 183 {
                                    if i < 182 {
                                        "America/Paramaribo"
                                    } else {
                                        "America/Phoenix"
                                    }
                                } else {
                                    if i < 184 {
                                        "America/Port-au-Prince"
                                    } else {
                                        if i < 185 {
                                            "America/Port_of_Spain"
                                        } else {
                                            "America/Porto_Acre"
                                        }
                                    }
                                }
                            }
                        }
                    }
                } else {
                    if i < 204 {
                        if i < 195 {
                            if i < 190 {
                                if i < 188 {
                                    if i < 187 {
                                        "America/Porto_Velho"
                                    } else {
                                        "America/Puerto_Rico"
                                    }
                                } else {
                                    if i < 189 {
                                        "America/Punta_Arenas"
                                    } else {
                                        "America/Rainy_River"
                                    }
                                }
                            } else {
                                if i < 192 {
                                    if i < 191 {
                                        "America/Rankin_Inlet"
                                    } else {
                                        "America/Recife"
                                    }
                                } else {
                                    if i < 193 {
                                        "America/Regina"
                                    } else {
                                        if i < 194 {
                                            "America/Resolute"
                                        } else {
                                            "America/Rio_Branco"
                                        }
                                    }
                                }
                            }
                        } else {
                            if i < 199 {
                                if i < 197 {
                                    if i < 196 {
                                        "America/Rosario"
                                    } else {
                                        "America/Santa_Isabel"
                                    }
                                } else {
                                    if i < 198 {
                                        "America/Santarem"
                                    } else {
                                        "America/Santiago"
                                    }
                                }
                            } else {
                                if i < 201 {
                                    if i < 200 {
                                        "America/Santo_Domingo"
                                    } else {
                                        "America/Sao_Paulo"
                                    }
                                } else {
                                    if i < 202 {
                                        "America/Scoresbysund"
                                    } else {
                                        if i < 203 {
                                            "America/Shiprock"
                                        } else {
                                            "America/Sitka"
                                        }
                                    }
                                }
                            }
                        }
                    } else {
                        if i < 213 {
                            if i < 208 {
                                if i < 206 {
                                    if i < 205 {
                                        "America/St_Barthelemy"
                                    } else {
                                        "America/St_Johns"
                                    }
                                } else {
                                    if i < 207 {
                                        "America/St_Kitts"
                                    } else {
                                        "America/St_Lucia"
                                    }
                                }
                            } else {
                                if i < 210 {
                                    if i < 209 {
                                        "America/St_Thomas"
                                    } else {
                                        "America/St_Vincent"
                                    }
                                } else {
                                    if i < 211 {
                                        "America/Swift_Current"
                                    } else {
                                        if i < 212 {
                                            "America/Tegucigalpa"
                                        } else {
                                            "America/Thule"
                                        }
                                    }
                                }
                            }
                        } else {
                            if i < 218 {
                                if i < 215 {
                                    if i < 214 {
                                        "America/Thunder_Bay"
                                    } else {
                                        "America/Tijuana"
                                    }
                                } else {
                                    if i < 216 {
                                        "America/Toronto"
                                    } else {
                                        if i < 217 {
                                            "America/Tortola"
                                        } else {
                                            "America/Vancouver"
                                        }
                                    }
                                }
                            } else {
                                if i < 220 {
                                    if i < 219 {
                                        "America/Virgin"
                                    } else {
                                        "America/Whitehorse"
                                    }
                                } else {
                                    if i < 221 {
                                        "America/Winnipeg"
                                    } else {
                                        if i < 222 {
                                            "America/Yakutat"
                                        } else {
                                            "America/Yellowknife"
                                        }
                                    }
                                }
                            }
                        }
                    }
                }
            } else {
                if i < 260 {
                    if i < 241 {
                        if i < 232 {
                            if i < 227 {
                                if i < 225 {
                                    if i < 224 {
                                        "Antarctica/Casey"
                                    } else {
                                        "Antarctica/Davis"
                                    }
                                } else {
                                    if i < 226 {
                                        "Antarctica/DumontDUrville"
                                    } else {
                                        "Antarctica/Macquarie"
                                    }
                                }
                            } else {
                                if i < 229 {
                                    if i < 228 {
                                        "Antarctica/Mawson"
                                    } else {
                                        "Antarctica/McMurdo"
                                    }
                                } else {
                                    if i < 230 {
                                        "Antarctica/Palmer"
                                    } else {
                                        if i < 231 {
                                            "Antarctica/Rothera"
                                        } else {
                                            "Antarctica/South_Pole"
                                        }
                                    }
                                }
                            }
                        } else {
                            if i < 236 {
                                if i < 234 {
                                    if i < 233 {
                                        "Antarctica/Syowa"
                                    } else {
                                        "Antarctica/Troll"
                                    }
                                } else {
                                    if i < 235 {
                                        "Antarctica/Vostok"
                                    } else {
                                        "Arctic/Longyearbyen"
                                    }
                                }
                            } else {
                                if i < 238 {
                                    if i < 237 {
                                        "Asia/Aden"
                                    } else {
                                        "Asia/Almaty"
                                    }
                                } else {
                                    if i < 239 {
                                        "Asia/Amman"
                                    } else {
                                        if i < 240 {
                                            "Asia/Anadyr"
                                        } else {
                                            "Asia/Aqtau"
                                        }
                                    }
                                }
                            }
                        }
                    } else {
                        if i < 250 {
                            if i < 245 {
                                if i < 243 {
                                    if i < 242 {
                                        "Asia/Aqtobe"
                                    } else {
                                        "Asia/Ashgabat"
                                    }
                                } else {
                                    if i < 244 {
                                        "Asia/Ashkhabad"
                                    } else {
                                        "Asia/Atyrau"
                                    }
                                }
                            } else {
                                if i < 247 {
                                    if i < 246 {
                                        "Asia/Baghdad"
                                    } else {
                                        "Asia/Bahrain"
                                    }
                                } else {
                                    if i < 248 {
                                        "Asia/Baku"
                                    } else {
                                        if i < 249 {
                                            "Asia/Bangkok"
                                        } else {
                                            "Asia/Barnaul"
                                        }
                                    }
                                }
                            }
                        } else {
                            if i < 255 {
                                if i < 252 {
                                    if i < 251 {
                                        "Asia/Beirut"
                                    } else {
                                        "Asia/Bishkek"
                                    }
                                } else {
                                    if i < 253 {
                                        "Asia/Brunei"
                                    } else {
                                        if i < 254 {
                                            "Asia/Calcutta"
                                        } else {
                                            "Asia/Chita"
                                        }
                                    }
                                }
                            } else {
                                if i < 257 {
                                    if i < 256 {
                                        "Asia/Choibalsan"
                                    } else {
                                        "Asia/Chongqing"
                                    }
                                } else {
                                    if i < 258 {
                                        "Asia/Chungking"
                                    } else {
                                        if i < 259 {
                                            "Asia/Colombo"
                                        } else {
                                            "Asia/Dacca"
                                        }
                                    }
                                }
                            }
                        }
                    }
                } else {
                    if i < 279 {
                        if i < 269 {
                            if i < 264 {
                                if i < 262 {
                                    if i < 261 {
                                        "Asia/Damascus"
                                    } else {
                                        "Asia/Dhaka"
                                    }
                                } else {
                                    if i < 263 {
                                        "Asia/Dili"
                                    } else {
                                        "Asia/Dubai"
                                    }
                                }
                            } else {
                                if i < 266 {
                                    if i < 265 {
                                        "Asia/Dushanbe"
                                    } else {
                                        "Asia/Famagusta"
                                    }
                                } else {
                                    if i < 267 {
                                        "Asia/Gaza"
                                    } else {
                                        if i < 268 {
                                            "Asia/Harbin"
                                        } else {
                                            "Asia/Hebron"
                                        }
                                    }
                                }
                            }
                        } else {
                            if i < 274 {
                                if i < 271 {
                                    if i < 270 {
                                        "Asia/Ho_Chi_Minh"
                                    } else {
                                        "Asia/Hong_Kong"
                                    }
                                } else {
                                    if i < 272 {
                                        "Asia/Hovd"
                                    } else {
                                        if i < 273 {
                                            "Asia/Irkutsk"
                                        } else {
                                            "Asia/Istanbul"
                                        }
                                    }
                                }
                            } else {
                                if i < 276 {
                                    if i < 275 {
                                        "Asia/Jakarta"
                                    } else {
                                        "Asia/Jayapura"
                                    }
                                } else {
                                    if i < 277 {
                                        "Asia/Jerusalem"
                                    } else {
                                        if i < 278 {
                                            "Asia/Kabul"
                                        } else {
                                            "Asia/Kamchatka"
                                        }
                                    }
                                }
                            }
                        }
                    } else {
                        if i < 288 {
                            if i < 283 {
                                if i < 281 {
                                    if i < 280 {
                                        "Asia/Karachi"
                                    } else {
                                        "Asia/Kashgar"
                                    }
                                } else {
                                    if i < 282 {
                                        "Asia/Kathmandu"
                                    } else {
                                        "Asia/Katmandu"
                                    }
                                }
                            } else {
                                if i < 285 {
                                    if i < 284 {
                                        "Asia/Khandyga"
                                    } else {
                                        "Asia/Kolkata"
                                    }
                                } else {
                                    if i < 286 {
                                        "Asia/Krasnoyarsk"
                                    } else {
                                        if i < 287 {
                                            "Asia/Kuala_Lumpur"
                                        } else {
                                            "Asia/Kuching"
                                        }
                                    }
                                }
                            }
                        } else {
                            if i < 293 {
                                if i < 290 {
                                    if i < 289 {
                                        "Asia/Kuwait"
                                    } else {
                                        "Asia/Macao"
                                    }
                                } else {
                                    if i < 291 {
                                        "Asia/Macau"
                                    } else {
                                        if i < 292 {
                                            "Asia/Magadan"
                                        } else {
                                            "Asia/Makassar"
                                        }
                                    }
                                }
                            } else {
                                if i < 295 {
                                    if i < 294 {
                                        "Asia/Manila"
                                    } else {
                                        "Asia/Muscat"
                                    }
                                } else {
                                    if i < 296 {
                                        "Asia/Nicosia"
                                    } else {
                                        if i < 297 {
                                            "Asia/Novokuznetsk"
                                        } else {
                                            "Asia/Novosibirsk"
                                        }
                                    }
                                }
                            }
                        }
                    }
                }
            }
        }
    } else {
        if i < 447 {
            if i < 372 {
                if i < 335 {
                    if i < 316 {
                        if i < 307 {
                            if i < 302 {
                                if i < 300 {
                                    if i < 299 {
                                        "Asia/Omsk"
                                    } else {
                                        "Asia/Oral"
                                    }
                                } else {
                                    if i < 301 {
                                        "Asia/Phnom_Penh"
                                    } else {
                                        "Asia/Pontianak"
                                    }
                                }
                            } else {
                                if i < 304 {
                                    if i < 303 {
                                        "Asia/Pyongyang"
                                    } else {
                                        "Asia/Qatar"
                                    }
                                } else {
                                    if i < 305 {
                                        "Asia/Qostanay"
                                    } else {
                                        if i < 306 {
                                            "Asia/Qyzylorda"
                                        } else {
                                            "Asia/Rangoon"
                                        }
                                    }
                                }
                            }
                        } else {
                            if i < 311 {
                                if i < 309 {
                                    if i < 308 {
                                        "Asia/Riyadh"
                                    } else {
                                        "Asia/Saigon"
                                    }
                                } else {
                                    if i < 310 {
                                        "Asia/Sakhalin"
                                    } else {
                                        "Asia/Samarkand"
                                    }
                                }
                            } else {
                                if i < 313 {
                                    if i < 312 {
                                        "Asia/Seoul"
                                    } else {
                                        "Asia/Shanghai"
                                    }
                                } else {
                                    if i < 314 {
                                        "Asia/Singapore"
                                    } else {
                                        if i < 315 {
                                            "Asia/Srednekolymsk"
                                        } else {
                                            "Asia/Taipei"
                                        }
                                    }
                                }
                            }
                        }
                    } else {
                        if i < 325 {
                            if i < 320 {
                                if i < 318 {
                                    if i < 317 {
                                        "Asia/Tashkent"
                                    } else {
                                        "Asia/Tbilisi"
                                    }
                                } else {
                                    if i < 319 {
                                        "Asia/Tehran"
                                    } else {
                                        "Asia/Tel_Aviv"
                                    }
                                }
                            } else {
                                if i < 322 {
                                    if i < 321 {
                                        "Asia/Thimbu"
                                    } else {
                                        "Asia/Thimphu"
                                    }
                                } else {
                                    if i < 323 {
                                        "Asia/Tokyo"
                                    } else {
                                        if i < 324 {
                                            "Asia/Tomsk"
                                        } else {
                                            "Asia/Ujung_Pandang"
                                        }
                                    }
                                }
                            }
                        } else {
                            if i < 330 {
                                if i < 327 {
                                    if i < 326 {
                                        "Asia/Ulaanbaatar"
                                    } else {
                                        "Asia/Ulan_Bator"
                                    }
                                } else {
                                    if i < 328 {
                                        "Asia/Urumqi"
                                    } else {
                                        if i < 329 {
                                            "Asia/Ust-Nera"
                                        } else {
                                            "Asia/Vientiane"
                                        }
                                    }
                                }
                            } else {
                                if i < 332 {
                                    if i < 331 {
                                        "Asia/Vladivostok"
                                    } else {
                                        "Asia/Yakutsk"
                                    }
                                } else {
                                    if i < 333 {
                                        "Asia/Yangon"
                                    } else {
                                        if i < 334 {
                                            "Asia/Yekaterinburg"
                                        } else {
                                            "Asia/Yerevan"
                                        }
                                    }
                                }
                            }
                        }
                    }
                } else {
                    if i < 353 {
                        if i < 344 {
                            if i < 339 {
                                if i < 337 {
                                    if i < 336 {
                                        "Atlantic/Azores"
                                    } else {
                                        "Atlantic/Bermuda"
                                    }
                                } else {
                                    if i < 338 {
                                        "Atlantic/Canary"
                                    } else {
                                        "Atlantic/Cape_Verde"
                                    }
                                }
                            } else {
                                if i < 341 {
                                    if i < 340 {
                                        "Atlantic/Faeroe"
                                    } else {
                                        "Atlantic/Faroe"
                                    }
                                } else {
                                    if i < 342 {
                                        "Atlantic/Jan_Mayen"
                                    } else {
                                        if i < 343 {
                                            "Atlantic/Madeira"
                                        } else {
                                            "Atlantic/Reykjavik"
                                        }
                                    }
                                }
                            }
                        } else {
                            if i < 348 {
                                if i < 346 {
                                    if i < 345 {
                                        "Atlantic/South_Georgia"
                                    } else {
                                        "Atlantic/St_Helena"
                                    }
                                } else {
                                    if i < 347 {
                                        "Atlantic/Stanley"
                                    } else {
                                        "Australia/ACT"
                                    }
                                }
                            } else {
                                if i < 350 {
                                    if i < 349 {
                                        "Australia/Adelaide"
                                    } else {
                                        "Australia/Brisbane"
                                    }
                                } else {
                                    if i < 351 {
                                        "Australia/Broken_Hill"
                                    } else {
                                        if i < 352 {
                                            "Australia/Canberra"
                                        } else {
                                            "Australia/Currie"
                                        }
                                    }
                                }
                            }
                        }
                    } else {
                        if i < 362 {
                            if i < 357 {
                                if i < 355 {
                                    if i < 354 {
                                        "Australia/Darwin"
                                    } else {
                                        "Australia/Eucla"
                                    }
                                } else {
                                    if i < 356 {
                                        "Australia/Hobart"
                                    } else {
                                        "Australia/LHI"
                                    }
                                }
                            } else {
                                if i < 359 {
                                    if i < 358 {
                                        "Australia/Lindeman"
                                    } else {
                                        "Australia/Lord_Howe"
                                    }
                                } else {
                                    if i < 360 {
                                        "Australia/Melbourne"
                                    } else {
                                        if i < 361 {
                                            "Australia/NSW"
                                        } else {
                                            "Australia/North"
                                        }
                                    }
                                }
                            }
                        } else {
                            if i < 367 {
                                if i < 364 {
                                    if i < 363 {
                                        "Australia/Perth"
                                    } else {
                                        "Australia/Queensland"
                                    }
                                } else {
                                    if i < 365 {
                                        "Australia/South"
                                    } else {
                                        if i < 366 {
                                            "Australia/Sydney"
                                        } else {
                                            "Australia/Tasmania"
                                        }
                                    }
                                }
                            } else {
                                if i < 369 {
                                    if i < 368 {
                                        "Australia/Victoria"
                                    } else {
                                        "Australia/West"
                                    }
                                } else {
                                    if i < 370 {
                                        "Australia/Yancowinna"
                                    } else {
                                        if i < 371 {
                                            "Brazil/Acre"
                                        } else {
                                            "Brazil/DeNoronha"
                                        }
                                    }
                                }
                            }
                        }
                    }
                }
            } else {
                if i < 409 {
                    if i < 390 {
                        if i < 381 {
                            if i < 376 {
                                if i < 374 {
                                    if i < 373 {
                                        "Brazil/East"
                                    } else {
                                        "Brazil/West"
                                    }
                                } else {
                                    if i < 375 {
                                        "CET"
                                    } else {
                                        "CST6CDT"
                                    }
                                }
                            } else {
                                if i < 378 {
                                    if i < 377 {
                                        "Canada/Atlantic"
                                    } else {
                                        "Canada/Central"
                                    }
                                } else {
                                    if i < 379 {
                                        "Canada/Eastern"
                                    } else {
                                        if i < 380 {
                                            "Canada/Mountain"
                                        } else {
                                            "Canada/Newfoundland"
                                        }
                                    }
                                }
                            }
                        } else {
                            if i < 385 {
                                if i < 383 {
                                    if i < 382 {
                                        "Canada/Pacific"
                                    } else {
                                        "Canada/Saskatchewan"
                                    }
                                } else {
                                    if i < 384 {
                                        "Canada/Yukon"
                                    } else {
                                        "Chile/Continental"
                                    }
                                }
                            } else {
                                if i < 387 {
                                    if i < 386 {
                                        "Chile/EasterIsland"
                                    } else {
                                        "Cuba"
                                    }
                                } else {
                                    if i < 388 {
                                        "EET"
                                    } else {
                                        if i < 389 {
                                            "EST"
                                        } else {
                                            "EST5EDT"
                                        }
                                    }
                                }
                            }
                        }
                    } else {
                        if i < 399 {
                            if i < 394 {
                                if i < 392 {
                                    if i < 391 {
                                        "Egypt"
                                    } else {
                                        "Eire"
                                    }
                                } else {
                                    if i < 393 {
                                        "Etc/GMT"
                                    } else {
                                        "Etc/GMT+0"
                                    }
                                }
                            } else {
                                if i < 396 {
                                    if i < 395 {
                                        "Etc/GMT+1"
                                    } else {
                                        "Etc/GMT+10"
                                    }
                                } else {
                                    if i < 397 {
                                        "Etc/GMT+11"
                                    } else {
                                        if i < 398 {
                                            "Etc/GMT+12"
                                        } else {
                                            "Etc/GMT+2"
                                        }
                                    }
                                }
                            }
                        } else {
                            if i < 404 {
                                if i < 401 {
                                    if i < 400 {
                                        "Etc/GMT+3"
                                    } else {
                                        "Etc/GMT+4"
                                    }
                                } else {
                                    if i < 402 {
                                        "Etc/GMT+5"
                                    } else {
                                        if i < 403 {
                                            "Etc/GMT+6"
                                        } else {
                                            "Etc/GMT+7"
                                        }
                                    }
                                }
                            } else {
                                if i < 406 {
                                    if i < 405 {
                                        "Etc/GMT+8"
                                    } else {
                                        "Etc/GMT+9"
                                    }
                                } else {
                                    if i < 407 {
                                        "Etc/GMT-0"
                                    } else {
                                        if i < 408 {
                                            "Etc/GMT-1"
                                        } else {
                                            "Etc/GMT-10"
                                        }
                                    }
                                }
                            }
                        }
                    }
                } else {
                    if i < 428 {
                        if i < 418 {
                            if i < 413 {
                                if i < 411 {
                                    if i < 410 {
                                        "Etc/GMT-11"
                                    } else {
                                        "Etc/GMT-12"
                                    }
                                } else {
                                    if i < 412 {
                                        "Etc/GMT-13"
                                    } else {
                                        "Etc/GMT-14"
                                    }
                                }
                            } else {
                                if i < 415 {
                                    if i < 414 {
                                        "Etc/GMT-2"
                                    } else {
                                        "Etc/GMT-3"
                                    }
                                } else {
                                    if i < 416 {
                                        "Etc/GMT-4"
                                    } else {
                                        if i < 417 {
                                            "Etc/GMT-5"
                                        } else {
                                            "Etc/GMT-6"
                                        }
                                    }
                                }
                            }
                        } else {
                            if i < 423 {
                                if i < 420 {
                                    if i < 419 {
                                        "Etc/GMT-7"
                                    } else {
                                        "Etc/GMT-8"
                                    }
                                } else {
                                    if i < 421 {
                                        "Etc/GMT-9"
                                    } else {
                                        if i < 422 {
                                            "Etc/GMT0"
                                        } else {
                                            "Etc/Greenwich"
                                        }
                                    }
                                }
                            } else {
                                if i < 425 {
                                    if i < 424 {
                                        "Etc/UCT"
                                    } else {
                                        "Etc/UTC"
                                    }
                                } else {
                                    if i < 426 {
                                        "Etc/Universal"
                                    } else {
                                        if i < 427 {
                                            "Etc/Zulu"
                                        } else {
                                            "Europe/Amsterdam"
                                        }
                                    }
                                }
                            }
                        }
                    } else {
                        if i < 437 {
                            if i < 432 {
                                if i < 430 {
                                    if i < 429 {
                                        "Europe/Andorra"
                                    } else {
                                        "Europe/Astrakhan"
                                    }
                                } else {
                                    if i < 431 {
                                        "Europe/Athens"
                                    } else {
                                        "Europe/Belfast"
                                    }
                                }
                            } else {
                                if i < 434 {
                                    if i < 433 {
                                        "Europe/Belgrade"
                                    } else {
                                        "Europe/Berlin"
                                    }
                                } else {
                                    if i < 435 {
                                        "Europe/Bratislava"
                                    } else {
                                        if i < 436 {
                                            "Europe/Brussels"
                                        } else {
                                            "Europe/Bucharest"
                                        }
                                    }
                                }
                            }
                        } else {
                            if i < 442 {
                                if i < 439 {
                                    if i < 438 {
                                        "Europe/Budapest"
                                    } else {
                                        "Europe/Busingen"
                                    }
                                } else {
                                    if i < 440 {
                                        "Europe/Chisinau"
                                    } else {
                                        if i < 441 {
                                            "Europe/Copenhagen"
                                        } else {
                                            "Europe/Dublin"
                                        }
                                    }
                                }
                            } else {
                                if i < 444 {
                                    if i < 443 {
                                        "Europe/Gibraltar"
                                    } else {
                                        "Europe/Guernsey"
                                    }
                                } else {
                                    if i < 445 {
                                        "Europe/Helsinki"
                                    } else {
                                        if i < 446 {
                                            "Europe/Isle_of_Man"
                                        } else {
                                            "Europe/Istanbul"
                                        }
                                    }
                                }
                            }
                        }
                    }
                }
            }
        } else {
            if i < 522 {
                if i < 484 {
                    if i < 465 {
                        if i < 456 {
                            if i < 451 {
                                if i < 449 {
                                    if i < 448 {
                                        "Europe/Jersey"
                                    } else {
                                        "Europe/Kaliningrad"
                                    }
                                } else {
                                    if i < 450 {
                                        "Europe/Kiev"
                                    } else {
                                        "Europe/Kirov"
                                    }
                                }
                            } else {
                                if i < 453 {
                                    if i < 452 {
                                        "Europe/Kyiv"
                                    } else {
                                        "Europe/Lisbon"
                                    }
                                } else {
                                    if i < 454 {
                                        "Europe/Ljubljana"
                                    } else {
                                        if i < 455 {
                                            "Europe/London"
                                        } else {
                                            "Europe/Luxembourg"
                                        }
                                    }
                                }
                            }
                        } else {
                            if i < 460 {
                                if i < 458 {
                                    if i < 457 {
                                        "Europe/Madrid"
                                    } else {
                                        "Europe/Malta"
                                    }
                                } else {
                                    if i < 459 {
                                        "Europe/Mariehamn"
                                    } else {
                                        "Europe/Minsk"
                                    }
                                }
                            } else {
                                if i < 462 {
                                    if i < 461 {
                                        "Europe/Monaco"
                                    } else {
                                        "Europe/Moscow"
                                    }
                                } else {
                                    if i < 463 {
                                        "Europe/Nicosia"
                                    } else {
                                        if i < 464 {
                                            "Europe/Oslo"
                                        } else {
                                            "Europe/Paris"
                                        }
                                    }
                                }
                            }
                        }
                    } else {
                        if i < 474 {
                            if i < 469 {
                                if i < 467 {
                                    if i < 466 {
                                        "Europe/Podgorica"
                                    } else {
                                        "Europe/Prague"
                                    }
                                } else {
                                    if i < 468 {
                                        "Europe/Riga"
                                    } else {
                                        "Europe/Rome"
                                    }
                                }
                            } else {
                                if i < 471 {
                                    if i < 470 {
                                        "Europe/Samara"
                                    } else {
                                        "Europe/San_Marino"
                                    }
                                } else {
                                    if i < 472 {
                                        "Europe/Sarajevo"
                                    } else {
                                        if i < 473 {
                                            "Europe/Saratov"
                                        } else {
                                            "Europe/Simferopol"
                                        }
                                    }
                                }
                            }
                        } else {
                            if i < 479 {
                                if i < 476 {
                                    if i < 475 {
                                        "Europe/Skopje"
                                    } else {
                                        "Europe/Sofia"
                                    }
                                } else {
                                    if i < 477 {
                                        "Europe/Stockholm"
                                    } else {
                                        if i < 478 {
                                            "Europe/Tallinn"
                                        } else {
                                            "Europe/Tirane"
                                        }
                                    }
                                }
                            } else {
                                if i < 481 {
                                    if i < 480 {
                                        "Europe/Tiraspol"
                                    } else {
                                        "Europe/Ulyanovsk"
                                    }
                                } else {
                                    if i < 482 {
                                        "Europe/Uzhgorod"
                                    } else {
                                        if i < 483 {
                                            "Europe/Vaduz"
                                        } else {
                                            "Europe/Vatican"
                                        }
                                    }
                                }
                            }
                        }
                    }
                } else {
                    if i < 503 {
                        if i < 493 {
                            if i < 488 {
                                if i < 486 {
                                    if i < 485 {
                                        "Europe/Vienna"
                                    } else {
                                        "Europe/Vilnius"
                                    }
                                } else {
                                    if i < 487 {
                                        "Europe/Volgograd"
                                    } else {
                                        "Europe/Warsaw"
                                    }
                                }
                            } else {
                                if i < 490 {
                                    if i < 489 {
                                        "Europe/Zagreb"
                                    } else {
                                        "Europe/Zaporozhye"
                                    }
                                } else {
                                    if i < 491 {
                                        "Europe/Zurich"
                                    } else {
                                        if i < 492 {
                                            "GB"
                                        } else {
                                            "GB-Eire"
                                        }
                                    }
                                }
                            }
                        } else {
                            if i < 498 {
                                if i < 495 {
                                    if i < 494 {
                                        "GMT"
                                    } else {
                                        "GMT+0"
                                    }
                                } else {
                                    if i < 496 {
                                        "GMT-0"
                                    } else {
                                        if i < 497 {
                                            "GMT0"
                                        } else {
                                            "Greenwich"
                                        }
                                    }
                                }
                            } else {
                                if i < 500 {
                                    if i < 499 {
                                        "HST"
                                    } else {
                                        "Hongkong"
                                    }
                                } else {
                                    if i < 501 {
                                        "Iceland"
                                    } else {
                                        if i < 502 {
                                            "Indian/Antananarivo"
                                        } else {
                                            "Indian/Chagos"
                                        }
                                    }
                                }
                            }
                        }
                    } else {
                        if i < 512 {
                            if i < 507 {
                                if i < 505 {
                                    if i < 504 {
                                        "Indian/Christmas"
                                    } else {
                                        "Indian/Cocos"
                                    }
                                } else {
                                    if i < 506 {
                                        "Indian/Comoro"
                                    } else {
                                        "Indian/Kerguelen"
                                    }
                                }
                            } else {
                                if i < 509 {
                                    if i < 508 {
                                        "Indian/Mahe"
                                    } else {
                                        "Indian/Maldives"
                                    }
                                } else {
                                    if i < 510 {
                                        "Indian/Mauritius"
                                    } else {
                                        if i < 511 {
                                            "Indian/Mayotte"
                                        } else {
                                            "Indian/Reunion"
                                        }
                                    }
                                }
                            }
                        } else {
                            if i < 517 {
                                if i < 514 {
                                    if i < 513 {
                                        "Iran"
                                    } else {
                                        "Israel"
                                    }
                                } else {
                                    if i < 515 {
                                        "Jamaica"
                                    } else {
                                        if i < 516 {
                                            "Japan"
                                        } else {
                                            "Kwajalein"
                                        }
                                    }
                                }
                            } else {
                                if i < 519 {
                                    if i < 518 {
                                        "Libya"
                                    } else {
                                        "MET"
                                    }
                                } else {
                                    if i < 520 {
                                        "MST"
                                    } else {
                                        if i < 521 {
                                            "MST7MDT"
                                        } else {
                                            "Mexico/BajaNorte"
                                        }
                                    }
                                }
                            }
                        }
                    }
                }
            } else {
                if i < 559 {
                    if i < 540 {
                        if i < 531 {
                            if i < 526 {
                                if i < 524 {
                                    if i < 523 {
                                        "Mexico/BajaSur"
                                    } else {
                                        "Mexico/General"
                                    }
                                } else {
                                    if i < 525 {
                                        "NZ"
                                    } else {
                                        "NZ-CHAT"
                                    }
                                }
                            } else {
                                if i < 528 {
                                    if i < 527 {
                                        "Navajo"
                                    } else {
                                        "PRC"
                                    }
                                } else {
                                    if i < 529 {
                                        "PST8PDT"
                                    } else {
                                        if i < 530 {
                                            "Pacific/Apia"
                                        } else {
                                            "Pacific/Auckland"
                                        }
                                    }
                                }
                            }
                        } else {
                            if i < 535 {
                                if i < 533 {
                                    if i < 532 {
                                        "Pacific/Bougainville"
                                    } else {
                                        "Pacific/Chatham"
                                    }
                                } else {
                                    if i < 534 {
                                        "Pacific/Chuuk"
                                    } else {
                                        "Pacific/Easter"
                                    }
                                }
                            } else {
                                if i < 537 {
                                    if i < 536 {
                                        "Pacific/Efate"
                                    } else {
                                        "Pacific/Enderbury"
                                    }
                                } else {
                                    if i < 538 {
                                        "Pacific/Fakaofo"
                                    } else {
                                        if i < 539 {
                                            "Pacific/Fiji"
                                        } else {
                                            "Pacific/Funafuti"
                                        }
                                    }
                                }
                            }
                        }
                    } else {
                        if i < 549 {
                            if i < 544 {
                                if i < 542 {
                                    if i < 541 {
                                        "Pacific/Galapagos"
                                    } else {
                                        "Pacific/Gambier"
                                    }
                                } else {
                                    if i < 543 {
                                        "Pacific/Guadalcanal"
                                    } else {
                                        "Pacific/Guam"
                                    }
                                }
                            } else {
                                if i < 546 {
                                    if i < 545 {
                                        "Pacific/Honolulu"
                                    } else {
                                        "Pacific/Johnston"
                                    }
                                } else {
                                    if i < 547 {
                                        "Pacific/Kanton"
                                    } else {
                                        if i < 548 {
                                            "Pacific/Kiritimati"
                                        } else {
                                            "Pacific/Kosrae"
                                        }
                                    }
                                }
                            }
                        } else {
                            if i < 554 {
                                if i < 551 {
                                    if i < 550 {
                                        "Pacific/Kwajalein"
                                    } else {
                                        "Pacific/Majuro"
                                    }
                                } else {
                                    if i < 552 {
                                        "Pacific/Marquesas"
                                    } else {
                                        if i < 553 {
                                            "Pacific/Midway"
                                        } else {
                                            "Pacific/Nauru"
                                        }
                                    }
                                }
                            } else {
                                if i < 556 {
                                    if i < 555 {
                                        "Pacific/Niue"
                                    } else {
                                        "Pacific/Norfolk"
                                    }
                                } else {
                                    if i < 557 {
                                        "Pacific/Noumea"
                                    } else {
                                        if i < 558 {
                                            "Pacific/Pago_Pago"
                                        } else {
                                            "Pacific/Palau"
                                        }
                                    }
                                }
                            }
                        }
                    }
                } else {
                    if i < 578 {
                        if i < 568 {
                            if i < 563 {
                                if i < 561 {
                                    if i < 560 {
                                        "Pacific/Pitcairn"
                                    } else {
                                        "Pacific/Pohnpei"
                                    }
                                } else {
                                    if i < 562 {
                                        "Pacific/Ponape"
                                    } else {
                                        "Pacific/Port_Moresby"
                                    }
                                }
                            } else {
                                if i < 565 {
                                    if i < 564 {
                                        "Pacific/Rarotonga"
                                    } else {
                                        "Pacific/Saipan"
                                    }
                                } else {
                                    if i < 566 {
                                        "Pacific/Samoa"
                                    } else {
                                        if i < 567 {
                                            "Pacific/Tahiti"
                                        } else {
                                            "Pacific/Tarawa"
                                        }
                                    }
                                }
                            }
                        } else {
                            if i < 573 {
                                if i < 570 {
                                    if i < 569 {
                                        "Pacific/Tongatapu"
                                    } else {
                                        "Pacific/Truk"
                                    }
                                } else {
                                    if i < 571 {
                                        "Pacific/Wake"
                                    } else {
                                        if i < 572 {
                                            "Pacific/Wallis"
                                        } else {
                                            "Pacific/Yap"
                                        }
                                    }
                                }
                            } else {
                                if i < 575 {
                                    if i < 574 {
                                        "Poland"
                                    } else {
                                        "Portugal"
                                    }
                                } else {
                                    if i < 576 {
                                        "ROC"
                                    } else {
                                        if i < 577 {
                                            "ROK"
                                        } else {
                                            "Singapore"
                                        }
                                    }
                                }
                            }
                        }
                    } else {
                        if i < 587 {
                            if i < 582 {
                                if i < 580 {
                                    if i < 579 {
                                        "Turkey"
                                    } else {
                                        "UCT"
                                    }
                                } else {
                                    if i < 581 {
                                        "US/Alaska"
                                    } else {
                                        "US/Aleutian"
                                    }
                                }
                            } else {
                                if i < 584 {
                                    if i < 583 {
                                        "US/Arizona"
                                    } else {
                                        "US/Central"
                                    }
                                } else {
                                    if i < 585 {
                                        "US/East-Indiana"
                                    } else {
                                        if i < 586 {
                                            "US/Eastern"
                                        } else {
                                            "US/Hawaii"
                                        }
                                    }
                                }
                            }
                        } else {
                            if i < 592 {
                                if i < 589 {
                                    if i < 588 {
                                        "US/Indiana-Starke"
                                    } else {
                                        "US/Michigan"
                                    }
                                } else {
                                    if i < 590 {
                                        "US/Mountain"
                                    } else {
                                        if i < 591 {
                                            "US/Pacific"
                                        } else {
                                            "US/Samoa"
                                        }
                                    }
                                }
                            } else {
                                if i < 594 {
                                    if i < 593 {
                                        "UTC"
                                    } else {
                                        "Universal"
                                    }
                                } else {
                                    if i < 595 {
                                        "W-SU"
                                    } else {
                                        if i < 596 {
                                            "WET"
                                        } else {
                                            "Zulu"
                                        }
                                    }
                                }
                            }
                        }
                    }
                }
            }
        }
    }
}

/// Zone `i`.
pub fn zone(i: usize) -> (r: Tz)
    requires
        i < ZONE_COUNT,
    ensures
        r.wf(),
        r.zone_name() == names()[i as int],
        r.table() == table_at(i as int),
{
    if i < 298 {
        if i < 149 {
            if i < 74 {
                if i < 37 {
                    if i < 18 {
                        if i < 9 {
                            if i < 4 {
                                if i < 2 {
                                    if i < 1 {
                                        db::africa::abidjan()
                                    } else {
                                        db::africa::accra()
                                    }
                                } else {
                                    if i < 3 {
                                        db::africa::addis_ababa()
                                    } else {
                                        db::africa::algiers()
                                    }
                                }
                            } else {
                                if i < 6 {
                                    if i < 5 {
                                        db::africa::asmara()
                                    } else {
                                        db::africa::asmera()
                                    }
                                } else {
                                    if i < 7 {
                                        db::africa::bamako()
                                    } else {
                                        if i < 8 {
                                            db::africa::bangui()
                                        } else {
                                            db::africa::banjul()
                                        }
                                    }
                                }
                            }
                        } else {
                            if i < 13 {
                                if i < 11 {
                                    if i < 10 {
                                        db::africa::bissau()
                                    } else {
                                        db::africa::blantyre()
                                    }
                                } else {
                                    if i < 12 {
                                        db::africa::brazzaville()
                                    } else {
                                        db::africa::bujumbura()
                                    }
                                }
                            } else {
                                if i < 15 {
                                    if i < 14 {
                                        db::africa::cairo()
                                    } else {
                                        db::africa::casablanca()
                                    }
                                } else {
                                    if i < 16 {
                                        db::africa::ceuta()
                                    } else {
                                        if i < 17 {
                                            db::africa::conakry()
                                        } else {
                                            db::africa::dakar()
                                        }
                                    }
                                }
                            }
                        }
                    } else {
                        if i < 27 {
                            if i < 22 {
                                if i < 20 {
                                    if i < 19 {
                                        db::africa::dar_es_salaam()
                                    } else {
                                        db::africa::djibouti()
                                    }
                                } else {
                                    if i < 21 {
                                        db::africa::douala()
                                    } else {
                                        db::africa::el_aaiun()
                                    }
                                }
                            } else {
                                if i < 24 {
                                    if i < 23 {
                                        db::africa::freetown()
                                    } else {
                                        db::africa::gaborone()
                                    }
                                } else {
                                    if i < 25 {
                                        db::africa::harare()
                                    } else {
                                        if i < 26 {
                                            db::africa::johannesburg()
                                        } else {
                                            db::africa::juba()
                                        }
                                    }
                                }
                            }
                        } else {
                            if i < 32 {
                                if i < 29 {
                                    if i < 28 {
                                        db::africa::kampala()
                                    } else {
                                        db::africa::khartoum()
                                    }
                                } else {
                                    if i < 30 {
                                        db::africa::kigali()
                                    } else {
                                        if i < 31 {
                                            db::africa::kinshasa()
                                        } else {
                                            db::africa::lagos()
                                        }
                                    }
                                }
                            } else {
                                if i < 34 {
                                    if i < 33 {
                                        db::africa::libreville()
                                    } else {
                                        db::africa::lome()
                                    }
                                } else {
                                    if i < 35 {
                                        db::africa::luanda()
                                    } else {
                                        if i < 36 {
                                            db::africa::lubumbashi()
                                        } else {
                                            db::africa::lusaka()
                                        }
                                    }
                                }
                            }
                        }
                    }
                } else {
                    if i < 55 {
                        if i < 46 {
                            if i < 41 {
                                if i < 39 {
                                    if i < 38 {
                                        db::africa::malabo()
                                    } else {
                                        db::africa::maputo()
                                    }
                                } else {
                                    if i < 40 {
                                        db::africa::maseru()
                                    } else {
                                        db::africa::mbabane()
                                    }
                                }
                            } else {
                                if i < 43 {
                                    if i < 42 {
                                        db::africa::mogadishu()
                                    } else {
                                        db::africa::monrovia()
                                    }
                                } else {
                                    if i < 44 {
                                        db::africa::nairobi()
                                    } else {
                                        if i < 45 {
                                            db::africa::ndjamena()
                                        } else {
                                            db::africa::niamey()
                                        }
                                    }
                                }
                            }
                        } else {
                            if i < 50 {
                                if i < 48 {
                                    if i < 47 {
                                        db::africa::nouakchott()
                                    } else {
                                        db::africa::ouagadougou()
                                    }
                                } else {
                                    if i < 49 {
                                        db::africa::porto_novo()
                                    } else {
                                        db::africa::sao_tome()
                                    }
                                }
                            } else {
                                if i < 52 {
                                    if i < 51 {
                                        db::africa::timbuktu()
                                    } else {
                                        db::africa::tripoli()
                                    }
                                } else {
                                    if i < 53 {
                                        db::africa::tunis()
                                    } else {
                                        if i < 54 {
                                            db::africa::windhoek()
                                        } else {
                                            db::america::adak()
                                        }
                                    }
                                }
                            }
                        }
                    } else {
                        if i < 64 {
                            if i < 59 {
                                if i < 57 {
                                    if i < 56 {
                                        db::america::anchorage()
                                    } else {
                                        db::america::anguilla()
                                    }
                                } else {
                                    if i < 58 {
                                        db::america::antigua()
                                    } else {
                                        db::america::araguaina()
                                    }
                                }
                            } else {
                                if i < 61 {
                                    if i < 60 {
                                        db::america::argentina_buenos_aires()
                                    } else {
                                        db::america::argentina_catamarca()
                                    }
                                } else {
                                    if i < 62 {
                                        db::america::argentina_comodrivadavia()
                                    } else {
                                        if i < 63 {
                                            db::america::argentina_cordoba()
                                        } else {
                                            db::america::argentina_jujuy()
                                        }
                                    }
                                }
                            }
                        } else {
                            if i < 69 {
                                if i < 66 {
                                    if i < 65 {
                                        db::america::argentina_la_rioja()
                                    } else {
                                        db::america::argentina_mendoza()
                                    }
                                } else {
                                    if i < 67 {
                                        db::america::argentina_rio_gallegos()
                                    } else {
                                        if i < 68 {
                                            db::america::argentina_salta()
                                        } else {
                                            db::america::argentina_san_juan()
                                        }
                                    }
                                }
                            } else {
                                if i < 71 {
                                    if i < 70 {
                                        db::america::argentina_san_luis()
                                    } else {
                                        db::america::argentina_tucuman()
                                    }
                                } else {
                                    if i < 72 {
                                        db::america::argentina_ushuaia()
                                    } else {
                                        if i < 73 {
                                            db::america::aruba()
                                        } else {
                                            db::america::asuncion()
                                        }
                                    }
                                }
                            }
                        }
                    }
                }
            } else {
                if i < 111 {
                    if i < 92 {
                        if i < 83 {
                            if i < 78 {
                                if i < 76 {
                                    if i < 75 {
                                        db::america::atikokan()
                                    } else {
                                        db::america::atka()
                                    }
                                } else {
                                    if i < 77 {
                                        db::america::bahia()
                                    } else {
                                        db::america::bahia_banderas()
                                    }
                                }
                            } else {
                                if i < 80 {
                                    if i < 79 {
                                        db::america::barbados()
                                    } else {
                                        db::america::belem()
                                    }
                                } else {
                                    if i < 81 {
                                        db::america::belize()
                                    } else {
                                        if i < 82 {
                                            db::america::blanc_sablon()
                                        } else {
                                            db::america::boa_vista()
                                        }
                                    }
                                }
                            }
                        } else {
                            if i < 87 {
                                if i < 85 {
                                    if i < 84 {
                                        db::america::bogota()
                                    } else {
                                        db::america::boise()
                                    }
                                } else {
                                    if i < 86 {
                                        db::america::buenos_aires()
                                    } else {
                                        db::america::cambridge_bay()
                                    }
                                }
                            } else {
                                if i < 89 {
                                    if i < 88 {
                                        db::america::campo_grande()
                                    } else {
                                        db::america::cancun()
                                    }
                                } else {
                                    if i < 90 {
                                        db::america::caracas()
                                    } else {
                                        if i < 91 {
                                            db::america::catamarca()
                                        } else {
                                            db::america::cayenne()
                                        }
                                    }
                                }
                            }
                        }
                    } else {
                        if i < 101 {
                            if i < 96 {
                                if i < 94 {
                                    if i < 93 {
                                        db::america::cayman()
                                    } else {
                                        db::america::chicago()
                                    }
                                } else {
                                    if i < 95 {
                                        db::america::chihuahua()
                                    } else {
                                        db::america::ciudad_juarez()
                                    }
                                }
                            } else {
                                if i < 98 {
                                    if i < 97 {
                                        db::america::coral_harbour()
                                    } else {
                                        db::america::cordoba()
                                    }
                                } else {
                                    if i < 99 {
                                        db::america::costa_rica()
                                    } else {
                                        if i < 100 {
                                            db::america::coyhaique()
                                        } else {
                                            db::america::creston()
                                        }
                                    }
                                }
                            }
                        } else {
                            if i < 106 {
                                if i < 103 {
                                    if i < 102 {
                                        db::america::cuiaba()
                                    } else {
                                        db::america::curacao()
                                    }
                                } else {
                                    if i < 104 {
                                        db::america::danmarkshavn()
                                    } else {
                                        if i < 105 {
                                            db::america::dawson()
                                        } else {
                                            db::america::dawson_creek()
                                        }
                                    }
                                }
                            } else {
                                if i < 108 {
                                    if i < 107 {
                                        db::america::denver()
                                    } else {
                                        db::america::detroit()
                                    }
                                } else {
                                    if i < 109 {
                                        db::america::dominica()
                                    } else {
                                        if i < 110 {
                                            db::america::edmonton()
                                        } else {
                                            db::america::eirunepe()
                                        }
                                    }
                                }
                            }
                        }
                    }
                } else {
                    if i < 130 {
                        if i < 120 {
                            if i < 115 {
                                if i < 113 {
                                    if i < 112 {
                                        db::america::el_salvador()
                                    } else {
                                        db::america::ensenada()
                                    }
                                } else {
                                    if i < 114 {
                                        db::america::fort_nelson()
                                    } else {
                                        db::america::fort_wayne()
                                    }
                                }
                            } else {
                                if i < 117 {
                                    if i < 116 {
                                        db::america::fortaleza()
                                    } else {
                                        db::america::glace_bay()
                                    }
                                } else {
                                    if i < 118 {
                                        db::america::godthab()
                                    } else {
                                        if i < 119 {
                                            db::america::goose_bay()
                                        } else {
                                            db::america::grand_turk()
                                        }
                                    }
                                }
                            }
                        } else {
                            if i < 125 {
                                if i < 122 {
                                    if i < 121 {
                                        db::america::grenada()
                                    } else {
                                        db::america::guadeloupe()
                                    }
                                } else {
                                    if i < 123 {
                                        db::america::guatemala()
                                    } else {
                                        if i < 124 {
                                            db::america::guayaquil()
                                        } else {
                                            db::america::guyana()
                                        }
                                    }
                                }
                            } else {
                                if i < 127 {
                                    if i < 126 {
                                        db::america::halifax()
                                    } else {
                                        db::america::havana()
                                    }
                                } else {
                                    if i < 128 {
                                        db::america::hermosillo()
                                    } else {
                                        if i < 129 {
                                            db::america::indiana_indianapolis()
                                        } else {
                                            db::america::indiana_knox()
                                        }
                                    }
                                }
                            }
                        }
                    } else {
                        if i < 139 {
                            if i < 134 {
                                if i < 132 {
                                    if i < 131 {
                                        db::america::indiana_marengo()
                                    } else {
                                        db::america::indiana_petersburg()
                                    }
                                } else {
                                    if i < 133 {
                                        db::america::indiana_tell_city()
                                    } else {
                                        db::america::indiana_vevay()
                                    }
                                }
                            } else {
                                if i < 136 {
                                    if i < 135 {
                                        db::america::indiana_vincennes()
                                    } else {
                                        db::america::indiana_winamac()
                                    }
                                } else {
                                    if i < 137 {
                                        db::america::indianapolis()
                                    } else {
                                        if i < 138 {
                                            db::america::inuvik()
                                        } else {
                                            db::america::iqaluit()
                                        }
                                    }
                                }
                            }
                        } else {
                            if i < 144 {
                                if i < 141 {
                                    if i < 140 {
                                        db::america::jamaica()
                                    } else {
                                        db::america::jujuy()
                                    }
                                } else {
                                    if i < 142 {
                                        db::america::juneau()
                                    } else {
                                        if i < 143 {
                                            db::america::kentucky_louisville()
                                        } else {
                                            db::america::kentucky_monticello()
                                        }
                                    }
                                }
                            } else {
                                if i < 146 {
                                    if i < 145 {
                                        db::america::knox_in()
                                    } else {
                                        db::america::kralendijk()
                                    }
                                } else {
                                    if i < 147 {
                                        db::america::la_paz()
                                    } else {
                                        if i < 148 {
                                            db::america::lima()
                                        } else {
                                            db::america::los_angeles()
                                        }
                                    }
                                }
                            }
                        }
                    }
                }
            }
        } else {
            if i < 223 {
                if i < 186 {
                    if i < 167 {
                        if i < 158 {
                            if i < 153 {
                                if i < 151 {
                                    if i < 150 {
                                        db::america::louisville()
                                    } else {
                                        db::america::lower_princes()
                                    }
                                } else {
                                    if i < 152 {
                                        db::america::maceio()
                                    } else {
                                        db::america::managua()
                                    }
                                }
                            } else {
                                if i < 155 {
                                    if i < 154 {
                                        db::america::manaus()
                                    } else {
                                        db::america::marigot()
                                    }
                                } else {
                                    if i < 156 {
                                        db::america::martinique()
                                    } else {
                                        if i < 157 {
                                            db::america::matamoros()
                                        } else {
                                            db::america::mazatlan()
                                        }
                                    }
                                }
                            }
                        } else {
                            if i < 162 {
                                if i < 160 {
                                    if i < 159 {
                                        db::america::mendoza()
                                    } else {
                                        db::america::menominee()
                                    }
                                } else {
                                    if i < 161 {
                                        db::america::merida()
                                    } else {
                                        db::america::metlakatla()
                                    }
                                }
                            } else {
                                if i < 164 {
                                    if i < 163 {
                                        db::america::mexico_city()
                                    } else {
                                        db::america::miquelon()
                                    }
                                } else {
                                    if i < 165 {
                                        db::america::moncton()
                                    } else {
                                        if i < 166 {
                                            db::america::monterrey()
                                        } else {
                                            db::america::montevideo()
                                        }
                                    }
                                }
                            }
                        }
                    } else {
                        if i < 176 {
                            if i < 171 {
                                if i < 169 {
                                    if i < 168 {
                                        db::america::montreal()
                                    } else {
                                        db::america::montserrat()
                                    }
                                } else {
                                    if i < 170 {
                                        db::america::nassau()
                                    } else {
                                        db::america::new_york()
                                    }
                                }
                            } else {
                                if i < 173 {
                                    if i < 172 {
                                        db::america::nipigon()
                                    } else {
                                        db::america::nome()
                                    }
                                } else {
                                    if i < 174 {
                                        db::america::noronha()
                                    } else {
                                        if i < 175 {
                                            db::america::north_dakota_beulah()
                                        } else {
                                            db::america::north_dakota_center()
                                        }
                                    }
                                }
                            }
                        } else {
                            if i < 181 {
                                if i < 178 {
                                    if i < 177 {
                                        db::america::north_dakota_new_salem()
                                    } else {
                                        db::america::nuuk()
                                    }
                                } else {
                                    if i < 179 {
                                        db::america::ojinaga()
                                    } else {
                                        if i < 180 {
                                            db::america::panama()
                                        } else {
                                            db::america::pangnirtung()
                                        }
                                    }
                                }
                            } else {
                                if i < 183 {
                                    if i < 182 {
                                        db::america::paramaribo()
                                    } else {
                                        db::america::phoenix()
                                    }
                                } else {
                                    if i < 184 {
                                        db::america::port_au_prince()
                                    } else {
                                        if i < 185 {
                                            db::america::port_of_spain()
                                        } else {
                                            db::america::porto_acre()
                                        }
                                    }
                                }
                            }
                        }
                    }
                } else {
                    if i < 204 {
                        if i < 195 {
                            if i < 190 {
                                if i < 188 {
                                    if i < 187 {
                                        db::america::porto_velho()
                                    } else {
                                        db::america::puerto_rico()
                                    }
                                } else {
                                    if i < 189 {
                                        db::america::punta_arenas()
                                    } else {
                                        db::america::rainy_river()
                                    }
                                }
                            } else {
                                if i < 192 {
                                    if i < 191 {
                                        db::america::rankin_inlet()
                                    } else {
                                        db::america::recife()
                                    }
                                } else {
                                    if i < 193 {
                                        db::america::regina()
                                    } else {
                                        if i < 194 {
                                            db::america::resolute()
                                        } else {
                                            db::america::rio_branco()
                                        }
                                    }
                                }
                            }
                        } else {
                            if i < 199 {
                                if i < 197 {
                                    if i < 196 {
                                        db::america::rosario()
                                    } else {
                                        db::america::santa_isabel()
                                    }
                                } else {
                                    if i < 198 {
                                        db::america::santarem()
                                    } else {
                                        db::america::santiago()
                                    }
                                }
                            } else {
                                if i < 201 {
                                    if i < 200 {
                                        db::america::santo_domingo()
                                    } else {
                                        db::america::sao_paulo()
                                    }
                                } else {
                                    if i < 202 {
                                        db::america::scoresbysund()
                                    } else {
                                        if i < 203 {
                                            db::america::shiprock()
                                        } else {
                                            db::america::sitka()
                                        }
                                    }
                                }
                            }
                        }
                    } else {
                        if i < 213 {
                            if i < 208 {
                                if i < 206 {
                                    if i < 205 {
                                        db::america::st_barthelemy()
                                    } else {
                                        db::america::st_johns()
                                    }
                                } else {
                                    if i < 207 {
                                        db::america::st_kitts()
                                    } else {
                                        db::america::st_lucia()
                                    }
                                }
                            } else {
                                if i < 210 {
                                    if i < 209 {
                                        db::america::st_thomas()
                                    } else {
                                        db::america::st_vincent()
                                    }
                                } else {
                                    if i < 211 {
                                        db::america::swift_current()
                                    } else {
                                        if i < 212 {
                                            db::america::tegucigalpa()
                                        } else {
                                            db::america::thule()
                                        }
                                    }
                                }
                            }
                        } else {
                            if i < 218 {
                                if i < 215 {
                                    if i < 214 {
                                        db::america::thunder_bay()
                                    } else {
                                        db::america::tijuana()
                                    }
                                } else {
                                    if i < 216 {
                                        db::america::toronto()
                                    } else {
                                        if i < 217 {
                                            db::america::tortola()
                                        } else {
                                            db::america::vancouver()
                                        }
                                    }
                                }
                            } else {
                                if i < 220 {
                                    if i < 219 {
                                        db::america::virgin()
                                    } else {
                                        db::america::whitehorse()
                                    }
                                } else {
                                    if i < 221 {
                                        db::america::winnipeg()
                                    } else {
                                        if i < 222 {
                                            db::america::yakutat()
                                        } else {
                                            db::america::yellowknife()
                                        }
                                    }
                                }
                            }
                        }
                    }
                }
            } else {
                if i < 260 {
                    if i < 241 {
                        if i < 232 {
                            if i < 227 {
                                if i < 225 {
                                    if i < 224 {
                                        db::antarctica::casey()
                                    } else {
                                        db::antarctica::davis()
                                    }
                                } else {
                                    if i < 226 {
                                        db::antarctica::dumontdurville()
                                    } else {
                                        db::antarctica::macquarie()
                                    }
                                }
                            } else {
                                if i < 229 {
                                    if i < 228 {
                                        db::antarctica::mawson()
                                    } else {
                                        db::antarctica::mcmurdo()
                                    }
                                } else {
                                    if i < 230 {
                                        db::antarctica::palmer()
                                    } else {
                                        if i < 231 {
                                            db::antarctica::rothera()
                                        } else {
                                            db::antarctica::south_pole()
                                        }
                                    }
                                }
                            }
                        } else {
                            if i < 236 {
                                if i < 234 {
                                    if i < 233 {
                                        db::antarctica::syowa()
                                    } else {
                                        db::antarctica::troll()
                                    }
                                } else {
                                    if i < 235 {
                                        db::antarctica::vostok()
                                    } else {
                                        db::arctic::longyearbyen()
                                    }
                                }
                            } else {
                                if i < 238 {
                                    if i < 237 {
                                        db::asia::aden()
                                    } else {
                                        db::asia::almaty()
                                    }
                                } else {
                                    if i < 239 {
                                        db::asia::amman()
                                    } else {
                                        if i < 240 {
                                            db::asia::anadyr()
                                        } else {
                                            db::asia::aqtau()
                                        }
                                    }
                                }
                            }
                        }
                    } else {
                        if i < 250 {
                            if i < 245 {
                                if i < 243 {
                                    if i < 242 {
                                        db::asia::aqtobe()
                                    } else {
                                        db::asia::ashgabat()
                                    }
                                } else {
                                    if i < 244 {
                                        db::asia::ashkhabad()
                                    } else {
                                        db::asia::atyrau()
                                    }
                                }
                            } else {
                                if i < 247 {
                                    if i < 246 {
                                        db::asia::baghdad()
                                    } else {
                                        db::asia::bahrain()
                                    }
                                } else {
                                    if i < 248 {
                                        db::asia::baku()
                                    } else {
                                        if i < 249 {
                                            db::asia::bangkok()
                                        } else {
                                            db::asia::barnaul()
                                        }
                                    }
                                }
                            }
                        } else {
                            if i < 255 {
                                if i < 252 {
                                    if i < 251 {
                                        db::asia::beirut()
                                    } else {
                                        db::asia::bishkek()
                                    }
                                } else {
                                    if i < 253 {
                                        db::asia::brunei()
                                    } else {
                                        if i < 254 {
                                            db::asia::calcutta()
                                        } else {
                                            db::asia::chita()
                                        }
                                    }
                                }
                            } else {
                                if i < 257 {
                                    if i < 256 {
                                        db::asia::choibalsan()
                                    } else {
                                        db::asia::chongqing()
                                    }
                                } else {
                                    if i < 258 {
                                        db::asia::chungking()
                                    } else {
                                        if i < 259 {
                                            db::asia::colombo()
                                        } else {
                                            db::asia::dacca()
                                        }
                                    }
                                }
                            }
                        }
                    }
                } else {
                    if i < 279 {
                        if i < 269 {
                            if i < 264 {
                                if i < 262 {
                                    if i < 261 {
                                        db::asia::damascus()
                                    } else {
                                        db::asia::dhaka()
                                    }
                                } else {
                                    if i < 263 {
                                        db::asia::dili()
                                    } else {
                                        db::asia::dubai()
                                    }
                                }
                            } else {
                                if i < 266 {
                                    if i < 265 {
                                        db::asia::dushanbe()
                                    } else {
                                        db::asia::famagusta()
                                    }
                                } else {
                                    if i < 267 {
                                        db::asia::gaza()
                                    } else {
                                        if i < 268 {
                                            db::asia::harbin()
                                        } else {
                                            db::asia::hebron()
                                        }
                                    }
                                }
                            }
                        } else {
                            if i < 274 {
                                if i < 271 {
                                    if i < 270 {
                                        db::asia::ho_chi_minh()
                                    } else {
                                        db::asia::hong_kong()
                                    }
                                } else {
                                    if i < 272 {
                                        db::asia::hovd()
                                    } else {
                                        if i < 273 {
                                            db::asia::irkutsk()
                                        } else {
                                            db::asia::istanbul()
                                        }
                                    }
                                }
                            } else {
                                if i < 276 {
                                    if i < 275 {
                                        db::asia::jakarta()
                                    } else {
                                        db::asia::jayapura()
                                    }
                                } else {
                                    if i < 277 {
                                        db::asia::jerusalem()
                                    } else {
                                        if i < 278 {
                                            db::asia::kabul()
                                        } else {
                                            db::asia::kamchatka()
                                        }
                                    }
                                }
                            }
                        }
                    } else {
                        if i < 288 {
                            if i < 283 {
                                if i < 281 {
                                    if i < 280 {
                                        db::asia::karachi()
                                    } else {
                                        db::asia::kashgar()
                                    }
                                } else {
                                    if i < 282 {
                                        db::asia::kathmandu()
                                    } else {
                                        db::asia::katmandu()
                                    }
                                }
                            } else {
                                if i < 285 {
                                    if i < 284 {
                                        db::asia::khandyga()
                                    } else {
                                        db::asia::kolkata()
                                    }
                                } else {
                                    if i < 286 {
                                        db::asia::krasnoyarsk()
                                    } else {
                                        if i < 287 {
                                            db::asia::kuala_lumpur()
                                        } else {
                                            db::asia::kuching()
                                        }
                                    }
                                }
                            }
                        } else {
                            if i < 293 {
                                if i < 290 {
                                    if i < 289 {
                                        db::asia::kuwait()
                                    } else {
                                        db::asia::macao()
                                    }
                                } else {
                                    if i < 291 {
                                        db::asia::macau()
                                    } else {
                                        if i < 292 {
                                            db::asia::magadan()
                                        } else {
                                            db::asia::makassar()
                                        }
                                    }
                                }
                            } else {
                                if i < 295 {
                                    if i < 294 {
                                        db::asia::manila()
                                    } else {
                                        db::asia::muscat()
                                    }
                                } else {
                                    if i < 296 {
                                        db::asia::nicosia()
                                    } else {
                                        if i < 297 {
                                            db::asia::novokuznetsk()
                                        } else {
                                            db::asia::novosibirsk()
                                        }
                                    }
                                }
                            }
                        }
                    }
                }
            }
        }
    } else {
        if i < 447 {
            if i < 372 {
                if i < 335 {
                    if i < 316 {
                        if i < 307 {
                            if i < 302 {
                                if i < 300 {
                                    if i < 299 {
                                        db::asia::omsk()
                                    } else {
                                        db::asia::oral()
                                    }
                                } else {
                                    if i < 301 {
                                        db::asia::phnom_penh()
                                    } else {
                                        db::asia::pontianak()
                                    }
                                }
                            } else {
                                if i < 304 {
                                    if i < 303 {
                                        db::asia::pyongyang()
                                    } else {
                                        db::asia::qatar()
                                    }
                                } else {
                                    if i < 305 {
                                        db::asia::qostanay()
                                    } else {
                                        if i < 306 {
                                            db::asia::qyzylorda()
                                        } else {
                                            db::asia::rangoon()
                                        }
                                    }
                                }
                            }
                        } else {
                            if i < 311 {
                                if i < 309 {
                                    if i < 308 {
                                        db::asia::riyadh()
                                    } else {
                                        db::asia::saigon()
                                    }
                                } else {
                                    if i < 310 {
                                        db::asia::sakhalin()
                                    } else {
                                        db::asia::samarkand()
                                    }
                                }
                            } else {
                                if i < 313 {
                                    if i < 312 {
                                        db::asia::seoul()
                                    } else {
                                        db::asia::shanghai()
                                    }
                                } else {
                                    if i < 314 {
                                        db::asia::singapore()
                                    } else {
                                        if i < 315 {
                                            db::asia::srednekolymsk()
                                        } else {
                                            db::asia::taipei()
                                        }
                                    }
                                }
                            }
                        }
                    } else {
                        if i < 325 {
                            if i < 320 {
                                if i < 318 {
                                    if i < 317 {
                                        db::asia::tashkent()
                                    } else {
                                        db::asia::tbilisi()
                                    }
                                } else {
                                    if i < 319 {
                                        db::asia::tehran()
                                    } else {
                                        db::asia::tel_aviv()
                                    }
                                }
                            } else {
                                if i < 322 {
                                    if i < 321 {
                                        db::asia::thimbu()
                                    } else {
                                        db::asia::thimphu()
                                    }
                                } else {
                                    if i < 323 {
                                        db::asia::tokyo()
                                    } else {
                                        if i < 324 {
                                            db::asia::tomsk()
                                        } else {
                                            db::asia::ujung_pandang()
                                        }
                                    }
                                }
                            }
                        } else {
                            if i < 330 {
                                if i < 327 {
                                    if i < 326 {
                                        db::asia::ulaanbaatar()
                                    } else {
                                        db::asia::ulan_bator()
                                    }
                                } else {
                                    if i < 328 {
                                        db::asia::urumqi()
                                    } else {
                                        if i < 329 {
                                            db::asia::ust_nera()
                                        } else {
                                            db::asia::vientiane()
                                        }
                                    }
                                }
                            } else {
                                if i < 332 {
                                    if i < 331 {
                                        db::asia::vladivostok()
                                    } else {
                                        db::asia::yakutsk()
                                    }
                                } else {
                                    if i < 333 {
                                        db::asia::yangon()
                                    } else {
                                        if i < 334 {
                                            db::asia::yekaterinburg()
                                        } else {
                                            db::asia::yerevan()
                                        }
                                    }
                                }
                            }
                        }
                    }
                } else {
                    if i < 353 {
                        if i < 344 {
                            if i < 339 {
                                if i < 337 {
                                    if i < 336 {
                                        db::atlantic::azores()
                                    } else {
                                        db::atlantic::bermuda()
                                    }
                                } else {
                                    if i < 338 {
                                        db::atlantic::canary()
                                    } else {
                                        db::atlantic::cape_verde()
                                    }
                                }
                            } else {
                                if i < 341 {
                                    if i < 340 {
                                        db::atlantic::faeroe()
                                    } else {
                                        db::atlantic::faroe()
                                    }
                                } else {
                                    if i < 342 {
                                        db::atlantic::jan_mayen()
                                    } else {
                                        if i < 343 {
                                            db::atlantic::madeira()
                                        } else {
                                            db::atlantic::reykjavik()
                                        }
                                    }
                                }
                            }
                        } else {
                            if i < 348 {
                                if i < 346 {
                                    if i < 345 {
                                        db::atlantic::south_georgia()
                                    } else {
                                        db::atlantic::st_helena()
                                    }
                                } else {
                                    if i < 347 {
                                        db::atlantic::stanley()
                                    } else {
                                        db::australia::act()
                                    }
                                }
                            } else {
                                if i < 350 {
                                    if i < 349 {
                                        db::australia::adelaide()
                                    } else {
                                        db::australia::brisbane()
                                    }
                                } else {
                                    if i < 351 {
                                        db::australia::broken_hill()
                                    } else {
                                        if i < 352 {
                                            db::australia::canberra()
                                        } else {
                                            db::australia::currie()
                                        }
                                    }
                                }
                            }
                        }
                    } else {
                        if i < 362 {
                            if i < 357 {
                                if i < 355 {
                                    if i < 354 {
                                        db::australia::darwin()
                                    } else {
                                        db::australia::eucla()
                                    }
                                } else {
                                    if i < 356 {
                                        db::australia::hobart()
                                    } else {
                                        db::australia::lhi()
                                    }
                                }
                            } else {
                                if i < 359 {
                                    if i < 358 {
                                        db::australia::lindeman()
                                    } else {
                                        db::australia::lord_howe()
                                    }
                                } else {
                                    if i < 360 {
                                        db::australia::melbourne()
                                    } else {
                                        if i < 361 {
                                            db::australia::nsw()
                                        } else {
                                            db::australia::north()
                                        }
                                    }
                                }
                            }
                        } else {
                            if i < 367 {
                                if i < 364 {
                                    if i < 363 {
                                        db::australia::perth()
                                    } else {
                                        db::australia::queensland()
                                    }
                                } else {
                                    if i < 365 {
                                        db::australia::south()
                                    } else {
                                        if i < 366 {
                                            db::australia::sydney()
                                        } else {
                                            db::australia::tasmania()
                                        }
                                    }
                                }
                            } else {
                                if i < 369 {
                                    if i < 368 {
                                        db::australia::victoria()
                                    } else {
                                        db::australia::west()
                                    }
                                } else {
                                    if i < 370 {
                                        db::australia::yancowinna()
                                    } else {
                                        if i < 371 {
                                            db::brazil::acre()
                                        } else {
                                            db::brazil::denoronha()
                                        }
                                    }
                                }
                            }
                        }
                    }
                }
            } else {
                if i < 409 {
                    if i < 390 {
                        if i < 381 {
                            if i < 376 {
                                if i < 374 {
                                    if i < 373 {
                                        db::brazil::east()
                                    } else {
                                        db::brazil::west()
                                    }
                                } else {
                                    if i < 375 {
                                        db::cet()
                                    } else {
                                        db::cst6cdt()
                                    }
                                }
                            } else {
                                if i < 378 {
                                    if i < 377 {
                                        db::canada::atlantic()
                                    } else {
                                        db::canada::central()
                                    }
                                } else {
                                    if i < 379 {
                                        db::canada::eastern()
                                    } else {
                                        if i < 380 {
                                            db::canada::mountain()
                                        } else {
                                            db::canada::newfoundland()
                                        }
                                    }
                                }
                            }
                        } else {
                            if i < 385 {
                                if i < 383 {
                                    if i < 382 {
                                        db::canada::pacific()
                                    } else {
                                        db::canada::saskatchewan()
                                    }
                                } else {
                                    if i < 384 {
                                        db::canada::yukon()
                                    } else {
                                        db::chile::continental()
                                    }
                                }
                            } else {
                                if i < 387 {
                                    if i < 386 {
                                        db::chile::easterisland()
                                    } else {
                                        db::cuba()
                                    }
                                } else {
                                    if i < 388 {
                                        db::eet()
                                    } else {
                                        if i < 389 {
                                            db::est()
                                        } else {
                                            db::est5edt()
                                        }
                                    }
                                }
                            }
                        }
                    } else {
                        if i < 399 {
                            if i < 394 {
                                if i < 392 {
                                    if i < 391 {
                                        db::egypt()
                                    } else {
                                        db::eire()
                                    }
                                } else {
                                    if i < 393 {
                                        db::etc::gmt()
                                    } else {
                                        db::etc::gmt_plus_0()
                                    }
                                }
                            } else {
                                if i < 396 {
                                    if i < 395 {
                                        db::etc::gmt_plus_1()
                                    } else {
                                        db::etc::gmt_plus_10()
                                    }
                                } else {
                                    if i < 397 {
                                        db::etc::gmt_plus_11()
                                    } else {
                                        if i < 398 {
                                            db::etc::gmt_plus_12()
                                        } else {
                                            db::etc::gmt_plus_2()
                                        }
                                    }
                                }
                            }
                        } else {
                            if i < 404 {
                                if i < 401 {
                                    if i < 400 {
                                        db::etc::gmt_plus_3()
                                    } else {
                                        db::etc::gmt_plus_4()
                                    }
                                } else {
                                    if i < 402 {
                                        db::etc::gmt_plus_5()
                                    } else {
                                        if i < 403 {
                                            db::etc::gmt_plus_6()
                                        } else {
                                            db::etc::gmt_plus_7()
                                        }
                                    }
                                }
                            } else {
                                if i < 406 {
                                    if i < 405 {
                                        db::etc::gmt_plus_8()
                                    } else {
                                        db::etc::gmt_plus_9()
                                    }
                                } else {
                                    if i < 407 {
                                        db::etc::gmt_minus_0()
                                    } else {
                                        if i < 408 {
                                            db::etc::gmt_minus_1()
                                        } else {
                                            db::etc::gmt_minus_10()
                                        }
                                    }
                                }
                            }
                        }
                    }
                } else {
                    if i < 428 {
                        if i < 418 {
                            if i < 413 {
                                if i < 411 {
                                    if i < 410 {
                                        db::etc::gmt_minus_11()
                                    } else {
                                        db::etc::gmt_minus_12()
                                    }
                                } else {
                                    if i < 412 {
                                        db::etc::gmt_minus_13()
                                    } else {
                                        db::etc::gmt_minus_14()
                                    }
                                }
                            } else {
                                if i < 415 {
                                    if i < 414 {
                                        db::etc::gmt_minus_2()
                                    } else {
                                        db::etc::gmt_minus_3()
                                    }
                                } else {
                                    if i < 416 {
                                        db::etc::gmt_minus_4()
                                    } else {
                                        if i < 417 {
                                            db::etc::gmt_minus_5()
                                        } else {
                                            db::etc::gmt_minus_6()
                                        }
                                    }
                                }
                            }
                        } else {
                            if i < 423 {
                                if i < 420 {
                                    if i < 419 {
                                        db::etc::gmt_minus_7()
                                    } else {
                                        db::etc::gmt_minus_8()
                                    }
                                } else {
                                    if i < 421 {
                                        db::etc::gmt_minus_9()
                                    } else {
                                        if i < 422 {
                                            db::etc::gmt0()
                                        } else {
                                            db::etc::greenwich()
                                        }
                                    }
                                }
                            } else {
                                if i < 425 {
                                    if i < 424 {
                                        db::etc::uct()
                                    } else {
                                        db::etc::utc()
                                    }
                                } else {
                                    if i < 426 {
                                        db::etc::universal()
                                    } else {
                                        if i < 427 {
                                            db::etc::zulu()
                                        } else {
                                            db::europe::amsterdam()
                                        }
                                    }
                                }
                            }
                        }
                    } else {
                        if i < 437 {
                            if i < 432 {
                                if i < 430 {
                                    if i < 429 {
                                        db::europe::andorra()
                                    } else {
                                        db::europe::astrakhan()
                                    }
                                } else {
                                    if i < 431 {
                                        db::europe::athens()
                                    } else {
                                        db::europe::belfast()
                                    }
                                }
                            } else {
                                if i < 434 {
                                    if i < 433 {
                                        db::europe::belgrade()
                                    } else {
                                        db::europe::berlin()
                                    }
                                } else {
                                    if i < 435 {
                                        db::europe::bratislava()
                                    } else {
                                        if i < 436 {
                                            db::europe::brussels()
                                        } else {
                                            db::europe::bucharest()
                                        }
                                    }
                                }
                            }
                        } else {
                            if i < 442 {
                                if i < 439 {
                                    if i < 438 {
                                        db::europe::budapest()
                                    } else {
                                        db::europe::busingen()
                                    }
                                } else {
                                    if i < 440 {
                                        db::europe::chisinau()
                                    } else {
                                        if i < 441 {
                                            db::europe::copenhagen()
                                        } else {
                                            db::europe::dublin()
                                        }
                                    }
                                }
                            } else {
                                if i < 444 {
                                    if i < 443 {
                                        db::europe::gibraltar()
                                    } else {
                                        db::europe::guernsey()
                                    }
                                } else {
                                    if i < 445 {
                                        db::europe::helsinki()
                                    } else {
                                        if i < 446 {
                                            db::europe::isle_of_man()
                                        } else {
                                            db::europe::istanbul()
                                        }
                                    }
                                }
                            }
                        }
                    }
                }
            }
        } else {
            if i < 522 {
                if i < 484 {
                    if i < 465 {
                        if i < 456 {
                            if i < 451 {
                                if i < 449 {
                                    if i < 448 {
                                        db::europe::jersey()
                                    } else {
                                        db::europe::kaliningrad()
                                    }
                                } else {
                                    if i < 450 {
                                        db::europe::kiev()
                                    } else {
                                        db::europe::kirov()
                                    }
                                }
                            } else {
                                if i < 453 {
                                    if i < 452 {
                                        db::europe::kyiv()
                                    } else {
                                        db::europe::lisbon()
                                    }
                                } else {
                                    if i < 454 {
                                        db::europe::ljubljana()
                                    } else {
                                        if i < 455 {
                                            db::europe::london()
                                        } else {
                                            db::europe::luxembourg()
                                        }
                                    }
                                }
                            }
                        } else {
                            if i < 460 {
                                if i < 458 {
                                    if i < 457 {
                                        db::europe::madrid()
                                    } else {
                                        db::europe::malta()
                                    }
                                } else {
                                    if i < 459 {
                                        db::europe::mariehamn()
                                    } else {
                                        db::europe::minsk()
                                    }
                                }
                            } else {
                                if i < 462 {
                                    if i < 461 {
                                        db::europe::monaco()
                                    } else {
                                        db::europe::moscow()
                                    }
                                } else {
                                    if i < 463 {
                                        db::europe::nicosia()
                                    } else {
                                        if i < 464 {
                                            db::europe::oslo()
                                        } else {
                                            db::europe::paris()
                                        }
                                    }
                                }
                            }
                        }
                    } else {
                        if i < 474 {
                            if i < 469 {
                                if i < 467 {
                                    if i < 466 {
                                        db::europe::podgorica()
                                    } else {
                                        db::europe::prague()
                                    }
                                } else {
                                    if i < 468 {
                                        db::europe::riga()
                                    } else {
                                        db::europe::rome()
                                    }
                                }
                            } else {
                                if i < 471 {
                                    if i < 470 {
                                        db::europe::samara()
                                    } else {
                                        db::europe::san_marino()
                                    }
                                } else {
                                    if i < 472 {
                                        db::europe::sarajevo()
                                    } else {
                                        if i < 473 {
                                            db::europe::saratov()
                                        } else {
                                            db::europe::simferopol()
                                        }
                                    }
                                }
                            }
                        } else {
                            if i < 479 {
                                if i < 476 {
                                    if i < 475 {
                                        db::europe::skopje()
                                    } else {
                                        db::europe::sofia()
                                    }
                                } else {
                                    if i < 477 {
                                        db::europe::stockholm()
                                    } else {
                                        if i < 478 {
                                            db::europe::tallinn()
                                        } else {
                                            db::europe::tirane()
                                        }
                                    }
                                }
                            } else {
                                if i < 481 {
                                    if i < 480 {
                                        db::europe::tiraspol()
                                    } else {
                                        db::europe::ulyanovsk()
                                    }
                                } else {
                                    if i < 482 {
                                        db::europe::uzhgorod()
                                    } else {
                                        if i < 483 {
                                            db::europe::vaduz()
                                        } else {
                                            db::europe::vatican()
                                        }
                                    }
                                }
                            }
                        }
                    }
                } else {
                    if i < 503 {
                        if i < 493 {
                            if i < 488 {
                                if i < 486 {
                                    if i < 485 {
                                        db::europe::vienna()
                                    } else {
                                        db::europe::vilnius()
                                    }
                                } else {
                                    if i < 487 {
                                        db::europe::volgograd()
                                    } else {
                                        db::europe::warsaw()
                                    }
                                }
                            } else {
                                if i < 490 {
                                    if i < 489 {
                                        db::europe::zagreb()
                                    } else {
                                        db::europe::zaporozhye()
                                    }
                                } else {
                                    if i < 491 {
                                        db::europe::zurich()
                                    } else {
                                        if i < 492 {
                                            db::gb()
                                        } else {
                                            db::gb_eire()
                                        }
                                    }
                                }
                            }
                        } else {
                            if i < 498 {
                                if i < 495 {
                                    if i < 494 {
                                        db::gmt()
                                    } else {
                                        db::gmt_plus_0()
                                    }
                                } else {
                                    if i < 496 {
                                        db::gmt_minus_0()
                                    } else {
                                        if i < 497 {
                                            db::gmt0()
                                        } else {
                                            db::greenwich()
                                        }
                                    }
                                }
                            } else {
                                if i < 500 {
                                    if i < 499 {
                                        db::hst()
                                    } else {
                                        db::hongkong()
                                    }
                                } else {
                                    if i < 501 {
                                        db::iceland()
                                    } else {
                                        if i < 502 {
                                            db::indian::antananarivo()
                                        } else {
                                            db::indian::chagos()
                                        }
                                    }
                                }
                            }
                        }
                    } else {
                        if i < 512 {
                            if i < 507 {
                                if i < 505 {
                                    if i < 504 {
                                        db::indian::christmas()
                                    } else {
                                        db::indian::cocos()
                                    }
                                } else {
                                    if i < 506 {
                                        db::indian::comoro()
                                    } else {
                                        db::indian::kerguelen()
                                    }
                                }
                            } else {
                                if i < 509 {
                                    if i < 508 {
                                        db::indian::mahe()
                                    } else {
                                        db::indian::maldives()
                                    }
                                } else {
                                    if i < 510 {
                                        db::indian::mauritius()
                                    } else {
                                        if i < 511 {
                                            db::indian::mayotte()
                                        } else {
                                            db::indian::reunion()
                                        }
                                    }
                                }
                            }
                        } else {
                            if i < 517 {
                                if i < 514 {
                                    if i < 513 {
                                        db::iran()
                                    } else {
                                        db::israel()
                                    }
                                } else {
                                    if i < 515 {
                                        db::jamaica()
                                    } else {
                                        if i < 516 {
                                            db::japan()
                                        } else {
                                            db::kwajalein()
                                        }
                                    }
                                }
                            } else {
                                if i < 519 {
                                    if i < 518 {
                                        db::libya()
                                    } else {
                                        db::met()
                                    }
                                } else {
                                    if i < 520 {
                                        db::mst()
                                    } else {
                                        if i < 521 {
                                            db::mst7mdt()
                                        } else {
                                            db::mexico::bajanorte()
                                        }
                                    }
                                }
                            }
                        }
                    }
                }
            } else {
                if i < 559 {
                    if i < 540 {
                        if i < 531 {
                            if i < 526 {
                                if i < 524 {
                                    if i < 523 {
                                        db::mexico::bajasur()
                                    } else {
                                        db::mexico::general()
                                    }
                                } else {
                                    if i < 525 {
                                        db::nz()
                                    } else {
                                        db::nz_chat()
                                    }
                                }
                            } else {
                                if i < 528 {
                                    if i < 527 {
                                        db::navajo()
                                    } else {
                                        db::prc()
                                    }
                                } else {
                                    if i < 529 {
                                        db::pst8pdt()
                                    } else {
                                        if i < 530 {
                                            db::pacific::apia()
                                        } else {
                                            db::pacific::auckland()
                                        }
                                    }
                                }
                            }
                        } else {
                            if i < 535 {
                                if i < 533 {
                                    if i < 532 {
                                        db::pacific::bougainville()
                                    } else {
                                        db::pacific::chatham()
                                    }
                                } else {
                                    if i < 534 {
                                        db::pacific::chuuk()
                                    } else {
                                        db::pacific::easter()
                                    }
                                }
                            } else {
                                if i < 537 {
                                    if i < 536 {
                                        db::pacific::efate()
                                    } else {
                                        db::pacific::enderbury()
                                    }
                                } else {
                                    if i < 538 {
                                        db::pacific::fakaofo()
                                    } else {
                                        if i < 539 {
                                            db::pacific::fiji()
                                        } else {
                                            db::pacific::funafuti()
                                        }
                                    }
                                }
                            }
                        }
                    } else {
                        if i < 549 {
                            if i < 544 {
                                if i < 542 {
                                    if i < 541 {
                                        db::pacific::galapagos()
                                    } else {
                                        db::pacific::gambier()
                                    }
                                } else {
                                    if i < 543 {
                                        db::pacific::guadalcanal()
                                    } else {
                                        db::pacific::guam()
                                    }
                                }
                            } else {
                                if i < 546 {
                                    if i < 545 {
                                        db::pacific::honolulu()
                                    } else {
                                        db::pacific::johnston()
                                    }
                                } else {
                                    if i < 547 {
                                        db::pacific::kanton()
                                    } else {
                                        if i < 548 {
                                            db::pacific::kiritimati()
                                        } else {
                                            db::pacific::kosrae()
                                        }
                                    }
                                }
                            }
                        } else {
                            if i < 554 {
                                if i < 551 {
                                    if i < 550 {
                                        db::pacific::kwajalein()
                                    } else {
                                        db::pacific::majuro()
                                    }
                                } else {
                                    if i < 552 {
                                        db::pacific::marquesas()
                                    } else {
                                        if i < 553 {
                                            db::pacific::midway()
                                        } else {
                                            db::pacific::nauru()
                                        }
                                    }
                                }
                            } else {
                                if i < 556 {
                                    if i < 555 {
                                        db::pacific::niue()
                                    } else {
                                        db::pacific::norfolk()
                                    }
                                } else {
                                    if i < 557 {
                                        db::pacific::noumea()
                                    } else {
                                        if i < 558 {
                                            db::pacific::pago_pago()
                                        } else {
                                            db::pacific::palau()
                                        }
                                    }
                                }
                            }
                        }
                    }
                } else {
                    if i < 578 {
                        if i < 568 {
                            if i < 563 {
                                if i < 561 {
                                    if i < 560 {
                                        db::pacific::pitcairn()
                                    } else {
                                        db::pacific::pohnpei()
                                    }
                                } else {
                                    if i < 562 {
                                        db::pacific::ponape()
                                    } else {
                                        db::pacific::port_moresby()
                                    }
                                }
                            } else {
                                if i < 565 {
                                    if i < 564 {
                                        db::pacific::rarotonga()
                                    } else {
                                        db::pacific::saipan()
                                    }
                                } else {
                                    if i < 566 {
                                        db::pacific::samoa()
                                    } else {
                                        if i < 567 {
                                            db::pacific::tahiti()
                                        } else {
                                            db::pacific::tarawa()
                                        }
                                    }
                                }
                            }
                        } else {
                            if i < 573 {
                                if i < 570 {
                                    if i < 569 {
                                        db::pacific::tongatapu()
                                    } else {
                                        db::pacific::truk()
                                    }
                                } else {
                                    if i < 571 {
                                        db::pacific::wake()
                                    } else {
                                        if i < 572 {
                                            db::pacific::wallis()
                                        } else {
                                            db::pacific::yap()
                                        }
                                    }
                                }
                            } else {
                                if i < 575 {
                                    if i < 574 {
                                        db::poland()
                                    } else {
                                        db::portugal()
                                    }
                                } else {
                                    if i < 576 {
                                        db::roc()
                                    } else {
                                        if i < 577 {
                                            db::rok()
                                        } else {
                                            db::singapore()
                                        }
                                    }
                                }
                            }
                        }
                    } else {
                        if i < 587 {
                            if i < 582 {
                                if i < 580 {
                                    if i < 579 {
                                        db::turkey()
                                    } else {
                                        db::uct()
                                    }
                                } else {
                                    if i < 581 {
                                        db::us::alaska()
                                    } else {
                                        db::us::aleutian()
                                    }
                                }
                            } else {
                                if i < 584 {
                                    if i < 583 {
                                        db::us::arizona()
                                    } else {
                                        db::us::central()
                                    }
                                } else {
                                    if i < 585 {
                                        db::us::east_indiana()
                                    } else {
                                        if i < 586 {
                                            db::us::eastern()
                                        } else {
                                            db::us::hawaii()
                                        }
                                    }
                                }
                            }
                        } else {
                            if i < 592 {
                                if i < 589 {
                                    if i < 588 {
                                        db::us::indiana_starke()
                                    } else {
                                        db::us::michigan()
                                    }
                                } else {
                                    if i < 590 {
                                        db::us::mountain()
                                    } else {
                                        if i < 591 {
                                            db::us::pacific()
                                        } else {
                                            db::us::samoa()
                                        }
                                    }
                                }
                            } else {
                                if i < 594 {
                                    if i < 593 {
                                        db::utc()
                                    } else {
                                        db::universal()
                                    }
                                } else {
                                    if i < 595 {
                                        db::w_su()
                                    } else {
                                        if i < 596 {
                                            db::wet()
                                        } else {
                                            db::zulu()
                                        }
                                    }
                                }
                            }
                        }
                    }
                }
            }
        }
    }
}

/// Vendor name `v`.
pub fn vendor_name(v: usize) -> (r: &'static str)
    requires
        v < VENDOR_COUNT,
    ensures
        r@ == vendor_names()[v as int],
{
    if v < 68 {
        if v < 34 {
            if v < 17 {
                if v < 8 {
                    if v < 4 {
                        if v < 2 {
                            if v < 1 {
                                "AUS Central Standard Time"
                            } else {
                                "AUS Eastern Standard Time"
                            }
                        } else {
                            if v < 3 {
                                "Afghanistan Standard Time"
                            } else {
                                "Alaskan Standard Time"
                            }
                        }
                    } else {
                        if v < 6 {
                            if v < 5 {
                                "Aleutian Standard Time"
                            } else {
                                "Altai Standard Time"
                            }
                        } else {
                            if v < 7 {
                                "Arab Standard Time"
                            } else {
                                "Arabian Standard Time"
                            }
                        }
                    }
                } else {
                    if v < 12 {
                        if v < 10 {
                            if v < 9 {
                                "Arabic Standard Time"
                            } else {
                                "Argentina Standard Time"
                            }
                        } else {
                            if v < 11 {
                                "Astrakhan Standard Time"
                            } else {
                                "Atlantic Standard Time"
                            }
                        }
                    } else {
                        if v < 14 {
                            if v < 13 {
                                "Aus Central W. Standard Time"
                            } else {
                                "Azerbaijan Standard Time"
                            }
                        } else {
                            if v < 15 {
                                "Azores Standard Time"
                            } else {
                                if v < 16 {
                                    "Bahia Standard Time"
                                } else {
                                    "Bangladesh Standard Time"
                                }
                            }
                        }
                    }
                }
            } else {
                if v < 25 {
                    if v < 21 {
                        if v < 19 {
                            if v < 18 {
                                "Belarus Standard Time"
                            } else {
                                "Bougainville Standard Time"
                            }
                        } else {
                            if v < 20 {
                                "Canada Central Standard Time"
                            } else {
                                "Cape Verde Standard Time"
                            }
                        }
                    } else {
                        if v < 23 {
                            if v < 22 {
                                "Caucasus Standard Time"
                            } else {
                                "Cen. Australia Standard Time"
                            }
                        } else {
                            if v < 24 {
                                "Central America Standard Time"
                            } else {
                                "Central Brazilian Standard Time"
                            }
                        }
                    }
                } else {
                    if v < 29 {
                        if v < 27 {
                            if v < 26 {
                                "Central Europe Standard Time"
                            } else {
                                "Central European Standard Time"
                            }
                        } else {
                            if v < 28 {
                                "Central Pacific Standard Time"
                            } else {
                                "Central Standard Time"
                            }
                        }
                    } else {
                        if v < 31 {
                            if v < 30 {
                                "Central Standard Time (Mexico)"
                            } else {
                                "Chatham Islands Standard Time"
                            }
                        } else {
                            if v < 32 {
                                "China Standard Time"
                            } else {
                                if v < 33 {
                                    "Cuba Standard Time"
                                } else {
                                    "Dateline Standard Time"
                                }
                            }
                        }
                    }
                }
            }
        } else {
            if v < 51 {
                if v < 42 {
                    if v < 38 {
                        if v < 36 {
                            if v < 35 {
                                "E. Africa Standard Time"
                            } else {
                                "E. Australia Standard Time"
                            }
                        } else {
                            if v < 37 {
                                "E. Europe Standard Time"
                            } else {
                                "E. South America Standard Time"
                            }
                        }
                    } else {
                        if v < 40 {
                            if v < 39 {
                                "Easter Island Standard Time"
                            } else {
                                "Eastern Standard Time"
                            }
                        } else {
                            if v < 41 {
                                "Eastern Standard Time (Mexico)"
                            } else {
                                "Egypt Standard Time"
                            }
                        }
                    }
                } else {
                    if v < 46 {
                        if v < 44 {
                            if v < 43 {
                                "Ekaterinburg Standard Time"
                            } else {
                                "FLE Standard Time"
                            }
                        } else {
                            if v < 45 {
                                "Fiji Standard Time"
                            } else {
                                "GMT Standard Time"
                            }
                        }
                    } else {
                        if v < 48 {
                            if v < 47 {
                                "GTB Standard Time"
                            } else {
                                "Georgian Standard Time"
                            }
                        } else {
                            if v < 49 {
                                "Greenland Standard Time"
                            } else {
                                if v < 50 {
                                    "Greenwich Standard Time"
                                } else {
                                    "Haiti Standard Time"
                                }
                            }
                        }
                    }
                }
            } else {
                if v < 59 {
                    if v < 55 {
                        if v < 53 {
                            if v < 52 {
                                "Hawaiian Standard Time"
                            } else {
                                "India Standard Time"
                            }
                        } else {
                            if v < 54 {
                                "Iran Standard Time"
                            } else {
                                "Israel Standard Time"
                            }
                        }
                    } else {
                        if v < 57 {
                            if v < 56 {
                                "Jordan Standard Time"
                            } else {
                                "Kaliningrad Standard Time"
                            }
                        } else {
                            if v < 58 {
                                "Korea Standard Time"
                            } else {
                                "Libya Standard Time"
                            }
                        }
                    }
                } else {
                    if v < 63 {
                        if v < 61 {
                            if v < 60 {
                                "Line Islands Standard Time"
                            } else {
                                "Lord Howe Standard Time"
                            }
                        } else {
                            if v < 62 {
                                "Magadan Standard Time"
                            } else {
                                "Magallanes Standard Time"
                            }
                        }
                    } else {
                        if v < 65 {
                            if v < 64 {
                                "Marquesas Standard Time"
                            } else {
                                "Mauritius Standard Time"
                            }
                        } else {
                            if v < 66 {
                                "Middle East Standard Time"
                            } else {
                                if v < 67 {
                                    "Montevideo Standard Time"
                                } else {
                                    "Morocco Standard Time"
                                }
                            }
                        }
                    }
                }
            }
        }
    } else {
        if v < 102 {
            if v < 85 {
                if v < 76 {
                    if v < 72 {
                        if v < 70 {
                            if v < 69 {
                                "Mountain Standard Time"
                            } else {
                                "Myanmar Standard Time"
                            }
                        } else {
                            if v < 71 {
                                "N. Central Asia Standard Time"
                            } else {
                                "Namibia Standard Time"
                            }
                        }
                    } else {
                        if v < 74 {
                            if v < 73 {
                                "Nepal Standard Time"
                            } else {
                                "New Zealand Standard Time"
                            }
                        } else {
                            if v < 75 {
                                "Newfoundland Standard Time"
                            } else {
                                "Norfolk Standard Time"
                            }
                        }
                    }
                } else {
                    if v < 80 {
                        if v < 78 {
                            if v < 77 {
                                "North Asia East Standard Time"
                            } else {
                                "North Asia Standard Time"
                            }
                        } else {
                            if v < 79 {
                                "North Korea Standard Time"
                            } else {
                                "Omsk Standard Time"
                            }
                        }
                    } else {
                        if v < 82 {
                            if v < 81 {
                                "Pacific SA Standard Time"
                            } else {
                                "Pacific Standard Time"
                            }
                        } else {
                            if v < 83 {
                                "Pacific Standard Time (Mexico)"
                            } else {
                                if v < 84 {
                                    "Pakistan Standard Time"
                                } else {
                                    "Paraguay Standard Time"
                                }
                            }
                        }
                    }
                }
            } else {
                if v < 93 {
                    if v < 89 {
                        if v < 87 {
                            if v < 86 {
                                "Qyzylorda Standard Time"
                            } else {
                                "Romance Standard Time"
                            }
                        } else {
                            if v < 88 {
                                "Russia Time Zone 10"
                            } else {
                                "Russia Time Zone 11"
                            }
                        }
                    } else {
                        if v < 91 {
                            if v < 90 {
                                "Russia Time Zone 3"
                            } else {
                                "Russian Standard Time"
                            }
                        } else {
                            if v < 92 {
                                "SA Eastern Standard Time"
                            } else {
                                "SA Pacific Standard Time"
                            }
                        }
                    }
                } else {
                    if v < 97 {
                        if v < 95 {
                            if v < 94 {
                                "SA Western Standard Time"
                            } else {
                                "SE Asia Standard Time"
                            }
                        } else {
                            if v < 96 {
                                "Saint Pierre Standard Time"
                            } else {
                                "Sakhalin Standard Time"
                            }
                        }
                    } else {
                        if v < 99 {
                            if v < 98 {
                                "Samoa Standard Time"
                            } else {
                                "Sao Tome Standard Time"
                            }
                        } else {
                            if v < 100 {
                                "Saratov Standard Time"
                            } else {
                                if v < 101 {
                                    "Singapore Standard Time"
                                } else {
                                    "South Africa Standard Time"
                                }
                            }
                        }
                    }
                }
            }
        } else {
            if v < 119 {
                if v < 110 {
                    if v < 106 {
                        if v < 104 {
                            if v < 103 {
                                "South Sudan Standard Time"
                            } else {
                                "Sri Lanka Standard Time"
                            }
                        } else {
                            if v < 105 {
                                "Sudan Standard Time"
                            } else {
                                "Syria Standard Time"
                            }
                        }
                    } else {
                        if v < 108 {
                            if v < 107 {
                                "Taipei Standard Time"
                            } else {
                                "Tasmania Standard Time"
                            }
                        } else {
                            if v < 109 {
                                "Tocantins Standard Time"
                            } else {
                                "Tokyo Standard Time"
                            }
                        }
                    }
                } else {
                    if v < 114 {
                        if v < 112 {
                            if v < 111 {
                                "Tomsk Standard Time"
                            } else {
                                "Tonga Standard Time"
                            }
                        } else {
                            if v < 113 {
                                "Transbaikal Standard Time"
                            } else {
                                "Turkey Standard Time"
                            }
                        }
                    } else {
                        if v < 116 {
                            if v < 115 {
                                "Turks And Caicos Standard Time"
                            } else {
                                "US Eastern Standard Time"
                            }
                        } else {
                            if v < 117 {
                                "US Mountain Standard Time"
                            } else {
                                if v < 118 {
                                    "UTC"
                                } else {
                                    "UTC+12"
                                }
                            }
                        }
                    }
                }
            } else {
                if v < 128 {
                    if v < 123 {
                        if v < 121 {
                            if v < 120 {
                                "UTC+13"
                            } else {
                                "UTC-02"
                            }
                        } else {
                            if v < 122 {
                                "UTC-08"
                            } else {
                                "UTC-09"
                            }
                        }
                    } else {
                        if v < 125 {
                            if v < 124 {
                                "UTC-11"
                            } else {
                                "Ulaanbaatar Standard Time"
                            }
                        } else {
                            if v < 126 {
                                "Venezuela Standard Time"
                            } else {
                                if v < 127 {
                                    "Vladivostok Standard Time"
                                } else {
                                    "Volgograd Standard Time"
                                }
                            }
                        }
                    }
                } else {
                    if v < 132 {
                        if v < 130 {
                            if v < 129 {
                                "W. Australia Standard Time"
                            } else {
                                "W. Central Africa Standard Time"
                            }
                        } else {
                            if v < 131 {
                                "W. Europe Standard Time"
                            } else {
                                "W. Mongolia Standard Time"
                            }
                        }
                    } else {
                        if v < 134 {
                            if v < 133 {
                                "West Asia Standard Time"
                            } else {
                                "West Bank Standard Time"
                            }
                        } else {
                            if v < 135 {
                                "West Pacific Standard Time"
                            } else {
                                if v < 136 {
                                    "Yakutsk Standard Time"
                                } else {
                                    "Yukon Standard Time"
                                }
                            }
                        }
                    }
                }
            }
        }
    }
}

/// The zones that vendor name `v` stands for, as places in the list of zones.
pub fn vendor_zone_list(v: usize) -> (r: Vec<usize>)
    requires
        v < VENDOR_COUNT,
    ensures
        r@.len() == vendor_zones()[v as int].len(),
        forall|k: int|
            0 <= k < r@.len() ==> r@[k] == vendor_zones()[v as int][k] && r@[k] < ZONE_COUNT,
{
    if v < 68 {
        if v < 34 {
            if v < 17 {
                if v < 8 {
                    if v < 4 {
                        if v < 2 {
                            if v < 1 {
                                vec![353usize]
                            } else {
                                vec![365usize]
                            }
                        } else {
                            if v < 3 {
                                vec![277usize]
                            } else {
                                vec![55usize]
                            }
                        }
                    } else {
                        if v < 6 {
                            if v < 5 {
                                vec![54usize]
                            } else {
                                vec![249usize]
                            }
                        } else {
                            if v < 7 {
                                vec![307usize]
                            } else {
                                vec![263usize]
                            }
                        }
                    }
                } else {
                    if v < 12 {
                        if v < 10 {
                            if v < 9 {
                                vec![245usize]
                            } else {
                                vec![85usize]
                            }
                        } else {
                            if v < 11 {
                                vec![429usize]
                            } else {
                                vec![125usize]
                            }
                        }
                    } else {
                        if v < 14 {
                            if v < 13 {
                                vec![354usize]
                            } else {
                                vec![247usize]
                            }
                        } else {
                            if v < 15 {
                                vec![335usize]
                            } else {
                                if v < 16 {
                                    vec![76usize]
                                } else {
                                    vec![261usize]
                                }
                            }
                        }
                    }
                }
            } else {
                if v < 25 {
                    if v < 21 {
                        if v < 19 {
                            if v < 18 {
                                vec![459usize]
                            } else {
                                vec![531usize]
                            }
                        } else {
                            if v < 20 {
                                vec![192usize]
                            } else {
                                vec![338usize]
                            }
                        }
                    } else {
                        if v < 23 {
                            if v < 22 {
                                vec![334usize]
                            } else {
                                vec![348usize]
                            }
                        } else {
                            if v < 24 {
                                vec![122usize]
                            } else {
                                vec![101usize]
                            }
                        }
                    }
                } else {
                    if v < 29 {
                        if v < 27 {
                            if v < 26 {
                                vec![437usize]
                            } else {
                                vec![487usize]
                            }
                        } else {
                            if v < 28 {
                                vec![542usize]
                            } else {
                                vec![93usize]
                            }
                        }
                    } else {
                        if v < 31 {
                            if v < 30 {
                                vec![162usize]
                            } else {
                                vec![532usize]
                            }
                        } else {
                            if v < 32 {
                                vec![312usize]
                            } else {
                                if v < 33 {
                                    vec![126usize]
                                } else {
                                    vec![397usize]
                                }
                            }
                        }
                    }
                }
            }
        } else {
            if v < 51 {
                if v < 42 {
                    if v < 38 {
                        if v < 36 {
                            if v < 35 {
                                vec![43usize]
                            } else {
                                vec![349usize]
                            }
                        } else {
                            if v < 37 {
                                vec![439usize]
                            } else {
                                vec![200usize]
                            }
                        }
                    } else {
                        if v < 40 {
                            if v < 39 {
                                vec![534usize]
                            } else {
                                vec![170usize]
                            }
                        } else {
                            if v < 41 {
                                vec![88usize]
                            } else {
                                vec![13usize]
                            }
                        }
                    }
                } else {
                    if v < 46 {
                        if v < 44 {
                            if v < 43 {
                                vec![333usize]
                            } else {
                                vec![449usize]
                            }
                        } else {
                            if v < 45 {
                                vec![538usize]
                            } else {
                                vec![454usize]
                            }
                        }
                    } else {
                        if v < 48 {
                            if v < 47 {
                                vec![436usize]
                            } else {
                                vec![317usize]
                            }
                        } else {
                            if v < 49 {
                                vec![117usize]
                            } else {
                                if v < 50 {
                                    vec![343usize]
                                } else {
                                    vec![183usize]
                                }
                            }
                        }
                    }
                }
            } else {
                if v < 59 {
                    if v < 55 {
                        if v < 53 {
                            if v < 52 {
                                vec![544usize]
                            } else {
                                vec![253usize]
                            }
                        } else {
                            if v < 54 {
                                vec![318usize]
                            } else {
                                vec![276usize]
                            }
                        }
                    } else {
                        if v < 57 {
                            if v < 56 {
                                vec![238usize]
                            } else {
                                vec![448usize]
                            }
                        } else {
                            if v < 58 {
                                vec![311usize]
                            } else {
                                vec![51usize]
                            }
                        }
                    }
                } else {
                    if v < 63 {
                        if v < 61 {
                            if v < 60 {
                                vec![547usize]
                            } else {
                                vec![358usize]
                            }
                        } else {
                            if v < 62 {
                                vec![291usize]
                            } else {
                                vec![188usize]
                            }
                        }
                    } else {
                        if v < 65 {
                            if v < 64 {
                                vec![551usize]
                            } else {
                                vec![509usize]
                            }
                        } else {
                            if v < 66 {
                                vec![250usize]
                            } else {
                                if v < 67 {
                                    vec![166usize]
                                } else {
                                    vec![14usize]
                                }
                            }
                        }
                    }
                }
            }
        }
    } else {
        if v < 102 {
            if v < 85 {
                if v < 76 {
                    if v < 72 {
                        if v < 70 {
                            if v < 69 {
                                vec![106usize]
                            } else {
                                vec![306usize]
                            }
                        } else {
                            if v < 71 {
                                vec![297usize]
                            } else {
                                vec![53usize]
                            }
                        }
                    } else {
                        if v < 74 {
                            if v < 73 {
                                vec![282usize]
                            } else {
                                vec![530usize]
                            }
                        } else {
                            if v < 75 {
                                vec![205usize]
                            } else {
                                vec![555usize]
                            }
                        }
                    }
                } else {
                    if v < 80 {
                        if v < 78 {
                            if v < 77 {
                                vec![272usize]
                            } else {
                                vec![285usize]
                            }
                        } else {
                            if v < 79 {
                                vec![302usize]
                            } else {
                                vec![298usize]
                            }
                        }
                    } else {
                        if v < 82 {
                            if v < 81 {
                                vec![198usize]
                            } else {
                                vec![148usize]
                            }
                        } else {
                            if v < 83 {
                                vec![214usize]
                            } else {
                                if v < 84 {
                                    vec![279usize]
                                } else {
                                    vec![73usize]
                                }
                            }
                        }
                    }
                }
            } else {
                if v < 93 {
                    if v < 89 {
                        if v < 87 {
                            if v < 86 {
                                vec![305usize]
                            } else {
                                vec![464usize]
                            }
                        } else {
                            if v < 88 {
                                vec![314usize]
                            } else {
                                vec![278usize]
                            }
                        }
                    } else {
                        if v < 91 {
                            if v < 90 {
                                vec![469usize]
                            } else {
                                vec![461usize]
                            }
                        } else {
                            if v < 92 {
                                vec![91usize]
                            } else {
                                vec![83usize]
                            }
                        }
                    }
                } else {
                    if v < 97 {
                        if v < 95 {
                            if v < 94 {
                                vec![146usize]
                            } else {
                                vec![248usize]
                            }
                        } else {
                            if v < 96 {
                                vec![163usize]
                            } else {
                                vec![309usize]
                            }
                        }
                    } else {
                        if v < 99 {
                            if v < 98 {
                                vec![529usize]
                            } else {
                                vec![49usize]
                            }
                        } else {
                            if v < 100 {
                                vec![472usize]
                            } else {
                                if v < 101 {
                                    vec![313usize]
                                } else {
                                    vec![25usize]
                                }
                            }
                        }
                    }
                }
            }
        } else {
            if v < 119 {
                if v < 110 {
                    if v < 106 {
                        if v < 104 {
                            if v < 103 {
                                vec![26usize]
                            } else {
                                vec![258usize]
                            }
                        } else {
                            if v < 105 {
                                vec![28usize]
                            } else {
                                vec![260usize]
                            }
                        }
                    } else {
                        if v < 108 {
                            if v < 107 {
                                vec![315usize]
                            } else {
                                vec![355usize]
                            }
                        } else {
                            if v < 109 {
                                vec![58usize]
                            } else {
                                vec![322usize]
                            }
                        }
                    }
                } else {
                    if v < 114 {
                        if v < 112 {
                            if v < 111 {
                                vec![323usize]
                            } else {
                                vec![568usize]
                            }
                        } else {
                            if v < 113 {
                                vec![254usize]
                            } else {
                                vec![446usize]
                            }
                        }
                    } else {
                        if v < 116 {
                            if v < 115 {
                                vec![119usize]
                            } else {
                                vec![136usize]
                            }
                        } else {
                            if v < 117 {
                                vec![182usize]
                            } else {
                                if v < 118 {
                                    vec![424usize]
                                } else {
                                    vec![410usize]
                                }
                            }
                        }
                    }
                }
            } else {
                if v < 128 {
                    if v < 123 {
                        if v < 121 {
                            if v < 120 {
                                vec![411usize]
                            } else {
                                vec![398usize]
                            }
                        } else {
                            if v < 122 {
                                vec![404usize]
                            } else {
                                vec![405usize]
                            }
                        }
                    } else {
                        if v < 125 {
                            if v < 124 {
                                vec![396usize]
                            } else {
                                vec![325usize]
                            }
                        } else {
                            if v < 126 {
                                vec![89usize]
                            } else {
                                if v < 127 {
                                    vec![330usize]
                                } else {
                                    vec![486usize]
                                }
                            }
                        }
                    }
                } else {
                    if v < 132 {
                        if v < 130 {
                            if v < 129 {
                                vec![362usize]
                            } else {
                                vec![31usize]
                            }
                        } else {
                            if v < 131 {
                                vec![433usize]
                            } else {
                                vec![271usize]
                            }
                        }
                    } else {
                        if v < 134 {
                            if v < 133 {
                                vec![316usize]
                            } else {
                                vec![268usize]
                            }
                        } else {
                            if v < 135 {
                                vec![562usize]
                            } else {
                                if v < 136 {
                                    vec![331usize]
                                } else {
                                    vec![219usize]
                                }
                            }
                        }
                    }
                }
            }
        }
    }
}

} // verus!
