//! The tables of the zones of Canada, under their older names.

use crate::timezone_impl::{FixedTimespan, Table};
use vstd::prelude::*;

verus! {

/// Row `i` of the table of the zone `Canada/Atlantic`.
pub open spec fn atlantic_row(i: int) -> (i64, FixedTimespan) {
    if i < 114 {
     if i < 57 {
      if i < 28 {
       if i < 14 {
        if i < 7 {
         if i < 3 {
          if i < 1 {
           Table::row(-2131645536, -14400, 0, "AST")
          } else {
           if i < 2 {
            Table::row(-1696276800, -14400, 3600, "ADT")
           } else {
            Table::row(-1680469200, -14400, 0, "AST")
           }
          }
         } else {
          if i < 5 {
           if i < 4 {
            Table::row(-1632074400, -14400, 3600, "ADT")
           } else {
            Table::row(-1615143600, -14400, 0, "AST")
           }
          } else {
           if i < 6 {
            Table::row(-1566763200, -14400, 3600, "ADT")
           } else {
            Table::row(-1557090000, -14400, 0, "AST")
           }
          }
         }
        } else {
         if i < 10 {
          if i < 8 {
           Table::row(-1535486400, -14400, 3600, "ADT")
          } else {
           if i < 9 {
            Table::row(-1524949200, -14400, 0, "AST")
           } else {
            Table::row(-1504468800, -14400, 3600, "ADT")
           }
          }
         } else {
          if i < 12 {
           if i < 11 {
            Table::row(-1493413200, -14400, 0, "AST")
           } else {
            Table::row(-1472414400, -14400, 3600, "ADT")
           }
          } else {
           if i < 13 {
            Table::row(-1461963600, -14400, 0, "AST")
           } else {
            Table::row(-1440964800, -14400, 3600, "ADT")
           }
          }
         }
        }
       } else {
        if i < 21 {
         if i < 17 {
          if i < 15 {
           Table::row(-1429390800, -14400, 0, "AST")
          } else {
           if i < 16 {
            Table::row(-1409515200, -14400, 3600, "ADT")
           } else {
            Table::row(-1396731600, -14400, 0, "AST")
           }
          }
         } else {
          if i < 19 {
           if i < 18 {
            Table::row(-1376856000, -14400, 3600, "ADT")
           } else {
            Table::row(-1366491600, -14400, 0, "AST")
           }
          } else {
           if i < 20 {
            Table::row(-1346616000, -14400, 3600, "ADT")
           } else {
            Table::row(-1333832400, -14400, 0, "AST")
           }
          }
         }
        } else {
         if i < 24 {
          if i < 22 {
           Table::row(-1313956800, -14400, 3600, "ADT")
          } else {
           if i < 23 {
            Table::row(-1303678800, -14400, 0, "AST")
           } else {
            Table::row(-1282507200, -14400, 3600, "ADT")
           }
          }
         } else {
          if i < 26 {
           if i < 25 {
            Table::row(-1272661200, -14400, 0, "AST")
           } else {
            Table::row(-1251057600, -14400, 3600, "ADT")
           }
          } else {
           if i < 27 {
            Table::row(-1240088400, -14400, 0, "AST")
           } else {
            Table::row(-1219608000, -14400, 3600, "ADT")
           }
          }
         }
        }
       }
      } else {
       if i < 42 {
        if i < 35 {
         if i < 31 {
          if i < 29 {
           Table::row(-1207429200, -14400, 0, "AST")
          } else {
           if i < 30 {
            Table::row(-1188763200, -14400, 3600, "ADT")
           } else {
            Table::row(-1175979600, -14400, 0, "AST")
           }
          }
         } else {
          if i < 33 {
           if i < 32 {
            Table::row(-1157313600, -14400, 3600, "ADT")
           } else {
            Table::row(-1143925200, -14400, 0, "AST")
           }
          } else {
           if i < 34 {
            Table::row(-1124049600, -14400, 3600, "ADT")
           } else {
            Table::row(-1113771600, -14400, 0, "AST")
           }
          }
         }
        } else {
         if i < 38 {
          if i < 36 {
           Table::row(-1091390400, -14400, 3600, "ADT")
          } else {
           if i < 37 {
            Table::row(-1081026000, -14400, 0, "AST")
           } else {
            Table::row(-1059854400, -14400, 3600, "ADT")
           }
          }
         } else {
          if i < 40 {
           if i < 39 {
            Table::row(-1050786000, -14400, 0, "AST")
           } else {
            Table::row(-1030910400, -14400, 3600, "ADT")
           }
          } else {
           if i < 41 {
            Table::row(-1018126800, -14400, 0, "AST")
           } else {
            Table::row(-999460800, -14400, 3600, "ADT")
           }
          }
         }
        }
       } else {
        if i < 49 {
         if i < 45 {
          if i < 43 {
           Table::row(-986677200, -14400, 0, "AST")
          } else {
           if i < 44 {
            Table::row(-965592000, -14400, 3600, "ADT")
           } else {
            Table::row(-955227600, -14400, 0, "AST")
           }
          }
         } else {
          if i < 47 {
           if i < 46 {
            Table::row(-935956800, -14400, 3600, "ADT")
           } else {
            Table::row(-923173200, -14400, 0, "AST")
           }
          } else {
           if i < 48 {
            Table::row(-904507200, -14400, 3600, "ADT")
           } else {
            Table::row(-891723600, -14400, 0, "AST")
           }
          }
         }
        } else {
         if i < 53 {
          if i < 51 {
           if i < 50 {
            Table::row(-880221600, -14400, 3600, "AWT")
           } else {
            Table::row(-769395600, -14400, 3600, "APT")
           }
          } else {
           if i < 52 {
            Table::row(-765399600, -14400, 0, "AST")
           } else {
            Table::row(-747252000, -14400, 3600, "ADT")
           }
          }
         } else {
          if i < 55 {
           if i < 54 {
            Table::row(-733950000, -14400, 0, "AST")
           } else {
            Table::row(-715802400, -14400, 3600, "ADT")
           }
          } else {
           if i < 56 {
            Table::row(-702500400, -14400, 0, "AST")
           } else {
            Table::row(-684352800, -14400, 3600, "ADT")
           }
          }
         }
        }
       }
      }
     } else {
      if i < 85 {
       if i < 71 {
        if i < 64 {
         if i < 60 {
          if i < 58 {
           Table::row(-671050800, -14400, 0, "AST")
          } else {
           if i < 59 {
            Table::row(-652903200, -14400, 3600, "ADT")
           } else {
            Table::row(-639601200, -14400, 0, "AST")
           }
          }
         } else {
          if i < 62 {
           if i < 61 {
            Table::row(-589399200, -14400, 3600, "ADT")
           } else {
            Table::row(-576097200, -14400, 0, "AST")
           }
          } else {
           if i < 63 {
            Table::row(-557949600, -14400, 3600, "ADT")
           } else {
            Table::row(-544647600, -14400, 0, "AST")
           }
          }
         }
        } else {
         if i < 67 {
          if i < 65 {
           Table::row(-526500000, -14400, 3600, "ADT")
          } else {
           if i < 66 {
            Table::row(-513198000, -14400, 0, "AST")
           } else {
            Table::row(-495050400, -14400, 3600, "ADT")
           }
          }
         } else {
          if i < 69 {
           if i < 68 {
            Table::row(-481748400, -14400, 0, "AST")
           } else {
            Table::row(-431546400, -14400, 3600, "ADT")
           }
          } else {
           if i < 70 {
            Table::row(-418244400, -14400, 0, "AST")
           } else {
            Table::row(-400096800, -14400, 3600, "ADT")
           }
          }
         }
        }
       } else {
        if i < 78 {
         if i < 74 {
          if i < 72 {
           Table::row(-386794800, -14400, 0, "AST")
          } else {
           if i < 73 {
            Table::row(-368647200, -14400, 3600, "ADT")
           } else {
            Table::row(-355345200, -14400, 0, "AST")
           }
          }
         } else {
          if i < 76 {
           if i < 75 {
            Table::row(-337197600, -14400, 3600, "ADT")
           } else {
            Table::row(-323895600, -14400, 0, "AST")
           }
          } else {
           if i < 77 {
            Table::row(-242244000, -14400, 3600, "ADT")
           } else {
            Table::row(-226522800, -14400, 0, "AST")
           }
          }
         }
        } else {
         if i < 81 {
          if i < 79 {
           Table::row(-210794400, -14400, 3600, "ADT")
          } else {
           if i < 80 {
            Table::row(-195073200, -14400, 0, "AST")
           } else {
            Table::row(-179344800, -14400, 3600, "ADT")
           }
          }
         } else {
          if i < 83 {
           if i < 82 {
            Table::row(-163623600, -14400, 0, "AST")
           } else {
            Table::row(-147895200, -14400, 3600, "ADT")
           }
          } else {
           if i < 84 {
            Table::row(-131569200, -14400, 0, "AST")
           } else {
            Table::row(-116445600, -14400, 3600, "ADT")
           }
          }
         }
        }
       }
      } else {
       if i < 99 {
        if i < 92 {
         if i < 88 {
          if i < 86 {
           Table::row(-100119600, -14400, 0, "AST")
          } else {
           if i < 87 {
            Table::row(-84391200, -14400, 3600, "ADT")
           } else {
            Table::row(-68670000, -14400, 0, "AST")
           }
          }
         } else {
          if i < 90 {
           if i < 89 {
            Table::row(-52941600, -14400, 3600, "ADT")
           } else {
            Table::row(-37220400, -14400, 0, "AST")
           }
          } else {
           if i < 91 {
            Table::row(-21492000, -14400, 3600, "ADT")
           } else {
            Table::row(-5770800, -14400, 0, "AST")
           }
          }
         }
        } else {
         if i < 95 {
          if i < 93 {
           Table::row(9957600, -14400, 3600, "ADT")
          } else {
           if i < 94 {
            Table::row(25678800, -14400, 0, "AST")
           } else {
            Table::row(41407200, -14400, 3600, "ADT")
           }
          }
         } else {
          if i < 97 {
           if i < 96 {
            Table::row(57733200, -14400, 0, "AST")
           } else {
            Table::row(73461600, -14400, 3600, "ADT")
           }
          } else {
           if i < 98 {
            Table::row(89182800, -14400, 0, "AST")
           } else {
            Table::row(104911200, -14400, 3600, "ADT")
           }
          }
         }
        }
       } else {
        if i < 106 {
         if i < 102 {
          if i < 100 {
           Table::row(120632400, -14400, 0, "AST")
          } else {
           if i < 101 {
            Table::row(136360800, -14400, 3600, "ADT")
           } else {
            Table::row(152082000, -14400, 0, "AST")
           }
          }
         } else {
          if i < 104 {
           if i < 103 {
            Table::row(167810400, -14400, 3600, "ADT")
           } else {
            Table::row(183531600, -14400, 0, "AST")
           }
          } else {
           if i < 105 {
            Table::row(199260000, -14400, 3600, "ADT")
           } else {
            Table::row(215586000, -14400, 0, "AST")
           }
          }
         }
        } else {
         if i < 110 {
          if i < 108 {
           if i < 107 {
            Table::row(230709600, -14400, 3600, "ADT")
           } else {
            Table::row(247035600, -14400, 0, "AST")
           }
          } else {
           if i < 109 {
            Table::row(262764000, -14400, 3600, "ADT")
           } else {
            Table::row(278485200, -14400, 0, "AST")
           }
          }
         } else {
          if i < 112 {
           if i < 111 {
            Table::row(294213600, -14400, 3600, "ADT")
           } else {
            Table::row(309934800, -14400, 0, "AST")
           }
          } else {
           if i < 113 {
            Table::row(325663200, -14400, 3600, "ADT")
           } else {
            Table::row(341384400, -14400, 0, "AST")
           }
          }
         }
        }
       }
      }
     }
    } else {
     if i < 171 {
      if i < 142 {
       if i < 128 {
        if i < 121 {
         if i < 117 {
          if i < 115 {
           Table::row(357112800, -14400, 3600, "ADT")
          } else {
           if i < 116 {
            Table::row(372834000, -14400, 0, "AST")
           } else {
            Table::row(388562400, -14400, 3600, "ADT")
           }
          }
         } else {
          if i < 119 {
           if i < 118 {
            Table::row(404888400, -14400, 0, "AST")
           } else {
            Table::row(420012000, -14400, 3600, "ADT")
           }
          } else {
           if i < 120 {
            Table::row(436338000, -14400, 0, "AST")
           } else {
            Table::row(452066400, -14400, 3600, "ADT")
           }
          }
         }
        } else {
         if i < 124 {
          if i < 122 {
           Table::row(467787600, -14400, 0, "AST")
          } else {
           if i < 123 {
            Table::row(483516000, -14400, 3600, "ADT")
           } else {
            Table::row(499237200, -14400, 0, "AST")
           }
          }
         } else {
          if i < 126 {
           if i < 125 {
            Table::row(514965600, -14400, 3600, "ADT")
           } else {
            Table::row(530686800, -14400, 0, "AST")
           }
          } else {
           if i < 127 {
            Table::row(544600800, -14400, 3600, "ADT")
           } else {
            Table::row(562136400, -14400, 0, "AST")
           }
          }
         }
        }
       } else {
        if i < 135 {
         if i < 131 {
          if i < 129 {
           Table::row(576050400, -14400, 3600, "ADT")
          } else {
           if i < 130 {
            Table::row(594190800, -14400, 0, "AST")
           } else {
            Table::row(607500000, -14400, 3600, "ADT")
           }
          }
         } else {
          if i < 133 {
           if i < 132 {
            Table::row(625640400, -14400, 0, "AST")
           } else {
            Table::row(638949600, -14400, 3600, "ADT")
           }
          } else {
           if i < 134 {
            Table::row(657090000, -14400, 0, "AST")
           } else {
            Table::row(671004000, -14400, 3600, "ADT")
           }
          }
         }
        } else {
         if i < 138 {
          if i < 136 {
           Table::row(688539600, -14400, 0, "AST")
          } else {
           if i < 137 {
            Table::row(702453600, -14400, 3600, "ADT")
           } else {
            Table::row(719989200, -14400, 0, "AST")
           }
          }
         } else {
          if i < 140 {
           if i < 139 {
            Table::row(733903200, -14400, 3600, "ADT")
           } else {
            Table::row(752043600, -14400, 0, "AST")
           }
          } else {
           if i < 141 {
            Table::row(765352800, -14400, 3600, "ADT")
           } else {
            Table::row(783493200, -14400, 0, "AST")
           }
          }
         }
        }
       }
      } else {
       if i < 156 {
        if i < 149 {
         if i < 145 {
          if i < 143 {
           Table::row(796802400, -14400, 3600, "ADT")
          } else {
           if i < 144 {
            Table::row(814942800, -14400, 0, "AST")
           } else {
            Table::row(828856800, -14400, 3600, "ADT")
           }
          }
         } else {
          if i < 147 {
           if i < 146 {
            Table::row(846392400, -14400, 0, "AST")
           } else {
            Table::row(860306400, -14400, 3600, "ADT")
           }
          } else {
           if i < 148 {
            Table::row(877842000, -14400, 0, "AST")
           } else {
            Table::row(891756000, -14400, 3600, "ADT")
           }
          }
         }
        } else {
         if i < 152 {
          if i < 150 {
           Table::row(909291600, -14400, 0, "AST")
          } else {
           if i < 151 {
            Table::row(923205600, -14400, 3600, "ADT")
           } else {
            Table::row(941346000, -14400, 0, "AST")
           }
          }
         } else {
          if i < 154 {
           if i < 153 {
            Table::row(954655200, -14400, 3600, "ADT")
           } else {
            Table::row(972795600, -14400, 0, "AST")
           }
          } else {
           if i < 155 {
            Table::row(986104800, -14400, 3600, "ADT")
           } else {
            Table::row(1004245200, -14400, 0, "AST")
           }
          }
         }
        }
       } else {
        if i < 163 {
         if i < 159 {
          if i < 157 {
           Table::row(1018159200, -14400, 3600, "ADT")
          } else {
           if i < 158 {
            Table::row(1035694800, -14400, 0, "AST")
           } else {
            Table::row(1049608800, -14400, 3600, "ADT")
           }
          }
         } else {
          if i < 161 {
           if i < 160 {
            Table::row(1067144400, -14400, 0, "AST")
           } else {
            Table::row(1081058400, -14400, 3600, "ADT")
           }
          } else {
           if i < 162 {
            Table::row(1099198800, -14400, 0, "AST")
           } else {
            Table::row(1112508000, -14400, 3600, "ADT")
           }
          }
         }
        } else {
         if i < 167 {
          if i < 165 {
           if i < 164 {
            Table::row(1130648400, -14400, 0, "AST")
           } else {
            Table::row(1143957600, -14400, 3600, "ADT")
           }
          } else {
           if i < 166 {
            Table::row(1162098000, -14400, 0, "AST")
           } else {
            Table::row(1173592800, -14400, 3600, "ADT")
           }
          }
         } else {
          if i < 169 {
           if i < 168 {
            Table::row(1194152400, -14400, 0, "AST")
           } else {
            Table::row(1205042400, -14400, 3600, "ADT")
           }
          } else {
           if i < 170 {
            Table::row(1225602000, -14400, 0, "AST")
           } else {
            Table::row(1236492000, -14400, 3600, "ADT")
           }
          }
         }
        }
       }
      }
     } else {
      if i < 199 {
       if i < 185 {
        if i < 178 {
         if i < 174 {
          if i < 172 {
           Table::row(1257051600, -14400, 0, "AST")
          } else {
           if i < 173 {
            Table::row(1268546400, -14400, 3600, "ADT")
           } else {
            Table::row(1289106000, -14400, 0, "AST")
           }
          }
         } else {
          if i < 176 {
           if i < 175 {
            Table::row(1299996000, -14400, 3600, "ADT")
           } else {
            Table::row(1320555600, -14400, 0, "AST")
           }
          } else {
           if i < 177 {
            Table::row(1331445600, -14400, 3600, "ADT")
           } else {
            Table::row(1352005200, -14400, 0, "AST")
           }
          }
         }
        } else {
         if i < 181 {
          if i < 179 {
           Table::row(1362895200, -14400, 3600, "ADT")
          } else {
           if i < 180 {
            Table::row(1383454800, -14400, 0, "AST")
           } else {
            Table::row(1394344800, -14400, 3600, "ADT")
           }
          }
         } else {
          if i < 183 {
           if i < 182 {
            Table::row(1414904400, -14400, 0, "AST")
           } else {
            Table::row(1425794400, -14400, 3600, "ADT")
           }
          } else {
           if i < 184 {
            Table::row(1446354000, -14400, 0, "AST")
           } else {
            Table::row(1457848800, -14400, 3600, "ADT")
           }
          }
         }
        }
       } else {
        if i < 192 {
         if i < 188 {
          if i < 186 {
           Table::row(1478408400, -14400, 0, "AST")
          } else {
           if i < 187 {
            Table::row(1489298400, -14400, 3600, "ADT")
           } else {
            Table::row(1509858000, -14400, 0, "AST")
           }
          }
         } else {
          if i < 190 {
           if i < 189 {
            Table::row(1520748000, -14400, 3600, "ADT")
           } else {
            Table::row(1541307600, -14400, 0, "AST")
           }
          } else {
           if i < 191 {
            Table::row(1552197600, -14400, 3600, "ADT")
           } else {
            Table::row(1572757200, -14400, 0, "AST")
           }
          }
         }
        } else {
         if i < 195 {
          if i < 193 {
           Table::row(1583647200, -14400, 3600, "ADT")
          } else {
           if i < 194 {
            Table::row(1604206800, -14400, 0, "AST")
           } else {
            Table::row(1615701600, -14400, 3600, "ADT")
           }
          }
         } else {
          if i < 197 {
           if i < 196 {
            Table::row(1636261200, -14400, 0, "AST")
           } else {
            Table::row(1647151200, -14400, 3600, "ADT")
           }
          } else {
           if i < 198 {
            Table::row(1667710800, -14400, 0, "AST")
           } else {
            Table::row(1678600800, -14400, 3600, "ADT")
           }
          }
         }
        }
       }
      } else {
       if i < 213 {
        if i < 206 {
         if i < 202 {
          if i < 200 {
           Table::row(1699160400, -14400, 0, "AST")
          } else {
           if i < 201 {
            Table::row(1710050400, -14400, 3600, "ADT")
           } else {
            Table::row(1730610000, -14400, 0, "AST")
           }
          }
         } else {
          if i < 204 {
           if i < 203 {
            Table::row(1741500000, -14400, 3600, "ADT")
           } else {
            Table::row(1762059600, -14400, 0, "AST")
           }
          } else {
           if i < 205 {
            Table::row(1772949600, -14400, 3600, "ADT")
           } else {
            Table::row(1793509200, -14400, 0, "AST")
           }
          }
         }
        } else {
         if i < 209 {
          if i < 207 {
           Table::row(1805004000, -14400, 3600, "ADT")
          } else {
           if i < 208 {
            Table::row(1825563600, -14400, 0, "AST")
           } else {
            Table::row(1836453600, -14400, 3600, "ADT")
           }
          }
         } else {
          if i < 211 {
           if i < 210 {
            Table::row(1857013200, -14400, 0, "AST")
           } else {
            Table::row(1867903200, -14400, 3600, "ADT")
           }
          } else {
           if i < 212 {
            Table::row(1888462800, -14400, 0, "AST")
           } else {
            Table::row(1899352800, -14400, 3600, "ADT")
           }
          }
         }
        }
       } else {
        if i < 220 {
         if i < 216 {
          if i < 214 {
           Table::row(1919912400, -14400, 0, "AST")
          } else {
           if i < 215 {
            Table::row(1930802400, -14400, 3600, "ADT")
           } else {
            Table::row(1951362000, -14400, 0, "AST")
           }
          }
         } else {
          if i < 218 {
           if i < 217 {
            Table::row(1962856800, -14400, 3600, "ADT")
           } else {
            Table::row(1983416400, -14400, 0, "AST")
           }
          } else {
           if i < 219 {
            Table::row(1994306400, -14400, 3600, "ADT")
           } else {
            Table::row(2014866000, -14400, 0, "AST")
           }
          }
         }
        } else {
         if i < 224 {
          if i < 222 {
           if i < 221 {
            Table::row(2025756000, -14400, 3600, "ADT")
           } else {
            Table::row(2046315600, -14400, 0, "AST")
           }
          } else {
           if i < 223 {
            Table::row(2057205600, -14400, 3600, "ADT")
           } else {
            Table::row(2077765200, -14400, 0, "AST")
           }
          }
         } else {
          if i < 226 {
           if i < 225 {
            Table::row(2088655200, -14400, 3600, "ADT")
           } else {
            Table::row(2109214800, -14400, 0, "AST")
           }
          } else {
           if i < 227 {
            Table::row(2120104800, -14400, 3600, "ADT")
           } else {
            Table::row(2140664400, -14400, 0, "AST")
           }
          }
         }
        }
       }
      }
     }
    }
}

/// The rows of the table of the zone `Canada/Atlantic`.
pub open spec fn atlantic_rows() -> spec_fn(int) -> (i64, FixedTimespan) {
    |i: int| atlantic_row(i)
}

/// The table of the zone `Canada/Atlantic`.
pub open spec fn atlantic() -> Table {
    Table::listed(Table::row(0, -15264, 0, "LMT").1, 228, atlantic_rows())
}

/// Row `i` of the table of the zone `Canada/Central`.
pub open spec fn central_row(i: int) -> (i64, FixedTimespan) {
    if i < 93 {
     if i < 46 {
      if i < 23 {
       if i < 11 {
        if i < 5 {
         if i < 2 {
          if i < 1 {
           Table::row(-2602258284, -21600, 0, "CST")
          } else {
           Table::row(-1694368800, -21600, 3600, "CDT")
          }
         } else {
          if i < 3 {
           Table::row(-1681671600, -21600, 0, "CST")
          } else {
           if i < 4 {
            Table::row(-1632067200, -21600, 3600, "CDT")
           } else {
            Table::row(-1615136400, -21600, 0, "CST")
           }
          }
         }
        } else {
         if i < 8 {
          if i < 6 {
           Table::row(-1029686400, -21600, 3600, "CDT")
          } else {
           if i < 7 {
            Table::row(-1018198800, -21600, 0, "CST")
           } else {
            Table::row(-880214400, -21600, 3600, "CWT")
           }
          }
         } else {
          if i < 9 {
           Table::row(-769395600, -21600, 3600, "CPT")
          } else {
           if i < 10 {
            Table::row(-765392400, -21600, 0, "CST")
           } else {
            Table::row(-746035200, -21600, 3600, "CDT")
           }
          }
         }
        }
       } else {
        if i < 17 {
         if i < 14 {
          if i < 12 {
           Table::row(-732733200, -21600, 0, "CST")
          } else {
           if i < 13 {
            Table::row(-715795200, -21600, 3600, "CDT")
           } else {
            Table::row(-702493200, -21600, 0, "CST")
           }
          }
         } else {
          if i < 15 {
           Table::row(-684345600, -21600, 3600, "CDT")
          } else {
           if i < 16 {
            Table::row(-671043600, -21600, 0, "CST")
           } else {
            Table::row(-652896000, -21600, 3600, "CDT")
           }
          }
         }
        } else {
         if i < 20 {
          if i < 18 {
           Table::row(-639594000, -21600, 0, "CST")
          } else {
           if i < 19 {
            Table::row(-620755200, -21600, 3600, "CDT")
           } else {
            Table::row(-607626000, -21600, 0, "CST")
           }
          }
         } else {
          if i < 21 {
           Table::row(-589392000, -21600, 3600, "CDT")
          } else {
           if i < 22 {
            Table::row(-576090000, -21600, 0, "CST")
           } else {
            Table::row(-557942400, -21600, 3600, "CDT")
           }
          }
         }
        }
       }
      } else {
       if i < 34 {
        if i < 28 {
         if i < 25 {
          if i < 24 {
           Table::row(-544640400, -21600, 0, "CST")
          } else {
           Table::row(-526492800, -21600, 3600, "CDT")
          }
         } else {
          if i < 26 {
           Table::row(-513190800, -21600, 0, "CST")
          } else {
           if i < 27 {
            Table::row(-495043200, -21600, 3600, "CDT")
           } else {
            Table::row(-481741200, -21600, 0, "CST")
           }
          }
         }
        } else {
         if i < 31 {
          if i < 29 {
           Table::row(-463593600, -21600, 3600, "CDT")
          } else {
           if i < 30 {
            Table::row(-450291600, -21600, 0, "CST")
           } else {
            Table::row(-431539200, -21600, 3600, "CDT")
           }
          }
         } else {
          if i < 32 {
           Table::row(-418237200, -21600, 0, "CST")
          } else {
           if i < 33 {
            Table::row(-400089600, -21600, 3600, "CDT")
           } else {
            Table::row(-386787600, -21600, 0, "CST")
           }
          }
         }
        }
       } else {
        if i < 40 {
         if i < 37 {
          if i < 35 {
           Table::row(-368640000, -21600, 3600, "CDT")
          } else {
           if i < 36 {
            Table::row(-355338000, -21600, 0, "CST")
           } else {
            Table::row(-337190400, -21600, 3600, "CDT")
           }
          }
         } else {
          if i < 38 {
           Table::row(-321469200, -21600, 0, "CST")
          } else {
           if i < 39 {
            Table::row(-305740800, -21600, 3600, "CDT")
           } else {
            Table::row(-292438800, -21600, 0, "CST")
           }
          }
         }
        } else {
         if i < 43 {
          if i < 41 {
           Table::row(-210787200, -21600, 3600, "CDT")
          } else {
           if i < 42 {
            Table::row(-198090000, -21600, 0, "CST")
           } else {
            Table::row(-116438400, -21600, 3600, "CDT")
           }
          }
         } else {
          if i < 44 {
           Table::row(-100108800, -21600, 0, "CST")
          } else {
           if i < 45 {
            Table::row(-84384000, -21600, 3600, "CDT")
           } else {
            Table::row(-68659200, -21600, 0, "CST")
           }
          }
         }
        }
       }
      }
     } else {
      if i < 69 {
       if i < 57 {
        if i < 51 {
         if i < 48 {
          if i < 47 {
           Table::row(-52934400, -21600, 3600, "CDT")
          } else {
           Table::row(-37209600, -21600, 0, "CST")
          }
         } else {
          if i < 49 {
           Table::row(-21484800, -21600, 3600, "CDT")
          } else {
           if i < 50 {
            Table::row(-5760000, -21600, 0, "CST")
           } else {
            Table::row(9964800, -21600, 3600, "CDT")
           }
          }
         }
        } else {
         if i < 54 {
          if i < 52 {
           Table::row(25689600, -21600, 0, "CST")
          } else {
           if i < 53 {
            Table::row(41414400, -21600, 3600, "CDT")
           } else {
            Table::row(57744000, -21600, 0, "CST")
           }
          }
         } else {
          if i < 55 {
           Table::row(73468800, -21600, 3600, "CDT")
          } else {
           if i < 56 {
            Table::row(89193600, -21600, 0, "CST")
           } else {
            Table::row(104918400, -21600, 3600, "CDT")
           }
          }
         }
        }
       } else {
        if i < 63 {
         if i < 60 {
          if i < 58 {
           Table::row(120643200, -21600, 0, "CST")
          } else {
           if i < 59 {
            Table::row(136368000, -21600, 3600, "CDT")
           } else {
            Table::row(152092800, -21600, 0, "CST")
           }
          }
         } else {
          if i < 61 {
           Table::row(167817600, -21600, 3600, "CDT")
          } else {
           if i < 62 {
            Table::row(183542400, -21600, 0, "CST")
           } else {
            Table::row(199267200, -21600, 3600, "CDT")
           }
          }
         }
        } else {
         if i < 66 {
          if i < 64 {
           Table::row(215596800, -21600, 0, "CST")
          } else {
           if i < 65 {
            Table::row(230716800, -21600, 3600, "CDT")
           } else {
            Table::row(247046400, -21600, 0, "CST")
           }
          }
         } else {
          if i < 67 {
           Table::row(262771200, -21600, 3600, "CDT")
          } else {
           if i < 68 {
            Table::row(278496000, -21600, 0, "CST")
           } else {
            Table::row(294220800, -21600, 3600, "CDT")
           }
          }
         }
        }
       }
      } else {
       if i < 81 {
        if i < 75 {
         if i < 72 {
          if i < 70 {
           Table::row(309945600, -21600, 0, "CST")
          } else {
           if i < 71 {
            Table::row(325670400, -21600, 3600, "CDT")
           } else {
            Table::row(341395200, -21600, 0, "CST")
           }
          }
         } else {
          if i < 73 {
           Table::row(357120000, -21600, 3600, "CDT")
          } else {
           if i < 74 {
            Table::row(372844800, -21600, 0, "CST")
           } else {
            Table::row(388569600, -21600, 3600, "CDT")
           }
          }
         }
        } else {
         if i < 78 {
          if i < 76 {
           Table::row(404899200, -21600, 0, "CST")
          } else {
           if i < 77 {
            Table::row(420019200, -21600, 3600, "CDT")
           } else {
            Table::row(436348800, -21600, 0, "CST")
           }
          }
         } else {
          if i < 79 {
           Table::row(452073600, -21600, 3600, "CDT")
          } else {
           if i < 80 {
            Table::row(467798400, -21600, 0, "CST")
           } else {
            Table::row(483523200, -21600, 3600, "CDT")
           }
          }
         }
        }
       } else {
        if i < 87 {
         if i < 84 {
          if i < 82 {
           Table::row(499248000, -21600, 0, "CST")
          } else {
           if i < 83 {
            Table::row(514972800, -21600, 3600, "CDT")
           } else {
            Table::row(530697600, -21600, 0, "CST")
           }
          }
         } else {
          if i < 85 {
           Table::row(544608000, -21600, 3600, "CDT")
          } else {
           if i < 86 {
            Table::row(562147200, -21600, 0, "CST")
           } else {
            Table::row(576057600, -21600, 3600, "CDT")
           }
          }
         }
        } else {
         if i < 90 {
          if i < 88 {
           Table::row(594201600, -21600, 0, "CST")
          } else {
           if i < 89 {
            Table::row(607507200, -21600, 3600, "CDT")
           } else {
            Table::row(625651200, -21600, 0, "CST")
           }
          }
         } else {
          if i < 91 {
           Table::row(638956800, -21600, 3600, "CDT")
          } else {
           if i < 92 {
            Table::row(657100800, -21600, 0, "CST")
           } else {
            Table::row(671011200, -21600, 3600, "CDT")
           }
          }
         }
        }
       }
      }
     }
    } else {
     if i < 139 {
      if i < 116 {
       if i < 104 {
        if i < 98 {
         if i < 95 {
          if i < 94 {
           Table::row(688550400, -21600, 0, "CST")
          } else {
           Table::row(702460800, -21600, 3600, "CDT")
          }
         } else {
          if i < 96 {
           Table::row(720000000, -21600, 0, "CST")
          } else {
           if i < 97 {
            Table::row(733910400, -21600, 3600, "CDT")
           } else {
            Table::row(752054400, -21600, 0, "CST")
           }
          }
         }
        } else {
         if i < 101 {
          if i < 99 {
           Table::row(765360000, -21600, 3600, "CDT")
          } else {
           if i < 100 {
            Table::row(783504000, -21600, 0, "CST")
           } else {
            Table::row(796809600, -21600, 3600, "CDT")
           }
          }
         } else {
          if i < 102 {
           Table::row(814953600, -21600, 0, "CST")
          } else {
           if i < 103 {
            Table::row(828864000, -21600, 3600, "CDT")
           } else {
            Table::row(846403200, -21600, 0, "CST")
           }
          }
         }
        }
       } else {
        if i < 110 {
         if i < 107 {
          if i < 105 {
           Table::row(860313600, -21600, 3600, "CDT")
          } else {
           if i < 106 {
            Table::row(877852800, -21600, 0, "CST")
           } else {
            Table::row(891763200, -21600, 3600, "CDT")
           }
          }
         } else {
          if i < 108 {
           Table::row(909302400, -21600, 0, "CST")
          } else {
           if i < 109 {
            Table::row(923212800, -21600, 3600, "CDT")
           } else {
            Table::row(941356800, -21600, 0, "CST")
           }
          }
         }
        } else {
         if i < 113 {
          if i < 111 {
           Table::row(954662400, -21600, 3600, "CDT")
          } else {
           if i < 112 {
            Table::row(972806400, -21600, 0, "CST")
           } else {
            Table::row(986112000, -21600, 3600, "CDT")
           }
          }
         } else {
          if i < 114 {
           Table::row(1004256000, -21600, 0, "CST")
          } else {
           if i < 115 {
            Table::row(1018166400, -21600, 3600, "CDT")
           } else {
            Table::row(1035705600, -21600, 0, "CST")
           }
          }
         }
        }
       }
      } else {
       if i < 127 {
        if i < 121 {
         if i < 118 {
          if i < 117 {
           Table::row(1049616000, -21600, 3600, "CDT")
          } else {
           Table::row(1067155200, -21600, 0, "CST")
          }
         } else {
          if i < 119 {
           Table::row(1081065600, -21600, 3600, "CDT")
          } else {
           if i < 120 {
            Table::row(1099209600, -21600, 0, "CST")
           } else {
            Table::row(1112515200, -21600, 3600, "CDT")
           }
          }
         }
        } else {
         if i < 124 {
          if i < 122 {
           Table::row(1130659200, -21600, 0, "CST")
          } else {
           if i < 123 {
            Table::row(1143964800, -21600, 3600, "CDT")
           } else {
            Table::row(1162105200, -21600, 0, "CST")
           }
          }
         } else {
          if i < 125 {
           Table::row(1173600000, -21600, 3600, "CDT")
          } else {
           if i < 126 {
            Table::row(1194159600, -21600, 0, "CST")
           } else {
            Table::row(1205049600, -21600, 3600, "CDT")
           }
          }
         }
        }
       } else {
        if i < 133 {
         if i < 130 {
          if i < 128 {
           Table::row(1225609200, -21600, 0, "CST")
          } else {
           if i < 129 {
            Table::row(1236499200, -21600, 3600, "CDT")
           } else {
            Table::row(1257058800, -21600, 0, "CST")
           }
          }
         } else {
          if i < 131 {
           Table::row(1268553600, -21600, 3600, "CDT")
          } else {
           if i < 132 {
            Table::row(1289113200, -21600, 0, "CST")
           } else {
            Table::row(1300003200, -21600, 3600, "CDT")
           }
          }
         }
        } else {
         if i < 136 {
          if i < 134 {
           Table::row(1320562800, -21600, 0, "CST")
          } else {
           if i < 135 {
            Table::row(1331452800, -21600, 3600, "CDT")
           } else {
            Table::row(1352012400, -21600, 0, "CST")
           }
          }
         } else {
          if i < 137 {
           Table::row(1362902400, -21600, 3600, "CDT")
          } else {
           if i < 138 {
            Table::row(1383462000, -21600, 0, "CST")
           } else {
            Table::row(1394352000, -21600, 3600, "CDT")
           }
          }
         }
        }
       }
      }
     } else {
      if i < 162 {
       if i < 150 {
        if i < 144 {
         if i < 141 {
          if i < 140 {
           Table::row(1414911600, -21600, 0, "CST")
          } else {
           Table::row(1425801600, -21600, 3600, "CDT")
          }
         } else {
          if i < 142 {
           Table::row(1446361200, -21600, 0, "CST")
          } else {
           if i < 143 {
            Table::row(1457856000, -21600, 3600, "CDT")
           } else {
            Table::row(1478415600, -21600, 0, "CST")
           }
          }
         }
        } else {
         if i < 147 {
          if i < 145 {
           Table::row(1489305600, -21600, 3600, "CDT")
          } else {
           if i < 146 {
            Table::row(1509865200, -21600, 0, "CST")
           } else {
            Table::row(1520755200, -21600, 3600, "CDT")
           }
          }
         } else {
          if i < 148 {
           Table::row(1541314800, -21600, 0, "CST")
          } else {
           if i < 149 {
            Table::row(1552204800, -21600, 3600, "CDT")
           } else {
            Table::row(1572764400, -21600, 0, "CST")
           }
          }
         }
        }
       } else {
        if i < 156 {
         if i < 153 {
          if i < 151 {
           Table::row(1583654400, -21600, 3600, "CDT")
          } else {
           if i < 152 {
            Table::row(1604214000, -21600, 0, "CST")
           } else {
            Table::row(1615708800, -21600, 3600, "CDT")
           }
          }
         } else {
          if i < 154 {
           Table::row(1636268400, -21600, 0, "CST")
          } else {
           if i < 155 {
            Table::row(1647158400, -21600, 3600, "CDT")
           } else {
            Table::row(1667718000, -21600, 0, "CST")
           }
          }
         }
        } else {
         if i < 159 {
          if i < 157 {
           Table::row(1678608000, -21600, 3600, "CDT")
          } else {
           if i < 158 {
            Table::row(1699167600, -21600, 0, "CST")
           } else {
            Table::row(1710057600, -21600, 3600, "CDT")
           }
          }
         } else {
          if i < 160 {
           Table::row(1730617200, -21600, 0, "CST")
          } else {
           if i < 161 {
            Table::row(1741507200, -21600, 3600, "CDT")
           } else {
            Table::row(1762066800, -21600, 0, "CST")
           }
          }
         }
        }
       }
      } else {
       if i < 174 {
        if i < 168 {
         if i < 165 {
          if i < 163 {
           Table::row(1772956800, -21600, 3600, "CDT")
          } else {
           if i < 164 {
            Table::row(1793516400, -21600, 0, "CST")
           } else {
            Table::row(1805011200, -21600, 3600, "CDT")
           }
          }
         } else {
          if i < 166 {
           Table::row(1825570800, -21600, 0, "CST")
          } else {
           if i < 167 {
            Table::row(1836460800, -21600, 3600, "CDT")
           } else {
            Table::row(1857020400, -21600, 0, "CST")
           }
          }
         }
        } else {
         if i < 171 {
          if i < 169 {
           Table::row(1867910400, -21600, 3600, "CDT")
          } else {
           if i < 170 {
            Table::row(1888470000, -21600, 0, "CST")
           } else {
            Table::row(1899360000, -21600, 3600, "CDT")
           }
          }
         } else {
          if i < 172 {
           Table::row(1919919600, -21600, 0, "CST")
          } else {
           if i < 173 {
            Table::row(1930809600, -21600, 3600, "CDT")
           } else {
            Table::row(1951369200, -21600, 0, "CST")
           }
          }
         }
        }
       } else {
        if i < 180 {
         if i < 177 {
          if i < 175 {
           Table::row(1962864000, -21600, 3600, "CDT")
          } else {
           if i < 176 {
            Table::row(1983423600, -21600, 0, "CST")
           } else {
            Table::row(1994313600, -21600, 3600, "CDT")
           }
          }
         } else {
          if i < 178 {
           Table::row(2014873200, -21600, 0, "CST")
          } else {
           if i < 179 {
            Table::row(2025763200, -21600, 3600, "CDT")
           } else {
            Table::row(2046322800, -21600, 0, "CST")
           }
          }
         }
        } else {
         if i < 183 {
          if i < 181 {
           Table::row(2057212800, -21600, 3600, "CDT")
          } else {
           if i < 182 {
            Table::row(2077772400, -21600, 0, "CST")
           } else {
            Table::row(2088662400, -21600, 3600, "CDT")
           }
          }
         } else {
          if i < 184 {
           Table::row(2109222000, -21600, 0, "CST")
          } else {
           if i < 185 {
            Table::row(2120112000, -21600, 3600, "CDT")
           } else {
            Table::row(2140671600, -21600, 0, "CST")
           }
          }
         }
        }
       }
      }
     }
    }
}

/// The rows of the table of the zone `Canada/Central`.
pub open spec fn central_rows() -> spec_fn(int) -> (i64, FixedTimespan) {
    |i: int| central_row(i)
}

/// The table of the zone `Canada/Central`.
pub open spec fn central() -> Table {
    Table::listed(Table::row(0, -23316, 0, "LMT").1, 186, central_rows())
}

/// Row `i` of the table of the zone `Canada/Eastern`.
pub open spec fn eastern_row(i: int) -> (i64, FixedTimespan) {
    if i < 116 {
     if i < 58 {
      if i < 29 {
       if i < 14 {
        if i < 7 {
         if i < 3 {
          if i < 1 {
           Table::row(-2366736148, -18000, 0, "EST")
          } else {
           if i < 2 {
            Table::row(-1632070800, -18000, 3600, "EDT")
           } else {
            Table::row(-1615140000, -18000, 0, "EST")
           }
          }
         } else {
          if i < 5 {
           if i < 4 {
            Table::row(-1601753400, -18000, 3600, "EDT")
           } else {
            Table::row(-1583697600, -18000, 0, "EST")
           }
          } else {
           if i < 6 {
            Table::row(-1567357200, -18000, 3600, "EDT")
           } else {
            Table::row(-1554667200, -18000, 0, "EST")
           }
          }
         }
        } else {
         if i < 10 {
          if i < 8 {
           Table::row(-1534698000, -18000, 3600, "EDT")
          } else {
           if i < 9 {
            Table::row(-1524074400, -18000, 0, "EST")
           } else {
            Table::row(-1503248400, -18000, 3600, "EDT")
           }
          }
         } else {
          if i < 12 {
           if i < 11 {
            Table::row(-1492365600, -18000, 0, "EST")
           } else {
            Table::row(-1471798800, -18000, 3600, "EDT")
           }
          } else {
           if i < 13 {
            Table::row(-1460916000, -18000, 0, "EST")
           } else {
            Table::row(-1440954000, -18000, 3600, "EDT")
           }
          }
         }
        }
       } else {
        if i < 21 {
         if i < 17 {
          if i < 15 {
           Table::row(-1428861600, -18000, 0, "EST")
          } else {
           if i < 16 {
            Table::row(-1409504400, -18000, 3600, "EDT")
           } else {
            Table::row(-1397412000, -18000, 0, "EST")
           }
          }
         } else {
          if i < 19 {
           if i < 18 {
            Table::row(-1378054800, -18000, 3600, "EDT")
           } else {
            Table::row(-1365962400, -18000, 0, "EST")
           }
          } else {
           if i < 20 {
            Table::row(-1346605200, -18000, 3600, "EDT")
           } else {
            Table::row(-1333908000, -18000, 0, "EST")
           }
          }
         }
        } else {
         if i < 25 {
          if i < 23 {
           if i < 22 {
            Table::row(-1315155600, -18000, 3600, "EDT")
           } else {
            Table::row(-1301853600, -18000, 0, "EST")
           }
          } else {
           if i < 24 {
            Table::row(-1283706000, -18000, 3600, "EDT")
           } else {
            Table::row(-1270404000, -18000, 0, "EST")
           }
          }
         } else {
          if i < 27 {
           if i < 26 {
            Table::row(-1252256400, -18000, 3600, "EDT")
           } else {
            Table::row(-1238954400, -18000, 0, "EST")
           }
          } else {
           if i < 28 {
            Table::row(-1220806800, -18000, 3600, "EDT")
           } else {
            Table::row(-1207504800, -18000, 0, "EST")
           }
          }
         }
        }
       }
      } else {
       if i < 43 {
        if i < 36 {
         if i < 32 {
          if i < 30 {
           Table::row(-1188752400, -18000, 3600, "EDT")
          } else {
           if i < 31 {
            Table::row(-1176055200, -18000, 0, "EST")
           } else {
            Table::row(-1157302800, -18000, 3600, "EDT")
           }
          }
         } else {
          if i < 34 {
           if i < 33 {
            Table::row(-1144000800, -18000, 0, "EST")
           } else {
            Table::row(-1125853200, -18000, 3600, "EDT")
           }
          } else {
           if i < 35 {
            Table::row(-1112551200, -18000, 0, "EST")
           } else {
            Table::row(-1094403600, -18000, 3600, "EDT")
           }
          }
         }
        } else {
         if i < 39 {
          if i < 37 {
           Table::row(-1081101600, -18000, 0, "EST")
          } else {
           if i < 38 {
            Table::row(-1062954000, -18000, 3600, "EDT")
           } else {
            Table::row(-1049652000, -18000, 0, "EST")
           }
          }
         } else {
          if i < 41 {
           if i < 40 {
            Table::row(-1031504400, -18000, 3600, "EDT")
           } else {
            Table::row(-1018202400, -18000, 0, "EST")
           }
          } else {
           if i < 42 {
            Table::row(-1000054800, -18000, 3600, "EDT")
           } else {
            Table::row(-986752800, -18000, 0, "EST")
           }
          }
         }
        }
       } else {
        if i < 50 {
         if i < 46 {
          if i < 44 {
           Table::row(-968000400, -18000, 3600, "EDT")
          } else {
           if i < 45 {
            Table::row(-955303200, -18000, 0, "EST")
           } else {
            Table::row(-936550800, -18000, 3600, "EDT")
           }
          }
         } else {
          if i < 48 {
           if i < 47 {
            Table::row(-880218000, -18000, 3600, "EWT")
           } else {
            Table::row(-769395600, -18000, 3600, "EPT")
           }
          } else {
           if i < 49 {
            Table::row(-765396000, -18000, 0, "EST")
           } else {
            Table::row(-747248400, -18000, 3600, "EDT")
           }
          }
         }
        } else {
         if i < 54 {
          if i < 52 {
           if i < 51 {
            Table::row(-733946400, -18000, 0, "EST")
           } else {
            Table::row(-715798800, -18000, 3600, "EDT")
           }
          } else {
           if i < 53 {
            Table::row(-702496800, -18000, 0, "EST")
           } else {
            Table::row(-684349200, -18000, 3600, "EDT")
           }
          }
         } else {
          if i < 56 {
           if i < 55 {
            Table::row(-671047200, -18000, 0, "EST")
           } else {
            Table::row(-652899600, -18000, 3600, "EDT")
           }
          } else {
           if i < 57 {
            Table::row(-634154400, -18000, 0, "EST")
           } else {
            Table::row(-620845200, -18000, 3600, "EDT")
           }
          }
         }
        }
       }
      }
     } else {
      if i < 87 {
       if i < 72 {
        if i < 65 {
         if i < 61 {
          if i < 59 {
           Table::row(-602704800, -18000, 0, "EST")
          } else {
           if i < 60 {
            Table::row(-589395600, -18000, 3600, "EDT")
           } else {
            Table::row(-576093600, -18000, 0, "EST")
           }
          }
         } else {
          if i < 63 {
           if i < 62 {
            Table::row(-557946000, -18000, 3600, "EDT")
           } else {
            Table::row(-544644000, -18000, 0, "EST")
           }
          } else {
           if i < 64 {
            Table::row(-526496400, -18000, 3600, "EDT")
           } else {
            Table::row(-513194400, -18000, 0, "EST")
           }
          }
         }
        } else {
         if i < 68 {
          if i < 66 {
           Table::row(-495046800, -18000, 3600, "EDT")
          } else {
           if i < 67 {
            Table::row(-481744800, -18000, 0, "EST")
           } else {
            Table::row(-463597200, -18000, 3600, "EDT")
           }
          }
         } else {
          if i < 70 {
           if i < 69 {
            Table::row(-450295200, -18000, 0, "EST")
           } else {
            Table::row(-431542800, -18000, 3600, "EDT")
           }
          } else {
           if i < 71 {
            Table::row(-418240800, -18000, 0, "EST")
           } else {
            Table::row(-400093200, -18000, 3600, "EDT")
           }
          }
         }
        }
       } else {
        if i < 79 {
         if i < 75 {
          if i < 73 {
           Table::row(-384372000, -18000, 0, "EST")
          } else {
           if i < 74 {
            Table::row(-368643600, -18000, 3600, "EDT")
           } else {
            Table::row(-352922400, -18000, 0, "EST")
           }
          }
         } else {
          if i < 77 {
           if i < 76 {
            Table::row(-337194000, -18000, 3600, "EDT")
           } else {
            Table::row(-321472800, -18000, 0, "EST")
           }
          } else {
           if i < 78 {
            Table::row(-305744400, -18000, 3600, "EDT")
           } else {
            Table::row(-289418400, -18000, 0, "EST")
           }
          }
         }
        } else {
         if i < 83 {
          if i < 81 {
           if i < 80 {
            Table::row(-273690000, -18000, 3600, "EDT")
           } else {
            Table::row(-257968800, -18000, 0, "EST")
           }
          } else {
           if i < 82 {
            Table::row(-242240400, -18000, 3600, "EDT")
           } else {
            Table::row(-226519200, -18000, 0, "EST")
           }
          }
         } else {
          if i < 85 {
           if i < 84 {
            Table::row(-210790800, -18000, 3600, "EDT")
           } else {
            Table::row(-195069600, -18000, 0, "EST")
           }
          } else {
           if i < 86 {
            Table::row(-179341200, -18000, 3600, "EDT")
           } else {
            Table::row(-163620000, -18000, 0, "EST")
           }
          }
         }
        }
       }
      } else {
       if i < 101 {
        if i < 94 {
         if i < 90 {
          if i < 88 {
           Table::row(-147891600, -18000, 3600, "EDT")
          } else {
           if i < 89 {
            Table::row(-131565600, -18000, 0, "EST")
           } else {
            Table::row(-116442000, -18000, 3600, "EDT")
           }
          }
         } else {
          if i < 92 {
           if i < 91 {
            Table::row(-100116000, -18000, 0, "EST")
           } else {
            Table::row(-84387600, -18000, 3600, "EDT")
           }
          } else {
           if i < 93 {
            Table::row(-68666400, -18000, 0, "EST")
           } else {
            Table::row(-52938000, -18000, 3600, "EDT")
           }
          }
         }
        } else {
         if i < 97 {
          if i < 95 {
           Table::row(-37216800, -18000, 0, "EST")
          } else {
           if i < 96 {
            Table::row(-21488400, -18000, 3600, "EDT")
           } else {
            Table::row(-5767200, -18000, 0, "EST")
           }
          }
         } else {
          if i < 99 {
           if i < 98 {
            Table::row(9961200, -18000, 3600, "EDT")
           } else {
            Table::row(25682400, -18000, 0, "EST")
           }
          } else {
           if i < 100 {
            Table::row(41410800, -18000, 3600, "EDT")
           } else {
            Table::row(57736800, -18000, 0, "EST")
           }
          }
         }
        }
       } else {
        if i < 108 {
         if i < 104 {
          if i < 102 {
           Table::row(73465200, -18000, 3600, "EDT")
          } else {
           if i < 103 {
            Table::row(89186400, -18000, 0, "EST")
           } else {
            Table::row(104914800, -18000, 3600, "EDT")
           }
          }
         } else {
          if i < 106 {
           if i < 105 {
            Table::row(120636000, -18000, 0, "EST")
           } else {
            Table::row(136364400, -18000, 3600, "EDT")
           }
          } else {
           if i < 107 {
            Table::row(152085600, -18000, 0, "EST")
           } else {
            Table::row(167814000, -18000, 3600, "EDT")
           }
          }
         }
        } else {
         if i < 112 {
          if i < 110 {
           if i < 109 {
            Table::row(183535200, -18000, 0, "EST")
           } else {
            Table::row(199263600, -18000, 3600, "EDT")
           }
          } else {
           if i < 111 {
            Table::row(215589600, -18000, 0, "EST")
           } else {
            Table::row(230713200, -18000, 3600, "EDT")
           }
          }
         } else {
          if i < 114 {
           if i < 113 {
            Table::row(247039200, -18000, 0, "EST")
           } else {
            Table::row(262767600, -18000, 3600, "EDT")
           }
          } else {
           if i < 115 {
            Table::row(278488800, -18000, 0, "EST")
           } else {
            Table::row(294217200, -18000, 3600, "EDT")
           }
          }
         }
        }
       }
      }
     }
    } else {
     if i < 174 {
      if i < 145 {
       if i < 130 {
        if i < 123 {
         if i < 119 {
          if i < 117 {
           Table::row(309938400, -18000, 0, "EST")
          } else {
           if i < 118 {
            Table::row(325666800, -18000, 3600, "EDT")
           } else {
            Table::row(341388000, -18000, 0, "EST")
           }
          }
         } else {
          if i < 121 {
           if i < 120 {
            Table::row(357116400, -18000, 3600, "EDT")
           } else {
            Table::row(372837600, -18000, 0, "EST")
           }
          } else {
           if i < 122 {
            Table::row(388566000, -18000, 3600, "EDT")
           } else {
            Table::row(404892000, -18000, 0, "EST")
           }
          }
         }
        } else {
         if i < 126 {
          if i < 124 {
           Table::row(420015600, -18000, 3600, "EDT")
          } else {
           if i < 125 {
            Table::row(436341600, -18000, 0, "EST")
           } else {
            Table::row(452070000, -18000, 3600, "EDT")
           }
          }
         } else {
          if i < 128 {
           if i < 127 {
            Table::row(467791200, -18000, 0, "EST")
           } else {
            Table::row(483519600, -18000, 3600, "EDT")
           }
          } else {
           if i < 129 {
            Table::row(499240800, -18000, 0, "EST")
           } else {
            Table::row(514969200, -18000, 3600, "EDT")
           }
          }
         }
        }
       } else {
        if i < 137 {
         if i < 133 {
          if i < 131 {
           Table::row(530690400, -18000, 0, "EST")
          } else {
           if i < 132 {
            Table::row(544604400, -18000, 3600, "EDT")
           } else {
            Table::row(562140000, -18000, 0, "EST")
           }
          }
         } else {
          if i < 135 {
           if i < 134 {
            Table::row(576054000, -18000, 3600, "EDT")
           } else {
            Table::row(594194400, -18000, 0, "EST")
           }
          } else {
           if i < 136 {
            Table::row(607503600, -18000, 3600, "EDT")
           } else {
            Table::row(625644000, -18000, 0, "EST")
           }
          }
         }
        } else {
         if i < 141 {
          if i < 139 {
           if i < 138 {
            Table::row(638953200, -18000, 3600, "EDT")
           } else {
            Table::row(657093600, -18000, 0, "EST")
           }
          } else {
           if i < 140 {
            Table::row(671007600, -18000, 3600, "EDT")
           } else {
            Table::row(688543200, -18000, 0, "EST")
           }
          }
         } else {
          if i < 143 {
           if i < 142 {
            Table::row(702457200, -18000, 3600, "EDT")
           } else {
            Table::row(719992800, -18000, 0, "EST")
           }
          } else {
           if i < 144 {
            Table::row(733906800, -18000, 3600, "EDT")
           } else {
            Table::row(752047200, -18000, 0, "EST")
           }
          }
         }
        }
       }
      } else {
       if i < 159 {
        if i < 152 {
         if i < 148 {
          if i < 146 {
           Table::row(765356400, -18000, 3600, "EDT")
          } else {
           if i < 147 {
            Table::row(783496800, -18000, 0, "EST")
           } else {
            Table::row(796806000, -18000, 3600, "EDT")
           }
          }
         } else {
          if i < 150 {
           if i < 149 {
            Table::row(814946400, -18000, 0, "EST")
           } else {
            Table::row(828860400, -18000, 3600, "EDT")
           }
          } else {
           if i < 151 {
            Table::row(846396000, -18000, 0, "EST")
           } else {
            Table::row(860310000, -18000, 3600, "EDT")
           }
          }
         }
        } else {
         if i < 155 {
          if i < 153 {
           Table::row(877845600, -18000, 0, "EST")
          } else {
           if i < 154 {
            Table::row(891759600, -18000, 3600, "EDT")
           } else {
            Table::row(909295200, -18000, 0, "EST")
           }
          }
         } else {
          if i < 157 {
           if i < 156 {
            Table::row(923209200, -18000, 3600, "EDT")
           } else {
            Table::row(941349600, -18000, 0, "EST")
           }
          } else {
           if i < 158 {
            Table::row(954658800, -18000, 3600, "EDT")
           } else {
            Table::row(972799200, -18000, 0, "EST")
           }
          }
         }
        }
       } else {
        if i < 166 {
         if i < 162 {
          if i < 160 {
           Table::row(986108400, -18000, 3600, "EDT")
          } else {
           if i < 161 {
            Table::row(1004248800, -18000, 0, "EST")
           } else {
            Table::row(1018162800, -18000, 3600, "EDT")
           }
          }
         } else {
          if i < 164 {
           if i < 163 {
            Table::row(1035698400, -18000, 0, "EST")
           } else {
            Table::row(1049612400, -18000, 3600, "EDT")
           }
          } else {
           if i < 165 {
            Table::row(1067148000, -18000, 0, "EST")
           } else {
            Table::row(1081062000, -18000, 3600, "EDT")
           }
          }
         }
        } else {
         if i < 170 {
          if i < 168 {
           if i < 167 {
            Table::row(1099202400, -18000, 0, "EST")
           } else {
            Table::row(1112511600, -18000, 3600, "EDT")
           }
          } else {
           if i < 169 {
            Table::row(1130652000, -18000, 0, "EST")
           } else {
            Table::row(1143961200, -18000, 3600, "EDT")
           }
          }
         } else {
          if i < 172 {
           if i < 171 {
            Table::row(1162101600, -18000, 0, "EST")
           } else {
            Table::row(1173596400, -18000, 3600, "EDT")
           }
          } else {
           if i < 173 {
            Table::row(1194156000, -18000, 0, "EST")
           } else {
            Table::row(1205046000, -18000, 3600, "EDT")
           }
          }
         }
        }
       }
      }
     } else {
      if i < 203 {
       if i < 188 {
        if i < 181 {
         if i < 177 {
          if i < 175 {
           Table::row(1225605600, -18000, 0, "EST")
          } else {
           if i < 176 {
            Table::row(1236495600, -18000, 3600, "EDT")
           } else {
            Table::row(1257055200, -18000, 0, "EST")
           }
          }
         } else {
          if i < 179 {
           if i < 178 {
            Table::row(1268550000, -18000, 3600, "EDT")
           } else {
            Table::row(1289109600, -18000, 0, "EST")
           }
          } else {
           if i < 180 {
            Table::row(1299999600, -18000, 3600, "EDT")
           } else {
            Table::row(1320559200, -18000, 0, "EST")
           }
          }
         }
        } else {
         if i < 184 {
          if i < 182 {
           Table::row(1331449200, -18000, 3600, "EDT")
          } else {
           if i < 183 {
            Table::row(1352008800, -18000, 0, "EST")
           } else {
            Table::row(1362898800, -18000, 3600, "EDT")
           }
          }
         } else {
          if i < 186 {
           if i < 185 {
            Table::row(1383458400, -18000, 0, "EST")
           } else {
            Table::row(1394348400, -18000, 3600, "EDT")
           }
          } else {
           if i < 187 {
            Table::row(1414908000, -18000, 0, "EST")
           } else {
            Table::row(1425798000, -18000, 3600, "EDT")
           }
          }
         }
        }
       } else {
        if i < 195 {
         if i < 191 {
          if i < 189 {
           Table::row(1446357600, -18000, 0, "EST")
          } else {
           if i < 190 {
            Table::row(1457852400, -18000, 3600, "EDT")
           } else {
            Table::row(1478412000, -18000, 0, "EST")
           }
          }
         } else {
          if i < 193 {
           if i < 192 {
            Table::row(1489302000, -18000, 3600, "EDT")
           } else {
            Table::row(1509861600, -18000, 0, "EST")
           }
          } else {
           if i < 194 {
            Table::row(1520751600, -18000, 3600, "EDT")
           } else {
            Table::row(1541311200, -18000, 0, "EST")
           }
          }
         }
        } else {
         if i < 199 {
          if i < 197 {
           if i < 196 {
            Table::row(1552201200, -18000, 3600, "EDT")
           } else {
            Table::row(1572760800, -18000, 0, "EST")
           }
          } else {
           if i < 198 {
            Table::row(1583650800, -18000, 3600, "EDT")
           } else {
            Table::row(1604210400, -18000, 0, "EST")
           }
          }
         } else {
          if i < 201 {
           if i < 200 {
            Table::row(1615705200, -18000, 3600, "EDT")
           } else {
            Table::row(1636264800, -18000, 0, "EST")
           }
          } else {
           if i < 202 {
            Table::row(1647154800, -18000, 3600, "EDT")
           } else {
            Table::row(1667714400, -18000, 0, "EST")
           }
          }
         }
        }
       }
      } else {
       if i < 218 {
        if i < 210 {
         if i < 206 {
          if i < 204 {
           Table::row(1678604400, -18000, 3600, "EDT")
          } else {
           if i < 205 {
            Table::row(1699164000, -18000, 0, "EST")
           } else {
            Table::row(1710054000, -18000, 3600, "EDT")
           }
          }
         } else {
          if i < 208 {
           if i < 207 {
            Table::row(1730613600, -18000, 0, "EST")
           } else {
            Table::row(1741503600, -18000, 3600, "EDT")
           }
          } else {
           if i < 209 {
            Table::row(1762063200, -18000, 0, "EST")
           } else {
            Table::row(1772953200, -18000, 3600, "EDT")
           }
          }
         }
        } else {
         if i < 214 {
          if i < 212 {
           if i < 211 {
            Table::row(1793512800, -18000, 0, "EST")
           } else {
            Table::row(1805007600, -18000, 3600, "EDT")
           }
          } else {
           if i < 213 {
            Table::row(1825567200, -18000, 0, "EST")
           } else {
            Table::row(1836457200, -18000, 3600, "EDT")
           }
          }
         } else {
          if i < 216 {
           if i < 215 {
            Table::row(1857016800, -18000, 0, "EST")
           } else {
            Table::row(1867906800, -18000, 3600, "EDT")
           }
          } else {
           if i < 217 {
            Table::row(1888466400, -18000, 0, "EST")
           } else {
            Table::row(1899356400, -18000, 3600, "EDT")
           }
          }
         }
        }
       } else {
        if i < 225 {
         if i < 221 {
          if i < 219 {
           Table::row(1919916000, -18000, 0, "EST")
          } else {
           if i < 220 {
            Table::row(1930806000, -18000, 3600, "EDT")
           } else {
            Table::row(1951365600, -18000, 0, "EST")
           }
          }
         } else {
          if i < 223 {
           if i < 222 {
            Table::row(1962860400, -18000, 3600, "EDT")
           } else {
            Table::row(1983420000, -18000, 0, "EST")
           }
          } else {
           if i < 224 {
            Table::row(1994310000, -18000, 3600, "EDT")
           } else {
            Table::row(2014869600, -18000, 0, "EST")
           }
          }
         }
        } else {
         if i < 229 {
          if i < 227 {
           if i < 226 {
            Table::row(2025759600, -18000, 3600, "EDT")
           } else {
            Table::row(2046319200, -18000, 0, "EST")
           }
          } else {
           if i < 228 {
            Table::row(2057209200, -18000, 3600, "EDT")
           } else {
            Table::row(2077768800, -18000, 0, "EST")
           }
          }
         } else {
          if i < 231 {
           if i < 230 {
            Table::row(2088658800, -18000, 3600, "EDT")
           } else {
            Table::row(2109218400, -18000, 0, "EST")
           }
          } else {
           if i < 232 {
            Table::row(2120108400, -18000, 3600, "EDT")
           } else {
            Table::row(2140668000, -18000, 0, "EST")
           }
          }
         }
        }
       }
      }
     }
    }
}

/// The rows of the table of the zone `Canada/Eastern`.
pub open spec fn eastern_rows() -> spec_fn(int) -> (i64, FixedTimespan) {
    |i: int| eastern_row(i)
}

/// The table of the zone `Canada/Eastern`.
pub open spec fn eastern() -> Table {
    Table::listed(Table::row(0, -19052, 0, "LMT").1, 233, eastern_rows())
}

/// Row `i` of the table of the zone `Canada/Mountain`.
pub open spec fn mountain_row(i: int) -> (i64, FixedTimespan) {
    if i < 75 {
     if i < 37 {
      if i < 18 {
       if i < 9 {
        if i < 4 {
         if i < 2 {
          if i < 1 {
           Table::row(-1998663968, -25200, 0, "MST")
          } else {
           Table::row(-1632063600, -25200, 3600, "MDT")
          }
         } else {
          if i < 3 {
           Table::row(-1615132800, -25200, 0, "MST")
          } else {
           Table::row(-1600614000, -25200, 3600, "MDT")
          }
         }
        } else {
         if i < 6 {
          if i < 5 {
           Table::row(-1596816000, -25200, 0, "MST")
          } else {
           Table::row(-1567954800, -25200, 3600, "MDT")
          }
         } else {
          if i < 7 {
           Table::row(-1551628800, -25200, 0, "MST")
          } else {
           if i < 8 {
            Table::row(-1536505200, -25200, 3600, "MDT")
           } else {
            Table::row(-1523203200, -25200, 0, "MST")
           }
          }
         }
        }
       } else {
        if i < 13 {
         if i < 11 {
          if i < 10 {
           Table::row(-1504450800, -25200, 3600, "MDT")
          } else {
           Table::row(-1491753600, -25200, 0, "MST")
          }
         } else {
          if i < 12 {
           Table::row(-1473001200, -25200, 3600, "MDT")
          } else {
           Table::row(-1459699200, -25200, 0, "MST")
          }
         }
        } else {
         if i < 15 {
          if i < 14 {
           Table::row(-880210800, -25200, 3600, "MWT")
          } else {
           Table::row(-769395600, -25200, 3600, "MPT")
          }
         } else {
          if i < 16 {
           Table::row(-765388800, -25200, 0, "MST")
          } else {
           if i < 17 {
            Table::row(-715791600, -25200, 3600, "MDT")
           } else {
            Table::row(-702489600, -25200, 0, "MST")
           }
          }
         }
        }
       }
      } else {
       if i < 27 {
        if i < 22 {
         if i < 20 {
          if i < 19 {
           Table::row(73472400, -25200, 3600, "MDT")
          } else {
           Table::row(89193600, -25200, 0, "MST")
          }
         } else {
          if i < 21 {
           Table::row(104922000, -25200, 3600, "MDT")
          } else {
           Table::row(120643200, -25200, 0, "MST")
          }
         }
        } else {
         if i < 24 {
          if i < 23 {
           Table::row(136371600, -25200, 3600, "MDT")
          } else {
           Table::row(152092800, -25200, 0, "MST")
          }
         } else {
          if i < 25 {
           Table::row(167821200, -25200, 3600, "MDT")
          } else {
           if i < 26 {
            Table::row(183542400, -25200, 0, "MST")
           } else {
            Table::row(199270800, -25200, 3600, "MDT")
           }
          }
         }
        }
       } else {
        if i < 32 {
         if i < 29 {
          if i < 28 {
           Table::row(215596800, -25200, 0, "MST")
          } else {
           Table::row(230720400, -25200, 3600, "MDT")
          }
         } else {
          if i < 30 {
           Table::row(247046400, -25200, 0, "MST")
          } else {
           if i < 31 {
            Table::row(262774800, -25200, 3600, "MDT")
           } else {
            Table::row(278496000, -25200, 0, "MST")
           }
          }
         }
        } else {
         if i < 34 {
          if i < 33 {
           Table::row(294224400, -25200, 3600, "MDT")
          } else {
           Table::row(309945600, -25200, 0, "MST")
          }
         } else {
          if i < 35 {
           Table::row(325674000, -25200, 3600, "MDT")
          } else {
           if i < 36 {
            Table::row(341395200, -25200, 0, "MST")
           } else {
            Table::row(357123600, -25200, 3600, "MDT")
           }
          }
         }
        }
       }
      }
     } else {
      if i < 56 {
       if i < 46 {
        if i < 41 {
         if i < 39 {
          if i < 38 {
           Table::row(372844800, -25200, 0, "MST")
          } else {
           Table::row(388573200, -25200, 3600, "MDT")
          }
         } else {
          if i < 40 {
           Table::row(404899200, -25200, 0, "MST")
          } else {
           Table::row(420022800, -25200, 3600, "MDT")
          }
         }
        } else {
         if i < 43 {
          if i < 42 {
           Table::row(436348800, -25200, 0, "MST")
          } else {
           Table::row(452077200, -25200, 3600, "MDT")
          }
         } else {
          if i < 44 {
           Table::row(467798400, -25200, 0, "MST")
          } else {
           if i < 45 {
            Table::row(483526800, -25200, 3600, "MDT")
           } else {
            Table::row(499248000, -25200, 0, "MST")
           }
          }
         }
        }
       } else {
        if i < 51 {
         if i < 48 {
          if i < 47 {
           Table::row(514976400, -25200, 3600, "MDT")
          } else {
           Table::row(530697600, -25200, 0, "MST")
          }
         } else {
          if i < 49 {
           Table::row(544611600, -25200, 3600, "MDT")
          } else {
           if i < 50 {
            Table::row(562147200, -25200, 0, "MST")
           } else {
            Table::row(576061200, -25200, 3600, "MDT")
           }
          }
         }
        } else {
         if i < 53 {
          if i < 52 {
           Table::row(594201600, -25200, 0, "MST")
          } else {
           Table::row(607510800, -25200, 3600, "MDT")
          }
         } else {
          if i < 54 {
           Table::row(625651200, -25200, 0, "MST")
          } else {
           if i < 55 {
            Table::row(638960400, -25200, 3600, "MDT")
           } else {
            Table::row(657100800, -25200, 0, "MST")
           }
          }
         }
        }
       }
      } else {
       if i < 65 {
        if i < 60 {
         if i < 58 {
          if i < 57 {
           Table::row(671014800, -25200, 3600, "MDT")
          } else {
           Table::row(688550400, -25200, 0, "MST")
          }
         } else {
          if i < 59 {
           Table::row(702464400, -25200, 3600, "MDT")
          } else {
           Table::row(720000000, -25200, 0, "MST")
          }
         }
        } else {
         if i < 62 {
          if i < 61 {
           Table::row(733914000, -25200, 3600, "MDT")
          } else {
           Table::row(752054400, -25200, 0, "MST")
          }
         } else {
          if i < 63 {
           Table::row(765363600, -25200, 3600, "MDT")
          } else {
           if i < 64 {
            Table::row(783504000, -25200, 0, "MST")
           } else {
            Table::row(796813200, -25200, 3600, "MDT")
           }
          }
         }
        }
       } else {
        if i < 70 {
         if i < 67 {
          if i < 66 {
           Table::row(814953600, -25200, 0, "MST")
          } else {
           Table::row(828867600, -25200, 3600, "MDT")
          }
         } else {
          if i < 68 {
           Table::row(846403200, -25200, 0, "MST")
          } else {
           if i < 69 {
            Table::row(860317200, -25200, 3600, "MDT")
           } else {
            Table::row(877852800, -25200, 0, "MST")
           }
          }
         }
        } else {
         if i < 72 {
          if i < 71 {
           Table::row(891766800, -25200, 3600, "MDT")
          } else {
           Table::row(909302400, -25200, 0, "MST")
          }
         } else {
          if i < 73 {
           Table::row(923216400, -25200, 3600, "MDT")
          } else {
           if i < 74 {
            Table::row(941356800, -25200, 0, "MST")
           } else {
            Table::row(954666000, -25200, 3600, "MDT")
           }
          }
         }
        }
       }
      }
     }
    } else {
     if i < 112 {
      if i < 93 {
       if i < 84 {
        if i < 79 {
         if i < 77 {
          if i < 76 {
           Table::row(972806400, -25200, 0, "MST")
          } else {
           Table::row(986115600, -25200, 3600, "MDT")
          }
         } else {
          if i < 78 {
           Table::row(1004256000, -25200, 0, "MST")
          } else {
           Table::row(1018170000, -25200, 3600, "MDT")
          }
         }
        } else {
         if i < 81 {
          if i < 80 {
           Table::row(1035705600, -25200, 0, "MST")
          } else {
           Table::row(1049619600, -25200, 3600, "MDT")
          }
         } else {
          if i < 82 {
           Table::row(1067155200, -25200, 0, "MST")
          } else {
           if i < 83 {
            Table::row(1081069200, -25200, 3600, "MDT")
           } else {
            Table::row(1099209600, -25200, 0, "MST")
           }
          }
         }
        }
       } else {
        if i < 88 {
         if i < 86 {
          if i < 85 {
           Table::row(1112518800, -25200, 3600, "MDT")
          } else {
           Table::row(1130659200, -25200, 0, "MST")
          }
         } else {
          if i < 87 {
           Table::row(1143968400, -25200, 3600, "MDT")
          } else {
           Table::row(1162108800, -25200, 0, "MST")
          }
         }
        } else {
         if i < 90 {
          if i < 89 {
           Table::row(1173603600, -25200, 3600, "MDT")
          } else {
           Table::row(1194163200, -25200, 0, "MST")
          }
         } else {
          if i < 91 {
           Table::row(1205053200, -25200, 3600, "MDT")
          } else {
           if i < 92 {
            Table::row(1225612800, -25200, 0, "MST")
           } else {
            Table::row(1236502800, -25200, 3600, "MDT")
           }
          }
         }
        }
       }
      } else {
       if i < 102 {
        if i < 97 {
         if i < 95 {
          if i < 94 {
           Table::row(1257062400, -25200, 0, "MST")
          } else {
           Table::row(1268557200, -25200, 3600, "MDT")
          }
         } else {
          if i < 96 {
           Table::row(1289116800, -25200, 0, "MST")
          } else {
           Table::row(1300006800, -25200, 3600, "MDT")
          }
         }
        } else {
         if i < 99 {
          if i < 98 {
           Table::row(1320566400, -25200, 0, "MST")
          } else {
           Table::row(1331456400, -25200, 3600, "MDT")
          }
         } else {
          if i < 100 {
           Table::row(1352016000, -25200, 0, "MST")
          } else {
           if i < 101 {
            Table::row(1362906000, -25200, 3600, "MDT")
           } else {
            Table::row(1383465600, -25200, 0, "MST")
           }
          }
         }
        }
       } else {
        if i < 107 {
         if i < 104 {
          if i < 103 {
           Table::row(1394355600, -25200, 3600, "MDT")
          } else {
           Table::row(1414915200, -25200, 0, "MST")
          }
         } else {
          if i < 105 {
           Table::row(1425805200, -25200, 3600, "MDT")
          } else {
           if i < 106 {
            Table::row(1446364800, -25200, 0, "MST")
           } else {
            Table::row(1457859600, -25200, 3600, "MDT")
           }
          }
         }
        } else {
         if i < 109 {
          if i < 108 {
           Table::row(1478419200, -25200, 0, "MST")
          } else {
           Table::row(1489309200, -25200, 3600, "MDT")
          }
         } else {
          if i < 110 {
           Table::row(1509868800, -25200, 0, "MST")
          } else {
           if i < 111 {
            Table::row(1520758800, -25200, 3600, "MDT")
           } else {
            Table::row(1541318400, -25200, 0, "MST")
           }
          }
         }
        }
       }
      }
     } else {
      if i < 131 {
       if i < 121 {
        if i < 116 {
         if i < 114 {
          if i < 113 {
           Table::row(1552208400, -25200, 3600, "MDT")
          } else {
           Table::row(1572768000, -25200, 0, "MST")
          }
         } else {
          if i < 115 {
           Table::row(1583658000, -25200, 3600, "MDT")
          } else {
           Table::row(1604217600, -25200, 0, "MST")
          }
         }
        } else {
         if i < 118 {
          if i < 117 {
           Table::row(1615712400, -25200, 3600, "MDT")
          } else {
           Table::row(1636272000, -25200, 0, "MST")
          }
         } else {
          if i < 119 {
           Table::row(1647162000, -25200, 3600, "MDT")
          } else {
           if i < 120 {
            Table::row(1667721600, -25200, 0, "MST")
           } else {
            Table::row(1678611600, -25200, 3600, "MDT")
           }
          }
         }
        }
       } else {
        if i < 126 {
         if i < 123 {
          if i < 122 {
           Table::row(1699171200, -25200, 0, "MST")
          } else {
           Table::row(1710061200, -25200, 3600, "MDT")
          }
         } else {
          if i < 124 {
           Table::row(1730620800, -25200, 0, "MST")
          } else {
           if i < 125 {
            Table::row(1741510800, -25200, 3600, "MDT")
           } else {
            Table::row(1762070400, -25200, 0, "MST")
           }
          }
         }
        } else {
         if i < 128 {
          if i < 127 {
           Table::row(1772960400, -25200, 3600, "MDT")
          } else {
           Table::row(1793520000, -25200, 0, "MST")
          }
         } else {
          if i < 129 {
           Table::row(1805014800, -25200, 3600, "MDT")
          } else {
           if i < 130 {
            Table::row(1825574400, -25200, 0, "MST")
           } else {
            Table::row(1836464400, -25200, 3600, "MDT")
           }
          }
         }
        }
       }
      } else {
       if i < 140 {
        if i < 135 {
         if i < 133 {
          if i < 132 {
           Table::row(1857024000, -25200, 0, "MST")
          } else {
           Table::row(1867914000, -25200, 3600, "MDT")
          }
         } else {
          if i < 134 {
           Table::row(1888473600, -25200, 0, "MST")
          } else {
           Table::row(1899363600, -25200, 3600, "MDT")
          }
         }
        } else {
         if i < 137 {
          if i < 136 {
           Table::row(1919923200, -25200, 0, "MST")
          } else {
           Table::row(1930813200, -25200, 3600, "MDT")
          }
         } else {
          if i < 138 {
           Table::row(1951372800, -25200, 0, "MST")
          } else {
           if i < 139 {
            Table::row(1962867600, -25200, 3600, "MDT")
           } else {
            Table::row(1983427200, -25200, 0, "MST")
           }
          }
         }
        }
       } else {
        if i < 145 {
         if i < 142 {
          if i < 141 {
           Table::row(1994317200, -25200, 3600, "MDT")
          } else {
           Table::row(2014876800, -25200, 0, "MST")
          }
         } else {
          if i < 143 {
           Table::row(2025766800, -25200, 3600, "MDT")
          } else {
           if i < 144 {
            Table::row(2046326400, -25200, 0, "MST")
           } else {
            Table::row(2057216400, -25200, 3600, "MDT")
           }
          }
         }
        } else {
         if i < 147 {
          if i < 146 {
           Table::row(2077776000, -25200, 0, "MST")
          } else {
           Table::row(2088666000, -25200, 3600, "MDT")
          }
         } else {
          if i < 148 {
           Table::row(2109225600, -25200, 0, "MST")
          } else {
           if i < 149 {
            Table::row(2120115600, -25200, 3600, "MDT")
           } else {
            Table::row(2140675200, -25200, 0, "MST")
           }
          }
         }
        }
       }
      }
     }
    }
}

/// The rows of the table of the zone `Canada/Mountain`.
pub open spec fn mountain_rows() -> spec_fn(int) -> (i64, FixedTimespan) {
    |i: int| mountain_row(i)
}

/// The table of the zone `Canada/Mountain`.
pub open spec fn mountain() -> Table {
    Table::listed(Table::row(0, -27232, 0, "LMT").1, 150, mountain_rows())
}

/// Row `i` of the table of the zone `Canada/Newfoundland`.
pub open spec fn newfoundland_row(i: int) -> (i64, FixedTimespan) {
    if i < 119 {
     if i < 59 {
      if i < 29 {
       if i < 14 {
        if i < 7 {
         if i < 3 {
          if i < 1 {
           Table::row(-2713897748, -12652, 0, "NST")
          } else {
           if i < 2 {
            Table::row(-1664130548, -12652, 3600, "NDT")
           } else {
            Table::row(-1650137348, -12652, 0, "NST")
           }
          }
         } else {
          if i < 5 {
           if i < 4 {
            Table::row(-1632076148, -12652, 3600, "NDT")
           } else {
            Table::row(-1615145348, -12652, 0, "NST")
           }
          } else {
           if i < 6 {
            Table::row(-1598650148, -12652, 3600, "NDT")
           } else {
            Table::row(-1590100148, -12652, 0, "NST")
           }
          }
         }
        } else {
         if i < 10 {
          if i < 8 {
           Table::row(-1567286948, -12652, 3600, "NDT")
          } else {
           if i < 9 {
            Table::row(-1551565748, -12652, 0, "NST")
           } else {
            Table::row(-1535837348, -12652, 3600, "NDT")
           }
          }
         } else {
          if i < 12 {
           if i < 11 {
            Table::row(-1520116148, -12652, 0, "NST")
           } else {
            Table::row(-1503782948, -12652, 3600, "NDT")
           }
          } else {
           if i < 13 {
            Table::row(-1488666548, -12652, 0, "NST")
           } else {
            Table::row(-1472333348, -12652, 3600, "NDT")
           }
          }
         }
        }
       } else {
        if i < 21 {
         if i < 17 {
          if i < 15 {
           Table::row(-1457216948, -12652, 0, "NST")
          } else {
           if i < 16 {
            Table::row(-1440883748, -12652, 3600, "NDT")
           } else {
            Table::row(-1425767348, -12652, 0, "NST")
           }
          }
         } else {
          if i < 19 {
           if i < 18 {
            Table::row(-1409434148, -12652, 3600, "NDT")
           } else {
            Table::row(-1394317748, -12652, 0, "NST")
           }
          } else {
           if i < 20 {
            Table::row(-1377984548, -12652, 3600, "NDT")
           } else {
            Table::row(-1362263348, -12652, 0, "NST")
           }
          }
         }
        } else {
         if i < 25 {
          if i < 23 {
           if i < 22 {
            Table::row(-1346534948, -12652, 3600, "NDT")
           } else {
            Table::row(-1330813748, -12652, 0, "NST")
           }
          } else {
           if i < 24 {
            Table::row(-1314480548, -12652, 3600, "NDT")
           } else {
            Table::row(-1299364148, -12652, 0, "NST")
           }
          }
         } else {
          if i < 27 {
           if i < 26 {
            Table::row(-1283030948, -12652, 3600, "NDT")
           } else {
            Table::row(-1267914548, -12652, 0, "NST")
           }
          } else {
           if i < 28 {
            Table::row(-1251581348, -12652, 3600, "NDT")
           } else {
            Table::row(-1236464948, -12652, 0, "NST")
           }
          }
         }
        }
       }
      } else {
       if i < 44 {
        if i < 36 {
         if i < 32 {
          if i < 30 {
           Table::row(-1220131748, -12652, 3600, "NDT")
          } else {
           if i < 31 {
            Table::row(-1205015348, -12652, 0, "NST")
           } else {
            Table::row(-1188682148, -12652, 3600, "NDT")
           }
          }
         } else {
          if i < 34 {
           if i < 33 {
            Table::row(-1172960948, -12652, 0, "NST")
           } else {
            Table::row(-1156627748, -12652, 3600, "NDT")
           }
          } else {
           if i < 35 {
            Table::row(-1141511348, -12652, 0, "NST")
           } else {
            Table::row(-1125178148, -12652, 3600, "NDT")
           }
          }
         }
        } else {
         if i < 40 {
          if i < 38 {
           if i < 37 {
            Table::row(-1110061748, -12652, 0, "NST")
           } else {
            Table::row(-1096921748, -12600, 0, "NST")
           }
          } else {
           if i < 39 {
            Table::row(-1093728600, -12600, 3600, "NDT")
           } else {
            Table::row(-1078612200, -12600, 0, "NST")
           }
          }
         } else {
          if i < 42 {
           if i < 41 {
            Table::row(-1061670600, -12600, 3600, "NDT")
           } else {
            Table::row(-1048973400, -12600, 0, "NST")
           }
          } else {
           if i < 43 {
            Table::row(-1030221000, -12600, 3600, "NDT")
           } else {
            Table::row(-1017523800, -12600, 0, "NST")
           }
          }
         }
        }
       } else {
        if i < 51 {
         if i < 47 {
          if i < 45 {
           Table::row(-998771400, -12600, 3600, "NDT")
          } else {
           if i < 46 {
            Table::row(-986074200, -12600, 0, "NST")
           } else {
            Table::row(-966717000, -12600, 3600, "NDT")
           }
          }
         } else {
          if i < 49 {
           if i < 48 {
            Table::row(-954624600, -12600, 0, "NST")
           } else {
            Table::row(-935267400, -12600, 3600, "NDT")
           }
          } else {
           if i < 50 {
            Table::row(-922570200, -12600, 0, "NST")
           } else {
            Table::row(-903817800, -12600, 3600, "NDT")
           }
          }
         }
        } else {
         if i < 55 {
          if i < 53 {
           if i < 52 {
            Table::row(-891120600, -12600, 0, "NST")
           } else {
            Table::row(-872368200, -12600, 3600, "NWT")
           }
          } else {
           if i < 54 {
            Table::row(-769395600, -12600, 3600, "NPT")
           } else {
            Table::row(-765401400, -12600, 0, "NST")
           }
          }
         } else {
          if i < 57 {
           if i < 56 {
            Table::row(-746044200, -12600, 3600, "NDT")
           } else {
            Table::row(-733347000, -12600, 0, "NST")
           }
          } else {
           if i < 58 {
            Table::row(-714594600, -12600, 3600, "NDT")
           } else {
            Table::row(-701897400, -12600, 0, "NST")
           }
          }
         }
        }
       }
      }
     } else {
      if i < 89 {
       if i < 74 {
        if i < 66 {
         if i < 62 {
          if i < 60 {
           Table::row(-683145000, -12600, 3600, "NDT")
          } else {
           if i < 61 {
            Table::row(-670447800, -12600, 0, "NST")
           } else {
            Table::row(-651695400, -12600, 3600, "NDT")
           }
          }
         } else {
          if i < 64 {
           if i < 63 {
            Table::row(-638998200, -12600, 0, "NST")
           } else {
            Table::row(-619641000, -12600, 3600, "NDT")
           }
          } else {
           if i < 65 {
            Table::row(-606943800, -12600, 0, "NST")
           } else {
            Table::row(-589401000, -12600, 3600, "NDT")
           }
          }
         }
        } else {
         if i < 70 {
          if i < 68 {
           if i < 67 {
            Table::row(-576099000, -12600, 0, "NST")
           } else {
            Table::row(-557951400, -12600, 3600, "NDT")
           }
          } else {
           if i < 69 {
            Table::row(-544649400, -12600, 0, "NST")
           } else {
            Table::row(-526501800, -12600, 3600, "NDT")
           }
          }
         } else {
          if i < 72 {
           if i < 71 {
            Table::row(-513199800, -12600, 0, "NST")
           } else {
            Table::row(-495052200, -12600, 3600, "NDT")
           }
          } else {
           if i < 73 {
            Table::row(-481750200, -12600, 0, "NST")
           } else {
            Table::row(-463602600, -12600, 3600, "NDT")
           }
          }
         }
        }
       } else {
        if i < 81 {
         if i < 77 {
          if i < 75 {
           Table::row(-450300600, -12600, 0, "NST")
          } else {
           if i < 76 {
            Table::row(-431548200, -12600, 3600, "NDT")
           } else {
            Table::row(-418246200, -12600, 0, "NST")
           }
          }
         } else {
          if i < 79 {
           if i < 78 {
            Table::row(-400098600, -12600, 3600, "NDT")
           } else {
            Table::row(-386796600, -12600, 0, "NST")
           }
          } else {
           if i < 80 {
            Table::row(-368649000, -12600, 3600, "NDT")
           } else {
            Table::row(-355347000, -12600, 0, "NST")
           }
          }
         }
        } else {
         if i < 85 {
          if i < 83 {
           if i < 82 {
            Table::row(-337199400, -12600, 3600, "NDT")
           } else {
            Table::row(-323897400, -12600, 0, "NST")
           }
          } else {
           if i < 84 {
            Table::row(-305749800, -12600, 3600, "NDT")
           } else {
            Table::row(-289423800, -12600, 0, "NST")
           }
          }
         } else {
          if i < 87 {
           if i < 86 {
            Table::row(-273695400, -12600, 3600, "NDT")
           } else {
            Table::row(-257974200, -12600, 0, "NST")
           }
          } else {
           if i < 88 {
            Table::row(-242245800, -12600, 3600, "NDT")
           } else {
            Table::row(-226524600, -12600, 0, "NST")
           }
          }
         }
        }
       }
      } else {
       if i < 104 {
        if i < 96 {
         if i < 92 {
          if i < 90 {
           Table::row(-210796200, -12600, 3600, "NDT")
          } else {
           if i < 91 {
            Table::row(-195075000, -12600, 0, "NST")
           } else {
            Table::row(-179346600, -12600, 3600, "NDT")
           }
          }
         } else {
          if i < 94 {
           if i < 93 {
            Table::row(-163625400, -12600, 0, "NST")
           } else {
            Table::row(-147897000, -12600, 3600, "NDT")
           }
          } else {
           if i < 95 {
            Table::row(-131571000, -12600, 0, "NST")
           } else {
            Table::row(-116447400, -12600, 3600, "NDT")
           }
          }
         }
        } else {
         if i < 100 {
          if i < 98 {
           if i < 97 {
            Table::row(-100121400, -12600, 0, "NST")
           } else {
            Table::row(-84393000, -12600, 3600, "NDT")
           }
          } else {
           if i < 99 {
            Table::row(-68671800, -12600, 0, "NST")
           } else {
            Table::row(-52943400, -12600, 3600, "NDT")
           }
          }
         } else {
          if i < 102 {
           if i < 101 {
            Table::row(-37222200, -12600, 0, "NST")
           } else {
            Table::row(-21493800, -12600, 3600, "NDT")
           }
          } else {
           if i < 103 {
            Table::row(-5772600, -12600, 0, "NST")
           } else {
            Table::row(9955800, -12600, 3600, "NDT")
           }
          }
         }
        }
       } else {
        if i < 111 {
         if i < 107 {
          if i < 105 {
           Table::row(25677000, -12600, 0, "NST")
          } else {
           if i < 106 {
            Table::row(41405400, -12600, 3600, "NDT")
           } else {
            Table::row(57731400, -12600, 0, "NST")
           }
          }
         } else {
          if i < 109 {
           if i < 108 {
            Table::row(73459800, -12600, 3600, "NDT")
           } else {
            Table::row(89181000, -12600, 0, "NST")
           }
          } else {
           if i < 110 {
            Table::row(104909400, -12600, 3600, "NDT")
           } else {
            Table::row(120630600, -12600, 0, "NST")
           }
          }
         }
        } else {
         if i < 115 {
          if i < 113 {
           if i < 112 {
            Table::row(136359000, -12600, 3600, "NDT")
           } else {
            Table::row(152080200, -12600, 0, "NST")
           }
          } else {
           if i < 114 {
            Table::row(167808600, -12600, 3600, "NDT")
           } else {
            Table::row(183529800, -12600, 0, "NST")
           }
          }
         } else {
          if i < 117 {
           if i < 116 {
            Table::row(199258200, -12600, 3600, "NDT")
           } else {
            Table::row(215584200, -12600, 0, "NST")
           }
          } else {
           if i < 118 {
            Table::row(230707800, -12600, 3600, "NDT")
           } else {
            Table::row(247033800, -12600, 0, "NST")
           }
          }
         }
        }
       }
      }
     }
    } else {
     if i < 179 {
      if i < 149 {
       if i < 134 {
        if i < 126 {
         if i < 122 {
          if i < 120 {
           Table::row(262762200, -12600, 3600, "NDT")
          } else {
           if i < 121 {
            Table::row(278483400, -12600, 0, "NST")
           } else {
            Table::row(294211800, -12600, 3600, "NDT")
           }
          }
         } else {
          if i < 124 {
           if i < 123 {
            Table::row(309933000, -12600, 0, "NST")
           } else {
            Table::row(325661400, -12600, 3600, "NDT")
           }
          } else {
           if i < 125 {
            Table::row(341382600, -12600, 0, "NST")
           } else {
            Table::row(357111000, -12600, 3600, "NDT")
           }
          }
         }
        } else {
         if i < 130 {
          if i < 128 {
           if i < 127 {
            Table::row(372832200, -12600, 0, "NST")
           } else {
            Table::row(388560600, -12600, 3600, "NDT")
           }
          } else {
           if i < 129 {
            Table::row(404886600, -12600, 0, "NST")
           } else {
            Table::row(420010200, -12600, 3600, "NDT")
           }
          }
         } else {
          if i < 132 {
           if i < 131 {
            Table::row(436336200, -12600, 0, "NST")
           } else {
            Table::row(452064600, -12600, 3600, "NDT")
           }
          } else {
           if i < 133 {
            Table::row(467785800, -12600, 0, "NST")
           } else {
            Table::row(483514200, -12600, 3600, "NDT")
           }
          }
         }
        }
       } else {
        if i < 141 {
         if i < 137 {
          if i < 135 {
           Table::row(499235400, -12600, 0, "NST")
          } else {
           if i < 136 {
            Table::row(514963800, -12600, 3600, "NDT")
           } else {
            Table::row(530685000, -12600, 0, "NST")
           }
          }
         } else {
          if i < 139 {
           if i < 138 {
            Table::row(544591860, -12600, 3600, "NDT")
           } else {
            Table::row(562127460, -12600, 0, "NST")
           }
          } else {
           if i < 140 {
            Table::row(576041460, -12600, 7200, "NDDT")
           } else {
            Table::row(594178260, -12600, 0, "NST")
           }
          }
         }
        } else {
         if i < 145 {
          if i < 143 {
           if i < 142 {
            Table::row(607491060, -12600, 3600, "NDT")
           } else {
            Table::row(625631460, -12600, 0, "NST")
           }
          } else {
           if i < 144 {
            Table::row(638940660, -12600, 3600, "NDT")
           } else {
            Table::row(657081060, -12600, 0, "NST")
           }
          }
         } else {
          if i < 147 {
           if i < 146 {
            Table::row(670995060, -12600, 3600, "NDT")
           } else {
            Table::row(688530660, -12600, 0, "NST")
           }
          } else {
           if i < 148 {
            Table::row(702444660, -12600, 3600, "NDT")
           } else {
            Table::row(719980260, -12600, 0, "NST")
           }
          }
         }
        }
       }
      } else {
       if i < 164 {
        if i < 156 {
         if i < 152 {
          if i < 150 {
           Table::row(733894260, -12600, 3600, "NDT")
          } else {
           if i < 151 {
            Table::row(752034660, -12600, 0, "NST")
           } else {
            Table::row(765343860, -12600, 3600, "NDT")
           }
          }
         } else {
          if i < 154 {
           if i < 153 {
            Table::row(783484260, -12600, 0, "NST")
           } else {
            Table::row(796793460, -12600, 3600, "NDT")
           }
          } else {
           if i < 155 {
            Table::row(814933860, -12600, 0, "NST")
           } else {
            Table::row(828847860, -12600, 3600, "NDT")
           }
          }
         }
        } else {
         if i < 160 {
          if i < 158 {
           if i < 157 {
            Table::row(846383460, -12600, 0, "NST")
           } else {
            Table::row(860297460, -12600, 3600, "NDT")
           }
          } else {
           if i < 159 {
            Table::row(877833060, -12600, 0, "NST")
           } else {
            Table::row(891747060, -12600, 3600, "NDT")
           }
          }
         } else {
          if i < 162 {
           if i < 161 {
            Table::row(909282660, -12600, 0, "NST")
           } else {
            Table::row(923196660, -12600, 3600, "NDT")
           }
          } else {
           if i < 163 {
            Table::row(941337060, -12600, 0, "NST")
           } else {
            Table::row(954646260, -12600, 3600, "NDT")
           }
          }
         }
        }
       } else {
        if i < 171 {
         if i < 167 {
          if i < 165 {
           Table::row(972786660, -12600, 0, "NST")
          } else {
           if i < 166 {
            Table::row(986095860, -12600, 3600, "NDT")
           } else {
            Table::row(1004236260, -12600, 0, "NST")
           }
          }
         } else {
          if i < 169 {
           if i < 168 {
            Table::row(1018150260, -12600, 3600, "NDT")
           } else {
            Table::row(1035685860, -12600, 0, "NST")
           }
          } else {
           if i < 170 {
            Table::row(1049599860, -12600, 3600, "NDT")
           } else {
            Table::row(1067135460, -12600, 0, "NST")
           }
          }
         }
        } else {
         if i < 175 {
          if i < 173 {
           if i < 172 {
            Table::row(1081049460, -12600, 3600, "NDT")
           } else {
            Table::row(1099189860, -12600, 0, "NST")
           }
          } else {
           if i < 174 {
            Table::row(1112499060, -12600, 3600, "NDT")
           } else {
            Table::row(1130639460, -12600, 0, "NST")
           }
          }
         } else {
          if i < 177 {
           if i < 176 {
            Table::row(1143948660, -12600, 3600, "NDT")
           } else {
            Table::row(1162089060, -12600, 0, "NST")
           }
          } else {
           if i < 178 {
            Table::row(1173583860, -12600, 3600, "NDT")
           } else {
            Table::row(1194143460, -12600, 0, "NST")
           }
          }
         }
        }
       }
      }
     } else {
      if i < 209 {
       if i < 194 {
        if i < 186 {
         if i < 182 {
          if i < 180 {
           Table::row(1205033460, -12600, 3600, "NDT")
          } else {
           if i < 181 {
            Table::row(1225593060, -12600, 0, "NST")
           } else {
            Table::row(1236483060, -12600, 3600, "NDT")
           }
          }
         } else {
          if i < 184 {
           if i < 183 {
            Table::row(1257042660, -12600, 0, "NST")
           } else {
            Table::row(1268537460, -12600, 3600, "NDT")
           }
          } else {
           if i < 185 {
            Table::row(1289097060, -12600, 0, "NST")
           } else {
            Table::row(1299987060, -12600, 3600, "NDT")
           }
          }
         }
        } else {
         if i < 190 {
          if i < 188 {
           if i < 187 {
            Table::row(1320553800, -12600, 0, "NST")
           } else {
            Table::row(1331443800, -12600, 3600, "NDT")
           }
          } else {
           if i < 189 {
            Table::row(1352003400, -12600, 0, "NST")
           } else {
            Table::row(1362893400, -12600, 3600, "NDT")
           }
          }
         } else {
          if i < 192 {
           if i < 191 {
            Table::row(1383453000, -12600, 0, "NST")
           } else {
            Table::row(1394343000, -12600, 3600, "NDT")
           }
          } else {
           if i < 193 {
            Table::row(1414902600, -12600, 0, "NST")
           } else {
            Table::row(1425792600, -12600, 3600, "NDT")
           }
          }
         }
        }
       } else {
        if i < 201 {
         if i < 197 {
          if i < 195 {
           Table::row(1446352200, -12600, 0, "NST")
          } else {
           if i < 196 {
            Table::row(1457847000, -12600, 3600, "NDT")
           } else {
            Table::row(1478406600, -12600, 0, "NST")
           }
          }
         } else {
          if i < 199 {
           if i < 198 {
            Table::row(1489296600, -12600, 3600, "NDT")
           } else {
            Table::row(1509856200, -12600, 0, "NST")
           }
          } else {
           if i < 200 {
            Table::row(1520746200, -12600, 3600, "NDT")
           } else {
            Table::row(1541305800, -12600, 0, "NST")
           }
          }
         }
        } else {
         if i < 205 {
          if i < 203 {
           if i < 202 {
            Table::row(1552195800, -12600, 3600, "NDT")
           } else {
            Table::row(1572755400, -12600, 0, "NST")
           }
          } else {
           if i < 204 {
            Table::row(1583645400, -12600, 3600, "NDT")
           } else {
            Table::row(1604205000, -12600, 0, "NST")
           }
          }
         } else {
          if i < 207 {
           if i < 206 {
            Table::row(1615699800, -12600, 3600, "NDT")
           } else {
            Table::row(1636259400, -12600, 0, "NST")
           }
          } else {
           if i < 208 {
            Table::row(1647149400, -12600, 3600, "NDT")
           } else {
            Table::row(1667709000, -12600, 0, "NST")
           }
          }
         }
        }
       }
      } else {
       if i < 224 {
        if i < 216 {
         if i < 212 {
          if i < 210 {
           Table::row(1678599000, -12600, 3600, "NDT")
          } else {
           if i < 211 {
            Table::row(1699158600, -12600, 0, "NST")
           } else {
            Table::row(1710048600, -12600, 3600, "NDT")
           }
          }
         } else {
          if i < 214 {
           if i < 213 {
            Table::row(1730608200, -12600, 0, "NST")
           } else {
            Table::row(1741498200, -12600, 3600, "NDT")
           }
          } else {
           if i < 215 {
            Table::row(1762057800, -12600, 0, "NST")
           } else {
            Table::row(1772947800, -12600, 3600, "NDT")
           }
          }
         }
        } else {
         if i < 220 {
          if i < 218 {
           if i < 217 {
            Table::row(1793507400, -12600, 0, "NST")
           } else {
            Table::row(1805002200, -12600, 3600, "NDT")
           }
          } else {
           if i < 219 {
            Table::row(1825561800, -12600, 0, "NST")
           } else {
            Table::row(1836451800, -12600, 3600, "NDT")
           }
          }
         } else {
          if i < 222 {
           if i < 221 {
            Table::row(1857011400, -12600, 0, "NST")
           } else {
            Table::row(1867901400, -12600, 3600, "NDT")
           }
          } else {
           if i < 223 {
            Table::row(1888461000, -12600, 0, "NST")
           } else {
            Table::row(1899351000, -12600, 3600, "NDT")
           }
          }
         }
        }
       } else {
        if i < 231 {
         if i < 227 {
          if i < 225 {
           Table::row(1919910600, -12600, 0, "NST")
          } else {
           if i < 226 {
            Table::row(1930800600, -12600, 3600, "NDT")
           } else {
            Table::row(1951360200, -12600, 0, "NST")
           }
          }
         } else {
          if i < 229 {
           if i < 228 {
            Table::row(1962855000, -12600, 3600, "NDT")
           } else {
            Table::row(1983414600, -12600, 0, "NST")
           }
          } else {
           if i < 230 {
            Table::row(1994304600, -12600, 3600, "NDT")
           } else {
            Table::row(2014864200, -12600, 0, "NST")
           }
          }
         }
        } else {
         if i < 235 {
          if i < 233 {
           if i < 232 {
            Table::row(2025754200, -12600, 3600, "NDT")
           } else {
            Table::row(2046313800, -12600, 0, "NST")
           }
          } else {
           if i < 234 {
            Table::row(2057203800, -12600, 3600, "NDT")
           } else {
            Table::row(2077763400, -12600, 0, "NST")
           }
          }
         } else {
          if i < 237 {
           if i < 236 {
            Table::row(2088653400, -12600, 3600, "NDT")
           } else {
            Table::row(2109213000, -12600, 0, "NST")
           }
          } else {
           if i < 238 {
            Table::row(2120103000, -12600, 3600, "NDT")
           } else {
            Table::row(2140662600, -12600, 0, "NST")
           }
          }
         }
        }
       }
      }
     }
    }
}

/// The rows of the table of the zone `Canada/Newfoundland`.
pub open spec fn newfoundland_rows() -> spec_fn(int) -> (i64, FixedTimespan) {
    |i: int| newfoundland_row(i)
}

/// The table of the zone `Canada/Newfoundland`.
pub open spec fn newfoundland() -> Table {
    Table::listed(Table::row(0, -12652, 0, "LMT").1, 239, newfoundland_rows())
}

/// Row `i` of the table of the zone `Canada/Pacific`.
pub open spec fn pacific_row(i: int) -> (i64, FixedTimespan) {
    if i < 95 {
     if i < 47 {
      if i < 23 {
       if i < 11 {
        if i < 5 {
         if i < 2 {
          if i < 1 {
           Table::row(-2713880852, -28800, 0, "PST")
          } else {
           Table::row(-1632060000, -28800, 3600, "PDT")
          }
         } else {
          if i < 3 {
           Table::row(-1615129200, -28800, 0, "PST")
          } else {
           if i < 4 {
            Table::row(-880207200, -28800, 3600, "PWT")
           } else {
            Table::row(-769395600, -28800, 3600, "PPT")
           }
          }
         }
        } else {
         if i < 8 {
          if i < 6 {
           Table::row(-765385200, -28800, 0, "PST")
          } else {
           if i < 7 {
            Table::row(-747237600, -28800, 3600, "PDT")
           } else {
            Table::row(-733935600, -28800, 0, "PST")
           }
          }
         } else {
          if i < 9 {
           Table::row(-715788000, -28800, 3600, "PDT")
          } else {
           if i < 10 {
            Table::row(-702486000, -28800, 0, "PST")
           } else {
            Table::row(-684338400, -28800, 3600, "PDT")
           }
          }
         }
        }
       } else {
        if i < 17 {
         if i < 14 {
          if i < 12 {
           Table::row(-671036400, -28800, 0, "PST")
          } else {
           if i < 13 {
            Table::row(-652888800, -28800, 3600, "PDT")
           } else {
            Table::row(-639586800, -28800, 0, "PST")
           }
          }
         } else {
          if i < 15 {
           Table::row(-620834400, -28800, 3600, "PDT")
          } else {
           if i < 16 {
            Table::row(-608137200, -28800, 0, "PST")
           } else {
            Table::row(-589384800, -28800, 3600, "PDT")
           }
          }
         }
        } else {
         if i < 20 {
          if i < 18 {
           Table::row(-576082800, -28800, 0, "PST")
          } else {
           if i < 19 {
            Table::row(-557935200, -28800, 3600, "PDT")
           } else {
            Table::row(-544633200, -28800, 0, "PST")
           }
          }
         } else {
          if i < 21 {
           Table::row(-526485600, -28800, 3600, "PDT")
          } else {
           if i < 22 {
            Table::row(-513183600, -28800, 0, "PST")
           } else {
            Table::row(-495036000, -28800, 3600, "PDT")
           }
          }
         }
        }
       }
      } else {
       if i < 35 {
        if i < 29 {
         if i < 26 {
          if i < 24 {
           Table::row(-481734000, -28800, 0, "PST")
          } else {
           if i < 25 {
            Table::row(-463586400, -28800, 3600, "PDT")
           } else {
            Table::row(-450284400, -28800, 0, "PST")
           }
          }
         } else {
          if i < 27 {
           Table::row(-431532000, -28800, 3600, "PDT")
          } else {
           if i < 28 {
            Table::row(-418230000, -28800, 0, "PST")
           } else {
            Table::row(-400082400, -28800, 3600, "PDT")
           }
          }
         }
        } else {
         if i < 32 {
          if i < 30 {
           Table::row(-386780400, -28800, 0, "PST")
          } else {
           if i < 31 {
            Table::row(-368632800, -28800, 3600, "PDT")
           } else {
            Table::row(-355330800, -28800, 0, "PST")
           }
          }
         } else {
          if i < 33 {
           Table::row(-337183200, -28800, 3600, "PDT")
          } else {
           if i < 34 {
            Table::row(-323881200, -28800, 0, "PST")
           } else {
            Table::row(-305733600, -28800, 3600, "PDT")
           }
          }
         }
        }
       } else {
        if i < 41 {
         if i < 38 {
          if i < 36 {
           Table::row(-292431600, -28800, 0, "PST")
          } else {
           if i < 37 {
            Table::row(-273679200, -28800, 3600, "PDT")
           } else {
            Table::row(-260982000, -28800, 0, "PST")
           }
          }
         } else {
          if i < 39 {
           Table::row(-242229600, -28800, 3600, "PDT")
          } else {
           if i < 40 {
            Table::row(-226508400, -28800, 0, "PST")
           } else {
            Table::row(-210780000, -28800, 3600, "PDT")
           }
          }
         }
        } else {
         if i < 44 {
          if i < 42 {
           Table::row(-195058800, -28800, 0, "PST")
          } else {
           if i < 43 {
            Table::row(-179330400, -28800, 3600, "PDT")
           } else {
            Table::row(-163609200, -28800, 0, "PST")
           }
          }
         } else {
          if i < 45 {
           Table::row(-147880800, -28800, 3600, "PDT")
          } else {
           if i < 46 {
            Table::row(-131554800, -28800, 0, "PST")
           } else {
            Table::row(-116431200, -28800, 3600, "PDT")
           }
          }
         }
        }
       }
      }
     } else {
      if i < 71 {
       if i < 59 {
        if i < 53 {
         if i < 50 {
          if i < 48 {
           Table::row(-100105200, -28800, 0, "PST")
          } else {
           if i < 49 {
            Table::row(-84376800, -28800, 3600, "PDT")
           } else {
            Table::row(-68655600, -28800, 0, "PST")
           }
          }
         } else {
          if i < 51 {
           Table::row(-52927200, -28800, 3600, "PDT")
          } else {
           if i < 52 {
            Table::row(-37206000, -28800, 0, "PST")
           } else {
            Table::row(-21477600, -28800, 3600, "PDT")
           }
          }
         }
        } else {
         if i < 56 {
          if i < 54 {
           Table::row(-5756400, -28800, 0, "PST")
          } else {
           if i < 55 {
            Table::row(9972000, -28800, 3600, "PDT")
           } else {
            Table::row(25693200, -28800, 0, "PST")
           }
          }
         } else {
          if i < 57 {
           Table::row(41421600, -28800, 3600, "PDT")
          } else {
           if i < 58 {
            Table::row(57747600, -28800, 0, "PST")
           } else {
            Table::row(73476000, -28800, 3600, "PDT")
           }
          }
         }
        }
       } else {
        if i < 65 {
         if i < 62 {
          if i < 60 {
           Table::row(89197200, -28800, 0, "PST")
          } else {
           if i < 61 {
            Table::row(104925600, -28800, 3600, "PDT")
           } else {
            Table::row(120646800, -28800, 0, "PST")
           }
          }
         } else {
          if i < 63 {
           Table::row(136375200, -28800, 3600, "PDT")
          } else {
           if i < 64 {
            Table::row(152096400, -28800, 0, "PST")
           } else {
            Table::row(167824800, -28800, 3600, "PDT")
           }
          }
         }
        } else {
         if i < 68 {
          if i < 66 {
           Table::row(183546000, -28800, 0, "PST")
          } else {
           if i < 67 {
            Table::row(199274400, -28800, 3600, "PDT")
           } else {
            Table::row(215600400, -28800, 0, "PST")
           }
          }
         } else {
          if i < 69 {
           Table::row(230724000, -28800, 3600, "PDT")
          } else {
           if i < 70 {
            Table::row(247050000, -28800, 0, "PST")
           } else {
            Table::row(262778400, -28800, 3600, "PDT")
           }
          }
         }
        }
       }
      } else {
       if i < 83 {
        if i < 77 {
         if i < 74 {
          if i < 72 {
           Table::row(278499600, -28800, 0, "PST")
          } else {
           if i < 73 {
            Table::row(294228000, -28800, 3600, "PDT")
           } else {
            Table::row(309949200, -28800, 0, "PST")
           }
          }
         } else {
          if i < 75 {
           Table::row(325677600, -28800, 3600, "PDT")
          } else {
           if i < 76 {
            Table::row(341398800, -28800, 0, "PST")
           } else {
            Table::row(357127200, -28800, 3600, "PDT")
           }
          }
         }
        } else {
         if i < 80 {
          if i < 78 {
           Table::row(372848400, -28800, 0, "PST")
          } else {
           if i < 79 {
            Table::row(388576800, -28800, 3600, "PDT")
           } else {
            Table::row(404902800, -28800, 0, "PST")
           }
          }
         } else {
          if i < 81 {
           Table::row(420026400, -28800, 3600, "PDT")
          } else {
           if i < 82 {
            Table::row(436352400, -28800, 0, "PST")
           } else {
            Table::row(452080800, -28800, 3600, "PDT")
           }
          }
         }
        }
       } else {
        if i < 89 {
         if i < 86 {
          if i < 84 {
           Table::row(467802000, -28800, 0, "PST")
          } else {
           if i < 85 {
            Table::row(483530400, -28800, 3600, "PDT")
           } else {
            Table::row(499251600, -28800, 0, "PST")
           }
          }
         } else {
          if i < 87 {
           Table::row(514980000, -28800, 3600, "PDT")
          } else {
           if i < 88 {
            Table::row(530701200, -28800, 0, "PST")
           } else {
            Table::row(544615200, -28800, 3600, "PDT")
           }
          }
         }
        } else {
         if i < 92 {
          if i < 90 {
           Table::row(562150800, -28800, 0, "PST")
          } else {
           if i < 91 {
            Table::row(576064800, -28800, 3600, "PDT")
           } else {
            Table::row(594205200, -28800, 0, "PST")
           }
          }
         } else {
          if i < 93 {
           Table::row(607514400, -28800, 3600, "PDT")
          } else {
           if i < 94 {
            Table::row(625654800, -28800, 0, "PST")
           } else {
            Table::row(638964000, -28800, 3600, "PDT")
           }
          }
         }
        }
       }
      }
     }
    } else {
     if i < 142 {
      if i < 118 {
       if i < 106 {
        if i < 100 {
         if i < 97 {
          if i < 96 {
           Table::row(657104400, -28800, 0, "PST")
          } else {
           Table::row(671018400, -28800, 3600, "PDT")
          }
         } else {
          if i < 98 {
           Table::row(688554000, -28800, 0, "PST")
          } else {
           if i < 99 {
            Table::row(702468000, -28800, 3600, "PDT")
           } else {
            Table::row(720003600, -28800, 0, "PST")
           }
          }
         }
        } else {
         if i < 103 {
          if i < 101 {
           Table::row(733917600, -28800, 3600, "PDT")
          } else {
           if i < 102 {
            Table::row(752058000, -28800, 0, "PST")
           } else {
            Table::row(765367200, -28800, 3600, "PDT")
           }
          }
         } else {
          if i < 104 {
           Table::row(783507600, -28800, 0, "PST")
          } else {
           if i < 105 {
            Table::row(796816800, -28800, 3600, "PDT")
           } else {
            Table::row(814957200, -28800, 0, "PST")
           }
          }
         }
        }
       } else {
        if i < 112 {
         if i < 109 {
          if i < 107 {
           Table::row(828871200, -28800, 3600, "PDT")
          } else {
           if i < 108 {
            Table::row(846406800, -28800, 0, "PST")
           } else {
            Table::row(860320800, -28800, 3600, "PDT")
           }
          }
         } else {
          if i < 110 {
           Table::row(877856400, -28800, 0, "PST")
          } else {
           if i < 111 {
            Table::row(891770400, -28800, 3600, "PDT")
           } else {
            Table::row(909306000, -28800, 0, "PST")
           }
          }
         }
        } else {
         if i < 115 {
          if i < 113 {
           Table::row(923220000, -28800, 3600, "PDT")
          } else {
           if i < 114 {
            Table::row(941360400, -28800, 0, "PST")
           } else {
            Table::row(954669600, -28800, 3600, "PDT")
           }
          }
         } else {
          if i < 116 {
           Table::row(972810000, -28800, 0, "PST")
          } else {
           if i < 117 {
            Table::row(986119200, -28800, 3600, "PDT")
           } else {
            Table::row(1004259600, -28800, 0, "PST")
           }
          }
         }
        }
       }
      } else {
       if i < 130 {
        if i < 124 {
         if i < 121 {
          if i < 119 {
           Table::row(1018173600, -28800, 3600, "PDT")
          } else {
           if i < 120 {
            Table::row(1035709200, -28800, 0, "PST")
           } else {
            Table::row(1049623200, -28800, 3600, "PDT")
           }
          }
         } else {
          if i < 122 {
           Table::row(1067158800, -28800, 0, "PST")
          } else {
           if i < 123 {
            Table::row(1081072800, -28800, 3600, "PDT")
           } else {
            Table::row(1099213200, -28800, 0, "PST")
           }
          }
         }
        } else {
         if i < 127 {
          if i < 125 {
           Table::row(1112522400, -28800, 3600, "PDT")
          } else {
           if i < 126 {
            Table::row(1130662800, -28800, 0, "PST")
           } else {
            Table::row(1143972000, -28800, 3600, "PDT")
           }
          }
         } else {
          if i < 128 {
           Table::row(1162112400, -28800, 0, "PST")
          } else {
           if i < 129 {
            Table::row(1173607200, -28800, 3600, "PDT")
           } else {
            Table::row(1194166800, -28800, 0, "PST")
           }
          }
         }
        }
       } else {
        if i < 136 {
         if i < 133 {
          if i < 131 {
           Table::row(1205056800, -28800, 3600, "PDT")
          } else {
           if i < 132 {
            Table::row(1225616400, -28800, 0, "PST")
           } else {
            Table::row(1236506400, -28800, 3600, "PDT")
           }
          }
         } else {
          if i < 134 {
           Table::row(1257066000, -28800, 0, "PST")
          } else {
           if i < 135 {
            Table::row(1268560800, -28800, 3600, "PDT")
           } else {
            Table::row(1289120400, -28800, 0, "PST")
           }
          }
         }
        } else {
         if i < 139 {
          if i < 137 {
           Table::row(1300010400, -28800, 3600, "PDT")
          } else {
           if i < 138 {
            Table::row(1320570000, -28800, 0, "PST")
           } else {
            Table::row(1331460000, -28800, 3600, "PDT")
           }
          }
         } else {
          if i < 140 {
           Table::row(1352019600, -28800, 0, "PST")
          } else {
           if i < 141 {
            Table::row(1362909600, -28800, 3600, "PDT")
           } else {
            Table::row(1383469200, -28800, 0, "PST")
           }
          }
         }
        }
       }
      }
     } else {
      if i < 166 {
       if i < 154 {
        if i < 148 {
         if i < 145 {
          if i < 143 {
           Table::row(1394359200, -28800, 3600, "PDT")
          } else {
           if i < 144 {
            Table::row(1414918800, -28800, 0, "PST")
           } else {
            Table::row(1425808800, -28800, 3600, "PDT")
           }
          }
         } else {
          if i < 146 {
           Table::row(1446368400, -28800, 0, "PST")
          } else {
           if i < 147 {
            Table::row(1457863200, -28800, 3600, "PDT")
           } else {
            Table::row(1478422800, -28800, 0, "PST")
           }
          }
         }
        } else {
         if i < 151 {
          if i < 149 {
           Table::row(1489312800, -28800, 3600, "PDT")
          } else {
           if i < 150 {
            Table::row(1509872400, -28800, 0, "PST")
           } else {
            Table::row(1520762400, -28800, 3600, "PDT")
           }
          }
         } else {
          if i < 152 {
           Table::row(1541322000, -28800, 0, "PST")
          } else {
           if i < 153 {
            Table::row(1552212000, -28800, 3600, "PDT")
           } else {
            Table::row(1572771600, -28800, 0, "PST")
           }
          }
         }
        }
       } else {
        if i < 160 {
         if i < 157 {
          if i < 155 {
           Table::row(1583661600, -28800, 3600, "PDT")
          } else {
           if i < 156 {
            Table::row(1604221200, -28800, 0, "PST")
           } else {
            Table::row(1615716000, -28800, 3600, "PDT")
           }
          }
         } else {
          if i < 158 {
           Table::row(1636275600, -28800, 0, "PST")
          } else {
           if i < 159 {
            Table::row(1647165600, -28800, 3600, "PDT")
           } else {
            Table::row(1667725200, -28800, 0, "PST")
           }
          }
         }
        } else {
         if i < 163 {
          if i < 161 {
           Table::row(1678615200, -28800, 3600, "PDT")
          } else {
           if i < 162 {
            Table::row(1699174800, -28800, 0, "PST")
           } else {
            Table::row(1710064800, -28800, 3600, "PDT")
           }
          }
         } else {
          if i < 164 {
           Table::row(1730624400, -28800, 0, "PST")
          } else {
           if i < 165 {
            Table::row(1741514400, -28800, 3600, "PDT")
           } else {
            Table::row(1762074000, -28800, 0, "PST")
           }
          }
         }
        }
       }
      } else {
       if i < 178 {
        if i < 172 {
         if i < 169 {
          if i < 167 {
           Table::row(1772964000, -28800, 3600, "PDT")
          } else {
           if i < 168 {
            Table::row(1793523600, -28800, 0, "PST")
           } else {
            Table::row(1805018400, -28800, 3600, "PDT")
           }
          }
         } else {
          if i < 170 {
           Table::row(1825578000, -28800, 0, "PST")
          } else {
           if i < 171 {
            Table::row(1836468000, -28800, 3600, "PDT")
           } else {
            Table::row(1857027600, -28800, 0, "PST")
           }
          }
         }
        } else {
         if i < 175 {
          if i < 173 {
           Table::row(1867917600, -28800, 3600, "PDT")
          } else {
           if i < 174 {
            Table::row(1888477200, -28800, 0, "PST")
           } else {
            Table::row(1899367200, -28800, 3600, "PDT")
           }
          }
         } else {
          if i < 176 {
           Table::row(1919926800, -28800, 0, "PST")
          } else {
           if i < 177 {
            Table::row(1930816800, -28800, 3600, "PDT")
           } else {
            Table::row(1951376400, -28800, 0, "PST")
           }
          }
         }
        }
       } else {
        if i < 184 {
         if i < 181 {
          if i < 179 {
           Table::row(1962871200, -28800, 3600, "PDT")
          } else {
           if i < 180 {
            Table::row(1983430800, -28800, 0, "PST")
           } else {
            Table::row(1994320800, -28800, 3600, "PDT")
           }
          }
         } else {
          if i < 182 {
           Table::row(2014880400, -28800, 0, "PST")
          } else {
           if i < 183 {
            Table::row(2025770400, -28800, 3600, "PDT")
           } else {
            Table::row(2046330000, -28800, 0, "PST")
           }
          }
         }
        } else {
         if i < 187 {
          if i < 185 {
           Table::row(2057220000, -28800, 3600, "PDT")
          } else {
           if i < 186 {
            Table::row(2077779600, -28800, 0, "PST")
           } else {
            Table::row(2088669600, -28800, 3600, "PDT")
           }
          }
         } else {
          if i < 188 {
           Table::row(2109229200, -28800, 0, "PST")
          } else {
           if i < 189 {
            Table::row(2120119200, -28800, 3600, "PDT")
           } else {
            Table::row(2140678800, -28800, 0, "PST")
           }
          }
         }
        }
       }
      }
     }
    }
}

/// The rows of the table of the zone `Canada/Pacific`.
pub open spec fn pacific_rows() -> spec_fn(int) -> (i64, FixedTimespan) {
    |i: int| pacific_row(i)
}

/// The table of the zone `Canada/Pacific`.
pub open spec fn pacific() -> Table {
    Table::listed(Table::row(0, -29548, 0, "LMT").1, 190, pacific_rows())
}

/// Row `i` of the table of the zone `Canada/Saskatchewan`.
pub open spec fn saskatchewan_row(i: int) -> (i64, FixedTimespan) {
    if i < 26 {
     if i < 13 {
      if i < 6 {
       if i < 3 {
        if i < 1 {
         Table::row(-2030202084, -25200, 0, "MST")
        } else {
         if i < 2 {
          Table::row(-1632063600, -25200, 3600, "MDT")
         } else {
          Table::row(-1615132800, -25200, 0, "MST")
         }
        }
       } else {
        if i < 4 {
         Table::row(-1251651600, -25200, 3600, "MDT")
        } else {
         if i < 5 {
          Table::row(-1238349600, -25200, 0, "MST")
         } else {
          Table::row(-1220202000, -25200, 3600, "MDT")
         }
        }
       }
      } else {
       if i < 9 {
        if i < 7 {
         Table::row(-1206900000, -25200, 0, "MST")
        } else {
         if i < 8 {
          Table::row(-1188752400, -25200, 3600, "MDT")
         } else {
          Table::row(-1175450400, -25200, 0, "MST")
         }
        }
       } else {
        if i < 11 {
         if i < 10 {
          Table::row(-1156698000, -25200, 3600, "MDT")
         } else {
          Table::row(-1144000800, -25200, 0, "MST")
         }
        } else {
         if i < 12 {
          Table::row(-1125248400, -25200, 3600, "MDT")
         } else {
          Table::row(-1111946400, -25200, 0, "MST")
         }
        }
       }
      }
     } else {
      if i < 19 {
       if i < 16 {
        if i < 14 {
         Table::row(-1032714000, -25200, 3600, "MDT")
        } else {
         if i < 15 {
          Table::row(-1016992800, -25200, 0, "MST")
         } else {
          Table::row(-1001264400, -25200, 3600, "MDT")
         }
        }
       } else {
        if i < 17 {
         Table::row(-986148000, -25200, 0, "MST")
        } else {
         if i < 18 {
          Table::row(-969814800, -25200, 3600, "MDT")
         } else {
          Table::row(-954093600, -25200, 0, "MST")
         }
        }
       }
      } else {
       if i < 22 {
        if i < 20 {
         Table::row(-937760400, -25200, 3600, "MDT")
        } else {
         if i < 21 {
          Table::row(-922039200, -25200, 0, "MST")
         } else {
          Table::row(-906310800, -25200, 3600, "MDT")
         }
        }
       } else {
        if i < 24 {
         if i < 23 {
          Table::row(-890589600, -25200, 0, "MST")
         } else {
          Table::row(-880210800, -25200, 3600, "MWT")
         }
        } else {
         if i < 25 {
          Table::row(-769395600, -25200, 3600, "MPT")
         } else {
          Table::row(-765388800, -25200, 0, "MST")
         }
        }
       }
      }
     }
    } else {
     if i < 39 {
      if i < 32 {
       if i < 29 {
        if i < 27 {
         Table::row(-748450800, -25200, 3600, "MDT")
        } else {
         if i < 28 {
          Table::row(-732729600, -25200, 0, "MST")
         } else {
          Table::row(-715791600, -25200, 3600, "MDT")
         }
        }
       } else {
        if i < 30 {
         Table::row(-702489600, -25200, 0, "MST")
        } else {
         if i < 31 {
          Table::row(-684342000, -25200, 3600, "MDT")
         } else {
          Table::row(-671040000, -25200, 0, "MST")
         }
        }
       }
      } else {
       if i < 35 {
        if i < 33 {
         Table::row(-652892400, -25200, 3600, "MDT")
        } else {
         if i < 34 {
          Table::row(-639590400, -25200, 0, "MST")
         } else {
          Table::row(-620838000, -25200, 3600, "MDT")
         }
        }
       } else {
        if i < 37 {
         if i < 36 {
          Table::row(-608140800, -25200, 0, "MST")
         } else {
          Table::row(-589388400, -25200, 3600, "MDT")
         }
        } else {
         if i < 38 {
          Table::row(-576086400, -25200, 0, "MST")
         } else {
          Table::row(-557938800, -25200, 3600, "MDT")
         }
        }
       }
      }
     } else {
      if i < 46 {
       if i < 42 {
        if i < 40 {
         Table::row(-544636800, -25200, 0, "MST")
        } else {
         if i < 41 {
          Table::row(-526489200, -25200, 3600, "MDT")
         } else {
          Table::row(-513187200, -25200, 0, "MST")
         }
        }
       } else {
        if i < 44 {
         if i < 43 {
          Table::row(-495039600, -25200, 3600, "MDT")
         } else {
          Table::row(-481737600, -25200, 0, "MST")
         }
        } else {
         if i < 45 {
          Table::row(-463590000, -25200, 3600, "MDT")
         } else {
          Table::row(-450288000, -25200, 0, "MST")
         }
        }
       }
      } else {
       if i < 49 {
        if i < 47 {
         Table::row(-431535600, -25200, 3600, "MDT")
        } else {
         if i < 48 {
          Table::row(-418233600, -25200, 0, "MST")
         } else {
          Table::row(-400086000, -25200, 3600, "MDT")
         }
        }
       } else {
        if i < 51 {
         if i < 50 {
          Table::row(-386784000, -25200, 0, "MST")
         } else {
          Table::row(-337186800, -25200, 3600, "MDT")
         }
        } else {
         if i < 52 {
          Table::row(-321465600, -25200, 0, "MST")
         } else {
          Table::row(-305737200, -21600, 0, "CST")
         }
        }
       }
      }
     }
    }
}

/// The rows of the table of the zone `Canada/Saskatchewan`.
pub open spec fn saskatchewan_rows() -> spec_fn(int) -> (i64, FixedTimespan) {
    |i: int| saskatchewan_row(i)
}

/// The table of the zone `Canada/Saskatchewan`.
pub open spec fn saskatchewan() -> Table {
    Table::listed(Table::row(0, -25116, 0, "LMT").1, 53, saskatchewan_rows())
}

/// Row `i` of the table of the zone `Canada/Yukon`.
pub open spec fn yukon_row(i: int) -> (i64, FixedTimespan) {
    if i < 46 {
     if i < 23 {
      if i < 11 {
       if i < 5 {
        if i < 2 {
         if i < 1 {
          Table::row(-2188997988, -32400, 0, "YST")
         } else {
          Table::row(-1632056400, -32400, 3600, "YDT")
         }
        } else {
         if i < 3 {
          Table::row(-1615125600, -32400, 0, "YST")
         } else {
          if i < 4 {
           Table::row(-1596978000, -32400, 3600, "YDT")
          } else {
           Table::row(-1583164800, -32400, 0, "YST")
          }
         }
        }
       } else {
        if i < 8 {
         if i < 6 {
          Table::row(-880203600, -32400, 3600, "YWT")
         } else {
          if i < 7 {
           Table::row(-769395600, -32400, 3600, "YPT")
          } else {
           Table::row(-765381600, -32400, 0, "YST")
          }
         }
        } else {
         if i < 9 {
          Table::row(-147884400, -32400, 7200, "YDDT")
         } else {
          if i < 10 {
           Table::row(-131554800, -32400, 0, "YST")
          } else {
           Table::row(-121273200, -28800, 0, "PST")
          }
         }
        }
       }
      } else {
       if i < 17 {
        if i < 14 {
         if i < 12 {
          Table::row(325677600, -28800, 3600, "PDT")
         } else {
          if i < 13 {
           Table::row(341398800, -28800, 0, "PST")
          } else {
           Table::row(357127200, -28800, 3600, "PDT")
          }
         }
        } else {
         if i < 15 {
          Table::row(372848400, -28800, 0, "PST")
         } else {
          if i < 16 {
           Table::row(388576800, -28800, 3600, "PDT")
          } else {
           Table::row(404902800, -28800, 0, "PST")
          }
         }
        }
       } else {
        if i < 20 {
         if i < 18 {
          Table::row(420026400, -28800, 3600, "PDT")
         } else {
          if i < 19 {
           Table::row(436352400, -28800, 0, "PST")
          } else {
           Table::row(452080800, -28800, 3600, "PDT")
          }
         }
        } else {
         if i < 21 {
          Table::row(467802000, -28800, 0, "PST")
         } else {
          if i < 22 {
           Table::row(483530400, -28800, 3600, "PDT")
          } else {
           Table::row(499251600, -28800, 0, "PST")
          }
         }
        }
       }
      }
     } else {
      if i < 34 {
       if i < 28 {
        if i < 25 {
         if i < 24 {
          Table::row(514980000, -28800, 3600, "PDT")
         } else {
          Table::row(530701200, -28800, 0, "PST")
         }
        } else {
         if i < 26 {
          Table::row(544615200, -28800, 3600, "PDT")
         } else {
          if i < 27 {
           Table::row(562150800, -28800, 0, "PST")
          } else {
           Table::row(576064800, -28800, 3600, "PDT")
          }
         }
        }
       } else {
        if i < 31 {
         if i < 29 {
          Table::row(594205200, -28800, 0, "PST")
         } else {
          if i < 30 {
           Table::row(607514400, -28800, 3600, "PDT")
          } else {
           Table::row(625654800, -28800, 0, "PST")
          }
         }
        } else {
         if i < 32 {
          Table::row(638964000, -28800, 3600, "PDT")
         } else {
          if i < 33 {
           Table::row(657104400, -28800, 0, "PST")
          } else {
           Table::row(671018400, -28800, 3600, "PDT")
          }
         }
        }
       }
      } else {
       if i < 40 {
        if i < 37 {
         if i < 35 {
          Table::row(688554000, -28800, 0, "PST")
         } else {
          if i < 36 {
           Table::row(702468000, -28800, 3600, "PDT")
          } else {
           Table::row(720003600, -28800, 0, "PST")
          }
         }
        } else {
         if i < 38 {
          Table::row(733917600, -28800, 3600, "PDT")
         } else {
          if i < 39 {
           Table::row(752058000, -28800, 0, "PST")
          } else {
           Table::row(765367200, -28800, 3600, "PDT")
          }
         }
        }
       } else {
        if i < 43 {
         if i < 41 {
          Table::row(783507600, -28800, 0, "PST")
         } else {
          if i < 42 {
           Table::row(796816800, -28800, 3600, "PDT")
          } else {
           Table::row(814957200, -28800, 0, "PST")
          }
         }
        } else {
         if i < 44 {
          Table::row(828871200, -28800, 3600, "PDT")
         } else {
          if i < 45 {
           Table::row(846406800, -28800, 0, "PST")
          } else {
           Table::row(860320800, -28800, 3600, "PDT")
          }
         }
        }
       }
      }
     }
    } else {
     if i < 69 {
      if i < 57 {
       if i < 51 {
        if i < 48 {
         if i < 47 {
          Table::row(877856400, -28800, 0, "PST")
         } else {
          Table::row(891770400, -28800, 3600, "PDT")
         }
        } else {
         if i < 49 {
          Table::row(909306000, -28800, 0, "PST")
         } else {
          if i < 50 {
           Table::row(923220000, -28800, 3600, "PDT")
          } else {
           Table::row(941360400, -28800, 0, "PST")
          }
         }
        }
       } else {
        if i < 54 {
         if i < 52 {
          Table::row(954669600, -28800, 3600, "PDT")
         } else {
          if i < 53 {
           Table::row(972810000, -28800, 0, "PST")
          } else {
           Table::row(986119200, -28800, 3600, "PDT")
          }
         }
        } else {
         if i < 55 {
          Table::row(1004259600, -28800, 0, "PST")
         } else {
          if i < 56 {
           Table::row(1018173600, -28800, 3600, "PDT")
          } else {
           Table::row(1035709200, -28800, 0, "PST")
          }
         }
        }
       }
      } else {
       if i < 63 {
        if i < 60 {
         if i < 58 {
          Table::row(1049623200, -28800, 3600, "PDT")
         } else {
          if i < 59 {
           Table::row(1067158800, -28800, 0, "PST")
          } else {
           Table::row(1081072800, -28800, 3600, "PDT")
          }
         }
        } else {
         if i < 61 {
          Table::row(1099213200, -28800, 0, "PST")
         } else {
          if i < 62 {
           Table::row(1112522400, -28800, 3600, "PDT")
          } else {
           Table::row(1130662800, -28800, 0, "PST")
          }
         }
        }
       } else {
        if i < 66 {
         if i < 64 {
          Table::row(1143972000, -28800, 3600, "PDT")
         } else {
          if i < 65 {
           Table::row(1162112400, -28800, 0, "PST")
          } else {
           Table::row(1173607200, -28800, 3600, "PDT")
          }
         }
        } else {
         if i < 67 {
          Table::row(1194166800, -28800, 0, "PST")
         } else {
          if i < 68 {
           Table::row(1205056800, -28800, 3600, "PDT")
          } else {
           Table::row(1225616400, -28800, 0, "PST")
          }
         }
        }
       }
      }
     } else {
      if i < 81 {
       if i < 75 {
        if i < 72 {
         if i < 70 {
          Table::row(1236506400, -28800, 3600, "PDT")
         } else {
          if i < 71 {
           Table::row(1257066000, -28800, 0, "PST")
          } else {
           Table::row(1268560800, -28800, 3600, "PDT")
          }
         }
        } else {
         if i < 73 {
          Table::row(1289120400, -28800, 0, "PST")
         } else {
          if i < 74 {
           Table::row(1300010400, -28800, 3600, "PDT")
          } else {
           Table::row(1320570000, -28800, 0, "PST")
          }
         }
        }
       } else {
        if i < 78 {
         if i < 76 {
          Table::row(1331460000, -28800, 3600, "PDT")
         } else {
          if i < 77 {
           Table::row(1352019600, -28800, 0, "PST")
          } else {
           Table::row(1362909600, -28800, 3600, "PDT")
          }
         }
        } else {
         if i < 79 {
          Table::row(1383469200, -28800, 0, "PST")
         } else {
          if i < 80 {
           Table::row(1394359200, -28800, 3600, "PDT")
          } else {
           Table::row(1414918800, -28800, 0, "PST")
          }
         }
        }
       }
      } else {
       if i < 87 {
        if i < 84 {
         if i < 82 {
          Table::row(1425808800, -28800, 3600, "PDT")
         } else {
          if i < 83 {
           Table::row(1446368400, -28800, 0, "PST")
          } else {
           Table::row(1457863200, -28800, 3600, "PDT")
          }
         }
        } else {
         if i < 85 {
          Table::row(1478422800, -28800, 0, "PST")
         } else {
          if i < 86 {
           Table::row(1489312800, -28800, 3600, "PDT")
          } else {
           Table::row(1509872400, -28800, 0, "PST")
          }
         }
        }
       } else {
        if i < 90 {
         if i < 88 {
          Table::row(1520762400, -28800, 3600, "PDT")
         } else {
          if i < 89 {
           Table::row(1541322000, -28800, 0, "PST")
          } else {
           Table::row(1552212000, -28800, 3600, "PDT")
          }
         }
        } else {
         if i < 91 {
          Table::row(1572771600, -28800, 0, "PST")
         } else {
          if i < 92 {
           Table::row(1583661600, -28800, 3600, "PDT")
          } else {
           Table::row(1604214000, -25200, 0, "MST")
          }
         }
        }
       }
      }
     }
    }
}

/// The rows of the table of the zone `Canada/Yukon`.
pub open spec fn yukon_rows() -> spec_fn(int) -> (i64, FixedTimespan) {
    |i: int| yukon_row(i)
}

/// The table of the zone `Canada/Yukon`.
pub open spec fn yukon() -> Table {
    Table::listed(Table::row(0, -32412, 0, "LMT").1, 93, yukon_rows())
}

} // verus!
