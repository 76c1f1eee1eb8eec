//! The tables of the zones of the Atlantic.

use crate::timezone_impl::{FixedTimespan, Table};
use vstd::prelude::*;

verus! {

/// Row `i` of the table of the zone `Atlantic/Azores`.
pub open spec fn azores_row(i: int) -> (i64, FixedTimespan) {
    if i < 108 {
     if i < 54 {
      if i < 27 {
       if i < 13 {
        if i < 6 {
         if i < 3 {
          if i < 1 {
           Table::row(-2713904240, -6872, 0, "HMT")
          } else {
           if i < 2 {
            Table::row(-1830376800, -7200, 0, "-02")
           } else {
            Table::row(-1689548400, -7200, 3600, "-01")
           }
          }
         } else {
          if i < 4 {
           Table::row(-1677794400, -7200, 0, "-02")
          } else {
           if i < 5 {
            Table::row(-1667426400, -7200, 3600, "-01")
           } else {
            Table::row(-1647730800, -7200, 0, "-02")
           }
          }
         }
        } else {
         if i < 9 {
          if i < 7 {
           Table::row(-1635890400, -7200, 3600, "-01")
          } else {
           if i < 8 {
            Table::row(-1616194800, -7200, 0, "-02")
           } else {
            Table::row(-1604354400, -7200, 3600, "-01")
           }
          }
         } else {
          if i < 11 {
           if i < 10 {
            Table::row(-1584658800, -7200, 0, "-02")
           } else {
            Table::row(-1572732000, -7200, 3600, "-01")
           }
          } else {
           if i < 12 {
            Table::row(-1553036400, -7200, 0, "-02")
           } else {
            Table::row(-1541196000, -7200, 3600, "-01")
           }
          }
         }
        }
       } else {
        if i < 20 {
         if i < 16 {
          if i < 14 {
           Table::row(-1521500400, -7200, 0, "-02")
          } else {
           if i < 15 {
            Table::row(-1442444400, -7200, 3600, "-01")
           } else {
            Table::row(-1427670000, -7200, 0, "-02")
           }
          }
         } else {
          if i < 18 {
           if i < 17 {
            Table::row(-1379286000, -7200, 3600, "-01")
           } else {
            Table::row(-1364770800, -7200, 0, "-02")
           }
          } else {
           if i < 19 {
            Table::row(-1348441200, -7200, 3600, "-01")
           } else {
            Table::row(-1333321200, -7200, 0, "-02")
           }
          }
         }
        } else {
         if i < 23 {
          if i < 21 {
           Table::row(-1316386800, -7200, 3600, "-01")
          } else {
           if i < 22 {
            Table::row(-1301266800, -7200, 0, "-02")
           } else {
            Table::row(-1284332400, -7200, 3600, "-01")
           }
          }
         } else {
          if i < 25 {
           if i < 24 {
            Table::row(-1269817200, -7200, 0, "-02")
           } else {
            Table::row(-1221433200, -7200, 3600, "-01")
           }
          } else {
           if i < 26 {
            Table::row(-1206918000, -7200, 0, "-02")
           } else {
            Table::row(-1191193200, -7200, 3600, "-01")
           }
          }
         }
        }
       }
      } else {
       if i < 40 {
        if i < 33 {
         if i < 30 {
          if i < 28 {
           Table::row(-1175468400, -7200, 0, "-02")
          } else {
           if i < 29 {
            Table::row(-1127689200, -7200, 3600, "-01")
           } else {
            Table::row(-1111964400, -7200, 0, "-02")
           }
          }
         } else {
          if i < 31 {
           Table::row(-1096844400, -7200, 3600, "-01")
          } else {
           if i < 32 {
            Table::row(-1080514800, -7200, 0, "-02")
           } else {
            Table::row(-1063580400, -7200, 3600, "-01")
           }
          }
         }
        } else {
         if i < 36 {
          if i < 34 {
           Table::row(-1049065200, -7200, 0, "-02")
          } else {
           if i < 35 {
            Table::row(-1033340400, -7200, 3600, "-01")
           } else {
            Table::row(-1017615600, -7200, 0, "-02")
           }
          }
         } else {
          if i < 38 {
           if i < 37 {
            Table::row(-1002495600, -7200, 3600, "-01")
           } else {
            Table::row(-986166000, -7200, 0, "-02")
           }
          } else {
           if i < 39 {
            Table::row(-969231600, -7200, 3600, "-01")
           } else {
            Table::row(-950482800, -7200, 0, "-02")
           }
          }
         }
        }
       } else {
        if i < 47 {
         if i < 43 {
          if i < 41 {
           Table::row(-942015600, -7200, 3600, "-01")
          } else {
           if i < 42 {
            Table::row(-922489200, -7200, 0, "-02")
           } else {
            Table::row(-906937200, -7200, 3600, "-01")
           }
          }
         } else {
          if i < 45 {
           if i < 44 {
            Table::row(-891126000, -7200, 0, "-02")
           } else {
            Table::row(-877302000, -7200, 3600, "-01")
           }
          } else {
           if i < 46 {
            Table::row(-873676800, -7200, 7200, "+00")
           } else {
            Table::row(-864000000, -7200, 3600, "-01")
           }
          }
         }
        } else {
         if i < 50 {
          if i < 48 {
           Table::row(-857948400, -7200, 0, "-02")
          } else {
           if i < 49 {
            Table::row(-845852400, -7200, 3600, "-01")
           } else {
            Table::row(-842832000, -7200, 7200, "+00")
           }
          }
         } else {
          if i < 52 {
           if i < 51 {
            Table::row(-831340800, -7200, 3600, "-01")
           } else {
            Table::row(-825894000, -7200, 0, "-02")
           }
          } else {
           if i < 53 {
            Table::row(-814402800, -7200, 3600, "-01")
           } else {
            Table::row(-810777600, -7200, 7200, "+00")
           }
          }
         }
        }
       }
      }
     } else {
      if i < 81 {
       if i < 67 {
        if i < 60 {
         if i < 57 {
          if i < 55 {
           Table::row(-799891200, -7200, 3600, "-01")
          } else {
           if i < 56 {
            Table::row(-794444400, -7200, 0, "-02")
           } else {
            Table::row(-782953200, -7200, 3600, "-01")
           }
          }
         } else {
          if i < 58 {
           Table::row(-779328000, -7200, 7200, "+00")
          } else {
           if i < 59 {
            Table::row(-768441600, -7200, 3600, "-01")
           } else {
            Table::row(-762994800, -7200, 0, "-02")
           }
          }
         }
        } else {
         if i < 63 {
          if i < 61 {
           Table::row(-749084400, -7200, 3600, "-01")
          } else {
           if i < 62 {
            Table::row(-733359600, -7200, 0, "-02")
           } else {
            Table::row(-717624000, -7200, 3600, "-01")
           }
          }
         } else {
          if i < 65 {
           if i < 64 {
            Table::row(-701899200, -7200, 0, "-02")
           } else {
            Table::row(-686174400, -7200, 3600, "-01")
           }
          } else {
           if i < 66 {
            Table::row(-670449600, -7200, 0, "-02")
           } else {
            Table::row(-654724800, -7200, 3600, "-01")
           }
          }
         }
        }
       } else {
        if i < 74 {
         if i < 70 {
          if i < 68 {
           Table::row(-639000000, -7200, 0, "-02")
          } else {
           if i < 69 {
            Table::row(-623275200, -7200, 3600, "-01")
           } else {
            Table::row(-607550400, -7200, 0, "-02")
           }
          }
         } else {
          if i < 72 {
           if i < 71 {
            Table::row(-591825600, -7200, 3600, "-01")
           } else {
            Table::row(-575496000, -7200, 0, "-02")
           }
          } else {
           if i < 73 {
            Table::row(-559771200, -7200, 3600, "-01")
           } else {
            Table::row(-544046400, -7200, 0, "-02")
           }
          }
         }
        } else {
         if i < 77 {
          if i < 75 {
           Table::row(-528321600, -7200, 3600, "-01")
          } else {
           if i < 76 {
            Table::row(-512596800, -7200, 0, "-02")
           } else {
            Table::row(-496872000, -7200, 3600, "-01")
           }
          }
         } else {
          if i < 79 {
           if i < 78 {
            Table::row(-481147200, -7200, 0, "-02")
           } else {
            Table::row(-465422400, -7200, 3600, "-01")
           }
          } else {
           if i < 80 {
            Table::row(-449697600, -7200, 0, "-02")
           } else {
            Table::row(-433972800, -7200, 3600, "-01")
           }
          }
         }
        }
       }
      } else {
       if i < 94 {
        if i < 87 {
         if i < 84 {
          if i < 82 {
           Table::row(-417643200, -7200, 0, "-02")
          } else {
           if i < 83 {
            Table::row(-401918400, -7200, 3600, "-01")
           } else {
            Table::row(-386193600, -7200, 0, "-02")
           }
          }
         } else {
          if i < 85 {
           Table::row(-370468800, -7200, 3600, "-01")
          } else {
           if i < 86 {
            Table::row(-354744000, -7200, 0, "-02")
           } else {
            Table::row(-339019200, -7200, 3600, "-01")
           }
          }
         }
        } else {
         if i < 90 {
          if i < 88 {
           Table::row(-323294400, -7200, 0, "-02")
          } else {
           if i < 89 {
            Table::row(-307569600, -7200, 3600, "-01")
           } else {
            Table::row(-291844800, -7200, 0, "-02")
           }
          }
         } else {
          if i < 92 {
           if i < 91 {
            Table::row(-276120000, -7200, 3600, "-01")
           } else {
            Table::row(-260395200, -7200, 0, "-02")
           }
          } else {
           if i < 93 {
            Table::row(-244670400, -7200, 3600, "-01")
           } else {
            Table::row(-228340800, -7200, 0, "-02")
           }
          }
         }
        }
       } else {
        if i < 101 {
         if i < 97 {
          if i < 95 {
           Table::row(-212616000, -7200, 3600, "-01")
          } else {
           if i < 96 {
            Table::row(-196891200, -7200, 0, "-02")
           } else {
            Table::row(-181166400, -7200, 3600, "-01")
           }
          }
         } else {
          if i < 99 {
           if i < 98 {
            Table::row(-165441600, -7200, 0, "-02")
           } else {
            Table::row(-149716800, -7200, 3600, "-01")
           }
          } else {
           if i < 100 {
            Table::row(-133992000, -7200, 0, "-02")
           } else {
            Table::row(-118267200, -7200, 3600, "-01")
           }
          }
         }
        } else {
         if i < 104 {
          if i < 102 {
           Table::row(-102542400, -3600, 0, "-01")
          } else {
           if i < 103 {
            Table::row(386125200, -3600, 3600, "+00")
           } else {
            Table::row(401850000, -3600, 0, "-01")
           }
          }
         } else {
          if i < 106 {
           if i < 105 {
            Table::row(417574800, -3600, 3600, "+00")
           } else {
            Table::row(433299600, -3600, 0, "-01")
           }
          } else {
           if i < 107 {
            Table::row(449024400, -3600, 3600, "+00")
           } else {
            Table::row(465354000, -3600, 0, "-01")
           }
          }
         }
        }
       }
      }
     }
    } else {
     if i < 162 {
      if i < 135 {
       if i < 121 {
        if i < 114 {
         if i < 111 {
          if i < 109 {
           Table::row(481078800, -3600, 3600, "+00")
          } else {
           if i < 110 {
            Table::row(496803600, -3600, 0, "-01")
           } else {
            Table::row(512528400, -3600, 3600, "+00")
           }
          }
         } else {
          if i < 112 {
           Table::row(528253200, -3600, 0, "-01")
          } else {
           if i < 113 {
            Table::row(543978000, -3600, 3600, "+00")
           } else {
            Table::row(559702800, -3600, 0, "-01")
           }
          }
         }
        } else {
         if i < 117 {
          if i < 115 {
           Table::row(575427600, -3600, 3600, "+00")
          } else {
           if i < 116 {
            Table::row(591152400, -3600, 0, "-01")
           } else {
            Table::row(606877200, -3600, 3600, "+00")
           }
          }
         } else {
          if i < 119 {
           if i < 118 {
            Table::row(622602000, -3600, 0, "-01")
           } else {
            Table::row(638326800, -3600, 3600, "+00")
           }
          } else {
           if i < 120 {
            Table::row(654656400, -3600, 0, "-01")
           } else {
            Table::row(670381200, -3600, 3600, "+00")
           }
          }
         }
        }
       } else {
        if i < 128 {
         if i < 124 {
          if i < 122 {
           Table::row(686106000, -3600, 0, "-01")
          } else {
           if i < 123 {
            Table::row(701830800, -3600, 3600, "+00")
           } else {
            Table::row(717555600, -3600, 0, "-01")
           }
          }
         } else {
          if i < 126 {
           if i < 125 {
            Table::row(725421600, 0, 0, "WET")
           } else {
            Table::row(733280400, 0, 3600, "WEST")
           }
          } else {
           if i < 127 {
            Table::row(740278800, -3600, 3600, "+00")
           } else {
            Table::row(749005200, -3600, 0, "-01")
           }
          }
         }
        } else {
         if i < 131 {
          if i < 129 {
           Table::row(764730000, -3600, 3600, "+00")
          } else {
           if i < 130 {
            Table::row(780454800, -3600, 0, "-01")
           } else {
            Table::row(796179600, -3600, 3600, "+00")
           }
          }
         } else {
          if i < 133 {
           if i < 132 {
            Table::row(811904400, -3600, 0, "-01")
           } else {
            Table::row(828234000, -3600, 3600, "+00")
           }
          } else {
           if i < 134 {
            Table::row(846378000, -3600, 0, "-01")
           } else {
            Table::row(859683600, -3600, 3600, "+00")
           }
          }
         }
        }
       }
      } else {
       if i < 148 {
        if i < 141 {
         if i < 138 {
          if i < 136 {
           Table::row(877827600, -3600, 0, "-01")
          } else {
           if i < 137 {
            Table::row(891133200, -3600, 3600, "+00")
           } else {
            Table::row(909277200, -3600, 0, "-01")
           }
          }
         } else {
          if i < 139 {
           Table::row(922582800, -3600, 3600, "+00")
          } else {
           if i < 140 {
            Table::row(941331600, -3600, 0, "-01")
           } else {
            Table::row(954032400, -3600, 3600, "+00")
           }
          }
         }
        } else {
         if i < 144 {
          if i < 142 {
           Table::row(972781200, -3600, 0, "-01")
          } else {
           if i < 143 {
            Table::row(985482000, -3600, 3600, "+00")
           } else {
            Table::row(1004230800, -3600, 0, "-01")
           }
          }
         } else {
          if i < 146 {
           if i < 145 {
            Table::row(1017536400, -3600, 3600, "+00")
           } else {
            Table::row(1035680400, -3600, 0, "-01")
           }
          } else {
           if i < 147 {
            Table::row(1048986000, -3600, 3600, "+00")
           } else {
            Table::row(1067130000, -3600, 0, "-01")
           }
          }
         }
        }
       } else {
        if i < 155 {
         if i < 151 {
          if i < 149 {
           Table::row(1080435600, -3600, 3600, "+00")
          } else {
           if i < 150 {
            Table::row(1099184400, -3600, 0, "-01")
           } else {
            Table::row(1111885200, -3600, 3600, "+00")
           }
          }
         } else {
          if i < 153 {
           if i < 152 {
            Table::row(1130634000, -3600, 0, "-01")
           } else {
            Table::row(1143334800, -3600, 3600, "+00")
           }
          } else {
           if i < 154 {
            Table::row(1162083600, -3600, 0, "-01")
           } else {
            Table::row(1174784400, -3600, 3600, "+00")
           }
          }
         }
        } else {
         if i < 158 {
          if i < 156 {
           Table::row(1193533200, -3600, 0, "-01")
          } else {
           if i < 157 {
            Table::row(1206838800, -3600, 3600, "+00")
           } else {
            Table::row(1224982800, -3600, 0, "-01")
           }
          }
         } else {
          if i < 160 {
           if i < 159 {
            Table::row(1238288400, -3600, 3600, "+00")
           } else {
            Table::row(1256432400, -3600, 0, "-01")
           }
          } else {
           if i < 161 {
            Table::row(1269738000, -3600, 3600, "+00")
           } else {
            Table::row(1288486800, -3600, 0, "-01")
           }
          }
         }
        }
       }
      }
     } else {
      if i < 189 {
       if i < 175 {
        if i < 168 {
         if i < 165 {
          if i < 163 {
           Table::row(1301187600, -3600, 3600, "+00")
          } else {
           if i < 164 {
            Table::row(1319936400, -3600, 0, "-01")
           } else {
            Table::row(1332637200, -3600, 3600, "+00")
           }
          }
         } else {
          if i < 166 {
           Table::row(1351386000, -3600, 0, "-01")
          } else {
           if i < 167 {
            Table::row(1364691600, -3600, 3600, "+00")
           } else {
            Table::row(1382835600, -3600, 0, "-01")
           }
          }
         }
        } else {
         if i < 171 {
          if i < 169 {
           Table::row(1396141200, -3600, 3600, "+00")
          } else {
           if i < 170 {
            Table::row(1414285200, -3600, 0, "-01")
           } else {
            Table::row(1427590800, -3600, 3600, "+00")
           }
          }
         } else {
          if i < 173 {
           if i < 172 {
            Table::row(1445734800, -3600, 0, "-01")
           } else {
            Table::row(1459040400, -3600, 3600, "+00")
           }
          } else {
           if i < 174 {
            Table::row(1477789200, -3600, 0, "-01")
           } else {
            Table::row(1490490000, -3600, 3600, "+00")
           }
          }
         }
        }
       } else {
        if i < 182 {
         if i < 178 {
          if i < 176 {
           Table::row(1509238800, -3600, 0, "-01")
          } else {
           if i < 177 {
            Table::row(1521939600, -3600, 3600, "+00")
           } else {
            Table::row(1540688400, -3600, 0, "-01")
           }
          }
         } else {
          if i < 180 {
           if i < 179 {
            Table::row(1553994000, -3600, 3600, "+00")
           } else {
            Table::row(1572138000, -3600, 0, "-01")
           }
          } else {
           if i < 181 {
            Table::row(1585443600, -3600, 3600, "+00")
           } else {
            Table::row(1603587600, -3600, 0, "-01")
           }
          }
         }
        } else {
         if i < 185 {
          if i < 183 {
           Table::row(1616893200, -3600, 3600, "+00")
          } else {
           if i < 184 {
            Table::row(1635642000, -3600, 0, "-01")
           } else {
            Table::row(1648342800, -3600, 3600, "+00")
           }
          }
         } else {
          if i < 187 {
           if i < 186 {
            Table::row(1667091600, -3600, 0, "-01")
           } else {
            Table::row(1679792400, -3600, 3600, "+00")
           }
          } else {
           if i < 188 {
            Table::row(1698541200, -3600, 0, "-01")
           } else {
            Table::row(1711846800, -3600, 3600, "+00")
           }
          }
         }
        }
       }
      } else {
       if i < 203 {
        if i < 196 {
         if i < 192 {
          if i < 190 {
           Table::row(1729990800, -3600, 0, "-01")
          } else {
           if i < 191 {
            Table::row(1743296400, -3600, 3600, "+00")
           } else {
            Table::row(1761440400, -3600, 0, "-01")
           }
          }
         } else {
          if i < 194 {
           if i < 193 {
            Table::row(1774746000, -3600, 3600, "+00")
           } else {
            Table::row(1792890000, -3600, 0, "-01")
           }
          } else {
           if i < 195 {
            Table::row(1806195600, -3600, 3600, "+00")
           } else {
            Table::row(1824944400, -3600, 0, "-01")
           }
          }
         }
        } else {
         if i < 199 {
          if i < 197 {
           Table::row(1837645200, -3600, 3600, "+00")
          } else {
           if i < 198 {
            Table::row(1856394000, -3600, 0, "-01")
           } else {
            Table::row(1869094800, -3600, 3600, "+00")
           }
          }
         } else {
          if i < 201 {
           if i < 200 {
            Table::row(1887843600, -3600, 0, "-01")
           } else {
            Table::row(1901149200, -3600, 3600, "+00")
           }
          } else {
           if i < 202 {
            Table::row(1919293200, -3600, 0, "-01")
           } else {
            Table::row(1932598800, -3600, 3600, "+00")
           }
          }
         }
        }
       } else {
        if i < 210 {
         if i < 206 {
          if i < 204 {
           Table::row(1950742800, -3600, 0, "-01")
          } else {
           if i < 205 {
            Table::row(1964048400, -3600, 3600, "+00")
           } else {
            Table::row(1982797200, -3600, 0, "-01")
           }
          }
         } else {
          if i < 208 {
           if i < 207 {
            Table::row(1995498000, -3600, 3600, "+00")
           } else {
            Table::row(2014246800, -3600, 0, "-01")
           }
          } else {
           if i < 209 {
            Table::row(2026947600, -3600, 3600, "+00")
           } else {
            Table::row(2045696400, -3600, 0, "-01")
           }
          }
         }
        } else {
         if i < 213 {
          if i < 211 {
           Table::row(2058397200, -3600, 3600, "+00")
          } else {
           if i < 212 {
            Table::row(2077146000, -3600, 0, "-01")
           } else {
            Table::row(2090451600, -3600, 3600, "+00")
           }
          }
         } else {
          if i < 215 {
           if i < 214 {
            Table::row(2108595600, -3600, 0, "-01")
           } else {
            Table::row(2121901200, -3600, 3600, "+00")
           }
          } else {
           if i < 216 {
            Table::row(2140045200, -3600, 0, "-01")
           } else {
            Table::row(2147483647, -3600, 0, "-01")
           }
          }
         }
        }
       }
      }
     }
    }
}

/// The rows of the table of the zone `Atlantic/Azores`.
pub open spec fn azores_rows() -> spec_fn(int) -> (i64, FixedTimespan) {
    |i: int| azores_row(i)
}

/// The table of the zone `Atlantic/Azores`.
pub open spec fn azores() -> Table {
    Table::listed(Table::row(0, -6160, 0, "LMT").1, 217, azores_rows())
}

/// Row `i` of the table of the zone `Atlantic/Bermuda`.
pub open spec fn bermuda_row(i: int) -> (i64, FixedTimespan) {
    if i < 78 {
     if i < 39 {
      if i < 19 {
       if i < 9 {
        if i < 4 {
         if i < 2 {
          if i < 1 {
           Table::row(-2524506042, -15558, 0, "BMT")
          } else {
           Table::row(-1664307642, -15558, 3600, "BST")
          }
         } else {
          if i < 3 {
           Table::row(-1648932042, -15558, 0, "BMT")
          } else {
           Table::row(-1632080442, -15558, 3600, "BST")
          }
         }
        } else {
         if i < 6 {
          if i < 5 {
           Table::row(-1618692042, -15558, 0, "BMT")
          } else {
           Table::row(-1262281242, -14400, 0, "AST")
          }
         } else {
          if i < 7 {
           Table::row(-882727200, -14400, 3600, "ADT")
          } else {
           if i < 8 {
            Table::row(-858538800, -14400, 0, "AST")
           } else {
            Table::row(-845229600, -14400, 3600, "ADT")
           }
          }
         }
        }
       } else {
        if i < 14 {
         if i < 11 {
          if i < 10 {
           Table::row(-825879600, -14400, 0, "AST")
          } else {
           Table::row(-814384800, -14400, 3600, "ADT")
          }
         } else {
          if i < 12 {
           Table::row(-793825200, -14400, 0, "AST")
          } else {
           if i < 13 {
            Table::row(-782935200, -14400, 3600, "ADT")
           } else {
            Table::row(-762375600, -14400, 0, "AST")
           }
          }
         }
        } else {
         if i < 16 {
          if i < 15 {
           Table::row(-713988000, -14400, 3600, "ADT")
          } else {
           Table::row(-703710000, -14400, 0, "AST")
          }
         } else {
          if i < 17 {
           Table::row(-681933600, -14400, 3600, "ADT")
          } else {
           if i < 18 {
            Table::row(-672865200, -14400, 0, "AST")
           } else {
            Table::row(-650484000, -14400, 3600, "ADT")
           }
          }
         }
        }
       }
      } else {
       if i < 29 {
        if i < 24 {
         if i < 21 {
          if i < 20 {
           Table::row(-641415600, -14400, 0, "AST")
          } else {
           Table::row(-618429600, -14400, 3600, "ADT")
          }
         } else {
          if i < 22 {
           Table::row(-609966000, -14400, 0, "AST")
          } else {
           if i < 23 {
            Table::row(-586980000, -14400, 3600, "ADT")
           } else {
            Table::row(-578516400, -14400, 0, "AST")
           }
          }
         }
        } else {
         if i < 26 {
          if i < 25 {
           Table::row(-555530400, -14400, 3600, "ADT")
          } else {
           Table::row(-546462000, -14400, 0, "AST")
          }
         } else {
          if i < 27 {
           Table::row(-429127200, -14400, 3600, "ADT")
          } else {
           if i < 28 {
            Table::row(-415825200, -14400, 0, "AST")
           } else {
            Table::row(136360800, -14400, 3600, "ADT")
           }
          }
         }
        }
       } else {
        if i < 34 {
         if i < 31 {
          if i < 30 {
           Table::row(152082000, -14400, 0, "AST")
          } else {
           Table::row(167810400, -14400, 3600, "ADT")
          }
         } else {
          if i < 32 {
           Table::row(183531600, -14400, 0, "AST")
          } else {
           if i < 33 {
            Table::row(199260000, -14400, 3600, "ADT")
           } else {
            Table::row(215586000, -14400, 0, "AST")
           }
          }
         }
        } else {
         if i < 36 {
          if i < 35 {
           Table::row(230709600, -14400, 3600, "ADT")
          } else {
           Table::row(247035600, -14400, 0, "AST")
          }
         } else {
          if i < 37 {
           Table::row(262764000, -14400, 3600, "ADT")
          } else {
           if i < 38 {
            Table::row(278485200, -14400, 0, "AST")
           } else {
            Table::row(294213600, -14400, 3600, "ADT")
           }
          }
         }
        }
       }
      }
     } else {
      if i < 58 {
       if i < 48 {
        if i < 43 {
         if i < 41 {
          if i < 40 {
           Table::row(309934800, -14400, 0, "AST")
          } else {
           Table::row(325663200, -14400, 3600, "ADT")
          }
         } else {
          if i < 42 {
           Table::row(341384400, -14400, 0, "AST")
          } else {
           Table::row(357112800, -14400, 3600, "ADT")
          }
         }
        } else {
         if i < 45 {
          if i < 44 {
           Table::row(372834000, -14400, 0, "AST")
          } else {
           Table::row(388562400, -14400, 3600, "ADT")
          }
         } else {
          if i < 46 {
           Table::row(404888400, -14400, 0, "AST")
          } else {
           if i < 47 {
            Table::row(420012000, -14400, 3600, "ADT")
           } else {
            Table::row(436338000, -14400, 0, "AST")
           }
          }
         }
        }
       } else {
        if i < 53 {
         if i < 50 {
          if i < 49 {
           Table::row(452066400, -14400, 3600, "ADT")
          } else {
           Table::row(467787600, -14400, 0, "AST")
          }
         } else {
          if i < 51 {
           Table::row(483516000, -14400, 3600, "ADT")
          } else {
           if i < 52 {
            Table::row(499237200, -14400, 0, "AST")
           } else {
            Table::row(514965600, -14400, 3600, "ADT")
           }
          }
         }
        } else {
         if i < 55 {
          if i < 54 {
           Table::row(530686800, -14400, 0, "AST")
          } else {
           Table::row(544600800, -14400, 3600, "ADT")
          }
         } else {
          if i < 56 {
           Table::row(562136400, -14400, 0, "AST")
          } else {
           if i < 57 {
            Table::row(576050400, -14400, 3600, "ADT")
           } else {
            Table::row(594190800, -14400, 0, "AST")
           }
          }
         }
        }
       }
      } else {
       if i < 68 {
        if i < 63 {
         if i < 60 {
          if i < 59 {
           Table::row(607500000, -14400, 3600, "ADT")
          } else {
           Table::row(625640400, -14400, 0, "AST")
          }
         } else {
          if i < 61 {
           Table::row(638949600, -14400, 3600, "ADT")
          } else {
           if i < 62 {
            Table::row(657090000, -14400, 0, "AST")
           } else {
            Table::row(671004000, -14400, 3600, "ADT")
           }
          }
         }
        } else {
         if i < 65 {
          if i < 64 {
           Table::row(688539600, -14400, 0, "AST")
          } else {
           Table::row(702453600, -14400, 3600, "ADT")
          }
         } else {
          if i < 66 {
           Table::row(719989200, -14400, 0, "AST")
          } else {
           if i < 67 {
            Table::row(733903200, -14400, 3600, "ADT")
           } else {
            Table::row(752043600, -14400, 0, "AST")
           }
          }
         }
        }
       } else {
        if i < 73 {
         if i < 70 {
          if i < 69 {
           Table::row(765352800, -14400, 3600, "ADT")
          } else {
           Table::row(783493200, -14400, 0, "AST")
          }
         } else {
          if i < 71 {
           Table::row(796802400, -14400, 3600, "ADT")
          } else {
           if i < 72 {
            Table::row(814942800, -14400, 0, "AST")
           } else {
            Table::row(828856800, -14400, 3600, "ADT")
           }
          }
         }
        } else {
         if i < 75 {
          if i < 74 {
           Table::row(846392400, -14400, 0, "AST")
          } else {
           Table::row(860306400, -14400, 3600, "ADT")
          }
         } else {
          if i < 76 {
           Table::row(877842000, -14400, 0, "AST")
          } else {
           if i < 77 {
            Table::row(891756000, -14400, 3600, "ADT")
           } else {
            Table::row(909291600, -14400, 0, "AST")
           }
          }
         }
        }
       }
      }
     }
    } else {
     if i < 117 {
      if i < 97 {
       if i < 87 {
        if i < 82 {
         if i < 80 {
          if i < 79 {
           Table::row(923205600, -14400, 3600, "ADT")
          } else {
           Table::row(941346000, -14400, 0, "AST")
          }
         } else {
          if i < 81 {
           Table::row(954655200, -14400, 3600, "ADT")
          } else {
           Table::row(972795600, -14400, 0, "AST")
          }
         }
        } else {
         if i < 84 {
          if i < 83 {
           Table::row(986104800, -14400, 3600, "ADT")
          } else {
           Table::row(1004245200, -14400, 0, "AST")
          }
         } else {
          if i < 85 {
           Table::row(1018159200, -14400, 3600, "ADT")
          } else {
           if i < 86 {
            Table::row(1035694800, -14400, 0, "AST")
           } else {
            Table::row(1049608800, -14400, 3600, "ADT")
           }
          }
         }
        }
       } else {
        if i < 92 {
         if i < 89 {
          if i < 88 {
           Table::row(1067144400, -14400, 0, "AST")
          } else {
           Table::row(1081058400, -14400, 3600, "ADT")
          }
         } else {
          if i < 90 {
           Table::row(1099198800, -14400, 0, "AST")
          } else {
           if i < 91 {
            Table::row(1112508000, -14400, 3600, "ADT")
           } else {
            Table::row(1130648400, -14400, 0, "AST")
           }
          }
         }
        } else {
         if i < 94 {
          if i < 93 {
           Table::row(1143957600, -14400, 3600, "ADT")
          } else {
           Table::row(1162098000, -14400, 0, "AST")
          }
         } else {
          if i < 95 {
           Table::row(1173592800, -14400, 3600, "ADT")
          } else {
           if i < 96 {
            Table::row(1194152400, -14400, 0, "AST")
           } else {
            Table::row(1205042400, -14400, 3600, "ADT")
           }
          }
         }
        }
       }
      } else {
       if i < 107 {
        if i < 102 {
         if i < 99 {
          if i < 98 {
           Table::row(1225602000, -14400, 0, "AST")
          } else {
           Table::row(1236492000, -14400, 3600, "ADT")
          }
         } else {
          if i < 100 {
           Table::row(1257051600, -14400, 0, "AST")
          } else {
           if i < 101 {
            Table::row(1268546400, -14400, 3600, "ADT")
           } else {
            Table::row(1289106000, -14400, 0, "AST")
           }
          }
         }
        } else {
         if i < 104 {
          if i < 103 {
           Table::row(1299996000, -14400, 3600, "ADT")
          } else {
           Table::row(1320555600, -14400, 0, "AST")
          }
         } else {
          if i < 105 {
           Table::row(1331445600, -14400, 3600, "ADT")
          } else {
           if i < 106 {
            Table::row(1352005200, -14400, 0, "AST")
           } else {
            Table::row(1362895200, -14400, 3600, "ADT")
           }
          }
         }
        }
       } else {
        if i < 112 {
         if i < 109 {
          if i < 108 {
           Table::row(1383454800, -14400, 0, "AST")
          } else {
           Table::row(1394344800, -14400, 3600, "ADT")
          }
         } else {
          if i < 110 {
           Table::row(1414904400, -14400, 0, "AST")
          } else {
           if i < 111 {
            Table::row(1425794400, -14400, 3600, "ADT")
           } else {
            Table::row(1446354000, -14400, 0, "AST")
           }
          }
         }
        } else {
         if i < 114 {
          if i < 113 {
           Table::row(1457848800, -14400, 3600, "ADT")
          } else {
           Table::row(1478408400, -14400, 0, "AST")
          }
         } else {
          if i < 115 {
           Table::row(1489298400, -14400, 3600, "ADT")
          } else {
           if i < 116 {
            Table::row(1509858000, -14400, 0, "AST")
           } else {
            Table::row(1520748000, -14400, 3600, "ADT")
           }
          }
         }
        }
       }
      }
     } else {
      if i < 136 {
       if i < 126 {
        if i < 121 {
         if i < 119 {
          if i < 118 {
           Table::row(1541307600, -14400, 0, "AST")
          } else {
           Table::row(1552197600, -14400, 3600, "ADT")
          }
         } else {
          if i < 120 {
           Table::row(1572757200, -14400, 0, "AST")
          } else {
           Table::row(1583647200, -14400, 3600, "ADT")
          }
         }
        } else {
         if i < 123 {
          if i < 122 {
           Table::row(1604206800, -14400, 0, "AST")
          } else {
           Table::row(1615701600, -14400, 3600, "ADT")
          }
         } else {
          if i < 124 {
           Table::row(1636261200, -14400, 0, "AST")
          } else {
           if i < 125 {
            Table::row(1647151200, -14400, 3600, "ADT")
           } else {
            Table::row(1667710800, -14400, 0, "AST")
           }
          }
         }
        }
       } else {
        if i < 131 {
         if i < 128 {
          if i < 127 {
           Table::row(1678600800, -14400, 3600, "ADT")
          } else {
           Table::row(1699160400, -14400, 0, "AST")
          }
         } else {
          if i < 129 {
           Table::row(1710050400, -14400, 3600, "ADT")
          } else {
           if i < 130 {
            Table::row(1730610000, -14400, 0, "AST")
           } else {
            Table::row(1741500000, -14400, 3600, "ADT")
           }
          }
         }
        } else {
         if i < 133 {
          if i < 132 {
           Table::row(1762059600, -14400, 0, "AST")
          } else {
           Table::row(1772949600, -14400, 3600, "ADT")
          }
         } else {
          if i < 134 {
           Table::row(1793509200, -14400, 0, "AST")
          } else {
           if i < 135 {
            Table::row(1805004000, -14400, 3600, "ADT")
           } else {
            Table::row(1825563600, -14400, 0, "AST")
           }
          }
         }
        }
       }
      } else {
       if i < 146 {
        if i < 141 {
         if i < 138 {
          if i < 137 {
           Table::row(1836453600, -14400, 3600, "ADT")
          } else {
           Table::row(1857013200, -14400, 0, "AST")
          }
         } else {
          if i < 139 {
           Table::row(1867903200, -14400, 3600, "ADT")
          } else {
           if i < 140 {
            Table::row(1888462800, -14400, 0, "AST")
           } else {
            Table::row(1899352800, -14400, 3600, "ADT")
           }
          }
         }
        } else {
         if i < 143 {
          if i < 142 {
           Table::row(1919912400, -14400, 0, "AST")
          } else {
           Table::row(1930802400, -14400, 3600, "ADT")
          }
         } else {
          if i < 144 {
           Table::row(1951362000, -14400, 0, "AST")
          } else {
           if i < 145 {
            Table::row(1962856800, -14400, 3600, "ADT")
           } else {
            Table::row(1983416400, -14400, 0, "AST")
           }
          }
         }
        }
       } else {
        if i < 151 {
         if i < 148 {
          if i < 147 {
           Table::row(1994306400, -14400, 3600, "ADT")
          } else {
           Table::row(2014866000, -14400, 0, "AST")
          }
         } else {
          if i < 149 {
           Table::row(2025756000, -14400, 3600, "ADT")
          } else {
           if i < 150 {
            Table::row(2046315600, -14400, 0, "AST")
           } else {
            Table::row(2057205600, -14400, 3600, "ADT")
           }
          }
         }
        } else {
         if i < 153 {
          if i < 152 {
           Table::row(2077765200, -14400, 0, "AST")
          } else {
           Table::row(2088655200, -14400, 3600, "ADT")
          }
         } else {
          if i < 154 {
           Table::row(2109214800, -14400, 0, "AST")
          } else {
           if i < 155 {
            Table::row(2120104800, -14400, 3600, "ADT")
           } else {
            Table::row(2140664400, -14400, 0, "AST")
           }
          }
         }
        }
       }
      }
     }
    }
}

/// The rows of the table of the zone `Atlantic/Bermuda`.
pub open spec fn bermuda_rows() -> spec_fn(int) -> (i64, FixedTimespan) {
    |i: int| bermuda_row(i)
}

/// The table of the zone `Atlantic/Bermuda`.
pub open spec fn bermuda() -> Table {
    Table::listed(Table::row(0, -15558, 0, "LMT").1, 156, bermuda_rows())
}

/// Row `i` of the table of the zone `Atlantic/Canary`.
pub open spec fn canary_row(i: int) -> (i64, FixedTimespan) {
    if i < 59 {
     if i < 29 {
      if i < 14 {
       if i < 7 {
        if i < 3 {
         if i < 1 {
          Table::row(-1509663504, -3600, 0, "-01")
         } else {
          if i < 2 {
           Table::row(-733874400, 0, 0, "WET")
          } else {
           Table::row(323827200, 0, 3600, "WEST")
          }
         }
        } else {
         if i < 5 {
          if i < 4 {
           Table::row(338950800, 0, 0, "WET")
          } else {
           Table::row(354675600, 0, 3600, "WEST")
          }
         } else {
          if i < 6 {
           Table::row(370400400, 0, 0, "WET")
          } else {
           Table::row(386125200, 0, 3600, "WEST")
          }
         }
        }
       } else {
        if i < 10 {
         if i < 8 {
          Table::row(401850000, 0, 0, "WET")
         } else {
          if i < 9 {
           Table::row(417574800, 0, 3600, "WEST")
          } else {
           Table::row(433299600, 0, 0, "WET")
          }
         }
        } else {
         if i < 12 {
          if i < 11 {
           Table::row(449024400, 0, 3600, "WEST")
          } else {
           Table::row(465354000, 0, 0, "WET")
          }
         } else {
          if i < 13 {
           Table::row(481078800, 0, 3600, "WEST")
          } else {
           Table::row(496803600, 0, 0, "WET")
          }
         }
        }
       }
      } else {
       if i < 21 {
        if i < 17 {
         if i < 15 {
          Table::row(512528400, 0, 3600, "WEST")
         } else {
          if i < 16 {
           Table::row(528253200, 0, 0, "WET")
          } else {
           Table::row(543978000, 0, 3600, "WEST")
          }
         }
        } else {
         if i < 19 {
          if i < 18 {
           Table::row(559702800, 0, 0, "WET")
          } else {
           Table::row(575427600, 0, 3600, "WEST")
          }
         } else {
          if i < 20 {
           Table::row(591152400, 0, 0, "WET")
          } else {
           Table::row(606877200, 0, 3600, "WEST")
          }
         }
        }
       } else {
        if i < 25 {
         if i < 23 {
          if i < 22 {
           Table::row(622602000, 0, 0, "WET")
          } else {
           Table::row(638326800, 0, 3600, "WEST")
          }
         } else {
          if i < 24 {
           Table::row(654656400, 0, 0, "WET")
          } else {
           Table::row(670381200, 0, 3600, "WEST")
          }
         }
        } else {
         if i < 27 {
          if i < 26 {
           Table::row(686106000, 0, 0, "WET")
          } else {
           Table::row(701830800, 0, 3600, "WEST")
          }
         } else {
          if i < 28 {
           Table::row(717555600, 0, 0, "WET")
          } else {
           Table::row(733280400, 0, 3600, "WEST")
          }
         }
        }
       }
      }
     } else {
      if i < 44 {
       if i < 36 {
        if i < 32 {
         if i < 30 {
          Table::row(749005200, 0, 0, "WET")
         } else {
          if i < 31 {
           Table::row(764730000, 0, 3600, "WEST")
          } else {
           Table::row(780454800, 0, 0, "WET")
          }
         }
        } else {
         if i < 34 {
          if i < 33 {
           Table::row(796179600, 0, 3600, "WEST")
          } else {
           Table::row(811904400, 0, 0, "WET")
          }
         } else {
          if i < 35 {
           Table::row(828234000, 0, 3600, "WEST")
          } else {
           Table::row(846378000, 0, 0, "WET")
          }
         }
        }
       } else {
        if i < 40 {
         if i < 38 {
          if i < 37 {
           Table::row(859683600, 0, 3600, "WEST")
          } else {
           Table::row(877827600, 0, 0, "WET")
          }
         } else {
          if i < 39 {
           Table::row(891133200, 0, 3600, "WEST")
          } else {
           Table::row(909277200, 0, 0, "WET")
          }
         }
        } else {
         if i < 42 {
          if i < 41 {
           Table::row(922582800, 0, 3600, "WEST")
          } else {
           Table::row(941331600, 0, 0, "WET")
          }
         } else {
          if i < 43 {
           Table::row(954032400, 0, 3600, "WEST")
          } else {
           Table::row(972781200, 0, 0, "WET")
          }
         }
        }
       }
      } else {
       if i < 51 {
        if i < 47 {
         if i < 45 {
          Table::row(985482000, 0, 3600, "WEST")
         } else {
          if i < 46 {
           Table::row(1004230800, 0, 0, "WET")
          } else {
           Table::row(1017536400, 0, 3600, "WEST")
          }
         }
        } else {
         if i < 49 {
          if i < 48 {
           Table::row(1035680400, 0, 0, "WET")
          } else {
           Table::row(1048986000, 0, 3600, "WEST")
          }
         } else {
          if i < 50 {
           Table::row(1067130000, 0, 0, "WET")
          } else {
           Table::row(1080435600, 0, 3600, "WEST")
          }
         }
        }
       } else {
        if i < 55 {
         if i < 53 {
          if i < 52 {
           Table::row(1099184400, 0, 0, "WET")
          } else {
           Table::row(1111885200, 0, 3600, "WEST")
          }
         } else {
          if i < 54 {
           Table::row(1130634000, 0, 0, "WET")
          } else {
           Table::row(1143334800, 0, 3600, "WEST")
          }
         }
        } else {
         if i < 57 {
          if i < 56 {
           Table::row(1162083600, 0, 0, "WET")
          } else {
           Table::row(1174784400, 0, 3600, "WEST")
          }
         } else {
          if i < 58 {
           Table::row(1193533200, 0, 0, "WET")
          } else {
           Table::row(1206838800, 0, 3600, "WEST")
          }
         }
        }
       }
      }
     }
    } else {
     if i < 88 {
      if i < 73 {
       if i < 66 {
        if i < 62 {
         if i < 60 {
          Table::row(1224982800, 0, 0, "WET")
         } else {
          if i < 61 {
           Table::row(1238288400, 0, 3600, "WEST")
          } else {
           Table::row(1256432400, 0, 0, "WET")
          }
         }
        } else {
         if i < 64 {
          if i < 63 {
           Table::row(1269738000, 0, 3600, "WEST")
          } else {
           Table::row(1288486800, 0, 0, "WET")
          }
         } else {
          if i < 65 {
           Table::row(1301187600, 0, 3600, "WEST")
          } else {
           Table::row(1319936400, 0, 0, "WET")
          }
         }
        }
       } else {
        if i < 69 {
         if i < 67 {
          Table::row(1332637200, 0, 3600, "WEST")
         } else {
          if i < 68 {
           Table::row(1351386000, 0, 0, "WET")
          } else {
           Table::row(1364691600, 0, 3600, "WEST")
          }
         }
        } else {
         if i < 71 {
          if i < 70 {
           Table::row(1382835600, 0, 0, "WET")
          } else {
           Table::row(1396141200, 0, 3600, "WEST")
          }
         } else {
          if i < 72 {
           Table::row(1414285200, 0, 0, "WET")
          } else {
           Table::row(1427590800, 0, 3600, "WEST")
          }
         }
        }
       }
      } else {
       if i < 80 {
        if i < 76 {
         if i < 74 {
          Table::row(1445734800, 0, 0, "WET")
         } else {
          if i < 75 {
           Table::row(1459040400, 0, 3600, "WEST")
          } else {
           Table::row(1477789200, 0, 0, "WET")
          }
         }
        } else {
         if i < 78 {
          if i < 77 {
           Table::row(1490490000, 0, 3600, "WEST")
          } else {
           Table::row(1509238800, 0, 0, "WET")
          }
         } else {
          if i < 79 {
           Table::row(1521939600, 0, 3600, "WEST")
          } else {
           Table::row(1540688400, 0, 0, "WET")
          }
         }
        }
       } else {
        if i < 84 {
         if i < 82 {
          if i < 81 {
           Table::row(1553994000, 0, 3600, "WEST")
          } else {
           Table::row(1572138000, 0, 0, "WET")
          }
         } else {
          if i < 83 {
           Table::row(1585443600, 0, 3600, "WEST")
          } else {
           Table::row(1603587600, 0, 0, "WET")
          }
         }
        } else {
         if i < 86 {
          if i < 85 {
           Table::row(1616893200, 0, 3600, "WEST")
          } else {
           Table::row(1635642000, 0, 0, "WET")
          }
         } else {
          if i < 87 {
           Table::row(1648342800, 0, 3600, "WEST")
          } else {
           Table::row(1667091600, 0, 0, "WET")
          }
         }
        }
       }
      }
     } else {
      if i < 103 {
       if i < 95 {
        if i < 91 {
         if i < 89 {
          Table::row(1679792400, 0, 3600, "WEST")
         } else {
          if i < 90 {
           Table::row(1698541200, 0, 0, "WET")
          } else {
           Table::row(1711846800, 0, 3600, "WEST")
          }
         }
        } else {
         if i < 93 {
          if i < 92 {
           Table::row(1729990800, 0, 0, "WET")
          } else {
           Table::row(1743296400, 0, 3600, "WEST")
          }
         } else {
          if i < 94 {
           Table::row(1761440400, 0, 0, "WET")
          } else {
           Table::row(1774746000, 0, 3600, "WEST")
          }
         }
        }
       } else {
        if i < 99 {
         if i < 97 {
          if i < 96 {
           Table::row(1792890000, 0, 0, "WET")
          } else {
           Table::row(1806195600, 0, 3600, "WEST")
          }
         } else {
          if i < 98 {
           Table::row(1824944400, 0, 0, "WET")
          } else {
           Table::row(1837645200, 0, 3600, "WEST")
          }
         }
        } else {
         if i < 101 {
          if i < 100 {
           Table::row(1856394000, 0, 0, "WET")
          } else {
           Table::row(1869094800, 0, 3600, "WEST")
          }
         } else {
          if i < 102 {
           Table::row(1887843600, 0, 0, "WET")
          } else {
           Table::row(1901149200, 0, 3600, "WEST")
          }
         }
        }
       }
      } else {
       if i < 110 {
        if i < 106 {
         if i < 104 {
          Table::row(1919293200, 0, 0, "WET")
         } else {
          if i < 105 {
           Table::row(1932598800, 0, 3600, "WEST")
          } else {
           Table::row(1950742800, 0, 0, "WET")
          }
         }
        } else {
         if i < 108 {
          if i < 107 {
           Table::row(1964048400, 0, 3600, "WEST")
          } else {
           Table::row(1982797200, 0, 0, "WET")
          }
         } else {
          if i < 109 {
           Table::row(1995498000, 0, 3600, "WEST")
          } else {
           Table::row(2014246800, 0, 0, "WET")
          }
         }
        }
       } else {
        if i < 114 {
         if i < 112 {
          if i < 111 {
           Table::row(2026947600, 0, 3600, "WEST")
          } else {
           Table::row(2045696400, 0, 0, "WET")
          }
         } else {
          if i < 113 {
           Table::row(2058397200, 0, 3600, "WEST")
          } else {
           Table::row(2077146000, 0, 0, "WET")
          }
         }
        } else {
         if i < 116 {
          if i < 115 {
           Table::row(2090451600, 0, 3600, "WEST")
          } else {
           Table::row(2108595600, 0, 0, "WET")
          }
         } else {
          if i < 117 {
           Table::row(2121901200, 0, 3600, "WEST")
          } else {
           Table::row(2140045200, 0, 0, "WET")
          }
         }
        }
       }
      }
     }
    }
}

/// The rows of the table of the zone `Atlantic/Canary`.
pub open spec fn canary_rows() -> spec_fn(int) -> (i64, FixedTimespan) {
    |i: int| canary_row(i)
}

/// The table of the zone `Atlantic/Canary`.
pub open spec fn canary() -> Table {
    Table::listed(Table::row(0, -3696, 0, "LMT").1, 118, canary_rows())
}

/// Row `i` of the table of the zone `Atlantic/Cape_Verde`.
pub open spec fn cape_verde_row(i: int) -> (i64, FixedTimespan) {
    if i < 2 {
     if i < 1 {
      Table::row(-1830376800, -7200, 0, "-02")
     } else {
      Table::row(-862610400, -7200, 3600, "-01")
     }
    } else {
     if i < 3 {
      Table::row(-764118000, -7200, 0, "-02")
     } else {
      if i < 4 {
       Table::row(186120000, -3600, 0, "-01")
      } else {
       Table::row(2147483647, -3600, 0, "-01")
      }
     }
    }
}

/// The rows of the table of the zone `Atlantic/Cape_Verde`.
pub open spec fn cape_verde_rows() -> spec_fn(int) -> (i64, FixedTimespan) {
    |i: int| cape_verde_row(i)
}

/// The table of the zone `Atlantic/Cape_Verde`.
pub open spec fn cape_verde() -> Table {
    Table::listed(Table::row(0, -5644, 0, "LMT").1, 5, cape_verde_rows())
}

/// Row `i` of the table of the zone `Atlantic/Faeroe`.
pub open spec fn faeroe_row(i: int) -> (i64, FixedTimespan) {
    if i < 57 {
     if i < 28 {
      if i < 14 {
       if i < 7 {
        if i < 3 {
         if i < 1 {
          Table::row(-1955748776, 0, 0, "WET")
         } else {
          if i < 2 {
           Table::row(354675600, 0, 3600, "WEST")
          } else {
           Table::row(370400400, 0, 0, "WET")
          }
         }
        } else {
         if i < 5 {
          if i < 4 {
           Table::row(386125200, 0, 3600, "WEST")
          } else {
           Table::row(401850000, 0, 0, "WET")
          }
         } else {
          if i < 6 {
           Table::row(417574800, 0, 3600, "WEST")
          } else {
           Table::row(433299600, 0, 0, "WET")
          }
         }
        }
       } else {
        if i < 10 {
         if i < 8 {
          Table::row(449024400, 0, 3600, "WEST")
         } else {
          if i < 9 {
           Table::row(465354000, 0, 0, "WET")
          } else {
           Table::row(481078800, 0, 3600, "WEST")
          }
         }
        } else {
         if i < 12 {
          if i < 11 {
           Table::row(496803600, 0, 0, "WET")
          } else {
           Table::row(512528400, 0, 3600, "WEST")
          }
         } else {
          if i < 13 {
           Table::row(528253200, 0, 0, "WET")
          } else {
           Table::row(543978000, 0, 3600, "WEST")
          }
         }
        }
       }
      } else {
       if i < 21 {
        if i < 17 {
         if i < 15 {
          Table::row(559702800, 0, 0, "WET")
         } else {
          if i < 16 {
           Table::row(575427600, 0, 3600, "WEST")
          } else {
           Table::row(591152400, 0, 0, "WET")
          }
         }
        } else {
         if i < 19 {
          if i < 18 {
           Table::row(606877200, 0, 3600, "WEST")
          } else {
           Table::row(622602000, 0, 0, "WET")
          }
         } else {
          if i < 20 {
           Table::row(638326800, 0, 3600, "WEST")
          } else {
           Table::row(654656400, 0, 0, "WET")
          }
         }
        }
       } else {
        if i < 24 {
         if i < 22 {
          Table::row(670381200, 0, 3600, "WEST")
         } else {
          if i < 23 {
           Table::row(686106000, 0, 0, "WET")
          } else {
           Table::row(701830800, 0, 3600, "WEST")
          }
         }
        } else {
         if i < 26 {
          if i < 25 {
           Table::row(717555600, 0, 0, "WET")
          } else {
           Table::row(733280400, 0, 3600, "WEST")
          }
         } else {
          if i < 27 {
           Table::row(749005200, 0, 0, "WET")
          } else {
           Table::row(764730000, 0, 3600, "WEST")
          }
         }
        }
       }
      }
     } else {
      if i < 42 {
       if i < 35 {
        if i < 31 {
         if i < 29 {
          Table::row(780454800, 0, 0, "WET")
         } else {
          if i < 30 {
           Table::row(796179600, 0, 3600, "WEST")
          } else {
           Table::row(811904400, 0, 0, "WET")
          }
         }
        } else {
         if i < 33 {
          if i < 32 {
           Table::row(828234000, 0, 3600, "WEST")
          } else {
           Table::row(846378000, 0, 0, "WET")
          }
         } else {
          if i < 34 {
           Table::row(859683600, 0, 3600, "WEST")
          } else {
           Table::row(877827600, 0, 0, "WET")
          }
         }
        }
       } else {
        if i < 38 {
         if i < 36 {
          Table::row(891133200, 0, 3600, "WEST")
         } else {
          if i < 37 {
           Table::row(909277200, 0, 0, "WET")
          } else {
           Table::row(922582800, 0, 3600, "WEST")
          }
         }
        } else {
         if i < 40 {
          if i < 39 {
           Table::row(941331600, 0, 0, "WET")
          } else {
           Table::row(954032400, 0, 3600, "WEST")
          }
         } else {
          if i < 41 {
           Table::row(972781200, 0, 0, "WET")
          } else {
           Table::row(985482000, 0, 3600, "WEST")
          }
         }
        }
       }
      } else {
       if i < 49 {
        if i < 45 {
         if i < 43 {
          Table::row(1004230800, 0, 0, "WET")
         } else {
          if i < 44 {
           Table::row(1017536400, 0, 3600, "WEST")
          } else {
           Table::row(1035680400, 0, 0, "WET")
          }
         }
        } else {
         if i < 47 {
          if i < 46 {
           Table::row(1048986000, 0, 3600, "WEST")
          } else {
           Table::row(1067130000, 0, 0, "WET")
          }
         } else {
          if i < 48 {
           Table::row(1080435600, 0, 3600, "WEST")
          } else {
           Table::row(1099184400, 0, 0, "WET")
          }
         }
        }
       } else {
        if i < 53 {
         if i < 51 {
          if i < 50 {
           Table::row(1111885200, 0, 3600, "WEST")
          } else {
           Table::row(1130634000, 0, 0, "WET")
          }
         } else {
          if i < 52 {
           Table::row(1143334800, 0, 3600, "WEST")
          } else {
           Table::row(1162083600, 0, 0, "WET")
          }
         }
        } else {
         if i < 55 {
          if i < 54 {
           Table::row(1174784400, 0, 3600, "WEST")
          } else {
           Table::row(1193533200, 0, 0, "WET")
          }
         } else {
          if i < 56 {
           Table::row(1206838800, 0, 3600, "WEST")
          } else {
           Table::row(1224982800, 0, 0, "WET")
          }
         }
        }
       }
      }
     }
    } else {
     if i < 86 {
      if i < 71 {
       if i < 64 {
        if i < 60 {
         if i < 58 {
          Table::row(1238288400, 0, 3600, "WEST")
         } else {
          if i < 59 {
           Table::row(1256432400, 0, 0, "WET")
          } else {
           Table::row(1269738000, 0, 3600, "WEST")
          }
         }
        } else {
         if i < 62 {
          if i < 61 {
           Table::row(1288486800, 0, 0, "WET")
          } else {
           Table::row(1301187600, 0, 3600, "WEST")
          }
         } else {
          if i < 63 {
           Table::row(1319936400, 0, 0, "WET")
          } else {
           Table::row(1332637200, 0, 3600, "WEST")
          }
         }
        }
       } else {
        if i < 67 {
         if i < 65 {
          Table::row(1351386000, 0, 0, "WET")
         } else {
          if i < 66 {
           Table::row(1364691600, 0, 3600, "WEST")
          } else {
           Table::row(1382835600, 0, 0, "WET")
          }
         }
        } else {
         if i < 69 {
          if i < 68 {
           Table::row(1396141200, 0, 3600, "WEST")
          } else {
           Table::row(1414285200, 0, 0, "WET")
          }
         } else {
          if i < 70 {
           Table::row(1427590800, 0, 3600, "WEST")
          } else {
           Table::row(1445734800, 0, 0, "WET")
          }
         }
        }
       }
      } else {
       if i < 78 {
        if i < 74 {
         if i < 72 {
          Table::row(1459040400, 0, 3600, "WEST")
         } else {
          if i < 73 {
           Table::row(1477789200, 0, 0, "WET")
          } else {
           Table::row(1490490000, 0, 3600, "WEST")
          }
         }
        } else {
         if i < 76 {
          if i < 75 {
           Table::row(1509238800, 0, 0, "WET")
          } else {
           Table::row(1521939600, 0, 3600, "WEST")
          }
         } else {
          if i < 77 {
           Table::row(1540688400, 0, 0, "WET")
          } else {
           Table::row(1553994000, 0, 3600, "WEST")
          }
         }
        }
       } else {
        if i < 82 {
         if i < 80 {
          if i < 79 {
           Table::row(1572138000, 0, 0, "WET")
          } else {
           Table::row(1585443600, 0, 3600, "WEST")
          }
         } else {
          if i < 81 {
           Table::row(1603587600, 0, 0, "WET")
          } else {
           Table::row(1616893200, 0, 3600, "WEST")
          }
         }
        } else {
         if i < 84 {
          if i < 83 {
           Table::row(1635642000, 0, 0, "WET")
          } else {
           Table::row(1648342800, 0, 3600, "WEST")
          }
         } else {
          if i < 85 {
           Table::row(1667091600, 0, 0, "WET")
          } else {
           Table::row(1679792400, 0, 3600, "WEST")
          }
         }
        }
       }
      }
     } else {
      if i < 100 {
       if i < 93 {
        if i < 89 {
         if i < 87 {
          Table::row(1698541200, 0, 0, "WET")
         } else {
          if i < 88 {
           Table::row(1711846800, 0, 3600, "WEST")
          } else {
           Table::row(1729990800, 0, 0, "WET")
          }
         }
        } else {
         if i < 91 {
          if i < 90 {
           Table::row(1743296400, 0, 3600, "WEST")
          } else {
           Table::row(1761440400, 0, 0, "WET")
          }
         } else {
          if i < 92 {
           Table::row(1774746000, 0, 3600, "WEST")
          } else {
           Table::row(1792890000, 0, 0, "WET")
          }
         }
        }
       } else {
        if i < 96 {
         if i < 94 {
          Table::row(1806195600, 0, 3600, "WEST")
         } else {
          if i < 95 {
           Table::row(1824944400, 0, 0, "WET")
          } else {
           Table::row(1837645200, 0, 3600, "WEST")
          }
         }
        } else {
         if i < 98 {
          if i < 97 {
           Table::row(1856394000, 0, 0, "WET")
          } else {
           Table::row(1869094800, 0, 3600, "WEST")
          }
         } else {
          if i < 99 {
           Table::row(1887843600, 0, 0, "WET")
          } else {
           Table::row(1901149200, 0, 3600, "WEST")
          }
         }
        }
       }
      } else {
       if i < 107 {
        if i < 103 {
         if i < 101 {
          Table::row(1919293200, 0, 0, "WET")
         } else {
          if i < 102 {
           Table::row(1932598800, 0, 3600, "WEST")
          } else {
           Table::row(1950742800, 0, 0, "WET")
          }
         }
        } else {
         if i < 105 {
          if i < 104 {
           Table::row(1964048400, 0, 3600, "WEST")
          } else {
           Table::row(1982797200, 0, 0, "WET")
          }
         } else {
          if i < 106 {
           Table::row(1995498000, 0, 3600, "WEST")
          } else {
           Table::row(2014246800, 0, 0, "WET")
          }
         }
        }
       } else {
        if i < 111 {
         if i < 109 {
          if i < 108 {
           Table::row(2026947600, 0, 3600, "WEST")
          } else {
           Table::row(2045696400, 0, 0, "WET")
          }
         } else {
          if i < 110 {
           Table::row(2058397200, 0, 3600, "WEST")
          } else {
           Table::row(2077146000, 0, 0, "WET")
          }
         }
        } else {
         if i < 113 {
          if i < 112 {
           Table::row(2090451600, 0, 3600, "WEST")
          } else {
           Table::row(2108595600, 0, 0, "WET")
          }
         } else {
          if i < 114 {
           Table::row(2121901200, 0, 3600, "WEST")
          } else {
           Table::row(2140045200, 0, 0, "WET")
          }
         }
        }
       }
      }
     }
    }
}

/// The rows of the table of the zone `Atlantic/Faeroe`.
pub open spec fn faeroe_rows() -> spec_fn(int) -> (i64, FixedTimespan) {
    |i: int| faeroe_row(i)
}

/// The table of the zone `Atlantic/Faeroe`.
pub open spec fn faeroe() -> Table {
    Table::listed(Table::row(0, -1624, 0, "LMT").1, 115, faeroe_rows())
}

/// Row `i` of the table of the zone `Atlantic/Faroe`.
pub open spec fn faroe_row(i: int) -> (i64, FixedTimespan) {
    if i < 57 {
     if i < 28 {
      if i < 14 {
       if i < 7 {
        if i < 3 {
         if i < 1 {
          Table::row(-1955748776, 0, 0, "WET")
         } else {
          if i < 2 {
           Table::row(354675600, 0, 3600, "WEST")
          } else {
           Table::row(370400400, 0, 0, "WET")
          }
         }
        } else {
         if i < 5 {
          if i < 4 {
           Table::row(386125200, 0, 3600, "WEST")
          } else {
           Table::row(401850000, 0, 0, "WET")
          }
         } else {
          if i < 6 {
           Table::row(417574800, 0, 3600, "WEST")
          } else {
           Table::row(433299600, 0, 0, "WET")
          }
         }
        }
       } else {
        if i < 10 {
         if i < 8 {
          Table::row(449024400, 0, 3600, "WEST")
         } else {
          if i < 9 {
           Table::row(465354000, 0, 0, "WET")
          } else {
           Table::row(481078800, 0, 3600, "WEST")
          }
         }
        } else {
         if i < 12 {
          if i < 11 {
           Table::row(496803600, 0, 0, "WET")
          } else {
           Table::row(512528400, 0, 3600, "WEST")
          }
         } else {
          if i < 13 {
           Table::row(528253200, 0, 0, "WET")
          } else {
           Table::row(543978000, 0, 3600, "WEST")
          }
         }
        }
       }
      } else {
       if i < 21 {
        if i < 17 {
         if i < 15 {
          Table::row(559702800, 0, 0, "WET")
         } else {
          if i < 16 {
           Table::row(575427600, 0, 3600, "WEST")
          } else {
           Table::row(591152400, 0, 0, "WET")
          }
         }
        } else {
         if i < 19 {
          if i < 18 {
           Table::row(606877200, 0, 3600, "WEST")
          } else {
           Table::row(622602000, 0, 0, "WET")
          }
         } else {
          if i < 20 {
           Table::row(638326800, 0, 3600, "WEST")
          } else {
           Table::row(654656400, 0, 0, "WET")
          }
         }
        }
       } else {
        if i < 24 {
         if i < 22 {
          Table::row(670381200, 0, 3600, "WEST")
         } else {
          if i < 23 {
           Table::row(686106000, 0, 0, "WET")
          } else {
           Table::row(701830800, 0, 3600, "WEST")
          }
         }
        } else {
         if i < 26 {
          if i < 25 {
           Table::row(717555600, 0, 0, "WET")
          } else {
           Table::row(733280400, 0, 3600, "WEST")
          }
         } else {
          if i < 27 {
           Table::row(749005200, 0, 0, "WET")
          } else {
           Table::row(764730000, 0, 3600, "WEST")
          }
         }
        }
       }
      }
     } else {
      if i < 42 {
       if i < 35 {
        if i < 31 {
         if i < 29 {
          Table::row(780454800, 0, 0, "WET")
         } else {
          if i < 30 {
           Table::row(796179600, 0, 3600, "WEST")
          } else {
           Table::row(811904400, 0, 0, "WET")
          }
         }
        } else {
         if i < 33 {
          if i < 32 {
           Table::row(828234000, 0, 3600, "WEST")
          } else {
           Table::row(846378000, 0, 0, "WET")
          }
         } else {
          if i < 34 {
           Table::row(859683600, 0, 3600, "WEST")
          } else {
           Table::row(877827600, 0, 0, "WET")
          }
         }
        }
       } else {
        if i < 38 {
         if i < 36 {
          Table::row(891133200, 0, 3600, "WEST")
         } else {
          if i < 37 {
           Table::row(909277200, 0, 0, "WET")
          } else {
           Table::row(922582800, 0, 3600, "WEST")
          }
         }
        } else {
         if i < 40 {
          if i < 39 {
           Table::row(941331600, 0, 0, "WET")
          } else {
           Table::row(954032400, 0, 3600, "WEST")
          }
         } else {
          if i < 41 {
           Table::row(972781200, 0, 0, "WET")
          } else {
           Table::row(985482000, 0, 3600, "WEST")
          }
         }
        }
       }
      } else {
       if i < 49 {
        if i < 45 {
         if i < 43 {
          Table::row(1004230800, 0, 0, "WET")
         } else {
          if i < 44 {
           Table::row(1017536400, 0, 3600, "WEST")
          } else {
           Table::row(1035680400, 0, 0, "WET")
          }
         }
        } else {
         if i < 47 {
          if i < 46 {
           Table::row(1048986000, 0, 3600, "WEST")
          } else {
           Table::row(1067130000, 0, 0, "WET")
          }
         } else {
          if i < 48 {
           Table::row(1080435600, 0, 3600, "WEST")
          } else {
           Table::row(1099184400, 0, 0, "WET")
          }
         }
        }
       } else {
        if i < 53 {
         if i < 51 {
          if i < 50 {
           Table::row(1111885200, 0, 3600, "WEST")
          } else {
           Table::row(1130634000, 0, 0, "WET")
          }
         } else {
          if i < 52 {
           Table::row(1143334800, 0, 3600, "WEST")
          } else {
           Table::row(1162083600, 0, 0, "WET")
          }
         }
        } else {
         if i < 55 {
          if i < 54 {
           Table::row(1174784400, 0, 3600, "WEST")
          } else {
           Table::row(1193533200, 0, 0, "WET")
          }
         } else {
          if i < 56 {
           Table::row(1206838800, 0, 3600, "WEST")
          } else {
           Table::row(1224982800, 0, 0, "WET")
          }
         }
        }
       }
      }
     }
    } else {
     if i < 86 {
      if i < 71 {
       if i < 64 {
        if i < 60 {
         if i < 58 {
          Table::row(1238288400, 0, 3600, "WEST")
         } else {
          if i < 59 {
           Table::row(1256432400, 0, 0, "WET")
          } else {
           Table::row(1269738000, 0, 3600, "WEST")
          }
         }
        } else {
         if i < 62 {
          if i < 61 {
           Table::row(1288486800, 0, 0, "WET")
          } else {
           Table::row(1301187600, 0, 3600, "WEST")
          }
         } else {
          if i < 63 {
           Table::row(1319936400, 0, 0, "WET")
          } else {
           Table::row(1332637200, 0, 3600, "WEST")
          }
         }
        }
       } else {
        if i < 67 {
         if i < 65 {
          Table::row(1351386000, 0, 0, "WET")
         } else {
          if i < 66 {
           Table::row(1364691600, 0, 3600, "WEST")
          } else {
           Table::row(1382835600, 0, 0, "WET")
          }
         }
        } else {
         if i < 69 {
          if i < 68 {
           Table::row(1396141200, 0, 3600, "WEST")
          } else {
           Table::row(1414285200, 0, 0, "WET")
          }
         } else {
          if i < 70 {
           Table::row(1427590800, 0, 3600, "WEST")
          } else {
           Table::row(1445734800, 0, 0, "WET")
          }
         }
        }
       }
      } else {
       if i < 78 {
        if i < 74 {
         if i < 72 {
          Table::row(1459040400, 0, 3600, "WEST")
         } else {
          if i < 73 {
           Table::row(1477789200, 0, 0, "WET")
          } else {
           Table::row(1490490000, 0, 3600, "WEST")
          }
         }
        } else {
         if i < 76 {
          if i < 75 {
           Table::row(1509238800, 0, 0, "WET")
          } else {
           Table::row(1521939600, 0, 3600, "WEST")
          }
         } else {
          if i < 77 {
           Table::row(1540688400, 0, 0, "WET")
          } else {
           Table::row(1553994000, 0, 3600, "WEST")
          }
         }
        }
       } else {
        if i < 82 {
         if i < 80 {
          if i < 79 {
           Table::row(1572138000, 0, 0, "WET")
          } else {
           Table::row(1585443600, 0, 3600, "WEST")
          }
         } else {
          if i < 81 {
           Table::row(1603587600, 0, 0, "WET")
          } else {
           Table::row(1616893200, 0, 3600, "WEST")
          }
         }
        } else {
         if i < 84 {
          if i < 83 {
           Table::row(1635642000, 0, 0, "WET")
          } else {
           Table::row(1648342800, 0, 3600, "WEST")
          }
         } else {
          if i < 85 {
           Table::row(1667091600, 0, 0, "WET")
          } else {
           Table::row(1679792400, 0, 3600, "WEST")
          }
         }
        }
       }
      }
     } else {
      if i < 100 {
       if i < 93 {
        if i < 89 {
         if i < 87 {
          Table::row(1698541200, 0, 0, "WET")
         } else {
          if i < 88 {
           Table::row(1711846800, 0, 3600, "WEST")
          } else {
           Table::row(1729990800, 0, 0, "WET")
          }
         }
        } else {
         if i < 91 {
          if i < 90 {
           Table::row(1743296400, 0, 3600, "WEST")
          } else {
           Table::row(1761440400, 0, 0, "WET")
          }
         } else {
          if i < 92 {
           Table::row(1774746000, 0, 3600, "WEST")
          } else {
           Table::row(1792890000, 0, 0, "WET")
          }
         }
        }
       } else {
        if i < 96 {
         if i < 94 {
          Table::row(1806195600, 0, 3600, "WEST")
         } else {
          if i < 95 {
           Table::row(1824944400, 0, 0, "WET")
          } else {
           Table::row(1837645200, 0, 3600, "WEST")
          }
         }
        } else {
         if i < 98 {
          if i < 97 {
           Table::row(1856394000, 0, 0, "WET")
          } else {
           Table::row(1869094800, 0, 3600, "WEST")
          }
         } else {
          if i < 99 {
           Table::row(1887843600, 0, 0, "WET")
          } else {
           Table::row(1901149200, 0, 3600, "WEST")
          }
         }
        }
       }
      } else {
       if i < 107 {
        if i < 103 {
         if i < 101 {
          Table::row(1919293200, 0, 0, "WET")
         } else {
          if i < 102 {
           Table::row(1932598800, 0, 3600, "WEST")
          } else {
           Table::row(1950742800, 0, 0, "WET")
          }
         }
        } else {
         if i < 105 {
          if i < 104 {
           Table::row(1964048400, 0, 3600, "WEST")
          } else {
           Table::row(1982797200, 0, 0, "WET")
          }
         } else {
          if i < 106 {
           Table::row(1995498000, 0, 3600, "WEST")
          } else {
           Table::row(2014246800, 0, 0, "WET")
          }
         }
        }
       } else {
        if i < 111 {
         if i < 109 {
          if i < 108 {
           Table::row(2026947600, 0, 3600, "WEST")
          } else {
           Table::row(2045696400, 0, 0, "WET")
          }
         } else {
          if i < 110 {
           Table::row(2058397200, 0, 3600, "WEST")
          } else {
           Table::row(2077146000, 0, 0, "WET")
          }
         }
        } else {
         if i < 113 {
          if i < 112 {
           Table::row(2090451600, 0, 3600, "WEST")
          } else {
           Table::row(2108595600, 0, 0, "WET")
          }
         } else {
          if i < 114 {
           Table::row(2121901200, 0, 3600, "WEST")
          } else {
           Table::row(2140045200, 0, 0, "WET")
          }
         }
        }
       }
      }
     }
    }
}

/// The rows of the table of the zone `Atlantic/Faroe`.
pub open spec fn faroe_rows() -> spec_fn(int) -> (i64, FixedTimespan) {
    |i: int| faroe_row(i)
}

/// The table of the zone `Atlantic/Faroe`.
pub open spec fn faroe() -> Table {
    Table::listed(Table::row(0, -1624, 0, "LMT").1, 115, faroe_rows())
}

/// Row `i` of the table of the zone `Atlantic/Jan_Mayen`.
pub open spec fn jan_mayen_row(i: int) -> (i64, FixedTimespan) {
    if i < 71 {
     if i < 35 {
      if i < 17 {
       if i < 8 {
        if i < 4 {
         if i < 2 {
          if i < 1 {
           Table::row(-2422054408, 3600, 0, "CET")
          } else {
           Table::row(-1693706400, 3600, 3600, "CEST")
          }
         } else {
          if i < 3 {
           Table::row(-1680483600, 3600, 0, "CET")
          } else {
           Table::row(-1663455600, 3600, 3600, "CEST")
          }
         }
        } else {
         if i < 6 {
          if i < 5 {
           Table::row(-1650150000, 3600, 0, "CET")
          } else {
           Table::row(-1632006000, 3600, 3600, "CEST")
          }
         } else {
          if i < 7 {
           Table::row(-1618700400, 3600, 0, "CET")
          } else {
           Table::row(-938905200, 3600, 3600, "CEST")
          }
         }
        }
       } else {
        if i < 12 {
         if i < 10 {
          if i < 9 {
           Table::row(-857257200, 3600, 0, "CET")
          } else {
           Table::row(-844556400, 3600, 3600, "CEST")
          }
         } else {
          if i < 11 {
           Table::row(-828226800, 3600, 0, "CET")
          } else {
           Table::row(-812502000, 3600, 3600, "CEST")
          }
         }
        } else {
         if i < 14 {
          if i < 13 {
           Table::row(-796777200, 3600, 0, "CET")
          } else {
           Table::row(-781052400, 3600, 3600, "CEST")
          }
         } else {
          if i < 15 {
           Table::row(-776563200, 3600, 7200, "CEMT")
          } else {
           if i < 16 {
            Table::row(-765936000, 3600, 3600, "CEST")
           } else {
            Table::row(-761180400, 3600, 0, "CET")
           }
          }
         }
        }
       }
      } else {
       if i < 26 {
        if i < 21 {
         if i < 19 {
          if i < 18 {
           Table::row(-748479600, 3600, 3600, "CEST")
          } else {
           Table::row(-733273200, 3600, 0, "CET")
          }
         } else {
          if i < 20 {
           Table::row(-717631200, 3600, 3600, "CEST")
          } else {
           Table::row(-714610800, 3600, 7200, "CEMT")
          }
         }
        } else {
         if i < 23 {
          if i < 22 {
           Table::row(-710380800, 3600, 3600, "CEST")
          } else {
           Table::row(-701910000, 3600, 0, "CET")
          }
         } else {
          if i < 24 {
           Table::row(-684975600, 3600, 3600, "CEST")
          } else {
           if i < 25 {
            Table::row(-670460400, 3600, 0, "CET")
           } else {
            Table::row(-654130800, 3600, 3600, "CEST")
           }
          }
         }
        }
       } else {
        if i < 30 {
         if i < 28 {
          if i < 27 {
           Table::row(-639010800, 3600, 0, "CET")
          } else {
           Table::row(323830800, 3600, 3600, "CEST")
          }
         } else {
          if i < 29 {
           Table::row(338950800, 3600, 0, "CET")
          } else {
           Table::row(354675600, 3600, 3600, "CEST")
          }
         }
        } else {
         if i < 32 {
          if i < 31 {
           Table::row(370400400, 3600, 0, "CET")
          } else {
           Table::row(386125200, 3600, 3600, "CEST")
          }
         } else {
          if i < 33 {
           Table::row(401850000, 3600, 0, "CET")
          } else {
           if i < 34 {
            Table::row(417574800, 3600, 3600, "CEST")
           } else {
            Table::row(433299600, 3600, 0, "CET")
           }
          }
         }
        }
       }
      }
     } else {
      if i < 53 {
       if i < 44 {
        if i < 39 {
         if i < 37 {
          if i < 36 {
           Table::row(449024400, 3600, 3600, "CEST")
          } else {
           Table::row(465354000, 3600, 0, "CET")
          }
         } else {
          if i < 38 {
           Table::row(481078800, 3600, 3600, "CEST")
          } else {
           Table::row(496803600, 3600, 0, "CET")
          }
         }
        } else {
         if i < 41 {
          if i < 40 {
           Table::row(512528400, 3600, 3600, "CEST")
          } else {
           Table::row(528253200, 3600, 0, "CET")
          }
         } else {
          if i < 42 {
           Table::row(543978000, 3600, 3600, "CEST")
          } else {
           if i < 43 {
            Table::row(559702800, 3600, 0, "CET")
           } else {
            Table::row(575427600, 3600, 3600, "CEST")
           }
          }
         }
        }
       } else {
        if i < 48 {
         if i < 46 {
          if i < 45 {
           Table::row(591152400, 3600, 0, "CET")
          } else {
           Table::row(606877200, 3600, 3600, "CEST")
          }
         } else {
          if i < 47 {
           Table::row(622602000, 3600, 0, "CET")
          } else {
           Table::row(638326800, 3600, 3600, "CEST")
          }
         }
        } else {
         if i < 50 {
          if i < 49 {
           Table::row(654656400, 3600, 0, "CET")
          } else {
           Table::row(670381200, 3600, 3600, "CEST")
          }
         } else {
          if i < 51 {
           Table::row(686106000, 3600, 0, "CET")
          } else {
           if i < 52 {
            Table::row(701830800, 3600, 3600, "CEST")
           } else {
            Table::row(717555600, 3600, 0, "CET")
           }
          }
         }
        }
       }
      } else {
       if i < 62 {
        if i < 57 {
         if i < 55 {
          if i < 54 {
           Table::row(733280400, 3600, 3600, "CEST")
          } else {
           Table::row(749005200, 3600, 0, "CET")
          }
         } else {
          if i < 56 {
           Table::row(764730000, 3600, 3600, "CEST")
          } else {
           Table::row(780454800, 3600, 0, "CET")
          }
         }
        } else {
         if i < 59 {
          if i < 58 {
           Table::row(796179600, 3600, 3600, "CEST")
          } else {
           Table::row(811904400, 3600, 0, "CET")
          }
         } else {
          if i < 60 {
           Table::row(828234000, 3600, 3600, "CEST")
          } else {
           if i < 61 {
            Table::row(846378000, 3600, 0, "CET")
           } else {
            Table::row(859683600, 3600, 3600, "CEST")
           }
          }
         }
        }
       } else {
        if i < 66 {
         if i < 64 {
          if i < 63 {
           Table::row(877827600, 3600, 0, "CET")
          } else {
           Table::row(891133200, 3600, 3600, "CEST")
          }
         } else {
          if i < 65 {
           Table::row(909277200, 3600, 0, "CET")
          } else {
           Table::row(922582800, 3600, 3600, "CEST")
          }
         }
        } else {
         if i < 68 {
          if i < 67 {
           Table::row(941331600, 3600, 0, "CET")
          } else {
           Table::row(954032400, 3600, 3600, "CEST")
          }
         } else {
          if i < 69 {
           Table::row(972781200, 3600, 0, "CET")
          } else {
           if i < 70 {
            Table::row(985482000, 3600, 3600, "CEST")
           } else {
            Table::row(1004230800, 3600, 0, "CET")
           }
          }
         }
        }
       }
      }
     }
    } else {
     if i < 107 {
      if i < 89 {
       if i < 80 {
        if i < 75 {
         if i < 73 {
          if i < 72 {
           Table::row(1017536400, 3600, 3600, "CEST")
          } else {
           Table::row(1035680400, 3600, 0, "CET")
          }
         } else {
          if i < 74 {
           Table::row(1048986000, 3600, 3600, "CEST")
          } else {
           Table::row(1067130000, 3600, 0, "CET")
          }
         }
        } else {
         if i < 77 {
          if i < 76 {
           Table::row(1080435600, 3600, 3600, "CEST")
          } else {
           Table::row(1099184400, 3600, 0, "CET")
          }
         } else {
          if i < 78 {
           Table::row(1111885200, 3600, 3600, "CEST")
          } else {
           if i < 79 {
            Table::row(1130634000, 3600, 0, "CET")
           } else {
            Table::row(1143334800, 3600, 3600, "CEST")
           }
          }
         }
        }
       } else {
        if i < 84 {
         if i < 82 {
          if i < 81 {
           Table::row(1162083600, 3600, 0, "CET")
          } else {
           Table::row(1174784400, 3600, 3600, "CEST")
          }
         } else {
          if i < 83 {
           Table::row(1193533200, 3600, 0, "CET")
          } else {
           Table::row(1206838800, 3600, 3600, "CEST")
          }
         }
        } else {
         if i < 86 {
          if i < 85 {
           Table::row(1224982800, 3600, 0, "CET")
          } else {
           Table::row(1238288400, 3600, 3600, "CEST")
          }
         } else {
          if i < 87 {
           Table::row(1256432400, 3600, 0, "CET")
          } else {
           if i < 88 {
            Table::row(1269738000, 3600, 3600, "CEST")
           } else {
            Table::row(1288486800, 3600, 0, "CET")
           }
          }
         }
        }
       }
      } else {
       if i < 98 {
        if i < 93 {
         if i < 91 {
          if i < 90 {
           Table::row(1301187600, 3600, 3600, "CEST")
          } else {
           Table::row(1319936400, 3600, 0, "CET")
          }
         } else {
          if i < 92 {
           Table::row(1332637200, 3600, 3600, "CEST")
          } else {
           Table::row(1351386000, 3600, 0, "CET")
          }
         }
        } else {
         if i < 95 {
          if i < 94 {
           Table::row(1364691600, 3600, 3600, "CEST")
          } else {
           Table::row(1382835600, 3600, 0, "CET")
          }
         } else {
          if i < 96 {
           Table::row(1396141200, 3600, 3600, "CEST")
          } else {
           if i < 97 {
            Table::row(1414285200, 3600, 0, "CET")
           } else {
            Table::row(1427590800, 3600, 3600, "CEST")
           }
          }
         }
        }
       } else {
        if i < 102 {
         if i < 100 {
          if i < 99 {
           Table::row(1445734800, 3600, 0, "CET")
          } else {
           Table::row(1459040400, 3600, 3600, "CEST")
          }
         } else {
          if i < 101 {
           Table::row(1477789200, 3600, 0, "CET")
          } else {
           Table::row(1490490000, 3600, 3600, "CEST")
          }
         }
        } else {
         if i < 104 {
          if i < 103 {
           Table::row(1509238800, 3600, 0, "CET")
          } else {
           Table::row(1521939600, 3600, 3600, "CEST")
          }
         } else {
          if i < 105 {
           Table::row(1540688400, 3600, 0, "CET")
          } else {
           if i < 106 {
            Table::row(1553994000, 3600, 3600, "CEST")
           } else {
            Table::row(1572138000, 3600, 0, "CET")
           }
          }
         }
        }
       }
      }
     } else {
      if i < 125 {
       if i < 116 {
        if i < 111 {
         if i < 109 {
          if i < 108 {
           Table::row(1585443600, 3600, 3600, "CEST")
          } else {
           Table::row(1603587600, 3600, 0, "CET")
          }
         } else {
          if i < 110 {
           Table::row(1616893200, 3600, 3600, "CEST")
          } else {
           Table::row(1635642000, 3600, 0, "CET")
          }
         }
        } else {
         if i < 113 {
          if i < 112 {
           Table::row(1648342800, 3600, 3600, "CEST")
          } else {
           Table::row(1667091600, 3600, 0, "CET")
          }
         } else {
          if i < 114 {
           Table::row(1679792400, 3600, 3600, "CEST")
          } else {
           if i < 115 {
            Table::row(1698541200, 3600, 0, "CET")
           } else {
            Table::row(1711846800, 3600, 3600, "CEST")
           }
          }
         }
        }
       } else {
        if i < 120 {
         if i < 118 {
          if i < 117 {
           Table::row(1729990800, 3600, 0, "CET")
          } else {
           Table::row(1743296400, 3600, 3600, "CEST")
          }
         } else {
          if i < 119 {
           Table::row(1761440400, 3600, 0, "CET")
          } else {
           Table::row(1774746000, 3600, 3600, "CEST")
          }
         }
        } else {
         if i < 122 {
          if i < 121 {
           Table::row(1792890000, 3600, 0, "CET")
          } else {
           Table::row(1806195600, 3600, 3600, "CEST")
          }
         } else {
          if i < 123 {
           Table::row(1824944400, 3600, 0, "CET")
          } else {
           if i < 124 {
            Table::row(1837645200, 3600, 3600, "CEST")
           } else {
            Table::row(1856394000, 3600, 0, "CET")
           }
          }
         }
        }
       }
      } else {
       if i < 134 {
        if i < 129 {
         if i < 127 {
          if i < 126 {
           Table::row(1869094800, 3600, 3600, "CEST")
          } else {
           Table::row(1887843600, 3600, 0, "CET")
          }
         } else {
          if i < 128 {
           Table::row(1901149200, 3600, 3600, "CEST")
          } else {
           Table::row(1919293200, 3600, 0, "CET")
          }
         }
        } else {
         if i < 131 {
          if i < 130 {
           Table::row(1932598800, 3600, 3600, "CEST")
          } else {
           Table::row(1950742800, 3600, 0, "CET")
          }
         } else {
          if i < 132 {
           Table::row(1964048400, 3600, 3600, "CEST")
          } else {
           if i < 133 {
            Table::row(1982797200, 3600, 0, "CET")
           } else {
            Table::row(1995498000, 3600, 3600, "CEST")
           }
          }
         }
        }
       } else {
        if i < 138 {
         if i < 136 {
          if i < 135 {
           Table::row(2014246800, 3600, 0, "CET")
          } else {
           Table::row(2026947600, 3600, 3600, "CEST")
          }
         } else {
          if i < 137 {
           Table::row(2045696400, 3600, 0, "CET")
          } else {
           Table::row(2058397200, 3600, 3600, "CEST")
          }
         }
        } else {
         if i < 140 {
          if i < 139 {
           Table::row(2077146000, 3600, 0, "CET")
          } else {
           Table::row(2090451600, 3600, 3600, "CEST")
          }
         } else {
          if i < 141 {
           Table::row(2108595600, 3600, 0, "CET")
          } else {
           if i < 142 {
            Table::row(2121901200, 3600, 3600, "CEST")
           } else {
            Table::row(2140045200, 3600, 0, "CET")
           }
          }
         }
        }
       }
      }
     }
    }
}

/// The rows of the table of the zone `Atlantic/Jan_Mayen`.
pub open spec fn jan_mayen_rows() -> spec_fn(int) -> (i64, FixedTimespan) {
    |i: int| jan_mayen_row(i)
}

/// The table of the zone `Atlantic/Jan_Mayen`.
pub open spec fn jan_mayen() -> Table {
    Table::listed(Table::row(0, 3208, 0, "LMT").1, 143, jan_mayen_rows())
}

/// Row `i` of the table of the zone `Atlantic/Madeira`.
pub open spec fn madeira_row(i: int) -> (i64, FixedTimespan) {
    if i < 107 {
     if i < 53 {
      if i < 26 {
       if i < 13 {
        if i < 6 {
         if i < 3 {
          if i < 1 {
           Table::row(-2713906344, -4056, 0, "FMT")
          } else {
           if i < 2 {
            Table::row(-1830380400, -3600, 0, "-01")
           } else {
            Table::row(-1689552000, -3600, 3600, "+00")
           }
          }
         } else {
          if i < 4 {
           Table::row(-1677798000, -3600, 0, "-01")
          } else {
           if i < 5 {
            Table::row(-1667430000, -3600, 3600, "+00")
           } else {
            Table::row(-1647734400, -3600, 0, "-01")
           }
          }
         }
        } else {
         if i < 9 {
          if i < 7 {
           Table::row(-1635894000, -3600, 3600, "+00")
          } else {
           if i < 8 {
            Table::row(-1616198400, -3600, 0, "-01")
           } else {
            Table::row(-1604358000, -3600, 3600, "+00")
           }
          }
         } else {
          if i < 11 {
           if i < 10 {
            Table::row(-1584662400, -3600, 0, "-01")
           } else {
            Table::row(-1572735600, -3600, 3600, "+00")
           }
          } else {
           if i < 12 {
            Table::row(-1553040000, -3600, 0, "-01")
           } else {
            Table::row(-1541199600, -3600, 3600, "+00")
           }
          }
         }
        }
       } else {
        if i < 19 {
         if i < 16 {
          if i < 14 {
           Table::row(-1521504000, -3600, 0, "-01")
          } else {
           if i < 15 {
            Table::row(-1442448000, -3600, 3600, "+00")
           } else {
            Table::row(-1427673600, -3600, 0, "-01")
           }
          }
         } else {
          if i < 17 {
           Table::row(-1379289600, -3600, 3600, "+00")
          } else {
           if i < 18 {
            Table::row(-1364774400, -3600, 0, "-01")
           } else {
            Table::row(-1348444800, -3600, 3600, "+00")
           }
          }
         }
        } else {
         if i < 22 {
          if i < 20 {
           Table::row(-1333324800, -3600, 0, "-01")
          } else {
           if i < 21 {
            Table::row(-1316390400, -3600, 3600, "+00")
           } else {
            Table::row(-1301270400, -3600, 0, "-01")
           }
          }
         } else {
          if i < 24 {
           if i < 23 {
            Table::row(-1284336000, -3600, 3600, "+00")
           } else {
            Table::row(-1269820800, -3600, 0, "-01")
           }
          } else {
           if i < 25 {
            Table::row(-1221436800, -3600, 3600, "+00")
           } else {
            Table::row(-1206921600, -3600, 0, "-01")
           }
          }
         }
        }
       }
      } else {
       if i < 39 {
        if i < 32 {
         if i < 29 {
          if i < 27 {
           Table::row(-1191196800, -3600, 3600, "+00")
          } else {
           if i < 28 {
            Table::row(-1175472000, -3600, 0, "-01")
           } else {
            Table::row(-1127692800, -3600, 3600, "+00")
           }
          }
         } else {
          if i < 30 {
           Table::row(-1111968000, -3600, 0, "-01")
          } else {
           if i < 31 {
            Table::row(-1096848000, -3600, 3600, "+00")
           } else {
            Table::row(-1080518400, -3600, 0, "-01")
           }
          }
         }
        } else {
         if i < 35 {
          if i < 33 {
           Table::row(-1063584000, -3600, 3600, "+00")
          } else {
           if i < 34 {
            Table::row(-1049068800, -3600, 0, "-01")
           } else {
            Table::row(-1033344000, -3600, 3600, "+00")
           }
          }
         } else {
          if i < 37 {
           if i < 36 {
            Table::row(-1017619200, -3600, 0, "-01")
           } else {
            Table::row(-1002499200, -3600, 3600, "+00")
           }
          } else {
           if i < 38 {
            Table::row(-986169600, -3600, 0, "-01")
           } else {
            Table::row(-969235200, -3600, 3600, "+00")
           }
          }
         }
        }
       } else {
        if i < 46 {
         if i < 42 {
          if i < 40 {
           Table::row(-950486400, -3600, 0, "-01")
          } else {
           if i < 41 {
            Table::row(-942019200, -3600, 3600, "+00")
           } else {
            Table::row(-922492800, -3600, 0, "-01")
           }
          }
         } else {
          if i < 44 {
           if i < 43 {
            Table::row(-906940800, -3600, 3600, "+00")
           } else {
            Table::row(-891129600, -3600, 0, "-01")
           }
          } else {
           if i < 45 {
            Table::row(-877305600, -3600, 3600, "+00")
           } else {
            Table::row(-873680400, -3600, 7200, "+01")
           }
          }
         }
        } else {
         if i < 49 {
          if i < 47 {
           Table::row(-864003600, -3600, 3600, "+00")
          } else {
           if i < 48 {
            Table::row(-857952000, -3600, 0, "-01")
           } else {
            Table::row(-845856000, -3600, 3600, "+00")
           }
          }
         } else {
          if i < 51 {
           if i < 50 {
            Table::row(-842835600, -3600, 7200, "+01")
           } else {
            Table::row(-831344400, -3600, 3600, "+00")
           }
          } else {
           if i < 52 {
            Table::row(-825897600, -3600, 0, "-01")
           } else {
            Table::row(-814406400, -3600, 3600, "+00")
           }
          }
         }
        }
       }
      }
     } else {
      if i < 80 {
       if i < 66 {
        if i < 59 {
         if i < 56 {
          if i < 54 {
           Table::row(-810781200, -3600, 7200, "+01")
          } else {
           if i < 55 {
            Table::row(-799894800, -3600, 3600, "+00")
           } else {
            Table::row(-794448000, -3600, 0, "-01")
           }
          }
         } else {
          if i < 57 {
           Table::row(-782956800, -3600, 3600, "+00")
          } else {
           if i < 58 {
            Table::row(-779331600, -3600, 7200, "+01")
           } else {
            Table::row(-768445200, -3600, 3600, "+00")
           }
          }
         }
        } else {
         if i < 62 {
          if i < 60 {
           Table::row(-762998400, -3600, 0, "-01")
          } else {
           if i < 61 {
            Table::row(-749088000, -3600, 3600, "+00")
           } else {
            Table::row(-733363200, -3600, 0, "-01")
           }
          }
         } else {
          if i < 64 {
           if i < 63 {
            Table::row(-717627600, -3600, 3600, "+00")
           } else {
            Table::row(-701902800, -3600, 0, "-01")
           }
          } else {
           if i < 65 {
            Table::row(-686178000, -3600, 3600, "+00")
           } else {
            Table::row(-670453200, -3600, 0, "-01")
           }
          }
         }
        }
       } else {
        if i < 73 {
         if i < 69 {
          if i < 67 {
           Table::row(-654728400, -3600, 3600, "+00")
          } else {
           if i < 68 {
            Table::row(-639003600, -3600, 0, "-01")
           } else {
            Table::row(-623278800, -3600, 3600, "+00")
           }
          }
         } else {
          if i < 71 {
           if i < 70 {
            Table::row(-607554000, -3600, 0, "-01")
           } else {
            Table::row(-591829200, -3600, 3600, "+00")
           }
          } else {
           if i < 72 {
            Table::row(-575499600, -3600, 0, "-01")
           } else {
            Table::row(-559774800, -3600, 3600, "+00")
           }
          }
         }
        } else {
         if i < 76 {
          if i < 74 {
           Table::row(-544050000, -3600, 0, "-01")
          } else {
           if i < 75 {
            Table::row(-528325200, -3600, 3600, "+00")
           } else {
            Table::row(-512600400, -3600, 0, "-01")
           }
          }
         } else {
          if i < 78 {
           if i < 77 {
            Table::row(-496875600, -3600, 3600, "+00")
           } else {
            Table::row(-481150800, -3600, 0, "-01")
           }
          } else {
           if i < 79 {
            Table::row(-465426000, -3600, 3600, "+00")
           } else {
            Table::row(-449701200, -3600, 0, "-01")
           }
          }
         }
        }
       }
      } else {
       if i < 93 {
        if i < 86 {
         if i < 83 {
          if i < 81 {
           Table::row(-433976400, -3600, 3600, "+00")
          } else {
           if i < 82 {
            Table::row(-417646800, -3600, 0, "-01")
           } else {
            Table::row(-401922000, -3600, 3600, "+00")
           }
          }
         } else {
          if i < 84 {
           Table::row(-386197200, -3600, 0, "-01")
          } else {
           if i < 85 {
            Table::row(-370472400, -3600, 3600, "+00")
           } else {
            Table::row(-354747600, -3600, 0, "-01")
           }
          }
         }
        } else {
         if i < 89 {
          if i < 87 {
           Table::row(-339022800, -3600, 3600, "+00")
          } else {
           if i < 88 {
            Table::row(-323298000, -3600, 0, "-01")
           } else {
            Table::row(-307573200, -3600, 3600, "+00")
           }
          }
         } else {
          if i < 91 {
           if i < 90 {
            Table::row(-291848400, -3600, 0, "-01")
           } else {
            Table::row(-276123600, -3600, 3600, "+00")
           }
          } else {
           if i < 92 {
            Table::row(-260398800, -3600, 0, "-01")
           } else {
            Table::row(-244674000, -3600, 3600, "+00")
           }
          }
         }
        }
       } else {
        if i < 100 {
         if i < 96 {
          if i < 94 {
           Table::row(-228344400, -3600, 0, "-01")
          } else {
           if i < 95 {
            Table::row(-212619600, -3600, 3600, "+00")
           } else {
            Table::row(-196894800, -3600, 0, "-01")
           }
          }
         } else {
          if i < 98 {
           if i < 97 {
            Table::row(-181170000, -3600, 3600, "+00")
           } else {
            Table::row(-165445200, -3600, 0, "-01")
           }
          } else {
           if i < 99 {
            Table::row(-149720400, -3600, 3600, "+00")
           } else {
            Table::row(-133995600, -3600, 0, "-01")
           }
          }
         }
        } else {
         if i < 103 {
          if i < 101 {
           Table::row(-118270800, -3600, 3600, "+00")
          } else {
           if i < 102 {
            Table::row(-102546000, 0, 0, "WET")
           } else {
            Table::row(386726400, 0, 3600, "WEST")
           }
          }
         } else {
          if i < 105 {
           if i < 104 {
            Table::row(401846400, 0, 0, "WET")
           } else {
            Table::row(417571200, 0, 3600, "WEST")
           }
          } else {
           if i < 106 {
            Table::row(433296000, 0, 0, "WET")
           } else {
            Table::row(449020800, 0, 3600, "WEST")
           }
          }
         }
        }
       }
      }
     }
    } else {
     if i < 160 {
      if i < 133 {
       if i < 120 {
        if i < 113 {
         if i < 110 {
          if i < 108 {
           Table::row(465350400, 0, 0, "WET")
          } else {
           if i < 109 {
            Table::row(481075200, 0, 3600, "WEST")
           } else {
            Table::row(496800000, 0, 0, "WET")
           }
          }
         } else {
          if i < 111 {
           Table::row(512524800, 0, 3600, "WEST")
          } else {
           if i < 112 {
            Table::row(528253200, 0, 0, "WET")
           } else {
            Table::row(543978000, 0, 3600, "WEST")
           }
          }
         }
        } else {
         if i < 116 {
          if i < 114 {
           Table::row(559702800, 0, 0, "WET")
          } else {
           if i < 115 {
            Table::row(575427600, 0, 3600, "WEST")
           } else {
            Table::row(591152400, 0, 0, "WET")
           }
          }
         } else {
          if i < 118 {
           if i < 117 {
            Table::row(606877200, 0, 3600, "WEST")
           } else {
            Table::row(622602000, 0, 0, "WET")
           }
          } else {
           if i < 119 {
            Table::row(638326800, 0, 3600, "WEST")
           } else {
            Table::row(654656400, 0, 0, "WET")
           }
          }
         }
        }
       } else {
        if i < 126 {
         if i < 123 {
          if i < 121 {
           Table::row(670381200, 0, 3600, "WEST")
          } else {
           if i < 122 {
            Table::row(686106000, 0, 0, "WET")
           } else {
            Table::row(701830800, 0, 3600, "WEST")
           }
          }
         } else {
          if i < 124 {
           Table::row(717555600, 0, 0, "WET")
          } else {
           if i < 125 {
            Table::row(733280400, 0, 3600, "WEST")
           } else {
            Table::row(749005200, 0, 0, "WET")
           }
          }
         }
        } else {
         if i < 129 {
          if i < 127 {
           Table::row(764730000, 0, 3600, "WEST")
          } else {
           if i < 128 {
            Table::row(780454800, 0, 0, "WET")
           } else {
            Table::row(796179600, 0, 3600, "WEST")
           }
          }
         } else {
          if i < 131 {
           if i < 130 {
            Table::row(811904400, 0, 0, "WET")
           } else {
            Table::row(828234000, 0, 3600, "WEST")
           }
          } else {
           if i < 132 {
            Table::row(846378000, 0, 0, "WET")
           } else {
            Table::row(859683600, 0, 3600, "WEST")
           }
          }
         }
        }
       }
      } else {
       if i < 146 {
        if i < 139 {
         if i < 136 {
          if i < 134 {
           Table::row(877827600, 0, 0, "WET")
          } else {
           if i < 135 {
            Table::row(891133200, 0, 3600, "WEST")
           } else {
            Table::row(909277200, 0, 0, "WET")
           }
          }
         } else {
          if i < 137 {
           Table::row(922582800, 0, 3600, "WEST")
          } else {
           if i < 138 {
            Table::row(941331600, 0, 0, "WET")
           } else {
            Table::row(954032400, 0, 3600, "WEST")
           }
          }
         }
        } else {
         if i < 142 {
          if i < 140 {
           Table::row(972781200, 0, 0, "WET")
          } else {
           if i < 141 {
            Table::row(985482000, 0, 3600, "WEST")
           } else {
            Table::row(1004230800, 0, 0, "WET")
           }
          }
         } else {
          if i < 144 {
           if i < 143 {
            Table::row(1017536400, 0, 3600, "WEST")
           } else {
            Table::row(1035680400, 0, 0, "WET")
           }
          } else {
           if i < 145 {
            Table::row(1048986000, 0, 3600, "WEST")
           } else {
            Table::row(1067130000, 0, 0, "WET")
           }
          }
         }
        }
       } else {
        if i < 153 {
         if i < 149 {
          if i < 147 {
           Table::row(1080435600, 0, 3600, "WEST")
          } else {
           if i < 148 {
            Table::row(1099184400, 0, 0, "WET")
           } else {
            Table::row(1111885200, 0, 3600, "WEST")
           }
          }
         } else {
          if i < 151 {
           if i < 150 {
            Table::row(1130634000, 0, 0, "WET")
           } else {
            Table::row(1143334800, 0, 3600, "WEST")
           }
          } else {
           if i < 152 {
            Table::row(1162083600, 0, 0, "WET")
           } else {
            Table::row(1174784400, 0, 3600, "WEST")
           }
          }
         }
        } else {
         if i < 156 {
          if i < 154 {
           Table::row(1193533200, 0, 0, "WET")
          } else {
           if i < 155 {
            Table::row(1206838800, 0, 3600, "WEST")
           } else {
            Table::row(1224982800, 0, 0, "WET")
           }
          }
         } else {
          if i < 158 {
           if i < 157 {
            Table::row(1238288400, 0, 3600, "WEST")
           } else {
            Table::row(1256432400, 0, 0, "WET")
           }
          } else {
           if i < 159 {
            Table::row(1269738000, 0, 3600, "WEST")
           } else {
            Table::row(1288486800, 0, 0, "WET")
           }
          }
         }
        }
       }
      }
     } else {
      if i < 187 {
       if i < 173 {
        if i < 166 {
         if i < 163 {
          if i < 161 {
           Table::row(1301187600, 0, 3600, "WEST")
          } else {
           if i < 162 {
            Table::row(1319936400, 0, 0, "WET")
           } else {
            Table::row(1332637200, 0, 3600, "WEST")
           }
          }
         } else {
          if i < 164 {
           Table::row(1351386000, 0, 0, "WET")
          } else {
           if i < 165 {
            Table::row(1364691600, 0, 3600, "WEST")
           } else {
            Table::row(1382835600, 0, 0, "WET")
           }
          }
         }
        } else {
         if i < 169 {
          if i < 167 {
           Table::row(1396141200, 0, 3600, "WEST")
          } else {
           if i < 168 {
            Table::row(1414285200, 0, 0, "WET")
           } else {
            Table::row(1427590800, 0, 3600, "WEST")
           }
          }
         } else {
          if i < 171 {
           if i < 170 {
            Table::row(1445734800, 0, 0, "WET")
           } else {
            Table::row(1459040400, 0, 3600, "WEST")
           }
          } else {
           if i < 172 {
            Table::row(1477789200, 0, 0, "WET")
           } else {
            Table::row(1490490000, 0, 3600, "WEST")
           }
          }
         }
        }
       } else {
        if i < 180 {
         if i < 176 {
          if i < 174 {
           Table::row(1509238800, 0, 0, "WET")
          } else {
           if i < 175 {
            Table::row(1521939600, 0, 3600, "WEST")
           } else {
            Table::row(1540688400, 0, 0, "WET")
           }
          }
         } else {
          if i < 178 {
           if i < 177 {
            Table::row(1553994000, 0, 3600, "WEST")
           } else {
            Table::row(1572138000, 0, 0, "WET")
           }
          } else {
           if i < 179 {
            Table::row(1585443600, 0, 3600, "WEST")
           } else {
            Table::row(1603587600, 0, 0, "WET")
           }
          }
         }
        } else {
         if i < 183 {
          if i < 181 {
           Table::row(1616893200, 0, 3600, "WEST")
          } else {
           if i < 182 {
            Table::row(1635642000, 0, 0, "WET")
           } else {
            Table::row(1648342800, 0, 3600, "WEST")
           }
          }
         } else {
          if i < 185 {
           if i < 184 {
            Table::row(1667091600, 0, 0, "WET")
           } else {
            Table::row(1679792400, 0, 3600, "WEST")
           }
          } else {
           if i < 186 {
            Table::row(1698541200, 0, 0, "WET")
           } else {
            Table::row(1711846800, 0, 3600, "WEST")
           }
          }
         }
        }
       }
      } else {
       if i < 200 {
        if i < 193 {
         if i < 190 {
          if i < 188 {
           Table::row(1729990800, 0, 0, "WET")
          } else {
           if i < 189 {
            Table::row(1743296400, 0, 3600, "WEST")
           } else {
            Table::row(1761440400, 0, 0, "WET")
           }
          }
         } else {
          if i < 191 {
           Table::row(1774746000, 0, 3600, "WEST")
          } else {
           if i < 192 {
            Table::row(1792890000, 0, 0, "WET")
           } else {
            Table::row(1806195600, 0, 3600, "WEST")
           }
          }
         }
        } else {
         if i < 196 {
          if i < 194 {
           Table::row(1824944400, 0, 0, "WET")
          } else {
           if i < 195 {
            Table::row(1837645200, 0, 3600, "WEST")
           } else {
            Table::row(1856394000, 0, 0, "WET")
           }
          }
         } else {
          if i < 198 {
           if i < 197 {
            Table::row(1869094800, 0, 3600, "WEST")
           } else {
            Table::row(1887843600, 0, 0, "WET")
           }
          } else {
           if i < 199 {
            Table::row(1901149200, 0, 3600, "WEST")
           } else {
            Table::row(1919293200, 0, 0, "WET")
           }
          }
         }
        }
       } else {
        if i < 207 {
         if i < 203 {
          if i < 201 {
           Table::row(1932598800, 0, 3600, "WEST")
          } else {
           if i < 202 {
            Table::row(1950742800, 0, 0, "WET")
           } else {
            Table::row(1964048400, 0, 3600, "WEST")
           }
          }
         } else {
          if i < 205 {
           if i < 204 {
            Table::row(1982797200, 0, 0, "WET")
           } else {
            Table::row(1995498000, 0, 3600, "WEST")
           }
          } else {
           if i < 206 {
            Table::row(2014246800, 0, 0, "WET")
           } else {
            Table::row(2026947600, 0, 3600, "WEST")
           }
          }
         }
        } else {
         if i < 210 {
          if i < 208 {
           Table::row(2045696400, 0, 0, "WET")
          } else {
           if i < 209 {
            Table::row(2058397200, 0, 3600, "WEST")
           } else {
            Table::row(2077146000, 0, 0, "WET")
           }
          }
         } else {
          if i < 212 {
           if i < 211 {
            Table::row(2090451600, 0, 3600, "WEST")
           } else {
            Table::row(2108595600, 0, 0, "WET")
           }
          } else {
           if i < 213 {
            Table::row(2121901200, 0, 3600, "WEST")
           } else {
            Table::row(2140045200, 0, 0, "WET")
           }
          }
         }
        }
       }
      }
     }
    }
}

/// The rows of the table of the zone `Atlantic/Madeira`.
pub open spec fn madeira_rows() -> spec_fn(int) -> (i64, FixedTimespan) {
    |i: int| madeira_row(i)
}

/// The table of the zone `Atlantic/Madeira`.
pub open spec fn madeira() -> Table {
    Table::listed(Table::row(0, -4056, 0, "LMT").1, 214, madeira_rows())
}

/// Row `i` of the table of the zone `Atlantic/Reykjavik`.
pub open spec fn reykjavik_row(i: int) -> (i64, FixedTimespan) {
    if i < 34 {
     if i < 17 {
      if i < 8 {
       if i < 4 {
        if i < 2 {
         if i < 1 {
          Table::row(-1956609120, -3600, 0, "-01")
         } else {
          Table::row(-1668211200, -3600, 3600, "+00")
         }
        } else {
         if i < 3 {
          Table::row(-1647212400, -3600, 0, "-01")
         } else {
          Table::row(-1636675200, -3600, 3600, "+00")
         }
        }
       } else {
        if i < 6 {
         if i < 5 {
          Table::row(-1613430000, -3600, 0, "-01")
         } else {
          Table::row(-1605139200, -3600, 3600, "+00")
         }
        } else {
         if i < 7 {
          Table::row(-1581894000, -3600, 0, "-01")
         } else {
          Table::row(-1539561600, -3600, 3600, "+00")
         }
        }
       }
      } else {
       if i < 12 {
        if i < 10 {
         if i < 9 {
          Table::row(-1531350000, -3600, 0, "-01")
         } else {
          Table::row(-968025600, -3600, 3600, "+00")
         }
        } else {
         if i < 11 {
          Table::row(-952293600, -3600, 0, "-01")
         } else {
          Table::row(-942008400, -3600, 3600, "+00")
         }
        }
       } else {
        if i < 14 {
         if i < 13 {
          Table::row(-920239200, -3600, 0, "-01")
         } else {
          Table::row(-909957600, -3600, 3600, "+00")
         }
        } else {
         if i < 15 {
          Table::row(-888789600, -3600, 0, "-01")
         } else {
          if i < 16 {
           Table::row(-877903200, -3600, 3600, "+00")
          } else {
           Table::row(-857944800, -3600, 0, "-01")
          }
         }
        }
       }
      }
     } else {
      if i < 25 {
       if i < 21 {
        if i < 19 {
         if i < 18 {
          Table::row(-846453600, -3600, 3600, "+00")
         } else {
          Table::row(-826495200, -3600, 0, "-01")
         }
        } else {
         if i < 20 {
          Table::row(-815004000, -3600, 3600, "+00")
         } else {
          Table::row(-795045600, -3600, 0, "-01")
         }
        }
       } else {
        if i < 23 {
         if i < 22 {
          Table::row(-783554400, -3600, 3600, "+00")
         } else {
          Table::row(-762991200, -3600, 0, "-01")
         }
        } else {
         if i < 24 {
          Table::row(-752104800, -3600, 3600, "+00")
         } else {
          Table::row(-731541600, -3600, 0, "-01")
         }
        }
       }
      } else {
       if i < 29 {
        if i < 27 {
         if i < 26 {
          Table::row(-717631200, -3600, 3600, "+00")
         } else {
          Table::row(-700092000, -3600, 0, "-01")
         }
        } else {
         if i < 28 {
          Table::row(-686181600, -3600, 3600, "+00")
         } else {
          Table::row(-668642400, -3600, 0, "-01")
         }
        }
       } else {
        if i < 31 {
         if i < 30 {
          Table::row(-654732000, -3600, 3600, "+00")
         } else {
          Table::row(-636588000, -3600, 0, "-01")
         }
        } else {
         if i < 32 {
          Table::row(-623282400, -3600, 3600, "+00")
         } else {
          if i < 33 {
           Table::row(-605743200, -3600, 0, "-01")
          } else {
           Table::row(-591832800, -3600, 3600, "+00")
          }
         }
        }
       }
      }
     }
    } else {
     if i < 51 {
      if i < 42 {
       if i < 38 {
        if i < 36 {
         if i < 35 {
          Table::row(-573688800, -3600, 0, "-01")
         } else {
          Table::row(-559778400, -3600, 3600, "+00")
         }
        } else {
         if i < 37 {
          Table::row(-542239200, -3600, 0, "-01")
         } else {
          Table::row(-528328800, -3600, 3600, "+00")
         }
        }
       } else {
        if i < 40 {
         if i < 39 {
          Table::row(-510789600, -3600, 0, "-01")
         } else {
          Table::row(-496879200, -3600, 3600, "+00")
         }
        } else {
         if i < 41 {
          Table::row(-479340000, -3600, 0, "-01")
         } else {
          Table::row(-465429600, -3600, 3600, "+00")
         }
        }
       }
      } else {
       if i < 46 {
        if i < 44 {
         if i < 43 {
          Table::row(-447890400, -3600, 0, "-01")
         } else {
          Table::row(-433980000, -3600, 3600, "+00")
         }
        } else {
         if i < 45 {
          Table::row(-415836000, -3600, 0, "-01")
         } else {
          Table::row(-401925600, -3600, 3600, "+00")
         }
        }
       } else {
        if i < 48 {
         if i < 47 {
          Table::row(-384386400, -3600, 0, "-01")
         } else {
          Table::row(-370476000, -3600, 3600, "+00")
         }
        } else {
         if i < 49 {
          Table::row(-352936800, -3600, 0, "-01")
         } else {
          if i < 50 {
           Table::row(-339026400, -3600, 3600, "+00")
          } else {
           Table::row(-321487200, -3600, 0, "-01")
          }
         }
        }
       }
      }
     } else {
      if i < 59 {
       if i < 55 {
        if i < 53 {
         if i < 52 {
          Table::row(-307576800, -3600, 3600, "+00")
         } else {
          Table::row(-290037600, -3600, 0, "-01")
         }
        } else {
         if i < 54 {
          Table::row(-276127200, -3600, 3600, "+00")
         } else {
          Table::row(-258588000, -3600, 0, "-01")
         }
        }
       } else {
        if i < 57 {
         if i < 56 {
          Table::row(-244677600, -3600, 3600, "+00")
         } else {
          Table::row(-226533600, -3600, 0, "-01")
         }
        } else {
         if i < 58 {
          Table::row(-212623200, -3600, 3600, "+00")
         } else {
          Table::row(-195084000, -3600, 0, "-01")
         }
        }
       }
      } else {
       if i < 63 {
        if i < 61 {
         if i < 60 {
          Table::row(-181173600, -3600, 3600, "+00")
         } else {
          Table::row(-163634400, -3600, 0, "-01")
         }
        } else {
         if i < 62 {
          Table::row(-149724000, -3600, 3600, "+00")
         } else {
          Table::row(-132184800, -3600, 0, "-01")
         }
        }
       } else {
        if i < 65 {
         if i < 64 {
          Table::row(-118274400, -3600, 3600, "+00")
         } else {
          Table::row(-100735200, -3600, 0, "-01")
         }
        } else {
         if i < 66 {
          Table::row(-86824800, -3600, 3600, "+00")
         } else {
          if i < 67 {
           Table::row(-68680800, -3600, 0, "-01")
          } else {
           Table::row(-54770400, 0, 0, "GMT")
          }
         }
        }
       }
      }
     }
    }
}

/// The rows of the table of the zone `Atlantic/Reykjavik`.
pub open spec fn reykjavik_rows() -> spec_fn(int) -> (i64, FixedTimespan) {
    |i: int| reykjavik_row(i)
}

/// The table of the zone `Atlantic/Reykjavik`.
pub open spec fn reykjavik() -> Table {
    Table::listed(Table::row(0, -5280, 0, "LMT").1, 68, reykjavik_rows())
}

/// Row `i` of the table of the zone `Atlantic/South_Georgia`.
pub open spec fn south_georgia_row(i: int) -> (i64, FixedTimespan) {
    if i < 1 {
     Table::row(-2524512832, -7200, 0, "-02")
    } else {
     Table::row(2147483647, -7200, 0, "-02")
    }
}

/// The rows of the table of the zone `Atlantic/South_Georgia`.
pub open spec fn south_georgia_rows() -> spec_fn(int) -> (i64, FixedTimespan) {
    |i: int| south_georgia_row(i)
}

/// The table of the zone `Atlantic/South_Georgia`.
pub open spec fn south_georgia() -> Table {
    Table::listed(Table::row(0, -8768, 0, "LMT").1, 2, south_georgia_rows())
}

/// Row `i` of the table of the zone `Atlantic/St_Helena`.
pub open spec fn st_helena_row(i: int) -> (i64, FixedTimespan) {
    if i < 1 {
     Table::row(-2524520232, -1368, 0, "JMT")
    } else {
     Table::row(-599614632, 0, 0, "GMT")
    }
}

/// The rows of the table of the zone `Atlantic/St_Helena`.
pub open spec fn st_helena_rows() -> spec_fn(int) -> (i64, FixedTimespan) {
    |i: int| st_helena_row(i)
}

/// The table of the zone `Atlantic/St_Helena`.
pub open spec fn st_helena() -> Table {
    Table::listed(Table::row(0, -1368, 0, "LMT").1, 2, st_helena_rows())
}

/// Row `i` of the table of the zone `Atlantic/Stanley`.
pub open spec fn stanley_row(i: int) -> (i64, FixedTimespan) {
    if i < 35 {
     if i < 17 {
      if i < 8 {
       if i < 4 {
        if i < 2 {
         if i < 1 {
          Table::row(-2524507716, -13884, 0, "SMT")
         } else {
          Table::row(-1824235716, -14400, 0, "-04")
         }
        } else {
         if i < 3 {
          Table::row(-1018209600, -14400, 3600, "-03")
         } else {
          Table::row(-1003093200, -14400, 0, "-04")
         }
        }
       } else {
        if i < 6 {
         if i < 5 {
          Table::row(-986760000, -14400, 3600, "-03")
         } else {
          Table::row(-971643600, -14400, 0, "-04")
         }
        } else {
         if i < 7 {
          Table::row(-954705600, -14400, 3600, "-03")
         } else {
          Table::row(-939589200, -14400, 0, "-04")
         }
        }
       }
      } else {
       if i < 12 {
        if i < 10 {
         if i < 9 {
          Table::row(-923256000, -14400, 3600, "-03")
         } else {
          Table::row(-908139600, -14400, 0, "-04")
         }
        } else {
         if i < 11 {
          Table::row(-891806400, -14400, 3600, "-03")
         } else {
          Table::row(-876690000, -14400, 0, "-04")
         }
        }
       } else {
        if i < 14 {
         if i < 13 {
          Table::row(-860356800, -14400, 3600, "-03")
         } else {
          Table::row(-852066000, -14400, 0, "-04")
         }
        } else {
         if i < 15 {
          Table::row(420609600, -10800, 0, "-03")
         } else {
          if i < 16 {
           Table::row(433306800, -10800, 3600, "-02")
          } else {
           Table::row(452052000, -10800, 0, "-03")
          }
         }
        }
       }
      }
     } else {
      if i < 26 {
       if i < 21 {
        if i < 19 {
         if i < 18 {
          Table::row(464151600, -10800, 3600, "-02")
         } else {
          Table::row(483501600, -10800, 0, "-03")
         }
        } else {
         if i < 20 {
          Table::row(495601200, -14400, 3600, "-03")
         } else {
          Table::row(514350000, -14400, 0, "-04")
         }
        }
       } else {
        if i < 23 {
         if i < 22 {
          Table::row(527054400, -14400, 3600, "-03")
         } else {
          Table::row(545799600, -14400, 0, "-04")
         }
        } else {
         if i < 24 {
          Table::row(558504000, -14400, 3600, "-03")
         } else {
          if i < 25 {
           Table::row(577249200, -14400, 0, "-04")
          } else {
           Table::row(589953600, -14400, 3600, "-03")
          }
         }
        }
       }
      } else {
       if i < 30 {
        if i < 28 {
         if i < 27 {
          Table::row(608698800, -14400, 0, "-04")
         } else {
          Table::row(621403200, -14400, 3600, "-03")
         }
        } else {
         if i < 29 {
          Table::row(640753200, -14400, 0, "-04")
         } else {
          Table::row(652852800, -14400, 3600, "-03")
         }
        }
       } else {
        if i < 32 {
         if i < 31 {
          Table::row(672202800, -14400, 0, "-04")
         } else {
          Table::row(684907200, -14400, 3600, "-03")
         }
        } else {
         if i < 33 {
          Table::row(703652400, -14400, 0, "-04")
         } else {
          if i < 34 {
           Table::row(716356800, -14400, 3600, "-03")
          } else {
           Table::row(735102000, -14400, 0, "-04")
          }
         }
        }
       }
      }
     }
    } else {
     if i < 53 {
      if i < 44 {
       if i < 39 {
        if i < 37 {
         if i < 36 {
          Table::row(747806400, -14400, 3600, "-03")
         } else {
          Table::row(766551600, -14400, 0, "-04")
         }
        } else {
         if i < 38 {
          Table::row(779256000, -14400, 3600, "-03")
         } else {
          Table::row(798001200, -14400, 0, "-04")
         }
        }
       } else {
        if i < 41 {
         if i < 40 {
          Table::row(810705600, -14400, 3600, "-03")
         } else {
          Table::row(830055600, -14400, 0, "-04")
         }
        } else {
         if i < 42 {
          Table::row(842760000, -14400, 3600, "-03")
         } else {
          if i < 43 {
           Table::row(861505200, -14400, 0, "-04")
          } else {
           Table::row(874209600, -14400, 3600, "-03")
          }
         }
        }
       }
      } else {
       if i < 48 {
        if i < 46 {
         if i < 45 {
          Table::row(892954800, -14400, 0, "-04")
         } else {
          Table::row(905659200, -14400, 3600, "-03")
         }
        } else {
         if i < 47 {
          Table::row(924404400, -14400, 0, "-04")
         } else {
          Table::row(937108800, -14400, 3600, "-03")
         }
        }
       } else {
        if i < 50 {
         if i < 49 {
          Table::row(955854000, -14400, 0, "-04")
         } else {
          Table::row(968558400, -14400, 3600, "-03")
         }
        } else {
         if i < 51 {
          Table::row(987310800, -14400, 0, "-04")
         } else {
          if i < 52 {
           Table::row(999410400, -14400, 3600, "-03")
          } else {
           Table::row(1019365200, -14400, 0, "-04")
          }
         }
        }
       }
      }
     } else {
      if i < 62 {
       if i < 57 {
        if i < 55 {
         if i < 54 {
          Table::row(1030860000, -14400, 3600, "-03")
         } else {
          Table::row(1050814800, -14400, 0, "-04")
         }
        } else {
         if i < 56 {
          Table::row(1062914400, -14400, 3600, "-03")
         } else {
          Table::row(1082264400, -14400, 0, "-04")
         }
        }
       } else {
        if i < 59 {
         if i < 58 {
          Table::row(1094364000, -14400, 3600, "-03")
         } else {
          Table::row(1113714000, -14400, 0, "-04")
         }
        } else {
         if i < 60 {
          Table::row(1125813600, -14400, 3600, "-03")
         } else {
          if i < 61 {
           Table::row(1145163600, -14400, 0, "-04")
          } else {
           Table::row(1157263200, -14400, 3600, "-03")
          }
         }
        }
       }
      } else {
       if i < 66 {
        if i < 64 {
         if i < 63 {
          Table::row(1176613200, -14400, 0, "-04")
         } else {
          Table::row(1188712800, -14400, 3600, "-03")
         }
        } else {
         if i < 65 {
          Table::row(1208667600, -14400, 0, "-04")
         } else {
          Table::row(1220767200, -14400, 3600, "-03")
         }
        }
       } else {
        if i < 68 {
         if i < 67 {
          Table::row(1240117200, -14400, 0, "-04")
         } else {
          Table::row(1252216800, -14400, 3600, "-03")
         }
        } else {
         if i < 69 {
          Table::row(1271566800, -14400, 0, "-04")
         } else {
          if i < 70 {
           Table::row(1283666400, -10800, 0, "-03")
          } else {
           Table::row(2147483647, -10800, 0, "-03")
          }
         }
        }
       }
      }
     }
    }
}

/// The rows of the table of the zone `Atlantic/Stanley`.
pub open spec fn stanley_rows() -> spec_fn(int) -> (i64, FixedTimespan) {
    |i: int| stanley_row(i)
}

/// The table of the zone `Atlantic/Stanley`.
pub open spec fn stanley() -> Table {
    Table::listed(Table::row(0, -13884, 0, "LMT").1, 71, stanley_rows())
}

} // verus!
