//! The tables of the zones of Europe.

use crate::timezone_impl::{FixedTimespan, Table};
use vstd::prelude::*;

verus! {

/// Row `i` of the table of the zone `Europe/Amsterdam`.
pub open spec fn amsterdam_row(i: int) -> (i64, FixedTimespan) {
    if i < 90 {
     if i < 45 {
      if i < 22 {
       if i < 11 {
        if i < 5 {
         if i < 2 {
          if i < 1 {
           Table::row(-4260212372, 1172, 0, "AMT")
          } else {
           Table::row(-1693700372, 1172, 3600, "NST")
          }
         } else {
          if i < 3 {
           Table::row(-1680484772, 1172, 0, "AMT")
          } else {
           if i < 4 {
            Table::row(-1663453172, 1172, 3600, "NST")
           } else {
            Table::row(-1650147572, 1172, 0, "AMT")
           }
          }
         }
        } else {
         if i < 8 {
          if i < 6 {
           Table::row(-1633213172, 1172, 3600, "NST")
          } else {
           if i < 7 {
            Table::row(-1617488372, 1172, 0, "AMT")
           } else {
            Table::row(-1601158772, 1172, 3600, "NST")
           }
          }
         } else {
          if i < 9 {
           Table::row(-1586038772, 1172, 0, "AMT")
          } else {
           if i < 10 {
            Table::row(-1569709172, 1172, 3600, "NST")
           } else {
            Table::row(-1554589172, 1172, 0, "AMT")
           }
          }
         }
        }
       } else {
        if i < 16 {
         if i < 13 {
          if i < 12 {
           Table::row(-1538259572, 1172, 3600, "NST")
          } else {
           Table::row(-1523139572, 1172, 0, "AMT")
          }
         } else {
          if i < 14 {
           Table::row(-1507501172, 1172, 3600, "NST")
          } else {
           if i < 15 {
            Table::row(-1490566772, 1172, 0, "AMT")
           } else {
            Table::row(-1470176372, 1172, 3600, "NST")
           }
          }
         }
        } else {
         if i < 19 {
          if i < 17 {
           Table::row(-1459117172, 1172, 0, "AMT")
          } else {
           if i < 18 {
            Table::row(-1443997172, 1172, 3600, "NST")
           } else {
            Table::row(-1427667572, 1172, 0, "AMT")
           }
          }
         } else {
          if i < 20 {
           Table::row(-1406672372, 1172, 3600, "NST")
          } else {
           if i < 21 {
            Table::row(-1396217972, 1172, 0, "AMT")
           } else {
            Table::row(-1376950772, 1172, 3600, "NST")
           }
          }
         }
        }
       }
      } else {
       if i < 33 {
        if i < 27 {
         if i < 24 {
          if i < 23 {
           Table::row(-1364768372, 1172, 0, "AMT")
          } else {
           Table::row(-1345414772, 1172, 3600, "NST")
          }
         } else {
          if i < 25 {
           Table::row(-1333318772, 1172, 0, "AMT")
          } else {
           if i < 26 {
            Table::row(-1313792372, 1172, 3600, "NST")
           } else {
            Table::row(-1301264372, 1172, 0, "AMT")
           }
          }
         }
        } else {
         if i < 30 {
          if i < 28 {
           Table::row(-1282256372, 1172, 3600, "NST")
          } else {
           if i < 29 {
            Table::row(-1269814772, 1172, 0, "AMT")
           } else {
            Table::row(-1250720372, 1172, 3600, "NST")
           }
          }
         } else {
          if i < 31 {
           Table::row(-1238365172, 1172, 0, "AMT")
          } else {
           if i < 32 {
            Table::row(-1219184372, 1172, 3600, "NST")
           } else {
            Table::row(-1206915572, 1172, 0, "AMT")
           }
          }
         }
        }
       } else {
        if i < 39 {
         if i < 36 {
          if i < 34 {
           Table::row(-1186957172, 1172, 3600, "NST")
          } else {
           if i < 35 {
            Table::row(-1175465972, 1172, 0, "AMT")
           } else {
            Table::row(-1156025972, 1172, 3600, "NST")
           }
          }
         } else {
          if i < 37 {
           Table::row(-1143411572, 1172, 0, "AMT")
          } else {
           if i < 38 {
            Table::row(-1124489972, 1172, 3600, "NST")
           } else {
            Table::row(-1111961972, 1172, 0, "AMT")
           }
          }
         }
        } else {
         if i < 42 {
          if i < 40 {
           Table::row(-1092953972, 1172, 3600, "NST")
          } else {
           if i < 41 {
            Table::row(-1080512372, 1172, 0, "AMT")
           } else {
            Table::row(-1061331572, 1172, 3600, "NST")
           }
          }
         } else {
          if i < 43 {
           Table::row(-1049062772, 1172, 0, "AMT")
          } else {
           if i < 44 {
            Table::row(-1029190772, 1172, 3600, "NST")
           } else {
            Table::row(-1025745572, 1172, 3628, "+0120")
           }
          }
         }
        }
       }
      }
     } else {
      if i < 67 {
       if i < 56 {
        if i < 50 {
         if i < 47 {
          if i < 46 {
           Table::row(-1017613200, 1200, 0, "+0020")
          } else {
           Table::row(-998259600, 1200, 3600, "+0120")
          }
         } else {
          if i < 48 {
           Table::row(-986163600, 1200, 0, "+0020")
          } else {
           if i < 49 {
            Table::row(-966723600, 1200, 3600, "+0120")
           } else {
            Table::row(-954109200, 1200, 0, "+0020")
           }
          }
         }
        } else {
         if i < 53 {
          if i < 51 {
           Table::row(-935022000, 1200, 6000, "CEST")
          } else {
           if i < 52 {
            Table::row(-857257200, 3600, 0, "CET")
           } else {
            Table::row(-844556400, 3600, 3600, "CEST")
           }
          }
         } else {
          if i < 54 {
           Table::row(-828226800, 3600, 0, "CET")
          } else {
           if i < 55 {
            Table::row(-812502000, 3600, 3600, "CEST")
           } else {
            Table::row(-796777200, 3600, 0, "CET")
           }
          }
         }
        }
       } else {
        if i < 61 {
         if i < 58 {
          if i < 57 {
           Table::row(-781052400, 3600, 3600, "CEST")
          } else {
           Table::row(-766623600, 3600, 0, "CET")
          }
         } else {
          if i < 59 {
           Table::row(228877200, 3600, 3600, "CEST")
          } else {
           if i < 60 {
            Table::row(243997200, 3600, 0, "CET")
           } else {
            Table::row(260326800, 3600, 3600, "CEST")
           }
          }
         }
        } else {
         if i < 64 {
          if i < 62 {
           Table::row(276051600, 3600, 0, "CET")
          } else {
           if i < 63 {
            Table::row(291776400, 3600, 3600, "CEST")
           } else {
            Table::row(307501200, 3600, 0, "CET")
           }
          }
         } else {
          if i < 65 {
           Table::row(323830800, 3600, 3600, "CEST")
          } else {
           if i < 66 {
            Table::row(338950800, 3600, 0, "CET")
           } else {
            Table::row(354675600, 3600, 3600, "CEST")
           }
          }
         }
        }
       }
      } else {
       if i < 78 {
        if i < 72 {
         if i < 69 {
          if i < 68 {
           Table::row(370400400, 3600, 0, "CET")
          } else {
           Table::row(386125200, 3600, 3600, "CEST")
          }
         } else {
          if i < 70 {
           Table::row(401850000, 3600, 0, "CET")
          } else {
           if i < 71 {
            Table::row(417574800, 3600, 3600, "CEST")
           } else {
            Table::row(433299600, 3600, 0, "CET")
           }
          }
         }
        } else {
         if i < 75 {
          if i < 73 {
           Table::row(449024400, 3600, 3600, "CEST")
          } else {
           if i < 74 {
            Table::row(465354000, 3600, 0, "CET")
           } else {
            Table::row(481078800, 3600, 3600, "CEST")
           }
          }
         } else {
          if i < 76 {
           Table::row(496803600, 3600, 0, "CET")
          } else {
           if i < 77 {
            Table::row(512528400, 3600, 3600, "CEST")
           } else {
            Table::row(528253200, 3600, 0, "CET")
           }
          }
         }
        }
       } else {
        if i < 84 {
         if i < 81 {
          if i < 79 {
           Table::row(543978000, 3600, 3600, "CEST")
          } else {
           if i < 80 {
            Table::row(559702800, 3600, 0, "CET")
           } else {
            Table::row(575427600, 3600, 3600, "CEST")
           }
          }
         } else {
          if i < 82 {
           Table::row(591152400, 3600, 0, "CET")
          } else {
           if i < 83 {
            Table::row(606877200, 3600, 3600, "CEST")
           } else {
            Table::row(622602000, 3600, 0, "CET")
           }
          }
         }
        } else {
         if i < 87 {
          if i < 85 {
           Table::row(638326800, 3600, 3600, "CEST")
          } else {
           if i < 86 {
            Table::row(654656400, 3600, 0, "CET")
           } else {
            Table::row(670381200, 3600, 3600, "CEST")
           }
          }
         } else {
          if i < 88 {
           Table::row(686106000, 3600, 0, "CET")
          } else {
           if i < 89 {
            Table::row(701830800, 3600, 3600, "CEST")
           } else {
            Table::row(717555600, 3600, 0, "CET")
           }
          }
         }
        }
       }
      }
     }
    } else {
     if i < 135 {
      if i < 112 {
       if i < 101 {
        if i < 95 {
         if i < 92 {
          if i < 91 {
           Table::row(733280400, 3600, 3600, "CEST")
          } else {
           Table::row(749005200, 3600, 0, "CET")
          }
         } else {
          if i < 93 {
           Table::row(764730000, 3600, 3600, "CEST")
          } else {
           if i < 94 {
            Table::row(780454800, 3600, 0, "CET")
           } else {
            Table::row(796179600, 3600, 3600, "CEST")
           }
          }
         }
        } else {
         if i < 98 {
          if i < 96 {
           Table::row(811904400, 3600, 0, "CET")
          } else {
           if i < 97 {
            Table::row(828234000, 3600, 3600, "CEST")
           } else {
            Table::row(846378000, 3600, 0, "CET")
           }
          }
         } else {
          if i < 99 {
           Table::row(859683600, 3600, 3600, "CEST")
          } else {
           if i < 100 {
            Table::row(877827600, 3600, 0, "CET")
           } else {
            Table::row(891133200, 3600, 3600, "CEST")
           }
          }
         }
        }
       } else {
        if i < 106 {
         if i < 103 {
          if i < 102 {
           Table::row(909277200, 3600, 0, "CET")
          } else {
           Table::row(922582800, 3600, 3600, "CEST")
          }
         } else {
          if i < 104 {
           Table::row(941331600, 3600, 0, "CET")
          } else {
           if i < 105 {
            Table::row(954032400, 3600, 3600, "CEST")
           } else {
            Table::row(972781200, 3600, 0, "CET")
           }
          }
         }
        } else {
         if i < 109 {
          if i < 107 {
           Table::row(985482000, 3600, 3600, "CEST")
          } else {
           if i < 108 {
            Table::row(1004230800, 3600, 0, "CET")
           } else {
            Table::row(1017536400, 3600, 3600, "CEST")
           }
          }
         } else {
          if i < 110 {
           Table::row(1035680400, 3600, 0, "CET")
          } else {
           if i < 111 {
            Table::row(1048986000, 3600, 3600, "CEST")
           } else {
            Table::row(1067130000, 3600, 0, "CET")
           }
          }
         }
        }
       }
      } else {
       if i < 123 {
        if i < 117 {
         if i < 114 {
          if i < 113 {
           Table::row(1080435600, 3600, 3600, "CEST")
          } else {
           Table::row(1099184400, 3600, 0, "CET")
          }
         } else {
          if i < 115 {
           Table::row(1111885200, 3600, 3600, "CEST")
          } else {
           if i < 116 {
            Table::row(1130634000, 3600, 0, "CET")
           } else {
            Table::row(1143334800, 3600, 3600, "CEST")
           }
          }
         }
        } else {
         if i < 120 {
          if i < 118 {
           Table::row(1162083600, 3600, 0, "CET")
          } else {
           if i < 119 {
            Table::row(1174784400, 3600, 3600, "CEST")
           } else {
            Table::row(1193533200, 3600, 0, "CET")
           }
          }
         } else {
          if i < 121 {
           Table::row(1206838800, 3600, 3600, "CEST")
          } else {
           if i < 122 {
            Table::row(1224982800, 3600, 0, "CET")
           } else {
            Table::row(1238288400, 3600, 3600, "CEST")
           }
          }
         }
        }
       } else {
        if i < 129 {
         if i < 126 {
          if i < 124 {
           Table::row(1256432400, 3600, 0, "CET")
          } else {
           if i < 125 {
            Table::row(1269738000, 3600, 3600, "CEST")
           } else {
            Table::row(1288486800, 3600, 0, "CET")
           }
          }
         } else {
          if i < 127 {
           Table::row(1301187600, 3600, 3600, "CEST")
          } else {
           if i < 128 {
            Table::row(1319936400, 3600, 0, "CET")
           } else {
            Table::row(1332637200, 3600, 3600, "CEST")
           }
          }
         }
        } else {
         if i < 132 {
          if i < 130 {
           Table::row(1351386000, 3600, 0, "CET")
          } else {
           if i < 131 {
            Table::row(1364691600, 3600, 3600, "CEST")
           } else {
            Table::row(1382835600, 3600, 0, "CET")
           }
          }
         } else {
          if i < 133 {
           Table::row(1396141200, 3600, 3600, "CEST")
          } else {
           if i < 134 {
            Table::row(1414285200, 3600, 0, "CET")
           } else {
            Table::row(1427590800, 3600, 3600, "CEST")
           }
          }
         }
        }
       }
      }
     } else {
      if i < 157 {
       if i < 146 {
        if i < 140 {
         if i < 137 {
          if i < 136 {
           Table::row(1445734800, 3600, 0, "CET")
          } else {
           Table::row(1459040400, 3600, 3600, "CEST")
          }
         } else {
          if i < 138 {
           Table::row(1477789200, 3600, 0, "CET")
          } else {
           if i < 139 {
            Table::row(1490490000, 3600, 3600, "CEST")
           } else {
            Table::row(1509238800, 3600, 0, "CET")
           }
          }
         }
        } else {
         if i < 143 {
          if i < 141 {
           Table::row(1521939600, 3600, 3600, "CEST")
          } else {
           if i < 142 {
            Table::row(1540688400, 3600, 0, "CET")
           } else {
            Table::row(1553994000, 3600, 3600, "CEST")
           }
          }
         } else {
          if i < 144 {
           Table::row(1572138000, 3600, 0, "CET")
          } else {
           if i < 145 {
            Table::row(1585443600, 3600, 3600, "CEST")
           } else {
            Table::row(1603587600, 3600, 0, "CET")
           }
          }
         }
        }
       } else {
        if i < 151 {
         if i < 148 {
          if i < 147 {
           Table::row(1616893200, 3600, 3600, "CEST")
          } else {
           Table::row(1635642000, 3600, 0, "CET")
          }
         } else {
          if i < 149 {
           Table::row(1648342800, 3600, 3600, "CEST")
          } else {
           if i < 150 {
            Table::row(1667091600, 3600, 0, "CET")
           } else {
            Table::row(1679792400, 3600, 3600, "CEST")
           }
          }
         }
        } else {
         if i < 154 {
          if i < 152 {
           Table::row(1698541200, 3600, 0, "CET")
          } else {
           if i < 153 {
            Table::row(1711846800, 3600, 3600, "CEST")
           } else {
            Table::row(1729990800, 3600, 0, "CET")
           }
          }
         } else {
          if i < 155 {
           Table::row(1743296400, 3600, 3600, "CEST")
          } else {
           if i < 156 {
            Table::row(1761440400, 3600, 0, "CET")
           } else {
            Table::row(1774746000, 3600, 3600, "CEST")
           }
          }
         }
        }
       }
      } else {
       if i < 168 {
        if i < 162 {
         if i < 159 {
          if i < 158 {
           Table::row(1792890000, 3600, 0, "CET")
          } else {
           Table::row(1806195600, 3600, 3600, "CEST")
          }
         } else {
          if i < 160 {
           Table::row(1824944400, 3600, 0, "CET")
          } else {
           if i < 161 {
            Table::row(1837645200, 3600, 3600, "CEST")
           } else {
            Table::row(1856394000, 3600, 0, "CET")
           }
          }
         }
        } else {
         if i < 165 {
          if i < 163 {
           Table::row(1869094800, 3600, 3600, "CEST")
          } else {
           if i < 164 {
            Table::row(1887843600, 3600, 0, "CET")
           } else {
            Table::row(1901149200, 3600, 3600, "CEST")
           }
          }
         } else {
          if i < 166 {
           Table::row(1919293200, 3600, 0, "CET")
          } else {
           if i < 167 {
            Table::row(1932598800, 3600, 3600, "CEST")
           } else {
            Table::row(1950742800, 3600, 0, "CET")
           }
          }
         }
        }
       } else {
        if i < 174 {
         if i < 171 {
          if i < 169 {
           Table::row(1964048400, 3600, 3600, "CEST")
          } else {
           if i < 170 {
            Table::row(1982797200, 3600, 0, "CET")
           } else {
            Table::row(1995498000, 3600, 3600, "CEST")
           }
          }
         } else {
          if i < 172 {
           Table::row(2014246800, 3600, 0, "CET")
          } else {
           if i < 173 {
            Table::row(2026947600, 3600, 3600, "CEST")
           } else {
            Table::row(2045696400, 3600, 0, "CET")
           }
          }
         }
        } else {
         if i < 177 {
          if i < 175 {
           Table::row(2058397200, 3600, 3600, "CEST")
          } else {
           if i < 176 {
            Table::row(2077146000, 3600, 0, "CET")
           } else {
            Table::row(2090451600, 3600, 3600, "CEST")
           }
          }
         } else {
          if i < 178 {
           Table::row(2108595600, 3600, 0, "CET")
          } else {
           if i < 179 {
            Table::row(2121901200, 3600, 3600, "CEST")
           } else {
            Table::row(2140045200, 3600, 0, "CET")
           }
          }
         }
        }
       }
      }
     }
    }
}

/// The rows of the table of the zone `Europe/Amsterdam`.
pub open spec fn amsterdam_rows() -> spec_fn(int) -> (i64, FixedTimespan) {
    |i: int| amsterdam_row(i)
}

/// The table of the zone `Europe/Amsterdam`.
pub open spec fn amsterdam() -> Table {
    Table::listed(Table::row(0, 1172, 0, "LMT").1, 180, amsterdam_rows())
}

/// Row `i` of the table of the zone `Europe/Andorra`.
pub open spec fn andorra_row(i: int) -> (i64, FixedTimespan) {
    if i < 54 {
     if i < 27 {
      if i < 13 {
       if i < 6 {
        if i < 3 {
         if i < 1 {
          Table::row(-2177453164, 0, 0, "WET")
         } else {
          if i < 2 {
           Table::row(-733881600, 3600, 0, "CET")
          } else {
           Table::row(481078800, 3600, 3600, "CEST")
          }
         }
        } else {
         if i < 4 {
          Table::row(496803600, 3600, 0, "CET")
         } else {
          if i < 5 {
           Table::row(512528400, 3600, 3600, "CEST")
          } else {
           Table::row(528253200, 3600, 0, "CET")
          }
         }
        }
       } else {
        if i < 9 {
         if i < 7 {
          Table::row(543978000, 3600, 3600, "CEST")
         } else {
          if i < 8 {
           Table::row(559702800, 3600, 0, "CET")
          } else {
           Table::row(575427600, 3600, 3600, "CEST")
          }
         }
        } else {
         if i < 11 {
          if i < 10 {
           Table::row(591152400, 3600, 0, "CET")
          } else {
           Table::row(606877200, 3600, 3600, "CEST")
          }
         } else {
          if i < 12 {
           Table::row(622602000, 3600, 0, "CET")
          } else {
           Table::row(638326800, 3600, 3600, "CEST")
          }
         }
        }
       }
      } else {
       if i < 20 {
        if i < 16 {
         if i < 14 {
          Table::row(654656400, 3600, 0, "CET")
         } else {
          if i < 15 {
           Table::row(670381200, 3600, 3600, "CEST")
          } else {
           Table::row(686106000, 3600, 0, "CET")
          }
         }
        } else {
         if i < 18 {
          if i < 17 {
           Table::row(701830800, 3600, 3600, "CEST")
          } else {
           Table::row(717555600, 3600, 0, "CET")
          }
         } else {
          if i < 19 {
           Table::row(733280400, 3600, 3600, "CEST")
          } else {
           Table::row(749005200, 3600, 0, "CET")
          }
         }
        }
       } else {
        if i < 23 {
         if i < 21 {
          Table::row(764730000, 3600, 3600, "CEST")
         } else {
          if i < 22 {
           Table::row(780454800, 3600, 0, "CET")
          } else {
           Table::row(796179600, 3600, 3600, "CEST")
          }
         }
        } else {
         if i < 25 {
          if i < 24 {
           Table::row(811904400, 3600, 0, "CET")
          } else {
           Table::row(828234000, 3600, 3600, "CEST")
          }
         } else {
          if i < 26 {
           Table::row(846378000, 3600, 0, "CET")
          } else {
           Table::row(859683600, 3600, 3600, "CEST")
          }
         }
        }
       }
      }
     } else {
      if i < 40 {
       if i < 33 {
        if i < 30 {
         if i < 28 {
          Table::row(877827600, 3600, 0, "CET")
         } else {
          if i < 29 {
           Table::row(891133200, 3600, 3600, "CEST")
          } else {
           Table::row(909277200, 3600, 0, "CET")
          }
         }
        } else {
         if i < 31 {
          Table::row(922582800, 3600, 3600, "CEST")
         } else {
          if i < 32 {
           Table::row(941331600, 3600, 0, "CET")
          } else {
           Table::row(954032400, 3600, 3600, "CEST")
          }
         }
        }
       } else {
        if i < 36 {
         if i < 34 {
          Table::row(972781200, 3600, 0, "CET")
         } else {
          if i < 35 {
           Table::row(985482000, 3600, 3600, "CEST")
          } else {
           Table::row(1004230800, 3600, 0, "CET")
          }
         }
        } else {
         if i < 38 {
          if i < 37 {
           Table::row(1017536400, 3600, 3600, "CEST")
          } else {
           Table::row(1035680400, 3600, 0, "CET")
          }
         } else {
          if i < 39 {
           Table::row(1048986000, 3600, 3600, "CEST")
          } else {
           Table::row(1067130000, 3600, 0, "CET")
          }
         }
        }
       }
      } else {
       if i < 47 {
        if i < 43 {
         if i < 41 {
          Table::row(1080435600, 3600, 3600, "CEST")
         } else {
          if i < 42 {
           Table::row(1099184400, 3600, 0, "CET")
          } else {
           Table::row(1111885200, 3600, 3600, "CEST")
          }
         }
        } else {
         if i < 45 {
          if i < 44 {
           Table::row(1130634000, 3600, 0, "CET")
          } else {
           Table::row(1143334800, 3600, 3600, "CEST")
          }
         } else {
          if i < 46 {
           Table::row(1162083600, 3600, 0, "CET")
          } else {
           Table::row(1174784400, 3600, 3600, "CEST")
          }
         }
        }
       } else {
        if i < 50 {
         if i < 48 {
          Table::row(1193533200, 3600, 0, "CET")
         } else {
          if i < 49 {
           Table::row(1206838800, 3600, 3600, "CEST")
          } else {
           Table::row(1224982800, 3600, 0, "CET")
          }
         }
        } else {
         if i < 52 {
          if i < 51 {
           Table::row(1238288400, 3600, 3600, "CEST")
          } else {
           Table::row(1256432400, 3600, 0, "CET")
          }
         } else {
          if i < 53 {
           Table::row(1269738000, 3600, 3600, "CEST")
          } else {
           Table::row(1288486800, 3600, 0, "CET")
          }
         }
        }
       }
      }
     }
    } else {
     if i < 81 {
      if i < 67 {
       if i < 60 {
        if i < 57 {
         if i < 55 {
          Table::row(1301187600, 3600, 3600, "CEST")
         } else {
          if i < 56 {
           Table::row(1319936400, 3600, 0, "CET")
          } else {
           Table::row(1332637200, 3600, 3600, "CEST")
          }
         }
        } else {
         if i < 58 {
          Table::row(1351386000, 3600, 0, "CET")
         } else {
          if i < 59 {
           Table::row(1364691600, 3600, 3600, "CEST")
          } else {
           Table::row(1382835600, 3600, 0, "CET")
          }
         }
        }
       } else {
        if i < 63 {
         if i < 61 {
          Table::row(1396141200, 3600, 3600, "CEST")
         } else {
          if i < 62 {
           Table::row(1414285200, 3600, 0, "CET")
          } else {
           Table::row(1427590800, 3600, 3600, "CEST")
          }
         }
        } else {
         if i < 65 {
          if i < 64 {
           Table::row(1445734800, 3600, 0, "CET")
          } else {
           Table::row(1459040400, 3600, 3600, "CEST")
          }
         } else {
          if i < 66 {
           Table::row(1477789200, 3600, 0, "CET")
          } else {
           Table::row(1490490000, 3600, 3600, "CEST")
          }
         }
        }
       }
      } else {
       if i < 74 {
        if i < 70 {
         if i < 68 {
          Table::row(1509238800, 3600, 0, "CET")
         } else {
          if i < 69 {
           Table::row(1521939600, 3600, 3600, "CEST")
          } else {
           Table::row(1540688400, 3600, 0, "CET")
          }
         }
        } else {
         if i < 72 {
          if i < 71 {
           Table::row(1553994000, 3600, 3600, "CEST")
          } else {
           Table::row(1572138000, 3600, 0, "CET")
          }
         } else {
          if i < 73 {
           Table::row(1585443600, 3600, 3600, "CEST")
          } else {
           Table::row(1603587600, 3600, 0, "CET")
          }
         }
        }
       } else {
        if i < 77 {
         if i < 75 {
          Table::row(1616893200, 3600, 3600, "CEST")
         } else {
          if i < 76 {
           Table::row(1635642000, 3600, 0, "CET")
          } else {
           Table::row(1648342800, 3600, 3600, "CEST")
          }
         }
        } else {
         if i < 79 {
          if i < 78 {
           Table::row(1667091600, 3600, 0, "CET")
          } else {
           Table::row(1679792400, 3600, 3600, "CEST")
          }
         } else {
          if i < 80 {
           Table::row(1698541200, 3600, 0, "CET")
          } else {
           Table::row(1711846800, 3600, 3600, "CEST")
          }
         }
        }
       }
      }
     } else {
      if i < 94 {
       if i < 87 {
        if i < 84 {
         if i < 82 {
          Table::row(1729990800, 3600, 0, "CET")
         } else {
          if i < 83 {
           Table::row(1743296400, 3600, 3600, "CEST")
          } else {
           Table::row(1761440400, 3600, 0, "CET")
          }
         }
        } else {
         if i < 85 {
          Table::row(1774746000, 3600, 3600, "CEST")
         } else {
          if i < 86 {
           Table::row(1792890000, 3600, 0, "CET")
          } else {
           Table::row(1806195600, 3600, 3600, "CEST")
          }
         }
        }
       } else {
        if i < 90 {
         if i < 88 {
          Table::row(1824944400, 3600, 0, "CET")
         } else {
          if i < 89 {
           Table::row(1837645200, 3600, 3600, "CEST")
          } else {
           Table::row(1856394000, 3600, 0, "CET")
          }
         }
        } else {
         if i < 92 {
          if i < 91 {
           Table::row(1869094800, 3600, 3600, "CEST")
          } else {
           Table::row(1887843600, 3600, 0, "CET")
          }
         } else {
          if i < 93 {
           Table::row(1901149200, 3600, 3600, "CEST")
          } else {
           Table::row(1919293200, 3600, 0, "CET")
          }
         }
        }
       }
      } else {
       if i < 101 {
        if i < 97 {
         if i < 95 {
          Table::row(1932598800, 3600, 3600, "CEST")
         } else {
          if i < 96 {
           Table::row(1950742800, 3600, 0, "CET")
          } else {
           Table::row(1964048400, 3600, 3600, "CEST")
          }
         }
        } else {
         if i < 99 {
          if i < 98 {
           Table::row(1982797200, 3600, 0, "CET")
          } else {
           Table::row(1995498000, 3600, 3600, "CEST")
          }
         } else {
          if i < 100 {
           Table::row(2014246800, 3600, 0, "CET")
          } else {
           Table::row(2026947600, 3600, 3600, "CEST")
          }
         }
        }
       } else {
        if i < 104 {
         if i < 102 {
          Table::row(2045696400, 3600, 0, "CET")
         } else {
          if i < 103 {
           Table::row(2058397200, 3600, 3600, "CEST")
          } else {
           Table::row(2077146000, 3600, 0, "CET")
          }
         }
        } else {
         if i < 106 {
          if i < 105 {
           Table::row(2090451600, 3600, 3600, "CEST")
          } else {
           Table::row(2108595600, 3600, 0, "CET")
          }
         } else {
          if i < 107 {
           Table::row(2121901200, 3600, 3600, "CEST")
          } else {
           Table::row(2140045200, 3600, 0, "CET")
          }
         }
        }
       }
      }
     }
    }
}

/// The rows of the table of the zone `Europe/Andorra`.
pub open spec fn andorra_rows() -> spec_fn(int) -> (i64, FixedTimespan) {
    |i: int| andorra_row(i)
}

/// The table of the zone `Europe/Andorra`.
pub open spec fn andorra() -> Table {
    Table::listed(Table::row(0, 364, 0, "LMT").1, 108, andorra_rows())
}

/// Row `i` of the table of the zone `Europe/Astrakhan`.
pub open spec fn astrakhan_row(i: int) -> (i64, FixedTimespan) {
    if i < 32 {
     if i < 16 {
      if i < 8 {
       if i < 4 {
        if i < 2 {
         if i < 1 {
          Table::row(-1441249932, 10800, 0, "+03")
         } else {
          Table::row(-1247540400, 14400, 0, "+04")
         }
        } else {
         if i < 3 {
          Table::row(354916800, 14400, 3600, "+05")
         } else {
          Table::row(370724400, 14400, 0, "+04")
         }
        }
       } else {
        if i < 6 {
         if i < 5 {
          Table::row(386452800, 14400, 3600, "+05")
         } else {
          Table::row(402260400, 14400, 0, "+04")
         }
        } else {
         if i < 7 {
          Table::row(417988800, 14400, 3600, "+05")
         } else {
          Table::row(433796400, 14400, 0, "+04")
         }
        }
       }
      } else {
       if i < 12 {
        if i < 10 {
         if i < 9 {
          Table::row(449611200, 14400, 3600, "+05")
         } else {
          Table::row(465343200, 14400, 0, "+04")
         }
        } else {
         if i < 11 {
          Table::row(481068000, 14400, 3600, "+05")
         } else {
          Table::row(496792800, 14400, 0, "+04")
         }
        }
       } else {
        if i < 14 {
         if i < 13 {
          Table::row(512517600, 14400, 3600, "+05")
         } else {
          Table::row(528242400, 14400, 0, "+04")
         }
        } else {
         if i < 15 {
          Table::row(543967200, 14400, 3600, "+05")
         } else {
          Table::row(559692000, 14400, 0, "+04")
         }
        }
       }
      }
     } else {
      if i < 24 {
       if i < 20 {
        if i < 18 {
         if i < 17 {
          Table::row(575416800, 14400, 3600, "+05")
         } else {
          Table::row(591141600, 14400, 0, "+04")
         }
        } else {
         if i < 19 {
          Table::row(606866400, 10800, 3600, "+04")
         } else {
          Table::row(622594800, 10800, 0, "+03")
         }
        }
       } else {
        if i < 22 {
         if i < 21 {
          Table::row(638319600, 10800, 3600, "+04")
         } else {
          Table::row(654649200, 10800, 0, "+03")
         }
        } else {
         if i < 23 {
          Table::row(670374000, 14400, 0, "+04")
         } else {
          Table::row(701820000, 10800, 3600, "+04")
         }
        }
       }
      } else {
       if i < 28 {
        if i < 26 {
         if i < 25 {
          Table::row(717548400, 10800, 0, "+03")
         } else {
          Table::row(733273200, 10800, 3600, "+04")
         }
        } else {
         if i < 27 {
          Table::row(748998000, 10800, 0, "+03")
         } else {
          Table::row(764722800, 10800, 3600, "+04")
         }
        }
       } else {
        if i < 30 {
         if i < 29 {
          Table::row(780447600, 10800, 0, "+03")
         } else {
          Table::row(796172400, 10800, 3600, "+04")
         }
        } else {
         if i < 31 {
          Table::row(811897200, 10800, 0, "+03")
         } else {
          Table::row(828226800, 10800, 3600, "+04")
         }
        }
       }
      }
     }
    } else {
     if i < 48 {
      if i < 40 {
       if i < 36 {
        if i < 34 {
         if i < 33 {
          Table::row(846370800, 10800, 0, "+03")
         } else {
          Table::row(859676400, 10800, 3600, "+04")
         }
        } else {
         if i < 35 {
          Table::row(877820400, 10800, 0, "+03")
         } else {
          Table::row(891126000, 10800, 3600, "+04")
         }
        }
       } else {
        if i < 38 {
         if i < 37 {
          Table::row(909270000, 10800, 0, "+03")
         } else {
          Table::row(922575600, 10800, 3600, "+04")
         }
        } else {
         if i < 39 {
          Table::row(941324400, 10800, 0, "+03")
         } else {
          Table::row(954025200, 10800, 3600, "+04")
         }
        }
       }
      } else {
       if i < 44 {
        if i < 42 {
         if i < 41 {
          Table::row(972774000, 10800, 0, "+03")
         } else {
          Table::row(985474800, 10800, 3600, "+04")
         }
        } else {
         if i < 43 {
          Table::row(1004223600, 10800, 0, "+03")
         } else {
          Table::row(1017529200, 10800, 3600, "+04")
         }
        }
       } else {
        if i < 46 {
         if i < 45 {
          Table::row(1035673200, 10800, 0, "+03")
         } else {
          Table::row(1048978800, 10800, 3600, "+04")
         }
        } else {
         if i < 47 {
          Table::row(1067122800, 10800, 0, "+03")
         } else {
          Table::row(1080428400, 10800, 3600, "+04")
         }
        }
       }
      }
     } else {
      if i < 56 {
       if i < 52 {
        if i < 50 {
         if i < 49 {
          Table::row(1099177200, 10800, 0, "+03")
         } else {
          Table::row(1111878000, 10800, 3600, "+04")
         }
        } else {
         if i < 51 {
          Table::row(1130626800, 10800, 0, "+03")
         } else {
          Table::row(1143327600, 10800, 3600, "+04")
         }
        }
       } else {
        if i < 54 {
         if i < 53 {
          Table::row(1162076400, 10800, 0, "+03")
         } else {
          Table::row(1174777200, 10800, 3600, "+04")
         }
        } else {
         if i < 55 {
          Table::row(1193526000, 10800, 0, "+03")
         } else {
          Table::row(1206831600, 10800, 3600, "+04")
         }
        }
       }
      } else {
       if i < 60 {
        if i < 58 {
         if i < 57 {
          Table::row(1224975600, 10800, 0, "+03")
         } else {
          Table::row(1238281200, 10800, 3600, "+04")
         }
        } else {
         if i < 59 {
          Table::row(1256425200, 10800, 0, "+03")
         } else {
          Table::row(1269730800, 10800, 3600, "+04")
         }
        }
       } else {
        if i < 62 {
         if i < 61 {
          Table::row(1288479600, 10800, 0, "+03")
         } else {
          Table::row(1301180400, 14400, 0, "+04")
         }
        } else {
         if i < 63 {
          Table::row(1414274400, 10800, 0, "+03")
         } else {
          if i < 64 {
           Table::row(1459033200, 14400, 0, "+04")
          } else {
           Table::row(2147483647, 14400, 0, "+04")
          }
         }
        }
       }
      }
     }
    }
}

/// The rows of the table of the zone `Europe/Astrakhan`.
pub open spec fn astrakhan_rows() -> spec_fn(int) -> (i64, FixedTimespan) {
    |i: int| astrakhan_row(i)
}

/// The table of the zone `Europe/Astrakhan`.
pub open spec fn astrakhan() -> Table {
    Table::listed(Table::row(0, 11532, 0, "LMT").1, 65, astrakhan_rows())
}

/// Row `i` of the table of the zone `Europe/Athens`.
pub open spec fn athens_row(i: int) -> (i64, FixedTimespan) {
    if i < 69 {
     if i < 34 {
      if i < 17 {
       if i < 8 {
        if i < 4 {
         if i < 2 {
          if i < 1 {
           Table::row(-2344642492, 5692, 0, "AMT")
          } else {
           Table::row(-1686101632, 7200, 0, "EET")
          }
         } else {
          if i < 3 {
           Table::row(-1182996000, 7200, 3600, "EEST")
          } else {
           Table::row(-1178161200, 7200, 0, "EET")
          }
         }
        } else {
         if i < 6 {
          if i < 5 {
           Table::row(-906861600, 7200, 3600, "EEST")
          } else {
           Table::row(-904878000, 3600, 3600, "CEST")
          }
         } else {
          if i < 7 {
           Table::row(-857257200, 3600, 0, "CET")
          } else {
           Table::row(-844477200, 3600, 3600, "CEST")
          }
         }
        }
       } else {
        if i < 12 {
         if i < 10 {
          if i < 9 {
           Table::row(-828237600, 3600, 0, "CET")
          } else {
           Table::row(-812422800, 7200, 0, "EET")
          }
         } else {
          if i < 11 {
           Table::row(-552362400, 7200, 3600, "EEST")
          } else {
           Table::row(-541652400, 7200, 0, "EET")
          }
         }
        } else {
         if i < 14 {
          if i < 13 {
           Table::row(166485600, 7200, 3600, "EEST")
          } else {
           Table::row(186184800, 7200, 0, "EET")
          }
         } else {
          if i < 15 {
           Table::row(198028800, 7200, 3600, "EEST")
          } else {
           if i < 16 {
            Table::row(213753600, 7200, 0, "EET")
           } else {
            Table::row(228873600, 7200, 3600, "EEST")
           }
          }
         }
        }
       }
      } else {
       if i < 25 {
        if i < 21 {
         if i < 19 {
          if i < 18 {
           Table::row(244080000, 7200, 0, "EET")
          } else {
           Table::row(260323200, 7200, 3600, "EEST")
          }
         } else {
          if i < 20 {
           Table::row(275446800, 7200, 0, "EET")
          } else {
           Table::row(291798000, 7200, 3600, "EEST")
          }
         }
        } else {
         if i < 23 {
          if i < 22 {
           Table::row(307407600, 7200, 0, "EET")
          } else {
           Table::row(323388000, 7200, 3600, "EEST")
          }
         } else {
          if i < 24 {
           Table::row(338936400, 7200, 0, "EET")
          } else {
           Table::row(354675600, 7200, 3600, "EEST")
          }
         }
        }
       } else {
        if i < 29 {
         if i < 27 {
          if i < 26 {
           Table::row(370400400, 7200, 0, "EET")
          } else {
           Table::row(386125200, 7200, 3600, "EEST")
          }
         } else {
          if i < 28 {
           Table::row(401850000, 7200, 0, "EET")
          } else {
           Table::row(417574800, 7200, 3600, "EEST")
          }
         }
        } else {
         if i < 31 {
          if i < 30 {
           Table::row(433299600, 7200, 0, "EET")
          } else {
           Table::row(449024400, 7200, 3600, "EEST")
          }
         } else {
          if i < 32 {
           Table::row(465354000, 7200, 0, "EET")
          } else {
           if i < 33 {
            Table::row(481078800, 7200, 3600, "EEST")
           } else {
            Table::row(496803600, 7200, 0, "EET")
           }
          }
         }
        }
       }
      }
     } else {
      if i < 51 {
       if i < 42 {
        if i < 38 {
         if i < 36 {
          if i < 35 {
           Table::row(512528400, 7200, 3600, "EEST")
          } else {
           Table::row(528253200, 7200, 0, "EET")
          }
         } else {
          if i < 37 {
           Table::row(543978000, 7200, 3600, "EEST")
          } else {
           Table::row(559702800, 7200, 0, "EET")
          }
         }
        } else {
         if i < 40 {
          if i < 39 {
           Table::row(575427600, 7200, 3600, "EEST")
          } else {
           Table::row(591152400, 7200, 0, "EET")
          }
         } else {
          if i < 41 {
           Table::row(606877200, 7200, 3600, "EEST")
          } else {
           Table::row(622602000, 7200, 0, "EET")
          }
         }
        }
       } else {
        if i < 46 {
         if i < 44 {
          if i < 43 {
           Table::row(638326800, 7200, 3600, "EEST")
          } else {
           Table::row(654656400, 7200, 0, "EET")
          }
         } else {
          if i < 45 {
           Table::row(670381200, 7200, 3600, "EEST")
          } else {
           Table::row(686106000, 7200, 0, "EET")
          }
         }
        } else {
         if i < 48 {
          if i < 47 {
           Table::row(701830800, 7200, 3600, "EEST")
          } else {
           Table::row(717555600, 7200, 0, "EET")
          }
         } else {
          if i < 49 {
           Table::row(733280400, 7200, 3600, "EEST")
          } else {
           if i < 50 {
            Table::row(749005200, 7200, 0, "EET")
           } else {
            Table::row(764730000, 7200, 3600, "EEST")
           }
          }
         }
        }
       }
      } else {
       if i < 60 {
        if i < 55 {
         if i < 53 {
          if i < 52 {
           Table::row(780454800, 7200, 0, "EET")
          } else {
           Table::row(796179600, 7200, 3600, "EEST")
          }
         } else {
          if i < 54 {
           Table::row(811904400, 7200, 0, "EET")
          } else {
           Table::row(828234000, 7200, 3600, "EEST")
          }
         }
        } else {
         if i < 57 {
          if i < 56 {
           Table::row(846378000, 7200, 0, "EET")
          } else {
           Table::row(859683600, 7200, 3600, "EEST")
          }
         } else {
          if i < 58 {
           Table::row(877827600, 7200, 0, "EET")
          } else {
           if i < 59 {
            Table::row(891133200, 7200, 3600, "EEST")
           } else {
            Table::row(909277200, 7200, 0, "EET")
           }
          }
         }
        }
       } else {
        if i < 64 {
         if i < 62 {
          if i < 61 {
           Table::row(922582800, 7200, 3600, "EEST")
          } else {
           Table::row(941331600, 7200, 0, "EET")
          }
         } else {
          if i < 63 {
           Table::row(954032400, 7200, 3600, "EEST")
          } else {
           Table::row(972781200, 7200, 0, "EET")
          }
         }
        } else {
         if i < 66 {
          if i < 65 {
           Table::row(985482000, 7200, 3600, "EEST")
          } else {
           Table::row(1004230800, 7200, 0, "EET")
          }
         } else {
          if i < 67 {
           Table::row(1017536400, 7200, 3600, "EEST")
          } else {
           if i < 68 {
            Table::row(1035680400, 7200, 0, "EET")
           } else {
            Table::row(1048986000, 7200, 3600, "EEST")
           }
          }
         }
        }
       }
      }
     }
    } else {
     if i < 103 {
      if i < 86 {
       if i < 77 {
        if i < 73 {
         if i < 71 {
          if i < 70 {
           Table::row(1067130000, 7200, 0, "EET")
          } else {
           Table::row(1080435600, 7200, 3600, "EEST")
          }
         } else {
          if i < 72 {
           Table::row(1099184400, 7200, 0, "EET")
          } else {
           Table::row(1111885200, 7200, 3600, "EEST")
          }
         }
        } else {
         if i < 75 {
          if i < 74 {
           Table::row(1130634000, 7200, 0, "EET")
          } else {
           Table::row(1143334800, 7200, 3600, "EEST")
          }
         } else {
          if i < 76 {
           Table::row(1162083600, 7200, 0, "EET")
          } else {
           Table::row(1174784400, 7200, 3600, "EEST")
          }
         }
        }
       } else {
        if i < 81 {
         if i < 79 {
          if i < 78 {
           Table::row(1193533200, 7200, 0, "EET")
          } else {
           Table::row(1206838800, 7200, 3600, "EEST")
          }
         } else {
          if i < 80 {
           Table::row(1224982800, 7200, 0, "EET")
          } else {
           Table::row(1238288400, 7200, 3600, "EEST")
          }
         }
        } else {
         if i < 83 {
          if i < 82 {
           Table::row(1256432400, 7200, 0, "EET")
          } else {
           Table::row(1269738000, 7200, 3600, "EEST")
          }
         } else {
          if i < 84 {
           Table::row(1288486800, 7200, 0, "EET")
          } else {
           if i < 85 {
            Table::row(1301187600, 7200, 3600, "EEST")
           } else {
            Table::row(1319936400, 7200, 0, "EET")
           }
          }
         }
        }
       }
      } else {
       if i < 94 {
        if i < 90 {
         if i < 88 {
          if i < 87 {
           Table::row(1332637200, 7200, 3600, "EEST")
          } else {
           Table::row(1351386000, 7200, 0, "EET")
          }
         } else {
          if i < 89 {
           Table::row(1364691600, 7200, 3600, "EEST")
          } else {
           Table::row(1382835600, 7200, 0, "EET")
          }
         }
        } else {
         if i < 92 {
          if i < 91 {
           Table::row(1396141200, 7200, 3600, "EEST")
          } else {
           Table::row(1414285200, 7200, 0, "EET")
          }
         } else {
          if i < 93 {
           Table::row(1427590800, 7200, 3600, "EEST")
          } else {
           Table::row(1445734800, 7200, 0, "EET")
          }
         }
        }
       } else {
        if i < 98 {
         if i < 96 {
          if i < 95 {
           Table::row(1459040400, 7200, 3600, "EEST")
          } else {
           Table::row(1477789200, 7200, 0, "EET")
          }
         } else {
          if i < 97 {
           Table::row(1490490000, 7200, 3600, "EEST")
          } else {
           Table::row(1509238800, 7200, 0, "EET")
          }
         }
        } else {
         if i < 100 {
          if i < 99 {
           Table::row(1521939600, 7200, 3600, "EEST")
          } else {
           Table::row(1540688400, 7200, 0, "EET")
          }
         } else {
          if i < 101 {
           Table::row(1553994000, 7200, 3600, "EEST")
          } else {
           if i < 102 {
            Table::row(1572138000, 7200, 0, "EET")
           } else {
            Table::row(1585443600, 7200, 3600, "EEST")
           }
          }
         }
        }
       }
      }
     } else {
      if i < 120 {
       if i < 111 {
        if i < 107 {
         if i < 105 {
          if i < 104 {
           Table::row(1603587600, 7200, 0, "EET")
          } else {
           Table::row(1616893200, 7200, 3600, "EEST")
          }
         } else {
          if i < 106 {
           Table::row(1635642000, 7200, 0, "EET")
          } else {
           Table::row(1648342800, 7200, 3600, "EEST")
          }
         }
        } else {
         if i < 109 {
          if i < 108 {
           Table::row(1667091600, 7200, 0, "EET")
          } else {
           Table::row(1679792400, 7200, 3600, "EEST")
          }
         } else {
          if i < 110 {
           Table::row(1698541200, 7200, 0, "EET")
          } else {
           Table::row(1711846800, 7200, 3600, "EEST")
          }
         }
        }
       } else {
        if i < 115 {
         if i < 113 {
          if i < 112 {
           Table::row(1729990800, 7200, 0, "EET")
          } else {
           Table::row(1743296400, 7200, 3600, "EEST")
          }
         } else {
          if i < 114 {
           Table::row(1761440400, 7200, 0, "EET")
          } else {
           Table::row(1774746000, 7200, 3600, "EEST")
          }
         }
        } else {
         if i < 117 {
          if i < 116 {
           Table::row(1792890000, 7200, 0, "EET")
          } else {
           Table::row(1806195600, 7200, 3600, "EEST")
          }
         } else {
          if i < 118 {
           Table::row(1824944400, 7200, 0, "EET")
          } else {
           if i < 119 {
            Table::row(1837645200, 7200, 3600, "EEST")
           } else {
            Table::row(1856394000, 7200, 0, "EET")
           }
          }
         }
        }
       }
      } else {
       if i < 129 {
        if i < 124 {
         if i < 122 {
          if i < 121 {
           Table::row(1869094800, 7200, 3600, "EEST")
          } else {
           Table::row(1887843600, 7200, 0, "EET")
          }
         } else {
          if i < 123 {
           Table::row(1901149200, 7200, 3600, "EEST")
          } else {
           Table::row(1919293200, 7200, 0, "EET")
          }
         }
        } else {
         if i < 126 {
          if i < 125 {
           Table::row(1932598800, 7200, 3600, "EEST")
          } else {
           Table::row(1950742800, 7200, 0, "EET")
          }
         } else {
          if i < 127 {
           Table::row(1964048400, 7200, 3600, "EEST")
          } else {
           if i < 128 {
            Table::row(1982797200, 7200, 0, "EET")
           } else {
            Table::row(1995498000, 7200, 3600, "EEST")
           }
          }
         }
        }
       } else {
        if i < 133 {
         if i < 131 {
          if i < 130 {
           Table::row(2014246800, 7200, 0, "EET")
          } else {
           Table::row(2026947600, 7200, 3600, "EEST")
          }
         } else {
          if i < 132 {
           Table::row(2045696400, 7200, 0, "EET")
          } else {
           Table::row(2058397200, 7200, 3600, "EEST")
          }
         }
        } else {
         if i < 135 {
          if i < 134 {
           Table::row(2077146000, 7200, 0, "EET")
          } else {
           Table::row(2090451600, 7200, 3600, "EEST")
          }
         } else {
          if i < 136 {
           Table::row(2108595600, 7200, 0, "EET")
          } else {
           if i < 137 {
            Table::row(2121901200, 7200, 3600, "EEST")
           } else {
            Table::row(2140045200, 7200, 0, "EET")
           }
          }
         }
        }
       }
      }
     }
    }
}

/// The rows of the table of the zone `Europe/Athens`.
pub open spec fn athens_rows() -> spec_fn(int) -> (i64, FixedTimespan) {
    |i: int| athens_row(i)
}

/// The table of the zone `Europe/Athens`.
pub open spec fn athens() -> Table {
    Table::listed(Table::row(0, 5692, 0, "LMT").1, 138, athens_rows())
}

/// Row `i` of the table of the zone `Europe/Belfast`.
pub open spec fn belfast_row(i: int) -> (i64, FixedTimespan) {
    if i < 121 {
     if i < 60 {
      if i < 30 {
       if i < 15 {
        if i < 7 {
         if i < 3 {
          if i < 1 {
           Table::row(-3852662325, 0, 0, "GMT")
          } else {
           if i < 2 {
            Table::row(-1691964000, 0, 3600, "BST")
           } else {
            Table::row(-1680472800, 0, 0, "GMT")
           }
          }
         } else {
          if i < 5 {
           if i < 4 {
            Table::row(-1664143200, 0, 3600, "BST")
           } else {
            Table::row(-1650146400, 0, 0, "GMT")
           }
          } else {
           if i < 6 {
            Table::row(-1633903200, 0, 3600, "BST")
           } else {
            Table::row(-1617487200, 0, 0, "GMT")
           }
          }
         }
        } else {
         if i < 11 {
          if i < 9 {
           if i < 8 {
            Table::row(-1601848800, 0, 3600, "BST")
           } else {
            Table::row(-1586037600, 0, 0, "GMT")
           }
          } else {
           if i < 10 {
            Table::row(-1570399200, 0, 3600, "BST")
           } else {
            Table::row(-1552168800, 0, 0, "GMT")
           }
          }
         } else {
          if i < 13 {
           if i < 12 {
            Table::row(-1538344800, 0, 3600, "BST")
           } else {
            Table::row(-1522533600, 0, 0, "GMT")
           }
          } else {
           if i < 14 {
            Table::row(-1507500000, 0, 3600, "BST")
           } else {
            Table::row(-1490565600, 0, 0, "GMT")
           }
          }
         }
        }
       } else {
        if i < 22 {
         if i < 18 {
          if i < 16 {
           Table::row(-1473631200, 0, 3600, "BST")
          } else {
           if i < 17 {
            Table::row(-1460930400, 0, 0, "GMT")
           } else {
            Table::row(-1442786400, 0, 3600, "BST")
           }
          }
         } else {
          if i < 20 {
           if i < 19 {
            Table::row(-1428876000, 0, 0, "GMT")
           } else {
            Table::row(-1410732000, 0, 3600, "BST")
           }
          } else {
           if i < 21 {
            Table::row(-1396216800, 0, 0, "GMT")
           } else {
            Table::row(-1379282400, 0, 3600, "BST")
           }
          }
         }
        } else {
         if i < 26 {
          if i < 24 {
           if i < 23 {
            Table::row(-1364767200, 0, 0, "GMT")
           } else {
            Table::row(-1348437600, 0, 3600, "BST")
           }
          } else {
           if i < 25 {
            Table::row(-1333317600, 0, 0, "GMT")
           } else {
            Table::row(-1315778400, 0, 3600, "BST")
           }
          }
         } else {
          if i < 28 {
           if i < 27 {
            Table::row(-1301263200, 0, 0, "GMT")
           } else {
            Table::row(-1284328800, 0, 3600, "BST")
           }
          } else {
           if i < 29 {
            Table::row(-1269813600, 0, 0, "GMT")
           } else {
            Table::row(-1253484000, 0, 3600, "BST")
           }
          }
         }
        }
       }
      } else {
       if i < 45 {
        if i < 37 {
         if i < 33 {
          if i < 31 {
           Table::row(-1238364000, 0, 0, "GMT")
          } else {
           if i < 32 {
            Table::row(-1221429600, 0, 3600, "BST")
           } else {
            Table::row(-1206914400, 0, 0, "GMT")
           }
          }
         } else {
          if i < 35 {
           if i < 34 {
            Table::row(-1189980000, 0, 3600, "BST")
           } else {
            Table::row(-1175464800, 0, 0, "GMT")
           }
          } else {
           if i < 36 {
            Table::row(-1159135200, 0, 3600, "BST")
           } else {
            Table::row(-1143410400, 0, 0, "GMT")
           }
          }
         }
        } else {
         if i < 41 {
          if i < 39 {
           if i < 38 {
            Table::row(-1126476000, 0, 3600, "BST")
           } else {
            Table::row(-1111960800, 0, 0, "GMT")
           }
          } else {
           if i < 40 {
            Table::row(-1095631200, 0, 3600, "BST")
           } else {
            Table::row(-1080511200, 0, 0, "GMT")
           }
          }
         } else {
          if i < 43 {
           if i < 42 {
            Table::row(-1063576800, 0, 3600, "BST")
           } else {
            Table::row(-1049061600, 0, 0, "GMT")
           }
          } else {
           if i < 44 {
            Table::row(-1032127200, 0, 3600, "BST")
           } else {
            Table::row(-1017612000, 0, 0, "GMT")
           }
          }
         }
        }
       } else {
        if i < 52 {
         if i < 48 {
          if i < 46 {
           Table::row(-1001282400, 0, 3600, "BST")
          } else {
           if i < 47 {
            Table::row(-986162400, 0, 0, "GMT")
           } else {
            Table::row(-969228000, 0, 3600, "BST")
           }
          }
         } else {
          if i < 50 {
           if i < 49 {
            Table::row(-950479200, 0, 0, "GMT")
           } else {
            Table::row(-942012000, 0, 3600, "BST")
           }
          } else {
           if i < 51 {
            Table::row(-904518000, 0, 7200, "BDST")
           } else {
            Table::row(-896050800, 0, 3600, "BST")
           }
          }
         }
        } else {
         if i < 56 {
          if i < 54 {
           if i < 53 {
            Table::row(-875487600, 0, 7200, "BDST")
           } else {
            Table::row(-864601200, 0, 3600, "BST")
           }
          } else {
           if i < 55 {
            Table::row(-844038000, 0, 7200, "BDST")
           } else {
            Table::row(-832546800, 0, 3600, "BST")
           }
          }
         } else {
          if i < 58 {
           if i < 57 {
            Table::row(-812588400, 0, 7200, "BDST")
           } else {
            Table::row(-798073200, 0, 3600, "BST")
           }
          } else {
           if i < 59 {
            Table::row(-781052400, 0, 7200, "BDST")
           } else {
            Table::row(-772066800, 0, 3600, "BST")
           }
          }
         }
        }
       }
      }
     } else {
      if i < 90 {
       if i < 75 {
        if i < 67 {
         if i < 63 {
          if i < 61 {
           Table::row(-764805600, 0, 0, "GMT")
          } else {
           if i < 62 {
            Table::row(-748476000, 0, 3600, "BST")
           } else {
            Table::row(-733356000, 0, 0, "GMT")
           }
          }
         } else {
          if i < 65 {
           if i < 64 {
            Table::row(-719445600, 0, 3600, "BST")
           } else {
            Table::row(-717030000, 0, 7200, "BDST")
           }
          } else {
           if i < 66 {
            Table::row(-706748400, 0, 3600, "BST")
           } else {
            Table::row(-699487200, 0, 0, "GMT")
           }
          }
         }
        } else {
         if i < 71 {
          if i < 69 {
           if i < 68 {
            Table::row(-687996000, 0, 3600, "BST")
           } else {
            Table::row(-668037600, 0, 0, "GMT")
           }
          } else {
           if i < 70 {
            Table::row(-654732000, 0, 3600, "BST")
           } else {
            Table::row(-636588000, 0, 0, "GMT")
           }
          }
         } else {
          if i < 73 {
           if i < 72 {
            Table::row(-622072800, 0, 3600, "BST")
           } else {
            Table::row(-605743200, 0, 0, "GMT")
           }
          } else {
           if i < 74 {
            Table::row(-590623200, 0, 3600, "BST")
           } else {
            Table::row(-574293600, 0, 0, "GMT")
           }
          }
         }
        }
       } else {
        if i < 82 {
         if i < 78 {
          if i < 76 {
           Table::row(-558568800, 0, 3600, "BST")
          } else {
           if i < 77 {
            Table::row(-542239200, 0, 0, "GMT")
           } else {
            Table::row(-527119200, 0, 3600, "BST")
           }
          }
         } else {
          if i < 80 {
           if i < 79 {
            Table::row(-512604000, 0, 0, "GMT")
           } else {
            Table::row(-496274400, 0, 3600, "BST")
           }
          } else {
           if i < 81 {
            Table::row(-481154400, 0, 0, "GMT")
           } else {
            Table::row(-464220000, 0, 3600, "BST")
           }
          }
         }
        } else {
         if i < 86 {
          if i < 84 {
           if i < 83 {
            Table::row(-449704800, 0, 0, "GMT")
           } else {
            Table::row(-432165600, 0, 3600, "BST")
           }
          } else {
           if i < 85 {
            Table::row(-417650400, 0, 0, "GMT")
           } else {
            Table::row(-401320800, 0, 3600, "BST")
           }
          }
         } else {
          if i < 88 {
           if i < 87 {
            Table::row(-386200800, 0, 0, "GMT")
           } else {
            Table::row(-369266400, 0, 3600, "BST")
           }
          } else {
           if i < 89 {
            Table::row(-354751200, 0, 0, "GMT")
           } else {
            Table::row(-337816800, 0, 3600, "BST")
           }
          }
         }
        }
       }
      } else {
       if i < 105 {
        if i < 97 {
         if i < 93 {
          if i < 91 {
           Table::row(-323301600, 0, 0, "GMT")
          } else {
           if i < 92 {
            Table::row(-306972000, 0, 3600, "BST")
           } else {
            Table::row(-291852000, 0, 0, "GMT")
           }
          }
         } else {
          if i < 95 {
           if i < 94 {
            Table::row(-276732000, 0, 3600, "BST")
           } else {
            Table::row(-257983200, 0, 0, "GMT")
           }
          } else {
           if i < 96 {
            Table::row(-245282400, 0, 3600, "BST")
           } else {
            Table::row(-226533600, 0, 0, "GMT")
           }
          }
         }
        } else {
         if i < 101 {
          if i < 99 {
           if i < 98 {
            Table::row(-213228000, 0, 3600, "BST")
           } else {
            Table::row(-195084000, 0, 0, "GMT")
           }
          } else {
           if i < 100 {
            Table::row(-182383200, 0, 3600, "BST")
           } else {
            Table::row(-163634400, 0, 0, "GMT")
           }
          }
         } else {
          if i < 103 {
           if i < 102 {
            Table::row(-150933600, 0, 3600, "BST")
           } else {
            Table::row(-132184800, 0, 0, "GMT")
           }
          } else {
           if i < 104 {
            Table::row(-119484000, 0, 3600, "BST")
           } else {
            Table::row(-100735200, 0, 0, "GMT")
           }
          }
         }
        }
       } else {
        if i < 113 {
         if i < 109 {
          if i < 107 {
           if i < 106 {
            Table::row(-88034400, 0, 3600, "BST")
           } else {
            Table::row(-68680800, 0, 0, "GMT")
           }
          } else {
           if i < 108 {
            Table::row(-59004000, 0, 3600, "BST")
           } else {
            Table::row(-37242000, 3600, 0, "BST")
           }
          }
         } else {
          if i < 111 {
           if i < 110 {
            Table::row(57722400, 0, 0, "GMT")
           } else {
            Table::row(69818400, 0, 3600, "BST")
           }
          } else {
           if i < 112 {
            Table::row(89172000, 0, 0, "GMT")
           } else {
            Table::row(101268000, 0, 3600, "BST")
           }
          }
         }
        } else {
         if i < 117 {
          if i < 115 {
           if i < 114 {
            Table::row(120621600, 0, 0, "GMT")
           } else {
            Table::row(132717600, 0, 3600, "BST")
           }
          } else {
           if i < 116 {
            Table::row(152071200, 0, 0, "GMT")
           } else {
            Table::row(164167200, 0, 3600, "BST")
           }
          }
         } else {
          if i < 119 {
           if i < 118 {
            Table::row(183520800, 0, 0, "GMT")
           } else {
            Table::row(196221600, 0, 3600, "BST")
           }
          } else {
           if i < 120 {
            Table::row(214970400, 0, 0, "GMT")
           } else {
            Table::row(227671200, 0, 3600, "BST")
           }
          }
         }
        }
       }
      }
     }
    } else {
     if i < 181 {
      if i < 151 {
       if i < 136 {
        if i < 128 {
         if i < 124 {
          if i < 122 {
           Table::row(246420000, 0, 0, "GMT")
          } else {
           if i < 123 {
            Table::row(259120800, 0, 3600, "BST")
           } else {
            Table::row(278474400, 0, 0, "GMT")
           }
          }
         } else {
          if i < 126 {
           if i < 125 {
            Table::row(290570400, 0, 3600, "BST")
           } else {
            Table::row(309924000, 0, 0, "GMT")
           }
          } else {
           if i < 127 {
            Table::row(322020000, 0, 3600, "BST")
           } else {
            Table::row(341373600, 0, 0, "GMT")
           }
          }
         }
        } else {
         if i < 132 {
          if i < 130 {
           if i < 129 {
            Table::row(354675600, 0, 3600, "BST")
           } else {
            Table::row(372819600, 0, 0, "GMT")
           }
          } else {
           if i < 131 {
            Table::row(386125200, 0, 3600, "BST")
           } else {
            Table::row(404269200, 0, 0, "GMT")
           }
          }
         } else {
          if i < 134 {
           if i < 133 {
            Table::row(417574800, 0, 3600, "BST")
           } else {
            Table::row(435718800, 0, 0, "GMT")
           }
          } else {
           if i < 135 {
            Table::row(449024400, 0, 3600, "BST")
           } else {
            Table::row(467773200, 0, 0, "GMT")
           }
          }
         }
        }
       } else {
        if i < 143 {
         if i < 139 {
          if i < 137 {
           Table::row(481078800, 0, 3600, "BST")
          } else {
           if i < 138 {
            Table::row(499222800, 0, 0, "GMT")
           } else {
            Table::row(512528400, 0, 3600, "BST")
           }
          }
         } else {
          if i < 141 {
           if i < 140 {
            Table::row(530672400, 0, 0, "GMT")
           } else {
            Table::row(543978000, 0, 3600, "BST")
           }
          } else {
           if i < 142 {
            Table::row(562122000, 0, 0, "GMT")
           } else {
            Table::row(575427600, 0, 3600, "BST")
           }
          }
         }
        } else {
         if i < 147 {
          if i < 145 {
           if i < 144 {
            Table::row(593571600, 0, 0, "GMT")
           } else {
            Table::row(606877200, 0, 3600, "BST")
           }
          } else {
           if i < 146 {
            Table::row(625626000, 0, 0, "GMT")
           } else {
            Table::row(638326800, 0, 3600, "BST")
           }
          }
         } else {
          if i < 149 {
           if i < 148 {
            Table::row(657075600, 0, 0, "GMT")
           } else {
            Table::row(670381200, 0, 3600, "BST")
           }
          } else {
           if i < 150 {
            Table::row(688525200, 0, 0, "GMT")
           } else {
            Table::row(701830800, 0, 3600, "BST")
           }
          }
         }
        }
       }
      } else {
       if i < 166 {
        if i < 158 {
         if i < 154 {
          if i < 152 {
           Table::row(719974800, 0, 0, "GMT")
          } else {
           if i < 153 {
            Table::row(733280400, 0, 3600, "BST")
           } else {
            Table::row(751424400, 0, 0, "GMT")
           }
          }
         } else {
          if i < 156 {
           if i < 155 {
            Table::row(764730000, 0, 3600, "BST")
           } else {
            Table::row(782874000, 0, 0, "GMT")
           }
          } else {
           if i < 157 {
            Table::row(796179600, 0, 3600, "BST")
           } else {
            Table::row(814323600, 0, 0, "GMT")
           }
          }
         }
        } else {
         if i < 162 {
          if i < 160 {
           if i < 159 {
            Table::row(828234000, 0, 3600, "BST")
           } else {
            Table::row(846378000, 0, 0, "GMT")
           }
          } else {
           if i < 161 {
            Table::row(859683600, 0, 3600, "BST")
           } else {
            Table::row(877827600, 0, 0, "GMT")
           }
          }
         } else {
          if i < 164 {
           if i < 163 {
            Table::row(891133200, 0, 3600, "BST")
           } else {
            Table::row(909277200, 0, 0, "GMT")
           }
          } else {
           if i < 165 {
            Table::row(922582800, 0, 3600, "BST")
           } else {
            Table::row(941331600, 0, 0, "GMT")
           }
          }
         }
        }
       } else {
        if i < 173 {
         if i < 169 {
          if i < 167 {
           Table::row(954032400, 0, 3600, "BST")
          } else {
           if i < 168 {
            Table::row(972781200, 0, 0, "GMT")
           } else {
            Table::row(985482000, 0, 3600, "BST")
           }
          }
         } else {
          if i < 171 {
           if i < 170 {
            Table::row(1004230800, 0, 0, "GMT")
           } else {
            Table::row(1017536400, 0, 3600, "BST")
           }
          } else {
           if i < 172 {
            Table::row(1035680400, 0, 0, "GMT")
           } else {
            Table::row(1048986000, 0, 3600, "BST")
           }
          }
         }
        } else {
         if i < 177 {
          if i < 175 {
           if i < 174 {
            Table::row(1067130000, 0, 0, "GMT")
           } else {
            Table::row(1080435600, 0, 3600, "BST")
           }
          } else {
           if i < 176 {
            Table::row(1099184400, 0, 0, "GMT")
           } else {
            Table::row(1111885200, 0, 3600, "BST")
           }
          }
         } else {
          if i < 179 {
           if i < 178 {
            Table::row(1130634000, 0, 0, "GMT")
           } else {
            Table::row(1143334800, 0, 3600, "BST")
           }
          } else {
           if i < 180 {
            Table::row(1162083600, 0, 0, "GMT")
           } else {
            Table::row(1174784400, 0, 3600, "BST")
           }
          }
         }
        }
       }
      }
     } else {
      if i < 211 {
       if i < 196 {
        if i < 188 {
         if i < 184 {
          if i < 182 {
           Table::row(1193533200, 0, 0, "GMT")
          } else {
           if i < 183 {
            Table::row(1206838800, 0, 3600, "BST")
           } else {
            Table::row(1224982800, 0, 0, "GMT")
           }
          }
         } else {
          if i < 186 {
           if i < 185 {
            Table::row(1238288400, 0, 3600, "BST")
           } else {
            Table::row(1256432400, 0, 0, "GMT")
           }
          } else {
           if i < 187 {
            Table::row(1269738000, 0, 3600, "BST")
           } else {
            Table::row(1288486800, 0, 0, "GMT")
           }
          }
         }
        } else {
         if i < 192 {
          if i < 190 {
           if i < 189 {
            Table::row(1301187600, 0, 3600, "BST")
           } else {
            Table::row(1319936400, 0, 0, "GMT")
           }
          } else {
           if i < 191 {
            Table::row(1332637200, 0, 3600, "BST")
           } else {
            Table::row(1351386000, 0, 0, "GMT")
           }
          }
         } else {
          if i < 194 {
           if i < 193 {
            Table::row(1364691600, 0, 3600, "BST")
           } else {
            Table::row(1382835600, 0, 0, "GMT")
           }
          } else {
           if i < 195 {
            Table::row(1396141200, 0, 3600, "BST")
           } else {
            Table::row(1414285200, 0, 0, "GMT")
           }
          }
         }
        }
       } else {
        if i < 203 {
         if i < 199 {
          if i < 197 {
           Table::row(1427590800, 0, 3600, "BST")
          } else {
           if i < 198 {
            Table::row(1445734800, 0, 0, "GMT")
           } else {
            Table::row(1459040400, 0, 3600, "BST")
           }
          }
         } else {
          if i < 201 {
           if i < 200 {
            Table::row(1477789200, 0, 0, "GMT")
           } else {
            Table::row(1490490000, 0, 3600, "BST")
           }
          } else {
           if i < 202 {
            Table::row(1509238800, 0, 0, "GMT")
           } else {
            Table::row(1521939600, 0, 3600, "BST")
           }
          }
         }
        } else {
         if i < 207 {
          if i < 205 {
           if i < 204 {
            Table::row(1540688400, 0, 0, "GMT")
           } else {
            Table::row(1553994000, 0, 3600, "BST")
           }
          } else {
           if i < 206 {
            Table::row(1572138000, 0, 0, "GMT")
           } else {
            Table::row(1585443600, 0, 3600, "BST")
           }
          }
         } else {
          if i < 209 {
           if i < 208 {
            Table::row(1603587600, 0, 0, "GMT")
           } else {
            Table::row(1616893200, 0, 3600, "BST")
           }
          } else {
           if i < 210 {
            Table::row(1635642000, 0, 0, "GMT")
           } else {
            Table::row(1648342800, 0, 3600, "BST")
           }
          }
         }
        }
       }
      } else {
       if i < 226 {
        if i < 218 {
         if i < 214 {
          if i < 212 {
           Table::row(1667091600, 0, 0, "GMT")
          } else {
           if i < 213 {
            Table::row(1679792400, 0, 3600, "BST")
           } else {
            Table::row(1698541200, 0, 0, "GMT")
           }
          }
         } else {
          if i < 216 {
           if i < 215 {
            Table::row(1711846800, 0, 3600, "BST")
           } else {
            Table::row(1729990800, 0, 0, "GMT")
           }
          } else {
           if i < 217 {
            Table::row(1743296400, 0, 3600, "BST")
           } else {
            Table::row(1761440400, 0, 0, "GMT")
           }
          }
         }
        } else {
         if i < 222 {
          if i < 220 {
           if i < 219 {
            Table::row(1774746000, 0, 3600, "BST")
           } else {
            Table::row(1792890000, 0, 0, "GMT")
           }
          } else {
           if i < 221 {
            Table::row(1806195600, 0, 3600, "BST")
           } else {
            Table::row(1824944400, 0, 0, "GMT")
           }
          }
         } else {
          if i < 224 {
           if i < 223 {
            Table::row(1837645200, 0, 3600, "BST")
           } else {
            Table::row(1856394000, 0, 0, "GMT")
           }
          } else {
           if i < 225 {
            Table::row(1869094800, 0, 3600, "BST")
           } else {
            Table::row(1887843600, 0, 0, "GMT")
           }
          }
         }
        }
       } else {
        if i < 234 {
         if i < 230 {
          if i < 228 {
           if i < 227 {
            Table::row(1901149200, 0, 3600, "BST")
           } else {
            Table::row(1919293200, 0, 0, "GMT")
           }
          } else {
           if i < 229 {
            Table::row(1932598800, 0, 3600, "BST")
           } else {
            Table::row(1950742800, 0, 0, "GMT")
           }
          }
         } else {
          if i < 232 {
           if i < 231 {
            Table::row(1964048400, 0, 3600, "BST")
           } else {
            Table::row(1982797200, 0, 0, "GMT")
           }
          } else {
           if i < 233 {
            Table::row(1995498000, 0, 3600, "BST")
           } else {
            Table::row(2014246800, 0, 0, "GMT")
           }
          }
         }
        } else {
         if i < 238 {
          if i < 236 {
           if i < 235 {
            Table::row(2026947600, 0, 3600, "BST")
           } else {
            Table::row(2045696400, 0, 0, "GMT")
           }
          } else {
           if i < 237 {
            Table::row(2058397200, 0, 3600, "BST")
           } else {
            Table::row(2077146000, 0, 0, "GMT")
           }
          }
         } else {
          if i < 240 {
           if i < 239 {
            Table::row(2090451600, 0, 3600, "BST")
           } else {
            Table::row(2108595600, 0, 0, "GMT")
           }
          } else {
           if i < 241 {
            Table::row(2121901200, 0, 3600, "BST")
           } else {
            Table::row(2140045200, 0, 0, "GMT")
           }
          }
         }
        }
       }
      }
     }
    }
}

/// The rows of the table of the zone `Europe/Belfast`.
pub open spec fn belfast_rows() -> spec_fn(int) -> (i64, FixedTimespan) {
    |i: int| belfast_row(i)
}

/// The table of the zone `Europe/Belfast`.
pub open spec fn belfast() -> Table {
    Table::listed(Table::row(0, -75, 0, "LMT").1, 242, belfast_rows())
}

/// Row `i` of the table of the zone `Europe/Belgrade`.
pub open spec fn belgrade_row(i: int) -> (i64, FixedTimespan) {
    if i < 59 {
     if i < 29 {
      if i < 14 {
       if i < 7 {
        if i < 3 {
         if i < 1 {
          Table::row(-2713915320, 3600, 0, "CET")
         } else {
          if i < 2 {
           Table::row(-905824800, 3600, 3600, "CEST")
          } else {
           Table::row(-857257200, 3600, 0, "CET")
          }
         }
        } else {
         if i < 5 {
          if i < 4 {
           Table::row(-844556400, 3600, 3600, "CEST")
          } else {
           Table::row(-828226800, 3600, 0, "CET")
          }
         } else {
          if i < 6 {
           Table::row(-812502000, 3600, 3600, "CEST")
          } else {
           Table::row(-796777200, 3600, 0, "CET")
          }
         }
        }
       } else {
        if i < 10 {
         if i < 8 {
          Table::row(-777942000, 3600, 3600, "CEST")
         } else {
          if i < 9 {
           Table::row(-766623600, 3600, 0, "CET")
          } else {
           Table::row(417574800, 3600, 3600, "CEST")
          }
         }
        } else {
         if i < 12 {
          if i < 11 {
           Table::row(433299600, 3600, 0, "CET")
          } else {
           Table::row(449024400, 3600, 3600, "CEST")
          }
         } else {
          if i < 13 {
           Table::row(465354000, 3600, 0, "CET")
          } else {
           Table::row(481078800, 3600, 3600, "CEST")
          }
         }
        }
       }
      } else {
       if i < 21 {
        if i < 17 {
         if i < 15 {
          Table::row(496803600, 3600, 0, "CET")
         } else {
          if i < 16 {
           Table::row(512528400, 3600, 3600, "CEST")
          } else {
           Table::row(528253200, 3600, 0, "CET")
          }
         }
        } else {
         if i < 19 {
          if i < 18 {
           Table::row(543978000, 3600, 3600, "CEST")
          } else {
           Table::row(559702800, 3600, 0, "CET")
          }
         } else {
          if i < 20 {
           Table::row(575427600, 3600, 3600, "CEST")
          } else {
           Table::row(591152400, 3600, 0, "CET")
          }
         }
        }
       } else {
        if i < 25 {
         if i < 23 {
          if i < 22 {
           Table::row(606877200, 3600, 3600, "CEST")
          } else {
           Table::row(622602000, 3600, 0, "CET")
          }
         } else {
          if i < 24 {
           Table::row(638326800, 3600, 3600, "CEST")
          } else {
           Table::row(654656400, 3600, 0, "CET")
          }
         }
        } else {
         if i < 27 {
          if i < 26 {
           Table::row(670381200, 3600, 3600, "CEST")
          } else {
           Table::row(686106000, 3600, 0, "CET")
          }
         } else {
          if i < 28 {
           Table::row(701830800, 3600, 3600, "CEST")
          } else {
           Table::row(717555600, 3600, 0, "CET")
          }
         }
        }
       }
      }
     } else {
      if i < 44 {
       if i < 36 {
        if i < 32 {
         if i < 30 {
          Table::row(733280400, 3600, 3600, "CEST")
         } else {
          if i < 31 {
           Table::row(749005200, 3600, 0, "CET")
          } else {
           Table::row(764730000, 3600, 3600, "CEST")
          }
         }
        } else {
         if i < 34 {
          if i < 33 {
           Table::row(780454800, 3600, 0, "CET")
          } else {
           Table::row(796179600, 3600, 3600, "CEST")
          }
         } else {
          if i < 35 {
           Table::row(811904400, 3600, 0, "CET")
          } else {
           Table::row(828234000, 3600, 3600, "CEST")
          }
         }
        }
       } else {
        if i < 40 {
         if i < 38 {
          if i < 37 {
           Table::row(846378000, 3600, 0, "CET")
          } else {
           Table::row(859683600, 3600, 3600, "CEST")
          }
         } else {
          if i < 39 {
           Table::row(877827600, 3600, 0, "CET")
          } else {
           Table::row(891133200, 3600, 3600, "CEST")
          }
         }
        } else {
         if i < 42 {
          if i < 41 {
           Table::row(909277200, 3600, 0, "CET")
          } else {
           Table::row(922582800, 3600, 3600, "CEST")
          }
         } else {
          if i < 43 {
           Table::row(941331600, 3600, 0, "CET")
          } else {
           Table::row(954032400, 3600, 3600, "CEST")
          }
         }
        }
       }
      } else {
       if i < 51 {
        if i < 47 {
         if i < 45 {
          Table::row(972781200, 3600, 0, "CET")
         } else {
          if i < 46 {
           Table::row(985482000, 3600, 3600, "CEST")
          } else {
           Table::row(1004230800, 3600, 0, "CET")
          }
         }
        } else {
         if i < 49 {
          if i < 48 {
           Table::row(1017536400, 3600, 3600, "CEST")
          } else {
           Table::row(1035680400, 3600, 0, "CET")
          }
         } else {
          if i < 50 {
           Table::row(1048986000, 3600, 3600, "CEST")
          } else {
           Table::row(1067130000, 3600, 0, "CET")
          }
         }
        }
       } else {
        if i < 55 {
         if i < 53 {
          if i < 52 {
           Table::row(1080435600, 3600, 3600, "CEST")
          } else {
           Table::row(1099184400, 3600, 0, "CET")
          }
         } else {
          if i < 54 {
           Table::row(1111885200, 3600, 3600, "CEST")
          } else {
           Table::row(1130634000, 3600, 0, "CET")
          }
         }
        } else {
         if i < 57 {
          if i < 56 {
           Table::row(1143334800, 3600, 3600, "CEST")
          } else {
           Table::row(1162083600, 3600, 0, "CET")
          }
         } else {
          if i < 58 {
           Table::row(1174784400, 3600, 3600, "CEST")
          } else {
           Table::row(1193533200, 3600, 0, "CET")
          }
         }
        }
       }
      }
     }
    } else {
     if i < 89 {
      if i < 74 {
       if i < 66 {
        if i < 62 {
         if i < 60 {
          Table::row(1206838800, 3600, 3600, "CEST")
         } else {
          if i < 61 {
           Table::row(1224982800, 3600, 0, "CET")
          } else {
           Table::row(1238288400, 3600, 3600, "CEST")
          }
         }
        } else {
         if i < 64 {
          if i < 63 {
           Table::row(1256432400, 3600, 0, "CET")
          } else {
           Table::row(1269738000, 3600, 3600, "CEST")
          }
         } else {
          if i < 65 {
           Table::row(1288486800, 3600, 0, "CET")
          } else {
           Table::row(1301187600, 3600, 3600, "CEST")
          }
         }
        }
       } else {
        if i < 70 {
         if i < 68 {
          if i < 67 {
           Table::row(1319936400, 3600, 0, "CET")
          } else {
           Table::row(1332637200, 3600, 3600, "CEST")
          }
         } else {
          if i < 69 {
           Table::row(1351386000, 3600, 0, "CET")
          } else {
           Table::row(1364691600, 3600, 3600, "CEST")
          }
         }
        } else {
         if i < 72 {
          if i < 71 {
           Table::row(1382835600, 3600, 0, "CET")
          } else {
           Table::row(1396141200, 3600, 3600, "CEST")
          }
         } else {
          if i < 73 {
           Table::row(1414285200, 3600, 0, "CET")
          } else {
           Table::row(1427590800, 3600, 3600, "CEST")
          }
         }
        }
       }
      } else {
       if i < 81 {
        if i < 77 {
         if i < 75 {
          Table::row(1445734800, 3600, 0, "CET")
         } else {
          if i < 76 {
           Table::row(1459040400, 3600, 3600, "CEST")
          } else {
           Table::row(1477789200, 3600, 0, "CET")
          }
         }
        } else {
         if i < 79 {
          if i < 78 {
           Table::row(1490490000, 3600, 3600, "CEST")
          } else {
           Table::row(1509238800, 3600, 0, "CET")
          }
         } else {
          if i < 80 {
           Table::row(1521939600, 3600, 3600, "CEST")
          } else {
           Table::row(1540688400, 3600, 0, "CET")
          }
         }
        }
       } else {
        if i < 85 {
         if i < 83 {
          if i < 82 {
           Table::row(1553994000, 3600, 3600, "CEST")
          } else {
           Table::row(1572138000, 3600, 0, "CET")
          }
         } else {
          if i < 84 {
           Table::row(1585443600, 3600, 3600, "CEST")
          } else {
           Table::row(1603587600, 3600, 0, "CET")
          }
         }
        } else {
         if i < 87 {
          if i < 86 {
           Table::row(1616893200, 3600, 3600, "CEST")
          } else {
           Table::row(1635642000, 3600, 0, "CET")
          }
         } else {
          if i < 88 {
           Table::row(1648342800, 3600, 3600, "CEST")
          } else {
           Table::row(1667091600, 3600, 0, "CET")
          }
         }
        }
       }
      }
     } else {
      if i < 104 {
       if i < 96 {
        if i < 92 {
         if i < 90 {
          Table::row(1679792400, 3600, 3600, "CEST")
         } else {
          if i < 91 {
           Table::row(1698541200, 3600, 0, "CET")
          } else {
           Table::row(1711846800, 3600, 3600, "CEST")
          }
         }
        } else {
         if i < 94 {
          if i < 93 {
           Table::row(1729990800, 3600, 0, "CET")
          } else {
           Table::row(1743296400, 3600, 3600, "CEST")
          }
         } else {
          if i < 95 {
           Table::row(1761440400, 3600, 0, "CET")
          } else {
           Table::row(1774746000, 3600, 3600, "CEST")
          }
         }
        }
       } else {
        if i < 100 {
         if i < 98 {
          if i < 97 {
           Table::row(1792890000, 3600, 0, "CET")
          } else {
           Table::row(1806195600, 3600, 3600, "CEST")
          }
         } else {
          if i < 99 {
           Table::row(1824944400, 3600, 0, "CET")
          } else {
           Table::row(1837645200, 3600, 3600, "CEST")
          }
         }
        } else {
         if i < 102 {
          if i < 101 {
           Table::row(1856394000, 3600, 0, "CET")
          } else {
           Table::row(1869094800, 3600, 3600, "CEST")
          }
         } else {
          if i < 103 {
           Table::row(1887843600, 3600, 0, "CET")
          } else {
           Table::row(1901149200, 3600, 3600, "CEST")
          }
         }
        }
       }
      } else {
       if i < 111 {
        if i < 107 {
         if i < 105 {
          Table::row(1919293200, 3600, 0, "CET")
         } else {
          if i < 106 {
           Table::row(1932598800, 3600, 3600, "CEST")
          } else {
           Table::row(1950742800, 3600, 0, "CET")
          }
         }
        } else {
         if i < 109 {
          if i < 108 {
           Table::row(1964048400, 3600, 3600, "CEST")
          } else {
           Table::row(1982797200, 3600, 0, "CET")
          }
         } else {
          if i < 110 {
           Table::row(1995498000, 3600, 3600, "CEST")
          } else {
           Table::row(2014246800, 3600, 0, "CET")
          }
         }
        }
       } else {
        if i < 115 {
         if i < 113 {
          if i < 112 {
           Table::row(2026947600, 3600, 3600, "CEST")
          } else {
           Table::row(2045696400, 3600, 0, "CET")
          }
         } else {
          if i < 114 {
           Table::row(2058397200, 3600, 3600, "CEST")
          } else {
           Table::row(2077146000, 3600, 0, "CET")
          }
         }
        } else {
         if i < 117 {
          if i < 116 {
           Table::row(2090451600, 3600, 3600, "CEST")
          } else {
           Table::row(2108595600, 3600, 0, "CET")
          }
         } else {
          if i < 118 {
           Table::row(2121901200, 3600, 3600, "CEST")
          } else {
           Table::row(2140045200, 3600, 0, "CET")
          }
         }
        }
       }
      }
     }
    }
}

/// The rows of the table of the zone `Europe/Belgrade`.
pub open spec fn belgrade_rows() -> spec_fn(int) -> (i64, FixedTimespan) {
    |i: int| belgrade_row(i)
}

/// The table of the zone `Europe/Belgrade`.
pub open spec fn belgrade() -> Table {
    Table::listed(Table::row(0, 4920, 0, "LMT").1, 119, belgrade_rows())
}

/// Row `i` of the table of the zone `Europe/Berlin`.
pub open spec fn berlin_row(i: int) -> (i64, FixedTimespan) {
    if i < 71 {
     if i < 35 {
      if i < 17 {
       if i < 8 {
        if i < 4 {
         if i < 2 {
          if i < 1 {
           Table::row(-2422054408, 3600, 0, "CET")
          } else {
           Table::row(-1693706400, 3600, 3600, "CEST")
          }
         } else {
          if i < 3 {
           Table::row(-1680483600, 3600, 0, "CET")
          } else {
           Table::row(-1663455600, 3600, 3600, "CEST")
          }
         }
        } else {
         if i < 6 {
          if i < 5 {
           Table::row(-1650150000, 3600, 0, "CET")
          } else {
           Table::row(-1632006000, 3600, 3600, "CEST")
          }
         } else {
          if i < 7 {
           Table::row(-1618700400, 3600, 0, "CET")
          } else {
           Table::row(-938905200, 3600, 3600, "CEST")
          }
         }
        }
       } else {
        if i < 12 {
         if i < 10 {
          if i < 9 {
           Table::row(-857257200, 3600, 0, "CET")
          } else {
           Table::row(-844556400, 3600, 3600, "CEST")
          }
         } else {
          if i < 11 {
           Table::row(-828226800, 3600, 0, "CET")
          } else {
           Table::row(-812502000, 3600, 3600, "CEST")
          }
         }
        } else {
         if i < 14 {
          if i < 13 {
           Table::row(-796777200, 3600, 0, "CET")
          } else {
           Table::row(-781052400, 3600, 3600, "CEST")
          }
         } else {
          if i < 15 {
           Table::row(-776563200, 3600, 7200, "CEMT")
          } else {
           if i < 16 {
            Table::row(-765936000, 3600, 3600, "CEST")
           } else {
            Table::row(-761180400, 3600, 0, "CET")
           }
          }
         }
        }
       }
      } else {
       if i < 26 {
        if i < 21 {
         if i < 19 {
          if i < 18 {
           Table::row(-748479600, 3600, 3600, "CEST")
          } else {
           Table::row(-733273200, 3600, 0, "CET")
          }
         } else {
          if i < 20 {
           Table::row(-717631200, 3600, 3600, "CEST")
          } else {
           Table::row(-714610800, 3600, 7200, "CEMT")
          }
         }
        } else {
         if i < 23 {
          if i < 22 {
           Table::row(-710380800, 3600, 3600, "CEST")
          } else {
           Table::row(-701910000, 3600, 0, "CET")
          }
         } else {
          if i < 24 {
           Table::row(-684975600, 3600, 3600, "CEST")
          } else {
           if i < 25 {
            Table::row(-670460400, 3600, 0, "CET")
           } else {
            Table::row(-654130800, 3600, 3600, "CEST")
           }
          }
         }
        }
       } else {
        if i < 30 {
         if i < 28 {
          if i < 27 {
           Table::row(-639010800, 3600, 0, "CET")
          } else {
           Table::row(323830800, 3600, 3600, "CEST")
          }
         } else {
          if i < 29 {
           Table::row(338950800, 3600, 0, "CET")
          } else {
           Table::row(354675600, 3600, 3600, "CEST")
          }
         }
        } else {
         if i < 32 {
          if i < 31 {
           Table::row(370400400, 3600, 0, "CET")
          } else {
           Table::row(386125200, 3600, 3600, "CEST")
          }
         } else {
          if i < 33 {
           Table::row(401850000, 3600, 0, "CET")
          } else {
           if i < 34 {
            Table::row(417574800, 3600, 3600, "CEST")
           } else {
            Table::row(433299600, 3600, 0, "CET")
           }
          }
         }
        }
       }
      }
     } else {
      if i < 53 {
       if i < 44 {
        if i < 39 {
         if i < 37 {
          if i < 36 {
           Table::row(449024400, 3600, 3600, "CEST")
          } else {
           Table::row(465354000, 3600, 0, "CET")
          }
         } else {
          if i < 38 {
           Table::row(481078800, 3600, 3600, "CEST")
          } else {
           Table::row(496803600, 3600, 0, "CET")
          }
         }
        } else {
         if i < 41 {
          if i < 40 {
           Table::row(512528400, 3600, 3600, "CEST")
          } else {
           Table::row(528253200, 3600, 0, "CET")
          }
         } else {
          if i < 42 {
           Table::row(543978000, 3600, 3600, "CEST")
          } else {
           if i < 43 {
            Table::row(559702800, 3600, 0, "CET")
           } else {
            Table::row(575427600, 3600, 3600, "CEST")
           }
          }
         }
        }
       } else {
        if i < 48 {
         if i < 46 {
          if i < 45 {
           Table::row(591152400, 3600, 0, "CET")
          } else {
           Table::row(606877200, 3600, 3600, "CEST")
          }
         } else {
          if i < 47 {
           Table::row(622602000, 3600, 0, "CET")
          } else {
           Table::row(638326800, 3600, 3600, "CEST")
          }
         }
        } else {
         if i < 50 {
          if i < 49 {
           Table::row(654656400, 3600, 0, "CET")
          } else {
           Table::row(670381200, 3600, 3600, "CEST")
          }
         } else {
          if i < 51 {
           Table::row(686106000, 3600, 0, "CET")
          } else {
           if i < 52 {
            Table::row(701830800, 3600, 3600, "CEST")
           } else {
            Table::row(717555600, 3600, 0, "CET")
           }
          }
         }
        }
       }
      } else {
       if i < 62 {
        if i < 57 {
         if i < 55 {
          if i < 54 {
           Table::row(733280400, 3600, 3600, "CEST")
          } else {
           Table::row(749005200, 3600, 0, "CET")
          }
         } else {
          if i < 56 {
           Table::row(764730000, 3600, 3600, "CEST")
          } else {
           Table::row(780454800, 3600, 0, "CET")
          }
         }
        } else {
         if i < 59 {
          if i < 58 {
           Table::row(796179600, 3600, 3600, "CEST")
          } else {
           Table::row(811904400, 3600, 0, "CET")
          }
         } else {
          if i < 60 {
           Table::row(828234000, 3600, 3600, "CEST")
          } else {
           if i < 61 {
            Table::row(846378000, 3600, 0, "CET")
           } else {
            Table::row(859683600, 3600, 3600, "CEST")
           }
          }
         }
        }
       } else {
        if i < 66 {
         if i < 64 {
          if i < 63 {
           Table::row(877827600, 3600, 0, "CET")
          } else {
           Table::row(891133200, 3600, 3600, "CEST")
          }
         } else {
          if i < 65 {
           Table::row(909277200, 3600, 0, "CET")
          } else {
           Table::row(922582800, 3600, 3600, "CEST")
          }
         }
        } else {
         if i < 68 {
          if i < 67 {
           Table::row(941331600, 3600, 0, "CET")
          } else {
           Table::row(954032400, 3600, 3600, "CEST")
          }
         } else {
          if i < 69 {
           Table::row(972781200, 3600, 0, "CET")
          } else {
           if i < 70 {
            Table::row(985482000, 3600, 3600, "CEST")
           } else {
            Table::row(1004230800, 3600, 0, "CET")
           }
          }
         }
        }
       }
      }
     }
    } else {
     if i < 107 {
      if i < 89 {
       if i < 80 {
        if i < 75 {
         if i < 73 {
          if i < 72 {
           Table::row(1017536400, 3600, 3600, "CEST")
          } else {
           Table::row(1035680400, 3600, 0, "CET")
          }
         } else {
          if i < 74 {
           Table::row(1048986000, 3600, 3600, "CEST")
          } else {
           Table::row(1067130000, 3600, 0, "CET")
          }
         }
        } else {
         if i < 77 {
          if i < 76 {
           Table::row(1080435600, 3600, 3600, "CEST")
          } else {
           Table::row(1099184400, 3600, 0, "CET")
          }
         } else {
          if i < 78 {
           Table::row(1111885200, 3600, 3600, "CEST")
          } else {
           if i < 79 {
            Table::row(1130634000, 3600, 0, "CET")
           } else {
            Table::row(1143334800, 3600, 3600, "CEST")
           }
          }
         }
        }
       } else {
        if i < 84 {
         if i < 82 {
          if i < 81 {
           Table::row(1162083600, 3600, 0, "CET")
          } else {
           Table::row(1174784400, 3600, 3600, "CEST")
          }
         } else {
          if i < 83 {
           Table::row(1193533200, 3600, 0, "CET")
          } else {
           Table::row(1206838800, 3600, 3600, "CEST")
          }
         }
        } else {
         if i < 86 {
          if i < 85 {
           Table::row(1224982800, 3600, 0, "CET")
          } else {
           Table::row(1238288400, 3600, 3600, "CEST")
          }
         } else {
          if i < 87 {
           Table::row(1256432400, 3600, 0, "CET")
          } else {
           if i < 88 {
            Table::row(1269738000, 3600, 3600, "CEST")
           } else {
            Table::row(1288486800, 3600, 0, "CET")
           }
          }
         }
        }
       }
      } else {
       if i < 98 {
        if i < 93 {
         if i < 91 {
          if i < 90 {
           Table::row(1301187600, 3600, 3600, "CEST")
          } else {
           Table::row(1319936400, 3600, 0, "CET")
          }
         } else {
          if i < 92 {
           Table::row(1332637200, 3600, 3600, "CEST")
          } else {
           Table::row(1351386000, 3600, 0, "CET")
          }
         }
        } else {
         if i < 95 {
          if i < 94 {
           Table::row(1364691600, 3600, 3600, "CEST")
          } else {
           Table::row(1382835600, 3600, 0, "CET")
          }
         } else {
          if i < 96 {
           Table::row(1396141200, 3600, 3600, "CEST")
          } else {
           if i < 97 {
            Table::row(1414285200, 3600, 0, "CET")
           } else {
            Table::row(1427590800, 3600, 3600, "CEST")
           }
          }
         }
        }
       } else {
        if i < 102 {
         if i < 100 {
          if i < 99 {
           Table::row(1445734800, 3600, 0, "CET")
          } else {
           Table::row(1459040400, 3600, 3600, "CEST")
          }
         } else {
          if i < 101 {
           Table::row(1477789200, 3600, 0, "CET")
          } else {
           Table::row(1490490000, 3600, 3600, "CEST")
          }
         }
        } else {
         if i < 104 {
          if i < 103 {
           Table::row(1509238800, 3600, 0, "CET")
          } else {
           Table::row(1521939600, 3600, 3600, "CEST")
          }
         } else {
          if i < 105 {
           Table::row(1540688400, 3600, 0, "CET")
          } else {
           if i < 106 {
            Table::row(1553994000, 3600, 3600, "CEST")
           } else {
            Table::row(1572138000, 3600, 0, "CET")
           }
          }
         }
        }
       }
      }
     } else {
      if i < 125 {
       if i < 116 {
        if i < 111 {
         if i < 109 {
          if i < 108 {
           Table::row(1585443600, 3600, 3600, "CEST")
          } else {
           Table::row(1603587600, 3600, 0, "CET")
          }
         } else {
          if i < 110 {
           Table::row(1616893200, 3600, 3600, "CEST")
          } else {
           Table::row(1635642000, 3600, 0, "CET")
          }
         }
        } else {
         if i < 113 {
          if i < 112 {
           Table::row(1648342800, 3600, 3600, "CEST")
          } else {
           Table::row(1667091600, 3600, 0, "CET")
          }
         } else {
          if i < 114 {
           Table::row(1679792400, 3600, 3600, "CEST")
          } else {
           if i < 115 {
            Table::row(1698541200, 3600, 0, "CET")
           } else {
            Table::row(1711846800, 3600, 3600, "CEST")
           }
          }
         }
        }
       } else {
        if i < 120 {
         if i < 118 {
          if i < 117 {
           Table::row(1729990800, 3600, 0, "CET")
          } else {
           Table::row(1743296400, 3600, 3600, "CEST")
          }
         } else {
          if i < 119 {
           Table::row(1761440400, 3600, 0, "CET")
          } else {
           Table::row(1774746000, 3600, 3600, "CEST")
          }
         }
        } else {
         if i < 122 {
          if i < 121 {
           Table::row(1792890000, 3600, 0, "CET")
          } else {
           Table::row(1806195600, 3600, 3600, "CEST")
          }
         } else {
          if i < 123 {
           Table::row(1824944400, 3600, 0, "CET")
          } else {
           if i < 124 {
            Table::row(1837645200, 3600, 3600, "CEST")
           } else {
            Table::row(1856394000, 3600, 0, "CET")
           }
          }
         }
        }
       }
      } else {
       if i < 134 {
        if i < 129 {
         if i < 127 {
          if i < 126 {
           Table::row(1869094800, 3600, 3600, "CEST")
          } else {
           Table::row(1887843600, 3600, 0, "CET")
          }
         } else {
          if i < 128 {
           Table::row(1901149200, 3600, 3600, "CEST")
          } else {
           Table::row(1919293200, 3600, 0, "CET")
          }
         }
        } else {
         if i < 131 {
          if i < 130 {
           Table::row(1932598800, 3600, 3600, "CEST")
          } else {
           Table::row(1950742800, 3600, 0, "CET")
          }
         } else {
          if i < 132 {
           Table::row(1964048400, 3600, 3600, "CEST")
          } else {
           if i < 133 {
            Table::row(1982797200, 3600, 0, "CET")
           } else {
            Table::row(1995498000, 3600, 3600, "CEST")
           }
          }
         }
        }
       } else {
        if i < 138 {
         if i < 136 {
          if i < 135 {
           Table::row(2014246800, 3600, 0, "CET")
          } else {
           Table::row(2026947600, 3600, 3600, "CEST")
          }
         } else {
          if i < 137 {
           Table::row(2045696400, 3600, 0, "CET")
          } else {
           Table::row(2058397200, 3600, 3600, "CEST")
          }
         }
        } else {
         if i < 140 {
          if i < 139 {
           Table::row(2077146000, 3600, 0, "CET")
          } else {
           Table::row(2090451600, 3600, 3600, "CEST")
          }
         } else {
          if i < 141 {
           Table::row(2108595600, 3600, 0, "CET")
          } else {
           if i < 142 {
            Table::row(2121901200, 3600, 3600, "CEST")
           } else {
            Table::row(2140045200, 3600, 0, "CET")
           }
          }
         }
        }
       }
      }
     }
    }
}

/// The rows of the table of the zone `Europe/Berlin`.
pub open spec fn berlin_rows() -> spec_fn(int) -> (i64, FixedTimespan) {
    |i: int| berlin_row(i)
}

/// The table of the zone `Europe/Berlin`.
pub open spec fn berlin() -> Table {
    Table::listed(Table::row(0, 3208, 0, "LMT").1, 143, berlin_rows())
}

/// Row `i` of the table of the zone `Europe/Bratislava`.
pub open spec fn bratislava_row(i: int) -> (i64, FixedTimespan) {
    if i < 72 {
     if i < 36 {
      if i < 18 {
       if i < 9 {
        if i < 4 {
         if i < 2 {
          if i < 1 {
           Table::row(-3786829064, 3464, 0, "PMT")
          } else {
           Table::row(-2469401864, 3600, 0, "CET")
          }
         } else {
          if i < 3 {
           Table::row(-1693706400, 3600, 3600, "CEST")
          } else {
           Table::row(-1680483600, 3600, 0, "CET")
          }
         }
        } else {
         if i < 6 {
          if i < 5 {
           Table::row(-1663455600, 3600, 3600, "CEST")
          } else {
           Table::row(-1650150000, 3600, 0, "CET")
          }
         } else {
          if i < 7 {
           Table::row(-1632006000, 3600, 3600, "CEST")
          } else {
           if i < 8 {
            Table::row(-1618700400, 3600, 0, "CET")
           } else {
            Table::row(-938905200, 3600, 3600, "CEST")
           }
          }
         }
        }
       } else {
        if i < 13 {
         if i < 11 {
          if i < 10 {
           Table::row(-857257200, 3600, 0, "CET")
          } else {
           Table::row(-844556400, 3600, 3600, "CEST")
          }
         } else {
          if i < 12 {
           Table::row(-828226800, 3600, 0, "CET")
          } else {
           Table::row(-812502000, 3600, 3600, "CEST")
          }
         }
        } else {
         if i < 15 {
          if i < 14 {
           Table::row(-796777200, 3600, 0, "CET")
          } else {
           Table::row(-781052400, 3600, 3600, "CEST")
          }
         } else {
          if i < 16 {
           Table::row(-765327600, 3600, 0, "CET")
          } else {
           if i < 17 {
            Table::row(-746578800, 3600, 3600, "CEST")
           } else {
            Table::row(-733359600, 3600, 0, "CET")
           }
          }
         }
        }
       }
      } else {
       if i < 27 {
        if i < 22 {
         if i < 20 {
          if i < 19 {
           Table::row(-728517600, -3600, 3600, "GMT")
          } else {
           Table::row(-721260000, 3600, 0, "CET")
          }
         } else {
          if i < 21 {
           Table::row(-716425200, 3600, 3600, "CEST")
          } else {
           Table::row(-701910000, 3600, 0, "CET")
          }
         }
        } else {
         if i < 24 {
          if i < 23 {
           Table::row(-684975600, 3600, 3600, "CEST")
          } else {
           Table::row(-670460400, 3600, 0, "CET")
          }
         } else {
          if i < 25 {
           Table::row(-654217200, 3600, 3600, "CEST")
          } else {
           if i < 26 {
            Table::row(-639010800, 3600, 0, "CET")
           } else {
            Table::row(291776400, 3600, 3600, "CEST")
           }
          }
         }
        }
       } else {
        if i < 31 {
         if i < 29 {
          if i < 28 {
           Table::row(307501200, 3600, 0, "CET")
          } else {
           Table::row(323830800, 3600, 3600, "CEST")
          }
         } else {
          if i < 30 {
           Table::row(338950800, 3600, 0, "CET")
          } else {
           Table::row(354675600, 3600, 3600, "CEST")
          }
         }
        } else {
         if i < 33 {
          if i < 32 {
           Table::row(370400400, 3600, 0, "CET")
          } else {
           Table::row(386125200, 3600, 3600, "CEST")
          }
         } else {
          if i < 34 {
           Table::row(401850000, 3600, 0, "CET")
          } else {
           if i < 35 {
            Table::row(417574800, 3600, 3600, "CEST")
           } else {
            Table::row(433299600, 3600, 0, "CET")
           }
          }
         }
        }
       }
      }
     } else {
      if i < 54 {
       if i < 45 {
        if i < 40 {
         if i < 38 {
          if i < 37 {
           Table::row(449024400, 3600, 3600, "CEST")
          } else {
           Table::row(465354000, 3600, 0, "CET")
          }
         } else {
          if i < 39 {
           Table::row(481078800, 3600, 3600, "CEST")
          } else {
           Table::row(496803600, 3600, 0, "CET")
          }
         }
        } else {
         if i < 42 {
          if i < 41 {
           Table::row(512528400, 3600, 3600, "CEST")
          } else {
           Table::row(528253200, 3600, 0, "CET")
          }
         } else {
          if i < 43 {
           Table::row(543978000, 3600, 3600, "CEST")
          } else {
           if i < 44 {
            Table::row(559702800, 3600, 0, "CET")
           } else {
            Table::row(575427600, 3600, 3600, "CEST")
           }
          }
         }
        }
       } else {
        if i < 49 {
         if i < 47 {
          if i < 46 {
           Table::row(591152400, 3600, 0, "CET")
          } else {
           Table::row(606877200, 3600, 3600, "CEST")
          }
         } else {
          if i < 48 {
           Table::row(622602000, 3600, 0, "CET")
          } else {
           Table::row(638326800, 3600, 3600, "CEST")
          }
         }
        } else {
         if i < 51 {
          if i < 50 {
           Table::row(654656400, 3600, 0, "CET")
          } else {
           Table::row(670381200, 3600, 3600, "CEST")
          }
         } else {
          if i < 52 {
           Table::row(686106000, 3600, 0, "CET")
          } else {
           if i < 53 {
            Table::row(701830800, 3600, 3600, "CEST")
           } else {
            Table::row(717555600, 3600, 0, "CET")
           }
          }
         }
        }
       }
      } else {
       if i < 63 {
        if i < 58 {
         if i < 56 {
          if i < 55 {
           Table::row(733280400, 3600, 3600, "CEST")
          } else {
           Table::row(749005200, 3600, 0, "CET")
          }
         } else {
          if i < 57 {
           Table::row(764730000, 3600, 3600, "CEST")
          } else {
           Table::row(780454800, 3600, 0, "CET")
          }
         }
        } else {
         if i < 60 {
          if i < 59 {
           Table::row(796179600, 3600, 3600, "CEST")
          } else {
           Table::row(811904400, 3600, 0, "CET")
          }
         } else {
          if i < 61 {
           Table::row(828234000, 3600, 3600, "CEST")
          } else {
           if i < 62 {
            Table::row(846378000, 3600, 0, "CET")
           } else {
            Table::row(859683600, 3600, 3600, "CEST")
           }
          }
         }
        }
       } else {
        if i < 67 {
         if i < 65 {
          if i < 64 {
           Table::row(877827600, 3600, 0, "CET")
          } else {
           Table::row(891133200, 3600, 3600, "CEST")
          }
         } else {
          if i < 66 {
           Table::row(909277200, 3600, 0, "CET")
          } else {
           Table::row(922582800, 3600, 3600, "CEST")
          }
         }
        } else {
         if i < 69 {
          if i < 68 {
           Table::row(941331600, 3600, 0, "CET")
          } else {
           Table::row(954032400, 3600, 3600, "CEST")
          }
         } else {
          if i < 70 {
           Table::row(972781200, 3600, 0, "CET")
          } else {
           if i < 71 {
            Table::row(985482000, 3600, 3600, "CEST")
           } else {
            Table::row(1004230800, 3600, 0, "CET")
           }
          }
         }
        }
       }
      }
     }
    } else {
     if i < 108 {
      if i < 90 {
       if i < 81 {
        if i < 76 {
         if i < 74 {
          if i < 73 {
           Table::row(1017536400, 3600, 3600, "CEST")
          } else {
           Table::row(1035680400, 3600, 0, "CET")
          }
         } else {
          if i < 75 {
           Table::row(1048986000, 3600, 3600, "CEST")
          } else {
           Table::row(1067130000, 3600, 0, "CET")
          }
         }
        } else {
         if i < 78 {
          if i < 77 {
           Table::row(1080435600, 3600, 3600, "CEST")
          } else {
           Table::row(1099184400, 3600, 0, "CET")
          }
         } else {
          if i < 79 {
           Table::row(1111885200, 3600, 3600, "CEST")
          } else {
           if i < 80 {
            Table::row(1130634000, 3600, 0, "CET")
           } else {
            Table::row(1143334800, 3600, 3600, "CEST")
           }
          }
         }
        }
       } else {
        if i < 85 {
         if i < 83 {
          if i < 82 {
           Table::row(1162083600, 3600, 0, "CET")
          } else {
           Table::row(1174784400, 3600, 3600, "CEST")
          }
         } else {
          if i < 84 {
           Table::row(1193533200, 3600, 0, "CET")
          } else {
           Table::row(1206838800, 3600, 3600, "CEST")
          }
         }
        } else {
         if i < 87 {
          if i < 86 {
           Table::row(1224982800, 3600, 0, "CET")
          } else {
           Table::row(1238288400, 3600, 3600, "CEST")
          }
         } else {
          if i < 88 {
           Table::row(1256432400, 3600, 0, "CET")
          } else {
           if i < 89 {
            Table::row(1269738000, 3600, 3600, "CEST")
           } else {
            Table::row(1288486800, 3600, 0, "CET")
           }
          }
         }
        }
       }
      } else {
       if i < 99 {
        if i < 94 {
         if i < 92 {
          if i < 91 {
           Table::row(1301187600, 3600, 3600, "CEST")
          } else {
           Table::row(1319936400, 3600, 0, "CET")
          }
         } else {
          if i < 93 {
           Table::row(1332637200, 3600, 3600, "CEST")
          } else {
           Table::row(1351386000, 3600, 0, "CET")
          }
         }
        } else {
         if i < 96 {
          if i < 95 {
           Table::row(1364691600, 3600, 3600, "CEST")
          } else {
           Table::row(1382835600, 3600, 0, "CET")
          }
         } else {
          if i < 97 {
           Table::row(1396141200, 3600, 3600, "CEST")
          } else {
           if i < 98 {
            Table::row(1414285200, 3600, 0, "CET")
           } else {
            Table::row(1427590800, 3600, 3600, "CEST")
           }
          }
         }
        }
       } else {
        if i < 103 {
         if i < 101 {
          if i < 100 {
           Table::row(1445734800, 3600, 0, "CET")
          } else {
           Table::row(1459040400, 3600, 3600, "CEST")
          }
         } else {
          if i < 102 {
           Table::row(1477789200, 3600, 0, "CET")
          } else {
           Table::row(1490490000, 3600, 3600, "CEST")
          }
         }
        } else {
         if i < 105 {
          if i < 104 {
           Table::row(1509238800, 3600, 0, "CET")
          } else {
           Table::row(1521939600, 3600, 3600, "CEST")
          }
         } else {
          if i < 106 {
           Table::row(1540688400, 3600, 0, "CET")
          } else {
           if i < 107 {
            Table::row(1553994000, 3600, 3600, "CEST")
           } else {
            Table::row(1572138000, 3600, 0, "CET")
           }
          }
         }
        }
       }
      }
     } else {
      if i < 126 {
       if i < 117 {
        if i < 112 {
         if i < 110 {
          if i < 109 {
           Table::row(1585443600, 3600, 3600, "CEST")
          } else {
           Table::row(1603587600, 3600, 0, "CET")
          }
         } else {
          if i < 111 {
           Table::row(1616893200, 3600, 3600, "CEST")
          } else {
           Table::row(1635642000, 3600, 0, "CET")
          }
         }
        } else {
         if i < 114 {
          if i < 113 {
           Table::row(1648342800, 3600, 3600, "CEST")
          } else {
           Table::row(1667091600, 3600, 0, "CET")
          }
         } else {
          if i < 115 {
           Table::row(1679792400, 3600, 3600, "CEST")
          } else {
           if i < 116 {
            Table::row(1698541200, 3600, 0, "CET")
           } else {
            Table::row(1711846800, 3600, 3600, "CEST")
           }
          }
         }
        }
       } else {
        if i < 121 {
         if i < 119 {
          if i < 118 {
           Table::row(1729990800, 3600, 0, "CET")
          } else {
           Table::row(1743296400, 3600, 3600, "CEST")
          }
         } else {
          if i < 120 {
           Table::row(1761440400, 3600, 0, "CET")
          } else {
           Table::row(1774746000, 3600, 3600, "CEST")
          }
         }
        } else {
         if i < 123 {
          if i < 122 {
           Table::row(1792890000, 3600, 0, "CET")
          } else {
           Table::row(1806195600, 3600, 3600, "CEST")
          }
         } else {
          if i < 124 {
           Table::row(1824944400, 3600, 0, "CET")
          } else {
           if i < 125 {
            Table::row(1837645200, 3600, 3600, "CEST")
           } else {
            Table::row(1856394000, 3600, 0, "CET")
           }
          }
         }
        }
       }
      } else {
       if i < 135 {
        if i < 130 {
         if i < 128 {
          if i < 127 {
           Table::row(1869094800, 3600, 3600, "CEST")
          } else {
           Table::row(1887843600, 3600, 0, "CET")
          }
         } else {
          if i < 129 {
           Table::row(1901149200, 3600, 3600, "CEST")
          } else {
           Table::row(1919293200, 3600, 0, "CET")
          }
         }
        } else {
         if i < 132 {
          if i < 131 {
           Table::row(1932598800, 3600, 3600, "CEST")
          } else {
           Table::row(1950742800, 3600, 0, "CET")
          }
         } else {
          if i < 133 {
           Table::row(1964048400, 3600, 3600, "CEST")
          } else {
           if i < 134 {
            Table::row(1982797200, 3600, 0, "CET")
           } else {
            Table::row(1995498000, 3600, 3600, "CEST")
           }
          }
         }
        }
       } else {
        if i < 139 {
         if i < 137 {
          if i < 136 {
           Table::row(2014246800, 3600, 0, "CET")
          } else {
           Table::row(2026947600, 3600, 3600, "CEST")
          }
         } else {
          if i < 138 {
           Table::row(2045696400, 3600, 0, "CET")
          } else {
           Table::row(2058397200, 3600, 3600, "CEST")
          }
         }
        } else {
         if i < 141 {
          if i < 140 {
           Table::row(2077146000, 3600, 0, "CET")
          } else {
           Table::row(2090451600, 3600, 3600, "CEST")
          }
         } else {
          if i < 142 {
           Table::row(2108595600, 3600, 0, "CET")
          } else {
           if i < 143 {
            Table::row(2121901200, 3600, 3600, "CEST")
           } else {
            Table::row(2140045200, 3600, 0, "CET")
           }
          }
         }
        }
       }
      }
     }
    }
}

/// The rows of the table of the zone `Europe/Bratislava`.
pub open spec fn bratislava_rows() -> spec_fn(int) -> (i64, FixedTimespan) {
    |i: int| bratislava_row(i)
}

/// The table of the zone `Europe/Bratislava`.
pub open spec fn bratislava() -> Table {
    Table::listed(Table::row(0, 3464, 0, "LMT").1, 144, bratislava_rows())
}

/// Row `i` of the table of the zone `Europe/Brussels`.
pub open spec fn brussels_row(i: int) -> (i64, FixedTimespan) {
    if i < 92 {
     if i < 46 {
      if i < 23 {
       if i < 11 {
        if i < 5 {
         if i < 2 {
          if i < 1 {
           Table::row(-2840141850, 1050, 0, "BMT")
          } else {
           Table::row(-2450995200, 0, 0, "WET")
          }
         } else {
          if i < 3 {
           Table::row(-1740355200, 3600, 0, "CET")
          } else {
           if i < 4 {
            Table::row(-1693702800, 3600, 3600, "CEST")
           } else {
            Table::row(-1680483600, 3600, 0, "CET")
           }
          }
         }
        } else {
         if i < 8 {
          if i < 6 {
           Table::row(-1663455600, 3600, 3600, "CEST")
          } else {
           if i < 7 {
            Table::row(-1650150000, 3600, 0, "CET")
           } else {
            Table::row(-1632006000, 3600, 3600, "CEST")
           }
          }
         } else {
          if i < 9 {
           Table::row(-1618700400, 3600, 0, "CET")
          } else {
           if i < 10 {
            Table::row(-1613826000, 0, 0, "WET")
           } else {
            Table::row(-1604278800, 0, 3600, "WEST")
           }
          }
         }
        }
       } else {
        if i < 17 {
         if i < 14 {
          if i < 12 {
           Table::row(-1585530000, 0, 0, "WET")
          } else {
           if i < 13 {
            Table::row(-1574038800, 0, 3600, "WEST")
           } else {
            Table::row(-1552266000, 0, 0, "WET")
           }
          }
         } else {
          if i < 15 {
           Table::row(-1539997200, 0, 3600, "WEST")
          } else {
           if i < 16 {
            Table::row(-1520557200, 0, 0, "WET")
           } else {
            Table::row(-1507510800, 0, 3600, "WEST")
           }
          }
         }
        } else {
         if i < 20 {
          if i < 18 {
           Table::row(-1490576400, 0, 0, "WET")
          } else {
           if i < 19 {
            Table::row(-1473642000, 0, 3600, "WEST")
           } else {
            Table::row(-1459126800, 0, 0, "WET")
           }
          }
         } else {
          if i < 21 {
           Table::row(-1444006800, 0, 3600, "WEST")
          } else {
           if i < 22 {
            Table::row(-1427677200, 0, 0, "WET")
           } else {
            Table::row(-1411952400, 0, 3600, "WEST")
           }
          }
         }
        }
       }
      } else {
       if i < 34 {
        if i < 28 {
         if i < 25 {
          if i < 24 {
           Table::row(-1396227600, 0, 0, "WET")
          } else {
           Table::row(-1379293200, 0, 3600, "WEST")
          }
         } else {
          if i < 26 {
           Table::row(-1364778000, 0, 0, "WET")
          } else {
           if i < 27 {
            Table::row(-1348448400, 0, 3600, "WEST")
           } else {
            Table::row(-1333328400, 0, 0, "WET")
           }
          }
         }
        } else {
         if i < 31 {
          if i < 29 {
           Table::row(-1316394000, 0, 3600, "WEST")
          } else {
           if i < 30 {
            Table::row(-1301263200, 0, 0, "WET")
           } else {
            Table::row(-1284328800, 0, 3600, "WEST")
           }
          }
         } else {
          if i < 32 {
           Table::row(-1269813600, 0, 0, "WET")
          } else {
           if i < 33 {
            Table::row(-1253484000, 0, 3600, "WEST")
           } else {
            Table::row(-1238364000, 0, 0, "WET")
           }
          }
         }
        }
       } else {
        if i < 40 {
         if i < 37 {
          if i < 35 {
           Table::row(-1221429600, 0, 3600, "WEST")
          } else {
           if i < 36 {
            Table::row(-1206914400, 0, 0, "WET")
           } else {
            Table::row(-1191189600, 0, 3600, "WEST")
           }
          }
         } else {
          if i < 38 {
           Table::row(-1175464800, 0, 0, "WET")
          } else {
           if i < 39 {
            Table::row(-1160344800, 0, 3600, "WEST")
           } else {
            Table::row(-1143410400, 0, 0, "WET")
           }
          }
         }
        } else {
         if i < 43 {
          if i < 41 {
           Table::row(-1127685600, 0, 3600, "WEST")
          } else {
           if i < 42 {
            Table::row(-1111960800, 0, 0, "WET")
           } else {
            Table::row(-1096840800, 0, 3600, "WEST")
           }
          }
         } else {
          if i < 44 {
           Table::row(-1080511200, 0, 0, "WET")
          } else {
           if i < 45 {
            Table::row(-1063576800, 0, 3600, "WEST")
           } else {
            Table::row(-1049061600, 0, 0, "WET")
           }
          }
         }
        }
       }
      }
     } else {
      if i < 69 {
       if i < 57 {
        if i < 51 {
         if i < 48 {
          if i < 47 {
           Table::row(-1033336800, 0, 3600, "WEST")
          } else {
           Table::row(-1017612000, 0, 0, "WET")
          }
         } else {
          if i < 49 {
           Table::row(-1002492000, 0, 3600, "WEST")
          } else {
           if i < 50 {
            Table::row(-986162400, 0, 0, "WET")
           } else {
            Table::row(-969228000, 0, 3600, "WEST")
           }
          }
         }
        } else {
         if i < 54 {
          if i < 52 {
           Table::row(-950479200, 0, 0, "WET")
          } else {
           if i < 53 {
            Table::row(-942012000, 0, 3600, "WEST")
           } else {
            Table::row(-934668000, 0, 7200, "CEST")
           }
          }
         } else {
          if i < 55 {
           Table::row(-857257200, 3600, 0, "CET")
          } else {
           if i < 56 {
            Table::row(-844556400, 3600, 3600, "CEST")
           } else {
            Table::row(-828226800, 3600, 0, "CET")
           }
          }
         }
        }
       } else {
        if i < 63 {
         if i < 60 {
          if i < 58 {
           Table::row(-812502000, 3600, 3600, "CEST")
          } else {
           if i < 59 {
            Table::row(-798073200, 3600, 0, "CET")
           } else {
            Table::row(-781052400, 3600, 3600, "CEST")
           }
          }
         } else {
          if i < 61 {
           Table::row(-766623600, 3600, 0, "CET")
          } else {
           if i < 62 {
            Table::row(-745455600, 3600, 3600, "CEST")
           } else {
            Table::row(-733273200, 3600, 0, "CET")
           }
          }
         }
        } else {
         if i < 66 {
          if i < 64 {
           Table::row(228877200, 3600, 3600, "CEST")
          } else {
           if i < 65 {
            Table::row(243997200, 3600, 0, "CET")
           } else {
            Table::row(260326800, 3600, 3600, "CEST")
           }
          }
         } else {
          if i < 67 {
           Table::row(276051600, 3600, 0, "CET")
          } else {
           if i < 68 {
            Table::row(291776400, 3600, 3600, "CEST")
           } else {
            Table::row(307501200, 3600, 0, "CET")
           }
          }
         }
        }
       }
      } else {
       if i < 80 {
        if i < 74 {
         if i < 71 {
          if i < 70 {
           Table::row(323830800, 3600, 3600, "CEST")
          } else {
           Table::row(338950800, 3600, 0, "CET")
          }
         } else {
          if i < 72 {
           Table::row(354675600, 3600, 3600, "CEST")
          } else {
           if i < 73 {
            Table::row(370400400, 3600, 0, "CET")
           } else {
            Table::row(386125200, 3600, 3600, "CEST")
           }
          }
         }
        } else {
         if i < 77 {
          if i < 75 {
           Table::row(401850000, 3600, 0, "CET")
          } else {
           if i < 76 {
            Table::row(417574800, 3600, 3600, "CEST")
           } else {
            Table::row(433299600, 3600, 0, "CET")
           }
          }
         } else {
          if i < 78 {
           Table::row(449024400, 3600, 3600, "CEST")
          } else {
           if i < 79 {
            Table::row(465354000, 3600, 0, "CET")
           } else {
            Table::row(481078800, 3600, 3600, "CEST")
           }
          }
         }
        }
       } else {
        if i < 86 {
         if i < 83 {
          if i < 81 {
           Table::row(496803600, 3600, 0, "CET")
          } else {
           if i < 82 {
            Table::row(512528400, 3600, 3600, "CEST")
           } else {
            Table::row(528253200, 3600, 0, "CET")
           }
          }
         } else {
          if i < 84 {
           Table::row(543978000, 3600, 3600, "CEST")
          } else {
           if i < 85 {
            Table::row(559702800, 3600, 0, "CET")
           } else {
            Table::row(575427600, 3600, 3600, "CEST")
           }
          }
         }
        } else {
         if i < 89 {
          if i < 87 {
           Table::row(591152400, 3600, 0, "CET")
          } else {
           if i < 88 {
            Table::row(606877200, 3600, 3600, "CEST")
           } else {
            Table::row(622602000, 3600, 0, "CET")
           }
          }
         } else {
          if i < 90 {
           Table::row(638326800, 3600, 3600, "CEST")
          } else {
           if i < 91 {
            Table::row(654656400, 3600, 0, "CET")
           } else {
            Table::row(670381200, 3600, 3600, "CEST")
           }
          }
         }
        }
       }
      }
     }
    } else {
     if i < 138 {
      if i < 115 {
       if i < 103 {
        if i < 97 {
         if i < 94 {
          if i < 93 {
           Table::row(686106000, 3600, 0, "CET")
          } else {
           Table::row(701830800, 3600, 3600, "CEST")
          }
         } else {
          if i < 95 {
           Table::row(717555600, 3600, 0, "CET")
          } else {
           if i < 96 {
            Table::row(733280400, 3600, 3600, "CEST")
           } else {
            Table::row(749005200, 3600, 0, "CET")
           }
          }
         }
        } else {
         if i < 100 {
          if i < 98 {
           Table::row(764730000, 3600, 3600, "CEST")
          } else {
           if i < 99 {
            Table::row(780454800, 3600, 0, "CET")
           } else {
            Table::row(796179600, 3600, 3600, "CEST")
           }
          }
         } else {
          if i < 101 {
           Table::row(811904400, 3600, 0, "CET")
          } else {
           if i < 102 {
            Table::row(828234000, 3600, 3600, "CEST")
           } else {
            Table::row(846378000, 3600, 0, "CET")
           }
          }
         }
        }
       } else {
        if i < 109 {
         if i < 106 {
          if i < 104 {
           Table::row(859683600, 3600, 3600, "CEST")
          } else {
           if i < 105 {
            Table::row(877827600, 3600, 0, "CET")
           } else {
            Table::row(891133200, 3600, 3600, "CEST")
           }
          }
         } else {
          if i < 107 {
           Table::row(909277200, 3600, 0, "CET")
          } else {
           if i < 108 {
            Table::row(922582800, 3600, 3600, "CEST")
           } else {
            Table::row(941331600, 3600, 0, "CET")
           }
          }
         }
        } else {
         if i < 112 {
          if i < 110 {
           Table::row(954032400, 3600, 3600, "CEST")
          } else {
           if i < 111 {
            Table::row(972781200, 3600, 0, "CET")
           } else {
            Table::row(985482000, 3600, 3600, "CEST")
           }
          }
         } else {
          if i < 113 {
           Table::row(1004230800, 3600, 0, "CET")
          } else {
           if i < 114 {
            Table::row(1017536400, 3600, 3600, "CEST")
           } else {
            Table::row(1035680400, 3600, 0, "CET")
           }
          }
         }
        }
       }
      } else {
       if i < 126 {
        if i < 120 {
         if i < 117 {
          if i < 116 {
           Table::row(1048986000, 3600, 3600, "CEST")
          } else {
           Table::row(1067130000, 3600, 0, "CET")
          }
         } else {
          if i < 118 {
           Table::row(1080435600, 3600, 3600, "CEST")
          } else {
           if i < 119 {
            Table::row(1099184400, 3600, 0, "CET")
           } else {
            Table::row(1111885200, 3600, 3600, "CEST")
           }
          }
         }
        } else {
         if i < 123 {
          if i < 121 {
           Table::row(1130634000, 3600, 0, "CET")
          } else {
           if i < 122 {
            Table::row(1143334800, 3600, 3600, "CEST")
           } else {
            Table::row(1162083600, 3600, 0, "CET")
           }
          }
         } else {
          if i < 124 {
           Table::row(1174784400, 3600, 3600, "CEST")
          } else {
           if i < 125 {
            Table::row(1193533200, 3600, 0, "CET")
           } else {
            Table::row(1206838800, 3600, 3600, "CEST")
           }
          }
         }
        }
       } else {
        if i < 132 {
         if i < 129 {
          if i < 127 {
           Table::row(1224982800, 3600, 0, "CET")
          } else {
           if i < 128 {
            Table::row(1238288400, 3600, 3600, "CEST")
           } else {
            Table::row(1256432400, 3600, 0, "CET")
           }
          }
         } else {
          if i < 130 {
           Table::row(1269738000, 3600, 3600, "CEST")
          } else {
           if i < 131 {
            Table::row(1288486800, 3600, 0, "CET")
           } else {
            Table::row(1301187600, 3600, 3600, "CEST")
           }
          }
         }
        } else {
         if i < 135 {
          if i < 133 {
           Table::row(1319936400, 3600, 0, "CET")
          } else {
           if i < 134 {
            Table::row(1332637200, 3600, 3600, "CEST")
           } else {
            Table::row(1351386000, 3600, 0, "CET")
           }
          }
         } else {
          if i < 136 {
           Table::row(1364691600, 3600, 3600, "CEST")
          } else {
           if i < 137 {
            Table::row(1382835600, 3600, 0, "CET")
           } else {
            Table::row(1396141200, 3600, 3600, "CEST")
           }
          }
         }
        }
       }
      }
     } else {
      if i < 161 {
       if i < 149 {
        if i < 143 {
         if i < 140 {
          if i < 139 {
           Table::row(1414285200, 3600, 0, "CET")
          } else {
           Table::row(1427590800, 3600, 3600, "CEST")
          }
         } else {
          if i < 141 {
           Table::row(1445734800, 3600, 0, "CET")
          } else {
           if i < 142 {
            Table::row(1459040400, 3600, 3600, "CEST")
           } else {
            Table::row(1477789200, 3600, 0, "CET")
           }
          }
         }
        } else {
         if i < 146 {
          if i < 144 {
           Table::row(1490490000, 3600, 3600, "CEST")
          } else {
           if i < 145 {
            Table::row(1509238800, 3600, 0, "CET")
           } else {
            Table::row(1521939600, 3600, 3600, "CEST")
           }
          }
         } else {
          if i < 147 {
           Table::row(1540688400, 3600, 0, "CET")
          } else {
           if i < 148 {
            Table::row(1553994000, 3600, 3600, "CEST")
           } else {
            Table::row(1572138000, 3600, 0, "CET")
           }
          }
         }
        }
       } else {
        if i < 155 {
         if i < 152 {
          if i < 150 {
           Table::row(1585443600, 3600, 3600, "CEST")
          } else {
           if i < 151 {
            Table::row(1603587600, 3600, 0, "CET")
           } else {
            Table::row(1616893200, 3600, 3600, "CEST")
           }
          }
         } else {
          if i < 153 {
           Table::row(1635642000, 3600, 0, "CET")
          } else {
           if i < 154 {
            Table::row(1648342800, 3600, 3600, "CEST")
           } else {
            Table::row(1667091600, 3600, 0, "CET")
           }
          }
         }
        } else {
         if i < 158 {
          if i < 156 {
           Table::row(1679792400, 3600, 3600, "CEST")
          } else {
           if i < 157 {
            Table::row(1698541200, 3600, 0, "CET")
           } else {
            Table::row(1711846800, 3600, 3600, "CEST")
           }
          }
         } else {
          if i < 159 {
           Table::row(1729990800, 3600, 0, "CET")
          } else {
           if i < 160 {
            Table::row(1743296400, 3600, 3600, "CEST")
           } else {
            Table::row(1761440400, 3600, 0, "CET")
           }
          }
         }
        }
       }
      } else {
       if i < 173 {
        if i < 167 {
         if i < 164 {
          if i < 162 {
           Table::row(1774746000, 3600, 3600, "CEST")
          } else {
           if i < 163 {
            Table::row(1792890000, 3600, 0, "CET")
           } else {
            Table::row(1806195600, 3600, 3600, "CEST")
           }
          }
         } else {
          if i < 165 {
           Table::row(1824944400, 3600, 0, "CET")
          } else {
           if i < 166 {
            Table::row(1837645200, 3600, 3600, "CEST")
           } else {
            Table::row(1856394000, 3600, 0, "CET")
           }
          }
         }
        } else {
         if i < 170 {
          if i < 168 {
           Table::row(1869094800, 3600, 3600, "CEST")
          } else {
           if i < 169 {
            Table::row(1887843600, 3600, 0, "CET")
           } else {
            Table::row(1901149200, 3600, 3600, "CEST")
           }
          }
         } else {
          if i < 171 {
           Table::row(1919293200, 3600, 0, "CET")
          } else {
           if i < 172 {
            Table::row(1932598800, 3600, 3600, "CEST")
           } else {
            Table::row(1950742800, 3600, 0, "CET")
           }
          }
         }
        }
       } else {
        if i < 179 {
         if i < 176 {
          if i < 174 {
           Table::row(1964048400, 3600, 3600, "CEST")
          } else {
           if i < 175 {
            Table::row(1982797200, 3600, 0, "CET")
           } else {
            Table::row(1995498000, 3600, 3600, "CEST")
           }
          }
         } else {
          if i < 177 {
           Table::row(2014246800, 3600, 0, "CET")
          } else {
           if i < 178 {
            Table::row(2026947600, 3600, 3600, "CEST")
           } else {
            Table::row(2045696400, 3600, 0, "CET")
           }
          }
         }
        } else {
         if i < 182 {
          if i < 180 {
           Table::row(2058397200, 3600, 3600, "CEST")
          } else {
           if i < 181 {
            Table::row(2077146000, 3600, 0, "CET")
           } else {
            Table::row(2090451600, 3600, 3600, "CEST")
           }
          }
         } else {
          if i < 183 {
           Table::row(2108595600, 3600, 0, "CET")
          } else {
           if i < 184 {
            Table::row(2121901200, 3600, 3600, "CEST")
           } else {
            Table::row(2140045200, 3600, 0, "CET")
           }
          }
         }
        }
       }
      }
     }
    }
}

/// The rows of the table of the zone `Europe/Brussels`.
pub open spec fn brussels_rows() -> spec_fn(int) -> (i64, FixedTimespan) {
    |i: int| brussels_row(i)
}

/// The table of the zone `Europe/Brussels`.
pub open spec fn brussels() -> Table {
    Table::listed(Table::row(0, 1050, 0, "LMT").1, 185, brussels_rows())
}

/// Row `i` of the table of the zone `Europe/Bucharest`.
pub open spec fn bucharest_row(i: int) -> (i64, FixedTimespan) {
    if i < 68 {
     if i < 34 {
      if i < 17 {
       if i < 8 {
        if i < 4 {
         if i < 2 {
          if i < 1 {
           Table::row(-2469404664, 6264, 0, "BMT")
          } else {
           Table::row(-1213148664, 7200, 0, "EET")
          }
         } else {
          if i < 3 {
           Table::row(-1187056800, 7200, 3600, "EEST")
          } else {
           Table::row(-1175479200, 7200, 0, "EET")
          }
         }
        } else {
         if i < 6 {
          if i < 5 {
           Table::row(-1159754400, 7200, 3600, "EEST")
          } else {
           Table::row(-1144029600, 7200, 0, "EET")
          }
         } else {
          if i < 7 {
           Table::row(-1127700000, 7200, 3600, "EEST")
          } else {
           Table::row(-1111975200, 7200, 0, "EET")
          }
         }
        }
       } else {
        if i < 12 {
         if i < 10 {
          if i < 9 {
           Table::row(-1096250400, 7200, 3600, "EEST")
          } else {
           Table::row(-1080525600, 7200, 0, "EET")
          }
         } else {
          if i < 11 {
           Table::row(-1064800800, 7200, 3600, "EEST")
          } else {
           Table::row(-1049076000, 7200, 0, "EET")
          }
         }
        } else {
         if i < 14 {
          if i < 13 {
           Table::row(-1033351200, 7200, 3600, "EEST")
          } else {
           Table::row(-1017626400, 7200, 0, "EET")
          }
         } else {
          if i < 15 {
           Table::row(-1001901600, 7200, 3600, "EEST")
          } else {
           if i < 16 {
            Table::row(-986176800, 7200, 0, "EET")
           } else {
            Table::row(-970452000, 7200, 3600, "EEST")
           }
          }
         }
        }
       }
      } else {
       if i < 25 {
        if i < 21 {
         if i < 19 {
          if i < 18 {
           Table::row(-954727200, 7200, 0, "EET")
          } else {
           Table::row(296604000, 7200, 3600, "EEST")
          }
         } else {
          if i < 20 {
           Table::row(307486800, 7200, 0, "EET")
          } else {
           Table::row(323816400, 7200, 3600, "EEST")
          }
         }
        } else {
         if i < 23 {
          if i < 22 {
           Table::row(338940000, 7200, 0, "EET")
          } else {
           Table::row(354672000, 7200, 3600, "EEST")
          }
         } else {
          if i < 24 {
           Table::row(370396800, 7200, 0, "EET")
          } else {
           Table::row(386121600, 7200, 3600, "EEST")
          }
         }
        }
       } else {
        if i < 29 {
         if i < 27 {
          if i < 26 {
           Table::row(401846400, 7200, 0, "EET")
          } else {
           Table::row(417571200, 7200, 3600, "EEST")
          }
         } else {
          if i < 28 {
           Table::row(433296000, 7200, 0, "EET")
          } else {
           Table::row(449020800, 7200, 3600, "EEST")
          }
         }
        } else {
         if i < 31 {
          if i < 30 {
           Table::row(465350400, 7200, 0, "EET")
          } else {
           Table::row(481075200, 7200, 3600, "EEST")
          }
         } else {
          if i < 32 {
           Table::row(496800000, 7200, 0, "EET")
          } else {
           if i < 33 {
            Table::row(512524800, 7200, 3600, "EEST")
           } else {
            Table::row(528249600, 7200, 0, "EET")
           }
          }
         }
        }
       }
      }
     } else {
      if i < 51 {
       if i < 42 {
        if i < 38 {
         if i < 36 {
          if i < 35 {
           Table::row(543974400, 7200, 3600, "EEST")
          } else {
           Table::row(559699200, 7200, 0, "EET")
          }
         } else {
          if i < 37 {
           Table::row(575424000, 7200, 3600, "EEST")
          } else {
           Table::row(591148800, 7200, 0, "EET")
          }
         }
        } else {
         if i < 40 {
          if i < 39 {
           Table::row(606873600, 7200, 3600, "EEST")
          } else {
           Table::row(622598400, 7200, 0, "EET")
          }
         } else {
          if i < 41 {
           Table::row(638323200, 7200, 3600, "EEST")
          } else {
           Table::row(654652800, 7200, 0, "EET")
          }
         }
        }
       } else {
        if i < 46 {
         if i < 44 {
          if i < 43 {
           Table::row(670370400, 7200, 3600, "EEST")
          } else {
           Table::row(686095200, 7200, 0, "EET")
          }
         } else {
          if i < 45 {
           Table::row(701820000, 7200, 3600, "EEST")
          } else {
           Table::row(717544800, 7200, 0, "EET")
          }
         }
        } else {
         if i < 48 {
          if i < 47 {
           Table::row(733269600, 7200, 3600, "EEST")
          } else {
           Table::row(748994400, 7200, 0, "EET")
          }
         } else {
          if i < 49 {
           Table::row(764719200, 7200, 3600, "EEST")
          } else {
           if i < 50 {
            Table::row(780440400, 7200, 0, "EET")
           } else {
            Table::row(796168800, 7200, 3600, "EEST")
           }
          }
         }
        }
       }
      } else {
       if i < 59 {
        if i < 55 {
         if i < 53 {
          if i < 52 {
           Table::row(811890000, 7200, 0, "EET")
          } else {
           Table::row(828223200, 7200, 3600, "EEST")
          }
         } else {
          if i < 54 {
           Table::row(846363600, 7200, 0, "EET")
          } else {
           Table::row(859683600, 7200, 3600, "EEST")
          }
         }
        } else {
         if i < 57 {
          if i < 56 {
           Table::row(877827600, 7200, 0, "EET")
          } else {
           Table::row(891133200, 7200, 3600, "EEST")
          }
         } else {
          if i < 58 {
           Table::row(909277200, 7200, 0, "EET")
          } else {
           Table::row(922582800, 7200, 3600, "EEST")
          }
         }
        }
       } else {
        if i < 63 {
         if i < 61 {
          if i < 60 {
           Table::row(941331600, 7200, 0, "EET")
          } else {
           Table::row(954032400, 7200, 3600, "EEST")
          }
         } else {
          if i < 62 {
           Table::row(972781200, 7200, 0, "EET")
          } else {
           Table::row(985482000, 7200, 3600, "EEST")
          }
         }
        } else {
         if i < 65 {
          if i < 64 {
           Table::row(1004230800, 7200, 0, "EET")
          } else {
           Table::row(1017536400, 7200, 3600, "EEST")
          }
         } else {
          if i < 66 {
           Table::row(1035680400, 7200, 0, "EET")
          } else {
           if i < 67 {
            Table::row(1048986000, 7200, 3600, "EEST")
           } else {
            Table::row(1067130000, 7200, 0, "EET")
           }
          }
         }
        }
       }
      }
     }
    } else {
     if i < 102 {
      if i < 85 {
       if i < 76 {
        if i < 72 {
         if i < 70 {
          if i < 69 {
           Table::row(1080435600, 7200, 3600, "EEST")
          } else {
           Table::row(1099184400, 7200, 0, "EET")
          }
         } else {
          if i < 71 {
           Table::row(1111885200, 7200, 3600, "EEST")
          } else {
           Table::row(1130634000, 7200, 0, "EET")
          }
         }
        } else {
         if i < 74 {
          if i < 73 {
           Table::row(1143334800, 7200, 3600, "EEST")
          } else {
           Table::row(1162083600, 7200, 0, "EET")
          }
         } else {
          if i < 75 {
           Table::row(1174784400, 7200, 3600, "EEST")
          } else {
           Table::row(1193533200, 7200, 0, "EET")
          }
         }
        }
       } else {
        if i < 80 {
         if i < 78 {
          if i < 77 {
           Table::row(1206838800, 7200, 3600, "EEST")
          } else {
           Table::row(1224982800, 7200, 0, "EET")
          }
         } else {
          if i < 79 {
           Table::row(1238288400, 7200, 3600, "EEST")
          } else {
           Table::row(1256432400, 7200, 0, "EET")
          }
         }
        } else {
         if i < 82 {
          if i < 81 {
           Table::row(1269738000, 7200, 3600, "EEST")
          } else {
           Table::row(1288486800, 7200, 0, "EET")
          }
         } else {
          if i < 83 {
           Table::row(1301187600, 7200, 3600, "EEST")
          } else {
           if i < 84 {
            Table::row(1319936400, 7200, 0, "EET")
           } else {
            Table::row(1332637200, 7200, 3600, "EEST")
           }
          }
         }
        }
       }
      } else {
       if i < 93 {
        if i < 89 {
         if i < 87 {
          if i < 86 {
           Table::row(1351386000, 7200, 0, "EET")
          } else {
           Table::row(1364691600, 7200, 3600, "EEST")
          }
         } else {
          if i < 88 {
           Table::row(1382835600, 7200, 0, "EET")
          } else {
           Table::row(1396141200, 7200, 3600, "EEST")
          }
         }
        } else {
         if i < 91 {
          if i < 90 {
           Table::row(1414285200, 7200, 0, "EET")
          } else {
           Table::row(1427590800, 7200, 3600, "EEST")
          }
         } else {
          if i < 92 {
           Table::row(1445734800, 7200, 0, "EET")
          } else {
           Table::row(1459040400, 7200, 3600, "EEST")
          }
         }
        }
       } else {
        if i < 97 {
         if i < 95 {
          if i < 94 {
           Table::row(1477789200, 7200, 0, "EET")
          } else {
           Table::row(1490490000, 7200, 3600, "EEST")
          }
         } else {
          if i < 96 {
           Table::row(1509238800, 7200, 0, "EET")
          } else {
           Table::row(1521939600, 7200, 3600, "EEST")
          }
         }
        } else {
         if i < 99 {
          if i < 98 {
           Table::row(1540688400, 7200, 0, "EET")
          } else {
           Table::row(1553994000, 7200, 3600, "EEST")
          }
         } else {
          if i < 100 {
           Table::row(1572138000, 7200, 0, "EET")
          } else {
           if i < 101 {
            Table::row(1585443600, 7200, 3600, "EEST")
           } else {
            Table::row(1603587600, 7200, 0, "EET")
           }
          }
         }
        }
       }
      }
     } else {
      if i < 119 {
       if i < 110 {
        if i < 106 {
         if i < 104 {
          if i < 103 {
           Table::row(1616893200, 7200, 3600, "EEST")
          } else {
           Table::row(1635642000, 7200, 0, "EET")
          }
         } else {
          if i < 105 {
           Table::row(1648342800, 7200, 3600, "EEST")
          } else {
           Table::row(1667091600, 7200, 0, "EET")
          }
         }
        } else {
         if i < 108 {
          if i < 107 {
           Table::row(1679792400, 7200, 3600, "EEST")
          } else {
           Table::row(1698541200, 7200, 0, "EET")
          }
         } else {
          if i < 109 {
           Table::row(1711846800, 7200, 3600, "EEST")
          } else {
           Table::row(1729990800, 7200, 0, "EET")
          }
         }
        }
       } else {
        if i < 114 {
         if i < 112 {
          if i < 111 {
           Table::row(1743296400, 7200, 3600, "EEST")
          } else {
           Table::row(1761440400, 7200, 0, "EET")
          }
         } else {
          if i < 113 {
           Table::row(1774746000, 7200, 3600, "EEST")
          } else {
           Table::row(1792890000, 7200, 0, "EET")
          }
         }
        } else {
         if i < 116 {
          if i < 115 {
           Table::row(1806195600, 7200, 3600, "EEST")
          } else {
           Table::row(1824944400, 7200, 0, "EET")
          }
         } else {
          if i < 117 {
           Table::row(1837645200, 7200, 3600, "EEST")
          } else {
           if i < 118 {
            Table::row(1856394000, 7200, 0, "EET")
           } else {
            Table::row(1869094800, 7200, 3600, "EEST")
           }
          }
         }
        }
       }
      } else {
       if i < 127 {
        if i < 123 {
         if i < 121 {
          if i < 120 {
           Table::row(1887843600, 7200, 0, "EET")
          } else {
           Table::row(1901149200, 7200, 3600, "EEST")
          }
         } else {
          if i < 122 {
           Table::row(1919293200, 7200, 0, "EET")
          } else {
           Table::row(1932598800, 7200, 3600, "EEST")
          }
         }
        } else {
         if i < 125 {
          if i < 124 {
           Table::row(1950742800, 7200, 0, "EET")
          } else {
           Table::row(1964048400, 7200, 3600, "EEST")
          }
         } else {
          if i < 126 {
           Table::row(1982797200, 7200, 0, "EET")
          } else {
           Table::row(1995498000, 7200, 3600, "EEST")
          }
         }
        }
       } else {
        if i < 131 {
         if i < 129 {
          if i < 128 {
           Table::row(2014246800, 7200, 0, "EET")
          } else {
           Table::row(2026947600, 7200, 3600, "EEST")
          }
         } else {
          if i < 130 {
           Table::row(2045696400, 7200, 0, "EET")
          } else {
           Table::row(2058397200, 7200, 3600, "EEST")
          }
         }
        } else {
         if i < 133 {
          if i < 132 {
           Table::row(2077146000, 7200, 0, "EET")
          } else {
           Table::row(2090451600, 7200, 3600, "EEST")
          }
         } else {
          if i < 134 {
           Table::row(2108595600, 7200, 0, "EET")
          } else {
           if i < 135 {
            Table::row(2121901200, 7200, 3600, "EEST")
           } else {
            Table::row(2140045200, 7200, 0, "EET")
           }
          }
         }
        }
       }
      }
     }
    }
}

/// The rows of the table of the zone `Europe/Bucharest`.
pub open spec fn bucharest_rows() -> spec_fn(int) -> (i64, FixedTimespan) {
    |i: int| bucharest_row(i)
}

/// The table of the zone `Europe/Bucharest`.
pub open spec fn bucharest() -> Table {
    Table::listed(Table::row(0, 6264, 0, "LMT").1, 136, bucharest_rows())
}

/// Row `i` of the table of the zone `Europe/Budapest`.
pub open spec fn budapest_row(i: int) -> (i64, FixedTimespan) {
    if i < 75 {
     if i < 37 {
      if i < 18 {
       if i < 9 {
        if i < 4 {
         if i < 2 {
          if i < 1 {
           Table::row(-2498260580, 3600, 0, "CET")
          } else {
           Table::row(-1693706400, 3600, 3600, "CEST")
          }
         } else {
          if i < 3 {
           Table::row(-1680483600, 3600, 0, "CET")
          } else {
           Table::row(-1663455600, 3600, 3600, "CEST")
          }
         }
        } else {
         if i < 6 {
          if i < 5 {
           Table::row(-1650150000, 3600, 0, "CET")
          } else {
           Table::row(-1632006000, 3600, 3600, "CEST")
          }
         } else {
          if i < 7 {
           Table::row(-1618700400, 3600, 0, "CET")
          } else {
           if i < 8 {
            Table::row(-1600470000, 3600, 3600, "CEST")
           } else {
            Table::row(-1587250800, 3600, 0, "CET")
           }
          }
         }
        }
       } else {
        if i < 13 {
         if i < 11 {
          if i < 10 {
           Table::row(-1569711600, 3600, 3600, "CEST")
          } else {
           Table::row(-1555196400, 3600, 0, "CET")
          }
         } else {
          if i < 12 {
           Table::row(-906775200, 3600, 3600, "CEST")
          } else {
           Table::row(-857257200, 3600, 0, "CET")
          }
         }
        } else {
         if i < 15 {
          if i < 14 {
           Table::row(-844556400, 3600, 3600, "CEST")
          } else {
           Table::row(-828226800, 3600, 0, "CET")
          }
         } else {
          if i < 16 {
           Table::row(-812502000, 3600, 3600, "CEST")
          } else {
           if i < 17 {
            Table::row(-796777200, 3600, 0, "CET")
           } else {
            Table::row(-778471200, 3600, 3600, "CEST")
           }
          }
         }
        }
       }
      } else {
       if i < 27 {
        if i < 22 {
         if i < 20 {
          if i < 19 {
           Table::row(-762656400, 3600, 0, "CET")
          } else {
           Table::row(-749689200, 3600, 3600, "CEST")
          }
         } else {
          if i < 21 {
           Table::row(-733276800, 3600, 0, "CET")
          } else {
           Table::row(-717634800, 3600, 3600, "CEST")
          }
         }
        } else {
         if i < 24 {
          if i < 23 {
           Table::row(-701910000, 3600, 0, "CET")
          } else {
           Table::row(-686185200, 3600, 3600, "CEST")
          }
         } else {
          if i < 25 {
           Table::row(-670460400, 3600, 0, "CET")
          } else {
           if i < 26 {
            Table::row(-654130800, 3600, 3600, "CEST")
           } else {
            Table::row(-639010800, 3600, 0, "CET")
           }
          }
         }
        }
       } else {
        if i < 32 {
         if i < 29 {
          if i < 28 {
           Table::row(-492656400, 3600, 3600, "CEST")
          } else {
           Table::row(-481168800, 3600, 0, "CET")
          }
         } else {
          if i < 30 {
           Table::row(-461199600, 3600, 3600, "CEST")
          } else {
           if i < 31 {
            Table::row(-449708400, 3600, 0, "CET")
           } else {
            Table::row(-428540400, 3600, 3600, "CEST")
           }
          }
         }
        } else {
         if i < 34 {
          if i < 33 {
           Table::row(-418258800, 3600, 0, "CET")
          } else {
           Table::row(-397090800, 3600, 3600, "CEST")
          }
         } else {
          if i < 35 {
           Table::row(-386809200, 3600, 0, "CET")
          } else {
           if i < 36 {
            Table::row(323823600, 3600, 3600, "CEST")
           } else {
            Table::row(338943600, 3600, 0, "CET")
           }
          }
         }
        }
       }
      }
     } else {
      if i < 56 {
       if i < 46 {
        if i < 41 {
         if i < 39 {
          if i < 38 {
           Table::row(354668400, 3600, 3600, "CEST")
          } else {
           Table::row(370393200, 3600, 0, "CET")
          }
         } else {
          if i < 40 {
           Table::row(386118000, 3600, 3600, "CEST")
          } else {
           Table::row(401842800, 3600, 0, "CET")
          }
         }
        } else {
         if i < 43 {
          if i < 42 {
           Table::row(417567600, 3600, 3600, "CEST")
          } else {
           Table::row(433292400, 3600, 0, "CET")
          }
         } else {
          if i < 44 {
           Table::row(449024400, 3600, 3600, "CEST")
          } else {
           if i < 45 {
            Table::row(465354000, 3600, 0, "CET")
           } else {
            Table::row(481078800, 3600, 3600, "CEST")
           }
          }
         }
        }
       } else {
        if i < 51 {
         if i < 48 {
          if i < 47 {
           Table::row(496803600, 3600, 0, "CET")
          } else {
           Table::row(512528400, 3600, 3600, "CEST")
          }
         } else {
          if i < 49 {
           Table::row(528253200, 3600, 0, "CET")
          } else {
           if i < 50 {
            Table::row(543978000, 3600, 3600, "CEST")
           } else {
            Table::row(559702800, 3600, 0, "CET")
           }
          }
         }
        } else {
         if i < 53 {
          if i < 52 {
           Table::row(575427600, 3600, 3600, "CEST")
          } else {
           Table::row(591152400, 3600, 0, "CET")
          }
         } else {
          if i < 54 {
           Table::row(606877200, 3600, 3600, "CEST")
          } else {
           if i < 55 {
            Table::row(622602000, 3600, 0, "CET")
           } else {
            Table::row(638326800, 3600, 3600, "CEST")
           }
          }
         }
        }
       }
      } else {
       if i < 65 {
        if i < 60 {
         if i < 58 {
          if i < 57 {
           Table::row(654656400, 3600, 0, "CET")
          } else {
           Table::row(670381200, 3600, 3600, "CEST")
          }
         } else {
          if i < 59 {
           Table::row(686106000, 3600, 0, "CET")
          } else {
           Table::row(701830800, 3600, 3600, "CEST")
          }
         }
        } else {
         if i < 62 {
          if i < 61 {
           Table::row(717555600, 3600, 0, "CET")
          } else {
           Table::row(733280400, 3600, 3600, "CEST")
          }
         } else {
          if i < 63 {
           Table::row(749005200, 3600, 0, "CET")
          } else {
           if i < 64 {
            Table::row(764730000, 3600, 3600, "CEST")
           } else {
            Table::row(780454800, 3600, 0, "CET")
           }
          }
         }
        }
       } else {
        if i < 70 {
         if i < 67 {
          if i < 66 {
           Table::row(796179600, 3600, 3600, "CEST")
          } else {
           Table::row(811904400, 3600, 0, "CET")
          }
         } else {
          if i < 68 {
           Table::row(828234000, 3600, 3600, "CEST")
          } else {
           if i < 69 {
            Table::row(846378000, 3600, 0, "CET")
           } else {
            Table::row(859683600, 3600, 3600, "CEST")
           }
          }
         }
        } else {
         if i < 72 {
          if i < 71 {
           Table::row(877827600, 3600, 0, "CET")
          } else {
           Table::row(891133200, 3600, 3600, "CEST")
          }
         } else {
          if i < 73 {
           Table::row(909277200, 3600, 0, "CET")
          } else {
           if i < 74 {
            Table::row(922582800, 3600, 3600, "CEST")
           } else {
            Table::row(941331600, 3600, 0, "CET")
           }
          }
         }
        }
       }
      }
     }
    } else {
     if i < 113 {
      if i < 94 {
       if i < 84 {
        if i < 79 {
         if i < 77 {
          if i < 76 {
           Table::row(954032400, 3600, 3600, "CEST")
          } else {
           Table::row(972781200, 3600, 0, "CET")
          }
         } else {
          if i < 78 {
           Table::row(985482000, 3600, 3600, "CEST")
          } else {
           Table::row(1004230800, 3600, 0, "CET")
          }
         }
        } else {
         if i < 81 {
          if i < 80 {
           Table::row(1017536400, 3600, 3600, "CEST")
          } else {
           Table::row(1035680400, 3600, 0, "CET")
          }
         } else {
          if i < 82 {
           Table::row(1048986000, 3600, 3600, "CEST")
          } else {
           if i < 83 {
            Table::row(1067130000, 3600, 0, "CET")
           } else {
            Table::row(1080435600, 3600, 3600, "CEST")
           }
          }
         }
        }
       } else {
        if i < 89 {
         if i < 86 {
          if i < 85 {
           Table::row(1099184400, 3600, 0, "CET")
          } else {
           Table::row(1111885200, 3600, 3600, "CEST")
          }
         } else {
          if i < 87 {
           Table::row(1130634000, 3600, 0, "CET")
          } else {
           if i < 88 {
            Table::row(1143334800, 3600, 3600, "CEST")
           } else {
            Table::row(1162083600, 3600, 0, "CET")
           }
          }
         }
        } else {
         if i < 91 {
          if i < 90 {
           Table::row(1174784400, 3600, 3600, "CEST")
          } else {
           Table::row(1193533200, 3600, 0, "CET")
          }
         } else {
          if i < 92 {
           Table::row(1206838800, 3600, 3600, "CEST")
          } else {
           if i < 93 {
            Table::row(1224982800, 3600, 0, "CET")
           } else {
            Table::row(1238288400, 3600, 3600, "CEST")
           }
          }
         }
        }
       }
      } else {
       if i < 103 {
        if i < 98 {
         if i < 96 {
          if i < 95 {
           Table::row(1256432400, 3600, 0, "CET")
          } else {
           Table::row(1269738000, 3600, 3600, "CEST")
          }
         } else {
          if i < 97 {
           Table::row(1288486800, 3600, 0, "CET")
          } else {
           Table::row(1301187600, 3600, 3600, "CEST")
          }
         }
        } else {
         if i < 100 {
          if i < 99 {
           Table::row(1319936400, 3600, 0, "CET")
          } else {
           Table::row(1332637200, 3600, 3600, "CEST")
          }
         } else {
          if i < 101 {
           Table::row(1351386000, 3600, 0, "CET")
          } else {
           if i < 102 {
            Table::row(1364691600, 3600, 3600, "CEST")
           } else {
            Table::row(1382835600, 3600, 0, "CET")
           }
          }
         }
        }
       } else {
        if i < 108 {
         if i < 105 {
          if i < 104 {
           Table::row(1396141200, 3600, 3600, "CEST")
          } else {
           Table::row(1414285200, 3600, 0, "CET")
          }
         } else {
          if i < 106 {
           Table::row(1427590800, 3600, 3600, "CEST")
          } else {
           if i < 107 {
            Table::row(1445734800, 3600, 0, "CET")
           } else {
            Table::row(1459040400, 3600, 3600, "CEST")
           }
          }
         }
        } else {
         if i < 110 {
          if i < 109 {
           Table::row(1477789200, 3600, 0, "CET")
          } else {
           Table::row(1490490000, 3600, 3600, "CEST")
          }
         } else {
          if i < 111 {
           Table::row(1509238800, 3600, 0, "CET")
          } else {
           if i < 112 {
            Table::row(1521939600, 3600, 3600, "CEST")
           } else {
            Table::row(1540688400, 3600, 0, "CET")
           }
          }
         }
        }
       }
      }
     } else {
      if i < 132 {
       if i < 122 {
        if i < 117 {
         if i < 115 {
          if i < 114 {
           Table::row(1553994000, 3600, 3600, "CEST")
          } else {
           Table::row(1572138000, 3600, 0, "CET")
          }
         } else {
          if i < 116 {
           Table::row(1585443600, 3600, 3600, "CEST")
          } else {
           Table::row(1603587600, 3600, 0, "CET")
          }
         }
        } else {
         if i < 119 {
          if i < 118 {
           Table::row(1616893200, 3600, 3600, "CEST")
          } else {
           Table::row(1635642000, 3600, 0, "CET")
          }
         } else {
          if i < 120 {
           Table::row(1648342800, 3600, 3600, "CEST")
          } else {
           if i < 121 {
            Table::row(1667091600, 3600, 0, "CET")
           } else {
            Table::row(1679792400, 3600, 3600, "CEST")
           }
          }
         }
        }
       } else {
        if i < 127 {
         if i < 124 {
          if i < 123 {
           Table::row(1698541200, 3600, 0, "CET")
          } else {
           Table::row(1711846800, 3600, 3600, "CEST")
          }
         } else {
          if i < 125 {
           Table::row(1729990800, 3600, 0, "CET")
          } else {
           if i < 126 {
            Table::row(1743296400, 3600, 3600, "CEST")
           } else {
            Table::row(1761440400, 3600, 0, "CET")
           }
          }
         }
        } else {
         if i < 129 {
          if i < 128 {
           Table::row(1774746000, 3600, 3600, "CEST")
          } else {
           Table::row(1792890000, 3600, 0, "CET")
          }
         } else {
          if i < 130 {
           Table::row(1806195600, 3600, 3600, "CEST")
          } else {
           if i < 131 {
            Table::row(1824944400, 3600, 0, "CET")
           } else {
            Table::row(1837645200, 3600, 3600, "CEST")
           }
          }
         }
        }
       }
      } else {
       if i < 141 {
        if i < 136 {
         if i < 134 {
          if i < 133 {
           Table::row(1856394000, 3600, 0, "CET")
          } else {
           Table::row(1869094800, 3600, 3600, "CEST")
          }
         } else {
          if i < 135 {
           Table::row(1887843600, 3600, 0, "CET")
          } else {
           Table::row(1901149200, 3600, 3600, "CEST")
          }
         }
        } else {
         if i < 138 {
          if i < 137 {
           Table::row(1919293200, 3600, 0, "CET")
          } else {
           Table::row(1932598800, 3600, 3600, "CEST")
          }
         } else {
          if i < 139 {
           Table::row(1950742800, 3600, 0, "CET")
          } else {
           if i < 140 {
            Table::row(1964048400, 3600, 3600, "CEST")
           } else {
            Table::row(1982797200, 3600, 0, "CET")
           }
          }
         }
        }
       } else {
        if i < 146 {
         if i < 143 {
          if i < 142 {
           Table::row(1995498000, 3600, 3600, "CEST")
          } else {
           Table::row(2014246800, 3600, 0, "CET")
          }
         } else {
          if i < 144 {
           Table::row(2026947600, 3600, 3600, "CEST")
          } else {
           if i < 145 {
            Table::row(2045696400, 3600, 0, "CET")
           } else {
            Table::row(2058397200, 3600, 3600, "CEST")
           }
          }
         }
        } else {
         if i < 148 {
          if i < 147 {
           Table::row(2077146000, 3600, 0, "CET")
          } else {
           Table::row(2090451600, 3600, 3600, "CEST")
          }
         } else {
          if i < 149 {
           Table::row(2108595600, 3600, 0, "CET")
          } else {
           if i < 150 {
            Table::row(2121901200, 3600, 3600, "CEST")
           } else {
            Table::row(2140045200, 3600, 0, "CET")
           }
          }
         }
        }
       }
      }
     }
    }
}

/// The rows of the table of the zone `Europe/Budapest`.
pub open spec fn budapest_rows() -> spec_fn(int) -> (i64, FixedTimespan) {
    |i: int| budapest_row(i)
}

/// The table of the zone `Europe/Budapest`.
pub open spec fn budapest() -> Table {
    Table::listed(Table::row(0, 4580, 0, "LMT").1, 151, budapest_rows())
}

/// Row `i` of the table of the zone `Europe/Busingen`.
pub open spec fn busingen_row(i: int) -> (i64, FixedTimespan) {
    if i < 60 {
     if i < 30 {
      if i < 15 {
       if i < 7 {
        if i < 3 {
         if i < 1 {
          Table::row(-3675198848, 1786, 0, "BMT")
         } else {
          if i < 2 {
           Table::row(-2385246586, 3600, 0, "CET")
          } else {
           Table::row(-904435200, 3600, 3600, "CEST")
          }
         }
        } else {
         if i < 5 {
          if i < 4 {
           Table::row(-891129600, 3600, 0, "CET")
          } else {
           Table::row(-872985600, 3600, 3600, "CEST")
          }
         } else {
          if i < 6 {
           Table::row(-859680000, 3600, 0, "CET")
          } else {
           Table::row(354675600, 3600, 3600, "CEST")
          }
         }
        }
       } else {
        if i < 11 {
         if i < 9 {
          if i < 8 {
           Table::row(370400400, 3600, 0, "CET")
          } else {
           Table::row(386125200, 3600, 3600, "CEST")
          }
         } else {
          if i < 10 {
           Table::row(401850000, 3600, 0, "CET")
          } else {
           Table::row(417574800, 3600, 3600, "CEST")
          }
         }
        } else {
         if i < 13 {
          if i < 12 {
           Table::row(433299600, 3600, 0, "CET")
          } else {
           Table::row(449024400, 3600, 3600, "CEST")
          }
         } else {
          if i < 14 {
           Table::row(465354000, 3600, 0, "CET")
          } else {
           Table::row(481078800, 3600, 3600, "CEST")
          }
         }
        }
       }
      } else {
       if i < 22 {
        if i < 18 {
         if i < 16 {
          Table::row(496803600, 3600, 0, "CET")
         } else {
          if i < 17 {
           Table::row(512528400, 3600, 3600, "CEST")
          } else {
           Table::row(528253200, 3600, 0, "CET")
          }
         }
        } else {
         if i < 20 {
          if i < 19 {
           Table::row(543978000, 3600, 3600, "CEST")
          } else {
           Table::row(559702800, 3600, 0, "CET")
          }
         } else {
          if i < 21 {
           Table::row(575427600, 3600, 3600, "CEST")
          } else {
           Table::row(591152400, 3600, 0, "CET")
          }
         }
        }
       } else {
        if i < 26 {
         if i < 24 {
          if i < 23 {
           Table::row(606877200, 3600, 3600, "CEST")
          } else {
           Table::row(622602000, 3600, 0, "CET")
          }
         } else {
          if i < 25 {
           Table::row(638326800, 3600, 3600, "CEST")
          } else {
           Table::row(654656400, 3600, 0, "CET")
          }
         }
        } else {
         if i < 28 {
          if i < 27 {
           Table::row(670381200, 3600, 3600, "CEST")
          } else {
           Table::row(686106000, 3600, 0, "CET")
          }
         } else {
          if i < 29 {
           Table::row(701830800, 3600, 3600, "CEST")
          } else {
           Table::row(717555600, 3600, 0, "CET")
          }
         }
        }
       }
      }
     } else {
      if i < 45 {
       if i < 37 {
        if i < 33 {
         if i < 31 {
          Table::row(733280400, 3600, 3600, "CEST")
         } else {
          if i < 32 {
           Table::row(749005200, 3600, 0, "CET")
          } else {
           Table::row(764730000, 3600, 3600, "CEST")
          }
         }
        } else {
         if i < 35 {
          if i < 34 {
           Table::row(780454800, 3600, 0, "CET")
          } else {
           Table::row(796179600, 3600, 3600, "CEST")
          }
         } else {
          if i < 36 {
           Table::row(811904400, 3600, 0, "CET")
          } else {
           Table::row(828234000, 3600, 3600, "CEST")
          }
         }
        }
       } else {
        if i < 41 {
         if i < 39 {
          if i < 38 {
           Table::row(846378000, 3600, 0, "CET")
          } else {
           Table::row(859683600, 3600, 3600, "CEST")
          }
         } else {
          if i < 40 {
           Table::row(877827600, 3600, 0, "CET")
          } else {
           Table::row(891133200, 3600, 3600, "CEST")
          }
         }
        } else {
         if i < 43 {
          if i < 42 {
           Table::row(909277200, 3600, 0, "CET")
          } else {
           Table::row(922582800, 3600, 3600, "CEST")
          }
         } else {
          if i < 44 {
           Table::row(941331600, 3600, 0, "CET")
          } else {
           Table::row(954032400, 3600, 3600, "CEST")
          }
         }
        }
       }
      } else {
       if i < 52 {
        if i < 48 {
         if i < 46 {
          Table::row(972781200, 3600, 0, "CET")
         } else {
          if i < 47 {
           Table::row(985482000, 3600, 3600, "CEST")
          } else {
           Table::row(1004230800, 3600, 0, "CET")
          }
         }
        } else {
         if i < 50 {
          if i < 49 {
           Table::row(1017536400, 3600, 3600, "CEST")
          } else {
           Table::row(1035680400, 3600, 0, "CET")
          }
         } else {
          if i < 51 {
           Table::row(1048986000, 3600, 3600, "CEST")
          } else {
           Table::row(1067130000, 3600, 0, "CET")
          }
         }
        }
       } else {
        if i < 56 {
         if i < 54 {
          if i < 53 {
           Table::row(1080435600, 3600, 3600, "CEST")
          } else {
           Table::row(1099184400, 3600, 0, "CET")
          }
         } else {
          if i < 55 {
           Table::row(1111885200, 3600, 3600, "CEST")
          } else {
           Table::row(1130634000, 3600, 0, "CET")
          }
         }
        } else {
         if i < 58 {
          if i < 57 {
           Table::row(1143334800, 3600, 3600, "CEST")
          } else {
           Table::row(1162083600, 3600, 0, "CET")
          }
         } else {
          if i < 59 {
           Table::row(1174784400, 3600, 3600, "CEST")
          } else {
           Table::row(1193533200, 3600, 0, "CET")
          }
         }
        }
       }
      }
     }
    } else {
     if i < 90 {
      if i < 75 {
       if i < 67 {
        if i < 63 {
         if i < 61 {
          Table::row(1206838800, 3600, 3600, "CEST")
         } else {
          if i < 62 {
           Table::row(1224982800, 3600, 0, "CET")
          } else {
           Table::row(1238288400, 3600, 3600, "CEST")
          }
         }
        } else {
         if i < 65 {
          if i < 64 {
           Table::row(1256432400, 3600, 0, "CET")
          } else {
           Table::row(1269738000, 3600, 3600, "CEST")
          }
         } else {
          if i < 66 {
           Table::row(1288486800, 3600, 0, "CET")
          } else {
           Table::row(1301187600, 3600, 3600, "CEST")
          }
         }
        }
       } else {
        if i < 71 {
         if i < 69 {
          if i < 68 {
           Table::row(1319936400, 3600, 0, "CET")
          } else {
           Table::row(1332637200, 3600, 3600, "CEST")
          }
         } else {
          if i < 70 {
           Table::row(1351386000, 3600, 0, "CET")
          } else {
           Table::row(1364691600, 3600, 3600, "CEST")
          }
         }
        } else {
         if i < 73 {
          if i < 72 {
           Table::row(1382835600, 3600, 0, "CET")
          } else {
           Table::row(1396141200, 3600, 3600, "CEST")
          }
         } else {
          if i < 74 {
           Table::row(1414285200, 3600, 0, "CET")
          } else {
           Table::row(1427590800, 3600, 3600, "CEST")
          }
         }
        }
       }
      } else {
       if i < 82 {
        if i < 78 {
         if i < 76 {
          Table::row(1445734800, 3600, 0, "CET")
         } else {
          if i < 77 {
           Table::row(1459040400, 3600, 3600, "CEST")
          } else {
           Table::row(1477789200, 3600, 0, "CET")
          }
         }
        } else {
         if i < 80 {
          if i < 79 {
           Table::row(1490490000, 3600, 3600, "CEST")
          } else {
           Table::row(1509238800, 3600, 0, "CET")
          }
         } else {
          if i < 81 {
           Table::row(1521939600, 3600, 3600, "CEST")
          } else {
           Table::row(1540688400, 3600, 0, "CET")
          }
         }
        }
       } else {
        if i < 86 {
         if i < 84 {
          if i < 83 {
           Table::row(1553994000, 3600, 3600, "CEST")
          } else {
           Table::row(1572138000, 3600, 0, "CET")
          }
         } else {
          if i < 85 {
           Table::row(1585443600, 3600, 3600, "CEST")
          } else {
           Table::row(1603587600, 3600, 0, "CET")
          }
         }
        } else {
         if i < 88 {
          if i < 87 {
           Table::row(1616893200, 3600, 3600, "CEST")
          } else {
           Table::row(1635642000, 3600, 0, "CET")
          }
         } else {
          if i < 89 {
           Table::row(1648342800, 3600, 3600, "CEST")
          } else {
           Table::row(1667091600, 3600, 0, "CET")
          }
         }
        }
       }
      }
     } else {
      if i < 105 {
       if i < 97 {
        if i < 93 {
         if i < 91 {
          Table::row(1679792400, 3600, 3600, "CEST")
         } else {
          if i < 92 {
           Table::row(1698541200, 3600, 0, "CET")
          } else {
           Table::row(1711846800, 3600, 3600, "CEST")
          }
         }
        } else {
         if i < 95 {
          if i < 94 {
           Table::row(1729990800, 3600, 0, "CET")
          } else {
           Table::row(1743296400, 3600, 3600, "CEST")
          }
         } else {
          if i < 96 {
           Table::row(1761440400, 3600, 0, "CET")
          } else {
           Table::row(1774746000, 3600, 3600, "CEST")
          }
         }
        }
       } else {
        if i < 101 {
         if i < 99 {
          if i < 98 {
           Table::row(1792890000, 3600, 0, "CET")
          } else {
           Table::row(1806195600, 3600, 3600, "CEST")
          }
         } else {
          if i < 100 {
           Table::row(1824944400, 3600, 0, "CET")
          } else {
           Table::row(1837645200, 3600, 3600, "CEST")
          }
         }
        } else {
         if i < 103 {
          if i < 102 {
           Table::row(1856394000, 3600, 0, "CET")
          } else {
           Table::row(1869094800, 3600, 3600, "CEST")
          }
         } else {
          if i < 104 {
           Table::row(1887843600, 3600, 0, "CET")
          } else {
           Table::row(1901149200, 3600, 3600, "CEST")
          }
         }
        }
       }
      } else {
       if i < 112 {
        if i < 108 {
         if i < 106 {
          Table::row(1919293200, 3600, 0, "CET")
         } else {
          if i < 107 {
           Table::row(1932598800, 3600, 3600, "CEST")
          } else {
           Table::row(1950742800, 3600, 0, "CET")
          }
         }
        } else {
         if i < 110 {
          if i < 109 {
           Table::row(1964048400, 3600, 3600, "CEST")
          } else {
           Table::row(1982797200, 3600, 0, "CET")
          }
         } else {
          if i < 111 {
           Table::row(1995498000, 3600, 3600, "CEST")
          } else {
           Table::row(2014246800, 3600, 0, "CET")
          }
         }
        }
       } else {
        if i < 116 {
         if i < 114 {
          if i < 113 {
           Table::row(2026947600, 3600, 3600, "CEST")
          } else {
           Table::row(2045696400, 3600, 0, "CET")
          }
         } else {
          if i < 115 {
           Table::row(2058397200, 3600, 3600, "CEST")
          } else {
           Table::row(2077146000, 3600, 0, "CET")
          }
         }
        } else {
         if i < 118 {
          if i < 117 {
           Table::row(2090451600, 3600, 3600, "CEST")
          } else {
           Table::row(2108595600, 3600, 0, "CET")
          }
         } else {
          if i < 119 {
           Table::row(2121901200, 3600, 3600, "CEST")
          } else {
           Table::row(2140045200, 3600, 0, "CET")
          }
         }
        }
       }
      }
     }
    }
}

/// The rows of the table of the zone `Europe/Busingen`.
pub open spec fn busingen_rows() -> spec_fn(int) -> (i64, FixedTimespan) {
    |i: int| busingen_row(i)
}

/// The table of the zone `Europe/Busingen`.
pub open spec fn busingen() -> Table {
    Table::listed(Table::row(0, 2048, 0, "LMT").1, 120, busingen_rows())
}

/// Row `i` of the table of the zone `Europe/Chisinau`.
pub open spec fn chisinau_row(i: int) -> (i64, FixedTimespan) {
    if i < 70 {
     if i < 35 {
      if i < 17 {
       if i < 8 {
        if i < 4 {
         if i < 2 {
          if i < 1 {
           Table::row(-2840147720, 6900, 0, "CMT")
          } else {
           Table::row(-1637114100, 6264, 0, "BMT")
          }
         } else {
          if i < 3 {
           Table::row(-1213148664, 7200, 0, "EET")
          } else {
           Table::row(-1187056800, 7200, 3600, "EEST")
          }
         }
        } else {
         if i < 6 {
          if i < 5 {
           Table::row(-1175479200, 7200, 0, "EET")
          } else {
           Table::row(-1159754400, 7200, 3600, "EEST")
          }
         } else {
          if i < 7 {
           Table::row(-1144029600, 7200, 0, "EET")
          } else {
           Table::row(-1127700000, 7200, 3600, "EEST")
          }
         }
        }
       } else {
        if i < 12 {
         if i < 10 {
          if i < 9 {
           Table::row(-1111975200, 7200, 0, "EET")
          } else {
           Table::row(-1096250400, 7200, 3600, "EEST")
          }
         } else {
          if i < 11 {
           Table::row(-1080525600, 7200, 0, "EET")
          } else {
           Table::row(-1064800800, 7200, 3600, "EEST")
          }
         }
        } else {
         if i < 14 {
          if i < 13 {
           Table::row(-1049076000, 7200, 0, "EET")
          } else {
           Table::row(-1033351200, 7200, 3600, "EEST")
          }
         } else {
          if i < 15 {
           Table::row(-1017626400, 7200, 0, "EET")
          } else {
           if i < 16 {
            Table::row(-1001901600, 7200, 3600, "EEST")
           } else {
            Table::row(-986176800, 7200, 0, "EET")
           }
          }
         }
        }
       }
      } else {
       if i < 26 {
        if i < 21 {
         if i < 19 {
          if i < 18 {
           Table::row(-970452000, 7200, 3600, "EEST")
          } else {
           Table::row(-954727200, 7200, 0, "EET")
          }
         } else {
          if i < 20 {
           Table::row(-927165600, 7200, 3600, "EEST")
          } else {
           Table::row(-898138800, 3600, 3600, "CEST")
          }
         }
        } else {
         if i < 23 {
          if i < 22 {
           Table::row(-857257200, 3600, 0, "CET")
          } else {
           Table::row(-844556400, 3600, 3600, "CEST")
          }
         } else {
          if i < 24 {
           Table::row(-828226800, 3600, 0, "CET")
          } else {
           if i < 25 {
            Table::row(-812502000, 3600, 3600, "CEST")
           } else {
            Table::row(-800157600, 10800, 0, "MSK")
           }
          }
         }
        }
       } else {
        if i < 30 {
         if i < 28 {
          if i < 27 {
           Table::row(354920400, 10800, 3600, "MSD")
          } else {
           Table::row(370728000, 10800, 0, "MSK")
          }
         } else {
          if i < 29 {
           Table::row(386456400, 10800, 3600, "MSD")
          } else {
           Table::row(402264000, 10800, 0, "MSK")
          }
         }
        } else {
         if i < 32 {
          if i < 31 {
           Table::row(417992400, 10800, 3600, "MSD")
          } else {
           Table::row(433800000, 10800, 0, "MSK")
          }
         } else {
          if i < 33 {
           Table::row(449614800, 10800, 3600, "MSD")
          } else {
           if i < 34 {
            Table::row(465346800, 10800, 0, "MSK")
           } else {
            Table::row(481071600, 10800, 3600, "MSD")
           }
          }
         }
        }
       }
      }
     } else {
      if i < 52 {
       if i < 43 {
        if i < 39 {
         if i < 37 {
          if i < 36 {
           Table::row(496796400, 10800, 0, "MSK")
          } else {
           Table::row(512521200, 10800, 3600, "MSD")
          }
         } else {
          if i < 38 {
           Table::row(528246000, 10800, 0, "MSK")
          } else {
           Table::row(543970800, 10800, 3600, "MSD")
          }
         }
        } else {
         if i < 41 {
          if i < 40 {
           Table::row(559695600, 10800, 0, "MSK")
          } else {
           Table::row(575420400, 10800, 3600, "MSD")
          }
         } else {
          if i < 42 {
           Table::row(591145200, 10800, 0, "MSK")
          } else {
           Table::row(606870000, 10800, 3600, "MSD")
          }
         }
        }
       } else {
        if i < 47 {
         if i < 45 {
          if i < 44 {
           Table::row(622594800, 10800, 0, "MSK")
          } else {
           Table::row(638319600, 10800, 3600, "MSD")
          }
         } else {
          if i < 46 {
           Table::row(641944800, 7200, 3600, "EEST")
          } else {
           Table::row(654652800, 7200, 0, "EET")
          }
         }
        } else {
         if i < 49 {
          if i < 48 {
           Table::row(670377600, 7200, 3600, "EEST")
          } else {
           Table::row(686102400, 7200, 0, "EET")
          }
         } else {
          if i < 50 {
           Table::row(701820000, 7200, 3600, "EEST")
          } else {
           if i < 51 {
            Table::row(717541200, 7200, 0, "EET")
           } else {
            Table::row(733269600, 7200, 3600, "EEST")
           }
          }
         }
        }
       }
      } else {
       if i < 61 {
        if i < 56 {
         if i < 54 {
          if i < 53 {
           Table::row(748990800, 7200, 0, "EET")
          } else {
           Table::row(764719200, 7200, 3600, "EEST")
          }
         } else {
          if i < 55 {
           Table::row(780440400, 7200, 0, "EET")
          } else {
           Table::row(796168800, 7200, 3600, "EEST")
          }
         }
        } else {
         if i < 58 {
          if i < 57 {
           Table::row(811890000, 7200, 0, "EET")
          } else {
           Table::row(828223200, 7200, 3600, "EEST")
          }
         } else {
          if i < 59 {
           Table::row(846363600, 7200, 0, "EET")
          } else {
           if i < 60 {
            Table::row(859680000, 7200, 3600, "EEST")
           } else {
            Table::row(877824000, 7200, 0, "EET")
           }
          }
         }
        }
       } else {
        if i < 65 {
         if i < 63 {
          if i < 62 {
           Table::row(891129600, 7200, 3600, "EEST")
          } else {
           Table::row(909273600, 7200, 0, "EET")
          }
         } else {
          if i < 64 {
           Table::row(922579200, 7200, 3600, "EEST")
          } else {
           Table::row(941328000, 7200, 0, "EET")
          }
         }
        } else {
         if i < 67 {
          if i < 66 {
           Table::row(954028800, 7200, 3600, "EEST")
          } else {
           Table::row(972777600, 7200, 0, "EET")
          }
         } else {
          if i < 68 {
           Table::row(985478400, 7200, 3600, "EEST")
          } else {
           if i < 69 {
            Table::row(1004227200, 7200, 0, "EET")
           } else {
            Table::row(1017532800, 7200, 3600, "EEST")
           }
          }
         }
        }
       }
      }
     }
    } else {
     if i < 105 {
      if i < 87 {
       if i < 78 {
        if i < 74 {
         if i < 72 {
          if i < 71 {
           Table::row(1035676800, 7200, 0, "EET")
          } else {
           Table::row(1048982400, 7200, 3600, "EEST")
          }
         } else {
          if i < 73 {
           Table::row(1067126400, 7200, 0, "EET")
          } else {
           Table::row(1080432000, 7200, 3600, "EEST")
          }
         }
        } else {
         if i < 76 {
          if i < 75 {
           Table::row(1099180800, 7200, 0, "EET")
          } else {
           Table::row(1111881600, 7200, 3600, "EEST")
          }
         } else {
          if i < 77 {
           Table::row(1130630400, 7200, 0, "EET")
          } else {
           Table::row(1143331200, 7200, 3600, "EEST")
          }
         }
        }
       } else {
        if i < 82 {
         if i < 80 {
          if i < 79 {
           Table::row(1162080000, 7200, 0, "EET")
          } else {
           Table::row(1174780800, 7200, 3600, "EEST")
          }
         } else {
          if i < 81 {
           Table::row(1193529600, 7200, 0, "EET")
          } else {
           Table::row(1206835200, 7200, 3600, "EEST")
          }
         }
        } else {
         if i < 84 {
          if i < 83 {
           Table::row(1224979200, 7200, 0, "EET")
          } else {
           Table::row(1238284800, 7200, 3600, "EEST")
          }
         } else {
          if i < 85 {
           Table::row(1256428800, 7200, 0, "EET")
          } else {
           if i < 86 {
            Table::row(1269734400, 7200, 3600, "EEST")
           } else {
            Table::row(1288483200, 7200, 0, "EET")
           }
          }
         }
        }
       }
      } else {
       if i < 96 {
        if i < 91 {
         if i < 89 {
          if i < 88 {
           Table::row(1301184000, 7200, 3600, "EEST")
          } else {
           Table::row(1319932800, 7200, 0, "EET")
          }
         } else {
          if i < 90 {
           Table::row(1332633600, 7200, 3600, "EEST")
          } else {
           Table::row(1351382400, 7200, 0, "EET")
          }
         }
        } else {
         if i < 93 {
          if i < 92 {
           Table::row(1364688000, 7200, 3600, "EEST")
          } else {
           Table::row(1382832000, 7200, 0, "EET")
          }
         } else {
          if i < 94 {
           Table::row(1396137600, 7200, 3600, "EEST")
          } else {
           if i < 95 {
            Table::row(1414281600, 7200, 0, "EET")
           } else {
            Table::row(1427587200, 7200, 3600, "EEST")
           }
          }
         }
        }
       } else {
        if i < 100 {
         if i < 98 {
          if i < 97 {
           Table::row(1445731200, 7200, 0, "EET")
          } else {
           Table::row(1459036800, 7200, 3600, "EEST")
          }
         } else {
          if i < 99 {
           Table::row(1477785600, 7200, 0, "EET")
          } else {
           Table::row(1490486400, 7200, 3600, "EEST")
          }
         }
        } else {
         if i < 102 {
          if i < 101 {
           Table::row(1509235200, 7200, 0, "EET")
          } else {
           Table::row(1521936000, 7200, 3600, "EEST")
          }
         } else {
          if i < 103 {
           Table::row(1540684800, 7200, 0, "EET")
          } else {
           if i < 104 {
            Table::row(1553990400, 7200, 3600, "EEST")
           } else {
            Table::row(1572134400, 7200, 0, "EET")
           }
          }
         }
        }
       }
      }
     } else {
      if i < 123 {
       if i < 114 {
        if i < 109 {
         if i < 107 {
          if i < 106 {
           Table::row(1585440000, 7200, 3600, "EEST")
          } else {
           Table::row(1603584000, 7200, 0, "EET")
          }
         } else {
          if i < 108 {
           Table::row(1616889600, 7200, 3600, "EEST")
          } else {
           Table::row(1635638400, 7200, 0, "EET")
          }
         }
        } else {
         if i < 111 {
          if i < 110 {
           Table::row(1648339200, 7200, 3600, "EEST")
          } else {
           Table::row(1667088000, 7200, 0, "EET")
          }
         } else {
          if i < 112 {
           Table::row(1679788800, 7200, 3600, "EEST")
          } else {
           if i < 113 {
            Table::row(1698537600, 7200, 0, "EET")
           } else {
            Table::row(1711843200, 7200, 3600, "EEST")
           }
          }
         }
        }
       } else {
        if i < 118 {
         if i < 116 {
          if i < 115 {
           Table::row(1729987200, 7200, 0, "EET")
          } else {
           Table::row(1743292800, 7200, 3600, "EEST")
          }
         } else {
          if i < 117 {
           Table::row(1761436800, 7200, 0, "EET")
          } else {
           Table::row(1774742400, 7200, 3600, "EEST")
          }
         }
        } else {
         if i < 120 {
          if i < 119 {
           Table::row(1792886400, 7200, 0, "EET")
          } else {
           Table::row(1806192000, 7200, 3600, "EEST")
          }
         } else {
          if i < 121 {
           Table::row(1824940800, 7200, 0, "EET")
          } else {
           if i < 122 {
            Table::row(1837641600, 7200, 3600, "EEST")
           } else {
            Table::row(1856390400, 7200, 0, "EET")
           }
          }
         }
        }
       }
      } else {
       if i < 132 {
        if i < 127 {
         if i < 125 {
          if i < 124 {
           Table::row(1869091200, 7200, 3600, "EEST")
          } else {
           Table::row(1887840000, 7200, 0, "EET")
          }
         } else {
          if i < 126 {
           Table::row(1901145600, 7200, 3600, "EEST")
          } else {
           Table::row(1919289600, 7200, 0, "EET")
          }
         }
        } else {
         if i < 129 {
          if i < 128 {
           Table::row(1932595200, 7200, 3600, "EEST")
          } else {
           Table::row(1950739200, 7200, 0, "EET")
          }
         } else {
          if i < 130 {
           Table::row(1964044800, 7200, 3600, "EEST")
          } else {
           if i < 131 {
            Table::row(1982793600, 7200, 0, "EET")
           } else {
            Table::row(1995494400, 7200, 3600, "EEST")
           }
          }
         }
        }
       } else {
        if i < 136 {
         if i < 134 {
          if i < 133 {
           Table::row(2014243200, 7200, 0, "EET")
          } else {
           Table::row(2026944000, 7200, 3600, "EEST")
          }
         } else {
          if i < 135 {
           Table::row(2045692800, 7200, 0, "EET")
          } else {
           Table::row(2058393600, 7200, 3600, "EEST")
          }
         }
        } else {
         if i < 138 {
          if i < 137 {
           Table::row(2077142400, 7200, 0, "EET")
          } else {
           Table::row(2090448000, 7200, 3600, "EEST")
          }
         } else {
          if i < 139 {
           Table::row(2108592000, 7200, 0, "EET")
          } else {
           if i < 140 {
            Table::row(2121897600, 7200, 3600, "EEST")
           } else {
            Table::row(2140041600, 7200, 0, "EET")
           }
          }
         }
        }
       }
      }
     }
    }
}

/// The rows of the table of the zone `Europe/Chisinau`.
pub open spec fn chisinau_rows() -> spec_fn(int) -> (i64, FixedTimespan) {
    |i: int| chisinau_row(i)
}

/// The table of the zone `Europe/Chisinau`.
pub open spec fn chisinau() -> Table {
    Table::listed(Table::row(0, 6920, 0, "LMT").1, 141, chisinau_rows())
}

/// Row `i` of the table of the zone `Europe/Copenhagen`.
pub open spec fn copenhagen_row(i: int) -> (i64, FixedTimespan) {
    if i < 67 {
     if i < 33 {
      if i < 16 {
       if i < 8 {
        if i < 4 {
         if i < 2 {
          if i < 1 {
           Table::row(-2524524620, 3020, 0, "CMT")
          } else {
           Table::row(-2398294220, 3600, 0, "CET")
          }
         } else {
          if i < 3 {
           Table::row(-1692496800, 3600, 3600, "CEST")
          } else {
           Table::row(-1680490800, 3600, 0, "CET")
          }
         }
        } else {
         if i < 6 {
          if i < 5 {
           Table::row(-935110800, 3600, 3600, "CEST")
          } else {
           Table::row(-857257200, 3600, 0, "CET")
          }
         } else {
          if i < 7 {
           Table::row(-844556400, 3600, 3600, "CEST")
          } else {
           Table::row(-828226800, 3600, 0, "CET")
          }
         }
        }
       } else {
        if i < 12 {
         if i < 10 {
          if i < 9 {
           Table::row(-812502000, 3600, 3600, "CEST")
          } else {
           Table::row(-796777200, 3600, 0, "CET")
          }
         } else {
          if i < 11 {
           Table::row(-781052400, 3600, 3600, "CEST")
          } else {
           Table::row(-769388400, 3600, 0, "CET")
          }
         }
        } else {
         if i < 14 {
          if i < 13 {
           Table::row(-747010800, 3600, 3600, "CEST")
          } else {
           Table::row(-736383600, 3600, 0, "CET")
          }
         } else {
          if i < 15 {
           Table::row(-715215600, 3600, 3600, "CEST")
          } else {
           Table::row(-706748400, 3600, 0, "CET")
          }
         }
        }
       }
      } else {
       if i < 24 {
        if i < 20 {
         if i < 18 {
          if i < 17 {
           Table::row(-683161200, 3600, 3600, "CEST")
          } else {
           Table::row(-675298800, 3600, 0, "CET")
          }
         } else {
          if i < 19 {
           Table::row(323830800, 3600, 3600, "CEST")
          } else {
           Table::row(338950800, 3600, 0, "CET")
          }
         }
        } else {
         if i < 22 {
          if i < 21 {
           Table::row(354675600, 3600, 3600, "CEST")
          } else {
           Table::row(370400400, 3600, 0, "CET")
          }
         } else {
          if i < 23 {
           Table::row(386125200, 3600, 3600, "CEST")
          } else {
           Table::row(401850000, 3600, 0, "CET")
          }
         }
        }
       } else {
        if i < 28 {
         if i < 26 {
          if i < 25 {
           Table::row(417574800, 3600, 3600, "CEST")
          } else {
           Table::row(433299600, 3600, 0, "CET")
          }
         } else {
          if i < 27 {
           Table::row(449024400, 3600, 3600, "CEST")
          } else {
           Table::row(465354000, 3600, 0, "CET")
          }
         }
        } else {
         if i < 30 {
          if i < 29 {
           Table::row(481078800, 3600, 3600, "CEST")
          } else {
           Table::row(496803600, 3600, 0, "CET")
          }
         } else {
          if i < 31 {
           Table::row(512528400, 3600, 3600, "CEST")
          } else {
           if i < 32 {
            Table::row(528253200, 3600, 0, "CET")
           } else {
            Table::row(543978000, 3600, 3600, "CEST")
           }
          }
         }
        }
       }
      }
     } else {
      if i < 50 {
       if i < 41 {
        if i < 37 {
         if i < 35 {
          if i < 34 {
           Table::row(559702800, 3600, 0, "CET")
          } else {
           Table::row(575427600, 3600, 3600, "CEST")
          }
         } else {
          if i < 36 {
           Table::row(591152400, 3600, 0, "CET")
          } else {
           Table::row(606877200, 3600, 3600, "CEST")
          }
         }
        } else {
         if i < 39 {
          if i < 38 {
           Table::row(622602000, 3600, 0, "CET")
          } else {
           Table::row(638326800, 3600, 3600, "CEST")
          }
         } else {
          if i < 40 {
           Table::row(654656400, 3600, 0, "CET")
          } else {
           Table::row(670381200, 3600, 3600, "CEST")
          }
         }
        }
       } else {
        if i < 45 {
         if i < 43 {
          if i < 42 {
           Table::row(686106000, 3600, 0, "CET")
          } else {
           Table::row(701830800, 3600, 3600, "CEST")
          }
         } else {
          if i < 44 {
           Table::row(717555600, 3600, 0, "CET")
          } else {
           Table::row(733280400, 3600, 3600, "CEST")
          }
         }
        } else {
         if i < 47 {
          if i < 46 {
           Table::row(749005200, 3600, 0, "CET")
          } else {
           Table::row(764730000, 3600, 3600, "CEST")
          }
         } else {
          if i < 48 {
           Table::row(780454800, 3600, 0, "CET")
          } else {
           if i < 49 {
            Table::row(796179600, 3600, 3600, "CEST")
           } else {
            Table::row(811904400, 3600, 0, "CET")
           }
          }
         }
        }
       }
      } else {
       if i < 58 {
        if i < 54 {
         if i < 52 {
          if i < 51 {
           Table::row(828234000, 3600, 3600, "CEST")
          } else {
           Table::row(846378000, 3600, 0, "CET")
          }
         } else {
          if i < 53 {
           Table::row(859683600, 3600, 3600, "CEST")
          } else {
           Table::row(877827600, 3600, 0, "CET")
          }
         }
        } else {
         if i < 56 {
          if i < 55 {
           Table::row(891133200, 3600, 3600, "CEST")
          } else {
           Table::row(909277200, 3600, 0, "CET")
          }
         } else {
          if i < 57 {
           Table::row(922582800, 3600, 3600, "CEST")
          } else {
           Table::row(941331600, 3600, 0, "CET")
          }
         }
        }
       } else {
        if i < 62 {
         if i < 60 {
          if i < 59 {
           Table::row(954032400, 3600, 3600, "CEST")
          } else {
           Table::row(972781200, 3600, 0, "CET")
          }
         } else {
          if i < 61 {
           Table::row(985482000, 3600, 3600, "CEST")
          } else {
           Table::row(1004230800, 3600, 0, "CET")
          }
         }
        } else {
         if i < 64 {
          if i < 63 {
           Table::row(1017536400, 3600, 3600, "CEST")
          } else {
           Table::row(1035680400, 3600, 0, "CET")
          }
         } else {
          if i < 65 {
           Table::row(1048986000, 3600, 3600, "CEST")
          } else {
           if i < 66 {
            Table::row(1067130000, 3600, 0, "CET")
           } else {
            Table::row(1080435600, 3600, 3600, "CEST")
           }
          }
         }
        }
       }
      }
     }
    } else {
     if i < 100 {
      if i < 83 {
       if i < 75 {
        if i < 71 {
         if i < 69 {
          if i < 68 {
           Table::row(1099184400, 3600, 0, "CET")
          } else {
           Table::row(1111885200, 3600, 3600, "CEST")
          }
         } else {
          if i < 70 {
           Table::row(1130634000, 3600, 0, "CET")
          } else {
           Table::row(1143334800, 3600, 3600, "CEST")
          }
         }
        } else {
         if i < 73 {
          if i < 72 {
           Table::row(1162083600, 3600, 0, "CET")
          } else {
           Table::row(1174784400, 3600, 3600, "CEST")
          }
         } else {
          if i < 74 {
           Table::row(1193533200, 3600, 0, "CET")
          } else {
           Table::row(1206838800, 3600, 3600, "CEST")
          }
         }
        }
       } else {
        if i < 79 {
         if i < 77 {
          if i < 76 {
           Table::row(1224982800, 3600, 0, "CET")
          } else {
           Table::row(1238288400, 3600, 3600, "CEST")
          }
         } else {
          if i < 78 {
           Table::row(1256432400, 3600, 0, "CET")
          } else {
           Table::row(1269738000, 3600, 3600, "CEST")
          }
         }
        } else {
         if i < 81 {
          if i < 80 {
           Table::row(1288486800, 3600, 0, "CET")
          } else {
           Table::row(1301187600, 3600, 3600, "CEST")
          }
         } else {
          if i < 82 {
           Table::row(1319936400, 3600, 0, "CET")
          } else {
           Table::row(1332637200, 3600, 3600, "CEST")
          }
         }
        }
       }
      } else {
       if i < 91 {
        if i < 87 {
         if i < 85 {
          if i < 84 {
           Table::row(1351386000, 3600, 0, "CET")
          } else {
           Table::row(1364691600, 3600, 3600, "CEST")
          }
         } else {
          if i < 86 {
           Table::row(1382835600, 3600, 0, "CET")
          } else {
           Table::row(1396141200, 3600, 3600, "CEST")
          }
         }
        } else {
         if i < 89 {
          if i < 88 {
           Table::row(1414285200, 3600, 0, "CET")
          } else {
           Table::row(1427590800, 3600, 3600, "CEST")
          }
         } else {
          if i < 90 {
           Table::row(1445734800, 3600, 0, "CET")
          } else {
           Table::row(1459040400, 3600, 3600, "CEST")
          }
         }
        }
       } else {
        if i < 95 {
         if i < 93 {
          if i < 92 {
           Table::row(1477789200, 3600, 0, "CET")
          } else {
           Table::row(1490490000, 3600, 3600, "CEST")
          }
         } else {
          if i < 94 {
           Table::row(1509238800, 3600, 0, "CET")
          } else {
           Table::row(1521939600, 3600, 3600, "CEST")
          }
         }
        } else {
         if i < 97 {
          if i < 96 {
           Table::row(1540688400, 3600, 0, "CET")
          } else {
           Table::row(1553994000, 3600, 3600, "CEST")
          }
         } else {
          if i < 98 {
           Table::row(1572138000, 3600, 0, "CET")
          } else {
           if i < 99 {
            Table::row(1585443600, 3600, 3600, "CEST")
           } else {
            Table::row(1603587600, 3600, 0, "CET")
           }
          }
         }
        }
       }
      }
     } else {
      if i < 117 {
       if i < 108 {
        if i < 104 {
         if i < 102 {
          if i < 101 {
           Table::row(1616893200, 3600, 3600, "CEST")
          } else {
           Table::row(1635642000, 3600, 0, "CET")
          }
         } else {
          if i < 103 {
           Table::row(1648342800, 3600, 3600, "CEST")
          } else {
           Table::row(1667091600, 3600, 0, "CET")
          }
         }
        } else {
         if i < 106 {
          if i < 105 {
           Table::row(1679792400, 3600, 3600, "CEST")
          } else {
           Table::row(1698541200, 3600, 0, "CET")
          }
         } else {
          if i < 107 {
           Table::row(1711846800, 3600, 3600, "CEST")
          } else {
           Table::row(1729990800, 3600, 0, "CET")
          }
         }
        }
       } else {
        if i < 112 {
         if i < 110 {
          if i < 109 {
           Table::row(1743296400, 3600, 3600, "CEST")
          } else {
           Table::row(1761440400, 3600, 0, "CET")
          }
         } else {
          if i < 111 {
           Table::row(1774746000, 3600, 3600, "CEST")
          } else {
           Table::row(1792890000, 3600, 0, "CET")
          }
         }
        } else {
         if i < 114 {
          if i < 113 {
           Table::row(1806195600, 3600, 3600, "CEST")
          } else {
           Table::row(1824944400, 3600, 0, "CET")
          }
         } else {
          if i < 115 {
           Table::row(1837645200, 3600, 3600, "CEST")
          } else {
           if i < 116 {
            Table::row(1856394000, 3600, 0, "CET")
           } else {
            Table::row(1869094800, 3600, 3600, "CEST")
           }
          }
         }
        }
       }
      } else {
       if i < 125 {
        if i < 121 {
         if i < 119 {
          if i < 118 {
           Table::row(1887843600, 3600, 0, "CET")
          } else {
           Table::row(1901149200, 3600, 3600, "CEST")
          }
         } else {
          if i < 120 {
           Table::row(1919293200, 3600, 0, "CET")
          } else {
           Table::row(1932598800, 3600, 3600, "CEST")
          }
         }
        } else {
         if i < 123 {
          if i < 122 {
           Table::row(1950742800, 3600, 0, "CET")
          } else {
           Table::row(1964048400, 3600, 3600, "CEST")
          }
         } else {
          if i < 124 {
           Table::row(1982797200, 3600, 0, "CET")
          } else {
           Table::row(1995498000, 3600, 3600, "CEST")
          }
         }
        }
       } else {
        if i < 129 {
         if i < 127 {
          if i < 126 {
           Table::row(2014246800, 3600, 0, "CET")
          } else {
           Table::row(2026947600, 3600, 3600, "CEST")
          }
         } else {
          if i < 128 {
           Table::row(2045696400, 3600, 0, "CET")
          } else {
           Table::row(2058397200, 3600, 3600, "CEST")
          }
         }
        } else {
         if i < 131 {
          if i < 130 {
           Table::row(2077146000, 3600, 0, "CET")
          } else {
           Table::row(2090451600, 3600, 3600, "CEST")
          }
         } else {
          if i < 132 {
           Table::row(2108595600, 3600, 0, "CET")
          } else {
           if i < 133 {
            Table::row(2121901200, 3600, 3600, "CEST")
           } else {
            Table::row(2140045200, 3600, 0, "CET")
           }
          }
         }
        }
       }
      }
     }
    }
}

/// The rows of the table of the zone `Europe/Copenhagen`.
pub open spec fn copenhagen_rows() -> spec_fn(int) -> (i64, FixedTimespan) {
    |i: int| copenhagen_row(i)
}

/// The table of the zone `Europe/Copenhagen`.
pub open spec fn copenhagen() -> Table {
    Table::listed(Table::row(0, 3020, 0, "LMT").1, 134, copenhagen_rows())
}

/// Row `i` of the table of the zone `Europe/Dublin`.
pub open spec fn dublin_row(i: int) -> (i64, FixedTimespan) {
    if i < 114 {
     if i < 57 {
      if i < 28 {
       if i < 14 {
        if i < 7 {
         if i < 3 {
          if i < 1 {
           Table::row(-2821649679, -1521, 0, "DMT")
          } else {
           if i < 2 {
            Table::row(-1691962479, -1521, 3600, "IST")
           } else {
            Table::row(-1680471279, 0, 0, "GMT")
           }
          }
         } else {
          if i < 5 {
           if i < 4 {
            Table::row(-1664143200, 0, 3600, "BST")
           } else {
            Table::row(-1650146400, 0, 0, "GMT")
           }
          } else {
           if i < 6 {
            Table::row(-1633903200, 0, 3600, "BST")
           } else {
            Table::row(-1617487200, 0, 0, "GMT")
           }
          }
         }
        } else {
         if i < 10 {
          if i < 8 {
           Table::row(-1601848800, 0, 3600, "BST")
          } else {
           if i < 9 {
            Table::row(-1586037600, 0, 0, "GMT")
           } else {
            Table::row(-1570399200, 0, 3600, "BST")
           }
          }
         } else {
          if i < 12 {
           if i < 11 {
            Table::row(-1552168800, 0, 0, "GMT")
           } else {
            Table::row(-1538344800, 0, 3600, "BST")
           }
          } else {
           if i < 13 {
            Table::row(-1522533600, 0, 0, "GMT")
           } else {
            Table::row(-1507500000, 0, 3600, "IST")
           }
          }
         }
        }
       } else {
        if i < 21 {
         if i < 17 {
          if i < 15 {
           Table::row(-1490565600, 0, 0, "GMT")
          } else {
           if i < 16 {
            Table::row(-1473631200, 0, 3600, "IST")
           } else {
            Table::row(-1460930400, 0, 0, "GMT")
           }
          }
         } else {
          if i < 19 {
           if i < 18 {
            Table::row(-1442786400, 0, 3600, "IST")
           } else {
            Table::row(-1428876000, 0, 0, "GMT")
           }
          } else {
           if i < 20 {
            Table::row(-1410732000, 0, 3600, "IST")
           } else {
            Table::row(-1396216800, 0, 0, "GMT")
           }
          }
         }
        } else {
         if i < 24 {
          if i < 22 {
           Table::row(-1379282400, 0, 3600, "IST")
          } else {
           if i < 23 {
            Table::row(-1364767200, 0, 0, "GMT")
           } else {
            Table::row(-1348437600, 0, 3600, "IST")
           }
          }
         } else {
          if i < 26 {
           if i < 25 {
            Table::row(-1333317600, 0, 0, "GMT")
           } else {
            Table::row(-1315778400, 0, 3600, "IST")
           }
          } else {
           if i < 27 {
            Table::row(-1301263200, 0, 0, "GMT")
           } else {
            Table::row(-1284328800, 0, 3600, "IST")
           }
          }
         }
        }
       }
      } else {
       if i < 42 {
        if i < 35 {
         if i < 31 {
          if i < 29 {
           Table::row(-1269813600, 0, 0, "GMT")
          } else {
           if i < 30 {
            Table::row(-1253484000, 0, 3600, "IST")
           } else {
            Table::row(-1238364000, 0, 0, "GMT")
           }
          }
         } else {
          if i < 33 {
           if i < 32 {
            Table::row(-1221429600, 0, 3600, "IST")
           } else {
            Table::row(-1206914400, 0, 0, "GMT")
           }
          } else {
           if i < 34 {
            Table::row(-1189980000, 0, 3600, "IST")
           } else {
            Table::row(-1175464800, 0, 0, "GMT")
           }
          }
         }
        } else {
         if i < 38 {
          if i < 36 {
           Table::row(-1159135200, 0, 3600, "IST")
          } else {
           if i < 37 {
            Table::row(-1143410400, 0, 0, "GMT")
           } else {
            Table::row(-1126476000, 0, 3600, "IST")
           }
          }
         } else {
          if i < 40 {
           if i < 39 {
            Table::row(-1111960800, 0, 0, "GMT")
           } else {
            Table::row(-1095631200, 0, 3600, "IST")
           }
          } else {
           if i < 41 {
            Table::row(-1080511200, 0, 0, "GMT")
           } else {
            Table::row(-1063576800, 0, 3600, "IST")
           }
          }
         }
        }
       } else {
        if i < 49 {
         if i < 45 {
          if i < 43 {
           Table::row(-1049061600, 0, 0, "GMT")
          } else {
           if i < 44 {
            Table::row(-1032127200, 0, 3600, "IST")
           } else {
            Table::row(-1017612000, 0, 0, "GMT")
           }
          }
         } else {
          if i < 47 {
           if i < 46 {
            Table::row(-1001282400, 0, 3600, "IST")
           } else {
            Table::row(-986162400, 0, 0, "GMT")
           }
          } else {
           if i < 48 {
            Table::row(-969228000, 0, 3600, "IST")
           } else {
            Table::row(-950479200, 0, 0, "GMT")
           }
          }
         }
        } else {
         if i < 53 {
          if i < 51 {
           if i < 50 {
            Table::row(-942012000, 0, 3600, "IST")
           } else {
            Table::row(-733356000, 0, 0, "GMT")
           }
          } else {
           if i < 52 {
            Table::row(-719445600, 0, 3600, "IST")
           } else {
            Table::row(-699487200, 0, 0, "GMT")
           }
          }
         } else {
          if i < 55 {
           if i < 54 {
            Table::row(-684972000, 0, 3600, "IST")
           } else {
            Table::row(-668037600, 0, 0, "GMT")
           }
          } else {
           if i < 56 {
            Table::row(-654732000, 0, 3600, "IST")
           } else {
            Table::row(-636588000, 0, 0, "GMT")
           }
          }
         }
        }
       }
      }
     } else {
      if i < 85 {
       if i < 71 {
        if i < 64 {
         if i < 60 {
          if i < 58 {
           Table::row(-622072800, 0, 3600, "IST")
          } else {
           if i < 59 {
            Table::row(-605743200, 0, 0, "GMT")
           } else {
            Table::row(-590623200, 0, 3600, "IST")
           }
          }
         } else {
          if i < 62 {
           if i < 61 {
            Table::row(-574293600, 0, 0, "GMT")
           } else {
            Table::row(-558568800, 0, 3600, "IST")
           }
          } else {
           if i < 63 {
            Table::row(-542239200, 0, 0, "GMT")
           } else {
            Table::row(-527119200, 0, 3600, "IST")
           }
          }
         }
        } else {
         if i < 67 {
          if i < 65 {
           Table::row(-512604000, 0, 0, "GMT")
          } else {
           if i < 66 {
            Table::row(-496274400, 0, 3600, "IST")
           } else {
            Table::row(-481154400, 0, 0, "GMT")
           }
          }
         } else {
          if i < 69 {
           if i < 68 {
            Table::row(-464220000, 0, 3600, "IST")
           } else {
            Table::row(-449704800, 0, 0, "GMT")
           }
          } else {
           if i < 70 {
            Table::row(-432165600, 0, 3600, "IST")
           } else {
            Table::row(-417650400, 0, 0, "GMT")
           }
          }
         }
        }
       } else {
        if i < 78 {
         if i < 74 {
          if i < 72 {
           Table::row(-401320800, 0, 3600, "IST")
          } else {
           if i < 73 {
            Table::row(-386200800, 0, 0, "GMT")
           } else {
            Table::row(-369266400, 0, 3600, "IST")
           }
          }
         } else {
          if i < 76 {
           if i < 75 {
            Table::row(-354751200, 0, 0, "GMT")
           } else {
            Table::row(-337816800, 0, 3600, "IST")
           }
          } else {
           if i < 77 {
            Table::row(-323301600, 0, 0, "GMT")
           } else {
            Table::row(-306972000, 0, 3600, "IST")
           }
          }
         }
        } else {
         if i < 81 {
          if i < 79 {
           Table::row(-291852000, 0, 0, "GMT")
          } else {
           if i < 80 {
            Table::row(-276732000, 0, 3600, "IST")
           } else {
            Table::row(-257983200, 0, 0, "GMT")
           }
          }
         } else {
          if i < 83 {
           if i < 82 {
            Table::row(-245282400, 0, 3600, "IST")
           } else {
            Table::row(-226533600, 0, 0, "GMT")
           }
          } else {
           if i < 84 {
            Table::row(-213228000, 0, 3600, "IST")
           } else {
            Table::row(-195084000, 0, 0, "GMT")
           }
          }
         }
        }
       }
      } else {
       if i < 99 {
        if i < 92 {
         if i < 88 {
          if i < 86 {
           Table::row(-182383200, 0, 3600, "IST")
          } else {
           if i < 87 {
            Table::row(-163634400, 0, 0, "GMT")
           } else {
            Table::row(-150933600, 0, 3600, "IST")
           }
          }
         } else {
          if i < 90 {
           if i < 89 {
            Table::row(-132184800, 0, 0, "GMT")
           } else {
            Table::row(-119484000, 0, 3600, "IST")
           }
          } else {
           if i < 91 {
            Table::row(-100735200, 0, 0, "GMT")
           } else {
            Table::row(-88034400, 0, 3600, "IST")
           }
          }
         }
        } else {
         if i < 95 {
          if i < 93 {
           Table::row(-68680800, 0, 0, "GMT")
          } else {
           if i < 94 {
            Table::row(-59004000, 0, 3600, "IST")
           } else {
            Table::row(-37242000, 3600, 0, "IST")
           }
          }
         } else {
          if i < 97 {
           if i < 96 {
            Table::row(57722400, -3600, 3600, "GMT")
           } else {
            Table::row(69818400, 3600, 0, "IST")
           }
          } else {
           if i < 98 {
            Table::row(89172000, -3600, 3600, "GMT")
           } else {
            Table::row(101268000, 3600, 0, "IST")
           }
          }
         }
        }
       } else {
        if i < 106 {
         if i < 102 {
          if i < 100 {
           Table::row(120621600, -3600, 3600, "GMT")
          } else {
           if i < 101 {
            Table::row(132717600, 3600, 0, "IST")
           } else {
            Table::row(152071200, -3600, 3600, "GMT")
           }
          }
         } else {
          if i < 104 {
           if i < 103 {
            Table::row(164167200, 3600, 0, "IST")
           } else {
            Table::row(183520800, -3600, 3600, "GMT")
           }
          } else {
           if i < 105 {
            Table::row(196221600, 3600, 0, "IST")
           } else {
            Table::row(214970400, -3600, 3600, "GMT")
           }
          }
         }
        } else {
         if i < 110 {
          if i < 108 {
           if i < 107 {
            Table::row(227671200, 3600, 0, "IST")
           } else {
            Table::row(246420000, -3600, 3600, "GMT")
           }
          } else {
           if i < 109 {
            Table::row(259120800, 3600, 0, "IST")
           } else {
            Table::row(278474400, -3600, 3600, "GMT")
           }
          }
         } else {
          if i < 112 {
           if i < 111 {
            Table::row(290570400, 3600, 0, "IST")
           } else {
            Table::row(309924000, -3600, 3600, "GMT")
           }
          } else {
           if i < 113 {
            Table::row(322020000, 3600, 0, "IST")
           } else {
            Table::row(341373600, -3600, 3600, "GMT")
           }
          }
         }
        }
       }
      }
     }
    } else {
     if i < 171 {
      if i < 142 {
       if i < 128 {
        if i < 121 {
         if i < 117 {
          if i < 115 {
           Table::row(354675600, 3600, 0, "IST")
          } else {
           if i < 116 {
            Table::row(372819600, -3600, 3600, "GMT")
           } else {
            Table::row(386125200, 3600, 0, "IST")
           }
          }
         } else {
          if i < 119 {
           if i < 118 {
            Table::row(404269200, -3600, 3600, "GMT")
           } else {
            Table::row(417574800, 3600, 0, "IST")
           }
          } else {
           if i < 120 {
            Table::row(435718800, -3600, 3600, "GMT")
           } else {
            Table::row(449024400, 3600, 0, "IST")
           }
          }
         }
        } else {
         if i < 124 {
          if i < 122 {
           Table::row(467773200, -3600, 3600, "GMT")
          } else {
           if i < 123 {
            Table::row(481078800, 3600, 0, "IST")
           } else {
            Table::row(499222800, -3600, 3600, "GMT")
           }
          }
         } else {
          if i < 126 {
           if i < 125 {
            Table::row(512528400, 3600, 0, "IST")
           } else {
            Table::row(530672400, -3600, 3600, "GMT")
           }
          } else {
           if i < 127 {
            Table::row(543978000, 3600, 0, "IST")
           } else {
            Table::row(562122000, -3600, 3600, "GMT")
           }
          }
         }
        }
       } else {
        if i < 135 {
         if i < 131 {
          if i < 129 {
           Table::row(575427600, 3600, 0, "IST")
          } else {
           if i < 130 {
            Table::row(593571600, -3600, 3600, "GMT")
           } else {
            Table::row(606877200, 3600, 0, "IST")
           }
          }
         } else {
          if i < 133 {
           if i < 132 {
            Table::row(625626000, -3600, 3600, "GMT")
           } else {
            Table::row(638326800, 3600, 0, "IST")
           }
          } else {
           if i < 134 {
            Table::row(657075600, -3600, 3600, "GMT")
           } else {
            Table::row(670381200, 3600, 0, "IST")
           }
          }
         }
        } else {
         if i < 138 {
          if i < 136 {
           Table::row(688525200, -3600, 3600, "GMT")
          } else {
           if i < 137 {
            Table::row(701830800, 3600, 0, "IST")
           } else {
            Table::row(719974800, -3600, 3600, "GMT")
           }
          }
         } else {
          if i < 140 {
           if i < 139 {
            Table::row(733280400, 3600, 0, "IST")
           } else {
            Table::row(751424400, -3600, 3600, "GMT")
           }
          } else {
           if i < 141 {
            Table::row(764730000, 3600, 0, "IST")
           } else {
            Table::row(782874000, -3600, 3600, "GMT")
           }
          }
         }
        }
       }
      } else {
       if i < 156 {
        if i < 149 {
         if i < 145 {
          if i < 143 {
           Table::row(796179600, 3600, 0, "IST")
          } else {
           if i < 144 {
            Table::row(814323600, -3600, 3600, "GMT")
           } else {
            Table::row(828234000, 3600, 0, "IST")
           }
          }
         } else {
          if i < 147 {
           if i < 146 {
            Table::row(846378000, -3600, 3600, "GMT")
           } else {
            Table::row(859683600, 3600, 0, "IST")
           }
          } else {
           if i < 148 {
            Table::row(877827600, -3600, 3600, "GMT")
           } else {
            Table::row(891133200, 3600, 0, "IST")
           }
          }
         }
        } else {
         if i < 152 {
          if i < 150 {
           Table::row(909277200, -3600, 3600, "GMT")
          } else {
           if i < 151 {
            Table::row(922582800, 3600, 0, "IST")
           } else {
            Table::row(941331600, -3600, 3600, "GMT")
           }
          }
         } else {
          if i < 154 {
           if i < 153 {
            Table::row(954032400, 3600, 0, "IST")
           } else {
            Table::row(972781200, -3600, 3600, "GMT")
           }
          } else {
           if i < 155 {
            Table::row(985482000, 3600, 0, "IST")
           } else {
            Table::row(1004230800, -3600, 3600, "GMT")
           }
          }
         }
        }
       } else {
        if i < 163 {
         if i < 159 {
          if i < 157 {
           Table::row(1017536400, 3600, 0, "IST")
          } else {
           if i < 158 {
            Table::row(1035680400, -3600, 3600, "GMT")
           } else {
            Table::row(1048986000, 3600, 0, "IST")
           }
          }
         } else {
          if i < 161 {
           if i < 160 {
            Table::row(1067130000, -3600, 3600, "GMT")
           } else {
            Table::row(1080435600, 3600, 0, "IST")
           }
          } else {
           if i < 162 {
            Table::row(1099184400, -3600, 3600, "GMT")
           } else {
            Table::row(1111885200, 3600, 0, "IST")
           }
          }
         }
        } else {
         if i < 167 {
          if i < 165 {
           if i < 164 {
            Table::row(1130634000, -3600, 3600, "GMT")
           } else {
            Table::row(1143334800, 3600, 0, "IST")
           }
          } else {
           if i < 166 {
            Table::row(1162083600, -3600, 3600, "GMT")
           } else {
            Table::row(1174784400, 3600, 0, "IST")
           }
          }
         } else {
          if i < 169 {
           if i < 168 {
            Table::row(1193533200, -3600, 3600, "GMT")
           } else {
            Table::row(1206838800, 3600, 0, "IST")
           }
          } else {
           if i < 170 {
            Table::row(1224982800, -3600, 3600, "GMT")
           } else {
            Table::row(1238288400, 3600, 0, "IST")
           }
          }
         }
        }
       }
      }
     } else {
      if i < 199 {
       if i < 185 {
        if i < 178 {
         if i < 174 {
          if i < 172 {
           Table::row(1256432400, -3600, 3600, "GMT")
          } else {
           if i < 173 {
            Table::row(1269738000, 3600, 0, "IST")
           } else {
            Table::row(1288486800, -3600, 3600, "GMT")
           }
          }
         } else {
          if i < 176 {
           if i < 175 {
            Table::row(1301187600, 3600, 0, "IST")
           } else {
            Table::row(1319936400, -3600, 3600, "GMT")
           }
          } else {
           if i < 177 {
            Table::row(1332637200, 3600, 0, "IST")
           } else {
            Table::row(1351386000, -3600, 3600, "GMT")
           }
          }
         }
        } else {
         if i < 181 {
          if i < 179 {
           Table::row(1364691600, 3600, 0, "IST")
          } else {
           if i < 180 {
            Table::row(1382835600, -3600, 3600, "GMT")
           } else {
            Table::row(1396141200, 3600, 0, "IST")
           }
          }
         } else {
          if i < 183 {
           if i < 182 {
            Table::row(1414285200, -3600, 3600, "GMT")
           } else {
            Table::row(1427590800, 3600, 0, "IST")
           }
          } else {
           if i < 184 {
            Table::row(1445734800, -3600, 3600, "GMT")
           } else {
            Table::row(1459040400, 3600, 0, "IST")
           }
          }
         }
        }
       } else {
        if i < 192 {
         if i < 188 {
          if i < 186 {
           Table::row(1477789200, -3600, 3600, "GMT")
          } else {
           if i < 187 {
            Table::row(1490490000, 3600, 0, "IST")
           } else {
            Table::row(1509238800, -3600, 3600, "GMT")
           }
          }
         } else {
          if i < 190 {
           if i < 189 {
            Table::row(1521939600, 3600, 0, "IST")
           } else {
            Table::row(1540688400, -3600, 3600, "GMT")
           }
          } else {
           if i < 191 {
            Table::row(1553994000, 3600, 0, "IST")
           } else {
            Table::row(1572138000, -3600, 3600, "GMT")
           }
          }
         }
        } else {
         if i < 195 {
          if i < 193 {
           Table::row(1585443600, 3600, 0, "IST")
          } else {
           if i < 194 {
            Table::row(1603587600, -3600, 3600, "GMT")
           } else {
            Table::row(1616893200, 3600, 0, "IST")
           }
          }
         } else {
          if i < 197 {
           if i < 196 {
            Table::row(1635642000, -3600, 3600, "GMT")
           } else {
            Table::row(1648342800, 3600, 0, "IST")
           }
          } else {
           if i < 198 {
            Table::row(1667091600, -3600, 3600, "GMT")
           } else {
            Table::row(1679792400, 3600, 0, "IST")
           }
          }
         }
        }
       }
      } else {
       if i < 213 {
        if i < 206 {
         if i < 202 {
          if i < 200 {
           Table::row(1698541200, -3600, 3600, "GMT")
          } else {
           if i < 201 {
            Table::row(1711846800, 3600, 0, "IST")
           } else {
            Table::row(1729990800, -3600, 3600, "GMT")
           }
          }
         } else {
          if i < 204 {
           if i < 203 {
            Table::row(1743296400, 3600, 0, "IST")
           } else {
            Table::row(1761440400, -3600, 3600, "GMT")
           }
          } else {
           if i < 205 {
            Table::row(1774746000, 3600, 0, "IST")
           } else {
            Table::row(1792890000, -3600, 3600, "GMT")
           }
          }
         }
        } else {
         if i < 209 {
          if i < 207 {
           Table::row(1806195600, 3600, 0, "IST")
          } else {
           if i < 208 {
            Table::row(1824944400, -3600, 3600, "GMT")
           } else {
            Table::row(1837645200, 3600, 0, "IST")
           }
          }
         } else {
          if i < 211 {
           if i < 210 {
            Table::row(1856394000, -3600, 3600, "GMT")
           } else {
            Table::row(1869094800, 3600, 0, "IST")
           }
          } else {
           if i < 212 {
            Table::row(1887843600, -3600, 3600, "GMT")
           } else {
            Table::row(1901149200, 3600, 0, "IST")
           }
          }
         }
        }
       } else {
        if i < 220 {
         if i < 216 {
          if i < 214 {
           Table::row(1919293200, -3600, 3600, "GMT")
          } else {
           if i < 215 {
            Table::row(1932598800, 3600, 0, "IST")
           } else {
            Table::row(1950742800, -3600, 3600, "GMT")
           }
          }
         } else {
          if i < 218 {
           if i < 217 {
            Table::row(1964048400, 3600, 0, "IST")
           } else {
            Table::row(1982797200, -3600, 3600, "GMT")
           }
          } else {
           if i < 219 {
            Table::row(1995498000, 3600, 0, "IST")
           } else {
            Table::row(2014246800, -3600, 3600, "GMT")
           }
          }
         }
        } else {
         if i < 224 {
          if i < 222 {
           if i < 221 {
            Table::row(2026947600, 3600, 0, "IST")
           } else {
            Table::row(2045696400, -3600, 3600, "GMT")
           }
          } else {
           if i < 223 {
            Table::row(2058397200, 3600, 0, "IST")
           } else {
            Table::row(2077146000, -3600, 3600, "GMT")
           }
          }
         } else {
          if i < 226 {
           if i < 225 {
            Table::row(2090451600, 3600, 0, "IST")
           } else {
            Table::row(2108595600, -3600, 3600, "GMT")
           }
          } else {
           if i < 227 {
            Table::row(2121901200, 3600, 0, "IST")
           } else {
            Table::row(2140045200, -3600, 3600, "GMT")
           }
          }
         }
        }
       }
      }
     }
    }
}

/// The rows of the table of the zone `Europe/Dublin`.
pub open spec fn dublin_rows() -> spec_fn(int) -> (i64, FixedTimespan) {
    |i: int| dublin_row(i)
}

/// The table of the zone `Europe/Dublin`.
pub open spec fn dublin() -> Table {
    Table::listed(Table::row(0, -1521, 0, "LMT").1, 228, dublin_rows())
}

/// Row `i` of the table of the zone `Europe/Gibraltar`.
pub open spec fn gibraltar_row(i: int) -> (i64, FixedTimespan) {
    if i < 99 {
     if i < 49 {
      if i < 24 {
       if i < 12 {
        if i < 6 {
         if i < 3 {
          if i < 1 {
           Table::row(-2821649916, 0, 0, "GMT")
          } else {
           if i < 2 {
            Table::row(-1691964000, 0, 3600, "BST")
           } else {
            Table::row(-1680472800, 0, 0, "GMT")
           }
          }
         } else {
          if i < 4 {
           Table::row(-1664143200, 0, 3600, "BST")
          } else {
           if i < 5 {
            Table::row(-1650146400, 0, 0, "GMT")
           } else {
            Table::row(-1633903200, 0, 3600, "BST")
           }
          }
         }
        } else {
         if i < 9 {
          if i < 7 {
           Table::row(-1617487200, 0, 0, "GMT")
          } else {
           if i < 8 {
            Table::row(-1601848800, 0, 3600, "BST")
           } else {
            Table::row(-1586037600, 0, 0, "GMT")
           }
          }
         } else {
          if i < 10 {
           Table::row(-1570399200, 0, 3600, "BST")
          } else {
           if i < 11 {
            Table::row(-1552168800, 0, 0, "GMT")
           } else {
            Table::row(-1538344800, 0, 3600, "BST")
           }
          }
         }
        }
       } else {
        if i < 18 {
         if i < 15 {
          if i < 13 {
           Table::row(-1522533600, 0, 0, "GMT")
          } else {
           if i < 14 {
            Table::row(-1507500000, 0, 3600, "BST")
           } else {
            Table::row(-1490565600, 0, 0, "GMT")
           }
          }
         } else {
          if i < 16 {
           Table::row(-1473631200, 0, 3600, "BST")
          } else {
           if i < 17 {
            Table::row(-1460930400, 0, 0, "GMT")
           } else {
            Table::row(-1442786400, 0, 3600, "BST")
           }
          }
         }
        } else {
         if i < 21 {
          if i < 19 {
           Table::row(-1428876000, 0, 0, "GMT")
          } else {
           if i < 20 {
            Table::row(-1410732000, 0, 3600, "BST")
           } else {
            Table::row(-1396216800, 0, 0, "GMT")
           }
          }
         } else {
          if i < 22 {
           Table::row(-1379282400, 0, 3600, "BST")
          } else {
           if i < 23 {
            Table::row(-1364767200, 0, 0, "GMT")
           } else {
            Table::row(-1348437600, 0, 3600, "BST")
           }
          }
         }
        }
       }
      } else {
       if i < 36 {
        if i < 30 {
         if i < 27 {
          if i < 25 {
           Table::row(-1333317600, 0, 0, "GMT")
          } else {
           if i < 26 {
            Table::row(-1315778400, 0, 3600, "BST")
           } else {
            Table::row(-1301263200, 0, 0, "GMT")
           }
          }
         } else {
          if i < 28 {
           Table::row(-1284328800, 0, 3600, "BST")
          } else {
           if i < 29 {
            Table::row(-1269813600, 0, 0, "GMT")
           } else {
            Table::row(-1253484000, 0, 3600, "BST")
           }
          }
         }
        } else {
         if i < 33 {
          if i < 31 {
           Table::row(-1238364000, 0, 0, "GMT")
          } else {
           if i < 32 {
            Table::row(-1221429600, 0, 3600, "BST")
           } else {
            Table::row(-1206914400, 0, 0, "GMT")
           }
          }
         } else {
          if i < 34 {
           Table::row(-1189980000, 0, 3600, "BST")
          } else {
           if i < 35 {
            Table::row(-1175464800, 0, 0, "GMT")
           } else {
            Table::row(-1159135200, 0, 3600, "BST")
           }
          }
         }
        }
       } else {
        if i < 42 {
         if i < 39 {
          if i < 37 {
           Table::row(-1143410400, 0, 0, "GMT")
          } else {
           if i < 38 {
            Table::row(-1126476000, 0, 3600, "BST")
           } else {
            Table::row(-1111960800, 0, 0, "GMT")
           }
          }
         } else {
          if i < 40 {
           Table::row(-1095631200, 0, 3600, "BST")
          } else {
           if i < 41 {
            Table::row(-1080511200, 0, 0, "GMT")
           } else {
            Table::row(-1063576800, 0, 3600, "BST")
           }
          }
         }
        } else {
         if i < 45 {
          if i < 43 {
           Table::row(-1049061600, 0, 0, "GMT")
          } else {
           if i < 44 {
            Table::row(-1032127200, 0, 3600, "BST")
           } else {
            Table::row(-1017612000, 0, 0, "GMT")
           }
          }
         } else {
          if i < 47 {
           if i < 46 {
            Table::row(-1001282400, 0, 3600, "BST")
           } else {
            Table::row(-986162400, 0, 0, "GMT")
           }
          } else {
           if i < 48 {
            Table::row(-969228000, 0, 3600, "BST")
           } else {
            Table::row(-950479200, 0, 0, "GMT")
           }
          }
         }
        }
       }
      }
     } else {
      if i < 74 {
       if i < 61 {
        if i < 55 {
         if i < 52 {
          if i < 50 {
           Table::row(-942012000, 0, 3600, "BST")
          } else {
           if i < 51 {
            Table::row(-904518000, 0, 7200, "BDST")
           } else {
            Table::row(-896050800, 0, 3600, "BST")
           }
          }
         } else {
          if i < 53 {
           Table::row(-875487600, 0, 7200, "BDST")
          } else {
           if i < 54 {
            Table::row(-864601200, 0, 3600, "BST")
           } else {
            Table::row(-844038000, 0, 7200, "BDST")
           }
          }
         }
        } else {
         if i < 58 {
          if i < 56 {
           Table::row(-832546800, 0, 3600, "BST")
          } else {
           if i < 57 {
            Table::row(-812588400, 0, 7200, "BDST")
           } else {
            Table::row(-798073200, 0, 3600, "BST")
           }
          }
         } else {
          if i < 59 {
           Table::row(-781052400, 0, 7200, "BDST")
          } else {
           if i < 60 {
            Table::row(-772066800, 0, 3600, "BST")
           } else {
            Table::row(-764805600, 0, 0, "GMT")
           }
          }
         }
        }
       } else {
        if i < 67 {
         if i < 64 {
          if i < 62 {
           Table::row(-748476000, 0, 3600, "BST")
          } else {
           if i < 63 {
            Table::row(-733356000, 0, 0, "GMT")
           } else {
            Table::row(-719445600, 0, 3600, "BST")
           }
          }
         } else {
          if i < 65 {
           Table::row(-717030000, 0, 7200, "BDST")
          } else {
           if i < 66 {
            Table::row(-706748400, 0, 3600, "BST")
           } else {
            Table::row(-699487200, 0, 0, "GMT")
           }
          }
         }
        } else {
         if i < 70 {
          if i < 68 {
           Table::row(-687996000, 0, 3600, "BST")
          } else {
           if i < 69 {
            Table::row(-668037600, 0, 0, "GMT")
           } else {
            Table::row(-654732000, 0, 3600, "BST")
           }
          }
         } else {
          if i < 72 {
           if i < 71 {
            Table::row(-636588000, 0, 0, "GMT")
           } else {
            Table::row(-622072800, 0, 3600, "BST")
           }
          } else {
           if i < 73 {
            Table::row(-605743200, 0, 0, "GMT")
           } else {
            Table::row(-590623200, 0, 3600, "BST")
           }
          }
         }
        }
       }
      } else {
       if i < 86 {
        if i < 80 {
         if i < 77 {
          if i < 75 {
           Table::row(-574293600, 0, 0, "GMT")
          } else {
           if i < 76 {
            Table::row(-558568800, 0, 3600, "BST")
           } else {
            Table::row(-542239200, 0, 0, "GMT")
           }
          }
         } else {
          if i < 78 {
           Table::row(-527119200, 0, 3600, "BST")
          } else {
           if i < 79 {
            Table::row(-512604000, 0, 0, "GMT")
           } else {
            Table::row(-496274400, 0, 3600, "BST")
           }
          }
         }
        } else {
         if i < 83 {
          if i < 81 {
           Table::row(-481154400, 0, 0, "GMT")
          } else {
           if i < 82 {
            Table::row(-464220000, 0, 3600, "BST")
           } else {
            Table::row(-449704800, 0, 0, "GMT")
           }
          }
         } else {
          if i < 84 {
           Table::row(-432165600, 0, 3600, "BST")
          } else {
           if i < 85 {
            Table::row(-417650400, 0, 0, "GMT")
           } else {
            Table::row(-401320800, 3600, 0, "CET")
           }
          }
         }
        }
       } else {
        if i < 92 {
         if i < 89 {
          if i < 87 {
           Table::row(386125200, 3600, 3600, "CEST")
          } else {
           if i < 88 {
            Table::row(401850000, 3600, 0, "CET")
           } else {
            Table::row(417574800, 3600, 3600, "CEST")
           }
          }
         } else {
          if i < 90 {
           Table::row(433299600, 3600, 0, "CET")
          } else {
           if i < 91 {
            Table::row(449024400, 3600, 3600, "CEST")
           } else {
            Table::row(465354000, 3600, 0, "CET")
           }
          }
         }
        } else {
         if i < 95 {
          if i < 93 {
           Table::row(481078800, 3600, 3600, "CEST")
          } else {
           if i < 94 {
            Table::row(496803600, 3600, 0, "CET")
           } else {
            Table::row(512528400, 3600, 3600, "CEST")
           }
          }
         } else {
          if i < 97 {
           if i < 96 {
            Table::row(528253200, 3600, 0, "CET")
           } else {
            Table::row(543978000, 3600, 3600, "CEST")
           }
          } else {
           if i < 98 {
            Table::row(559702800, 3600, 0, "CET")
           } else {
            Table::row(575427600, 3600, 3600, "CEST")
           }
          }
         }
        }
       }
      }
     }
    } else {
     if i < 148 {
      if i < 123 {
       if i < 111 {
        if i < 105 {
         if i < 102 {
          if i < 100 {
           Table::row(591152400, 3600, 0, "CET")
          } else {
           if i < 101 {
            Table::row(606877200, 3600, 3600, "CEST")
           } else {
            Table::row(622602000, 3600, 0, "CET")
           }
          }
         } else {
          if i < 103 {
           Table::row(638326800, 3600, 3600, "CEST")
          } else {
           if i < 104 {
            Table::row(654656400, 3600, 0, "CET")
           } else {
            Table::row(670381200, 3600, 3600, "CEST")
           }
          }
         }
        } else {
         if i < 108 {
          if i < 106 {
           Table::row(686106000, 3600, 0, "CET")
          } else {
           if i < 107 {
            Table::row(701830800, 3600, 3600, "CEST")
           } else {
            Table::row(717555600, 3600, 0, "CET")
           }
          }
         } else {
          if i < 109 {
           Table::row(733280400, 3600, 3600, "CEST")
          } else {
           if i < 110 {
            Table::row(749005200, 3600, 0, "CET")
           } else {
            Table::row(764730000, 3600, 3600, "CEST")
           }
          }
         }
        }
       } else {
        if i < 117 {
         if i < 114 {
          if i < 112 {
           Table::row(780454800, 3600, 0, "CET")
          } else {
           if i < 113 {
            Table::row(796179600, 3600, 3600, "CEST")
           } else {
            Table::row(811904400, 3600, 0, "CET")
           }
          }
         } else {
          if i < 115 {
           Table::row(828234000, 3600, 3600, "CEST")
          } else {
           if i < 116 {
            Table::row(846378000, 3600, 0, "CET")
           } else {
            Table::row(859683600, 3600, 3600, "CEST")
           }
          }
         }
        } else {
         if i < 120 {
          if i < 118 {
           Table::row(877827600, 3600, 0, "CET")
          } else {
           if i < 119 {
            Table::row(891133200, 3600, 3600, "CEST")
           } else {
            Table::row(909277200, 3600, 0, "CET")
           }
          }
         } else {
          if i < 121 {
           Table::row(922582800, 3600, 3600, "CEST")
          } else {
           if i < 122 {
            Table::row(941331600, 3600, 0, "CET")
           } else {
            Table::row(954032400, 3600, 3600, "CEST")
           }
          }
         }
        }
       }
      } else {
       if i < 135 {
        if i < 129 {
         if i < 126 {
          if i < 124 {
           Table::row(972781200, 3600, 0, "CET")
          } else {
           if i < 125 {
            Table::row(985482000, 3600, 3600, "CEST")
           } else {
            Table::row(1004230800, 3600, 0, "CET")
           }
          }
         } else {
          if i < 127 {
           Table::row(1017536400, 3600, 3600, "CEST")
          } else {
           if i < 128 {
            Table::row(1035680400, 3600, 0, "CET")
           } else {
            Table::row(1048986000, 3600, 3600, "CEST")
           }
          }
         }
        } else {
         if i < 132 {
          if i < 130 {
           Table::row(1067130000, 3600, 0, "CET")
          } else {
           if i < 131 {
            Table::row(1080435600, 3600, 3600, "CEST")
           } else {
            Table::row(1099184400, 3600, 0, "CET")
           }
          }
         } else {
          if i < 133 {
           Table::row(1111885200, 3600, 3600, "CEST")
          } else {
           if i < 134 {
            Table::row(1130634000, 3600, 0, "CET")
           } else {
            Table::row(1143334800, 3600, 3600, "CEST")
           }
          }
         }
        }
       } else {
        if i < 141 {
         if i < 138 {
          if i < 136 {
           Table::row(1162083600, 3600, 0, "CET")
          } else {
           if i < 137 {
            Table::row(1174784400, 3600, 3600, "CEST")
           } else {
            Table::row(1193533200, 3600, 0, "CET")
           }
          }
         } else {
          if i < 139 {
           Table::row(1206838800, 3600, 3600, "CEST")
          } else {
           if i < 140 {
            Table::row(1224982800, 3600, 0, "CET")
           } else {
            Table::row(1238288400, 3600, 3600, "CEST")
           }
          }
         }
        } else {
         if i < 144 {
          if i < 142 {
           Table::row(1256432400, 3600, 0, "CET")
          } else {
           if i < 143 {
            Table::row(1269738000, 3600, 3600, "CEST")
           } else {
            Table::row(1288486800, 3600, 0, "CET")
           }
          }
         } else {
          if i < 146 {
           if i < 145 {
            Table::row(1301187600, 3600, 3600, "CEST")
           } else {
            Table::row(1319936400, 3600, 0, "CET")
           }
          } else {
           if i < 147 {
            Table::row(1332637200, 3600, 3600, "CEST")
           } else {
            Table::row(1351386000, 3600, 0, "CET")
           }
          }
         }
        }
       }
      }
     } else {
      if i < 173 {
       if i < 160 {
        if i < 154 {
         if i < 151 {
          if i < 149 {
           Table::row(1364691600, 3600, 3600, "CEST")
          } else {
           if i < 150 {
            Table::row(1382835600, 3600, 0, "CET")
           } else {
            Table::row(1396141200, 3600, 3600, "CEST")
           }
          }
         } else {
          if i < 152 {
           Table::row(1414285200, 3600, 0, "CET")
          } else {
           if i < 153 {
            Table::row(1427590800, 3600, 3600, "CEST")
           } else {
            Table::row(1445734800, 3600, 0, "CET")
           }
          }
         }
        } else {
         if i < 157 {
          if i < 155 {
           Table::row(1459040400, 3600, 3600, "CEST")
          } else {
           if i < 156 {
            Table::row(1477789200, 3600, 0, "CET")
           } else {
            Table::row(1490490000, 3600, 3600, "CEST")
           }
          }
         } else {
          if i < 158 {
           Table::row(1509238800, 3600, 0, "CET")
          } else {
           if i < 159 {
            Table::row(1521939600, 3600, 3600, "CEST")
           } else {
            Table::row(1540688400, 3600, 0, "CET")
           }
          }
         }
        }
       } else {
        if i < 166 {
         if i < 163 {
          if i < 161 {
           Table::row(1553994000, 3600, 3600, "CEST")
          } else {
           if i < 162 {
            Table::row(1572138000, 3600, 0, "CET")
           } else {
            Table::row(1585443600, 3600, 3600, "CEST")
           }
          }
         } else {
          if i < 164 {
           Table::row(1603587600, 3600, 0, "CET")
          } else {
           if i < 165 {
            Table::row(1616893200, 3600, 3600, "CEST")
           } else {
            Table::row(1635642000, 3600, 0, "CET")
           }
          }
         }
        } else {
         if i < 169 {
          if i < 167 {
           Table::row(1648342800, 3600, 3600, "CEST")
          } else {
           if i < 168 {
            Table::row(1667091600, 3600, 0, "CET")
           } else {
            Table::row(1679792400, 3600, 3600, "CEST")
           }
          }
         } else {
          if i < 171 {
           if i < 170 {
            Table::row(1698541200, 3600, 0, "CET")
           } else {
            Table::row(1711846800, 3600, 3600, "CEST")
           }
          } else {
           if i < 172 {
            Table::row(1729990800, 3600, 0, "CET")
           } else {
            Table::row(1743296400, 3600, 3600, "CEST")
           }
          }
         }
        }
       }
      } else {
       if i < 185 {
        if i < 179 {
         if i < 176 {
          if i < 174 {
           Table::row(1761440400, 3600, 0, "CET")
          } else {
           if i < 175 {
            Table::row(1774746000, 3600, 3600, "CEST")
           } else {
            Table::row(1792890000, 3600, 0, "CET")
           }
          }
         } else {
          if i < 177 {
           Table::row(1806195600, 3600, 3600, "CEST")
          } else {
           if i < 178 {
            Table::row(1824944400, 3600, 0, "CET")
           } else {
            Table::row(1837645200, 3600, 3600, "CEST")
           }
          }
         }
        } else {
         if i < 182 {
          if i < 180 {
           Table::row(1856394000, 3600, 0, "CET")
          } else {
           if i < 181 {
            Table::row(1869094800, 3600, 3600, "CEST")
           } else {
            Table::row(1887843600, 3600, 0, "CET")
           }
          }
         } else {
          if i < 183 {
           Table::row(1901149200, 3600, 3600, "CEST")
          } else {
           if i < 184 {
            Table::row(1919293200, 3600, 0, "CET")
           } else {
            Table::row(1932598800, 3600, 3600, "CEST")
           }
          }
         }
        }
       } else {
        if i < 191 {
         if i < 188 {
          if i < 186 {
           Table::row(1950742800, 3600, 0, "CET")
          } else {
           if i < 187 {
            Table::row(1964048400, 3600, 3600, "CEST")
           } else {
            Table::row(1982797200, 3600, 0, "CET")
           }
          }
         } else {
          if i < 189 {
           Table::row(1995498000, 3600, 3600, "CEST")
          } else {
           if i < 190 {
            Table::row(2014246800, 3600, 0, "CET")
           } else {
            Table::row(2026947600, 3600, 3600, "CEST")
           }
          }
         }
        } else {
         if i < 194 {
          if i < 192 {
           Table::row(2045696400, 3600, 0, "CET")
          } else {
           if i < 193 {
            Table::row(2058397200, 3600, 3600, "CEST")
           } else {
            Table::row(2077146000, 3600, 0, "CET")
           }
          }
         } else {
          if i < 196 {
           if i < 195 {
            Table::row(2090451600, 3600, 3600, "CEST")
           } else {
            Table::row(2108595600, 3600, 0, "CET")
           }
          } else {
           if i < 197 {
            Table::row(2121901200, 3600, 3600, "CEST")
           } else {
            Table::row(2140045200, 3600, 0, "CET")
           }
          }
         }
        }
       }
      }
     }
    }
}

/// The rows of the table of the zone `Europe/Gibraltar`.
pub open spec fn gibraltar_rows() -> spec_fn(int) -> (i64, FixedTimespan) {
    |i: int| gibraltar_row(i)
}

/// The table of the zone `Europe/Gibraltar`.
pub open spec fn gibraltar() -> Table {
    Table::listed(Table::row(0, -1284, 0, "LMT").1, 198, gibraltar_rows())
}

/// Row `i` of the table of the zone `Europe/Guernsey`.
pub open spec fn guernsey_row(i: int) -> (i64, FixedTimespan) {
    if i < 120 {
     if i < 60 {
      if i < 30 {
       if i < 15 {
        if i < 7 {
         if i < 3 {
          if i < 1 {
           Table::row(-1784245791, 0, 0, "GMT")
          } else {
           if i < 2 {
            Table::row(-1691964000, 0, 3600, "BST")
           } else {
            Table::row(-1680472800, 0, 0, "GMT")
           }
          }
         } else {
          if i < 5 {
           if i < 4 {
            Table::row(-1664143200, 0, 3600, "BST")
           } else {
            Table::row(-1650146400, 0, 0, "GMT")
           }
          } else {
           if i < 6 {
            Table::row(-1633903200, 0, 3600, "BST")
           } else {
            Table::row(-1617487200, 0, 0, "GMT")
           }
          }
         }
        } else {
         if i < 11 {
          if i < 9 {
           if i < 8 {
            Table::row(-1601848800, 0, 3600, "BST")
           } else {
            Table::row(-1586037600, 0, 0, "GMT")
           }
          } else {
           if i < 10 {
            Table::row(-1570399200, 0, 3600, "BST")
           } else {
            Table::row(-1552168800, 0, 0, "GMT")
           }
          }
         } else {
          if i < 13 {
           if i < 12 {
            Table::row(-1538344800, 0, 3600, "BST")
           } else {
            Table::row(-1522533600, 0, 0, "GMT")
           }
          } else {
           if i < 14 {
            Table::row(-1507500000, 0, 3600, "BST")
           } else {
            Table::row(-1490565600, 0, 0, "GMT")
           }
          }
         }
        }
       } else {
        if i < 22 {
         if i < 18 {
          if i < 16 {
           Table::row(-1473631200, 0, 3600, "BST")
          } else {
           if i < 17 {
            Table::row(-1460930400, 0, 0, "GMT")
           } else {
            Table::row(-1442786400, 0, 3600, "BST")
           }
          }
         } else {
          if i < 20 {
           if i < 19 {
            Table::row(-1428876000, 0, 0, "GMT")
           } else {
            Table::row(-1410732000, 0, 3600, "BST")
           }
          } else {
           if i < 21 {
            Table::row(-1396216800, 0, 0, "GMT")
           } else {
            Table::row(-1379282400, 0, 3600, "BST")
           }
          }
         }
        } else {
         if i < 26 {
          if i < 24 {
           if i < 23 {
            Table::row(-1364767200, 0, 0, "GMT")
           } else {
            Table::row(-1348437600, 0, 3600, "BST")
           }
          } else {
           if i < 25 {
            Table::row(-1333317600, 0, 0, "GMT")
           } else {
            Table::row(-1315778400, 0, 3600, "BST")
           }
          }
         } else {
          if i < 28 {
           if i < 27 {
            Table::row(-1301263200, 0, 0, "GMT")
           } else {
            Table::row(-1284328800, 0, 3600, "BST")
           }
          } else {
           if i < 29 {
            Table::row(-1269813600, 0, 0, "GMT")
           } else {
            Table::row(-1253484000, 0, 3600, "BST")
           }
          }
         }
        }
       }
      } else {
       if i < 45 {
        if i < 37 {
         if i < 33 {
          if i < 31 {
           Table::row(-1238364000, 0, 0, "GMT")
          } else {
           if i < 32 {
            Table::row(-1221429600, 0, 3600, "BST")
           } else {
            Table::row(-1206914400, 0, 0, "GMT")
           }
          }
         } else {
          if i < 35 {
           if i < 34 {
            Table::row(-1189980000, 0, 3600, "BST")
           } else {
            Table::row(-1175464800, 0, 0, "GMT")
           }
          } else {
           if i < 36 {
            Table::row(-1159135200, 0, 3600, "BST")
           } else {
            Table::row(-1143410400, 0, 0, "GMT")
           }
          }
         }
        } else {
         if i < 41 {
          if i < 39 {
           if i < 38 {
            Table::row(-1126476000, 0, 3600, "BST")
           } else {
            Table::row(-1111960800, 0, 0, "GMT")
           }
          } else {
           if i < 40 {
            Table::row(-1095631200, 0, 3600, "BST")
           } else {
            Table::row(-1080511200, 0, 0, "GMT")
           }
          }
         } else {
          if i < 43 {
           if i < 42 {
            Table::row(-1063576800, 0, 3600, "BST")
           } else {
            Table::row(-1049061600, 0, 0, "GMT")
           }
          } else {
           if i < 44 {
            Table::row(-1032127200, 0, 3600, "BST")
           } else {
            Table::row(-1017612000, 0, 0, "GMT")
           }
          }
         }
        }
       } else {
        if i < 52 {
         if i < 48 {
          if i < 46 {
           Table::row(-1001282400, 0, 3600, "BST")
          } else {
           if i < 47 {
            Table::row(-986162400, 0, 0, "GMT")
           } else {
            Table::row(-969228000, 0, 3600, "BST")
           }
          }
         } else {
          if i < 50 {
           if i < 49 {
            Table::row(-950479200, 0, 0, "GMT")
           } else {
            Table::row(-942012000, 0, 3600, "BST")
           }
          } else {
           if i < 51 {
            Table::row(-930963600, 0, 7200, "CEST")
           } else {
            Table::row(-857257200, 3600, 0, "CET")
           }
          }
         }
        } else {
         if i < 56 {
          if i < 54 {
           if i < 53 {
            Table::row(-844556400, 3600, 3600, "CEST")
           } else {
            Table::row(-828226800, 3600, 0, "CET")
           }
          } else {
           if i < 55 {
            Table::row(-812502000, 3600, 3600, "CEST")
           } else {
            Table::row(-796777200, 3600, 0, "CET")
           }
          }
         } else {
          if i < 58 {
           if i < 57 {
            Table::row(-781052400, 3600, 3600, "CEST")
           } else {
            Table::row(-777952800, 3600, 3600, "BDST")
           }
          } else {
           if i < 59 {
            Table::row(-772066800, 0, 3600, "BST")
           } else {
            Table::row(-764805600, 0, 0, "GMT")
           }
          }
         }
        }
       }
      }
     } else {
      if i < 90 {
       if i < 75 {
        if i < 67 {
         if i < 63 {
          if i < 61 {
           Table::row(-748476000, 0, 3600, "BST")
          } else {
           if i < 62 {
            Table::row(-733356000, 0, 0, "GMT")
           } else {
            Table::row(-719445600, 0, 3600, "BST")
           }
          }
         } else {
          if i < 65 {
           if i < 64 {
            Table::row(-717030000, 0, 7200, "BDST")
           } else {
            Table::row(-706748400, 0, 3600, "BST")
           }
          } else {
           if i < 66 {
            Table::row(-699487200, 0, 0, "GMT")
           } else {
            Table::row(-687996000, 0, 3600, "BST")
           }
          }
         }
        } else {
         if i < 71 {
          if i < 69 {
           if i < 68 {
            Table::row(-668037600, 0, 0, "GMT")
           } else {
            Table::row(-654732000, 0, 3600, "BST")
           }
          } else {
           if i < 70 {
            Table::row(-636588000, 0, 0, "GMT")
           } else {
            Table::row(-622072800, 0, 3600, "BST")
           }
          }
         } else {
          if i < 73 {
           if i < 72 {
            Table::row(-605743200, 0, 0, "GMT")
           } else {
            Table::row(-590623200, 0, 3600, "BST")
           }
          } else {
           if i < 74 {
            Table::row(-574293600, 0, 0, "GMT")
           } else {
            Table::row(-558568800, 0, 3600, "BST")
           }
          }
         }
        }
       } else {
        if i < 82 {
         if i < 78 {
          if i < 76 {
           Table::row(-542239200, 0, 0, "GMT")
          } else {
           if i < 77 {
            Table::row(-527119200, 0, 3600, "BST")
           } else {
            Table::row(-512604000, 0, 0, "GMT")
           }
          }
         } else {
          if i < 80 {
           if i < 79 {
            Table::row(-496274400, 0, 3600, "BST")
           } else {
            Table::row(-481154400, 0, 0, "GMT")
           }
          } else {
           if i < 81 {
            Table::row(-464220000, 0, 3600, "BST")
           } else {
            Table::row(-449704800, 0, 0, "GMT")
           }
          }
         }
        } else {
         if i < 86 {
          if i < 84 {
           if i < 83 {
            Table::row(-432165600, 0, 3600, "BST")
           } else {
            Table::row(-417650400, 0, 0, "GMT")
           }
          } else {
           if i < 85 {
            Table::row(-401320800, 0, 3600, "BST")
           } else {
            Table::row(-386200800, 0, 0, "GMT")
           }
          }
         } else {
          if i < 88 {
           if i < 87 {
            Table::row(-369266400, 0, 3600, "BST")
           } else {
            Table::row(-354751200, 0, 0, "GMT")
           }
          } else {
           if i < 89 {
            Table::row(-337816800, 0, 3600, "BST")
           } else {
            Table::row(-323301600, 0, 0, "GMT")
           }
          }
         }
        }
       }
      } else {
       if i < 105 {
        if i < 97 {
         if i < 93 {
          if i < 91 {
           Table::row(-306972000, 0, 3600, "BST")
          } else {
           if i < 92 {
            Table::row(-291852000, 0, 0, "GMT")
           } else {
            Table::row(-276732000, 0, 3600, "BST")
           }
          }
         } else {
          if i < 95 {
           if i < 94 {
            Table::row(-257983200, 0, 0, "GMT")
           } else {
            Table::row(-245282400, 0, 3600, "BST")
           }
          } else {
           if i < 96 {
            Table::row(-226533600, 0, 0, "GMT")
           } else {
            Table::row(-213228000, 0, 3600, "BST")
           }
          }
         }
        } else {
         if i < 101 {
          if i < 99 {
           if i < 98 {
            Table::row(-195084000, 0, 0, "GMT")
           } else {
            Table::row(-182383200, 0, 3600, "BST")
           }
          } else {
           if i < 100 {
            Table::row(-163634400, 0, 0, "GMT")
           } else {
            Table::row(-150933600, 0, 3600, "BST")
           }
          }
         } else {
          if i < 103 {
           if i < 102 {
            Table::row(-132184800, 0, 0, "GMT")
           } else {
            Table::row(-119484000, 0, 3600, "BST")
           }
          } else {
           if i < 104 {
            Table::row(-100735200, 0, 0, "GMT")
           } else {
            Table::row(-88034400, 0, 3600, "BST")
           }
          }
         }
        }
       } else {
        if i < 112 {
         if i < 108 {
          if i < 106 {
           Table::row(-68680800, 0, 0, "GMT")
          } else {
           if i < 107 {
            Table::row(-59004000, 0, 3600, "BST")
           } else {
            Table::row(-37242000, 3600, 0, "BST")
           }
          }
         } else {
          if i < 110 {
           if i < 109 {
            Table::row(57722400, 0, 0, "GMT")
           } else {
            Table::row(69818400, 0, 3600, "BST")
           }
          } else {
           if i < 111 {
            Table::row(89172000, 0, 0, "GMT")
           } else {
            Table::row(101268000, 0, 3600, "BST")
           }
          }
         }
        } else {
         if i < 116 {
          if i < 114 {
           if i < 113 {
            Table::row(120621600, 0, 0, "GMT")
           } else {
            Table::row(132717600, 0, 3600, "BST")
           }
          } else {
           if i < 115 {
            Table::row(152071200, 0, 0, "GMT")
           } else {
            Table::row(164167200, 0, 3600, "BST")
           }
          }
         } else {
          if i < 118 {
           if i < 117 {
            Table::row(183520800, 0, 0, "GMT")
           } else {
            Table::row(196221600, 0, 3600, "BST")
           }
          } else {
           if i < 119 {
            Table::row(214970400, 0, 0, "GMT")
           } else {
            Table::row(227671200, 0, 3600, "BST")
           }
          }
         }
        }
       }
      }
     }
    } else {
     if i < 180 {
      if i < 150 {
       if i < 135 {
        if i < 127 {
         if i < 123 {
          if i < 121 {
           Table::row(246420000, 0, 0, "GMT")
          } else {
           if i < 122 {
            Table::row(259120800, 0, 3600, "BST")
           } else {
            Table::row(278474400, 0, 0, "GMT")
           }
          }
         } else {
          if i < 125 {
           if i < 124 {
            Table::row(290570400, 0, 3600, "BST")
           } else {
            Table::row(309924000, 0, 0, "GMT")
           }
          } else {
           if i < 126 {
            Table::row(322020000, 0, 3600, "BST")
           } else {
            Table::row(341373600, 0, 0, "GMT")
           }
          }
         }
        } else {
         if i < 131 {
          if i < 129 {
           if i < 128 {
            Table::row(354675600, 0, 3600, "BST")
           } else {
            Table::row(372819600, 0, 0, "GMT")
           }
          } else {
           if i < 130 {
            Table::row(386125200, 0, 3600, "BST")
           } else {
            Table::row(404269200, 0, 0, "GMT")
           }
          }
         } else {
          if i < 133 {
           if i < 132 {
            Table::row(417574800, 0, 3600, "BST")
           } else {
            Table::row(435718800, 0, 0, "GMT")
           }
          } else {
           if i < 134 {
            Table::row(449024400, 0, 3600, "BST")
           } else {
            Table::row(467773200, 0, 0, "GMT")
           }
          }
         }
        }
       } else {
        if i < 142 {
         if i < 138 {
          if i < 136 {
           Table::row(481078800, 0, 3600, "BST")
          } else {
           if i < 137 {
            Table::row(499222800, 0, 0, "GMT")
           } else {
            Table::row(512528400, 0, 3600, "BST")
           }
          }
         } else {
          if i < 140 {
           if i < 139 {
            Table::row(530672400, 0, 0, "GMT")
           } else {
            Table::row(543978000, 0, 3600, "BST")
           }
          } else {
           if i < 141 {
            Table::row(562122000, 0, 0, "GMT")
           } else {
            Table::row(575427600, 0, 3600, "BST")
           }
          }
         }
        } else {
         if i < 146 {
          if i < 144 {
           if i < 143 {
            Table::row(593571600, 0, 0, "GMT")
           } else {
            Table::row(606877200, 0, 3600, "BST")
           }
          } else {
           if i < 145 {
            Table::row(625626000, 0, 0, "GMT")
           } else {
            Table::row(638326800, 0, 3600, "BST")
           }
          }
         } else {
          if i < 148 {
           if i < 147 {
            Table::row(657075600, 0, 0, "GMT")
           } else {
            Table::row(670381200, 0, 3600, "BST")
           }
          } else {
           if i < 149 {
            Table::row(688525200, 0, 0, "GMT")
           } else {
            Table::row(701830800, 0, 3600, "BST")
           }
          }
         }
        }
       }
      } else {
       if i < 165 {
        if i < 157 {
         if i < 153 {
          if i < 151 {
           Table::row(719974800, 0, 0, "GMT")
          } else {
           if i < 152 {
            Table::row(733280400, 0, 3600, "BST")
           } else {
            Table::row(751424400, 0, 0, "GMT")
           }
          }
         } else {
          if i < 155 {
           if i < 154 {
            Table::row(764730000, 0, 3600, "BST")
           } else {
            Table::row(782874000, 0, 0, "GMT")
           }
          } else {
           if i < 156 {
            Table::row(796179600, 0, 3600, "BST")
           } else {
            Table::row(814323600, 0, 0, "GMT")
           }
          }
         }
        } else {
         if i < 161 {
          if i < 159 {
           if i < 158 {
            Table::row(828234000, 0, 3600, "BST")
           } else {
            Table::row(846378000, 0, 0, "GMT")
           }
          } else {
           if i < 160 {
            Table::row(859683600, 0, 3600, "BST")
           } else {
            Table::row(877827600, 0, 0, "GMT")
           }
          }
         } else {
          if i < 163 {
           if i < 162 {
            Table::row(891133200, 0, 3600, "BST")
           } else {
            Table::row(909277200, 0, 0, "GMT")
           }
          } else {
           if i < 164 {
            Table::row(922582800, 0, 3600, "BST")
           } else {
            Table::row(941331600, 0, 0, "GMT")
           }
          }
         }
        }
       } else {
        if i < 172 {
         if i < 168 {
          if i < 166 {
           Table::row(954032400, 0, 3600, "BST")
          } else {
           if i < 167 {
            Table::row(972781200, 0, 0, "GMT")
           } else {
            Table::row(985482000, 0, 3600, "BST")
           }
          }
         } else {
          if i < 170 {
           if i < 169 {
            Table::row(1004230800, 0, 0, "GMT")
           } else {
            Table::row(1017536400, 0, 3600, "BST")
           }
          } else {
           if i < 171 {
            Table::row(1035680400, 0, 0, "GMT")
           } else {
            Table::row(1048986000, 0, 3600, "BST")
           }
          }
         }
        } else {
         if i < 176 {
          if i < 174 {
           if i < 173 {
            Table::row(1067130000, 0, 0, "GMT")
           } else {
            Table::row(1080435600, 0, 3600, "BST")
           }
          } else {
           if i < 175 {
            Table::row(1099184400, 0, 0, "GMT")
           } else {
            Table::row(1111885200, 0, 3600, "BST")
           }
          }
         } else {
          if i < 178 {
           if i < 177 {
            Table::row(1130634000, 0, 0, "GMT")
           } else {
            Table::row(1143334800, 0, 3600, "BST")
           }
          } else {
           if i < 179 {
            Table::row(1162083600, 0, 0, "GMT")
           } else {
            Table::row(1174784400, 0, 3600, "BST")
           }
          }
         }
        }
       }
      }
     } else {
      if i < 210 {
       if i < 195 {
        if i < 187 {
         if i < 183 {
          if i < 181 {
           Table::row(1193533200, 0, 0, "GMT")
          } else {
           if i < 182 {
            Table::row(1206838800, 0, 3600, "BST")
           } else {
            Table::row(1224982800, 0, 0, "GMT")
           }
          }
         } else {
          if i < 185 {
           if i < 184 {
            Table::row(1238288400, 0, 3600, "BST")
           } else {
            Table::row(1256432400, 0, 0, "GMT")
           }
          } else {
           if i < 186 {
            Table::row(1269738000, 0, 3600, "BST")
           } else {
            Table::row(1288486800, 0, 0, "GMT")
           }
          }
         }
        } else {
         if i < 191 {
          if i < 189 {
           if i < 188 {
            Table::row(1301187600, 0, 3600, "BST")
           } else {
            Table::row(1319936400, 0, 0, "GMT")
           }
          } else {
           if i < 190 {
            Table::row(1332637200, 0, 3600, "BST")
           } else {
            Table::row(1351386000, 0, 0, "GMT")
           }
          }
         } else {
          if i < 193 {
           if i < 192 {
            Table::row(1364691600, 0, 3600, "BST")
           } else {
            Table::row(1382835600, 0, 0, "GMT")
           }
          } else {
           if i < 194 {
            Table::row(1396141200, 0, 3600, "BST")
           } else {
            Table::row(1414285200, 0, 0, "GMT")
           }
          }
         }
        }
       } else {
        if i < 202 {
         if i < 198 {
          if i < 196 {
           Table::row(1427590800, 0, 3600, "BST")
          } else {
           if i < 197 {
            Table::row(1445734800, 0, 0, "GMT")
           } else {
            Table::row(1459040400, 0, 3600, "BST")
           }
          }
         } else {
          if i < 200 {
           if i < 199 {
            Table::row(1477789200, 0, 0, "GMT")
           } else {
            Table::row(1490490000, 0, 3600, "BST")
           }
          } else {
           if i < 201 {
            Table::row(1509238800, 0, 0, "GMT")
           } else {
            Table::row(1521939600, 0, 3600, "BST")
           }
          }
         }
        } else {
         if i < 206 {
          if i < 204 {
           if i < 203 {
            Table::row(1540688400, 0, 0, "GMT")
           } else {
            Table::row(1553994000, 0, 3600, "BST")
           }
          } else {
           if i < 205 {
            Table::row(1572138000, 0, 0, "GMT")
           } else {
            Table::row(1585443600, 0, 3600, "BST")
           }
          }
         } else {
          if i < 208 {
           if i < 207 {
            Table::row(1603587600, 0, 0, "GMT")
           } else {
            Table::row(1616893200, 0, 3600, "BST")
           }
          } else {
           if i < 209 {
            Table::row(1635642000, 0, 0, "GMT")
           } else {
            Table::row(1648342800, 0, 3600, "BST")
           }
          }
         }
        }
       }
      } else {
       if i < 225 {
        if i < 217 {
         if i < 213 {
          if i < 211 {
           Table::row(1667091600, 0, 0, "GMT")
          } else {
           if i < 212 {
            Table::row(1679792400, 0, 3600, "BST")
           } else {
            Table::row(1698541200, 0, 0, "GMT")
           }
          }
         } else {
          if i < 215 {
           if i < 214 {
            Table::row(1711846800, 0, 3600, "BST")
           } else {
            Table::row(1729990800, 0, 0, "GMT")
           }
          } else {
           if i < 216 {
            Table::row(1743296400, 0, 3600, "BST")
           } else {
            Table::row(1761440400, 0, 0, "GMT")
           }
          }
         }
        } else {
         if i < 221 {
          if i < 219 {
           if i < 218 {
            Table::row(1774746000, 0, 3600, "BST")
           } else {
            Table::row(1792890000, 0, 0, "GMT")
           }
          } else {
           if i < 220 {
            Table::row(1806195600, 0, 3600, "BST")
           } else {
            Table::row(1824944400, 0, 0, "GMT")
           }
          }
         } else {
          if i < 223 {
           if i < 222 {
            Table::row(1837645200, 0, 3600, "BST")
           } else {
            Table::row(1856394000, 0, 0, "GMT")
           }
          } else {
           if i < 224 {
            Table::row(1869094800, 0, 3600, "BST")
           } else {
            Table::row(1887843600, 0, 0, "GMT")
           }
          }
         }
        }
       } else {
        if i < 233 {
         if i < 229 {
          if i < 227 {
           if i < 226 {
            Table::row(1901149200, 0, 3600, "BST")
           } else {
            Table::row(1919293200, 0, 0, "GMT")
           }
          } else {
           if i < 228 {
            Table::row(1932598800, 0, 3600, "BST")
           } else {
            Table::row(1950742800, 0, 0, "GMT")
           }
          }
         } else {
          if i < 231 {
           if i < 230 {
            Table::row(1964048400, 0, 3600, "BST")
           } else {
            Table::row(1982797200, 0, 0, "GMT")
           }
          } else {
           if i < 232 {
            Table::row(1995498000, 0, 3600, "BST")
           } else {
            Table::row(2014246800, 0, 0, "GMT")
           }
          }
         }
        } else {
         if i < 237 {
          if i < 235 {
           if i < 234 {
            Table::row(2026947600, 0, 3600, "BST")
           } else {
            Table::row(2045696400, 0, 0, "GMT")
           }
          } else {
           if i < 236 {
            Table::row(2058397200, 0, 3600, "BST")
           } else {
            Table::row(2077146000, 0, 0, "GMT")
           }
          }
         } else {
          if i < 239 {
           if i < 238 {
            Table::row(2090451600, 0, 3600, "BST")
           } else {
            Table::row(2108595600, 0, 0, "GMT")
           }
          } else {
           if i < 240 {
            Table::row(2121901200, 0, 3600, "BST")
           } else {
            Table::row(2140045200, 0, 0, "GMT")
           }
          }
         }
        }
       }
      }
     }
    }
}

/// The rows of the table of the zone `Europe/Guernsey`.
pub open spec fn guernsey_rows() -> spec_fn(int) -> (i64, FixedTimespan) {
    |i: int| guernsey_row(i)
}

/// The table of the zone `Europe/Guernsey`.
pub open spec fn guernsey() -> Table {
    Table::listed(Table::row(0, -609, 0, "LMT").1, 241, guernsey_rows())
}

/// Row `i` of the table of the zone `Europe/Helsinki`.
pub open spec fn helsinki_row(i: int) -> (i64, FixedTimespan) {
    if i < 59 {
     if i < 29 {
      if i < 14 {
       if i < 7 {
        if i < 3 {
         if i < 1 {
          Table::row(-2890258789, 5989, 0, "HMT")
         } else {
          if i < 2 {
           Table::row(-1535938789, 7200, 0, "EET")
          } else {
           Table::row(-875671200, 7200, 3600, "EEST")
          }
         }
        } else {
         if i < 5 {
          if i < 4 {
           Table::row(-859773600, 7200, 0, "EET")
          } else {
           Table::row(354672000, 7200, 3600, "EEST")
          }
         } else {
          if i < 6 {
           Table::row(370396800, 7200, 0, "EET")
          } else {
           Table::row(386121600, 7200, 3600, "EEST")
          }
         }
        }
       } else {
        if i < 10 {
         if i < 8 {
          Table::row(401846400, 7200, 0, "EET")
         } else {
          if i < 9 {
           Table::row(417574800, 7200, 3600, "EEST")
          } else {
           Table::row(433299600, 7200, 0, "EET")
          }
         }
        } else {
         if i < 12 {
          if i < 11 {
           Table::row(449024400, 7200, 3600, "EEST")
          } else {
           Table::row(465354000, 7200, 0, "EET")
          }
         } else {
          if i < 13 {
           Table::row(481078800, 7200, 3600, "EEST")
          } else {
           Table::row(496803600, 7200, 0, "EET")
          }
         }
        }
       }
      } else {
       if i < 21 {
        if i < 17 {
         if i < 15 {
          Table::row(512528400, 7200, 3600, "EEST")
         } else {
          if i < 16 {
           Table::row(528253200, 7200, 0, "EET")
          } else {
           Table::row(543978000, 7200, 3600, "EEST")
          }
         }
        } else {
         if i < 19 {
          if i < 18 {
           Table::row(559702800, 7200, 0, "EET")
          } else {
           Table::row(575427600, 7200, 3600, "EEST")
          }
         } else {
          if i < 20 {
           Table::row(591152400, 7200, 0, "EET")
          } else {
           Table::row(606877200, 7200, 3600, "EEST")
          }
         }
        }
       } else {
        if i < 25 {
         if i < 23 {
          if i < 22 {
           Table::row(622602000, 7200, 0, "EET")
          } else {
           Table::row(638326800, 7200, 3600, "EEST")
          }
         } else {
          if i < 24 {
           Table::row(654656400, 7200, 0, "EET")
          } else {
           Table::row(670381200, 7200, 3600, "EEST")
          }
         }
        } else {
         if i < 27 {
          if i < 26 {
           Table::row(686106000, 7200, 0, "EET")
          } else {
           Table::row(701830800, 7200, 3600, "EEST")
          }
         } else {
          if i < 28 {
           Table::row(717555600, 7200, 0, "EET")
          } else {
           Table::row(733280400, 7200, 3600, "EEST")
          }
         }
        }
       }
      }
     } else {
      if i < 44 {
       if i < 36 {
        if i < 32 {
         if i < 30 {
          Table::row(749005200, 7200, 0, "EET")
         } else {
          if i < 31 {
           Table::row(764730000, 7200, 3600, "EEST")
          } else {
           Table::row(780454800, 7200, 0, "EET")
          }
         }
        } else {
         if i < 34 {
          if i < 33 {
           Table::row(796179600, 7200, 3600, "EEST")
          } else {
           Table::row(811904400, 7200, 0, "EET")
          }
         } else {
          if i < 35 {
           Table::row(828234000, 7200, 3600, "EEST")
          } else {
           Table::row(846378000, 7200, 0, "EET")
          }
         }
        }
       } else {
        if i < 40 {
         if i < 38 {
          if i < 37 {
           Table::row(859683600, 7200, 3600, "EEST")
          } else {
           Table::row(877827600, 7200, 0, "EET")
          }
         } else {
          if i < 39 {
           Table::row(891133200, 7200, 3600, "EEST")
          } else {
           Table::row(909277200, 7200, 0, "EET")
          }
         }
        } else {
         if i < 42 {
          if i < 41 {
           Table::row(922582800, 7200, 3600, "EEST")
          } else {
           Table::row(941331600, 7200, 0, "EET")
          }
         } else {
          if i < 43 {
           Table::row(954032400, 7200, 3600, "EEST")
          } else {
           Table::row(972781200, 7200, 0, "EET")
          }
         }
        }
       }
      } else {
       if i < 51 {
        if i < 47 {
         if i < 45 {
          Table::row(985482000, 7200, 3600, "EEST")
         } else {
          if i < 46 {
           Table::row(1004230800, 7200, 0, "EET")
          } else {
           Table::row(1017536400, 7200, 3600, "EEST")
          }
         }
        } else {
         if i < 49 {
          if i < 48 {
           Table::row(1035680400, 7200, 0, "EET")
          } else {
           Table::row(1048986000, 7200, 3600, "EEST")
          }
         } else {
          if i < 50 {
           Table::row(1067130000, 7200, 0, "EET")
          } else {
           Table::row(1080435600, 7200, 3600, "EEST")
          }
         }
        }
       } else {
        if i < 55 {
         if i < 53 {
          if i < 52 {
           Table::row(1099184400, 7200, 0, "EET")
          } else {
           Table::row(1111885200, 7200, 3600, "EEST")
          }
         } else {
          if i < 54 {
           Table::row(1130634000, 7200, 0, "EET")
          } else {
           Table::row(1143334800, 7200, 3600, "EEST")
          }
         }
        } else {
         if i < 57 {
          if i < 56 {
           Table::row(1162083600, 7200, 0, "EET")
          } else {
           Table::row(1174784400, 7200, 3600, "EEST")
          }
         } else {
          if i < 58 {
           Table::row(1193533200, 7200, 0, "EET")
          } else {
           Table::row(1206838800, 7200, 3600, "EEST")
          }
         }
        }
       }
      }
     }
    } else {
     if i < 88 {
      if i < 73 {
       if i < 66 {
        if i < 62 {
         if i < 60 {
          Table::row(1224982800, 7200, 0, "EET")
         } else {
          if i < 61 {
           Table::row(1238288400, 7200, 3600, "EEST")
          } else {
           Table::row(1256432400, 7200, 0, "EET")
          }
         }
        } else {
         if i < 64 {
          if i < 63 {
           Table::row(1269738000, 7200, 3600, "EEST")
          } else {
           Table::row(1288486800, 7200, 0, "EET")
          }
         } else {
          if i < 65 {
           Table::row(1301187600, 7200, 3600, "EEST")
          } else {
           Table::row(1319936400, 7200, 0, "EET")
          }
         }
        }
       } else {
        if i < 69 {
         if i < 67 {
          Table::row(1332637200, 7200, 3600, "EEST")
         } else {
          if i < 68 {
           Table::row(1351386000, 7200, 0, "EET")
          } else {
           Table::row(1364691600, 7200, 3600, "EEST")
          }
         }
        } else {
         if i < 71 {
          if i < 70 {
           Table::row(1382835600, 7200, 0, "EET")
          } else {
           Table::row(1396141200, 7200, 3600, "EEST")
          }
         } else {
          if i < 72 {
           Table::row(1414285200, 7200, 0, "EET")
          } else {
           Table::row(1427590800, 7200, 3600, "EEST")
          }
         }
        }
       }
      } else {
       if i < 80 {
        if i < 76 {
         if i < 74 {
          Table::row(1445734800, 7200, 0, "EET")
         } else {
          if i < 75 {
           Table::row(1459040400, 7200, 3600, "EEST")
          } else {
           Table::row(1477789200, 7200, 0, "EET")
          }
         }
        } else {
         if i < 78 {
          if i < 77 {
           Table::row(1490490000, 7200, 3600, "EEST")
          } else {
           Table::row(1509238800, 7200, 0, "EET")
          }
         } else {
          if i < 79 {
           Table::row(1521939600, 7200, 3600, "EEST")
          } else {
           Table::row(1540688400, 7200, 0, "EET")
          }
         }
        }
       } else {
        if i < 84 {
         if i < 82 {
          if i < 81 {
           Table::row(1553994000, 7200, 3600, "EEST")
          } else {
           Table::row(1572138000, 7200, 0, "EET")
          }
         } else {
          if i < 83 {
           Table::row(1585443600, 7200, 3600, "EEST")
          } else {
           Table::row(1603587600, 7200, 0, "EET")
          }
         }
        } else {
         if i < 86 {
          if i < 85 {
           Table::row(1616893200, 7200, 3600, "EEST")
          } else {
           Table::row(1635642000, 7200, 0, "EET")
          }
         } else {
          if i < 87 {
           Table::row(1648342800, 7200, 3600, "EEST")
          } else {
           Table::row(1667091600, 7200, 0, "EET")
          }
         }
        }
       }
      }
     } else {
      if i < 103 {
       if i < 95 {
        if i < 91 {
         if i < 89 {
          Table::row(1679792400, 7200, 3600, "EEST")
         } else {
          if i < 90 {
           Table::row(1698541200, 7200, 0, "EET")
          } else {
           Table::row(1711846800, 7200, 3600, "EEST")
          }
         }
        } else {
         if i < 93 {
          if i < 92 {
           Table::row(1729990800, 7200, 0, "EET")
          } else {
           Table::row(1743296400, 7200, 3600, "EEST")
          }
         } else {
          if i < 94 {
           Table::row(1761440400, 7200, 0, "EET")
          } else {
           Table::row(1774746000, 7200, 3600, "EEST")
          }
         }
        }
       } else {
        if i < 99 {
         if i < 97 {
          if i < 96 {
           Table::row(1792890000, 7200, 0, "EET")
          } else {
           Table::row(1806195600, 7200, 3600, "EEST")
          }
         } else {
          if i < 98 {
           Table::row(1824944400, 7200, 0, "EET")
          } else {
           Table::row(1837645200, 7200, 3600, "EEST")
          }
         }
        } else {
         if i < 101 {
          if i < 100 {
           Table::row(1856394000, 7200, 0, "EET")
          } else {
           Table::row(1869094800, 7200, 3600, "EEST")
          }
         } else {
          if i < 102 {
           Table::row(1887843600, 7200, 0, "EET")
          } else {
           Table::row(1901149200, 7200, 3600, "EEST")
          }
         }
        }
       }
      } else {
       if i < 110 {
        if i < 106 {
         if i < 104 {
          Table::row(1919293200, 7200, 0, "EET")
         } else {
          if i < 105 {
           Table::row(1932598800, 7200, 3600, "EEST")
          } else {
           Table::row(1950742800, 7200, 0, "EET")
          }
         }
        } else {
         if i < 108 {
          if i < 107 {
           Table::row(1964048400, 7200, 3600, "EEST")
          } else {
           Table::row(1982797200, 7200, 0, "EET")
          }
         } else {
          if i < 109 {
           Table::row(1995498000, 7200, 3600, "EEST")
          } else {
           Table::row(2014246800, 7200, 0, "EET")
          }
         }
        }
       } else {
        if i < 114 {
         if i < 112 {
          if i < 111 {
           Table::row(2026947600, 7200, 3600, "EEST")
          } else {
           Table::row(2045696400, 7200, 0, "EET")
          }
         } else {
          if i < 113 {
           Table::row(2058397200, 7200, 3600, "EEST")
          } else {
           Table::row(2077146000, 7200, 0, "EET")
          }
         }
        } else {
         if i < 116 {
          if i < 115 {
           Table::row(2090451600, 7200, 3600, "EEST")
          } else {
           Table::row(2108595600, 7200, 0, "EET")
          }
         } else {
          if i < 117 {
           Table::row(2121901200, 7200, 3600, "EEST")
          } else {
           Table::row(2140045200, 7200, 0, "EET")
          }
         }
        }
       }
      }
     }
    }
}

/// The rows of the table of the zone `Europe/Helsinki`.
pub open spec fn helsinki_rows() -> spec_fn(int) -> (i64, FixedTimespan) {
    |i: int| helsinki_row(i)
}

/// The table of the zone `Europe/Helsinki`.
pub open spec fn helsinki() -> Table {
    Table::listed(Table::row(0, 5989, 0, "LMT").1, 118, helsinki_rows())
}

/// Row `i` of the table of the zone `Europe/Isle_of_Man`.
pub open spec fn isle_of_man_row(i: int) -> (i64, FixedTimespan) {
    if i < 121 {
     if i < 60 {
      if i < 30 {
       if i < 15 {
        if i < 7 {
         if i < 3 {
          if i < 1 {
           Table::row(-2737842125, 0, 0, "GMT")
          } else {
           if i < 2 {
            Table::row(-1691964000, 0, 3600, "BST")
           } else {
            Table::row(-1680472800, 0, 0, "GMT")
           }
          }
         } else {
          if i < 5 {
           if i < 4 {
            Table::row(-1664143200, 0, 3600, "BST")
           } else {
            Table::row(-1650146400, 0, 0, "GMT")
           }
          } else {
           if i < 6 {
            Table::row(-1633903200, 0, 3600, "BST")
           } else {
            Table::row(-1617487200, 0, 0, "GMT")
           }
          }
         }
        } else {
         if i < 11 {
          if i < 9 {
           if i < 8 {
            Table::row(-1601848800, 0, 3600, "BST")
           } else {
            Table::row(-1586037600, 0, 0, "GMT")
           }
          } else {
           if i < 10 {
            Table::row(-1570399200, 0, 3600, "BST")
           } else {
            Table::row(-1552168800, 0, 0, "GMT")
           }
          }
         } else {
          if i < 13 {
           if i < 12 {
            Table::row(-1538344800, 0, 3600, "BST")
           } else {
            Table::row(-1522533600, 0, 0, "GMT")
           }
          } else {
           if i < 14 {
            Table::row(-1507500000, 0, 3600, "BST")
           } else {
            Table::row(-1490565600, 0, 0, "GMT")
           }
          }
         }
        }
       } else {
        if i < 22 {
         if i < 18 {
          if i < 16 {
           Table::row(-1473631200, 0, 3600, "BST")
          } else {
           if i < 17 {
            Table::row(-1460930400, 0, 0, "GMT")
           } else {
            Table::row(-1442786400, 0, 3600, "BST")
           }
          }
         } else {
          if i < 20 {
           if i < 19 {
            Table::row(-1428876000, 0, 0, "GMT")
           } else {
            Table::row(-1410732000, 0, 3600, "BST")
           }
          } else {
           if i < 21 {
            Table::row(-1396216800, 0, 0, "GMT")
           } else {
            Table::row(-1379282400, 0, 3600, "BST")
           }
          }
         }
        } else {
         if i < 26 {
          if i < 24 {
           if i < 23 {
            Table::row(-1364767200, 0, 0, "GMT")
           } else {
            Table::row(-1348437600, 0, 3600, "BST")
           }
          } else {
           if i < 25 {
            Table::row(-1333317600, 0, 0, "GMT")
           } else {
            Table::row(-1315778400, 0, 3600, "BST")
           }
          }
         } else {
          if i < 28 {
           if i < 27 {
            Table::row(-1301263200, 0, 0, "GMT")
           } else {
            Table::row(-1284328800, 0, 3600, "BST")
           }
          } else {
           if i < 29 {
            Table::row(-1269813600, 0, 0, "GMT")
           } else {
            Table::row(-1253484000, 0, 3600, "BST")
           }
          }
         }
        }
       }
      } else {
       if i < 45 {
        if i < 37 {
         if i < 33 {
          if i < 31 {
           Table::row(-1238364000, 0, 0, "GMT")
          } else {
           if i < 32 {
            Table::row(-1221429600, 0, 3600, "BST")
           } else {
            Table::row(-1206914400, 0, 0, "GMT")
           }
          }
         } else {
          if i < 35 {
           if i < 34 {
            Table::row(-1189980000, 0, 3600, "BST")
           } else {
            Table::row(-1175464800, 0, 0, "GMT")
           }
          } else {
           if i < 36 {
            Table::row(-1159135200, 0, 3600, "BST")
           } else {
            Table::row(-1143410400, 0, 0, "GMT")
           }
          }
         }
        } else {
         if i < 41 {
          if i < 39 {
           if i < 38 {
            Table::row(-1126476000, 0, 3600, "BST")
           } else {
            Table::row(-1111960800, 0, 0, "GMT")
           }
          } else {
           if i < 40 {
            Table::row(-1095631200, 0, 3600, "BST")
           } else {
            Table::row(-1080511200, 0, 0, "GMT")
           }
          }
         } else {
          if i < 43 {
           if i < 42 {
            Table::row(-1063576800, 0, 3600, "BST")
           } else {
            Table::row(-1049061600, 0, 0, "GMT")
           }
          } else {
           if i < 44 {
            Table::row(-1032127200, 0, 3600, "BST")
           } else {
            Table::row(-1017612000, 0, 0, "GMT")
           }
          }
         }
        }
       } else {
        if i < 52 {
         if i < 48 {
          if i < 46 {
           Table::row(-1001282400, 0, 3600, "BST")
          } else {
           if i < 47 {
            Table::row(-986162400, 0, 0, "GMT")
           } else {
            Table::row(-969228000, 0, 3600, "BST")
           }
          }
         } else {
          if i < 50 {
           if i < 49 {
            Table::row(-950479200, 0, 0, "GMT")
           } else {
            Table::row(-942012000, 0, 3600, "BST")
           }
          } else {
           if i < 51 {
            Table::row(-904518000, 0, 7200, "BDST")
           } else {
            Table::row(-896050800, 0, 3600, "BST")
           }
          }
         }
        } else {
         if i < 56 {
          if i < 54 {
           if i < 53 {
            Table::row(-875487600, 0, 7200, "BDST")
           } else {
            Table::row(-864601200, 0, 3600, "BST")
           }
          } else {
           if i < 55 {
            Table::row(-844038000, 0, 7200, "BDST")
           } else {
            Table::row(-832546800, 0, 3600, "BST")
           }
          }
         } else {
          if i < 58 {
           if i < 57 {
            Table::row(-812588400, 0, 7200, "BDST")
           } else {
            Table::row(-798073200, 0, 3600, "BST")
           }
          } else {
           if i < 59 {
            Table::row(-781052400, 0, 7200, "BDST")
           } else {
            Table::row(-772066800, 0, 3600, "BST")
           }
          }
         }
        }
       }
      }
     } else {
      if i < 90 {
       if i < 75 {
        if i < 67 {
         if i < 63 {
          if i < 61 {
           Table::row(-764805600, 0, 0, "GMT")
          } else {
           if i < 62 {
            Table::row(-748476000, 0, 3600, "BST")
           } else {
            Table::row(-733356000, 0, 0, "GMT")
           }
          }
         } else {
          if i < 65 {
           if i < 64 {
            Table::row(-719445600, 0, 3600, "BST")
           } else {
            Table::row(-717030000, 0, 7200, "BDST")
           }
          } else {
           if i < 66 {
            Table::row(-706748400, 0, 3600, "BST")
           } else {
            Table::row(-699487200, 0, 0, "GMT")
           }
          }
         }
        } else {
         if i < 71 {
          if i < 69 {
           if i < 68 {
            Table::row(-687996000, 0, 3600, "BST")
           } else {
            Table::row(-668037600, 0, 0, "GMT")
           }
          } else {
           if i < 70 {
            Table::row(-654732000, 0, 3600, "BST")
           } else {
            Table::row(-636588000, 0, 0, "GMT")
           }
          }
         } else {
          if i < 73 {
           if i < 72 {
            Table::row(-622072800, 0, 3600, "BST")
           } else {
            Table::row(-605743200, 0, 0, "GMT")
           }
          } else {
           if i < 74 {
            Table::row(-590623200, 0, 3600, "BST")
           } else {
            Table::row(-574293600, 0, 0, "GMT")
           }
          }
         }
        }
       } else {
        if i < 82 {
         if i < 78 {
          if i < 76 {
           Table::row(-558568800, 0, 3600, "BST")
          } else {
           if i < 77 {
            Table::row(-542239200, 0, 0, "GMT")
           } else {
            Table::row(-527119200, 0, 3600, "BST")
           }
          }
         } else {
          if i < 80 {
           if i < 79 {
            Table::row(-512604000, 0, 0, "GMT")
           } else {
            Table::row(-496274400, 0, 3600, "BST")
           }
          } else {
           if i < 81 {
            Table::row(-481154400, 0, 0, "GMT")
           } else {
            Table::row(-464220000, 0, 3600, "BST")
           }
          }
         }
        } else {
         if i < 86 {
          if i < 84 {
           if i < 83 {
            Table::row(-449704800, 0, 0, "GMT")
           } else {
            Table::row(-432165600, 0, 3600, "BST")
           }
          } else {
           if i < 85 {
            Table::row(-417650400, 0, 0, "GMT")
           } else {
            Table::row(-401320800, 0, 3600, "BST")
           }
          }
         } else {
          if i < 88 {
           if i < 87 {
            Table::row(-386200800, 0, 0, "GMT")
           } else {
            Table::row(-369266400, 0, 3600, "BST")
           }
          } else {
           if i < 89 {
            Table::row(-354751200, 0, 0, "GMT")
           } else {
            Table::row(-337816800, 0, 3600, "BST")
           }
          }
         }
        }
       }
      } else {
       if i < 105 {
        if i < 97 {
         if i < 93 {
          if i < 91 {
           Table::row(-323301600, 0, 0, "GMT")
          } else {
           if i < 92 {
            Table::row(-306972000, 0, 3600, "BST")
           } else {
            Table::row(-291852000, 0, 0, "GMT")
           }
          }
         } else {
          if i < 95 {
           if i < 94 {
            Table::row(-276732000, 0, 3600, "BST")
           } else {
            Table::row(-257983200, 0, 0, "GMT")
           }
          } else {
           if i < 96 {
            Table::row(-245282400, 0, 3600, "BST")
           } else {
            Table::row(-226533600, 0, 0, "GMT")
           }
          }
         }
        } else {
         if i < 101 {
          if i < 99 {
           if i < 98 {
            Table::row(-213228000, 0, 3600, "BST")
           } else {
            Table::row(-195084000, 0, 0, "GMT")
           }
          } else {
           if i < 100 {
            Table::row(-182383200, 0, 3600, "BST")
           } else {
            Table::row(-163634400, 0, 0, "GMT")
           }
          }
         } else {
          if i < 103 {
           if i < 102 {
            Table::row(-150933600, 0, 3600, "BST")
           } else {
            Table::row(-132184800, 0, 0, "GMT")
           }
          } else {
           if i < 104 {
            Table::row(-119484000, 0, 3600, "BST")
           } else {
            Table::row(-100735200, 0, 0, "GMT")
           }
          }
         }
        }
       } else {
        if i < 113 {
         if i < 109 {
          if i < 107 {
           if i < 106 {
            Table::row(-88034400, 0, 3600, "BST")
           } else {
            Table::row(-68680800, 0, 0, "GMT")
           }
          } else {
           if i < 108 {
            Table::row(-59004000, 0, 3600, "BST")
           } else {
            Table::row(-37242000, 3600, 0, "BST")
           }
          }
         } else {
          if i < 111 {
           if i < 110 {
            Table::row(57722400, 0, 0, "GMT")
           } else {
            Table::row(69818400, 0, 3600, "BST")
           }
          } else {
           if i < 112 {
            Table::row(89172000, 0, 0, "GMT")
           } else {
            Table::row(101268000, 0, 3600, "BST")
           }
          }
         }
        } else {
         if i < 117 {
          if i < 115 {
           if i < 114 {
            Table::row(120621600, 0, 0, "GMT")
           } else {
            Table::row(132717600, 0, 3600, "BST")
           }
          } else {
           if i < 116 {
            Table::row(152071200, 0, 0, "GMT")
           } else {
            Table::row(164167200, 0, 3600, "BST")
           }
          }
         } else {
          if i < 119 {
           if i < 118 {
            Table::row(183520800, 0, 0, "GMT")
           } else {
            Table::row(196221600, 0, 3600, "BST")
           }
          } else {
           if i < 120 {
            Table::row(214970400, 0, 0, "GMT")
           } else {
            Table::row(227671200, 0, 3600, "BST")
           }
          }
         }
        }
       }
      }
     }
    } else {
     if i < 181 {
      if i < 151 {
       if i < 136 {
        if i < 128 {
         if i < 124 {
          if i < 122 {
           Table::row(246420000, 0, 0, "GMT")
          } else {
           if i < 123 {
            Table::row(259120800, 0, 3600, "BST")
           } else {
            Table::row(278474400, 0, 0, "GMT")
           }
          }
         } else {
          if i < 126 {
           if i < 125 {
            Table::row(290570400, 0, 3600, "BST")
           } else {
            Table::row(309924000, 0, 0, "GMT")
           }
          } else {
           if i < 127 {
            Table::row(322020000, 0, 3600, "BST")
           } else {
            Table::row(341373600, 0, 0, "GMT")
           }
          }
         }
        } else {
         if i < 132 {
          if i < 130 {
           if i < 129 {
            Table::row(354675600, 0, 3600, "BST")
           } else {
            Table::row(372819600, 0, 0, "GMT")
           }
          } else {
           if i < 131 {
            Table::row(386125200, 0, 3600, "BST")
           } else {
            Table::row(404269200, 0, 0, "GMT")
           }
          }
         } else {
          if i < 134 {
           if i < 133 {
            Table::row(417574800, 0, 3600, "BST")
           } else {
            Table::row(435718800, 0, 0, "GMT")
           }
          } else {
           if i < 135 {
            Table::row(449024400, 0, 3600, "BST")
           } else {
            Table::row(467773200, 0, 0, "GMT")
           }
          }
         }
        }
       } else {
        if i < 143 {
         if i < 139 {
          if i < 137 {
           Table::row(481078800, 0, 3600, "BST")
          } else {
           if i < 138 {
            Table::row(499222800, 0, 0, "GMT")
           } else {
            Table::row(512528400, 0, 3600, "BST")
           }
          }
         } else {
          if i < 141 {
           if i < 140 {
            Table::row(530672400, 0, 0, "GMT")
           } else {
            Table::row(543978000, 0, 3600, "BST")
           }
          } else {
           if i < 142 {
            Table::row(562122000, 0, 0, "GMT")
           } else {
            Table::row(575427600, 0, 3600, "BST")
           }
          }
         }
        } else {
         if i < 147 {
          if i < 145 {
           if i < 144 {
            Table::row(593571600, 0, 0, "GMT")
           } else {
            Table::row(606877200, 0, 3600, "BST")
           }
          } else {
           if i < 146 {
            Table::row(625626000, 0, 0, "GMT")
           } else {
            Table::row(638326800, 0, 3600, "BST")
           }
          }
         } else {
          if i < 149 {
           if i < 148 {
            Table::row(657075600, 0, 0, "GMT")
           } else {
            Table::row(670381200, 0, 3600, "BST")
           }
          } else {
           if i < 150 {
            Table::row(688525200, 0, 0, "GMT")
           } else {
            Table::row(701830800, 0, 3600, "BST")
           }
          }
         }
        }
       }
      } else {
       if i < 166 {
        if i < 158 {
         if i < 154 {
          if i < 152 {
           Table::row(719974800, 0, 0, "GMT")
          } else {
           if i < 153 {
            Table::row(733280400, 0, 3600, "BST")
           } else {
            Table::row(751424400, 0, 0, "GMT")
           }
          }
         } else {
          if i < 156 {
           if i < 155 {
            Table::row(764730000, 0, 3600, "BST")
           } else {
            Table::row(782874000, 0, 0, "GMT")
           }
          } else {
           if i < 157 {
            Table::row(796179600, 0, 3600, "BST")
           } else {
            Table::row(814323600, 0, 0, "GMT")
           }
          }
         }
        } else {
         if i < 162 {
          if i < 160 {
           if i < 159 {
            Table::row(828234000, 0, 3600, "BST")
           } else {
            Table::row(846378000, 0, 0, "GMT")
           }
          } else {
           if i < 161 {
            Table::row(859683600, 0, 3600, "BST")
           } else {
            Table::row(877827600, 0, 0, "GMT")
           }
          }
         } else {
          if i < 164 {
           if i < 163 {
            Table::row(891133200, 0, 3600, "BST")
           } else {
            Table::row(909277200, 0, 0, "GMT")
           }
          } else {
           if i < 165 {
            Table::row(922582800, 0, 3600, "BST")
           } else {
            Table::row(941331600, 0, 0, "GMT")
           }
          }
         }
        }
       } else {
        if i < 173 {
         if i < 169 {
          if i < 167 {
           Table::row(954032400, 0, 3600, "BST")
          } else {
           if i < 168 {
            Table::row(972781200, 0, 0, "GMT")
           } else {
            Table::row(985482000, 0, 3600, "BST")
           }
          }
         } else {
          if i < 171 {
           if i < 170 {
            Table::row(1004230800, 0, 0, "GMT")
           } else {
            Table::row(1017536400, 0, 3600, "BST")
           }
          } else {
           if i < 172 {
            Table::row(1035680400, 0, 0, "GMT")
           } else {
            Table::row(1048986000, 0, 3600, "BST")
           }
          }
         }
        } else {
         if i < 177 {
          if i < 175 {
           if i < 174 {
            Table::row(1067130000, 0, 0, "GMT")
           } else {
            Table::row(1080435600, 0, 3600, "BST")
           }
          } else {
           if i < 176 {
            Table::row(1099184400, 0, 0, "GMT")
           } else {
            Table::row(1111885200, 0, 3600, "BST")
           }
          }
         } else {
          if i < 179 {
           if i < 178 {
            Table::row(1130634000, 0, 0, "GMT")
           } else {
            Table::row(1143334800, 0, 3600, "BST")
           }
          } else {
           if i < 180 {
            Table::row(1162083600, 0, 0, "GMT")
           } else {
            Table::row(1174784400, 0, 3600, "BST")
           }
          }
         }
        }
       }
      }
     } else {
      if i < 211 {
       if i < 196 {
        if i < 188 {
         if i < 184 {
          if i < 182 {
           Table::row(1193533200, 0, 0, "GMT")
          } else {
           if i < 183 {
            Table::row(1206838800, 0, 3600, "BST")
           } else {
            Table::row(1224982800, 0, 0, "GMT")
           }
          }
         } else {
          if i < 186 {
           if i < 185 {
            Table::row(1238288400, 0, 3600, "BST")
           } else {
            Table::row(1256432400, 0, 0, "GMT")
           }
          } else {
           if i < 187 {
            Table::row(1269738000, 0, 3600, "BST")
           } else {
            Table::row(1288486800, 0, 0, "GMT")
           }
          }
         }
        } else {
         if i < 192 {
          if i < 190 {
           if i < 189 {
            Table::row(1301187600, 0, 3600, "BST")
           } else {
            Table::row(1319936400, 0, 0, "GMT")
           }
          } else {
           if i < 191 {
            Table::row(1332637200, 0, 3600, "BST")
           } else {
            Table::row(1351386000, 0, 0, "GMT")
           }
          }
         } else {
          if i < 194 {
           if i < 193 {
            Table::row(1364691600, 0, 3600, "BST")
           } else {
            Table::row(1382835600, 0, 0, "GMT")
           }
          } else {
           if i < 195 {
            Table::row(1396141200, 0, 3600, "BST")
           } else {
            Table::row(1414285200, 0, 0, "GMT")
           }
          }
         }
        }
       } else {
        if i < 203 {
         if i < 199 {
          if i < 197 {
           Table::row(1427590800, 0, 3600, "BST")
          } else {
           if i < 198 {
            Table::row(1445734800, 0, 0, "GMT")
           } else {
            Table::row(1459040400, 0, 3600, "BST")
           }
          }
         } else {
          if i < 201 {
           if i < 200 {
            Table::row(1477789200, 0, 0, "GMT")
           } else {
            Table::row(1490490000, 0, 3600, "BST")
           }
          } else {
           if i < 202 {
            Table::row(1509238800, 0, 0, "GMT")
           } else {
            Table::row(1521939600, 0, 3600, "BST")
           }
          }
         }
        } else {
         if i < 207 {
          if i < 205 {
           if i < 204 {
            Table::row(1540688400, 0, 0, "GMT")
           } else {
            Table::row(1553994000, 0, 3600, "BST")
           }
          } else {
           if i < 206 {
            Table::row(1572138000, 0, 0, "GMT")
           } else {
            Table::row(1585443600, 0, 3600, "BST")
           }
          }
         } else {
          if i < 209 {
           if i < 208 {
            Table::row(1603587600, 0, 0, "GMT")
           } else {
            Table::row(1616893200, 0, 3600, "BST")
           }
          } else {
           if i < 210 {
            Table::row(1635642000, 0, 0, "GMT")
           } else {
            Table::row(1648342800, 0, 3600, "BST")
           }
          }
         }
        }
       }
      } else {
       if i < 226 {
        if i < 218 {
         if i < 214 {
          if i < 212 {
           Table::row(1667091600, 0, 0, "GMT")
          } else {
           if i < 213 {
            Table::row(1679792400, 0, 3600, "BST")
           } else {
            Table::row(1698541200, 0, 0, "GMT")
           }
          }
         } else {
          if i < 216 {
           if i < 215 {
            Table::row(1711846800, 0, 3600, "BST")
           } else {
            Table::row(1729990800, 0, 0, "GMT")
           }
          } else {
           if i < 217 {
            Table::row(1743296400, 0, 3600, "BST")
           } else {
            Table::row(1761440400, 0, 0, "GMT")
           }
          }
         }
        } else {
         if i < 222 {
          if i < 220 {
           if i < 219 {
            Table::row(1774746000, 0, 3600, "BST")
           } else {
            Table::row(1792890000, 0, 0, "GMT")
           }
          } else {
           if i < 221 {
            Table::row(1806195600, 0, 3600, "BST")
           } else {
            Table::row(1824944400, 0, 0, "GMT")
           }
          }
         } else {
          if i < 224 {
           if i < 223 {
            Table::row(1837645200, 0, 3600, "BST")
           } else {
            Table::row(1856394000, 0, 0, "GMT")
           }
          } else {
           if i < 225 {
            Table::row(1869094800, 0, 3600, "BST")
           } else {
            Table::row(1887843600, 0, 0, "GMT")
           }
          }
         }
        }
       } else {
        if i < 234 {
         if i < 230 {
          if i < 228 {
           if i < 227 {
            Table::row(1901149200, 0, 3600, "BST")
           } else {
            Table::row(1919293200, 0, 0, "GMT")
           }
          } else {
           if i < 229 {
            Table::row(1932598800, 0, 3600, "BST")
           } else {
            Table::row(1950742800, 0, 0, "GMT")
           }
          }
         } else {
          if i < 232 {
           if i < 231 {
            Table::row(1964048400, 0, 3600, "BST")
           } else {
            Table::row(1982797200, 0, 0, "GMT")
           }
          } else {
           if i < 233 {
            Table::row(1995498000, 0, 3600, "BST")
           } else {
            Table::row(2014246800, 0, 0, "GMT")
           }
          }
         }
        } else {
         if i < 238 {
          if i < 236 {
           if i < 235 {
            Table::row(2026947600, 0, 3600, "BST")
           } else {
            Table::row(2045696400, 0, 0, "GMT")
           }
          } else {
           if i < 237 {
            Table::row(2058397200, 0, 3600, "BST")
           } else {
            Table::row(2077146000, 0, 0, "GMT")
           }
          }
         } else {
          if i < 240 {
           if i < 239 {
            Table::row(2090451600, 0, 3600, "BST")
           } else {
            Table::row(2108595600, 0, 0, "GMT")
           }
          } else {
           if i < 241 {
            Table::row(2121901200, 0, 3600, "BST")
           } else {
            Table::row(2140045200, 0, 0, "GMT")
           }
          }
         }
        }
       }
      }
     }
    }
}

/// The rows of the table of the zone `Europe/Isle_of_Man`.
pub open spec fn isle_of_man_rows() -> spec_fn(int) -> (i64, FixedTimespan) {
    |i: int| isle_of_man_row(i)
}

/// The table of the zone `Europe/Isle_of_Man`.
pub open spec fn isle_of_man() -> Table {
    Table::listed(Table::row(0, -1075, 0, "LMT").1, 242, isle_of_man_rows())
}

/// Row `i` of the table of the zone `Europe/Istanbul`.
pub open spec fn istanbul_row(i: int) -> (i64, FixedTimespan) {
    if i < 58 {
     if i < 29 {
      if i < 14 {
       if i < 7 {
        if i < 3 {
         if i < 1 {
          Table::row(-2840147752, 7016, 0, "IMT")
         } else {
          if i < 2 {
           Table::row(-1869875816, 7200, 0, "EET")
          } else {
           Table::row(-1693706400, 7200, 3600, "EEST")
          }
         }
        } else {
         if i < 5 {
          if i < 4 {
           Table::row(-1680490800, 7200, 0, "EET")
          } else {
           Table::row(-1570413600, 7200, 3600, "EEST")
          }
         } else {
          if i < 6 {
           Table::row(-1552186800, 7200, 0, "EET")
          } else {
           Table::row(-1538359200, 7200, 3600, "EEST")
          }
         }
        }
       } else {
        if i < 10 {
         if i < 8 {
          Table::row(-1522551600, 7200, 0, "EET")
         } else {
          if i < 9 {
           Table::row(-1507514400, 7200, 3600, "EEST")
          } else {
           Table::row(-1490583600, 7200, 0, "EET")
          }
         }
        } else {
         if i < 12 {
          if i < 11 {
           Table::row(-1440208800, 7200, 3600, "EEST")
          } else {
           Table::row(-1428030000, 7200, 0, "EET")
          }
         } else {
          if i < 13 {
           Table::row(-1409709600, 7200, 3600, "EEST")
          } else {
           Table::row(-1396494000, 7200, 0, "EET")
          }
         }
        }
       }
      } else {
       if i < 21 {
        if i < 17 {
         if i < 15 {
          Table::row(-931053600, 7200, 3600, "EEST")
         } else {
          if i < 16 {
           Table::row(-922676400, 7200, 0, "EET")
          } else {
           Table::row(-917834400, 7200, 3600, "EEST")
          }
         }
        } else {
         if i < 19 {
          if i < 18 {
           Table::row(-892436400, 7200, 0, "EET")
          } else {
           Table::row(-875844000, 7200, 3600, "EEST")
          }
         } else {
          if i < 20 {
           Table::row(-764737200, 7200, 0, "EET")
          } else {
           Table::row(-744343200, 7200, 3600, "EEST")
          }
         }
        }
       } else {
        if i < 25 {
         if i < 23 {
          if i < 22 {
           Table::row(-733806000, 7200, 0, "EET")
          } else {
           Table::row(-716436000, 7200, 3600, "EEST")
          }
         } else {
          if i < 24 {
           Table::row(-701924400, 7200, 0, "EET")
          } else {
           Table::row(-684986400, 7200, 3600, "EEST")
          }
         }
        } else {
         if i < 27 {
          if i < 26 {
           Table::row(-670474800, 7200, 0, "EET")
          } else {
           Table::row(-654141600, 7200, 3600, "EEST")
          }
         } else {
          if i < 28 {
           Table::row(-639025200, 7200, 0, "EET")
          } else {
           Table::row(-622087200, 7200, 3600, "EEST")
          }
         }
        }
       }
      }
     } else {
      if i < 43 {
       if i < 36 {
        if i < 32 {
         if i < 30 {
          Table::row(-606970800, 7200, 0, "EET")
         } else {
          if i < 31 {
           Table::row(-590032800, 7200, 3600, "EEST")
          } else {
           Table::row(-575521200, 7200, 0, "EET")
          }
         }
        } else {
         if i < 34 {
          if i < 33 {
           Table::row(-235620000, 7200, 3600, "EEST")
          } else {
           Table::row(-194842800, 7200, 0, "EET")
          }
         } else {
          if i < 35 {
           Table::row(-177732000, 7200, 3600, "EEST")
          } else {
           Table::row(-165726000, 7200, 0, "EET")
          }
         }
        }
       } else {
        if i < 39 {
         if i < 37 {
          Table::row(107910000, 7200, 3600, "EEST")
         } else {
          if i < 38 {
           Table::row(121215600, 7200, 0, "EET")
          } else {
           Table::row(133920000, 7200, 3600, "EEST")
          }
         }
        } else {
         if i < 41 {
          if i < 40 {
           Table::row(152665200, 7200, 0, "EET")
          } else {
           Table::row(164678400, 7200, 3600, "EEST")
          }
         } else {
          if i < 42 {
           Table::row(184114800, 7200, 0, "EET")
          } else {
           Table::row(196214400, 7200, 3600, "EEST")
          }
         }
        }
       }
      } else {
       if i < 50 {
        if i < 46 {
         if i < 44 {
          Table::row(215564400, 7200, 0, "EET")
         } else {
          if i < 45 {
           Table::row(228873600, 7200, 3600, "EEST")
          } else {
           Table::row(245804400, 7200, 0, "EET")
          }
         }
        } else {
         if i < 48 {
          if i < 47 {
           Table::row(260323200, 7200, 3600, "EEST")
          } else {
           Table::row(267915600, 10800, 0, "+03")
          }
         } else {
          if i < 49 {
           Table::row(428454000, 10800, 3600, "+04")
          } else {
           Table::row(433893600, 10800, 0, "+03")
          }
         }
        }
       } else {
        if i < 54 {
         if i < 52 {
          if i < 51 {
           Table::row(468111600, 7200, 0, "EET")
          } else {
           Table::row(482799600, 7200, 3600, "EEST")
          }
         } else {
          if i < 53 {
           Table::row(496710000, 7200, 0, "EET")
          } else {
           Table::row(512521200, 7200, 3600, "EEST")
          }
         }
        } else {
         if i < 56 {
          if i < 55 {
           Table::row(528246000, 7200, 0, "EET")
          } else {
           Table::row(543970800, 7200, 3600, "EEST")
          }
         } else {
          if i < 57 {
           Table::row(559695600, 7200, 0, "EET")
          } else {
           Table::row(575420400, 7200, 3600, "EEST")
          }
         }
        }
       }
      }
     }
    } else {
     if i < 87 {
      if i < 72 {
       if i < 65 {
        if i < 61 {
         if i < 59 {
          Table::row(591145200, 7200, 0, "EET")
         } else {
          if i < 60 {
           Table::row(606870000, 7200, 3600, "EEST")
          } else {
           Table::row(622594800, 7200, 0, "EET")
          }
         }
        } else {
         if i < 63 {
          if i < 62 {
           Table::row(638319600, 7200, 3600, "EEST")
          } else {
           Table::row(654649200, 7200, 0, "EET")
          }
         } else {
          if i < 64 {
           Table::row(670374000, 7200, 3600, "EEST")
          } else {
           Table::row(686098800, 7200, 0, "EET")
          }
         }
        }
       } else {
        if i < 68 {
         if i < 66 {
          Table::row(701823600, 7200, 3600, "EEST")
         } else {
          if i < 67 {
           Table::row(717548400, 7200, 0, "EET")
          } else {
           Table::row(733273200, 7200, 3600, "EEST")
          }
         }
        } else {
         if i < 70 {
          if i < 69 {
           Table::row(748998000, 7200, 0, "EET")
          } else {
           Table::row(764118000, 7200, 3600, "EEST")
          }
         } else {
          if i < 71 {
           Table::row(780447600, 7200, 0, "EET")
          } else {
           Table::row(796172400, 7200, 3600, "EEST")
          }
         }
        }
       }
      } else {
       if i < 79 {
        if i < 75 {
         if i < 73 {
          Table::row(811897200, 7200, 0, "EET")
         } else {
          if i < 74 {
           Table::row(828226800, 7200, 3600, "EEST")
          } else {
           Table::row(846370800, 7200, 0, "EET")
          }
         }
        } else {
         if i < 77 {
          if i < 76 {
           Table::row(859676400, 7200, 3600, "EEST")
          } else {
           Table::row(877820400, 7200, 0, "EET")
          }
         } else {
          if i < 78 {
           Table::row(891126000, 7200, 3600, "EEST")
          } else {
           Table::row(909270000, 7200, 0, "EET")
          }
         }
        }
       } else {
        if i < 83 {
         if i < 81 {
          if i < 80 {
           Table::row(922575600, 7200, 3600, "EEST")
          } else {
           Table::row(941324400, 7200, 0, "EET")
          }
         } else {
          if i < 82 {
           Table::row(954025200, 7200, 3600, "EEST")
          } else {
           Table::row(972774000, 7200, 0, "EET")
          }
         }
        } else {
         if i < 85 {
          if i < 84 {
           Table::row(985474800, 7200, 3600, "EEST")
          } else {
           Table::row(1004223600, 7200, 0, "EET")
          }
         } else {
          if i < 86 {
           Table::row(1017529200, 7200, 3600, "EEST")
          } else {
           Table::row(1035673200, 7200, 0, "EET")
          }
         }
        }
       }
      }
     } else {
      if i < 101 {
       if i < 94 {
        if i < 90 {
         if i < 88 {
          Table::row(1048978800, 7200, 3600, "EEST")
         } else {
          if i < 89 {
           Table::row(1067122800, 7200, 0, "EET")
          } else {
           Table::row(1080428400, 7200, 3600, "EEST")
          }
         }
        } else {
         if i < 92 {
          if i < 91 {
           Table::row(1099177200, 7200, 0, "EET")
          } else {
           Table::row(1111878000, 7200, 3600, "EEST")
          }
         } else {
          if i < 93 {
           Table::row(1130626800, 7200, 0, "EET")
          } else {
           Table::row(1143327600, 7200, 3600, "EEST")
          }
         }
        }
       } else {
        if i < 97 {
         if i < 95 {
          Table::row(1162076400, 7200, 0, "EET")
         } else {
          if i < 96 {
           Table::row(1174784400, 7200, 3600, "EEST")
          } else {
           Table::row(1193533200, 7200, 0, "EET")
          }
         }
        } else {
         if i < 99 {
          if i < 98 {
           Table::row(1206838800, 7200, 3600, "EEST")
          } else {
           Table::row(1224982800, 7200, 0, "EET")
          }
         } else {
          if i < 100 {
           Table::row(1238288400, 7200, 3600, "EEST")
          } else {
           Table::row(1256432400, 7200, 0, "EET")
          }
         }
        }
       }
      } else {
       if i < 108 {
        if i < 104 {
         if i < 102 {
          Table::row(1269738000, 7200, 3600, "EEST")
         } else {
          if i < 103 {
           Table::row(1288486800, 7200, 0, "EET")
          } else {
           Table::row(1301274000, 7200, 3600, "EEST")
          }
         }
        } else {
         if i < 106 {
          if i < 105 {
           Table::row(1319936400, 7200, 0, "EET")
          } else {
           Table::row(1332637200, 7200, 3600, "EEST")
          }
         } else {
          if i < 107 {
           Table::row(1351386000, 7200, 0, "EET")
          } else {
           Table::row(1364691600, 7200, 3600, "EEST")
          }
         }
        }
       } else {
        if i < 112 {
         if i < 110 {
          if i < 109 {
           Table::row(1382835600, 7200, 0, "EET")
          } else {
           Table::row(1396227600, 7200, 3600, "EEST")
          }
         } else {
          if i < 111 {
           Table::row(1414285200, 7200, 0, "EET")
          } else {
           Table::row(1427590800, 7200, 3600, "EEST")
          }
         }
        } else {
         if i < 114 {
          if i < 113 {
           Table::row(1446944400, 7200, 0, "EET")
          } else {
           Table::row(1459040400, 7200, 3600, "EEST")
          }
         } else {
          if i < 115 {
           Table::row(1473195600, 10800, 0, "+03")
          } else {
           Table::row(2147483647, 10800, 0, "+03")
          }
         }
        }
       }
      }
     }
    }
}

/// The rows of the table of the zone `Europe/Istanbul`.
pub open spec fn istanbul_rows() -> spec_fn(int) -> (i64, FixedTimespan) {
    |i: int| istanbul_row(i)
}

/// The table of the zone `Europe/Istanbul`.
pub open spec fn istanbul() -> Table {
    Table::listed(Table::row(0, 6952, 0, "LMT").1, 116, istanbul_rows())
}

/// Row `i` of the table of the zone `Europe/Jersey`.
pub open spec fn jersey_row(i: int) -> (i64, FixedTimespan) {
    if i < 120 {
     if i < 60 {
      if i < 30 {
       if i < 15 {
        if i < 7 {
         if i < 3 {
          if i < 1 {
           Table::row(-2258092800, 0, 0, "GMT")
          } else {
           if i < 2 {
            Table::row(-1691964000, 0, 3600, "BST")
           } else {
            Table::row(-1680472800, 0, 0, "GMT")
           }
          }
         } else {
          if i < 5 {
           if i < 4 {
            Table::row(-1664143200, 0, 3600, "BST")
           } else {
            Table::row(-1650146400, 0, 0, "GMT")
           }
          } else {
           if i < 6 {
            Table::row(-1633903200, 0, 3600, "BST")
           } else {
            Table::row(-1617487200, 0, 0, "GMT")
           }
          }
         }
        } else {
         if i < 11 {
          if i < 9 {
           if i < 8 {
            Table::row(-1601848800, 0, 3600, "BST")
           } else {
            Table::row(-1586037600, 0, 0, "GMT")
           }
          } else {
           if i < 10 {
            Table::row(-1570399200, 0, 3600, "BST")
           } else {
            Table::row(-1552168800, 0, 0, "GMT")
           }
          }
         } else {
          if i < 13 {
           if i < 12 {
            Table::row(-1538344800, 0, 3600, "BST")
           } else {
            Table::row(-1522533600, 0, 0, "GMT")
           }
          } else {
           if i < 14 {
            Table::row(-1507500000, 0, 3600, "BST")
           } else {
            Table::row(-1490565600, 0, 0, "GMT")
           }
          }
         }
        }
       } else {
        if i < 22 {
         if i < 18 {
          if i < 16 {
           Table::row(-1473631200, 0, 3600, "BST")
          } else {
           if i < 17 {
            Table::row(-1460930400, 0, 0, "GMT")
           } else {
            Table::row(-1442786400, 0, 3600, "BST")
           }
          }
         } else {
          if i < 20 {
           if i < 19 {
            Table::row(-1428876000, 0, 0, "GMT")
           } else {
            Table::row(-1410732000, 0, 3600, "BST")
           }
          } else {
           if i < 21 {
            Table::row(-1396216800, 0, 0, "GMT")
           } else {
            Table::row(-1379282400, 0, 3600, "BST")
           }
          }
         }
        } else {
         if i < 26 {
          if i < 24 {
           if i < 23 {
            Table::row(-1364767200, 0, 0, "GMT")
           } else {
            Table::row(-1348437600, 0, 3600, "BST")
           }
          } else {
           if i < 25 {
            Table::row(-1333317600, 0, 0, "GMT")
           } else {
            Table::row(-1315778400, 0, 3600, "BST")
           }
          }
         } else {
          if i < 28 {
           if i < 27 {
            Table::row(-1301263200, 0, 0, "GMT")
           } else {
            Table::row(-1284328800, 0, 3600, "BST")
           }
          } else {
           if i < 29 {
            Table::row(-1269813600, 0, 0, "GMT")
           } else {
            Table::row(-1253484000, 0, 3600, "BST")
           }
          }
         }
        }
       }
      } else {
       if i < 45 {
        if i < 37 {
         if i < 33 {
          if i < 31 {
           Table::row(-1238364000, 0, 0, "GMT")
          } else {
           if i < 32 {
            Table::row(-1221429600, 0, 3600, "BST")
           } else {
            Table::row(-1206914400, 0, 0, "GMT")
           }
          }
         } else {
          if i < 35 {
           if i < 34 {
            Table::row(-1189980000, 0, 3600, "BST")
           } else {
            Table::row(-1175464800, 0, 0, "GMT")
           }
          } else {
           if i < 36 {
            Table::row(-1159135200, 0, 3600, "BST")
           } else {
            Table::row(-1143410400, 0, 0, "GMT")
           }
          }
         }
        } else {
         if i < 41 {
          if i < 39 {
           if i < 38 {
            Table::row(-1126476000, 0, 3600, "BST")
           } else {
            Table::row(-1111960800, 0, 0, "GMT")
           }
          } else {
           if i < 40 {
            Table::row(-1095631200, 0, 3600, "BST")
           } else {
            Table::row(-1080511200, 0, 0, "GMT")
           }
          }
         } else {
          if i < 43 {
           if i < 42 {
            Table::row(-1063576800, 0, 3600, "BST")
           } else {
            Table::row(-1049061600, 0, 0, "GMT")
           }
          } else {
           if i < 44 {
            Table::row(-1032127200, 0, 3600, "BST")
           } else {
            Table::row(-1017612000, 0, 0, "GMT")
           }
          }
         }
        }
       } else {
        if i < 52 {
         if i < 48 {
          if i < 46 {
           Table::row(-1001282400, 0, 3600, "BST")
          } else {
           if i < 47 {
            Table::row(-986162400, 0, 0, "GMT")
           } else {
            Table::row(-969228000, 0, 3600, "BST")
           }
          }
         } else {
          if i < 50 {
           if i < 49 {
            Table::row(-950479200, 0, 0, "GMT")
           } else {
            Table::row(-942012000, 0, 3600, "BST")
           }
          } else {
           if i < 51 {
            Table::row(-930963600, 0, 7200, "CEST")
           } else {
            Table::row(-857257200, 3600, 0, "CET")
           }
          }
         }
        } else {
         if i < 56 {
          if i < 54 {
           if i < 53 {
            Table::row(-844556400, 3600, 3600, "CEST")
           } else {
            Table::row(-828226800, 3600, 0, "CET")
           }
          } else {
           if i < 55 {
            Table::row(-812502000, 3600, 3600, "CEST")
           } else {
            Table::row(-796777200, 3600, 0, "CET")
           }
          }
         } else {
          if i < 58 {
           if i < 57 {
            Table::row(-781052400, 3600, 3600, "CEST")
           } else {
            Table::row(-777952800, 3600, 3600, "BDST")
           }
          } else {
           if i < 59 {
            Table::row(-772066800, 0, 3600, "BST")
           } else {
            Table::row(-764805600, 0, 0, "GMT")
           }
          }
         }
        }
       }
      }
     } else {
      if i < 90 {
       if i < 75 {
        if i < 67 {
         if i < 63 {
          if i < 61 {
           Table::row(-748476000, 0, 3600, "BST")
          } else {
           if i < 62 {
            Table::row(-733356000, 0, 0, "GMT")
           } else {
            Table::row(-719445600, 0, 3600, "BST")
           }
          }
         } else {
          if i < 65 {
           if i < 64 {
            Table::row(-717030000, 0, 7200, "BDST")
           } else {
            Table::row(-706748400, 0, 3600, "BST")
           }
          } else {
           if i < 66 {
            Table::row(-699487200, 0, 0, "GMT")
           } else {
            Table::row(-687996000, 0, 3600, "BST")
           }
          }
         }
        } else {
         if i < 71 {
          if i < 69 {
           if i < 68 {
            Table::row(-668037600, 0, 0, "GMT")
           } else {
            Table::row(-654732000, 0, 3600, "BST")
           }
          } else {
           if i < 70 {
            Table::row(-636588000, 0, 0, "GMT")
           } else {
            Table::row(-622072800, 0, 3600, "BST")
           }
          }
         } else {
          if i < 73 {
           if i < 72 {
            Table::row(-605743200, 0, 0, "GMT")
           } else {
            Table::row(-590623200, 0, 3600, "BST")
           }
          } else {
           if i < 74 {
            Table::row(-574293600, 0, 0, "GMT")
           } else {
            Table::row(-558568800, 0, 3600, "BST")
           }
          }
         }
        }
       } else {
        if i < 82 {
         if i < 78 {
          if i < 76 {
           Table::row(-542239200, 0, 0, "GMT")
          } else {
           if i < 77 {
            Table::row(-527119200, 0, 3600, "BST")
           } else {
            Table::row(-512604000, 0, 0, "GMT")
           }
          }
         } else {
          if i < 80 {
           if i < 79 {
            Table::row(-496274400, 0, 3600, "BST")
           } else {
            Table::row(-481154400, 0, 0, "GMT")
           }
          } else {
           if i < 81 {
            Table::row(-464220000, 0, 3600, "BST")
           } else {
            Table::row(-449704800, 0, 0, "GMT")
           }
          }
         }
        } else {
         if i < 86 {
          if i < 84 {
           if i < 83 {
            Table::row(-432165600, 0, 3600, "BST")
           } else {
            Table::row(-417650400, 0, 0, "GMT")
           }
          } else {
           if i < 85 {
            Table::row(-401320800, 0, 3600, "BST")
           } else {
            Table::row(-386200800, 0, 0, "GMT")
           }
          }
         } else {
          if i < 88 {
           if i < 87 {
            Table::row(-369266400, 0, 3600, "BST")
           } else {
            Table::row(-354751200, 0, 0, "GMT")
           }
          } else {
           if i < 89 {
            Table::row(-337816800, 0, 3600, "BST")
           } else {
            Table::row(-323301600, 0, 0, "GMT")
           }
          }
         }
        }
       }
      } else {
       if i < 105 {
        if i < 97 {
         if i < 93 {
          if i < 91 {
           Table::row(-306972000, 0, 3600, "BST")
          } else {
           if i < 92 {
            Table::row(-291852000, 0, 0, "GMT")
           } else {
            Table::row(-276732000, 0, 3600, "BST")
           }
          }
         } else {
          if i < 95 {
           if i < 94 {
            Table::row(-257983200, 0, 0, "GMT")
           } else {
            Table::row(-245282400, 0, 3600, "BST")
           }
          } else {
           if i < 96 {
            Table::row(-226533600, 0, 0, "GMT")
           } else {
            Table::row(-213228000, 0, 3600, "BST")
           }
          }
         }
        } else {
         if i < 101 {
          if i < 99 {
           if i < 98 {
            Table::row(-195084000, 0, 0, "GMT")
           } else {
            Table::row(-182383200, 0, 3600, "BST")
           }
          } else {
           if i < 100 {
            Table::row(-163634400, 0, 0, "GMT")
           } else {
            Table::row(-150933600, 0, 3600, "BST")
           }
          }
         } else {
          if i < 103 {
           if i < 102 {
            Table::row(-132184800, 0, 0, "GMT")
           } else {
            Table::row(-119484000, 0, 3600, "BST")
           }
          } else {
           if i < 104 {
            Table::row(-100735200, 0, 0, "GMT")
           } else {
            Table::row(-88034400, 0, 3600, "BST")
           }
          }
         }
        }
       } else {
        if i < 112 {
         if i < 108 {
          if i < 106 {
           Table::row(-68680800, 0, 0, "GMT")
          } else {
           if i < 107 {
            Table::row(-59004000, 0, 3600, "BST")
           } else {
            Table::row(-37242000, 3600, 0, "BST")
           }
          }
         } else {
          if i < 110 {
           if i < 109 {
            Table::row(57722400, 0, 0, "GMT")
           } else {
            Table::row(69818400, 0, 3600, "BST")
           }
          } else {
           if i < 111 {
            Table::row(89172000, 0, 0, "GMT")
           } else {
            Table::row(101268000, 0, 3600, "BST")
           }
          }
         }
        } else {
         if i < 116 {
          if i < 114 {
           if i < 113 {
            Table::row(120621600, 0, 0, "GMT")
           } else {
            Table::row(132717600, 0, 3600, "BST")
           }
          } else {
           if i < 115 {
            Table::row(152071200, 0, 0, "GMT")
           } else {
            Table::row(164167200, 0, 3600, "BST")
           }
          }
         } else {
          if i < 118 {
           if i < 117 {
            Table::row(183520800, 0, 0, "GMT")
           } else {
            Table::row(196221600, 0, 3600, "BST")
           }
          } else {
           if i < 119 {
            Table::row(214970400, 0, 0, "GMT")
           } else {
            Table::row(227671200, 0, 3600, "BST")
           }
          }
         }
        }
       }
      }
     }
    } else {
     if i < 180 {
      if i < 150 {
       if i < 135 {
        if i < 127 {
         if i < 123 {
          if i < 121 {
           Table::row(246420000, 0, 0, "GMT")
          } else {
           if i < 122 {
            Table::row(259120800, 0, 3600, "BST")
           } else {
            Table::row(278474400, 0, 0, "GMT")
           }
          }
         } else {
          if i < 125 {
           if i < 124 {
            Table::row(290570400, 0, 3600, "BST")
           } else {
            Table::row(309924000, 0, 0, "GMT")
           }
          } else {
           if i < 126 {
            Table::row(322020000, 0, 3600, "BST")
           } else {
            Table::row(341373600, 0, 0, "GMT")
           }
          }
         }
        } else {
         if i < 131 {
          if i < 129 {
           if i < 128 {
            Table::row(354675600, 0, 3600, "BST")
           } else {
            Table::row(372819600, 0, 0, "GMT")
           }
          } else {
           if i < 130 {
            Table::row(386125200, 0, 3600, "BST")
           } else {
            Table::row(404269200, 0, 0, "GMT")
           }
          }
         } else {
          if i < 133 {
           if i < 132 {
            Table::row(417574800, 0, 3600, "BST")
           } else {
            Table::row(435718800, 0, 0, "GMT")
           }
          } else {
           if i < 134 {
            Table::row(449024400, 0, 3600, "BST")
           } else {
            Table::row(467773200, 0, 0, "GMT")
           }
          }
         }
        }
       } else {
        if i < 142 {
         if i < 138 {
          if i < 136 {
           Table::row(481078800, 0, 3600, "BST")
          } else {
           if i < 137 {
            Table::row(499222800, 0, 0, "GMT")
           } else {
            Table::row(512528400, 0, 3600, "BST")
           }
          }
         } else {
          if i < 140 {
           if i < 139 {
            Table::row(530672400, 0, 0, "GMT")
           } else {
            Table::row(543978000, 0, 3600, "BST")
           }
          } else {
           if i < 141 {
            Table::row(562122000, 0, 0, "GMT")
           } else {
            Table::row(575427600, 0, 3600, "BST")
           }
          }
         }
        } else {
         if i < 146 {
          if i < 144 {
           if i < 143 {
            Table::row(593571600, 0, 0, "GMT")
           } else {
            Table::row(606877200, 0, 3600, "BST")
           }
          } else {
           if i < 145 {
            Table::row(625626000, 0, 0, "GMT")
           } else {
            Table::row(638326800, 0, 3600, "BST")
           }
          }
         } else {
          if i < 148 {
           if i < 147 {
            Table::row(657075600, 0, 0, "GMT")
           } else {
            Table::row(670381200, 0, 3600, "BST")
           }
          } else {
           if i < 149 {
            Table::row(688525200, 0, 0, "GMT")
           } else {
            Table::row(701830800, 0, 3600, "BST")
           }
          }
         }
        }
       }
      } else {
       if i < 165 {
        if i < 157 {
         if i < 153 {
          if i < 151 {
           Table::row(719974800, 0, 0, "GMT")
          } else {
           if i < 152 {
            Table::row(733280400, 0, 3600, "BST")
           } else {
            Table::row(751424400, 0, 0, "GMT")
           }
          }
         } else {
          if i < 155 {
           if i < 154 {
            Table::row(764730000, 0, 3600, "BST")
           } else {
            Table::row(782874000, 0, 0, "GMT")
           }
          } else {
           if i < 156 {
            Table::row(796179600, 0, 3600, "BST")
           } else {
            Table::row(814323600, 0, 0, "GMT")
           }
          }
         }
        } else {
         if i < 161 {
          if i < 159 {
           if i < 158 {
            Table::row(828234000, 0, 3600, "BST")
           } else {
            Table::row(846378000, 0, 0, "GMT")
           }
          } else {
           if i < 160 {
            Table::row(859683600, 0, 3600, "BST")
           } else {
            Table::row(877827600, 0, 0, "GMT")
           }
          }
         } else {
          if i < 163 {
           if i < 162 {
            Table::row(891133200, 0, 3600, "BST")
           } else {
            Table::row(909277200, 0, 0, "GMT")
           }
          } else {
           if i < 164 {
            Table::row(922582800, 0, 3600, "BST")
           } else {
            Table::row(941331600, 0, 0, "GMT")
           }
          }
         }
        }
       } else {
        if i < 172 {
         if i < 168 {
          if i < 166 {
           Table::row(954032400, 0, 3600, "BST")
          } else {
           if i < 167 {
            Table::row(972781200, 0, 0, "GMT")
           } else {
            Table::row(985482000, 0, 3600, "BST")
           }
          }
         } else {
          if i < 170 {
           if i < 169 {
            Table::row(1004230800, 0, 0, "GMT")
           } else {
            Table::row(1017536400, 0, 3600, "BST")
           }
          } else {
           if i < 171 {
            Table::row(1035680400, 0, 0, "GMT")
           } else {
            Table::row(1048986000, 0, 3600, "BST")
           }
          }
         }
        } else {
         if i < 176 {
          if i < 174 {
           if i < 173 {
            Table::row(1067130000, 0, 0, "GMT")
           } else {
            Table::row(1080435600, 0, 3600, "BST")
           }
          } else {
           if i < 175 {
            Table::row(1099184400, 0, 0, "GMT")
           } else {
            Table::row(1111885200, 0, 3600, "BST")
           }
          }
         } else {
          if i < 178 {
           if i < 177 {
            Table::row(1130634000, 0, 0, "GMT")
           } else {
            Table::row(1143334800, 0, 3600, "BST")
           }
          } else {
           if i < 179 {
            Table::row(1162083600, 0, 0, "GMT")
           } else {
            Table::row(1174784400, 0, 3600, "BST")
           }
          }
         }
        }
       }
      }
     } else {
      if i < 210 {
       if i < 195 {
        if i < 187 {
         if i < 183 {
          if i < 181 {
           Table::row(1193533200, 0, 0, "GMT")
          } else {
           if i < 182 {
            Table::row(1206838800, 0, 3600, "BST")
           } else {
            Table::row(1224982800, 0, 0, "GMT")
           }
          }
         } else {
          if i < 185 {
           if i < 184 {
            Table::row(1238288400, 0, 3600, "BST")
           } else {
            Table::row(1256432400, 0, 0, "GMT")
           }
          } else {
           if i < 186 {
            Table::row(1269738000, 0, 3600, "BST")
           } else {
            Table::row(1288486800, 0, 0, "GMT")
           }
          }
         }
        } else {
         if i < 191 {
          if i < 189 {
           if i < 188 {
            Table::row(1301187600, 0, 3600, "BST")
           } else {
            Table::row(1319936400, 0, 0, "GMT")
           }
          } else {
           if i < 190 {
            Table::row(1332637200, 0, 3600, "BST")
           } else {
            Table::row(1351386000, 0, 0, "GMT")
           }
          }
         } else {
          if i < 193 {
           if i < 192 {
            Table::row(1364691600, 0, 3600, "BST")
           } else {
            Table::row(1382835600, 0, 0, "GMT")
           }
          } else {
           if i < 194 {
            Table::row(1396141200, 0, 3600, "BST")
           } else {
            Table::row(1414285200, 0, 0, "GMT")
           }
          }
         }
        }
       } else {
        if i < 202 {
         if i < 198 {
          if i < 196 {
           Table::row(1427590800, 0, 3600, "BST")
          } else {
           if i < 197 {
            Table::row(1445734800, 0, 0, "GMT")
           } else {
            Table::row(1459040400, 0, 3600, "BST")
           }
          }
         } else {
          if i < 200 {
           if i < 199 {
            Table::row(1477789200, 0, 0, "GMT")
           } else {
            Table::row(1490490000, 0, 3600, "BST")
           }
          } else {
           if i < 201 {
            Table::row(1509238800, 0, 0, "GMT")
           } else {
            Table::row(1521939600, 0, 3600, "BST")
           }
          }
         }
        } else {
         if i < 206 {
          if i < 204 {
           if i < 203 {
            Table::row(1540688400, 0, 0, "GMT")
           } else {
            Table::row(1553994000, 0, 3600, "BST")
           }
          } else {
           if i < 205 {
            Table::row(1572138000, 0, 0, "GMT")
           } else {
            Table::row(1585443600, 0, 3600, "BST")
           }
          }
         } else {
          if i < 208 {
           if i < 207 {
            Table::row(1603587600, 0, 0, "GMT")
           } else {
            Table::row(1616893200, 0, 3600, "BST")
           }
          } else {
           if i < 209 {
            Table::row(1635642000, 0, 0, "GMT")
           } else {
            Table::row(1648342800, 0, 3600, "BST")
           }
          }
         }
        }
       }
      } else {
       if i < 225 {
        if i < 217 {
         if i < 213 {
          if i < 211 {
           Table::row(1667091600, 0, 0, "GMT")
          } else {
           if i < 212 {
            Table::row(1679792400, 0, 3600, "BST")
           } else {
            Table::row(1698541200, 0, 0, "GMT")
           }
          }
         } else {
          if i < 215 {
           if i < 214 {
            Table::row(1711846800, 0, 3600, "BST")
           } else {
            Table::row(1729990800, 0, 0, "GMT")
           }
          } else {
           if i < 216 {
            Table::row(1743296400, 0, 3600, "BST")
           } else {
            Table::row(1761440400, 0, 0, "GMT")
           }
          }
         }
        } else {
         if i < 221 {
          if i < 219 {
           if i < 218 {
            Table::row(1774746000, 0, 3600, "BST")
           } else {
            Table::row(1792890000, 0, 0, "GMT")
           }
          } else {
           if i < 220 {
            Table::row(1806195600, 0, 3600, "BST")
           } else {
            Table::row(1824944400, 0, 0, "GMT")
           }
          }
         } else {
          if i < 223 {
           if i < 222 {
            Table::row(1837645200, 0, 3600, "BST")
           } else {
            Table::row(1856394000, 0, 0, "GMT")
           }
          } else {
           if i < 224 {
            Table::row(1869094800, 0, 3600, "BST")
           } else {
            Table::row(1887843600, 0, 0, "GMT")
           }
          }
         }
        }
       } else {
        if i < 233 {
         if i < 229 {
          if i < 227 {
           if i < 226 {
            Table::row(1901149200, 0, 3600, "BST")
           } else {
            Table::row(1919293200, 0, 0, "GMT")
           }
          } else {
           if i < 228 {
            Table::row(1932598800, 0, 3600, "BST")
           } else {
            Table::row(1950742800, 0, 0, "GMT")
           }
          }
         } else {
          if i < 231 {
           if i < 230 {
            Table::row(1964048400, 0, 3600, "BST")
           } else {
            Table::row(1982797200, 0, 0, "GMT")
           }
          } else {
           if i < 232 {
            Table::row(1995498000, 0, 3600, "BST")
           } else {
            Table::row(2014246800, 0, 0, "GMT")
           }
          }
         }
        } else {
         if i < 237 {
          if i < 235 {
           if i < 234 {
            Table::row(2026947600, 0, 3600, "BST")
           } else {
            Table::row(2045696400, 0, 0, "GMT")
           }
          } else {
           if i < 236 {
            Table::row(2058397200, 0, 3600, "BST")
           } else {
            Table::row(2077146000, 0, 0, "GMT")
           }
          }
         } else {
          if i < 239 {
           if i < 238 {
            Table::row(2090451600, 0, 3600, "BST")
           } else {
            Table::row(2108595600, 0, 0, "GMT")
           }
          } else {
           if i < 240 {
            Table::row(2121901200, 0, 3600, "BST")
           } else {
            Table::row(2140045200, 0, 0, "GMT")
           }
          }
         }
        }
       }
      }
     }
    }
}

/// The rows of the table of the zone `Europe/Jersey`.
pub open spec fn jersey_rows() -> spec_fn(int) -> (i64, FixedTimespan) {
    |i: int| jersey_row(i)
}

/// The table of the zone `Europe/Jersey`.
pub open spec fn jersey() -> Table {
    Table::listed(Table::row(0, -506, 0, "LMT").1, 241, jersey_rows())
}

/// Row `i` of the table of the zone `Europe/Kaliningrad`.
pub open spec fn kaliningrad_row(i: int) -> (i64, FixedTimespan) {
    if i < 40 {
     if i < 20 {
      if i < 10 {
       if i < 5 {
        if i < 2 {
         if i < 1 {
          Table::row(-2422056120, 3600, 0, "CET")
         } else {
          Table::row(-1693706400, 3600, 3600, "CEST")
         }
        } else {
         if i < 3 {
          Table::row(-1680483600, 3600, 0, "CET")
         } else {
          if i < 4 {
           Table::row(-1663455600, 3600, 3600, "CEST")
          } else {
           Table::row(-1650150000, 3600, 0, "CET")
          }
         }
        }
       } else {
        if i < 7 {
         if i < 6 {
          Table::row(-1632006000, 3600, 3600, "CEST")
         } else {
          Table::row(-1618700400, 3600, 0, "CET")
         }
        } else {
         if i < 8 {
          Table::row(-938905200, 3600, 3600, "CEST")
         } else {
          if i < 9 {
           Table::row(-857257200, 3600, 0, "CET")
          } else {
           Table::row(-844556400, 3600, 3600, "CEST")
          }
         }
        }
       }
      } else {
       if i < 15 {
        if i < 12 {
         if i < 11 {
          Table::row(-828226800, 3600, 0, "CET")
         } else {
          Table::row(-812502000, 3600, 3600, "CEST")
         }
        } else {
         if i < 13 {
          Table::row(-796777200, 3600, 0, "CET")
         } else {
          if i < 14 {
           Table::row(-781052400, 3600, 3600, "CEST")
          } else {
           Table::row(-780372000, 7200, 0, "EET")
          }
         }
        }
       } else {
        if i < 17 {
         if i < 16 {
          Table::row(-778730400, 7200, 3600, "EEST")
         } else {
          Table::row(-762663600, 7200, 0, "EET")
         }
        } else {
         if i < 18 {
          Table::row(-749095200, 10800, 0, "MSK")
         } else {
          if i < 19 {
           Table::row(354920400, 10800, 3600, "MSD")
          } else {
           Table::row(370728000, 10800, 0, "MSK")
          }
         }
        }
       }
      }
     } else {
      if i < 30 {
       if i < 25 {
        if i < 22 {
         if i < 21 {
          Table::row(386456400, 10800, 3600, "MSD")
         } else {
          Table::row(402264000, 10800, 0, "MSK")
         }
        } else {
         if i < 23 {
          Table::row(417992400, 10800, 3600, "MSD")
         } else {
          if i < 24 {
           Table::row(433800000, 10800, 0, "MSK")
          } else {
           Table::row(449614800, 10800, 3600, "MSD")
          }
         }
        }
       } else {
        if i < 27 {
         if i < 26 {
          Table::row(465346800, 10800, 0, "MSK")
         } else {
          Table::row(481071600, 10800, 3600, "MSD")
         }
        } else {
         if i < 28 {
          Table::row(496796400, 10800, 0, "MSK")
         } else {
          if i < 29 {
           Table::row(512521200, 10800, 3600, "MSD")
          } else {
           Table::row(528246000, 10800, 0, "MSK")
          }
         }
        }
       }
      } else {
       if i < 35 {
        if i < 32 {
         if i < 31 {
          Table::row(543970800, 10800, 3600, "MSD")
         } else {
          Table::row(559695600, 10800, 0, "MSK")
         }
        } else {
         if i < 33 {
          Table::row(575420400, 10800, 3600, "MSD")
         } else {
          if i < 34 {
           Table::row(591145200, 10800, 0, "MSK")
          } else {
           Table::row(606870000, 7200, 3600, "EEST")
          }
         }
        }
       } else {
        if i < 37 {
         if i < 36 {
          Table::row(622598400, 7200, 0, "EET")
         } else {
          Table::row(638323200, 7200, 3600, "EEST")
         }
        } else {
         if i < 38 {
          Table::row(654652800, 7200, 0, "EET")
         } else {
          if i < 39 {
           Table::row(670377600, 7200, 3600, "EEST")
          } else {
           Table::row(686102400, 7200, 0, "EET")
          }
         }
        }
       }
      }
     }
    } else {
     if i < 60 {
      if i < 50 {
       if i < 45 {
        if i < 42 {
         if i < 41 {
          Table::row(701827200, 7200, 3600, "EEST")
         } else {
          Table::row(717552000, 7200, 0, "EET")
         }
        } else {
         if i < 43 {
          Table::row(733276800, 7200, 3600, "EEST")
         } else {
          if i < 44 {
           Table::row(749001600, 7200, 0, "EET")
          } else {
           Table::row(764726400, 7200, 3600, "EEST")
          }
         }
        }
       } else {
        if i < 47 {
         if i < 46 {
          Table::row(780451200, 7200, 0, "EET")
         } else {
          Table::row(796176000, 7200, 3600, "EEST")
         }
        } else {
         if i < 48 {
          Table::row(811900800, 7200, 0, "EET")
         } else {
          if i < 49 {
           Table::row(828230400, 7200, 3600, "EEST")
          } else {
           Table::row(846374400, 7200, 0, "EET")
          }
         }
        }
       }
      } else {
       if i < 55 {
        if i < 52 {
         if i < 51 {
          Table::row(859680000, 7200, 3600, "EEST")
         } else {
          Table::row(877824000, 7200, 0, "EET")
         }
        } else {
         if i < 53 {
          Table::row(891129600, 7200, 3600, "EEST")
         } else {
          if i < 54 {
           Table::row(909273600, 7200, 0, "EET")
          } else {
           Table::row(922579200, 7200, 3600, "EEST")
          }
         }
        }
       } else {
        if i < 57 {
         if i < 56 {
          Table::row(941328000, 7200, 0, "EET")
         } else {
          Table::row(954028800, 7200, 3600, "EEST")
         }
        } else {
         if i < 58 {
          Table::row(972777600, 7200, 0, "EET")
         } else {
          if i < 59 {
           Table::row(985478400, 7200, 3600, "EEST")
          } else {
           Table::row(1004227200, 7200, 0, "EET")
          }
         }
        }
       }
      }
     } else {
      if i < 70 {
       if i < 65 {
        if i < 62 {
         if i < 61 {
          Table::row(1017532800, 7200, 3600, "EEST")
         } else {
          Table::row(1035676800, 7200, 0, "EET")
         }
        } else {
         if i < 63 {
          Table::row(1048982400, 7200, 3600, "EEST")
         } else {
          if i < 64 {
           Table::row(1067126400, 7200, 0, "EET")
          } else {
           Table::row(1080432000, 7200, 3600, "EEST")
          }
         }
        }
       } else {
        if i < 67 {
         if i < 66 {
          Table::row(1099180800, 7200, 0, "EET")
         } else {
          Table::row(1111881600, 7200, 3600, "EEST")
         }
        } else {
         if i < 68 {
          Table::row(1130630400, 7200, 0, "EET")
         } else {
          if i < 69 {
           Table::row(1143331200, 7200, 3600, "EEST")
          } else {
           Table::row(1162080000, 7200, 0, "EET")
          }
         }
        }
       }
      } else {
       if i < 75 {
        if i < 72 {
         if i < 71 {
          Table::row(1174780800, 7200, 3600, "EEST")
         } else {
          Table::row(1193529600, 7200, 0, "EET")
         }
        } else {
         if i < 73 {
          Table::row(1206835200, 7200, 3600, "EEST")
         } else {
          if i < 74 {
           Table::row(1224979200, 7200, 0, "EET")
          } else {
           Table::row(1238284800, 7200, 3600, "EEST")
          }
         }
        }
       } else {
        if i < 77 {
         if i < 76 {
          Table::row(1256428800, 7200, 0, "EET")
         } else {
          Table::row(1269734400, 7200, 3600, "EEST")
         }
        } else {
         if i < 78 {
          Table::row(1288483200, 7200, 0, "EET")
         } else {
          if i < 79 {
           Table::row(1301184000, 10800, 0, "+03")
          } else {
           Table::row(1414278000, 7200, 0, "EET")
          }
         }
        }
       }
      }
     }
    }
}

/// The rows of the table of the zone `Europe/Kaliningrad`.
pub open spec fn kaliningrad_rows() -> spec_fn(int) -> (i64, FixedTimespan) {
    |i: int| kaliningrad_row(i)
}

/// The table of the zone `Europe/Kaliningrad`.
pub open spec fn kaliningrad() -> Table {
    Table::listed(Table::row(0, 4920, 0, "LMT").1, 80, kaliningrad_rows())
}

/// Row `i` of the table of the zone `Europe/Kiev`.
pub open spec fn kiev_row(i: int) -> (i64, FixedTimespan) {
    if i < 60 {
     if i < 30 {
      if i < 15 {
       if i < 7 {
        if i < 3 {
         if i < 1 {
          Table::row(-2840148124, 7324, 0, "KMT")
         } else {
          if i < 2 {
           Table::row(-1441159324, 7200, 0, "EET")
          } else {
           Table::row(-1247536800, 10800, 0, "MSK")
          }
         }
        } else {
         if i < 5 {
          if i < 4 {
           Table::row(-892522800, 3600, 3600, "CEST")
          } else {
           Table::row(-857257200, 3600, 0, "CET")
          }
         } else {
          if i < 6 {
           Table::row(-844556400, 3600, 3600, "CEST")
          } else {
           Table::row(-828226800, 3600, 0, "CET")
          }
         }
        }
       } else {
        if i < 11 {
         if i < 9 {
          if i < 8 {
           Table::row(-825382800, 10800, 0, "MSK")
          } else {
           Table::row(354920400, 10800, 3600, "MSD")
          }
         } else {
          if i < 10 {
           Table::row(370728000, 10800, 0, "MSK")
          } else {
           Table::row(386456400, 10800, 3600, "MSD")
          }
         }
        } else {
         if i < 13 {
          if i < 12 {
           Table::row(402264000, 10800, 0, "MSK")
          } else {
           Table::row(417992400, 10800, 3600, "MSD")
          }
         } else {
          if i < 14 {
           Table::row(433800000, 10800, 0, "MSK")
          } else {
           Table::row(449614800, 10800, 3600, "MSD")
          }
         }
        }
       }
      } else {
       if i < 22 {
        if i < 18 {
         if i < 16 {
          Table::row(465346800, 10800, 0, "MSK")
         } else {
          if i < 17 {
           Table::row(481071600, 10800, 3600, "MSD")
          } else {
           Table::row(496796400, 10800, 0, "MSK")
          }
         }
        } else {
         if i < 20 {
          if i < 19 {
           Table::row(512521200, 10800, 3600, "MSD")
          } else {
           Table::row(528246000, 10800, 0, "MSK")
          }
         } else {
          if i < 21 {
           Table::row(543970800, 10800, 3600, "MSD")
          } else {
           Table::row(559695600, 10800, 0, "MSK")
          }
         }
        }
       } else {
        if i < 26 {
         if i < 24 {
          if i < 23 {
           Table::row(575420400, 10800, 3600, "MSD")
          } else {
           Table::row(591145200, 10800, 0, "MSK")
          }
         } else {
          if i < 25 {
           Table::row(606870000, 10800, 3600, "MSD")
          } else {
           Table::row(622594800, 10800, 0, "MSK")
          }
         }
        } else {
         if i < 28 {
          if i < 27 {
           Table::row(638319600, 10800, 3600, "MSD")
          } else {
           Table::row(646783200, 7200, 3600, "EEST")
          }
         } else {
          if i < 29 {
           Table::row(686102400, 7200, 0, "EET")
          } else {
           Table::row(701827200, 7200, 3600, "EEST")
          }
         }
        }
       }
      }
     } else {
      if i < 45 {
       if i < 37 {
        if i < 33 {
         if i < 31 {
          Table::row(717552000, 7200, 0, "EET")
         } else {
          if i < 32 {
           Table::row(733276800, 7200, 3600, "EEST")
          } else {
           Table::row(749001600, 7200, 0, "EET")
          }
         }
        } else {
         if i < 35 {
          if i < 34 {
           Table::row(764726400, 7200, 3600, "EEST")
          } else {
           Table::row(780451200, 7200, 0, "EET")
          }
         } else {
          if i < 36 {
           Table::row(796176000, 7200, 3600, "EEST")
          } else {
           Table::row(811900800, 7200, 0, "EET")
          }
         }
        }
       } else {
        if i < 41 {
         if i < 39 {
          if i < 38 {
           Table::row(828230400, 7200, 3600, "EEST")
          } else {
           Table::row(846378000, 7200, 0, "EET")
          }
         } else {
          if i < 40 {
           Table::row(859683600, 7200, 3600, "EEST")
          } else {
           Table::row(877827600, 7200, 0, "EET")
          }
         }
        } else {
         if i < 43 {
          if i < 42 {
           Table::row(891133200, 7200, 3600, "EEST")
          } else {
           Table::row(909277200, 7200, 0, "EET")
          }
         } else {
          if i < 44 {
           Table::row(922582800, 7200, 3600, "EEST")
          } else {
           Table::row(941331600, 7200, 0, "EET")
          }
         }
        }
       }
      } else {
       if i < 52 {
        if i < 48 {
         if i < 46 {
          Table::row(954032400, 7200, 3600, "EEST")
         } else {
          if i < 47 {
           Table::row(972781200, 7200, 0, "EET")
          } else {
           Table::row(985482000, 7200, 3600, "EEST")
          }
         }
        } else {
         if i < 50 {
          if i < 49 {
           Table::row(1004230800, 7200, 0, "EET")
          } else {
           Table::row(1017536400, 7200, 3600, "EEST")
          }
         } else {
          if i < 51 {
           Table::row(1035680400, 7200, 0, "EET")
          } else {
           Table::row(1048986000, 7200, 3600, "EEST")
          }
         }
        }
       } else {
        if i < 56 {
         if i < 54 {
          if i < 53 {
           Table::row(1067130000, 7200, 0, "EET")
          } else {
           Table::row(1080435600, 7200, 3600, "EEST")
          }
         } else {
          if i < 55 {
           Table::row(1099184400, 7200, 0, "EET")
          } else {
           Table::row(1111885200, 7200, 3600, "EEST")
          }
         }
        } else {
         if i < 58 {
          if i < 57 {
           Table::row(1130634000, 7200, 0, "EET")
          } else {
           Table::row(1143334800, 7200, 3600, "EEST")
          }
         } else {
          if i < 59 {
           Table::row(1162083600, 7200, 0, "EET")
          } else {
           Table::row(1174784400, 7200, 3600, "EEST")
          }
         }
        }
       }
      }
     }
    } else {
     if i < 90 {
      if i < 75 {
       if i < 67 {
        if i < 63 {
         if i < 61 {
          Table::row(1193533200, 7200, 0, "EET")
         } else {
          if i < 62 {
           Table::row(1206838800, 7200, 3600, "EEST")
          } else {
           Table::row(1224982800, 7200, 0, "EET")
          }
         }
        } else {
         if i < 65 {
          if i < 64 {
           Table::row(1238288400, 7200, 3600, "EEST")
          } else {
           Table::row(1256432400, 7200, 0, "EET")
          }
         } else {
          if i < 66 {
           Table::row(1269738000, 7200, 3600, "EEST")
          } else {
           Table::row(1288486800, 7200, 0, "EET")
          }
         }
        }
       } else {
        if i < 71 {
         if i < 69 {
          if i < 68 {
           Table::row(1301187600, 7200, 3600, "EEST")
          } else {
           Table::row(1319936400, 7200, 0, "EET")
          }
         } else {
          if i < 70 {
           Table::row(1332637200, 7200, 3600, "EEST")
          } else {
           Table::row(1351386000, 7200, 0, "EET")
          }
         }
        } else {
         if i < 73 {
          if i < 72 {
           Table::row(1364691600, 7200, 3600, "EEST")
          } else {
           Table::row(1382835600, 7200, 0, "EET")
          }
         } else {
          if i < 74 {
           Table::row(1396141200, 7200, 3600, "EEST")
          } else {
           Table::row(1414285200, 7200, 0, "EET")
          }
         }
        }
       }
      } else {
       if i < 82 {
        if i < 78 {
         if i < 76 {
          Table::row(1427590800, 7200, 3600, "EEST")
         } else {
          if i < 77 {
           Table::row(1445734800, 7200, 0, "EET")
          } else {
           Table::row(1459040400, 7200, 3600, "EEST")
          }
         }
        } else {
         if i < 80 {
          if i < 79 {
           Table::row(1477789200, 7200, 0, "EET")
          } else {
           Table::row(1490490000, 7200, 3600, "EEST")
          }
         } else {
          if i < 81 {
           Table::row(1509238800, 7200, 0, "EET")
          } else {
           Table::row(1521939600, 7200, 3600, "EEST")
          }
         }
        }
       } else {
        if i < 86 {
         if i < 84 {
          if i < 83 {
           Table::row(1540688400, 7200, 0, "EET")
          } else {
           Table::row(1553994000, 7200, 3600, "EEST")
          }
         } else {
          if i < 85 {
           Table::row(1572138000, 7200, 0, "EET")
          } else {
           Table::row(1585443600, 7200, 3600, "EEST")
          }
         }
        } else {
         if i < 88 {
          if i < 87 {
           Table::row(1603587600, 7200, 0, "EET")
          } else {
           Table::row(1616893200, 7200, 3600, "EEST")
          }
         } else {
          if i < 89 {
           Table::row(1635642000, 7200, 0, "EET")
          } else {
           Table::row(1648342800, 7200, 3600, "EEST")
          }
         }
        }
       }
      }
     } else {
      if i < 105 {
       if i < 97 {
        if i < 93 {
         if i < 91 {
          Table::row(1667091600, 7200, 0, "EET")
         } else {
          if i < 92 {
           Table::row(1679792400, 7200, 3600, "EEST")
          } else {
           Table::row(1698541200, 7200, 0, "EET")
          }
         }
        } else {
         if i < 95 {
          if i < 94 {
           Table::row(1711846800, 7200, 3600, "EEST")
          } else {
           Table::row(1729990800, 7200, 0, "EET")
          }
         } else {
          if i < 96 {
           Table::row(1743296400, 7200, 3600, "EEST")
          } else {
           Table::row(1761440400, 7200, 0, "EET")
          }
         }
        }
       } else {
        if i < 101 {
         if i < 99 {
          if i < 98 {
           Table::row(1774746000, 7200, 3600, "EEST")
          } else {
           Table::row(1792890000, 7200, 0, "EET")
          }
         } else {
          if i < 100 {
           Table::row(1806195600, 7200, 3600, "EEST")
          } else {
           Table::row(1824944400, 7200, 0, "EET")
          }
         }
        } else {
         if i < 103 {
          if i < 102 {
           Table::row(1837645200, 7200, 3600, "EEST")
          } else {
           Table::row(1856394000, 7200, 0, "EET")
          }
         } else {
          if i < 104 {
           Table::row(1869094800, 7200, 3600, "EEST")
          } else {
           Table::row(1887843600, 7200, 0, "EET")
          }
         }
        }
       }
      } else {
       if i < 113 {
        if i < 109 {
         if i < 107 {
          if i < 106 {
           Table::row(1901149200, 7200, 3600, "EEST")
          } else {
           Table::row(1919293200, 7200, 0, "EET")
          }
         } else {
          if i < 108 {
           Table::row(1932598800, 7200, 3600, "EEST")
          } else {
           Table::row(1950742800, 7200, 0, "EET")
          }
         }
        } else {
         if i < 111 {
          if i < 110 {
           Table::row(1964048400, 7200, 3600, "EEST")
          } else {
           Table::row(1982797200, 7200, 0, "EET")
          }
         } else {
          if i < 112 {
           Table::row(1995498000, 7200, 3600, "EEST")
          } else {
           Table::row(2014246800, 7200, 0, "EET")
          }
         }
        }
       } else {
        if i < 117 {
         if i < 115 {
          if i < 114 {
           Table::row(2026947600, 7200, 3600, "EEST")
          } else {
           Table::row(2045696400, 7200, 0, "EET")
          }
         } else {
          if i < 116 {
           Table::row(2058397200, 7200, 3600, "EEST")
          } else {
           Table::row(2077146000, 7200, 0, "EET")
          }
         }
        } else {
         if i < 119 {
          if i < 118 {
           Table::row(2090451600, 7200, 3600, "EEST")
          } else {
           Table::row(2108595600, 7200, 0, "EET")
          }
         } else {
          if i < 120 {
           Table::row(2121901200, 7200, 3600, "EEST")
          } else {
           Table::row(2140045200, 7200, 0, "EET")
          }
         }
        }
       }
      }
     }
    }
}

/// The rows of the table of the zone `Europe/Kiev`.
pub open spec fn kiev_rows() -> spec_fn(int) -> (i64, FixedTimespan) {
    |i: int| kiev_row(i)
}

/// The table of the zone `Europe/Kiev`.
pub open spec fn kiev() -> Table {
    Table::listed(Table::row(0, 7324, 0, "LMT").1, 121, kiev_rows())
}

/// Row `i` of the table of the zone `Europe/Kirov`.
pub open spec fn kirov_row(i: int) -> (i64, FixedTimespan) {
    if i < 31 {
     if i < 15 {
      if i < 7 {
       if i < 3 {
        if i < 1 {
         Table::row(-1593820800, 10800, 0, "+03")
        } else {
         if i < 2 {
          Table::row(-1247540400, 14400, 0, "+04")
         } else {
          Table::row(354916800, 14400, 3600, "+05")
         }
        }
       } else {
        if i < 5 {
         if i < 4 {
          Table::row(370724400, 14400, 0, "+04")
         } else {
          Table::row(386452800, 14400, 3600, "+05")
         }
        } else {
         if i < 6 {
          Table::row(402260400, 14400, 0, "+04")
         } else {
          Table::row(417988800, 14400, 3600, "+05")
         }
        }
       }
      } else {
       if i < 11 {
        if i < 9 {
         if i < 8 {
          Table::row(433796400, 14400, 0, "+04")
         } else {
          Table::row(449611200, 14400, 3600, "+05")
         }
        } else {
         if i < 10 {
          Table::row(465343200, 14400, 0, "+04")
         } else {
          Table::row(481068000, 14400, 3600, "+05")
         }
        }
       } else {
        if i < 13 {
         if i < 12 {
          Table::row(496792800, 14400, 0, "+04")
         } else {
          Table::row(512517600, 14400, 3600, "+05")
         }
        } else {
         if i < 14 {
          Table::row(528242400, 14400, 0, "+04")
         } else {
          Table::row(543967200, 14400, 3600, "+05")
         }
        }
       }
      }
     } else {
      if i < 23 {
       if i < 19 {
        if i < 17 {
         if i < 16 {
          Table::row(559692000, 14400, 0, "+04")
         } else {
          Table::row(575416800, 14400, 3600, "+05")
         }
        } else {
         if i < 18 {
          Table::row(591141600, 14400, 0, "+04")
         } else {
          Table::row(606866400, 10800, 3600, "MSD")
         }
        }
       } else {
        if i < 21 {
         if i < 20 {
          Table::row(622594800, 10800, 0, "MSK")
         } else {
          Table::row(638319600, 10800, 3600, "MSD")
         }
        } else {
         if i < 22 {
          Table::row(654649200, 10800, 0, "MSK")
         } else {
          Table::row(670374000, 14400, 0, "+04")
         }
        }
       }
      } else {
       if i < 27 {
        if i < 25 {
         if i < 24 {
          Table::row(701820000, 10800, 3600, "MSD")
         } else {
          Table::row(717548400, 10800, 0, "MSK")
         }
        } else {
         if i < 26 {
          Table::row(733273200, 10800, 3600, "MSD")
         } else {
          Table::row(748998000, 10800, 0, "MSK")
         }
        }
       } else {
        if i < 29 {
         if i < 28 {
          Table::row(764722800, 10800, 3600, "MSD")
         } else {
          Table::row(780447600, 10800, 0, "MSK")
         }
        } else {
         if i < 30 {
          Table::row(796172400, 10800, 3600, "MSD")
         } else {
          Table::row(811897200, 10800, 0, "MSK")
         }
        }
       }
      }
     }
    } else {
     if i < 47 {
      if i < 39 {
       if i < 35 {
        if i < 33 {
         if i < 32 {
          Table::row(828226800, 10800, 3600, "MSD")
         } else {
          Table::row(846370800, 10800, 0, "MSK")
         }
        } else {
         if i < 34 {
          Table::row(859676400, 10800, 3600, "MSD")
         } else {
          Table::row(877820400, 10800, 0, "MSK")
         }
        }
       } else {
        if i < 37 {
         if i < 36 {
          Table::row(891126000, 10800, 3600, "MSD")
         } else {
          Table::row(909270000, 10800, 0, "MSK")
         }
        } else {
         if i < 38 {
          Table::row(922575600, 10800, 3600, "MSD")
         } else {
          Table::row(941324400, 10800, 0, "MSK")
         }
        }
       }
      } else {
       if i < 43 {
        if i < 41 {
         if i < 40 {
          Table::row(954025200, 10800, 3600, "MSD")
         } else {
          Table::row(972774000, 10800, 0, "MSK")
         }
        } else {
         if i < 42 {
          Table::row(985474800, 10800, 3600, "MSD")
         } else {
          Table::row(1004223600, 10800, 0, "MSK")
         }
        }
       } else {
        if i < 45 {
         if i < 44 {
          Table::row(1017529200, 10800, 3600, "MSD")
         } else {
          Table::row(1035673200, 10800, 0, "MSK")
         }
        } else {
         if i < 46 {
          Table::row(1048978800, 10800, 3600, "MSD")
         } else {
          Table::row(1067122800, 10800, 0, "MSK")
         }
        }
       }
      }
     } else {
      if i < 55 {
       if i < 51 {
        if i < 49 {
         if i < 48 {
          Table::row(1080428400, 10800, 3600, "MSD")
         } else {
          Table::row(1099177200, 10800, 0, "MSK")
         }
        } else {
         if i < 50 {
          Table::row(1111878000, 10800, 3600, "MSD")
         } else {
          Table::row(1130626800, 10800, 0, "MSK")
         }
        }
       } else {
        if i < 53 {
         if i < 52 {
          Table::row(1143327600, 10800, 3600, "MSD")
         } else {
          Table::row(1162076400, 10800, 0, "MSK")
         }
        } else {
         if i < 54 {
          Table::row(1174777200, 10800, 3600, "MSD")
         } else {
          Table::row(1193526000, 10800, 0, "MSK")
         }
        }
       }
      } else {
       if i < 59 {
        if i < 57 {
         if i < 56 {
          Table::row(1206831600, 10800, 3600, "MSD")
         } else {
          Table::row(1224975600, 10800, 0, "MSK")
         }
        } else {
         if i < 58 {
          Table::row(1238281200, 10800, 3600, "MSD")
         } else {
          Table::row(1256425200, 10800, 0, "MSK")
         }
        }
       } else {
        if i < 61 {
         if i < 60 {
          Table::row(1269730800, 10800, 3600, "MSD")
         } else {
          Table::row(1288479600, 10800, 0, "MSK")
         }
        } else {
         if i < 62 {
          Table::row(1301180400, 14400, 0, "MSK")
         } else {
          Table::row(1414274400, 10800, 0, "MSK")
         }
        }
       }
      }
     }
    }
}

/// The rows of the table of the zone `Europe/Kirov`.
pub open spec fn kirov_rows() -> spec_fn(int) -> (i64, FixedTimespan) {
    |i: int| kirov_row(i)
}

/// The table of the zone `Europe/Kirov`.
pub open spec fn kirov() -> Table {
    Table::listed(Table::row(0, 11928, 0, "LMT").1, 63, kirov_rows())
}

/// Row `i` of the table of the zone `Europe/Kyiv`.
pub open spec fn kyiv_row(i: int) -> (i64, FixedTimespan) {
    if i < 60 {
     if i < 30 {
      if i < 15 {
       if i < 7 {
        if i < 3 {
         if i < 1 {
          Table::row(-2840148124, 7324, 0, "KMT")
         } else {
          if i < 2 {
           Table::row(-1441159324, 7200, 0, "EET")
          } else {
           Table::row(-1247536800, 10800, 0, "MSK")
          }
         }
        } else {
         if i < 5 {
          if i < 4 {
           Table::row(-892522800, 3600, 3600, "CEST")
          } else {
           Table::row(-857257200, 3600, 0, "CET")
          }
         } else {
          if i < 6 {
           Table::row(-844556400, 3600, 3600, "CEST")
          } else {
           Table::row(-828226800, 3600, 0, "CET")
          }
         }
        }
       } else {
        if i < 11 {
         if i < 9 {
          if i < 8 {
           Table::row(-825382800, 10800, 0, "MSK")
          } else {
           Table::row(354920400, 10800, 3600, "MSD")
          }
         } else {
          if i < 10 {
           Table::row(370728000, 10800, 0, "MSK")
          } else {
           Table::row(386456400, 10800, 3600, "MSD")
          }
         }
        } else {
         if i < 13 {
          if i < 12 {
           Table::row(402264000, 10800, 0, "MSK")
          } else {
           Table::row(417992400, 10800, 3600, "MSD")
          }
         } else {
          if i < 14 {
           Table::row(433800000, 10800, 0, "MSK")
          } else {
           Table::row(449614800, 10800, 3600, "MSD")
          }
         }
        }
       }
      } else {
       if i < 22 {
        if i < 18 {
         if i < 16 {
          Table::row(465346800, 10800, 0, "MSK")
         } else {
          if i < 17 {
           Table::row(481071600, 10800, 3600, "MSD")
          } else {
           Table::row(496796400, 10800, 0, "MSK")
          }
         }
        } else {
         if i < 20 {
          if i < 19 {
           Table::row(512521200, 10800, 3600, "MSD")
          } else {
           Table::row(528246000, 10800, 0, "MSK")
          }
         } else {
          if i < 21 {
           Table::row(543970800, 10800, 3600, "MSD")
          } else {
           Table::row(559695600, 10800, 0, "MSK")
          }
         }
        }
       } else {
        if i < 26 {
         if i < 24 {
          if i < 23 {
           Table::row(575420400, 10800, 3600, "MSD")
          } else {
           Table::row(591145200, 10800, 0, "MSK")
          }
         } else {
          if i < 25 {
           Table::row(606870000, 10800, 3600, "MSD")
          } else {
           Table::row(622594800, 10800, 0, "MSK")
          }
         }
        } else {
         if i < 28 {
          if i < 27 {
           Table::row(638319600, 10800, 3600, "MSD")
          } else {
           Table::row(646783200, 7200, 3600, "EEST")
          }
         } else {
          if i < 29 {
           Table::row(686102400, 7200, 0, "EET")
          } else {
           Table::row(701827200, 7200, 3600, "EEST")
          }
         }
        }
       }
      }
     } else {
      if i < 45 {
       if i < 37 {
        if i < 33 {
         if i < 31 {
          Table::row(717552000, 7200, 0, "EET")
         } else {
          if i < 32 {
           Table::row(733276800, 7200, 3600, "EEST")
          } else {
           Table::row(749001600, 7200, 0, "EET")
          }
         }
        } else {
         if i < 35 {
          if i < 34 {
           Table::row(764726400, 7200, 3600, "EEST")
          } else {
           Table::row(780451200, 7200, 0, "EET")
          }
         } else {
          if i < 36 {
           Table::row(796176000, 7200, 3600, "EEST")
          } else {
           Table::row(811900800, 7200, 0, "EET")
          }
         }
        }
       } else {
        if i < 41 {
         if i < 39 {
          if i < 38 {
           Table::row(828230400, 7200, 3600, "EEST")
          } else {
           Table::row(846378000, 7200, 0, "EET")
          }
         } else {
          if i < 40 {
           Table::row(859683600, 7200, 3600, "EEST")
          } else {
           Table::row(877827600, 7200, 0, "EET")
          }
         }
        } else {
         if i < 43 {
          if i < 42 {
           Table::row(891133200, 7200, 3600, "EEST")
          } else {
           Table::row(909277200, 7200, 0, "EET")
          }
         } else {
          if i < 44 {
           Table::row(922582800, 7200, 3600, "EEST")
          } else {
           Table::row(941331600, 7200, 0, "EET")
          }
         }
        }
       }
      } else {
       if i < 52 {
        if i < 48 {
         if i < 46 {
          Table::row(954032400, 7200, 3600, "EEST")
         } else {
          if i < 47 {
           Table::row(972781200, 7200, 0, "EET")
          } else {
           Table::row(985482000, 7200, 3600, "EEST")
          }
         }
        } else {
         if i < 50 {
          if i < 49 {
           Table::row(1004230800, 7200, 0, "EET")
          } else {
           Table::row(1017536400, 7200, 3600, "EEST")
          }
         } else {
          if i < 51 {
           Table::row(1035680400, 7200, 0, "EET")
          } else {
           Table::row(1048986000, 7200, 3600, "EEST")
          }
         }
        }
       } else {
        if i < 56 {
         if i < 54 {
          if i < 53 {
           Table::row(1067130000, 7200, 0, "EET")
          } else {
           Table::row(1080435600, 7200, 3600, "EEST")
          }
         } else {
          if i < 55 {
           Table::row(1099184400, 7200, 0, "EET")
          } else {
           Table::row(1111885200, 7200, 3600, "EEST")
          }
         }
        } else {
         if i < 58 {
          if i < 57 {
           Table::row(1130634000, 7200, 0, "EET")
          } else {
           Table::row(1143334800, 7200, 3600, "EEST")
          }
         } else {
          if i < 59 {
           Table::row(1162083600, 7200, 0, "EET")
          } else {
           Table::row(1174784400, 7200, 3600, "EEST")
          }
         }
        }
       }
      }
     }
    } else {
     if i < 90 {
      if i < 75 {
       if i < 67 {
        if i < 63 {
         if i < 61 {
          Table::row(1193533200, 7200, 0, "EET")
         } else {
          if i < 62 {
           Table::row(1206838800, 7200, 3600, "EEST")
          } else {
           Table::row(1224982800, 7200, 0, "EET")
          }
         }
        } else {
         if i < 65 {
          if i < 64 {
           Table::row(1238288400, 7200, 3600, "EEST")
          } else {
           Table::row(1256432400, 7200, 0, "EET")
          }
         } else {
          if i < 66 {
           Table::row(1269738000, 7200, 3600, "EEST")
          } else {
           Table::row(1288486800, 7200, 0, "EET")
          }
         }
        }
       } else {
        if i < 71 {
         if i < 69 {
          if i < 68 {
           Table::row(1301187600, 7200, 3600, "EEST")
          } else {
           Table::row(1319936400, 7200, 0, "EET")
          }
         } else {
          if i < 70 {
           Table::row(1332637200, 7200, 3600, "EEST")
          } else {
           Table::row(1351386000, 7200, 0, "EET")
          }
         }
        } else {
         if i < 73 {
          if i < 72 {
           Table::row(1364691600, 7200, 3600, "EEST")
          } else {
           Table::row(1382835600, 7200, 0, "EET")
          }
         } else {
          if i < 74 {
           Table::row(1396141200, 7200, 3600, "EEST")
          } else {
           Table::row(1414285200, 7200, 0, "EET")
          }
         }
        }
       }
      } else {
       if i < 82 {
        if i < 78 {
         if i < 76 {
          Table::row(1427590800, 7200, 3600, "EEST")
         } else {
          if i < 77 {
           Table::row(1445734800, 7200, 0, "EET")
          } else {
           Table::row(1459040400, 7200, 3600, "EEST")
          }
         }
        } else {
         if i < 80 {
          if i < 79 {
           Table::row(1477789200, 7200, 0, "EET")
          } else {
           Table::row(1490490000, 7200, 3600, "EEST")
          }
         } else {
          if i < 81 {
           Table::row(1509238800, 7200, 0, "EET")
          } else {
           Table::row(1521939600, 7200, 3600, "EEST")
          }
         }
        }
       } else {
        if i < 86 {
         if i < 84 {
          if i < 83 {
           Table::row(1540688400, 7200, 0, "EET")
          } else {
           Table::row(1553994000, 7200, 3600, "EEST")
          }
         } else {
          if i < 85 {
           Table::row(1572138000, 7200, 0, "EET")
          } else {
           Table::row(1585443600, 7200, 3600, "EEST")
          }
         }
        } else {
         if i < 88 {
          if i < 87 {
           Table::row(1603587600, 7200, 0, "EET")
          } else {
           Table::row(1616893200, 7200, 3600, "EEST")
          }
         } else {
          if i < 89 {
           Table::row(1635642000, 7200, 0, "EET")
          } else {
           Table::row(1648342800, 7200, 3600, "EEST")
          }
         }
        }
       }
      }
     } else {
      if i < 105 {
       if i < 97 {
        if i < 93 {
         if i < 91 {
          Table::row(1667091600, 7200, 0, "EET")
         } else {
          if i < 92 {
           Table::row(1679792400, 7200, 3600, "EEST")
          } else {
           Table::row(1698541200, 7200, 0, "EET")
          }
         }
        } else {
         if i < 95 {
          if i < 94 {
           Table::row(1711846800, 7200, 3600, "EEST")
          } else {
           Table::row(1729990800, 7200, 0, "EET")
          }
         } else {
          if i < 96 {
           Table::row(1743296400, 7200, 3600, "EEST")
          } else {
           Table::row(1761440400, 7200, 0, "EET")
          }
         }
        }
       } else {
        if i < 101 {
         if i < 99 {
          if i < 98 {
           Table::row(1774746000, 7200, 3600, "EEST")
          } else {
           Table::row(1792890000, 7200, 0, "EET")
          }
         } else {
          if i < 100 {
           Table::row(1806195600, 7200, 3600, "EEST")
          } else {
           Table::row(1824944400, 7200, 0, "EET")
          }
         }
        } else {
         if i < 103 {
          if i < 102 {
           Table::row(1837645200, 7200, 3600, "EEST")
          } else {
           Table::row(1856394000, 7200, 0, "EET")
          }
         } else {
          if i < 104 {
           Table::row(1869094800, 7200, 3600, "EEST")
          } else {
           Table::row(1887843600, 7200, 0, "EET")
          }
         }
        }
       }
      } else {
       if i < 113 {
        if i < 109 {
         if i < 107 {
          if i < 106 {
           Table::row(1901149200, 7200, 3600, "EEST")
          } else {
           Table::row(1919293200, 7200, 0, "EET")
          }
         } else {
          if i < 108 {
           Table::row(1932598800, 7200, 3600, "EEST")
          } else {
           Table::row(1950742800, 7200, 0, "EET")
          }
         }
        } else {
         if i < 111 {
          if i < 110 {
           Table::row(1964048400, 7200, 3600, "EEST")
          } else {
           Table::row(1982797200, 7200, 0, "EET")
          }
         } else {
          if i < 112 {
           Table::row(1995498000, 7200, 3600, "EEST")
          } else {
           Table::row(2014246800, 7200, 0, "EET")
          }
         }
        }
       } else {
        if i < 117 {
         if i < 115 {
          if i < 114 {
           Table::row(2026947600, 7200, 3600, "EEST")
          } else {
           Table::row(2045696400, 7200, 0, "EET")
          }
         } else {
          if i < 116 {
           Table::row(2058397200, 7200, 3600, "EEST")
          } else {
           Table::row(2077146000, 7200, 0, "EET")
          }
         }
        } else {
         if i < 119 {
          if i < 118 {
           Table::row(2090451600, 7200, 3600, "EEST")
          } else {
           Table::row(2108595600, 7200, 0, "EET")
          }
         } else {
          if i < 120 {
           Table::row(2121901200, 7200, 3600, "EEST")
          } else {
           Table::row(2140045200, 7200, 0, "EET")
          }
         }
        }
       }
      }
     }
    }
}

/// The rows of the table of the zone `Europe/Kyiv`.
pub open spec fn kyiv_rows() -> spec_fn(int) -> (i64, FixedTimespan) {
    |i: int| kyiv_row(i)
}

/// The table of the zone `Europe/Kyiv`.
pub open spec fn kyiv() -> Table {
    Table::listed(Table::row(0, 7324, 0, "LMT").1, 121, kyiv_rows())
}

/// Row `i` of the table of the zone `Europe/Lisbon`.
pub open spec fn lisbon_row(i: int) -> (i64, FixedTimespan) {
    if i < 112 {
     if i < 56 {
      if i < 28 {
       if i < 14 {
        if i < 7 {
         if i < 3 {
          if i < 1 {
           Table::row(-2713908195, -2205, 0, "LMT")
          } else {
           if i < 2 {
            Table::row(-1830384000, 0, 0, "WET")
           } else {
            Table::row(-1689555600, 0, 3600, "WEST")
           }
          }
         } else {
          if i < 5 {
           if i < 4 {
            Table::row(-1677801600, 0, 0, "WET")
           } else {
            Table::row(-1667433600, 0, 3600, "WEST")
           }
          } else {
           if i < 6 {
            Table::row(-1647738000, 0, 0, "WET")
           } else {
            Table::row(-1635897600, 0, 3600, "WEST")
           }
          }
         }
        } else {
         if i < 10 {
          if i < 8 {
           Table::row(-1616202000, 0, 0, "WET")
          } else {
           if i < 9 {
            Table::row(-1604361600, 0, 3600, "WEST")
           } else {
            Table::row(-1584666000, 0, 0, "WET")
           }
          }
         } else {
          if i < 12 {
           if i < 11 {
            Table::row(-1572739200, 0, 3600, "WEST")
           } else {
            Table::row(-1553043600, 0, 0, "WET")
           }
          } else {
           if i < 13 {
            Table::row(-1541203200, 0, 3600, "WEST")
           } else {
            Table::row(-1521507600, 0, 0, "WET")
           }
          }
         }
        }
       } else {
        if i < 21 {
         if i < 17 {
          if i < 15 {
           Table::row(-1442451600, 0, 3600, "WEST")
          } else {
           if i < 16 {
            Table::row(-1427677200, 0, 0, "WET")
           } else {
            Table::row(-1379293200, 0, 3600, "WEST")
           }
          }
         } else {
          if i < 19 {
           if i < 18 {
            Table::row(-1364778000, 0, 0, "WET")
           } else {
            Table::row(-1348448400, 0, 3600, "WEST")
           }
          } else {
           if i < 20 {
            Table::row(-1333328400, 0, 0, "WET")
           } else {
            Table::row(-1316394000, 0, 3600, "WEST")
           }
          }
         }
        } else {
         if i < 24 {
          if i < 22 {
           Table::row(-1301274000, 0, 0, "WET")
          } else {
           if i < 23 {
            Table::row(-1284339600, 0, 3600, "WEST")
           } else {
            Table::row(-1269824400, 0, 0, "WET")
           }
          }
         } else {
          if i < 26 {
           if i < 25 {
            Table::row(-1221440400, 0, 3600, "WEST")
           } else {
            Table::row(-1206925200, 0, 0, "WET")
           }
          } else {
           if i < 27 {
            Table::row(-1191200400, 0, 3600, "WEST")
           } else {
            Table::row(-1175475600, 0, 0, "WET")
           }
          }
         }
        }
       }
      } else {
       if i < 42 {
        if i < 35 {
         if i < 31 {
          if i < 29 {
           Table::row(-1127696400, 0, 3600, "WEST")
          } else {
           if i < 30 {
            Table::row(-1111971600, 0, 0, "WET")
           } else {
            Table::row(-1096851600, 0, 3600, "WEST")
           }
          }
         } else {
          if i < 33 {
           if i < 32 {
            Table::row(-1080522000, 0, 0, "WET")
           } else {
            Table::row(-1063587600, 0, 3600, "WEST")
           }
          } else {
           if i < 34 {
            Table::row(-1049072400, 0, 0, "WET")
           } else {
            Table::row(-1033347600, 0, 3600, "WEST")
           }
          }
         }
        } else {
         if i < 38 {
          if i < 36 {
           Table::row(-1017622800, 0, 0, "WET")
          } else {
           if i < 37 {
            Table::row(-1002502800, 0, 3600, "WEST")
           } else {
            Table::row(-986173200, 0, 0, "WET")
           }
          }
         } else {
          if i < 40 {
           if i < 39 {
            Table::row(-969238800, 0, 3600, "WEST")
           } else {
            Table::row(-950490000, 0, 0, "WET")
           }
          } else {
           if i < 41 {
            Table::row(-942022800, 0, 3600, "WEST")
           } else {
            Table::row(-922496400, 0, 0, "WET")
           }
          }
         }
        }
       } else {
        if i < 49 {
         if i < 45 {
          if i < 43 {
           Table::row(-906944400, 0, 3600, "WEST")
          } else {
           if i < 44 {
            Table::row(-891133200, 0, 0, "WET")
           } else {
            Table::row(-877309200, 0, 3600, "WEST")
           }
          }
         } else {
          if i < 47 {
           if i < 46 {
            Table::row(-873684000, 0, 7200, "WEMT")
           } else {
            Table::row(-864007200, 0, 3600, "WEST")
           }
          } else {
           if i < 48 {
            Table::row(-857955600, 0, 0, "WET")
           } else {
            Table::row(-845859600, 0, 3600, "WEST")
           }
          }
         }
        } else {
         if i < 52 {
          if i < 50 {
           Table::row(-842839200, 0, 7200, "WEMT")
          } else {
           if i < 51 {
            Table::row(-831348000, 0, 3600, "WEST")
           } else {
            Table::row(-825901200, 0, 0, "WET")
           }
          }
         } else {
          if i < 54 {
           if i < 53 {
            Table::row(-814410000, 0, 3600, "WEST")
           } else {
            Table::row(-810784800, 0, 7200, "WEMT")
           }
          } else {
           if i < 55 {
            Table::row(-799898400, 0, 3600, "WEST")
           } else {
            Table::row(-794451600, 0, 0, "WET")
           }
          }
         }
        }
       }
      }
     } else {
      if i < 84 {
       if i < 70 {
        if i < 63 {
         if i < 59 {
          if i < 57 {
           Table::row(-782960400, 0, 3600, "WEST")
          } else {
           if i < 58 {
            Table::row(-779335200, 0, 7200, "WEMT")
           } else {
            Table::row(-768448800, 0, 3600, "WEST")
           }
          }
         } else {
          if i < 61 {
           if i < 60 {
            Table::row(-763002000, 0, 0, "WET")
           } else {
            Table::row(-749091600, 0, 3600, "WEST")
           }
          } else {
           if i < 62 {
            Table::row(-733366800, 0, 0, "WET")
           } else {
            Table::row(-717631200, 0, 3600, "WEST")
           }
          }
         }
        } else {
         if i < 66 {
          if i < 64 {
           Table::row(-701906400, 0, 0, "WET")
          } else {
           if i < 65 {
            Table::row(-686181600, 0, 3600, "WEST")
           } else {
            Table::row(-670456800, 0, 0, "WET")
           }
          }
         } else {
          if i < 68 {
           if i < 67 {
            Table::row(-654732000, 0, 3600, "WEST")
           } else {
            Table::row(-639007200, 0, 0, "WET")
           }
          } else {
           if i < 69 {
            Table::row(-623282400, 0, 3600, "WEST")
           } else {
            Table::row(-607557600, 0, 0, "WET")
           }
          }
         }
        }
       } else {
        if i < 77 {
         if i < 73 {
          if i < 71 {
           Table::row(-591832800, 0, 3600, "WEST")
          } else {
           if i < 72 {
            Table::row(-575503200, 0, 0, "WET")
           } else {
            Table::row(-559778400, 0, 3600, "WEST")
           }
          }
         } else {
          if i < 75 {
           if i < 74 {
            Table::row(-544053600, 0, 0, "WET")
           } else {
            Table::row(-528328800, 0, 3600, "WEST")
           }
          } else {
           if i < 76 {
            Table::row(-512604000, 0, 0, "WET")
           } else {
            Table::row(-496879200, 0, 3600, "WEST")
           }
          }
         }
        } else {
         if i < 80 {
          if i < 78 {
           Table::row(-481154400, 0, 0, "WET")
          } else {
           if i < 79 {
            Table::row(-465429600, 0, 3600, "WEST")
           } else {
            Table::row(-449704800, 0, 0, "WET")
           }
          }
         } else {
          if i < 82 {
           if i < 81 {
            Table::row(-433980000, 0, 3600, "WEST")
           } else {
            Table::row(-417650400, 0, 0, "WET")
           }
          } else {
           if i < 83 {
            Table::row(-401925600, 0, 3600, "WEST")
           } else {
            Table::row(-386200800, 0, 0, "WET")
           }
          }
         }
        }
       }
      } else {
       if i < 98 {
        if i < 91 {
         if i < 87 {
          if i < 85 {
           Table::row(-370476000, 0, 3600, "WEST")
          } else {
           if i < 86 {
            Table::row(-354751200, 0, 0, "WET")
           } else {
            Table::row(-339026400, 0, 3600, "WEST")
           }
          }
         } else {
          if i < 89 {
           if i < 88 {
            Table::row(-323301600, 0, 0, "WET")
           } else {
            Table::row(-307576800, 0, 3600, "WEST")
           }
          } else {
           if i < 90 {
            Table::row(-291852000, 0, 0, "WET")
           } else {
            Table::row(-276127200, 0, 3600, "WEST")
           }
          }
         }
        } else {
         if i < 94 {
          if i < 92 {
           Table::row(-260402400, 0, 0, "WET")
          } else {
           if i < 93 {
            Table::row(-244677600, 0, 3600, "WEST")
           } else {
            Table::row(-228348000, 0, 0, "WET")
           }
          }
         } else {
          if i < 96 {
           if i < 95 {
            Table::row(-212623200, 0, 3600, "WEST")
           } else {
            Table::row(-196898400, 0, 0, "WET")
           }
          } else {
           if i < 97 {
            Table::row(-181173600, 0, 3600, "WEST")
           } else {
            Table::row(-165448800, 0, 0, "WET")
           }
          }
         }
        }
       } else {
        if i < 105 {
         if i < 101 {
          if i < 99 {
           Table::row(-149724000, 0, 3600, "WEST")
          } else {
           if i < 100 {
            Table::row(-133999200, 0, 0, "WET")
           } else {
            Table::row(-118274400, 0, 3600, "WEST")
           }
          }
         } else {
          if i < 103 {
           if i < 102 {
            Table::row(-102549600, 3600, 0, "CET")
           } else {
            Table::row(212544000, 0, 0, "WET")
           }
          } else {
           if i < 104 {
            Table::row(228268800, 0, 3600, "WEST")
           } else {
            Table::row(243993600, 0, 0, "WET")
           }
          }
         }
        } else {
         if i < 108 {
          if i < 106 {
           Table::row(260326800, 0, 3600, "WEST")
          } else {
           if i < 107 {
            Table::row(276051600, 0, 0, "WET")
           } else {
            Table::row(291776400, 0, 3600, "WEST")
           }
          }
         } else {
          if i < 110 {
           if i < 109 {
            Table::row(307501200, 0, 0, "WET")
           } else {
            Table::row(323830800, 0, 3600, "WEST")
           }
          } else {
           if i < 111 {
            Table::row(338950800, 0, 0, "WET")
           } else {
            Table::row(354672000, 0, 3600, "WEST")
           }
          }
         }
        }
       }
      }
     }
    } else {
     if i < 168 {
      if i < 140 {
       if i < 126 {
        if i < 119 {
         if i < 115 {
          if i < 113 {
           Table::row(370396800, 0, 0, "WET")
          } else {
           if i < 114 {
            Table::row(386121600, 0, 3600, "WEST")
           } else {
            Table::row(401846400, 0, 0, "WET")
           }
          }
         } else {
          if i < 117 {
           if i < 116 {
            Table::row(417571200, 0, 3600, "WEST")
           } else {
            Table::row(433296000, 0, 0, "WET")
           }
          } else {
           if i < 118 {
            Table::row(449020800, 0, 3600, "WEST")
           } else {
            Table::row(465350400, 0, 0, "WET")
           }
          }
         }
        } else {
         if i < 122 {
          if i < 120 {
           Table::row(481075200, 0, 3600, "WEST")
          } else {
           if i < 121 {
            Table::row(496800000, 0, 0, "WET")
           } else {
            Table::row(512528400, 0, 3600, "WEST")
           }
          }
         } else {
          if i < 124 {
           if i < 123 {
            Table::row(528253200, 0, 0, "WET")
           } else {
            Table::row(543978000, 0, 3600, "WEST")
           }
          } else {
           if i < 125 {
            Table::row(559702800, 0, 0, "WET")
           } else {
            Table::row(575427600, 0, 3600, "WEST")
           }
          }
         }
        }
       } else {
        if i < 133 {
         if i < 129 {
          if i < 127 {
           Table::row(591152400, 0, 0, "WET")
          } else {
           if i < 128 {
            Table::row(606877200, 0, 3600, "WEST")
           } else {
            Table::row(622602000, 0, 0, "WET")
           }
          }
         } else {
          if i < 131 {
           if i < 130 {
            Table::row(638326800, 0, 3600, "WEST")
           } else {
            Table::row(654656400, 0, 0, "WET")
           }
          } else {
           if i < 132 {
            Table::row(670381200, 0, 3600, "WEST")
           } else {
            Table::row(686106000, 0, 0, "WET")
           }
          }
         }
        } else {
         if i < 136 {
          if i < 134 {
           Table::row(701830800, 0, 3600, "WEST")
          } else {
           if i < 135 {
            Table::row(717555600, 3600, 0, "CET")
           } else {
            Table::row(733280400, 3600, 3600, "CEST")
           }
          }
         } else {
          if i < 138 {
           if i < 137 {
            Table::row(749005200, 3600, 0, "CET")
           } else {
            Table::row(764730000, 3600, 3600, "CEST")
           }
          } else {
           if i < 139 {
            Table::row(780454800, 3600, 0, "CET")
           } else {
            Table::row(796179600, 3600, 3600, "CEST")
           }
          }
         }
        }
       }
      } else {
       if i < 154 {
        if i < 147 {
         if i < 143 {
          if i < 141 {
           Table::row(811904400, 3600, 0, "CET")
          } else {
           if i < 142 {
            Table::row(828234000, 0, 3600, "WEST")
           } else {
            Table::row(846378000, 0, 0, "WET")
           }
          }
         } else {
          if i < 145 {
           if i < 144 {
            Table::row(859683600, 0, 3600, "WEST")
           } else {
            Table::row(877827600, 0, 0, "WET")
           }
          } else {
           if i < 146 {
            Table::row(891133200, 0, 3600, "WEST")
           } else {
            Table::row(909277200, 0, 0, "WET")
           }
          }
         }
        } else {
         if i < 150 {
          if i < 148 {
           Table::row(922582800, 0, 3600, "WEST")
          } else {
           if i < 149 {
            Table::row(941331600, 0, 0, "WET")
           } else {
            Table::row(954032400, 0, 3600, "WEST")
           }
          }
         } else {
          if i < 152 {
           if i < 151 {
            Table::row(972781200, 0, 0, "WET")
           } else {
            Table::row(985482000, 0, 3600, "WEST")
           }
          } else {
           if i < 153 {
            Table::row(1004230800, 0, 0, "WET")
           } else {
            Table::row(1017536400, 0, 3600, "WEST")
           }
          }
         }
        }
       } else {
        if i < 161 {
         if i < 157 {
          if i < 155 {
           Table::row(1035680400, 0, 0, "WET")
          } else {
           if i < 156 {
            Table::row(1048986000, 0, 3600, "WEST")
           } else {
            Table::row(1067130000, 0, 0, "WET")
           }
          }
         } else {
          if i < 159 {
           if i < 158 {
            Table::row(1080435600, 0, 3600, "WEST")
           } else {
            Table::row(1099184400, 0, 0, "WET")
           }
          } else {
           if i < 160 {
            Table::row(1111885200, 0, 3600, "WEST")
           } else {
            Table::row(1130634000, 0, 0, "WET")
           }
          }
         }
        } else {
         if i < 164 {
          if i < 162 {
           Table::row(1143334800, 0, 3600, "WEST")
          } else {
           if i < 163 {
            Table::row(1162083600, 0, 0, "WET")
           } else {
            Table::row(1174784400, 0, 3600, "WEST")
           }
          }
         } else {
          if i < 166 {
           if i < 165 {
            Table::row(1193533200, 0, 0, "WET")
           } else {
            Table::row(1206838800, 0, 3600, "WEST")
           }
          } else {
           if i < 167 {
            Table::row(1224982800, 0, 0, "WET")
           } else {
            Table::row(1238288400, 0, 3600, "WEST")
           }
          }
         }
        }
       }
      }
     } else {
      if i < 196 {
       if i < 182 {
        if i < 175 {
         if i < 171 {
          if i < 169 {
           Table::row(1256432400, 0, 0, "WET")
          } else {
           if i < 170 {
            Table::row(1269738000, 0, 3600, "WEST")
           } else {
            Table::row(1288486800, 0, 0, "WET")
           }
          }
         } else {
          if i < 173 {
           if i < 172 {
            Table::row(1301187600, 0, 3600, "WEST")
           } else {
            Table::row(1319936400, 0, 0, "WET")
           }
          } else {
           if i < 174 {
            Table::row(1332637200, 0, 3600, "WEST")
           } else {
            Table::row(1351386000, 0, 0, "WET")
           }
          }
         }
        } else {
         if i < 178 {
          if i < 176 {
           Table::row(1364691600, 0, 3600, "WEST")
          } else {
           if i < 177 {
            Table::row(1382835600, 0, 0, "WET")
           } else {
            Table::row(1396141200, 0, 3600, "WEST")
           }
          }
         } else {
          if i < 180 {
           if i < 179 {
            Table::row(1414285200, 0, 0, "WET")
           } else {
            Table::row(1427590800, 0, 3600, "WEST")
           }
          } else {
           if i < 181 {
            Table::row(1445734800, 0, 0, "WET")
           } else {
            Table::row(1459040400, 0, 3600, "WEST")
           }
          }
         }
        }
       } else {
        if i < 189 {
         if i < 185 {
          if i < 183 {
           Table::row(1477789200, 0, 0, "WET")
          } else {
           if i < 184 {
            Table::row(1490490000, 0, 3600, "WEST")
           } else {
            Table::row(1509238800, 0, 0, "WET")
           }
          }
         } else {
          if i < 187 {
           if i < 186 {
            Table::row(1521939600, 0, 3600, "WEST")
           } else {
            Table::row(1540688400, 0, 0, "WET")
           }
          } else {
           if i < 188 {
            Table::row(1553994000, 0, 3600, "WEST")
           } else {
            Table::row(1572138000, 0, 0, "WET")
           }
          }
         }
        } else {
         if i < 192 {
          if i < 190 {
           Table::row(1585443600, 0, 3600, "WEST")
          } else {
           if i < 191 {
            Table::row(1603587600, 0, 0, "WET")
           } else {
            Table::row(1616893200, 0, 3600, "WEST")
           }
          }
         } else {
          if i < 194 {
           if i < 193 {
            Table::row(1635642000, 0, 0, "WET")
           } else {
            Table::row(1648342800, 0, 3600, "WEST")
           }
          } else {
           if i < 195 {
            Table::row(1667091600, 0, 0, "WET")
           } else {
            Table::row(1679792400, 0, 3600, "WEST")
           }
          }
         }
        }
       }
      } else {
       if i < 210 {
        if i < 203 {
         if i < 199 {
          if i < 197 {
           Table::row(1698541200, 0, 0, "WET")
          } else {
           if i < 198 {
            Table::row(1711846800, 0, 3600, "WEST")
           } else {
            Table::row(1729990800, 0, 0, "WET")
           }
          }
         } else {
          if i < 201 {
           if i < 200 {
            Table::row(1743296400, 0, 3600, "WEST")
           } else {
            Table::row(1761440400, 0, 0, "WET")
           }
          } else {
           if i < 202 {
            Table::row(1774746000, 0, 3600, "WEST")
           } else {
            Table::row(1792890000, 0, 0, "WET")
           }
          }
         }
        } else {
         if i < 206 {
          if i < 204 {
           Table::row(1806195600, 0, 3600, "WEST")
          } else {
           if i < 205 {
            Table::row(1824944400, 0, 0, "WET")
           } else {
            Table::row(1837645200, 0, 3600, "WEST")
           }
          }
         } else {
          if i < 208 {
           if i < 207 {
            Table::row(1856394000, 0, 0, "WET")
           } else {
            Table::row(1869094800, 0, 3600, "WEST")
           }
          } else {
           if i < 209 {
            Table::row(1887843600, 0, 0, "WET")
           } else {
            Table::row(1901149200, 0, 3600, "WEST")
           }
          }
         }
        }
       } else {
        if i < 217 {
         if i < 213 {
          if i < 211 {
           Table::row(1919293200, 0, 0, "WET")
          } else {
           if i < 212 {
            Table::row(1932598800, 0, 3600, "WEST")
           } else {
            Table::row(1950742800, 0, 0, "WET")
           }
          }
         } else {
          if i < 215 {
           if i < 214 {
            Table::row(1964048400, 0, 3600, "WEST")
           } else {
            Table::row(1982797200, 0, 0, "WET")
           }
          } else {
           if i < 216 {
            Table::row(1995498000, 0, 3600, "WEST")
           } else {
            Table::row(2014246800, 0, 0, "WET")
           }
          }
         }
        } else {
         if i < 221 {
          if i < 219 {
           if i < 218 {
            Table::row(2026947600, 0, 3600, "WEST")
           } else {
            Table::row(2045696400, 0, 0, "WET")
           }
          } else {
           if i < 220 {
            Table::row(2058397200, 0, 3600, "WEST")
           } else {
            Table::row(2077146000, 0, 0, "WET")
           }
          }
         } else {
          if i < 223 {
           if i < 222 {
            Table::row(2090451600, 0, 3600, "WEST")
           } else {
            Table::row(2108595600, 0, 0, "WET")
           }
          } else {
           if i < 224 {
            Table::row(2121901200, 0, 3600, "WEST")
           } else {
            Table::row(2140045200, 0, 0, "WET")
           }
          }
         }
        }
       }
      }
     }
    }
}

/// The rows of the table of the zone `Europe/Lisbon`.
pub open spec fn lisbon_rows() -> spec_fn(int) -> (i64, FixedTimespan) {
    |i: int| lisbon_row(i)
}

/// The table of the zone `Europe/Lisbon`.
pub open spec fn lisbon() -> Table {
    Table::listed(Table::row(0, -2205, 0, "LMT").1, 225, lisbon_rows())
}

/// Row `i` of the table of the zone `Europe/Ljubljana`.
pub open spec fn ljubljana_row(i: int) -> (i64, FixedTimespan) {
    if i < 59 {
     if i < 29 {
      if i < 14 {
       if i < 7 {
        if i < 3 {
         if i < 1 {
          Table::row(-2713913884, 3600, 0, "CET")
         } else {
          if i < 2 {
           Table::row(-905824800, 3600, 3600, "CEST")
          } else {
           Table::row(-857257200, 3600, 0, "CET")
          }
         }
        } else {
         if i < 5 {
          if i < 4 {
           Table::row(-844556400, 3600, 3600, "CEST")
          } else {
           Table::row(-828226800, 3600, 0, "CET")
          }
         } else {
          if i < 6 {
           Table::row(-812502000, 3600, 3600, "CEST")
          } else {
           Table::row(-796777200, 3600, 0, "CET")
          }
         }
        }
       } else {
        if i < 10 {
         if i < 8 {
          Table::row(-781052400, 3600, 3600, "CEST")
         } else {
          if i < 9 {
           Table::row(-766623600, 3600, 0, "CET")
          } else {
           Table::row(417574800, 3600, 3600, "CEST")
          }
         }
        } else {
         if i < 12 {
          if i < 11 {
           Table::row(433299600, 3600, 0, "CET")
          } else {
           Table::row(449024400, 3600, 3600, "CEST")
          }
         } else {
          if i < 13 {
           Table::row(465354000, 3600, 0, "CET")
          } else {
           Table::row(481078800, 3600, 3600, "CEST")
          }
         }
        }
       }
      } else {
       if i < 21 {
        if i < 17 {
         if i < 15 {
          Table::row(496803600, 3600, 0, "CET")
         } else {
          if i < 16 {
           Table::row(512528400, 3600, 3600, "CEST")
          } else {
           Table::row(528253200, 3600, 0, "CET")
          }
         }
        } else {
         if i < 19 {
          if i < 18 {
           Table::row(543978000, 3600, 3600, "CEST")
          } else {
           Table::row(559702800, 3600, 0, "CET")
          }
         } else {
          if i < 20 {
           Table::row(575427600, 3600, 3600, "CEST")
          } else {
           Table::row(591152400, 3600, 0, "CET")
          }
         }
        }
       } else {
        if i < 25 {
         if i < 23 {
          if i < 22 {
           Table::row(606877200, 3600, 3600, "CEST")
          } else {
           Table::row(622602000, 3600, 0, "CET")
          }
         } else {
          if i < 24 {
           Table::row(638326800, 3600, 3600, "CEST")
          } else {
           Table::row(654656400, 3600, 0, "CET")
          }
         }
        } else {
         if i < 27 {
          if i < 26 {
           Table::row(670381200, 3600, 3600, "CEST")
          } else {
           Table::row(686106000, 3600, 0, "CET")
          }
         } else {
          if i < 28 {
           Table::row(701830800, 3600, 3600, "CEST")
          } else {
           Table::row(717555600, 3600, 0, "CET")
          }
         }
        }
       }
      }
     } else {
      if i < 44 {
       if i < 36 {
        if i < 32 {
         if i < 30 {
          Table::row(733280400, 3600, 3600, "CEST")
         } else {
          if i < 31 {
           Table::row(749005200, 3600, 0, "CET")
          } else {
           Table::row(764730000, 3600, 3600, "CEST")
          }
         }
        } else {
         if i < 34 {
          if i < 33 {
           Table::row(780454800, 3600, 0, "CET")
          } else {
           Table::row(796179600, 3600, 3600, "CEST")
          }
         } else {
          if i < 35 {
           Table::row(811904400, 3600, 0, "CET")
          } else {
           Table::row(828234000, 3600, 3600, "CEST")
          }
         }
        }
       } else {
        if i < 40 {
         if i < 38 {
          if i < 37 {
           Table::row(846378000, 3600, 0, "CET")
          } else {
           Table::row(859683600, 3600, 3600, "CEST")
          }
         } else {
          if i < 39 {
           Table::row(877827600, 3600, 0, "CET")
          } else {
           Table::row(891133200, 3600, 3600, "CEST")
          }
         }
        } else {
         if i < 42 {
          if i < 41 {
           Table::row(909277200, 3600, 0, "CET")
          } else {
           Table::row(922582800, 3600, 3600, "CEST")
          }
         } else {
          if i < 43 {
           Table::row(941331600, 3600, 0, "CET")
          } else {
           Table::row(954032400, 3600, 3600, "CEST")
          }
         }
        }
       }
      } else {
       if i < 51 {
        if i < 47 {
         if i < 45 {
          Table::row(972781200, 3600, 0, "CET")
         } else {
          if i < 46 {
           Table::row(985482000, 3600, 3600, "CEST")
          } else {
           Table::row(1004230800, 3600, 0, "CET")
          }
         }
        } else {
         if i < 49 {
          if i < 48 {
           Table::row(1017536400, 3600, 3600, "CEST")
          } else {
           Table::row(1035680400, 3600, 0, "CET")
          }
         } else {
          if i < 50 {
           Table::row(1048986000, 3600, 3600, "CEST")
          } else {
           Table::row(1067130000, 3600, 0, "CET")
          }
         }
        }
       } else {
        if i < 55 {
         if i < 53 {
          if i < 52 {
           Table::row(1080435600, 3600, 3600, "CEST")
          } else {
           Table::row(1099184400, 3600, 0, "CET")
          }
         } else {
          if i < 54 {
           Table::row(1111885200, 3600, 3600, "CEST")
          } else {
           Table::row(1130634000, 3600, 0, "CET")
          }
         }
        } else {
         if i < 57 {
          if i < 56 {
           Table::row(1143334800, 3600, 3600, "CEST")
          } else {
           Table::row(1162083600, 3600, 0, "CET")
          }
         } else {
          if i < 58 {
           Table::row(1174784400, 3600, 3600, "CEST")
          } else {
           Table::row(1193533200, 3600, 0, "CET")
          }
         }
        }
       }
      }
     }
    } else {
     if i < 89 {
      if i < 74 {
       if i < 66 {
        if i < 62 {
         if i < 60 {
          Table::row(1206838800, 3600, 3600, "CEST")
         } else {
          if i < 61 {
           Table::row(1224982800, 3600, 0, "CET")
          } else {
           Table::row(1238288400, 3600, 3600, "CEST")
          }
         }
        } else {
         if i < 64 {
          if i < 63 {
           Table::row(1256432400, 3600, 0, "CET")
          } else {
           Table::row(1269738000, 3600, 3600, "CEST")
          }
         } else {
          if i < 65 {
           Table::row(1288486800, 3600, 0, "CET")
          } else {
           Table::row(1301187600, 3600, 3600, "CEST")
          }
         }
        }
       } else {
        if i < 70 {
         if i < 68 {
          if i < 67 {
           Table::row(1319936400, 3600, 0, "CET")
          } else {
           Table::row(1332637200, 3600, 3600, "CEST")
          }
         } else {
          if i < 69 {
           Table::row(1351386000, 3600, 0, "CET")
          } else {
           Table::row(1364691600, 3600, 3600, "CEST")
          }
         }
        } else {
         if i < 72 {
          if i < 71 {
           Table::row(1382835600, 3600, 0, "CET")
          } else {
           Table::row(1396141200, 3600, 3600, "CEST")
          }
         } else {
          if i < 73 {
           Table::row(1414285200, 3600, 0, "CET")
          } else {
           Table::row(1427590800, 3600, 3600, "CEST")
          }
         }
        }
       }
      } else {
       if i < 81 {
        if i < 77 {
         if i < 75 {
          Table::row(1445734800, 3600, 0, "CET")
         } else {
          if i < 76 {
           Table::row(1459040400, 3600, 3600, "CEST")
          } else {
           Table::row(1477789200, 3600, 0, "CET")
          }
         }
        } else {
         if i < 79 {
          if i < 78 {
           Table::row(1490490000, 3600, 3600, "CEST")
          } else {
           Table::row(1509238800, 3600, 0, "CET")
          }
         } else {
          if i < 80 {
           Table::row(1521939600, 3600, 3600, "CEST")
          } else {
           Table::row(1540688400, 3600, 0, "CET")
          }
         }
        }
       } else {
        if i < 85 {
         if i < 83 {
          if i < 82 {
           Table::row(1553994000, 3600, 3600, "CEST")
          } else {
           Table::row(1572138000, 3600, 0, "CET")
          }
         } else {
          if i < 84 {
           Table::row(1585443600, 3600, 3600, "CEST")
          } else {
           Table::row(1603587600, 3600, 0, "CET")
          }
         }
        } else {
         if i < 87 {
          if i < 86 {
           Table::row(1616893200, 3600, 3600, "CEST")
          } else {
           Table::row(1635642000, 3600, 0, "CET")
          }
         } else {
          if i < 88 {
           Table::row(1648342800, 3600, 3600, "CEST")
          } else {
           Table::row(1667091600, 3600, 0, "CET")
          }
         }
        }
       }
      }
     } else {
      if i < 104 {
       if i < 96 {
        if i < 92 {
         if i < 90 {
          Table::row(1679792400, 3600, 3600, "CEST")
         } else {
          if i < 91 {
           Table::row(1698541200, 3600, 0, "CET")
          } else {
           Table::row(1711846800, 3600, 3600, "CEST")
          }
         }
        } else {
         if i < 94 {
          if i < 93 {
           Table::row(1729990800, 3600, 0, "CET")
          } else {
           Table::row(1743296400, 3600, 3600, "CEST")
          }
         } else {
          if i < 95 {
           Table::row(1761440400, 3600, 0, "CET")
          } else {
           Table::row(1774746000, 3600, 3600, "CEST")
          }
         }
        }
       } else {
        if i < 100 {
         if i < 98 {
          if i < 97 {
           Table::row(1792890000, 3600, 0, "CET")
          } else {
           Table::row(1806195600, 3600, 3600, "CEST")
          }
         } else {
          if i < 99 {
           Table::row(1824944400, 3600, 0, "CET")
          } else {
           Table::row(1837645200, 3600, 3600, "CEST")
          }
         }
        } else {
         if i < 102 {
          if i < 101 {
           Table::row(1856394000, 3600, 0, "CET")
          } else {
           Table::row(1869094800, 3600, 3600, "CEST")
          }
         } else {
          if i < 103 {
           Table::row(1887843600, 3600, 0, "CET")
          } else {
           Table::row(1901149200, 3600, 3600, "CEST")
          }
         }
        }
       }
      } else {
       if i < 111 {
        if i < 107 {
         if i < 105 {
          Table::row(1919293200, 3600, 0, "CET")
         } else {
          if i < 106 {
           Table::row(1932598800, 3600, 3600, "CEST")
          } else {
           Table::row(1950742800, 3600, 0, "CET")
          }
         }
        } else {
         if i < 109 {
          if i < 108 {
           Table::row(1964048400, 3600, 3600, "CEST")
          } else {
           Table::row(1982797200, 3600, 0, "CET")
          }
         } else {
          if i < 110 {
           Table::row(1995498000, 3600, 3600, "CEST")
          } else {
           Table::row(2014246800, 3600, 0, "CET")
          }
         }
        }
       } else {
        if i < 115 {
         if i < 113 {
          if i < 112 {
           Table::row(2026947600, 3600, 3600, "CEST")
          } else {
           Table::row(2045696400, 3600, 0, "CET")
          }
         } else {
          if i < 114 {
           Table::row(2058397200, 3600, 3600, "CEST")
          } else {
           Table::row(2077146000, 3600, 0, "CET")
          }
         }
        } else {
         if i < 117 {
          if i < 116 {
           Table::row(2090451600, 3600, 3600, "CEST")
          } else {
           Table::row(2108595600, 3600, 0, "CET")
          }
         } else {
          if i < 118 {
           Table::row(2121901200, 3600, 3600, "CEST")
          } else {
           Table::row(2140045200, 3600, 0, "CET")
          }
         }
        }
       }
      }
     }
    }
}

/// The rows of the table of the zone `Europe/Ljubljana`.
pub open spec fn ljubljana_rows() -> spec_fn(int) -> (i64, FixedTimespan) {
    |i: int| ljubljana_row(i)
}

/// The table of the zone `Europe/Ljubljana`.
pub open spec fn ljubljana() -> Table {
    Table::listed(Table::row(0, 3484, 0, "LMT").1, 119, ljubljana_rows())
}

/// Row `i` of the table of the zone `Europe/London`.
pub open spec fn london_row(i: int) -> (i64, FixedTimespan) {
    if i < 121 {
     if i < 60 {
      if i < 30 {
       if i < 15 {
        if i < 7 {
         if i < 3 {
          if i < 1 {
           Table::row(-3852662325, 0, 0, "GMT")
          } else {
           if i < 2 {
            Table::row(-1691964000, 0, 3600, "BST")
           } else {
            Table::row(-1680472800, 0, 0, "GMT")
           }
          }
         } else {
          if i < 5 {
           if i < 4 {
            Table::row(-1664143200, 0, 3600, "BST")
           } else {
            Table::row(-1650146400, 0, 0, "GMT")
           }
          } else {
           if i < 6 {
            Table::row(-1633903200, 0, 3600, "BST")
           } else {
            Table::row(-1617487200, 0, 0, "GMT")
           }
          }
         }
        } else {
         if i < 11 {
          if i < 9 {
           if i < 8 {
            Table::row(-1601848800, 0, 3600, "BST")
           } else {
            Table::row(-1586037600, 0, 0, "GMT")
           }
          } else {
           if i < 10 {
            Table::row(-1570399200, 0, 3600, "BST")
           } else {
            Table::row(-1552168800, 0, 0, "GMT")
           }
          }
         } else {
          if i < 13 {
           if i < 12 {
            Table::row(-1538344800, 0, 3600, "BST")
           } else {
            Table::row(-1522533600, 0, 0, "GMT")
           }
          } else {
           if i < 14 {
            Table::row(-1507500000, 0, 3600, "BST")
           } else {
            Table::row(-1490565600, 0, 0, "GMT")
           }
          }
         }
        }
       } else {
        if i < 22 {
         if i < 18 {
          if i < 16 {
           Table::row(-1473631200, 0, 3600, "BST")
          } else {
           if i < 17 {
            Table::row(-1460930400, 0, 0, "GMT")
           } else {
            Table::row(-1442786400, 0, 3600, "BST")
           }
          }
         } else {
          if i < 20 {
           if i < 19 {
            Table::row(-1428876000, 0, 0, "GMT")
           } else {
            Table::row(-1410732000, 0, 3600, "BST")
           }
          } else {
           if i < 21 {
            Table::row(-1396216800, 0, 0, "GMT")
           } else {
            Table::row(-1379282400, 0, 3600, "BST")
           }
          }
         }
        } else {
         if i < 26 {
          if i < 24 {
           if i < 23 {
            Table::row(-1364767200, 0, 0, "GMT")
           } else {
            Table::row(-1348437600, 0, 3600, "BST")
           }
          } else {
           if i < 25 {
            Table::row(-1333317600, 0, 0, "GMT")
           } else {
            Table::row(-1315778400, 0, 3600, "BST")
           }
          }
         } else {
          if i < 28 {
           if i < 27 {
            Table::row(-1301263200, 0, 0, "GMT")
           } else {
            Table::row(-1284328800, 0, 3600, "BST")
           }
          } else {
           if i < 29 {
            Table::row(-1269813600, 0, 0, "GMT")
           } else {
            Table::row(-1253484000, 0, 3600, "BST")
           }
          }
         }
        }
       }
      } else {
       if i < 45 {
        if i < 37 {
         if i < 33 {
          if i < 31 {
           Table::row(-1238364000, 0, 0, "GMT")
          } else {
           if i < 32 {
            Table::row(-1221429600, 0, 3600, "BST")
           } else {
            Table::row(-1206914400, 0, 0, "GMT")
           }
          }
         } else {
          if i < 35 {
           if i < 34 {
            Table::row(-1189980000, 0, 3600, "BST")
           } else {
            Table::row(-1175464800, 0, 0, "GMT")
           }
          } else {
           if i < 36 {
            Table::row(-1159135200, 0, 3600, "BST")
           } else {
            Table::row(-1143410400, 0, 0, "GMT")
           }
          }
         }
        } else {
         if i < 41 {
          if i < 39 {
           if i < 38 {
            Table::row(-1126476000, 0, 3600, "BST")
           } else {
            Table::row(-1111960800, 0, 0, "GMT")
           }
          } else {
           if i < 40 {
            Table::row(-1095631200, 0, 3600, "BST")
           } else {
            Table::row(-1080511200, 0, 0, "GMT")
           }
          }
         } else {
          if i < 43 {
           if i < 42 {
            Table::row(-1063576800, 0, 3600, "BST")
           } else {
            Table::row(-1049061600, 0, 0, "GMT")
           }
          } else {
           if i < 44 {
            Table::row(-1032127200, 0, 3600, "BST")
           } else {
            Table::row(-1017612000, 0, 0, "GMT")
           }
          }
         }
        }
       } else {
        if i < 52 {
         if i < 48 {
          if i < 46 {
           Table::row(-1001282400, 0, 3600, "BST")
          } else {
           if i < 47 {
            Table::row(-986162400, 0, 0, "GMT")
           } else {
            Table::row(-969228000, 0, 3600, "BST")
           }
          }
         } else {
          if i < 50 {
           if i < 49 {
            Table::row(-950479200, 0, 0, "GMT")
           } else {
            Table::row(-942012000, 0, 3600, "BST")
           }
          } else {
           if i < 51 {
            Table::row(-904518000, 0, 7200, "BDST")
           } else {
            Table::row(-896050800, 0, 3600, "BST")
           }
          }
         }
        } else {
         if i < 56 {
          if i < 54 {
           if i < 53 {
            Table::row(-875487600, 0, 7200, "BDST")
           } else {
            Table::row(-864601200, 0, 3600, "BST")
           }
          } else {
           if i < 55 {
            Table::row(-844038000, 0, 7200, "BDST")
           } else {
            Table::row(-832546800, 0, 3600, "BST")
           }
          }
         } else {
          if i < 58 {
           if i < 57 {
            Table::row(-812588400, 0, 7200, "BDST")
           } else {
            Table::row(-798073200, 0, 3600, "BST")
           }
          } else {
           if i < 59 {
            Table::row(-781052400, 0, 7200, "BDST")
           } else {
            Table::row(-772066800, 0, 3600, "BST")
           }
          }
         }
        }
       }
      }
     } else {
      if i < 90 {
       if i < 75 {
        if i < 67 {
         if i < 63 {
          if i < 61 {
           Table::row(-764805600, 0, 0, "GMT")
          } else {
           if i < 62 {
            Table::row(-748476000, 0, 3600, "BST")
           } else {
            Table::row(-733356000, 0, 0, "GMT")
           }
          }
         } else {
          if i < 65 {
           if i < 64 {
            Table::row(-719445600, 0, 3600, "BST")
           } else {
            Table::row(-717030000, 0, 7200, "BDST")
           }
          } else {
           if i < 66 {
            Table::row(-706748400, 0, 3600, "BST")
           } else {
            Table::row(-699487200, 0, 0, "GMT")
           }
          }
         }
        } else {
         if i < 71 {
          if i < 69 {
           if i < 68 {
            Table::row(-687996000, 0, 3600, "BST")
           } else {
            Table::row(-668037600, 0, 0, "GMT")
           }
          } else {
           if i < 70 {
            Table::row(-654732000, 0, 3600, "BST")
           } else {
            Table::row(-636588000, 0, 0, "GMT")
           }
          }
         } else {
          if i < 73 {
           if i < 72 {
            Table::row(-622072800, 0, 3600, "BST")
           } else {
            Table::row(-605743200, 0, 0, "GMT")
           }
          } else {
           if i < 74 {
            Table::row(-590623200, 0, 3600, "BST")
           } else {
            Table::row(-574293600, 0, 0, "GMT")
           }
          }
         }
        }
       } else {
        if i < 82 {
         if i < 78 {
          if i < 76 {
           Table::row(-558568800, 0, 3600, "BST")
          } else {
           if i < 77 {
            Table::row(-542239200, 0, 0, "GMT")
           } else {
            Table::row(-527119200, 0, 3600, "BST")
           }
          }
         } else {
          if i < 80 {
           if i < 79 {
            Table::row(-512604000, 0, 0, "GMT")
           } else {
            Table::row(-496274400, 0, 3600, "BST")
           }
          } else {
           if i < 81 {
            Table::row(-481154400, 0, 0, "GMT")
           } else {
            Table::row(-464220000, 0, 3600, "BST")
           }
          }
         }
        } else {
         if i < 86 {
          if i < 84 {
           if i < 83 {
            Table::row(-449704800, 0, 0, "GMT")
           } else {
            Table::row(-432165600, 0, 3600, "BST")
           }
          } else {
           if i < 85 {
            Table::row(-417650400, 0, 0, "GMT")
           } else {
            Table::row(-401320800, 0, 3600, "BST")
           }
          }
         } else {
          if i < 88 {
           if i < 87 {
            Table::row(-386200800, 0, 0, "GMT")
           } else {
            Table::row(-369266400, 0, 3600, "BST")
           }
          } else {
           if i < 89 {
            Table::row(-354751200, 0, 0, "GMT")
           } else {
            Table::row(-337816800, 0, 3600, "BST")
           }
          }
         }
        }
       }
      } else {
       if i < 105 {
        if i < 97 {
         if i < 93 {
          if i < 91 {
           Table::row(-323301600, 0, 0, "GMT")
          } else {
           if i < 92 {
            Table::row(-306972000, 0, 3600, "BST")
           } else {
            Table::row(-291852000, 0, 0, "GMT")
           }
          }
         } else {
          if i < 95 {
           if i < 94 {
            Table::row(-276732000, 0, 3600, "BST")
           } else {
            Table::row(-257983200, 0, 0, "GMT")
           }
          } else {
           if i < 96 {
            Table::row(-245282400, 0, 3600, "BST")
           } else {
            Table::row(-226533600, 0, 0, "GMT")
           }
          }
         }
        } else {
         if i < 101 {
          if i < 99 {
           if i < 98 {
            Table::row(-213228000, 0, 3600, "BST")
           } else {
            Table::row(-195084000, 0, 0, "GMT")
           }
          } else {
           if i < 100 {
            Table::row(-182383200, 0, 3600, "BST")
           } else {
            Table::row(-163634400, 0, 0, "GMT")
           }
          }
         } else {
          if i < 103 {
           if i < 102 {
            Table::row(-150933600, 0, 3600, "BST")
           } else {
            Table::row(-132184800, 0, 0, "GMT")
           }
          } else {
           if i < 104 {
            Table::row(-119484000, 0, 3600, "BST")
           } else {
            Table::row(-100735200, 0, 0, "GMT")
           }
          }
         }
        }
       } else {
        if i < 113 {
         if i < 109 {
          if i < 107 {
           if i < 106 {
            Table::row(-88034400, 0, 3600, "BST")
           } else {
            Table::row(-68680800, 0, 0, "GMT")
           }
          } else {
           if i < 108 {
            Table::row(-59004000, 0, 3600, "BST")
           } else {
            Table::row(-37242000, 3600, 0, "BST")
           }
          }
         } else {
          if i < 111 {
           if i < 110 {
            Table::row(57722400, 0, 0, "GMT")
           } else {
            Table::row(69818400, 0, 3600, "BST")
           }
          } else {
           if i < 112 {
            Table::row(89172000, 0, 0, "GMT")
           } else {
            Table::row(101268000, 0, 3600, "BST")
           }
          }
         }
        } else {
         if i < 117 {
          if i < 115 {
           if i < 114 {
            Table::row(120621600, 0, 0, "GMT")
           } else {
            Table::row(132717600, 0, 3600, "BST")
           }
          } else {
           if i < 116 {
            Table::row(152071200, 0, 0, "GMT")
           } else {
            Table::row(164167200, 0, 3600, "BST")
           }
          }
         } else {
          if i < 119 {
           if i < 118 {
            Table::row(183520800, 0, 0, "GMT")
           } else {
            Table::row(196221600, 0, 3600, "BST")
           }
          } else {
           if i < 120 {
            Table::row(214970400, 0, 0, "GMT")
           } else {
            Table::row(227671200, 0, 3600, "BST")
           }
          }
         }
        }
       }
      }
     }
    } else {
     if i < 181 {
      if i < 151 {
       if i < 136 {
        if i < 128 {
         if i < 124 {
          if i < 122 {
           Table::row(246420000, 0, 0, "GMT")
          } else {
           if i < 123 {
            Table::row(259120800, 0, 3600, "BST")
           } else {
            Table::row(278474400, 0, 0, "GMT")
           }
          }
         } else {
          if i < 126 {
           if i < 125 {
            Table::row(290570400, 0, 3600, "BST")
           } else {
            Table::row(309924000, 0, 0, "GMT")
           }
          } else {
           if i < 127 {
            Table::row(322020000, 0, 3600, "BST")
           } else {
            Table::row(341373600, 0, 0, "GMT")
           }
          }
         }
        } else {
         if i < 132 {
          if i < 130 {
           if i < 129 {
            Table::row(354675600, 0, 3600, "BST")
           } else {
            Table::row(372819600, 0, 0, "GMT")
           }
          } else {
           if i < 131 {
            Table::row(386125200, 0, 3600, "BST")
           } else {
            Table::row(404269200, 0, 0, "GMT")
           }
          }
         } else {
          if i < 134 {
           if i < 133 {
            Table::row(417574800, 0, 3600, "BST")
           } else {
            Table::row(435718800, 0, 0, "GMT")
           }
          } else {
           if i < 135 {
            Table::row(449024400, 0, 3600, "BST")
           } else {
            Table::row(467773200, 0, 0, "GMT")
           }
          }
         }
        }
       } else {
        if i < 143 {
         if i < 139 {
          if i < 137 {
           Table::row(481078800, 0, 3600, "BST")
          } else {
           if i < 138 {
            Table::row(499222800, 0, 0, "GMT")
           } else {
            Table::row(512528400, 0, 3600, "BST")
           }
          }
         } else {
          if i < 141 {
           if i < 140 {
            Table::row(530672400, 0, 0, "GMT")
           } else {
            Table::row(543978000, 0, 3600, "BST")
           }
          } else {
           if i < 142 {
            Table::row(562122000, 0, 0, "GMT")
           } else {
            Table::row(575427600, 0, 3600, "BST")
           }
          }
         }
        } else {
         if i < 147 {
          if i < 145 {
           if i < 144 {
            Table::row(593571600, 0, 0, "GMT")
           } else {
            Table::row(606877200, 0, 3600, "BST")
           }
          } else {
           if i < 146 {
            Table::row(625626000, 0, 0, "GMT")
           } else {
            Table::row(638326800, 0, 3600, "BST")
           }
          }
         } else {
          if i < 149 {
           if i < 148 {
            Table::row(657075600, 0, 0, "GMT")
           } else {
            Table::row(670381200, 0, 3600, "BST")
           }
          } else {
           if i < 150 {
            Table::row(688525200, 0, 0, "GMT")
           } else {
            Table::row(701830800, 0, 3600, "BST")
           }
          }
         }
        }
       }
      } else {
       if i < 166 {
        if i < 158 {
         if i < 154 {
          if i < 152 {
           Table::row(719974800, 0, 0, "GMT")
          } else {
           if i < 153 {
            Table::row(733280400, 0, 3600, "BST")
           } else {
            Table::row(751424400, 0, 0, "GMT")
           }
          }
         } else {
          if i < 156 {
           if i < 155 {
            Table::row(764730000, 0, 3600, "BST")
           } else {
            Table::row(782874000, 0, 0, "GMT")
           }
          } else {
           if i < 157 {
            Table::row(796179600, 0, 3600, "BST")
           } else {
            Table::row(814323600, 0, 0, "GMT")
           }
          }
         }
        } else {
         if i < 162 {
          if i < 160 {
           if i < 159 {
            Table::row(828234000, 0, 3600, "BST")
           } else {
            Table::row(846378000, 0, 0, "GMT")
           }
          } else {
           if i < 161 {
            Table::row(859683600, 0, 3600, "BST")
           } else {
            Table::row(877827600, 0, 0, "GMT")
           }
          }
         } else {
          if i < 164 {
           if i < 163 {
            Table::row(891133200, 0, 3600, "BST")
           } else {
            Table::row(909277200, 0, 0, "GMT")
           }
          } else {
           if i < 165 {
            Table::row(922582800, 0, 3600, "BST")
           } else {
            Table::row(941331600, 0, 0, "GMT")
           }
          }
         }
        }
       } else {
        if i < 173 {
         if i < 169 {
          if i < 167 {
           Table::row(954032400, 0, 3600, "BST")
          } else {
           if i < 168 {
            Table::row(972781200, 0, 0, "GMT")
           } else {
            Table::row(985482000, 0, 3600, "BST")
           }
          }
         } else {
          if i < 171 {
           if i < 170 {
            Table::row(1004230800, 0, 0, "GMT")
           } else {
            Table::row(1017536400, 0, 3600, "BST")
           }
          } else {
           if i < 172 {
            Table::row(1035680400, 0, 0, "GMT")
           } else {
            Table::row(1048986000, 0, 3600, "BST")
           }
          }
         }
        } else {
         if i < 177 {
          if i < 175 {
           if i < 174 {
            Table::row(1067130000, 0, 0, "GMT")
           } else {
            Table::row(1080435600, 0, 3600, "BST")
           }
          } else {
           if i < 176 {
            Table::row(1099184400, 0, 0, "GMT")
           } else {
            Table::row(1111885200, 0, 3600, "BST")
           }
          }
         } else {
          if i < 179 {
           if i < 178 {
            Table::row(1130634000, 0, 0, "GMT")
           } else {
            Table::row(1143334800, 0, 3600, "BST")
           }
          } else {
           if i < 180 {
            Table::row(1162083600, 0, 0, "GMT")
           } else {
            Table::row(1174784400, 0, 3600, "BST")
           }
          }
         }
        }
       }
      }
     } else {
      if i < 211 {
       if i < 196 {
        if i < 188 {
         if i < 184 {
          if i < 182 {
           Table::row(1193533200, 0, 0, "GMT")
          } else {
           if i < 183 {
            Table::row(1206838800, 0, 3600, "BST")
           } else {
            Table::row(1224982800, 0, 0, "GMT")
           }
          }
         } else {
          if i < 186 {
           if i < 185 {
            Table::row(1238288400, 0, 3600, "BST")
           } else {
            Table::row(1256432400, 0, 0, "GMT")
           }
          } else {
           if i < 187 {
            Table::row(1269738000, 0, 3600, "BST")
           } else {
            Table::row(1288486800, 0, 0, "GMT")
           }
          }
         }
        } else {
         if i < 192 {
          if i < 190 {
           if i < 189 {
            Table::row(1301187600, 0, 3600, "BST")
           } else {
            Table::row(1319936400, 0, 0, "GMT")
           }
          } else {
           if i < 191 {
            Table::row(1332637200, 0, 3600, "BST")
           } else {
            Table::row(1351386000, 0, 0, "GMT")
           }
          }
         } else {
          if i < 194 {
           if i < 193 {
            Table::row(1364691600, 0, 3600, "BST")
           } else {
            Table::row(1382835600, 0, 0, "GMT")
           }
          } else {
           if i < 195 {
            Table::row(1396141200, 0, 3600, "BST")
           } else {
            Table::row(1414285200, 0, 0, "GMT")
           }
          }
         }
        }
       } else {
        if i < 203 {
         if i < 199 {
          if i < 197 {
           Table::row(1427590800, 0, 3600, "BST")
          } else {
           if i < 198 {
            Table::row(1445734800, 0, 0, "GMT")
           } else {
            Table::row(1459040400, 0, 3600, "BST")
           }
          }
         } else {
          if i < 201 {
           if i < 200 {
            Table::row(1477789200, 0, 0, "GMT")
           } else {
            Table::row(1490490000, 0, 3600, "BST")
           }
          } else {
           if i < 202 {
            Table::row(1509238800, 0, 0, "GMT")
           } else {
            Table::row(1521939600, 0, 3600, "BST")
           }
          }
         }
        } else {
         if i < 207 {
          if i < 205 {
           if i < 204 {
            Table::row(1540688400, 0, 0, "GMT")
           } else {
            Table::row(1553994000, 0, 3600, "BST")
           }
          } else {
           if i < 206 {
            Table::row(1572138000, 0, 0, "GMT")
           } else {
            Table::row(1585443600, 0, 3600, "BST")
           }
          }
         } else {
          if i < 209 {
           if i < 208 {
            Table::row(1603587600, 0, 0, "GMT")
           } else {
            Table::row(1616893200, 0, 3600, "BST")
           }
          } else {
           if i < 210 {
            Table::row(1635642000, 0, 0, "GMT")
           } else {
            Table::row(1648342800, 0, 3600, "BST")
           }
          }
         }
        }
       }
      } else {
       if i < 226 {
        if i < 218 {
         if i < 214 {
          if i < 212 {
           Table::row(1667091600, 0, 0, "GMT")
          } else {
           if i < 213 {
            Table::row(1679792400, 0, 3600, "BST")
           } else {
            Table::row(1698541200, 0, 0, "GMT")
           }
          }
         } else {
          if i < 216 {
           if i < 215 {
            Table::row(1711846800, 0, 3600, "BST")
           } else {
            Table::row(1729990800, 0, 0, "GMT")
           }
          } else {
           if i < 217 {
            Table::row(1743296400, 0, 3600, "BST")
           } else {
            Table::row(1761440400, 0, 0, "GMT")
           }
          }
         }
        } else {
         if i < 222 {
          if i < 220 {
           if i < 219 {
            Table::row(1774746000, 0, 3600, "BST")
           } else {
            Table::row(1792890000, 0, 0, "GMT")
           }
          } else {
           if i < 221 {
            Table::row(1806195600, 0, 3600, "BST")
           } else {
            Table::row(1824944400, 0, 0, "GMT")
           }
          }
         } else {
          if i < 224 {
           if i < 223 {
            Table::row(1837645200, 0, 3600, "BST")
           } else {
            Table::row(1856394000, 0, 0, "GMT")
           }
          } else {
           if i < 225 {
            Table::row(1869094800, 0, 3600, "BST")
           } else {
            Table::row(1887843600, 0, 0, "GMT")
           }
          }
         }
        }
       } else {
        if i < 234 {
         if i < 230 {
          if i < 228 {
           if i < 227 {
            Table::row(1901149200, 0, 3600, "BST")
           } else {
            Table::row(1919293200, 0, 0, "GMT")
           }
          } else {
           if i < 229 {
            Table::row(1932598800, 0, 3600, "BST")
           } else {
            Table::row(1950742800, 0, 0, "GMT")
           }
          }
         } else {
          if i < 232 {
           if i < 231 {
            Table::row(1964048400, 0, 3600, "BST")
           } else {
            Table::row(1982797200, 0, 0, "GMT")
           }
          } else {
           if i < 233 {
            Table::row(1995498000, 0, 3600, "BST")
           } else {
            Table::row(2014246800, 0, 0, "GMT")
           }
          }
         }
        } else {
         if i < 238 {
          if i < 236 {
           if i < 235 {
            Table::row(2026947600, 0, 3600, "BST")
           } else {
            Table::row(2045696400, 0, 0, "GMT")
           }
          } else {
           if i < 237 {
            Table::row(2058397200, 0, 3600, "BST")
           } else {
            Table::row(2077146000, 0, 0, "GMT")
           }
          }
         } else {
          if i < 240 {
           if i < 239 {
            Table::row(2090451600, 0, 3600, "BST")
           } else {
            Table::row(2108595600, 0, 0, "GMT")
           }
          } else {
           if i < 241 {
            Table::row(2121901200, 0, 3600, "BST")
           } else {
            Table::row(2140045200, 0, 0, "GMT")
           }
          }
         }
        }
       }
      }
     }
    }
}

/// The rows of the table of the zone `Europe/London`.
pub open spec fn london_rows() -> spec_fn(int) -> (i64, FixedTimespan) {
    |i: int| london_row(i)
}

/// The table of the zone `Europe/London`.
pub open spec fn london() -> Table {
    Table::listed(Table::row(0, -75, 0, "LMT").1, 242, london_rows())
}

/// Row `i` of the table of the zone `Europe/Luxembourg`.
pub open spec fn luxembourg_row(i: int) -> (i64, FixedTimespan) {
    if i < 91 {
     if i < 45 {
      if i < 22 {
       if i < 11 {
        if i < 5 {
         if i < 2 {
          if i < 1 {
           Table::row(-2069713476, 3600, 0, "CET")
          } else {
           Table::row(-1692496800, 3600, 3600, "CEST")
          }
         } else {
          if i < 3 {
           Table::row(-1680483600, 3600, 0, "CET")
          } else {
           if i < 4 {
            Table::row(-1662343200, 3600, 3600, "CEST")
           } else {
            Table::row(-1650157200, 3600, 0, "CET")
           }
          }
         }
        } else {
         if i < 8 {
          if i < 6 {
           Table::row(-1632006000, 3600, 3600, "CEST")
          } else {
           if i < 7 {
            Table::row(-1618700400, 3600, 0, "CET")
           } else {
            Table::row(-1612659600, 0, 0, "WET")
           }
          }
         } else {
          if i < 9 {
           Table::row(-1604278800, 0, 3600, "WEST")
          } else {
           if i < 10 {
            Table::row(-1585519200, 0, 0, "WET")
           } else {
            Table::row(-1574038800, 0, 3600, "WEST")
           }
          }
         }
        }
       } else {
        if i < 16 {
         if i < 13 {
          if i < 12 {
           Table::row(-1552258800, 0, 0, "WET")
          } else {
           Table::row(-1539997200, 0, 3600, "WEST")
          }
         } else {
          if i < 14 {
           Table::row(-1520550000, 0, 0, "WET")
          } else {
           if i < 15 {
            Table::row(-1507510800, 0, 3600, "WEST")
           } else {
            Table::row(-1490572800, 0, 0, "WET")
           }
          }
         }
        } else {
         if i < 19 {
          if i < 17 {
           Table::row(-1473642000, 0, 3600, "WEST")
          } else {
           if i < 18 {
            Table::row(-1459119600, 0, 0, "WET")
           } else {
            Table::row(-1444006800, 0, 3600, "WEST")
           }
          }
         } else {
          if i < 20 {
           Table::row(-1427673600, 0, 0, "WET")
          } else {
           if i < 21 {
            Table::row(-1411866000, 0, 3600, "WEST")
           } else {
            Table::row(-1396224000, 0, 0, "WET")
           }
          }
         }
        }
       }
      } else {
       if i < 33 {
        if i < 27 {
         if i < 24 {
          if i < 23 {
           Table::row(-1379293200, 0, 3600, "WEST")
          } else {
           Table::row(-1364774400, 0, 0, "WET")
          }
         } else {
          if i < 25 {
           Table::row(-1348448400, 0, 3600, "WEST")
          } else {
           if i < 26 {
            Table::row(-1333324800, 0, 0, "WET")
           } else {
            Table::row(-1316394000, 0, 3600, "WEST")
           }
          }
         }
        } else {
         if i < 30 {
          if i < 28 {
           Table::row(-1301270400, 0, 0, "WET")
          } else {
           if i < 29 {
            Table::row(-1284339600, 0, 3600, "WEST")
           } else {
            Table::row(-1269813600, 0, 0, "WET")
           }
          }
         } else {
          if i < 31 {
           Table::row(-1253484000, 0, 3600, "WEST")
          } else {
           if i < 32 {
            Table::row(-1238364000, 0, 0, "WET")
           } else {
            Table::row(-1221429600, 0, 3600, "WEST")
           }
          }
         }
        }
       } else {
        if i < 39 {
         if i < 36 {
          if i < 34 {
           Table::row(-1206914400, 0, 0, "WET")
          } else {
           if i < 35 {
            Table::row(-1191189600, 0, 3600, "WEST")
           } else {
            Table::row(-1175464800, 0, 0, "WET")
           }
          }
         } else {
          if i < 37 {
           Table::row(-1160344800, 0, 3600, "WEST")
          } else {
           if i < 38 {
            Table::row(-1143410400, 0, 0, "WET")
           } else {
            Table::row(-1127685600, 0, 3600, "WEST")
           }
          }
         }
        } else {
         if i < 42 {
          if i < 40 {
           Table::row(-1111960800, 0, 0, "WET")
          } else {
           if i < 41 {
            Table::row(-1096840800, 0, 3600, "WEST")
           } else {
            Table::row(-1080511200, 0, 0, "WET")
           }
          }
         } else {
          if i < 43 {
           Table::row(-1063576800, 0, 3600, "WEST")
          } else {
           if i < 44 {
            Table::row(-1049061600, 0, 0, "WET")
           } else {
            Table::row(-1033336800, 0, 3600, "WEST")
           }
          }
         }
        }
       }
      }
     } else {
      if i < 68 {
       if i < 56 {
        if i < 50 {
         if i < 47 {
          if i < 46 {
           Table::row(-1017612000, 0, 0, "WET")
          } else {
           Table::row(-1002492000, 0, 3600, "WEST")
          }
         } else {
          if i < 48 {
           Table::row(-986162400, 0, 0, "WET")
          } else {
           if i < 49 {
            Table::row(-969228000, 0, 3600, "WEST")
           } else {
            Table::row(-950479200, 0, 0, "WET")
           }
          }
         }
        } else {
         if i < 53 {
          if i < 51 {
           Table::row(-942012000, 0, 3600, "WEST")
          } else {
           if i < 52 {
            Table::row(-935186400, 0, 7200, "WEST")
           } else {
            Table::row(-857257200, 3600, 0, "WET")
           }
          }
         } else {
          if i < 54 {
           Table::row(-844556400, 3600, 3600, "WEST")
          } else {
           if i < 55 {
            Table::row(-828226800, 3600, 0, "WET")
           } else {
            Table::row(-812502000, 3600, 3600, "WEST")
           }
          }
         }
        }
       } else {
        if i < 62 {
         if i < 59 {
          if i < 57 {
           Table::row(-797986800, 3600, 0, "CET")
          } else {
           if i < 58 {
            Table::row(-781052400, 3600, 3600, "CEST")
           } else {
            Table::row(-766623600, 3600, 0, "CET")
           }
          }
         } else {
          if i < 60 {
           Table::row(-745455600, 3600, 3600, "CEST")
          } else {
           if i < 61 {
            Table::row(-733273200, 3600, 0, "CET")
           } else {
            Table::row(228877200, 3600, 3600, "CEST")
           }
          }
         }
        } else {
         if i < 65 {
          if i < 63 {
           Table::row(243997200, 3600, 0, "CET")
          } else {
           if i < 64 {
            Table::row(260326800, 3600, 3600, "CEST")
           } else {
            Table::row(276051600, 3600, 0, "CET")
           }
          }
         } else {
          if i < 66 {
           Table::row(291776400, 3600, 3600, "CEST")
          } else {
           if i < 67 {
            Table::row(307501200, 3600, 0, "CET")
           } else {
            Table::row(323830800, 3600, 3600, "CEST")
           }
          }
         }
        }
       }
      } else {
       if i < 79 {
        if i < 73 {
         if i < 70 {
          if i < 69 {
           Table::row(338950800, 3600, 0, "CET")
          } else {
           Table::row(354675600, 3600, 3600, "CEST")
          }
         } else {
          if i < 71 {
           Table::row(370400400, 3600, 0, "CET")
          } else {
           if i < 72 {
            Table::row(386125200, 3600, 3600, "CEST")
           } else {
            Table::row(401850000, 3600, 0, "CET")
           }
          }
         }
        } else {
         if i < 76 {
          if i < 74 {
           Table::row(417574800, 3600, 3600, "CEST")
          } else {
           if i < 75 {
            Table::row(433299600, 3600, 0, "CET")
           } else {
            Table::row(449024400, 3600, 3600, "CEST")
           }
          }
         } else {
          if i < 77 {
           Table::row(465354000, 3600, 0, "CET")
          } else {
           if i < 78 {
            Table::row(481078800, 3600, 3600, "CEST")
           } else {
            Table::row(496803600, 3600, 0, "CET")
           }
          }
         }
        }
       } else {
        if i < 85 {
         if i < 82 {
          if i < 80 {
           Table::row(512528400, 3600, 3600, "CEST")
          } else {
           if i < 81 {
            Table::row(528253200, 3600, 0, "CET")
           } else {
            Table::row(543978000, 3600, 3600, "CEST")
           }
          }
         } else {
          if i < 83 {
           Table::row(559702800, 3600, 0, "CET")
          } else {
           if i < 84 {
            Table::row(575427600, 3600, 3600, "CEST")
           } else {
            Table::row(591152400, 3600, 0, "CET")
           }
          }
         }
        } else {
         if i < 88 {
          if i < 86 {
           Table::row(606877200, 3600, 3600, "CEST")
          } else {
           if i < 87 {
            Table::row(622602000, 3600, 0, "CET")
           } else {
            Table::row(638326800, 3600, 3600, "CEST")
           }
          }
         } else {
          if i < 89 {
           Table::row(654656400, 3600, 0, "CET")
          } else {
           if i < 90 {
            Table::row(670381200, 3600, 3600, "CEST")
           } else {
            Table::row(686106000, 3600, 0, "CET")
           }
          }
         }
        }
       }
      }
     }
    } else {
     if i < 137 {
      if i < 114 {
       if i < 102 {
        if i < 96 {
         if i < 93 {
          if i < 92 {
           Table::row(701830800, 3600, 3600, "CEST")
          } else {
           Table::row(717555600, 3600, 0, "CET")
          }
         } else {
          if i < 94 {
           Table::row(733280400, 3600, 3600, "CEST")
          } else {
           if i < 95 {
            Table::row(749005200, 3600, 0, "CET")
           } else {
            Table::row(764730000, 3600, 3600, "CEST")
           }
          }
         }
        } else {
         if i < 99 {
          if i < 97 {
           Table::row(780454800, 3600, 0, "CET")
          } else {
           if i < 98 {
            Table::row(796179600, 3600, 3600, "CEST")
           } else {
            Table::row(811904400, 3600, 0, "CET")
           }
          }
         } else {
          if i < 100 {
           Table::row(828234000, 3600, 3600, "CEST")
          } else {
           if i < 101 {
            Table::row(846378000, 3600, 0, "CET")
           } else {
            Table::row(859683600, 3600, 3600, "CEST")
           }
          }
         }
        }
       } else {
        if i < 108 {
         if i < 105 {
          if i < 103 {
           Table::row(877827600, 3600, 0, "CET")
          } else {
           if i < 104 {
            Table::row(891133200, 3600, 3600, "CEST")
           } else {
            Table::row(909277200, 3600, 0, "CET")
           }
          }
         } else {
          if i < 106 {
           Table::row(922582800, 3600, 3600, "CEST")
          } else {
           if i < 107 {
            Table::row(941331600, 3600, 0, "CET")
           } else {
            Table::row(954032400, 3600, 3600, "CEST")
           }
          }
         }
        } else {
         if i < 111 {
          if i < 109 {
           Table::row(972781200, 3600, 0, "CET")
          } else {
           if i < 110 {
            Table::row(985482000, 3600, 3600, "CEST")
           } else {
            Table::row(1004230800, 3600, 0, "CET")
           }
          }
         } else {
          if i < 112 {
           Table::row(1017536400, 3600, 3600, "CEST")
          } else {
           if i < 113 {
            Table::row(1035680400, 3600, 0, "CET")
           } else {
            Table::row(1048986000, 3600, 3600, "CEST")
           }
          }
         }
        }
       }
      } else {
       if i < 125 {
        if i < 119 {
         if i < 116 {
          if i < 115 {
           Table::row(1067130000, 3600, 0, "CET")
          } else {
           Table::row(1080435600, 3600, 3600, "CEST")
          }
         } else {
          if i < 117 {
           Table::row(1099184400, 3600, 0, "CET")
          } else {
           if i < 118 {
            Table::row(1111885200, 3600, 3600, "CEST")
           } else {
            Table::row(1130634000, 3600, 0, "CET")
           }
          }
         }
        } else {
         if i < 122 {
          if i < 120 {
           Table::row(1143334800, 3600, 3600, "CEST")
          } else {
           if i < 121 {
            Table::row(1162083600, 3600, 0, "CET")
           } else {
            Table::row(1174784400, 3600, 3600, "CEST")
           }
          }
         } else {
          if i < 123 {
           Table::row(1193533200, 3600, 0, "CET")
          } else {
           if i < 124 {
            Table::row(1206838800, 3600, 3600, "CEST")
           } else {
            Table::row(1224982800, 3600, 0, "CET")
           }
          }
         }
        }
       } else {
        if i < 131 {
         if i < 128 {
          if i < 126 {
           Table::row(1238288400, 3600, 3600, "CEST")
          } else {
           if i < 127 {
            Table::row(1256432400, 3600, 0, "CET")
           } else {
            Table::row(1269738000, 3600, 3600, "CEST")
           }
          }
         } else {
          if i < 129 {
           Table::row(1288486800, 3600, 0, "CET")
          } else {
           if i < 130 {
            Table::row(1301187600, 3600, 3600, "CEST")
           } else {
            Table::row(1319936400, 3600, 0, "CET")
           }
          }
         }
        } else {
         if i < 134 {
          if i < 132 {
           Table::row(1332637200, 3600, 3600, "CEST")
          } else {
           if i < 133 {
            Table::row(1351386000, 3600, 0, "CET")
           } else {
            Table::row(1364691600, 3600, 3600, "CEST")
           }
          }
         } else {
          if i < 135 {
           Table::row(1382835600, 3600, 0, "CET")
          } else {
           if i < 136 {
            Table::row(1396141200, 3600, 3600, "CEST")
           } else {
            Table::row(1414285200, 3600, 0, "CET")
           }
          }
         }
        }
       }
      }
     } else {
      if i < 160 {
       if i < 148 {
        if i < 142 {
         if i < 139 {
          if i < 138 {
           Table::row(1427590800, 3600, 3600, "CEST")
          } else {
           Table::row(1445734800, 3600, 0, "CET")
          }
         } else {
          if i < 140 {
           Table::row(1459040400, 3600, 3600, "CEST")
          } else {
           if i < 141 {
            Table::row(1477789200, 3600, 0, "CET")
           } else {
            Table::row(1490490000, 3600, 3600, "CEST")
           }
          }
         }
        } else {
         if i < 145 {
          if i < 143 {
           Table::row(1509238800, 3600, 0, "CET")
          } else {
           if i < 144 {
            Table::row(1521939600, 3600, 3600, "CEST")
           } else {
            Table::row(1540688400, 3600, 0, "CET")
           }
          }
         } else {
          if i < 146 {
           Table::row(1553994000, 3600, 3600, "CEST")
          } else {
           if i < 147 {
            Table::row(1572138000, 3600, 0, "CET")
           } else {
            Table::row(1585443600, 3600, 3600, "CEST")
           }
          }
         }
        }
       } else {
        if i < 154 {
         if i < 151 {
          if i < 149 {
           Table::row(1603587600, 3600, 0, "CET")
          } else {
           if i < 150 {
            Table::row(1616893200, 3600, 3600, "CEST")
           } else {
            Table::row(1635642000, 3600, 0, "CET")
           }
          }
         } else {
          if i < 152 {
           Table::row(1648342800, 3600, 3600, "CEST")
          } else {
           if i < 153 {
            Table::row(1667091600, 3600, 0, "CET")
           } else {
            Table::row(1679792400, 3600, 3600, "CEST")
           }
          }
         }
        } else {
         if i < 157 {
          if i < 155 {
           Table::row(1698541200, 3600, 0, "CET")
          } else {
           if i < 156 {
            Table::row(1711846800, 3600, 3600, "CEST")
           } else {
            Table::row(1729990800, 3600, 0, "CET")
           }
          }
         } else {
          if i < 158 {
           Table::row(1743296400, 3600, 3600, "CEST")
          } else {
           if i < 159 {
            Table::row(1761440400, 3600, 0, "CET")
           } else {
            Table::row(1774746000, 3600, 3600, "CEST")
           }
          }
         }
        }
       }
      } else {
       if i < 171 {
        if i < 165 {
         if i < 162 {
          if i < 161 {
           Table::row(1792890000, 3600, 0, "CET")
          } else {
           Table::row(1806195600, 3600, 3600, "CEST")
          }
         } else {
          if i < 163 {
           Table::row(1824944400, 3600, 0, "CET")
          } else {
           if i < 164 {
            Table::row(1837645200, 3600, 3600, "CEST")
           } else {
            Table::row(1856394000, 3600, 0, "CET")
           }
          }
         }
        } else {
         if i < 168 {
          if i < 166 {
           Table::row(1869094800, 3600, 3600, "CEST")
          } else {
           if i < 167 {
            Table::row(1887843600, 3600, 0, "CET")
           } else {
            Table::row(1901149200, 3600, 3600, "CEST")
           }
          }
         } else {
          if i < 169 {
           Table::row(1919293200, 3600, 0, "CET")
          } else {
           if i < 170 {
            Table::row(1932598800, 3600, 3600, "CEST")
           } else {
            Table::row(1950742800, 3600, 0, "CET")
           }
          }
         }
        }
       } else {
        if i < 177 {
         if i < 174 {
          if i < 172 {
           Table::row(1964048400, 3600, 3600, "CEST")
          } else {
           if i < 173 {
            Table::row(1982797200, 3600, 0, "CET")
           } else {
            Table::row(1995498000, 3600, 3600, "CEST")
           }
          }
         } else {
          if i < 175 {
           Table::row(2014246800, 3600, 0, "CET")
          } else {
           if i < 176 {
            Table::row(2026947600, 3600, 3600, "CEST")
           } else {
            Table::row(2045696400, 3600, 0, "CET")
           }
          }
         }
        } else {
         if i < 180 {
          if i < 178 {
           Table::row(2058397200, 3600, 3600, "CEST")
          } else {
           if i < 179 {
            Table::row(2077146000, 3600, 0, "CET")
           } else {
            Table::row(2090451600, 3600, 3600, "CEST")
           }
          }
         } else {
          if i < 181 {
           Table::row(2108595600, 3600, 0, "CET")
          } else {
           if i < 182 {
            Table::row(2121901200, 3600, 3600, "CEST")
           } else {
            Table::row(2140045200, 3600, 0, "CET")
           }
          }
         }
        }
       }
      }
     }
    }
}

/// The rows of the table of the zone `Europe/Luxembourg`.
pub open spec fn luxembourg_rows() -> spec_fn(int) -> (i64, FixedTimespan) {
    |i: int| luxembourg_row(i)
}

/// The table of the zone `Europe/Luxembourg`.
pub open spec fn luxembourg() -> Table {
    Table::listed(Table::row(0, 1476, 0, "LMT").1, 183, luxembourg_rows())
}

/// Row `i` of the table of the zone `Europe/Madrid`.
pub open spec fn madrid_row(i: int) -> (i64, FixedTimespan) {
    if i < 81 {
     if i < 40 {
      if i < 20 {
       if i < 10 {
        if i < 5 {
         if i < 2 {
          if i < 1 {
           Table::row(-2177452800, 0, 0, "WET")
          } else {
           Table::row(-1631926800, 0, 3600, "WEST")
          }
         } else {
          if i < 3 {
           Table::row(-1616889600, 0, 0, "WET")
          } else {
           if i < 4 {
            Table::row(-1601168400, 0, 3600, "WEST")
           } else {
            Table::row(-1585353600, 0, 0, "WET")
           }
          }
         }
        } else {
         if i < 7 {
          if i < 6 {
           Table::row(-1442451600, 0, 3600, "WEST")
          } else {
           Table::row(-1427673600, 0, 0, "WET")
          }
         } else {
          if i < 8 {
           Table::row(-1379293200, 0, 3600, "WEST")
          } else {
           if i < 9 {
            Table::row(-1364774400, 0, 0, "WET")
           } else {
            Table::row(-1348448400, 0, 3600, "WEST")
           }
          }
         }
        }
       } else {
        if i < 15 {
         if i < 12 {
          if i < 11 {
           Table::row(-1333324800, 0, 0, "WET")
          } else {
           Table::row(-1316390400, 0, 3600, "WEST")
          }
         } else {
          if i < 13 {
           Table::row(-1301270400, 0, 0, "WET")
          } else {
           if i < 14 {
            Table::row(-1284339600, 0, 3600, "WEST")
           } else {
            Table::row(-1269820800, 0, 0, "WET")
           }
          }
         }
        } else {
         if i < 17 {
          if i < 16 {
           Table::row(-1026954000, 0, 3600, "WEST")
          } else {
           Table::row(-1017619200, 0, 0, "WET")
          }
         } else {
          if i < 18 {
           Table::row(-1001898000, 0, 3600, "WEST")
          } else {
           if i < 19 {
            Table::row(-999482400, 0, 7200, "WEMT")
           } else {
            Table::row(-986090400, 0, 3600, "WEST")
           }
          }
         }
        }
       }
      } else {
       if i < 30 {
        if i < 25 {
         if i < 22 {
          if i < 21 {
           Table::row(-954115200, 0, 0, "WET")
          } else {
           Table::row(-940208400, 3600, 0, "CET")
          }
         } else {
          if i < 23 {
           Table::row(-873079200, 3600, 3600, "CEST")
          } else {
           if i < 24 {
            Table::row(-862621200, 3600, 0, "CET")
           } else {
            Table::row(-842839200, 3600, 3600, "CEST")
           }
          }
         }
        } else {
         if i < 27 {
          if i < 26 {
           Table::row(-828320400, 3600, 0, "CET")
          } else {
           Table::row(-811389600, 3600, 3600, "CEST")
          }
         } else {
          if i < 28 {
           Table::row(-796870800, 3600, 0, "CET")
          } else {
           if i < 29 {
            Table::row(-779940000, 3600, 3600, "CEST")
           } else {
            Table::row(-765421200, 3600, 0, "CET")
           }
          }
         }
        }
       } else {
        if i < 35 {
         if i < 32 {
          if i < 31 {
           Table::row(-748490400, 3600, 3600, "CEST")
          } else {
           Table::row(-733971600, 3600, 0, "CET")
          }
         } else {
          if i < 33 {
           Table::row(-652327200, 3600, 3600, "CEST")
          } else {
           if i < 34 {
            Table::row(-639018000, 3600, 0, "CET")
           } else {
            Table::row(135122400, 3600, 3600, "CEST")
           }
          }
         }
        } else {
         if i < 37 {
          if i < 36 {
           Table::row(150246000, 3600, 0, "CET")
          } else {
           Table::row(166572000, 3600, 3600, "CEST")
          }
         } else {
          if i < 38 {
           Table::row(181695600, 3600, 0, "CET")
          } else {
           if i < 39 {
            Table::row(196812000, 3600, 3600, "CEST")
           } else {
            Table::row(212540400, 3600, 0, "CET")
           }
          }
         }
        }
       }
      }
     } else {
      if i < 60 {
       if i < 50 {
        if i < 45 {
         if i < 42 {
          if i < 41 {
           Table::row(228866400, 3600, 3600, "CEST")
          } else {
           Table::row(243990000, 3600, 0, "CET")
          }
         } else {
          if i < 43 {
           Table::row(260326800, 3600, 3600, "CEST")
          } else {
           if i < 44 {
            Table::row(276051600, 3600, 0, "CET")
           } else {
            Table::row(291776400, 3600, 3600, "CEST")
           }
          }
         }
        } else {
         if i < 47 {
          if i < 46 {
           Table::row(307501200, 3600, 0, "CET")
          } else {
           Table::row(323830800, 3600, 3600, "CEST")
          }
         } else {
          if i < 48 {
           Table::row(338950800, 3600, 0, "CET")
          } else {
           if i < 49 {
            Table::row(354675600, 3600, 3600, "CEST")
           } else {
            Table::row(370400400, 3600, 0, "CET")
           }
          }
         }
        }
       } else {
        if i < 55 {
         if i < 52 {
          if i < 51 {
           Table::row(386125200, 3600, 3600, "CEST")
          } else {
           Table::row(401850000, 3600, 0, "CET")
          }
         } else {
          if i < 53 {
           Table::row(417574800, 3600, 3600, "CEST")
          } else {
           if i < 54 {
            Table::row(433299600, 3600, 0, "CET")
           } else {
            Table::row(449024400, 3600, 3600, "CEST")
           }
          }
         }
        } else {
         if i < 57 {
          if i < 56 {
           Table::row(465354000, 3600, 0, "CET")
          } else {
           Table::row(481078800, 3600, 3600, "CEST")
          }
         } else {
          if i < 58 {
           Table::row(496803600, 3600, 0, "CET")
          } else {
           if i < 59 {
            Table::row(512528400, 3600, 3600, "CEST")
           } else {
            Table::row(528253200, 3600, 0, "CET")
           }
          }
         }
        }
       }
      } else {
       if i < 70 {
        if i < 65 {
         if i < 62 {
          if i < 61 {
           Table::row(543978000, 3600, 3600, "CEST")
          } else {
           Table::row(559702800, 3600, 0, "CET")
          }
         } else {
          if i < 63 {
           Table::row(575427600, 3600, 3600, "CEST")
          } else {
           if i < 64 {
            Table::row(591152400, 3600, 0, "CET")
           } else {
            Table::row(606877200, 3600, 3600, "CEST")
           }
          }
         }
        } else {
         if i < 67 {
          if i < 66 {
           Table::row(622602000, 3600, 0, "CET")
          } else {
           Table::row(638326800, 3600, 3600, "CEST")
          }
         } else {
          if i < 68 {
           Table::row(654656400, 3600, 0, "CET")
          } else {
           if i < 69 {
            Table::row(670381200, 3600, 3600, "CEST")
           } else {
            Table::row(686106000, 3600, 0, "CET")
           }
          }
         }
        }
       } else {
        if i < 75 {
         if i < 72 {
          if i < 71 {
           Table::row(701830800, 3600, 3600, "CEST")
          } else {
           Table::row(717555600, 3600, 0, "CET")
          }
         } else {
          if i < 73 {
           Table::row(733280400, 3600, 3600, "CEST")
          } else {
           if i < 74 {
            Table::row(749005200, 3600, 0, "CET")
           } else {
            Table::row(764730000, 3600, 3600, "CEST")
           }
          }
         }
        } else {
         if i < 78 {
          if i < 76 {
           Table::row(780454800, 3600, 0, "CET")
          } else {
           if i < 77 {
            Table::row(796179600, 3600, 3600, "CEST")
           } else {
            Table::row(811904400, 3600, 0, "CET")
           }
          }
         } else {
          if i < 79 {
           Table::row(828234000, 3600, 3600, "CEST")
          } else {
           if i < 80 {
            Table::row(846378000, 3600, 0, "CET")
           } else {
            Table::row(859683600, 3600, 3600, "CEST")
           }
          }
         }
        }
       }
      }
     }
    } else {
     if i < 121 {
      if i < 101 {
       if i < 91 {
        if i < 86 {
         if i < 83 {
          if i < 82 {
           Table::row(877827600, 3600, 0, "CET")
          } else {
           Table::row(891133200, 3600, 3600, "CEST")
          }
         } else {
          if i < 84 {
           Table::row(909277200, 3600, 0, "CET")
          } else {
           if i < 85 {
            Table::row(922582800, 3600, 3600, "CEST")
           } else {
            Table::row(941331600, 3600, 0, "CET")
           }
          }
         }
        } else {
         if i < 88 {
          if i < 87 {
           Table::row(954032400, 3600, 3600, "CEST")
          } else {
           Table::row(972781200, 3600, 0, "CET")
          }
         } else {
          if i < 89 {
           Table::row(985482000, 3600, 3600, "CEST")
          } else {
           if i < 90 {
            Table::row(1004230800, 3600, 0, "CET")
           } else {
            Table::row(1017536400, 3600, 3600, "CEST")
           }
          }
         }
        }
       } else {
        if i < 96 {
         if i < 93 {
          if i < 92 {
           Table::row(1035680400, 3600, 0, "CET")
          } else {
           Table::row(1048986000, 3600, 3600, "CEST")
          }
         } else {
          if i < 94 {
           Table::row(1067130000, 3600, 0, "CET")
          } else {
           if i < 95 {
            Table::row(1080435600, 3600, 3600, "CEST")
           } else {
            Table::row(1099184400, 3600, 0, "CET")
           }
          }
         }
        } else {
         if i < 98 {
          if i < 97 {
           Table::row(1111885200, 3600, 3600, "CEST")
          } else {
           Table::row(1130634000, 3600, 0, "CET")
          }
         } else {
          if i < 99 {
           Table::row(1143334800, 3600, 3600, "CEST")
          } else {
           if i < 100 {
            Table::row(1162083600, 3600, 0, "CET")
           } else {
            Table::row(1174784400, 3600, 3600, "CEST")
           }
          }
         }
        }
       }
      } else {
       if i < 111 {
        if i < 106 {
         if i < 103 {
          if i < 102 {
           Table::row(1193533200, 3600, 0, "CET")
          } else {
           Table::row(1206838800, 3600, 3600, "CEST")
          }
         } else {
          if i < 104 {
           Table::row(1224982800, 3600, 0, "CET")
          } else {
           if i < 105 {
            Table::row(1238288400, 3600, 3600, "CEST")
           } else {
            Table::row(1256432400, 3600, 0, "CET")
           }
          }
         }
        } else {
         if i < 108 {
          if i < 107 {
           Table::row(1269738000, 3600, 3600, "CEST")
          } else {
           Table::row(1288486800, 3600, 0, "CET")
          }
         } else {
          if i < 109 {
           Table::row(1301187600, 3600, 3600, "CEST")
          } else {
           if i < 110 {
            Table::row(1319936400, 3600, 0, "CET")
           } else {
            Table::row(1332637200, 3600, 3600, "CEST")
           }
          }
         }
        }
       } else {
        if i < 116 {
         if i < 113 {
          if i < 112 {
           Table::row(1351386000, 3600, 0, "CET")
          } else {
           Table::row(1364691600, 3600, 3600, "CEST")
          }
         } else {
          if i < 114 {
           Table::row(1382835600, 3600, 0, "CET")
          } else {
           if i < 115 {
            Table::row(1396141200, 3600, 3600, "CEST")
           } else {
            Table::row(1414285200, 3600, 0, "CET")
           }
          }
         }
        } else {
         if i < 118 {
          if i < 117 {
           Table::row(1427590800, 3600, 3600, "CEST")
          } else {
           Table::row(1445734800, 3600, 0, "CET")
          }
         } else {
          if i < 119 {
           Table::row(1459040400, 3600, 3600, "CEST")
          } else {
           if i < 120 {
            Table::row(1477789200, 3600, 0, "CET")
           } else {
            Table::row(1490490000, 3600, 3600, "CEST")
           }
          }
         }
        }
       }
      }
     } else {
      if i < 141 {
       if i < 131 {
        if i < 126 {
         if i < 123 {
          if i < 122 {
           Table::row(1509238800, 3600, 0, "CET")
          } else {
           Table::row(1521939600, 3600, 3600, "CEST")
          }
         } else {
          if i < 124 {
           Table::row(1540688400, 3600, 0, "CET")
          } else {
           if i < 125 {
            Table::row(1553994000, 3600, 3600, "CEST")
           } else {
            Table::row(1572138000, 3600, 0, "CET")
           }
          }
         }
        } else {
         if i < 128 {
          if i < 127 {
           Table::row(1585443600, 3600, 3600, "CEST")
          } else {
           Table::row(1603587600, 3600, 0, "CET")
          }
         } else {
          if i < 129 {
           Table::row(1616893200, 3600, 3600, "CEST")
          } else {
           if i < 130 {
            Table::row(1635642000, 3600, 0, "CET")
           } else {
            Table::row(1648342800, 3600, 3600, "CEST")
           }
          }
         }
        }
       } else {
        if i < 136 {
         if i < 133 {
          if i < 132 {
           Table::row(1667091600, 3600, 0, "CET")
          } else {
           Table::row(1679792400, 3600, 3600, "CEST")
          }
         } else {
          if i < 134 {
           Table::row(1698541200, 3600, 0, "CET")
          } else {
           if i < 135 {
            Table::row(1711846800, 3600, 3600, "CEST")
           } else {
            Table::row(1729990800, 3600, 0, "CET")
           }
          }
         }
        } else {
         if i < 138 {
          if i < 137 {
           Table::row(1743296400, 3600, 3600, "CEST")
          } else {
           Table::row(1761440400, 3600, 0, "CET")
          }
         } else {
          if i < 139 {
           Table::row(1774746000, 3600, 3600, "CEST")
          } else {
           if i < 140 {
            Table::row(1792890000, 3600, 0, "CET")
           } else {
            Table::row(1806195600, 3600, 3600, "CEST")
           }
          }
         }
        }
       }
      } else {
       if i < 151 {
        if i < 146 {
         if i < 143 {
          if i < 142 {
           Table::row(1824944400, 3600, 0, "CET")
          } else {
           Table::row(1837645200, 3600, 3600, "CEST")
          }
         } else {
          if i < 144 {
           Table::row(1856394000, 3600, 0, "CET")
          } else {
           if i < 145 {
            Table::row(1869094800, 3600, 3600, "CEST")
           } else {
            Table::row(1887843600, 3600, 0, "CET")
           }
          }
         }
        } else {
         if i < 148 {
          if i < 147 {
           Table::row(1901149200, 3600, 3600, "CEST")
          } else {
           Table::row(1919293200, 3600, 0, "CET")
          }
         } else {
          if i < 149 {
           Table::row(1932598800, 3600, 3600, "CEST")
          } else {
           if i < 150 {
            Table::row(1950742800, 3600, 0, "CET")
           } else {
            Table::row(1964048400, 3600, 3600, "CEST")
           }
          }
         }
        }
       } else {
        if i < 156 {
         if i < 153 {
          if i < 152 {
           Table::row(1982797200, 3600, 0, "CET")
          } else {
           Table::row(1995498000, 3600, 3600, "CEST")
          }
         } else {
          if i < 154 {
           Table::row(2014246800, 3600, 0, "CET")
          } else {
           if i < 155 {
            Table::row(2026947600, 3600, 3600, "CEST")
           } else {
            Table::row(2045696400, 3600, 0, "CET")
           }
          }
         }
        } else {
         if i < 159 {
          if i < 157 {
           Table::row(2058397200, 3600, 3600, "CEST")
          } else {
           if i < 158 {
            Table::row(2077146000, 3600, 0, "CET")
           } else {
            Table::row(2090451600, 3600, 3600, "CEST")
           }
          }
         } else {
          if i < 160 {
           Table::row(2108595600, 3600, 0, "CET")
          } else {
           if i < 161 {
            Table::row(2121901200, 3600, 3600, "CEST")
           } else {
            Table::row(2140045200, 3600, 0, "CET")
           }
          }
         }
        }
       }
      }
     }
    }
}

/// The rows of the table of the zone `Europe/Madrid`.
pub open spec fn madrid_rows() -> spec_fn(int) -> (i64, FixedTimespan) {
    |i: int| madrid_row(i)
}

/// The table of the zone `Europe/Madrid`.
pub open spec fn madrid() -> Table {
    Table::listed(Table::row(0, -884, 0, "LMT").1, 162, madrid_rows())
}

/// Row `i` of the table of the zone `Europe/Malta`.
pub open spec fn malta_row(i: int) -> (i64, FixedTimespan) {
    if i < 84 {
     if i < 42 {
      if i < 21 {
       if i < 10 {
        if i < 5 {
         if i < 2 {
          if i < 1 {
           Table::row(-2403478684, 3600, 0, "CET")
          } else {
           Table::row(-1690765200, 3600, 3600, "CEST")
          }
         } else {
          if i < 3 {
           Table::row(-1680487200, 3600, 0, "CET")
          } else {
           if i < 4 {
            Table::row(-1664758800, 3600, 3600, "CEST")
           } else {
            Table::row(-1648951200, 3600, 0, "CET")
           }
          }
         }
        } else {
         if i < 7 {
          if i < 6 {
           Table::row(-1635123600, 3600, 3600, "CEST")
          } else {
           Table::row(-1616896800, 3600, 0, "CET")
          }
         } else {
          if i < 8 {
           Table::row(-1604278800, 3600, 3600, "CEST")
          } else {
           if i < 9 {
            Table::row(-1585533600, 3600, 0, "CET")
           } else {
            Table::row(-1571014800, 3600, 3600, "CEST")
           }
          }
         }
        }
       } else {
        if i < 15 {
         if i < 12 {
          if i < 11 {
           Table::row(-1555293600, 3600, 0, "CET")
          } else {
           Table::row(-932432400, 3600, 3600, "CEST")
          }
         } else {
          if i < 13 {
           Table::row(-857257200, 3600, 0, "CET")
          } else {
           if i < 14 {
            Table::row(-844556400, 3600, 3600, "CEST")
           } else {
            Table::row(-828226800, 3600, 0, "CET")
           }
          }
         }
        } else {
         if i < 18 {
          if i < 16 {
           Table::row(-812588400, 3600, 3600, "CEST")
          } else {
           if i < 17 {
            Table::row(-798073200, 3600, 0, "CET")
           } else {
            Table::row(-781052400, 3600, 3600, "CEST")
           }
          }
         } else {
          if i < 19 {
           Table::row(-766717200, 3600, 0, "CET")
          } else {
           if i < 20 {
            Table::row(-750898800, 3600, 3600, "CEST")
           } else {
            Table::row(-733359600, 3600, 0, "CET")
           }
          }
         }
        }
       }
      } else {
       if i < 31 {
        if i < 26 {
         if i < 23 {
          if i < 22 {
           Table::row(-719456400, 3600, 3600, "CEST")
          } else {
           Table::row(-701917200, 3600, 0, "CET")
          }
         } else {
          if i < 24 {
           Table::row(-689209200, 3600, 3600, "CEST")
          } else {
           if i < 25 {
            Table::row(-670460400, 3600, 0, "CET")
           } else {
            Table::row(-114051600, 3600, 3600, "CEST")
           }
          }
         }
        } else {
         if i < 28 {
          if i < 27 {
           Table::row(-103168800, 3600, 0, "CET")
          } else {
           Table::row(-81997200, 3600, 3600, "CEST")
          }
         } else {
          if i < 29 {
           Table::row(-71715600, 3600, 0, "CET")
          } else {
           if i < 30 {
            Table::row(-50547600, 3600, 3600, "CEST")
           } else {
            Table::row(-40266000, 3600, 0, "CET")
           }
          }
         }
        }
       } else {
        if i < 36 {
         if i < 33 {
          if i < 32 {
           Table::row(-18493200, 3600, 3600, "CEST")
          } else {
           Table::row(-8211600, 3600, 0, "CET")
          }
         } else {
          if i < 34 {
           Table::row(12956400, 3600, 3600, "CEST")
          } else {
           if i < 35 {
            Table::row(23238000, 3600, 0, "CET")
           } else {
            Table::row(43801200, 3600, 3600, "CEST")
           }
          }
         }
        } else {
         if i < 39 {
          if i < 37 {
           Table::row(54687600, 3600, 0, "CET")
          } else {
           if i < 38 {
            Table::row(75855600, 3600, 3600, "CEST")
           } else {
            Table::row(86742000, 3600, 0, "CET")
           }
          }
         } else {
          if i < 40 {
           Table::row(102380400, 3600, 3600, "CEST")
          } else {
           if i < 41 {
            Table::row(118105200, 3600, 0, "CET")
           } else {
            Table::row(135730800, 3600, 3600, "CEST")
           }
          }
         }
        }
       }
      }
     } else {
      if i < 63 {
       if i < 52 {
        if i < 47 {
         if i < 44 {
          if i < 43 {
           Table::row(148518000, 3600, 0, "CET")
          } else {
           Table::row(167187600, 3600, 3600, "CEST")
          }
         } else {
          if i < 45 {
           Table::row(180489600, 3600, 0, "CET")
          } else {
           if i < 46 {
            Table::row(198637200, 3600, 3600, "CEST")
           } else {
            Table::row(211939200, 3600, 0, "CET")
           }
          }
         }
        } else {
         if i < 49 {
          if i < 48 {
           Table::row(230086800, 3600, 3600, "CEST")
          } else {
           Table::row(243388800, 3600, 0, "CET")
          }
         } else {
          if i < 50 {
           Table::row(261536400, 3600, 3600, "CEST")
          } else {
           if i < 51 {
            Table::row(274838400, 3600, 0, "CET")
           } else {
            Table::row(292986000, 3600, 3600, "CEST")
           }
          }
         }
        }
       } else {
        if i < 57 {
         if i < 54 {
          if i < 53 {
           Table::row(306288000, 3600, 0, "CET")
          } else {
           Table::row(323312400, 3600, 3600, "CEST")
          }
         } else {
          if i < 55 {
           Table::row(338342400, 3600, 0, "CET")
          } else {
           if i < 56 {
            Table::row(354675600, 3600, 3600, "CEST")
           } else {
            Table::row(370400400, 3600, 0, "CET")
           }
          }
         }
        } else {
         if i < 60 {
          if i < 58 {
           Table::row(386125200, 3600, 3600, "CEST")
          } else {
           if i < 59 {
            Table::row(401850000, 3600, 0, "CET")
           } else {
            Table::row(417574800, 3600, 3600, "CEST")
           }
          }
         } else {
          if i < 61 {
           Table::row(433299600, 3600, 0, "CET")
          } else {
           if i < 62 {
            Table::row(449024400, 3600, 3600, "CEST")
           } else {
            Table::row(465354000, 3600, 0, "CET")
           }
          }
         }
        }
       }
      } else {
       if i < 73 {
        if i < 68 {
         if i < 65 {
          if i < 64 {
           Table::row(481078800, 3600, 3600, "CEST")
          } else {
           Table::row(496803600, 3600, 0, "CET")
          }
         } else {
          if i < 66 {
           Table::row(512528400, 3600, 3600, "CEST")
          } else {
           if i < 67 {
            Table::row(528253200, 3600, 0, "CET")
           } else {
            Table::row(543978000, 3600, 3600, "CEST")
           }
          }
         }
        } else {
         if i < 70 {
          if i < 69 {
           Table::row(559702800, 3600, 0, "CET")
          } else {
           Table::row(575427600, 3600, 3600, "CEST")
          }
         } else {
          if i < 71 {
           Table::row(591152400, 3600, 0, "CET")
          } else {
           if i < 72 {
            Table::row(606877200, 3600, 3600, "CEST")
           } else {
            Table::row(622602000, 3600, 0, "CET")
           }
          }
         }
        }
       } else {
        if i < 78 {
         if i < 75 {
          if i < 74 {
           Table::row(638326800, 3600, 3600, "CEST")
          } else {
           Table::row(654656400, 3600, 0, "CET")
          }
         } else {
          if i < 76 {
           Table::row(670381200, 3600, 3600, "CEST")
          } else {
           if i < 77 {
            Table::row(686106000, 3600, 0, "CET")
           } else {
            Table::row(701830800, 3600, 3600, "CEST")
           }
          }
         }
        } else {
         if i < 81 {
          if i < 79 {
           Table::row(717555600, 3600, 0, "CET")
          } else {
           if i < 80 {
            Table::row(733280400, 3600, 3600, "CEST")
           } else {
            Table::row(749005200, 3600, 0, "CET")
           }
          }
         } else {
          if i < 82 {
           Table::row(764730000, 3600, 3600, "CEST")
          } else {
           if i < 83 {
            Table::row(780454800, 3600, 0, "CET")
           } else {
            Table::row(796179600, 3600, 3600, "CEST")
           }
          }
         }
        }
       }
      }
     }
    } else {
     if i < 126 {
      if i < 105 {
       if i < 94 {
        if i < 89 {
         if i < 86 {
          if i < 85 {
           Table::row(811904400, 3600, 0, "CET")
          } else {
           Table::row(828234000, 3600, 3600, "CEST")
          }
         } else {
          if i < 87 {
           Table::row(846378000, 3600, 0, "CET")
          } else {
           if i < 88 {
            Table::row(859683600, 3600, 3600, "CEST")
           } else {
            Table::row(877827600, 3600, 0, "CET")
           }
          }
         }
        } else {
         if i < 91 {
          if i < 90 {
           Table::row(891133200, 3600, 3600, "CEST")
          } else {
           Table::row(909277200, 3600, 0, "CET")
          }
         } else {
          if i < 92 {
           Table::row(922582800, 3600, 3600, "CEST")
          } else {
           if i < 93 {
            Table::row(941331600, 3600, 0, "CET")
           } else {
            Table::row(954032400, 3600, 3600, "CEST")
           }
          }
         }
        }
       } else {
        if i < 99 {
         if i < 96 {
          if i < 95 {
           Table::row(972781200, 3600, 0, "CET")
          } else {
           Table::row(985482000, 3600, 3600, "CEST")
          }
         } else {
          if i < 97 {
           Table::row(1004230800, 3600, 0, "CET")
          } else {
           if i < 98 {
            Table::row(1017536400, 3600, 3600, "CEST")
           } else {
            Table::row(1035680400, 3600, 0, "CET")
           }
          }
         }
        } else {
         if i < 102 {
          if i < 100 {
           Table::row(1048986000, 3600, 3600, "CEST")
          } else {
           if i < 101 {
            Table::row(1067130000, 3600, 0, "CET")
           } else {
            Table::row(1080435600, 3600, 3600, "CEST")
           }
          }
         } else {
          if i < 103 {
           Table::row(1099184400, 3600, 0, "CET")
          } else {
           if i < 104 {
            Table::row(1111885200, 3600, 3600, "CEST")
           } else {
            Table::row(1130634000, 3600, 0, "CET")
           }
          }
         }
        }
       }
      } else {
       if i < 115 {
        if i < 110 {
         if i < 107 {
          if i < 106 {
           Table::row(1143334800, 3600, 3600, "CEST")
          } else {
           Table::row(1162083600, 3600, 0, "CET")
          }
         } else {
          if i < 108 {
           Table::row(1174784400, 3600, 3600, "CEST")
          } else {
           if i < 109 {
            Table::row(1193533200, 3600, 0, "CET")
           } else {
            Table::row(1206838800, 3600, 3600, "CEST")
           }
          }
         }
        } else {
         if i < 112 {
          if i < 111 {
           Table::row(1224982800, 3600, 0, "CET")
          } else {
           Table::row(1238288400, 3600, 3600, "CEST")
          }
         } else {
          if i < 113 {
           Table::row(1256432400, 3600, 0, "CET")
          } else {
           if i < 114 {
            Table::row(1269738000, 3600, 3600, "CEST")
           } else {
            Table::row(1288486800, 3600, 0, "CET")
           }
          }
         }
        }
       } else {
        if i < 120 {
         if i < 117 {
          if i < 116 {
           Table::row(1301187600, 3600, 3600, "CEST")
          } else {
           Table::row(1319936400, 3600, 0, "CET")
          }
         } else {
          if i < 118 {
           Table::row(1332637200, 3600, 3600, "CEST")
          } else {
           if i < 119 {
            Table::row(1351386000, 3600, 0, "CET")
           } else {
            Table::row(1364691600, 3600, 3600, "CEST")
           }
          }
         }
        } else {
         if i < 123 {
          if i < 121 {
           Table::row(1382835600, 3600, 0, "CET")
          } else {
           if i < 122 {
            Table::row(1396141200, 3600, 3600, "CEST")
           } else {
            Table::row(1414285200, 3600, 0, "CET")
           }
          }
         } else {
          if i < 124 {
           Table::row(1427590800, 3600, 3600, "CEST")
          } else {
           if i < 125 {
            Table::row(1445734800, 3600, 0, "CET")
           } else {
            Table::row(1459040400, 3600, 3600, "CEST")
           }
          }
         }
        }
       }
      }
     } else {
      if i < 147 {
       if i < 136 {
        if i < 131 {
         if i < 128 {
          if i < 127 {
           Table::row(1477789200, 3600, 0, "CET")
          } else {
           Table::row(1490490000, 3600, 3600, "CEST")
          }
         } else {
          if i < 129 {
           Table::row(1509238800, 3600, 0, "CET")
          } else {
           if i < 130 {
            Table::row(1521939600, 3600, 3600, "CEST")
           } else {
            Table::row(1540688400, 3600, 0, "CET")
           }
          }
         }
        } else {
         if i < 133 {
          if i < 132 {
           Table::row(1553994000, 3600, 3600, "CEST")
          } else {
           Table::row(1572138000, 3600, 0, "CET")
          }
         } else {
          if i < 134 {
           Table::row(1585443600, 3600, 3600, "CEST")
          } else {
           if i < 135 {
            Table::row(1603587600, 3600, 0, "CET")
           } else {
            Table::row(1616893200, 3600, 3600, "CEST")
           }
          }
         }
        }
       } else {
        if i < 141 {
         if i < 138 {
          if i < 137 {
           Table::row(1635642000, 3600, 0, "CET")
          } else {
           Table::row(1648342800, 3600, 3600, "CEST")
          }
         } else {
          if i < 139 {
           Table::row(1667091600, 3600, 0, "CET")
          } else {
           if i < 140 {
            Table::row(1679792400, 3600, 3600, "CEST")
           } else {
            Table::row(1698541200, 3600, 0, "CET")
           }
          }
         }
        } else {
         if i < 144 {
          if i < 142 {
           Table::row(1711846800, 3600, 3600, "CEST")
          } else {
           if i < 143 {
            Table::row(1729990800, 3600, 0, "CET")
           } else {
            Table::row(1743296400, 3600, 3600, "CEST")
           }
          }
         } else {
          if i < 145 {
           Table::row(1761440400, 3600, 0, "CET")
          } else {
           if i < 146 {
            Table::row(1774746000, 3600, 3600, "CEST")
           } else {
            Table::row(1792890000, 3600, 0, "CET")
           }
          }
         }
        }
       }
      } else {
       if i < 158 {
        if i < 152 {
         if i < 149 {
          if i < 148 {
           Table::row(1806195600, 3600, 3600, "CEST")
          } else {
           Table::row(1824944400, 3600, 0, "CET")
          }
         } else {
          if i < 150 {
           Table::row(1837645200, 3600, 3600, "CEST")
          } else {
           if i < 151 {
            Table::row(1856394000, 3600, 0, "CET")
           } else {
            Table::row(1869094800, 3600, 3600, "CEST")
           }
          }
         }
        } else {
         if i < 155 {
          if i < 153 {
           Table::row(1887843600, 3600, 0, "CET")
          } else {
           if i < 154 {
            Table::row(1901149200, 3600, 3600, "CEST")
           } else {
            Table::row(1919293200, 3600, 0, "CET")
           }
          }
         } else {
          if i < 156 {
           Table::row(1932598800, 3600, 3600, "CEST")
          } else {
           if i < 157 {
            Table::row(1950742800, 3600, 0, "CET")
           } else {
            Table::row(1964048400, 3600, 3600, "CEST")
           }
          }
         }
        }
       } else {
        if i < 163 {
         if i < 160 {
          if i < 159 {
           Table::row(1982797200, 3600, 0, "CET")
          } else {
           Table::row(1995498000, 3600, 3600, "CEST")
          }
         } else {
          if i < 161 {
           Table::row(2014246800, 3600, 0, "CET")
          } else {
           if i < 162 {
            Table::row(2026947600, 3600, 3600, "CEST")
           } else {
            Table::row(2045696400, 3600, 0, "CET")
           }
          }
         }
        } else {
         if i < 166 {
          if i < 164 {
           Table::row(2058397200, 3600, 3600, "CEST")
          } else {
           if i < 165 {
            Table::row(2077146000, 3600, 0, "CET")
           } else {
            Table::row(2090451600, 3600, 3600, "CEST")
           }
          }
         } else {
          if i < 167 {
           Table::row(2108595600, 3600, 0, "CET")
          } else {
           if i < 168 {
            Table::row(2121901200, 3600, 3600, "CEST")
           } else {
            Table::row(2140045200, 3600, 0, "CET")
           }
          }
         }
        }
       }
      }
     }
    }
}

/// The rows of the table of the zone `Europe/Malta`.
pub open spec fn malta_rows() -> spec_fn(int) -> (i64, FixedTimespan) {
    |i: int| malta_row(i)
}

/// The table of the zone `Europe/Malta`.
pub open spec fn malta() -> Table {
    Table::listed(Table::row(0, 3484, 0, "LMT").1, 169, malta_rows())
}

/// Row `i` of the table of the zone `Europe/Mariehamn`.
pub open spec fn mariehamn_row(i: int) -> (i64, FixedTimespan) {
    if i < 59 {
     if i < 29 {
      if i < 14 {
       if i < 7 {
        if i < 3 {
         if i < 1 {
          Table::row(-2890258789, 5989, 0, "HMT")
         } else {
          if i < 2 {
           Table::row(-1535938789, 7200, 0, "EET")
          } else {
           Table::row(-875671200, 7200, 3600, "EEST")
          }
         }
        } else {
         if i < 5 {
          if i < 4 {
           Table::row(-859773600, 7200, 0, "EET")
          } else {
           Table::row(354672000, 7200, 3600, "EEST")
          }
         } else {
          if i < 6 {
           Table::row(370396800, 7200, 0, "EET")
          } else {
           Table::row(386121600, 7200, 3600, "EEST")
          }
         }
        }
       } else {
        if i < 10 {
         if i < 8 {
          Table::row(401846400, 7200, 0, "EET")
         } else {
          if i < 9 {
           Table::row(417574800, 7200, 3600, "EEST")
          } else {
           Table::row(433299600, 7200, 0, "EET")
          }
         }
        } else {
         if i < 12 {
          if i < 11 {
           Table::row(449024400, 7200, 3600, "EEST")
          } else {
           Table::row(465354000, 7200, 0, "EET")
          }
         } else {
          if i < 13 {
           Table::row(481078800, 7200, 3600, "EEST")
          } else {
           Table::row(496803600, 7200, 0, "EET")
          }
         }
        }
       }
      } else {
       if i < 21 {
        if i < 17 {
         if i < 15 {
          Table::row(512528400, 7200, 3600, "EEST")
         } else {
          if i < 16 {
           Table::row(528253200, 7200, 0, "EET")
          } else {
           Table::row(543978000, 7200, 3600, "EEST")
          }
         }
        } else {
         if i < 19 {
          if i < 18 {
           Table::row(559702800, 7200, 0, "EET")
          } else {
           Table::row(575427600, 7200, 3600, "EEST")
          }
         } else {
          if i < 20 {
           Table::row(591152400, 7200, 0, "EET")
          } else {
           Table::row(606877200, 7200, 3600, "EEST")
          }
         }
        }
       } else {
        if i < 25 {
         if i < 23 {
          if i < 22 {
           Table::row(622602000, 7200, 0, "EET")
          } else {
           Table::row(638326800, 7200, 3600, "EEST")
          }
         } else {
          if i < 24 {
           Table::row(654656400, 7200, 0, "EET")
          } else {
           Table::row(670381200, 7200, 3600, "EEST")
          }
         }
        } else {
         if i < 27 {
          if i < 26 {
           Table::row(686106000, 7200, 0, "EET")
          } else {
           Table::row(701830800, 7200, 3600, "EEST")
          }
         } else {
          if i < 28 {
           Table::row(717555600, 7200, 0, "EET")
          } else {
           Table::row(733280400, 7200, 3600, "EEST")
          }
         }
        }
       }
      }
     } else {
      if i < 44 {
       if i < 36 {
        if i < 32 {
         if i < 30 {
          Table::row(749005200, 7200, 0, "EET")
         } else {
          if i < 31 {
           Table::row(764730000, 7200, 3600, "EEST")
          } else {
           Table::row(780454800, 7200, 0, "EET")
          }
         }
        } else {
         if i < 34 {
          if i < 33 {
           Table::row(796179600, 7200, 3600, "EEST")
          } else {
           Table::row(811904400, 7200, 0, "EET")
          }
         } else {
          if i < 35 {
           Table::row(828234000, 7200, 3600, "EEST")
          } else {
           Table::row(846378000, 7200, 0, "EET")
          }
         }
        }
       } else {
        if i < 40 {
         if i < 38 {
          if i < 37 {
           Table::row(859683600, 7200, 3600, "EEST")
          } else {
           Table::row(877827600, 7200, 0, "EET")
          }
         } else {
          if i < 39 {
           Table::row(891133200, 7200, 3600, "EEST")
          } else {
           Table::row(909277200, 7200, 0, "EET")
          }
         }
        } else {
         if i < 42 {
          if i < 41 {
           Table::row(922582800, 7200, 3600, "EEST")
          } else {
           Table::row(941331600, 7200, 0, "EET")
          }
         } else {
          if i < 43 {
           Table::row(954032400, 7200, 3600, "EEST")
          } else {
           Table::row(972781200, 7200, 0, "EET")
          }
         }
        }
       }
      } else {
       if i < 51 {
        if i < 47 {
         if i < 45 {
          Table::row(985482000, 7200, 3600, "EEST")
         } else {
          if i < 46 {
           Table::row(1004230800, 7200, 0, "EET")
          } else {
           Table::row(1017536400, 7200, 3600, "EEST")
          }
         }
        } else {
         if i < 49 {
          if i < 48 {
           Table::row(1035680400, 7200, 0, "EET")
          } else {
           Table::row(1048986000, 7200, 3600, "EEST")
          }
         } else {
          if i < 50 {
           Table::row(1067130000, 7200, 0, "EET")
          } else {
           Table::row(1080435600, 7200, 3600, "EEST")
          }
         }
        }
       } else {
        if i < 55 {
         if i < 53 {
          if i < 52 {
           Table::row(1099184400, 7200, 0, "EET")
          } else {
           Table::row(1111885200, 7200, 3600, "EEST")
          }
         } else {
          if i < 54 {
           Table::row(1130634000, 7200, 0, "EET")
          } else {
           Table::row(1143334800, 7200, 3600, "EEST")
          }
         }
        } else {
         if i < 57 {
          if i < 56 {
           Table::row(1162083600, 7200, 0, "EET")
          } else {
           Table::row(1174784400, 7200, 3600, "EEST")
          }
         } else {
          if i < 58 {
           Table::row(1193533200, 7200, 0, "EET")
          } else {
           Table::row(1206838800, 7200, 3600, "EEST")
          }
         }
        }
       }
      }
     }
    } else {
     if i < 88 {
      if i < 73 {
       if i < 66 {
        if i < 62 {
         if i < 60 {
          Table::row(1224982800, 7200, 0, "EET")
         } else {
          if i < 61 {
           Table::row(1238288400, 7200, 3600, "EEST")
          } else {
           Table::row(1256432400, 7200, 0, "EET")
          }
         }
        } else {
         if i < 64 {
          if i < 63 {
           Table::row(1269738000, 7200, 3600, "EEST")
          } else {
           Table::row(1288486800, 7200, 0, "EET")
          }
         } else {
          if i < 65 {
           Table::row(1301187600, 7200, 3600, "EEST")
          } else {
           Table::row(1319936400, 7200, 0, "EET")
          }
         }
        }
       } else {
        if i < 69 {
         if i < 67 {
          Table::row(1332637200, 7200, 3600, "EEST")
         } else {
          if i < 68 {
           Table::row(1351386000, 7200, 0, "EET")
          } else {
           Table::row(1364691600, 7200, 3600, "EEST")
          }
         }
        } else {
         if i < 71 {
          if i < 70 {
           Table::row(1382835600, 7200, 0, "EET")
          } else {
           Table::row(1396141200, 7200, 3600, "EEST")
          }
         } else {
          if i < 72 {
           Table::row(1414285200, 7200, 0, "EET")
          } else {
           Table::row(1427590800, 7200, 3600, "EEST")
          }
         }
        }
       }
      } else {
       if i < 80 {
        if i < 76 {
         if i < 74 {
          Table::row(1445734800, 7200, 0, "EET")
         } else {
          if i < 75 {
           Table::row(1459040400, 7200, 3600, "EEST")
          } else {
           Table::row(1477789200, 7200, 0, "EET")
          }
         }
        } else {
         if i < 78 {
          if i < 77 {
           Table::row(1490490000, 7200, 3600, "EEST")
          } else {
           Table::row(1509238800, 7200, 0, "EET")
          }
         } else {
          if i < 79 {
           Table::row(1521939600, 7200, 3600, "EEST")
          } else {
           Table::row(1540688400, 7200, 0, "EET")
          }
         }
        }
       } else {
        if i < 84 {
         if i < 82 {
          if i < 81 {
           Table::row(1553994000, 7200, 3600, "EEST")
          } else {
           Table::row(1572138000, 7200, 0, "EET")
          }
         } else {
          if i < 83 {
           Table::row(1585443600, 7200, 3600, "EEST")
          } else {
           Table::row(1603587600, 7200, 0, "EET")
          }
         }
        } else {
         if i < 86 {
          if i < 85 {
           Table::row(1616893200, 7200, 3600, "EEST")
          } else {
           Table::row(1635642000, 7200, 0, "EET")
          }
         } else {
          if i < 87 {
           Table::row(1648342800, 7200, 3600, "EEST")
          } else {
           Table::row(1667091600, 7200, 0, "EET")
          }
         }
        }
       }
      }
     } else {
      if i < 103 {
       if i < 95 {
        if i < 91 {
         if i < 89 {
          Table::row(1679792400, 7200, 3600, "EEST")
         } else {
          if i < 90 {
           Table::row(1698541200, 7200, 0, "EET")
          } else {
           Table::row(1711846800, 7200, 3600, "EEST")
          }
         }
        } else {
         if i < 93 {
          if i < 92 {
           Table::row(1729990800, 7200, 0, "EET")
          } else {
           Table::row(1743296400, 7200, 3600, "EEST")
          }
         } else {
          if i < 94 {
           Table::row(1761440400, 7200, 0, "EET")
          } else {
           Table::row(1774746000, 7200, 3600, "EEST")
          }
         }
        }
       } else {
        if i < 99 {
         if i < 97 {
          if i < 96 {
           Table::row(1792890000, 7200, 0, "EET")
          } else {
           Table::row(1806195600, 7200, 3600, "EEST")
          }
         } else {
          if i < 98 {
           Table::row(1824944400, 7200, 0, "EET")
          } else {
           Table::row(1837645200, 7200, 3600, "EEST")
          }
         }
        } else {
         if i < 101 {
          if i < 100 {
           Table::row(1856394000, 7200, 0, "EET")
          } else {
           Table::row(1869094800, 7200, 3600, "EEST")
          }
         } else {
          if i < 102 {
           Table::row(1887843600, 7200, 0, "EET")
          } else {
           Table::row(1901149200, 7200, 3600, "EEST")
          }
         }
        }
       }
      } else {
       if i < 110 {
        if i < 106 {
         if i < 104 {
          Table::row(1919293200, 7200, 0, "EET")
         } else {
          if i < 105 {
           Table::row(1932598800, 7200, 3600, "EEST")
          } else {
           Table::row(1950742800, 7200, 0, "EET")
          }
         }
        } else {
         if i < 108 {
          if i < 107 {
           Table::row(1964048400, 7200, 3600, "EEST")
          } else {
           Table::row(1982797200, 7200, 0, "EET")
          }
         } else {
          if i < 109 {
           Table::row(1995498000, 7200, 3600, "EEST")
          } else {
           Table::row(2014246800, 7200, 0, "EET")
          }
         }
        }
       } else {
        if i < 114 {
         if i < 112 {
          if i < 111 {
           Table::row(2026947600, 7200, 3600, "EEST")
          } else {
           Table::row(2045696400, 7200, 0, "EET")
          }
         } else {
          if i < 113 {
           Table::row(2058397200, 7200, 3600, "EEST")
          } else {
           Table::row(2077146000, 7200, 0, "EET")
          }
         }
        } else {
         if i < 116 {
          if i < 115 {
           Table::row(2090451600, 7200, 3600, "EEST")
          } else {
           Table::row(2108595600, 7200, 0, "EET")
          }
         } else {
          if i < 117 {
           Table::row(2121901200, 7200, 3600, "EEST")
          } else {
           Table::row(2140045200, 7200, 0, "EET")
          }
         }
        }
       }
      }
     }
    }
}

/// The rows of the table of the zone `Europe/Mariehamn`.
pub open spec fn mariehamn_rows() -> spec_fn(int) -> (i64, FixedTimespan) {
    |i: int| mariehamn_row(i)
}

/// The table of the zone `Europe/Mariehamn`.
pub open spec fn mariehamn() -> Table {
    Table::listed(Table::row(0, 5989, 0, "LMT").1, 118, mariehamn_rows())
}

/// Row `i` of the table of the zone `Europe/Minsk`.
pub open spec fn minsk_row(i: int) -> (i64, FixedTimespan) {
    if i < 34 {
     if i < 17 {
      if i < 8 {
       if i < 4 {
        if i < 2 {
         if i < 1 {
          Table::row(-2840147416, 6600, 0, "MMT")
         } else {
          Table::row(-1441158600, 7200, 0, "EET")
         }
        } else {
         if i < 3 {
          Table::row(-1247536800, 10800, 0, "MSK")
         } else {
          Table::row(-899780400, 3600, 3600, "CEST")
         }
        }
       } else {
        if i < 6 {
         if i < 5 {
          Table::row(-857257200, 3600, 0, "CET")
         } else {
          Table::row(-844556400, 3600, 3600, "CEST")
         }
        } else {
         if i < 7 {
          Table::row(-828226800, 3600, 0, "CET")
         } else {
          Table::row(-812502000, 3600, 3600, "CEST")
         }
        }
       }
      } else {
       if i < 12 {
        if i < 10 {
         if i < 9 {
          Table::row(-804650400, 10800, 0, "MSK")
         } else {
          Table::row(354920400, 10800, 3600, "MSD")
         }
        } else {
         if i < 11 {
          Table::row(370728000, 10800, 0, "MSK")
         } else {
          Table::row(386456400, 10800, 3600, "MSD")
         }
        }
       } else {
        if i < 14 {
         if i < 13 {
          Table::row(402264000, 10800, 0, "MSK")
         } else {
          Table::row(417992400, 10800, 3600, "MSD")
         }
        } else {
         if i < 15 {
          Table::row(433800000, 10800, 0, "MSK")
         } else {
          if i < 16 {
           Table::row(449614800, 10800, 3600, "MSD")
          } else {
           Table::row(465346800, 10800, 0, "MSK")
          }
         }
        }
       }
      }
     } else {
      if i < 25 {
       if i < 21 {
        if i < 19 {
         if i < 18 {
          Table::row(481071600, 10800, 3600, "MSD")
         } else {
          Table::row(496796400, 10800, 0, "MSK")
         }
        } else {
         if i < 20 {
          Table::row(512521200, 10800, 3600, "MSD")
         } else {
          Table::row(528246000, 10800, 0, "MSK")
         }
        }
       } else {
        if i < 23 {
         if i < 22 {
          Table::row(543970800, 10800, 3600, "MSD")
         } else {
          Table::row(559695600, 10800, 0, "MSK")
         }
        } else {
         if i < 24 {
          Table::row(575420400, 10800, 3600, "MSD")
         } else {
          Table::row(591145200, 10800, 0, "MSK")
         }
        }
       }
      } else {
       if i < 29 {
        if i < 27 {
         if i < 26 {
          Table::row(606870000, 10800, 3600, "MSD")
         } else {
          Table::row(622594800, 10800, 0, "MSK")
         }
        } else {
         if i < 28 {
          Table::row(670374000, 7200, 3600, "EEST")
         } else {
          Table::row(686102400, 7200, 0, "EET")
         }
        }
       } else {
        if i < 31 {
         if i < 30 {
          Table::row(701827200, 7200, 3600, "EEST")
         } else {
          Table::row(717552000, 7200, 0, "EET")
         }
        } else {
         if i < 32 {
          Table::row(733276800, 7200, 3600, "EEST")
         } else {
          if i < 33 {
           Table::row(749001600, 7200, 0, "EET")
          } else {
           Table::row(764726400, 7200, 3600, "EEST")
          }
         }
        }
       }
      }
     }
    } else {
     if i < 51 {
      if i < 42 {
       if i < 38 {
        if i < 36 {
         if i < 35 {
          Table::row(780451200, 7200, 0, "EET")
         } else {
          Table::row(796176000, 7200, 3600, "EEST")
         }
        } else {
         if i < 37 {
          Table::row(811900800, 7200, 0, "EET")
         } else {
          Table::row(828230400, 7200, 3600, "EEST")
         }
        }
       } else {
        if i < 40 {
         if i < 39 {
          Table::row(846374400, 7200, 0, "EET")
         } else {
          Table::row(859680000, 7200, 3600, "EEST")
         }
        } else {
         if i < 41 {
          Table::row(877824000, 7200, 0, "EET")
         } else {
          Table::row(891129600, 7200, 3600, "EEST")
         }
        }
       }
      } else {
       if i < 46 {
        if i < 44 {
         if i < 43 {
          Table::row(909273600, 7200, 0, "EET")
         } else {
          Table::row(922579200, 7200, 3600, "EEST")
         }
        } else {
         if i < 45 {
          Table::row(941328000, 7200, 0, "EET")
         } else {
          Table::row(954028800, 7200, 3600, "EEST")
         }
        }
       } else {
        if i < 48 {
         if i < 47 {
          Table::row(972777600, 7200, 0, "EET")
         } else {
          Table::row(985478400, 7200, 3600, "EEST")
         }
        } else {
         if i < 49 {
          Table::row(1004227200, 7200, 0, "EET")
         } else {
          if i < 50 {
           Table::row(1017532800, 7200, 3600, "EEST")
          } else {
           Table::row(1035676800, 7200, 0, "EET")
          }
         }
        }
       }
      }
     } else {
      if i < 60 {
       if i < 55 {
        if i < 53 {
         if i < 52 {
          Table::row(1048982400, 7200, 3600, "EEST")
         } else {
          Table::row(1067126400, 7200, 0, "EET")
         }
        } else {
         if i < 54 {
          Table::row(1080432000, 7200, 3600, "EEST")
         } else {
          Table::row(1099180800, 7200, 0, "EET")
         }
        }
       } else {
        if i < 57 {
         if i < 56 {
          Table::row(1111881600, 7200, 3600, "EEST")
         } else {
          Table::row(1130630400, 7200, 0, "EET")
         }
        } else {
         if i < 58 {
          Table::row(1143331200, 7200, 3600, "EEST")
         } else {
          if i < 59 {
           Table::row(1162080000, 7200, 0, "EET")
          } else {
           Table::row(1174780800, 7200, 3600, "EEST")
          }
         }
        }
       }
      } else {
       if i < 64 {
        if i < 62 {
         if i < 61 {
          Table::row(1193529600, 7200, 0, "EET")
         } else {
          Table::row(1206835200, 7200, 3600, "EEST")
         }
        } else {
         if i < 63 {
          Table::row(1224979200, 7200, 0, "EET")
         } else {
          Table::row(1238284800, 7200, 3600, "EEST")
         }
        }
       } else {
        if i < 66 {
         if i < 65 {
          Table::row(1256428800, 7200, 0, "EET")
         } else {
          Table::row(1269734400, 7200, 3600, "EEST")
         }
        } else {
         if i < 67 {
          Table::row(1288483200, 7200, 0, "EET")
         } else {
          if i < 68 {
           Table::row(1301184000, 10800, 0, "+03")
          } else {
           Table::row(2147483647, 10800, 0, "+03")
          }
         }
        }
       }
      }
     }
    }
}

/// The rows of the table of the zone `Europe/Minsk`.
pub open spec fn minsk_rows() -> spec_fn(int) -> (i64, FixedTimespan) {
    |i: int| minsk_row(i)
}

/// The table of the zone `Europe/Minsk`.
pub open spec fn minsk() -> Table {
    Table::listed(Table::row(0, 6616, 0, "LMT").1, 69, minsk_rows())
}

/// Row `i` of the table of the zone `Europe/Monaco`.
pub open spec fn monaco_row(i: int) -> (i64, FixedTimespan) {
    if i < 92 {
     if i < 46 {
      if i < 23 {
       if i < 11 {
        if i < 5 {
         if i < 2 {
          if i < 1 {
           Table::row(-2448318572, 561, 0, "PMT")
          } else {
           Table::row(-1854403761, 0, 0, "WET")
          }
         } else {
          if i < 3 {
           Table::row(-1689814800, 0, 3600, "WEST")
          } else {
           if i < 4 {
            Table::row(-1680397200, 0, 0, "WET")
           } else {
            Table::row(-1665363600, 0, 3600, "WEST")
           }
          }
         }
        } else {
         if i < 8 {
          if i < 6 {
           Table::row(-1648342800, 0, 0, "WET")
          } else {
           if i < 7 {
            Table::row(-1635123600, 0, 3600, "WEST")
           } else {
            Table::row(-1616893200, 0, 0, "WET")
           }
          }
         } else {
          if i < 9 {
           Table::row(-1604278800, 0, 3600, "WEST")
          } else {
           if i < 10 {
            Table::row(-1585443600, 0, 0, "WET")
           } else {
            Table::row(-1574038800, 0, 3600, "WEST")
           }
          }
         }
        }
       } else {
        if i < 17 {
         if i < 14 {
          if i < 12 {
           Table::row(-1552266000, 0, 0, "WET")
          } else {
           if i < 13 {
            Table::row(-1539997200, 0, 3600, "WEST")
           } else {
            Table::row(-1520557200, 0, 0, "WET")
           }
          }
         } else {
          if i < 15 {
           Table::row(-1507510800, 0, 3600, "WEST")
          } else {
           if i < 16 {
            Table::row(-1490576400, 0, 0, "WET")
           } else {
            Table::row(-1470618000, 0, 3600, "WEST")
           }
          }
         }
        } else {
         if i < 20 {
          if i < 18 {
           Table::row(-1459126800, 0, 0, "WET")
          } else {
           if i < 19 {
            Table::row(-1444006800, 0, 3600, "WEST")
           } else {
            Table::row(-1427677200, 0, 0, "WET")
           }
          }
         } else {
          if i < 21 {
           Table::row(-1411952400, 0, 3600, "WEST")
          } else {
           if i < 22 {
            Table::row(-1396227600, 0, 0, "WET")
           } else {
            Table::row(-1379293200, 0, 3600, "WEST")
           }
          }
         }
        }
       }
      } else {
       if i < 34 {
        if i < 28 {
         if i < 25 {
          if i < 24 {
           Table::row(-1364778000, 0, 0, "WET")
          } else {
           Table::row(-1348448400, 0, 3600, "WEST")
          }
         } else {
          if i < 26 {
           Table::row(-1333328400, 0, 0, "WET")
          } else {
           if i < 27 {
            Table::row(-1316394000, 0, 3600, "WEST")
           } else {
            Table::row(-1301274000, 0, 0, "WET")
           }
          }
         }
        } else {
         if i < 31 {
          if i < 29 {
           Table::row(-1284339600, 0, 3600, "WEST")
          } else {
           if i < 30 {
            Table::row(-1269824400, 0, 0, "WET")
           } else {
            Table::row(-1253494800, 0, 3600, "WEST")
           }
          }
         } else {
          if i < 32 {
           Table::row(-1238374800, 0, 0, "WET")
          } else {
           if i < 33 {
            Table::row(-1221440400, 0, 3600, "WEST")
           } else {
            Table::row(-1206925200, 0, 0, "WET")
           }
          }
         }
        }
       } else {
        if i < 40 {
         if i < 37 {
          if i < 35 {
           Table::row(-1191200400, 0, 3600, "WEST")
          } else {
           if i < 36 {
            Table::row(-1175475600, 0, 0, "WET")
           } else {
            Table::row(-1160355600, 0, 3600, "WEST")
           }
          }
         } else {
          if i < 38 {
           Table::row(-1143421200, 0, 0, "WET")
          } else {
           if i < 39 {
            Table::row(-1127696400, 0, 3600, "WEST")
           } else {
            Table::row(-1111971600, 0, 0, "WET")
           }
          }
         }
        } else {
         if i < 43 {
          if i < 41 {
           Table::row(-1096851600, 0, 3600, "WEST")
          } else {
           if i < 42 {
            Table::row(-1080522000, 0, 0, "WET")
           } else {
            Table::row(-1063587600, 0, 3600, "WEST")
           }
          }
         } else {
          if i < 44 {
           Table::row(-1049072400, 0, 0, "WET")
          } else {
           if i < 45 {
            Table::row(-1033347600, 0, 3600, "WEST")
           } else {
            Table::row(-1017622800, 0, 0, "WET")
           }
          }
         }
        }
       }
      }
     } else {
      if i < 69 {
       if i < 57 {
        if i < 51 {
         if i < 48 {
          if i < 47 {
           Table::row(-1002502800, 0, 3600, "WEST")
          } else {
           Table::row(-986173200, 0, 0, "WET")
          }
         } else {
          if i < 49 {
           Table::row(-969238800, 0, 3600, "WEST")
          } else {
           if i < 50 {
            Table::row(-950490000, 0, 0, "WET")
           } else {
            Table::row(-942012000, 0, 3600, "WEST")
           }
          }
         }
        } else {
         if i < 54 {
          if i < 52 {
           Table::row(-904438800, 0, 7200, "WEMT")
          } else {
           if i < 53 {
            Table::row(-891136800, 0, 3600, "WEST")
           } else {
            Table::row(-877827600, 0, 7200, "WEMT")
           }
          }
         } else {
          if i < 55 {
           Table::row(-857257200, 0, 3600, "WEST")
          } else {
           if i < 56 {
            Table::row(-844556400, 0, 7200, "WEMT")
           } else {
            Table::row(-828226800, 0, 3600, "WEST")
           }
          }
         }
        }
       } else {
        if i < 63 {
         if i < 60 {
          if i < 58 {
           Table::row(-812502000, 0, 7200, "WEMT")
          } else {
           if i < 59 {
            Table::row(-796266000, 0, 3600, "WEST")
           } else {
            Table::row(-781052400, 0, 7200, "WEMT")
           }
          }
         } else {
          if i < 61 {
           Table::row(-766623600, 3600, 0, "CET")
          } else {
           if i < 62 {
            Table::row(196819200, 3600, 3600, "CEST")
           } else {
            Table::row(212540400, 3600, 0, "CET")
           }
          }
         }
        } else {
         if i < 66 {
          if i < 64 {
           Table::row(228877200, 3600, 3600, "CEST")
          } else {
           if i < 65 {
            Table::row(243997200, 3600, 0, "CET")
           } else {
            Table::row(260326800, 3600, 3600, "CEST")
           }
          }
         } else {
          if i < 67 {
           Table::row(276051600, 3600, 0, "CET")
          } else {
           if i < 68 {
            Table::row(291776400, 3600, 3600, "CEST")
           } else {
            Table::row(307501200, 3600, 0, "CET")
           }
          }
         }
        }
       }
      } else {
       if i < 80 {
        if i < 74 {
         if i < 71 {
          if i < 70 {
           Table::row(323830800, 3600, 3600, "CEST")
          } else {
           Table::row(338950800, 3600, 0, "CET")
          }
         } else {
          if i < 72 {
           Table::row(354675600, 3600, 3600, "CEST")
          } else {
           if i < 73 {
            Table::row(370400400, 3600, 0, "CET")
           } else {
            Table::row(386125200, 3600, 3600, "CEST")
           }
          }
         }
        } else {
         if i < 77 {
          if i < 75 {
           Table::row(401850000, 3600, 0, "CET")
          } else {
           if i < 76 {
            Table::row(417574800, 3600, 3600, "CEST")
           } else {
            Table::row(433299600, 3600, 0, "CET")
           }
          }
         } else {
          if i < 78 {
           Table::row(449024400, 3600, 3600, "CEST")
          } else {
           if i < 79 {
            Table::row(465354000, 3600, 0, "CET")
           } else {
            Table::row(481078800, 3600, 3600, "CEST")
           }
          }
         }
        }
       } else {
        if i < 86 {
         if i < 83 {
          if i < 81 {
           Table::row(496803600, 3600, 0, "CET")
          } else {
           if i < 82 {
            Table::row(512528400, 3600, 3600, "CEST")
           } else {
            Table::row(528253200, 3600, 0, "CET")
           }
          }
         } else {
          if i < 84 {
           Table::row(543978000, 3600, 3600, "CEST")
          } else {
           if i < 85 {
            Table::row(559702800, 3600, 0, "CET")
           } else {
            Table::row(575427600, 3600, 3600, "CEST")
           }
          }
         }
        } else {
         if i < 89 {
          if i < 87 {
           Table::row(591152400, 3600, 0, "CET")
          } else {
           if i < 88 {
            Table::row(606877200, 3600, 3600, "CEST")
           } else {
            Table::row(622602000, 3600, 0, "CET")
           }
          }
         } else {
          if i < 90 {
           Table::row(638326800, 3600, 3600, "CEST")
          } else {
           if i < 91 {
            Table::row(654656400, 3600, 0, "CET")
           } else {
            Table::row(670381200, 3600, 3600, "CEST")
           }
          }
         }
        }
       }
      }
     }
    } else {
     if i < 138 {
      if i < 115 {
       if i < 103 {
        if i < 97 {
         if i < 94 {
          if i < 93 {
           Table::row(686106000, 3600, 0, "CET")
          } else {
           Table::row(701830800, 3600, 3600, "CEST")
          }
         } else {
          if i < 95 {
           Table::row(717555600, 3600, 0, "CET")
          } else {
           if i < 96 {
            Table::row(733280400, 3600, 3600, "CEST")
           } else {
            Table::row(749005200, 3600, 0, "CET")
           }
          }
         }
        } else {
         if i < 100 {
          if i < 98 {
           Table::row(764730000, 3600, 3600, "CEST")
          } else {
           if i < 99 {
            Table::row(780454800, 3600, 0, "CET")
           } else {
            Table::row(796179600, 3600, 3600, "CEST")
           }
          }
         } else {
          if i < 101 {
           Table::row(811904400, 3600, 0, "CET")
          } else {
           if i < 102 {
            Table::row(828234000, 3600, 3600, "CEST")
           } else {
            Table::row(846378000, 3600, 0, "CET")
           }
          }
         }
        }
       } else {
        if i < 109 {
         if i < 106 {
          if i < 104 {
           Table::row(859683600, 3600, 3600, "CEST")
          } else {
           if i < 105 {
            Table::row(877827600, 3600, 0, "CET")
           } else {
            Table::row(891133200, 3600, 3600, "CEST")
           }
          }
         } else {
          if i < 107 {
           Table::row(909277200, 3600, 0, "CET")
          } else {
           if i < 108 {
            Table::row(922582800, 3600, 3600, "CEST")
           } else {
            Table::row(941331600, 3600, 0, "CET")
           }
          }
         }
        } else {
         if i < 112 {
          if i < 110 {
           Table::row(954032400, 3600, 3600, "CEST")
          } else {
           if i < 111 {
            Table::row(972781200, 3600, 0, "CET")
           } else {
            Table::row(985482000, 3600, 3600, "CEST")
           }
          }
         } else {
          if i < 113 {
           Table::row(1004230800, 3600, 0, "CET")
          } else {
           if i < 114 {
            Table::row(1017536400, 3600, 3600, "CEST")
           } else {
            Table::row(1035680400, 3600, 0, "CET")
           }
          }
         }
        }
       }
      } else {
       if i < 126 {
        if i < 120 {
         if i < 117 {
          if i < 116 {
           Table::row(1048986000, 3600, 3600, "CEST")
          } else {
           Table::row(1067130000, 3600, 0, "CET")
          }
         } else {
          if i < 118 {
           Table::row(1080435600, 3600, 3600, "CEST")
          } else {
           if i < 119 {
            Table::row(1099184400, 3600, 0, "CET")
           } else {
            Table::row(1111885200, 3600, 3600, "CEST")
           }
          }
         }
        } else {
         if i < 123 {
          if i < 121 {
           Table::row(1130634000, 3600, 0, "CET")
          } else {
           if i < 122 {
            Table::row(1143334800, 3600, 3600, "CEST")
           } else {
            Table::row(1162083600, 3600, 0, "CET")
           }
          }
         } else {
          if i < 124 {
           Table::row(1174784400, 3600, 3600, "CEST")
          } else {
           if i < 125 {
            Table::row(1193533200, 3600, 0, "CET")
           } else {
            Table::row(1206838800, 3600, 3600, "CEST")
           }
          }
         }
        }
       } else {
        if i < 132 {
         if i < 129 {
          if i < 127 {
           Table::row(1224982800, 3600, 0, "CET")
          } else {
           if i < 128 {
            Table::row(1238288400, 3600, 3600, "CEST")
           } else {
            Table::row(1256432400, 3600, 0, "CET")
           }
          }
         } else {
          if i < 130 {
           Table::row(1269738000, 3600, 3600, "CEST")
          } else {
           if i < 131 {
            Table::row(1288486800, 3600, 0, "CET")
           } else {
            Table::row(1301187600, 3600, 3600, "CEST")
           }
          }
         }
        } else {
         if i < 135 {
          if i < 133 {
           Table::row(1319936400, 3600, 0, "CET")
          } else {
           if i < 134 {
            Table::row(1332637200, 3600, 3600, "CEST")
           } else {
            Table::row(1351386000, 3600, 0, "CET")
           }
          }
         } else {
          if i < 136 {
           Table::row(1364691600, 3600, 3600, "CEST")
          } else {
           if i < 137 {
            Table::row(1382835600, 3600, 0, "CET")
           } else {
            Table::row(1396141200, 3600, 3600, "CEST")
           }
          }
         }
        }
       }
      }
     } else {
      if i < 161 {
       if i < 149 {
        if i < 143 {
         if i < 140 {
          if i < 139 {
           Table::row(1414285200, 3600, 0, "CET")
          } else {
           Table::row(1427590800, 3600, 3600, "CEST")
          }
         } else {
          if i < 141 {
           Table::row(1445734800, 3600, 0, "CET")
          } else {
           if i < 142 {
            Table::row(1459040400, 3600, 3600, "CEST")
           } else {
            Table::row(1477789200, 3600, 0, "CET")
           }
          }
         }
        } else {
         if i < 146 {
          if i < 144 {
           Table::row(1490490000, 3600, 3600, "CEST")
          } else {
           if i < 145 {
            Table::row(1509238800, 3600, 0, "CET")
           } else {
            Table::row(1521939600, 3600, 3600, "CEST")
           }
          }
         } else {
          if i < 147 {
           Table::row(1540688400, 3600, 0, "CET")
          } else {
           if i < 148 {
            Table::row(1553994000, 3600, 3600, "CEST")
           } else {
            Table::row(1572138000, 3600, 0, "CET")
           }
          }
         }
        }
       } else {
        if i < 155 {
         if i < 152 {
          if i < 150 {
           Table::row(1585443600, 3600, 3600, "CEST")
          } else {
           if i < 151 {
            Table::row(1603587600, 3600, 0, "CET")
           } else {
            Table::row(1616893200, 3600, 3600, "CEST")
           }
          }
         } else {
          if i < 153 {
           Table::row(1635642000, 3600, 0, "CET")
          } else {
           if i < 154 {
            Table::row(1648342800, 3600, 3600, "CEST")
           } else {
            Table::row(1667091600, 3600, 0, "CET")
           }
          }
         }
        } else {
         if i < 158 {
          if i < 156 {
           Table::row(1679792400, 3600, 3600, "CEST")
          } else {
           if i < 157 {
            Table::row(1698541200, 3600, 0, "CET")
           } else {
            Table::row(1711846800, 3600, 3600, "CEST")
           }
          }
         } else {
          if i < 159 {
           Table::row(1729990800, 3600, 0, "CET")
          } else {
           if i < 160 {
            Table::row(1743296400, 3600, 3600, "CEST")
           } else {
            Table::row(1761440400, 3600, 0, "CET")
           }
          }
         }
        }
       }
      } else {
       if i < 173 {
        if i < 167 {
         if i < 164 {
          if i < 162 {
           Table::row(1774746000, 3600, 3600, "CEST")
          } else {
           if i < 163 {
            Table::row(1792890000, 3600, 0, "CET")
           } else {
            Table::row(1806195600, 3600, 3600, "CEST")
           }
          }
         } else {
          if i < 165 {
           Table::row(1824944400, 3600, 0, "CET")
          } else {
           if i < 166 {
            Table::row(1837645200, 3600, 3600, "CEST")
           } else {
            Table::row(1856394000, 3600, 0, "CET")
           }
          }
         }
        } else {
         if i < 170 {
          if i < 168 {
           Table::row(1869094800, 3600, 3600, "CEST")
          } else {
           if i < 169 {
            Table::row(1887843600, 3600, 0, "CET")
           } else {
            Table::row(1901149200, 3600, 3600, "CEST")
           }
          }
         } else {
          if i < 171 {
           Table::row(1919293200, 3600, 0, "CET")
          } else {
           if i < 172 {
            Table::row(1932598800, 3600, 3600, "CEST")
           } else {
            Table::row(1950742800, 3600, 0, "CET")
           }
          }
         }
        }
       } else {
        if i < 179 {
         if i < 176 {
          if i < 174 {
           Table::row(1964048400, 3600, 3600, "CEST")
          } else {
           if i < 175 {
            Table::row(1982797200, 3600, 0, "CET")
           } else {
            Table::row(1995498000, 3600, 3600, "CEST")
           }
          }
         } else {
          if i < 177 {
           Table::row(2014246800, 3600, 0, "CET")
          } else {
           if i < 178 {
            Table::row(2026947600, 3600, 3600, "CEST")
           } else {
            Table::row(2045696400, 3600, 0, "CET")
           }
          }
         }
        } else {
         if i < 182 {
          if i < 180 {
           Table::row(2058397200, 3600, 3600, "CEST")
          } else {
           if i < 181 {
            Table::row(2077146000, 3600, 0, "CET")
           } else {
            Table::row(2090451600, 3600, 3600, "CEST")
           }
          }
         } else {
          if i < 183 {
           Table::row(2108595600, 3600, 0, "CET")
          } else {
           if i < 184 {
            Table::row(2121901200, 3600, 3600, "CEST")
           } else {
            Table::row(2140045200, 3600, 0, "CET")
           }
          }
         }
        }
       }
      }
     }
    }
}

/// The rows of the table of the zone `Europe/Monaco`.
pub open spec fn monaco_rows() -> spec_fn(int) -> (i64, FixedTimespan) {
    |i: int| monaco_row(i)
}

/// The table of the zone `Europe/Monaco`.
pub open spec fn monaco() -> Table {
    Table::listed(Table::row(0, 1772, 0, "LMT").1, 185, monaco_rows())
}

/// Row `i` of the table of the zone `Europe/Moscow`.
pub open spec fn moscow_row(i: int) -> (i64, FixedTimespan) {
    if i < 39 {
     if i < 19 {
      if i < 9 {
       if i < 4 {
        if i < 2 {
         if i < 1 {
          Table::row(-2840149817, 9017, 0, "MMT")
         } else {
          Table::row(-1688265017, 9079, 0, "MMT")
         }
        } else {
         if i < 3 {
          Table::row(-1656819079, 9079, 3600, "MST")
         } else {
          Table::row(-1641353479, 9079, 0, "MMT")
         }
        }
       } else {
        if i < 6 {
         if i < 5 {
          Table::row(-1627965079, 9079, 7200, "MDST")
         } else {
          Table::row(-1618716679, 9079, 3600, "MST")
         }
        } else {
         if i < 7 {
          Table::row(-1596429079, 9079, 7200, "MDST")
         } else {
          if i < 8 {
           Table::row(-1593820800, 9079, 5321, "MSD")
          } else {
           Table::row(-1589860800, 10800, 0, "MSK")
          }
         }
        }
       }
      } else {
       if i < 14 {
        if i < 11 {
         if i < 10 {
          Table::row(-1542427200, 10800, 3600, "MSD")
         } else {
          Table::row(-1539493200, 10800, 7200, "+05")
         }
        } else {
         if i < 12 {
          Table::row(-1525323600, 10800, 3600, "MSD")
         } else {
          if i < 13 {
           Table::row(-1522728000, 10800, 0, "MSK")
          } else {
           Table::row(-1491188400, 7200, 0, "EET")
          }
         }
        }
       } else {
        if i < 16 {
         if i < 15 {
          Table::row(-1247536800, 10800, 0, "MSK")
         } else {
          Table::row(354920400, 10800, 3600, "MSD")
         }
        } else {
         if i < 17 {
          Table::row(370728000, 10800, 0, "MSK")
         } else {
          if i < 18 {
           Table::row(386456400, 10800, 3600, "MSD")
          } else {
           Table::row(402264000, 10800, 0, "MSK")
          }
         }
        }
       }
      }
     } else {
      if i < 29 {
       if i < 24 {
        if i < 21 {
         if i < 20 {
          Table::row(417992400, 10800, 3600, "MSD")
         } else {
          Table::row(433800000, 10800, 0, "MSK")
         }
        } else {
         if i < 22 {
          Table::row(449614800, 10800, 3600, "MSD")
         } else {
          if i < 23 {
           Table::row(465346800, 10800, 0, "MSK")
          } else {
           Table::row(481071600, 10800, 3600, "MSD")
          }
         }
        }
       } else {
        if i < 26 {
         if i < 25 {
          Table::row(496796400, 10800, 0, "MSK")
         } else {
          Table::row(512521200, 10800, 3600, "MSD")
         }
        } else {
         if i < 27 {
          Table::row(528246000, 10800, 0, "MSK")
         } else {
          if i < 28 {
           Table::row(543970800, 10800, 3600, "MSD")
          } else {
           Table::row(559695600, 10800, 0, "MSK")
          }
         }
        }
       }
      } else {
       if i < 34 {
        if i < 31 {
         if i < 30 {
          Table::row(575420400, 10800, 3600, "MSD")
         } else {
          Table::row(591145200, 10800, 0, "MSK")
         }
        } else {
         if i < 32 {
          Table::row(606870000, 10800, 3600, "MSD")
         } else {
          if i < 33 {
           Table::row(622594800, 10800, 0, "MSK")
          } else {
           Table::row(638319600, 10800, 3600, "MSD")
          }
         }
        }
       } else {
        if i < 36 {
         if i < 35 {
          Table::row(654649200, 10800, 0, "MSK")
         } else {
          Table::row(670374000, 7200, 3600, "EEST")
         }
        } else {
         if i < 37 {
          Table::row(686102400, 7200, 0, "EET")
         } else {
          if i < 38 {
           Table::row(695779200, 10800, 0, "MSK")
          } else {
           Table::row(701823600, 10800, 3600, "MSD")
          }
         }
        }
       }
      }
     }
    } else {
     if i < 58 {
      if i < 48 {
       if i < 43 {
        if i < 41 {
         if i < 40 {
          Table::row(717548400, 10800, 0, "MSK")
         } else {
          Table::row(733273200, 10800, 3600, "MSD")
         }
        } else {
         if i < 42 {
          Table::row(748998000, 10800, 0, "MSK")
         } else {
          Table::row(764722800, 10800, 3600, "MSD")
         }
        }
       } else {
        if i < 45 {
         if i < 44 {
          Table::row(780447600, 10800, 0, "MSK")
         } else {
          Table::row(796172400, 10800, 3600, "MSD")
         }
        } else {
         if i < 46 {
          Table::row(811897200, 10800, 0, "MSK")
         } else {
          if i < 47 {
           Table::row(828226800, 10800, 3600, "MSD")
          } else {
           Table::row(846370800, 10800, 0, "MSK")
          }
         }
        }
       }
      } else {
       if i < 53 {
        if i < 50 {
         if i < 49 {
          Table::row(859676400, 10800, 3600, "MSD")
         } else {
          Table::row(877820400, 10800, 0, "MSK")
         }
        } else {
         if i < 51 {
          Table::row(891126000, 10800, 3600, "MSD")
         } else {
          if i < 52 {
           Table::row(909270000, 10800, 0, "MSK")
          } else {
           Table::row(922575600, 10800, 3600, "MSD")
          }
         }
        }
       } else {
        if i < 55 {
         if i < 54 {
          Table::row(941324400, 10800, 0, "MSK")
         } else {
          Table::row(954025200, 10800, 3600, "MSD")
         }
        } else {
         if i < 56 {
          Table::row(972774000, 10800, 0, "MSK")
         } else {
          if i < 57 {
           Table::row(985474800, 10800, 3600, "MSD")
          } else {
           Table::row(1004223600, 10800, 0, "MSK")
          }
         }
        }
       }
      }
     } else {
      if i < 68 {
       if i < 63 {
        if i < 60 {
         if i < 59 {
          Table::row(1017529200, 10800, 3600, "MSD")
         } else {
          Table::row(1035673200, 10800, 0, "MSK")
         }
        } else {
         if i < 61 {
          Table::row(1048978800, 10800, 3600, "MSD")
         } else {
          if i < 62 {
           Table::row(1067122800, 10800, 0, "MSK")
          } else {
           Table::row(1080428400, 10800, 3600, "MSD")
          }
         }
        }
       } else {
        if i < 65 {
         if i < 64 {
          Table::row(1099177200, 10800, 0, "MSK")
         } else {
          Table::row(1111878000, 10800, 3600, "MSD")
         }
        } else {
         if i < 66 {
          Table::row(1130626800, 10800, 0, "MSK")
         } else {
          if i < 67 {
           Table::row(1143327600, 10800, 3600, "MSD")
          } else {
           Table::row(1162076400, 10800, 0, "MSK")
          }
         }
        }
       }
      } else {
       if i < 73 {
        if i < 70 {
         if i < 69 {
          Table::row(1174777200, 10800, 3600, "MSD")
         } else {
          Table::row(1193526000, 10800, 0, "MSK")
         }
        } else {
         if i < 71 {
          Table::row(1206831600, 10800, 3600, "MSD")
         } else {
          if i < 72 {
           Table::row(1224975600, 10800, 0, "MSK")
          } else {
           Table::row(1238281200, 10800, 3600, "MSD")
          }
         }
        }
       } else {
        if i < 75 {
         if i < 74 {
          Table::row(1256425200, 10800, 0, "MSK")
         } else {
          Table::row(1269730800, 10800, 3600, "MSD")
         }
        } else {
         if i < 76 {
          Table::row(1288479600, 10800, 0, "MSK")
         } else {
          if i < 77 {
           Table::row(1301180400, 14400, 0, "MSK")
          } else {
           Table::row(1414274400, 10800, 0, "MSK")
          }
         }
        }
       }
      }
     }
    }
}

/// The rows of the table of the zone `Europe/Moscow`.
pub open spec fn moscow_rows() -> spec_fn(int) -> (i64, FixedTimespan) {
    |i: int| moscow_row(i)
}

/// The table of the zone `Europe/Moscow`.
pub open spec fn moscow() -> Table {
    Table::listed(Table::row(0, 9017, 0, "LMT").1, 78, moscow_rows())
}

/// Row `i` of the table of the zone `Europe/Nicosia`.
pub open spec fn nicosia_row(i: int) -> (i64, FixedTimespan) {
    if i < 63 {
     if i < 31 {
      if i < 15 {
       if i < 7 {
        if i < 3 {
         if i < 1 {
          Table::row(-1518920008, 7200, 0, "EET")
         } else {
          if i < 2 {
           Table::row(166572000, 7200, 3600, "EEST")
          } else {
           Table::row(182293200, 7200, 0, "EET")
          }
         }
        } else {
         if i < 5 {
          if i < 4 {
           Table::row(200959200, 7200, 3600, "EEST")
          } else {
           Table::row(213829200, 7200, 0, "EET")
          }
         } else {
          if i < 6 {
           Table::row(228866400, 7200, 3600, "EEST")
          } else {
           Table::row(243982800, 7200, 0, "EET")
          }
         }
        }
       } else {
        if i < 11 {
         if i < 9 {
          if i < 8 {
           Table::row(260316000, 7200, 3600, "EEST")
          } else {
           Table::row(276123600, 7200, 0, "EET")
          }
         } else {
          if i < 10 {
           Table::row(291765600, 7200, 3600, "EEST")
          } else {
           Table::row(307486800, 7200, 0, "EET")
          }
         }
        } else {
         if i < 13 {
          if i < 12 {
           Table::row(323820000, 7200, 3600, "EEST")
          } else {
           Table::row(338936400, 7200, 0, "EET")
          }
         } else {
          if i < 14 {
           Table::row(354664800, 7200, 3600, "EEST")
          } else {
           Table::row(370386000, 7200, 0, "EET")
          }
         }
        }
       }
      } else {
       if i < 23 {
        if i < 19 {
         if i < 17 {
          if i < 16 {
           Table::row(386114400, 7200, 3600, "EEST")
          } else {
           Table::row(401835600, 7200, 0, "EET")
          }
         } else {
          if i < 18 {
           Table::row(417564000, 7200, 3600, "EEST")
          } else {
           Table::row(433285200, 7200, 0, "EET")
          }
         }
        } else {
         if i < 21 {
          if i < 20 {
           Table::row(449013600, 7200, 3600, "EEST")
          } else {
           Table::row(465339600, 7200, 0, "EET")
          }
         } else {
          if i < 22 {
           Table::row(481068000, 7200, 3600, "EEST")
          } else {
           Table::row(496789200, 7200, 0, "EET")
          }
         }
        }
       } else {
        if i < 27 {
         if i < 25 {
          if i < 24 {
           Table::row(512517600, 7200, 3600, "EEST")
          } else {
           Table::row(528238800, 7200, 0, "EET")
          }
         } else {
          if i < 26 {
           Table::row(543967200, 7200, 3600, "EEST")
          } else {
           Table::row(559688400, 7200, 0, "EET")
          }
         }
        } else {
         if i < 29 {
          if i < 28 {
           Table::row(575416800, 7200, 3600, "EEST")
          } else {
           Table::row(591138000, 7200, 0, "EET")
          }
         } else {
          if i < 30 {
           Table::row(606866400, 7200, 3600, "EEST")
          } else {
           Table::row(622587600, 7200, 0, "EET")
          }
         }
        }
       }
      }
     } else {
      if i < 47 {
       if i < 39 {
        if i < 35 {
         if i < 33 {
          if i < 32 {
           Table::row(638316000, 7200, 3600, "EEST")
          } else {
           Table::row(654642000, 7200, 0, "EET")
          }
         } else {
          if i < 34 {
           Table::row(670370400, 7200, 3600, "EEST")
          } else {
           Table::row(686091600, 7200, 0, "EET")
          }
         }
        } else {
         if i < 37 {
          if i < 36 {
           Table::row(701820000, 7200, 3600, "EEST")
          } else {
           Table::row(717541200, 7200, 0, "EET")
          }
         } else {
          if i < 38 {
           Table::row(733269600, 7200, 3600, "EEST")
          } else {
           Table::row(748990800, 7200, 0, "EET")
          }
         }
        }
       } else {
        if i < 43 {
         if i < 41 {
          if i < 40 {
           Table::row(764719200, 7200, 3600, "EEST")
          } else {
           Table::row(780440400, 7200, 0, "EET")
          }
         } else {
          if i < 42 {
           Table::row(796168800, 7200, 3600, "EEST")
          } else {
           Table::row(811890000, 7200, 0, "EET")
          }
         }
        } else {
         if i < 45 {
          if i < 44 {
           Table::row(828223200, 7200, 3600, "EEST")
          } else {
           Table::row(843944400, 7200, 0, "EET")
          }
         } else {
          if i < 46 {
           Table::row(859672800, 7200, 3600, "EEST")
          } else {
           Table::row(875394000, 7200, 0, "EET")
          }
         }
        }
       }
      } else {
       if i < 55 {
        if i < 51 {
         if i < 49 {
          if i < 48 {
           Table::row(891122400, 7200, 3600, "EEST")
          } else {
           Table::row(909277200, 7200, 0, "EET")
          }
         } else {
          if i < 50 {
           Table::row(922582800, 7200, 3600, "EEST")
          } else {
           Table::row(941331600, 7200, 0, "EET")
          }
         }
        } else {
         if i < 53 {
          if i < 52 {
           Table::row(954032400, 7200, 3600, "EEST")
          } else {
           Table::row(972781200, 7200, 0, "EET")
          }
         } else {
          if i < 54 {
           Table::row(985482000, 7200, 3600, "EEST")
          } else {
           Table::row(1004230800, 7200, 0, "EET")
          }
         }
        }
       } else {
        if i < 59 {
         if i < 57 {
          if i < 56 {
           Table::row(1017536400, 7200, 3600, "EEST")
          } else {
           Table::row(1035680400, 7200, 0, "EET")
          }
         } else {
          if i < 58 {
           Table::row(1048986000, 7200, 3600, "EEST")
          } else {
           Table::row(1067130000, 7200, 0, "EET")
          }
         }
        } else {
         if i < 61 {
          if i < 60 {
           Table::row(1080435600, 7200, 3600, "EEST")
          } else {
           Table::row(1099184400, 7200, 0, "EET")
          }
         } else {
          if i < 62 {
           Table::row(1111885200, 7200, 3600, "EEST")
          } else {
           Table::row(1130634000, 7200, 0, "EET")
          }
         }
        }
       }
      }
     }
    } else {
     if i < 95 {
      if i < 79 {
       if i < 71 {
        if i < 67 {
         if i < 65 {
          if i < 64 {
           Table::row(1143334800, 7200, 3600, "EEST")
          } else {
           Table::row(1162083600, 7200, 0, "EET")
          }
         } else {
          if i < 66 {
           Table::row(1174784400, 7200, 3600, "EEST")
          } else {
           Table::row(1193533200, 7200, 0, "EET")
          }
         }
        } else {
         if i < 69 {
          if i < 68 {
           Table::row(1206838800, 7200, 3600, "EEST")
          } else {
           Table::row(1224982800, 7200, 0, "EET")
          }
         } else {
          if i < 70 {
           Table::row(1238288400, 7200, 3600, "EEST")
          } else {
           Table::row(1256432400, 7200, 0, "EET")
          }
         }
        }
       } else {
        if i < 75 {
         if i < 73 {
          if i < 72 {
           Table::row(1269738000, 7200, 3600, "EEST")
          } else {
           Table::row(1288486800, 7200, 0, "EET")
          }
         } else {
          if i < 74 {
           Table::row(1301187600, 7200, 3600, "EEST")
          } else {
           Table::row(1319936400, 7200, 0, "EET")
          }
         }
        } else {
         if i < 77 {
          if i < 76 {
           Table::row(1332637200, 7200, 3600, "EEST")
          } else {
           Table::row(1351386000, 7200, 0, "EET")
          }
         } else {
          if i < 78 {
           Table::row(1364691600, 7200, 3600, "EEST")
          } else {
           Table::row(1382835600, 7200, 0, "EET")
          }
         }
        }
       }
      } else {
       if i < 87 {
        if i < 83 {
         if i < 81 {
          if i < 80 {
           Table::row(1396141200, 7200, 3600, "EEST")
          } else {
           Table::row(1414285200, 7200, 0, "EET")
          }
         } else {
          if i < 82 {
           Table::row(1427590800, 7200, 3600, "EEST")
          } else {
           Table::row(1445734800, 7200, 0, "EET")
          }
         }
        } else {
         if i < 85 {
          if i < 84 {
           Table::row(1459040400, 7200, 3600, "EEST")
          } else {
           Table::row(1477789200, 7200, 0, "EET")
          }
         } else {
          if i < 86 {
           Table::row(1490490000, 7200, 3600, "EEST")
          } else {
           Table::row(1509238800, 7200, 0, "EET")
          }
         }
        }
       } else {
        if i < 91 {
         if i < 89 {
          if i < 88 {
           Table::row(1521939600, 7200, 3600, "EEST")
          } else {
           Table::row(1540688400, 7200, 0, "EET")
          }
         } else {
          if i < 90 {
           Table::row(1553994000, 7200, 3600, "EEST")
          } else {
           Table::row(1572138000, 7200, 0, "EET")
          }
         }
        } else {
         if i < 93 {
          if i < 92 {
           Table::row(1585443600, 7200, 3600, "EEST")
          } else {
           Table::row(1603587600, 7200, 0, "EET")
          }
         } else {
          if i < 94 {
           Table::row(1616893200, 7200, 3600, "EEST")
          } else {
           Table::row(1635642000, 7200, 0, "EET")
          }
         }
        }
       }
      }
     } else {
      if i < 111 {
       if i < 103 {
        if i < 99 {
         if i < 97 {
          if i < 96 {
           Table::row(1648342800, 7200, 3600, "EEST")
          } else {
           Table::row(1667091600, 7200, 0, "EET")
          }
         } else {
          if i < 98 {
           Table::row(1679792400, 7200, 3600, "EEST")
          } else {
           Table::row(1698541200, 7200, 0, "EET")
          }
         }
        } else {
         if i < 101 {
          if i < 100 {
           Table::row(1711846800, 7200, 3600, "EEST")
          } else {
           Table::row(1729990800, 7200, 0, "EET")
          }
         } else {
          if i < 102 {
           Table::row(1743296400, 7200, 3600, "EEST")
          } else {
           Table::row(1761440400, 7200, 0, "EET")
          }
         }
        }
       } else {
        if i < 107 {
         if i < 105 {
          if i < 104 {
           Table::row(1774746000, 7200, 3600, "EEST")
          } else {
           Table::row(1792890000, 7200, 0, "EET")
          }
         } else {
          if i < 106 {
           Table::row(1806195600, 7200, 3600, "EEST")
          } else {
           Table::row(1824944400, 7200, 0, "EET")
          }
         }
        } else {
         if i < 109 {
          if i < 108 {
           Table::row(1837645200, 7200, 3600, "EEST")
          } else {
           Table::row(1856394000, 7200, 0, "EET")
          }
         } else {
          if i < 110 {
           Table::row(1869094800, 7200, 3600, "EEST")
          } else {
           Table::row(1887843600, 7200, 0, "EET")
          }
         }
        }
       }
      } else {
       if i < 119 {
        if i < 115 {
         if i < 113 {
          if i < 112 {
           Table::row(1901149200, 7200, 3600, "EEST")
          } else {
           Table::row(1919293200, 7200, 0, "EET")
          }
         } else {
          if i < 114 {
           Table::row(1932598800, 7200, 3600, "EEST")
          } else {
           Table::row(1950742800, 7200, 0, "EET")
          }
         }
        } else {
         if i < 117 {
          if i < 116 {
           Table::row(1964048400, 7200, 3600, "EEST")
          } else {
           Table::row(1982797200, 7200, 0, "EET")
          }
         } else {
          if i < 118 {
           Table::row(1995498000, 7200, 3600, "EEST")
          } else {
           Table::row(2014246800, 7200, 0, "EET")
          }
         }
        }
       } else {
        if i < 123 {
         if i < 121 {
          if i < 120 {
           Table::row(2026947600, 7200, 3600, "EEST")
          } else {
           Table::row(2045696400, 7200, 0, "EET")
          }
         } else {
          if i < 122 {
           Table::row(2058397200, 7200, 3600, "EEST")
          } else {
           Table::row(2077146000, 7200, 0, "EET")
          }
         }
        } else {
         if i < 125 {
          if i < 124 {
           Table::row(2090451600, 7200, 3600, "EEST")
          } else {
           Table::row(2108595600, 7200, 0, "EET")
          }
         } else {
          if i < 126 {
           Table::row(2121901200, 7200, 3600, "EEST")
          } else {
           Table::row(2140045200, 7200, 0, "EET")
          }
         }
        }
       }
      }
     }
    }
}

/// The rows of the table of the zone `Europe/Nicosia`.
pub open spec fn nicosia_rows() -> spec_fn(int) -> (i64, FixedTimespan) {
    |i: int| nicosia_row(i)
}

/// The table of the zone `Europe/Nicosia`.
pub open spec fn nicosia() -> Table {
    Table::listed(Table::row(0, 8008, 0, "LMT").1, 127, nicosia_rows())
}

/// Row `i` of the table of the zone `Europe/Oslo`.
pub open spec fn oslo_row(i: int) -> (i64, FixedTimespan) {
    if i < 70 {
     if i < 35 {
      if i < 17 {
       if i < 8 {
        if i < 4 {
         if i < 2 {
          if i < 1 {
           Table::row(-2366757780, 3600, 0, "CET")
          } else {
           Table::row(-1691884800, 3600, 3600, "CEST")
          }
         } else {
          if i < 3 {
           Table::row(-1680573600, 3600, 0, "CET")
          } else {
           Table::row(-927511200, 3600, 3600, "CEST")
          }
         }
        } else {
         if i < 6 {
          if i < 5 {
           Table::row(-857257200, 3600, 0, "CET")
          } else {
           Table::row(-844556400, 3600, 3600, "CEST")
          }
         } else {
          if i < 7 {
           Table::row(-828226800, 3600, 0, "CET")
          } else {
           Table::row(-812502000, 3600, 3600, "CEST")
          }
         }
        }
       } else {
        if i < 12 {
         if i < 10 {
          if i < 9 {
           Table::row(-796777200, 3600, 0, "CET")
          } else {
           Table::row(-781052400, 3600, 3600, "CEST")
          }
         } else {
          if i < 11 {
           Table::row(-765327600, 3600, 0, "CET")
          } else {
           Table::row(-340844400, 3600, 3600, "CEST")
          }
         }
        } else {
         if i < 14 {
          if i < 13 {
           Table::row(-324514800, 3600, 0, "CET")
          } else {
           Table::row(-308790000, 3600, 3600, "CEST")
          }
         } else {
          if i < 15 {
           Table::row(-293065200, 3600, 0, "CET")
          } else {
           if i < 16 {
            Table::row(-277340400, 3600, 3600, "CEST")
           } else {
            Table::row(-261615600, 3600, 0, "CET")
           }
          }
         }
        }
       }
      } else {
       if i < 26 {
        if i < 21 {
         if i < 19 {
          if i < 18 {
           Table::row(-245890800, 3600, 3600, "CEST")
          } else {
           Table::row(-230166000, 3600, 0, "CET")
          }
         } else {
          if i < 20 {
           Table::row(-214441200, 3600, 3600, "CEST")
          } else {
           Table::row(-198716400, 3600, 0, "CET")
          }
         }
        } else {
         if i < 23 {
          if i < 22 {
           Table::row(-182991600, 3600, 3600, "CEST")
          } else {
           Table::row(-166662000, 3600, 0, "CET")
          }
         } else {
          if i < 24 {
           Table::row(-147913200, 3600, 3600, "CEST")
          } else {
           if i < 25 {
            Table::row(-135212400, 3600, 0, "CET")
           } else {
            Table::row(323830800, 3600, 3600, "CEST")
           }
          }
         }
        }
       } else {
        if i < 30 {
         if i < 28 {
          if i < 27 {
           Table::row(338950800, 3600, 0, "CET")
          } else {
           Table::row(354675600, 3600, 3600, "CEST")
          }
         } else {
          if i < 29 {
           Table::row(370400400, 3600, 0, "CET")
          } else {
           Table::row(386125200, 3600, 3600, "CEST")
          }
         }
        } else {
         if i < 32 {
          if i < 31 {
           Table::row(401850000, 3600, 0, "CET")
          } else {
           Table::row(417574800, 3600, 3600, "CEST")
          }
         } else {
          if i < 33 {
           Table::row(433299600, 3600, 0, "CET")
          } else {
           if i < 34 {
            Table::row(449024400, 3600, 3600, "CEST")
           } else {
            Table::row(465354000, 3600, 0, "CET")
           }
          }
         }
        }
       }
      }
     } else {
      if i < 52 {
       if i < 43 {
        if i < 39 {
         if i < 37 {
          if i < 36 {
           Table::row(481078800, 3600, 3600, "CEST")
          } else {
           Table::row(496803600, 3600, 0, "CET")
          }
         } else {
          if i < 38 {
           Table::row(512528400, 3600, 3600, "CEST")
          } else {
           Table::row(528253200, 3600, 0, "CET")
          }
         }
        } else {
         if i < 41 {
          if i < 40 {
           Table::row(543978000, 3600, 3600, "CEST")
          } else {
           Table::row(559702800, 3600, 0, "CET")
          }
         } else {
          if i < 42 {
           Table::row(575427600, 3600, 3600, "CEST")
          } else {
           Table::row(591152400, 3600, 0, "CET")
          }
         }
        }
       } else {
        if i < 47 {
         if i < 45 {
          if i < 44 {
           Table::row(606877200, 3600, 3600, "CEST")
          } else {
           Table::row(622602000, 3600, 0, "CET")
          }
         } else {
          if i < 46 {
           Table::row(638326800, 3600, 3600, "CEST")
          } else {
           Table::row(654656400, 3600, 0, "CET")
          }
         }
        } else {
         if i < 49 {
          if i < 48 {
           Table::row(670381200, 3600, 3600, "CEST")
          } else {
           Table::row(686106000, 3600, 0, "CET")
          }
         } else {
          if i < 50 {
           Table::row(701830800, 3600, 3600, "CEST")
          } else {
           if i < 51 {
            Table::row(717555600, 3600, 0, "CET")
           } else {
            Table::row(733280400, 3600, 3600, "CEST")
           }
          }
         }
        }
       }
      } else {
       if i < 61 {
        if i < 56 {
         if i < 54 {
          if i < 53 {
           Table::row(749005200, 3600, 0, "CET")
          } else {
           Table::row(764730000, 3600, 3600, "CEST")
          }
         } else {
          if i < 55 {
           Table::row(780454800, 3600, 0, "CET")
          } else {
           Table::row(796179600, 3600, 3600, "CEST")
          }
         }
        } else {
         if i < 58 {
          if i < 57 {
           Table::row(811904400, 3600, 0, "CET")
          } else {
           Table::row(828234000, 3600, 3600, "CEST")
          }
         } else {
          if i < 59 {
           Table::row(846378000, 3600, 0, "CET")
          } else {
           if i < 60 {
            Table::row(859683600, 3600, 3600, "CEST")
           } else {
            Table::row(877827600, 3600, 0, "CET")
           }
          }
         }
        }
       } else {
        if i < 65 {
         if i < 63 {
          if i < 62 {
           Table::row(891133200, 3600, 3600, "CEST")
          } else {
           Table::row(909277200, 3600, 0, "CET")
          }
         } else {
          if i < 64 {
           Table::row(922582800, 3600, 3600, "CEST")
          } else {
           Table::row(941331600, 3600, 0, "CET")
          }
         }
        } else {
         if i < 67 {
          if i < 66 {
           Table::row(954032400, 3600, 3600, "CEST")
          } else {
           Table::row(972781200, 3600, 0, "CET")
          }
         } else {
          if i < 68 {
           Table::row(985482000, 3600, 3600, "CEST")
          } else {
           if i < 69 {
            Table::row(1004230800, 3600, 0, "CET")
           } else {
            Table::row(1017536400, 3600, 3600, "CEST")
           }
          }
         }
        }
       }
      }
     }
    } else {
     if i < 105 {
      if i < 87 {
       if i < 78 {
        if i < 74 {
         if i < 72 {
          if i < 71 {
           Table::row(1035680400, 3600, 0, "CET")
          } else {
           Table::row(1048986000, 3600, 3600, "CEST")
          }
         } else {
          if i < 73 {
           Table::row(1067130000, 3600, 0, "CET")
          } else {
           Table::row(1080435600, 3600, 3600, "CEST")
          }
         }
        } else {
         if i < 76 {
          if i < 75 {
           Table::row(1099184400, 3600, 0, "CET")
          } else {
           Table::row(1111885200, 3600, 3600, "CEST")
          }
         } else {
          if i < 77 {
           Table::row(1130634000, 3600, 0, "CET")
          } else {
           Table::row(1143334800, 3600, 3600, "CEST")
          }
         }
        }
       } else {
        if i < 82 {
         if i < 80 {
          if i < 79 {
           Table::row(1162083600, 3600, 0, "CET")
          } else {
           Table::row(1174784400, 3600, 3600, "CEST")
          }
         } else {
          if i < 81 {
           Table::row(1193533200, 3600, 0, "CET")
          } else {
           Table::row(1206838800, 3600, 3600, "CEST")
          }
         }
        } else {
         if i < 84 {
          if i < 83 {
           Table::row(1224982800, 3600, 0, "CET")
          } else {
           Table::row(1238288400, 3600, 3600, "CEST")
          }
         } else {
          if i < 85 {
           Table::row(1256432400, 3600, 0, "CET")
          } else {
           if i < 86 {
            Table::row(1269738000, 3600, 3600, "CEST")
           } else {
            Table::row(1288486800, 3600, 0, "CET")
           }
          }
         }
        }
       }
      } else {
       if i < 96 {
        if i < 91 {
         if i < 89 {
          if i < 88 {
           Table::row(1301187600, 3600, 3600, "CEST")
          } else {
           Table::row(1319936400, 3600, 0, "CET")
          }
         } else {
          if i < 90 {
           Table::row(1332637200, 3600, 3600, "CEST")
          } else {
           Table::row(1351386000, 3600, 0, "CET")
          }
         }
        } else {
         if i < 93 {
          if i < 92 {
           Table::row(1364691600, 3600, 3600, "CEST")
          } else {
           Table::row(1382835600, 3600, 0, "CET")
          }
         } else {
          if i < 94 {
           Table::row(1396141200, 3600, 3600, "CEST")
          } else {
           if i < 95 {
            Table::row(1414285200, 3600, 0, "CET")
           } else {
            Table::row(1427590800, 3600, 3600, "CEST")
           }
          }
         }
        }
       } else {
        if i < 100 {
         if i < 98 {
          if i < 97 {
           Table::row(1445734800, 3600, 0, "CET")
          } else {
           Table::row(1459040400, 3600, 3600, "CEST")
          }
         } else {
          if i < 99 {
           Table::row(1477789200, 3600, 0, "CET")
          } else {
           Table::row(1490490000, 3600, 3600, "CEST")
          }
         }
        } else {
         if i < 102 {
          if i < 101 {
           Table::row(1509238800, 3600, 0, "CET")
          } else {
           Table::row(1521939600, 3600, 3600, "CEST")
          }
         } else {
          if i < 103 {
           Table::row(1540688400, 3600, 0, "CET")
          } else {
           if i < 104 {
            Table::row(1553994000, 3600, 3600, "CEST")
           } else {
            Table::row(1572138000, 3600, 0, "CET")
           }
          }
         }
        }
       }
      }
     } else {
      if i < 123 {
       if i < 114 {
        if i < 109 {
         if i < 107 {
          if i < 106 {
           Table::row(1585443600, 3600, 3600, "CEST")
          } else {
           Table::row(1603587600, 3600, 0, "CET")
          }
         } else {
          if i < 108 {
           Table::row(1616893200, 3600, 3600, "CEST")
          } else {
           Table::row(1635642000, 3600, 0, "CET")
          }
         }
        } else {
         if i < 111 {
          if i < 110 {
           Table::row(1648342800, 3600, 3600, "CEST")
          } else {
           Table::row(1667091600, 3600, 0, "CET")
          }
         } else {
          if i < 112 {
           Table::row(1679792400, 3600, 3600, "CEST")
          } else {
           if i < 113 {
            Table::row(1698541200, 3600, 0, "CET")
           } else {
            Table::row(1711846800, 3600, 3600, "CEST")
           }
          }
         }
        }
       } else {
        if i < 118 {
         if i < 116 {
          if i < 115 {
           Table::row(1729990800, 3600, 0, "CET")
          } else {
           Table::row(1743296400, 3600, 3600, "CEST")
          }
         } else {
          if i < 117 {
           Table::row(1761440400, 3600, 0, "CET")
          } else {
           Table::row(1774746000, 3600, 3600, "CEST")
          }
         }
        } else {
         if i < 120 {
          if i < 119 {
           Table::row(1792890000, 3600, 0, "CET")
          } else {
           Table::row(1806195600, 3600, 3600, "CEST")
          }
         } else {
          if i < 121 {
           Table::row(1824944400, 3600, 0, "CET")
          } else {
           if i < 122 {
            Table::row(1837645200, 3600, 3600, "CEST")
           } else {
            Table::row(1856394000, 3600, 0, "CET")
           }
          }
         }
        }
       }
      } else {
       if i < 132 {
        if i < 127 {
         if i < 125 {
          if i < 124 {
           Table::row(1869094800, 3600, 3600, "CEST")
          } else {
           Table::row(1887843600, 3600, 0, "CET")
          }
         } else {
          if i < 126 {
           Table::row(1901149200, 3600, 3600, "CEST")
          } else {
           Table::row(1919293200, 3600, 0, "CET")
          }
         }
        } else {
         if i < 129 {
          if i < 128 {
           Table::row(1932598800, 3600, 3600, "CEST")
          } else {
           Table::row(1950742800, 3600, 0, "CET")
          }
         } else {
          if i < 130 {
           Table::row(1964048400, 3600, 3600, "CEST")
          } else {
           if i < 131 {
            Table::row(1982797200, 3600, 0, "CET")
           } else {
            Table::row(1995498000, 3600, 3600, "CEST")
           }
          }
         }
        }
       } else {
        if i < 136 {
         if i < 134 {
          if i < 133 {
           Table::row(2014246800, 3600, 0, "CET")
          } else {
           Table::row(2026947600, 3600, 3600, "CEST")
          }
         } else {
          if i < 135 {
           Table::row(2045696400, 3600, 0, "CET")
          } else {
           Table::row(2058397200, 3600, 3600, "CEST")
          }
         }
        } else {
         if i < 138 {
          if i < 137 {
           Table::row(2077146000, 3600, 0, "CET")
          } else {
           Table::row(2090451600, 3600, 3600, "CEST")
          }
         } else {
          if i < 139 {
           Table::row(2108595600, 3600, 0, "CET")
          } else {
           if i < 140 {
            Table::row(2121901200, 3600, 3600, "CEST")
           } else {
            Table::row(2140045200, 3600, 0, "CET")
           }
          }
         }
        }
       }
      }
     }
    }
}

/// The rows of the table of the zone `Europe/Oslo`.
pub open spec fn oslo_rows() -> spec_fn(int) -> (i64, FixedTimespan) {
    |i: int| oslo_row(i)
}

/// The table of the zone `Europe/Oslo`.
pub open spec fn oslo() -> Table {
    Table::listed(Table::row(0, 2580, 0, "LMT").1, 141, oslo_rows())
}

/// Row `i` of the table of the zone `Europe/Paris`.
pub open spec fn paris_row(i: int) -> (i64, FixedTimespan) {
    if i < 92 {
     if i < 46 {
      if i < 23 {
       if i < 11 {
        if i < 5 {
         if i < 2 {
          if i < 1 {
           Table::row(-2486592561, 561, 0, "PMT")
          } else {
           Table::row(-1855958961, 0, 0, "WET")
          }
         } else {
          if i < 3 {
           Table::row(-1689814800, 0, 3600, "WEST")
          } else {
           if i < 4 {
            Table::row(-1680397200, 0, 0, "WET")
           } else {
            Table::row(-1665363600, 0, 3600, "WEST")
           }
          }
         }
        } else {
         if i < 8 {
          if i < 6 {
           Table::row(-1648342800, 0, 0, "WET")
          } else {
           if i < 7 {
            Table::row(-1635123600, 0, 3600, "WEST")
           } else {
            Table::row(-1616893200, 0, 0, "WET")
           }
          }
         } else {
          if i < 9 {
           Table::row(-1604278800, 0, 3600, "WEST")
          } else {
           if i < 10 {
            Table::row(-1585443600, 0, 0, "WET")
           } else {
            Table::row(-1574038800, 0, 3600, "WEST")
           }
          }
         }
        }
       } else {
        if i < 17 {
         if i < 14 {
          if i < 12 {
           Table::row(-1552266000, 0, 0, "WET")
          } else {
           if i < 13 {
            Table::row(-1539997200, 0, 3600, "WEST")
           } else {
            Table::row(-1520557200, 0, 0, "WET")
           }
          }
         } else {
          if i < 15 {
           Table::row(-1507510800, 0, 3600, "WEST")
          } else {
           if i < 16 {
            Table::row(-1490576400, 0, 0, "WET")
           } else {
            Table::row(-1470618000, 0, 3600, "WEST")
           }
          }
         }
        } else {
         if i < 20 {
          if i < 18 {
           Table::row(-1459126800, 0, 0, "WET")
          } else {
           if i < 19 {
            Table::row(-1444006800, 0, 3600, "WEST")
           } else {
            Table::row(-1427677200, 0, 0, "WET")
           }
          }
         } else {
          if i < 21 {
           Table::row(-1411952400, 0, 3600, "WEST")
          } else {
           if i < 22 {
            Table::row(-1396227600, 0, 0, "WET")
           } else {
            Table::row(-1379293200, 0, 3600, "WEST")
           }
          }
         }
        }
       }
      } else {
       if i < 34 {
        if i < 28 {
         if i < 25 {
          if i < 24 {
           Table::row(-1364778000, 0, 0, "WET")
          } else {
           Table::row(-1348448400, 0, 3600, "WEST")
          }
         } else {
          if i < 26 {
           Table::row(-1333328400, 0, 0, "WET")
          } else {
           if i < 27 {
            Table::row(-1316394000, 0, 3600, "WEST")
           } else {
            Table::row(-1301274000, 0, 0, "WET")
           }
          }
         }
        } else {
         if i < 31 {
          if i < 29 {
           Table::row(-1284339600, 0, 3600, "WEST")
          } else {
           if i < 30 {
            Table::row(-1269824400, 0, 0, "WET")
           } else {
            Table::row(-1253494800, 0, 3600, "WEST")
           }
          }
         } else {
          if i < 32 {
           Table::row(-1238374800, 0, 0, "WET")
          } else {
           if i < 33 {
            Table::row(-1221440400, 0, 3600, "WEST")
           } else {
            Table::row(-1206925200, 0, 0, "WET")
           }
          }
         }
        }
       } else {
        if i < 40 {
         if i < 37 {
          if i < 35 {
           Table::row(-1191200400, 0, 3600, "WEST")
          } else {
           if i < 36 {
            Table::row(-1175475600, 0, 0, "WET")
           } else {
            Table::row(-1160355600, 0, 3600, "WEST")
           }
          }
         } else {
          if i < 38 {
           Table::row(-1143421200, 0, 0, "WET")
          } else {
           if i < 39 {
            Table::row(-1127696400, 0, 3600, "WEST")
           } else {
            Table::row(-1111971600, 0, 0, "WET")
           }
          }
         }
        } else {
         if i < 43 {
          if i < 41 {
           Table::row(-1096851600, 0, 3600, "WEST")
          } else {
           if i < 42 {
            Table::row(-1080522000, 0, 0, "WET")
           } else {
            Table::row(-1063587600, 0, 3600, "WEST")
           }
          }
         } else {
          if i < 44 {
           Table::row(-1049072400, 0, 0, "WET")
          } else {
           if i < 45 {
            Table::row(-1033347600, 0, 3600, "WEST")
           } else {
            Table::row(-1017622800, 0, 0, "WET")
           }
          }
         }
        }
       }
      }
     } else {
      if i < 69 {
       if i < 57 {
        if i < 51 {
         if i < 48 {
          if i < 47 {
           Table::row(-1002502800, 0, 3600, "WEST")
          } else {
           Table::row(-986173200, 0, 0, "WET")
          }
         } else {
          if i < 49 {
           Table::row(-969238800, 0, 3600, "WEST")
          } else {
           if i < 50 {
            Table::row(-950490000, 0, 0, "WET")
           } else {
            Table::row(-942012000, 0, 3600, "WEST")
           }
          }
         }
        } else {
         if i < 54 {
          if i < 52 {
           Table::row(-932436000, 0, 7200, "CEST")
          } else {
           if i < 53 {
            Table::row(-857257200, 3600, 0, "CET")
           } else {
            Table::row(-844556400, 3600, 3600, "CEST")
           }
          }
         } else {
          if i < 55 {
           Table::row(-828226800, 3600, 0, "CET")
          } else {
           if i < 56 {
            Table::row(-812502000, 3600, 3600, "CEST")
           } else {
            Table::row(-800071200, 3600, 3600, "WEMT")
           }
          }
         }
        }
       } else {
        if i < 63 {
         if i < 60 {
          if i < 58 {
           Table::row(-796266000, 0, 3600, "WEST")
          } else {
           if i < 59 {
            Table::row(-781052400, 3600, 3600, "WEMT")
           } else {
            Table::row(-766623600, 3600, 0, "CET")
           }
          }
         } else {
          if i < 61 {
           Table::row(196819200, 3600, 3600, "CEST")
          } else {
           if i < 62 {
            Table::row(212540400, 3600, 0, "CET")
           } else {
            Table::row(228877200, 3600, 3600, "CEST")
           }
          }
         }
        } else {
         if i < 66 {
          if i < 64 {
           Table::row(243997200, 3600, 0, "CET")
          } else {
           if i < 65 {
            Table::row(260326800, 3600, 3600, "CEST")
           } else {
            Table::row(276051600, 3600, 0, "CET")
           }
          }
         } else {
          if i < 67 {
           Table::row(291776400, 3600, 3600, "CEST")
          } else {
           if i < 68 {
            Table::row(307501200, 3600, 0, "CET")
           } else {
            Table::row(323830800, 3600, 3600, "CEST")
           }
          }
         }
        }
       }
      } else {
       if i < 80 {
        if i < 74 {
         if i < 71 {
          if i < 70 {
           Table::row(338950800, 3600, 0, "CET")
          } else {
           Table::row(354675600, 3600, 3600, "CEST")
          }
         } else {
          if i < 72 {
           Table::row(370400400, 3600, 0, "CET")
          } else {
           if i < 73 {
            Table::row(386125200, 3600, 3600, "CEST")
           } else {
            Table::row(401850000, 3600, 0, "CET")
           }
          }
         }
        } else {
         if i < 77 {
          if i < 75 {
           Table::row(417574800, 3600, 3600, "CEST")
          } else {
           if i < 76 {
            Table::row(433299600, 3600, 0, "CET")
           } else {
            Table::row(449024400, 3600, 3600, "CEST")
           }
          }
         } else {
          if i < 78 {
           Table::row(465354000, 3600, 0, "CET")
          } else {
           if i < 79 {
            Table::row(481078800, 3600, 3600, "CEST")
           } else {
            Table::row(496803600, 3600, 0, "CET")
           }
          }
         }
        }
       } else {
        if i < 86 {
         if i < 83 {
          if i < 81 {
           Table::row(512528400, 3600, 3600, "CEST")
          } else {
           if i < 82 {
            Table::row(528253200, 3600, 0, "CET")
           } else {
            Table::row(543978000, 3600, 3600, "CEST")
           }
          }
         } else {
          if i < 84 {
           Table::row(559702800, 3600, 0, "CET")
          } else {
           if i < 85 {
            Table::row(575427600, 3600, 3600, "CEST")
           } else {
            Table::row(591152400, 3600, 0, "CET")
           }
          }
         }
        } else {
         if i < 89 {
          if i < 87 {
           Table::row(606877200, 3600, 3600, "CEST")
          } else {
           if i < 88 {
            Table::row(622602000, 3600, 0, "CET")
           } else {
            Table::row(638326800, 3600, 3600, "CEST")
           }
          }
         } else {
          if i < 90 {
           Table::row(654656400, 3600, 0, "CET")
          } else {
           if i < 91 {
            Table::row(670381200, 3600, 3600, "CEST")
           } else {
            Table::row(686106000, 3600, 0, "CET")
           }
          }
         }
        }
       }
      }
     }
    } else {
     if i < 138 {
      if i < 115 {
       if i < 103 {
        if i < 97 {
         if i < 94 {
          if i < 93 {
           Table::row(701830800, 3600, 3600, "CEST")
          } else {
           Table::row(717555600, 3600, 0, "CET")
          }
         } else {
          if i < 95 {
           Table::row(733280400, 3600, 3600, "CEST")
          } else {
           if i < 96 {
            Table::row(749005200, 3600, 0, "CET")
           } else {
            Table::row(764730000, 3600, 3600, "CEST")
           }
          }
         }
        } else {
         if i < 100 {
          if i < 98 {
           Table::row(780454800, 3600, 0, "CET")
          } else {
           if i < 99 {
            Table::row(796179600, 3600, 3600, "CEST")
           } else {
            Table::row(811904400, 3600, 0, "CET")
           }
          }
         } else {
          if i < 101 {
           Table::row(828234000, 3600, 3600, "CEST")
          } else {
           if i < 102 {
            Table::row(846378000, 3600, 0, "CET")
           } else {
            Table::row(859683600, 3600, 3600, "CEST")
           }
          }
         }
        }
       } else {
        if i < 109 {
         if i < 106 {
          if i < 104 {
           Table::row(877827600, 3600, 0, "CET")
          } else {
           if i < 105 {
            Table::row(891133200, 3600, 3600, "CEST")
           } else {
            Table::row(909277200, 3600, 0, "CET")
           }
          }
         } else {
          if i < 107 {
           Table::row(922582800, 3600, 3600, "CEST")
          } else {
           if i < 108 {
            Table::row(941331600, 3600, 0, "CET")
           } else {
            Table::row(954032400, 3600, 3600, "CEST")
           }
          }
         }
        } else {
         if i < 112 {
          if i < 110 {
           Table::row(972781200, 3600, 0, "CET")
          } else {
           if i < 111 {
            Table::row(985482000, 3600, 3600, "CEST")
           } else {
            Table::row(1004230800, 3600, 0, "CET")
           }
          }
         } else {
          if i < 113 {
           Table::row(1017536400, 3600, 3600, "CEST")
          } else {
           if i < 114 {
            Table::row(1035680400, 3600, 0, "CET")
           } else {
            Table::row(1048986000, 3600, 3600, "CEST")
           }
          }
         }
        }
       }
      } else {
       if i < 126 {
        if i < 120 {
         if i < 117 {
          if i < 116 {
           Table::row(1067130000, 3600, 0, "CET")
          } else {
           Table::row(1080435600, 3600, 3600, "CEST")
          }
         } else {
          if i < 118 {
           Table::row(1099184400, 3600, 0, "CET")
          } else {
           if i < 119 {
            Table::row(1111885200, 3600, 3600, "CEST")
           } else {
            Table::row(1130634000, 3600, 0, "CET")
           }
          }
         }
        } else {
         if i < 123 {
          if i < 121 {
           Table::row(1143334800, 3600, 3600, "CEST")
          } else {
           if i < 122 {
            Table::row(1162083600, 3600, 0, "CET")
           } else {
            Table::row(1174784400, 3600, 3600, "CEST")
           }
          }
         } else {
          if i < 124 {
           Table::row(1193533200, 3600, 0, "CET")
          } else {
           if i < 125 {
            Table::row(1206838800, 3600, 3600, "CEST")
           } else {
            Table::row(1224982800, 3600, 0, "CET")
           }
          }
         }
        }
       } else {
        if i < 132 {
         if i < 129 {
          if i < 127 {
           Table::row(1238288400, 3600, 3600, "CEST")
          } else {
           if i < 128 {
            Table::row(1256432400, 3600, 0, "CET")
           } else {
            Table::row(1269738000, 3600, 3600, "CEST")
           }
          }
         } else {
          if i < 130 {
           Table::row(1288486800, 3600, 0, "CET")
          } else {
           if i < 131 {
            Table::row(1301187600, 3600, 3600, "CEST")
           } else {
            Table::row(1319936400, 3600, 0, "CET")
           }
          }
         }
        } else {
         if i < 135 {
          if i < 133 {
           Table::row(1332637200, 3600, 3600, "CEST")
          } else {
           if i < 134 {
            Table::row(1351386000, 3600, 0, "CET")
           } else {
            Table::row(1364691600, 3600, 3600, "CEST")
           }
          }
         } else {
          if i < 136 {
           Table::row(1382835600, 3600, 0, "CET")
          } else {
           if i < 137 {
            Table::row(1396141200, 3600, 3600, "CEST")
           } else {
            Table::row(1414285200, 3600, 0, "CET")
           }
          }
         }
        }
       }
      }
     } else {
      if i < 161 {
       if i < 149 {
        if i < 143 {
         if i < 140 {
          if i < 139 {
           Table::row(1427590800, 3600, 3600, "CEST")
          } else {
           Table::row(1445734800, 3600, 0, "CET")
          }
         } else {
          if i < 141 {
           Table::row(1459040400, 3600, 3600, "CEST")
          } else {
           if i < 142 {
            Table::row(1477789200, 3600, 0, "CET")
           } else {
            Table::row(1490490000, 3600, 3600, "CEST")
           }
          }
         }
        } else {
         if i < 146 {
          if i < 144 {
           Table::row(1509238800, 3600, 0, "CET")
          } else {
           if i < 145 {
            Table::row(1521939600, 3600, 3600, "CEST")
           } else {
            Table::row(1540688400, 3600, 0, "CET")
           }
          }
         } else {
          if i < 147 {
           Table::row(1553994000, 3600, 3600, "CEST")
          } else {
           if i < 148 {
            Table::row(1572138000, 3600, 0, "CET")
           } else {
            Table::row(1585443600, 3600, 3600, "CEST")
           }
          }
         }
        }
       } else {
        if i < 155 {
         if i < 152 {
          if i < 150 {
           Table::row(1603587600, 3600, 0, "CET")
          } else {
           if i < 151 {
            Table::row(1616893200, 3600, 3600, "CEST")
           } else {
            Table::row(1635642000, 3600, 0, "CET")
           }
          }
         } else {
          if i < 153 {
           Table::row(1648342800, 3600, 3600, "CEST")
          } else {
           if i < 154 {
            Table::row(1667091600, 3600, 0, "CET")
           } else {
            Table::row(1679792400, 3600, 3600, "CEST")
           }
          }
         }
        } else {
         if i < 158 {
          if i < 156 {
           Table::row(1698541200, 3600, 0, "CET")
          } else {
           if i < 157 {
            Table::row(1711846800, 3600, 3600, "CEST")
           } else {
            Table::row(1729990800, 3600, 0, "CET")
           }
          }
         } else {
          if i < 159 {
           Table::row(1743296400, 3600, 3600, "CEST")
          } else {
           if i < 160 {
            Table::row(1761440400, 3600, 0, "CET")
           } else {
            Table::row(1774746000, 3600, 3600, "CEST")
           }
          }
         }
        }
       }
      } else {
       if i < 172 {
        if i < 166 {
         if i < 163 {
          if i < 162 {
           Table::row(1792890000, 3600, 0, "CET")
          } else {
           Table::row(1806195600, 3600, 3600, "CEST")
          }
         } else {
          if i < 164 {
           Table::row(1824944400, 3600, 0, "CET")
          } else {
           if i < 165 {
            Table::row(1837645200, 3600, 3600, "CEST")
           } else {
            Table::row(1856394000, 3600, 0, "CET")
           }
          }
         }
        } else {
         if i < 169 {
          if i < 167 {
           Table::row(1869094800, 3600, 3600, "CEST")
          } else {
           if i < 168 {
            Table::row(1887843600, 3600, 0, "CET")
           } else {
            Table::row(1901149200, 3600, 3600, "CEST")
           }
          }
         } else {
          if i < 170 {
           Table::row(1919293200, 3600, 0, "CET")
          } else {
           if i < 171 {
            Table::row(1932598800, 3600, 3600, "CEST")
           } else {
            Table::row(1950742800, 3600, 0, "CET")
           }
          }
         }
        }
       } else {
        if i < 178 {
         if i < 175 {
          if i < 173 {
           Table::row(1964048400, 3600, 3600, "CEST")
          } else {
           if i < 174 {
            Table::row(1982797200, 3600, 0, "CET")
           } else {
            Table::row(1995498000, 3600, 3600, "CEST")
           }
          }
         } else {
          if i < 176 {
           Table::row(2014246800, 3600, 0, "CET")
          } else {
           if i < 177 {
            Table::row(2026947600, 3600, 3600, "CEST")
           } else {
            Table::row(2045696400, 3600, 0, "CET")
           }
          }
         }
        } else {
         if i < 181 {
          if i < 179 {
           Table::row(2058397200, 3600, 3600, "CEST")
          } else {
           if i < 180 {
            Table::row(2077146000, 3600, 0, "CET")
           } else {
            Table::row(2090451600, 3600, 3600, "CEST")
           }
          }
         } else {
          if i < 182 {
           Table::row(2108595600, 3600, 0, "CET")
          } else {
           if i < 183 {
            Table::row(2121901200, 3600, 3600, "CEST")
           } else {
            Table::row(2140045200, 3600, 0, "CET")
           }
          }
         }
        }
       }
      }
     }
    }
}

/// The rows of the table of the zone `Europe/Paris`.
pub open spec fn paris_rows() -> spec_fn(int) -> (i64, FixedTimespan) {
    |i: int| paris_row(i)
}

/// The table of the zone `Europe/Paris`.
pub open spec fn paris() -> Table {
    Table::listed(Table::row(0, 561, 0, "LMT").1, 184, paris_rows())
}

/// Row `i` of the table of the zone `Europe/Podgorica`.
pub open spec fn podgorica_row(i: int) -> (i64, FixedTimespan) {
    if i < 59 {
     if i < 29 {
      if i < 14 {
       if i < 7 {
        if i < 3 {
         if i < 1 {
          Table::row(-2713915320, 3600, 0, "CET")
         } else {
          if i < 2 {
           Table::row(-905824800, 3600, 3600, "CEST")
          } else {
           Table::row(-857257200, 3600, 0, "CET")
          }
         }
        } else {
         if i < 5 {
          if i < 4 {
           Table::row(-844556400, 3600, 3600, "CEST")
          } else {
           Table::row(-828226800, 3600, 0, "CET")
          }
         } else {
          if i < 6 {
           Table::row(-812502000, 3600, 3600, "CEST")
          } else {
           Table::row(-796777200, 3600, 0, "CET")
          }
         }
        }
       } else {
        if i < 10 {
         if i < 8 {
          Table::row(-777942000, 3600, 3600, "CEST")
         } else {
          if i < 9 {
           Table::row(-766623600, 3600, 0, "CET")
          } else {
           Table::row(417574800, 3600, 3600, "CEST")
          }
         }
        } else {
         if i < 12 {
          if i < 11 {
           Table::row(433299600, 3600, 0, "CET")
          } else {
           Table::row(449024400, 3600, 3600, "CEST")
          }
         } else {
          if i < 13 {
           Table::row(465354000, 3600, 0, "CET")
          } else {
           Table::row(481078800, 3600, 3600, "CEST")
          }
         }
        }
       }
      } else {
       if i < 21 {
        if i < 17 {
         if i < 15 {
          Table::row(496803600, 3600, 0, "CET")
         } else {
          if i < 16 {
           Table::row(512528400, 3600, 3600, "CEST")
          } else {
           Table::row(528253200, 3600, 0, "CET")
          }
         }
        } else {
         if i < 19 {
          if i < 18 {
           Table::row(543978000, 3600, 3600, "CEST")
          } else {
           Table::row(559702800, 3600, 0, "CET")
          }
         } else {
          if i < 20 {
           Table::row(575427600, 3600, 3600, "CEST")
          } else {
           Table::row(591152400, 3600, 0, "CET")
          }
         }
        }
       } else {
        if i < 25 {
         if i < 23 {
          if i < 22 {
           Table::row(606877200, 3600, 3600, "CEST")
          } else {
           Table::row(622602000, 3600, 0, "CET")
          }
         } else {
          if i < 24 {
           Table::row(638326800, 3600, 3600, "CEST")
          } else {
           Table::row(654656400, 3600, 0, "CET")
          }
         }
        } else {
         if i < 27 {
          if i < 26 {
           Table::row(670381200, 3600, 3600, "CEST")
          } else {
           Table::row(686106000, 3600, 0, "CET")
          }
         } else {
          if i < 28 {
           Table::row(701830800, 3600, 3600, "CEST")
          } else {
           Table::row(717555600, 3600, 0, "CET")
          }
         }
        }
       }
      }
     } else {
      if i < 44 {
       if i < 36 {
        if i < 32 {
         if i < 30 {
          Table::row(733280400, 3600, 3600, "CEST")
         } else {
          if i < 31 {
           Table::row(749005200, 3600, 0, "CET")
          } else {
           Table::row(764730000, 3600, 3600, "CEST")
          }
         }
        } else {
         if i < 34 {
          if i < 33 {
           Table::row(780454800, 3600, 0, "CET")
          } else {
           Table::row(796179600, 3600, 3600, "CEST")
          }
         } else {
          if i < 35 {
           Table::row(811904400, 3600, 0, "CET")
          } else {
           Table::row(828234000, 3600, 3600, "CEST")
          }
         }
        }
       } else {
        if i < 40 {
         if i < 38 {
          if i < 37 {
           Table::row(846378000, 3600, 0, "CET")
          } else {
           Table::row(859683600, 3600, 3600, "CEST")
          }
         } else {
          if i < 39 {
           Table::row(877827600, 3600, 0, "CET")
          } else {
           Table::row(891133200, 3600, 3600, "CEST")
          }
         }
        } else {
         if i < 42 {
          if i < 41 {
           Table::row(909277200, 3600, 0, "CET")
          } else {
           Table::row(922582800, 3600, 3600, "CEST")
          }
         } else {
          if i < 43 {
           Table::row(941331600, 3600, 0, "CET")
          } else {
           Table::row(954032400, 3600, 3600, "CEST")
          }
         }
        }
       }
      } else {
       if i < 51 {
        if i < 47 {
         if i < 45 {
          Table::row(972781200, 3600, 0, "CET")
         } else {
          if i < 46 {
           Table::row(985482000, 3600, 3600, "CEST")
          } else {
           Table::row(1004230800, 3600, 0, "CET")
          }
         }
        } else {
         if i < 49 {
          if i < 48 {
           Table::row(1017536400, 3600, 3600, "CEST")
          } else {
           Table::row(1035680400, 3600, 0, "CET")
          }
         } else {
          if i < 50 {
           Table::row(1048986000, 3600, 3600, "CEST")
          } else {
           Table::row(1067130000, 3600, 0, "CET")
          }
         }
        }
       } else {
        if i < 55 {
         if i < 53 {
          if i < 52 {
           Table::row(1080435600, 3600, 3600, "CEST")
          } else {
           Table::row(1099184400, 3600, 0, "CET")
          }
         } else {
          if i < 54 {
           Table::row(1111885200, 3600, 3600, "CEST")
          } else {
           Table::row(1130634000, 3600, 0, "CET")
          }
         }
        } else {
         if i < 57 {
          if i < 56 {
           Table::row(1143334800, 3600, 3600, "CEST")
          } else {
           Table::row(1162083600, 3600, 0, "CET")
          }
         } else {
          if i < 58 {
           Table::row(1174784400, 3600, 3600, "CEST")
          } else {
           Table::row(1193533200, 3600, 0, "CET")
          }
         }
        }
       }
      }
     }
    } else {
     if i < 89 {
      if i < 74 {
       if i < 66 {
        if i < 62 {
         if i < 60 {
          Table::row(1206838800, 3600, 3600, "CEST")
         } else {
          if i < 61 {
           Table::row(1224982800, 3600, 0, "CET")
          } else {
           Table::row(1238288400, 3600, 3600, "CEST")
          }
         }
        } else {
         if i < 64 {
          if i < 63 {
           Table::row(1256432400, 3600, 0, "CET")
          } else {
           Table::row(1269738000, 3600, 3600, "CEST")
          }
         } else {
          if i < 65 {
           Table::row(1288486800, 3600, 0, "CET")
          } else {
           Table::row(1301187600, 3600, 3600, "CEST")
          }
         }
        }
       } else {
        if i < 70 {
         if i < 68 {
          if i < 67 {
           Table::row(1319936400, 3600, 0, "CET")
          } else {
           Table::row(1332637200, 3600, 3600, "CEST")
          }
         } else {
          if i < 69 {
           Table::row(1351386000, 3600, 0, "CET")
          } else {
           Table::row(1364691600, 3600, 3600, "CEST")
          }
         }
        } else {
         if i < 72 {
          if i < 71 {
           Table::row(1382835600, 3600, 0, "CET")
          } else {
           Table::row(1396141200, 3600, 3600, "CEST")
          }
         } else {
          if i < 73 {
           Table::row(1414285200, 3600, 0, "CET")
          } else {
           Table::row(1427590800, 3600, 3600, "CEST")
          }
         }
        }
       }
      } else {
       if i < 81 {
        if i < 77 {
         if i < 75 {
          Table::row(1445734800, 3600, 0, "CET")
         } else {
          if i < 76 {
           Table::row(1459040400, 3600, 3600, "CEST")
          } else {
           Table::row(1477789200, 3600, 0, "CET")
          }
         }
        } else {
         if i < 79 {
          if i < 78 {
           Table::row(1490490000, 3600, 3600, "CEST")
          } else {
           Table::row(1509238800, 3600, 0, "CET")
          }
         } else {
          if i < 80 {
           Table::row(1521939600, 3600, 3600, "CEST")
          } else {
           Table::row(1540688400, 3600, 0, "CET")
          }
         }
        }
       } else {
        if i < 85 {
         if i < 83 {
          if i < 82 {
           Table::row(1553994000, 3600, 3600, "CEST")
          } else {
           Table::row(1572138000, 3600, 0, "CET")
          }
         } else {
          if i < 84 {
           Table::row(1585443600, 3600, 3600, "CEST")
          } else {
           Table::row(1603587600, 3600, 0, "CET")
          }
         }
        } else {
         if i < 87 {
          if i < 86 {
           Table::row(1616893200, 3600, 3600, "CEST")
          } else {
           Table::row(1635642000, 3600, 0, "CET")
          }
         } else {
          if i < 88 {
           Table::row(1648342800, 3600, 3600, "CEST")
          } else {
           Table::row(1667091600, 3600, 0, "CET")
          }
         }
        }
       }
      }
     } else {
      if i < 104 {
       if i < 96 {
        if i < 92 {
         if i < 90 {
          Table::row(1679792400, 3600, 3600, "CEST")
         } else {
          if i < 91 {
           Table::row(1698541200, 3600, 0, "CET")
          } else {
           Table::row(1711846800, 3600, 3600, "CEST")
          }
         }
        } else {
         if i < 94 {
          if i < 93 {
           Table::row(1729990800, 3600, 0, "CET")
          } else {
           Table::row(1743296400, 3600, 3600, "CEST")
          }
         } else {
          if i < 95 {
           Table::row(1761440400, 3600, 0, "CET")
          } else {
           Table::row(1774746000, 3600, 3600, "CEST")
          }
         }
        }
       } else {
        if i < 100 {
         if i < 98 {
          if i < 97 {
           Table::row(1792890000, 3600, 0, "CET")
          } else {
           Table::row(1806195600, 3600, 3600, "CEST")
          }
         } else {
          if i < 99 {
           Table::row(1824944400, 3600, 0, "CET")
          } else {
           Table::row(1837645200, 3600, 3600, "CEST")
          }
         }
        } else {
         if i < 102 {
          if i < 101 {
           Table::row(1856394000, 3600, 0, "CET")
          } else {
           Table::row(1869094800, 3600, 3600, "CEST")
          }
         } else {
          if i < 103 {
           Table::row(1887843600, 3600, 0, "CET")
          } else {
           Table::row(1901149200, 3600, 3600, "CEST")
          }
         }
        }
       }
      } else {
       if i < 111 {
        if i < 107 {
         if i < 105 {
          Table::row(1919293200, 3600, 0, "CET")
         } else {
          if i < 106 {
           Table::row(1932598800, 3600, 3600, "CEST")
          } else {
           Table::row(1950742800, 3600, 0, "CET")
          }
         }
        } else {
         if i < 109 {
          if i < 108 {
           Table::row(1964048400, 3600, 3600, "CEST")
          } else {
           Table::row(1982797200, 3600, 0, "CET")
          }
         } else {
          if i < 110 {
           Table::row(1995498000, 3600, 3600, "CEST")
          } else {
           Table::row(2014246800, 3600, 0, "CET")
          }
         }
        }
       } else {
        if i < 115 {
         if i < 113 {
          if i < 112 {
           Table::row(2026947600, 3600, 3600, "CEST")
          } else {
           Table::row(2045696400, 3600, 0, "CET")
          }
         } else {
          if i < 114 {
           Table::row(2058397200, 3600, 3600, "CEST")
          } else {
           Table::row(2077146000, 3600, 0, "CET")
          }
         }
        } else {
         if i < 117 {
          if i < 116 {
           Table::row(2090451600, 3600, 3600, "CEST")
          } else {
           Table::row(2108595600, 3600, 0, "CET")
          }
         } else {
          if i < 118 {
           Table::row(2121901200, 3600, 3600, "CEST")
          } else {
           Table::row(2140045200, 3600, 0, "CET")
          }
         }
        }
       }
      }
     }
    }
}

/// The rows of the table of the zone `Europe/Podgorica`.
pub open spec fn podgorica_rows() -> spec_fn(int) -> (i64, FixedTimespan) {
    |i: int| podgorica_row(i)
}

/// The table of the zone `Europe/Podgorica`.
pub open spec fn podgorica() -> Table {
    Table::listed(Table::row(0, 4920, 0, "LMT").1, 119, podgorica_rows())
}

/// Row `i` of the table of the zone `Europe/Prague`.
pub open spec fn prague_row(i: int) -> (i64, FixedTimespan) {
    if i < 72 {
     if i < 36 {
      if i < 18 {
       if i < 9 {
        if i < 4 {
         if i < 2 {
          if i < 1 {
           Table::row(-3786829064, 3464, 0, "PMT")
          } else {
           Table::row(-2469401864, 3600, 0, "CET")
          }
         } else {
          if i < 3 {
           Table::row(-1693706400, 3600, 3600, "CEST")
          } else {
           Table::row(-1680483600, 3600, 0, "CET")
          }
         }
        } else {
         if i < 6 {
          if i < 5 {
           Table::row(-1663455600, 3600, 3600, "CEST")
          } else {
           Table::row(-1650150000, 3600, 0, "CET")
          }
         } else {
          if i < 7 {
           Table::row(-1632006000, 3600, 3600, "CEST")
          } else {
           if i < 8 {
            Table::row(-1618700400, 3600, 0, "CET")
           } else {
            Table::row(-938905200, 3600, 3600, "CEST")
           }
          }
         }
        }
       } else {
        if i < 13 {
         if i < 11 {
          if i < 10 {
           Table::row(-857257200, 3600, 0, "CET")
          } else {
           Table::row(-844556400, 3600, 3600, "CEST")
          }
         } else {
          if i < 12 {
           Table::row(-828226800, 3600, 0, "CET")
          } else {
           Table::row(-812502000, 3600, 3600, "CEST")
          }
         }
        } else {
         if i < 15 {
          if i < 14 {
           Table::row(-796777200, 3600, 0, "CET")
          } else {
           Table::row(-781052400, 3600, 3600, "CEST")
          }
         } else {
          if i < 16 {
           Table::row(-765327600, 3600, 0, "CET")
          } else {
           if i < 17 {
            Table::row(-746578800, 3600, 3600, "CEST")
           } else {
            Table::row(-733359600, 3600, 0, "CET")
           }
          }
         }
        }
       }
      } else {
       if i < 27 {
        if i < 22 {
         if i < 20 {
          if i < 19 {
           Table::row(-728517600, -3600, 3600, "GMT")
          } else {
           Table::row(-721260000, 3600, 0, "CET")
          }
         } else {
          if i < 21 {
           Table::row(-716425200, 3600, 3600, "CEST")
          } else {
           Table::row(-701910000, 3600, 0, "CET")
          }
         }
        } else {
         if i < 24 {
          if i < 23 {
           Table::row(-684975600, 3600, 3600, "CEST")
          } else {
           Table::row(-670460400, 3600, 0, "CET")
          }
         } else {
          if i < 25 {
           Table::row(-654217200, 3600, 3600, "CEST")
          } else {
           if i < 26 {
            Table::row(-639010800, 3600, 0, "CET")
           } else {
            Table::row(291776400, 3600, 3600, "CEST")
           }
          }
         }
        }
       } else {
        if i < 31 {
         if i < 29 {
          if i < 28 {
           Table::row(307501200, 3600, 0, "CET")
          } else {
           Table::row(323830800, 3600, 3600, "CEST")
          }
         } else {
          if i < 30 {
           Table::row(338950800, 3600, 0, "CET")
          } else {
           Table::row(354675600, 3600, 3600, "CEST")
          }
         }
        } else {
         if i < 33 {
          if i < 32 {
           Table::row(370400400, 3600, 0, "CET")
          } else {
           Table::row(386125200, 3600, 3600, "CEST")
          }
         } else {
          if i < 34 {
           Table::row(401850000, 3600, 0, "CET")
          } else {
           if i < 35 {
            Table::row(417574800, 3600, 3600, "CEST")
           } else {
            Table::row(433299600, 3600, 0, "CET")
           }
          }
         }
        }
       }
      }
     } else {
      if i < 54 {
       if i < 45 {
        if i < 40 {
         if i < 38 {
          if i < 37 {
           Table::row(449024400, 3600, 3600, "CEST")
          } else {
           Table::row(465354000, 3600, 0, "CET")
          }
         } else {
          if i < 39 {
           Table::row(481078800, 3600, 3600, "CEST")
          } else {
           Table::row(496803600, 3600, 0, "CET")
          }
         }
        } else {
         if i < 42 {
          if i < 41 {
           Table::row(512528400, 3600, 3600, "CEST")
          } else {
           Table::row(528253200, 3600, 0, "CET")
          }
         } else {
          if i < 43 {
           Table::row(543978000, 3600, 3600, "CEST")
          } else {
           if i < 44 {
            Table::row(559702800, 3600, 0, "CET")
           } else {
            Table::row(575427600, 3600, 3600, "CEST")
           }
          }
         }
        }
       } else {
        if i < 49 {
         if i < 47 {
          if i < 46 {
           Table::row(591152400, 3600, 0, "CET")
          } else {
           Table::row(606877200, 3600, 3600, "CEST")
          }
         } else {
          if i < 48 {
           Table::row(622602000, 3600, 0, "CET")
          } else {
           Table::row(638326800, 3600, 3600, "CEST")
          }
         }
        } else {
         if i < 51 {
          if i < 50 {
           Table::row(654656400, 3600, 0, "CET")
          } else {
           Table::row(670381200, 3600, 3600, "CEST")
          }
         } else {
          if i < 52 {
           Table::row(686106000, 3600, 0, "CET")
          } else {
           if i < 53 {
            Table::row(701830800, 3600, 3600, "CEST")
           } else {
            Table::row(717555600, 3600, 0, "CET")
           }
          }
         }
        }
       }
      } else {
       if i < 63 {
        if i < 58 {
         if i < 56 {
          if i < 55 {
           Table::row(733280400, 3600, 3600, "CEST")
          } else {
           Table::row(749005200, 3600, 0, "CET")
          }
         } else {
          if i < 57 {
           Table::row(764730000, 3600, 3600, "CEST")
          } else {
           Table::row(780454800, 3600, 0, "CET")
          }
         }
        } else {
         if i < 60 {
          if i < 59 {
           Table::row(796179600, 3600, 3600, "CEST")
          } else {
           Table::row(811904400, 3600, 0, "CET")
          }
         } else {
          if i < 61 {
           Table::row(828234000, 3600, 3600, "CEST")
          } else {
           if i < 62 {
            Table::row(846378000, 3600, 0, "CET")
           } else {
            Table::row(859683600, 3600, 3600, "CEST")
           }
          }
         }
        }
       } else {
        if i < 67 {
         if i < 65 {
          if i < 64 {
           Table::row(877827600, 3600, 0, "CET")
          } else {
           Table::row(891133200, 3600, 3600, "CEST")
          }
         } else {
          if i < 66 {
           Table::row(909277200, 3600, 0, "CET")
          } else {
           Table::row(922582800, 3600, 3600, "CEST")
          }
         }
        } else {
         if i < 69 {
          if i < 68 {
           Table::row(941331600, 3600, 0, "CET")
          } else {
           Table::row(954032400, 3600, 3600, "CEST")
          }
         } else {
          if i < 70 {
           Table::row(972781200, 3600, 0, "CET")
          } else {
           if i < 71 {
            Table::row(985482000, 3600, 3600, "CEST")
           } else {
            Table::row(1004230800, 3600, 0, "CET")
           }
          }
         }
        }
       }
      }
     }
    } else {
     if i < 108 {
      if i < 90 {
       if i < 81 {
        if i < 76 {
         if i < 74 {
          if i < 73 {
           Table::row(1017536400, 3600, 3600, "CEST")
          } else {
           Table::row(1035680400, 3600, 0, "CET")
          }
         } else {
          if i < 75 {
           Table::row(1048986000, 3600, 3600, "CEST")
          } else {
           Table::row(1067130000, 3600, 0, "CET")
          }
         }
        } else {
         if i < 78 {
          if i < 77 {
           Table::row(1080435600, 3600, 3600, "CEST")
          } else {
           Table::row(1099184400, 3600, 0, "CET")
          }
         } else {
          if i < 79 {
           Table::row(1111885200, 3600, 3600, "CEST")
          } else {
           if i < 80 {
            Table::row(1130634000, 3600, 0, "CET")
           } else {
            Table::row(1143334800, 3600, 3600, "CEST")
           }
          }
         }
        }
       } else {
        if i < 85 {
         if i < 83 {
          if i < 82 {
           Table::row(1162083600, 3600, 0, "CET")
          } else {
           Table::row(1174784400, 3600, 3600, "CEST")
          }
         } else {
          if i < 84 {
           Table::row(1193533200, 3600, 0, "CET")
          } else {
           Table::row(1206838800, 3600, 3600, "CEST")
          }
         }
        } else {
         if i < 87 {
          if i < 86 {
           Table::row(1224982800, 3600, 0, "CET")
          } else {
           Table::row(1238288400, 3600, 3600, "CEST")
          }
         } else {
          if i < 88 {
           Table::row(1256432400, 3600, 0, "CET")
          } else {
           if i < 89 {
            Table::row(1269738000, 3600, 3600, "CEST")
           } else {
            Table::row(1288486800, 3600, 0, "CET")
           }
          }
         }
        }
       }
      } else {
       if i < 99 {
        if i < 94 {
         if i < 92 {
          if i < 91 {
           Table::row(1301187600, 3600, 3600, "CEST")
          } else {
           Table::row(1319936400, 3600, 0, "CET")
          }
         } else {
          if i < 93 {
           Table::row(1332637200, 3600, 3600, "CEST")
          } else {
           Table::row(1351386000, 3600, 0, "CET")
          }
         }
        } else {
         if i < 96 {
          if i < 95 {
           Table::row(1364691600, 3600, 3600, "CEST")
          } else {
           Table::row(1382835600, 3600, 0, "CET")
          }
         } else {
          if i < 97 {
           Table::row(1396141200, 3600, 3600, "CEST")
          } else {
           if i < 98 {
            Table::row(1414285200, 3600, 0, "CET")
           } else {
            Table::row(1427590800, 3600, 3600, "CEST")
           }
          }
         }
        }
       } else {
        if i < 103 {
         if i < 101 {
          if i < 100 {
           Table::row(1445734800, 3600, 0, "CET")
          } else {
           Table::row(1459040400, 3600, 3600, "CEST")
          }
         } else {
          if i < 102 {
           Table::row(1477789200, 3600, 0, "CET")
          } else {
           Table::row(1490490000, 3600, 3600, "CEST")
          }
         }
        } else {
         if i < 105 {
          if i < 104 {
           Table::row(1509238800, 3600, 0, "CET")
          } else {
           Table::row(1521939600, 3600, 3600, "CEST")
          }
         } else {
          if i < 106 {
           Table::row(1540688400, 3600, 0, "CET")
          } else {
           if i < 107 {
            Table::row(1553994000, 3600, 3600, "CEST")
           } else {
            Table::row(1572138000, 3600, 0, "CET")
           }
          }
         }
        }
       }
      }
     } else {
      if i < 126 {
       if i < 117 {
        if i < 112 {
         if i < 110 {
          if i < 109 {
           Table::row(1585443600, 3600, 3600, "CEST")
          } else {
           Table::row(1603587600, 3600, 0, "CET")
          }
         } else {
          if i < 111 {
           Table::row(1616893200, 3600, 3600, "CEST")
          } else {
           Table::row(1635642000, 3600, 0, "CET")
          }
         }
        } else {
         if i < 114 {
          if i < 113 {
           Table::row(1648342800, 3600, 3600, "CEST")
          } else {
           Table::row(1667091600, 3600, 0, "CET")
          }
         } else {
          if i < 115 {
           Table::row(1679792400, 3600, 3600, "CEST")
          } else {
           if i < 116 {
            Table::row(1698541200, 3600, 0, "CET")
           } else {
            Table::row(1711846800, 3600, 3600, "CEST")
           }
          }
         }
        }
       } else {
        if i < 121 {
         if i < 119 {
          if i < 118 {
           Table::row(1729990800, 3600, 0, "CET")
          } else {
           Table::row(1743296400, 3600, 3600, "CEST")
          }
         } else {
          if i < 120 {
           Table::row(1761440400, 3600, 0, "CET")
          } else {
           Table::row(1774746000, 3600, 3600, "CEST")
          }
         }
        } else {
         if i < 123 {
          if i < 122 {
           Table::row(1792890000, 3600, 0, "CET")
          } else {
           Table::row(1806195600, 3600, 3600, "CEST")
          }
         } else {
          if i < 124 {
           Table::row(1824944400, 3600, 0, "CET")
          } else {
           if i < 125 {
            Table::row(1837645200, 3600, 3600, "CEST")
           } else {
            Table::row(1856394000, 3600, 0, "CET")
           }
          }
         }
        }
       }
      } else {
       if i < 135 {
        if i < 130 {
         if i < 128 {
          if i < 127 {
           Table::row(1869094800, 3600, 3600, "CEST")
          } else {
           Table::row(1887843600, 3600, 0, "CET")
          }
         } else {
          if i < 129 {
           Table::row(1901149200, 3600, 3600, "CEST")
          } else {
           Table::row(1919293200, 3600, 0, "CET")
          }
         }
        } else {
         if i < 132 {
          if i < 131 {
           Table::row(1932598800, 3600, 3600, "CEST")
          } else {
           Table::row(1950742800, 3600, 0, "CET")
          }
         } else {
          if i < 133 {
           Table::row(1964048400, 3600, 3600, "CEST")
          } else {
           if i < 134 {
            Table::row(1982797200, 3600, 0, "CET")
           } else {
            Table::row(1995498000, 3600, 3600, "CEST")
           }
          }
         }
        }
       } else {
        if i < 139 {
         if i < 137 {
          if i < 136 {
           Table::row(2014246800, 3600, 0, "CET")
          } else {
           Table::row(2026947600, 3600, 3600, "CEST")
          }
         } else {
          if i < 138 {
           Table::row(2045696400, 3600, 0, "CET")
          } else {
           Table::row(2058397200, 3600, 3600, "CEST")
          }
         }
        } else {
         if i < 141 {
          if i < 140 {
           Table::row(2077146000, 3600, 0, "CET")
          } else {
           Table::row(2090451600, 3600, 3600, "CEST")
          }
         } else {
          if i < 142 {
           Table::row(2108595600, 3600, 0, "CET")
          } else {
           if i < 143 {
            Table::row(2121901200, 3600, 3600, "CEST")
           } else {
            Table::row(2140045200, 3600, 0, "CET")
           }
          }
         }
        }
       }
      }
     }
    }
}

/// The rows of the table of the zone `Europe/Prague`.
pub open spec fn prague_rows() -> spec_fn(int) -> (i64, FixedTimespan) {
    |i: int| prague_row(i)
}

/// The table of the zone `Europe/Prague`.
pub open spec fn prague() -> Table {
    Table::listed(Table::row(0, 3464, 0, "LMT").1, 144, prague_rows())
}

/// Row `i` of the table of the zone `Europe/Riga`.
pub open spec fn riga_row(i: int) -> (i64, FixedTimespan) {
    if i < 63 {
     if i < 31 {
      if i < 15 {
       if i < 7 {
        if i < 3 {
         if i < 1 {
          Table::row(-2840146594, 5794, 0, "RMT")
         } else {
          if i < 2 {
           Table::row(-1632008194, 5794, 3600, "LST")
          } else {
           Table::row(-1618702594, 5794, 0, "RMT")
          }
         }
        } else {
         if i < 5 {
          if i < 4 {
           Table::row(-1601681794, 5794, 3600, "LST")
          } else {
           Table::row(-1597275394, 5794, 0, "RMT")
          }
         } else {
          if i < 6 {
           Table::row(-1377308194, 7200, 0, "EET")
          } else {
           Table::row(-928029600, 10800, 0, "MSK")
          }
         }
        }
       } else {
        if i < 11 {
         if i < 9 {
          if i < 8 {
           Table::row(-899521200, 3600, 3600, "CEST")
          } else {
           Table::row(-857257200, 3600, 0, "CET")
          }
         } else {
          if i < 10 {
           Table::row(-844556400, 3600, 3600, "CEST")
          } else {
           Table::row(-828226800, 3600, 0, "CET")
          }
         }
        } else {
         if i < 13 {
          if i < 12 {
           Table::row(-812502000, 3600, 3600, "CEST")
          } else {
           Table::row(-796777200, 3600, 0, "CET")
          }
         } else {
          if i < 14 {
           Table::row(-795834000, 10800, 0, "MSK")
          } else {
           Table::row(354920400, 10800, 3600, "MSD")
          }
         }
        }
       }
      } else {
       if i < 23 {
        if i < 19 {
         if i < 17 {
          if i < 16 {
           Table::row(370728000, 10800, 0, "MSK")
          } else {
           Table::row(386456400, 10800, 3600, "MSD")
          }
         } else {
          if i < 18 {
           Table::row(402264000, 10800, 0, "MSK")
          } else {
           Table::row(417992400, 10800, 3600, "MSD")
          }
         }
        } else {
         if i < 21 {
          if i < 20 {
           Table::row(433800000, 10800, 0, "MSK")
          } else {
           Table::row(449614800, 10800, 3600, "MSD")
          }
         } else {
          if i < 22 {
           Table::row(465346800, 10800, 0, "MSK")
          } else {
           Table::row(481071600, 10800, 3600, "MSD")
          }
         }
        }
       } else {
        if i < 27 {
         if i < 25 {
          if i < 24 {
           Table::row(496796400, 10800, 0, "MSK")
          } else {
           Table::row(512521200, 10800, 3600, "MSD")
          }
         } else {
          if i < 26 {
           Table::row(528246000, 10800, 0, "MSK")
          } else {
           Table::row(543970800, 10800, 3600, "MSD")
          }
         }
        } else {
         if i < 29 {
          if i < 28 {
           Table::row(559695600, 10800, 0, "MSK")
          } else {
           Table::row(575420400, 10800, 3600, "MSD")
          }
         } else {
          if i < 30 {
           Table::row(591145200, 10800, 0, "MSK")
          } else {
           Table::row(606870000, 7200, 3600, "EEST")
          }
         }
        }
       }
      }
     } else {
      if i < 47 {
       if i < 39 {
        if i < 35 {
         if i < 33 {
          if i < 32 {
           Table::row(622598400, 7200, 0, "EET")
          } else {
           Table::row(638323200, 7200, 3600, "EEST")
          }
         } else {
          if i < 34 {
           Table::row(654652800, 7200, 0, "EET")
          } else {
           Table::row(670377600, 7200, 3600, "EEST")
          }
         }
        } else {
         if i < 37 {
          if i < 36 {
           Table::row(686102400, 7200, 0, "EET")
          } else {
           Table::row(701827200, 7200, 3600, "EEST")
          }
         } else {
          if i < 38 {
           Table::row(717552000, 7200, 0, "EET")
          } else {
           Table::row(733276800, 7200, 3600, "EEST")
          }
         }
        }
       } else {
        if i < 43 {
         if i < 41 {
          if i < 40 {
           Table::row(749001600, 7200, 0, "EET")
          } else {
           Table::row(764726400, 7200, 3600, "EEST")
          }
         } else {
          if i < 42 {
           Table::row(780451200, 7200, 0, "EET")
          } else {
           Table::row(796176000, 7200, 3600, "EEST")
          }
         }
        } else {
         if i < 45 {
          if i < 44 {
           Table::row(811900800, 7200, 0, "EET")
          } else {
           Table::row(828230400, 7200, 3600, "EEST")
          }
         } else {
          if i < 46 {
           Table::row(843955200, 7200, 0, "EET")
          } else {
           Table::row(859683600, 7200, 3600, "EEST")
          }
         }
        }
       }
      } else {
       if i < 55 {
        if i < 51 {
         if i < 49 {
          if i < 48 {
           Table::row(877827600, 7200, 0, "EET")
          } else {
           Table::row(891133200, 7200, 3600, "EEST")
          }
         } else {
          if i < 50 {
           Table::row(909277200, 7200, 0, "EET")
          } else {
           Table::row(922582800, 7200, 3600, "EEST")
          }
         }
        } else {
         if i < 53 {
          if i < 52 {
           Table::row(941331600, 7200, 0, "EET")
          } else {
           Table::row(985482000, 7200, 3600, "EEST")
          }
         } else {
          if i < 54 {
           Table::row(1004230800, 7200, 0, "EET")
          } else {
           Table::row(1017536400, 7200, 3600, "EEST")
          }
         }
        }
       } else {
        if i < 59 {
         if i < 57 {
          if i < 56 {
           Table::row(1035680400, 7200, 0, "EET")
          } else {
           Table::row(1048986000, 7200, 3600, "EEST")
          }
         } else {
          if i < 58 {
           Table::row(1067130000, 7200, 0, "EET")
          } else {
           Table::row(1080435600, 7200, 3600, "EEST")
          }
         }
        } else {
         if i < 61 {
          if i < 60 {
           Table::row(1099184400, 7200, 0, "EET")
          } else {
           Table::row(1111885200, 7200, 3600, "EEST")
          }
         } else {
          if i < 62 {
           Table::row(1130634000, 7200, 0, "EET")
          } else {
           Table::row(1143334800, 7200, 3600, "EEST")
          }
         }
        }
       }
      }
     }
    } else {
     if i < 94 {
      if i < 78 {
       if i < 70 {
        if i < 66 {
         if i < 64 {
          Table::row(1162083600, 7200, 0, "EET")
         } else {
          if i < 65 {
           Table::row(1174784400, 7200, 3600, "EEST")
          } else {
           Table::row(1193533200, 7200, 0, "EET")
          }
         }
        } else {
         if i < 68 {
          if i < 67 {
           Table::row(1206838800, 7200, 3600, "EEST")
          } else {
           Table::row(1224982800, 7200, 0, "EET")
          }
         } else {
          if i < 69 {
           Table::row(1238288400, 7200, 3600, "EEST")
          } else {
           Table::row(1256432400, 7200, 0, "EET")
          }
         }
        }
       } else {
        if i < 74 {
         if i < 72 {
          if i < 71 {
           Table::row(1269738000, 7200, 3600, "EEST")
          } else {
           Table::row(1288486800, 7200, 0, "EET")
          }
         } else {
          if i < 73 {
           Table::row(1301187600, 7200, 3600, "EEST")
          } else {
           Table::row(1319936400, 7200, 0, "EET")
          }
         }
        } else {
         if i < 76 {
          if i < 75 {
           Table::row(1332637200, 7200, 3600, "EEST")
          } else {
           Table::row(1351386000, 7200, 0, "EET")
          }
         } else {
          if i < 77 {
           Table::row(1364691600, 7200, 3600, "EEST")
          } else {
           Table::row(1382835600, 7200, 0, "EET")
          }
         }
        }
       }
      } else {
       if i < 86 {
        if i < 82 {
         if i < 80 {
          if i < 79 {
           Table::row(1396141200, 7200, 3600, "EEST")
          } else {
           Table::row(1414285200, 7200, 0, "EET")
          }
         } else {
          if i < 81 {
           Table::row(1427590800, 7200, 3600, "EEST")
          } else {
           Table::row(1445734800, 7200, 0, "EET")
          }
         }
        } else {
         if i < 84 {
          if i < 83 {
           Table::row(1459040400, 7200, 3600, "EEST")
          } else {
           Table::row(1477789200, 7200, 0, "EET")
          }
         } else {
          if i < 85 {
           Table::row(1490490000, 7200, 3600, "EEST")
          } else {
           Table::row(1509238800, 7200, 0, "EET")
          }
         }
        }
       } else {
        if i < 90 {
         if i < 88 {
          if i < 87 {
           Table::row(1521939600, 7200, 3600, "EEST")
          } else {
           Table::row(1540688400, 7200, 0, "EET")
          }
         } else {
          if i < 89 {
           Table::row(1553994000, 7200, 3600, "EEST")
          } else {
           Table::row(1572138000, 7200, 0, "EET")
          }
         }
        } else {
         if i < 92 {
          if i < 91 {
           Table::row(1585443600, 7200, 3600, "EEST")
          } else {
           Table::row(1603587600, 7200, 0, "EET")
          }
         } else {
          if i < 93 {
           Table::row(1616893200, 7200, 3600, "EEST")
          } else {
           Table::row(1635642000, 7200, 0, "EET")
          }
         }
        }
       }
      }
     } else {
      if i < 110 {
       if i < 102 {
        if i < 98 {
         if i < 96 {
          if i < 95 {
           Table::row(1648342800, 7200, 3600, "EEST")
          } else {
           Table::row(1667091600, 7200, 0, "EET")
          }
         } else {
          if i < 97 {
           Table::row(1679792400, 7200, 3600, "EEST")
          } else {
           Table::row(1698541200, 7200, 0, "EET")
          }
         }
        } else {
         if i < 100 {
          if i < 99 {
           Table::row(1711846800, 7200, 3600, "EEST")
          } else {
           Table::row(1729990800, 7200, 0, "EET")
          }
         } else {
          if i < 101 {
           Table::row(1743296400, 7200, 3600, "EEST")
          } else {
           Table::row(1761440400, 7200, 0, "EET")
          }
         }
        }
       } else {
        if i < 106 {
         if i < 104 {
          if i < 103 {
           Table::row(1774746000, 7200, 3600, "EEST")
          } else {
           Table::row(1792890000, 7200, 0, "EET")
          }
         } else {
          if i < 105 {
           Table::row(1806195600, 7200, 3600, "EEST")
          } else {
           Table::row(1824944400, 7200, 0, "EET")
          }
         }
        } else {
         if i < 108 {
          if i < 107 {
           Table::row(1837645200, 7200, 3600, "EEST")
          } else {
           Table::row(1856394000, 7200, 0, "EET")
          }
         } else {
          if i < 109 {
           Table::row(1869094800, 7200, 3600, "EEST")
          } else {
           Table::row(1887843600, 7200, 0, "EET")
          }
         }
        }
       }
      } else {
       if i < 118 {
        if i < 114 {
         if i < 112 {
          if i < 111 {
           Table::row(1901149200, 7200, 3600, "EEST")
          } else {
           Table::row(1919293200, 7200, 0, "EET")
          }
         } else {
          if i < 113 {
           Table::row(1932598800, 7200, 3600, "EEST")
          } else {
           Table::row(1950742800, 7200, 0, "EET")
          }
         }
        } else {
         if i < 116 {
          if i < 115 {
           Table::row(1964048400, 7200, 3600, "EEST")
          } else {
           Table::row(1982797200, 7200, 0, "EET")
          }
         } else {
          if i < 117 {
           Table::row(1995498000, 7200, 3600, "EEST")
          } else {
           Table::row(2014246800, 7200, 0, "EET")
          }
         }
        }
       } else {
        if i < 122 {
         if i < 120 {
          if i < 119 {
           Table::row(2026947600, 7200, 3600, "EEST")
          } else {
           Table::row(2045696400, 7200, 0, "EET")
          }
         } else {
          if i < 121 {
           Table::row(2058397200, 7200, 3600, "EEST")
          } else {
           Table::row(2077146000, 7200, 0, "EET")
          }
         }
        } else {
         if i < 124 {
          if i < 123 {
           Table::row(2090451600, 7200, 3600, "EEST")
          } else {
           Table::row(2108595600, 7200, 0, "EET")
          }
         } else {
          if i < 125 {
           Table::row(2121901200, 7200, 3600, "EEST")
          } else {
           Table::row(2140045200, 7200, 0, "EET")
          }
         }
        }
       }
      }
     }
    }
}

/// The rows of the table of the zone `Europe/Riga`.
pub open spec fn riga_rows() -> spec_fn(int) -> (i64, FixedTimespan) {
    |i: int| riga_row(i)
}

/// The table of the zone `Europe/Riga`.
pub open spec fn riga() -> Table {
    Table::listed(Table::row(0, 5794, 0, "LMT").1, 126, riga_rows())
}

/// Row `i` of the table of the zone `Europe/Rome`.
pub open spec fn rome_row(i: int) -> (i64, FixedTimespan) {
    if i < 85 {
     if i < 42 {
      if i < 21 {
       if i < 10 {
        if i < 5 {
         if i < 2 {
          if i < 1 {
           Table::row(-3252098996, 2996, 0, "RMT")
          } else {
           Table::row(-2403565200, 3600, 0, "CET")
          }
         } else {
          if i < 3 {
           Table::row(-1690765200, 3600, 3600, "CEST")
          } else {
           if i < 4 {
            Table::row(-1680487200, 3600, 0, "CET")
           } else {
            Table::row(-1664758800, 3600, 3600, "CEST")
           }
          }
         }
        } else {
         if i < 7 {
          if i < 6 {
           Table::row(-1648951200, 3600, 0, "CET")
          } else {
           Table::row(-1635123600, 3600, 3600, "CEST")
          }
         } else {
          if i < 8 {
           Table::row(-1616896800, 3600, 0, "CET")
          } else {
           if i < 9 {
            Table::row(-1604278800, 3600, 3600, "CEST")
           } else {
            Table::row(-1585533600, 3600, 0, "CET")
           }
          }
         }
        }
       } else {
        if i < 15 {
         if i < 12 {
          if i < 11 {
           Table::row(-1571014800, 3600, 3600, "CEST")
          } else {
           Table::row(-1555293600, 3600, 0, "CET")
          }
         } else {
          if i < 13 {
           Table::row(-932432400, 3600, 3600, "CEST")
          } else {
           if i < 14 {
            Table::row(-857257200, 3600, 0, "CET")
           } else {
            Table::row(-844556400, 3600, 3600, "CEST")
           }
          }
         }
        } else {
         if i < 18 {
          if i < 16 {
           Table::row(-828226800, 3600, 0, "CET")
          } else {
           if i < 17 {
            Table::row(-812502000, 3600, 3600, "CEST")
           } else {
            Table::row(-798073200, 3600, 0, "CET")
           }
          }
         } else {
          if i < 19 {
           Table::row(-781052400, 3600, 3600, "CEST")
          } else {
           if i < 20 {
            Table::row(-766717200, 3600, 0, "CET")
           } else {
            Table::row(-750898800, 3600, 3600, "CEST")
           }
          }
         }
        }
       }
      } else {
       if i < 31 {
        if i < 26 {
         if i < 23 {
          if i < 22 {
           Table::row(-733359600, 3600, 0, "CET")
          } else {
           Table::row(-719456400, 3600, 3600, "CEST")
          }
         } else {
          if i < 24 {
           Table::row(-701917200, 3600, 0, "CET")
          } else {
           if i < 25 {
            Table::row(-689209200, 3600, 3600, "CEST")
           } else {
            Table::row(-670460400, 3600, 0, "CET")
           }
          }
         }
        } else {
         if i < 28 {
          if i < 27 {
           Table::row(-114051600, 3600, 3600, "CEST")
          } else {
           Table::row(-103168800, 3600, 0, "CET")
          }
         } else {
          if i < 29 {
           Table::row(-81997200, 3600, 3600, "CEST")
          } else {
           if i < 30 {
            Table::row(-71715600, 3600, 0, "CET")
           } else {
            Table::row(-50547600, 3600, 3600, "CEST")
           }
          }
         }
        }
       } else {
        if i < 36 {
         if i < 33 {
          if i < 32 {
           Table::row(-40266000, 3600, 0, "CET")
          } else {
           Table::row(-18493200, 3600, 3600, "CEST")
          }
         } else {
          if i < 34 {
           Table::row(-8211600, 3600, 0, "CET")
          } else {
           if i < 35 {
            Table::row(12956400, 3600, 3600, "CEST")
           } else {
            Table::row(23238000, 3600, 0, "CET")
           }
          }
         }
        } else {
         if i < 39 {
          if i < 37 {
           Table::row(43801200, 3600, 3600, "CEST")
          } else {
           if i < 38 {
            Table::row(54687600, 3600, 0, "CET")
           } else {
            Table::row(75855600, 3600, 3600, "CEST")
           }
          }
         } else {
          if i < 40 {
           Table::row(86742000, 3600, 0, "CET")
          } else {
           if i < 41 {
            Table::row(107910000, 3600, 3600, "CEST")
           } else {
            Table::row(118191600, 3600, 0, "CET")
           }
          }
         }
        }
       }
      }
     } else {
      if i < 63 {
       if i < 52 {
        if i < 47 {
         if i < 44 {
          if i < 43 {
           Table::row(138754800, 3600, 3600, "CEST")
          } else {
           Table::row(149641200, 3600, 0, "CET")
          }
         } else {
          if i < 45 {
           Table::row(170809200, 3600, 3600, "CEST")
          } else {
           if i < 46 {
            Table::row(181090800, 3600, 0, "CET")
           } else {
            Table::row(202258800, 3600, 3600, "CEST")
           }
          }
         }
        } else {
         if i < 49 {
          if i < 48 {
           Table::row(212540400, 3600, 0, "CET")
          } else {
           Table::row(233103600, 3600, 3600, "CEST")
          }
         } else {
          if i < 50 {
           Table::row(243990000, 3600, 0, "CET")
          } else {
           if i < 51 {
            Table::row(265158000, 3600, 3600, "CEST")
           } else {
            Table::row(276044400, 3600, 0, "CET")
           }
          }
         }
        }
       } else {
        if i < 57 {
         if i < 54 {
          if i < 53 {
           Table::row(296607600, 3600, 3600, "CEST")
          } else {
           Table::row(307494000, 3600, 0, "CET")
          }
         } else {
          if i < 55 {
           Table::row(323830800, 3600, 3600, "CEST")
          } else {
           if i < 56 {
            Table::row(338950800, 3600, 0, "CET")
           } else {
            Table::row(354675600, 3600, 3600, "CEST")
           }
          }
         }
        } else {
         if i < 60 {
          if i < 58 {
           Table::row(370400400, 3600, 0, "CET")
          } else {
           if i < 59 {
            Table::row(386125200, 3600, 3600, "CEST")
           } else {
            Table::row(401850000, 3600, 0, "CET")
           }
          }
         } else {
          if i < 61 {
           Table::row(417574800, 3600, 3600, "CEST")
          } else {
           if i < 62 {
            Table::row(433299600, 3600, 0, "CET")
           } else {
            Table::row(449024400, 3600, 3600, "CEST")
           }
          }
         }
        }
       }
      } else {
       if i < 74 {
        if i < 68 {
         if i < 65 {
          if i < 64 {
           Table::row(465354000, 3600, 0, "CET")
          } else {
           Table::row(481078800, 3600, 3600, "CEST")
          }
         } else {
          if i < 66 {
           Table::row(496803600, 3600, 0, "CET")
          } else {
           if i < 67 {
            Table::row(512528400, 3600, 3600, "CEST")
           } else {
            Table::row(528253200, 3600, 0, "CET")
           }
          }
         }
        } else {
         if i < 71 {
          if i < 69 {
           Table::row(543978000, 3600, 3600, "CEST")
          } else {
           if i < 70 {
            Table::row(559702800, 3600, 0, "CET")
           } else {
            Table::row(575427600, 3600, 3600, "CEST")
           }
          }
         } else {
          if i < 72 {
           Table::row(591152400, 3600, 0, "CET")
          } else {
           if i < 73 {
            Table::row(606877200, 3600, 3600, "CEST")
           } else {
            Table::row(622602000, 3600, 0, "CET")
           }
          }
         }
        }
       } else {
        if i < 79 {
         if i < 76 {
          if i < 75 {
           Table::row(638326800, 3600, 3600, "CEST")
          } else {
           Table::row(654656400, 3600, 0, "CET")
          }
         } else {
          if i < 77 {
           Table::row(670381200, 3600, 3600, "CEST")
          } else {
           if i < 78 {
            Table::row(686106000, 3600, 0, "CET")
           } else {
            Table::row(701830800, 3600, 3600, "CEST")
           }
          }
         }
        } else {
         if i < 82 {
          if i < 80 {
           Table::row(717555600, 3600, 0, "CET")
          } else {
           if i < 81 {
            Table::row(733280400, 3600, 3600, "CEST")
           } else {
            Table::row(749005200, 3600, 0, "CET")
           }
          }
         } else {
          if i < 83 {
           Table::row(764730000, 3600, 3600, "CEST")
          } else {
           if i < 84 {
            Table::row(780454800, 3600, 0, "CET")
           } else {
            Table::row(796179600, 3600, 3600, "CEST")
           }
          }
         }
        }
       }
      }
     }
    } else {
     if i < 127 {
      if i < 106 {
       if i < 95 {
        if i < 90 {
         if i < 87 {
          if i < 86 {
           Table::row(811904400, 3600, 0, "CET")
          } else {
           Table::row(828234000, 3600, 3600, "CEST")
          }
         } else {
          if i < 88 {
           Table::row(846378000, 3600, 0, "CET")
          } else {
           if i < 89 {
            Table::row(859683600, 3600, 3600, "CEST")
           } else {
            Table::row(877827600, 3600, 0, "CET")
           }
          }
         }
        } else {
         if i < 92 {
          if i < 91 {
           Table::row(891133200, 3600, 3600, "CEST")
          } else {
           Table::row(909277200, 3600, 0, "CET")
          }
         } else {
          if i < 93 {
           Table::row(922582800, 3600, 3600, "CEST")
          } else {
           if i < 94 {
            Table::row(941331600, 3600, 0, "CET")
           } else {
            Table::row(954032400, 3600, 3600, "CEST")
           }
          }
         }
        }
       } else {
        if i < 100 {
         if i < 97 {
          if i < 96 {
           Table::row(972781200, 3600, 0, "CET")
          } else {
           Table::row(985482000, 3600, 3600, "CEST")
          }
         } else {
          if i < 98 {
           Table::row(1004230800, 3600, 0, "CET")
          } else {
           if i < 99 {
            Table::row(1017536400, 3600, 3600, "CEST")
           } else {
            Table::row(1035680400, 3600, 0, "CET")
           }
          }
         }
        } else {
         if i < 103 {
          if i < 101 {
           Table::row(1048986000, 3600, 3600, "CEST")
          } else {
           if i < 102 {
            Table::row(1067130000, 3600, 0, "CET")
           } else {
            Table::row(1080435600, 3600, 3600, "CEST")
           }
          }
         } else {
          if i < 104 {
           Table::row(1099184400, 3600, 0, "CET")
          } else {
           if i < 105 {
            Table::row(1111885200, 3600, 3600, "CEST")
           } else {
            Table::row(1130634000, 3600, 0, "CET")
           }
          }
         }
        }
       }
      } else {
       if i < 116 {
        if i < 111 {
         if i < 108 {
          if i < 107 {
           Table::row(1143334800, 3600, 3600, "CEST")
          } else {
           Table::row(1162083600, 3600, 0, "CET")
          }
         } else {
          if i < 109 {
           Table::row(1174784400, 3600, 3600, "CEST")
          } else {
           if i < 110 {
            Table::row(1193533200, 3600, 0, "CET")
           } else {
            Table::row(1206838800, 3600, 3600, "CEST")
           }
          }
         }
        } else {
         if i < 113 {
          if i < 112 {
           Table::row(1224982800, 3600, 0, "CET")
          } else {
           Table::row(1238288400, 3600, 3600, "CEST")
          }
         } else {
          if i < 114 {
           Table::row(1256432400, 3600, 0, "CET")
          } else {
           if i < 115 {
            Table::row(1269738000, 3600, 3600, "CEST")
           } else {
            Table::row(1288486800, 3600, 0, "CET")
           }
          }
         }
        }
       } else {
        if i < 121 {
         if i < 118 {
          if i < 117 {
           Table::row(1301187600, 3600, 3600, "CEST")
          } else {
           Table::row(1319936400, 3600, 0, "CET")
          }
         } else {
          if i < 119 {
           Table::row(1332637200, 3600, 3600, "CEST")
          } else {
           if i < 120 {
            Table::row(1351386000, 3600, 0, "CET")
           } else {
            Table::row(1364691600, 3600, 3600, "CEST")
           }
          }
         }
        } else {
         if i < 124 {
          if i < 122 {
           Table::row(1382835600, 3600, 0, "CET")
          } else {
           if i < 123 {
            Table::row(1396141200, 3600, 3600, "CEST")
           } else {
            Table::row(1414285200, 3600, 0, "CET")
           }
          }
         } else {
          if i < 125 {
           Table::row(1427590800, 3600, 3600, "CEST")
          } else {
           if i < 126 {
            Table::row(1445734800, 3600, 0, "CET")
           } else {
            Table::row(1459040400, 3600, 3600, "CEST")
           }
          }
         }
        }
       }
      }
     } else {
      if i < 148 {
       if i < 137 {
        if i < 132 {
         if i < 129 {
          if i < 128 {
           Table::row(1477789200, 3600, 0, "CET")
          } else {
           Table::row(1490490000, 3600, 3600, "CEST")
          }
         } else {
          if i < 130 {
           Table::row(1509238800, 3600, 0, "CET")
          } else {
           if i < 131 {
            Table::row(1521939600, 3600, 3600, "CEST")
           } else {
            Table::row(1540688400, 3600, 0, "CET")
           }
          }
         }
        } else {
         if i < 134 {
          if i < 133 {
           Table::row(1553994000, 3600, 3600, "CEST")
          } else {
           Table::row(1572138000, 3600, 0, "CET")
          }
         } else {
          if i < 135 {
           Table::row(1585443600, 3600, 3600, "CEST")
          } else {
           if i < 136 {
            Table::row(1603587600, 3600, 0, "CET")
           } else {
            Table::row(1616893200, 3600, 3600, "CEST")
           }
          }
         }
        }
       } else {
        if i < 142 {
         if i < 139 {
          if i < 138 {
           Table::row(1635642000, 3600, 0, "CET")
          } else {
           Table::row(1648342800, 3600, 3600, "CEST")
          }
         } else {
          if i < 140 {
           Table::row(1667091600, 3600, 0, "CET")
          } else {
           if i < 141 {
            Table::row(1679792400, 3600, 3600, "CEST")
           } else {
            Table::row(1698541200, 3600, 0, "CET")
           }
          }
         }
        } else {
         if i < 145 {
          if i < 143 {
           Table::row(1711846800, 3600, 3600, "CEST")
          } else {
           if i < 144 {
            Table::row(1729990800, 3600, 0, "CET")
           } else {
            Table::row(1743296400, 3600, 3600, "CEST")
           }
          }
         } else {
          if i < 146 {
           Table::row(1761440400, 3600, 0, "CET")
          } else {
           if i < 147 {
            Table::row(1774746000, 3600, 3600, "CEST")
           } else {
            Table::row(1792890000, 3600, 0, "CET")
           }
          }
         }
        }
       }
      } else {
       if i < 159 {
        if i < 153 {
         if i < 150 {
          if i < 149 {
           Table::row(1806195600, 3600, 3600, "CEST")
          } else {
           Table::row(1824944400, 3600, 0, "CET")
          }
         } else {
          if i < 151 {
           Table::row(1837645200, 3600, 3600, "CEST")
          } else {
           if i < 152 {
            Table::row(1856394000, 3600, 0, "CET")
           } else {
            Table::row(1869094800, 3600, 3600, "CEST")
           }
          }
         }
        } else {
         if i < 156 {
          if i < 154 {
           Table::row(1887843600, 3600, 0, "CET")
          } else {
           if i < 155 {
            Table::row(1901149200, 3600, 3600, "CEST")
           } else {
            Table::row(1919293200, 3600, 0, "CET")
           }
          }
         } else {
          if i < 157 {
           Table::row(1932598800, 3600, 3600, "CEST")
          } else {
           if i < 158 {
            Table::row(1950742800, 3600, 0, "CET")
           } else {
            Table::row(1964048400, 3600, 3600, "CEST")
           }
          }
         }
        }
       } else {
        if i < 164 {
         if i < 161 {
          if i < 160 {
           Table::row(1982797200, 3600, 0, "CET")
          } else {
           Table::row(1995498000, 3600, 3600, "CEST")
          }
         } else {
          if i < 162 {
           Table::row(2014246800, 3600, 0, "CET")
          } else {
           if i < 163 {
            Table::row(2026947600, 3600, 3600, "CEST")
           } else {
            Table::row(2045696400, 3600, 0, "CET")
           }
          }
         }
        } else {
         if i < 167 {
          if i < 165 {
           Table::row(2058397200, 3600, 3600, "CEST")
          } else {
           if i < 166 {
            Table::row(2077146000, 3600, 0, "CET")
           } else {
            Table::row(2090451600, 3600, 3600, "CEST")
           }
          }
         } else {
          if i < 168 {
           Table::row(2108595600, 3600, 0, "CET")
          } else {
           if i < 169 {
            Table::row(2121901200, 3600, 3600, "CEST")
           } else {
            Table::row(2140045200, 3600, 0, "CET")
           }
          }
         }
        }
       }
      }
     }
    }
}

/// The rows of the table of the zone `Europe/Rome`.
pub open spec fn rome_rows() -> spec_fn(int) -> (i64, FixedTimespan) {
    |i: int| rome_row(i)
}

/// The table of the zone `Europe/Rome`.
pub open spec fn rome() -> Table {
    Table::listed(Table::row(0, 2996, 0, "LMT").1, 170, rome_rows())
}

/// Row `i` of the table of the zone `Europe/Samara`.
pub open spec fn samara_row(i: int) -> (i64, FixedTimespan) {
    if i < 32 {
     if i < 16 {
      if i < 8 {
       if i < 4 {
        if i < 2 {
         if i < 1 {
          Table::row(-1593820800, 10800, 0, "+03")
         } else {
          Table::row(-1247540400, 14400, 0, "+04")
         }
        } else {
         if i < 3 {
          Table::row(354916800, 14400, 3600, "+05")
         } else {
          Table::row(370724400, 14400, 0, "+04")
         }
        }
       } else {
        if i < 6 {
         if i < 5 {
          Table::row(386452800, 14400, 3600, "+05")
         } else {
          Table::row(402260400, 14400, 0, "+04")
         }
        } else {
         if i < 7 {
          Table::row(417988800, 14400, 3600, "+05")
         } else {
          Table::row(433796400, 14400, 0, "+04")
         }
        }
       }
      } else {
       if i < 12 {
        if i < 10 {
         if i < 9 {
          Table::row(449611200, 14400, 3600, "+05")
         } else {
          Table::row(465343200, 14400, 0, "+04")
         }
        } else {
         if i < 11 {
          Table::row(481068000, 14400, 3600, "+05")
         } else {
          Table::row(496792800, 14400, 0, "+04")
         }
        }
       } else {
        if i < 14 {
         if i < 13 {
          Table::row(512517600, 14400, 3600, "+05")
         } else {
          Table::row(528242400, 14400, 0, "+04")
         }
        } else {
         if i < 15 {
          Table::row(543967200, 14400, 3600, "+05")
         } else {
          Table::row(559692000, 14400, 0, "+04")
         }
        }
       }
      }
     } else {
      if i < 24 {
       if i < 20 {
        if i < 18 {
         if i < 17 {
          Table::row(575416800, 14400, 3600, "+05")
         } else {
          Table::row(591141600, 14400, 0, "+04")
         }
        } else {
         if i < 19 {
          Table::row(606866400, 10800, 3600, "+04")
         } else {
          Table::row(622594800, 10800, 0, "+03")
         }
        }
       } else {
        if i < 22 {
         if i < 21 {
          Table::row(638319600, 10800, 3600, "+04")
         } else {
          Table::row(654649200, 10800, 0, "+03")
         }
        } else {
         if i < 23 {
          Table::row(670374000, 7200, 3600, "+03")
         } else {
          Table::row(686102400, 10800, 0, "+03")
         }
        }
       }
      } else {
       if i < 28 {
        if i < 26 {
         if i < 25 {
          Table::row(687916800, 14400, 0, "+04")
         } else {
          Table::row(701820000, 14400, 3600, "+05")
         }
        } else {
         if i < 27 {
          Table::row(717544800, 14400, 0, "+04")
         } else {
          Table::row(733269600, 14400, 3600, "+05")
         }
        }
       } else {
        if i < 30 {
         if i < 29 {
          Table::row(748994400, 14400, 0, "+04")
         } else {
          Table::row(764719200, 14400, 3600, "+05")
         }
        } else {
         if i < 31 {
          Table::row(780444000, 14400, 0, "+04")
         } else {
          Table::row(796168800, 14400, 3600, "+05")
         }
        }
       }
      }
     }
    } else {
     if i < 48 {
      if i < 40 {
       if i < 36 {
        if i < 34 {
         if i < 33 {
          Table::row(811893600, 14400, 0, "+04")
         } else {
          Table::row(828223200, 14400, 3600, "+05")
         }
        } else {
         if i < 35 {
          Table::row(846367200, 14400, 0, "+04")
         } else {
          Table::row(859672800, 14400, 3600, "+05")
         }
        }
       } else {
        if i < 38 {
         if i < 37 {
          Table::row(877816800, 14400, 0, "+04")
         } else {
          Table::row(891122400, 14400, 3600, "+05")
         }
        } else {
         if i < 39 {
          Table::row(909266400, 14400, 0, "+04")
         } else {
          Table::row(922572000, 14400, 3600, "+05")
         }
        }
       }
      } else {
       if i < 44 {
        if i < 42 {
         if i < 41 {
          Table::row(941320800, 14400, 0, "+04")
         } else {
          Table::row(954021600, 14400, 3600, "+05")
         }
        } else {
         if i < 43 {
          Table::row(972770400, 14400, 0, "+04")
         } else {
          Table::row(985471200, 14400, 3600, "+05")
         }
        }
       } else {
        if i < 46 {
         if i < 45 {
          Table::row(1004220000, 14400, 0, "+04")
         } else {
          Table::row(1017525600, 14400, 3600, "+05")
         }
        } else {
         if i < 47 {
          Table::row(1035669600, 14400, 0, "+04")
         } else {
          Table::row(1048975200, 14400, 3600, "+05")
         }
        }
       }
      }
     } else {
      if i < 56 {
       if i < 52 {
        if i < 50 {
         if i < 49 {
          Table::row(1067119200, 14400, 0, "+04")
         } else {
          Table::row(1080424800, 14400, 3600, "+05")
         }
        } else {
         if i < 51 {
          Table::row(1099173600, 14400, 0, "+04")
         } else {
          Table::row(1111874400, 14400, 3600, "+05")
         }
        }
       } else {
        if i < 54 {
         if i < 53 {
          Table::row(1130623200, 14400, 0, "+04")
         } else {
          Table::row(1143324000, 14400, 3600, "+05")
         }
        } else {
         if i < 55 {
          Table::row(1162072800, 14400, 0, "+04")
         } else {
          Table::row(1174773600, 14400, 3600, "+05")
         }
        }
       }
      } else {
       if i < 60 {
        if i < 58 {
         if i < 57 {
          Table::row(1193522400, 14400, 0, "+04")
         } else {
          Table::row(1206828000, 14400, 3600, "+05")
         }
        } else {
         if i < 59 {
          Table::row(1224972000, 14400, 0, "+04")
         } else {
          Table::row(1238277600, 14400, 3600, "+05")
         }
        }
       } else {
        if i < 62 {
         if i < 61 {
          Table::row(1256421600, 14400, 0, "+04")
         } else {
          Table::row(1269727200, 10800, 3600, "+04")
         }
        } else {
         if i < 63 {
          Table::row(1288479600, 10800, 0, "+03")
         } else {
          if i < 64 {
           Table::row(1301180400, 14400, 0, "+04")
          } else {
           Table::row(2147483647, 14400, 0, "+04")
          }
         }
        }
       }
      }
     }
    }
}

/// The rows of the table of the zone `Europe/Samara`.
pub open spec fn samara_rows() -> spec_fn(int) -> (i64, FixedTimespan) {
    |i: int| samara_row(i)
}

/// The table of the zone `Europe/Samara`.
pub open spec fn samara() -> Table {
    Table::listed(Table::row(0, 12020, 0, "LMT").1, 65, samara_rows())
}

/// Row `i` of the table of the zone `Europe/San_Marino`.
pub open spec fn san_marino_row(i: int) -> (i64, FixedTimespan) {
    if i < 85 {
     if i < 42 {
      if i < 21 {
       if i < 10 {
        if i < 5 {
         if i < 2 {
          if i < 1 {
           Table::row(-3252098996, 2996, 0, "RMT")
          } else {
           Table::row(-2403565200, 3600, 0, "CET")
          }
         } else {
          if i < 3 {
           Table::row(-1690765200, 3600, 3600, "CEST")
          } else {
           if i < 4 {
            Table::row(-1680487200, 3600, 0, "CET")
           } else {
            Table::row(-1664758800, 3600, 3600, "CEST")
           }
          }
         }
        } else {
         if i < 7 {
          if i < 6 {
           Table::row(-1648951200, 3600, 0, "CET")
          } else {
           Table::row(-1635123600, 3600, 3600, "CEST")
          }
         } else {
          if i < 8 {
           Table::row(-1616896800, 3600, 0, "CET")
          } else {
           if i < 9 {
            Table::row(-1604278800, 3600, 3600, "CEST")
           } else {
            Table::row(-1585533600, 3600, 0, "CET")
           }
          }
         }
        }
       } else {
        if i < 15 {
         if i < 12 {
          if i < 11 {
           Table::row(-1571014800, 3600, 3600, "CEST")
          } else {
           Table::row(-1555293600, 3600, 0, "CET")
          }
         } else {
          if i < 13 {
           Table::row(-932432400, 3600, 3600, "CEST")
          } else {
           if i < 14 {
            Table::row(-857257200, 3600, 0, "CET")
           } else {
            Table::row(-844556400, 3600, 3600, "CEST")
           }
          }
         }
        } else {
         if i < 18 {
          if i < 16 {
           Table::row(-828226800, 3600, 0, "CET")
          } else {
           if i < 17 {
            Table::row(-812502000, 3600, 3600, "CEST")
           } else {
            Table::row(-798073200, 3600, 0, "CET")
           }
          }
         } else {
          if i < 19 {
           Table::row(-781052400, 3600, 3600, "CEST")
          } else {
           if i < 20 {
            Table::row(-766717200, 3600, 0, "CET")
           } else {
            Table::row(-750898800, 3600, 3600, "CEST")
           }
          }
         }
        }
       }
      } else {
       if i < 31 {
        if i < 26 {
         if i < 23 {
          if i < 22 {
           Table::row(-733359600, 3600, 0, "CET")
          } else {
           Table::row(-719456400, 3600, 3600, "CEST")
          }
         } else {
          if i < 24 {
           Table::row(-701917200, 3600, 0, "CET")
          } else {
           if i < 25 {
            Table::row(-689209200, 3600, 3600, "CEST")
           } else {
            Table::row(-670460400, 3600, 0, "CET")
           }
          }
         }
        } else {
         if i < 28 {
          if i < 27 {
           Table::row(-114051600, 3600, 3600, "CEST")
          } else {
           Table::row(-103168800, 3600, 0, "CET")
          }
         } else {
          if i < 29 {
           Table::row(-81997200, 3600, 3600, "CEST")
          } else {
           if i < 30 {
            Table::row(-71715600, 3600, 0, "CET")
           } else {
            Table::row(-50547600, 3600, 3600, "CEST")
           }
          }
         }
        }
       } else {
        if i < 36 {
         if i < 33 {
          if i < 32 {
           Table::row(-40266000, 3600, 0, "CET")
          } else {
           Table::row(-18493200, 3600, 3600, "CEST")
          }
         } else {
          if i < 34 {
           Table::row(-8211600, 3600, 0, "CET")
          } else {
           if i < 35 {
            Table::row(12956400, 3600, 3600, "CEST")
           } else {
            Table::row(23238000, 3600, 0, "CET")
           }
          }
         }
        } else {
         if i < 39 {
          if i < 37 {
           Table::row(43801200, 3600, 3600, "CEST")
          } else {
           if i < 38 {
            Table::row(54687600, 3600, 0, "CET")
           } else {
            Table::row(75855600, 3600, 3600, "CEST")
           }
          }
         } else {
          if i < 40 {
           Table::row(86742000, 3600, 0, "CET")
          } else {
           if i < 41 {
            Table::row(107910000, 3600, 3600, "CEST")
           } else {
            Table::row(118191600, 3600, 0, "CET")
           }
          }
         }
        }
       }
      }
     } else {
      if i < 63 {
       if i < 52 {
        if i < 47 {
         if i < 44 {
          if i < 43 {
           Table::row(138754800, 3600, 3600, "CEST")
          } else {
           Table::row(149641200, 3600, 0, "CET")
          }
         } else {
          if i < 45 {
           Table::row(170809200, 3600, 3600, "CEST")
          } else {
           if i < 46 {
            Table::row(181090800, 3600, 0, "CET")
           } else {
            Table::row(202258800, 3600, 3600, "CEST")
           }
          }
         }
        } else {
         if i < 49 {
          if i < 48 {
           Table::row(212540400, 3600, 0, "CET")
          } else {
           Table::row(233103600, 3600, 3600, "CEST")
          }
         } else {
          if i < 50 {
           Table::row(243990000, 3600, 0, "CET")
          } else {
           if i < 51 {
            Table::row(265158000, 3600, 3600, "CEST")
           } else {
            Table::row(276044400, 3600, 0, "CET")
           }
          }
         }
        }
       } else {
        if i < 57 {
         if i < 54 {
          if i < 53 {
           Table::row(296607600, 3600, 3600, "CEST")
          } else {
           Table::row(307494000, 3600, 0, "CET")
          }
         } else {
          if i < 55 {
           Table::row(323830800, 3600, 3600, "CEST")
          } else {
           if i < 56 {
            Table::row(338950800, 3600, 0, "CET")
           } else {
            Table::row(354675600, 3600, 3600, "CEST")
           }
          }
         }
        } else {
         if i < 60 {
          if i < 58 {
           Table::row(370400400, 3600, 0, "CET")
          } else {
           if i < 59 {
            Table::row(386125200, 3600, 3600, "CEST")
           } else {
            Table::row(401850000, 3600, 0, "CET")
           }
          }
         } else {
          if i < 61 {
           Table::row(417574800, 3600, 3600, "CEST")
          } else {
           if i < 62 {
            Table::row(433299600, 3600, 0, "CET")
           } else {
            Table::row(449024400, 3600, 3600, "CEST")
           }
          }
         }
        }
       }
      } else {
       if i < 74 {
        if i < 68 {
         if i < 65 {
          if i < 64 {
           Table::row(465354000, 3600, 0, "CET")
          } else {
           Table::row(481078800, 3600, 3600, "CEST")
          }
         } else {
          if i < 66 {
           Table::row(496803600, 3600, 0, "CET")
          } else {
           if i < 67 {
            Table::row(512528400, 3600, 3600, "CEST")
           } else {
            Table::row(528253200, 3600, 0, "CET")
           }
          }
         }
        } else {
         if i < 71 {
          if i < 69 {
           Table::row(543978000, 3600, 3600, "CEST")
          } else {
           if i < 70 {
            Table::row(559702800, 3600, 0, "CET")
           } else {
            Table::row(575427600, 3600, 3600, "CEST")
           }
          }
         } else {
          if i < 72 {
           Table::row(591152400, 3600, 0, "CET")
          } else {
           if i < 73 {
            Table::row(606877200, 3600, 3600, "CEST")
           } else {
            Table::row(622602000, 3600, 0, "CET")
           }
          }
         }
        }
       } else {
        if i < 79 {
         if i < 76 {
          if i < 75 {
           Table::row(638326800, 3600, 3600, "CEST")
          } else {
           Table::row(654656400, 3600, 0, "CET")
          }
         } else {
          if i < 77 {
           Table::row(670381200, 3600, 3600, "CEST")
          } else {
           if i < 78 {
            Table::row(686106000, 3600, 0, "CET")
           } else {
            Table::row(701830800, 3600, 3600, "CEST")
           }
          }
         }
        } else {
         if i < 82 {
          if i < 80 {
           Table::row(717555600, 3600, 0, "CET")
          } else {
           if i < 81 {
            Table::row(733280400, 3600, 3600, "CEST")
           } else {
            Table::row(749005200, 3600, 0, "CET")
           }
          }
         } else {
          if i < 83 {
           Table::row(764730000, 3600, 3600, "CEST")
          } else {
           if i < 84 {
            Table::row(780454800, 3600, 0, "CET")
           } else {
            Table::row(796179600, 3600, 3600, "CEST")
           }
          }
         }
        }
       }
      }
     }
    } else {
     if i < 127 {
      if i < 106 {
       if i < 95 {
        if i < 90 {
         if i < 87 {
          if i < 86 {
           Table::row(811904400, 3600, 0, "CET")
          } else {
           Table::row(828234000, 3600, 3600, "CEST")
          }
         } else {
          if i < 88 {
           Table::row(846378000, 3600, 0, "CET")
          } else {
           if i < 89 {
            Table::row(859683600, 3600, 3600, "CEST")
           } else {
            Table::row(877827600, 3600, 0, "CET")
           }
          }
         }
        } else {
         if i < 92 {
          if i < 91 {
           Table::row(891133200, 3600, 3600, "CEST")
          } else {
           Table::row(909277200, 3600, 0, "CET")
          }
         } else {
          if i < 93 {
           Table::row(922582800, 3600, 3600, "CEST")
          } else {
           if i < 94 {
            Table::row(941331600, 3600, 0, "CET")
           } else {
            Table::row(954032400, 3600, 3600, "CEST")
           }
          }
         }
        }
       } else {
        if i < 100 {
         if i < 97 {
          if i < 96 {
           Table::row(972781200, 3600, 0, "CET")
          } else {
           Table::row(985482000, 3600, 3600, "CEST")
          }
         } else {
          if i < 98 {
           Table::row(1004230800, 3600, 0, "CET")
          } else {
           if i < 99 {
            Table::row(1017536400, 3600, 3600, "CEST")
           } else {
            Table::row(1035680400, 3600, 0, "CET")
           }
          }
         }
        } else {
         if i < 103 {
          if i < 101 {
           Table::row(1048986000, 3600, 3600, "CEST")
          } else {
           if i < 102 {
            Table::row(1067130000, 3600, 0, "CET")
           } else {
            Table::row(1080435600, 3600, 3600, "CEST")
           }
          }
         } else {
          if i < 104 {
           Table::row(1099184400, 3600, 0, "CET")
          } else {
           if i < 105 {
            Table::row(1111885200, 3600, 3600, "CEST")
           } else {
            Table::row(1130634000, 3600, 0, "CET")
           }
          }
         }
        }
       }
      } else {
       if i < 116 {
        if i < 111 {
         if i < 108 {
          if i < 107 {
           Table::row(1143334800, 3600, 3600, "CEST")
          } else {
           Table::row(1162083600, 3600, 0, "CET")
          }
         } else {
          if i < 109 {
           Table::row(1174784400, 3600, 3600, "CEST")
          } else {
           if i < 110 {
            Table::row(1193533200, 3600, 0, "CET")
           } else {
            Table::row(1206838800, 3600, 3600, "CEST")
           }
          }
         }
        } else {
         if i < 113 {
          if i < 112 {
           Table::row(1224982800, 3600, 0, "CET")
          } else {
           Table::row(1238288400, 3600, 3600, "CEST")
          }
         } else {
          if i < 114 {
           Table::row(1256432400, 3600, 0, "CET")
          } else {
           if i < 115 {
            Table::row(1269738000, 3600, 3600, "CEST")
           } else {
            Table::row(1288486800, 3600, 0, "CET")
           }
          }
         }
        }
       } else {
        if i < 121 {
         if i < 118 {
          if i < 117 {
           Table::row(1301187600, 3600, 3600, "CEST")
          } else {
           Table::row(1319936400, 3600, 0, "CET")
          }
         } else {
          if i < 119 {
           Table::row(1332637200, 3600, 3600, "CEST")
          } else {
           if i < 120 {
            Table::row(1351386000, 3600, 0, "CET")
           } else {
            Table::row(1364691600, 3600, 3600, "CEST")
           }
          }
         }
        } else {
         if i < 124 {
          if i < 122 {
           Table::row(1382835600, 3600, 0, "CET")
          } else {
           if i < 123 {
            Table::row(1396141200, 3600, 3600, "CEST")
           } else {
            Table::row(1414285200, 3600, 0, "CET")
           }
          }
         } else {
          if i < 125 {
           Table::row(1427590800, 3600, 3600, "CEST")
          } else {
           if i < 126 {
            Table::row(1445734800, 3600, 0, "CET")
           } else {
            Table::row(1459040400, 3600, 3600, "CEST")
           }
          }
         }
        }
       }
      }
     } else {
      if i < 148 {
       if i < 137 {
        if i < 132 {
         if i < 129 {
          if i < 128 {
           Table::row(1477789200, 3600, 0, "CET")
          } else {
           Table::row(1490490000, 3600, 3600, "CEST")
          }
         } else {
          if i < 130 {
           Table::row(1509238800, 3600, 0, "CET")
          } else {
           if i < 131 {
            Table::row(1521939600, 3600, 3600, "CEST")
           } else {
            Table::row(1540688400, 3600, 0, "CET")
           }
          }
         }
        } else {
         if i < 134 {
          if i < 133 {
           Table::row(1553994000, 3600, 3600, "CEST")
          } else {
           Table::row(1572138000, 3600, 0, "CET")
          }
         } else {
          if i < 135 {
           Table::row(1585443600, 3600, 3600, "CEST")
          } else {
           if i < 136 {
            Table::row(1603587600, 3600, 0, "CET")
           } else {
            Table::row(1616893200, 3600, 3600, "CEST")
           }
          }
         }
        }
       } else {
        if i < 142 {
         if i < 139 {
          if i < 138 {
           Table::row(1635642000, 3600, 0, "CET")
          } else {
           Table::row(1648342800, 3600, 3600, "CEST")
          }
         } else {
          if i < 140 {
           Table::row(1667091600, 3600, 0, "CET")
          } else {
           if i < 141 {
            Table::row(1679792400, 3600, 3600, "CEST")
           } else {
            Table::row(1698541200, 3600, 0, "CET")
           }
          }
         }
        } else {
         if i < 145 {
          if i < 143 {
           Table::row(1711846800, 3600, 3600, "CEST")
          } else {
           if i < 144 {
            Table::row(1729990800, 3600, 0, "CET")
           } else {
            Table::row(1743296400, 3600, 3600, "CEST")
           }
          }
         } else {
          if i < 146 {
           Table::row(1761440400, 3600, 0, "CET")
          } else {
           if i < 147 {
            Table::row(1774746000, 3600, 3600, "CEST")
           } else {
            Table::row(1792890000, 3600, 0, "CET")
           }
          }
         }
        }
       }
      } else {
       if i < 159 {
        if i < 153 {
         if i < 150 {
          if i < 149 {
           Table::row(1806195600, 3600, 3600, "CEST")
          } else {
           Table::row(1824944400, 3600, 0, "CET")
          }
         } else {
          if i < 151 {
           Table::row(1837645200, 3600, 3600, "CEST")
          } else {
           if i < 152 {
            Table::row(1856394000, 3600, 0, "CET")
           } else {
            Table::row(1869094800, 3600, 3600, "CEST")
           }
          }
         }
        } else {
         if i < 156 {
          if i < 154 {
           Table::row(1887843600, 3600, 0, "CET")
          } else {
           if i < 155 {
            Table::row(1901149200, 3600, 3600, "CEST")
           } else {
            Table::row(1919293200, 3600, 0, "CET")
           }
          }
         } else {
          if i < 157 {
           Table::row(1932598800, 3600, 3600, "CEST")
          } else {
           if i < 158 {
            Table::row(1950742800, 3600, 0, "CET")
           } else {
            Table::row(1964048400, 3600, 3600, "CEST")
           }
          }
         }
        }
       } else {
        if i < 164 {
         if i < 161 {
          if i < 160 {
           Table::row(1982797200, 3600, 0, "CET")
          } else {
           Table::row(1995498000, 3600, 3600, "CEST")
          }
         } else {
          if i < 162 {
           Table::row(2014246800, 3600, 0, "CET")
          } else {
           if i < 163 {
            Table::row(2026947600, 3600, 3600, "CEST")
           } else {
            Table::row(2045696400, 3600, 0, "CET")
           }
          }
         }
        } else {
         if i < 167 {
          if i < 165 {
           Table::row(2058397200, 3600, 3600, "CEST")
          } else {
           if i < 166 {
            Table::row(2077146000, 3600, 0, "CET")
           } else {
            Table::row(2090451600, 3600, 3600, "CEST")
           }
          }
         } else {
          if i < 168 {
           Table::row(2108595600, 3600, 0, "CET")
          } else {
           if i < 169 {
            Table::row(2121901200, 3600, 3600, "CEST")
           } else {
            Table::row(2140045200, 3600, 0, "CET")
           }
          }
         }
        }
       }
      }
     }
    }
}

/// The rows of the table of the zone `Europe/San_Marino`.
pub open spec fn san_marino_rows() -> spec_fn(int) -> (i64, FixedTimespan) {
    |i: int| san_marino_row(i)
}

/// The table of the zone `Europe/San_Marino`.
pub open spec fn san_marino() -> Table {
    Table::listed(Table::row(0, 2996, 0, "LMT").1, 170, san_marino_rows())
}

/// Row `i` of the table of the zone `Europe/Sarajevo`.
pub open spec fn sarajevo_row(i: int) -> (i64, FixedTimespan) {
    if i < 59 {
     if i < 29 {
      if i < 14 {
       if i < 7 {
        if i < 3 {
         if i < 1 {
          Table::row(-2713914820, 3600, 0, "CET")
         } else {
          if i < 2 {
           Table::row(-905824800, 3600, 3600, "CEST")
          } else {
           Table::row(-857257200, 3600, 0, "CET")
          }
         }
        } else {
         if i < 5 {
          if i < 4 {
           Table::row(-844556400, 3600, 3600, "CEST")
          } else {
           Table::row(-828226800, 3600, 0, "CET")
          }
         } else {
          if i < 6 {
           Table::row(-812502000, 3600, 3600, "CEST")
          } else {
           Table::row(-796777200, 3600, 0, "CET")
          }
         }
        }
       } else {
        if i < 10 {
         if i < 8 {
          Table::row(-781052400, 3600, 3600, "CEST")
         } else {
          if i < 9 {
           Table::row(-766623600, 3600, 0, "CET")
          } else {
           Table::row(417574800, 3600, 3600, "CEST")
          }
         }
        } else {
         if i < 12 {
          if i < 11 {
           Table::row(433299600, 3600, 0, "CET")
          } else {
           Table::row(449024400, 3600, 3600, "CEST")
          }
         } else {
          if i < 13 {
           Table::row(465354000, 3600, 0, "CET")
          } else {
           Table::row(481078800, 3600, 3600, "CEST")
          }
         }
        }
       }
      } else {
       if i < 21 {
        if i < 17 {
         if i < 15 {
          Table::row(496803600, 3600, 0, "CET")
         } else {
          if i < 16 {
           Table::row(512528400, 3600, 3600, "CEST")
          } else {
           Table::row(528253200, 3600, 0, "CET")
          }
         }
        } else {
         if i < 19 {
          if i < 18 {
           Table::row(543978000, 3600, 3600, "CEST")
          } else {
           Table::row(559702800, 3600, 0, "CET")
          }
         } else {
          if i < 20 {
           Table::row(575427600, 3600, 3600, "CEST")
          } else {
           Table::row(591152400, 3600, 0, "CET")
          }
         }
        }
       } else {
        if i < 25 {
         if i < 23 {
          if i < 22 {
           Table::row(606877200, 3600, 3600, "CEST")
          } else {
           Table::row(622602000, 3600, 0, "CET")
          }
         } else {
          if i < 24 {
           Table::row(638326800, 3600, 3600, "CEST")
          } else {
           Table::row(654656400, 3600, 0, "CET")
          }
         }
        } else {
         if i < 27 {
          if i < 26 {
           Table::row(670381200, 3600, 3600, "CEST")
          } else {
           Table::row(686106000, 3600, 0, "CET")
          }
         } else {
          if i < 28 {
           Table::row(701830800, 3600, 3600, "CEST")
          } else {
           Table::row(717555600, 3600, 0, "CET")
          }
         }
        }
       }
      }
     } else {
      if i < 44 {
       if i < 36 {
        if i < 32 {
         if i < 30 {
          Table::row(733280400, 3600, 3600, "CEST")
         } else {
          if i < 31 {
           Table::row(749005200, 3600, 0, "CET")
          } else {
           Table::row(764730000, 3600, 3600, "CEST")
          }
         }
        } else {
         if i < 34 {
          if i < 33 {
           Table::row(780454800, 3600, 0, "CET")
          } else {
           Table::row(796179600, 3600, 3600, "CEST")
          }
         } else {
          if i < 35 {
           Table::row(811904400, 3600, 0, "CET")
          } else {
           Table::row(828234000, 3600, 3600, "CEST")
          }
         }
        }
       } else {
        if i < 40 {
         if i < 38 {
          if i < 37 {
           Table::row(846378000, 3600, 0, "CET")
          } else {
           Table::row(859683600, 3600, 3600, "CEST")
          }
         } else {
          if i < 39 {
           Table::row(877827600, 3600, 0, "CET")
          } else {
           Table::row(891133200, 3600, 3600, "CEST")
          }
         }
        } else {
         if i < 42 {
          if i < 41 {
           Table::row(909277200, 3600, 0, "CET")
          } else {
           Table::row(922582800, 3600, 3600, "CEST")
          }
         } else {
          if i < 43 {
           Table::row(941331600, 3600, 0, "CET")
          } else {
           Table::row(954032400, 3600, 3600, "CEST")
          }
         }
        }
       }
      } else {
       if i < 51 {
        if i < 47 {
         if i < 45 {
          Table::row(972781200, 3600, 0, "CET")
         } else {
          if i < 46 {
           Table::row(985482000, 3600, 3600, "CEST")
          } else {
           Table::row(1004230800, 3600, 0, "CET")
          }
         }
        } else {
         if i < 49 {
          if i < 48 {
           Table::row(1017536400, 3600, 3600, "CEST")
          } else {
           Table::row(1035680400, 3600, 0, "CET")
          }
         } else {
          if i < 50 {
           Table::row(1048986000, 3600, 3600, "CEST")
          } else {
           Table::row(1067130000, 3600, 0, "CET")
          }
         }
        }
       } else {
        if i < 55 {
         if i < 53 {
          if i < 52 {
           Table::row(1080435600, 3600, 3600, "CEST")
          } else {
           Table::row(1099184400, 3600, 0, "CET")
          }
         } else {
          if i < 54 {
           Table::row(1111885200, 3600, 3600, "CEST")
          } else {
           Table::row(1130634000, 3600, 0, "CET")
          }
         }
        } else {
         if i < 57 {
          if i < 56 {
           Table::row(1143334800, 3600, 3600, "CEST")
          } else {
           Table::row(1162083600, 3600, 0, "CET")
          }
         } else {
          if i < 58 {
           Table::row(1174784400, 3600, 3600, "CEST")
          } else {
           Table::row(1193533200, 3600, 0, "CET")
          }
         }
        }
       }
      }
     }
    } else {
     if i < 89 {
      if i < 74 {
       if i < 66 {
        if i < 62 {
         if i < 60 {
          Table::row(1206838800, 3600, 3600, "CEST")
         } else {
          if i < 61 {
           Table::row(1224982800, 3600, 0, "CET")
          } else {
           Table::row(1238288400, 3600, 3600, "CEST")
          }
         }
        } else {
         if i < 64 {
          if i < 63 {
           Table::row(1256432400, 3600, 0, "CET")
          } else {
           Table::row(1269738000, 3600, 3600, "CEST")
          }
         } else {
          if i < 65 {
           Table::row(1288486800, 3600, 0, "CET")
          } else {
           Table::row(1301187600, 3600, 3600, "CEST")
          }
         }
        }
       } else {
        if i < 70 {
         if i < 68 {
          if i < 67 {
           Table::row(1319936400, 3600, 0, "CET")
          } else {
           Table::row(1332637200, 3600, 3600, "CEST")
          }
         } else {
          if i < 69 {
           Table::row(1351386000, 3600, 0, "CET")
          } else {
           Table::row(1364691600, 3600, 3600, "CEST")
          }
         }
        } else {
         if i < 72 {
          if i < 71 {
           Table::row(1382835600, 3600, 0, "CET")
          } else {
           Table::row(1396141200, 3600, 3600, "CEST")
          }
         } else {
          if i < 73 {
           Table::row(1414285200, 3600, 0, "CET")
          } else {
           Table::row(1427590800, 3600, 3600, "CEST")
          }
         }
        }
       }
      } else {
       if i < 81 {
        if i < 77 {
         if i < 75 {
          Table::row(1445734800, 3600, 0, "CET")
         } else {
          if i < 76 {
           Table::row(1459040400, 3600, 3600, "CEST")
          } else {
           Table::row(1477789200, 3600, 0, "CET")
          }
         }
        } else {
         if i < 79 {
          if i < 78 {
           Table::row(1490490000, 3600, 3600, "CEST")
          } else {
           Table::row(1509238800, 3600, 0, "CET")
          }
         } else {
          if i < 80 {
           Table::row(1521939600, 3600, 3600, "CEST")
          } else {
           Table::row(1540688400, 3600, 0, "CET")
          }
         }
        }
       } else {
        if i < 85 {
         if i < 83 {
          if i < 82 {
           Table::row(1553994000, 3600, 3600, "CEST")
          } else {
           Table::row(1572138000, 3600, 0, "CET")
          }
         } else {
          if i < 84 {
           Table::row(1585443600, 3600, 3600, "CEST")
          } else {
           Table::row(1603587600, 3600, 0, "CET")
          }
         }
        } else {
         if i < 87 {
          if i < 86 {
           Table::row(1616893200, 3600, 3600, "CEST")
          } else {
           Table::row(1635642000, 3600, 0, "CET")
          }
         } else {
          if i < 88 {
           Table::row(1648342800, 3600, 3600, "CEST")
          } else {
           Table::row(1667091600, 3600, 0, "CET")
          }
         }
        }
       }
      }
     } else {
      if i < 104 {
       if i < 96 {
        if i < 92 {
         if i < 90 {
          Table::row(1679792400, 3600, 3600, "CEST")
         } else {
          if i < 91 {
           Table::row(1698541200, 3600, 0, "CET")
          } else {
           Table::row(1711846800, 3600, 3600, "CEST")
          }
         }
        } else {
         if i < 94 {
          if i < 93 {
           Table::row(1729990800, 3600, 0, "CET")
          } else {
           Table::row(1743296400, 3600, 3600, "CEST")
          }
         } else {
          if i < 95 {
           Table::row(1761440400, 3600, 0, "CET")
          } else {
           Table::row(1774746000, 3600, 3600, "CEST")
          }
         }
        }
       } else {
        if i < 100 {
         if i < 98 {
          if i < 97 {
           Table::row(1792890000, 3600, 0, "CET")
          } else {
           Table::row(1806195600, 3600, 3600, "CEST")
          }
         } else {
          if i < 99 {
           Table::row(1824944400, 3600, 0, "CET")
          } else {
           Table::row(1837645200, 3600, 3600, "CEST")
          }
         }
        } else {
         if i < 102 {
          if i < 101 {
           Table::row(1856394000, 3600, 0, "CET")
          } else {
           Table::row(1869094800, 3600, 3600, "CEST")
          }
         } else {
          if i < 103 {
           Table::row(1887843600, 3600, 0, "CET")
          } else {
           Table::row(1901149200, 3600, 3600, "CEST")
          }
         }
        }
       }
      } else {
       if i < 111 {
        if i < 107 {
         if i < 105 {
          Table::row(1919293200, 3600, 0, "CET")
         } else {
          if i < 106 {
           Table::row(1932598800, 3600, 3600, "CEST")
          } else {
           Table::row(1950742800, 3600, 0, "CET")
          }
         }
        } else {
         if i < 109 {
          if i < 108 {
           Table::row(1964048400, 3600, 3600, "CEST")
          } else {
           Table::row(1982797200, 3600, 0, "CET")
          }
         } else {
          if i < 110 {
           Table::row(1995498000, 3600, 3600, "CEST")
          } else {
           Table::row(2014246800, 3600, 0, "CET")
          }
         }
        }
       } else {
        if i < 115 {
         if i < 113 {
          if i < 112 {
           Table::row(2026947600, 3600, 3600, "CEST")
          } else {
           Table::row(2045696400, 3600, 0, "CET")
          }
         } else {
          if i < 114 {
           Table::row(2058397200, 3600, 3600, "CEST")
          } else {
           Table::row(2077146000, 3600, 0, "CET")
          }
         }
        } else {
         if i < 117 {
          if i < 116 {
           Table::row(2090451600, 3600, 3600, "CEST")
          } else {
           Table::row(2108595600, 3600, 0, "CET")
          }
         } else {
          if i < 118 {
           Table::row(2121901200, 3600, 3600, "CEST")
          } else {
           Table::row(2140045200, 3600, 0, "CET")
          }
         }
        }
       }
      }
     }
    }
}

/// The rows of the table of the zone `Europe/Sarajevo`.
pub open spec fn sarajevo_rows() -> spec_fn(int) -> (i64, FixedTimespan) {
    |i: int| sarajevo_row(i)
}

/// The table of the zone `Europe/Sarajevo`.
pub open spec fn sarajevo() -> Table {
    Table::listed(Table::row(0, 4420, 0, "LMT").1, 119, sarajevo_rows())
}

/// Row `i` of the table of the zone `Europe/Saratov`.
pub open spec fn saratov_row(i: int) -> (i64, FixedTimespan) {
    if i < 32 {
     if i < 16 {
      if i < 8 {
       if i < 4 {
        if i < 2 {
         if i < 1 {
          Table::row(-1593820800, 10800, 0, "+03")
         } else {
          Table::row(-1247540400, 14400, 0, "+04")
         }
        } else {
         if i < 3 {
          Table::row(354916800, 14400, 3600, "+05")
         } else {
          Table::row(370724400, 14400, 0, "+04")
         }
        }
       } else {
        if i < 6 {
         if i < 5 {
          Table::row(386452800, 14400, 3600, "+05")
         } else {
          Table::row(402260400, 14400, 0, "+04")
         }
        } else {
         if i < 7 {
          Table::row(417988800, 14400, 3600, "+05")
         } else {
          Table::row(433796400, 14400, 0, "+04")
         }
        }
       }
      } else {
       if i < 12 {
        if i < 10 {
         if i < 9 {
          Table::row(449611200, 14400, 3600, "+05")
         } else {
          Table::row(465343200, 14400, 0, "+04")
         }
        } else {
         if i < 11 {
          Table::row(481068000, 14400, 3600, "+05")
         } else {
          Table::row(496792800, 14400, 0, "+04")
         }
        }
       } else {
        if i < 14 {
         if i < 13 {
          Table::row(512517600, 14400, 3600, "+05")
         } else {
          Table::row(528242400, 14400, 0, "+04")
         }
        } else {
         if i < 15 {
          Table::row(543967200, 14400, 3600, "+05")
         } else {
          Table::row(559692000, 14400, 0, "+04")
         }
        }
       }
      }
     } else {
      if i < 24 {
       if i < 20 {
        if i < 18 {
         if i < 17 {
          Table::row(575416800, 10800, 3600, "+04")
         } else {
          Table::row(591145200, 10800, 0, "+03")
         }
        } else {
         if i < 19 {
          Table::row(606870000, 10800, 3600, "+04")
         } else {
          Table::row(622594800, 10800, 0, "+03")
         }
        }
       } else {
        if i < 22 {
         if i < 21 {
          Table::row(638319600, 10800, 3600, "+04")
         } else {
          Table::row(654649200, 10800, 0, "+03")
         }
        } else {
         if i < 23 {
          Table::row(670374000, 14400, 0, "+04")
         } else {
          Table::row(701820000, 10800, 3600, "+04")
         }
        }
       }
      } else {
       if i < 28 {
        if i < 26 {
         if i < 25 {
          Table::row(717548400, 10800, 0, "+03")
         } else {
          Table::row(733273200, 10800, 3600, "+04")
         }
        } else {
         if i < 27 {
          Table::row(748998000, 10800, 0, "+03")
         } else {
          Table::row(764722800, 10800, 3600, "+04")
         }
        }
       } else {
        if i < 30 {
         if i < 29 {
          Table::row(780447600, 10800, 0, "+03")
         } else {
          Table::row(796172400, 10800, 3600, "+04")
         }
        } else {
         if i < 31 {
          Table::row(811897200, 10800, 0, "+03")
         } else {
          Table::row(828226800, 10800, 3600, "+04")
         }
        }
       }
      }
     }
    } else {
     if i < 48 {
      if i < 40 {
       if i < 36 {
        if i < 34 {
         if i < 33 {
          Table::row(846370800, 10800, 0, "+03")
         } else {
          Table::row(859676400, 10800, 3600, "+04")
         }
        } else {
         if i < 35 {
          Table::row(877820400, 10800, 0, "+03")
         } else {
          Table::row(891126000, 10800, 3600, "+04")
         }
        }
       } else {
        if i < 38 {
         if i < 37 {
          Table::row(909270000, 10800, 0, "+03")
         } else {
          Table::row(922575600, 10800, 3600, "+04")
         }
        } else {
         if i < 39 {
          Table::row(941324400, 10800, 0, "+03")
         } else {
          Table::row(954025200, 10800, 3600, "+04")
         }
        }
       }
      } else {
       if i < 44 {
        if i < 42 {
         if i < 41 {
          Table::row(972774000, 10800, 0, "+03")
         } else {
          Table::row(985474800, 10800, 3600, "+04")
         }
        } else {
         if i < 43 {
          Table::row(1004223600, 10800, 0, "+03")
         } else {
          Table::row(1017529200, 10800, 3600, "+04")
         }
        }
       } else {
        if i < 46 {
         if i < 45 {
          Table::row(1035673200, 10800, 0, "+03")
         } else {
          Table::row(1048978800, 10800, 3600, "+04")
         }
        } else {
         if i < 47 {
          Table::row(1067122800, 10800, 0, "+03")
         } else {
          Table::row(1080428400, 10800, 3600, "+04")
         }
        }
       }
      }
     } else {
      if i < 56 {
       if i < 52 {
        if i < 50 {
         if i < 49 {
          Table::row(1099177200, 10800, 0, "+03")
         } else {
          Table::row(1111878000, 10800, 3600, "+04")
         }
        } else {
         if i < 51 {
          Table::row(1130626800, 10800, 0, "+03")
         } else {
          Table::row(1143327600, 10800, 3600, "+04")
         }
        }
       } else {
        if i < 54 {
         if i < 53 {
          Table::row(1162076400, 10800, 0, "+03")
         } else {
          Table::row(1174777200, 10800, 3600, "+04")
         }
        } else {
         if i < 55 {
          Table::row(1193526000, 10800, 0, "+03")
         } else {
          Table::row(1206831600, 10800, 3600, "+04")
         }
        }
       }
      } else {
       if i < 60 {
        if i < 58 {
         if i < 57 {
          Table::row(1224975600, 10800, 0, "+03")
         } else {
          Table::row(1238281200, 10800, 3600, "+04")
         }
        } else {
         if i < 59 {
          Table::row(1256425200, 10800, 0, "+03")
         } else {
          Table::row(1269730800, 10800, 3600, "+04")
         }
        }
       } else {
        if i < 62 {
         if i < 61 {
          Table::row(1288479600, 10800, 0, "+03")
         } else {
          Table::row(1301180400, 14400, 0, "+04")
         }
        } else {
         if i < 63 {
          Table::row(1414274400, 10800, 0, "+03")
         } else {
          if i < 64 {
           Table::row(1480806000, 14400, 0, "+04")
          } else {
           Table::row(2147483647, 14400, 0, "+04")
          }
         }
        }
       }
      }
     }
    }
}

/// The rows of the table of the zone `Europe/Saratov`.
pub open spec fn saratov_rows() -> spec_fn(int) -> (i64, FixedTimespan) {
    |i: int| saratov_row(i)
}

/// The table of the zone `Europe/Saratov`.
pub open spec fn saratov() -> Table {
    Table::listed(Table::row(0, 11058, 0, "LMT").1, 65, saratov_rows())
}

/// Row `i` of the table of the zone `Europe/Simferopol`.
pub open spec fn simferopol_row(i: int) -> (i64, FixedTimespan) {
    if i < 37 {
     if i < 18 {
      if i < 9 {
       if i < 4 {
        if i < 2 {
         if i < 1 {
          Table::row(-2840148984, 8160, 0, "SMT")
         } else {
          Table::row(-1441160160, 7200, 0, "EET")
         }
        } else {
         if i < 3 {
          Table::row(-1247536800, 10800, 0, "MSK")
         } else {
          Table::row(-888894000, 3600, 3600, "CEST")
         }
        }
       } else {
        if i < 6 {
         if i < 5 {
          Table::row(-857257200, 3600, 0, "CET")
         } else {
          Table::row(-844556400, 3600, 3600, "CEST")
         }
        } else {
         if i < 7 {
          Table::row(-828226800, 3600, 0, "CET")
         } else {
          if i < 8 {
           Table::row(-812502000, 3600, 3600, "CEST")
          } else {
           Table::row(-811648800, 10800, 0, "MSK")
          }
         }
        }
       }
      } else {
       if i < 13 {
        if i < 11 {
         if i < 10 {
          Table::row(354920400, 10800, 3600, "MSD")
         } else {
          Table::row(370728000, 10800, 0, "MSK")
         }
        } else {
         if i < 12 {
          Table::row(386456400, 10800, 3600, "MSD")
         } else {
          Table::row(402264000, 10800, 0, "MSK")
         }
        }
       } else {
        if i < 15 {
         if i < 14 {
          Table::row(417992400, 10800, 3600, "MSD")
         } else {
          Table::row(433800000, 10800, 0, "MSK")
         }
        } else {
         if i < 16 {
          Table::row(449614800, 10800, 3600, "MSD")
         } else {
          if i < 17 {
           Table::row(465346800, 10800, 0, "MSK")
          } else {
           Table::row(481071600, 10800, 3600, "MSD")
          }
         }
        }
       }
      }
     } else {
      if i < 27 {
       if i < 22 {
        if i < 20 {
         if i < 19 {
          Table::row(496796400, 10800, 0, "MSK")
         } else {
          Table::row(512521200, 10800, 3600, "MSD")
         }
        } else {
         if i < 21 {
          Table::row(528246000, 10800, 0, "MSK")
         } else {
          Table::row(543970800, 10800, 3600, "MSD")
         }
        }
       } else {
        if i < 24 {
         if i < 23 {
          Table::row(559695600, 10800, 0, "MSK")
         } else {
          Table::row(575420400, 10800, 3600, "MSD")
         }
        } else {
         if i < 25 {
          Table::row(591145200, 10800, 0, "MSK")
         } else {
          if i < 26 {
           Table::row(606870000, 10800, 3600, "MSD")
          } else {
           Table::row(622594800, 10800, 0, "MSK")
          }
         }
        }
       }
      } else {
       if i < 32 {
        if i < 29 {
         if i < 28 {
          Table::row(646786800, 7200, 0, "EET")
         } else {
          Table::row(701827200, 7200, 3600, "EEST")
         }
        } else {
         if i < 30 {
          Table::row(717552000, 7200, 0, "EET")
         } else {
          if i < 31 {
           Table::row(733276800, 7200, 3600, "EEST")
          } else {
           Table::row(749001600, 7200, 0, "EET")
          }
         }
        }
       } else {
        if i < 34 {
         if i < 33 {
          Table::row(764726400, 7200, 3600, "EEST")
         } else {
          Table::row(767739600, 7200, 7200, "MSD")
         }
        } else {
         if i < 35 {
          Table::row(780447600, 10800, 0, "MSK")
         } else {
          if i < 36 {
           Table::row(796172400, 10800, 3600, "MSD")
          } else {
           Table::row(811897200, 10800, 0, "MSK")
          }
         }
        }
       }
      }
     }
    } else {
     if i < 56 {
      if i < 46 {
       if i < 41 {
        if i < 39 {
         if i < 38 {
          Table::row(828219600, 10800, 3600, "MSD")
         } else {
          Table::row(846374400, 10800, 0, "MSK")
         }
        } else {
         if i < 40 {
          Table::row(859683600, 7200, 3600, "EEST")
         } else {
          Table::row(877827600, 7200, 0, "EET")
         }
        }
       } else {
        if i < 43 {
         if i < 42 {
          Table::row(891133200, 7200, 3600, "EEST")
         } else {
          Table::row(909277200, 7200, 0, "EET")
         }
        } else {
         if i < 44 {
          Table::row(922582800, 7200, 3600, "EEST")
         } else {
          if i < 45 {
           Table::row(941331600, 7200, 0, "EET")
          } else {
           Table::row(954032400, 7200, 3600, "EEST")
          }
         }
        }
       }
      } else {
       if i < 51 {
        if i < 48 {
         if i < 47 {
          Table::row(972781200, 7200, 0, "EET")
         } else {
          Table::row(985482000, 7200, 3600, "EEST")
         }
        } else {
         if i < 49 {
          Table::row(1004230800, 7200, 0, "EET")
         } else {
          if i < 50 {
           Table::row(1017536400, 7200, 3600, "EEST")
          } else {
           Table::row(1035680400, 7200, 0, "EET")
          }
         }
        }
       } else {
        if i < 53 {
         if i < 52 {
          Table::row(1048986000, 7200, 3600, "EEST")
         } else {
          Table::row(1067130000, 7200, 0, "EET")
         }
        } else {
         if i < 54 {
          Table::row(1080435600, 7200, 3600, "EEST")
         } else {
          if i < 55 {
           Table::row(1099184400, 7200, 0, "EET")
          } else {
           Table::row(1111885200, 7200, 3600, "EEST")
          }
         }
        }
       }
      }
     } else {
      if i < 65 {
       if i < 60 {
        if i < 58 {
         if i < 57 {
          Table::row(1130634000, 7200, 0, "EET")
         } else {
          Table::row(1143334800, 7200, 3600, "EEST")
         }
        } else {
         if i < 59 {
          Table::row(1162083600, 7200, 0, "EET")
         } else {
          Table::row(1174784400, 7200, 3600, "EEST")
         }
        }
       } else {
        if i < 62 {
         if i < 61 {
          Table::row(1193533200, 7200, 0, "EET")
         } else {
          Table::row(1206838800, 7200, 3600, "EEST")
         }
        } else {
         if i < 63 {
          Table::row(1224982800, 7200, 0, "EET")
         } else {
          if i < 64 {
           Table::row(1238288400, 7200, 3600, "EEST")
          } else {
           Table::row(1256432400, 7200, 0, "EET")
          }
         }
        }
       }
      } else {
       if i < 70 {
        if i < 67 {
         if i < 66 {
          Table::row(1269738000, 7200, 3600, "EEST")
         } else {
          Table::row(1288486800, 7200, 0, "EET")
         }
        } else {
         if i < 68 {
          Table::row(1301187600, 7200, 3600, "EEST")
         } else {
          if i < 69 {
           Table::row(1319936400, 7200, 0, "EET")
          } else {
           Table::row(1332637200, 7200, 3600, "EEST")
          }
         }
        }
       } else {
        if i < 72 {
         if i < 71 {
          Table::row(1351386000, 7200, 0, "EET")
         } else {
          Table::row(1364691600, 7200, 3600, "EEST")
         }
        } else {
         if i < 73 {
          Table::row(1382835600, 7200, 0, "EET")
         } else {
          if i < 74 {
           Table::row(1396137600, 14400, 0, "MSK")
          } else {
           Table::row(1414274400, 10800, 0, "MSK")
          }
         }
        }
       }
      }
     }
    }
}

/// The rows of the table of the zone `Europe/Simferopol`.
pub open spec fn simferopol_rows() -> spec_fn(int) -> (i64, FixedTimespan) {
    |i: int| simferopol_row(i)
}

/// The table of the zone `Europe/Simferopol`.
pub open spec fn simferopol() -> Table {
    Table::listed(Table::row(0, 8184, 0, "LMT").1, 75, simferopol_rows())
}

/// Row `i` of the table of the zone `Europe/Skopje`.
pub open spec fn skopje_row(i: int) -> (i64, FixedTimespan) {
    if i < 59 {
     if i < 29 {
      if i < 14 {
       if i < 7 {
        if i < 3 {
         if i < 1 {
          Table::row(-2713915544, 3600, 0, "CET")
         } else {
          if i < 2 {
           Table::row(-905824800, 3600, 3600, "CEST")
          } else {
           Table::row(-857257200, 3600, 0, "CET")
          }
         }
        } else {
         if i < 5 {
          if i < 4 {
           Table::row(-844556400, 3600, 3600, "CEST")
          } else {
           Table::row(-828226800, 3600, 0, "CET")
          }
         } else {
          if i < 6 {
           Table::row(-812502000, 3600, 3600, "CEST")
          } else {
           Table::row(-796777200, 3600, 0, "CET")
          }
         }
        }
       } else {
        if i < 10 {
         if i < 8 {
          Table::row(-781052400, 3600, 3600, "CEST")
         } else {
          if i < 9 {
           Table::row(-766623600, 3600, 0, "CET")
          } else {
           Table::row(417574800, 3600, 3600, "CEST")
          }
         }
        } else {
         if i < 12 {
          if i < 11 {
           Table::row(433299600, 3600, 0, "CET")
          } else {
           Table::row(449024400, 3600, 3600, "CEST")
          }
         } else {
          if i < 13 {
           Table::row(465354000, 3600, 0, "CET")
          } else {
           Table::row(481078800, 3600, 3600, "CEST")
          }
         }
        }
       }
      } else {
       if i < 21 {
        if i < 17 {
         if i < 15 {
          Table::row(496803600, 3600, 0, "CET")
         } else {
          if i < 16 {
           Table::row(512528400, 3600, 3600, "CEST")
          } else {
           Table::row(528253200, 3600, 0, "CET")
          }
         }
        } else {
         if i < 19 {
          if i < 18 {
           Table::row(543978000, 3600, 3600, "CEST")
          } else {
           Table::row(559702800, 3600, 0, "CET")
          }
         } else {
          if i < 20 {
           Table::row(575427600, 3600, 3600, "CEST")
          } else {
           Table::row(591152400, 3600, 0, "CET")
          }
         }
        }
       } else {
        if i < 25 {
         if i < 23 {
          if i < 22 {
           Table::row(606877200, 3600, 3600, "CEST")
          } else {
           Table::row(622602000, 3600, 0, "CET")
          }
         } else {
          if i < 24 {
           Table::row(638326800, 3600, 3600, "CEST")
          } else {
           Table::row(654656400, 3600, 0, "CET")
          }
         }
        } else {
         if i < 27 {
          if i < 26 {
           Table::row(670381200, 3600, 3600, "CEST")
          } else {
           Table::row(686106000, 3600, 0, "CET")
          }
         } else {
          if i < 28 {
           Table::row(701830800, 3600, 3600, "CEST")
          } else {
           Table::row(717555600, 3600, 0, "CET")
          }
         }
        }
       }
      }
     } else {
      if i < 44 {
       if i < 36 {
        if i < 32 {
         if i < 30 {
          Table::row(733280400, 3600, 3600, "CEST")
         } else {
          if i < 31 {
           Table::row(749005200, 3600, 0, "CET")
          } else {
           Table::row(764730000, 3600, 3600, "CEST")
          }
         }
        } else {
         if i < 34 {
          if i < 33 {
           Table::row(780454800, 3600, 0, "CET")
          } else {
           Table::row(796179600, 3600, 3600, "CEST")
          }
         } else {
          if i < 35 {
           Table::row(811904400, 3600, 0, "CET")
          } else {
           Table::row(828234000, 3600, 3600, "CEST")
          }
         }
        }
       } else {
        if i < 40 {
         if i < 38 {
          if i < 37 {
           Table::row(846378000, 3600, 0, "CET")
          } else {
           Table::row(859683600, 3600, 3600, "CEST")
          }
         } else {
          if i < 39 {
           Table::row(877827600, 3600, 0, "CET")
          } else {
           Table::row(891133200, 3600, 3600, "CEST")
          }
         }
        } else {
         if i < 42 {
          if i < 41 {
           Table::row(909277200, 3600, 0, "CET")
          } else {
           Table::row(922582800, 3600, 3600, "CEST")
          }
         } else {
          if i < 43 {
           Table::row(941331600, 3600, 0, "CET")
          } else {
           Table::row(954032400, 3600, 3600, "CEST")
          }
         }
        }
       }
      } else {
       if i < 51 {
        if i < 47 {
         if i < 45 {
          Table::row(972781200, 3600, 0, "CET")
         } else {
          if i < 46 {
           Table::row(985482000, 3600, 3600, "CEST")
          } else {
           Table::row(1004230800, 3600, 0, "CET")
          }
         }
        } else {
         if i < 49 {
          if i < 48 {
           Table::row(1017536400, 3600, 3600, "CEST")
          } else {
           Table::row(1035680400, 3600, 0, "CET")
          }
         } else {
          if i < 50 {
           Table::row(1048986000, 3600, 3600, "CEST")
          } else {
           Table::row(1067130000, 3600, 0, "CET")
          }
         }
        }
       } else {
        if i < 55 {
         if i < 53 {
          if i < 52 {
           Table::row(1080435600, 3600, 3600, "CEST")
          } else {
           Table::row(1099184400, 3600, 0, "CET")
          }
         } else {
          if i < 54 {
           Table::row(1111885200, 3600, 3600, "CEST")
          } else {
           Table::row(1130634000, 3600, 0, "CET")
          }
         }
        } else {
         if i < 57 {
          if i < 56 {
           Table::row(1143334800, 3600, 3600, "CEST")
          } else {
           Table::row(1162083600, 3600, 0, "CET")
          }
         } else {
          if i < 58 {
           Table::row(1174784400, 3600, 3600, "CEST")
          } else {
           Table::row(1193533200, 3600, 0, "CET")
          }
         }
        }
       }
      }
     }
    } else {
     if i < 89 {
      if i < 74 {
       if i < 66 {
        if i < 62 {
         if i < 60 {
          Table::row(1206838800, 3600, 3600, "CEST")
         } else {
          if i < 61 {
           Table::row(1224982800, 3600, 0, "CET")
          } else {
           Table::row(1238288400, 3600, 3600, "CEST")
          }
         }
        } else {
         if i < 64 {
          if i < 63 {
           Table::row(1256432400, 3600, 0, "CET")
          } else {
           Table::row(1269738000, 3600, 3600, "CEST")
          }
         } else {
          if i < 65 {
           Table::row(1288486800, 3600, 0, "CET")
          } else {
           Table::row(1301187600, 3600, 3600, "CEST")
          }
         }
        }
       } else {
        if i < 70 {
         if i < 68 {
          if i < 67 {
           Table::row(1319936400, 3600, 0, "CET")
          } else {
           Table::row(1332637200, 3600, 3600, "CEST")
          }
         } else {
          if i < 69 {
           Table::row(1351386000, 3600, 0, "CET")
          } else {
           Table::row(1364691600, 3600, 3600, "CEST")
          }
         }
        } else {
         if i < 72 {
          if i < 71 {
           Table::row(1382835600, 3600, 0, "CET")
          } else {
           Table::row(1396141200, 3600, 3600, "CEST")
          }
         } else {
          if i < 73 {
           Table::row(1414285200, 3600, 0, "CET")
          } else {
           Table::row(1427590800, 3600, 3600, "CEST")
          }
         }
        }
       }
      } else {
       if i < 81 {
        if i < 77 {
         if i < 75 {
          Table::row(1445734800, 3600, 0, "CET")
         } else {
          if i < 76 {
           Table::row(1459040400, 3600, 3600, "CEST")
          } else {
           Table::row(1477789200, 3600, 0, "CET")
          }
         }
        } else {
         if i < 79 {
          if i < 78 {
           Table::row(1490490000, 3600, 3600, "CEST")
          } else {
           Table::row(1509238800, 3600, 0, "CET")
          }
         } else {
          if i < 80 {
           Table::row(1521939600, 3600, 3600, "CEST")
          } else {
           Table::row(1540688400, 3600, 0, "CET")
          }
         }
        }
       } else {
        if i < 85 {
         if i < 83 {
          if i < 82 {
           Table::row(1553994000, 3600, 3600, "CEST")
          } else {
           Table::row(1572138000, 3600, 0, "CET")
          }
         } else {
          if i < 84 {
           Table::row(1585443600, 3600, 3600, "CEST")
          } else {
           Table::row(1603587600, 3600, 0, "CET")
          }
         }
        } else {
         if i < 87 {
          if i < 86 {
           Table::row(1616893200, 3600, 3600, "CEST")
          } else {
           Table::row(1635642000, 3600, 0, "CET")
          }
         } else {
          if i < 88 {
           Table::row(1648342800, 3600, 3600, "CEST")
          } else {
           Table::row(1667091600, 3600, 0, "CET")
          }
         }
        }
       }
      }
     } else {
      if i < 104 {
       if i < 96 {
        if i < 92 {
         if i < 90 {
          Table::row(1679792400, 3600, 3600, "CEST")
         } else {
          if i < 91 {
           Table::row(1698541200, 3600, 0, "CET")
          } else {
           Table::row(1711846800, 3600, 3600, "CEST")
          }
         }
        } else {
         if i < 94 {
          if i < 93 {
           Table::row(1729990800, 3600, 0, "CET")
          } else {
           Table::row(1743296400, 3600, 3600, "CEST")
          }
         } else {
          if i < 95 {
           Table::row(1761440400, 3600, 0, "CET")
          } else {
           Table::row(1774746000, 3600, 3600, "CEST")
          }
         }
        }
       } else {
        if i < 100 {
         if i < 98 {
          if i < 97 {
           Table::row(1792890000, 3600, 0, "CET")
          } else {
           Table::row(1806195600, 3600, 3600, "CEST")
          }
         } else {
          if i < 99 {
           Table::row(1824944400, 3600, 0, "CET")
          } else {
           Table::row(1837645200, 3600, 3600, "CEST")
          }
         }
        } else {
         if i < 102 {
          if i < 101 {
           Table::row(1856394000, 3600, 0, "CET")
          } else {
           Table::row(1869094800, 3600, 3600, "CEST")
          }
         } else {
          if i < 103 {
           Table::row(1887843600, 3600, 0, "CET")
          } else {
           Table::row(1901149200, 3600, 3600, "CEST")
          }
         }
        }
       }
      } else {
       if i < 111 {
        if i < 107 {
         if i < 105 {
          Table::row(1919293200, 3600, 0, "CET")
         } else {
          if i < 106 {
           Table::row(1932598800, 3600, 3600, "CEST")
          } else {
           Table::row(1950742800, 3600, 0, "CET")
          }
         }
        } else {
         if i < 109 {
          if i < 108 {
           Table::row(1964048400, 3600, 3600, "CEST")
          } else {
           Table::row(1982797200, 3600, 0, "CET")
          }
         } else {
          if i < 110 {
           Table::row(1995498000, 3600, 3600, "CEST")
          } else {
           Table::row(2014246800, 3600, 0, "CET")
          }
         }
        }
       } else {
        if i < 115 {
         if i < 113 {
          if i < 112 {
           Table::row(2026947600, 3600, 3600, "CEST")
          } else {
           Table::row(2045696400, 3600, 0, "CET")
          }
         } else {
          if i < 114 {
           Table::row(2058397200, 3600, 3600, "CEST")
          } else {
           Table::row(2077146000, 3600, 0, "CET")
          }
         }
        } else {
         if i < 117 {
          if i < 116 {
           Table::row(2090451600, 3600, 3600, "CEST")
          } else {
           Table::row(2108595600, 3600, 0, "CET")
          }
         } else {
          if i < 118 {
           Table::row(2121901200, 3600, 3600, "CEST")
          } else {
           Table::row(2140045200, 3600, 0, "CET")
          }
         }
        }
       }
      }
     }
    }
}

/// The rows of the table of the zone `Europe/Skopje`.
pub open spec fn skopje_rows() -> spec_fn(int) -> (i64, FixedTimespan) {
    |i: int| skopje_row(i)
}

/// The table of the zone `Europe/Skopje`.
pub open spec fn skopje() -> Table {
    Table::listed(Table::row(0, 5144, 0, "LMT").1, 119, skopje_rows())
}

/// Row `i` of the table of the zone `Europe/Sofia`.
pub open spec fn sofia_row(i: int) -> (i64, FixedTimespan) {
    if i < 63 {
     if i < 31 {
      if i < 15 {
       if i < 7 {
        if i < 3 {
         if i < 1 {
          Table::row(-2840146396, 7016, 0, "IMT")
         } else {
          if i < 2 {
           Table::row(-2369527016, 7200, 0, "EET")
          } else {
           Table::row(-857257200, 3600, 0, "CET")
          }
         }
        } else {
         if i < 5 {
          if i < 4 {
           Table::row(-844556400, 3600, 3600, "CEST")
          } else {
           Table::row(-828226800, 3600, 0, "CET")
          }
         } else {
          if i < 6 {
           Table::row(-812502000, 3600, 3600, "CEST")
          } else {
           Table::row(-796777200, 3600, 0, "CET")
          }
         }
        }
       } else {
        if i < 11 {
         if i < 9 {
          if i < 8 {
           Table::row(-781048800, 7200, 0, "EET")
          } else {
           Table::row(291762000, 7200, 3600, "EEST")
          }
         } else {
          if i < 10 {
           Table::row(307576800, 7200, 0, "EET")
          } else {
           Table::row(323816400, 7200, 3600, "EEST")
          }
         }
        } else {
         if i < 13 {
          if i < 12 {
           Table::row(339026400, 7200, 0, "EET")
          } else {
           Table::row(355266000, 7200, 3600, "EEST")
          }
         } else {
          if i < 14 {
           Table::row(370393200, 7200, 0, "EET")
          } else {
           Table::row(386715600, 7200, 3600, "EEST")
          }
         }
        }
       }
      } else {
       if i < 23 {
        if i < 19 {
         if i < 17 {
          if i < 16 {
           Table::row(401846400, 7200, 0, "EET")
          } else {
           Table::row(417571200, 7200, 3600, "EEST")
          }
         } else {
          if i < 18 {
           Table::row(433296000, 7200, 0, "EET")
          } else {
           Table::row(449020800, 7200, 3600, "EEST")
          }
         }
        } else {
         if i < 21 {
          if i < 20 {
           Table::row(465350400, 7200, 0, "EET")
          } else {
           Table::row(481075200, 7200, 3600, "EEST")
          }
         } else {
          if i < 22 {
           Table::row(496800000, 7200, 0, "EET")
          } else {
           Table::row(512524800, 7200, 3600, "EEST")
          }
         }
        }
       } else {
        if i < 27 {
         if i < 25 {
          if i < 24 {
           Table::row(528249600, 7200, 0, "EET")
          } else {
           Table::row(543974400, 7200, 3600, "EEST")
          }
         } else {
          if i < 26 {
           Table::row(559699200, 7200, 0, "EET")
          } else {
           Table::row(575424000, 7200, 3600, "EEST")
          }
         }
        } else {
         if i < 29 {
          if i < 28 {
           Table::row(591148800, 7200, 0, "EET")
          } else {
           Table::row(606873600, 7200, 3600, "EEST")
          }
         } else {
          if i < 30 {
           Table::row(622598400, 7200, 0, "EET")
          } else {
           Table::row(638323200, 7200, 3600, "EEST")
          }
         }
        }
       }
      }
     } else {
      if i < 47 {
       if i < 39 {
        if i < 35 {
         if i < 33 {
          if i < 32 {
           Table::row(654652800, 7200, 0, "EET")
          } else {
           Table::row(670370400, 7200, 3600, "EEST")
          }
         } else {
          if i < 34 {
           Table::row(686091600, 7200, 0, "EET")
          } else {
           Table::row(701820000, 7200, 3600, "EEST")
          }
         }
        } else {
         if i < 37 {
          if i < 36 {
           Table::row(717541200, 7200, 0, "EET")
          } else {
           Table::row(733269600, 7200, 3600, "EEST")
          }
         } else {
          if i < 38 {
           Table::row(748990800, 7200, 0, "EET")
          } else {
           Table::row(764719200, 7200, 3600, "EEST")
          }
         }
        }
       } else {
        if i < 43 {
         if i < 41 {
          if i < 40 {
           Table::row(780440400, 7200, 0, "EET")
          } else {
           Table::row(796168800, 7200, 3600, "EEST")
          }
         } else {
          if i < 42 {
           Table::row(811890000, 7200, 0, "EET")
          } else {
           Table::row(828223200, 7200, 3600, "EEST")
          }
         }
        } else {
         if i < 45 {
          if i < 44 {
           Table::row(846363600, 7200, 0, "EET")
          } else {
           Table::row(859683600, 7200, 3600, "EEST")
          }
         } else {
          if i < 46 {
           Table::row(877827600, 7200, 0, "EET")
          } else {
           Table::row(891133200, 7200, 3600, "EEST")
          }
         }
        }
       }
      } else {
       if i < 55 {
        if i < 51 {
         if i < 49 {
          if i < 48 {
           Table::row(909277200, 7200, 0, "EET")
          } else {
           Table::row(922582800, 7200, 3600, "EEST")
          }
         } else {
          if i < 50 {
           Table::row(941331600, 7200, 0, "EET")
          } else {
           Table::row(954032400, 7200, 3600, "EEST")
          }
         }
        } else {
         if i < 53 {
          if i < 52 {
           Table::row(972781200, 7200, 0, "EET")
          } else {
           Table::row(985482000, 7200, 3600, "EEST")
          }
         } else {
          if i < 54 {
           Table::row(1004230800, 7200, 0, "EET")
          } else {
           Table::row(1017536400, 7200, 3600, "EEST")
          }
         }
        }
       } else {
        if i < 59 {
         if i < 57 {
          if i < 56 {
           Table::row(1035680400, 7200, 0, "EET")
          } else {
           Table::row(1048986000, 7200, 3600, "EEST")
          }
         } else {
          if i < 58 {
           Table::row(1067130000, 7200, 0, "EET")
          } else {
           Table::row(1080435600, 7200, 3600, "EEST")
          }
         }
        } else {
         if i < 61 {
          if i < 60 {
           Table::row(1099184400, 7200, 0, "EET")
          } else {
           Table::row(1111885200, 7200, 3600, "EEST")
          }
         } else {
          if i < 62 {
           Table::row(1130634000, 7200, 0, "EET")
          } else {
           Table::row(1143334800, 7200, 3600, "EEST")
          }
         }
        }
       }
      }
     }
    } else {
     if i < 94 {
      if i < 78 {
       if i < 70 {
        if i < 66 {
         if i < 64 {
          Table::row(1162083600, 7200, 0, "EET")
         } else {
          if i < 65 {
           Table::row(1174784400, 7200, 3600, "EEST")
          } else {
           Table::row(1193533200, 7200, 0, "EET")
          }
         }
        } else {
         if i < 68 {
          if i < 67 {
           Table::row(1206838800, 7200, 3600, "EEST")
          } else {
           Table::row(1224982800, 7200, 0, "EET")
          }
         } else {
          if i < 69 {
           Table::row(1238288400, 7200, 3600, "EEST")
          } else {
           Table::row(1256432400, 7200, 0, "EET")
          }
         }
        }
       } else {
        if i < 74 {
         if i < 72 {
          if i < 71 {
           Table::row(1269738000, 7200, 3600, "EEST")
          } else {
           Table::row(1288486800, 7200, 0, "EET")
          }
         } else {
          if i < 73 {
           Table::row(1301187600, 7200, 3600, "EEST")
          } else {
           Table::row(1319936400, 7200, 0, "EET")
          }
         }
        } else {
         if i < 76 {
          if i < 75 {
           Table::row(1332637200, 7200, 3600, "EEST")
          } else {
           Table::row(1351386000, 7200, 0, "EET")
          }
         } else {
          if i < 77 {
           Table::row(1364691600, 7200, 3600, "EEST")
          } else {
           Table::row(1382835600, 7200, 0, "EET")
          }
         }
        }
       }
      } else {
       if i < 86 {
        if i < 82 {
         if i < 80 {
          if i < 79 {
           Table::row(1396141200, 7200, 3600, "EEST")
          } else {
           Table::row(1414285200, 7200, 0, "EET")
          }
         } else {
          if i < 81 {
           Table::row(1427590800, 7200, 3600, "EEST")
          } else {
           Table::row(1445734800, 7200, 0, "EET")
          }
         }
        } else {
         if i < 84 {
          if i < 83 {
           Table::row(1459040400, 7200, 3600, "EEST")
          } else {
           Table::row(1477789200, 7200, 0, "EET")
          }
         } else {
          if i < 85 {
           Table::row(1490490000, 7200, 3600, "EEST")
          } else {
           Table::row(1509238800, 7200, 0, "EET")
          }
         }
        }
       } else {
        if i < 90 {
         if i < 88 {
          if i < 87 {
           Table::row(1521939600, 7200, 3600, "EEST")
          } else {
           Table::row(1540688400, 7200, 0, "EET")
          }
         } else {
          if i < 89 {
           Table::row(1553994000, 7200, 3600, "EEST")
          } else {
           Table::row(1572138000, 7200, 0, "EET")
          }
         }
        } else {
         if i < 92 {
          if i < 91 {
           Table::row(1585443600, 7200, 3600, "EEST")
          } else {
           Table::row(1603587600, 7200, 0, "EET")
          }
         } else {
          if i < 93 {
           Table::row(1616893200, 7200, 3600, "EEST")
          } else {
           Table::row(1635642000, 7200, 0, "EET")
          }
         }
        }
       }
      }
     } else {
      if i < 110 {
       if i < 102 {
        if i < 98 {
         if i < 96 {
          if i < 95 {
           Table::row(1648342800, 7200, 3600, "EEST")
          } else {
           Table::row(1667091600, 7200, 0, "EET")
          }
         } else {
          if i < 97 {
           Table::row(1679792400, 7200, 3600, "EEST")
          } else {
           Table::row(1698541200, 7200, 0, "EET")
          }
         }
        } else {
         if i < 100 {
          if i < 99 {
           Table::row(1711846800, 7200, 3600, "EEST")
          } else {
           Table::row(1729990800, 7200, 0, "EET")
          }
         } else {
          if i < 101 {
           Table::row(1743296400, 7200, 3600, "EEST")
          } else {
           Table::row(1761440400, 7200, 0, "EET")
          }
         }
        }
       } else {
        if i < 106 {
         if i < 104 {
          if i < 103 {
           Table::row(1774746000, 7200, 3600, "EEST")
          } else {
           Table::row(1792890000, 7200, 0, "EET")
          }
         } else {
          if i < 105 {
           Table::row(1806195600, 7200, 3600, "EEST")
          } else {
           Table::row(1824944400, 7200, 0, "EET")
          }
         }
        } else {
         if i < 108 {
          if i < 107 {
           Table::row(1837645200, 7200, 3600, "EEST")
          } else {
           Table::row(1856394000, 7200, 0, "EET")
          }
         } else {
          if i < 109 {
           Table::row(1869094800, 7200, 3600, "EEST")
          } else {
           Table::row(1887843600, 7200, 0, "EET")
          }
         }
        }
       }
      } else {
       if i < 118 {
        if i < 114 {
         if i < 112 {
          if i < 111 {
           Table::row(1901149200, 7200, 3600, "EEST")
          } else {
           Table::row(1919293200, 7200, 0, "EET")
          }
         } else {
          if i < 113 {
           Table::row(1932598800, 7200, 3600, "EEST")
          } else {
           Table::row(1950742800, 7200, 0, "EET")
          }
         }
        } else {
         if i < 116 {
          if i < 115 {
           Table::row(1964048400, 7200, 3600, "EEST")
          } else {
           Table::row(1982797200, 7200, 0, "EET")
          }
         } else {
          if i < 117 {
           Table::row(1995498000, 7200, 3600, "EEST")
          } else {
           Table::row(2014246800, 7200, 0, "EET")
          }
         }
        }
       } else {
        if i < 122 {
         if i < 120 {
          if i < 119 {
           Table::row(2026947600, 7200, 3600, "EEST")
          } else {
           Table::row(2045696400, 7200, 0, "EET")
          }
         } else {
          if i < 121 {
           Table::row(2058397200, 7200, 3600, "EEST")
          } else {
           Table::row(2077146000, 7200, 0, "EET")
          }
         }
        } else {
         if i < 124 {
          if i < 123 {
           Table::row(2090451600, 7200, 3600, "EEST")
          } else {
           Table::row(2108595600, 7200, 0, "EET")
          }
         } else {
          if i < 125 {
           Table::row(2121901200, 7200, 3600, "EEST")
          } else {
           Table::row(2140045200, 7200, 0, "EET")
          }
         }
        }
       }
      }
     }
    }
}

/// The rows of the table of the zone `Europe/Sofia`.
pub open spec fn sofia_rows() -> spec_fn(int) -> (i64, FixedTimespan) {
    |i: int| sofia_row(i)
}

/// The table of the zone `Europe/Sofia`.
pub open spec fn sofia() -> Table {
    Table::listed(Table::row(0, 5596, 0, "LMT").1, 126, sofia_rows())
}

/// Row `i` of the table of the zone `Europe/Stockholm`.
pub open spec fn stockholm_row(i: int) -> (i64, FixedTimespan) {
    if i < 60 {
     if i < 30 {
      if i < 15 {
       if i < 7 {
        if i < 3 {
         if i < 1 {
          Table::row(-2871681132, 3614, 0, "SET")
         } else {
          if i < 2 {
           Table::row(-2208992414, 3600, 0, "CET")
          } else {
           Table::row(-1692496800, 3600, 3600, "CEST")
          }
         }
        } else {
         if i < 5 {
          if i < 4 {
           Table::row(-1680483600, 3600, 0, "CET")
          } else {
           Table::row(323830800, 3600, 3600, "CEST")
          }
         } else {
          if i < 6 {
           Table::row(338950800, 3600, 0, "CET")
          } else {
           Table::row(354675600, 3600, 3600, "CEST")
          }
         }
        }
       } else {
        if i < 11 {
         if i < 9 {
          if i < 8 {
           Table::row(370400400, 3600, 0, "CET")
          } else {
           Table::row(386125200, 3600, 3600, "CEST")
          }
         } else {
          if i < 10 {
           Table::row(401850000, 3600, 0, "CET")
          } else {
           Table::row(417574800, 3600, 3600, "CEST")
          }
         }
        } else {
         if i < 13 {
          if i < 12 {
           Table::row(433299600, 3600, 0, "CET")
          } else {
           Table::row(449024400, 3600, 3600, "CEST")
          }
         } else {
          if i < 14 {
           Table::row(465354000, 3600, 0, "CET")
          } else {
           Table::row(481078800, 3600, 3600, "CEST")
          }
         }
        }
       }
      } else {
       if i < 22 {
        if i < 18 {
         if i < 16 {
          Table::row(496803600, 3600, 0, "CET")
         } else {
          if i < 17 {
           Table::row(512528400, 3600, 3600, "CEST")
          } else {
           Table::row(528253200, 3600, 0, "CET")
          }
         }
        } else {
         if i < 20 {
          if i < 19 {
           Table::row(543978000, 3600, 3600, "CEST")
          } else {
           Table::row(559702800, 3600, 0, "CET")
          }
         } else {
          if i < 21 {
           Table::row(575427600, 3600, 3600, "CEST")
          } else {
           Table::row(591152400, 3600, 0, "CET")
          }
         }
        }
       } else {
        if i < 26 {
         if i < 24 {
          if i < 23 {
           Table::row(606877200, 3600, 3600, "CEST")
          } else {
           Table::row(622602000, 3600, 0, "CET")
          }
         } else {
          if i < 25 {
           Table::row(638326800, 3600, 3600, "CEST")
          } else {
           Table::row(654656400, 3600, 0, "CET")
          }
         }
        } else {
         if i < 28 {
          if i < 27 {
           Table::row(670381200, 3600, 3600, "CEST")
          } else {
           Table::row(686106000, 3600, 0, "CET")
          }
         } else {
          if i < 29 {
           Table::row(701830800, 3600, 3600, "CEST")
          } else {
           Table::row(717555600, 3600, 0, "CET")
          }
         }
        }
       }
      }
     } else {
      if i < 45 {
       if i < 37 {
        if i < 33 {
         if i < 31 {
          Table::row(733280400, 3600, 3600, "CEST")
         } else {
          if i < 32 {
           Table::row(749005200, 3600, 0, "CET")
          } else {
           Table::row(764730000, 3600, 3600, "CEST")
          }
         }
        } else {
         if i < 35 {
          if i < 34 {
           Table::row(780454800, 3600, 0, "CET")
          } else {
           Table::row(796179600, 3600, 3600, "CEST")
          }
         } else {
          if i < 36 {
           Table::row(811904400, 3600, 0, "CET")
          } else {
           Table::row(828234000, 3600, 3600, "CEST")
          }
         }
        }
       } else {
        if i < 41 {
         if i < 39 {
          if i < 38 {
           Table::row(846378000, 3600, 0, "CET")
          } else {
           Table::row(859683600, 3600, 3600, "CEST")
          }
         } else {
          if i < 40 {
           Table::row(877827600, 3600, 0, "CET")
          } else {
           Table::row(891133200, 3600, 3600, "CEST")
          }
         }
        } else {
         if i < 43 {
          if i < 42 {
           Table::row(909277200, 3600, 0, "CET")
          } else {
           Table::row(922582800, 3600, 3600, "CEST")
          }
         } else {
          if i < 44 {
           Table::row(941331600, 3600, 0, "CET")
          } else {
           Table::row(954032400, 3600, 3600, "CEST")
          }
         }
        }
       }
      } else {
       if i < 52 {
        if i < 48 {
         if i < 46 {
          Table::row(972781200, 3600, 0, "CET")
         } else {
          if i < 47 {
           Table::row(985482000, 3600, 3600, "CEST")
          } else {
           Table::row(1004230800, 3600, 0, "CET")
          }
         }
        } else {
         if i < 50 {
          if i < 49 {
           Table::row(1017536400, 3600, 3600, "CEST")
          } else {
           Table::row(1035680400, 3600, 0, "CET")
          }
         } else {
          if i < 51 {
           Table::row(1048986000, 3600, 3600, "CEST")
          } else {
           Table::row(1067130000, 3600, 0, "CET")
          }
         }
        }
       } else {
        if i < 56 {
         if i < 54 {
          if i < 53 {
           Table::row(1080435600, 3600, 3600, "CEST")
          } else {
           Table::row(1099184400, 3600, 0, "CET")
          }
         } else {
          if i < 55 {
           Table::row(1111885200, 3600, 3600, "CEST")
          } else {
           Table::row(1130634000, 3600, 0, "CET")
          }
         }
        } else {
         if i < 58 {
          if i < 57 {
           Table::row(1143334800, 3600, 3600, "CEST")
          } else {
           Table::row(1162083600, 3600, 0, "CET")
          }
         } else {
          if i < 59 {
           Table::row(1174784400, 3600, 3600, "CEST")
          } else {
           Table::row(1193533200, 3600, 0, "CET")
          }
         }
        }
       }
      }
     }
    } else {
     if i < 90 {
      if i < 75 {
       if i < 67 {
        if i < 63 {
         if i < 61 {
          Table::row(1206838800, 3600, 3600, "CEST")
         } else {
          if i < 62 {
           Table::row(1224982800, 3600, 0, "CET")
          } else {
           Table::row(1238288400, 3600, 3600, "CEST")
          }
         }
        } else {
         if i < 65 {
          if i < 64 {
           Table::row(1256432400, 3600, 0, "CET")
          } else {
           Table::row(1269738000, 3600, 3600, "CEST")
          }
         } else {
          if i < 66 {
           Table::row(1288486800, 3600, 0, "CET")
          } else {
           Table::row(1301187600, 3600, 3600, "CEST")
          }
         }
        }
       } else {
        if i < 71 {
         if i < 69 {
          if i < 68 {
           Table::row(1319936400, 3600, 0, "CET")
          } else {
           Table::row(1332637200, 3600, 3600, "CEST")
          }
         } else {
          if i < 70 {
           Table::row(1351386000, 3600, 0, "CET")
          } else {
           Table::row(1364691600, 3600, 3600, "CEST")
          }
         }
        } else {
         if i < 73 {
          if i < 72 {
           Table::row(1382835600, 3600, 0, "CET")
          } else {
           Table::row(1396141200, 3600, 3600, "CEST")
          }
         } else {
          if i < 74 {
           Table::row(1414285200, 3600, 0, "CET")
          } else {
           Table::row(1427590800, 3600, 3600, "CEST")
          }
         }
        }
       }
      } else {
       if i < 82 {
        if i < 78 {
         if i < 76 {
          Table::row(1445734800, 3600, 0, "CET")
         } else {
          if i < 77 {
           Table::row(1459040400, 3600, 3600, "CEST")
          } else {
           Table::row(1477789200, 3600, 0, "CET")
          }
         }
        } else {
         if i < 80 {
          if i < 79 {
           Table::row(1490490000, 3600, 3600, "CEST")
          } else {
           Table::row(1509238800, 3600, 0, "CET")
          }
         } else {
          if i < 81 {
           Table::row(1521939600, 3600, 3600, "CEST")
          } else {
           Table::row(1540688400, 3600, 0, "CET")
          }
         }
        }
       } else {
        if i < 86 {
         if i < 84 {
          if i < 83 {
           Table::row(1553994000, 3600, 3600, "CEST")
          } else {
           Table::row(1572138000, 3600, 0, "CET")
          }
         } else {
          if i < 85 {
           Table::row(1585443600, 3600, 3600, "CEST")
          } else {
           Table::row(1603587600, 3600, 0, "CET")
          }
         }
        } else {
         if i < 88 {
          if i < 87 {
           Table::row(1616893200, 3600, 3600, "CEST")
          } else {
           Table::row(1635642000, 3600, 0, "CET")
          }
         } else {
          if i < 89 {
           Table::row(1648342800, 3600, 3600, "CEST")
          } else {
           Table::row(1667091600, 3600, 0, "CET")
          }
         }
        }
       }
      }
     } else {
      if i < 105 {
       if i < 97 {
        if i < 93 {
         if i < 91 {
          Table::row(1679792400, 3600, 3600, "CEST")
         } else {
          if i < 92 {
           Table::row(1698541200, 3600, 0, "CET")
          } else {
           Table::row(1711846800, 3600, 3600, "CEST")
          }
         }
        } else {
         if i < 95 {
          if i < 94 {
           Table::row(1729990800, 3600, 0, "CET")
          } else {
           Table::row(1743296400, 3600, 3600, "CEST")
          }
         } else {
          if i < 96 {
           Table::row(1761440400, 3600, 0, "CET")
          } else {
           Table::row(1774746000, 3600, 3600, "CEST")
          }
         }
        }
       } else {
        if i < 101 {
         if i < 99 {
          if i < 98 {
           Table::row(1792890000, 3600, 0, "CET")
          } else {
           Table::row(1806195600, 3600, 3600, "CEST")
          }
         } else {
          if i < 100 {
           Table::row(1824944400, 3600, 0, "CET")
          } else {
           Table::row(1837645200, 3600, 3600, "CEST")
          }
         }
        } else {
         if i < 103 {
          if i < 102 {
           Table::row(1856394000, 3600, 0, "CET")
          } else {
           Table::row(1869094800, 3600, 3600, "CEST")
          }
         } else {
          if i < 104 {
           Table::row(1887843600, 3600, 0, "CET")
          } else {
           Table::row(1901149200, 3600, 3600, "CEST")
          }
         }
        }
       }
      } else {
       if i < 112 {
        if i < 108 {
         if i < 106 {
          Table::row(1919293200, 3600, 0, "CET")
         } else {
          if i < 107 {
           Table::row(1932598800, 3600, 3600, "CEST")
          } else {
           Table::row(1950742800, 3600, 0, "CET")
          }
         }
        } else {
         if i < 110 {
          if i < 109 {
           Table::row(1964048400, 3600, 3600, "CEST")
          } else {
           Table::row(1982797200, 3600, 0, "CET")
          }
         } else {
          if i < 111 {
           Table::row(1995498000, 3600, 3600, "CEST")
          } else {
           Table::row(2014246800, 3600, 0, "CET")
          }
         }
        }
       } else {
        if i < 116 {
         if i < 114 {
          if i < 113 {
           Table::row(2026947600, 3600, 3600, "CEST")
          } else {
           Table::row(2045696400, 3600, 0, "CET")
          }
         } else {
          if i < 115 {
           Table::row(2058397200, 3600, 3600, "CEST")
          } else {
           Table::row(2077146000, 3600, 0, "CET")
          }
         }
        } else {
         if i < 118 {
          if i < 117 {
           Table::row(2090451600, 3600, 3600, "CEST")
          } else {
           Table::row(2108595600, 3600, 0, "CET")
          }
         } else {
          if i < 119 {
           Table::row(2121901200, 3600, 3600, "CEST")
          } else {
           Table::row(2140045200, 3600, 0, "CET")
          }
         }
        }
       }
      }
     }
    }
}

/// The rows of the table of the zone `Europe/Stockholm`.
pub open spec fn stockholm_rows() -> spec_fn(int) -> (i64, FixedTimespan) {
    |i: int| stockholm_row(i)
}

/// The table of the zone `Europe/Stockholm`.
pub open spec fn stockholm() -> Table {
    Table::listed(Table::row(0, 4332, 0, "LMT").1, 120, stockholm_rows())
}

/// Row `i` of the table of the zone `Europe/Tallinn`.
pub open spec fn tallinn_row(i: int) -> (i64, FixedTimespan) {
    if i < 61 {
     if i < 30 {
      if i < 15 {
       if i < 7 {
        if i < 3 {
         if i < 1 {
          Table::row(-2840146740, 5940, 0, "TMT")
         } else {
          if i < 2 {
           Table::row(-1638322740, 3600, 0, "CET")
          } else {
           Table::row(-1632006000, 3600, 3600, "CEST")
          }
         }
        } else {
         if i < 5 {
          if i < 4 {
           Table::row(-1618700400, 3600, 0, "CET")
          } else {
           Table::row(-1593824400, 5940, 0, "TMT")
          }
         } else {
          if i < 6 {
           Table::row(-1535938740, 7200, 0, "EET")
          } else {
           Table::row(-927943200, 10800, 0, "MSK")
          }
         }
        }
       } else {
        if i < 11 {
         if i < 9 {
          if i < 8 {
           Table::row(-892954800, 3600, 3600, "CEST")
          } else {
           Table::row(-857257200, 3600, 0, "CET")
          }
         } else {
          if i < 10 {
           Table::row(-844556400, 3600, 3600, "CEST")
          } else {
           Table::row(-828226800, 3600, 0, "CET")
          }
         }
        } else {
         if i < 13 {
          if i < 12 {
           Table::row(-812502000, 3600, 3600, "CEST")
          } else {
           Table::row(-797652000, 10800, 0, "MSK")
          }
         } else {
          if i < 14 {
           Table::row(354920400, 10800, 3600, "MSD")
          } else {
           Table::row(370728000, 10800, 0, "MSK")
          }
         }
        }
       }
      } else {
       if i < 22 {
        if i < 18 {
         if i < 16 {
          Table::row(386456400, 10800, 3600, "MSD")
         } else {
          if i < 17 {
           Table::row(402264000, 10800, 0, "MSK")
          } else {
           Table::row(417992400, 10800, 3600, "MSD")
          }
         }
        } else {
         if i < 20 {
          if i < 19 {
           Table::row(433800000, 10800, 0, "MSK")
          } else {
           Table::row(449614800, 10800, 3600, "MSD")
          }
         } else {
          if i < 21 {
           Table::row(465346800, 10800, 0, "MSK")
          } else {
           Table::row(481071600, 10800, 3600, "MSD")
          }
         }
        }
       } else {
        if i < 26 {
         if i < 24 {
          if i < 23 {
           Table::row(496796400, 10800, 0, "MSK")
          } else {
           Table::row(512521200, 10800, 3600, "MSD")
          }
         } else {
          if i < 25 {
           Table::row(528246000, 10800, 0, "MSK")
          } else {
           Table::row(543970800, 10800, 3600, "MSD")
          }
         }
        } else {
         if i < 28 {
          if i < 27 {
           Table::row(559695600, 10800, 0, "MSK")
          } else {
           Table::row(575420400, 10800, 3600, "MSD")
          }
         } else {
          if i < 29 {
           Table::row(591145200, 10800, 0, "MSK")
          } else {
           Table::row(606870000, 7200, 3600, "EEST")
          }
         }
        }
       }
      }
     } else {
      if i < 45 {
       if i < 37 {
        if i < 33 {
         if i < 31 {
          Table::row(622598400, 7200, 0, "EET")
         } else {
          if i < 32 {
           Table::row(638323200, 7200, 3600, "EEST")
          } else {
           Table::row(654652800, 7200, 0, "EET")
          }
         }
        } else {
         if i < 35 {
          if i < 34 {
           Table::row(670377600, 7200, 3600, "EEST")
          } else {
           Table::row(686102400, 7200, 0, "EET")
          }
         } else {
          if i < 36 {
           Table::row(701827200, 7200, 3600, "EEST")
          } else {
           Table::row(717552000, 7200, 0, "EET")
          }
         }
        }
       } else {
        if i < 41 {
         if i < 39 {
          if i < 38 {
           Table::row(733276800, 7200, 3600, "EEST")
          } else {
           Table::row(749001600, 7200, 0, "EET")
          }
         } else {
          if i < 40 {
           Table::row(764726400, 7200, 3600, "EEST")
          } else {
           Table::row(780451200, 7200, 0, "EET")
          }
         }
        } else {
         if i < 43 {
          if i < 42 {
           Table::row(796176000, 7200, 3600, "EEST")
          } else {
           Table::row(811900800, 7200, 0, "EET")
          }
         } else {
          if i < 44 {
           Table::row(828230400, 7200, 3600, "EEST")
          } else {
           Table::row(846374400, 7200, 0, "EET")
          }
         }
        }
       }
      } else {
       if i < 53 {
        if i < 49 {
         if i < 47 {
          if i < 46 {
           Table::row(859680000, 7200, 3600, "EEST")
          } else {
           Table::row(877824000, 7200, 0, "EET")
          }
         } else {
          if i < 48 {
           Table::row(891129600, 7200, 3600, "EEST")
          } else {
           Table::row(909277200, 7200, 0, "EET")
          }
         }
        } else {
         if i < 51 {
          if i < 50 {
           Table::row(922582800, 7200, 3600, "EEST")
          } else {
           Table::row(941331600, 7200, 0, "EET")
          }
         } else {
          if i < 52 {
           Table::row(1017536400, 7200, 3600, "EEST")
          } else {
           Table::row(1035680400, 7200, 0, "EET")
          }
         }
        }
       } else {
        if i < 57 {
         if i < 55 {
          if i < 54 {
           Table::row(1048986000, 7200, 3600, "EEST")
          } else {
           Table::row(1067130000, 7200, 0, "EET")
          }
         } else {
          if i < 56 {
           Table::row(1080435600, 7200, 3600, "EEST")
          } else {
           Table::row(1099184400, 7200, 0, "EET")
          }
         }
        } else {
         if i < 59 {
          if i < 58 {
           Table::row(1111885200, 7200, 3600, "EEST")
          } else {
           Table::row(1130634000, 7200, 0, "EET")
          }
         } else {
          if i < 60 {
           Table::row(1143334800, 7200, 3600, "EEST")
          } else {
           Table::row(1162083600, 7200, 0, "EET")
          }
         }
        }
       }
      }
     }
    } else {
     if i < 92 {
      if i < 76 {
       if i < 68 {
        if i < 64 {
         if i < 62 {
          Table::row(1174784400, 7200, 3600, "EEST")
         } else {
          if i < 63 {
           Table::row(1193533200, 7200, 0, "EET")
          } else {
           Table::row(1206838800, 7200, 3600, "EEST")
          }
         }
        } else {
         if i < 66 {
          if i < 65 {
           Table::row(1224982800, 7200, 0, "EET")
          } else {
           Table::row(1238288400, 7200, 3600, "EEST")
          }
         } else {
          if i < 67 {
           Table::row(1256432400, 7200, 0, "EET")
          } else {
           Table::row(1269738000, 7200, 3600, "EEST")
          }
         }
        }
       } else {
        if i < 72 {
         if i < 70 {
          if i < 69 {
           Table::row(1288486800, 7200, 0, "EET")
          } else {
           Table::row(1301187600, 7200, 3600, "EEST")
          }
         } else {
          if i < 71 {
           Table::row(1319936400, 7200, 0, "EET")
          } else {
           Table::row(1332637200, 7200, 3600, "EEST")
          }
         }
        } else {
         if i < 74 {
          if i < 73 {
           Table::row(1351386000, 7200, 0, "EET")
          } else {
           Table::row(1364691600, 7200, 3600, "EEST")
          }
         } else {
          if i < 75 {
           Table::row(1382835600, 7200, 0, "EET")
          } else {
           Table::row(1396141200, 7200, 3600, "EEST")
          }
         }
        }
       }
      } else {
       if i < 84 {
        if i < 80 {
         if i < 78 {
          if i < 77 {
           Table::row(1414285200, 7200, 0, "EET")
          } else {
           Table::row(1427590800, 7200, 3600, "EEST")
          }
         } else {
          if i < 79 {
           Table::row(1445734800, 7200, 0, "EET")
          } else {
           Table::row(1459040400, 7200, 3600, "EEST")
          }
         }
        } else {
         if i < 82 {
          if i < 81 {
           Table::row(1477789200, 7200, 0, "EET")
          } else {
           Table::row(1490490000, 7200, 3600, "EEST")
          }
         } else {
          if i < 83 {
           Table::row(1509238800, 7200, 0, "EET")
          } else {
           Table::row(1521939600, 7200, 3600, "EEST")
          }
         }
        }
       } else {
        if i < 88 {
         if i < 86 {
          if i < 85 {
           Table::row(1540688400, 7200, 0, "EET")
          } else {
           Table::row(1553994000, 7200, 3600, "EEST")
          }
         } else {
          if i < 87 {
           Table::row(1572138000, 7200, 0, "EET")
          } else {
           Table::row(1585443600, 7200, 3600, "EEST")
          }
         }
        } else {
         if i < 90 {
          if i < 89 {
           Table::row(1603587600, 7200, 0, "EET")
          } else {
           Table::row(1616893200, 7200, 3600, "EEST")
          }
         } else {
          if i < 91 {
           Table::row(1635642000, 7200, 0, "EET")
          } else {
           Table::row(1648342800, 7200, 3600, "EEST")
          }
         }
        }
       }
      }
     } else {
      if i < 107 {
       if i < 99 {
        if i < 95 {
         if i < 93 {
          Table::row(1667091600, 7200, 0, "EET")
         } else {
          if i < 94 {
           Table::row(1679792400, 7200, 3600, "EEST")
          } else {
           Table::row(1698541200, 7200, 0, "EET")
          }
         }
        } else {
         if i < 97 {
          if i < 96 {
           Table::row(1711846800, 7200, 3600, "EEST")
          } else {
           Table::row(1729990800, 7200, 0, "EET")
          }
         } else {
          if i < 98 {
           Table::row(1743296400, 7200, 3600, "EEST")
          } else {
           Table::row(1761440400, 7200, 0, "EET")
          }
         }
        }
       } else {
        if i < 103 {
         if i < 101 {
          if i < 100 {
           Table::row(1774746000, 7200, 3600, "EEST")
          } else {
           Table::row(1792890000, 7200, 0, "EET")
          }
         } else {
          if i < 102 {
           Table::row(1806195600, 7200, 3600, "EEST")
          } else {
           Table::row(1824944400, 7200, 0, "EET")
          }
         }
        } else {
         if i < 105 {
          if i < 104 {
           Table::row(1837645200, 7200, 3600, "EEST")
          } else {
           Table::row(1856394000, 7200, 0, "EET")
          }
         } else {
          if i < 106 {
           Table::row(1869094800, 7200, 3600, "EEST")
          } else {
           Table::row(1887843600, 7200, 0, "EET")
          }
         }
        }
       }
      } else {
       if i < 115 {
        if i < 111 {
         if i < 109 {
          if i < 108 {
           Table::row(1901149200, 7200, 3600, "EEST")
          } else {
           Table::row(1919293200, 7200, 0, "EET")
          }
         } else {
          if i < 110 {
           Table::row(1932598800, 7200, 3600, "EEST")
          } else {
           Table::row(1950742800, 7200, 0, "EET")
          }
         }
        } else {
         if i < 113 {
          if i < 112 {
           Table::row(1964048400, 7200, 3600, "EEST")
          } else {
           Table::row(1982797200, 7200, 0, "EET")
          }
         } else {
          if i < 114 {
           Table::row(1995498000, 7200, 3600, "EEST")
          } else {
           Table::row(2014246800, 7200, 0, "EET")
          }
         }
        }
       } else {
        if i < 119 {
         if i < 117 {
          if i < 116 {
           Table::row(2026947600, 7200, 3600, "EEST")
          } else {
           Table::row(2045696400, 7200, 0, "EET")
          }
         } else {
          if i < 118 {
           Table::row(2058397200, 7200, 3600, "EEST")
          } else {
           Table::row(2077146000, 7200, 0, "EET")
          }
         }
        } else {
         if i < 121 {
          if i < 120 {
           Table::row(2090451600, 7200, 3600, "EEST")
          } else {
           Table::row(2108595600, 7200, 0, "EET")
          }
         } else {
          if i < 122 {
           Table::row(2121901200, 7200, 3600, "EEST")
          } else {
           Table::row(2140045200, 7200, 0, "EET")
          }
         }
        }
       }
      }
     }
    }
}

/// The rows of the table of the zone `Europe/Tallinn`.
pub open spec fn tallinn_rows() -> spec_fn(int) -> (i64, FixedTimespan) {
    |i: int| tallinn_row(i)
}

/// The table of the zone `Europe/Tallinn`.
pub open spec fn tallinn() -> Table {
    Table::listed(Table::row(0, 5940, 0, "LMT").1, 123, tallinn_rows())
}

/// Row `i` of the table of the zone `Europe/Tirane`.
pub open spec fn tirane_row(i: int) -> (i64, FixedTimespan) {
    if i < 66 {
     if i < 33 {
      if i < 16 {
       if i < 8 {
        if i < 4 {
         if i < 2 {
          if i < 1 {
           Table::row(-1767230360, 3600, 0, "CET")
          } else {
           Table::row(-932346000, 3600, 3600, "CEST")
          }
         } else {
          if i < 3 {
           Table::row(-857257200, 3600, 0, "CET")
          } else {
           Table::row(-844556400, 3600, 3600, "CEST")
          }
         }
        } else {
         if i < 6 {
          if i < 5 {
           Table::row(-843519600, 3600, 0, "CET")
          } else {
           Table::row(136854000, 3600, 3600, "CEST")
          }
         } else {
          if i < 7 {
           Table::row(149896800, 3600, 0, "CET")
          } else {
           Table::row(168130800, 3600, 3600, "CEST")
          }
         }
        }
       } else {
        if i < 12 {
         if i < 10 {
          if i < 9 {
           Table::row(181432800, 3600, 0, "CET")
          } else {
           Table::row(199839600, 3600, 3600, "CEST")
          }
         } else {
          if i < 11 {
           Table::row(213141600, 3600, 0, "CET")
          } else {
           Table::row(231894000, 3600, 3600, "CEST")
          }
         }
        } else {
         if i < 14 {
          if i < 13 {
           Table::row(244591200, 3600, 0, "CET")
          } else {
           Table::row(263257200, 3600, 3600, "CEST")
          }
         } else {
          if i < 15 {
           Table::row(276040800, 3600, 0, "CET")
          } else {
           Table::row(294706800, 3600, 3600, "CEST")
          }
         }
        }
       }
      } else {
       if i < 24 {
        if i < 20 {
         if i < 18 {
          if i < 17 {
           Table::row(307490400, 3600, 0, "CET")
          } else {
           Table::row(326156400, 3600, 3600, "CEST")
          }
         } else {
          if i < 19 {
           Table::row(339458400, 3600, 0, "CET")
          } else {
           Table::row(357087600, 3600, 3600, "CEST")
          }
         }
        } else {
         if i < 22 {
          if i < 21 {
           Table::row(370389600, 3600, 0, "CET")
          } else {
           Table::row(389142000, 3600, 3600, "CEST")
          }
         } else {
          if i < 23 {
           Table::row(402444000, 3600, 0, "CET")
          } else {
           Table::row(419468400, 3600, 3600, "CEST")
          }
         }
        }
       } else {
        if i < 28 {
         if i < 26 {
          if i < 25 {
           Table::row(433807200, 3600, 0, "CET")
          } else {
           Table::row(449622000, 3600, 3600, "CEST")
          }
         } else {
          if i < 27 {
           Table::row(465354000, 3600, 0, "CET")
          } else {
           Table::row(481078800, 3600, 3600, "CEST")
          }
         }
        } else {
         if i < 30 {
          if i < 29 {
           Table::row(496803600, 3600, 0, "CET")
          } else {
           Table::row(512528400, 3600, 3600, "CEST")
          }
         } else {
          if i < 31 {
           Table::row(528253200, 3600, 0, "CET")
          } else {
           if i < 32 {
            Table::row(543978000, 3600, 3600, "CEST")
           } else {
            Table::row(559702800, 3600, 0, "CET")
           }
          }
         }
        }
       }
      }
     } else {
      if i < 49 {
       if i < 41 {
        if i < 37 {
         if i < 35 {
          if i < 34 {
           Table::row(575427600, 3600, 3600, "CEST")
          } else {
           Table::row(591152400, 3600, 0, "CET")
          }
         } else {
          if i < 36 {
           Table::row(606877200, 3600, 3600, "CEST")
          } else {
           Table::row(622602000, 3600, 0, "CET")
          }
         }
        } else {
         if i < 39 {
          if i < 38 {
           Table::row(638326800, 3600, 3600, "CEST")
          } else {
           Table::row(654656400, 3600, 0, "CET")
          }
         } else {
          if i < 40 {
           Table::row(670381200, 3600, 3600, "CEST")
          } else {
           Table::row(686106000, 3600, 0, "CET")
          }
         }
        }
       } else {
        if i < 45 {
         if i < 43 {
          if i < 42 {
           Table::row(701830800, 3600, 3600, "CEST")
          } else {
           Table::row(717555600, 3600, 0, "CET")
          }
         } else {
          if i < 44 {
           Table::row(733280400, 3600, 3600, "CEST")
          } else {
           Table::row(749005200, 3600, 0, "CET")
          }
         }
        } else {
         if i < 47 {
          if i < 46 {
           Table::row(764730000, 3600, 3600, "CEST")
          } else {
           Table::row(780454800, 3600, 0, "CET")
          }
         } else {
          if i < 48 {
           Table::row(796179600, 3600, 3600, "CEST")
          } else {
           Table::row(811904400, 3600, 0, "CET")
          }
         }
        }
       }
      } else {
       if i < 57 {
        if i < 53 {
         if i < 51 {
          if i < 50 {
           Table::row(828234000, 3600, 3600, "CEST")
          } else {
           Table::row(846378000, 3600, 0, "CET")
          }
         } else {
          if i < 52 {
           Table::row(859683600, 3600, 3600, "CEST")
          } else {
           Table::row(877827600, 3600, 0, "CET")
          }
         }
        } else {
         if i < 55 {
          if i < 54 {
           Table::row(891133200, 3600, 3600, "CEST")
          } else {
           Table::row(909277200, 3600, 0, "CET")
          }
         } else {
          if i < 56 {
           Table::row(922582800, 3600, 3600, "CEST")
          } else {
           Table::row(941331600, 3600, 0, "CET")
          }
         }
        }
       } else {
        if i < 61 {
         if i < 59 {
          if i < 58 {
           Table::row(954032400, 3600, 3600, "CEST")
          } else {
           Table::row(972781200, 3600, 0, "CET")
          }
         } else {
          if i < 60 {
           Table::row(985482000, 3600, 3600, "CEST")
          } else {
           Table::row(1004230800, 3600, 0, "CET")
          }
         }
        } else {
         if i < 63 {
          if i < 62 {
           Table::row(1017536400, 3600, 3600, "CEST")
          } else {
           Table::row(1035680400, 3600, 0, "CET")
          }
         } else {
          if i < 64 {
           Table::row(1048986000, 3600, 3600, "CEST")
          } else {
           if i < 65 {
            Table::row(1067130000, 3600, 0, "CET")
           } else {
            Table::row(1080435600, 3600, 3600, "CEST")
           }
          }
         }
        }
       }
      }
     }
    } else {
     if i < 99 {
      if i < 82 {
       if i < 74 {
        if i < 70 {
         if i < 68 {
          if i < 67 {
           Table::row(1099184400, 3600, 0, "CET")
          } else {
           Table::row(1111885200, 3600, 3600, "CEST")
          }
         } else {
          if i < 69 {
           Table::row(1130634000, 3600, 0, "CET")
          } else {
           Table::row(1143334800, 3600, 3600, "CEST")
          }
         }
        } else {
         if i < 72 {
          if i < 71 {
           Table::row(1162083600, 3600, 0, "CET")
          } else {
           Table::row(1174784400, 3600, 3600, "CEST")
          }
         } else {
          if i < 73 {
           Table::row(1193533200, 3600, 0, "CET")
          } else {
           Table::row(1206838800, 3600, 3600, "CEST")
          }
         }
        }
       } else {
        if i < 78 {
         if i < 76 {
          if i < 75 {
           Table::row(1224982800, 3600, 0, "CET")
          } else {
           Table::row(1238288400, 3600, 3600, "CEST")
          }
         } else {
          if i < 77 {
           Table::row(1256432400, 3600, 0, "CET")
          } else {
           Table::row(1269738000, 3600, 3600, "CEST")
          }
         }
        } else {
         if i < 80 {
          if i < 79 {
           Table::row(1288486800, 3600, 0, "CET")
          } else {
           Table::row(1301187600, 3600, 3600, "CEST")
          }
         } else {
          if i < 81 {
           Table::row(1319936400, 3600, 0, "CET")
          } else {
           Table::row(1332637200, 3600, 3600, "CEST")
          }
         }
        }
       }
      } else {
       if i < 90 {
        if i < 86 {
         if i < 84 {
          if i < 83 {
           Table::row(1351386000, 3600, 0, "CET")
          } else {
           Table::row(1364691600, 3600, 3600, "CEST")
          }
         } else {
          if i < 85 {
           Table::row(1382835600, 3600, 0, "CET")
          } else {
           Table::row(1396141200, 3600, 3600, "CEST")
          }
         }
        } else {
         if i < 88 {
          if i < 87 {
           Table::row(1414285200, 3600, 0, "CET")
          } else {
           Table::row(1427590800, 3600, 3600, "CEST")
          }
         } else {
          if i < 89 {
           Table::row(1445734800, 3600, 0, "CET")
          } else {
           Table::row(1459040400, 3600, 3600, "CEST")
          }
         }
        }
       } else {
        if i < 94 {
         if i < 92 {
          if i < 91 {
           Table::row(1477789200, 3600, 0, "CET")
          } else {
           Table::row(1490490000, 3600, 3600, "CEST")
          }
         } else {
          if i < 93 {
           Table::row(1509238800, 3600, 0, "CET")
          } else {
           Table::row(1521939600, 3600, 3600, "CEST")
          }
         }
        } else {
         if i < 96 {
          if i < 95 {
           Table::row(1540688400, 3600, 0, "CET")
          } else {
           Table::row(1553994000, 3600, 3600, "CEST")
          }
         } else {
          if i < 97 {
           Table::row(1572138000, 3600, 0, "CET")
          } else {
           if i < 98 {
            Table::row(1585443600, 3600, 3600, "CEST")
           } else {
            Table::row(1603587600, 3600, 0, "CET")
           }
          }
         }
        }
       }
      }
     } else {
      if i < 116 {
       if i < 107 {
        if i < 103 {
         if i < 101 {
          if i < 100 {
           Table::row(1616893200, 3600, 3600, "CEST")
          } else {
           Table::row(1635642000, 3600, 0, "CET")
          }
         } else {
          if i < 102 {
           Table::row(1648342800, 3600, 3600, "CEST")
          } else {
           Table::row(1667091600, 3600, 0, "CET")
          }
         }
        } else {
         if i < 105 {
          if i < 104 {
           Table::row(1679792400, 3600, 3600, "CEST")
          } else {
           Table::row(1698541200, 3600, 0, "CET")
          }
         } else {
          if i < 106 {
           Table::row(1711846800, 3600, 3600, "CEST")
          } else {
           Table::row(1729990800, 3600, 0, "CET")
          }
         }
        }
       } else {
        if i < 111 {
         if i < 109 {
          if i < 108 {
           Table::row(1743296400, 3600, 3600, "CEST")
          } else {
           Table::row(1761440400, 3600, 0, "CET")
          }
         } else {
          if i < 110 {
           Table::row(1774746000, 3600, 3600, "CEST")
          } else {
           Table::row(1792890000, 3600, 0, "CET")
          }
         }
        } else {
         if i < 113 {
          if i < 112 {
           Table::row(1806195600, 3600, 3600, "CEST")
          } else {
           Table::row(1824944400, 3600, 0, "CET")
          }
         } else {
          if i < 114 {
           Table::row(1837645200, 3600, 3600, "CEST")
          } else {
           if i < 115 {
            Table::row(1856394000, 3600, 0, "CET")
           } else {
            Table::row(1869094800, 3600, 3600, "CEST")
           }
          }
         }
        }
       }
      } else {
       if i < 124 {
        if i < 120 {
         if i < 118 {
          if i < 117 {
           Table::row(1887843600, 3600, 0, "CET")
          } else {
           Table::row(1901149200, 3600, 3600, "CEST")
          }
         } else {
          if i < 119 {
           Table::row(1919293200, 3600, 0, "CET")
          } else {
           Table::row(1932598800, 3600, 3600, "CEST")
          }
         }
        } else {
         if i < 122 {
          if i < 121 {
           Table::row(1950742800, 3600, 0, "CET")
          } else {
           Table::row(1964048400, 3600, 3600, "CEST")
          }
         } else {
          if i < 123 {
           Table::row(1982797200, 3600, 0, "CET")
          } else {
           Table::row(1995498000, 3600, 3600, "CEST")
          }
         }
        }
       } else {
        if i < 128 {
         if i < 126 {
          if i < 125 {
           Table::row(2014246800, 3600, 0, "CET")
          } else {
           Table::row(2026947600, 3600, 3600, "CEST")
          }
         } else {
          if i < 127 {
           Table::row(2045696400, 3600, 0, "CET")
          } else {
           Table::row(2058397200, 3600, 3600, "CEST")
          }
         }
        } else {
         if i < 130 {
          if i < 129 {
           Table::row(2077146000, 3600, 0, "CET")
          } else {
           Table::row(2090451600, 3600, 3600, "CEST")
          }
         } else {
          if i < 131 {
           Table::row(2108595600, 3600, 0, "CET")
          } else {
           if i < 132 {
            Table::row(2121901200, 3600, 3600, "CEST")
           } else {
            Table::row(2140045200, 3600, 0, "CET")
           }
          }
         }
        }
       }
      }
     }
    }
}

/// The rows of the table of the zone `Europe/Tirane`.
pub open spec fn tirane_rows() -> spec_fn(int) -> (i64, FixedTimespan) {
    |i: int| tirane_row(i)
}

/// The table of the zone `Europe/Tirane`.
pub open spec fn tirane() -> Table {
    Table::listed(Table::row(0, 4760, 0, "LMT").1, 133, tirane_rows())
}

/// Row `i` of the table of the zone `Europe/Tiraspol`.
pub open spec fn tiraspol_row(i: int) -> (i64, FixedTimespan) {
    if i < 70 {
     if i < 35 {
      if i < 17 {
       if i < 8 {
        if i < 4 {
         if i < 2 {
          if i < 1 {
           Table::row(-2840147720, 6900, 0, "CMT")
          } else {
           Table::row(-1637114100, 6264, 0, "BMT")
          }
         } else {
          if i < 3 {
           Table::row(-1213148664, 7200, 0, "EET")
          } else {
           Table::row(-1187056800, 7200, 3600, "EEST")
          }
         }
        } else {
         if i < 6 {
          if i < 5 {
           Table::row(-1175479200, 7200, 0, "EET")
          } else {
           Table::row(-1159754400, 7200, 3600, "EEST")
          }
         } else {
          if i < 7 {
           Table::row(-1144029600, 7200, 0, "EET")
          } else {
           Table::row(-1127700000, 7200, 3600, "EEST")
          }
         }
        }
       } else {
        if i < 12 {
         if i < 10 {
          if i < 9 {
           Table::row(-1111975200, 7200, 0, "EET")
          } else {
           Table::row(-1096250400, 7200, 3600, "EEST")
          }
         } else {
          if i < 11 {
           Table::row(-1080525600, 7200, 0, "EET")
          } else {
           Table::row(-1064800800, 7200, 3600, "EEST")
          }
         }
        } else {
         if i < 14 {
          if i < 13 {
           Table::row(-1049076000, 7200, 0, "EET")
          } else {
           Table::row(-1033351200, 7200, 3600, "EEST")
          }
         } else {
          if i < 15 {
           Table::row(-1017626400, 7200, 0, "EET")
          } else {
           if i < 16 {
            Table::row(-1001901600, 7200, 3600, "EEST")
           } else {
            Table::row(-986176800, 7200, 0, "EET")
           }
          }
         }
        }
       }
      } else {
       if i < 26 {
        if i < 21 {
         if i < 19 {
          if i < 18 {
           Table::row(-970452000, 7200, 3600, "EEST")
          } else {
           Table::row(-954727200, 7200, 0, "EET")
          }
         } else {
          if i < 20 {
           Table::row(-927165600, 7200, 3600, "EEST")
          } else {
           Table::row(-898138800, 3600, 3600, "CEST")
          }
         }
        } else {
         if i < 23 {
          if i < 22 {
           Table::row(-857257200, 3600, 0, "CET")
          } else {
           Table::row(-844556400, 3600, 3600, "CEST")
          }
         } else {
          if i < 24 {
           Table::row(-828226800, 3600, 0, "CET")
          } else {
           if i < 25 {
            Table::row(-812502000, 3600, 3600, "CEST")
           } else {
            Table::row(-800157600, 10800, 0, "MSK")
           }
          }
         }
        }
       } else {
        if i < 30 {
         if i < 28 {
          if i < 27 {
           Table::row(354920400, 10800, 3600, "MSD")
          } else {
           Table::row(370728000, 10800, 0, "MSK")
          }
         } else {
          if i < 29 {
           Table::row(386456400, 10800, 3600, "MSD")
          } else {
           Table::row(402264000, 10800, 0, "MSK")
          }
         }
        } else {
         if i < 32 {
          if i < 31 {
           Table::row(417992400, 10800, 3600, "MSD")
          } else {
           Table::row(433800000, 10800, 0, "MSK")
          }
         } else {
          if i < 33 {
           Table::row(449614800, 10800, 3600, "MSD")
          } else {
           if i < 34 {
            Table::row(465346800, 10800, 0, "MSK")
           } else {
            Table::row(481071600, 10800, 3600, "MSD")
           }
          }
         }
        }
       }
      }
     } else {
      if i < 52 {
       if i < 43 {
        if i < 39 {
         if i < 37 {
          if i < 36 {
           Table::row(496796400, 10800, 0, "MSK")
          } else {
           Table::row(512521200, 10800, 3600, "MSD")
          }
         } else {
          if i < 38 {
           Table::row(528246000, 10800, 0, "MSK")
          } else {
           Table::row(543970800, 10800, 3600, "MSD")
          }
         }
        } else {
         if i < 41 {
          if i < 40 {
           Table::row(559695600, 10800, 0, "MSK")
          } else {
           Table::row(575420400, 10800, 3600, "MSD")
          }
         } else {
          if i < 42 {
           Table::row(591145200, 10800, 0, "MSK")
          } else {
           Table::row(606870000, 10800, 3600, "MSD")
          }
         }
        }
       } else {
        if i < 47 {
         if i < 45 {
          if i < 44 {
           Table::row(622594800, 10800, 0, "MSK")
          } else {
           Table::row(638319600, 10800, 3600, "MSD")
          }
         } else {
          if i < 46 {
           Table::row(641944800, 7200, 3600, "EEST")
          } else {
           Table::row(654652800, 7200, 0, "EET")
          }
         }
        } else {
         if i < 49 {
          if i < 48 {
           Table::row(670377600, 7200, 3600, "EEST")
          } else {
           Table::row(686102400, 7200, 0, "EET")
          }
         } else {
          if i < 50 {
           Table::row(701820000, 7200, 3600, "EEST")
          } else {
           if i < 51 {
            Table::row(717541200, 7200, 0, "EET")
           } else {
            Table::row(733269600, 7200, 3600, "EEST")
           }
          }
         }
        }
       }
      } else {
       if i < 61 {
        if i < 56 {
         if i < 54 {
          if i < 53 {
           Table::row(748990800, 7200, 0, "EET")
          } else {
           Table::row(764719200, 7200, 3600, "EEST")
          }
         } else {
          if i < 55 {
           Table::row(780440400, 7200, 0, "EET")
          } else {
           Table::row(796168800, 7200, 3600, "EEST")
          }
         }
        } else {
         if i < 58 {
          if i < 57 {
           Table::row(811890000, 7200, 0, "EET")
          } else {
           Table::row(828223200, 7200, 3600, "EEST")
          }
         } else {
          if i < 59 {
           Table::row(846363600, 7200, 0, "EET")
          } else {
           if i < 60 {
            Table::row(859680000, 7200, 3600, "EEST")
           } else {
            Table::row(877824000, 7200, 0, "EET")
           }
          }
         }
        }
       } else {
        if i < 65 {
         if i < 63 {
          if i < 62 {
           Table::row(891129600, 7200, 3600, "EEST")
          } else {
           Table::row(909273600, 7200, 0, "EET")
          }
         } else {
          if i < 64 {
           Table::row(922579200, 7200, 3600, "EEST")
          } else {
           Table::row(941328000, 7200, 0, "EET")
          }
         }
        } else {
         if i < 67 {
          if i < 66 {
           Table::row(954028800, 7200, 3600, "EEST")
          } else {
           Table::row(972777600, 7200, 0, "EET")
          }
         } else {
          if i < 68 {
           Table::row(985478400, 7200, 3600, "EEST")
          } else {
           if i < 69 {
            Table::row(1004227200, 7200, 0, "EET")
           } else {
            Table::row(1017532800, 7200, 3600, "EEST")
           }
          }
         }
        }
       }
      }
     }
    } else {
     if i < 105 {
      if i < 87 {
       if i < 78 {
        if i < 74 {
         if i < 72 {
          if i < 71 {
           Table::row(1035676800, 7200, 0, "EET")
          } else {
           Table::row(1048982400, 7200, 3600, "EEST")
          }
         } else {
          if i < 73 {
           Table::row(1067126400, 7200, 0, "EET")
          } else {
           Table::row(1080432000, 7200, 3600, "EEST")
          }
         }
        } else {
         if i < 76 {
          if i < 75 {
           Table::row(1099180800, 7200, 0, "EET")
          } else {
           Table::row(1111881600, 7200, 3600, "EEST")
          }
         } else {
          if i < 77 {
           Table::row(1130630400, 7200, 0, "EET")
          } else {
           Table::row(1143331200, 7200, 3600, "EEST")
          }
         }
        }
       } else {
        if i < 82 {
         if i < 80 {
          if i < 79 {
           Table::row(1162080000, 7200, 0, "EET")
          } else {
           Table::row(1174780800, 7200, 3600, "EEST")
          }
         } else {
          if i < 81 {
           Table::row(1193529600, 7200, 0, "EET")
          } else {
           Table::row(1206835200, 7200, 3600, "EEST")
          }
         }
        } else {
         if i < 84 {
          if i < 83 {
           Table::row(1224979200, 7200, 0, "EET")
          } else {
           Table::row(1238284800, 7200, 3600, "EEST")
          }
         } else {
          if i < 85 {
           Table::row(1256428800, 7200, 0, "EET")
          } else {
           if i < 86 {
            Table::row(1269734400, 7200, 3600, "EEST")
           } else {
            Table::row(1288483200, 7200, 0, "EET")
           }
          }
         }
        }
       }
      } else {
       if i < 96 {
        if i < 91 {
         if i < 89 {
          if i < 88 {
           Table::row(1301184000, 7200, 3600, "EEST")
          } else {
           Table::row(1319932800, 7200, 0, "EET")
          }
         } else {
          if i < 90 {
           Table::row(1332633600, 7200, 3600, "EEST")
          } else {
           Table::row(1351382400, 7200, 0, "EET")
          }
         }
        } else {
         if i < 93 {
          if i < 92 {
           Table::row(1364688000, 7200, 3600, "EEST")
          } else {
           Table::row(1382832000, 7200, 0, "EET")
          }
         } else {
          if i < 94 {
           Table::row(1396137600, 7200, 3600, "EEST")
          } else {
           if i < 95 {
            Table::row(1414281600, 7200, 0, "EET")
           } else {
            Table::row(1427587200, 7200, 3600, "EEST")
           }
          }
         }
        }
       } else {
        if i < 100 {
         if i < 98 {
          if i < 97 {
           Table::row(1445731200, 7200, 0, "EET")
          } else {
           Table::row(1459036800, 7200, 3600, "EEST")
          }
         } else {
          if i < 99 {
           Table::row(1477785600, 7200, 0, "EET")
          } else {
           Table::row(1490486400, 7200, 3600, "EEST")
          }
         }
        } else {
         if i < 102 {
          if i < 101 {
           Table::row(1509235200, 7200, 0, "EET")
          } else {
           Table::row(1521936000, 7200, 3600, "EEST")
          }
         } else {
          if i < 103 {
           Table::row(1540684800, 7200, 0, "EET")
          } else {
           if i < 104 {
            Table::row(1553990400, 7200, 3600, "EEST")
           } else {
            Table::row(1572134400, 7200, 0, "EET")
           }
          }
         }
        }
       }
      }
     } else {
      if i < 123 {
       if i < 114 {
        if i < 109 {
         if i < 107 {
          if i < 106 {
           Table::row(1585440000, 7200, 3600, "EEST")
          } else {
           Table::row(1603584000, 7200, 0, "EET")
          }
         } else {
          if i < 108 {
           Table::row(1616889600, 7200, 3600, "EEST")
          } else {
           Table::row(1635638400, 7200, 0, "EET")
          }
         }
        } else {
         if i < 111 {
          if i < 110 {
           Table::row(1648339200, 7200, 3600, "EEST")
          } else {
           Table::row(1667088000, 7200, 0, "EET")
          }
         } else {
          if i < 112 {
           Table::row(1679788800, 7200, 3600, "EEST")
          } else {
           if i < 113 {
            Table::row(1698537600, 7200, 0, "EET")
           } else {
            Table::row(1711843200, 7200, 3600, "EEST")
           }
          }
         }
        }
       } else {
        if i < 118 {
         if i < 116 {
          if i < 115 {
           Table::row(1729987200, 7200, 0, "EET")
          } else {
           Table::row(1743292800, 7200, 3600, "EEST")
          }
         } else {
          if i < 117 {
           Table::row(1761436800, 7200, 0, "EET")
          } else {
           Table::row(1774742400, 7200, 3600, "EEST")
          }
         }
        } else {
         if i < 120 {
          if i < 119 {
           Table::row(1792886400, 7200, 0, "EET")
          } else {
           Table::row(1806192000, 7200, 3600, "EEST")
          }
         } else {
          if i < 121 {
           Table::row(1824940800, 7200, 0, "EET")
          } else {
           if i < 122 {
            Table::row(1837641600, 7200, 3600, "EEST")
           } else {
            Table::row(1856390400, 7200, 0, "EET")
           }
          }
         }
        }
       }
      } else {
       if i < 132 {
        if i < 127 {
         if i < 125 {
          if i < 124 {
           Table::row(1869091200, 7200, 3600, "EEST")
          } else {
           Table::row(1887840000, 7200, 0, "EET")
          }
         } else {
          if i < 126 {
           Table::row(1901145600, 7200, 3600, "EEST")
          } else {
           Table::row(1919289600, 7200, 0, "EET")
          }
         }
        } else {
         if i < 129 {
          if i < 128 {
           Table::row(1932595200, 7200, 3600, "EEST")
          } else {
           Table::row(1950739200, 7200, 0, "EET")
          }
         } else {
          if i < 130 {
           Table::row(1964044800, 7200, 3600, "EEST")
          } else {
           if i < 131 {
            Table::row(1982793600, 7200, 0, "EET")
           } else {
            Table::row(1995494400, 7200, 3600, "EEST")
           }
          }
         }
        }
       } else {
        if i < 136 {
         if i < 134 {
          if i < 133 {
           Table::row(2014243200, 7200, 0, "EET")
          } else {
           Table::row(2026944000, 7200, 3600, "EEST")
          }
         } else {
          if i < 135 {
           Table::row(2045692800, 7200, 0, "EET")
          } else {
           Table::row(2058393600, 7200, 3600, "EEST")
          }
         }
        } else {
         if i < 138 {
          if i < 137 {
           Table::row(2077142400, 7200, 0, "EET")
          } else {
           Table::row(2090448000, 7200, 3600, "EEST")
          }
         } else {
          if i < 139 {
           Table::row(2108592000, 7200, 0, "EET")
          } else {
           if i < 140 {
            Table::row(2121897600, 7200, 3600, "EEST")
           } else {
            Table::row(2140041600, 7200, 0, "EET")
           }
          }
         }
        }
       }
      }
     }
    }
}

/// The rows of the table of the zone `Europe/Tiraspol`.
pub open spec fn tiraspol_rows() -> spec_fn(int) -> (i64, FixedTimespan) {
    |i: int| tiraspol_row(i)
}

/// The table of the zone `Europe/Tiraspol`.
pub open spec fn tiraspol() -> Table {
    Table::listed(Table::row(0, 6920, 0, "LMT").1, 141, tiraspol_rows())
}

/// Row `i` of the table of the zone `Europe/Ulyanovsk`.
pub open spec fn ulyanovsk_row(i: int) -> (i64, FixedTimespan) {
    if i < 33 {
     if i < 16 {
      if i < 8 {
       if i < 4 {
        if i < 2 {
         if i < 1 {
          Table::row(-1593820800, 10800, 0, "+03")
         } else {
          Table::row(-1247540400, 14400, 0, "+04")
         }
        } else {
         if i < 3 {
          Table::row(354916800, 14400, 3600, "+05")
         } else {
          Table::row(370724400, 14400, 0, "+04")
         }
        }
       } else {
        if i < 6 {
         if i < 5 {
          Table::row(386452800, 14400, 3600, "+05")
         } else {
          Table::row(402260400, 14400, 0, "+04")
         }
        } else {
         if i < 7 {
          Table::row(417988800, 14400, 3600, "+05")
         } else {
          Table::row(433796400, 14400, 0, "+04")
         }
        }
       }
      } else {
       if i < 12 {
        if i < 10 {
         if i < 9 {
          Table::row(449611200, 14400, 3600, "+05")
         } else {
          Table::row(465343200, 14400, 0, "+04")
         }
        } else {
         if i < 11 {
          Table::row(481068000, 14400, 3600, "+05")
         } else {
          Table::row(496792800, 14400, 0, "+04")
         }
        }
       } else {
        if i < 14 {
         if i < 13 {
          Table::row(512517600, 14400, 3600, "+05")
         } else {
          Table::row(528242400, 14400, 0, "+04")
         }
        } else {
         if i < 15 {
          Table::row(543967200, 14400, 3600, "+05")
         } else {
          Table::row(559692000, 14400, 0, "+04")
         }
        }
       }
      }
     } else {
      if i < 24 {
       if i < 20 {
        if i < 18 {
         if i < 17 {
          Table::row(575416800, 14400, 3600, "+05")
         } else {
          Table::row(591141600, 14400, 0, "+04")
         }
        } else {
         if i < 19 {
          Table::row(606866400, 10800, 3600, "+04")
         } else {
          Table::row(622594800, 10800, 0, "+03")
         }
        }
       } else {
        if i < 22 {
         if i < 21 {
          Table::row(638319600, 10800, 3600, "+04")
         } else {
          Table::row(654649200, 10800, 0, "+03")
         }
        } else {
         if i < 23 {
          Table::row(670374000, 7200, 3600, "+03")
         } else {
          Table::row(686102400, 7200, 0, "+02")
         }
        }
       }
      } else {
       if i < 28 {
        if i < 26 {
         if i < 25 {
          Table::row(695779200, 10800, 0, "+03")
         } else {
          Table::row(701823600, 10800, 3600, "+04")
         }
        } else {
         if i < 27 {
          Table::row(717548400, 10800, 0, "+03")
         } else {
          Table::row(733273200, 10800, 3600, "+04")
         }
        }
       } else {
        if i < 30 {
         if i < 29 {
          Table::row(748998000, 10800, 0, "+03")
         } else {
          Table::row(764722800, 10800, 3600, "+04")
         }
        } else {
         if i < 31 {
          Table::row(780447600, 10800, 0, "+03")
         } else {
          if i < 32 {
           Table::row(796172400, 10800, 3600, "+04")
          } else {
           Table::row(811897200, 10800, 0, "+03")
          }
         }
        }
       }
      }
     }
    } else {
     if i < 50 {
      if i < 41 {
       if i < 37 {
        if i < 35 {
         if i < 34 {
          Table::row(828226800, 10800, 3600, "+04")
         } else {
          Table::row(846370800, 10800, 0, "+03")
         }
        } else {
         if i < 36 {
          Table::row(859676400, 10800, 3600, "+04")
         } else {
          Table::row(877820400, 10800, 0, "+03")
         }
        }
       } else {
        if i < 39 {
         if i < 38 {
          Table::row(891126000, 10800, 3600, "+04")
         } else {
          Table::row(909270000, 10800, 0, "+03")
         }
        } else {
         if i < 40 {
          Table::row(922575600, 10800, 3600, "+04")
         } else {
          Table::row(941324400, 10800, 0, "+03")
         }
        }
       }
      } else {
       if i < 45 {
        if i < 43 {
         if i < 42 {
          Table::row(954025200, 10800, 3600, "+04")
         } else {
          Table::row(972774000, 10800, 0, "+03")
         }
        } else {
         if i < 44 {
          Table::row(985474800, 10800, 3600, "+04")
         } else {
          Table::row(1004223600, 10800, 0, "+03")
         }
        }
       } else {
        if i < 47 {
         if i < 46 {
          Table::row(1017529200, 10800, 3600, "+04")
         } else {
          Table::row(1035673200, 10800, 0, "+03")
         }
        } else {
         if i < 48 {
          Table::row(1048978800, 10800, 3600, "+04")
         } else {
          if i < 49 {
           Table::row(1067122800, 10800, 0, "+03")
          } else {
           Table::row(1080428400, 10800, 3600, "+04")
          }
         }
        }
       }
      }
     } else {
      if i < 58 {
       if i < 54 {
        if i < 52 {
         if i < 51 {
          Table::row(1099177200, 10800, 0, "+03")
         } else {
          Table::row(1111878000, 10800, 3600, "+04")
         }
        } else {
         if i < 53 {
          Table::row(1130626800, 10800, 0, "+03")
         } else {
          Table::row(1143327600, 10800, 3600, "+04")
         }
        }
       } else {
        if i < 56 {
         if i < 55 {
          Table::row(1162076400, 10800, 0, "+03")
         } else {
          Table::row(1174777200, 10800, 3600, "+04")
         }
        } else {
         if i < 57 {
          Table::row(1193526000, 10800, 0, "+03")
         } else {
          Table::row(1206831600, 10800, 3600, "+04")
         }
        }
       }
      } else {
       if i < 62 {
        if i < 60 {
         if i < 59 {
          Table::row(1224975600, 10800, 0, "+03")
         } else {
          Table::row(1238281200, 10800, 3600, "+04")
         }
        } else {
         if i < 61 {
          Table::row(1256425200, 10800, 0, "+03")
         } else {
          Table::row(1269730800, 10800, 3600, "+04")
         }
        }
       } else {
        if i < 64 {
         if i < 63 {
          Table::row(1288479600, 10800, 0, "+03")
         } else {
          Table::row(1301180400, 14400, 0, "+04")
         }
        } else {
         if i < 65 {
          Table::row(1414274400, 10800, 0, "+03")
         } else {
          if i < 66 {
           Table::row(1459033200, 14400, 0, "+04")
          } else {
           Table::row(2147483647, 14400, 0, "+04")
          }
         }
        }
       }
      }
     }
    }
}

/// The rows of the table of the zone `Europe/Ulyanovsk`.
pub open spec fn ulyanovsk_rows() -> spec_fn(int) -> (i64, FixedTimespan) {
    |i: int| ulyanovsk_row(i)
}

/// The table of the zone `Europe/Ulyanovsk`.
pub open spec fn ulyanovsk() -> Table {
    Table::listed(Table::row(0, 11616, 0, "LMT").1, 67, ulyanovsk_rows())
}

/// Row `i` of the table of the zone `Europe/Uzhgorod`.
pub open spec fn uzhgorod_row(i: int) -> (i64, FixedTimespan) {
    if i < 60 {
     if i < 30 {
      if i < 15 {
       if i < 7 {
        if i < 3 {
         if i < 1 {
          Table::row(-2840148124, 7324, 0, "KMT")
         } else {
          if i < 2 {
           Table::row(-1441159324, 7200, 0, "EET")
          } else {
           Table::row(-1247536800, 10800, 0, "MSK")
          }
         }
        } else {
         if i < 5 {
          if i < 4 {
           Table::row(-892522800, 3600, 3600, "CEST")
          } else {
           Table::row(-857257200, 3600, 0, "CET")
          }
         } else {
          if i < 6 {
           Table::row(-844556400, 3600, 3600, "CEST")
          } else {
           Table::row(-828226800, 3600, 0, "CET")
          }
         }
        }
       } else {
        if i < 11 {
         if i < 9 {
          if i < 8 {
           Table::row(-825382800, 10800, 0, "MSK")
          } else {
           Table::row(354920400, 10800, 3600, "MSD")
          }
         } else {
          if i < 10 {
           Table::row(370728000, 10800, 0, "MSK")
          } else {
           Table::row(386456400, 10800, 3600, "MSD")
          }
         }
        } else {
         if i < 13 {
          if i < 12 {
           Table::row(402264000, 10800, 0, "MSK")
          } else {
           Table::row(417992400, 10800, 3600, "MSD")
          }
         } else {
          if i < 14 {
           Table::row(433800000, 10800, 0, "MSK")
          } else {
           Table::row(449614800, 10800, 3600, "MSD")
          }
         }
        }
       }
      } else {
       if i < 22 {
        if i < 18 {
         if i < 16 {
          Table::row(465346800, 10800, 0, "MSK")
         } else {
          if i < 17 {
           Table::row(481071600, 10800, 3600, "MSD")
          } else {
           Table::row(496796400, 10800, 0, "MSK")
          }
         }
        } else {
         if i < 20 {
          if i < 19 {
           Table::row(512521200, 10800, 3600, "MSD")
          } else {
           Table::row(528246000, 10800, 0, "MSK")
          }
         } else {
          if i < 21 {
           Table::row(543970800, 10800, 3600, "MSD")
          } else {
           Table::row(559695600, 10800, 0, "MSK")
          }
         }
        }
       } else {
        if i < 26 {
         if i < 24 {
          if i < 23 {
           Table::row(575420400, 10800, 3600, "MSD")
          } else {
           Table::row(591145200, 10800, 0, "MSK")
          }
         } else {
          if i < 25 {
           Table::row(606870000, 10800, 3600, "MSD")
          } else {
           Table::row(622594800, 10800, 0, "MSK")
          }
         }
        } else {
         if i < 28 {
          if i < 27 {
           Table::row(638319600, 10800, 3600, "MSD")
          } else {
           Table::row(646783200, 7200, 3600, "EEST")
          }
         } else {
          if i < 29 {
           Table::row(686102400, 7200, 0, "EET")
          } else {
           Table::row(701827200, 7200, 3600, "EEST")
          }
         }
        }
       }
      }
     } else {
      if i < 45 {
       if i < 37 {
        if i < 33 {
         if i < 31 {
          Table::row(717552000, 7200, 0, "EET")
         } else {
          if i < 32 {
           Table::row(733276800, 7200, 3600, "EEST")
          } else {
           Table::row(749001600, 7200, 0, "EET")
          }
         }
        } else {
         if i < 35 {
          if i < 34 {
           Table::row(764726400, 7200, 3600, "EEST")
          } else {
           Table::row(780451200, 7200, 0, "EET")
          }
         } else {
          if i < 36 {
           Table::row(796176000, 7200, 3600, "EEST")
          } else {
           Table::row(811900800, 7200, 0, "EET")
          }
         }
        }
       } else {
        if i < 41 {
         if i < 39 {
          if i < 38 {
           Table::row(828230400, 7200, 3600, "EEST")
          } else {
           Table::row(846378000, 7200, 0, "EET")
          }
         } else {
          if i < 40 {
           Table::row(859683600, 7200, 3600, "EEST")
          } else {
           Table::row(877827600, 7200, 0, "EET")
          }
         }
        } else {
         if i < 43 {
          if i < 42 {
           Table::row(891133200, 7200, 3600, "EEST")
          } else {
           Table::row(909277200, 7200, 0, "EET")
          }
         } else {
          if i < 44 {
           Table::row(922582800, 7200, 3600, "EEST")
          } else {
           Table::row(941331600, 7200, 0, "EET")
          }
         }
        }
       }
      } else {
       if i < 52 {
        if i < 48 {
         if i < 46 {
          Table::row(954032400, 7200, 3600, "EEST")
         } else {
          if i < 47 {
           Table::row(972781200, 7200, 0, "EET")
          } else {
           Table::row(985482000, 7200, 3600, "EEST")
          }
         }
        } else {
         if i < 50 {
          if i < 49 {
           Table::row(1004230800, 7200, 0, "EET")
          } else {
           Table::row(1017536400, 7200, 3600, "EEST")
          }
         } else {
          if i < 51 {
           Table::row(1035680400, 7200, 0, "EET")
          } else {
           Table::row(1048986000, 7200, 3600, "EEST")
          }
         }
        }
       } else {
        if i < 56 {
         if i < 54 {
          if i < 53 {
           Table::row(1067130000, 7200, 0, "EET")
          } else {
           Table::row(1080435600, 7200, 3600, "EEST")
          }
         } else {
          if i < 55 {
           Table::row(1099184400, 7200, 0, "EET")
          } else {
           Table::row(1111885200, 7200, 3600, "EEST")
          }
         }
        } else {
         if i < 58 {
          if i < 57 {
           Table::row(1130634000, 7200, 0, "EET")
          } else {
           Table::row(1143334800, 7200, 3600, "EEST")
          }
         } else {
          if i < 59 {
           Table::row(1162083600, 7200, 0, "EET")
          } else {
           Table::row(1174784400, 7200, 3600, "EEST")
          }
         }
        }
       }
      }
     }
    } else {
     if i < 90 {
      if i < 75 {
       if i < 67 {
        if i < 63 {
         if i < 61 {
          Table::row(1193533200, 7200, 0, "EET")
         } else {
          if i < 62 {
           Table::row(1206838800, 7200, 3600, "EEST")
          } else {
           Table::row(1224982800, 7200, 0, "EET")
          }
         }
        } else {
         if i < 65 {
          if i < 64 {
           Table::row(1238288400, 7200, 3600, "EEST")
          } else {
           Table::row(1256432400, 7200, 0, "EET")
          }
         } else {
          if i < 66 {
           Table::row(1269738000, 7200, 3600, "EEST")
          } else {
           Table::row(1288486800, 7200, 0, "EET")
          }
         }
        }
       } else {
        if i < 71 {
         if i < 69 {
          if i < 68 {
           Table::row(1301187600, 7200, 3600, "EEST")
          } else {
           Table::row(1319936400, 7200, 0, "EET")
          }
         } else {
          if i < 70 {
           Table::row(1332637200, 7200, 3600, "EEST")
          } else {
           Table::row(1351386000, 7200, 0, "EET")
          }
         }
        } else {
         if i < 73 {
          if i < 72 {
           Table::row(1364691600, 7200, 3600, "EEST")
          } else {
           Table::row(1382835600, 7200, 0, "EET")
          }
         } else {
          if i < 74 {
           Table::row(1396141200, 7200, 3600, "EEST")
          } else {
           Table::row(1414285200, 7200, 0, "EET")
          }
         }
        }
       }
      } else {
       if i < 82 {
        if i < 78 {
         if i < 76 {
          Table::row(1427590800, 7200, 3600, "EEST")
         } else {
          if i < 77 {
           Table::row(1445734800, 7200, 0, "EET")
          } else {
           Table::row(1459040400, 7200, 3600, "EEST")
          }
         }
        } else {
         if i < 80 {
          if i < 79 {
           Table::row(1477789200, 7200, 0, "EET")
          } else {
           Table::row(1490490000, 7200, 3600, "EEST")
          }
         } else {
          if i < 81 {
           Table::row(1509238800, 7200, 0, "EET")
          } else {
           Table::row(1521939600, 7200, 3600, "EEST")
          }
         }
        }
       } else {
        if i < 86 {
         if i < 84 {
          if i < 83 {
           Table::row(1540688400, 7200, 0, "EET")
          } else {
           Table::row(1553994000, 7200, 3600, "EEST")
          }
         } else {
          if i < 85 {
           Table::row(1572138000, 7200, 0, "EET")
          } else {
           Table::row(1585443600, 7200, 3600, "EEST")
          }
         }
        } else {
         if i < 88 {
          if i < 87 {
           Table::row(1603587600, 7200, 0, "EET")
          } else {
           Table::row(1616893200, 7200, 3600, "EEST")
          }
         } else {
          if i < 89 {
           Table::row(1635642000, 7200, 0, "EET")
          } else {
           Table::row(1648342800, 7200, 3600, "EEST")
          }
         }
        }
       }
      }
     } else {
      if i < 105 {
       if i < 97 {
        if i < 93 {
         if i < 91 {
          Table::row(1667091600, 7200, 0, "EET")
         } else {
          if i < 92 {
           Table::row(1679792400, 7200, 3600, "EEST")
          } else {
           Table::row(1698541200, 7200, 0, "EET")
          }
         }
        } else {
         if i < 95 {
          if i < 94 {
           Table::row(1711846800, 7200, 3600, "EEST")
          } else {
           Table::row(1729990800, 7200, 0, "EET")
          }
         } else {
          if i < 96 {
           Table::row(1743296400, 7200, 3600, "EEST")
          } else {
           Table::row(1761440400, 7200, 0, "EET")
          }
         }
        }
       } else {
        if i < 101 {
         if i < 99 {
          if i < 98 {
           Table::row(1774746000, 7200, 3600, "EEST")
          } else {
           Table::row(1792890000, 7200, 0, "EET")
          }
         } else {
          if i < 100 {
           Table::row(1806195600, 7200, 3600, "EEST")
          } else {
           Table::row(1824944400, 7200, 0, "EET")
          }
         }
        } else {
         if i < 103 {
          if i < 102 {
           Table::row(1837645200, 7200, 3600, "EEST")
          } else {
           Table::row(1856394000, 7200, 0, "EET")
          }
         } else {
          if i < 104 {
           Table::row(1869094800, 7200, 3600, "EEST")
          } else {
           Table::row(1887843600, 7200, 0, "EET")
          }
         }
        }
       }
      } else {
       if i < 113 {
        if i < 109 {
         if i < 107 {
          if i < 106 {
           Table::row(1901149200, 7200, 3600, "EEST")
          } else {
           Table::row(1919293200, 7200, 0, "EET")
          }
         } else {
          if i < 108 {
           Table::row(1932598800, 7200, 3600, "EEST")
          } else {
           Table::row(1950742800, 7200, 0, "EET")
          }
         }
        } else {
         if i < 111 {
          if i < 110 {
           Table::row(1964048400, 7200, 3600, "EEST")
          } else {
           Table::row(1982797200, 7200, 0, "EET")
          }
         } else {
          if i < 112 {
           Table::row(1995498000, 7200, 3600, "EEST")
          } else {
           Table::row(2014246800, 7200, 0, "EET")
          }
         }
        }
       } else {
        if i < 117 {
         if i < 115 {
          if i < 114 {
           Table::row(2026947600, 7200, 3600, "EEST")
          } else {
           Table::row(2045696400, 7200, 0, "EET")
          }
         } else {
          if i < 116 {
           Table::row(2058397200, 7200, 3600, "EEST")
          } else {
           Table::row(2077146000, 7200, 0, "EET")
          }
         }
        } else {
         if i < 119 {
          if i < 118 {
           Table::row(2090451600, 7200, 3600, "EEST")
          } else {
           Table::row(2108595600, 7200, 0, "EET")
          }
         } else {
          if i < 120 {
           Table::row(2121901200, 7200, 3600, "EEST")
          } else {
           Table::row(2140045200, 7200, 0, "EET")
          }
         }
        }
       }
      }
     }
    }
}

/// The rows of the table of the zone `Europe/Uzhgorod`.
pub open spec fn uzhgorod_rows() -> spec_fn(int) -> (i64, FixedTimespan) {
    |i: int| uzhgorod_row(i)
}

/// The table of the zone `Europe/Uzhgorod`.
pub open spec fn uzhgorod() -> Table {
    Table::listed(Table::row(0, 7324, 0, "LMT").1, 121, uzhgorod_rows())
}

/// Row `i` of the table of the zone `Europe/Vaduz`.
pub open spec fn vaduz_row(i: int) -> (i64, FixedTimespan) {
    if i < 59 {
     if i < 29 {
      if i < 14 {
       if i < 7 {
        if i < 3 {
         if i < 1 {
          Table::row(-2385247084, 3600, 0, "CET")
         } else {
          if i < 2 {
           Table::row(-904435200, 3600, 3600, "CEST")
          } else {
           Table::row(-891129600, 3600, 0, "CET")
          }
         }
        } else {
         if i < 5 {
          if i < 4 {
           Table::row(-872985600, 3600, 3600, "CEST")
          } else {
           Table::row(-859680000, 3600, 0, "CET")
          }
         } else {
          if i < 6 {
           Table::row(354675600, 3600, 3600, "CEST")
          } else {
           Table::row(370400400, 3600, 0, "CET")
          }
         }
        }
       } else {
        if i < 10 {
         if i < 8 {
          Table::row(386125200, 3600, 3600, "CEST")
         } else {
          if i < 9 {
           Table::row(401850000, 3600, 0, "CET")
          } else {
           Table::row(417574800, 3600, 3600, "CEST")
          }
         }
        } else {
         if i < 12 {
          if i < 11 {
           Table::row(433299600, 3600, 0, "CET")
          } else {
           Table::row(449024400, 3600, 3600, "CEST")
          }
         } else {
          if i < 13 {
           Table::row(465354000, 3600, 0, "CET")
          } else {
           Table::row(481078800, 3600, 3600, "CEST")
          }
         }
        }
       }
      } else {
       if i < 21 {
        if i < 17 {
         if i < 15 {
          Table::row(496803600, 3600, 0, "CET")
         } else {
          if i < 16 {
           Table::row(512528400, 3600, 3600, "CEST")
          } else {
           Table::row(528253200, 3600, 0, "CET")
          }
         }
        } else {
         if i < 19 {
          if i < 18 {
           Table::row(543978000, 3600, 3600, "CEST")
          } else {
           Table::row(559702800, 3600, 0, "CET")
          }
         } else {
          if i < 20 {
           Table::row(575427600, 3600, 3600, "CEST")
          } else {
           Table::row(591152400, 3600, 0, "CET")
          }
         }
        }
       } else {
        if i < 25 {
         if i < 23 {
          if i < 22 {
           Table::row(606877200, 3600, 3600, "CEST")
          } else {
           Table::row(622602000, 3600, 0, "CET")
          }
         } else {
          if i < 24 {
           Table::row(638326800, 3600, 3600, "CEST")
          } else {
           Table::row(654656400, 3600, 0, "CET")
          }
         }
        } else {
         if i < 27 {
          if i < 26 {
           Table::row(670381200, 3600, 3600, "CEST")
          } else {
           Table::row(686106000, 3600, 0, "CET")
          }
         } else {
          if i < 28 {
           Table::row(701830800, 3600, 3600, "CEST")
          } else {
           Table::row(717555600, 3600, 0, "CET")
          }
         }
        }
       }
      }
     } else {
      if i < 44 {
       if i < 36 {
        if i < 32 {
         if i < 30 {
          Table::row(733280400, 3600, 3600, "CEST")
         } else {
          if i < 31 {
           Table::row(749005200, 3600, 0, "CET")
          } else {
           Table::row(764730000, 3600, 3600, "CEST")
          }
         }
        } else {
         if i < 34 {
          if i < 33 {
           Table::row(780454800, 3600, 0, "CET")
          } else {
           Table::row(796179600, 3600, 3600, "CEST")
          }
         } else {
          if i < 35 {
           Table::row(811904400, 3600, 0, "CET")
          } else {
           Table::row(828234000, 3600, 3600, "CEST")
          }
         }
        }
       } else {
        if i < 40 {
         if i < 38 {
          if i < 37 {
           Table::row(846378000, 3600, 0, "CET")
          } else {
           Table::row(859683600, 3600, 3600, "CEST")
          }
         } else {
          if i < 39 {
           Table::row(877827600, 3600, 0, "CET")
          } else {
           Table::row(891133200, 3600, 3600, "CEST")
          }
         }
        } else {
         if i < 42 {
          if i < 41 {
           Table::row(909277200, 3600, 0, "CET")
          } else {
           Table::row(922582800, 3600, 3600, "CEST")
          }
         } else {
          if i < 43 {
           Table::row(941331600, 3600, 0, "CET")
          } else {
           Table::row(954032400, 3600, 3600, "CEST")
          }
         }
        }
       }
      } else {
       if i < 51 {
        if i < 47 {
         if i < 45 {
          Table::row(972781200, 3600, 0, "CET")
         } else {
          if i < 46 {
           Table::row(985482000, 3600, 3600, "CEST")
          } else {
           Table::row(1004230800, 3600, 0, "CET")
          }
         }
        } else {
         if i < 49 {
          if i < 48 {
           Table::row(1017536400, 3600, 3600, "CEST")
          } else {
           Table::row(1035680400, 3600, 0, "CET")
          }
         } else {
          if i < 50 {
           Table::row(1048986000, 3600, 3600, "CEST")
          } else {
           Table::row(1067130000, 3600, 0, "CET")
          }
         }
        }
       } else {
        if i < 55 {
         if i < 53 {
          if i < 52 {
           Table::row(1080435600, 3600, 3600, "CEST")
          } else {
           Table::row(1099184400, 3600, 0, "CET")
          }
         } else {
          if i < 54 {
           Table::row(1111885200, 3600, 3600, "CEST")
          } else {
           Table::row(1130634000, 3600, 0, "CET")
          }
         }
        } else {
         if i < 57 {
          if i < 56 {
           Table::row(1143334800, 3600, 3600, "CEST")
          } else {
           Table::row(1162083600, 3600, 0, "CET")
          }
         } else {
          if i < 58 {
           Table::row(1174784400, 3600, 3600, "CEST")
          } else {
           Table::row(1193533200, 3600, 0, "CET")
          }
         }
        }
       }
      }
     }
    } else {
     if i < 89 {
      if i < 74 {
       if i < 66 {
        if i < 62 {
         if i < 60 {
          Table::row(1206838800, 3600, 3600, "CEST")
         } else {
          if i < 61 {
           Table::row(1224982800, 3600, 0, "CET")
          } else {
           Table::row(1238288400, 3600, 3600, "CEST")
          }
         }
        } else {
         if i < 64 {
          if i < 63 {
           Table::row(1256432400, 3600, 0, "CET")
          } else {
           Table::row(1269738000, 3600, 3600, "CEST")
          }
         } else {
          if i < 65 {
           Table::row(1288486800, 3600, 0, "CET")
          } else {
           Table::row(1301187600, 3600, 3600, "CEST")
          }
         }
        }
       } else {
        if i < 70 {
         if i < 68 {
          if i < 67 {
           Table::row(1319936400, 3600, 0, "CET")
          } else {
           Table::row(1332637200, 3600, 3600, "CEST")
          }
         } else {
          if i < 69 {
           Table::row(1351386000, 3600, 0, "CET")
          } else {
           Table::row(1364691600, 3600, 3600, "CEST")
          }
         }
        } else {
         if i < 72 {
          if i < 71 {
           Table::row(1382835600, 3600, 0, "CET")
          } else {
           Table::row(1396141200, 3600, 3600, "CEST")
          }
         } else {
          if i < 73 {
           Table::row(1414285200, 3600, 0, "CET")
          } else {
           Table::row(1427590800, 3600, 3600, "CEST")
          }
         }
        }
       }
      } else {
       if i < 81 {
        if i < 77 {
         if i < 75 {
          Table::row(1445734800, 3600, 0, "CET")
         } else {
          if i < 76 {
           Table::row(1459040400, 3600, 3600, "CEST")
          } else {
           Table::row(1477789200, 3600, 0, "CET")
          }
         }
        } else {
         if i < 79 {
          if i < 78 {
           Table::row(1490490000, 3600, 3600, "CEST")
          } else {
           Table::row(1509238800, 3600, 0, "CET")
          }
         } else {
          if i < 80 {
           Table::row(1521939600, 3600, 3600, "CEST")
          } else {
           Table::row(1540688400, 3600, 0, "CET")
          }
         }
        }
       } else {
        if i < 85 {
         if i < 83 {
          if i < 82 {
           Table::row(1553994000, 3600, 3600, "CEST")
          } else {
           Table::row(1572138000, 3600, 0, "CET")
          }
         } else {
          if i < 84 {
           Table::row(1585443600, 3600, 3600, "CEST")
          } else {
           Table::row(1603587600, 3600, 0, "CET")
          }
         }
        } else {
         if i < 87 {
          if i < 86 {
           Table::row(1616893200, 3600, 3600, "CEST")
          } else {
           Table::row(1635642000, 3600, 0, "CET")
          }
         } else {
          if i < 88 {
           Table::row(1648342800, 3600, 3600, "CEST")
          } else {
           Table::row(1667091600, 3600, 0, "CET")
          }
         }
        }
       }
      }
     } else {
      if i < 104 {
       if i < 96 {
        if i < 92 {
         if i < 90 {
          Table::row(1679792400, 3600, 3600, "CEST")
         } else {
          if i < 91 {
           Table::row(1698541200, 3600, 0, "CET")
          } else {
           Table::row(1711846800, 3600, 3600, "CEST")
          }
         }
        } else {
         if i < 94 {
          if i < 93 {
           Table::row(1729990800, 3600, 0, "CET")
          } else {
           Table::row(1743296400, 3600, 3600, "CEST")
          }
         } else {
          if i < 95 {
           Table::row(1761440400, 3600, 0, "CET")
          } else {
           Table::row(1774746000, 3600, 3600, "CEST")
          }
         }
        }
       } else {
        if i < 100 {
         if i < 98 {
          if i < 97 {
           Table::row(1792890000, 3600, 0, "CET")
          } else {
           Table::row(1806195600, 3600, 3600, "CEST")
          }
         } else {
          if i < 99 {
           Table::row(1824944400, 3600, 0, "CET")
          } else {
           Table::row(1837645200, 3600, 3600, "CEST")
          }
         }
        } else {
         if i < 102 {
          if i < 101 {
           Table::row(1856394000, 3600, 0, "CET")
          } else {
           Table::row(1869094800, 3600, 3600, "CEST")
          }
         } else {
          if i < 103 {
           Table::row(1887843600, 3600, 0, "CET")
          } else {
           Table::row(1901149200, 3600, 3600, "CEST")
          }
         }
        }
       }
      } else {
       if i < 111 {
        if i < 107 {
         if i < 105 {
          Table::row(1919293200, 3600, 0, "CET")
         } else {
          if i < 106 {
           Table::row(1932598800, 3600, 3600, "CEST")
          } else {
           Table::row(1950742800, 3600, 0, "CET")
          }
         }
        } else {
         if i < 109 {
          if i < 108 {
           Table::row(1964048400, 3600, 3600, "CEST")
          } else {
           Table::row(1982797200, 3600, 0, "CET")
          }
         } else {
          if i < 110 {
           Table::row(1995498000, 3600, 3600, "CEST")
          } else {
           Table::row(2014246800, 3600, 0, "CET")
          }
         }
        }
       } else {
        if i < 115 {
         if i < 113 {
          if i < 112 {
           Table::row(2026947600, 3600, 3600, "CEST")
          } else {
           Table::row(2045696400, 3600, 0, "CET")
          }
         } else {
          if i < 114 {
           Table::row(2058397200, 3600, 3600, "CEST")
          } else {
           Table::row(2077146000, 3600, 0, "CET")
          }
         }
        } else {
         if i < 117 {
          if i < 116 {
           Table::row(2090451600, 3600, 3600, "CEST")
          } else {
           Table::row(2108595600, 3600, 0, "CET")
          }
         } else {
          if i < 118 {
           Table::row(2121901200, 3600, 3600, "CEST")
          } else {
           Table::row(2140045200, 3600, 0, "CET")
          }
         }
        }
       }
      }
     }
    }
}

/// The rows of the table of the zone `Europe/Vaduz`.
pub open spec fn vaduz_rows() -> spec_fn(int) -> (i64, FixedTimespan) {
    |i: int| vaduz_row(i)
}

/// The table of the zone `Europe/Vaduz`.
pub open spec fn vaduz() -> Table {
    Table::listed(Table::row(0, 2284, 0, "LMT").1, 119, vaduz_rows())
}

/// Row `i` of the table of the zone `Europe/Vatican`.
pub open spec fn vatican_row(i: int) -> (i64, FixedTimespan) {
    if i < 85 {
     if i < 42 {
      if i < 21 {
       if i < 10 {
        if i < 5 {
         if i < 2 {
          if i < 1 {
           Table::row(-3252098996, 2996, 0, "RMT")
          } else {
           Table::row(-2403565200, 3600, 0, "CET")
          }
         } else {
          if i < 3 {
           Table::row(-1690765200, 3600, 3600, "CEST")
          } else {
           if i < 4 {
            Table::row(-1680487200, 3600, 0, "CET")
           } else {
            Table::row(-1664758800, 3600, 3600, "CEST")
           }
          }
         }
        } else {
         if i < 7 {
          if i < 6 {
           Table::row(-1648951200, 3600, 0, "CET")
          } else {
           Table::row(-1635123600, 3600, 3600, "CEST")
          }
         } else {
          if i < 8 {
           Table::row(-1616896800, 3600, 0, "CET")
          } else {
           if i < 9 {
            Table::row(-1604278800, 3600, 3600, "CEST")
           } else {
            Table::row(-1585533600, 3600, 0, "CET")
           }
          }
         }
        }
       } else {
        if i < 15 {
         if i < 12 {
          if i < 11 {
           Table::row(-1571014800, 3600, 3600, "CEST")
          } else {
           Table::row(-1555293600, 3600, 0, "CET")
          }
         } else {
          if i < 13 {
           Table::row(-932432400, 3600, 3600, "CEST")
          } else {
           if i < 14 {
            Table::row(-857257200, 3600, 0, "CET")
           } else {
            Table::row(-844556400, 3600, 3600, "CEST")
           }
          }
         }
        } else {
         if i < 18 {
          if i < 16 {
           Table::row(-828226800, 3600, 0, "CET")
          } else {
           if i < 17 {
            Table::row(-812502000, 3600, 3600, "CEST")
           } else {
            Table::row(-798073200, 3600, 0, "CET")
           }
          }
         } else {
          if i < 19 {
           Table::row(-781052400, 3600, 3600, "CEST")
          } else {
           if i < 20 {
            Table::row(-766717200, 3600, 0, "CET")
           } else {
            Table::row(-750898800, 3600, 3600, "CEST")
           }
          }
         }
        }
       }
      } else {
       if i < 31 {
        if i < 26 {
         if i < 23 {
          if i < 22 {
           Table::row(-733359600, 3600, 0, "CET")
          } else {
           Table::row(-719456400, 3600, 3600, "CEST")
          }
         } else {
          if i < 24 {
           Table::row(-701917200, 3600, 0, "CET")
          } else {
           if i < 25 {
            Table::row(-689209200, 3600, 3600, "CEST")
           } else {
            Table::row(-670460400, 3600, 0, "CET")
           }
          }
         }
        } else {
         if i < 28 {
          if i < 27 {
           Table::row(-114051600, 3600, 3600, "CEST")
          } else {
           Table::row(-103168800, 3600, 0, "CET")
          }
         } else {
          if i < 29 {
           Table::row(-81997200, 3600, 3600, "CEST")
          } else {
           if i < 30 {
            Table::row(-71715600, 3600, 0, "CET")
           } else {
            Table::row(-50547600, 3600, 3600, "CEST")
           }
          }
         }
        }
       } else {
        if i < 36 {
         if i < 33 {
          if i < 32 {
           Table::row(-40266000, 3600, 0, "CET")
          } else {
           Table::row(-18493200, 3600, 3600, "CEST")
          }
         } else {
          if i < 34 {
           Table::row(-8211600, 3600, 0, "CET")
          } else {
           if i < 35 {
            Table::row(12956400, 3600, 3600, "CEST")
           } else {
            Table::row(23238000, 3600, 0, "CET")
           }
          }
         }
        } else {
         if i < 39 {
          if i < 37 {
           Table::row(43801200, 3600, 3600, "CEST")
          } else {
           if i < 38 {
            Table::row(54687600, 3600, 0, "CET")
           } else {
            Table::row(75855600, 3600, 3600, "CEST")
           }
          }
         } else {
          if i < 40 {
           Table::row(86742000, 3600, 0, "CET")
          } else {
           if i < 41 {
            Table::row(107910000, 3600, 3600, "CEST")
           } else {
            Table::row(118191600, 3600, 0, "CET")
           }
          }
         }
        }
       }
      }
     } else {
      if i < 63 {
       if i < 52 {
        if i < 47 {
         if i < 44 {
          if i < 43 {
           Table::row(138754800, 3600, 3600, "CEST")
          } else {
           Table::row(149641200, 3600, 0, "CET")
          }
         } else {
          if i < 45 {
           Table::row(170809200, 3600, 3600, "CEST")
          } else {
           if i < 46 {
            Table::row(181090800, 3600, 0, "CET")
           } else {
            Table::row(202258800, 3600, 3600, "CEST")
           }
          }
         }
        } else {
         if i < 49 {
          if i < 48 {
           Table::row(212540400, 3600, 0, "CET")
          } else {
           Table::row(233103600, 3600, 3600, "CEST")
          }
         } else {
          if i < 50 {
           Table::row(243990000, 3600, 0, "CET")
          } else {
           if i < 51 {
            Table::row(265158000, 3600, 3600, "CEST")
           } else {
            Table::row(276044400, 3600, 0, "CET")
           }
          }
         }
        }
       } else {
        if i < 57 {
         if i < 54 {
          if i < 53 {
           Table::row(296607600, 3600, 3600, "CEST")
          } else {
           Table::row(307494000, 3600, 0, "CET")
          }
         } else {
          if i < 55 {
           Table::row(323830800, 3600, 3600, "CEST")
          } else {
           if i < 56 {
            Table::row(338950800, 3600, 0, "CET")
           } else {
            Table::row(354675600, 3600, 3600, "CEST")
           }
          }
         }
        } else {
         if i < 60 {
          if i < 58 {
           Table::row(370400400, 3600, 0, "CET")
          } else {
           if i < 59 {
            Table::row(386125200, 3600, 3600, "CEST")
           } else {
            Table::row(401850000, 3600, 0, "CET")
           }
          }
         } else {
          if i < 61 {
           Table::row(417574800, 3600, 3600, "CEST")
          } else {
           if i < 62 {
            Table::row(433299600, 3600, 0, "CET")
           } else {
            Table::row(449024400, 3600, 3600, "CEST")
           }
          }
         }
        }
       }
      } else {
       if i < 74 {
        if i < 68 {
         if i < 65 {
          if i < 64 {
           Table::row(465354000, 3600, 0, "CET")
          } else {
           Table::row(481078800, 3600, 3600, "CEST")
          }
         } else {
          if i < 66 {
           Table::row(496803600, 3600, 0, "CET")
          } else {
           if i < 67 {
            Table::row(512528400, 3600, 3600, "CEST")
           } else {
            Table::row(528253200, 3600, 0, "CET")
           }
          }
         }
        } else {
         if i < 71 {
          if i < 69 {
           Table::row(543978000, 3600, 3600, "CEST")
          } else {
           if i < 70 {
            Table::row(559702800, 3600, 0, "CET")
           } else {
            Table::row(575427600, 3600, 3600, "CEST")
           }
          }
         } else {
          if i < 72 {
           Table::row(591152400, 3600, 0, "CET")
          } else {
           if i < 73 {
            Table::row(606877200, 3600, 3600, "CEST")
           } else {
            Table::row(622602000, 3600, 0, "CET")
           }
          }
         }
        }
       } else {
        if i < 79 {
         if i < 76 {
          if i < 75 {
           Table::row(638326800, 3600, 3600, "CEST")
          } else {
           Table::row(654656400, 3600, 0, "CET")
          }
         } else {
          if i < 77 {
           Table::row(670381200, 3600, 3600, "CEST")
          } else {
           if i < 78 {
            Table::row(686106000, 3600, 0, "CET")
           } else {
            Table::row(701830800, 3600, 3600, "CEST")
           }
          }
         }
        } else {
         if i < 82 {
          if i < 80 {
           Table::row(717555600, 3600, 0, "CET")
          } else {
           if i < 81 {
            Table::row(733280400, 3600, 3600, "CEST")
           } else {
            Table::row(749005200, 3600, 0, "CET")
           }
          }
         } else {
          if i < 83 {
           Table::row(764730000, 3600, 3600, "CEST")
          } else {
           if i < 84 {
            Table::row(780454800, 3600, 0, "CET")
           } else {
            Table::row(796179600, 3600, 3600, "CEST")
           }
          }
         }
        }
       }
      }
     }
    } else {
     if i < 127 {
      if i < 106 {
       if i < 95 {
        if i < 90 {
         if i < 87 {
          if i < 86 {
           Table::row(811904400, 3600, 0, "CET")
          } else {
           Table::row(828234000, 3600, 3600, "CEST")
          }
         } else {
          if i < 88 {
           Table::row(846378000, 3600, 0, "CET")
          } else {
           if i < 89 {
            Table::row(859683600, 3600, 3600, "CEST")
           } else {
            Table::row(877827600, 3600, 0, "CET")
           }
          }
         }
        } else {
         if i < 92 {
          if i < 91 {
           Table::row(891133200, 3600, 3600, "CEST")
          } else {
           Table::row(909277200, 3600, 0, "CET")
          }
         } else {
          if i < 93 {
           Table::row(922582800, 3600, 3600, "CEST")
          } else {
           if i < 94 {
            Table::row(941331600, 3600, 0, "CET")
           } else {
            Table::row(954032400, 3600, 3600, "CEST")
           }
          }
         }
        }
       } else {
        if i < 100 {
         if i < 97 {
          if i < 96 {
           Table::row(972781200, 3600, 0, "CET")
          } else {
           Table::row(985482000, 3600, 3600, "CEST")
          }
         } else {
          if i < 98 {
           Table::row(1004230800, 3600, 0, "CET")
          } else {
           if i < 99 {
            Table::row(1017536400, 3600, 3600, "CEST")
           } else {
            Table::row(1035680400, 3600, 0, "CET")
           }
          }
         }
        } else {
         if i < 103 {
          if i < 101 {
           Table::row(1048986000, 3600, 3600, "CEST")
          } else {
           if i < 102 {
            Table::row(1067130000, 3600, 0, "CET")
           } else {
            Table::row(1080435600, 3600, 3600, "CEST")
           }
          }
         } else {
          if i < 104 {
           Table::row(1099184400, 3600, 0, "CET")
          } else {
           if i < 105 {
            Table::row(1111885200, 3600, 3600, "CEST")
           } else {
            Table::row(1130634000, 3600, 0, "CET")
           }
          }
         }
        }
       }
      } else {
       if i < 116 {
        if i < 111 {
         if i < 108 {
          if i < 107 {
           Table::row(1143334800, 3600, 3600, "CEST")
          } else {
           Table::row(1162083600, 3600, 0, "CET")
          }
         } else {
          if i < 109 {
           Table::row(1174784400, 3600, 3600, "CEST")
          } else {
           if i < 110 {
            Table::row(1193533200, 3600, 0, "CET")
           } else {
            Table::row(1206838800, 3600, 3600, "CEST")
           }
          }
         }
        } else {
         if i < 113 {
          if i < 112 {
           Table::row(1224982800, 3600, 0, "CET")
          } else {
           Table::row(1238288400, 3600, 3600, "CEST")
          }
         } else {
          if i < 114 {
           Table::row(1256432400, 3600, 0, "CET")
          } else {
           if i < 115 {
            Table::row(1269738000, 3600, 3600, "CEST")
           } else {
            Table::row(1288486800, 3600, 0, "CET")
           }
          }
         }
        }
       } else {
        if i < 121 {
         if i < 118 {
          if i < 117 {
           Table::row(1301187600, 3600, 3600, "CEST")
          } else {
           Table::row(1319936400, 3600, 0, "CET")
          }
         } else {
          if i < 119 {
           Table::row(1332637200, 3600, 3600, "CEST")
          } else {
           if i < 120 {
            Table::row(1351386000, 3600, 0, "CET")
           } else {
            Table::row(1364691600, 3600, 3600, "CEST")
           }
          }
         }
        } else {
         if i < 124 {
          if i < 122 {
           Table::row(1382835600, 3600, 0, "CET")
          } else {
           if i < 123 {
            Table::row(1396141200, 3600, 3600, "CEST")
           } else {
            Table::row(1414285200, 3600, 0, "CET")
           }
          }
         } else {
          if i < 125 {
           Table::row(1427590800, 3600, 3600, "CEST")
          } else {
           if i < 126 {
            Table::row(1445734800, 3600, 0, "CET")
           } else {
            Table::row(1459040400, 3600, 3600, "CEST")
           }
          }
         }
        }
       }
      }
     } else {
      if i < 148 {
       if i < 137 {
        if i < 132 {
         if i < 129 {
          if i < 128 {
           Table::row(1477789200, 3600, 0, "CET")
          } else {
           Table::row(1490490000, 3600, 3600, "CEST")
          }
         } else {
          if i < 130 {
           Table::row(1509238800, 3600, 0, "CET")
          } else {
           if i < 131 {
            Table::row(1521939600, 3600, 3600, "CEST")
           } else {
            Table::row(1540688400, 3600, 0, "CET")
           }
          }
         }
        } else {
         if i < 134 {
          if i < 133 {
           Table::row(1553994000, 3600, 3600, "CEST")
          } else {
           Table::row(1572138000, 3600, 0, "CET")
          }
         } else {
          if i < 135 {
           Table::row(1585443600, 3600, 3600, "CEST")
          } else {
           if i < 136 {
            Table::row(1603587600, 3600, 0, "CET")
           } else {
            Table::row(1616893200, 3600, 3600, "CEST")
           }
          }
         }
        }
       } else {
        if i < 142 {
         if i < 139 {
          if i < 138 {
           Table::row(1635642000, 3600, 0, "CET")
          } else {
           Table::row(1648342800, 3600, 3600, "CEST")
          }
         } else {
          if i < 140 {
           Table::row(1667091600, 3600, 0, "CET")
          } else {
           if i < 141 {
            Table::row(1679792400, 3600, 3600, "CEST")
           } else {
            Table::row(1698541200, 3600, 0, "CET")
           }
          }
         }
        } else {
         if i < 145 {
          if i < 143 {
           Table::row(1711846800, 3600, 3600, "CEST")
          } else {
           if i < 144 {
            Table::row(1729990800, 3600, 0, "CET")
           } else {
            Table::row(1743296400, 3600, 3600, "CEST")
           }
          }
         } else {
          if i < 146 {
           Table::row(1761440400, 3600, 0, "CET")
          } else {
           if i < 147 {
            Table::row(1774746000, 3600, 3600, "CEST")
           } else {
            Table::row(1792890000, 3600, 0, "CET")
           }
          }
         }
        }
       }
      } else {
       if i < 159 {
        if i < 153 {
         if i < 150 {
          if i < 149 {
           Table::row(1806195600, 3600, 3600, "CEST")
          } else {
           Table::row(1824944400, 3600, 0, "CET")
          }
         } else {
          if i < 151 {
           Table::row(1837645200, 3600, 3600, "CEST")
          } else {
           if i < 152 {
            Table::row(1856394000, 3600, 0, "CET")
           } else {
            Table::row(1869094800, 3600, 3600, "CEST")
           }
          }
         }
        } else {
         if i < 156 {
          if i < 154 {
           Table::row(1887843600, 3600, 0, "CET")
          } else {
           if i < 155 {
            Table::row(1901149200, 3600, 3600, "CEST")
           } else {
            Table::row(1919293200, 3600, 0, "CET")
           }
          }
         } else {
          if i < 157 {
           Table::row(1932598800, 3600, 3600, "CEST")
          } else {
           if i < 158 {
            Table::row(1950742800, 3600, 0, "CET")
           } else {
            Table::row(1964048400, 3600, 3600, "CEST")
           }
          }
         }
        }
       } else {
        if i < 164 {
         if i < 161 {
          if i < 160 {
           Table::row(1982797200, 3600, 0, "CET")
          } else {
           Table::row(1995498000, 3600, 3600, "CEST")
          }
         } else {
          if i < 162 {
           Table::row(2014246800, 3600, 0, "CET")
          } else {
           if i < 163 {
            Table::row(2026947600, 3600, 3600, "CEST")
           } else {
            Table::row(2045696400, 3600, 0, "CET")
           }
          }
         }
        } else {
         if i < 167 {
          if i < 165 {
           Table::row(2058397200, 3600, 3600, "CEST")
          } else {
           if i < 166 {
            Table::row(2077146000, 3600, 0, "CET")
           } else {
            Table::row(2090451600, 3600, 3600, "CEST")
           }
          }
         } else {
          if i < 168 {
           Table::row(2108595600, 3600, 0, "CET")
          } else {
           if i < 169 {
            Table::row(2121901200, 3600, 3600, "CEST")
           } else {
            Table::row(2140045200, 3600, 0, "CET")
           }
          }
         }
        }
       }
      }
     }
    }
}

/// The rows of the table of the zone `Europe/Vatican`.
pub open spec fn vatican_rows() -> spec_fn(int) -> (i64, FixedTimespan) {
    |i: int| vatican_row(i)
}

/// The table of the zone `Europe/Vatican`.
pub open spec fn vatican() -> Table {
    Table::listed(Table::row(0, 2996, 0, "LMT").1, 170, vatican_rows())
}

/// Row `i` of the table of the zone `Europe/Vienna`.
pub open spec fn vienna_row(i: int) -> (i64, FixedTimespan) {
    if i < 69 {
     if i < 34 {
      if i < 17 {
       if i < 8 {
        if i < 4 {
         if i < 2 {
          if i < 1 {
           Table::row(-2422055121, 3600, 0, "CET")
          } else {
           Table::row(-1693706400, 3600, 3600, "CEST")
          }
         } else {
          if i < 3 {
           Table::row(-1680483600, 3600, 0, "CET")
          } else {
           Table::row(-1663455600, 3600, 3600, "CEST")
          }
         }
        } else {
         if i < 6 {
          if i < 5 {
           Table::row(-1650150000, 3600, 0, "CET")
          } else {
           Table::row(-1632006000, 3600, 3600, "CEST")
          }
         } else {
          if i < 7 {
           Table::row(-1618700400, 3600, 0, "CET")
          } else {
           Table::row(-1569711600, 3600, 3600, "CEST")
          }
         }
        }
       } else {
        if i < 12 {
         if i < 10 {
          if i < 9 {
           Table::row(-1555801200, 3600, 0, "CET")
          } else {
           Table::row(-938905200, 3600, 3600, "CEST")
          }
         } else {
          if i < 11 {
           Table::row(-857257200, 3600, 0, "CET")
          } else {
           Table::row(-844556400, 3600, 3600, "CEST")
          }
         }
        } else {
         if i < 14 {
          if i < 13 {
           Table::row(-828226800, 3600, 0, "CET")
          } else {
           Table::row(-812502000, 3600, 3600, "CEST")
          }
         } else {
          if i < 15 {
           Table::row(-796777200, 3600, 0, "CET")
          } else {
           if i < 16 {
            Table::row(-781052400, 3600, 3600, "CEST")
           } else {
            Table::row(-780188400, 3600, 0, "CET")
           }
          }
         }
        }
       }
      } else {
       if i < 25 {
        if i < 21 {
         if i < 19 {
          if i < 18 {
           Table::row(-748479600, 3600, 3600, "CEST")
          } else {
           Table::row(-733273200, 3600, 0, "CET")
          }
         } else {
          if i < 20 {
           Table::row(-717634800, 3600, 3600, "CEST")
          } else {
           Table::row(-701910000, 3600, 0, "CET")
          }
         }
        } else {
         if i < 23 {
          if i < 22 {
           Table::row(-684975600, 3600, 3600, "CEST")
          } else {
           Table::row(-670460400, 3600, 0, "CET")
          }
         } else {
          if i < 24 {
           Table::row(323823600, 3600, 3600, "CEST")
          } else {
           Table::row(338940000, 3600, 0, "CET")
          }
         }
        }
       } else {
        if i < 29 {
         if i < 27 {
          if i < 26 {
           Table::row(354675600, 3600, 3600, "CEST")
          } else {
           Table::row(370400400, 3600, 0, "CET")
          }
         } else {
          if i < 28 {
           Table::row(386125200, 3600, 3600, "CEST")
          } else {
           Table::row(401850000, 3600, 0, "CET")
          }
         }
        } else {
         if i < 31 {
          if i < 30 {
           Table::row(417574800, 3600, 3600, "CEST")
          } else {
           Table::row(433299600, 3600, 0, "CET")
          }
         } else {
          if i < 32 {
           Table::row(449024400, 3600, 3600, "CEST")
          } else {
           if i < 33 {
            Table::row(465354000, 3600, 0, "CET")
           } else {
            Table::row(481078800, 3600, 3600, "CEST")
           }
          }
         }
        }
       }
      }
     } else {
      if i < 51 {
       if i < 42 {
        if i < 38 {
         if i < 36 {
          if i < 35 {
           Table::row(496803600, 3600, 0, "CET")
          } else {
           Table::row(512528400, 3600, 3600, "CEST")
          }
         } else {
          if i < 37 {
           Table::row(528253200, 3600, 0, "CET")
          } else {
           Table::row(543978000, 3600, 3600, "CEST")
          }
         }
        } else {
         if i < 40 {
          if i < 39 {
           Table::row(559702800, 3600, 0, "CET")
          } else {
           Table::row(575427600, 3600, 3600, "CEST")
          }
         } else {
          if i < 41 {
           Table::row(591152400, 3600, 0, "CET")
          } else {
           Table::row(606877200, 3600, 3600, "CEST")
          }
         }
        }
       } else {
        if i < 46 {
         if i < 44 {
          if i < 43 {
           Table::row(622602000, 3600, 0, "CET")
          } else {
           Table::row(638326800, 3600, 3600, "CEST")
          }
         } else {
          if i < 45 {
           Table::row(654656400, 3600, 0, "CET")
          } else {
           Table::row(670381200, 3600, 3600, "CEST")
          }
         }
        } else {
         if i < 48 {
          if i < 47 {
           Table::row(686106000, 3600, 0, "CET")
          } else {
           Table::row(701830800, 3600, 3600, "CEST")
          }
         } else {
          if i < 49 {
           Table::row(717555600, 3600, 0, "CET")
          } else {
           if i < 50 {
            Table::row(733280400, 3600, 3600, "CEST")
           } else {
            Table::row(749005200, 3600, 0, "CET")
           }
          }
         }
        }
       }
      } else {
       if i < 60 {
        if i < 55 {
         if i < 53 {
          if i < 52 {
           Table::row(764730000, 3600, 3600, "CEST")
          } else {
           Table::row(780454800, 3600, 0, "CET")
          }
         } else {
          if i < 54 {
           Table::row(796179600, 3600, 3600, "CEST")
          } else {
           Table::row(811904400, 3600, 0, "CET")
          }
         }
        } else {
         if i < 57 {
          if i < 56 {
           Table::row(828234000, 3600, 3600, "CEST")
          } else {
           Table::row(846378000, 3600, 0, "CET")
          }
         } else {
          if i < 58 {
           Table::row(859683600, 3600, 3600, "CEST")
          } else {
           if i < 59 {
            Table::row(877827600, 3600, 0, "CET")
           } else {
            Table::row(891133200, 3600, 3600, "CEST")
           }
          }
         }
        }
       } else {
        if i < 64 {
         if i < 62 {
          if i < 61 {
           Table::row(909277200, 3600, 0, "CET")
          } else {
           Table::row(922582800, 3600, 3600, "CEST")
          }
         } else {
          if i < 63 {
           Table::row(941331600, 3600, 0, "CET")
          } else {
           Table::row(954032400, 3600, 3600, "CEST")
          }
         }
        } else {
         if i < 66 {
          if i < 65 {
           Table::row(972781200, 3600, 0, "CET")
          } else {
           Table::row(985482000, 3600, 3600, "CEST")
          }
         } else {
          if i < 67 {
           Table::row(1004230800, 3600, 0, "CET")
          } else {
           if i < 68 {
            Table::row(1017536400, 3600, 3600, "CEST")
           } else {
            Table::row(1035680400, 3600, 0, "CET")
           }
          }
         }
        }
       }
      }
     }
    } else {
     if i < 104 {
      if i < 86 {
       if i < 77 {
        if i < 73 {
         if i < 71 {
          if i < 70 {
           Table::row(1048986000, 3600, 3600, "CEST")
          } else {
           Table::row(1067130000, 3600, 0, "CET")
          }
         } else {
          if i < 72 {
           Table::row(1080435600, 3600, 3600, "CEST")
          } else {
           Table::row(1099184400, 3600, 0, "CET")
          }
         }
        } else {
         if i < 75 {
          if i < 74 {
           Table::row(1111885200, 3600, 3600, "CEST")
          } else {
           Table::row(1130634000, 3600, 0, "CET")
          }
         } else {
          if i < 76 {
           Table::row(1143334800, 3600, 3600, "CEST")
          } else {
           Table::row(1162083600, 3600, 0, "CET")
          }
         }
        }
       } else {
        if i < 81 {
         if i < 79 {
          if i < 78 {
           Table::row(1174784400, 3600, 3600, "CEST")
          } else {
           Table::row(1193533200, 3600, 0, "CET")
          }
         } else {
          if i < 80 {
           Table::row(1206838800, 3600, 3600, "CEST")
          } else {
           Table::row(1224982800, 3600, 0, "CET")
          }
         }
        } else {
         if i < 83 {
          if i < 82 {
           Table::row(1238288400, 3600, 3600, "CEST")
          } else {
           Table::row(1256432400, 3600, 0, "CET")
          }
         } else {
          if i < 84 {
           Table::row(1269738000, 3600, 3600, "CEST")
          } else {
           if i < 85 {
            Table::row(1288486800, 3600, 0, "CET")
           } else {
            Table::row(1301187600, 3600, 3600, "CEST")
           }
          }
         }
        }
       }
      } else {
       if i < 95 {
        if i < 90 {
         if i < 88 {
          if i < 87 {
           Table::row(1319936400, 3600, 0, "CET")
          } else {
           Table::row(1332637200, 3600, 3600, "CEST")
          }
         } else {
          if i < 89 {
           Table::row(1351386000, 3600, 0, "CET")
          } else {
           Table::row(1364691600, 3600, 3600, "CEST")
          }
         }
        } else {
         if i < 92 {
          if i < 91 {
           Table::row(1382835600, 3600, 0, "CET")
          } else {
           Table::row(1396141200, 3600, 3600, "CEST")
          }
         } else {
          if i < 93 {
           Table::row(1414285200, 3600, 0, "CET")
          } else {
           if i < 94 {
            Table::row(1427590800, 3600, 3600, "CEST")
           } else {
            Table::row(1445734800, 3600, 0, "CET")
           }
          }
         }
        }
       } else {
        if i < 99 {
         if i < 97 {
          if i < 96 {
           Table::row(1459040400, 3600, 3600, "CEST")
          } else {
           Table::row(1477789200, 3600, 0, "CET")
          }
         } else {
          if i < 98 {
           Table::row(1490490000, 3600, 3600, "CEST")
          } else {
           Table::row(1509238800, 3600, 0, "CET")
          }
         }
        } else {
         if i < 101 {
          if i < 100 {
           Table::row(1521939600, 3600, 3600, "CEST")
          } else {
           Table::row(1540688400, 3600, 0, "CET")
          }
         } else {
          if i < 102 {
           Table::row(1553994000, 3600, 3600, "CEST")
          } else {
           if i < 103 {
            Table::row(1572138000, 3600, 0, "CET")
           } else {
            Table::row(1585443600, 3600, 3600, "CEST")
           }
          }
         }
        }
       }
      }
     } else {
      if i < 121 {
       if i < 112 {
        if i < 108 {
         if i < 106 {
          if i < 105 {
           Table::row(1603587600, 3600, 0, "CET")
          } else {
           Table::row(1616893200, 3600, 3600, "CEST")
          }
         } else {
          if i < 107 {
           Table::row(1635642000, 3600, 0, "CET")
          } else {
           Table::row(1648342800, 3600, 3600, "CEST")
          }
         }
        } else {
         if i < 110 {
          if i < 109 {
           Table::row(1667091600, 3600, 0, "CET")
          } else {
           Table::row(1679792400, 3600, 3600, "CEST")
          }
         } else {
          if i < 111 {
           Table::row(1698541200, 3600, 0, "CET")
          } else {
           Table::row(1711846800, 3600, 3600, "CEST")
          }
         }
        }
       } else {
        if i < 116 {
         if i < 114 {
          if i < 113 {
           Table::row(1729990800, 3600, 0, "CET")
          } else {
           Table::row(1743296400, 3600, 3600, "CEST")
          }
         } else {
          if i < 115 {
           Table::row(1761440400, 3600, 0, "CET")
          } else {
           Table::row(1774746000, 3600, 3600, "CEST")
          }
         }
        } else {
         if i < 118 {
          if i < 117 {
           Table::row(1792890000, 3600, 0, "CET")
          } else {
           Table::row(1806195600, 3600, 3600, "CEST")
          }
         } else {
          if i < 119 {
           Table::row(1824944400, 3600, 0, "CET")
          } else {
           if i < 120 {
            Table::row(1837645200, 3600, 3600, "CEST")
           } else {
            Table::row(1856394000, 3600, 0, "CET")
           }
          }
         }
        }
       }
      } else {
       if i < 130 {
        if i < 125 {
         if i < 123 {
          if i < 122 {
           Table::row(1869094800, 3600, 3600, "CEST")
          } else {
           Table::row(1887843600, 3600, 0, "CET")
          }
         } else {
          if i < 124 {
           Table::row(1901149200, 3600, 3600, "CEST")
          } else {
           Table::row(1919293200, 3600, 0, "CET")
          }
         }
        } else {
         if i < 127 {
          if i < 126 {
           Table::row(1932598800, 3600, 3600, "CEST")
          } else {
           Table::row(1950742800, 3600, 0, "CET")
          }
         } else {
          if i < 128 {
           Table::row(1964048400, 3600, 3600, "CEST")
          } else {
           if i < 129 {
            Table::row(1982797200, 3600, 0, "CET")
           } else {
            Table::row(1995498000, 3600, 3600, "CEST")
           }
          }
         }
        }
       } else {
        if i < 134 {
         if i < 132 {
          if i < 131 {
           Table::row(2014246800, 3600, 0, "CET")
          } else {
           Table::row(2026947600, 3600, 3600, "CEST")
          }
         } else {
          if i < 133 {
           Table::row(2045696400, 3600, 0, "CET")
          } else {
           Table::row(2058397200, 3600, 3600, "CEST")
          }
         }
        } else {
         if i < 136 {
          if i < 135 {
           Table::row(2077146000, 3600, 0, "CET")
          } else {
           Table::row(2090451600, 3600, 3600, "CEST")
          }
         } else {
          if i < 137 {
           Table::row(2108595600, 3600, 0, "CET")
          } else {
           if i < 138 {
            Table::row(2121901200, 3600, 3600, "CEST")
           } else {
            Table::row(2140045200, 3600, 0, "CET")
           }
          }
         }
        }
       }
      }
     }
    }
}

/// The rows of the table of the zone `Europe/Vienna`.
pub open spec fn vienna_rows() -> spec_fn(int) -> (i64, FixedTimespan) {
    |i: int| vienna_row(i)
}

/// The table of the zone `Europe/Vienna`.
pub open spec fn vienna() -> Table {
    Table::listed(Table::row(0, 3921, 0, "LMT").1, 139, vienna_rows())
}

/// Row `i` of the table of the zone `Europe/Vilnius`.
pub open spec fn vilnius_row(i: int) -> (i64, FixedTimespan) {
    if i < 60 {
     if i < 30 {
      if i < 15 {
       if i < 7 {
        if i < 3 {
         if i < 1 {
          Table::row(-2840146876, 5040, 0, "WMT")
         } else {
          if i < 2 {
           Table::row(-1672536240, 5736, 0, "KMT")
          } else {
           Table::row(-1585100136, 3600, 0, "CET")
          }
         }
        } else {
         if i < 5 {
          if i < 4 {
           Table::row(-1561251600, 7200, 0, "EET")
          } else {
           Table::row(-1553565600, 3600, 0, "CET")
          }
         } else {
          if i < 6 {
           Table::row(-928198800, 10800, 0, "MSK")
          } else {
           Table::row(-900126000, 3600, 3600, "CEST")
          }
         }
        }
       } else {
        if i < 11 {
         if i < 9 {
          if i < 8 {
           Table::row(-857257200, 3600, 0, "CET")
          } else {
           Table::row(-844556400, 3600, 3600, "CEST")
          }
         } else {
          if i < 10 {
           Table::row(-828226800, 3600, 0, "CET")
          } else {
           Table::row(-812502000, 3600, 3600, "CEST")
          }
         }
        } else {
         if i < 13 {
          if i < 12 {
           Table::row(-802144800, 10800, 0, "MSK")
          } else {
           Table::row(354920400, 10800, 3600, "MSD")
          }
         } else {
          if i < 14 {
           Table::row(370728000, 10800, 0, "MSK")
          } else {
           Table::row(386456400, 10800, 3600, "MSD")
          }
         }
        }
       }
      } else {
       if i < 22 {
        if i < 18 {
         if i < 16 {
          Table::row(402264000, 10800, 0, "MSK")
         } else {
          if i < 17 {
           Table::row(417992400, 10800, 3600, "MSD")
          } else {
           Table::row(433800000, 10800, 0, "MSK")
          }
         }
        } else {
         if i < 20 {
          if i < 19 {
           Table::row(449614800, 10800, 3600, "MSD")
          } else {
           Table::row(465346800, 10800, 0, "MSK")
          }
         } else {
          if i < 21 {
           Table::row(481071600, 10800, 3600, "MSD")
          } else {
           Table::row(496796400, 10800, 0, "MSK")
          }
         }
        }
       } else {
        if i < 26 {
         if i < 24 {
          if i < 23 {
           Table::row(512521200, 10800, 3600, "MSD")
          } else {
           Table::row(528246000, 10800, 0, "MSK")
          }
         } else {
          if i < 25 {
           Table::row(543970800, 10800, 3600, "MSD")
          } else {
           Table::row(559695600, 10800, 0, "MSK")
          }
         }
        } else {
         if i < 28 {
          if i < 27 {
           Table::row(575420400, 10800, 3600, "MSD")
          } else {
           Table::row(591145200, 10800, 0, "MSK")
          }
         } else {
          if i < 29 {
           Table::row(606870000, 7200, 3600, "EEST")
          } else {
           Table::row(622598400, 7200, 0, "EET")
          }
         }
        }
       }
      }
     } else {
      if i < 45 {
       if i < 37 {
        if i < 33 {
         if i < 31 {
          Table::row(638323200, 7200, 3600, "EEST")
         } else {
          if i < 32 {
           Table::row(654652800, 7200, 0, "EET")
          } else {
           Table::row(670377600, 7200, 3600, "EEST")
          }
         }
        } else {
         if i < 35 {
          if i < 34 {
           Table::row(686102400, 7200, 0, "EET")
          } else {
           Table::row(701827200, 7200, 3600, "EEST")
          }
         } else {
          if i < 36 {
           Table::row(717552000, 7200, 0, "EET")
          } else {
           Table::row(733276800, 7200, 3600, "EEST")
          }
         }
        }
       } else {
        if i < 41 {
         if i < 39 {
          if i < 38 {
           Table::row(749001600, 7200, 0, "EET")
          } else {
           Table::row(764726400, 7200, 3600, "EEST")
          }
         } else {
          if i < 40 {
           Table::row(780451200, 7200, 0, "EET")
          } else {
           Table::row(796176000, 7200, 3600, "EEST")
          }
         }
        } else {
         if i < 43 {
          if i < 42 {
           Table::row(811900800, 7200, 0, "EET")
          } else {
           Table::row(828230400, 7200, 3600, "EEST")
          }
         } else {
          if i < 44 {
           Table::row(846374400, 7200, 0, "EET")
          } else {
           Table::row(859680000, 7200, 3600, "EEST")
          }
         }
        }
       }
      } else {
       if i < 52 {
        if i < 48 {
         if i < 46 {
          Table::row(877824000, 7200, 0, "EET")
         } else {
          if i < 47 {
           Table::row(891133200, 3600, 3600, "CEST")
          } else {
           Table::row(909277200, 3600, 0, "CET")
          }
         }
        } else {
         if i < 50 {
          if i < 49 {
           Table::row(922582800, 3600, 3600, "CEST")
          } else {
           Table::row(941331600, 7200, 0, "EET")
          }
         } else {
          if i < 51 {
           Table::row(1048986000, 7200, 3600, "EEST")
          } else {
           Table::row(1067130000, 7200, 0, "EET")
          }
         }
        }
       } else {
        if i < 56 {
         if i < 54 {
          if i < 53 {
           Table::row(1080435600, 7200, 3600, "EEST")
          } else {
           Table::row(1099184400, 7200, 0, "EET")
          }
         } else {
          if i < 55 {
           Table::row(1111885200, 7200, 3600, "EEST")
          } else {
           Table::row(1130634000, 7200, 0, "EET")
          }
         }
        } else {
         if i < 58 {
          if i < 57 {
           Table::row(1143334800, 7200, 3600, "EEST")
          } else {
           Table::row(1162083600, 7200, 0, "EET")
          }
         } else {
          if i < 59 {
           Table::row(1174784400, 7200, 3600, "EEST")
          } else {
           Table::row(1193533200, 7200, 0, "EET")
          }
         }
        }
       }
      }
     }
    } else {
     if i < 90 {
      if i < 75 {
       if i < 67 {
        if i < 63 {
         if i < 61 {
          Table::row(1206838800, 7200, 3600, "EEST")
         } else {
          if i < 62 {
           Table::row(1224982800, 7200, 0, "EET")
          } else {
           Table::row(1238288400, 7200, 3600, "EEST")
          }
         }
        } else {
         if i < 65 {
          if i < 64 {
           Table::row(1256432400, 7200, 0, "EET")
          } else {
           Table::row(1269738000, 7200, 3600, "EEST")
          }
         } else {
          if i < 66 {
           Table::row(1288486800, 7200, 0, "EET")
          } else {
           Table::row(1301187600, 7200, 3600, "EEST")
          }
         }
        }
       } else {
        if i < 71 {
         if i < 69 {
          if i < 68 {
           Table::row(1319936400, 7200, 0, "EET")
          } else {
           Table::row(1332637200, 7200, 3600, "EEST")
          }
         } else {
          if i < 70 {
           Table::row(1351386000, 7200, 0, "EET")
          } else {
           Table::row(1364691600, 7200, 3600, "EEST")
          }
         }
        } else {
         if i < 73 {
          if i < 72 {
           Table::row(1382835600, 7200, 0, "EET")
          } else {
           Table::row(1396141200, 7200, 3600, "EEST")
          }
         } else {
          if i < 74 {
           Table::row(1414285200, 7200, 0, "EET")
          } else {
           Table::row(1427590800, 7200, 3600, "EEST")
          }
         }
        }
       }
      } else {
       if i < 82 {
        if i < 78 {
         if i < 76 {
          Table::row(1445734800, 7200, 0, "EET")
         } else {
          if i < 77 {
           Table::row(1459040400, 7200, 3600, "EEST")
          } else {
           Table::row(1477789200, 7200, 0, "EET")
          }
         }
        } else {
         if i < 80 {
          if i < 79 {
           Table::row(1490490000, 7200, 3600, "EEST")
          } else {
           Table::row(1509238800, 7200, 0, "EET")
          }
         } else {
          if i < 81 {
           Table::row(1521939600, 7200, 3600, "EEST")
          } else {
           Table::row(1540688400, 7200, 0, "EET")
          }
         }
        }
       } else {
        if i < 86 {
         if i < 84 {
          if i < 83 {
           Table::row(1553994000, 7200, 3600, "EEST")
          } else {
           Table::row(1572138000, 7200, 0, "EET")
          }
         } else {
          if i < 85 {
           Table::row(1585443600, 7200, 3600, "EEST")
          } else {
           Table::row(1603587600, 7200, 0, "EET")
          }
         }
        } else {
         if i < 88 {
          if i < 87 {
           Table::row(1616893200, 7200, 3600, "EEST")
          } else {
           Table::row(1635642000, 7200, 0, "EET")
          }
         } else {
          if i < 89 {
           Table::row(1648342800, 7200, 3600, "EEST")
          } else {
           Table::row(1667091600, 7200, 0, "EET")
          }
         }
        }
       }
      }
     } else {
      if i < 105 {
       if i < 97 {
        if i < 93 {
         if i < 91 {
          Table::row(1679792400, 7200, 3600, "EEST")
         } else {
          if i < 92 {
           Table::row(1698541200, 7200, 0, "EET")
          } else {
           Table::row(1711846800, 7200, 3600, "EEST")
          }
         }
        } else {
         if i < 95 {
          if i < 94 {
           Table::row(1729990800, 7200, 0, "EET")
          } else {
           Table::row(1743296400, 7200, 3600, "EEST")
          }
         } else {
          if i < 96 {
           Table::row(1761440400, 7200, 0, "EET")
          } else {
           Table::row(1774746000, 7200, 3600, "EEST")
          }
         }
        }
       } else {
        if i < 101 {
         if i < 99 {
          if i < 98 {
           Table::row(1792890000, 7200, 0, "EET")
          } else {
           Table::row(1806195600, 7200, 3600, "EEST")
          }
         } else {
          if i < 100 {
           Table::row(1824944400, 7200, 0, "EET")
          } else {
           Table::row(1837645200, 7200, 3600, "EEST")
          }
         }
        } else {
         if i < 103 {
          if i < 102 {
           Table::row(1856394000, 7200, 0, "EET")
          } else {
           Table::row(1869094800, 7200, 3600, "EEST")
          }
         } else {
          if i < 104 {
           Table::row(1887843600, 7200, 0, "EET")
          } else {
           Table::row(1901149200, 7200, 3600, "EEST")
          }
         }
        }
       }
      } else {
       if i < 112 {
        if i < 108 {
         if i < 106 {
          Table::row(1919293200, 7200, 0, "EET")
         } else {
          if i < 107 {
           Table::row(1932598800, 7200, 3600, "EEST")
          } else {
           Table::row(1950742800, 7200, 0, "EET")
          }
         }
        } else {
         if i < 110 {
          if i < 109 {
           Table::row(1964048400, 7200, 3600, "EEST")
          } else {
           Table::row(1982797200, 7200, 0, "EET")
          }
         } else {
          if i < 111 {
           Table::row(1995498000, 7200, 3600, "EEST")
          } else {
           Table::row(2014246800, 7200, 0, "EET")
          }
         }
        }
       } else {
        if i < 116 {
         if i < 114 {
          if i < 113 {
           Table::row(2026947600, 7200, 3600, "EEST")
          } else {
           Table::row(2045696400, 7200, 0, "EET")
          }
         } else {
          if i < 115 {
           Table::row(2058397200, 7200, 3600, "EEST")
          } else {
           Table::row(2077146000, 7200, 0, "EET")
          }
         }
        } else {
         if i < 118 {
          if i < 117 {
           Table::row(2090451600, 7200, 3600, "EEST")
          } else {
           Table::row(2108595600, 7200, 0, "EET")
          }
         } else {
          if i < 119 {
           Table::row(2121901200, 7200, 3600, "EEST")
          } else {
           Table::row(2140045200, 7200, 0, "EET")
          }
         }
        }
       }
      }
     }
    }
}

/// The rows of the table of the zone `Europe/Vilnius`.
pub open spec fn vilnius_rows() -> spec_fn(int) -> (i64, FixedTimespan) {
    |i: int| vilnius_row(i)
}

/// The table of the zone `Europe/Vilnius`.
pub open spec fn vilnius() -> Table {
    Table::listed(Table::row(0, 6076, 0, "LMT").1, 120, vilnius_rows())
}

/// Row `i` of the table of the zone `Europe/Volgograd`.
pub open spec fn volgograd_row(i: int) -> (i64, FixedTimespan) {
    if i < 32 {
     if i < 16 {
      if i < 8 {
       if i < 4 {
        if i < 2 {
         if i < 1 {
          Table::row(-1577761060, 10800, 0, "+03")
         } else {
          Table::row(-1247540400, 14400, 0, "+04")
         }
        } else {
         if i < 3 {
          Table::row(354916800, 14400, 3600, "+05")
         } else {
          Table::row(370724400, 14400, 0, "+04")
         }
        }
       } else {
        if i < 6 {
         if i < 5 {
          Table::row(386452800, 14400, 3600, "+05")
         } else {
          Table::row(402260400, 14400, 0, "+04")
         }
        } else {
         if i < 7 {
          Table::row(417988800, 14400, 3600, "+05")
         } else {
          Table::row(433796400, 14400, 0, "+04")
         }
        }
       }
      } else {
       if i < 12 {
        if i < 10 {
         if i < 9 {
          Table::row(449611200, 14400, 3600, "+05")
         } else {
          Table::row(465343200, 14400, 0, "+04")
         }
        } else {
         if i < 11 {
          Table::row(481068000, 14400, 3600, "+05")
         } else {
          Table::row(496792800, 14400, 0, "+04")
         }
        }
       } else {
        if i < 14 {
         if i < 13 {
          Table::row(512517600, 14400, 3600, "+05")
         } else {
          Table::row(528242400, 14400, 0, "+04")
         }
        } else {
         if i < 15 {
          Table::row(543967200, 14400, 3600, "+05")
         } else {
          Table::row(559692000, 14400, 0, "+04")
         }
        }
       }
      }
     } else {
      if i < 24 {
       if i < 20 {
        if i < 18 {
         if i < 17 {
          Table::row(575416800, 10800, 3600, "MSD")
         } else {
          Table::row(591145200, 10800, 0, "MSK")
         }
        } else {
         if i < 19 {
          Table::row(606870000, 10800, 3600, "MSD")
         } else {
          Table::row(622594800, 10800, 0, "MSK")
         }
        }
       } else {
        if i < 22 {
         if i < 21 {
          Table::row(638319600, 10800, 3600, "MSD")
         } else {
          Table::row(654649200, 10800, 0, "MSK")
         }
        } else {
         if i < 23 {
          Table::row(670374000, 14400, 0, "+04")
         } else {
          Table::row(701820000, 10800, 3600, "MSD")
         }
        }
       }
      } else {
       if i < 28 {
        if i < 26 {
         if i < 25 {
          Table::row(717548400, 10800, 0, "MSK")
         } else {
          Table::row(733273200, 10800, 3600, "MSD")
         }
        } else {
         if i < 27 {
          Table::row(748998000, 10800, 0, "MSK")
         } else {
          Table::row(764722800, 10800, 3600, "MSD")
         }
        }
       } else {
        if i < 30 {
         if i < 29 {
          Table::row(780447600, 10800, 0, "MSK")
         } else {
          Table::row(796172400, 10800, 3600, "MSD")
         }
        } else {
         if i < 31 {
          Table::row(811897200, 10800, 0, "MSK")
         } else {
          Table::row(828226800, 10800, 3600, "MSD")
         }
        }
       }
      }
     }
    } else {
     if i < 48 {
      if i < 40 {
       if i < 36 {
        if i < 34 {
         if i < 33 {
          Table::row(846370800, 10800, 0, "MSK")
         } else {
          Table::row(859676400, 10800, 3600, "MSD")
         }
        } else {
         if i < 35 {
          Table::row(877820400, 10800, 0, "MSK")
         } else {
          Table::row(891126000, 10800, 3600, "MSD")
         }
        }
       } else {
        if i < 38 {
         if i < 37 {
          Table::row(909270000, 10800, 0, "MSK")
         } else {
          Table::row(922575600, 10800, 3600, "MSD")
         }
        } else {
         if i < 39 {
          Table::row(941324400, 10800, 0, "MSK")
         } else {
          Table::row(954025200, 10800, 3600, "MSD")
         }
        }
       }
      } else {
       if i < 44 {
        if i < 42 {
         if i < 41 {
          Table::row(972774000, 10800, 0, "MSK")
         } else {
          Table::row(985474800, 10800, 3600, "MSD")
         }
        } else {
         if i < 43 {
          Table::row(1004223600, 10800, 0, "MSK")
         } else {
          Table::row(1017529200, 10800, 3600, "MSD")
         }
        }
       } else {
        if i < 46 {
         if i < 45 {
          Table::row(1035673200, 10800, 0, "MSK")
         } else {
          Table::row(1048978800, 10800, 3600, "MSD")
         }
        } else {
         if i < 47 {
          Table::row(1067122800, 10800, 0, "MSK")
         } else {
          Table::row(1080428400, 10800, 3600, "MSD")
         }
        }
       }
      }
     } else {
      if i < 56 {
       if i < 52 {
        if i < 50 {
         if i < 49 {
          Table::row(1099177200, 10800, 0, "MSK")
         } else {
          Table::row(1111878000, 10800, 3600, "MSD")
         }
        } else {
         if i < 51 {
          Table::row(1130626800, 10800, 0, "MSK")
         } else {
          Table::row(1143327600, 10800, 3600, "MSD")
         }
        }
       } else {
        if i < 54 {
         if i < 53 {
          Table::row(1162076400, 10800, 0, "MSK")
         } else {
          Table::row(1174777200, 10800, 3600, "MSD")
         }
        } else {
         if i < 55 {
          Table::row(1193526000, 10800, 0, "MSK")
         } else {
          Table::row(1206831600, 10800, 3600, "MSD")
         }
        }
       }
      } else {
       if i < 60 {
        if i < 58 {
         if i < 57 {
          Table::row(1224975600, 10800, 0, "MSK")
         } else {
          Table::row(1238281200, 10800, 3600, "MSD")
         }
        } else {
         if i < 59 {
          Table::row(1256425200, 10800, 0, "MSK")
         } else {
          Table::row(1269730800, 10800, 3600, "MSD")
         }
        }
       } else {
        if i < 62 {
         if i < 61 {
          Table::row(1288479600, 10800, 0, "MSK")
         } else {
          Table::row(1301180400, 14400, 0, "MSK")
         }
        } else {
         if i < 63 {
          Table::row(1414274400, 10800, 0, "MSK")
         } else {
          if i < 64 {
           Table::row(1540681200, 14400, 0, "+04")
          } else {
           Table::row(1609020000, 10800, 0, "MSK")
          }
         }
        }
       }
      }
     }
    }
}

/// The rows of the table of the zone `Europe/Volgograd`.
pub open spec fn volgograd_rows() -> spec_fn(int) -> (i64, FixedTimespan) {
    |i: int| volgograd_row(i)
}

/// The table of the zone `Europe/Volgograd`.
pub open spec fn volgograd() -> Table {
    Table::listed(Table::row(0, 10660, 0, "LMT").1, 65, volgograd_rows())
}

/// Row `i` of the table of the zone `Europe/Warsaw`.
pub open spec fn warsaw_row(i: int) -> (i64, FixedTimespan) {
    if i < 82 {
     if i < 41 {
      if i < 20 {
       if i < 10 {
        if i < 5 {
         if i < 2 {
          if i < 1 {
           Table::row(-2840145840, 5040, 0, "WMT")
          } else {
           Table::row(-1717032240, 3600, 0, "CET")
          }
         } else {
          if i < 3 {
           Table::row(-1693706400, 3600, 3600, "CEST")
          } else {
           if i < 4 {
            Table::row(-1680483600, 3600, 0, "CET")
           } else {
            Table::row(-1663455600, 3600, 3600, "CEST")
           }
          }
         }
        } else {
         if i < 7 {
          if i < 6 {
           Table::row(-1650150000, 3600, 0, "CET")
          } else {
           Table::row(-1632006000, 3600, 3600, "CEST")
          }
         } else {
          if i < 8 {
           Table::row(-1618700400, 7200, 0, "EET")
          } else {
           if i < 9 {
            Table::row(-1600473600, 7200, 3600, "EEST")
           } else {
            Table::row(-1587168000, 7200, 0, "EET")
           }
          }
         }
        }
       } else {
        if i < 15 {
         if i < 12 {
          if i < 11 {
           Table::row(-1501725600, 3600, 0, "CET")
          } else {
           Table::row(-931734000, 3600, 3600, "CEST")
          }
         } else {
          if i < 13 {
           Table::row(-857257200, 3600, 0, "CET")
          } else {
           if i < 14 {
            Table::row(-844556400, 3600, 3600, "CEST")
           } else {
            Table::row(-828226800, 3600, 0, "CET")
           }
          }
         }
        } else {
         if i < 17 {
          if i < 16 {
           Table::row(-812502000, 3600, 3600, "CEST")
          } else {
           Table::row(-796608000, 3600, 0, "CET")
          }
         } else {
          if i < 18 {
           Table::row(-778726800, 3600, 3600, "CEST")
          } else {
           if i < 19 {
            Table::row(-762660000, 3600, 0, "CET")
           } else {
            Table::row(-748486800, 3600, 3600, "CEST")
           }
          }
         }
        }
       }
      } else {
       if i < 30 {
        if i < 25 {
         if i < 22 {
          if i < 21 {
           Table::row(-733273200, 3600, 0, "CET")
          } else {
           Table::row(-715215600, 3600, 3600, "CEST")
          }
         } else {
          if i < 23 {
           Table::row(-701910000, 3600, 0, "CET")
          } else {
           if i < 24 {
            Table::row(-684975600, 3600, 3600, "CEST")
           } else {
            Table::row(-670460400, 3600, 0, "CET")
           }
          }
         }
        } else {
         if i < 27 {
          if i < 26 {
           Table::row(-654130800, 3600, 3600, "CEST")
          } else {
           Table::row(-639010800, 3600, 0, "CET")
          }
         } else {
          if i < 28 {
           Table::row(-397094400, 3600, 3600, "CEST")
          } else {
           if i < 29 {
            Table::row(-386812800, 3600, 0, "CET")
           } else {
            Table::row(-371088000, 3600, 3600, "CEST")
           }
          }
         }
        }
       } else {
        if i < 35 {
         if i < 32 {
          if i < 31 {
           Table::row(-355363200, 3600, 0, "CET")
          } else {
           Table::row(-334195200, 3600, 3600, "CEST")
          }
         } else {
          if i < 33 {
           Table::row(-323308800, 3600, 0, "CET")
          } else {
           if i < 34 {
            Table::row(-307584000, 3600, 3600, "CEST")
           } else {
            Table::row(-291859200, 3600, 0, "CET")
           }
          }
         }
        } else {
         if i < 38 {
          if i < 36 {
           Table::row(-271296000, 3600, 3600, "CEST")
          } else {
           if i < 37 {
            Table::row(-260409600, 3600, 0, "CET")
           } else {
            Table::row(-239846400, 3600, 3600, "CEST")
           }
          }
         } else {
          if i < 39 {
           Table::row(-228960000, 3600, 0, "CET")
          } else {
           if i < 40 {
            Table::row(-208396800, 3600, 3600, "CEST")
           } else {
            Table::row(-197510400, 3600, 0, "CET")
           }
          }
         }
        }
       }
      }
     } else {
      if i < 61 {
       if i < 51 {
        if i < 46 {
         if i < 43 {
          if i < 42 {
           Table::row(-176342400, 3600, 3600, "CEST")
          } else {
           Table::row(-166060800, 3600, 0, "CET")
          }
         } else {
          if i < 44 {
           Table::row(228873600, 3600, 3600, "CEST")
          } else {
           if i < 45 {
            Table::row(243993600, 3600, 0, "CET")
           } else {
            Table::row(260323200, 3600, 3600, "CEST")
           }
          }
         }
        } else {
         if i < 48 {
          if i < 47 {
           Table::row(276048000, 3600, 0, "CET")
          } else {
           Table::row(291772800, 3600, 3600, "CEST")
          }
         } else {
          if i < 49 {
           Table::row(307497600, 3600, 0, "CET")
          } else {
           if i < 50 {
            Table::row(323827200, 3600, 3600, "CEST")
           } else {
            Table::row(338947200, 3600, 0, "CET")
           }
          }
         }
        }
       } else {
        if i < 56 {
         if i < 53 {
          if i < 52 {
           Table::row(354672000, 3600, 3600, "CEST")
          } else {
           Table::row(370396800, 3600, 0, "CET")
          }
         } else {
          if i < 54 {
           Table::row(386121600, 3600, 3600, "CEST")
          } else {
           if i < 55 {
            Table::row(401846400, 3600, 0, "CET")
           } else {
            Table::row(417571200, 3600, 3600, "CEST")
           }
          }
         }
        } else {
         if i < 58 {
          if i < 57 {
           Table::row(433296000, 3600, 0, "CET")
          } else {
           Table::row(449020800, 3600, 3600, "CEST")
          }
         } else {
          if i < 59 {
           Table::row(465350400, 3600, 0, "CET")
          } else {
           if i < 60 {
            Table::row(481075200, 3600, 3600, "CEST")
           } else {
            Table::row(496800000, 3600, 0, "CET")
           }
          }
         }
        }
       }
      } else {
       if i < 71 {
        if i < 66 {
         if i < 63 {
          if i < 62 {
           Table::row(512524800, 3600, 3600, "CEST")
          } else {
           Table::row(528249600, 3600, 0, "CET")
          }
         } else {
          if i < 64 {
           Table::row(543974400, 3600, 3600, "CEST")
          } else {
           if i < 65 {
            Table::row(559699200, 3600, 0, "CET")
           } else {
            Table::row(575427600, 3600, 3600, "CEST")
           }
          }
         }
        } else {
         if i < 68 {
          if i < 67 {
           Table::row(591152400, 3600, 0, "CET")
          } else {
           Table::row(606877200, 3600, 3600, "CEST")
          }
         } else {
          if i < 69 {
           Table::row(622602000, 3600, 0, "CET")
          } else {
           if i < 70 {
            Table::row(638326800, 3600, 3600, "CEST")
           } else {
            Table::row(654656400, 3600, 0, "CET")
           }
          }
         }
        }
       } else {
        if i < 76 {
         if i < 73 {
          if i < 72 {
           Table::row(670381200, 3600, 3600, "CEST")
          } else {
           Table::row(686106000, 3600, 0, "CET")
          }
         } else {
          if i < 74 {
           Table::row(701830800, 3600, 3600, "CEST")
          } else {
           if i < 75 {
            Table::row(717555600, 3600, 0, "CET")
           } else {
            Table::row(733280400, 3600, 3600, "CEST")
           }
          }
         }
        } else {
         if i < 79 {
          if i < 77 {
           Table::row(749005200, 3600, 0, "CET")
          } else {
           if i < 78 {
            Table::row(764730000, 3600, 3600, "CEST")
           } else {
            Table::row(780454800, 3600, 0, "CET")
           }
          }
         } else {
          if i < 80 {
           Table::row(796179600, 3600, 3600, "CEST")
          } else {
           if i < 81 {
            Table::row(811904400, 3600, 0, "CET")
           } else {
            Table::row(828234000, 3600, 3600, "CEST")
           }
          }
         }
        }
       }
      }
     }
    } else {
     if i < 123 {
      if i < 102 {
       if i < 92 {
        if i < 87 {
         if i < 84 {
          if i < 83 {
           Table::row(846378000, 3600, 0, "CET")
          } else {
           Table::row(859683600, 3600, 3600, "CEST")
          }
         } else {
          if i < 85 {
           Table::row(877827600, 3600, 0, "CET")
          } else {
           if i < 86 {
            Table::row(891133200, 3600, 3600, "CEST")
           } else {
            Table::row(909277200, 3600, 0, "CET")
           }
          }
         }
        } else {
         if i < 89 {
          if i < 88 {
           Table::row(922582800, 3600, 3600, "CEST")
          } else {
           Table::row(941331600, 3600, 0, "CET")
          }
         } else {
          if i < 90 {
           Table::row(954032400, 3600, 3600, "CEST")
          } else {
           if i < 91 {
            Table::row(972781200, 3600, 0, "CET")
           } else {
            Table::row(985482000, 3600, 3600, "CEST")
           }
          }
         }
        }
       } else {
        if i < 97 {
         if i < 94 {
          if i < 93 {
           Table::row(1004230800, 3600, 0, "CET")
          } else {
           Table::row(1017536400, 3600, 3600, "CEST")
          }
         } else {
          if i < 95 {
           Table::row(1035680400, 3600, 0, "CET")
          } else {
           if i < 96 {
            Table::row(1048986000, 3600, 3600, "CEST")
           } else {
            Table::row(1067130000, 3600, 0, "CET")
           }
          }
         }
        } else {
         if i < 99 {
          if i < 98 {
           Table::row(1080435600, 3600, 3600, "CEST")
          } else {
           Table::row(1099184400, 3600, 0, "CET")
          }
         } else {
          if i < 100 {
           Table::row(1111885200, 3600, 3600, "CEST")
          } else {
           if i < 101 {
            Table::row(1130634000, 3600, 0, "CET")
           } else {
            Table::row(1143334800, 3600, 3600, "CEST")
           }
          }
         }
        }
       }
      } else {
       if i < 112 {
        if i < 107 {
         if i < 104 {
          if i < 103 {
           Table::row(1162083600, 3600, 0, "CET")
          } else {
           Table::row(1174784400, 3600, 3600, "CEST")
          }
         } else {
          if i < 105 {
           Table::row(1193533200, 3600, 0, "CET")
          } else {
           if i < 106 {
            Table::row(1206838800, 3600, 3600, "CEST")
           } else {
            Table::row(1224982800, 3600, 0, "CET")
           }
          }
         }
        } else {
         if i < 109 {
          if i < 108 {
           Table::row(1238288400, 3600, 3600, "CEST")
          } else {
           Table::row(1256432400, 3600, 0, "CET")
          }
         } else {
          if i < 110 {
           Table::row(1269738000, 3600, 3600, "CEST")
          } else {
           if i < 111 {
            Table::row(1288486800, 3600, 0, "CET")
           } else {
            Table::row(1301187600, 3600, 3600, "CEST")
           }
          }
         }
        }
       } else {
        if i < 117 {
         if i < 114 {
          if i < 113 {
           Table::row(1319936400, 3600, 0, "CET")
          } else {
           Table::row(1332637200, 3600, 3600, "CEST")
          }
         } else {
          if i < 115 {
           Table::row(1351386000, 3600, 0, "CET")
          } else {
           if i < 116 {
            Table::row(1364691600, 3600, 3600, "CEST")
           } else {
            Table::row(1382835600, 3600, 0, "CET")
           }
          }
         }
        } else {
         if i < 120 {
          if i < 118 {
           Table::row(1396141200, 3600, 3600, "CEST")
          } else {
           if i < 119 {
            Table::row(1414285200, 3600, 0, "CET")
           } else {
            Table::row(1427590800, 3600, 3600, "CEST")
           }
          }
         } else {
          if i < 121 {
           Table::row(1445734800, 3600, 0, "CET")
          } else {
           if i < 122 {
            Table::row(1459040400, 3600, 3600, "CEST")
           } else {
            Table::row(1477789200, 3600, 0, "CET")
           }
          }
         }
        }
       }
      }
     } else {
      if i < 144 {
       if i < 133 {
        if i < 128 {
         if i < 125 {
          if i < 124 {
           Table::row(1490490000, 3600, 3600, "CEST")
          } else {
           Table::row(1509238800, 3600, 0, "CET")
          }
         } else {
          if i < 126 {
           Table::row(1521939600, 3600, 3600, "CEST")
          } else {
           if i < 127 {
            Table::row(1540688400, 3600, 0, "CET")
           } else {
            Table::row(1553994000, 3600, 3600, "CEST")
           }
          }
         }
        } else {
         if i < 130 {
          if i < 129 {
           Table::row(1572138000, 3600, 0, "CET")
          } else {
           Table::row(1585443600, 3600, 3600, "CEST")
          }
         } else {
          if i < 131 {
           Table::row(1603587600, 3600, 0, "CET")
          } else {
           if i < 132 {
            Table::row(1616893200, 3600, 3600, "CEST")
           } else {
            Table::row(1635642000, 3600, 0, "CET")
           }
          }
         }
        }
       } else {
        if i < 138 {
         if i < 135 {
          if i < 134 {
           Table::row(1648342800, 3600, 3600, "CEST")
          } else {
           Table::row(1667091600, 3600, 0, "CET")
          }
         } else {
          if i < 136 {
           Table::row(1679792400, 3600, 3600, "CEST")
          } else {
           if i < 137 {
            Table::row(1698541200, 3600, 0, "CET")
           } else {
            Table::row(1711846800, 3600, 3600, "CEST")
           }
          }
         }
        } else {
         if i < 141 {
          if i < 139 {
           Table::row(1729990800, 3600, 0, "CET")
          } else {
           if i < 140 {
            Table::row(1743296400, 3600, 3600, "CEST")
           } else {
            Table::row(1761440400, 3600, 0, "CET")
           }
          }
         } else {
          if i < 142 {
           Table::row(1774746000, 3600, 3600, "CEST")
          } else {
           if i < 143 {
            Table::row(1792890000, 3600, 0, "CET")
           } else {
            Table::row(1806195600, 3600, 3600, "CEST")
           }
          }
         }
        }
       }
      } else {
       if i < 154 {
        if i < 149 {
         if i < 146 {
          if i < 145 {
           Table::row(1824944400, 3600, 0, "CET")
          } else {
           Table::row(1837645200, 3600, 3600, "CEST")
          }
         } else {
          if i < 147 {
           Table::row(1856394000, 3600, 0, "CET")
          } else {
           if i < 148 {
            Table::row(1869094800, 3600, 3600, "CEST")
           } else {
            Table::row(1887843600, 3600, 0, "CET")
           }
          }
         }
        } else {
         if i < 151 {
          if i < 150 {
           Table::row(1901149200, 3600, 3600, "CEST")
          } else {
           Table::row(1919293200, 3600, 0, "CET")
          }
         } else {
          if i < 152 {
           Table::row(1932598800, 3600, 3600, "CEST")
          } else {
           if i < 153 {
            Table::row(1950742800, 3600, 0, "CET")
           } else {
            Table::row(1964048400, 3600, 3600, "CEST")
           }
          }
         }
        }
       } else {
        if i < 159 {
         if i < 156 {
          if i < 155 {
           Table::row(1982797200, 3600, 0, "CET")
          } else {
           Table::row(1995498000, 3600, 3600, "CEST")
          }
         } else {
          if i < 157 {
           Table::row(2014246800, 3600, 0, "CET")
          } else {
           if i < 158 {
            Table::row(2026947600, 3600, 3600, "CEST")
           } else {
            Table::row(2045696400, 3600, 0, "CET")
           }
          }
         }
        } else {
         if i < 162 {
          if i < 160 {
           Table::row(2058397200, 3600, 3600, "CEST")
          } else {
           if i < 161 {
            Table::row(2077146000, 3600, 0, "CET")
           } else {
            Table::row(2090451600, 3600, 3600, "CEST")
           }
          }
         } else {
          if i < 163 {
           Table::row(2108595600, 3600, 0, "CET")
          } else {
           if i < 164 {
            Table::row(2121901200, 3600, 3600, "CEST")
           } else {
            Table::row(2140045200, 3600, 0, "CET")
           }
          }
         }
        }
       }
      }
     }
    }
}

/// The rows of the table of the zone `Europe/Warsaw`.
pub open spec fn warsaw_rows() -> spec_fn(int) -> (i64, FixedTimespan) {
    |i: int| warsaw_row(i)
}

/// The table of the zone `Europe/Warsaw`.
pub open spec fn warsaw() -> Table {
    Table::listed(Table::row(0, 5040, 0, "LMT").1, 165, warsaw_rows())
}

/// Row `i` of the table of the zone `Europe/Zagreb`.
pub open spec fn zagreb_row(i: int) -> (i64, FixedTimespan) {
    if i < 59 {
     if i < 29 {
      if i < 14 {
       if i < 7 {
        if i < 3 {
         if i < 1 {
          Table::row(-2713914232, 3600, 0, "CET")
         } else {
          if i < 2 {
           Table::row(-905824800, 3600, 3600, "CEST")
          } else {
           Table::row(-857257200, 3600, 0, "CET")
          }
         }
        } else {
         if i < 5 {
          if i < 4 {
           Table::row(-844556400, 3600, 3600, "CEST")
          } else {
           Table::row(-828226800, 3600, 0, "CET")
          }
         } else {
          if i < 6 {
           Table::row(-812502000, 3600, 3600, "CEST")
          } else {
           Table::row(-796777200, 3600, 0, "CET")
          }
         }
        }
       } else {
        if i < 10 {
         if i < 8 {
          Table::row(-781052400, 3600, 3600, "CEST")
         } else {
          if i < 9 {
           Table::row(-766623600, 3600, 0, "CET")
          } else {
           Table::row(417574800, 3600, 3600, "CEST")
          }
         }
        } else {
         if i < 12 {
          if i < 11 {
           Table::row(433299600, 3600, 0, "CET")
          } else {
           Table::row(449024400, 3600, 3600, "CEST")
          }
         } else {
          if i < 13 {
           Table::row(465354000, 3600, 0, "CET")
          } else {
           Table::row(481078800, 3600, 3600, "CEST")
          }
         }
        }
       }
      } else {
       if i < 21 {
        if i < 17 {
         if i < 15 {
          Table::row(496803600, 3600, 0, "CET")
         } else {
          if i < 16 {
           Table::row(512528400, 3600, 3600, "CEST")
          } else {
           Table::row(528253200, 3600, 0, "CET")
          }
         }
        } else {
         if i < 19 {
          if i < 18 {
           Table::row(543978000, 3600, 3600, "CEST")
          } else {
           Table::row(559702800, 3600, 0, "CET")
          }
         } else {
          if i < 20 {
           Table::row(575427600, 3600, 3600, "CEST")
          } else {
           Table::row(591152400, 3600, 0, "CET")
          }
         }
        }
       } else {
        if i < 25 {
         if i < 23 {
          if i < 22 {
           Table::row(606877200, 3600, 3600, "CEST")
          } else {
           Table::row(622602000, 3600, 0, "CET")
          }
         } else {
          if i < 24 {
           Table::row(638326800, 3600, 3600, "CEST")
          } else {
           Table::row(654656400, 3600, 0, "CET")
          }
         }
        } else {
         if i < 27 {
          if i < 26 {
           Table::row(670381200, 3600, 3600, "CEST")
          } else {
           Table::row(686106000, 3600, 0, "CET")
          }
         } else {
          if i < 28 {
           Table::row(701830800, 3600, 3600, "CEST")
          } else {
           Table::row(717555600, 3600, 0, "CET")
          }
         }
        }
       }
      }
     } else {
      if i < 44 {
       if i < 36 {
        if i < 32 {
         if i < 30 {
          Table::row(733280400, 3600, 3600, "CEST")
         } else {
          if i < 31 {
           Table::row(749005200, 3600, 0, "CET")
          } else {
           Table::row(764730000, 3600, 3600, "CEST")
          }
         }
        } else {
         if i < 34 {
          if i < 33 {
           Table::row(780454800, 3600, 0, "CET")
          } else {
           Table::row(796179600, 3600, 3600, "CEST")
          }
         } else {
          if i < 35 {
           Table::row(811904400, 3600, 0, "CET")
          } else {
           Table::row(828234000, 3600, 3600, "CEST")
          }
         }
        }
       } else {
        if i < 40 {
         if i < 38 {
          if i < 37 {
           Table::row(846378000, 3600, 0, "CET")
          } else {
           Table::row(859683600, 3600, 3600, "CEST")
          }
         } else {
          if i < 39 {
           Table::row(877827600, 3600, 0, "CET")
          } else {
           Table::row(891133200, 3600, 3600, "CEST")
          }
         }
        } else {
         if i < 42 {
          if i < 41 {
           Table::row(909277200, 3600, 0, "CET")
          } else {
           Table::row(922582800, 3600, 3600, "CEST")
          }
         } else {
          if i < 43 {
           Table::row(941331600, 3600, 0, "CET")
          } else {
           Table::row(954032400, 3600, 3600, "CEST")
          }
         }
        }
       }
      } else {
       if i < 51 {
        if i < 47 {
         if i < 45 {
          Table::row(972781200, 3600, 0, "CET")
         } else {
          if i < 46 {
           Table::row(985482000, 3600, 3600, "CEST")
          } else {
           Table::row(1004230800, 3600, 0, "CET")
          }
         }
        } else {
         if i < 49 {
          if i < 48 {
           Table::row(1017536400, 3600, 3600, "CEST")
          } else {
           Table::row(1035680400, 3600, 0, "CET")
          }
         } else {
          if i < 50 {
           Table::row(1048986000, 3600, 3600, "CEST")
          } else {
           Table::row(1067130000, 3600, 0, "CET")
          }
         }
        }
       } else {
        if i < 55 {
         if i < 53 {
          if i < 52 {
           Table::row(1080435600, 3600, 3600, "CEST")
          } else {
           Table::row(1099184400, 3600, 0, "CET")
          }
         } else {
          if i < 54 {
           Table::row(1111885200, 3600, 3600, "CEST")
          } else {
           Table::row(1130634000, 3600, 0, "CET")
          }
         }
        } else {
         if i < 57 {
          if i < 56 {
           Table::row(1143334800, 3600, 3600, "CEST")
          } else {
           Table::row(1162083600, 3600, 0, "CET")
          }
         } else {
          if i < 58 {
           Table::row(1174784400, 3600, 3600, "CEST")
          } else {
           Table::row(1193533200, 3600, 0, "CET")
          }
         }
        }
       }
      }
     }
    } else {
     if i < 89 {
      if i < 74 {
       if i < 66 {
        if i < 62 {
         if i < 60 {
          Table::row(1206838800, 3600, 3600, "CEST")
         } else {
          if i < 61 {
           Table::row(1224982800, 3600, 0, "CET")
          } else {
           Table::row(1238288400, 3600, 3600, "CEST")
          }
         }
        } else {
         if i < 64 {
          if i < 63 {
           Table::row(1256432400, 3600, 0, "CET")
          } else {
           Table::row(1269738000, 3600, 3600, "CEST")
          }
         } else {
          if i < 65 {
           Table::row(1288486800, 3600, 0, "CET")
          } else {
           Table::row(1301187600, 3600, 3600, "CEST")
          }
         }
        }
       } else {
        if i < 70 {
         if i < 68 {
          if i < 67 {
           Table::row(1319936400, 3600, 0, "CET")
          } else {
           Table::row(1332637200, 3600, 3600, "CEST")
          }
         } else {
          if i < 69 {
           Table::row(1351386000, 3600, 0, "CET")
          } else {
           Table::row(1364691600, 3600, 3600, "CEST")
          }
         }
        } else {
         if i < 72 {
          if i < 71 {
           Table::row(1382835600, 3600, 0, "CET")
          } else {
           Table::row(1396141200, 3600, 3600, "CEST")
          }
         } else {
          if i < 73 {
           Table::row(1414285200, 3600, 0, "CET")
          } else {
           Table::row(1427590800, 3600, 3600, "CEST")
          }
         }
        }
       }
      } else {
       if i < 81 {
        if i < 77 {
         if i < 75 {
          Table::row(1445734800, 3600, 0, "CET")
         } else {
          if i < 76 {
           Table::row(1459040400, 3600, 3600, "CEST")
          } else {
           Table::row(1477789200, 3600, 0, "CET")
          }
         }
        } else {
         if i < 79 {
          if i < 78 {
           Table::row(1490490000, 3600, 3600, "CEST")
          } else {
           Table::row(1509238800, 3600, 0, "CET")
          }
         } else {
          if i < 80 {
           Table::row(1521939600, 3600, 3600, "CEST")
          } else {
           Table::row(1540688400, 3600, 0, "CET")
          }
         }
        }
       } else {
        if i < 85 {
         if i < 83 {
          if i < 82 {
           Table::row(1553994000, 3600, 3600, "CEST")
          } else {
           Table::row(1572138000, 3600, 0, "CET")
          }
         } else {
          if i < 84 {
           Table::row(1585443600, 3600, 3600, "CEST")
          } else {
           Table::row(1603587600, 3600, 0, "CET")
          }
         }
        } else {
         if i < 87 {
          if i < 86 {
           Table::row(1616893200, 3600, 3600, "CEST")
          } else {
           Table::row(1635642000, 3600, 0, "CET")
          }
         } else {
          if i < 88 {
           Table::row(1648342800, 3600, 3600, "CEST")
          } else {
           Table::row(1667091600, 3600, 0, "CET")
          }
         }
        }
       }
      }
     } else {
      if i < 104 {
       if i < 96 {
        if i < 92 {
         if i < 90 {
          Table::row(1679792400, 3600, 3600, "CEST")
         } else {
          if i < 91 {
           Table::row(1698541200, 3600, 0, "CET")
          } else {
           Table::row(1711846800, 3600, 3600, "CEST")
          }
         }
        } else {
         if i < 94 {
          if i < 93 {
           Table::row(1729990800, 3600, 0, "CET")
          } else {
           Table::row(1743296400, 3600, 3600, "CEST")
          }
         } else {
          if i < 95 {
           Table::row(1761440400, 3600, 0, "CET")
          } else {
           Table::row(1774746000, 3600, 3600, "CEST")
          }
         }
        }
       } else {
        if i < 100 {
         if i < 98 {
          if i < 97 {
           Table::row(1792890000, 3600, 0, "CET")
          } else {
           Table::row(1806195600, 3600, 3600, "CEST")
          }
         } else {
          if i < 99 {
           Table::row(1824944400, 3600, 0, "CET")
          } else {
           Table::row(1837645200, 3600, 3600, "CEST")
          }
         }
        } else {
         if i < 102 {
          if i < 101 {
           Table::row(1856394000, 3600, 0, "CET")
          } else {
           Table::row(1869094800, 3600, 3600, "CEST")
          }
         } else {
          if i < 103 {
           Table::row(1887843600, 3600, 0, "CET")
          } else {
           Table::row(1901149200, 3600, 3600, "CEST")
          }
         }
        }
       }
      } else {
       if i < 111 {
        if i < 107 {
         if i < 105 {
          Table::row(1919293200, 3600, 0, "CET")
         } else {
          if i < 106 {
           Table::row(1932598800, 3600, 3600, "CEST")
          } else {
           Table::row(1950742800, 3600, 0, "CET")
          }
         }
        } else {
         if i < 109 {
          if i < 108 {
           Table::row(1964048400, 3600, 3600, "CEST")
          } else {
           Table::row(1982797200, 3600, 0, "CET")
          }
         } else {
          if i < 110 {
           Table::row(1995498000, 3600, 3600, "CEST")
          } else {
           Table::row(2014246800, 3600, 0, "CET")
          }
         }
        }
       } else {
        if i < 115 {
         if i < 113 {
          if i < 112 {
           Table::row(2026947600, 3600, 3600, "CEST")
          } else {
           Table::row(2045696400, 3600, 0, "CET")
          }
         } else {
          if i < 114 {
           Table::row(2058397200, 3600, 3600, "CEST")
          } else {
           Table::row(2077146000, 3600, 0, "CET")
          }
         }
        } else {
         if i < 117 {
          if i < 116 {
           Table::row(2090451600, 3600, 3600, "CEST")
          } else {
           Table::row(2108595600, 3600, 0, "CET")
          }
         } else {
          if i < 118 {
           Table::row(2121901200, 3600, 3600, "CEST")
          } else {
           Table::row(2140045200, 3600, 0, "CET")
          }
         }
        }
       }
      }
     }
    }
}

/// The rows of the table of the zone `Europe/Zagreb`.
pub open spec fn zagreb_rows() -> spec_fn(int) -> (i64, FixedTimespan) {
    |i: int| zagreb_row(i)
}

/// The table of the zone `Europe/Zagreb`.
pub open spec fn zagreb() -> Table {
    Table::listed(Table::row(0, 3832, 0, "LMT").1, 119, zagreb_rows())
}

/// Row `i` of the table of the zone `Europe/Zaporozhye`.
pub open spec fn zaporozhye_row(i: int) -> (i64, FixedTimespan) {
    if i < 60 {
     if i < 30 {
      if i < 15 {
       if i < 7 {
        if i < 3 {
         if i < 1 {
          Table::row(-2840148124, 7324, 0, "KMT")
         } else {
          if i < 2 {
           Table::row(-1441159324, 7200, 0, "EET")
          } else {
           Table::row(-1247536800, 10800, 0, "MSK")
          }
         }
        } else {
         if i < 5 {
          if i < 4 {
           Table::row(-892522800, 3600, 3600, "CEST")
          } else {
           Table::row(-857257200, 3600, 0, "CET")
          }
         } else {
          if i < 6 {
           Table::row(-844556400, 3600, 3600, "CEST")
          } else {
           Table::row(-828226800, 3600, 0, "CET")
          }
         }
        }
       } else {
        if i < 11 {
         if i < 9 {
          if i < 8 {
           Table::row(-825382800, 10800, 0, "MSK")
          } else {
           Table::row(354920400, 10800, 3600, "MSD")
          }
         } else {
          if i < 10 {
           Table::row(370728000, 10800, 0, "MSK")
          } else {
           Table::row(386456400, 10800, 3600, "MSD")
          }
         }
        } else {
         if i < 13 {
          if i < 12 {
           Table::row(402264000, 10800, 0, "MSK")
          } else {
           Table::row(417992400, 10800, 3600, "MSD")
          }
         } else {
          if i < 14 {
           Table::row(433800000, 10800, 0, "MSK")
          } else {
           Table::row(449614800, 10800, 3600, "MSD")
          }
         }
        }
       }
      } else {
       if i < 22 {
        if i < 18 {
         if i < 16 {
          Table::row(465346800, 10800, 0, "MSK")
         } else {
          if i < 17 {
           Table::row(481071600, 10800, 3600, "MSD")
          } else {
           Table::row(496796400, 10800, 0, "MSK")
          }
         }
        } else {
         if i < 20 {
          if i < 19 {
           Table::row(512521200, 10800, 3600, "MSD")
          } else {
           Table::row(528246000, 10800, 0, "MSK")
          }
         } else {
          if i < 21 {
           Table::row(543970800, 10800, 3600, "MSD")
          } else {
           Table::row(559695600, 10800, 0, "MSK")
          }
         }
        }
       } else {
        if i < 26 {
         if i < 24 {
          if i < 23 {
           Table::row(575420400, 10800, 3600, "MSD")
          } else {
           Table::row(591145200, 10800, 0, "MSK")
          }
         } else {
          if i < 25 {
           Table::row(606870000, 10800, 3600, "MSD")
          } else {
           Table::row(622594800, 10800, 0, "MSK")
          }
         }
        } else {
         if i < 28 {
          if i < 27 {
           Table::row(638319600, 10800, 3600, "MSD")
          } else {
           Table::row(646783200, 7200, 3600, "EEST")
          }
         } else {
          if i < 29 {
           Table::row(686102400, 7200, 0, "EET")
          } else {
           Table::row(701827200, 7200, 3600, "EEST")
          }
         }
        }
       }
      }
     } else {
      if i < 45 {
       if i < 37 {
        if i < 33 {
         if i < 31 {
          Table::row(717552000, 7200, 0, "EET")
         } else {
          if i < 32 {
           Table::row(733276800, 7200, 3600, "EEST")
          } else {
           Table::row(749001600, 7200, 0, "EET")
          }
         }
        } else {
         if i < 35 {
          if i < 34 {
           Table::row(764726400, 7200, 3600, "EEST")
          } else {
           Table::row(780451200, 7200, 0, "EET")
          }
         } else {
          if i < 36 {
           Table::row(796176000, 7200, 3600, "EEST")
          } else {
           Table::row(811900800, 7200, 0, "EET")
          }
         }
        }
       } else {
        if i < 41 {
         if i < 39 {
          if i < 38 {
           Table::row(828230400, 7200, 3600, "EEST")
          } else {
           Table::row(846378000, 7200, 0, "EET")
          }
         } else {
          if i < 40 {
           Table::row(859683600, 7200, 3600, "EEST")
          } else {
           Table::row(877827600, 7200, 0, "EET")
          }
         }
        } else {
         if i < 43 {
          if i < 42 {
           Table::row(891133200, 7200, 3600, "EEST")
          } else {
           Table::row(909277200, 7200, 0, "EET")
          }
         } else {
          if i < 44 {
           Table::row(922582800, 7200, 3600, "EEST")
          } else {
           Table::row(941331600, 7200, 0, "EET")
          }
         }
        }
       }
      } else {
       if i < 52 {
        if i < 48 {
         if i < 46 {
          Table::row(954032400, 7200, 3600, "EEST")
         } else {
          if i < 47 {
           Table::row(972781200, 7200, 0, "EET")
          } else {
           Table::row(985482000, 7200, 3600, "EEST")
          }
         }
        } else {
         if i < 50 {
          if i < 49 {
           Table::row(1004230800, 7200, 0, "EET")
          } else {
           Table::row(1017536400, 7200, 3600, "EEST")
          }
         } else {
          if i < 51 {
           Table::row(1035680400, 7200, 0, "EET")
          } else {
           Table::row(1048986000, 7200, 3600, "EEST")
          }
         }
        }
       } else {
        if i < 56 {
         if i < 54 {
          if i < 53 {
           Table::row(1067130000, 7200, 0, "EET")
          } else {
           Table::row(1080435600, 7200, 3600, "EEST")
          }
         } else {
          if i < 55 {
           Table::row(1099184400, 7200, 0, "EET")
          } else {
           Table::row(1111885200, 7200, 3600, "EEST")
          }
         }
        } else {
         if i < 58 {
          if i < 57 {
           Table::row(1130634000, 7200, 0, "EET")
          } else {
           Table::row(1143334800, 7200, 3600, "EEST")
          }
         } else {
          if i < 59 {
           Table::row(1162083600, 7200, 0, "EET")
          } else {
           Table::row(1174784400, 7200, 3600, "EEST")
          }
         }
        }
       }
      }
     }
    } else {
     if i < 90 {
      if i < 75 {
       if i < 67 {
        if i < 63 {
         if i < 61 {
          Table::row(1193533200, 7200, 0, "EET")
         } else {
          if i < 62 {
           Table::row(1206838800, 7200, 3600, "EEST")
          } else {
           Table::row(1224982800, 7200, 0, "EET")
          }
         }
        } else {
         if i < 65 {
          if i < 64 {
           Table::row(1238288400, 7200, 3600, "EEST")
          } else {
           Table::row(1256432400, 7200, 0, "EET")
          }
         } else {
          if i < 66 {
           Table::row(1269738000, 7200, 3600, "EEST")
          } else {
           Table::row(1288486800, 7200, 0, "EET")
          }
         }
        }
       } else {
        if i < 71 {
         if i < 69 {
          if i < 68 {
           Table::row(1301187600, 7200, 3600, "EEST")
          } else {
           Table::row(1319936400, 7200, 0, "EET")
          }
         } else {
          if i < 70 {
           Table::row(1332637200, 7200, 3600, "EEST")
          } else {
           Table::row(1351386000, 7200, 0, "EET")
          }
         }
        } else {
         if i < 73 {
          if i < 72 {
           Table::row(1364691600, 7200, 3600, "EEST")
          } else {
           Table::row(1382835600, 7200, 0, "EET")
          }
         } else {
          if i < 74 {
           Table::row(1396141200, 7200, 3600, "EEST")
          } else {
           Table::row(1414285200, 7200, 0, "EET")
          }
         }
        }
       }
      } else {
       if i < 82 {
        if i < 78 {
         if i < 76 {
          Table::row(1427590800, 7200, 3600, "EEST")
         } else {
          if i < 77 {
           Table::row(1445734800, 7200, 0, "EET")
          } else {
           Table::row(1459040400, 7200, 3600, "EEST")
          }
         }
        } else {
         if i < 80 {
          if i < 79 {
           Table::row(1477789200, 7200, 0, "EET")
          } else {
           Table::row(1490490000, 7200, 3600, "EEST")
          }
         } else {
          if i < 81 {
           Table::row(1509238800, 7200, 0, "EET")
          } else {
           Table::row(1521939600, 7200, 3600, "EEST")
          }
         }
        }
       } else {
        if i < 86 {
         if i < 84 {
          if i < 83 {
           Table::row(1540688400, 7200, 0, "EET")
          } else {
           Table::row(1553994000, 7200, 3600, "EEST")
          }
         } else {
          if i < 85 {
           Table::row(1572138000, 7200, 0, "EET")
          } else {
           Table::row(1585443600, 7200, 3600, "EEST")
          }
         }
        } else {
         if i < 88 {
          if i < 87 {
           Table::row(1603587600, 7200, 0, "EET")
          } else {
           Table::row(1616893200, 7200, 3600, "EEST")
          }
         } else {
          if i < 89 {
           Table::row(1635642000, 7200, 0, "EET")
          } else {
           Table::row(1648342800, 7200, 3600, "EEST")
          }
         }
        }
       }
      }
     } else {
      if i < 105 {
       if i < 97 {
        if i < 93 {
         if i < 91 {
          Table::row(1667091600, 7200, 0, "EET")
         } else {
          if i < 92 {
           Table::row(1679792400, 7200, 3600, "EEST")
          } else {
           Table::row(1698541200, 7200, 0, "EET")
          }
         }
        } else {
         if i < 95 {
          if i < 94 {
           Table::row(1711846800, 7200, 3600, "EEST")
          } else {
           Table::row(1729990800, 7200, 0, "EET")
          }
         } else {
          if i < 96 {
           Table::row(1743296400, 7200, 3600, "EEST")
          } else {
           Table::row(1761440400, 7200, 0, "EET")
          }
         }
        }
       } else {
        if i < 101 {
         if i < 99 {
          if i < 98 {
           Table::row(1774746000, 7200, 3600, "EEST")
          } else {
           Table::row(1792890000, 7200, 0, "EET")
          }
         } else {
          if i < 100 {
           Table::row(1806195600, 7200, 3600, "EEST")
          } else {
           Table::row(1824944400, 7200, 0, "EET")
          }
         }
        } else {
         if i < 103 {
          if i < 102 {
           Table::row(1837645200, 7200, 3600, "EEST")
          } else {
           Table::row(1856394000, 7200, 0, "EET")
          }
         } else {
          if i < 104 {
           Table::row(1869094800, 7200, 3600, "EEST")
          } else {
           Table::row(1887843600, 7200, 0, "EET")
          }
         }
        }
       }
      } else {
       if i < 113 {
        if i < 109 {
         if i < 107 {
          if i < 106 {
           Table::row(1901149200, 7200, 3600, "EEST")
          } else {
           Table::row(1919293200, 7200, 0, "EET")
          }
         } else {
          if i < 108 {
           Table::row(1932598800, 7200, 3600, "EEST")
          } else {
           Table::row(1950742800, 7200, 0, "EET")
          }
         }
        } else {
         if i < 111 {
          if i < 110 {
           Table::row(1964048400, 7200, 3600, "EEST")
          } else {
           Table::row(1982797200, 7200, 0, "EET")
          }
         } else {
          if i < 112 {
           Table::row(1995498000, 7200, 3600, "EEST")
          } else {
           Table::row(2014246800, 7200, 0, "EET")
          }
         }
        }
       } else {
        if i < 117 {
         if i < 115 {
          if i < 114 {
           Table::row(2026947600, 7200, 3600, "EEST")
          } else {
           Table::row(2045696400, 7200, 0, "EET")
          }
         } else {
          if i < 116 {
           Table::row(2058397200, 7200, 3600, "EEST")
          } else {
           Table::row(2077146000, 7200, 0, "EET")
          }
         }
        } else {
         if i < 119 {
          if i < 118 {
           Table::row(2090451600, 7200, 3600, "EEST")
          } else {
           Table::row(2108595600, 7200, 0, "EET")
          }
         } else {
          if i < 120 {
           Table::row(2121901200, 7200, 3600, "EEST")
          } else {
           Table::row(2140045200, 7200, 0, "EET")
          }
         }
        }
       }
      }
     }
    }
}

/// The rows of the table of the zone `Europe/Zaporozhye`.
pub open spec fn zaporozhye_rows() -> spec_fn(int) -> (i64, FixedTimespan) {
    |i: int| zaporozhye_row(i)
}

/// The table of the zone `Europe/Zaporozhye`.
pub open spec fn zaporozhye() -> Table {
    Table::listed(Table::row(0, 7324, 0, "LMT").1, 121, zaporozhye_rows())
}

/// Row `i` of the table of the zone `Europe/Zurich`.
pub open spec fn zurich_row(i: int) -> (i64, FixedTimespan) {
    if i < 60 {
     if i < 30 {
      if i < 15 {
       if i < 7 {
        if i < 3 {
         if i < 1 {
          Table::row(-3675198848, 1786, 0, "BMT")
         } else {
          if i < 2 {
           Table::row(-2385246586, 3600, 0, "CET")
          } else {
           Table::row(-904435200, 3600, 3600, "CEST")
          }
         }
        } else {
         if i < 5 {
          if i < 4 {
           Table::row(-891129600, 3600, 0, "CET")
          } else {
           Table::row(-872985600, 3600, 3600, "CEST")
          }
         } else {
          if i < 6 {
           Table::row(-859680000, 3600, 0, "CET")
          } else {
           Table::row(354675600, 3600, 3600, "CEST")
          }
         }
        }
       } else {
        if i < 11 {
         if i < 9 {
          if i < 8 {
           Table::row(370400400, 3600, 0, "CET")
          } else {
           Table::row(386125200, 3600, 3600, "CEST")
          }
         } else {
          if i < 10 {
           Table::row(401850000, 3600, 0, "CET")
          } else {
           Table::row(417574800, 3600, 3600, "CEST")
          }
         }
        } else {
         if i < 13 {
          if i < 12 {
           Table::row(433299600, 3600, 0, "CET")
          } else {
           Table::row(449024400, 3600, 3600, "CEST")
          }
         } else {
          if i < 14 {
           Table::row(465354000, 3600, 0, "CET")
          } else {
           Table::row(481078800, 3600, 3600, "CEST")
          }
         }
        }
       }
      } else {
       if i < 22 {
        if i < 18 {
         if i < 16 {
          Table::row(496803600, 3600, 0, "CET")
         } else {
          if i < 17 {
           Table::row(512528400, 3600, 3600, "CEST")
          } else {
           Table::row(528253200, 3600, 0, "CET")
          }
         }
        } else {
         if i < 20 {
          if i < 19 {
           Table::row(543978000, 3600, 3600, "CEST")
          } else {
           Table::row(559702800, 3600, 0, "CET")
          }
         } else {
          if i < 21 {
           Table::row(575427600, 3600, 3600, "CEST")
          } else {
           Table::row(591152400, 3600, 0, "CET")
          }
         }
        }
       } else {
        if i < 26 {
         if i < 24 {
          if i < 23 {
           Table::row(606877200, 3600, 3600, "CEST")
          } else {
           Table::row(622602000, 3600, 0, "CET")
          }
         } else {
          if i < 25 {
           Table::row(638326800, 3600, 3600, "CEST")
          } else {
           Table::row(654656400, 3600, 0, "CET")
          }
         }
        } else {
         if i < 28 {
          if i < 27 {
           Table::row(670381200, 3600, 3600, "CEST")
          } else {
           Table::row(686106000, 3600, 0, "CET")
          }
         } else {
          if i < 29 {
           Table::row(701830800, 3600, 3600, "CEST")
          } else {
           Table::row(717555600, 3600, 0, "CET")
          }
         }
        }
       }
      }
     } else {
      if i < 45 {
       if i < 37 {
        if i < 33 {
         if i < 31 {
          Table::row(733280400, 3600, 3600, "CEST")
         } else {
          if i < 32 {
           Table::row(749005200, 3600, 0, "CET")
          } else {
           Table::row(764730000, 3600, 3600, "CEST")
          }
         }
        } else {
         if i < 35 {
          if i < 34 {
           Table::row(780454800, 3600, 0, "CET")
          } else {
           Table::row(796179600, 3600, 3600, "CEST")
          }
         } else {
          if i < 36 {
           Table::row(811904400, 3600, 0, "CET")
          } else {
           Table::row(828234000, 3600, 3600, "CEST")
          }
         }
        }
       } else {
        if i < 41 {
         if i < 39 {
          if i < 38 {
           Table::row(846378000, 3600, 0, "CET")
          } else {
           Table::row(859683600, 3600, 3600, "CEST")
          }
         } else {
          if i < 40 {
           Table::row(877827600, 3600, 0, "CET")
          } else {
           Table::row(891133200, 3600, 3600, "CEST")
          }
         }
        } else {
         if i < 43 {
          if i < 42 {
           Table::row(909277200, 3600, 0, "CET")
          } else {
           Table::row(922582800, 3600, 3600, "CEST")
          }
         } else {
          if i < 44 {
           Table::row(941331600, 3600, 0, "CET")
          } else {
           Table::row(954032400, 3600, 3600, "CEST")
          }
         }
        }
       }
      } else {
       if i < 52 {
        if i < 48 {
         if i < 46 {
          Table::row(972781200, 3600, 0, "CET")
         } else {
          if i < 47 {
           Table::row(985482000, 3600, 3600, "CEST")
          } else {
           Table::row(1004230800, 3600, 0, "CET")
          }
         }
        } else {
         if i < 50 {
          if i < 49 {
           Table::row(1017536400, 3600, 3600, "CEST")
          } else {
           Table::row(1035680400, 3600, 0, "CET")
          }
         } else {
          if i < 51 {
           Table::row(1048986000, 3600, 3600, "CEST")
          } else {
           Table::row(1067130000, 3600, 0, "CET")
          }
         }
        }
       } else {
        if i < 56 {
         if i < 54 {
          if i < 53 {
           Table::row(1080435600, 3600, 3600, "CEST")
          } else {
           Table::row(1099184400, 3600, 0, "CET")
          }
         } else {
          if i < 55 {
           Table::row(1111885200, 3600, 3600, "CEST")
          } else {
           Table::row(1130634000, 3600, 0, "CET")
          }
         }
        } else {
         if i < 58 {
          if i < 57 {
           Table::row(1143334800, 3600, 3600, "CEST")
          } else {
           Table::row(1162083600, 3600, 0, "CET")
          }
         } else {
          if i < 59 {
           Table::row(1174784400, 3600, 3600, "CEST")
          } else {
           Table::row(1193533200, 3600, 0, "CET")
          }
         }
        }
       }
      }
     }
    } else {
     if i < 90 {
      if i < 75 {
       if i < 67 {
        if i < 63 {
         if i < 61 {
          Table::row(1206838800, 3600, 3600, "CEST")
         } else {
          if i < 62 {
           Table::row(1224982800, 3600, 0, "CET")
          } else {
           Table::row(1238288400, 3600, 3600, "CEST")
          }
         }
        } else {
         if i < 65 {
          if i < 64 {
           Table::row(1256432400, 3600, 0, "CET")
          } else {
           Table::row(1269738000, 3600, 3600, "CEST")
          }
         } else {
          if i < 66 {
           Table::row(1288486800, 3600, 0, "CET")
          } else {
           Table::row(1301187600, 3600, 3600, "CEST")
          }
         }
        }
       } else {
        if i < 71 {
         if i < 69 {
          if i < 68 {
           Table::row(1319936400, 3600, 0, "CET")
          } else {
           Table::row(1332637200, 3600, 3600, "CEST")
          }
         } else {
          if i < 70 {
           Table::row(1351386000, 3600, 0, "CET")
          } else {
           Table::row(1364691600, 3600, 3600, "CEST")
          }
         }
        } else {
         if i < 73 {
          if i < 72 {
           Table::row(1382835600, 3600, 0, "CET")
          } else {
           Table::row(1396141200, 3600, 3600, "CEST")
          }
         } else {
          if i < 74 {
           Table::row(1414285200, 3600, 0, "CET")
          } else {
           Table::row(1427590800, 3600, 3600, "CEST")
          }
         }
        }
       }
      } else {
       if i < 82 {
        if i < 78 {
         if i < 76 {
          Table::row(1445734800, 3600, 0, "CET")
         } else {
          if i < 77 {
           Table::row(1459040400, 3600, 3600, "CEST")
          } else {
           Table::row(1477789200, 3600, 0, "CET")
          }
         }
        } else {
         if i < 80 {
          if i < 79 {
           Table::row(1490490000, 3600, 3600, "CEST")
          } else {
           Table::row(1509238800, 3600, 0, "CET")
          }
         } else {
          if i < 81 {
           Table::row(1521939600, 3600, 3600, "CEST")
          } else {
           Table::row(1540688400, 3600, 0, "CET")
          }
         }
        }
       } else {
        if i < 86 {
         if i < 84 {
          if i < 83 {
           Table::row(1553994000, 3600, 3600, "CEST")
          } else {
           Table::row(1572138000, 3600, 0, "CET")
          }
         } else {
          if i < 85 {
           Table::row(1585443600, 3600, 3600, "CEST")
          } else {
           Table::row(1603587600, 3600, 0, "CET")
          }
         }
        } else {
         if i < 88 {
          if i < 87 {
           Table::row(1616893200, 3600, 3600, "CEST")
          } else {
           Table::row(1635642000, 3600, 0, "CET")
          }
         } else {
          if i < 89 {
           Table::row(1648342800, 3600, 3600, "CEST")
          } else {
           Table::row(1667091600, 3600, 0, "CET")
          }
         }
        }
       }
      }
     } else {
      if i < 105 {
       if i < 97 {
        if i < 93 {
         if i < 91 {
          Table::row(1679792400, 3600, 3600, "CEST")
         } else {
          if i < 92 {
           Table::row(1698541200, 3600, 0, "CET")
          } else {
           Table::row(1711846800, 3600, 3600, "CEST")
          }
         }
        } else {
         if i < 95 {
          if i < 94 {
           Table::row(1729990800, 3600, 0, "CET")
          } else {
           Table::row(1743296400, 3600, 3600, "CEST")
          }
         } else {
          if i < 96 {
           Table::row(1761440400, 3600, 0, "CET")
          } else {
           Table::row(1774746000, 3600, 3600, "CEST")
          }
         }
        }
       } else {
        if i < 101 {
         if i < 99 {
          if i < 98 {
           Table::row(1792890000, 3600, 0, "CET")
          } else {
           Table::row(1806195600, 3600, 3600, "CEST")
          }
         } else {
          if i < 100 {
           Table::row(1824944400, 3600, 0, "CET")
          } else {
           Table::row(1837645200, 3600, 3600, "CEST")
          }
         }
        } else {
         if i < 103 {
          if i < 102 {
           Table::row(1856394000, 3600, 0, "CET")
          } else {
           Table::row(1869094800, 3600, 3600, "CEST")
          }
         } else {
          if i < 104 {
           Table::row(1887843600, 3600, 0, "CET")
          } else {
           Table::row(1901149200, 3600, 3600, "CEST")
          }
         }
        }
       }
      } else {
       if i < 112 {
        if i < 108 {
         if i < 106 {
          Table::row(1919293200, 3600, 0, "CET")
         } else {
          if i < 107 {
           Table::row(1932598800, 3600, 3600, "CEST")
          } else {
           Table::row(1950742800, 3600, 0, "CET")
          }
         }
        } else {
         if i < 110 {
          if i < 109 {
           Table::row(1964048400, 3600, 3600, "CEST")
          } else {
           Table::row(1982797200, 3600, 0, "CET")
          }
         } else {
          if i < 111 {
           Table::row(1995498000, 3600, 3600, "CEST")
          } else {
           Table::row(2014246800, 3600, 0, "CET")
          }
         }
        }
       } else {
        if i < 116 {
         if i < 114 {
          if i < 113 {
           Table::row(2026947600, 3600, 3600, "CEST")
          } else {
           Table::row(2045696400, 3600, 0, "CET")
          }
         } else {
          if i < 115 {
           Table::row(2058397200, 3600, 3600, "CEST")
          } else {
           Table::row(2077146000, 3600, 0, "CET")
          }
         }
        } else {
         if i < 118 {
          if i < 117 {
           Table::row(2090451600, 3600, 3600, "CEST")
          } else {
           Table::row(2108595600, 3600, 0, "CET")
          }
         } else {
          if i < 119 {
           Table::row(2121901200, 3600, 3600, "CEST")
          } else {
           Table::row(2140045200, 3600, 0, "CET")
          }
         }
        }
       }
      }
     }
    }
}

/// The rows of the table of the zone `Europe/Zurich`.
pub open spec fn zurich_rows() -> spec_fn(int) -> (i64, FixedTimespan) {
    |i: int| zurich_row(i)
}

/// The table of the zone `Europe/Zurich`.
pub open spec fn zurich() -> Table {
    Table::listed(Table::row(0, 2048, 0, "LMT").1, 120, zurich_rows())
}

} // verus!
