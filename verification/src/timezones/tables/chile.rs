//! The tables of the zones of Chile, under their older names.

use crate::timezone_impl::{FixedTimespan, Table};
use vstd::prelude::*;

verus! {

/// Row `i` of the table of the zone `Chile/Continental`.
pub open spec fn continental_row(i: int) -> (i64, FixedTimespan) {
    if i < 80 {
     if i < 40 {
      if i < 20 {
       if i < 10 {
        if i < 5 {
         if i < 2 {
          if i < 1 {
           Table::row(-2524504635, -16965, 0, "SMT")
          } else {
           Table::row(-1892661435, -18000, 0, "-05")
          }
         } else {
          if i < 3 {
           Table::row(-1688410800, -16965, 0, "SMT")
          } else {
           if i < 4 {
            Table::row(-1619205435, -14400, 0, "-04")
           } else {
            Table::row(-1593806400, -16965, 0, "SMT")
           }
          }
         }
        } else {
         if i < 7 {
          if i < 6 {
           Table::row(-1335986235, -16965, 2565, "-04")
          } else {
           Table::row(-1317585600, -18000, 0, "-05")
          }
         } else {
          if i < 8 {
           Table::row(-1304362800, -18000, 3600, "-04")
          } else {
           if i < 9 {
            Table::row(-1286049600, -18000, 0, "-05")
           } else {
            Table::row(-1272826800, -18000, 3600, "-04")
           }
          }
         }
        }
       } else {
        if i < 15 {
         if i < 12 {
          if i < 11 {
           Table::row(-1254513600, -18000, 0, "-05")
          } else {
           Table::row(-1241290800, -18000, 3600, "-04")
          }
         } else {
          if i < 13 {
           Table::row(-1222977600, -18000, 0, "-05")
          } else {
           if i < 14 {
            Table::row(-1209754800, -18000, 3600, "-04")
           } else {
            Table::row(-1191355200, -18000, 0, "-05")
           }
          }
         }
        } else {
         if i < 17 {
          if i < 16 {
           Table::row(-1178132400, -14400, 0, "-04")
          } else {
           Table::row(-870552000, -18000, 0, "-05")
          }
         } else {
          if i < 18 {
           Table::row(-865278000, -14400, 0, "-04")
          } else {
           if i < 19 {
            Table::row(-740520000, -14400, 3600, "-03")
           } else {
            Table::row(-736635600, -18000, 3600, "-04")
           }
          }
         }
        }
       }
      } else {
       if i < 30 {
        if i < 25 {
         if i < 22 {
          if i < 21 {
           Table::row(-718056000, -18000, 0, "-05")
          } else {
           Table::row(-713649600, -14400, 0, "-04")
          }
         } else {
          if i < 23 {
           Table::row(-36619200, -14400, 3600, "-03")
          } else {
           if i < 24 {
            Table::row(-23922000, -14400, 0, "-04")
           } else {
            Table::row(-3355200, -14400, 3600, "-03")
           }
          }
         }
        } else {
         if i < 27 {
          if i < 26 {
           Table::row(7527600, -14400, 0, "-04")
          } else {
           Table::row(24465600, -14400, 3600, "-03")
          }
         } else {
          if i < 28 {
           Table::row(37767600, -14400, 0, "-04")
          } else {
           if i < 29 {
            Table::row(55915200, -14400, 3600, "-03")
           } else {
            Table::row(69217200, -14400, 0, "-04")
           }
          }
         }
        }
       } else {
        if i < 35 {
         if i < 32 {
          if i < 31 {
           Table::row(87969600, -14400, 3600, "-03")
          } else {
           Table::row(100666800, -14400, 0, "-04")
          }
         } else {
          if i < 33 {
           Table::row(118209600, -14400, 3600, "-03")
          } else {
           if i < 34 {
            Table::row(132116400, -14400, 0, "-04")
           } else {
            Table::row(150868800, -14400, 3600, "-03")
           }
          }
         }
        } else {
         if i < 37 {
          if i < 36 {
           Table::row(163566000, -14400, 0, "-04")
          } else {
           Table::row(182318400, -14400, 3600, "-03")
          }
         } else {
          if i < 38 {
           Table::row(195620400, -14400, 0, "-04")
          } else {
           if i < 39 {
            Table::row(213768000, -14400, 3600, "-03")
           } else {
            Table::row(227070000, -14400, 0, "-04")
           }
          }
         }
        }
       }
      }
     } else {
      if i < 60 {
       if i < 50 {
        if i < 45 {
         if i < 42 {
          if i < 41 {
           Table::row(245217600, -14400, 3600, "-03")
          } else {
           Table::row(258519600, -14400, 0, "-04")
          }
         } else {
          if i < 43 {
           Table::row(277272000, -14400, 3600, "-03")
          } else {
           if i < 44 {
            Table::row(289969200, -14400, 0, "-04")
           } else {
            Table::row(308721600, -14400, 3600, "-03")
           }
          }
         }
        } else {
         if i < 47 {
          if i < 46 {
           Table::row(321418800, -14400, 0, "-04")
          } else {
           Table::row(340171200, -14400, 3600, "-03")
          }
         } else {
          if i < 48 {
           Table::row(353473200, -14400, 0, "-04")
          } else {
           if i < 49 {
            Table::row(371620800, -14400, 3600, "-03")
           } else {
            Table::row(384922800, -14400, 0, "-04")
           }
          }
         }
        }
       } else {
        if i < 55 {
         if i < 52 {
          if i < 51 {
           Table::row(403070400, -14400, 3600, "-03")
          } else {
           Table::row(416372400, -14400, 0, "-04")
          }
         } else {
          if i < 53 {
           Table::row(434520000, -14400, 3600, "-03")
          } else {
           if i < 54 {
            Table::row(447822000, -14400, 0, "-04")
           } else {
            Table::row(466574400, -14400, 3600, "-03")
           }
          }
         }
        } else {
         if i < 57 {
          if i < 56 {
           Table::row(479271600, -14400, 0, "-04")
          } else {
           Table::row(498024000, -14400, 3600, "-03")
          }
         } else {
          if i < 58 {
           Table::row(510721200, -14400, 0, "-04")
          } else {
           if i < 59 {
            Table::row(529473600, -14400, 3600, "-03")
           } else {
            Table::row(545194800, -14400, 0, "-04")
           }
          }
         }
        }
       }
      } else {
       if i < 70 {
        if i < 65 {
         if i < 62 {
          if i < 61 {
           Table::row(560923200, -14400, 3600, "-03")
          } else {
           Table::row(574225200, -14400, 0, "-04")
          }
         } else {
          if i < 63 {
           Table::row(592372800, -14400, 3600, "-03")
          } else {
           if i < 64 {
            Table::row(605674800, -14400, 0, "-04")
           } else {
            Table::row(624427200, -14400, 3600, "-03")
           }
          }
         }
        } else {
         if i < 67 {
          if i < 66 {
           Table::row(637124400, -14400, 0, "-04")
          } else {
           Table::row(653457600, -14400, 3600, "-03")
          }
         } else {
          if i < 68 {
           Table::row(668574000, -14400, 0, "-04")
          } else {
           if i < 69 {
            Table::row(687326400, -14400, 3600, "-03")
           } else {
            Table::row(700628400, -14400, 0, "-04")
           }
          }
         }
        }
       } else {
        if i < 75 {
         if i < 72 {
          if i < 71 {
           Table::row(718776000, -14400, 3600, "-03")
          } else {
           Table::row(732078000, -14400, 0, "-04")
          }
         } else {
          if i < 73 {
           Table::row(750225600, -14400, 3600, "-03")
          } else {
           if i < 74 {
            Table::row(763527600, -14400, 0, "-04")
           } else {
            Table::row(781675200, -14400, 3600, "-03")
           }
          }
         }
        } else {
         if i < 77 {
          if i < 76 {
           Table::row(794977200, -14400, 0, "-04")
          } else {
           Table::row(813729600, -14400, 3600, "-03")
          }
         } else {
          if i < 78 {
           Table::row(826426800, -14400, 0, "-04")
          } else {
           if i < 79 {
            Table::row(845179200, -14400, 3600, "-03")
           } else {
            Table::row(859690800, -14400, 0, "-04")
           }
          }
         }
        }
       }
      }
     }
    } else {
     if i < 120 {
      if i < 100 {
       if i < 90 {
        if i < 85 {
         if i < 82 {
          if i < 81 {
           Table::row(876628800, -14400, 3600, "-03")
          } else {
           Table::row(889930800, -14400, 0, "-04")
          }
         } else {
          if i < 83 {
           Table::row(906868800, -14400, 3600, "-03")
          } else {
           if i < 84 {
            Table::row(923194800, -14400, 0, "-04")
           } else {
            Table::row(939528000, -14400, 3600, "-03")
           }
          }
         }
        } else {
         if i < 87 {
          if i < 86 {
           Table::row(952830000, -14400, 0, "-04")
          } else {
           Table::row(971582400, -14400, 3600, "-03")
          }
         } else {
          if i < 88 {
           Table::row(984279600, -14400, 0, "-04")
          } else {
           if i < 89 {
            Table::row(1003032000, -14400, 3600, "-03")
           } else {
            Table::row(1015729200, -14400, 0, "-04")
           }
          }
         }
        }
       } else {
        if i < 95 {
         if i < 92 {
          if i < 91 {
           Table::row(1034481600, -14400, 3600, "-03")
          } else {
           Table::row(1047178800, -14400, 0, "-04")
          }
         } else {
          if i < 93 {
           Table::row(1065931200, -14400, 3600, "-03")
          } else {
           if i < 94 {
            Table::row(1079233200, -14400, 0, "-04")
           } else {
            Table::row(1097380800, -14400, 3600, "-03")
           }
          }
         }
        } else {
         if i < 97 {
          if i < 96 {
           Table::row(1110682800, -14400, 0, "-04")
          } else {
           Table::row(1128830400, -14400, 3600, "-03")
          }
         } else {
          if i < 98 {
           Table::row(1142132400, -14400, 0, "-04")
          } else {
           if i < 99 {
            Table::row(1160884800, -14400, 3600, "-03")
           } else {
            Table::row(1173582000, -14400, 0, "-04")
           }
          }
         }
        }
       }
      } else {
       if i < 110 {
        if i < 105 {
         if i < 102 {
          if i < 101 {
           Table::row(1192334400, -14400, 3600, "-03")
          } else {
           Table::row(1206846000, -14400, 0, "-04")
          }
         } else {
          if i < 103 {
           Table::row(1223784000, -14400, 3600, "-03")
          } else {
           if i < 104 {
            Table::row(1237086000, -14400, 0, "-04")
           } else {
            Table::row(1255233600, -14400, 3600, "-03")
           }
          }
         }
        } else {
         if i < 107 {
          if i < 106 {
           Table::row(1270350000, -14400, 0, "-04")
          } else {
           Table::row(1286683200, -14400, 3600, "-03")
          }
         } else {
          if i < 108 {
           Table::row(1304823600, -14400, 0, "-04")
          } else {
           if i < 109 {
            Table::row(1313899200, -14400, 3600, "-03")
           } else {
            Table::row(1335668400, -14400, 0, "-04")
           }
          }
         }
        }
       } else {
        if i < 115 {
         if i < 112 {
          if i < 111 {
           Table::row(1346558400, -14400, 3600, "-03")
          } else {
           Table::row(1367118000, -14400, 0, "-04")
          }
         } else {
          if i < 113 {
           Table::row(1378612800, -14400, 3600, "-03")
          } else {
           if i < 114 {
            Table::row(1398567600, -14400, 0, "-04")
           } else {
            Table::row(1410062400, -14400, 3600, "-03")
           }
          }
         }
        } else {
         if i < 117 {
          if i < 116 {
           Table::row(1463281200, -14400, 0, "-04")
          } else {
           Table::row(1471147200, -14400, 3600, "-03")
          }
         } else {
          if i < 118 {
           Table::row(1494730800, -14400, 0, "-04")
          } else {
           if i < 119 {
            Table::row(1502596800, -14400, 3600, "-03")
           } else {
            Table::row(1526180400, -14400, 0, "-04")
           }
          }
         }
        }
       }
      }
     } else {
      if i < 140 {
       if i < 130 {
        if i < 125 {
         if i < 122 {
          if i < 121 {
           Table::row(1534046400, -14400, 3600, "-03")
          } else {
           Table::row(1554606000, -14400, 0, "-04")
          }
         } else {
          if i < 123 {
           Table::row(1567915200, -14400, 3600, "-03")
          } else {
           if i < 124 {
            Table::row(1586055600, -14400, 0, "-04")
           } else {
            Table::row(1599364800, -14400, 3600, "-03")
           }
          }
         }
        } else {
         if i < 127 {
          if i < 126 {
           Table::row(1617505200, -14400, 0, "-04")
          } else {
           Table::row(1630814400, -14400, 3600, "-03")
          }
         } else {
          if i < 128 {
           Table::row(1648954800, -14400, 0, "-04")
          } else {
           if i < 129 {
            Table::row(1662868800, -14400, 3600, "-03")
           } else {
            Table::row(1680404400, -14400, 0, "-04")
           }
          }
         }
        }
       } else {
        if i < 135 {
         if i < 132 {
          if i < 131 {
           Table::row(1693713600, -14400, 3600, "-03")
          } else {
           Table::row(1712458800, -14400, 0, "-04")
          }
         } else {
          if i < 133 {
           Table::row(1725768000, -14400, 3600, "-03")
          } else {
           if i < 134 {
            Table::row(1743908400, -14400, 0, "-04")
           } else {
            Table::row(1757217600, -14400, 3600, "-03")
           }
          }
         }
        } else {
         if i < 137 {
          if i < 136 {
           Table::row(1775358000, -14400, 0, "-04")
          } else {
           Table::row(1788667200, -14400, 3600, "-03")
          }
         } else {
          if i < 138 {
           Table::row(1806807600, -14400, 0, "-04")
          } else {
           if i < 139 {
            Table::row(1820116800, -14400, 3600, "-03")
           } else {
            Table::row(1838257200, -14400, 0, "-04")
           }
          }
         }
        }
       }
      } else {
       if i < 150 {
        if i < 145 {
         if i < 142 {
          if i < 141 {
           Table::row(1851566400, -14400, 3600, "-03")
          } else {
           Table::row(1870311600, -14400, 0, "-04")
          }
         } else {
          if i < 143 {
           Table::row(1883016000, -14400, 3600, "-03")
          } else {
           if i < 144 {
            Table::row(1901761200, -14400, 0, "-04")
           } else {
            Table::row(1915070400, -14400, 3600, "-03")
           }
          }
         }
        } else {
         if i < 147 {
          if i < 146 {
           Table::row(1933210800, -14400, 0, "-04")
          } else {
           Table::row(1946520000, -14400, 3600, "-03")
          }
         } else {
          if i < 148 {
           Table::row(1964660400, -14400, 0, "-04")
          } else {
           if i < 149 {
            Table::row(1977969600, -14400, 3600, "-03")
           } else {
            Table::row(1996110000, -14400, 0, "-04")
           }
          }
         }
        }
       } else {
        if i < 155 {
         if i < 152 {
          if i < 151 {
           Table::row(2009419200, -14400, 3600, "-03")
          } else {
           Table::row(2027559600, -14400, 0, "-04")
          }
         } else {
          if i < 153 {
           Table::row(2040868800, -14400, 3600, "-03")
          } else {
           if i < 154 {
            Table::row(2059614000, -14400, 0, "-04")
           } else {
            Table::row(2072318400, -14400, 3600, "-03")
           }
          }
         }
        } else {
         if i < 157 {
          if i < 156 {
           Table::row(2091063600, -14400, 0, "-04")
          } else {
           Table::row(2104372800, -14400, 3600, "-03")
          }
         } else {
          if i < 158 {
           Table::row(2122513200, -14400, 0, "-04")
          } else {
           if i < 159 {
            Table::row(2135822400, -14400, 3600, "-03")
           } else {
            Table::row(2147483647, -14400, 3600, "-03")
           }
          }
         }
        }
       }
      }
     }
    }
}

/// The rows of the table of the zone `Chile/Continental`.
pub open spec fn continental_rows() -> spec_fn(int) -> (i64, FixedTimespan) {
    |i: int| continental_row(i)
}

/// The table of the zone `Chile/Continental`.
pub open spec fn continental() -> Table {
    Table::listed(Table::row(0, -16965, 0, "LMT").1, 160, continental_rows())
}

/// Row `i` of the table of the zone `Chile/EasterIsland`.
pub open spec fn easterisland_row(i: int) -> (i64, FixedTimespan) {
    if i < 70 {
     if i < 35 {
      if i < 17 {
       if i < 8 {
        if i < 4 {
         if i < 2 {
          if i < 1 {
           Table::row(-2524495352, -26248, 0, "EMT")
          } else {
           Table::row(-1178124152, -25200, 0, "-07")
          }
         } else {
          if i < 3 {
           Table::row(-36619200, -25200, 3600, "-06")
          } else {
           Table::row(-23922000, -25200, 0, "-07")
          }
         }
        } else {
         if i < 6 {
          if i < 5 {
           Table::row(-3355200, -25200, 3600, "-06")
          } else {
           Table::row(7527600, -25200, 0, "-07")
          }
         } else {
          if i < 7 {
           Table::row(24465600, -25200, 3600, "-06")
          } else {
           Table::row(37767600, -25200, 0, "-07")
          }
         }
        }
       } else {
        if i < 12 {
         if i < 10 {
          if i < 9 {
           Table::row(55915200, -25200, 3600, "-06")
          } else {
           Table::row(69217200, -25200, 0, "-07")
          }
         } else {
          if i < 11 {
           Table::row(87969600, -25200, 3600, "-06")
          } else {
           Table::row(100666800, -25200, 0, "-07")
          }
         }
        } else {
         if i < 14 {
          if i < 13 {
           Table::row(118209600, -25200, 3600, "-06")
          } else {
           Table::row(132116400, -25200, 0, "-07")
          }
         } else {
          if i < 15 {
           Table::row(150868800, -25200, 3600, "-06")
          } else {
           if i < 16 {
            Table::row(163566000, -25200, 0, "-07")
           } else {
            Table::row(182318400, -25200, 3600, "-06")
           }
          }
         }
        }
       }
      } else {
       if i < 26 {
        if i < 21 {
         if i < 19 {
          if i < 18 {
           Table::row(195620400, -25200, 0, "-07")
          } else {
           Table::row(213768000, -25200, 3600, "-06")
          }
         } else {
          if i < 20 {
           Table::row(227070000, -25200, 0, "-07")
          } else {
           Table::row(245217600, -25200, 3600, "-06")
          }
         }
        } else {
         if i < 23 {
          if i < 22 {
           Table::row(258519600, -25200, 0, "-07")
          } else {
           Table::row(277272000, -25200, 3600, "-06")
          }
         } else {
          if i < 24 {
           Table::row(289969200, -25200, 0, "-07")
          } else {
           if i < 25 {
            Table::row(308721600, -25200, 3600, "-06")
           } else {
            Table::row(321418800, -25200, 0, "-07")
           }
          }
         }
        }
       } else {
        if i < 30 {
         if i < 28 {
          if i < 27 {
           Table::row(340171200, -25200, 3600, "-06")
          } else {
           Table::row(353473200, -25200, 0, "-07")
          }
         } else {
          if i < 29 {
           Table::row(371620800, -25200, 3600, "-06")
          } else {
           Table::row(384922800, -21600, 0, "-06")
          }
         }
        } else {
         if i < 32 {
          if i < 31 {
           Table::row(403070400, -21600, 3600, "-05")
          } else {
           Table::row(416372400, -21600, 0, "-06")
          }
         } else {
          if i < 33 {
           Table::row(434520000, -21600, 3600, "-05")
          } else {
           if i < 34 {
            Table::row(447822000, -21600, 0, "-06")
           } else {
            Table::row(466574400, -21600, 3600, "-05")
           }
          }
         }
        }
       }
      }
     } else {
      if i < 52 {
       if i < 43 {
        if i < 39 {
         if i < 37 {
          if i < 36 {
           Table::row(479271600, -21600, 0, "-06")
          } else {
           Table::row(498024000, -21600, 3600, "-05")
          }
         } else {
          if i < 38 {
           Table::row(510721200, -21600, 0, "-06")
          } else {
           Table::row(529473600, -21600, 3600, "-05")
          }
         }
        } else {
         if i < 41 {
          if i < 40 {
           Table::row(545194800, -21600, 0, "-06")
          } else {
           Table::row(560923200, -21600, 3600, "-05")
          }
         } else {
          if i < 42 {
           Table::row(574225200, -21600, 0, "-06")
          } else {
           Table::row(592372800, -21600, 3600, "-05")
          }
         }
        }
       } else {
        if i < 47 {
         if i < 45 {
          if i < 44 {
           Table::row(605674800, -21600, 0, "-06")
          } else {
           Table::row(624427200, -21600, 3600, "-05")
          }
         } else {
          if i < 46 {
           Table::row(637124400, -21600, 0, "-06")
          } else {
           Table::row(653457600, -21600, 3600, "-05")
          }
         }
        } else {
         if i < 49 {
          if i < 48 {
           Table::row(668574000, -21600, 0, "-06")
          } else {
           Table::row(687326400, -21600, 3600, "-05")
          }
         } else {
          if i < 50 {
           Table::row(700628400, -21600, 0, "-06")
          } else {
           if i < 51 {
            Table::row(718776000, -21600, 3600, "-05")
           } else {
            Table::row(732078000, -21600, 0, "-06")
           }
          }
         }
        }
       }
      } else {
       if i < 61 {
        if i < 56 {
         if i < 54 {
          if i < 53 {
           Table::row(750225600, -21600, 3600, "-05")
          } else {
           Table::row(763527600, -21600, 0, "-06")
          }
         } else {
          if i < 55 {
           Table::row(781675200, -21600, 3600, "-05")
          } else {
           Table::row(794977200, -21600, 0, "-06")
          }
         }
        } else {
         if i < 58 {
          if i < 57 {
           Table::row(813729600, -21600, 3600, "-05")
          } else {
           Table::row(826426800, -21600, 0, "-06")
          }
         } else {
          if i < 59 {
           Table::row(845179200, -21600, 3600, "-05")
          } else {
           if i < 60 {
            Table::row(859690800, -21600, 0, "-06")
           } else {
            Table::row(876628800, -21600, 3600, "-05")
           }
          }
         }
        }
       } else {
        if i < 65 {
         if i < 63 {
          if i < 62 {
           Table::row(889930800, -21600, 0, "-06")
          } else {
           Table::row(906868800, -21600, 3600, "-05")
          }
         } else {
          if i < 64 {
           Table::row(923194800, -21600, 0, "-06")
          } else {
           Table::row(939528000, -21600, 3600, "-05")
          }
         }
        } else {
         if i < 67 {
          if i < 66 {
           Table::row(952830000, -21600, 0, "-06")
          } else {
           Table::row(971582400, -21600, 3600, "-05")
          }
         } else {
          if i < 68 {
           Table::row(984279600, -21600, 0, "-06")
          } else {
           if i < 69 {
            Table::row(1003032000, -21600, 3600, "-05")
           } else {
            Table::row(1015729200, -21600, 0, "-06")
           }
          }
         }
        }
       }
      }
     }
    } else {
     if i < 105 {
      if i < 87 {
       if i < 78 {
        if i < 74 {
         if i < 72 {
          if i < 71 {
           Table::row(1034481600, -21600, 3600, "-05")
          } else {
           Table::row(1047178800, -21600, 0, "-06")
          }
         } else {
          if i < 73 {
           Table::row(1065931200, -21600, 3600, "-05")
          } else {
           Table::row(1079233200, -21600, 0, "-06")
          }
         }
        } else {
         if i < 76 {
          if i < 75 {
           Table::row(1097380800, -21600, 3600, "-05")
          } else {
           Table::row(1110682800, -21600, 0, "-06")
          }
         } else {
          if i < 77 {
           Table::row(1128830400, -21600, 3600, "-05")
          } else {
           Table::row(1142132400, -21600, 0, "-06")
          }
         }
        }
       } else {
        if i < 82 {
         if i < 80 {
          if i < 79 {
           Table::row(1160884800, -21600, 3600, "-05")
          } else {
           Table::row(1173582000, -21600, 0, "-06")
          }
         } else {
          if i < 81 {
           Table::row(1192334400, -21600, 3600, "-05")
          } else {
           Table::row(1206846000, -21600, 0, "-06")
          }
         }
        } else {
         if i < 84 {
          if i < 83 {
           Table::row(1223784000, -21600, 3600, "-05")
          } else {
           Table::row(1237086000, -21600, 0, "-06")
          }
         } else {
          if i < 85 {
           Table::row(1255233600, -21600, 3600, "-05")
          } else {
           if i < 86 {
            Table::row(1270350000, -21600, 0, "-06")
           } else {
            Table::row(1286683200, -21600, 3600, "-05")
           }
          }
         }
        }
       }
      } else {
       if i < 96 {
        if i < 91 {
         if i < 89 {
          if i < 88 {
           Table::row(1304823600, -21600, 0, "-06")
          } else {
           Table::row(1313899200, -21600, 3600, "-05")
          }
         } else {
          if i < 90 {
           Table::row(1335668400, -21600, 0, "-06")
          } else {
           Table::row(1346558400, -21600, 3600, "-05")
          }
         }
        } else {
         if i < 93 {
          if i < 92 {
           Table::row(1367118000, -21600, 0, "-06")
          } else {
           Table::row(1378612800, -21600, 3600, "-05")
          }
         } else {
          if i < 94 {
           Table::row(1398567600, -21600, 0, "-06")
          } else {
           if i < 95 {
            Table::row(1410062400, -21600, 3600, "-05")
           } else {
            Table::row(1463281200, -21600, 0, "-06")
           }
          }
         }
        }
       } else {
        if i < 100 {
         if i < 98 {
          if i < 97 {
           Table::row(1471147200, -21600, 3600, "-05")
          } else {
           Table::row(1494730800, -21600, 0, "-06")
          }
         } else {
          if i < 99 {
           Table::row(1502596800, -21600, 3600, "-05")
          } else {
           Table::row(1526180400, -21600, 0, "-06")
          }
         }
        } else {
         if i < 102 {
          if i < 101 {
           Table::row(1534046400, -21600, 3600, "-05")
          } else {
           Table::row(1554606000, -21600, 0, "-06")
          }
         } else {
          if i < 103 {
           Table::row(1567915200, -21600, 3600, "-05")
          } else {
           if i < 104 {
            Table::row(1586055600, -21600, 0, "-06")
           } else {
            Table::row(1599364800, -21600, 3600, "-05")
           }
          }
         }
        }
       }
      }
     } else {
      if i < 122 {
       if i < 113 {
        if i < 109 {
         if i < 107 {
          if i < 106 {
           Table::row(1617505200, -21600, 0, "-06")
          } else {
           Table::row(1630814400, -21600, 3600, "-05")
          }
         } else {
          if i < 108 {
           Table::row(1648954800, -21600, 0, "-06")
          } else {
           Table::row(1662868800, -21600, 3600, "-05")
          }
         }
        } else {
         if i < 111 {
          if i < 110 {
           Table::row(1680404400, -21600, 0, "-06")
          } else {
           Table::row(1693713600, -21600, 3600, "-05")
          }
         } else {
          if i < 112 {
           Table::row(1712458800, -21600, 0, "-06")
          } else {
           Table::row(1725768000, -21600, 3600, "-05")
          }
         }
        }
       } else {
        if i < 117 {
         if i < 115 {
          if i < 114 {
           Table::row(1743908400, -21600, 0, "-06")
          } else {
           Table::row(1757217600, -21600, 3600, "-05")
          }
         } else {
          if i < 116 {
           Table::row(1775358000, -21600, 0, "-06")
          } else {
           Table::row(1788667200, -21600, 3600, "-05")
          }
         }
        } else {
         if i < 119 {
          if i < 118 {
           Table::row(1806807600, -21600, 0, "-06")
          } else {
           Table::row(1820116800, -21600, 3600, "-05")
          }
         } else {
          if i < 120 {
           Table::row(1838257200, -21600, 0, "-06")
          } else {
           if i < 121 {
            Table::row(1851566400, -21600, 3600, "-05")
           } else {
            Table::row(1870311600, -21600, 0, "-06")
           }
          }
         }
        }
       }
      } else {
       if i < 131 {
        if i < 126 {
         if i < 124 {
          if i < 123 {
           Table::row(1883016000, -21600, 3600, "-05")
          } else {
           Table::row(1901761200, -21600, 0, "-06")
          }
         } else {
          if i < 125 {
           Table::row(1915070400, -21600, 3600, "-05")
          } else {
           Table::row(1933210800, -21600, 0, "-06")
          }
         }
        } else {
         if i < 128 {
          if i < 127 {
           Table::row(1946520000, -21600, 3600, "-05")
          } else {
           Table::row(1964660400, -21600, 0, "-06")
          }
         } else {
          if i < 129 {
           Table::row(1977969600, -21600, 3600, "-05")
          } else {
           if i < 130 {
            Table::row(1996110000, -21600, 0, "-06")
           } else {
            Table::row(2009419200, -21600, 3600, "-05")
           }
          }
         }
        }
       } else {
        if i < 135 {
         if i < 133 {
          if i < 132 {
           Table::row(2027559600, -21600, 0, "-06")
          } else {
           Table::row(2040868800, -21600, 3600, "-05")
          }
         } else {
          if i < 134 {
           Table::row(2059614000, -21600, 0, "-06")
          } else {
           Table::row(2072318400, -21600, 3600, "-05")
          }
         }
        } else {
         if i < 137 {
          if i < 136 {
           Table::row(2091063600, -21600, 0, "-06")
          } else {
           Table::row(2104372800, -21600, 3600, "-05")
          }
         } else {
          if i < 138 {
           Table::row(2122513200, -21600, 0, "-06")
          } else {
           if i < 139 {
            Table::row(2135822400, -21600, 3600, "-05")
           } else {
            Table::row(2147483647, -21600, 3600, "-05")
           }
          }
         }
        }
       }
      }
     }
    }
}

/// The rows of the table of the zone `Chile/EasterIsland`.
pub open spec fn easterisland_rows() -> spec_fn(int) -> (i64, FixedTimespan) {
    |i: int| easterisland_row(i)
}

/// The table of the zone `Chile/EasterIsland`.
pub open spec fn easterisland() -> Table {
    Table::listed(Table::row(0, -26248, 0, "LMT").1, 140, easterisland_rows())
}

} // verus!
