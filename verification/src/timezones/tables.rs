//! The tables of the zones as they are written down, row by row: those of a
//! region in the region's module, the others here.

pub mod africa;
pub mod america;
pub mod antarctica;
pub mod arctic;
pub mod asia;
pub mod atlantic;
pub mod australia;
pub mod brazil;
pub mod canada;
pub mod chile;
pub mod etc;
pub mod europe;
pub mod indian;
pub mod mexico;
pub mod pacific;
pub mod us;

use crate::timezone_impl::{FixedTimespan, Table};
use vstd::prelude::*;

verus! {

/// Row `i` of the table of the zone `CET`.
pub open spec fn cet_row(i: int) -> (i64, FixedTimespan) {
    if i < 68 {
     if i < 34 {
      if i < 17 {
       if i < 8 {
        if i < 4 {
         if i < 2 {
          if i < 1 {
           Table::row(-1693706400, 3600, 3600, "CEST")
          } else {
           Table::row(-1680483600, 3600, 0, "CET")
          }
         } else {
          if i < 3 {
           Table::row(-1663455600, 3600, 3600, "CEST")
          } else {
           Table::row(-1650150000, 3600, 0, "CET")
          }
         }
        } else {
         if i < 6 {
          if i < 5 {
           Table::row(-1632006000, 3600, 3600, "CEST")
          } else {
           Table::row(-1618700400, 3600, 0, "CET")
          }
         } else {
          if i < 7 {
           Table::row(-938905200, 3600, 3600, "CEST")
          } else {
           Table::row(-857257200, 3600, 0, "CET")
          }
         }
        }
       } else {
        if i < 12 {
         if i < 10 {
          if i < 9 {
           Table::row(-844556400, 3600, 3600, "CEST")
          } else {
           Table::row(-828226800, 3600, 0, "CET")
          }
         } else {
          if i < 11 {
           Table::row(-812502000, 3600, 3600, "CEST")
          } else {
           Table::row(-796777200, 3600, 0, "CET")
          }
         }
        } else {
         if i < 14 {
          if i < 13 {
           Table::row(-781052400, 3600, 3600, "CEST")
          } else {
           Table::row(-766623600, 3600, 0, "CET")
          }
         } else {
          if i < 15 {
           Table::row(228877200, 3600, 3600, "CEST")
          } else {
           if i < 16 {
            Table::row(243997200, 3600, 0, "CET")
           } else {
            Table::row(260326800, 3600, 3600, "CEST")
           }
          }
         }
        }
       }
      } else {
       if i < 25 {
        if i < 21 {
         if i < 19 {
          if i < 18 {
           Table::row(276051600, 3600, 0, "CET")
          } else {
           Table::row(291776400, 3600, 3600, "CEST")
          }
         } else {
          if i < 20 {
           Table::row(307501200, 3600, 0, "CET")
          } else {
           Table::row(323830800, 3600, 3600, "CEST")
          }
         }
        } else {
         if i < 23 {
          if i < 22 {
           Table::row(338950800, 3600, 0, "CET")
          } else {
           Table::row(354675600, 3600, 3600, "CEST")
          }
         } else {
          if i < 24 {
           Table::row(370400400, 3600, 0, "CET")
          } else {
           Table::row(386125200, 3600, 3600, "CEST")
          }
         }
        }
       } else {
        if i < 29 {
         if i < 27 {
          if i < 26 {
           Table::row(401850000, 3600, 0, "CET")
          } else {
           Table::row(417574800, 3600, 3600, "CEST")
          }
         } else {
          if i < 28 {
           Table::row(433299600, 3600, 0, "CET")
          } else {
           Table::row(449024400, 3600, 3600, "CEST")
          }
         }
        } else {
         if i < 31 {
          if i < 30 {
           Table::row(465354000, 3600, 0, "CET")
          } else {
           Table::row(481078800, 3600, 3600, "CEST")
          }
         } else {
          if i < 32 {
           Table::row(496803600, 3600, 0, "CET")
          } else {
           if i < 33 {
            Table::row(512528400, 3600, 3600, "CEST")
           } else {
            Table::row(528253200, 3600, 0, "CET")
           }
          }
         }
        }
       }
      }
     } else {
      if i < 51 {
       if i < 42 {
        if i < 38 {
         if i < 36 {
          if i < 35 {
           Table::row(543978000, 3600, 3600, "CEST")
          } else {
           Table::row(559702800, 3600, 0, "CET")
          }
         } else {
          if i < 37 {
           Table::row(575427600, 3600, 3600, "CEST")
          } else {
           Table::row(591152400, 3600, 0, "CET")
          }
         }
        } else {
         if i < 40 {
          if i < 39 {
           Table::row(606877200, 3600, 3600, "CEST")
          } else {
           Table::row(622602000, 3600, 0, "CET")
          }
         } else {
          if i < 41 {
           Table::row(638326800, 3600, 3600, "CEST")
          } else {
           Table::row(654656400, 3600, 0, "CET")
          }
         }
        }
       } else {
        if i < 46 {
         if i < 44 {
          if i < 43 {
           Table::row(670381200, 3600, 3600, "CEST")
          } else {
           Table::row(686106000, 3600, 0, "CET")
          }
         } else {
          if i < 45 {
           Table::row(701830800, 3600, 3600, "CEST")
          } else {
           Table::row(717555600, 3600, 0, "CET")
          }
         }
        } else {
         if i < 48 {
          if i < 47 {
           Table::row(733280400, 3600, 3600, "CEST")
          } else {
           Table::row(749005200, 3600, 0, "CET")
          }
         } else {
          if i < 49 {
           Table::row(764730000, 3600, 3600, "CEST")
          } else {
           if i < 50 {
            Table::row(780454800, 3600, 0, "CET")
           } else {
            Table::row(796179600, 3600, 3600, "CEST")
           }
          }
         }
        }
       }
      } else {
       if i < 59 {
        if i < 55 {
         if i < 53 {
          if i < 52 {
           Table::row(811904400, 3600, 0, "CET")
          } else {
           Table::row(828234000, 3600, 3600, "CEST")
          }
         } else {
          if i < 54 {
           Table::row(846378000, 3600, 0, "CET")
          } else {
           Table::row(859683600, 3600, 3600, "CEST")
          }
         }
        } else {
         if i < 57 {
          if i < 56 {
           Table::row(877827600, 3600, 0, "CET")
          } else {
           Table::row(891133200, 3600, 3600, "CEST")
          }
         } else {
          if i < 58 {
           Table::row(909277200, 3600, 0, "CET")
          } else {
           Table::row(922582800, 3600, 3600, "CEST")
          }
         }
        }
       } else {
        if i < 63 {
         if i < 61 {
          if i < 60 {
           Table::row(941331600, 3600, 0, "CET")
          } else {
           Table::row(954032400, 3600, 3600, "CEST")
          }
         } else {
          if i < 62 {
           Table::row(972781200, 3600, 0, "CET")
          } else {
           Table::row(985482000, 3600, 3600, "CEST")
          }
         }
        } else {
         if i < 65 {
          if i < 64 {
           Table::row(1004230800, 3600, 0, "CET")
          } else {
           Table::row(1017536400, 3600, 3600, "CEST")
          }
         } else {
          if i < 66 {
           Table::row(1035680400, 3600, 0, "CET")
          } else {
           if i < 67 {
            Table::row(1048986000, 3600, 3600, "CEST")
           } else {
            Table::row(1067130000, 3600, 0, "CET")
           }
          }
         }
        }
       }
      }
     }
    } else {
     if i < 102 {
      if i < 85 {
       if i < 76 {
        if i < 72 {
         if i < 70 {
          if i < 69 {
           Table::row(1080435600, 3600, 3600, "CEST")
          } else {
           Table::row(1099184400, 3600, 0, "CET")
          }
         } else {
          if i < 71 {
           Table::row(1111885200, 3600, 3600, "CEST")
          } else {
           Table::row(1130634000, 3600, 0, "CET")
          }
         }
        } else {
         if i < 74 {
          if i < 73 {
           Table::row(1143334800, 3600, 3600, "CEST")
          } else {
           Table::row(1162083600, 3600, 0, "CET")
          }
         } else {
          if i < 75 {
           Table::row(1174784400, 3600, 3600, "CEST")
          } else {
           Table::row(1193533200, 3600, 0, "CET")
          }
         }
        }
       } else {
        if i < 80 {
         if i < 78 {
          if i < 77 {
           Table::row(1206838800, 3600, 3600, "CEST")
          } else {
           Table::row(1224982800, 3600, 0, "CET")
          }
         } else {
          if i < 79 {
           Table::row(1238288400, 3600, 3600, "CEST")
          } else {
           Table::row(1256432400, 3600, 0, "CET")
          }
         }
        } else {
         if i < 82 {
          if i < 81 {
           Table::row(1269738000, 3600, 3600, "CEST")
          } else {
           Table::row(1288486800, 3600, 0, "CET")
          }
         } else {
          if i < 83 {
           Table::row(1301187600, 3600, 3600, "CEST")
          } else {
           if i < 84 {
            Table::row(1319936400, 3600, 0, "CET")
           } else {
            Table::row(1332637200, 3600, 3600, "CEST")
           }
          }
         }
        }
       }
      } else {
       if i < 93 {
        if i < 89 {
         if i < 87 {
          if i < 86 {
           Table::row(1351386000, 3600, 0, "CET")
          } else {
           Table::row(1364691600, 3600, 3600, "CEST")
          }
         } else {
          if i < 88 {
           Table::row(1382835600, 3600, 0, "CET")
          } else {
           Table::row(1396141200, 3600, 3600, "CEST")
          }
         }
        } else {
         if i < 91 {
          if i < 90 {
           Table::row(1414285200, 3600, 0, "CET")
          } else {
           Table::row(1427590800, 3600, 3600, "CEST")
          }
         } else {
          if i < 92 {
           Table::row(1445734800, 3600, 0, "CET")
          } else {
           Table::row(1459040400, 3600, 3600, "CEST")
          }
         }
        }
       } else {
        if i < 97 {
         if i < 95 {
          if i < 94 {
           Table::row(1477789200, 3600, 0, "CET")
          } else {
           Table::row(1490490000, 3600, 3600, "CEST")
          }
         } else {
          if i < 96 {
           Table::row(1509238800, 3600, 0, "CET")
          } else {
           Table::row(1521939600, 3600, 3600, "CEST")
          }
         }
        } else {
         if i < 99 {
          if i < 98 {
           Table::row(1540688400, 3600, 0, "CET")
          } else {
           Table::row(1553994000, 3600, 3600, "CEST")
          }
         } else {
          if i < 100 {
           Table::row(1572138000, 3600, 0, "CET")
          } else {
           if i < 101 {
            Table::row(1585443600, 3600, 3600, "CEST")
           } else {
            Table::row(1603587600, 3600, 0, "CET")
           }
          }
         }
        }
       }
      }
     } else {
      if i < 119 {
       if i < 110 {
        if i < 106 {
         if i < 104 {
          if i < 103 {
           Table::row(1616893200, 3600, 3600, "CEST")
          } else {
           Table::row(1635642000, 3600, 0, "CET")
          }
         } else {
          if i < 105 {
           Table::row(1648342800, 3600, 3600, "CEST")
          } else {
           Table::row(1667091600, 3600, 0, "CET")
          }
         }
        } else {
         if i < 108 {
          if i < 107 {
           Table::row(1679792400, 3600, 3600, "CEST")
          } else {
           Table::row(1698541200, 3600, 0, "CET")
          }
         } else {
          if i < 109 {
           Table::row(1711846800, 3600, 3600, "CEST")
          } else {
           Table::row(1729990800, 3600, 0, "CET")
          }
         }
        }
       } else {
        if i < 114 {
         if i < 112 {
          if i < 111 {
           Table::row(1743296400, 3600, 3600, "CEST")
          } else {
           Table::row(1761440400, 3600, 0, "CET")
          }
         } else {
          if i < 113 {
           Table::row(1774746000, 3600, 3600, "CEST")
          } else {
           Table::row(1792890000, 3600, 0, "CET")
          }
         }
        } else {
         if i < 116 {
          if i < 115 {
           Table::row(1806195600, 3600, 3600, "CEST")
          } else {
           Table::row(1824944400, 3600, 0, "CET")
          }
         } else {
          if i < 117 {
           Table::row(1837645200, 3600, 3600, "CEST")
          } else {
           if i < 118 {
            Table::row(1856394000, 3600, 0, "CET")
           } else {
            Table::row(1869094800, 3600, 3600, "CEST")
           }
          }
         }
        }
       }
      } else {
       if i < 127 {
        if i < 123 {
         if i < 121 {
          if i < 120 {
           Table::row(1887843600, 3600, 0, "CET")
          } else {
           Table::row(1901149200, 3600, 3600, "CEST")
          }
         } else {
          if i < 122 {
           Table::row(1919293200, 3600, 0, "CET")
          } else {
           Table::row(1932598800, 3600, 3600, "CEST")
          }
         }
        } else {
         if i < 125 {
          if i < 124 {
           Table::row(1950742800, 3600, 0, "CET")
          } else {
           Table::row(1964048400, 3600, 3600, "CEST")
          }
         } else {
          if i < 126 {
           Table::row(1982797200, 3600, 0, "CET")
          } else {
           Table::row(1995498000, 3600, 3600, "CEST")
          }
         }
        }
       } else {
        if i < 131 {
         if i < 129 {
          if i < 128 {
           Table::row(2014246800, 3600, 0, "CET")
          } else {
           Table::row(2026947600, 3600, 3600, "CEST")
          }
         } else {
          if i < 130 {
           Table::row(2045696400, 3600, 0, "CET")
          } else {
           Table::row(2058397200, 3600, 3600, "CEST")
          }
         }
        } else {
         if i < 133 {
          if i < 132 {
           Table::row(2077146000, 3600, 0, "CET")
          } else {
           Table::row(2090451600, 3600, 3600, "CEST")
          }
         } else {
          if i < 134 {
           Table::row(2108595600, 3600, 0, "CET")
          } else {
           if i < 135 {
            Table::row(2121901200, 3600, 3600, "CEST")
           } else {
            Table::row(2140045200, 3600, 0, "CET")
           }
          }
         }
        }
       }
      }
     }
    }
}

/// The rows of the table of the zone `CET`.
pub open spec fn cet_rows() -> spec_fn(int) -> (i64, FixedTimespan) {
    |i: int| cet_row(i)
}

/// The table of the zone `CET`.
pub open spec fn cet() -> Table {
    Table::listed(Table::row(0, 3600, 0, "CET").1, 136, cet_rows())
}

/// Row `i` of the table of the zone `CST6CDT`.
pub open spec fn cst6cdt_row(i: int) -> (i64, FixedTimespan) {
    if i < 74 {
     if i < 37 {
      if i < 18 {
       if i < 9 {
        if i < 4 {
         if i < 2 {
          if i < 1 {
           Table::row(-1633276800, -21600, 3600, "CDT")
          } else {
           Table::row(-1615136400, -21600, 0, "CST")
          }
         } else {
          if i < 3 {
           Table::row(-1601827200, -21600, 3600, "CDT")
          } else {
           Table::row(-1583686800, -21600, 0, "CST")
          }
         }
        } else {
         if i < 6 {
          if i < 5 {
           Table::row(-880214400, -21600, 3600, "CWT")
          } else {
           Table::row(-769395600, -21600, 3600, "CPT")
          }
         } else {
          if i < 7 {
           Table::row(-765392400, -21600, 0, "CST")
          } else {
           if i < 8 {
            Table::row(-84384000, -21600, 3600, "CDT")
           } else {
            Table::row(-68662800, -21600, 0, "CST")
           }
          }
         }
        }
       } else {
        if i < 13 {
         if i < 11 {
          if i < 10 {
           Table::row(-52934400, -21600, 3600, "CDT")
          } else {
           Table::row(-37213200, -21600, 0, "CST")
          }
         } else {
          if i < 12 {
           Table::row(-21484800, -21600, 3600, "CDT")
          } else {
           Table::row(-5763600, -21600, 0, "CST")
          }
         }
        } else {
         if i < 15 {
          if i < 14 {
           Table::row(9964800, -21600, 3600, "CDT")
          } else {
           Table::row(25686000, -21600, 0, "CST")
          }
         } else {
          if i < 16 {
           Table::row(41414400, -21600, 3600, "CDT")
          } else {
           if i < 17 {
            Table::row(57740400, -21600, 0, "CST")
           } else {
            Table::row(73468800, -21600, 3600, "CDT")
           }
          }
         }
        }
       }
      } else {
       if i < 27 {
        if i < 22 {
         if i < 20 {
          if i < 19 {
           Table::row(89190000, -21600, 0, "CST")
          } else {
           Table::row(104918400, -21600, 3600, "CDT")
          }
         } else {
          if i < 21 {
           Table::row(120639600, -21600, 0, "CST")
          } else {
           Table::row(126691200, -21600, 3600, "CDT")
          }
         }
        } else {
         if i < 24 {
          if i < 23 {
           Table::row(152089200, -21600, 0, "CST")
          } else {
           Table::row(162374400, -21600, 3600, "CDT")
          }
         } else {
          if i < 25 {
           Table::row(183538800, -21600, 0, "CST")
          } else {
           if i < 26 {
            Table::row(199267200, -21600, 3600, "CDT")
           } else {
            Table::row(215593200, -21600, 0, "CST")
           }
          }
         }
        }
       } else {
        if i < 32 {
         if i < 29 {
          if i < 28 {
           Table::row(230716800, -21600, 3600, "CDT")
          } else {
           Table::row(247042800, -21600, 0, "CST")
          }
         } else {
          if i < 30 {
           Table::row(262771200, -21600, 3600, "CDT")
          } else {
           if i < 31 {
            Table::row(278492400, -21600, 0, "CST")
           } else {
            Table::row(294220800, -21600, 3600, "CDT")
           }
          }
         }
        } else {
         if i < 34 {
          if i < 33 {
           Table::row(309942000, -21600, 0, "CST")
          } else {
           Table::row(325670400, -21600, 3600, "CDT")
          }
         } else {
          if i < 35 {
           Table::row(341391600, -21600, 0, "CST")
          } else {
           if i < 36 {
            Table::row(357120000, -21600, 3600, "CDT")
           } else {
            Table::row(372841200, -21600, 0, "CST")
           }
          }
         }
        }
       }
      }
     } else {
      if i < 55 {
       if i < 46 {
        if i < 41 {
         if i < 39 {
          if i < 38 {
           Table::row(388569600, -21600, 3600, "CDT")
          } else {
           Table::row(404895600, -21600, 0, "CST")
          }
         } else {
          if i < 40 {
           Table::row(420019200, -21600, 3600, "CDT")
          } else {
           Table::row(436345200, -21600, 0, "CST")
          }
         }
        } else {
         if i < 43 {
          if i < 42 {
           Table::row(452073600, -21600, 3600, "CDT")
          } else {
           Table::row(467794800, -21600, 0, "CST")
          }
         } else {
          if i < 44 {
           Table::row(483523200, -21600, 3600, "CDT")
          } else {
           if i < 45 {
            Table::row(499244400, -21600, 0, "CST")
           } else {
            Table::row(514972800, -21600, 3600, "CDT")
           }
          }
         }
        }
       } else {
        if i < 50 {
         if i < 48 {
          if i < 47 {
           Table::row(530694000, -21600, 0, "CST")
          } else {
           Table::row(544608000, -21600, 3600, "CDT")
          }
         } else {
          if i < 49 {
           Table::row(562143600, -21600, 0, "CST")
          } else {
           Table::row(576057600, -21600, 3600, "CDT")
          }
         }
        } else {
         if i < 52 {
          if i < 51 {
           Table::row(594198000, -21600, 0, "CST")
          } else {
           Table::row(607507200, -21600, 3600, "CDT")
          }
         } else {
          if i < 53 {
           Table::row(625647600, -21600, 0, "CST")
          } else {
           if i < 54 {
            Table::row(638956800, -21600, 3600, "CDT")
           } else {
            Table::row(657097200, -21600, 0, "CST")
           }
          }
         }
        }
       }
      } else {
       if i < 64 {
        if i < 59 {
         if i < 57 {
          if i < 56 {
           Table::row(671011200, -21600, 3600, "CDT")
          } else {
           Table::row(688546800, -21600, 0, "CST")
          }
         } else {
          if i < 58 {
           Table::row(702460800, -21600, 3600, "CDT")
          } else {
           Table::row(719996400, -21600, 0, "CST")
          }
         }
        } else {
         if i < 61 {
          if i < 60 {
           Table::row(733910400, -21600, 3600, "CDT")
          } else {
           Table::row(752050800, -21600, 0, "CST")
          }
         } else {
          if i < 62 {
           Table::row(765360000, -21600, 3600, "CDT")
          } else {
           if i < 63 {
            Table::row(783500400, -21600, 0, "CST")
           } else {
            Table::row(796809600, -21600, 3600, "CDT")
           }
          }
         }
        }
       } else {
        if i < 69 {
         if i < 66 {
          if i < 65 {
           Table::row(814950000, -21600, 0, "CST")
          } else {
           Table::row(828864000, -21600, 3600, "CDT")
          }
         } else {
          if i < 67 {
           Table::row(846399600, -21600, 0, "CST")
          } else {
           if i < 68 {
            Table::row(860313600, -21600, 3600, "CDT")
           } else {
            Table::row(877849200, -21600, 0, "CST")
           }
          }
         }
        } else {
         if i < 71 {
          if i < 70 {
           Table::row(891763200, -21600, 3600, "CDT")
          } else {
           Table::row(909298800, -21600, 0, "CST")
          }
         } else {
          if i < 72 {
           Table::row(923212800, -21600, 3600, "CDT")
          } else {
           if i < 73 {
            Table::row(941353200, -21600, 0, "CST")
           } else {
            Table::row(954662400, -21600, 3600, "CDT")
           }
          }
         }
        }
       }
      }
     }
    } else {
     if i < 111 {
      if i < 92 {
       if i < 83 {
        if i < 78 {
         if i < 76 {
          if i < 75 {
           Table::row(972802800, -21600, 0, "CST")
          } else {
           Table::row(986112000, -21600, 3600, "CDT")
          }
         } else {
          if i < 77 {
           Table::row(1004252400, -21600, 0, "CST")
          } else {
           Table::row(1018166400, -21600, 3600, "CDT")
          }
         }
        } else {
         if i < 80 {
          if i < 79 {
           Table::row(1035702000, -21600, 0, "CST")
          } else {
           Table::row(1049616000, -21600, 3600, "CDT")
          }
         } else {
          if i < 81 {
           Table::row(1067151600, -21600, 0, "CST")
          } else {
           if i < 82 {
            Table::row(1081065600, -21600, 3600, "CDT")
           } else {
            Table::row(1099206000, -21600, 0, "CST")
           }
          }
         }
        }
       } else {
        if i < 87 {
         if i < 85 {
          if i < 84 {
           Table::row(1112515200, -21600, 3600, "CDT")
          } else {
           Table::row(1130655600, -21600, 0, "CST")
          }
         } else {
          if i < 86 {
           Table::row(1143964800, -21600, 3600, "CDT")
          } else {
           Table::row(1162105200, -21600, 0, "CST")
          }
         }
        } else {
         if i < 89 {
          if i < 88 {
           Table::row(1173600000, -21600, 3600, "CDT")
          } else {
           Table::row(1194159600, -21600, 0, "CST")
          }
         } else {
          if i < 90 {
           Table::row(1205049600, -21600, 3600, "CDT")
          } else {
           if i < 91 {
            Table::row(1225609200, -21600, 0, "CST")
           } else {
            Table::row(1236499200, -21600, 3600, "CDT")
           }
          }
         }
        }
       }
      } else {
       if i < 101 {
        if i < 96 {
         if i < 94 {
          if i < 93 {
           Table::row(1257058800, -21600, 0, "CST")
          } else {
           Table::row(1268553600, -21600, 3600, "CDT")
          }
         } else {
          if i < 95 {
           Table::row(1289113200, -21600, 0, "CST")
          } else {
           Table::row(1300003200, -21600, 3600, "CDT")
          }
         }
        } else {
         if i < 98 {
          if i < 97 {
           Table::row(1320562800, -21600, 0, "CST")
          } else {
           Table::row(1331452800, -21600, 3600, "CDT")
          }
         } else {
          if i < 99 {
           Table::row(1352012400, -21600, 0, "CST")
          } else {
           if i < 100 {
            Table::row(1362902400, -21600, 3600, "CDT")
           } else {
            Table::row(1383462000, -21600, 0, "CST")
           }
          }
         }
        }
       } else {
        if i < 106 {
         if i < 103 {
          if i < 102 {
           Table::row(1394352000, -21600, 3600, "CDT")
          } else {
           Table::row(1414911600, -21600, 0, "CST")
          }
         } else {
          if i < 104 {
           Table::row(1425801600, -21600, 3600, "CDT")
          } else {
           if i < 105 {
            Table::row(1446361200, -21600, 0, "CST")
           } else {
            Table::row(1457856000, -21600, 3600, "CDT")
           }
          }
         }
        } else {
         if i < 108 {
          if i < 107 {
           Table::row(1478415600, -21600, 0, "CST")
          } else {
           Table::row(1489305600, -21600, 3600, "CDT")
          }
         } else {
          if i < 109 {
           Table::row(1509865200, -21600, 0, "CST")
          } else {
           if i < 110 {
            Table::row(1520755200, -21600, 3600, "CDT")
           } else {
            Table::row(1541314800, -21600, 0, "CST")
           }
          }
         }
        }
       }
      }
     } else {
      if i < 130 {
       if i < 120 {
        if i < 115 {
         if i < 113 {
          if i < 112 {
           Table::row(1552204800, -21600, 3600, "CDT")
          } else {
           Table::row(1572764400, -21600, 0, "CST")
          }
         } else {
          if i < 114 {
           Table::row(1583654400, -21600, 3600, "CDT")
          } else {
           Table::row(1604214000, -21600, 0, "CST")
          }
         }
        } else {
         if i < 117 {
          if i < 116 {
           Table::row(1615708800, -21600, 3600, "CDT")
          } else {
           Table::row(1636268400, -21600, 0, "CST")
          }
         } else {
          if i < 118 {
           Table::row(1647158400, -21600, 3600, "CDT")
          } else {
           if i < 119 {
            Table::row(1667718000, -21600, 0, "CST")
           } else {
            Table::row(1678608000, -21600, 3600, "CDT")
           }
          }
         }
        }
       } else {
        if i < 125 {
         if i < 122 {
          if i < 121 {
           Table::row(1699167600, -21600, 0, "CST")
          } else {
           Table::row(1710057600, -21600, 3600, "CDT")
          }
         } else {
          if i < 123 {
           Table::row(1730617200, -21600, 0, "CST")
          } else {
           if i < 124 {
            Table::row(1741507200, -21600, 3600, "CDT")
           } else {
            Table::row(1762066800, -21600, 0, "CST")
           }
          }
         }
        } else {
         if i < 127 {
          if i < 126 {
           Table::row(1772956800, -21600, 3600, "CDT")
          } else {
           Table::row(1793516400, -21600, 0, "CST")
          }
         } else {
          if i < 128 {
           Table::row(1805011200, -21600, 3600, "CDT")
          } else {
           if i < 129 {
            Table::row(1825570800, -21600, 0, "CST")
           } else {
            Table::row(1836460800, -21600, 3600, "CDT")
           }
          }
         }
        }
       }
      } else {
       if i < 139 {
        if i < 134 {
         if i < 132 {
          if i < 131 {
           Table::row(1857020400, -21600, 0, "CST")
          } else {
           Table::row(1867910400, -21600, 3600, "CDT")
          }
         } else {
          if i < 133 {
           Table::row(1888470000, -21600, 0, "CST")
          } else {
           Table::row(1899360000, -21600, 3600, "CDT")
          }
         }
        } else {
         if i < 136 {
          if i < 135 {
           Table::row(1919919600, -21600, 0, "CST")
          } else {
           Table::row(1930809600, -21600, 3600, "CDT")
          }
         } else {
          if i < 137 {
           Table::row(1951369200, -21600, 0, "CST")
          } else {
           if i < 138 {
            Table::row(1962864000, -21600, 3600, "CDT")
           } else {
            Table::row(1983423600, -21600, 0, "CST")
           }
          }
         }
        }
       } else {
        if i < 144 {
         if i < 141 {
          if i < 140 {
           Table::row(1994313600, -21600, 3600, "CDT")
          } else {
           Table::row(2014873200, -21600, 0, "CST")
          }
         } else {
          if i < 142 {
           Table::row(2025763200, -21600, 3600, "CDT")
          } else {
           if i < 143 {
            Table::row(2046322800, -21600, 0, "CST")
           } else {
            Table::row(2057212800, -21600, 3600, "CDT")
           }
          }
         }
        } else {
         if i < 146 {
          if i < 145 {
           Table::row(2077772400, -21600, 0, "CST")
          } else {
           Table::row(2088662400, -21600, 3600, "CDT")
          }
         } else {
          if i < 147 {
           Table::row(2109222000, -21600, 0, "CST")
          } else {
           if i < 148 {
            Table::row(2120112000, -21600, 3600, "CDT")
           } else {
            Table::row(2140671600, -21600, 0, "CST")
           }
          }
         }
        }
       }
      }
     }
    }
}

/// The rows of the table of the zone `CST6CDT`.
pub open spec fn cst6cdt_rows() -> spec_fn(int) -> (i64, FixedTimespan) {
    |i: int| cst6cdt_row(i)
}

/// The table of the zone `CST6CDT`.
pub open spec fn cst6cdt() -> Table {
    Table::listed(Table::row(0, -21600, 0, "CST").1, 149, cst6cdt_rows())
}

/// Row `i` of the table of the zone `Cuba`.
pub open spec fn cuba_row(i: int) -> (i64, FixedTimespan) {
    if i < 78 {
     if i < 39 {
      if i < 19 {
       if i < 9 {
        if i < 4 {
         if i < 2 {
          if i < 1 {
           Table::row(-2524501832, -19776, 0, "HMT")
          } else {
           Table::row(-1402813824, -18000, 0, "CST")
          }
         } else {
          if i < 3 {
           Table::row(-1311534000, -18000, 3600, "CDT")
          } else {
           Table::row(-1300996800, -18000, 0, "CST")
          }
         }
        } else {
         if i < 6 {
          if i < 5 {
           Table::row(-933534000, -18000, 3600, "CDT")
          } else {
           Table::row(-925675200, -18000, 0, "CST")
          }
         } else {
          if i < 7 {
           Table::row(-902084400, -18000, 3600, "CDT")
          } else {
           if i < 8 {
            Table::row(-893620800, -18000, 0, "CST")
           } else {
            Table::row(-870030000, -18000, 3600, "CDT")
           }
          }
         }
        }
       } else {
        if i < 14 {
         if i < 11 {
          if i < 10 {
           Table::row(-862171200, -18000, 0, "CST")
          } else {
           Table::row(-775681200, -18000, 3600, "CDT")
          }
         } else {
          if i < 12 {
           Table::row(-767822400, -18000, 0, "CST")
          } else {
           if i < 13 {
            Table::row(-744231600, -18000, 3600, "CDT")
           } else {
            Table::row(-736372800, -18000, 0, "CST")
           }
          }
         }
        } else {
         if i < 16 {
          if i < 15 {
           Table::row(-144702000, -18000, 3600, "CDT")
          } else {
           Table::row(-134251200, -18000, 0, "CST")
          }
         } else {
          if i < 17 {
           Table::row(-113425200, -18000, 3600, "CDT")
          } else {
           if i < 18 {
            Table::row(-102542400, -18000, 0, "CST")
           } else {
            Table::row(-86295600, -18000, 3600, "CDT")
           }
          }
         }
        }
       }
      } else {
       if i < 29 {
        if i < 24 {
         if i < 21 {
          if i < 20 {
           Table::row(-72907200, -18000, 0, "CST")
          } else {
           Table::row(-54154800, -18000, 3600, "CDT")
          }
         } else {
          if i < 22 {
           Table::row(-41457600, -18000, 0, "CST")
          } else {
           if i < 23 {
            Table::row(-21495600, -18000, 3600, "CDT")
           } else {
            Table::row(-5774400, -18000, 0, "CST")
           }
          }
         }
        } else {
         if i < 26 {
          if i < 25 {
           Table::row(9954000, -18000, 3600, "CDT")
          } else {
           Table::row(25675200, -18000, 0, "CST")
          }
         } else {
          if i < 27 {
           Table::row(41403600, -18000, 3600, "CDT")
          } else {
           if i < 28 {
            Table::row(57729600, -18000, 0, "CST")
           } else {
            Table::row(73458000, -18000, 3600, "CDT")
           }
          }
         }
        }
       } else {
        if i < 34 {
         if i < 31 {
          if i < 30 {
           Table::row(87364800, -18000, 0, "CST")
          } else {
           Table::row(104907600, -18000, 3600, "CDT")
          }
         } else {
          if i < 32 {
           Table::row(118900800, -18000, 0, "CST")
          } else {
           if i < 33 {
            Table::row(136357200, -18000, 3600, "CDT")
           } else {
            Table::row(150436800, -18000, 0, "CST")
           }
          }
         }
        } else {
         if i < 36 {
          if i < 35 {
           Table::row(167806800, -18000, 3600, "CDT")
          } else {
           Table::row(183528000, -18000, 0, "CST")
          }
         } else {
          if i < 37 {
           Table::row(199256400, -18000, 3600, "CDT")
          } else {
           if i < 38 {
            Table::row(215582400, -18000, 0, "CST")
           } else {
            Table::row(230706000, -18000, 3600, "CDT")
           }
          }
         }
        }
       }
      }
     } else {
      if i < 58 {
       if i < 48 {
        if i < 43 {
         if i < 41 {
          if i < 40 {
           Table::row(247032000, -18000, 0, "CST")
          } else {
           Table::row(263365200, -18000, 3600, "CDT")
          }
         } else {
          if i < 42 {
           Table::row(276667200, -18000, 0, "CST")
          } else {
           Table::row(290581200, -18000, 3600, "CDT")
          }
         }
        } else {
         if i < 45 {
          if i < 44 {
           Table::row(308721600, -18000, 0, "CST")
          } else {
           Table::row(322030800, -18000, 3600, "CDT")
          }
         } else {
          if i < 46 {
           Table::row(340171200, -18000, 0, "CST")
          } else {
           if i < 47 {
            Table::row(358318800, -18000, 3600, "CDT")
           } else {
            Table::row(371620800, -18000, 0, "CST")
           }
          }
         }
        }
       } else {
        if i < 53 {
         if i < 50 {
          if i < 49 {
           Table::row(389768400, -18000, 3600, "CDT")
          } else {
           Table::row(403070400, -18000, 0, "CST")
          }
         } else {
          if i < 51 {
           Table::row(421218000, -18000, 3600, "CDT")
          } else {
           if i < 52 {
            Table::row(434520000, -18000, 0, "CST")
           } else {
            Table::row(452667600, -18000, 3600, "CDT")
           }
          }
         }
        } else {
         if i < 55 {
          if i < 54 {
           Table::row(466574400, -18000, 0, "CST")
          } else {
           Table::row(484117200, -18000, 3600, "CDT")
          }
         } else {
          if i < 56 {
           Table::row(498024000, -18000, 0, "CST")
          } else {
           if i < 57 {
            Table::row(511333200, -18000, 3600, "CDT")
           } else {
            Table::row(529473600, -18000, 0, "CST")
           }
          }
         }
        }
       }
      } else {
       if i < 68 {
        if i < 63 {
         if i < 60 {
          if i < 59 {
           Table::row(542782800, -18000, 3600, "CDT")
          } else {
           Table::row(560923200, -18000, 0, "CST")
          }
         } else {
          if i < 61 {
           Table::row(574837200, -18000, 3600, "CDT")
          } else {
           if i < 62 {
            Table::row(592372800, -18000, 0, "CST")
           } else {
            Table::row(606286800, -18000, 3600, "CDT")
           }
          }
         }
        } else {
         if i < 65 {
          if i < 64 {
           Table::row(623822400, -18000, 0, "CST")
          } else {
           Table::row(638946000, -18000, 3600, "CDT")
          }
         } else {
          if i < 66 {
           Table::row(655876800, -18000, 0, "CST")
          } else {
           if i < 67 {
            Table::row(671000400, -18000, 3600, "CDT")
           } else {
            Table::row(687330000, -18000, 0, "CST")
           }
          }
         }
        }
       } else {
        if i < 73 {
         if i < 70 {
          if i < 69 {
           Table::row(702450000, -18000, 3600, "CDT")
          } else {
           Table::row(718779600, -18000, 0, "CST")
          }
         } else {
          if i < 71 {
           Table::row(733899600, -18000, 3600, "CDT")
          } else {
           if i < 72 {
            Table::row(750229200, -18000, 0, "CST")
           } else {
            Table::row(765349200, -18000, 3600, "CDT")
           }
          }
         }
        } else {
         if i < 75 {
          if i < 74 {
           Table::row(781678800, -18000, 0, "CST")
          } else {
           Table::row(796798800, -18000, 3600, "CDT")
          }
         } else {
          if i < 76 {
           Table::row(813128400, -18000, 0, "CST")
          } else {
           if i < 77 {
            Table::row(828853200, -18000, 3600, "CDT")
           } else {
            Table::row(844578000, -18000, 0, "CST")
           }
          }
         }
        }
       }
      }
     }
    } else {
     if i < 117 {
      if i < 97 {
       if i < 87 {
        if i < 82 {
         if i < 80 {
          if i < 79 {
           Table::row(860302800, -18000, 3600, "CDT")
          } else {
           Table::row(876632400, -18000, 0, "CST")
          }
         } else {
          if i < 81 {
           Table::row(891147600, -18000, 3600, "CDT")
          } else {
           Table::row(909291600, -18000, 0, "CST")
          }
         }
        } else {
         if i < 84 {
          if i < 83 {
           Table::row(922597200, -18000, 3600, "CDT")
          } else {
           Table::row(941346000, -18000, 0, "CST")
          }
         } else {
          if i < 85 {
           Table::row(954651600, -18000, 3600, "CDT")
          } else {
           if i < 86 {
            Table::row(972795600, -18000, 0, "CST")
           } else {
            Table::row(986101200, -18000, 3600, "CDT")
           }
          }
         }
        }
       } else {
        if i < 92 {
         if i < 89 {
          if i < 88 {
           Table::row(1004245200, -18000, 0, "CST")
          } else {
           Table::row(1018155600, -18000, 3600, "CDT")
          }
         } else {
          if i < 90 {
           Table::row(1035694800, -18000, 0, "CST")
          } else {
           if i < 91 {
            Table::row(1049605200, -18000, 3600, "CDT")
           } else {
            Table::row(1067144400, -18000, 0, "CST")
           }
          }
         }
        } else {
         if i < 94 {
          if i < 93 {
           Table::row(1080450000, -18000, 3600, "CDT")
          } else {
           Table::row(1162098000, -18000, 0, "CST")
          }
         } else {
          if i < 95 {
           Table::row(1173589200, -18000, 3600, "CDT")
          } else {
           if i < 96 {
            Table::row(1193547600, -18000, 0, "CST")
           } else {
            Table::row(1205643600, -18000, 3600, "CDT")
           }
          }
         }
        }
       }
      } else {
       if i < 107 {
        if i < 102 {
         if i < 99 {
          if i < 98 {
           Table::row(1224997200, -18000, 0, "CST")
          } else {
           Table::row(1236488400, -18000, 3600, "CDT")
          }
         } else {
          if i < 100 {
           Table::row(1256446800, -18000, 0, "CST")
          } else {
           if i < 101 {
            Table::row(1268542800, -18000, 3600, "CDT")
           } else {
            Table::row(1288501200, -18000, 0, "CST")
           }
          }
         }
        } else {
         if i < 104 {
          if i < 103 {
           Table::row(1300597200, -18000, 3600, "CDT")
          } else {
           Table::row(1321160400, -18000, 0, "CST")
          }
         } else {
          if i < 105 {
           Table::row(1333256400, -18000, 3600, "CDT")
          } else {
           if i < 106 {
            Table::row(1352005200, -18000, 0, "CST")
           } else {
            Table::row(1362891600, -18000, 3600, "CDT")
           }
          }
         }
        }
       } else {
        if i < 112 {
         if i < 109 {
          if i < 108 {
           Table::row(1383454800, -18000, 0, "CST")
          } else {
           Table::row(1394341200, -18000, 3600, "CDT")
          }
         } else {
          if i < 110 {
           Table::row(1414904400, -18000, 0, "CST")
          } else {
           if i < 111 {
            Table::row(1425790800, -18000, 3600, "CDT")
           } else {
            Table::row(1446354000, -18000, 0, "CST")
           }
          }
         }
        } else {
         if i < 114 {
          if i < 113 {
           Table::row(1457845200, -18000, 3600, "CDT")
          } else {
           Table::row(1478408400, -18000, 0, "CST")
          }
         } else {
          if i < 115 {
           Table::row(1489294800, -18000, 3600, "CDT")
          } else {
           if i < 116 {
            Table::row(1509858000, -18000, 0, "CST")
           } else {
            Table::row(1520744400, -18000, 3600, "CDT")
           }
          }
         }
        }
       }
      }
     } else {
      if i < 136 {
       if i < 126 {
        if i < 121 {
         if i < 119 {
          if i < 118 {
           Table::row(1541307600, -18000, 0, "CST")
          } else {
           Table::row(1552194000, -18000, 3600, "CDT")
          }
         } else {
          if i < 120 {
           Table::row(1572757200, -18000, 0, "CST")
          } else {
           Table::row(1583643600, -18000, 3600, "CDT")
          }
         }
        } else {
         if i < 123 {
          if i < 122 {
           Table::row(1604206800, -18000, 0, "CST")
          } else {
           Table::row(1615698000, -18000, 3600, "CDT")
          }
         } else {
          if i < 124 {
           Table::row(1636261200, -18000, 0, "CST")
          } else {
           if i < 125 {
            Table::row(1647147600, -18000, 3600, "CDT")
           } else {
            Table::row(1667710800, -18000, 0, "CST")
           }
          }
         }
        }
       } else {
        if i < 131 {
         if i < 128 {
          if i < 127 {
           Table::row(1678597200, -18000, 3600, "CDT")
          } else {
           Table::row(1699160400, -18000, 0, "CST")
          }
         } else {
          if i < 129 {
           Table::row(1710046800, -18000, 3600, "CDT")
          } else {
           if i < 130 {
            Table::row(1730610000, -18000, 0, "CST")
           } else {
            Table::row(1741496400, -18000, 3600, "CDT")
           }
          }
         }
        } else {
         if i < 133 {
          if i < 132 {
           Table::row(1762059600, -18000, 0, "CST")
          } else {
           Table::row(1772946000, -18000, 3600, "CDT")
          }
         } else {
          if i < 134 {
           Table::row(1793509200, -18000, 0, "CST")
          } else {
           if i < 135 {
            Table::row(1805000400, -18000, 3600, "CDT")
           } else {
            Table::row(1825563600, -18000, 0, "CST")
           }
          }
         }
        }
       }
      } else {
       if i < 146 {
        if i < 141 {
         if i < 138 {
          if i < 137 {
           Table::row(1836450000, -18000, 3600, "CDT")
          } else {
           Table::row(1857013200, -18000, 0, "CST")
          }
         } else {
          if i < 139 {
           Table::row(1867899600, -18000, 3600, "CDT")
          } else {
           if i < 140 {
            Table::row(1888462800, -18000, 0, "CST")
           } else {
            Table::row(1899349200, -18000, 3600, "CDT")
           }
          }
         }
        } else {
         if i < 143 {
          if i < 142 {
           Table::row(1919912400, -18000, 0, "CST")
          } else {
           Table::row(1930798800, -18000, 3600, "CDT")
          }
         } else {
          if i < 144 {
           Table::row(1951362000, -18000, 0, "CST")
          } else {
           if i < 145 {
            Table::row(1962853200, -18000, 3600, "CDT")
           } else {
            Table::row(1983416400, -18000, 0, "CST")
           }
          }
         }
        }
       } else {
        if i < 151 {
         if i < 148 {
          if i < 147 {
           Table::row(1994302800, -18000, 3600, "CDT")
          } else {
           Table::row(2014866000, -18000, 0, "CST")
          }
         } else {
          if i < 149 {
           Table::row(2025752400, -18000, 3600, "CDT")
          } else {
           if i < 150 {
            Table::row(2046315600, -18000, 0, "CST")
           } else {
            Table::row(2057202000, -18000, 3600, "CDT")
           }
          }
         }
        } else {
         if i < 153 {
          if i < 152 {
           Table::row(2077765200, -18000, 0, "CST")
          } else {
           Table::row(2088651600, -18000, 3600, "CDT")
          }
         } else {
          if i < 154 {
           Table::row(2109214800, -18000, 0, "CST")
          } else {
           if i < 155 {
            Table::row(2120101200, -18000, 3600, "CDT")
           } else {
            Table::row(2140664400, -18000, 0, "CST")
           }
          }
         }
        }
       }
      }
     }
    }
}

/// The rows of the table of the zone `Cuba`.
pub open spec fn cuba_rows() -> spec_fn(int) -> (i64, FixedTimespan) {
    |i: int| cuba_row(i)
}

/// The table of the zone `Cuba`.
pub open spec fn cuba() -> Table {
    Table::listed(Table::row(0, -19768, 0, "LMT").1, 156, cuba_rows())
}

/// Row `i` of the table of the zone `EET`.
pub open spec fn eet_row(i: int) -> (i64, FixedTimespan) {
    if i < 61 {
     if i < 30 {
      if i < 15 {
       if i < 7 {
        if i < 3 {
         if i < 1 {
          Table::row(228877200, 7200, 3600, "EEST")
         } else {
          if i < 2 {
           Table::row(243997200, 7200, 0, "EET")
          } else {
           Table::row(260326800, 7200, 3600, "EEST")
          }
         }
        } else {
         if i < 5 {
          if i < 4 {
           Table::row(276051600, 7200, 0, "EET")
          } else {
           Table::row(291776400, 7200, 3600, "EEST")
          }
         } else {
          if i < 6 {
           Table::row(307501200, 7200, 0, "EET")
          } else {
           Table::row(323830800, 7200, 3600, "EEST")
          }
         }
        }
       } else {
        if i < 11 {
         if i < 9 {
          if i < 8 {
           Table::row(338950800, 7200, 0, "EET")
          } else {
           Table::row(354675600, 7200, 3600, "EEST")
          }
         } else {
          if i < 10 {
           Table::row(370400400, 7200, 0, "EET")
          } else {
           Table::row(386125200, 7200, 3600, "EEST")
          }
         }
        } else {
         if i < 13 {
          if i < 12 {
           Table::row(401850000, 7200, 0, "EET")
          } else {
           Table::row(417574800, 7200, 3600, "EEST")
          }
         } else {
          if i < 14 {
           Table::row(433299600, 7200, 0, "EET")
          } else {
           Table::row(449024400, 7200, 3600, "EEST")
          }
         }
        }
       }
      } else {
       if i < 22 {
        if i < 18 {
         if i < 16 {
          Table::row(465354000, 7200, 0, "EET")
         } else {
          if i < 17 {
           Table::row(481078800, 7200, 3600, "EEST")
          } else {
           Table::row(496803600, 7200, 0, "EET")
          }
         }
        } else {
         if i < 20 {
          if i < 19 {
           Table::row(512528400, 7200, 3600, "EEST")
          } else {
           Table::row(528253200, 7200, 0, "EET")
          }
         } else {
          if i < 21 {
           Table::row(543978000, 7200, 3600, "EEST")
          } else {
           Table::row(559702800, 7200, 0, "EET")
          }
         }
        }
       } else {
        if i < 26 {
         if i < 24 {
          if i < 23 {
           Table::row(575427600, 7200, 3600, "EEST")
          } else {
           Table::row(591152400, 7200, 0, "EET")
          }
         } else {
          if i < 25 {
           Table::row(606877200, 7200, 3600, "EEST")
          } else {
           Table::row(622602000, 7200, 0, "EET")
          }
         }
        } else {
         if i < 28 {
          if i < 27 {
           Table::row(638326800, 7200, 3600, "EEST")
          } else {
           Table::row(654656400, 7200, 0, "EET")
          }
         } else {
          if i < 29 {
           Table::row(670381200, 7200, 3600, "EEST")
          } else {
           Table::row(686106000, 7200, 0, "EET")
          }
         }
        }
       }
      }
     } else {
      if i < 45 {
       if i < 37 {
        if i < 33 {
         if i < 31 {
          Table::row(701830800, 7200, 3600, "EEST")
         } else {
          if i < 32 {
           Table::row(717555600, 7200, 0, "EET")
          } else {
           Table::row(733280400, 7200, 3600, "EEST")
          }
         }
        } else {
         if i < 35 {
          if i < 34 {
           Table::row(749005200, 7200, 0, "EET")
          } else {
           Table::row(764730000, 7200, 3600, "EEST")
          }
         } else {
          if i < 36 {
           Table::row(780454800, 7200, 0, "EET")
          } else {
           Table::row(796179600, 7200, 3600, "EEST")
          }
         }
        }
       } else {
        if i < 41 {
         if i < 39 {
          if i < 38 {
           Table::row(811904400, 7200, 0, "EET")
          } else {
           Table::row(828234000, 7200, 3600, "EEST")
          }
         } else {
          if i < 40 {
           Table::row(846378000, 7200, 0, "EET")
          } else {
           Table::row(859683600, 7200, 3600, "EEST")
          }
         }
        } else {
         if i < 43 {
          if i < 42 {
           Table::row(877827600, 7200, 0, "EET")
          } else {
           Table::row(891133200, 7200, 3600, "EEST")
          }
         } else {
          if i < 44 {
           Table::row(909277200, 7200, 0, "EET")
          } else {
           Table::row(922582800, 7200, 3600, "EEST")
          }
         }
        }
       }
      } else {
       if i < 53 {
        if i < 49 {
         if i < 47 {
          if i < 46 {
           Table::row(941331600, 7200, 0, "EET")
          } else {
           Table::row(954032400, 7200, 3600, "EEST")
          }
         } else {
          if i < 48 {
           Table::row(972781200, 7200, 0, "EET")
          } else {
           Table::row(985482000, 7200, 3600, "EEST")
          }
         }
        } else {
         if i < 51 {
          if i < 50 {
           Table::row(1004230800, 7200, 0, "EET")
          } else {
           Table::row(1017536400, 7200, 3600, "EEST")
          }
         } else {
          if i < 52 {
           Table::row(1035680400, 7200, 0, "EET")
          } else {
           Table::row(1048986000, 7200, 3600, "EEST")
          }
         }
        }
       } else {
        if i < 57 {
         if i < 55 {
          if i < 54 {
           Table::row(1067130000, 7200, 0, "EET")
          } else {
           Table::row(1080435600, 7200, 3600, "EEST")
          }
         } else {
          if i < 56 {
           Table::row(1099184400, 7200, 0, "EET")
          } else {
           Table::row(1111885200, 7200, 3600, "EEST")
          }
         }
        } else {
         if i < 59 {
          if i < 58 {
           Table::row(1130634000, 7200, 0, "EET")
          } else {
           Table::row(1143334800, 7200, 3600, "EEST")
          }
         } else {
          if i < 60 {
           Table::row(1162083600, 7200, 0, "EET")
          } else {
           Table::row(1174784400, 7200, 3600, "EEST")
          }
         }
        }
       }
      }
     }
    } else {
     if i < 91 {
      if i < 76 {
       if i < 68 {
        if i < 64 {
         if i < 62 {
          Table::row(1193533200, 7200, 0, "EET")
         } else {
          if i < 63 {
           Table::row(1206838800, 7200, 3600, "EEST")
          } else {
           Table::row(1224982800, 7200, 0, "EET")
          }
         }
        } else {
         if i < 66 {
          if i < 65 {
           Table::row(1238288400, 7200, 3600, "EEST")
          } else {
           Table::row(1256432400, 7200, 0, "EET")
          }
         } else {
          if i < 67 {
           Table::row(1269738000, 7200, 3600, "EEST")
          } else {
           Table::row(1288486800, 7200, 0, "EET")
          }
         }
        }
       } else {
        if i < 72 {
         if i < 70 {
          if i < 69 {
           Table::row(1301187600, 7200, 3600, "EEST")
          } else {
           Table::row(1319936400, 7200, 0, "EET")
          }
         } else {
          if i < 71 {
           Table::row(1332637200, 7200, 3600, "EEST")
          } else {
           Table::row(1351386000, 7200, 0, "EET")
          }
         }
        } else {
         if i < 74 {
          if i < 73 {
           Table::row(1364691600, 7200, 3600, "EEST")
          } else {
           Table::row(1382835600, 7200, 0, "EET")
          }
         } else {
          if i < 75 {
           Table::row(1396141200, 7200, 3600, "EEST")
          } else {
           Table::row(1414285200, 7200, 0, "EET")
          }
         }
        }
       }
      } else {
       if i < 83 {
        if i < 79 {
         if i < 77 {
          Table::row(1427590800, 7200, 3600, "EEST")
         } else {
          if i < 78 {
           Table::row(1445734800, 7200, 0, "EET")
          } else {
           Table::row(1459040400, 7200, 3600, "EEST")
          }
         }
        } else {
         if i < 81 {
          if i < 80 {
           Table::row(1477789200, 7200, 0, "EET")
          } else {
           Table::row(1490490000, 7200, 3600, "EEST")
          }
         } else {
          if i < 82 {
           Table::row(1509238800, 7200, 0, "EET")
          } else {
           Table::row(1521939600, 7200, 3600, "EEST")
          }
         }
        }
       } else {
        if i < 87 {
         if i < 85 {
          if i < 84 {
           Table::row(1540688400, 7200, 0, "EET")
          } else {
           Table::row(1553994000, 7200, 3600, "EEST")
          }
         } else {
          if i < 86 {
           Table::row(1572138000, 7200, 0, "EET")
          } else {
           Table::row(1585443600, 7200, 3600, "EEST")
          }
         }
        } else {
         if i < 89 {
          if i < 88 {
           Table::row(1603587600, 7200, 0, "EET")
          } else {
           Table::row(1616893200, 7200, 3600, "EEST")
          }
         } else {
          if i < 90 {
           Table::row(1635642000, 7200, 0, "EET")
          } else {
           Table::row(1648342800, 7200, 3600, "EEST")
          }
         }
        }
       }
      }
     } else {
      if i < 106 {
       if i < 98 {
        if i < 94 {
         if i < 92 {
          Table::row(1667091600, 7200, 0, "EET")
         } else {
          if i < 93 {
           Table::row(1679792400, 7200, 3600, "EEST")
          } else {
           Table::row(1698541200, 7200, 0, "EET")
          }
         }
        } else {
         if i < 96 {
          if i < 95 {
           Table::row(1711846800, 7200, 3600, "EEST")
          } else {
           Table::row(1729990800, 7200, 0, "EET")
          }
         } else {
          if i < 97 {
           Table::row(1743296400, 7200, 3600, "EEST")
          } else {
           Table::row(1761440400, 7200, 0, "EET")
          }
         }
        }
       } else {
        if i < 102 {
         if i < 100 {
          if i < 99 {
           Table::row(1774746000, 7200, 3600, "EEST")
          } else {
           Table::row(1792890000, 7200, 0, "EET")
          }
         } else {
          if i < 101 {
           Table::row(1806195600, 7200, 3600, "EEST")
          } else {
           Table::row(1824944400, 7200, 0, "EET")
          }
         }
        } else {
         if i < 104 {
          if i < 103 {
           Table::row(1837645200, 7200, 3600, "EEST")
          } else {
           Table::row(1856394000, 7200, 0, "EET")
          }
         } else {
          if i < 105 {
           Table::row(1869094800, 7200, 3600, "EEST")
          } else {
           Table::row(1887843600, 7200, 0, "EET")
          }
         }
        }
       }
      } else {
       if i < 114 {
        if i < 110 {
         if i < 108 {
          if i < 107 {
           Table::row(1901149200, 7200, 3600, "EEST")
          } else {
           Table::row(1919293200, 7200, 0, "EET")
          }
         } else {
          if i < 109 {
           Table::row(1932598800, 7200, 3600, "EEST")
          } else {
           Table::row(1950742800, 7200, 0, "EET")
          }
         }
        } else {
         if i < 112 {
          if i < 111 {
           Table::row(1964048400, 7200, 3600, "EEST")
          } else {
           Table::row(1982797200, 7200, 0, "EET")
          }
         } else {
          if i < 113 {
           Table::row(1995498000, 7200, 3600, "EEST")
          } else {
           Table::row(2014246800, 7200, 0, "EET")
          }
         }
        }
       } else {
        if i < 118 {
         if i < 116 {
          if i < 115 {
           Table::row(2026947600, 7200, 3600, "EEST")
          } else {
           Table::row(2045696400, 7200, 0, "EET")
          }
         } else {
          if i < 117 {
           Table::row(2058397200, 7200, 3600, "EEST")
          } else {
           Table::row(2077146000, 7200, 0, "EET")
          }
         }
        } else {
         if i < 120 {
          if i < 119 {
           Table::row(2090451600, 7200, 3600, "EEST")
          } else {
           Table::row(2108595600, 7200, 0, "EET")
          }
         } else {
          if i < 121 {
           Table::row(2121901200, 7200, 3600, "EEST")
          } else {
           Table::row(2140045200, 7200, 0, "EET")
          }
         }
        }
       }
      }
     }
    }
}

/// The rows of the table of the zone `EET`.
pub open spec fn eet_rows() -> spec_fn(int) -> (i64, FixedTimespan) {
    |i: int| eet_row(i)
}

/// The table of the zone `EET`.
pub open spec fn eet() -> Table {
    Table::listed(Table::row(0, 7200, 0, "EET").1, 122, eet_rows())
}

/// Row `i` of the table of the zone `EST`.
pub open spec fn est_row(i: int) -> (i64, FixedTimespan) {
    Table::row(0, -18000, 0, "EST")
}

/// The rows of the table of the zone `EST`.
pub open spec fn est_rows() -> spec_fn(int) -> (i64, FixedTimespan) {
    |i: int| est_row(i)
}

/// The table of the zone `EST`.
pub open spec fn est() -> Table {
    Table::listed(Table::row(0, -18000, 0, "EST").1, 0, est_rows())
}

/// Row `i` of the table of the zone `EST5EDT`.
pub open spec fn est5edt_row(i: int) -> (i64, FixedTimespan) {
    if i < 74 {
     if i < 37 {
      if i < 18 {
       if i < 9 {
        if i < 4 {
         if i < 2 {
          if i < 1 {
           Table::row(-1633280400, -18000, 3600, "EDT")
          } else {
           Table::row(-1615140000, -18000, 0, "EST")
          }
         } else {
          if i < 3 {
           Table::row(-1601830800, -18000, 3600, "EDT")
          } else {
           Table::row(-1583690400, -18000, 0, "EST")
          }
         }
        } else {
         if i < 6 {
          if i < 5 {
           Table::row(-880218000, -18000, 3600, "EWT")
          } else {
           Table::row(-769395600, -18000, 3600, "EPT")
          }
         } else {
          if i < 7 {
           Table::row(-765396000, -18000, 0, "EST")
          } else {
           if i < 8 {
            Table::row(-84387600, -18000, 3600, "EDT")
           } else {
            Table::row(-68666400, -18000, 0, "EST")
           }
          }
         }
        }
       } else {
        if i < 13 {
         if i < 11 {
          if i < 10 {
           Table::row(-52938000, -18000, 3600, "EDT")
          } else {
           Table::row(-37216800, -18000, 0, "EST")
          }
         } else {
          if i < 12 {
           Table::row(-21488400, -18000, 3600, "EDT")
          } else {
           Table::row(-5767200, -18000, 0, "EST")
          }
         }
        } else {
         if i < 15 {
          if i < 14 {
           Table::row(9961200, -18000, 3600, "EDT")
          } else {
           Table::row(25682400, -18000, 0, "EST")
          }
         } else {
          if i < 16 {
           Table::row(41410800, -18000, 3600, "EDT")
          } else {
           if i < 17 {
            Table::row(57736800, -18000, 0, "EST")
           } else {
            Table::row(73465200, -18000, 3600, "EDT")
           }
          }
         }
        }
       }
      } else {
       if i < 27 {
        if i < 22 {
         if i < 20 {
          if i < 19 {
           Table::row(89186400, -18000, 0, "EST")
          } else {
           Table::row(104914800, -18000, 3600, "EDT")
          }
         } else {
          if i < 21 {
           Table::row(120636000, -18000, 0, "EST")
          } else {
           Table::row(126687600, -18000, 3600, "EDT")
          }
         }
        } else {
         if i < 24 {
          if i < 23 {
           Table::row(152085600, -18000, 0, "EST")
          } else {
           Table::row(162370800, -18000, 3600, "EDT")
          }
         } else {
          if i < 25 {
           Table::row(183535200, -18000, 0, "EST")
          } else {
           if i < 26 {
            Table::row(199263600, -18000, 3600, "EDT")
           } else {
            Table::row(215589600, -18000, 0, "EST")
           }
          }
         }
        }
       } else {
        if i < 32 {
         if i < 29 {
          if i < 28 {
           Table::row(230713200, -18000, 3600, "EDT")
          } else {
           Table::row(247039200, -18000, 0, "EST")
          }
         } else {
          if i < 30 {
           Table::row(262767600, -18000, 3600, "EDT")
          } else {
           if i < 31 {
            Table::row(278488800, -18000, 0, "EST")
           } else {
            Table::row(294217200, -18000, 3600, "EDT")
           }
          }
         }
        } else {
         if i < 34 {
          if i < 33 {
           Table::row(309938400, -18000, 0, "EST")
          } else {
           Table::row(325666800, -18000, 3600, "EDT")
          }
         } else {
          if i < 35 {
           Table::row(341388000, -18000, 0, "EST")
          } else {
           if i < 36 {
            Table::row(357116400, -18000, 3600, "EDT")
           } else {
            Table::row(372837600, -18000, 0, "EST")
           }
          }
         }
        }
       }
      }
     } else {
      if i < 55 {
       if i < 46 {
        if i < 41 {
         if i < 39 {
          if i < 38 {
           Table::row(388566000, -18000, 3600, "EDT")
          } else {
           Table::row(404892000, -18000, 0, "EST")
          }
         } else {
          if i < 40 {
           Table::row(420015600, -18000, 3600, "EDT")
          } else {
           Table::row(436341600, -18000, 0, "EST")
          }
         }
        } else {
         if i < 43 {
          if i < 42 {
           Table::row(452070000, -18000, 3600, "EDT")
          } else {
           Table::row(467791200, -18000, 0, "EST")
          }
         } else {
          if i < 44 {
           Table::row(483519600, -18000, 3600, "EDT")
          } else {
           if i < 45 {
            Table::row(499240800, -18000, 0, "EST")
           } else {
            Table::row(514969200, -18000, 3600, "EDT")
           }
          }
         }
        }
       } else {
        if i < 50 {
         if i < 48 {
          if i < 47 {
           Table::row(530690400, -18000, 0, "EST")
          } else {
           Table::row(544604400, -18000, 3600, "EDT")
          }
         } else {
          if i < 49 {
           Table::row(562140000, -18000, 0, "EST")
          } else {
           Table::row(576054000, -18000, 3600, "EDT")
          }
         }
        } else {
         if i < 52 {
          if i < 51 {
           Table::row(594194400, -18000, 0, "EST")
          } else {
           Table::row(607503600, -18000, 3600, "EDT")
          }
         } else {
          if i < 53 {
           Table::row(625644000, -18000, 0, "EST")
          } else {
           if i < 54 {
            Table::row(638953200, -18000, 3600, "EDT")
           } else {
            Table::row(657093600, -18000, 0, "EST")
           }
          }
         }
        }
       }
      } else {
       if i < 64 {
        if i < 59 {
         if i < 57 {
          if i < 56 {
           Table::row(671007600, -18000, 3600, "EDT")
          } else {
           Table::row(688543200, -18000, 0, "EST")
          }
         } else {
          if i < 58 {
           Table::row(702457200, -18000, 3600, "EDT")
          } else {
           Table::row(719992800, -18000, 0, "EST")
          }
         }
        } else {
         if i < 61 {
          if i < 60 {
           Table::row(733906800, -18000, 3600, "EDT")
          } else {
           Table::row(752047200, -18000, 0, "EST")
          }
         } else {
          if i < 62 {
           Table::row(765356400, -18000, 3600, "EDT")
          } else {
           if i < 63 {
            Table::row(783496800, -18000, 0, "EST")
           } else {
            Table::row(796806000, -18000, 3600, "EDT")
           }
          }
         }
        }
       } else {
        if i < 69 {
         if i < 66 {
          if i < 65 {
           Table::row(814946400, -18000, 0, "EST")
          } else {
           Table::row(828860400, -18000, 3600, "EDT")
          }
         } else {
          if i < 67 {
           Table::row(846396000, -18000, 0, "EST")
          } else {
           if i < 68 {
            Table::row(860310000, -18000, 3600, "EDT")
           } else {
            Table::row(877845600, -18000, 0, "EST")
           }
          }
         }
        } else {
         if i < 71 {
          if i < 70 {
           Table::row(891759600, -18000, 3600, "EDT")
          } else {
           Table::row(909295200, -18000, 0, "EST")
          }
         } else {
          if i < 72 {
           Table::row(923209200, -18000, 3600, "EDT")
          } else {
           if i < 73 {
            Table::row(941349600, -18000, 0, "EST")
           } else {
            Table::row(954658800, -18000, 3600, "EDT")
           }
          }
         }
        }
       }
      }
     }
    } else {
     if i < 111 {
      if i < 92 {
       if i < 83 {
        if i < 78 {
         if i < 76 {
          if i < 75 {
           Table::row(972799200, -18000, 0, "EST")
          } else {
           Table::row(986108400, -18000, 3600, "EDT")
          }
         } else {
          if i < 77 {
           Table::row(1004248800, -18000, 0, "EST")
          } else {
           Table::row(1018162800, -18000, 3600, "EDT")
          }
         }
        } else {
         if i < 80 {
          if i < 79 {
           Table::row(1035698400, -18000, 0, "EST")
          } else {
           Table::row(1049612400, -18000, 3600, "EDT")
          }
         } else {
          if i < 81 {
           Table::row(1067148000, -18000, 0, "EST")
          } else {
           if i < 82 {
            Table::row(1081062000, -18000, 3600, "EDT")
           } else {
            Table::row(1099202400, -18000, 0, "EST")
           }
          }
         }
        }
       } else {
        if i < 87 {
         if i < 85 {
          if i < 84 {
           Table::row(1112511600, -18000, 3600, "EDT")
          } else {
           Table::row(1130652000, -18000, 0, "EST")
          }
         } else {
          if i < 86 {
           Table::row(1143961200, -18000, 3600, "EDT")
          } else {
           Table::row(1162101600, -18000, 0, "EST")
          }
         }
        } else {
         if i < 89 {
          if i < 88 {
           Table::row(1173596400, -18000, 3600, "EDT")
          } else {
           Table::row(1194156000, -18000, 0, "EST")
          }
         } else {
          if i < 90 {
           Table::row(1205046000, -18000, 3600, "EDT")
          } else {
           if i < 91 {
            Table::row(1225605600, -18000, 0, "EST")
           } else {
            Table::row(1236495600, -18000, 3600, "EDT")
           }
          }
         }
        }
       }
      } else {
       if i < 101 {
        if i < 96 {
         if i < 94 {
          if i < 93 {
           Table::row(1257055200, -18000, 0, "EST")
          } else {
           Table::row(1268550000, -18000, 3600, "EDT")
          }
         } else {
          if i < 95 {
           Table::row(1289109600, -18000, 0, "EST")
          } else {
           Table::row(1299999600, -18000, 3600, "EDT")
          }
         }
        } else {
         if i < 98 {
          if i < 97 {
           Table::row(1320559200, -18000, 0, "EST")
          } else {
           Table::row(1331449200, -18000, 3600, "EDT")
          }
         } else {
          if i < 99 {
           Table::row(1352008800, -18000, 0, "EST")
          } else {
           if i < 100 {
            Table::row(1362898800, -18000, 3600, "EDT")
           } else {
            Table::row(1383458400, -18000, 0, "EST")
           }
          }
         }
        }
       } else {
        if i < 106 {
         if i < 103 {
          if i < 102 {
           Table::row(1394348400, -18000, 3600, "EDT")
          } else {
           Table::row(1414908000, -18000, 0, "EST")
          }
         } else {
          if i < 104 {
           Table::row(1425798000, -18000, 3600, "EDT")
          } else {
           if i < 105 {
            Table::row(1446357600, -18000, 0, "EST")
           } else {
            Table::row(1457852400, -18000, 3600, "EDT")
           }
          }
         }
        } else {
         if i < 108 {
          if i < 107 {
           Table::row(1478412000, -18000, 0, "EST")
          } else {
           Table::row(1489302000, -18000, 3600, "EDT")
          }
         } else {
          if i < 109 {
           Table::row(1509861600, -18000, 0, "EST")
          } else {
           if i < 110 {
            Table::row(1520751600, -18000, 3600, "EDT")
           } else {
            Table::row(1541311200, -18000, 0, "EST")
           }
          }
         }
        }
       }
      }
     } else {
      if i < 130 {
       if i < 120 {
        if i < 115 {
         if i < 113 {
          if i < 112 {
           Table::row(1552201200, -18000, 3600, "EDT")
          } else {
           Table::row(1572760800, -18000, 0, "EST")
          }
         } else {
          if i < 114 {
           Table::row(1583650800, -18000, 3600, "EDT")
          } else {
           Table::row(1604210400, -18000, 0, "EST")
          }
         }
        } else {
         if i < 117 {
          if i < 116 {
           Table::row(1615705200, -18000, 3600, "EDT")
          } else {
           Table::row(1636264800, -18000, 0, "EST")
          }
         } else {
          if i < 118 {
           Table::row(1647154800, -18000, 3600, "EDT")
          } else {
           if i < 119 {
            Table::row(1667714400, -18000, 0, "EST")
           } else {
            Table::row(1678604400, -18000, 3600, "EDT")
           }
          }
         }
        }
       } else {
        if i < 125 {
         if i < 122 {
          if i < 121 {
           Table::row(1699164000, -18000, 0, "EST")
          } else {
           Table::row(1710054000, -18000, 3600, "EDT")
          }
         } else {
          if i < 123 {
           Table::row(1730613600, -18000, 0, "EST")
          } else {
           if i < 124 {
            Table::row(1741503600, -18000, 3600, "EDT")
           } else {
            Table::row(1762063200, -18000, 0, "EST")
           }
          }
         }
        } else {
         if i < 127 {
          if i < 126 {
           Table::row(1772953200, -18000, 3600, "EDT")
          } else {
           Table::row(1793512800, -18000, 0, "EST")
          }
         } else {
          if i < 128 {
           Table::row(1805007600, -18000, 3600, "EDT")
          } else {
           if i < 129 {
            Table::row(1825567200, -18000, 0, "EST")
           } else {
            Table::row(1836457200, -18000, 3600, "EDT")
           }
          }
         }
        }
       }
      } else {
       if i < 139 {
        if i < 134 {
         if i < 132 {
          if i < 131 {
           Table::row(1857016800, -18000, 0, "EST")
          } else {
           Table::row(1867906800, -18000, 3600, "EDT")
          }
         } else {
          if i < 133 {
           Table::row(1888466400, -18000, 0, "EST")
          } else {
           Table::row(1899356400, -18000, 3600, "EDT")
          }
         }
        } else {
         if i < 136 {
          if i < 135 {
           Table::row(1919916000, -18000, 0, "EST")
          } else {
           Table::row(1930806000, -18000, 3600, "EDT")
          }
         } else {
          if i < 137 {
           Table::row(1951365600, -18000, 0, "EST")
          } else {
           if i < 138 {
            Table::row(1962860400, -18000, 3600, "EDT")
           } else {
            Table::row(1983420000, -18000, 0, "EST")
           }
          }
         }
        }
       } else {
        if i < 144 {
         if i < 141 {
          if i < 140 {
           Table::row(1994310000, -18000, 3600, "EDT")
          } else {
           Table::row(2014869600, -18000, 0, "EST")
          }
         } else {
          if i < 142 {
           Table::row(2025759600, -18000, 3600, "EDT")
          } else {
           if i < 143 {
            Table::row(2046319200, -18000, 0, "EST")
           } else {
            Table::row(2057209200, -18000, 3600, "EDT")
           }
          }
         }
        } else {
         if i < 146 {
          if i < 145 {
           Table::row(2077768800, -18000, 0, "EST")
          } else {
           Table::row(2088658800, -18000, 3600, "EDT")
          }
         } else {
          if i < 147 {
           Table::row(2109218400, -18000, 0, "EST")
          } else {
           if i < 148 {
            Table::row(2120108400, -18000, 3600, "EDT")
           } else {
            Table::row(2140668000, -18000, 0, "EST")
           }
          }
         }
        }
       }
      }
     }
    }
}

/// The rows of the table of the zone `EST5EDT`.
pub open spec fn est5edt_rows() -> spec_fn(int) -> (i64, FixedTimespan) {
    |i: int| est5edt_row(i)
}

/// The table of the zone `EST5EDT`.
pub open spec fn est5edt() -> Table {
    Table::listed(Table::row(0, -18000, 0, "EST").1, 149, est5edt_rows())
}

/// Row `i` of the table of the zone `Egypt`.
pub open spec fn egypt_row(i: int) -> (i64, FixedTimespan) {
    if i < 78 {
     if i < 39 {
      if i < 19 {
       if i < 9 {
        if i < 4 {
         if i < 2 {
          if i < 1 {
           Table::row(-2185409109, 7200, 0, "EET")
          } else {
           Table::row(-929844000, 7200, 3600, "EEST")
          }
         } else {
          if i < 3 {
           Table::row(-923108400, 7200, 0, "EET")
          } else {
           Table::row(-906170400, 7200, 3600, "EEST")
          }
         }
        } else {
         if i < 6 {
          if i < 5 {
           Table::row(-892868400, 7200, 0, "EET")
          } else {
           Table::row(-875844000, 7200, 3600, "EEST")
          }
         } else {
          if i < 7 {
           Table::row(-857790000, 7200, 0, "EET")
          } else {
           if i < 8 {
            Table::row(-844308000, 7200, 3600, "EEST")
           } else {
            Table::row(-825822000, 7200, 0, "EET")
           }
          }
         }
        }
       } else {
        if i < 14 {
         if i < 11 {
          if i < 10 {
           Table::row(-812685600, 7200, 3600, "EEST")
          } else {
           Table::row(-794199600, 7200, 0, "EET")
          }
         } else {
          if i < 12 {
           Table::row(-779853600, 7200, 3600, "EEST")
          } else {
           if i < 13 {
            Table::row(-762663600, 7200, 0, "EET")
           } else {
            Table::row(-399088800, 7200, 3600, "EEST")
           }
          }
         }
        } else {
         if i < 16 {
          if i < 15 {
           Table::row(-386650800, 7200, 0, "EET")
          } else {
           Table::row(-368330400, 7200, 3600, "EEST")
          }
         } else {
          if i < 17 {
           Table::row(-355114800, 7200, 0, "EET")
          } else {
           if i < 18 {
            Table::row(-336790800, 7200, 3600, "EEST")
           } else {
            Table::row(-323654400, 7200, 0, "EET")
           }
          }
         }
        }
       }
      } else {
       if i < 29 {
        if i < 24 {
         if i < 21 {
          if i < 20 {
           Table::row(-305168400, 7200, 3600, "EEST")
          } else {
           Table::row(-292032000, 7200, 0, "EET")
          }
         } else {
          if i < 22 {
           Table::row(-273632400, 7200, 3600, "EEST")
          } else {
           if i < 23 {
            Table::row(-260496000, 7200, 0, "EET")
           } else {
            Table::row(-242096400, 7200, 3600, "EEST")
           }
          }
         }
        } else {
         if i < 26 {
          if i < 25 {
           Table::row(-228960000, 7200, 0, "EET")
          } else {
           Table::row(-210560400, 7200, 3600, "EEST")
          }
         } else {
          if i < 27 {
           Table::row(-197424000, 7200, 0, "EET")
          } else {
           if i < 28 {
            Table::row(-178938000, 7200, 3600, "EEST")
           } else {
            Table::row(-165801600, 7200, 0, "EET")
           }
          }
         }
        }
       } else {
        if i < 34 {
         if i < 31 {
          if i < 30 {
           Table::row(-147402000, 7200, 3600, "EEST")
          } else {
           Table::row(-134265600, 7200, 0, "EET")
          }
         } else {
          if i < 32 {
           Table::row(-115866000, 7200, 3600, "EEST")
          } else {
           if i < 33 {
            Table::row(-102643200, 7200, 0, "EET")
           } else {
            Table::row(-84330000, 7200, 3600, "EEST")
           }
          }
         }
        } else {
         if i < 36 {
          if i < 35 {
           Table::row(-71107200, 7200, 0, "EET")
          } else {
           Table::row(-52707600, 7200, 3600, "EEST")
          }
         } else {
          if i < 37 {
           Table::row(-39484800, 7200, 0, "EET")
          } else {
           if i < 38 {
            Table::row(-21171600, 7200, 3600, "EEST")
           } else {
            Table::row(-7948800, 7200, 0, "EET")
           }
          }
         }
        }
       }
      }
     } else {
      if i < 58 {
       if i < 48 {
        if i < 43 {
         if i < 41 {
          if i < 40 {
           Table::row(10364400, 7200, 3600, "EEST")
          } else {
           Table::row(23587200, 7200, 0, "EET")
          }
         } else {
          if i < 42 {
           Table::row(41900400, 7200, 3600, "EEST")
          } else {
           Table::row(55123200, 7200, 0, "EET")
          }
         }
        } else {
         if i < 45 {
          if i < 44 {
           Table::row(73522800, 7200, 3600, "EEST")
          } else {
           Table::row(86745600, 7200, 0, "EET")
          }
         } else {
          if i < 46 {
           Table::row(105058800, 7200, 3600, "EEST")
          } else {
           if i < 47 {
            Table::row(118281600, 7200, 0, "EET")
           } else {
            Table::row(136594800, 7200, 3600, "EEST")
           }
          }
         }
        }
       } else {
        if i < 53 {
         if i < 50 {
          if i < 49 {
           Table::row(149817600, 7200, 0, "EET")
          } else {
           Table::row(168130800, 7200, 3600, "EEST")
          }
         } else {
          if i < 51 {
           Table::row(181353600, 7200, 0, "EET")
          } else {
           if i < 52 {
            Table::row(199753200, 7200, 3600, "EEST")
           } else {
            Table::row(212976000, 7200, 0, "EET")
           }
          }
         }
        } else {
         if i < 55 {
          if i < 54 {
           Table::row(231289200, 7200, 3600, "EEST")
          } else {
           Table::row(244512000, 7200, 0, "EET")
          }
         } else {
          if i < 56 {
           Table::row(262825200, 7200, 3600, "EEST")
          } else {
           if i < 57 {
            Table::row(276048000, 7200, 0, "EET")
           } else {
            Table::row(294361200, 7200, 3600, "EEST")
           }
          }
         }
        }
       }
      } else {
       if i < 68 {
        if i < 63 {
         if i < 60 {
          if i < 59 {
           Table::row(307584000, 7200, 0, "EET")
          } else {
           Table::row(325983600, 7200, 3600, "EEST")
          }
         } else {
          if i < 61 {
           Table::row(339206400, 7200, 0, "EET")
          } else {
           if i < 62 {
            Table::row(357519600, 7200, 3600, "EEST")
           } else {
            Table::row(370742400, 7200, 0, "EET")
           }
          }
         }
        } else {
         if i < 65 {
          if i < 64 {
           Table::row(396399600, 7200, 3600, "EEST")
          } else {
           Table::row(402278400, 7200, 0, "EET")
          }
         } else {
          if i < 66 {
           Table::row(426812400, 7200, 3600, "EEST")
          } else {
           if i < 67 {
            Table::row(433814400, 7200, 0, "EET")
           } else {
            Table::row(452214000, 7200, 3600, "EEST")
           }
          }
         }
        }
       } else {
        if i < 73 {
         if i < 70 {
          if i < 69 {
           Table::row(465436800, 7200, 0, "EET")
          } else {
           Table::row(483750000, 7200, 3600, "EEST")
          }
         } else {
          if i < 71 {
           Table::row(496972800, 7200, 0, "EET")
          } else {
           if i < 72 {
            Table::row(515286000, 7200, 3600, "EEST")
           } else {
            Table::row(528508800, 7200, 0, "EET")
           }
          }
         }
        } else {
         if i < 75 {
          if i < 74 {
           Table::row(546822000, 7200, 3600, "EEST")
          } else {
           Table::row(560044800, 7200, 0, "EET")
          }
         } else {
          if i < 76 {
           Table::row(578444400, 7200, 3600, "EEST")
          } else {
           if i < 77 {
            Table::row(591667200, 7200, 0, "EET")
           } else {
            Table::row(610412400, 7200, 3600, "EEST")
           }
          }
         }
        }
       }
      }
     }
    } else {
     if i < 117 {
      if i < 97 {
       if i < 87 {
        if i < 82 {
         if i < 80 {
          if i < 79 {
           Table::row(623203200, 7200, 0, "EET")
          } else {
           Table::row(641516400, 7200, 3600, "EEST")
          }
         } else {
          if i < 81 {
           Table::row(654739200, 7200, 0, "EET")
          } else {
           Table::row(673052400, 7200, 3600, "EEST")
          }
         }
        } else {
         if i < 84 {
          if i < 83 {
           Table::row(686275200, 7200, 0, "EET")
          } else {
           Table::row(704674800, 7200, 3600, "EEST")
          }
         } else {
          if i < 85 {
           Table::row(717897600, 7200, 0, "EET")
          } else {
           if i < 86 {
            Table::row(736210800, 7200, 3600, "EEST")
           } else {
            Table::row(749433600, 7200, 0, "EET")
           }
          }
         }
        }
       } else {
        if i < 92 {
         if i < 89 {
          if i < 88 {
           Table::row(767746800, 7200, 3600, "EEST")
          } else {
           Table::row(780969600, 7200, 0, "EET")
          }
         } else {
          if i < 90 {
           Table::row(799020000, 7200, 3600, "EEST")
          } else {
           if i < 91 {
            Table::row(812322000, 7200, 0, "EET")
           } else {
            Table::row(830469600, 7200, 3600, "EEST")
           }
          }
         }
        } else {
         if i < 94 {
          if i < 93 {
           Table::row(843771600, 7200, 0, "EET")
          } else {
           Table::row(861919200, 7200, 3600, "EEST")
          }
         } else {
          if i < 95 {
           Table::row(875221200, 7200, 0, "EET")
          } else {
           if i < 96 {
            Table::row(893368800, 7200, 3600, "EEST")
           } else {
            Table::row(906670800, 7200, 0, "EET")
           }
          }
         }
        }
       }
      } else {
       if i < 107 {
        if i < 102 {
         if i < 99 {
          if i < 98 {
           Table::row(925423200, 7200, 3600, "EEST")
          } else {
           Table::row(938725200, 7200, 0, "EET")
          }
         } else {
          if i < 100 {
           Table::row(956872800, 7200, 3600, "EEST")
          } else {
           if i < 101 {
            Table::row(970174800, 7200, 0, "EET")
           } else {
            Table::row(988322400, 7200, 3600, "EEST")
           }
          }
         }
        } else {
         if i < 104 {
          if i < 103 {
           Table::row(1001624400, 7200, 0, "EET")
          } else {
           Table::row(1019772000, 7200, 3600, "EEST")
          }
         } else {
          if i < 105 {
           Table::row(1033074000, 7200, 0, "EET")
          } else {
           if i < 106 {
            Table::row(1051221600, 7200, 3600, "EEST")
           } else {
            Table::row(1064523600, 7200, 0, "EET")
           }
          }
         }
        }
       } else {
        if i < 112 {
         if i < 109 {
          if i < 108 {
           Table::row(1083276000, 7200, 3600, "EEST")
          } else {
           Table::row(1096578000, 7200, 0, "EET")
          }
         } else {
          if i < 110 {
           Table::row(1114725600, 7200, 3600, "EEST")
          } else {
           if i < 111 {
            Table::row(1128027600, 7200, 0, "EET")
           } else {
            Table::row(1146175200, 7200, 3600, "EEST")
           }
          }
         }
        } else {
         if i < 114 {
          if i < 113 {
           Table::row(1158872400, 7200, 0, "EET")
          } else {
           Table::row(1177624800, 7200, 3600, "EEST")
          }
         } else {
          if i < 115 {
           Table::row(1189112400, 7200, 0, "EET")
          } else {
           if i < 116 {
            Table::row(1209074400, 7200, 3600, "EEST")
           } else {
            Table::row(1219957200, 7200, 0, "EET")
           }
          }
         }
        }
       }
      }
     } else {
      if i < 137 {
       if i < 127 {
        if i < 122 {
         if i < 119 {
          if i < 118 {
           Table::row(1240524000, 7200, 3600, "EEST")
          } else {
           Table::row(1250802000, 7200, 0, "EET")
          }
         } else {
          if i < 120 {
           Table::row(1272578400, 7200, 3600, "EEST")
          } else {
           if i < 121 {
            Table::row(1281474000, 7200, 0, "EET")
           } else {
            Table::row(1284069600, 7200, 3600, "EEST")
           }
          }
         }
        } else {
         if i < 124 {
          if i < 123 {
           Table::row(1285880400, 7200, 0, "EET")
          } else {
           Table::row(1400191200, 7200, 3600, "EEST")
          }
         } else {
          if i < 125 {
           Table::row(1403816400, 7200, 0, "EET")
          } else {
           if i < 126 {
            Table::row(1406844000, 7200, 3600, "EEST")
           } else {
            Table::row(1411678800, 7200, 0, "EET")
           }
          }
         }
        }
       } else {
        if i < 132 {
         if i < 129 {
          if i < 128 {
           Table::row(1682632800, 7200, 3600, "EEST")
          } else {
           Table::row(1698354000, 7200, 0, "EET")
          }
         } else {
          if i < 130 {
           Table::row(1714082400, 7200, 3600, "EEST")
          } else {
           if i < 131 {
            Table::row(1730408400, 7200, 0, "EET")
           } else {
            Table::row(1745532000, 7200, 3600, "EEST")
           }
          }
         }
        } else {
         if i < 134 {
          if i < 133 {
           Table::row(1761858000, 7200, 0, "EET")
          } else {
           Table::row(1776981600, 7200, 3600, "EEST")
          }
         } else {
          if i < 135 {
           Table::row(1793307600, 7200, 0, "EET")
          } else {
           if i < 136 {
            Table::row(1809036000, 7200, 3600, "EEST")
           } else {
            Table::row(1824757200, 7200, 0, "EET")
           }
          }
         }
        }
       }
      } else {
       if i < 147 {
        if i < 142 {
         if i < 139 {
          if i < 138 {
           Table::row(1840485600, 7200, 3600, "EEST")
          } else {
           Table::row(1856206800, 7200, 0, "EET")
          }
         } else {
          if i < 140 {
           Table::row(1871935200, 7200, 3600, "EEST")
          } else {
           if i < 141 {
            Table::row(1887656400, 7200, 0, "EET")
           } else {
            Table::row(1903384800, 7200, 3600, "EEST")
           }
          }
         }
        } else {
         if i < 144 {
          if i < 143 {
           Table::row(1919710800, 7200, 0, "EET")
          } else {
           Table::row(1934834400, 7200, 3600, "EEST")
          }
         } else {
          if i < 145 {
           Table::row(1951160400, 7200, 0, "EET")
          } else {
           if i < 146 {
            Table::row(1966888800, 7200, 3600, "EEST")
           } else {
            Table::row(1982610000, 7200, 0, "EET")
           }
          }
         }
        }
       } else {
        if i < 152 {
         if i < 149 {
          if i < 148 {
           Table::row(1998338400, 7200, 3600, "EEST")
          } else {
           Table::row(2014059600, 7200, 0, "EET")
          }
         } else {
          if i < 150 {
           Table::row(2029788000, 7200, 3600, "EEST")
          } else {
           if i < 151 {
            Table::row(2045509200, 7200, 0, "EET")
           } else {
            Table::row(2061237600, 7200, 3600, "EEST")
           }
          }
         }
        } else {
         if i < 154 {
          if i < 153 {
           Table::row(2076958800, 7200, 0, "EET")
          } else {
           Table::row(2092687200, 7200, 3600, "EEST")
          }
         } else {
          if i < 155 {
           Table::row(2109013200, 7200, 0, "EET")
          } else {
           if i < 156 {
            Table::row(2124136800, 7200, 3600, "EEST")
           } else {
            Table::row(2140462800, 7200, 0, "EET")
           }
          }
         }
        }
       }
      }
     }
    }
}

/// The rows of the table of the zone `Egypt`.
pub open spec fn egypt_rows() -> spec_fn(int) -> (i64, FixedTimespan) {
    |i: int| egypt_row(i)
}

/// The table of the zone `Egypt`.
pub open spec fn egypt() -> Table {
    Table::listed(Table::row(0, 7509, 0, "LMT").1, 157, egypt_rows())
}

/// Row `i` of the table of the zone `Eire`.
pub open spec fn eire_row(i: int) -> (i64, FixedTimespan) {
    if i < 114 {
     if i < 57 {
      if i < 28 {
       if i < 14 {
        if i < 7 {
         if i < 3 {
          if i < 1 {
           Table::row(-2821649679, -1521, 0, "DMT")
          } else {
           if i < 2 {
            Table::row(-1691962479, -1521, 3600, "IST")
           } else {
            Table::row(-1680471279, 0, 0, "GMT")
           }
          }
         } else {
          if i < 5 {
           if i < 4 {
            Table::row(-1664143200, 0, 3600, "BST")
           } else {
            Table::row(-1650146400, 0, 0, "GMT")
           }
          } else {
           if i < 6 {
            Table::row(-1633903200, 0, 3600, "BST")
           } else {
            Table::row(-1617487200, 0, 0, "GMT")
           }
          }
         }
        } else {
         if i < 10 {
          if i < 8 {
           Table::row(-1601848800, 0, 3600, "BST")
          } else {
           if i < 9 {
            Table::row(-1586037600, 0, 0, "GMT")
           } else {
            Table::row(-1570399200, 0, 3600, "BST")
           }
          }
         } else {
          if i < 12 {
           if i < 11 {
            Table::row(-1552168800, 0, 0, "GMT")
           } else {
            Table::row(-1538344800, 0, 3600, "BST")
           }
          } else {
           if i < 13 {
            Table::row(-1522533600, 0, 0, "GMT")
           } else {
            Table::row(-1507500000, 0, 3600, "IST")
           }
          }
         }
        }
       } else {
        if i < 21 {
         if i < 17 {
          if i < 15 {
           Table::row(-1490565600, 0, 0, "GMT")
          } else {
           if i < 16 {
            Table::row(-1473631200, 0, 3600, "IST")
           } else {
            Table::row(-1460930400, 0, 0, "GMT")
           }
          }
         } else {
          if i < 19 {
           if i < 18 {
            Table::row(-1442786400, 0, 3600, "IST")
           } else {
            Table::row(-1428876000, 0, 0, "GMT")
           }
          } else {
           if i < 20 {
            Table::row(-1410732000, 0, 3600, "IST")
           } else {
            Table::row(-1396216800, 0, 0, "GMT")
           }
          }
         }
        } else {
         if i < 24 {
          if i < 22 {
           Table::row(-1379282400, 0, 3600, "IST")
          } else {
           if i < 23 {
            Table::row(-1364767200, 0, 0, "GMT")
           } else {
            Table::row(-1348437600, 0, 3600, "IST")
           }
          }
         } else {
          if i < 26 {
           if i < 25 {
            Table::row(-1333317600, 0, 0, "GMT")
           } else {
            Table::row(-1315778400, 0, 3600, "IST")
           }
          } else {
           if i < 27 {
            Table::row(-1301263200, 0, 0, "GMT")
           } else {
            Table::row(-1284328800, 0, 3600, "IST")
           }
          }
         }
        }
       }
      } else {
       if i < 42 {
        if i < 35 {
         if i < 31 {
          if i < 29 {
           Table::row(-1269813600, 0, 0, "GMT")
          } else {
           if i < 30 {
            Table::row(-1253484000, 0, 3600, "IST")
           } else {
            Table::row(-1238364000, 0, 0, "GMT")
           }
          }
         } else {
          if i < 33 {
           if i < 32 {
            Table::row(-1221429600, 0, 3600, "IST")
           } else {
            Table::row(-1206914400, 0, 0, "GMT")
           }
          } else {
           if i < 34 {
            Table::row(-1189980000, 0, 3600, "IST")
           } else {
            Table::row(-1175464800, 0, 0, "GMT")
           }
          }
         }
        } else {
         if i < 38 {
          if i < 36 {
           Table::row(-1159135200, 0, 3600, "IST")
          } else {
           if i < 37 {
            Table::row(-1143410400, 0, 0, "GMT")
           } else {
            Table::row(-1126476000, 0, 3600, "IST")
           }
          }
         } else {
          if i < 40 {
           if i < 39 {
            Table::row(-1111960800, 0, 0, "GMT")
           } else {
            Table::row(-1095631200, 0, 3600, "IST")
           }
          } else {
           if i < 41 {
            Table::row(-1080511200, 0, 0, "GMT")
           } else {
            Table::row(-1063576800, 0, 3600, "IST")
           }
          }
         }
        }
       } else {
        if i < 49 {
         if i < 45 {
          if i < 43 {
           Table::row(-1049061600, 0, 0, "GMT")
          } else {
           if i < 44 {
            Table::row(-1032127200, 0, 3600, "IST")
           } else {
            Table::row(-1017612000, 0, 0, "GMT")
           }
          }
         } else {
          if i < 47 {
           if i < 46 {
            Table::row(-1001282400, 0, 3600, "IST")
           } else {
            Table::row(-986162400, 0, 0, "GMT")
           }
          } else {
           if i < 48 {
            Table::row(-969228000, 0, 3600, "IST")
           } else {
            Table::row(-950479200, 0, 0, "GMT")
           }
          }
         }
        } else {
         if i < 53 {
          if i < 51 {
           if i < 50 {
            Table::row(-942012000, 0, 3600, "IST")
           } else {
            Table::row(-733356000, 0, 0, "GMT")
           }
          } else {
           if i < 52 {
            Table::row(-719445600, 0, 3600, "IST")
           } else {
            Table::row(-699487200, 0, 0, "GMT")
           }
          }
         } else {
          if i < 55 {
           if i < 54 {
            Table::row(-684972000, 0, 3600, "IST")
           } else {
            Table::row(-668037600, 0, 0, "GMT")
           }
          } else {
           if i < 56 {
            Table::row(-654732000, 0, 3600, "IST")
           } else {
            Table::row(-636588000, 0, 0, "GMT")
           }
          }
         }
        }
       }
      }
     } else {
      if i < 85 {
       if i < 71 {
        if i < 64 {
         if i < 60 {
          if i < 58 {
           Table::row(-622072800, 0, 3600, "IST")
          } else {
           if i < 59 {
            Table::row(-605743200, 0, 0, "GMT")
           } else {
            Table::row(-590623200, 0, 3600, "IST")
           }
          }
         } else {
          if i < 62 {
           if i < 61 {
            Table::row(-574293600, 0, 0, "GMT")
           } else {
            Table::row(-558568800, 0, 3600, "IST")
           }
          } else {
           if i < 63 {
            Table::row(-542239200, 0, 0, "GMT")
           } else {
            Table::row(-527119200, 0, 3600, "IST")
           }
          }
         }
        } else {
         if i < 67 {
          if i < 65 {
           Table::row(-512604000, 0, 0, "GMT")
          } else {
           if i < 66 {
            Table::row(-496274400, 0, 3600, "IST")
           } else {
            Table::row(-481154400, 0, 0, "GMT")
           }
          }
         } else {
          if i < 69 {
           if i < 68 {
            Table::row(-464220000, 0, 3600, "IST")
           } else {
            Table::row(-449704800, 0, 0, "GMT")
           }
          } else {
           if i < 70 {
            Table::row(-432165600, 0, 3600, "IST")
           } else {
            Table::row(-417650400, 0, 0, "GMT")
           }
          }
         }
        }
       } else {
        if i < 78 {
         if i < 74 {
          if i < 72 {
           Table::row(-401320800, 0, 3600, "IST")
          } else {
           if i < 73 {
            Table::row(-386200800, 0, 0, "GMT")
           } else {
            Table::row(-369266400, 0, 3600, "IST")
           }
          }
         } else {
          if i < 76 {
           if i < 75 {
            Table::row(-354751200, 0, 0, "GMT")
           } else {
            Table::row(-337816800, 0, 3600, "IST")
           }
          } else {
           if i < 77 {
            Table::row(-323301600, 0, 0, "GMT")
           } else {
            Table::row(-306972000, 0, 3600, "IST")
           }
          }
         }
        } else {
         if i < 81 {
          if i < 79 {
           Table::row(-291852000, 0, 0, "GMT")
          } else {
           if i < 80 {
            Table::row(-276732000, 0, 3600, "IST")
           } else {
            Table::row(-257983200, 0, 0, "GMT")
           }
          }
         } else {
          if i < 83 {
           if i < 82 {
            Table::row(-245282400, 0, 3600, "IST")
           } else {
            Table::row(-226533600, 0, 0, "GMT")
           }
          } else {
           if i < 84 {
            Table::row(-213228000, 0, 3600, "IST")
           } else {
            Table::row(-195084000, 0, 0, "GMT")
           }
          }
         }
        }
       }
      } else {
       if i < 99 {
        if i < 92 {
         if i < 88 {
          if i < 86 {
           Table::row(-182383200, 0, 3600, "IST")
          } else {
           if i < 87 {
            Table::row(-163634400, 0, 0, "GMT")
           } else {
            Table::row(-150933600, 0, 3600, "IST")
           }
          }
         } else {
          if i < 90 {
           if i < 89 {
            Table::row(-132184800, 0, 0, "GMT")
           } else {
            Table::row(-119484000, 0, 3600, "IST")
           }
          } else {
           if i < 91 {
            Table::row(-100735200, 0, 0, "GMT")
           } else {
            Table::row(-88034400, 0, 3600, "IST")
           }
          }
         }
        } else {
         if i < 95 {
          if i < 93 {
           Table::row(-68680800, 0, 0, "GMT")
          } else {
           if i < 94 {
            Table::row(-59004000, 0, 3600, "IST")
           } else {
            Table::row(-37242000, 3600, 0, "IST")
           }
          }
         } else {
          if i < 97 {
           if i < 96 {
            Table::row(57722400, -3600, 3600, "GMT")
           } else {
            Table::row(69818400, 3600, 0, "IST")
           }
          } else {
           if i < 98 {
            Table::row(89172000, -3600, 3600, "GMT")
           } else {
            Table::row(101268000, 3600, 0, "IST")
           }
          }
         }
        }
       } else {
        if i < 106 {
         if i < 102 {
          if i < 100 {
           Table::row(120621600, -3600, 3600, "GMT")
          } else {
           if i < 101 {
            Table::row(132717600, 3600, 0, "IST")
           } else {
            Table::row(152071200, -3600, 3600, "GMT")
           }
          }
         } else {
          if i < 104 {
           if i < 103 {
            Table::row(164167200, 3600, 0, "IST")
           } else {
            Table::row(183520800, -3600, 3600, "GMT")
           }
          } else {
           if i < 105 {
            Table::row(196221600, 3600, 0, "IST")
           } else {
            Table::row(214970400, -3600, 3600, "GMT")
           }
          }
         }
        } else {
         if i < 110 {
          if i < 108 {
           if i < 107 {
            Table::row(227671200, 3600, 0, "IST")
           } else {
            Table::row(246420000, -3600, 3600, "GMT")
           }
          } else {
           if i < 109 {
            Table::row(259120800, 3600, 0, "IST")
           } else {
            Table::row(278474400, -3600, 3600, "GMT")
           }
          }
         } else {
          if i < 112 {
           if i < 111 {
            Table::row(290570400, 3600, 0, "IST")
           } else {
            Table::row(309924000, -3600, 3600, "GMT")
           }
          } else {
           if i < 113 {
            Table::row(322020000, 3600, 0, "IST")
           } else {
            Table::row(341373600, -3600, 3600, "GMT")
           }
          }
         }
        }
       }
      }
     }
    } else {
     if i < 171 {
      if i < 142 {
       if i < 128 {
        if i < 121 {
         if i < 117 {
          if i < 115 {
           Table::row(354675600, 3600, 0, "IST")
          } else {
           if i < 116 {
            Table::row(372819600, -3600, 3600, "GMT")
           } else {
            Table::row(386125200, 3600, 0, "IST")
           }
          }
         } else {
          if i < 119 {
           if i < 118 {
            Table::row(404269200, -3600, 3600, "GMT")
           } else {
            Table::row(417574800, 3600, 0, "IST")
           }
          } else {
           if i < 120 {
            Table::row(435718800, -3600, 3600, "GMT")
           } else {
            Table::row(449024400, 3600, 0, "IST")
           }
          }
         }
        } else {
         if i < 124 {
          if i < 122 {
           Table::row(467773200, -3600, 3600, "GMT")
          } else {
           if i < 123 {
            Table::row(481078800, 3600, 0, "IST")
           } else {
            Table::row(499222800, -3600, 3600, "GMT")
           }
          }
         } else {
          if i < 126 {
           if i < 125 {
            Table::row(512528400, 3600, 0, "IST")
           } else {
            Table::row(530672400, -3600, 3600, "GMT")
           }
          } else {
           if i < 127 {
            Table::row(543978000, 3600, 0, "IST")
           } else {
            Table::row(562122000, -3600, 3600, "GMT")
           }
          }
         }
        }
       } else {
        if i < 135 {
         if i < 131 {
          if i < 129 {
           Table::row(575427600, 3600, 0, "IST")
          } else {
           if i < 130 {
            Table::row(593571600, -3600, 3600, "GMT")
           } else {
            Table::row(606877200, 3600, 0, "IST")
           }
          }
         } else {
          if i < 133 {
           if i < 132 {
            Table::row(625626000, -3600, 3600, "GMT")
           } else {
            Table::row(638326800, 3600, 0, "IST")
           }
          } else {
           if i < 134 {
            Table::row(657075600, -3600, 3600, "GMT")
           } else {
            Table::row(670381200, 3600, 0, "IST")
           }
          }
         }
        } else {
         if i < 138 {
          if i < 136 {
           Table::row(688525200, -3600, 3600, "GMT")
          } else {
           if i < 137 {
            Table::row(701830800, 3600, 0, "IST")
           } else {
            Table::row(719974800, -3600, 3600, "GMT")
           }
          }
         } else {
          if i < 140 {
           if i < 139 {
            Table::row(733280400, 3600, 0, "IST")
           } else {
            Table::row(751424400, -3600, 3600, "GMT")
           }
          } else {
           if i < 141 {
            Table::row(764730000, 3600, 0, "IST")
           } else {
            Table::row(782874000, -3600, 3600, "GMT")
           }
          }
         }
        }
       }
      } else {
       if i < 156 {
        if i < 149 {
         if i < 145 {
          if i < 143 {
           Table::row(796179600, 3600, 0, "IST")
          } else {
           if i < 144 {
            Table::row(814323600, -3600, 3600, "GMT")
           } else {
            Table::row(828234000, 3600, 0, "IST")
           }
          }
         } else {
          if i < 147 {
           if i < 146 {
            Table::row(846378000, -3600, 3600, "GMT")
           } else {
            Table::row(859683600, 3600, 0, "IST")
           }
          } else {
           if i < 148 {
            Table::row(877827600, -3600, 3600, "GMT")
           } else {
            Table::row(891133200, 3600, 0, "IST")
           }
          }
         }
        } else {
         if i < 152 {
          if i < 150 {
           Table::row(909277200, -3600, 3600, "GMT")
          } else {
           if i < 151 {
            Table::row(922582800, 3600, 0, "IST")
           } else {
            Table::row(941331600, -3600, 3600, "GMT")
           }
          }
         } else {
          if i < 154 {
           if i < 153 {
            Table::row(954032400, 3600, 0, "IST")
           } else {
            Table::row(972781200, -3600, 3600, "GMT")
           }
          } else {
           if i < 155 {
            Table::row(985482000, 3600, 0, "IST")
           } else {
            Table::row(1004230800, -3600, 3600, "GMT")
           }
          }
         }
        }
       } else {
        if i < 163 {
         if i < 159 {
          if i < 157 {
           Table::row(1017536400, 3600, 0, "IST")
          } else {
           if i < 158 {
            Table::row(1035680400, -3600, 3600, "GMT")
           } else {
            Table::row(1048986000, 3600, 0, "IST")
           }
          }
         } else {
          if i < 161 {
           if i < 160 {
            Table::row(1067130000, -3600, 3600, "GMT")
           } else {
            Table::row(1080435600, 3600, 0, "IST")
           }
          } else {
           if i < 162 {
            Table::row(1099184400, -3600, 3600, "GMT")
           } else {
            Table::row(1111885200, 3600, 0, "IST")
           }
          }
         }
        } else {
         if i < 167 {
          if i < 165 {
           if i < 164 {
            Table::row(1130634000, -3600, 3600, "GMT")
           } else {
            Table::row(1143334800, 3600, 0, "IST")
           }
          } else {
           if i < 166 {
            Table::row(1162083600, -3600, 3600, "GMT")
           } else {
            Table::row(1174784400, 3600, 0, "IST")
           }
          }
         } else {
          if i < 169 {
           if i < 168 {
            Table::row(1193533200, -3600, 3600, "GMT")
           } else {
            Table::row(1206838800, 3600, 0, "IST")
           }
          } else {
           if i < 170 {
            Table::row(1224982800, -3600, 3600, "GMT")
           } else {
            Table::row(1238288400, 3600, 0, "IST")
           }
          }
         }
        }
       }
      }
     } else {
      if i < 199 {
       if i < 185 {
        if i < 178 {
         if i < 174 {
          if i < 172 {
           Table::row(1256432400, -3600, 3600, "GMT")
          } else {
           if i < 173 {
            Table::row(1269738000, 3600, 0, "IST")
           } else {
            Table::row(1288486800, -3600, 3600, "GMT")
           }
          }
         } else {
          if i < 176 {
           if i < 175 {
            Table::row(1301187600, 3600, 0, "IST")
           } else {
            Table::row(1319936400, -3600, 3600, "GMT")
           }
          } else {
           if i < 177 {
            Table::row(1332637200, 3600, 0, "IST")
           } else {
            Table::row(1351386000, -3600, 3600, "GMT")
           }
          }
         }
        } else {
         if i < 181 {
          if i < 179 {
           Table::row(1364691600, 3600, 0, "IST")
          } else {
           if i < 180 {
            Table::row(1382835600, -3600, 3600, "GMT")
           } else {
            Table::row(1396141200, 3600, 0, "IST")
           }
          }
         } else {
          if i < 183 {
           if i < 182 {
            Table::row(1414285200, -3600, 3600, "GMT")
           } else {
            Table::row(1427590800, 3600, 0, "IST")
           }
          } else {
           if i < 184 {
            Table::row(1445734800, -3600, 3600, "GMT")
           } else {
            Table::row(1459040400, 3600, 0, "IST")
           }
          }
         }
        }
       } else {
        if i < 192 {
         if i < 188 {
          if i < 186 {
           Table::row(1477789200, -3600, 3600, "GMT")
          } else {
           if i < 187 {
            Table::row(1490490000, 3600, 0, "IST")
           } else {
            Table::row(1509238800, -3600, 3600, "GMT")
           }
          }
         } else {
          if i < 190 {
           if i < 189 {
            Table::row(1521939600, 3600, 0, "IST")
           } else {
            Table::row(1540688400, -3600, 3600, "GMT")
           }
          } else {
           if i < 191 {
            Table::row(1553994000, 3600, 0, "IST")
           } else {
            Table::row(1572138000, -3600, 3600, "GMT")
           }
          }
         }
        } else {
         if i < 195 {
          if i < 193 {
           Table::row(1585443600, 3600, 0, "IST")
          } else {
           if i < 194 {
            Table::row(1603587600, -3600, 3600, "GMT")
           } else {
            Table::row(1616893200, 3600, 0, "IST")
           }
          }
         } else {
          if i < 197 {
           if i < 196 {
            Table::row(1635642000, -3600, 3600, "GMT")
           } else {
            Table::row(1648342800, 3600, 0, "IST")
           }
          } else {
           if i < 198 {
            Table::row(1667091600, -3600, 3600, "GMT")
           } else {
            Table::row(1679792400, 3600, 0, "IST")
           }
          }
         }
        }
       }
      } else {
       if i < 213 {
        if i < 206 {
         if i < 202 {
          if i < 200 {
           Table::row(1698541200, -3600, 3600, "GMT")
          } else {
           if i < 201 {
            Table::row(1711846800, 3600, 0, "IST")
           } else {
            Table::row(1729990800, -3600, 3600, "GMT")
           }
          }
         } else {
          if i < 204 {
           if i < 203 {
            Table::row(1743296400, 3600, 0, "IST")
           } else {
            Table::row(1761440400, -3600, 3600, "GMT")
           }
          } else {
           if i < 205 {
            Table::row(1774746000, 3600, 0, "IST")
           } else {
            Table::row(1792890000, -3600, 3600, "GMT")
           }
          }
         }
        } else {
         if i < 209 {
          if i < 207 {
           Table::row(1806195600, 3600, 0, "IST")
          } else {
           if i < 208 {
            Table::row(1824944400, -3600, 3600, "GMT")
           } else {
            Table::row(1837645200, 3600, 0, "IST")
           }
          }
         } else {
          if i < 211 {
           if i < 210 {
            Table::row(1856394000, -3600, 3600, "GMT")
           } else {
            Table::row(1869094800, 3600, 0, "IST")
           }
          } else {
           if i < 212 {
            Table::row(1887843600, -3600, 3600, "GMT")
           } else {
            Table::row(1901149200, 3600, 0, "IST")
           }
          }
         }
        }
       } else {
        if i < 220 {
         if i < 216 {
          if i < 214 {
           Table::row(1919293200, -3600, 3600, "GMT")
          } else {
           if i < 215 {
            Table::row(1932598800, 3600, 0, "IST")
           } else {
            Table::row(1950742800, -3600, 3600, "GMT")
           }
          }
         } else {
          if i < 218 {
           if i < 217 {
            Table::row(1964048400, 3600, 0, "IST")
           } else {
            Table::row(1982797200, -3600, 3600, "GMT")
           }
          } else {
           if i < 219 {
            Table::row(1995498000, 3600, 0, "IST")
           } else {
            Table::row(2014246800, -3600, 3600, "GMT")
           }
          }
         }
        } else {
         if i < 224 {
          if i < 222 {
           if i < 221 {
            Table::row(2026947600, 3600, 0, "IST")
           } else {
            Table::row(2045696400, -3600, 3600, "GMT")
           }
          } else {
           if i < 223 {
            Table::row(2058397200, 3600, 0, "IST")
           } else {
            Table::row(2077146000, -3600, 3600, "GMT")
           }
          }
         } else {
          if i < 226 {
           if i < 225 {
            Table::row(2090451600, 3600, 0, "IST")
           } else {
            Table::row(2108595600, -3600, 3600, "GMT")
           }
          } else {
           if i < 227 {
            Table::row(2121901200, 3600, 0, "IST")
           } else {
            Table::row(2140045200, -3600, 3600, "GMT")
           }
          }
         }
        }
       }
      }
     }
    }
}

/// The rows of the table of the zone `Eire`.
pub open spec fn eire_rows() -> spec_fn(int) -> (i64, FixedTimespan) {
    |i: int| eire_row(i)
}

/// The table of the zone `Eire`.
pub open spec fn eire() -> Table {
    Table::listed(Table::row(0, -1521, 0, "LMT").1, 228, eire_rows())
}

/// Row `i` of the table of the zone `GB`.
pub open spec fn gb_row(i: int) -> (i64, FixedTimespan) {
    if i < 121 {
     if i < 60 {
      if i < 30 {
       if i < 15 {
        if i < 7 {
         if i < 3 {
          if i < 1 {
           Table::row(-3852662325, 0, 0, "GMT")
          } else {
           if i < 2 {
            Table::row(-1691964000, 0, 3600, "BST")
           } else {
            Table::row(-1680472800, 0, 0, "GMT")
           }
          }
         } else {
          if i < 5 {
           if i < 4 {
            Table::row(-1664143200, 0, 3600, "BST")
           } else {
            Table::row(-1650146400, 0, 0, "GMT")
           }
          } else {
           if i < 6 {
            Table::row(-1633903200, 0, 3600, "BST")
           } else {
            Table::row(-1617487200, 0, 0, "GMT")
           }
          }
         }
        } else {
         if i < 11 {
          if i < 9 {
           if i < 8 {
            Table::row(-1601848800, 0, 3600, "BST")
           } else {
            Table::row(-1586037600, 0, 0, "GMT")
           }
          } else {
           if i < 10 {
            Table::row(-1570399200, 0, 3600, "BST")
           } else {
            Table::row(-1552168800, 0, 0, "GMT")
           }
          }
         } else {
          if i < 13 {
           if i < 12 {
            Table::row(-1538344800, 0, 3600, "BST")
           } else {
            Table::row(-1522533600, 0, 0, "GMT")
           }
          } else {
           if i < 14 {
            Table::row(-1507500000, 0, 3600, "BST")
           } else {
            Table::row(-1490565600, 0, 0, "GMT")
           }
          }
         }
        }
       } else {
        if i < 22 {
         if i < 18 {
          if i < 16 {
           Table::row(-1473631200, 0, 3600, "BST")
          } else {
           if i < 17 {
            Table::row(-1460930400, 0, 0, "GMT")
           } else {
            Table::row(-1442786400, 0, 3600, "BST")
           }
          }
         } else {
          if i < 20 {
           if i < 19 {
            Table::row(-1428876000, 0, 0, "GMT")
           } else {
            Table::row(-1410732000, 0, 3600, "BST")
           }
          } else {
           if i < 21 {
            Table::row(-1396216800, 0, 0, "GMT")
           } else {
            Table::row(-1379282400, 0, 3600, "BST")
           }
          }
         }
        } else {
         if i < 26 {
          if i < 24 {
           if i < 23 {
            Table::row(-1364767200, 0, 0, "GMT")
           } else {
            Table::row(-1348437600, 0, 3600, "BST")
           }
          } else {
           if i < 25 {
            Table::row(-1333317600, 0, 0, "GMT")
           } else {
            Table::row(-1315778400, 0, 3600, "BST")
           }
          }
         } else {
          if i < 28 {
           if i < 27 {
            Table::row(-1301263200, 0, 0, "GMT")
           } else {
            Table::row(-1284328800, 0, 3600, "BST")
           }
          } else {
           if i < 29 {
            Table::row(-1269813600, 0, 0, "GMT")
           } else {
            Table::row(-1253484000, 0, 3600, "BST")
           }
          }
         }
        }
       }
      } else {
       if i < 45 {
        if i < 37 {
         if i < 33 {
          if i < 31 {
           Table::row(-1238364000, 0, 0, "GMT")
          } else {
           if i < 32 {
            Table::row(-1221429600, 0, 3600, "BST")
           } else {
            Table::row(-1206914400, 0, 0, "GMT")
           }
          }
         } else {
          if i < 35 {
           if i < 34 {
            Table::row(-1189980000, 0, 3600, "BST")
           } else {
            Table::row(-1175464800, 0, 0, "GMT")
           }
          } else {
           if i < 36 {
            Table::row(-1159135200, 0, 3600, "BST")
           } else {
            Table::row(-1143410400, 0, 0, "GMT")
           }
          }
         }
        } else {
         if i < 41 {
          if i < 39 {
           if i < 38 {
            Table::row(-1126476000, 0, 3600, "BST")
           } else {
            Table::row(-1111960800, 0, 0, "GMT")
           }
          } else {
           if i < 40 {
            Table::row(-1095631200, 0, 3600, "BST")
           } else {
            Table::row(-1080511200, 0, 0, "GMT")
           }
          }
         } else {
          if i < 43 {
           if i < 42 {
            Table::row(-1063576800, 0, 3600, "BST")
           } else {
            Table::row(-1049061600, 0, 0, "GMT")
           }
          } else {
           if i < 44 {
            Table::row(-1032127200, 0, 3600, "BST")
           } else {
            Table::row(-1017612000, 0, 0, "GMT")
           }
          }
         }
        }
       } else {
        if i < 52 {
         if i < 48 {
          if i < 46 {
           Table::row(-1001282400, 0, 3600, "BST")
          } else {
           if i < 47 {
            Table::row(-986162400, 0, 0, "GMT")
           } else {
            Table::row(-969228000, 0, 3600, "BST")
           }
          }
         } else {
          if i < 50 {
           if i < 49 {
            Table::row(-950479200, 0, 0, "GMT")
           } else {
            Table::row(-942012000, 0, 3600, "BST")
           }
          } else {
           if i < 51 {
            Table::row(-904518000, 0, 7200, "BDST")
           } else {
            Table::row(-896050800, 0, 3600, "BST")
           }
          }
         }
        } else {
         if i < 56 {
          if i < 54 {
           if i < 53 {
            Table::row(-875487600, 0, 7200, "BDST")
           } else {
            Table::row(-864601200, 0, 3600, "BST")
           }
          } else {
           if i < 55 {
            Table::row(-844038000, 0, 7200, "BDST")
           } else {
            Table::row(-832546800, 0, 3600, "BST")
           }
          }
         } else {
          if i < 58 {
           if i < 57 {
            Table::row(-812588400, 0, 7200, "BDST")
           } else {
            Table::row(-798073200, 0, 3600, "BST")
           }
          } else {
           if i < 59 {
            Table::row(-781052400, 0, 7200, "BDST")
           } else {
            Table::row(-772066800, 0, 3600, "BST")
           }
          }
         }
        }
       }
      }
     } else {
      if i < 90 {
       if i < 75 {
        if i < 67 {
         if i < 63 {
          if i < 61 {
           Table::row(-764805600, 0, 0, "GMT")
          } else {
           if i < 62 {
            Table::row(-748476000, 0, 3600, "BST")
           } else {
            Table::row(-733356000, 0, 0, "GMT")
           }
          }
         } else {
          if i < 65 {
           if i < 64 {
            Table::row(-719445600, 0, 3600, "BST")
           } else {
            Table::row(-717030000, 0, 7200, "BDST")
           }
          } else {
           if i < 66 {
            Table::row(-706748400, 0, 3600, "BST")
           } else {
            Table::row(-699487200, 0, 0, "GMT")
           }
          }
         }
        } else {
         if i < 71 {
          if i < 69 {
           if i < 68 {
            Table::row(-687996000, 0, 3600, "BST")
           } else {
            Table::row(-668037600, 0, 0, "GMT")
           }
          } else {
           if i < 70 {
            Table::row(-654732000, 0, 3600, "BST")
           } else {
            Table::row(-636588000, 0, 0, "GMT")
           }
          }
         } else {
          if i < 73 {
           if i < 72 {
            Table::row(-622072800, 0, 3600, "BST")
           } else {
            Table::row(-605743200, 0, 0, "GMT")
           }
          } else {
           if i < 74 {
            Table::row(-590623200, 0, 3600, "BST")
           } else {
            Table::row(-574293600, 0, 0, "GMT")
           }
          }
         }
        }
       } else {
        if i < 82 {
         if i < 78 {
          if i < 76 {
           Table::row(-558568800, 0, 3600, "BST")
          } else {
           if i < 77 {
            Table::row(-542239200, 0, 0, "GMT")
           } else {
            Table::row(-527119200, 0, 3600, "BST")
           }
          }
         } else {
          if i < 80 {
           if i < 79 {
            Table::row(-512604000, 0, 0, "GMT")
           } else {
            Table::row(-496274400, 0, 3600, "BST")
           }
          } else {
           if i < 81 {
            Table::row(-481154400, 0, 0, "GMT")
           } else {
            Table::row(-464220000, 0, 3600, "BST")
           }
          }
         }
        } else {
         if i < 86 {
          if i < 84 {
           if i < 83 {
            Table::row(-449704800, 0, 0, "GMT")
           } else {
            Table::row(-432165600, 0, 3600, "BST")
           }
          } else {
           if i < 85 {
            Table::row(-417650400, 0, 0, "GMT")
           } else {
            Table::row(-401320800, 0, 3600, "BST")
           }
          }
         } else {
          if i < 88 {
           if i < 87 {
            Table::row(-386200800, 0, 0, "GMT")
           } else {
            Table::row(-369266400, 0, 3600, "BST")
           }
          } else {
           if i < 89 {
            Table::row(-354751200, 0, 0, "GMT")
           } else {
            Table::row(-337816800, 0, 3600, "BST")
           }
          }
         }
        }
       }
      } else {
       if i < 105 {
        if i < 97 {
         if i < 93 {
          if i < 91 {
           Table::row(-323301600, 0, 0, "GMT")
          } else {
           if i < 92 {
            Table::row(-306972000, 0, 3600, "BST")
           } else {
            Table::row(-291852000, 0, 0, "GMT")
           }
          }
         } else {
          if i < 95 {
           if i < 94 {
            Table::row(-276732000, 0, 3600, "BST")
           } else {
            Table::row(-257983200, 0, 0, "GMT")
           }
          } else {
           if i < 96 {
            Table::row(-245282400, 0, 3600, "BST")
           } else {
            Table::row(-226533600, 0, 0, "GMT")
           }
          }
         }
        } else {
         if i < 101 {
          if i < 99 {
           if i < 98 {
            Table::row(-213228000, 0, 3600, "BST")
           } else {
            Table::row(-195084000, 0, 0, "GMT")
           }
          } else {
           if i < 100 {
            Table::row(-182383200, 0, 3600, "BST")
           } else {
            Table::row(-163634400, 0, 0, "GMT")
           }
          }
         } else {
          if i < 103 {
           if i < 102 {
            Table::row(-150933600, 0, 3600, "BST")
           } else {
            Table::row(-132184800, 0, 0, "GMT")
           }
          } else {
           if i < 104 {
            Table::row(-119484000, 0, 3600, "BST")
           } else {
            Table::row(-100735200, 0, 0, "GMT")
           }
          }
         }
        }
       } else {
        if i < 113 {
         if i < 109 {
          if i < 107 {
           if i < 106 {
            Table::row(-88034400, 0, 3600, "BST")
           } else {
            Table::row(-68680800, 0, 0, "GMT")
           }
          } else {
           if i < 108 {
            Table::row(-59004000, 0, 3600, "BST")
           } else {
            Table::row(-37242000, 3600, 0, "BST")
           }
          }
         } else {
          if i < 111 {
           if i < 110 {
            Table::row(57722400, 0, 0, "GMT")
           } else {
            Table::row(69818400, 0, 3600, "BST")
           }
          } else {
           if i < 112 {
            Table::row(89172000, 0, 0, "GMT")
           } else {
            Table::row(101268000, 0, 3600, "BST")
           }
          }
         }
        } else {
         if i < 117 {
          if i < 115 {
           if i < 114 {
            Table::row(120621600, 0, 0, "GMT")
           } else {
            Table::row(132717600, 0, 3600, "BST")
           }
          } else {
           if i < 116 {
            Table::row(152071200, 0, 0, "GMT")
           } else {
            Table::row(164167200, 0, 3600, "BST")
           }
          }
         } else {
          if i < 119 {
           if i < 118 {
            Table::row(183520800, 0, 0, "GMT")
           } else {
            Table::row(196221600, 0, 3600, "BST")
           }
          } else {
           if i < 120 {
            Table::row(214970400, 0, 0, "GMT")
           } else {
            Table::row(227671200, 0, 3600, "BST")
           }
          }
         }
        }
       }
      }
     }
    } else {
     if i < 181 {
      if i < 151 {
       if i < 136 {
        if i < 128 {
         if i < 124 {
          if i < 122 {
           Table::row(246420000, 0, 0, "GMT")
          } else {
           if i < 123 {
            Table::row(259120800, 0, 3600, "BST")
           } else {
            Table::row(278474400, 0, 0, "GMT")
           }
          }
         } else {
          if i < 126 {
           if i < 125 {
            Table::row(290570400, 0, 3600, "BST")
           } else {
            Table::row(309924000, 0, 0, "GMT")
           }
          } else {
           if i < 127 {
            Table::row(322020000, 0, 3600, "BST")
           } else {
            Table::row(341373600, 0, 0, "GMT")
           }
          }
         }
        } else {
         if i < 132 {
          if i < 130 {
           if i < 129 {
            Table::row(354675600, 0, 3600, "BST")
           } else {
            Table::row(372819600, 0, 0, "GMT")
           }
          } else {
           if i < 131 {
            Table::row(386125200, 0, 3600, "BST")
           } else {
            Table::row(404269200, 0, 0, "GMT")
           }
          }
         } else {
          if i < 134 {
           if i < 133 {
            Table::row(417574800, 0, 3600, "BST")
           } else {
            Table::row(435718800, 0, 0, "GMT")
           }
          } else {
           if i < 135 {
            Table::row(449024400, 0, 3600, "BST")
           } else {
            Table::row(467773200, 0, 0, "GMT")
           }
          }
         }
        }
       } else {
        if i < 143 {
         if i < 139 {
          if i < 137 {
           Table::row(481078800, 0, 3600, "BST")
          } else {
           if i < 138 {
            Table::row(499222800, 0, 0, "GMT")
           } else {
            Table::row(512528400, 0, 3600, "BST")
           }
          }
         } else {
          if i < 141 {
           if i < 140 {
            Table::row(530672400, 0, 0, "GMT")
           } else {
            Table::row(543978000, 0, 3600, "BST")
           }
          } else {
           if i < 142 {
            Table::row(562122000, 0, 0, "GMT")
           } else {
            Table::row(575427600, 0, 3600, "BST")
           }
          }
         }
        } else {
         if i < 147 {
          if i < 145 {
           if i < 144 {
            Table::row(593571600, 0, 0, "GMT")
           } else {
            Table::row(606877200, 0, 3600, "BST")
           }
          } else {
           if i < 146 {
            Table::row(625626000, 0, 0, "GMT")
           } else {
            Table::row(638326800, 0, 3600, "BST")
           }
          }
         } else {
          if i < 149 {
           if i < 148 {
            Table::row(657075600, 0, 0, "GMT")
           } else {
            Table::row(670381200, 0, 3600, "BST")
           }
          } else {
           if i < 150 {
            Table::row(688525200, 0, 0, "GMT")
           } else {
            Table::row(701830800, 0, 3600, "BST")
           }
          }
         }
        }
       }
      } else {
       if i < 166 {
        if i < 158 {
         if i < 154 {
          if i < 152 {
           Table::row(719974800, 0, 0, "GMT")
          } else {
           if i < 153 {
            Table::row(733280400, 0, 3600, "BST")
           } else {
            Table::row(751424400, 0, 0, "GMT")
           }
          }
         } else {
          if i < 156 {
           if i < 155 {
            Table::row(764730000, 0, 3600, "BST")
           } else {
            Table::row(782874000, 0, 0, "GMT")
           }
          } else {
           if i < 157 {
            Table::row(796179600, 0, 3600, "BST")
           } else {
            Table::row(814323600, 0, 0, "GMT")
           }
          }
         }
        } else {
         if i < 162 {
          if i < 160 {
           if i < 159 {
            Table::row(828234000, 0, 3600, "BST")
           } else {
            Table::row(846378000, 0, 0, "GMT")
           }
          } else {
           if i < 161 {
            Table::row(859683600, 0, 3600, "BST")
           } else {
            Table::row(877827600, 0, 0, "GMT")
           }
          }
         } else {
          if i < 164 {
           if i < 163 {
            Table::row(891133200, 0, 3600, "BST")
           } else {
            Table::row(909277200, 0, 0, "GMT")
           }
          } else {
           if i < 165 {
            Table::row(922582800, 0, 3600, "BST")
           } else {
            Table::row(941331600, 0, 0, "GMT")
           }
          }
         }
        }
       } else {
        if i < 173 {
         if i < 169 {
          if i < 167 {
           Table::row(954032400, 0, 3600, "BST")
          } else {
           if i < 168 {
            Table::row(972781200, 0, 0, "GMT")
           } else {
            Table::row(985482000, 0, 3600, "BST")
           }
          }
         } else {
          if i < 171 {
           if i < 170 {
            Table::row(1004230800, 0, 0, "GMT")
           } else {
            Table::row(1017536400, 0, 3600, "BST")
           }
          } else {
           if i < 172 {
            Table::row(1035680400, 0, 0, "GMT")
           } else {
            Table::row(1048986000, 0, 3600, "BST")
           }
          }
         }
        } else {
         if i < 177 {
          if i < 175 {
           if i < 174 {
            Table::row(1067130000, 0, 0, "GMT")
           } else {
            Table::row(1080435600, 0, 3600, "BST")
           }
          } else {
           if i < 176 {
            Table::row(1099184400, 0, 0, "GMT")
           } else {
            Table::row(1111885200, 0, 3600, "BST")
           }
          }
         } else {
          if i < 179 {
           if i < 178 {
            Table::row(1130634000, 0, 0, "GMT")
           } else {
            Table::row(1143334800, 0, 3600, "BST")
           }
          } else {
           if i < 180 {
            Table::row(1162083600, 0, 0, "GMT")
           } else {
            Table::row(1174784400, 0, 3600, "BST")
           }
          }
         }
        }
       }
      }
     } else {
      if i < 211 {
       if i < 196 {
        if i < 188 {
         if i < 184 {
          if i < 182 {
           Table::row(1193533200, 0, 0, "GMT")
          } else {
           if i < 183 {
            Table::row(1206838800, 0, 3600, "BST")
           } else {
            Table::row(1224982800, 0, 0, "GMT")
           }
          }
         } else {
          if i < 186 {
           if i < 185 {
            Table::row(1238288400, 0, 3600, "BST")
           } else {
            Table::row(1256432400, 0, 0, "GMT")
           }
          } else {
           if i < 187 {
            Table::row(1269738000, 0, 3600, "BST")
           } else {
            Table::row(1288486800, 0, 0, "GMT")
           }
          }
         }
        } else {
         if i < 192 {
          if i < 190 {
           if i < 189 {
            Table::row(1301187600, 0, 3600, "BST")
           } else {
            Table::row(1319936400, 0, 0, "GMT")
           }
          } else {
           if i < 191 {
            Table::row(1332637200, 0, 3600, "BST")
           } else {
            Table::row(1351386000, 0, 0, "GMT")
           }
          }
         } else {
          if i < 194 {
           if i < 193 {
            Table::row(1364691600, 0, 3600, "BST")
           } else {
            Table::row(1382835600, 0, 0, "GMT")
           }
          } else {
           if i < 195 {
            Table::row(1396141200, 0, 3600, "BST")
           } else {
            Table::row(1414285200, 0, 0, "GMT")
           }
          }
         }
        }
       } else {
        if i < 203 {
         if i < 199 {
          if i < 197 {
           Table::row(1427590800, 0, 3600, "BST")
          } else {
           if i < 198 {
            Table::row(1445734800, 0, 0, "GMT")
           } else {
            Table::row(1459040400, 0, 3600, "BST")
           }
          }
         } else {
          if i < 201 {
           if i < 200 {
            Table::row(1477789200, 0, 0, "GMT")
           } else {
            Table::row(1490490000, 0, 3600, "BST")
           }
          } else {
           if i < 202 {
            Table::row(1509238800, 0, 0, "GMT")
           } else {
            Table::row(1521939600, 0, 3600, "BST")
           }
          }
         }
        } else {
         if i < 207 {
          if i < 205 {
           if i < 204 {
            Table::row(1540688400, 0, 0, "GMT")
           } else {
            Table::row(1553994000, 0, 3600, "BST")
           }
          } else {
           if i < 206 {
            Table::row(1572138000, 0, 0, "GMT")
           } else {
            Table::row(1585443600, 0, 3600, "BST")
           }
          }
         } else {
          if i < 209 {
           if i < 208 {
            Table::row(1603587600, 0, 0, "GMT")
           } else {
            Table::row(1616893200, 0, 3600, "BST")
           }
          } else {
           if i < 210 {
            Table::row(1635642000, 0, 0, "GMT")
           } else {
            Table::row(1648342800, 0, 3600, "BST")
           }
          }
         }
        }
       }
      } else {
       if i < 226 {
        if i < 218 {
         if i < 214 {
          if i < 212 {
           Table::row(1667091600, 0, 0, "GMT")
          } else {
           if i < 213 {
            Table::row(1679792400, 0, 3600, "BST")
           } else {
            Table::row(1698541200, 0, 0, "GMT")
           }
          }
         } else {
          if i < 216 {
           if i < 215 {
            Table::row(1711846800, 0, 3600, "BST")
           } else {
            Table::row(1729990800, 0, 0, "GMT")
           }
          } else {
           if i < 217 {
            Table::row(1743296400, 0, 3600, "BST")
           } else {
            Table::row(1761440400, 0, 0, "GMT")
           }
          }
         }
        } else {
         if i < 222 {
          if i < 220 {
           if i < 219 {
            Table::row(1774746000, 0, 3600, "BST")
           } else {
            Table::row(1792890000, 0, 0, "GMT")
           }
          } else {
           if i < 221 {
            Table::row(1806195600, 0, 3600, "BST")
           } else {
            Table::row(1824944400, 0, 0, "GMT")
           }
          }
         } else {
          if i < 224 {
           if i < 223 {
            Table::row(1837645200, 0, 3600, "BST")
           } else {
            Table::row(1856394000, 0, 0, "GMT")
           }
          } else {
           if i < 225 {
            Table::row(1869094800, 0, 3600, "BST")
           } else {
            Table::row(1887843600, 0, 0, "GMT")
           }
          }
         }
        }
       } else {
        if i < 234 {
         if i < 230 {
          if i < 228 {
           if i < 227 {
            Table::row(1901149200, 0, 3600, "BST")
           } else {
            Table::row(1919293200, 0, 0, "GMT")
           }
          } else {
           if i < 229 {
            Table::row(1932598800, 0, 3600, "BST")
           } else {
            Table::row(1950742800, 0, 0, "GMT")
           }
          }
         } else {
          if i < 232 {
           if i < 231 {
            Table::row(1964048400, 0, 3600, "BST")
           } else {
            Table::row(1982797200, 0, 0, "GMT")
           }
          } else {
           if i < 233 {
            Table::row(1995498000, 0, 3600, "BST")
           } else {
            Table::row(2014246800, 0, 0, "GMT")
           }
          }
         }
        } else {
         if i < 238 {
          if i < 236 {
           if i < 235 {
            Table::row(2026947600, 0, 3600, "BST")
           } else {
            Table::row(2045696400, 0, 0, "GMT")
           }
          } else {
           if i < 237 {
            Table::row(2058397200, 0, 3600, "BST")
           } else {
            Table::row(2077146000, 0, 0, "GMT")
           }
          }
         } else {
          if i < 240 {
           if i < 239 {
            Table::row(2090451600, 0, 3600, "BST")
           } else {
            Table::row(2108595600, 0, 0, "GMT")
           }
          } else {
           if i < 241 {
            Table::row(2121901200, 0, 3600, "BST")
           } else {
            Table::row(2140045200, 0, 0, "GMT")
           }
          }
         }
        }
       }
      }
     }
    }
}

/// The rows of the table of the zone `GB`.
pub open spec fn gb_rows() -> spec_fn(int) -> (i64, FixedTimespan) {
    |i: int| gb_row(i)
}

/// The table of the zone `GB`.
pub open spec fn gb() -> Table {
    Table::listed(Table::row(0, -75, 0, "LMT").1, 242, gb_rows())
}

/// Row `i` of the table of the zone `GB-Eire`.
pub open spec fn gb_eire_row(i: int) -> (i64, FixedTimespan) {
    if i < 121 {
     if i < 60 {
      if i < 30 {
       if i < 15 {
        if i < 7 {
         if i < 3 {
          if i < 1 {
           Table::row(-3852662325, 0, 0, "GMT")
          } else {
           if i < 2 {
            Table::row(-1691964000, 0, 3600, "BST")
           } else {
            Table::row(-1680472800, 0, 0, "GMT")
           }
          }
         } else {
          if i < 5 {
           if i < 4 {
            Table::row(-1664143200, 0, 3600, "BST")
           } else {
            Table::row(-1650146400, 0, 0, "GMT")
           }
          } else {
           if i < 6 {
            Table::row(-1633903200, 0, 3600, "BST")
           } else {
            Table::row(-1617487200, 0, 0, "GMT")
           }
          }
         }
        } else {
         if i < 11 {
          if i < 9 {
           if i < 8 {
            Table::row(-1601848800, 0, 3600, "BST")
           } else {
            Table::row(-1586037600, 0, 0, "GMT")
           }
          } else {
           if i < 10 {
            Table::row(-1570399200, 0, 3600, "BST")
           } else {
            Table::row(-1552168800, 0, 0, "GMT")
           }
          }
         } else {
          if i < 13 {
           if i < 12 {
            Table::row(-1538344800, 0, 3600, "BST")
           } else {
            Table::row(-1522533600, 0, 0, "GMT")
           }
          } else {
           if i < 14 {
            Table::row(-1507500000, 0, 3600, "BST")
           } else {
            Table::row(-1490565600, 0, 0, "GMT")
           }
          }
         }
        }
       } else {
        if i < 22 {
         if i < 18 {
          if i < 16 {
           Table::row(-1473631200, 0, 3600, "BST")
          } else {
           if i < 17 {
            Table::row(-1460930400, 0, 0, "GMT")
           } else {
            Table::row(-1442786400, 0, 3600, "BST")
           }
          }
         } else {
          if i < 20 {
           if i < 19 {
            Table::row(-1428876000, 0, 0, "GMT")
           } else {
            Table::row(-1410732000, 0, 3600, "BST")
           }
          } else {
           if i < 21 {
            Table::row(-1396216800, 0, 0, "GMT")
           } else {
            Table::row(-1379282400, 0, 3600, "BST")
           }
          }
         }
        } else {
         if i < 26 {
          if i < 24 {
           if i < 23 {
            Table::row(-1364767200, 0, 0, "GMT")
           } else {
            Table::row(-1348437600, 0, 3600, "BST")
           }
          } else {
           if i < 25 {
            Table::row(-1333317600, 0, 0, "GMT")
           } else {
            Table::row(-1315778400, 0, 3600, "BST")
           }
          }
         } else {
          if i < 28 {
           if i < 27 {
            Table::row(-1301263200, 0, 0, "GMT")
           } else {
            Table::row(-1284328800, 0, 3600, "BST")
           }
          } else {
           if i < 29 {
            Table::row(-1269813600, 0, 0, "GMT")
           } else {
            Table::row(-1253484000, 0, 3600, "BST")
           }
          }
         }
        }
       }
      } else {
       if i < 45 {
        if i < 37 {
         if i < 33 {
          if i < 31 {
           Table::row(-1238364000, 0, 0, "GMT")
          } else {
           if i < 32 {
            Table::row(-1221429600, 0, 3600, "BST")
           } else {
            Table::row(-1206914400, 0, 0, "GMT")
           }
          }
         } else {
          if i < 35 {
           if i < 34 {
            Table::row(-1189980000, 0, 3600, "BST")
           } else {
            Table::row(-1175464800, 0, 0, "GMT")
           }
          } else {
           if i < 36 {
            Table::row(-1159135200, 0, 3600, "BST")
           } else {
            Table::row(-1143410400, 0, 0, "GMT")
           }
          }
         }
        } else {
         if i < 41 {
          if i < 39 {
           if i < 38 {
            Table::row(-1126476000, 0, 3600, "BST")
           } else {
            Table::row(-1111960800, 0, 0, "GMT")
           }
          } else {
           if i < 40 {
            Table::row(-1095631200, 0, 3600, "BST")
           } else {
            Table::row(-1080511200, 0, 0, "GMT")
           }
          }
         } else {
          if i < 43 {
           if i < 42 {
            Table::row(-1063576800, 0, 3600, "BST")
           } else {
            Table::row(-1049061600, 0, 0, "GMT")
           }
          } else {
           if i < 44 {
            Table::row(-1032127200, 0, 3600, "BST")
           } else {
            Table::row(-1017612000, 0, 0, "GMT")
           }
          }
         }
        }
       } else {
        if i < 52 {
         if i < 48 {
          if i < 46 {
           Table::row(-1001282400, 0, 3600, "BST")
          } else {
           if i < 47 {
            Table::row(-986162400, 0, 0, "GMT")
           } else {
            Table::row(-969228000, 0, 3600, "BST")
           }
          }
         } else {
          if i < 50 {
           if i < 49 {
            Table::row(-950479200, 0, 0, "GMT")
           } else {
            Table::row(-942012000, 0, 3600, "BST")
           }
          } else {
           if i < 51 {
            Table::row(-904518000, 0, 7200, "BDST")
           } else {
            Table::row(-896050800, 0, 3600, "BST")
           }
          }
         }
        } else {
         if i < 56 {
          if i < 54 {
           if i < 53 {
            Table::row(-875487600, 0, 7200, "BDST")
           } else {
            Table::row(-864601200, 0, 3600, "BST")
           }
          } else {
           if i < 55 {
            Table::row(-844038000, 0, 7200, "BDST")
           } else {
            Table::row(-832546800, 0, 3600, "BST")
           }
          }
         } else {
          if i < 58 {
           if i < 57 {
            Table::row(-812588400, 0, 7200, "BDST")
           } else {
            Table::row(-798073200, 0, 3600, "BST")
           }
          } else {
           if i < 59 {
            Table::row(-781052400, 0, 7200, "BDST")
           } else {
            Table::row(-772066800, 0, 3600, "BST")
           }
          }
         }
        }
       }
      }
     } else {
      if i < 90 {
       if i < 75 {
        if i < 67 {
         if i < 63 {
          if i < 61 {
           Table::row(-764805600, 0, 0, "GMT")
          } else {
           if i < 62 {
            Table::row(-748476000, 0, 3600, "BST")
           } else {
            Table::row(-733356000, 0, 0, "GMT")
           }
          }
         } else {
          if i < 65 {
           if i < 64 {
            Table::row(-719445600, 0, 3600, "BST")
           } else {
            Table::row(-717030000, 0, 7200, "BDST")
           }
          } else {
           if i < 66 {
            Table::row(-706748400, 0, 3600, "BST")
           } else {
            Table::row(-699487200, 0, 0, "GMT")
           }
          }
         }
        } else {
         if i < 71 {
          if i < 69 {
           if i < 68 {
            Table::row(-687996000, 0, 3600, "BST")
           } else {
            Table::row(-668037600, 0, 0, "GMT")
           }
          } else {
           if i < 70 {
            Table::row(-654732000, 0, 3600, "BST")
           } else {
            Table::row(-636588000, 0, 0, "GMT")
           }
          }
         } else {
          if i < 73 {
           if i < 72 {
            Table::row(-622072800, 0, 3600, "BST")
           } else {
            Table::row(-605743200, 0, 0, "GMT")
           }
          } else {
           if i < 74 {
            Table::row(-590623200, 0, 3600, "BST")
           } else {
            Table::row(-574293600, 0, 0, "GMT")
           }
          }
         }
        }
       } else {
        if i < 82 {
         if i < 78 {
          if i < 76 {
           Table::row(-558568800, 0, 3600, "BST")
          } else {
           if i < 77 {
            Table::row(-542239200, 0, 0, "GMT")
           } else {
            Table::row(-527119200, 0, 3600, "BST")
           }
          }
         } else {
          if i < 80 {
           if i < 79 {
            Table::row(-512604000, 0, 0, "GMT")
           } else {
            Table::row(-496274400, 0, 3600, "BST")
           }
          } else {
           if i < 81 {
            Table::row(-481154400, 0, 0, "GMT")
           } else {
            Table::row(-464220000, 0, 3600, "BST")
           }
          }
         }
        } else {
         if i < 86 {
          if i < 84 {
           if i < 83 {
            Table::row(-449704800, 0, 0, "GMT")
           } else {
            Table::row(-432165600, 0, 3600, "BST")
           }
          } else {
           if i < 85 {
            Table::row(-417650400, 0, 0, "GMT")
           } else {
            Table::row(-401320800, 0, 3600, "BST")
           }
          }
         } else {
          if i < 88 {
           if i < 87 {
            Table::row(-386200800, 0, 0, "GMT")
           } else {
            Table::row(-369266400, 0, 3600, "BST")
           }
          } else {
           if i < 89 {
            Table::row(-354751200, 0, 0, "GMT")
           } else {
            Table::row(-337816800, 0, 3600, "BST")
           }
          }
         }
        }
       }
      } else {
       if i < 105 {
        if i < 97 {
         if i < 93 {
          if i < 91 {
           Table::row(-323301600, 0, 0, "GMT")
          } else {
           if i < 92 {
            Table::row(-306972000, 0, 3600, "BST")
           } else {
            Table::row(-291852000, 0, 0, "GMT")
           }
          }
         } else {
          if i < 95 {
           if i < 94 {
            Table::row(-276732000, 0, 3600, "BST")
           } else {
            Table::row(-257983200, 0, 0, "GMT")
           }
          } else {
           if i < 96 {
            Table::row(-245282400, 0, 3600, "BST")
           } else {
            Table::row(-226533600, 0, 0, "GMT")
           }
          }
         }
        } else {
         if i < 101 {
          if i < 99 {
           if i < 98 {
            Table::row(-213228000, 0, 3600, "BST")
           } else {
            Table::row(-195084000, 0, 0, "GMT")
           }
          } else {
           if i < 100 {
            Table::row(-182383200, 0, 3600, "BST")
           } else {
            Table::row(-163634400, 0, 0, "GMT")
           }
          }
         } else {
          if i < 103 {
           if i < 102 {
            Table::row(-150933600, 0, 3600, "BST")
           } else {
            Table::row(-132184800, 0, 0, "GMT")
           }
          } else {
           if i < 104 {
            Table::row(-119484000, 0, 3600, "BST")
           } else {
            Table::row(-100735200, 0, 0, "GMT")
           }
          }
         }
        }
       } else {
        if i < 113 {
         if i < 109 {
          if i < 107 {
           if i < 106 {
            Table::row(-88034400, 0, 3600, "BST")
           } else {
            Table::row(-68680800, 0, 0, "GMT")
           }
          } else {
           if i < 108 {
            Table::row(-59004000, 0, 3600, "BST")
           } else {
            Table::row(-37242000, 3600, 0, "BST")
           }
          }
         } else {
          if i < 111 {
           if i < 110 {
            Table::row(57722400, 0, 0, "GMT")
           } else {
            Table::row(69818400, 0, 3600, "BST")
           }
          } else {
           if i < 112 {
            Table::row(89172000, 0, 0, "GMT")
           } else {
            Table::row(101268000, 0, 3600, "BST")
           }
          }
         }
        } else {
         if i < 117 {
          if i < 115 {
           if i < 114 {
            Table::row(120621600, 0, 0, "GMT")
           } else {
            Table::row(132717600, 0, 3600, "BST")
           }
          } else {
           if i < 116 {
            Table::row(152071200, 0, 0, "GMT")
           } else {
            Table::row(164167200, 0, 3600, "BST")
           }
          }
         } else {
          if i < 119 {
           if i < 118 {
            Table::row(183520800, 0, 0, "GMT")
           } else {
            Table::row(196221600, 0, 3600, "BST")
           }
          } else {
           if i < 120 {
            Table::row(214970400, 0, 0, "GMT")
           } else {
            Table::row(227671200, 0, 3600, "BST")
           }
          }
         }
        }
       }
      }
     }
    } else {
     if i < 181 {
      if i < 151 {
       if i < 136 {
        if i < 128 {
         if i < 124 {
          if i < 122 {
           Table::row(246420000, 0, 0, "GMT")
          } else {
           if i < 123 {
            Table::row(259120800, 0, 3600, "BST")
           } else {
            Table::row(278474400, 0, 0, "GMT")
           }
          }
         } else {
          if i < 126 {
           if i < 125 {
            Table::row(290570400, 0, 3600, "BST")
           } else {
            Table::row(309924000, 0, 0, "GMT")
           }
          } else {
           if i < 127 {
            Table::row(322020000, 0, 3600, "BST")
           } else {
            Table::row(341373600, 0, 0, "GMT")
           }
          }
         }
        } else {
         if i < 132 {
          if i < 130 {
           if i < 129 {
            Table::row(354675600, 0, 3600, "BST")
           } else {
            Table::row(372819600, 0, 0, "GMT")
           }
          } else {
           if i < 131 {
            Table::row(386125200, 0, 3600, "BST")
           } else {
            Table::row(404269200, 0, 0, "GMT")
           }
          }
         } else {
          if i < 134 {
           if i < 133 {
            Table::row(417574800, 0, 3600, "BST")
           } else {
            Table::row(435718800, 0, 0, "GMT")
           }
          } else {
           if i < 135 {
            Table::row(449024400, 0, 3600, "BST")
           } else {
            Table::row(467773200, 0, 0, "GMT")
           }
          }
         }
        }
       } else {
        if i < 143 {
         if i < 139 {
          if i < 137 {
           Table::row(481078800, 0, 3600, "BST")
          } else {
           if i < 138 {
            Table::row(499222800, 0, 0, "GMT")
           } else {
            Table::row(512528400, 0, 3600, "BST")
           }
          }
         } else {
          if i < 141 {
           if i < 140 {
            Table::row(530672400, 0, 0, "GMT")
           } else {
            Table::row(543978000, 0, 3600, "BST")
           }
          } else {
           if i < 142 {
            Table::row(562122000, 0, 0, "GMT")
           } else {
            Table::row(575427600, 0, 3600, "BST")
           }
          }
         }
        } else {
         if i < 147 {
          if i < 145 {
           if i < 144 {
            Table::row(593571600, 0, 0, "GMT")
           } else {
            Table::row(606877200, 0, 3600, "BST")
           }
          } else {
           if i < 146 {
            Table::row(625626000, 0, 0, "GMT")
           } else {
            Table::row(638326800, 0, 3600, "BST")
           }
          }
         } else {
          if i < 149 {
           if i < 148 {
            Table::row(657075600, 0, 0, "GMT")
           } else {
            Table::row(670381200, 0, 3600, "BST")
           }
          } else {
           if i < 150 {
            Table::row(688525200, 0, 0, "GMT")
           } else {
            Table::row(701830800, 0, 3600, "BST")
           }
          }
         }
        }
       }
      } else {
       if i < 166 {
        if i < 158 {
         if i < 154 {
          if i < 152 {
           Table::row(719974800, 0, 0, "GMT")
          } else {
           if i < 153 {
            Table::row(733280400, 0, 3600, "BST")
           } else {
            Table::row(751424400, 0, 0, "GMT")
           }
          }
         } else {
          if i < 156 {
           if i < 155 {
            Table::row(764730000, 0, 3600, "BST")
           } else {
            Table::row(782874000, 0, 0, "GMT")
           }
          } else {
           if i < 157 {
            Table::row(796179600, 0, 3600, "BST")
           } else {
            Table::row(814323600, 0, 0, "GMT")
           }
          }
         }
        } else {
         if i < 162 {
          if i < 160 {
           if i < 159 {
            Table::row(828234000, 0, 3600, "BST")
           } else {
            Table::row(846378000, 0, 0, "GMT")
           }
          } else {
           if i < 161 {
            Table::row(859683600, 0, 3600, "BST")
           } else {
            Table::row(877827600, 0, 0, "GMT")
           }
          }
         } else {
          if i < 164 {
           if i < 163 {
            Table::row(891133200, 0, 3600, "BST")
           } else {
            Table::row(909277200, 0, 0, "GMT")
           }
          } else {
           if i < 165 {
            Table::row(922582800, 0, 3600, "BST")
           } else {
            Table::row(941331600, 0, 0, "GMT")
           }
          }
         }
        }
       } else {
        if i < 173 {
         if i < 169 {
          if i < 167 {
           Table::row(954032400, 0, 3600, "BST")
          } else {
           if i < 168 {
            Table::row(972781200, 0, 0, "GMT")
           } else {
            Table::row(985482000, 0, 3600, "BST")
           }
          }
         } else {
          if i < 171 {
           if i < 170 {
            Table::row(1004230800, 0, 0, "GMT")
           } else {
            Table::row(1017536400, 0, 3600, "BST")
           }
          } else {
           if i < 172 {
            Table::row(1035680400, 0, 0, "GMT")
           } else {
            Table::row(1048986000, 0, 3600, "BST")
           }
          }
         }
        } else {
         if i < 177 {
          if i < 175 {
           if i < 174 {
            Table::row(1067130000, 0, 0, "GMT")
           } else {
            Table::row(1080435600, 0, 3600, "BST")
           }
          } else {
           if i < 176 {
            Table::row(1099184400, 0, 0, "GMT")
           } else {
            Table::row(1111885200, 0, 3600, "BST")
           }
          }
         } else {
          if i < 179 {
           if i < 178 {
            Table::row(1130634000, 0, 0, "GMT")
           } else {
            Table::row(1143334800, 0, 3600, "BST")
           }
          } else {
           if i < 180 {
            Table::row(1162083600, 0, 0, "GMT")
           } else {
            Table::row(1174784400, 0, 3600, "BST")
           }
          }
         }
        }
       }
      }
     } else {
      if i < 211 {
       if i < 196 {
        if i < 188 {
         if i < 184 {
          if i < 182 {
           Table::row(1193533200, 0, 0, "GMT")
          } else {
           if i < 183 {
            Table::row(1206838800, 0, 3600, "BST")
           } else {
            Table::row(1224982800, 0, 0, "GMT")
           }
          }
         } else {
          if i < 186 {
           if i < 185 {
            Table::row(1238288400, 0, 3600, "BST")
           } else {
            Table::row(1256432400, 0, 0, "GMT")
           }
          } else {
           if i < 187 {
            Table::row(1269738000, 0, 3600, "BST")
           } else {
            Table::row(1288486800, 0, 0, "GMT")
           }
          }
         }
        } else {
         if i < 192 {
          if i < 190 {
           if i < 189 {
            Table::row(1301187600, 0, 3600, "BST")
           } else {
            Table::row(1319936400, 0, 0, "GMT")
           }
          } else {
           if i < 191 {
            Table::row(1332637200, 0, 3600, "BST")
           } else {
            Table::row(1351386000, 0, 0, "GMT")
           }
          }
         } else {
          if i < 194 {
           if i < 193 {
            Table::row(1364691600, 0, 3600, "BST")
           } else {
            Table::row(1382835600, 0, 0, "GMT")
           }
          } else {
           if i < 195 {
            Table::row(1396141200, 0, 3600, "BST")
           } else {
            Table::row(1414285200, 0, 0, "GMT")
           }
          }
         }
        }
       } else {
        if i < 203 {
         if i < 199 {
          if i < 197 {
           Table::row(1427590800, 0, 3600, "BST")
          } else {
           if i < 198 {
            Table::row(1445734800, 0, 0, "GMT")
           } else {
            Table::row(1459040400, 0, 3600, "BST")
           }
          }
         } else {
          if i < 201 {
           if i < 200 {
            Table::row(1477789200, 0, 0, "GMT")
           } else {
            Table::row(1490490000, 0, 3600, "BST")
           }
          } else {
           if i < 202 {
            Table::row(1509238800, 0, 0, "GMT")
           } else {
            Table::row(1521939600, 0, 3600, "BST")
           }
          }
         }
        } else {
         if i < 207 {
          if i < 205 {
           if i < 204 {
            Table::row(1540688400, 0, 0, "GMT")
           } else {
            Table::row(1553994000, 0, 3600, "BST")
           }
          } else {
           if i < 206 {
            Table::row(1572138000, 0, 0, "GMT")
           } else {
            Table::row(1585443600, 0, 3600, "BST")
           }
          }
         } else {
          if i < 209 {
           if i < 208 {
            Table::row(1603587600, 0, 0, "GMT")
           } else {
            Table::row(1616893200, 0, 3600, "BST")
           }
          } else {
           if i < 210 {
            Table::row(1635642000, 0, 0, "GMT")
           } else {
            Table::row(1648342800, 0, 3600, "BST")
           }
          }
         }
        }
       }
      } else {
       if i < 226 {
        if i < 218 {
         if i < 214 {
          if i < 212 {
           Table::row(1667091600, 0, 0, "GMT")
          } else {
           if i < 213 {
            Table::row(1679792400, 0, 3600, "BST")
           } else {
            Table::row(1698541200, 0, 0, "GMT")
           }
          }
         } else {
          if i < 216 {
           if i < 215 {
            Table::row(1711846800, 0, 3600, "BST")
           } else {
            Table::row(1729990800, 0, 0, "GMT")
           }
          } else {
           if i < 217 {
            Table::row(1743296400, 0, 3600, "BST")
           } else {
            Table::row(1761440400, 0, 0, "GMT")
           }
          }
         }
        } else {
         if i < 222 {
          if i < 220 {
           if i < 219 {
            Table::row(1774746000, 0, 3600, "BST")
           } else {
            Table::row(1792890000, 0, 0, "GMT")
           }
          } else {
           if i < 221 {
            Table::row(1806195600, 0, 3600, "BST")
           } else {
            Table::row(1824944400, 0, 0, "GMT")
           }
          }
         } else {
          if i < 224 {
           if i < 223 {
            Table::row(1837645200, 0, 3600, "BST")
           } else {
            Table::row(1856394000, 0, 0, "GMT")
           }
          } else {
           if i < 225 {
            Table::row(1869094800, 0, 3600, "BST")
           } else {
            Table::row(1887843600, 0, 0, "GMT")
           }
          }
         }
        }
       } else {
        if i < 234 {
         if i < 230 {
          if i < 228 {
           if i < 227 {
            Table::row(1901149200, 0, 3600, "BST")
           } else {
            Table::row(1919293200, 0, 0, "GMT")
           }
          } else {
           if i < 229 {
            Table::row(1932598800, 0, 3600, "BST")
           } else {
            Table::row(1950742800, 0, 0, "GMT")
           }
          }
         } else {
          if i < 232 {
           if i < 231 {
            Table::row(1964048400, 0, 3600, "BST")
           } else {
            Table::row(1982797200, 0, 0, "GMT")
           }
          } else {
           if i < 233 {
            Table::row(1995498000, 0, 3600, "BST")
           } else {
            Table::row(2014246800, 0, 0, "GMT")
           }
          }
         }
        } else {
         if i < 238 {
          if i < 236 {
           if i < 235 {
            Table::row(2026947600, 0, 3600, "BST")
           } else {
            Table::row(2045696400, 0, 0, "GMT")
           }
          } else {
           if i < 237 {
            Table::row(2058397200, 0, 3600, "BST")
           } else {
            Table::row(2077146000, 0, 0, "GMT")
           }
          }
         } else {
          if i < 240 {
           if i < 239 {
            Table::row(2090451600, 0, 3600, "BST")
           } else {
            Table::row(2108595600, 0, 0, "GMT")
           }
          } else {
           if i < 241 {
            Table::row(2121901200, 0, 3600, "BST")
           } else {
            Table::row(2140045200, 0, 0, "GMT")
           }
          }
         }
        }
       }
      }
     }
    }
}

/// The rows of the table of the zone `GB-Eire`.
pub open spec fn gb_eire_rows() -> spec_fn(int) -> (i64, FixedTimespan) {
    |i: int| gb_eire_row(i)
}

/// The table of the zone `GB-Eire`.
pub open spec fn gb_eire() -> Table {
    Table::listed(Table::row(0, -75, 0, "LMT").1, 242, gb_eire_rows())
}

/// Row `i` of the table of the zone `GMT`.
pub open spec fn gmt_row(i: int) -> (i64, FixedTimespan) {
    Table::row(0, 0, 0, "GMT")
}

/// The rows of the table of the zone `GMT`.
pub open spec fn gmt_rows() -> spec_fn(int) -> (i64, FixedTimespan) {
    |i: int| gmt_row(i)
}

/// The table of the zone `GMT`.
pub open spec fn gmt() -> Table {
    Table::listed(Table::row(0, 0, 0, "GMT").1, 0, gmt_rows())
}

/// Row `i` of the table of the zone `GMT+0`.
pub open spec fn gmt_plus_0_row(i: int) -> (i64, FixedTimespan) {
    Table::row(0, 0, 0, "GMT")
}

/// The rows of the table of the zone `GMT+0`.
pub open spec fn gmt_plus_0_rows() -> spec_fn(int) -> (i64, FixedTimespan) {
    |i: int| gmt_plus_0_row(i)
}

/// The table of the zone `GMT+0`.
pub open spec fn gmt_plus_0() -> Table {
    Table::listed(Table::row(0, 0, 0, "GMT").1, 0, gmt_plus_0_rows())
}

/// Row `i` of the table of the zone `GMT-0`.
pub open spec fn gmt_minus_0_row(i: int) -> (i64, FixedTimespan) {
    Table::row(0, 0, 0, "GMT")
}

/// The rows of the table of the zone `GMT-0`.
pub open spec fn gmt_minus_0_rows() -> spec_fn(int) -> (i64, FixedTimespan) {
    |i: int| gmt_minus_0_row(i)
}

/// The table of the zone `GMT-0`.
pub open spec fn gmt_minus_0() -> Table {
    Table::listed(Table::row(0, 0, 0, "GMT").1, 0, gmt_minus_0_rows())
}

/// Row `i` of the table of the zone `GMT0`.
pub open spec fn gmt0_row(i: int) -> (i64, FixedTimespan) {
    Table::row(0, 0, 0, "GMT")
}

/// The rows of the table of the zone `GMT0`.
pub open spec fn gmt0_rows() -> spec_fn(int) -> (i64, FixedTimespan) {
    |i: int| gmt0_row(i)
}

/// The table of the zone `GMT0`.
pub open spec fn gmt0() -> Table {
    Table::listed(Table::row(0, 0, 0, "GMT").1, 0, gmt0_rows())
}

/// Row `i` of the table of the zone `Greenwich`.
pub open spec fn greenwich_row(i: int) -> (i64, FixedTimespan) {
    Table::row(0, 0, 0, "GMT")
}

/// The rows of the table of the zone `Greenwich`.
pub open spec fn greenwich_rows() -> spec_fn(int) -> (i64, FixedTimespan) {
    |i: int| greenwich_row(i)
}

/// The table of the zone `Greenwich`.
pub open spec fn greenwich() -> Table {
    Table::listed(Table::row(0, 0, 0, "GMT").1, 0, greenwich_rows())
}

/// Row `i` of the table of the zone `HST`.
pub open spec fn hst_row(i: int) -> (i64, FixedTimespan) {
    Table::row(0, -36000, 0, "HST")
}

/// The rows of the table of the zone `HST`.
pub open spec fn hst_rows() -> spec_fn(int) -> (i64, FixedTimespan) {
    |i: int| hst_row(i)
}

/// The table of the zone `HST`.
pub open spec fn hst() -> Table {
    Table::listed(Table::row(0, -36000, 0, "HST").1, 0, hst_rows())
}

/// Row `i` of the table of the zone `Hongkong`.
pub open spec fn hongkong_row(i: int) -> (i64, FixedTimespan) {
    if i < 34 {
     if i < 17 {
      if i < 8 {
       if i < 4 {
        if i < 2 {
         if i < 1 {
          Table::row(-2056690800, 28800, 0, "HKT")
         } else {
          Table::row(-900910800, 28800, 3600, "HKST")
         }
        } else {
         if i < 3 {
          Table::row(-891579600, 28800, 1800, "HKWT")
         } else {
          Table::row(-884248200, 32400, 0, "JST")
         }
        }
       } else {
        if i < 6 {
         if i < 5 {
          Table::row(-761209200, 28800, 0, "HKT")
         } else {
          Table::row(-747907200, 28800, 3600, "HKST")
         }
        } else {
         if i < 7 {
          Table::row(-728541000, 28800, 0, "HKT")
         } else {
          Table::row(-717049800, 28800, 3600, "HKST")
         }
        }
       }
      } else {
       if i < 12 {
        if i < 10 {
         if i < 9 {
          Table::row(-697091400, 28800, 0, "HKT")
         } else {
          Table::row(-683785800, 28800, 3600, "HKST")
         }
        } else {
         if i < 11 {
          Table::row(-668061000, 28800, 0, "HKT")
         } else {
          Table::row(-654755400, 28800, 3600, "HKST")
         }
        }
       } else {
        if i < 14 {
         if i < 13 {
          Table::row(-636611400, 28800, 0, "HKT")
         } else {
          Table::row(-623305800, 28800, 3600, "HKST")
         }
        } else {
         if i < 15 {
          Table::row(-605161800, 28800, 0, "HKT")
         } else {
          if i < 16 {
           Table::row(-591856200, 28800, 3600, "HKST")
          } else {
           Table::row(-573712200, 28800, 0, "HKT")
          }
         }
        }
       }
      }
     } else {
      if i < 25 {
       if i < 21 {
        if i < 19 {
         if i < 18 {
          Table::row(-559801800, 28800, 3600, "HKST")
         } else {
          Table::row(-541657800, 28800, 0, "HKT")
         }
        } else {
         if i < 20 {
          Table::row(-528352200, 28800, 3600, "HKST")
         } else {
          Table::row(-510211800, 28800, 0, "HKT")
         }
        }
       } else {
        if i < 23 {
         if i < 22 {
          Table::row(-498112200, 28800, 3600, "HKST")
         } else {
          Table::row(-478762200, 28800, 0, "HKT")
         }
        } else {
         if i < 24 {
          Table::row(-466662600, 28800, 3600, "HKST")
         } else {
          Table::row(-446707800, 28800, 0, "HKT")
         }
        }
       }
      } else {
       if i < 29 {
        if i < 27 {
         if i < 26 {
          Table::row(-435213000, 28800, 3600, "HKST")
         } else {
          Table::row(-415258200, 28800, 0, "HKT")
         }
        } else {
         if i < 28 {
          Table::row(-403158600, 28800, 3600, "HKST")
         } else {
          Table::row(-383808600, 28800, 0, "HKT")
         }
        }
       } else {
        if i < 31 {
         if i < 30 {
          Table::row(-371709000, 28800, 3600, "HKST")
         } else {
          Table::row(-352359000, 28800, 0, "HKT")
         }
        } else {
         if i < 32 {
          Table::row(-340259400, 28800, 3600, "HKST")
         } else {
          if i < 33 {
           Table::row(-320909400, 28800, 0, "HKT")
          } else {
           Table::row(-308809800, 28800, 3600, "HKST")
          }
         }
        }
       }
      }
     }
    } else {
     if i < 51 {
      if i < 42 {
       if i < 38 {
        if i < 36 {
         if i < 35 {
          Table::row(-288855000, 28800, 0, "HKT")
         } else {
          Table::row(-277360200, 28800, 3600, "HKST")
         }
        } else {
         if i < 37 {
          Table::row(-257405400, 28800, 0, "HKT")
         } else {
          Table::row(-245910600, 28800, 3600, "HKST")
         }
        }
       } else {
        if i < 40 {
         if i < 39 {
          Table::row(-225955800, 28800, 0, "HKT")
         } else {
          Table::row(-213856200, 28800, 3600, "HKST")
         }
        } else {
         if i < 41 {
          Table::row(-194506200, 28800, 0, "HKT")
         } else {
          Table::row(-182406600, 28800, 3600, "HKST")
         }
        }
       }
      } else {
       if i < 46 {
        if i < 44 {
         if i < 43 {
          Table::row(-163056600, 28800, 0, "HKT")
         } else {
          Table::row(-148537800, 28800, 3600, "HKST")
         }
        } else {
         if i < 45 {
          Table::row(-132816600, 28800, 0, "HKT")
         } else {
          Table::row(-117088200, 28800, 3600, "HKST")
         }
        }
       } else {
        if i < 48 {
         if i < 47 {
          Table::row(-101367000, 28800, 0, "HKT")
         } else {
          Table::row(-85638600, 28800, 3600, "HKST")
         }
        } else {
         if i < 49 {
          Table::row(-69312600, 28800, 0, "HKT")
         } else {
          if i < 50 {
           Table::row(-53584200, 28800, 3600, "HKST")
          } else {
           Table::row(-37863000, 28800, 0, "HKT")
          }
         }
        }
       }
      }
     } else {
      if i < 60 {
       if i < 55 {
        if i < 53 {
         if i < 52 {
          Table::row(-22134600, 28800, 3600, "HKST")
         } else {
          Table::row(-6413400, 28800, 0, "HKT")
         }
        } else {
         if i < 54 {
          Table::row(9315000, 28800, 3600, "HKST")
         } else {
          Table::row(25036200, 28800, 0, "HKT")
         }
        }
       } else {
        if i < 57 {
         if i < 56 {
          Table::row(40764600, 28800, 3600, "HKST")
         } else {
          Table::row(56485800, 28800, 0, "HKT")
         }
        } else {
         if i < 58 {
          Table::row(72214200, 28800, 3600, "HKST")
         } else {
          if i < 59 {
           Table::row(88540200, 28800, 0, "HKT")
          } else {
           Table::row(104268600, 28800, 3600, "HKST")
          }
         }
        }
       }
      } else {
       if i < 64 {
        if i < 62 {
         if i < 61 {
          Table::row(119989800, 28800, 0, "HKT")
         } else {
          Table::row(126041400, 28800, 3600, "HKST")
         }
        } else {
         if i < 63 {
          Table::row(151439400, 28800, 0, "HKT")
         } else {
          Table::row(167167800, 28800, 3600, "HKST")
         }
        }
       } else {
        if i < 66 {
         if i < 65 {
          Table::row(182889000, 28800, 0, "HKT")
         } else {
          Table::row(198617400, 28800, 3600, "HKST")
         }
        } else {
         if i < 67 {
          Table::row(214338600, 28800, 0, "HKT")
         } else {
          if i < 68 {
           Table::row(295385400, 28800, 3600, "HKST")
          } else {
           Table::row(309292200, 28800, 0, "HKT")
          }
         }
        }
       }
      }
     }
    }
}

/// The rows of the table of the zone `Hongkong`.
pub open spec fn hongkong_rows() -> spec_fn(int) -> (i64, FixedTimespan) {
    |i: int| hongkong_row(i)
}

/// The table of the zone `Hongkong`.
pub open spec fn hongkong() -> Table {
    Table::listed(Table::row(0, 27402, 0, "LMT").1, 69, hongkong_rows())
}

/// Row `i` of the table of the zone `Iceland`.
pub open spec fn iceland_row(i: int) -> (i64, FixedTimespan) {
    Table::row(-1830383032, 0, 0, "GMT")
}

/// The rows of the table of the zone `Iceland`.
pub open spec fn iceland_rows() -> spec_fn(int) -> (i64, FixedTimespan) {
    |i: int| iceland_row(i)
}

/// The table of the zone `Iceland`.
pub open spec fn iceland() -> Table {
    Table::listed(Table::row(0, -968, 0, "LMT").1, 1, iceland_rows())
}

/// Row `i` of the table of the zone `Iran`.
pub open spec fn iran_row(i: int) -> (i64, FixedTimespan) {
    if i < 36 {
     if i < 18 {
      if i < 9 {
       if i < 4 {
        if i < 2 {
         if i < 1 {
          Table::row(-1704165944, 12344, 0, "TMT")
         } else {
          Table::row(-1090466744, 12600, 0, "+0330")
         }
        } else {
         if i < 3 {
          Table::row(227820600, 12600, 3600, "+0430")
         } else {
          Table::row(246223800, 14400, 0, "+04")
         }
        }
       } else {
        if i < 6 {
         if i < 5 {
          Table::row(259617600, 14400, 3600, "+05")
         } else {
          Table::row(271108800, 14400, 0, "+04")
         }
        } else {
         if i < 7 {
          Table::row(279576000, 12600, 0, "+0330")
         } else {
          if i < 8 {
           Table::row(296598600, 12600, 3600, "+0430")
          } else {
           Table::row(306531000, 12600, 0, "+0330")
          }
         }
        }
       }
      } else {
       if i < 13 {
        if i < 11 {
         if i < 10 {
          Table::row(322432200, 12600, 3600, "+0430")
         } else {
          Table::row(338499000, 12600, 0, "+0330")
         }
        } else {
         if i < 12 {
          Table::row(673216200, 12600, 3600, "+0430")
         } else {
          Table::row(685481400, 12600, 0, "+0330")
         }
        }
       } else {
        if i < 15 {
         if i < 14 {
          Table::row(701209800, 12600, 3600, "+0430")
         } else {
          Table::row(717103800, 12600, 0, "+0330")
         }
        } else {
         if i < 16 {
          Table::row(732745800, 12600, 3600, "+0430")
         } else {
          if i < 17 {
           Table::row(748639800, 12600, 0, "+0330")
          } else {
           Table::row(764281800, 12600, 3600, "+0430")
          }
         }
        }
       }
      }
     } else {
      if i < 27 {
       if i < 22 {
        if i < 20 {
         if i < 19 {
          Table::row(780175800, 12600, 0, "+0330")
         } else {
          Table::row(795817800, 12600, 3600, "+0430")
         }
        } else {
         if i < 21 {
          Table::row(811711800, 12600, 0, "+0330")
         } else {
          Table::row(827353800, 12600, 3600, "+0430")
         }
        }
       } else {
        if i < 24 {
         if i < 23 {
          Table::row(843247800, 12600, 0, "+0330")
         } else {
          Table::row(858976200, 12600, 3600, "+0430")
         }
        } else {
         if i < 25 {
          Table::row(874870200, 12600, 0, "+0330")
         } else {
          if i < 26 {
           Table::row(890512200, 12600, 3600, "+0430")
          } else {
           Table::row(906406200, 12600, 0, "+0330")
          }
         }
        }
       }
      } else {
       if i < 31 {
        if i < 29 {
         if i < 28 {
          Table::row(922048200, 12600, 3600, "+0430")
         } else {
          Table::row(937942200, 12600, 0, "+0330")
         }
        } else {
         if i < 30 {
          Table::row(953584200, 12600, 3600, "+0430")
         } else {
          Table::row(969478200, 12600, 0, "+0330")
         }
        }
       } else {
        if i < 33 {
         if i < 32 {
          Table::row(985206600, 12600, 3600, "+0430")
         } else {
          Table::row(1001100600, 12600, 0, "+0330")
         }
        } else {
         if i < 34 {
          Table::row(1016742600, 12600, 3600, "+0430")
         } else {
          if i < 35 {
           Table::row(1032636600, 12600, 0, "+0330")
          } else {
           Table::row(1048278600, 12600, 3600, "+0430")
          }
         }
        }
       }
      }
     }
    } else {
     if i < 54 {
      if i < 45 {
       if i < 40 {
        if i < 38 {
         if i < 37 {
          Table::row(1064172600, 12600, 0, "+0330")
         } else {
          Table::row(1079814600, 12600, 3600, "+0430")
         }
        } else {
         if i < 39 {
          Table::row(1095708600, 12600, 0, "+0330")
         } else {
          Table::row(1111437000, 12600, 3600, "+0430")
         }
        }
       } else {
        if i < 42 {
         if i < 41 {
          Table::row(1127331000, 12600, 0, "+0330")
         } else {
          Table::row(1206045000, 12600, 3600, "+0430")
         }
        } else {
         if i < 43 {
          Table::row(1221939000, 12600, 0, "+0330")
         } else {
          if i < 44 {
           Table::row(1237667400, 12600, 3600, "+0430")
          } else {
           Table::row(1253561400, 12600, 0, "+0330")
          }
         }
        }
       }
      } else {
       if i < 49 {
        if i < 47 {
         if i < 46 {
          Table::row(1269203400, 12600, 3600, "+0430")
         } else {
          Table::row(1285097400, 12600, 0, "+0330")
         }
        } else {
         if i < 48 {
          Table::row(1300739400, 12600, 3600, "+0430")
         } else {
          Table::row(1316633400, 12600, 0, "+0330")
         }
        }
       } else {
        if i < 51 {
         if i < 50 {
          Table::row(1332275400, 12600, 3600, "+0430")
         } else {
          Table::row(1348169400, 12600, 0, "+0330")
         }
        } else {
         if i < 52 {
          Table::row(1363897800, 12600, 3600, "+0430")
         } else {
          if i < 53 {
           Table::row(1379791800, 12600, 0, "+0330")
          } else {
           Table::row(1395433800, 12600, 3600, "+0430")
          }
         }
        }
       }
      }
     } else {
      if i < 63 {
       if i < 58 {
        if i < 56 {
         if i < 55 {
          Table::row(1411327800, 12600, 0, "+0330")
         } else {
          Table::row(1426969800, 12600, 3600, "+0430")
         }
        } else {
         if i < 57 {
          Table::row(1442863800, 12600, 0, "+0330")
         } else {
          Table::row(1458505800, 12600, 3600, "+0430")
         }
        }
       } else {
        if i < 60 {
         if i < 59 {
          Table::row(1474399800, 12600, 0, "+0330")
         } else {
          Table::row(1490128200, 12600, 3600, "+0430")
         }
        } else {
         if i < 61 {
          Table::row(1506022200, 12600, 0, "+0330")
         } else {
          if i < 62 {
           Table::row(1521664200, 12600, 3600, "+0430")
          } else {
           Table::row(1537558200, 12600, 0, "+0330")
          }
         }
        }
       }
      } else {
       if i < 67 {
        if i < 65 {
         if i < 64 {
          Table::row(1553200200, 12600, 3600, "+0430")
         } else {
          Table::row(1569094200, 12600, 0, "+0330")
         }
        } else {
         if i < 66 {
          Table::row(1584736200, 12600, 3600, "+0430")
         } else {
          Table::row(1600630200, 12600, 0, "+0330")
         }
        }
       } else {
        if i < 69 {
         if i < 68 {
          Table::row(1616358600, 12600, 3600, "+0430")
         } else {
          Table::row(1632252600, 12600, 0, "+0330")
         }
        } else {
         if i < 70 {
          Table::row(1647894600, 12600, 3600, "+0430")
         } else {
          if i < 71 {
           Table::row(1663788600, 12600, 0, "+0330")
          } else {
           Table::row(2147483647, 12600, 0, "+0330")
          }
         }
        }
       }
      }
     }
    }
}

/// The rows of the table of the zone `Iran`.
pub open spec fn iran_rows() -> spec_fn(int) -> (i64, FixedTimespan) {
    |i: int| iran_row(i)
}

/// The table of the zone `Iran`.
pub open spec fn iran() -> Table {
    Table::listed(Table::row(0, 12344, 0, "LMT").1, 72, iran_rows())
}

/// Row `i` of the table of the zone `Israel`.
pub open spec fn israel_row(i: int) -> (i64, FixedTimespan) {
    if i < 74 {
     if i < 37 {
      if i < 18 {
       if i < 9 {
        if i < 4 {
         if i < 2 {
          if i < 1 {
           Table::row(-2840149254, 8440, 0, "JMT")
          } else {
           Table::row(-1641003640, 7200, 0, "IST")
          }
         } else {
          if i < 3 {
           Table::row(-933638400, 7200, 3600, "IDT")
          } else {
           Table::row(-923097600, 7200, 0, "IST")
          }
         }
        } else {
         if i < 6 {
          if i < 5 {
           Table::row(-919036800, 7200, 3600, "IDT")
          } else {
           Table::row(-857347200, 7200, 0, "IST")
          }
         } else {
          if i < 7 {
           Table::row(-844300800, 7200, 3600, "IDT")
          } else {
           if i < 8 {
            Table::row(-825811200, 7200, 0, "IST")
           } else {
            Table::row(-812678400, 7200, 3600, "IDT")
           }
          }
         }
        }
       } else {
        if i < 13 {
         if i < 11 {
          if i < 10 {
           Table::row(-794188800, 7200, 0, "IST")
          } else {
           Table::row(-779846400, 7200, 3600, "IDT")
          }
         } else {
          if i < 12 {
           Table::row(-762652800, 7200, 0, "IST")
          } else {
           Table::row(-748310400, 7200, 3600, "IDT")
          }
         }
        } else {
         if i < 15 {
          if i < 14 {
           Table::row(-731116800, 7200, 0, "IST")
          } else {
           Table::row(-681955200, 7200, 7200, "IDDT")
          }
         } else {
          if i < 16 {
           Table::row(-673228800, 7200, 3600, "IDT")
          } else {
           if i < 17 {
            Table::row(-667958400, 7200, 0, "IST")
           } else {
            Table::row(-652320000, 7200, 3600, "IDT")
           }
          }
         }
        }
       }
      } else {
       if i < 27 {
        if i < 22 {
         if i < 20 {
          if i < 19 {
           Table::row(-636422400, 7200, 0, "IST")
          } else {
           Table::row(-622080000, 7200, 3600, "IDT")
          }
         } else {
          if i < 21 {
           Table::row(-608947200, 7200, 0, "IST")
          } else {
           Table::row(-591840000, 7200, 3600, "IDT")
          }
         }
        } else {
         if i < 24 {
          if i < 23 {
           Table::row(-572486400, 7200, 0, "IST")
          } else {
           Table::row(-558576000, 7200, 3600, "IDT")
          }
         } else {
          if i < 25 {
           Table::row(-542851200, 7200, 0, "IST")
          } else {
           if i < 26 {
            Table::row(-527731200, 7200, 3600, "IDT")
           } else {
            Table::row(-514425600, 7200, 0, "IST")
           }
          }
         }
        }
       } else {
        if i < 32 {
         if i < 29 {
          if i < 28 {
           Table::row(-490838400, 7200, 3600, "IDT")
          } else {
           Table::row(-482976000, 7200, 0, "IST")
          }
         } else {
          if i < 30 {
           Table::row(-459388800, 7200, 3600, "IDT")
          } else {
           if i < 31 {
            Table::row(-451526400, 7200, 0, "IST")
           } else {
            Table::row(-428544000, 7200, 3600, "IDT")
           }
          }
         }
        } else {
         if i < 34 {
          if i < 33 {
           Table::row(-418262400, 7200, 0, "IST")
          } else {
           Table::row(-400118400, 7200, 3600, "IDT")
          }
         } else {
          if i < 35 {
           Table::row(-387417600, 7200, 0, "IST")
          } else {
           if i < 36 {
            Table::row(142380000, 7200, 3600, "IDT")
           } else {
            Table::row(150843600, 7200, 0, "IST")
           }
          }
         }
        }
       }
      }
     } else {
      if i < 55 {
       if i < 46 {
        if i < 41 {
         if i < 39 {
          if i < 38 {
           Table::row(167176800, 7200, 3600, "IDT")
          } else {
           Table::row(178664400, 7200, 0, "IST")
          }
         } else {
          if i < 40 {
           Table::row(334101600, 7200, 3600, "IDT")
          } else {
           Table::row(337730400, 7200, 0, "IST")
          }
         }
        } else {
         if i < 43 {
          if i < 42 {
           Table::row(452642400, 7200, 3600, "IDT")
          } else {
           Table::row(462319200, 7200, 0, "IST")
          }
         } else {
          if i < 44 {
           Table::row(482277600, 7200, 3600, "IDT")
          } else {
           if i < 45 {
            Table::row(494370000, 7200, 0, "IST")
           } else {
            Table::row(516751200, 7200, 3600, "IDT")
           }
          }
         }
        }
       } else {
        if i < 50 {
         if i < 48 {
          if i < 47 {
           Table::row(526424400, 7200, 0, "IST")
          } else {
           Table::row(545436000, 7200, 3600, "IDT")
          }
         } else {
          if i < 49 {
           Table::row(558478800, 7200, 0, "IST")
          } else {
           Table::row(576626400, 7200, 3600, "IDT")
          }
         }
        } else {
         if i < 52 {
          if i < 51 {
           Table::row(589323600, 7200, 0, "IST")
          } else {
           Table::row(609890400, 7200, 3600, "IDT")
          }
         } else {
          if i < 53 {
           Table::row(620773200, 7200, 0, "IST")
          } else {
           if i < 54 {
            Table::row(638316000, 7200, 3600, "IDT")
           } else {
            Table::row(651618000, 7200, 0, "IST")
           }
          }
         }
        }
       }
      } else {
       if i < 64 {
        if i < 59 {
         if i < 57 {
          if i < 56 {
           Table::row(669765600, 7200, 3600, "IDT")
          } else {
           Table::row(683672400, 7200, 0, "IST")
          }
         } else {
          if i < 58 {
           Table::row(701820000, 7200, 3600, "IDT")
          } else {
           Table::row(715726800, 7200, 0, "IST")
          }
         }
        } else {
         if i < 61 {
          if i < 60 {
           Table::row(733701600, 7200, 3600, "IDT")
          } else {
           Table::row(747176400, 7200, 0, "IST")
          }
         } else {
          if i < 62 {
           Table::row(765151200, 7200, 3600, "IDT")
          } else {
           if i < 63 {
            Table::row(778021200, 7200, 0, "IST")
           } else {
            Table::row(796600800, 7200, 3600, "IDT")
           }
          }
         }
        }
       } else {
        if i < 69 {
         if i < 66 {
          if i < 65 {
           Table::row(810075600, 7200, 0, "IST")
          } else {
           Table::row(826840800, 7200, 3600, "IDT")
          }
         } else {
          if i < 67 {
           Table::row(842821200, 7200, 0, "IST")
          } else {
           if i < 68 {
            Table::row(858895200, 7200, 3600, "IDT")
           } else {
            Table::row(874184400, 7200, 0, "IST")
           }
          }
         }
        } else {
         if i < 71 {
          if i < 70 {
           Table::row(890344800, 7200, 3600, "IDT")
          } else {
           Table::row(905029200, 7200, 0, "IST")
          }
         } else {
          if i < 72 {
           Table::row(923011200, 7200, 3600, "IDT")
          } else {
           if i < 73 {
            Table::row(936313200, 7200, 0, "IST")
           } else {
            Table::row(955670400, 7200, 3600, "IDT")
           }
          }
         }
        }
       }
      }
     }
    } else {
     if i < 111 {
      if i < 92 {
       if i < 83 {
        if i < 78 {
         if i < 76 {
          if i < 75 {
           Table::row(970783200, 7200, 0, "IST")
          } else {
           Table::row(986770800, 7200, 3600, "IDT")
          }
         } else {
          if i < 77 {
           Table::row(1001282400, 7200, 0, "IST")
          } else {
           Table::row(1017356400, 7200, 3600, "IDT")
          }
         }
        } else {
         if i < 80 {
          if i < 79 {
           Table::row(1033941600, 7200, 0, "IST")
          } else {
           Table::row(1048806000, 7200, 3600, "IDT")
          }
         } else {
          if i < 81 {
           Table::row(1065132000, 7200, 0, "IST")
          } else {
           if i < 82 {
            Table::row(1081292400, 7200, 3600, "IDT")
           } else {
            Table::row(1095804000, 7200, 0, "IST")
           }
          }
         }
        }
       } else {
        if i < 87 {
         if i < 85 {
          if i < 84 {
           Table::row(1112313600, 7200, 3600, "IDT")
          } else {
           Table::row(1128812400, 7200, 0, "IST")
          }
         } else {
          if i < 86 {
           Table::row(1143763200, 7200, 3600, "IDT")
          } else {
           Table::row(1159657200, 7200, 0, "IST")
          }
         }
        } else {
         if i < 89 {
          if i < 88 {
           Table::row(1175212800, 7200, 3600, "IDT")
          } else {
           Table::row(1189897200, 7200, 0, "IST")
          }
         } else {
          if i < 90 {
           Table::row(1206662400, 7200, 3600, "IDT")
          } else {
           if i < 91 {
            Table::row(1223161200, 7200, 0, "IST")
           } else {
            Table::row(1238112000, 7200, 3600, "IDT")
           }
          }
         }
        }
       }
      } else {
       if i < 101 {
        if i < 96 {
         if i < 94 {
          if i < 93 {
           Table::row(1254006000, 7200, 0, "IST")
          } else {
           Table::row(1269561600, 7200, 3600, "IDT")
          }
         } else {
          if i < 95 {
           Table::row(1284246000, 7200, 0, "IST")
          } else {
           Table::row(1301616000, 7200, 3600, "IDT")
          }
         }
        } else {
         if i < 98 {
          if i < 97 {
           Table::row(1317510000, 7200, 0, "IST")
          } else {
           Table::row(1333065600, 7200, 3600, "IDT")
          }
         } else {
          if i < 99 {
           Table::row(1348354800, 7200, 0, "IST")
          } else {
           if i < 100 {
            Table::row(1364515200, 7200, 3600, "IDT")
           } else {
            Table::row(1382828400, 7200, 0, "IST")
           }
          }
         }
        }
       } else {
        if i < 106 {
         if i < 103 {
          if i < 102 {
           Table::row(1395964800, 7200, 3600, "IDT")
          } else {
           Table::row(1414278000, 7200, 0, "IST")
          }
         } else {
          if i < 104 {
           Table::row(1427414400, 7200, 3600, "IDT")
          } else {
           if i < 105 {
            Table::row(1445727600, 7200, 0, "IST")
           } else {
            Table::row(1458864000, 7200, 3600, "IDT")
           }
          }
         }
        } else {
         if i < 108 {
          if i < 107 {
           Table::row(1477782000, 7200, 0, "IST")
          } else {
           Table::row(1490313600, 7200, 3600, "IDT")
          }
         } else {
          if i < 109 {
           Table::row(1509231600, 7200, 0, "IST")
          } else {
           if i < 110 {
            Table::row(1521763200, 7200, 3600, "IDT")
           } else {
            Table::row(1540681200, 7200, 0, "IST")
           }
          }
         }
        }
       }
      }
     } else {
      if i < 130 {
       if i < 120 {
        if i < 115 {
         if i < 113 {
          if i < 112 {
           Table::row(1553817600, 7200, 3600, "IDT")
          } else {
           Table::row(1572130800, 7200, 0, "IST")
          }
         } else {
          if i < 114 {
           Table::row(1585267200, 7200, 3600, "IDT")
          } else {
           Table::row(1603580400, 7200, 0, "IST")
          }
         }
        } else {
         if i < 117 {
          if i < 116 {
           Table::row(1616716800, 7200, 3600, "IDT")
          } else {
           Table::row(1635634800, 7200, 0, "IST")
          }
         } else {
          if i < 118 {
           Table::row(1648166400, 7200, 3600, "IDT")
          } else {
           if i < 119 {
            Table::row(1667084400, 7200, 0, "IST")
           } else {
            Table::row(1679616000, 7200, 3600, "IDT")
           }
          }
         }
        }
       } else {
        if i < 125 {
         if i < 122 {
          if i < 121 {
           Table::row(1698534000, 7200, 0, "IST")
          } else {
           Table::row(1711670400, 7200, 3600, "IDT")
          }
         } else {
          if i < 123 {
           Table::row(1729983600, 7200, 0, "IST")
          } else {
           if i < 124 {
            Table::row(1743120000, 7200, 3600, "IDT")
           } else {
            Table::row(1761433200, 7200, 0, "IST")
           }
          }
         }
        } else {
         if i < 127 {
          if i < 126 {
           Table::row(1774569600, 7200, 3600, "IDT")
          } else {
           Table::row(1792882800, 7200, 0, "IST")
          }
         } else {
          if i < 128 {
           Table::row(1806019200, 7200, 3600, "IDT")
          } else {
           if i < 129 {
            Table::row(1824937200, 7200, 0, "IST")
           } else {
            Table::row(1837468800, 7200, 3600, "IDT")
           }
          }
         }
        }
       }
      } else {
       if i < 139 {
        if i < 134 {
         if i < 132 {
          if i < 131 {
           Table::row(1856386800, 7200, 0, "IST")
          } else {
           Table::row(1868918400, 7200, 3600, "IDT")
          }
         } else {
          if i < 133 {
           Table::row(1887836400, 7200, 0, "IST")
          } else {
           Table::row(1900972800, 7200, 3600, "IDT")
          }
         }
        } else {
         if i < 136 {
          if i < 135 {
           Table::row(1919286000, 7200, 0, "IST")
          } else {
           Table::row(1932422400, 7200, 3600, "IDT")
          }
         } else {
          if i < 137 {
           Table::row(1950735600, 7200, 0, "IST")
          } else {
           if i < 138 {
            Table::row(1963872000, 7200, 3600, "IDT")
           } else {
            Table::row(1982790000, 7200, 0, "IST")
           }
          }
         }
        }
       } else {
        if i < 144 {
         if i < 141 {
          if i < 140 {
           Table::row(1995321600, 7200, 3600, "IDT")
          } else {
           Table::row(2014239600, 7200, 0, "IST")
          }
         } else {
          if i < 142 {
           Table::row(2026771200, 7200, 3600, "IDT")
          } else {
           if i < 143 {
            Table::row(2045689200, 7200, 0, "IST")
           } else {
            Table::row(2058220800, 7200, 3600, "IDT")
           }
          }
         }
        } else {
         if i < 146 {
          if i < 145 {
           Table::row(2077138800, 7200, 0, "IST")
          } else {
           Table::row(2090275200, 7200, 3600, "IDT")
          }
         } else {
          if i < 147 {
           Table::row(2108588400, 7200, 0, "IST")
          } else {
           if i < 148 {
            Table::row(2121724800, 7200, 3600, "IDT")
           } else {
            Table::row(2140038000, 7200, 0, "IST")
           }
          }
         }
        }
       }
      }
     }
    }
}

/// The rows of the table of the zone `Israel`.
pub open spec fn israel_rows() -> spec_fn(int) -> (i64, FixedTimespan) {
    |i: int| israel_row(i)
}

/// The table of the zone `Israel`.
pub open spec fn israel() -> Table {
    Table::listed(Table::row(0, 8454, 0, "LMT").1, 149, israel_rows())
}

/// Row `i` of the table of the zone `Jamaica`.
pub open spec fn jamaica_row(i: int) -> (i64, FixedTimespan) {
    if i < 11 {
     if i < 5 {
      if i < 2 {
       if i < 1 {
        Table::row(-2524503170, -18430, 0, "KMT")
       } else {
        Table::row(-1827687170, -18000, 0, "EST")
       }
      } else {
       if i < 3 {
        Table::row(126687600, -18000, 3600, "EDT")
       } else {
        if i < 4 {
         Table::row(152085600, -18000, 0, "EST")
        } else {
         Table::row(162370800, -18000, 3600, "EDT")
        }
       }
      }
     } else {
      if i < 8 {
       if i < 6 {
        Table::row(183535200, -18000, 0, "EST")
       } else {
        if i < 7 {
         Table::row(199263600, -18000, 3600, "EDT")
        } else {
         Table::row(215589600, -18000, 0, "EST")
        }
       }
      } else {
       if i < 9 {
        Table::row(230713200, -18000, 3600, "EDT")
       } else {
        if i < 10 {
         Table::row(247039200, -18000, 0, "EST")
        } else {
         Table::row(262767600, -18000, 3600, "EDT")
        }
       }
      }
     }
    } else {
     if i < 16 {
      if i < 13 {
       if i < 12 {
        Table::row(278488800, -18000, 0, "EST")
       } else {
        Table::row(294217200, -18000, 3600, "EDT")
       }
      } else {
       if i < 14 {
        Table::row(309938400, -18000, 0, "EST")
       } else {
        if i < 15 {
         Table::row(325666800, -18000, 3600, "EDT")
        } else {
         Table::row(341388000, -18000, 0, "EST")
        }
       }
      }
     } else {
      if i < 19 {
       if i < 17 {
        Table::row(357116400, -18000, 3600, "EDT")
       } else {
        if i < 18 {
         Table::row(372837600, -18000, 0, "EST")
        } else {
         Table::row(388566000, -18000, 3600, "EDT")
        }
       }
      } else {
       if i < 20 {
        Table::row(404892000, -18000, 0, "EST")
       } else {
        if i < 21 {
         Table::row(420015600, -18000, 3600, "EDT")
        } else {
         Table::row(436341600, -18000, 0, "EST")
        }
       }
      }
     }
    }
}

/// The rows of the table of the zone `Jamaica`.
pub open spec fn jamaica_rows() -> spec_fn(int) -> (i64, FixedTimespan) {
    |i: int| jamaica_row(i)
}

/// The table of the zone `Jamaica`.
pub open spec fn jamaica() -> Table {
    Table::listed(Table::row(0, -18430, 0, "LMT").1, 22, jamaica_rows())
}

/// Row `i` of the table of the zone `Japan`.
pub open spec fn japan_row(i: int) -> (i64, FixedTimespan) {
    if i < 4 {
     if i < 2 {
      if i < 1 {
       Table::row(-2587712400, 32400, 0, "JST")
      } else {
       Table::row(-683802000, 32400, 3600, "JDT")
      }
     } else {
      if i < 3 {
       Table::row(-672310800, 32400, 0, "JST")
      } else {
       Table::row(-654771600, 32400, 3600, "JDT")
      }
     }
    } else {
     if i < 6 {
      if i < 5 {
       Table::row(-640861200, 32400, 0, "JST")
      } else {
       Table::row(-620298000, 32400, 3600, "JDT")
      }
     } else {
      if i < 7 {
       Table::row(-609411600, 32400, 0, "JST")
      } else {
       if i < 8 {
        Table::row(-588848400, 32400, 3600, "JDT")
       } else {
        Table::row(-577962000, 32400, 0, "JST")
       }
      }
     }
    }
}

/// The rows of the table of the zone `Japan`.
pub open spec fn japan_rows() -> spec_fn(int) -> (i64, FixedTimespan) {
    |i: int| japan_row(i)
}

/// The table of the zone `Japan`.
pub open spec fn japan() -> Table {
    Table::listed(Table::row(0, 33539, 0, "LMT").1, 9, japan_rows())
}

/// Row `i` of the table of the zone `Kwajalein`.
pub open spec fn kwajalein_row(i: int) -> (i64, FixedTimespan) {
    if i < 3 {
     if i < 1 {
      Table::row(-2177492960, 39600, 0, "+11")
     } else {
      if i < 2 {
       Table::row(-1041418800, 36000, 0, "+10")
      } else {
       Table::row(-907408800, 32400, 0, "+09")
      }
     }
    } else {
     if i < 5 {
      if i < 4 {
       Table::row(-817462800, 39600, 0, "+11")
      } else {
       Table::row(-7988400, -43200, 0, "-12")
      }
     } else {
      if i < 6 {
       Table::row(745934400, 43200, 0, "+12")
      } else {
       Table::row(2147483647, 43200, 0, "+12")
      }
     }
    }
}

/// The rows of the table of the zone `Kwajalein`.
pub open spec fn kwajalein_rows() -> spec_fn(int) -> (i64, FixedTimespan) {
    |i: int| kwajalein_row(i)
}

/// The table of the zone `Kwajalein`.
pub open spec fn kwajalein() -> Table {
    Table::listed(Table::row(0, 40160, 0, "LMT").1, 7, kwajalein_rows())
}

/// Row `i` of the table of the zone `Libya`.
pub open spec fn libya_row(i: int) -> (i64, FixedTimespan) {
    if i < 16 {
     if i < 8 {
      if i < 4 {
       if i < 2 {
        if i < 1 {
         Table::row(-1577926364, 3600, 0, "CET")
        } else {
         Table::row(-574902000, 3600, 3600, "CEST")
        }
       } else {
        if i < 3 {
         Table::row(-568087200, 3600, 0, "CET")
        } else {
         Table::row(-512175600, 3600, 3600, "CEST")
        }
       }
      } else {
       if i < 6 {
        if i < 5 {
         Table::row(-504928800, 3600, 0, "CET")
        } else {
         Table::row(-449888400, 3600, 3600, "CEST")
        }
       } else {
        if i < 7 {
         Table::row(-441856800, 3600, 0, "CET")
        } else {
         Table::row(-347158800, 7200, 0, "EET")
        }
       }
      }
     } else {
      if i < 12 {
       if i < 10 {
        if i < 9 {
         Table::row(378684000, 3600, 0, "CET")
        } else {
         Table::row(386463600, 3600, 3600, "CEST")
        }
       } else {
        if i < 11 {
         Table::row(402271200, 3600, 0, "CET")
        } else {
         Table::row(417999600, 3600, 3600, "CEST")
        }
       }
      } else {
       if i < 14 {
        if i < 13 {
         Table::row(433807200, 3600, 0, "CET")
        } else {
         Table::row(449622000, 3600, 3600, "CEST")
        }
       } else {
        if i < 15 {
         Table::row(465429600, 3600, 0, "CET")
        } else {
         Table::row(481590000, 3600, 3600, "CEST")
        }
       }
      }
     }
    } else {
     if i < 24 {
      if i < 20 {
       if i < 18 {
        if i < 17 {
         Table::row(496965600, 3600, 0, "CET")
        } else {
         Table::row(512953200, 3600, 3600, "CEST")
        }
       } else {
        if i < 19 {
         Table::row(528674400, 3600, 0, "CET")
        } else {
         Table::row(544230000, 3600, 3600, "CEST")
        }
       }
      } else {
       if i < 22 {
        if i < 21 {
         Table::row(560037600, 3600, 0, "CET")
        } else {
         Table::row(575852400, 3600, 3600, "CEST")
        }
       } else {
        if i < 23 {
         Table::row(591660000, 3600, 0, "CET")
        } else {
         Table::row(607388400, 3600, 3600, "CEST")
        }
       }
      }
     } else {
      if i < 28 {
       if i < 26 {
        if i < 25 {
         Table::row(623196000, 3600, 0, "CET")
        } else {
         Table::row(641775600, 7200, 0, "EET")
        }
       } else {
        if i < 27 {
         Table::row(844034400, 3600, 0, "CET")
        } else {
         Table::row(860108400, 3600, 3600, "CEST")
        }
       }
      } else {
       if i < 30 {
        if i < 29 {
         Table::row(875916000, 7200, 0, "EET")
        } else {
         Table::row(1352505600, 3600, 0, "CET")
        }
       } else {
        if i < 31 {
         Table::row(1364515200, 3600, 3600, "CEST")
        } else {
         Table::row(1382659200, 7200, 0, "EET")
        }
       }
      }
     }
    }
}

/// The rows of the table of the zone `Libya`.
pub open spec fn libya_rows() -> spec_fn(int) -> (i64, FixedTimespan) {
    |i: int| libya_row(i)
}

/// The table of the zone `Libya`.
pub open spec fn libya() -> Table {
    Table::listed(Table::row(0, 3164, 0, "LMT").1, 32, libya_rows())
}

/// Row `i` of the table of the zone `MET`.
pub open spec fn met_row(i: int) -> (i64, FixedTimespan) {
    if i < 68 {
     if i < 34 {
      if i < 17 {
       if i < 8 {
        if i < 4 {
         if i < 2 {
          if i < 1 {
           Table::row(-1693706400, 3600, 3600, "MEST")
          } else {
           Table::row(-1680483600, 3600, 0, "MET")
          }
         } else {
          if i < 3 {
           Table::row(-1663455600, 3600, 3600, "MEST")
          } else {
           Table::row(-1650150000, 3600, 0, "MET")
          }
         }
        } else {
         if i < 6 {
          if i < 5 {
           Table::row(-1632006000, 3600, 3600, "MEST")
          } else {
           Table::row(-1618700400, 3600, 0, "MET")
          }
         } else {
          if i < 7 {
           Table::row(-938905200, 3600, 3600, "MEST")
          } else {
           Table::row(-857257200, 3600, 0, "MET")
          }
         }
        }
       } else {
        if i < 12 {
         if i < 10 {
          if i < 9 {
           Table::row(-844556400, 3600, 3600, "MEST")
          } else {
           Table::row(-828226800, 3600, 0, "MET")
          }
         } else {
          if i < 11 {
           Table::row(-812502000, 3600, 3600, "MEST")
          } else {
           Table::row(-796777200, 3600, 0, "MET")
          }
         }
        } else {
         if i < 14 {
          if i < 13 {
           Table::row(-781052400, 3600, 3600, "MEST")
          } else {
           Table::row(-766623600, 3600, 0, "MET")
          }
         } else {
          if i < 15 {
           Table::row(228877200, 3600, 3600, "MEST")
          } else {
           if i < 16 {
            Table::row(243997200, 3600, 0, "MET")
           } else {
            Table::row(260326800, 3600, 3600, "MEST")
           }
          }
         }
        }
       }
      } else {
       if i < 25 {
        if i < 21 {
         if i < 19 {
          if i < 18 {
           Table::row(276051600, 3600, 0, "MET")
          } else {
           Table::row(291776400, 3600, 3600, "MEST")
          }
         } else {
          if i < 20 {
           Table::row(307501200, 3600, 0, "MET")
          } else {
           Table::row(323830800, 3600, 3600, "MEST")
          }
         }
        } else {
         if i < 23 {
          if i < 22 {
           Table::row(338950800, 3600, 0, "MET")
          } else {
           Table::row(354675600, 3600, 3600, "MEST")
          }
         } else {
          if i < 24 {
           Table::row(370400400, 3600, 0, "MET")
          } else {
           Table::row(386125200, 3600, 3600, "MEST")
          }
         }
        }
       } else {
        if i < 29 {
         if i < 27 {
          if i < 26 {
           Table::row(401850000, 3600, 0, "MET")
          } else {
           Table::row(417574800, 3600, 3600, "MEST")
          }
         } else {
          if i < 28 {
           Table::row(433299600, 3600, 0, "MET")
          } else {
           Table::row(449024400, 3600, 3600, "MEST")
          }
         }
        } else {
         if i < 31 {
          if i < 30 {
           Table::row(465354000, 3600, 0, "MET")
          } else {
           Table::row(481078800, 3600, 3600, "MEST")
          }
         } else {
          if i < 32 {
           Table::row(496803600, 3600, 0, "MET")
          } else {
           if i < 33 {
            Table::row(512528400, 3600, 3600, "MEST")
           } else {
            Table::row(528253200, 3600, 0, "MET")
           }
          }
         }
        }
       }
      }
     } else {
      if i < 51 {
       if i < 42 {
        if i < 38 {
         if i < 36 {
          if i < 35 {
           Table::row(543978000, 3600, 3600, "MEST")
          } else {
           Table::row(559702800, 3600, 0, "MET")
          }
         } else {
          if i < 37 {
           Table::row(575427600, 3600, 3600, "MEST")
          } else {
           Table::row(591152400, 3600, 0, "MET")
          }
         }
        } else {
         if i < 40 {
          if i < 39 {
           Table::row(606877200, 3600, 3600, "MEST")
          } else {
           Table::row(622602000, 3600, 0, "MET")
          }
         } else {
          if i < 41 {
           Table::row(638326800, 3600, 3600, "MEST")
          } else {
           Table::row(654656400, 3600, 0, "MET")
          }
         }
        }
       } else {
        if i < 46 {
         if i < 44 {
          if i < 43 {
           Table::row(670381200, 3600, 3600, "MEST")
          } else {
           Table::row(686106000, 3600, 0, "MET")
          }
         } else {
          if i < 45 {
           Table::row(701830800, 3600, 3600, "MEST")
          } else {
           Table::row(717555600, 3600, 0, "MET")
          }
         }
        } else {
         if i < 48 {
          if i < 47 {
           Table::row(733280400, 3600, 3600, "MEST")
          } else {
           Table::row(749005200, 3600, 0, "MET")
          }
         } else {
          if i < 49 {
           Table::row(764730000, 3600, 3600, "MEST")
          } else {
           if i < 50 {
            Table::row(780454800, 3600, 0, "MET")
           } else {
            Table::row(796179600, 3600, 3600, "MEST")
           }
          }
         }
        }
       }
      } else {
       if i < 59 {
        if i < 55 {
         if i < 53 {
          if i < 52 {
           Table::row(811904400, 3600, 0, "MET")
          } else {
           Table::row(828234000, 3600, 3600, "MEST")
          }
         } else {
          if i < 54 {
           Table::row(846378000, 3600, 0, "MET")
          } else {
           Table::row(859683600, 3600, 3600, "MEST")
          }
         }
        } else {
         if i < 57 {
          if i < 56 {
           Table::row(877827600, 3600, 0, "MET")
          } else {
           Table::row(891133200, 3600, 3600, "MEST")
          }
         } else {
          if i < 58 {
           Table::row(909277200, 3600, 0, "MET")
          } else {
           Table::row(922582800, 3600, 3600, "MEST")
          }
         }
        }
       } else {
        if i < 63 {
         if i < 61 {
          if i < 60 {
           Table::row(941331600, 3600, 0, "MET")
          } else {
           Table::row(954032400, 3600, 3600, "MEST")
          }
         } else {
          if i < 62 {
           Table::row(972781200, 3600, 0, "MET")
          } else {
           Table::row(985482000, 3600, 3600, "MEST")
          }
         }
        } else {
         if i < 65 {
          if i < 64 {
           Table::row(1004230800, 3600, 0, "MET")
          } else {
           Table::row(1017536400, 3600, 3600, "MEST")
          }
         } else {
          if i < 66 {
           Table::row(1035680400, 3600, 0, "MET")
          } else {
           if i < 67 {
            Table::row(1048986000, 3600, 3600, "MEST")
           } else {
            Table::row(1067130000, 3600, 0, "MET")
           }
          }
         }
        }
       }
      }
     }
    } else {
     if i < 102 {
      if i < 85 {
       if i < 76 {
        if i < 72 {
         if i < 70 {
          if i < 69 {
           Table::row(1080435600, 3600, 3600, "MEST")
          } else {
           Table::row(1099184400, 3600, 0, "MET")
          }
         } else {
          if i < 71 {
           Table::row(1111885200, 3600, 3600, "MEST")
          } else {
           Table::row(1130634000, 3600, 0, "MET")
          }
         }
        } else {
         if i < 74 {
          if i < 73 {
           Table::row(1143334800, 3600, 3600, "MEST")
          } else {
           Table::row(1162083600, 3600, 0, "MET")
          }
         } else {
          if i < 75 {
           Table::row(1174784400, 3600, 3600, "MEST")
          } else {
           Table::row(1193533200, 3600, 0, "MET")
          }
         }
        }
       } else {
        if i < 80 {
         if i < 78 {
          if i < 77 {
           Table::row(1206838800, 3600, 3600, "MEST")
          } else {
           Table::row(1224982800, 3600, 0, "MET")
          }
         } else {
          if i < 79 {
           Table::row(1238288400, 3600, 3600, "MEST")
          } else {
           Table::row(1256432400, 3600, 0, "MET")
          }
         }
        } else {
         if i < 82 {
          if i < 81 {
           Table::row(1269738000, 3600, 3600, "MEST")
          } else {
           Table::row(1288486800, 3600, 0, "MET")
          }
         } else {
          if i < 83 {
           Table::row(1301187600, 3600, 3600, "MEST")
          } else {
           if i < 84 {
            Table::row(1319936400, 3600, 0, "MET")
           } else {
            Table::row(1332637200, 3600, 3600, "MEST")
           }
          }
         }
        }
       }
      } else {
       if i < 93 {
        if i < 89 {
         if i < 87 {
          if i < 86 {
           Table::row(1351386000, 3600, 0, "MET")
          } else {
           Table::row(1364691600, 3600, 3600, "MEST")
          }
         } else {
          if i < 88 {
           Table::row(1382835600, 3600, 0, "MET")
          } else {
           Table::row(1396141200, 3600, 3600, "MEST")
          }
         }
        } else {
         if i < 91 {
          if i < 90 {
           Table::row(1414285200, 3600, 0, "MET")
          } else {
           Table::row(1427590800, 3600, 3600, "MEST")
          }
         } else {
          if i < 92 {
           Table::row(1445734800, 3600, 0, "MET")
          } else {
           Table::row(1459040400, 3600, 3600, "MEST")
          }
         }
        }
       } else {
        if i < 97 {
         if i < 95 {
          if i < 94 {
           Table::row(1477789200, 3600, 0, "MET")
          } else {
           Table::row(1490490000, 3600, 3600, "MEST")
          }
         } else {
          if i < 96 {
           Table::row(1509238800, 3600, 0, "MET")
          } else {
           Table::row(1521939600, 3600, 3600, "MEST")
          }
         }
        } else {
         if i < 99 {
          if i < 98 {
           Table::row(1540688400, 3600, 0, "MET")
          } else {
           Table::row(1553994000, 3600, 3600, "MEST")
          }
         } else {
          if i < 100 {
           Table::row(1572138000, 3600, 0, "MET")
          } else {
           if i < 101 {
            Table::row(1585443600, 3600, 3600, "MEST")
           } else {
            Table::row(1603587600, 3600, 0, "MET")
           }
          }
         }
        }
       }
      }
     } else {
      if i < 119 {
       if i < 110 {
        if i < 106 {
         if i < 104 {
          if i < 103 {
           Table::row(1616893200, 3600, 3600, "MEST")
          } else {
           Table::row(1635642000, 3600, 0, "MET")
          }
         } else {
          if i < 105 {
           Table::row(1648342800, 3600, 3600, "MEST")
          } else {
           Table::row(1667091600, 3600, 0, "MET")
          }
         }
        } else {
         if i < 108 {
          if i < 107 {
           Table::row(1679792400, 3600, 3600, "MEST")
          } else {
           Table::row(1698541200, 3600, 0, "MET")
          }
         } else {
          if i < 109 {
           Table::row(1711846800, 3600, 3600, "MEST")
          } else {
           Table::row(1729990800, 3600, 0, "MET")
          }
         }
        }
       } else {
        if i < 114 {
         if i < 112 {
          if i < 111 {
           Table::row(1743296400, 3600, 3600, "MEST")
          } else {
           Table::row(1761440400, 3600, 0, "MET")
          }
         } else {
          if i < 113 {
           Table::row(1774746000, 3600, 3600, "MEST")
          } else {
           Table::row(1792890000, 3600, 0, "MET")
          }
         }
        } else {
         if i < 116 {
          if i < 115 {
           Table::row(1806195600, 3600, 3600, "MEST")
          } else {
           Table::row(1824944400, 3600, 0, "MET")
          }
         } else {
          if i < 117 {
           Table::row(1837645200, 3600, 3600, "MEST")
          } else {
           if i < 118 {
            Table::row(1856394000, 3600, 0, "MET")
           } else {
            Table::row(1869094800, 3600, 3600, "MEST")
           }
          }
         }
        }
       }
      } else {
       if i < 127 {
        if i < 123 {
         if i < 121 {
          if i < 120 {
           Table::row(1887843600, 3600, 0, "MET")
          } else {
           Table::row(1901149200, 3600, 3600, "MEST")
          }
         } else {
          if i < 122 {
           Table::row(1919293200, 3600, 0, "MET")
          } else {
           Table::row(1932598800, 3600, 3600, "MEST")
          }
         }
        } else {
         if i < 125 {
          if i < 124 {
           Table::row(1950742800, 3600, 0, "MET")
          } else {
           Table::row(1964048400, 3600, 3600, "MEST")
          }
         } else {
          if i < 126 {
           Table::row(1982797200, 3600, 0, "MET")
          } else {
           Table::row(1995498000, 3600, 3600, "MEST")
          }
         }
        }
       } else {
        if i < 131 {
         if i < 129 {
          if i < 128 {
           Table::row(2014246800, 3600, 0, "MET")
          } else {
           Table::row(2026947600, 3600, 3600, "MEST")
          }
         } else {
          if i < 130 {
           Table::row(2045696400, 3600, 0, "MET")
          } else {
           Table::row(2058397200, 3600, 3600, "MEST")
          }
         }
        } else {
         if i < 133 {
          if i < 132 {
           Table::row(2077146000, 3600, 0, "MET")
          } else {
           Table::row(2090451600, 3600, 3600, "MEST")
          }
         } else {
          if i < 134 {
           Table::row(2108595600, 3600, 0, "MET")
          } else {
           if i < 135 {
            Table::row(2121901200, 3600, 3600, "MEST")
           } else {
            Table::row(2140045200, 3600, 0, "MET")
           }
          }
         }
        }
       }
      }
     }
    }
}

/// The rows of the table of the zone `MET`.
pub open spec fn met_rows() -> spec_fn(int) -> (i64, FixedTimespan) {
    |i: int| met_row(i)
}

/// The table of the zone `MET`.
pub open spec fn met() -> Table {
    Table::listed(Table::row(0, 3600, 0, "MET").1, 136, met_rows())
}

/// Row `i` of the table of the zone `MST`.
pub open spec fn mst_row(i: int) -> (i64, FixedTimespan) {
    Table::row(0, -25200, 0, "MST")
}

/// The rows of the table of the zone `MST`.
pub open spec fn mst_rows() -> spec_fn(int) -> (i64, FixedTimespan) {
    |i: int| mst_row(i)
}

/// The table of the zone `MST`.
pub open spec fn mst() -> Table {
    Table::listed(Table::row(0, -25200, 0, "MST").1, 0, mst_rows())
}

/// Row `i` of the table of the zone `MST7MDT`.
pub open spec fn mst7mdt_row(i: int) -> (i64, FixedTimespan) {
    if i < 74 {
     if i < 37 {
      if i < 18 {
       if i < 9 {
        if i < 4 {
         if i < 2 {
          if i < 1 {
           Table::row(-1633273200, -25200, 3600, "MDT")
          } else {
           Table::row(-1615132800, -25200, 0, "MST")
          }
         } else {
          if i < 3 {
           Table::row(-1601823600, -25200, 3600, "MDT")
          } else {
           Table::row(-1583683200, -25200, 0, "MST")
          }
         }
        } else {
         if i < 6 {
          if i < 5 {
           Table::row(-880210800, -25200, 3600, "MWT")
          } else {
           Table::row(-769395600, -25200, 3600, "MPT")
          }
         } else {
          if i < 7 {
           Table::row(-765388800, -25200, 0, "MST")
          } else {
           if i < 8 {
            Table::row(-84380400, -25200, 3600, "MDT")
           } else {
            Table::row(-68659200, -25200, 0, "MST")
           }
          }
         }
        }
       } else {
        if i < 13 {
         if i < 11 {
          if i < 10 {
           Table::row(-52930800, -25200, 3600, "MDT")
          } else {
           Table::row(-37209600, -25200, 0, "MST")
          }
         } else {
          if i < 12 {
           Table::row(-21481200, -25200, 3600, "MDT")
          } else {
           Table::row(-5760000, -25200, 0, "MST")
          }
         }
        } else {
         if i < 15 {
          if i < 14 {
           Table::row(9968400, -25200, 3600, "MDT")
          } else {
           Table::row(25689600, -25200, 0, "MST")
          }
         } else {
          if i < 16 {
           Table::row(41418000, -25200, 3600, "MDT")
          } else {
           if i < 17 {
            Table::row(57744000, -25200, 0, "MST")
           } else {
            Table::row(73472400, -25200, 3600, "MDT")
           }
          }
         }
        }
       }
      } else {
       if i < 27 {
        if i < 22 {
         if i < 20 {
          if i < 19 {
           Table::row(89193600, -25200, 0, "MST")
          } else {
           Table::row(104922000, -25200, 3600, "MDT")
          }
         } else {
          if i < 21 {
           Table::row(120643200, -25200, 0, "MST")
          } else {
           Table::row(126694800, -25200, 3600, "MDT")
          }
         }
        } else {
         if i < 24 {
          if i < 23 {
           Table::row(152092800, -25200, 0, "MST")
          } else {
           Table::row(162378000, -25200, 3600, "MDT")
          }
         } else {
          if i < 25 {
           Table::row(183542400, -25200, 0, "MST")
          } else {
           if i < 26 {
            Table::row(199270800, -25200, 3600, "MDT")
           } else {
            Table::row(215596800, -25200, 0, "MST")
           }
          }
         }
        }
       } else {
        if i < 32 {
         if i < 29 {
          if i < 28 {
           Table::row(230720400, -25200, 3600, "MDT")
          } else {
           Table::row(247046400, -25200, 0, "MST")
          }
         } else {
          if i < 30 {
           Table::row(262774800, -25200, 3600, "MDT")
          } else {
           if i < 31 {
            Table::row(278496000, -25200, 0, "MST")
           } else {
            Table::row(294224400, -25200, 3600, "MDT")
           }
          }
         }
        } else {
         if i < 34 {
          if i < 33 {
           Table::row(309945600, -25200, 0, "MST")
          } else {
           Table::row(325674000, -25200, 3600, "MDT")
          }
         } else {
          if i < 35 {
           Table::row(341395200, -25200, 0, "MST")
          } else {
           if i < 36 {
            Table::row(357123600, -25200, 3600, "MDT")
           } else {
            Table::row(372844800, -25200, 0, "MST")
           }
          }
         }
        }
       }
      }
     } else {
      if i < 55 {
       if i < 46 {
        if i < 41 {
         if i < 39 {
          if i < 38 {
           Table::row(388573200, -25200, 3600, "MDT")
          } else {
           Table::row(404899200, -25200, 0, "MST")
          }
         } else {
          if i < 40 {
           Table::row(420022800, -25200, 3600, "MDT")
          } else {
           Table::row(436348800, -25200, 0, "MST")
          }
         }
        } else {
         if i < 43 {
          if i < 42 {
           Table::row(452077200, -25200, 3600, "MDT")
          } else {
           Table::row(467798400, -25200, 0, "MST")
          }
         } else {
          if i < 44 {
           Table::row(483526800, -25200, 3600, "MDT")
          } else {
           if i < 45 {
            Table::row(499248000, -25200, 0, "MST")
           } else {
            Table::row(514976400, -25200, 3600, "MDT")
           }
          }
         }
        }
       } else {
        if i < 50 {
         if i < 48 {
          if i < 47 {
           Table::row(530697600, -25200, 0, "MST")
          } else {
           Table::row(544611600, -25200, 3600, "MDT")
          }
         } else {
          if i < 49 {
           Table::row(562147200, -25200, 0, "MST")
          } else {
           Table::row(576061200, -25200, 3600, "MDT")
          }
         }
        } else {
         if i < 52 {
          if i < 51 {
           Table::row(594201600, -25200, 0, "MST")
          } else {
           Table::row(607510800, -25200, 3600, "MDT")
          }
         } else {
          if i < 53 {
           Table::row(625651200, -25200, 0, "MST")
          } else {
           if i < 54 {
            Table::row(638960400, -25200, 3600, "MDT")
           } else {
            Table::row(657100800, -25200, 0, "MST")
           }
          }
         }
        }
       }
      } else {
       if i < 64 {
        if i < 59 {
         if i < 57 {
          if i < 56 {
           Table::row(671014800, -25200, 3600, "MDT")
          } else {
           Table::row(688550400, -25200, 0, "MST")
          }
         } else {
          if i < 58 {
           Table::row(702464400, -25200, 3600, "MDT")
          } else {
           Table::row(720000000, -25200, 0, "MST")
          }
         }
        } else {
         if i < 61 {
          if i < 60 {
           Table::row(733914000, -25200, 3600, "MDT")
          } else {
           Table::row(752054400, -25200, 0, "MST")
          }
         } else {
          if i < 62 {
           Table::row(765363600, -25200, 3600, "MDT")
          } else {
           if i < 63 {
            Table::row(783504000, -25200, 0, "MST")
           } else {
            Table::row(796813200, -25200, 3600, "MDT")
           }
          }
         }
        }
       } else {
        if i < 69 {
         if i < 66 {
          if i < 65 {
           Table::row(814953600, -25200, 0, "MST")
          } else {
           Table::row(828867600, -25200, 3600, "MDT")
          }
         } else {
          if i < 67 {
           Table::row(846403200, -25200, 0, "MST")
          } else {
           if i < 68 {
            Table::row(860317200, -25200, 3600, "MDT")
           } else {
            Table::row(877852800, -25200, 0, "MST")
           }
          }
         }
        } else {
         if i < 71 {
          if i < 70 {
           Table::row(891766800, -25200, 3600, "MDT")
          } else {
           Table::row(909302400, -25200, 0, "MST")
          }
         } else {
          if i < 72 {
           Table::row(923216400, -25200, 3600, "MDT")
          } else {
           if i < 73 {
            Table::row(941356800, -25200, 0, "MST")
           } else {
            Table::row(954666000, -25200, 3600, "MDT")
           }
          }
         }
        }
       }
      }
     }
    } else {
     if i < 111 {
      if i < 92 {
       if i < 83 {
        if i < 78 {
         if i < 76 {
          if i < 75 {
           Table::row(972806400, -25200, 0, "MST")
          } else {
           Table::row(986115600, -25200, 3600, "MDT")
          }
         } else {
          if i < 77 {
           Table::row(1004256000, -25200, 0, "MST")
          } else {
           Table::row(1018170000, -25200, 3600, "MDT")
          }
         }
        } else {
         if i < 80 {
          if i < 79 {
           Table::row(1035705600, -25200, 0, "MST")
          } else {
           Table::row(1049619600, -25200, 3600, "MDT")
          }
         } else {
          if i < 81 {
           Table::row(1067155200, -25200, 0, "MST")
          } else {
           if i < 82 {
            Table::row(1081069200, -25200, 3600, "MDT")
           } else {
            Table::row(1099209600, -25200, 0, "MST")
           }
          }
         }
        }
       } else {
        if i < 87 {
         if i < 85 {
          if i < 84 {
           Table::row(1112518800, -25200, 3600, "MDT")
          } else {
           Table::row(1130659200, -25200, 0, "MST")
          }
         } else {
          if i < 86 {
           Table::row(1143968400, -25200, 3600, "MDT")
          } else {
           Table::row(1162108800, -25200, 0, "MST")
          }
         }
        } else {
         if i < 89 {
          if i < 88 {
           Table::row(1173603600, -25200, 3600, "MDT")
          } else {
           Table::row(1194163200, -25200, 0, "MST")
          }
         } else {
          if i < 90 {
           Table::row(1205053200, -25200, 3600, "MDT")
          } else {
           if i < 91 {
            Table::row(1225612800, -25200, 0, "MST")
           } else {
            Table::row(1236502800, -25200, 3600, "MDT")
           }
          }
         }
        }
       }
      } else {
       if i < 101 {
        if i < 96 {
         if i < 94 {
          if i < 93 {
           Table::row(1257062400, -25200, 0, "MST")
          } else {
           Table::row(1268557200, -25200, 3600, "MDT")
          }
         } else {
          if i < 95 {
           Table::row(1289116800, -25200, 0, "MST")
          } else {
           Table::row(1300006800, -25200, 3600, "MDT")
          }
         }
        } else {
         if i < 98 {
          if i < 97 {
           Table::row(1320566400, -25200, 0, "MST")
          } else {
           Table::row(1331456400, -25200, 3600, "MDT")
          }
         } else {
          if i < 99 {
           Table::row(1352016000, -25200, 0, "MST")
          } else {
           if i < 100 {
            Table::row(1362906000, -25200, 3600, "MDT")
           } else {
            Table::row(1383465600, -25200, 0, "MST")
           }
          }
         }
        }
       } else {
        if i < 106 {
         if i < 103 {
          if i < 102 {
           Table::row(1394355600, -25200, 3600, "MDT")
          } else {
           Table::row(1414915200, -25200, 0, "MST")
          }
         } else {
          if i < 104 {
           Table::row(1425805200, -25200, 3600, "MDT")
          } else {
           if i < 105 {
            Table::row(1446364800, -25200, 0, "MST")
           } else {
            Table::row(1457859600, -25200, 3600, "MDT")
           }
          }
         }
        } else {
         if i < 108 {
          if i < 107 {
           Table::row(1478419200, -25200, 0, "MST")
          } else {
           Table::row(1489309200, -25200, 3600, "MDT")
          }
         } else {
          if i < 109 {
           Table::row(1509868800, -25200, 0, "MST")
          } else {
           if i < 110 {
            Table::row(1520758800, -25200, 3600, "MDT")
           } else {
            Table::row(1541318400, -25200, 0, "MST")
           }
          }
         }
        }
       }
      }
     } else {
      if i < 130 {
       if i < 120 {
        if i < 115 {
         if i < 113 {
          if i < 112 {
           Table::row(1552208400, -25200, 3600, "MDT")
          } else {
           Table::row(1572768000, -25200, 0, "MST")
          }
         } else {
          if i < 114 {
           Table::row(1583658000, -25200, 3600, "MDT")
          } else {
           Table::row(1604217600, -25200, 0, "MST")
          }
         }
        } else {
         if i < 117 {
          if i < 116 {
           Table::row(1615712400, -25200, 3600, "MDT")
          } else {
           Table::row(1636272000, -25200, 0, "MST")
          }
         } else {
          if i < 118 {
           Table::row(1647162000, -25200, 3600, "MDT")
          } else {
           if i < 119 {
            Table::row(1667721600, -25200, 0, "MST")
           } else {
            Table::row(1678611600, -25200, 3600, "MDT")
           }
          }
         }
        }
       } else {
        if i < 125 {
         if i < 122 {
          if i < 121 {
           Table::row(1699171200, -25200, 0, "MST")
          } else {
           Table::row(1710061200, -25200, 3600, "MDT")
          }
         } else {
          if i < 123 {
           Table::row(1730620800, -25200, 0, "MST")
          } else {
           if i < 124 {
            Table::row(1741510800, -25200, 3600, "MDT")
           } else {
            Table::row(1762070400, -25200, 0, "MST")
           }
          }
         }
        } else {
         if i < 127 {
          if i < 126 {
           Table::row(1772960400, -25200, 3600, "MDT")
          } else {
           Table::row(1793520000, -25200, 0, "MST")
          }
         } else {
          if i < 128 {
           Table::row(1805014800, -25200, 3600, "MDT")
          } else {
           if i < 129 {
            Table::row(1825574400, -25200, 0, "MST")
           } else {
            Table::row(1836464400, -25200, 3600, "MDT")
           }
          }
         }
        }
       }
      } else {
       if i < 139 {
        if i < 134 {
         if i < 132 {
          if i < 131 {
           Table::row(1857024000, -25200, 0, "MST")
          } else {
           Table::row(1867914000, -25200, 3600, "MDT")
          }
         } else {
          if i < 133 {
           Table::row(1888473600, -25200, 0, "MST")
          } else {
           Table::row(1899363600, -25200, 3600, "MDT")
          }
         }
        } else {
         if i < 136 {
          if i < 135 {
           Table::row(1919923200, -25200, 0, "MST")
          } else {
           Table::row(1930813200, -25200, 3600, "MDT")
          }
         } else {
          if i < 137 {
           Table::row(1951372800, -25200, 0, "MST")
          } else {
           if i < 138 {
            Table::row(1962867600, -25200, 3600, "MDT")
           } else {
            Table::row(1983427200, -25200, 0, "MST")
           }
          }
         }
        }
       } else {
        if i < 144 {
         if i < 141 {
          if i < 140 {
           Table::row(1994317200, -25200, 3600, "MDT")
          } else {
           Table::row(2014876800, -25200, 0, "MST")
          }
         } else {
          if i < 142 {
           Table::row(2025766800, -25200, 3600, "MDT")
          } else {
           if i < 143 {
            Table::row(2046326400, -25200, 0, "MST")
           } else {
            Table::row(2057216400, -25200, 3600, "MDT")
           }
          }
         }
        } else {
         if i < 146 {
          if i < 145 {
           Table::row(2077776000, -25200, 0, "MST")
          } else {
           Table::row(2088666000, -25200, 3600, "MDT")
          }
         } else {
          if i < 147 {
           Table::row(2109225600, -25200, 0, "MST")
          } else {
           if i < 148 {
            Table::row(2120115600, -25200, 3600, "MDT")
           } else {
            Table::row(2140675200, -25200, 0, "MST")
           }
          }
         }
        }
       }
      }
     }
    }
}

/// The rows of the table of the zone `MST7MDT`.
pub open spec fn mst7mdt_rows() -> spec_fn(int) -> (i64, FixedTimespan) {
    |i: int| mst7mdt_row(i)
}

/// The table of the zone `MST7MDT`.
pub open spec fn mst7mdt() -> Table {
    Table::listed(Table::row(0, -25200, 0, "MST").1, 149, mst7mdt_rows())
}

/// Row `i` of the table of the zone `NZ`.
pub open spec fn nz_row(i: int) -> (i64, FixedTimespan) {
    if i < 78 {
     if i < 39 {
      if i < 19 {
       if i < 9 {
        if i < 4 {
         if i < 2 {
          if i < 1 {
           Table::row(-3192435544, 41400, 0, "NZMT")
          } else {
           Table::row(-1330335000, 41400, 3600, "NZST")
          }
         } else {
          if i < 3 {
           Table::row(-1320057000, 41400, 0, "NZMT")
          } else {
           Table::row(-1300699800, 41400, 1800, "NZST")
          }
         }
        } else {
         if i < 6 {
          if i < 5 {
           Table::row(-1287396000, 41400, 0, "NZMT")
          } else {
           Table::row(-1269250200, 41400, 1800, "NZST")
          }
         } else {
          if i < 7 {
           Table::row(-1255946400, 41400, 0, "NZMT")
          } else {
           if i < 8 {
            Table::row(-1237800600, 41400, 1800, "NZST")
           } else {
            Table::row(-1224496800, 41400, 0, "NZMT")
           }
          }
         }
        }
       } else {
        if i < 14 {
         if i < 11 {
          if i < 10 {
           Table::row(-1206351000, 41400, 1800, "NZST")
          } else {
           Table::row(-1192442400, 41400, 0, "NZMT")
          }
         } else {
          if i < 12 {
           Table::row(-1174901400, 41400, 1800, "NZST")
          } else {
           if i < 13 {
            Table::row(-1160992800, 41400, 0, "NZMT")
           } else {
            Table::row(-1143451800, 41400, 1800, "NZST")
           }
          }
         }
        } else {
         if i < 16 {
          if i < 15 {
           Table::row(-1125914400, 41400, 0, "NZMT")
          } else {
           Table::row(-1112607000, 41400, 1800, "NZST")
          }
         } else {
          if i < 17 {
           Table::row(-1094464800, 41400, 0, "NZMT")
          } else {
           if i < 18 {
            Table::row(-1081157400, 41400, 1800, "NZST")
           } else {
            Table::row(-1063015200, 41400, 0, "NZMT")
           }
          }
         }
        }
       }
      } else {
       if i < 29 {
        if i < 24 {
         if i < 21 {
          if i < 20 {
           Table::row(-1049707800, 41400, 1800, "NZST")
          } else {
           Table::row(-1031565600, 41400, 0, "NZMT")
          }
         } else {
          if i < 22 {
           Table::row(-1018258200, 41400, 1800, "NZST")
          } else {
           if i < 23 {
            Table::row(-1000116000, 41400, 0, "NZMT")
           } else {
            Table::row(-986808600, 41400, 1800, "NZST")
           }
          }
         }
        } else {
         if i < 26 {
          if i < 25 {
           Table::row(-968061600, 41400, 0, "NZMT")
          } else {
           Table::row(-955359000, 41400, 1800, "NZST")
          }
         } else {
          if i < 27 {
           Table::row(-936612000, 41400, 0, "NZMT")
          } else {
           if i < 28 {
            Table::row(-923304600, 41400, 1800, "NZST")
           } else {
            Table::row(-757425600, 43200, 0, "NZST")
           }
          }
         }
        }
       } else {
        if i < 34 {
         if i < 31 {
          if i < 30 {
           Table::row(152632800, 43200, 3600, "NZDT")
          } else {
           Table::row(162309600, 43200, 0, "NZST")
          }
         } else {
          if i < 32 {
           Table::row(183477600, 43200, 3600, "NZDT")
          } else {
           if i < 33 {
            Table::row(194968800, 43200, 0, "NZST")
           } else {
            Table::row(215532000, 43200, 3600, "NZDT")
           }
          }
         }
        } else {
         if i < 36 {
          if i < 35 {
           Table::row(226418400, 43200, 0, "NZST")
          } else {
           Table::row(246981600, 43200, 3600, "NZDT")
          }
         } else {
          if i < 37 {
           Table::row(257868000, 43200, 0, "NZST")
          } else {
           if i < 38 {
            Table::row(278431200, 43200, 3600, "NZDT")
           } else {
            Table::row(289317600, 43200, 0, "NZST")
           }
          }
         }
        }
       }
      }
     } else {
      if i < 58 {
       if i < 48 {
        if i < 43 {
         if i < 41 {
          if i < 40 {
           Table::row(309880800, 43200, 3600, "NZDT")
          } else {
           Table::row(320767200, 43200, 0, "NZST")
          }
         } else {
          if i < 42 {
           Table::row(341330400, 43200, 3600, "NZDT")
          } else {
           Table::row(352216800, 43200, 0, "NZST")
          }
         }
        } else {
         if i < 45 {
          if i < 44 {
           Table::row(372780000, 43200, 3600, "NZDT")
          } else {
           Table::row(384271200, 43200, 0, "NZST")
          }
         } else {
          if i < 46 {
           Table::row(404834400, 43200, 3600, "NZDT")
          } else {
           if i < 47 {
            Table::row(415720800, 43200, 0, "NZST")
           } else {
            Table::row(436284000, 43200, 3600, "NZDT")
           }
          }
         }
        }
       } else {
        if i < 53 {
         if i < 50 {
          if i < 49 {
           Table::row(447170400, 43200, 0, "NZST")
          } else {
           Table::row(467733600, 43200, 3600, "NZDT")
          }
         } else {
          if i < 51 {
           Table::row(478620000, 43200, 0, "NZST")
          } else {
           if i < 52 {
            Table::row(499183200, 43200, 3600, "NZDT")
           } else {
            Table::row(510069600, 43200, 0, "NZST")
           }
          }
         }
        } else {
         if i < 55 {
          if i < 54 {
           Table::row(530632800, 43200, 3600, "NZDT")
          } else {
           Table::row(541519200, 43200, 0, "NZST")
          }
         } else {
          if i < 56 {
           Table::row(562082400, 43200, 3600, "NZDT")
          } else {
           if i < 57 {
            Table::row(573573600, 43200, 0, "NZST")
           } else {
            Table::row(594136800, 43200, 3600, "NZDT")
           }
          }
         }
        }
       }
      } else {
       if i < 68 {
        if i < 63 {
         if i < 60 {
          if i < 59 {
           Table::row(605023200, 43200, 0, "NZST")
          } else {
           Table::row(623772000, 43200, 3600, "NZDT")
          }
         } else {
          if i < 61 {
           Table::row(637682400, 43200, 0, "NZST")
          } else {
           if i < 62 {
            Table::row(655221600, 43200, 3600, "NZDT")
           } else {
            Table::row(669132000, 43200, 0, "NZST")
           }
          }
         }
        } else {
         if i < 65 {
          if i < 64 {
           Table::row(686671200, 43200, 3600, "NZDT")
          } else {
           Table::row(700581600, 43200, 0, "NZST")
          }
         } else {
          if i < 66 {
           Table::row(718120800, 43200, 3600, "NZDT")
          } else {
           if i < 67 {
            Table::row(732636000, 43200, 0, "NZST")
           } else {
            Table::row(749570400, 43200, 3600, "NZDT")
           }
          }
         }
        }
       } else {
        if i < 73 {
         if i < 70 {
          if i < 69 {
           Table::row(764085600, 43200, 0, "NZST")
          } else {
           Table::row(781020000, 43200, 3600, "NZDT")
          }
         } else {
          if i < 71 {
           Table::row(795535200, 43200, 0, "NZST")
          } else {
           if i < 72 {
            Table::row(812469600, 43200, 3600, "NZDT")
           } else {
            Table::row(826984800, 43200, 0, "NZST")
           }
          }
         }
        } else {
         if i < 75 {
          if i < 74 {
           Table::row(844524000, 43200, 3600, "NZDT")
          } else {
           Table::row(858434400, 43200, 0, "NZST")
          }
         } else {
          if i < 76 {
           Table::row(875973600, 43200, 3600, "NZDT")
          } else {
           if i < 77 {
            Table::row(889884000, 43200, 0, "NZST")
           } else {
            Table::row(907423200, 43200, 3600, "NZDT")
           }
          }
         }
        }
       }
      }
     }
    } else {
     if i < 117 {
      if i < 97 {
       if i < 87 {
        if i < 82 {
         if i < 80 {
          if i < 79 {
           Table::row(921938400, 43200, 0, "NZST")
          } else {
           Table::row(938872800, 43200, 3600, "NZDT")
          }
         } else {
          if i < 81 {
           Table::row(953388000, 43200, 0, "NZST")
          } else {
           Table::row(970322400, 43200, 3600, "NZDT")
          }
         }
        } else {
         if i < 84 {
          if i < 83 {
           Table::row(984837600, 43200, 0, "NZST")
          } else {
           Table::row(1002376800, 43200, 3600, "NZDT")
          }
         } else {
          if i < 85 {
           Table::row(1016287200, 43200, 0, "NZST")
          } else {
           if i < 86 {
            Table::row(1033826400, 43200, 3600, "NZDT")
           } else {
            Table::row(1047736800, 43200, 0, "NZST")
           }
          }
         }
        }
       } else {
        if i < 92 {
         if i < 89 {
          if i < 88 {
           Table::row(1065276000, 43200, 3600, "NZDT")
          } else {
           Table::row(1079791200, 43200, 0, "NZST")
          }
         } else {
          if i < 90 {
           Table::row(1096725600, 43200, 3600, "NZDT")
          } else {
           if i < 91 {
            Table::row(1111240800, 43200, 0, "NZST")
           } else {
            Table::row(1128175200, 43200, 3600, "NZDT")
           }
          }
         }
        } else {
         if i < 94 {
          if i < 93 {
           Table::row(1142690400, 43200, 0, "NZST")
          } else {
           Table::row(1159624800, 43200, 3600, "NZDT")
          }
         } else {
          if i < 95 {
           Table::row(1174140000, 43200, 0, "NZST")
          } else {
           if i < 96 {
            Table::row(1191074400, 43200, 3600, "NZDT")
           } else {
            Table::row(1207404000, 43200, 0, "NZST")
           }
          }
         }
        }
       }
      } else {
       if i < 107 {
        if i < 102 {
         if i < 99 {
          if i < 98 {
           Table::row(1222524000, 43200, 3600, "NZDT")
          } else {
           Table::row(1238853600, 43200, 0, "NZST")
          }
         } else {
          if i < 100 {
           Table::row(1253973600, 43200, 3600, "NZDT")
          } else {
           if i < 101 {
            Table::row(1270303200, 43200, 0, "NZST")
           } else {
            Table::row(1285423200, 43200, 3600, "NZDT")
           }
          }
         }
        } else {
         if i < 104 {
          if i < 103 {
           Table::row(1301752800, 43200, 0, "NZST")
          } else {
           Table::row(1316872800, 43200, 3600, "NZDT")
          }
         } else {
          if i < 105 {
           Table::row(1333202400, 43200, 0, "NZST")
          } else {
           if i < 106 {
            Table::row(1348927200, 43200, 3600, "NZDT")
           } else {
            Table::row(1365256800, 43200, 0, "NZST")
           }
          }
         }
        }
       } else {
        if i < 112 {
         if i < 109 {
          if i < 108 {
           Table::row(1380376800, 43200, 3600, "NZDT")
          } else {
           Table::row(1396706400, 43200, 0, "NZST")
          }
         } else {
          if i < 110 {
           Table::row(1411826400, 43200, 3600, "NZDT")
          } else {
           if i < 111 {
            Table::row(1428156000, 43200, 0, "NZST")
           } else {
            Table::row(1443276000, 43200, 3600, "NZDT")
           }
          }
         }
        } else {
         if i < 114 {
          if i < 113 {
           Table::row(1459605600, 43200, 0, "NZST")
          } else {
           Table::row(1474725600, 43200, 3600, "NZDT")
          }
         } else {
          if i < 115 {
           Table::row(1491055200, 43200, 0, "NZST")
          } else {
           if i < 116 {
            Table::row(1506175200, 43200, 3600, "NZDT")
           } else {
            Table::row(1522504800, 43200, 0, "NZST")
           }
          }
         }
        }
       }
      }
     } else {
      if i < 136 {
       if i < 126 {
        if i < 121 {
         if i < 119 {
          if i < 118 {
           Table::row(1538229600, 43200, 3600, "NZDT")
          } else {
           Table::row(1554559200, 43200, 0, "NZST")
          }
         } else {
          if i < 120 {
           Table::row(1569679200, 43200, 3600, "NZDT")
          } else {
           Table::row(1586008800, 43200, 0, "NZST")
          }
         }
        } else {
         if i < 123 {
          if i < 122 {
           Table::row(1601128800, 43200, 3600, "NZDT")
          } else {
           Table::row(1617458400, 43200, 0, "NZST")
          }
         } else {
          if i < 124 {
           Table::row(1632578400, 43200, 3600, "NZDT")
          } else {
           if i < 125 {
            Table::row(1648908000, 43200, 0, "NZST")
           } else {
            Table::row(1664028000, 43200, 3600, "NZDT")
           }
          }
         }
        }
       } else {
        if i < 131 {
         if i < 128 {
          if i < 127 {
           Table::row(1680357600, 43200, 0, "NZST")
          } else {
           Table::row(1695477600, 43200, 3600, "NZDT")
          }
         } else {
          if i < 129 {
           Table::row(1712412000, 43200, 0, "NZST")
          } else {
           if i < 130 {
            Table::row(1727532000, 43200, 3600, "NZDT")
           } else {
            Table::row(1743861600, 43200, 0, "NZST")
           }
          }
         }
        } else {
         if i < 133 {
          if i < 132 {
           Table::row(1758981600, 43200, 3600, "NZDT")
          } else {
           Table::row(1775311200, 43200, 0, "NZST")
          }
         } else {
          if i < 134 {
           Table::row(1790431200, 43200, 3600, "NZDT")
          } else {
           if i < 135 {
            Table::row(1806760800, 43200, 0, "NZST")
           } else {
            Table::row(1821880800, 43200, 3600, "NZDT")
           }
          }
         }
        }
       }
      } else {
       if i < 146 {
        if i < 141 {
         if i < 138 {
          if i < 137 {
           Table::row(1838210400, 43200, 0, "NZST")
          } else {
           Table::row(1853330400, 43200, 3600, "NZDT")
          }
         } else {
          if i < 139 {
           Table::row(1869660000, 43200, 0, "NZST")
          } else {
           if i < 140 {
            Table::row(1885384800, 43200, 3600, "NZDT")
           } else {
            Table::row(1901714400, 43200, 0, "NZST")
           }
          }
         }
        } else {
         if i < 143 {
          if i < 142 {
           Table::row(1916834400, 43200, 3600, "NZDT")
          } else {
           Table::row(1933164000, 43200, 0, "NZST")
          }
         } else {
          if i < 144 {
           Table::row(1948284000, 43200, 3600, "NZDT")
          } else {
           if i < 145 {
            Table::row(1964613600, 43200, 0, "NZST")
           } else {
            Table::row(1979733600, 43200, 3600, "NZDT")
           }
          }
         }
        }
       } else {
        if i < 151 {
         if i < 148 {
          if i < 147 {
           Table::row(1996063200, 43200, 0, "NZST")
          } else {
           Table::row(2011183200, 43200, 3600, "NZDT")
          }
         } else {
          if i < 149 {
           Table::row(2027512800, 43200, 0, "NZST")
          } else {
           if i < 150 {
            Table::row(2042632800, 43200, 3600, "NZDT")
           } else {
            Table::row(2058962400, 43200, 0, "NZST")
           }
          }
         }
        } else {
         if i < 153 {
          if i < 152 {
           Table::row(2074687200, 43200, 3600, "NZDT")
          } else {
           Table::row(2091016800, 43200, 0, "NZST")
          }
         } else {
          if i < 154 {
           Table::row(2106136800, 43200, 3600, "NZDT")
          } else {
           if i < 155 {
            Table::row(2122466400, 43200, 0, "NZST")
           } else {
            Table::row(2137586400, 43200, 3600, "NZDT")
           }
          }
         }
        }
       }
      }
     }
    }
}

/// The rows of the table of the zone `NZ`.
pub open spec fn nz_rows() -> spec_fn(int) -> (i64, FixedTimespan) {
    |i: int| nz_row(i)
}

/// The table of the zone `NZ`.
pub open spec fn nz() -> Table {
    Table::listed(Table::row(0, 41944, 0, "LMT").1, 156, nz_rows())
}

/// Row `i` of the table of the zone `NZ-CHAT`.
pub open spec fn nz_chat_row(i: int) -> (i64, FixedTimespan) {
    if i < 65 {
     if i < 32 {
      if i < 16 {
       if i < 8 {
        if i < 4 {
         if i < 2 {
          if i < 1 {
           Table::row(-3192437628, 44100, 0, "+1215")
          } else {
           Table::row(-757426500, 45900, 0, "+1245")
          }
         } else {
          if i < 3 {
           Table::row(152632800, 45900, 3600, "+1345")
          } else {
           Table::row(162309600, 45900, 0, "+1245")
          }
         }
        } else {
         if i < 6 {
          if i < 5 {
           Table::row(183477600, 45900, 3600, "+1345")
          } else {
           Table::row(194968800, 45900, 0, "+1245")
          }
         } else {
          if i < 7 {
           Table::row(215532000, 45900, 3600, "+1345")
          } else {
           Table::row(226418400, 45900, 0, "+1245")
          }
         }
        }
       } else {
        if i < 12 {
         if i < 10 {
          if i < 9 {
           Table::row(246981600, 45900, 3600, "+1345")
          } else {
           Table::row(257868000, 45900, 0, "+1245")
          }
         } else {
          if i < 11 {
           Table::row(278431200, 45900, 3600, "+1345")
          } else {
           Table::row(289317600, 45900, 0, "+1245")
          }
         }
        } else {
         if i < 14 {
          if i < 13 {
           Table::row(309880800, 45900, 3600, "+1345")
          } else {
           Table::row(320767200, 45900, 0, "+1245")
          }
         } else {
          if i < 15 {
           Table::row(341330400, 45900, 3600, "+1345")
          } else {
           Table::row(352216800, 45900, 0, "+1245")
          }
         }
        }
       }
      } else {
       if i < 24 {
        if i < 20 {
         if i < 18 {
          if i < 17 {
           Table::row(372780000, 45900, 3600, "+1345")
          } else {
           Table::row(384271200, 45900, 0, "+1245")
          }
         } else {
          if i < 19 {
           Table::row(404834400, 45900, 3600, "+1345")
          } else {
           Table::row(415720800, 45900, 0, "+1245")
          }
         }
        } else {
         if i < 22 {
          if i < 21 {
           Table::row(436284000, 45900, 3600, "+1345")
          } else {
           Table::row(447170400, 45900, 0, "+1245")
          }
         } else {
          if i < 23 {
           Table::row(467733600, 45900, 3600, "+1345")
          } else {
           Table::row(478620000, 45900, 0, "+1245")
          }
         }
        }
       } else {
        if i < 28 {
         if i < 26 {
          if i < 25 {
           Table::row(499183200, 45900, 3600, "+1345")
          } else {
           Table::row(510069600, 45900, 0, "+1245")
          }
         } else {
          if i < 27 {
           Table::row(530632800, 45900, 3600, "+1345")
          } else {
           Table::row(541519200, 45900, 0, "+1245")
          }
         }
        } else {
         if i < 30 {
          if i < 29 {
           Table::row(562082400, 45900, 3600, "+1345")
          } else {
           Table::row(573573600, 45900, 0, "+1245")
          }
         } else {
          if i < 31 {
           Table::row(594136800, 45900, 3600, "+1345")
          } else {
           Table::row(605023200, 45900, 0, "+1245")
          }
         }
        }
       }
      }
     } else {
      if i < 48 {
       if i < 40 {
        if i < 36 {
         if i < 34 {
          if i < 33 {
           Table::row(623772000, 45900, 3600, "+1345")
          } else {
           Table::row(637682400, 45900, 0, "+1245")
          }
         } else {
          if i < 35 {
           Table::row(655221600, 45900, 3600, "+1345")
          } else {
           Table::row(669132000, 45900, 0, "+1245")
          }
         }
        } else {
         if i < 38 {
          if i < 37 {
           Table::row(686671200, 45900, 3600, "+1345")
          } else {
           Table::row(700581600, 45900, 0, "+1245")
          }
         } else {
          if i < 39 {
           Table::row(718120800, 45900, 3600, "+1345")
          } else {
           Table::row(732636000, 45900, 0, "+1245")
          }
         }
        }
       } else {
        if i < 44 {
         if i < 42 {
          if i < 41 {
           Table::row(749570400, 45900, 3600, "+1345")
          } else {
           Table::row(764085600, 45900, 0, "+1245")
          }
         } else {
          if i < 43 {
           Table::row(781020000, 45900, 3600, "+1345")
          } else {
           Table::row(795535200, 45900, 0, "+1245")
          }
         }
        } else {
         if i < 46 {
          if i < 45 {
           Table::row(812469600, 45900, 3600, "+1345")
          } else {
           Table::row(826984800, 45900, 0, "+1245")
          }
         } else {
          if i < 47 {
           Table::row(844524000, 45900, 3600, "+1345")
          } else {
           Table::row(858434400, 45900, 0, "+1245")
          }
         }
        }
       }
      } else {
       if i < 56 {
        if i < 52 {
         if i < 50 {
          if i < 49 {
           Table::row(875973600, 45900, 3600, "+1345")
          } else {
           Table::row(889884000, 45900, 0, "+1245")
          }
         } else {
          if i < 51 {
           Table::row(907423200, 45900, 3600, "+1345")
          } else {
           Table::row(921938400, 45900, 0, "+1245")
          }
         }
        } else {
         if i < 54 {
          if i < 53 {
           Table::row(938872800, 45900, 3600, "+1345")
          } else {
           Table::row(953388000, 45900, 0, "+1245")
          }
         } else {
          if i < 55 {
           Table::row(970322400, 45900, 3600, "+1345")
          } else {
           Table::row(984837600, 45900, 0, "+1245")
          }
         }
        }
       } else {
        if i < 60 {
         if i < 58 {
          if i < 57 {
           Table::row(1002376800, 45900, 3600, "+1345")
          } else {
           Table::row(1016287200, 45900, 0, "+1245")
          }
         } else {
          if i < 59 {
           Table::row(1033826400, 45900, 3600, "+1345")
          } else {
           Table::row(1047736800, 45900, 0, "+1245")
          }
         }
        } else {
         if i < 62 {
          if i < 61 {
           Table::row(1065276000, 45900, 3600, "+1345")
          } else {
           Table::row(1079791200, 45900, 0, "+1245")
          }
         } else {
          if i < 63 {
           Table::row(1096725600, 45900, 3600, "+1345")
          } else {
           if i < 64 {
            Table::row(1111240800, 45900, 0, "+1245")
           } else {
            Table::row(1128175200, 45900, 3600, "+1345")
           }
          }
         }
        }
       }
      }
     }
    } else {
     if i < 97 {
      if i < 81 {
       if i < 73 {
        if i < 69 {
         if i < 67 {
          if i < 66 {
           Table::row(1142690400, 45900, 0, "+1245")
          } else {
           Table::row(1159624800, 45900, 3600, "+1345")
          }
         } else {
          if i < 68 {
           Table::row(1174140000, 45900, 0, "+1245")
          } else {
           Table::row(1191074400, 45900, 3600, "+1345")
          }
         }
        } else {
         if i < 71 {
          if i < 70 {
           Table::row(1207404000, 45900, 0, "+1245")
          } else {
           Table::row(1222524000, 45900, 3600, "+1345")
          }
         } else {
          if i < 72 {
           Table::row(1238853600, 45900, 0, "+1245")
          } else {
           Table::row(1253973600, 45900, 3600, "+1345")
          }
         }
        }
       } else {
        if i < 77 {
         if i < 75 {
          if i < 74 {
           Table::row(1270303200, 45900, 0, "+1245")
          } else {
           Table::row(1285423200, 45900, 3600, "+1345")
          }
         } else {
          if i < 76 {
           Table::row(1301752800, 45900, 0, "+1245")
          } else {
           Table::row(1316872800, 45900, 3600, "+1345")
          }
         }
        } else {
         if i < 79 {
          if i < 78 {
           Table::row(1333202400, 45900, 0, "+1245")
          } else {
           Table::row(1348927200, 45900, 3600, "+1345")
          }
         } else {
          if i < 80 {
           Table::row(1365256800, 45900, 0, "+1245")
          } else {
           Table::row(1380376800, 45900, 3600, "+1345")
          }
         }
        }
       }
      } else {
       if i < 89 {
        if i < 85 {
         if i < 83 {
          if i < 82 {
           Table::row(1396706400, 45900, 0, "+1245")
          } else {
           Table::row(1411826400, 45900, 3600, "+1345")
          }
         } else {
          if i < 84 {
           Table::row(1428156000, 45900, 0, "+1245")
          } else {
           Table::row(1443276000, 45900, 3600, "+1345")
          }
         }
        } else {
         if i < 87 {
          if i < 86 {
           Table::row(1459605600, 45900, 0, "+1245")
          } else {
           Table::row(1474725600, 45900, 3600, "+1345")
          }
         } else {
          if i < 88 {
           Table::row(1491055200, 45900, 0, "+1245")
          } else {
           Table::row(1506175200, 45900, 3600, "+1345")
          }
         }
        }
       } else {
        if i < 93 {
         if i < 91 {
          if i < 90 {
           Table::row(1522504800, 45900, 0, "+1245")
          } else {
           Table::row(1538229600, 45900, 3600, "+1345")
          }
         } else {
          if i < 92 {
           Table::row(1554559200, 45900, 0, "+1245")
          } else {
           Table::row(1569679200, 45900, 3600, "+1345")
          }
         }
        } else {
         if i < 95 {
          if i < 94 {
           Table::row(1586008800, 45900, 0, "+1245")
          } else {
           Table::row(1601128800, 45900, 3600, "+1345")
          }
         } else {
          if i < 96 {
           Table::row(1617458400, 45900, 0, "+1245")
          } else {
           Table::row(1632578400, 45900, 3600, "+1345")
          }
         }
        }
       }
      }
     } else {
      if i < 113 {
       if i < 105 {
        if i < 101 {
         if i < 99 {
          if i < 98 {
           Table::row(1648908000, 45900, 0, "+1245")
          } else {
           Table::row(1664028000, 45900, 3600, "+1345")
          }
         } else {
          if i < 100 {
           Table::row(1680357600, 45900, 0, "+1245")
          } else {
           Table::row(1695477600, 45900, 3600, "+1345")
          }
         }
        } else {
         if i < 103 {
          if i < 102 {
           Table::row(1712412000, 45900, 0, "+1245")
          } else {
           Table::row(1727532000, 45900, 3600, "+1345")
          }
         } else {
          if i < 104 {
           Table::row(1743861600, 45900, 0, "+1245")
          } else {
           Table::row(1758981600, 45900, 3600, "+1345")
          }
         }
        }
       } else {
        if i < 109 {
         if i < 107 {
          if i < 106 {
           Table::row(1775311200, 45900, 0, "+1245")
          } else {
           Table::row(1790431200, 45900, 3600, "+1345")
          }
         } else {
          if i < 108 {
           Table::row(1806760800, 45900, 0, "+1245")
          } else {
           Table::row(1821880800, 45900, 3600, "+1345")
          }
         }
        } else {
         if i < 111 {
          if i < 110 {
           Table::row(1838210400, 45900, 0, "+1245")
          } else {
           Table::row(1853330400, 45900, 3600, "+1345")
          }
         } else {
          if i < 112 {
           Table::row(1869660000, 45900, 0, "+1245")
          } else {
           Table::row(1885384800, 45900, 3600, "+1345")
          }
         }
        }
       }
      } else {
       if i < 121 {
        if i < 117 {
         if i < 115 {
          if i < 114 {
           Table::row(1901714400, 45900, 0, "+1245")
          } else {
           Table::row(1916834400, 45900, 3600, "+1345")
          }
         } else {
          if i < 116 {
           Table::row(1933164000, 45900, 0, "+1245")
          } else {
           Table::row(1948284000, 45900, 3600, "+1345")
          }
         }
        } else {
         if i < 119 {
          if i < 118 {
           Table::row(1964613600, 45900, 0, "+1245")
          } else {
           Table::row(1979733600, 45900, 3600, "+1345")
          }
         } else {
          if i < 120 {
           Table::row(1996063200, 45900, 0, "+1245")
          } else {
           Table::row(2011183200, 45900, 3600, "+1345")
          }
         }
        }
       } else {
        if i < 125 {
         if i < 123 {
          if i < 122 {
           Table::row(2027512800, 45900, 0, "+1245")
          } else {
           Table::row(2042632800, 45900, 3600, "+1345")
          }
         } else {
          if i < 124 {
           Table::row(2058962400, 45900, 0, "+1245")
          } else {
           Table::row(2074687200, 45900, 3600, "+1345")
          }
         }
        } else {
         if i < 127 {
          if i < 126 {
           Table::row(2091016800, 45900, 0, "+1245")
          } else {
           Table::row(2106136800, 45900, 3600, "+1345")
          }
         } else {
          if i < 128 {
           Table::row(2122466400, 45900, 0, "+1245")
          } else {
           if i < 129 {
            Table::row(2137586400, 45900, 3600, "+1345")
           } else {
            Table::row(2147483647, 45900, 3600, "+1345")
           }
          }
         }
        }
       }
      }
     }
    }
}

/// The rows of the table of the zone `NZ-CHAT`.
pub open spec fn nz_chat_rows() -> spec_fn(int) -> (i64, FixedTimespan) {
    |i: int| nz_chat_row(i)
}

/// The table of the zone `NZ-CHAT`.
pub open spec fn nz_chat() -> Table {
    Table::listed(Table::row(0, 44028, 0, "LMT").1, 130, nz_chat_rows())
}

/// Row `i` of the table of the zone `Navajo`.
pub open spec fn navajo_row(i: int) -> (i64, FixedTimespan) {
    if i < 79 {
     if i < 39 {
      if i < 19 {
       if i < 9 {
        if i < 4 {
         if i < 2 {
          if i < 1 {
           Table::row(-2717643600, -25200, 0, "MST")
          } else {
           Table::row(-1633273200, -25200, 3600, "MDT")
          }
         } else {
          if i < 3 {
           Table::row(-1615132800, -25200, 0, "MST")
          } else {
           Table::row(-1601823600, -25200, 3600, "MDT")
          }
         }
        } else {
         if i < 6 {
          if i < 5 {
           Table::row(-1583683200, -25200, 0, "MST")
          } else {
           Table::row(-1570374000, -25200, 3600, "MDT")
          }
         } else {
          if i < 7 {
           Table::row(-1551628800, -25200, 0, "MST")
          } else {
           if i < 8 {
            Table::row(-1538924400, -25200, 3600, "MDT")
           } else {
            Table::row(-1534089600, -25200, 0, "MST")
           }
          }
         }
        }
       } else {
        if i < 14 {
         if i < 11 {
          if i < 10 {
           Table::row(-880210800, -25200, 3600, "MWT")
          } else {
           Table::row(-769395600, -25200, 3600, "MPT")
          }
         } else {
          if i < 12 {
           Table::row(-765388800, -25200, 0, "MST")
          } else {
           if i < 13 {
            Table::row(-147884400, -25200, 3600, "MDT")
           } else {
            Table::row(-131558400, -25200, 0, "MST")
           }
          }
         }
        } else {
         if i < 16 {
          if i < 15 {
           Table::row(-116434800, -25200, 3600, "MDT")
          } else {
           Table::row(-100108800, -25200, 0, "MST")
          }
         } else {
          if i < 17 {
           Table::row(-84380400, -25200, 3600, "MDT")
          } else {
           if i < 18 {
            Table::row(-68659200, -25200, 0, "MST")
           } else {
            Table::row(-52930800, -25200, 3600, "MDT")
           }
          }
         }
        }
       }
      } else {
       if i < 29 {
        if i < 24 {
         if i < 21 {
          if i < 20 {
           Table::row(-37209600, -25200, 0, "MST")
          } else {
           Table::row(-21481200, -25200, 3600, "MDT")
          }
         } else {
          if i < 22 {
           Table::row(-5760000, -25200, 0, "MST")
          } else {
           if i < 23 {
            Table::row(9968400, -25200, 3600, "MDT")
           } else {
            Table::row(25689600, -25200, 0, "MST")
           }
          }
         }
        } else {
         if i < 26 {
          if i < 25 {
           Table::row(41418000, -25200, 3600, "MDT")
          } else {
           Table::row(57744000, -25200, 0, "MST")
          }
         } else {
          if i < 27 {
           Table::row(73472400, -25200, 3600, "MDT")
          } else {
           if i < 28 {
            Table::row(89193600, -25200, 0, "MST")
           } else {
            Table::row(104922000, -25200, 3600, "MDT")
           }
          }
         }
        }
       } else {
        if i < 34 {
         if i < 31 {
          if i < 30 {
           Table::row(120643200, -25200, 0, "MST")
          } else {
           Table::row(126694800, -25200, 3600, "MDT")
          }
         } else {
          if i < 32 {
           Table::row(152092800, -25200, 0, "MST")
          } else {
           if i < 33 {
            Table::row(162378000, -25200, 3600, "MDT")
           } else {
            Table::row(183542400, -25200, 0, "MST")
           }
          }
         }
        } else {
         if i < 36 {
          if i < 35 {
           Table::row(199270800, -25200, 3600, "MDT")
          } else {
           Table::row(215596800, -25200, 0, "MST")
          }
         } else {
          if i < 37 {
           Table::row(230720400, -25200, 3600, "MDT")
          } else {
           if i < 38 {
            Table::row(247046400, -25200, 0, "MST")
           } else {
            Table::row(262774800, -25200, 3600, "MDT")
           }
          }
         }
        }
       }
      }
     } else {
      if i < 59 {
       if i < 49 {
        if i < 44 {
         if i < 41 {
          if i < 40 {
           Table::row(278496000, -25200, 0, "MST")
          } else {
           Table::row(294224400, -25200, 3600, "MDT")
          }
         } else {
          if i < 42 {
           Table::row(309945600, -25200, 0, "MST")
          } else {
           if i < 43 {
            Table::row(325674000, -25200, 3600, "MDT")
           } else {
            Table::row(341395200, -25200, 0, "MST")
           }
          }
         }
        } else {
         if i < 46 {
          if i < 45 {
           Table::row(357123600, -25200, 3600, "MDT")
          } else {
           Table::row(372844800, -25200, 0, "MST")
          }
         } else {
          if i < 47 {
           Table::row(388573200, -25200, 3600, "MDT")
          } else {
           if i < 48 {
            Table::row(404899200, -25200, 0, "MST")
           } else {
            Table::row(420022800, -25200, 3600, "MDT")
           }
          }
         }
        }
       } else {
        if i < 54 {
         if i < 51 {
          if i < 50 {
           Table::row(436348800, -25200, 0, "MST")
          } else {
           Table::row(452077200, -25200, 3600, "MDT")
          }
         } else {
          if i < 52 {
           Table::row(467798400, -25200, 0, "MST")
          } else {
           if i < 53 {
            Table::row(483526800, -25200, 3600, "MDT")
           } else {
            Table::row(499248000, -25200, 0, "MST")
           }
          }
         }
        } else {
         if i < 56 {
          if i < 55 {
           Table::row(514976400, -25200, 3600, "MDT")
          } else {
           Table::row(530697600, -25200, 0, "MST")
          }
         } else {
          if i < 57 {
           Table::row(544611600, -25200, 3600, "MDT")
          } else {
           if i < 58 {
            Table::row(562147200, -25200, 0, "MST")
           } else {
            Table::row(576061200, -25200, 3600, "MDT")
           }
          }
         }
        }
       }
      } else {
       if i < 69 {
        if i < 64 {
         if i < 61 {
          if i < 60 {
           Table::row(594201600, -25200, 0, "MST")
          } else {
           Table::row(607510800, -25200, 3600, "MDT")
          }
         } else {
          if i < 62 {
           Table::row(625651200, -25200, 0, "MST")
          } else {
           if i < 63 {
            Table::row(638960400, -25200, 3600, "MDT")
           } else {
            Table::row(657100800, -25200, 0, "MST")
           }
          }
         }
        } else {
         if i < 66 {
          if i < 65 {
           Table::row(671014800, -25200, 3600, "MDT")
          } else {
           Table::row(688550400, -25200, 0, "MST")
          }
         } else {
          if i < 67 {
           Table::row(702464400, -25200, 3600, "MDT")
          } else {
           if i < 68 {
            Table::row(720000000, -25200, 0, "MST")
           } else {
            Table::row(733914000, -25200, 3600, "MDT")
           }
          }
         }
        }
       } else {
        if i < 74 {
         if i < 71 {
          if i < 70 {
           Table::row(752054400, -25200, 0, "MST")
          } else {
           Table::row(765363600, -25200, 3600, "MDT")
          }
         } else {
          if i < 72 {
           Table::row(783504000, -25200, 0, "MST")
          } else {
           if i < 73 {
            Table::row(796813200, -25200, 3600, "MDT")
           } else {
            Table::row(814953600, -25200, 0, "MST")
           }
          }
         }
        } else {
         if i < 76 {
          if i < 75 {
           Table::row(828867600, -25200, 3600, "MDT")
          } else {
           Table::row(846403200, -25200, 0, "MST")
          }
         } else {
          if i < 77 {
           Table::row(860317200, -25200, 3600, "MDT")
          } else {
           if i < 78 {
            Table::row(877852800, -25200, 0, "MST")
           } else {
            Table::row(891766800, -25200, 3600, "MDT")
           }
          }
         }
        }
       }
      }
     }
    } else {
     if i < 118 {
      if i < 98 {
       if i < 88 {
        if i < 83 {
         if i < 81 {
          if i < 80 {
           Table::row(909302400, -25200, 0, "MST")
          } else {
           Table::row(923216400, -25200, 3600, "MDT")
          }
         } else {
          if i < 82 {
           Table::row(941356800, -25200, 0, "MST")
          } else {
           Table::row(954666000, -25200, 3600, "MDT")
          }
         }
        } else {
         if i < 85 {
          if i < 84 {
           Table::row(972806400, -25200, 0, "MST")
          } else {
           Table::row(986115600, -25200, 3600, "MDT")
          }
         } else {
          if i < 86 {
           Table::row(1004256000, -25200, 0, "MST")
          } else {
           if i < 87 {
            Table::row(1018170000, -25200, 3600, "MDT")
           } else {
            Table::row(1035705600, -25200, 0, "MST")
           }
          }
         }
        }
       } else {
        if i < 93 {
         if i < 90 {
          if i < 89 {
           Table::row(1049619600, -25200, 3600, "MDT")
          } else {
           Table::row(1067155200, -25200, 0, "MST")
          }
         } else {
          if i < 91 {
           Table::row(1081069200, -25200, 3600, "MDT")
          } else {
           if i < 92 {
            Table::row(1099209600, -25200, 0, "MST")
           } else {
            Table::row(1112518800, -25200, 3600, "MDT")
           }
          }
         }
        } else {
         if i < 95 {
          if i < 94 {
           Table::row(1130659200, -25200, 0, "MST")
          } else {
           Table::row(1143968400, -25200, 3600, "MDT")
          }
         } else {
          if i < 96 {
           Table::row(1162108800, -25200, 0, "MST")
          } else {
           if i < 97 {
            Table::row(1173603600, -25200, 3600, "MDT")
           } else {
            Table::row(1194163200, -25200, 0, "MST")
           }
          }
         }
        }
       }
      } else {
       if i < 108 {
        if i < 103 {
         if i < 100 {
          if i < 99 {
           Table::row(1205053200, -25200, 3600, "MDT")
          } else {
           Table::row(1225612800, -25200, 0, "MST")
          }
         } else {
          if i < 101 {
           Table::row(1236502800, -25200, 3600, "MDT")
          } else {
           if i < 102 {
            Table::row(1257062400, -25200, 0, "MST")
           } else {
            Table::row(1268557200, -25200, 3600, "MDT")
           }
          }
         }
        } else {
         if i < 105 {
          if i < 104 {
           Table::row(1289116800, -25200, 0, "MST")
          } else {
           Table::row(1300006800, -25200, 3600, "MDT")
          }
         } else {
          if i < 106 {
           Table::row(1320566400, -25200, 0, "MST")
          } else {
           if i < 107 {
            Table::row(1331456400, -25200, 3600, "MDT")
           } else {
            Table::row(1352016000, -25200, 0, "MST")
           }
          }
         }
        }
       } else {
        if i < 113 {
         if i < 110 {
          if i < 109 {
           Table::row(1362906000, -25200, 3600, "MDT")
          } else {
           Table::row(1383465600, -25200, 0, "MST")
          }
         } else {
          if i < 111 {
           Table::row(1394355600, -25200, 3600, "MDT")
          } else {
           if i < 112 {
            Table::row(1414915200, -25200, 0, "MST")
           } else {
            Table::row(1425805200, -25200, 3600, "MDT")
           }
          }
         }
        } else {
         if i < 115 {
          if i < 114 {
           Table::row(1446364800, -25200, 0, "MST")
          } else {
           Table::row(1457859600, -25200, 3600, "MDT")
          }
         } else {
          if i < 116 {
           Table::row(1478419200, -25200, 0, "MST")
          } else {
           if i < 117 {
            Table::row(1489309200, -25200, 3600, "MDT")
           } else {
            Table::row(1509868800, -25200, 0, "MST")
           }
          }
         }
        }
       }
      }
     } else {
      if i < 138 {
       if i < 128 {
        if i < 123 {
         if i < 120 {
          if i < 119 {
           Table::row(1520758800, -25200, 3600, "MDT")
          } else {
           Table::row(1541318400, -25200, 0, "MST")
          }
         } else {
          if i < 121 {
           Table::row(1552208400, -25200, 3600, "MDT")
          } else {
           if i < 122 {
            Table::row(1572768000, -25200, 0, "MST")
           } else {
            Table::row(1583658000, -25200, 3600, "MDT")
           }
          }
         }
        } else {
         if i < 125 {
          if i < 124 {
           Table::row(1604217600, -25200, 0, "MST")
          } else {
           Table::row(1615712400, -25200, 3600, "MDT")
          }
         } else {
          if i < 126 {
           Table::row(1636272000, -25200, 0, "MST")
          } else {
           if i < 127 {
            Table::row(1647162000, -25200, 3600, "MDT")
           } else {
            Table::row(1667721600, -25200, 0, "MST")
           }
          }
         }
        }
       } else {
        if i < 133 {
         if i < 130 {
          if i < 129 {
           Table::row(1678611600, -25200, 3600, "MDT")
          } else {
           Table::row(1699171200, -25200, 0, "MST")
          }
         } else {
          if i < 131 {
           Table::row(1710061200, -25200, 3600, "MDT")
          } else {
           if i < 132 {
            Table::row(1730620800, -25200, 0, "MST")
           } else {
            Table::row(1741510800, -25200, 3600, "MDT")
           }
          }
         }
        } else {
         if i < 135 {
          if i < 134 {
           Table::row(1762070400, -25200, 0, "MST")
          } else {
           Table::row(1772960400, -25200, 3600, "MDT")
          }
         } else {
          if i < 136 {
           Table::row(1793520000, -25200, 0, "MST")
          } else {
           if i < 137 {
            Table::row(1805014800, -25200, 3600, "MDT")
           } else {
            Table::row(1825574400, -25200, 0, "MST")
           }
          }
         }
        }
       }
      } else {
       if i < 148 {
        if i < 143 {
         if i < 140 {
          if i < 139 {
           Table::row(1836464400, -25200, 3600, "MDT")
          } else {
           Table::row(1857024000, -25200, 0, "MST")
          }
         } else {
          if i < 141 {
           Table::row(1867914000, -25200, 3600, "MDT")
          } else {
           if i < 142 {
            Table::row(1888473600, -25200, 0, "MST")
           } else {
            Table::row(1899363600, -25200, 3600, "MDT")
           }
          }
         }
        } else {
         if i < 145 {
          if i < 144 {
           Table::row(1919923200, -25200, 0, "MST")
          } else {
           Table::row(1930813200, -25200, 3600, "MDT")
          }
         } else {
          if i < 146 {
           Table::row(1951372800, -25200, 0, "MST")
          } else {
           if i < 147 {
            Table::row(1962867600, -25200, 3600, "MDT")
           } else {
            Table::row(1983427200, -25200, 0, "MST")
           }
          }
         }
        }
       } else {
        if i < 153 {
         if i < 150 {
          if i < 149 {
           Table::row(1994317200, -25200, 3600, "MDT")
          } else {
           Table::row(2014876800, -25200, 0, "MST")
          }
         } else {
          if i < 151 {
           Table::row(2025766800, -25200, 3600, "MDT")
          } else {
           if i < 152 {
            Table::row(2046326400, -25200, 0, "MST")
           } else {
            Table::row(2057216400, -25200, 3600, "MDT")
           }
          }
         }
        } else {
         if i < 155 {
          if i < 154 {
           Table::row(2077776000, -25200, 0, "MST")
          } else {
           Table::row(2088666000, -25200, 3600, "MDT")
          }
         } else {
          if i < 156 {
           Table::row(2109225600, -25200, 0, "MST")
          } else {
           if i < 157 {
            Table::row(2120115600, -25200, 3600, "MDT")
           } else {
            Table::row(2140675200, -25200, 0, "MST")
           }
          }
         }
        }
       }
      }
     }
    }
}

/// The rows of the table of the zone `Navajo`.
pub open spec fn navajo_rows() -> spec_fn(int) -> (i64, FixedTimespan) {
    |i: int| navajo_row(i)
}

/// The table of the zone `Navajo`.
pub open spec fn navajo() -> Table {
    Table::listed(Table::row(0, -25196, 0, "LMT").1, 158, navajo_rows())
}

/// Row `i` of the table of the zone `PRC`.
pub open spec fn prc_row(i: int) -> (i64, FixedTimespan) {
    if i < 14 {
     if i < 7 {
      if i < 3 {
       if i < 1 {
        Table::row(-2177481943, 28800, 0, "CST")
       } else {
        if i < 2 {
         Table::row(-1600675200, 28800, 3600, "CDT")
        } else {
         Table::row(-1585904400, 28800, 0, "CST")
        }
       }
      } else {
       if i < 5 {
        if i < 4 {
         Table::row(-933667200, 28800, 3600, "CDT")
        } else {
         Table::row(-922093200, 28800, 0, "CST")
        }
       } else {
        if i < 6 {
         Table::row(-908870400, 28800, 3600, "CDT")
        } else {
         Table::row(-888829200, 28800, 0, "CST")
        }
       }
      }
     } else {
      if i < 10 {
       if i < 8 {
        Table::row(-881049600, 28800, 3600, "CDT")
       } else {
        if i < 9 {
         Table::row(-767869200, 28800, 0, "CST")
        } else {
         Table::row(-745833600, 28800, 3600, "CDT")
        }
       }
      } else {
       if i < 12 {
        if i < 11 {
         Table::row(-733827600, 28800, 0, "CST")
        } else {
         Table::row(-716889600, 28800, 3600, "CDT")
        }
       } else {
        if i < 13 {
         Table::row(-699613200, 28800, 0, "CST")
        } else {
         Table::row(-683884800, 28800, 3600, "CDT")
        }
       }
      }
     }
    } else {
     if i < 21 {
      if i < 17 {
       if i < 15 {
        Table::row(-670669200, 28800, 0, "CST")
       } else {
        if i < 16 {
         Table::row(-652348800, 28800, 3600, "CDT")
        } else {
         Table::row(-650019600, 28800, 0, "CST")
        }
       }
      } else {
       if i < 19 {
        if i < 18 {
         Table::row(515527200, 28800, 3600, "CDT")
        } else {
         Table::row(527014800, 28800, 0, "CST")
        }
       } else {
        if i < 20 {
         Table::row(545162400, 28800, 3600, "CDT")
        } else {
         Table::row(558464400, 28800, 0, "CST")
        }
       }
      }
     } else {
      if i < 25 {
       if i < 23 {
        if i < 22 {
         Table::row(577216800, 28800, 3600, "CDT")
        } else {
         Table::row(589914000, 28800, 0, "CST")
        }
       } else {
        if i < 24 {
         Table::row(608666400, 28800, 3600, "CDT")
        } else {
         Table::row(621968400, 28800, 0, "CST")
        }
       }
      } else {
       if i < 27 {
        if i < 26 {
         Table::row(640116000, 28800, 3600, "CDT")
        } else {
         Table::row(653418000, 28800, 0, "CST")
        }
       } else {
        if i < 28 {
         Table::row(671565600, 28800, 3600, "CDT")
        } else {
         Table::row(684867600, 28800, 0, "CST")
        }
       }
      }
     }
    }
}

/// The rows of the table of the zone `PRC`.
pub open spec fn prc_rows() -> spec_fn(int) -> (i64, FixedTimespan) {
    |i: int| prc_row(i)
}

/// The table of the zone `PRC`.
pub open spec fn prc() -> Table {
    Table::listed(Table::row(0, 29143, 0, "LMT").1, 29, prc_rows())
}

/// Row `i` of the table of the zone `PST8PDT`.
pub open spec fn pst8pdt_row(i: int) -> (i64, FixedTimespan) {
    if i < 74 {
     if i < 37 {
      if i < 18 {
       if i < 9 {
        if i < 4 {
         if i < 2 {
          if i < 1 {
           Table::row(-1633269600, -28800, 3600, "PDT")
          } else {
           Table::row(-1615129200, -28800, 0, "PST")
          }
         } else {
          if i < 3 {
           Table::row(-1601820000, -28800, 3600, "PDT")
          } else {
           Table::row(-1583679600, -28800, 0, "PST")
          }
         }
        } else {
         if i < 6 {
          if i < 5 {
           Table::row(-880207200, -28800, 3600, "PWT")
          } else {
           Table::row(-769395600, -28800, 3600, "PPT")
          }
         } else {
          if i < 7 {
           Table::row(-765385200, -28800, 0, "PST")
          } else {
           if i < 8 {
            Table::row(-84376800, -28800, 3600, "PDT")
           } else {
            Table::row(-68655600, -28800, 0, "PST")
           }
          }
         }
        }
       } else {
        if i < 13 {
         if i < 11 {
          if i < 10 {
           Table::row(-52927200, -28800, 3600, "PDT")
          } else {
           Table::row(-37206000, -28800, 0, "PST")
          }
         } else {
          if i < 12 {
           Table::row(-21477600, -28800, 3600, "PDT")
          } else {
           Table::row(-5756400, -28800, 0, "PST")
          }
         }
        } else {
         if i < 15 {
          if i < 14 {
           Table::row(9972000, -28800, 3600, "PDT")
          } else {
           Table::row(25693200, -28800, 0, "PST")
          }
         } else {
          if i < 16 {
           Table::row(41421600, -28800, 3600, "PDT")
          } else {
           if i < 17 {
            Table::row(57747600, -28800, 0, "PST")
           } else {
            Table::row(73476000, -28800, 3600, "PDT")
           }
          }
         }
        }
       }
      } else {
       if i < 27 {
        if i < 22 {
         if i < 20 {
          if i < 19 {
           Table::row(89197200, -28800, 0, "PST")
          } else {
           Table::row(104925600, -28800, 3600, "PDT")
          }
         } else {
          if i < 21 {
           Table::row(120646800, -28800, 0, "PST")
          } else {
           Table::row(126698400, -28800, 3600, "PDT")
          }
         }
        } else {
         if i < 24 {
          if i < 23 {
           Table::row(152096400, -28800, 0, "PST")
          } else {
           Table::row(162381600, -28800, 3600, "PDT")
          }
         } else {
          if i < 25 {
           Table::row(183546000, -28800, 0, "PST")
          } else {
           if i < 26 {
            Table::row(199274400, -28800, 3600, "PDT")
           } else {
            Table::row(215600400, -28800, 0, "PST")
           }
          }
         }
        }
       } else {
        if i < 32 {
         if i < 29 {
          if i < 28 {
           Table::row(230724000, -28800, 3600, "PDT")
          } else {
           Table::row(247050000, -28800, 0, "PST")
          }
         } else {
          if i < 30 {
           Table::row(262778400, -28800, 3600, "PDT")
          } else {
           if i < 31 {
            Table::row(278499600, -28800, 0, "PST")
           } else {
            Table::row(294228000, -28800, 3600, "PDT")
           }
          }
         }
        } else {
         if i < 34 {
          if i < 33 {
           Table::row(309949200, -28800, 0, "PST")
          } else {
           Table::row(325677600, -28800, 3600, "PDT")
          }
         } else {
          if i < 35 {
           Table::row(341398800, -28800, 0, "PST")
          } else {
           if i < 36 {
            Table::row(357127200, -28800, 3600, "PDT")
           } else {
            Table::row(372848400, -28800, 0, "PST")
           }
          }
         }
        }
       }
      }
     } else {
      if i < 55 {
       if i < 46 {
        if i < 41 {
         if i < 39 {
          if i < 38 {
           Table::row(388576800, -28800, 3600, "PDT")
          } else {
           Table::row(404902800, -28800, 0, "PST")
          }
         } else {
          if i < 40 {
           Table::row(420026400, -28800, 3600, "PDT")
          } else {
           Table::row(436352400, -28800, 0, "PST")
          }
         }
        } else {
         if i < 43 {
          if i < 42 {
           Table::row(452080800, -28800, 3600, "PDT")
          } else {
           Table::row(467802000, -28800, 0, "PST")
          }
         } else {
          if i < 44 {
           Table::row(483530400, -28800, 3600, "PDT")
          } else {
           if i < 45 {
            Table::row(499251600, -28800, 0, "PST")
           } else {
            Table::row(514980000, -28800, 3600, "PDT")
           }
          }
         }
        }
       } else {
        if i < 50 {
         if i < 48 {
          if i < 47 {
           Table::row(530701200, -28800, 0, "PST")
          } else {
           Table::row(544615200, -28800, 3600, "PDT")
          }
         } else {
          if i < 49 {
           Table::row(562150800, -28800, 0, "PST")
          } else {
           Table::row(576064800, -28800, 3600, "PDT")
          }
         }
        } else {
         if i < 52 {
          if i < 51 {
           Table::row(594205200, -28800, 0, "PST")
          } else {
           Table::row(607514400, -28800, 3600, "PDT")
          }
         } else {
          if i < 53 {
           Table::row(625654800, -28800, 0, "PST")
          } else {
           if i < 54 {
            Table::row(638964000, -28800, 3600, "PDT")
           } else {
            Table::row(657104400, -28800, 0, "PST")
           }
          }
         }
        }
       }
      } else {
       if i < 64 {
        if i < 59 {
         if i < 57 {
          if i < 56 {
           Table::row(671018400, -28800, 3600, "PDT")
          } else {
           Table::row(688554000, -28800, 0, "PST")
          }
         } else {
          if i < 58 {
           Table::row(702468000, -28800, 3600, "PDT")
          } else {
           Table::row(720003600, -28800, 0, "PST")
          }
         }
        } else {
         if i < 61 {
          if i < 60 {
           Table::row(733917600, -28800, 3600, "PDT")
          } else {
           Table::row(752058000, -28800, 0, "PST")
          }
         } else {
          if i < 62 {
           Table::row(765367200, -28800, 3600, "PDT")
          } else {
           if i < 63 {
            Table::row(783507600, -28800, 0, "PST")
           } else {
            Table::row(796816800, -28800, 3600, "PDT")
           }
          }
         }
        }
       } else {
        if i < 69 {
         if i < 66 {
          if i < 65 {
           Table::row(814957200, -28800, 0, "PST")
          } else {
           Table::row(828871200, -28800, 3600, "PDT")
          }
         } else {
          if i < 67 {
           Table::row(846406800, -28800, 0, "PST")
          } else {
           if i < 68 {
            Table::row(860320800, -28800, 3600, "PDT")
           } else {
            Table::row(877856400, -28800, 0, "PST")
           }
          }
         }
        } else {
         if i < 71 {
          if i < 70 {
           Table::row(891770400, -28800, 3600, "PDT")
          } else {
           Table::row(909306000, -28800, 0, "PST")
          }
         } else {
          if i < 72 {
           Table::row(923220000, -28800, 3600, "PDT")
          } else {
           if i < 73 {
            Table::row(941360400, -28800, 0, "PST")
           } else {
            Table::row(954669600, -28800, 3600, "PDT")
           }
          }
         }
        }
       }
      }
     }
    } else {
     if i < 111 {
      if i < 92 {
       if i < 83 {
        if i < 78 {
         if i < 76 {
          if i < 75 {
           Table::row(972810000, -28800, 0, "PST")
          } else {
           Table::row(986119200, -28800, 3600, "PDT")
          }
         } else {
          if i < 77 {
           Table::row(1004259600, -28800, 0, "PST")
          } else {
           Table::row(1018173600, -28800, 3600, "PDT")
          }
         }
        } else {
         if i < 80 {
          if i < 79 {
           Table::row(1035709200, -28800, 0, "PST")
          } else {
           Table::row(1049623200, -28800, 3600, "PDT")
          }
         } else {
          if i < 81 {
           Table::row(1067158800, -28800, 0, "PST")
          } else {
           if i < 82 {
            Table::row(1081072800, -28800, 3600, "PDT")
           } else {
            Table::row(1099213200, -28800, 0, "PST")
           }
          }
         }
        }
       } else {
        if i < 87 {
         if i < 85 {
          if i < 84 {
           Table::row(1112522400, -28800, 3600, "PDT")
          } else {
           Table::row(1130662800, -28800, 0, "PST")
          }
         } else {
          if i < 86 {
           Table::row(1143972000, -28800, 3600, "PDT")
          } else {
           Table::row(1162112400, -28800, 0, "PST")
          }
         }
        } else {
         if i < 89 {
          if i < 88 {
           Table::row(1173607200, -28800, 3600, "PDT")
          } else {
           Table::row(1194166800, -28800, 0, "PST")
          }
         } else {
          if i < 90 {
           Table::row(1205056800, -28800, 3600, "PDT")
          } else {
           if i < 91 {
            Table::row(1225616400, -28800, 0, "PST")
           } else {
            Table::row(1236506400, -28800, 3600, "PDT")
           }
          }
         }
        }
       }
      } else {
       if i < 101 {
        if i < 96 {
         if i < 94 {
          if i < 93 {
           Table::row(1257066000, -28800, 0, "PST")
          } else {
           Table::row(1268560800, -28800, 3600, "PDT")
          }
         } else {
          if i < 95 {
           Table::row(1289120400, -28800, 0, "PST")
          } else {
           Table::row(1300010400, -28800, 3600, "PDT")
          }
         }
        } else {
         if i < 98 {
          if i < 97 {
           Table::row(1320570000, -28800, 0, "PST")
          } else {
           Table::row(1331460000, -28800, 3600, "PDT")
          }
         } else {
          if i < 99 {
           Table::row(1352019600, -28800, 0, "PST")
          } else {
           if i < 100 {
            Table::row(1362909600, -28800, 3600, "PDT")
           } else {
            Table::row(1383469200, -28800, 0, "PST")
           }
          }
         }
        }
       } else {
        if i < 106 {
         if i < 103 {
          if i < 102 {
           Table::row(1394359200, -28800, 3600, "PDT")
          } else {
           Table::row(1414918800, -28800, 0, "PST")
          }
         } else {
          if i < 104 {
           Table::row(1425808800, -28800, 3600, "PDT")
          } else {
           if i < 105 {
            Table::row(1446368400, -28800, 0, "PST")
           } else {
            Table::row(1457863200, -28800, 3600, "PDT")
           }
          }
         }
        } else {
         if i < 108 {
          if i < 107 {
           Table::row(1478422800, -28800, 0, "PST")
          } else {
           Table::row(1489312800, -28800, 3600, "PDT")
          }
         } else {
          if i < 109 {
           Table::row(1509872400, -28800, 0, "PST")
          } else {
           if i < 110 {
            Table::row(1520762400, -28800, 3600, "PDT")
           } else {
            Table::row(1541322000, -28800, 0, "PST")
           }
          }
         }
        }
       }
      }
     } else {
      if i < 130 {
       if i < 120 {
        if i < 115 {
         if i < 113 {
          if i < 112 {
           Table::row(1552212000, -28800, 3600, "PDT")
          } else {
           Table::row(1572771600, -28800, 0, "PST")
          }
         } else {
          if i < 114 {
           Table::row(1583661600, -28800, 3600, "PDT")
          } else {
           Table::row(1604221200, -28800, 0, "PST")
          }
         }
        } else {
         if i < 117 {
          if i < 116 {
           Table::row(1615716000, -28800, 3600, "PDT")
          } else {
           Table::row(1636275600, -28800, 0, "PST")
          }
         } else {
          if i < 118 {
           Table::row(1647165600, -28800, 3600, "PDT")
          } else {
           if i < 119 {
            Table::row(1667725200, -28800, 0, "PST")
           } else {
            Table::row(1678615200, -28800, 3600, "PDT")
           }
          }
         }
        }
       } else {
        if i < 125 {
         if i < 122 {
          if i < 121 {
           Table::row(1699174800, -28800, 0, "PST")
          } else {
           Table::row(1710064800, -28800, 3600, "PDT")
          }
         } else {
          if i < 123 {
           Table::row(1730624400, -28800, 0, "PST")
          } else {
           if i < 124 {
            Table::row(1741514400, -28800, 3600, "PDT")
           } else {
            Table::row(1762074000, -28800, 0, "PST")
           }
          }
         }
        } else {
         if i < 127 {
          if i < 126 {
           Table::row(1772964000, -28800, 3600, "PDT")
          } else {
           Table::row(1793523600, -28800, 0, "PST")
          }
         } else {
          if i < 128 {
           Table::row(1805018400, -28800, 3600, "PDT")
          } else {
           if i < 129 {
            Table::row(1825578000, -28800, 0, "PST")
           } else {
            Table::row(1836468000, -28800, 3600, "PDT")
           }
          }
         }
        }
       }
      } else {
       if i < 139 {
        if i < 134 {
         if i < 132 {
          if i < 131 {
           Table::row(1857027600, -28800, 0, "PST")
          } else {
           Table::row(1867917600, -28800, 3600, "PDT")
          }
         } else {
          if i < 133 {
           Table::row(1888477200, -28800, 0, "PST")
          } else {
           Table::row(1899367200, -28800, 3600, "PDT")
          }
         }
        } else {
         if i < 136 {
          if i < 135 {
           Table::row(1919926800, -28800, 0, "PST")
          } else {
           Table::row(1930816800, -28800, 3600, "PDT")
          }
         } else {
          if i < 137 {
           Table::row(1951376400, -28800, 0, "PST")
          } else {
           if i < 138 {
            Table::row(1962871200, -28800, 3600, "PDT")
           } else {
            Table::row(1983430800, -28800, 0, "PST")
           }
          }
         }
        }
       } else {
        if i < 144 {
         if i < 141 {
          if i < 140 {
           Table::row(1994320800, -28800, 3600, "PDT")
          } else {
           Table::row(2014880400, -28800, 0, "PST")
          }
         } else {
          if i < 142 {
           Table::row(2025770400, -28800, 3600, "PDT")
          } else {
           if i < 143 {
            Table::row(2046330000, -28800, 0, "PST")
           } else {
            Table::row(2057220000, -28800, 3600, "PDT")
           }
          }
         }
        } else {
         if i < 146 {
          if i < 145 {
           Table::row(2077779600, -28800, 0, "PST")
          } else {
           Table::row(2088669600, -28800, 3600, "PDT")
          }
         } else {
          if i < 147 {
           Table::row(2109229200, -28800, 0, "PST")
          } else {
           if i < 148 {
            Table::row(2120119200, -28800, 3600, "PDT")
           } else {
            Table::row(2140678800, -28800, 0, "PST")
           }
          }
         }
        }
       }
      }
     }
    }
}

/// The rows of the table of the zone `PST8PDT`.
pub open spec fn pst8pdt_rows() -> spec_fn(int) -> (i64, FixedTimespan) {
    |i: int| pst8pdt_row(i)
}

/// The table of the zone `PST8PDT`.
pub open spec fn pst8pdt() -> Table {
    Table::listed(Table::row(0, -28800, 0, "PST").1, 149, pst8pdt_rows())
}

/// Row `i` of the table of the zone `Poland`.
pub open spec fn poland_row(i: int) -> (i64, FixedTimespan) {
    if i < 82 {
     if i < 41 {
      if i < 20 {
       if i < 10 {
        if i < 5 {
         if i < 2 {
          if i < 1 {
           Table::row(-2840145840, 5040, 0, "WMT")
          } else {
           Table::row(-1717032240, 3600, 0, "CET")
          }
         } else {
          if i < 3 {
           Table::row(-1693706400, 3600, 3600, "CEST")
          } else {
           if i < 4 {
            Table::row(-1680483600, 3600, 0, "CET")
           } else {
            Table::row(-1663455600, 3600, 3600, "CEST")
           }
          }
         }
        } else {
         if i < 7 {
          if i < 6 {
           Table::row(-1650150000, 3600, 0, "CET")
          } else {
           Table::row(-1632006000, 3600, 3600, "CEST")
          }
         } else {
          if i < 8 {
           Table::row(-1618700400, 7200, 0, "EET")
          } else {
           if i < 9 {
            Table::row(-1600473600, 7200, 3600, "EEST")
           } else {
            Table::row(-1587168000, 7200, 0, "EET")
           }
          }
         }
        }
       } else {
        if i < 15 {
         if i < 12 {
          if i < 11 {
           Table::row(-1501725600, 3600, 0, "CET")
          } else {
           Table::row(-931734000, 3600, 3600, "CEST")
          }
         } else {
          if i < 13 {
           Table::row(-857257200, 3600, 0, "CET")
          } else {
           if i < 14 {
            Table::row(-844556400, 3600, 3600, "CEST")
           } else {
            Table::row(-828226800, 3600, 0, "CET")
           }
          }
         }
        } else {
         if i < 17 {
          if i < 16 {
           Table::row(-812502000, 3600, 3600, "CEST")
          } else {
           Table::row(-796608000, 3600, 0, "CET")
          }
         } else {
          if i < 18 {
           Table::row(-778726800, 3600, 3600, "CEST")
          } else {
           if i < 19 {
            Table::row(-762660000, 3600, 0, "CET")
           } else {
            Table::row(-748486800, 3600, 3600, "CEST")
           }
          }
         }
        }
       }
      } else {
       if i < 30 {
        if i < 25 {
         if i < 22 {
          if i < 21 {
           Table::row(-733273200, 3600, 0, "CET")
          } else {
           Table::row(-715215600, 3600, 3600, "CEST")
          }
         } else {
          if i < 23 {
           Table::row(-701910000, 3600, 0, "CET")
          } else {
           if i < 24 {
            Table::row(-684975600, 3600, 3600, "CEST")
           } else {
            Table::row(-670460400, 3600, 0, "CET")
           }
          }
         }
        } else {
         if i < 27 {
          if i < 26 {
           Table::row(-654130800, 3600, 3600, "CEST")
          } else {
           Table::row(-639010800, 3600, 0, "CET")
          }
         } else {
          if i < 28 {
           Table::row(-397094400, 3600, 3600, "CEST")
          } else {
           if i < 29 {
            Table::row(-386812800, 3600, 0, "CET")
           } else {
            Table::row(-371088000, 3600, 3600, "CEST")
           }
          }
         }
        }
       } else {
        if i < 35 {
         if i < 32 {
          if i < 31 {
           Table::row(-355363200, 3600, 0, "CET")
          } else {
           Table::row(-334195200, 3600, 3600, "CEST")
          }
         } else {
          if i < 33 {
           Table::row(-323308800, 3600, 0, "CET")
          } else {
           if i < 34 {
            Table::row(-307584000, 3600, 3600, "CEST")
           } else {
            Table::row(-291859200, 3600, 0, "CET")
           }
          }
         }
        } else {
         if i < 38 {
          if i < 36 {
           Table::row(-271296000, 3600, 3600, "CEST")
          } else {
           if i < 37 {
            Table::row(-260409600, 3600, 0, "CET")
           } else {
            Table::row(-239846400, 3600, 3600, "CEST")
           }
          }
         } else {
          if i < 39 {
           Table::row(-228960000, 3600, 0, "CET")
          } else {
           if i < 40 {
            Table::row(-208396800, 3600, 3600, "CEST")
           } else {
            Table::row(-197510400, 3600, 0, "CET")
           }
          }
         }
        }
       }
      }
     } else {
      if i < 61 {
       if i < 51 {
        if i < 46 {
         if i < 43 {
          if i < 42 {
           Table::row(-176342400, 3600, 3600, "CEST")
          } else {
           Table::row(-166060800, 3600, 0, "CET")
          }
         } else {
          if i < 44 {
           Table::row(228873600, 3600, 3600, "CEST")
          } else {
           if i < 45 {
            Table::row(243993600, 3600, 0, "CET")
           } else {
            Table::row(260323200, 3600, 3600, "CEST")
           }
          }
         }
        } else {
         if i < 48 {
          if i < 47 {
           Table::row(276048000, 3600, 0, "CET")
          } else {
           Table::row(291772800, 3600, 3600, "CEST")
          }
         } else {
          if i < 49 {
           Table::row(307497600, 3600, 0, "CET")
          } else {
           if i < 50 {
            Table::row(323827200, 3600, 3600, "CEST")
           } else {
            Table::row(338947200, 3600, 0, "CET")
           }
          }
         }
        }
       } else {
        if i < 56 {
         if i < 53 {
          if i < 52 {
           Table::row(354672000, 3600, 3600, "CEST")
          } else {
           Table::row(370396800, 3600, 0, "CET")
          }
         } else {
          if i < 54 {
           Table::row(386121600, 3600, 3600, "CEST")
          } else {
           if i < 55 {
            Table::row(401846400, 3600, 0, "CET")
           } else {
            Table::row(417571200, 3600, 3600, "CEST")
           }
          }
         }
        } else {
         if i < 58 {
          if i < 57 {
           Table::row(433296000, 3600, 0, "CET")
          } else {
           Table::row(449020800, 3600, 3600, "CEST")
          }
         } else {
          if i < 59 {
           Table::row(465350400, 3600, 0, "CET")
          } else {
           if i < 60 {
            Table::row(481075200, 3600, 3600, "CEST")
           } else {
            Table::row(496800000, 3600, 0, "CET")
           }
          }
         }
        }
       }
      } else {
       if i < 71 {
        if i < 66 {
         if i < 63 {
          if i < 62 {
           Table::row(512524800, 3600, 3600, "CEST")
          } else {
           Table::row(528249600, 3600, 0, "CET")
          }
         } else {
          if i < 64 {
           Table::row(543974400, 3600, 3600, "CEST")
          } else {
           if i < 65 {
            Table::row(559699200, 3600, 0, "CET")
           } else {
            Table::row(575427600, 3600, 3600, "CEST")
           }
          }
         }
        } else {
         if i < 68 {
          if i < 67 {
           Table::row(591152400, 3600, 0, "CET")
          } else {
           Table::row(606877200, 3600, 3600, "CEST")
          }
         } else {
          if i < 69 {
           Table::row(622602000, 3600, 0, "CET")
          } else {
           if i < 70 {
            Table::row(638326800, 3600, 3600, "CEST")
           } else {
            Table::row(654656400, 3600, 0, "CET")
           }
          }
         }
        }
       } else {
        if i < 76 {
         if i < 73 {
          if i < 72 {
           Table::row(670381200, 3600, 3600, "CEST")
          } else {
           Table::row(686106000, 3600, 0, "CET")
          }
         } else {
          if i < 74 {
           Table::row(701830800, 3600, 3600, "CEST")
          } else {
           if i < 75 {
            Table::row(717555600, 3600, 0, "CET")
           } else {
            Table::row(733280400, 3600, 3600, "CEST")
           }
          }
         }
        } else {
         if i < 79 {
          if i < 77 {
           Table::row(749005200, 3600, 0, "CET")
          } else {
           if i < 78 {
            Table::row(764730000, 3600, 3600, "CEST")
           } else {
            Table::row(780454800, 3600, 0, "CET")
           }
          }
         } else {
          if i < 80 {
           Table::row(796179600, 3600, 3600, "CEST")
          } else {
           if i < 81 {
            Table::row(811904400, 3600, 0, "CET")
           } else {
            Table::row(828234000, 3600, 3600, "CEST")
           }
          }
         }
        }
       }
      }
     }
    } else {
     if i < 123 {
      if i < 102 {
       if i < 92 {
        if i < 87 {
         if i < 84 {
          if i < 83 {
           Table::row(846378000, 3600, 0, "CET")
          } else {
           Table::row(859683600, 3600, 3600, "CEST")
          }
         } else {
          if i < 85 {
           Table::row(877827600, 3600, 0, "CET")
          } else {
           if i < 86 {
            Table::row(891133200, 3600, 3600, "CEST")
           } else {
            Table::row(909277200, 3600, 0, "CET")
           }
          }
         }
        } else {
         if i < 89 {
          if i < 88 {
           Table::row(922582800, 3600, 3600, "CEST")
          } else {
           Table::row(941331600, 3600, 0, "CET")
          }
         } else {
          if i < 90 {
           Table::row(954032400, 3600, 3600, "CEST")
          } else {
           if i < 91 {
            Table::row(972781200, 3600, 0, "CET")
           } else {
            Table::row(985482000, 3600, 3600, "CEST")
           }
          }
         }
        }
       } else {
        if i < 97 {
         if i < 94 {
          if i < 93 {
           Table::row(1004230800, 3600, 0, "CET")
          } else {
           Table::row(1017536400, 3600, 3600, "CEST")
          }
         } else {
          if i < 95 {
           Table::row(1035680400, 3600, 0, "CET")
          } else {
           if i < 96 {
            Table::row(1048986000, 3600, 3600, "CEST")
           } else {
            Table::row(1067130000, 3600, 0, "CET")
           }
          }
         }
        } else {
         if i < 99 {
          if i < 98 {
           Table::row(1080435600, 3600, 3600, "CEST")
          } else {
           Table::row(1099184400, 3600, 0, "CET")
          }
         } else {
          if i < 100 {
           Table::row(1111885200, 3600, 3600, "CEST")
          } else {
           if i < 101 {
            Table::row(1130634000, 3600, 0, "CET")
           } else {
            Table::row(1143334800, 3600, 3600, "CEST")
           }
          }
         }
        }
       }
      } else {
       if i < 112 {
        if i < 107 {
         if i < 104 {
          if i < 103 {
           Table::row(1162083600, 3600, 0, "CET")
          } else {
           Table::row(1174784400, 3600, 3600, "CEST")
          }
         } else {
          if i < 105 {
           Table::row(1193533200, 3600, 0, "CET")
          } else {
           if i < 106 {
            Table::row(1206838800, 3600, 3600, "CEST")
           } else {
            Table::row(1224982800, 3600, 0, "CET")
           }
          }
         }
        } else {
         if i < 109 {
          if i < 108 {
           Table::row(1238288400, 3600, 3600, "CEST")
          } else {
           Table::row(1256432400, 3600, 0, "CET")
          }
         } else {
          if i < 110 {
           Table::row(1269738000, 3600, 3600, "CEST")
          } else {
           if i < 111 {
            Table::row(1288486800, 3600, 0, "CET")
           } else {
            Table::row(1301187600, 3600, 3600, "CEST")
           }
          }
         }
        }
       } else {
        if i < 117 {
         if i < 114 {
          if i < 113 {
           Table::row(1319936400, 3600, 0, "CET")
          } else {
           Table::row(1332637200, 3600, 3600, "CEST")
          }
         } else {
          if i < 115 {
           Table::row(1351386000, 3600, 0, "CET")
          } else {
           if i < 116 {
            Table::row(1364691600, 3600, 3600, "CEST")
           } else {
            Table::row(1382835600, 3600, 0, "CET")
           }
          }
         }
        } else {
         if i < 120 {
          if i < 118 {
           Table::row(1396141200, 3600, 3600, "CEST")
          } else {
           if i < 119 {
            Table::row(1414285200, 3600, 0, "CET")
           } else {
            Table::row(1427590800, 3600, 3600, "CEST")
           }
          }
         } else {
          if i < 121 {
           Table::row(1445734800, 3600, 0, "CET")
          } else {
           if i < 122 {
            Table::row(1459040400, 3600, 3600, "CEST")
           } else {
            Table::row(1477789200, 3600, 0, "CET")
           }
          }
         }
        }
       }
      }
     } else {
      if i < 144 {
       if i < 133 {
        if i < 128 {
         if i < 125 {
          if i < 124 {
           Table::row(1490490000, 3600, 3600, "CEST")
          } else {
           Table::row(1509238800, 3600, 0, "CET")
          }
         } else {
          if i < 126 {
           Table::row(1521939600, 3600, 3600, "CEST")
          } else {
           if i < 127 {
            Table::row(1540688400, 3600, 0, "CET")
           } else {
            Table::row(1553994000, 3600, 3600, "CEST")
           }
          }
         }
        } else {
         if i < 130 {
          if i < 129 {
           Table::row(1572138000, 3600, 0, "CET")
          } else {
           Table::row(1585443600, 3600, 3600, "CEST")
          }
         } else {
          if i < 131 {
           Table::row(1603587600, 3600, 0, "CET")
          } else {
           if i < 132 {
            Table::row(1616893200, 3600, 3600, "CEST")
           } else {
            Table::row(1635642000, 3600, 0, "CET")
           }
          }
         }
        }
       } else {
        if i < 138 {
         if i < 135 {
          if i < 134 {
           Table::row(1648342800, 3600, 3600, "CEST")
          } else {
           Table::row(1667091600, 3600, 0, "CET")
          }
         } else {
          if i < 136 {
           Table::row(1679792400, 3600, 3600, "CEST")
          } else {
           if i < 137 {
            Table::row(1698541200, 3600, 0, "CET")
           } else {
            Table::row(1711846800, 3600, 3600, "CEST")
           }
          }
         }
        } else {
         if i < 141 {
          if i < 139 {
           Table::row(1729990800, 3600, 0, "CET")
          } else {
           if i < 140 {
            Table::row(1743296400, 3600, 3600, "CEST")
           } else {
            Table::row(1761440400, 3600, 0, "CET")
           }
          }
         } else {
          if i < 142 {
           Table::row(1774746000, 3600, 3600, "CEST")
          } else {
           if i < 143 {
            Table::row(1792890000, 3600, 0, "CET")
           } else {
            Table::row(1806195600, 3600, 3600, "CEST")
           }
          }
         }
        }
       }
      } else {
       if i < 154 {
        if i < 149 {
         if i < 146 {
          if i < 145 {
           Table::row(1824944400, 3600, 0, "CET")
          } else {
           Table::row(1837645200, 3600, 3600, "CEST")
          }
         } else {
          if i < 147 {
           Table::row(1856394000, 3600, 0, "CET")
          } else {
           if i < 148 {
            Table::row(1869094800, 3600, 3600, "CEST")
           } else {
            Table::row(1887843600, 3600, 0, "CET")
           }
          }
         }
        } else {
         if i < 151 {
          if i < 150 {
           Table::row(1901149200, 3600, 3600, "CEST")
          } else {
           Table::row(1919293200, 3600, 0, "CET")
          }
         } else {
          if i < 152 {
           Table::row(1932598800, 3600, 3600, "CEST")
          } else {
           if i < 153 {
            Table::row(1950742800, 3600, 0, "CET")
           } else {
            Table::row(1964048400, 3600, 3600, "CEST")
           }
          }
         }
        }
       } else {
        if i < 159 {
         if i < 156 {
          if i < 155 {
           Table::row(1982797200, 3600, 0, "CET")
          } else {
           Table::row(1995498000, 3600, 3600, "CEST")
          }
         } else {
          if i < 157 {
           Table::row(2014246800, 3600, 0, "CET")
          } else {
           if i < 158 {
            Table::row(2026947600, 3600, 3600, "CEST")
           } else {
            Table::row(2045696400, 3600, 0, "CET")
           }
          }
         }
        } else {
         if i < 162 {
          if i < 160 {
           Table::row(2058397200, 3600, 3600, "CEST")
          } else {
           if i < 161 {
            Table::row(2077146000, 3600, 0, "CET")
           } else {
            Table::row(2090451600, 3600, 3600, "CEST")
           }
          }
         } else {
          if i < 163 {
           Table::row(2108595600, 3600, 0, "CET")
          } else {
           if i < 164 {
            Table::row(2121901200, 3600, 3600, "CEST")
           } else {
            Table::row(2140045200, 3600, 0, "CET")
           }
          }
         }
        }
       }
      }
     }
    }
}

/// The rows of the table of the zone `Poland`.
pub open spec fn poland_rows() -> spec_fn(int) -> (i64, FixedTimespan) {
    |i: int| poland_row(i)
}

/// The table of the zone `Poland`.
pub open spec fn poland() -> Table {
    Table::listed(Table::row(0, 5040, 0, "LMT").1, 165, poland_rows())
}

/// Row `i` of the table of the zone `Portugal`.
pub open spec fn portugal_row(i: int) -> (i64, FixedTimespan) {
    if i < 112 {
     if i < 56 {
      if i < 28 {
       if i < 14 {
        if i < 7 {
         if i < 3 {
          if i < 1 {
           Table::row(-2713908195, -2205, 0, "LMT")
          } else {
           if i < 2 {
            Table::row(-1830384000, 0, 0, "WET")
           } else {
            Table::row(-1689555600, 0, 3600, "WEST")
           }
          }
         } else {
          if i < 5 {
           if i < 4 {
            Table::row(-1677801600, 0, 0, "WET")
           } else {
            Table::row(-1667433600, 0, 3600, "WEST")
           }
          } else {
           if i < 6 {
            Table::row(-1647738000, 0, 0, "WET")
           } else {
            Table::row(-1635897600, 0, 3600, "WEST")
           }
          }
         }
        } else {
         if i < 10 {
          if i < 8 {
           Table::row(-1616202000, 0, 0, "WET")
          } else {
           if i < 9 {
            Table::row(-1604361600, 0, 3600, "WEST")
           } else {
            Table::row(-1584666000, 0, 0, "WET")
           }
          }
         } else {
          if i < 12 {
           if i < 11 {
            Table::row(-1572739200, 0, 3600, "WEST")
           } else {
            Table::row(-1553043600, 0, 0, "WET")
           }
          } else {
           if i < 13 {
            Table::row(-1541203200, 0, 3600, "WEST")
           } else {
            Table::row(-1521507600, 0, 0, "WET")
           }
          }
         }
        }
       } else {
        if i < 21 {
         if i < 17 {
          if i < 15 {
           Table::row(-1442451600, 0, 3600, "WEST")
          } else {
           if i < 16 {
            Table::row(-1427677200, 0, 0, "WET")
           } else {
            Table::row(-1379293200, 0, 3600, "WEST")
           }
          }
         } else {
          if i < 19 {
           if i < 18 {
            Table::row(-1364778000, 0, 0, "WET")
           } else {
            Table::row(-1348448400, 0, 3600, "WEST")
           }
          } else {
           if i < 20 {
            Table::row(-1333328400, 0, 0, "WET")
           } else {
            Table::row(-1316394000, 0, 3600, "WEST")
           }
          }
         }
        } else {
         if i < 24 {
          if i < 22 {
           Table::row(-1301274000, 0, 0, "WET")
          } else {
           if i < 23 {
            Table::row(-1284339600, 0, 3600, "WEST")
           } else {
            Table::row(-1269824400, 0, 0, "WET")
           }
          }
         } else {
          if i < 26 {
           if i < 25 {
            Table::row(-1221440400, 0, 3600, "WEST")
           } else {
            Table::row(-1206925200, 0, 0, "WET")
           }
          } else {
           if i < 27 {
            Table::row(-1191200400, 0, 3600, "WEST")
           } else {
            Table::row(-1175475600, 0, 0, "WET")
           }
          }
         }
        }
       }
      } else {
       if i < 42 {
        if i < 35 {
         if i < 31 {
          if i < 29 {
           Table::row(-1127696400, 0, 3600, "WEST")
          } else {
           if i < 30 {
            Table::row(-1111971600, 0, 0, "WET")
           } else {
            Table::row(-1096851600, 0, 3600, "WEST")
           }
          }
         } else {
          if i < 33 {
           if i < 32 {
            Table::row(-1080522000, 0, 0, "WET")
           } else {
            Table::row(-1063587600, 0, 3600, "WEST")
           }
          } else {
           if i < 34 {
            Table::row(-1049072400, 0, 0, "WET")
           } else {
            Table::row(-1033347600, 0, 3600, "WEST")
           }
          }
         }
        } else {
         if i < 38 {
          if i < 36 {
           Table::row(-1017622800, 0, 0, "WET")
          } else {
           if i < 37 {
            Table::row(-1002502800, 0, 3600, "WEST")
           } else {
            Table::row(-986173200, 0, 0, "WET")
           }
          }
         } else {
          if i < 40 {
           if i < 39 {
            Table::row(-969238800, 0, 3600, "WEST")
           } else {
            Table::row(-950490000, 0, 0, "WET")
           }
          } else {
           if i < 41 {
            Table::row(-942022800, 0, 3600, "WEST")
           } else {
            Table::row(-922496400, 0, 0, "WET")
           }
          }
         }
        }
       } else {
        if i < 49 {
         if i < 45 {
          if i < 43 {
           Table::row(-906944400, 0, 3600, "WEST")
          } else {
           if i < 44 {
            Table::row(-891133200, 0, 0, "WET")
           } else {
            Table::row(-877309200, 0, 3600, "WEST")
           }
          }
         } else {
          if i < 47 {
           if i < 46 {
            Table::row(-873684000, 0, 7200, "WEMT")
           } else {
            Table::row(-864007200, 0, 3600, "WEST")
           }
          } else {
           if i < 48 {
            Table::row(-857955600, 0, 0, "WET")
           } else {
            Table::row(-845859600, 0, 3600, "WEST")
           }
          }
         }
        } else {
         if i < 52 {
          if i < 50 {
           Table::row(-842839200, 0, 7200, "WEMT")
          } else {
           if i < 51 {
            Table::row(-831348000, 0, 3600, "WEST")
           } else {
            Table::row(-825901200, 0, 0, "WET")
           }
          }
         } else {
          if i < 54 {
           if i < 53 {
            Table::row(-814410000, 0, 3600, "WEST")
           } else {
            Table::row(-810784800, 0, 7200, "WEMT")
           }
          } else {
           if i < 55 {
            Table::row(-799898400, 0, 3600, "WEST")
           } else {
            Table::row(-794451600, 0, 0, "WET")
           }
          }
         }
        }
       }
      }
     } else {
      if i < 84 {
       if i < 70 {
        if i < 63 {
         if i < 59 {
          if i < 57 {
           Table::row(-782960400, 0, 3600, "WEST")
          } else {
           if i < 58 {
            Table::row(-779335200, 0, 7200, "WEMT")
           } else {
            Table::row(-768448800, 0, 3600, "WEST")
           }
          }
         } else {
          if i < 61 {
           if i < 60 {
            Table::row(-763002000, 0, 0, "WET")
           } else {
            Table::row(-749091600, 0, 3600, "WEST")
           }
          } else {
           if i < 62 {
            Table::row(-733366800, 0, 0, "WET")
           } else {
            Table::row(-717631200, 0, 3600, "WEST")
           }
          }
         }
        } else {
         if i < 66 {
          if i < 64 {
           Table::row(-701906400, 0, 0, "WET")
          } else {
           if i < 65 {
            Table::row(-686181600, 0, 3600, "WEST")
           } else {
            Table::row(-670456800, 0, 0, "WET")
           }
          }
         } else {
          if i < 68 {
           if i < 67 {
            Table::row(-654732000, 0, 3600, "WEST")
           } else {
            Table::row(-639007200, 0, 0, "WET")
           }
          } else {
           if i < 69 {
            Table::row(-623282400, 0, 3600, "WEST")
           } else {
            Table::row(-607557600, 0, 0, "WET")
           }
          }
         }
        }
       } else {
        if i < 77 {
         if i < 73 {
          if i < 71 {
           Table::row(-591832800, 0, 3600, "WEST")
          } else {
           if i < 72 {
            Table::row(-575503200, 0, 0, "WET")
           } else {
            Table::row(-559778400, 0, 3600, "WEST")
           }
          }
         } else {
          if i < 75 {
           if i < 74 {
            Table::row(-544053600, 0, 0, "WET")
           } else {
            Table::row(-528328800, 0, 3600, "WEST")
           }
          } else {
           if i < 76 {
            Table::row(-512604000, 0, 0, "WET")
           } else {
            Table::row(-496879200, 0, 3600, "WEST")
           }
          }
         }
        } else {
         if i < 80 {
          if i < 78 {
           Table::row(-481154400, 0, 0, "WET")
          } else {
           if i < 79 {
            Table::row(-465429600, 0, 3600, "WEST")
           } else {
            Table::row(-449704800, 0, 0, "WET")
           }
          }
         } else {
          if i < 82 {
           if i < 81 {
            Table::row(-433980000, 0, 3600, "WEST")
           } else {
            Table::row(-417650400, 0, 0, "WET")
           }
          } else {
           if i < 83 {
            Table::row(-401925600, 0, 3600, "WEST")
           } else {
            Table::row(-386200800, 0, 0, "WET")
           }
          }
         }
        }
       }
      } else {
       if i < 98 {
        if i < 91 {
         if i < 87 {
          if i < 85 {
           Table::row(-370476000, 0, 3600, "WEST")
          } else {
           if i < 86 {
            Table::row(-354751200, 0, 0, "WET")
           } else {
            Table::row(-339026400, 0, 3600, "WEST")
           }
          }
         } else {
          if i < 89 {
           if i < 88 {
            Table::row(-323301600, 0, 0, "WET")
           } else {
            Table::row(-307576800, 0, 3600, "WEST")
           }
          } else {
           if i < 90 {
            Table::row(-291852000, 0, 0, "WET")
           } else {
            Table::row(-276127200, 0, 3600, "WEST")
           }
          }
         }
        } else {
         if i < 94 {
          if i < 92 {
           Table::row(-260402400, 0, 0, "WET")
          } else {
           if i < 93 {
            Table::row(-244677600, 0, 3600, "WEST")
           } else {
            Table::row(-228348000, 0, 0, "WET")
           }
          }
         } else {
          if i < 96 {
           if i < 95 {
            Table::row(-212623200, 0, 3600, "WEST")
           } else {
            Table::row(-196898400, 0, 0, "WET")
           }
          } else {
           if i < 97 {
            Table::row(-181173600, 0, 3600, "WEST")
           } else {
            Table::row(-165448800, 0, 0, "WET")
           }
          }
         }
        }
       } else {
        if i < 105 {
         if i < 101 {
          if i < 99 {
           Table::row(-149724000, 0, 3600, "WEST")
          } else {
           if i < 100 {
            Table::row(-133999200, 0, 0, "WET")
           } else {
            Table::row(-118274400, 0, 3600, "WEST")
           }
          }
         } else {
          if i < 103 {
           if i < 102 {
            Table::row(-102549600, 3600, 0, "CET")
           } else {
            Table::row(212544000, 0, 0, "WET")
           }
          } else {
           if i < 104 {
            Table::row(228268800, 0, 3600, "WEST")
           } else {
            Table::row(243993600, 0, 0, "WET")
           }
          }
         }
        } else {
         if i < 108 {
          if i < 106 {
           Table::row(260326800, 0, 3600, "WEST")
          } else {
           if i < 107 {
            Table::row(276051600, 0, 0, "WET")
           } else {
            Table::row(291776400, 0, 3600, "WEST")
           }
          }
         } else {
          if i < 110 {
           if i < 109 {
            Table::row(307501200, 0, 0, "WET")
           } else {
            Table::row(323830800, 0, 3600, "WEST")
           }
          } else {
           if i < 111 {
            Table::row(338950800, 0, 0, "WET")
           } else {
            Table::row(354672000, 0, 3600, "WEST")
           }
          }
         }
        }
       }
      }
     }
    } else {
     if i < 168 {
      if i < 140 {
       if i < 126 {
        if i < 119 {
         if i < 115 {
          if i < 113 {
           Table::row(370396800, 0, 0, "WET")
          } else {
           if i < 114 {
            Table::row(386121600, 0, 3600, "WEST")
           } else {
            Table::row(401846400, 0, 0, "WET")
           }
          }
         } else {
          if i < 117 {
           if i < 116 {
            Table::row(417571200, 0, 3600, "WEST")
           } else {
            Table::row(433296000, 0, 0, "WET")
           }
          } else {
           if i < 118 {
            Table::row(449020800, 0, 3600, "WEST")
           } else {
            Table::row(465350400, 0, 0, "WET")
           }
          }
         }
        } else {
         if i < 122 {
          if i < 120 {
           Table::row(481075200, 0, 3600, "WEST")
          } else {
           if i < 121 {
            Table::row(496800000, 0, 0, "WET")
           } else {
            Table::row(512528400, 0, 3600, "WEST")
           }
          }
         } else {
          if i < 124 {
           if i < 123 {
            Table::row(528253200, 0, 0, "WET")
           } else {
            Table::row(543978000, 0, 3600, "WEST")
           }
          } else {
           if i < 125 {
            Table::row(559702800, 0, 0, "WET")
           } else {
            Table::row(575427600, 0, 3600, "WEST")
           }
          }
         }
        }
       } else {
        if i < 133 {
         if i < 129 {
          if i < 127 {
           Table::row(591152400, 0, 0, "WET")
          } else {
           if i < 128 {
            Table::row(606877200, 0, 3600, "WEST")
           } else {
            Table::row(622602000, 0, 0, "WET")
           }
          }
         } else {
          if i < 131 {
           if i < 130 {
            Table::row(638326800, 0, 3600, "WEST")
           } else {
            Table::row(654656400, 0, 0, "WET")
           }
          } else {
           if i < 132 {
            Table::row(670381200, 0, 3600, "WEST")
           } else {
            Table::row(686106000, 0, 0, "WET")
           }
          }
         }
        } else {
         if i < 136 {
          if i < 134 {
           Table::row(701830800, 0, 3600, "WEST")
          } else {
           if i < 135 {
            Table::row(717555600, 3600, 0, "CET")
           } else {
            Table::row(733280400, 3600, 3600, "CEST")
           }
          }
         } else {
          if i < 138 {
           if i < 137 {
            Table::row(749005200, 3600, 0, "CET")
           } else {
            Table::row(764730000, 3600, 3600, "CEST")
           }
          } else {
           if i < 139 {
            Table::row(780454800, 3600, 0, "CET")
           } else {
            Table::row(796179600, 3600, 3600, "CEST")
           }
          }
         }
        }
       }
      } else {
       if i < 154 {
        if i < 147 {
         if i < 143 {
          if i < 141 {
           Table::row(811904400, 3600, 0, "CET")
          } else {
           if i < 142 {
            Table::row(828234000, 0, 3600, "WEST")
           } else {
            Table::row(846378000, 0, 0, "WET")
           }
          }
         } else {
          if i < 145 {
           if i < 144 {
            Table::row(859683600, 0, 3600, "WEST")
           } else {
            Table::row(877827600, 0, 0, "WET")
           }
          } else {
           if i < 146 {
            Table::row(891133200, 0, 3600, "WEST")
           } else {
            Table::row(909277200, 0, 0, "WET")
           }
          }
         }
        } else {
         if i < 150 {
          if i < 148 {
           Table::row(922582800, 0, 3600, "WEST")
          } else {
           if i < 149 {
            Table::row(941331600, 0, 0, "WET")
           } else {
            Table::row(954032400, 0, 3600, "WEST")
           }
          }
         } else {
          if i < 152 {
           if i < 151 {
            Table::row(972781200, 0, 0, "WET")
           } else {
            Table::row(985482000, 0, 3600, "WEST")
           }
          } else {
           if i < 153 {
            Table::row(1004230800, 0, 0, "WET")
           } else {
            Table::row(1017536400, 0, 3600, "WEST")
           }
          }
         }
        }
       } else {
        if i < 161 {
         if i < 157 {
          if i < 155 {
           Table::row(1035680400, 0, 0, "WET")
          } else {
           if i < 156 {
            Table::row(1048986000, 0, 3600, "WEST")
           } else {
            Table::row(1067130000, 0, 0, "WET")
           }
          }
         } else {
          if i < 159 {
           if i < 158 {
            Table::row(1080435600, 0, 3600, "WEST")
           } else {
            Table::row(1099184400, 0, 0, "WET")
           }
          } else {
           if i < 160 {
            Table::row(1111885200, 0, 3600, "WEST")
           } else {
            Table::row(1130634000, 0, 0, "WET")
           }
          }
         }
        } else {
         if i < 164 {
          if i < 162 {
           Table::row(1143334800, 0, 3600, "WEST")
          } else {
           if i < 163 {
            Table::row(1162083600, 0, 0, "WET")
           } else {
            Table::row(1174784400, 0, 3600, "WEST")
           }
          }
         } else {
          if i < 166 {
           if i < 165 {
            Table::row(1193533200, 0, 0, "WET")
           } else {
            Table::row(1206838800, 0, 3600, "WEST")
           }
          } else {
           if i < 167 {
            Table::row(1224982800, 0, 0, "WET")
           } else {
            Table::row(1238288400, 0, 3600, "WEST")
           }
          }
         }
        }
       }
      }
     } else {
      if i < 196 {
       if i < 182 {
        if i < 175 {
         if i < 171 {
          if i < 169 {
           Table::row(1256432400, 0, 0, "WET")
          } else {
           if i < 170 {
            Table::row(1269738000, 0, 3600, "WEST")
           } else {
            Table::row(1288486800, 0, 0, "WET")
           }
          }
         } else {
          if i < 173 {
           if i < 172 {
            Table::row(1301187600, 0, 3600, "WEST")
           } else {
            Table::row(1319936400, 0, 0, "WET")
           }
          } else {
           if i < 174 {
            Table::row(1332637200, 0, 3600, "WEST")
           } else {
            Table::row(1351386000, 0, 0, "WET")
           }
          }
         }
        } else {
         if i < 178 {
          if i < 176 {
           Table::row(1364691600, 0, 3600, "WEST")
          } else {
           if i < 177 {
            Table::row(1382835600, 0, 0, "WET")
           } else {
            Table::row(1396141200, 0, 3600, "WEST")
           }
          }
         } else {
          if i < 180 {
           if i < 179 {
            Table::row(1414285200, 0, 0, "WET")
           } else {
            Table::row(1427590800, 0, 3600, "WEST")
           }
          } else {
           if i < 181 {
            Table::row(1445734800, 0, 0, "WET")
           } else {
            Table::row(1459040400, 0, 3600, "WEST")
           }
          }
         }
        }
       } else {
        if i < 189 {
         if i < 185 {
          if i < 183 {
           Table::row(1477789200, 0, 0, "WET")
          } else {
           if i < 184 {
            Table::row(1490490000, 0, 3600, "WEST")
           } else {
            Table::row(1509238800, 0, 0, "WET")
           }
          }
         } else {
          if i < 187 {
           if i < 186 {
            Table::row(1521939600, 0, 3600, "WEST")
           } else {
            Table::row(1540688400, 0, 0, "WET")
           }
          } else {
           if i < 188 {
            Table::row(1553994000, 0, 3600, "WEST")
           } else {
            Table::row(1572138000, 0, 0, "WET")
           }
          }
         }
        } else {
         if i < 192 {
          if i < 190 {
           Table::row(1585443600, 0, 3600, "WEST")
          } else {
           if i < 191 {
            Table::row(1603587600, 0, 0, "WET")
           } else {
            Table::row(1616893200, 0, 3600, "WEST")
           }
          }
         } else {
          if i < 194 {
           if i < 193 {
            Table::row(1635642000, 0, 0, "WET")
           } else {
            Table::row(1648342800, 0, 3600, "WEST")
           }
          } else {
           if i < 195 {
            Table::row(1667091600, 0, 0, "WET")
           } else {
            Table::row(1679792400, 0, 3600, "WEST")
           }
          }
         }
        }
       }
      } else {
       if i < 210 {
        if i < 203 {
         if i < 199 {
          if i < 197 {
           Table::row(1698541200, 0, 0, "WET")
          } else {
           if i < 198 {
            Table::row(1711846800, 0, 3600, "WEST")
           } else {
            Table::row(1729990800, 0, 0, "WET")
           }
          }
         } else {
          if i < 201 {
           if i < 200 {
            Table::row(1743296400, 0, 3600, "WEST")
           } else {
            Table::row(1761440400, 0, 0, "WET")
           }
          } else {
           if i < 202 {
            Table::row(1774746000, 0, 3600, "WEST")
           } else {
            Table::row(1792890000, 0, 0, "WET")
           }
          }
         }
        } else {
         if i < 206 {
          if i < 204 {
           Table::row(1806195600, 0, 3600, "WEST")
          } else {
           if i < 205 {
            Table::row(1824944400, 0, 0, "WET")
           } else {
            Table::row(1837645200, 0, 3600, "WEST")
           }
          }
         } else {
          if i < 208 {
           if i < 207 {
            Table::row(1856394000, 0, 0, "WET")
           } else {
            Table::row(1869094800, 0, 3600, "WEST")
           }
          } else {
           if i < 209 {
            Table::row(1887843600, 0, 0, "WET")
           } else {
            Table::row(1901149200, 0, 3600, "WEST")
           }
          }
         }
        }
       } else {
        if i < 217 {
         if i < 213 {
          if i < 211 {
           Table::row(1919293200, 0, 0, "WET")
          } else {
           if i < 212 {
            Table::row(1932598800, 0, 3600, "WEST")
           } else {
            Table::row(1950742800, 0, 0, "WET")
           }
          }
         } else {
          if i < 215 {
           if i < 214 {
            Table::row(1964048400, 0, 3600, "WEST")
           } else {
            Table::row(1982797200, 0, 0, "WET")
           }
          } else {
           if i < 216 {
            Table::row(1995498000, 0, 3600, "WEST")
           } else {
            Table::row(2014246800, 0, 0, "WET")
           }
          }
         }
        } else {
         if i < 221 {
          if i < 219 {
           if i < 218 {
            Table::row(2026947600, 0, 3600, "WEST")
           } else {
            Table::row(2045696400, 0, 0, "WET")
           }
          } else {
           if i < 220 {
            Table::row(2058397200, 0, 3600, "WEST")
           } else {
            Table::row(2077146000, 0, 0, "WET")
           }
          }
         } else {
          if i < 223 {
           if i < 222 {
            Table::row(2090451600, 0, 3600, "WEST")
           } else {
            Table::row(2108595600, 0, 0, "WET")
           }
          } else {
           if i < 224 {
            Table::row(2121901200, 0, 3600, "WEST")
           } else {
            Table::row(2140045200, 0, 0, "WET")
           }
          }
         }
        }
       }
      }
     }
    }
}

/// The rows of the table of the zone `Portugal`.
pub open spec fn portugal_rows() -> spec_fn(int) -> (i64, FixedTimespan) {
    |i: int| portugal_row(i)
}

/// The table of the zone `Portugal`.
pub open spec fn portugal() -> Table {
    Table::listed(Table::row(0, -2205, 0, "LMT").1, 225, portugal_rows())
}

/// Row `i` of the table of the zone `ROC`.
pub open spec fn roc_row(i: int) -> (i64, FixedTimespan) {
    if i < 20 {
     if i < 10 {
      if i < 5 {
       if i < 2 {
        if i < 1 {
         Table::row(-2335248360, 28800, 0, "CST")
        } else {
         Table::row(-1017820800, 32400, 0, "JST")
        }
       } else {
        if i < 3 {
         Table::row(-766224000, 28800, 0, "CST")
        } else {
         if i < 4 {
          Table::row(-745833600, 28800, 3600, "CDT")
         } else {
          Table::row(-733827600, 28800, 0, "CST")
         }
        }
       }
      } else {
       if i < 7 {
        if i < 6 {
         Table::row(-716889600, 28800, 3600, "CDT")
        } else {
         Table::row(-699613200, 28800, 0, "CST")
        }
       } else {
        if i < 8 {
         Table::row(-683884800, 28800, 3600, "CDT")
        } else {
         if i < 9 {
          Table::row(-670669200, 28800, 0, "CST")
         } else {
          Table::row(-652348800, 28800, 3600, "CDT")
         }
        }
       }
      }
     } else {
      if i < 15 {
       if i < 12 {
        if i < 11 {
         Table::row(-639133200, 28800, 0, "CST")
        } else {
         Table::row(-620812800, 28800, 3600, "CDT")
        }
       } else {
        if i < 13 {
         Table::row(-607597200, 28800, 0, "CST")
        } else {
         if i < 14 {
          Table::row(-589276800, 28800, 3600, "CDT")
         } else {
          Table::row(-576061200, 28800, 0, "CST")
         }
        }
       }
      } else {
       if i < 17 {
        if i < 16 {
         Table::row(-562924800, 28800, 3600, "CDT")
        } else {
         Table::row(-541760400, 28800, 0, "CST")
        }
       } else {
        if i < 18 {
         Table::row(-528710400, 28800, 3600, "CDT")
        } else {
         if i < 19 {
          Table::row(-510224400, 28800, 0, "CST")
         } else {
          Table::row(-497174400, 28800, 3600, "CDT")
         }
        }
       }
      }
     }
    } else {
     if i < 30 {
      if i < 25 {
       if i < 22 {
        if i < 21 {
         Table::row(-478688400, 28800, 0, "CST")
        } else {
         Table::row(-465638400, 28800, 3600, "CDT")
        }
       } else {
        if i < 23 {
         Table::row(-449830800, 28800, 0, "CST")
        } else {
         if i < 24 {
          Table::row(-434016000, 28800, 3600, "CDT")
         } else {
          Table::row(-418208400, 28800, 0, "CST")
         }
        }
       }
      } else {
       if i < 27 {
        if i < 26 {
         Table::row(-402480000, 28800, 3600, "CDT")
        } else {
         Table::row(-386672400, 28800, 0, "CST")
        }
       } else {
        if i < 28 {
         Table::row(-370944000, 28800, 3600, "CDT")
        } else {
         if i < 29 {
          Table::row(-355136400, 28800, 0, "CST")
         } else {
          Table::row(-339408000, 28800, 3600, "CDT")
         }
        }
       }
      }
     } else {
      if i < 35 {
       if i < 32 {
        if i < 31 {
         Table::row(-323600400, 28800, 0, "CST")
        } else {
         Table::row(-302515200, 28800, 3600, "CDT")
        }
       } else {
        if i < 33 {
         Table::row(-291978000, 28800, 0, "CST")
        } else {
         if i < 34 {
          Table::row(-270979200, 28800, 3600, "CDT")
         } else {
          Table::row(-260442000, 28800, 0, "CST")
         }
        }
       }
      } else {
       if i < 38 {
        if i < 36 {
         Table::row(133977600, 28800, 3600, "CDT")
        } else {
         if i < 37 {
          Table::row(149785200, 28800, 0, "CST")
         } else {
          Table::row(165513600, 28800, 3600, "CDT")
         }
        }
       } else {
        if i < 39 {
         Table::row(181321200, 28800, 0, "CST")
        } else {
         if i < 40 {
          Table::row(299606400, 28800, 3600, "CDT")
         } else {
          Table::row(307551600, 28800, 0, "CST")
         }
        }
       }
      }
     }
    }
}

/// The rows of the table of the zone `ROC`.
pub open spec fn roc_rows() -> spec_fn(int) -> (i64, FixedTimespan) {
    |i: int| roc_row(i)
}

/// The table of the zone `ROC`.
pub open spec fn roc() -> Table {
    Table::listed(Table::row(0, 29160, 0, "LMT").1, 41, roc_rows())
}

/// Row `i` of the table of the zone `ROK`.
pub open spec fn rok_row(i: int) -> (i64, FixedTimespan) {
    if i < 14 {
     if i < 7 {
      if i < 3 {
       if i < 1 {
        Table::row(-1948782472, 30600, 0, "KST")
       } else {
        if i < 2 {
         Table::row(-1830414600, 32400, 0, "JST")
        } else {
         Table::row(-767350800, 32400, 0, "KST")
        }
       }
      } else {
       if i < 5 {
        if i < 4 {
         Table::row(-681210000, 32400, 3600, "KDT")
        } else {
         Table::row(-672228000, 32400, 0, "KST")
        }
       } else {
        if i < 6 {
         Table::row(-654771600, 32400, 3600, "KDT")
        } else {
         Table::row(-640864800, 32400, 0, "KST")
        }
       }
      }
     } else {
      if i < 10 {
       if i < 8 {
        Table::row(-623408400, 32400, 3600, "KDT")
       } else {
        if i < 9 {
         Table::row(-609415200, 32400, 0, "KST")
        } else {
         Table::row(-588848400, 32400, 3600, "KDT")
        }
       }
      } else {
       if i < 12 {
        if i < 11 {
         Table::row(-577965600, 32400, 0, "KST")
        } else {
         Table::row(-498128400, 30600, 0, "KST")
        }
       } else {
        if i < 13 {
         Table::row(-462702600, 30600, 3600, "KDT")
        } else {
         Table::row(-451733400, 30600, 0, "KST")
        }
       }
      }
     }
    } else {
     if i < 21 {
      if i < 17 {
       if i < 15 {
        Table::row(-429784200, 30600, 3600, "KDT")
       } else {
        if i < 16 {
         Table::row(-418296600, 30600, 0, "KST")
        } else {
         Table::row(-399544200, 30600, 3600, "KDT")
        }
       }
      } else {
       if i < 19 {
        if i < 18 {
         Table::row(-387451800, 30600, 0, "KST")
        } else {
         Table::row(-368094600, 30600, 3600, "KDT")
        }
       } else {
        if i < 20 {
         Table::row(-356002200, 30600, 0, "KST")
        } else {
         Table::row(-336645000, 30600, 3600, "KDT")
        }
       }
      }
     } else {
      if i < 25 {
       if i < 23 {
        if i < 22 {
         Table::row(-324552600, 30600, 0, "KST")
        } else {
         Table::row(-305195400, 30600, 3600, "KDT")
        }
       } else {
        if i < 24 {
         Table::row(-293103000, 30600, 0, "KST")
        } else {
         Table::row(-264933000, 32400, 0, "KST")
        }
       }
      } else {
       if i < 27 {
        if i < 26 {
         Table::row(547578000, 32400, 3600, "KDT")
        } else {
         Table::row(560883600, 32400, 0, "KST")
        }
       } else {
        if i < 28 {
         Table::row(579027600, 32400, 3600, "KDT")
        } else {
         Table::row(592333200, 32400, 0, "KST")
        }
       }
      }
     }
    }
}

/// The rows of the table of the zone `ROK`.
pub open spec fn rok_rows() -> spec_fn(int) -> (i64, FixedTimespan) {
    |i: int| rok_row(i)
}

/// The table of the zone `ROK`.
pub open spec fn rok() -> Table {
    Table::listed(Table::row(0, 30472, 0, "LMT").1, 29, rok_rows())
}

/// Row `i` of the table of the zone `Singapore`.
pub open spec fn singapore_row(i: int) -> (i64, FixedTimespan) {
    if i < 4 {
     if i < 2 {
      if i < 1 {
       Table::row(-2177477725, 24925, 0, "SMT")
      } else {
       Table::row(-2038200925, 25200, 0, "+07")
      }
     } else {
      if i < 3 {
       Table::row(-1167634800, 25200, 1200, "+0720")
      } else {
       Table::row(-1073028000, 26400, 0, "+0720")
      }
     }
    } else {
     if i < 6 {
      if i < 5 {
       Table::row(-894180000, 27000, 0, "+0730")
      } else {
       Table::row(-879665400, 32400, 0, "+09")
      }
     } else {
      if i < 7 {
       Table::row(-767005200, 27000, 0, "+0730")
      } else {
       if i < 8 {
        Table::row(378662400, 28800, 0, "+08")
       } else {
        Table::row(2147483647, 28800, 0, "+08")
       }
      }
     }
    }
}

/// The rows of the table of the zone `Singapore`.
pub open spec fn singapore_rows() -> spec_fn(int) -> (i64, FixedTimespan) {
    |i: int| singapore_row(i)
}

/// The table of the zone `Singapore`.
pub open spec fn singapore() -> Table {
    Table::listed(Table::row(0, 24925, 0, "LMT").1, 9, singapore_rows())
}

/// Row `i` of the table of the zone `Turkey`.
pub open spec fn turkey_row(i: int) -> (i64, FixedTimespan) {
    if i < 58 {
     if i < 29 {
      if i < 14 {
       if i < 7 {
        if i < 3 {
         if i < 1 {
          Table::row(-2840147752, 7016, 0, "IMT")
         } else {
          if i < 2 {
           Table::row(-1869875816, 7200, 0, "EET")
          } else {
           Table::row(-1693706400, 7200, 3600, "EEST")
          }
         }
        } else {
         if i < 5 {
          if i < 4 {
           Table::row(-1680490800, 7200, 0, "EET")
          } else {
           Table::row(-1570413600, 7200, 3600, "EEST")
          }
         } else {
          if i < 6 {
           Table::row(-1552186800, 7200, 0, "EET")
          } else {
           Table::row(-1538359200, 7200, 3600, "EEST")
          }
         }
        }
       } else {
        if i < 10 {
         if i < 8 {
          Table::row(-1522551600, 7200, 0, "EET")
         } else {
          if i < 9 {
           Table::row(-1507514400, 7200, 3600, "EEST")
          } else {
           Table::row(-1490583600, 7200, 0, "EET")
          }
         }
        } else {
         if i < 12 {
          if i < 11 {
           Table::row(-1440208800, 7200, 3600, "EEST")
          } else {
           Table::row(-1428030000, 7200, 0, "EET")
          }
         } else {
          if i < 13 {
           Table::row(-1409709600, 7200, 3600, "EEST")
          } else {
           Table::row(-1396494000, 7200, 0, "EET")
          }
         }
        }
       }
      } else {
       if i < 21 {
        if i < 17 {
         if i < 15 {
          Table::row(-931053600, 7200, 3600, "EEST")
         } else {
          if i < 16 {
           Table::row(-922676400, 7200, 0, "EET")
          } else {
           Table::row(-917834400, 7200, 3600, "EEST")
          }
         }
        } else {
         if i < 19 {
          if i < 18 {
           Table::row(-892436400, 7200, 0, "EET")
          } else {
           Table::row(-875844000, 7200, 3600, "EEST")
          }
         } else {
          if i < 20 {
           Table::row(-764737200, 7200, 0, "EET")
          } else {
           Table::row(-744343200, 7200, 3600, "EEST")
          }
         }
        }
       } else {
        if i < 25 {
         if i < 23 {
          if i < 22 {
           Table::row(-733806000, 7200, 0, "EET")
          } else {
           Table::row(-716436000, 7200, 3600, "EEST")
          }
         } else {
          if i < 24 {
           Table::row(-701924400, 7200, 0, "EET")
          } else {
           Table::row(-684986400, 7200, 3600, "EEST")
          }
         }
        } else {
         if i < 27 {
          if i < 26 {
           Table::row(-670474800, 7200, 0, "EET")
          } else {
           Table::row(-654141600, 7200, 3600, "EEST")
          }
         } else {
          if i < 28 {
           Table::row(-639025200, 7200, 0, "EET")
          } else {
           Table::row(-622087200, 7200, 3600, "EEST")
          }
         }
        }
       }
      }
     } else {
      if i < 43 {
       if i < 36 {
        if i < 32 {
         if i < 30 {
          Table::row(-606970800, 7200, 0, "EET")
         } else {
          if i < 31 {
           Table::row(-590032800, 7200, 3600, "EEST")
          } else {
           Table::row(-575521200, 7200, 0, "EET")
          }
         }
        } else {
         if i < 34 {
          if i < 33 {
           Table::row(-235620000, 7200, 3600, "EEST")
          } else {
           Table::row(-194842800, 7200, 0, "EET")
          }
         } else {
          if i < 35 {
           Table::row(-177732000, 7200, 3600, "EEST")
          } else {
           Table::row(-165726000, 7200, 0, "EET")
          }
         }
        }
       } else {
        if i < 39 {
         if i < 37 {
          Table::row(107910000, 7200, 3600, "EEST")
         } else {
          if i < 38 {
           Table::row(121215600, 7200, 0, "EET")
          } else {
           Table::row(133920000, 7200, 3600, "EEST")
          }
         }
        } else {
         if i < 41 {
          if i < 40 {
           Table::row(152665200, 7200, 0, "EET")
          } else {
           Table::row(164678400, 7200, 3600, "EEST")
          }
         } else {
          if i < 42 {
           Table::row(184114800, 7200, 0, "EET")
          } else {
           Table::row(196214400, 7200, 3600, "EEST")
          }
         }
        }
       }
      } else {
       if i < 50 {
        if i < 46 {
         if i < 44 {
          Table::row(215564400, 7200, 0, "EET")
         } else {
          if i < 45 {
           Table::row(228873600, 7200, 3600, "EEST")
          } else {
           Table::row(245804400, 7200, 0, "EET")
          }
         }
        } else {
         if i < 48 {
          if i < 47 {
           Table::row(260323200, 7200, 3600, "EEST")
          } else {
           Table::row(267915600, 10800, 0, "+03")
          }
         } else {
          if i < 49 {
           Table::row(428454000, 10800, 3600, "+04")
          } else {
           Table::row(433893600, 10800, 0, "+03")
          }
         }
        }
       } else {
        if i < 54 {
         if i < 52 {
          if i < 51 {
           Table::row(468111600, 7200, 0, "EET")
          } else {
           Table::row(482799600, 7200, 3600, "EEST")
          }
         } else {
          if i < 53 {
           Table::row(496710000, 7200, 0, "EET")
          } else {
           Table::row(512521200, 7200, 3600, "EEST")
          }
         }
        } else {
         if i < 56 {
          if i < 55 {
           Table::row(528246000, 7200, 0, "EET")
          } else {
           Table::row(543970800, 7200, 3600, "EEST")
          }
         } else {
          if i < 57 {
           Table::row(559695600, 7200, 0, "EET")
          } else {
           Table::row(575420400, 7200, 3600, "EEST")
          }
         }
        }
       }
      }
     }
    } else {
     if i < 87 {
      if i < 72 {
       if i < 65 {
        if i < 61 {
         if i < 59 {
          Table::row(591145200, 7200, 0, "EET")
         } else {
          if i < 60 {
           Table::row(606870000, 7200, 3600, "EEST")
          } else {
           Table::row(622594800, 7200, 0, "EET")
          }
         }
        } else {
         if i < 63 {
          if i < 62 {
           Table::row(638319600, 7200, 3600, "EEST")
          } else {
           Table::row(654649200, 7200, 0, "EET")
          }
         } else {
          if i < 64 {
           Table::row(670374000, 7200, 3600, "EEST")
          } else {
           Table::row(686098800, 7200, 0, "EET")
          }
         }
        }
       } else {
        if i < 68 {
         if i < 66 {
          Table::row(701823600, 7200, 3600, "EEST")
         } else {
          if i < 67 {
           Table::row(717548400, 7200, 0, "EET")
          } else {
           Table::row(733273200, 7200, 3600, "EEST")
          }
         }
        } else {
         if i < 70 {
          if i < 69 {
           Table::row(748998000, 7200, 0, "EET")
          } else {
           Table::row(764118000, 7200, 3600, "EEST")
          }
         } else {
          if i < 71 {
           Table::row(780447600, 7200, 0, "EET")
          } else {
           Table::row(796172400, 7200, 3600, "EEST")
          }
         }
        }
       }
      } else {
       if i < 79 {
        if i < 75 {
         if i < 73 {
          Table::row(811897200, 7200, 0, "EET")
         } else {
          if i < 74 {
           Table::row(828226800, 7200, 3600, "EEST")
          } else {
           Table::row(846370800, 7200, 0, "EET")
          }
         }
        } else {
         if i < 77 {
          if i < 76 {
           Table::row(859676400, 7200, 3600, "EEST")
          } else {
           Table::row(877820400, 7200, 0, "EET")
          }
         } else {
          if i < 78 {
           Table::row(891126000, 7200, 3600, "EEST")
          } else {
           Table::row(909270000, 7200, 0, "EET")
          }
         }
        }
       } else {
        if i < 83 {
         if i < 81 {
          if i < 80 {
           Table::row(922575600, 7200, 3600, "EEST")
          } else {
           Table::row(941324400, 7200, 0, "EET")
          }
         } else {
          if i < 82 {
           Table::row(954025200, 7200, 3600, "EEST")
          } else {
           Table::row(972774000, 7200, 0, "EET")
          }
         }
        } else {
         if i < 85 {
          if i < 84 {
           Table::row(985474800, 7200, 3600, "EEST")
          } else {
           Table::row(1004223600, 7200, 0, "EET")
          }
         } else {
          if i < 86 {
           Table::row(1017529200, 7200, 3600, "EEST")
          } else {
           Table::row(1035673200, 7200, 0, "EET")
          }
         }
        }
       }
      }
     } else {
      if i < 101 {
       if i < 94 {
        if i < 90 {
         if i < 88 {
          Table::row(1048978800, 7200, 3600, "EEST")
         } else {
          if i < 89 {
           Table::row(1067122800, 7200, 0, "EET")
          } else {
           Table::row(1080428400, 7200, 3600, "EEST")
          }
         }
        } else {
         if i < 92 {
          if i < 91 {
           Table::row(1099177200, 7200, 0, "EET")
          } else {
           Table::row(1111878000, 7200, 3600, "EEST")
          }
         } else {
          if i < 93 {
           Table::row(1130626800, 7200, 0, "EET")
          } else {
           Table::row(1143327600, 7200, 3600, "EEST")
          }
         }
        }
       } else {
        if i < 97 {
         if i < 95 {
          Table::row(1162076400, 7200, 0, "EET")
         } else {
          if i < 96 {
           Table::row(1174784400, 7200, 3600, "EEST")
          } else {
           Table::row(1193533200, 7200, 0, "EET")
          }
         }
        } else {
         if i < 99 {
          if i < 98 {
           Table::row(1206838800, 7200, 3600, "EEST")
          } else {
           Table::row(1224982800, 7200, 0, "EET")
          }
         } else {
          if i < 100 {
           Table::row(1238288400, 7200, 3600, "EEST")
          } else {
           Table::row(1256432400, 7200, 0, "EET")
          }
         }
        }
       }
      } else {
       if i < 108 {
        if i < 104 {
         if i < 102 {
          Table::row(1269738000, 7200, 3600, "EEST")
         } else {
          if i < 103 {
           Table::row(1288486800, 7200, 0, "EET")
          } else {
           Table::row(1301274000, 7200, 3600, "EEST")
          }
         }
        } else {
         if i < 106 {
          if i < 105 {
           Table::row(1319936400, 7200, 0, "EET")
          } else {
           Table::row(1332637200, 7200, 3600, "EEST")
          }
         } else {
          if i < 107 {
           Table::row(1351386000, 7200, 0, "EET")
          } else {
           Table::row(1364691600, 7200, 3600, "EEST")
          }
         }
        }
       } else {
        if i < 112 {
         if i < 110 {
          if i < 109 {
           Table::row(1382835600, 7200, 0, "EET")
          } else {
           Table::row(1396227600, 7200, 3600, "EEST")
          }
         } else {
          if i < 111 {
           Table::row(1414285200, 7200, 0, "EET")
          } else {
           Table::row(1427590800, 7200, 3600, "EEST")
          }
         }
        } else {
         if i < 114 {
          if i < 113 {
           Table::row(1446944400, 7200, 0, "EET")
          } else {
           Table::row(1459040400, 7200, 3600, "EEST")
          }
         } else {
          if i < 115 {
           Table::row(1473195600, 10800, 0, "+03")
          } else {
           Table::row(2147483647, 10800, 0, "+03")
          }
         }
        }
       }
      }
     }
    }
}

/// The rows of the table of the zone `Turkey`.
pub open spec fn turkey_rows() -> spec_fn(int) -> (i64, FixedTimespan) {
    |i: int| turkey_row(i)
}

/// The table of the zone `Turkey`.
pub open spec fn turkey() -> Table {
    Table::listed(Table::row(0, 6952, 0, "LMT").1, 116, turkey_rows())
}

/// Row `i` of the table of the zone `UCT`.
pub open spec fn uct_row(i: int) -> (i64, FixedTimespan) {
    Table::row(0, 0, 0, "UTC")
}

/// The rows of the table of the zone `UCT`.
pub open spec fn uct_rows() -> spec_fn(int) -> (i64, FixedTimespan) {
    |i: int| uct_row(i)
}

/// The table of the zone `UCT`.
pub open spec fn uct() -> Table {
    Table::listed(Table::row(0, 0, 0, "UTC").1, 0, uct_rows())
}

/// Row `i` of the table of the zone `UTC`.
pub open spec fn utc_row(i: int) -> (i64, FixedTimespan) {
    Table::row(0, 0, 0, "UTC")
}

/// The rows of the table of the zone `UTC`.
pub open spec fn utc_rows() -> spec_fn(int) -> (i64, FixedTimespan) {
    |i: int| utc_row(i)
}

/// The table of the zone `UTC`.
pub open spec fn utc() -> Table {
    Table::listed(Table::row(0, 0, 0, "UTC").1, 0, utc_rows())
}

/// Row `i` of the table of the zone `Universal`.
pub open spec fn universal_row(i: int) -> (i64, FixedTimespan) {
    Table::row(0, 0, 0, "UTC")
}

/// The rows of the table of the zone `Universal`.
pub open spec fn universal_rows() -> spec_fn(int) -> (i64, FixedTimespan) {
    |i: int| universal_row(i)
}

/// The table of the zone `Universal`.
pub open spec fn universal() -> Table {
    Table::listed(Table::row(0, 0, 0, "UTC").1, 0, universal_rows())
}

/// Row `i` of the table of the zone `W-SU`.
pub open spec fn w_su_row(i: int) -> (i64, FixedTimespan) {
    if i < 39 {
     if i < 19 {
      if i < 9 {
       if i < 4 {
        if i < 2 {
         if i < 1 {
          Table::row(-2840149817, 9017, 0, "MMT")
         } else {
          Table::row(-1688265017, 9079, 0, "MMT")
         }
        } else {
         if i < 3 {
          Table::row(-1656819079, 9079, 3600, "MST")
         } else {
          Table::row(-1641353479, 9079, 0, "MMT")
         }
        }
       } else {
        if i < 6 {
         if i < 5 {
          Table::row(-1627965079, 9079, 7200, "MDST")
         } else {
          Table::row(-1618716679, 9079, 3600, "MST")
         }
        } else {
         if i < 7 {
          Table::row(-1596429079, 9079, 7200, "MDST")
         } else {
          if i < 8 {
           Table::row(-1593820800, 9079, 5321, "MSD")
          } else {
           Table::row(-1589860800, 10800, 0, "MSK")
          }
         }
        }
       }
      } else {
       if i < 14 {
        if i < 11 {
         if i < 10 {
          Table::row(-1542427200, 10800, 3600, "MSD")
         } else {
          Table::row(-1539493200, 10800, 7200, "+05")
         }
        } else {
         if i < 12 {
          Table::row(-1525323600, 10800, 3600, "MSD")
         } else {
          if i < 13 {
           Table::row(-1522728000, 10800, 0, "MSK")
          } else {
           Table::row(-1491188400, 7200, 0, "EET")
          }
         }
        }
       } else {
        if i < 16 {
         if i < 15 {
          Table::row(-1247536800, 10800, 0, "MSK")
         } else {
          Table::row(354920400, 10800, 3600, "MSD")
         }
        } else {
         if i < 17 {
          Table::row(370728000, 10800, 0, "MSK")
         } else {
          if i < 18 {
           Table::row(386456400, 10800, 3600, "MSD")
          } else {
           Table::row(402264000, 10800, 0, "MSK")
          }
         }
        }
       }
      }
     } else {
      if i < 29 {
       if i < 24 {
        if i < 21 {
         if i < 20 {
          Table::row(417992400, 10800, 3600, "MSD")
         } else {
          Table::row(433800000, 10800, 0, "MSK")
         }
        } else {
         if i < 22 {
          Table::row(449614800, 10800, 3600, "MSD")
         } else {
          if i < 23 {
           Table::row(465346800, 10800, 0, "MSK")
          } else {
           Table::row(481071600, 10800, 3600, "MSD")
          }
         }
        }
       } else {
        if i < 26 {
         if i < 25 {
          Table::row(496796400, 10800, 0, "MSK")
         } else {
          Table::row(512521200, 10800, 3600, "MSD")
         }
        } else {
         if i < 27 {
          Table::row(528246000, 10800, 0, "MSK")
         } else {
          if i < 28 {
           Table::row(543970800, 10800, 3600, "MSD")
          } else {
           Table::row(559695600, 10800, 0, "MSK")
          }
         }
        }
       }
      } else {
       if i < 34 {
        if i < 31 {
         if i < 30 {
          Table::row(575420400, 10800, 3600, "MSD")
         } else {
          Table::row(591145200, 10800, 0, "MSK")
         }
        } else {
         if i < 32 {
          Table::row(606870000, 10800, 3600, "MSD")
         } else {
          if i < 33 {
           Table::row(622594800, 10800, 0, "MSK")
          } else {
           Table::row(638319600, 10800, 3600, "MSD")
          }
         }
        }
       } else {
        if i < 36 {
         if i < 35 {
          Table::row(654649200, 10800, 0, "MSK")
         } else {
          Table::row(670374000, 7200, 3600, "EEST")
         }
        } else {
         if i < 37 {
          Table::row(686102400, 7200, 0, "EET")
         } else {
          if i < 38 {
           Table::row(695779200, 10800, 0, "MSK")
          } else {
           Table::row(701823600, 10800, 3600, "MSD")
          }
         }
        }
       }
      }
     }
    } else {
     if i < 58 {
      if i < 48 {
       if i < 43 {
        if i < 41 {
         if i < 40 {
          Table::row(717548400, 10800, 0, "MSK")
         } else {
          Table::row(733273200, 10800, 3600, "MSD")
         }
        } else {
         if i < 42 {
          Table::row(748998000, 10800, 0, "MSK")
         } else {
          Table::row(764722800, 10800, 3600, "MSD")
         }
        }
       } else {
        if i < 45 {
         if i < 44 {
          Table::row(780447600, 10800, 0, "MSK")
         } else {
          Table::row(796172400, 10800, 3600, "MSD")
         }
        } else {
         if i < 46 {
          Table::row(811897200, 10800, 0, "MSK")
         } else {
          if i < 47 {
           Table::row(828226800, 10800, 3600, "MSD")
          } else {
           Table::row(846370800, 10800, 0, "MSK")
          }
         }
        }
       }
      } else {
       if i < 53 {
        if i < 50 {
         if i < 49 {
          Table::row(859676400, 10800, 3600, "MSD")
         } else {
          Table::row(877820400, 10800, 0, "MSK")
         }
        } else {
         if i < 51 {
          Table::row(891126000, 10800, 3600, "MSD")
         } else {
          if i < 52 {
           Table::row(909270000, 10800, 0, "MSK")
          } else {
           Table::row(922575600, 10800, 3600, "MSD")
          }
         }
        }
       } else {
        if i < 55 {
         if i < 54 {
          Table::row(941324400, 10800, 0, "MSK")
         } else {
          Table::row(954025200, 10800, 3600, "MSD")
         }
        } else {
         if i < 56 {
          Table::row(972774000, 10800, 0, "MSK")
         } else {
          if i < 57 {
           Table::row(985474800, 10800, 3600, "MSD")
          } else {
           Table::row(1004223600, 10800, 0, "MSK")
          }
         }
        }
       }
      }
     } else {
      if i < 68 {
       if i < 63 {
        if i < 60 {
         if i < 59 {
          Table::row(1017529200, 10800, 3600, "MSD")
         } else {
          Table::row(1035673200, 10800, 0, "MSK")
         }
        } else {
         if i < 61 {
          Table::row(1048978800, 10800, 3600, "MSD")
         } else {
          if i < 62 {
           Table::row(1067122800, 10800, 0, "MSK")
          } else {
           Table::row(1080428400, 10800, 3600, "MSD")
          }
         }
        }
       } else {
        if i < 65 {
         if i < 64 {
          Table::row(1099177200, 10800, 0, "MSK")
         } else {
          Table::row(1111878000, 10800, 3600, "MSD")
         }
        } else {
         if i < 66 {
          Table::row(1130626800, 10800, 0, "MSK")
         } else {
          if i < 67 {
           Table::row(1143327600, 10800, 3600, "MSD")
          } else {
           Table::row(1162076400, 10800, 0, "MSK")
          }
         }
        }
       }
      } else {
       if i < 73 {
        if i < 70 {
         if i < 69 {
          Table::row(1174777200, 10800, 3600, "MSD")
         } else {
          Table::row(1193526000, 10800, 0, "MSK")
         }
        } else {
         if i < 71 {
          Table::row(1206831600, 10800, 3600, "MSD")
         } else {
          if i < 72 {
           Table::row(1224975600, 10800, 0, "MSK")
          } else {
           Table::row(1238281200, 10800, 3600, "MSD")
          }
         }
        }
       } else {
        if i < 75 {
         if i < 74 {
          Table::row(1256425200, 10800, 0, "MSK")
         } else {
          Table::row(1269730800, 10800, 3600, "MSD")
         }
        } else {
         if i < 76 {
          Table::row(1288479600, 10800, 0, "MSK")
         } else {
          if i < 77 {
           Table::row(1301180400, 14400, 0, "MSK")
          } else {
           Table::row(1414274400, 10800, 0, "MSK")
          }
         }
        }
       }
      }
     }
    }
}

/// The rows of the table of the zone `W-SU`.
pub open spec fn w_su_rows() -> spec_fn(int) -> (i64, FixedTimespan) {
    |i: int| w_su_row(i)
}

/// The table of the zone `W-SU`.
pub open spec fn w_su() -> Table {
    Table::listed(Table::row(0, 9017, 0, "LMT").1, 78, w_su_rows())
}

/// Row `i` of the table of the zone `WET`.
pub open spec fn wet_row(i: int) -> (i64, FixedTimespan) {
    if i < 61 {
     if i < 30 {
      if i < 15 {
       if i < 7 {
        if i < 3 {
         if i < 1 {
          Table::row(228877200, 0, 3600, "WEST")
         } else {
          if i < 2 {
           Table::row(243997200, 0, 0, "WET")
          } else {
           Table::row(260326800, 0, 3600, "WEST")
          }
         }
        } else {
         if i < 5 {
          if i < 4 {
           Table::row(276051600, 0, 0, "WET")
          } else {
           Table::row(291776400, 0, 3600, "WEST")
          }
         } else {
          if i < 6 {
           Table::row(307501200, 0, 0, "WET")
          } else {
           Table::row(323830800, 0, 3600, "WEST")
          }
         }
        }
       } else {
        if i < 11 {
         if i < 9 {
          if i < 8 {
           Table::row(338950800, 0, 0, "WET")
          } else {
           Table::row(354675600, 0, 3600, "WEST")
          }
         } else {
          if i < 10 {
           Table::row(370400400, 0, 0, "WET")
          } else {
           Table::row(386125200, 0, 3600, "WEST")
          }
         }
        } else {
         if i < 13 {
          if i < 12 {
           Table::row(401850000, 0, 0, "WET")
          } else {
           Table::row(417574800, 0, 3600, "WEST")
          }
         } else {
          if i < 14 {
           Table::row(433299600, 0, 0, "WET")
          } else {
           Table::row(449024400, 0, 3600, "WEST")
          }
         }
        }
       }
      } else {
       if i < 22 {
        if i < 18 {
         if i < 16 {
          Table::row(465354000, 0, 0, "WET")
         } else {
          if i < 17 {
           Table::row(481078800, 0, 3600, "WEST")
          } else {
           Table::row(496803600, 0, 0, "WET")
          }
         }
        } else {
         if i < 20 {
          if i < 19 {
           Table::row(512528400, 0, 3600, "WEST")
          } else {
           Table::row(528253200, 0, 0, "WET")
          }
         } else {
          if i < 21 {
           Table::row(543978000, 0, 3600, "WEST")
          } else {
           Table::row(559702800, 0, 0, "WET")
          }
         }
        }
       } else {
        if i < 26 {
         if i < 24 {
          if i < 23 {
           Table::row(575427600, 0, 3600, "WEST")
          } else {
           Table::row(591152400, 0, 0, "WET")
          }
         } else {
          if i < 25 {
           Table::row(606877200, 0, 3600, "WEST")
          } else {
           Table::row(622602000, 0, 0, "WET")
          }
         }
        } else {
         if i < 28 {
          if i < 27 {
           Table::row(638326800, 0, 3600, "WEST")
          } else {
           Table::row(654656400, 0, 0, "WET")
          }
         } else {
          if i < 29 {
           Table::row(670381200, 0, 3600, "WEST")
          } else {
           Table::row(686106000, 0, 0, "WET")
          }
         }
        }
       }
      }
     } else {
      if i < 45 {
       if i < 37 {
        if i < 33 {
         if i < 31 {
          Table::row(701830800, 0, 3600, "WEST")
         } else {
          if i < 32 {
           Table::row(717555600, 0, 0, "WET")
          } else {
           Table::row(733280400, 0, 3600, "WEST")
          }
         }
        } else {
         if i < 35 {
          if i < 34 {
           Table::row(749005200, 0, 0, "WET")
          } else {
           Table::row(764730000, 0, 3600, "WEST")
          }
         } else {
          if i < 36 {
           Table::row(780454800, 0, 0, "WET")
          } else {
           Table::row(796179600, 0, 3600, "WEST")
          }
         }
        }
       } else {
        if i < 41 {
         if i < 39 {
          if i < 38 {
           Table::row(811904400, 0, 0, "WET")
          } else {
           Table::row(828234000, 0, 3600, "WEST")
          }
         } else {
          if i < 40 {
           Table::row(846378000, 0, 0, "WET")
          } else {
           Table::row(859683600, 0, 3600, "WEST")
          }
         }
        } else {
         if i < 43 {
          if i < 42 {
           Table::row(877827600, 0, 0, "WET")
          } else {
           Table::row(891133200, 0, 3600, "WEST")
          }
         } else {
          if i < 44 {
           Table::row(909277200, 0, 0, "WET")
          } else {
           Table::row(922582800, 0, 3600, "WEST")
          }
         }
        }
       }
      } else {
       if i < 53 {
        if i < 49 {
         if i < 47 {
          if i < 46 {
           Table::row(941331600, 0, 0, "WET")
          } else {
           Table::row(954032400, 0, 3600, "WEST")
          }
         } else {
          if i < 48 {
           Table::row(972781200, 0, 0, "WET")
          } else {
           Table::row(985482000, 0, 3600, "WEST")
          }
         }
        } else {
         if i < 51 {
          if i < 50 {
           Table::row(1004230800, 0, 0, "WET")
          } else {
           Table::row(1017536400, 0, 3600, "WEST")
          }
         } else {
          if i < 52 {
           Table::row(1035680400, 0, 0, "WET")
          } else {
           Table::row(1048986000, 0, 3600, "WEST")
          }
         }
        }
       } else {
        if i < 57 {
         if i < 55 {
          if i < 54 {
           Table::row(1067130000, 0, 0, "WET")
          } else {
           Table::row(1080435600, 0, 3600, "WEST")
          }
         } else {
          if i < 56 {
           Table::row(1099184400, 0, 0, "WET")
          } else {
           Table::row(1111885200, 0, 3600, "WEST")
          }
         }
        } else {
         if i < 59 {
          if i < 58 {
           Table::row(1130634000, 0, 0, "WET")
          } else {
           Table::row(1143334800, 0, 3600, "WEST")
          }
         } else {
          if i < 60 {
           Table::row(1162083600, 0, 0, "WET")
          } else {
           Table::row(1174784400, 0, 3600, "WEST")
          }
         }
        }
       }
      }
     }
    } else {
     if i < 91 {
      if i < 76 {
       if i < 68 {
        if i < 64 {
         if i < 62 {
          Table::row(1193533200, 0, 0, "WET")
         } else {
          if i < 63 {
           Table::row(1206838800, 0, 3600, "WEST")
          } else {
           Table::row(1224982800, 0, 0, "WET")
          }
         }
        } else {
         if i < 66 {
          if i < 65 {
           Table::row(1238288400, 0, 3600, "WEST")
          } else {
           Table::row(1256432400, 0, 0, "WET")
          }
         } else {
          if i < 67 {
           Table::row(1269738000, 0, 3600, "WEST")
          } else {
           Table::row(1288486800, 0, 0, "WET")
          }
         }
        }
       } else {
        if i < 72 {
         if i < 70 {
          if i < 69 {
           Table::row(1301187600, 0, 3600, "WEST")
          } else {
           Table::row(1319936400, 0, 0, "WET")
          }
         } else {
          if i < 71 {
           Table::row(1332637200, 0, 3600, "WEST")
          } else {
           Table::row(1351386000, 0, 0, "WET")
          }
         }
        } else {
         if i < 74 {
          if i < 73 {
           Table::row(1364691600, 0, 3600, "WEST")
          } else {
           Table::row(1382835600, 0, 0, "WET")
          }
         } else {
          if i < 75 {
           Table::row(1396141200, 0, 3600, "WEST")
          } else {
           Table::row(1414285200, 0, 0, "WET")
          }
         }
        }
       }
      } else {
       if i < 83 {
        if i < 79 {
         if i < 77 {
          Table::row(1427590800, 0, 3600, "WEST")
         } else {
          if i < 78 {
           Table::row(1445734800, 0, 0, "WET")
          } else {
           Table::row(1459040400, 0, 3600, "WEST")
          }
         }
        } else {
         if i < 81 {
          if i < 80 {
           Table::row(1477789200, 0, 0, "WET")
          } else {
           Table::row(1490490000, 0, 3600, "WEST")
          }
         } else {
          if i < 82 {
           Table::row(1509238800, 0, 0, "WET")
          } else {
           Table::row(1521939600, 0, 3600, "WEST")
          }
         }
        }
       } else {
        if i < 87 {
         if i < 85 {
          if i < 84 {
           Table::row(1540688400, 0, 0, "WET")
          } else {
           Table::row(1553994000, 0, 3600, "WEST")
          }
         } else {
          if i < 86 {
           Table::row(1572138000, 0, 0, "WET")
          } else {
           Table::row(1585443600, 0, 3600, "WEST")
          }
         }
        } else {
         if i < 89 {
          if i < 88 {
           Table::row(1603587600, 0, 0, "WET")
          } else {
           Table::row(1616893200, 0, 3600, "WEST")
          }
         } else {
          if i < 90 {
           Table::row(1635642000, 0, 0, "WET")
          } else {
           Table::row(1648342800, 0, 3600, "WEST")
          }
         }
        }
       }
      }
     } else {
      if i < 106 {
       if i < 98 {
        if i < 94 {
         if i < 92 {
          Table::row(1667091600, 0, 0, "WET")
         } else {
          if i < 93 {
           Table::row(1679792400, 0, 3600, "WEST")
          } else {
           Table::row(1698541200, 0, 0, "WET")
          }
         }
        } else {
         if i < 96 {
          if i < 95 {
           Table::row(1711846800, 0, 3600, "WEST")
          } else {
           Table::row(1729990800, 0, 0, "WET")
          }
         } else {
          if i < 97 {
           Table::row(1743296400, 0, 3600, "WEST")
          } else {
           Table::row(1761440400, 0, 0, "WET")
          }
         }
        }
       } else {
        if i < 102 {
         if i < 100 {
          if i < 99 {
           Table::row(1774746000, 0, 3600, "WEST")
          } else {
           Table::row(1792890000, 0, 0, "WET")
          }
         } else {
          if i < 101 {
           Table::row(1806195600, 0, 3600, "WEST")
          } else {
           Table::row(1824944400, 0, 0, "WET")
          }
         }
        } else {
         if i < 104 {
          if i < 103 {
           Table::row(1837645200, 0, 3600, "WEST")
          } else {
           Table::row(1856394000, 0, 0, "WET")
          }
         } else {
          if i < 105 {
           Table::row(1869094800, 0, 3600, "WEST")
          } else {
           Table::row(1887843600, 0, 0, "WET")
          }
         }
        }
       }
      } else {
       if i < 114 {
        if i < 110 {
         if i < 108 {
          if i < 107 {
           Table::row(1901149200, 0, 3600, "WEST")
          } else {
           Table::row(1919293200, 0, 0, "WET")
          }
         } else {
          if i < 109 {
           Table::row(1932598800, 0, 3600, "WEST")
          } else {
           Table::row(1950742800, 0, 0, "WET")
          }
         }
        } else {
         if i < 112 {
          if i < 111 {
           Table::row(1964048400, 0, 3600, "WEST")
          } else {
           Table::row(1982797200, 0, 0, "WET")
          }
         } else {
          if i < 113 {
           Table::row(1995498000, 0, 3600, "WEST")
          } else {
           Table::row(2014246800, 0, 0, "WET")
          }
         }
        }
       } else {
        if i < 118 {
         if i < 116 {
          if i < 115 {
           Table::row(2026947600, 0, 3600, "WEST")
          } else {
           Table::row(2045696400, 0, 0, "WET")
          }
         } else {
          if i < 117 {
           Table::row(2058397200, 0, 3600, "WEST")
          } else {
           Table::row(2077146000, 0, 0, "WET")
          }
         }
        } else {
         if i < 120 {
          if i < 119 {
           Table::row(2090451600, 0, 3600, "WEST")
          } else {
           Table::row(2108595600, 0, 0, "WET")
          }
         } else {
          if i < 121 {
           Table::row(2121901200, 0, 3600, "WEST")
          } else {
           Table::row(2140045200, 0, 0, "WET")
          }
         }
        }
       }
      }
     }
    }
}

/// The rows of the table of the zone `WET`.
pub open spec fn wet_rows() -> spec_fn(int) -> (i64, FixedTimespan) {
    |i: int| wet_row(i)
}

/// The table of the zone `WET`.
pub open spec fn wet() -> Table {
    Table::listed(Table::row(0, 0, 0, "WET").1, 122, wet_rows())
}

/// Row `i` of the table of the zone `Zulu`.
pub open spec fn zulu_row(i: int) -> (i64, FixedTimespan) {
    Table::row(0, 0, 0, "UTC")
}

/// The rows of the table of the zone `Zulu`.
pub open spec fn zulu_rows() -> spec_fn(int) -> (i64, FixedTimespan) {
    |i: int| zulu_row(i)
}

/// The table of the zone `Zulu`.
pub open spec fn zulu() -> Table {
    Table::listed(Table::row(0, 0, 0, "UTC").1, 0, zulu_rows())
}

} // verus!
