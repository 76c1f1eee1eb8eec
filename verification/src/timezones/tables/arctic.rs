//! The tables of the zones of the Arctic.

use crate::timezone_impl::{FixedTimespan, Table};
use vstd::prelude::*;

verus! {

/// Row `i` of the table of the zone `Arctic/Longyearbyen`.
pub open spec fn longyearbyen_row(i: int) -> (i64, FixedTimespan) {
    if i < 71 {
     if i < 35 {
      if i < 17 {
       if i < 8 {
        if i < 4 {
         if i < 2 {
          if i < 1 {
           Table::row(-2422054408, 3600, 0, "CET")
          } else {
           Table::row(-1693706400, 3600, 3600, "CEST")
          }
         } else {
          if i < 3 {
           Table::row(-1680483600, 3600, 0, "CET")
          } else {
           Table::row(-1663455600, 3600, 3600, "CEST")
          }
         }
        } else {
         if i < 6 {
          if i < 5 {
           Table::row(-1650150000, 3600, 0, "CET")
          } else {
           Table::row(-1632006000, 3600, 3600, "CEST")
          }
         } else {
          if i < 7 {
           Table::row(-1618700400, 3600, 0, "CET")
          } else {
           Table::row(-938905200, 3600, 3600, "CEST")
          }
         }
        }
       } else {
        if i < 12 {
         if i < 10 {
          if i < 9 {
           Table::row(-857257200, 3600, 0, "CET")
          } else {
           Table::row(-844556400, 3600, 3600, "CEST")
          }
         } else {
          if i < 11 {
           Table::row(-828226800, 3600, 0, "CET")
          } else {
           Table::row(-812502000, 3600, 3600, "CEST")
          }
         }
        } else {
         if i < 14 {
          if i < 13 {
           Table::row(-796777200, 3600, 0, "CET")
          } else {
           Table::row(-781052400, 3600, 3600, "CEST")
          }
         } else {
          if i < 15 {
           Table::row(-776563200, 3600, 7200, "CEMT")
          } else {
           if i < 16 {
            Table::row(-765936000, 3600, 3600, "CEST")
           } else {
            Table::row(-761180400, 3600, 0, "CET")
           }
          }
         }
        }
       }
      } else {
       if i < 26 {
        if i < 21 {
         if i < 19 {
          if i < 18 {
           Table::row(-748479600, 3600, 3600, "CEST")
          } else {
           Table::row(-733273200, 3600, 0, "CET")
          }
         } else {
          if i < 20 {
           Table::row(-717631200, 3600, 3600, "CEST")
          } else {
           Table::row(-714610800, 3600, 7200, "CEMT")
          }
         }
        } else {
         if i < 23 {
          if i < 22 {
           Table::row(-710380800, 3600, 3600, "CEST")
          } else {
           Table::row(-701910000, 3600, 0, "CET")
          }
         } else {
          if i < 24 {
           Table::row(-684975600, 3600, 3600, "CEST")
          } else {
           if i < 25 {
            Table::row(-670460400, 3600, 0, "CET")
           } else {
            Table::row(-654130800, 3600, 3600, "CEST")
           }
          }
         }
        }
       } else {
        if i < 30 {
         if i < 28 {
          if i < 27 {
           Table::row(-639010800, 3600, 0, "CET")
          } else {
           Table::row(323830800, 3600, 3600, "CEST")
          }
         } else {
          if i < 29 {
           Table::row(338950800, 3600, 0, "CET")
          } else {
           Table::row(354675600, 3600, 3600, "CEST")
          }
         }
        } else {
         if i < 32 {
          if i < 31 {
           Table::row(370400400, 3600, 0, "CET")
          } else {
           Table::row(386125200, 3600, 3600, "CEST")
          }
         } else {
          if i < 33 {
           Table::row(401850000, 3600, 0, "CET")
          } else {
           if i < 34 {
            Table::row(417574800, 3600, 3600, "CEST")
           } else {
            Table::row(433299600, 3600, 0, "CET")
           }
          }
         }
        }
       }
      }
     } else {
      if i < 53 {
       if i < 44 {
        if i < 39 {
         if i < 37 {
          if i < 36 {
           Table::row(449024400, 3600, 3600, "CEST")
          } else {
           Table::row(465354000, 3600, 0, "CET")
          }
         } else {
          if i < 38 {
           Table::row(481078800, 3600, 3600, "CEST")
          } else {
           Table::row(496803600, 3600, 0, "CET")
          }
         }
        } else {
         if i < 41 {
          if i < 40 {
           Table::row(512528400, 3600, 3600, "CEST")
          } else {
           Table::row(528253200, 3600, 0, "CET")
          }
         } else {
          if i < 42 {
           Table::row(543978000, 3600, 3600, "CEST")
          } else {
           if i < 43 {
            Table::row(559702800, 3600, 0, "CET")
           } else {
            Table::row(575427600, 3600, 3600, "CEST")
           }
          }
         }
        }
       } else {
        if i < 48 {
         if i < 46 {
          if i < 45 {
           Table::row(591152400, 3600, 0, "CET")
          } else {
           Table::row(606877200, 3600, 3600, "CEST")
          }
         } else {
          if i < 47 {
           Table::row(622602000, 3600, 0, "CET")
          } else {
           Table::row(638326800, 3600, 3600, "CEST")
          }
         }
        } else {
         if i < 50 {
          if i < 49 {
           Table::row(654656400, 3600, 0, "CET")
          } else {
           Table::row(670381200, 3600, 3600, "CEST")
          }
         } else {
          if i < 51 {
           Table::row(686106000, 3600, 0, "CET")
          } else {
           if i < 52 {
            Table::row(701830800, 3600, 3600, "CEST")
           } else {
            Table::row(717555600, 3600, 0, "CET")
           }
          }
         }
        }
       }
      } else {
       if i < 62 {
        if i < 57 {
         if i < 55 {
          if i < 54 {
           Table::row(733280400, 3600, 3600, "CEST")
          } else {
           Table::row(749005200, 3600, 0, "CET")
          }
         } else {
          if i < 56 {
           Table::row(764730000, 3600, 3600, "CEST")
          } else {
           Table::row(780454800, 3600, 0, "CET")
          }
         }
        } else {
         if i < 59 {
          if i < 58 {
           Table::row(796179600, 3600, 3600, "CEST")
          } else {
           Table::row(811904400, 3600, 0, "CET")
          }
         } else {
          if i < 60 {
           Table::row(828234000, 3600, 3600, "CEST")
          } else {
           if i < 61 {
            Table::row(846378000, 3600, 0, "CET")
           } else {
            Table::row(859683600, 3600, 3600, "CEST")
           }
          }
         }
        }
       } else {
        if i < 66 {
         if i < 64 {
          if i < 63 {
           Table::row(877827600, 3600, 0, "CET")
          } else {
           Table::row(891133200, 3600, 3600, "CEST")
          }
         } else {
          if i < 65 {
           Table::row(909277200, 3600, 0, "CET")
          } else {
           Table::row(922582800, 3600, 3600, "CEST")
          }
         }
        } else {
         if i < 68 {
          if i < 67 {
           Table::row(941331600, 3600, 0, "CET")
          } else {
           Table::row(954032400, 3600, 3600, "CEST")
          }
         } else {
          if i < 69 {
           Table::row(972781200, 3600, 0, "CET")
          } else {
           if i < 70 {
            Table::row(985482000, 3600, 3600, "CEST")
           } else {
            Table::row(1004230800, 3600, 0, "CET")
           }
          }
         }
        }
       }
      }
     }
    } else {
     if i < 107 {
      if i < 89 {
       if i < 80 {
        if i < 75 {
         if i < 73 {
          if i < 72 {
           Table::row(1017536400, 3600, 3600, "CEST")
          } else {
           Table::row(1035680400, 3600, 0, "CET")
          }
         } else {
          if i < 74 {
           Table::row(1048986000, 3600, 3600, "CEST")
          } else {
           Table::row(1067130000, 3600, 0, "CET")
          }
         }
        } else {
         if i < 77 {
          if i < 76 {
           Table::row(1080435600, 3600, 3600, "CEST")
          } else {
           Table::row(1099184400, 3600, 0, "CET")
          }
         } else {
          if i < 78 {
           Table::row(1111885200, 3600, 3600, "CEST")
          } else {
           if i < 79 {
            Table::row(1130634000, 3600, 0, "CET")
           } else {
            Table::row(1143334800, 3600, 3600, "CEST")
           }
          }
         }
        }
       } else {
        if i < 84 {
         if i < 82 {
          if i < 81 {
           Table::row(1162083600, 3600, 0, "CET")
          } else {
           Table::row(1174784400, 3600, 3600, "CEST")
          }
         } else {
          if i < 83 {
           Table::row(1193533200, 3600, 0, "CET")
          } else {
           Table::row(1206838800, 3600, 3600, "CEST")
          }
         }
        } else {
         if i < 86 {
          if i < 85 {
           Table::row(1224982800, 3600, 0, "CET")
          } else {
           Table::row(1238288400, 3600, 3600, "CEST")
          }
         } else {
          if i < 87 {
           Table::row(1256432400, 3600, 0, "CET")
          } else {
           if i < 88 {
            Table::row(1269738000, 3600, 3600, "CEST")
           } else {
            Table::row(1288486800, 3600, 0, "CET")
           }
          }
         }
        }
       }
      } else {
       if i < 98 {
        if i < 93 {
         if i < 91 {
          if i < 90 {
           Table::row(1301187600, 3600, 3600, "CEST")
          } else {
           Table::row(1319936400, 3600, 0, "CET")
          }
         } else {
          if i < 92 {
           Table::row(1332637200, 3600, 3600, "CEST")
          } else {
           Table::row(1351386000, 3600, 0, "CET")
          }
         }
        } else {
         if i < 95 {
          if i < 94 {
           Table::row(1364691600, 3600, 3600, "CEST")
          } else {
           Table::row(1382835600, 3600, 0, "CET")
          }
         } else {
          if i < 96 {
           Table::row(1396141200, 3600, 3600, "CEST")
          } else {
           if i < 97 {
            Table::row(1414285200, 3600, 0, "CET")
           } else {
            Table::row(1427590800, 3600, 3600, "CEST")
           }
          }
         }
        }
       } else {
        if i < 102 {
         if i < 100 {
          if i < 99 {
           Table::row(1445734800, 3600, 0, "CET")
          } else {
           Table::row(1459040400, 3600, 3600, "CEST")
          }
         } else {
          if i < 101 {
           Table::row(1477789200, 3600, 0, "CET")
          } else {
           Table::row(1490490000, 3600, 3600, "CEST")
          }
         }
        } else {
         if i < 104 {
          if i < 103 {
           Table::row(1509238800, 3600, 0, "CET")
          } else {
           Table::row(1521939600, 3600, 3600, "CEST")
          }
         } else {
          if i < 105 {
           Table::row(1540688400, 3600, 0, "CET")
          } else {
           if i < 106 {
            Table::row(1553994000, 3600, 3600, "CEST")
           } else {
            Table::row(1572138000, 3600, 0, "CET")
           }
          }
         }
        }
       }
      }
     } else {
      if i < 125 {
       if i < 116 {
        if i < 111 {
         if i < 109 {
          if i < 108 {
           Table::row(1585443600, 3600, 3600, "CEST")
          } else {
           Table::row(1603587600, 3600, 0, "CET")
          }
         } else {
          if i < 110 {
           Table::row(1616893200, 3600, 3600, "CEST")
          } else {
           Table::row(1635642000, 3600, 0, "CET")
          }
         }
        } else {
         if i < 113 {
          if i < 112 {
           Table::row(1648342800, 3600, 3600, "CEST")
          } else {
           Table::row(1667091600, 3600, 0, "CET")
          }
         } else {
          if i < 114 {
           Table::row(1679792400, 3600, 3600, "CEST")
          } else {
           if i < 115 {
            Table::row(1698541200, 3600, 0, "CET")
           } else {
            Table::row(1711846800, 3600, 3600, "CEST")
           }
          }
         }
        }
       } else {
        if i < 120 {
         if i < 118 {
          if i < 117 {
           Table::row(1729990800, 3600, 0, "CET")
          } else {
           Table::row(1743296400, 3600, 3600, "CEST")
          }
         } else {
          if i < 119 {
           Table::row(1761440400, 3600, 0, "CET")
          } else {
           Table::row(1774746000, 3600, 3600, "CEST")
          }
         }
        } else {
         if i < 122 {
          if i < 121 {
           Table::row(1792890000, 3600, 0, "CET")
          } else {
           Table::row(1806195600, 3600, 3600, "CEST")
          }
         } else {
          if i < 123 {
           Table::row(1824944400, 3600, 0, "CET")
          } else {
           if i < 124 {
            Table::row(1837645200, 3600, 3600, "CEST")
           } else {
            Table::row(1856394000, 3600, 0, "CET")
           }
          }
         }
        }
       }
      } else {
       if i < 134 {
        if i < 129 {
         if i < 127 {
          if i < 126 {
           Table::row(1869094800, 3600, 3600, "CEST")
          } else {
           Table::row(1887843600, 3600, 0, "CET")
          }
         } else {
          if i < 128 {
           Table::row(1901149200, 3600, 3600, "CEST")
          } else {
           Table::row(1919293200, 3600, 0, "CET")
          }
         }
        } else {
         if i < 131 {
          if i < 130 {
           Table::row(1932598800, 3600, 3600, "CEST")
          } else {
           Table::row(1950742800, 3600, 0, "CET")
          }
         } else {
          if i < 132 {
           Table::row(1964048400, 3600, 3600, "CEST")
          } else {
           if i < 133 {
            Table::row(1982797200, 3600, 0, "CET")
           } else {
            Table::row(1995498000, 3600, 3600, "CEST")
           }
          }
         }
        }
       } else {
        if i < 138 {
         if i < 136 {
          if i < 135 {
           Table::row(2014246800, 3600, 0, "CET")
          } else {
           Table::row(2026947600, 3600, 3600, "CEST")
          }
         } else {
          if i < 137 {
           Table::row(2045696400, 3600, 0, "CET")
          } else {
           Table::row(2058397200, 3600, 3600, "CEST")
          }
         }
        } else {
         if i < 140 {
          if i < 139 {
           Table::row(2077146000, 3600, 0, "CET")
          } else {
           Table::row(2090451600, 3600, 3600, "CEST")
          }
         } else {
          if i < 141 {
           Table::row(2108595600, 3600, 0, "CET")
          } else {
           if i < 142 {
            Table::row(2121901200, 3600, 3600, "CEST")
           } else {
            Table::row(2140045200, 3600, 0, "CET")
           }
          }
         }
        }
       }
      }
     }
    }
}

/// The rows of the table of the zone `Arctic/Longyearbyen`.
pub open spec fn longyearbyen_rows() -> spec_fn(int) -> (i64, FixedTimespan) {
    |i: int| longyearbyen_row(i)
}

/// The table of the zone `Arctic/Longyearbyen`.
pub open spec fn longyearbyen() -> Table {
    Table::listed(Table::row(0, 3208, 0, "LMT").1, 143, longyearbyen_rows())
}

} // verus!
