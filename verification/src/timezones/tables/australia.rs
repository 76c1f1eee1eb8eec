//! The tables of the zones of Australia.

use crate::timezone_impl::{FixedTimespan, Table};
use vstd::prelude::*;

verus! {

/// Row `i` of the table of the zone `Australia/ACT`.
pub open spec fn act_row(i: int) -> (i64, FixedTimespan) {
    if i < 71 {
     if i < 35 {
      if i < 17 {
       if i < 8 {
        if i < 4 {
         if i < 2 {
          if i < 1 {
           Table::row(-2364113092, 36000, 0, "AEST")
          } else {
           Table::row(-1672560000, 36000, 3600, "AEDT")
          }
         } else {
          if i < 3 {
           Table::row(-1665388800, 36000, 0, "AEST")
          } else {
           Table::row(-883641600, 36000, 3600, "AEDT")
          }
         }
        } else {
         if i < 6 {
          if i < 5 {
           Table::row(-876124800, 36000, 0, "AEST")
          } else {
           Table::row(-860400000, 36000, 3600, "AEDT")
          }
         } else {
          if i < 7 {
           Table::row(-844675200, 36000, 0, "AEST")
          } else {
           Table::row(-828345600, 36000, 3600, "AEDT")
          }
         }
        }
       } else {
        if i < 12 {
         if i < 10 {
          if i < 9 {
           Table::row(-813225600, 36000, 0, "AEST")
          } else {
           Table::row(57686400, 36000, 3600, "AEDT")
          }
         } else {
          if i < 11 {
           Table::row(67968000, 36000, 0, "AEST")
          } else {
           Table::row(89136000, 36000, 3600, "AEDT")
          }
         }
        } else {
         if i < 14 {
          if i < 13 {
           Table::row(100022400, 36000, 0, "AEST")
          } else {
           Table::row(120585600, 36000, 3600, "AEDT")
          }
         } else {
          if i < 15 {
           Table::row(131472000, 36000, 0, "AEST")
          } else {
           if i < 16 {
            Table::row(152035200, 36000, 3600, "AEDT")
           } else {
            Table::row(162921600, 36000, 0, "AEST")
           }
          }
         }
        }
       }
      } else {
       if i < 26 {
        if i < 21 {
         if i < 19 {
          if i < 18 {
           Table::row(183484800, 36000, 3600, "AEDT")
          } else {
           Table::row(194976000, 36000, 0, "AEST")
          }
         } else {
          if i < 20 {
           Table::row(215539200, 36000, 3600, "AEDT")
          } else {
           Table::row(226425600, 36000, 0, "AEST")
          }
         }
        } else {
         if i < 23 {
          if i < 22 {
           Table::row(246988800, 36000, 3600, "AEDT")
          } else {
           Table::row(257875200, 36000, 0, "AEST")
          }
         } else {
          if i < 24 {
           Table::row(278438400, 36000, 3600, "AEDT")
          } else {
           if i < 25 {
            Table::row(289324800, 36000, 0, "AEST")
           } else {
            Table::row(309888000, 36000, 3600, "AEDT")
           }
          }
         }
        }
       } else {
        if i < 30 {
         if i < 28 {
          if i < 27 {
           Table::row(320774400, 36000, 0, "AEST")
          } else {
           Table::row(341337600, 36000, 3600, "AEDT")
          }
         } else {
          if i < 29 {
           Table::row(352224000, 36000, 0, "AEST")
          } else {
           Table::row(372787200, 36000, 3600, "AEDT")
          }
         }
        } else {
         if i < 32 {
          if i < 31 {
           Table::row(386697600, 36000, 0, "AEST")
          } else {
           Table::row(404841600, 36000, 3600, "AEDT")
          }
         } else {
          if i < 33 {
           Table::row(415728000, 36000, 0, "AEST")
          } else {
           if i < 34 {
            Table::row(436291200, 36000, 3600, "AEDT")
           } else {
            Table::row(447177600, 36000, 0, "AEST")
           }
          }
         }
        }
       }
      }
     } else {
      if i < 53 {
       if i < 44 {
        if i < 39 {
         if i < 37 {
          if i < 36 {
           Table::row(467740800, 36000, 3600, "AEDT")
          } else {
           Table::row(478627200, 36000, 0, "AEST")
          }
         } else {
          if i < 38 {
           Table::row(499190400, 36000, 3600, "AEDT")
          } else {
           Table::row(511286400, 36000, 0, "AEST")
          }
         }
        } else {
         if i < 41 {
          if i < 40 {
           Table::row(530035200, 36000, 3600, "AEDT")
          } else {
           Table::row(542736000, 36000, 0, "AEST")
          }
         } else {
          if i < 42 {
           Table::row(562089600, 36000, 3600, "AEDT")
          } else {
           if i < 43 {
            Table::row(574790400, 36000, 0, "AEST")
           } else {
            Table::row(594144000, 36000, 3600, "AEDT")
           }
          }
         }
        }
       } else {
        if i < 48 {
         if i < 46 {
          if i < 45 {
           Table::row(606240000, 36000, 0, "AEST")
          } else {
           Table::row(625593600, 36000, 3600, "AEDT")
          }
         } else {
          if i < 47 {
           Table::row(636480000, 36000, 0, "AEST")
          } else {
           Table::row(657043200, 36000, 3600, "AEDT")
          }
         }
        } else {
         if i < 50 {
          if i < 49 {
           Table::row(667929600, 36000, 0, "AEST")
          } else {
           Table::row(688492800, 36000, 3600, "AEDT")
          }
         } else {
          if i < 51 {
           Table::row(699379200, 36000, 0, "AEST")
          } else {
           if i < 52 {
            Table::row(719942400, 36000, 3600, "AEDT")
           } else {
            Table::row(731433600, 36000, 0, "AEST")
           }
          }
         }
        }
       }
      } else {
       if i < 62 {
        if i < 57 {
         if i < 55 {
          if i < 54 {
           Table::row(751996800, 36000, 3600, "AEDT")
          } else {
           Table::row(762883200, 36000, 0, "AEST")
          }
         } else {
          if i < 56 {
           Table::row(783446400, 36000, 3600, "AEDT")
          } else {
           Table::row(794332800, 36000, 0, "AEST")
          }
         }
        } else {
         if i < 59 {
          if i < 58 {
           Table::row(814896000, 36000, 3600, "AEDT")
          } else {
           Table::row(828201600, 36000, 0, "AEST")
          }
         } else {
          if i < 60 {
           Table::row(846345600, 36000, 3600, "AEDT")
          } else {
           if i < 61 {
            Table::row(859651200, 36000, 0, "AEST")
           } else {
            Table::row(877795200, 36000, 3600, "AEDT")
           }
          }
         }
        }
       } else {
        if i < 66 {
         if i < 64 {
          if i < 63 {
           Table::row(891100800, 36000, 0, "AEST")
          } else {
           Table::row(909244800, 36000, 3600, "AEDT")
          }
         } else {
          if i < 65 {
           Table::row(922550400, 36000, 0, "AEST")
          } else {
           Table::row(941299200, 36000, 3600, "AEDT")
          }
         }
        } else {
         if i < 68 {
          if i < 67 {
           Table::row(954000000, 36000, 0, "AEST")
          } else {
           Table::row(967305600, 36000, 3600, "AEDT")
          }
         } else {
          if i < 69 {
           Table::row(985449600, 36000, 0, "AEST")
          } else {
           if i < 70 {
            Table::row(1004198400, 36000, 3600, "AEDT")
           } else {
            Table::row(1017504000, 36000, 0, "AEST")
           }
          }
         }
        }
       }
      }
     }
    } else {
     if i < 106 {
      if i < 88 {
       if i < 79 {
        if i < 75 {
         if i < 73 {
          if i < 72 {
           Table::row(1035648000, 36000, 3600, "AEDT")
          } else {
           Table::row(1048953600, 36000, 0, "AEST")
          }
         } else {
          if i < 74 {
           Table::row(1067097600, 36000, 3600, "AEDT")
          } else {
           Table::row(1080403200, 36000, 0, "AEST")
          }
         }
        } else {
         if i < 77 {
          if i < 76 {
           Table::row(1099152000, 36000, 3600, "AEDT")
          } else {
           Table::row(1111852800, 36000, 0, "AEST")
          }
         } else {
          if i < 78 {
           Table::row(1130601600, 36000, 3600, "AEDT")
          } else {
           Table::row(1143907200, 36000, 0, "AEST")
          }
         }
        }
       } else {
        if i < 83 {
         if i < 81 {
          if i < 80 {
           Table::row(1162051200, 36000, 3600, "AEDT")
          } else {
           Table::row(1174752000, 36000, 0, "AEST")
          }
         } else {
          if i < 82 {
           Table::row(1193500800, 36000, 3600, "AEDT")
          } else {
           Table::row(1207411200, 36000, 0, "AEST")
          }
         }
        } else {
         if i < 85 {
          if i < 84 {
           Table::row(1223136000, 36000, 3600, "AEDT")
          } else {
           Table::row(1238860800, 36000, 0, "AEST")
          }
         } else {
          if i < 86 {
           Table::row(1254585600, 36000, 3600, "AEDT")
          } else {
           if i < 87 {
            Table::row(1270310400, 36000, 0, "AEST")
           } else {
            Table::row(1286035200, 36000, 3600, "AEDT")
           }
          }
         }
        }
       }
      } else {
       if i < 97 {
        if i < 92 {
         if i < 90 {
          if i < 89 {
           Table::row(1301760000, 36000, 0, "AEST")
          } else {
           Table::row(1317484800, 36000, 3600, "AEDT")
          }
         } else {
          if i < 91 {
           Table::row(1333209600, 36000, 0, "AEST")
          } else {
           Table::row(1349539200, 36000, 3600, "AEDT")
          }
         }
        } else {
         if i < 94 {
          if i < 93 {
           Table::row(1365264000, 36000, 0, "AEST")
          } else {
           Table::row(1380988800, 36000, 3600, "AEDT")
          }
         } else {
          if i < 95 {
           Table::row(1396713600, 36000, 0, "AEST")
          } else {
           if i < 96 {
            Table::row(1412438400, 36000, 3600, "AEDT")
           } else {
            Table::row(1428163200, 36000, 0, "AEST")
           }
          }
         }
        }
       } else {
        if i < 101 {
         if i < 99 {
          if i < 98 {
           Table::row(1443888000, 36000, 3600, "AEDT")
          } else {
           Table::row(1459612800, 36000, 0, "AEST")
          }
         } else {
          if i < 100 {
           Table::row(1475337600, 36000, 3600, "AEDT")
          } else {
           Table::row(1491062400, 36000, 0, "AEST")
          }
         }
        } else {
         if i < 103 {
          if i < 102 {
           Table::row(1506787200, 36000, 3600, "AEDT")
          } else {
           Table::row(1522512000, 36000, 0, "AEST")
          }
         } else {
          if i < 104 {
           Table::row(1538841600, 36000, 3600, "AEDT")
          } else {
           if i < 105 {
            Table::row(1554566400, 36000, 0, "AEST")
           } else {
            Table::row(1570291200, 36000, 3600, "AEDT")
           }
          }
         }
        }
       }
      }
     } else {
      if i < 124 {
       if i < 115 {
        if i < 110 {
         if i < 108 {
          if i < 107 {
           Table::row(1586016000, 36000, 0, "AEST")
          } else {
           Table::row(1601740800, 36000, 3600, "AEDT")
          }
         } else {
          if i < 109 {
           Table::row(1617465600, 36000, 0, "AEST")
          } else {
           Table::row(1633190400, 36000, 3600, "AEDT")
          }
         }
        } else {
         if i < 112 {
          if i < 111 {
           Table::row(1648915200, 36000, 0, "AEST")
          } else {
           Table::row(1664640000, 36000, 3600, "AEDT")
          }
         } else {
          if i < 113 {
           Table::row(1680364800, 36000, 0, "AEST")
          } else {
           if i < 114 {
            Table::row(1696089600, 36000, 3600, "AEDT")
           } else {
            Table::row(1712419200, 36000, 0, "AEST")
           }
          }
         }
        }
       } else {
        if i < 119 {
         if i < 117 {
          if i < 116 {
           Table::row(1728144000, 36000, 3600, "AEDT")
          } else {
           Table::row(1743868800, 36000, 0, "AEST")
          }
         } else {
          if i < 118 {
           Table::row(1759593600, 36000, 3600, "AEDT")
          } else {
           Table::row(1775318400, 36000, 0, "AEST")
          }
         }
        } else {
         if i < 121 {
          if i < 120 {
           Table::row(1791043200, 36000, 3600, "AEDT")
          } else {
           Table::row(1806768000, 36000, 0, "AEST")
          }
         } else {
          if i < 122 {
           Table::row(1822492800, 36000, 3600, "AEDT")
          } else {
           if i < 123 {
            Table::row(1838217600, 36000, 0, "AEST")
           } else {
            Table::row(1853942400, 36000, 3600, "AEDT")
           }
          }
         }
        }
       }
      } else {
       if i < 133 {
        if i < 128 {
         if i < 126 {
          if i < 125 {
           Table::row(1869667200, 36000, 0, "AEST")
          } else {
           Table::row(1885996800, 36000, 3600, "AEDT")
          }
         } else {
          if i < 127 {
           Table::row(1901721600, 36000, 0, "AEST")
          } else {
           Table::row(1917446400, 36000, 3600, "AEDT")
          }
         }
        } else {
         if i < 130 {
          if i < 129 {
           Table::row(1933171200, 36000, 0, "AEST")
          } else {
           Table::row(1948896000, 36000, 3600, "AEDT")
          }
         } else {
          if i < 131 {
           Table::row(1964620800, 36000, 0, "AEST")
          } else {
           if i < 132 {
            Table::row(1980345600, 36000, 3600, "AEDT")
           } else {
            Table::row(1996070400, 36000, 0, "AEST")
           }
          }
         }
        }
       } else {
        if i < 137 {
         if i < 135 {
          if i < 134 {
           Table::row(2011795200, 36000, 3600, "AEDT")
          } else {
           Table::row(2027520000, 36000, 0, "AEST")
          }
         } else {
          if i < 136 {
           Table::row(2043244800, 36000, 3600, "AEDT")
          } else {
           Table::row(2058969600, 36000, 0, "AEST")
          }
         }
        } else {
         if i < 139 {
          if i < 138 {
           Table::row(2075299200, 36000, 3600, "AEDT")
          } else {
           Table::row(2091024000, 36000, 0, "AEST")
          }
         } else {
          if i < 140 {
           Table::row(2106748800, 36000, 3600, "AEDT")
          } else {
           if i < 141 {
            Table::row(2122473600, 36000, 0, "AEST")
           } else {
            Table::row(2138198400, 36000, 3600, "AEDT")
           }
          }
         }
        }
       }
      }
     }
    }
}

/// The rows of the table of the zone `Australia/ACT`.
pub open spec fn act_rows() -> spec_fn(int) -> (i64, FixedTimespan) {
    |i: int| act_row(i)
}

/// The table of the zone `Australia/ACT`.
pub open spec fn act() -> Table {
    Table::listed(Table::row(0, 36292, 0, "LMT").1, 142, act_rows())
}

/// Row `i` of the table of the zone `Australia/Adelaide`.
pub open spec fn adelaide_row(i: int) -> (i64, FixedTimespan) {
    if i < 71 {
     if i < 35 {
      if i < 17 {
       if i < 8 {
        if i < 4 {
         if i < 2 {
          if i < 1 {
           Table::row(-2364110060, 32400, 0, "ACST")
          } else {
           Table::row(-2230189200, 34200, 0, "ACST")
          }
         } else {
          if i < 3 {
           Table::row(-1672558200, 34200, 3600, "ACDT")
          } else {
           Table::row(-1665387000, 34200, 0, "ACST")
          }
         }
        } else {
         if i < 6 {
          if i < 5 {
           Table::row(-883639800, 34200, 3600, "ACDT")
          } else {
           Table::row(-876123000, 34200, 0, "ACST")
          }
         } else {
          if i < 7 {
           Table::row(-860398200, 34200, 3600, "ACDT")
          } else {
           Table::row(-844673400, 34200, 0, "ACST")
          }
         }
        }
       } else {
        if i < 12 {
         if i < 10 {
          if i < 9 {
           Table::row(-828343800, 34200, 3600, "ACDT")
          } else {
           Table::row(-813223800, 34200, 0, "ACST")
          }
         } else {
          if i < 11 {
           Table::row(57688200, 34200, 3600, "ACDT")
          } else {
           Table::row(67969800, 34200, 0, "ACST")
          }
         }
        } else {
         if i < 14 {
          if i < 13 {
           Table::row(89137800, 34200, 3600, "ACDT")
          } else {
           Table::row(100024200, 34200, 0, "ACST")
          }
         } else {
          if i < 15 {
           Table::row(120587400, 34200, 3600, "ACDT")
          } else {
           if i < 16 {
            Table::row(131473800, 34200, 0, "ACST")
           } else {
            Table::row(152037000, 34200, 3600, "ACDT")
           }
          }
         }
        }
       }
      } else {
       if i < 26 {
        if i < 21 {
         if i < 19 {
          if i < 18 {
           Table::row(162923400, 34200, 0, "ACST")
          } else {
           Table::row(183486600, 34200, 3600, "ACDT")
          }
         } else {
          if i < 20 {
           Table::row(194977800, 34200, 0, "ACST")
          } else {
           Table::row(215541000, 34200, 3600, "ACDT")
          }
         }
        } else {
         if i < 23 {
          if i < 22 {
           Table::row(226427400, 34200, 0, "ACST")
          } else {
           Table::row(246990600, 34200, 3600, "ACDT")
          }
         } else {
          if i < 24 {
           Table::row(257877000, 34200, 0, "ACST")
          } else {
           if i < 25 {
            Table::row(278440200, 34200, 3600, "ACDT")
           } else {
            Table::row(289326600, 34200, 0, "ACST")
           }
          }
         }
        }
       } else {
        if i < 30 {
         if i < 28 {
          if i < 27 {
           Table::row(309889800, 34200, 3600, "ACDT")
          } else {
           Table::row(320776200, 34200, 0, "ACST")
          }
         } else {
          if i < 29 {
           Table::row(341339400, 34200, 3600, "ACDT")
          } else {
           Table::row(352225800, 34200, 0, "ACST")
          }
         }
        } else {
         if i < 32 {
          if i < 31 {
           Table::row(372789000, 34200, 3600, "ACDT")
          } else {
           Table::row(384280200, 34200, 0, "ACST")
          }
         } else {
          if i < 33 {
           Table::row(404843400, 34200, 3600, "ACDT")
          } else {
           if i < 34 {
            Table::row(415729800, 34200, 0, "ACST")
           } else {
            Table::row(436293000, 34200, 3600, "ACDT")
           }
          }
         }
        }
       }
      }
     } else {
      if i < 53 {
       if i < 44 {
        if i < 39 {
         if i < 37 {
          if i < 36 {
           Table::row(447179400, 34200, 0, "ACST")
          } else {
           Table::row(467742600, 34200, 3600, "ACDT")
          }
         } else {
          if i < 38 {
           Table::row(478629000, 34200, 0, "ACST")
          } else {
           Table::row(499192200, 34200, 3600, "ACDT")
          }
         }
        } else {
         if i < 41 {
          if i < 40 {
           Table::row(511288200, 34200, 0, "ACST")
          } else {
           Table::row(530037000, 34200, 3600, "ACDT")
          }
         } else {
          if i < 42 {
           Table::row(542737800, 34200, 0, "ACST")
          } else {
           if i < 43 {
            Table::row(562091400, 34200, 3600, "ACDT")
           } else {
            Table::row(574792200, 34200, 0, "ACST")
           }
          }
         }
        }
       } else {
        if i < 48 {
         if i < 46 {
          if i < 45 {
           Table::row(594145800, 34200, 3600, "ACDT")
          } else {
           Table::row(606241800, 34200, 0, "ACST")
          }
         } else {
          if i < 47 {
           Table::row(625595400, 34200, 3600, "ACDT")
          } else {
           Table::row(637691400, 34200, 0, "ACST")
          }
         }
        } else {
         if i < 50 {
          if i < 49 {
           Table::row(657045000, 34200, 3600, "ACDT")
          } else {
           Table::row(667931400, 34200, 0, "ACST")
          }
         } else {
          if i < 51 {
           Table::row(688494600, 34200, 3600, "ACDT")
          } else {
           if i < 52 {
            Table::row(701195400, 34200, 0, "ACST")
           } else {
            Table::row(719944200, 34200, 3600, "ACDT")
           }
          }
         }
        }
       }
      } else {
       if i < 62 {
        if i < 57 {
         if i < 55 {
          if i < 54 {
           Table::row(731435400, 34200, 0, "ACST")
          } else {
           Table::row(751998600, 34200, 3600, "ACDT")
          }
         } else {
          if i < 56 {
           Table::row(764094600, 34200, 0, "ACST")
          } else {
           Table::row(783448200, 34200, 3600, "ACDT")
          }
         }
        } else {
         if i < 59 {
          if i < 58 {
           Table::row(796149000, 34200, 0, "ACST")
          } else {
           Table::row(814897800, 34200, 3600, "ACDT")
          }
         } else {
          if i < 60 {
           Table::row(828203400, 34200, 0, "ACST")
          } else {
           if i < 61 {
            Table::row(846347400, 34200, 3600, "ACDT")
           } else {
            Table::row(859653000, 34200, 0, "ACST")
           }
          }
         }
        }
       } else {
        if i < 66 {
         if i < 64 {
          if i < 63 {
           Table::row(877797000, 34200, 3600, "ACDT")
          } else {
           Table::row(891102600, 34200, 0, "ACST")
          }
         } else {
          if i < 65 {
           Table::row(909246600, 34200, 3600, "ACDT")
          } else {
           Table::row(922552200, 34200, 0, "ACST")
          }
         }
        } else {
         if i < 68 {
          if i < 67 {
           Table::row(941301000, 34200, 3600, "ACDT")
          } else {
           Table::row(954001800, 34200, 0, "ACST")
          }
         } else {
          if i < 69 {
           Table::row(972750600, 34200, 3600, "ACDT")
          } else {
           if i < 70 {
            Table::row(985451400, 34200, 0, "ACST")
           } else {
            Table::row(1004200200, 34200, 3600, "ACDT")
           }
          }
         }
        }
       }
      }
     }
    } else {
     if i < 107 {
      if i < 89 {
       if i < 80 {
        if i < 75 {
         if i < 73 {
          if i < 72 {
           Table::row(1017505800, 34200, 0, "ACST")
          } else {
           Table::row(1035649800, 34200, 3600, "ACDT")
          }
         } else {
          if i < 74 {
           Table::row(1048955400, 34200, 0, "ACST")
          } else {
           Table::row(1067099400, 34200, 3600, "ACDT")
          }
         }
        } else {
         if i < 77 {
          if i < 76 {
           Table::row(1080405000, 34200, 0, "ACST")
          } else {
           Table::row(1099153800, 34200, 3600, "ACDT")
          }
         } else {
          if i < 78 {
           Table::row(1111854600, 34200, 0, "ACST")
          } else {
           if i < 79 {
            Table::row(1130603400, 34200, 3600, "ACDT")
           } else {
            Table::row(1143909000, 34200, 0, "ACST")
           }
          }
         }
        }
       } else {
        if i < 84 {
         if i < 82 {
          if i < 81 {
           Table::row(1162053000, 34200, 3600, "ACDT")
          } else {
           Table::row(1174753800, 34200, 0, "ACST")
          }
         } else {
          if i < 83 {
           Table::row(1193502600, 34200, 3600, "ACDT")
          } else {
           Table::row(1207413000, 34200, 0, "ACST")
          }
         }
        } else {
         if i < 86 {
          if i < 85 {
           Table::row(1223137800, 34200, 3600, "ACDT")
          } else {
           Table::row(1238862600, 34200, 0, "ACST")
          }
         } else {
          if i < 87 {
           Table::row(1254587400, 34200, 3600, "ACDT")
          } else {
           if i < 88 {
            Table::row(1270312200, 34200, 0, "ACST")
           } else {
            Table::row(1286037000, 34200, 3600, "ACDT")
           }
          }
         }
        }
       }
      } else {
       if i < 98 {
        if i < 93 {
         if i < 91 {
          if i < 90 {
           Table::row(1301761800, 34200, 0, "ACST")
          } else {
           Table::row(1317486600, 34200, 3600, "ACDT")
          }
         } else {
          if i < 92 {
           Table::row(1333211400, 34200, 0, "ACST")
          } else {
           Table::row(1349541000, 34200, 3600, "ACDT")
          }
         }
        } else {
         if i < 95 {
          if i < 94 {
           Table::row(1365265800, 34200, 0, "ACST")
          } else {
           Table::row(1380990600, 34200, 3600, "ACDT")
          }
         } else {
          if i < 96 {
           Table::row(1396715400, 34200, 0, "ACST")
          } else {
           if i < 97 {
            Table::row(1412440200, 34200, 3600, "ACDT")
           } else {
            Table::row(1428165000, 34200, 0, "ACST")
           }
          }
         }
        }
       } else {
        if i < 102 {
         if i < 100 {
          if i < 99 {
           Table::row(1443889800, 34200, 3600, "ACDT")
          } else {
           Table::row(1459614600, 34200, 0, "ACST")
          }
         } else {
          if i < 101 {
           Table::row(1475339400, 34200, 3600, "ACDT")
          } else {
           Table::row(1491064200, 34200, 0, "ACST")
          }
         }
        } else {
         if i < 104 {
          if i < 103 {
           Table::row(1506789000, 34200, 3600, "ACDT")
          } else {
           Table::row(1522513800, 34200, 0, "ACST")
          }
         } else {
          if i < 105 {
           Table::row(1538843400, 34200, 3600, "ACDT")
          } else {
           if i < 106 {
            Table::row(1554568200, 34200, 0, "ACST")
           } else {
            Table::row(1570293000, 34200, 3600, "ACDT")
           }
          }
         }
        }
       }
      }
     } else {
      if i < 125 {
       if i < 116 {
        if i < 111 {
         if i < 109 {
          if i < 108 {
           Table::row(1586017800, 34200, 0, "ACST")
          } else {
           Table::row(1601742600, 34200, 3600, "ACDT")
          }
         } else {
          if i < 110 {
           Table::row(1617467400, 34200, 0, "ACST")
          } else {
           Table::row(1633192200, 34200, 3600, "ACDT")
          }
         }
        } else {
         if i < 113 {
          if i < 112 {
           Table::row(1648917000, 34200, 0, "ACST")
          } else {
           Table::row(1664641800, 34200, 3600, "ACDT")
          }
         } else {
          if i < 114 {
           Table::row(1680366600, 34200, 0, "ACST")
          } else {
           if i < 115 {
            Table::row(1696091400, 34200, 3600, "ACDT")
           } else {
            Table::row(1712421000, 34200, 0, "ACST")
           }
          }
         }
        }
       } else {
        if i < 120 {
         if i < 118 {
          if i < 117 {
           Table::row(1728145800, 34200, 3600, "ACDT")
          } else {
           Table::row(1743870600, 34200, 0, "ACST")
          }
         } else {
          if i < 119 {
           Table::row(1759595400, 34200, 3600, "ACDT")
          } else {
           Table::row(1775320200, 34200, 0, "ACST")
          }
         }
        } else {
         if i < 122 {
          if i < 121 {
           Table::row(1791045000, 34200, 3600, "ACDT")
          } else {
           Table::row(1806769800, 34200, 0, "ACST")
          }
         } else {
          if i < 123 {
           Table::row(1822494600, 34200, 3600, "ACDT")
          } else {
           if i < 124 {
            Table::row(1838219400, 34200, 0, "ACST")
           } else {
            Table::row(1853944200, 34200, 3600, "ACDT")
           }
          }
         }
        }
       }
      } else {
       if i < 134 {
        if i < 129 {
         if i < 127 {
          if i < 126 {
           Table::row(1869669000, 34200, 0, "ACST")
          } else {
           Table::row(1885998600, 34200, 3600, "ACDT")
          }
         } else {
          if i < 128 {
           Table::row(1901723400, 34200, 0, "ACST")
          } else {
           Table::row(1917448200, 34200, 3600, "ACDT")
          }
         }
        } else {
         if i < 131 {
          if i < 130 {
           Table::row(1933173000, 34200, 0, "ACST")
          } else {
           Table::row(1948897800, 34200, 3600, "ACDT")
          }
         } else {
          if i < 132 {
           Table::row(1964622600, 34200, 0, "ACST")
          } else {
           if i < 133 {
            Table::row(1980347400, 34200, 3600, "ACDT")
           } else {
            Table::row(1996072200, 34200, 0, "ACST")
           }
          }
         }
        }
       } else {
        if i < 138 {
         if i < 136 {
          if i < 135 {
           Table::row(2011797000, 34200, 3600, "ACDT")
          } else {
           Table::row(2027521800, 34200, 0, "ACST")
          }
         } else {
          if i < 137 {
           Table::row(2043246600, 34200, 3600, "ACDT")
          } else {
           Table::row(2058971400, 34200, 0, "ACST")
          }
         }
        } else {
         if i < 140 {
          if i < 139 {
           Table::row(2075301000, 34200, 3600, "ACDT")
          } else {
           Table::row(2091025800, 34200, 0, "ACST")
          }
         } else {
          if i < 141 {
           Table::row(2106750600, 34200, 3600, "ACDT")
          } else {
           if i < 142 {
            Table::row(2122475400, 34200, 0, "ACST")
           } else {
            Table::row(2138200200, 34200, 3600, "ACDT")
           }
          }
         }
        }
       }
      }
     }
    }
}

/// The rows of the table of the zone `Australia/Adelaide`.
pub open spec fn adelaide_rows() -> spec_fn(int) -> (i64, FixedTimespan) {
    |i: int| adelaide_row(i)
}

/// The table of the zone `Australia/Adelaide`.
pub open spec fn adelaide() -> Table {
    Table::listed(Table::row(0, 33260, 0, "LMT").1, 143, adelaide_rows())
}

/// Row `i` of the table of the zone `Australia/Brisbane`.
pub open spec fn brisbane_row(i: int) -> (i64, FixedTimespan) {
    if i < 8 {
     if i < 4 {
      if i < 2 {
       if i < 1 {
        Table::row(-2366791928, 36000, 0, "AEST")
       } else {
        Table::row(-1672560000, 36000, 3600, "AEDT")
       }
      } else {
       if i < 3 {
        Table::row(-1665388800, 36000, 0, "AEST")
       } else {
        Table::row(-883641600, 36000, 3600, "AEDT")
       }
      }
     } else {
      if i < 6 {
       if i < 5 {
        Table::row(-876124800, 36000, 0, "AEST")
       } else {
        Table::row(-860400000, 36000, 3600, "AEDT")
       }
      } else {
       if i < 7 {
        Table::row(-844675200, 36000, 0, "AEST")
       } else {
        Table::row(-828345600, 36000, 3600, "AEDT")
       }
      }
     }
    } else {
     if i < 12 {
      if i < 10 {
       if i < 9 {
        Table::row(-813225600, 36000, 0, "AEST")
       } else {
        Table::row(57686400, 36000, 3600, "AEDT")
       }
      } else {
       if i < 11 {
        Table::row(67968000, 36000, 0, "AEST")
       } else {
        Table::row(625593600, 36000, 3600, "AEDT")
       }
      }
     } else {
      if i < 14 {
       if i < 13 {
        Table::row(636480000, 36000, 0, "AEST")
       } else {
        Table::row(657043200, 36000, 3600, "AEDT")
       }
      } else {
       if i < 15 {
        Table::row(667929600, 36000, 0, "AEST")
       } else {
        if i < 16 {
         Table::row(688492800, 36000, 3600, "AEDT")
        } else {
         Table::row(699379200, 36000, 0, "AEST")
        }
       }
      }
     }
    }
}

/// The rows of the table of the zone `Australia/Brisbane`.
pub open spec fn brisbane_rows() -> spec_fn(int) -> (i64, FixedTimespan) {
    |i: int| brisbane_row(i)
}

/// The table of the zone `Australia/Brisbane`.
pub open spec fn brisbane() -> Table {
    Table::listed(Table::row(0, 36728, 0, "LMT").1, 17, brisbane_rows())
}

/// Row `i` of the table of the zone `Australia/Broken_Hill`.
pub open spec fn broken_hill_row(i: int) -> (i64, FixedTimespan) {
    if i < 72 {
     if i < 36 {
      if i < 18 {
       if i < 9 {
        if i < 4 {
         if i < 2 {
          if i < 1 {
           Table::row(-2364110748, 36000, 0, "AEST")
          } else {
           Table::row(-2314951200, 32400, 0, "ACST")
          }
         } else {
          if i < 3 {
           Table::row(-2230189200, 34200, 0, "ACST")
          } else {
           Table::row(-1672558200, 34200, 3600, "ACDT")
          }
         }
        } else {
         if i < 6 {
          if i < 5 {
           Table::row(-1665387000, 34200, 0, "ACST")
          } else {
           Table::row(-883639800, 34200, 3600, "ACDT")
          }
         } else {
          if i < 7 {
           Table::row(-876123000, 34200, 0, "ACST")
          } else {
           if i < 8 {
            Table::row(-860398200, 34200, 3600, "ACDT")
           } else {
            Table::row(-844673400, 34200, 0, "ACST")
           }
          }
         }
        }
       } else {
        if i < 13 {
         if i < 11 {
          if i < 10 {
           Table::row(-828343800, 34200, 3600, "ACDT")
          } else {
           Table::row(-813223800, 34200, 0, "ACST")
          }
         } else {
          if i < 12 {
           Table::row(57688200, 34200, 3600, "ACDT")
          } else {
           Table::row(67969800, 34200, 0, "ACST")
          }
         }
        } else {
         if i < 15 {
          if i < 14 {
           Table::row(89137800, 34200, 3600, "ACDT")
          } else {
           Table::row(100024200, 34200, 0, "ACST")
          }
         } else {
          if i < 16 {
           Table::row(120587400, 34200, 3600, "ACDT")
          } else {
           if i < 17 {
            Table::row(131473800, 34200, 0, "ACST")
           } else {
            Table::row(152037000, 34200, 3600, "ACDT")
           }
          }
         }
        }
       }
      } else {
       if i < 27 {
        if i < 22 {
         if i < 20 {
          if i < 19 {
           Table::row(162923400, 34200, 0, "ACST")
          } else {
           Table::row(183486600, 34200, 3600, "ACDT")
          }
         } else {
          if i < 21 {
           Table::row(194977800, 34200, 0, "ACST")
          } else {
           Table::row(215541000, 34200, 3600, "ACDT")
          }
         }
        } else {
         if i < 24 {
          if i < 23 {
           Table::row(226427400, 34200, 0, "ACST")
          } else {
           Table::row(246990600, 34200, 3600, "ACDT")
          }
         } else {
          if i < 25 {
           Table::row(257877000, 34200, 0, "ACST")
          } else {
           if i < 26 {
            Table::row(278440200, 34200, 3600, "ACDT")
           } else {
            Table::row(289326600, 34200, 0, "ACST")
           }
          }
         }
        }
       } else {
        if i < 31 {
         if i < 29 {
          if i < 28 {
           Table::row(309889800, 34200, 3600, "ACDT")
          } else {
           Table::row(320776200, 34200, 0, "ACST")
          }
         } else {
          if i < 30 {
           Table::row(341339400, 34200, 3600, "ACDT")
          } else {
           Table::row(352225800, 34200, 0, "ACST")
          }
         }
        } else {
         if i < 33 {
          if i < 32 {
           Table::row(372789000, 34200, 3600, "ACDT")
          } else {
           Table::row(386699400, 34200, 0, "ACST")
          }
         } else {
          if i < 34 {
           Table::row(404843400, 34200, 3600, "ACDT")
          } else {
           if i < 35 {
            Table::row(415729800, 34200, 0, "ACST")
           } else {
            Table::row(436293000, 34200, 3600, "ACDT")
           }
          }
         }
        }
       }
      }
     } else {
      if i < 54 {
       if i < 45 {
        if i < 40 {
         if i < 38 {
          if i < 37 {
           Table::row(447179400, 34200, 0, "ACST")
          } else {
           Table::row(467742600, 34200, 3600, "ACDT")
          }
         } else {
          if i < 39 {
           Table::row(478629000, 34200, 0, "ACST")
          } else {
           Table::row(499192200, 34200, 3600, "ACDT")
          }
         }
        } else {
         if i < 42 {
          if i < 41 {
           Table::row(511288200, 34200, 0, "ACST")
          } else {
           Table::row(530037000, 34200, 3600, "ACDT")
          }
         } else {
          if i < 43 {
           Table::row(542737800, 34200, 0, "ACST")
          } else {
           if i < 44 {
            Table::row(562091400, 34200, 3600, "ACDT")
           } else {
            Table::row(574792200, 34200, 0, "ACST")
           }
          }
         }
        }
       } else {
        if i < 49 {
         if i < 47 {
          if i < 46 {
           Table::row(594145800, 34200, 3600, "ACDT")
          } else {
           Table::row(606241800, 34200, 0, "ACST")
          }
         } else {
          if i < 48 {
           Table::row(625595400, 34200, 3600, "ACDT")
          } else {
           Table::row(636481800, 34200, 0, "ACST")
          }
         }
        } else {
         if i < 51 {
          if i < 50 {
           Table::row(657045000, 34200, 3600, "ACDT")
          } else {
           Table::row(667931400, 34200, 0, "ACST")
          }
         } else {
          if i < 52 {
           Table::row(688494600, 34200, 3600, "ACDT")
          } else {
           if i < 53 {
            Table::row(699381000, 34200, 0, "ACST")
           } else {
            Table::row(719944200, 34200, 3600, "ACDT")
           }
          }
         }
        }
       }
      } else {
       if i < 63 {
        if i < 58 {
         if i < 56 {
          if i < 55 {
           Table::row(731435400, 34200, 0, "ACST")
          } else {
           Table::row(751998600, 34200, 3600, "ACDT")
          }
         } else {
          if i < 57 {
           Table::row(762885000, 34200, 0, "ACST")
          } else {
           Table::row(783448200, 34200, 3600, "ACDT")
          }
         }
        } else {
         if i < 60 {
          if i < 59 {
           Table::row(794334600, 34200, 0, "ACST")
          } else {
           Table::row(814897800, 34200, 3600, "ACDT")
          }
         } else {
          if i < 61 {
           Table::row(828203400, 34200, 0, "ACST")
          } else {
           if i < 62 {
            Table::row(846347400, 34200, 3600, "ACDT")
           } else {
            Table::row(859653000, 34200, 0, "ACST")
           }
          }
         }
        }
       } else {
        if i < 67 {
         if i < 65 {
          if i < 64 {
           Table::row(877797000, 34200, 3600, "ACDT")
          } else {
           Table::row(891102600, 34200, 0, "ACST")
          }
         } else {
          if i < 66 {
           Table::row(909246600, 34200, 3600, "ACDT")
          } else {
           Table::row(922552200, 34200, 0, "ACST")
          }
         }
        } else {
         if i < 69 {
          if i < 68 {
           Table::row(941301000, 34200, 3600, "ACDT")
          } else {
           Table::row(954001800, 34200, 0, "ACST")
          }
         } else {
          if i < 70 {
           Table::row(972750600, 34200, 3600, "ACDT")
          } else {
           if i < 71 {
            Table::row(985451400, 34200, 0, "ACST")
           } else {
            Table::row(1004200200, 34200, 3600, "ACDT")
           }
          }
         }
        }
       }
      }
     }
    } else {
     if i < 108 {
      if i < 90 {
       if i < 81 {
        if i < 76 {
         if i < 74 {
          if i < 73 {
           Table::row(1017505800, 34200, 0, "ACST")
          } else {
           Table::row(1035649800, 34200, 3600, "ACDT")
          }
         } else {
          if i < 75 {
           Table::row(1048955400, 34200, 0, "ACST")
          } else {
           Table::row(1067099400, 34200, 3600, "ACDT")
          }
         }
        } else {
         if i < 78 {
          if i < 77 {
           Table::row(1080405000, 34200, 0, "ACST")
          } else {
           Table::row(1099153800, 34200, 3600, "ACDT")
          }
         } else {
          if i < 79 {
           Table::row(1111854600, 34200, 0, "ACST")
          } else {
           if i < 80 {
            Table::row(1130603400, 34200, 3600, "ACDT")
           } else {
            Table::row(1143909000, 34200, 0, "ACST")
           }
          }
         }
        }
       } else {
        if i < 85 {
         if i < 83 {
          if i < 82 {
           Table::row(1162053000, 34200, 3600, "ACDT")
          } else {
           Table::row(1174753800, 34200, 0, "ACST")
          }
         } else {
          if i < 84 {
           Table::row(1193502600, 34200, 3600, "ACDT")
          } else {
           Table::row(1207413000, 34200, 0, "ACST")
          }
         }
        } else {
         if i < 87 {
          if i < 86 {
           Table::row(1223137800, 34200, 3600, "ACDT")
          } else {
           Table::row(1238862600, 34200, 0, "ACST")
          }
         } else {
          if i < 88 {
           Table::row(1254587400, 34200, 3600, "ACDT")
          } else {
           if i < 89 {
            Table::row(1270312200, 34200, 0, "ACST")
           } else {
            Table::row(1286037000, 34200, 3600, "ACDT")
           }
          }
         }
        }
       }
      } else {
       if i < 99 {
        if i < 94 {
         if i < 92 {
          if i < 91 {
           Table::row(1301761800, 34200, 0, "ACST")
          } else {
           Table::row(1317486600, 34200, 3600, "ACDT")
          }
         } else {
          if i < 93 {
           Table::row(1333211400, 34200, 0, "ACST")
          } else {
           Table::row(1349541000, 34200, 3600, "ACDT")
          }
         }
        } else {
         if i < 96 {
          if i < 95 {
           Table::row(1365265800, 34200, 0, "ACST")
          } else {
           Table::row(1380990600, 34200, 3600, "ACDT")
          }
         } else {
          if i < 97 {
           Table::row(1396715400, 34200, 0, "ACST")
          } else {
           if i < 98 {
            Table::row(1412440200, 34200, 3600, "ACDT")
           } else {
            Table::row(1428165000, 34200, 0, "ACST")
           }
          }
         }
        }
       } else {
        if i < 103 {
         if i < 101 {
          if i < 100 {
           Table::row(1443889800, 34200, 3600, "ACDT")
          } else {
           Table::row(1459614600, 34200, 0, "ACST")
          }
         } else {
          if i < 102 {
           Table::row(1475339400, 34200, 3600, "ACDT")
          } else {
           Table::row(1491064200, 34200, 0, "ACST")
          }
         }
        } else {
         if i < 105 {
          if i < 104 {
           Table::row(1506789000, 34200, 3600, "ACDT")
          } else {
           Table::row(1522513800, 34200, 0, "ACST")
          }
         } else {
          if i < 106 {
           Table::row(1538843400, 34200, 3600, "ACDT")
          } else {
           if i < 107 {
            Table::row(1554568200, 34200, 0, "ACST")
           } else {
            Table::row(1570293000, 34200, 3600, "ACDT")
           }
          }
         }
        }
       }
      }
     } else {
      if i < 126 {
       if i < 117 {
        if i < 112 {
         if i < 110 {
          if i < 109 {
           Table::row(1586017800, 34200, 0, "ACST")
          } else {
           Table::row(1601742600, 34200, 3600, "ACDT")
          }
         } else {
          if i < 111 {
           Table::row(1617467400, 34200, 0, "ACST")
          } else {
           Table::row(1633192200, 34200, 3600, "ACDT")
          }
         }
        } else {
         if i < 114 {
          if i < 113 {
           Table::row(1648917000, 34200, 0, "ACST")
          } else {
           Table::row(1664641800, 34200, 3600, "ACDT")
          }
         } else {
          if i < 115 {
           Table::row(1680366600, 34200, 0, "ACST")
          } else {
           if i < 116 {
            Table::row(1696091400, 34200, 3600, "ACDT")
           } else {
            Table::row(1712421000, 34200, 0, "ACST")
           }
          }
         }
        }
       } else {
        if i < 121 {
         if i < 119 {
          if i < 118 {
           Table::row(1728145800, 34200, 3600, "ACDT")
          } else {
           Table::row(1743870600, 34200, 0, "ACST")
          }
         } else {
          if i < 120 {
           Table::row(1759595400, 34200, 3600, "ACDT")
          } else {
           Table::row(1775320200, 34200, 0, "ACST")
          }
         }
        } else {
         if i < 123 {
          if i < 122 {
           Table::row(1791045000, 34200, 3600, "ACDT")
          } else {
           Table::row(1806769800, 34200, 0, "ACST")
          }
         } else {
          if i < 124 {
           Table::row(1822494600, 34200, 3600, "ACDT")
          } else {
           if i < 125 {
            Table::row(1838219400, 34200, 0, "ACST")
           } else {
            Table::row(1853944200, 34200, 3600, "ACDT")
           }
          }
         }
        }
       }
      } else {
       if i < 135 {
        if i < 130 {
         if i < 128 {
          if i < 127 {
           Table::row(1869669000, 34200, 0, "ACST")
          } else {
           Table::row(1885998600, 34200, 3600, "ACDT")
          }
         } else {
          if i < 129 {
           Table::row(1901723400, 34200, 0, "ACST")
          } else {
           Table::row(1917448200, 34200, 3600, "ACDT")
          }
         }
        } else {
         if i < 132 {
          if i < 131 {
           Table::row(1933173000, 34200, 0, "ACST")
          } else {
           Table::row(1948897800, 34200, 3600, "ACDT")
          }
         } else {
          if i < 133 {
           Table::row(1964622600, 34200, 0, "ACST")
          } else {
           if i < 134 {
            Table::row(1980347400, 34200, 3600, "ACDT")
           } else {
            Table::row(1996072200, 34200, 0, "ACST")
           }
          }
         }
        }
       } else {
        if i < 139 {
         if i < 137 {
          if i < 136 {
           Table::row(2011797000, 34200, 3600, "ACDT")
          } else {
           Table::row(2027521800, 34200, 0, "ACST")
          }
         } else {
          if i < 138 {
           Table::row(2043246600, 34200, 3600, "ACDT")
          } else {
           Table::row(2058971400, 34200, 0, "ACST")
          }
         }
        } else {
         if i < 141 {
          if i < 140 {
           Table::row(2075301000, 34200, 3600, "ACDT")
          } else {
           Table::row(2091025800, 34200, 0, "ACST")
          }
         } else {
          if i < 142 {
           Table::row(2106750600, 34200, 3600, "ACDT")
          } else {
           if i < 143 {
            Table::row(2122475400, 34200, 0, "ACST")
           } else {
            Table::row(2138200200, 34200, 3600, "ACDT")
           }
          }
         }
        }
       }
      }
     }
    }
}

/// The rows of the table of the zone `Australia/Broken_Hill`.
pub open spec fn broken_hill_rows() -> spec_fn(int) -> (i64, FixedTimespan) {
    |i: int| broken_hill_row(i)
}

/// The table of the zone `Australia/Broken_Hill`.
pub open spec fn broken_hill() -> Table {
    Table::listed(Table::row(0, 33948, 0, "LMT").1, 144, broken_hill_rows())
}

/// Row `i` of the table of the zone `Australia/Canberra`.
pub open spec fn canberra_row(i: int) -> (i64, FixedTimespan) {
    if i < 71 {
     if i < 35 {
      if i < 17 {
       if i < 8 {
        if i < 4 {
         if i < 2 {
          if i < 1 {
           Table::row(-2364113092, 36000, 0, "AEST")
          } else {
           Table::row(-1672560000, 36000, 3600, "AEDT")
          }
         } else {
          if i < 3 {
           Table::row(-1665388800, 36000, 0, "AEST")
          } else {
           Table::row(-883641600, 36000, 3600, "AEDT")
          }
         }
        } else {
         if i < 6 {
          if i < 5 {
           Table::row(-876124800, 36000, 0, "AEST")
          } else {
           Table::row(-860400000, 36000, 3600, "AEDT")
          }
         } else {
          if i < 7 {
           Table::row(-844675200, 36000, 0, "AEST")
          } else {
           Table::row(-828345600, 36000, 3600, "AEDT")
          }
         }
        }
       } else {
        if i < 12 {
         if i < 10 {
          if i < 9 {
           Table::row(-813225600, 36000, 0, "AEST")
          } else {
           Table::row(57686400, 36000, 3600, "AEDT")
          }
         } else {
          if i < 11 {
           Table::row(67968000, 36000, 0, "AEST")
          } else {
           Table::row(89136000, 36000, 3600, "AEDT")
          }
         }
        } else {
         if i < 14 {
          if i < 13 {
           Table::row(100022400, 36000, 0, "AEST")
          } else {
           Table::row(120585600, 36000, 3600, "AEDT")
          }
         } else {
          if i < 15 {
           Table::row(131472000, 36000, 0, "AEST")
          } else {
           if i < 16 {
            Table::row(152035200, 36000, 3600, "AEDT")
           } else {
            Table::row(162921600, 36000, 0, "AEST")
           }
          }
         }
        }
       }
      } else {
       if i < 26 {
        if i < 21 {
         if i < 19 {
          if i < 18 {
           Table::row(183484800, 36000, 3600, "AEDT")
          } else {
           Table::row(194976000, 36000, 0, "AEST")
          }
         } else {
          if i < 20 {
           Table::row(215539200, 36000, 3600, "AEDT")
          } else {
           Table::row(226425600, 36000, 0, "AEST")
          }
         }
        } else {
         if i < 23 {
          if i < 22 {
           Table::row(246988800, 36000, 3600, "AEDT")
          } else {
           Table::row(257875200, 36000, 0, "AEST")
          }
         } else {
          if i < 24 {
           Table::row(278438400, 36000, 3600, "AEDT")
          } else {
           if i < 25 {
            Table::row(289324800, 36000, 0, "AEST")
           } else {
            Table::row(309888000, 36000, 3600, "AEDT")
           }
          }
         }
        }
       } else {
        if i < 30 {
         if i < 28 {
          if i < 27 {
           Table::row(320774400, 36000, 0, "AEST")
          } else {
           Table::row(341337600, 36000, 3600, "AEDT")
          }
         } else {
          if i < 29 {
           Table::row(352224000, 36000, 0, "AEST")
          } else {
           Table::row(372787200, 36000, 3600, "AEDT")
          }
         }
        } else {
         if i < 32 {
          if i < 31 {
           Table::row(386697600, 36000, 0, "AEST")
          } else {
           Table::row(404841600, 36000, 3600, "AEDT")
          }
         } else {
          if i < 33 {
           Table::row(415728000, 36000, 0, "AEST")
          } else {
           if i < 34 {
            Table::row(436291200, 36000, 3600, "AEDT")
           } else {
            Table::row(447177600, 36000, 0, "AEST")
           }
          }
         }
        }
       }
      }
     } else {
      if i < 53 {
       if i < 44 {
        if i < 39 {
         if i < 37 {
          if i < 36 {
           Table::row(467740800, 36000, 3600, "AEDT")
          } else {
           Table::row(478627200, 36000, 0, "AEST")
          }
         } else {
          if i < 38 {
           Table::row(499190400, 36000, 3600, "AEDT")
          } else {
           Table::row(511286400, 36000, 0, "AEST")
          }
         }
        } else {
         if i < 41 {
          if i < 40 {
           Table::row(530035200, 36000, 3600, "AEDT")
          } else {
           Table::row(542736000, 36000, 0, "AEST")
          }
         } else {
          if i < 42 {
           Table::row(562089600, 36000, 3600, "AEDT")
          } else {
           if i < 43 {
            Table::row(574790400, 36000, 0, "AEST")
           } else {
            Table::row(594144000, 36000, 3600, "AEDT")
           }
          }
         }
        }
       } else {
        if i < 48 {
         if i < 46 {
          if i < 45 {
           Table::row(606240000, 36000, 0, "AEST")
          } else {
           Table::row(625593600, 36000, 3600, "AEDT")
          }
         } else {
          if i < 47 {
           Table::row(636480000, 36000, 0, "AEST")
          } else {
           Table::row(657043200, 36000, 3600, "AEDT")
          }
         }
        } else {
         if i < 50 {
          if i < 49 {
           Table::row(667929600, 36000, 0, "AEST")
          } else {
           Table::row(688492800, 36000, 3600, "AEDT")
          }
         } else {
          if i < 51 {
           Table::row(699379200, 36000, 0, "AEST")
          } else {
           if i < 52 {
            Table::row(719942400, 36000, 3600, "AEDT")
           } else {
            Table::row(731433600, 36000, 0, "AEST")
           }
          }
         }
        }
       }
      } else {
       if i < 62 {
        if i < 57 {
         if i < 55 {
          if i < 54 {
           Table::row(751996800, 36000, 3600, "AEDT")
          } else {
           Table::row(762883200, 36000, 0, "AEST")
          }
         } else {
          if i < 56 {
           Table::row(783446400, 36000, 3600, "AEDT")
          } else {
           Table::row(794332800, 36000, 0, "AEST")
          }
         }
        } else {
         if i < 59 {
          if i < 58 {
           Table::row(814896000, 36000, 3600, "AEDT")
          } else {
           Table::row(828201600, 36000, 0, "AEST")
          }
         } else {
          if i < 60 {
           Table::row(846345600, 36000, 3600, "AEDT")
          } else {
           if i < 61 {
            Table::row(859651200, 36000, 0, "AEST")
           } else {
            Table::row(877795200, 36000, 3600, "AEDT")
           }
          }
         }
        }
       } else {
        if i < 66 {
         if i < 64 {
          if i < 63 {
           Table::row(891100800, 36000, 0, "AEST")
          } else {
           Table::row(909244800, 36000, 3600, "AEDT")
          }
         } else {
          if i < 65 {
           Table::row(922550400, 36000, 0, "AEST")
          } else {
           Table::row(941299200, 36000, 3600, "AEDT")
          }
         }
        } else {
         if i < 68 {
          if i < 67 {
           Table::row(954000000, 36000, 0, "AEST")
          } else {
           Table::row(967305600, 36000, 3600, "AEDT")
          }
         } else {
          if i < 69 {
           Table::row(985449600, 36000, 0, "AEST")
          } else {
           if i < 70 {
            Table::row(1004198400, 36000, 3600, "AEDT")
           } else {
            Table::row(1017504000, 36000, 0, "AEST")
           }
          }
         }
        }
       }
      }
     }
    } else {
     if i < 106 {
      if i < 88 {
       if i < 79 {
        if i < 75 {
         if i < 73 {
          if i < 72 {
           Table::row(1035648000, 36000, 3600, "AEDT")
          } else {
           Table::row(1048953600, 36000, 0, "AEST")
          }
         } else {
          if i < 74 {
           Table::row(1067097600, 36000, 3600, "AEDT")
          } else {
           Table::row(1080403200, 36000, 0, "AEST")
          }
         }
        } else {
         if i < 77 {
          if i < 76 {
           Table::row(1099152000, 36000, 3600, "AEDT")
          } else {
           Table::row(1111852800, 36000, 0, "AEST")
          }
         } else {
          if i < 78 {
           Table::row(1130601600, 36000, 3600, "AEDT")
          } else {
           Table::row(1143907200, 36000, 0, "AEST")
          }
         }
        }
       } else {
        if i < 83 {
         if i < 81 {
          if i < 80 {
           Table::row(1162051200, 36000, 3600, "AEDT")
          } else {
           Table::row(1174752000, 36000, 0, "AEST")
          }
         } else {
          if i < 82 {
           Table::row(1193500800, 36000, 3600, "AEDT")
          } else {
           Table::row(1207411200, 36000, 0, "AEST")
          }
         }
        } else {
         if i < 85 {
          if i < 84 {
           Table::row(1223136000, 36000, 3600, "AEDT")
          } else {
           Table::row(1238860800, 36000, 0, "AEST")
          }
         } else {
          if i < 86 {
           Table::row(1254585600, 36000, 3600, "AEDT")
          } else {
           if i < 87 {
            Table::row(1270310400, 36000, 0, "AEST")
           } else {
            Table::row(1286035200, 36000, 3600, "AEDT")
           }
          }
         }
        }
       }
      } else {
       if i < 97 {
        if i < 92 {
         if i < 90 {
          if i < 89 {
           Table::row(1301760000, 36000, 0, "AEST")
          } else {
           Table::row(1317484800, 36000, 3600, "AEDT")
          }
         } else {
          if i < 91 {
           Table::row(1333209600, 36000, 0, "AEST")
          } else {
           Table::row(1349539200, 36000, 3600, "AEDT")
          }
         }
        } else {
         if i < 94 {
          if i < 93 {
           Table::row(1365264000, 36000, 0, "AEST")
          } else {
           Table::row(1380988800, 36000, 3600, "AEDT")
          }
         } else {
          if i < 95 {
           Table::row(1396713600, 36000, 0, "AEST")
          } else {
           if i < 96 {
            Table::row(1412438400, 36000, 3600, "AEDT")
           } else {
            Table::row(1428163200, 36000, 0, "AEST")
           }
          }
         }
        }
       } else {
        if i < 101 {
         if i < 99 {
          if i < 98 {
           Table::row(1443888000, 36000, 3600, "AEDT")
          } else {
           Table::row(1459612800, 36000, 0, "AEST")
          }
         } else {
          if i < 100 {
           Table::row(1475337600, 36000, 3600, "AEDT")
          } else {
           Table::row(1491062400, 36000, 0, "AEST")
          }
         }
        } else {
         if i < 103 {
          if i < 102 {
           Table::row(1506787200, 36000, 3600, "AEDT")
          } else {
           Table::row(1522512000, 36000, 0, "AEST")
          }
         } else {
          if i < 104 {
           Table::row(1538841600, 36000, 3600, "AEDT")
          } else {
           if i < 105 {
            Table::row(1554566400, 36000, 0, "AEST")
           } else {
            Table::row(1570291200, 36000, 3600, "AEDT")
           }
          }
         }
        }
       }
      }
     } else {
      if i < 124 {
       if i < 115 {
        if i < 110 {
         if i < 108 {
          if i < 107 {
           Table::row(1586016000, 36000, 0, "AEST")
          } else {
           Table::row(1601740800, 36000, 3600, "AEDT")
          }
         } else {
          if i < 109 {
           Table::row(1617465600, 36000, 0, "AEST")
          } else {
           Table::row(1633190400, 36000, 3600, "AEDT")
          }
         }
        } else {
         if i < 112 {
          if i < 111 {
           Table::row(1648915200, 36000, 0, "AEST")
          } else {
           Table::row(1664640000, 36000, 3600, "AEDT")
          }
         } else {
          if i < 113 {
           Table::row(1680364800, 36000, 0, "AEST")
          } else {
           if i < 114 {
            Table::row(1696089600, 36000, 3600, "AEDT")
           } else {
            Table::row(1712419200, 36000, 0, "AEST")
           }
          }
         }
        }
       } else {
        if i < 119 {
         if i < 117 {
          if i < 116 {
           Table::row(1728144000, 36000, 3600, "AEDT")
          } else {
           Table::row(1743868800, 36000, 0, "AEST")
          }
         } else {
          if i < 118 {
           Table::row(1759593600, 36000, 3600, "AEDT")
          } else {
           Table::row(1775318400, 36000, 0, "AEST")
          }
         }
        } else {
         if i < 121 {
          if i < 120 {
           Table::row(1791043200, 36000, 3600, "AEDT")
          } else {
           Table::row(1806768000, 36000, 0, "AEST")
          }
         } else {
          if i < 122 {
           Table::row(1822492800, 36000, 3600, "AEDT")
          } else {
           if i < 123 {
            Table::row(1838217600, 36000, 0, "AEST")
           } else {
            Table::row(1853942400, 36000, 3600, "AEDT")
           }
          }
         }
        }
       }
      } else {
       if i < 133 {
        if i < 128 {
         if i < 126 {
          if i < 125 {
           Table::row(1869667200, 36000, 0, "AEST")
          } else {
           Table::row(1885996800, 36000, 3600, "AEDT")
          }
         } else {
          if i < 127 {
           Table::row(1901721600, 36000, 0, "AEST")
          } else {
           Table::row(1917446400, 36000, 3600, "AEDT")
          }
         }
        } else {
         if i < 130 {
          if i < 129 {
           Table::row(1933171200, 36000, 0, "AEST")
          } else {
           Table::row(1948896000, 36000, 3600, "AEDT")
          }
         } else {
          if i < 131 {
           Table::row(1964620800, 36000, 0, "AEST")
          } else {
           if i < 132 {
            Table::row(1980345600, 36000, 3600, "AEDT")
           } else {
            Table::row(1996070400, 36000, 0, "AEST")
           }
          }
         }
        }
       } else {
        if i < 137 {
         if i < 135 {
          if i < 134 {
           Table::row(2011795200, 36000, 3600, "AEDT")
          } else {
           Table::row(2027520000, 36000, 0, "AEST")
          }
         } else {
          if i < 136 {
           Table::row(2043244800, 36000, 3600, "AEDT")
          } else {
           Table::row(2058969600, 36000, 0, "AEST")
          }
         }
        } else {
         if i < 139 {
          if i < 138 {
           Table::row(2075299200, 36000, 3600, "AEDT")
          } else {
           Table::row(2091024000, 36000, 0, "AEST")
          }
         } else {
          if i < 140 {
           Table::row(2106748800, 36000, 3600, "AEDT")
          } else {
           if i < 141 {
            Table::row(2122473600, 36000, 0, "AEST")
           } else {
            Table::row(2138198400, 36000, 3600, "AEDT")
           }
          }
         }
        }
       }
      }
     }
    }
}

/// The rows of the table of the zone `Australia/Canberra`.
pub open spec fn canberra_rows() -> spec_fn(int) -> (i64, FixedTimespan) {
    |i: int| canberra_row(i)
}

/// The table of the zone `Australia/Canberra`.
pub open spec fn canberra() -> Table {
    Table::listed(Table::row(0, 36292, 0, "LMT").1, 142, canberra_rows())
}

/// Row `i` of the table of the zone `Australia/Currie`.
pub open spec fn currie_row(i: int) -> (i64, FixedTimespan) {
    if i < 77 {
     if i < 38 {
      if i < 19 {
       if i < 9 {
        if i < 4 {
         if i < 2 {
          if i < 1 {
           Table::row(-2345795356, 36000, 0, "AEST")
          } else {
           Table::row(-1680508800, 36000, 3600, "AEDT")
          }
         } else {
          if i < 3 {
           Table::row(-1665388800, 36000, 0, "AEST")
          } else {
           Table::row(-1646640000, 36000, 3600, "AEDT")
          }
         }
        } else {
         if i < 6 {
          if i < 5 {
           Table::row(-1635753600, 36000, 0, "AEST")
          } else {
           Table::row(-1615190400, 36000, 3600, "AEDT")
          }
         } else {
          if i < 7 {
           Table::row(-1604304000, 36000, 0, "AEST")
          } else {
           if i < 8 {
            Table::row(-883641600, 36000, 3600, "AEDT")
           } else {
            Table::row(-876124800, 36000, 0, "AEST")
           }
          }
         }
        }
       } else {
        if i < 14 {
         if i < 11 {
          if i < 10 {
           Table::row(-860400000, 36000, 3600, "AEDT")
          } else {
           Table::row(-844675200, 36000, 0, "AEST")
          }
         } else {
          if i < 12 {
           Table::row(-828345600, 36000, 3600, "AEDT")
          } else {
           if i < 13 {
            Table::row(-813225600, 36000, 0, "AEST")
           } else {
            Table::row(-71136000, 36000, 3600, "AEDT")
           }
          }
         }
        } else {
         if i < 16 {
          if i < 15 {
           Table::row(-55411200, 36000, 0, "AEST")
          } else {
           Table::row(-37267200, 36000, 3600, "AEDT")
          }
         } else {
          if i < 17 {
           Table::row(-25776000, 36000, 0, "AEST")
          } else {
           if i < 18 {
            Table::row(-5817600, 36000, 3600, "AEDT")
           } else {
            Table::row(5673600, 36000, 0, "AEST")
           }
          }
         }
        }
       }
      } else {
       if i < 28 {
        if i < 23 {
         if i < 21 {
          if i < 20 {
           Table::row(25632000, 36000, 3600, "AEDT")
          } else {
           Table::row(37728000, 36000, 0, "AEST")
          }
         } else {
          if i < 22 {
           Table::row(57686400, 36000, 3600, "AEDT")
          } else {
           Table::row(67968000, 36000, 0, "AEST")
          }
         }
        } else {
         if i < 25 {
          if i < 24 {
           Table::row(89136000, 36000, 3600, "AEDT")
          } else {
           Table::row(100022400, 36000, 0, "AEST")
          }
         } else {
          if i < 26 {
           Table::row(120585600, 36000, 3600, "AEDT")
          } else {
           if i < 27 {
            Table::row(131472000, 36000, 0, "AEST")
           } else {
            Table::row(152035200, 36000, 3600, "AEDT")
           }
          }
         }
        }
       } else {
        if i < 33 {
         if i < 30 {
          if i < 29 {
           Table::row(162921600, 36000, 0, "AEST")
          } else {
           Table::row(183484800, 36000, 3600, "AEDT")
          }
         } else {
          if i < 31 {
           Table::row(194976000, 36000, 0, "AEST")
          } else {
           if i < 32 {
            Table::row(215539200, 36000, 3600, "AEDT")
           } else {
            Table::row(226425600, 36000, 0, "AEST")
           }
          }
         }
        } else {
         if i < 35 {
          if i < 34 {
           Table::row(246988800, 36000, 3600, "AEDT")
          } else {
           Table::row(257875200, 36000, 0, "AEST")
          }
         } else {
          if i < 36 {
           Table::row(278438400, 36000, 3600, "AEDT")
          } else {
           if i < 37 {
            Table::row(289324800, 36000, 0, "AEST")
           } else {
            Table::row(309888000, 36000, 3600, "AEDT")
           }
          }
         }
        }
       }
      }
     } else {
      if i < 57 {
       if i < 47 {
        if i < 42 {
         if i < 40 {
          if i < 39 {
           Table::row(320774400, 36000, 0, "AEST")
          } else {
           Table::row(341337600, 36000, 3600, "AEDT")
          }
         } else {
          if i < 41 {
           Table::row(352224000, 36000, 0, "AEST")
          } else {
           Table::row(372787200, 36000, 3600, "AEDT")
          }
         }
        } else {
         if i < 44 {
          if i < 43 {
           Table::row(386092800, 36000, 0, "AEST")
          } else {
           Table::row(404841600, 36000, 3600, "AEDT")
          }
         } else {
          if i < 45 {
           Table::row(417542400, 36000, 0, "AEST")
          } else {
           if i < 46 {
            Table::row(436291200, 36000, 3600, "AEDT")
           } else {
            Table::row(447177600, 36000, 0, "AEST")
           }
          }
         }
        }
       } else {
        if i < 52 {
         if i < 49 {
          if i < 48 {
           Table::row(467740800, 36000, 3600, "AEDT")
          } else {
           Table::row(478627200, 36000, 0, "AEST")
          }
         } else {
          if i < 50 {
           Table::row(499190400, 36000, 3600, "AEDT")
          } else {
           if i < 51 {
            Table::row(510076800, 36000, 0, "AEST")
           } else {
            Table::row(530035200, 36000, 3600, "AEDT")
           }
          }
         }
        } else {
         if i < 54 {
          if i < 53 {
           Table::row(542736000, 36000, 0, "AEST")
          } else {
           Table::row(562089600, 36000, 3600, "AEDT")
          }
         } else {
          if i < 55 {
           Table::row(574790400, 36000, 0, "AEST")
          } else {
           if i < 56 {
            Table::row(594144000, 36000, 3600, "AEDT")
           } else {
            Table::row(606240000, 36000, 0, "AEST")
           }
          }
         }
        }
       }
      } else {
       if i < 67 {
        if i < 62 {
         if i < 59 {
          if i < 58 {
           Table::row(625593600, 36000, 3600, "AEDT")
          } else {
           Table::row(637689600, 36000, 0, "AEST")
          }
         } else {
          if i < 60 {
           Table::row(657043200, 36000, 3600, "AEDT")
          } else {
           if i < 61 {
            Table::row(670348800, 36000, 0, "AEST")
           } else {
            Table::row(686678400, 36000, 3600, "AEDT")
           }
          }
         }
        } else {
         if i < 64 {
          if i < 63 {
           Table::row(701798400, 36000, 0, "AEST")
          } else {
           Table::row(718128000, 36000, 3600, "AEDT")
          }
         } else {
          if i < 65 {
           Table::row(733248000, 36000, 0, "AEST")
          } else {
           if i < 66 {
            Table::row(749577600, 36000, 3600, "AEDT")
           } else {
            Table::row(764697600, 36000, 0, "AEST")
           }
          }
         }
        }
       } else {
        if i < 72 {
         if i < 69 {
          if i < 68 {
           Table::row(781027200, 36000, 3600, "AEDT")
          } else {
           Table::row(796147200, 36000, 0, "AEST")
          }
         } else {
          if i < 70 {
           Table::row(812476800, 36000, 3600, "AEDT")
          } else {
           if i < 71 {
            Table::row(828201600, 36000, 0, "AEST")
           } else {
            Table::row(844531200, 36000, 3600, "AEDT")
           }
          }
         }
        } else {
         if i < 74 {
          if i < 73 {
           Table::row(859651200, 36000, 0, "AEST")
          } else {
           Table::row(875980800, 36000, 3600, "AEDT")
          }
         } else {
          if i < 75 {
           Table::row(891100800, 36000, 0, "AEST")
          } else {
           if i < 76 {
            Table::row(907430400, 36000, 3600, "AEDT")
           } else {
            Table::row(922550400, 36000, 0, "AEST")
           }
          }
         }
        }
       }
      }
     }
    } else {
     if i < 115 {
      if i < 96 {
       if i < 86 {
        if i < 81 {
         if i < 79 {
          if i < 78 {
           Table::row(938880000, 36000, 3600, "AEDT")
          } else {
           Table::row(954000000, 36000, 0, "AEST")
          }
         } else {
          if i < 80 {
           Table::row(967305600, 36000, 3600, "AEDT")
          } else {
           Table::row(985449600, 36000, 0, "AEST")
          }
         }
        } else {
         if i < 83 {
          if i < 82 {
           Table::row(1002384000, 36000, 3600, "AEDT")
          } else {
           Table::row(1017504000, 36000, 0, "AEST")
          }
         } else {
          if i < 84 {
           Table::row(1033833600, 36000, 3600, "AEDT")
          } else {
           if i < 85 {
            Table::row(1048953600, 36000, 0, "AEST")
           } else {
            Table::row(1065283200, 36000, 3600, "AEDT")
           }
          }
         }
        }
       } else {
        if i < 91 {
         if i < 88 {
          if i < 87 {
           Table::row(1080403200, 36000, 0, "AEST")
          } else {
           Table::row(1096732800, 36000, 3600, "AEDT")
          }
         } else {
          if i < 89 {
           Table::row(1111852800, 36000, 0, "AEST")
          } else {
           if i < 90 {
            Table::row(1128182400, 36000, 3600, "AEDT")
           } else {
            Table::row(1143907200, 36000, 0, "AEST")
           }
          }
         }
        } else {
         if i < 93 {
          if i < 92 {
           Table::row(1159632000, 36000, 3600, "AEDT")
          } else {
           Table::row(1174752000, 36000, 0, "AEST")
          }
         } else {
          if i < 94 {
           Table::row(1191686400, 36000, 3600, "AEDT")
          } else {
           if i < 95 {
            Table::row(1207411200, 36000, 0, "AEST")
           } else {
            Table::row(1223136000, 36000, 3600, "AEDT")
           }
          }
         }
        }
       }
      } else {
       if i < 105 {
        if i < 100 {
         if i < 98 {
          if i < 97 {
           Table::row(1238860800, 36000, 0, "AEST")
          } else {
           Table::row(1254585600, 36000, 3600, "AEDT")
          }
         } else {
          if i < 99 {
           Table::row(1270310400, 36000, 0, "AEST")
          } else {
           Table::row(1286035200, 36000, 3600, "AEDT")
          }
         }
        } else {
         if i < 102 {
          if i < 101 {
           Table::row(1301760000, 36000, 0, "AEST")
          } else {
           Table::row(1317484800, 36000, 3600, "AEDT")
          }
         } else {
          if i < 103 {
           Table::row(1333209600, 36000, 0, "AEST")
          } else {
           if i < 104 {
            Table::row(1349539200, 36000, 3600, "AEDT")
           } else {
            Table::row(1365264000, 36000, 0, "AEST")
           }
          }
         }
        }
       } else {
        if i < 110 {
         if i < 107 {
          if i < 106 {
           Table::row(1380988800, 36000, 3600, "AEDT")
          } else {
           Table::row(1396713600, 36000, 0, "AEST")
          }
         } else {
          if i < 108 {
           Table::row(1412438400, 36000, 3600, "AEDT")
          } else {
           if i < 109 {
            Table::row(1428163200, 36000, 0, "AEST")
           } else {
            Table::row(1443888000, 36000, 3600, "AEDT")
           }
          }
         }
        } else {
         if i < 112 {
          if i < 111 {
           Table::row(1459612800, 36000, 0, "AEST")
          } else {
           Table::row(1475337600, 36000, 3600, "AEDT")
          }
         } else {
          if i < 113 {
           Table::row(1491062400, 36000, 0, "AEST")
          } else {
           if i < 114 {
            Table::row(1506787200, 36000, 3600, "AEDT")
           } else {
            Table::row(1522512000, 36000, 0, "AEST")
           }
          }
         }
        }
       }
      }
     } else {
      if i < 134 {
       if i < 124 {
        if i < 119 {
         if i < 117 {
          if i < 116 {
           Table::row(1538841600, 36000, 3600, "AEDT")
          } else {
           Table::row(1554566400, 36000, 0, "AEST")
          }
         } else {
          if i < 118 {
           Table::row(1570291200, 36000, 3600, "AEDT")
          } else {
           Table::row(1586016000, 36000, 0, "AEST")
          }
         }
        } else {
         if i < 121 {
          if i < 120 {
           Table::row(1601740800, 36000, 3600, "AEDT")
          } else {
           Table::row(1617465600, 36000, 0, "AEST")
          }
         } else {
          if i < 122 {
           Table::row(1633190400, 36000, 3600, "AEDT")
          } else {
           if i < 123 {
            Table::row(1648915200, 36000, 0, "AEST")
           } else {
            Table::row(1664640000, 36000, 3600, "AEDT")
           }
          }
         }
        }
       } else {
        if i < 129 {
         if i < 126 {
          if i < 125 {
           Table::row(1680364800, 36000, 0, "AEST")
          } else {
           Table::row(1696089600, 36000, 3600, "AEDT")
          }
         } else {
          if i < 127 {
           Table::row(1712419200, 36000, 0, "AEST")
          } else {
           if i < 128 {
            Table::row(1728144000, 36000, 3600, "AEDT")
           } else {
            Table::row(1743868800, 36000, 0, "AEST")
           }
          }
         }
        } else {
         if i < 131 {
          if i < 130 {
           Table::row(1759593600, 36000, 3600, "AEDT")
          } else {
           Table::row(1775318400, 36000, 0, "AEST")
          }
         } else {
          if i < 132 {
           Table::row(1791043200, 36000, 3600, "AEDT")
          } else {
           if i < 133 {
            Table::row(1806768000, 36000, 0, "AEST")
           } else {
            Table::row(1822492800, 36000, 3600, "AEDT")
           }
          }
         }
        }
       }
      } else {
       if i < 144 {
        if i < 139 {
         if i < 136 {
          if i < 135 {
           Table::row(1838217600, 36000, 0, "AEST")
          } else {
           Table::row(1853942400, 36000, 3600, "AEDT")
          }
         } else {
          if i < 137 {
           Table::row(1869667200, 36000, 0, "AEST")
          } else {
           if i < 138 {
            Table::row(1885996800, 36000, 3600, "AEDT")
           } else {
            Table::row(1901721600, 36000, 0, "AEST")
           }
          }
         }
        } else {
         if i < 141 {
          if i < 140 {
           Table::row(1917446400, 36000, 3600, "AEDT")
          } else {
           Table::row(1933171200, 36000, 0, "AEST")
          }
         } else {
          if i < 142 {
           Table::row(1948896000, 36000, 3600, "AEDT")
          } else {
           if i < 143 {
            Table::row(1964620800, 36000, 0, "AEST")
           } else {
            Table::row(1980345600, 36000, 3600, "AEDT")
           }
          }
         }
        }
       } else {
        if i < 149 {
         if i < 146 {
          if i < 145 {
           Table::row(1996070400, 36000, 0, "AEST")
          } else {
           Table::row(2011795200, 36000, 3600, "AEDT")
          }
         } else {
          if i < 147 {
           Table::row(2027520000, 36000, 0, "AEST")
          } else {
           if i < 148 {
            Table::row(2043244800, 36000, 3600, "AEDT")
           } else {
            Table::row(2058969600, 36000, 0, "AEST")
           }
          }
         }
        } else {
         if i < 151 {
          if i < 150 {
           Table::row(2075299200, 36000, 3600, "AEDT")
          } else {
           Table::row(2091024000, 36000, 0, "AEST")
          }
         } else {
          if i < 152 {
           Table::row(2106748800, 36000, 3600, "AEDT")
          } else {
           if i < 153 {
            Table::row(2122473600, 36000, 0, "AEST")
           } else {
            Table::row(2138198400, 36000, 3600, "AEDT")
           }
          }
         }
        }
       }
      }
     }
    }
}

/// The rows of the table of the zone `Australia/Currie`.
pub open spec fn currie_rows() -> spec_fn(int) -> (i64, FixedTimespan) {
    |i: int| currie_row(i)
}

/// The table of the zone `Australia/Currie`.
pub open spec fn currie() -> Table {
    Table::listed(Table::row(0, 35356, 0, "LMT").1, 154, currie_rows())
}

/// Row `i` of the table of the zone `Australia/Darwin`.
pub open spec fn darwin_row(i: int) -> (i64, FixedTimespan) {
    if i < 5 {
     if i < 2 {
      if i < 1 {
       Table::row(-2364108200, 32400, 0, "ACST")
      } else {
       Table::row(-2230189200, 34200, 0, "ACST")
      }
     } else {
      if i < 3 {
       Table::row(-1672558200, 34200, 3600, "ACDT")
      } else {
       if i < 4 {
        Table::row(-1665387000, 34200, 0, "ACST")
       } else {
        Table::row(-883639800, 34200, 3600, "ACDT")
       }
      }
     }
    } else {
     if i < 7 {
      if i < 6 {
       Table::row(-876123000, 34200, 0, "ACST")
      } else {
       Table::row(-860398200, 34200, 3600, "ACDT")
      }
     } else {
      if i < 8 {
       Table::row(-844673400, 34200, 0, "ACST")
      } else {
       if i < 9 {
        Table::row(-828343800, 34200, 3600, "ACDT")
       } else {
        Table::row(-813223800, 34200, 0, "ACST")
       }
      }
     }
    }
}

/// The rows of the table of the zone `Australia/Darwin`.
pub open spec fn darwin_rows() -> spec_fn(int) -> (i64, FixedTimespan) {
    |i: int| darwin_row(i)
}

/// The table of the zone `Australia/Darwin`.
pub open spec fn darwin() -> Table {
    Table::listed(Table::row(0, 31400, 0, "LMT").1, 10, darwin_rows())
}

/// Row `i` of the table of the zone `Australia/Eucla`.
pub open spec fn eucla_row(i: int) -> (i64, FixedTimespan) {
    if i < 10 {
     if i < 5 {
      if i < 2 {
       if i < 1 {
        Table::row(-2337928528, 31500, 0, "+0845")
       } else {
        Table::row(-1672555500, 31500, 3600, "+0945")
       }
      } else {
       if i < 3 {
        Table::row(-1665384300, 31500, 0, "+0845")
       } else {
        if i < 4 {
         Table::row(-883637100, 31500, 3600, "+0945")
        } else {
         Table::row(-876120300, 31500, 0, "+0845")
        }
       }
      }
     } else {
      if i < 7 {
       if i < 6 {
        Table::row(-860395500, 31500, 3600, "+0945")
       } else {
        Table::row(-844670700, 31500, 0, "+0845")
       }
      } else {
       if i < 8 {
        Table::row(152039700, 31500, 3600, "+0945")
       } else {
        if i < 9 {
         Table::row(162926100, 31500, 0, "+0845")
        } else {
         Table::row(436295700, 31500, 3600, "+0945")
        }
       }
      }
     }
    } else {
     if i < 15 {
      if i < 12 {
       if i < 11 {
        Table::row(447182100, 31500, 0, "+0845")
       } else {
        Table::row(690311700, 31500, 3600, "+0945")
       }
      } else {
       if i < 13 {
        Table::row(699383700, 31500, 0, "+0845")
       } else {
        if i < 14 {
         Table::row(1165079700, 31500, 3600, "+0945")
        } else {
         Table::row(1174756500, 31500, 0, "+0845")
        }
       }
      }
     } else {
      if i < 17 {
       if i < 16 {
        Table::row(1193505300, 31500, 3600, "+0945")
       } else {
        Table::row(1206810900, 31500, 0, "+0845")
       }
      } else {
       if i < 18 {
        Table::row(1224954900, 31500, 3600, "+0945")
       } else {
        if i < 19 {
         Table::row(1238260500, 31500, 0, "+0845")
        } else {
         Table::row(2147483647, 31500, 0, "+0845")
        }
       }
      }
     }
    }
}

/// The rows of the table of the zone `Australia/Eucla`.
pub open spec fn eucla_rows() -> spec_fn(int) -> (i64, FixedTimespan) {
    |i: int| eucla_row(i)
}

/// The table of the zone `Australia/Eucla`.
pub open spec fn eucla() -> Table {
    Table::listed(Table::row(0, 30928, 0, "LMT").1, 20, eucla_rows())
}

/// Row `i` of the table of the zone `Australia/Hobart`.
pub open spec fn hobart_row(i: int) -> (i64, FixedTimespan) {
    if i < 77 {
     if i < 38 {
      if i < 19 {
       if i < 9 {
        if i < 4 {
         if i < 2 {
          if i < 1 {
           Table::row(-2345795356, 36000, 0, "AEST")
          } else {
           Table::row(-1680508800, 36000, 3600, "AEDT")
          }
         } else {
          if i < 3 {
           Table::row(-1665388800, 36000, 0, "AEST")
          } else {
           Table::row(-1646640000, 36000, 3600, "AEDT")
          }
         }
        } else {
         if i < 6 {
          if i < 5 {
           Table::row(-1635753600, 36000, 0, "AEST")
          } else {
           Table::row(-1615190400, 36000, 3600, "AEDT")
          }
         } else {
          if i < 7 {
           Table::row(-1604304000, 36000, 0, "AEST")
          } else {
           if i < 8 {
            Table::row(-883641600, 36000, 3600, "AEDT")
           } else {
            Table::row(-876124800, 36000, 0, "AEST")
           }
          }
         }
        }
       } else {
        if i < 14 {
         if i < 11 {
          if i < 10 {
           Table::row(-860400000, 36000, 3600, "AEDT")
          } else {
           Table::row(-844675200, 36000, 0, "AEST")
          }
         } else {
          if i < 12 {
           Table::row(-828345600, 36000, 3600, "AEDT")
          } else {
           if i < 13 {
            Table::row(-813225600, 36000, 0, "AEST")
           } else {
            Table::row(-71136000, 36000, 3600, "AEDT")
           }
          }
         }
        } else {
         if i < 16 {
          if i < 15 {
           Table::row(-55411200, 36000, 0, "AEST")
          } else {
           Table::row(-37267200, 36000, 3600, "AEDT")
          }
         } else {
          if i < 17 {
           Table::row(-25776000, 36000, 0, "AEST")
          } else {
           if i < 18 {
            Table::row(-5817600, 36000, 3600, "AEDT")
           } else {
            Table::row(5673600, 36000, 0, "AEST")
           }
          }
         }
        }
       }
      } else {
       if i < 28 {
        if i < 23 {
         if i < 21 {
          if i < 20 {
           Table::row(25632000, 36000, 3600, "AEDT")
          } else {
           Table::row(37728000, 36000, 0, "AEST")
          }
         } else {
          if i < 22 {
           Table::row(57686400, 36000, 3600, "AEDT")
          } else {
           Table::row(67968000, 36000, 0, "AEST")
          }
         }
        } else {
         if i < 25 {
          if i < 24 {
           Table::row(89136000, 36000, 3600, "AEDT")
          } else {
           Table::row(100022400, 36000, 0, "AEST")
          }
         } else {
          if i < 26 {
           Table::row(120585600, 36000, 3600, "AEDT")
          } else {
           if i < 27 {
            Table::row(131472000, 36000, 0, "AEST")
           } else {
            Table::row(152035200, 36000, 3600, "AEDT")
           }
          }
         }
        }
       } else {
        if i < 33 {
         if i < 30 {
          if i < 29 {
           Table::row(162921600, 36000, 0, "AEST")
          } else {
           Table::row(183484800, 36000, 3600, "AEDT")
          }
         } else {
          if i < 31 {
           Table::row(194976000, 36000, 0, "AEST")
          } else {
           if i < 32 {
            Table::row(215539200, 36000, 3600, "AEDT")
           } else {
            Table::row(226425600, 36000, 0, "AEST")
           }
          }
         }
        } else {
         if i < 35 {
          if i < 34 {
           Table::row(246988800, 36000, 3600, "AEDT")
          } else {
           Table::row(257875200, 36000, 0, "AEST")
          }
         } else {
          if i < 36 {
           Table::row(278438400, 36000, 3600, "AEDT")
          } else {
           if i < 37 {
            Table::row(289324800, 36000, 0, "AEST")
           } else {
            Table::row(309888000, 36000, 3600, "AEDT")
           }
          }
         }
        }
       }
      }
     } else {
      if i < 57 {
       if i < 47 {
        if i < 42 {
         if i < 40 {
          if i < 39 {
           Table::row(320774400, 36000, 0, "AEST")
          } else {
           Table::row(341337600, 36000, 3600, "AEDT")
          }
         } else {
          if i < 41 {
           Table::row(352224000, 36000, 0, "AEST")
          } else {
           Table::row(372787200, 36000, 3600, "AEDT")
          }
         }
        } else {
         if i < 44 {
          if i < 43 {
           Table::row(386092800, 36000, 0, "AEST")
          } else {
           Table::row(404841600, 36000, 3600, "AEDT")
          }
         } else {
          if i < 45 {
           Table::row(417542400, 36000, 0, "AEST")
          } else {
           if i < 46 {
            Table::row(436291200, 36000, 3600, "AEDT")
           } else {
            Table::row(447177600, 36000, 0, "AEST")
           }
          }
         }
        }
       } else {
        if i < 52 {
         if i < 49 {
          if i < 48 {
           Table::row(467740800, 36000, 3600, "AEDT")
          } else {
           Table::row(478627200, 36000, 0, "AEST")
          }
         } else {
          if i < 50 {
           Table::row(499190400, 36000, 3600, "AEDT")
          } else {
           if i < 51 {
            Table::row(510076800, 36000, 0, "AEST")
           } else {
            Table::row(530035200, 36000, 3600, "AEDT")
           }
          }
         }
        } else {
         if i < 54 {
          if i < 53 {
           Table::row(542736000, 36000, 0, "AEST")
          } else {
           Table::row(562089600, 36000, 3600, "AEDT")
          }
         } else {
          if i < 55 {
           Table::row(574790400, 36000, 0, "AEST")
          } else {
           if i < 56 {
            Table::row(594144000, 36000, 3600, "AEDT")
           } else {
            Table::row(606240000, 36000, 0, "AEST")
           }
          }
         }
        }
       }
      } else {
       if i < 67 {
        if i < 62 {
         if i < 59 {
          if i < 58 {
           Table::row(625593600, 36000, 3600, "AEDT")
          } else {
           Table::row(637689600, 36000, 0, "AEST")
          }
         } else {
          if i < 60 {
           Table::row(657043200, 36000, 3600, "AEDT")
          } else {
           if i < 61 {
            Table::row(670348800, 36000, 0, "AEST")
           } else {
            Table::row(686678400, 36000, 3600, "AEDT")
           }
          }
         }
        } else {
         if i < 64 {
          if i < 63 {
           Table::row(701798400, 36000, 0, "AEST")
          } else {
           Table::row(718128000, 36000, 3600, "AEDT")
          }
         } else {
          if i < 65 {
           Table::row(733248000, 36000, 0, "AEST")
          } else {
           if i < 66 {
            Table::row(749577600, 36000, 3600, "AEDT")
           } else {
            Table::row(764697600, 36000, 0, "AEST")
           }
          }
         }
        }
       } else {
        if i < 72 {
         if i < 69 {
          if i < 68 {
           Table::row(781027200, 36000, 3600, "AEDT")
          } else {
           Table::row(796147200, 36000, 0, "AEST")
          }
         } else {
          if i < 70 {
           Table::row(812476800, 36000, 3600, "AEDT")
          } else {
           if i < 71 {
            Table::row(828201600, 36000, 0, "AEST")
           } else {
            Table::row(844531200, 36000, 3600, "AEDT")
           }
          }
         }
        } else {
         if i < 74 {
          if i < 73 {
           Table::row(859651200, 36000, 0, "AEST")
          } else {
           Table::row(875980800, 36000, 3600, "AEDT")
          }
         } else {
          if i < 75 {
           Table::row(891100800, 36000, 0, "AEST")
          } else {
           if i < 76 {
            Table::row(907430400, 36000, 3600, "AEDT")
           } else {
            Table::row(922550400, 36000, 0, "AEST")
           }
          }
         }
        }
       }
      }
     }
    } else {
     if i < 115 {
      if i < 96 {
       if i < 86 {
        if i < 81 {
         if i < 79 {
          if i < 78 {
           Table::row(938880000, 36000, 3600, "AEDT")
          } else {
           Table::row(954000000, 36000, 0, "AEST")
          }
         } else {
          if i < 80 {
           Table::row(967305600, 36000, 3600, "AEDT")
          } else {
           Table::row(985449600, 36000, 0, "AEST")
          }
         }
        } else {
         if i < 83 {
          if i < 82 {
           Table::row(1002384000, 36000, 3600, "AEDT")
          } else {
           Table::row(1017504000, 36000, 0, "AEST")
          }
         } else {
          if i < 84 {
           Table::row(1033833600, 36000, 3600, "AEDT")
          } else {
           if i < 85 {
            Table::row(1048953600, 36000, 0, "AEST")
           } else {
            Table::row(1065283200, 36000, 3600, "AEDT")
           }
          }
         }
        }
       } else {
        if i < 91 {
         if i < 88 {
          if i < 87 {
           Table::row(1080403200, 36000, 0, "AEST")
          } else {
           Table::row(1096732800, 36000, 3600, "AEDT")
          }
         } else {
          if i < 89 {
           Table::row(1111852800, 36000, 0, "AEST")
          } else {
           if i < 90 {
            Table::row(1128182400, 36000, 3600, "AEDT")
           } else {
            Table::row(1143907200, 36000, 0, "AEST")
           }
          }
         }
        } else {
         if i < 93 {
          if i < 92 {
           Table::row(1159632000, 36000, 3600, "AEDT")
          } else {
           Table::row(1174752000, 36000, 0, "AEST")
          }
         } else {
          if i < 94 {
           Table::row(1191686400, 36000, 3600, "AEDT")
          } else {
           if i < 95 {
            Table::row(1207411200, 36000, 0, "AEST")
           } else {
            Table::row(1223136000, 36000, 3600, "AEDT")
           }
          }
         }
        }
       }
      } else {
       if i < 105 {
        if i < 100 {
         if i < 98 {
          if i < 97 {
           Table::row(1238860800, 36000, 0, "AEST")
          } else {
           Table::row(1254585600, 36000, 3600, "AEDT")
          }
         } else {
          if i < 99 {
           Table::row(1270310400, 36000, 0, "AEST")
          } else {
           Table::row(1286035200, 36000, 3600, "AEDT")
          }
         }
        } else {
         if i < 102 {
          if i < 101 {
           Table::row(1301760000, 36000, 0, "AEST")
          } else {
           Table::row(1317484800, 36000, 3600, "AEDT")
          }
         } else {
          if i < 103 {
           Table::row(1333209600, 36000, 0, "AEST")
          } else {
           if i < 104 {
            Table::row(1349539200, 36000, 3600, "AEDT")
           } else {
            Table::row(1365264000, 36000, 0, "AEST")
           }
          }
         }
        }
       } else {
        if i < 110 {
         if i < 107 {
          if i < 106 {
           Table::row(1380988800, 36000, 3600, "AEDT")
          } else {
           Table::row(1396713600, 36000, 0, "AEST")
          }
         } else {
          if i < 108 {
           Table::row(1412438400, 36000, 3600, "AEDT")
          } else {
           if i < 109 {
            Table::row(1428163200, 36000, 0, "AEST")
           } else {
            Table::row(1443888000, 36000, 3600, "AEDT")
           }
          }
         }
        } else {
         if i < 112 {
          if i < 111 {
           Table::row(1459612800, 36000, 0, "AEST")
          } else {
           Table::row(1475337600, 36000, 3600, "AEDT")
          }
         } else {
          if i < 113 {
           Table::row(1491062400, 36000, 0, "AEST")
          } else {
           if i < 114 {
            Table::row(1506787200, 36000, 3600, "AEDT")
           } else {
            Table::row(1522512000, 36000, 0, "AEST")
           }
          }
         }
        }
       }
      }
     } else {
      if i < 134 {
       if i < 124 {
        if i < 119 {
         if i < 117 {
          if i < 116 {
           Table::row(1538841600, 36000, 3600, "AEDT")
          } else {
           Table::row(1554566400, 36000, 0, "AEST")
          }
         } else {
          if i < 118 {
           Table::row(1570291200, 36000, 3600, "AEDT")
          } else {
           Table::row(1586016000, 36000, 0, "AEST")
          }
         }
        } else {
         if i < 121 {
          if i < 120 {
           Table::row(1601740800, 36000, 3600, "AEDT")
          } else {
           Table::row(1617465600, 36000, 0, "AEST")
          }
         } else {
          if i < 122 {
           Table::row(1633190400, 36000, 3600, "AEDT")
          } else {
           if i < 123 {
            Table::row(1648915200, 36000, 0, "AEST")
           } else {
            Table::row(1664640000, 36000, 3600, "AEDT")
           }
          }
         }
        }
       } else {
        if i < 129 {
         if i < 126 {
          if i < 125 {
           Table::row(1680364800, 36000, 0, "AEST")
          } else {
           Table::row(1696089600, 36000, 3600, "AEDT")
          }
         } else {
          if i < 127 {
           Table::row(1712419200, 36000, 0, "AEST")
          } else {
           if i < 128 {
            Table::row(1728144000, 36000, 3600, "AEDT")
           } else {
            Table::row(1743868800, 36000, 0, "AEST")
           }
          }
         }
        } else {
         if i < 131 {
          if i < 130 {
           Table::row(1759593600, 36000, 3600, "AEDT")
          } else {
           Table::row(1775318400, 36000, 0, "AEST")
          }
         } else {
          if i < 132 {
           Table::row(1791043200, 36000, 3600, "AEDT")
          } else {
           if i < 133 {
            Table::row(1806768000, 36000, 0, "AEST")
           } else {
            Table::row(1822492800, 36000, 3600, "AEDT")
           }
          }
         }
        }
       }
      } else {
       if i < 144 {
        if i < 139 {
         if i < 136 {
          if i < 135 {
           Table::row(1838217600, 36000, 0, "AEST")
          } else {
           Table::row(1853942400, 36000, 3600, "AEDT")
          }
         } else {
          if i < 137 {
           Table::row(1869667200, 36000, 0, "AEST")
          } else {
           if i < 138 {
            Table::row(1885996800, 36000, 3600, "AEDT")
           } else {
            Table::row(1901721600, 36000, 0, "AEST")
           }
          }
         }
        } else {
         if i < 141 {
          if i < 140 {
           Table::row(1917446400, 36000, 3600, "AEDT")
          } else {
           Table::row(1933171200, 36000, 0, "AEST")
          }
         } else {
          if i < 142 {
           Table::row(1948896000, 36000, 3600, "AEDT")
          } else {
           if i < 143 {
            Table::row(1964620800, 36000, 0, "AEST")
           } else {
            Table::row(1980345600, 36000, 3600, "AEDT")
           }
          }
         }
        }
       } else {
        if i < 149 {
         if i < 146 {
          if i < 145 {
           Table::row(1996070400, 36000, 0, "AEST")
          } else {
           Table::row(2011795200, 36000, 3600, "AEDT")
          }
         } else {
          if i < 147 {
           Table::row(2027520000, 36000, 0, "AEST")
          } else {
           if i < 148 {
            Table::row(2043244800, 36000, 3600, "AEDT")
           } else {
            Table::row(2058969600, 36000, 0, "AEST")
           }
          }
         }
        } else {
         if i < 151 {
          if i < 150 {
           Table::row(2075299200, 36000, 3600, "AEDT")
          } else {
           Table::row(2091024000, 36000, 0, "AEST")
          }
         } else {
          if i < 152 {
           Table::row(2106748800, 36000, 3600, "AEDT")
          } else {
           if i < 153 {
            Table::row(2122473600, 36000, 0, "AEST")
           } else {
            Table::row(2138198400, 36000, 3600, "AEDT")
           }
          }
         }
        }
       }
      }
     }
    }
}

/// The rows of the table of the zone `Australia/Hobart`.
pub open spec fn hobart_rows() -> spec_fn(int) -> (i64, FixedTimespan) {
    |i: int| hobart_row(i)
}

/// The table of the zone `Australia/Hobart`.
pub open spec fn hobart() -> Table {
    Table::listed(Table::row(0, 35356, 0, "LMT").1, 154, hobart_rows())
}

/// Row `i` of the table of the zone `Australia/LHI`.
pub open spec fn lhi_row(i: int) -> (i64, FixedTimespan) {
    if i < 58 {
     if i < 29 {
      if i < 14 {
       if i < 7 {
        if i < 3 {
         if i < 1 {
          Table::row(-2364114980, 36000, 0, "AEST")
         } else {
          if i < 2 {
           Table::row(352216800, 37800, 0, "+1030")
          } else {
           Table::row(372785400, 37800, 3600, "+1130")
          }
         }
        } else {
         if i < 5 {
          if i < 4 {
           Table::row(384273000, 37800, 0, "+1030")
          } else {
           Table::row(404839800, 37800, 3600, "+1130")
          }
         } else {
          if i < 6 {
           Table::row(415722600, 37800, 0, "+1030")
          } else {
           Table::row(436289400, 37800, 3600, "+1130")
          }
         }
        }
       } else {
        if i < 10 {
         if i < 8 {
          Table::row(447172200, 37800, 0, "+1030")
         } else {
          if i < 9 {
           Table::row(467739000, 37800, 3600, "+1130")
          } else {
           Table::row(478621800, 37800, 0, "+1030")
          }
         }
        } else {
         if i < 12 {
          if i < 11 {
           Table::row(499188600, 37800, 1800, "+11")
          } else {
           Table::row(511282800, 37800, 0, "+1030")
          }
         } else {
          if i < 13 {
           Table::row(530033400, 37800, 1800, "+11")
          } else {
           Table::row(542732400, 37800, 0, "+1030")
          }
         }
        }
       }
      } else {
       if i < 21 {
        if i < 17 {
         if i < 15 {
          Table::row(562087800, 37800, 1800, "+11")
         } else {
          if i < 16 {
           Table::row(574786800, 37800, 0, "+1030")
          } else {
           Table::row(594142200, 37800, 1800, "+11")
          }
         }
        } else {
         if i < 19 {
          if i < 18 {
           Table::row(606236400, 37800, 0, "+1030")
          } else {
           Table::row(625591800, 37800, 1800, "+11")
          }
         } else {
          if i < 20 {
           Table::row(636476400, 37800, 0, "+1030")
          } else {
           Table::row(657041400, 37800, 1800, "+11")
          }
         }
        }
       } else {
        if i < 25 {
         if i < 23 {
          if i < 22 {
           Table::row(667926000, 37800, 0, "+1030")
          } else {
           Table::row(688491000, 37800, 1800, "+11")
          }
         } else {
          if i < 24 {
           Table::row(699375600, 37800, 0, "+1030")
          } else {
           Table::row(719940600, 37800, 1800, "+11")
          }
         }
        } else {
         if i < 27 {
          if i < 26 {
           Table::row(731430000, 37800, 0, "+1030")
          } else {
           Table::row(751995000, 37800, 1800, "+11")
          }
         } else {
          if i < 28 {
           Table::row(762879600, 37800, 0, "+1030")
          } else {
           Table::row(783444600, 37800, 1800, "+11")
          }
         }
        }
       }
      }
     } else {
      if i < 43 {
       if i < 36 {
        if i < 32 {
         if i < 30 {
          Table::row(794329200, 37800, 0, "+1030")
         } else {
          if i < 31 {
           Table::row(814894200, 37800, 1800, "+11")
          } else {
           Table::row(828198000, 37800, 0, "+1030")
          }
         }
        } else {
         if i < 34 {
          if i < 33 {
           Table::row(846343800, 37800, 1800, "+11")
          } else {
           Table::row(859647600, 37800, 0, "+1030")
          }
         } else {
          if i < 35 {
           Table::row(877793400, 37800, 1800, "+11")
          } else {
           Table::row(891097200, 37800, 0, "+1030")
          }
         }
        }
       } else {
        if i < 39 {
         if i < 37 {
          Table::row(909243000, 37800, 1800, "+11")
         } else {
          if i < 38 {
           Table::row(922546800, 37800, 0, "+1030")
          } else {
           Table::row(941297400, 37800, 1800, "+11")
          }
         }
        } else {
         if i < 41 {
          if i < 40 {
           Table::row(953996400, 37800, 0, "+1030")
          } else {
           Table::row(967303800, 37800, 1800, "+11")
          }
         } else {
          if i < 42 {
           Table::row(985446000, 37800, 0, "+1030")
          } else {
           Table::row(1004196600, 37800, 1800, "+11")
          }
         }
        }
       }
      } else {
       if i < 50 {
        if i < 46 {
         if i < 44 {
          Table::row(1017500400, 37800, 0, "+1030")
         } else {
          if i < 45 {
           Table::row(1035646200, 37800, 1800, "+11")
          } else {
           Table::row(1048950000, 37800, 0, "+1030")
          }
         }
        } else {
         if i < 48 {
          if i < 47 {
           Table::row(1067095800, 37800, 1800, "+11")
          } else {
           Table::row(1080399600, 37800, 0, "+1030")
          }
         } else {
          if i < 49 {
           Table::row(1099150200, 37800, 1800, "+11")
          } else {
           Table::row(1111849200, 37800, 0, "+1030")
          }
         }
        }
       } else {
        if i < 54 {
         if i < 52 {
          if i < 51 {
           Table::row(1130599800, 37800, 1800, "+11")
          } else {
           Table::row(1143903600, 37800, 0, "+1030")
          }
         } else {
          if i < 53 {
           Table::row(1162049400, 37800, 1800, "+11")
          } else {
           Table::row(1174748400, 37800, 0, "+1030")
          }
         }
        } else {
         if i < 56 {
          if i < 55 {
           Table::row(1193499000, 37800, 1800, "+11")
          } else {
           Table::row(1207407600, 37800, 0, "+1030")
          }
         } else {
          if i < 57 {
           Table::row(1223134200, 37800, 1800, "+11")
          } else {
           Table::row(1238857200, 37800, 0, "+1030")
          }
         }
        }
       }
      }
     }
    } else {
     if i < 87 {
      if i < 72 {
       if i < 65 {
        if i < 61 {
         if i < 59 {
          Table::row(1254583800, 37800, 1800, "+11")
         } else {
          if i < 60 {
           Table::row(1270306800, 37800, 0, "+1030")
          } else {
           Table::row(1286033400, 37800, 1800, "+11")
          }
         }
        } else {
         if i < 63 {
          if i < 62 {
           Table::row(1301756400, 37800, 0, "+1030")
          } else {
           Table::row(1317483000, 37800, 1800, "+11")
          }
         } else {
          if i < 64 {
           Table::row(1333206000, 37800, 0, "+1030")
          } else {
           Table::row(1349537400, 37800, 1800, "+11")
          }
         }
        }
       } else {
        if i < 68 {
         if i < 66 {
          Table::row(1365260400, 37800, 0, "+1030")
         } else {
          if i < 67 {
           Table::row(1380987000, 37800, 1800, "+11")
          } else {
           Table::row(1396710000, 37800, 0, "+1030")
          }
         }
        } else {
         if i < 70 {
          if i < 69 {
           Table::row(1412436600, 37800, 1800, "+11")
          } else {
           Table::row(1428159600, 37800, 0, "+1030")
          }
         } else {
          if i < 71 {
           Table::row(1443886200, 37800, 1800, "+11")
          } else {
           Table::row(1459609200, 37800, 0, "+1030")
          }
         }
        }
       }
      } else {
       if i < 79 {
        if i < 75 {
         if i < 73 {
          Table::row(1475335800, 37800, 1800, "+11")
         } else {
          if i < 74 {
           Table::row(1491058800, 37800, 0, "+1030")
          } else {
           Table::row(1506785400, 37800, 1800, "+11")
          }
         }
        } else {
         if i < 77 {
          if i < 76 {
           Table::row(1522508400, 37800, 0, "+1030")
          } else {
           Table::row(1538839800, 37800, 1800, "+11")
          }
         } else {
          if i < 78 {
           Table::row(1554562800, 37800, 0, "+1030")
          } else {
           Table::row(1570289400, 37800, 1800, "+11")
          }
         }
        }
       } else {
        if i < 83 {
         if i < 81 {
          if i < 80 {
           Table::row(1586012400, 37800, 0, "+1030")
          } else {
           Table::row(1601739000, 37800, 1800, "+11")
          }
         } else {
          if i < 82 {
           Table::row(1617462000, 37800, 0, "+1030")
          } else {
           Table::row(1633188600, 37800, 1800, "+11")
          }
         }
        } else {
         if i < 85 {
          if i < 84 {
           Table::row(1648911600, 37800, 0, "+1030")
          } else {
           Table::row(1664638200, 37800, 1800, "+11")
          }
         } else {
          if i < 86 {
           Table::row(1680361200, 37800, 0, "+1030")
          } else {
           Table::row(1696087800, 37800, 1800, "+11")
          }
         }
        }
       }
      }
     } else {
      if i < 101 {
       if i < 94 {
        if i < 90 {
         if i < 88 {
          Table::row(1712415600, 37800, 0, "+1030")
         } else {
          if i < 89 {
           Table::row(1728142200, 37800, 1800, "+11")
          } else {
           Table::row(1743865200, 37800, 0, "+1030")
          }
         }
        } else {
         if i < 92 {
          if i < 91 {
           Table::row(1759591800, 37800, 1800, "+11")
          } else {
           Table::row(1775314800, 37800, 0, "+1030")
          }
         } else {
          if i < 93 {
           Table::row(1791041400, 37800, 1800, "+11")
          } else {
           Table::row(1806764400, 37800, 0, "+1030")
          }
         }
        }
       } else {
        if i < 97 {
         if i < 95 {
          Table::row(1822491000, 37800, 1800, "+11")
         } else {
          if i < 96 {
           Table::row(1838214000, 37800, 0, "+1030")
          } else {
           Table::row(1853940600, 37800, 1800, "+11")
          }
         }
        } else {
         if i < 99 {
          if i < 98 {
           Table::row(1869663600, 37800, 0, "+1030")
          } else {
           Table::row(1885995000, 37800, 1800, "+11")
          }
         } else {
          if i < 100 {
           Table::row(1901718000, 37800, 0, "+1030")
          } else {
           Table::row(1917444600, 37800, 1800, "+11")
          }
         }
        }
       }
      } else {
       if i < 108 {
        if i < 104 {
         if i < 102 {
          Table::row(1933167600, 37800, 0, "+1030")
         } else {
          if i < 103 {
           Table::row(1948894200, 37800, 1800, "+11")
          } else {
           Table::row(1964617200, 37800, 0, "+1030")
          }
         }
        } else {
         if i < 106 {
          if i < 105 {
           Table::row(1980343800, 37800, 1800, "+11")
          } else {
           Table::row(1996066800, 37800, 0, "+1030")
          }
         } else {
          if i < 107 {
           Table::row(2011793400, 37800, 1800, "+11")
          } else {
           Table::row(2027516400, 37800, 0, "+1030")
          }
         }
        }
       } else {
        if i < 112 {
         if i < 110 {
          if i < 109 {
           Table::row(2043243000, 37800, 1800, "+11")
          } else {
           Table::row(2058966000, 37800, 0, "+1030")
          }
         } else {
          if i < 111 {
           Table::row(2075297400, 37800, 1800, "+11")
          } else {
           Table::row(2091020400, 37800, 0, "+1030")
          }
         }
        } else {
         if i < 114 {
          if i < 113 {
           Table::row(2106747000, 37800, 1800, "+11")
          } else {
           Table::row(2122470000, 37800, 0, "+1030")
          }
         } else {
          if i < 115 {
           Table::row(2138196600, 37800, 1800, "+11")
          } else {
           Table::row(2147483647, 37800, 1800, "+11")
          }
         }
        }
       }
      }
     }
    }
}

/// The rows of the table of the zone `Australia/LHI`.
pub open spec fn lhi_rows() -> spec_fn(int) -> (i64, FixedTimespan) {
    |i: int| lhi_row(i)
}

/// The table of the zone `Australia/LHI`.
pub open spec fn lhi() -> Table {
    Table::listed(Table::row(0, 38180, 0, "LMT").1, 116, lhi_rows())
}

/// Row `i` of the table of the zone `Australia/Lindeman`.
pub open spec fn lindeman_row(i: int) -> (i64, FixedTimespan) {
    if i < 10 {
     if i < 5 {
      if i < 2 {
       if i < 1 {
        Table::row(-2366790956, 36000, 0, "AEST")
       } else {
        Table::row(-1672560000, 36000, 3600, "AEDT")
       }
      } else {
       if i < 3 {
        Table::row(-1665388800, 36000, 0, "AEST")
       } else {
        if i < 4 {
         Table::row(-883641600, 36000, 3600, "AEDT")
        } else {
         Table::row(-876124800, 36000, 0, "AEST")
        }
       }
      }
     } else {
      if i < 7 {
       if i < 6 {
        Table::row(-860400000, 36000, 3600, "AEDT")
       } else {
        Table::row(-844675200, 36000, 0, "AEST")
       }
      } else {
       if i < 8 {
        Table::row(-828345600, 36000, 3600, "AEDT")
       } else {
        if i < 9 {
         Table::row(-813225600, 36000, 0, "AEST")
        } else {
         Table::row(57686400, 36000, 3600, "AEDT")
        }
       }
      }
     }
    } else {
     if i < 15 {
      if i < 12 {
       if i < 11 {
        Table::row(67968000, 36000, 0, "AEST")
       } else {
        Table::row(625593600, 36000, 3600, "AEDT")
       }
      } else {
       if i < 13 {
        Table::row(636480000, 36000, 0, "AEST")
       } else {
        if i < 14 {
         Table::row(657043200, 36000, 3600, "AEDT")
        } else {
         Table::row(667929600, 36000, 0, "AEST")
        }
       }
      }
     } else {
      if i < 18 {
       if i < 16 {
        Table::row(688492800, 36000, 3600, "AEDT")
       } else {
        if i < 17 {
         Table::row(699379200, 36000, 0, "AEST")
        } else {
         Table::row(719942400, 36000, 3600, "AEDT")
        }
       }
      } else {
       if i < 19 {
        Table::row(731433600, 36000, 0, "AEST")
       } else {
        if i < 20 {
         Table::row(751996800, 36000, 3600, "AEDT")
        } else {
         Table::row(762883200, 36000, 0, "AEST")
        }
       }
      }
     }
    }
}

/// The rows of the table of the zone `Australia/Lindeman`.
pub open spec fn lindeman_rows() -> spec_fn(int) -> (i64, FixedTimespan) {
    |i: int| lindeman_row(i)
}

/// The table of the zone `Australia/Lindeman`.
pub open spec fn lindeman() -> Table {
    Table::listed(Table::row(0, 35756, 0, "LMT").1, 21, lindeman_rows())
}

/// Row `i` of the table of the zone `Australia/Lord_Howe`.
pub open spec fn lord_howe_row(i: int) -> (i64, FixedTimespan) {
    if i < 58 {
     if i < 29 {
      if i < 14 {
       if i < 7 {
        if i < 3 {
         if i < 1 {
          Table::row(-2364114980, 36000, 0, "AEST")
         } else {
          if i < 2 {
           Table::row(352216800, 37800, 0, "+1030")
          } else {
           Table::row(372785400, 37800, 3600, "+1130")
          }
         }
        } else {
         if i < 5 {
          if i < 4 {
           Table::row(384273000, 37800, 0, "+1030")
          } else {
           Table::row(404839800, 37800, 3600, "+1130")
          }
         } else {
          if i < 6 {
           Table::row(415722600, 37800, 0, "+1030")
          } else {
           Table::row(436289400, 37800, 3600, "+1130")
          }
         }
        }
       } else {
        if i < 10 {
         if i < 8 {
          Table::row(447172200, 37800, 0, "+1030")
         } else {
          if i < 9 {
           Table::row(467739000, 37800, 3600, "+1130")
          } else {
           Table::row(478621800, 37800, 0, "+1030")
          }
         }
        } else {
         if i < 12 {
          if i < 11 {
           Table::row(499188600, 37800, 1800, "+11")
          } else {
           Table::row(511282800, 37800, 0, "+1030")
          }
         } else {
          if i < 13 {
           Table::row(530033400, 37800, 1800, "+11")
          } else {
           Table::row(542732400, 37800, 0, "+1030")
          }
         }
        }
       }
      } else {
       if i < 21 {
        if i < 17 {
         if i < 15 {
          Table::row(562087800, 37800, 1800, "+11")
         } else {
          if i < 16 {
           Table::row(574786800, 37800, 0, "+1030")
          } else {
           Table::row(594142200, 37800, 1800, "+11")
          }
         }
        } else {
         if i < 19 {
          if i < 18 {
           Table::row(606236400, 37800, 0, "+1030")
          } else {
           Table::row(625591800, 37800, 1800, "+11")
          }
         } else {
          if i < 20 {
           Table::row(636476400, 37800, 0, "+1030")
          } else {
           Table::row(657041400, 37800, 1800, "+11")
          }
         }
        }
       } else {
        if i < 25 {
         if i < 23 {
          if i < 22 {
           Table::row(667926000, 37800, 0, "+1030")
          } else {
           Table::row(688491000, 37800, 1800, "+11")
          }
         } else {
          if i < 24 {
           Table::row(699375600, 37800, 0, "+1030")
          } else {
           Table::row(719940600, 37800, 1800, "+11")
          }
         }
        } else {
         if i < 27 {
          if i < 26 {
           Table::row(731430000, 37800, 0, "+1030")
          } else {
           Table::row(751995000, 37800, 1800, "+11")
          }
         } else {
          if i < 28 {
           Table::row(762879600, 37800, 0, "+1030")
          } else {
           Table::row(783444600, 37800, 1800, "+11")
          }
         }
        }
       }
      }
     } else {
      if i < 43 {
       if i < 36 {
        if i < 32 {
         if i < 30 {
          Table::row(794329200, 37800, 0, "+1030")
         } else {
          if i < 31 {
           Table::row(814894200, 37800, 1800, "+11")
          } else {
           Table::row(828198000, 37800, 0, "+1030")
          }
         }
        } else {
         if i < 34 {
          if i < 33 {
           Table::row(846343800, 37800, 1800, "+11")
          } else {
           Table::row(859647600, 37800, 0, "+1030")
          }
         } else {
          if i < 35 {
           Table::row(877793400, 37800, 1800, "+11")
          } else {
           Table::row(891097200, 37800, 0, "+1030")
          }
         }
        }
       } else {
        if i < 39 {
         if i < 37 {
          Table::row(909243000, 37800, 1800, "+11")
         } else {
          if i < 38 {
           Table::row(922546800, 37800, 0, "+1030")
          } else {
           Table::row(941297400, 37800, 1800, "+11")
          }
         }
        } else {
         if i < 41 {
          if i < 40 {
           Table::row(953996400, 37800, 0, "+1030")
          } else {
           Table::row(967303800, 37800, 1800, "+11")
          }
         } else {
          if i < 42 {
           Table::row(985446000, 37800, 0, "+1030")
          } else {
           Table::row(1004196600, 37800, 1800, "+11")
          }
         }
        }
       }
      } else {
       if i < 50 {
        if i < 46 {
         if i < 44 {
          Table::row(1017500400, 37800, 0, "+1030")
         } else {
          if i < 45 {
           Table::row(1035646200, 37800, 1800, "+11")
          } else {
           Table::row(1048950000, 37800, 0, "+1030")
          }
         }
        } else {
         if i < 48 {
          if i < 47 {
           Table::row(1067095800, 37800, 1800, "+11")
          } else {
           Table::row(1080399600, 37800, 0, "+1030")
          }
         } else {
          if i < 49 {
           Table::row(1099150200, 37800, 1800, "+11")
          } else {
           Table::row(1111849200, 37800, 0, "+1030")
          }
         }
        }
       } else {
        if i < 54 {
         if i < 52 {
          if i < 51 {
           Table::row(1130599800, 37800, 1800, "+11")
          } else {
           Table::row(1143903600, 37800, 0, "+1030")
          }
         } else {
          if i < 53 {
           Table::row(1162049400, 37800, 1800, "+11")
          } else {
           Table::row(1174748400, 37800, 0, "+1030")
          }
         }
        } else {
         if i < 56 {
          if i < 55 {
           Table::row(1193499000, 37800, 1800, "+11")
          } else {
           Table::row(1207407600, 37800, 0, "+1030")
          }
         } else {
          if i < 57 {
           Table::row(1223134200, 37800, 1800, "+11")
          } else {
           Table::row(1238857200, 37800, 0, "+1030")
          }
         }
        }
       }
      }
     }
    } else {
     if i < 87 {
      if i < 72 {
       if i < 65 {
        if i < 61 {
         if i < 59 {
          Table::row(1254583800, 37800, 1800, "+11")
         } else {
          if i < 60 {
           Table::row(1270306800, 37800, 0, "+1030")
          } else {
           Table::row(1286033400, 37800, 1800, "+11")
          }
         }
        } else {
         if i < 63 {
          if i < 62 {
           Table::row(1301756400, 37800, 0, "+1030")
          } else {
           Table::row(1317483000, 37800, 1800, "+11")
          }
         } else {
          if i < 64 {
           Table::row(1333206000, 37800, 0, "+1030")
          } else {
           Table::row(1349537400, 37800, 1800, "+11")
          }
         }
        }
       } else {
        if i < 68 {
         if i < 66 {
          Table::row(1365260400, 37800, 0, "+1030")
         } else {
          if i < 67 {
           Table::row(1380987000, 37800, 1800, "+11")
          } else {
           Table::row(1396710000, 37800, 0, "+1030")
          }
         }
        } else {
         if i < 70 {
          if i < 69 {
           Table::row(1412436600, 37800, 1800, "+11")
          } else {
           Table::row(1428159600, 37800, 0, "+1030")
          }
         } else {
          if i < 71 {
           Table::row(1443886200, 37800, 1800, "+11")
          } else {
           Table::row(1459609200, 37800, 0, "+1030")
          }
         }
        }
       }
      } else {
       if i < 79 {
        if i < 75 {
         if i < 73 {
          Table::row(1475335800, 37800, 1800, "+11")
         } else {
          if i < 74 {
           Table::row(1491058800, 37800, 0, "+1030")
          } else {
           Table::row(1506785400, 37800, 1800, "+11")
          }
         }
        } else {
         if i < 77 {
          if i < 76 {
           Table::row(1522508400, 37800, 0, "+1030")
          } else {
           Table::row(1538839800, 37800, 1800, "+11")
          }
         } else {
          if i < 78 {
           Table::row(1554562800, 37800, 0, "+1030")
          } else {
           Table::row(1570289400, 37800, 1800, "+11")
          }
         }
        }
       } else {
        if i < 83 {
         if i < 81 {
          if i < 80 {
           Table::row(1586012400, 37800, 0, "+1030")
          } else {
           Table::row(1601739000, 37800, 1800, "+11")
          }
         } else {
          if i < 82 {
           Table::row(1617462000, 37800, 0, "+1030")
          } else {
           Table::row(1633188600, 37800, 1800, "+11")
          }
         }
        } else {
         if i < 85 {
          if i < 84 {
           Table::row(1648911600, 37800, 0, "+1030")
          } else {
           Table::row(1664638200, 37800, 1800, "+11")
          }
         } else {
          if i < 86 {
           Table::row(1680361200, 37800, 0, "+1030")
          } else {
           Table::row(1696087800, 37800, 1800, "+11")
          }
         }
        }
       }
      }
     } else {
      if i < 101 {
       if i < 94 {
        if i < 90 {
         if i < 88 {
          Table::row(1712415600, 37800, 0, "+1030")
         } else {
          if i < 89 {
           Table::row(1728142200, 37800, 1800, "+11")
          } else {
           Table::row(1743865200, 37800, 0, "+1030")
          }
         }
        } else {
         if i < 92 {
          if i < 91 {
           Table::row(1759591800, 37800, 1800, "+11")
          } else {
           Table::row(1775314800, 37800, 0, "+1030")
          }
         } else {
          if i < 93 {
           Table::row(1791041400, 37800, 1800, "+11")
          } else {
           Table::row(1806764400, 37800, 0, "+1030")
          }
         }
        }
       } else {
        if i < 97 {
         if i < 95 {
          Table::row(1822491000, 37800, 1800, "+11")
         } else {
          if i < 96 {
           Table::row(1838214000, 37800, 0, "+1030")
          } else {
           Table::row(1853940600, 37800, 1800, "+11")
          }
         }
        } else {
         if i < 99 {
          if i < 98 {
           Table::row(1869663600, 37800, 0, "+1030")
          } else {
           Table::row(1885995000, 37800, 1800, "+11")
          }
         } else {
          if i < 100 {
           Table::row(1901718000, 37800, 0, "+1030")
          } else {
           Table::row(1917444600, 37800, 1800, "+11")
          }
         }
        }
       }
      } else {
       if i < 108 {
        if i < 104 {
         if i < 102 {
          Table::row(1933167600, 37800, 0, "+1030")
         } else {
          if i < 103 {
           Table::row(1948894200, 37800, 1800, "+11")
          } else {
           Table::row(1964617200, 37800, 0, "+1030")
          }
         }
        } else {
         if i < 106 {
          if i < 105 {
           Table::row(1980343800, 37800, 1800, "+11")
          } else {
           Table::row(1996066800, 37800, 0, "+1030")
          }
         } else {
          if i < 107 {
           Table::row(2011793400, 37800, 1800, "+11")
          } else {
           Table::row(2027516400, 37800, 0, "+1030")
          }
         }
        }
       } else {
        if i < 112 {
         if i < 110 {
          if i < 109 {
           Table::row(2043243000, 37800, 1800, "+11")
          } else {
           Table::row(2058966000, 37800, 0, "+1030")
          }
         } else {
          if i < 111 {
           Table::row(2075297400, 37800, 1800, "+11")
          } else {
           Table::row(2091020400, 37800, 0, "+1030")
          }
         }
        } else {
         if i < 114 {
          if i < 113 {
           Table::row(2106747000, 37800, 1800, "+11")
          } else {
           Table::row(2122470000, 37800, 0, "+1030")
          }
         } else {
          if i < 115 {
           Table::row(2138196600, 37800, 1800, "+11")
          } else {
           Table::row(2147483647, 37800, 1800, "+11")
          }
         }
        }
       }
      }
     }
    }
}

/// The rows of the table of the zone `Australia/Lord_Howe`.
pub open spec fn lord_howe_rows() -> spec_fn(int) -> (i64, FixedTimespan) {
    |i: int| lord_howe_row(i)
}

/// The table of the zone `Australia/Lord_Howe`.
pub open spec fn lord_howe() -> Table {
    Table::listed(Table::row(0, 38180, 0, "LMT").1, 116, lord_howe_rows())
}

/// Row `i` of the table of the zone `Australia/Melbourne`.
pub open spec fn melbourne_row(i: int) -> (i64, FixedTimespan) {
    if i < 71 {
     if i < 35 {
      if i < 17 {
       if i < 8 {
        if i < 4 {
         if i < 2 {
          if i < 1 {
           Table::row(-2364111592, 36000, 0, "AEST")
          } else {
           Table::row(-1672560000, 36000, 3600, "AEDT")
          }
         } else {
          if i < 3 {
           Table::row(-1665388800, 36000, 0, "AEST")
          } else {
           Table::row(-883641600, 36000, 3600, "AEDT")
          }
         }
        } else {
         if i < 6 {
          if i < 5 {
           Table::row(-876124800, 36000, 0, "AEST")
          } else {
           Table::row(-860400000, 36000, 3600, "AEDT")
          }
         } else {
          if i < 7 {
           Table::row(-844675200, 36000, 0, "AEST")
          } else {
           Table::row(-828345600, 36000, 3600, "AEDT")
          }
         }
        }
       } else {
        if i < 12 {
         if i < 10 {
          if i < 9 {
           Table::row(-813225600, 36000, 0, "AEST")
          } else {
           Table::row(57686400, 36000, 3600, "AEDT")
          }
         } else {
          if i < 11 {
           Table::row(67968000, 36000, 0, "AEST")
          } else {
           Table::row(89136000, 36000, 3600, "AEDT")
          }
         }
        } else {
         if i < 14 {
          if i < 13 {
           Table::row(100022400, 36000, 0, "AEST")
          } else {
           Table::row(120585600, 36000, 3600, "AEDT")
          }
         } else {
          if i < 15 {
           Table::row(131472000, 36000, 0, "AEST")
          } else {
           if i < 16 {
            Table::row(152035200, 36000, 3600, "AEDT")
           } else {
            Table::row(162921600, 36000, 0, "AEST")
           }
          }
         }
        }
       }
      } else {
       if i < 26 {
        if i < 21 {
         if i < 19 {
          if i < 18 {
           Table::row(183484800, 36000, 3600, "AEDT")
          } else {
           Table::row(194976000, 36000, 0, "AEST")
          }
         } else {
          if i < 20 {
           Table::row(215539200, 36000, 3600, "AEDT")
          } else {
           Table::row(226425600, 36000, 0, "AEST")
          }
         }
        } else {
         if i < 23 {
          if i < 22 {
           Table::row(246988800, 36000, 3600, "AEDT")
          } else {
           Table::row(257875200, 36000, 0, "AEST")
          }
         } else {
          if i < 24 {
           Table::row(278438400, 36000, 3600, "AEDT")
          } else {
           if i < 25 {
            Table::row(289324800, 36000, 0, "AEST")
           } else {
            Table::row(309888000, 36000, 3600, "AEDT")
           }
          }
         }
        }
       } else {
        if i < 30 {
         if i < 28 {
          if i < 27 {
           Table::row(320774400, 36000, 0, "AEST")
          } else {
           Table::row(341337600, 36000, 3600, "AEDT")
          }
         } else {
          if i < 29 {
           Table::row(352224000, 36000, 0, "AEST")
          } else {
           Table::row(372787200, 36000, 3600, "AEDT")
          }
         }
        } else {
         if i < 32 {
          if i < 31 {
           Table::row(384278400, 36000, 0, "AEST")
          } else {
           Table::row(404841600, 36000, 3600, "AEDT")
          }
         } else {
          if i < 33 {
           Table::row(415728000, 36000, 0, "AEST")
          } else {
           if i < 34 {
            Table::row(436291200, 36000, 3600, "AEDT")
           } else {
            Table::row(447177600, 36000, 0, "AEST")
           }
          }
         }
        }
       }
      }
     } else {
      if i < 53 {
       if i < 44 {
        if i < 39 {
         if i < 37 {
          if i < 36 {
           Table::row(467740800, 36000, 3600, "AEDT")
          } else {
           Table::row(478627200, 36000, 0, "AEST")
          }
         } else {
          if i < 38 {
           Table::row(499190400, 36000, 3600, "AEDT")
          } else {
           Table::row(511286400, 36000, 0, "AEST")
          }
         }
        } else {
         if i < 41 {
          if i < 40 {
           Table::row(530035200, 36000, 3600, "AEDT")
          } else {
           Table::row(542736000, 36000, 0, "AEST")
          }
         } else {
          if i < 42 {
           Table::row(561484800, 36000, 3600, "AEDT")
          } else {
           if i < 43 {
            Table::row(574790400, 36000, 0, "AEST")
           } else {
            Table::row(594144000, 36000, 3600, "AEDT")
           }
          }
         }
        }
       } else {
        if i < 48 {
         if i < 46 {
          if i < 45 {
           Table::row(606240000, 36000, 0, "AEST")
          } else {
           Table::row(625593600, 36000, 3600, "AEDT")
          }
         } else {
          if i < 47 {
           Table::row(637689600, 36000, 0, "AEST")
          } else {
           Table::row(657043200, 36000, 3600, "AEDT")
          }
         }
        } else {
         if i < 50 {
          if i < 49 {
           Table::row(667929600, 36000, 0, "AEST")
          } else {
           Table::row(688492800, 36000, 3600, "AEDT")
          }
         } else {
          if i < 51 {
           Table::row(699379200, 36000, 0, "AEST")
          } else {
           if i < 52 {
            Table::row(719942400, 36000, 3600, "AEDT")
           } else {
            Table::row(731433600, 36000, 0, "AEST")
           }
          }
         }
        }
       }
      } else {
       if i < 62 {
        if i < 57 {
         if i < 55 {
          if i < 54 {
           Table::row(751996800, 36000, 3600, "AEDT")
          } else {
           Table::row(762883200, 36000, 0, "AEST")
          }
         } else {
          if i < 56 {
           Table::row(783446400, 36000, 3600, "AEDT")
          } else {
           Table::row(796147200, 36000, 0, "AEST")
          }
         }
        } else {
         if i < 59 {
          if i < 58 {
           Table::row(814896000, 36000, 3600, "AEDT")
          } else {
           Table::row(828201600, 36000, 0, "AEST")
          }
         } else {
          if i < 60 {
           Table::row(846345600, 36000, 3600, "AEDT")
          } else {
           if i < 61 {
            Table::row(859651200, 36000, 0, "AEST")
           } else {
            Table::row(877795200, 36000, 3600, "AEDT")
           }
          }
         }
        }
       } else {
        if i < 66 {
         if i < 64 {
          if i < 63 {
           Table::row(891100800, 36000, 0, "AEST")
          } else {
           Table::row(909244800, 36000, 3600, "AEDT")
          }
         } else {
          if i < 65 {
           Table::row(922550400, 36000, 0, "AEST")
          } else {
           Table::row(941299200, 36000, 3600, "AEDT")
          }
         }
        } else {
         if i < 68 {
          if i < 67 {
           Table::row(954000000, 36000, 0, "AEST")
          } else {
           Table::row(967305600, 36000, 3600, "AEDT")
          }
         } else {
          if i < 69 {
           Table::row(985449600, 36000, 0, "AEST")
          } else {
           if i < 70 {
            Table::row(1004198400, 36000, 3600, "AEDT")
           } else {
            Table::row(1017504000, 36000, 0, "AEST")
           }
          }
         }
        }
       }
      }
     }
    } else {
     if i < 106 {
      if i < 88 {
       if i < 79 {
        if i < 75 {
         if i < 73 {
          if i < 72 {
           Table::row(1035648000, 36000, 3600, "AEDT")
          } else {
           Table::row(1048953600, 36000, 0, "AEST")
          }
         } else {
          if i < 74 {
           Table::row(1067097600, 36000, 3600, "AEDT")
          } else {
           Table::row(1080403200, 36000, 0, "AEST")
          }
         }
        } else {
         if i < 77 {
          if i < 76 {
           Table::row(1099152000, 36000, 3600, "AEDT")
          } else {
           Table::row(1111852800, 36000, 0, "AEST")
          }
         } else {
          if i < 78 {
           Table::row(1130601600, 36000, 3600, "AEDT")
          } else {
           Table::row(1143907200, 36000, 0, "AEST")
          }
         }
        }
       } else {
        if i < 83 {
         if i < 81 {
          if i < 80 {
           Table::row(1162051200, 36000, 3600, "AEDT")
          } else {
           Table::row(1174752000, 36000, 0, "AEST")
          }
         } else {
          if i < 82 {
           Table::row(1193500800, 36000, 3600, "AEDT")
          } else {
           Table::row(1207411200, 36000, 0, "AEST")
          }
         }
        } else {
         if i < 85 {
          if i < 84 {
           Table::row(1223136000, 36000, 3600, "AEDT")
          } else {
           Table::row(1238860800, 36000, 0, "AEST")
          }
         } else {
          if i < 86 {
           Table::row(1254585600, 36000, 3600, "AEDT")
          } else {
           if i < 87 {
            Table::row(1270310400, 36000, 0, "AEST")
           } else {
            Table::row(1286035200, 36000, 3600, "AEDT")
           }
          }
         }
        }
       }
      } else {
       if i < 97 {
        if i < 92 {
         if i < 90 {
          if i < 89 {
           Table::row(1301760000, 36000, 0, "AEST")
          } else {
           Table::row(1317484800, 36000, 3600, "AEDT")
          }
         } else {
          if i < 91 {
           Table::row(1333209600, 36000, 0, "AEST")
          } else {
           Table::row(1349539200, 36000, 3600, "AEDT")
          }
         }
        } else {
         if i < 94 {
          if i < 93 {
           Table::row(1365264000, 36000, 0, "AEST")
          } else {
           Table::row(1380988800, 36000, 3600, "AEDT")
          }
         } else {
          if i < 95 {
           Table::row(1396713600, 36000, 0, "AEST")
          } else {
           if i < 96 {
            Table::row(1412438400, 36000, 3600, "AEDT")
           } else {
            Table::row(1428163200, 36000, 0, "AEST")
           }
          }
         }
        }
       } else {
        if i < 101 {
         if i < 99 {
          if i < 98 {
           Table::row(1443888000, 36000, 3600, "AEDT")
          } else {
           Table::row(1459612800, 36000, 0, "AEST")
          }
         } else {
          if i < 100 {
           Table::row(1475337600, 36000, 3600, "AEDT")
          } else {
           Table::row(1491062400, 36000, 0, "AEST")
          }
         }
        } else {
         if i < 103 {
          if i < 102 {
           Table::row(1506787200, 36000, 3600, "AEDT")
          } else {
           Table::row(1522512000, 36000, 0, "AEST")
          }
         } else {
          if i < 104 {
           Table::row(1538841600, 36000, 3600, "AEDT")
          } else {
           if i < 105 {
            Table::row(1554566400, 36000, 0, "AEST")
           } else {
            Table::row(1570291200, 36000, 3600, "AEDT")
           }
          }
         }
        }
       }
      }
     } else {
      if i < 124 {
       if i < 115 {
        if i < 110 {
         if i < 108 {
          if i < 107 {
           Table::row(1586016000, 36000, 0, "AEST")
          } else {
           Table::row(1601740800, 36000, 3600, "AEDT")
          }
         } else {
          if i < 109 {
           Table::row(1617465600, 36000, 0, "AEST")
          } else {
           Table::row(1633190400, 36000, 3600, "AEDT")
          }
         }
        } else {
         if i < 112 {
          if i < 111 {
           Table::row(1648915200, 36000, 0, "AEST")
          } else {
           Table::row(1664640000, 36000, 3600, "AEDT")
          }
         } else {
          if i < 113 {
           Table::row(1680364800, 36000, 0, "AEST")
          } else {
           if i < 114 {
            Table::row(1696089600, 36000, 3600, "AEDT")
           } else {
            Table::row(1712419200, 36000, 0, "AEST")
           }
          }
         }
        }
       } else {
        if i < 119 {
         if i < 117 {
          if i < 116 {
           Table::row(1728144000, 36000, 3600, "AEDT")
          } else {
           Table::row(1743868800, 36000, 0, "AEST")
          }
         } else {
          if i < 118 {
           Table::row(1759593600, 36000, 3600, "AEDT")
          } else {
           Table::row(1775318400, 36000, 0, "AEST")
          }
         }
        } else {
         if i < 121 {
          if i < 120 {
           Table::row(1791043200, 36000, 3600, "AEDT")
          } else {
           Table::row(1806768000, 36000, 0, "AEST")
          }
         } else {
          if i < 122 {
           Table::row(1822492800, 36000, 3600, "AEDT")
          } else {
           if i < 123 {
            Table::row(1838217600, 36000, 0, "AEST")
           } else {
            Table::row(1853942400, 36000, 3600, "AEDT")
           }
          }
         }
        }
       }
      } else {
       if i < 133 {
        if i < 128 {
         if i < 126 {
          if i < 125 {
           Table::row(1869667200, 36000, 0, "AEST")
          } else {
           Table::row(1885996800, 36000, 3600, "AEDT")
          }
         } else {
          if i < 127 {
           Table::row(1901721600, 36000, 0, "AEST")
          } else {
           Table::row(1917446400, 36000, 3600, "AEDT")
          }
         }
        } else {
         if i < 130 {
          if i < 129 {
           Table::row(1933171200, 36000, 0, "AEST")
          } else {
           Table::row(1948896000, 36000, 3600, "AEDT")
          }
         } else {
          if i < 131 {
           Table::row(1964620800, 36000, 0, "AEST")
          } else {
           if i < 132 {
            Table::row(1980345600, 36000, 3600, "AEDT")
           } else {
            Table::row(1996070400, 36000, 0, "AEST")
           }
          }
         }
        }
       } else {
        if i < 137 {
         if i < 135 {
          if i < 134 {
           Table::row(2011795200, 36000, 3600, "AEDT")
          } else {
           Table::row(2027520000, 36000, 0, "AEST")
          }
         } else {
          if i < 136 {
           Table::row(2043244800, 36000, 3600, "AEDT")
          } else {
           Table::row(2058969600, 36000, 0, "AEST")
          }
         }
        } else {
         if i < 139 {
          if i < 138 {
           Table::row(2075299200, 36000, 3600, "AEDT")
          } else {
           Table::row(2091024000, 36000, 0, "AEST")
          }
         } else {
          if i < 140 {
           Table::row(2106748800, 36000, 3600, "AEDT")
          } else {
           if i < 141 {
            Table::row(2122473600, 36000, 0, "AEST")
           } else {
            Table::row(2138198400, 36000, 3600, "AEDT")
           }
          }
         }
        }
       }
      }
     }
    }
}

/// The rows of the table of the zone `Australia/Melbourne`.
pub open spec fn melbourne_rows() -> spec_fn(int) -> (i64, FixedTimespan) {
    |i: int| melbourne_row(i)
}

/// The table of the zone `Australia/Melbourne`.
pub open spec fn melbourne() -> Table {
    Table::listed(Table::row(0, 34792, 0, "LMT").1, 142, melbourne_rows())
}

/// Row `i` of the table of the zone `Australia/NSW`.
pub open spec fn nsw_row(i: int) -> (i64, FixedTimespan) {
    if i < 71 {
     if i < 35 {
      if i < 17 {
       if i < 8 {
        if i < 4 {
         if i < 2 {
          if i < 1 {
           Table::row(-2364113092, 36000, 0, "AEST")
          } else {
           Table::row(-1672560000, 36000, 3600, "AEDT")
          }
         } else {
          if i < 3 {
           Table::row(-1665388800, 36000, 0, "AEST")
          } else {
           Table::row(-883641600, 36000, 3600, "AEDT")
          }
         }
        } else {
         if i < 6 {
          if i < 5 {
           Table::row(-876124800, 36000, 0, "AEST")
          } else {
           Table::row(-860400000, 36000, 3600, "AEDT")
          }
         } else {
          if i < 7 {
           Table::row(-844675200, 36000, 0, "AEST")
          } else {
           Table::row(-828345600, 36000, 3600, "AEDT")
          }
         }
        }
       } else {
        if i < 12 {
         if i < 10 {
          if i < 9 {
           Table::row(-813225600, 36000, 0, "AEST")
          } else {
           Table::row(57686400, 36000, 3600, "AEDT")
          }
         } else {
          if i < 11 {
           Table::row(67968000, 36000, 0, "AEST")
          } else {
           Table::row(89136000, 36000, 3600, "AEDT")
          }
         }
        } else {
         if i < 14 {
          if i < 13 {
           Table::row(100022400, 36000, 0, "AEST")
          } else {
           Table::row(120585600, 36000, 3600, "AEDT")
          }
         } else {
          if i < 15 {
           Table::row(131472000, 36000, 0, "AEST")
          } else {
           if i < 16 {
            Table::row(152035200, 36000, 3600, "AEDT")
           } else {
            Table::row(162921600, 36000, 0, "AEST")
           }
          }
         }
        }
       }
      } else {
       if i < 26 {
        if i < 21 {
         if i < 19 {
          if i < 18 {
           Table::row(183484800, 36000, 3600, "AEDT")
          } else {
           Table::row(194976000, 36000, 0, "AEST")
          }
         } else {
          if i < 20 {
           Table::row(215539200, 36000, 3600, "AEDT")
          } else {
           Table::row(226425600, 36000, 0, "AEST")
          }
         }
        } else {
         if i < 23 {
          if i < 22 {
           Table::row(246988800, 36000, 3600, "AEDT")
          } else {
           Table::row(257875200, 36000, 0, "AEST")
          }
         } else {
          if i < 24 {
           Table::row(278438400, 36000, 3600, "AEDT")
          } else {
           if i < 25 {
            Table::row(289324800, 36000, 0, "AEST")
           } else {
            Table::row(309888000, 36000, 3600, "AEDT")
           }
          }
         }
        }
       } else {
        if i < 30 {
         if i < 28 {
          if i < 27 {
           Table::row(320774400, 36000, 0, "AEST")
          } else {
           Table::row(341337600, 36000, 3600, "AEDT")
          }
         } else {
          if i < 29 {
           Table::row(352224000, 36000, 0, "AEST")
          } else {
           Table::row(372787200, 36000, 3600, "AEDT")
          }
         }
        } else {
         if i < 32 {
          if i < 31 {
           Table::row(386697600, 36000, 0, "AEST")
          } else {
           Table::row(404841600, 36000, 3600, "AEDT")
          }
         } else {
          if i < 33 {
           Table::row(415728000, 36000, 0, "AEST")
          } else {
           if i < 34 {
            Table::row(436291200, 36000, 3600, "AEDT")
           } else {
            Table::row(447177600, 36000, 0, "AEST")
           }
          }
         }
        }
       }
      }
     } else {
      if i < 53 {
       if i < 44 {
        if i < 39 {
         if i < 37 {
          if i < 36 {
           Table::row(467740800, 36000, 3600, "AEDT")
          } else {
           Table::row(478627200, 36000, 0, "AEST")
          }
         } else {
          if i < 38 {
           Table::row(499190400, 36000, 3600, "AEDT")
          } else {
           Table::row(511286400, 36000, 0, "AEST")
          }
         }
        } else {
         if i < 41 {
          if i < 40 {
           Table::row(530035200, 36000, 3600, "AEDT")
          } else {
           Table::row(542736000, 36000, 0, "AEST")
          }
         } else {
          if i < 42 {
           Table::row(562089600, 36000, 3600, "AEDT")
          } else {
           if i < 43 {
            Table::row(574790400, 36000, 0, "AEST")
           } else {
            Table::row(594144000, 36000, 3600, "AEDT")
           }
          }
         }
        }
       } else {
        if i < 48 {
         if i < 46 {
          if i < 45 {
           Table::row(606240000, 36000, 0, "AEST")
          } else {
           Table::row(625593600, 36000, 3600, "AEDT")
          }
         } else {
          if i < 47 {
           Table::row(636480000, 36000, 0, "AEST")
          } else {
           Table::row(657043200, 36000, 3600, "AEDT")
          }
         }
        } else {
         if i < 50 {
          if i < 49 {
           Table::row(667929600, 36000, 0, "AEST")
          } else {
           Table::row(688492800, 36000, 3600, "AEDT")
          }
         } else {
          if i < 51 {
           Table::row(699379200, 36000, 0, "AEST")
          } else {
           if i < 52 {
            Table::row(719942400, 36000, 3600, "AEDT")
           } else {
            Table::row(731433600, 36000, 0, "AEST")
           }
          }
         }
        }
       }
      } else {
       if i < 62 {
        if i < 57 {
         if i < 55 {
          if i < 54 {
           Table::row(751996800, 36000, 3600, "AEDT")
          } else {
           Table::row(762883200, 36000, 0, "AEST")
          }
         } else {
          if i < 56 {
           Table::row(783446400, 36000, 3600, "AEDT")
          } else {
           Table::row(794332800, 36000, 0, "AEST")
          }
         }
        } else {
         if i < 59 {
          if i < 58 {
           Table::row(814896000, 36000, 3600, "AEDT")
          } else {
           Table::row(828201600, 36000, 0, "AEST")
          }
         } else {
          if i < 60 {
           Table::row(846345600, 36000, 3600, "AEDT")
          } else {
           if i < 61 {
            Table::row(859651200, 36000, 0, "AEST")
           } else {
            Table::row(877795200, 36000, 3600, "AEDT")
           }
          }
         }
        }
       } else {
        if i < 66 {
         if i < 64 {
          if i < 63 {
           Table::row(891100800, 36000, 0, "AEST")
          } else {
           Table::row(909244800, 36000, 3600, "AEDT")
          }
         } else {
          if i < 65 {
           Table::row(922550400, 36000, 0, "AEST")
          } else {
           Table::row(941299200, 36000, 3600, "AEDT")
          }
         }
        } else {
         if i < 68 {
          if i < 67 {
           Table::row(954000000, 36000, 0, "AEST")
          } else {
           Table::row(967305600, 36000, 3600, "AEDT")
          }
         } else {
          if i < 69 {
           Table::row(985449600, 36000, 0, "AEST")
          } else {
           if i < 70 {
            Table::row(1004198400, 36000, 3600, "AEDT")
           } else {
            Table::row(1017504000, 36000, 0, "AEST")
           }
          }
         }
        }
       }
      }
     }
    } else {
     if i < 106 {
      if i < 88 {
       if i < 79 {
        if i < 75 {
         if i < 73 {
          if i < 72 {
           Table::row(1035648000, 36000, 3600, "AEDT")
          } else {
           Table::row(1048953600, 36000, 0, "AEST")
          }
         } else {
          if i < 74 {
           Table::row(1067097600, 36000, 3600, "AEDT")
          } else {
           Table::row(1080403200, 36000, 0, "AEST")
          }
         }
        } else {
         if i < 77 {
          if i < 76 {
           Table::row(1099152000, 36000, 3600, "AEDT")
          } else {
           Table::row(1111852800, 36000, 0, "AEST")
          }
         } else {
          if i < 78 {
           Table::row(1130601600, 36000, 3600, "AEDT")
          } else {
           Table::row(1143907200, 36000, 0, "AEST")
          }
         }
        }
       } else {
        if i < 83 {
         if i < 81 {
          if i < 80 {
           Table::row(1162051200, 36000, 3600, "AEDT")
          } else {
           Table::row(1174752000, 36000, 0, "AEST")
          }
         } else {
          if i < 82 {
           Table::row(1193500800, 36000, 3600, "AEDT")
          } else {
           Table::row(1207411200, 36000, 0, "AEST")
          }
         }
        } else {
         if i < 85 {
          if i < 84 {
           Table::row(1223136000, 36000, 3600, "AEDT")
          } else {
           Table::row(1238860800, 36000, 0, "AEST")
          }
         } else {
          if i < 86 {
           Table::row(1254585600, 36000, 3600, "AEDT")
          } else {
           if i < 87 {
            Table::row(1270310400, 36000, 0, "AEST")
           } else {
            Table::row(1286035200, 36000, 3600, "AEDT")
           }
          }
         }
        }
       }
      } else {
       if i < 97 {
        if i < 92 {
         if i < 90 {
          if i < 89 {
           Table::row(1301760000, 36000, 0, "AEST")
          } else {
           Table::row(1317484800, 36000, 3600, "AEDT")
          }
         } else {
          if i < 91 {
           Table::row(1333209600, 36000, 0, "AEST")
          } else {
           Table::row(1349539200, 36000, 3600, "AEDT")
          }
         }
        } else {
         if i < 94 {
          if i < 93 {
           Table::row(1365264000, 36000, 0, "AEST")
          } else {
           Table::row(1380988800, 36000, 3600, "AEDT")
          }
         } else {
          if i < 95 {
           Table::row(1396713600, 36000, 0, "AEST")
          } else {
           if i < 96 {
            Table::row(1412438400, 36000, 3600, "AEDT")
           } else {
            Table::row(1428163200, 36000, 0, "AEST")
           }
          }
         }
        }
       } else {
        if i < 101 {
         if i < 99 {
          if i < 98 {
           Table::row(1443888000, 36000, 3600, "AEDT")
          } else {
           Table::row(1459612800, 36000, 0, "AEST")
          }
         } else {
          if i < 100 {
           Table::row(1475337600, 36000, 3600, "AEDT")
          } else {
           Table::row(1491062400, 36000, 0, "AEST")
          }
         }
        } else {
         if i < 103 {
          if i < 102 {
           Table::row(1506787200, 36000, 3600, "AEDT")
          } else {
           Table::row(1522512000, 36000, 0, "AEST")
          }
         } else {
          if i < 104 {
           Table::row(1538841600, 36000, 3600, "AEDT")
          } else {
           if i < 105 {
            Table::row(1554566400, 36000, 0, "AEST")
           } else {
            Table::row(1570291200, 36000, 3600, "AEDT")
           }
          }
         }
        }
       }
      }
     } else {
      if i < 124 {
       if i < 115 {
        if i < 110 {
         if i < 108 {
          if i < 107 {
           Table::row(1586016000, 36000, 0, "AEST")
          } else {
           Table::row(1601740800, 36000, 3600, "AEDT")
          }
         } else {
          if i < 109 {
           Table::row(1617465600, 36000, 0, "AEST")
          } else {
           Table::row(1633190400, 36000, 3600, "AEDT")
          }
         }
        } else {
         if i < 112 {
          if i < 111 {
           Table::row(1648915200, 36000, 0, "AEST")
          } else {
           Table::row(1664640000, 36000, 3600, "AEDT")
          }
         } else {
          if i < 113 {
           Table::row(1680364800, 36000, 0, "AEST")
          } else {
           if i < 114 {
            Table::row(1696089600, 36000, 3600, "AEDT")
           } else {
            Table::row(1712419200, 36000, 0, "AEST")
           }
          }
         }
        }
       } else {
        if i < 119 {
         if i < 117 {
          if i < 116 {
           Table::row(1728144000, 36000, 3600, "AEDT")
          } else {
           Table::row(1743868800, 36000, 0, "AEST")
          }
         } else {
          if i < 118 {
           Table::row(1759593600, 36000, 3600, "AEDT")
          } else {
           Table::row(1775318400, 36000, 0, "AEST")
          }
         }
        } else {
         if i < 121 {
          if i < 120 {
           Table::row(1791043200, 36000, 3600, "AEDT")
          } else {
           Table::row(1806768000, 36000, 0, "AEST")
          }
         } else {
          if i < 122 {
           Table::row(1822492800, 36000, 3600, "AEDT")
          } else {
           if i < 123 {
            Table::row(1838217600, 36000, 0, "AEST")
           } else {
            Table::row(1853942400, 36000, 3600, "AEDT")
           }
          }
         }
        }
       }
      } else {
       if i < 133 {
        if i < 128 {
         if i < 126 {
          if i < 125 {
           Table::row(1869667200, 36000, 0, "AEST")
          } else {
           Table::row(1885996800, 36000, 3600, "AEDT")
          }
         } else {
          if i < 127 {
           Table::row(1901721600, 36000, 0, "AEST")
          } else {
           Table::row(1917446400, 36000, 3600, "AEDT")
          }
         }
        } else {
         if i < 130 {
          if i < 129 {
           Table::row(1933171200, 36000, 0, "AEST")
          } else {
           Table::row(1948896000, 36000, 3600, "AEDT")
          }
         } else {
          if i < 131 {
           Table::row(1964620800, 36000, 0, "AEST")
          } else {
           if i < 132 {
            Table::row(1980345600, 36000, 3600, "AEDT")
           } else {
            Table::row(1996070400, 36000, 0, "AEST")
           }
          }
         }
        }
       } else {
        if i < 137 {
         if i < 135 {
          if i < 134 {
           Table::row(2011795200, 36000, 3600, "AEDT")
          } else {
           Table::row(2027520000, 36000, 0, "AEST")
          }
         } else {
          if i < 136 {
           Table::row(2043244800, 36000, 3600, "AEDT")
          } else {
           Table::row(2058969600, 36000, 0, "AEST")
          }
         }
        } else {
         if i < 139 {
          if i < 138 {
           Table::row(2075299200, 36000, 3600, "AEDT")
          } else {
           Table::row(2091024000, 36000, 0, "AEST")
          }
         } else {
          if i < 140 {
           Table::row(2106748800, 36000, 3600, "AEDT")
          } else {
           if i < 141 {
            Table::row(2122473600, 36000, 0, "AEST")
           } else {
            Table::row(2138198400, 36000, 3600, "AEDT")
           }
          }
         }
        }
       }
      }
     }
    }
}

/// The rows of the table of the zone `Australia/NSW`.
pub open spec fn nsw_rows() -> spec_fn(int) -> (i64, FixedTimespan) {
    |i: int| nsw_row(i)
}

/// The table of the zone `Australia/NSW`.
pub open spec fn nsw() -> Table {
    Table::listed(Table::row(0, 36292, 0, "LMT").1, 142, nsw_rows())
}

/// Row `i` of the table of the zone `Australia/North`.
pub open spec fn north_row(i: int) -> (i64, FixedTimespan) {
    if i < 5 {
     if i < 2 {
      if i < 1 {
       Table::row(-2364108200, 32400, 0, "ACST")
      } else {
       Table::row(-2230189200, 34200, 0, "ACST")
      }
     } else {
      if i < 3 {
       Table::row(-1672558200, 34200, 3600, "ACDT")
      } else {
       if i < 4 {
        Table::row(-1665387000, 34200, 0, "ACST")
       } else {
        Table::row(-883639800, 34200, 3600, "ACDT")
       }
      }
     }
    } else {
     if i < 7 {
      if i < 6 {
       Table::row(-876123000, 34200, 0, "ACST")
      } else {
       Table::row(-860398200, 34200, 3600, "ACDT")
      }
     } else {
      if i < 8 {
       Table::row(-844673400, 34200, 0, "ACST")
      } else {
       if i < 9 {
        Table::row(-828343800, 34200, 3600, "ACDT")
       } else {
        Table::row(-813223800, 34200, 0, "ACST")
       }
      }
     }
    }
}

/// The rows of the table of the zone `Australia/North`.
pub open spec fn north_rows() -> spec_fn(int) -> (i64, FixedTimespan) {
    |i: int| north_row(i)
}

/// The table of the zone `Australia/North`.
pub open spec fn north() -> Table {
    Table::listed(Table::row(0, 31400, 0, "LMT").1, 10, north_rows())
}

/// Row `i` of the table of the zone `Australia/Perth`.
pub open spec fn perth_row(i: int) -> (i64, FixedTimespan) {
    if i < 9 {
     if i < 4 {
      if i < 2 {
       if i < 1 {
        Table::row(-2337925404, 28800, 0, "AWST")
       } else {
        Table::row(-1672552800, 28800, 3600, "AWDT")
       }
      } else {
       if i < 3 {
        Table::row(-1665381600, 28800, 0, "AWST")
       } else {
        Table::row(-883634400, 28800, 3600, "AWDT")
       }
      }
     } else {
      if i < 6 {
       if i < 5 {
        Table::row(-876117600, 28800, 0, "AWST")
       } else {
        Table::row(-860392800, 28800, 3600, "AWDT")
       }
      } else {
       if i < 7 {
        Table::row(-844668000, 28800, 0, "AWST")
       } else {
        if i < 8 {
         Table::row(152042400, 28800, 3600, "AWDT")
        } else {
         Table::row(162928800, 28800, 0, "AWST")
        }
       }
      }
     }
    } else {
     if i < 14 {
      if i < 11 {
       if i < 10 {
        Table::row(436298400, 28800, 3600, "AWDT")
       } else {
        Table::row(447184800, 28800, 0, "AWST")
       }
      } else {
       if i < 12 {
        Table::row(690314400, 28800, 3600, "AWDT")
       } else {
        if i < 13 {
         Table::row(699386400, 28800, 0, "AWST")
        } else {
         Table::row(1165082400, 28800, 3600, "AWDT")
        }
       }
      }
     } else {
      if i < 16 {
       if i < 15 {
        Table::row(1174759200, 28800, 0, "AWST")
       } else {
        Table::row(1193508000, 28800, 3600, "AWDT")
       }
      } else {
       if i < 17 {
        Table::row(1206813600, 28800, 0, "AWST")
       } else {
        if i < 18 {
         Table::row(1224957600, 28800, 3600, "AWDT")
        } else {
         Table::row(1238263200, 28800, 0, "AWST")
        }
       }
      }
     }
    }
}

/// The rows of the table of the zone `Australia/Perth`.
pub open spec fn perth_rows() -> spec_fn(int) -> (i64, FixedTimespan) {
    |i: int| perth_row(i)
}

/// The table of the zone `Australia/Perth`.
pub open spec fn perth() -> Table {
    Table::listed(Table::row(0, 27804, 0, "LMT").1, 19, perth_rows())
}

/// Row `i` of the table of the zone `Australia/Queensland`.
pub open spec fn queensland_row(i: int) -> (i64, FixedTimespan) {
    if i < 8 {
     if i < 4 {
      if i < 2 {
       if i < 1 {
        Table::row(-2366791928, 36000, 0, "AEST")
       } else {
        Table::row(-1672560000, 36000, 3600, "AEDT")
       }
      } else {
       if i < 3 {
        Table::row(-1665388800, 36000, 0, "AEST")
       } else {
        Table::row(-883641600, 36000, 3600, "AEDT")
       }
      }
     } else {
      if i < 6 {
       if i < 5 {
        Table::row(-876124800, 36000, 0, "AEST")
       } else {
        Table::row(-860400000, 36000, 3600, "AEDT")
       }
      } else {
       if i < 7 {
        Table::row(-844675200, 36000, 0, "AEST")
       } else {
        Table::row(-828345600, 36000, 3600, "AEDT")
       }
      }
     }
    } else {
     if i < 12 {
      if i < 10 {
       if i < 9 {
        Table::row(-813225600, 36000, 0, "AEST")
       } else {
        Table::row(57686400, 36000, 3600, "AEDT")
       }
      } else {
       if i < 11 {
        Table::row(67968000, 36000, 0, "AEST")
       } else {
        Table::row(625593600, 36000, 3600, "AEDT")
       }
      }
     } else {
      if i < 14 {
       if i < 13 {
        Table::row(636480000, 36000, 0, "AEST")
       } else {
        Table::row(657043200, 36000, 3600, "AEDT")
       }
      } else {
       if i < 15 {
        Table::row(667929600, 36000, 0, "AEST")
       } else {
        if i < 16 {
         Table::row(688492800, 36000, 3600, "AEDT")
        } else {
         Table::row(699379200, 36000, 0, "AEST")
        }
       }
      }
     }
    }
}

/// The rows of the table of the zone `Australia/Queensland`.
pub open spec fn queensland_rows() -> spec_fn(int) -> (i64, FixedTimespan) {
    |i: int| queensland_row(i)
}

/// The table of the zone `Australia/Queensland`.
pub open spec fn queensland() -> Table {
    Table::listed(Table::row(0, 36728, 0, "LMT").1, 17, queensland_rows())
}

/// Row `i` of the table of the zone `Australia/South`.
pub open spec fn south_row(i: int) -> (i64, FixedTimespan) {
    if i < 71 {
     if i < 35 {
      if i < 17 {
       if i < 8 {
        if i < 4 {
         if i < 2 {
          if i < 1 {
           Table::row(-2364110060, 32400, 0, "ACST")
          } else {
           Table::row(-2230189200, 34200, 0, "ACST")
          }
         } else {
          if i < 3 {
           Table::row(-1672558200, 34200, 3600, "ACDT")
          } else {
           Table::row(-1665387000, 34200, 0, "ACST")
          }
         }
        } else {
         if i < 6 {
          if i < 5 {
           Table::row(-883639800, 34200, 3600, "ACDT")
          } else {
           Table::row(-876123000, 34200, 0, "ACST")
          }
         } else {
          if i < 7 {
           Table::row(-860398200, 34200, 3600, "ACDT")
          } else {
           Table::row(-844673400, 34200, 0, "ACST")
          }
         }
        }
       } else {
        if i < 12 {
         if i < 10 {
          if i < 9 {
           Table::row(-828343800, 34200, 3600, "ACDT")
          } else {
           Table::row(-813223800, 34200, 0, "ACST")
          }
         } else {
          if i < 11 {
           Table::row(57688200, 34200, 3600, "ACDT")
          } else {
           Table::row(67969800, 34200, 0, "ACST")
          }
         }
        } else {
         if i < 14 {
          if i < 13 {
           Table::row(89137800, 34200, 3600, "ACDT")
          } else {
           Table::row(100024200, 34200, 0, "ACST")
          }
         } else {
          if i < 15 {
           Table::row(120587400, 34200, 3600, "ACDT")
          } else {
           if i < 16 {
            Table::row(131473800, 34200, 0, "ACST")
           } else {
            Table::row(152037000, 34200, 3600, "ACDT")
           }
          }
         }
        }
       }
      } else {
       if i < 26 {
        if i < 21 {
         if i < 19 {
          if i < 18 {
           Table::row(162923400, 34200, 0, "ACST")
          } else {
           Table::row(183486600, 34200, 3600, "ACDT")
          }
         } else {
          if i < 20 {
           Table::row(194977800, 34200, 0, "ACST")
          } else {
           Table::row(215541000, 34200, 3600, "ACDT")
          }
         }
        } else {
         if i < 23 {
          if i < 22 {
           Table::row(226427400, 34200, 0, "ACST")
          } else {
           Table::row(246990600, 34200, 3600, "ACDT")
          }
         } else {
          if i < 24 {
           Table::row(257877000, 34200, 0, "ACST")
          } else {
           if i < 25 {
            Table::row(278440200, 34200, 3600, "ACDT")
           } else {
            Table::row(289326600, 34200, 0, "ACST")
           }
          }
         }
        }
       } else {
        if i < 30 {
         if i < 28 {
          if i < 27 {
           Table::row(309889800, 34200, 3600, "ACDT")
          } else {
           Table::row(320776200, 34200, 0, "ACST")
          }
         } else {
          if i < 29 {
           Table::row(341339400, 34200, 3600, "ACDT")
          } else {
           Table::row(352225800, 34200, 0, "ACST")
          }
         }
        } else {
         if i < 32 {
          if i < 31 {
           Table::row(372789000, 34200, 3600, "ACDT")
          } else {
           Table::row(384280200, 34200, 0, "ACST")
          }
         } else {
          if i < 33 {
           Table::row(404843400, 34200, 3600, "ACDT")
          } else {
           if i < 34 {
            Table::row(415729800, 34200, 0, "ACST")
           } else {
            Table::row(436293000, 34200, 3600, "ACDT")
           }
          }
         }
        }
       }
      }
     } else {
      if i < 53 {
       if i < 44 {
        if i < 39 {
         if i < 37 {
          if i < 36 {
           Table::row(447179400, 34200, 0, "ACST")
          } else {
           Table::row(467742600, 34200, 3600, "ACDT")
          }
         } else {
          if i < 38 {
           Table::row(478629000, 34200, 0, "ACST")
          } else {
           Table::row(499192200, 34200, 3600, "ACDT")
          }
         }
        } else {
         if i < 41 {
          if i < 40 {
           Table::row(511288200, 34200, 0, "ACST")
          } else {
           Table::row(530037000, 34200, 3600, "ACDT")
          }
         } else {
          if i < 42 {
           Table::row(542737800, 34200, 0, "ACST")
          } else {
           if i < 43 {
            Table::row(562091400, 34200, 3600, "ACDT")
           } else {
            Table::row(574792200, 34200, 0, "ACST")
           }
          }
         }
        }
       } else {
        if i < 48 {
         if i < 46 {
          if i < 45 {
           Table::row(594145800, 34200, 3600, "ACDT")
          } else {
           Table::row(606241800, 34200, 0, "ACST")
          }
         } else {
          if i < 47 {
           Table::row(625595400, 34200, 3600, "ACDT")
          } else {
           Table::row(637691400, 34200, 0, "ACST")
          }
         }
        } else {
         if i < 50 {
          if i < 49 {
           Table::row(657045000, 34200, 3600, "ACDT")
          } else {
           Table::row(667931400, 34200, 0, "ACST")
          }
         } else {
          if i < 51 {
           Table::row(688494600, 34200, 3600, "ACDT")
          } else {
           if i < 52 {
            Table::row(701195400, 34200, 0, "ACST")
           } else {
            Table::row(719944200, 34200, 3600, "ACDT")
           }
          }
         }
        }
       }
      } else {
       if i < 62 {
        if i < 57 {
         if i < 55 {
          if i < 54 {
           Table::row(731435400, 34200, 0, "ACST")
          } else {
           Table::row(751998600, 34200, 3600, "ACDT")
          }
         } else {
          if i < 56 {
           Table::row(764094600, 34200, 0, "ACST")
          } else {
           Table::row(783448200, 34200, 3600, "ACDT")
          }
         }
        } else {
         if i < 59 {
          if i < 58 {
           Table::row(796149000, 34200, 0, "ACST")
          } else {
           Table::row(814897800, 34200, 3600, "ACDT")
          }
         } else {
          if i < 60 {
           Table::row(828203400, 34200, 0, "ACST")
          } else {
           if i < 61 {
            Table::row(846347400, 34200, 3600, "ACDT")
           } else {
            Table::row(859653000, 34200, 0, "ACST")
           }
          }
         }
        }
       } else {
        if i < 66 {
         if i < 64 {
          if i < 63 {
           Table::row(877797000, 34200, 3600, "ACDT")
          } else {
           Table::row(891102600, 34200, 0, "ACST")
          }
         } else {
          if i < 65 {
           Table::row(909246600, 34200, 3600, "ACDT")
          } else {
           Table::row(922552200, 34200, 0, "ACST")
          }
         }
        } else {
         if i < 68 {
          if i < 67 {
           Table::row(941301000, 34200, 3600, "ACDT")
          } else {
           Table::row(954001800, 34200, 0, "ACST")
          }
         } else {
          if i < 69 {
           Table::row(972750600, 34200, 3600, "ACDT")
          } else {
           if i < 70 {
            Table::row(985451400, 34200, 0, "ACST")
           } else {
            Table::row(1004200200, 34200, 3600, "ACDT")
           }
          }
         }
        }
       }
      }
     }
    } else {
     if i < 107 {
      if i < 89 {
       if i < 80 {
        if i < 75 {
         if i < 73 {
          if i < 72 {
           Table::row(1017505800, 34200, 0, "ACST")
          } else {
           Table::row(1035649800, 34200, 3600, "ACDT")
          }
         } else {
          if i < 74 {
           Table::row(1048955400, 34200, 0, "ACST")
          } else {
           Table::row(1067099400, 34200, 3600, "ACDT")
          }
         }
        } else {
         if i < 77 {
          if i < 76 {
           Table::row(1080405000, 34200, 0, "ACST")
          } else {
           Table::row(1099153800, 34200, 3600, "ACDT")
          }
         } else {
          if i < 78 {
           Table::row(1111854600, 34200, 0, "ACST")
          } else {
           if i < 79 {
            Table::row(1130603400, 34200, 3600, "ACDT")
           } else {
            Table::row(1143909000, 34200, 0, "ACST")
           }
          }
         }
        }
       } else {
        if i < 84 {
         if i < 82 {
          if i < 81 {
           Table::row(1162053000, 34200, 3600, "ACDT")
          } else {
           Table::row(1174753800, 34200, 0, "ACST")
          }
         } else {
          if i < 83 {
           Table::row(1193502600, 34200, 3600, "ACDT")
          } else {
           Table::row(1207413000, 34200, 0, "ACST")
          }
         }
        } else {
         if i < 86 {
          if i < 85 {
           Table::row(1223137800, 34200, 3600, "ACDT")
          } else {
           Table::row(1238862600, 34200, 0, "ACST")
          }
         } else {
          if i < 87 {
           Table::row(1254587400, 34200, 3600, "ACDT")
          } else {
           if i < 88 {
            Table::row(1270312200, 34200, 0, "ACST")
           } else {
            Table::row(1286037000, 34200, 3600, "ACDT")
           }
          }
         }
        }
       }
      } else {
       if i < 98 {
        if i < 93 {
         if i < 91 {
          if i < 90 {
           Table::row(1301761800, 34200, 0, "ACST")
          } else {
           Table::row(1317486600, 34200, 3600, "ACDT")
          }
         } else {
          if i < 92 {
           Table::row(1333211400, 34200, 0, "ACST")
          } else {
           Table::row(1349541000, 34200, 3600, "ACDT")
          }
         }
        } else {
         if i < 95 {
          if i < 94 {
           Table::row(1365265800, 34200, 0, "ACST")
          } else {
           Table::row(1380990600, 34200, 3600, "ACDT")
          }
         } else {
          if i < 96 {
           Table::row(1396715400, 34200, 0, "ACST")
          } else {
           if i < 97 {
            Table::row(1412440200, 34200, 3600, "ACDT")
           } else {
            Table::row(1428165000, 34200, 0, "ACST")
           }
          }
         }
        }
       } else {
        if i < 102 {
         if i < 100 {
          if i < 99 {
           Table::row(1443889800, 34200, 3600, "ACDT")
          } else {
           Table::row(1459614600, 34200, 0, "ACST")
          }
         } else {
          if i < 101 {
           Table::row(1475339400, 34200, 3600, "ACDT")
          } else {
           Table::row(1491064200, 34200, 0, "ACST")
          }
         }
        } else {
         if i < 104 {
          if i < 103 {
           Table::row(1506789000, 34200, 3600, "ACDT")
          } else {
           Table::row(1522513800, 34200, 0, "ACST")
          }
         } else {
          if i < 105 {
           Table::row(1538843400, 34200, 3600, "ACDT")
          } else {
           if i < 106 {
            Table::row(1554568200, 34200, 0, "ACST")
           } else {
            Table::row(1570293000, 34200, 3600, "ACDT")
           }
          }
         }
        }
       }
      }
     } else {
      if i < 125 {
       if i < 116 {
        if i < 111 {
         if i < 109 {
          if i < 108 {
           Table::row(1586017800, 34200, 0, "ACST")
          } else {
           Table::row(1601742600, 34200, 3600, "ACDT")
          }
         } else {
          if i < 110 {
           Table::row(1617467400, 34200, 0, "ACST")
          } else {
           Table::row(1633192200, 34200, 3600, "ACDT")
          }
         }
        } else {
         if i < 113 {
          if i < 112 {
           Table::row(1648917000, 34200, 0, "ACST")
          } else {
           Table::row(1664641800, 34200, 3600, "ACDT")
          }
         } else {
          if i < 114 {
           Table::row(1680366600, 34200, 0, "ACST")
          } else {
           if i < 115 {
            Table::row(1696091400, 34200, 3600, "ACDT")
           } else {
            Table::row(1712421000, 34200, 0, "ACST")
           }
          }
         }
        }
       } else {
        if i < 120 {
         if i < 118 {
          if i < 117 {
           Table::row(1728145800, 34200, 3600, "ACDT")
          } else {
           Table::row(1743870600, 34200, 0, "ACST")
          }
         } else {
          if i < 119 {
           Table::row(1759595400, 34200, 3600, "ACDT")
          } else {
           Table::row(1775320200, 34200, 0, "ACST")
          }
         }
        } else {
         if i < 122 {
          if i < 121 {
           Table::row(1791045000, 34200, 3600, "ACDT")
          } else {
           Table::row(1806769800, 34200, 0, "ACST")
          }
         } else {
          if i < 123 {
           Table::row(1822494600, 34200, 3600, "ACDT")
          } else {
           if i < 124 {
            Table::row(1838219400, 34200, 0, "ACST")
           } else {
            Table::row(1853944200, 34200, 3600, "ACDT")
           }
          }
         }
        }
       }
      } else {
       if i < 134 {
        if i < 129 {
         if i < 127 {
          if i < 126 {
           Table::row(1869669000, 34200, 0, "ACST")
          } else {
           Table::row(1885998600, 34200, 3600, "ACDT")
          }
         } else {
          if i < 128 {
           Table::row(1901723400, 34200, 0, "ACST")
          } else {
           Table::row(1917448200, 34200, 3600, "ACDT")
          }
         }
        } else {
         if i < 131 {
          if i < 130 {
           Table::row(1933173000, 34200, 0, "ACST")
          } else {
           Table::row(1948897800, 34200, 3600, "ACDT")
          }
         } else {
          if i < 132 {
           Table::row(1964622600, 34200, 0, "ACST")
          } else {
           if i < 133 {
            Table::row(1980347400, 34200, 3600, "ACDT")
           } else {
            Table::row(1996072200, 34200, 0, "ACST")
           }
          }
         }
        }
       } else {
        if i < 138 {
         if i < 136 {
          if i < 135 {
           Table::row(2011797000, 34200, 3600, "ACDT")
          } else {
           Table::row(2027521800, 34200, 0, "ACST")
          }
         } else {
          if i < 137 {
           Table::row(2043246600, 34200, 3600, "ACDT")
          } else {
           Table::row(2058971400, 34200, 0, "ACST")
          }
         }
        } else {
         if i < 140 {
          if i < 139 {
           Table::row(2075301000, 34200, 3600, "ACDT")
          } else {
           Table::row(2091025800, 34200, 0, "ACST")
          }
         } else {
          if i < 141 {
           Table::row(2106750600, 34200, 3600, "ACDT")
          } else {
           if i < 142 {
            Table::row(2122475400, 34200, 0, "ACST")
           } else {
            Table::row(2138200200, 34200, 3600, "ACDT")
           }
          }
         }
        }
       }
      }
     }
    }
}

/// The rows of the table of the zone `Australia/South`.
pub open spec fn south_rows() -> spec_fn(int) -> (i64, FixedTimespan) {
    |i: int| south_row(i)
}

/// The table of the zone `Australia/South`.
pub open spec fn south() -> Table {
    Table::listed(Table::row(0, 33260, 0, "LMT").1, 143, south_rows())
}

/// Row `i` of the table of the zone `Australia/Sydney`.
pub open spec fn sydney_row(i: int) -> (i64, FixedTimespan) {
    if i < 71 {
     if i < 35 {
      if i < 17 {
       if i < 8 {
        if i < 4 {
         if i < 2 {
          if i < 1 {
           Table::row(-2364113092, 36000, 0, "AEST")
          } else {
           Table::row(-1672560000, 36000, 3600, "AEDT")
          }
         } else {
          if i < 3 {
           Table::row(-1665388800, 36000, 0, "AEST")
          } else {
           Table::row(-883641600, 36000, 3600, "AEDT")
          }
         }
        } else {
         if i < 6 {
          if i < 5 {
           Table::row(-876124800, 36000, 0, "AEST")
          } else {
           Table::row(-860400000, 36000, 3600, "AEDT")
          }
         } else {
          if i < 7 {
           Table::row(-844675200, 36000, 0, "AEST")
          } else {
           Table::row(-828345600, 36000, 3600, "AEDT")
          }
         }
        }
       } else {
        if i < 12 {
         if i < 10 {
          if i < 9 {
           Table::row(-813225600, 36000, 0, "AEST")
          } else {
           Table::row(57686400, 36000, 3600, "AEDT")
          }
         } else {
          if i < 11 {
           Table::row(67968000, 36000, 0, "AEST")
          } else {
           Table::row(89136000, 36000, 3600, "AEDT")
          }
         }
        } else {
         if i < 14 {
          if i < 13 {
           Table::row(100022400, 36000, 0, "AEST")
          } else {
           Table::row(120585600, 36000, 3600, "AEDT")
          }
         } else {
          if i < 15 {
           Table::row(131472000, 36000, 0, "AEST")
          } else {
           if i < 16 {
            Table::row(152035200, 36000, 3600, "AEDT")
           } else {
            Table::row(162921600, 36000, 0, "AEST")
           }
          }
         }
        }
       }
      } else {
       if i < 26 {
        if i < 21 {
         if i < 19 {
          if i < 18 {
           Table::row(183484800, 36000, 3600, "AEDT")
          } else {
           Table::row(194976000, 36000, 0, "AEST")
          }
         } else {
          if i < 20 {
           Table::row(215539200, 36000, 3600, "AEDT")
          } else {
           Table::row(226425600, 36000, 0, "AEST")
          }
         }
        } else {
         if i < 23 {
          if i < 22 {
           Table::row(246988800, 36000, 3600, "AEDT")
          } else {
           Table::row(257875200, 36000, 0, "AEST")
          }
         } else {
          if i < 24 {
           Table::row(278438400, 36000, 3600, "AEDT")
          } else {
           if i < 25 {
            Table::row(289324800, 36000, 0, "AEST")
           } else {
            Table::row(309888000, 36000, 3600, "AEDT")
           }
          }
         }
        }
       } else {
        if i < 30 {
         if i < 28 {
          if i < 27 {
           Table::row(320774400, 36000, 0, "AEST")
          } else {
           Table::row(341337600, 36000, 3600, "AEDT")
          }
         } else {
          if i < 29 {
           Table::row(352224000, 36000, 0, "AEST")
          } else {
           Table::row(372787200, 36000, 3600, "AEDT")
          }
         }
        } else {
         if i < 32 {
          if i < 31 {
           Table::row(386697600, 36000, 0, "AEST")
          } else {
           Table::row(404841600, 36000, 3600, "AEDT")
          }
         } else {
          if i < 33 {
           Table::row(415728000, 36000, 0, "AEST")
          } else {
           if i < 34 {
            Table::row(436291200, 36000, 3600, "AEDT")
           } else {
            Table::row(447177600, 36000, 0, "AEST")
           }
          }
         }
        }
       }
      }
     } else {
      if i < 53 {
       if i < 44 {
        if i < 39 {
         if i < 37 {
          if i < 36 {
           Table::row(467740800, 36000, 3600, "AEDT")
          } else {
           Table::row(478627200, 36000, 0, "AEST")
          }
         } else {
          if i < 38 {
           Table::row(499190400, 36000, 3600, "AEDT")
          } else {
           Table::row(511286400, 36000, 0, "AEST")
          }
         }
        } else {
         if i < 41 {
          if i < 40 {
           Table::row(530035200, 36000, 3600, "AEDT")
          } else {
           Table::row(542736000, 36000, 0, "AEST")
          }
         } else {
          if i < 42 {
           Table::row(562089600, 36000, 3600, "AEDT")
          } else {
           if i < 43 {
            Table::row(574790400, 36000, 0, "AEST")
           } else {
            Table::row(594144000, 36000, 3600, "AEDT")
           }
          }
         }
        }
       } else {
        if i < 48 {
         if i < 46 {
          if i < 45 {
           Table::row(606240000, 36000, 0, "AEST")
          } else {
           Table::row(625593600, 36000, 3600, "AEDT")
          }
         } else {
          if i < 47 {
           Table::row(636480000, 36000, 0, "AEST")
          } else {
           Table::row(657043200, 36000, 3600, "AEDT")
          }
         }
        } else {
         if i < 50 {
          if i < 49 {
           Table::row(667929600, 36000, 0, "AEST")
          } else {
           Table::row(688492800, 36000, 3600, "AEDT")
          }
         } else {
          if i < 51 {
           Table::row(699379200, 36000, 0, "AEST")
          } else {
           if i < 52 {
            Table::row(719942400, 36000, 3600, "AEDT")
           } else {
            Table::row(731433600, 36000, 0, "AEST")
           }
          }
         }
        }
       }
      } else {
       if i < 62 {
        if i < 57 {
         if i < 55 {
          if i < 54 {
           Table::row(751996800, 36000, 3600, "AEDT")
          } else {
           Table::row(762883200, 36000, 0, "AEST")
          }
         } else {
          if i < 56 {
           Table::row(783446400, 36000, 3600, "AEDT")
          } else {
           Table::row(794332800, 36000, 0, "AEST")
          }
         }
        } else {
         if i < 59 {
          if i < 58 {
           Table::row(814896000, 36000, 3600, "AEDT")
          } else {
           Table::row(828201600, 36000, 0, "AEST")
          }
         } else {
          if i < 60 {
           Table::row(846345600, 36000, 3600, "AEDT")
          } else {
           if i < 61 {
            Table::row(859651200, 36000, 0, "AEST")
           } else {
            Table::row(877795200, 36000, 3600, "AEDT")
           }
          }
         }
        }
       } else {
        if i < 66 {
         if i < 64 {
          if i < 63 {
           Table::row(891100800, 36000, 0, "AEST")
          } else {
           Table::row(909244800, 36000, 3600, "AEDT")
          }
         } else {
          if i < 65 {
           Table::row(922550400, 36000, 0, "AEST")
          } else {
           Table::row(941299200, 36000, 3600, "AEDT")
          }
         }
        } else {
         if i < 68 {
          if i < 67 {
           Table::row(954000000, 36000, 0, "AEST")
          } else {
           Table::row(967305600, 36000, 3600, "AEDT")
          }
         } else {
          if i < 69 {
           Table::row(985449600, 36000, 0, "AEST")
          } else {
           if i < 70 {
            Table::row(1004198400, 36000, 3600, "AEDT")
           } else {
            Table::row(1017504000, 36000, 0, "AEST")
           }
          }
         }
        }
       }
      }
     }
    } else {
     if i < 106 {
      if i < 88 {
       if i < 79 {
        if i < 75 {
         if i < 73 {
          if i < 72 {
           Table::row(1035648000, 36000, 3600, "AEDT")
          } else {
           Table::row(1048953600, 36000, 0, "AEST")
          }
         } else {
          if i < 74 {
           Table::row(1067097600, 36000, 3600, "AEDT")
          } else {
           Table::row(1080403200, 36000, 0, "AEST")
          }
         }
        } else {
         if i < 77 {
          if i < 76 {
           Table::row(1099152000, 36000, 3600, "AEDT")
          } else {
           Table::row(1111852800, 36000, 0, "AEST")
          }
         } else {
          if i < 78 {
           Table::row(1130601600, 36000, 3600, "AEDT")
          } else {
           Table::row(1143907200, 36000, 0, "AEST")
          }
         }
        }
       } else {
        if i < 83 {
         if i < 81 {
          if i < 80 {
           Table::row(1162051200, 36000, 3600, "AEDT")
          } else {
           Table::row(1174752000, 36000, 0, "AEST")
          }
         } else {
          if i < 82 {
           Table::row(1193500800, 36000, 3600, "AEDT")
          } else {
           Table::row(1207411200, 36000, 0, "AEST")
          }
         }
        } else {
         if i < 85 {
          if i < 84 {
           Table::row(1223136000, 36000, 3600, "AEDT")
          } else {
           Table::row(1238860800, 36000, 0, "AEST")
          }
         } else {
          if i < 86 {
           Table::row(1254585600, 36000, 3600, "AEDT")
          } else {
           if i < 87 {
            Table::row(1270310400, 36000, 0, "AEST")
           } else {
            Table::row(1286035200, 36000, 3600, "AEDT")
           }
          }
         }
        }
       }
      } else {
       if i < 97 {
        if i < 92 {
         if i < 90 {
          if i < 89 {
           Table::row(1301760000, 36000, 0, "AEST")
          } else {
           Table::row(1317484800, 36000, 3600, "AEDT")
          }
         } else {
          if i < 91 {
           Table::row(1333209600, 36000, 0, "AEST")
          } else {
           Table::row(1349539200, 36000, 3600, "AEDT")
          }
         }
        } else {
         if i < 94 {
          if i < 93 {
           Table::row(1365264000, 36000, 0, "AEST")
          } else {
           Table::row(1380988800, 36000, 3600, "AEDT")
          }
         } else {
          if i < 95 {
           Table::row(1396713600, 36000, 0, "AEST")
          } else {
           if i < 96 {
            Table::row(1412438400, 36000, 3600, "AEDT")
           } else {
            Table::row(1428163200, 36000, 0, "AEST")
           }
          }
         }
        }
       } else {
        if i < 101 {
         if i < 99 {
          if i < 98 {
           Table::row(1443888000, 36000, 3600, "AEDT")
          } else {
           Table::row(1459612800, 36000, 0, "AEST")
          }
         } else {
          if i < 100 {
           Table::row(1475337600, 36000, 3600, "AEDT")
          } else {
           Table::row(1491062400, 36000, 0, "AEST")
          }
         }
        } else {
         if i < 103 {
          if i < 102 {
           Table::row(1506787200, 36000, 3600, "AEDT")
          } else {
           Table::row(1522512000, 36000, 0, "AEST")
          }
         } else {
          if i < 104 {
           Table::row(1538841600, 36000, 3600, "AEDT")
          } else {
           if i < 105 {
            Table::row(1554566400, 36000, 0, "AEST")
           } else {
            Table::row(1570291200, 36000, 3600, "AEDT")
           }
          }
         }
        }
       }
      }
     } else {
      if i < 124 {
       if i < 115 {
        if i < 110 {
         if i < 108 {
          if i < 107 {
           Table::row(1586016000, 36000, 0, "AEST")
          } else {
           Table::row(1601740800, 36000, 3600, "AEDT")
          }
         } else {
          if i < 109 {
           Table::row(1617465600, 36000, 0, "AEST")
          } else {
           Table::row(1633190400, 36000, 3600, "AEDT")
          }
         }
        } else {
         if i < 112 {
          if i < 111 {
           Table::row(1648915200, 36000, 0, "AEST")
          } else {
           Table::row(1664640000, 36000, 3600, "AEDT")
          }
         } else {
          if i < 113 {
           Table::row(1680364800, 36000, 0, "AEST")
          } else {
           if i < 114 {
            Table::row(1696089600, 36000, 3600, "AEDT")
           } else {
            Table::row(1712419200, 36000, 0, "AEST")
           }
          }
         }
        }
       } else {
        if i < 119 {
         if i < 117 {
          if i < 116 {
           Table::row(1728144000, 36000, 3600, "AEDT")
          } else {
           Table::row(1743868800, 36000, 0, "AEST")
          }
         } else {
          if i < 118 {
           Table::row(1759593600, 36000, 3600, "AEDT")
          } else {
           Table::row(1775318400, 36000, 0, "AEST")
          }
         }
        } else {
         if i < 121 {
          if i < 120 {
           Table::row(1791043200, 36000, 3600, "AEDT")
          } else {
           Table::row(1806768000, 36000, 0, "AEST")
          }
         } else {
          if i < 122 {
           Table::row(1822492800, 36000, 3600, "AEDT")
          } else {
           if i < 123 {
            Table::row(1838217600, 36000, 0, "AEST")
           } else {
            Table::row(1853942400, 36000, 3600, "AEDT")
           }
          }
         }
        }
       }
      } else {
       if i < 133 {
        if i < 128 {
         if i < 126 {
          if i < 125 {
           Table::row(1869667200, 36000, 0, "AEST")
          } else {
           Table::row(1885996800, 36000, 3600, "AEDT")
          }
         } else {
          if i < 127 {
           Table::row(1901721600, 36000, 0, "AEST")
          } else {
           Table::row(1917446400, 36000, 3600, "AEDT")
          }
         }
        } else {
         if i < 130 {
          if i < 129 {
           Table::row(1933171200, 36000, 0, "AEST")
          } else {
           Table::row(1948896000, 36000, 3600, "AEDT")
          }
         } else {
          if i < 131 {
           Table::row(1964620800, 36000, 0, "AEST")
          } else {
           if i < 132 {
            Table::row(1980345600, 36000, 3600, "AEDT")
           } else {
            Table::row(1996070400, 36000, 0, "AEST")
           }
          }
         }
        }
       } else {
        if i < 137 {
         if i < 135 {
          if i < 134 {
           Table::row(2011795200, 36000, 3600, "AEDT")
          } else {
           Table::row(2027520000, 36000, 0, "AEST")
          }
         } else {
          if i < 136 {
           Table::row(2043244800, 36000, 3600, "AEDT")
          } else {
           Table::row(2058969600, 36000, 0, "AEST")
          }
         }
        } else {
         if i < 139 {
          if i < 138 {
           Table::row(2075299200, 36000, 3600, "AEDT")
          } else {
           Table::row(2091024000, 36000, 0, "AEST")
          }
         } else {
          if i < 140 {
           Table::row(2106748800, 36000, 3600, "AEDT")
          } else {
           if i < 141 {
            Table::row(2122473600, 36000, 0, "AEST")
           } else {
            Table::row(2138198400, 36000, 3600, "AEDT")
           }
          }
         }
        }
       }
      }
     }
    }
}

/// The rows of the table of the zone `Australia/Sydney`.
pub open spec fn sydney_rows() -> spec_fn(int) -> (i64, FixedTimespan) {
    |i: int| sydney_row(i)
}

/// The table of the zone `Australia/Sydney`.
pub open spec fn sydney() -> Table {
    Table::listed(Table::row(0, 36292, 0, "LMT").1, 142, sydney_rows())
}

/// Row `i` of the table of the zone `Australia/Tasmania`.
pub open spec fn tasmania_row(i: int) -> (i64, FixedTimespan) {
    if i < 77 {
     if i < 38 {
      if i < 19 {
       if i < 9 {
        if i < 4 {
         if i < 2 {
          if i < 1 {
           Table::row(-2345795356, 36000, 0, "AEST")
          } else {
           Table::row(-1680508800, 36000, 3600, "AEDT")
          }
         } else {
          if i < 3 {
           Table::row(-1665388800, 36000, 0, "AEST")
          } else {
           Table::row(-1646640000, 36000, 3600, "AEDT")
          }
         }
        } else {
         if i < 6 {
          if i < 5 {
           Table::row(-1635753600, 36000, 0, "AEST")
          } else {
           Table::row(-1615190400, 36000, 3600, "AEDT")
          }
         } else {
          if i < 7 {
           Table::row(-1604304000, 36000, 0, "AEST")
          } else {
           if i < 8 {
            Table::row(-883641600, 36000, 3600, "AEDT")
           } else {
            Table::row(-876124800, 36000, 0, "AEST")
           }
          }
         }
        }
       } else {
        if i < 14 {
         if i < 11 {
          if i < 10 {
           Table::row(-860400000, 36000, 3600, "AEDT")
          } else {
           Table::row(-844675200, 36000, 0, "AEST")
          }
         } else {
          if i < 12 {
           Table::row(-828345600, 36000, 3600, "AEDT")
          } else {
           if i < 13 {
            Table::row(-813225600, 36000, 0, "AEST")
           } else {
            Table::row(-71136000, 36000, 3600, "AEDT")
           }
          }
         }
        } else {
         if i < 16 {
          if i < 15 {
           Table::row(-55411200, 36000, 0, "AEST")
          } else {
           Table::row(-37267200, 36000, 3600, "AEDT")
          }
         } else {
          if i < 17 {
           Table::row(-25776000, 36000, 0, "AEST")
          } else {
           if i < 18 {
            Table::row(-5817600, 36000, 3600, "AEDT")
           } else {
            Table::row(5673600, 36000, 0, "AEST")
           }
          }
         }
        }
       }
      } else {
       if i < 28 {
        if i < 23 {
         if i < 21 {
          if i < 20 {
           Table::row(25632000, 36000, 3600, "AEDT")
          } else {
           Table::row(37728000, 36000, 0, "AEST")
          }
         } else {
          if i < 22 {
           Table::row(57686400, 36000, 3600, "AEDT")
          } else {
           Table::row(67968000, 36000, 0, "AEST")
          }
         }
        } else {
         if i < 25 {
          if i < 24 {
           Table::row(89136000, 36000, 3600, "AEDT")
          } else {
           Table::row(100022400, 36000, 0, "AEST")
          }
         } else {
          if i < 26 {
           Table::row(120585600, 36000, 3600, "AEDT")
          } else {
           if i < 27 {
            Table::row(131472000, 36000, 0, "AEST")
           } else {
            Table::row(152035200, 36000, 3600, "AEDT")
           }
          }
         }
        }
       } else {
        if i < 33 {
         if i < 30 {
          if i < 29 {
           Table::row(162921600, 36000, 0, "AEST")
          } else {
           Table::row(183484800, 36000, 3600, "AEDT")
          }
         } else {
          if i < 31 {
           Table::row(194976000, 36000, 0, "AEST")
          } else {
           if i < 32 {
            Table::row(215539200, 36000, 3600, "AEDT")
           } else {
            Table::row(226425600, 36000, 0, "AEST")
           }
          }
         }
        } else {
         if i < 35 {
          if i < 34 {
           Table::row(246988800, 36000, 3600, "AEDT")
          } else {
           Table::row(257875200, 36000, 0, "AEST")
          }
         } else {
          if i < 36 {
           Table::row(278438400, 36000, 3600, "AEDT")
          } else {
           if i < 37 {
            Table::row(289324800, 36000, 0, "AEST")
           } else {
            Table::row(309888000, 36000, 3600, "AEDT")
           }
          }
         }
        }
       }
      }
     } else {
      if i < 57 {
       if i < 47 {
        if i < 42 {
         if i < 40 {
          if i < 39 {
           Table::row(320774400, 36000, 0, "AEST")
          } else {
           Table::row(341337600, 36000, 3600, "AEDT")
          }
         } else {
          if i < 41 {
           Table::row(352224000, 36000, 0, "AEST")
          } else {
           Table::row(372787200, 36000, 3600, "AEDT")
          }
         }
        } else {
         if i < 44 {
          if i < 43 {
           Table::row(386092800, 36000, 0, "AEST")
          } else {
           Table::row(404841600, 36000, 3600, "AEDT")
          }
         } else {
          if i < 45 {
           Table::row(417542400, 36000, 0, "AEST")
          } else {
           if i < 46 {
            Table::row(436291200, 36000, 3600, "AEDT")
           } else {
            Table::row(447177600, 36000, 0, "AEST")
           }
          }
         }
        }
       } else {
        if i < 52 {
         if i < 49 {
          if i < 48 {
           Table::row(467740800, 36000, 3600, "AEDT")
          } else {
           Table::row(478627200, 36000, 0, "AEST")
          }
         } else {
          if i < 50 {
           Table::row(499190400, 36000, 3600, "AEDT")
          } else {
           if i < 51 {
            Table::row(510076800, 36000, 0, "AEST")
           } else {
            Table::row(530035200, 36000, 3600, "AEDT")
           }
          }
         }
        } else {
         if i < 54 {
          if i < 53 {
           Table::row(542736000, 36000, 0, "AEST")
          } else {
           Table::row(562089600, 36000, 3600, "AEDT")
          }
         } else {
          if i < 55 {
           Table::row(574790400, 36000, 0, "AEST")
          } else {
           if i < 56 {
            Table::row(594144000, 36000, 3600, "AEDT")
           } else {
            Table::row(606240000, 36000, 0, "AEST")
           }
          }
         }
        }
       }
      } else {
       if i < 67 {
        if i < 62 {
         if i < 59 {
          if i < 58 {
           Table::row(625593600, 36000, 3600, "AEDT")
          } else {
           Table::row(637689600, 36000, 0, "AEST")
          }
         } else {
          if i < 60 {
           Table::row(657043200, 36000, 3600, "AEDT")
          } else {
           if i < 61 {
            Table::row(670348800, 36000, 0, "AEST")
           } else {
            Table::row(686678400, 36000, 3600, "AEDT")
           }
          }
         }
        } else {
         if i < 64 {
          if i < 63 {
           Table::row(701798400, 36000, 0, "AEST")
          } else {
           Table::row(718128000, 36000, 3600, "AEDT")
          }
         } else {
          if i < 65 {
           Table::row(733248000, 36000, 0, "AEST")
          } else {
           if i < 66 {
            Table::row(749577600, 36000, 3600, "AEDT")
           } else {
            Table::row(764697600, 36000, 0, "AEST")
           }
          }
         }
        }
       } else {
        if i < 72 {
         if i < 69 {
          if i < 68 {
           Table::row(781027200, 36000, 3600, "AEDT")
          } else {
           Table::row(796147200, 36000, 0, "AEST")
          }
         } else {
          if i < 70 {
           Table::row(812476800, 36000, 3600, "AEDT")
          } else {
           if i < 71 {
            Table::row(828201600, 36000, 0, "AEST")
           } else {
            Table::row(844531200, 36000, 3600, "AEDT")
           }
          }
         }
        } else {
         if i < 74 {
          if i < 73 {
           Table::row(859651200, 36000, 0, "AEST")
          } else {
           Table::row(875980800, 36000, 3600, "AEDT")
          }
         } else {
          if i < 75 {
           Table::row(891100800, 36000, 0, "AEST")
          } else {
           if i < 76 {
            Table::row(907430400, 36000, 3600, "AEDT")
           } else {
            Table::row(922550400, 36000, 0, "AEST")
           }
          }
         }
        }
       }
      }
     }
    } else {
     if i < 115 {
      if i < 96 {
       if i < 86 {
        if i < 81 {
         if i < 79 {
          if i < 78 {
           Table::row(938880000, 36000, 3600, "AEDT")
          } else {
           Table::row(954000000, 36000, 0, "AEST")
          }
         } else {
          if i < 80 {
           Table::row(967305600, 36000, 3600, "AEDT")
          } else {
           Table::row(985449600, 36000, 0, "AEST")
          }
         }
        } else {
         if i < 83 {
          if i < 82 {
           Table::row(1002384000, 36000, 3600, "AEDT")
          } else {
           Table::row(1017504000, 36000, 0, "AEST")
          }
         } else {
          if i < 84 {
           Table::row(1033833600, 36000, 3600, "AEDT")
          } else {
           if i < 85 {
            Table::row(1048953600, 36000, 0, "AEST")
           } else {
            Table::row(1065283200, 36000, 3600, "AEDT")
           }
          }
         }
        }
       } else {
        if i < 91 {
         if i < 88 {
          if i < 87 {
           Table::row(1080403200, 36000, 0, "AEST")
          } else {
           Table::row(1096732800, 36000, 3600, "AEDT")
          }
         } else {
          if i < 89 {
           Table::row(1111852800, 36000, 0, "AEST")
          } else {
           if i < 90 {
            Table::row(1128182400, 36000, 3600, "AEDT")
           } else {
            Table::row(1143907200, 36000, 0, "AEST")
           }
          }
         }
        } else {
         if i < 93 {
          if i < 92 {
           Table::row(1159632000, 36000, 3600, "AEDT")
          } else {
           Table::row(1174752000, 36000, 0, "AEST")
          }
         } else {
          if i < 94 {
           Table::row(1191686400, 36000, 3600, "AEDT")
          } else {
           if i < 95 {
            Table::row(1207411200, 36000, 0, "AEST")
           } else {
            Table::row(1223136000, 36000, 3600, "AEDT")
           }
          }
         }
        }
       }
      } else {
       if i < 105 {
        if i < 100 {
         if i < 98 {
          if i < 97 {
           Table::row(1238860800, 36000, 0, "AEST")
          } else {
           Table::row(1254585600, 36000, 3600, "AEDT")
          }
         } else {
          if i < 99 {
           Table::row(1270310400, 36000, 0, "AEST")
          } else {
           Table::row(1286035200, 36000, 3600, "AEDT")
          }
         }
        } else {
         if i < 102 {
          if i < 101 {
           Table::row(1301760000, 36000, 0, "AEST")
          } else {
           Table::row(1317484800, 36000, 3600, "AEDT")
          }
         } else {
          if i < 103 {
           Table::row(1333209600, 36000, 0, "AEST")
          } else {
           if i < 104 {
            Table::row(1349539200, 36000, 3600, "AEDT")
           } else {
            Table::row(1365264000, 36000, 0, "AEST")
           }
          }
         }
        }
       } else {
        if i < 110 {
         if i < 107 {
          if i < 106 {
           Table::row(1380988800, 36000, 3600, "AEDT")
          } else {
           Table::row(1396713600, 36000, 0, "AEST")
          }
         } else {
          if i < 108 {
           Table::row(1412438400, 36000, 3600, "AEDT")
          } else {
           if i < 109 {
            Table::row(1428163200, 36000, 0, "AEST")
           } else {
            Table::row(1443888000, 36000, 3600, "AEDT")
           }
          }
         }
        } else {
         if i < 112 {
          if i < 111 {
           Table::row(1459612800, 36000, 0, "AEST")
          } else {
           Table::row(1475337600, 36000, 3600, "AEDT")
          }
         } else {
          if i < 113 {
           Table::row(1491062400, 36000, 0, "AEST")
          } else {
           if i < 114 {
            Table::row(1506787200, 36000, 3600, "AEDT")
           } else {
            Table::row(1522512000, 36000, 0, "AEST")
           }
          }
         }
        }
       }
      }
     } else {
      if i < 134 {
       if i < 124 {
        if i < 119 {
         if i < 117 {
          if i < 116 {
           Table::row(1538841600, 36000, 3600, "AEDT")
          } else {
           Table::row(1554566400, 36000, 0, "AEST")
          }
         } else {
          if i < 118 {
           Table::row(1570291200, 36000, 3600, "AEDT")
          } else {
           Table::row(1586016000, 36000, 0, "AEST")
          }
         }
        } else {
         if i < 121 {
          if i < 120 {
           Table::row(1601740800, 36000, 3600, "AEDT")
          } else {
           Table::row(1617465600, 36000, 0, "AEST")
          }
         } else {
          if i < 122 {
           Table::row(1633190400, 36000, 3600, "AEDT")
          } else {
           if i < 123 {
            Table::row(1648915200, 36000, 0, "AEST")
           } else {
            Table::row(1664640000, 36000, 3600, "AEDT")
           }
          }
         }
        }
       } else {
        if i < 129 {
         if i < 126 {
          if i < 125 {
           Table::row(1680364800, 36000, 0, "AEST")
          } else {
           Table::row(1696089600, 36000, 3600, "AEDT")
          }
         } else {
          if i < 127 {
           Table::row(1712419200, 36000, 0, "AEST")
          } else {
           if i < 128 {
            Table::row(1728144000, 36000, 3600, "AEDT")
           } else {
            Table::row(1743868800, 36000, 0, "AEST")
           }
          }
         }
        } else {
         if i < 131 {
          if i < 130 {
           Table::row(1759593600, 36000, 3600, "AEDT")
          } else {
           Table::row(1775318400, 36000, 0, "AEST")
          }
         } else {
          if i < 132 {
           Table::row(1791043200, 36000, 3600, "AEDT")
          } else {
           if i < 133 {
            Table::row(1806768000, 36000, 0, "AEST")
           } else {
            Table::row(1822492800, 36000, 3600, "AEDT")
           }
          }
         }
        }
       }
      } else {
       if i < 144 {
        if i < 139 {
         if i < 136 {
          if i < 135 {
           Table::row(1838217600, 36000, 0, "AEST")
          } else {
           Table::row(1853942400, 36000, 3600, "AEDT")
          }
         } else {
          if i < 137 {
           Table::row(1869667200, 36000, 0, "AEST")
          } else {
           if i < 138 {
            Table::row(1885996800, 36000, 3600, "AEDT")
           } else {
            Table::row(1901721600, 36000, 0, "AEST")
           }
          }
         }
        } else {
         if i < 141 {
          if i < 140 {
           Table::row(1917446400, 36000, 3600, "AEDT")
          } else {
           Table::row(1933171200, 36000, 0, "AEST")
          }
         } else {
          if i < 142 {
           Table::row(1948896000, 36000, 3600, "AEDT")
          } else {
           if i < 143 {
            Table::row(1964620800, 36000, 0, "AEST")
           } else {
            Table::row(1980345600, 36000, 3600, "AEDT")
           }
          }
         }
        }
       } else {
        if i < 149 {
         if i < 146 {
          if i < 145 {
           Table::row(1996070400, 36000, 0, "AEST")
          } else {
           Table::row(2011795200, 36000, 3600, "AEDT")
          }
         } else {
          if i < 147 {
           Table::row(2027520000, 36000, 0, "AEST")
          } else {
           if i < 148 {
            Table::row(2043244800, 36000, 3600, "AEDT")
           } else {
            Table::row(2058969600, 36000, 0, "AEST")
           }
          }
         }
        } else {
         if i < 151 {
          if i < 150 {
           Table::row(2075299200, 36000, 3600, "AEDT")
          } else {
           Table::row(2091024000, 36000, 0, "AEST")
          }
         } else {
          if i < 152 {
           Table::row(2106748800, 36000, 3600, "AEDT")
          } else {
           if i < 153 {
            Table::row(2122473600, 36000, 0, "AEST")
           } else {
            Table::row(2138198400, 36000, 3600, "AEDT")
           }
          }
         }
        }
       }
      }
     }
    }
}

/// The rows of the table of the zone `Australia/Tasmania`.
pub open spec fn tasmania_rows() -> spec_fn(int) -> (i64, FixedTimespan) {
    |i: int| tasmania_row(i)
}

/// The table of the zone `Australia/Tasmania`.
pub open spec fn tasmania() -> Table {
    Table::listed(Table::row(0, 35356, 0, "LMT").1, 154, tasmania_rows())
}

/// Row `i` of the table of the zone `Australia/Victoria`.
pub open spec fn victoria_row(i: int) -> (i64, FixedTimespan) {
    if i < 71 {
     if i < 35 {
      if i < 17 {
       if i < 8 {
        if i < 4 {
         if i < 2 {
          if i < 1 {
           Table::row(-2364111592, 36000, 0, "AEST")
          } else {
           Table::row(-1672560000, 36000, 3600, "AEDT")
          }
         } else {
          if i < 3 {
           Table::row(-1665388800, 36000, 0, "AEST")
          } else {
           Table::row(-883641600, 36000, 3600, "AEDT")
          }
         }
        } else {
         if i < 6 {
          if i < 5 {
           Table::row(-876124800, 36000, 0, "AEST")
          } else {
           Table::row(-860400000, 36000, 3600, "AEDT")
          }
         } else {
          if i < 7 {
           Table::row(-844675200, 36000, 0, "AEST")
          } else {
           Table::row(-828345600, 36000, 3600, "AEDT")
          }
         }
        }
       } else {
        if i < 12 {
         if i < 10 {
          if i < 9 {
           Table::row(-813225600, 36000, 0, "AEST")
          } else {
           Table::row(57686400, 36000, 3600, "AEDT")
          }
         } else {
          if i < 11 {
           Table::row(67968000, 36000, 0, "AEST")
          } else {
           Table::row(89136000, 36000, 3600, "AEDT")
          }
         }
        } else {
         if i < 14 {
          if i < 13 {
           Table::row(100022400, 36000, 0, "AEST")
          } else {
           Table::row(120585600, 36000, 3600, "AEDT")
          }
         } else {
          if i < 15 {
           Table::row(131472000, 36000, 0, "AEST")
          } else {
           if i < 16 {
            Table::row(152035200, 36000, 3600, "AEDT")
           } else {
            Table::row(162921600, 36000, 0, "AEST")
           }
          }
         }
        }
       }
      } else {
       if i < 26 {
        if i < 21 {
         if i < 19 {
          if i < 18 {
           Table::row(183484800, 36000, 3600, "AEDT")
          } else {
           Table::row(194976000, 36000, 0, "AEST")
          }
         } else {
          if i < 20 {
           Table::row(215539200, 36000, 3600, "AEDT")
          } else {
           Table::row(226425600, 36000, 0, "AEST")
          }
         }
        } else {
         if i < 23 {
          if i < 22 {
           Table::row(246988800, 36000, 3600, "AEDT")
          } else {
           Table::row(257875200, 36000, 0, "AEST")
          }
         } else {
          if i < 24 {
           Table::row(278438400, 36000, 3600, "AEDT")
          } else {
           if i < 25 {
            Table::row(289324800, 36000, 0, "AEST")
           } else {
            Table::row(309888000, 36000, 3600, "AEDT")
           }
          }
         }
        }
       } else {
        if i < 30 {
         if i < 28 {
          if i < 27 {
           Table::row(320774400, 36000, 0, "AEST")
          } else {
           Table::row(341337600, 36000, 3600, "AEDT")
          }
         } else {
          if i < 29 {
           Table::row(352224000, 36000, 0, "AEST")
          } else {
           Table::row(372787200, 36000, 3600, "AEDT")
          }
         }
        } else {
         if i < 32 {
          if i < 31 {
           Table::row(384278400, 36000, 0, "AEST")
          } else {
           Table::row(404841600, 36000, 3600, "AEDT")
          }
         } else {
          if i < 33 {
           Table::row(415728000, 36000, 0, "AEST")
          } else {
           if i < 34 {
            Table::row(436291200, 36000, 3600, "AEDT")
           } else {
            Table::row(447177600, 36000, 0, "AEST")
           }
          }
         }
        }
       }
      }
     } else {
      if i < 53 {
       if i < 44 {
        if i < 39 {
         if i < 37 {
          if i < 36 {
           Table::row(467740800, 36000, 3600, "AEDT")
          } else {
           Table::row(478627200, 36000, 0, "AEST")
          }
         } else {
          if i < 38 {
           Table::row(499190400, 36000, 3600, "AEDT")
          } else {
           Table::row(511286400, 36000, 0, "AEST")
          }
         }
        } else {
         if i < 41 {
          if i < 40 {
           Table::row(530035200, 36000, 3600, "AEDT")
          } else {
           Table::row(542736000, 36000, 0, "AEST")
          }
         } else {
          if i < 42 {
           Table::row(561484800, 36000, 3600, "AEDT")
          } else {
           if i < 43 {
            Table::row(574790400, 36000, 0, "AEST")
           } else {
            Table::row(594144000, 36000, 3600, "AEDT")
           }
          }
         }
        }
       } else {
        if i < 48 {
         if i < 46 {
          if i < 45 {
           Table::row(606240000, 36000, 0, "AEST")
          } else {
           Table::row(625593600, 36000, 3600, "AEDT")
          }
         } else {
          if i < 47 {
           Table::row(637689600, 36000, 0, "AEST")
          } else {
           Table::row(657043200, 36000, 3600, "AEDT")
          }
         }
        } else {
         if i < 50 {
          if i < 49 {
           Table::row(667929600, 36000, 0, "AEST")
          } else {
           Table::row(688492800, 36000, 3600, "AEDT")
          }
         } else {
          if i < 51 {
           Table::row(699379200, 36000, 0, "AEST")
          } else {
           if i < 52 {
            Table::row(719942400, 36000, 3600, "AEDT")
           } else {
            Table::row(731433600, 36000, 0, "AEST")
           }
          }
         }
        }
       }
      } else {
       if i < 62 {
        if i < 57 {
         if i < 55 {
          if i < 54 {
           Table::row(751996800, 36000, 3600, "AEDT")
          } else {
           Table::row(762883200, 36000, 0, "AEST")
          }
         } else {
          if i < 56 {
           Table::row(783446400, 36000, 3600, "AEDT")
          } else {
           Table::row(796147200, 36000, 0, "AEST")
          }
         }
        } else {
         if i < 59 {
          if i < 58 {
           Table::row(814896000, 36000, 3600, "AEDT")
          } else {
           Table::row(828201600, 36000, 0, "AEST")
          }
         } else {
          if i < 60 {
           Table::row(846345600, 36000, 3600, "AEDT")
          } else {
           if i < 61 {
            Table::row(859651200, 36000, 0, "AEST")
           } else {
            Table::row(877795200, 36000, 3600, "AEDT")
           }
          }
         }
        }
       } else {
        if i < 66 {
         if i < 64 {
          if i < 63 {
           Table::row(891100800, 36000, 0, "AEST")
          } else {
           Table::row(909244800, 36000, 3600, "AEDT")
          }
         } else {
          if i < 65 {
           Table::row(922550400, 36000, 0, "AEST")
          } else {
           Table::row(941299200, 36000, 3600, "AEDT")
          }
         }
        } else {
         if i < 68 {
          if i < 67 {
           Table::row(954000000, 36000, 0, "AEST")
          } else {
           Table::row(967305600, 36000, 3600, "AEDT")
          }
         } else {
          if i < 69 {
           Table::row(985449600, 36000, 0, "AEST")
          } else {
           if i < 70 {
            Table::row(1004198400, 36000, 3600, "AEDT")
           } else {
            Table::row(1017504000, 36000, 0, "AEST")
           }
          }
         }
        }
       }
      }
     }
    } else {
     if i < 106 {
      if i < 88 {
       if i < 79 {
        if i < 75 {
         if i < 73 {
          if i < 72 {
           Table::row(1035648000, 36000, 3600, "AEDT")
          } else {
           Table::row(1048953600, 36000, 0, "AEST")
          }
         } else {
          if i < 74 {
           Table::row(1067097600, 36000, 3600, "AEDT")
          } else {
           Table::row(1080403200, 36000, 0, "AEST")
          }
         }
        } else {
         if i < 77 {
          if i < 76 {
           Table::row(1099152000, 36000, 3600, "AEDT")
          } else {
           Table::row(1111852800, 36000, 0, "AEST")
          }
         } else {
          if i < 78 {
           Table::row(1130601600, 36000, 3600, "AEDT")
          } else {
           Table::row(1143907200, 36000, 0, "AEST")
          }
         }
        }
       } else {
        if i < 83 {
         if i < 81 {
          if i < 80 {
           Table::row(1162051200, 36000, 3600, "AEDT")
          } else {
           Table::row(1174752000, 36000, 0, "AEST")
          }
         } else {
          if i < 82 {
           Table::row(1193500800, 36000, 3600, "AEDT")
          } else {
           Table::row(1207411200, 36000, 0, "AEST")
          }
         }
        } else {
         if i < 85 {
          if i < 84 {
           Table::row(1223136000, 36000, 3600, "AEDT")
          } else {
           Table::row(1238860800, 36000, 0, "AEST")
          }
         } else {
          if i < 86 {
           Table::row(1254585600, 36000, 3600, "AEDT")
          } else {
           if i < 87 {
            Table::row(1270310400, 36000, 0, "AEST")
           } else {
            Table::row(1286035200, 36000, 3600, "AEDT")
           }
          }
         }
        }
       }
      } else {
       if i < 97 {
        if i < 92 {
         if i < 90 {
          if i < 89 {
           Table::row(1301760000, 36000, 0, "AEST")
          } else {
           Table::row(1317484800, 36000, 3600, "AEDT")
          }
         } else {
          if i < 91 {
           Table::row(1333209600, 36000, 0, "AEST")
          } else {
           Table::row(1349539200, 36000, 3600, "AEDT")
          }
         }
        } else {
         if i < 94 {
          if i < 93 {
           Table::row(1365264000, 36000, 0, "AEST")
          } else {
           Table::row(1380988800, 36000, 3600, "AEDT")
          }
         } else {
          if i < 95 {
           Table::row(1396713600, 36000, 0, "AEST")
          } else {
           if i < 96 {
            Table::row(1412438400, 36000, 3600, "AEDT")
           } else {
            Table::row(1428163200, 36000, 0, "AEST")
           }
          }
         }
        }
       } else {
        if i < 101 {
         if i < 99 {
          if i < 98 {
           Table::row(1443888000, 36000, 3600, "AEDT")
          } else {
           Table::row(1459612800, 36000, 0, "AEST")
          }
         } else {
          if i < 100 {
           Table::row(1475337600, 36000, 3600, "AEDT")
          } else {
           Table::row(1491062400, 36000, 0, "AEST")
          }
         }
        } else {
         if i < 103 {
          if i < 102 {
           Table::row(1506787200, 36000, 3600, "AEDT")
          } else {
           Table::row(1522512000, 36000, 0, "AEST")
          }
         } else {
          if i < 104 {
           Table::row(1538841600, 36000, 3600, "AEDT")
          } else {
           if i < 105 {
            Table::row(1554566400, 36000, 0, "AEST")
           } else {
            Table::row(1570291200, 36000, 3600, "AEDT")
           }
          }
         }
        }
       }
      }
     } else {
      if i < 124 {
       if i < 115 {
        if i < 110 {
         if i < 108 {
          if i < 107 {
           Table::row(1586016000, 36000, 0, "AEST")
          } else {
           Table::row(1601740800, 36000, 3600, "AEDT")
          }
         } else {
          if i < 109 {
           Table::row(1617465600, 36000, 0, "AEST")
          } else {
           Table::row(1633190400, 36000, 3600, "AEDT")
          }
         }
        } else {
         if i < 112 {
          if i < 111 {
           Table::row(1648915200, 36000, 0, "AEST")
          } else {
           Table::row(1664640000, 36000, 3600, "AEDT")
          }
         } else {
          if i < 113 {
           Table::row(1680364800, 36000, 0, "AEST")
          } else {
           if i < 114 {
            Table::row(1696089600, 36000, 3600, "AEDT")
           } else {
            Table::row(1712419200, 36000, 0, "AEST")
           }
          }
         }
        }
       } else {
        if i < 119 {
         if i < 117 {
          if i < 116 {
           Table::row(1728144000, 36000, 3600, "AEDT")
          } else {
           Table::row(1743868800, 36000, 0, "AEST")
          }
         } else {
          if i < 118 {
           Table::row(1759593600, 36000, 3600, "AEDT")
          } else {
           Table::row(1775318400, 36000, 0, "AEST")
          }
         }
        } else {
         if i < 121 {
          if i < 120 {
           Table::row(1791043200, 36000, 3600, "AEDT")
          } else {
           Table::row(1806768000, 36000, 0, "AEST")
          }
         } else {
          if i < 122 {
           Table::row(1822492800, 36000, 3600, "AEDT")
          } else {
           if i < 123 {
            Table::row(1838217600, 36000, 0, "AEST")
           } else {
            Table::row(1853942400, 36000, 3600, "AEDT")
           }
          }
         }
        }
       }
      } else {
       if i < 133 {
        if i < 128 {
         if i < 126 {
          if i < 125 {
           Table::row(1869667200, 36000, 0, "AEST")
          } else {
           Table::row(1885996800, 36000, 3600, "AEDT")
          }
         } else {
          if i < 127 {
           Table::row(1901721600, 36000, 0, "AEST")
          } else {
           Table::row(1917446400, 36000, 3600, "AEDT")
          }
         }
        } else {
         if i < 130 {
          if i < 129 {
           Table::row(1933171200, 36000, 0, "AEST")
          } else {
           Table::row(1948896000, 36000, 3600, "AEDT")
          }
         } else {
          if i < 131 {
           Table::row(1964620800, 36000, 0, "AEST")
          } else {
           if i < 132 {
            Table::row(1980345600, 36000, 3600, "AEDT")
           } else {
            Table::row(1996070400, 36000, 0, "AEST")
           }
          }
         }
        }
       } else {
        if i < 137 {
         if i < 135 {
          if i < 134 {
           Table::row(2011795200, 36000, 3600, "AEDT")
          } else {
           Table::row(2027520000, 36000, 0, "AEST")
          }
         } else {
          if i < 136 {
           Table::row(2043244800, 36000, 3600, "AEDT")
          } else {
           Table::row(2058969600, 36000, 0, "AEST")
          }
         }
        } else {
         if i < 139 {
          if i < 138 {
           Table::row(2075299200, 36000, 3600, "AEDT")
          } else {
           Table::row(2091024000, 36000, 0, "AEST")
          }
         } else {
          if i < 140 {
           Table::row(2106748800, 36000, 3600, "AEDT")
          } else {
           if i < 141 {
            Table::row(2122473600, 36000, 0, "AEST")
           } else {
            Table::row(2138198400, 36000, 3600, "AEDT")
           }
          }
         }
        }
       }
      }
     }
    }
}

/// The rows of the table of the zone `Australia/Victoria`.
pub open spec fn victoria_rows() -> spec_fn(int) -> (i64, FixedTimespan) {
    |i: int| victoria_row(i)
}

/// The table of the zone `Australia/Victoria`.
pub open spec fn victoria() -> Table {
    Table::listed(Table::row(0, 34792, 0, "LMT").1, 142, victoria_rows())
}

/// Row `i` of the table of the zone `Australia/West`.
pub open spec fn west_row(i: int) -> (i64, FixedTimespan) {
    if i < 9 {
     if i < 4 {
      if i < 2 {
       if i < 1 {
        Table::row(-2337925404, 28800, 0, "AWST")
       } else {
        Table::row(-1672552800, 28800, 3600, "AWDT")
       }
      } else {
       if i < 3 {
        Table::row(-1665381600, 28800, 0, "AWST")
       } else {
        Table::row(-883634400, 28800, 3600, "AWDT")
       }
      }
     } else {
      if i < 6 {
       if i < 5 {
        Table::row(-876117600, 28800, 0, "AWST")
       } else {
        Table::row(-860392800, 28800, 3600, "AWDT")
       }
      } else {
       if i < 7 {
        Table::row(-844668000, 28800, 0, "AWST")
       } else {
        if i < 8 {
         Table::row(152042400, 28800, 3600, "AWDT")
        } else {
         Table::row(162928800, 28800, 0, "AWST")
        }
       }
      }
     }
    } else {
     if i < 14 {
      if i < 11 {
       if i < 10 {
        Table::row(436298400, 28800, 3600, "AWDT")
       } else {
        Table::row(447184800, 28800, 0, "AWST")
       }
      } else {
       if i < 12 {
        Table::row(690314400, 28800, 3600, "AWDT")
       } else {
        if i < 13 {
         Table::row(699386400, 28800, 0, "AWST")
        } else {
         Table::row(1165082400, 28800, 3600, "AWDT")
        }
       }
      }
     } else {
      if i < 16 {
       if i < 15 {
        Table::row(1174759200, 28800, 0, "AWST")
       } else {
        Table::row(1193508000, 28800, 3600, "AWDT")
       }
      } else {
       if i < 17 {
        Table::row(1206813600, 28800, 0, "AWST")
       } else {
        if i < 18 {
         Table::row(1224957600, 28800, 3600, "AWDT")
        } else {
         Table::row(1238263200, 28800, 0, "AWST")
        }
       }
      }
     }
    }
}

/// The rows of the table of the zone `Australia/West`.
pub open spec fn west_rows() -> spec_fn(int) -> (i64, FixedTimespan) {
    |i: int| west_row(i)
}

/// The table of the zone `Australia/West`.
pub open spec fn west() -> Table {
    Table::listed(Table::row(0, 27804, 0, "LMT").1, 19, west_rows())
}

/// Row `i` of the table of the zone `Australia/Yancowinna`.
pub open spec fn yancowinna_row(i: int) -> (i64, FixedTimespan) {
    if i < 72 {
     if i < 36 {
      if i < 18 {
       if i < 9 {
        if i < 4 {
         if i < 2 {
          if i < 1 {
           Table::row(-2364110748, 36000, 0, "AEST")
          } else {
           Table::row(-2314951200, 32400, 0, "ACST")
          }
         } else {
          if i < 3 {
           Table::row(-2230189200, 34200, 0, "ACST")
          } else {
           Table::row(-1672558200, 34200, 3600, "ACDT")
          }
         }
        } else {
         if i < 6 {
          if i < 5 {
           Table::row(-1665387000, 34200, 0, "ACST")
          } else {
           Table::row(-883639800, 34200, 3600, "ACDT")
          }
         } else {
          if i < 7 {
           Table::row(-876123000, 34200, 0, "ACST")
          } else {
           if i < 8 {
            Table::row(-860398200, 34200, 3600, "ACDT")
           } else {
            Table::row(-844673400, 34200, 0, "ACST")
           }
          }
         }
        }
       } else {
        if i < 13 {
         if i < 11 {
          if i < 10 {
           Table::row(-828343800, 34200, 3600, "ACDT")
          } else {
           Table::row(-813223800, 34200, 0, "ACST")
          }
         } else {
          if i < 12 {
           Table::row(57688200, 34200, 3600, "ACDT")
          } else {
           Table::row(67969800, 34200, 0, "ACST")
          }
         }
        } else {
         if i < 15 {
          if i < 14 {
           Table::row(89137800, 34200, 3600, "ACDT")
          } else {
           Table::row(100024200, 34200, 0, "ACST")
          }
         } else {
          if i < 16 {
           Table::row(120587400, 34200, 3600, "ACDT")
          } else {
           if i < 17 {
            Table::row(131473800, 34200, 0, "ACST")
           } else {
            Table::row(152037000, 34200, 3600, "ACDT")
           }
          }
         }
        }
       }
      } else {
       if i < 27 {
        if i < 22 {
         if i < 20 {
          if i < 19 {
           Table::row(162923400, 34200, 0, "ACST")
          } else {
           Table::row(183486600, 34200, 3600, "ACDT")
          }
         } else {
          if i < 21 {
           Table::row(194977800, 34200, 0, "ACST")
          } else {
           Table::row(215541000, 34200, 3600, "ACDT")
          }
         }
        } else {
         if i < 24 {
          if i < 23 {
           Table::row(226427400, 34200, 0, "ACST")
          } else {
           Table::row(246990600, 34200, 3600, "ACDT")
          }
         } else {
          if i < 25 {
           Table::row(257877000, 34200, 0, "ACST")
          } else {
           if i < 26 {
            Table::row(278440200, 34200, 3600, "ACDT")
           } else {
            Table::row(289326600, 34200, 0, "ACST")
           }
          }
         }
        }
       } else {
        if i < 31 {
         if i < 29 {
          if i < 28 {
           Table::row(309889800, 34200, 3600, "ACDT")
          } else {
           Table::row(320776200, 34200, 0, "ACST")
          }
         } else {
          if i < 30 {
           Table::row(341339400, 34200, 3600, "ACDT")
          } else {
           Table::row(352225800, 34200, 0, "ACST")
          }
         }
        } else {
         if i < 33 {
          if i < 32 {
           Table::row(372789000, 34200, 3600, "ACDT")
          } else {
           Table::row(386699400, 34200, 0, "ACST")
          }
         } else {
          if i < 34 {
           Table::row(404843400, 34200, 3600, "ACDT")
          } else {
           if i < 35 {
            Table::row(415729800, 34200, 0, "ACST")
           } else {
            Table::row(436293000, 34200, 3600, "ACDT")
           }
          }
         }
        }
       }
      }
     } else {
      if i < 54 {
       if i < 45 {
        if i < 40 {
         if i < 38 {
          if i < 37 {
           Table::row(447179400, 34200, 0, "ACST")
          } else {
           Table::row(467742600, 34200, 3600, "ACDT")
          }
         } else {
          if i < 39 {
           Table::row(478629000, 34200, 0, "ACST")
          } else {
           Table::row(499192200, 34200, 3600, "ACDT")
          }
         }
        } else {
         if i < 42 {
          if i < 41 {
           Table::row(511288200, 34200, 0, "ACST")
          } else {
           Table::row(530037000, 34200, 3600, "ACDT")
          }
         } else {
          if i < 43 {
           Table::row(542737800, 34200, 0, "ACST")
          } else {
           if i < 44 {
            Table::row(562091400, 34200, 3600, "ACDT")
           } else {
            Table::row(574792200, 34200, 0, "ACST")
           }
          }
         }
        }
       } else {
        if i < 49 {
         if i < 47 {
          if i < 46 {
           Table::row(594145800, 34200, 3600, "ACDT")
          } else {
           Table::row(606241800, 34200, 0, "ACST")
          }
         } else {
          if i < 48 {
           Table::row(625595400, 34200, 3600, "ACDT")
          } else {
           Table::row(636481800, 34200, 0, "ACST")
          }
         }
        } else {
         if i < 51 {
          if i < 50 {
           Table::row(657045000, 34200, 3600, "ACDT")
          } else {
           Table::row(667931400, 34200, 0, "ACST")
          }
         } else {
          if i < 52 {
           Table::row(688494600, 34200, 3600, "ACDT")
          } else {
           if i < 53 {
            Table::row(699381000, 34200, 0, "ACST")
           } else {
            Table::row(719944200, 34200, 3600, "ACDT")
           }
          }
         }
        }
       }
      } else {
       if i < 63 {
        if i < 58 {
         if i < 56 {
          if i < 55 {
           Table::row(731435400, 34200, 0, "ACST")
          } else {
           Table::row(751998600, 34200, 3600, "ACDT")
          }
         } else {
          if i < 57 {
           Table::row(762885000, 34200, 0, "ACST")
          } else {
           Table::row(783448200, 34200, 3600, "ACDT")
          }
         }
        } else {
         if i < 60 {
          if i < 59 {
           Table::row(794334600, 34200, 0, "ACST")
          } else {
           Table::row(814897800, 34200, 3600, "ACDT")
          }
         } else {
          if i < 61 {
           Table::row(828203400, 34200, 0, "ACST")
          } else {
           if i < 62 {
            Table::row(846347400, 34200, 3600, "ACDT")
           } else {
            Table::row(859653000, 34200, 0, "ACST")
           }
          }
         }
        }
       } else {
        if i < 67 {
         if i < 65 {
          if i < 64 {
           Table::row(877797000, 34200, 3600, "ACDT")
          } else {
           Table::row(891102600, 34200, 0, "ACST")
          }
         } else {
          if i < 66 {
           Table::row(909246600, 34200, 3600, "ACDT")
          } else {
           Table::row(922552200, 34200, 0, "ACST")
          }
         }
        } else {
         if i < 69 {
          if i < 68 {
           Table::row(941301000, 34200, 3600, "ACDT")
          } else {
           Table::row(954001800, 34200, 0, "ACST")
          }
         } else {
          if i < 70 {
           Table::row(972750600, 34200, 3600, "ACDT")
          } else {
           if i < 71 {
            Table::row(985451400, 34200, 0, "ACST")
           } else {
            Table::row(1004200200, 34200, 3600, "ACDT")
           }
          }
         }
        }
       }
      }
     }
    } else {
     if i < 108 {
      if i < 90 {
       if i < 81 {
        if i < 76 {
         if i < 74 {
          if i < 73 {
           Table::row(1017505800, 34200, 0, "ACST")
          } else {
           Table::row(1035649800, 34200, 3600, "ACDT")
          }
         } else {
          if i < 75 {
           Table::row(1048955400, 34200, 0, "ACST")
          } else {
           Table::row(1067099400, 34200, 3600, "ACDT")
          }
         }
        } else {
         if i < 78 {
          if i < 77 {
           Table::row(1080405000, 34200, 0, "ACST")
          } else {
           Table::row(1099153800, 34200, 3600, "ACDT")
          }
         } else {
          if i < 79 {
           Table::row(1111854600, 34200, 0, "ACST")
          } else {
           if i < 80 {
            Table::row(1130603400, 34200, 3600, "ACDT")
           } else {
            Table::row(1143909000, 34200, 0, "ACST")
           }
          }
         }
        }
       } else {
        if i < 85 {
         if i < 83 {
          if i < 82 {
           Table::row(1162053000, 34200, 3600, "ACDT")
          } else {
           Table::row(1174753800, 34200, 0, "ACST")
          }
         } else {
          if i < 84 {
           Table::row(1193502600, 34200, 3600, "ACDT")
          } else {
           Table::row(1207413000, 34200, 0, "ACST")
          }
         }
        } else {
         if i < 87 {
          if i < 86 {
           Table::row(1223137800, 34200, 3600, "ACDT")
          } else {
           Table::row(1238862600, 34200, 0, "ACST")
          }
         } else {
          if i < 88 {
           Table::row(1254587400, 34200, 3600, "ACDT")
          } else {
           if i < 89 {
            Table::row(1270312200, 34200, 0, "ACST")
           } else {
            Table::row(1286037000, 34200, 3600, "ACDT")
           }
          }
         }
        }
       }
      } else {
       if i < 99 {
        if i < 94 {
         if i < 92 {
          if i < 91 {
           Table::row(1301761800, 34200, 0, "ACST")
          } else {
           Table::row(1317486600, 34200, 3600, "ACDT")
          }
         } else {
          if i < 93 {
           Table::row(1333211400, 34200, 0, "ACST")
          } else {
           Table::row(1349541000, 34200, 3600, "ACDT")
          }
         }
        } else {
         if i < 96 {
          if i < 95 {
           Table::row(1365265800, 34200, 0, "ACST")
          } else {
           Table::row(1380990600, 34200, 3600, "ACDT")
          }
         } else {
          if i < 97 {
           Table::row(1396715400, 34200, 0, "ACST")
          } else {
           if i < 98 {
            Table::row(1412440200, 34200, 3600, "ACDT")
           } else {
            Table::row(1428165000, 34200, 0, "ACST")
           }
          }
         }
        }
       } else {
        if i < 103 {
         if i < 101 {
          if i < 100 {
           Table::row(1443889800, 34200, 3600, "ACDT")
          } else {
           Table::row(1459614600, 34200, 0, "ACST")
          }
         } else {
          if i < 102 {
           Table::row(1475339400, 34200, 3600, "ACDT")
          } else {
           Table::row(1491064200, 34200, 0, "ACST")
          }
         }
        } else {
         if i < 105 {
          if i < 104 {
           Table::row(1506789000, 34200, 3600, "ACDT")
          } else {
           Table::row(1522513800, 34200, 0, "ACST")
          }
         } else {
          if i < 106 {
           Table::row(1538843400, 34200, 3600, "ACDT")
          } else {
           if i < 107 {
            Table::row(1554568200, 34200, 0, "ACST")
           } else {
            Table::row(1570293000, 34200, 3600, "ACDT")
           }
          }
         }
        }
       }
      }
     } else {
      if i < 126 {
       if i < 117 {
        if i < 112 {
         if i < 110 {
          if i < 109 {
           Table::row(1586017800, 34200, 0, "ACST")
          } else {
           Table::row(1601742600, 34200, 3600, "ACDT")
          }
         } else {
          if i < 111 {
           Table::row(1617467400, 34200, 0, "ACST")
          } else {
           Table::row(1633192200, 34200, 3600, "ACDT")
          }
         }
        } else {
         if i < 114 {
          if i < 113 {
           Table::row(1648917000, 34200, 0, "ACST")
          } else {
           Table::row(1664641800, 34200, 3600, "ACDT")
          }
         } else {
          if i < 115 {
           Table::row(1680366600, 34200, 0, "ACST")
          } else {
           if i < 116 {
            Table::row(1696091400, 34200, 3600, "ACDT")
           } else {
            Table::row(1712421000, 34200, 0, "ACST")
           }
          }
         }
        }
       } else {
        if i < 121 {
         if i < 119 {
          if i < 118 {
           Table::row(1728145800, 34200, 3600, "ACDT")
          } else {
           Table::row(1743870600, 34200, 0, "ACST")
          }
         } else {
          if i < 120 {
           Table::row(1759595400, 34200, 3600, "ACDT")
          } else {
           Table::row(1775320200, 34200, 0, "ACST")
          }
         }
        } else {
         if i < 123 {
          if i < 122 {
           Table::row(1791045000, 34200, 3600, "ACDT")
          } else {
           Table::row(1806769800, 34200, 0, "ACST")
          }
         } else {
          if i < 124 {
           Table::row(1822494600, 34200, 3600, "ACDT")
          } else {
           if i < 125 {
            Table::row(1838219400, 34200, 0, "ACST")
           } else {
            Table::row(1853944200, 34200, 3600, "ACDT")
           }
          }
         }
        }
       }
      } else {
       if i < 135 {
        if i < 130 {
         if i < 128 {
          if i < 127 {
           Table::row(1869669000, 34200, 0, "ACST")
          } else {
           Table::row(1885998600, 34200, 3600, "ACDT")
          }
         } else {
          if i < 129 {
           Table::row(1901723400, 34200, 0, "ACST")
          } else {
           Table::row(1917448200, 34200, 3600, "ACDT")
          }
         }
        } else {
         if i < 132 {
          if i < 131 {
           Table::row(1933173000, 34200, 0, "ACST")
          } else {
           Table::row(1948897800, 34200, 3600, "ACDT")
          }
         } else {
          if i < 133 {
           Table::row(1964622600, 34200, 0, "ACST")
          } else {
           if i < 134 {
            Table::row(1980347400, 34200, 3600, "ACDT")
           } else {
            Table::row(1996072200, 34200, 0, "ACST")
           }
          }
         }
        }
       } else {
        if i < 139 {
         if i < 137 {
          if i < 136 {
           Table::row(2011797000, 34200, 3600, "ACDT")
          } else {
           Table::row(2027521800, 34200, 0, "ACST")
          }
         } else {
          if i < 138 {
           Table::row(2043246600, 34200, 3600, "ACDT")
          } else {
           Table::row(2058971400, 34200, 0, "ACST")
          }
         }
        } else {
         if i < 141 {
          if i < 140 {
           Table::row(2075301000, 34200, 3600, "ACDT")
          } else {
           Table::row(2091025800, 34200, 0, "ACST")
          }
         } else {
          if i < 142 {
           Table::row(2106750600, 34200, 3600, "ACDT")
          } else {
           if i < 143 {
            Table::row(2122475400, 34200, 0, "ACST")
           } else {
            Table::row(2138200200, 34200, 3600, "ACDT")
           }
          }
         }
        }
       }
      }
     }
    }
}

/// The rows of the table of the zone `Australia/Yancowinna`.
pub open spec fn yancowinna_rows() -> spec_fn(int) -> (i64, FixedTimespan) {
    |i: int| yancowinna_row(i)
}

/// The table of the zone `Australia/Yancowinna`.
pub open spec fn yancowinna() -> Table {
    Table::listed(Table::row(0, 33948, 0, "LMT").1, 144, yancowinna_rows())
}

} // verus!
