//! The tables of the zones of Mexico, under their older names.

use crate::timezone_impl::{FixedTimespan, Table};
use vstd::prelude::*;

verus! {

/// Row `i` of the table of the zone `Mexico/BajaNorte`.
pub open spec fn bajanorte_row(i: int) -> (i64, FixedTimespan) {
    if i < 77 {
     if i < 38 {
      if i < 19 {
       if i < 9 {
        if i < 4 {
         if i < 2 {
          if i < 1 {
           Table::row(-1514739600, -25200, 0, "MST")
          } else {
           Table::row(-1451667600, -28800, 0, "PST")
          }
         } else {
          if i < 3 {
           Table::row(-1343145600, -25200, 0, "MST")
          } else {
           Table::row(-1234803600, -28800, 0, "PST")
          }
         }
        } else {
         if i < 6 {
          if i < 5 {
           Table::row(-1222963200, -28800, 3600, "PDT")
          } else {
           Table::row(-1207242000, -28800, 0, "PST")
          }
         } else {
          if i < 7 {
           Table::row(-873820800, -28800, 3600, "PWT")
          } else {
           if i < 8 {
            Table::row(-769395600, -28800, 3600, "PPT")
           } else {
            Table::row(-761418000, -28800, 0, "PST")
           }
          }
         }
        }
       } else {
        if i < 14 {
         if i < 11 {
          if i < 10 {
           Table::row(-686073600, -28800, 3600, "PDT")
          } else {
           Table::row(-661539600, -28800, 0, "PST")
          }
         } else {
          if i < 12 {
           Table::row(-620755200, -28800, 3600, "PDT")
          } else {
           if i < 13 {
            Table::row(-608144400, -28800, 0, "PST")
           } else {
            Table::row(-589384800, -28800, 3600, "PDT")
           }
          }
         }
        } else {
         if i < 16 {
          if i < 15 {
           Table::row(-576082800, -28800, 0, "PST")
          } else {
           Table::row(-557935200, -28800, 3600, "PDT")
          }
         } else {
          if i < 17 {
           Table::row(-544633200, -28800, 0, "PST")
          } else {
           if i < 18 {
            Table::row(-495039600, -28800, 3600, "PDT")
           } else {
            Table::row(-481734000, -28800, 0, "PST")
           }
          }
         }
        }
       }
      } else {
       if i < 28 {
        if i < 23 {
         if i < 21 {
          if i < 20 {
           Table::row(-463590000, -28800, 3600, "PDT")
          } else {
           Table::row(-450284400, -28800, 0, "PST")
          }
         } else {
          if i < 22 {
           Table::row(-431535600, -28800, 3600, "PDT")
          } else {
           Table::row(-418230000, -28800, 0, "PST")
          }
         }
        } else {
         if i < 25 {
          if i < 24 {
           Table::row(-400086000, -28800, 3600, "PDT")
          } else {
           Table::row(-386780400, -28800, 0, "PST")
          }
         } else {
          if i < 26 {
           Table::row(-368636400, -28800, 3600, "PDT")
          } else {
           if i < 27 {
            Table::row(-355330800, -28800, 0, "PST")
           } else {
            Table::row(-337186800, -28800, 3600, "PDT")
           }
          }
         }
        }
       } else {
        if i < 33 {
         if i < 30 {
          if i < 29 {
           Table::row(-323881200, -28800, 0, "PST")
          } else {
           Table::row(-305737200, -28800, 3600, "PDT")
          }
         } else {
          if i < 31 {
           Table::row(-292431600, -28800, 0, "PST")
          } else {
           if i < 32 {
            Table::row(199274400, -28800, 3600, "PDT")
           } else {
            Table::row(215600400, -28800, 0, "PST")
           }
          }
         }
        } else {
         if i < 35 {
          if i < 34 {
           Table::row(230724000, -28800, 3600, "PDT")
          } else {
           Table::row(247050000, -28800, 0, "PST")
          }
         } else {
          if i < 36 {
           Table::row(262778400, -28800, 3600, "PDT")
          } else {
           if i < 37 {
            Table::row(278499600, -28800, 0, "PST")
           } else {
            Table::row(294228000, -28800, 3600, "PDT")
           }
          }
         }
        }
       }
      }
     } else {
      if i < 57 {
       if i < 47 {
        if i < 42 {
         if i < 40 {
          if i < 39 {
           Table::row(309949200, -28800, 0, "PST")
          } else {
           Table::row(325677600, -28800, 3600, "PDT")
          }
         } else {
          if i < 41 {
           Table::row(341398800, -28800, 0, "PST")
          } else {
           Table::row(357127200, -28800, 3600, "PDT")
          }
         }
        } else {
         if i < 44 {
          if i < 43 {
           Table::row(372848400, -28800, 0, "PST")
          } else {
           Table::row(388576800, -28800, 3600, "PDT")
          }
         } else {
          if i < 45 {
           Table::row(404902800, -28800, 0, "PST")
          } else {
           if i < 46 {
            Table::row(420026400, -28800, 3600, "PDT")
           } else {
            Table::row(436352400, -28800, 0, "PST")
           }
          }
         }
        }
       } else {
        if i < 52 {
         if i < 49 {
          if i < 48 {
           Table::row(452080800, -28800, 3600, "PDT")
          } else {
           Table::row(467802000, -28800, 0, "PST")
          }
         } else {
          if i < 50 {
           Table::row(483530400, -28800, 3600, "PDT")
          } else {
           if i < 51 {
            Table::row(499251600, -28800, 0, "PST")
           } else {
            Table::row(514980000, -28800, 3600, "PDT")
           }
          }
         }
        } else {
         if i < 54 {
          if i < 53 {
           Table::row(530701200, -28800, 0, "PST")
          } else {
           Table::row(544615200, -28800, 3600, "PDT")
          }
         } else {
          if i < 55 {
           Table::row(562150800, -28800, 0, "PST")
          } else {
           if i < 56 {
            Table::row(576064800, -28800, 3600, "PDT")
           } else {
            Table::row(594205200, -28800, 0, "PST")
           }
          }
         }
        }
       }
      } else {
       if i < 67 {
        if i < 62 {
         if i < 59 {
          if i < 58 {
           Table::row(607514400, -28800, 3600, "PDT")
          } else {
           Table::row(625654800, -28800, 0, "PST")
          }
         } else {
          if i < 60 {
           Table::row(638964000, -28800, 3600, "PDT")
          } else {
           if i < 61 {
            Table::row(657104400, -28800, 0, "PST")
           } else {
            Table::row(671018400, -28800, 3600, "PDT")
           }
          }
         }
        } else {
         if i < 64 {
          if i < 63 {
           Table::row(688554000, -28800, 0, "PST")
          } else {
           Table::row(702468000, -28800, 3600, "PDT")
          }
         } else {
          if i < 65 {
           Table::row(720003600, -28800, 0, "PST")
          } else {
           if i < 66 {
            Table::row(733917600, -28800, 3600, "PDT")
           } else {
            Table::row(752058000, -28800, 0, "PST")
           }
          }
         }
        }
       } else {
        if i < 72 {
         if i < 69 {
          if i < 68 {
           Table::row(765367200, -28800, 3600, "PDT")
          } else {
           Table::row(783507600, -28800, 0, "PST")
          }
         } else {
          if i < 70 {
           Table::row(796816800, -28800, 3600, "PDT")
          } else {
           if i < 71 {
            Table::row(814957200, -28800, 0, "PST")
           } else {
            Table::row(828871200, -28800, 3600, "PDT")
           }
          }
         }
        } else {
         if i < 74 {
          if i < 73 {
           Table::row(846406800, -28800, 0, "PST")
          } else {
           Table::row(860320800, -28800, 3600, "PDT")
          }
         } else {
          if i < 75 {
           Table::row(877856400, -28800, 0, "PST")
          } else {
           if i < 76 {
            Table::row(891770400, -28800, 3600, "PDT")
           } else {
            Table::row(909306000, -28800, 0, "PST")
           }
          }
         }
        }
       }
      }
     }
    } else {
     if i < 116 {
      if i < 96 {
       if i < 86 {
        if i < 81 {
         if i < 79 {
          if i < 78 {
           Table::row(923220000, -28800, 3600, "PDT")
          } else {
           Table::row(941360400, -28800, 0, "PST")
          }
         } else {
          if i < 80 {
           Table::row(954669600, -28800, 3600, "PDT")
          } else {
           Table::row(972810000, -28800, 0, "PST")
          }
         }
        } else {
         if i < 83 {
          if i < 82 {
           Table::row(986119200, -28800, 3600, "PDT")
          } else {
           Table::row(1004259600, -28800, 0, "PST")
          }
         } else {
          if i < 84 {
           Table::row(1018173600, -28800, 3600, "PDT")
          } else {
           if i < 85 {
            Table::row(1035709200, -28800, 0, "PST")
           } else {
            Table::row(1049623200, -28800, 3600, "PDT")
           }
          }
         }
        }
       } else {
        if i < 91 {
         if i < 88 {
          if i < 87 {
           Table::row(1067158800, -28800, 0, "PST")
          } else {
           Table::row(1081072800, -28800, 3600, "PDT")
          }
         } else {
          if i < 89 {
           Table::row(1099213200, -28800, 0, "PST")
          } else {
           if i < 90 {
            Table::row(1112522400, -28800, 3600, "PDT")
           } else {
            Table::row(1130662800, -28800, 0, "PST")
           }
          }
         }
        } else {
         if i < 93 {
          if i < 92 {
           Table::row(1143972000, -28800, 3600, "PDT")
          } else {
           Table::row(1162112400, -28800, 0, "PST")
          }
         } else {
          if i < 94 {
           Table::row(1175421600, -28800, 3600, "PDT")
          } else {
           if i < 95 {
            Table::row(1193562000, -28800, 0, "PST")
           } else {
            Table::row(1207476000, -28800, 3600, "PDT")
           }
          }
         }
        }
       }
      } else {
       if i < 106 {
        if i < 101 {
         if i < 98 {
          if i < 97 {
           Table::row(1225011600, -28800, 0, "PST")
          } else {
           Table::row(1238925600, -28800, 3600, "PDT")
          }
         } else {
          if i < 99 {
           Table::row(1256461200, -28800, 0, "PST")
          } else {
           if i < 100 {
            Table::row(1268560800, -28800, 3600, "PDT")
           } else {
            Table::row(1289120400, -28800, 0, "PST")
           }
          }
         }
        } else {
         if i < 103 {
          if i < 102 {
           Table::row(1300010400, -28800, 3600, "PDT")
          } else {
           Table::row(1320570000, -28800, 0, "PST")
          }
         } else {
          if i < 104 {
           Table::row(1331460000, -28800, 3600, "PDT")
          } else {
           if i < 105 {
            Table::row(1352019600, -28800, 0, "PST")
           } else {
            Table::row(1362909600, -28800, 3600, "PDT")
           }
          }
         }
        }
       } else {
        if i < 111 {
         if i < 108 {
          if i < 107 {
           Table::row(1383469200, -28800, 0, "PST")
          } else {
           Table::row(1394359200, -28800, 3600, "PDT")
          }
         } else {
          if i < 109 {
           Table::row(1414918800, -28800, 0, "PST")
          } else {
           if i < 110 {
            Table::row(1425808800, -28800, 3600, "PDT")
           } else {
            Table::row(1446368400, -28800, 0, "PST")
           }
          }
         }
        } else {
         if i < 113 {
          if i < 112 {
           Table::row(1457863200, -28800, 3600, "PDT")
          } else {
           Table::row(1478422800, -28800, 0, "PST")
          }
         } else {
          if i < 114 {
           Table::row(1489312800, -28800, 3600, "PDT")
          } else {
           if i < 115 {
            Table::row(1509872400, -28800, 0, "PST")
           } else {
            Table::row(1520762400, -28800, 3600, "PDT")
           }
          }
         }
        }
       }
      }
     } else {
      if i < 135 {
       if i < 125 {
        if i < 120 {
         if i < 118 {
          if i < 117 {
           Table::row(1541322000, -28800, 0, "PST")
          } else {
           Table::row(1552212000, -28800, 3600, "PDT")
          }
         } else {
          if i < 119 {
           Table::row(1572771600, -28800, 0, "PST")
          } else {
           Table::row(1583661600, -28800, 3600, "PDT")
          }
         }
        } else {
         if i < 122 {
          if i < 121 {
           Table::row(1604221200, -28800, 0, "PST")
          } else {
           Table::row(1615716000, -28800, 3600, "PDT")
          }
         } else {
          if i < 123 {
           Table::row(1636275600, -28800, 0, "PST")
          } else {
           if i < 124 {
            Table::row(1647165600, -28800, 3600, "PDT")
           } else {
            Table::row(1667725200, -28800, 0, "PST")
           }
          }
         }
        }
       } else {
        if i < 130 {
         if i < 127 {
          if i < 126 {
           Table::row(1678615200, -28800, 3600, "PDT")
          } else {
           Table::row(1699174800, -28800, 0, "PST")
          }
         } else {
          if i < 128 {
           Table::row(1710064800, -28800, 3600, "PDT")
          } else {
           if i < 129 {
            Table::row(1730624400, -28800, 0, "PST")
           } else {
            Table::row(1741514400, -28800, 3600, "PDT")
           }
          }
         }
        } else {
         if i < 132 {
          if i < 131 {
           Table::row(1762074000, -28800, 0, "PST")
          } else {
           Table::row(1772964000, -28800, 3600, "PDT")
          }
         } else {
          if i < 133 {
           Table::row(1793523600, -28800, 0, "PST")
          } else {
           if i < 134 {
            Table::row(1805018400, -28800, 3600, "PDT")
           } else {
            Table::row(1825578000, -28800, 0, "PST")
           }
          }
         }
        }
       }
      } else {
       if i < 145 {
        if i < 140 {
         if i < 137 {
          if i < 136 {
           Table::row(1836468000, -28800, 3600, "PDT")
          } else {
           Table::row(1857027600, -28800, 0, "PST")
          }
         } else {
          if i < 138 {
           Table::row(1867917600, -28800, 3600, "PDT")
          } else {
           if i < 139 {
            Table::row(1888477200, -28800, 0, "PST")
           } else {
            Table::row(1899367200, -28800, 3600, "PDT")
           }
          }
         }
        } else {
         if i < 142 {
          if i < 141 {
           Table::row(1919926800, -28800, 0, "PST")
          } else {
           Table::row(1930816800, -28800, 3600, "PDT")
          }
         } else {
          if i < 143 {
           Table::row(1951376400, -28800, 0, "PST")
          } else {
           if i < 144 {
            Table::row(1962871200, -28800, 3600, "PDT")
           } else {
            Table::row(1983430800, -28800, 0, "PST")
           }
          }
         }
        }
       } else {
        if i < 150 {
         if i < 147 {
          if i < 146 {
           Table::row(1994320800, -28800, 3600, "PDT")
          } else {
           Table::row(2014880400, -28800, 0, "PST")
          }
         } else {
          if i < 148 {
           Table::row(2025770400, -28800, 3600, "PDT")
          } else {
           if i < 149 {
            Table::row(2046330000, -28800, 0, "PST")
           } else {
            Table::row(2057220000, -28800, 3600, "PDT")
           }
          }
         }
        } else {
         if i < 152 {
          if i < 151 {
           Table::row(2077779600, -28800, 0, "PST")
          } else {
           Table::row(2088669600, -28800, 3600, "PDT")
          }
         } else {
          if i < 153 {
           Table::row(2109229200, -28800, 0, "PST")
          } else {
           if i < 154 {
            Table::row(2120119200, -28800, 3600, "PDT")
           } else {
            Table::row(2140678800, -28800, 0, "PST")
           }
          }
         }
        }
       }
      }
     }
    }
}

/// The rows of the table of the zone `Mexico/BajaNorte`.
pub open spec fn bajanorte_rows() -> spec_fn(int) -> (i64, FixedTimespan) {
    |i: int| bajanorte_row(i)
}

/// The table of the zone `Mexico/BajaNorte`.
pub open spec fn bajanorte() -> Table {
    Table::listed(Table::row(0, -28084, 0, "LMT").1, 155, bajanorte_rows())
}

/// Row `i` of the table of the zone `Mexico/BajaSur`.
pub open spec fn bajasur_row(i: int) -> (i64, FixedTimespan) {
    if i < 30 {
     if i < 15 {
      if i < 7 {
       if i < 3 {
        if i < 1 {
         Table::row(-1514739600, -25200, 0, "MST")
        } else {
         if i < 2 {
          Table::row(-1343149200, -21600, 0, "CST")
         } else {
          Table::row(-1234807200, -25200, 0, "MST")
         }
        }
       } else {
        if i < 5 {
         if i < 4 {
          Table::row(-1220461200, -25200, 3600, "MDT")
         } else {
          Table::row(-1207159200, -25200, 0, "MST")
         }
        } else {
         if i < 6 {
          Table::row(-1191344400, -21600, 0, "CST")
         } else {
          Table::row(-873828000, -25200, 0, "MST")
         }
        }
       }
      } else {
       if i < 11 {
        if i < 9 {
         if i < 8 {
          Table::row(828867600, -25200, 3600, "MDT")
         } else {
          Table::row(846403200, -25200, 0, "MST")
         }
        } else {
         if i < 10 {
          Table::row(860317200, -25200, 3600, "MDT")
         } else {
          Table::row(877852800, -25200, 0, "MST")
         }
        }
       } else {
        if i < 13 {
         if i < 12 {
          Table::row(891766800, -25200, 3600, "MDT")
         } else {
          Table::row(909302400, -25200, 0, "MST")
         }
        } else {
         if i < 14 {
          Table::row(923216400, -25200, 3600, "MDT")
         } else {
          Table::row(941356800, -25200, 0, "MST")
         }
        }
       }
      }
     } else {
      if i < 22 {
       if i < 18 {
        if i < 16 {
         Table::row(954666000, -25200, 3600, "MDT")
        } else {
         if i < 17 {
          Table::row(972806400, -25200, 0, "MST")
         } else {
          Table::row(989139600, -25200, 3600, "MDT")
         }
        }
       } else {
        if i < 20 {
         if i < 19 {
          Table::row(1001836800, -25200, 0, "MST")
         } else {
          Table::row(1018170000, -25200, 3600, "MDT")
         }
        } else {
         if i < 21 {
          Table::row(1035705600, -25200, 0, "MST")
         } else {
          Table::row(1049619600, -25200, 3600, "MDT")
         }
        }
       }
      } else {
       if i < 26 {
        if i < 24 {
         if i < 23 {
          Table::row(1067155200, -25200, 0, "MST")
         } else {
          Table::row(1081069200, -25200, 3600, "MDT")
         }
        } else {
         if i < 25 {
          Table::row(1099209600, -25200, 0, "MST")
         } else {
          Table::row(1112518800, -25200, 3600, "MDT")
         }
        }
       } else {
        if i < 28 {
         if i < 27 {
          Table::row(1130659200, -25200, 0, "MST")
         } else {
          Table::row(1143968400, -25200, 3600, "MDT")
         }
        } else {
         if i < 29 {
          Table::row(1162108800, -25200, 0, "MST")
         } else {
          Table::row(1175418000, -25200, 3600, "MDT")
         }
        }
       }
      }
     }
    } else {
     if i < 45 {
      if i < 37 {
       if i < 33 {
        if i < 31 {
         Table::row(1193558400, -25200, 0, "MST")
        } else {
         if i < 32 {
          Table::row(1207472400, -25200, 3600, "MDT")
         } else {
          Table::row(1225008000, -25200, 0, "MST")
         }
        }
       } else {
        if i < 35 {
         if i < 34 {
          Table::row(1238922000, -25200, 3600, "MDT")
         } else {
          Table::row(1256457600, -25200, 0, "MST")
         }
        } else {
         if i < 36 {
          Table::row(1270371600, -25200, 3600, "MDT")
         } else {
          Table::row(1288512000, -25200, 0, "MST")
         }
        }
       }
      } else {
       if i < 41 {
        if i < 39 {
         if i < 38 {
          Table::row(1301821200, -25200, 3600, "MDT")
         } else {
          Table::row(1319961600, -25200, 0, "MST")
         }
        } else {
         if i < 40 {
          Table::row(1333270800, -25200, 3600, "MDT")
         } else {
          Table::row(1351411200, -25200, 0, "MST")
         }
        }
       } else {
        if i < 43 {
         if i < 42 {
          Table::row(1365325200, -25200, 3600, "MDT")
         } else {
          Table::row(1382860800, -25200, 0, "MST")
         }
        } else {
         if i < 44 {
          Table::row(1396774800, -25200, 3600, "MDT")
         } else {
          Table::row(1414310400, -25200, 0, "MST")
         }
        }
       }
      }
     } else {
      if i < 53 {
       if i < 49 {
        if i < 47 {
         if i < 46 {
          Table::row(1428224400, -25200, 3600, "MDT")
         } else {
          Table::row(1445760000, -25200, 0, "MST")
         }
        } else {
         if i < 48 {
          Table::row(1459674000, -25200, 3600, "MDT")
         } else {
          Table::row(1477814400, -25200, 0, "MST")
         }
        }
       } else {
        if i < 51 {
         if i < 50 {
          Table::row(1491123600, -25200, 3600, "MDT")
         } else {
          Table::row(1509264000, -25200, 0, "MST")
         }
        } else {
         if i < 52 {
          Table::row(1522573200, -25200, 3600, "MDT")
         } else {
          Table::row(1540713600, -25200, 0, "MST")
         }
        }
       }
      } else {
       if i < 57 {
        if i < 55 {
         if i < 54 {
          Table::row(1554627600, -25200, 3600, "MDT")
         } else {
          Table::row(1572163200, -25200, 0, "MST")
         }
        } else {
         if i < 56 {
          Table::row(1586077200, -25200, 3600, "MDT")
         } else {
          Table::row(1603612800, -25200, 0, "MST")
         }
        }
       } else {
        if i < 59 {
         if i < 58 {
          Table::row(1617526800, -25200, 3600, "MDT")
         } else {
          Table::row(1635667200, -25200, 0, "MST")
         }
        } else {
         if i < 60 {
          Table::row(1648976400, -25200, 3600, "MDT")
         } else {
          Table::row(1667116800, -25200, 0, "MST")
         }
        }
       }
      }
     }
    }
}

/// The rows of the table of the zone `Mexico/BajaSur`.
pub open spec fn bajasur_rows() -> spec_fn(int) -> (i64, FixedTimespan) {
    |i: int| bajasur_row(i)
}

/// The table of the zone `Mexico/BajaSur`.
pub open spec fn bajasur() -> Table {
    Table::listed(Table::row(0, -25540, 0, "LMT").1, 61, bajasur_rows())
}

/// Row `i` of the table of the zone `Mexico/General`.
pub open spec fn general_row(i: int) -> (i64, FixedTimespan) {
    if i < 34 {
     if i < 17 {
      if i < 8 {
       if i < 4 {
        if i < 2 {
         if i < 1 {
          Table::row(-1514739600, -25200, 0, "MST")
         } else {
          Table::row(-1343149200, -21600, 0, "CST")
         }
        } else {
         if i < 3 {
          Table::row(-1234807200, -25200, 0, "MST")
         } else {
          Table::row(-1220461200, -25200, 3600, "MDT")
         }
        }
       } else {
        if i < 6 {
         if i < 5 {
          Table::row(-1207159200, -25200, 0, "MST")
         } else {
          Table::row(-1191344400, -21600, 0, "CST")
         }
        } else {
         if i < 7 {
          Table::row(-975261600, -21600, 3600, "CDT")
         } else {
          Table::row(-963169200, -21600, 0, "CST")
         }
        }
       }
      } else {
       if i < 12 {
        if i < 10 {
         if i < 9 {
          Table::row(-917114400, -21600, 3600, "CDT")
         } else {
          Table::row(-907354800, -21600, 0, "CST")
         }
        } else {
         if i < 11 {
          Table::row(-821901600, -21600, 3600, "CWT")
         } else {
          Table::row(-810068400, -21600, 0, "CST")
         }
        }
       } else {
        if i < 14 {
         if i < 13 {
          Table::row(-627501600, -21600, 3600, "CDT")
         } else {
          Table::row(-612990000, -21600, 0, "CST")
         }
        } else {
         if i < 15 {
          Table::row(828864000, -21600, 3600, "CDT")
         } else {
          if i < 16 {
           Table::row(846399600, -21600, 0, "CST")
          } else {
           Table::row(860313600, -21600, 3600, "CDT")
          }
         }
        }
       }
      }
     } else {
      if i < 25 {
       if i < 21 {
        if i < 19 {
         if i < 18 {
          Table::row(877849200, -21600, 0, "CST")
         } else {
          Table::row(891763200, -21600, 3600, "CDT")
         }
        } else {
         if i < 20 {
          Table::row(909298800, -21600, 0, "CST")
         } else {
          Table::row(923212800, -21600, 3600, "CDT")
         }
        }
       } else {
        if i < 23 {
         if i < 22 {
          Table::row(941353200, -21600, 0, "CST")
         } else {
          Table::row(954662400, -21600, 3600, "CDT")
         }
        } else {
         if i < 24 {
          Table::row(972802800, -21600, 0, "CST")
         } else {
          Table::row(989136000, -21600, 3600, "CDT")
         }
        }
       }
      } else {
       if i < 29 {
        if i < 27 {
         if i < 26 {
          Table::row(1001833200, -21600, 0, "CST")
         } else {
          Table::row(1018166400, -21600, 3600, "CDT")
         }
        } else {
         if i < 28 {
          Table::row(1035702000, -21600, 0, "CST")
         } else {
          Table::row(1049616000, -21600, 3600, "CDT")
         }
        }
       } else {
        if i < 31 {
         if i < 30 {
          Table::row(1067151600, -21600, 0, "CST")
         } else {
          Table::row(1081065600, -21600, 3600, "CDT")
         }
        } else {
         if i < 32 {
          Table::row(1099206000, -21600, 0, "CST")
         } else {
          if i < 33 {
           Table::row(1112515200, -21600, 3600, "CDT")
          } else {
           Table::row(1130655600, -21600, 0, "CST")
          }
         }
        }
       }
      }
     }
    } else {
     if i < 51 {
      if i < 42 {
       if i < 38 {
        if i < 36 {
         if i < 35 {
          Table::row(1143964800, -21600, 3600, "CDT")
         } else {
          Table::row(1162105200, -21600, 0, "CST")
         }
        } else {
         if i < 37 {
          Table::row(1175414400, -21600, 3600, "CDT")
         } else {
          Table::row(1193554800, -21600, 0, "CST")
         }
        }
       } else {
        if i < 40 {
         if i < 39 {
          Table::row(1207468800, -21600, 3600, "CDT")
         } else {
          Table::row(1225004400, -21600, 0, "CST")
         }
        } else {
         if i < 41 {
          Table::row(1238918400, -21600, 3600, "CDT")
         } else {
          Table::row(1256454000, -21600, 0, "CST")
         }
        }
       }
      } else {
       if i < 46 {
        if i < 44 {
         if i < 43 {
          Table::row(1270368000, -21600, 3600, "CDT")
         } else {
          Table::row(1288508400, -21600, 0, "CST")
         }
        } else {
         if i < 45 {
          Table::row(1301817600, -21600, 3600, "CDT")
         } else {
          Table::row(1319958000, -21600, 0, "CST")
         }
        }
       } else {
        if i < 48 {
         if i < 47 {
          Table::row(1333267200, -21600, 3600, "CDT")
         } else {
          Table::row(1351407600, -21600, 0, "CST")
         }
        } else {
         if i < 49 {
          Table::row(1365321600, -21600, 3600, "CDT")
         } else {
          if i < 50 {
           Table::row(1382857200, -21600, 0, "CST")
          } else {
           Table::row(1396771200, -21600, 3600, "CDT")
          }
         }
        }
       }
      }
     } else {
      if i < 59 {
       if i < 55 {
        if i < 53 {
         if i < 52 {
          Table::row(1414306800, -21600, 0, "CST")
         } else {
          Table::row(1428220800, -21600, 3600, "CDT")
         }
        } else {
         if i < 54 {
          Table::row(1445756400, -21600, 0, "CST")
         } else {
          Table::row(1459670400, -21600, 3600, "CDT")
         }
        }
       } else {
        if i < 57 {
         if i < 56 {
          Table::row(1477810800, -21600, 0, "CST")
         } else {
          Table::row(1491120000, -21600, 3600, "CDT")
         }
        } else {
         if i < 58 {
          Table::row(1509260400, -21600, 0, "CST")
         } else {
          Table::row(1522569600, -21600, 3600, "CDT")
         }
        }
       }
      } else {
       if i < 63 {
        if i < 61 {
         if i < 60 {
          Table::row(1540710000, -21600, 0, "CST")
         } else {
          Table::row(1554624000, -21600, 3600, "CDT")
         }
        } else {
         if i < 62 {
          Table::row(1572159600, -21600, 0, "CST")
         } else {
          Table::row(1586073600, -21600, 3600, "CDT")
         }
        }
       } else {
        if i < 65 {
         if i < 64 {
          Table::row(1603609200, -21600, 0, "CST")
         } else {
          Table::row(1617523200, -21600, 3600, "CDT")
         }
        } else {
         if i < 66 {
          Table::row(1635663600, -21600, 0, "CST")
         } else {
          if i < 67 {
           Table::row(1648972800, -21600, 3600, "CDT")
          } else {
           Table::row(1667113200, -21600, 0, "CST")
          }
         }
        }
       }
      }
     }
    }
}

/// The rows of the table of the zone `Mexico/General`.
pub open spec fn general_rows() -> spec_fn(int) -> (i64, FixedTimespan) {
    |i: int| general_row(i)
}

/// The table of the zone `Mexico/General`.
pub open spec fn general() -> Table {
    Table::listed(Table::row(0, -23796, 0, "LMT").1, 68, general_rows())
}

} // verus!
